//! Mass properties of rigid bodies in fixed-point arithmetic.
//!
//! The crate keeps the mass, the centre of mass and the inertia of a rigid
//! body in the plane or in space, merges the contribution of a collider
//! into them and takes it out again, and derives the values that a
//! constraint solver reads from a body: the inverse mass and the inverse
//! inertia with the locked axes masked out, the current position and the
//! dominance.
//!
//! Every number is a [`scalar::Scalar`], a signed fixed-point number with 32
//! fractional bits. Its operations are total and the same on every machine:
//! a quotient is rounded toward zero, a result out of range goes to the
//! nearest end of the range, and a division by zero gives zero. No function
//! of the crate panics and none has a precondition.
//!
//! Each type has a view made of mathematical integers, the raw values, and
//! each function states its result over the views:
//!
//! - [`scalar`], [`vector`], [`matrix`] and [`quaternion`] hold the numbers;
//! - [`inertia`] moves a moment of inertia to another point, inverts it and
//!   turns it into the world frame;
//! - [`aggregation`] merges contributions and takes them out;
//! - [`components`], [`rigid_body`] and [`locked_axes`] hold the parts of
//!   the record of a body, and [`queries`] what the solver reads from it;
//! - [`laws`] proves that consistent mass properties stay consistent and
//!   that a mass never becomes negative, [`round_trip`] that taking out
//!   what was merged in gives the mass properties back up to the rounding,
//!   and [`rounding`] holds what both need of the rounded quotients.

pub mod aggregation;
pub mod components;
pub mod inertia;
pub mod laws;
pub mod locked_axes;
pub mod matrix;
pub mod quaternion;
pub mod queries;
pub mod rigid_body;
pub mod round_trip;
pub mod rounding;
pub mod scalar;
pub mod vector;
