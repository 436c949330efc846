//! Moments of inertia: the scalar of a body in the plane, the tensor of a
//! body in space, and their inverses.

use crate::components::Rotation3d;
use crate::matrix::{Mat3, Matrix3};
use crate::scalar::{fx_add, fx_mul, fx_recip, Scalar};
use crate::vector::{Vec2, Vec3, Vector2, Vector3};
use vstd::prelude::*;

verus! {

/// The moment `i` of a mass `m` about a point at the offset `d` from the
/// point it is given about: `i + m |d|²`.
pub open spec fn shift2(i: int, m: int, d: Vec2) -> int {
    fx_add(i, fx_mul(d.length_squared(), m))
}

/// The tensor `i` of a mass `m` about a point at the offset `d` from the
/// point it is given about: `i + m (|d|² 1 - d dᵗ)`.
pub open spec fn shift3(i: Mat3, m: int, d: Vec3) -> Mat3 {
    let len = d.length_squared();
    i.plus(Mat3::diagonal(Vec3 { x: len, y: len, z: len }).minus(Mat3::outer(d)).scaled(m))
}

/// The moment of inertia of a body in the plane, about its centre of mass.
#[derive(Clone, Copy, Debug, PartialEq, Eq)]
pub struct Inertia2d(pub Scalar);

/// The reciprocal of the moment of inertia of a body in the plane; zero
/// where the moment is zero.
#[derive(Clone, Copy, Debug, PartialEq, Eq)]
pub struct InverseInertia2d(pub Scalar);

/// The inertia tensor of a body in space, about its centre of mass and in
/// its own frame.
#[derive(Clone, Copy, Debug, PartialEq, Eq)]
pub struct Inertia3d(pub Matrix3);

/// The inverse of the inertia tensor of a body in space; zero where the
/// tensor is singular.
#[derive(Clone, Copy, Debug, PartialEq, Eq)]
pub struct InverseInertia3d(pub Matrix3);

impl Inertia2d {
    /// The moment about the point at `offset`, for a body of the given mass.
    pub fn shifted(&self, mass: Scalar, offset: Vector2) -> (r: Scalar)
        ensures
            r@ == shift2(self.0@, mass@, offset@),
    {
        self.0.add(offset.length_squared().mul(mass))
    }

    /// The reciprocal of the moment; zero where the moment is zero.
    pub fn inverse(&self) -> (r: InverseInertia2d)
        ensures
            r.0@ == fx_recip(self.0@),
    {
        InverseInertia2d(self.0.recip())
    }
}

impl InverseInertia2d {
    /// The moment that this is the reciprocal of; zero where this is zero.
    pub fn inverse(&self) -> (r: Inertia2d)
        ensures
            r.0@ == fx_recip(self.0@),
    {
        Inertia2d(self.0.recip())
    }
}

impl Inertia3d {
    /// The tensor about the point at `offset`, for a body of the given mass.
    pub fn shifted(&self, mass: Scalar, offset: Vector3) -> (r: Matrix3)
        ensures
            r@ == shift3(self.0@, mass@, offset@),
    {
        let diag: Matrix3 = Matrix3::from_diagonal(Vector3::splat(offset.length_squared()));
        self.0.add(diag.sub(Matrix3::outer(offset)).scale(mass))
    }

    /// The inverse of the tensor; zero where the tensor is singular.
    pub fn inverse(&self) -> (r: InverseInertia3d)
        ensures
            r.0@ == self.0@.inverted(),
    {
        InverseInertia3d(self.0.inverse())
    }

    /// The tensor in the world frame of a body turned by `rot`.
    pub fn rotated(&self, rot: &Rotation3d) -> (r: Inertia3d)
        ensures
            r.0@ == self.0@.rotated(rot.0@),
    {
        Inertia3d(self.0.rotated(rot.0))
    }
}

impl InverseInertia3d {
    /// The tensor that this is the inverse of; zero where this is singular.
    pub fn inverse(&self) -> (r: Inertia3d)
        ensures
            r.0@ == self.0@.inverted(),
    {
        Inertia3d(self.0.inverse())
    }

    /// The inverse tensor in the world frame of a body turned by `rot`.
    pub fn rotated(&self, rot: &Rotation3d) -> (r: InverseInertia3d)
        ensures
            r.0@ == self.0@.rotated(rot.0@),
    {
        InverseInertia3d(self.0.rotated(rot.0))
    }
}

} // verus!
