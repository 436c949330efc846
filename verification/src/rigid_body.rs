//! The kind of a rigid body and its dominance.

use vstd::prelude::*;

verus! {

/// How a body takes part in the simulation.
#[derive(Clone, Copy, Debug, PartialEq, Eq, Structural)]
pub enum RigidBody {
    /// Moved by forces and contacts; holds a finite mass and inertia.
    Dynamic,
    /// Never moves.
    Static,
    /// Moved by its velocity alone; contacts do not push it.
    Kinematic,
}

impl RigidBody {
    /// Whether the body is dynamic.
    pub fn is_dynamic(&self) -> (r: bool)
        ensures
            r == (*self is Dynamic),
    {
        match self {
            RigidBody::Dynamic => true,
            _ => false,
        }
    }

    /// Whether the body is static.
    pub fn is_static(&self) -> (r: bool)
        ensures
            r == (*self is Static),
    {
        match self {
            RigidBody::Static => true,
            _ => false,
        }
    }

    /// Whether the body is kinematic.
    pub fn is_kinematic(&self) -> (r: bool)
        ensures
            r == (*self is Kinematic),
    {
        match self {
            RigidBody::Kinematic => true,
            _ => false,
        }
    }
}

impl Default for RigidBody {
    fn default() -> (r: RigidBody)
        ensures
            r is Dynamic,
    {
        RigidBody::Dynamic
    }
}

/// The priority of a dynamic body in a contact: the body with the higher
/// value is not pushed by the other.
#[derive(Clone, Copy, Debug, PartialEq, Eq)]
pub struct Dominance(pub i8);

/// The dominance that a body of kind `rb` reports, given the override it
/// carries, if any.
pub open spec fn dominance_of(rb: RigidBody, dominance: Option<Dominance>) -> int {
    if !(rb is Dynamic) {
        i8::MAX as int
    } else {
        match dominance {
            Some(d) => d.0 as int,
            None => 0,
        }
    }
}

} // verus!
