//! Quaternions of fixed-point numbers, which stand for rotations in space.

use crate::scalar::{Scalar, ONE_RAW};
use vstd::prelude::*;

verus! {

/// The raw components of a quaternion.
pub struct Quat {
    pub x: int,
    pub y: int,
    pub z: int,
    pub w: int,
}

impl Quat {
    /// The quaternion of the rotation that turns nothing.
    pub open spec fn identity() -> Quat {
        Quat { x: 0, y: 0, z: 0, w: ONE_RAW as int }
    }
}

/// A quaternion `x i + y j + z k + w`.
#[derive(Clone, Copy, Debug, PartialEq, Eq, Structural)]
pub struct Quaternion {
    pub x: Scalar,
    pub y: Scalar,
    pub z: Scalar,
    pub w: Scalar,
}

impl View for Quaternion {
    type V = Quat;

    open spec fn view(&self) -> Quat {
        Quat { x: self.x@, y: self.y@, z: self.z@, w: self.w@ }
    }
}

impl Quaternion {
    /// The quaternion with the given components.
    pub fn new(x: Scalar, y: Scalar, z: Scalar, w: Scalar) -> (r: Quaternion)
        ensures
            r@ == (Quat { x: x@, y: y@, z: z@, w: w@ }),
    {
        Quaternion { x, y, z, w }
    }

    /// The quaternion of the rotation that turns nothing.
    pub fn identity() -> (r: Quaternion)
        ensures
            r@ == Quat::identity(),
    {
        Quaternion { x: Scalar::zero(), y: Scalar::zero(), z: Scalar::zero(), w: Scalar::one() }
    }
}

} // verus!
