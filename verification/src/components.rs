//! The values that make up the record of a rigid body.

use crate::quaternion::Quaternion;
use crate::scalar::Scalar;
use crate::vector::{Vector2, Vector3};
use vstd::prelude::*;

verus! {

/// The mass of a body.
#[derive(Clone, Copy, Debug, PartialEq, Eq)]
pub struct Mass(pub Scalar);

/// The reciprocal of the mass of a body; zero for a body without mass.
#[derive(Clone, Copy, Debug, PartialEq, Eq)]
pub struct InverseMass(pub Scalar);

/// The centre of mass of a body in the plane, in the body's own frame.
#[derive(Clone, Copy, Debug, PartialEq, Eq)]
pub struct CenterOfMass2d(pub Vector2);

/// The centre of mass of a body in space, in the body's own frame.
#[derive(Clone, Copy, Debug, PartialEq, Eq)]
pub struct CenterOfMass3d(pub Vector3);

/// The committed position of a body in the plane.
#[derive(Clone, Copy, Debug, PartialEq, Eq)]
pub struct Position2d(pub Vector2);

/// The committed position of a body in space.
#[derive(Clone, Copy, Debug, PartialEq, Eq)]
pub struct Position3d(pub Vector3);

/// The position of a body in the plane at the start of the step.
#[derive(Clone, Copy, Debug, PartialEq, Eq)]
pub struct PreviousPosition2d(pub Vector2);

/// The position of a body in space at the start of the step.
#[derive(Clone, Copy, Debug, PartialEq, Eq)]
pub struct PreviousPosition3d(pub Vector3);

/// The translation that a body in the plane has gathered since its position was committed.
#[derive(Clone, Copy, Debug, PartialEq, Eq)]
pub struct AccumulatedTranslation2d(pub Vector2);

/// The translation that a body in space has gathered since its position was committed.
#[derive(Clone, Copy, Debug, PartialEq, Eq)]
pub struct AccumulatedTranslation3d(pub Vector3);

/// The rotation of a body in the plane, as the cosine and sine of its angle.
#[derive(Clone, Copy, Debug, PartialEq, Eq)]
pub struct Rotation2d {
    pub cos: Scalar,
    pub sin: Scalar,
}

/// The rotation of a body in space.
#[derive(Clone, Copy, Debug, PartialEq, Eq)]
pub struct Rotation3d(pub Quaternion);

/// The rotation of a body in the plane at the start of the step.
#[derive(Clone, Copy, Debug, PartialEq, Eq)]
pub struct PreviousRotation2d(pub Rotation2d);

/// The rotation of a body in space at the start of the step.
#[derive(Clone, Copy, Debug, PartialEq, Eq)]
pub struct PreviousRotation3d(pub Rotation3d);

/// The linear velocity of a body in the plane.
#[derive(Clone, Copy, Debug, PartialEq, Eq)]
pub struct LinearVelocity2d(pub Vector2);

/// The linear velocity of a body in space.
#[derive(Clone, Copy, Debug, PartialEq, Eq)]
pub struct LinearVelocity3d(pub Vector3);

/// The linear velocity of a body in the plane before the constraints were solved.
#[derive(Clone, Copy, Debug, PartialEq, Eq)]
pub struct PreSolveLinearVelocity2d(pub Vector2);

/// The linear velocity of a body in space before the constraints were solved.
#[derive(Clone, Copy, Debug, PartialEq, Eq)]
pub struct PreSolveLinearVelocity3d(pub Vector3);

/// The angular velocity of a body in the plane.
#[derive(Clone, Copy, Debug, PartialEq, Eq)]
pub struct AngularVelocity2d(pub Scalar);

/// The angular velocity of a body in space.
#[derive(Clone, Copy, Debug, PartialEq, Eq)]
pub struct AngularVelocity3d(pub Vector3);

/// The angular velocity of a body in the plane before the constraints were solved.
#[derive(Clone, Copy, Debug, PartialEq, Eq)]
pub struct PreSolveAngularVelocity2d(pub Scalar);

/// The angular velocity of a body in space before the constraints were solved.
#[derive(Clone, Copy, Debug, PartialEq, Eq)]
pub struct PreSolveAngularVelocity3d(pub Vector3);

} // verus!
