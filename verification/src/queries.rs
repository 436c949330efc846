//! Rigid bodies as a query hands them out, and the values that the
//! constraint solver reads from them.

use crate::aggregation::{MassPropertiesQuery2dItem, MassPropertiesQuery3dItem};
use crate::components::{
    AccumulatedTranslation2d, AccumulatedTranslation3d, AngularVelocity2d, AngularVelocity3d,
    CenterOfMass2d, CenterOfMass3d, InverseMass, LinearVelocity2d, LinearVelocity3d, Mass,
    Position2d, Position3d, PreSolveAngularVelocity2d, PreSolveAngularVelocity3d,
    PreSolveLinearVelocity2d, PreSolveLinearVelocity3d, PreviousPosition2d, PreviousPosition3d,
    PreviousRotation2d, PreviousRotation3d, Rotation2d, Rotation3d,
};
use crate::inertia::{Inertia2d, Inertia3d, InverseInertia2d, InverseInertia3d};
use crate::locked_axes::{LockedAxes2d, LockedAxes3d};
use crate::matrix::{Mat3, Matrix3};
use crate::rigid_body::{dominance_of, Dominance, RigidBody};
use crate::scalar::Scalar;
use crate::vector::{Vec2, Vec3, Vector2, Vector3};
use vstd::prelude::*;

verus! {

/// Which of the two kinds of rigid body an entity carries: one in the
/// plane, one in space, both or neither.
#[derive(Clone, Copy, Debug, PartialEq, Eq)]
pub struct IsRigidBody {
    /// The body in the plane, if the entity carries one.
    pub rb_2d: Option<RigidBody>,
    /// The body in space, if the entity carries one.
    pub rb_3d: Option<RigidBody>,
}

/// Whether an entity carries a rigid body of each kind.
#[derive(Clone, Copy, Debug, PartialEq, Eq)]
pub struct IsRigidBodyItem {
    /// Whether the entity carries a body in the plane.
    pub rb_2d: bool,
    /// Whether the entity carries a body in space.
    pub rb_3d: bool,
}

impl IsRigidBody {
    /// Which kinds of body the entity carries.
    pub fn item(&self) -> (r: IsRigidBodyItem)
        ensures
            r.rb_2d == self.rb_2d.is_some(),
            r.rb_3d == self.rb_3d.is_some(),
    {
        IsRigidBodyItem { rb_2d: self.rb_2d.is_some(), rb_3d: self.rb_3d.is_some() }
    }
}

impl IsRigidBodyItem {
    /// Whether the entity is a rigid body of either kind.
    pub fn get(&self) -> (r: bool)
        ensures
            r == (self.rb_2d || self.rb_3d),
    {
        self.rb_2d || self.rb_3d
    }
}

/// The record of one rigid body in the plane.
#[derive(Clone, Copy, Debug, PartialEq, Eq)]
pub struct RigidBodyQuery2d {
    /// The kind of the body.
    pub rb: RigidBody,
    /// The committed position.
    pub position: Position2d,
    /// The rotation.
    pub rotation: Rotation2d,
    /// The position at the start of the step.
    pub previous_position: PreviousPosition2d,
    /// The rotation at the start of the step.
    pub previous_rotation: PreviousRotation2d,
    /// The translation gathered since the position was committed.
    pub accumulated_translation: AccumulatedTranslation2d,
    /// The linear velocity.
    pub linear_velocity: LinearVelocity2d,
    /// The linear velocity before the constraints were solved.
    pub pre_solve_linear_velocity: PreSolveLinearVelocity2d,
    /// The angular velocity.
    pub angular_velocity: AngularVelocity2d,
    /// The angular velocity before the constraints were solved.
    pub pre_solve_angular_velocity: PreSolveAngularVelocity2d,
    /// The mass.
    pub mass: Mass,
    /// The reciprocal of the mass.
    pub inverse_mass: InverseMass,
    /// The inertia about the centre of mass.
    pub inertia: Inertia2d,
    /// The inverse of the inertia.
    pub inverse_inertia: InverseInertia2d,
    /// The centre of mass, in the frame of the body.
    pub center_of_mass: CenterOfMass2d,
    /// The locked axes, if any are named.
    pub locked_axes: Option<LockedAxes2d>,
    /// The dominance that overrides the default, if any.
    pub dominance: Option<Dominance>,
}

/// One rigid body in the plane, as a query hands it out: a reference to each part of its record.
#[derive(Clone, Copy, Debug)]
pub struct RigidBodyQuery2dItem<'w> {
    /// The kind of the body.
    pub rb: &'w RigidBody,
    /// The committed position.
    pub position: &'w Position2d,
    /// The rotation.
    pub rotation: &'w Rotation2d,
    /// The position at the start of the step.
    pub previous_position: &'w PreviousPosition2d,
    /// The rotation at the start of the step.
    pub previous_rotation: &'w PreviousRotation2d,
    /// The translation gathered since the position was committed.
    pub accumulated_translation: &'w AccumulatedTranslation2d,
    /// The linear velocity.
    pub linear_velocity: &'w LinearVelocity2d,
    /// The linear velocity before the constraints were solved.
    pub pre_solve_linear_velocity: &'w PreSolveLinearVelocity2d,
    /// The angular velocity.
    pub angular_velocity: &'w AngularVelocity2d,
    /// The angular velocity before the constraints were solved.
    pub pre_solve_angular_velocity: &'w PreSolveAngularVelocity2d,
    /// The mass.
    pub mass: &'w Mass,
    /// The reciprocal of the mass.
    pub inverse_mass: &'w InverseMass,
    /// The inertia about the centre of mass.
    pub inertia: &'w Inertia2d,
    /// The inverse of the inertia.
    pub inverse_inertia: &'w InverseInertia2d,
    /// The centre of mass, in the frame of the body.
    pub center_of_mass: &'w CenterOfMass2d,
    /// The locked axes, if any are named.
    pub locked_axes: Option<&'w LockedAxes2d>,
    /// The dominance that overrides the default, if any.
    pub dominance: Option<&'w Dominance>,
}

impl RigidBodyQuery2d {
    /// The body as a query hands it out.
    pub fn item(&self) -> (r: RigidBodyQuery2dItem<'_>)
        ensures
            *r.rb == self.rb,
            *r.position == self.position,
            *r.rotation == self.rotation,
            *r.previous_position == self.previous_position,
            *r.previous_rotation == self.previous_rotation,
            *r.accumulated_translation == self.accumulated_translation,
            *r.linear_velocity == self.linear_velocity,
            *r.pre_solve_linear_velocity == self.pre_solve_linear_velocity,
            *r.angular_velocity == self.angular_velocity,
            *r.pre_solve_angular_velocity == self.pre_solve_angular_velocity,
            *r.mass == self.mass,
            *r.inverse_mass == self.inverse_mass,
            *r.inertia == self.inertia,
            *r.inverse_inertia == self.inverse_inertia,
            *r.center_of_mass == self.center_of_mass,
            r.locks() == self.locked_axes,
            r.dominance_override() == self.dominance,
    {
        RigidBodyQuery2dItem {
            rb: &self.rb,
            position: &self.position,
            rotation: &self.rotation,
            previous_position: &self.previous_position,
            previous_rotation: &self.previous_rotation,
            accumulated_translation: &self.accumulated_translation,
            linear_velocity: &self.linear_velocity,
            pre_solve_linear_velocity: &self.pre_solve_linear_velocity,
            angular_velocity: &self.angular_velocity,
            pre_solve_angular_velocity: &self.pre_solve_angular_velocity,
            mass: &self.mass,
            inverse_mass: &self.inverse_mass,
            inertia: &self.inertia,
            inverse_inertia: &self.inverse_inertia,
            center_of_mass: &self.center_of_mass,
            locked_axes: self.locked_axes.as_ref(),
            dominance: self.dominance.as_ref(),
        }
    }

    /// The mass properties of the body.
    pub fn mass_properties(&self) -> (r: MassPropertiesQuery2dItem)
        ensures
            r.mass == self.mass,
            r.inverse_mass == self.inverse_mass,
            r.inertia == self.inertia,
            r.inverse_inertia == self.inverse_inertia,
            r.center_of_mass == self.center_of_mass,
    {
        MassPropertiesQuery2dItem {
            mass: self.mass,
            inverse_mass: self.inverse_mass,
            inertia: self.inertia,
            inverse_inertia: self.inverse_inertia,
            center_of_mass: self.center_of_mass,
        }
    }

    /// Replaces the mass properties of the body and leaves the rest of the record.
    pub fn set_mass_properties(&mut self, props: MassPropertiesQuery2dItem)
        ensures
            *final(self) == (RigidBodyQuery2d {
                mass: props.mass,
                inverse_mass: props.inverse_mass,
                inertia: props.inertia,
                inverse_inertia: props.inverse_inertia,
                center_of_mass: props.center_of_mass,
                ..*old(self)
            }),
    {
        self.mass = props.mass;
        self.inverse_mass = props.inverse_mass;
        self.inertia = props.inertia;
        self.inverse_inertia = props.inverse_inertia;
        self.center_of_mass = props.center_of_mass;
    }
}

impl<'w> RigidBodyQuery2dItem<'w> {
    /// The locked axes of the body, if any are named.
    pub open spec fn locks(&self) -> Option<LockedAxes2d> {
        match self.locked_axes {
            Some(l) => Some(*l),
            None => None,
        }
    }

    /// The dominance that overrides the default, if any.
    pub open spec fn dominance_override(&self) -> Option<Dominance> {
        match self.dominance {
            Some(d) => Some(*d),
            None => None,
        }
    }

    /// The inverse mass that the solver uses along each axis: the stored
    /// one, or zero along a locked axis.
    pub open spec fn effective_inv_mass_spec(&self) -> Vec2 {
        let m = self.inverse_mass.0@;
        let all = Vec2 { x: m, y: m };
        match self.locks() {
            Some(l) => l@.mask_vec(all),
            None => all,
        }
    }

    /// The inverse inertia that the solver uses: the stored one, or zero where the
    /// rotation is locked.
    pub open spec fn effective_world_inv_inertia_spec(&self) -> int {
        let i = self.inverse_inertia.0@;
        match self.locks() {
            Some(l) => l@.mask_rotation(i),
            None => i,
        }
    }

    /// Computes the effective inverse mass, taking into account any translation locking.
    pub fn effective_inv_mass(&self) -> (r: Vector2)
        ensures
            r@ == self.effective_inv_mass_spec(),
    {
        let mut inv_mass: Vector2 = Vector2::splat(self.inverse_mass.0);

        if let Some(locked_axes) = self.locked_axes {
            inv_mass = locked_axes.apply_to_vec(inv_mass);
        }

        inv_mass
    }

    /// Computes the effective world-space inverse inertia, taking into account any rotation locking.
    pub fn effective_world_inv_inertia(&self) -> (r: Scalar)
        ensures
            r@ == self.effective_world_inv_inertia_spec(),
    {
        let mut inv_inertia: Scalar = self.inverse_inertia.0;

        if let Some(locked_axes) = self.locked_axes {
            inv_inertia = locked_axes.apply_to_rotation(inv_inertia);
        }

        inv_inertia
    }

    /// Returns the current position of the body: the sum of the committed
    /// position and the accumulated translation.
    pub fn current_position(&self) -> (r: Vector2)
        ensures
            r@ == self.position.0@.plus(self.accumulated_translation.0@),
    {
        self.position.0.add(self.accumulated_translation.0)
    }

    /// Returns the dominance of the body.
    ///
    /// A static or kinematic body always has the highest dominance, `i8::MAX`.
    /// A dynamic body has the dominance that it carries, or `0` where it carries none.
    pub fn dominance(&self) -> (r: i8)
        ensures
            r == dominance_of(*self.rb, self.dominance_override()),
    {
        if !self.rb.is_dynamic() {
            i8::MAX
        } else {
            match self.dominance {
                Some(dominance) => dominance.0,
                None => 0,
            }
        }
    }
}

/// The record of one rigid body in space.
#[derive(Clone, Copy, Debug, PartialEq, Eq)]
pub struct RigidBodyQuery3d {
    /// The kind of the body.
    pub rb: RigidBody,
    /// The committed position.
    pub position: Position3d,
    /// The rotation.
    pub rotation: Rotation3d,
    /// The position at the start of the step.
    pub previous_position: PreviousPosition3d,
    /// The rotation at the start of the step.
    pub previous_rotation: PreviousRotation3d,
    /// The translation gathered since the position was committed.
    pub accumulated_translation: AccumulatedTranslation3d,
    /// The linear velocity.
    pub linear_velocity: LinearVelocity3d,
    /// The linear velocity before the constraints were solved.
    pub pre_solve_linear_velocity: PreSolveLinearVelocity3d,
    /// The angular velocity.
    pub angular_velocity: AngularVelocity3d,
    /// The angular velocity before the constraints were solved.
    pub pre_solve_angular_velocity: PreSolveAngularVelocity3d,
    /// The mass.
    pub mass: Mass,
    /// The reciprocal of the mass.
    pub inverse_mass: InverseMass,
    /// The inertia about the centre of mass.
    pub inertia: Inertia3d,
    /// The inverse of the inertia.
    pub inverse_inertia: InverseInertia3d,
    /// The centre of mass, in the frame of the body.
    pub center_of_mass: CenterOfMass3d,
    /// The locked axes, if any are named.
    pub locked_axes: Option<LockedAxes3d>,
    /// The dominance that overrides the default, if any.
    pub dominance: Option<Dominance>,
}

/// One rigid body in space, as a query hands it out: a reference to each part of its record.
#[derive(Clone, Copy, Debug)]
pub struct RigidBodyQuery3dItem<'w> {
    /// The kind of the body.
    pub rb: &'w RigidBody,
    /// The committed position.
    pub position: &'w Position3d,
    /// The rotation.
    pub rotation: &'w Rotation3d,
    /// The position at the start of the step.
    pub previous_position: &'w PreviousPosition3d,
    /// The rotation at the start of the step.
    pub previous_rotation: &'w PreviousRotation3d,
    /// The translation gathered since the position was committed.
    pub accumulated_translation: &'w AccumulatedTranslation3d,
    /// The linear velocity.
    pub linear_velocity: &'w LinearVelocity3d,
    /// The linear velocity before the constraints were solved.
    pub pre_solve_linear_velocity: &'w PreSolveLinearVelocity3d,
    /// The angular velocity.
    pub angular_velocity: &'w AngularVelocity3d,
    /// The angular velocity before the constraints were solved.
    pub pre_solve_angular_velocity: &'w PreSolveAngularVelocity3d,
    /// The mass.
    pub mass: &'w Mass,
    /// The reciprocal of the mass.
    pub inverse_mass: &'w InverseMass,
    /// The inertia about the centre of mass.
    pub inertia: &'w Inertia3d,
    /// The inverse of the inertia.
    pub inverse_inertia: &'w InverseInertia3d,
    /// The centre of mass, in the frame of the body.
    pub center_of_mass: &'w CenterOfMass3d,
    /// The locked axes, if any are named.
    pub locked_axes: Option<&'w LockedAxes3d>,
    /// The dominance that overrides the default, if any.
    pub dominance: Option<&'w Dominance>,
}

impl RigidBodyQuery3d {
    /// The body as a query hands it out.
    pub fn item(&self) -> (r: RigidBodyQuery3dItem<'_>)
        ensures
            *r.rb == self.rb,
            *r.position == self.position,
            *r.rotation == self.rotation,
            *r.previous_position == self.previous_position,
            *r.previous_rotation == self.previous_rotation,
            *r.accumulated_translation == self.accumulated_translation,
            *r.linear_velocity == self.linear_velocity,
            *r.pre_solve_linear_velocity == self.pre_solve_linear_velocity,
            *r.angular_velocity == self.angular_velocity,
            *r.pre_solve_angular_velocity == self.pre_solve_angular_velocity,
            *r.mass == self.mass,
            *r.inverse_mass == self.inverse_mass,
            *r.inertia == self.inertia,
            *r.inverse_inertia == self.inverse_inertia,
            *r.center_of_mass == self.center_of_mass,
            r.locks() == self.locked_axes,
            r.dominance_override() == self.dominance,
    {
        RigidBodyQuery3dItem {
            rb: &self.rb,
            position: &self.position,
            rotation: &self.rotation,
            previous_position: &self.previous_position,
            previous_rotation: &self.previous_rotation,
            accumulated_translation: &self.accumulated_translation,
            linear_velocity: &self.linear_velocity,
            pre_solve_linear_velocity: &self.pre_solve_linear_velocity,
            angular_velocity: &self.angular_velocity,
            pre_solve_angular_velocity: &self.pre_solve_angular_velocity,
            mass: &self.mass,
            inverse_mass: &self.inverse_mass,
            inertia: &self.inertia,
            inverse_inertia: &self.inverse_inertia,
            center_of_mass: &self.center_of_mass,
            locked_axes: self.locked_axes.as_ref(),
            dominance: self.dominance.as_ref(),
        }
    }

    /// The mass properties of the body.
    pub fn mass_properties(&self) -> (r: MassPropertiesQuery3dItem)
        ensures
            r.mass == self.mass,
            r.inverse_mass == self.inverse_mass,
            r.inertia == self.inertia,
            r.inverse_inertia == self.inverse_inertia,
            r.center_of_mass == self.center_of_mass,
    {
        MassPropertiesQuery3dItem {
            mass: self.mass,
            inverse_mass: self.inverse_mass,
            inertia: self.inertia,
            inverse_inertia: self.inverse_inertia,
            center_of_mass: self.center_of_mass,
        }
    }

    /// Replaces the mass properties of the body and leaves the rest of the record.
    pub fn set_mass_properties(&mut self, props: MassPropertiesQuery3dItem)
        ensures
            *final(self) == (RigidBodyQuery3d {
                mass: props.mass,
                inverse_mass: props.inverse_mass,
                inertia: props.inertia,
                inverse_inertia: props.inverse_inertia,
                center_of_mass: props.center_of_mass,
                ..*old(self)
            }),
    {
        self.mass = props.mass;
        self.inverse_mass = props.inverse_mass;
        self.inertia = props.inertia;
        self.inverse_inertia = props.inverse_inertia;
        self.center_of_mass = props.center_of_mass;
    }
}

impl<'w> RigidBodyQuery3dItem<'w> {
    /// The locked axes of the body, if any are named.
    pub open spec fn locks(&self) -> Option<LockedAxes3d> {
        match self.locked_axes {
            Some(l) => Some(*l),
            None => None,
        }
    }

    /// The dominance that overrides the default, if any.
    pub open spec fn dominance_override(&self) -> Option<Dominance> {
        match self.dominance {
            Some(d) => Some(*d),
            None => None,
        }
    }

    /// The inverse mass that the solver uses along each axis: the stored
    /// one, or zero along a locked axis.
    pub open spec fn effective_inv_mass_spec(&self) -> Vec3 {
        let m = self.inverse_mass.0@;
        let all = Vec3 { x: m, y: m, z: m };
        match self.locks() {
            Some(l) => l@.mask_vec(all),
            None => all,
        }
    }

    /// The inverse inertia that the solver uses: the stored tensor turned into
    /// the world frame, with the column of each locked rotation axis replaced by zero.
    pub open spec fn effective_world_inv_inertia_spec(&self) -> Mat3 {
        let i = self.inverse_inertia.0@.rotated(self.rotation.0@);
        match self.locks() {
            Some(l) => l@.mask_rotation(i),
            None => i,
        }
    }

    /// Computes the effective inverse mass, taking into account any translation locking.
    pub fn effective_inv_mass(&self) -> (r: Vector3)
        ensures
            r@ == self.effective_inv_mass_spec(),
    {
        let mut inv_mass: Vector3 = Vector3::splat(self.inverse_mass.0);

        if let Some(locked_axes) = self.locked_axes {
            inv_mass = locked_axes.apply_to_vec(inv_mass);
        }

        inv_mass
    }

    /// Computes the effective world-space inverse inertia tensor, taking into account any rotation locking.
    pub fn effective_world_inv_inertia(&self) -> (r: Matrix3)
        ensures
            r@ == self.effective_world_inv_inertia_spec(),
    {
        let mut inv_inertia: Matrix3 = self.inverse_inertia.rotated(self.rotation).0;

        if let Some(locked_axes) = self.locked_axes {
            inv_inertia = locked_axes.apply_to_rotation(inv_inertia);
        }

        inv_inertia
    }

    /// Returns the current position of the body: the sum of the committed
    /// position and the accumulated translation.
    pub fn current_position(&self) -> (r: Vector3)
        ensures
            r@ == self.position.0@.plus(self.accumulated_translation.0@),
    {
        self.position.0.add(self.accumulated_translation.0)
    }

    /// Returns the dominance of the body.
    ///
    /// A static or kinematic body always has the highest dominance, `i8::MAX`.
    /// A dynamic body has the dominance that it carries, or `0` where it carries none.
    pub fn dominance(&self) -> (r: i8)
        ensures
            r == dominance_of(*self.rb, self.dominance_override()),
    {
        if !self.rb.is_dynamic() {
            i8::MAX
        } else {
            match self.dominance {
                Some(dominance) => dominance.0,
                None => 0,
            }
        }
    }
}

} // verus!
