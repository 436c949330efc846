//! The mass properties of a body and how the contribution of a collider is
//! merged into them and taken out again.

use crate::components::{CenterOfMass2d, CenterOfMass3d, InverseMass, Mass};
use crate::inertia::{
    shift2, shift3, Inertia2d, Inertia3d, InverseInertia2d, InverseInertia3d,
};
use crate::matrix::{Mat3, Matrix3};
use crate::scalar::{fx_add, fx_max, fx_recip, fx_sub, Scalar, EPSILON_RAW};
use crate::vector::{Vec2, Vec3, Vector2, Vector3};
use vstd::prelude::*;

verus! {

/// The raw mass properties of a body, or of the contribution of a collider,
/// in the plane.
pub struct MassProps2 {
    pub mass: int,
    pub inverse_mass: int,
    pub inertia: int,
    pub inverse_inertia: int,
    pub center_of_mass: Vec2,
}

impl MassProps2 {
    /// The properties after the contribution `c` has been merged in.
    ///
    /// Nothing changes where the masses do not add up to more than zero.
    /// Else the new centre of mass is the mean of the two, weighted by the
    /// masses, and the new inertia is the sum of the two, each moved to the
    /// new centre of mass.
    pub open spec fn combined(self, c: MassProps2) -> MassProps2 {
        let new_mass = fx_add(self.mass, c.mass);
        if new_mass <= 0 {
            self
        } else {
            let new_com = Vec2::mix(self.center_of_mass, self.mass, c.center_of_mass, c.mass, new_mass);
            let i1 = shift2(self.inertia, self.mass, new_com.minus(self.center_of_mass));
            let i2 = shift2(c.inertia, c.mass, new_com.minus(c.center_of_mass));
            let new_inertia = fx_add(i1, i2);
            MassProps2 {
                mass: new_mass,
                inverse_mass: fx_recip(new_mass),
                inertia: new_inertia,
                inverse_inertia: fx_recip(new_inertia),
                center_of_mass: new_com,
            }
        }
    }

    /// The properties after the contribution `c` has been taken out.
    ///
    /// Nothing changes where the masses do not add up to more than zero.
    /// Else the new mass is the difference, or zero where that is negative;
    /// the centre of mass is kept where the new mass does not exceed the
    /// threshold; and the new inertia is the difference of the two, each
    /// moved to the new centre of mass.
    pub open spec fn decombined(self, c: MassProps2) -> MassProps2 {
        if fx_add(self.mass, c.mass) <= 0 {
            self
        } else {
            let new_mass = fx_max(fx_sub(self.mass, c.mass), 0);
            let new_com = if new_mass > EPSILON_RAW {
                Vec2::unmix(self.center_of_mass, self.mass, c.center_of_mass, c.mass, new_mass)
            } else {
                self.center_of_mass
            };
            let i1 = shift2(self.inertia, self.mass, new_com.minus(self.center_of_mass));
            let i2 = shift2(c.inertia, c.mass, new_com.minus(c.center_of_mass));
            let new_inertia = fx_sub(i1, i2);
            MassProps2 {
                mass: new_mass,
                inverse_mass: fx_recip(new_mass),
                inertia: new_inertia,
                inverse_inertia: fx_recip(new_inertia),
                center_of_mass: new_com,
            }
        }
    }

    /// Whether the mass is not negative and the two inverses are those of
    /// the mass and of the inertia.
    pub open spec fn consistent(self) -> bool {
        &&& self.mass >= 0
        &&& self.inverse_mass == fx_recip(self.mass)
        &&& self.inverse_inertia == fx_recip(self.inertia)
    }
}

/// The raw mass properties of a body, or of the contribution of a collider,
/// in space.
pub struct MassProps3 {
    pub mass: int,
    pub inverse_mass: int,
    pub inertia: Mat3,
    pub inverse_inertia: Mat3,
    pub center_of_mass: Vec3,
}

impl MassProps3 {
    /// The properties after the contribution `c` has been merged in.
    ///
    /// Nothing changes where the masses do not add up to more than zero.
    /// Else the new centre of mass is the mean of the two, weighted by the
    /// masses, and the new inertia is the sum of the two, each moved to the
    /// new centre of mass.
    pub open spec fn combined(self, c: MassProps3) -> MassProps3 {
        let new_mass = fx_add(self.mass, c.mass);
        if new_mass <= 0 {
            self
        } else {
            let new_com = Vec3::mix(self.center_of_mass, self.mass, c.center_of_mass, c.mass, new_mass);
            let i1 = shift3(self.inertia, self.mass, new_com.minus(self.center_of_mass));
            let i2 = shift3(c.inertia, c.mass, new_com.minus(c.center_of_mass));
            let new_inertia = i1.plus(i2);
            MassProps3 {
                mass: new_mass,
                inverse_mass: fx_recip(new_mass),
                inertia: new_inertia,
                inverse_inertia: new_inertia.inverted(),
                center_of_mass: new_com,
            }
        }
    }

    /// The properties after the contribution `c` has been taken out.
    ///
    /// Nothing changes where the masses do not add up to more than zero.
    /// Else the new mass is the difference, or zero where that is negative;
    /// the centre of mass is kept where the new mass does not exceed the
    /// threshold; and the new inertia is the difference of the two, each
    /// moved to the new centre of mass.
    pub open spec fn decombined(self, c: MassProps3) -> MassProps3 {
        if fx_add(self.mass, c.mass) <= 0 {
            self
        } else {
            let new_mass = fx_max(fx_sub(self.mass, c.mass), 0);
            let new_com = if new_mass > EPSILON_RAW {
                Vec3::unmix(self.center_of_mass, self.mass, c.center_of_mass, c.mass, new_mass)
            } else {
                self.center_of_mass
            };
            let i1 = shift3(self.inertia, self.mass, new_com.minus(self.center_of_mass));
            let i2 = shift3(c.inertia, c.mass, new_com.minus(c.center_of_mass));
            let new_inertia = i1.minus(i2);
            MassProps3 {
                mass: new_mass,
                inverse_mass: fx_recip(new_mass),
                inertia: new_inertia,
                inverse_inertia: new_inertia.inverted(),
                center_of_mass: new_com,
            }
        }
    }

    /// Whether the mass is not negative and the two inverses are those of
    /// the mass and of the inertia.
    pub open spec fn consistent(self) -> bool {
        &&& self.mass >= 0
        &&& self.inverse_mass == fx_recip(self.mass)
        &&& self.inverse_inertia == self.inertia.inverted()
    }
}

/// What one collider adds to the mass properties of a body in the plane,
/// in the frame of the body.
#[derive(Clone, Copy, Debug, PartialEq, Eq)]
pub struct ColliderMassProperties2d {
    pub mass: Mass,
    pub inverse_mass: InverseMass,
    pub inertia: Inertia2d,
    pub inverse_inertia: InverseInertia2d,
    pub center_of_mass: CenterOfMass2d,
}

impl View for ColliderMassProperties2d {
    type V = MassProps2;

    open spec fn view(&self) -> MassProps2 {
        MassProps2 {
            mass: self.mass.0@,
            inverse_mass: self.inverse_mass.0@,
            inertia: self.inertia.0@,
            inverse_inertia: self.inverse_inertia.0@,
            center_of_mass: self.center_of_mass.0@,
        }
    }
}

impl ColliderMassProperties2d {
    /// The contribution with the given mass, inertia and centre of mass, and
    /// with the inverses that belong to them.
    pub fn new(mass: Mass, inertia: Inertia2d, center_of_mass: CenterOfMass2d) -> (r: ColliderMassProperties2d)
        ensures
            r@ == (MassProps2 {
                mass: mass.0@,
                inverse_mass: fx_recip(mass.0@),
                inertia: inertia.0@,
                inverse_inertia: fx_recip(inertia.0@),
                center_of_mass: center_of_mass.0@,
            }),
            mass.0@ >= 0 ==> r@.consistent(),
    {
        ColliderMassProperties2d {
            mass,
            inverse_mass: InverseMass(mass.0.recip()),
            inertia,
            inverse_inertia: inertia.inverse(),
            center_of_mass,
        }
    }
}

impl Default for ColliderMassProperties2d {
    /// No mass and no inertia, at the origin.
    fn default() -> (r: ColliderMassProperties2d)
        ensures
            r@ == (MassProps2 {
                mass: 0,
                inverse_mass: 0,
                inertia: 0,
                inverse_inertia: 0,
                center_of_mass: (Vec2 { x: 0, y: 0 }),
            }),
            r@.consistent(),
    {
        ColliderMassProperties2d {
            mass: Mass(Scalar::zero()),
            inverse_mass: InverseMass(Scalar::zero()),
            inertia: Inertia2d(Scalar::zero()),
            inverse_inertia: InverseInertia2d(Scalar::zero()),
            center_of_mass: CenterOfMass2d(Vector2::zero()),
        }
    }
}

/// The mass properties of a body in the plane.
#[derive(Clone, Copy, Debug, PartialEq, Eq)]
pub struct MassPropertiesQuery2dItem {
    pub mass: Mass,
    pub inverse_mass: InverseMass,
    pub inertia: Inertia2d,
    pub inverse_inertia: InverseInertia2d,
    pub center_of_mass: CenterOfMass2d,
}

impl View for MassPropertiesQuery2dItem {
    type V = MassProps2;

    open spec fn view(&self) -> MassProps2 {
        MassProps2 {
            mass: self.mass.0@,
            inverse_mass: self.inverse_mass.0@,
            inertia: self.inertia.0@,
            inverse_inertia: self.inverse_inertia.0@,
            center_of_mass: self.center_of_mass.0@,
        }
    }
}

impl MassPropertiesQuery2dItem {
    /// The mass properties with the given mass, inertia and centre of mass, and
    /// with the inverses that belong to them.
    pub fn new(mass: Mass, inertia: Inertia2d, center_of_mass: CenterOfMass2d) -> (r: MassPropertiesQuery2dItem)
        ensures
            r@ == (MassProps2 {
                mass: mass.0@,
                inverse_mass: fx_recip(mass.0@),
                inertia: inertia.0@,
                inverse_inertia: fx_recip(inertia.0@),
                center_of_mass: center_of_mass.0@,
            }),
            mass.0@ >= 0 ==> r@.consistent(),
    {
        MassPropertiesQuery2dItem {
            mass,
            inverse_mass: InverseMass(mass.0.recip()),
            inertia,
            inverse_inertia: inertia.inverse(),
            center_of_mass,
        }
    }
}

impl Default for MassPropertiesQuery2dItem {
    /// No mass and no inertia, at the origin.
    fn default() -> (r: MassPropertiesQuery2dItem)
        ensures
            r@ == (MassProps2 {
                mass: 0,
                inverse_mass: 0,
                inertia: 0,
                inverse_inertia: 0,
                center_of_mass: (Vec2 { x: 0, y: 0 }),
            }),
            r@.consistent(),
    {
        MassPropertiesQuery2dItem {
            mass: Mass(Scalar::zero()),
            inverse_mass: InverseMass(Scalar::zero()),
            inertia: Inertia2d(Scalar::zero()),
            inverse_inertia: InverseInertia2d(Scalar::zero()),
            center_of_mass: CenterOfMass2d(Vector2::zero()),
        }
    }
}

impl MassPropertiesQuery2dItem {
    /// Merges the contribution of a collider into the mass properties.
    pub fn add_assign(&mut self, rhs: ColliderMassProperties2d)
        ensures
            final(self)@ == old(self)@.combined(rhs@),
            old(self)@.consistent() ==> final(self)@.consistent(),
    {
        let new_mass: Scalar = self.mass.0.add(rhs.mass.0);
        if !new_mass.is_positive() {
            return ;
        }
        let com1: Vector2 = self.center_of_mass.0;
        let com2: Vector2 = rhs.center_of_mass.0;
        let new_com: Vector2 = Vector2::mix(com1, self.mass.0, com2, rhs.mass.0, new_mass);
        let i1: Scalar = self.inertia.shifted(self.mass.0, new_com.sub(com1));
        let i2: Scalar = rhs.inertia.shifted(rhs.mass.0, new_com.sub(com2));
        let new_inertia: Scalar = i1.add(i2);

        self.mass.0 = new_mass;
        self.inverse_mass.0 = self.mass.0.recip();
        self.inertia.0 = new_inertia;
        self.inverse_inertia.0 = self.inertia.inverse().0;
        self.center_of_mass.0 = new_com;
    }

    /// Takes the contribution of a collider out of the mass properties.
    pub fn sub_assign(&mut self, rhs: ColliderMassProperties2d)
        ensures
            final(self)@ == old(self)@.decombined(rhs@),
            old(self)@.consistent() ==> final(self)@.consistent(),
    {
        if !self.mass.0.add(rhs.mass.0).is_positive() {
            return ;
        }
        let new_mass: Scalar = self.mass.0.sub(rhs.mass.0).max(Scalar::zero());
        let com1: Vector2 = self.center_of_mass.0;
        let com2: Vector2 = rhs.center_of_mass.0;
        let new_com: Vector2 = if new_mass.gt(Scalar::epsilon()) {
            Vector2::unmix(com1, self.mass.0, com2, rhs.mass.0, new_mass)
        } else {
            com1
        };
        let i1: Scalar = self.inertia.shifted(self.mass.0, new_com.sub(com1));
        let i2: Scalar = rhs.inertia.shifted(rhs.mass.0, new_com.sub(com2));
        let new_inertia: Scalar = i1.sub(i2);

        self.mass.0 = new_mass;
        self.inverse_mass.0 = self.mass.0.recip();
        self.inertia.0 = new_inertia;
        self.inverse_inertia.0 = self.inertia.inverse().0;
        self.center_of_mass.0 = new_com;
    }
}

/// What one collider adds to the mass properties of a body in space, in the
/// frame of the body.
#[derive(Clone, Copy, Debug, PartialEq, Eq)]
pub struct ColliderMassProperties3d {
    pub mass: Mass,
    pub inverse_mass: InverseMass,
    pub inertia: Inertia3d,
    pub inverse_inertia: InverseInertia3d,
    pub center_of_mass: CenterOfMass3d,
}

impl View for ColliderMassProperties3d {
    type V = MassProps3;

    open spec fn view(&self) -> MassProps3 {
        MassProps3 {
            mass: self.mass.0@,
            inverse_mass: self.inverse_mass.0@,
            inertia: self.inertia.0@,
            inverse_inertia: self.inverse_inertia.0@,
            center_of_mass: self.center_of_mass.0@,
        }
    }
}

impl ColliderMassProperties3d {
    /// The contribution with the given mass, inertia and centre of mass, and
    /// with the inverses that belong to them.
    pub fn new(mass: Mass, inertia: Inertia3d, center_of_mass: CenterOfMass3d) -> (r: ColliderMassProperties3d)
        ensures
            r@ == (MassProps3 {
                mass: mass.0@,
                inverse_mass: fx_recip(mass.0@),
                inertia: inertia.0@,
                inverse_inertia: inertia.0@.inverted(),
                center_of_mass: center_of_mass.0@,
            }),
            mass.0@ >= 0 ==> r@.consistent(),
    {
        ColliderMassProperties3d {
            mass,
            inverse_mass: InverseMass(mass.0.recip()),
            inertia,
            inverse_inertia: inertia.inverse(),
            center_of_mass,
        }
    }
}

impl Default for ColliderMassProperties3d {
    /// No mass and no inertia, at the origin.
    fn default() -> (r: ColliderMassProperties3d)
        ensures
            r@ == (MassProps3 {
                mass: 0,
                inverse_mass: 0,
                inertia: Mat3::zero(),
                inverse_inertia: Mat3::zero(),
                center_of_mass: (Vec3 { x: 0, y: 0, z: 0 }),
            }),
            r@.consistent(),
    {
        ColliderMassProperties3d {
            mass: Mass(Scalar::zero()),
            inverse_mass: InverseMass(Scalar::zero()),
            inertia: Inertia3d(Matrix3::zero()),
            inverse_inertia: InverseInertia3d(Matrix3::zero()),
            center_of_mass: CenterOfMass3d(Vector3::zero()),
        }
    }
}

/// The mass properties of a body in space.
#[derive(Clone, Copy, Debug, PartialEq, Eq)]
pub struct MassPropertiesQuery3dItem {
    pub mass: Mass,
    pub inverse_mass: InverseMass,
    pub inertia: Inertia3d,
    pub inverse_inertia: InverseInertia3d,
    pub center_of_mass: CenterOfMass3d,
}

impl View for MassPropertiesQuery3dItem {
    type V = MassProps3;

    open spec fn view(&self) -> MassProps3 {
        MassProps3 {
            mass: self.mass.0@,
            inverse_mass: self.inverse_mass.0@,
            inertia: self.inertia.0@,
            inverse_inertia: self.inverse_inertia.0@,
            center_of_mass: self.center_of_mass.0@,
        }
    }
}

impl MassPropertiesQuery3dItem {
    /// The mass properties with the given mass, inertia and centre of mass, and
    /// with the inverses that belong to them.
    pub fn new(mass: Mass, inertia: Inertia3d, center_of_mass: CenterOfMass3d) -> (r: MassPropertiesQuery3dItem)
        ensures
            r@ == (MassProps3 {
                mass: mass.0@,
                inverse_mass: fx_recip(mass.0@),
                inertia: inertia.0@,
                inverse_inertia: inertia.0@.inverted(),
                center_of_mass: center_of_mass.0@,
            }),
            mass.0@ >= 0 ==> r@.consistent(),
    {
        MassPropertiesQuery3dItem {
            mass,
            inverse_mass: InverseMass(mass.0.recip()),
            inertia,
            inverse_inertia: inertia.inverse(),
            center_of_mass,
        }
    }
}

impl Default for MassPropertiesQuery3dItem {
    /// No mass and no inertia, at the origin.
    fn default() -> (r: MassPropertiesQuery3dItem)
        ensures
            r@ == (MassProps3 {
                mass: 0,
                inverse_mass: 0,
                inertia: Mat3::zero(),
                inverse_inertia: Mat3::zero(),
                center_of_mass: (Vec3 { x: 0, y: 0, z: 0 }),
            }),
            r@.consistent(),
    {
        MassPropertiesQuery3dItem {
            mass: Mass(Scalar::zero()),
            inverse_mass: InverseMass(Scalar::zero()),
            inertia: Inertia3d(Matrix3::zero()),
            inverse_inertia: InverseInertia3d(Matrix3::zero()),
            center_of_mass: CenterOfMass3d(Vector3::zero()),
        }
    }
}

impl MassPropertiesQuery3dItem {
    /// Merges the contribution of a collider into the mass properties.
    pub fn add_assign(&mut self, rhs: ColliderMassProperties3d)
        ensures
            final(self)@ == old(self)@.combined(rhs@),
            old(self)@.consistent() ==> final(self)@.consistent(),
    {
        let new_mass: Scalar = self.mass.0.add(rhs.mass.0);
        if !new_mass.is_positive() {
            return ;
        }
        let com1: Vector3 = self.center_of_mass.0;
        let com2: Vector3 = rhs.center_of_mass.0;
        let new_com: Vector3 = Vector3::mix(com1, self.mass.0, com2, rhs.mass.0, new_mass);
        let i1: Matrix3 = self.inertia.shifted(self.mass.0, new_com.sub(com1));
        let i2: Matrix3 = rhs.inertia.shifted(rhs.mass.0, new_com.sub(com2));
        let new_inertia: Matrix3 = i1.add(i2);

        self.mass.0 = new_mass;
        self.inverse_mass.0 = self.mass.0.recip();
        self.inertia.0 = new_inertia;
        self.inverse_inertia.0 = self.inertia.inverse().0;
        self.center_of_mass.0 = new_com;
    }

    /// Takes the contribution of a collider out of the mass properties.
    pub fn sub_assign(&mut self, rhs: ColliderMassProperties3d)
        ensures
            final(self)@ == old(self)@.decombined(rhs@),
            old(self)@.consistent() ==> final(self)@.consistent(),
    {
        if !self.mass.0.add(rhs.mass.0).is_positive() {
            return ;
        }
        let new_mass: Scalar = self.mass.0.sub(rhs.mass.0).max(Scalar::zero());
        let com1: Vector3 = self.center_of_mass.0;
        let com2: Vector3 = rhs.center_of_mass.0;
        let new_com: Vector3 = if new_mass.gt(Scalar::epsilon()) {
            Vector3::unmix(com1, self.mass.0, com2, rhs.mass.0, new_mass)
        } else {
            com1
        };
        let i1: Matrix3 = self.inertia.shifted(self.mass.0, new_com.sub(com1));
        let i2: Matrix3 = rhs.inertia.shifted(rhs.mass.0, new_com.sub(com2));
        let new_inertia: Matrix3 = i1.sub(i2);

        self.mass.0 = new_mass;
        self.inverse_mass.0 = self.mass.0.recip();
        self.inertia.0 = new_inertia;
        self.inverse_inertia.0 = self.inertia.inverse().0;
        self.center_of_mass.0 = new_com;
    }
}

} // verus!
