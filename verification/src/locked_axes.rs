//! Locked degrees of freedom, one bit for each axis.

use crate::matrix::{Mat3, Matrix3};
use crate::scalar::Scalar;
use crate::vector::{Vec2, Vec3, Vector2, Vector3};
use vstd::prelude::*;

verus! {

/// The bit of the translation along X.
pub const TRANSLATION_X: u8 = 0b100_000;

/// The bit of the translation along Y.
pub const TRANSLATION_Y: u8 = 0b010_000;

/// The bit of the translation along Z.
pub const TRANSLATION_Z: u8 = 0b001_000;

/// The bit of the rotation about X.
pub const ROTATION_X: u8 = 0b000_100;

/// The bit of the rotation about Y.
pub const ROTATION_Y: u8 = 0b000_010;

/// The bit of the rotation about Z, the only rotation in the plane.
pub const ROTATION_Z: u8 = 0b000_001;

/// Whether `bits` has the bit `mask`.
pub open spec fn has_bit(bits: u8, mask: u8) -> bool {
    bits & mask != 0
}

/// Setting one of the six bits sets that bit and leaves the other five.
proof fn lemma_set_bit(bits: u8, mask: u8)
    by (bit_vector)
    requires
        mask == 0b100_000 || mask == 0b010_000 || mask == 0b001_000 || mask == 0b000_100 || mask
            == 0b000_010 || mask == 0b000_001,
    ensures
        (bits | mask) & mask != 0,
        mask != 0b100_000 ==> ((bits | mask) & 0b100_000 != 0) == (bits & 0b100_000 != 0),
        mask != 0b010_000 ==> ((bits | mask) & 0b010_000 != 0) == (bits & 0b010_000 != 0),
        mask != 0b001_000 ==> ((bits | mask) & 0b001_000 != 0) == (bits & 0b001_000 != 0),
        mask != 0b000_100 ==> ((bits | mask) & 0b000_100 != 0) == (bits & 0b000_100 != 0),
        mask != 0b000_010 ==> ((bits | mask) & 0b000_010 != 0) == (bits & 0b000_010 != 0),
        mask != 0b000_001 ==> ((bits | mask) & 0b000_001 != 0) == (bits & 0b000_001 != 0),
{
}

/// Clearing one of the six bits clears that bit and leaves the other five.
proof fn lemma_clear_bit(bits: u8, mask: u8)
    by (bit_vector)
    requires
        mask == 0b100_000 || mask == 0b010_000 || mask == 0b001_000 || mask == 0b000_100 || mask
            == 0b000_010 || mask == 0b000_001,
    ensures
        (bits & !mask) & mask == 0,
        mask != 0b100_000 ==> ((bits & !mask) & 0b100_000 != 0) == (bits & 0b100_000 != 0),
        mask != 0b010_000 ==> ((bits & !mask) & 0b010_000 != 0) == (bits & 0b010_000 != 0),
        mask != 0b001_000 ==> ((bits & !mask) & 0b001_000 != 0) == (bits & 0b001_000 != 0),
        mask != 0b000_100 ==> ((bits & !mask) & 0b000_100 != 0) == (bits & 0b000_100 != 0),
        mask != 0b000_010 ==> ((bits & !mask) & 0b000_010 != 0) == (bits & 0b000_010 != 0),
        mask != 0b000_001 ==> ((bits & !mask) & 0b000_001 != 0) == (bits & 0b000_001 != 0),
{
}

/// No bit is set in zero.
proof fn lemma_no_bit(mask: u8)
    by (bit_vector)
    ensures
        0u8 & mask == 0,
{
}

/// The locked axes of a body in the plane.
pub struct Locks2 {
    pub translation_x: bool,
    pub translation_y: bool,
    pub rotation: bool,
}

impl Locks2 {
    /// `v` with the locked components replaced by zero.
    pub open spec fn mask_vec(self, v: Vec2) -> Vec2 {
        Vec2 {
            x: if self.translation_x { 0 } else { v.x },
            y: if self.translation_y { 0 } else { v.y },
        }
    }

    /// `r`, or zero where the rotation is locked.
    pub open spec fn mask_rotation(self, r: int) -> int {
        if self.rotation {
            0
        } else {
            r
        }
    }
}

/// The locked axes of a body in space.
pub struct Locks3 {
    pub translation_x: bool,
    pub translation_y: bool,
    pub translation_z: bool,
    pub rotation_x: bool,
    pub rotation_y: bool,
    pub rotation_z: bool,
}

impl Locks3 {
    /// `v` with the locked components replaced by zero.
    pub open spec fn mask_vec(self, v: Vec3) -> Vec3 {
        Vec3 {
            x: if self.translation_x { 0 } else { v.x },
            y: if self.translation_y { 0 } else { v.y },
            z: if self.translation_z { 0 } else { v.z },
        }
    }

    /// `m` with the column of each locked rotation axis replaced by zero.
    pub open spec fn mask_rotation(self, m: Mat3) -> Mat3 {
        let o = Vec3 { x: 0, y: 0, z: 0 };
        Mat3 {
            x_axis: if self.rotation_x { o } else { m.x_axis },
            y_axis: if self.rotation_y { o } else { m.y_axis },
            z_axis: if self.rotation_z { o } else { m.z_axis },
        }
    }
}

/// The locked axes of a body in the plane, as a set of bits.
#[derive(Clone, Copy, Debug, PartialEq, Eq)]
pub struct LockedAxes2d(pub u8);

impl View for LockedAxes2d {
    type V = Locks2;

    open spec fn view(&self) -> Locks2 {
        Locks2 {
            translation_x: has_bit(self.0, TRANSLATION_X),
            translation_y: has_bit(self.0, TRANSLATION_Y),
            rotation: has_bit(self.0, ROTATION_Z),
        }
    }
}

impl LockedAxes2d {
    /// No axis locked.
    pub fn new() -> (r: LockedAxes2d)
        ensures
            r.0 == 0,
            r@ == (Locks2 { translation_x: false, translation_y: false, rotation: false }),
    {
        proof {
            lemma_no_bit(TRANSLATION_X);
            lemma_no_bit(TRANSLATION_Y);
            lemma_no_bit(ROTATION_Z);
        }
        LockedAxes2d(0)
    }

    /// The axes that the bits name.
    pub fn from_bits(bits: u8) -> (r: LockedAxes2d)
        ensures
            r.0 == bits,
    {
        LockedAxes2d(bits)
    }

    /// The bits of the locked axes.
    pub fn to_bits(&self) -> (r: u8)
        ensures
            r == self.0,
    {
        self.0
    }

    /// Locks the translation along X.
    pub fn lock_translation_x(self) -> (r: LockedAxes2d)
        ensures
            r.0 == self.0 | TRANSLATION_X,
            r@ == (Locks2 { translation_x: true, ..self@ }),
    {
        proof {
            lemma_set_bit(self.0, TRANSLATION_X);
        }
        LockedAxes2d(self.0 | TRANSLATION_X)
    }

    /// Locks the translation along Y.
    pub fn lock_translation_y(self) -> (r: LockedAxes2d)
        ensures
            r.0 == self.0 | TRANSLATION_Y,
            r@ == (Locks2 { translation_y: true, ..self@ }),
    {
        proof {
            lemma_set_bit(self.0, TRANSLATION_Y);
        }
        LockedAxes2d(self.0 | TRANSLATION_Y)
    }

    /// Locks the rotation.
    pub fn lock_rotation(self) -> (r: LockedAxes2d)
        ensures
            r.0 == self.0 | ROTATION_Z,
            r@ == (Locks2 { rotation: true, ..self@ }),
    {
        proof {
            lemma_set_bit(self.0, ROTATION_Z);
        }
        LockedAxes2d(self.0 | ROTATION_Z)
    }

    /// Unlocks the translation along X.
    pub fn unlock_translation_x(self) -> (r: LockedAxes2d)
        ensures
            r.0 == self.0 & !TRANSLATION_X,
            r@ == (Locks2 { translation_x: false, ..self@ }),
    {
        proof {
            lemma_clear_bit(self.0, TRANSLATION_X);
        }
        LockedAxes2d(self.0 & !TRANSLATION_X)
    }

    /// Unlocks the translation along Y.
    pub fn unlock_translation_y(self) -> (r: LockedAxes2d)
        ensures
            r.0 == self.0 & !TRANSLATION_Y,
            r@ == (Locks2 { translation_y: false, ..self@ }),
    {
        proof {
            lemma_clear_bit(self.0, TRANSLATION_Y);
        }
        LockedAxes2d(self.0 & !TRANSLATION_Y)
    }

    /// Unlocks the rotation.
    pub fn unlock_rotation(self) -> (r: LockedAxes2d)
        ensures
            r.0 == self.0 & !ROTATION_Z,
            r@ == (Locks2 { rotation: false, ..self@ }),
    {
        proof {
            lemma_clear_bit(self.0, ROTATION_Z);
        }
        LockedAxes2d(self.0 & !ROTATION_Z)
    }

    /// Whether the translation along X is locked.
    pub fn is_translation_x_locked(&self) -> (r: bool)
        ensures
            r == self@.translation_x,
    {
        self.0 & TRANSLATION_X != 0
    }

    /// Whether the translation along Y is locked.
    pub fn is_translation_y_locked(&self) -> (r: bool)
        ensures
            r == self@.translation_y,
    {
        self.0 & TRANSLATION_Y != 0
    }

    /// Whether the rotation is locked.
    pub fn is_rotation_locked(&self) -> (r: bool)
        ensures
            r == self@.rotation,
    {
        self.0 & ROTATION_Z != 0
    }

    /// `vector` with the components along locked axes replaced by zero.
    pub fn apply_to_vec(&self, vector: Vector2) -> (r: Vector2)
        ensures
            r@ == self@.mask_vec(vector@),
    {
        let mut out: Vector2 = vector;
        if self.is_translation_x_locked() {
            out.x = Scalar::zero();
        }
        if self.is_translation_y_locked() {
            out.y = Scalar::zero();
        }
        out
    }

    /// `rotation`, or zero where the rotation is locked.
    pub fn apply_to_rotation(&self, rotation: Scalar) -> (r: Scalar)
        ensures
            r@ == self@.mask_rotation(rotation@),
    {
        if self.is_rotation_locked() {
            Scalar::zero()
        } else {
            rotation
        }
    }
}

/// The locked axes of a body in space, as a set of bits.
#[derive(Clone, Copy, Debug, PartialEq, Eq)]
pub struct LockedAxes3d(pub u8);

impl View for LockedAxes3d {
    type V = Locks3;

    open spec fn view(&self) -> Locks3 {
        Locks3 {
            translation_x: has_bit(self.0, TRANSLATION_X),
            translation_y: has_bit(self.0, TRANSLATION_Y),
            translation_z: has_bit(self.0, TRANSLATION_Z),
            rotation_x: has_bit(self.0, ROTATION_X),
            rotation_y: has_bit(self.0, ROTATION_Y),
            rotation_z: has_bit(self.0, ROTATION_Z),
        }
    }
}

impl LockedAxes3d {
    /// No axis locked.
    pub fn new() -> (r: LockedAxes3d)
        ensures
            r.0 == 0,
            r@ == (Locks3 {
                translation_x: false,
                translation_y: false,
                translation_z: false,
                rotation_x: false,
                rotation_y: false,
                rotation_z: false,
            }),
    {
        proof {
            lemma_no_bit(TRANSLATION_X);
            lemma_no_bit(TRANSLATION_Y);
            lemma_no_bit(TRANSLATION_Z);
            lemma_no_bit(ROTATION_X);
            lemma_no_bit(ROTATION_Y);
            lemma_no_bit(ROTATION_Z);
        }
        LockedAxes3d(0)
    }

    /// The axes that the bits name.
    pub fn from_bits(bits: u8) -> (r: LockedAxes3d)
        ensures
            r.0 == bits,
    {
        LockedAxes3d(bits)
    }

    /// The bits of the locked axes.
    pub fn to_bits(&self) -> (r: u8)
        ensures
            r == self.0,
    {
        self.0
    }

    /// Locks the translation along X.
    pub fn lock_translation_x(self) -> (r: LockedAxes3d)
        ensures
            r.0 == self.0 | TRANSLATION_X,
            r@ == (Locks3 { translation_x: true, ..self@ }),
    {
        proof {
            lemma_set_bit(self.0, TRANSLATION_X);
        }
        LockedAxes3d(self.0 | TRANSLATION_X)
    }

    /// Locks the translation along Y.
    pub fn lock_translation_y(self) -> (r: LockedAxes3d)
        ensures
            r.0 == self.0 | TRANSLATION_Y,
            r@ == (Locks3 { translation_y: true, ..self@ }),
    {
        proof {
            lemma_set_bit(self.0, TRANSLATION_Y);
        }
        LockedAxes3d(self.0 | TRANSLATION_Y)
    }

    /// Locks the translation along Z.
    pub fn lock_translation_z(self) -> (r: LockedAxes3d)
        ensures
            r.0 == self.0 | TRANSLATION_Z,
            r@ == (Locks3 { translation_z: true, ..self@ }),
    {
        proof {
            lemma_set_bit(self.0, TRANSLATION_Z);
        }
        LockedAxes3d(self.0 | TRANSLATION_Z)
    }

    /// Locks the rotation about X.
    pub fn lock_rotation_x(self) -> (r: LockedAxes3d)
        ensures
            r.0 == self.0 | ROTATION_X,
            r@ == (Locks3 { rotation_x: true, ..self@ }),
    {
        proof {
            lemma_set_bit(self.0, ROTATION_X);
        }
        LockedAxes3d(self.0 | ROTATION_X)
    }

    /// Locks the rotation about Y.
    pub fn lock_rotation_y(self) -> (r: LockedAxes3d)
        ensures
            r.0 == self.0 | ROTATION_Y,
            r@ == (Locks3 { rotation_y: true, ..self@ }),
    {
        proof {
            lemma_set_bit(self.0, ROTATION_Y);
        }
        LockedAxes3d(self.0 | ROTATION_Y)
    }

    /// Locks the rotation about Z.
    pub fn lock_rotation_z(self) -> (r: LockedAxes3d)
        ensures
            r.0 == self.0 | ROTATION_Z,
            r@ == (Locks3 { rotation_z: true, ..self@ }),
    {
        proof {
            lemma_set_bit(self.0, ROTATION_Z);
        }
        LockedAxes3d(self.0 | ROTATION_Z)
    }

    /// Unlocks the translation along X.
    pub fn unlock_translation_x(self) -> (r: LockedAxes3d)
        ensures
            r.0 == self.0 & !TRANSLATION_X,
            r@ == (Locks3 { translation_x: false, ..self@ }),
    {
        proof {
            lemma_clear_bit(self.0, TRANSLATION_X);
        }
        LockedAxes3d(self.0 & !TRANSLATION_X)
    }

    /// Unlocks the translation along Y.
    pub fn unlock_translation_y(self) -> (r: LockedAxes3d)
        ensures
            r.0 == self.0 & !TRANSLATION_Y,
            r@ == (Locks3 { translation_y: false, ..self@ }),
    {
        proof {
            lemma_clear_bit(self.0, TRANSLATION_Y);
        }
        LockedAxes3d(self.0 & !TRANSLATION_Y)
    }

    /// Unlocks the translation along Z.
    pub fn unlock_translation_z(self) -> (r: LockedAxes3d)
        ensures
            r.0 == self.0 & !TRANSLATION_Z,
            r@ == (Locks3 { translation_z: false, ..self@ }),
    {
        proof {
            lemma_clear_bit(self.0, TRANSLATION_Z);
        }
        LockedAxes3d(self.0 & !TRANSLATION_Z)
    }

    /// Unlocks the rotation about X.
    pub fn unlock_rotation_x(self) -> (r: LockedAxes3d)
        ensures
            r.0 == self.0 & !ROTATION_X,
            r@ == (Locks3 { rotation_x: false, ..self@ }),
    {
        proof {
            lemma_clear_bit(self.0, ROTATION_X);
        }
        LockedAxes3d(self.0 & !ROTATION_X)
    }

    /// Unlocks the rotation about Y.
    pub fn unlock_rotation_y(self) -> (r: LockedAxes3d)
        ensures
            r.0 == self.0 & !ROTATION_Y,
            r@ == (Locks3 { rotation_y: false, ..self@ }),
    {
        proof {
            lemma_clear_bit(self.0, ROTATION_Y);
        }
        LockedAxes3d(self.0 & !ROTATION_Y)
    }

    /// Unlocks the rotation about Z.
    pub fn unlock_rotation_z(self) -> (r: LockedAxes3d)
        ensures
            r.0 == self.0 & !ROTATION_Z,
            r@ == (Locks3 { rotation_z: false, ..self@ }),
    {
        proof {
            lemma_clear_bit(self.0, ROTATION_Z);
        }
        LockedAxes3d(self.0 & !ROTATION_Z)
    }

    /// Whether the translation along X is locked.
    pub fn is_translation_x_locked(&self) -> (r: bool)
        ensures
            r == self@.translation_x,
    {
        self.0 & TRANSLATION_X != 0
    }

    /// Whether the translation along Y is locked.
    pub fn is_translation_y_locked(&self) -> (r: bool)
        ensures
            r == self@.translation_y,
    {
        self.0 & TRANSLATION_Y != 0
    }

    /// Whether the translation along Z is locked.
    pub fn is_translation_z_locked(&self) -> (r: bool)
        ensures
            r == self@.translation_z,
    {
        self.0 & TRANSLATION_Z != 0
    }

    /// Whether the rotation about X is locked.
    pub fn is_rotation_x_locked(&self) -> (r: bool)
        ensures
            r == self@.rotation_x,
    {
        self.0 & ROTATION_X != 0
    }

    /// Whether the rotation about Y is locked.
    pub fn is_rotation_y_locked(&self) -> (r: bool)
        ensures
            r == self@.rotation_y,
    {
        self.0 & ROTATION_Y != 0
    }

    /// Whether the rotation about Z is locked.
    pub fn is_rotation_z_locked(&self) -> (r: bool)
        ensures
            r == self@.rotation_z,
    {
        self.0 & ROTATION_Z != 0
    }

    /// `vector` with the components along locked axes replaced by zero.
    pub fn apply_to_vec(&self, vector: Vector3) -> (r: Vector3)
        ensures
            r@ == self@.mask_vec(vector@),
    {
        let mut out: Vector3 = vector;
        if self.is_translation_x_locked() {
            out.x = Scalar::zero();
        }
        if self.is_translation_y_locked() {
            out.y = Scalar::zero();
        }
        if self.is_translation_z_locked() {
            out.z = Scalar::zero();
        }
        out
    }

    /// `rotation` with the column of each locked rotation axis replaced by zero.
    pub fn apply_to_rotation(&self, rotation: Matrix3) -> (r: Matrix3)
        ensures
            r@ == self@.mask_rotation(rotation@),
    {
        let mut out: Matrix3 = rotation;
        if self.is_rotation_x_locked() {
            out.x_axis = Vector3::zero();
        }
        if self.is_rotation_y_locked() {
            out.y_axis = Vector3::zero();
        }
        if self.is_rotation_z_locked() {
            out.z_axis = Vector3::zero();
        }
        out
    }
}

} // verus!
