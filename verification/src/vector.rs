//! Vectors of fixed-point numbers in the plane and in space.

use crate::scalar::{fx_add, fx_div, fx_dot3, fx_mix, fx_mul, fx_sub, fx_unmix, Scalar, ONE_RAW};
use vstd::prelude::*;

verus! {

/// The raw components of a vector in the plane.
pub struct Vec2 {
    pub x: int,
    pub y: int,
}

impl Vec2 {
    /// Componentwise sum.
    pub open spec fn plus(self, o: Vec2) -> Vec2 {
        Vec2 { x: fx_add(self.x, o.x), y: fx_add(self.y, o.y) }
    }

    /// Componentwise difference.
    pub open spec fn minus(self, o: Vec2) -> Vec2 {
        Vec2 { x: fx_sub(self.x, o.x), y: fx_sub(self.y, o.y) }
    }

    /// Each component multiplied by `k`.
    pub open spec fn scaled(self, k: int) -> Vec2 {
        Vec2 { x: fx_mul(self.x, k), y: fx_mul(self.y, k) }
    }

    /// The squared length, with a single rounding.
    pub open spec fn length_squared(self) -> int {
        fx_mix(self.x, self.x, self.y, self.y, ONE_RAW as int)
    }

    /// `(a * wa + b * wb) / d`, component by component.
    pub open spec fn mix(a: Vec2, wa: int, b: Vec2, wb: int, d: int) -> Vec2 {
        Vec2 { x: fx_mix(a.x, wa, b.x, wb, d), y: fx_mix(a.y, wa, b.y, wb, d) }
    }

    /// `(a * wa - b * wb) / d`, component by component.
    pub open spec fn unmix(a: Vec2, wa: int, b: Vec2, wb: int, d: int) -> Vec2 {
        Vec2 { x: fx_unmix(a.x, wa, b.x, wb, d), y: fx_unmix(a.y, wa, b.y, wb, d) }
    }
}

/// The raw components of a vector in space.
pub struct Vec3 {
    pub x: int,
    pub y: int,
    pub z: int,
}

impl Vec3 {
    /// The component on the axis `i`: 0 for X, 1 for Y, else Z.
    pub open spec fn at(self, i: int) -> int {
        if i == 0 {
            self.x
        } else if i == 1 {
            self.y
        } else {
            self.z
        }
    }

    /// Componentwise sum.
    pub open spec fn plus(self, o: Vec3) -> Vec3 {
        Vec3 { x: fx_add(self.x, o.x), y: fx_add(self.y, o.y), z: fx_add(self.z, o.z) }
    }

    /// Componentwise difference.
    pub open spec fn minus(self, o: Vec3) -> Vec3 {
        Vec3 { x: fx_sub(self.x, o.x), y: fx_sub(self.y, o.y), z: fx_sub(self.z, o.z) }
    }

    /// Each component multiplied by `k`.
    pub open spec fn scaled(self, k: int) -> Vec3 {
        Vec3 { x: fx_mul(self.x, k), y: fx_mul(self.y, k), z: fx_mul(self.z, k) }
    }

    /// Each component divided by `k`; the zero vector where `k` is zero.
    pub open spec fn divided(self, k: int) -> Vec3 {
        Vec3 { x: fx_div(self.x, k), y: fx_div(self.y, k), z: fx_div(self.z, k) }
    }

    /// The dot product, with a single rounding.
    pub open spec fn dot(self, o: Vec3) -> int {
        fx_dot3(self.x, o.x, self.y, o.y, self.z, o.z)
    }

    /// The squared length, with a single rounding.
    pub open spec fn length_squared(self) -> int {
        self.dot(self)
    }

    /// The cross product, each component with a single rounding.
    pub open spec fn cross(self, o: Vec3) -> Vec3 {
        Vec3 {
            x: fx_unmix(self.y, o.z, self.z, o.y, ONE_RAW as int),
            y: fx_unmix(self.z, o.x, self.x, o.z, ONE_RAW as int),
            z: fx_unmix(self.x, o.y, self.y, o.x, ONE_RAW as int),
        }
    }

    /// `(a * wa + b * wb) / d`, component by component.
    pub open spec fn mix(a: Vec3, wa: int, b: Vec3, wb: int, d: int) -> Vec3 {
        Vec3 {
            x: fx_mix(a.x, wa, b.x, wb, d),
            y: fx_mix(a.y, wa, b.y, wb, d),
            z: fx_mix(a.z, wa, b.z, wb, d),
        }
    }

    /// `(a * wa - b * wb) / d`, component by component.
    pub open spec fn unmix(a: Vec3, wa: int, b: Vec3, wb: int, d: int) -> Vec3 {
        Vec3 {
            x: fx_unmix(a.x, wa, b.x, wb, d),
            y: fx_unmix(a.y, wa, b.y, wb, d),
            z: fx_unmix(a.z, wa, b.z, wb, d),
        }
    }
}

/// A vector in the plane.
#[derive(Clone, Copy, Debug, PartialEq, Eq, Structural)]
pub struct Vector2 {
    pub x: Scalar,
    pub y: Scalar,
}

impl View for Vector2 {
    type V = Vec2;

    open spec fn view(&self) -> Vec2 {
        Vec2 { x: self.x@, y: self.y@ }
    }
}

impl Vector2 {
    /// The vector with the given components.
    pub fn new(x: Scalar, y: Scalar) -> (r: Vector2)
        ensures
            r@ == (Vec2 { x: x@, y: y@ }),
    {
        Vector2 { x, y }
    }

    /// The zero vector.
    pub fn zero() -> (r: Vector2)
        ensures
            r@ == (Vec2 { x: 0, y: 0 }),
    {
        Vector2 { x: Scalar::zero(), y: Scalar::zero() }
    }

    /// The vector whose components all equal `s`.
    pub fn splat(s: Scalar) -> (r: Vector2)
        ensures
            r@ == (Vec2 { x: s@, y: s@ }),
    {
        Vector2 { x: s, y: s }
    }

    /// Componentwise sum.
    pub fn add(self, rhs: Vector2) -> (r: Vector2)
        ensures
            r@ == self@.plus(rhs@),
    {
        Vector2 { x: self.x.add(rhs.x), y: self.y.add(rhs.y) }
    }

    /// Componentwise difference.
    pub fn sub(self, rhs: Vector2) -> (r: Vector2)
        ensures
            r@ == self@.minus(rhs@),
    {
        Vector2 { x: self.x.sub(rhs.x), y: self.y.sub(rhs.y) }
    }

    /// Each component multiplied by `k`.
    pub fn scale(self, k: Scalar) -> (r: Vector2)
        ensures
            r@ == self@.scaled(k@),
    {
        Vector2 { x: self.x.mul(k), y: self.y.mul(k) }
    }

    /// The squared length.
    pub fn length_squared(self) -> (r: Scalar)
        ensures
            r@ == self@.length_squared(),
    {
        Scalar::mix(self.x, self.x, self.y, self.y, Scalar::one())
    }

    /// `(a * wa + b * wb) / d`, component by component.
    pub fn mix(a: Vector2, wa: Scalar, b: Vector2, wb: Scalar, d: Scalar) -> (r: Vector2)
        ensures
            r@ == Vec2::mix(a@, wa@, b@, wb@, d@),
    {
        Vector2 { x: Scalar::mix(a.x, wa, b.x, wb, d), y: Scalar::mix(a.y, wa, b.y, wb, d) }
    }

    /// `(a * wa - b * wb) / d`, component by component.
    pub fn unmix(a: Vector2, wa: Scalar, b: Vector2, wb: Scalar, d: Scalar) -> (r: Vector2)
        ensures
            r@ == Vec2::unmix(a@, wa@, b@, wb@, d@),
    {
        Vector2 { x: Scalar::unmix(a.x, wa, b.x, wb, d), y: Scalar::unmix(a.y, wa, b.y, wb, d) }
    }
}

/// A vector in space.
#[derive(Clone, Copy, Debug, PartialEq, Eq, Structural)]
pub struct Vector3 {
    pub x: Scalar,
    pub y: Scalar,
    pub z: Scalar,
}

impl View for Vector3 {
    type V = Vec3;

    open spec fn view(&self) -> Vec3 {
        Vec3 { x: self.x@, y: self.y@, z: self.z@ }
    }
}

impl Vector3 {
    /// The vector with the given components.
    pub fn new(x: Scalar, y: Scalar, z: Scalar) -> (r: Vector3)
        ensures
            r@ == (Vec3 { x: x@, y: y@, z: z@ }),
    {
        Vector3 { x, y, z }
    }

    /// The zero vector.
    pub fn zero() -> (r: Vector3)
        ensures
            r@ == (Vec3 { x: 0, y: 0, z: 0 }),
    {
        Vector3 { x: Scalar::zero(), y: Scalar::zero(), z: Scalar::zero() }
    }

    /// The vector whose components all equal `s`.
    pub fn splat(s: Scalar) -> (r: Vector3)
        ensures
            r@ == (Vec3 { x: s@, y: s@, z: s@ }),
    {
        Vector3 { x: s, y: s, z: s }
    }

    /// Componentwise sum.
    pub fn add(self, rhs: Vector3) -> (r: Vector3)
        ensures
            r@ == self@.plus(rhs@),
    {
        Vector3 { x: self.x.add(rhs.x), y: self.y.add(rhs.y), z: self.z.add(rhs.z) }
    }

    /// Componentwise difference.
    pub fn sub(self, rhs: Vector3) -> (r: Vector3)
        ensures
            r@ == self@.minus(rhs@),
    {
        Vector3 { x: self.x.sub(rhs.x), y: self.y.sub(rhs.y), z: self.z.sub(rhs.z) }
    }

    /// Each component multiplied by `k`.
    pub fn scale(self, k: Scalar) -> (r: Vector3)
        ensures
            r@ == self@.scaled(k@),
    {
        Vector3 { x: self.x.mul(k), y: self.y.mul(k), z: self.z.mul(k) }
    }

    /// Each component divided by `k`; the zero vector where `k` is zero.
    pub fn divide(self, k: Scalar) -> (r: Vector3)
        ensures
            r@ == self@.divided(k@),
    {
        Vector3 { x: self.x.div(k), y: self.y.div(k), z: self.z.div(k) }
    }

    /// The dot product.
    pub fn dot(self, rhs: Vector3) -> (r: Scalar)
        ensures
            r@ == self@.dot(rhs@),
    {
        Scalar::dot3(self.x, rhs.x, self.y, rhs.y, self.z, rhs.z)
    }

    /// The squared length.
    pub fn length_squared(self) -> (r: Scalar)
        ensures
            r@ == self@.length_squared(),
    {
        self.dot(self)
    }

    /// The cross product.
    pub fn cross(self, rhs: Vector3) -> (r: Vector3)
        ensures
            r@ == self@.cross(rhs@),
    {
        let one: Scalar = Scalar::one();
        Vector3 {
            x: Scalar::unmix(self.y, rhs.z, self.z, rhs.y, one),
            y: Scalar::unmix(self.z, rhs.x, self.x, rhs.z, one),
            z: Scalar::unmix(self.x, rhs.y, self.y, rhs.x, one),
        }
    }

    /// `(a * wa + b * wb) / d`, component by component.
    pub fn mix(a: Vector3, wa: Scalar, b: Vector3, wb: Scalar, d: Scalar) -> (r: Vector3)
        ensures
            r@ == Vec3::mix(a@, wa@, b@, wb@, d@),
    {
        Vector3 {
            x: Scalar::mix(a.x, wa, b.x, wb, d),
            y: Scalar::mix(a.y, wa, b.y, wb, d),
            z: Scalar::mix(a.z, wa, b.z, wb, d),
        }
    }

    /// `(a * wa - b * wb) / d`, component by component.
    pub fn unmix(a: Vector3, wa: Scalar, b: Vector3, wb: Scalar, d: Scalar) -> (r: Vector3)
        ensures
            r@ == Vec3::unmix(a@, wa@, b@, wb@, d@),
    {
        Vector3 {
            x: Scalar::unmix(a.x, wa, b.x, wb, d),
            y: Scalar::unmix(a.y, wa, b.y, wb, d),
            z: Scalar::unmix(a.z, wa, b.z, wb, d),
        }
    }
}

} // verus!
