//! Three-by-three matrices of fixed-point numbers, stored by columns.

use crate::quaternion::{Quat, Quaternion};
use crate::scalar::{fx_add, fx_mul, fx_sub, lemma_mul_one, Scalar, ONE_RAW};
use crate::vector::{Vec3, Vector3};
use vstd::prelude::*;

verus! {

/// The raw entries of a matrix, column by column.
pub struct Mat3 {
    pub x_axis: Vec3,
    pub y_axis: Vec3,
    pub z_axis: Vec3,
}

impl Mat3 {
    /// The entry in the given row and column, each 0 for X, 1 for Y, else Z.
    pub open spec fn at(self, row: int, col: int) -> int {
        if col == 0 {
            self.x_axis.at(row)
        } else if col == 1 {
            self.y_axis.at(row)
        } else {
            self.z_axis.at(row)
        }
    }

    /// The zero matrix.
    pub open spec fn zero() -> Mat3 {
        Mat3::diagonal(Vec3 { x: 0, y: 0, z: 0 })
    }

    /// The identity matrix.
    pub open spec fn identity() -> Mat3 {
        Mat3::diagonal(Vec3 { x: ONE_RAW as int, y: ONE_RAW as int, z: ONE_RAW as int })
    }

    /// The matrix with `d` on its diagonal and zero elsewhere.
    pub open spec fn diagonal(d: Vec3) -> Mat3 {
        Mat3 {
            x_axis: Vec3 { x: d.x, y: 0, z: 0 },
            y_axis: Vec3 { x: 0, y: d.y, z: 0 },
            z_axis: Vec3 { x: 0, y: 0, z: d.z },
        }
    }

    /// The matrix `d dᵗ`.
    pub open spec fn outer(d: Vec3) -> Mat3 {
        Mat3 { x_axis: d.scaled(d.x), y_axis: d.scaled(d.y), z_axis: d.scaled(d.z) }
    }

    /// Entrywise sum.
    pub open spec fn plus(self, o: Mat3) -> Mat3 {
        Mat3 {
            x_axis: self.x_axis.plus(o.x_axis),
            y_axis: self.y_axis.plus(o.y_axis),
            z_axis: self.z_axis.plus(o.z_axis),
        }
    }

    /// Entrywise difference.
    pub open spec fn minus(self, o: Mat3) -> Mat3 {
        Mat3 {
            x_axis: self.x_axis.minus(o.x_axis),
            y_axis: self.y_axis.minus(o.y_axis),
            z_axis: self.z_axis.minus(o.z_axis),
        }
    }

    /// Each entry multiplied by `k`.
    pub open spec fn scaled(self, k: int) -> Mat3 {
        Mat3 {
            x_axis: self.x_axis.scaled(k),
            y_axis: self.y_axis.scaled(k),
            z_axis: self.z_axis.scaled(k),
        }
    }

    /// The transpose.
    pub open spec fn transposed(self) -> Mat3 {
        Mat3 {
            x_axis: Vec3 { x: self.x_axis.x, y: self.y_axis.x, z: self.z_axis.x },
            y_axis: Vec3 { x: self.x_axis.y, y: self.y_axis.y, z: self.z_axis.y },
            z_axis: Vec3 { x: self.x_axis.z, y: self.y_axis.z, z: self.z_axis.z },
        }
    }

    /// The product of the matrix and a column vector.
    pub open spec fn apply(self, v: Vec3) -> Vec3 {
        let t = self.transposed();
        Vec3 { x: t.x_axis.dot(v), y: t.y_axis.dot(v), z: t.z_axis.dot(v) }
    }

    /// The matrix product `self * o`.
    pub open spec fn times(self, o: Mat3) -> Mat3 {
        Mat3 {
            x_axis: self.apply(o.x_axis),
            y_axis: self.apply(o.y_axis),
            z_axis: self.apply(o.z_axis),
        }
    }

    /// The determinant, as the triple product of the columns.
    pub open spec fn determinant(self) -> int {
        self.z_axis.dot(self.x_axis.cross(self.y_axis))
    }

    /// The inverse, as the transposed cofactors over the determinant; the
    /// zero matrix where the determinant is zero.
    pub open spec fn inverted(self) -> Mat3 {
        let det = self.determinant();
        Mat3 {
            x_axis: self.y_axis.cross(self.z_axis).divided(det),
            y_axis: self.z_axis.cross(self.x_axis).divided(det),
            z_axis: self.x_axis.cross(self.y_axis).divided(det),
        }.transposed()
    }

    /// The matrix of the rotation that the quaternion `q` stands for.
    pub open spec fn rotation(q: Quat) -> Mat3 {
        let x2 = fx_add(q.x, q.x);
        let y2 = fx_add(q.y, q.y);
        let z2 = fx_add(q.z, q.z);
        let xx = fx_mul(q.x, x2);
        let xy = fx_mul(q.x, y2);
        let xz = fx_mul(q.x, z2);
        let yy = fx_mul(q.y, y2);
        let yz = fx_mul(q.y, z2);
        let zz = fx_mul(q.z, z2);
        let wx = fx_mul(q.w, x2);
        let wy = fx_mul(q.w, y2);
        let wz = fx_mul(q.w, z2);
        let one = ONE_RAW as int;
        Mat3 {
            x_axis: Vec3 { x: fx_sub(one, fx_add(yy, zz)), y: fx_add(xy, wz), z: fx_sub(xz, wy) },
            y_axis: Vec3 { x: fx_sub(xy, wz), y: fx_sub(one, fx_add(xx, zz)), z: fx_add(yz, wx) },
            z_axis: Vec3 { x: fx_add(xz, wy), y: fx_sub(yz, wx), z: fx_sub(one, fx_add(xx, yy)) },
        }
    }

    /// The matrix expressed in the frame turned by `q`: `R * self * Rᵗ`.
    pub open spec fn rotated(self, q: Quat) -> Mat3 {
        let r = Mat3::rotation(q);
        r.times(self).times(r.transposed())
    }
}

/// The quaternion of the rotation that turns nothing gives the identity matrix.
pub proof fn lemma_rotation_of_identity()
    ensures
        Mat3::rotation(Quat::identity()) == Mat3::identity(),
{
}

/// The product with the identity matrix, on either side, is the matrix itself.
pub proof fn lemma_times_identity(m: Matrix3)
    ensures
        Mat3::identity().times(m@) == m@,
        m@.times(Mat3::identity()) == m@,
{
    lemma_dot_unit(m.x_axis);
    lemma_dot_unit(m.y_axis);
    lemma_dot_unit(m.z_axis);
    lemma_dot_unit(Vector3 { x: m.x_axis.x, y: m.y_axis.x, z: m.z_axis.x });
    lemma_dot_unit(Vector3 { x: m.x_axis.y, y: m.y_axis.y, z: m.z_axis.y });
    lemma_dot_unit(Vector3 { x: m.x_axis.z, y: m.y_axis.z, z: m.z_axis.z });
}

/// The dot product with a unit vector picks a component.
proof fn lemma_dot_unit(v: Vector3)
    ensures
        (Vec3 { x: ONE_RAW as int, y: 0, z: 0 }).dot(v@) == v.x@,
        (Vec3 { x: 0, y: ONE_RAW as int, z: 0 }).dot(v@) == v.y@,
        (Vec3 { x: 0, y: 0, z: ONE_RAW as int }).dot(v@) == v.z@,
        v@.dot(Vec3 { x: ONE_RAW as int, y: 0, z: 0 }) == v.x@,
        v@.dot(Vec3 { x: 0, y: ONE_RAW as int, z: 0 }) == v.y@,
        v@.dot(Vec3 { x: 0, y: 0, z: ONE_RAW as int }) == v.z@,
{
    lemma_mul_one(v.x@);
    lemma_mul_one(v.y@);
    lemma_mul_one(v.z@);
}

/// Turning a matrix by the rotation that turns nothing leaves it unchanged.
pub proof fn lemma_rotated_by_identity(m: Matrix3)
    ensures
        m@.rotated(Quat::identity()) == m@,
{
    lemma_rotation_of_identity();
    lemma_times_identity(m);
}

/// A three-by-three matrix, stored by columns.
#[derive(Clone, Copy, Debug, PartialEq, Eq, Structural)]
pub struct Matrix3 {
    pub x_axis: Vector3,
    pub y_axis: Vector3,
    pub z_axis: Vector3,
}

impl View for Matrix3 {
    type V = Mat3;

    open spec fn view(&self) -> Mat3 {
        Mat3 { x_axis: self.x_axis@, y_axis: self.y_axis@, z_axis: self.z_axis@ }
    }
}

impl Matrix3 {
    /// The matrix with the given columns.
    pub fn from_cols(x_axis: Vector3, y_axis: Vector3, z_axis: Vector3) -> (r: Matrix3)
        ensures
            r@ == (Mat3 { x_axis: x_axis@, y_axis: y_axis@, z_axis: z_axis@ }),
    {
        Matrix3 { x_axis, y_axis, z_axis }
    }

    /// The zero matrix.
    pub fn zero() -> (r: Matrix3)
        ensures
            r@ == Mat3::zero(),
    {
        Matrix3::from_diagonal(Vector3::zero())
    }

    /// The identity matrix.
    pub fn identity() -> (r: Matrix3)
        ensures
            r@ == Mat3::identity(),
    {
        Matrix3::from_diagonal(Vector3::splat(Scalar::one()))
    }

    /// The matrix with `d` on its diagonal and zero elsewhere.
    pub fn from_diagonal(d: Vector3) -> (r: Matrix3)
        ensures
            r@ == Mat3::diagonal(d@),
    {
        let o: Scalar = Scalar::zero();
        Matrix3 {
            x_axis: Vector3 { x: d.x, y: o, z: o },
            y_axis: Vector3 { x: o, y: d.y, z: o },
            z_axis: Vector3 { x: o, y: o, z: d.z },
        }
    }

    /// The matrix `d dᵗ`.
    pub fn outer(d: Vector3) -> (r: Matrix3)
        ensures
            r@ == Mat3::outer(d@),
    {
        Matrix3 { x_axis: d.scale(d.x), y_axis: d.scale(d.y), z_axis: d.scale(d.z) }
    }

    /// Entrywise sum.
    pub fn add(self, rhs: Matrix3) -> (r: Matrix3)
        ensures
            r@ == self@.plus(rhs@),
    {
        Matrix3 {
            x_axis: self.x_axis.add(rhs.x_axis),
            y_axis: self.y_axis.add(rhs.y_axis),
            z_axis: self.z_axis.add(rhs.z_axis),
        }
    }

    /// Entrywise difference.
    pub fn sub(self, rhs: Matrix3) -> (r: Matrix3)
        ensures
            r@ == self@.minus(rhs@),
    {
        Matrix3 {
            x_axis: self.x_axis.sub(rhs.x_axis),
            y_axis: self.y_axis.sub(rhs.y_axis),
            z_axis: self.z_axis.sub(rhs.z_axis),
        }
    }

    /// Each entry multiplied by `k`.
    pub fn scale(self, k: Scalar) -> (r: Matrix3)
        ensures
            r@ == self@.scaled(k@),
    {
        Matrix3 {
            x_axis: self.x_axis.scale(k),
            y_axis: self.y_axis.scale(k),
            z_axis: self.z_axis.scale(k),
        }
    }

    /// The transpose.
    pub fn transpose(self) -> (r: Matrix3)
        ensures
            r@ == self@.transposed(),
    {
        Matrix3 {
            x_axis: Vector3 { x: self.x_axis.x, y: self.y_axis.x, z: self.z_axis.x },
            y_axis: Vector3 { x: self.x_axis.y, y: self.y_axis.y, z: self.z_axis.y },
            z_axis: Vector3 { x: self.x_axis.z, y: self.y_axis.z, z: self.z_axis.z },
        }
    }

    /// The product of the matrix and a column vector.
    pub fn mul_vec(self, v: Vector3) -> (r: Vector3)
        ensures
            r@ == self@.apply(v@),
    {
        let t: Matrix3 = self.transpose();
        Vector3 { x: t.x_axis.dot(v), y: t.y_axis.dot(v), z: t.z_axis.dot(v) }
    }

    /// The matrix product `self * rhs`.
    pub fn mul(self, rhs: Matrix3) -> (r: Matrix3)
        ensures
            r@ == self@.times(rhs@),
    {
        Matrix3 {
            x_axis: self.mul_vec(rhs.x_axis),
            y_axis: self.mul_vec(rhs.y_axis),
            z_axis: self.mul_vec(rhs.z_axis),
        }
    }

    /// The determinant.
    pub fn determinant(self) -> (r: Scalar)
        ensures
            r@ == self@.determinant(),
    {
        self.z_axis.dot(self.x_axis.cross(self.y_axis))
    }

    /// The inverse; the zero matrix where the determinant is zero.
    pub fn inverse(self) -> (r: Matrix3)
        ensures
            r@ == self@.inverted(),
    {
        let det: Scalar = self.determinant();
        let cofactors: Matrix3 = Matrix3 {
            x_axis: self.y_axis.cross(self.z_axis).divide(det),
            y_axis: self.z_axis.cross(self.x_axis).divide(det),
            z_axis: self.x_axis.cross(self.y_axis).divide(det),
        };
        cofactors.transpose()
    }

    /// The matrix of the rotation that the quaternion `q` stands for.
    pub fn from_quat(q: Quaternion) -> (r: Matrix3)
        ensures
            r@ == Mat3::rotation(q@),
    {
        let x2: Scalar = q.x.add(q.x);
        let y2: Scalar = q.y.add(q.y);
        let z2: Scalar = q.z.add(q.z);
        let xx: Scalar = q.x.mul(x2);
        let xy: Scalar = q.x.mul(y2);
        let xz: Scalar = q.x.mul(z2);
        let yy: Scalar = q.y.mul(y2);
        let yz: Scalar = q.y.mul(z2);
        let zz: Scalar = q.z.mul(z2);
        let wx: Scalar = q.w.mul(x2);
        let wy: Scalar = q.w.mul(y2);
        let wz: Scalar = q.w.mul(z2);
        let one: Scalar = Scalar::one();
        Matrix3 {
            x_axis: Vector3 { x: one.sub(yy.add(zz)), y: xy.add(wz), z: xz.sub(wy) },
            y_axis: Vector3 { x: xy.sub(wz), y: one.sub(xx.add(zz)), z: yz.add(wx) },
            z_axis: Vector3 { x: xz.add(wy), y: yz.sub(wx), z: one.sub(xx.add(yy)) },
        }
    }

    /// The matrix expressed in the frame turned by `q`: `R * self * Rᵗ`.
    pub fn rotated(self, q: Quaternion) -> (r: Matrix3)
        ensures
            r@ == self@.rotated(q@),
    {
        let rot: Matrix3 = Matrix3::from_quat(q);
        rot.mul(self).mul(rot.transpose())
    }
}

} // verus!
