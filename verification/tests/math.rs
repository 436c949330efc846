use mass_properties::components::Rotation3d;
use mass_properties::inertia::{Inertia2d, Inertia3d, InverseInertia2d, InverseInertia3d};
use mass_properties::locked_axes::{LockedAxes2d, LockedAxes3d};
use mass_properties::matrix::Matrix3;
use mass_properties::quaternion::Quaternion;
use mass_properties::scalar::Scalar;
use mass_properties::vector::{Vector2, Vector3};

const ONE: f64 = 4294967296.0;

fn fx(x: f64) -> Scalar {
    Scalar::from_raw((x * ONE).round() as i64)
}

fn raw(r: i64) -> Scalar {
    Scalar::from_raw(r)
}

fn v2(x: f64, y: f64) -> Vector2 {
    Vector2::new(fx(x), fx(y))
}

fn v3(x: f64, y: f64, z: f64) -> Vector3 {
    Vector3::new(fx(x), fx(y), fx(z))
}

#[test]
fn scalar_constants() {
    assert_eq!(Scalar::zero().raw(), 0);
    assert_eq!(Scalar::one().raw(), 1 << 32);
    assert_eq!(Scalar::epsilon().raw(), 1 << 9);
    assert_eq!(Scalar::from_int(3), fx(3.0));
    assert_eq!(Scalar::from_int(-7), fx(-7.0));
    assert_eq!(Scalar::from_int(i32::MIN).raw(), i64::MIN);
    assert_eq!(Scalar::from_int(i32::MAX).raw(), (i32::MAX as i64) << 32);
}

#[test]
fn scalar_sum_and_difference_saturate() {
    assert_eq!(fx(1.5).add(fx(2.25)), fx(3.75));
    assert_eq!(fx(1.5).sub(fx(2.25)), fx(-0.75));
    assert_eq!(raw(i64::MAX).add(raw(1)), raw(i64::MAX));
    assert_eq!(raw(i64::MIN).add(raw(-1)), raw(i64::MIN));
    assert_eq!(raw(i64::MIN).sub(raw(1)), raw(i64::MIN));
    assert_eq!(raw(i64::MAX).sub(raw(-1)), raw(i64::MAX));
    assert_eq!(raw(i64::MAX).add(raw(i64::MIN)), raw(-1));
    assert_eq!(fx(2.0).neg(), fx(-2.0));
    assert_eq!(raw(i64::MIN).neg(), raw(i64::MAX));
    assert_eq!(raw(i64::MAX).neg(), raw(i64::MIN + 1));
}

#[test]
fn scalar_product_rounds_toward_zero() {
    assert_eq!(fx(1.5).mul(fx(-2.5)), fx(-3.75));
    assert_eq!(fx(7.0).mul(Scalar::one()), fx(7.0));
    assert_eq!(raw(i64::MIN).mul(Scalar::one()), raw(i64::MIN));
    // One raw unit times one half is half a raw unit: zero from either side.
    assert_eq!(raw(1).mul(fx(0.5)), raw(0));
    assert_eq!(raw(-1).mul(fx(0.5)), raw(0));
    assert_eq!(raw(3).mul(fx(0.5)), raw(1));
    assert_eq!(raw(-3).mul(fx(0.5)), raw(-1));
    assert_eq!(raw(-3).mul(fx(-0.5)), raw(1));
}

#[test]
fn scalar_product_saturates() {
    assert_eq!(fx(65536.0).mul(fx(65536.0)), raw(i64::MAX));
    assert_eq!(fx(65536.0).mul(fx(-65536.0)), raw(i64::MIN));
    assert_eq!(raw(i64::MIN).mul(raw(i64::MIN)), raw(i64::MAX));
    assert_eq!(raw(i64::MIN).mul(raw(i64::MAX)), raw(i64::MIN));
    assert_eq!(fx(46340.0).mul(fx(46340.0)), fx(2147395600.0));
}

#[test]
fn scalar_quotient_rounds_toward_zero() {
    assert_eq!(fx(7.5).div(fx(2.5)), fx(3.0));
    assert_eq!(fx(1.0).div(fx(-4.0)), fx(-0.25));
    // 1 / 3 = 0x5555_5555.55…, -1 / 3 the negative of it
    assert_eq!(fx(1.0).div(fx(3.0)), raw(0x5555_5555));
    assert_eq!(fx(-1.0).div(fx(3.0)), raw(-0x5555_5555));
    assert_eq!(fx(1.0).div(fx(-3.0)), raw(-0x5555_5555));
    assert_eq!(fx(-1.0).div(fx(-3.0)), raw(0x5555_5555));
    assert_eq!(fx(2.0).div(fx(3.0)), raw(0xaaaa_aaaa));
}

#[test]
fn scalar_quotient_by_zero_is_zero() {
    assert_eq!(fx(7.5).div(fx(0.0)), fx(0.0));
    assert_eq!(fx(-7.5).div(fx(0.0)), fx(0.0));
    assert_eq!(fx(0.0).recip(), fx(0.0));
}

#[test]
fn scalar_quotient_saturates() {
    assert_eq!(fx(1.0).div(raw(1)), raw(i64::MAX));
    assert_eq!(fx(1.0).div(raw(-1)), raw(i64::MIN));
    assert_eq!(raw(i64::MIN).div(raw(-1)), raw(i64::MAX));
    assert_eq!(raw(2).recip(), raw(i64::MAX));
    assert_eq!(raw(-2).recip(), raw(i64::MIN));
    assert_eq!(raw(3).recip(), raw(0x5555_5555_5555_5555));
}

#[test]
fn scalar_reciprocal() {
    assert_eq!(fx(4.0).recip(), fx(0.25));
    assert_eq!(fx(-0.5).recip(), fx(-2.0));
    assert_eq!(fx(9.7).recip().raw(), ((1u128 << 64) / fx(9.7).raw() as u128) as i64);
    assert_eq!(raw(i64::MAX).recip(), raw(2));
    assert_eq!(raw(i64::MIN).recip(), raw(-2));
}

#[test]
fn scalar_order() {
    assert!(fx(0.5).is_positive());
    assert!(!fx(0.0).is_positive());
    assert!(!fx(-0.5).is_positive());
    assert!(fx(0.0).is_zero());
    assert!(!raw(1).is_zero());
    assert!(fx(2.0).gt(fx(1.0)));
    assert!(!fx(1.0).gt(fx(1.0)));
    assert!(!fx(-2.0).gt(fx(1.0)));
    assert_eq!(fx(-2.0).max(fx(0.0)), fx(0.0));
    assert_eq!(fx(2.0).max(fx(0.0)), fx(2.0));
}

#[test]
fn scalar_mix_rounds_once() {
    // (1 * 1 + 2 * 2) / 3 = 5 / 3
    assert_eq!(Scalar::mix(fx(1.0), fx(1.0), fx(2.0), fx(2.0), fx(3.0)), raw(0x1_aaaa_aaaa));
    assert_eq!(Scalar::unmix(fx(3.0), fx(4.0), fx(2.0), fx(3.5), fx(2.0)), fx(2.5));
    assert_eq!(Scalar::unmix(fx(1.0), fx(1.0), fx(2.0), fx(3.0), fx(3.0)), raw(-0x1_aaaa_aaaa));
    assert_eq!(Scalar::mix(fx(1.0), fx(1.0), fx(2.0), fx(2.0), fx(0.0)), fx(0.0));
    // Products that overflow singly stay exact in the sum.
    assert_eq!(
        Scalar::mix(fx(100000.0), fx(100000.0), fx(100000.0), fx(-100000.0), fx(1.0)),
        fx(0.0)
    );
    assert_eq!(
        Scalar::mix(raw(i64::MIN), raw(i64::MIN), raw(i64::MIN), raw(i64::MIN), raw(i64::MAX)),
        raw(i64::MAX)
    );
    assert_eq!(
        Scalar::mix(raw(i64::MIN), raw(i64::MIN), raw(i64::MIN), raw(i64::MIN), raw(i64::MIN)),
        raw(i64::MIN)
    );
    assert_eq!(
        Scalar::unmix(raw(i64::MIN), raw(i64::MIN), raw(i64::MIN), raw(i64::MIN), raw(1)),
        raw(0)
    );
}

#[test]
fn scalar_dot3_rounds_once_and_saturates() {
    assert_eq!(
        Scalar::dot3(fx(1.0), fx(4.0), fx(2.0), fx(5.0), fx(3.0), fx(6.0)),
        fx(32.0)
    );
    // Three thirds of a raw unit make one raw unit.
    let third = raw(0x5555_5556);
    assert_eq!(Scalar::dot3(raw(1), third, raw(1), third, raw(1), third), raw(1));
    assert_eq!(raw(1).mul(third).add(raw(1).mul(third)).add(raw(1).mul(third)), raw(0));
    let min = raw(i64::MIN);
    let max = raw(i64::MAX);
    assert_eq!(Scalar::dot3(min, min, min, min, min, min), max);
    assert_eq!(Scalar::dot3(min, min, min, min, min, max), max);
    assert_eq!(Scalar::dot3(min, max, min, max, min, max), min);
    assert_eq!(Scalar::dot3(min, min, min, max, fx(0.0), fx(0.0)), raw(1 << 31));
    assert_eq!(Scalar::dot3(min, min, min, min, min, max).raw(), i64::MAX);
}

#[test]
fn vector_operations() {
    assert_eq!(v2(1.0, 2.0).add(v2(0.5, -4.0)), v2(1.5, -2.0));
    assert_eq!(v2(1.0, 2.0).sub(v2(0.5, -4.0)), v2(0.5, 6.0));
    assert_eq!(v2(1.0, -2.0).scale(fx(1.5)), v2(1.5, -3.0));
    assert_eq!(v2(3.0, -4.0).length_squared(), fx(25.0));
    assert_eq!(Vector2::splat(fx(2.0)), v2(2.0, 2.0));
    assert_eq!(Vector2::zero(), v2(0.0, 0.0));
    assert_eq!(
        Vector2::mix(v2(-3.8, 0.0), fx(1.0), v2(1.2, 1.0), fx(3.0), fx(4.0)),
        Vector2::new(
            Scalar::mix(fx(-3.8), fx(1.0), fx(1.2), fx(3.0), fx(4.0)),
            Scalar::mix(fx(0.0), fx(1.0), fx(1.0), fx(3.0), fx(4.0))
        )
    );
    assert_eq!(Vector2::mix(v2(0.0, 4.0), fx(1.0), v2(4.0, 8.0), fx(3.0), fx(4.0)), v2(3.0, 7.0));
    assert_eq!(Vector2::unmix(v2(3.0, 7.0), fx(4.0), v2(4.0, 8.0), fx(3.0), fx(1.0)), v2(0.0, 4.0));

    assert_eq!(v3(1.0, 2.0, 3.0).add(v3(0.5, -4.0, 1.0)), v3(1.5, -2.0, 4.0));
    assert_eq!(v3(1.0, 2.0, 3.0).sub(v3(0.5, -4.0, 1.0)), v3(0.5, 6.0, 2.0));
    assert_eq!(v3(1.0, -2.0, 4.0).scale(fx(1.5)), v3(1.5, -3.0, 6.0));
    assert_eq!(v3(1.0, -2.0, 4.0).divide(fx(-4.0)), v3(-0.25, 0.5, -1.0));
    assert_eq!(v3(1.0, -2.0, 4.0).divide(fx(0.0)), Vector3::zero());
    assert_eq!(v3(1.0, 2.0, 3.0).dot(v3(4.0, -5.0, 6.0)), fx(12.0));
    assert_eq!(v3(1.0, 2.0, 3.0).length_squared(), fx(14.0));
    assert_eq!(v3(1.0, 0.0, 0.0).cross(v3(0.0, 1.0, 0.0)), v3(0.0, 0.0, 1.0));
    assert_eq!(v3(1.0, 2.0, 3.0).cross(v3(4.0, 5.0, 6.0)), v3(-3.0, 6.0, -3.0));
    assert_eq!(Vector3::splat(fx(2.0)), v3(2.0, 2.0, 2.0));
    assert_eq!(
        Vector3::mix(v3(0.0, 4.0, 1.0), fx(1.0), v3(4.0, 8.0, 1.0), fx(3.0), fx(4.0)),
        v3(3.0, 7.0, 1.0)
    );
    assert_eq!(
        Vector3::unmix(v3(3.0, 7.0, 1.0), fx(4.0), v3(4.0, 8.0, 1.0), fx(3.0), fx(1.0)),
        v3(0.0, 4.0, 1.0)
    );
}

fn sample() -> Matrix3 {
    Matrix3::from_cols(v3(2.0, 0.0, 1.0), v3(1.0, 3.0, 0.0), v3(0.0, 1.0, 4.0))
}

#[test]
fn matrix_operations() {
    let m = sample();
    let id = Matrix3::identity();
    assert_eq!(id, Matrix3::from_diagonal(v3(1.0, 1.0, 1.0)));
    assert_eq!(Matrix3::zero(), Matrix3::from_diagonal(v3(0.0, 0.0, 0.0)));
    assert_eq!(
        Matrix3::from_diagonal(v3(1.0, 2.0, 3.0)),
        Matrix3::from_cols(v3(1.0, 0.0, 0.0), v3(0.0, 2.0, 0.0), v3(0.0, 0.0, 3.0))
    );
    assert_eq!(
        m.add(id),
        Matrix3::from_cols(v3(3.0, 0.0, 1.0), v3(1.0, 4.0, 0.0), v3(0.0, 1.0, 5.0))
    );
    assert_eq!(
        m.sub(id),
        Matrix3::from_cols(v3(1.0, 0.0, 1.0), v3(1.0, 2.0, 0.0), v3(0.0, 1.0, 3.0))
    );
    assert_eq!(
        m.scale(fx(-0.5)),
        Matrix3::from_cols(v3(-1.0, 0.0, -0.5), v3(-0.5, -1.5, 0.0), v3(0.0, -0.5, -2.0))
    );
    assert_eq!(
        m.transpose(),
        Matrix3::from_cols(v3(2.0, 1.0, 0.0), v3(0.0, 3.0, 1.0), v3(1.0, 0.0, 4.0))
    );
    assert_eq!(m.mul_vec(v3(1.0, 2.0, 3.0)), v3(4.0, 9.0, 13.0));
    assert_eq!(m.mul(id), m);
    assert_eq!(id.mul(m), m);
    assert_eq!(
        m.mul(m.transpose()),
        Matrix3::from_cols(v3(5.0, 3.0, 2.0), v3(3.0, 10.0, 4.0), v3(2.0, 4.0, 17.0))
    );
    assert_eq!(
        Matrix3::outer(v3(1.0, 2.0, 3.0)),
        Matrix3::from_cols(v3(1.0, 2.0, 3.0), v3(2.0, 4.0, 6.0), v3(3.0, 6.0, 9.0))
    );
}

#[test]
fn matrix_determinant_and_inverse() {
    assert_eq!(sample().determinant(), fx(25.0));
    assert_eq!(Matrix3::identity().determinant(), fx(1.0));
    assert_eq!(Matrix3::from_diagonal(v3(2.0, 4.0, 8.0)).determinant(), fx(64.0));
    assert_eq!(
        Matrix3::from_diagonal(v3(2.0, 4.0, 8.0)).inverse(),
        Matrix3::from_diagonal(v3(0.5, 0.25, 0.125))
    );
    // A shear: the inverse shears back.
    let shear = Matrix3::from_cols(v3(1.0, 0.0, 0.0), v3(2.0, 1.0, 0.0), v3(0.0, 0.0, 1.0));
    let back = Matrix3::from_cols(v3(1.0, 0.0, 0.0), v3(-2.0, 1.0, 0.0), v3(0.0, 0.0, 1.0));
    assert_eq!(shear.inverse(), back);
    assert_eq!(shear.mul(shear.inverse()), Matrix3::identity());
    // One with determinant 4, whose inverse has entries in quarters.
    let m = Matrix3::from_cols(v3(2.0, 0.0, 0.0), v3(0.0, 1.0, 1.0), v3(0.0, -1.0, 1.0));
    assert_eq!(m.determinant(), fx(4.0));
    assert_eq!(
        m.inverse(),
        Matrix3::from_cols(v3(0.5, 0.0, 0.0), v3(0.0, 0.5, -0.5), v3(0.0, 0.5, 0.5))
    );
}

#[test]
fn a_singular_matrix_has_the_inverse_zero() {
    assert_eq!(Matrix3::zero().inverse(), Matrix3::zero());
    let flat = Matrix3::from_cols(v3(1.0, 2.0, 3.0), v3(2.0, 4.0, 6.0), v3(0.0, 1.0, 0.0));
    assert_eq!(flat.determinant(), fx(0.0));
    assert_eq!(flat.inverse(), Matrix3::zero());
    assert_eq!(Inertia3d(flat).inverse(), InverseInertia3d(Matrix3::zero()));
    assert_eq!(Inertia2d(fx(0.0)).inverse(), InverseInertia2d(fx(0.0)));
}

#[test]
fn rotation_matrices() {
    assert_eq!(Matrix3::from_quat(Quaternion::identity()), Matrix3::identity());
    // Half turns about the three axes.
    let about = |x: f64, y: f64, z: f64| Matrix3::from_quat(Quaternion::new(fx(x), fx(y), fx(z), fx(0.0)));
    assert_eq!(about(1.0, 0.0, 0.0), Matrix3::from_diagonal(v3(1.0, -1.0, -1.0)));
    assert_eq!(about(0.0, 1.0, 0.0), Matrix3::from_diagonal(v3(-1.0, 1.0, -1.0)));
    assert_eq!(about(0.0, 0.0, 1.0), Matrix3::from_diagonal(v3(-1.0, -1.0, 1.0)));
    // A third of a turn about (1, 1, 1) sends X to Y, Y to Z and Z to X.
    let q = Quaternion::new(fx(0.5), fx(0.5), fx(0.5), fx(0.5));
    assert_eq!(
        Matrix3::from_quat(q),
        Matrix3::from_cols(v3(0.0, 1.0, 0.0), v3(0.0, 0.0, 1.0), v3(1.0, 0.0, 0.0))
    );
}

#[test]
fn rotating_by_the_identity_changes_nothing() {
    let m = Matrix3::from_cols(
        Vector3::new(raw(i64::MAX), raw(-1), raw(12345)),
        Vector3::new(raw(i64::MIN), raw(1), fx(0.1)),
        Vector3::new(fx(-3.7), fx(1e-9), fx(2e9)),
    );
    assert_eq!(m.rotated(Quaternion::identity()), m);
    let rot = Rotation3d(Quaternion::identity());
    assert_eq!(InverseInertia3d(m).rotated(&rot), InverseInertia3d(m));
    assert_eq!(Inertia3d(m).rotated(&rot), Inertia3d(m));
}

#[test]
fn rotating_a_tensor() {
    // A third of a turn about (1, 1, 1) moves the diagonal one place on.
    let q = Quaternion::new(fx(0.5), fx(0.5), fx(0.5), fx(0.5));
    let tensor = Matrix3::from_diagonal(v3(1.0, 2.0, 3.0));
    assert_eq!(tensor.rotated(q), Matrix3::from_diagonal(v3(3.0, 1.0, 2.0)));
    assert_eq!(
        Inertia3d(tensor).rotated(&Rotation3d(q)),
        Inertia3d(Matrix3::from_diagonal(v3(3.0, 1.0, 2.0)))
    );
    assert_eq!(
        InverseInertia3d(tensor).rotated(&Rotation3d(q)),
        InverseInertia3d(Matrix3::from_diagonal(v3(3.0, 1.0, 2.0)))
    );
}

#[test]
fn shifting_a_moment_of_inertia() {
    // 1 + 2 * (3² + 4²)
    assert_eq!(Inertia2d(fx(1.0)).shifted(fx(2.0), v2(3.0, 4.0)), fx(51.0));
    assert_eq!(Inertia2d(fx(1.0)).shifted(fx(2.0), v2(0.0, 0.0)), fx(1.0));
    assert_eq!(Inertia2d(fx(1.0)).shifted(fx(0.0), v2(3.0, 4.0)), fx(1.0));
    assert_eq!(Inertia2d(fx(4.0)).inverse(), InverseInertia2d(fx(0.25)));
    assert_eq!(InverseInertia2d(fx(0.25)).inverse(), Inertia2d(fx(4.0)));
}

#[test]
fn shifting_an_inertia_tensor() {
    // 2 * (14 - d dᵗ) for d = (1, 2, 3), added to the identity
    let shifted = Inertia3d(Matrix3::identity()).shifted(fx(2.0), v3(1.0, 2.0, 3.0));
    assert_eq!(
        shifted,
        Matrix3::from_cols(v3(27.0, -4.0, -6.0), v3(-4.0, 21.0, -12.0), v3(-6.0, -12.0, 11.0))
    );
    assert_eq!(
        Inertia3d(sample()).shifted(fx(2.0), v3(0.0, 0.0, 0.0)),
        sample()
    );
    let diag = Matrix3::from_diagonal(v3(2.0, 4.0, 8.0));
    let inv = Matrix3::from_diagonal(v3(0.5, 0.25, 0.125));
    assert_eq!(Inertia3d(diag).inverse(), InverseInertia3d(inv));
    assert_eq!(InverseInertia3d(inv).inverse(), Inertia3d(diag));
}

#[test]
fn locked_axes_in_the_plane() {
    let none = LockedAxes2d::new();
    assert_eq!(none.to_bits(), 0);
    assert!(!none.is_translation_x_locked());
    assert!(!none.is_translation_y_locked());
    assert!(!none.is_rotation_locked());

    assert_eq!(none.lock_translation_x().to_bits(), 0b100_000);
    assert_eq!(none.lock_translation_y().to_bits(), 0b010_000);
    assert_eq!(none.lock_rotation().to_bits(), 0b000_001);
    let all = none.lock_translation_x().lock_translation_y().lock_rotation();
    assert_eq!(all, LockedAxes2d::from_bits(0b110_001));
    assert!(all.is_translation_x_locked());
    assert!(all.is_translation_y_locked());
    assert!(all.is_rotation_locked());
    assert_eq!(all.unlock_translation_x().to_bits(), 0b010_001);
    assert_eq!(all.unlock_translation_y().to_bits(), 0b100_001);
    assert_eq!(all.unlock_rotation().to_bits(), 0b110_000);
    assert_eq!(none.unlock_rotation(), none);

    assert_eq!(all.apply_to_vec(v2(1.0, 2.0)), v2(0.0, 0.0));
    assert_eq!(none.lock_translation_x().apply_to_vec(v2(1.0, 2.0)), v2(0.0, 2.0));
    assert_eq!(none.lock_translation_y().apply_to_vec(v2(1.0, 2.0)), v2(1.0, 0.0));
    assert_eq!(none.apply_to_vec(v2(1.0, 2.0)), v2(1.0, 2.0));
    assert_eq!(all.apply_to_rotation(fx(3.0)), fx(0.0));
    assert_eq!(none.lock_translation_x().apply_to_rotation(fx(3.0)), fx(3.0));
}

#[test]
fn locked_axes_in_space() {
    let none = LockedAxes3d::new();
    assert_eq!(none.to_bits(), 0);
    assert_eq!(none.lock_translation_x().to_bits(), 0b100_000);
    assert_eq!(none.lock_translation_y().to_bits(), 0b010_000);
    assert_eq!(none.lock_translation_z().to_bits(), 0b001_000);
    assert_eq!(none.lock_rotation_x().to_bits(), 0b000_100);
    assert_eq!(none.lock_rotation_y().to_bits(), 0b000_010);
    assert_eq!(none.lock_rotation_z().to_bits(), 0b000_001);

    let all = LockedAxes3d::from_bits(0b111_111);
    assert!(all.is_translation_x_locked() && all.is_translation_y_locked());
    assert!(all.is_translation_z_locked() && all.is_rotation_x_locked());
    assert!(all.is_rotation_y_locked() && all.is_rotation_z_locked());
    assert_eq!(all.unlock_translation_x().to_bits(), 0b011_111);
    assert_eq!(all.unlock_translation_y().to_bits(), 0b101_111);
    assert_eq!(all.unlock_translation_z().to_bits(), 0b110_111);
    assert_eq!(all.unlock_rotation_x().to_bits(), 0b111_011);
    assert_eq!(all.unlock_rotation_y().to_bits(), 0b111_101);
    assert_eq!(all.unlock_rotation_z().to_bits(), 0b111_110);
    assert!(!all.unlock_rotation_y().is_rotation_y_locked());
    assert!(all.unlock_rotation_y().is_rotation_x_locked());

    assert_eq!(none.lock_translation_y().apply_to_vec(v3(1.0, 2.0, 3.0)), v3(1.0, 0.0, 3.0));
    assert_eq!(all.apply_to_vec(v3(1.0, 2.0, 3.0)), v3(0.0, 0.0, 0.0));
    assert_eq!(none.lock_rotation_x().apply_to_vec(v3(1.0, 2.0, 3.0)), v3(1.0, 2.0, 3.0));
    let m = sample();
    assert_eq!(
        none.lock_rotation_z().apply_to_rotation(m),
        Matrix3::from_cols(m.x_axis, m.y_axis, Vector3::zero())
    );
    assert_eq!(none.lock_translation_z().apply_to_rotation(m), m);
    assert_eq!(all.apply_to_rotation(m), Matrix3::zero());
}
