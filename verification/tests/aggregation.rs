use mass_properties::aggregation::{
    ColliderMassProperties2d, ColliderMassProperties3d, MassPropertiesQuery2dItem,
    MassPropertiesQuery3dItem,
};
use mass_properties::components::{CenterOfMass2d, CenterOfMass3d, InverseMass, Mass};
use mass_properties::inertia::{Inertia2d, Inertia3d, InverseInertia2d, InverseInertia3d};
use mass_properties::matrix::Matrix3;
use mass_properties::scalar::Scalar;
use mass_properties::vector::{Vector2, Vector3};

const ONE: f64 = 4294967296.0;
const F32_EPSILON: f64 = 1.1920929e-7;

fn fx(x: f64) -> Scalar {
    Scalar::from_raw((x * ONE).round() as i64)
}

fn val(s: Scalar) -> f64 {
    s.raw() as f64 / ONE
}

fn v2(x: f64, y: f64) -> Vector2 {
    Vector2::new(fx(x), fx(y))
}

fn v3(x: f64, y: f64, z: f64) -> Vector3 {
    Vector3::new(fx(x), fx(y), fx(z))
}

fn diag3(x: f64, y: f64, z: f64) -> Matrix3 {
    Matrix3::from_diagonal(v3(x, y, z))
}

/// Equal up to `epsilon`, or up to the relative tolerance of single precision.
fn relative_eq(a: f64, b: f64, epsilon: f64) -> bool {
    let diff = (a - b).abs();
    diff <= epsilon || diff <= a.abs().max(b.abs()) * F32_EPSILON
}

fn body2(mass: f64, com: Vector2, inertia: f64) -> MassPropertiesQuery2dItem {
    MassPropertiesQuery2dItem {
        mass: Mass(fx(mass)),
        inverse_mass: InverseMass(fx(1.0 / mass)),
        inertia: Inertia2d(fx(inertia)),
        inverse_inertia: InverseInertia2d(if inertia == 0.0 { fx(0.0) } else { fx(1.0 / inertia) }),
        center_of_mass: CenterOfMass2d(com),
    }
}

fn collider2(mass: f64, com: Vector2, inertia: f64) -> ColliderMassProperties2d {
    ColliderMassProperties2d {
        mass: Mass(fx(mass)),
        inverse_mass: InverseMass(fx(1.0 / mass)),
        inertia: Inertia2d(fx(inertia)),
        inverse_inertia: InverseInertia2d(if inertia == 0.0 { fx(0.0) } else { fx(1.0 / inertia) }),
        center_of_mass: CenterOfMass2d(com),
    }
}

fn body3(mass: f64, com: Vector3, inertia: Matrix3) -> MassPropertiesQuery3dItem {
    MassPropertiesQuery3dItem {
        mass: Mass(fx(mass)),
        inverse_mass: InverseMass(fx(1.0 / mass)),
        inertia: Inertia3d(inertia),
        inverse_inertia: InverseInertia3d(inertia.inverse()),
        center_of_mass: CenterOfMass3d(com),
    }
}

fn collider3(mass: f64, com: Vector3, inertia: Matrix3) -> ColliderMassProperties3d {
    ColliderMassProperties3d {
        mass: Mass(fx(mass)),
        inverse_mass: InverseMass(fx(1.0 / mass)),
        inertia: Inertia3d(inertia),
        inverse_inertia: InverseInertia3d(inertia.inverse()),
        center_of_mass: CenterOfMass3d(com),
    }
}

/// Mass and moment of inertia of a capsule in the plane: a rectangle of the
/// given height between two half discs of the given radius.
fn capsule(height: f64, radius: f64, density: f64) -> (f64, f64) {
    let half_height = height / 2.0;
    let rect_area = radius * half_height * 4.0;
    let rect_unit_inertia = (radius * radius + half_height * half_height) / 3.0;
    let disc_area = std::f64::consts::PI * radius * radius;
    let disc_unit_inertia = radius * radius / 2.0;
    let mass = (rect_area + disc_area) * density;
    let extra = (height * height * 0.25 + height * radius * 3.0 / 8.0) * disc_area * density;
    let inertia = (rect_unit_inertia * rect_area + disc_unit_inertia * disc_area) * density + extra;
    (mass, inertia)
}

#[test]
fn mass_properties_add_assign_works() {
    let mut mass_props = body2(1.6, v2(-3.8, 0.0), 0.0);
    let collider_mass_props = collider2(8.1, v2(1.2, 1.0), 0.0);

    mass_props.add_assign(collider_mass_props);

    assert!(relative_eq(val(mass_props.mass.0), 9.7, F32_EPSILON));
    assert!(relative_eq(val(mass_props.inverse_mass.0), 1.0 / 9.7, F32_EPSILON));
    assert!(relative_eq(val(mass_props.center_of_mass.0.x), 0.375_257, 0.000_001));
    assert!(relative_eq(val(mass_props.center_of_mass.0.y), 0.835_051, 0.000_001));
}

#[test]
fn mass_properties_sub_assign_works() {
    let mut mass_props = body2(8.1, v2(-3.8, 0.0), 0.0);
    let collider_mass_props = collider2(1.6, v2(1.2, 1.0), 0.0);

    mass_props.sub_assign(collider_mass_props);

    assert!(relative_eq(val(mass_props.mass.0), 6.5, F32_EPSILON));
    assert!(relative_eq(val(mass_props.inverse_mass.0), 1.0 / 6.5, F32_EPSILON));
    assert!(relative_eq(val(mass_props.center_of_mass.0.x), -5.030_769, 0.000_001));
    assert!(relative_eq(val(mass_props.center_of_mass.0.y), -0.246_153, 0.000_001));
}

#[test]
fn mass_properties_add_sub_works() {
    let (mass, inertia) = capsule(2.4, 0.6, 3.9);
    let original_mass_props = body2(mass, v2(0.0, 0.0), inertia);
    let (collider_mass, collider_inertia) = capsule(7.4, 2.1, 14.3);
    let collider_mass_props = collider2(collider_mass, v2(0.0, 0.0), collider_inertia);

    let mut mass_props = original_mass_props;
    mass_props.add_assign(collider_mass_props);
    mass_props.sub_assign(collider_mass_props);

    assert!(relative_eq(val(mass_props.mass.0), val(original_mass_props.mass.0), 0.001));
    assert!(relative_eq(
        val(mass_props.inverse_mass.0),
        val(original_mass_props.inverse_mass.0),
        0.000_001
    ));
    assert!(relative_eq(val(mass_props.inertia.0), val(original_mass_props.inertia.0), 0.001));
    assert!(relative_eq(
        val(mass_props.inverse_inertia.0),
        val(original_mass_props.inverse_inertia.0),
        0.001
    ));
    assert!(relative_eq(
        val(mass_props.center_of_mass.0.x),
        val(original_mass_props.center_of_mass.0.x),
        0.000_001
    ));
    assert!(relative_eq(
        val(mass_props.center_of_mass.0.y),
        val(original_mass_props.center_of_mass.0.y),
        0.000_001
    ));
}

#[test]
fn new_mass_properties_hold_the_inverses() {
    let props = MassPropertiesQuery2dItem::new(
        Mass(fx(4.0)),
        Inertia2d(fx(8.0)),
        CenterOfMass2d(v2(1.0, -2.0)),
    );
    assert_eq!(props, body2(4.0, v2(1.0, -2.0), 8.0));
    let collider = ColliderMassProperties2d::new(
        Mass(fx(0.5)),
        Inertia2d(fx(0.0)),
        CenterOfMass2d(v2(1.0, -2.0)),
    );
    assert_eq!(collider, collider2(0.5, v2(1.0, -2.0), 0.0));

    let tensor = diag3(2.0, 4.0, 8.0);
    let props = MassPropertiesQuery3dItem::new(
        Mass(fx(4.0)),
        Inertia3d(tensor),
        CenterOfMass3d(v3(1.0, -2.0, 3.0)),
    );
    assert_eq!(props.inverse_mass.0, fx(0.25));
    assert_eq!(props.inverse_inertia.0, diag3(0.5, 0.25, 0.125));
    assert_eq!(props, body3(4.0, v3(1.0, -2.0, 3.0), tensor));
    let collider = ColliderMassProperties3d::new(
        Mass(fx(4.0)),
        Inertia3d(tensor),
        CenterOfMass3d(v3(1.0, -2.0, 3.0)),
    );
    assert_eq!(collider, collider3(4.0, v3(1.0, -2.0, 3.0), tensor));
}

#[test]
fn default_mass_properties_are_zero() {
    let props = MassPropertiesQuery2dItem::default();
    assert_eq!(props.mass.0, fx(0.0));
    assert_eq!(props.inverse_mass.0, fx(0.0));
    assert_eq!(props.inertia.0, fx(0.0));
    assert_eq!(props.inverse_inertia.0, fx(0.0));
    assert_eq!(props.center_of_mass.0, v2(0.0, 0.0));
    let collider = ColliderMassProperties2d::default();
    assert_eq!(collider.mass.0, fx(0.0));
    assert_eq!(collider.inverse_inertia.0, fx(0.0));

    let props = MassPropertiesQuery3dItem::default();
    assert_eq!(props.mass.0, fx(0.0));
    assert_eq!(props.inverse_mass.0, fx(0.0));
    assert_eq!(props.inertia.0, Matrix3::zero());
    assert_eq!(props.inverse_inertia.0, Matrix3::zero());
    assert_eq!(props.center_of_mass.0, v3(0.0, 0.0, 0.0));
    let collider = ColliderMassProperties3d::default();
    assert_eq!(collider.inertia.0, Matrix3::zero());
    assert_eq!(collider.center_of_mass.0, v3(0.0, 0.0, 0.0));

    // The first collider of a body without mass gives the body its properties.
    let mut props = MassPropertiesQuery2dItem::default();
    props.add_assign(collider2(2.0, v2(1.0, 3.0), 5.0));
    assert_eq!(props, body2(2.0, v2(1.0, 3.0), 5.0));
}

#[test]
fn add_then_sub_stays_within_the_proved_bounds() {
    // A light body and a contribution a thousand times as heavy, far apart.
    let original = MassPropertiesQuery2dItem::new(
        Mass(fx(0.1)),
        Inertia2d(fx(1.0)),
        CenterOfMass2d(v2(-100.3, 77.7)),
    );
    let collider = ColliderMassProperties2d::new(
        Mass(fx(100.0)),
        Inertia2d(fx(1234.5)),
        CenterOfMass2d(v2(120.9, -127.1)),
    );
    let mut props = original;
    props.add_assign(collider);
    props.sub_assign(collider);

    assert_eq!(props.mass, original.mass);
    assert_eq!(props.inverse_mass, original.inverse_mass);
    let ratio = collider.mass.0.raw() / original.mass.0.raw();
    let dx = props.center_of_mass.0.x.raw() - original.center_of_mass.0.x.raw();
    let dy = props.center_of_mass.0.y.raw() - original.center_of_mass.0.y.raw();
    assert!(dx.abs() <= 2 + ratio);
    assert!(dy.abs() <= 2 + ratio);
    assert!((props.inertia.0.raw() - original.inertia.0.raw()).abs() < 1 << 18);
    assert!((props.inverse_inertia.0.raw() - original.inverse_inertia.0.raw()).abs() < 1 << 21);
    assert_eq!(props.inverse_inertia.0, props.inertia.0.recip());
}

#[test]
fn add_then_sub_in_space_stays_within_the_proved_bounds() {
    let tensor = Matrix3::from_cols(v3(3.0, 0.5, -0.25), v3(0.5, 4.0, 1.0), v3(-0.25, 1.0, 5.0));
    let original = MassPropertiesQuery3dItem::new(
        Mass(fx(0.1)),
        Inertia3d(tensor),
        CenterOfMass3d(v3(-100.3, 77.7, 12.1)),
    );
    let collider = ColliderMassProperties3d::new(
        Mass(fx(100.0)),
        Inertia3d(diag3(1000.0, 2000.0, 3000.0)),
        CenterOfMass3d(v3(120.9, -127.1, -64.4)),
    );
    let mut props = original;
    props.add_assign(collider);
    props.sub_assign(collider);

    assert_eq!(props.mass, original.mass);
    assert_eq!(props.inverse_mass, original.inverse_mass);
    let ratio = collider.mass.0.raw() / original.mass.0.raw();
    let (now, then) = (props.center_of_mass.0, original.center_of_mass.0);
    assert!((now.x.raw() - then.x.raw()).abs() <= 2 + ratio);
    assert!((now.y.raw() - then.y.raw()).abs() <= 2 + ratio);
    assert!((now.z.raw() - then.z.raw()).abs() <= 2 + ratio);
    let (now, then) = (props.inertia.0, original.inertia.0);
    for (a, b) in [(now.x_axis, then.x_axis), (now.y_axis, then.y_axis), (now.z_axis, then.z_axis)] {
        assert!((a.x.raw() - b.x.raw()).abs() < 1 << 19);
        assert!((a.y.raw() - b.y.raw()).abs() < 1 << 19);
        assert!((a.z.raw() - b.z.raw()).abs() < 1 << 19);
    }
    assert_eq!(props.inverse_inertia.0, props.inertia.0.inverse());
}

#[test]
fn add_assign_gives_exact_values() {
    // Masses 1 and 3 at (0, 0) and (4, 8): centre (3, 6), distances² 45 and 5.
    let mut props = body2(1.0, v2(0.0, 0.0), 2.0);
    props.add_assign(collider2(3.0, v2(4.0, 8.0), 5.0));

    assert_eq!(props.mass.0, fx(4.0));
    assert_eq!(props.inverse_mass.0, fx(0.25));
    assert_eq!(props.center_of_mass.0, v2(3.0, 6.0));
    assert_eq!(props.inertia.0, fx(2.0 + 45.0 + 5.0 + 3.0 * 5.0));
    assert_eq!(props.inverse_inertia.0, fx(67.0).recip());
}

#[test]
fn sub_assign_gives_exact_values() {
    // Mass 4 at (3, 6) less mass 3 at (4, 8): mass 1 at (0, 0).
    let mut props = body2(4.0, v2(3.0, 6.0), 67.0);
    props.sub_assign(collider2(3.0, v2(4.0, 8.0), 5.0));

    assert_eq!(props.mass.0, fx(1.0));
    assert_eq!(props.inverse_mass.0, fx(1.0));
    assert_eq!(props.center_of_mass.0, v2(0.0, 0.0));
    // 67 + 4 * 45 less 5 + 3 * 80
    assert_eq!(props.inertia.0, fx(67.0 + 180.0 - 5.0 - 240.0));
    assert_eq!(props.inverse_inertia.0, fx(0.5));
}

#[test]
fn add_then_sub_restores_a_body_off_centre() {
    let original = body2(2.5, v2(-1.25, 0.75), 3.5);
    let collider = collider2(7.25, v2(2.0, -3.0), 11.0);

    let mut props = original;
    props.add_assign(collider);
    props.sub_assign(collider);

    assert_eq!(props.mass.0, original.mass.0);
    assert_eq!(props.inverse_mass.0, fx(2.5).recip());
    assert!((val(props.center_of_mass.0.x) - -1.25).abs() < 1e-8);
    assert!((val(props.center_of_mass.0.y) - 0.75).abs() < 1e-8);
    assert!((val(props.inertia.0) - 3.5).abs() < 1e-6);
    assert!((val(props.inverse_inertia.0) - 1.0 / 3.5).abs() < 1e-6);
}

#[test]
fn add_then_sub_is_exact_where_the_centres_agree() {
    let original = body2(15.0, v2(1.5, -2.0), 16.25);
    let collider = collider2(642.5, v2(1.5, -2.0), 6985.0);

    let mut props = original;
    props.add_assign(collider);
    assert_eq!(props.mass.0, fx(657.5));
    assert_eq!(props.center_of_mass.0, v2(1.5, -2.0));
    assert_eq!(props.inertia.0, fx(7001.25));
    props.sub_assign(collider);

    assert_eq!(props.mass, original.mass);
    assert_eq!(props.inertia, original.inertia);
    assert_eq!(props.center_of_mass, original.center_of_mass);
    assert_eq!(props.inverse_mass.0, fx(15.0).recip());
    assert_eq!(props.inverse_inertia.0, fx(16.25).recip());
}

#[test]
fn add_assign_without_mass_changes_nothing() {
    let original = MassPropertiesQuery2dItem {
        mass: Mass(fx(0.0)),
        inverse_mass: InverseMass(fx(0.0)),
        inertia: Inertia2d(fx(1.0)),
        inverse_inertia: InverseInertia2d(fx(1.0)),
        center_of_mass: CenterOfMass2d(v2(1.0, 2.0)),
    };
    let mut props = original;
    props.add_assign(ColliderMassProperties2d {
        mass: Mass(fx(0.0)),
        inverse_mass: InverseMass(fx(0.0)),
        inertia: Inertia2d(fx(3.0)),
        inverse_inertia: InverseInertia2d(fx(0.0)),
        center_of_mass: CenterOfMass2d(v2(5.0, 5.0)),
    });
    assert_eq!(props, original);

    let mut negative = body2(1.0, v2(1.0, 2.0), 1.0);
    let before = negative;
    negative.add_assign(collider2(-1.5, v2(5.0, 5.0), 3.0));
    assert_eq!(negative, before);
}

#[test]
fn sub_assign_guards_on_the_sum_of_the_masses() {
    // The sum of the masses is not positive: nothing changes.
    let mut props = body2(1.0, v2(1.0, 2.0), 1.0);
    let before = props;
    props.sub_assign(collider2(-1.0, v2(5.0, 5.0), 3.0));
    assert_eq!(props, before);

    // The sum is positive and the difference negative: the mass becomes zero.
    let mut small = body2(1.0, v2(1.0, 2.0), 4.0);
    small.sub_assign(collider2(3.0, v2(1.0, 2.0), 1.0));
    assert_eq!(small.mass.0, fx(0.0));
    assert_eq!(small.inverse_mass.0, fx(0.0));
    assert_eq!(small.center_of_mass.0, v2(1.0, 2.0));
    assert_eq!(small.inertia.0, fx(3.0));
}

#[test]
fn sub_assign_keeps_the_centre_of_mass_below_the_threshold() {
    // What is left is exactly the threshold, 2^-23: the centre stays.
    let mut props = MassPropertiesQuery2dItem {
        mass: Mass(Scalar::from_raw(fx(1.0).raw() + 512)),
        inverse_mass: InverseMass(fx(1.0)),
        inertia: Inertia2d(fx(0.0)),
        inverse_inertia: InverseInertia2d(fx(0.0)),
        center_of_mass: CenterOfMass2d(v2(1.0, 2.0)),
    };
    props.sub_assign(collider2(1.0, v2(3.0, 5.0), 0.0));
    assert_eq!(props.mass.0, Scalar::epsilon());
    assert_eq!(props.center_of_mass.0, v2(1.0, 2.0));

    // One raw unit more: the centre moves.
    let mut moved = MassPropertiesQuery2dItem {
        mass: Mass(Scalar::from_raw(fx(1.0).raw() + 513)),
        inverse_mass: InverseMass(fx(1.0)),
        inertia: Inertia2d(fx(0.0)),
        inverse_inertia: InverseInertia2d(fx(0.0)),
        center_of_mass: CenterOfMass2d(v2(1.0, 2.0)),
    };
    moved.sub_assign(collider2(1.0, v2(3.0, 5.0), 0.0));
    assert_eq!(moved.mass.0, Scalar::from_raw(513));
    assert!(moved.center_of_mass.0 != v2(1.0, 2.0));
}

#[test]
fn a_vanished_inertia_has_the_inverse_zero() {
    let mut props = body2(1.0, v2(0.0, 0.0), 0.0);
    props.add_assign(collider2(1.0, v2(0.0, 0.0), 0.0));
    assert_eq!(props.inertia.0, fx(0.0));
    assert_eq!(props.inverse_inertia.0, fx(0.0));
}

#[test]
fn mass_stays_non_negative_through_a_run_of_changes() {
    let mut props = body2(1.0, v2(0.0, 0.0), 1.0);
    let changes = [
        (true, collider2(2.0, v2(1.0, 0.0), 1.0)),
        (false, collider2(5.0, v2(1.0, 0.0), 1.0)),
        (false, collider2(1.0, v2(1.0, 0.0), 1.0)),
        (true, collider2(-4.0, v2(1.0, 0.0), 1.0)),
        (true, collider2(0.5, v2(3.0, 1.0), 1.0)),
        (false, collider2(0.25, v2(3.0, 1.0), 1.0)),
    ];
    for (merge, collider) in changes {
        if merge {
            props.add_assign(collider);
        } else {
            props.sub_assign(collider);
        }
        assert!(props.mass.0.raw() >= 0);
        assert!(props.inverse_mass.0.raw() >= 0);
    }
    assert_eq!(props.mass.0, fx(0.25));
    assert_eq!(props.inverse_mass.0, fx(4.0));
}

#[test]
fn add_assign_in_space_gives_exact_values() {
    // Masses 1 and 3 at the origin and at (4, 8, 4): centre (3, 6, 3).
    let mut props = body3(1.0, v3(0.0, 0.0, 0.0), diag3(2.0, 2.0, 2.0));
    props.add_assign(collider3(3.0, v3(4.0, 8.0, 4.0), diag3(1.0, 1.0, 1.0)));

    assert_eq!(props.mass.0, fx(4.0));
    assert_eq!(props.inverse_mass.0, fx(0.25));
    assert_eq!(props.center_of_mass.0, v3(3.0, 6.0, 3.0));
    // 2 + 1 * (54 - d d) for d = (3, 6, 3), and 1 + 3 * (6 - d d) for d = (-1, -2, -1)
    let expected = Matrix3::from_cols(
        v3(2.0 + 45.0 + 1.0 + 15.0, -18.0 - 6.0, -9.0 - 3.0),
        v3(-18.0 - 6.0, 2.0 + 18.0 + 1.0 + 6.0, -18.0 - 6.0),
        v3(-9.0 - 3.0, -18.0 - 6.0, 2.0 + 45.0 + 1.0 + 15.0),
    );
    assert_eq!(props.inertia.0, expected);
    assert_eq!(props.inverse_inertia.0, expected.inverse());
}

#[test]
fn add_then_sub_in_space_restores_the_body() {
    let original = body3(2.5, v3(-1.25, 0.75, 0.5), diag3(3.5, 4.0, 4.5));
    let collider = collider3(7.25, v3(2.0, -3.0, 1.0), diag3(11.0, 12.0, 13.0));

    let mut props = original;
    props.add_assign(collider);
    props.sub_assign(collider);

    assert_eq!(props.mass.0, original.mass.0);
    assert_eq!(props.inverse_mass.0, fx(2.5).recip());
    let com = props.center_of_mass.0;
    assert!((val(com.x) - -1.25).abs() < 1e-8);
    assert!((val(com.y) - 0.75).abs() < 1e-8);
    assert!((val(com.z) - 0.5).abs() < 1e-8);
    let i = props.inertia.0;
    assert!((val(i.x_axis.x) - 3.5).abs() < 1e-6);
    assert!((val(i.y_axis.y) - 4.0).abs() < 1e-6);
    assert!((val(i.z_axis.z) - 4.5).abs() < 1e-6);
    assert!(val(i.x_axis.y).abs() < 1e-6);
    assert!(val(i.x_axis.z).abs() < 1e-6);
    assert!(val(i.y_axis.z).abs() < 1e-6);
    let inv = props.inverse_inertia.0;
    assert!((val(inv.x_axis.x) - 1.0 / 3.5).abs() < 1e-6);
    assert!((val(inv.y_axis.y) - 0.25).abs() < 1e-6);
    assert!((val(inv.z_axis.z) - 1.0 / 4.5).abs() < 1e-6);
}

#[test]
fn sub_assign_in_space_takes_the_last_mass_away() {
    let mut props = body3(2.0, v3(1.0, 2.0, 3.0), diag3(4.0, 4.0, 4.0));
    props.sub_assign(collider3(2.0, v3(1.0, 2.0, 3.0), diag3(4.0, 4.0, 4.0)));

    assert_eq!(props.mass.0, fx(0.0));
    assert_eq!(props.inverse_mass.0, fx(0.0));
    assert_eq!(props.center_of_mass.0, v3(1.0, 2.0, 3.0));
    assert_eq!(props.inertia.0, Matrix3::zero());
    assert_eq!(props.inverse_inertia.0, Matrix3::zero());
}
