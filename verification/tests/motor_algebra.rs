use game::math::motor::Motor;
use game::math::point::Point;
use game::math::vector3::Vector3;

fn translation_motor(x: i64, y: i64, z: i64) -> Motor {
    Motor::translation(Vector3 { x, y, z })
}

#[test]
fn identity_is_neutral() {
    let m = translation_motor(2, -4, 6);
    assert_eq!(Motor::identity().apply(m), m);
    assert_eq!(m.apply(Motor::identity()), m);
    let r = Motor::rotation_xy(3, 4);
    assert_eq!(Motor::identity().apply(r), r);
    assert_eq!(r.apply(Motor::identity()), r);
}

#[test]
fn translations_add() {
    let a = translation_motor(2, 0, 0);
    let b = translation_motor(4, 6, 8);
    assert_eq!(a.apply(b), translation_motor(6, 6, 8));
    assert_eq!(b.apply(a), translation_motor(6, 6, 8));
}

#[test]
fn translation_coefficients_carry_half_the_negated_offset() {
    let m = translation_motor(2, 4, 6);
    assert_eq!(m.s, 1);
    assert_eq!(m.e01, -1);
    assert_eq!(m.e02, -2);
    assert_eq!(m.e03, -3);
    assert_eq!(m.e12, 0);
    assert_eq!(m.e13, 0);
    assert_eq!(m.e23, 0);
    assert_eq!(m.e0123, 0);
}

#[test]
fn unit_motor_times_inverse_is_identity() {
    // a quarter-turn-like rotor: sin = 1, cos = 0, unit norm exactly
    let r = Motor::rotation_xy(1, 0);
    assert_eq!(r.apply(r.inverse()), Motor::identity());
    // a pure translation is a unit motor too
    let t = translation_motor(2, -4, 8);
    assert_eq!(t.apply(t.inverse()), Motor::identity());
}

#[test]
fn composition_is_associative_on_concrete_motors() {
    let a = Motor::rotation_xy(1, 0);
    let b = translation_motor(2, 4, 6);
    let c = Motor::rotation_yz(0, 1);
    assert_eq!(a.apply(b).apply(c), a.apply(b.apply(c)));
}

#[test]
fn composition_is_not_commutative() {
    let a = Motor::rotation_xy(1, 0);
    let b = translation_motor(2, 0, 0);
    assert_ne!(a.apply(b), b.apply(a));
}

#[test]
fn pre_apply_swaps_the_order() {
    let a = Motor::rotation_xy(1, 0);
    let b = translation_motor(2, 4, 0);
    assert_eq!(a.pre_apply(b), b.apply(a));
}

#[test]
fn rotation_part_zeroes_translation_coefficients() {
    let m = Motor {
        s: 5,
        e12: 7,
        e13: -3,
        e23: 2,
        e01: 11,
        e02: -13,
        e03: 17,
        e0123: 19,
    };
    let r = m.rotation_part();
    assert_eq!(r.s, 5);
    assert_eq!(r.e12, 7);
    assert_eq!(r.e13, -3);
    assert_eq!(r.e23, 2);
    assert_eq!(r.e01, 0);
    assert_eq!(r.e02, 0);
    assert_eq!(r.e03, 0);
    assert_eq!(r.e0123, 19);
}

#[test]
fn vector_point_round_trip() {
    let v = Vector3 { x: 5, y: -7, z: 9 };
    let p = Point::from_vector(v);
    assert_eq!(p.e123, 1);
    assert_eq!(p.to_vector(), v);
}

#[test]
fn weighted_point_divides_by_weight() {
    let p = Point {
        e012: 6,
        e013: -9,
        e023: 12,
        e123: 3,
    };
    let v = p.to_vector();
    assert_eq!(v, Vector3 { x: 4, y: 3, z: 2 });
}

#[test]
fn translating_a_point_moves_it_by_the_offset() {
    let m = translation_motor(2, 4, 6);
    let p = Point::from_vector(Vector3 { x: 1, y: 1, z: 1 });
    let q = p.transform(m);
    assert_eq!(q.e123, 1);
    assert_eq!(q.to_vector(), Vector3 { x: 3, y: 5, z: 7 });
}

#[test]
fn rotating_a_point_in_the_xy_plane() {
    // sin = 1, cos = 0 of the half angle: a half turn in the xy plane
    let m = Motor::rotation_xy(1, 0);
    let p = Point::from_vector(Vector3 { x: 3, y: 5, z: 7 });
    let q = p.transform(m);
    assert_eq!(q.to_vector(), Vector3 { x: -3, y: -5, z: 7 });
}

#[test]
fn dot_and_square_length() {
    let a = Vector3 { x: 1, y: 2, z: 3 };
    let b = Vector3 { x: 4, y: -5, z: 6 };
    assert_eq!(a.dot(b), 4 - 10 + 18);
    assert_eq!(a.sqr_length(), 14);
    let c = game::math::vector2::Vector2 { x: 3, y: 4 };
    assert_eq!(c.dot(c), 25);
    assert_eq!(c.sqr_length(), 25);
}
