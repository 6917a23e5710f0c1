// Unit tests for the fixed-point scalar core, vectors and quaternions.

use rc_controller::fx::{clamp, fdivp, fmul, isqrt};
use rc_controller::quat::Quat;
use rc_controller::vec3::Vec3;
use rc_controller::drone::Quadrotor;

const ONE: i128 = 1_000_000_000;

#[test]
fn isqrt_brackets() {
    assert_eq!(isqrt(0), 0);
    assert_eq!(isqrt(1), 1);
    assert_eq!(isqrt(3), 1);
    assert_eq!(isqrt(4), 2);
    assert_eq!(isqrt(999_999_999_999_999_999), 999_999_999);
    assert_eq!(isqrt(1_000_000_000_000_000_000), 1_000_000_000);
    assert_eq!(isqrt(u128::MAX), (1u128 << 64) - 1);
}

#[test]
fn fmul_truncates_toward_zero() {
    assert_eq!(fmul(ONE, ONE), ONE);
    assert_eq!(fmul(ONE / 2, 10 * ONE), 5 * ONE);
    assert_eq!(fmul(ONE, 0), 0);
    // -1.5 * 0.333333333 = -0.4999999995, truncated toward zero.
    assert_eq!(fmul(-1_500_000_000, 333_333_333), -499_999_999);
    assert_eq!(fmul(1_500_000_000, -333_333_333), -499_999_999);
    assert_eq!(fmul(-1_500_000_000, -333_333_333), 499_999_999);
}

#[test]
fn fdivp_rescales() {
    assert_eq!(fdivp(10 * ONE, ONE / 2), 20 * ONE);
    assert_eq!(fdivp(-10 * ONE, ONE / 2), -20 * ONE);
    assert_eq!(fdivp(ONE, 3 * ONE), 333_333_333);
    assert_eq!(fdivp(-ONE, 3 * ONE), -333_333_333);
}

#[test]
fn clamp_bounds() {
    assert_eq!(clamp(5, 0, 10), 5);
    assert_eq!(clamp(-5, 0, 10), 0);
    assert_eq!(clamp(15, 0, 10), 10);
}

#[test]
fn quaternion_identity_rotation() {
    let id = Quat::identity();
    let v = Vec3::new(123_000_000, -456_000_000, 789_000_000);
    assert_eq!(id.mul_vec3(v), v);
    let q = Quat::from_axis_angle(Vec3::new(0, 0, ONE), 0);
    assert_eq!(q, id);
}

#[test]
fn quarter_turn_rotates_axes() {
    // About 90 degrees about z sends x near y; fixed-point and the
    // polynomial sine leave only a small residue.
    let q = Quat::from_axis_angle(Vec3::new(0, 0, ONE), 1_570_796_326);
    let r = q.mul_vec3(Vec3::new(ONE, 0, 0));
    assert!(r.x.abs() < 2_000_000);
    assert!((r.y - ONE).abs() < 2_000_000);
    assert!(r.z.abs() < 2_000_000);
}

#[test]
fn update_input_returns_stored() {
    let mut q = Quadrotor::default();
    let stored = q.update_input(ONE, -ONE, ONE / 4, -ONE / 4);
    assert_eq!(stored, (ONE, -ONE, ONE / 4, -ONE / 4));
    assert_eq!(q.last_input, (ONE, -ONE, ONE / 4, -ONE / 4));
    q.update_input_typr((0, ONE, 0, -ONE));
    assert_eq!(q.last_input, (0, ONE, 0, -ONE));
}

#[test]
fn new_sets_configuration() {
    let q = Quadrotor::new(2 * ONE, 30 * ONE, 12 * ONE, ONE / 2, (ONE, 2 * ONE, 3 * ONE));
    assert_eq!(q.mass, 2 * ONE);
    assert_eq!(q.motor_max_speed, 30 * ONE);
    assert_eq!(q.motor_max_force, 12 * ONE);
    assert_eq!(q.air_resistance_coefficient, ONE / 2);
    assert_eq!(q.frontal_area_xyz, (ONE, 2 * ONE, 3 * ONE));
    assert_eq!(q.velocity, Vec3::new(0, 0, 0));
    assert_eq!(q.orientation, Quat::new(0, 0, 0, ONE));
    assert_eq!(q.g, Vec3::new(0, -9_800_000_000, 0));
    assert_eq!(q.last_input, (0, 0, 0, 0));
    assert_eq!(q.angular_velocity, (6_283_185_306, 6_283_185_306, 6_283_185_306));
}

#[test]
fn default_matches_reference() {
    let q = Quadrotor::default();
    assert_eq!(q.mass, 500_000_000);
    assert_eq!(q.motor_max_force, 10 * ONE);
    assert_eq!(q.motor_max_speed, 25 * ONE);
    assert_eq!(q.air_resistance_coefficient, ONE);
    assert_eq!(q.air_density, 1_290_000_000);
    assert_eq!(q.frontal_area_xyz, (10_000_000, 40_000_000, 10_000_000));
    assert_eq!(q.orientation, Quat::identity());
}
