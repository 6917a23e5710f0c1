// Scenario tests for the quadrotor physics: one fixed-point step stands for
// nine decimal places, so 1_000_000_000 is the real number 1.0.

use rc_controller::drone::Quadrotor;
use rc_controller::quat::Quat;
use rc_controller::vec3::Vec3;

const ONE: i128 = 1_000_000_000;

#[test]
fn zero_velocity_drag_is_zero() {
    let q = Quadrotor::default();
    assert_eq!(q.caculate_air_resistance(), Vec3::new(0, 0, 0));
}

#[test]
fn drag_opposes_motion() {
    // 10 m/s straight ahead, identity attitude: the effective area is the
    // body-x frontal area 0.01 m^2, so drag = 0.5 * 1.0 * 1.29 * 0.01 * 100
    // = 0.645 N against the motion.
    let mut q = Quadrotor::default();
    q.air_density = 1_290_000_000;
    q.velocity = Vec3::new(10 * ONE, 0, 0);
    assert_eq!(q.caculate_air_resistance(), Vec3::new(-645_000_000, 0, 0));
}

#[test]
fn thrust_magnitude_tracks_throttle() {
    // Identity attitude: thrust is throttle * motor_max_force along world
    // up, exactly.
    let mut q = Quadrotor::default();
    q.update_input(ONE / 2, 0, 0, 0);
    assert_eq!(q.caculate_engine_force(), Vec3::new(0, 5 * ONE, 0));
    q.update_input(0, 0, 0, 0);
    assert_eq!(q.caculate_engine_force(), Vec3::new(0, 0, 0));
    q.update_input(ONE, 0, 0, 0);
    assert_eq!(q.caculate_engine_force(), Vec3::new(0, 10 * ONE, 0));
}

#[test]
fn thrust_clamps_throttle() {
    // A throttle outside [0, 1] written straight into the field is clamped
    // by the force model.
    let mut q = Quadrotor::default();
    q.last_input = (3 * ONE, 0, 0, 0);
    assert_eq!(q.caculate_engine_force(), Vec3::new(0, 10 * ONE, 0));
    q.last_input = (-ONE, 0, 0, 0);
    assert_eq!(q.caculate_engine_force(), Vec3::new(0, 0, 0));
}

#[test]
fn zero_timestep_is_noop() {
    let mut q = Quadrotor::default();
    q.update_input(700_000_000, 300_000_000, -200_000_000, 100_000_000);
    q.update_phy(100_000_000);
    let v = q.velocity;
    let o = q.orientation;
    q.update_phy(0);
    assert_eq!(q.velocity, v);
    assert_eq!(q.orientation, o);
}

#[test]
fn orientation_norm_stays_unit() {
    // After an arbitrary run of ticks the quaternion norm stays within one
    // millionth of one.
    let mut q = Quadrotor::default();
    for i in 0..200i128 {
        let yaw = (i % 3 - 1) * ONE;
        let pitch = ((i + 1) % 3 - 1) * (ONE / 2);
        let roll = ((i + 2) % 3 - 1) * (ONE / 4);
        q.update_input(ONE / 2, yaw, pitch, roll);
        q.update_phy(50_000_000);
        let o = q.orientation;
        let n2: i128 = o.x * o.x + o.y * o.y + o.z * o.z + o.w * o.w;
        assert!((ONE * ONE - n2).abs() <= 1_000_000_000_000);
        let n = rc_controller::fx::isqrt(n2 as u128) as i128;
        assert!(ONE - 1000 <= n && n <= ONE + 1000);
    }
}

#[test]
fn extreme_tick_keeps_orientation_sane() {
    // Two full seconds of maximum yaw in one tick overruns the polynomial
    // sine's accurate range; the defensive renormalization still hands back
    // a near-unit quaternion.
    let mut q = Quadrotor::default();
    q.update_input(0, ONE, 0, 0);
    q.update_phy(2 * ONE);
    let o = q.orientation;
    let n2: i128 = o.x * o.x + o.y * o.y + o.z * o.z + o.w * o.w;
    assert!((ONE * ONE - n2).abs() <= 1_000_000_000_000);
}

#[test]
fn identical_runs_coincide() {
    let mut a = Quadrotor::default();
    let mut b = Quadrotor::default();
    for i in 0..50i128 {
        let yaw = (i % 5 - 2) * (ONE / 2);
        let pitch = (i % 7 - 3) * (ONE / 4);
        let roll = (i % 3 - 1) * (ONE / 8);
        let throttle = (i % 10) * (ONE / 10);
        a.update_input(throttle, yaw, pitch, roll);
        b.update_input(throttle, yaw, pitch, roll);
        a.update_phy(20_000_000);
        b.update_phy(20_000_000);
        assert_eq!(a, b);
    }
}

#[test]
fn yaw_roll_order_matters() {
    // A yaw tick followed by a roll tick lands elsewhere than a roll tick
    // followed by a yaw tick of the same magnitudes.
    let mut a = Quadrotor::default();
    a.update_input(0, ONE, 0, 0);
    a.update_phy(100_000_000);
    a.update_input(0, 0, 0, ONE);
    a.update_phy(100_000_000);
    let mut b = Quadrotor::default();
    b.update_input(0, 0, 0, ONE);
    b.update_phy(100_000_000);
    b.update_input(0, ONE, 0, 0);
    b.update_phy(100_000_000);
    assert_ne!(a.orientation, b.orientation);
}

#[test]
fn hover_tick_accelerates_up() {
    // Full throttle from rest: acceleration 10 N / 0.5 kg - 9.8 = 10.2
    // m/s^2 up, so one 0.1 s tick gives exactly 1.02 m/s of upward
    // velocity, and the attitude stays the identity.
    let mut q = Quadrotor::default();
    q.update_input(ONE, 0, 0, 0);
    assert_eq!(q.caculate_acceleration(), Vec3::new(0, 10_200_000_000, 0));
    q.update_phy(100_000_000);
    assert_eq!(q.velocity, Vec3::new(0, 1_020_000_000, 0));
    assert_eq!(q.orientation, Quat::new(0, 0, 0, ONE));
}

#[test]
fn free_fall_first_tick() {
    // All-zero input from rest: after one 1 s tick the vehicle falls at
    // exactly 9.8 m/s (drag is zero at zero speed).
    let mut q = Quadrotor::default();
    q.update_phy(ONE);
    assert_eq!(q.velocity, Vec3::new(0, -9_800_000_000, 0));
}

#[test]
fn caculate_air_resistance() {
    let mut q = Quadrotor::new(
        1_230_000_000,
        2_130_000_000,
        ONE,
        ONE,
        (ONE, ONE, ONE),
    );
    q.velocity = Vec3::new(ONE, ONE, 0);
    // 45 degrees about the body z axis.
    q.orientation = Quat::from_axis_angle(Vec3::new(0, 0, ONE), 785_398_163);
    q.air_density = 2 * ONE;
    q.update_input(ONE, 0, 0, 0);
    println!("{:?}", q.caculate_air_resistance());
}

#[test]
fn caculate_engine_force() {
    let mut q = Quadrotor::default();
    q.velocity = Vec3::new(0, 30 * ONE, 0);
    q.update_input(ONE, 0, 0, 0);
    // 45 degrees about the body x axis.
    q.orientation = Quat::from_axis_angle(Vec3::new(ONE, 0, 0), 785_398_163);
    println!("{:?}", q.caculate_air_resistance());
    println!("{:?}", q.caculate_engine_force());
}

#[test]
fn caculate_total_force() {
    let mut q = Quadrotor::default();
    q.velocity = Vec3::new(20 * ONE, 0, 0);
    q.update_input(ONE, 0, 0, 0);
    // -85 degrees about the body z axis.
    q.orientation = Quat::from_axis_angle(Vec3::new(0, 0, ONE), -1_483_529_864);
    println!("{:?}", q.caculate_air_resistance());
    println!("{:?}", q.caculate_engine_force());
    println!("{:?}", q.caculate_total_force_except_g());
}

#[test]
fn caculate_acceleration() {
    let mut q = Quadrotor::default();
    q.velocity = Vec3::new(0, 0, 0);
    q.update_input(ONE, 0, 0, 0);
    q.orientation = Quat::from_axis_angle(Vec3::new(0, 0, ONE), 0);
    println!("{:?}", q.caculate_air_resistance());
    println!("{:?}", q.caculate_engine_force());
    println!("{:?}", q.caculate_total_force_except_g());
    println!("{:?}", q.caculate_acceleration());
}
