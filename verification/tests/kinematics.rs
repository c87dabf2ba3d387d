use drivesim::car_dynamics::{
    bicycle_kinematic_model, wheel_movement, EgoControl, EgoState, EgoStateDerivative,
    MAX_STEERING_ANGLE, STEER_RATIO,
};
use drivesim::fixed::SCALE;
use drivesim::utils::TAU;

#[test]
fn straight_line_tick() {
    // at ten metres per second due east, a tenth of a second advances the
    // vehicle exactly one metre and leaves the heading untouched
    let mut q = EgoState { x: 0, y: 0, yaw: 0, v: 10_000_000, s: 0 };
    let control = EgoControl::default();
    let dq = bicycle_kinematic_model(&mut q, &control, 100_000);
    assert_eq!(dq.dx, 10_000_000);
    assert_eq!(dq.dy, 0);
    assert_eq!(dq.dtheta, 0);
    assert_eq!(dq.dv, 0);
    assert_eq!(dq.ds, 10_000_000);
    assert_eq!(q.x, 1_000_000);
    assert_eq!(q.y, 0);
    assert_eq!(q.yaw, 0);
    assert_eq!(q.v, 10_000_000);
    assert_eq!(q.s, 1_000_000);
}

#[test]
fn zero_tick_is_a_no_op() {
    let mut q = EgoState { x: 7, y: -9, yaw: 1_000_000, v: 20_000_000, s: 40 };
    let control = EgoControl {
        throttle: SCALE,
        brake: 300_000,
        front_wheel_angle: 100_000,
        steer_wheel_angle: 100_000 * STEER_RATIO,
    };
    bicycle_kinematic_model(&mut q, &control, 0);
    assert_eq!(q.x, 7);
    assert_eq!(q.y, -9);
    assert_eq!(q.yaw, 1_000_000);
    assert_eq!(q.v, 20_000_000);
    assert_eq!(q.s, 40);
}

#[test]
fn full_steer_turns_left() {
    let mut q = EgoState { x: 0, y: 0, yaw: 0, v: 10_000_000, s: 0 };
    let control = EgoControl {
        throttle: 0,
        brake: 0,
        front_wheel_angle: MAX_STEERING_ANGLE,
        steer_wheel_angle: MAX_STEERING_ANGLE * STEER_RATIO,
    };
    let dq = bicycle_kinematic_model(&mut q, &control, 100_000);
    assert_eq!(dq.dtheta, 2_460_603);
    assert_eq!(q.yaw, 246_060);
}

#[test]
fn throttle_accelerates_over_a_tick() {
    let mut q = EgoState { x: 0, y: 0, yaw: 0, v: 0, s: 0 };
    let control = EgoControl {
        throttle: SCALE,
        brake: 0,
        front_wheel_angle: 0,
        steer_wheel_angle: 0,
    };
    let dq = bicycle_kinematic_model(&mut q, &control, 100_000);
    assert_eq!(dq.dv, 5_000_000);
    assert_eq!(q.v, 500_000);
}

#[test]
fn heading_stays_normalized_through_many_ticks() {
    let mut q = EgoState { x: 0, y: 0, yaw: 3_000_000, v: 30_000_000, s: 0 };
    let control = EgoControl {
        throttle: 0,
        brake: 0,
        front_wheel_angle: MAX_STEERING_ANGLE,
        steer_wheel_angle: MAX_STEERING_ANGLE * STEER_RATIO,
    };
    for _ in 0..100 {
        bicycle_kinematic_model(&mut q, &control, 100_000);
        assert!(-3_141_592 < q.yaw && q.yaw <= 3_141_592);
    }
}

#[test]
fn derivative_default_is_zero() {
    let dq = EgoStateDerivative::default();
    assert_eq!(dq.dx, 0);
    assert_eq!(dq.dy, 0);
    assert_eq!(dq.dtheta, 0);
    assert_eq!(dq.dv, 0);
    assert_eq!(dq.ds, 0);
}

#[test]
fn state_default_is_at_rest_at_origin() {
    let q = EgoState::default();
    assert_eq!((q.x, q.y, q.yaw, q.v, q.s), (0, 0, 0, 0, 0));
    let c = EgoControl::default();
    assert_eq!((c.throttle, c.brake, c.front_wheel_angle, c.steer_wheel_angle), (0, 0, 0, 0));
}

#[test]
fn wheel_roll_follows_odometer() {
    let control = EgoControl::default();
    // one wheel radius of travel rolls the wheel exactly one unit angle
    let q = EgoState { x: 0, y: 0, yaw: 0, v: 0, s: 350_000 };
    let (roll, steer) = wheel_movement(&control, &q, false);
    assert_eq!(roll, 1_000_000);
    assert_eq!(steer, 0);
    // rolling backwards still lands in [0, TAU)
    let qb = EgoState { x: 0, y: 0, yaw: 0, v: 0, s: -100_000 };
    let (roll_b, _) = wheel_movement(&control, &qb, false);
    assert_eq!(roll_b, 5_997_470);
    assert!(0 <= roll_b && roll_b < TAU);
}

#[test]
fn only_steering_wheels_take_the_steer_angle() {
    let control = EgoControl {
        throttle: 0,
        brake: 0,
        front_wheel_angle: 300_000,
        steer_wheel_angle: 300_000 * STEER_RATIO,
    };
    let q = EgoState::default();
    let (_, steer_front) = wheel_movement(&control, &q, true);
    let (_, steer_rear) = wheel_movement(&control, &q, false);
    assert_eq!(steer_front, 300_000);
    assert_eq!(steer_rear, 0);
}
