use drivesim::car_dynamics::{
    calculate_acceleration, calculate_deceleration, MAX_SPEED, V_THRESHOLD,
};
use drivesim::fixed::SCALE;

#[test]
fn acceleration_peak_at_standstill() {
    assert_eq!(calculate_acceleration(SCALE, 0), 5_000_000);
}

#[test]
fn acceleration_zero_at_max_speed() {
    assert_eq!(calculate_acceleration(SCALE, MAX_SPEED), 0);
}

#[test]
fn acceleration_zero_without_throttle() {
    for &v in &[0i64, 5_000_000, 33_300_000, -2_000_000, 100_000_000] {
        assert_eq!(calculate_acceleration(0, v), 0);
    }
}

#[test]
fn acceleration_half_throttle_value() {
    assert_eq!(calculate_acceleration(500_000, 10_000_000), 1_749_250);
}

#[test]
fn acceleration_negative_above_max_speed() {
    assert!(calculate_acceleration(SCALE, MAX_SPEED + 10_000_000) < 0);
}

#[test]
fn acceleration_nonincreasing_in_speed() {
    let speeds = [-5_000_000i64, 0, 5_000_000, 10_000_000, 20_000_000, 33_300_000, 40_000_000];
    for t in [250_000i64, 500_000, SCALE] {
        let mut last = i64::MAX;
        for &v in &speeds {
            let a = calculate_acceleration(t, v);
            assert!(a <= last);
            last = a;
        }
    }
}

#[test]
fn deceleration_zero_without_brake() {
    for &v in &[0i64, 100_000, 5_000_000, 33_300_000, -1_000_000] {
        assert_eq!(calculate_deceleration(0, v), 0);
    }
}

#[test]
fn deceleration_full_brake_value() {
    assert_eq!(calculate_deceleration(SCALE, 10_000_000), -4_935_926);
}

#[test]
fn deceleration_fades_below_threshold() {
    // at half the threshold speed the full-brake response is halved
    assert_eq!(calculate_deceleration(SCALE, 100_000), -2_467_963);
    // and it vanishes at standstill
    assert_eq!(calculate_deceleration(SCALE, 0), 0);
}

#[test]
fn deceleration_more_brake_brakes_harder() {
    let v = V_THRESHOLD + 9_800_000;
    let mut last = calculate_deceleration(0, v);
    assert_eq!(last, 0);
    for &b in &[200_000i64, 400_000, 600_000, 800_000, SCALE] {
        let a = calculate_deceleration(b, v);
        assert!(a <= last);
        last = a;
    }
    assert_eq!(calculate_deceleration(600_000, 10_000_000), -4_023_222);
    assert_eq!(calculate_deceleration(200_000, 10_000_000), -1_001_127);
}
