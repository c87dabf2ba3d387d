use drivesim::utils::{normalize_angle, wrap, HALF_PI, PI, TAU};

#[test]
fn normalize_identity_in_range() {
    assert_eq!(normalize_angle(0), 0);
    assert_eq!(normalize_angle(123_456), 123_456);
    assert_eq!(normalize_angle(-123_456), -123_456);
    assert_eq!(normalize_angle(PI), PI);
    assert_eq!(normalize_angle(HALF_PI), HALF_PI);
}

#[test]
fn normalize_reduces_into_half_open_turn() {
    // one step past the half turn wraps to just past the other end
    assert_eq!(normalize_angle(PI + 1), -PI + 1);
    // the negative half-turn boundary maps to the positive one
    assert_eq!(normalize_angle(-PI), PI);
    assert_eq!(normalize_angle(4_000_000), 4_000_000 - TAU);
    assert_eq!(normalize_angle(-4_000_000), TAU - 4_000_000);
}

#[test]
fn normalize_is_periodic() {
    for &theta in &[0i64, 1, -1, 123_456, -987_654, PI, -PI + 1, 3_000_000] {
        let n = normalize_angle(theta);
        assert_eq!(normalize_angle(theta + TAU), n);
        assert_eq!(normalize_angle(theta - TAU), n);
        assert_eq!(normalize_angle(theta + 5 * TAU), n);
        assert_eq!(normalize_angle(theta - 7 * TAU), n);
    }
}

#[test]
fn normalize_is_idempotent_and_congruent() {
    for &theta in &[0i64, 10_000_000, -10_000_000, 123_456_789, -987_654_321] {
        let n = normalize_angle(theta);
        assert!(-PI < n && n <= PI);
        assert_eq!((theta - n) % TAU, 0);
        assert_eq!(normalize_angle(n), n);
    }
}

#[test]
fn wrap_keeps_values_in_closed_interval() {
    assert_eq!(wrap(5, 0, 10), 5);
    assert_eq!(wrap(0, 0, 10), 0);
    // the acceptance test is inclusive at the top
    assert_eq!(wrap(10, 0, 10), 10);
    assert_eq!(wrap(-PI, -PI, PI), -PI);
    assert_eq!(wrap(PI, -PI, PI), PI);
}

#[test]
fn wrap_maps_outside_values_into_half_open_interval() {
    assert_eq!(wrap(11, 0, 10), 1);
    assert_eq!(wrap(-1, 0, 10), 9);
    assert_eq!(wrap(25, 0, 10), 5);
    // just below the lower end of the yaw interval
    assert_eq!(wrap(-PI - 1, -PI, PI), PI - 1);
    for &x in &[11i64, -1, 25, 104, -104, PI + 5, -TAU - 3] {
        let r = wrap(x, 0, 10);
        if !(0 <= x && x <= 10) {
            assert!(0 <= r && r < 10);
        }
        assert_eq!((x - r) % 10, 0);
    }
}
