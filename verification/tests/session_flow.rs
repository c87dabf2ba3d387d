use drivesim::camera::{
    CameraMode, CAMERA_RADIUS, FIRST_PERSON_PITCH, FIRST_PERSON_RADIUS, OVER_SHOULDER_PITCH,
    OVER_SHOULDER_RADIUS, THIRD_PERSON_PITCH,
};
use drivesim::car_dynamics::MAX_STEERING_ANGLE;
use drivesim::fixed::SCALE;
use drivesim::session::Session;
use drivesim::sound::SoundState;
use drivesim::utils::{PI, TAU};

#[test]
fn session_starts_at_rest_in_third_person() {
    let s = Session::new();
    assert_eq!(s.state.v, 0);
    assert_eq!(s.state.s, 0);
    assert_eq!(s.camera_mode, CameraMode::ThirdPersonView);
    assert_eq!(s.camera.target_radius, CAMERA_RADIUS);
}

#[test]
fn session_tick_advances_straight_line() {
    let mut s = Session::new();
    s.state.v = 10_000_000;
    let out = s.tick(0, 0, 0, false, 100_000);
    assert_eq!(s.state.x, 1_000_000);
    assert_eq!(s.state.y, 0);
    assert_eq!(s.state.yaw, 0);
    assert_eq!(s.state.v, 10_000_000);
    assert_eq!(s.state.s, 1_000_000);
    assert_eq!(out.wheel_roll, 2_857_142);
    assert_eq!(out.front_steer, 0);
    assert_eq!(out.sound, SoundState::Normal);
    // third person keeps the camera aimed at the vehicle itself
    assert_eq!(s.camera.target_focus_x, 1_000_000);
    assert_eq!(s.camera.target_focus_y, 0);
}

#[test]
fn session_throttle_accelerates_and_sounds() {
    let mut s = Session::new();
    let out = s.tick(SCALE, 0, 0, false, 100_000);
    assert_eq!(s.state.v, 500_000);
    assert_eq!(out.sound, SoundState::Throttle);
}

#[test]
fn session_toggle_cycles_and_resets_targets() {
    let mut s = Session::new();
    s.tick(0, 0, 0, true, 16_666);
    assert_eq!(s.camera_mode, CameraMode::FirstPersonView);
    assert_eq!(s.camera.target_pitch, FIRST_PERSON_PITCH);
    assert_eq!(s.camera.target_radius, FIRST_PERSON_RADIUS);
    s.tick(0, 0, 0, true, 16_666);
    assert_eq!(s.camera_mode, CameraMode::OverShoulderView);
    assert_eq!(s.camera.target_pitch, OVER_SHOULDER_PITCH);
    assert_eq!(s.camera.target_radius, OVER_SHOULDER_RADIUS);
    s.tick(0, 0, 0, true, 16_666);
    assert_eq!(s.camera_mode, CameraMode::ThirdPersonView);
    assert_eq!(s.camera.target_pitch, THIRD_PERSON_PITCH);
    assert_eq!(s.camera.target_radius, CAMERA_RADIUS);
}

#[test]
fn session_unwraps_camera_yaw_across_seam() {
    let mut s = Session::new();
    s.state.yaw = -1_429_204;
    s.set_camera_current(3_000_000, 0);
    s.tick(0, 0, 0, true, 0); // into first person, zero-length tick
    assert_eq!(s.camera.target_yaw, -3_000_000);
    assert_eq!(s.camera.yaw, 3_000_000 - TAU);
    assert!((s.camera.target_yaw - s.camera.yaw).abs() <= PI);
}

#[test]
fn session_steering_saturates_and_camera_tracks() {
    let mut s = Session::new();
    s.tick(0, 0, 0, true, 16_666); // first person
    for _ in 0..600 {
        s.tick(SCALE, 0, SCALE, false, 16_666);
        assert!(s.control.front_wheel_angle.abs() <= MAX_STEERING_ANGLE);
        assert!(-PI < s.state.yaw && s.state.yaw <= PI);
        // the follow step leaves current and target within a half turn
        // whenever they started within one and a half
        assert!((s.camera.target_yaw - s.camera.yaw).abs() <= 3 * PI);
        // hand a smoothed pose back, as the orbit layer would
        let smoothed = s.camera.yaw + (s.camera.target_yaw - s.camera.yaw) / 8;
        let clamped = smoothed.clamp(-TAU, TAU);
        s.set_camera_current(clamped, s.camera.pitch);
    }
    assert_eq!(s.control.front_wheel_angle, MAX_STEERING_ANGLE);
}
