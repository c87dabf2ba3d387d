use drivesim::camera::CameraMode;
use drivesim::camera::setup_camera;
use drivesim::car_dynamics::{EgoControl, STEER_RATIO};
use drivesim::fixed::SCALE;
use drivesim::input::{gamepad_system, keyboard_camera_system, keyboard_system, INPUT_EPS};
use drivesim::sound::{change_sound_state, SoundState, BRAKE_SOUND_SPEED};
use drivesim::utils::PI;

#[test]
fn keyboard_pedals_are_all_or_nothing() {
    let mut control = EgoControl::default();
    keyboard_system(true, false, false, false, 0, 100_000, &mut control);
    assert_eq!(control.throttle, SCALE);
    assert_eq!(control.brake, 0);
    keyboard_system(false, true, false, false, 0, 100_000, &mut control);
    assert_eq!(control.throttle, 0);
    assert_eq!(control.brake, SCALE);
}

#[test]
fn keyboard_steers_left_then_right() {
    let mut control = EgoControl::default();
    keyboard_system(false, false, true, false, 0, 100_000, &mut control);
    assert_eq!(control.front_wheel_angle, 89_793);
    assert_eq!(control.steer_wheel_angle, 89_793 * STEER_RATIO);
    // holding both directions cancels out again
    let mut both = EgoControl::default();
    keyboard_system(false, false, true, true, 0, 100_000, &mut both);
    assert_eq!(both.front_wheel_angle, 0);
    assert_eq!(both.steer_wheel_angle, 0);
}

#[test]
fn keyboard_camera_nudges_only_in_third_person() {
    let mut cam = setup_camera();
    cam.yaw = 100_000;
    keyboard_camera_system(true, false, false, false, CameraMode::FirstPersonView, 100_000, &mut cam);
    assert_eq!(cam.target_yaw, 0);
    keyboard_camera_system(true, false, false, false, CameraMode::ThirdPersonView, 100_000, &mut cam);
    // one tenth of a second swings a tenth of a half turn from the current yaw
    assert_eq!(cam.target_yaw, 100_000 + PI / 10);
}

#[test]
fn gamepad_triggers_respect_dead_zone() {
    let mut control = EgoControl::default();
    let mut cam = setup_camera();
    gamepad_system(INPUT_EPS, INPUT_EPS - 1, 0, 0, 0, 0, 100_000, &mut control, &mut cam);
    assert_eq!(control.throttle, 0);
    assert_eq!(control.brake, 0);
    gamepad_system(750_000, 250_000, 0, 0, 0, 0, 100_000, &mut control, &mut cam);
    assert_eq!(control.throttle, 750_000);
    assert_eq!(control.brake, 250_000);
    // released triggers keep the last pedal values
    gamepad_system(0, 0, 0, 0, 0, 0, 100_000, &mut control, &mut cam);
    assert_eq!(control.throttle, 750_000);
    assert_eq!(control.brake, 250_000);
    // values past full pedal are clamped
    gamepad_system(1_500_000, 0, 0, 0, 0, 0, 100_000, &mut control, &mut cam);
    assert_eq!(control.throttle, SCALE);
}

#[test]
fn gamepad_stick_steers_against_its_sign() {
    let mut control = EgoControl::default();
    let mut cam = setup_camera();
    gamepad_system(0, 0, -500_000, 0, 0, 0, 100_000, &mut control, &mut cam);
    assert_eq!(control.front_wheel_angle, 44_896);
    assert_eq!(control.steer_wheel_angle, 44_896 * STEER_RATIO);
}

#[test]
fn gamepad_right_stick_moves_camera_targets() {
    let mut control = EgoControl::default();
    let mut cam = setup_camera();
    cam.yaw = 200_000;
    cam.pitch = -300_000;
    gamepad_system(0, 0, 0, SCALE, -SCALE, 0, 100_000, &mut control, &mut cam);
    assert_eq!(cam.target_yaw, 200_000 + PI / 10);
    assert_eq!(cam.target_pitch, -300_000 - PI / 10);
    // inside the dead zone the targets stay put
    let yaw_before = cam.target_yaw;
    gamepad_system(0, 0, 0, INPUT_EPS, 0, 0, 100_000, &mut control, &mut cam);
    assert_eq!(cam.target_yaw, yaw_before);
}

#[test]
fn sound_state_thresholds() {
    let mk = |throttle: i64, brake: i64| EgoControl {
        throttle,
        brake,
        front_wheel_angle: 0,
        steer_wheel_angle: 0,
    };
    assert_eq!(change_sound_state(&mk(500_001, 0), 0), SoundState::Throttle);
    assert_eq!(change_sound_state(&mk(500_000, 0), 0), SoundState::Normal);
    assert_eq!(
        change_sound_state(&mk(0, 600_000), BRAKE_SOUND_SPEED + 1),
        SoundState::Brake
    );
    assert_eq!(change_sound_state(&mk(0, 600_000), BRAKE_SOUND_SPEED), SoundState::Normal);
    assert_eq!(change_sound_state(&mk(0, 500_000), 10_000_000), SoundState::Normal);
    // throttle wins over brake
    assert_eq!(
        change_sound_state(&mk(600_000, 600_000), 10_000_000),
        SoundState::Throttle
    );
}
