use drivesim::camera::{
    camera_follow, camera_mode_switch, set_camera_for_mode, setup_camera, CameraMode,
    CAMERA_RADIUS, FIRST_PERSON_PITCH, FIRST_PERSON_RADIUS, OVER_SHOULDER_PITCH,
    OVER_SHOULDER_RADIUS, SETUP_PITCH, THIRD_PERSON_PITCH, THIRD_PERSON_YAW,
};
use drivesim::car_dynamics::EgoState;
use drivesim::utils::{PI, TAU};

#[test]
fn mode_cycle_returns_after_three_toggles() {
    let mut mode = CameraMode::ThirdPersonView;
    camera_mode_switch(&mut mode, true);
    assert_eq!(mode, CameraMode::FirstPersonView);
    camera_mode_switch(&mut mode, true);
    assert_eq!(mode, CameraMode::OverShoulderView);
    camera_mode_switch(&mut mode, true);
    assert_eq!(mode, CameraMode::ThirdPersonView);
}

#[test]
fn mode_holds_without_toggle() {
    let mut mode = CameraMode::OverShoulderView;
    camera_mode_switch(&mut mode, false);
    assert_eq!(mode, CameraMode::OverShoulderView);
}

#[test]
fn initial_camera_state() {
    let cam = setup_camera();
    assert_eq!(cam.target_focus_x, 0);
    assert_eq!(cam.target_focus_y, 0);
    assert_eq!(cam.target_yaw, 0);
    assert_eq!(cam.target_pitch, SETUP_PITCH);
    assert_eq!(cam.target_radius, CAMERA_RADIUS);
}

#[test]
fn mode_change_resets_orbit_targets() {
    let mut cam = setup_camera();
    cam.target_yaw = 111;
    set_camera_for_mode(CameraMode::FirstPersonView, &mut cam);
    assert_eq!(cam.target_yaw, 111); // driver-aligned per tick, not reset
    assert_eq!(cam.target_pitch, FIRST_PERSON_PITCH);
    assert_eq!(cam.target_radius, FIRST_PERSON_RADIUS);
    set_camera_for_mode(CameraMode::OverShoulderView, &mut cam);
    assert_eq!(cam.target_yaw, 111);
    assert_eq!(cam.target_pitch, OVER_SHOULDER_PITCH);
    assert_eq!(cam.target_radius, OVER_SHOULDER_RADIUS);
    set_camera_for_mode(CameraMode::ThirdPersonView, &mut cam);
    assert_eq!(cam.target_yaw, THIRD_PERSON_YAW);
    assert_eq!(cam.target_pitch, THIRD_PERSON_PITCH);
    assert_eq!(cam.target_radius, CAMERA_RADIUS);
}

#[test]
fn third_person_follow_aims_at_vehicle() {
    let mut cam = setup_camera();
    cam.yaw = 555;
    cam.target_yaw = 777;
    let q = EgoState { x: 12_345_678, y: -9_876_543, yaw: 1_000_000, v: 0, s: 0 };
    camera_follow(CameraMode::ThirdPersonView, &q, &mut cam);
    assert_eq!(cam.target_focus_x, 12_345_678);
    assert_eq!(cam.target_focus_y, -9_876_543);
    assert_eq!(cam.yaw, 555);
    assert_eq!(cam.target_yaw, 777);
}

#[test]
fn follow_offsets_focus_ahead_of_cabin() {
    let mut cam = setup_camera();
    let q = EgoState { x: 1_000_000, y: 2_000_000, yaw: 0, v: 0, s: 0 };
    camera_follow(CameraMode::FirstPersonView, &q, &mut cam);
    // three metres due east of the cabin when facing east
    assert_eq!(cam.target_focus_x, 4_000_000);
    assert_eq!(cam.target_focus_y, 2_000_000);
    // target yaw tracks the heading a quarter turn to the right
    assert_eq!(cam.target_yaw, -1_570_796);
}

#[test]
fn yaw_unwrap_shifts_current_by_a_full_turn() {
    // current camera yaw 3.0; vehicle heading makes the target yaw -3.0, a
    // difference beyond a half turn: the current yaw must come down a full
    // turn, never swing the long way across the seam
    let mut cam = setup_camera();
    cam.yaw = 3_000_000;
    let q = EgoState { x: 0, y: 0, yaw: -1_429_204, v: 0, s: 0 };
    camera_follow(CameraMode::FirstPersonView, &q, &mut cam);
    assert_eq!(cam.target_yaw, -3_000_000);
    assert_eq!(cam.yaw, 3_000_000 - TAU);
    assert!((cam.target_yaw - cam.yaw).abs() <= PI);
    assert_eq!(cam.target_focus_x, 516_465);
    assert_eq!(cam.target_focus_y, -2_975_622);
}

#[test]
fn yaw_unwrap_shifts_up_across_the_other_seam() {
    let mut cam = setup_camera();
    cam.yaw = -3_000_000;
    // heading that wraps the target yaw to +3.0
    let q = EgoState { x: 0, y: 0, yaw: -1_712_388, v: 0, s: 0 };
    camera_follow(CameraMode::OverShoulderView, &q, &mut cam);
    assert_eq!(cam.target_yaw, 3_000_000);
    assert_eq!(cam.yaw, -3_000_000 + TAU);
    assert!((cam.target_yaw - cam.yaw).abs() <= PI);
}

#[test]
fn small_yaw_difference_leaves_current_alone() {
    let mut cam = setup_camera();
    cam.yaw = -1_500_000;
    let q = EgoState { x: 0, y: 0, yaw: 0, v: 0, s: 0 };
    camera_follow(CameraMode::FirstPersonView, &q, &mut cam);
    assert_eq!(cam.target_yaw, -1_570_796);
    assert_eq!(cam.yaw, -1_500_000);
}
