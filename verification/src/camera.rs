//! Camera-follow state machine and its angle-unwrap logic.
//!
//! The view mode cycles through three states on a toggle. Each tick the
//! follow routine re-aims the orbit camera's target at the vehicle, and in
//! the cabin-near modes tracks the vehicle heading, shifting the camera's
//! current yaw by whole turns when the target jumps across the `PI` seam so
//! the smoothing layer never swings the long way around. Only target values
//! are written here; the smoothed pose itself belongs to that layer, which
//! hands its current yaw and pitch in through `CameraAim`.

use crate::car_dynamics::EgoState;
use crate::fixed::{lemma_tdiv_product_bound, muldiv, SCALE};
use crate::trig::{cos_fx, sin_fx, spec_cos_fx, spec_sin_fx};
use crate::utils::{spec_wrap, wrap, HALF_PI, PI, TAU};
use vstd::prelude::*;

verus! {

/// Orbit radius of the third-person view, in metres.
pub const CAMERA_RADIUS: i64 = 50_000_000;

/// Orbit radius of the first-person view, in metres.
pub const FIRST_PERSON_RADIUS: i64 = 2_000_000;

/// Orbit radius of the over-shoulder view, in metres.
pub const OVER_SHOULDER_RADIUS: i64 = 20_000_000;

/// Fixed target yaw of the third-person view: an eighth turn.
pub const THIRD_PERSON_YAW: i64 = 785_398;

/// Target pitch of the third-person view: minus sixty degrees.
pub const THIRD_PERSON_PITCH: i64 = -1_047_197;

/// Target pitch of the first-person view: minus eighty degrees.
pub const FIRST_PERSON_PITCH: i64 = -1_396_263;

/// Target pitch of the over-shoulder view: minus three eighths of a turn.
pub const OVER_SHOULDER_PITCH: i64 = -1_178_097;

/// Pitch the camera starts with: an eighth turn downward.
pub const SETUP_PITCH: i64 = -785_398;

/// Lateral aim offset of the cabin-near views, in metres.
pub const CAMERA_OFFSET: i64 = 3_000_000;

/// Magnitude bound on the current yaw and pitch the smoothing layer hands
/// in; far beyond anything a smoothed camera reaches.
pub const CAM_ANGLE_LIM: i64 = 1_000_000_000_000;

/// The three camera views, cycled by the toggle in this order.
#[derive(Clone, Copy, Debug, PartialEq, Eq, Structural)]
pub enum CameraMode {
    ThirdPersonView,
    FirstPersonView,
    OverShoulderView,
}

/// Successor of a view in the toggle cycle.
pub open spec fn spec_next_mode(mode: CameraMode) -> CameraMode {
    match mode {
        CameraMode::ThirdPersonView => CameraMode::FirstPersonView,
        CameraMode::FirstPersonView => CameraMode::OverShoulderView,
        CameraMode::OverShoulderView => CameraMode::ThirdPersonView,
    }
}

/// Three toggles bring any view back to itself, through the other two.
pub proof fn lemma_mode_cycle(mode: CameraMode)
    ensures
        spec_next_mode(spec_next_mode(spec_next_mode(mode))) == mode,
        spec_next_mode(mode) != mode,
        spec_next_mode(spec_next_mode(mode)) != mode,
{
}

/// Advances the view mode when the toggle fired, else leaves it.
pub fn camera_mode_switch(camera_mode: &mut CameraMode, toggle: bool)
    ensures
        toggle ==> *final(camera_mode) == spec_next_mode(*old(camera_mode)),
        !toggle ==> *final(camera_mode) == *old(camera_mode),
{
    if toggle {
        match *camera_mode {
            CameraMode::ThirdPersonView => {
                *camera_mode = CameraMode::FirstPersonView;
            },
            CameraMode::FirstPersonView => {
                *camera_mode = CameraMode::OverShoulderView;
            },
            CameraMode::OverShoulderView => {
                *camera_mode = CameraMode::ThirdPersonView;
            },
        }
    }
}

/// Aim state of the orbit camera: the target this controller steers, plus
/// the current yaw and pitch owned by the external smoothing layer, carried
/// here so the unwrap step and the manual nudges can read and shift them.
#[derive(Clone, Copy)]
pub struct CameraAim {
    /// East coordinate of the aim point, in metres.
    pub target_focus_x: i64,
    /// North coordinate of the aim point, in metres.
    pub target_focus_y: i64,
    /// Target yaw of the orbit, in radians.
    pub target_yaw: i64,
    /// Target pitch of the orbit, in radians.
    pub target_pitch: i64,
    /// Target distance from the aim point, in metres.
    pub target_radius: i64,
    /// Current smoothed yaw, owned externally.
    pub yaw: i64,
    /// Current smoothed pitch, owned externally.
    pub pitch: i64,
}

/// Aim state the session starts with: the origin in view from an eighth
/// turn above, at the third-person radius.
pub fn setup_camera() -> (camera: CameraAim)
    ensures
        camera.target_focus_x == 0,
        camera.target_focus_y == 0,
        camera.target_yaw == 0,
        camera.target_pitch == SETUP_PITCH,
        camera.target_radius == CAMERA_RADIUS,
        camera.yaw == 0,
        camera.pitch == SETUP_PITCH,
{
    CameraAim {
        target_focus_x: 0,
        target_focus_y: 0,
        target_yaw: 0,
        target_pitch: SETUP_PITCH,
        target_radius: CAMERA_RADIUS,
        yaw: 0,
        pitch: SETUP_PITCH,
    }
}

/// Resets the target orbit parameters for a freshly selected view. The
/// cabin-near views keep the target yaw: it is driver-aligned every tick by
/// `camera_follow`.
pub fn set_camera_for_mode(camera_mode: CameraMode, camera: &mut CameraAim)
    ensures
        final(camera).target_focus_x == old(camera).target_focus_x,
        final(camera).target_focus_y == old(camera).target_focus_y,
        final(camera).yaw == old(camera).yaw,
        final(camera).pitch == old(camera).pitch,
        camera_mode == CameraMode::ThirdPersonView ==> {
            &&& final(camera).target_yaw == THIRD_PERSON_YAW
            &&& final(camera).target_pitch == THIRD_PERSON_PITCH
            &&& final(camera).target_radius == CAMERA_RADIUS
        },
        camera_mode == CameraMode::FirstPersonView ==> {
            &&& final(camera).target_yaw == old(camera).target_yaw
            &&& final(camera).target_pitch == FIRST_PERSON_PITCH
            &&& final(camera).target_radius == FIRST_PERSON_RADIUS
        },
        camera_mode == CameraMode::OverShoulderView ==> {
            &&& final(camera).target_yaw == old(camera).target_yaw
            &&& final(camera).target_pitch == OVER_SHOULDER_PITCH
            &&& final(camera).target_radius == OVER_SHOULDER_RADIUS
        },
{
    match camera_mode {
        CameraMode::ThirdPersonView => {
            camera.target_yaw = THIRD_PERSON_YAW;
            camera.target_pitch = THIRD_PERSON_PITCH;
            camera.target_radius = CAMERA_RADIUS;
        },
        CameraMode::FirstPersonView => {
            camera.target_pitch = FIRST_PERSON_PITCH;
            camera.target_radius = FIRST_PERSON_RADIUS;
        },
        CameraMode::OverShoulderView => {
            camera.target_pitch = OVER_SHOULDER_PITCH;
            camera.target_radius = OVER_SHOULDER_RADIUS;
        },
    }
}

/// Driver-aligned target yaw of the cabin-near views: the vehicle heading a
/// quarter turn to the right, wrapped into the half-open turn.
pub open spec fn spec_follow_target_yaw(q: EgoState) -> int {
    spec_wrap(q.yaw - HALF_PI, -PI as int, PI as int)
}

/// The driver-aligned target yaw never leaves the half turn either way.
pub proof fn lemma_follow_target_in_range(q: EgoState)
    requires
        q.wf(),
    ensures
        -PI <= spec_follow_target_yaw(q) <= PI,
{
    let x = q.yaw - HALF_PI;
    if !(-PI <= x <= PI) {
        vstd::arithmetic::div_mod::lemma_mod_division_less_than_divisor(x - (-PI), TAU as int);
    }
}

/// Current yaw after the unwrap step: shifted by a whole turn toward the
/// target whenever the difference exceeds a half turn.
pub open spec fn spec_unwrapped_yaw(target: int, yaw: int) -> int {
    if target - yaw > PI {
        yaw + TAU
    } else if target - yaw < -PI {
        yaw - TAU
    } else {
        yaw
    }
}

/// Per-tick follow step. Every view aims the focus at the vehicle; the
/// cabin-near views push it a lateral offset ahead of the cabin, track the
/// heading with the target yaw, and unwrap the current yaw so the smoothing
/// layer is never asked to cross more than a half turn beyond the seam: if
/// current and target start within one and a half turns of each other, they
/// end within a half turn.
pub fn camera_follow(camera_mode: CameraMode, q: &EgoState, camera: &mut CameraAim)
    requires
        q.wf(),
        -CAM_ANGLE_LIM <= old(camera).yaw <= CAM_ANGLE_LIM,
    ensures
        final(camera).target_pitch == old(camera).target_pitch,
        final(camera).target_radius == old(camera).target_radius,
        final(camera).pitch == old(camera).pitch,
        camera_mode == CameraMode::ThirdPersonView ==> {
            &&& final(camera).target_focus_x == q.x
            &&& final(camera).target_focus_y == q.y
            &&& final(camera).target_yaw == old(camera).target_yaw
            &&& final(camera).yaw == old(camera).yaw
        },
        camera_mode != CameraMode::ThirdPersonView ==> {
            &&& final(camera).target_yaw == spec_follow_target_yaw(*q)
            &&& final(camera).yaw == spec_unwrapped_yaw(
                spec_follow_target_yaw(*q),
                old(camera).yaw as int,
            )
            &&& final(camera).target_focus_x == q.x + crate::fixed::fxmul(
                CAMERA_OFFSET as int,
                spec_cos_fx(q.yaw as int),
            )
            &&& final(camera).target_focus_y == q.y + crate::fixed::fxmul(
                CAMERA_OFFSET as int,
                spec_sin_fx(q.yaw as int),
            )
            &&& (-3 * PI <= spec_follow_target_yaw(*q) - old(camera).yaw <= 3 * PI ==> -PI
                <= spec_follow_target_yaw(*q) - final(camera).yaw <= PI)
        },
{
    camera.target_focus_x = q.x;
    camera.target_focus_y = q.y;
    if !matches!(camera_mode, CameraMode::ThirdPersonView) {
        let target = wrap(q.yaw - HALF_PI, -PI, PI);
        camera.target_yaw = target;
        let yaw_d = target - camera.yaw;
        if yaw_d > PI {
            camera.yaw = camera.yaw + TAU;
        } else if yaw_d < -PI {
            camera.yaw = camera.yaw - TAU;
        }
        let c = cos_fx(q.yaw);
        let sn = sin_fx(q.yaw);
        proof {
            lemma_tdiv_product_bound(
                CAMERA_OFFSET as int,
                c as int,
                CAMERA_OFFSET as int,
                SCALE as int,
                SCALE as int,
            );
            lemma_tdiv_product_bound(
                CAMERA_OFFSET as int,
                sn as int,
                CAMERA_OFFSET as int,
                SCALE as int,
                SCALE as int,
            );
        }
        let off_x = muldiv(CAMERA_OFFSET, c, SCALE);
        let off_y = muldiv(CAMERA_OFFSET, sn, SCALE);
        camera.target_focus_x = q.x + off_x;
        camera.target_focus_y = q.y + off_y;
    }
}

} // verus!
