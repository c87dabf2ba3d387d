//! The session: one vehicle, its control, and the camera state, advanced by
//! an explicit per-tick call chain.
//!
//! Each tick takes the collaborators' normalized inputs — pedal fractions,
//! a steering command, the camera toggle and the tick length — and runs the
//! fixed order: control response, kinematic integration, then the wheel and
//! camera derivations, handing back what the rendering and audio layers
//! consume. The camera's smoothed pose stays owned by the smoothing layer,
//! which writes it back between ticks.

use crate::camera::{
    camera_follow, camera_mode_switch, lemma_follow_target_in_range, set_camera_for_mode,
    setup_camera, spec_follow_target_yaw, spec_next_mode, spec_unwrapped_yaw, CameraAim,
    CameraMode, CAMERA_RADIUS, FIRST_PERSON_PITCH, FIRST_PERSON_RADIUS, OVER_SHOULDER_PITCH,
    OVER_SHOULDER_RADIUS, THIRD_PERSON_PITCH, THIRD_PERSON_YAW,
};
use crate::car_dynamics::{
    bicycle_kinematic_model, wheel_movement, EgoControl, EgoState, DT_LIM, POS_LIM, STEER_RATIO,
    V_LIM,
};
use crate::fixed::{fxmul, spec_clamp, SCALE};
use crate::input::{get_steering_angle, spec_steering_angle};
use crate::sound::{change_sound_state, spec_sound_state, SoundState};
use crate::utils::{spec_normalize_angle, PI, TAU};
use vstd::prelude::*;

verus! {

/// What one tick hands the rendering and audio layers: the wheel roll
/// angle, the front-wheel steer angle, and the called-for engine sound.
pub struct TickOutput {
    /// Roll angle of every wheel, in `[0, TAU)`.
    pub wheel_roll: i64,
    /// Steer angle of the steering wheels.
    pub front_steer: i64,
    /// Engine sound called for by the new control and speed.
    pub sound: SoundState,
}

/// The one vehicle of the simulation with its control, view mode and camera
/// aim, owned as a plain aggregate and advanced in a fixed order per tick.
pub struct Session {
    /// Pose, speed and odometer of the vehicle.
    pub state: EgoState,
    /// Driver command state.
    pub control: EgoControl,
    /// Current view mode; changes only on the toggle.
    pub camera_mode: CameraMode,
    /// Orbit-camera aim state.
    pub camera: CameraAim,
}

impl Session {
    /// Validity of the aggregate: the vehicle and control invariants, and a
    /// camera pose within one turn of level, which the unwrap step keeps.
    pub open spec fn wf(self) -> bool {
        &&& self.state.wf()
        &&& self.control.wf()
        &&& -TAU <= self.camera.yaw <= TAU
        &&& -TAU <= self.camera.pitch <= TAU
    }

    /// A fresh session: the vehicle at rest at the origin, no commands, the
    /// third-person view from the starting camera pose.
    pub fn new() -> (s: Session)
        ensures
            s.wf(),
            s.state.x == 0 && s.state.y == 0 && s.state.yaw == 0 && s.state.v == 0 && s.state.s
                == 0,
            s.control.throttle == 0 && s.control.brake == 0 && s.control.front_wheel_angle == 0,
            s.camera_mode == CameraMode::ThirdPersonView,
    {
        Session {
            state: EgoState::default(),
            control: EgoControl::default(),
            camera_mode: CameraMode::ThirdPersonView,
            camera: setup_camera(),
        }
    }

    /// Writes back the smoothed camera pose between ticks. The smoothing
    /// layer interpolates toward targets near the half turn, so a pose
    /// within one turn is all it ever hands in.
    pub fn set_camera_current(&mut self, yaw: i64, pitch: i64)
        requires
            old(self).wf(),
            -TAU <= yaw <= TAU,
            -TAU <= pitch <= TAU,
        ensures
            final(self).wf(),
            final(self).camera.yaw == yaw,
            final(self).camera.pitch == pitch,
            final(self).state == old(self).state,
            final(self).control == old(self).control,
            final(self).camera_mode == old(self).camera_mode,
            final(self).camera.target_focus_x == old(self).camera.target_focus_x,
            final(self).camera.target_focus_y == old(self).camera.target_focus_y,
            final(self).camera.target_yaw == old(self).camera.target_yaw,
            final(self).camera.target_pitch == old(self).camera.target_pitch,
            final(self).camera.target_radius == old(self).camera.target_radius,
    {
        self.camera.yaw = yaw;
        self.camera.pitch = pitch;
    }

    /// One simulation tick over the collaborators' normalized inputs, in
    /// the fixed order: steering and pedals into the control, one Euler
    /// step of the bicycle model, then the wheel roll, the camera mode and
    /// follow step, and the audio selection.
    pub fn tick(
        &mut self,
        throttle: i64,
        brake: i64,
        steer_command: i64,
        camera_toggle: bool,
        dt: i64,
    ) -> (out: TickOutput)
        requires
            old(self).wf(),
            0 <= throttle <= SCALE,
            0 <= brake <= SCALE,
            -SCALE <= steer_command <= SCALE,
            0 <= dt <= DT_LIM,
        ensures
            final(self).wf(),
            final(self).control.throttle == throttle,
            final(self).control.brake == brake,
            final(self).control.front_wheel_angle == spec_steering_angle(
                old(self).state.v as int,
                old(self).control.front_wheel_angle as int,
                steer_command as int,
                dt as int,
            ),
            final(self).control.steer_wheel_angle == STEER_RATIO
                * final(self).control.front_wheel_angle,
            final(self).camera_mode == if camera_toggle {
                spec_next_mode(old(self).camera_mode)
            } else {
                old(self).camera_mode
            },
            final(self).state.x == spec_clamp(
                old(self).state.x + fxmul(crate::car_dynamics::spec_dx(old(self).state), dt as int),
                -POS_LIM as int,
                POS_LIM as int,
            ),
            final(self).state.y == spec_clamp(
                old(self).state.y + fxmul(crate::car_dynamics::spec_dy(old(self).state), dt as int),
                -POS_LIM as int,
                POS_LIM as int,
            ),
            final(self).state.yaw == spec_normalize_angle(
                old(self).state.yaw + fxmul(
                    crate::car_dynamics::spec_dtheta(
                        old(self).state,
                        final(self).control.front_wheel_angle as int,
                    ),
                    dt as int,
                ),
            ),
            final(self).state.v == spec_clamp(
                old(self).state.v + fxmul(
                    crate::car_dynamics::spec_acceleration(
                        throttle as int,
                        old(self).state.v as int,
                    ) + crate::car_dynamics::spec_deceleration(
                        brake as int,
                        old(self).state.v as int,
                    ),
                    dt as int,
                ),
                -V_LIM as int,
                V_LIM as int,
            ),
            final(self).state.s == spec_clamp(
                old(self).state.s + fxmul(old(self).state.v as int, dt as int),
                -POS_LIM as int,
                POS_LIM as int,
            ),
            final(self).camera.target_pitch == if camera_toggle {
                match final(self).camera_mode {
                    CameraMode::ThirdPersonView => THIRD_PERSON_PITCH as int,
                    CameraMode::FirstPersonView => FIRST_PERSON_PITCH as int,
                    CameraMode::OverShoulderView => OVER_SHOULDER_PITCH as int,
                }
            } else {
                old(self).camera.target_pitch as int
            },
            final(self).camera.target_radius == if camera_toggle {
                match final(self).camera_mode {
                    CameraMode::ThirdPersonView => CAMERA_RADIUS as int,
                    CameraMode::FirstPersonView => FIRST_PERSON_RADIUS as int,
                    CameraMode::OverShoulderView => OVER_SHOULDER_RADIUS as int,
                }
            } else {
                old(self).camera.target_radius as int
            },
            final(self).camera_mode == CameraMode::ThirdPersonView ==> {
                &&& final(self).camera.target_focus_x == final(self).state.x
                &&& final(self).camera.target_focus_y == final(self).state.y
                &&& final(self).camera.yaw == old(self).camera.yaw
                &&& final(self).camera.target_yaw == if camera_toggle {
                    THIRD_PERSON_YAW as int
                } else {
                    old(self).camera.target_yaw as int
                }
            },
            final(self).camera_mode != CameraMode::ThirdPersonView ==> {
                &&& final(self).camera.target_yaw == spec_follow_target_yaw(final(self).state)
                &&& final(self).camera.yaw == spec_unwrapped_yaw(
                    spec_follow_target_yaw(final(self).state),
                    old(self).camera.yaw as int,
                )
                &&& -PI <= spec_follow_target_yaw(final(self).state) - final(self).camera.yaw
                    <= PI
            },
            final(self).camera.pitch == old(self).camera.pitch,
            out.wheel_roll == crate::car_dynamics::spec_wheel_roll(final(self).state.s as int),
            0 <= out.wheel_roll < TAU,
            out.front_steer == final(self).control.front_wheel_angle,
            out.sound == spec_sound_state(throttle as int, brake as int, final(self).state.v as int),
    {
        let steering = get_steering_angle(
            self.state.v,
            self.control.front_wheel_angle,
            steer_command,
            dt,
        );
        self.control.throttle = throttle;
        self.control.brake = brake;
        self.control.front_wheel_angle = steering.0;
        self.control.steer_wheel_angle = steering.1;

        bicycle_kinematic_model(&mut self.state, &self.control, dt);

        let wheel = wheel_movement(&self.control, &self.state, true);

        if camera_toggle {
            camera_mode_switch(&mut self.camera_mode, true);
            set_camera_for_mode(self.camera_mode, &mut self.camera);
        }
        proof {
            lemma_follow_target_in_range(self.state);
        }
        camera_follow(self.camera_mode, &self.state, &mut self.camera);

        let sound = change_sound_state(&self.control, self.state.v);
        TickOutput { wheel_roll: wheel.0, front_steer: wheel.1, sound }
    }
}

} // verus!
