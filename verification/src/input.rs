//! Driver-input response: the rate-limited steering integrator and the
//! application of keyboard and gamepad commands to the control state.
//!
//! Steering is never set directly: each tick moves the front-wheel angle at
//! a speed-dependent rate and clamps it to the steering range, so its
//! magnitude can never leave that range however long a command is held.

use crate::camera::{CameraAim, CameraMode, CAM_ANGLE_LIM};
use crate::car_dynamics::{EgoControl, DT_LIM, MAX_STEERING_ANGLE, STEER_RATIO, V_LIM};
use crate::fixed::{
    clamp, lemma_tdiv_denominator_ordered, lemma_tdiv_magnitude, lemma_tdiv_monotone,
    lemma_tdiv_product_bound, muldiv, spec_clamp, tdiv, SCALE,
};
use crate::logistic::{exp_approx, spec_exp_approx, EXP_ARG_LIM};
use crate::utils::{normalize_angle, spec_normalize_angle, PI};
use vstd::prelude::*;

verus! {

/// Steering-rate floor reached at high speed, in radians per second.
pub const OMEGA_MIN: i64 = 2_000_000;

/// Extra steering rate available near standstill, in radians per second.
pub const OMEGA0: i64 = 12_000_000;

/// Slope of the steering-rate falloff per metre per second of speed.
pub const LAMBDA: i64 = 300_000;

/// Reference speed of the steering-rate falloff, in metres per second.
pub const V0: i64 = 10_000_000;

/// Dead zone of the gamepad triggers and sticks.
pub const INPUT_EPS: i64 = 10_000;

/// Magnitude bound accepted for raw gamepad axis values; devices report
/// normalized values well within it.
pub const AXIS_LIM: i64 = 2_000_000;

/// Steering rate available at the given speed: a logistic falloff from
/// `OMEGA_MIN + OMEGA0` near standstill toward the floor `OMEGA_MIN` past
/// the reference speed. The exponential argument saturates at eight units,
/// where the falloff has already flattened onto its floor.
pub open spec fn spec_steering_rate(v: int) -> int {
    let z = spec_clamp(
        crate::fixed::fxmul(LAMBDA as int, v - V0),
        -EXP_ARG_LIM as int,
        EXP_ARG_LIM as int,
    );
    OMEGA_MIN + tdiv((OMEGA0 as int) * SCALE, SCALE + spec_exp_approx(z))
}

/// Front-wheel angle after one tick of a steering command of `[-1, 1]`,
/// moved at the speed's steering rate geared down by the steer ratio and
/// clamped to the steering range.
pub open spec fn spec_steering_angle(v: int, front_wheel_angle: int, ratio: int, dt: int) -> int {
    let incr = crate::fixed::fxmul(
        crate::fixed::fxmul(tdiv(spec_steering_rate(v), STEER_RATIO as int), ratio),
        dt,
    );
    spec_clamp(
        front_wheel_angle + incr,
        -MAX_STEERING_ANGLE as int,
        MAX_STEERING_ANGLE as int,
    )
}

/// Steering agility never grows with speed: the available rate at a higher
/// speed is no more than at a lower one.
pub proof fn lemma_steering_rate_nonincreasing(v1: int, v2: int)
    requires
        -V_LIM <= v1 <= v2 <= V_LIM,
    ensures
        spec_steering_rate(v2) <= spec_steering_rate(v1),
{
    crate::fixed::lemma_fxmul_monotone_right(LAMBDA as int, v1 - V0, v2 - V0);
    let z1 = spec_clamp(
        crate::fixed::fxmul(LAMBDA as int, v1 - V0),
        -EXP_ARG_LIM as int,
        EXP_ARG_LIM as int,
    );
    let z2 = spec_clamp(
        crate::fixed::fxmul(LAMBDA as int, v2 - V0),
        -EXP_ARG_LIM as int,
        EXP_ARG_LIM as int,
    );
    crate::logistic::lemma_exp_approx_monotone(z1, z2);
    lemma_tdiv_denominator_ordered(
        (OMEGA0 as int) * SCALE,
        SCALE + spec_exp_approx(z1),
        SCALE + spec_exp_approx(z2),
    );
}

/// Largest front-wheel rate at the given speed; between the floor and the
/// floor plus the near-standstill reserve.
pub fn get_steering_rate(v: i64) -> (w: i64)
    requires
        -V_LIM <= v <= V_LIM,
    ensures
        w == spec_steering_rate(v as int),
        OMEGA_MIN <= w <= OMEGA_MIN + OMEGA0,
{
    proof {
        lemma_tdiv_product_bound(
            LAMBDA as int,
            v - V0,
            LAMBDA as int,
            V_LIM + V0,
            SCALE as int,
        );
    }
    let z = muldiv(LAMBDA, v - V0, SCALE);
    let zc = clamp(z, -EXP_ARG_LIM, EXP_ARG_LIM);
    let e = exp_approx(zc);
    proof {
        lemma_tdiv_denominator_ordered((OMEGA0 as int) * SCALE, SCALE as int, SCALE + e as int);
        lemma_tdiv_magnitude((OMEGA0 as int) * SCALE, SCALE + e as int);
        assert(tdiv((OMEGA0 as int) * SCALE, SCALE as int) == OMEGA0);
    }
    OMEGA_MIN + muldiv(OMEGA0, SCALE, SCALE + e)
}

/// One steering tick: the new front-wheel angle, never outside the steering
/// range whatever the command or the tick length, and the steering-wheel
/// display angle geared up from it.
pub fn get_steering_angle(v: i64, front_wheel_angle: i64, ratio: i64, delta_time: i64) -> (r: (
    i64,
    i64,
))
    requires
        -V_LIM <= v <= V_LIM,
        -MAX_STEERING_ANGLE <= front_wheel_angle <= MAX_STEERING_ANGLE,
        -SCALE <= ratio <= SCALE,
        0 <= delta_time <= DT_LIM,
    ensures
        r.0 == spec_steering_angle(v as int, front_wheel_angle as int, ratio as int, delta_time as int),
        -MAX_STEERING_ANGLE <= r.0 <= MAX_STEERING_ANGLE,
        r.1 == STEER_RATIO * r.0,
{
    let w = get_steering_rate(v);
    let base = w / STEER_RATIO;
    proof {
        lemma_tdiv_monotone(w as int, OMEGA_MIN + OMEGA0 as int, STEER_RATIO as int);
        lemma_tdiv_magnitude(w as int, STEER_RATIO as int);
        lemma_tdiv_product_bound(base as int, ratio as int, 933_333, SCALE as int, SCALE as int);
    }
    let incr_r = muldiv(base, ratio, SCALE);
    proof {
        lemma_tdiv_product_bound(incr_r as int, delta_time as int, 933_333, DT_LIM as int, SCALE as int);
    }
    let incr = muldiv(incr_r, delta_time, SCALE);
    let nd = clamp(front_wheel_angle + incr, -MAX_STEERING_ANGLE, MAX_STEERING_ANGLE);
    (nd, nd * STEER_RATIO)
}

/// Applies one tick of keyboard driving input: full throttle or none, full
/// brake or none, and one steering tick per held direction, left before
/// right as the keys are polled.
pub fn keyboard_system(
    key_w: bool,
    key_s: bool,
    key_a: bool,
    key_d: bool,
    v: i64,
    dt: i64,
    control: &mut EgoControl,
)
    requires
        old(control).wf(),
        -V_LIM <= v <= V_LIM,
        0 <= dt <= DT_LIM,
    ensures
        final(control).wf(),
        final(control).throttle == if key_w {
            SCALE as int
        } else {
            0int
        },
        final(control).brake == if key_s {
            SCALE as int
        } else {
            0int
        },
        ({
            let after_a = if key_a {
                spec_steering_angle(
                    v as int,
                    old(control).front_wheel_angle as int,
                    SCALE as int,
                    dt as int,
                )
            } else {
                old(control).front_wheel_angle as int
            };
            let after_d = if key_d {
                spec_steering_angle(v as int, after_a, -SCALE as int, dt as int)
            } else {
                after_a
            };
            final(control).front_wheel_angle == after_d
        }),
        final(control).steer_wheel_angle == STEER_RATIO * final(control).front_wheel_angle,
{
    if key_w {
        control.throttle = SCALE;
    } else {
        control.throttle = 0;
    }
    if key_s {
        control.brake = SCALE;
    } else {
        control.brake = 0;
    }
    if key_a {
        let r = get_steering_angle(v, control.front_wheel_angle, SCALE, dt);
        control.front_wheel_angle = r.0;
        control.steer_wheel_angle = r.1;
    }
    if key_d {
        let r = get_steering_angle(v, control.front_wheel_angle, -SCALE, dt);
        control.front_wheel_angle = r.0;
        control.steer_wheel_angle = r.1;
    }
}

/// Applies one tick of keyboard camera nudges, active only in the
/// third-person view: yaw left or right, pitch up or down, each a
/// normalized step of the current smoothed angle.
pub fn keyboard_camera_system(
    key_j: bool,
    key_l: bool,
    key_i: bool,
    key_k: bool,
    camera_mode: CameraMode,
    dt: i64,
    camera: &mut CameraAim,
)
    requires
        -CAM_ANGLE_LIM <= old(camera).yaw <= CAM_ANGLE_LIM,
        -CAM_ANGLE_LIM <= old(camera).pitch <= CAM_ANGLE_LIM,
        0 <= dt <= DT_LIM,
    ensures
        final(camera).target_focus_x == old(camera).target_focus_x,
        final(camera).target_focus_y == old(camera).target_focus_y,
        final(camera).target_radius == old(camera).target_radius,
        final(camera).yaw == old(camera).yaw,
        final(camera).pitch == old(camera).pitch,
        camera_mode != CameraMode::ThirdPersonView ==> {
            &&& final(camera).target_yaw == old(camera).target_yaw
            &&& final(camera).target_pitch == old(camera).target_pitch
        },
        camera_mode == CameraMode::ThirdPersonView ==> {
            &&& final(camera).target_yaw == if key_j {
                spec_normalize_angle(old(camera).yaw + crate::fixed::fxmul(dt as int, PI as int))
            } else if key_l {
                spec_normalize_angle(old(camera).yaw - crate::fixed::fxmul(dt as int, PI as int))
            } else {
                old(camera).target_yaw as int
            }
            &&& final(camera).target_pitch == if key_i {
                spec_normalize_angle(old(camera).pitch + crate::fixed::fxmul(dt as int, PI as int))
            } else if key_k {
                spec_normalize_angle(old(camera).pitch - crate::fixed::fxmul(dt as int, PI as int))
            } else {
                old(camera).target_pitch as int
            }
        },
{
    if matches!(camera_mode, CameraMode::ThirdPersonView) {
        proof {
            lemma_tdiv_product_bound(dt as int, PI as int, DT_LIM as int, PI as int, SCALE as int);
        }
        let step = muldiv(dt, PI, SCALE);
        if key_j {
            camera.target_yaw = normalize_angle(camera.yaw + step);
        } else if key_l {
            camera.target_yaw = normalize_angle(camera.yaw - step);
        }
        if key_i {
            camera.target_pitch = normalize_angle(camera.pitch + step);
        } else if key_k {
            camera.target_pitch = normalize_angle(camera.pitch - step);
        }
    }
}

/// Applies one tick of gamepad input: trigger pedals past the dead zone,
/// one steering tick from the left stick, and camera target nudges from the
/// right stick scaled by the tick length.
pub fn gamepad_system(
    right_trigger: i64,
    left_trigger: i64,
    left_stick_x: i64,
    right_stick_x: i64,
    right_stick_y: i64,
    v: i64,
    dt: i64,
    control: &mut EgoControl,
    camera: &mut CameraAim,
)
    requires
        old(control).wf(),
        -AXIS_LIM <= right_trigger <= AXIS_LIM,
        -AXIS_LIM <= left_trigger <= AXIS_LIM,
        -AXIS_LIM <= left_stick_x <= AXIS_LIM,
        -AXIS_LIM <= right_stick_x <= AXIS_LIM,
        -AXIS_LIM <= right_stick_y <= AXIS_LIM,
        -V_LIM <= v <= V_LIM,
        0 <= dt <= DT_LIM,
        -CAM_ANGLE_LIM <= old(camera).yaw <= CAM_ANGLE_LIM,
        -CAM_ANGLE_LIM <= old(camera).pitch <= CAM_ANGLE_LIM,
    ensures
        final(control).wf(),
        final(control).throttle == if right_trigger > INPUT_EPS {
            spec_clamp(right_trigger as int, 0, SCALE as int)
        } else {
            old(control).throttle as int
        },
        final(control).brake == if left_trigger > INPUT_EPS {
            spec_clamp(left_trigger as int, 0, SCALE as int)
        } else {
            old(control).brake as int
        },
        final(control).front_wheel_angle == spec_steering_angle(
            v as int,
            old(control).front_wheel_angle as int,
            -spec_clamp(left_stick_x as int, -SCALE as int, SCALE as int),
            dt as int,
        ),
        final(control).steer_wheel_angle == STEER_RATIO * final(control).front_wheel_angle,
        final(camera).target_focus_x == old(camera).target_focus_x,
        final(camera).target_focus_y == old(camera).target_focus_y,
        final(camera).target_radius == old(camera).target_radius,
        final(camera).yaw == old(camera).yaw,
        final(camera).pitch == old(camera).pitch,
        ({
            let sx = spec_clamp(right_stick_x as int, -SCALE as int, SCALE as int);
            final(camera).target_yaw == if sx > INPUT_EPS || sx < -INPUT_EPS {
                old(camera).yaw + crate::fixed::fxmul(crate::fixed::fxmul(sx, dt as int), PI as int)
            } else {
                old(camera).target_yaw as int
            }
        }),
        ({
            let sy = spec_clamp(right_stick_y as int, -SCALE as int, SCALE as int);
            final(camera).target_pitch == if sy > INPUT_EPS || sy < -INPUT_EPS {
                old(camera).pitch + crate::fixed::fxmul(
                    crate::fixed::fxmul(sy, dt as int),
                    PI as int,
                )
            } else {
                old(camera).target_pitch as int
            }
        }),
{
    if right_trigger > INPUT_EPS {
        control.throttle = clamp(right_trigger, 0, SCALE);
    }
    if left_trigger > INPUT_EPS {
        control.brake = clamp(left_trigger, 0, SCALE);
    }
    let ratio = -clamp(left_stick_x, -SCALE, SCALE);
    let r = get_steering_angle(v, control.front_wheel_angle, ratio, dt);
    control.front_wheel_angle = r.0;
    control.steer_wheel_angle = r.1;

    let sx = clamp(right_stick_x, -SCALE, SCALE);
    if sx > INPUT_EPS || sx < -INPUT_EPS {
        proof {
            lemma_tdiv_product_bound(sx as int, dt as int, SCALE as int, DT_LIM as int, SCALE as int);
            lemma_tdiv_product_bound(
                crate::fixed::fxmul(sx as int, dt as int),
                PI as int,
                10_000_000,
                PI as int,
                SCALE as int,
            );
        }
        camera.target_yaw = camera.yaw + muldiv(muldiv(sx, dt, SCALE), PI, SCALE);
    }
    let sy = clamp(right_stick_y, -SCALE, SCALE);
    if sy > INPUT_EPS || sy < -INPUT_EPS {
        proof {
            lemma_tdiv_product_bound(sy as int, dt as int, SCALE as int, DT_LIM as int, SCALE as int);
            lemma_tdiv_product_bound(
                crate::fixed::fxmul(sy as int, dt as int),
                PI as int,
                10_000_000,
                PI as int,
                SCALE as int,
            );
        }
        camera.target_pitch = camera.pitch + muldiv(muldiv(sy, dt, SCALE), PI, SCALE);
    }
}

} // verus!
