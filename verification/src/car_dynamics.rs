//! Vehicle state, control response curves and the bicycle-model integrator.
//!
//! The planar pose `(x, y, yaw)`, the forward speed `v` and the odometer `s`
//! advance once per tick by a single explicit Euler step. Position, speed
//! and odometer saturate at bounds far beyond any drive (a million
//! kilometres, a thousand metres per second), which keeps every update a
//! total function on 64-bit words; the heading is renormalized into
//! `(-PI, PI]` on every step.

use crate::fixed::{
    fxdiv, fxmul, lemma_tdiv_denominator_ordered, lemma_tdiv_magnitude, lemma_tdiv_monotone,
    lemma_tdiv_product_bound, lemma_fxmul_monotone_right, clamp, muldiv, spec_clamp, tdiv, SCALE,
};
use crate::logistic::{
    exp_approx, lemma_exp_approx_bounds, lemma_exp_approx_monotone, spec_exp_approx, EXP_ARG_LIM,
};
use crate::trig::{cos_fx, sin_fx, spec_cos_fx, spec_sin_fx, spec_tan_fx, tan_fx, TAN_LIM};
use crate::utils::{normalize_angle, spec_normalize_angle, PI, TAU};
use vstd::arithmetic::mul::lemma_mul_inequality;
use vstd::prelude::*;

verus! {

/// Distance between the axles of the bicycle model, in metres.
pub const WHEELBASE: i64 = 3_000_000;

/// Peak longitudinal acceleration, in metres per second squared.
pub const MAX_ACCELERATION: i64 = 5_000_000;

/// Largest front-wheel deflection, thirty-five degrees in radians.
pub const MAX_STEERING_ANGLE: i64 = 610_865;

/// Speed at which throttle acceleration fades to zero, in metres per second.
pub const MAX_SPEED: i64 = 33_300_000;

/// Turns of the steering wheel per turn of the front wheels.
pub const STEER_RATIO: i64 = 15;

/// Rolling radius of a wheel, in metres.
pub const WHEEL_RADIUS: i64 = 350_000;

/// Brake fraction at which the brake response curve is steepest.
pub const BRAKE_CURVE_MIDPOINT: i64 = 400_000;

/// Gain of the brake response curve.
pub const BRAKE_RESPONSE_GAIN: i64 = 7;

/// Speed below which braking fades out linearly, in metres per second.
pub const V_THRESHOLD: i64 = 200_000;

/// Magnitude bound of the speed, in metres per second.
pub const V_LIM: i64 = 1_000_000_000;

/// Magnitude bound of positions and of the odometer, in metres.
pub const POS_LIM: i64 = 1_000_000_000_000_000_000;

/// Longest accepted tick, in seconds.
pub const DT_LIM: i64 = 10_000_000;

/// Magnitude bound of the heading rate, in radians per second.
pub const DTHETA_LIM: i64 = 420_000_000;

/// Magnitude bound of the acceleration term, in metres per second squared.
pub const ACC_LIM: i64 = 160_000_000;

/// Magnitude bound of the deceleration term, in metres per second squared.
pub const DEC_LIM: i64 = 25_000_000_000;

/// Magnitude bound of the speed rate, in metres per second squared.
pub const DV_LIM: i64 = 26_000_000_000;

/// Marker for the ego vehicle among the scene's bodies.
pub struct Car;

/// Marker for a wheel that rolls with the odometer.
pub struct RollingWheel;

/// Marker for a front wheel that also turns with the steering.
pub struct SteeringWheel;

/// Driver command state: pedal fractions and the steered wheel angle,
/// together with the cosmetic steering-wheel angle derived from it.
pub struct EgoControl {
    /// Throttle pedal fraction of `[0, 1]`.
    pub throttle: i64,
    /// Brake pedal fraction of `[0, 1]`.
    pub brake: i64,
    /// Actual front-wheel angle, clamped to the steering range.
    pub front_wheel_angle: i64,
    /// Steering-wheel display angle: the front-wheel angle geared up.
    pub steer_wheel_angle: i64,
}

impl EgoControl {
    /// Ranges of the pedals and the steering, and the gearing between the
    /// two steering angles.
    pub open spec fn wf(self) -> bool {
        &&& 0 <= self.throttle <= SCALE
        &&& 0 <= self.brake <= SCALE
        &&& -MAX_STEERING_ANGLE <= self.front_wheel_angle <= MAX_STEERING_ANGLE
        &&& self.steer_wheel_angle == STEER_RATIO * self.front_wheel_angle
    }
}

impl Default for EgoControl {
    /// All commands released, wheels straight.
    fn default() -> (r: Self)
        ensures
            r.throttle == 0,
            r.brake == 0,
            r.front_wheel_angle == 0,
            r.steer_wheel_angle == 0,
            r.wf(),
    {
        EgoControl { throttle: 0, brake: 0, front_wheel_angle: 0, steer_wheel_angle: 0 }
    }
}

/// Pose, speed and odometer of the vehicle.
#[derive(Clone, Copy)]
pub struct EgoState {
    /// East position in the world frame, in metres.
    pub x: i64,
    /// North position in the world frame, in metres.
    pub y: i64,
    /// Heading, always in `(-PI, PI]`.
    pub yaw: i64,
    /// Forward speed, in metres per second.
    pub v: i64,
    /// Cumulative signed distance travelled, in metres.
    pub s: i64,
}

impl EgoState {
    /// Bounds of every field and the heading invariant.
    pub open spec fn wf(self) -> bool {
        &&& -POS_LIM <= self.x <= POS_LIM
        &&& -POS_LIM <= self.y <= POS_LIM
        &&& -PI < self.yaw <= PI
        &&& -V_LIM <= self.v <= V_LIM
        &&& -POS_LIM <= self.s <= POS_LIM
    }

    /// One Euler step: each rate is scaled by the tick length and added to
    /// its field. The heading is renormalized into `(-PI, PI]`; the other
    /// fields saturate at the model bounds, which no plausible drive
    /// reaches. A zero tick leaves the state unchanged.
    pub fn apply_derivative(&mut self, dq: EgoStateDerivative, dt: i64)
        requires
            old(self).wf(),
            dq.wf(),
            0 <= dt <= DT_LIM,
        ensures
            final(self).wf(),
            final(self).x == spec_clamp(
                old(self).x + fxmul(dq.dx as int, dt as int),
                -POS_LIM as int,
                POS_LIM as int,
            ),
            final(self).y == spec_clamp(
                old(self).y + fxmul(dq.dy as int, dt as int),
                -POS_LIM as int,
                POS_LIM as int,
            ),
            final(self).yaw == spec_normalize_angle(
                old(self).yaw + fxmul(dq.dtheta as int, dt as int),
            ),
            final(self).v == spec_clamp(
                old(self).v + fxmul(dq.dv as int, dt as int),
                -V_LIM as int,
                V_LIM as int,
            ),
            final(self).s == spec_clamp(
                old(self).s + fxmul(dq.ds as int, dt as int),
                -POS_LIM as int,
                POS_LIM as int,
            ),
    {
        proof {
            lemma_tdiv_product_bound(dq.dx as int, dt as int, V_LIM as int, DT_LIM as int, SCALE as int);
            lemma_tdiv_product_bound(dq.dy as int, dt as int, V_LIM as int, DT_LIM as int, SCALE as int);
            lemma_tdiv_product_bound(
                dq.dtheta as int,
                dt as int,
                DTHETA_LIM as int,
                DT_LIM as int,
                SCALE as int,
            );
            lemma_tdiv_product_bound(dq.dv as int, dt as int, DV_LIM as int, DT_LIM as int, SCALE as int);
            lemma_tdiv_product_bound(dq.ds as int, dt as int, V_LIM as int, DT_LIM as int, SCALE as int);
        }
        let dx = muldiv(dq.dx, dt, SCALE);
        let dy = muldiv(dq.dy, dt, SCALE);
        let dtheta = muldiv(dq.dtheta, dt, SCALE);
        let dv = muldiv(dq.dv, dt, SCALE);
        let ds = muldiv(dq.ds, dt, SCALE);
        self.x = clamp(self.x + dx, -POS_LIM, POS_LIM);
        self.y = clamp(self.y + dy, -POS_LIM, POS_LIM);
        self.yaw = normalize_angle(self.yaw + dtheta);
        self.v = clamp(self.v + dv, -V_LIM, V_LIM);
        self.s = clamp(self.s + ds, -POS_LIM, POS_LIM);
    }
}

impl Default for EgoState {
    /// At the origin, facing east, at rest.
    fn default() -> (r: Self)
        ensures
            r.x == 0,
            r.y == 0,
            r.yaw == 0,
            r.v == 0,
            r.s == 0,
            r.wf(),
    {
        EgoState { x: 0, y: 0, yaw: 0, v: 0, s: 0 }
    }
}

/// Instantaneous rates of the vehicle state.
#[derive(Clone, Copy)]
pub struct EgoStateDerivative {
    /// Rate of the east position.
    pub dx: i64,
    /// Rate of the north position.
    pub dy: i64,
    /// Rate of the heading.
    pub dtheta: i64,
    /// Rate of the speed.
    pub dv: i64,
    /// Rate of the odometer.
    pub ds: i64,
}

impl EgoStateDerivative {
    /// Bounds of every rate, as the bicycle model produces them.
    pub open spec fn wf(self) -> bool {
        &&& -V_LIM <= self.dx <= V_LIM
        &&& -V_LIM <= self.dy <= V_LIM
        &&& -DTHETA_LIM <= self.dtheta <= DTHETA_LIM
        &&& -DV_LIM <= self.dv <= DV_LIM
        &&& -V_LIM <= self.ds <= V_LIM
    }
}

impl Default for EgoStateDerivative {
    /// All rates zero.
    fn default() -> (r: Self)
        ensures
            r.dx == 0,
            r.dy == 0,
            r.dtheta == 0,
            r.dv == 0,
            r.ds == 0,
            r.wf(),
    {
        EgoStateDerivative { dx: 0, dy: 0, dtheta: 0, dv: 0, ds: 0 }
    }
}

/// Throttle response: peak acceleration scaled by the throttle fraction and
/// by how far the speed is from `MAX_SPEED` — negative above it, like drag.
pub open spec fn spec_acceleration(throttle: int, v: int) -> int {
    fxmul(fxmul(MAX_ACCELERATION as int, throttle), SCALE - fxdiv(v, MAX_SPEED as int))
}

/// Argument of the brake curve's exponential.
pub open spec fn spec_brake_exp_arg(brake: int) -> int {
    BRAKE_RESPONSE_GAIN * (BRAKE_CURVE_MIDPOINT - brake)
}

/// Brake response before the low-speed fade: zero at no brake, otherwise an
/// S-curve from near zero to `-MAX_ACCELERATION`.
pub open spec fn spec_brake_target(brake: int) -> int {
    if brake == 0 {
        0
    } else {
        -tdiv(
            (MAX_ACCELERATION as int) * SCALE,
            SCALE + spec_exp_approx(spec_brake_exp_arg(brake)),
        )
    }
}

/// Brake response: the S-curve target, faded linearly with speed below
/// `V_THRESHOLD` so the vehicle settles instead of oscillating at rest.
pub open spec fn spec_deceleration(brake: int, v: int) -> int {
    if v > V_THRESHOLD {
        spec_brake_target(brake)
    } else {
        fxmul(spec_brake_target(brake), fxdiv(v, V_THRESHOLD as int))
    }
}

/// Longitudinal acceleration commanded by the throttle at the given speed.
/// Zero at zero throttle; never increasing in speed.
pub fn calculate_acceleration(throttle: i64, v: i64) -> (a: i64)
    requires
        0 <= throttle <= SCALE,
        -V_LIM <= v <= V_LIM,
    ensures
        a == spec_acceleration(throttle as int, v as int),
        throttle == 0 ==> a == 0,
        -ACC_LIM <= a <= ACC_LIM,
{
    proof {
        lemma_tdiv_product_bound(
            MAX_ACCELERATION as int,
            throttle as int,
            MAX_ACCELERATION as int,
            SCALE as int,
            SCALE as int,
        );
        lemma_tdiv_product_bound(v as int, SCALE as int, V_LIM as int, SCALE as int, MAX_SPEED as int);
    }
    let at = muldiv(MAX_ACCELERATION, throttle, SCALE);
    let vr = muldiv(v, SCALE, MAX_SPEED);
    let term = SCALE - vr;
    proof {
        lemma_tdiv_product_bound(at as int, term as int, 5_000_000, 32_000_000, SCALE as int);
        if throttle == 0 {
            assert((MAX_ACCELERATION as int) * (throttle as int) == 0) by (nonlinear_arith)
                requires
                    throttle == 0,
            ;
            assert(tdiv(0, SCALE as int) == 0);
            assert((at as int) * (term as int) == 0) by (nonlinear_arith)
                requires
                    at == 0,
            ;
        }
    }
    muldiv(at, term, SCALE)
}

/// The throttle response never grows with speed: for a fixed throttle, a
/// faster vehicle gains no more acceleration than a slower one.
pub proof fn lemma_acceleration_nonincreasing(throttle: int, v1: int, v2: int)
    requires
        0 <= throttle <= SCALE,
        -V_LIM <= v1 <= v2 <= V_LIM,
    ensures
        spec_acceleration(throttle, v2) <= spec_acceleration(throttle, v1),
{
    let at = fxmul(MAX_ACCELERATION as int, throttle);
    lemma_mul_inequality(v1, v2, SCALE as int);
    lemma_tdiv_monotone(v1 * SCALE, v2 * SCALE, MAX_SPEED as int);
    lemma_tdiv_magnitude((MAX_ACCELERATION as int) * throttle, SCALE as int);
    assert((MAX_ACCELERATION as int) * throttle >= 0) by (nonlinear_arith)
        requires
            throttle >= 0,
    ;
    lemma_fxmul_monotone_right(
        at,
        SCALE - fxdiv(v2, MAX_SPEED as int),
        SCALE - fxdiv(v1, MAX_SPEED as int),
    );
}

/// Longitudinal deceleration commanded by the brake at the given speed.
/// Zero at zero brake; at most zero above the low-speed threshold.
pub fn calculate_deceleration(brake: i64, v: i64) -> (a: i64)
    requires
        0 <= brake <= SCALE,
        -V_LIM <= v <= V_LIM,
    ensures
        a == spec_deceleration(brake as int, v as int),
        brake == 0 ==> a == 0,
        v > V_THRESHOLD ==> a <= 0,
        -DEC_LIM <= a <= DEC_LIM,
{
    let a_target: i64 = if brake == 0 {
        0
    } else {
        let arg = BRAKE_RESPONSE_GAIN * (BRAKE_CURVE_MIDPOINT - brake);
        let e = exp_approx(arg);
        proof {
            lemma_tdiv_denominator_ordered(
                (MAX_ACCELERATION as int) * SCALE,
                SCALE as int,
                SCALE + e as int,
            );
            lemma_tdiv_magnitude((MAX_ACCELERATION as int) * SCALE, SCALE + e as int);
        }
        -muldiv(MAX_ACCELERATION, SCALE, SCALE + e)
    };
    if v > V_THRESHOLD {
        a_target
    } else {
        proof {
            lemma_tdiv_product_bound(v as int, SCALE as int, V_LIM as int, SCALE as int, V_THRESHOLD as int);
        }
        let ratio = muldiv(v, SCALE, V_THRESHOLD);
        proof {
            lemma_tdiv_product_bound(
                a_target as int,
                ratio as int,
                MAX_ACCELERATION as int,
                5_000_000_000,
                SCALE as int,
            );
            if a_target == 0 {
                assert((a_target as int) * (ratio as int) == 0) by (nonlinear_arith)
                    requires
                        a_target == 0,
                ;
                assert(tdiv(0, SCALE as int) == 0);
            }
        }
        muldiv(a_target, ratio, SCALE)
    }
}

/// Above the low-speed threshold, more brake never brakes less: the
/// response is zero at no brake and grows more negative (never less) as the
/// pedal fraction rises.
pub proof fn lemma_deceleration_monotone(b1: int, b2: int, v: int)
    requires
        0 <= b1 <= b2 <= SCALE,
        V_THRESHOLD < v <= V_LIM,
    ensures
        spec_deceleration(b2, v) <= spec_deceleration(b1, v) <= 0,
{
    let num = (MAX_ACCELERATION as int) * SCALE;
    if b1 == 0 {
        if b2 != 0 {
            lemma_exp_approx_bounds(spec_brake_exp_arg(b2));
            lemma_tdiv_magnitude(num, SCALE + spec_exp_approx(spec_brake_exp_arg(b2)));
        }
    } else {
        lemma_exp_approx_monotone(spec_brake_exp_arg(b2), spec_brake_exp_arg(b1));
        lemma_tdiv_denominator_ordered(
            num,
            SCALE + spec_exp_approx(spec_brake_exp_arg(b2)),
            SCALE + spec_exp_approx(spec_brake_exp_arg(b1)),
        );
        lemma_tdiv_magnitude(num, SCALE + spec_exp_approx(spec_brake_exp_arg(b1)));
    }
}

/// Rate of the east position: the speed along the heading.
pub open spec fn spec_dx(q: EgoState) -> int {
    fxmul(q.v as int, spec_cos_fx(q.yaw as int))
}

/// Rate of the north position: the speed across the heading.
pub open spec fn spec_dy(q: EgoState) -> int {
    fxmul(q.v as int, spec_sin_fx(q.yaw as int))
}

/// Rate of the heading: speed times the tangent of the front-wheel angle
/// over the wheelbase.
pub open spec fn spec_dtheta(q: EgoState, delta: int) -> int {
    tdiv((q.v as int) * spec_tan_fx(delta), WHEELBASE as int)
}

/// One tick of the bicycle model: derive the rates from the current state
/// and control, then advance the state by one Euler step of length `dt`.
/// The derivative that was applied is returned for the caller's visual
/// update of the body.
pub fn bicycle_kinematic_model(q: &mut EgoState, control: &EgoControl, dt: i64) -> (dq:
    EgoStateDerivative)
    requires
        old(q).wf(),
        control.wf(),
        0 <= dt <= DT_LIM,
    ensures
        final(q).wf(),
        dq.wf(),
        dq.dx == spec_dx(*old(q)),
        dq.dy == spec_dy(*old(q)),
        dq.dtheta == spec_dtheta(*old(q), control.front_wheel_angle as int),
        dq.dv == spec_acceleration(control.throttle as int, old(q).v as int)
            + spec_deceleration(control.brake as int, old(q).v as int),
        dq.ds == old(q).v,
        final(q).x == spec_clamp(
            old(q).x + fxmul(dq.dx as int, dt as int),
            -POS_LIM as int,
            POS_LIM as int,
        ),
        final(q).y == spec_clamp(
            old(q).y + fxmul(dq.dy as int, dt as int),
            -POS_LIM as int,
            POS_LIM as int,
        ),
        final(q).yaw == spec_normalize_angle(old(q).yaw + fxmul(dq.dtheta as int, dt as int)),
        final(q).v == spec_clamp(
            old(q).v + fxmul(dq.dv as int, dt as int),
            -V_LIM as int,
            V_LIM as int,
        ),
        final(q).s == spec_clamp(
            old(q).s + fxmul(dq.ds as int, dt as int),
            -POS_LIM as int,
            POS_LIM as int,
        ),
{
    let delta = control.front_wheel_angle;
    let c = cos_fx(q.yaw);
    let sn = sin_fx(q.yaw);
    let t = tan_fx(delta);
    proof {
        lemma_tdiv_product_bound(q.v as int, c as int, V_LIM as int, SCALE as int, SCALE as int);
        lemma_tdiv_product_bound(q.v as int, sn as int, V_LIM as int, SCALE as int, SCALE as int);
        lemma_tdiv_product_bound(q.v as int, t as int, V_LIM as int, TAN_LIM as int, WHEELBASE as int);
    }
    let dx = muldiv(q.v, c, SCALE);
    let dy = muldiv(q.v, sn, SCALE);
    let dtheta = muldiv(q.v, t, WHEELBASE);
    let dv = calculate_acceleration(control.throttle, q.v) + calculate_deceleration(
        control.brake,
        q.v,
    );
    let dq = EgoStateDerivative { dx, dy, dtheta, dv, ds: q.v };
    q.apply_derivative(dq, dt);
    dq
}

/// A stalled tick is a no-op: with `dt == 0` every scaled rate vanishes, so
/// the Euler step leaves a well-formed state exactly as it was.
pub proof fn lemma_zero_tick(q: EgoState, dq: EgoStateDerivative)
    requires
        q.wf(),
    ensures
        spec_clamp(q.x + fxmul(dq.dx as int, 0), -POS_LIM as int, POS_LIM as int) == q.x,
        spec_clamp(q.y + fxmul(dq.dy as int, 0), -POS_LIM as int, POS_LIM as int) == q.y,
        spec_normalize_angle(q.yaw + fxmul(dq.dtheta as int, 0)) == q.yaw,
        spec_clamp(q.v + fxmul(dq.dv as int, 0), -V_LIM as int, V_LIM as int) == q.v,
        spec_clamp(q.s + fxmul(dq.ds as int, 0), -POS_LIM as int, POS_LIM as int) == q.s,
{
    assert((dq.dx as int) * 0 == 0) by (nonlinear_arith);
    assert((dq.dy as int) * 0 == 0) by (nonlinear_arith);
    assert((dq.dtheta as int) * 0 == 0) by (nonlinear_arith);
    assert((dq.dv as int) * 0 == 0) by (nonlinear_arith);
    assert((dq.ds as int) * 0 == 0) by (nonlinear_arith);
    assert(tdiv(0, SCALE as int) == 0);
    crate::utils::lemma_normalize_fixed_in_range(q.yaw as int);
}

/// Roll angle of a wheel: the odometer unrolled over the wheel radius,
/// reduced into `[0, TAU)`.
pub open spec fn spec_wheel_roll(s: int) -> int {
    tdiv(s * SCALE, WHEEL_RADIUS as int) % (TAU as int)
}

/// Visual wheel angles for one wheel: the roll angle shared by all wheels,
/// and the steer angle, which only a steering wheel takes from the control.
pub fn wheel_movement(control: &EgoControl, q: &EgoState, is_steering: bool) -> (r: (i64, i64))
    requires
        control.wf(),
        q.wf(),
    ensures
        r.0 == spec_wheel_roll(q.s as int),
        0 <= r.0 < TAU,
        r.1 == if is_steering {
            control.front_wheel_angle as int
        } else {
            0
        },
{
    proof {
        lemma_tdiv_product_bound(q.s as int, SCALE as int, POS_LIM as int, SCALE as int, WHEEL_RADIUS as int);
    }
    let turns = muldiv(q.s, SCALE, WHEEL_RADIUS);
    let m = turns % TAU;
    proof {
        crate::utils::lemma_euclid_of_truncating(turns as int, TAU as int);
        vstd::arithmetic::div_mod::lemma_mod_division_less_than_divisor(turns as int, TAU as int);
    }
    let roll = if m < 0 {
        m + TAU
    } else {
        m
    };
    let steer = if is_steering {
        control.front_wheel_angle
    } else {
        0
    };
    (roll, steer)
}

} // verus!
