//! Fixed-point circular functions for the kinematic model.
//!
//! Sine is the symmetric parabola `4 x (PI - x) / PI^2` on `[0, PI]`, odd on
//! the other half turn; cosine is that sine shifted by a quarter turn. The
//! parabola is exact at `0`, `PI/2` and `PI`, stays within `[-1, 1]`, and
//! keeps cosine well away from zero on the steering range, which bounds the
//! tangent. All of that is proved below; no claim of closeness to the real
//! circular functions is made or needed by the contracts.

use crate::car_dynamics::MAX_STEERING_ANGLE;
use crate::fixed::{muldiv, tdiv, SCALE};
use crate::fixed::{
    lemma_tdiv_bound, lemma_tdiv_denominator_ordered, lemma_tdiv_lower_bound,
    lemma_tdiv_magnitude, lemma_tdiv_monotone,
};
use crate::utils::{HALF_PI, PI, TAU};
use vstd::arithmetic::div_mod::lemma_div_multiples_vanish;
use vstd::prelude::*;

verus! {

/// Square of the half turn, the denominator of the sine parabola.
pub const PI_SQ: i64 = PI * PI;

/// Lower bound of the fixed-point cosine over the steering range.
pub const COS_STEER_MIN: i64 = 800_000;

/// Magnitude bound of the fixed-point tangent over the steering range:
/// `SCALE * SCALE / COS_STEER_MIN`.
pub const TAN_LIM: i64 = 1_250_000;

/// Sine parabola on the nonnegative half turn.
pub open spec fn spec_sin_half(x: int) -> int {
    tdiv(4 * x * (PI - x) * SCALE, PI_SQ as int)
}

/// Fixed-point sine on `[-PI, PI]`, odd around zero.
pub open spec fn spec_sin_fx(x: int) -> int {
    if x >= 0 {
        spec_sin_half(x)
    } else {
        -spec_sin_half(-x)
    }
}

/// Fixed-point cosine on `[-PI, PI]`: the sine a quarter turn ahead, folded
/// back into the sine's domain.
pub open spec fn spec_cos_fx(x: int) -> int {
    let y = HALF_PI - x;
    if y > PI {
        spec_sin_fx(y - TAU)
    } else {
        spec_sin_fx(y)
    }
}

/// Fixed-point tangent: the quotient of sine by cosine.
pub open spec fn spec_tan_fx(x: int) -> int {
    tdiv(spec_sin_fx(x) * SCALE, spec_cos_fx(x))
}

/// The parabola numerator never exceeds `PI_SQ` on `[0, PI]`, so the sine
/// half stays in `[0, SCALE]`.
proof fn lemma_sin_half_bounds(x: int)
    requires
        0 <= x <= PI,
    ensures
        0 <= spec_sin_half(x) <= SCALE,
        0 <= 4 * x * (PI - x) <= PI_SQ,
{
    assert(0 <= 4 * x * (PI - x) <= PI_SQ) by (nonlinear_arith)
        requires
            0 <= x <= PI,
            PI_SQ == PI * PI,
    ;
    let n = 4 * x * (PI - x);
    lemma_tdiv_monotone(n * SCALE, (PI_SQ as int) * SCALE, PI_SQ as int);
    lemma_div_multiples_vanish(SCALE as int, PI_SQ as int);
    assert(n * SCALE >= 0) by (nonlinear_arith)
        requires
            n >= 0,
    ;
    assert((PI_SQ as int) * SCALE == (PI_SQ as int) * (SCALE as int));
    lemma_tdiv_magnitude(n * SCALE, PI_SQ as int);
}

/// Sine parabola on the nonnegative half turn.
fn sin_half(x: i64) -> (r: i64)
    requires
        0 <= x <= PI,
    ensures
        r == spec_sin_half(x as int),
        0 <= r <= SCALE,
        x == 0 ==> r == 0,
{
    proof {
        lemma_sin_half_bounds(x as int);
    }
    let n = 4 * x * (PI - x);
    proof {
        if x == 0 {
            assert(4 * (x as int) * (PI - x as int) == 0) by (nonlinear_arith)
                requires
                    x == 0,
            ;
            assert((n as int) * (SCALE as int) == 0) by (nonlinear_arith)
                requires
                    n == 0,
            ;
            lemma_tdiv_magnitude(0, PI_SQ as int);
        }
    }
    muldiv(n, SCALE, PI_SQ)
}

/// Fixed-point sine of an angle of `[-PI, PI]`. Exact at zero and at the
/// half turns; always within `[-SCALE, SCALE]`.
pub fn sin_fx(x: i64) -> (r: i64)
    requires
        -PI <= x <= PI,
    ensures
        r == spec_sin_fx(x as int),
        -SCALE <= r <= SCALE,
        x == 0 ==> r == 0,
{
    if x >= 0 {
        sin_half(x)
    } else {
        proof {
            lemma_sin_half_bounds(-x as int);
        }
        -sin_half(-x)
    }
}

/// Fixed-point cosine of an angle of `[-PI, PI]`. Exact at zero; always
/// within `[-SCALE, SCALE]`.
pub fn cos_fx(x: i64) -> (r: i64)
    requires
        -PI <= x <= PI,
    ensures
        r == spec_cos_fx(x as int),
        -SCALE <= r <= SCALE,
        x == 0 ==> r == SCALE,
{
    let y = HALF_PI - x;
    let r = if y > PI {
        sin_fx(y - TAU)
    } else {
        sin_fx(y)
    };
    proof {
        if x == 0 {
            assert(4 * (HALF_PI as int) * (PI - HALF_PI) == PI_SQ);
            lemma_div_multiples_vanish(SCALE as int, PI_SQ as int);
            assert((PI_SQ as int) * SCALE == (PI_SQ as int) * (SCALE as int));
        }
    }
    r
}

/// Over the steering range the cosine keeps clear of zero.
pub proof fn lemma_cos_steer_lower(x: int)
    requires
        -MAX_STEERING_ANGLE <= x <= MAX_STEERING_ANGLE,
    ensures
        spec_cos_fx(x) >= COS_STEER_MIN,
{
    let y = HALF_PI - x;
    assert(959_931 <= y <= 2_181_661);
    let n = 4 * y * (PI - y);
    assert(n * SCALE >= (COS_STEER_MIN as int) * PI_SQ) by (nonlinear_arith)
        requires
            959_931 <= y <= 2_181_661,
            n == 4 * y * (PI - y),
            PI == 3_141_592,
            PI_SQ == PI * PI,
            COS_STEER_MIN == 800_000,
            SCALE == 1_000_000,
    ;
    lemma_tdiv_lower_bound(n * SCALE, PI_SQ as int, COS_STEER_MIN as int);
}

/// Fixed-point tangent over the steering range, where the cosine's lower
/// bound keeps it within `[-TAN_LIM, TAN_LIM]`. Zero exactly at zero.
pub fn tan_fx(x: i64) -> (r: i64)
    requires
        -MAX_STEERING_ANGLE <= x <= MAX_STEERING_ANGLE,
    ensures
        r == spec_tan_fx(x as int),
        -TAN_LIM <= r <= TAN_LIM,
        x == 0 ==> r == 0,
{
    proof {
        lemma_cos_steer_lower(x as int);
    }
    let s = sin_fx(x);
    let c = cos_fx(x);
    proof {
        let si = s as int;
        let ci = c as int;
        assert(-(SCALE as int) * SCALE <= si * SCALE <= (SCALE as int) * SCALE)
            by (nonlinear_arith)
            requires
                -SCALE <= si <= SCALE,
        ;
        lemma_tdiv_bound(si * SCALE, (SCALE as int) * SCALE, ci);
        lemma_tdiv_denominator_ordered((SCALE as int) * SCALE, COS_STEER_MIN as int, ci);
        if x == 0 {
            lemma_tdiv_magnitude(0, ci);
        }
    }
    muldiv(s, SCALE, c)
}

} // verus!
