//! Angle primitives: reduction into `(-PI, PI]` and interval wrapping.
//!
//! Angles are fixed-point radians (`crate::fixed::SCALE` ticks per radian),
//! so `PI` here is the integer image of the half turn and `TAU == 2 * PI`
//! exactly; every congruence below is modulo these integers.

use crate::fixed::tmod;
use vstd::arithmetic::div_mod::{
    lemma_fundamental_div_mod, lemma_fundamental_div_mod_converse_mod,
    lemma_mod_division_less_than_divisor,
};
use vstd::prelude::*;

verus! {

/// Half turn in fixed-point radians.
pub const PI: i64 = 3_141_592;

/// Full turn in fixed-point radians; exactly `2 * PI`.
pub const TAU: i64 = 6_283_184;

/// Quarter turn in fixed-point radians; exactly `PI / 2`.
pub const HALF_PI: i64 = 1_570_796;

/// Magnitude bound accepted by `wrap`, far beyond any angle the simulation
/// produces but small enough that the differences it takes fit in 64 bits.
pub const WRAP_LIM: i64 = 2_000_000_000_000_000_000;

/// Reduction of an angle modulo a full turn into `(-PI, PI]`.
pub open spec fn spec_normalize_angle(angle: int) -> int {
    let m = tmod(angle, TAU as int);
    if m > PI {
        m - TAU
    } else if m <= -PI {
        m + TAU
    } else {
        m
    }
}

/// Mapping of `x` into the interval spanned by `low` and `high`: a value
/// already in `[low, high]` is kept, any other is brought into `[low, high)`
/// by whole multiples of the range.
pub open spec fn spec_wrap(x: int, low: int, high: int) -> int {
    if low <= x <= high {
        x
    } else {
        low + (x - low) % (high - low)
    }
}

/// The normalized angle lies in `(-PI, PI]` and differs from the input by a
/// whole number of turns.
pub proof fn lemma_normalize_in_range(angle: int)
    ensures
        -PI < spec_normalize_angle(angle) <= PI,
        (angle - spec_normalize_angle(angle)) % (TAU as int) == 0,
{
    let t = TAU as int;
    let m = tmod(angle, t);
    let q = if angle >= 0 {
        angle / t
    } else {
        -((-angle) / t)
    };
    if angle >= 0 {
        lemma_mod_division_less_than_divisor(angle, t);
        lemma_fundamental_div_mod(angle, t);
        assert(angle - m == t * q);
    } else {
        lemma_mod_division_less_than_divisor(-angle, t);
        lemma_fundamental_div_mod(-angle, t);
        assert(-angle == t * ((-angle) / t) + (-angle) % t);
        assert(angle - m == t * q) by (nonlinear_arith)
            requires
                -angle == t * (-q) + (-m),
        ;
    }
    let r = spec_normalize_angle(angle);
    if m > PI {
        assert(angle - r == t * (q + 1)) by (nonlinear_arith)
            requires
                angle - m == t * q,
                r == m - t,
        ;
        lemma_mod_of_multiple_is_zero(q + 1, t);
    } else if m <= -PI {
        assert(angle - r == t * (q - 1)) by (nonlinear_arith)
            requires
                angle - m == t * q,
                r == m + t,
        ;
        lemma_mod_of_multiple_is_zero(q - 1, t);
    } else {
        lemma_mod_of_multiple_is_zero(q, t);
    }
}

/// A multiple of positive `t` has remainder zero, and conversely a value
/// known to be `t * q` is recognized as a multiple.
proof fn lemma_mod_of_multiple_is_zero(q: int, t: int)
    requires
        t > 0,
    ensures
        (t * q) % t == 0,
{
    assert(t * q == q * t + 0) by (nonlinear_arith);
    lemma_fundamental_div_mod_converse_mod(t * q, t, q, 0);
}

/// If `x % t == 0` then `x` is exactly `t * (x / t)`.
proof fn lemma_mod_of_multiple(x: int, t: int)
    requires
        t > 0,
        x % t == 0,
    ensures
        x == t * (x / t),
{
    lemma_fundamental_div_mod(x, t);
}

/// Two angles of `(-PI, PI]` congruent modulo a full turn are the same angle.
pub proof fn lemma_congruent_in_range_unique(x: int, y: int)
    requires
        -PI < x <= PI,
        -PI < y <= PI,
        (x - y) % (TAU as int) == 0,
    ensures
        x == y,
{
    let t = TAU as int;
    let d = x - y;
    lemma_mod_of_multiple(d, t);
    let q = d / t;
    assert(d == t * q);
    assert(q == 0) by (nonlinear_arith)
        requires
            d == t * q,
            -t < d < t,
            t > 0,
    ;
}

/// Shifting the input by whole turns does not change the normalized angle.
pub proof fn lemma_normalize_shift(angle: int, k: int)
    ensures
        spec_normalize_angle(angle + k * (TAU as int)) == spec_normalize_angle(angle),
{
    let t = TAU as int;
    let n1 = spec_normalize_angle(angle + k * t);
    let n2 = spec_normalize_angle(angle);
    lemma_normalize_in_range(angle + k * t);
    lemma_normalize_in_range(angle);
    let q1 = (angle + k * t - n1) / t;
    let q2 = (angle - n2) / t;
    lemma_mod_of_multiple(angle + k * t - n1, t);
    lemma_mod_of_multiple(angle - n2, t);
    assert(n1 - n2 == t * (k - q1 + q2)) by (nonlinear_arith)
        requires
            angle + k * t - n1 == t * q1,
            angle - n2 == t * q2,
    ;
    lemma_mod_of_multiple_is_zero(k - q1 + q2, t);
    lemma_congruent_in_range_unique(n1, n2);
}

/// An angle already in `(-PI, PI]` is its own normalization.
pub proof fn lemma_normalize_fixed_in_range(x: int)
    requires
        -PI < x <= PI,
    ensures
        spec_normalize_angle(x) == x,
{
    let t = TAU as int;
    if x >= 0 {
        lemma_fundamental_div_mod_converse_mod(x, t, 0, x);
        assert(tmod(x, t) == x);
    } else {
        lemma_fundamental_div_mod_converse_mod(-x, t, 0, -x);
        assert(tmod(x, t) == x);
    }
}

/// Normalization is idempotent.
pub proof fn lemma_normalize_idempotent(angle: int)
    ensures
        spec_normalize_angle(spec_normalize_angle(angle)) == spec_normalize_angle(angle),
{
    lemma_normalize_in_range(angle);
    lemma_normalize_fixed_in_range(spec_normalize_angle(angle));
}

/// Reduces an angle modulo a full turn into `(-PI, PI]`: the result is the
/// unique representative of the input's class there.
pub fn normalize_angle(angle: i64) -> (r: i64)
    ensures
        r == spec_normalize_angle(angle as int),
        -PI < r <= PI,
        (angle - r) % (TAU as int) == 0,
{
    proof {
        lemma_normalize_in_range(angle as int);
    }
    let m = angle % TAU;
    if m > PI {
        m - TAU
    } else if m <= -PI {
        m + TAU
    } else {
        m
    }
}

/// Maps `x` into the interval from `low` to `high` by whole multiples of the
/// range. A value already in the closed interval is returned unchanged; any
/// other lands in the half-open `[low, high)`. The asymmetry between the
/// inclusive acceptance test and the half-open image is deliberate and is
/// what the camera-yaw comparisons rely on.
pub fn wrap(x: i64, low: i64, high: i64) -> (r: i64)
    requires
        low < high,
        -WRAP_LIM <= x <= WRAP_LIM,
        -WRAP_LIM <= low <= WRAP_LIM,
        -WRAP_LIM <= high <= WRAP_LIM,
    ensures
        r == spec_wrap(x as int, low as int, high as int),
        low <= x <= high ==> r == x,
        !(low <= x <= high) ==> low <= r < high,
        (x - r) % (high - low) == 0,
{
    let range = high - low;
    if low <= x && x <= high {
        proof {
            lemma_mod_of_multiple_is_zero(0, range as int);
        }
        x
    } else {
        let d = x - low;
        let m = d % range;
        proof {
            lemma_euclid_of_truncating(d as int, range as int);
        }
        let m2 = if m < 0 {
            m + range
        } else {
            m
        };
        proof {
            lemma_mod_division_less_than_divisor(d as int, range as int);
            lemma_fundamental_div_mod(d as int, range as int);
            let q = d as int / range as int;
            assert(x - (low + m2) == range * q);
            lemma_mod_of_multiple_is_zero(q, range as int);
        }
        low + m2
    }
}

/// Relates the truncating remainder of the machine `%` to the Euclidean
/// remainder of the specification: they agree for nonnegative dividends and
/// differ by one range below zero, except on exact multiples.
pub(crate) proof fn lemma_euclid_of_truncating(d: int, range: int)
    requires
        range > 0,
    ensures
        tmod(d, range) >= 0 ==> d % range == tmod(d, range),
        tmod(d, range) < 0 ==> d % range == tmod(d, range) + range,
{
    if d >= 0 {
        lemma_mod_division_less_than_divisor(d, range);
    } else {
        let rp = (-d) % range;
        lemma_mod_division_less_than_divisor(-d, range);
        lemma_fundamental_div_mod(-d, range);
        let qp = (-d) / range;
        assert(-d == range * qp + rp);
        if rp == 0 {
            assert(d == range * (-qp) + 0) by (nonlinear_arith)
                requires
                    -d == range * qp + rp,
                    rp == 0,
            ;
            lemma_fundamental_div_mod_converse_mod(d, range, -qp, 0);
        } else {
            assert(d == range * (-qp - 1) + (range - rp)) by (nonlinear_arith)
                requires
                    -d == range * qp + rp,
            ;
            lemma_fundamental_div_mod_converse_mod(d, range, -qp - 1, range - rp);
        }
    }
}

} // verus!
