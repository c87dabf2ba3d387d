//! A saturating exponential for the S-curve response of brake and steering.
//!
//! `exp_approx` computes `(1 + z/64)^64` by six fixed-point squarings: a
//! smooth, strictly positive companion of the exponential that is monotone
//! in its argument — the only property the response curves rely on. The
//! argument is kept within eight units, where the base of the power stays
//! positive.

use crate::fixed::{lemma_tdiv_bound, lemma_tdiv_magnitude, lemma_tdiv_monotone, muldiv, tdiv, SCALE};
use vstd::prelude::*;

verus! {

/// Domain bound of the exponential approximation.
pub const EXP_ARG_LIM: i64 = 8_000_000;

/// Value of the exponential approximation at `EXP_ARG_LIM`, its maximum.
pub const EXP_MAX: i64 = 1_878_269_701;

/// Fixed-point square.
pub open spec fn sq_fx(x: int) -> int {
    tdiv(x * x, SCALE as int)
}

/// `(1 + z/64)^64` in fixed point: the base, then six squarings.
pub open spec fn spec_exp_approx(z: int) -> int {
    sq_fx(sq_fx(sq_fx(sq_fx(sq_fx(sq_fx(SCALE + tdiv(z, 64)))))))
}

/// The fixed-point square is monotone on nonnegative values and stays
/// nonnegative.
proof fn lemma_sq_monotone(a: int, b: int)
    requires
        0 <= a <= b,
    ensures
        0 <= sq_fx(a) <= sq_fx(b),
{
    assert(0 <= a * a <= b * b) by (nonlinear_arith)
        requires
            0 <= a <= b,
    ;
    lemma_tdiv_monotone(a * a, b * b, SCALE as int);
    lemma_tdiv_magnitude(a * a, SCALE as int);
}

/// On its domain the approximation stays within `[0, EXP_MAX]`.
pub proof fn lemma_exp_approx_bounds(z: int)
    requires
        -EXP_ARG_LIM <= z <= EXP_ARG_LIM,
    ensures
        0 <= spec_exp_approx(z) <= EXP_MAX,
{
    lemma_exp_approx_monotone(z, EXP_ARG_LIM as int);
    lemma_tdiv_bound(z, EXP_ARG_LIM as int, 64);
    assert(tdiv(EXP_ARG_LIM as int, 64) == 125_000);
    assert(1_125_000 * 1_125_000 == 1_265_625_000_000int) by (nonlinear_arith);
    assert(1_265_625 * 1_265_625 == 1_601_806_640_625int) by (nonlinear_arith);
    assert(1_601_806 * 1_601_806 == 2_565_782_461_636int) by (nonlinear_arith);
    assert(2_565_782 * 2_565_782 == 6_583_237_271_524int) by (nonlinear_arith);
    assert(6_583_237 * 6_583_237 == 43_339_009_398_169int) by (nonlinear_arith);
    assert(43_339_009 * 43_339_009 == 1_878_269_701_102_081int) by (nonlinear_arith);
    assert(sq_fx(1_125_000) == tdiv(1_265_625_000_000, SCALE as int));
    assert(sq_fx(1_265_625) == tdiv(1_601_806_640_625, SCALE as int));
    assert(sq_fx(1_601_806) == tdiv(2_565_782_461_636, SCALE as int));
    assert(sq_fx(2_565_782) == tdiv(6_583_237_271_524, SCALE as int));
    assert(sq_fx(6_583_237) == tdiv(43_339_009_398_169, SCALE as int));
    assert(sq_fx(43_339_009) == tdiv(1_878_269_701_102_081, SCALE as int));
    assert(spec_exp_approx(EXP_ARG_LIM as int) == EXP_MAX);
}

/// The approximation is monotone in its argument.
pub proof fn lemma_exp_approx_monotone(z1: int, z2: int)
    requires
        -EXP_ARG_LIM <= z1 <= z2 <= EXP_ARG_LIM,
    ensures
        0 <= spec_exp_approx(z1) <= spec_exp_approx(z2),
{
    lemma_tdiv_monotone(z1, z2, 64);
    lemma_tdiv_bound(z1, EXP_ARG_LIM as int, 64);
    lemma_tdiv_bound(z2, EXP_ARG_LIM as int, 64);
    let a0 = SCALE + tdiv(z1, 64);
    let b0 = SCALE + tdiv(z2, 64);
    lemma_sq_monotone(a0, b0);
    lemma_sq_monotone(sq_fx(a0), sq_fx(b0));
    lemma_sq_monotone(sq_fx(sq_fx(a0)), sq_fx(sq_fx(b0)));
    lemma_sq_monotone(sq_fx(sq_fx(sq_fx(a0))), sq_fx(sq_fx(sq_fx(b0))));
    lemma_sq_monotone(sq_fx(sq_fx(sq_fx(sq_fx(a0)))), sq_fx(sq_fx(sq_fx(sq_fx(b0)))));
    lemma_sq_monotone(
        sq_fx(sq_fx(sq_fx(sq_fx(sq_fx(a0))))),
        sq_fx(sq_fx(sq_fx(sq_fx(sq_fx(b0))))),
    );
}

/// Saturating exponential: `(1 + z/64)^64` in fixed point, monotone in `z`,
/// always in `[0, EXP_MAX]`.
pub fn exp_approx(z: i64) -> (r: i64)
    requires
        -EXP_ARG_LIM <= z <= EXP_ARG_LIM,
    ensures
        r == spec_exp_approx(z as int),
        0 <= r <= EXP_MAX,
{
    proof {
        lemma_exp_approx_bounds(z as int);
        lemma_tdiv_bound(z as int, EXP_ARG_LIM as int, 64);
        let c0 = SCALE + tdiv(z as int, 64);
        lemma_sq_monotone(c0, 1_125_000);
        lemma_sq_monotone(sq_fx(c0), 1_265_625);
        lemma_sq_monotone(sq_fx(sq_fx(c0)), 1_601_806);
        lemma_sq_monotone(sq_fx(sq_fx(sq_fx(c0))), 2_565_782);
        lemma_sq_monotone(sq_fx(sq_fx(sq_fx(sq_fx(c0)))), 6_583_237);
        lemma_sq_monotone(sq_fx(sq_fx(sq_fx(sq_fx(sq_fx(c0))))), 43_339_009);
    }
    let b0 = SCALE + z / 64;
    let b1 = muldiv(b0, b0, SCALE);
    let b2 = muldiv(b1, b1, SCALE);
    let b3 = muldiv(b2, b2, SCALE);
    let b4 = muldiv(b3, b3, SCALE);
    let b5 = muldiv(b4, b4, SCALE);
    muldiv(b5, b5, SCALE)
}

} // verus!
