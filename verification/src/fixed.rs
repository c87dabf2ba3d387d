//! Signed fixed-point arithmetic with a scale of one million.
//!
//! A quantity of one unit is represented by `SCALE` ticks. Products and
//! quotients go through 128-bit intermediates, so only the final result has
//! to fit a 64-bit word, and they truncate toward zero as machine division
//! does; `tdiv` is the specification-level image of that rounding, and the
//! lemmas here carry its order and magnitude facts to the rest of the
//! crate.

use vstd::arithmetic::div_mod::{
    lemma_div_is_ordered, lemma_div_is_ordered_by_denominator, lemma_div_multiples_vanish,
    lemma_div_nonincreasing, lemma_div_pos_is_pos,
};
use vstd::arithmetic::mul::{lemma_mul_inequality, lemma_mul_nonnegative};
use vstd::prelude::*;

verus! {

/// Number of fixed-point ticks in one unit.
pub const SCALE: i64 = 1_000_000;

/// Truncating (round-toward-zero) division, the semantics of `/` on signed
/// machine integers, expressed over mathematical integers. `d` must be
/// positive.
pub open spec fn tdiv(a: int, d: int) -> int {
    if a >= 0 {
        a / d
    } else {
        -((-a) / d)
    }
}

/// Truncating remainder, the semantics of `%` on signed machine integers:
/// the sign follows the dividend. `d` must be positive.
pub open spec fn tmod(a: int, d: int) -> int {
    if a >= 0 {
        a % d
    } else {
        -((-a) % d)
    }
}

/// Fixed-point product: `a * b` rescaled back by one factor of `SCALE`.
pub open spec fn fxmul(a: int, b: int) -> int {
    tdiv(a * b, SCALE as int)
}

/// Fixed-point quotient of `a` by positive `b`.
pub open spec fn fxdiv(a: int, b: int) -> int {
    tdiv(a * (SCALE as int), b)
}

/// Clamp `x` into `[lo, hi]`.
pub open spec fn spec_clamp(x: int, lo: int, hi: int) -> int {
    if x < lo {
        lo
    } else if x > hi {
        hi
    } else {
        x
    }
}

/// `a * b / d` with a 128-bit intermediate product, so only the final result
/// must fit in 64 bits.
pub fn muldiv(a: i64, b: i64, d: i64) -> (r: i64)
    requires
        d > 0,
        -0x7fff_ffff_ffff_ffff <= tdiv(a * b, d as int) <= 0x7fff_ffff_ffff_ffff,
    ensures
        r == tdiv(a * b, d as int),
{
    proof {
        assert(-0x4000_0000_0000_0000_0000_0000_0000_0000 <= (a as int) * (b as int)
            <= 0x4000_0000_0000_0000_0000_0000_0000_0000) by (nonlinear_arith)
            requires
                -0x8000_0000_0000_0000 <= a as int <= 0x7fff_ffff_ffff_ffff,
                -0x8000_0000_0000_0000 <= b as int <= 0x7fff_ffff_ffff_ffff,
        ;
    }
    let p: i128 = (a as i128) * (b as i128);
    let q: i128 = p / (d as i128);
    proof {
        lemma_tdiv_magnitude(p as int, d as int);
        assert(q == tdiv(a as int * b as int, d as int));
    }
    q as i64
}

/// Clamp `x` into `[lo, hi]`.
pub fn clamp(x: i64, lo: i64, hi: i64) -> (r: i64)
    requires
        lo <= hi,
    ensures
        r == spec_clamp(x as int, lo as int, hi as int),
{
    if x < lo {
        lo
    } else if x > hi {
        hi
    } else {
        x
    }
}

/// Truncating division never moves away from zero: its magnitude is at most
/// the magnitude of the dividend.
pub proof fn lemma_tdiv_magnitude(a: int, d: int)
    requires
        d > 0,
    ensures
        a >= 0 ==> 0 <= tdiv(a, d) <= a,
        a < 0 ==> a <= tdiv(a, d) <= 0,
{
    if a >= 0 {
        lemma_div_pos_is_pos(a, d);
        lemma_div_nonincreasing(a, d);
    } else {
        lemma_div_pos_is_pos(-a, d);
        lemma_div_nonincreasing(-a, d);
    }
}

/// Truncating division by a positive constant is monotone in the dividend.
pub proof fn lemma_tdiv_monotone(a: int, b: int, d: int)
    requires
        a <= b,
        d > 0,
    ensures
        tdiv(a, d) <= tdiv(b, d),
{
    if a >= 0 {
        lemma_div_is_ordered(a, b, d);
    } else if b >= 0 {
        lemma_div_pos_is_pos(-a, d);
        lemma_div_pos_is_pos(b, d);
    } else {
        lemma_div_is_ordered(-b, -a, d);
    }
}

/// A dividend bound transfers through truncating division: if `|a| <= m`
/// then `|tdiv(a, d)| <= tdiv(m, d)`.
pub proof fn lemma_tdiv_bound(a: int, m: int, d: int)
    requires
        -m <= a <= m,
        d > 0,
    ensures
        -tdiv(m, d) <= tdiv(a, d) <= tdiv(m, d),
{
    if a >= 0 {
        lemma_div_is_ordered(a, m, d);
        lemma_div_pos_is_pos(a, d);
    } else {
        lemma_div_is_ordered(-a, m, d);
        lemma_div_pos_is_pos(-a, d);
    }
}

/// A product of magnitude-bounded factors keeps `tdiv(a * b, d)` within the
/// image of the bound product.
pub proof fn lemma_tdiv_product_bound(a: int, b: int, am: int, bm: int, d: int)
    requires
        -am <= a <= am,
        -bm <= b <= bm,
        d > 0,
    ensures
        -tdiv(am * bm, d) <= tdiv(a * b, d) <= tdiv(am * bm, d),
{
    assert(-(am * bm) <= a * b <= am * bm) by (nonlinear_arith)
        requires
            -am <= a <= am,
            -bm <= b <= bm,
    ;
    lemma_tdiv_bound(a * b, am * bm, d);
}

/// Multiplying a fixed monotone pair by a common nonnegative factor and
/// rescaling preserves the order.
pub proof fn lemma_fxmul_monotone_right(k: int, x: int, y: int)
    requires
        k >= 0,
        x <= y,
    ensures
        fxmul(k, x) <= fxmul(k, y),
{
    lemma_mul_inequality(x, y, k);
    assert(k * x == x * k) by (nonlinear_arith);
    assert(k * y == y * k) by (nonlinear_arith);
    lemma_tdiv_monotone(k * x, k * y, SCALE as int);
}

/// With a fixed nonnegative dividend, growing the positive divisor cannot
/// grow the quotient.
pub proof fn lemma_tdiv_denominator_ordered(a: int, d1: int, d2: int)
    requires
        a >= 0,
        0 < d1 <= d2,
    ensures
        tdiv(a, d2) <= tdiv(a, d1),
{
    lemma_div_is_ordered_by_denominator(a, d1, d2);
}

/// A quotient by positive `d` reaches `k` once the dividend reaches
/// `k * d`.
pub proof fn lemma_tdiv_lower_bound(a: int, d: int, k: int)
    requires
        d > 0,
        k >= 0,
        a >= k * d,
    ensures
        tdiv(a, d) >= k,
{
    lemma_mul_nonnegative(k, d);
    lemma_div_is_ordered(k * d, a, d);
    lemma_div_multiples_vanish(k, d);
    assert(k * d == d * k) by (nonlinear_arith);
}

} // verus!
