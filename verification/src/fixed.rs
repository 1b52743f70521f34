//! Saturating fixed-point scalars.
//!
//! A real quantity is represented by an `i64` holding its value times
//! `SCALE`.  Every operation widens to `i128`, divides where needed with
//! truncation toward zero, and clamps the result into the symmetric range
//! `[-i64::MAX, i64::MAX]`, so no operation overflows or panics and
//! negation is always exact.

use vstd::prelude::*;

verus! {

/// Number of fixed-point units per whole unit.
pub const SCALE: i64 = 1_000_000;

/// Largest representable scalar; the range is symmetric around zero.
pub const FX_LIMIT: i64 = 0x7fff_ffff_ffff_ffff;

/// Absolute value over mathematical integers.
pub open spec fn abs_int(a: int) -> int {
    if a < 0 {
        -a
    } else {
        a
    }
}

/// Clamp into the symmetric representable range.
pub open spec fn sat(a: int) -> int {
    if a > FX_LIMIT {
        FX_LIMIT as int
    } else if a < -(FX_LIMIT as int) {
        -(FX_LIMIT as int)
    } else {
        a
    }
}

/// Division truncated toward zero, as machine division does it.
pub open spec fn tdiv(a: int, b: int) -> int
    recommends
        b != 0,
{
    if (a < 0) == (b < 0) {
        abs_int(a) / abs_int(b)
    } else {
        -(abs_int(a) / abs_int(b))
    }
}

/// Saturating sum of two scalars.
pub open spec fn fx_add_s(a: int, b: int) -> int {
    sat(a + b)
}

/// Saturating difference of two scalars.
pub open spec fn fx_sub_s(a: int, b: int) -> int {
    sat(a - b)
}

/// Saturating negation of a scalar.
pub open spec fn fx_neg_s(a: int) -> int {
    sat(-a)
}

/// Saturating fixed-point product: `(a * b) / SCALE`, truncated.
pub open spec fn fx_mul_s(a: int, b: int) -> int {
    sat(tdiv(a * b, SCALE as int))
}

/// Saturating fixed-point quotient: `(a * SCALE) / b`, truncated.
pub open spec fn fx_div_s(a: int, b: int) -> int
    recommends
        b != 0,
{
    sat(tdiv(a * SCALE, b))
}

/// Reciprocal rounded away from zero, for positive input: never truncates a
/// positive quantity down to zero.
pub open spec fn fx_recip_up_s(b: int) -> int
    recommends
        b > 0,
{
    sat((SCALE * SCALE + b - 1) / b)
}

/// The integer lies in the symmetric representable range.
pub open spec fn fx_ok(a: int) -> bool {
    -(FX_LIMIT as int) <= a <= FX_LIMIT as int
}

/// Larger of two scalars.
pub open spec fn max_s(a: int, b: int) -> int {
    if a >= b {
        a
    } else {
        b
    }
}

proof fn lemma_nonneg_div(a: int, b: int)
    requires
        a >= 0,
        b > 0,
    ensures
        0 <= a / b <= a,
{
    vstd::arithmetic::div_mod::lemma_div_is_ordered_by_denominator(a, 1, b);
    vstd::arithmetic::div_mod::lemma_div_basics(a);
    vstd::arithmetic::div_mod::lemma_div_pos_is_pos(a, b);
}

/// Truncated division of non-negatives never exceeds the dividend.
pub proof fn lemma_tdiv_bounds(a: int, b: int)
    requires
        b != 0,
    ensures
        abs_int(tdiv(a, b)) <= abs_int(a),
        a >= 0 && b > 0 ==> 0 <= tdiv(a, b) <= a,
{
    lemma_nonneg_div(abs_int(a), abs_int(b));
}

/// Negating the dividend negates the truncated quotient.
pub proof fn lemma_tdiv_neg(a: int, b: int)
    requires
        b != 0,
    ensures
        tdiv(-a, b) == -tdiv(a, b),
{
}

/// Clamping commutes with negation: the range is symmetric.
pub proof fn lemma_sat_neg(a: int)
    ensures
        sat(-a) == -sat(a),
{
}

/// Fixed-point products are odd in each argument.
pub proof fn lemma_fx_mul_neg(a: int, b: int)
    ensures
        fx_mul_s(-a, b) == -fx_mul_s(a, b),
        fx_mul_s(a, -b) == -fx_mul_s(a, b),
{
    assert((-a) * b == -(a * b)) by (nonlinear_arith);
    assert(a * (-b) == -(a * b)) by (nonlinear_arith);
    lemma_tdiv_neg(a * b, SCALE as int);
    lemma_sat_neg(tdiv(a * b, SCALE as int));
}

/// A product of scalars of equal sign is non-negative.
pub proof fn lemma_fx_mul_nonneg(a: int, b: int)
    requires
        (a >= 0 && b >= 0) || (a <= 0 && b <= 0),
    ensures
        fx_mul_s(a, b) >= 0,
{
    assert(a * b >= 0) by (nonlinear_arith)
        requires
            (a >= 0 && b >= 0) || (a <= 0 && b <= 0),
    ;
    lemma_tdiv_bounds(a * b, SCALE as int);
}

/// A product of scalars of opposite sign is non-positive.
pub proof fn lemma_fx_mul_nonpos(a: int, b: int)
    requires
        (a <= 0 && b >= 0) || (a >= 0 && b <= 0),
    ensures
        fx_mul_s(a, b) <= 0,
{
    assert(a * b <= 0) by (nonlinear_arith)
        requires
            (a <= 0 && b >= 0) || (a >= 0 && b <= 0),
    ;
    lemma_nonneg_div(abs_int(a * b), SCALE as int);
}

/// Multiplication by zero yields zero.
pub proof fn lemma_fx_mul_zero(b: int)
    ensures
        fx_mul_s(0, b) == 0,
        fx_mul_s(b, 0) == 0,
{
    assert(0 * b == 0) by (nonlinear_arith);
    assert(b * 0 == 0) by (nonlinear_arith);
    assert(tdiv(0, SCALE as int) == 0) by {
        vstd::arithmetic::div_mod::lemma_div_basics(SCALE as int);
    }
}

fn clamp128(s: i128) -> (r: i64)
    ensures
        r as int == sat(s as int),
{
    if s > FX_LIMIT as i128 {
        FX_LIMIT
    } else if s < -(FX_LIMIT as i128) {
        -FX_LIMIT
    } else {
        s as i64
    }
}

/// Truncated division on wide intermediates, computed through magnitudes so
/// that rounding is toward zero.
fn tdiv128(a: i128, b: i128) -> (r: i128)
    requires
        b != 0,
        a > i128::MIN,
        b > i128::MIN,
    ensures
        r as int == tdiv(a as int, b as int),
{
    let an: u128 = if a < 0 {
        (-a) as u128
    } else {
        a as u128
    };
    let bn: u128 = if b < 0 {
        (-b) as u128
    } else {
        b as u128
    };
    let q: u128 = an / bn;
    proof {
        assert(an as int == abs_int(a as int));
        assert(bn as int == abs_int(b as int));
        lemma_nonneg_div(an as int, bn as int);
    }
    if (a < 0) != (b < 0) {
        -(q as i128)
    } else {
        q as i128
    }
}

/// Saturating addition.
pub fn fx_add(a: i64, b: i64) -> (r: i64)
    ensures
        r as int == fx_add_s(a as int, b as int),
{
    clamp128(a as i128 + b as i128)
}

/// Saturating subtraction.
pub fn fx_sub(a: i64, b: i64) -> (r: i64)
    ensures
        r as int == fx_sub_s(a as int, b as int),
{
    clamp128(a as i128 - b as i128)
}

/// Saturating negation.
pub fn fx_neg(a: i64) -> (r: i64)
    ensures
        r as int == fx_neg_s(a as int),
{
    clamp128(-(a as i128))
}

proof fn lemma_i64_product_in_range(a: int, b: int)
    requires
        i64::MIN <= a <= i64::MAX,
        i64::MIN <= b <= i64::MAX,
    ensures
        i128::MIN < a * b < i128::MAX,
{
    assert(i128::MIN < a * b < i128::MAX) by (nonlinear_arith)
        requires
            -0x8000_0000_0000_0000 <= a <= 0x7fff_ffff_ffff_ffff,
            -0x8000_0000_0000_0000 <= b <= 0x7fff_ffff_ffff_ffff,
    ;
}

/// Saturating fixed-point multiplication.
pub fn fx_mul(a: i64, b: i64) -> (r: i64)
    ensures
        r as int == fx_mul_s(a as int, b as int),
{
    proof {
        lemma_i64_product_in_range(a as int, b as int);
    }
    let p: i128 = (a as i128) * (b as i128);
    let q: i128 = tdiv128(p, SCALE as i128);
    clamp128(q)
}

/// Saturating fixed-point division.
pub fn fx_div(a: i64, b: i64) -> (r: i64)
    requires
        b != 0,
    ensures
        r as int == fx_div_s(a as int, b as int),
{
    proof {
        lemma_i64_product_in_range(a as int, SCALE as int);
    }
    let p: i128 = (a as i128) * (SCALE as i128);
    let q: i128 = tdiv128(p, b as i128);
    clamp128(q)
}

/// Reciprocal of a positive scalar, rounded away from zero.
pub fn fx_recip_up(b: i64) -> (r: i64)
    requires
        b > 0,
    ensures
        r as int == fx_recip_up_s(b as int),
        r > 0,
{
    proof {
        assert((SCALE as int) * (SCALE as int) == 1_000_000_000_000int) by (nonlinear_arith);
    }
    let n: i128 = 1_000_000_000_000i128 + (b as i128) - 1;
    let q: i128 = n / (b as i128);
    proof {
        let ni = n as int;
        let bi = b as int;
        assert(bi <= ni);
        vstd::arithmetic::div_mod::lemma_div_by_self(bi);
        vstd::arithmetic::div_mod::lemma_div_is_ordered(bi, ni, bi);
        assert(1 <= ni / bi);
        lemma_nonneg_div(ni, bi);
        assert(q as int == ni / bi);
    }
    clamp128(q)
}

/// Quotient of a scalar by a positive count, truncated toward zero; the
/// arithmetic mean of a sum of `n` entries.
pub fn fx_div_count(a: i64, n: usize) -> (r: i64)
    requires
        n > 0,
    ensures
        r as int == tdiv(a as int, n as int),
{
    let q: i128 = tdiv128(a as i128, n as i128);
    proof {
        lemma_tdiv_bounds(a as int, n as int);
        assert(abs_int(q as int) <= abs_int(a as int));
    }
    q as i64
}

/// Larger of two scalars.
pub fn fx_max(a: i64, b: i64) -> (r: i64)
    ensures
        r as int == max_s(a as int, b as int),
{
    if a >= b {
        a
    } else {
        b
    }
}

} // verus!
