//! The scalar type of the library.
//!
//! Every coordinate, angle and matrix entry is an `i64` holding the value
//! times `FX_ONE` (a binary fixed-point number with 32 fractional bits).
//! Multiplication and division of two such scalars are `fx_mul` and `fx_div`;
//! addition and subtraction are the plain integer operators.  All rounding is
//! toward zero, which `tdiv` captures at the specification level.

use vstd::arithmetic::div_mod::{
    lemma_div_is_ordered, lemma_div_is_ordered_by_denominator, lemma_div_multiples_vanish,
    lemma_div_pos_is_pos,
};
use vstd::math::abs;
use vstd::prelude::*;

verus! {

/// The scaled representation of the value one: 2^32.
pub const FX_ONE: i64 = 4294967296;

/// Largest magnitude a scalar may have where two of them are multiplied:
/// 2^46, that is a value of 16384.  Products of two such scalars and sums of
/// four such products stay well inside `i64`.
pub const FX_LIM: i64 = 70368744177664;

/// Smallest magnitude a divisor may have: 2^16, a value of about 1.5e-5.
/// A quotient of an `FX_LIM`-bounded scalar by such a divisor fits in `i64`.
pub const FX_DIV_MIN: i64 = 65536;

/// Division rounded toward zero, as the machine division of `i64` and `i128`
/// behaves; `b` must not be zero.
pub open spec fn tdiv(a: int, b: int) -> int {
    if (a < 0) == (b < 0) {
        (abs(a) as int) / (abs(b) as int)
    } else {
        -((abs(a) as int) / (abs(b) as int))
    }
}

/// The product of two scalars: the mathematical product, rescaled.
pub open spec fn fx_mul_s(a: int, b: int) -> int {
    tdiv(a * b, FX_ONE as int)
}

/// The quotient of two scalars: the mathematical quotient, rescaled.
pub open spec fn fx_div_s(a: int, b: int) -> int {
    tdiv(a * (FX_ONE as int), b)
}

/// A scalar small enough to be a factor of `fx_mul` or a dividend of `fx_div`.
pub open spec fn fx_ok(a: int) -> bool {
    -FX_LIM <= a <= FX_LIM
}

/// Multiply two scalars, rounding toward zero.
pub fn fx_mul(a: i64, b: i64) -> (r: i64)
    requires
        fx_ok(a as int),
        fx_ok(b as int),
    ensures
        r == fx_mul_s(a as int, b as int),
        -0x1000000000000000 <= r <= 0x1000000000000000,
{
    proof {
        lemma_fx_product_range(a as int, b as int);
    }
    let p: i128 = (a as i128) * (b as i128);
    proof {
        lemma_tdiv_bound(p as int, FX_ONE as int, (FX_LIM as int) * (FX_LIM as int));
        assert((FX_LIM as int) * (FX_LIM as int) / (FX_ONE as int) == 0x1000000000000000);
    }
    let q: i128 = if p >= 0 {
        p / (FX_ONE as i128)
    } else {
        -((-p) / (FX_ONE as i128))
    };
    q as i64
}

/// Divide two scalars, rounding toward zero.  The divisor must be at least
/// `FX_DIV_MIN` in magnitude, so that the quotient fits in `i64`.
pub fn fx_div(a: i64, b: i64) -> (r: i64)
    requires
        fx_ok(a as int),
        b <= -FX_DIV_MIN || b >= FX_DIV_MIN,
    ensures
        r == fx_div_s(a as int, b as int),
        -0x4000000000000000 <= r <= 0x4000000000000000,
{
    proof {
        lemma_fx_dividend_range(a as int);
    }
    let n: i128 = (a as i128) * (FX_ONE as i128);
    proof {
        lemma_tdiv_shrinks(n as int, b as int, (FX_LIM as int) * (FX_ONE as int));
        assert((FX_LIM as int) * (FX_ONE as int) / (FX_DIV_MIN as int) == 0x4000000000000000);
    }
    let na: i128 = if n >= 0 {
        n
    } else {
        -n
    };
    let ba: i128 = if b >= 0 {
        b as i128
    } else {
        -(b as i128)
    };
    let qa: i128 = na / ba;
    let q: i128 = if (n < 0) == (b < 0) {
        qa
    } else {
        -qa
    };
    q as i64
}

proof fn lemma_fx_product_range(a: int, b: int)
    requires
        fx_ok(a),
        fx_ok(b),
    ensures
        -(FX_LIM as int) * (FX_LIM as int) <= a * b <= (FX_LIM as int) * (FX_LIM as int),
{
    assert(-(FX_LIM as int) * (FX_LIM as int) <= a * b <= (FX_LIM as int) * (FX_LIM as int))
        by (nonlinear_arith)
        requires
            -FX_LIM <= a <= FX_LIM,
            -FX_LIM <= b <= FX_LIM,
    ;
}

proof fn lemma_fx_dividend_range(a: int)
    requires
        fx_ok(a),
    ensures
        -(FX_LIM as int) * (FX_ONE as int) <= a * (FX_ONE as int) <= (FX_LIM as int) * (
        FX_ONE as int),
{
    assert(-(FX_LIM as int) * (FX_ONE as int) <= a * (FX_ONE as int) <= (FX_LIM as int) * (
    FX_ONE as int)) by (nonlinear_arith)
        requires
            -FX_LIM <= a <= FX_LIM,
    ;
}

/// Truncating division by a positive divisor shrinks bounded dividends:
/// `|n| <= m` gives `|tdiv(n, d)| <= m / d`.
pub proof fn lemma_tdiv_bound(n: int, d: int, m: int)
    requires
        0 < d,
        0 <= m,
        -m <= n <= m,
    ensures
        -(m / d) <= tdiv(n, d) <= m / d,
{
    lemma_div_pos_is_pos(abs(n) as int, d);
    lemma_div_is_ordered(abs(n) as int, m, d);
}

/// Truncating division by a divisor of magnitude at least `FX_DIV_MIN`
/// shrinks bounded dividends: `|n| <= m` gives
/// `|tdiv(n, d)| <= m / FX_DIV_MIN`.
pub proof fn lemma_tdiv_shrinks(n: int, d: int, m: int)
    requires
        d <= -(FX_DIV_MIN as int) || d >= FX_DIV_MIN as int,
        0 <= m,
        -m <= n <= m,
    ensures
        -(m / (FX_DIV_MIN as int)) <= tdiv(n, d) <= m / (FX_DIV_MIN as int),
{
    let dm = FX_DIV_MIN as int;
    lemma_div_pos_is_pos(abs(n) as int, abs(d) as int);
    lemma_div_is_ordered_by_denominator(abs(n) as int, dm, abs(d) as int);
    lemma_div_is_ordered(abs(n) as int, m, dm);
}

/// Zero on the left is absorbing for the scalar product.
pub broadcast proof fn lemma_fx_mul_zero_l(a: int)
    ensures
        #[trigger] fx_mul_s(0, a) == 0,
{
    vstd::arithmetic::div_mod::lemma_div_of0(FX_ONE as int);
}

/// Zero on the right is absorbing for the scalar product.
pub broadcast proof fn lemma_fx_mul_zero_r(a: int)
    ensures
        #[trigger] fx_mul_s(a, 0) == 0,
{
    vstd::arithmetic::div_mod::lemma_div_of0(FX_ONE as int);
}

/// One on the left is neutral for the scalar product.
pub broadcast proof fn lemma_fx_mul_one_l(a: int)
    ensures
        #[trigger] fx_mul_s(FX_ONE as int, a) == a,
{
    lemma_div_multiples_vanish(abs(a) as int, FX_ONE as int);
    assert(abs((FX_ONE as int) * a) == abs(a) * (FX_ONE as int)) by (nonlinear_arith);
    assert((FX_ONE as int) * abs(a) == abs(a) * (FX_ONE as int)) by (nonlinear_arith);
}

/// One on the right is neutral for the scalar product.
pub broadcast proof fn lemma_fx_mul_one_r(a: int)
    ensures
        #[trigger] fx_mul_s(a, FX_ONE as int) == a,
{
    lemma_div_multiples_vanish(abs(a) as int, FX_ONE as int);
    assert(abs(a * (FX_ONE as int)) == abs(a) * (FX_ONE as int)) by (nonlinear_arith);
    assert((FX_ONE as int) * abs(a) == abs(a) * (FX_ONE as int)) by (nonlinear_arith);
}

/// The product of scalars bounded by `ca` and `cb` is bounded by
/// `ca * cb / FX_ONE`.
pub proof fn lemma_fx_mul_bound(a: int, b: int, ca: int, cb: int)
    requires
        0 <= ca,
        0 <= cb,
        -ca <= a <= ca,
        -cb <= b <= cb,
    ensures
        -(ca * cb / (FX_ONE as int)) <= fx_mul_s(a, b) <= ca * cb / (FX_ONE as int),
{
    assert(-(ca * cb) <= a * b <= ca * cb && 0 <= ca * cb) by (nonlinear_arith)
        requires
            0 <= ca,
            0 <= cb,
            -ca <= a <= ca,
            -cb <= b <= cb,
    ;
    lemma_tdiv_bound(a * b, FX_ONE as int, ca * cb);
}

/// A product of non-negative scalars is non-negative.
pub proof fn lemma_fx_mul_nonneg(a: int, b: int)
    requires
        0 <= a,
        0 <= b,
    ensures
        0 <= fx_mul_s(a, b),
{
    assert(0 <= a * b) by (nonlinear_arith)
        requires
            0 <= a,
            0 <= b,
    ;
    lemma_div_pos_is_pos(abs(a * b) as int, FX_ONE as int);
}

} // verus!
