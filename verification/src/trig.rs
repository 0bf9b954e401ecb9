//! Sine and cosine on fixed-point angles, in radians.
//!
//! An angle is first wrapped into one turn, then folded into the quadrant
//! around zero, and a truncated Taylor polynomial in nested (Horner) form is
//! evaluated there.  The result is clamped into `[-FX_ONE, FX_ONE]`, so a
//! sine or cosine is always a scalar of magnitude at most one.  At angle
//! zero the construction is exact: the sine is zero and the cosine is one.

use crate::fixed::{
    fx_div_s, fx_mul, fx_mul_s, lemma_fx_mul_bound, lemma_tdiv_bound, tdiv, FX_ONE,
};
use vstd::arithmetic::div_mod::{
    lemma_fundamental_div_mod, lemma_fundamental_div_mod_converse_mod, lemma_mod_bound,
};
use vstd::prelude::*;

verus! {

/// One full turn (two pi), scaled by `FX_ONE`.
pub const FX_TAU: i64 = 26986075409;

/// Half a turn (pi), scaled by `FX_ONE`.
pub const FX_HALF_TAU: i64 = 13493037704;

/// A quarter turn (pi over two), scaled by `FX_ONE`.
pub const FX_QUARTER_TAU: i64 = 6746518852;

/// Three quarter turns, scaled by `FX_ONE`.
pub const FX_THREE_QUARTER_TAU: i64 = 20239556556;

/// Largest magnitude a folded polynomial argument can have: a quarter turn,
/// rounded up.
pub const FX_FOLD_LIM: i64 = 6746518853;

/// An angle wrapped into `[0, FX_TAU)`.
pub open spec fn wrap_s(x: int) -> int {
    x % (FX_TAU as int)
}

/// A value clamped into `[-FX_ONE, FX_ONE]`.
pub open spec fn clamp_one_s(p: int) -> int {
    if p > FX_ONE as int {
        FX_ONE as int
    } else if p < -(FX_ONE as int) {
        -(FX_ONE as int)
    } else {
        p
    }
}

/// One nesting level of the Horner form: `FX_ONE - (t2 * inner) / d`.
pub open spec fn poly_step_s(t2: int, inner: int, d: int) -> int {
    (FX_ONE as int) - tdiv(fx_mul_s(t2, inner), d)
}

/// The sine polynomial on the folded quadrant:
/// `t (1 - t^2/6 (1 - t^2/20 (1 - t^2/42 (1 - t^2/72 (1 - t^2/110 (1 - t^2/156))))))`.
pub open spec fn sin_poly_s(t: int) -> int {
    let t2 = fx_mul_s(t, t);
    let w156 = (FX_ONE as int) - tdiv(t2, 156);
    let w110 = poly_step_s(t2, w156, 110);
    let w72 = poly_step_s(t2, w110, 72);
    let w42 = poly_step_s(t2, w72, 42);
    let w20 = poly_step_s(t2, w42, 20);
    let w6 = poly_step_s(t2, w20, 6);
    fx_mul_s(t, w6)
}

/// The cosine polynomial on the folded quadrant:
/// `1 - t^2/2 (1 - t^2/12 (1 - t^2/30 (1 - t^2/56 (1 - t^2/90 (1 - t^2/132)))))`.
pub open spec fn cos_poly_s(t: int) -> int {
    let t2 = fx_mul_s(t, t);
    let v132 = (FX_ONE as int) - tdiv(t2, 132);
    let v90 = poly_step_s(t2, v132, 90);
    let v56 = poly_step_s(t2, v90, 56);
    let v30 = poly_step_s(t2, v56, 30);
    let v12 = poly_step_s(t2, v30, 12);
    poly_step_s(t2, v12, 2)
}

/// The sine of an angle in scaled radians.
#[verifier::opaque]
pub open spec fn sin_fx_s(x: int) -> int {
    let r = wrap_s(x);
    let p = if r < FX_QUARTER_TAU as int {
        sin_poly_s(r)
    } else if r < FX_THREE_QUARTER_TAU as int {
        sin_poly_s((FX_HALF_TAU as int) - r)
    } else {
        sin_poly_s(r - (FX_TAU as int))
    };
    clamp_one_s(p)
}

/// The cosine of an angle in scaled radians.
#[verifier::opaque]
pub open spec fn cos_fx_s(x: int) -> int {
    let r = wrap_s(x);
    let p = if r < FX_QUARTER_TAU as int {
        cos_poly_s(r)
    } else if r < FX_THREE_QUARTER_TAU as int {
        -cos_poly_s(r - (FX_HALF_TAU as int))
    } else {
        cos_poly_s(r - (FX_TAU as int))
    };
    clamp_one_s(p)
}

/// The tangent of an angle: its sine over its cosine.  Meaningful only
/// where the cosine is well away from zero.
pub open spec fn tan_fx_s(x: int) -> int {
    fx_div_s(sin_fx_s(x), cos_fx_s(x))
}

/// Wrap an angle into `[0, FX_TAU)`.
fn wrap_angle(x: i64) -> (r: i64)
    ensures
        r == wrap_s(x as int),
        0 <= r < FX_TAU,
{
    proof {
        lemma_wrap_from_truncating(x as int);
    }
    let m: i64 = x % FX_TAU;
    if m < 0 {
        m + FX_TAU
    } else {
        m
    }
}

/// The machine remainder, adjusted into `[0, FX_TAU)` when negative, is the
/// Euclidean remainder.
proof fn lemma_wrap_from_truncating(x: int)
    ensures
        x >= 0 ==> wrap_s(x) == x % (FX_TAU as int),
        x < 0 && (-x) % (FX_TAU as int) == 0 ==> wrap_s(x) == 0,
        x < 0 && (-x) % (FX_TAU as int) != 0 ==> wrap_s(x) == (FX_TAU as int) - ((-x) % (
        FX_TAU as int)),
        0 <= wrap_s(x) < FX_TAU as int,
{
    let t = FX_TAU as int;
    lemma_mod_bound(x, t);
    if x < 0 {
        let q = (-x) / t;
        let s = (-x) % t;
        lemma_fundamental_div_mod(-x, t);
        lemma_mod_bound(-x, t);
        if s == 0 {
            assert(x == (-q) * t + 0) by (nonlinear_arith)
                requires
                    -x == t * q + s,
                    s == 0,
            ;
            lemma_fundamental_div_mod_converse_mod(x, t, -q, 0);
        } else {
            assert(x == (-q - 1) * t + (t - s)) by (nonlinear_arith)
                requires
                    -x == t * q + s,
            ;
            lemma_fundamental_div_mod_converse_mod(x, t, -q - 1, t - s);
        }
    }
}

/// One nesting level of the Horner form on the executable side.
fn poly_step(t2: i64, inner: i64, d: i64) -> (w: i64)
    requires
        0 <= t2 <= 3 * FX_ONE,
        -3 * FX_ONE <= inner <= 3 * FX_ONE,
        2 <= d <= 156,
    ensures
        w == poly_step_s(t2 as int, inner as int, d as int),
        -6 * (FX_ONE as int) <= w <= 6 * (FX_ONE as int),
        6 <= d ==> -3 * (FX_ONE as int) <= w <= 3 * (FX_ONE as int),
{
    proof {
        lemma_fx_mul_bound(t2 as int, inner as int, 12884901888, 12884901888);
        assert(12884901888int * 12884901888int / 4294967296int == 38654705664int);
        lemma_tdiv_bound(fx_mul_s(t2 as int, inner as int), d as int, 38654705664);
        vstd::arithmetic::div_mod::lemma_div_is_ordered_by_denominator(38654705664, 2, d as int);
        assert(38654705664int / 2int == 19327352832int);
        if d >= 6 {
            vstd::arithmetic::div_mod::lemma_div_is_ordered_by_denominator(
                38654705664,
                6,
                d as int,
            );
            assert(38654705664int / 6int == 6442450944int);
        }
    }
    let p: i64 = fx_mul(t2, inner);
    let q: i64 = p / d;
    FX_ONE - q
}

/// The squared, rescaled polynomial argument; never negative and at most
/// three.
fn fold_square(t: i64) -> (t2: i64)
    requires
        -FX_FOLD_LIM <= t <= FX_FOLD_LIM,
    ensures
        t2 == fx_mul_s(t as int, t as int),
        0 <= t2 <= 3 * FX_ONE,
{
    proof {
        lemma_fx_mul_bound(t as int, t as int, 6746518853, 6746518853);
        assert(6746518853int * 6746518853int / 4294967296int <= 12884901888int);
        assert(0 <= fx_mul_s(t as int, t as int)) by {
            assert(0 <= t as int * t as int) by (nonlinear_arith);
        }
    }
    fx_mul(t, t)
}

/// The sine polynomial on the folded quadrant.
fn sin_poly(t: i64) -> (r: i64)
    requires
        -FX_FOLD_LIM <= t <= FX_FOLD_LIM,
    ensures
        r == sin_poly_s(t as int),
{
    let t2: i64 = fold_square(t);
    proof {
        lemma_tdiv_bound(t2 as int, 156, 3 * FX_ONE as int);
    }
    let q156: i64 = t2 / 156;
    let w156: i64 = FX_ONE - q156;
    let w110: i64 = poly_step(t2, w156, 110);
    let w72: i64 = poly_step(t2, w110, 72);
    let w42: i64 = poly_step(t2, w72, 42);
    let w20: i64 = poly_step(t2, w42, 20);
    let w6: i64 = poly_step(t2, w20, 6);
    fx_mul(t, w6)
}

/// The cosine polynomial on the folded quadrant.
fn cos_poly(t: i64) -> (r: i64)
    requires
        -FX_FOLD_LIM <= t <= FX_FOLD_LIM,
    ensures
        r == cos_poly_s(t as int),
        -6 * (FX_ONE as int) <= r <= 6 * (FX_ONE as int),
{
    let t2: i64 = fold_square(t);
    proof {
        lemma_tdiv_bound(t2 as int, 132, 3 * FX_ONE as int);
    }
    let q132: i64 = t2 / 132;
    let v132: i64 = FX_ONE - q132;
    let v90: i64 = poly_step(t2, v132, 90);
    let v56: i64 = poly_step(t2, v90, 56);
    let v30: i64 = poly_step(t2, v56, 30);
    let v12: i64 = poly_step(t2, v30, 12);
    poly_step(t2, v12, 2)
}

/// Clamp a polynomial value into `[-FX_ONE, FX_ONE]`.
fn clamp_one(p: i64) -> (r: i64)
    ensures
        r == clamp_one_s(p as int),
{
    if p > FX_ONE {
        FX_ONE
    } else if p < -FX_ONE {
        -FX_ONE
    } else {
        p
    }
}

/// The sine of an angle in scaled radians; always within one in magnitude.
pub fn sin_fx(x: i64) -> (r: i64)
    ensures
        r == sin_fx_s(x as int),
        -FX_ONE <= r <= FX_ONE,
{
    proof {
        reveal(sin_fx_s);
    }
    let rm: i64 = wrap_angle(x);
    let p: i64 = if rm < FX_QUARTER_TAU {
        sin_poly(rm)
    } else if rm < FX_THREE_QUARTER_TAU {
        sin_poly(FX_HALF_TAU - rm)
    } else {
        sin_poly(rm - FX_TAU)
    };
    clamp_one(p)
}

/// The cosine of an angle in scaled radians; always within one in magnitude.
pub fn cos_fx(x: i64) -> (r: i64)
    ensures
        r == cos_fx_s(x as int),
        -FX_ONE <= r <= FX_ONE,
{
    proof {
        reveal(cos_fx_s);
    }
    let rm: i64 = wrap_angle(x);
    let p: i64 = if rm < FX_QUARTER_TAU {
        cos_poly(rm)
    } else if rm < FX_THREE_QUARTER_TAU {
        -cos_poly(rm - FX_HALF_TAU)
    } else {
        cos_poly(rm - FX_TAU)
    };
    clamp_one(p)
}

/// A sine is a scalar of magnitude at most one.
pub broadcast proof fn lemma_sin_bounded(x: int)
    ensures
        -(FX_ONE as int) <= #[trigger] sin_fx_s(x) <= FX_ONE as int,
{
    reveal(sin_fx_s);
}

/// A cosine is a scalar of magnitude at most one.
pub broadcast proof fn lemma_cos_bounded(x: int)
    ensures
        -(FX_ONE as int) <= #[trigger] cos_fx_s(x) <= FX_ONE as int,
{
    reveal(cos_fx_s);
}

/// The sine of angle zero is exactly zero.
pub proof fn lemma_sin_zero()
    ensures
        sin_fx_s(0) == 0,
{
    reveal(sin_fx_s);
    let t = FX_TAU as int;
    assert(wrap_s(0) == 0) by {
        lemma_fundamental_div_mod_converse_mod(0, t, 0, 0);
    }
    crate::fixed::lemma_fx_mul_zero_l(0);
    let t2 = fx_mul_s(0, 0);
    let w156 = (FX_ONE as int) - tdiv(t2, 156);
    let w110 = poly_step_s(t2, w156, 110);
    let w72 = poly_step_s(t2, w110, 72);
    let w42 = poly_step_s(t2, w72, 42);
    let w20 = poly_step_s(t2, w42, 20);
    let w6 = poly_step_s(t2, w20, 6);
    crate::fixed::lemma_fx_mul_zero_l(w6);
    assert(sin_poly_s(0) == 0);
}

/// The cosine of angle zero is exactly one.
pub proof fn lemma_cos_zero()
    ensures
        cos_fx_s(0) == FX_ONE as int,
{
    reveal(cos_fx_s);
    let t = FX_TAU as int;
    assert(wrap_s(0) == 0) by {
        lemma_fundamental_div_mod_converse_mod(0, t, 0, 0);
    }
    crate::fixed::lemma_fx_mul_zero_l(0);
    let t2 = fx_mul_s(0, 0);
    let v132 = (FX_ONE as int) - tdiv(t2, 132);
    let v90 = poly_step_s(t2, v132, 90);
    let v56 = poly_step_s(t2, v90, 56);
    let v30 = poly_step_s(t2, v56, 30);
    let v12 = poly_step_s(t2, v30, 12);
    crate::fixed::lemma_fx_mul_zero_l(v12);
    assert(cos_poly_s(0) == FX_ONE as int);
}

} // verus!
