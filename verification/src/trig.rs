//! Fixed-point sine and cosine.
//!
//! Angles are scalars in micro-radians.  An angle is first reduced into
//! one turn, then folded into the quarter-turn around zero, where a
//! degree-nine (sine) or degree-eight (cosine) Taylor polynomial is
//! evaluated in fixed point.  The result is clamped into one scalar
//! unit, and every step is mirrored exactly by a specification
//! function, so callers reason about the same truncated arithmetic the
//! code performs.

use vstd::prelude::*;

verus! {

use vstd::arithmetic::div_mod::lemma_div_is_ordered;
use vstd::arithmetic::div_mod::lemma_div_of0;
use vstd::arithmetic::div_mod::lemma_div_pos_is_pos;
use vstd::arithmetic::div_mod::lemma_fundamental_div_mod;
use vstd::arithmetic::div_mod::lemma_fundamental_div_mod_converse_mod;
use vstd::arithmetic::mul::lemma_mul_basics;
use crate::fixed::SCALE;
use crate::fixed::clamp_fx;
use crate::fixed::clamp_spec;
use crate::fixed::div_trunc;
use crate::fixed::lemma_trunc_div_bounds;
use crate::fixed::magnitude;
use crate::fixed::mul_fx;
use crate::fixed::trunc_div;

/// A quarter turn in micro-radians.
pub const HALF_PI_FX: i64 = 1_570_796;

/// A half turn in micro-radians.
pub const PI_FX: i64 = 3_141_593;

/// Three quarter turns in micro-radians.
pub const PI_PLUS_HALF_FX: i64 = 4_712_389;

/// A full turn in micro-radians.
pub const TWO_PI_FX: i64 = 6_283_185;

/// Largest magnitude the polynomial kernels accept: a quarter turn
/// plus the slack the quadrant fold introduces.
pub const QUARTER_FOLD_MAX: i64 = 1_570_797;

/// The sine kernel on the folded quarter turn: the odd Taylor
/// polynomial through degree nine, evaluated in truncating fixed point
/// and clamped into one unit.
pub open spec fn sin_poly_spec(t: int) -> int {
    let x2 = trunc_div(t * t, SCALE as int);
    let u1 = SCALE - trunc_div(x2, 72);
    let u2 = SCALE - trunc_div(trunc_div(x2 * u1, SCALE as int), 42);
    let u3 = SCALE - trunc_div(trunc_div(x2 * u2, SCALE as int), 20);
    let u4 = SCALE - trunc_div(trunc_div(x2 * u3, SCALE as int), 6);
    clamp_spec(trunc_div(t * u4, SCALE as int), -SCALE as int, SCALE as int)
}

/// The cosine kernel on the folded quarter turn: the even Taylor
/// polynomial through degree eight, evaluated in truncating fixed point
/// and clamped into one unit.
pub open spec fn cos_poly_spec(t: int) -> int {
    let x2 = trunc_div(t * t, SCALE as int);
    let v1 = SCALE - trunc_div(x2, 56);
    let v2 = SCALE - trunc_div(trunc_div(x2 * v1, SCALE as int), 30);
    let v3 = SCALE - trunc_div(trunc_div(x2 * v2, SCALE as int), 12);
    clamp_spec(SCALE - trunc_div(trunc_div(x2 * v3, SCALE as int), 2), -SCALE as int, SCALE as int)
}

/// Sine on one reduced turn `[0, TWO_PI_FX)`, folded into the quarter
/// turn around zero.
pub open spec fn sin_reduced_spec(r: int) -> int {
    if r <= HALF_PI_FX {
        sin_poly_spec(r)
    } else if r <= PI_PLUS_HALF_FX {
        sin_poly_spec(PI_FX - r)
    } else {
        sin_poly_spec(r - TWO_PI_FX)
    }
}

/// Cosine on one reduced turn `[0, TWO_PI_FX)`, folded into the
/// quarter turn around zero.
pub open spec fn cos_reduced_spec(r: int) -> int {
    if r <= HALF_PI_FX {
        cos_poly_spec(r)
    } else if r <= PI_PLUS_HALF_FX {
        -cos_poly_spec(PI_FX - r)
    } else {
        cos_poly_spec(r - TWO_PI_FX)
    }
}

/// Sine of an angle in micro-radians.
pub open spec fn sin_fx_spec(a: int) -> int {
    sin_reduced_spec(a % (TWO_PI_FX as int))
}

/// Cosine of an angle in micro-radians.
pub open spec fn cos_fx_spec(a: int) -> int {
    cos_reduced_spec(a % (TWO_PI_FX as int))
}

/// One Horner step of the Taylor kernels:
/// `SCALE - ((x2 * u) / SCALE) / d`.
fn poly_term(x2: i64, u: i64, d: i64) -> (r: i64)
    requires
        0 <= x2 <= 2_500_000,
        0 <= u <= SCALE,
        1 <= d <= 100,
    ensures
        r == SCALE - trunc_div(trunc_div(x2 as int * u as int, SCALE as int), d as int),
        SCALE - 2_500_000int / (d as int) <= r <= SCALE,
{
    proof {
        assert(0 <= x2 as int * u as int <= 2_500_000int * 1_000_000) by (nonlinear_arith)
            requires
                0 <= x2 <= 2_500_000,
                0 <= u as int <= 1_000_000;
    }
    let w: i64 = mul_fx(x2, u);
    proof {
        lemma_trunc_div_bounds(x2 as int * u as int, SCALE as int, 2_500_000int * 1_000_000);
        lemma_div_pos_is_pos(x2 as int * u as int, SCALE as int);
        lemma_div_is_ordered(w as int, 2_500_000, d as int);
        lemma_div_pos_is_pos(w as int, d as int);
    }
    let w2: i64 = div_trunc(w, d);
    SCALE - w2
}

/// The sine kernel on the folded quarter turn.
fn sin_poly(t: i64) -> (s: i64)
    requires
        -QUARTER_FOLD_MAX <= t <= QUARTER_FOLD_MAX,
    ensures
        s == sin_poly_spec(t as int),
        -SCALE <= s <= SCALE,
{
    proof {
        assert(0 <= t as int * t as int <= 1_570_797int * 1_570_797) by (nonlinear_arith)
            requires
                -1_570_797 <= t as int <= 1_570_797;
    }
    let x2: i64 = mul_fx(t, t);
    proof {
        lemma_div_pos_is_pos(t as int * t as int, SCALE as int);
        lemma_div_is_ordered(t as int * t as int, 1_570_797int * 1_570_797, SCALE as int);
        lemma_div_pos_is_pos(x2 as int, 72);
        lemma_div_is_ordered(x2 as int, 2_467_403, 72);
    }
    let u1: i64 = SCALE - div_trunc(x2, 72);
    let u2: i64 = poly_term(x2, u1, 42);
    let u3: i64 = poly_term(x2, u2, 20);
    let u4: i64 = poly_term(x2, u3, 6);
    proof {
        assert(-(1_570_797int * 1_000_000) <= t as int * u4 as int <= 1_570_797int * 1_000_000)
            by (nonlinear_arith)
            requires
                -1_570_797 <= t as int <= 1_570_797,
                0 <= u4 as int <= 1_000_000;
        lemma_trunc_div_bounds(t as int * u4 as int, SCALE as int, 1_570_797int * 1_000_000);
    }
    let s0: i64 = mul_fx(t, u4);
    clamp_fx(s0, -SCALE, SCALE)
}

/// The cosine kernel on the folded quarter turn.
fn cos_poly(t: i64) -> (c: i64)
    requires
        -QUARTER_FOLD_MAX <= t <= QUARTER_FOLD_MAX,
    ensures
        c == cos_poly_spec(t as int),
        -SCALE <= c <= SCALE,
{
    proof {
        assert(0 <= t as int * t as int <= 1_570_797int * 1_570_797) by (nonlinear_arith)
            requires
                -1_570_797 <= t as int <= 1_570_797;
    }
    let x2: i64 = mul_fx(t, t);
    proof {
        lemma_div_pos_is_pos(t as int * t as int, SCALE as int);
        lemma_div_is_ordered(t as int * t as int, 1_570_797int * 1_570_797, SCALE as int);
        lemma_div_pos_is_pos(x2 as int, 56);
        lemma_div_is_ordered(x2 as int, 2_467_403, 56);
    }
    let v1: i64 = SCALE - div_trunc(x2, 56);
    let v2: i64 = poly_term(x2, v1, 30);
    let v3: i64 = poly_term(x2, v2, 12);
    let c0: i64 = poly_term(x2, v3, 2);
    clamp_fx(c0, -SCALE, SCALE)
}

/// Reduce an angle into one turn: the Euclidean remainder modulo
/// `TWO_PI_FX`.
fn reduce(a: i64) -> (r: i64)
    ensures
        r as int == (a as int) % (TWO_PI_FX as int),
        0 <= r < TWO_PI_FX,
{
    let m: u128 = magnitude(a);
    let m2: u128 = m % (TWO_PI_FX as u128);
    proof {
        let mi = m as int;
        let tpi = TWO_PI_FX as int;
        lemma_fundamental_div_mod(mi, tpi);
        let q = mi / tpi;
        if a < 0 {
            if mi % tpi == 0 {
                assert(a as int == (-q) * tpi + 0) by (nonlinear_arith)
                    requires
                        mi == tpi * q + mi % tpi,
                        mi % tpi == 0,
                        a as int == -mi;
                lemma_fundamental_div_mod_converse_mod(a as int, tpi, -q, 0);
            } else {
                assert(a as int == (-q - 1) * tpi + (tpi - mi % tpi)) by (nonlinear_arith)
                    requires
                        mi == tpi * q + mi % tpi,
                        a as int == -mi;
                lemma_fundamental_div_mod_converse_mod(a as int, tpi, -q - 1, tpi - mi % tpi);
            }
        }
    }
    if a >= 0 {
        m2 as i64
    } else if m2 == 0 {
        0
    } else {
        TWO_PI_FX - (m2 as i64)
    }
}

/// Sine on one reduced turn.
fn sin_core(r: i64) -> (s: i64)
    requires
        0 <= r < TWO_PI_FX,
    ensures
        s == sin_reduced_spec(r as int),
        -SCALE <= s <= SCALE,
{
    if r <= HALF_PI_FX {
        sin_poly(r)
    } else if r <= PI_PLUS_HALF_FX {
        sin_poly(PI_FX - r)
    } else {
        sin_poly(r - TWO_PI_FX)
    }
}

/// Cosine on one reduced turn.
fn cos_core(r: i64) -> (c: i64)
    requires
        0 <= r < TWO_PI_FX,
    ensures
        c == cos_reduced_spec(r as int),
        -SCALE <= c <= SCALE,
{
    if r <= HALF_PI_FX {
        cos_poly(r)
    } else if r <= PI_PLUS_HALF_FX {
        -cos_poly(PI_FX - r)
    } else {
        cos_poly(r - TWO_PI_FX)
    }
}

/// Sine of an angle in micro-radians, in scalar units.
pub fn sin_fx(a: i64) -> (s: i64)
    ensures
        s == sin_fx_spec(a as int),
        -SCALE <= s <= SCALE,
{
    let r: i64 = reduce(a);
    sin_core(r)
}

/// Cosine of an angle in micro-radians, in scalar units.
pub fn cos_fx(a: i64) -> (c: i64)
    ensures
        c == cos_fx_spec(a as int),
        -SCALE <= c <= SCALE,
{
    let r: i64 = reduce(a);
    cos_core(r)
}

/// The fixed-point sine is exactly zero at angle zero.
pub proof fn lemma_sin_fx_spec_zero()
    ensures
        sin_fx_spec(0) == 0,
{
    assert(0int % (TWO_PI_FX as int) == 0) by (nonlinear_arith);
    lemma_div_of0(SCALE as int);
    lemma_div_of0(72);
    lemma_div_of0(42);
    lemma_div_of0(20);
    lemma_div_of0(6);
    assert(sin_poly_spec(0) == 0);
}

/// The fixed-point cosine is exactly one scalar unit at angle zero.
pub proof fn lemma_cos_fx_spec_one()
    ensures
        cos_fx_spec(0) == SCALE,
{
    assert(0int % (TWO_PI_FX as int) == 0) by (nonlinear_arith);
    let s = SCALE as int;
    lemma_div_of0(s);
    lemma_div_of0(56);
    lemma_div_of0(30);
    lemma_div_of0(12);
    lemma_div_of0(2);
    let x2 = trunc_div(0int * 0, s);
    assert(x2 == 0);
    let v1 = SCALE - trunc_div(x2, 56);
    lemma_mul_basics(v1);
    let v2 = SCALE - trunc_div(trunc_div(x2 * v1, s), 30);
    lemma_mul_basics(v2);
    let v3 = SCALE - trunc_div(trunc_div(x2 * v2, s), 12);
    lemma_mul_basics(v3);
    assert(trunc_div(trunc_div(x2 * v3, s), 2) == 0);
    assert(cos_poly_spec(0) == SCALE);
}

/// Both kernels, and hence both trigonometric functions, stay within
/// one scalar unit.
pub proof fn lemma_trig_spec_bounds(a: int)
    ensures
        -SCALE <= sin_fx_spec(a) <= SCALE,
        -SCALE <= cos_fx_spec(a) <= SCALE,
{
}

} // verus!
