//! Fixed-point scalars: signed 64-bit integers carrying six decimal
//! places, together with the truncating arithmetic the controller uses.

use vstd::prelude::*;

verus! {

use vstd::arithmetic::div_mod::lemma_div_by_multiple;
use vstd::arithmetic::div_mod::lemma_div_is_ordered;
use vstd::arithmetic::div_mod::lemma_div_pos_is_pos;
use vstd::arithmetic::mul::lemma_mul_nonnegative;
use vstd::arithmetic::mul::lemma_mul_unary_negation;

/// Fixed-point units per whole unit: one unit is a millionth.
pub const SCALE: i64 = 1_000_000;

/// Largest magnitude the binary search in `isqrt` considers; its square
/// bounds the arguments `isqrt` accepts.
pub const ISQRT_MAX_ROOT: u64 = 40_000_000_000_000;

/// Division that rounds toward zero, the rounding rule of every
/// fixed-point operation in this crate; meaningful for `d > 0`.
pub open spec fn trunc_div(x: int, d: int) -> int {
    if x >= 0 {
        x / d
    } else {
        -((-x) / d)
    }
}

/// `x` pulled into the interval `[lo, hi]`.
pub open spec fn clamp_spec(x: int, lo: int, hi: int) -> int {
    if x < lo {
        lo
    } else if x > hi {
        hi
    } else {
        x
    }
}

/// Clamp a scalar into `[lo, hi]`.
pub fn clamp_fx(x: i64, lo: i64, hi: i64) -> (r: i64)
    requires
        lo <= hi,
    ensures
        r == clamp_spec(x as int, lo as int, hi as int),
{
    if x < lo {
        lo
    } else if x > hi {
        hi
    } else {
        x
    }
}

/// Magnitude of a scalar, widened so that `i64::MIN` is representable.
pub(crate) fn magnitude(a: i64) -> (r: u128)
    ensures
        r == (if a >= 0 { a as int } else { -(a as int) }),
{
    if a >= 0 {
        a as u128
    } else {
        (-(a as i128)) as u128
    }
}

/// Fixed-point product: `a * b / SCALE`, rounded toward zero.
pub fn mul_fx(a: i64, b: i64) -> (r: i64)
    requires
        -0x7fff_ffff_ffff_ffff <= trunc_div(a as int * b as int, SCALE as int)
            <= 0x7fff_ffff_ffff_ffff,
    ensures
        r == trunc_div(a as int * b as int, SCALE as int),
{
    let neg: bool = (a < 0) != (b < 0);
    let ma: u128 = magnitude(a);
    let mb: u128 = magnitude(b);
    proof {
        assert(ma * mb <= 0x8000_0000_0000_0000 * 0x8000_0000_0000_0000) by (nonlinear_arith)
            requires
                0 <= ma <= 0x8000_0000_0000_0000,
                0 <= mb <= 0x8000_0000_0000_0000;
    }
    let q: u128 = (ma * mb) / (SCALE as u128);
    proof {
        let p = a as int * b as int;
        assert(ma * mb == if p >= 0 { p } else { -p }) by (nonlinear_arith)
            requires
                ma == (if a >= 0 { a as int } else { -(a as int) }),
                mb == (if b >= 0 { b as int } else { -(b as int) }),
                p == a as int * b as int;
        if p >= 0 {
            assert(!neg || p == 0) by (nonlinear_arith)
                requires
                    p == a as int * b as int,
                    p >= 0,
                    neg == ((a < 0) != (b < 0));
        } else {
            assert(neg) by (nonlinear_arith)
                requires
                    p == a as int * b as int,
                    p < 0,
                    neg == ((a < 0) != (b < 0));
        }
    }
    if neg {
        (-(q as i128)) as i64
    } else {
        q as i64
    }
}

/// Truncating quotient of two scalars; the divisor must be positive.
pub fn div_trunc(a: i64, b: i64) -> (r: i64)
    requires
        b >= 1,
    ensures
        r == trunc_div(a as int, b as int),
{
    let ma: u128 = magnitude(a);
    let q: u128 = ma / (b as u128);
    proof {
        if a < 0 {
            lemma_div_is_ordered(ma as int, 0x8000_0000_0000_0000, b as int);
            lemma_div_is_ordered(0x8000_0000_0000_0000 as int, 0x8000_0000_0000_0000
                * b as int, b as int);
            assert(0x8000_0000_0000_0000 <= 0x8000_0000_0000_0000 * b) by (nonlinear_arith)
                requires
                    b >= 1;
            assert(0x8000_0000_0000_0000 * b as int / (b as int) == 0x8000_0000_0000_0000)
                by (nonlinear_arith)
                requires
                    b >= 1;
        } else {
            lemma_div_is_ordered(ma as int, 0x7fff_ffff_ffff_ffff, b as int);
            lemma_div_is_ordered(0x7fff_ffff_ffff_ffff as int, 0x7fff_ffff_ffff_ffff
                * b as int, b as int);
            assert(0x7fff_ffff_ffff_ffff <= 0x7fff_ffff_ffff_ffff * b) by (nonlinear_arith)
                requires
                    b >= 1;
            assert(0x7fff_ffff_ffff_ffff * b as int / (b as int) == 0x7fff_ffff_ffff_ffff)
                by (nonlinear_arith)
                requires
                    b >= 1;
        }
    }
    if a >= 0 {
        q as i64
    } else {
        (-(q as i128)) as i64
    }
}

/// Fixed-point quotient: `a * SCALE / b`, rounded toward zero; the
/// divisor must be positive and the result must fit in a scalar.
pub fn div_fx(a: i64, b: i64) -> (r: i64)
    requires
        b >= 1,
        -0x7fff_ffff_ffff_ffff <= trunc_div(a as int * SCALE as int, b as int)
            <= 0x7fff_ffff_ffff_ffff,
    ensures
        r == trunc_div(a as int * SCALE as int, b as int),
{
    let ma: u128 = magnitude(a);
    let q: u128 = (ma * (SCALE as u128)) / (b as u128);
    proof {
        let p = a as int * SCALE as int;
        assert(ma * (SCALE as int) == if p >= 0 { p } else { -p }) by (nonlinear_arith)
            requires
                ma == (if a >= 0 { a as int } else { -(a as int) }),
                p == a as int * SCALE as int,
                SCALE == 1_000_000;
        assert(p >= 0 <==> a >= 0) by (nonlinear_arith)
            requires
                p == a as int * SCALE as int,
                SCALE == 1_000_000;
    }
    if a >= 0 {
        q as i64
    } else {
        (-(q as i128)) as i64
    }
}

/// The product of values within `[-ma, ma]` and `[-mb, mb]` lies
/// within `[-(ma * mb), ma * mb]`.
pub proof fn lemma_mul_bounds(a: int, b: int, ma: int, mb: int)
    requires
        0 <= ma,
        0 <= mb,
        -ma <= a <= ma,
        -mb <= b <= mb,
    ensures
        -(ma * mb) <= a * b <= ma * mb,
{
    assert(-(ma * mb) <= a * b <= ma * mb) by (nonlinear_arith)
        requires
            0 <= ma,
            0 <= mb,
            -ma <= a <= ma,
            -mb <= b <= mb;
}

/// A truncating quotient lies within `[-(m / d), m / d]` whenever the
/// dividend lies within `[-m, m]`.
pub proof fn lemma_trunc_div_bounds(x: int, d: int, m: int)
    requires
        d >= 1,
        0 <= m,
        -m <= x <= m,
    ensures
        -(m / d) <= trunc_div(x, d) <= m / d,
{
    if x >= 0 {
        lemma_div_pos_is_pos(x, d);
        lemma_div_is_ordered(x, m, d);
    } else {
        lemma_div_pos_is_pos(-x, d);
        lemma_div_is_ordered(-x, m, d);
    }
}

/// Truncating division undoes multiplication by the same positive
/// divisor exactly.
pub proof fn lemma_trunc_div_exact(a: int, d: int)
    requires
        d >= 1,
    ensures
        trunc_div(a * d, d) == a,
{
    if a >= 0 {
        lemma_mul_nonnegative(a, d);
        lemma_div_by_multiple(a, d);
    } else {
        lemma_mul_unary_negation(a, d);
        lemma_mul_nonnegative(-a, d);
        lemma_div_by_multiple(-a, d);
        assert(a * d < 0) by (nonlinear_arith)
            requires
                a < 0,
                d >= 1;
    }
}

/// Holds when `r` is the integer square root of `n`, rounded down.
pub open spec fn is_floor_sqrt(n: int, r: int) -> bool {
    0 <= r && r * r <= n && n < (r + 1) * (r + 1)
}

/// The integer square root of `n`, rounded down (for `n >= 0`).
pub open spec fn sqrt_floor(n: int) -> int {
    choose|r: int| is_floor_sqrt(n, r)
}

/// A floor square root exists for every nonnegative integer.
pub proof fn lemma_floor_sqrt_exists(n: int)
    requires
        n >= 0,
    ensures
        is_floor_sqrt(n, sqrt_floor(n)),
    decreases n,
{
    if n == 0 {
        assert(is_floor_sqrt(0, 0));
    } else {
        lemma_floor_sqrt_exists(n - 1);
        let p = sqrt_floor(n - 1);
        if n < (p + 1) * (p + 1) {
            assert(is_floor_sqrt(n, p));
        } else {
            assert(n == (p + 1) * (p + 1));
            assert((p + 2) * (p + 2) > n) by (nonlinear_arith)
                requires
                    p >= 0,
                    n == (p + 1) * (p + 1);
            assert(is_floor_sqrt(n, p + 1));
        }
    }
}

/// The floor square root is unique: any witness equals `sqrt_floor(n)`.
pub proof fn lemma_floor_sqrt_unique(n: int, r: int)
    requires
        is_floor_sqrt(n, r),
    ensures
        sqrt_floor(n) == r,
{
    let s = sqrt_floor(n);
    assert(is_floor_sqrt(n, s)) by {
        assert(is_floor_sqrt(n, r));
    }
    if s < r {
        assert(false) by (nonlinear_arith)
            requires
                0 <= s < r,
                s * s <= n,
                n < (s + 1) * (s + 1),
                r * r <= n;
    } else if s > r {
        assert(false) by (nonlinear_arith)
            requires
                0 <= r < s,
                r * r <= n,
                n < (r + 1) * (r + 1),
                s * s <= n;
    }
}

/// `sqrt_floor(n) <= m` whenever `n <= m * m`.
pub proof fn lemma_floor_sqrt_le(n: int, m: int)
    requires
        0 <= n,
        0 <= m,
        n <= m * m,
    ensures
        sqrt_floor(n) <= m,
{
    lemma_floor_sqrt_exists(n);
    let s = sqrt_floor(n);
    if s > m {
        assert(false) by (nonlinear_arith)
            requires
                0 <= m < s,
                s * s <= n,
                n <= m * m;
    }
}

/// `sqrt_floor(n) >= m` whenever `m * m <= n`.
pub proof fn lemma_floor_sqrt_ge(n: int, m: int)
    requires
        0 <= m,
        m * m <= n,
    ensures
        sqrt_floor(n) >= m,
{
    lemma_floor_sqrt_exists(n);
    let s = sqrt_floor(n);
    if s < m {
        assert(false) by (nonlinear_arith)
            requires
                0 <= s < m,
                n < (s + 1) * (s + 1),
                m * m <= n;
    }
}

/// Integer square root, rounded down, by binary search.
pub fn isqrt(n: u128) -> (r: u64)
    requires
        n <= (ISQRT_MAX_ROOT as int) * (ISQRT_MAX_ROOT as int),
    ensures
        r as int == sqrt_floor(n as int),
        is_floor_sqrt(n as int, r as int),
        r <= ISQRT_MAX_ROOT,
{
    let mut lo: u64 = 0;
    let mut hi: u64 = ISQRT_MAX_ROOT;
    proof {
        assert((ISQRT_MAX_ROOT as int) * (ISQRT_MAX_ROOT as int)
            < (ISQRT_MAX_ROOT as int + 1) * (ISQRT_MAX_ROOT as int + 1)) by (nonlinear_arith);
    }
    while lo < hi
        invariant
            lo <= hi <= ISQRT_MAX_ROOT,
            (lo as int) * (lo as int) <= n as int,
            (n as int) < (hi as int + 1) * (hi as int + 1),
        decreases hi - lo,
    {
        let mid: u64 = lo + (hi - lo + 1) / 2;
        proof {
            assert((mid as int) * (mid as int)
                <= (ISQRT_MAX_ROOT as int) * (ISQRT_MAX_ROOT as int)) by (nonlinear_arith)
                requires
                    0 <= mid as int <= ISQRT_MAX_ROOT as int;
        }
        let sq: u128 = (mid as u128) * (mid as u128);
        if sq <= n {
            lo = mid;
        } else {
            hi = mid - 1;
        }
    }
    proof {
        lemma_floor_sqrt_unique(n as int, lo as int);
    }
    lo
}

} // verus!
