//! Two- and three-component fixed-point vectors, with mathematical
//! views over unbounded integers.

use vstd::prelude::*;

verus! {

use crate::fixed::SCALE;
use crate::fixed::div_fx;
use crate::fixed::isqrt;
use crate::fixed::lemma_floor_sqrt_ge;
use crate::fixed::lemma_trunc_div_bounds;
use crate::fixed::sqrt_floor;
use crate::fixed::trunc_div;

/// Largest per-tick delta magnitude the vector helpers accept, in
/// scalar units: one thousand whole units.
pub const DELTA_MAX: i64 = 1_000_000_000;

/// A planar fixed-point vector: pointer deltas and coast directions.
#[derive(Clone, Copy, PartialEq, Eq, Structural, Debug)]
pub struct Vec2Fx {
    pub x: i64,
    pub y: i64,
}

/// A spatial fixed-point vector: pivot points and camera axes.
#[derive(Clone, Copy, PartialEq, Eq, Structural, Debug)]
pub struct Vec3Fx {
    pub x: i64,
    pub y: i64,
    pub z: i64,
}

/// Mathematical view of a planar vector.
pub struct Vec2View {
    pub x: int,
    pub y: int,
}

/// Mathematical view of a spatial vector.
pub struct Vec3View {
    pub x: int,
    pub y: int,
    pub z: int,
}

impl View for Vec2Fx {
    type V = Vec2View;

    open spec fn view(&self) -> Vec2View {
        Vec2View { x: self.x as int, y: self.y as int }
    }
}

impl View for Vec3Fx {
    type V = Vec3View;

    open spec fn view(&self) -> Vec3View {
        Vec3View { x: self.x as int, y: self.y as int, z: self.z as int }
    }
}

impl Vec2View {
    /// Both components are zero.
    pub open spec fn is_zero(self) -> bool {
        self.x == 0 && self.y == 0
    }

    /// Both components lie within `[-m, m]`.
    pub open spec fn in_range(self, m: int) -> bool {
        -m <= self.x <= m && -m <= self.y <= m
    }
}

impl Vec3View {
    /// All three components lie within `[-m, m]`.
    pub open spec fn in_range(self, m: int) -> bool {
        -m <= self.x <= m && -m <= self.y <= m && -m <= self.z <= m
    }
}

impl Vec2Fx {
    /// The zero vector.
    pub fn zero() -> (v: Vec2Fx)
        ensures
            v@.is_zero(),
    {
        Vec2Fx { x: 0, y: 0 }
    }
}

impl Vec3Fx {
    /// The zero vector.
    pub fn zero() -> (v: Vec3Fx)
        ensures
            v@.x == 0,
            v@.y == 0,
            v@.z == 0,
    {
        Vec3Fx { x: 0, y: 0, z: 0 }
    }
}

/// The length of `v`, rounded down to whole fixed-point units.
pub open spec fn length_of(v: Vec2View) -> int {
    sqrt_floor(v.x * v.x + v.y * v.y)
}

/// `v` scaled to unit length, or the zero vector when `v` is zero.
pub open spec fn normalize_spec(v: Vec2View) -> Vec2View {
    if v.is_zero() {
        Vec2View { x: 0, y: 0 }
    } else {
        Vec2View {
            x: trunc_div(v.x * SCALE as int, length_of(v)),
            y: trunc_div(v.y * SCALE as int, length_of(v)),
        }
    }
}

/// A normalized vector never exceeds one scalar unit per component:
/// the floor length is at least as large as either component's
/// magnitude, so the scaled quotients stay within one unit.
pub proof fn lemma_normalize_spec_bounds(v: Vec2View)
    ensures
        normalize_spec(v).in_range(SCALE as int),
        v.is_zero() ==> normalize_spec(v).is_zero(),
{
    if !v.is_zero() {
        let n = v.x * v.x + v.y * v.y;
        let len = length_of(v);
        let mx = if v.x >= 0 { v.x } else { -v.x };
        let my = if v.y >= 0 { v.y } else { -v.y };
        assert(mx * mx <= n && my * my <= n && 1 <= n) by (nonlinear_arith)
            requires
                n == v.x * v.x + v.y * v.y,
                mx == (if v.x >= 0 { v.x } else { -v.x }),
                my == (if v.y >= 0 { v.y } else { -v.y }),
                !(v.x == 0 && v.y == 0);
        lemma_floor_sqrt_ge(n, mx);
        lemma_floor_sqrt_ge(n, my);
        lemma_floor_sqrt_ge(n, 1);
        assert(-(len * SCALE as int) <= v.x * SCALE as int <= len * SCALE as int
            && -(len * SCALE as int) <= v.y * SCALE as int <= len * SCALE as int
            && 0 <= len * SCALE as int) by (nonlinear_arith)
            requires
                mx <= len,
                my <= len,
                mx == (if v.x >= 0 { v.x } else { -v.x }),
                my == (if v.y >= 0 { v.y } else { -v.y }),
                SCALE == 1_000_000;
        assert(len * SCALE as int / len == SCALE as int) by (nonlinear_arith)
            requires
                len >= 1,
                SCALE == 1_000_000;
        lemma_trunc_div_bounds(v.x * SCALE as int, len, len * SCALE as int);
        lemma_trunc_div_bounds(v.y * SCALE as int, len, len * SCALE as int);
    }
}

/// Scale `v` to unit length, or return the zero vector when `v` is
/// zero; each resulting component lies within one scalar unit.
pub fn normalize_or_zero(v: Vec2Fx) -> (r: Vec2Fx)
    requires
        v@.in_range(DELTA_MAX as int),
    ensures
        r@ == normalize_spec(v@),
        r@.in_range(SCALE as int),
{
    if v.x == 0 && v.y == 0 {
        return Vec2Fx { x: 0, y: 0 };
    }
    proof {
        assert(0 <= v.x as int * v.x as int <= 1_000_000_000_000_000_000
            && 0 <= v.y as int * v.y as int <= 1_000_000_000_000_000_000) by (nonlinear_arith)
            requires
                -1_000_000_000 <= v.x as int <= 1_000_000_000,
                -1_000_000_000 <= v.y as int <= 1_000_000_000;
    }
    let xx: i128 = (v.x as i128) * (v.x as i128);
    let yy: i128 = (v.y as i128) * (v.y as i128);
    let n: u128 = (xx + yy) as u128;
    proof {
        assert((crate::fixed::ISQRT_MAX_ROOT as int) * (crate::fixed::ISQRT_MAX_ROOT as int)
            >= 2_000_000_000_000_000_000) by (nonlinear_arith);
    }
    let len: u64 = isqrt(n);
    proof {
        let xi = v.x as int;
        let yi = v.y as int;
        let mx = if xi >= 0 { xi } else { -xi };
        let my = if yi >= 0 { yi } else { -yi };
        assert(mx * mx <= n as int && my * my <= n as int && 1 <= n as int) by (nonlinear_arith)
            requires
                n as int == xi * xi + yi * yi,
                mx == (if xi >= 0 { xi } else { -xi }),
                my == (if yi >= 0 { yi } else { -yi }),
                !(xi == 0 && yi == 0);
        lemma_floor_sqrt_ge(n as int, mx);
        lemma_floor_sqrt_ge(n as int, my);
        lemma_floor_sqrt_ge(n as int, 1);
        assert(-(len as int * SCALE as int) <= xi * SCALE as int <= len as int * SCALE as int
            && -(len as int * SCALE as int) <= yi * SCALE as int <= len as int * SCALE as int)
            by (nonlinear_arith)
            requires
                mx <= len as int,
                my <= len as int,
                mx == (if xi >= 0 { xi } else { -xi }),
                my == (if yi >= 0 { yi } else { -yi }),
                SCALE == 1_000_000;
        assert(len as int * SCALE as int / (len as int) == SCALE as int) by (nonlinear_arith)
            requires
                len as int >= 1,
                SCALE == 1_000_000;
        lemma_trunc_div_bounds(xi * SCALE as int, len as int, len as int * SCALE as int);
        lemma_trunc_div_bounds(yi * SCALE as int, len as int, len as int * SCALE as int);
    }
    let rx: i64 = div_fx(v.x, len as i64);
    let ry: i64 = div_fx(v.y, len as i64);
    Vec2Fx { x: rx, y: ry }
}

} // verus!
