//! Fixed-point vectors and 4x4 matrices.
//!
//! Executable values hold `i64` fixed-point components; their views are
//! ghost records with unbounded integer components, and every operation's
//! contract states the result as a spec-level formula over the view.

use vstd::prelude::*;
use crate::fixed::{FX, fxi, fxmul_s, fx_mul, fx_div};
use crate::trig::isqrt_s;

verus! {

/// Ghost view of a 3-vector.
pub ghost struct V3 {
    pub x: int,
    pub y: int,
    pub z: int,
}

/// Ghost view of a 2-vector.
pub ghost struct V2 {
    pub x: int,
    pub y: int,
}

/// Ghost view of a 4-vector.
pub ghost struct V4 {
    pub x: int,
    pub y: int,
    pub z: int,
    pub w: int,
}

/// Ghost view of a 4x4 matrix, by rows.
pub ghost struct M4 {
    pub r0: V4,
    pub r1: V4,
    pub r2: V4,
    pub r3: V4,
}

/// A fixed-point 3-vector.
#[derive(Clone, Copy, Debug, PartialEq, Eq, Structural)]
pub struct Vec3Fx {
    pub x: i64,
    pub y: i64,
    pub z: i64,
}

/// A fixed-point 2-vector.
#[derive(Clone, Copy, Debug, PartialEq, Eq, Structural)]
pub struct Vec2Fx {
    pub x: i64,
    pub y: i64,
}

/// A fixed-point 4-vector.
#[derive(Clone, Copy, Debug, PartialEq, Eq, Structural)]
pub struct Vec4Fx {
    pub x: i64,
    pub y: i64,
    pub z: i64,
    pub w: i64,
}

/// A fixed-point 4x4 matrix, by rows.
#[derive(Clone, Copy, Debug, PartialEq, Eq, Structural)]
pub struct Mat4Fx {
    pub r0: Vec4Fx,
    pub r1: Vec4Fx,
    pub r2: Vec4Fx,
    pub r3: Vec4Fx,
}

impl View for Vec3Fx {
    type V = V3;

    open spec fn view(&self) -> V3 {
        V3 { x: self.x as int, y: self.y as int, z: self.z as int }
    }
}

impl View for Vec2Fx {
    type V = V2;

    open spec fn view(&self) -> V2 {
        V2 { x: self.x as int, y: self.y as int }
    }
}

impl View for Vec4Fx {
    type V = V4;

    open spec fn view(&self) -> V4 {
        V4 { x: self.x as int, y: self.y as int, z: self.z as int, w: self.w as int }
    }
}

impl View for Mat4Fx {
    type V = M4;

    open spec fn view(&self) -> M4 {
        M4 { r0: self.r0@, r1: self.r1@, r2: self.r2@, r3: self.r3@ }
    }
}

/// All components within `[-c, c]`.
pub open spec fn v3_bounded(v: V3, c: int) -> bool {
    &&& -c <= v.x <= c
    &&& -c <= v.y <= c
    &&& -c <= v.z <= c
}

/// All components within `[-c, c]`.
pub open spec fn v4_bounded(v: V4, c: int) -> bool {
    &&& -c <= v.x <= c
    &&& -c <= v.y <= c
    &&& -c <= v.z <= c
    &&& -c <= v.w <= c
}

/// All entries within `[-c, c]`.
pub open spec fn m4_bounded(m: M4, c: int) -> bool {
    &&& v4_bounded(m.r0, c)
    &&& v4_bounded(m.r1, c)
    &&& v4_bounded(m.r2, c)
    &&& v4_bounded(m.r3, c)
}

pub open spec fn v3_add_s(a: V3, b: V3) -> V3 {
    V3 { x: a.x + b.x, y: a.y + b.y, z: a.z + b.z }
}

pub open spec fn v3_sub_s(a: V3, b: V3) -> V3 {
    V3 { x: a.x - b.x, y: a.y - b.y, z: a.z - b.z }
}

/// Scales a vector by a fixed-point factor.
pub open spec fn v3_scale_s(k: int, v: V3) -> V3 {
    V3 { x: fxmul_s(k, v.x), y: fxmul_s(k, v.y), z: fxmul_s(k, v.z) }
}

/// Fixed-point dot product (result at the same scale as the inputs).
pub open spec fn v3_dot_s(a: V3, b: V3) -> int {
    fxmul_s(a.x, b.x) + fxmul_s(a.y, b.y) + fxmul_s(a.z, b.z)
}

/// Fixed-point cross product.
pub open spec fn v3_cross_s(a: V3, b: V3) -> V3 {
    V3 {
        x: fxmul_s(a.y, b.z) - fxmul_s(a.z, b.y),
        y: fxmul_s(a.z, b.x) - fxmul_s(a.x, b.z),
        z: fxmul_s(a.x, b.y) - fxmul_s(a.y, b.x),
    }
}

/// Raw squared norm (at scale `FX^2`).
pub open spec fn v3_normsq_s(v: V3) -> int {
    v.x * v.x + v.y * v.y + v.z * v.z
}

/// Fixed-point normalization: the zero vector stays zero, any other vector
/// is scaled by `FX / |v|` using the integer square root of the squared norm.
pub open spec fn v3_normalize_s(v: V3) -> V3 {
    let n2 = v3_normsq_s(v);
    if n2 == 0 {
        V3 { x: 0, y: 0, z: 0 }
    } else {
        let norm = isqrt_s(n2);
        V3 {
            x: (v.x * fxi()) / norm,
            y: (v.y * fxi()) / norm,
            z: (v.z * fxi()) / norm,
        }
    }
}

impl Vec3Fx {
    /// Builds a vector from components.
    pub fn new(x: i64, y: i64, z: i64) -> (r: Vec3Fx)
        ensures
            r@ == (V3 { x: x as int, y: y as int, z: z as int }),
    {
        Vec3Fx { x, y, z }
    }

    /// The zero vector.
    pub fn zero() -> (r: Vec3Fx)
        ensures
            r@ == (V3 { x: 0, y: 0, z: 0 }),
    {
        Vec3Fx { x: 0, y: 0, z: 0 }
    }
}

/// Componentwise sum.
pub fn v3_add(a: Vec3Fx, b: Vec3Fx) -> (r: Vec3Fx)
    requires
        v3_bounded(a@, 0x2000_0000_0000_0000),
        v3_bounded(b@, 0x2000_0000_0000_0000),
    ensures
        r@ == v3_add_s(a@, b@),
{
    Vec3Fx { x: a.x + b.x, y: a.y + b.y, z: a.z + b.z }
}

/// Componentwise difference.
pub fn v3_sub(a: Vec3Fx, b: Vec3Fx) -> (r: Vec3Fx)
    requires
        v3_bounded(a@, 0x2000_0000_0000_0000),
        v3_bounded(b@, 0x2000_0000_0000_0000),
    ensures
        r@ == v3_sub_s(a@, b@),
{
    Vec3Fx { x: a.x - b.x, y: a.y - b.y, z: a.z - b.z }
}

/// Scales by a fixed-point factor.
pub fn v3_scale(k: i64, v: Vec3Fx) -> (r: Vec3Fx)
    requires
        -0x8000_0000 <= k <= 0x8000_0000,
        v3_bounded(v@, 0x8000_0000),
    ensures
        r@ == v3_scale_s(k as int, v@),
{
    proof {
        crate::fixed::lemma_mul_abs_bound(k as int, v.x as int, 0x8000_0000, 0x8000_0000);
        crate::fixed::lemma_mul_abs_bound(k as int, v.y as int, 0x8000_0000, 0x8000_0000);
        crate::fixed::lemma_mul_abs_bound(k as int, v.z as int, 0x8000_0000, 0x8000_0000);
    }
    Vec3Fx { x: fx_mul(k, v.x), y: fx_mul(k, v.y), z: fx_mul(k, v.z) }
}

/// Fixed-point dot product. The first argument must be small (a basis
/// vector), the second may be as large as a world position.
pub fn v3_dot(a: Vec3Fx, b: Vec3Fx) -> (r: i64)
    requires
        v3_bounded(a@, 0x4_0000),
        v3_bounded(b@, 0x1_0000_0000),
    ensures
        r == v3_dot_s(a@, b@),
        -0xc_0000_0000 <= r <= 0xc_0000_0000,
{
    proof {
        crate::fixed::lemma_fxmul_abs_bound(a.x as int, b.x as int, 0x4_0000, 0x1_0000_0000);
        crate::fixed::lemma_fxmul_abs_bound(a.y as int, b.y as int, 0x4_0000, 0x1_0000_0000);
        crate::fixed::lemma_fxmul_abs_bound(a.z as int, b.z as int, 0x4_0000, 0x1_0000_0000);
        assert(0x4_0000int * 0x1_0000_0000 / fxi() == 0x4_0000_0000) by {
            vstd::arithmetic::div_mod::lemma_div_multiples_vanish(0x4_0000_0000, fxi());
        }
    }
    fx_mul(a.x, b.x) + fx_mul(a.y, b.y) + fx_mul(a.z, b.z)
}

/// Fixed-point cross product of two near-unit vectors.
pub fn v3_cross(a: Vec3Fx, b: Vec3Fx) -> (r: Vec3Fx)
    requires
        v3_bounded(a@, 0x8_0000),
        v3_bounded(b@, 0x8_0000),
    ensures
        r@ == v3_cross_s(a@, b@),
        v3_bounded(r@, 0x80_0000),
        v3_bounded(a@, 0x1_0000) && v3_bounded(b@, 0x1_0000) ==> v3_bounded(r@, 0x2_0000),
{
    proof {
        if v3_bounded(a@, 0x1_0000) && v3_bounded(b@, 0x1_0000) {
            crate::fixed::lemma_fxmul_abs_bound(a.y as int, b.z as int, 0x1_0000, 0x1_0000);
            crate::fixed::lemma_fxmul_abs_bound(a.z as int, b.y as int, 0x1_0000, 0x1_0000);
            crate::fixed::lemma_fxmul_abs_bound(a.z as int, b.x as int, 0x1_0000, 0x1_0000);
            crate::fixed::lemma_fxmul_abs_bound(a.x as int, b.z as int, 0x1_0000, 0x1_0000);
            crate::fixed::lemma_fxmul_abs_bound(a.x as int, b.y as int, 0x1_0000, 0x1_0000);
            crate::fixed::lemma_fxmul_abs_bound(a.y as int, b.x as int, 0x1_0000, 0x1_0000);
            assert(0x1_0000int * 0x1_0000 / fxi() == 0x1_0000) by {
                vstd::arithmetic::div_mod::lemma_div_multiples_vanish(0x1_0000, fxi());
            }
        }
        crate::fixed::lemma_fxmul_abs_bound(a.y as int, b.z as int, 0x8_0000, 0x8_0000);
        crate::fixed::lemma_fxmul_abs_bound(a.z as int, b.y as int, 0x8_0000, 0x8_0000);
        crate::fixed::lemma_fxmul_abs_bound(a.z as int, b.x as int, 0x8_0000, 0x8_0000);
        crate::fixed::lemma_fxmul_abs_bound(a.x as int, b.z as int, 0x8_0000, 0x8_0000);
        crate::fixed::lemma_fxmul_abs_bound(a.x as int, b.y as int, 0x8_0000, 0x8_0000);
        crate::fixed::lemma_fxmul_abs_bound(a.y as int, b.x as int, 0x8_0000, 0x8_0000);
        assert(0x8_0000int * 0x8_0000 / fxi() == 0x40_0000) by {
            assert(0x8_0000int * 0x8_0000 == 65536int * 0x40_0000);
            vstd::arithmetic::div_mod::lemma_div_multiples_vanish(0x40_0000, 65536);
        }
    }
    Vec3Fx {
        x: fx_mul(a.y, b.z) - fx_mul(a.z, b.y),
        y: fx_mul(a.z, b.x) - fx_mul(a.x, b.z),
        z: fx_mul(a.x, b.y) - fx_mul(a.y, b.x),
    }
}

/// Components of a vector are bounded by its norm.
proof fn lemma_component_le_norm(c: int, n2: int, norm: int)
    requires
        c * c <= n2,
        norm >= 0,
        n2 < (norm + 1) * (norm + 1),
    ensures
        -norm <= c <= norm,
{
    assert(-norm <= c <= norm) by (nonlinear_arith)
        requires c * c <= n2, norm >= 0, n2 < (norm + 1) * (norm + 1),
    {}
}

/// Normalizes a vector to (near) unit length; the zero vector is returned
/// unchanged. Every component of the result lies within `[-FX, FX]`.
pub fn v3_normalize(v: Vec3Fx) -> (r: Vec3Fx)
    requires
        v3_bounded(v@, 0x80_0000),
    ensures
        r@ == v3_normalize_s(v@),
        v3_bounded(r@, 65536),
{
    proof {
        crate::fixed::lemma_mul_abs_bound(v.x as int, v.x as int, 0x80_0000, 0x80_0000);
        crate::fixed::lemma_mul_abs_bound(v.y as int, v.y as int, 0x80_0000, 0x80_0000);
        crate::fixed::lemma_mul_abs_bound(v.z as int, v.z as int, 0x80_0000, 0x80_0000);
        assert(v.x * v.x >= 0 && v.y * v.y >= 0 && v.z * v.z >= 0) by (nonlinear_arith) {}
    }
    let n2: i64 = v.x * v.x + v.y * v.y + v.z * v.z;
    if n2 == 0 {
        Vec3Fx { x: 0, y: 0, z: 0 }
    } else {
        let nq: u64 = crate::trig::isqrt64(n2 as u64);
        proof {
            crate::trig::lemma_isqrt_bracket(n2 as int);
            assert(nq <= 0x1000_0000) by (nonlinear_arith)
                requires
                    nq * nq <= n2,
                    0 < n2 <= 3 * 0x80_0000 * 0x80_0000,
            {}
            assert(nq >= 1) by {
                if isqrt_s(n2 as int) == 0 {
                    assert(n2 < (0 + 1) * (0 + 1));
                }
            }
        }
        let norm: i64 = nq as i64;
        let rx = norm_div(v.x, norm);
        let ry = norm_div(v.y, norm);
        let rz = norm_div(v.z, norm);
        proof {
            let nv = v@;
            let nn = v3_normsq_s(nv);
            lemma_component_le_norm(nv.x, nn, norm as int);
            lemma_component_le_norm(nv.y, nn, norm as int);
            lemma_component_le_norm(nv.z, nn, norm as int);
            lemma_norm_div_bound(nv.x, norm as int);
            lemma_norm_div_bound(nv.y, norm as int);
            lemma_norm_div_bound(nv.z, norm as int);
        }
        Vec3Fx { x: rx, y: ry, z: rz }
    }
}

/// `(c * FX) / norm` stays within `[-FX, FX]` when `|c| <= norm`.
proof fn lemma_norm_div_bound(c: int, norm: int)
    requires
        norm >= 1,
        -norm <= c <= norm,
    ensures
        -fxi() <= (c * fxi()) / norm <= fxi(),
{
    assert(-(norm * fxi()) <= c * fxi() <= norm * fxi()) by (nonlinear_arith)
        requires norm >= 1, -norm <= c <= norm,
    {}
    vstd::arithmetic::div_mod::lemma_div_is_ordered(c * fxi(), norm * fxi(), norm);
    vstd::arithmetic::div_mod::lemma_div_is_ordered(-(norm * fxi()), c * fxi(), norm);
    assert((norm * fxi()) / norm == fxi()) by {
        vstd::arithmetic::div_mod::lemma_div_multiples_vanish(fxi(), norm);
    }
    assert((-(norm * fxi())) / norm == -fxi()) by {
        vstd::arithmetic::div_mod::lemma_div_multiples_vanish(-fxi(), norm);
    }
}

/// One normalized component: `(c * FX) / norm`.
fn norm_div(c: i64, norm: i64) -> (r: i64)
    requires
        1 <= norm <= 0x1_0000_0000,
        -0x2000_0000_0000 <= c <= 0x2000_0000_0000,
    ensures
        r == (c as int * fxi()) / norm as int,
{
    fx_div(c * FX, norm)
}


/// Rotation of a 2-vector by an angle (spec).
pub open spec fn v2_rotate_s(v: V2, ang: int) -> V2 {
    let s = crate::trig::sin_s(ang);
    let c = crate::trig::cos_s(ang);
    V2 {
        x: fxmul_s(v.x, c) - fxmul_s(v.y, s),
        y: fxmul_s(v.x, s) + fxmul_s(v.y, c),
    }
}

/// Fixed-point normalization of a 2-vector (spec).
pub open spec fn v2_normalize_s(v: V2) -> V2 {
    let n2 = v.x * v.x + v.y * v.y;
    if n2 == 0 {
        V2 { x: 0, y: 0 }
    } else {
        let norm = isqrt_s(n2);
        V2 { x: (v.x * fxi()) / norm, y: (v.y * fxi()) / norm }
    }
}

/// Rotates a near-unit 2-vector by an angle in fixed-point degrees.
pub fn v2_rotate(v: Vec2Fx, ang: i64) -> (r: Vec2Fx)
    requires
        -0x4_0000_0000_0000 <= ang <= 0x4_0000_0000_0000,
        -0x2_0000 <= v.x <= 0x2_0000,
        -0x2_0000 <= v.y <= 0x2_0000,
    ensures
        r@ == v2_rotate_s(v@, ang as int),
{
    let sc = crate::trig::sincos(ang);
    proof {
        crate::fixed::lemma_mul_abs_bound(v.x as int, sc.1 as int, 0x2_0000, 0x1_0000);
        crate::fixed::lemma_mul_abs_bound(v.y as int, sc.0 as int, 0x2_0000, 0x1_0000);
        crate::fixed::lemma_mul_abs_bound(v.x as int, sc.0 as int, 0x2_0000, 0x1_0000);
        crate::fixed::lemma_mul_abs_bound(v.y as int, sc.1 as int, 0x2_0000, 0x1_0000);
        crate::fixed::lemma_fxmul_abs_bound(v.x as int, sc.1 as int, 0x2_0000, 0x1_0000);
        crate::fixed::lemma_fxmul_abs_bound(v.y as int, sc.0 as int, 0x2_0000, 0x1_0000);
        crate::fixed::lemma_fxmul_abs_bound(v.x as int, sc.0 as int, 0x2_0000, 0x1_0000);
        crate::fixed::lemma_fxmul_abs_bound(v.y as int, sc.1 as int, 0x2_0000, 0x1_0000);
        assert(0x2_0000int * 0x1_0000 / fxi() == 0x2_0000) by {
            vstd::arithmetic::div_mod::lemma_div_multiples_vanish(0x2_0000, fxi());
        }
    }
    Vec2Fx {
        x: fx_mul(v.x, sc.1) - fx_mul(v.y, sc.0),
        y: fx_mul(v.x, sc.0) + fx_mul(v.y, sc.1),
    }
}

/// Normalizes a 2-vector; the zero vector stays zero, and every component
/// of the result lies within `[-FX, FX]`.
pub fn v2_normalize(v: Vec2Fx) -> (r: Vec2Fx)
    requires
        -0x20_0000 <= v.x <= 0x20_0000,
        -0x20_0000 <= v.y <= 0x20_0000,
    ensures
        r@ == v2_normalize_s(v@),
        -65536 <= r.x <= 65536,
        -65536 <= r.y <= 65536,
{
    proof {
        crate::fixed::lemma_mul_abs_bound(v.x as int, v.x as int, 0x20_0000, 0x20_0000);
        crate::fixed::lemma_mul_abs_bound(v.y as int, v.y as int, 0x20_0000, 0x20_0000);
        assert(v.x * v.x >= 0 && v.y * v.y >= 0) by (nonlinear_arith) {}
    }
    let n2: i64 = v.x * v.x + v.y * v.y;
    if n2 == 0 {
        Vec2Fx { x: 0, y: 0 }
    } else {
        let nq: u64 = crate::trig::isqrt64(n2 as u64);
        proof {
            crate::trig::lemma_isqrt_bracket(n2 as int);
            assert(nq <= 0x40_0000) by (nonlinear_arith)
                requires
                    nq * nq <= n2,
                    0 < n2 <= 2 * 0x20_0000 * 0x20_0000,
            {}
            assert(nq >= 1) by {
                if isqrt_s(n2 as int) == 0 {
                    assert(n2 < (0 + 1) * (0 + 1));
                }
            }
        }
        let norm: i64 = nq as i64;
        let rx = norm_div(v.x, norm);
        let ry = norm_div(v.y, norm);
        proof {
            let nn = v.x * v.x + v.y * v.y;
            lemma_component_le_norm(v.x as int, nn as int, norm as int);
            lemma_component_le_norm(v.y as int, nn as int, norm as int);
            lemma_norm_div_bound(v.x as int, norm as int);
            lemma_norm_div_bound(v.y as int, norm as int);
        }
        Vec2Fx { x: rx, y: ry }
    }
}

/// Fixed-point dot product of two 4-vectors (spec).
pub open spec fn v4_dot_s(a: V4, b: V4) -> int {
    fxmul_s(a.x, b.x) + fxmul_s(a.y, b.y) + fxmul_s(a.z, b.z) + fxmul_s(a.w, b.w)
}

/// Column `j` of a matrix, as a 4-vector (spec).
pub open spec fn m4_col0_s(m: M4) -> V4 {
    V4 { x: m.r0.x, y: m.r1.x, z: m.r2.x, w: m.r3.x }
}

pub open spec fn m4_col1_s(m: M4) -> V4 {
    V4 { x: m.r0.y, y: m.r1.y, z: m.r2.y, w: m.r3.y }
}

pub open spec fn m4_col2_s(m: M4) -> V4 {
    V4 { x: m.r0.z, y: m.r1.z, z: m.r2.z, w: m.r3.z }
}

pub open spec fn m4_col3_s(m: M4) -> V4 {
    V4 { x: m.r0.w, y: m.r1.w, z: m.r2.w, w: m.r3.w }
}

/// Fixed-point matrix product (spec): entry `(i, j)` is the fixed-point dot
/// product of row `i` of `a` with column `j` of `b`.
pub open spec fn m4_mul_s(a: M4, b: M4) -> M4 {
    M4 {
        r0: V4 {
            x: v4_dot_s(a.r0, m4_col0_s(b)),
            y: v4_dot_s(a.r0, m4_col1_s(b)),
            z: v4_dot_s(a.r0, m4_col2_s(b)),
            w: v4_dot_s(a.r0, m4_col3_s(b)),
        },
        r1: V4 {
            x: v4_dot_s(a.r1, m4_col0_s(b)),
            y: v4_dot_s(a.r1, m4_col1_s(b)),
            z: v4_dot_s(a.r1, m4_col2_s(b)),
            w: v4_dot_s(a.r1, m4_col3_s(b)),
        },
        r2: V4 {
            x: v4_dot_s(a.r2, m4_col0_s(b)),
            y: v4_dot_s(a.r2, m4_col1_s(b)),
            z: v4_dot_s(a.r2, m4_col2_s(b)),
            w: v4_dot_s(a.r2, m4_col3_s(b)),
        },
        r3: V4 {
            x: v4_dot_s(a.r3, m4_col0_s(b)),
            y: v4_dot_s(a.r3, m4_col1_s(b)),
            z: v4_dot_s(a.r3, m4_col2_s(b)),
            w: v4_dot_s(a.r3, m4_col3_s(b)),
        },
    }
}

/// The identity matrix (spec): ones are `FX`.
pub open spec fn m4_identity_s() -> M4 {
    M4 {
        r0: V4 { x: fxi(), y: 0, z: 0, w: 0 },
        r1: V4 { x: 0, y: fxi(), z: 0, w: 0 },
        r2: V4 { x: 0, y: 0, z: fxi(), w: 0 },
        r3: V4 { x: 0, y: 0, z: 0, w: fxi() },
    }
}

impl Mat4Fx {
    /// The identity matrix.
    pub fn identity() -> (r: Mat4Fx)
        ensures
            r@ == m4_identity_s(),
            m4_bounded(r@, 65536),
    {
        Mat4Fx {
            r0: Vec4Fx { x: FX, y: 0, z: 0, w: 0 },
            r1: Vec4Fx { x: 0, y: FX, z: 0, w: 0 },
            r2: Vec4Fx { x: 0, y: 0, z: FX, w: 0 },
            r3: Vec4Fx { x: 0, y: 0, z: 0, w: FX },
        }
    }
}

/// Fixed-point dot product of a (possibly large) projection row with a
/// view-matrix column.
pub fn v4_dot(a: Vec4Fx, b: Vec4Fx) -> (r: i64)
    requires
        v4_bounded(a@, 0x80_0000_0000),
        v4_bounded(b@, 0x10_0000_0000),
    ensures
        r == v4_dot_s(a@, b@),
{
    proof {
        crate::fixed::lemma_fxmul_abs_bound(a.x as int, b.x as int, 0x80_0000_0000, 0x10_0000_0000);
        crate::fixed::lemma_fxmul_abs_bound(a.y as int, b.y as int, 0x80_0000_0000, 0x10_0000_0000);
        crate::fixed::lemma_fxmul_abs_bound(a.z as int, b.z as int, 0x80_0000_0000, 0x10_0000_0000);
        crate::fixed::lemma_fxmul_abs_bound(a.w as int, b.w as int, 0x80_0000_0000, 0x10_0000_0000);
        assert(0x80_0000_0000int * 0x10_0000_0000 / fxi() == 0x800_0000_0000_0000) by {
            assert(0x80_0000_0000int * 0x10_0000_0000 == 65536int * 0x800_0000_0000_0000);
            vstd::arithmetic::div_mod::lemma_div_multiples_vanish(0x800_0000_0000_0000, 65536);
        }
    }
    fx_mul(a.x, b.x) + fx_mul(a.y, b.y) + fx_mul(a.z, b.z) + fx_mul(a.w, b.w)
}

/// Fixed-point matrix product of a projection matrix (entries up to `2^39`)
/// with a view matrix (entries up to `2^36`).
pub fn m4_mul(a: &Mat4Fx, b: &Mat4Fx) -> (r: Mat4Fx)
    requires
        m4_bounded(a@, 0x80_0000_0000),
        m4_bounded(b@, 0x10_0000_0000),
    ensures
        r@ == m4_mul_s(a@, b@),
{
    let c0 = Vec4Fx { x: b.r0.x, y: b.r1.x, z: b.r2.x, w: b.r3.x };
    let c1 = Vec4Fx { x: b.r0.y, y: b.r1.y, z: b.r2.y, w: b.r3.y };
    let c2 = Vec4Fx { x: b.r0.z, y: b.r1.z, z: b.r2.z, w: b.r3.z };
    let c3 = Vec4Fx { x: b.r0.w, y: b.r1.w, z: b.r2.w, w: b.r3.w };
    Mat4Fx {
        r0: Vec4Fx {
            x: v4_dot(a.r0, c0),
            y: v4_dot(a.r0, c1),
            z: v4_dot(a.r0, c2),
            w: v4_dot(a.r0, c3),
        },
        r1: Vec4Fx {
            x: v4_dot(a.r1, c0),
            y: v4_dot(a.r1, c1),
            z: v4_dot(a.r1, c2),
            w: v4_dot(a.r1, c3),
        },
        r2: Vec4Fx {
            x: v4_dot(a.r2, c0),
            y: v4_dot(a.r2, c1),
            z: v4_dot(a.r2, c2),
            w: v4_dot(a.r2, c3),
        },
        r3: Vec4Fx {
            x: v4_dot(a.r3, c0),
            y: v4_dot(a.r3, c1),
            z: v4_dot(a.r3, c2),
            w: v4_dot(a.r3, c3),
        },
    }
}

} // verus!
