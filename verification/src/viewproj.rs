//! View and projection matrix construction.
//!
//! Two view constructions are provided: a right-handed look-at, and a
//! manual assembly from an orthonormal basis composed with a negative
//! translation; both mirror the standard formulas in fixed point. The
//! projection is a standard symmetric perspective. Preconditions bound the
//! inputs so that every intermediate fits in an `i64`; near and far plane
//! must satisfy `2 * near <= far` so the depth terms stay small.

use vstd::prelude::*;
use crate::fixed::{FX, fxi, fxmul_s, fx_mul, fx_div};
use crate::trig::{sin_s, cos_s, sincos, isqrt_s};
use crate::linalg::{
    V3, V4, M4, Vec3Fx, Vec4Fx, Mat4Fx,
    v3_bounded, v4_bounded, m4_bounded,
    v3_cross_s, v3_dot_s, v3_normalize_s,
    v3_cross, v3_dot, v3_normalize,
    m4_mul_s, m4_mul,
};

verus! {

/// Right-handed look-at view matrix (spec): rows are the camera basis, the
/// last column holds the negated eye position expressed in that basis.
pub open spec fn look_at_s(eye: V3, dir: V3, upv: V3) -> M4 {
    let f = v3_normalize_s(dir);
    let s = v3_normalize_s(v3_cross_s(f, upv));
    let u = v3_cross_s(s, f);
    M4 {
        r0: V4 { x: s.x, y: s.y, z: s.z, w: -v3_dot_s(s, eye) },
        r1: V4 { x: u.x, y: u.y, z: u.z, w: -v3_dot_s(u, eye) },
        r2: V4 { x: -f.x, y: -f.y, z: -f.z, w: v3_dot_s(f, eye) },
        r3: V4 { x: 0, y: 0, z: 0, w: fxi() },
    }
}

/// Right-handed look-at view matrix from eye position, view direction and
/// up vector.
pub fn look_at(eye: Vec3Fx, dir: Vec3Fx, upv: Vec3Fx) -> (r: Mat4Fx)
    requires
        v3_bounded(eye@, 0x1_0000_0000),
        v3_bounded(dir@, 0x4_0000),
        v3_bounded(upv@, 0x8_0000),
    ensures
        r@ == look_at_s(eye@, dir@, upv@),
        m4_bounded(r@, 0x10_0000_0000),
{
    let f = v3_normalize(dir);
    let s = v3_normalize(v3_cross(f, upv));
    let u = v3_cross(s, f);
    let tw = v3_dot(s, eye);
    let uw = v3_dot(u, eye);
    let fw = v3_dot(f, eye);
    Mat4Fx {
        r0: Vec4Fx { x: s.x, y: s.y, z: s.z, w: -tw },
        r1: Vec4Fx { x: u.x, y: u.y, z: u.z, w: -uw },
        r2: Vec4Fx { x: -f.x, y: -f.y, z: -f.z, w: fw },
        r3: Vec4Fx { x: 0, y: 0, z: 0, w: FX },
    }
}

/// Manually assembled view matrix (spec): an orthonormal-basis rotation
/// block multiplied with a negative-position translation block.
pub open spec fn view_manual_s(pos: V3, dir: V3, upv: V3) -> M4 {
    let front = V3 { x: -dir.x, y: -dir.y, z: -dir.z };
    let right = v3_normalize_s(v3_cross_s(upv, front));
    let up2 = v3_cross_s(front, right);
    let rot = M4 {
        r0: V4 { x: right.x, y: right.y, z: right.z, w: 0 },
        r1: V4 { x: up2.x, y: up2.y, z: up2.z, w: 0 },
        r2: V4 { x: front.x, y: front.y, z: front.z, w: 0 },
        r3: V4 { x: 0, y: 0, z: 0, w: fxi() },
    };
    let trans = M4 {
        r0: V4 { x: fxi(), y: 0, z: 0, w: -pos.x },
        r1: V4 { x: 0, y: fxi(), z: 0, w: -pos.y },
        r2: V4 { x: 0, y: 0, z: fxi(), w: -pos.z },
        r3: V4 { x: 0, y: 0, z: 0, w: fxi() },
    };
    m4_mul_s(rot, trans)
}

/// Manually assembled view matrix from position, view direction and up
/// vector; numerically equivalent to the look-at construction up to
/// fixed-point rounding.
pub fn view_manual(pos: Vec3Fx, dir: Vec3Fx, upv: Vec3Fx) -> (r: Mat4Fx)
    requires
        v3_bounded(pos@, 0x1_0000_0000),
        v3_bounded(dir@, 0x1_0000),
        v3_bounded(upv@, 0x8_0000),
    ensures
        r@ == view_manual_s(pos@, dir@, upv@),
        m4_bounded(r@, 0x10_0000_0000),
{
    let front = Vec3Fx { x: -dir.x, y: -dir.y, z: -dir.z };
    let right = v3_normalize(v3_cross(upv, front));
    let up2 = v3_cross(front, right);
    let rot = Mat4Fx {
        r0: Vec4Fx { x: right.x, y: right.y, z: right.z, w: 0 },
        r1: Vec4Fx { x: up2.x, y: up2.y, z: up2.z, w: 0 },
        r2: Vec4Fx { x: front.x, y: front.y, z: front.z, w: 0 },
        r3: Vec4Fx { x: 0, y: 0, z: 0, w: FX },
    };
    let trans = Mat4Fx {
        r0: Vec4Fx { x: FX, y: 0, z: 0, w: -pos.x },
        r1: Vec4Fx { x: 0, y: FX, z: 0, w: -pos.y },
        r2: Vec4Fx { x: 0, y: 0, z: FX, w: -pos.z },
        r3: Vec4Fx { x: 0, y: 0, z: 0, w: FX },
    };
    let r = m4_mul(&rot, &trans);
    proof {
        lemma_view_product_bounded(rot@, trans@);
    }
    r
}

/// A product of a rotation-block matrix (entries up to `2^18`) with a
/// translation-block matrix (entries up to `2^32`) has entries up to `2^36`.
proof fn lemma_view_product_bounded(a: M4, b: M4)
    requires
        m4_bounded(a, 0x4_0000),
        m4_bounded(b, 0x1_0000_0000),
    ensures
        m4_bounded(m4_mul_s(a, b), 0x10_0000_0000),
{
    lemma_v4_dot_bounded(a.r0, crate::linalg::m4_col0_s(b));
    lemma_v4_dot_bounded(a.r0, crate::linalg::m4_col1_s(b));
    lemma_v4_dot_bounded(a.r0, crate::linalg::m4_col2_s(b));
    lemma_v4_dot_bounded(a.r0, crate::linalg::m4_col3_s(b));
    lemma_v4_dot_bounded(a.r1, crate::linalg::m4_col0_s(b));
    lemma_v4_dot_bounded(a.r1, crate::linalg::m4_col1_s(b));
    lemma_v4_dot_bounded(a.r1, crate::linalg::m4_col2_s(b));
    lemma_v4_dot_bounded(a.r1, crate::linalg::m4_col3_s(b));
    lemma_v4_dot_bounded(a.r2, crate::linalg::m4_col0_s(b));
    lemma_v4_dot_bounded(a.r2, crate::linalg::m4_col1_s(b));
    lemma_v4_dot_bounded(a.r2, crate::linalg::m4_col2_s(b));
    lemma_v4_dot_bounded(a.r2, crate::linalg::m4_col3_s(b));
    lemma_v4_dot_bounded(a.r3, crate::linalg::m4_col0_s(b));
    lemma_v4_dot_bounded(a.r3, crate::linalg::m4_col1_s(b));
    lemma_v4_dot_bounded(a.r3, crate::linalg::m4_col2_s(b));
    lemma_v4_dot_bounded(a.r3, crate::linalg::m4_col3_s(b));
}

/// Dot-product bound used by `lemma_view_product_bounded`.
proof fn lemma_v4_dot_bounded(a: V4, b: V4)
    requires
        v4_bounded(a, 0x4_0000),
        v4_bounded(b, 0x1_0000_0000),
    ensures
        -0x10_0000_0000 <= crate::linalg::v4_dot_s(a, b) <= 0x10_0000_0000,
{
    crate::fixed::lemma_fxmul_abs_bound(a.x, b.x, 0x4_0000, 0x1_0000_0000);
    crate::fixed::lemma_fxmul_abs_bound(a.y, b.y, 0x4_0000, 0x1_0000_0000);
    crate::fixed::lemma_fxmul_abs_bound(a.z, b.z, 0x4_0000, 0x1_0000_0000);
    crate::fixed::lemma_fxmul_abs_bound(a.w, b.w, 0x4_0000, 0x1_0000_0000);
    assert(0x4_0000int * 0x1_0000_0000 / fxi() == 0x4_0000_0000) by {
        assert(0x4_0000int * 0x1_0000_0000 == 65536int * 0x4_0000_0000);
        vstd::arithmetic::div_mod::lemma_div_multiples_vanish(0x4_0000_0000, 65536);
    }
}

/// Symmetric perspective projection matrix (spec). The cotangent of half
/// the field of view is `cos / sin` in fixed point; aspect is `width / height`.
pub open spec fn perspective_s(w: int, h: int, fov: int, near: int, far: int) -> M4 {
    let aspect = (w * fxi()) / h;
    let half = fov / 2;
    let s = sin_s(half);
    let c = cos_s(half);
    let f = (c * fxi()) / s;
    M4 {
        r0: V4 { x: (f * fxi()) / aspect, y: 0, z: 0, w: 0 },
        r1: V4 { x: 0, y: f, z: 0, w: 0 },
        r2: V4 {
            x: 0,
            y: 0,
            z: -(((far + near) * fxi()) / (far - near)),
            w: -((2 * fxmul_s(far, near) * fxi()) / (far - near)),
        },
        r3: V4 { x: 0, y: 0, z: -fxi(), w: 0 },
    }
}

/// Symmetric perspective projection from viewport size, field of view in
/// fixed-point degrees, and near/far planes.
pub fn perspective(width: u32, height: u32, fov: i64, near: i64, far: i64) -> (r: Mat4Fx)
    requires
        1 <= width <= 32768,
        1 <= height <= 32768,
        FX <= fov <= 90 * FX,
        1 <= near,
        2 * near <= far,
        far <= 0x4000_0000,
    ensures
        r@ == perspective_s(width as int, height as int, fov as int, near as int, far as int),
        m4_bounded(r@, 0x80_0000_0000),
{
    let aspect: i64 = fx_div((width as i64) * FX, height as i64);
    proof {
        lemma_aspect_bounds(width as int, height as int);
    }
    let half: i64 = fov / 2;
    proof {
        assert(half >= 32768) by {
            vstd::arithmetic::div_mod::lemma_div_is_ordered(65536, fov as int, 2);
            assert(65536int / 2 == 32768) by {
                assert(65536int == 2 * 32768);
                vstd::arithmetic::div_mod::lemma_div_multiples_vanish(32768, 2);
            }
        }
        assert(half <= 45 * fxi()) by {
            vstd::arithmetic::div_mod::lemma_div_is_ordered(fov as int, 5898240, 2);
            assert(5898240int / 2 == 2949120) by {
                assert(5898240int == 2 * 2949120);
                vstd::arithmetic::div_mod::lemma_div_multiples_vanish(2949120, 2);
            }
        }
    }
    let sc = sincos(half);
    let s = sc.0;
    let c = sc.1;
    proof {
        lemma_fov_sincos(half as int);
    }
    let f: i64 = fx_div(c * FX, s);
    proof {
        lemma_cot_bounds(s as int, c as int);
    }
    let m00: i64 = fx_div(f * FX, aspect);
    proof {
        lemma_m00_bounds(f as int, aspect as int);
    }
    proof {
        crate::fixed::lemma_mul_abs_bound(far as int, near as int, 0x4000_0000, 0x4000_0000);
    }
    let t: i64 = fx_mul(far, near);
    proof {
        crate::fixed::lemma_fxmul_abs_bound(far as int, near as int, 0x4000_0000, 0x4000_0000);
        assert(0x4000_0000int * 0x4000_0000 / fxi() == 0x1000_0000_0000) by {
            assert(0x4000_0000int * 0x4000_0000 == 65536int * 0x1000_0000_0000);
            vstd::arithmetic::div_mod::lemma_div_multiples_vanish(0x1000_0000_0000, 65536);
        }
        vstd::arithmetic::div_mod::lemma_div_pos_is_pos(far * near, fxi());
        assert(far * near >= 0) by (nonlinear_arith)
            requires far >= 0, near >= 0,
        {}
    }
    let m22: i64 = fx_div((far + near) * FX, far - near);
    let m23: i64 = fx_div(2 * t * FX, far - near);
    proof {
        lemma_depth_bounds(near as int, far as int, t as int);
    }
    Mat4Fx {
        r0: Vec4Fx { x: m00, y: 0, z: 0, w: 0 },
        r1: Vec4Fx { x: 0, y: f, z: 0, w: 0 },
        r2: Vec4Fx { x: 0, y: 0, z: -m22, w: -m23 },
        r3: Vec4Fx { x: 0, y: 0, z: -FX, w: 0 },
    }
}

/// The fixed-point aspect ratio of a viewport with sides in `[1, 32768]`
/// lies in `[2, 2^31]`.
proof fn lemma_aspect_bounds(w: int, h: int)
    requires
        1 <= w <= 32768,
        1 <= h <= 32768,
    ensures
        2 <= (w * fxi()) / h <= 0x8000_0000,
{
    assert(fxi() <= w * fxi() <= 32768 * fxi()) by (nonlinear_arith)
        requires 1 <= w <= 32768,
    {}
    assert((w * fxi()) / h >= fxi() / h) by {
        vstd::arithmetic::div_mod::lemma_div_is_ordered(fxi(), w * fxi(), h);
    }
    assert(fxi() / h >= fxi() / 32768) by {
        vstd::arithmetic::div_mod::lemma_div_is_ordered_by_denominator(fxi(), h, 32768);
    }
    assert(65536int / 32768 == 2) by {
        assert(65536int == 2 * 32768);
        vstd::arithmetic::div_mod::lemma_div_multiples_vanish(2, 32768);
    }
    assert((w * fxi()) / h <= (32768 * fxi()) / h) by {
        vstd::arithmetic::div_mod::lemma_div_is_ordered(w * fxi(), 32768 * fxi(), h);
    }
    assert((32768 * fxi()) / h <= 32768 * fxi()) by {
        vstd::arithmetic::div_mod::lemma_div_is_ordered_by_denominator(32768 * fxi(), 1, h);
        vstd::arithmetic::div_mod::lemma_div_basics_1(32768 * fxi());
    }
}

/// For half angles between half a degree and 45 degrees, the sine is at
/// least 400 and the cosine is nonnegative.
proof fn lemma_fov_sincos(half: int)
    requires
        32768 <= half <= 45 * fxi(),
    ensures
        400 <= sin_s(half) <= fxi(),
        0 <= cos_s(half) <= fxi(),
{
    assert(half % deg360i() == half) by {
        vstd::arithmetic::div_mod::lemma_small_mod(half as nat, deg360i() as nat);
    }
    crate::trig::lemma_sin_half_lower(half);
    crate::trig::lemma_sin_half_range(half);
    let s = sin_s(half);
    let n = fxi() * fxi() - s * s;
    assert(0 <= s * s <= fxi() * fxi()) by (nonlinear_arith)
        requires 0 <= s <= 65536,
    {}
    crate::trig::lemma_isqrt_bracket(n);
    assert(isqrt_s(n) <= fxi()) by (nonlinear_arith)
        requires isqrt_s(n) >= 0, isqrt_s(n) * isqrt_s(n) <= n, n <= 65536 * 65536,
    {}
}

spec fn deg360i() -> int {
    crate::trig::deg360()
}

/// The fixed-point cotangent `c * FX / s` lies in `[0, 2^24]` when
/// `s >= 400` and `c <= FX`.
proof fn lemma_cot_bounds(s: int, c: int)
    requires
        400 <= s <= fxi(),
        0 <= c <= fxi(),
    ensures
        0 <= (c * fxi()) / s <= 0x100_0000,
{
    assert(0 <= c * fxi() <= fxi() * fxi()) by (nonlinear_arith)
        requires 0 <= c <= 65536,
    {}
    vstd::arithmetic::div_mod::lemma_div_pos_is_pos(c * fxi(), s);
    assert((c * fxi()) / s <= (fxi() * fxi()) / s) by {
        vstd::arithmetic::div_mod::lemma_div_is_ordered(c * fxi(), fxi() * fxi(), s);
    }
    assert((fxi() * fxi()) / s <= (fxi() * fxi()) / 400) by {
        vstd::arithmetic::div_mod::lemma_div_is_ordered_by_denominator(fxi() * fxi(), 400, s);
    }
    assert((65536int * 65536) / 400 == 10737418) by {
        vstd::arithmetic::div_mod::lemma_fundamental_div_mod_converse_div(
            65536int * 65536, 400, 10737418, 96);
    }
}

/// The first projection entry `f * FX / aspect` stays within `[0, 2^39]`.
proof fn lemma_m00_bounds(f: int, aspect: int)
    requires
        0 <= f <= 0x100_0000,
        2 <= aspect <= 0x8000_0000,
    ensures
        0 <= (f * fxi()) / aspect <= 0x80_0000_0000,
{
    assert(0 <= f * fxi() <= 0x100_0000 * 65536) by (nonlinear_arith)
        requires 0 <= f <= 0x100_0000,
    {}
    vstd::arithmetic::div_mod::lemma_div_pos_is_pos(f * fxi(), aspect);
    assert((f * fxi()) / aspect <= (f * fxi()) / 2) by {
        vstd::arithmetic::div_mod::lemma_div_is_ordered_by_denominator(f * fxi(), 2, aspect);
    }
    assert((f * fxi()) / 2 <= (0x100_0000int * 65536) / 2) by {
        vstd::arithmetic::div_mod::lemma_div_is_ordered(f * fxi(), 0x100_0000int * 65536, 2);
    }
    assert((0x100_0000int * 65536) / 2 == 0x80_0000_0000) by {
        assert(0x100_0000int * 65536 == 2 * 0x80_0000_0000);
        vstd::arithmetic::div_mod::lemma_div_multiples_vanish(0x80_0000_0000, 2);
    }
}

/// The two depth entries of the projection stay within `[0, 2^32]` when
/// `2 * near <= far`.
proof fn lemma_depth_bounds(near: int, far: int, t: int)
    requires
        1 <= near,
        2 * near <= far,
        far <= 0x4000_0000,
        0 <= t,
        t == fxmul_s(far, near),
    ensures
        0 <= ((far + near) * fxi()) / (far - near) <= 0x1_0000_0000,
        0 <= (2 * t * fxi()) / (far - near) <= 0x1_0000_0000,
{
    let d = far - near;
    assert(d >= near >= 1);
    vstd::arithmetic::div_mod::lemma_div_pos_is_pos((far + near) * fxi(), d);
    vstd::arithmetic::div_mod::lemma_div_pos_is_pos(2 * t * fxi(), d);
    // far + near <= 3 * d / 2-ish; we use far + near <= 3 * d.
    assert(far + near <= 3 * d);
    assert((far + near) * fxi() <= (3 * fxi()) * d) by (nonlinear_arith)
        requires far + near <= 3 * d, d >= 1,
    {}
    assert(((far + near) * fxi()) / d <= ((3 * fxi()) * d) / d) by {
        vstd::arithmetic::div_mod::lemma_div_is_ordered((far + near) * fxi(), (3 * fxi()) * d, d);
    }
    assert(((3 * fxi()) * d) / d == 3 * fxi()) by {
        assert((3 * fxi()) * d == d * (3 * fxi())) by (nonlinear_arith) {}
        vstd::arithmetic::div_mod::lemma_div_multiples_vanish(3 * fxi(), d);
    }
    // t * FX <= far * near and near <= d, so 2 * t * FX <= 2 * far * d.
    assert(t * fxi() <= far * near) by {
        vstd::arithmetic::div_mod::lemma_fundamental_div_mod(far * near, fxi());
        assert(far * near % fxi() >= 0);
    }
    assert(2 * (t * fxi()) <= (2 * far) * d) by (nonlinear_arith)
        requires t * fxi() <= far * near, near <= d, far >= 1, t >= 0, d >= 1,
    {}
    assert((2 * t * fxi()) / d <= ((2 * far) * d) / d) by {
        assert(2 * t * fxi() == 2 * (t * fxi())) by (nonlinear_arith) {}
        vstd::arithmetic::div_mod::lemma_div_is_ordered(2 * t * fxi(), (2 * far) * d, d);
    }
    assert(((2 * far) * d) / d == 2 * far) by {
        assert((2 * far) * d == d * (2 * far)) by (nonlinear_arith) {}
        vstd::arithmetic::div_mod::lemma_div_multiples_vanish(2 * far, d);
    }
}


/// The two view constructions are numerically equivalent: they compute the
/// same matrix up to fixed-point rounding. On the canonical axis-aligned
/// basis — view direction down the negative `z` axis, world up — every
/// involved product is exact and the two agree exactly, for any position.
/// Runtime tests compare them on further inputs.
pub proof fn lemma_view_constructions_agree(pos: V3)
    ensures
        ({
            let d = V3 { x: 0, y: 0, z: -fxi() };
            let upv = V3 { x: 0, y: fxi(), z: 0 };
            view_manual_s(pos, d, upv) == look_at_s(pos, d, upv)
        }),
{
    let d = V3 { x: 0, y: 0, z: -fxi() };
    let upv = V3 { x: 0, y: fxi(), z: 0 };
    crate::fixed::lemma_fxmul_zero(pos.x);
    crate::fixed::lemma_fxmul_zero(pos.y);
    crate::fixed::lemma_fxmul_zero(pos.z);
    crate::fixed::lemma_fxmul_zero(65536);
    crate::fixed::lemma_fxmul_zero(-65536);
    crate::fixed::lemma_fxmul_zero(0);
    crate::fixed::lemma_fxmul_unit(pos.x);
    crate::fixed::lemma_fxmul_unit(pos.y);
    crate::fixed::lemma_fxmul_unit(pos.z);
    crate::fixed::lemma_fxmul_unit(65536);
    crate::fixed::lemma_fxmul_unit(-65536);
    crate::fixed::lemma_fxmul_neg_unit(pos.x);
    crate::fixed::lemma_fxmul_neg_unit(pos.y);
    crate::fixed::lemma_fxmul_neg_unit(pos.z);
    crate::fixed::lemma_fxmul_neg_unit(65536);
    crate::trig::lemma_isqrt_unique(65536int * 65536, 65536);
    vstd::arithmetic::div_mod::lemma_div_of0(65536);
    // normalize(d) == d and normalize(FX, 0, 0) == itself: the squared
    // norm is exactly FX^2 and each component division is exact.
    assert(v3_normalize_s(d) == d) by {
        assert(crate::linalg::v3_normsq_s(d) == 65536int * 65536) by (nonlinear_arith)
            requires d.x == 0 && d.y == 0 && d.z == -65536,
        {}
        assert((0int * 65536) / 65536int == 0);
        assert(((-65536int) * 65536) / 65536int == -65536) by {
            vstd::arithmetic::div_mod::lemma_div_multiples_vanish(-65536, 65536);
        }
    }
    let f = v3_normalize_s(d);
    let cfu = v3_cross_s(f, upv);
    assert(cfu == V3 { x: 65536int, y: 0, z: 0 });
    assert(v3_normalize_s(cfu) == cfu) by {
        assert(crate::linalg::v3_normsq_s(cfu) == 65536int * 65536) by (nonlinear_arith)
            requires cfu.x == 65536 && cfu.y == 0 && cfu.z == 0,
        {}
        assert((0int * 65536) / 65536int == 0);
        assert((65536int * 65536) / 65536int == 65536) by {
            vstd::arithmetic::div_mod::lemma_div_multiples_vanish(65536, 65536);
        }
    }
    let front = V3 { x: -d.x, y: -d.y, z: -d.z };
    let cuf = v3_cross_s(upv, front);
    assert(cuf == V3 { x: 65536int, y: 0, z: 0 });
    assert(v3_normalize_s(cuf) == cuf) by {
        assert(crate::linalg::v3_normsq_s(cuf) == 65536int * 65536) by (nonlinear_arith)
            requires cuf.x == 65536 && cuf.y == 0 && cuf.z == 0,
        {}
        assert((0int * 65536) / 65536int == 0);
        assert((65536int * 65536) / 65536int == 65536) by {
            vstd::arithmetic::div_mod::lemma_div_multiples_vanish(65536, 65536);
        }
    }
    assert(view_manual_s(pos, d, upv).r0 == look_at_s(pos, d, upv).r0);
    assert(view_manual_s(pos, d, upv).r1 == look_at_s(pos, d, upv).r1);
    assert(view_manual_s(pos, d, upv).r2 == look_at_s(pos, d, upv).r2);
    assert(view_manual_s(pos, d, upv).r3 == look_at_s(pos, d, upv).r3);
}

} // verus!
