//! Camera state machine: events, per-frame input, and the shared pieces of
//! the camera variants.
//!
//! A camera translates input into a view-projection matrix, lazily: two
//! dirty flags gate recomputation of the matrix and its upload to a shader.
//! Uploads themselves are I/O and stay outside the library: `set_cam_matrix`
//! returns the matrix to upload when one is due, and `update` returns the
//! cursor action the host window should perform.
//!
//! Angles are fixed-point degrees; yaw and roll are kept wrapped into
//! `[0, 360)` and pitch clamped into `[-85, 85]`, which the original reaches
//! through per-frame clamping. Positions saturate at `2^16` world units — a
//! machine limit of the fixed-point representation, far beyond any scene.

use vstd::prelude::*;
use crate::fixed::{FX, fxi, fxmul_s, clamp_s, fx_mul, fx_div, fx_clamp};
use crate::trig::{DEG360, deg360, sin_s, cos_s, norm360_s, norm360, sincos};
use crate::linalg::{
    V3, M4, Vec3Fx, Mat4Fx, v3_bounded,
    v3_add_s, v3_scale_s, v3_cross_s, v3_normalize_s,
    v3_add, v3_scale, v3_cross, v3_normalize,
};

verus! {

/// Largest position component: `2^16` world units in fixed point.
pub const POS_LIMIT: i64 = 0x1_0000_0000;

/// Largest accepted frame time: 64 seconds in fixed point.
pub const DT_MAX: i64 = 0x40_0000;

/// Largest per-frame movement / rotation rate after scaling by the frame
/// time; rates saturate here.
pub const RATE_LIMIT: i64 = 0x8000_0000;

/// A window event the camera reacts to. Other window events are represented
/// by `Other` and ignored by this layer.
#[derive(Clone, Copy, Debug, PartialEq, Eq, Structural)]
pub enum CamEvent {
    FramebufferSize { width: u32, height: u32 },
    Scroll { x_offset: i64, y_offset: i64 },
    Other,
}

/// Polled input state for one frame: which movement keys are held, whether
/// the sprint modifier and the mouse-look trigger are held, and the cursor
/// position in fixed-point pixels.
#[derive(Clone, Copy, Debug, PartialEq, Eq, Structural)]
pub struct CamInput {
    pub forward: bool,
    pub back: bool,
    pub left: bool,
    pub right: bool,
    pub sprint: bool,
    pub roll_left: bool,
    pub roll_right: bool,
    pub look: bool,
    pub cursor_x: i64,
    pub cursor_y: i64,
}

/// What the host window should do with the cursor after an update.
#[derive(Clone, Copy, Debug, PartialEq, Eq, Structural)]
pub enum CursorAction {
    /// First frame of mouse-look: hide the cursor and warp it to the center.
    HideAndCenter,
    /// Mouse-look continues: warp the cursor back to the center.
    Center,
    /// Mouse-look is inactive: show the normal cursor.
    Show,
}

/// Ghost view of a camera's state, shared by all variants (a variant
/// without roll keeps `roll` and `roll_speed` at zero).
pub ghost struct CamG {
    pub width: int,
    pub height: int,
    pub position: V3,
    pub roll: int,
    pub pitch: int,
    pub yaw: int,
    pub direction: V3,
    pub up: V3,
    pub cam_matrix: M4,
    pub speed: int,
    pub shift_multiplier: int,
    pub roll_speed: int,
    pub sensitivity: int,
    pub zoom_sensitivity: int,
    pub fov: int,
    pub near_plane: int,
    pub far_plane: int,
    pub first_click: bool,
    pub calculate_cam_matrix: bool,
    pub is_matrix_updated: bool,
}

/// Well-formedness of a camera state: viewport sides in `[1, 32768]`,
/// angles wrapped/clamped, configuration scalars bounded, position within
/// the saturation limit, derived vectors bounded.
pub open spec fn wf_g(c: CamG) -> bool {
    &&& 1 <= c.width <= 32768
    &&& 1 <= c.height <= 32768
    &&& v3_bounded(c.position, 0x1_0000_0000)
    &&& 0 <= c.roll < deg360()
    &&& 0 <= c.yaw < deg360()
    &&& -85 * fxi() <= c.pitch <= 85 * fxi()
    &&& fxi() <= c.fov <= 90 * fxi()
    &&& 0 <= c.speed <= 0x1_0000_0000
    &&& 0 <= c.shift_multiplier <= 0x100_0000
    &&& 0 <= c.roll_speed <= 0x1_0000_0000
    &&& 0 <= c.sensitivity <= 0x1_0000_0000
    &&& 0 <= c.zoom_sensitivity <= 0x1_0000_0000
    &&& 1 <= c.near_plane
    &&& 2 * c.near_plane <= c.far_plane
    &&& c.far_plane <= 0x4000_0000
    &&& v3_bounded(c.direction, 0x1_0000)
    &&& v3_bounded(c.up, 0x8_0000)
}

/// Bounds every event must satisfy before it is handed to the camera.
pub open spec fn event_wf(e: CamEvent) -> bool {
    match e {
        CamEvent::FramebufferSize { width, height } => {
            1 <= width <= 32768 && 1 <= height <= 32768
        },
        CamEvent::Scroll { x_offset, y_offset } => {
            -0x100_0000 <= x_offset <= 0x100_0000 && -0x100_0000 <= y_offset <= 0x100_0000
        },
        CamEvent::Other => true,
    }
}

/// Bounds every input record must satisfy.
pub open spec fn input_wf(i: CamInput) -> bool {
    &&& -0x8000_0000 <= i.cursor_x <= 0x8000_0000
    &&& -0x8000_0000 <= i.cursor_y <= 0x8000_0000
}

/// A per-frame rate: the configured scalar, optionally multiplied by the
/// sprint factor, scaled by the frame time and saturated.
pub open spec fn rate_s(x: int, mult: int, sprint: bool, dt: int) -> int {
    let base = if sprint { fxmul_s(x, mult) } else { x };
    clamp_s(fxmul_s(base, dt), 0, 0x8000_0000)
}

/// The field of view after a scroll of `y`, clamped to `[1, 90]` degrees.
pub open spec fn scroll_fov_s(fov: int, y: int, dt: int, zoom: int) -> int {
    clamp_s(fov - fxmul_s(fxmul_s(y, dt), zoom), fxi(), 90 * fxi())
}

/// Cursor offset from the viewport center as a fixed-point fraction of the
/// viewport dimension.
pub open spec fn rel_offset_s(cursor: int, dim: int) -> int {
    (cursor - (dim * fxi()) / 2) / dim
}

/// Pitch after one mouse-look step: proportional to the vertical cursor
/// offset, clamped to `[-85, 85]` degrees.
pub open spec fn look_pitch_s(pitch: int, sens_rate: int, cursor_y: int, height: int) -> int {
    clamp_s(pitch - fxmul_s(sens_rate, rel_offset_s(cursor_y, height)), -85 * fxi(), 85 * fxi())
}

/// Yaw after one mouse-look step, wrapped into `[0, 360)` degrees.
pub open spec fn look_yaw_s(yaw: int, sens_rate: int, cursor_x: int, width: int) -> int {
    norm360_s(yaw + fxmul_s(sens_rate, rel_offset_s(cursor_x, width)))
}

/// The view direction derived from yaw and pitch. The sine/cosine pairs
/// satisfy a Pythagorean bracket by construction, so this vector has unit
/// length up to a small fixed-point tolerance (see `lemma_direction_norm`).
pub open spec fn dir_s(yaw: int, pitch: int) -> V3 {
    V3 {
        x: fxmul_s(cos_s(yaw), cos_s(pitch)),
        y: sin_s(pitch),
        z: fxmul_s(sin_s(yaw), cos_s(pitch)),
    }
}

/// The world up axis.
pub open spec fn unit_y_s() -> V3 {
    V3 { x: 0, y: fxi(), z: 0 }
}

/// The camera up vector: the world up axis rotated by `roll` about the view
/// direction (Rodrigues' formula in fixed point).
pub open spec fn up_s(roll: int, d: V3) -> V3 {
    let s = sin_s(roll);
    let c = cos_s(roll);
    let t = fxmul_s(d.y, fxi() - c);
    v3_add_s(
        v3_add_s(v3_scale_s(c, unit_y_s()), v3_scale_s(s, v3_cross_s(d, unit_y_s()))),
        v3_scale_s(t, d),
    )
}

/// The normalized strafe axis: `normalize(direction x up)`.
pub open spec fn strafe_s(d: V3, u: V3) -> V3 {
    v3_normalize_s(v3_cross_s(d, u))
}

/// A position component saturated at the representable world size.
pub open spec fn v3_clamp_pos_s(v: V3) -> V3 {
    V3 {
        x: clamp_s(v.x, -0x1_0000_0000, 0x1_0000_0000),
        y: clamp_s(v.y, -0x1_0000_0000, 0x1_0000_0000),
        z: clamp_s(v.z, -0x1_0000_0000, 0x1_0000_0000),
    }
}

/// One translation step: `pos + rate * axis`, saturated.
pub open spec fn move_s(pos: V3, rate: int, axis: V3) -> V3 {
    v3_clamp_pos_s(v3_add_s(pos, v3_scale_s(rate, axis)))
}

/// One negative translation step: `pos - rate * axis`, saturated.
pub open spec fn move_back_s(pos: V3, rate: int, axis: V3) -> V3 {
    v3_clamp_pos_s(v3_add_s(pos, v3_scale_s(-rate, axis)))
}

/// Executable per-frame rate, equal to `rate_s`.
pub fn rate(x: i64, mult: i64, sprint: bool, dt: i64) -> (r: i64)
    requires
        0 <= x <= 0x1_0000_0000,
        0 <= mult <= 0x100_0000,
        0 <= dt <= DT_MAX,
    ensures
        r == rate_s(x as int, mult as int, sprint, dt as int),
        0 <= r <= 0x8000_0000,
{
    let base: i64 = if sprint {
        proof {
            crate::fixed::lemma_mul_abs_bound(x as int, mult as int, 0x1_0000_0000, 0x100_0000);
        }
        fx_mul(x, mult)
    } else {
        x
    };
    proof {
        crate::fixed::lemma_fxmul_abs_bound(x as int, mult as int, 0x1_0000_0000, 0x100_0000);
        assert(0x1_0000_0000int * 0x100_0000 / fxi() == 0x100_0000_0000) by {
            assert(0x1_0000_0000int * 0x100_0000 == 65536int * 0x100_0000_0000);
            vstd::arithmetic::div_mod::lemma_div_multiples_vanish(0x100_0000_0000, 65536);
        }
        crate::fixed::lemma_mul_abs_bound(base as int, dt as int, 0x100_0000_0000, 0x40_0000);
    }
    fx_clamp(fx_mul(base, dt), 0, RATE_LIMIT)
}

/// Executable scroll step for the field of view, equal to `scroll_fov_s`.
pub fn scroll_fov(fov: i64, y: i64, dt: i64, zoom: i64) -> (r: i64)
    requires
        -0x100_0000 <= y <= 0x100_0000,
        0 <= dt <= DT_MAX,
        0 <= zoom <= 0x1_0000_0000,
        -0x1_0000_0000 <= fov <= 0x1_0000_0000,
    ensures
        r == scroll_fov_s(fov as int, y as int, dt as int, zoom as int),
        fxi() <= r <= 90 * fxi(),
{
    proof {
        crate::fixed::lemma_mul_abs_bound(y as int, dt as int, 0x100_0000, 0x40_0000);
        crate::fixed::lemma_fxmul_abs_bound(y as int, dt as int, 0x100_0000, 0x40_0000);
        assert(0x100_0000int * 0x40_0000 / fxi() == 0x4000_0000) by {
            assert(0x100_0000int * 0x40_0000 == 65536int * 0x4000_0000);
            vstd::arithmetic::div_mod::lemma_div_multiples_vanish(0x4000_0000, 65536);
        }
    }
    let yd: i64 = fx_mul(y, dt);
    proof {
        crate::fixed::lemma_mul_abs_bound(yd as int, zoom as int, 0x4000_0000, 0x1_0000_0000);
        crate::fixed::lemma_fxmul_abs_bound(yd as int, zoom as int, 0x4000_0000, 0x1_0000_0000);
        assert(0x4000_0000int * 0x1_0000_0000 / fxi() == 0x4000_0000_0000) by {
            assert(0x4000_0000int * 0x1_0000_0000 == 65536int * 0x4000_0000_0000);
            vstd::arithmetic::div_mod::lemma_div_multiples_vanish(0x4000_0000_0000, 65536);
        }
    }
    let delta: i64 = fx_mul(yd, zoom);
    fx_clamp(fov - delta, FX, 90 * FX)
}

/// Executable cursor offset fraction, equal to `rel_offset_s`.
pub fn rel_offset(cursor: i64, dim: u32) -> (r: i64)
    requires
        -0x8000_0000 <= cursor <= 0x8000_0000,
        1 <= dim <= 32768,
    ensures
        r == rel_offset_s(cursor as int, dim as int),
        -0x1_0000_0000 <= r <= 0x1_0000_0000,
{
    let center: i64 = (dim as i64) * FX / 2;
    let diff: i64 = cursor - center;
    let r = fx_div(diff, dim as i64);
    proof {
        assert(0 <= center <= 0x4000_0000);
        vstd::arithmetic::div_mod::lemma_div_is_ordered(diff as int, 0x1_0000_0000, dim as int);
        vstd::arithmetic::div_mod::lemma_div_is_ordered(-0x1_0000_0000, diff as int, dim as int);
        assert(0x1_0000_0000int / (dim as int) <= 0x1_0000_0000) by {
            vstd::arithmetic::div_mod::lemma_div_is_ordered_by_denominator(
                0x1_0000_0000, 1, dim as int);
            vstd::arithmetic::div_mod::lemma_div_basics_1(0x1_0000_0000);
        }
        assert((-0x1_0000_0000int) / (dim as int) >= -0x1_0000_0000) by {
            lemma_neg_div_ge(-0x1_0000_0000, dim as int);
        }
    }
    r
}

/// For a negative numerator, flooring division by a positive divisor does
/// not decrease below the numerator itself.
proof fn lemma_neg_div_ge(a: int, b: int)
    requires
        a <= 0,
        b >= 1,
    ensures
        a / b >= a,
{
    vstd::arithmetic::div_mod::lemma_fundamental_div_mod(a, b);
    assert(a / b >= a) by (nonlinear_arith)
        requires a == b * (a / b) + a % b, 0 <= a % b < b, a <= 0, b >= 1,
    {}
}

/// Executable mouse-look pitch step, equal to `look_pitch_s`.
pub fn look_pitch(pitch: i64, sens_rate: i64, cursor_y: i64, height: u32) -> (r: i64)
    requires
        -0x1_0000_0000 <= pitch <= 0x1_0000_0000,
        0 <= sens_rate <= 0x8000_0000,
        -0x8000_0000 <= cursor_y <= 0x8000_0000,
        1 <= height <= 32768,
    ensures
        r == look_pitch_s(pitch as int, sens_rate as int, cursor_y as int, height as int),
        -85 * fxi() <= r <= 85 * fxi(),
{
    let rel = rel_offset(cursor_y, height);
    proof {
        crate::fixed::lemma_mul_abs_bound(sens_rate as int, rel as int, 0x8000_0000, 0x1_0000_0000);
        crate::fixed::lemma_fxmul_abs_bound(sens_rate as int, rel as int, 0x8000_0000, 0x1_0000_0000);
        assert(0x8000_0000int * 0x1_0000_0000 / fxi() == 0x8000_0000_0000) by {
            assert(0x8000_0000int * 0x1_0000_0000 == 65536int * 0x8000_0000_0000);
            vstd::arithmetic::div_mod::lemma_div_multiples_vanish(0x8000_0000_0000, 65536);
        }
    }
    let delta = fx_mul(sens_rate, rel);
    fx_clamp(pitch - delta, -85 * FX, 85 * FX)
}

/// Executable mouse-look yaw step, equal to `look_yaw_s`.
pub fn look_yaw(yaw: i64, sens_rate: i64, cursor_x: i64, width: u32) -> (r: i64)
    requires
        0 <= yaw < DEG360,
        0 <= sens_rate <= 0x8000_0000,
        -0x8000_0000 <= cursor_x <= 0x8000_0000,
        1 <= width <= 32768,
    ensures
        r == look_yaw_s(yaw as int, sens_rate as int, cursor_x as int, width as int),
        0 <= r < DEG360,
{
    let rel = rel_offset(cursor_x, width);
    proof {
        crate::fixed::lemma_mul_abs_bound(sens_rate as int, rel as int, 0x8000_0000, 0x1_0000_0000);
        crate::fixed::lemma_fxmul_abs_bound(sens_rate as int, rel as int, 0x8000_0000, 0x1_0000_0000);
        assert(0x8000_0000int * 0x1_0000_0000 / fxi() == 0x8000_0000_0000) by {
            assert(0x8000_0000int * 0x1_0000_0000 == 65536int * 0x8000_0000_0000);
            vstd::arithmetic::div_mod::lemma_div_multiples_vanish(0x8000_0000_0000, 65536);
        }
    }
    let delta = fx_mul(sens_rate, rel);
    norm360(yaw + delta)
}

/// Executable direction computation, equal to `dir_s`; components stay
/// within `[-FX, FX]`.
pub fn compute_direction(yaw: i64, pitch: i64) -> (r: Vec3Fx)
    requires
        -0x4_0000_0000_0000 <= yaw <= 0x4_0000_0000_0000,
        -0x4_0000_0000_0000 <= pitch <= 0x4_0000_0000_0000,
    ensures
        r@ == dir_s(yaw as int, pitch as int),
        v3_bounded(r@, 0x1_0000),
{
    let scy = sincos(yaw);
    let scp = sincos(pitch);
    proof {
        crate::fixed::lemma_mul_abs_bound(scy.1 as int, scp.1 as int, 0x1_0000, 0x1_0000);
        crate::fixed::lemma_mul_abs_bound(scy.0 as int, scp.1 as int, 0x1_0000, 0x1_0000);
        crate::fixed::lemma_fxmul_abs_bound(scy.1 as int, scp.1 as int, 0x1_0000, 0x1_0000);
        crate::fixed::lemma_fxmul_abs_bound(scy.0 as int, scp.1 as int, 0x1_0000, 0x1_0000);
        assert(0x1_0000int * 0x1_0000 / fxi() == 0x1_0000) by {
            vstd::arithmetic::div_mod::lemma_div_multiples_vanish(0x1_0000, 65536);
        }
    }
    Vec3Fx { x: fx_mul(scy.1, scp.1), y: scp.0, z: fx_mul(scy.0, scp.1) }
}

/// Executable up-vector computation, equal to `up_s`; components stay
/// within `[-8 FX, 8 FX]`.
pub fn compute_up(roll: i64, d: Vec3Fx) -> (r: Vec3Fx)
    requires
        -0x4_0000_0000_0000 <= roll <= 0x4_0000_0000_0000,
        v3_bounded(d@, 0x1_0000),
    ensures
        r@ == up_s(roll as int, d@),
        v3_bounded(r@, 0x8_0000),
{
    let sc = sincos(roll);
    let s = sc.0;
    let c = sc.1;
    let ey = Vec3Fx { x: 0, y: FX, z: 0 };
    let kxy = v3_cross(d, ey);
    proof {
        crate::fixed::lemma_mul_abs_bound(d.y as int, (FX - c) as int, 0x1_0000, 0x2_0000);
        crate::fixed::lemma_fxmul_abs_bound(d.y as int, (FX - c) as int, 0x1_0000, 0x2_0000);
        assert(0x1_0000int * 0x2_0000 / fxi() == 0x2_0000) by {
            assert(0x1_0000int * 0x2_0000 == 65536int * 0x2_0000);
            vstd::arithmetic::div_mod::lemma_div_multiples_vanish(0x2_0000, 65536);
        }
    }
    let t: i64 = fx_mul(d.y, FX - c);
    let term1 = v3_scale(c, ey);
    let term2 = v3_scale(s, kxy);
    let term3 = v3_scale(t, d);
    proof {
        lemma_scale_bounded(c as int, ey@, 0x1_0000, 0x1_0000);
        lemma_scale_bounded(s as int, kxy@, 0x1_0000, 0x2_0000);
        lemma_scale_bounded(t as int, d@, 0x2_0000, 0x1_0000);
    }
    v3_add(v3_add(term1, term2), term3)
}

/// Componentwise magnitude bound for a scaled vector.
proof fn lemma_scale_bounded(k: int, v: V3, ck: int, cv: int)
    requires
        -ck <= k <= ck,
        v3_bounded(v, cv),
        0 <= ck,
        0 <= cv,
        ck * cv % fxi() == 0,
    ensures
        v3_bounded(v3_scale_s(k, v), ck * cv / fxi()),
{
    crate::fixed::lemma_fxmul_abs_bound(k, v.x, ck, cv);
    crate::fixed::lemma_fxmul_abs_bound(k, v.y, ck, cv);
    crate::fixed::lemma_fxmul_abs_bound(k, v.z, ck, cv);
}

/// Executable saturating position clamp, equal to `v3_clamp_pos_s`.
pub fn v3_clamp_pos(v: Vec3Fx) -> (r: Vec3Fx)
    ensures
        r@ == v3_clamp_pos_s(v@),
        v3_bounded(r@, 0x1_0000_0000),
{
    Vec3Fx {
        x: fx_clamp(v.x, -POS_LIMIT, POS_LIMIT),
        y: fx_clamp(v.y, -POS_LIMIT, POS_LIMIT),
        z: fx_clamp(v.z, -POS_LIMIT, POS_LIMIT),
    }
}

/// One executable translation step, equal to `move_s`.
pub fn move_along(pos: Vec3Fx, rate_v: i64, axis: Vec3Fx) -> (r: Vec3Fx)
    requires
        v3_bounded(pos@, 0x1_0000_0000),
        0 <= rate_v <= 0x8000_0000,
        v3_bounded(axis@, 0x8000_0000),
    ensures
        r@ == move_s(pos@, rate_v as int, axis@),
        v3_bounded(r@, 0x1_0000_0000),
{
    let delta = v3_scale(rate_v, axis);
    proof {
        lemma_scale_bounded(rate_v as int, axis@, 0x8000_0000, 0x8000_0000);
        assert(0x8000_0000int * 0x8000_0000 / fxi() == 0x4000_0000_0000) by {
            assert(0x8000_0000int * 0x8000_0000 == 65536int * 0x4000_0000_0000);
            vstd::arithmetic::div_mod::lemma_div_multiples_vanish(0x4000_0000_0000, 65536);
        }
    }
    v3_clamp_pos(v3_add(pos, delta))
}

/// One executable backwards translation step, equal to `move_back_s`.
pub fn move_against(pos: Vec3Fx, rate_v: i64, axis: Vec3Fx) -> (r: Vec3Fx)
    requires
        v3_bounded(pos@, 0x1_0000_0000),
        0 <= rate_v <= 0x8000_0000,
        v3_bounded(axis@, 0x8000_0000),
    ensures
        r@ == move_back_s(pos@, rate_v as int, axis@),
        v3_bounded(r@, 0x1_0000_0000),
{
    let delta = v3_scale(-rate_v, axis);
    proof {
        lemma_scale_bounded(-rate_v as int, axis@, 0x8000_0000, 0x8000_0000);
        assert(0x8000_0000int * 0x8000_0000 / fxi() == 0x4000_0000_0000) by {
            assert(0x8000_0000int * 0x8000_0000 == 65536int * 0x4000_0000_0000);
            vstd::arithmetic::div_mod::lemma_div_multiples_vanish(0x4000_0000_0000, 65536);
        }
    }
    v3_clamp_pos(v3_add(pos, delta))
}


/// Recomputation of the derived direction and up vectors (ghost step).
pub open spec fn dir_step_g(c: CamG) -> CamG {
    CamG {
        direction: dir_s(c.yaw, c.pitch),
        up: up_s(c.roll, dir_s(c.yaw, c.pitch)),
        ..c
    }
}

/// Recomputation of the cached view-projection matrix (ghost step); the
/// view block comes from the look-at construction or, for the variant that
/// assembles it by hand, from the manual construction. Sets the "pushed to
/// shader" flag and clears the "needs recompute" flag.
pub open spec fn matrix_step_g(c: CamG, calc_dir: bool, manual: bool) -> CamG {
    let c1 = if calc_dir { dir_step_g(c) } else { c };
    let view = if manual {
        crate::viewproj::view_manual_s(c1.position, c1.direction, c1.up)
    } else {
        crate::viewproj::look_at_s(c1.position, c1.direction, c1.up)
    };
    CamG {
        cam_matrix: crate::linalg::m4_mul_s(
            crate::viewproj::perspective_s(c1.width, c1.height, c1.fov, c1.near_plane,
                c1.far_plane),
            view,
        ),
        is_matrix_updated: true,
        calculate_cam_matrix: false,
        ..c1
    }
}

/// The effect of one window event (ghost step); shared by all variants.
pub open spec fn event_step_g(c: CamG, e: CamEvent, dt: int) -> CamG {
    match e {
        CamEvent::FramebufferSize { width, height } => CamG {
            width: width as int,
            height: height as int,
            calculate_cam_matrix: true,
            ..c
        },
        CamEvent::Scroll { x_offset, y_offset } => CamG {
            fov: scroll_fov_s(c.fov, y_offset as int, dt, c.zoom_sensitivity),
            calculate_cam_matrix: true,
            ..c
        },
        CamEvent::Other => c,
    }
}

/// The full per-frame update of a free camera (ghost step), with the cursor
/// action its host window should perform. Mirrors the sequential structure
/// of the executable update exactly; `manual` picks the view construction.
pub open spec fn free_update_g(c: CamG, i: CamInput, dt: int, manual: bool)
    -> (CamG, CursorAction) {
    let update_speed = rate_s(c.speed, c.shift_multiplier, i.sprint, dt);
    let update_roll = rate_s(c.roll_speed, c.shift_multiplier, i.sprint, dt);
    let update_sens = rate_s(c.sensitivity, 0, false, dt);
    let c0 = CamG { is_matrix_updated: false, calculate_cam_matrix: false, ..c };
    if i.look && c0.first_click {
        (CamG { roll: 0, first_click: false, ..c0 }, CursorAction::HideAndCenter)
    } else {
        let c1 = if i.look {
            CamG {
                roll: 0,
                pitch: look_pitch_s(c0.pitch, update_sens, i.cursor_y as int, c0.height),
                yaw: look_yaw_s(c0.yaw, update_sens, i.cursor_x as int, c0.width),
                calculate_cam_matrix: true,
                ..c0
            }
        } else {
            CamG { first_click: true, ..c0 }
        };
        let c2 = if i.roll_left {
            CamG { roll: norm360_s(c1.roll - update_roll), calculate_cam_matrix: true, ..c1 }
        } else {
            c1
        };
        let c3 = if i.roll_right {
            CamG { roll: norm360_s(c2.roll + update_roll), calculate_cam_matrix: true, ..c2 }
        } else {
            c2
        };
        let c4 = if c3.calculate_cam_matrix { dir_step_g(c3) } else { c3 };
        let c5 = if i.forward {
            CamG {
                position: move_s(c4.position, update_speed, c4.direction),
                calculate_cam_matrix: true,
                ..c4
            }
        } else {
            c4
        };
        let c6 = if i.back {
            CamG {
                position: move_back_s(c5.position, update_speed, c5.direction),
                calculate_cam_matrix: true,
                ..c5
            }
        } else {
            c5
        };
        let c7 = if i.left {
            CamG {
                position: move_back_s(c6.position, update_speed,
                    strafe_s(c6.direction, c6.up)),
                calculate_cam_matrix: true,
                ..c6
            }
        } else {
            c6
        };
        let c8 = if i.right {
            CamG {
                position: move_s(c7.position, update_speed, strafe_s(c7.direction, c7.up)),
                calculate_cam_matrix: true,
                ..c7
            }
        } else {
            c7
        };
        let c9 = if c8.calculate_cam_matrix { matrix_step_g(c8, false, manual) } else { c8 };
        (c9, if i.look { CursorAction::Center } else { CursorAction::Show })
    }
}

/// The initial state of a free camera: given position, orientation and
/// viewport, remaining scalars at their defaults. Yaw and roll are wrapped
/// and pitch clamped, as everywhere else in the camera.
pub open spec fn free_init_g(position: V3, roll: int, pitch: int, yaw: int,
    width: int, height: int) -> CamG {
    CamG {
        width: width,
        height: height,
        position: position,
        roll: norm360_s(roll),
        pitch: clamp_s(pitch, -85 * fxi(), 85 * fxi()),
        yaw: norm360_s(yaw),
        direction: V3 { x: 0, y: 0, z: 0 },
        up: V3 { x: 0, y: 0, z: 0 },
        cam_matrix: crate::linalg::m4_identity_s(),
        speed: fxi(),
        shift_multiplier: 5 * fxi(),
        roll_speed: 25 * fxi(),
        sensitivity: 2000 * fxi(),
        zoom_sensitivity: 100 * fxi(),
        fov: 45 * fxi(),
        near_plane: 6554,
        far_plane: 100 * fxi(),
        first_click: true,
        calculate_cam_matrix: true,
        is_matrix_updated: true,
    }
}


/// The polymorphic camera interface: every variant exposes the same
/// capability set, with its exact behaviour given by the variant's own
/// specification functions over the shared ghost state `CamG`.
pub trait Camera: View<V = CamG> + Sized {
    /// Well-formedness of the camera state.
    spec fn wf(&self) -> bool;

    /// The exact effect of `update`, as a state/action pair.
    spec fn update_spec(&self, i: CamInput, dt: int) -> (CamG, CursorAction);

    /// The exact effect of `handle_window_event`.
    spec fn event_spec(&self, e: CamEvent, dt: int) -> CamG;

    /// The exact effect of `update_cam_matrix`.
    spec fn matrix_spec(&self, calc_dir: bool) -> CamG;

    /// The exact effect of `update_cam_direction`.
    spec fn dir_spec(&self) -> CamG;

    /// The exact effect of `set_cam_matrix`: the new state and the matrix
    /// to upload, if one is due.
    spec fn set_spec(&self) -> (CamG, Option<M4>);

    /// The state `new` establishes.
    spec fn init_spec(position: V3, roll: int, pitch: int, yaw: int,
        width: int, height: int) -> CamG;

    /// Creates and initializes a camera.
    fn new(position: Vec3Fx, roll: i64, pitch: i64, yaw: i64,
        width: u32, height: u32) -> (cam: Self)
        requires
            v3_bounded(position@, 0x1_0000_0000),
            -0x4_0000_0000_0000 <= roll <= 0x4_0000_0000_0000,
            -0x4_0000_0000_0000 <= pitch <= 0x4_0000_0000_0000,
            -0x4_0000_0000_0000 <= yaw <= 0x4_0000_0000_0000,
            1 <= width <= 32768,
            1 <= height <= 32768,
        ensures
            cam.wf(),
            cam@ == Self::init_spec(position@, roll as int, pitch as int, yaw as int,
                width as int, height as int);

    /// Handles a window event (resize or scroll).
    fn handle_window_event(&mut self, event: &CamEvent, time_delta: i64)
        requires
            old(self).wf(),
            event_wf(*event),
            0 <= time_delta <= DT_MAX,
        ensures
            final(self).wf(),
            final(self)@ == old(self).event_spec(*event, time_delta as int);

    /// Recomputes the matrix if dirty and returns it exactly when it has
    /// not yet been pushed this frame; the caller uploads it to its shader
    /// program's camera-matrix uniform.
    fn set_cam_matrix(&mut self) -> (upload: Option<Mat4Fx>)
        requires
            old(self).wf(),
        ensures
            final(self).wf(),
            final(self)@ == old(self).set_spec().0,
            match upload {
                Some(m) => old(self).set_spec().1 == Some(m@),
                None => old(self).set_spec().1 is None,
            };

    /// The per-frame update; returns the cursor action for the host window.
    fn update(&mut self, input: &CamInput, time_delta: i64) -> (action: CursorAction)
        requires
            old(self).wf(),
            input_wf(*input),
            0 <= time_delta <= DT_MAX,
        ensures
            final(self).wf(),
            (final(self)@, action) == old(self).update_spec(*input, time_delta as int);

    /// Recomputes the cached view-projection matrix.
    fn update_cam_matrix(&mut self, calc_dir: bool)
        requires
            old(self).wf(),
        ensures
            final(self).wf(),
            final(self)@ == old(self).matrix_spec(calc_dir);

    /// Recomputes the direction and up vectors from the Euler angles.
    fn update_cam_direction(&mut self)
        requires
            old(self).wf(),
        ensures
            final(self).wf(),
            final(self)@ == old(self).dir_spec();

    /// Unconditionally recomputes and returns the matrix for upload.
    fn force_set_cam_matrix(&mut self) -> (upload: Mat4Fx)
        requires
            old(self).wf(),
        ensures
            final(self).wf(),
            upload@ == old(self).matrix_spec(true).cam_matrix,
            final(self)@ == (CamG {
                is_matrix_updated: false,
                ..old(self).matrix_spec(true)
            });
}

/// A free-roaming camera: moves along its view direction and strafe axis,
/// rotates by mouse-look while the look trigger is held, and may roll.
pub struct FreeCamera {
    pub width: u32,
    pub height: u32,
    pub position: Vec3Fx,
    pub roll: i64,
    pub pitch: i64,
    pub yaw: i64,
    pub direction: Vec3Fx,
    pub up: Vec3Fx,
    pub cam_matrix: Mat4Fx,
    pub speed: i64,
    pub shift_multiplier: i64,
    pub roll_speed: i64,
    pub sensitivity: i64,
    pub zoom_sensitivity: i64,
    pub fov: i64,
    pub near_plane: i64,
    pub far_plane: i64,
    pub first_click: bool,
    pub calculate_cam_matrix: bool,
    pub is_matrix_updated: bool,
}

impl View for FreeCamera {
    type V = CamG;

    open spec fn view(&self) -> CamG {
        CamG {
            width: self.width as int,
            height: self.height as int,
            position: self.position@,
            roll: self.roll as int,
            pitch: self.pitch as int,
            yaw: self.yaw as int,
            direction: self.direction@,
            up: self.up@,
            cam_matrix: self.cam_matrix@,
            speed: self.speed as int,
            shift_multiplier: self.shift_multiplier as int,
            roll_speed: self.roll_speed as int,
            sensitivity: self.sensitivity as int,
            zoom_sensitivity: self.zoom_sensitivity as int,
            fov: self.fov as int,
            near_plane: self.near_plane as int,
            far_plane: self.far_plane as int,
            first_click: self.first_click,
            calculate_cam_matrix: self.calculate_cam_matrix,
            is_matrix_updated: self.is_matrix_updated,
        }
    }
}

impl Camera for FreeCamera {
    open spec fn wf(&self) -> bool {
        wf_g(self@)
    }

    open spec fn update_spec(&self, i: CamInput, dt: int) -> (CamG, CursorAction) {
        free_update_g(self@, i, dt, false)
    }

    open spec fn event_spec(&self, e: CamEvent, dt: int) -> CamG {
        event_step_g(self@, e, dt)
    }

    open spec fn matrix_spec(&self, calc_dir: bool) -> CamG {
        matrix_step_g(self@, calc_dir, false)
    }

    open spec fn dir_spec(&self) -> CamG {
        dir_step_g(self@)
    }

    open spec fn set_spec(&self) -> (CamG, Option<M4>) {
        cam_set_g(self@, false)
    }

    open spec fn init_spec(position: V3, roll: int, pitch: int, yaw: int,
        width: int, height: int) -> CamG {
        CamG {
            calculate_cam_matrix: false,
            ..matrix_step_g(free_init_g(position, roll, pitch, yaw, width, height),
                true, false)
        }
    }

    /// Recomputes the direction and up vectors from the Euler angles.
    fn update_cam_direction(&mut self)
    {
        let d = compute_direction(self.yaw, self.pitch);
        self.direction = d;
        self.up = compute_up(self.roll, d);
    }

    /// Recomputes the cached view-projection matrix (and, if asked, the
    /// direction first); marks the matrix as freshly computed.
    fn update_cam_matrix(&mut self, calc_dir: bool)
    {
        if calc_dir {
            self.update_cam_direction();
        }
        let view = crate::viewproj::look_at(self.position, self.direction, self.up);
        let proj = crate::viewproj::perspective(
            self.width, self.height, self.fov, self.near_plane, self.far_plane);
        self.cam_matrix = crate::linalg::m4_mul(&proj, &view);
        self.is_matrix_updated = true;
        self.calculate_cam_matrix = false;
    }

    /// Handles a window event: a framebuffer resize updates the viewport, a
    /// scroll zooms by adjusting the field of view within `[1, 90]` degrees;
    /// both mark the matrix for recomputation. Other events are ignored.
    fn handle_window_event(&mut self, event: &CamEvent, time_delta: i64)
    {
        match event {
            CamEvent::FramebufferSize { width, height } => {
                self.width = *width;
                self.height = *height;
                self.calculate_cam_matrix = true;
            },
            CamEvent::Scroll { x_offset: _, y_offset } => {
                self.fov = scroll_fov(self.fov, *y_offset, time_delta, self.zoom_sensitivity);
                self.calculate_cam_matrix = true;
            },
            CamEvent::Other => {},
        }
    }

    /// Recomputes the matrix if it is marked dirty, and returns it exactly
    /// when it has not yet been pushed this frame; the caller uploads the
    /// returned matrix to its shader program. Clears the "pushed" flag, so a
    /// second call in the same frame returns nothing.
    fn set_cam_matrix(&mut self) -> (upload: Option<Mat4Fx>)
    {
        if self.calculate_cam_matrix {
            self.update_cam_matrix(true);
        }
        if self.is_matrix_updated {
            self.is_matrix_updated = false;
            Some(self.cam_matrix)
        } else {
            None
        }
    }

    /// Unconditionally recomputes and returns the matrix for upload,
    /// regardless of the per-frame flag lifecycle.
    fn force_set_cam_matrix(&mut self) -> (upload: Mat4Fx)
    {
        self.calculate_cam_matrix = true;
        let r = self.set_cam_matrix();
        match r {
            Some(m) => m,
            None => Mat4Fx::identity(),
        }
    }

    /// The per-frame update: applies sprint, mouse-look (with a first-frame
    /// latch that hides and centers the cursor), roll keys, movement keys,
    /// and recomputes the direction and matrix lazily. Returns the cursor
    /// action for the host window.
    #[verifier::rlimit(60)]
    #[verifier::spinoff_prover]
    fn update(&mut self, input: &CamInput, time_delta: i64) -> (action: CursorAction)
    {
        let update_speed = rate(self.speed, self.shift_multiplier, input.sprint, time_delta);
        let update_roll_speed = rate(
            self.roll_speed, self.shift_multiplier, input.sprint, time_delta);
        let update_sensitivity = rate(self.sensitivity, 0, false, time_delta);

        // Reset here so that set_cam_matrix can serve several shader
        // programs per frame.
        self.is_matrix_updated = false;
        self.calculate_cam_matrix = false;

        if input.look {
            // Mouse input is added to pitch/yaw directly, which does not
            // account for a non-zero roll; reset it.
            self.roll = 0;
            if self.first_click {
                self.first_click = false;
                return CursorAction::HideAndCenter;
            }
            self.pitch = look_pitch(self.pitch, update_sensitivity, input.cursor_y, self.height);
            self.yaw = look_yaw(self.yaw, update_sensitivity, input.cursor_x, self.width);
            self.calculate_cam_matrix = true;
        } else {
            self.first_click = true;
        }

        if input.roll_left {
            self.calculate_cam_matrix = true;
            self.roll = norm360(self.roll - update_roll_speed);
        }
        if input.roll_right {
            self.calculate_cam_matrix = true;
            self.roll = norm360(self.roll + update_roll_speed);
        }

        if self.calculate_cam_matrix {
            self.update_cam_direction();
        }

        if input.forward {
            self.calculate_cam_matrix = true;
            self.position = move_along(self.position, update_speed, self.direction);
        }
        if input.back {
            self.calculate_cam_matrix = true;
            self.position = move_against(self.position, update_speed, self.direction);
        }
        if input.left {
            self.calculate_cam_matrix = true;
            let st = v3_normalize(v3_cross(self.direction, self.up));
            self.position = move_against(self.position, update_speed, st);
        }
        if input.right {
            self.calculate_cam_matrix = true;
            let st = v3_normalize(v3_cross(self.direction, self.up));
            self.position = move_along(self.position, update_speed, st);
        }

        if self.calculate_cam_matrix {
            self.update_cam_matrix(false);
        }

        if input.look {
            CursorAction::Center
        } else {
            CursorAction::Show
        }
    }

    /// Builds a camera at the given position and orientation, with the
    /// remaining scalars at their defaults, and computes the first matrix.
    fn new(position: Vec3Fx, roll: i64, pitch: i64, yaw: i64,
        width: u32, height: u32) -> (cam: FreeCamera)
    {
        let mut cam = FreeCamera {
            width: width,
            height: height,
            position: position,
            roll: norm360(roll),
            pitch: fx_clamp(pitch, -85 * FX, 85 * FX),
            yaw: norm360(yaw),
            direction: Vec3Fx::zero(),
            up: Vec3Fx::zero(),
            cam_matrix: Mat4Fx::identity(),
            speed: FX,
            shift_multiplier: 5 * FX,
            roll_speed: 25 * FX,
            sensitivity: 2000 * FX,
            zoom_sensitivity: 100 * FX,
            fov: 45 * FX,
            near_plane: 6554,
            far_plane: 100 * FX,
            first_click: true,
            calculate_cam_matrix: true,
            is_matrix_updated: true,
        };
        cam.update_cam_matrix(true);
        cam.calculate_cam_matrix = false;
        cam
    }
}

impl Default for FreeCamera {
    /// The camera at the origin looking down the negative `z` axis, with a
    /// `100 x 100` viewport; the matrix is left at the identity and marked
    /// for recomputation.
    fn default() -> (cam: FreeCamera)
        ensures
            cam.wf(),
            cam@ == free_init_g(V3 { x: 0, y: 0, z: 0 }, 0, 0, -90 * 65536, 100, 100),
    {
        FreeCamera {
            width: 100,
            height: 100,
            position: Vec3Fx::zero(),
            roll: norm360(0),
            pitch: 0,
            yaw: norm360(-90 * FX),
            direction: Vec3Fx::zero(),
            up: Vec3Fx::zero(),
            cam_matrix: Mat4Fx::identity(),
            speed: FX,
            shift_multiplier: 5 * FX,
            roll_speed: 25 * FX,
            sensitivity: 2000 * FX,
            zoom_sensitivity: 100 * FX,
            fov: 45 * FX,
            near_plane: 6554,
            far_plane: 100 * FX,
            first_click: true,
            calculate_cam_matrix: true,
            is_matrix_updated: true,
        }
    }
}


/// The effect of `set_cam_matrix` on a camera (ghost step): the new state
/// and the matrix to upload, if one is due; `manual` picks the view
/// construction.
pub open spec fn cam_set_g(c: CamG, manual: bool) -> (CamG, Option<M4>) {
    let c1 = if c.calculate_cam_matrix { matrix_step_g(c, true, manual) } else { c };
    if c1.is_matrix_updated {
        (CamG { is_matrix_updated: false, ..c1 }, Some(c1.cam_matrix))
    } else {
        (c1, None)
    }
}

/// Matrix upload happens at most once per frame: a second `set_cam_matrix`
/// with no intervening `update` or `handle_window_event` uploads nothing.
pub proof fn lemma_matrix_upload_once(c: CamG, manual: bool)
    ensures
        cam_set_g(cam_set_g(c, manual).0, manual).1 is None,
{
}

/// Pitch stays clamped: one free-camera update leaves the pitch within
/// `[-85, 85]` degrees whenever it starts there, whatever the input.
pub proof fn lemma_pitch_clamp_step(c: CamG, i: CamInput, dt: int, manual: bool)
    requires
        -85 * fxi() <= c.pitch <= 85 * fxi(),
    ensures
        -85 * fxi() <= free_update_g(c, i, dt, manual).0.pitch <= 85 * fxi(),
{
}

/// The state after a whole sequence of free-camera updates.
pub open spec fn run_free_updates_g(c: CamG, steps: Seq<(CamInput, int)>, manual: bool)
    -> CamG
    decreases steps.len(),
{
    if steps.len() == 0 {
        c
    } else {
        run_free_updates_g(free_update_g(c, steps[0].0, steps[0].1, manual).0,
            steps.drop_first(), manual)
    }
}

/// Pitch stays clamped under any sequence of mouse-look updates: starting
/// within `[-85, 85]` degrees, every update sequence ends within it.
pub proof fn lemma_pitch_clamp(c: CamG, steps: Seq<(CamInput, int)>, manual: bool)
    requires
        -85 * fxi() <= c.pitch <= 85 * fxi(),
    ensures
        -85 * fxi() <= run_free_updates_g(c, steps, manual).pitch <= 85 * fxi(),
    decreases steps.len(),
{
    if steps.len() > 0 {
        lemma_pitch_clamp_step(c, steps[0].0, steps[0].1, manual);
        lemma_pitch_clamp(free_update_g(c, steps[0].0, steps[0].1, manual).0,
            steps.drop_first(), manual);
    }
}

/// The field of view stays clamped: one window event leaves it within
/// `[1, 90]` degrees whenever it starts there; a scroll event moreover
/// forces it into that range from anywhere.
pub proof fn lemma_fov_clamp_step(c: CamG, e: CamEvent, dt: int)
    requires
        fxi() <= c.fov <= 90 * fxi() || e is Scroll,
    ensures
        fxi() <= event_step_g(c, e, dt).fov <= 90 * fxi(),
{
}

/// The state after a whole sequence of window events.
pub open spec fn run_free_events_g(c: CamG, steps: Seq<(CamEvent, int)>) -> CamG
    decreases steps.len(),
{
    if steps.len() == 0 {
        c
    } else {
        run_free_events_g(event_step_g(c, steps[0].0, steps[0].1), steps.drop_first())
    }
}

/// The field of view stays within `[1, 90]` degrees under any sequence of
/// scroll and resize events.
pub proof fn lemma_fov_clamp(c: CamG, steps: Seq<(CamEvent, int)>)
    requires
        fxi() <= c.fov <= 90 * fxi(),
    ensures
        fxi() <= run_free_events_g(c, steps).fov <= 90 * fxi(),
    decreases steps.len(),
{
    if steps.len() > 0 {
        lemma_fov_clamp_step(c, steps[0].0, steps[0].1);
        lemma_fov_clamp(event_step_g(c, steps[0].0, steps[0].1), steps.drop_first());
    }
}

/// The view direction has unit length up to fixed-point tolerance: for any
/// yaw and pitch, its raw squared norm lies within `[FX^2 - 10 FX - 2,
/// FX^2 + 6 FX]` — a relative length error below `10^-4`.
pub proof fn lemma_direction_norm(yaw: int, pitch: int)
    ensures
        fxi() * fxi() - 10 * fxi() - 2 <= crate::linalg::v3_normsq_s(dir_s(yaw, pitch)),
        crate::linalg::v3_normsq_s(dir_s(yaw, pitch)) <= fxi() * fxi() + 6 * fxi(),
{
    crate::trig::lemma_sincos_bracket(yaw);
    crate::trig::lemma_sincos_bracket(pitch);
    let sy = sin_s(yaw);
    let cy = cos_s(yaw);
    let sp = sin_s(pitch);
    let cp = cos_s(pitch);
    let xx = fxmul_s(cy, cp);
    let zz = fxmul_s(sy, cp);
    let ex = cy * cp;
    let ez = sy * cp;
    vstd::arithmetic::div_mod::lemma_fundamental_div_mod(ex, fxi());
    vstd::arithmetic::div_mod::lemma_fundamental_div_mod(ez, fxi());
    let rx = ex % fxi();
    let rz = ez % fxi();
    assert(-65536 <= xx <= 65536 && -65536 <= zz <= 65536) by {
        crate::fixed::lemma_fxmul_abs_bound(cy, cp, 65536, 65536);
        crate::fixed::lemma_fxmul_abs_bound(sy, cp, 65536, 65536);
        assert(65536int * 65536 / fxi() == 65536) by {
            vstd::arithmetic::div_mod::lemma_div_multiples_vanish(65536, 65536);
        }
    }
    assert(ex * ex - 3 * c3() <= c2() * (xx * xx) <= ex * ex + 3 * c3()) by (nonlinear_arith)
        requires
            ex == 65536 * xx + rx,
            0 <= rx < 65536,
            -65536 <= xx <= 65536,
            c2() == 65536 * 65536,
            c3() == 65536 * 65536 * 65536,
    {}
    assert(ez * ez - 3 * c3() <= c2() * (zz * zz) <= ez * ez + 3 * c3()) by (nonlinear_arith)
        requires
            ez == 65536 * zz + rz,
            0 <= rz < 65536,
            -65536 <= zz <= 65536,
            c2() == 65536 * 65536,
            c3() == 65536 * 65536 * 65536,
    {}
    assert(ex * ex + ez * ez == (cp * cp) * (cy * cy + sy * sy)) by (nonlinear_arith)
        requires ex == cy * cp, ez == sy * cp,
    {}
    assert(0 <= cp * cp <= c2() && 0 <= sp * sp <= c2()) by (nonlinear_arith)
        requires
            -65536 <= cp <= 65536,
            -65536 <= sp <= 65536,
            c2() == 65536int * 65536,
    {}
    assert((cp * cp) * (c2() - 2 * 65536 - 1) <= (cp * cp) * (cy * cy + sy * sy)
        <= (cp * cp) * c2()) by (nonlinear_arith)
        requires
            c2() - 2 * 65536 - 1 < cy * cy + sy * sy,
            cy * cy + sy * sy <= c2(),
            c2() == 65536 * 65536,
    {}
    let nsq = xx * xx + zz * zz + sp * sp;
    assert(c2() * nsq >= c2() * c2() - 10 * c3() - 2 * c2()) by (nonlinear_arith)
        requires
            c2() * (xx * xx) >= ex * ex - 3 * c3(),
            c2() * (zz * zz) >= ez * ez - 3 * c3(),
            ex * ex + ez * ez == (cp * cp) * (cy * cy + sy * sy),
            (cp * cp) * (cy * cy + sy * sy) >= (cp * cp) * (c2() - 2 * 65536 - 1),
            c2() - 2 * 65536 - 1 < cp * cp + sp * sp,
            0 <= cp * cp <= c2(),
            nsq == xx * xx + zz * zz + sp * sp,
            c2() == 65536 * 65536,
            c3() == 65536 * 65536 * 65536,
    {}
    assert(c2() * nsq <= c2() * c2() + 6 * c3()) by (nonlinear_arith)
        requires
            c2() * (xx * xx) <= ex * ex + 3 * c3(),
            c2() * (zz * zz) <= ez * ez + 3 * c3(),
            ex * ex + ez * ez == (cp * cp) * (cy * cy + sy * sy),
            (cp * cp) * (cy * cy + sy * sy) <= (cp * cp) * c2(),
            cp * cp + sp * sp <= c2(),
            0 <= sp * sp,
            0 <= cp * cp,
            nsq == xx * xx + zz * zz + sp * sp,
            c2() == 65536 * 65536,
            c3() == 65536 * 65536 * 65536,
    {}
    assert(c2() - 10 * 65536 - 2 <= nsq <= c2() + 6 * 65536) by (nonlinear_arith)
        requires
            c2() * nsq >= c2() * c2() - 10 * c3() - 2 * c2(),
            c2() * nsq <= c2() * c2() + 6 * c3(),
            c2() == 65536 * 65536,
            c3() == 65536 * 65536 * 65536,
    {}
}

/// With zero roll the camera's up vector is exactly the world up axis — a
/// unit vector — whatever the view direction; rotating by a non-zero roll
/// keeps its components within `[-8 FX, 8 FX]` (see `compute_up`).
pub proof fn lemma_up_roll_zero(d: V3)
    ensures
        up_s(0, d) == unit_y_s(),
{
    crate::trig::lemma_sincos_zero();
    let cr = v3_cross_s(d, unit_y_s());
    crate::fixed::lemma_fxmul_zero(d.y);
    crate::fixed::lemma_fxmul_zero(d.z);
    crate::fixed::lemma_fxmul_zero(d.x);
    crate::fixed::lemma_fxmul_zero(cr.x);
    crate::fixed::lemma_fxmul_zero(cr.y);
    crate::fixed::lemma_fxmul_zero(cr.z);
    crate::fixed::lemma_fxmul_zero(65536);
    crate::fixed::lemma_fxmul_unit(0);
    crate::fixed::lemma_fxmul_unit(65536);
}

/// `FX^2`, as a spec abbreviation for the norm lemma.
pub open spec fn c2() -> int {
    65536int * 65536
}

/// `FX^3`, as a spec abbreviation for the norm lemma.
pub open spec fn c3() -> int {
    65536int * 65536 * 65536
}


/// One planar translation step: `x` and `z` move along a 2-vector in the
/// horizontal plane, `y` stays; saturated.
pub open spec fn move2_s(pos: V3, rate: int, a: crate::linalg::V2) -> V3 {
    v3_clamp_pos_s(V3 {
        x: pos.x + fxmul_s(rate, a.x),
        y: pos.y,
        z: pos.z + fxmul_s(rate, a.y),
    })
}

/// One backwards planar translation step.
pub open spec fn move2_back_s(pos: V3, rate: int, a: crate::linalg::V2) -> V3 {
    v3_clamp_pos_s(V3 {
        x: pos.x + fxmul_s(-rate, a.x),
        y: pos.y,
        z: pos.z + fxmul_s(-rate, a.y),
    })
}

/// One executable planar translation step, equal to `move2_s`.
pub fn move2_along(pos: Vec3Fx, rate_v: i64, a: crate::linalg::Vec2Fx) -> (r: Vec3Fx)
    requires
        v3_bounded(pos@, 0x1_0000_0000),
        0 <= rate_v <= 0x8000_0000,
        -0x8000_0000 <= a.x <= 0x8000_0000,
        -0x8000_0000 <= a.y <= 0x8000_0000,
    ensures
        r@ == move2_s(pos@, rate_v as int, a@),
        v3_bounded(r@, 0x1_0000_0000),
{
    proof {
        crate::fixed::lemma_mul_abs_bound(rate_v as int, a.x as int, 0x8000_0000, 0x8000_0000);
        crate::fixed::lemma_mul_abs_bound(rate_v as int, a.y as int, 0x8000_0000, 0x8000_0000);
        crate::fixed::lemma_fxmul_abs_bound(rate_v as int, a.x as int, 0x8000_0000, 0x8000_0000);
        crate::fixed::lemma_fxmul_abs_bound(rate_v as int, a.y as int, 0x8000_0000, 0x8000_0000);
        assert(0x8000_0000int * 0x8000_0000 / fxi() == 0x4000_0000_0000) by {
            assert(0x8000_0000int * 0x8000_0000 == 65536int * 0x4000_0000_0000);
            vstd::arithmetic::div_mod::lemma_div_multiples_vanish(0x4000_0000_0000, 65536);
        }
    }
    v3_clamp_pos(Vec3Fx {
        x: pos.x + fx_mul(rate_v, a.x),
        y: pos.y,
        z: pos.z + fx_mul(rate_v, a.y),
    })
}

/// One executable backwards planar translation step, equal to `move2_back_s`.
pub fn move2_against(pos: Vec3Fx, rate_v: i64, a: crate::linalg::Vec2Fx) -> (r: Vec3Fx)
    requires
        v3_bounded(pos@, 0x1_0000_0000),
        0 <= rate_v <= 0x8000_0000,
        -0x8000_0000 <= a.x <= 0x8000_0000,
        -0x8000_0000 <= a.y <= 0x8000_0000,
    ensures
        r@ == move2_back_s(pos@, rate_v as int, a@),
        v3_bounded(r@, 0x1_0000_0000),
{
    proof {
        crate::fixed::lemma_mul_abs_bound(-(rate_v as int), a.x as int, 0x8000_0000, 0x8000_0000);
        crate::fixed::lemma_mul_abs_bound(-(rate_v as int), a.y as int, 0x8000_0000, 0x8000_0000);
        crate::fixed::lemma_fxmul_abs_bound(-(rate_v as int), a.x as int, 0x8000_0000, 0x8000_0000);
        crate::fixed::lemma_fxmul_abs_bound(-(rate_v as int), a.y as int, 0x8000_0000, 0x8000_0000);
        assert(0x8000_0000int * 0x8000_0000 / fxi() == 0x4000_0000_0000) by {
            assert(0x8000_0000int * 0x8000_0000 == 65536int * 0x4000_0000_0000);
            vstd::arithmetic::div_mod::lemma_div_multiples_vanish(0x4000_0000_0000, 65536);
        }
    }
    v3_clamp_pos(Vec3Fx {
        x: pos.x + fx_mul(-rate_v, a.x),
        y: pos.y,
        z: pos.z + fx_mul(-rate_v, a.y),
    })
}

} // verus!
