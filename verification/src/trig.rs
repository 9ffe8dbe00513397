//! Fixed-point trigonometry on angles in degrees.
//!
//! The sine uses a rational approximation that is exact at multiples of 90
//! degrees; the cosine magnitude is derived from the sine by an integer
//! square root, so that `sin^2 + cos^2` always lies within `2*FX + 1` of
//! `FX^2` — the camera direction vector inherits a unit-length bound from
//! this construction.

use vstd::prelude::*;
use crate::fixed::{FX, fxi, fxmul_s, fx_mul, fx_div};

verus! {

/// One full turn, in fixed-point degrees.
pub const DEG360: i64 = 23592960;

/// Spec-level full turn.
pub open spec fn deg360() -> int {
    23592960
}

/// Spec-level integer square root: the largest `r >= 0` with `r * r <= n`.
pub open spec fn isqrt_s(n: int) -> int
    decreases n,
{
    if n <= 0 {
        0
    } else {
        let r = isqrt_s(n - 1);
        if (r + 1) * (r + 1) <= n {
            r + 1
        } else {
            r
        }
    }
}

/// The integer square root brackets its argument between consecutive squares.
pub proof fn lemma_isqrt_bracket(n: int)
    requires
        n >= 0,
    ensures
        isqrt_s(n) >= 0,
        isqrt_s(n) * isqrt_s(n) <= n,
        n < (isqrt_s(n) + 1) * (isqrt_s(n) + 1),
    decreases n,
{
    if n == 0 {
    } else {
        lemma_isqrt_bracket(n - 1);
        let r = isqrt_s(n - 1);
        if (r + 1) * (r + 1) <= n {
            assert(n < (r + 2) * (r + 2)) by (nonlinear_arith)
                requires n - 1 < (r + 1) * (r + 1), (r + 1) * (r + 1) <= n, r >= 0,
            {}
        }
    }
}

/// Any value bracketed between consecutive squares is the integer square root.
pub proof fn lemma_isqrt_unique(n: int, r: int)
    requires
        n >= 0,
        r >= 0,
        r * r <= n,
        n < (r + 1) * (r + 1),
    ensures
        r == isqrt_s(n),
{
    lemma_isqrt_bracket(n);
    let s = isqrt_s(n);
    if r < s {
        assert((r + 1) * (r + 1) <= s * s) by (nonlinear_arith)
            requires 0 <= r, r + 1 <= s,
        {}
    }
    if s < r {
        assert((s + 1) * (s + 1) <= r * r) by (nonlinear_arith)
            requires 0 <= s, s + 1 <= r,
        {}
    }
}

/// Executable integer square root by bisection.
pub fn isqrt64(n: u64) -> (r: u64)
    requires
        n < 0x1_0000_0000_0000,
    ensures
        r == isqrt_s(n as int),
        r * r <= n,
        n < (r + 1) * (r + 1),
{
    let mut lo: u64 = 0;
    let mut hi: u64 = 0x100_0000;
    proof {
        assert((0x100_0000int) * 0x100_0000 > n);
    }
    while lo + 1 < hi
        invariant
            lo < hi <= 0x100_0000,
            lo * lo <= n,
            n < hi * hi,
        decreases hi - lo,
    {
        let mid: u64 = lo + (hi - lo) / 2;
        proof {
            assert(mid * mid <= 0x1_0000_0000_0000) by (nonlinear_arith)
                requires mid <= 0x100_0000,
            {}
        }
        if mid * mid <= n {
            lo = mid;
        } else {
            hi = mid;
        }
    }
    proof {
        lemma_isqrt_unique(n as int, lo as int);
    }
    lo
}

/// Spec-level sine on `[0, 180]` degrees (fixed point), by the rational
/// approximation `4 x (180 - x) / (40500 - x (180 - x))`, exact at 0, 90
/// and 180 degrees.
pub open spec fn sin_half_s(x: int) -> int {
    let u = fxmul_s(x, 180 * fxi() - x);
    (4 * u * fxi()) / (40500 * fxi() - u)
}

/// Spec-level reduction of an angle to `[0, 360)` degrees.
pub open spec fn norm360_s(a: int) -> int {
    a % deg360()
}

/// Spec-level sine for any angle.
pub open spec fn sin_s(a: int) -> int {
    let r = norm360_s(a);
    if r <= 180 * fxi() {
        sin_half_s(r)
    } else {
        -sin_half_s(r - 180 * fxi())
    }
}

/// Spec-level cosine for any angle: magnitude from the sine by the integer
/// square root, sign from the quadrant.
pub open spec fn cos_s(a: int) -> int {
    let r = norm360_s(a);
    let s = sin_s(a);
    let m = isqrt_s(fxi() * fxi() - s * s);
    if 90 * fxi() < r && r < 270 * fxi() {
        -m
    } else {
        m
    }
}

/// The product `x * (180 * FX - x)` for `x` in `[0, 180 * FX]` lies in
/// `[0, 8100 * FX^2]` (the maximum is at the midpoint).
proof fn lemma_bhaskara_u_range(x: int)
    by (nonlinear_arith)
    requires
        0 <= x <= 180 * 65536,
    ensures
        0 <= x * (180 * 65536 - x),
        x * (180 * 65536 - x) <= 8100 * 65536 * 65536,
{
    let m = x - 90 * 65536;
    assert(m * m >= 0);
}

/// The half-range sine stays within `[0, FX]`.
pub proof fn lemma_sin_half_range(x: int)
    requires
        0 <= x <= 180 * fxi(),
    ensures
        0 <= sin_half_s(x) <= fxi(),
{
    lemma_bhaskara_u_range(x);
    let u = fxmul_s(x, 180 * fxi() - x);
    assert(0 <= u <= 8100 * fxi()) by {
        crate::fixed::lemma_fxdiv_abs_bound(x * (180 * fxi() - x), 8100 * fxi());
        vstd::arithmetic::div_mod::lemma_div_pos_is_pos(x * (180 * fxi() - x), fxi());
    }
    let num = 4 * u * fxi();
    let den = 40500 * fxi() - u;
    assert(num <= fxi() * den) by (nonlinear_arith)
        requires num == 4 * u * 65536, den == 40500 * 65536 - u, u <= 8100 * 65536,
    {}
    assert(num / den <= (fxi() * den) / den) by {
        vstd::arithmetic::div_mod::lemma_div_is_ordered(num, fxi() * den, den);
    }
    assert((fxi() * den) / den == fxi()) by {
        vstd::arithmetic::div_mod::lemma_div_multiples_vanish(fxi(), den);
    }
    assert(num / den >= 0) by {
        vstd::arithmetic::div_mod::lemma_div_pos_is_pos(num, den);
    }
}

/// The sine of any angle stays within `[-FX, FX]`.
pub proof fn lemma_sin_range(a: int)
    ensures
        -fxi() <= sin_s(a) <= fxi(),
{
    let r = norm360_s(a);
    assert(0 <= r < deg360()) by {
        vstd::arithmetic::div_mod::lemma_mod_division_less_than_divisor(a, deg360());
    }
    if r <= 180 * fxi() {
        lemma_sin_half_range(r);
    } else {
        lemma_sin_half_range(r - 180 * fxi());
    }
}

/// Lower bound on the half-range sine for angles at least half a degree and
/// at most 45 degrees; used to bound the perspective cotangent.
pub proof fn lemma_sin_half_lower(x: int)
    requires
        32768 <= x <= 45 * fxi(),
    ensures
        sin_half_s(x) >= 400,
{
    assert(x * (180 * fxi() - x) >= 32768 * (135 * 65536)) by (nonlinear_arith)
        requires 32768 <= x, x <= 45 * 65536,
    {}
    let u = fxmul_s(x, 180 * fxi() - x);
    assert(u >= 4423680) by {
        vstd::arithmetic::div_mod::lemma_div_is_ordered(
            32768int * (135 * 65536), x * (180 * fxi() - x), fxi());
        assert((32768int * (135 * 65536)) / 65536int == 4423680) by {
            vstd::arithmetic::div_mod::lemma_div_multiples_vanish(4423680int, 65536int);
        }
    }
    lemma_bhaskara_u_range(x);
    assert(u <= 8100 * fxi()) by {
        crate::fixed::lemma_fxdiv_abs_bound(x * (180 * fxi() - x), 8100 * fxi());
    }
    let num = 4 * u * fxi();
    let den = 40500 * fxi() - u;
    assert(num / den >= (4 * 4423680 * fxi()) / den) by {
        vstd::arithmetic::div_mod::lemma_div_is_ordered(4 * 4423680 * fxi(), num, den);
    }
    assert((4 * 4423680 * fxi()) / den >= (4 * 4423680 * fxi()) / (40500 * fxi())) by {
        vstd::arithmetic::div_mod::lemma_div_is_ordered_by_denominator(
            4 * 4423680 * fxi(), den, 40500 * fxi());
    }
    assert((4 * 4423680 * 65536int) / (40500 * 65536int) == 436) by {
        vstd::arithmetic::div_mod::lemma_fundamental_div_mod_converse_div(
            4int * 4423680 * 65536, 40500int * 65536, 436int, 36720int * 65536);
    }
}

/// Reduces an angle to `[0, 360)` degrees, matching the spec-level
/// Euclidean remainder.
pub fn norm360(a: i64) -> (r: i64)
    requires
        -0x4_0000_0000_0000 <= a <= 0x4_0000_0000_0000,
    ensures
        r == norm360_s(a as int),
        0 <= r < DEG360,
{
    proof {
        vstd::arithmetic::div_mod::lemma_mod_division_less_than_divisor(a as int, deg360());
    }
    if 0 <= a && a < DEG360 {
        proof {
            vstd::arithmetic::div_mod::lemma_small_mod(a as nat, deg360() as nat);
        }
        a
    } else {
        let shifted: u64 = (a + DEG360 * 0x400_0000) as u64;
        let m: u64 = shifted % (DEG360 as u64);
        proof {
            vstd::arithmetic::div_mod::lemma_mod_multiples_vanish(
                0x400_0000, a as int, deg360());
        }
        m as i64
    }
}

/// Computes `(sin a, cos a)` in fixed point.
///
/// The pair satisfies `FX^2 - 2*FX - 1 < s^2 + c^2 <= FX^2` by construction.
pub fn sincos(a: i64) -> (r: (i64, i64))
    requires
        -0x4_0000_0000_0000 <= a <= 0x4_0000_0000_0000,
    ensures
        r.0 == sin_s(a as int),
        r.1 == cos_s(a as int),
        -FX <= r.0 <= FX,
        -FX <= r.1 <= FX,
        fxi() * fxi() - 2 * fxi() - 1 < r.0 * r.0 + r.1 * r.1,
        r.0 * r.0 + r.1 * r.1 <= fxi() * fxi(),
{
    let red = norm360(a);
    let s: i64 = if red <= 180 * FX {
        sin_half(red)
    } else {
        -sin_half(red - 180 * FX)
    };
    proof {
        assert(s == sin_s(a as int));
        lemma_sin_range(a as int);
        assert(0 <= s * s <= 65536 * 65536) by (nonlinear_arith)
            requires -65536 <= s <= 65536,
        {}
    }
    let mq: u64 = isqrt64((FX * FX - s * s) as u64);
    proof {
        let n = fxi() * fxi() - s * s;
        lemma_isqrt_bracket(n);
        assert(mq <= 65536) by (nonlinear_arith)
            requires
                mq * mq <= n,
                n <= 65536 * 65536,
        {}
    }
    let m: i64 = mq as i64;
    let c: i64 = if 90 * FX < red && red < 270 * FX {
        -m
    } else {
        m
    };
    proof {
        let n = fxi() * fxi() - s * s;
        assert(c == cos_s(a as int));
        assert(c * c == m * m) by (nonlinear_arith)
            requires c == m || c == -m,
        {}
        assert(fxi() * fxi() - 2 * fxi() - 1 < s * s + m * m) by (nonlinear_arith)
            requires
                0 <= m <= 65536,
                n == 65536 * 65536 - s * s,
                n < (m + 1) * (m + 1),
        {}
    }
    (s, c)
}

/// The half-range sine, executable form.
fn sin_half(x: i64) -> (s: i64)
    requires
        0 <= x <= 180 * FX,
    ensures
        s == sin_half_s(x as int),
        0 <= s <= FX,
{
    proof {
        lemma_bhaskara_u_range(x as int);
        lemma_sin_half_range(x as int);
        crate::fixed::lemma_fxdiv_abs_bound(
            (x as int) * (180 * fxi() - x), 8100 * fxi());
        vstd::arithmetic::div_mod::lemma_div_pos_is_pos(
            (x as int) * (180 * fxi() - x), fxi());
    }
    let u: i64 = fx_mul(x, 180 * FX - x);
    fx_div(4 * u * FX, 40500 * FX - u)
}


/// The sine/cosine pair of any angle satisfies the Pythagorean identity up
/// to the integer-square-root bracket: `FX^2 - 2 FX - 1 < s^2 + c^2 <= FX^2`.
pub proof fn lemma_sincos_bracket(a: int)
    ensures
        -fxi() <= sin_s(a) <= fxi(),
        -fxi() <= cos_s(a) <= fxi(),
        fxi() * fxi() - 2 * fxi() - 1 < sin_s(a) * sin_s(a) + cos_s(a) * cos_s(a),
        sin_s(a) * sin_s(a) + cos_s(a) * cos_s(a) <= fxi() * fxi(),
{
    lemma_sin_range(a);
    let s = sin_s(a);
    let c = cos_s(a);
    assert(0 <= s * s <= fxi() * fxi()) by (nonlinear_arith)
        requires -65536 <= s <= 65536,
    {}
    let n = fxi() * fxi() - s * s;
    lemma_isqrt_bracket(n);
    let m = isqrt_s(n);
    assert(m <= fxi()) by (nonlinear_arith)
        requires m >= 0, m * m <= n, n <= 65536 * 65536,
    {}
    assert(c == m || c == -m);
    assert(c * c == m * m) by (nonlinear_arith)
        requires c == m || c == -m,
    {}
    assert(fxi() * fxi() - 2 * fxi() - 1 < s * s + m * m) by (nonlinear_arith)
        requires
            0 <= m <= 65536,
            n == 65536 * 65536 - s * s,
            n < (m + 1) * (m + 1),
    {}
}


/// The sine and cosine of angle zero are exact: 0 and `FX`.
pub proof fn lemma_sincos_zero()
    ensures
        sin_s(0) == 0,
        cos_s(0) == fxi(),
{
    vstd::arithmetic::div_mod::lemma_small_mod(0nat, deg360() as nat);
    vstd::arithmetic::div_mod::lemma_div_of0(65536);
    assert(0int * (180 * fxi() - 0) == 0);
    assert(fxmul_s(0, 180 * fxi() - 0) == 0);
    vstd::arithmetic::div_mod::lemma_div_of0(40500int * 65536);
    assert(4int * 0 * fxi() == 0);
    assert(sin_half_s(0) == 0);
    assert(sin_s(0) == 0);
    lemma_isqrt_unique(65536int * 65536, 65536);
}

} // verus!
