//! Fixed-point scalar arithmetic at scale `FX = 2^16`.
//!
//! A fixed-point number represents the real value `x / FX`. All executable
//! operations agree exactly with their specification-level counterparts,
//! which use flooring (Euclidean) division by the positive scale.

use vstd::prelude::*;

verus! {

/// The fixed-point scale: one whole unit.
pub const FX: i64 = 65536;

/// The scale as a spec-level integer.
pub open spec fn fxi() -> int {
    65536
}

/// Spec-level fixed-point product: `(a * b) / FX`, flooring.
pub open spec fn fxmul_s(a: int, b: int) -> int {
    (a * b) / fxi()
}

/// Flooring division by a positive divisor relates to the quotient and
/// remainder of the magnitude: for `n > 0`, `(-n) / b == -((n + b - 1) / b)`.
proof fn lemma_neg_floor_div(n: int, b: int, q: int)
    requires
        n > 0,
        b >= 1,
        q == (n + (b - 1)) / b,
    ensures
        -q == (-n) / b,
{
    let fq = n / b;
    let fr = n % b;
    vstd::arithmetic::div_mod::lemma_fundamental_div_mod(n, b);
    if fr == 0 {
        assert(n + (b - 1) == fq * b + (b - 1)) by (nonlinear_arith)
            requires n == b * fq + fr, fr == 0,
        {}
        vstd::arithmetic::div_mod::lemma_fundamental_div_mod_converse_div(
            n + (b - 1), b, fq, b - 1);
        assert(-n == (-fq) * b + 0) by (nonlinear_arith)
            requires n == b * fq + fr, fr == 0,
        {}
        vstd::arithmetic::div_mod::lemma_fundamental_div_mod_converse_div(-n, b, -fq, 0);
    } else {
        assert(n + (b - 1) == (fq + 1) * b + (fr - 1)) by (nonlinear_arith)
            requires n == b * fq + fr,
        {}
        vstd::arithmetic::div_mod::lemma_fundamental_div_mod_converse_div(
            n + (b - 1), b, fq + 1, fr - 1);
        assert(-n == (-fq - 1) * b + (b - fr)) by (nonlinear_arith)
            requires n == b * fq + fr,
        {}
        vstd::arithmetic::div_mod::lemma_fundamental_div_mod_converse_div(
            -n, b, -fq - 1, b - fr);
    }
}

proof fn lemma_abs_mul(a: int, b: int, am: int, bm: int)
    by (nonlinear_arith)
    requires
        am == if a >= 0 { a } else { -a },
        bm == if b >= 0 { b } else { -b },
    ensures
        am * bm == if a * b >= 0 { a * b } else { -(a * b) },
        ((a < 0) != (b < 0)) && am * bm != 0 ==> a * b < 0,
        !((a < 0) != (b < 0)) ==> a * b >= 0,
{
}

/// Fixed-point product `(a * b) / FX`, rounding toward negative infinity,
/// so that the result equals the spec-level `fxmul_s` exactly.
pub fn fx_mul(a: i64, b: i64) -> (r: i64)
    requires
        -0x7fff_ffff_ffff_ffff * 0x1_0000 <= a * b <= 0x7fff_ffff_ffff_ffff * 0x1_0000,
    ensures
        r == fxmul_s(a as int, b as int),
{
    let neg: bool = (a < 0) != (b < 0);
    let am: u64 = if a >= 0 { a as u64 } else { ((-1 - a) as u64) + 1 };
    let bm: u64 = if b >= 0 { b as u64 } else { ((-1 - b) as u64) + 1 };
    proof {
        assert(am == if a >= 0 { a as int } else { -(a as int) });
        assert(bm == if b >= 0 { b as int } else { -(b as int) });
        lemma_abs_mul(a as int, b as int, am as int, bm as int);
    }
    let p: u128 = (am as u128) * (bm as u128);
    if neg && p > 0 {
        let q: u128 = (p + 65535) / 65536;
        proof {
            lemma_neg_floor_div(p as int, 65536, q as int);
            assert((-0x7fff_ffff_ffff_ffff * 0x1_0000) / fxi() <= (a * b) / fxi()) by {
                vstd::arithmetic::div_mod::lemma_div_is_ordered(
                    -0x7fff_ffff_ffff_ffffint * 0x1_0000, a * b, fxi());
            }
            assert((-0x7fff_ffff_ffff_ffffint * 0x1_0000) / fxi() == -0x7fff_ffff_ffff_ffff) by {
                vstd::arithmetic::div_mod::lemma_div_multiples_vanish(
                    -0x7fff_ffff_ffff_ffff, fxi());
            }
        }
        -(q as i64)
    } else {
        let q: u128 = p / 65536;
        proof {
            if p == 0 {
                assert(a * b == 0);
            }
            assert((a * b) / fxi() <= (0x7fff_ffff_ffff_ffffint * 0x1_0000) / fxi()) by {
                vstd::arithmetic::div_mod::lemma_div_is_ordered(
                    a * b, 0x7fff_ffff_ffff_ffffint * 0x1_0000, fxi());
            }
            assert((0x7fff_ffff_ffff_ffffint * 0x1_0000) / fxi() == 0x7fff_ffff_ffff_ffff) by {
                vstd::arithmetic::div_mod::lemma_div_multiples_vanish(
                    0x7fff_ffff_ffff_ffff, fxi());
            }
        }
        q as i64
    }
}

/// Flooring (Euclidean) division by a positive divisor, matching the
/// spec-level `/` exactly.
pub fn fx_div(a: i64, b: i64) -> (r: i64)
    requires
        1 <= b <= 0x1_0000_0000_0000,
        -0x4000_0000_0000_0000 <= a,
    ensures
        r == a as int / b as int,
{
    if a >= 0 {
        a / b
    } else {
        let n: i64 = -a;
        let q: i64 = (n + (b - 1)) / b;
        proof {
            lemma_neg_floor_div(n as int, b as int, q as int);
        }
        -q
    }
}

/// Spec-level clamp of `x` into `[lo, hi]`.
pub open spec fn clamp_s(x: int, lo: int, hi: int) -> int {
    if x < lo {
        lo
    } else if x > hi {
        hi
    } else {
        x
    }
}

/// Clamps `x` into `[lo, hi]`.
pub fn fx_clamp(x: i64, lo: i64, hi: i64) -> (r: i64)
    requires
        lo <= hi,
    ensures
        r == clamp_s(x as int, lo as int, hi as int),
        lo <= r <= hi,
{
    if x < lo {
        lo
    } else if x > hi {
        hi
    } else {
        x
    }
}

/// If both factors are bounded in magnitude, so is the product.
pub proof fn lemma_mul_abs_bound(a: int, b: int, ca: int, cb: int)
    by (nonlinear_arith)
    requires
        -ca <= a <= ca,
        -cb <= b <= cb,
        0 <= ca,
        0 <= cb,
    ensures
        -(ca * cb) <= a * b <= ca * cb,
{
}

/// A flooring division by the scale shrinks magnitudes: `|p / FX| <= c`
/// whenever `|p| <= c * FX`.
pub proof fn lemma_fxdiv_abs_bound(p: int, c: int)
    requires
        0 <= c,
        -(c * fxi()) <= p <= c * fxi(),
    ensures
        -c <= p / fxi() <= c,
{
    vstd::arithmetic::div_mod::lemma_div_is_ordered(p, c * fxi(), fxi());
    vstd::arithmetic::div_mod::lemma_div_is_ordered(-(c * fxi()), p, fxi());
    assert((c * fxi()) / fxi() == c) by {
        vstd::arithmetic::div_mod::lemma_div_multiples_vanish(c, fxi());
    }
    assert((-(c * fxi())) / fxi() == -c) by {
        vstd::arithmetic::div_mod::lemma_div_multiples_vanish(-c, fxi());
    }
}

/// Magnitude bound for a fixed-point product of bounded factors:
/// `|fxmul_s(a, b)| <= ca * cb / FX` when `|a| <= ca`, `|b| <= cb` and
/// `ca * cb` is a multiple of the scale.
pub proof fn lemma_fxmul_abs_bound(a: int, b: int, ca: int, cb: int)
    requires
        -ca <= a <= ca,
        -cb <= b <= cb,
        0 <= ca,
        0 <= cb,
        ca * cb % fxi() == 0,
    ensures
        -(ca * cb / fxi()) <= fxmul_s(a, b) <= ca * cb / fxi(),
{
    lemma_mul_abs_bound(a, b, ca, cb);
    assert(ca * cb / fxi() * fxi() == ca * cb) by {
        vstd::arithmetic::div_mod::lemma_fundamental_div_mod(ca * cb, fxi());
    }
    lemma_fxdiv_abs_bound(a * b, ca * cb / fxi());
}


/// A fixed-point factor of zero gives zero.
pub proof fn lemma_fxmul_zero(x: int)
    ensures
        fxmul_s(0, x) == 0,
        fxmul_s(x, 0) == 0,
{
    assert(0 * x == 0);
    assert(x * 0 == 0);
    vstd::arithmetic::div_mod::lemma_div_of0(fxi());
}

/// A fixed-point factor of one (`FX`) is exact.
pub proof fn lemma_fxmul_unit(x: int)
    ensures
        fxmul_s(65536, x) == x,
        fxmul_s(x, 65536) == x,
{
    assert(65536 * x == x * 65536);
    vstd::arithmetic::div_mod::lemma_div_multiples_vanish(x, 65536);
}

/// A fixed-point factor of minus one (`-FX`) negates exactly.
pub proof fn lemma_fxmul_neg_unit(x: int)
    ensures
        fxmul_s(-65536, x) == -x,
        fxmul_s(x, -65536) == -x,
{
    assert((-65536) * x == 65536 * (-x)) by (nonlinear_arith) {}
    assert(x * (-65536) == 65536 * (-x)) by (nonlinear_arith) {}
    vstd::arithmetic::div_mod::lemma_div_multiples_vanish(-x, 65536);
}

} // verus!
