//! Scalar arithmetic in milli-units.
//!
//! A quantity of one unit is stored as the `i64` value `1000`; all geometry
//! and scoring in the crate is expressed this way. Division and the product
//! of two milli-values truncate toward zero, as the surrounding executable
//! arithmetic does.

use vstd::prelude::*;
use vstd::arithmetic::div_mod::{
    lemma_div_is_ordered, lemma_div_multiples_vanish, lemma_div_pos_is_pos,
    lemma_fundamental_div_mod, lemma_mod_division_less_than_divisor,
};

verus! {

/// One unit, in milli-units.
pub const SCALE: i64 = 1000;

/// Largest coordinate magnitude the geometry accepts, in milli-units
/// (one million units). Keeps every product of two values inside `i64`.
pub const MAX_MILLI: i64 = 1_000_000_000;

/// Truncating division for a positive divisor: rounds toward zero,
/// as `/` does on machine integers.
pub open spec fn tdiv(a: int, b: int) -> int {
    if a >= 0 {
        a / b
    } else {
        -((-a) / b)
    }
}

/// The product of two milli-values, itself in milli-units.
pub open spec fn spec_mul_milli(a: int, b: int) -> int {
    tdiv(a * b, 1000)
}

pub open spec fn spec_min(a: int, b: int) -> int {
    if a < b {
        a
    } else {
        b
    }
}

pub open spec fn spec_max(a: int, b: int) -> int {
    if a > b {
        a
    } else {
        b
    }
}

pub open spec fn spec_clamp(v: int, lo: int, hi: int) -> int {
    spec_min(spec_max(v, lo), hi)
}

pub open spec fn spec_abs(a: int) -> int {
    if a < 0 {
        -a
    } else {
        a
    }
}

/// Floor of the square root of a non-negative integer.
pub open spec fn spec_isqrt(n: int) -> int
    decreases n,
    when n >= 0
{
    if n <= 0 {
        0
    } else {
        let r = spec_isqrt(n - 1);
        if (r + 1) * (r + 1) <= n {
            r + 1
        } else {
            r
        }
    }
}

/// `spec_isqrt` is exactly the floor of the square root.
pub proof fn lemma_isqrt_bounds(n: int)
    requires
        n >= 0,
    ensures
        0 <= spec_isqrt(n),
        spec_isqrt(n) * spec_isqrt(n) <= n,
        n < (spec_isqrt(n) + 1) * (spec_isqrt(n) + 1),
    decreases n,
{
    if n > 0 {
        lemma_isqrt_bounds(n - 1);
        let r = spec_isqrt(n - 1);
        if (r + 1) * (r + 1) <= n {
            assert(spec_isqrt(n) == r + 1);
            assert((r + 1) * (r + 1) < (r + 2) * (r + 2)) by (nonlinear_arith)
                requires r >= 0;
        } else {
            assert(spec_isqrt(n) == r);
        }
    }
}

/// The floor square root is unique: any `r` with `r^2 <= n < (r+1)^2`
/// equals `spec_isqrt(n)`.
pub proof fn lemma_isqrt_unique(n: int, r: int)
    requires
        0 <= r,
        r * r <= n,
        n < (r + 1) * (r + 1),
    ensures
        r == spec_isqrt(n),
{
    lemma_isqrt_bounds(n);
    let s = spec_isqrt(n);
    if r < s {
        assert((r + 1) * (r + 1) <= s * s) by (nonlinear_arith)
            requires 0 <= r + 1 <= s;
    }
    if s < r {
        assert((s + 1) * (s + 1) <= r * r) by (nonlinear_arith)
            requires 0 <= s + 1 <= r;
    }
}

/// The smaller of two values.
pub fn min(a: i64, b: i64) -> (r: i64)
    ensures
        r == spec_min(a as int, b as int),
{
    if a < b {
        a
    } else {
        b
    }
}

/// The larger of two values.
pub fn max(a: i64, b: i64) -> (r: i64)
    ensures
        r == spec_max(a as int, b as int),
{
    if a > b {
        a
    } else {
        b
    }
}

/// `value` forced into `[lo, hi]`; `lo` wins when `lo > hi`.
pub fn clamp(value: i64, lo: i64, hi: i64) -> (r: i64)
    requires
        lo != i64::MIN,
    ensures
        r == spec_clamp(value as int, lo as int, hi as int),
{
    min(max(value, lo), hi)
}

/// Absolute value.
pub fn abs(value: i64) -> (r: i64)
    requires
        value != i64::MIN,
    ensures
        r == spec_abs(value as int),
{
    if value < 0 {
        -value
    } else {
        value
    }
}

/// Truncating division by a positive divisor.
pub fn div_trunc(a: i64, b: i64) -> (r: i64)
    requires
        b > 0,
        a != i64::MIN,
    ensures
        r == tdiv(a as int, b as int),
{
    if a >= 0 {
        ((a as u64) / (b as u64)) as i64
    } else {
        let q = ((-a) as u64) / (b as u64);
        -(q as i64)
    }
}

/// The product of two milli-values, in milli-units.
pub fn mul_milli(a: i64, b: i64) -> (r: i64)
    requires
        -0x7fff_ffff_ffff_ffff <= a * b <= 0x7fff_ffff_ffff_ffff,
    ensures
        r == spec_mul_milli(a as int, b as int),
{
    div_trunc(a * b, SCALE)
}

/// `a` moved toward `b` by the fraction `p` (in milli-units), `p` first
/// clamped to `[0, 1000]`. With `p = 0` the result is exactly `a`; with
/// `p = 1000` it is exactly `b`.
pub open spec fn spec_lerp(a: int, b: int, p: int) -> int {
    let q = spec_clamp(p, 0, 1000);
    tdiv(a * (1000 - q) + b * q, 1000)
}

/// Linear interpolation of milli-values.
pub fn lerp(a: i64, b: i64, p: i64) -> (r: i64)
    requires
        -2 * MAX_MILLI <= a <= 2 * MAX_MILLI,
        -2 * MAX_MILLI <= b <= 2 * MAX_MILLI,
        p != i64::MIN,
    ensures
        r == spec_lerp(a as int, b as int, p as int),
{
    let q = clamp(p, 0, 1000);
    proof {
        assert(-2_000_000_000_000 <= a * (1000 - q) <= 2_000_000_000_000) by (nonlinear_arith)
            requires -2 * MAX_MILLI <= a <= 2 * MAX_MILLI && 0 <= q <= 1000;
        assert(-2_000_000_000_000 <= b * q <= 2_000_000_000_000) by (nonlinear_arith)
            requires -2 * MAX_MILLI <= b <= 2 * MAX_MILLI && 0 <= q <= 1000;
    }
    div_trunc(a * (1000 - q) + b * q, SCALE)
}

/// Floor square root.
pub fn isqrt(x: i64) -> (r: i64)
    requires
        x >= 0,
    ensures
        0 <= r,
        r == spec_isqrt(x as int),
        r * r <= x < (r + 1) * (r + 1),
{
    let xu = x as u64;
    let mut lo: u64 = 0;
    let mut hi: u64 = 3_037_000_500;
    proof {
        assert(3_037_000_500 * 3_037_000_500 > 0x7fff_ffff_ffff_ffff) by (nonlinear_arith);
    }
    while lo + 1 < hi
        invariant
            lo < hi <= 3_037_000_500,
            lo * lo <= xu,
            xu < hi * hi,
        decreases hi - lo,
    {
        let mid = lo + (hi - lo) / 2;
        proof {
            assert(mid * mid <= 3_037_000_500 * 3_037_000_500) by (nonlinear_arith)
                requires 0 <= mid <= 3_037_000_500;
        }
        if mid * mid <= xu {
            lo = mid;
        } else {
            hi = mid;
        }
    }
    let r = lo as i64;
    proof {
        lemma_isqrt_unique(x as int, lo as int);
    }
    r
}


/// For a positive divisor `b`, `|a| <= k * b` bounds the truncating
/// quotient by `k`.
pub proof fn lemma_tdiv_bound(a: int, b: int, k: int)
    requires
        b > 0,
        k >= 0,
        -(k * b) <= a <= k * b,
    ensures
        -k <= tdiv(a, b) <= k,
{
    assert(k * b == b * k) by (nonlinear_arith);
    if a >= 0 {
        lemma_div_pos_is_pos(a, b);
        lemma_div_is_ordered(a, k * b, b);
        lemma_div_multiples_vanish(k, b);
    } else {
        lemma_div_pos_is_pos(-a, b);
        lemma_div_is_ordered(-a, k * b, b);
        lemma_div_multiples_vanish(k, b);
    }
}

/// Dividing `a * m` by `|a|` is exact: the quotient is `m` with the
/// sign of `a`.
pub proof fn lemma_tdiv_self_scale(a: int, m: int)
    requires
        a != 0,
        m >= 0,
    ensures
        tdiv(a * m, spec_abs(a)) == if a > 0 { m } else { -m },
{
    if a > 0 {
        assert(a * m >= 0) by (nonlinear_arith)
            requires a > 0 && m >= 0;
        lemma_div_multiples_vanish(m, a);
        assert(a * m / a == m);
    } else {
        assert(a * m <= 0) by (nonlinear_arith)
            requires a < 0 && m >= 0;
        lemma_div_multiples_vanish(m, -a);
        assert(-(a * m) == (-a) * m) by (nonlinear_arith);
        assert((-a) * m / (-a) == m);
    }
}


/// The truncating quotient recovers the dividend to within one divisor:
/// `|tdiv(a, b)| * b` sits in `(|a| - b, |a|]`.
pub proof fn lemma_tdiv_mul_bounds(a: int, b: int)
    requires
        b > 0,
    ensures
        0 <= spec_abs(tdiv(a, b)) * b <= spec_abs(a),
        spec_abs(a) - b < spec_abs(tdiv(a, b)) * b,
{
    let v = if a >= 0 {
        a
    } else {
        -a
    };
    lemma_fundamental_div_mod(v, b);
    lemma_mod_division_less_than_divisor(v, b);
    lemma_div_pos_is_pos(v, b);
    assert(b * (v / b) == (v / b) * b) by (nonlinear_arith);
    assert(spec_abs(tdiv(a, b)) == v / b);
}

} // verus!
