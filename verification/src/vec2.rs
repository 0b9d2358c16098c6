//! Plane vectors in milli-units.
//!
//! `Vec2 { x: 1000, y: 0 }` is the unit vector along the x axis. The scene
//! the robot plays on is a few dozen units across, so coordinates stay far
//! inside the `MAX_MILLI` working range.

use vstd::prelude::*;
use crate::math::{
    MAX_MILLI, spec_isqrt, tdiv, spec_lerp, spec_mul_milli, lemma_isqrt_bounds, mul_milli,
    div_trunc, isqrt, lerp,
};

verus! {

#[derive(Clone, Copy, Debug, PartialEq, Eq, Structural)]
pub struct Vec2 {
    pub x: i64,
    pub y: i64,
}

/// Coordinates of a scene point, inside the working range.
pub open spec fn in_range(v: Vec2) -> bool {
    &&& -MAX_MILLI <= v.x <= MAX_MILLI
    &&& -MAX_MILLI <= v.y <= MAX_MILLI
}

/// Coordinates of a derived vector (a difference of two scene points
/// at worst), inside twice the working range.
pub open spec fn in_range2(v: Vec2) -> bool {
    &&& -2 * MAX_MILLI <= v.x <= 2 * MAX_MILLI
    &&& -2 * MAX_MILLI <= v.y <= 2 * MAX_MILLI
}

/// Length of `(x, y)`, in milli-units: since the coordinates carry a
/// factor of 1000, so does the integer square root of `x^2 + y^2`.
pub open spec fn spec_magnitude(x: int, y: int) -> int {
    spec_isqrt(x * x + y * y)
}

/// Dot product of two milli-vectors, in milli-units.
pub open spec fn spec_dot(ax: int, ay: int, bx: int, by: int) -> int {
    tdiv(ax * bx + ay * by, 1000)
}

/// `(x, y)` scaled to length one unit; the zero vector is its own
/// normalisation (producers keep inputs non-zero; zero is the sentinel).
pub open spec fn spec_normalize(x: int, y: int) -> (int, int) {
    let m = spec_magnitude(x, y);
    if m == 0 {
        (0, 0)
    } else {
        (tdiv(x * 1000, m), tdiv(y * 1000, m))
    }
}

/// Component-wise interpolation of two vectors by the milli-fraction `p`.
pub open spec fn spec_lerp_vec(ax: int, ay: int, bx: int, by: int, p: int) -> (int, int) {
    (spec_lerp(ax, bx, p), spec_lerp(ay, by, p))
}

impl Vec2 {
    /// The zero vector.
    pub fn zero() -> (r: Vec2)
        ensures
            r.x == 0 && r.y == 0,
    {
        Vec2 { x: 0, y: 0 }
    }

    /// Component-wise sum.
    pub fn plus(&self, other: &Vec2) -> (r: Vec2)
        requires
            in_range2(*self),
            in_range2(*other),
        ensures
            r.x == self.x + other.x,
            r.y == self.y + other.y,
    {
        Vec2 { x: self.x + other.x, y: self.y + other.y }
    }

    /// Component-wise difference.
    pub fn minus(&self, other: &Vec2) -> (r: Vec2)
        requires
            in_range2(*self),
            in_range2(*other),
        ensures
            r.x == self.x - other.x,
            r.y == self.y - other.y,
    {
        Vec2 { x: self.x - other.x, y: self.y - other.y }
    }

    /// Scaled by the milli-factor `s` (1000 leaves the vector unchanged
    /// up to truncation).
    pub fn scale(&self, s: i64) -> (r: Vec2)
        requires
            in_range2(*self),
            -4 * MAX_MILLI <= s <= 4 * MAX_MILLI,
        ensures
            r.x == spec_mul_milli(self.x as int, s as int),
            r.y == spec_mul_milli(self.y as int, s as int),
    {
        proof {
            assert(-8_000_000_000_000_000_000 <= self.x * s <= 8_000_000_000_000_000_000)
                by (nonlinear_arith)
                requires -2 * MAX_MILLI <= self.x <= 2 * MAX_MILLI
                    && -4 * MAX_MILLI <= s <= 4 * MAX_MILLI;
            assert(-8_000_000_000_000_000_000 <= self.y * s <= 8_000_000_000_000_000_000)
                by (nonlinear_arith)
                requires -2 * MAX_MILLI <= self.y <= 2 * MAX_MILLI
                    && -4 * MAX_MILLI <= s <= 4 * MAX_MILLI;
        }
        Vec2 { x: mul_milli(self.x, s), y: mul_milli(self.y, s) }
    }

    /// Dot product, in milli-units.
    pub fn dot(&self, other: &Vec2) -> (r: i64)
        requires
            in_range2(*self),
            in_range2(*other),
        ensures
            r == spec_dot(self.x as int, self.y as int, other.x as int, other.y as int),
    {
        proof {
            lemma_prod_bound(self.x as int, other.x as int);
            lemma_prod_bound(self.y as int, other.y as int);
        }
        div_trunc(self.x * other.x + self.y * other.y, 1000)
    }

    /// Length, in milli-units.
    pub fn magnitude(&self) -> (r: i64)
        requires
            in_range2(*self),
        ensures
            r == spec_magnitude(self.x as int, self.y as int),
            r >= 0,
    {
        proof {
            lemma_prod_bound(self.x as int, self.x as int);
            lemma_prod_bound(self.y as int, self.y as int);
            assert(self.x * self.x >= 0) by (nonlinear_arith);
            assert(self.y * self.y >= 0) by (nonlinear_arith);
        }
        isqrt(self.x * self.x + self.y * self.y)
    }

    /// Scaled to length one unit; zero stays zero.
    pub fn normalize(&self) -> (r: Vec2)
        requires
            in_range2(*self),
        ensures
            (r.x as int, r.y as int) == spec_normalize(self.x as int, self.y as int),
            -1000 <= r.x <= 1000,
            -1000 <= r.y <= 1000,
    {
        let m = self.magnitude();
        if m == 0 {
            Vec2 { x: 0, y: 0 }
        } else {
            proof {
                lemma_component_le_magnitude(self.x as int, self.y as int);
                lemma_component_le_magnitude(self.y as int, self.x as int);
                assert(self.y * self.y + self.x * self.x == self.x * self.x + self.y * self.y);
                assert(-(1000 * m) <= self.x * 1000 <= 1000 * m) by (nonlinear_arith)
                    requires crate::math::spec_abs(self.x as int) <= m && m > 0;
                assert(-(1000 * m) <= self.y * 1000 <= 1000 * m) by (nonlinear_arith)
                    requires crate::math::spec_abs(self.y as int) <= m && m > 0;
                crate::math::lemma_tdiv_bound(self.x * 1000, m as int, 1000);
                crate::math::lemma_tdiv_bound(self.y * 1000, m as int, 1000);
            }
            Vec2 { x: div_trunc(self.x * 1000, m), y: div_trunc(self.y * 1000, m) }
        }
    }

    /// Moved toward `other` by the milli-fraction `p`, component-wise;
    /// `p` is clamped to `[0, 1000]`, so `p = 0` returns `self` exactly.
    pub fn lerp(&self, other: &Vec2, p: i64) -> (r: Vec2)
        requires
            in_range(*self),
            in_range(*other),
            p != i64::MIN,
        ensures
            r.x == spec_lerp(self.x as int, other.x as int, p as int),
            r.y == spec_lerp(self.y as int, other.y as int, p as int),
    {
        Vec2 {
            x: lerp(self.x, other.x, p),
            y: lerp(self.y, other.y, p),
        }
    }
}

/// No component of a vector is longer than the vector.
pub proof fn lemma_component_le_magnitude(x: int, y: int)
    ensures
        crate::math::spec_abs(x) <= spec_magnitude(x, y),
{
    let n = x * x + y * y;
    assert(x * x >= 0 && y * y >= 0) by (nonlinear_arith);
    lemma_isqrt_bounds(n);
    let m = spec_isqrt(n);
    let a = crate::math::spec_abs(x);
    assert(a * a == x * x) by (nonlinear_arith)
        requires a == x || a == -x;
    if a > m {
        assert((m + 1) * (m + 1) <= a * a) by (nonlinear_arith)
            requires 0 <= m + 1 <= a;
    }
}

proof fn lemma_prod_bound(a: int, b: int)
    requires
        -2 * MAX_MILLI <= a <= 2 * MAX_MILLI,
        -2 * MAX_MILLI <= b <= 2 * MAX_MILLI,
    ensures
        -4_000_000_000_000_000_000 <= a * b <= 4_000_000_000_000_000_000,
{
    assert(-4_000_000_000_000_000_000 <= a * b <= 4_000_000_000_000_000_000)
        by (nonlinear_arith)
        requires -2_000_000_000 <= a <= 2_000_000_000 && -2_000_000_000 <= b <= 2_000_000_000;
}


/// The length of a vector whose components are bounded by `k` is at most
/// the diagonal of the `k`-box.
pub proof fn lemma_magnitude_bound(x: int, y: int, k: int)
    requires
        0 <= k,
        -k <= x <= k,
        -k <= y <= k,
    ensures
        0 <= spec_magnitude(x, y),
        spec_magnitude(x, y) * spec_magnitude(x, y) <= 2 * k * k,
{
    assert(x * x + y * y <= 2 * k * k && x * x >= 0 && y * y >= 0) by (nonlinear_arith)
        requires -k <= x <= k && -k <= y <= k;
    lemma_isqrt_bounds(x * x + y * y);
}


/// Normalisation yields a vector one unit long, to the model's precision:
/// for any input of at least a tenth of a unit, the normalized magnitude
/// lies within about one percent of one unit. (Below a tenth of a unit
/// the milli grid is too coarse for the law, much as rounding error
/// overwhelms tiny floats.)
pub proof fn lemma_normalize_unit_magnitude(x: int, y: int)
    requires
        -2 * MAX_MILLI <= x <= 2 * MAX_MILLI,
        -2 * MAX_MILLI <= y <= 2 * MAX_MILLI,
        spec_magnitude(x, y) >= 100,
    ensures
        ({
            let n = spec_normalize(x, y);
            997 <= spec_magnitude(n.0, n.1) <= 1010
        }),
{
    let s = x * x + y * y;
    assert(x * x >= 0 && y * y >= 0) by (nonlinear_arith);
    lemma_isqrt_bounds(s);
    let m = spec_isqrt(s);
    lemma_component_le_magnitude(x, y);
    lemma_component_le_magnitude(y, x);
    assert(y * y + x * x == x * x + y * y);
    let ax = crate::math::spec_abs(x);
    let ay = crate::math::spec_abs(y);
    assert(ax <= m && ay <= m);

    let n = spec_normalize(x, y);
    let nx = n.0;
    let ny = n.1;
    assert(nx == tdiv(x * 1000, m) && ny == tdiv(y * 1000, m));
    crate::math::lemma_tdiv_mul_bounds(x * 1000, m);
    crate::math::lemma_tdiv_mul_bounds(y * 1000, m);
    let qx = crate::math::spec_abs(nx);
    let qy = crate::math::spec_abs(ny);
    let tx = qx * m;
    let ty = qy * m;
    assert(crate::math::spec_abs(x * 1000) == ax * 1000) by (nonlinear_arith)
        requires (x >= 0 && ax == x) || (x < 0 && ax == -x);
    assert(crate::math::spec_abs(y * 1000) == ay * 1000) by (nonlinear_arith)
        requires (y >= 0 && ay == y) || (y < 0 && ay == -y);
    assert(0 <= tx <= ax * 1000 && ax * 1000 - m < tx);
    assert(0 <= ty <= ay * 1000 && ay * 1000 - m < ty);

    // the squared lengths, scaled by m^2, bracket s * 10^6
    assert(tx * tx <= (ax * 1000) * (ax * 1000)) by (nonlinear_arith)
        requires 0 <= tx <= ax * 1000;
    assert(ty * ty <= (ay * 1000) * (ay * 1000)) by (nonlinear_arith)
        requires 0 <= ty <= ay * 1000;
    assert((ax * 1000) * (ax * 1000) == x * x * 1000000) by (nonlinear_arith)
        requires ax == x || ax == -x;
    assert((ay * 1000) * (ay * 1000) == y * y * 1000000) by (nonlinear_arith)
        requires ay == y || ay == -y;
    assert(tx * tx >= x * x * 1000000 - 2000 * m * ax) by (nonlinear_arith)
        requires tx >= ax * 1000 - m && tx >= 0 && m > 0 && ax >= 0 && (ax == x || ax == -x);
    assert(ty * ty >= y * y * 1000000 - 2000 * m * ay) by (nonlinear_arith)
        requires ty >= ay * 1000 - m && ty >= 0 && m > 0 && ay >= 0 && (ay == y || ay == -y);

    // relate them to the normalized coordinates
    assert(tx * tx == nx * nx * (m * m)) by (nonlinear_arith)
        requires tx == qx * m && (qx == nx || qx == -nx);
    assert(ty * ty == ny * ny * (m * m)) by (nonlinear_arith)
        requires ty == qy * m && (qy == ny || qy == -ny);
    let d = nx * nx + ny * ny;
    assert(d * (m * m) == tx * tx + ty * ty) by (nonlinear_arith)
        requires tx * tx == nx * nx * (m * m) && ty * ty == ny * ny * (m * m) && d == nx * nx
            + ny * ny;

    // lower bound: d >= 996000
    assert(m * m > 0) by (nonlinear_arith)
        requires m >= 100;
    assert(2000 * m * ax + 2000 * m * ay <= 4000 * (m * m)) by (nonlinear_arith)
        requires 0 <= ax <= m && 0 <= ay <= m && m > 0;
    assert(s * 1000000 >= (m * m) * 1000000) by (nonlinear_arith)
        requires s >= m * m;
    assert(d * (m * m) >= 996000 * (m * m));
    assert(d >= 996000) by (nonlinear_arith)
        requires d * (m * m) >= 996000 * (m * m) && m * m > 0 && m >= 100;

    // upper bound: d * m^2 < ((m + 1) * 1000)^2
    assert(s * 1000000 < ((m + 1) * 1000) * ((m + 1) * 1000)) by (nonlinear_arith)
        requires s < (m + 1) * (m + 1);
    assert(d * (m * m) < ((m + 1) * 1000) * ((m + 1) * 1000));

    assert(nx * nx >= 0 && ny * ny >= 0) by (nonlinear_arith);
    lemma_isqrt_bounds(d);
    let w = spec_isqrt(d);
    assert(w * w * (m * m) <= d * (m * m)) by (nonlinear_arith)
        requires w * w <= d && m * m >= 0;
    assert((w * m) * (w * m) < ((m + 1) * 1000) * ((m + 1) * 1000)) by (nonlinear_arith)
        requires w * w * (m * m) < ((m + 1) * 1000) * ((m + 1) * 1000);
    assert(w * m < (m + 1) * 1000) by (nonlinear_arith)
        requires w * m >= 0 && (m + 1) * 1000 > 0 && (w * m) * (w * m) < ((m + 1) * 1000) * ((m
            + 1) * 1000);
    assert(w <= 1010) by (nonlinear_arith)
        requires w * m < 1000 * m + 1000 && 1000 <= 10 * m && m > 0;

    if w <= 996 {
        assert((w + 1) * (w + 1) <= 997 * 997) by (nonlinear_arith)
            requires 0 <= w + 1 <= 997;
    }
    assert(997 <= w <= 1010);
}

} // verus!
