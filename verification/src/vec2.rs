//! Plane vectors in fixed-point coordinates, and the integer square root
//! that backs `Vec2::normalize`.

use vstd::prelude::*;

verus! {

/// Fixed-point steps per world unit: every coordinate is stored in
/// thousandths of a unit.
pub const MILLI: i64 = 1000;

/// Largest component magnitude that `normalize` accepts; keeps all of its
/// intermediate products inside `i64`.
pub const NORM_INPUT_MAX: i64 = 2_000_000;

/// A vector of the fixed-point plane: `x` and `y` count thousandths of a
/// world unit.  Used both for positions and for (unit) direction vectors.
#[derive(Clone, Copy, PartialEq, Eq, Structural, Debug)]
pub struct Vec2 {
    pub x: i64,
    pub y: i64,
}

/// A whole-unit integer vector, used for fixed configuration constants such
/// as the screen half-extents.
#[derive(Clone, Copy, PartialEq, Eq, Structural, Debug)]
pub struct Vec2i {
    pub x: i32,
    pub y: i32,
}

/// Absolute value over `int`.
pub open spec fn iabs(a: int) -> int {
    if a < 0 { -a } else { a }
}

/// `r` is the integer square root of `n`, rounded down.
pub open spec fn is_sqrt_of(n: int, r: int) -> bool {
    &&& 0 <= r
    &&& r * r <= n
    &&& n < (r + 1) * (r + 1)
}

/// The integer square root of `n`, rounded down (0 for negative input).
pub open spec fn sqrt_floor(n: int) -> int
    decreases n,
{
    if n <= 0 {
        0
    } else {
        let p = sqrt_floor(n - 1);
        if (p + 1) * (p + 1) <= n {
            p + 1
        } else {
            p
        }
    }
}

/// `sqrt_floor` meets its characterisation.
pub proof fn lemma_sqrt_floor(n: int)
    requires
        0 <= n,
    ensures
        is_sqrt_of(n, sqrt_floor(n)),
    decreases n,
{
    if n > 0 {
        lemma_sqrt_floor(n - 1);
        let p: int = sqrt_floor(n - 1);
        if (p + 1) * (p + 1) <= n {
            assert(n - 1 < (p + 1) * (p + 1));
            assert((p + 1) * (p + 1) < (p + 2) * (p + 2)) by (nonlinear_arith)
                requires 0 <= p;
        }
    }
}

/// Only one integer is the rounded-down square root of `n`.
pub proof fn lemma_sqrt_unique(n: int, r1: int, r2: int)
    requires
        is_sqrt_of(n, r1),
        is_sqrt_of(n, r2),
    ensures
        r1 == r2,
{
    if r1 < r2 {
        assert((r1 + 1) * (r1 + 1) <= r2 * r2) by (nonlinear_arith)
            requires 0 <= r1 + 1, r1 + 1 <= r2;
    }
    if r2 < r1 {
        assert((r2 + 1) * (r2 + 1) <= r1 * r1) by (nonlinear_arith)
            requires 0 <= r2 + 1, r2 + 1 <= r1;
    }
}

/// Integer square root, rounded down, by bisection.
pub fn isqrt(n: i64) -> (r: i64)
    requires
        0 <= n,
    ensures
        r as int == sqrt_floor(n as int),
        is_sqrt_of(n as int, r as int),
{
    proof {
        lemma_sqrt_floor(n as int);
    }
    let mut lo: i64 = 0;
    let mut hi: i64 = 3_037_000_500;
    proof {
        assert((3_037_000_500 as int) * (3_037_000_500 as int) > i64::MAX as int)
            by (nonlinear_arith);
    }
    while lo + 1 < hi
        invariant
            0 <= lo < hi <= 3_037_000_500,
            (lo as int) * (lo as int) <= n as int,
            (n as int) < (hi as int) * (hi as int),
            0 <= n,
        decreases hi - lo,
    {
        let mid: i64 = lo + (hi - lo) / 2;
        assert(lo < mid < hi);
        assert((mid as int) * (mid as int) <= (3_037_000_499 as int) * (3_037_000_499 as int))
            by (nonlinear_arith)
            requires 0 < mid as int <= 3_037_000_499;
        assert((3_037_000_499 as int) * (3_037_000_499 as int) < i64::MAX as int)
            by (nonlinear_arith);
        if mid * mid <= n {
            lo = mid;
        } else {
            hi = mid;
        }
    }
    proof {
        lemma_sqrt_unique(n as int, lo as int, sqrt_floor(n as int));
    }
    lo
}

/// The squared length, in fixed-point steps, of the vector scaled up by
/// another factor of `MILLI` — the quantity whose square root `normalize`
/// divides by.
pub open spec fn norm_scale_sq(x: int, y: int) -> int {
    (x * 1000) * (x * 1000) + (y * 1000) * (y * 1000)
}

/// The scaled magnitude `normalize` divides by: the floor of 1000 times the
/// exact fixed-point length of `(x, y)`.
pub open spec fn norm_m(x: int, y: int) -> int {
    sqrt_floor(norm_scale_sq(x, y))
}

/// One normalized component, for a non-negative component `a` and a positive
/// scaled magnitude `m`.
pub open spec fn norm_comp(a: int, m: int) -> int {
    (a * 1_000_000) / m
}

/// The x component of the normalized vector (unchanged for the zero vector).
pub open spec fn norm_x(x: int, y: int) -> int {
    let m = norm_m(x, y);
    if m == 0 {
        x
    } else if x < 0 {
        -norm_comp(-x, m)
    } else {
        norm_comp(x, m)
    }
}

/// The y component of the normalized vector (unchanged for the zero vector).
pub open spec fn norm_y(x: int, y: int) -> int {
    let m = norm_m(x, y);
    if m == 0 {
        y
    } else if y < 0 {
        -norm_comp(-y, m)
    } else {
        norm_comp(y, m)
    }
}

/// `(x, y)` has unit length up to fixed-point rounding: each component is at
/// most one unit, and the squared length sits within 0.5% of one.
pub open spec fn unit_dir(x: int, y: int) -> bool {
    &&& iabs(x) <= 1000
    &&& iabs(y) <= 1000
    &&& 995_998 <= x * x + y * y <= 1_002_000
}

/// Normalizing any non-zero vector whose components `normalize` accepts
/// yields a unit direction.
pub proof fn lemma_norm_unit(x: int, y: int)
    requires
        iabs(x) <= 2_000_000,
        iabs(y) <= 2_000_000,
        !(x == 0 && y == 0),
    ensures
        unit_dir(norm_x(x, y), norm_y(x, y)),
        norm_m(x, y) >= 1000,
{
    let a: int = iabs(x);
    let b: int = iabs(y);
    assert((x * 1000) * (x * 1000) == (a * 1000) * (a * 1000)) by (nonlinear_arith)
        requires a == x || a == -x;
    assert((y * 1000) * (y * 1000) == (b * 1000) * (b * 1000)) by (nonlinear_arith)
        requires b == y || b == -y;
    let aa: int = a * 1000;
    let bb: int = b * 1000;
    let n: int = aa * aa + bb * bb;
    assert(norm_scale_sq(x, y) == n);
    assert(aa * aa >= 0 && bb * bb >= 0) by (nonlinear_arith);
    lemma_sqrt_floor(n);
    let m: int = norm_m(x, y);
    assert(is_sqrt_of(n, m));

    // The scaled magnitude dominates each scaled component.
    assert(m >= aa) by (nonlinear_arith)
        requires is_sqrt_of(n, m), n >= aa * aa, aa >= 0;
    assert(m >= bb) by (nonlinear_arith)
        requires is_sqrt_of(n, m), n >= bb * bb, bb >= 0;
    assert(a >= 1 || b >= 1);
    assert(m >= 1000);

    let nx: int = norm_comp(a, m);
    let ny: int = norm_comp(b, m);
    vstd::arithmetic::div_mod::lemma_fundamental_div_mod(a * 1_000_000, m);
    vstd::arithmetic::div_mod::lemma_mod_bound(a * 1_000_000, m);
    vstd::arithmetic::div_mod::lemma_fundamental_div_mod(b * 1_000_000, m);
    vstd::arithmetic::div_mod::lemma_mod_bound(b * 1_000_000, m);
    let ra: int = (a * 1_000_000) % m;
    let rb: int = (b * 1_000_000) % m;
    assert(nx * m <= a * 1_000_000) by (nonlinear_arith)
        requires a * 1_000_000 == m * nx + ra, ra >= 0;
    assert(a * 1_000_000 < (nx + 1) * m) by (nonlinear_arith)
        requires a * 1_000_000 == m * nx + ra, ra < m;
    assert(ny * m <= b * 1_000_000) by (nonlinear_arith)
        requires b * 1_000_000 == m * ny + rb, rb >= 0;
    assert(b * 1_000_000 < (ny + 1) * m) by (nonlinear_arith)
        requires b * 1_000_000 == m * ny + rb, rb < m;
    assert(nx * m <= a * 1_000_000 < (nx + 1) * m);
    assert(ny * m <= b * 1_000_000 < (ny + 1) * m);
    assert(nx >= 0) by (nonlinear_arith)
        requires a * 1_000_000 < (nx + 1) * m, a >= 0, m > 0;
    assert(ny >= 0) by (nonlinear_arith)
        requires b * 1_000_000 < (ny + 1) * m, b >= 0, m > 0;

    // Each component of the result is at most one unit.
    assert(nx <= 1000) by (nonlinear_arith)
        requires nx * m <= a * 1_000_000, m >= a * 1000, a >= 0, m >= 1000, nx >= 0;
    assert(ny <= 1000) by (nonlinear_arith)
        requires ny * m <= b * 1_000_000, m >= b * 1000, b >= 0, m >= 1000, ny >= 0;

    // Upper bound on the squared length of the result.
    assert((nx * nx + ny * ny) * (m * m) <= n * 1_000_000) by (nonlinear_arith)
        requires
            0 <= nx * m <= a * 1_000_000,
            0 <= ny * m <= b * 1_000_000,
            n == (a * 1000) * (a * 1000) + (b * 1000) * (b * 1000);
    assert(n * 1_000_000 <= 1_002_000 * (m * m)) by (nonlinear_arith)
        requires n < (m + 1) * (m + 1), m >= 1000;
    assert(nx * nx + ny * ny <= 1_002_000) by (nonlinear_arith)
        requires (nx * nx + ny * ny) * (m * m) <= 1_002_000 * (m * m), m >= 1000;

    // Lower bound on the squared length of the result.
    assert(((nx + 1) * (nx + 1) + (ny + 1) * (ny + 1)) * (m * m) >= n * 1_000_000)
        by (nonlinear_arith)
        requires
            (nx + 1) * m > a * 1_000_000,
            (ny + 1) * m > b * 1_000_000,
            a >= 0,
            b >= 0,
            m > 0,
            nx >= 0,
            ny >= 0,
            n == (a * 1000) * (a * 1000) + (b * 1000) * (b * 1000);
    assert(n * 1_000_000 >= (m * m) * 1_000_000) by (nonlinear_arith)
        requires is_sqrt_of(n, m);
    assert((nx + 1) * (nx + 1) + (ny + 1) * (ny + 1) >= 1_000_000) by (nonlinear_arith)
        requires
            ((nx + 1) * (nx + 1) + (ny + 1) * (ny + 1)) * (m * m) >= (m * m) * 1_000_000,
            m >= 1000;
    assert(nx * nx + ny * ny >= 1_000_000 - 2 * nx - 2 * ny - 2) by (nonlinear_arith)
        requires (nx + 1) * (nx + 1) + (ny + 1) * (ny + 1) >= 1_000_000;
    assert(nx * nx + ny * ny >= 995_998);

    // Squares are insensitive to the sign choice in `norm_x`/`norm_y`.
    assert(norm_x(x, y) == nx || norm_x(x, y) == -nx);
    assert(norm_y(x, y) == ny || norm_y(x, y) == -ny);
    assert((-nx) * (-nx) == nx * nx && (-ny) * (-ny) == ny * ny) by (nonlinear_arith);
}

impl Vec2 {
    /// The vector with the given fixed-point components.
    pub fn new(x: i64, y: i64) -> (v: Vec2)
        ensures
            v.x == x,
            v.y == y,
    {
        Vec2 { x, y }
    }

    /// The zero vector.
    pub fn zero() -> (v: Vec2)
        ensures
            v.x == 0,
            v.y == 0,
    {
        Vec2 { x: 0, y: 0 }
    }

    /// This vector scaled by a whole number, componentwise.
    pub fn scaled(self, k: i64) -> (v: Vec2)
        requires
            i64::MIN <= self.x as int * k as int <= i64::MAX,
            i64::MIN <= self.y as int * k as int <= i64::MAX,
        ensures
            v.x as int == self.x as int * k as int,
            v.y as int == self.y as int * k as int,
    {
        Vec2 { x: self.x * k, y: self.y * k }
    }

    /// The componentwise sum of this vector and another.
    pub fn plus(self, other: Vec2) -> (v: Vec2)
        requires
            i64::MIN <= self.x as int + other.x as int <= i64::MAX,
            i64::MIN <= self.y as int + other.y as int <= i64::MAX,
        ensures
            v.x as int == self.x as int + other.x as int,
            v.y as int == self.y as int + other.y as int,
    {
        Vec2 { x: self.x + other.x, y: self.y + other.y }
    }

    /// Rescale this vector to unit length, in place, and return the result;
    /// the zero vector is left unchanged.  The result of a non-zero input is
    /// a unit direction up to fixed-point rounding.
    pub fn normalize(&mut self) -> (r: Vec2)
        requires
            iabs(old(self).x as int) <= NORM_INPUT_MAX as int,
            iabs(old(self).y as int) <= NORM_INPUT_MAX as int,
        ensures
            final(self).x as int == norm_x(old(self).x as int, old(self).y as int),
            final(self).y as int == norm_y(old(self).x as int, old(self).y as int),
            r == *final(self),
            !(old(self).x == 0 && old(self).y == 0) ==> unit_dir(
                final(self).x as int,
                final(self).y as int,
            ),
    {
        let gx: i64 = self.x;
        let gy: i64 = self.y;
        let ax: i64 = if gx < 0 { -gx } else { gx };
        let ay: i64 = if gy < 0 { -gy } else { gy };
        let sx: i64 = ax * 1000;
        let sy: i64 = ay * 1000;
        proof {
            assert((gx as int * 1000) * (gx as int * 1000) == (sx as int) * (sx as int))
                by (nonlinear_arith)
                requires sx as int == gx as int * 1000 || sx as int == -(gx as int * 1000);
            assert((gy as int * 1000) * (gy as int * 1000) == (sy as int) * (sy as int))
                by (nonlinear_arith)
                requires sy as int == gy as int * 1000 || sy as int == -(gy as int * 1000);
            assert(0 <= (sx as int) * (sx as int) <= 4_000_000_000_000_000_000) by (nonlinear_arith)
                requires 0 <= sx as int <= 2_000_000_000;
            assert(0 <= (sy as int) * (sy as int) <= 4_000_000_000_000_000_000) by (nonlinear_arith)
                requires 0 <= sy as int <= 2_000_000_000;
        }
        let m: i64 = isqrt(sx * sx + sy * sy);
        if m != 0 {
            proof {
                if gx == 0 && gy == 0 {
                    assert(norm_scale_sq(gx as int, gy as int) == 0);
                    lemma_sqrt_floor(0);
                    lemma_sqrt_unique(0, m as int, sqrt_floor(0));
                    assert(false);
                }
                lemma_norm_unit(gx as int, gy as int);
            }
            let nx: i64 = (ax * 1_000_000) / m;
            let ny: i64 = (ay * 1_000_000) / m;
            self.x = if gx < 0 { -nx } else { nx };
            self.y = if gy < 0 { -ny } else { ny };
        } else {
            proof {
                assert(norm_m(gx as int, gy as int) == 0) by {
                    lemma_sqrt_floor(norm_scale_sq(gx as int, gy as int));
                    lemma_sqrt_unique(
                        norm_scale_sq(gx as int, gy as int),
                        m as int,
                        sqrt_floor(norm_scale_sq(gx as int, gy as int)),
                    );
                };
                if !(gx == 0 && gy == 0) {
                    lemma_norm_unit(gx as int, gy as int);
                    assert(false);
                }
            }
        }
        *self
    }
}

impl Vec2i {
    /// The integer vector with the given whole-unit components.
    pub fn new(x: i32, y: i32) -> (v: Vec2i)
        ensures
            v.x == x,
            v.y == y,
    {
        Vec2i { x, y }
    }

    /// This whole-unit vector scaled by `k` and taken into the fixed-point
    /// plane.
    pub fn scaled(self, k: i64) -> (v: Vec2)
        requires
            i64::MIN <= self.x as int * k as int <= i64::MAX,
            i64::MIN <= self.y as int * k as int <= i64::MAX,
        ensures
            v.x as int == self.x as int * k as int,
            v.y as int == self.y as int * k as int,
    {
        Vec2 { x: (self.x as i64) * k, y: (self.y as i64) * k }
    }
}

} // verus!
