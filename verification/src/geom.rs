use vstd::prelude::*;

verus! {

/// Number of coordinate ticks in one drawing unit (one pixel).
/// All geometry works on `i64` fixed-point coordinates in these ticks.
pub const UNIT: i64 = 1000;

/// Largest coordinate magnitude the library accepts; generous enough for any
/// on-screen geometry while keeping every intermediate product inside `i64`.
pub const COORD_MAX: i64 = 1_000_000_000;

/// A coordinate is in range when its magnitude stays within `COORD_MAX`.
pub open spec fn coord_in_range(c: i64) -> bool {
    -COORD_MAX <= c && c <= COORD_MAX
}

/// A plain two-dimensional point in fixed-point coordinates.
#[derive(Clone, Copy, Debug, PartialEq, Eq, Structural)]
pub struct Point {
    pub x: i64,
    pub y: i64,
}

impl Point {
    /// Both coordinates are in range.
    pub open spec fn in_range(self) -> bool {
        coord_in_range(self.x) && coord_in_range(self.y)
    }

    pub fn new(x: i64, y: i64) -> (r: Point)
        ensures
            r == (Point { x, y }),
    {
        Point { x, y }
    }

    /// Runtime test of [`Point::in_range`], for callers outside the library
    /// that must establish it before calling functions that require it.
    pub fn is_in_range(&self) -> (r: bool)
        ensures
            r == self.in_range(),
    {
        -COORD_MAX <= self.x && self.x <= COORD_MAX && -COORD_MAX <= self.y
            && self.y <= COORD_MAX
    }

    /// The point `(x, y)` whole drawing units from the origin.
    pub fn from_units(x: i32, y: i32) -> (r: Point)
        ensures
            r.x == x * UNIT,
            r.y == y * UNIT,
    {
        Point { x: (x as i64) * UNIT, y: (y as i64) * UNIT }
    }
}

/// An axis-aligned rectangle; `width` and `height` keep the sign of the
/// extent they were built from (a sink canonicalizes negative extents).
#[derive(Clone, Copy, Debug, PartialEq, Eq, Structural)]
pub struct Rect {
    pub x: i64,
    pub y: i64,
    pub width: i64,
    pub height: i64,
}

/// Floor division of `a` by a positive divisor `d`; agrees with the
/// mathematical (Euclidean) quotient used in specifications.
pub fn div_floor(a: i64, d: i64) -> (r: i64)
    requires
        1 <= d,
        -COORD_MAX * COORD_MAX <= a && a <= COORD_MAX * COORD_MAX,
        d <= COORD_MAX * COORD_MAX,
    ensures
        r == a as int / d as int,
        a >= 0 ==> 0 <= r <= a,
        a < 0 ==> a <= r <= 0,
{
    let q = a / d;
    let m = a % d;
    proof {
        let qe = a as int / d as int;
        let rm = a as int % d as int;
        vstd::arithmetic::div_mod::lemma_fundamental_div_mod(a as int, d as int);
        vstd::arithmetic::div_mod::lemma_mod_division_less_than_divisor(a as int, d as int);
        if a >= 0 {
            assert(0 <= qe <= a) by (nonlinear_arith)
                requires a >= 0, d >= 1, a == d * qe + rm, 0 <= rm < d;
        } else {
            assert(a <= qe <= 0) by (nonlinear_arith)
                requires a < 0, d >= 1, a == d * qe + rm, 0 <= rm < d;
        }
        if a < 0 {
            let n = a as int * -1;
            let k = n / d as int;
            let rr = n % d as int;
            vstd::arithmetic::div_mod::lemma_fundamental_div_mod(n, d as int);
            vstd::arithmetic::div_mod::lemma_mod_division_less_than_divisor(n, d as int);
            assert(q == k * -1 && m == rr * -1);
            if rr == 0 {
                assert(a as int == (k * -1) * d + 0) by (nonlinear_arith)
                    requires n == d * k + rr && rr == 0 && n == a as int * -1;
                vstd::arithmetic::div_mod::lemma_fundamental_div_mod_converse_div(
                    a as int, d as int, k * -1, 0);
            } else {
                assert(a as int == (k * -1 - 1) * d + (d - rr)) by (nonlinear_arith)
                    requires n == d * k + rr && n == a as int * -1;
                vstd::arithmetic::div_mod::lemma_fundamental_div_mod_converse_div(
                    a as int, d as int, k * -1 - 1, d as int - rr);
            }
        }
    }
    if m != 0 && a < 0 {
        q - 1
    } else {
        q
    }
}

/// `v` rounded to the nearest multiple of `UNIT`, halves away from zero.
pub open spec fn round_unit(v: int) -> int {
    if v >= 0 {
        ((v + UNIT / 2) / UNIT as int) * UNIT
    } else {
        -1 * (((v * -1 + UNIT / 2) / UNIT as int) * UNIT)
    }
}

/// Rounds a coordinate to the nearest whole drawing unit (multiple of
/// `UNIT`), halves away from zero, as the overlay's pixel alignment asks.
pub fn round_to_unit(v: i64) -> (r: i64)
    requires
        -2 * COORD_MAX <= v && v <= 2 * COORD_MAX,
    ensures
        r == round_unit(v as int),
        -2 * COORD_MAX - UNIT <= r && r <= 2 * COORD_MAX + UNIT,
{
    let half: i64 = UNIT / 2;
    if v >= 0 {
        let q = div_floor(v + half, UNIT);
        assert(q * UNIT <= v + half) by {
            vstd::arithmetic::div_mod::lemma_fundamental_div_mod(v + half, UNIT as int);
            vstd::arithmetic::div_mod::lemma_mod_division_less_than_divisor(
                v + half, UNIT as int);
        };
        q * UNIT
    } else {
        let q = div_floor(-v + half, UNIT);
        assert(q * UNIT <= -v + half) by {
            vstd::arithmetic::div_mod::lemma_fundamental_div_mod(-v + half, UNIT as int);
            vstd::arithmetic::div_mod::lemma_mod_division_less_than_divisor(
                -v + half, UNIT as int);
        };
        assert(q >= 0) by {
            vstd::arithmetic::div_mod::lemma_div_pos_is_pos(-v + half, UNIT as int);
        };
        -(q * UNIT)
    }
}

/// The floor of the square root of `n`; the unique `r >= 0` with
/// `r * r <= n < (r + 1) * (r + 1)`.
pub open spec fn sqrt_floor(n: int) -> int {
    choose|r: int| 0 <= r && #[trigger] (r * r) <= n && n < (r + 1) * (r + 1)
}

/// Any two integer square roots of the same value agree.
proof fn lemma_sqrt_floor_unique(n: int, a: int, b: int)
    requires
        0 <= a,
        a * a <= n,
        n < (a + 1) * (a + 1),
        0 <= b,
        b * b <= n,
        n < (b + 1) * (b + 1),
    ensures
        a == b,
{
    assert(a == b) by (nonlinear_arith)
        requires
            0 <= a,
            a * a <= n,
            n < (a + 1) * (a + 1),
            0 <= b,
            b * b <= n,
            n < (b + 1) * (b + 1),
    ;
}

/// Integer square root by bisection.
pub fn isqrt(n: u64) -> (r: u64)
    requires
        n <= 0x7000_0000_0000_0000,
    ensures
        r as int == sqrt_floor(n as int),
        r * r <= n,
        n < (r + 1) * (r + 1),
{
    let mut lo: u64 = 0;
    let mut hi: u64 = 3_037_000_500;
    assert(hi * hi > n);
    while lo + 1 < hi
        invariant
            lo < hi <= 3_037_000_500,
            lo * lo <= n,
            hi * hi > n,
        decreases hi - lo,
    {
        let mid = lo + (hi - lo) / 2;
        assert(lo < mid < hi);
        assert(mid * mid <= 3_037_000_500 * 3_037_000_500) by (nonlinear_arith)
            requires 0 <= mid <= 3_037_000_500;
        if mid * mid <= n {
            lo = mid;
        } else {
            hi = mid;
        }
    }
    proof {
        assert(hi == lo + 1);
        assert(exists|r: int| 0 <= r && #[trigger] (r * r) <= n as int && (n as int) < (r + 1) * (r + 1)) by {
            assert(0 <= lo as int && lo as int * lo as int <= n as int
                && (n as int) < (lo as int + 1) * (lo as int + 1));
        };
        lemma_sqrt_floor_unique(n as int, lo as int, sqrt_floor(n as int));
    }
    lo
}

} // verus!
