//! Fixed-point vectors. One world unit is [`UNIT`] steps.

use vstd::prelude::*;

verus! {

/// Number of fixed-point steps in one world unit.
pub const UNIT: i32 = 1000;

/// The nearest value that an `i32` can hold.
pub open spec fn clamp_i32(v: int) -> int {
    if v < i32::MIN as int {
        i32::MIN as int
    } else if v > i32::MAX as int {
        i32::MAX as int
    } else {
        v
    }
}

/// Narrows to `i32`, stopping at the ends of its range.
pub fn saturate(v: i64) -> (r: i32)
    ensures
        r as int == clamp_i32(v as int),
{
    if v < -2147483648i64 {
        i32::MIN
    } else if v > 2147483647i64 {
        i32::MAX
    } else {
        v as i32
    }
}

/// The quotient of `a` by a positive `b`, rounded towards zero.
pub open spec fn div_toward_zero(a: int, b: int) -> int {
    if a >= 0 {
        a / b
    } else {
        -((-a) / b)
    }
}

/// The quotient of `a` by a positive `b`, rounded towards zero.
pub fn quotient(a: i128, b: i128) -> (q: i128)
    requires
        b > 0,
        a > i128::MIN,
    ensures
        q == div_toward_zero(a as int, b as int),
{
    if a >= 0 {
        a / b
    } else {
        let n: i128 = -a;
        let m: i128 = n / b;
        -m
    }
}

/// `base` moved by `delta`, stopping at the ends of the `i32` range.
pub fn saturating_offset(base: i32, delta: i128) -> (r: i32)
    ensures
        r as int == clamp_i32(base + delta),
{
    if delta > 0x2_0000_0000 {
        i32::MAX
    } else if delta < -0x2_0000_0000 {
        i32::MIN
    } else {
        saturate(base as i64 + delta as i64)
    }
}

/// Absolute difference of two coordinates.
pub open spec fn abs_diff(a: int, b: int) -> int {
    if a >= b {
        a - b
    } else {
        b - a
    }
}

/// A whole-tile grid coordinate.
#[derive(Clone, Copy, Debug, PartialEq, Eq, Structural)]
pub struct IVec2 {
    pub x: i32,
    pub y: i32,
}

impl IVec2 {
    pub fn new(x: i32, y: i32) -> (r: IVec2)
        ensures
            r == (IVec2 { x, y }),
    {
        IVec2 { x, y }
    }
}

/// A 2D position or extent in fixed-point steps.
#[derive(Clone, Copy, Debug, PartialEq, Eq, Structural)]
pub struct Vec2 {
    pub x: i32,
    pub y: i32,
}

/// A 2D point wide enough to hold any sum of two [`Vec2`] coordinates.
#[derive(Clone, Copy, Debug, PartialEq, Eq, Structural)]
pub struct DVec2 {
    pub x: i64,
    pub y: i64,
}

/// A 3D position in fixed-point steps.
#[derive(Clone, Copy, Debug, PartialEq, Eq, Structural)]
pub struct Vec3 {
    pub x: i32,
    pub y: i32,
    pub z: i32,
}

/// Four channels in fixed-point steps.
#[derive(Clone, Copy, Debug, PartialEq, Eq, Structural)]
pub struct Vec4 {
    pub x: i32,
    pub y: i32,
    pub z: i32,
    pub w: i32,
}

impl Vec2 {
    pub fn new(x: i32, y: i32) -> (r: Vec2)
        ensures
            r == (Vec2 { x, y }),
    {
        Vec2 { x, y }
    }

    /// Both coordinates set to `v`.
    pub fn splat(v: i32) -> (r: Vec2)
        ensures
            r == (Vec2 { x: v, y: v }),
    {
        Vec2 { x: v, y: v }
    }

    /// Adds a third coordinate.
    pub fn extend(self, z: i32) -> (r: Vec3)
        ensures
            r == (Vec3 { x: self.x, y: self.y, z }),
    {
        Vec3 { x: self.x, y: self.y, z }
    }

    /// Whether the two points differ by at most `tolerance` on each axis.
    pub open spec fn within_tolerance(self, other: Vec2, tolerance: int) -> bool {
        abs_diff(self.x as int, other.x as int) <= tolerance
            && abs_diff(self.y as int, other.y as int) <= tolerance
    }

    /// Per-axis comparison within an absolute tolerance.
    pub fn abs_diff_eq(self, other: Vec2, max_abs_diff: i32) -> (r: bool)
        ensures
            r == self.within_tolerance(other, max_abs_diff as int),
    {
        let dx: i64 = self.x as i64 - other.x as i64;
        let dy: i64 = self.y as i64 - other.y as i64;
        let ax: i64 = if dx >= 0 { dx } else { -dx };
        let ay: i64 = if dy >= 0 { dy } else { -dy };
        ax <= max_abs_diff as i64 && ay <= max_abs_diff as i64
    }

    /// Square of the Euclidean distance between the two points.
    pub open spec fn distance_squared_spec(self, other: Vec2) -> int {
        (self.x - other.x) * (self.x - other.x) + (self.y - other.y) * (self.y - other.y)
    }

    /// Whether the Euclidean distance between the two points is at most
    /// `radius`; a negative radius reaches nothing.
    pub open spec fn within_distance(self, other: Vec2, radius: int) -> bool {
        radius >= 0 && self.distance_squared_spec(other) <= radius * radius
    }

    /// Square of the Euclidean distance between the two points.
    pub fn distance_squared(self, other: Vec2) -> (r: u128)
        ensures
            r as int == self.distance_squared_spec(other),
    {
        let dx: i128 = self.x as i128 - other.x as i128;
        let dy: i128 = self.y as i128 - other.y as i128;
        assert(0 <= dx * dx <= 0x1_0000_0000 * 0x1_0000_0000) by (nonlinear_arith)
            requires
                -0x1_0000_0000 <= dx <= 0x1_0000_0000,
        ;
        assert(0 <= dy * dy <= 0x1_0000_0000 * 0x1_0000_0000) by (nonlinear_arith)
            requires
                -0x1_0000_0000 <= dy <= 0x1_0000_0000,
        ;
        let sx: i128 = dx * dx;
        let sy: i128 = dy * dy;
        (sx + sy) as u128
    }

    /// Distance test against a radius, without taking a square root.
    pub fn is_within_distance(self, other: Vec2, radius: i32) -> (r: bool)
        ensures
            r == self.within_distance(other, radius as int),
    {
        if radius < 0 {
            return false;
        }
        let d: u128 = self.distance_squared(other);
        let rr: u128 = radius as u128;
        assert(0 <= rr * rr <= 0x8000_0000 * 0x8000_0000) by (nonlinear_arith)
            requires
                0 <= rr <= 0x8000_0000,
        ;
        d <= rr * rr
    }
}

impl Vec3 {
    pub fn new(x: i32, y: i32, z: i32) -> (r: Vec3)
        ensures
            r == (Vec3 { x, y, z }),
    {
        Vec3 { x, y, z }
    }

    /// All three coordinates set to `v`.
    pub fn splat(v: i32) -> (r: Vec3)
        ensures
            r == (Vec3 { x: v, y: v, z: v }),
    {
        Vec3 { x: v, y: v, z: v }
    }

    /// The first two coordinates.
    pub open spec fn xy_spec(self) -> Vec2 {
        Vec2 { x: self.x, y: self.y }
    }

    /// The first two coordinates.
    #[verifier::when_used_as_spec(xy_spec)]
    pub fn xy(self) -> (r: Vec2)
        ensures
            r == self.xy_spec(),
    {
        Vec2 { x: self.x, y: self.y }
    }
}

/// `r` is the largest whole number whose square is at most `n`.
pub open spec fn is_floor_sqrt(n: int, r: int) -> bool {
    0 <= r && r * r <= n < (r + 1) * (r + 1)
}

/// The largest whole number whose square is at most `n`.
pub open spec fn floor_sqrt(n: int) -> int {
    choose|r: int| is_floor_sqrt(n, r)
}

/// A number has at most one whole square root.
pub proof fn lemma_floor_sqrt_unique(n: int, a: int, b: int)
    requires
        is_floor_sqrt(n, a),
        is_floor_sqrt(n, b),
    ensures
        a == b,
{
    if a < b {
        assert((a + 1) * (a + 1) <= b * b) by (nonlinear_arith)
            requires
                0 <= a + 1 <= b,
        ;
    }
    if b < a {
        assert((b + 1) * (b + 1) <= a * a) by (nonlinear_arith)
            requires
                0 <= b + 1 <= a,
        ;
    }
}

/// The whole square root of `n`.
pub fn isqrt(n: u128) -> (r: u64)
    ensures
        is_floor_sqrt(n as int, r as int),
        r as int == floor_sqrt(n as int),
{
    let mut lo: u128 = 0;
    let mut hi: u128 = 0x1_0000_0000_0000_0000;
    assert(0x1_0000_0000_0000_0000int * 0x1_0000_0000_0000_0000int > u128::MAX);
    while hi - lo > 1
        invariant
            lo < hi <= 0x1_0000_0000_0000_0000,
            lo * lo <= n < hi * hi,
        decreases hi - lo,
    {
        let mid: u128 = lo + (hi - lo) / 2;
        assert(mid * mid <= 0xffff_ffff_ffff_ffff * 0xffff_ffff_ffff_ffff) by (nonlinear_arith)
            requires
                0 <= mid <= 0xffff_ffff_ffff_ffff,
        ;
        assert(0xffff_ffff_ffff_ffffint * 0xffff_ffff_ffff_ffffint <= u128::MAX);
        let square: u128 = mid * mid;
        if square <= n {
            lo = mid;
        } else {
            hi = mid;
        }
    }
    proof {
        assert(is_floor_sqrt(n as int, lo as int));
        lemma_floor_sqrt_unique(n as int, lo as int, floor_sqrt(n as int));
    }
    lo as u64
}

/// One coordinate of the direction of `(x, y)`, a vector other than zero:
/// `x` over the vector's length, in thousandths, rounded towards zero.
pub open spec fn unit_component(x: int, y: int) -> int {
    div_toward_zero(1000 * x, floor_sqrt(x * x + y * y))
}

/// For a vector other than zero, the whole square root of the squared
/// length is positive, and each coordinate of the direction is at most a
/// thousand either way.
pub proof fn lemma_direction_bounds(x: int, y: int)
    requires
        x != 0 || y != 0,
    ensures
        floor_sqrt(x * x + y * y) > 0,
        is_floor_sqrt(x * x + y * y, floor_sqrt(x * x + y * y)),
        -1000 <= unit_component(x, y) <= 1000,
        -1000 <= unit_component(y, x) <= 1000,
{
    let n = x * x + y * y;
    assert(n >= 1 && n >= x * x && n >= y * y && n == y * y + x * x) by (nonlinear_arith)
        requires
            n == x * x + y * y,
            x != 0 || y != 0,
    ;
    lemma_floor_sqrt_exists(n);
    let r = floor_sqrt(n);
    assert(r > 0 && -r <= x <= r && -r <= y <= r) by (nonlinear_arith)
        requires
            0 <= r,
            n < (r + 1) * (r + 1),
            n >= 1,
            n >= x * x,
            n >= y * y,
    ;
    lemma_scaled_quotient_bound(x, r);
    lemma_scaled_quotient_bound(y, r);
}

impl Vec2 {
    /// The direction from `self` to `target` as a vector of length
    /// [`UNIT`], each coordinate rounded towards zero. Towards itself a
    /// point has no direction; the result is then that of the x axis.
    pub open spec fn direction_to_spec(self, target: Vec2) -> Vec2 {
        if self == target {
            Vec2 { x: 1000, y: 0 }
        } else {
            Vec2 {
                x: unit_component(1000 * (target.x - self.x), 1000 * (target.y - self.y)) as i32,
                y: unit_component(1000 * (target.y - self.y), 1000 * (target.x - self.x)) as i32,
            }
        }
    }

    /// See [`Vec2::direction_to_spec`].
    pub fn direction_to(self, target: Vec2) -> (d: Vec2)
        ensures
            d == self.direction_to_spec(target),
    {
        if self.x == target.x && self.y == target.y {
            return Vec2 { x: 1000, y: 0 };
        }
        let x: i128 = 1000 * (target.x as i128 - self.x as i128);
        let y: i128 = 1000 * (target.y as i128 - self.y as i128);
        assert(0 <= x * x <= 0x400_0000_0000 * 0x400_0000_0000) by (nonlinear_arith)
            requires
                -0x400_0000_0000 <= x <= 0x400_0000_0000,
        ;
        assert(0 <= y * y <= 0x400_0000_0000 * 0x400_0000_0000) by (nonlinear_arith)
            requires
                -0x400_0000_0000 <= y <= 0x400_0000_0000,
        ;
        let n: u128 = (x * x + y * y) as u128;
        let len: i128 = isqrt(n) as i128;
        proof {
            lemma_direction_bounds(x as int, y as int);
            assert(y * y + x * x == x * x + y * y);
        }
        let dx: i128 = quotient(1000 * x, len);
        let dy: i128 = quotient(1000 * y, len);
        Vec2 { x: dx as i32, y: dy as i32 }
    }
}

/// Every natural number has a whole square root.
pub proof fn lemma_floor_sqrt_exists(n: int)
    requires
        n >= 0,
    ensures
        is_floor_sqrt(n, floor_sqrt(n)),
    decreases n,
{
    if n == 0 {
        assert(is_floor_sqrt(0, 0));
    } else {
        lemma_floor_sqrt_exists(n - 1);
        let r = floor_sqrt(n - 1);
        if n < (r + 1) * (r + 1) {
            assert(is_floor_sqrt(n, r));
        } else {
            assert(n == (r + 1) * (r + 1));
            assert((r + 1) * (r + 1) < (r + 2) * (r + 2)) by (nonlinear_arith)
                requires
                    r >= 0,
            ;
            assert(is_floor_sqrt(n, r + 1));
        }
    }
}

/// A coordinate no longer than `len`, scaled by a thousand and divided by
/// `len`, is at most a thousand either way.
pub proof fn lemma_scaled_quotient_bound(x: int, len: int)
    requires
        len > 0,
        -len <= x <= len,
    ensures
        -1000 <= div_toward_zero(1000 * x, len) <= 1000,
{
    if x >= 0 {
        assert(0 <= (1000 * x) / len <= 1000) by (nonlinear_arith)
            requires
                len > 0,
                0 <= x <= len,
        ;
    } else {
        assert(0 <= (-(1000 * x)) / len <= 1000) by (nonlinear_arith)
            requires
                len > 0,
                0 < -x <= len,
        ;
    }
}

} // verus!
