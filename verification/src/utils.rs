//! Fixed-point arithmetic shared by all scenes: the unit, linear
//! interpolation, and a two-component vector.

use vstd::prelude::*;

verus! {

/// The fixed-point unit: a quantity `q` stands for the real number `q / ONE`.
pub const ONE: i64 = 1_000_000;

/// Linear interpolation over the integers: `a * (1 - v) + b * v` with `v`
/// counted in millionths, rounded down.
pub open spec fn lerp_exact(a: int, b: int, v: int) -> int {
    a + ((b - a) * v) / (ONE as int)
}

/// The nearest value that an `i64` can hold.
pub open spec fn saturate(x: int) -> int {
    if x < i64::MIN {
        i64::MIN as int
    } else if x > i64::MAX {
        i64::MAX as int
    } else {
        x
    }
}

/// Interpolation as the machine computes it: exact wherever the exact
/// result fits in an `i64`, and pinned to the nearest bound elsewhere.
pub open spec fn lerp_i64(a: i64, b: i64, v: i64) -> i64 {
    saturate(lerp_exact(a as int, b as int, v as int)) as i64
}

/// Rounded-down quotient of a 128-bit integer by a positive divisor.
pub fn div_floor(p: i128, d: i64) -> (q: i128)
    requires
        d > 0,
    ensures
        q == p as int / d as int,
{
    let dd: i128 = d as i128;
    if p >= 0 {
        p / dd
    } else {
        // -p may not fit when p is the least i128, so step through p + 1.
        let m: i128 = -(p + 1);
        let q: i128 = m / dd;
        proof {
            lemma_div_floor_negative(p as int, d as int);
        }
        -q - 1
    }
}

/// For negative `p`, the rounded-down quotient is one less than the negated
/// quotient of `-(p + 1)`.
pub proof fn lemma_div_floor_negative(p: int, d: int)
    requires
        p < 0,
        d > 0,
    ensures
        p / d == -((-(p + 1)) / d) - 1,
{
    let m = -(p + 1);
    let q = m / d;
    let r = m % d;
    assert(m == d * q + r && 0 <= r < d) by {
        vstd::arithmetic::div_mod::lemma_fundamental_div_mod(m, d);
        vstd::arithmetic::div_mod::lemma_mod_bound(m, d);
    }
    // p = -m - 1 = d * (-q - 1) + (d - 1 - r)
    assert(p == d * (-q - 1) + (d - 1 - r)) by (nonlinear_arith)
        requires
            m == d * q + r,
            m == -(p + 1),
    ;
    vstd::arithmetic::div_mod::lemma_fundamental_div_mod_converse(p, d, -q - 1, d - 1 - r);
}

/// A product is bounded by the product of the bounds of its factors.
pub proof fn lemma_product_bound(d: int, v: int, dmax: int, vmax: int)
    requires
        -dmax <= d <= dmax,
        -vmax <= v <= vmax,
    ensures
        -(dmax * vmax) <= d * v <= dmax * vmax,
{
    assert((dmax - d) * (vmax - v) >= 0) by (nonlinear_arith)
        requires
            dmax - d >= 0,
            vmax - v >= 0,
    ;
    assert((dmax + d) * (vmax + v) >= 0) by (nonlinear_arith)
        requires
            dmax + d >= 0,
            vmax + v >= 0,
    ;
    assert((dmax - d) * (vmax + v) >= 0) by (nonlinear_arith)
        requires
            dmax - d >= 0,
            vmax + v >= 0,
    ;
    assert((dmax + d) * (vmax - v) >= 0) by (nonlinear_arith)
        requires
            dmax + d >= 0,
            vmax - v >= 0,
    ;
    assert(-(dmax * vmax) <= d * v <= dmax * vmax) by (nonlinear_arith)
        requires
            (dmax - d) * (vmax - v) >= 0,
            (dmax + d) * (vmax + v) >= 0,
            (dmax - d) * (vmax + v) >= 0,
            (dmax + d) * (vmax - v) >= 0,
    ;
}

/// Dividing by a positive number brings a value no further from zero,
/// and keeps its sign.
pub proof fn lemma_quotient_bound(p: int, d: int)
    requires
        d > 0,
    ensures
        p >= 0 ==> 0 <= p / d <= p,
        p < 0 ==> p <= p / d < 0,
{
    vstd::arithmetic::div_mod::lemma_fundamental_div_mod(p, d);
    vstd::arithmetic::div_mod::lemma_mod_bound(p, d);
    let q = p / d;
    let r = p % d;
    if p >= 0 {
        assert(0 <= q <= p) by (nonlinear_arith)
            requires
                p == d * q + r,
                0 <= r < d,
                d > 0,
                p >= 0,
        ;
    } else {
        assert(p <= q < 0) by (nonlinear_arith)
            requires
                p == d * q + r,
                0 <= r < d,
                d > 0,
                p < 0,
        ;
    }
}

/// The opacity `a`, counted in millionths, as one of the 256 levels of a
/// colour channel: `a * 255` rounded down, no less than 0 and no more
/// than 255.
pub open spec fn spec_alpha_byte(a: i64) -> u8 {
    if a <= 0 {
        0
    } else if a >= ONE {
        255
    } else {
        ((a * 255) / (ONE as int)) as u8
    }
}

/// Computes [`spec_alpha_byte`].
#[verifier::when_used_as_spec(spec_alpha_byte)]
pub fn alpha_byte(a: i64) -> (b: u8)
    ensures
        b == spec_alpha_byte(a),
{
    if a <= 0 {
        0
    } else if a >= ONE {
        255
    } else {
        let level: i64 = (a * 255) / ONE;
        proof {
            vstd::arithmetic::div_mod::lemma_div_is_ordered(a * 255, ONE * 255, ONE as int);
            vstd::arithmetic::div_mod::lemma_div_is_ordered(0, a * 255, ONE as int);
        }
        level as u8
    }
}

/// The distance between two quantities.
pub open spec fn dist(a: int, b: int) -> int {
    if a <= b {
        b - a
    } else {
        a - b
    }
}

/// For a fraction between zero and one, the interpolated value lies between
/// its two ends: it has not passed `b`, and is no further from `b` than `a`
/// was. It is `a` at zero and `b` at one.
pub proof fn lemma_lerp_between(a: int, b: int, v: int)
    requires
        0 <= v <= ONE,
    ensures
        a <= b ==> a <= lerp_exact(a, b, v) <= b,
        b <= a ==> b <= lerp_exact(a, b, v) <= a,
        dist(lerp_exact(a, b, v), b) <= dist(a, b),
        lerp_exact(a, b, 0) == a,
        lerp_exact(a, b, ONE as int) == b,
{
    let d = b - a;
    let one = ONE as int;
    assert((d * one) / one == d) by {
        vstd::arithmetic::div_mod::lemma_div_multiples_vanish(d, one);
    }
    assert(d * 0 == 0);
    if d >= 0 {
        assert(0 <= d * v <= d * one) by (nonlinear_arith)
            requires
                d >= 0,
                0 <= v <= one,
        ;
        vstd::arithmetic::div_mod::lemma_div_is_ordered(0, d * v, one);
        vstd::arithmetic::div_mod::lemma_div_is_ordered(d * v, d * one, one);
    } else {
        assert(d * one <= d * v <= 0) by (nonlinear_arith)
            requires
                d < 0,
                0 <= v <= one,
        ;
        vstd::arithmetic::div_mod::lemma_div_is_ordered(d * one, d * v, one);
        vstd::arithmetic::div_mod::lemma_div_is_ordered(d * v, 0, one);
    }
}

/// Between machine integers and for a fraction between zero and one, the
/// interpolation never saturates.
pub proof fn lemma_lerp_i64_exact(a: i64, b: i64, v: i64)
    requires
        0 <= v <= ONE,
    ensures
        lerp_i64(a, b, v) == lerp_exact(a as int, b as int, v as int),
{
    lemma_lerp_between(a as int, b as int, v as int);
}

/// Values that can be interpolated: the one operation that smoothing needs.
pub trait Blend: Copy {
    /// The point at fraction `v` (in millionths) of the way from `self` to
    /// `other`.
    spec fn blend_spec(self, other: Self, v: i64) -> Self;

    fn blend(self, other: Self, v: i64) -> (r: Self)
        ensures
            r == self.blend_spec(other, v),
    ;
}

impl Blend for i64 {
    open spec fn blend_spec(self, other: i64, v: i64) -> i64 {
        lerp_i64(self, other, v)
    }

    fn blend(self, other: i64, v: i64) -> (r: i64) {
        let d: i128 = other as i128 - self as i128;
        proof {
            lemma_product_bound(d as int, v as int, 0x1_0000_0000_0000_0000 - 1, 0x8000_0000_0000_0000);
        }
        let p: i128 = d * (v as i128);
        let q: i128 = div_floor(p, ONE);
        proof {
            lemma_quotient_bound(p as int, ONE as int);
        }
        let s: i128 = self as i128 + q;
        assert(s == lerp_exact(self as int, other as int, v as int));
        let r: i64 = if s < i64::MIN as i128 {
            i64::MIN
        } else if s > i64::MAX as i128 {
            i64::MAX
        } else {
            s as i64
        };
        assert(self.blend_spec(other, v) == saturate(s as int));
        r
    }
}

/// A point or an offset in the plane, each coordinate in millionths.
#[derive(Clone, Copy, Debug, PartialEq, Eq, Structural)]
pub struct Vec2 {
    pub x: i64,
    pub y: i64,
}

/// The point with the whole-number coordinates `x` and `y`.
pub open spec fn units(x: int, y: int) -> Vec2 {
    Vec2 { x: (x * ONE) as i64, y: (y * ONE) as i64 }
}

/// The point with the whole-number coordinates `x` and `y`.
pub fn vec2(x: i32, y: i32) -> (v: Vec2)
    ensures
        v == units(x as int, y as int),
        v.x == x * ONE,
        v.y == y * ONE,
{
    Vec2 { x: x as i64 * ONE, y: y as i64 * ONE }
}

/// Whether two points are less than `radius` apart, by the squares of
/// their distances.
pub open spec fn near(a: Vec2, b: Vec2, radius: u32) -> bool {
    (a.x - b.x) * (a.x - b.x) + (a.y - b.y) * (a.y - b.y) < radius * radius
}

impl Vec2 {
    /// Whether `other` lies less than `radius` away.
    pub fn within(self, other: Vec2, radius: u32) -> (b: bool)
        ensures
            b == near(self, other, radius),
    {
        let dx: i128 = self.x as i128 - other.x as i128;
        let dy: i128 = self.y as i128 - other.y as i128;
        let r: i128 = radius as i128;
        proof {
            lemma_square_bound(dx as int, r as int);
            lemma_square_bound(dy as int, r as int);
        }
        if dx >= r || dx <= -r || dy >= r || dy <= -r {
            return false;
        }
        assert(r * r <= 0xffff_ffff * 0xffff_ffff) by (nonlinear_arith)
            requires
                0 <= r <= 0xffff_ffff,
        ;
        dx * dx + dy * dy < r * r
    }
}

/// A number is smaller in size than a bound exactly when its square is
/// smaller than the square of the bound.
pub proof fn lemma_square_bound(d: int, r: int)
    requires
        r >= 0,
    ensures
        d * d >= 0,
        -r < d < r ==> d * d < r * r,
        (d >= r || d <= -r) ==> d * d >= r * r,
{
    assert(d * d >= 0) by (nonlinear_arith);
    if -r < d < r {
        assert(d * d < r * r) by (nonlinear_arith)
            requires
                -r < d < r,
        ;
    } else {
        assert(d * d >= r * r) by (nonlinear_arith)
            requires
                d >= r || d <= -r,
                r >= 0,
        ;
    }
}

impl Blend for Vec2 {
    open spec fn blend_spec(self, other: Vec2, v: i64) -> Vec2 {
        Vec2 { x: lerp_i64(self.x, other.x, v), y: lerp_i64(self.y, other.y, v) }
    }

    fn blend(self, other: Vec2, v: i64) -> (r: Vec2) {
        Vec2 { x: self.x.blend(other.x, v), y: self.y.blend(other.y, v) }
    }
}

/// Moves from `a` toward `b` by the fraction `v`, counted in millionths:
/// `a` at 0, `b` at [`ONE`], and beyond `b` for larger `v`.
pub fn lerp<T: Blend>(a: T, b: T, v: i64) -> (r: T)
    ensures
        r == a.blend_spec(b, v),
{
    a.blend(b, v)
}

} // verus!
