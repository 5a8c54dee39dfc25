//! Points, displacement vectors and exact scale factors.

use vstd::prelude::*;

verus! {

/// The absolute value of `a`.
pub open spec fn abs(a: int) -> int {
    if a < 0 {
        -a
    } else {
        a
    }
}

/// `a / d` rounded to the nearest integer, halves rounded away from zero.
pub open spec fn round_div(a: int, d: int) -> int
    recommends
        d != 0,
{
    let m = (abs(a) + abs(d) / 2) / abs(d);
    if (a < 0) == (d < 0) {
        m
    } else {
        -m
    }
}

/// Whether `v` is representable as an `i64`.
pub open spec fn fits_i64(v: int) -> bool {
    i64::MIN <= v <= i64::MAX
}

/// Rounding never moves a quotient further from zero than its dividend.
pub proof fn lemma_round_div_bound(a: int, d: int)
    requires
        d != 0,
    ensures
        abs(round_div(a, d)) <= abs(a),
{
    let n = abs(a);
    let e = abs(d);
    let x = n + e / 2;
    let q = x / e;
    let r = x % e;
    vstd::arithmetic::div_mod::lemma_fundamental_div_mod(x, e);
    vstd::arithmetic::div_mod::lemma_mod_bound(x, e);
    assert(q <= n) by (nonlinear_arith)
        requires
            x == e * q + r,
            0 <= r < e,
            x == n + e / 2,
            e / 2 < e,
            n >= 0,
            e >= 1,
    {
        if q > n {
            assert(e * q >= e * (n + 1));
        }
    }
    assert(q >= 0) by (nonlinear_arith)
        requires
            x == e * q + r,
            0 <= r < e,
            x >= 0,
            e >= 1,
    ;
}

/// Where `d` divides `a`, the rounded quotient is the exact one.
pub proof fn lemma_round_div_exact(a: int, d: int)
    requires
        d != 0,
        a % d == 0,
    ensures
        round_div(a, d) * d == a,
{
    let q = a / d;
    vstd::arithmetic::div_mod::lemma_fundamental_div_mod(a, d);
    let e = abs(d);
    let k = abs(q);
    assert(abs(a) == k * e) by (nonlinear_arith)
        requires
            a == d * q,
            e == abs(d),
            k == abs(q),
    ;
    vstd::arithmetic::div_mod::lemma_fundamental_div_mod_converse(abs(a) + e / 2, e, k, e / 2);
    assert((a < 0) == (d < 0) || q == 0 <==> q >= 0) by (nonlinear_arith)
        requires
            a == d * q,
            d != 0,
    ;
    assert(round_div(a, d) == q);
    assert(q * d == a) by (nonlinear_arith)
        requires
            a == d * q,
    ;
}

/// The product of two `i64` values is far within the range of `i128`.
proof fn lemma_i64_product(a: i64, b: i64)
    ensures
        abs(a * b) <= i128::MAX,
{
    assert(abs(a * b) <= 0x4000_0000_0000_0000_0000_0000_0000_0000) by (nonlinear_arith)
        requires
            -0x8000_0000_0000_0000 <= a <= 0x7fff_ffff_ffff_ffff,
            -0x8000_0000_0000_0000 <= b <= 0x7fff_ffff_ffff_ffff,
    {
        assert(abs(a as int) <= 0x8000_0000_0000_0000);
        assert(abs(b as int) <= 0x8000_0000_0000_0000);
        assert(abs(a * b) == abs(a as int) * abs(b as int));
    }
}

/// An exact scale factor `num / den`.
#[derive(Clone, Copy, Debug, PartialEq, Eq, Structural)]
pub struct Ratio {
    pub num: i64,
    pub den: i64,
}

impl Ratio {
    /// A ratio must have a nonzero denominator.
    pub open spec fn wf(self) -> bool {
        self.den != 0
    }

    /// `c` scaled by this ratio, rounded to the nearest integer.
    pub open spec fn apply(self, c: int) -> int {
        round_div(c * self.num, self.den as int)
    }
}

/// `c` scaled by `r`, computed without overflow.
fn scale_coord(c: i128, r: Ratio) -> (v: i128)
    requires
        r.wf(),
        abs(c * r.num) <= i128::MAX,
    ensures
        v == r.apply(c as int),
{
    let a: i128 = c * (r.num as i128);
    let n: u128 = if a < 0 {
        (-(a + 1)) as u128 + 1
    } else {
        a as u128
    };
    let e: u128 = if r.den < 0 {
        (-(r.den as i128)) as u128
    } else {
        r.den as u128
    };
    let m: u128 = (n + e / 2) / e;
    proof {
        lemma_round_div_bound(a as int, r.den as int);
    }
    if (a < 0) == (r.den < 0) {
        m as i128
    } else {
        -(m as i128)
    }
}

/// `c` scaled by `r`, or nothing where the result is not an `i64`.
pub(crate) fn scale_checked(c: i64, r: Ratio) -> (v: Option<i64>)
    requires
        r.wf(),
    ensures
        v == (if fits_i64(r.apply(c as int)) {
            Some(r.apply(c as int) as i64)
        } else {
            None
        }),
{
    proof {
        lemma_i64_product(c, r.num);
    }
    let s = scale_coord(c as i128, r);
    if s < i64::MIN as i128 || s > i64::MAX as i128 {
        None
    } else {
        Some(s as i64)
    }
}

/// A point; each coordinate counts hundredths of a unit.
#[derive(Clone, Copy, Debug, PartialEq, Eq, Structural)]
pub struct Point {
    pub x: i64,
    pub y: i64,
}

/// The displacement from one point to another, in hundredths of a unit.
///
/// Its length and direction are those of the arrow from the first point to
/// the second; a zero vector joins a point to itself.
#[derive(Clone, Copy, Debug, PartialEq, Eq, Structural)]
pub struct Vector {
    pub dx: i128,
    pub dy: i128,
}

impl Vector {
    /// Whether scaling by `r` stays within machine integers.
    pub open spec fn scale_fits(self, r: Ratio) -> bool {
        abs(self.dx * r.num) <= i128::MAX && abs(self.dy * r.num) <= i128::MAX
    }

    /// This vector with its length multiplied by `r` and its direction kept
    /// (reversed where `r` is negative).
    pub open spec fn spec_scale(self, r: Ratio) -> Vector {
        Vector { dx: r.apply(self.dx as int) as i128, dy: r.apply(self.dy as int) as i128 }
    }

    /// The offset that this vector moves a point by.
    pub open spec fn spec_point(self) -> Point {
        Point { x: self.dx as i64, y: self.dy as i64 }
    }

    /// The offset that this vector moves a point by.
    pub fn point(&self) -> (p: Point)
        requires
            fits_i64(self.dx as int),
            fits_i64(self.dy as int),
        ensures
            p == self.spec_point(),
            p.x == self.dx,
            p.y == self.dy,
    {
        Point { x: self.dx as i64, y: self.dy as i64 }
    }

    /// This vector scaled by `s`.
    pub fn scale(&self, s: Ratio) -> (v: Vector)
        requires
            s.wf(),
            self.scale_fits(s),
        ensures
            v == self.spec_scale(s),
            v.dx == s.apply(self.dx as int),
            v.dy == s.apply(self.dy as int),
    {
        proof {
            lemma_round_div_bound(self.dx * s.num, s.den as int);
            lemma_round_div_bound(self.dy * s.num, s.den as int);
        }
        Vector { dx: scale_coord(self.dx, s), dy: scale_coord(self.dy, s) }
    }
}

impl Point {
    /// The vector from this point to `to`.
    pub open spec fn spec_vector(self, to: Point) -> Vector {
        Vector { dx: (to.x - self.x) as i128, dy: (to.y - self.y) as i128 }
    }

    /// Whether both coordinates scaled by `r` are representable.
    pub open spec fn scale_fits(self, r: Ratio) -> bool {
        fits_i64(r.apply(self.x as int)) && fits_i64(r.apply(self.y as int))
    }

    /// This point with both coordinates scaled by `r`.
    pub open spec fn spec_scale(self, r: Ratio) -> Point {
        Point { x: r.apply(self.x as int) as i64, y: r.apply(self.y as int) as i64 }
    }

    /// This point moved by `v`.
    pub open spec fn spec_control(self, v: Vector) -> Point {
        Point { x: (self.x + v.dx) as i64, y: (self.y + v.dy) as i64 }
    }

    pub fn new(x: i64, y: i64) -> (p: Point)
        ensures
            p.x == x,
            p.y == y,
    {
        Point { x, y }
    }

    /// The vector from this point to `p`.
    pub fn vector(&self, p: &Point) -> (v: Vector)
        ensures
            v == self.spec_vector(*p),
            v.dx == p.x - self.x,
            v.dy == p.y - self.y,
    {
        Vector { dx: p.x as i128 - self.x as i128, dy: p.y as i128 - self.y as i128 }
    }

    /// This point with both coordinates scaled by `r`, each rounded to the
    /// nearest hundredth.
    pub fn scale(&self, r: Ratio) -> (p: Point)
        requires
            r.wf(),
            self.scale_fits(r),
        ensures
            p == self.spec_scale(r),
            p.x == r.apply(self.x as int),
            p.y == r.apply(self.y as int),
    {
        proof {
            lemma_i64_product(self.x, r.num);
            lemma_i64_product(self.y, r.num);
        }
        Point { x: scale_coord(self.x as i128, r) as i64, y: scale_coord(self.y as i128, r) as i64 }
    }

    pub fn get_x(&self) -> (x: i64)
        ensures
            x == self.x,
    {
        self.x
    }

    pub fn get_y(&self) -> (y: i64)
        ensures
            y == self.y,
    {
        self.y
    }

    /// The point that `v` leads to from this one: a control point of a curve.
    pub fn control(&self, v: &Vector) -> (p: Point)
        requires
            fits_i64(self.x + v.dx),
            fits_i64(self.y + v.dy),
        ensures
            p == self.spec_control(*v),
            p.x == self.x + v.dx,
            p.y == self.y + v.dy,
    {
        Point { x: (self.x as i128 + v.dx) as i64, y: (self.y as i128 + v.dy) as i64 }
    }

    /// The coordinatewise sum of two points.
    pub fn add(self, other: Point) -> (p: Point)
        requires
            fits_i64(self.x + other.x),
            fits_i64(self.y + other.y),
        ensures
            p.x == self.x + other.x,
            p.y == self.y + other.y,
    {
        Point { x: self.x + other.x, y: self.y + other.y }
    }

    /// The coordinatewise difference of two points.
    pub fn sub(self, other: Point) -> (p: Point)
        requires
            fits_i64(self.x - other.x),
            fits_i64(self.y - other.y),
        ensures
            p.x == self.x - other.x,
            p.y == self.y - other.y,
    {
        Point { x: self.x - other.x, y: self.y - other.y }
    }
}

/// A point moved by the zero vector stays where it is, whatever the zero
/// vector is scaled by: the vector from a point to itself, scaled by any
/// ratio, leads a control point back to its origin.
pub proof fn lemma_control_of_zero_vector(p: Point, k: Ratio)
    requires
        k.wf(),
    ensures
        p.spec_vector(p).scale_fits(k),
        p.spec_control(p.spec_vector(p).spec_scale(k)) == p,
{
    let v = p.spec_vector(p);
    assert(v.dx == 0 && v.dy == 0);
    assert(round_div(0 * k.num, k.den as int) == 0) by (nonlinear_arith)
        requires
            k.den != 0,
    {
        assert(0 * k.num == 0);
        assert((abs(0) + abs(k.den as int) / 2) / abs(k.den as int) == 0);
    }
}

/// Scaling by a ratio whose denominator divides the scaled numerator is
/// exact: no rounding takes place.
pub proof fn lemma_scale_exact(c: int, r: Ratio)
    requires
        r.wf(),
        (c * r.num) % (r.den as int) == 0,
    ensures
        r.apply(c) * r.den == c * r.num,
{
    lemma_round_div_exact(c * r.num, r.den as int);
}

} // verus!
