//! Homogeneous tuple algebra: points (weight 1) and vectors (weight 0).
//!
//! Keeping `Point` and `Vector` as distinct types makes the homogeneous
//! weight a static property: translation can reach points but never vectors,
//! and no operation can confuse the two.

use vstd::prelude::*;

use crate::fx::{
    abs_int, div_raw, fx_add, fx_div, fx_mul, fx_near, fx_neg, fx_sqrt, fx_sub, fx_whole, isqrt,
    isqrt_bounds, lemma_div_err, lemma_square_err, mul_raw, sqrt_raw, Fx, HALF_SCALE, SCALE,
};

verus! {

/// A position in space.
#[derive(Clone, Copy, Debug)]
pub struct Point {
    pub x: Fx,
    pub y: Fx,
    pub z: Fx,
}

/// A direction with length, unaffected by translation.
#[derive(Clone, Copy, Debug)]
pub struct Vector {
    pub x: Fx,
    pub y: Fx,
    pub z: Fx,
}

pub open spec fn point_add_vector(p: Point, v: Vector) -> Point {
    Point { x: fx_add(p.x, v.x), y: fx_add(p.y, v.y), z: fx_add(p.z, v.z) }
}

pub open spec fn point_sub_point(a: Point, b: Point) -> Vector {
    Vector { x: fx_sub(a.x, b.x), y: fx_sub(a.y, b.y), z: fx_sub(a.z, b.z) }
}

pub open spec fn point_sub_vector(p: Point, v: Vector) -> Point {
    Point { x: fx_sub(p.x, v.x), y: fx_sub(p.y, v.y), z: fx_sub(p.z, v.z) }
}

pub open spec fn vector_add(a: Vector, b: Vector) -> Vector {
    Vector { x: fx_add(a.x, b.x), y: fx_add(a.y, b.y), z: fx_add(a.z, b.z) }
}

pub open spec fn vector_sub(a: Vector, b: Vector) -> Vector {
    Vector { x: fx_sub(a.x, b.x), y: fx_sub(a.y, b.y), z: fx_sub(a.z, b.z) }
}

pub open spec fn vector_neg(v: Vector) -> Vector {
    Vector { x: fx_neg(v.x), y: fx_neg(v.y), z: fx_neg(v.z) }
}

pub open spec fn vector_scale(v: Vector, s: Fx) -> Vector {
    Vector { x: fx_mul(v.x, s), y: fx_mul(v.y, s), z: fx_mul(v.z, s) }
}

pub open spec fn vector_div(v: Vector, s: Fx) -> Vector {
    Vector { x: fx_div(v.x, s), y: fx_div(v.y, s), z: fx_div(v.z, s) }
}

pub open spec fn dot_spec(a: Vector, b: Vector) -> Fx {
    fx_add(fx_add(fx_mul(a.x, b.x), fx_mul(a.y, b.y)), fx_mul(a.z, b.z))
}

pub open spec fn cross_spec(a: Vector, b: Vector) -> Vector {
    Vector {
        x: fx_sub(fx_mul(a.y, b.z), fx_mul(a.z, b.y)),
        y: fx_sub(fx_mul(a.z, b.x), fx_mul(a.x, b.z)),
        z: fx_sub(fx_mul(a.x, b.y), fx_mul(a.y, b.x)),
    }
}

pub open spec fn magnitude_spec(v: Vector) -> Fx {
    fx_sqrt(dot_spec(v, v))
}

/// Normalization divides by the magnitude; a zero-magnitude vector yields
/// the zero vector, since division by zero yields zero.
pub open spec fn normalize_spec(v: Vector) -> Vector {
    vector_div(v, magnitude_spec(v))
}

/// Reflection of `v` about a surface normal: `v - normal * 2 * dot(v, normal)`.
pub open spec fn reflect_spec(v: Vector, normal: Vector) -> Vector {
    vector_sub(v, vector_scale(vector_scale(normal, fx_whole(2)), dot_spec(v, normal)))
}

/// Approximate equality of points, componentwise within 1e-5.
pub open spec fn point_near(a: Point, b: Point) -> bool {
    fx_near(a.x, b.x) && fx_near(a.y, b.y) && fx_near(a.z, b.z)
}

/// Approximate equality of vectors, componentwise within 1e-5.
pub open spec fn vector_near(a: Vector, b: Vector) -> bool {
    fx_near(a.x, b.x) && fx_near(a.y, b.y) && fx_near(a.z, b.z)
}

impl Point {
    pub fn new(x: Fx, y: Fx, z: Fx) -> (r: Point)
        ensures
            r == (Point { x, y, z }),
    {
        Point { x, y, z }
    }

    pub fn x(&self) -> (r: Fx)
        ensures
            r == self.x,
    {
        self.x
    }

    pub fn y(&self) -> (r: Fx)
        ensures
            r == self.y,
    {
        self.y
    }

    pub fn z(&self) -> (r: Fx)
        ensures
            r == self.z,
    {
        self.z
    }

    pub fn add(self, rhs: Vector) -> (r: Point)
        ensures
            r == point_add_vector(self, rhs),
    {
        Point { x: self.x.add(rhs.x), y: self.y.add(rhs.y), z: self.z.add(rhs.z) }
    }

    pub fn sub(self, rhs: Point) -> (r: Vector)
        ensures
            r == point_sub_point(self, rhs),
    {
        Vector { x: self.x.sub(rhs.x), y: self.y.sub(rhs.y), z: self.z.sub(rhs.z) }
    }

    pub fn sub_vector(self, rhs: Vector) -> (r: Point)
        ensures
            r == point_sub_vector(self, rhs),
    {
        Point { x: self.x.sub(rhs.x), y: self.y.sub(rhs.y), z: self.z.sub(rhs.z) }
    }
}

impl Vector {
    pub fn new(x: Fx, y: Fx, z: Fx) -> (r: Vector)
        ensures
            r == (Vector { x, y, z }),
    {
        Vector { x, y, z }
    }

    pub fn x(&self) -> (r: Fx)
        ensures
            r == self.x,
    {
        self.x
    }

    pub fn y(&self) -> (r: Fx)
        ensures
            r == self.y,
    {
        self.y
    }

    pub fn z(&self) -> (r: Fx)
        ensures
            r == self.z,
    {
        self.z
    }

    pub fn add(self, rhs: Vector) -> (r: Vector)
        ensures
            r == vector_add(self, rhs),
    {
        Vector { x: self.x.add(rhs.x), y: self.y.add(rhs.y), z: self.z.add(rhs.z) }
    }

    pub fn add_point(self, rhs: Point) -> (r: Point)
        ensures
            r == point_add_vector(rhs, self),
    {
        Point { x: rhs.x.add(self.x), y: rhs.y.add(self.y), z: rhs.z.add(self.z) }
    }

    pub fn sub(self, rhs: Vector) -> (r: Vector)
        ensures
            r == vector_sub(self, rhs),
    {
        Vector { x: self.x.sub(rhs.x), y: self.y.sub(rhs.y), z: self.z.sub(rhs.z) }
    }

    pub fn neg(self) -> (r: Vector)
        ensures
            r == vector_neg(self),
    {
        Vector { x: self.x.neg(), y: self.y.neg(), z: self.z.neg() }
    }

    pub fn scale(self, s: Fx) -> (r: Vector)
        ensures
            r == vector_scale(self, s),
    {
        Vector { x: self.x.mul(s), y: self.y.mul(s), z: self.z.mul(s) }
    }

    pub fn div(self, s: Fx) -> (r: Vector)
        ensures
            r == vector_div(self, s),
    {
        Vector { x: self.x.div(s), y: self.y.div(s), z: self.z.div(s) }
    }

    pub fn dot(a: Vector, b: Vector) -> (r: Fx)
        ensures
            r == dot_spec(a, b),
    {
        a.x.mul(b.x).add(a.y.mul(b.y)).add(a.z.mul(b.z))
    }

    pub fn cross(a: Vector, b: Vector) -> (r: Vector)
        ensures
            r == cross_spec(a, b),
    {
        Vector {
            x: a.y.mul(b.z).sub(a.z.mul(b.y)),
            y: a.z.mul(b.x).sub(a.x.mul(b.z)),
            z: a.x.mul(b.y).sub(a.y.mul(b.x)),
        }
    }

    pub fn magnitude(&self) -> (r: Fx)
        ensures
            r == magnitude_spec(*self),
    {
        Vector::dot(*self, *self).sqrt()
    }

    /// Scales the vector to magnitude one. The zero vector (or any vector
    /// short enough that its squared magnitude rounds to zero) is returned
    /// as the zero vector rather than signalling an error.
    pub fn normalize(&self) -> (r: Vector)
        ensures
            r == normalize_spec(*self),
    {
        self.div(self.magnitude())
    }

    pub fn reflect(self, normal: Vector) -> (r: Vector)
        ensures
            r == reflect_spec(self, normal),
    {
        self.sub(normal.scale(Fx::from_units(2)).scale(Vector::dot(self, normal)))
    }

    pub fn approx_eq(self, rhs: Vector) -> (r: bool)
        ensures
            r == vector_near(self, rhs),
    {
        self.x.approx_eq(rhs.x) && self.y.approx_eq(rhs.y) && self.z.approx_eq(rhs.z)
    }
}

impl Point {
    pub fn approx_eq(self, rhs: Point) -> (r: bool)
        ensures
            r == point_near(self, rhs),
    {
        self.x.approx_eq(rhs.x) && self.y.approx_eq(rhs.y) && self.z.approx_eq(rhs.z)
    }
}

impl PartialEq for Point {
    /// Equality is epsilon-tolerant, componentwise.
    fn eq(&self, other: &Self) -> (r: bool) {
        self.approx_eq(*other)
    }
}

impl vstd::std_specs::cmp::PartialEqSpecImpl for Point {
    open spec fn obeys_eq_spec() -> bool {
        true
    }

    open spec fn eq_spec(&self, other: &Point) -> bool {
        point_near(*self, *other)
    }
}

impl PartialEq for Vector {
    /// Equality is epsilon-tolerant, componentwise.
    fn eq(&self, other: &Self) -> (r: bool) {
        self.approx_eq(*other)
    }
}

impl vstd::std_specs::cmp::PartialEqSpecImpl for Vector {
    open spec fn obeys_eq_spec() -> bool {
        true
    }

    open spec fn eq_spec(&self, other: &Vector) -> bool {
        vector_near(*self, *other)
    }
}


/// Law: normalizing scales the magnitude to one. For every vector of
/// moderate size (components below 2^13 in value) whose magnitude is at
/// least one, the magnitude of its normalization lies within 1e-5 of one.
/// Vectors far shorter than one lose relative precision in fixed-point
/// arithmetic, so the law is stated away from them.
#[verifier::rlimit(100)]
pub proof fn normalize_unit_magnitude(v: Vector)
    requires
        abs_int(v.x.raw as int) <= 35184372088832,
        abs_int(v.y.raw as int) <= 35184372088832,
        abs_int(v.z.raw as int) <= 35184372088832,
        magnitude_spec(v).raw as int >= SCALE as int,
    ensures
        fx_near(magnitude_spec(normalize_spec(v)), fx_whole(1)),
{
    let sc = SCALE as int;
    let h = HALF_SCALE as int;
    let a = v.x.raw as int;
    let b = v.y.raw as int;
    let c = v.z.raw as int;
    lemma_square_err(a);
    lemma_square_err(b);
    lemma_square_err(c);
    let qa = mul_raw(a, a);
    let qb = mul_raw(b, b);
    let qc = mul_raw(c, c);
    let qq = a * a + b * b + c * c;
    assert(-h <= sc * qa - a * a <= h);
    assert(-h <= sc * qb - b * b <= h);
    assert(-h <= sc * qc - c * c <= h);
    let d = dot_spec(v, v).raw as int;
    assert(d == qa + qb + qc);
    assert(-(3 * h) <= sc * d - qq <= 3 * h) by (nonlinear_arith)
        requires
            d == qa + qb + qc,
            qq == a * a + b * b + c * c,
            -h <= sc * qa - a * a <= h,
            -h <= sc * qb - b * b <= h,
            -h <= sc * qc - c * c <= h;
    assert(0 <= a * a && 0 <= b * b && 0 <= c * c && a * a <= 1237940039285380274899124224int
        && b * b <= 1237940039285380274899124224int && c * c
        <= 1237940039285380274899124224int) by (nonlinear_arith)
        requires
            -35184372088832int <= a <= 35184372088832int,
            -35184372088832int <= b <= 35184372088832int,
            -35184372088832int <= c <= 35184372088832int;
    assert(qq <= 3713820117856140824697372672int);
    assert(d > 0) by {
        if d <= 0 {
            assert(sqrt_raw(d) == 0);
        }
    }
    let n1 = (d * sc) as nat;
    isqrt_bounds(n1);
    assert(sc * d == d * sc) by (nonlinear_arith);
    assert(d * sc <= qq + 3 * h);
    assert(n1 < 79228162514264337593543950336nat);
    assert(isqrt(n1) <= 281474976710656nat) by (nonlinear_arith)
        requires
            isqrt(n1) * isqrt(n1) <= n1,
            n1 < 79228162514264337593543950336nat;
    let m = magnitude_spec(v).raw as int;
    assert(magnitude_spec(v).raw as int == sqrt_raw(d));
    assert(m == isqrt(n1) as int);
    assert(1 <= m <= 281474976710656int);
    assert(m * m <= d * sc && d * sc < (m + 1) * (m + 1));
    assert(qq <= d * sc + 3 * h);
    assert(-(m + 100000) <= a <= m + 100000 && -(m + 100000) <= b <= m + 100000 && -(m
        + 100000) <= c <= m + 100000) by (nonlinear_arith)
        requires
            qq == a * a + b * b + c * c,
            qq <= d * sc + 3 * h,
            d * sc < (m + 1) * (m + 1),
            0 <= a * a,
            0 <= b * b,
            0 <= c * c,
            h == 2147483648,
            4294967296int <= m;
    lemma_div_err(a, m);
    lemma_div_err(b, m);
    lemma_div_err(c, m);
    let w = normalize_spec(v);
    let wx = w.x.raw as int;
    let wy = w.y.raw as int;
    let wz = w.z.raw as int;
    assert(wx == div_raw(a, m) && wy == div_raw(b, m) && wz == div_raw(c, m));
    assert(-m <= wx * m - a * sc <= m);
    assert(-m <= wy * m - b * sc <= m);
    assert(-m <= wz * m - c * sc <= m);
    assert(abs_int(wx) * m <= abs_int(a) * sc + m);
    assert(abs_int(wy) * m <= abs_int(b) * sc + m);
    assert(abs_int(wz) * m <= abs_int(c) * sc + m);
    assert(-(sc + 100001) <= wx <= sc + 100001 && -(sc + 100001) <= wy <= sc + 100001 && -(sc
        + 100001) <= wz <= sc + 100001) by (nonlinear_arith)
        requires
            abs_int(wx) * m <= abs_int(a) * sc + m,
            abs_int(wy) * m <= abs_int(b) * sc + m,
            abs_int(wz) * m <= abs_int(c) * sc + m,
            abs_int(wx) == if wx < 0 { -wx } else { wx },
            abs_int(wy) == if wy < 0 { -wy } else { wy },
            abs_int(wz) == if wz < 0 { -wz } else { wz },
            abs_int(a) == if a < 0 { -a } else { a },
            abs_int(b) == if b < 0 { -b } else { b },
            abs_int(c) == if c < 0 { -c } else { c },
            -(m + 100000) <= a <= m + 100000,
            -(m + 100000) <= b <= m + 100000,
            -(m + 100000) <= c <= m + 100000,
            sc == 4294967296,
            sc <= m;
    let ww = wx * wx + wy * wy + wz * wz;
    let bound1 = 2 * (m + 100000) * sc * m + m * m;
    assert(-bound1 <= wx * wx * (m * m) - a * a * (sc * sc) <= bound1) by (nonlinear_arith)
        requires
            bound1 == 2 * (m + 100000) * sc * m + m * m,
            -m <= wx * m - a * sc <= m,
            -(m + 100000) <= a <= m + 100000,
            sc == 4294967296,
            sc <= m;
    assert(-bound1 <= wy * wy * (m * m) - b * b * (sc * sc) <= bound1) by (nonlinear_arith)
        requires
            bound1 == 2 * (m + 100000) * sc * m + m * m,
            -m <= wy * m - b * sc <= m,
            -(m + 100000) <= b <= m + 100000,
            sc == 4294967296,
            sc <= m;
    assert(-bound1 <= wz * wz * (m * m) - c * c * (sc * sc) <= bound1) by (nonlinear_arith)
        requires
            bound1 == 2 * (m + 100000) * sc * m + m * m,
            -m <= wz * m - c * sc <= m,
            -(m + 100000) <= c <= m + 100000,
            sc == 4294967296,
            sc <= m;
    let bound2 = (6 * sc + 600003) * (m * m);
    assert(-bound2 <= ww * (m * m) - qq * (sc * sc) <= bound2) by (nonlinear_arith)
        requires
            ww == wx * wx + wy * wy + wz * wz,
            qq == a * a + b * b + c * c,
            bound1 == 2 * (m + 100000) * sc * m + m * m,
            bound2 == (6 * sc + 600003) * (m * m),
            -bound1 <= wx * wx * (m * m) - a * a * (sc * sc) <= bound1,
            -bound1 <= wy * wy * (m * m) - b * b * (sc * sc) <= bound1,
            -bound1 <= wz * wz * (m * m) - c * c * (sc * sc) <= bound1,
            sc == 4294967296,
            sc <= m;
    assert(-(3 * h + 2 * m + 1) <= qq - m * m <= 3 * h + 2 * m + 1) by (nonlinear_arith)
        requires
            -(3 * h) <= sc * d - qq <= 3 * h,
            m * m <= d * sc,
            d * sc < (m + 1) * (m + 1),
            sc == 4294967296,
            h == 2147483648,
            1 <= m;
    assert(-47244640256int <= ww - sc * sc <= 47244640256int) by (nonlinear_arith)
        requires
            bound2 == (6 * sc + 600003) * (m * m),
            -bound2 <= ww * (m * m) - qq * (sc * sc) <= bound2,
            -(3 * h + 2 * m + 1) <= qq - m * m <= 3 * h + 2 * m + 1,
            sc <= m,
            m <= 281474976710656int,
            sc == 4294967296,
            h == 2147483648;
    lemma_square_err(wx);
    lemma_square_err(wy);
    lemma_square_err(wz);
    let dw = dot_spec(w, w).raw as int;
    assert(dw == mul_raw(wx, wx) + mul_raw(wy, wy) + mul_raw(wz, wz));
    assert(-h <= sc * mul_raw(wx, wx) - wx * wx <= h);
    assert(-h <= sc * mul_raw(wy, wy) - wy * wy <= h);
    assert(-h <= sc * mul_raw(wz, wz) - wz * wz <= h);
    assert(-(3 * h) <= sc * dw - ww <= 3 * h) by (nonlinear_arith)
        requires
            dw == mul_raw(wx, wx) + mul_raw(wy, wy) + mul_raw(wz, wz),
            ww == wx * wx + wy * wy + wz * wz,
            -h <= sc * mul_raw(wx, wx) - wx * wx <= h,
            -h <= sc * mul_raw(wy, wy) - wy * wy <= h,
            -h <= sc * mul_raw(wz, wz) - wz * wz <= h;
    assert(-13 <= dw - sc <= 13) by (nonlinear_arith)
        requires
            -(3 * h) <= sc * dw - ww <= 3 * h,
            -47244640256int <= ww - sc * sc <= 47244640256int,
            sc == 4294967296,
            h == 2147483648;
    assert(dw > 0);
    let n2 = (dw * sc) as nat;
    isqrt_bounds(n2);
    assert(isqrt(n2) * isqrt(n2) <= n2);
    assert(isqrt(n2) <= 281474976710656nat) by (nonlinear_arith)
        requires
            isqrt(n2) * isqrt(n2) <= n2,
            n2 <= 79228162514264337593543950336nat;
    assert(n2 <= 79228162514264337593543950336nat) by (nonlinear_arith)
        requires
            n2 == (dw * sc) as nat,
            dw * sc == n2,
            -13 <= dw - sc <= 13,
            sc == 4294967296;
    let mw = magnitude_spec(w).raw as int;
    assert(magnitude_spec(w).raw as int == sqrt_raw(dw));
    assert(mw == isqrt(n2) as int);
    assert(0 <= mw);
    assert(mw * mw <= dw * sc && dw * sc < (mw + 1) * (mw + 1));
    assert(-14 <= mw - sc <= 14) by (nonlinear_arith)
        requires
            mw * mw <= dw * sc,
            dw * sc < (mw + 1) * (mw + 1),
            -13 <= dw - sc <= 13,
            0 <= mw,
            sc == 4294967296;
    assert(fx_whole(1) == (Fx { raw: SCALE }));
}

} // verus!
