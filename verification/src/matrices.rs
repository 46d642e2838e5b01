//! Square matrices up to 4x4, and the affine `Transform`.
//!
//! Determinants and inverses follow cofactor expansion along the first row,
//! bottoming out at 2x2. Every operation's contract gives the result exactly
//! as a spec-level mirror over fixed-point scalars. A `Transform` is a 4x4
//! matrix whose bottom row is exactly `[0, 0, 0, 1]`; the check is made at
//! construction and multiplication preserves it.

use vstd::prelude::*;

use crate::fx::{fx, fx_add, fx_div, fx_mul, fx_near, fx_neg, lemma_mul_raw_one, lemma_mul_raw_zero, Fx, SCALE};
use crate::tuples::{Point, Vector};

verus! {

/// Raised when a row or column index lies outside the matrix.
#[derive(Clone, Copy, Debug, PartialEq, Eq, Structural, Default)]
pub struct MatrixIndexError;

/// Raised when a 4x4 entry array whose bottom row is not `[0, 0, 0, 1]` is
/// cast to a `Transform`.
#[derive(Clone, Copy, Debug, PartialEq, Eq, Structural, Default)]
pub struct CastingTransformError;

/// A 1x1 matrix, the base of submatrix removal.
#[derive(Clone, Copy, Debug)]
pub struct Matrix1 {
    pub m00: Fx,
}

/// A 2x2 matrix.
#[derive(Clone, Copy, Debug)]
pub struct Matrix2 {
    pub m00: Fx,
    pub m01: Fx,
    pub m10: Fx,
    pub m11: Fx,
}

/// A 3x3 matrix.
#[derive(Clone, Copy, Debug)]
pub struct Matrix3 {
    pub m00: Fx,
    pub m01: Fx,
    pub m02: Fx,
    pub m10: Fx,
    pub m11: Fx,
    pub m12: Fx,
    pub m20: Fx,
    pub m21: Fx,
    pub m22: Fx,
}

/// A 4x4 matrix.
#[derive(Clone, Copy, Debug)]
pub struct Matrix4 {
    pub m00: Fx,
    pub m01: Fx,
    pub m02: Fx,
    pub m03: Fx,
    pub m10: Fx,
    pub m11: Fx,
    pub m12: Fx,
    pub m13: Fx,
    pub m20: Fx,
    pub m21: Fx,
    pub m22: Fx,
    pub m23: Fx,
    pub m30: Fx,
    pub m31: Fx,
    pub m32: Fx,
    pub m33: Fx,
}

/// Entry of a 3x3 matrix by row and column.
pub open spec fn entry3(m: Matrix3, r: int, c: int) -> Fx {
    if r == 0 {
        if c == 0 { m.m00 } else if c == 1 { m.m01 } else { m.m02 }
    } else if r == 1 {
        if c == 0 { m.m10 } else if c == 1 { m.m11 } else { m.m12 }
    } else {
        if c == 0 { m.m20 } else if c == 1 { m.m21 } else { m.m22 }
    }
}

/// Entry of a 4x4 matrix by row and column.
pub open spec fn entry4(m: Matrix4, r: int, c: int) -> Fx {
    if r == 0 {
        if c == 0 { m.m00 } else if c == 1 { m.m01 } else if c == 2 { m.m02 } else { m.m03 }
    } else if r == 1 {
        if c == 0 { m.m10 } else if c == 1 { m.m11 } else if c == 2 { m.m12 } else { m.m13 }
    } else if r == 2 {
        if c == 0 { m.m20 } else if c == 1 { m.m21 } else if c == 2 { m.m22 } else { m.m23 }
    } else {
        if c == 0 { m.m30 } else if c == 1 { m.m31 } else if c == 2 { m.m32 } else { m.m33 }
    }
}

/// The row or column that index `k` of a submatrix refers to in the parent
/// matrix after row or column `removed` is taken out.
pub open spec fn skip_spec(removed: int, k: int) -> int {
    if k < removed {
        k
    } else {
        k + 1
    }
}

pub open spec fn submatrix2_spec(m: Matrix2, i: int, j: int) -> Matrix1 {
    Matrix1 { m00: if i == 0 { if j == 0 { m.m11 } else { m.m10 } } else { if j == 0 { m.m01 } else { m.m00 } } }
}

pub open spec fn minor2_spec(m: Matrix2, i: int, j: int) -> Fx {
    submatrix2_spec(m, i, j).m00
}

pub open spec fn cofactor2_spec(m: Matrix2, i: int, j: int) -> Fx {
    if (i + j) % 2 == 0 {
        minor2_spec(m, i, j)
    } else {
        fx_neg(minor2_spec(m, i, j))
    }
}

pub open spec fn det2_spec(m: Matrix2) -> Fx {
    fx_add(fx_mul(m.m00, cofactor2_spec(m, 0, 0)), fx_mul(m.m01, cofactor2_spec(m, 0, 1)))
}

pub open spec fn inverse2_spec(m: Matrix2) -> Matrix2 {
    let d = det2_spec(m);
    Matrix2 {
        m00: fx_div(cofactor2_spec(m, 0, 0), d),
        m01: fx_div(cofactor2_spec(m, 1, 0), d),
        m10: fx_div(cofactor2_spec(m, 0, 1), d),
        m11: fx_div(cofactor2_spec(m, 1, 1), d),
    }
}

pub open spec fn submatrix3_spec(m: Matrix3, i: int, j: int) -> Matrix2 {
    Matrix2 {
        m00: entry3(m, skip_spec(i, 0), skip_spec(j, 0)),
        m01: entry3(m, skip_spec(i, 0), skip_spec(j, 1)),
        m10: entry3(m, skip_spec(i, 1), skip_spec(j, 0)),
        m11: entry3(m, skip_spec(i, 1), skip_spec(j, 1)),
    }
}

pub open spec fn minor3_spec(m: Matrix3, i: int, j: int) -> Fx {
    det2_spec(submatrix3_spec(m, i, j))
}

pub open spec fn cofactor3_spec(m: Matrix3, i: int, j: int) -> Fx {
    if (i + j) % 2 == 0 {
        minor3_spec(m, i, j)
    } else {
        fx_neg(minor3_spec(m, i, j))
    }
}

pub open spec fn det3_spec(m: Matrix3) -> Fx {
    fx_add(
        fx_add(
            fx_mul(m.m00, cofactor3_spec(m, 0, 0)),
            fx_mul(m.m01, cofactor3_spec(m, 0, 1)),
        ),
        fx_mul(m.m02, cofactor3_spec(m, 0, 2)),
    )
}

pub open spec fn inverse3_spec(m: Matrix3) -> Matrix3 {
    let d = det3_spec(m);
    Matrix3 {
        m00: fx_div(cofactor3_spec(m, 0, 0), d),
        m01: fx_div(cofactor3_spec(m, 1, 0), d),
        m02: fx_div(cofactor3_spec(m, 2, 0), d),
        m10: fx_div(cofactor3_spec(m, 0, 1), d),
        m11: fx_div(cofactor3_spec(m, 1, 1), d),
        m12: fx_div(cofactor3_spec(m, 2, 1), d),
        m20: fx_div(cofactor3_spec(m, 0, 2), d),
        m21: fx_div(cofactor3_spec(m, 1, 2), d),
        m22: fx_div(cofactor3_spec(m, 2, 2), d),
    }
}

pub open spec fn transpose3_spec(m: Matrix3) -> Matrix3 {
    Matrix3 {
        m00: m.m00,
        m01: m.m10,
        m02: m.m20,
        m10: m.m01,
        m11: m.m11,
        m12: m.m21,
        m20: m.m02,
        m21: m.m12,
        m22: m.m22,
    }
}

/// A 3x3 matrix applied to a vector's components.
pub open spec fn mul3_vector_spec(m: Matrix3, v: Vector) -> Vector {
    Vector {
        x: fx_add(fx_add(fx_mul(m.m00, v.x), fx_mul(m.m01, v.y)), fx_mul(m.m02, v.z)),
        y: fx_add(fx_add(fx_mul(m.m10, v.x), fx_mul(m.m11, v.y)), fx_mul(m.m12, v.z)),
        z: fx_add(fx_add(fx_mul(m.m20, v.x), fx_mul(m.m21, v.y)), fx_mul(m.m22, v.z)),
    }
}

pub open spec fn matrix2_near(a: Matrix2, b: Matrix2) -> bool {
    fx_near(a.m00, b.m00) && fx_near(a.m01, b.m01) && fx_near(a.m10, b.m10) && fx_near(
        a.m11,
        b.m11,
    )
}

pub open spec fn matrix3_near(a: Matrix3, b: Matrix3) -> bool {
    fx_near(a.m00, b.m00) && fx_near(a.m01, b.m01) && fx_near(a.m02, b.m02) && fx_near(
        a.m10,
        b.m10,
    ) && fx_near(a.m11, b.m11) && fx_near(a.m12, b.m12) && fx_near(a.m20, b.m20) && fx_near(
        a.m21,
        b.m21,
    ) && fx_near(a.m22, b.m22)
}

impl Matrix2 {
    pub fn new(m00: Fx, m01: Fx, m10: Fx, m11: Fx) -> (r: Matrix2)
        ensures
            r == (Matrix2 { m00, m01, m10, m11 }),
    {
        Matrix2 { m00, m01, m10, m11 }
    }

    pub fn submatrix(&self, i: usize, j: usize) -> (r: Result<Matrix1, MatrixIndexError>)
        ensures
            i <= 1 && j <= 1 ==> r == Ok::<Matrix1, MatrixIndexError>(
                submatrix2_spec(*self, i as int, j as int),
            ),
            !(i <= 1 && j <= 1) ==> r == Err::<Matrix1, MatrixIndexError>(MatrixIndexError),
    {
        if i > 1 || j > 1 {
            Err(MatrixIndexError)
        } else if i == 0 {
            if j == 0 {
                Ok(Matrix1 { m00: self.m11 })
            } else {
                Ok(Matrix1 { m00: self.m10 })
            }
        } else {
            if j == 0 {
                Ok(Matrix1 { m00: self.m01 })
            } else {
                Ok(Matrix1 { m00: self.m00 })
            }
        }
    }

    pub fn minor(&self, i: usize, j: usize) -> (r: Result<Fx, MatrixIndexError>)
        ensures
            i <= 1 && j <= 1 ==> r == Ok::<Fx, MatrixIndexError>(minor2_spec(*self, i as int, j as int)),
            !(i <= 1 && j <= 1) ==> r == Err::<Fx, MatrixIndexError>(MatrixIndexError),
    {
        match self.submatrix(i, j) {
            Ok(s) => Ok(s.m00),
            Err(e) => Err(e),
        }
    }

    pub fn cofactor(&self, i: usize, j: usize) -> (r: Result<Fx, MatrixIndexError>)
        ensures
            i <= 1 && j <= 1 ==> r == Ok::<Fx, MatrixIndexError>(
                cofactor2_spec(*self, i as int, j as int),
            ),
            !(i <= 1 && j <= 1) ==> r == Err::<Fx, MatrixIndexError>(MatrixIndexError),
    {
        match self.minor(i, j) {
            Ok(m) => {
                if (i + j) % 2 == 0 {
                    Ok(m)
                } else {
                    Ok(m.neg())
                }
            },
            Err(e) => Err(e),
        }
    }

    fn cofactor_in(&self, i: usize, j: usize) -> (r: Fx)
        requires
            i <= 1,
            j <= 1,
        ensures
            r == cofactor2_spec(*self, i as int, j as int),
    {
        match self.cofactor(i, j) {
            Ok(c) => c,
            Err(_) => Fx::zero(),
        }
    }

    pub fn determinant(&self) -> (r: Fx)
        ensures
            r == det2_spec(*self),
    {
        self.m00.mul(self.cofactor_in(0, 0)).add(self.m01.mul(self.cofactor_in(0, 1)))
    }

    pub fn invertible(&self) -> (r: bool)
        ensures
            r == (det2_spec(*self).raw != 0),
    {
        self.determinant().raw != 0
    }

    pub fn inverse(&self) -> (r: Option<Matrix2>)
        ensures
            det2_spec(*self).raw == 0 ==> r is None,
            det2_spec(*self).raw != 0 ==> r == Some(inverse2_spec(*self)),
    {
        let d = self.determinant();
        if d.raw == 0 {
            return None;
        }
        Some(
            Matrix2 {
                m00: self.cofactor_in(0, 0).div(d),
                m01: self.cofactor_in(1, 0).div(d),
                m10: self.cofactor_in(0, 1).div(d),
                m11: self.cofactor_in(1, 1).div(d),
            },
        )
    }

    pub fn approx_eq(&self, rhs: &Matrix2) -> (r: bool)
        ensures
            r == matrix2_near(*self, *rhs),
    {
        self.m00.approx_eq(rhs.m00) && self.m01.approx_eq(rhs.m01) && self.m10.approx_eq(rhs.m10)
            && self.m11.approx_eq(rhs.m11)
    }
}

impl PartialEq for Matrix2 {
    /// Equality is epsilon-tolerant, entrywise.
    fn eq(&self, other: &Self) -> (r: bool) {
        self.approx_eq(other)
    }
}

impl vstd::std_specs::cmp::PartialEqSpecImpl for Matrix2 {
    open spec fn obeys_eq_spec() -> bool {
        true
    }

    open spec fn eq_spec(&self, other: &Matrix2) -> bool {
        matrix2_near(*self, *other)
    }
}

/// The parent index that submatrix index `k` maps to once `removed` is gone.
fn skip(removed: usize, k: usize) -> (r: usize)
    requires
        k < 3,
        removed <= 3,
    ensures
        r as int == skip_spec(removed as int, k as int),
        r <= 3,
{
    if k < removed {
        k
    } else {
        k + 1
    }
}

impl Matrix3 {

    pub fn new(
        m00: Fx, m01: Fx, m02: Fx,
        m10: Fx, m11: Fx, m12: Fx,
        m20: Fx, m21: Fx, m22: Fx,
    ) -> (r: Matrix3)
        ensures
            r == (Matrix3 { m00, m01, m02, m10, m11, m12, m20, m21, m22 }),
    {
        Matrix3 { m00, m01, m02, m10, m11, m12, m20, m21, m22 }
    }

    /// Entry by row and column; callers keep indices in range.
    fn get(&self, r: usize, c: usize) -> (e: Fx)
        requires
            r <= 2,
            c <= 2,
        ensures
            e == entry3(*self, r as int, c as int),
    {
        if r == 0 {
            if c == 0 { self.m00 } else if c == 1 { self.m01 } else { self.m02 }
        } else if r == 1 {
            if c == 0 { self.m10 } else if c == 1 { self.m11 } else { self.m12 }
        } else {
            if c == 0 { self.m20 } else if c == 1 { self.m21 } else { self.m22 }
        }
    }

    pub fn submatrix(&self, i: usize, j: usize) -> (r: Result<Matrix2, MatrixIndexError>)
        ensures
            i <= 2 && j <= 2 ==> r == Ok::<Matrix2, MatrixIndexError>(
                submatrix3_spec(*self, i as int, j as int),
            ),
            !(i <= 2 && j <= 2) ==> r == Err::<Matrix2, MatrixIndexError>(MatrixIndexError),
    {
        if i > 2 || j > 2 {
            Err(MatrixIndexError)
        } else {
            let r0 = skip(i, 0);
            let r1 = skip(i, 1);
            let c0 = skip(j, 0);
            let c1 = skip(j, 1);
            Ok(
                Matrix2 {
                    m00: self.get(r0, c0),
                    m01: self.get(r0, c1),
                    m10: self.get(r1, c0),
                    m11: self.get(r1, c1),
                },
            )
        }
    }

    pub fn minor(&self, i: usize, j: usize) -> (r: Result<Fx, MatrixIndexError>)
        ensures
            i <= 2 && j <= 2 ==> r == Ok::<Fx, MatrixIndexError>(minor3_spec(*self, i as int, j as int)),
            !(i <= 2 && j <= 2) ==> r == Err::<Fx, MatrixIndexError>(MatrixIndexError),
    {
        match self.submatrix(i, j) {
            Ok(s) => Ok(s.determinant()),
            Err(e) => Err(e),
        }
    }

    pub fn cofactor(&self, i: usize, j: usize) -> (r: Result<Fx, MatrixIndexError>)
        ensures
            i <= 2 && j <= 2 ==> r == Ok::<Fx, MatrixIndexError>(
                cofactor3_spec(*self, i as int, j as int),
            ),
            !(i <= 2 && j <= 2) ==> r == Err::<Fx, MatrixIndexError>(MatrixIndexError),
    {
        match self.minor(i, j) {
            Ok(m) => {
                if (i + j) % 2 == 0 {
                    Ok(m)
                } else {
                    Ok(m.neg())
                }
            },
            Err(e) => Err(e),
        }
    }

    fn cofactor_in(&self, i: usize, j: usize) -> (r: Fx)
        requires
            i <= 2,
            j <= 2,
        ensures
            r == cofactor3_spec(*self, i as int, j as int),
    {
        match self.cofactor(i, j) {
            Ok(c) => c,
            Err(_) => Fx::zero(),
        }
    }

    pub fn determinant(&self) -> (r: Fx)
        ensures
            r == det3_spec(*self),
    {
        self.m00.mul(self.cofactor_in(0, 0)).add(self.m01.mul(self.cofactor_in(0, 1))).add(
            self.m02.mul(self.cofactor_in(0, 2)),
        )
    }

    pub fn invertible(&self) -> (r: bool)
        ensures
            r == (det3_spec(*self).raw != 0),
    {
        self.determinant().raw != 0
    }

    pub fn inverse(&self) -> (r: Option<Matrix3>)
        ensures
            det3_spec(*self).raw == 0 ==> r is None,
            det3_spec(*self).raw != 0 ==> r == Some(inverse3_spec(*self)),
    {
        let d = self.determinant();
        if d.raw == 0 {
            return None;
        }
        Some(
            Matrix3 {
                m00: self.cofactor_in(0, 0).div(d),
                m01: self.cofactor_in(1, 0).div(d),
                m02: self.cofactor_in(2, 0).div(d),
                m10: self.cofactor_in(0, 1).div(d),
                m11: self.cofactor_in(1, 1).div(d),
                m12: self.cofactor_in(2, 1).div(d),
                m20: self.cofactor_in(0, 2).div(d),
                m21: self.cofactor_in(1, 2).div(d),
                m22: self.cofactor_in(2, 2).div(d),
            },
        )
    }

    pub fn transpose(&self) -> (r: Matrix3)
        ensures
            r == transpose3_spec(*self),
    {
        Matrix3 {
            m00: self.m00,
            m01: self.m10,
            m02: self.m20,
            m10: self.m01,
            m11: self.m11,
            m12: self.m21,
            m20: self.m02,
            m21: self.m12,
            m22: self.m22,
        }
    }

    /// Apply the matrix to a vector's components.
    pub fn mul_vector(&self, v: Vector) -> (r: Vector)
        ensures
            r == mul3_vector_spec(*self, v),
    {
        Vector {
            x: self.m00.mul(v.x).add(self.m01.mul(v.y)).add(self.m02.mul(v.z)),
            y: self.m10.mul(v.x).add(self.m11.mul(v.y)).add(self.m12.mul(v.z)),
            z: self.m20.mul(v.x).add(self.m21.mul(v.y)).add(self.m22.mul(v.z)),
        }
    }

    pub fn approx_eq(&self, rhs: &Matrix3) -> (r: bool)
        ensures
            r == matrix3_near(*self, *rhs),
    {
        self.m00.approx_eq(rhs.m00) && self.m01.approx_eq(rhs.m01) && self.m02.approx_eq(rhs.m02)
            && self.m10.approx_eq(rhs.m10) && self.m11.approx_eq(rhs.m11) && self.m12.approx_eq(
            rhs.m12,
        ) && self.m20.approx_eq(rhs.m20) && self.m21.approx_eq(rhs.m21) && self.m22.approx_eq(
            rhs.m22,
        )
    }
}

impl PartialEq for Matrix3 {
    /// Equality is epsilon-tolerant, entrywise.
    fn eq(&self, other: &Self) -> (r: bool) {
        self.approx_eq(other)
    }
}

impl vstd::std_specs::cmp::PartialEqSpecImpl for Matrix3 {
    open spec fn obeys_eq_spec() -> bool {
        true
    }

    open spec fn eq_spec(&self, other: &Matrix3) -> bool {
        matrix3_near(*self, *other)
    }
}


pub open spec fn submatrix4_spec(m: Matrix4, i: int, j: int) -> Matrix3 {
    Matrix3 {
        m00: entry4(m, skip_spec(i, 0), skip_spec(j, 0)),
        m01: entry4(m, skip_spec(i, 0), skip_spec(j, 1)),
        m02: entry4(m, skip_spec(i, 0), skip_spec(j, 2)),
        m10: entry4(m, skip_spec(i, 1), skip_spec(j, 0)),
        m11: entry4(m, skip_spec(i, 1), skip_spec(j, 1)),
        m12: entry4(m, skip_spec(i, 1), skip_spec(j, 2)),
        m20: entry4(m, skip_spec(i, 2), skip_spec(j, 0)),
        m21: entry4(m, skip_spec(i, 2), skip_spec(j, 1)),
        m22: entry4(m, skip_spec(i, 2), skip_spec(j, 2)),
    }
}

pub open spec fn minor4_spec(m: Matrix4, i: int, j: int) -> Fx {
    det3_spec(submatrix4_spec(m, i, j))
}

pub open spec fn cofactor4_spec(m: Matrix4, i: int, j: int) -> Fx {
    if (i + j) % 2 == 0 {
        minor4_spec(m, i, j)
    } else {
        fx_neg(minor4_spec(m, i, j))
    }
}

pub open spec fn det4_spec(m: Matrix4) -> Fx {
    fx_add(fx_add(fx_add(fx_mul(m.m00, cofactor4_spec(m, 0, 0)), fx_mul(m.m01, cofactor4_spec(m, 0, 1))), fx_mul(m.m02, cofactor4_spec(m, 0, 2))), fx_mul(m.m03, cofactor4_spec(m, 0, 3)))
}

pub open spec fn inverse4_spec(m: Matrix4) -> Matrix4 {
    let d = det4_spec(m);
    Matrix4 {
        m00: fx_div(cofactor4_spec(m, 0, 0), d),
        m01: fx_div(cofactor4_spec(m, 1, 0), d),
        m02: fx_div(cofactor4_spec(m, 2, 0), d),
        m03: fx_div(cofactor4_spec(m, 3, 0), d),
        m10: fx_div(cofactor4_spec(m, 0, 1), d),
        m11: fx_div(cofactor4_spec(m, 1, 1), d),
        m12: fx_div(cofactor4_spec(m, 2, 1), d),
        m13: fx_div(cofactor4_spec(m, 3, 1), d),
        m20: fx_div(cofactor4_spec(m, 0, 2), d),
        m21: fx_div(cofactor4_spec(m, 1, 2), d),
        m22: fx_div(cofactor4_spec(m, 2, 2), d),
        m23: fx_div(cofactor4_spec(m, 3, 2), d),
        m30: fx_div(cofactor4_spec(m, 0, 3), d),
        m31: fx_div(cofactor4_spec(m, 1, 3), d),
        m32: fx_div(cofactor4_spec(m, 2, 3), d),
        m33: fx_div(cofactor4_spec(m, 3, 3), d),
    }
}

pub open spec fn transpose4_spec(m: Matrix4) -> Matrix4 {
    Matrix4 {
        m00: m.m00,
        m01: m.m10,
        m02: m.m20,
        m03: m.m30,
        m10: m.m01,
        m11: m.m11,
        m12: m.m21,
        m13: m.m31,
        m20: m.m02,
        m21: m.m12,
        m22: m.m22,
        m23: m.m32,
        m30: m.m03,
        m31: m.m13,
        m32: m.m23,
        m33: m.m33,
    }
}

pub open spec fn mul4_spec(a: Matrix4, b: Matrix4) -> Matrix4 {
    Matrix4 {
        m00: fx_add(fx_add(fx_add(fx_mul(a.m00, b.m00), fx_mul(a.m01, b.m10)), fx_mul(a.m02, b.m20)), fx_mul(a.m03, b.m30)),
        m01: fx_add(fx_add(fx_add(fx_mul(a.m00, b.m01), fx_mul(a.m01, b.m11)), fx_mul(a.m02, b.m21)), fx_mul(a.m03, b.m31)),
        m02: fx_add(fx_add(fx_add(fx_mul(a.m00, b.m02), fx_mul(a.m01, b.m12)), fx_mul(a.m02, b.m22)), fx_mul(a.m03, b.m32)),
        m03: fx_add(fx_add(fx_add(fx_mul(a.m00, b.m03), fx_mul(a.m01, b.m13)), fx_mul(a.m02, b.m23)), fx_mul(a.m03, b.m33)),
        m10: fx_add(fx_add(fx_add(fx_mul(a.m10, b.m00), fx_mul(a.m11, b.m10)), fx_mul(a.m12, b.m20)), fx_mul(a.m13, b.m30)),
        m11: fx_add(fx_add(fx_add(fx_mul(a.m10, b.m01), fx_mul(a.m11, b.m11)), fx_mul(a.m12, b.m21)), fx_mul(a.m13, b.m31)),
        m12: fx_add(fx_add(fx_add(fx_mul(a.m10, b.m02), fx_mul(a.m11, b.m12)), fx_mul(a.m12, b.m22)), fx_mul(a.m13, b.m32)),
        m13: fx_add(fx_add(fx_add(fx_mul(a.m10, b.m03), fx_mul(a.m11, b.m13)), fx_mul(a.m12, b.m23)), fx_mul(a.m13, b.m33)),
        m20: fx_add(fx_add(fx_add(fx_mul(a.m20, b.m00), fx_mul(a.m21, b.m10)), fx_mul(a.m22, b.m20)), fx_mul(a.m23, b.m30)),
        m21: fx_add(fx_add(fx_add(fx_mul(a.m20, b.m01), fx_mul(a.m21, b.m11)), fx_mul(a.m22, b.m21)), fx_mul(a.m23, b.m31)),
        m22: fx_add(fx_add(fx_add(fx_mul(a.m20, b.m02), fx_mul(a.m21, b.m12)), fx_mul(a.m22, b.m22)), fx_mul(a.m23, b.m32)),
        m23: fx_add(fx_add(fx_add(fx_mul(a.m20, b.m03), fx_mul(a.m21, b.m13)), fx_mul(a.m22, b.m23)), fx_mul(a.m23, b.m33)),
        m30: fx_add(fx_add(fx_add(fx_mul(a.m30, b.m00), fx_mul(a.m31, b.m10)), fx_mul(a.m32, b.m20)), fx_mul(a.m33, b.m30)),
        m31: fx_add(fx_add(fx_add(fx_mul(a.m30, b.m01), fx_mul(a.m31, b.m11)), fx_mul(a.m32, b.m21)), fx_mul(a.m33, b.m31)),
        m32: fx_add(fx_add(fx_add(fx_mul(a.m30, b.m02), fx_mul(a.m31, b.m12)), fx_mul(a.m32, b.m22)), fx_mul(a.m33, b.m32)),
        m33: fx_add(fx_add(fx_add(fx_mul(a.m30, b.m03), fx_mul(a.m31, b.m13)), fx_mul(a.m32, b.m23)), fx_mul(a.m33, b.m33)),
    }
}

pub open spec fn identity4_spec() -> Matrix4 {
    Matrix4 {
        m00: fx(SCALE as int),
        m01: fx(0),
        m02: fx(0),
        m03: fx(0),
        m10: fx(0),
        m11: fx(SCALE as int),
        m12: fx(0),
        m13: fx(0),
        m20: fx(0),
        m21: fx(0),
        m22: fx(SCALE as int),
        m23: fx(0),
        m30: fx(0),
        m31: fx(0),
        m32: fx(0),
        m33: fx(SCALE as int),
    }
}

pub open spec fn matrix4_near(a: Matrix4, b: Matrix4) -> bool {
    fx_near(a.m00, b.m00) && fx_near(a.m01, b.m01) && fx_near(a.m02, b.m02) && fx_near(a.m03, b.m03) && fx_near(a.m10, b.m10) && fx_near(a.m11, b.m11) && fx_near(a.m12, b.m12) && fx_near(a.m13, b.m13) && fx_near(a.m20, b.m20) && fx_near(a.m21, b.m21) && fx_near(a.m22, b.m22) && fx_near(a.m23, b.m23) && fx_near(a.m30, b.m30) && fx_near(a.m31, b.m31) && fx_near(a.m32, b.m32) && fx_near(a.m33, b.m33)
}

impl Matrix4 {

    pub fn new(
        m00: Fx, m01: Fx, m02: Fx, m03: Fx,
        m10: Fx, m11: Fx, m12: Fx, m13: Fx,
        m20: Fx, m21: Fx, m22: Fx, m23: Fx,
        m30: Fx, m31: Fx, m32: Fx, m33: Fx,
    ) -> (r: Matrix4)
        ensures
            r == (Matrix4 {
                m00, m01, m02, m03,
                m10, m11, m12, m13,
                m20, m21, m22, m23,
                m30, m31, m32, m33,
            }),
    {
        Matrix4 {
            m00, m01, m02, m03,
            m10, m11, m12, m13,
            m20, m21, m22, m23,
            m30, m31, m32, m33,
        }
    }

    /// Entry by row and column; callers keep indices in range.
    fn get(&self, r: usize, c: usize) -> (e: Fx)
        requires
            r <= 3,
            c <= 3,
        ensures
            e == entry4(*self, r as int, c as int),
    {
        if r == 0 {
            if c == 0 { self.m00 } else if c == 1 { self.m01 } else if c == 2 { self.m02 } else { self.m03 }
        } else if r == 1 {
            if c == 0 { self.m10 } else if c == 1 { self.m11 } else if c == 2 { self.m12 } else { self.m13 }
        } else if r == 2 {
            if c == 0 { self.m20 } else if c == 1 { self.m21 } else if c == 2 { self.m22 } else { self.m23 }
        } else {
            if c == 0 { self.m30 } else if c == 1 { self.m31 } else if c == 2 { self.m32 } else { self.m33 }
        }
    }

    pub fn submatrix(&self, i: usize, j: usize) -> (r: Result<Matrix3, MatrixIndexError>)
        ensures
            i <= 3 && j <= 3 ==> r == Ok::<Matrix3, MatrixIndexError>(
                submatrix4_spec(*self, i as int, j as int),
            ),
            !(i <= 3 && j <= 3) ==> r == Err::<Matrix3, MatrixIndexError>(MatrixIndexError),
    {
        if i > 3 || j > 3 {
            Err(MatrixIndexError)
        } else {
            let r0 = skip(i, 0);
            let r1 = skip(i, 1);
            let r2 = skip(i, 2);
            let c0 = skip(j, 0);
            let c1 = skip(j, 1);
            let c2 = skip(j, 2);
            Ok(
                Matrix3 {
                    m00: self.get(r0, c0),
                    m01: self.get(r0, c1),
                    m02: self.get(r0, c2),
                    m10: self.get(r1, c0),
                    m11: self.get(r1, c1),
                    m12: self.get(r1, c2),
                    m20: self.get(r2, c0),
                    m21: self.get(r2, c1),
                    m22: self.get(r2, c2),
                },
            )
        }
    }

    pub fn minor(&self, i: usize, j: usize) -> (r: Result<Fx, MatrixIndexError>)
        ensures
            i <= 3 && j <= 3 ==> r == Ok::<Fx, MatrixIndexError>(minor4_spec(*self, i as int, j as int)),
            !(i <= 3 && j <= 3) ==> r == Err::<Fx, MatrixIndexError>(MatrixIndexError),
    {
        match self.submatrix(i, j) {
            Ok(s) => Ok(s.determinant()),
            Err(e) => Err(e),
        }
    }

    pub fn cofactor(&self, i: usize, j: usize) -> (r: Result<Fx, MatrixIndexError>)
        ensures
            i <= 3 && j <= 3 ==> r == Ok::<Fx, MatrixIndexError>(
                cofactor4_spec(*self, i as int, j as int),
            ),
            !(i <= 3 && j <= 3) ==> r == Err::<Fx, MatrixIndexError>(MatrixIndexError),
    {
        match self.minor(i, j) {
            Ok(m) => {
                if (i + j) % 2 == 0 {
                    Ok(m)
                } else {
                    Ok(m.neg())
                }
            },
            Err(e) => Err(e),
        }
    }

    fn cofactor_in(&self, i: usize, j: usize) -> (r: Fx)
        requires
            i <= 3,
            j <= 3,
        ensures
            r == cofactor4_spec(*self, i as int, j as int),
    {
        match self.cofactor(i, j) {
            Ok(c) => c,
            Err(_) => Fx::zero(),
        }
    }

    pub fn determinant(&self) -> (r: Fx)
        ensures
            r == det4_spec(*self),
    {
        self.m00.mul(self.cofactor_in(0, 0)).add(self.m01.mul(self.cofactor_in(0, 1))).add(
            self.m02.mul(self.cofactor_in(0, 2)),
        ).add(self.m03.mul(self.cofactor_in(0, 3)))
    }

    pub fn invertible(&self) -> (r: bool)
        ensures
            r == (det4_spec(*self).raw != 0),
    {
        self.determinant().raw != 0
    }

    pub fn inverse(&self) -> (r: Option<Matrix4>)
        ensures
            det4_spec(*self).raw == 0 ==> r is None,
            det4_spec(*self).raw != 0 ==> r == Some(inverse4_spec(*self)),
    {
        let d = self.determinant();
        if d.raw == 0 {
            return None;
        }
        Some(
            Matrix4 {
                m00: self.cofactor_in(0, 0).div(d),
                m01: self.cofactor_in(1, 0).div(d),
                m02: self.cofactor_in(2, 0).div(d),
                m03: self.cofactor_in(3, 0).div(d),
                m10: self.cofactor_in(0, 1).div(d),
                m11: self.cofactor_in(1, 1).div(d),
                m12: self.cofactor_in(2, 1).div(d),
                m13: self.cofactor_in(3, 1).div(d),
                m20: self.cofactor_in(0, 2).div(d),
                m21: self.cofactor_in(1, 2).div(d),
                m22: self.cofactor_in(2, 2).div(d),
                m23: self.cofactor_in(3, 2).div(d),
                m30: self.cofactor_in(0, 3).div(d),
                m31: self.cofactor_in(1, 3).div(d),
                m32: self.cofactor_in(2, 3).div(d),
                m33: self.cofactor_in(3, 3).div(d),
            },
        )
    }

    pub fn transpose(&self) -> (r: Matrix4)
        ensures
            r == transpose4_spec(*self),
    {
        Matrix4 {
            m00: self.m00,
            m01: self.m10,
            m02: self.m20,
            m03: self.m30,
            m10: self.m01,
            m11: self.m11,
            m12: self.m21,
            m13: self.m31,
            m20: self.m02,
            m21: self.m12,
            m22: self.m22,
            m23: self.m32,
            m30: self.m03,
            m31: self.m13,
            m32: self.m23,
            m33: self.m33,
        }
    }

    pub fn mul(&self, rhs: &Matrix4) -> (r: Matrix4)
        ensures
            r == mul4_spec(*self, *rhs),
    {
        Matrix4 {
            m00: self.m00.mul(rhs.m00).add(self.m01.mul(rhs.m10)).add(self.m02.mul(rhs.m20)).add(self.m03.mul(rhs.m30)),
            m01: self.m00.mul(rhs.m01).add(self.m01.mul(rhs.m11)).add(self.m02.mul(rhs.m21)).add(self.m03.mul(rhs.m31)),
            m02: self.m00.mul(rhs.m02).add(self.m01.mul(rhs.m12)).add(self.m02.mul(rhs.m22)).add(self.m03.mul(rhs.m32)),
            m03: self.m00.mul(rhs.m03).add(self.m01.mul(rhs.m13)).add(self.m02.mul(rhs.m23)).add(self.m03.mul(rhs.m33)),
            m10: self.m10.mul(rhs.m00).add(self.m11.mul(rhs.m10)).add(self.m12.mul(rhs.m20)).add(self.m13.mul(rhs.m30)),
            m11: self.m10.mul(rhs.m01).add(self.m11.mul(rhs.m11)).add(self.m12.mul(rhs.m21)).add(self.m13.mul(rhs.m31)),
            m12: self.m10.mul(rhs.m02).add(self.m11.mul(rhs.m12)).add(self.m12.mul(rhs.m22)).add(self.m13.mul(rhs.m32)),
            m13: self.m10.mul(rhs.m03).add(self.m11.mul(rhs.m13)).add(self.m12.mul(rhs.m23)).add(self.m13.mul(rhs.m33)),
            m20: self.m20.mul(rhs.m00).add(self.m21.mul(rhs.m10)).add(self.m22.mul(rhs.m20)).add(self.m23.mul(rhs.m30)),
            m21: self.m20.mul(rhs.m01).add(self.m21.mul(rhs.m11)).add(self.m22.mul(rhs.m21)).add(self.m23.mul(rhs.m31)),
            m22: self.m20.mul(rhs.m02).add(self.m21.mul(rhs.m12)).add(self.m22.mul(rhs.m22)).add(self.m23.mul(rhs.m32)),
            m23: self.m20.mul(rhs.m03).add(self.m21.mul(rhs.m13)).add(self.m22.mul(rhs.m23)).add(self.m23.mul(rhs.m33)),
            m30: self.m30.mul(rhs.m00).add(self.m31.mul(rhs.m10)).add(self.m32.mul(rhs.m20)).add(self.m33.mul(rhs.m30)),
            m31: self.m30.mul(rhs.m01).add(self.m31.mul(rhs.m11)).add(self.m32.mul(rhs.m21)).add(self.m33.mul(rhs.m31)),
            m32: self.m30.mul(rhs.m02).add(self.m31.mul(rhs.m12)).add(self.m32.mul(rhs.m22)).add(self.m33.mul(rhs.m32)),
            m33: self.m30.mul(rhs.m03).add(self.m31.mul(rhs.m13)).add(self.m32.mul(rhs.m23)).add(self.m33.mul(rhs.m33)),
        }
    }

    pub fn identity() -> (r: Matrix4)
        ensures
            r == identity4_spec(),
    {
        Matrix4 {
            m00: Fx::one(),
            m01: Fx::zero(),
            m02: Fx::zero(),
            m03: Fx::zero(),
            m10: Fx::zero(),
            m11: Fx::one(),
            m12: Fx::zero(),
            m13: Fx::zero(),
            m20: Fx::zero(),
            m21: Fx::zero(),
            m22: Fx::one(),
            m23: Fx::zero(),
            m30: Fx::zero(),
            m31: Fx::zero(),
            m32: Fx::zero(),
            m33: Fx::one(),
        }
    }

    pub fn approx_eq(&self, rhs: &Matrix4) -> (r: bool)
        ensures
            r == matrix4_near(*self, *rhs),
    {
        self.m00.approx_eq(rhs.m00) && self.m01.approx_eq(rhs.m01) && self.m02.approx_eq(rhs.m02) && self.m03.approx_eq(rhs.m03) && self.m10.approx_eq(rhs.m10) && self.m11.approx_eq(rhs.m11) && self.m12.approx_eq(rhs.m12) && self.m13.approx_eq(rhs.m13) && self.m20.approx_eq(rhs.m20) && self.m21.approx_eq(rhs.m21) && self.m22.approx_eq(rhs.m22) && self.m23.approx_eq(rhs.m23) && self.m30.approx_eq(rhs.m30) && self.m31.approx_eq(rhs.m31) && self.m32.approx_eq(rhs.m32) && self.m33.approx_eq(rhs.m33)
    }
}

impl PartialEq for Matrix4 {
    /// Equality is epsilon-tolerant, entrywise.
    fn eq(&self, other: &Self) -> (r: bool) {
        self.approx_eq(other)
    }
}

impl vstd::std_specs::cmp::PartialEqSpecImpl for Matrix4 {
    open spec fn obeys_eq_spec() -> bool {
        true
    }

    open spec fn eq_spec(&self, other: &Matrix4) -> bool {
        matrix4_near(*self, *other)
    }
}


/// A 4x4 matrix whose bottom row is exactly `[0, 0, 0, 1]`, so that it
/// represents an affine map.
#[derive(Clone, Copy, Debug)]
pub struct Transform {
    pub matrix: Matrix4,
}

/// The bottom row reads exactly `[0, 0, 0, 1]`.
pub open spec fn transform_wf(t: Transform) -> bool {
    t.matrix.m30.raw == 0 && t.matrix.m31.raw == 0 && t.matrix.m32.raw == 0 && t.matrix.m33.raw
        == SCALE
}

/// A transform applied to a point: the homogeneous weight 1 brings in the
/// translation column.
pub open spec fn transform_point_spec(t: Transform, p: Point) -> Point {
    Point {
        x: fx_add(
            fx_add(fx_add(fx_mul(t.matrix.m00, p.x), fx_mul(t.matrix.m01, p.y)), fx_mul(t.matrix.m02, p.z)),
            t.matrix.m03,
        ),
        y: fx_add(
            fx_add(fx_add(fx_mul(t.matrix.m10, p.x), fx_mul(t.matrix.m11, p.y)), fx_mul(t.matrix.m12, p.z)),
            t.matrix.m13,
        ),
        z: fx_add(
            fx_add(fx_add(fx_mul(t.matrix.m20, p.x), fx_mul(t.matrix.m21, p.y)), fx_mul(t.matrix.m22, p.z)),
            t.matrix.m23,
        ),
    }
}

/// A transform applied to a vector: the homogeneous weight 0 drops the
/// translation column.
pub open spec fn transform_vector_spec(t: Transform, v: Vector) -> Vector {
    Vector {
        x: fx_add(fx_add(fx_mul(t.matrix.m00, v.x), fx_mul(t.matrix.m01, v.y)), fx_mul(t.matrix.m02, v.z)),
        y: fx_add(fx_add(fx_mul(t.matrix.m10, v.x), fx_mul(t.matrix.m11, v.y)), fx_mul(t.matrix.m12, v.z)),
        z: fx_add(fx_add(fx_mul(t.matrix.m20, v.x), fx_mul(t.matrix.m21, v.y)), fx_mul(t.matrix.m22, v.z)),
    }
}

pub open spec fn transform_mul_spec(a: Transform, b: Transform) -> Transform {
    Transform { matrix: mul4_spec(a.matrix, b.matrix) }
}

pub open spec fn identity_spec() -> Transform {
    Transform { matrix: identity4_spec() }
}

/// The inverse transform, defined whenever the determinant is nonzero.
pub open spec fn transform_inverse_spec(t: Transform) -> Transform {
    Transform { matrix: inverse4_spec(t.matrix) }
}

impl Transform {
    /// Accept a matrix as an affine transform only when its bottom row is
    /// exactly `[0, 0, 0, 1]`.
    pub fn new(matrix: Matrix4) -> (r: Result<Transform, CastingTransformError>)
        ensures
            transform_wf(Transform { matrix }) ==> r == Ok::<Transform, CastingTransformError>(
                Transform { matrix },
            ),
            !transform_wf(Transform { matrix }) ==> r == Err::<Transform, CastingTransformError>(
                CastingTransformError,
            ),
    {
        if matrix.m30.raw == 0 && matrix.m31.raw == 0 && matrix.m32.raw == 0 && matrix.m33.raw
            == SCALE {
            Ok(Transform { matrix })
        } else {
            Err(CastingTransformError)
        }
    }

    pub fn identity() -> (r: Transform)
        ensures
            r == identity_spec(),
            transform_wf(r),
    {
        Transform { matrix: Matrix4::identity() }
    }

    pub fn submatrix(&self, i: usize, j: usize) -> (r: Result<Matrix3, MatrixIndexError>)
        ensures
            i <= 3 && j <= 3 ==> r == Ok::<Matrix3, MatrixIndexError>(
                submatrix4_spec(self.matrix, i as int, j as int),
            ),
            !(i <= 3 && j <= 3) ==> r == Err::<Matrix3, MatrixIndexError>(MatrixIndexError),
    {
        self.matrix.submatrix(i, j)
    }

    pub fn invertible(&self) -> (r: bool)
        ensures
            r == (det4_spec(self.matrix).raw != 0),
    {
        self.matrix.invertible()
    }

    pub fn inverse(&self) -> (r: Option<Transform>)
        ensures
            det4_spec(self.matrix).raw == 0 ==> r is None,
            det4_spec(self.matrix).raw != 0 ==> r == Some(transform_inverse_spec(*self)),
    {
        match self.matrix.inverse() {
            Some(m) => Some(Transform { matrix: m }),
            None => None,
        }
    }

    /// Composition; the affine bottom row is preserved exactly.
    pub fn mul(&self, rhs: &Transform) -> (r: Transform)
        ensures
            r == transform_mul_spec(*self, *rhs),
            transform_wf(*self) && transform_wf(*rhs) ==> transform_wf(r),
    {
        let m = self.matrix.mul(&rhs.matrix);
        proof {
            if transform_wf(*self) && transform_wf(*rhs) {
                lemma_mul_raw_zero(rhs.matrix.m00.raw as int);
                lemma_mul_raw_zero(rhs.matrix.m10.raw as int);
                lemma_mul_raw_zero(rhs.matrix.m20.raw as int);
                lemma_mul_raw_zero(rhs.matrix.m01.raw as int);
                lemma_mul_raw_zero(rhs.matrix.m11.raw as int);
                lemma_mul_raw_zero(rhs.matrix.m21.raw as int);
                lemma_mul_raw_zero(rhs.matrix.m02.raw as int);
                lemma_mul_raw_zero(rhs.matrix.m12.raw as int);
                lemma_mul_raw_zero(rhs.matrix.m22.raw as int);
                lemma_mul_raw_zero(rhs.matrix.m03.raw as int);
                lemma_mul_raw_zero(rhs.matrix.m13.raw as int);
                lemma_mul_raw_zero(rhs.matrix.m23.raw as int);
                lemma_mul_raw_one(rhs.matrix.m30.raw as int);
                lemma_mul_raw_one(rhs.matrix.m31.raw as int);
                lemma_mul_raw_one(rhs.matrix.m32.raw as int);
                lemma_mul_raw_one(rhs.matrix.m33.raw as int);
            }
        }
        Transform { matrix: m }
    }

    pub fn mul_point(&self, p: Point) -> (r: Point)
        ensures
            r == transform_point_spec(*self, p),
    {
        Point {
            x: self.matrix.m00.mul(p.x).add(self.matrix.m01.mul(p.y)).add(
                self.matrix.m02.mul(p.z),
            ).add(self.matrix.m03),
            y: self.matrix.m10.mul(p.x).add(self.matrix.m11.mul(p.y)).add(
                self.matrix.m12.mul(p.z),
            ).add(self.matrix.m13),
            z: self.matrix.m20.mul(p.x).add(self.matrix.m21.mul(p.y)).add(
                self.matrix.m22.mul(p.z),
            ).add(self.matrix.m23),
        }
    }

    pub fn mul_vector(&self, v: Vector) -> (r: Vector)
        ensures
            r == transform_vector_spec(*self, v),
    {
        Vector {
            x: self.matrix.m00.mul(v.x).add(self.matrix.m01.mul(v.y)).add(
                self.matrix.m02.mul(v.z),
            ),
            y: self.matrix.m10.mul(v.x).add(self.matrix.m11.mul(v.y)).add(
                self.matrix.m12.mul(v.z),
            ),
            z: self.matrix.m20.mul(v.x).add(self.matrix.m21.mul(v.y)).add(
                self.matrix.m22.mul(v.z),
            ),
        }
    }

    pub fn approx_eq(&self, rhs: &Transform) -> (r: bool)
        ensures
            r == matrix4_near(self.matrix, rhs.matrix),
    {
        self.matrix.approx_eq(&rhs.matrix)
    }
}

impl PartialEq for Transform {
    /// Equality is epsilon-tolerant, entrywise.
    fn eq(&self, other: &Self) -> (r: bool) {
        self.approx_eq(other)
    }
}

impl vstd::std_specs::cmp::PartialEqSpecImpl for Transform {
    open spec fn obeys_eq_spec() -> bool {
        true
    }

    open spec fn eq_spec(&self, other: &Transform) -> bool {
        matrix4_near(self.matrix, other.matrix)
    }
}


/// Raised when a transform with no inverse is assigned to a shape, a
/// pattern or a camera.
#[derive(Clone, Copy, Debug, PartialEq, Eq, Structural, Default)]
pub struct NoInverseError;

/// The identity transform is exactly its own cofactor inverse, and its
/// determinant is exactly one.
#[verifier::rlimit(100)]
pub proof fn identity_inverse_exact()
    ensures
        det4_spec(identity4_spec()).raw == SCALE,
        inverse4_spec(identity4_spec()) == identity4_spec(),
        transform_inverse_spec(identity_spec()) == identity_spec(),
{
    crate::fx::fx_unit_laws();
}

} // verus!
