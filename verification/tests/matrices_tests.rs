use ray_tracer::matrices::{Matrix2, Matrix3, Matrix4, Transform};
use ray_tracer::{Fx, Point, Vector};

fn fx(v: f64) -> Fx {
    Fx::from_raw((v * 4294967296.0).round() as i64)
}

fn pt(x: f64, y: f64, z: f64) -> Point {
    Point::new(fx(x), fx(y), fx(z))
}

fn v3(x: f64, y: f64, z: f64) -> Vector {
    Vector::new(fx(x), fx(y), fx(z))
}

fn mat2(e: [[f64; 2]; 2]) -> Matrix2 {
    Matrix2::new(fx(e[0][0]), fx(e[0][1]), fx(e[1][0]), fx(e[1][1]))
}

fn mat3(e: [[f64; 3]; 3]) -> Matrix3 {
    Matrix3::new(
        fx(e[0][0]),
        fx(e[0][1]),
        fx(e[0][2]),
        fx(e[1][0]),
        fx(e[1][1]),
        fx(e[1][2]),
        fx(e[2][0]),
        fx(e[2][1]),
        fx(e[2][2]),
    )
}

fn mat4(e: [[f64; 4]; 4]) -> Matrix4 {
    Matrix4::new(
        fx(e[0][0]),
        fx(e[0][1]),
        fx(e[0][2]),
        fx(e[0][3]),
        fx(e[1][0]),
        fx(e[1][1]),
        fx(e[1][2]),
        fx(e[1][3]),
        fx(e[2][0]),
        fx(e[2][1]),
        fx(e[2][2]),
        fx(e[2][3]),
        fx(e[3][0]),
        fx(e[3][1]),
        fx(e[3][2]),
        fx(e[3][3]),
    )
}

fn transform(e: [[f64; 4]; 4]) -> Transform {
    Transform::new(mat4(e)).expect("casting transform")
}

#[test]
fn construct_matrix() {
    let m = mat4([
        [1.0, 2.0, 3.0, 4.0],
        [5.5, 6.5, 7.5, 8.5],
        [9.0, 10.0, 11.0, 12.0],
        [13.5, 14.5, 15.5, 16.5],
    ]);
    assert_eq!(m.m00, fx(1.0));
    assert_eq!(m.m03, fx(4.0));
    assert_eq!(m.m10, fx(5.5));
    assert_eq!(m.m12, fx(7.5));
    assert_eq!(m.m22, fx(11.0));
    assert_eq!(m.m30, fx(13.5));
    assert_eq!(m.m32, fx(15.5));
}

#[test]
fn construct_2x2() {
    let m = mat2([[-3.0, 5.0], [1.0, -2.0]]);
    assert_eq!(m.m00, fx(-3.0));
    assert_eq!(m.m01, fx(5.0));
    assert_eq!(m.m10, fx(1.0));
    assert_eq!(m.m11, fx(-2.0));
}

#[test]
fn construct_3x3() {
    let m = mat3([[-3.0, 5.0, 0.0], [1.0, -2.0, -7.0], [0.0, 1.0, 1.0]]);
    assert_eq!(m.m00, fx(-3.0));
    assert_eq!(m.m11, fx(-2.0));
    assert_eq!(m.m22, fx(1.0));
}

#[test]
fn matrix_equality() {
    let a = mat4([
        [1.0, 2.0, 3.0, 4.0],
        [5.0, 6.0, 7.0, 8.0],
        [9.0, 8.0, 7.0, 6.0],
        [5.0, 4.0, 3.0, 2.0],
    ]);
    let b = mat4([
        [1.0, 2.0, 3.0, 4.0],
        [5.0, 6.0, 7.0, 8.0],
        [9.0, 8.0, 7.0, 6.0],
        [5.0, 4.0, 3.0, 2.0],
    ]);
    assert_eq!(a, b);
}

#[test]
fn matrix_inequality() {
    let a = mat4([
        [1.0, 2.0, 3.0, 4.0],
        [5.0, 6.0, 7.0, 8.0],
        [9.0, 8.0, 7.0, 6.0],
        [5.0, 4.0, 3.0, 2.0],
    ]);
    let b = mat4([
        [2.0, 3.0, 4.0, 5.0],
        [6.0, 7.0, 8.0, 9.0],
        [8.0, 7.0, 6.0, 5.0],
        [4.0, 3.0, 2.0, 1.0],
    ]);
    assert_ne!(a, b);
}

#[test]
fn matrix_multiplication() {
    let a = mat4([
        [1.0, 2.0, 3.0, 4.0],
        [5.0, 6.0, 7.0, 8.0],
        [9.0, 8.0, 7.0, 6.0],
        [5.0, 4.0, 3.0, 2.0],
    ]);
    let b = mat4([
        [-2.0, 1.0, 2.0, 3.0],
        [3.0, 2.0, 1.0, -1.0],
        [4.0, 3.0, 6.0, 5.0],
        [1.0, 2.0, 7.0, 8.0],
    ]);
    let product = mat4([
        [20.0, 22.0, 50.0, 48.0],
        [44.0, 54.0, 114.0, 108.0],
        [40.0, 58.0, 110.0, 102.0],
        [16.0, 26.0, 46.0, 42.0],
    ]);
    assert_eq!(a.mul(&b), product);
}

#[test]
fn matrix_multiply_point() {
    let a = transform([
        [1.0, 2.0, 3.0, 4.0],
        [2.0, 4.0, 4.0, 2.0],
        [8.0, 6.0, 4.0, 1.0],
        [0.0, 0.0, 0.0, 1.0],
    ]);
    let p = pt(1.0, 2.0, 3.0);
    assert_eq!(a.mul_point(p), pt(18.0, 24.0, 33.0));
}

#[test]
fn matrix_multiply_vertex() {
    let a = transform([
        [1.0, 2.0, 3.0, 4.0],
        [2.0, 4.0, 4.0, 2.0],
        [8.0, 6.0, 4.0, 1.0],
        [0.0, 0.0, 0.0, 1.0],
    ]);
    let v = v3(1.0, 2.0, 3.0);
    assert_eq!(a.mul_vector(v), v3(14.0, 22.0, 32.0));
}

#[test]
fn matrix_times_identity() {
    let a = mat4([
        [0.0, 1.0, 2.0, 4.0],
        [1.0, 2.0, 4.0, 8.0],
        [2.0, 4.0, 8.0, 16.0],
        [4.0, 8.0, 16.0, 32.0],
    ]);
    assert_eq!(a.mul(&Matrix4::identity()), a);
}

#[test]
fn identity_times_point() {
    let a = pt(1.0, 2.0, 3.0);
    assert_eq!(Transform::identity().mul_point(a), a);
}

#[test]
fn identity_times_vector() {
    let a = v3(1.0, 2.0, 3.0);
    assert_eq!(Transform::identity().mul_vector(a), a);
}

#[test]
fn transpose() {
    let a = mat4([
        [0.0, 9.0, 3.0, 0.0],
        [9.0, 8.0, 0.0, 8.0],
        [1.0, 8.0, 5.0, 3.0],
        [0.0, 0.0, 5.0, 8.0],
    ]);
    assert_eq!(
        a.transpose(),
        mat4([
            [0.0, 9.0, 1.0, 0.0],
            [9.0, 8.0, 8.0, 0.0],
            [3.0, 0.0, 5.0, 5.0],
            [0.0, 8.0, 3.0, 8.0],
        ])
    );
}

#[test]
fn transpose_identity() {
    assert_eq!(Matrix4::identity().transpose(), Matrix4::identity());
}

#[test]
fn determinant_of_2x2() {
    let a = mat2([[1.0, 5.0], [-3.0, 2.0]]);
    assert_eq!(a.determinant(), fx(17.0));
}

#[test]
fn submatrix_of_3x3() {
    let a = mat3([[1.0, 5.0, 0.0], [-3.0, 2.0, 7.0], [0.0, 6.0, -3.0]]);
    assert_eq!(a.submatrix(0, 2), Ok(mat2([[-3.0, 2.0], [0.0, 6.0]])));
}

#[test]
fn submatrix_of_4x4() {
    let a = mat4([
        [-6.0, 1.0, 1.0, 6.0],
        [-8.0, 5.0, 8.0, 6.0],
        [-1.0, 0.0, 8.0, 2.0],
        [-7.0, 1.0, -1.0, 1.0],
    ]);
    assert_eq!(
        a.submatrix(2, 1),
        Ok(mat3([
            [-6.0, 1.0, 6.0],
            [-8.0, 8.0, 6.0],
            [-7.0, -1.0, 1.0],
        ]))
    );
}

#[test]
fn minor_of_3x3() {
    let a = mat3([[3.0, 5.0, 0.0], [2.0, -1.0, -7.0], [6.0, -1.0, 5.0]]);
    let b = a.submatrix(1, 0).expect("matrix index error");
    assert_eq!(b.determinant(), fx(25.0));
    assert_eq!(a.minor(1, 0), Ok(fx(25.0)));
}

#[test]
fn cofactor_of_3x3() {
    let a = mat3([[3.0, 5.0, 0.0], [2.0, -1.0, -7.0], [6.0, -1.0, 5.0]]);
    assert_eq!(a.minor(0, 0), Ok(fx(-12.0)));
    assert_eq!(a.cofactor(0, 0), Ok(fx(-12.0)));
    assert_eq!(a.minor(1, 0), Ok(fx(25.0)));
    assert_eq!(a.cofactor(1, 0), Ok(fx(-25.0)));
}

#[test]
fn determinant_of_3x3() {
    let a = mat3([[1.0, 2.0, 6.0], [-5.0, 8.0, -4.0], [2.0, 6.0, 4.0]]);
    assert_eq!(a.cofactor(0, 0), Ok(fx(56.0)));
    assert_eq!(a.cofactor(0, 1), Ok(fx(12.0)));
    assert_eq!(a.cofactor(0, 2), Ok(fx(-46.0)));
    assert_eq!(a.determinant(), fx(-196.0));
}

#[test]
fn determinant_of_4x4() {
    let a = mat4([
        [-2.0, -8.0, 3.0, 5.0],
        [-3.0, 1.0, 7.0, 3.0],
        [1.0, 2.0, -9.0, 6.0],
        [-6.0, 7.0, 7.0, -9.0],
    ]);
    assert_eq!(a.cofactor(0, 0), Ok(fx(690.0)));
    assert_eq!(a.cofactor(0, 1), Ok(fx(447.0)));
    assert_eq!(a.cofactor(0, 2), Ok(fx(210.0)));
    assert_eq!(a.cofactor(0, 3), Ok(fx(51.0)));
    assert_eq!(a.determinant(), fx(-4071.0));
}

#[test]
fn invertible() {
    let a = mat4([
        [6.0, 4.0, 4.0, 4.0],
        [5.0, 5.0, 7.0, 6.0],
        [4.0, -9.0, 3.0, -7.0],
        [9.0, 1.0, 7.0, -6.0],
    ]);
    assert_eq!(a.determinant(), fx(-2120.0));
    assert!(a.invertible());
}

#[test]
fn not_invertible() {
    let a = mat4([
        [-4.0, 2.0, -2.0, -3.0],
        [9.0, 6.0, 2.0, 6.0],
        [0.0, -5.0, 1.0, -5.0],
        [0.0, 0.0, 0.0, 0.0],
    ]);
    assert_eq!(a.determinant(), fx(0.0));
    assert!(!a.invertible());
}

#[test]
fn inverse() {
    let a = mat4([
        [-5.0, 2.0, 6.0, -8.0],
        [1.0, -5.0, 1.0, 8.0],
        [7.0, 7.0, -6.0, -7.0],
        [1.0, -3.0, 7.0, 4.0],
    ]);
    let b = a.inverse().expect("no inverse");
    assert_eq!(a.determinant(), fx(532.0));
    assert_eq!(a.cofactor(2, 3), Ok(fx(-160.0)));
    assert_eq!(b.m32, fx(-160.0 / 532.0));
    assert_eq!(a.cofactor(3, 2), Ok(fx(105.0)));
    assert_eq!(b.m23, fx(105.0 / 532.0));
    assert_eq!(
        b,
        mat4([
            [0.21805, 0.45113, 0.24060, -0.04511],
            [-0.80827, -1.45677, -0.44361, 0.52068],
            [-0.07895, -0.22368, -0.05263, 0.19737],
            [-0.52256, -0.81391, -0.30075, 0.30639],
        ])
    );
}

#[test]
fn inverse2() {
    let a = mat4([
        [8.0, -5.0, 9.0, 2.0],
        [7.0, 5.0, 6.0, 1.0],
        [-6.0, 0.0, 9.0, 6.0],
        [-3.0, 0.0, -9.0, -4.0],
    ]);
    assert_eq!(
        a.inverse(),
        Some(mat4([
            [-0.15385, -0.15385, -0.28205, -0.53846],
            [-0.07692, 0.12308, 0.02564, 0.03077],
            [0.35897, 0.35897, 0.43590, 0.92308],
            [-0.69231, -0.69231, -0.76923, -1.92308],
        ]))
    );
}

#[test]
fn inverse3() {
    let a = mat4([
        [9.0, 3.0, 0.0, 9.0],
        [-5.0, -2.0, -6.0, -3.0],
        [-4.0, 9.0, 6.0, 4.0],
        [-7.0, 6.0, 6.0, 2.0],
    ]);
    assert_eq!(
        a.inverse(),
        Some(mat4([
            [-0.04074, -0.07778, 0.14444, -0.22222],
            [-0.07778, 0.03333, 0.36667, -0.33333],
            [-0.02901, -0.14630, -0.10926, 0.12963],
            [0.17778, 0.06667, -0.26667, 0.33333],
        ]))
    );
}

#[test]
fn inverse_is_inverse() {
    let a = mat4([
        [3.0, -9.0, 7.0, 3.0],
        [3.0, -8.0, 2.0, -9.0],
        [-4.0, 4.0, 4.0, 1.0],
        [-6.0, 5.0, -1.0, 1.0],
    ]);
    let b = mat4([
        [8.0, 2.0, 2.0, 2.0],
        [3.0, -1.0, 7.0, 0.0],
        [7.0, 0.0, 5.0, 4.0],
        [6.0, -2.0, 0.0, 5.0],
    ]);
    let c = a.mul(&b);
    assert_eq!(c.mul(&b.inverse().expect("not invertable")), a);
}

#[test]
fn fail_to_invert() {
    let a = mat4([
        [-4.0, 2.0, -2.0, -3.0],
        [9.0, 6.0, 2.0, 6.0],
        [0.0, -5.0, 1.0, -5.0],
        [0.0, 0.0, 0.0, 0.0],
    ]);
    assert_eq!(a.inverse(), None);
}
