use ray_tracer::camera::{Camera, NoInverseError};
use ray_tracer::canvas::PixelOutOfBoundsError;
use ray_tracer::intersections::{Intersection, Intersections};
use ray_tracer::matrices::{CastingTransformError, Matrix2, Matrix4, MatrixIndexError, Transform};
use ray_tracer::patterns::{NoInverseTransformError, Pattern, PatternKind, TestPattern};
use ray_tracer::shapes::{Model, Shape, Sphere};
use ray_tracer::transformations::translation;
use ray_tracer::{Fx, Point, Vector};

const PI: f64 = std::f64::consts::PI;

fn fx(v: f64) -> Fx {
    Fx::from_raw((v * 4294967296.0).round() as i64)
}

fn pt(x: f64, y: f64, z: f64) -> Point {
    Point::new(fx(x), fx(y), fx(z))
}

fn v3(x: f64, y: f64, z: f64) -> Vector {
    Vector::new(fx(x), fx(y), fx(z))
}

fn mat4(e: [[f64; 4]; 4]) -> Matrix4 {
    Matrix4::new(
        fx(e[0][0]),
        fx(e[0][1]),
        fx(e[0][2]),
        fx(e[0][3]),
        fx(e[1][0]),
        fx(e[1][1]),
        fx(e[1][2]),
        fx(e[1][3]),
        fx(e[2][0]),
        fx(e[2][1]),
        fx(e[2][2]),
        fx(e[2][3]),
        fx(e[3][0]),
        fx(e[3][1]),
        fx(e[3][2]),
        fx(e[3][3]),
    )
}

fn singular() -> Transform {
    // A zero scaling collapses all of space and has no inverse.
    ray_tracer::transformations::scaling(fx(0.0), fx(0.0), fx(0.0))
}

#[test]
fn transform_rejects_bad_bottom_row() {
    let m = mat4([
        [1.0, 0.0, 0.0, 0.0],
        [0.0, 1.0, 0.0, 0.0],
        [0.0, 0.0, 1.0, 0.0],
        [0.0, 0.0, 0.5, 1.0],
    ]);
    assert_eq!(Transform::new(m), Err(CastingTransformError));
}

#[test]
fn transform_accepts_affine_matrix() {
    let m = mat4([
        [1.0, 2.0, 3.0, 4.0],
        [2.0, 4.0, 4.0, 2.0],
        [8.0, 6.0, 4.0, 1.0],
        [0.0, 0.0, 0.0, 1.0],
    ]);
    assert!(Transform::new(m).is_ok());
}

#[test]
fn submatrix_rejects_out_of_range_index() {
    let m = Matrix2::new(fx(1.0), fx(2.0), fx(3.0), fx(4.0));
    assert!(matches!(m.submatrix(2, 0), Err(MatrixIndexError)));
    assert_eq!(m.minor(0, 2), Err(MatrixIndexError));
    assert_eq!(m.cofactor(2, 2), Err(MatrixIndexError));
    let m4 = Matrix4::identity();
    assert_eq!(m4.submatrix(4, 0), Err(MatrixIndexError));
    assert_eq!(m4.cofactor(0, 4), Err(MatrixIndexError));
}

#[test]
fn shape_rejects_singular_transform() {
    let mut s = Shape::new(Model::Sphere(Sphere));
    assert_eq!(s.set_transform(singular()), Err(NoInverseError));
    assert_eq!(s.transform, Transform::identity());
}

#[test]
fn camera_rejects_singular_transform() {
    let mut c = Camera::new(10, 10, fx(PI / 2.0));
    assert_eq!(c.set_transform(singular()), Err(NoInverseError));
    assert_eq!(c.transform, Transform::identity());
}

#[test]
fn pattern_rejects_singular_transform() {
    let mut p = Pattern::new(PatternKind::Test(TestPattern));
    assert_eq!(p.set_transform(singular()), Err(NoInverseTransformError));
    assert_eq!(p.transform, Transform::identity());
}

#[test]
fn ray_for_pixel_rejects_out_of_bounds() {
    let c = Camera::new(10, 10, fx(PI / 2.0));
    assert_eq!(c.ray_for_pixel(10, 0), Err(PixelOutOfBoundsError));
    assert_eq!(c.ray_for_pixel(0, 10), Err(PixelOutOfBoundsError));
    assert!(c.ray_for_pixel(9, 9).is_ok());
}

#[test]
fn translation_round_trip_returns_the_point() {
    let t = translation(fx(5.0), fx(-3.25), fx(2.5));
    let inverse = t.inverse().expect("translations are invertible");
    let p = pt(1.5, -7.0, 3.125);
    let there = t.mul_point(p);
    let back = inverse.mul_point(there);
    assert_eq!(back.x.raw, p.x.raw);
    assert_eq!(back.y.raw, p.y.raw);
    assert_eq!(back.z.raw, p.z.raw);
}

#[test]
fn normalize_zero_vector_is_zero() {
    let v = v3(0.0, 0.0, 0.0);
    let n = v.normalize();
    assert_eq!(n, v3(0.0, 0.0, 0.0));
    assert_eq!(n.x.raw, 0);
}

#[test]
fn normalized_magnitude_is_one() {
    let cases = [
        v3(1.0, 2.0, 3.0),
        v3(-4.5, 0.25, 12.0),
        v3(1000.0, -2000.0, 0.5),
        v3(0.0, 0.0, 1.0),
    ];
    for v in cases {
        assert_eq!(v.normalize().magnitude(), fx(1.0));
    }
}

#[test]
fn sort_is_stable_for_equal_t() {
    let xs = Intersections::new(vec![
        Intersection::new(fx(1.0), 0),
        Intersection::new(fx(1.0), 1),
        Intersection::new(fx(0.5), 2),
    ]);
    assert_eq!(xs.vec[0].object, 2);
    assert_eq!(xs.vec[1].object, 0);
    assert_eq!(xs.vec[2].object, 1);
}

#[test]
fn hit_of_empty_list_is_none() {
    let xs = Intersections::new(vec![]);
    assert_eq!(xs.hit(), None);
}
