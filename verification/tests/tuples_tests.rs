use ray_tracer::{Fx, Point, Vector};

fn fx(v: f64) -> Fx {
    Fx::from_raw((v * 4294967296.0).round() as i64)
}

fn pt(x: f64, y: f64, z: f64) -> Point {
    Point::new(fx(x), fx(y), fx(z))
}

fn v3(x: f64, y: f64, z: f64) -> Vector {
    Vector::new(fx(x), fx(y), fx(z))
}

#[test]
fn create_points() {
    let p = pt(4.0, -4.0, 3.0);
    assert_eq!(p.x(), fx(4.0));
    assert_eq!(p.y(), fx(-4.0));
    assert_eq!(p.z(), fx(3.0));
}

#[test]
fn create_vectors() {
    let v = v3(4.0, -4.0, 3.0);
    assert_eq!(v.x(), fx(4.0));
    assert_eq!(v.y(), fx(-4.0));
    assert_eq!(v.z(), fx(3.0));
}

#[test]
fn add_vector_to_point() {
    let p = pt(3.0, -2.0, 5.0);
    let v = v3(-2.0, 3.0, 1.0);
    assert_eq!(p.add(v), pt(1.0, 1.0, 6.0));
    assert_eq!(v.add_point(p), pt(1.0, 1.0, 6.0));
}

#[test]
fn add_vectors() {
    let v1 = v3(3.0, -2.0, 5.0);
    let v2 = v3(-2.0, 3.0, 1.0);
    assert_eq!(v1.add(v2), v3(1.0, 1.0, 6.0));
}

#[test]
fn subtract_points() {
    let p1 = pt(3.0, 2.0, 1.0);
    let p2 = pt(5.0, 6.0, 7.0);
    assert_eq!(p1.sub(p2), v3(-2.0, -4.0, -6.0));
}

#[test]
fn subtract_vector_from_point() {
    let p = pt(3.0, 2.0, 1.0);
    let v = v3(5.0, 6.0, 7.0);
    assert_eq!(p.sub_vector(v), pt(-2.0, -4.0, -6.0));
}

#[test]
fn subtract_vectors() {
    let v1 = v3(3.0, 2.0, 1.0);
    let v2 = v3(5.0, 6.0, 7.0);
    assert_eq!(v1.sub(v2), v3(-2.0, -4.0, -6.0));
}

#[test]
fn subtract_vector_from_zero() {
    let zero = v3(0.0, 0.0, 0.0);
    let v = v3(1.0, -2.0, 3.0);
    assert_eq!(zero.sub(v), v3(-1.0, 2.0, -3.0));
}

#[test]
fn negate_vector() {
    let v = v3(1.0, -2.0, 3.0);
    assert_eq!(v.neg(), v3(-1.0, 2.0, -3.0));
}

#[test]
fn mult_vector_by_scalar() {
    let v = v3(1.0, -2.0, 3.0);
    assert_eq!(v.scale(fx(3.5)), v3(3.5, -7.0, 10.5));
}

#[test]
fn div_vector_by_scalar() {
    let v = v3(1.0, -2.0, 3.0);
    assert_eq!(v.div(fx(2.0)), v3(0.5, -1.0, 1.5));
}

#[test]
fn magnitude_x_unit() {
    let v = v3(1.0, 0.0, 0.0);
    assert_eq!(v.magnitude(), fx(1.0));
}

#[test]
fn magnitude_y_unit() {
    let v = v3(0.0, 1.0, 0.0);
    assert_eq!(v.magnitude(), fx(1.0));
}

#[test]
fn magnitude_z_unit() {
    let v = v3(0.0, 1.0, 0.0);
    assert_eq!(v.magnitude(), fx(1.0));
}

#[test]
fn magnitude_positive() {
    let v = v3(1.0, 2.0, 3.0);
    assert_eq!(v.magnitude(), fx(14.0_f64.sqrt()));
}

#[test]
fn magnitude_negative() {
    let v = v3(-1.0, -2.0, -3.0);
    assert_eq!(v.magnitude(), fx(14.0_f64.sqrt()));
}

#[test]
fn normalize_horizontal_vector() {
    let v = v3(4.0, 0.0, 0.0);
    assert_eq!(v.normalize(), v3(1.0, 0.0, 0.0));
}

#[test]
fn normalize_vector() {
    let v = v3(1.0, 2.0, 3.0);
    assert_eq!(
        v.normalize(),
        v3(
            1.0 / 14.0_f64.sqrt(),
            2.0 / 14.0_f64.sqrt(),
            3.0 / 14.0_f64.sqrt()
        )
    );
}

#[test]
fn magnitude_of_normalized() {
    let v = v3(1.0, 2.0, 3.0);
    let norm = v.normalize();
    assert_eq!(norm.magnitude(), fx(1.0));
}

#[test]
fn dot() {
    let a = v3(1.0, 2.0, 3.0);
    let b = v3(2.0, 3.0, 4.0);
    assert_eq!(Vector::dot(a, b), fx(20.0));
}

#[test]
fn cross() {
    let a = v3(1.0, 2.0, 3.0);
    let b = v3(2.0, 3.0, 4.0);
    assert_eq!(Vector::cross(a, b), v3(-1.0, 2.0, -1.0));
    assert_eq!(Vector::cross(b, a), v3(1.0, -2.0, 1.0));
}
