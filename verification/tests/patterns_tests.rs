use ray_tracer::canvas::Color;
use ray_tracer::matrices::Transform;
use ray_tracer::patterns::{Checkers, Gradient, Pattern, PatternKind, Rings, Stripes, TestPattern};
use ray_tracer::shapes::{Model, Shape, Sphere};
use ray_tracer::transformations::{scaling, translation};
use ray_tracer::{Fx, Point};

fn fx(v: f64) -> Fx {
    Fx::from_raw((v * 4294967296.0).round() as i64)
}

fn pt(x: f64, y: f64, z: f64) -> Point {
    Point::new(fx(x), fx(y), fx(z))
}

fn col(r: f64, g: f64, b: f64) -> Color {
    Color::new(fx(r), fx(g), fx(b))
}

fn white() -> Color {
    col(1.0, 1.0, 1.0)
}

fn black() -> Color {
    col(0.0, 0.0, 0.0)
}

fn sphere() -> Shape {
    Shape::new(Model::Sphere(Sphere))
}

#[test]
fn create_stripe_pattern() {
    let model = Stripes::new(white(), black());
    assert_eq!(model.a, white());
    assert_eq!(model.b, black());
}

#[test]
fn stripe_pattern_constant_in_y() {
    let model = Stripes::new(white(), black());
    assert_eq!(model.at(pt(0.0, 0.0, 0.0)), white());
    assert_eq!(model.at(pt(0.0, 1.0, 0.0)), white());
    assert_eq!(model.at(pt(0.0, 2.0, 0.0)), white());
}

#[test]
fn stripe_pattern_constant_in_z() {
    let model = Stripes::new(white(), black());
    assert_eq!(model.at(pt(0.0, 0.0, 0.0)), white());
    assert_eq!(model.at(pt(0.0, 0.0, 1.0)), white());
    assert_eq!(model.at(pt(0.0, 0.0, 2.0)), white());
}

#[test]
fn stripe_pattern_alternates_in_x() {
    let model = Stripes::new(white(), black());
    assert_eq!(model.at(pt(0.0, 0.0, 0.0)), white());
    assert_eq!(model.at(pt(0.9, 0.0, 0.0)), white());
    assert_eq!(model.at(pt(1.0, 0.0, 0.0)), black());
    assert_eq!(model.at(pt(-0.1, 0.0, 0.0)), black());
    assert_eq!(model.at(pt(-1.0, 0.0, 0.0)), black());
    assert_eq!(model.at(pt(-1.1, 0.0, 0.0)), white());
}

#[test]
fn gradient_linearly_interpolates() {
    let gradient = Gradient::new(white(), black());
    assert_eq!(gradient.at(pt(0.0, 0.0, 0.0)), white());
    assert_eq!(gradient.at(pt(0.25, 0.0, 0.0)), col(0.75, 0.75, 0.75));
    assert_eq!(gradient.at(pt(0.5, 0.0, 0.0)), col(0.5, 0.5, 0.5));
    assert_eq!(gradient.at(pt(0.75, 0.0, 0.0)), col(0.25, 0.25, 0.25));
}

#[test]
fn ring_extends_in_x_and_z() {
    let rings = Rings::new(white(), black());
    assert_eq!(rings.at(pt(0.0, 0.0, 0.0)), white());
    assert_eq!(rings.at(pt(1.0, 0.0, 0.0)), black());
    assert_eq!(rings.at(pt(0.0, 0.0, 1.0)), black());
    // 0.708 is just slightly more than sqrt(2) / 2
    assert_eq!(rings.at(pt(0.708, 0.0, 0.708)), black());
}

#[test]
fn checkers_repeat_in_x() {
    let checkers = Checkers::new(white(), black());
    assert_eq!(checkers.at(pt(0.0, 0.0, 0.0)), white());
    assert_eq!(checkers.at(pt(0.99, 0.0, 0.0)), white());
    assert_eq!(checkers.at(pt(1.01, 0.0, 0.0)), black());
}

#[test]
fn checkers_repeat_in_y() {
    let checkers = Checkers::new(white(), black());
    assert_eq!(checkers.at(pt(0.0, 0.0, 0.0)), white());
    assert_eq!(checkers.at(pt(0.0, 0.99, 0.0)), white());
    assert_eq!(checkers.at(pt(0.0, 1.01, 0.0)), black());
}

#[test]
fn checkers_repeat_in_z() {
    let checkers = Checkers::new(white(), black());
    assert_eq!(checkers.at(pt(0.0, 0.0, 0.0)), white());
    assert_eq!(checkers.at(pt(0.0, 0.0, 0.99)), white());
    assert_eq!(checkers.at(pt(0.0, 0.0, 1.01)), black());
}

#[test]
fn default_pattern() {
    let pattern = Pattern::new(PatternKind::Test(TestPattern));
    assert_eq!(pattern.transform, Transform::identity());
}

#[test]
fn assign_transform() {
    let mut pattern = Pattern::new(PatternKind::Test(TestPattern));
    pattern
        .set_transform(translation(fx(1.0), fx(2.0), fx(3.0)))
        .unwrap();
    assert_eq!(pattern.transform, translation(fx(1.0), fx(2.0), fx(3.0)));
}

#[test]
fn pattern_with_object_transformation() {
    let mut shape = sphere();
    shape
        .set_transform(scaling(fx(2.0), fx(2.0), fx(2.0)))
        .unwrap();
    let pattern = Pattern::new(PatternKind::Test(TestPattern));
    let c = pattern.at_shape(&shape, pt(2.0, 3.0, 4.0));
    assert_eq!(c, col(1.0, 1.5, 2.0));
}

#[test]
fn pattern_with_pattern_transformation() {
    let shape = sphere();
    let mut pattern = Pattern::new(PatternKind::Test(TestPattern));
    pattern
        .set_transform(scaling(fx(2.0), fx(2.0), fx(2.0)))
        .unwrap();
    let c = pattern.at_shape(&shape, pt(2.0, 3.0, 4.0));
    assert_eq!(c, col(1.0, 1.5, 2.0));
}

#[test]
fn pattern_with_object_and_pattern_transformation() {
    let mut shape = sphere();
    shape
        .set_transform(scaling(fx(2.0), fx(2.0), fx(2.0)))
        .unwrap();
    let mut pattern = Pattern::new(PatternKind::Test(TestPattern));
    pattern
        .set_transform(translation(fx(0.5), fx(1.0), fx(1.5)))
        .unwrap();
    let c = pattern.at_shape(&shape, pt(2.5, 3.0, 3.5));
    assert_eq!(c, col(0.75, 0.5, 0.25));
}

#[test]
fn stripes_create_stripe_pattern() {
    let model = Stripes::new(white(), black());
    assert_eq!(model.a, white());
    assert_eq!(model.b, black());
}

#[test]
fn stripes_stripe_pattern_constant_in_y() {
    let model = Stripes::new(white(), black());
    assert_eq!(model.at(pt(0.0, 0.0, 0.0)), white());
    assert_eq!(model.at(pt(0.0, 1.0, 0.0)), white());
    assert_eq!(model.at(pt(0.0, 2.0, 0.0)), white());
}

#[test]
fn stripes_stripe_pattern_constant_in_z() {
    let model = Stripes::new(white(), black());
    assert_eq!(model.at(pt(0.0, 0.0, 0.0)), white());
    assert_eq!(model.at(pt(0.0, 0.0, 1.0)), white());
    assert_eq!(model.at(pt(0.0, 0.0, 2.0)), white());
}

#[test]
fn stripes_stripe_pattern_alternates_in_x() {
    let model = Stripes::new(white(), black());
    assert_eq!(model.at(pt(0.0, 0.0, 0.0)), white());
    assert_eq!(model.at(pt(0.9, 0.0, 0.0)), white());
    assert_eq!(model.at(pt(1.0, 0.0, 0.0)), black());
    assert_eq!(model.at(pt(-0.1, 0.0, 0.0)), black());
    assert_eq!(model.at(pt(-1.0, 0.0, 0.0)), black());
    assert_eq!(model.at(pt(-1.1, 0.0, 0.0)), white());
}

#[test]
fn patterns_create_stripe_pattern() {
    let model = Stripes::new(white(), black());
    assert_eq!(model.a, white());
    assert_eq!(model.b, black());
}

#[test]
fn patterns_stripe_pattern_constant_in_y() {
    let model = Stripes::new(white(), black());
    assert_eq!(model.at(pt(0.0, 0.0, 0.0)), white());
    assert_eq!(model.at(pt(0.0, 1.0, 0.0)), white());
    assert_eq!(model.at(pt(0.0, 2.0, 0.0)), white());
}

#[test]
fn patterns_stripe_pattern_constant_in_z() {
    let model = Stripes::new(white(), black());
    assert_eq!(model.at(pt(0.0, 0.0, 0.0)), white());
    assert_eq!(model.at(pt(0.0, 0.0, 1.0)), white());
    assert_eq!(model.at(pt(0.0, 0.0, 2.0)), white());
}

#[test]
fn patterns_stripe_pattern_alternates_in_x() {
    let model = Stripes::new(white(), black());
    assert_eq!(model.at(pt(0.0, 0.0, 0.0)), white());
    assert_eq!(model.at(pt(0.9, 0.0, 0.0)), white());
    assert_eq!(model.at(pt(1.0, 0.0, 0.0)), black());
    assert_eq!(model.at(pt(-0.1, 0.0, 0.0)), black());
    assert_eq!(model.at(pt(-1.0, 0.0, 0.0)), black());
    assert_eq!(model.at(pt(-1.1, 0.0, 0.0)), white());
}

#[test]
fn stripe_pattern_create_stripe_pattern() {
    let model = Stripes::new(white(), black());
    assert_eq!(model.a, white());
    assert_eq!(model.b, black());
}

#[test]
fn stripe_pattern_stripe_pattern_constant_in_y() {
    let model = Stripes::new(white(), black());
    assert_eq!(model.at(pt(0.0, 0.0, 0.0)), white());
    assert_eq!(model.at(pt(0.0, 1.0, 0.0)), white());
    assert_eq!(model.at(pt(0.0, 2.0, 0.0)), white());
}

#[test]
fn stripe_pattern_stripe_pattern_constant_in_z() {
    let model = Stripes::new(white(), black());
    assert_eq!(model.at(pt(0.0, 0.0, 0.0)), white());
    assert_eq!(model.at(pt(0.0, 0.0, 1.0)), white());
    assert_eq!(model.at(pt(0.0, 0.0, 2.0)), white());
}

#[test]
fn stripe_pattern_stripe_pattern_alternates_in_x() {
    let model = Stripes::new(white(), black());
    assert_eq!(model.at(pt(0.0, 0.0, 0.0)), white());
    assert_eq!(model.at(pt(0.9, 0.0, 0.0)), white());
    assert_eq!(model.at(pt(1.0, 0.0, 0.0)), black());
    assert_eq!(model.at(pt(-0.1, 0.0, 0.0)), black());
    assert_eq!(model.at(pt(-1.0, 0.0, 0.0)), black());
    assert_eq!(model.at(pt(-1.1, 0.0, 0.0)), white());
}
