use ray_tracer::canvas::Color;
use ray_tracer::intersections::{HitInfo, Intersection, Intersections};
use ray_tracer::lights::PointLight;
use ray_tracer::patterns::{Pattern, PatternKind, TestPattern};
use ray_tracer::rays::Ray;
use ray_tracer::shapes::{Model, Plane, Shape, Sphere};
use ray_tracer::transformations::{translation, Builder};
use ray_tracer::world::{World, RECURSION_DEPTH};
use ray_tracer::{Fx, Point, Vector};

fn fx(v: f64) -> Fx {
    Fx::from_raw((v * 4294967296.0).round() as i64)
}

fn to_f64(a: Fx) -> f64 {
    a.raw as f64 / 4294967296.0
}

fn pt(x: f64, y: f64, z: f64) -> Point {
    Point::new(fx(x), fx(y), fx(z))
}

fn v3(x: f64, y: f64, z: f64) -> Vector {
    Vector::new(fx(x), fx(y), fx(z))
}

fn col(r: f64, g: f64, b: f64) -> Color {
    Color::new(fx(r), fx(g), fx(b))
}

fn default_world() -> World {
    let light = PointLight::new(pt(-10.0, 10.0, -10.0), col(1.0, 1.0, 1.0));
    let mut s1 = Shape::new(Model::Sphere(Sphere));
    s1.material.color = col(0.8, 1.0, 0.6);
    s1.material.diffuse = fx(0.7);
    s1.material.specular = fx(0.2);
    let mut s2 = Shape::new(Model::Sphere(Sphere));
    s2.set_transform(
        Builder::new()
            .scaling(fx(0.5), fx(0.5), fx(0.5))
            .transform(),
    )
    .unwrap();
    World {
        objects: vec![s1, s2],
        light,
    }
}

#[test]
fn create_world() {
    let w = World::new();
    assert!(w.objects.is_empty());
    assert_eq!(w.light, PointLight::new(pt(0.0, 0.0, 0.0), col(0.0, 0.0, 0.0)));
}

#[test]
fn test_default_world() {
    let light = PointLight::new(pt(-10.0, 10.0, -10.0), col(1.0, 1.0, 1.0));
    let mut s1 = Shape::new(Model::Sphere(Sphere));
    s1.material.color = col(0.8, 1.0, 0.6);
    s1.material.diffuse = fx(0.7);
    s1.material.specular = fx(0.2);
    let mut s2 = Shape::new(Model::Sphere(Sphere));
    s2.set_transform(
        Builder::new()
            .scaling(fx(0.5), fx(0.5), fx(0.5))
            .transform(),
    )
    .unwrap();

    let w = default_world();
    assert_eq!(w.light, light);
    assert!(w.objects.contains(&s1));
    assert!(w.objects.contains(&s2));
}

#[test]
fn intersect_world() {
    let w = default_world();
    let r = Ray::new(pt(0.0, 0.0, -5.0), v3(0.0, 0.0, 1.0));
    let xs = w.intersect(&r);
    assert_eq!(xs.len(), 4);
    assert_eq!(xs.vec[0].t, fx(4.0));
    assert_eq!(xs.vec[1].t, fx(4.5));
    assert_eq!(xs.vec[2].t, fx(5.5));
    assert_eq!(xs.vec[3].t, fx(6.0));
}

#[test]
fn shading_intersection() {
    let w = default_world();
    let r = Ray::new(pt(0.0, 0.0, -5.0), v3(0.0, 0.0, 1.0));
    let i = Intersection::new(fx(4.0), 0);
    let xs = Intersections::new(vec![i.clone()]);
    let hit_info = HitInfo::prepare(&w.objects, &xs, &r, 0).unwrap();
    let c = w.shade_hit(&hit_info, RECURSION_DEPTH);
    assert_eq!(c, col(0.38066, 0.47583, 0.2855));
}

#[test]
fn shading_intersection_from_inside() {
    let mut w = default_world();
    w.light = PointLight::new(pt(0.0, 0.25, 0.0), col(1.0, 1.0, 1.0));
    let r = Ray::new(pt(0.0, 0.0, 0.0), v3(0.0, 0.0, 1.0));
    let i = Intersection::new(fx(0.5), 1);
    let xs = Intersections::new(vec![i.clone()]);
    let hit_info = HitInfo::prepare(&w.objects, &xs, &r, 0).unwrap();
    let c = w.shade_hit(&hit_info, RECURSION_DEPTH);
    assert_eq!(c, col(0.90498, 0.90498, 0.90498));
}

#[test]
fn color_from_miss() {
    let w = default_world();
    let r = Ray::new(pt(0.0, 0.0, -5.0), v3(0.0, 1.0, 0.0));
    let c = w.color_from(&r, RECURSION_DEPTH);
    assert_eq!(c, col(0.0, 0.0, 0.0));
}

#[test]
fn color_from_hit() {
    let w = default_world();
    let r = Ray::new(pt(0.0, 0.0, -5.0), v3(0.0, 0.0, 1.0));
    let c = w.color_from(&r, RECURSION_DEPTH);
    assert_eq!(c, col(0.38066, 0.47583, 0.2855));
}

#[test]
fn color_with_intersection_behind_ray() {
    let mut w = default_world();
    w.objects[0].material.ambient = fx(1.0);
    w.objects[1].material.ambient = fx(1.0);
    let inner_color = w.objects[1].material.color;
    let r = Ray::new(pt(0.0, 0.0, 0.75), v3(0.0, 0.0, -1.0));
    let c = w.color_from(&r, RECURSION_DEPTH);
    assert_eq!(c, inner_color);
}

#[test]
fn no_object_on_line_shadow() {
    let w = default_world();
    let p = pt(0.0, 10.0, 0.0);
    assert!(!w.is_shadowed(p));
}

#[test]
fn object_between_shadow() {
    let w = default_world();
    let p = pt(10.0, -10.0, 10.0);
    assert!(w.is_shadowed(p));
}

#[test]
fn object_behind_light_shadow() {
    let w = default_world();
    let p = pt(-20.0, 20.0, -20.0);
    assert!(!w.is_shadowed(p));
}

#[test]
fn object_other_side_shadow() {
    let w = default_world();
    let p = pt(-2.0, 2.0, -2.0);
    assert!(!w.is_shadowed(p));
}

#[test]
fn shade_hit_given_shadowed() {
    let mut w = World::new();
    w.light = PointLight::new(pt(0.0, 0.0, -10.0), col(1.0, 1.0, 1.0));
    let s1 = Shape::new(Model::Sphere(Sphere));
    w.objects.push(s1);
    let mut s2 = Shape::new(Model::Sphere(Sphere));
    s2.set_transform(translation(fx(0.0), fx(0.0), fx(10.0)))
        .unwrap();
    w.objects.push(s2);
    let r = Ray::new(pt(0.0, 0.0, 5.0), v3(0.0, 0.0, 1.0));
    let i = Intersection::new(fx(4.0), 1);
    let xs = Intersections::new(vec![i.clone()]);
    let hit_info = HitInfo::prepare(&w.objects, &xs, &r, 0).unwrap();
    let c = w.shade_hit(&hit_info, RECURSION_DEPTH);
    assert_eq!(c, col(0.1, 0.1, 0.1));
}

#[test]
fn reflected_color_nonreflective_material() {
    let mut w = default_world();
    let r = Ray::new(pt(0.0, 0.0, 0.0), v3(0.0, 0.0, 1.0));
    w.objects[1].material.ambient = fx(1.0);
    let i = Intersection::new(fx(1.0), 1);
    let xs = Intersections::new(vec![i.clone()]);
    let hit_info = HitInfo::prepare(&w.objects, &xs, &r, 0).unwrap();
    let color = w.reflected_color(&hit_info, RECURSION_DEPTH);
    assert_eq!(color, col(0.0, 0.0, 0.0));
}

#[test]
fn mutually_reflective_surfaces() {
    let mut w = World::new();
    w.light = PointLight::new(pt(0.0, 0.0, 0.0), col(1.0, 1.0, 1.0));
    let mut lower = Shape::new(Model::Plane(Plane));
    lower.material.reflective = fx(1.0);
    lower
        .set_transform(translation(fx(0.0), fx(-1.0), fx(0.0)))
        .unwrap();
    w.objects.push(lower);
    let mut upper = Shape::new(Model::Plane(Plane));
    upper.material.reflective = fx(1.0);
    upper
        .set_transform(translation(fx(0.0), fx(1.0), fx(0.0)))
        .unwrap();
    w.objects.push(upper);
    let r = Ray::new(pt(0.0, 0.0, 0.0), v3(0.0, 1.0, 0.0));
    w.color_from(&r, RECURSION_DEPTH);
}

#[test]
fn reflected_color_at_max_recursive_depth() {
    let mut w = default_world();
    let mut shape = Shape::new(Model::Plane(Plane));
    shape.material.reflective = fx(0.5);
    shape
        .set_transform(translation(fx(0.0), fx(-1.0), fx(0.0)))
        .unwrap();
    w.objects.push(shape);
    let r = Ray::new(
        pt(0.0, 0.0, -3.0),
        v3(0.0, -(2.0_f64.sqrt()) / 2.0, 2.0_f64.sqrt() / 2.0),
    );
    let i = Intersection::new(fx(2.0_f64.sqrt()), 2);
    let xs = Intersections::new(vec![i.clone()]);
    let hit_info = HitInfo::prepare(&w.objects, &xs, &r, 0).unwrap();
    let color = w.reflected_color(&hit_info, 0);
    assert_eq!(color, col(0.0, 0.0, 0.0));
}

#[test]
fn refracted_color_opaque_material() {
    let w = default_world();
    let r = Ray::new(pt(0.0, 0.0, -5.0), v3(0.0, 0.0, 1.0));
    let xs = Intersections::new(vec![
        Intersection::new(fx(4.0), 0),
        Intersection::new(fx(6.0), 0),
    ]);
    let hit_info = HitInfo::prepare(&w.objects, &xs, &r, 0).unwrap();
    let color = w.refracted_color(&hit_info, RECURSION_DEPTH);
    assert_eq!(color, col(0.0, 0.0, 0.0));
}

#[test]
fn refracted_color_at_max_recursive_depth() {
    let mut w = default_world();
    w.objects[0].material.transparency = fx(1.0);
    w.objects[0].material.refractive_index = fx(1.5);
    let r = Ray::new(pt(0.0, 0.0, -5.0), v3(0.0, 0.0, 1.0));
    let xs = Intersections::new(vec![
        Intersection::new(fx(4.0), 0),
        Intersection::new(fx(6.0), 0),
    ]);
    let hit_info = HitInfo::prepare(&w.objects, &xs, &r, 0).unwrap();
    let color = w.refracted_color(&hit_info, 0);
    assert_eq!(color, col(0.0, 0.0, 0.0));
}

#[test]
fn refracted_color_total_internal_reflection() {
    let mut w = default_world();
    w.objects[0].material.transparency = fx(1.0);
    w.objects[0].material.refractive_index = fx(1.5);
    let r = Ray::new(pt(0.0, 0.0, 2.0_f64.sqrt() / 2.0), v3(0.0, 1.0, 0.0));
    let xs = Intersections::new(vec![
        Intersection::new(fx(-(2.0_f64.sqrt()) / 2.0), 0),
        Intersection::new(fx(2.0_f64.sqrt() / 2.0), 0),
    ]);
    let hit_info = HitInfo::prepare(&w.objects, &xs, &r, 1).unwrap();
    let color = w.refracted_color(&hit_info, 5);
    assert_eq!(color, col(0.0, 0.0, 0.0));
}

#[test]
fn shade_hit_with_transparent_material() {
    let mut w = default_world();
    let mut floor = Shape::new(Model::Plane(Plane));
    let _ = floor.set_transform(translation(fx(0.0), fx(-1.0), fx(0.0)));
    floor.material.transparency = fx(0.5);
    floor.material.refractive_index = fx(1.5);
    w.objects.push(floor);
    let mut ball = Shape::new(Model::Sphere(Sphere));
    let _ = ball.set_transform(translation(fx(0.0), fx(-3.5), fx(-0.5)));
    ball.material.color = col(1.0, 0.0, 0.0);
    ball.material.ambient = fx(0.5);
    w.objects.push(ball);
    let floor_index = w.objects.len() - 2;
    let r = Ray::new(
        pt(0.0, 0.0, -3.0),
        v3(0.0, -(2.0_f64.sqrt() / 2.0), 2.0_f64.sqrt() / 2.0),
    );
    let xs = Intersections::new(vec![Intersection::new(fx(2.0_f64.sqrt()), floor_index)]);
    let hit_info = HitInfo::prepare(&w.objects, &xs, &r, 0).unwrap();
    let color = w.shade_hit(&hit_info, 5);
    assert_eq!(color, col(0.93642, 0.68642, 0.68642));
}

#[test]
fn schlick_approx_total_internal_reflection() {
    let shapes = vec![Sphere::new_glass()];
    let r = Ray::new(pt(0.0, 0.0, 2.0_f64.sqrt() / 2.0), v3(0.0, 1.0, 0.0));
    let xs = Intersections::new(vec![
        Intersection::new(fx(-(2.0_f64.sqrt() / 2.0)), 0),
        Intersection::new(fx(2.0_f64.sqrt() / 2.0), 0),
    ]);
    let hit_info = HitInfo::prepare(&shapes, &xs, &r, 1).unwrap();
    let reflectance = World::schlick(&hit_info);
    assert!((to_f64(reflectance) - 1.0) < 0.00001);
}

#[test]
fn schlick_approx_perpendicular() {
    let shapes = vec![Sphere::new_glass()];
    let r = Ray::new(pt(0.0, 0.0, 0.0), v3(0.0, 1.0, 0.0));
    let xs = Intersections::new(vec![
        Intersection::new(fx(-1.0), 0),
        Intersection::new(fx(1.0), 0),
    ]);
    let hit_info = HitInfo::prepare(&shapes, &xs, &r, 1).unwrap();
    let reflectance = World::schlick(&hit_info);
    assert!((to_f64(reflectance) - 0.04) < 0.00001);
}

#[test]
fn schlick_approx_small_angle_n2_gt_n1() {
    let shapes = vec![Sphere::new_glass()];
    let r = Ray::new(pt(0.0, 0.99, -2.0), v3(0.0, 0.0, 1.0));
    let xs = Intersections::new(vec![Intersection::new(fx(1.8589), 0)]);
    let hit_info = HitInfo::prepare(&shapes, &xs, &r, 0).unwrap();
    let reflectance = World::schlick(&hit_info);
    assert!((to_f64(reflectance) - 0.48873) < 0.00001);
}
