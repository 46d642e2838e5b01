//! The scene: a list of shapes and one light, intersected and shaded with
//! a bounded recursion over reflection and refraction.
//!
//! Every recursive shading function carries an explicit `remaining` budget
//! and strictly shrinks it on each bounce, so rendering terminates on every
//! scene, two facing mirrors included; the termination checker enforces
//! this for all inputs.
//!
//! Shading adds the surface, reflected and refracted contributions at full
//! strength; the Schlick reflectance is offered as a pure function for
//! callers that want to blend the two, but is not folded into `shade_hit`.

use vstd::prelude::*;

use crate::canvas::{black, color_add, color_scale, Color};
use crate::fx::{fx_add, fx_div, fx_mul, fx_sqrt, fx_sub, fx_whole, pow_fx, Fx, SCALE};
use crate::intersections::{
    first_nonneg, hit_info_spec, lemma_first_nonneg_eq, lemma_first_nonneg_none,
    lemma_sort_by_t_objects, sort_by_t, sorted_by_t, HitInfo, Intersection, Intersections,
};
use crate::lights::PointLight;
use crate::materials::{lighting, lighting_spec};
use crate::rays::Ray;
use crate::shapes::{shape_intersect_spec, with_object, Shape};
use crate::tuples::{dot_spec, magnitude_spec, normalize_spec, point_sub_point, Point, Vector};

verus! {

/// How many reflective or refractive bounces a rendering may take.
pub const RECURSION_DEPTH: usize = 5;

/// A scene.
#[derive(Clone, Debug)]
pub struct World {
    pub objects: Vec<Shape>,
    pub light: PointLight,
}

/// All crossings of the first `k` shapes with a ray, in shape order.
pub open spec fn world_all_xs(objects: Seq<Shape>, ray: Ray, k: int) -> Seq<Intersection>
    decreases k,
{
    if k <= 0 {
        Seq::<Intersection>::empty()
    } else {
        world_all_xs(objects, ray, k - 1) + shape_intersect_spec(
            objects[k - 1],
            ray,
            (k - 1) as usize,
        )
    }
}

/// Every shape's crossings with the ray, merged and sorted by `t`.
pub open spec fn world_intersect_spec(w: World, ray: Ray) -> Seq<Intersection> {
    sort_by_t(world_all_xs(w.objects@, ray, w.objects@.len() as int))
}

/// A point is shadowed when something stands between it and the light:
/// a hit along the ray toward the light, closer than the light itself.
pub open spec fn is_shadowed_spec(w: World, point: Point) -> bool {
    let light_to_point = point_sub_point(w.light.position, point);
    let distance = magnitude_spec(light_to_point);
    let direction = normalize_spec(light_to_point);
    let xs = world_intersect_spec(w, Ray { origin: point, direction });
    let h = first_nonneg(xs, 0);
    if h >= 0 {
        xs[h].t.raw < distance.raw
    } else {
        false
    }
}

/// Surface color plus the reflected and refracted contributions.
pub open spec fn shade_hit_spec(w: World, h: HitInfo, remaining: nat) -> Color
    decreases remaining, 1int,
{
    let shadowed = is_shadowed_spec(w, h.over_point);
    let surface = lighting_spec(
        w.objects@[h.object as int].material,
        w.objects@[h.object as int],
        w.light,
        h.point,
        h.eyev,
        h.normal,
        shadowed,
    );
    color_add(color_add(surface, reflected_color_spec(w, h, remaining)), refracted_color_spec(w, h, remaining))
}

/// The color a ray gathers: black where it hits nothing, else the shaded
/// hit nearest along the ray.
pub open spec fn color_from_spec(w: World, ray: Ray, remaining: nat) -> Color
    decreases remaining, 2int,
{
    let xs = world_intersect_spec(w, ray);
    let h = first_nonneg(xs, 0);
    if h < 0 {
        black()
    } else {
        shade_hit_spec(w, hit_info_spec(w.objects@, xs, ray, h), remaining)
    }
}

/// The reflected contribution: black when the budget is spent or the
/// surface does not reflect, else the color of the reflected ray scaled by
/// the reflectivity.
pub open spec fn reflected_color_spec(w: World, h: HitInfo, remaining: nat) -> Color
    decreases remaining, 0int,
{
    if remaining == 0 || w.objects@[h.object as int].material.reflective.raw == 0 {
        black()
    } else {
        color_scale(
            color_from_spec(
                w,
                Ray { origin: h.over_point, direction: h.reflectv },
                (remaining - 1) as nat,
            ),
            w.objects@[h.object as int].material.reflective,
        )
    }
}

/// The refracted contribution: black when the budget is spent, the surface
/// is opaque, or total internal reflection occurs; else the color of the
/// ray bent by Snell's law, scaled by the transparency.
pub open spec fn refracted_color_spec(w: World, h: HitInfo, remaining: nat) -> Color
    decreases remaining, 0int,
{
    if remaining == 0 || w.objects@[h.object as int].material.transparency.raw == 0 {
        black()
    } else {
        let n_ratio = fx_div(h.n1, h.n2);
        let cos_i = dot_spec(h.eyev, h.normal);
        let sin2_t = fx_mul(fx_mul(n_ratio, n_ratio), fx_sub(fx_whole(1), fx_mul(cos_i, cos_i)));
        if sin2_t.raw > SCALE {
            black()
        } else {
            let cos_t = fx_sqrt(fx_sub(fx_whole(1), sin2_t));
            let direction = crate::tuples::vector_sub(
                crate::tuples::vector_scale(h.normal, fx_sub(fx_mul(n_ratio, cos_i), cos_t)),
                crate::tuples::vector_scale(h.eyev, n_ratio),
            );
            color_scale(
                color_from_spec(
                    w,
                    Ray { origin: h.under_point, direction },
                    (remaining - 1) as nat,
                ),
                w.objects@[h.object as int].material.transparency,
            )
        }
    }
}

/// The Schlick approximation of the Fresnel reflectance for a hit.
pub open spec fn schlick_spec(h: HitInfo) -> Fx {
    let cos_i = dot_spec(h.eyev, h.normal);
    if h.n1.raw > h.n2.raw {
        let n = fx_div(h.n1, h.n2);
        let sin2_t = fx_mul(fx_mul(n, n), fx_sub(fx_whole(1), fx_mul(cos_i, cos_i)));
        if sin2_t.raw > SCALE {
            fx_whole(1)
        } else {
            schlick_blend(h, fx_sqrt(fx_sub(fx_whole(1), sin2_t)))
        }
    } else {
        schlick_blend(h, cos_i)
    }
}

/// The Schlick blend for a given cosine.
pub open spec fn schlick_blend(h: HitInfo, cos: Fx) -> Fx {
    let ratio = fx_div(fx_sub(h.n1, h.n2), fx_add(h.n1, h.n2));
    let r0 = fx_mul(ratio, ratio);
    fx_add(r0, fx_mul(fx_sub(fx_whole(1), r0), pow_fx(fx_sub(fx_whole(1), cos), 5)))
}

impl World {
    /// An empty scene: no shapes, and a black light at the origin.
    pub fn new() -> (r: World)
        ensures
            r.objects@.len() == 0,
            r.light == (PointLight {
                position: crate::shapes::origin_point(),
                intensity: black(),
            }),
    {
        World {
            objects: Vec::new(),
            light: PointLight {
                position: Point::new(Fx::zero(), Fx::zero(), Fx::zero()),
                intensity: Color::black(),
            },
        }
    }

    /// All shapes' crossings with the ray, sorted ascending by `t`.
    pub fn intersect(&self, ray: &Ray) -> (r: Intersections)
        ensures
            r.vec@ == world_intersect_spec(*self, *ray),
            sorted_by_t(r.vec@),
            forall|k: int|
                0 <= k < r.vec@.len() ==> (#[trigger] r.vec@[k].object) < self.objects@.len(),
    {
        let n = self.objects.len();
        let mut all: Vec<Intersection> = Vec::new();
        let mut i: usize = 0;
        while i < n
            invariant
                i <= n,
                n == self.objects@.len(),
                all@ == world_all_xs(self.objects@, *ray, i as int),
                forall|k: int| 0 <= k < all@.len() ==> (#[trigger] all@[k].object) < n,
            decreases n - i,
        {
            let mut sub = self.objects[i].intersect(ray, i);
            proof {
                lemma_sort_by_t_objects(
                    with_object(
                        crate::shapes::model_local_intersect_spec(
                            self.objects@[i as int].model,
                            crate::rays::ray_transform_spec(*ray, self.objects@[i as int].inverse),
                        ),
                        i,
                    ),
                    i + 1,
                );
            }
            all.append(&mut sub.vec);
            i = i + 1;
        }
        let r = Intersections::new(all);
        proof {
            lemma_sort_by_t_objects(all@, n as int);
        }
        r
    }

    /// Whether something stands between the point and the light.
    pub fn is_shadowed(&self, point: Point) -> (r: bool)
        ensures
            r == is_shadowed_spec(*self, point),
    {
        let light_to_point = self.light.position.sub(point);
        let distance = light_to_point.magnitude();
        let direction = light_to_point.normalize();
        let ray = Ray::new(point, direction);
        let intersections = self.intersect(&ray);
        match intersections.hit() {
            Some(hit_index) => {
                proof {
                    lemma_first_nonneg_eq(intersections.vec@, hit_index as int);
                }
                intersections.vec[hit_index].t.raw < distance.raw
            },
            None => {
                proof {
                    lemma_first_nonneg_none(intersections.vec@);
                }
                false
            },
        }
    }

    /// Shades the surface at a hit and adds the reflected and refracted
    /// contributions.
    pub fn shade_hit(&self, hit_info: &HitInfo, remaining: usize) -> (r: Color)
        requires
            hit_info.object < self.objects@.len(),
        ensures
            r == shade_hit_spec(*self, *hit_info, remaining as nat),
        decreases remaining, 1int,
    {
        let shadowed = self.is_shadowed(hit_info.over_point);
        let surface = lighting(
            &self.objects[hit_info.object].material,
            &self.objects[hit_info.object],
            &self.light,
            hit_info.point,
            hit_info.eyev,
            hit_info.normal,
            shadowed,
        );
        let reflected = self.reflected_color(hit_info, remaining);
        let refracted = self.refracted_color(hit_info, remaining);
        surface.add(reflected).add(refracted)
    }

    /// The color a ray gathers from the scene, with `remaining` bounces of
    /// budget left.
    pub fn color_from(&self, ray: &Ray, remaining: usize) -> (r: Color)
        ensures
            r == color_from_spec(*self, *ray, remaining as nat),
        decreases remaining, 2int,
    {
        let intersections = self.intersect(ray);
        match intersections.hit() {
            None => {
                proof {
                    lemma_first_nonneg_none(intersections.vec@);
                }
                Color::black()
            },
            Some(hit_index) => {
                proof {
                    lemma_first_nonneg_eq(intersections.vec@, hit_index as int);
                }
                match HitInfo::prepare(&self.objects, &intersections, ray, hit_index) {
                    Some(hit_info) => self.shade_hit(&hit_info, remaining),
                    None => Color::black(),
                }
            },
        }
    }

    /// The reflected contribution at a hit.
    pub fn reflected_color(&self, hit_info: &HitInfo, remaining: usize) -> (r: Color)
        requires
            hit_info.object < self.objects@.len(),
        ensures
            r == reflected_color_spec(*self, *hit_info, remaining as nat),
        decreases remaining, 0int,
    {
        if remaining == 0 || self.objects[hit_info.object].material.reflective.raw == 0 {
            return Color::black();
        }
        let reflect_ray = Ray::new(hit_info.over_point, hit_info.reflectv);
        let color = self.color_from(&reflect_ray, remaining - 1);
        color.scale(self.objects[hit_info.object].material.reflective)
    }

    /// The refracted contribution at a hit.
    pub fn refracted_color(&self, hit_info: &HitInfo, remaining: usize) -> (r: Color)
        requires
            hit_info.object < self.objects@.len(),
        ensures
            r == refracted_color_spec(*self, *hit_info, remaining as nat),
        decreases remaining, 0int,
    {
        if remaining == 0 || self.objects[hit_info.object].material.transparency.raw == 0 {
            return Color::black();
        }
        let n_ratio = hit_info.n1.div(hit_info.n2);
        let cos_i = Vector::dot(hit_info.eyev, hit_info.normal);
        let sin2_t = n_ratio.mul(n_ratio).mul(Fx::from_units(1).sub(cos_i.mul(cos_i)));
        if sin2_t.raw > SCALE {
            return Color::black();
        }
        let cos_t = Fx::from_units(1).sub(sin2_t).sqrt();
        let direction = hit_info.normal.scale(n_ratio.mul(cos_i).sub(cos_t)).sub(
            hit_info.eyev.scale(n_ratio),
        );
        let refract_ray = Ray::new(hit_info.under_point, direction);
        self.color_from(&refract_ray, remaining - 1).scale(
            self.objects[hit_info.object].material.transparency,
        )
    }

    /// The Schlick approximation of the Fresnel reflectance for a hit.
    pub fn schlick(hit_info: &HitInfo) -> (r: Fx)
        ensures
            r == schlick_spec(*hit_info),
    {
        let mut cos = Vector::dot(hit_info.eyev, hit_info.normal);
        if hit_info.n1.raw > hit_info.n2.raw {
            let n = hit_info.n1.div(hit_info.n2);
            let sin2_t = n.mul(n).mul(Fx::from_units(1).sub(cos.mul(cos)));
            if sin2_t.raw > SCALE {
                return Fx::from_units(1);
            }
            cos = Fx::from_units(1).sub(sin2_t).sqrt();
        }
        let ratio = hit_info.n1.sub(hit_info.n2).div(hit_info.n1.add(hit_info.n2));
        let r0 = ratio.mul(ratio);
        r0.add(Fx::from_units(1).sub(r0).mul(Fx::from_units(1).sub(cos).powi(5)))
    }
}

} // verus!
