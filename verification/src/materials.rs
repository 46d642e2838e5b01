//! The Phong material model and the lighting function.

use vstd::prelude::*;

use crate::canvas::{black, color_add, color_mul, color_near, color_scale, Color};
use crate::fx::{fx, fx_near, pow_fx, round_units_nonneg_spec, Fx, SCALE};
use crate::lights::PointLight;
use crate::patterns::{pattern_at_shape_spec, pattern_kind_eq_spec, Pattern};
use crate::shapes::Shape;
use crate::tuples::{dot_spec, normalize_spec, point_sub_point, reflect_spec, vector_neg, Point, Vector};

verus! {

/// Surface properties: base color, the Phong coefficients, reflectivity,
/// transparency with its refractive index, and an optional pattern.
#[derive(Clone, Debug)]
pub struct Material {
    pub color: Color,
    pub ambient: Fx,
    pub diffuse: Fx,
    pub specular: Fx,
    pub shininess: Fx,
    pub reflective: Fx,
    pub transparency: Fx,
    pub refractive_index: Fx,
    pub pattern: Option<Pattern>,
}

/// The stock material: white, ambient 0.1, diffuse 0.9, specular 0.9,
/// shininess 200, no reflection, opaque, vacuum index, no pattern.
pub open spec fn material_default_spec() -> Material {
    Material {
        color: crate::canvas::white(),
        ambient: fx(429496730),
        diffuse: fx(3865470566),
        specular: fx(3865470566),
        shininess: fx(858993459200),
        reflective: fx(0),
        transparency: fx(0),
        refractive_index: fx(SCALE as int),
        pattern: None,
    }
}

impl Material {
    pub fn new() -> (r: Material)
        ensures
            r == material_default_spec(),
    {
        Material {
            color: Color::white(),
            ambient: Fx::from_raw(429496730),
            diffuse: Fx::from_raw(3865470566),
            specular: Fx::from_raw(3865470566),
            shininess: Fx::from_raw(858993459200),
            reflective: Fx::zero(),
            transparency: Fx::zero(),
            refractive_index: Fx::one(),
            pattern: None,
        }
    }
}

impl Default for Material {
    fn default() -> (r: Material)
        ensures
            r == material_default_spec(),
    {
        Material::new()
    }
}

pub open spec fn option_pattern_eq_spec(a: Option<Pattern>, b: Option<Pattern>) -> bool {
    match (a, b) {
        (None, None) => true,
        (Some(x), Some(y)) => crate::matrices::matrix4_near(x.transform.matrix, y.transform.matrix)
            && crate::matrices::matrix4_near(x.inverse.matrix, y.inverse.matrix)
            && pattern_kind_eq_spec(x.model, y.model),
        _ => false,
    }
}

pub open spec fn material_eq_spec(a: Material, b: Material) -> bool {
    color_near(a.color, b.color) && fx_near(a.ambient, b.ambient) && fx_near(a.diffuse, b.diffuse)
        && fx_near(a.specular, b.specular) && fx_near(a.shininess, b.shininess) && fx_near(
        a.reflective,
        b.reflective,
    ) && fx_near(a.transparency, b.transparency) && fx_near(a.refractive_index, b.refractive_index)
        && option_pattern_eq_spec(a.pattern, b.pattern)
}

impl PartialEq for Material {
    /// Equality is epsilon-tolerant on every scalar and on the pattern.
    fn eq(&self, other: &Self) -> (r: bool) {
        self.color.approx_eq(other.color) && self.ambient.approx_eq(other.ambient)
            && self.diffuse.approx_eq(other.diffuse) && self.specular.approx_eq(other.specular)
            && self.shininess.approx_eq(other.shininess) && self.reflective.approx_eq(
            other.reflective,
        ) && self.transparency.approx_eq(other.transparency) && self.refractive_index.approx_eq(
            other.refractive_index,
        ) && match (&self.pattern, &other.pattern) {
            (Option::None, Option::None) => true,
            (Option::Some(x), Option::Some(y)) => x == y,
            _ => false,
        }
    }
}

impl vstd::std_specs::cmp::PartialEqSpecImpl for Material {
    open spec fn obeys_eq_spec() -> bool {
        true
    }

    open spec fn eq_spec(&self, other: &Material) -> bool {
        material_eq_spec(*self, *other)
    }
}

/// The Phong reflectance of a lit point: the pattern or base color filtered
/// by the light, an ambient term always present, and diffuse and specular
/// terms that depend on the light and eye directions. In shadow, only the
/// ambient term survives.
pub open spec fn lighting_spec(
    material: Material,
    object: Shape,
    light: PointLight,
    point: Point,
    eyev: Vector,
    normal: Vector,
    in_shadow: bool,
) -> Color {
    let color = match material.pattern {
        Some(p) => pattern_at_shape_spec(p, object.inverse, point),
        None => material.color,
    };
    let effective_color = color_mul(color, light.intensity);
    let lightv = normalize_spec(point_sub_point(light.position, point));
    let ambient = color_scale(effective_color, material.ambient);
    if in_shadow {
        ambient
    } else {
        let light_dot_normal = dot_spec(lightv, normal);
        let diffuse = if light_dot_normal.raw < 0 {
            black()
        } else {
            color_scale(color_scale(effective_color, material.diffuse), light_dot_normal)
        };
        let specular = if light_dot_normal.raw < 0 {
            black()
        } else {
            let reflectv = reflect_spec(vector_neg(lightv), normal);
            let reflect_dot_eye = dot_spec(reflectv, eyev);
            if reflect_dot_eye.raw <= 0 {
                black()
            } else {
                let factor = pow_fx(reflect_dot_eye, round_units_nonneg_spec(material.shininess));
                color_scale(color_scale(light.intensity, material.specular), factor)
            }
        };
        color_add(color_add(ambient, diffuse), specular)
    }
}

/// Shades one point of a surface under the scene's light.
pub fn lighting(
    material: &Material,
    object: &Shape,
    light: &PointLight,
    point: Point,
    eyev: Vector,
    normal: Vector,
    in_shadow: bool,
) -> (r: Color)
    ensures
        r == lighting_spec(*material, *object, *light, point, eyev, normal, in_shadow),
{
    let color = match &material.pattern {
        Some(p) => p.at_shape(object, point),
        None => material.color,
    };
    let effective_color = color.mul(light.intensity);
    let lightv = light.position.sub(point).normalize();
    let ambient = effective_color.scale(material.ambient);
    if in_shadow {
        return ambient;
    }
    let light_dot_normal = Vector::dot(lightv, normal);
    let diffuse;
    let specular;
    if light_dot_normal.raw < 0 {
        diffuse = Color::black();
        specular = Color::black();
    } else {
        diffuse = effective_color.scale(material.diffuse).scale(light_dot_normal);
        let reflectv = lightv.neg().reflect(normal);
        let reflect_dot_eye = Vector::dot(reflectv, eyev);
        if reflect_dot_eye.raw <= 0 {
            specular = Color::black();
        } else {
            let factor = reflect_dot_eye.powi(material.shininess.round_units_nonneg());
            specular = light.intensity.scale(material.specular).scale(factor);
        }
    }
    ambient.add(diffuse).add(specular)
}

} // verus!
