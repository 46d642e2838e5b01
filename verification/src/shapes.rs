//! Shapes: a closed set of kinds (sphere, plane) behind one interface, and
//! the `Shape` that owns a transform with its cached inverse and a
//! material.
//!
//! Every mutation of the transform recomputes the cached inverse or is
//! rejected, so a shape never carries a stale inverse.

use vstd::prelude::*;

use crate::fx::{fx, fx_add, fx_div, fx_mul, fx_neg, fx_sqrt, fx_sub, fx_whole, Fx, EPSILON_RAW, SCALE};
use crate::intersections::{sort_by_t, sorted_by_t, Intersection, Intersections};
use crate::materials::{material_default_spec, material_eq_spec, Material};
use crate::matrices::{
    det4_spec, identity_inverse_exact, identity_spec, matrix4_near, mul3_vector_spec,
    submatrix4_spec, transform_inverse_spec, transform_point_spec, transpose3_spec, Matrix3,
    NoInverseError, Transform,
};
use crate::rays::{ray_transform_spec, Ray};
use crate::tuples::{dot_spec, normalize_spec, point_sub_point, Point, Vector};

verus! {

/// The unit sphere about the local origin.
#[derive(Clone, Copy, Debug, PartialEq, Eq, Structural, Default)]
pub struct Sphere;

/// The local xz plane.
#[derive(Clone, Copy, Debug, PartialEq, Eq, Structural, Default)]
pub struct Plane;

/// The closed set of shape kinds.
#[derive(Clone, Copy, Debug, PartialEq, Eq, Structural)]
pub enum Model {
    Sphere(Sphere),
    Plane(Plane),
}

pub open spec fn origin_point() -> Point {
    Point { x: fx(0), y: fx(0), z: fx(0) }
}

/// Ray parameters at which a ray meets the unit sphere: the real roots of
/// the quadratic from `|origin + t * direction|^2 = 1`, both of them (equal
/// for a tangent ray), or none when the discriminant is negative.
pub open spec fn sphere_local_intersect_spec(local_ray: Ray) -> Seq<Fx> {
    let sphere_to_ray = point_sub_point(local_ray.origin, origin_point());
    let a = dot_spec(local_ray.direction, local_ray.direction);
    let b = fx_mul(fx_whole(2), dot_spec(local_ray.direction, sphere_to_ray));
    let c = fx_sub(dot_spec(sphere_to_ray, sphere_to_ray), fx_whole(1));
    let discriminant = fx_sub(fx_mul(b, b), fx_mul(fx_mul(fx_whole(4), a), c));
    if discriminant.raw < 0 {
        Seq::<Fx>::empty()
    } else {
        let root = fx_sqrt(discriminant);
        let denom = fx_mul(fx_whole(2), a);
        seq![fx_div(fx_sub(fx_neg(b), root), denom), fx_div(fx_add(fx_neg(b), root), denom)]
    }
}

/// The local normal of the sphere: the point taken as a vector from the
/// origin.
pub open spec fn sphere_local_normal_spec(p: Point) -> Vector {
    point_sub_point(p, origin_point())
}

/// Ray parameter at which a ray meets the local xz plane; none when the ray
/// is parallel to it (the coplanar case included).
pub open spec fn plane_local_intersect_spec(local_ray: Ray) -> Seq<Fx> {
    if crate::fx::abs_int(local_ray.direction.y.raw as int) < EPSILON_RAW {
        Seq::<Fx>::empty()
    } else {
        seq![fx_div(fx_neg(local_ray.origin.y), local_ray.direction.y)]
    }
}

/// The plane's constant local normal.
pub open spec fn plane_local_normal_spec() -> Vector {
    Vector { x: fx(0), y: fx(SCALE as int), z: fx(0) }
}

pub open spec fn model_local_intersect_spec(m: Model, local_ray: Ray) -> Seq<Fx> {
    match m {
        Model::Sphere(_) => sphere_local_intersect_spec(local_ray),
        Model::Plane(_) => plane_local_intersect_spec(local_ray),
    }
}

pub open spec fn model_local_normal_spec(m: Model, p: Point) -> Vector {
    match m {
        Model::Sphere(_) => sphere_local_normal_spec(p),
        Model::Plane(_) => plane_local_normal_spec(),
    }
}

impl Sphere {
    pub fn local_intersect(&self, local_ray: &Ray) -> (r: Vec<Fx>)
        ensures
            r@ == sphere_local_intersect_spec(*local_ray),
    {
        let sphere_to_ray = local_ray.origin.sub(Point::new(Fx::zero(), Fx::zero(), Fx::zero()));
        let a = Vector::dot(local_ray.direction, local_ray.direction);
        let b = Fx::from_units(2).mul(Vector::dot(local_ray.direction, sphere_to_ray));
        let c = Vector::dot(sphere_to_ray, sphere_to_ray).sub(Fx::from_units(1));
        let discriminant = b.mul(b).sub(Fx::from_units(4).mul(a).mul(c));
        let mut out: Vec<Fx> = Vec::new();
        if discriminant.raw < 0 {
            proof {
                assert(out@ =~= sphere_local_intersect_spec(*local_ray));
            }
            return out;
        }
        let root = discriminant.sqrt();
        let denom = Fx::from_units(2).mul(a);
        out.push(b.neg().sub(root).div(denom));
        out.push(b.neg().add(root).div(denom));
        proof {
            assert(out@ =~= sphere_local_intersect_spec(*local_ray));
        }
        out
    }

    pub fn local_normal_at(&self, local_point: Point) -> (r: Vector)
        ensures
            r == sphere_local_normal_spec(local_point),
    {
        local_point.sub(Point::new(Fx::zero(), Fx::zero(), Fx::zero()))
    }

    /// A glass sphere: fully transparent with refractive index 1.5.
    pub fn new_glass() -> (r: Shape)
        ensures
            r.transform == identity_spec(),
            r.inverse == identity_spec(),
            r.model == Model::Sphere(Sphere),
            r.material == (Material {
                transparency: fx(SCALE as int),
                refractive_index: fx(6442450944),
                ..material_default_spec()
            }),
            shape_wf(r),
    {
        let mut material = Material::new();
        material.transparency = Fx::one();
        material.refractive_index = Fx::from_raw(6442450944);
        let shape = Shape {
            transform: Transform::identity(),
            inverse: Transform::identity(),
            material,
            model: Model::Sphere(Sphere),
        };
        proof {
            identity_inverse_exact();
        }
        shape
    }
}

impl Plane {
    pub fn local_intersect(&self, local_ray: &Ray) -> (r: Vec<Fx>)
        ensures
            r@ == plane_local_intersect_spec(*local_ray),
    {
        let mut out: Vec<Fx> = Vec::new();
        if local_ray.direction.y.abs().raw < EPSILON_RAW {
            proof {
                assert(out@ =~= plane_local_intersect_spec(*local_ray));
            }
            return out;
        }
        out.push(local_ray.origin.y.neg().div(local_ray.direction.y));
        proof {
            assert(out@ =~= plane_local_intersect_spec(*local_ray));
        }
        out
    }

    pub fn local_normal_at(&self, _local_point: Point) -> (r: Vector)
        ensures
            r == plane_local_normal_spec(),
    {
        Vector::new(Fx::zero(), Fx::one(), Fx::zero())
    }
}

impl Model {
    pub fn local_intersect(&self, local_ray: &Ray) -> (r: Vec<Fx>)
        ensures
            r@ == model_local_intersect_spec(*self, *local_ray),
    {
        match self {
            Model::Sphere(s) => s.local_intersect(local_ray),
            Model::Plane(p) => p.local_intersect(local_ray),
        }
    }

    pub fn local_normal_at(&self, local_point: Point) -> (r: Vector)
        ensures
            r == model_local_normal_spec(*self, local_point),
    {
        match self {
            Model::Sphere(s) => s.local_normal_at(local_point),
            Model::Plane(p) => p.local_normal_at(local_point),
        }
    }
}

/// A shape in the scene: a kind, a transform with its cached inverse, and
/// a material.
#[derive(Clone, Debug)]
pub struct Shape {
    pub transform: Transform,
    pub inverse: Transform,
    pub material: Material,
    pub model: Model,
}

/// The cached inverse really is the cofactor inverse of the transform,
/// which is invertible.
pub open spec fn shape_wf(s: Shape) -> bool {
    det4_spec(s.transform.matrix).raw != 0 && s.inverse == transform_inverse_spec(s.transform)
}

/// The crossings a shape assigns to a world-space ray: the ray is taken to
/// local space by the cached inverse, the kind is asked, and each parameter
/// is tagged with the shape's index and sorted.
pub open spec fn shape_intersect_spec(s: Shape, ray: Ray, index: usize) -> Seq<Intersection> {
    sort_by_t(with_object(model_local_intersect_spec(s.model, ray_transform_spec(ray, s.inverse)), index))
}

/// Tag each ray parameter with the owning shape's index.
pub open spec fn with_object(ts: Seq<Fx>, object: usize) -> Seq<Intersection> {
    Seq::new(ts.len(), |i: int| Intersection { t: ts[i], object })
}

/// The world-space normal: the point is taken to local space, the kind
/// reports its local normal, which returns through the transpose of the
/// upper-left block of the inverse, renormalized.
pub open spec fn shape_normal_spec(s: Shape, world_point: Point) -> Vector {
    normalize_spec(
        mul3_vector_spec(
            transpose3_spec(submatrix4_spec(s.inverse.matrix, 3, 3)),
            model_local_normal_spec(s.model, transform_point_spec(s.inverse, world_point)),
        ),
    )
}

impl Shape {
    pub fn new(model: Model) -> (r: Shape)
        ensures
            r.transform == identity_spec(),
            r.inverse == identity_spec(),
            r.material == material_default_spec(),
            r.model == model,
            shape_wf(r),
    {
        let shape = Shape {
            transform: Transform::identity(),
            inverse: Transform::identity(),
            material: Material::new(),
            model,
        };
        proof {
            identity_inverse_exact();
        }
        shape
    }

    /// Replaces the transform, recomputing the cached inverse, or rejects a
    /// singular transform and leaves the shape unchanged.
    pub fn set_transform(&mut self, transform: Transform) -> (r: Result<(), NoInverseError>)
        ensures
            det4_spec(transform.matrix).raw != 0 ==> r == Ok::<(), NoInverseError>(())
                && final(self).transform == transform && final(self).inverse
                == transform_inverse_spec(transform) && final(self).material == old(self).material
                && final(self).model == old(self).model && shape_wf(*final(self)),
            det4_spec(transform.matrix).raw == 0 ==> r == Err::<(), NoInverseError>(NoInverseError)
                && *final(self) == *old(self),
    {
        match transform.inverse() {
            Some(inverse) => {
                self.transform = transform;
                self.inverse = inverse;
                Ok(())
            },
            None => Err(NoInverseError),
        }
    }

    /// Intersects a world-space ray with this shape, which sits at `index`
    /// in the scene's shape list.
    pub fn intersect(&self, ray: &Ray, index: usize) -> (r: Intersections)
        ensures
            r.vec@ == shape_intersect_spec(*self, *ray, index),
            sorted_by_t(r.vec@),
    {
        let local_ray = ray.transformed(&self.inverse);
        let ts = self.model.local_intersect(&local_ray);
        let mut v: Vec<Intersection> = Vec::new();
        let n = ts.len();
        let mut k: usize = 0;
        while k < n
            invariant
                k <= n,
                n == ts@.len(),
                v@.len() == k,
                forall|i: int|
                    0 <= i < k ==> v@[i] == (Intersection { t: ts@[i], object: index }),
            decreases n - k,
        {
            v.push(Intersection::new(ts[k], index));
            k = k + 1;
        }
        proof {
            assert(v@ =~= with_object(ts@, index));
        }
        Intersections::new(v)
    }

    /// The world-space surface normal at a world-space point.
    pub fn normal_at(&self, point: Point) -> (r: Vector)
        ensures
            r == shape_normal_spec(*self, point),
    {
        let local_point = self.inverse.mul_point(point);
        let local_normal = self.model.local_normal_at(local_point);
        let block = match self.inverse.submatrix(3, 3) {
            Ok(m) => m,
            Err(_) => Matrix3 {
                m00: Fx::zero(),
                m01: Fx::zero(),
                m02: Fx::zero(),
                m10: Fx::zero(),
                m11: Fx::zero(),
                m12: Fx::zero(),
                m20: Fx::zero(),
                m21: Fx::zero(),
                m22: Fx::zero(),
            },
        };
        block.transpose().mul_vector(local_normal).normalize()
    }
}

impl PartialEq for Shape {
    /// Equality compares the transforms tolerantly, the materials, and the
    /// kinds.
    fn eq(&self, other: &Self) -> (r: bool) {
        self.transform.approx_eq(&other.transform) && self.inverse.approx_eq(&other.inverse)
            && self.material == other.material && self.model == other.model
    }
}

impl vstd::std_specs::cmp::PartialEqSpecImpl for Shape {
    open spec fn obeys_eq_spec() -> bool {
        true
    }

    open spec fn eq_spec(&self, other: &Shape) -> bool {
        matrix4_near(self.transform.matrix, other.transform.matrix) && matrix4_near(
            self.inverse.matrix,
            other.inverse.matrix,
        ) && material_eq_spec(self.material, other.material) && self.model == other.model
    }
}

} // verus!
