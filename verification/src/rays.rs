//! Rays: an origin, a direction, and the parametric walk along them.

use vstd::prelude::*;

use crate::fx::Fx;
use crate::matrices::{transform_point_spec, transform_vector_spec, Transform};
use crate::tuples::{point_add_vector, point_near, vector_near, vector_scale, Point, Vector};

verus! {

/// An immutable ray.
#[derive(Clone, Copy, Debug)]
pub struct Ray {
    pub origin: Point,
    pub direction: Vector,
}

/// The point `origin + direction * t`.
pub open spec fn position_spec(r: Ray, t: Fx) -> Point {
    point_add_vector(r.origin, vector_scale(r.direction, t))
}

/// A ray carried through a transform: the origin as a point, the direction
/// as a vector.
pub open spec fn ray_transform_spec(r: Ray, t: Transform) -> Ray {
    Ray { origin: transform_point_spec(t, r.origin), direction: transform_vector_spec(t, r.direction) }
}

impl Ray {
    pub fn new(origin: Point, direction: Vector) -> (r: Ray)
        ensures
            r == (Ray { origin, direction }),
    {
        Ray { origin, direction }
    }

    pub fn position(&self, t: Fx) -> (r: Point)
        ensures
            r == position_spec(*self, t),
    {
        self.origin.add(self.direction.scale(t))
    }

    pub fn origin(&self) -> (r: Point)
        ensures
            r == self.origin,
    {
        self.origin
    }

    pub fn direction(&self) -> (r: Vector)
        ensures
            r == self.direction,
    {
        self.direction
    }

    pub fn transformed(&self, transform: &Transform) -> (r: Ray)
        ensures
            r == ray_transform_spec(*self, *transform),
    {
        Ray {
            origin: transform.mul_point(self.origin),
            direction: transform.mul_vector(self.direction),
        }
    }

    pub fn approx_eq(&self, rhs: &Ray) -> (r: bool)
        ensures
            r == (point_near(self.origin, rhs.origin) && vector_near(self.direction, rhs.direction)),
    {
        self.origin.approx_eq(rhs.origin) && self.direction.approx_eq(rhs.direction)
    }
}

impl PartialEq for Ray {
    /// Equality is epsilon-tolerant on origin and direction.
    fn eq(&self, other: &Self) -> (r: bool) {
        self.approx_eq(other)
    }
}

impl vstd::std_specs::cmp::PartialEqSpecImpl for Ray {
    open spec fn obeys_eq_spec() -> bool {
        true
    }

    open spec fn eq_spec(&self, other: &Ray) -> bool {
        point_near(self.origin, other.origin) && vector_near(self.direction, other.direction)
    }
}

} // verus!
