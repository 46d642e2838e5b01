//! The single point light a scene carries.

use vstd::prelude::*;

use crate::canvas::{color_near, Color};
use crate::tuples::{point_near, Point};

verus! {

/// A point light: a position and an intensity.
#[derive(Clone, Copy, Debug)]
pub struct PointLight {
    pub position: Point,
    pub intensity: Color,
}

impl PointLight {
    pub fn new(position: Point, intensity: Color) -> (r: PointLight)
        ensures
            r == (PointLight { position, intensity }),
    {
        PointLight { position, intensity }
    }
}

impl PartialEq for PointLight {
    /// Equality is epsilon-tolerant on position and intensity.
    fn eq(&self, other: &Self) -> (r: bool) {
        self.position.approx_eq(other.position) && self.intensity.approx_eq(other.intensity)
    }
}

impl vstd::std_specs::cmp::PartialEqSpecImpl for PointLight {
    open spec fn obeys_eq_spec() -> bool {
        true
    }

    open spec fn eq_spec(&self, other: &PointLight) -> bool {
        point_near(self.position, other.position) && color_near(self.intensity, other.intensity)
    }
}

} // verus!
