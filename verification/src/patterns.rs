//! Surface patterns: stripes, gradient, rings and checkers, each a pure
//! function from a pattern-space point to a color, carried by a `Pattern`
//! with its own transform and cached inverse.

use vstd::prelude::*;

use crate::canvas::{color_add, color_near, color_scale, color_sub, Color};
use crate::fx::{
    floor_units_spec, fx, fx_add, fx_mul, fx_sqrt, fx_whole, units_even, Fx, EPSILON_RAW,
};
use crate::matrices::{
    det4_spec, identity_spec, matrix4_near, transform_inverse_spec, transform_point_spec,
    Transform,
};
use crate::shapes::Shape;
use crate::tuples::Point;

verus! {

/// Raised when a transform with no inverse is assigned to a pattern.
#[derive(Clone, Copy, Debug, PartialEq, Eq, Structural, Default)]
pub struct NoInverseTransformError;

/// Alternating colors by the floor of x.
#[derive(Clone, Copy, Debug)]
pub struct Stripes {
    pub a: Color,
    pub b: Color,
}

/// Linear interpolation from one color to the other by the fraction of x.
#[derive(Clone, Copy, Debug)]
pub struct Gradient {
    pub a: Color,
    pub b: Color,
}

/// Alternating colors by the floor of the radial distance in x and z.
#[derive(Clone, Copy, Debug)]
pub struct Rings {
    pub a: Color,
    pub b: Color,
}

/// Alternating colors by the parity of the summed floors of all three
/// coordinates, each nudged up by epsilon against boundary flicker.
#[derive(Clone, Copy, Debug)]
pub struct Checkers {
    pub a: Color,
    pub b: Color,
}

/// A diagnostic pattern that reports the pattern-space point as a color.
#[derive(Clone, Copy, Debug)]
pub struct TestPattern;

pub open spec fn stripes_at_spec(s: Stripes, p: Point) -> Color {
    if units_even(floor_units_spec(p.x)) {
        s.a
    } else {
        s.b
    }
}

pub open spec fn gradient_at_spec(g: Gradient, p: Point) -> Color {
    let distance = color_sub(g.b, g.a);
    let fraction = crate::fx::fx_sub(p.x, fx_whole(floor_units_spec(p.x)));
    color_add(g.a, color_scale(distance, fraction))
}

pub open spec fn rings_at_spec(r: Rings, p: Point) -> Color {
    if units_even(floor_units_spec(fx_sqrt(fx_add(fx_mul(p.x, p.x), fx_mul(p.z, p.z))))) {
        r.a
    } else {
        r.b
    }
}

pub open spec fn checkers_at_spec(c: Checkers, p: Point) -> Color {
    let fx_floor = floor_units_spec(fx_add(p.x, fx(EPSILON_RAW as int)));
    let fy_floor = floor_units_spec(fx_add(p.y, fx(EPSILON_RAW as int)));
    let fz_floor = floor_units_spec(fx_add(p.z, fx(EPSILON_RAW as int)));
    if units_even(fx_floor + fy_floor + fz_floor) {
        c.a
    } else {
        c.b
    }
}

pub open spec fn test_pattern_at_spec(p: Point) -> Color {
    Color { red: p.x, green: p.y, blue: p.z }
}

impl Stripes {
    pub fn new(a: Color, b: Color) -> (r: Stripes)
        ensures
            r == (Stripes { a, b }),
    {
        Stripes { a, b }
    }

    pub fn at(&self, point: Point) -> (r: Color)
        ensures
            r == stripes_at_spec(*self, point),
    {
        if crate::fx::is_even_units(point.x.floor_units()) {
            self.a
        } else {
            self.b
        }
    }
}

impl Gradient {
    pub fn new(a: Color, b: Color) -> (r: Gradient)
        ensures
            r == (Gradient { a, b }),
    {
        Gradient { a, b }
    }

    pub fn at(&self, point: Point) -> (r: Color)
        ensures
            r == gradient_at_spec(*self, point),
    {
        let distance = self.b.sub(self.a);
        let fraction = point.x.sub(Fx::from_units(point.x.floor_units()));
        self.a.add(distance.scale(fraction))
    }
}

impl Rings {
    pub fn new(a: Color, b: Color) -> (r: Rings)
        ensures
            r == (Rings { a, b }),
    {
        Rings { a, b }
    }

    pub fn at(&self, point: Point) -> (r: Color)
        ensures
            r == rings_at_spec(*self, point),
    {
        let radial = point.x.mul(point.x).add(point.z.mul(point.z)).sqrt();
        if crate::fx::is_even_units(radial.floor_units()) {
            self.a
        } else {
            self.b
        }
    }
}

impl Checkers {
    pub fn new(a: Color, b: Color) -> (r: Checkers)
        ensures
            r == (Checkers { a, b }),
    {
        Checkers { a, b }
    }

    pub fn at(&self, point: Point) -> (r: Color)
        ensures
            r == checkers_at_spec(*self, point),
    {
        let nudge = Fx::from_raw(EPSILON_RAW);
        let fx_floor = point.x.add(nudge).floor_units();
        let fy_floor = point.y.add(nudge).floor_units();
        let fz_floor = point.z.add(nudge).floor_units();
        if crate::fx::is_even_units(fx_floor + fy_floor + fz_floor) {
            self.a
        } else {
            self.b
        }
    }
}

impl TestPattern {
    pub fn at(&self, point: Point) -> (r: Color)
        ensures
            r == test_pattern_at_spec(point),
    {
        Color { red: point.x, green: point.y, blue: point.z }
    }
}

/// The closed set of pattern kinds.
#[derive(Clone, Copy, Debug)]
pub enum PatternKind {
    Stripes(Stripes),
    Gradient(Gradient),
    Rings(Rings),
    Checkers(Checkers),
    Test(TestPattern),
}

pub open spec fn kind_at_spec(k: PatternKind, p: Point) -> Color {
    match k {
        PatternKind::Stripes(s) => stripes_at_spec(s, p),
        PatternKind::Gradient(g) => gradient_at_spec(g, p),
        PatternKind::Rings(r) => rings_at_spec(r, p),
        PatternKind::Checkers(c) => checkers_at_spec(c, p),
        PatternKind::Test(_) => test_pattern_at_spec(p),
    }
}

/// A pattern kind with its own transform and cached inverse.
#[derive(Clone, Copy, Debug)]
pub struct Pattern {
    pub transform: Transform,
    pub inverse: Transform,
    pub model: PatternKind,
}

/// Sampling at a point on a shape: the point passes through the shape's
/// inverse transform, then the pattern's, before the kind is sampled.
pub open spec fn pattern_at_shape_spec(pat: Pattern, shape_inverse: Transform, p: Point) -> Color {
    kind_at_spec(
        pat.model,
        transform_point_spec(pat.inverse, transform_point_spec(shape_inverse, p)),
    )
}

impl Pattern {
    pub fn new(model: PatternKind) -> (r: Pattern)
        ensures
            r.transform == identity_spec(),
            r.inverse == identity_spec(),
            r.model == model,
    {
        Pattern { transform: Transform::identity(), inverse: Transform::identity(), model }
    }

    /// Replaces the transform, recomputing the cached inverse, or rejects a
    /// singular transform and leaves the pattern unchanged.
    pub fn set_transform(&mut self, transform: Transform) -> (r: Result<
        (),
        NoInverseTransformError,
    >)
        ensures
            det4_spec(transform.matrix).raw != 0 ==> r == Ok::<(), NoInverseTransformError>(())
                && final(self).transform == transform && final(self).inverse
                == transform_inverse_spec(transform) && final(self).model == old(self).model,
            det4_spec(transform.matrix).raw == 0 ==> r == Err::<(), NoInverseTransformError>(
                NoInverseTransformError,
            ) && *final(self) == *old(self),
    {
        match transform.inverse() {
            Some(inverse) => {
                self.inverse = inverse;
                self.transform = transform;
                Ok(())
            },
            None => Err(NoInverseTransformError),
        }
    }

    /// Samples the pattern at a world-space point on the given shape.
    pub fn at_shape(&self, shape: &Shape, point: Point) -> (r: Color)
        ensures
            r == pattern_at_shape_spec(*self, shape.inverse, point),
    {
        let shape_point = shape.inverse.mul_point(point);
        let pattern_point = self.inverse.mul_point(shape_point);
        match &self.model {
            PatternKind::Stripes(s) => s.at(pattern_point),
            PatternKind::Gradient(g) => g.at(pattern_point),
            PatternKind::Rings(r) => r.at(pattern_point),
            PatternKind::Checkers(c) => c.at(pattern_point),
            PatternKind::Test(t) => t.at(pattern_point),
        }
    }
}

impl PartialEq for Stripes {
    /// Equality is epsilon-tolerant on both colors.
    fn eq(&self, other: &Self) -> (r: bool) {
        self.a.approx_eq(other.a) && self.b.approx_eq(other.b)
    }
}

impl vstd::std_specs::cmp::PartialEqSpecImpl for Stripes {
    open spec fn obeys_eq_spec() -> bool {
        true
    }

    open spec fn eq_spec(&self, other: &Stripes) -> bool {
        color_near(self.a, other.a) && color_near(self.b, other.b)
    }
}

impl PartialEq for Gradient {
    /// Equality is epsilon-tolerant on both colors.
    fn eq(&self, other: &Self) -> (r: bool) {
        self.a.approx_eq(other.a) && self.b.approx_eq(other.b)
    }
}

impl vstd::std_specs::cmp::PartialEqSpecImpl for Gradient {
    open spec fn obeys_eq_spec() -> bool {
        true
    }

    open spec fn eq_spec(&self, other: &Gradient) -> bool {
        color_near(self.a, other.a) && color_near(self.b, other.b)
    }
}

impl PartialEq for Rings {
    /// Equality is epsilon-tolerant on both colors.
    fn eq(&self, other: &Self) -> (r: bool) {
        self.a.approx_eq(other.a) && self.b.approx_eq(other.b)
    }
}

impl vstd::std_specs::cmp::PartialEqSpecImpl for Rings {
    open spec fn obeys_eq_spec() -> bool {
        true
    }

    open spec fn eq_spec(&self, other: &Rings) -> bool {
        color_near(self.a, other.a) && color_near(self.b, other.b)
    }
}

impl PartialEq for Checkers {
    /// Equality is epsilon-tolerant on both colors.
    fn eq(&self, other: &Self) -> (r: bool) {
        self.a.approx_eq(other.a) && self.b.approx_eq(other.b)
    }
}

impl vstd::std_specs::cmp::PartialEqSpecImpl for Checkers {
    open spec fn obeys_eq_spec() -> bool {
        true
    }

    open spec fn eq_spec(&self, other: &Checkers) -> bool {
        color_near(self.a, other.a) && color_near(self.b, other.b)
    }
}

impl PartialEq for TestPattern {
    fn eq(&self, _other: &Self) -> (r: bool) {
        true
    }
}

impl vstd::std_specs::cmp::PartialEqSpecImpl for TestPattern {
    open spec fn obeys_eq_spec() -> bool {
        true
    }

    open spec fn eq_spec(&self, _other: &TestPattern) -> bool {
        true
    }
}

impl PartialEq for PatternKind {
    /// Kinds are equal when they are the same variant with equal colors.
    fn eq(&self, other: &Self) -> (r: bool) {
        match (self, other) {
            (PatternKind::Stripes(a), PatternKind::Stripes(b)) => a == b,
            (PatternKind::Gradient(a), PatternKind::Gradient(b)) => a == b,
            (PatternKind::Rings(a), PatternKind::Rings(b)) => a == b,
            (PatternKind::Checkers(a), PatternKind::Checkers(b)) => a == b,
            (PatternKind::Test(a), PatternKind::Test(b)) => a == b,
            _ => false,
        }
    }
}

pub open spec fn pattern_kind_eq_spec(a: PatternKind, b: PatternKind) -> bool {
    match (a, b) {
        (PatternKind::Stripes(x), PatternKind::Stripes(y)) => color_near(x.a, y.a) && color_near(
            x.b,
            y.b,
        ),
        (PatternKind::Gradient(x), PatternKind::Gradient(y)) => color_near(x.a, y.a) && color_near(
            x.b,
            y.b,
        ),
        (PatternKind::Rings(x), PatternKind::Rings(y)) => color_near(x.a, y.a) && color_near(
            x.b,
            y.b,
        ),
        (PatternKind::Checkers(x), PatternKind::Checkers(y)) => color_near(x.a, y.a) && color_near(
            x.b,
            y.b,
        ),
        (PatternKind::Test(_), PatternKind::Test(_)) => true,
        _ => false,
    }
}

impl vstd::std_specs::cmp::PartialEqSpecImpl for PatternKind {
    open spec fn obeys_eq_spec() -> bool {
        true
    }

    open spec fn eq_spec(&self, other: &PatternKind) -> bool {
        pattern_kind_eq_spec(*self, *other)
    }
}

impl PartialEq for Pattern {
    /// Equality compares the transforms tolerantly and the kinds.
    fn eq(&self, other: &Self) -> (r: bool) {
        self.transform.approx_eq(&other.transform) && self.inverse.approx_eq(&other.inverse)
            && self.model == other.model
    }
}

impl vstd::std_specs::cmp::PartialEqSpecImpl for Pattern {
    open spec fn obeys_eq_spec() -> bool {
        true
    }

    open spec fn eq_spec(&self, other: &Pattern) -> bool {
        matrix4_near(self.transform.matrix, other.transform.matrix) && matrix4_near(
            self.inverse.matrix,
            other.inverse.matrix,
        ) && pattern_kind_eq_spec(self.model, other.model)
    }
}

} // verus!
