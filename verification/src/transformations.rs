//! Factories for the standard affine transforms, a fluent builder, and the
//! view transform.

use vstd::prelude::*;

use crate::fx::{
    abs_int, add_raw, cos_spec, fx, fx_neg, fx_unit_laws, sin_spec, Fx, MAX_RAW, SCALE,
};
use crate::matrices::{
    identity_spec, inverse4_spec, transform_inverse_spec, transform_mul_spec, transform_point_spec,
    transform_wf, Matrix4, Transform,
};
use crate::tuples::{cross_spec, normalize_spec, point_sub_point, Point, Vector};

verus! {

pub open spec fn translation_spec(x: Fx, y: Fx, z: Fx) -> Transform {
    Transform {
        matrix: Matrix4 {
            m00: fx(SCALE as int), m01: fx(0), m02: fx(0), m03: x,
            m10: fx(0), m11: fx(SCALE as int), m12: fx(0), m13: y,
            m20: fx(0), m21: fx(0), m22: fx(SCALE as int), m23: z,
            m30: fx(0), m31: fx(0), m32: fx(0), m33: fx(SCALE as int),
        },
    }
}

pub open spec fn scaling_spec(x: Fx, y: Fx, z: Fx) -> Transform {
    Transform {
        matrix: Matrix4 {
            m00: x, m01: fx(0), m02: fx(0), m03: fx(0),
            m10: fx(0), m11: y, m12: fx(0), m13: fx(0),
            m20: fx(0), m21: fx(0), m22: z, m23: fx(0),
            m30: fx(0), m31: fx(0), m32: fx(0), m33: fx(SCALE as int),
        },
    }
}

pub open spec fn rotation_x_spec(r: Fx) -> Transform {
    Transform {
        matrix: Matrix4 {
            m00: fx(SCALE as int), m01: fx(0), m02: fx(0), m03: fx(0),
            m10: fx(0), m11: cos_spec(r), m12: fx_neg(sin_spec(r)), m13: fx(0),
            m20: fx(0), m21: sin_spec(r), m22: cos_spec(r), m23: fx(0),
            m30: fx(0), m31: fx(0), m32: fx(0), m33: fx(SCALE as int),
        },
    }
}

pub open spec fn rotation_y_spec(r: Fx) -> Transform {
    Transform {
        matrix: Matrix4 {
            m00: cos_spec(r), m01: fx(0), m02: sin_spec(r), m03: fx(0),
            m10: fx(0), m11: fx(SCALE as int), m12: fx(0), m13: fx(0),
            m20: fx_neg(sin_spec(r)), m21: fx(0), m22: cos_spec(r), m23: fx(0),
            m30: fx(0), m31: fx(0), m32: fx(0), m33: fx(SCALE as int),
        },
    }
}

pub open spec fn rotation_z_spec(r: Fx) -> Transform {
    Transform {
        matrix: Matrix4 {
            m00: cos_spec(r), m01: fx_neg(sin_spec(r)), m02: fx(0), m03: fx(0),
            m10: sin_spec(r), m11: cos_spec(r), m12: fx(0), m13: fx(0),
            m20: fx(0), m21: fx(0), m22: fx(SCALE as int), m23: fx(0),
            m30: fx(0), m31: fx(0), m32: fx(0), m33: fx(SCALE as int),
        },
    }
}

pub open spec fn shearing_spec(
    x_by_y: Fx,
    x_by_z: Fx,
    y_by_x: Fx,
    y_by_z: Fx,
    z_by_x: Fx,
    z_by_y: Fx,
) -> Transform {
    Transform {
        matrix: Matrix4 {
            m00: fx(SCALE as int), m01: x_by_y, m02: x_by_z, m03: fx(0),
            m10: y_by_x, m11: fx(SCALE as int), m12: y_by_z, m13: fx(0),
            m20: z_by_x, m21: z_by_y, m22: fx(SCALE as int), m23: fx(0),
            m30: fx(0), m31: fx(0), m32: fx(0), m33: fx(SCALE as int),
        },
    }
}

/// The orientation part of the view transform: rows are the left, true-up
/// and negated forward directions.
pub open spec fn orientation_spec(left: Vector, true_up: Vector, forward: Vector) -> Transform {
    Transform {
        matrix: Matrix4 {
            m00: left.x, m01: left.y, m02: left.z, m03: fx(0),
            m10: true_up.x, m11: true_up.y, m12: true_up.z, m13: fx(0),
            m20: fx_neg(forward.x), m21: fx_neg(forward.y), m22: fx_neg(forward.z), m23: fx(0),
            m30: fx(0), m31: fx(0), m32: fx(0), m33: fx(SCALE as int),
        },
    }
}

pub open spec fn view_transform_spec(from: Point, to: Point, up: Vector) -> Transform {
    let forward = normalize_spec(point_sub_point(to, from));
    let upn = normalize_spec(up);
    let left = cross_spec(forward, upn);
    let true_up = cross_spec(left, forward);
    transform_mul_spec(
        orientation_spec(left, true_up, forward),
        translation_spec(fx_neg(from.x), fx_neg(from.y), fx_neg(from.z)),
    )
}

pub fn translation(x: Fx, y: Fx, z: Fx) -> (r: Transform)
    ensures
        r == translation_spec(x, y, z),
        transform_wf(r),
{
    Transform {
        matrix: Matrix4 {
            m00: Fx::one(), m01: Fx::zero(), m02: Fx::zero(), m03: x,
            m10: Fx::zero(), m11: Fx::one(), m12: Fx::zero(), m13: y,
            m20: Fx::zero(), m21: Fx::zero(), m22: Fx::one(), m23: z,
            m30: Fx::zero(), m31: Fx::zero(), m32: Fx::zero(), m33: Fx::one(),
        },
    }
}

pub fn scaling(x: Fx, y: Fx, z: Fx) -> (r: Transform)
    ensures
        r == scaling_spec(x, y, z),
        transform_wf(r),
{
    Transform {
        matrix: Matrix4 {
            m00: x, m01: Fx::zero(), m02: Fx::zero(), m03: Fx::zero(),
            m10: Fx::zero(), m11: y, m12: Fx::zero(), m13: Fx::zero(),
            m20: Fx::zero(), m21: Fx::zero(), m22: z, m23: Fx::zero(),
            m30: Fx::zero(), m31: Fx::zero(), m32: Fx::zero(), m33: Fx::one(),
        },
    }
}

pub fn rotation_x(r: Fx) -> (t: Transform)
    ensures
        t == rotation_x_spec(r),
        transform_wf(t),
{
    let c = r.cos();
    let s = r.sin();
    Transform {
        matrix: Matrix4 {
            m00: Fx::one(), m01: Fx::zero(), m02: Fx::zero(), m03: Fx::zero(),
            m10: Fx::zero(), m11: c, m12: s.neg(), m13: Fx::zero(),
            m20: Fx::zero(), m21: s, m22: c, m23: Fx::zero(),
            m30: Fx::zero(), m31: Fx::zero(), m32: Fx::zero(), m33: Fx::one(),
        },
    }
}

pub fn rotation_y(r: Fx) -> (t: Transform)
    ensures
        t == rotation_y_spec(r),
        transform_wf(t),
{
    let c = r.cos();
    let s = r.sin();
    Transform {
        matrix: Matrix4 {
            m00: c, m01: Fx::zero(), m02: s, m03: Fx::zero(),
            m10: Fx::zero(), m11: Fx::one(), m12: Fx::zero(), m13: Fx::zero(),
            m20: s.neg(), m21: Fx::zero(), m22: c, m23: Fx::zero(),
            m30: Fx::zero(), m31: Fx::zero(), m32: Fx::zero(), m33: Fx::one(),
        },
    }
}

pub fn rotation_z(r: Fx) -> (t: Transform)
    ensures
        t == rotation_z_spec(r),
        transform_wf(t),
{
    let c = r.cos();
    let s = r.sin();
    Transform {
        matrix: Matrix4 {
            m00: c, m01: s.neg(), m02: Fx::zero(), m03: Fx::zero(),
            m10: s, m11: c, m12: Fx::zero(), m13: Fx::zero(),
            m20: Fx::zero(), m21: Fx::zero(), m22: Fx::one(), m23: Fx::zero(),
            m30: Fx::zero(), m31: Fx::zero(), m32: Fx::zero(), m33: Fx::one(),
        },
    }
}

pub fn shearing(x_by_y: Fx, x_by_z: Fx, y_by_x: Fx, y_by_z: Fx, z_by_x: Fx, z_by_y: Fx) -> (r:
    Transform)
    ensures
        r == shearing_spec(x_by_y, x_by_z, y_by_x, y_by_z, z_by_x, z_by_y),
        transform_wf(r),
{
    Transform {
        matrix: Matrix4 {
            m00: Fx::one(), m01: x_by_y, m02: x_by_z, m03: Fx::zero(),
            m10: y_by_x, m11: Fx::one(), m12: y_by_z, m13: Fx::zero(),
            m20: z_by_x, m21: z_by_y, m22: Fx::one(), m23: Fx::zero(),
            m30: Fx::zero(), m31: Fx::zero(), m32: Fx::zero(), m33: Fx::one(),
        },
    }
}

/// The transform that moves the world so that the eye stands at the origin
/// looking along the negative z axis.
pub fn view_transform(from: Point, to: Point, up: Vector) -> (r: Transform)
    ensures
        r == view_transform_spec(from, to, up),
        transform_wf(r),
{
    let forward = to.sub(from).normalize();
    let upn = up.normalize();
    let left = Vector::cross(forward, upn);
    let true_up = Vector::cross(left, forward);
    let orientation = Transform {
        matrix: Matrix4 {
            m00: left.x, m01: left.y, m02: left.z, m03: Fx::zero(),
            m10: true_up.x, m11: true_up.y, m12: true_up.z, m13: Fx::zero(),
            m20: forward.x.neg(), m21: forward.y.neg(), m22: forward.z.neg(), m23: Fx::zero(),
            m30: Fx::zero(), m31: Fx::zero(), m32: Fx::zero(), m33: Fx::one(),
        },
    };
    orientation.mul(&translation(from.x.neg(), from.y.neg(), from.z.neg()))
}

/// Composes transforms so that each new operation applies after the ones
/// already accumulated: building translate, then rotate, then scale yields
/// the world-space order scale, rotate, translate.
#[derive(Clone, Copy, Debug)]
pub struct Builder {
    pub current: Transform,
}

impl Builder {
    pub fn new() -> (r: Builder)
        ensures
            r.current == identity_spec(),
            transform_wf(r.current),
    {
        Builder { current: Transform::identity() }
    }

    pub fn translation(self, x: Fx, y: Fx, z: Fx) -> (r: Builder)
        ensures
            r.current == transform_mul_spec(translation_spec(x, y, z), self.current),
            transform_wf(self.current) ==> transform_wf(r.current),
    {
        Builder { current: translation(x, y, z).mul(&self.current) }
    }

    pub fn scaling(self, x: Fx, y: Fx, z: Fx) -> (r: Builder)
        ensures
            r.current == transform_mul_spec(scaling_spec(x, y, z), self.current),
            transform_wf(self.current) ==> transform_wf(r.current),
    {
        Builder { current: scaling(x, y, z).mul(&self.current) }
    }

    pub fn rotation_x(self, r: Fx) -> (b: Builder)
        ensures
            b.current == transform_mul_spec(rotation_x_spec(r), self.current),
            transform_wf(self.current) ==> transform_wf(b.current),
    {
        Builder { current: rotation_x(r).mul(&self.current) }
    }

    pub fn rotation_y(self, r: Fx) -> (b: Builder)
        ensures
            b.current == transform_mul_spec(rotation_y_spec(r), self.current),
            transform_wf(self.current) ==> transform_wf(b.current),
    {
        Builder { current: rotation_y(r).mul(&self.current) }
    }

    pub fn rotation_z(self, r: Fx) -> (b: Builder)
        ensures
            b.current == transform_mul_spec(rotation_z_spec(r), self.current),
            transform_wf(self.current) ==> transform_wf(b.current),
    {
        Builder { current: rotation_z(r).mul(&self.current) }
    }

    pub fn shearing(
        self,
        x_by_y: Fx,
        x_by_z: Fx,
        y_by_x: Fx,
        y_by_z: Fx,
        z_by_x: Fx,
        z_by_y: Fx,
    ) -> (r: Builder)
        ensures
            r.current == transform_mul_spec(
                shearing_spec(x_by_y, x_by_z, y_by_x, y_by_z, z_by_x, z_by_y),
                self.current,
            ),
            transform_wf(self.current) ==> transform_wf(r.current),
    {
        Builder { current: shearing(x_by_y, x_by_z, y_by_x, y_by_z, z_by_x, z_by_y).mul(&self.current) }
    }

    pub fn transform(self) -> (r: Transform)
        ensures
            r == self.current,
    {
        self.current
    }
}

/// The cofactor inverse of a translation is exactly the opposite
/// translation: every product in the expansion has a factor of zero or one.
#[verifier::rlimit(100)]
pub proof fn translation_inverse_exact(x: Fx, y: Fx, z: Fx)
    requires
        abs_int(x.raw as int) <= MAX_RAW as int,
        abs_int(y.raw as int) <= MAX_RAW as int,
        abs_int(z.raw as int) <= MAX_RAW as int,
    ensures
        transform_inverse_spec(translation_spec(x, y, z)) == translation_spec(
            fx_neg(x),
            fx_neg(y),
            fx_neg(z),
        ),
{
    fx_unit_laws();
}

/// Round trip through a translation: applying a translation to a point and
/// then the translation's cofactor inverse returns the point exactly, as
/// long as no coordinate leaves the representable range on the way.
#[verifier::rlimit(100)]
pub proof fn translation_round_trip(x: Fx, y: Fx, z: Fx, p: Point)
    requires
        abs_int(x.raw as int) <= MAX_RAW as int,
        abs_int(y.raw as int) <= MAX_RAW as int,
        abs_int(z.raw as int) <= MAX_RAW as int,
        abs_int(p.x.raw as int) <= MAX_RAW as int,
        abs_int(p.y.raw as int) <= MAX_RAW as int,
        abs_int(p.z.raw as int) <= MAX_RAW as int,
        abs_int(p.x.raw + x.raw) <= MAX_RAW as int,
        abs_int(p.y.raw + y.raw) <= MAX_RAW as int,
        abs_int(p.z.raw + z.raw) <= MAX_RAW as int,
    ensures
        transform_point_spec(
            transform_inverse_spec(translation_spec(x, y, z)),
            transform_point_spec(translation_spec(x, y, z), p),
        ) == p,
{
    translation_inverse_exact(x, y, z);
    fx_unit_laws();
    let q = transform_point_spec(translation_spec(x, y, z), p);
    assert(q.x.raw == add_raw(p.x.raw as int, x.raw as int));
    assert(q.y.raw == add_raw(p.y.raw as int, y.raw as int));
    assert(q.z.raw == add_raw(p.z.raw as int, z.raw as int));
}

} // verus!
