//! The camera: derives per-pixel rays from a field of view and a view
//! transform, and drives the per-pixel rendering of a scene into a canvas.

use vstd::prelude::*;

use crate::canvas::{Canvas, Color, PixelOutOfBoundsError};
use crate::fx::{fx, fx_div, fx_mul, fx_neg, fx_sub, fx_whole, tan_spec, Fx, HALF_SCALE, SCALE};
use crate::matrices::{
    det4_spec, identity_inverse_exact, identity_spec, transform_inverse_spec, transform_point_spec,
    Transform,
};
pub use crate::matrices::NoInverseError;
use crate::rays::Ray;
use crate::tuples::{normalize_spec, point_sub_point, Point};
use crate::world::{color_from_spec, World, RECURSION_DEPTH};

verus! {

/// A camera with its derived view geometry: half extents of the image
/// plane one unit in front of the eye, and the world-space size of a
/// pixel.
#[derive(Clone, Debug)]
pub struct Camera {
    pub hsize: usize,
    pub vsize: usize,
    pub field_of_view: Fx,
    pub transform: Transform,
    pub inverse: Transform,
    pub half_width: Fx,
    pub half_height: Fx,
    pub pixel_size: Fx,
}

/// The derived view geometry: the wider direction of the image spans
/// `tan(fov / 2)` on each side of the axis, the other direction scales by
/// the aspect ratio, and a pixel is the width divided into `hsize` steps.
pub open spec fn camera_new_spec(hsize: usize, vsize: usize, field_of_view: Fx) -> Camera {
    let half_view = tan_spec(fx_div(field_of_view, fx_whole(2)));
    let aspect = fx_div(fx_whole(hsize as int), fx_whole(vsize as int));
    let half_width = if aspect.raw >= SCALE {
        half_view
    } else {
        fx_mul(half_view, aspect)
    };
    let half_height = if aspect.raw >= SCALE {
        fx_div(half_view, aspect)
    } else {
        half_view
    };
    Camera {
        hsize,
        vsize,
        field_of_view,
        transform: identity_spec(),
        inverse: identity_spec(),
        half_width,
        half_height,
        pixel_size: fx_div(fx_mul(half_width, fx_whole(2)), fx_whole(hsize as int)),
    }
}

/// The ray through the center of pixel `(x, y)`: both the pixel's point on
/// the plane `z = -1` and the eye pass through the camera's inverse
/// transform into world space.
pub open spec fn ray_for_pixel_spec(c: Camera, x: int, y: int) -> Ray {
    let xoffset = fx_mul(fx(crate::fx::add_raw(crate::fx::clamped(x * SCALE), HALF_SCALE as int)), c.pixel_size);
    let yoffset = fx_mul(fx(crate::fx::add_raw(crate::fx::clamped(y * SCALE), HALF_SCALE as int)), c.pixel_size);
    let world_x = fx_sub(c.half_width, xoffset);
    let world_y = fx_sub(c.half_height, yoffset);
    let pixel = transform_point_spec(
        c.inverse,
        Point { x: world_x, y: world_y, z: fx_neg(fx(SCALE as int)) },
    );
    let origin = transform_point_spec(c.inverse, Point { x: fx(0), y: fx(0), z: fx(0) });
    Ray { origin, direction: normalize_spec(point_sub_point(pixel, origin)) }
}

impl Camera {
    /// A camera at the identity transform. The sizes are bounded so that
    /// every pixel coordinate converts exactly.
    pub fn new(hsize: usize, vsize: usize, field_of_view: Fx) -> (r: Camera)
        requires
            hsize <= 4294967295,
            vsize <= 4294967295,
        ensures
            r == camera_new_spec(hsize, vsize, field_of_view),
    {
        let half_view = field_of_view.div(Fx::from_units(2)).tan();
        let aspect = Fx::from_units(hsize as i64).div(Fx::from_units(vsize as i64));
        let half_width;
        let half_height;
        if aspect.raw >= SCALE {
            half_width = half_view;
            half_height = half_view.div(aspect);
        } else {
            half_width = half_view.mul(aspect);
            half_height = half_view;
        }
        let pixel_size = half_width.mul(Fx::from_units(2)).div(Fx::from_units(hsize as i64));
        Camera {
            hsize,
            vsize,
            field_of_view,
            transform: Transform::identity(),
            inverse: Transform::identity(),
            half_width,
            half_height,
            pixel_size,
        }
    }

    /// Replaces the transform, recomputing the cached inverse, or rejects a
    /// singular transform and leaves the camera unchanged.
    pub fn set_transform(&mut self, transform: Transform) -> (r: Result<(), NoInverseError>)
        ensures
            det4_spec(transform.matrix).raw != 0 ==> r == Ok::<(), NoInverseError>(())
                && *final(self) == (Camera {
                transform,
                inverse: transform_inverse_spec(transform),
                ..*old(self)
            }),
            det4_spec(transform.matrix).raw == 0 ==> r == Err::<(), NoInverseError>(NoInverseError)
                && *final(self) == *old(self),
    {
        match transform.inverse() {
            Some(inverse) => {
                self.transform = transform;
                self.inverse = inverse;
                Ok(())
            },
            None => Err(NoInverseError),
        }
    }

    /// The ray through the center of pixel `(x, y)`; rejected outside the
    /// image.
    pub fn ray_for_pixel(&self, x: usize, y: usize) -> (r: Result<Ray, PixelOutOfBoundsError>)
        requires
            self.hsize <= 4294967295,
            self.vsize <= 4294967295,
        ensures
            x < self.hsize && y < self.vsize ==> r == Ok::<Ray, PixelOutOfBoundsError>(
                ray_for_pixel_spec(*self, x as int, y as int),
            ),
            !(x < self.hsize && y < self.vsize) ==> r == Err::<Ray, PixelOutOfBoundsError>(
                PixelOutOfBoundsError,
            ),
    {
        if x >= self.hsize || y >= self.vsize {
            return Err(PixelOutOfBoundsError);
        }
        let xoffset = Fx::from_units(x as i64).add(Fx::from_raw(HALF_SCALE)).mul(self.pixel_size);
        let yoffset = Fx::from_units(y as i64).add(Fx::from_raw(HALF_SCALE)).mul(self.pixel_size);
        let world_x = self.half_width.sub(xoffset);
        let world_y = self.half_height.sub(yoffset);
        let pixel = self.inverse.mul_point(
            Point::new(world_x, world_y, Fx::from_units(1).neg()),
        );
        let origin = self.inverse.mul_point(Point::new(Fx::zero(), Fx::zero(), Fx::zero()));
        let direction = pixel.sub(origin).normalize();
        Ok(Ray::new(origin, direction))
    }

    /// Renders the scene: one ray through each pixel's center, shaded with
    /// the full recursion budget, written at that pixel.
    pub fn render(&self, world: &World) -> (r: Canvas)
        requires
            self.hsize <= 4294967295,
            self.vsize <= 4294967295,
            self.hsize * self.vsize <= usize::MAX,
        ensures
            r.wf(),
            r.spec_width() == self.hsize,
            r.spec_height() == self.vsize,
            forall|x: int, y: int|
                0 <= x < self.hsize && 0 <= y < self.vsize ==> r.pixel(x, y) == color_from_spec(
                    *world,
                    ray_for_pixel_spec(*self, x, y),
                    RECURSION_DEPTH as nat,
                ),
    {
        let mut image = Canvas::new(self.hsize, self.vsize);
        let mut y: usize = 0;
        while y < self.vsize
            invariant
                y <= self.vsize,
                self.hsize <= 4294967295,
                self.vsize <= 4294967295,
                image.wf(),
                image.spec_width() == self.hsize,
                image.spec_height() == self.vsize,
                forall|i: int, j: int|
                    0 <= i < self.hsize && 0 <= j < y ==> image.pixel(i, j) == color_from_spec(
                        *world,
                        ray_for_pixel_spec(*self, i, j),
                        RECURSION_DEPTH as nat,
                    ),
            decreases self.vsize - y,
        {
            let mut x: usize = 0;
            while x < self.hsize
                invariant
                    x <= self.hsize,
                    y < self.vsize,
                    self.hsize <= 4294967295,
                    self.vsize <= 4294967295,
                    image.wf(),
                    image.spec_width() == self.hsize,
                    image.spec_height() == self.vsize,
                    forall|i: int, j: int|
                        0 <= i < self.hsize && 0 <= j < y ==> image.pixel(i, j) == color_from_spec(
                            *world,
                            ray_for_pixel_spec(*self, i, j),
                            RECURSION_DEPTH as nat,
                        ),
                    forall|i: int|
                        0 <= i < x ==> image.pixel(i, y as int) == color_from_spec(
                            *world,
                            ray_for_pixel_spec(*self, i, y as int),
                            RECURSION_DEPTH as nat,
                        ),
                decreases self.hsize - x,
            {
                let ray = match self.ray_for_pixel(x, y) {
                    Ok(ray) => ray,
                    Err(_) => Ray::new(
                        Point::new(Fx::zero(), Fx::zero(), Fx::zero()),
                        crate::tuples::Vector::new(Fx::zero(), Fx::zero(), Fx::zero()),
                    ),
                };
                let color = world.color_from(&ray, RECURSION_DEPTH);
                let _ = image.write_pixel(x, y, color);
                x = x + 1;
            }
            y = y + 1;
        }
        image
    }
}

} // verus!
