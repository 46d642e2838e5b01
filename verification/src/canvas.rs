//! Colors and the pixel grid a rendering writes into.
//!
//! Serialization of the grid to an image file is left to callers; the
//! library only fills and reads pixels.

use vstd::prelude::*;

use crate::fx::{fx, fx_add, fx_mul, fx_near, fx_sub, Fx, SCALE};

verus! {

/// An RGB color; channel values are nominally in `[0, 1]` but are not
/// clamped until an image is serialized.
#[derive(Clone, Copy, Debug)]
pub struct Color {
    pub red: Fx,
    pub green: Fx,
    pub blue: Fx,
}

pub open spec fn color_add(a: Color, b: Color) -> Color {
    Color { red: fx_add(a.red, b.red), green: fx_add(a.green, b.green), blue: fx_add(a.blue, b.blue) }
}

pub open spec fn color_sub(a: Color, b: Color) -> Color {
    Color { red: fx_sub(a.red, b.red), green: fx_sub(a.green, b.green), blue: fx_sub(a.blue, b.blue) }
}

pub open spec fn color_scale(c: Color, s: Fx) -> Color {
    Color { red: fx_mul(c.red, s), green: fx_mul(c.green, s), blue: fx_mul(c.blue, s) }
}

/// The Hadamard product, used to filter one color through another.
pub open spec fn color_mul(a: Color, b: Color) -> Color {
    Color { red: fx_mul(a.red, b.red), green: fx_mul(a.green, b.green), blue: fx_mul(a.blue, b.blue) }
}

pub open spec fn color_near(a: Color, b: Color) -> bool {
    fx_near(a.red, b.red) && fx_near(a.green, b.green) && fx_near(a.blue, b.blue)
}

pub open spec fn black() -> Color {
    Color { red: fx(0), green: fx(0), blue: fx(0) }
}

pub open spec fn white() -> Color {
    Color { red: fx(SCALE as int), green: fx(SCALE as int), blue: fx(SCALE as int) }
}

impl Color {
    pub fn new(red: Fx, green: Fx, blue: Fx) -> (r: Color)
        ensures
            r == (Color { red, green, blue }),
    {
        Color { red, green, blue }
    }

    pub fn black() -> (r: Color)
        ensures
            r == black(),
    {
        Color { red: Fx::zero(), green: Fx::zero(), blue: Fx::zero() }
    }

    pub fn white() -> (r: Color)
        ensures
            r == white(),
    {
        Color { red: Fx::one(), green: Fx::one(), blue: Fx::one() }
    }

    pub fn add(self, rhs: Color) -> (r: Color)
        ensures
            r == color_add(self, rhs),
    {
        Color {
            red: self.red.add(rhs.red),
            green: self.green.add(rhs.green),
            blue: self.blue.add(rhs.blue),
        }
    }

    pub fn sub(self, rhs: Color) -> (r: Color)
        ensures
            r == color_sub(self, rhs),
    {
        Color {
            red: self.red.sub(rhs.red),
            green: self.green.sub(rhs.green),
            blue: self.blue.sub(rhs.blue),
        }
    }

    pub fn scale(self, s: Fx) -> (r: Color)
        ensures
            r == color_scale(self, s),
    {
        Color { red: self.red.mul(s), green: self.green.mul(s), blue: self.blue.mul(s) }
    }

    pub fn mul(self, rhs: Color) -> (r: Color)
        ensures
            r == color_mul(self, rhs),
    {
        Color {
            red: self.red.mul(rhs.red),
            green: self.green.mul(rhs.green),
            blue: self.blue.mul(rhs.blue),
        }
    }

    pub fn approx_eq(self, rhs: Color) -> (r: bool)
        ensures
            r == color_near(self, rhs),
    {
        self.red.approx_eq(rhs.red) && self.green.approx_eq(rhs.green)
            && self.blue.approx_eq(rhs.blue)
    }
}

impl PartialEq for Color {
    /// Equality is epsilon-tolerant, channelwise.
    fn eq(&self, other: &Self) -> (r: bool) {
        self.approx_eq(*other)
    }
}

impl vstd::std_specs::cmp::PartialEqSpecImpl for Color {
    open spec fn obeys_eq_spec() -> bool {
        true
    }

    open spec fn eq_spec(&self, other: &Color) -> bool {
        color_near(*self, *other)
    }
}

/// Raised when a pixel is addressed outside the canvas.
#[derive(Clone, Copy, Debug, PartialEq, Eq, Structural)]
pub struct PixelOutOfBoundsError;

/// A row-major grid of pixels, all black at creation.
#[derive(Clone, Debug)]
pub struct Canvas {
    pub width: usize,
    pub height: usize,
    pub pixels: Vec<Color>,
}

impl Canvas {
    pub open spec fn wf(&self) -> bool {
        self.pixels@.len() == self.width * self.height && self.width * self.height <= usize::MAX
    }

    pub open spec fn spec_width(&self) -> usize {
        self.width
    }

    pub open spec fn spec_height(&self) -> usize {
        self.height
    }

    /// The pixel at `(x, y)`, for in-range coordinates.
    pub open spec fn pixel(&self, x: int, y: int) -> Color {
        self.pixels@[y * self.width + x]
    }

    pub fn new(width: usize, height: usize) -> (r: Canvas)
        requires
            width * height <= usize::MAX,
        ensures
            r.wf(),
            r.spec_width() == width,
            r.spec_height() == height,
            forall|x: int, y: int|
                0 <= x < width && 0 <= y < height ==> r.pixel(x, y) == black(),
    {
        let n = width * height;
        let mut pixels: Vec<Color> = Vec::new();
        let mut i: usize = 0;
        while i < n
            invariant
                i <= n,
                pixels@.len() == i,
                forall|k: int| 0 <= k < i ==> pixels@[k] == black(),
            decreases n - i,
        {
            pixels.push(Color::black());
            i = i + 1;
        }
        let r = Canvas { width, height, pixels };
        proof {
            assert forall|x: int, y: int|
                0 <= x < width && 0 <= y < height implies r.pixel(x, y) == black() by {
                assert(0 <= y * width + x < width * height) by (nonlinear_arith)
                    requires
                        0 <= x < width as int,
                        0 <= y < height as int,
                ;
            }
        }
        r
    }

    pub fn width(&self) -> (r: usize)
        ensures
            r == self.spec_width(),
    {
        self.width
    }

    pub fn height(&self) -> (r: usize)
        ensures
            r == self.spec_height(),
    {
        self.height
    }

    pub fn pixel_at(&self, x: usize, y: usize) -> (r: Result<Color, PixelOutOfBoundsError>)
        requires
            self.wf(),
        ensures
            x < self.spec_width() && y < self.spec_height() ==> r == Ok::<Color, PixelOutOfBoundsError>(
                self.pixel(x as int, y as int),
            ),
            !(x < self.spec_width() && y < self.spec_height()) ==> r == Err::<Color, PixelOutOfBoundsError>(
                PixelOutOfBoundsError,
            ),
    {
        if x >= self.width || y >= self.height {
            Err(PixelOutOfBoundsError)
        } else {
            proof {
                assert(0 <= y * self.width + x < self.width * self.height) by (nonlinear_arith)
                    requires
                        0 <= (x as int) < self.width as int,
                        0 <= (y as int) < self.height as int,
                ;
            }
            Ok(self.pixels[y * self.width + x])
        }
    }

    pub fn write_pixel(&mut self, x: usize, y: usize, color: Color) -> (r: Result<
        (),
        PixelOutOfBoundsError,
    >)
        requires
            old(self).wf(),
        ensures
            final(self).wf(),
            final(self).spec_width() == old(self).spec_width(),
            final(self).spec_height() == old(self).spec_height(),
            x < old(self).spec_width() && y < old(self).spec_height() ==> r == Ok::<
                (),
                PixelOutOfBoundsError,
            >(()) && final(self).pixel(x as int, y as int) == color && forall|i: int, j: int|
                0 <= i < old(self).spec_width() && 0 <= j < old(self).spec_height() && !(i == x
                    && j == y) ==> final(self).pixel(i, j) == old(self).pixel(i, j),
            !(x < old(self).spec_width() && y < old(self).spec_height()) ==> r == Err::<
                (),
                PixelOutOfBoundsError,
            >(PixelOutOfBoundsError) && *final(self) == *old(self),
    {
        if x >= self.width || y >= self.height {
            Err(PixelOutOfBoundsError)
        } else {
            proof {
                assert(0 <= y * self.width + x < self.width * self.height) by (nonlinear_arith)
                    requires
                        0 <= (x as int) < self.width as int,
                        0 <= (y as int) < self.height as int,
                ;
            }
            self.pixels.set(y * self.width + x, color);
            proof {
                assert forall|i: int, j: int|
                    0 <= i < self.width && 0 <= j < self.height && !(i == x && j == y) implies self
                    .pixel(i, j) == old(self).pixel(i, j) by {
                    assert(j * self.width + i != y * self.width + x && 0 <= j * self.width + i
                        < self.width * self.height) by (nonlinear_arith)
                        requires
                            0 <= i < self.width as int,
                            0 <= j < self.height as int,
                            0 <= (x as int) < self.width as int,
                            0 <= (y as int) < self.height as int,
                            !(i == x as int && j == y as int),
                    ;
                }
            }
            Ok(())
        }
    }
}

} // verus!
