//! The raster that a frame is drawn on: a buffer of the `image` crate,
//! reached through a handful of its methods.

use crate::color::Rgba;
use vstd::prelude::*;

verus! {

/// A raster of RGBA pixels, `width` columns by `height` rows. It is an
/// `image::RgbaImage`, of which nothing is known here but what the four
/// functions `buffer_new`, `buffer_dimensions`, `buffer_get_pixel` and
/// `buffer_put_pixel` say of it.
#[verifier::external_body]
pub struct Canvas {
    buffer: image::RgbaImage,
}

/// The width and the height of a canvas, in pixels.
pub uninterp spec fn canvas_size(canvas: Canvas) -> (nat, nat);

/// What a canvas holds: the four channels of the pixel at each column and
/// row inside its bounds.
pub uninterp spec fn canvas_pixels(canvas: Canvas) -> Map<(int, int), Seq<u8>>;

/// Whether column `x`, row `y` lies on a raster of the given size.
pub open spec fn in_bounds(size: (nat, nat), x: int, y: int) -> bool {
    0 <= x < size.0 && 0 <= y < size.1
}

/// A pixel that was never drawn: all four channels are 0.
pub open spec fn blank_pixel() -> Seq<u8> {
    seq![0u8, 0u8, 0u8, 0u8]
}

/// `image::ImageBuffer::new`: a buffer of the given size whose samples are
/// all zero. The call panics where the samples would not fit in a vector, which
/// the precondition leaves out.
#[verifier::external_body]
fn buffer_new(width: u32, height: u32) -> (canvas: Canvas)
    requires
        4 * width * height <= isize::MAX,
    ensures
        canvas_size(canvas) == (width as nat, height as nat),
        forall|x: int, y: int|
            in_bounds(canvas_size(canvas), x, y) ==> #[trigger] canvas_pixels(canvas)[(x, y)]
                == blank_pixel(),
{
    Canvas { buffer: image::ImageBuffer::new(width, height) }
}

/// `image::ImageBuffer::dimensions`: the width and height the buffer was
/// made with.
#[verifier::external_body]
fn buffer_dimensions(canvas: &Canvas) -> (size: (u32, u32))
    ensures
        size.0 == canvas_size(*canvas).0,
        size.1 == canvas_size(*canvas).1,
{
    canvas.buffer.dimensions()
}

/// `image::ImageBuffer::get_pixel`: the pixel at a position inside the
/// bounds. Outside them the call panics, which the precondition leaves out.
#[verifier::external_body]
fn buffer_get_pixel(canvas: &Canvas, x: u32, y: u32) -> (color: Rgba)
    requires
        in_bounds(canvas_size(*canvas), x as int, y as int),
    ensures
        color@ == canvas_pixels(*canvas)[(x as int, y as int)],
{
    Rgba(canvas.buffer.get_pixel(x, y).0)
}

/// `image::ImageBuffer::put_pixel`: overwrites the pixel at a position inside
/// the bounds and leaves the size and every other pixel as they were. Outside
/// the bounds the call panics, which the precondition leaves out.
#[verifier::external_body]
fn buffer_put_pixel(canvas: &mut Canvas, x: u32, y: u32, color: Rgba)
    requires
        in_bounds(canvas_size(*old(canvas)), x as int, y as int),
    ensures
        canvas_size(*final(canvas)) == canvas_size(*old(canvas)),
        canvas_pixels(*final(canvas)) == canvas_pixels(*old(canvas)).insert(
            (x as int, y as int),
            color@,
        ),
{
    canvas.buffer.put_pixel(x, y, image::Rgba(color.0))
}

impl Canvas {
    /// A canvas of the given size on which nothing is drawn yet.
    pub fn blank(width: u32, height: u32) -> (canvas: Canvas)
        requires
            4 * width * height <= isize::MAX,
        ensures
            canvas_size(canvas) == (width as nat, height as nat),
            forall|x: int, y: int|
                in_bounds(canvas_size(canvas), x, y) ==> #[trigger] canvas_pixels(canvas)[(x, y)]
                    == blank_pixel(),
    {
        buffer_new(width, height)
    }

    /// The number of columns.
    pub fn width(&self) -> (width: u32)
        ensures
            width == canvas_size(*self).0,
    {
        buffer_dimensions(self).0
    }

    /// The number of rows.
    pub fn height(&self) -> (height: u32)
        ensures
            height == canvas_size(*self).1,
    {
        buffer_dimensions(self).1
    }

    /// The pixel at column `x`, row `y`, or `None` outside the canvas.
    pub fn pixel(&self, x: u32, y: u32) -> (found: Option<Rgba>)
        ensures
            found is Some <==> in_bounds(canvas_size(*self), x as int, y as int),
            found matches Some(color) ==> color@ == canvas_pixels(*self)[(x as int, y as int)],
    {
        let size = buffer_dimensions(self);
        if x < size.0 && y < size.1 {
            Some(buffer_get_pixel(self, x, y))
        } else {
            None
        }
    }

    /// Draws one pixel at column `x`, row `y`. Outside the canvas nothing is
    /// drawn; the result says whether the position was inside.
    pub fn set_pixel(&mut self, x: u32, y: u32, color: Rgba) -> (drawn: bool)
        ensures
            drawn <==> in_bounds(canvas_size(*old(self)), x as int, y as int),
            canvas_size(*final(self)) == canvas_size(*old(self)),
            drawn ==> canvas_pixels(*final(self)) == canvas_pixels(*old(self)).insert(
                (x as int, y as int),
                color@,
            ),
            !drawn ==> canvas_pixels(*final(self)) == canvas_pixels(*old(self)),
    {
        let size = buffer_dimensions(self);
        if x < size.0 && y < size.1 {
            buffer_put_pixel(self, x, y, color);
            true
        } else {
            false
        }
    }
}

} // verus!
