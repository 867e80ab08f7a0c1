//! The frame renderer: every pixel of a canvas gets the colour of the
//! scalar that the field has there.
//!
//! How a pixel's position becomes a point of the plane, and what the field
//! is at that point, is the sampler's business; the renderer takes the scalar
//! it hands back.

use crate::canvas::{canvas_pixels, canvas_size, Canvas};
use crate::palette::{field_color, to_color, FieldKind};
use vstd::prelude::*;

verus! {

/// Whether `pixel` is the colour of a scalar that the sampler may return for
/// column `x`, row `y`.
pub open spec fn shows_sample<F: Fn(u32, u32) -> u32>(
    sample: F,
    kind: FieldKind,
    bands: u32,
    x: u32,
    y: u32,
    pixel: Seq<u8>,
) -> bool {
    exists|scalar: u32| #[trigger]
        call_ensures(sample, (x, y), scalar) && pixel == field_color(
            scalar as int,
            kind,
            bands as int,
        )
}

/// Whether every pixel of the canvas, `width` by `height`, shows the field
/// as the sampler gives it.
pub open spec fn shows_field<F: Fn(u32, u32) -> u32>(
    canvas: Canvas,
    width: u32,
    height: u32,
    kind: FieldKind,
    bands: u32,
    sample: F,
) -> bool {
    &&& canvas_size(canvas) == (width as nat, height as nat)
    &&& forall|x: u32, y: u32|
        x < width && y < height ==> #[trigger] shows_sample(
            sample,
            kind,
            bands,
            x,
            y,
            canvas_pixels(canvas)[(x as int, y as int)],
        )
}

/// Renders one frame: asks the sampler for the scalar of every pixel, row by
/// row, and draws the pixel in the colour of that scalar.
pub fn render<F: Fn(u32, u32) -> u32>(
    width: u32,
    height: u32,
    kind: FieldKind,
    bands: u32,
    sample: F,
) -> (canvas: Canvas)
    requires
        bands >= 1,
        4 * width * height <= isize::MAX,
        forall|x: u32, y: u32| x < width && y < height ==> call_requires(sample, (x, y)),
    ensures
        shows_field(canvas, width, height, kind, bands, sample),
{
    let mut canvas = Canvas::blank(width, height);
    let mut y: u32 = 0;
    while y < height
        invariant
            bands >= 1,
            y <= height,
            canvas_size(canvas) == (width as nat, height as nat),
            forall|x: u32, y: u32| x < width && y < height ==> call_requires(sample, (x, y)),
            forall|i: u32, j: u32|
                i < width && j < y ==> #[trigger] shows_sample(
                    sample,
                    kind,
                    bands,
                    i,
                    j,
                    canvas_pixels(canvas)[(i as int, j as int)],
                ),
        decreases height - y,
    {
        let mut x: u32 = 0;
        while x < width
            invariant
                bands >= 1,
                y < height,
                x <= width,
                canvas_size(canvas) == (width as nat, height as nat),
                forall|x: u32, y: u32| x < width && y < height ==> call_requires(sample, (x, y)),
                forall|i: u32, j: u32|
                    i < width && (j < y || (j == y && i < x)) ==> #[trigger] shows_sample(
                        sample,
                        kind,
                        bands,
                        i,
                        j,
                        canvas_pixels(canvas)[(i as int, j as int)],
                    ),
            decreases width - x,
        {
            let scalar = sample(x, y);
            let color = to_color(scalar, kind, bands);
            let ghost before = canvas;
            let drawn = canvas.set_pixel(x, y, color);
            assert(drawn);
            assert forall|i: u32, j: u32|
                i < width && (j < y || (j == y && i < x + 1)) implies #[trigger] shows_sample(
                sample,
                kind,
                bands,
                i,
                j,
                canvas_pixels(canvas)[(i as int, j as int)],
            ) by {
                if i != x || j != y {
                    assert(shows_sample(
                        sample,
                        kind,
                        bands,
                        i,
                        j,
                        canvas_pixels(before)[(i as int, j as int)],
                    ));
                }
            }
            x = x + 1;
        }
        y = y + 1;
    }
    canvas
}

/// Renders an escape-time field: a pixel whose count reached
/// `max_iterations` is black, any other has the colour of its count's band.
pub fn generate_mandelbrot<F: Fn(u32, u32) -> u32>(
    width: u32,
    height: u32,
    max_iterations: u32,
    bands: u32,
    escape_count: F,
) -> (canvas: Canvas)
    requires
        bands >= 1,
        4 * width * height <= isize::MAX,
        forall|x: u32, y: u32| x < width && y < height ==> call_requires(escape_count, (x, y)),
    ensures
        shows_field(
            canvas,
            width,
            height,
            FieldKind::EscapeTime { max_iterations },
            bands,
            escape_count,
        ),
{
    render(width, height, FieldKind::EscapeTime { max_iterations }, bands, escape_count)
}

/// Renders a Gaussian density field: every pixel has the colour of the band
/// that its density was rounded to.
pub fn generate_schrodinger<F: Fn(u32, u32) -> u32>(
    width: u32,
    height: u32,
    bands: u32,
    density_band: F,
) -> (canvas: Canvas)
    requires
        bands >= 1,
        4 * width * height <= isize::MAX,
        forall|x: u32, y: u32| x < width && y < height ==> call_requires(density_band, (x, y)),
    ensures
        shows_field(canvas, width, height, FieldKind::GaussianDensity, bands, density_band),
{
    render(width, height, FieldKind::GaussianDensity, bands, density_band)
}

} // verus!
