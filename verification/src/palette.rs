//! The band colour mapper: a field's scalar is put into one of a fixed
//! number of bands, and each band has one fully saturated colour between
//! red (the first band) and blue (the last).

use crate::color::{black, hsv_color, hsv_to_rgb_fraction, lemma_levels, opaque, Rgba};
use vstd::prelude::*;

verus! {

/// Which scalar field a raster shows, and so how its scalars are banded.
#[derive(Clone, Copy, Debug, PartialEq, Eq)]
pub enum FieldKind {
    /// The scalar counts the iterations of an escape-time recurrence, from 0
    /// to `max_iterations`; the limit itself says that the point never escaped.
    EscapeTime { max_iterations: u32 },
    /// The scalar is the band that a density between 0 and 1 was rounded to.
    GaussianDensity,
}

/// The hue of a band as the fraction `.0 / .1` of degrees: the bands divide
/// the 240 degrees from red to blue evenly, and a single band is red.
pub open spec fn band_hue(band_index: int, bands: int) -> (int, int) {
    if bands > 1 {
        (240 * band_index, bands - 1)
    } else {
        (0, 1)
    }
}

/// The colour of a band: its hue at full saturation and value.
pub open spec fn band_color(band_index: int, bands: int) -> Seq<u8> {
    let hue = band_hue(band_index, bands);
    hsv_color(hue.0, hue.1, 255, 255)
}

/// The band of a scalar: an iteration count goes round the bands, a density
/// band is taken as it is.
pub open spec fn band_of(scalar: int, kind: FieldKind, bands: int) -> int {
    match kind {
        FieldKind::EscapeTime { .. } => scalar % bands,
        FieldKind::GaussianDensity => scalar,
    }
}

/// Whether the scalar says that the point belongs to the set, which is
/// drawn black: an iteration count that reached its limit.
pub open spec fn in_set(scalar: int, kind: FieldKind) -> bool {
    match kind {
        FieldKind::EscapeTime { max_iterations } => scalar == max_iterations,
        FieldKind::GaussianDensity => false,
    }
}

/// The colour of a scalar of the given field with the given number of bands.
pub open spec fn field_color(scalar: int, kind: FieldKind, bands: int) -> Seq<u8> {
    if in_set(scalar, kind) {
        black()
    } else {
        band_color(band_of(scalar, kind, bands), bands)
    }
}

/// The hue of a band lies between red, at 0 degrees, and blue, at 240.
pub proof fn lemma_band_hue_range(band_index: int, bands: int)
    requires
        0 <= band_index < bands,
    ensures
        band_hue(band_index, bands).1 > 0,
        0 <= band_hue(band_index, bands).0 <= 240 * band_hue(band_index, bands).1,
{
}

/// The first band is red, and so is every band where there is only one.
pub proof fn lemma_first_band_is_red(band_index: int, bands: int)
    requires
        0 <= band_index,
        1 <= bands,
        band_index == 0 || bands == 1,
    ensures
        band_color(band_index, bands) == opaque(255, 0, 0),
{
    let hue = band_hue(band_index, bands);
    assert(hue.0 == 0);
    lemma_levels(hue.0, hue.1, 255, 255);
    assert(0int / (60 * hue.1) == 0) by (nonlinear_arith)
        requires
            0 < hue.1,
    ;
    assert(0int % (60 * hue.1) == 0) by (nonlinear_arith)
        requires
            0 < hue.1,
    ;
    assert(255 * (255 * (60 * hue.1) - 255 * (60 * hue.1 - 0)) == 0) by (nonlinear_arith);
    assert(0int / (255 * (60 * hue.1)) == 0) by (nonlinear_arith)
        requires
            0 < hue.1,
    ;
    assert(band_color(band_index, bands) =~= opaque(255, 0, 0));
}

/// Where there are two bands or more, the last one is blue.
pub proof fn lemma_last_band_is_blue(bands: int)
    requires
        2 <= bands,
    ensures
        band_color(bands - 1, bands) == opaque(0, 0, 255),
{
    let den = bands - 1;
    let span = 60 * den;
    assert((240 * den) / span == 4 && (240 * den) % span == 0) by (nonlinear_arith)
        requires
            span == 60 * den,
            0 < den,
    ;
    lemma_levels(240 * den, den, 255, 255);
    assert(255 * (255 * span - 255 * (span - 0)) == 0) by (nonlinear_arith);
    assert(0int / (255 * span) == 0) by (nonlinear_arith)
        requires
            0 < span,
    ;
    assert(band_color(bands - 1, bands) =~= opaque(0, 0, 255));
}

/// The colour of one band out of `bands`.
pub fn band_to_color(band_index: u32, bands: u32) -> (color: Rgba)
    requires
        bands >= 1,
    ensures
        color@ == band_color(band_index as int, bands as int),
{
    if bands > 1 {
        hsv_to_rgb_fraction(240 * (band_index as u64), bands - 1, 255, 255)
    } else {
        hsv_to_rgb_fraction(0, 1, 255, 255)
    }
}

/// The colour of a field's scalar. A point of the set is black; any other
/// scalar has the colour of its band.
pub fn to_color(scalar: u32, kind: FieldKind, bands: u32) -> (color: Rgba)
    requires
        bands >= 1,
    ensures
        color@ == field_color(scalar as int, kind, bands as int),
        bands == 1 && !in_set(scalar as int, kind) ==> color@ == opaque(255, 0, 0),
{
    proof {
        if bands == 1 && !in_set(scalar as int, kind) {
            lemma_first_band_is_red(band_of(scalar as int, kind, bands as int), bands as int);
        }
    }
    match kind {
        FieldKind::EscapeTime { max_iterations } => {
            if scalar == max_iterations {
                let color = Rgba([0, 0, 0, 255]);
                assert(color@ =~= black());
                color
            } else {
                band_to_color(scalar % bands, bands)
            }
        },
        FieldKind::GaussianDensity => band_to_color(scalar, bands),
    }
}

} // verus!
