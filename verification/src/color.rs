//! Colours and the six-sector conversion from hue, saturation and value.
//!
//! A hue is an exact fraction of degrees, so that a band boundary never
//! depends on rounding: every channel is the floor of its rational value.

use vstd::prelude::*;

verus! {

/// A pixel colour: red, green, blue and alpha, one byte each.
#[derive(Clone, Copy, Debug, PartialEq, Eq)]
pub struct Rgba(pub [u8; 4]);

impl View for Rgba {
    type V = Seq<u8>;

    /// The four channels in the order red, green, blue, alpha.
    open spec fn view(&self) -> Seq<u8> {
        self.0@
    }
}

/// Opaque black.
pub open spec fn black() -> Seq<u8> {
    seq![0u8, 0u8, 0u8, 255u8]
}

/// The opaque colour with the given red, green and blue levels.
pub open spec fn opaque(red: int, green: int, blue: int) -> Seq<u8> {
    seq![red as u8, green as u8, blue as u8, 255u8]
}

/// `value * part / whole`, rounded down: the level that is the fraction
/// `part / whole` of `value`.
pub open spec fn scaled(value: int, part: int, whole: int) -> int {
    value * part / whole
}

/// The width of one hue sector, in units of `1 / den` degrees.
pub open spec fn sector_span(den: int) -> int {
    60 * den
}

/// The sector, from 0 to 5, that holds the hue `num / den` degrees.
pub open spec fn hue_sector(num: int, den: int) -> int {
    (num / sector_span(den)) % 6
}

/// How far the hue `num / den` lies into its sector, in units of `1 / den`
/// degrees: the fractional part `f` of `hue / 60` is this over `sector_span(den)`.
pub open spec fn hue_offset(num: int, den: int) -> int {
    num % sector_span(den)
}

/// The channel `p = v * (255 - s) / 255`.
pub open spec fn level_p(s: int, v: int) -> int {
    scaled(v, 255 - s, 255)
}

/// The channel `q = v * (255 - s * f) / 255`.
pub open spec fn level_q(num: int, den: int, s: int, v: int) -> int {
    scaled(v, 255 * sector_span(den) - s * hue_offset(num, den), 255 * sector_span(den))
}

/// The channel `t = v * (255 - s * (1 - f)) / 255`.
pub open spec fn level_t(num: int, den: int, s: int, v: int) -> int {
    scaled(
        v,
        255 * sector_span(den) - s * (sector_span(den) - hue_offset(num, den)),
        255 * sector_span(den),
    )
}

/// The colour of hue `num / den` degrees at saturation `s` and value `v`,
/// both on the scale 0 to 255.
pub open spec fn hsv_color(num: int, den: int, s: int, v: int) -> Seq<u8> {
    let p = level_p(s, v);
    let q = level_q(num, den, s, v);
    let t = level_t(num, den, s, v);
    let sector = hue_sector(num, den);
    if sector == 0 {
        opaque(v, t, p)
    } else if sector == 1 {
        opaque(q, v, p)
    } else if sector == 2 {
        opaque(p, v, t)
    } else if sector == 3 {
        opaque(p, q, v)
    } else if sector == 4 {
        opaque(t, p, v)
    } else {
        opaque(v, p, q)
    }
}

/// A fraction of a level is a level: it lies between 0 and the value.
pub proof fn lemma_scaled_bounds(value: int, part: int, whole: int)
    requires
        0 <= value,
        0 <= part <= whole,
        0 < whole,
    ensures
        0 <= scaled(value, part, whole) <= value,
        part == whole ==> scaled(value, part, whole) == value,
        value == 0 ==> scaled(value, part, whole) == 0,
{
    assert(0 <= value * part <= value * whole) by (nonlinear_arith)
        requires
            0 <= value,
            0 <= part <= whole,
    ;
    assert(0 <= value * part / whole <= value) by (nonlinear_arith)
        requires
            0 <= value * part <= value * whole,
            0 < whole,
    ;
    if part == whole {
        assert(value * whole / whole == value) by (nonlinear_arith)
            requires
                0 < whole,
        ;
    }
    if value == 0 {
        assert(0 * part == 0) by (nonlinear_arith);
    }
}

/// The three channel levels of a colour lie between 0 and its value; they
/// are all 0 at value 0, and all equal to the value at saturation 0.
pub proof fn lemma_levels(num: int, den: int, s: int, v: int)
    requires
        0 <= num,
        0 < den,
        0 <= s <= 255,
        0 <= v <= 255,
    ensures
        0 <= hue_sector(num, den) < 6,
        0 <= hue_offset(num, den) < sector_span(den),
        0 <= level_p(s, v) <= v,
        0 <= level_q(num, den, s, v) <= v,
        0 <= level_t(num, den, s, v) <= v,
        v == 0 ==> level_p(s, v) == 0 && level_q(num, den, s, v) == 0 && level_t(num, den, s, v)
            == 0,
        s == 0 ==> level_p(s, v) == v && level_q(num, den, s, v) == v && level_t(num, den, s, v)
            == v,
{
    let span = sector_span(den);
    let off = hue_offset(num, den);
    assert(0 <= s * off <= 255 * span) by (nonlinear_arith)
        requires
            0 <= s <= 255,
            0 <= off < span,
    ;
    assert(0 <= s * (span - off) <= 255 * span) by (nonlinear_arith)
        requires
            0 <= s <= 255,
            0 <= off < span,
    ;
    if s == 0 {
        assert(s * off == 0) by (nonlinear_arith)
            requires
                s == 0,
        ;
        assert(s * (span - off) == 0) by (nonlinear_arith)
            requires
                s == 0,
        ;
    }
    lemma_scaled_bounds(v, 255 - s, 255);
    lemma_scaled_bounds(v, 255 * span - s * off, 255 * span);
    lemma_scaled_bounds(v, 255 * span - s * (span - off), 255 * span);
}

/// At value 0 every hue and saturation give black; at saturation 0 every hue
/// gives the gray whose three levels are the value.
pub proof fn lemma_black_and_gray(num: int, den: int, s: int, v: int)
    requires
        0 <= num,
        0 < den,
        0 <= s <= 255,
        0 <= v <= 255,
    ensures
        v == 0 ==> hsv_color(num, den, s, v) == black(),
        s == 0 ==> hsv_color(num, den, s, v) == opaque(v, v, v),
{
    lemma_levels(num, den, s, v);
}

/// At full saturation and value the hues 0, 60, 120, 180, 240 and 300
/// degrees are red, yellow, green, cyan, blue and magenta.
pub proof fn lemma_primary_hues()
    ensures
        hsv_color(0, 1, 255, 255) == opaque(255, 0, 0),
        hsv_color(60, 1, 255, 255) == opaque(255, 255, 0),
        hsv_color(120, 1, 255, 255) == opaque(0, 255, 0),
        hsv_color(180, 1, 255, 255) == opaque(0, 255, 255),
        hsv_color(240, 1, 255, 255) == opaque(0, 0, 255),
        hsv_color(300, 1, 255, 255) == opaque(255, 0, 255),
{
    assert(sector_span(1) == 60);
    assert(level_p(255, 255) == 0);
    assert(hue_sector(0, 1) == 0 && hue_offset(0, 1) == 0);
    assert(hue_sector(60, 1) == 1 && hue_offset(60, 1) == 0);
    assert(hue_sector(120, 1) == 2 && hue_offset(120, 1) == 0);
    assert(hue_sector(180, 1) == 3 && hue_offset(180, 1) == 0);
    assert(hue_sector(240, 1) == 4 && hue_offset(240, 1) == 0);
    assert(hue_sector(300, 1) == 5 && hue_offset(300, 1) == 0);
    assert(level_t(0, 1, 255, 255) == 0);
    assert(level_q(60, 1, 255, 255) == 255);
    assert(level_t(120, 1, 255, 255) == 0);
    assert(level_q(180, 1, 255, 255) == 255);
    assert(level_t(240, 1, 255, 255) == 0);
    assert(level_q(300, 1, 255, 255) == 255);
}

/// Converts a hue in whole degrees, with saturation and value from 0 to 255,
/// to an opaque colour.
pub fn hsv_to_rgb(h: u32, s: u8, v: u8) -> (color: Rgba)
    ensures
        color@ == hsv_color(h as int, 1, s as int, v as int),
        v == 0 ==> color@ == black(),
        s == 0 ==> color@ == opaque(v as int, v as int, v as int),
{
    hsv_to_rgb_fraction(h as u64, 1, s, v)
}

/// Converts the hue `num / den` degrees, with saturation and value from 0 to
/// 255, to an opaque colour. Hues of 360 degrees and more wrap around.
pub fn hsv_to_rgb_fraction(num: u64, den: u32, s: u8, v: u8) -> (color: Rgba)
    requires
        den > 0,
    ensures
        color@ == hsv_color(num as int, den as int, s as int, v as int),
        v == 0 ==> color@ == black(),
        s == 0 ==> color@ == opaque(v as int, v as int, v as int),
{
    let span: u64 = 60 * (den as u64);
    let sector: u64 = (num / span) % 6;
    let off: u64 = num % span;
    let whole: u64 = 255 * span;
    let sat: u64 = s as u64;
    let val: u64 = v as u64;
    proof {
        lemma_levels(num as int, den as int, s as int, v as int);
        lemma_black_and_gray(num as int, den as int, s as int, v as int);
        assert(0 <= sat * off <= 255 * span) by (nonlinear_arith)
            requires
                0 <= sat <= 255,
                0 <= off < span,
        ;
        assert(0 <= sat * (span - off) <= 255 * span) by (nonlinear_arith)
            requires
                0 <= sat <= 255,
                0 <= off < span,
        ;
        assert(val * (whole - sat * off) <= 255 * whole) by (nonlinear_arith)
            requires
                0 <= val <= 255,
                0 <= whole - sat * off <= whole,
        ;
        assert(val * (whole - sat * (span - off)) <= 255 * whole) by (nonlinear_arith)
            requires
                0 <= val <= 255,
                0 <= whole - sat * (span - off) <= whole,
        ;
    }
    let p: u8 = (val * (255 - sat) / 255) as u8;
    let q: u8 = (val * (whole - sat * off) / whole) as u8;
    let t: u8 = (val * (whole - sat * (span - off)) / whole) as u8;
    let color = if sector == 0 {
        Rgba([v, t, p, 255])
    } else if sector == 1 {
        Rgba([q, v, p, 255])
    } else if sector == 2 {
        Rgba([p, v, t, 255])
    } else if sector == 3 {
        Rgba([p, q, v, 255])
    } else if sector == 4 {
        Rgba([t, p, v, 255])
    } else {
        Rgba([v, p, q, 255])
    };
    assert(color@ =~= hsv_color(num as int, den as int, s as int, v as int));
    color
}

} // verus!
