//! Glyph geometry: metrics of an outline or of an embedded bitmap, and how a
//! glyph is to be drawn.

use vstd::prelude::*;

use crate::metrics::Length;
use crate::outline_backend::{BoundingBox, RasterStrike};

verus! {

#[verifier::external_type_specification]
#[verifier::external_body]
pub struct ExDynamicImage(image::DynamicImage);

/// Placement of a glyph, in the units of its representation.
#[derive(Copy, Clone, Debug, PartialEq, Eq)]
pub struct GlyphMetrics {
    pub width: Length,
    pub height: Length,
    pub bearing_x: Length,
    pub bearing_y: Length,
}

/// A cached glyph: an outline of type `P`, or `None` when the glyph is drawn
/// from an embedded bitmap, with the metrics of whichever it is.
#[derive(Debug)]
pub struct Glyph<P> {
    pub path: Option<P>,
    pub metrics: GlyphMetrics,
}

/// How a glyph is drawn: by filling its outline, or by blitting a decoded
/// bitmap.
pub enum GlyphRendering<'a, P> {
    RenderAsPath(&'a P),
    RenderAsImage(image::DynamicImage),
}

/// `n` design units as a length.
pub open spec fn whole(n: int) -> Length {
    Length { numer: n as i64, denom: 1 }
}

/// `n` strike pixels in design units: `n * units_per_em / pixels_per_em`, or
/// `n` itself for a strike that gives no size.
pub open spec fn strike_length(n: int, units_per_em: int, pixels_per_em: int) -> Length {
    if pixels_per_em != 0 {
        Length { numer: (n * units_per_em) as i64, denom: pixels_per_em as u64 }
    } else {
        whole(n)
    }
}

/// Metrics of an outline glyph with bounding box `(x_min, y_min, x_max,
/// y_max)`: width and height of the box, its left edge and its top.
pub open spec fn box_metrics(b: (i16, i16, i16, i16)) -> GlyphMetrics {
    GlyphMetrics {
        width: whole(b.2 - b.0),
        height: whole(b.3 - b.1),
        bearing_x: whole(b.0 as int),
        bearing_y: whole(b.3 as int),
    }
}

/// Metrics of an outline glyph from its bounding box.
pub fn outline_glyph_metrics(bbox: BoundingBox) -> (r: GlyphMetrics)
    ensures
        r == box_metrics((bbox.x_min, bbox.y_min, bbox.x_max, bbox.y_max)),
{
    GlyphMetrics {
        width: Length { numer: bbox.x_max as i64 - bbox.x_min as i64, denom: 1 },
        height: Length { numer: bbox.y_max as i64 - bbox.y_min as i64, denom: 1 },
        bearing_x: Length { numer: bbox.x_min as i64, denom: 1 },
        bearing_y: Length { numer: bbox.y_max as i64, denom: 1 },
    }
}

fn strike_to_units(n: i32, units_per_em: u16, pixels_per_em: u16) -> (r: Length)
    requires
        -0x20000 <= n <= 0x20000,
    ensures
        r == strike_length(n as int, units_per_em as int, pixels_per_em as int),
{
    if pixels_per_em != 0 {
        proof {
            assert(-0x20000 * 0x10000 <= n * units_per_em <= 0x20000 * 0x10000) by (nonlinear_arith)
                requires
                    -0x20000 <= n <= 0x20000,
                    0 <= units_per_em <= 0xffff,
            ;
        }
        Length { numer: n as i64 * units_per_em as i64, denom: pixels_per_em as u64 }
    } else {
        Length { numer: n as i64, denom: 1 }
    }
}

/// Metrics of a bitmap glyph with strike parts `(x, y, width, height,
/// pixels per em, ..)`, carried from strike pixels into design units so that
/// they compose with those of outline glyphs. The top bearing is the strike's
/// bottom offset plus its height.
pub open spec fn strike_metrics(
    units_per_em: u16,
    s: (i16, i16, u16, u16, u16, bool, Seq<u8>),
) -> GlyphMetrics {
    let ppem = s.4 as int;
    GlyphMetrics {
        width: strike_length(s.2 as int, units_per_em as int, ppem),
        height: strike_length(s.3 as int, units_per_em as int, ppem),
        bearing_x: strike_length(s.0 as int, units_per_em as int, ppem),
        bearing_y: strike_length(s.1 + s.3, units_per_em as int, ppem),
    }
}

/// Metrics of a bitmap glyph in design units.
pub fn raster_glyph_metrics(units_per_em: u16, strike: &RasterStrike) -> (r: GlyphMetrics)
    ensures
        r == strike_metrics(units_per_em, strike.parts()),
{
    let ppem = strike.pixels_per_em;
    GlyphMetrics {
        width: strike_to_units(strike.width as i32, units_per_em, ppem),
        height: strike_to_units(strike.height as i32, units_per_em, ppem),
        bearing_x: strike_to_units(strike.x as i32, units_per_em, ppem),
        bearing_y: strike_to_units(strike.y as i32 + strike.height as i32, units_per_em, ppem),
    }
}

/// The glyph that a bitmap strike gives: only a PNG strike gives one, drawn
/// without a path and placed by the strike's metrics.
pub fn bitmap_glyph<P>(units_per_em: u16, strike: &RasterStrike) -> (r: Option<Glyph<P>>)
    ensures
        r is Some <==> strike.is_png,
        r matches Some(g) ==> g.path is None && g.metrics == strike_metrics(units_per_em, strike.parts()),
{
    if strike.is_png {
        Some(Glyph { path: None, metrics: raster_glyph_metrics(units_per_em, strike) })
    } else {
        None
    }
}

/// Whether `image` decodes `bytes` as a PNG image.
pub uninterp spec fn png_decodes(bytes: Seq<u8>) -> bool;

/// Relies on image::load_from_memory_with_format: decodes PNG bytes, or
/// `None` when they are not a PNG image it can read; the outcome depends on
/// the bytes alone.
#[verifier::external_body]
pub(crate) fn decode_png(bytes: &[u8]) -> (r: Option<image::DynamicImage>)
    ensures
        r is Some == png_decodes(bytes@),
{
    image::load_from_memory_with_format(bytes, image::ImageFormat::Png).ok()
}

} // verus!
