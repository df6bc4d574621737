//! Trusted declarations for the outline backend, which reads faces with
//! `ttf_parser`. A parsed face borrows the file's bytes and is opaque, so
//! each query takes the bytes and the face index, parses them, and asks the
//! face; every answer depends on those arguments alone.

use vstd::prelude::*;

verus! {

#[verifier::external_type_specification]
#[verifier::external_body]
pub struct ExFace<'a>(ttf_parser::Face<'a>);

#[verifier::external_type_specification]
#[verifier::external_body]
pub struct ExFaceParsingError(ttf_parser::FaceParsingError);

/// Whether `ttf_parser` accepts face `index` of the font file `data`.
pub uninterp spec fn ttf_face_parses(data: Seq<u8>, index: u32) -> bool;

/// The face's units per em, when it parses.
pub uninterp spec fn ttf_units_per_em(data: Seq<u8>, index: u32) -> Option<u16>;

/// The face's horizontal ascender, when it parses.
pub uninterp spec fn ttf_ascender(data: Seq<u8>, index: u32) -> Option<i16>;

/// The face's horizontal descender (negative below the baseline), when it parses.
pub uninterp spec fn ttf_descender(data: Seq<u8>, index: u32) -> Option<i16>;

/// The face's line gap, when it parses.
pub uninterp spec fn ttf_line_gap(data: Seq<u8>, index: u32) -> Option<i16>;

/// Whether the face is marked regular, when it parses.
pub uninterp spec fn ttf_regular(data: Seq<u8>, index: u32) -> Option<bool>;

/// Whether the face is italic, when it parses.
pub uninterp spec fn ttf_italic(data: Seq<u8>, index: u32) -> Option<bool>;

/// Whether the face is marked bold, when it parses.
pub uninterp spec fn ttf_bold(data: Seq<u8>, index: u32) -> Option<bool>;

/// Whether the face is marked oblique, when it parses.
pub uninterp spec fn ttf_oblique(data: Seq<u8>, index: u32) -> Option<bool>;

/// Whether the face is variable, when it parses.
pub uninterp spec fn ttf_variable(data: Seq<u8>, index: u32) -> Option<bool>;

/// The face's OS/2 weight class, when it parses.
pub uninterp spec fn ttf_weight(data: Seq<u8>, index: u32) -> Option<u16>;

/// The face's OS/2 width class, when it parses.
pub uninterp spec fn ttf_width(data: Seq<u8>, index: u32) -> Option<u16>;

/// The bounding box `(x_min, y_min, x_max, y_max)` of glyph `id`'s outline,
/// or `None` when the face does not parse or the glyph has no outline.
pub uninterp spec fn ttf_outline_box(data: Seq<u8>, index: u32, id: u16) -> Option<(i16, i16, i16, i16)>;

/// The embedded bitmap of glyph `id` in the strike nearest above
/// `pixels_per_em`, as `(x, y, width, height, strike pixels per em, is PNG,
/// encoded bytes)`, or `None` when the face does not parse or has none.
pub uninterp spec fn ttf_raster(data: Seq<u8>, index: u32, id: u16, pixels_per_em: u16) -> Option<
    (i16, i16, u16, u16, u16, bool, Seq<u8>),
>;

/// Relies on ttf_parser::Face::parse: succeeds exactly on the files and face
/// indices that it accepts, the same way each time.
pub assume_specification<'a>[ ttf_parser::Face::<'a>::parse ](data: &'a [u8], index: u32) -> (r:
    Result<ttf_parser::Face<'a>, ttf_parser::FaceParsingError>)
    ensures
        r is Ok == ttf_face_parses(data@, index),
;

/// Relies on ttf_parser::Face::units_per_em, documented to lie in 16..=16384
/// (the `head` table parser rejects other values).
#[verifier::external_body]
pub(crate) fn face_units_per_em(data: &[u8], index: u32) -> (r: Option<u16>)
    ensures
        r == ttf_units_per_em(data@, index),
        r is Some == ttf_face_parses(data@, index),
        r matches Some(u) ==> 16 <= u <= 16384,
{
    ttf_parser::Face::parse(data, index).ok().map(|f| f.units_per_em())
}

/// Relies on ttf_parser::Face::ascender.
#[verifier::external_body]
pub(crate) fn face_ascender(data: &[u8], index: u32) -> (r: Option<i16>)
    ensures
        r == ttf_ascender(data@, index),
        r is Some == ttf_face_parses(data@, index),
{
    ttf_parser::Face::parse(data, index).ok().map(|f| f.ascender())
}

/// Relies on ttf_parser::Face::descender.
#[verifier::external_body]
pub(crate) fn face_descender(data: &[u8], index: u32) -> (r: Option<i16>)
    ensures
        r == ttf_descender(data@, index),
        r is Some == ttf_face_parses(data@, index),
{
    ttf_parser::Face::parse(data, index).ok().map(|f| f.descender())
}

/// Relies on ttf_parser::Face::line_gap.
#[verifier::external_body]
pub(crate) fn face_line_gap(data: &[u8], index: u32) -> (r: Option<i16>)
    ensures
        r == ttf_line_gap(data@, index),
        r is Some == ttf_face_parses(data@, index),
{
    ttf_parser::Face::parse(data, index).ok().map(|f| f.line_gap())
}

/// Relies on ttf_parser::Face::is_regular.
#[verifier::external_body]
pub(crate) fn face_is_regular(data: &[u8], index: u32) -> (r: Option<bool>)
    ensures
        r == ttf_regular(data@, index),
        r is Some == ttf_face_parses(data@, index),
{
    ttf_parser::Face::parse(data, index).ok().map(|f| f.is_regular())
}

/// Relies on ttf_parser::Face::is_italic.
#[verifier::external_body]
pub(crate) fn face_is_italic(data: &[u8], index: u32) -> (r: Option<bool>)
    ensures
        r == ttf_italic(data@, index),
        r is Some == ttf_face_parses(data@, index),
{
    ttf_parser::Face::parse(data, index).ok().map(|f| f.is_italic())
}

/// Relies on ttf_parser::Face::is_bold.
#[verifier::external_body]
pub(crate) fn face_is_bold(data: &[u8], index: u32) -> (r: Option<bool>)
    ensures
        r == ttf_bold(data@, index),
        r is Some == ttf_face_parses(data@, index),
{
    ttf_parser::Face::parse(data, index).ok().map(|f| f.is_bold())
}

/// Relies on ttf_parser::Face::is_oblique.
#[verifier::external_body]
pub(crate) fn face_is_oblique(data: &[u8], index: u32) -> (r: Option<bool>)
    ensures
        r == ttf_oblique(data@, index),
        r is Some == ttf_face_parses(data@, index),
{
    ttf_parser::Face::parse(data, index).ok().map(|f| f.is_oblique())
}

/// Relies on ttf_parser::Face::is_variable.
#[verifier::external_body]
pub(crate) fn face_is_variable(data: &[u8], index: u32) -> (r: Option<bool>)
    ensures
        r == ttf_variable(data@, index),
        r is Some == ttf_face_parses(data@, index),
{
    ttf_parser::Face::parse(data, index).ok().map(|f| f.is_variable())
}

/// Relies on ttf_parser::Face::weight and Weight::to_number: the OS/2 weight
/// class, any `u16`.
#[verifier::external_body]
pub(crate) fn face_weight(data: &[u8], index: u32) -> (r: Option<u16>)
    ensures
        r == ttf_weight(data@, index),
        r is Some == ttf_face_parses(data@, index),
{
    ttf_parser::Face::parse(data, index).ok().map(|f| f.weight().to_number())
}

/// Relies on ttf_parser::Face::width and Width::to_number: one of the nine
/// width classes, 1 to 9.
#[verifier::external_body]
pub(crate) fn face_width(data: &[u8], index: u32) -> (r: Option<u16>)
    ensures
        r == ttf_width(data@, index),
        r is Some == ttf_face_parses(data@, index),
        r matches Some(w) ==> 1 <= w <= 9,
{
    ttf_parser::Face::parse(data, index).ok().map(|f| f.width().to_number())
}

/// Bounding box of a glyph outline, in design units.
#[derive(Copy, Clone, Debug, PartialEq, Eq)]
pub struct BoundingBox {
    pub x_min: i16,
    pub y_min: i16,
    pub x_max: i16,
    pub y_max: i16,
}

/// An embedded bitmap of a glyph: its placement in strike pixels, the strike
/// size, whether it is PNG-encoded, and the encoded bytes.
#[derive(Clone, Debug)]
pub struct RasterStrike {
    pub x: i16,
    pub y: i16,
    pub width: u16,
    pub height: u16,
    pub pixels_per_em: u16,
    pub is_png: bool,
    pub data: Vec<u8>,
}

impl RasterStrike {
    pub open spec fn parts(self) -> (i16, i16, u16, u16, u16, bool, Seq<u8>) {
        (self.x, self.y, self.width, self.height, self.pixels_per_em, self.is_png, self.data@)
    }
}

/// Relies on ttf_parser::Face::glyph_raster_image: the glyph's embedded bitmap
/// in the strike nearest above `pixels_per_em`, if the face has one.
#[verifier::external_body]
pub(crate) fn raster_image(data: &[u8], index: u32, glyph_id: u16, pixels_per_em: u16) -> (r: Option<
    RasterStrike,
>)
    ensures
        r is Some == ttf_raster(data@, index, glyph_id, pixels_per_em) is Some,
        r matches Some(s) ==> ttf_raster(data@, index, glyph_id, pixels_per_em) == Some(s.parts()),
{
    let face = ttf_parser::Face::parse(data, index).ok()?;
    face.glyph_raster_image(ttf_parser::GlyphId(glyph_id), pixels_per_em).map(
        |img| RasterStrike {
            x: img.x,
            y: img.y,
            width: img.width,
            height: img.height,
            pixels_per_em: img.pixels_per_em,
            is_png: matches!(img.format, ttf_parser::RasterImageFormat::PNG),
            data: img.data.to_vec(),
        },
    )
}

/// Relies on ttf_parser::Face::outline_glyph: feeds the glyph's contours to
/// `builder` and returns their bounding box, or `None` when the glyph has no
/// outline.
#[verifier::external_body]
pub(crate) fn outline_glyph<B: ttf_parser::OutlineBuilder>(
    data: &[u8],
    index: u32,
    glyph_id: u16,
    builder: &mut B,
) -> (r: Option<BoundingBox>)
    ensures
        r is Some == ttf_outline_box(data@, index, glyph_id) is Some,
        r matches Some(b) ==> ttf_outline_box(data@, index, glyph_id) == Some(
            (b.x_min, b.y_min, b.x_max, b.y_max),
        ),
{
    let face = ttf_parser::Face::parse(data, index).ok()?;
    face.outline_glyph(ttf_parser::GlyphId(glyph_id), builder).map(
        |r| BoundingBox { x_min: r.x_min, y_min: r.y_min, x_max: r.x_max, y_max: r.y_max },
    )
}

} // verus!
