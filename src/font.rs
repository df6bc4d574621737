//! A font face: its bytes, its metrics read once at construction, and an
//! append-only cache of its glyphs.

use std::collections::HashMap;

use vstd::prelude::*;

use crate::flags::FontFlags;
use crate::glyph::{
    bitmap_glyph, box_metrics, decode_png, outline_glyph_metrics, png_decodes, strike_metrics, Glyph,
    GlyphRendering,
};
use crate::metrics::{
    outline_face_metrics, ratio_eq, scaling_face_metrics, FontMetrics, Length, MetricsModel, Size,
    MAX_DESIGN_UNITS,
};
use crate::outline_backend::{
    face_ascender, face_descender, face_is_bold, face_is_italic, face_is_oblique, face_is_regular,
    face_is_variable, face_line_gap, face_units_per_em, face_weight, face_width, outline_glyph,
    raster_image, ttf_ascender, ttf_bold, ttf_descender, ttf_face_parses, ttf_italic, ttf_line_gap,
    ttf_oblique, ttf_outline_box, ttf_raster, ttf_regular, ttf_units_per_em, ttf_variable, ttf_weight,
    ttf_width,
};
use crate::scaling_backend::{
    scaler_descenders_negatable, scaler_has_variations, scaler_metrics, scaler_slope, scaler_stretch,
    scaler_weight, swash_descenders_negatable, swash_face_found, swash_metrics_of, swash_slope_of,
    swash_stretch_of, swash_variable_of, swash_weight_of, ScalerMetrics, Slope,
};

verus! {

broadcast use vstd::std_specs::hash::group_hash_axioms;

/// The parser that reads a font file.
#[derive(Copy, Clone, Debug, PartialEq, Eq)]
pub enum Backend {
    /// `ttf_parser`: outlines, embedded bitmaps and the face's own style flags.
    Outline,
    /// `swash`: outlines through a scaler, style approximated from attributes.
    Scaling,
    /// No parser: every font fails to load.
    Unavailable,
}

/// Why a font could not be loaded.
#[derive(Copy, Clone, Debug, PartialEq, Eq)]
pub enum ErrorKind {
    FontParseError,
}

/// What a `Font` stands for.
pub struct FontModel<P> {
    pub data: Seq<u8>,
    pub face_index: u32,
    pub backend: Backend,
    pub units_per_em: int,
    pub metrics: MetricsModel,
    pub glyphs: Map<u16, Glyph<P>>,
    /// How many times a lookup has asked the backend to extract a glyph.
    pub extractions: nat,
}

/// Whether the parser of `backend` reads face `index` of `data`.
pub open spec fn face_readable(backend: Backend, data: Seq<u8>, index: u32) -> bool {
    match backend {
        Backend::Outline => ttf_face_parses(data, index),
        Backend::Scaling => swash_face_found(data, index as usize),
        Backend::Unavailable => false,
    }
}

/// The glyph that a lookup's answer refers to.
pub open spec fn deref_glyph<P>(g: Option<&Glyph<P>>) -> Option<Glyph<P>> {
    match g {
        Some(x) => Some(*x),
        None => None,
    }
}

/// Whether `g` is what the outline backend extracts for glyph `id` of font
/// `f`: the outline, with its bounding-box metrics, when the glyph has one;
/// failing that, the bitmap of the largest strike when it is a PNG, without
/// a path and with the strike's metrics; otherwise nothing.
pub open spec fn outline_extraction<P>(f: FontModel<P>, id: u16, g: Option<Glyph<P>>) -> bool {
    match ttf_outline_box(f.data, f.face_index, id) {
        Some(b) => g matches Some(x) && x.path is Some && x.metrics == box_metrics(b),
        None => match ttf_raster(f.data, f.face_index, id, 0xffff) {
            Some(s) => if s.5 {
                g == Some(Glyph::<P> { path: None, metrics: strike_metrics(f.units_per_em as u16, s) })
            } else {
                g is None
            },
            None => g is None,
        },
    }
}

/// One lookup of glyph `id` that takes a font from `before` to `after` and
/// answers `found`. A cached glyph is answered as it is and nothing changes.
/// Otherwise, with the outline backend, the backend is asked once, its
/// glyph is answered and cached, and a glyph it cannot give is answered with
/// `None` and not cached. With the other backends a miss answers `None`.
pub open spec fn lookup_step<P>(
    before: FontModel<P>,
    after: FontModel<P>,
    id: u16,
    found: Option<Glyph<P>>,
) -> bool {
    if before.glyphs.contains_key(id) {
        after == before && found == Some(before.glyphs[id])
    } else if before.backend == Backend::Outline {
        &&& outline_extraction(before, id, found)
        &&& after == FontModel {
            glyphs: match found {
                Some(g) => before.glyphs.insert(id, g),
                None => before.glyphs,
            },
            extractions: before.extractions + 1,
            ..before
        }
    } else {
        after == before && found is None
    }
}

/// Whether glyph `id` of `f` is drawn from a bitmap at `pixels_per_em`: the
/// outline backend has a strike for it there whose bytes decode as PNG.
pub open spec fn renders_as_image<P>(f: FontModel<P>, id: u16, pixels_per_em: u16) -> bool {
    &&& f.backend == Backend::Outline
    &&& ttf_raster(f.data, f.face_index, id, pixels_per_em) matches Some(s)
    &&& png_decodes(s.6)
}

/// Whether `m` holds the unscaled metrics that the outline backend reports
/// for face `index` of `data`, whose em size is `units_per_em`.
pub open spec fn outline_face_describes(data: Seq<u8>, index: u32, units_per_em: int, m: MetricsModel) -> bool {
    &&& ttf_units_per_em(data, index) matches Some(u) && u == units_per_em
    &&& ttf_ascender(data, index) matches Some(a) && m.ascender == a
    &&& ttf_descender(data, index) matches Some(d) && m.descender == d
    &&& ttf_line_gap(data, index) matches Some(g) && m.height == m.ascender - m.descender + g
    &&& ttf_regular(data, index) matches Some(b) && m.flags.spec_regular() == b
    &&& ttf_italic(data, index) matches Some(b) && m.flags.spec_italic() == b
    &&& ttf_bold(data, index) matches Some(b) && m.flags.spec_bold() == b
    &&& ttf_oblique(data, index) matches Some(b) && m.flags.spec_oblique() == b
    &&& ttf_variable(data, index) matches Some(b) && m.flags.spec_variable() == b
    &&& ttf_weight(data, index) matches Some(w) && m.weight == w
    &&& ttf_width(data, index) matches Some(w) && m.width == w
    &&& m.scale_numer == 1
    &&& m.scale_denom == 1
}

/// What the scaling backend reports of face `index` of `data`.
pub open spec fn scaler_report_of(data: Seq<u8>, index: usize) -> ScalerReport {
    let m = swash_metrics_of(data, index);
    ScalerReport {
        metrics: ScalerMetrics { units_per_em: m.0, ascent: m.1, descent: m.2, leading: m.3 },
        weight: swash_weight_of(data, index),
        stretch: swash_stretch_of(data, index),
        slope: swash_slope_of(data, index),
        variable: swash_variable_of(data, index),
    }
}

/// Whether the scaling backend loads face `index` of `data`: it finds the
/// face, can read its metrics without overflow, and reports a nonzero em
/// size.
pub open spec fn scaler_loads(data: Seq<u8>, index: usize) -> bool {
    &&& swash_face_found(data, index)
    &&& swash_descenders_negatable(data, index)
    &&& swash_metrics_of(data, index).0 != 0
}

/// A font face with its glyph cache; `P` is the outline type that glyph
/// paths are built into.
pub struct Font<P> {
    face: FaceInfo,
    glyphs: HashMap<u16, Glyph<P>>,
    extractions: Ghost<nat>,
}

/// The parts of a font fixed at construction.
struct FaceInfo {
    data: Vec<u8>,
    face_index: u32,
    backend: Backend,
    units_per_em: u16,
    metrics: FontMetrics,
}

impl FaceInfo {
    spec fn model<P>(self, glyphs: Map<u16, Glyph<P>>, extractions: nat) -> FontModel<P> {
        FontModel {
            data: self.data@,
            face_index: self.face_index,
            backend: self.backend,
            units_per_em: self.units_per_em as int,
            metrics: self.metrics@,
            glyphs,
            extractions,
        }
    }

    #[verifier::type_invariant]
    spec fn inv(self) -> bool {
        self.model(Map::<u16, Glyph<()>>::empty(), 0).wf()
    }
}

impl<P> View for Font<P> {
    type V = FontModel<P>;

    closed spec fn view(&self) -> FontModel<P> {
        self.face.model(self.glyphs@, self.extractions@)
    }
}

impl<P> FontModel<P> {
    /// What holds of every font: its face is readable by its backend, it has
    /// a positive em size (16 to 16384 with the outline backend), and its
    /// stored metrics are unscaled.
    pub open spec fn wf(self) -> bool {
        &&& face_readable(self.backend, self.data, self.face_index)
        &&& 0 < self.units_per_em <= u16::MAX
        &&& self.backend == Backend::Outline ==> 16 <= self.units_per_em <= 16384
        &&& self.metrics.wf()
        &&& self.metrics.scale_numer == 1
        &&& self.metrics.scale_denom == 1
    }

    /// The metrics scaled to `size` pixels.
    pub open spec fn scaled_metrics(self, size: Size) -> MetricsModel {
        MetricsModel {
            scale_numer: size.numer as int,
            scale_denom: size.denom * self.units_per_em,
            ..self.metrics
        }
    }
}

/// Reads the outline backend's em size and unscaled metrics of a face.
fn read_outline_face(data: &[u8], index: u32) -> (r: Option<(u16, FontMetrics)>)
    ensures
        r is Some == ttf_face_parses(data@, index),
        r matches Some((u, m)) ==> {
            &&& outline_face_describes(data@, index, u as int, m@)
            &&& 16 <= u <= 16384
            &&& 1 <= m@.width <= 9
            &&& m@.wf()
        },
{
    let units_per_em = face_units_per_em(data, index)?;
    let flags = FontFlags::new(
        face_is_regular(data, index)?,
        face_is_italic(data, index)?,
        face_is_bold(data, index)?,
        face_is_oblique(data, index)?,
        face_is_variable(data, index)?,
    );
    let metrics = outline_face_metrics(
        face_ascender(data, index)?,
        face_descender(data, index)?,
        face_line_gap(data, index)?,
        flags,
        face_weight(data, index)?,
        face_width(data, index)?,
    );
    Some((units_per_em, metrics))
}

/// Reads what the scaling backend reports of a face.
fn read_scaler_report(data: &[u8], index: usize) -> (r: Option<ScalerReport>)
    requires
        swash_descenders_negatable(data@, index),
    ensures
        r is Some == swash_face_found(data@, index),
        r matches Some(rep) ==> rep == scaler_report_of(data@, index) && rep.wf(),
{
    Some(
        ScalerReport {
            metrics: scaler_metrics(data, index)?,
            weight: scaler_weight(data, index)?,
            stretch: scaler_stretch(data, index)?,
            slope: scaler_slope(data, index)?,
            variable: scaler_has_variations(data, index)?,
        },
    )
}

impl<P> Font<P> {
    /// Reads face `face_index` of `data` with `backend`. Fails with
    /// `FontParseError` when the backend does not read the face, when there
    /// is no backend, or when the face's em size is zero; the scaling backend
    /// also refuses a face whose descender it could not negate. The new
    /// font's cache is empty and its metrics are those the backend reports.
    pub fn new_with_data(data: Vec<u8>, face_index: u32, backend: Backend) -> (r: Result<Self, ErrorKind>)
        ensures
            backend == Backend::Outline ==> (r is Ok <==> ttf_face_parses(data@, face_index)),
            backend == Backend::Scaling ==> (r is Ok <==> scaler_loads(data@, face_index as usize)),
            backend == Backend::Unavailable ==> r is Err,
            r is Err ==> r == Err::<Self, ErrorKind>(ErrorKind::FontParseError),
            r is Ok ==> {
                let f = r->Ok_0@;
                &&& f.wf()
                &&& f.data == data@
                &&& f.face_index == face_index
                &&& f.backend == backend
                &&& f.glyphs == Map::<u16, Glyph<P>>::empty()
                &&& f.extractions == 0
                &&& 1 <= f.metrics.width <= 9
                &&& backend == Backend::Outline ==> outline_face_describes(
                    data@,
                    face_index,
                    f.units_per_em,
                    f.metrics,
                )
                &&& backend == Backend::Scaling ==> {
                    &&& f.units_per_em == swash_metrics_of(data@, face_index as usize).0
                    &&& scaler_report_of(data@, face_index as usize).describes(f.metrics)
                }
            },
    {
        match backend {
            Backend::Outline => {
                let (units_per_em, metrics) = match read_outline_face(data.as_slice(), face_index) {
                    Some(read) => read,
                    None => {
                        return Err(ErrorKind::FontParseError);
                    },
                };
                let face = FaceInfo { data, face_index, backend, units_per_em, metrics };
                Ok(Font { face, glyphs: HashMap::new(), extractions: Ghost(0) })
            },
            Backend::Scaling => {
                let index = face_index as usize;
                if !scaler_descenders_negatable(data.as_slice(), index) {
                    return Err(ErrorKind::FontParseError);
                }
                let report = match read_scaler_report(data.as_slice(), index) {
                    Some(report) => report,
                    None => {
                        return Err(ErrorKind::FontParseError);
                    },
                };
                Self::from_scaler_report(data, face_index, report)
            },
            Backend::Unavailable => Err(ErrorKind::FontParseError),
        }
    }

    /// Builds a font read by the scaling backend from what the backend
    /// reported of it; fails exactly when the reported em size is zero.
    pub fn from_scaler_report(data: Vec<u8>, face_index: u32, report: ScalerReport) -> (r: Result<
        Self,
        ErrorKind,
    >)
        requires
            swash_face_found(data@, face_index as usize),
            report.wf(),
        ensures
            r is Ok <==> report.metrics.units_per_em != 0,
            r is Err ==> r == Err::<Self, ErrorKind>(ErrorKind::FontParseError),
            r is Ok ==> {
                let f = r->Ok_0@;
                &&& f.wf()
                &&& f.data == data@
                &&& f.face_index == face_index
                &&& f.backend == Backend::Scaling
                &&& f.units_per_em == report.metrics.units_per_em
                &&& f.glyphs == Map::<u16, Glyph<P>>::empty()
                &&& f.extractions == 0
                &&& report.describes(f.metrics)
            },
    {
        if report.metrics.units_per_em == 0 {
            return Err(ErrorKind::FontParseError);
        }
        let metrics = scaling_face_metrics(
            report.metrics.ascent,
            report.metrics.descent,
            report.metrics.leading,
            report.weight,
            report.stretch,
            report.slope,
            report.variable,
        );
        Ok(
            Font {
                face: FaceInfo {
                    data,
                    face_index,
                    backend: Backend::Scaling,
                    units_per_em: report.metrics.units_per_em,
                    metrics,
                },
                glyphs: HashMap::new(),
                extractions: Ghost(0),
            },
        )
    }

    /// The font file's bytes.
    pub fn data(&self) -> (r: &[u8])
        ensures
            r@ == self@.data,
    {
        self.face.data.as_slice()
    }

    /// Which face of the font file this is.
    pub fn face_index(&self) -> (r: u32)
        ensures
            r == self@.face_index,
    {
        self.face.face_index
    }

    /// Design units per em; never zero.
    pub fn units_per_em(&self) -> (r: u16)
        ensures
            r == self@.units_per_em,
            r > 0,
    {
        proof {
            use_type_invariant(&self.face);
        }
        self.face.units_per_em
    }

    /// The backend that read the face.
    pub fn backend(&self) -> (r: Backend)
        ensures
            r == self@.backend,
    {
        self.face.backend
    }

    /// The parsed face, for a font read by the outline backend.
    pub fn face_ref(&self) -> (r: Option<ttf_parser::Face<'_>>)
        ensures
            r is Some <==> self@.backend == Backend::Outline,
    {
        proof {
            use_type_invariant(&self.face);
        }
        match self.face.backend {
            Backend::Outline => match ttf_parser::Face::parse(self.face.data.as_slice(), self.face.face_index) {
                Ok(face) => Some(face),
                Err(_) => None,
            },
            _ => None,
        }
    }

    /// The face as the scaling backend reads it; always found for a font that
    /// this backend read.
    pub fn swash_font_ref(&self) -> (r: Option<swash::FontRef<'_>>)
        ensures
            r is Some <==> swash_face_found(self@.data, self@.face_index as usize),
            self@.backend == Backend::Scaling ==> r is Some,
    {
        proof {
            use_type_invariant(&self.face);
        }
        swash::FontRef::from_index(self.face.data.as_slice(), self.face.face_index as usize)
    }

    /// The metrics scaled to `size` pixels: each length is multiplied by
    /// `size / units_per_em`; the classification is unchanged.
    pub fn metrics(&self, size: Size) -> (r: FontMetrics)
        requires
            size.denom > 0,
        ensures
            r@ == self@.scaled_metrics(size),
            r@.wf(),
            self@.wf(),
    {
        proof {
            use_type_invariant(&self.face);
            assert(size.denom * self.face.units_per_em <= u32::MAX * u16::MAX) by (nonlinear_arith)
                requires
                    size.denom <= u32::MAX,
                    self.face.units_per_em <= u16::MAX,
            ;
            vstd::arithmetic::mul::lemma_mul_strictly_positive(size.denom as int, self.face.units_per_em as int);
        }
        let mut metrics = self.face.metrics;
        metrics.scale(size.numer, size.denom as u64 * self.face.units_per_em as u64);
        metrics
    }

    /// The factor `size / units_per_em` that carries design units to pixels.
    pub fn scale(&self, size: Size) -> (r: Length)
        requires
            size.denom > 0,
        ensures
            r == (Length { numer: size.numer as i64, denom: (size.denom * self@.units_per_em) as u64 }),
            r.denom > 0,
            self@.wf(),
    {
        proof {
            use_type_invariant(&self.face);
            assert(size.denom * self.face.units_per_em <= u32::MAX * u16::MAX) by (nonlinear_arith)
                requires
                    size.denom <= u32::MAX,
                    self.face.units_per_em <= u16::MAX,
            ;
            vstd::arithmetic::mul::lemma_mul_strictly_positive(size.denom as int, self.face.units_per_em as int);
        }
        Length { numer: size.numer as i64, denom: size.denom as u64 * self.face.units_per_em as u64 }
    }

    /// The cached glyph `id`, if any.
    pub fn cached_glyph(&self, id: u16) -> (r: Option<&Glyph<P>>)
        ensures
            deref_glyph(r) == (if self@.glyphs.contains_key(id) {
                Some(self@.glyphs[id])
            } else {
                None
            }),
    {
        self.glyphs.get(&id)
    }

    /// Glyph `id` with an outline that the caller extracted: a cached glyph
    /// is answered as it is and `extracted` is dropped; otherwise `extracted`
    /// is cached and answered, and `None` leaves the cache as it was. A
    /// cached glyph is never replaced.
    pub fn cache_extracted(&mut self, id: u16, extracted: Option<Glyph<P>>) -> (r: Option<&Glyph<P>>)
        ensures
            old(self)@.glyphs.contains_key(id) ==> final(self)@ == old(self)@ && deref_glyph(r) == Some(
                old(self)@.glyphs[id],
            ),
            !old(self)@.glyphs.contains_key(id) ==> deref_glyph(r) == extracted && final(self)@ == (
            FontModel {
                glyphs: match extracted {
                    Some(g) => old(self)@.glyphs.insert(id, g),
                    None => old(self)@.glyphs,
                },
                ..old(self)@
            }),
    {
        if !self.glyphs.contains_key(&id) {
            if let Some(glyph) = extracted {
                self.glyphs.insert(id, glyph);
            }
        }
        self.glyphs.get(&id)
    }
}

impl<P: ttf_parser::OutlineBuilder + Default> Font<P> {
    /// Glyph `id`, from the cache or, on a miss with the outline backend,
    /// extracted from the face and cached: the outline, built into a fresh
    /// `P`, or failing that a PNG bitmap of the largest strike, which gives a
    /// glyph without a path. A glyph that cannot be extracted is not cached,
    /// so a later lookup asks the backend again. With the scaling backend
    /// only the cache is read; its outlines are added with `cache_extracted`.
    pub fn glyph(&mut self, id: u16) -> (r: Option<&Glyph<P>>)
        ensures
            lookup_step(old(self)@, final(self)@, id, deref_glyph(r)),
    {
        if !self.glyphs.contains_key(&id) && matches!(self.face.backend, Backend::Outline) {
            self.extractions = Ghost(self.extractions@ + 1);
            if let Some(glyph) = self.extract_glyph(id) {
                self.glyphs.insert(id, glyph);
            }
        }
        self.glyphs.get(&id)
    }

    /// Extracts glyph `id` from the face with the outline backend.
    fn extract_glyph(&self, id: u16) -> (r: Option<Glyph<P>>)
        requires
            self@.backend == Backend::Outline,
        ensures
            outline_extraction(self@, id, r),
    {
        proof {
            use_type_invariant(&self.face);
        }
        let data = self.face.data.as_slice();
        let mut path = P::default();
        if let Some(bbox) = outline_glyph(data, self.face.face_index, id, &mut path) {
            return Some(Glyph { path: Some(path), metrics: outline_glyph_metrics(bbox) });
        }
        match raster_image(data, self.face.face_index, id, u16::MAX) {
            Some(strike) => bitmap_glyph(self.face.units_per_em, &strike),
            None => None,
        }
    }

    /// How to draw glyph `id` at `pixels_per_em`. With the outline backend a
    /// decodable PNG bitmap for that size, decoded afresh on every call,
    /// comes first and leaves the font alone. Otherwise the glyph is looked
    /// up as `glyph` does and drawn by its path, or not at all when it has
    /// none or is absent.
    pub fn glyph_rendering_representation(&mut self, id: u16, pixels_per_em: u16) -> (r: Option<
        GlyphRendering<'_, P>,
    >)
        ensures
            (r matches Some(GlyphRendering::RenderAsImage(_))) <==> renders_as_image(
                old(self)@,
                id,
                pixels_per_em,
            ),
            r matches Some(GlyphRendering::RenderAsImage(_)) ==> final(self)@ == old(self)@,
            !(r matches Some(GlyphRendering::RenderAsImage(_))) ==> exists|g: Option<Glyph<P>>|
                {
                    &&& lookup_step(old(self)@, final(self)@, id, g)
                    &&& deref_rendering(r) == path_of(g)
                    &&& (r is None <==> path_of(g) is None)
                },
    {
        if let Some(image) = self.embedded_image(id, pixels_per_em) {
            return Some(GlyphRendering::RenderAsImage(image));
        }
        path_rendering(self.glyph(id))
    }

    fn embedded_image(&self, id: u16, pixels_per_em: u16) -> (r: Option<image::DynamicImage>)
        ensures
            r is Some == renders_as_image(self@, id, pixels_per_em),
    {
        if !matches!(self.face.backend, Backend::Outline) {
            return None;
        }
        match raster_image(self.face.data.as_slice(), self.face.face_index, id, pixels_per_em) {
            Some(strike) => decode_png(strike.data.as_slice()),
            None => None,
        }
    }
}

/// The path that a glyph lookup's answer is drawn by, if any.
pub open spec fn path_of<P>(g: Option<Glyph<P>>) -> Option<P> {
    match g {
        Some(glyph) => glyph.path,
        None => None,
    }
}

/// The path that a rendering draws, if it draws one.
pub open spec fn deref_rendering<P>(r: Option<GlyphRendering<'_, P>>) -> Option<P> {
    match r {
        Some(GlyphRendering::RenderAsPath(p)) => Some(*p),
        _ => None,
    }
}

/// Draws a looked-up glyph by its path; a missing glyph, or one without a
/// path, is not drawn.
pub fn path_rendering<'a, P>(glyph: Option<&'a Glyph<P>>) -> (r: Option<GlyphRendering<'a, P>>)
    ensures
        !(r matches Some(GlyphRendering::RenderAsImage(_))),
        deref_rendering(r) == path_of(deref_glyph(glyph)),
        r is None <==> path_of(deref_glyph(glyph)) is None,
{
    match glyph {
        Some(g) => match &g.path {
            Some(p) => Some(GlyphRendering::RenderAsPath(p)),
            None => None,
        },
        None => None,
    }
}

/// Scaling to a size multiplies each unscaled length by exactly
/// `size / units_per_em`, and leaves the classification as it was.
pub proof fn lemma_metrics_scale_exactly<P>(font: FontModel<P>, size: Size)
    requires
        font.wf(),
        size.denom > 0,
    ensures
        ({
            let m = font.scaled_metrics(size);
            let d = size.denom * font.units_per_em;
            &&& ratio_eq(m.scaled(m.ascender), font.metrics.ascender * size.numer, d)
            &&& ratio_eq(m.scaled(m.descender), font.metrics.descender * size.numer, d)
            &&& ratio_eq(m.scaled(m.height), font.metrics.height * size.numer, d)
            &&& m.flags == font.metrics.flags
            &&& m.weight == font.metrics.weight
            &&& m.width == font.metrics.width
        }),
{
    let m = font.scaled_metrics(size);
    let d = size.denom * font.units_per_em;
    assert(0 < d <= u32::MAX * u16::MAX) by (nonlinear_arith)
        requires
            d == size.denom * font.units_per_em,
            0 < size.denom <= u32::MAX,
            0 < font.units_per_em <= u16::MAX,
    ;
    assert forall|len: int| -MAX_DESIGN_UNITS <= len <= MAX_DESIGN_UNITS implies ratio_eq(
        #[trigger] m.scaled(len),
        len * size.numer,
        d,
    ) by {
        assert(-0x20000 * 0x1_0000_0000 <= len * size.numer <= 0x20000 * 0x1_0000_0000) by (nonlinear_arith)
            requires
                -0x20000 <= len <= 0x20000,
                0 <= size.numer <= 0xffff_ffff,
        ;
    }
    assert(m.scaled(m.ascender) == m.scaled(font.metrics.ascender));
}

/// A glyph that a lookup answered is answered again, unchanged, by the next
/// lookup of the same id, which leaves the font as it was and asks the
/// backend for nothing.
pub proof fn lemma_glyph_lookup_repeats<P>(
    f0: FontModel<P>,
    f1: FontModel<P>,
    f2: FontModel<P>,
    id: u16,
    first: Option<Glyph<P>>,
    second: Option<Glyph<P>>,
)
    requires
        lookup_step(f0, f1, id, first),
        lookup_step(f1, f2, id, second),
        first is Some,
    ensures
        second == first,
        f2 == f1,
        f2.extractions == f1.extractions,
{
}

/// A lookup that cannot extract its glyph caches nothing, so the next lookup
/// of the same id asks the backend again and again answers `None`.
pub proof fn lemma_missing_glyph_is_retried<P>(
    f0: FontModel<P>,
    f1: FontModel<P>,
    f2: FontModel<P>,
    id: u16,
    second: Option<Glyph<P>>,
)
    requires
        lookup_step(f0, f1, id, None),
        lookup_step(f1, f2, id, second),
        f0.backend == Backend::Outline,
    ensures
        !f1.glyphs.contains_key(id),
        second is None,
        f2.glyphs == f1.glyphs,
        f2.extractions == f1.extractions + 1,
{
}

/// A lookup of one glyph id keeps every glyph already cached for another:
/// the cache only grows, and no entry is ever replaced.
pub proof fn lemma_glyph_lookup_keeps_others<P>(
    f0: FontModel<P>,
    f1: FontModel<P>,
    id: u16,
    found: Option<Glyph<P>>,
    other: u16,
)
    requires
        lookup_step(f0, f1, id, found),
        f0.glyphs.contains_key(other),
    ensures
        f1.glyphs.contains_key(other),
        f1.glyphs[other] == f0.glyphs[other],
        f0.glyphs.dom().subset_of(f1.glyphs.dom()),
{
}

/// What the scaling backend reported of a face.
#[derive(Copy, Clone, Debug, PartialEq, Eq)]
pub struct ScalerReport {
    pub metrics: ScalerMetrics,
    pub weight: u16,
    pub stretch: u16,
    pub slope: Slope,
    pub variable: bool,
}

impl ScalerReport {
    pub open spec fn wf(self) -> bool {
        &&& i16::MIN <= self.metrics.ascent <= i16::MAX
        &&& i16::MIN <= self.metrics.descent <= i16::MAX
        &&& i16::MIN <= self.metrics.leading <= i16::MAX
    }

    /// `m` holds the unscaled metrics that this report gives.
    pub open spec fn describes(self, m: MetricsModel) -> bool {
        &&& m.ascender == self.metrics.ascent
        &&& m.descender == -self.metrics.descent
        &&& m.height == self.metrics.ascent + self.metrics.descent + self.metrics.leading
        &&& m.scale_numer == 1
        &&& m.scale_denom == 1
        &&& m.flags.spec_regular() == (self.weight == 400 && self.slope == Slope::Normal
            && self.stretch == 100)
        &&& m.flags.spec_italic() == (self.slope == Slope::Italic)
        &&& m.flags.spec_bold() == (self.weight >= 700)
        &&& m.flags.spec_oblique() == (self.slope == Slope::Oblique)
        &&& m.flags.spec_variable() == self.variable
        &&& m.weight == self.weight
        &&& m.width == crate::metrics::stretch_width_class(self.stretch)
    }
}

} // verus!
