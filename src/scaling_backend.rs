//! Trusted declarations for the scaling backend, which reads faces with
//! `swash`. Each query takes the font file's bytes and the face index, finds
//! the face, and asks it; every answer depends on those arguments alone.

use vstd::prelude::*;

verus! {

#[verifier::external_type_specification]
#[verifier::external_body]
pub struct ExFontRef<'a>(swash::FontRef<'a>);

/// Slope of a face as the scaling backend classifies it.
#[derive(Copy, Clone, Debug, PartialEq, Eq)]
pub enum Slope {
    Normal,
    Italic,
    Oblique,
}

/// Unscaled vertical metrics as the scaling backend reports them: `ascent`
/// and `descent` are both distances from the baseline.
#[derive(Copy, Clone, Debug, PartialEq, Eq)]
pub struct ScalerMetrics {
    pub units_per_em: u16,
    pub ascent: i32,
    pub descent: i32,
    pub leading: i32,
}

impl ScalerMetrics {
    pub open spec fn parts(self) -> (u16, i32, i32, i32) {
        (self.units_per_em, self.ascent, self.descent, self.leading)
    }
}

/// Tags of the tables whose descender swash negates.
pub const HHEA: u32 = 0x6868_6561;
pub const OS_2: u32 = 0x4F53_2F32;
pub const VHEA: u32 = 0x7668_6561;

/// Whether `swash` finds face `index` in the font file `data`.
pub uninterp spec fn swash_face_found(data: Seq<u8>, index: usize) -> bool;

/// The bytes of table `tag` of the face, if it is found and has that table.
pub uninterp spec fn swash_table_bytes(data: Seq<u8>, index: usize, tag: u32) -> Option<Seq<u8>>;

/// `(units_per_em, ascent, descent, leading)` of the face, without variation
/// coordinates.
pub uninterp spec fn swash_metrics_of(data: Seq<u8>, index: usize) -> (u16, i32, i32, i32);

/// The face's weight attribute.
pub uninterp spec fn swash_weight_of(data: Seq<u8>, index: usize) -> u16;

/// The face's stretch attribute, in half percent above 50%.
pub uninterp spec fn swash_stretch_of(data: Seq<u8>, index: usize) -> u16;

/// The face's slope attribute.
pub uninterp spec fn swash_slope_of(data: Seq<u8>, index: usize) -> Slope;

/// Whether the face has any variation axis.
pub uninterp spec fn swash_variable_of(data: Seq<u8>, index: usize) -> bool;

/// Whether the big-endian `i16` at `offset` of `table` can be negated: the
/// table is absent, too short to hold it (swash then reads 0), or it is not
/// `i16::MIN`.
pub open spec fn negatable_at(table: Option<Seq<u8>>, offset: int) -> bool {
    match table {
        None => true,
        Some(t) => t.len() < offset + 2 || !(t[offset] == 0x80 && t[offset + 1] == 0),
    }
}

/// Whether swash can read the face's vertical metrics without overflow: it
/// negates the descender of `hhea` (offset 6), the typographic descender of
/// `OS/2` (offset 70) and the descender of `vhea` (offset 6).
pub open spec fn swash_descenders_negatable(data: Seq<u8>, index: usize) -> bool {
    &&& negatable_at(swash_table_bytes(data, index, HHEA), 6)
    &&& negatable_at(swash_table_bytes(data, index, OS_2), 70)
    &&& negatable_at(swash_table_bytes(data, index, VHEA), 6)
}

/// Relies on swash::FontRef::from_index: finds the face exactly when the data
/// is a font file holding that index, the same way each time.
pub assume_specification<'a>[ swash::FontRef::<'a>::from_index ](data: &'a [u8], index: usize) -> (r:
    Option<swash::FontRef<'a>>)
    ensures
        r is Some == swash_face_found(data@, index),
;

/// Relies on swash::FontRef::table: the bytes of a table of the face.
#[verifier::external_body]
pub(crate) fn scaler_table(data: &[u8], index: usize, tag: u32) -> (r: Option<Vec<u8>>)
    ensures
        r is Some == swash_table_bytes(data@, index, tag) is Some,
        r matches Some(t) ==> swash_table_bytes(data@, index, tag) == Some(t@),
{
    swash::FontRef::from_index(data, index)?.table(tag).map(|t| t.to_vec())
}

/// Relies on swash::Attributes::weight (through FontRef::attributes), whose
/// weight is packed in ten bits.
#[verifier::external_body]
pub(crate) fn scaler_weight(data: &[u8], index: usize) -> (r: Option<u16>)
    ensures
        r is Some == swash_face_found(data@, index),
        r matches Some(w) ==> w == swash_weight_of(data@, index) && w <= 0x3ff,
{
    swash::FontRef::from_index(data, index).map(|f| f.attributes().weight().0)
}

/// Relies on swash::Attributes::stretch (through FontRef::attributes) and
/// Stretch::raw: half percent above 50%, packed in nine bits.
#[verifier::external_body]
pub(crate) fn scaler_stretch(data: &[u8], index: usize) -> (r: Option<u16>)
    ensures
        r is Some == swash_face_found(data@, index),
        r matches Some(s) ==> s == swash_stretch_of(data@, index) && s <= 0x1ff,
{
    swash::FontRef::from_index(data, index).map(|f| f.attributes().stretch().raw())
}

/// Relies on swash::Attributes::style (through FontRef::attributes), keeping
/// only which of the three slopes it is.
#[verifier::external_body]
pub(crate) fn scaler_slope(data: &[u8], index: usize) -> (r: Option<Slope>)
    ensures
        r is Some == swash_face_found(data@, index),
        r matches Some(s) ==> s == swash_slope_of(data@, index),
{
    swash::FontRef::from_index(data, index).map(
        |f| match f.attributes().style() {
            swash::Style::Normal => Slope::Normal,
            swash::Style::Italic => Slope::Italic,
            swash::Style::Oblique(_) => Slope::Oblique,
        },
    )
}

/// Relies on swash::FontRef::variations: whether the face has any variation
/// axis.
#[verifier::external_body]
pub(crate) fn scaler_has_variations(data: &[u8], index: usize) -> (r: Option<bool>)
    ensures
        r is Some == swash_face_found(data@, index),
        r matches Some(v) ==> v == swash_variable_of(data@, index),
{
    swash::FontRef::from_index(data, index).map(|f| f.variations().next().is_some())
}

/// Relies on swash::FontRef::metrics without variation coordinates, where
/// swash widens each of these metrics from an `i16` of the font's tables (and
/// negates the descender), so the casts back are exact. The negations cannot
/// overflow on the faces that `requires` admits.
#[verifier::external_body]
pub(crate) fn scaler_metrics(data: &[u8], index: usize) -> (r: Option<ScalerMetrics>)
    requires
        swash_descenders_negatable(data@, index),
    ensures
        r is Some == swash_face_found(data@, index),
        r matches Some(m) ==> {
            &&& m.parts() == swash_metrics_of(data@, index)
            &&& i16::MIN <= m.ascent <= i16::MAX
            &&& i16::MIN <= m.descent <= i16::MAX
            &&& i16::MIN <= m.leading <= i16::MAX
        },
{
    swash::FontRef::from_index(data, index).map(
        |f| {
            let m = f.metrics(&[]);
            ScalerMetrics {
                units_per_em: m.units_per_em,
                ascent: m.ascent as i32,
                descent: m.descent as i32,
                leading: m.leading as i32,
            }
        },
    )
}

/// Whether the `i16` at `offset` of `table` can be negated.
pub fn descender_negatable(table: &Option<Vec<u8>>, offset: usize) -> (r: bool)
    requires
        offset <= 0x1000,
    ensures
        r == negatable_at(
            match table {
                Some(t) => Some(t@),
                None => None,
            },
            offset as int,
        ),
{
    match table {
        None => true,
        Some(t) => t.len() < offset + 2 || !(t[offset] == 0x80 && t[offset + 1] == 0),
    }
}

/// Whether swash can read the face's vertical metrics without overflow.
pub fn scaler_descenders_negatable(data: &[u8], index: usize) -> (r: bool)
    ensures
        r == swash_descenders_negatable(data@, index),
{
    descender_negatable(&scaler_table(data, index, HHEA), 6) && descender_negatable(
        &scaler_table(data, index, OS_2),
        70,
    ) && descender_negatable(&scaler_table(data, index, VHEA), 6)
}

} // verus!
