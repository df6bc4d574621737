use vstd::prelude::*;

use crate::flags::FontFlags;
use crate::scaling_backend::Slope;

verus! {

/// Largest magnitude of an unscaled vertical metric: three `i16` values summed.
pub const MAX_DESIGN_UNITS: i32 = 0x20000;

/// An exact length, `numer / denom`.
#[derive(Copy, Clone, Debug, PartialEq, Eq)]
pub struct Length {
    pub numer: i64,
    pub denom: u64,
}

/// Nearest integer to `n / d` (`d > 0`); halves round away from zero.
pub open spec fn round_half_away(n: int, d: int) -> int {
    if n >= 0 {
        (2 * n + d) / (2 * d)
    } else {
        -((-2 * n + d) / (2 * d))
    }
}

/// A text size in pixels, `numer / denom`.
#[derive(Copy, Clone, Debug, PartialEq, Eq)]
pub struct Size {
    pub numer: u32,
    pub denom: u32,
}

/// What a `FontMetrics` stands for: vertical metrics in design units, the
/// factor that scales them, and the style classification.
pub struct MetricsModel {
    pub ascender: int,
    pub descender: int,
    pub height: int,
    pub scale_numer: int,
    pub scale_denom: int,
    pub flags: FontFlags,
    pub weight: int,
    pub width: int,
}

/// Vertical metrics and classification of a face, possibly scaled to a size.
#[derive(Copy, Clone, Debug)]
pub struct FontMetrics {
    ascender: i32,
    descender: i32,
    height: i32,
    scale_numer: u32,
    scale_denom: u64,
    flags: FontFlags,
    weight: u16,
    width: u16,
}

impl View for FontMetrics {
    type V = MetricsModel;

    closed spec fn view(&self) -> MetricsModel {
        MetricsModel {
            ascender: self.ascender as int,
            descender: self.descender as int,
            height: self.height as int,
            scale_numer: self.scale_numer as int,
            scale_denom: self.scale_denom as int,
            flags: self.flags,
            weight: self.weight as int,
            width: self.width as int,
        }
    }
}

impl MetricsModel {
    /// The bounds that every `FontMetrics` keeps.
    pub open spec fn wf(self) -> bool {
        &&& -MAX_DESIGN_UNITS <= self.ascender <= MAX_DESIGN_UNITS
        &&& -MAX_DESIGN_UNITS <= self.descender <= MAX_DESIGN_UNITS
        &&& -MAX_DESIGN_UNITS <= self.height <= MAX_DESIGN_UNITS
        &&& 0 <= self.scale_numer <= u32::MAX
        &&& 0 < self.scale_denom <= u32::MAX * u16::MAX
    }

    /// `len` design units under this model's scale factor.
    pub open spec fn scaled(self, len: int) -> Length {
        Length { numer: (len * self.scale_numer) as i64, denom: self.scale_denom as u64 }
    }
}

/// OS/2 width class (1 to 9) of a stretch value given in half percent above
/// 50%; a value outside the nine named stretches counts as normal.
pub open spec fn stretch_width_class(stretch: u16) -> u16 {
    if stretch == 0 {
        1
    } else if stretch == 25 {
        2
    } else if stretch == 50 {
        3
    } else if stretch == 75 {
        4
    } else if stretch == 100 {
        5
    } else if stretch == 125 {
        6
    } else if stretch == 150 {
        7
    } else if stretch == 200 {
        8
    } else if stretch == 300 {
        9
    } else {
        5
    }
}

/// Maps a stretch value (half percent above 50%) to its OS/2 width class.
pub fn width_class_from_stretch(stretch: u16) -> (r: u16)
    ensures
        r == stretch_width_class(stretch),
        1 <= r <= 9,
{
    match stretch {
        0 => 1,
        25 => 2,
        50 => 3,
        75 => 4,
        100 => 5,
        125 => 6,
        150 => 7,
        200 => 8,
        300 => 9,
        _ => 5,
    }
}

/// Nearest integer to `numer / denom`, halves away from zero.
pub fn round_length(len: Length) -> (r: i64)
    requires
        len.denom > 0,
        -0x10_0000_0000_0000 <= len.numer <= 0x10_0000_0000_0000,
        len.denom <= 0x10_0000_0000_0000,
    ensures
        r == round_half_away(len.numer as int, len.denom as int),
{
    let d: i64 = len.denom as i64;
    if len.numer >= 0 {
        (2 * len.numer + d) / (2 * d)
    } else {
        let m: i64 = -len.numer;
        -((2 * m + d) / (2 * d))
    }
}

impl FontMetrics {
    /// Unscaled metrics in design units.
    fn new(
        ascender: i32,
        descender: i32,
        height: i32,
        flags: FontFlags,
        weight: u16,
        width: u16,
    ) -> (r: Self)
        requires
            -MAX_DESIGN_UNITS <= ascender <= MAX_DESIGN_UNITS,
            -MAX_DESIGN_UNITS <= descender <= MAX_DESIGN_UNITS,
            -MAX_DESIGN_UNITS <= height <= MAX_DESIGN_UNITS,
        ensures
            r@ == (MetricsModel {
                ascender: ascender as int,
                descender: descender as int,
                height: height as int,
                scale_numer: 1,
                scale_denom: 1,
                flags,
                weight: weight as int,
                width: width as int,
            }),
            r@.wf(),
    {
        FontMetrics { ascender, descender, height, scale_numer: 1, scale_denom: 1, flags, weight, width }
    }

    #[verifier::type_invariant]
    spec fn inv(self) -> bool {
        self@.wf()
    }

    /// Multiplies the scale factor by `numer / denom`.
    pub(crate) fn scale(&mut self, numer: u32, denom: u64)
        requires
            denom > 0,
            old(self)@.scale_numer * numer <= u32::MAX,
            old(self)@.scale_denom * denom <= u32::MAX * u16::MAX,
        ensures
            final(self)@ == (MetricsModel {
                scale_numer: old(self)@.scale_numer * numer,
                scale_denom: old(self)@.scale_denom * denom,
                ..old(self)@
            }),
    {
        proof {
            use_type_invariant(&*self);
            vstd::arithmetic::mul::lemma_mul_strictly_positive(self.scale_denom as int, denom as int);
        }
        self.scale_numer = self.scale_numer * numer;
        self.scale_denom = self.scale_denom * denom;
    }

    /// Distance from the baseline to the top of the highest glyph.
    pub fn ascender(&self) -> (r: Length)
        ensures
            r == self@.scaled(self@.ascender),
            self@.wf(),
    {
        proof {
            use_type_invariant(self);
        }
        self.scaled_length(self.ascender)
    }

    /// Signed distance from the baseline to the bottom of the lowest descender.
    pub fn descender(&self) -> (r: Length)
        ensures
            r == self@.scaled(self@.descender),
            self@.wf(),
    {
        proof {
            use_type_invariant(self);
        }
        self.scaled_length(self.descender)
    }

    /// Line height, rounded to the nearest integer (halves away from zero).
    pub fn height(&self) -> (r: i64)
        ensures
            r == round_half_away(self@.height * self@.scale_numer, self@.scale_denom),
            self@.wf(),
    {
        proof {
            use_type_invariant(self);
        }
        round_length(self.scaled_length(self.height))
    }

    fn scaled_length(&self, len: i32) -> (r: Length)
        requires
            -MAX_DESIGN_UNITS <= len <= MAX_DESIGN_UNITS,
        ensures
            r == self@.scaled(len as int),
            r.numer == len * self@.scale_numer,
            -0x10_0000_0000_0000 <= r.numer <= 0x10_0000_0000_0000,
            0 < r.denom <= 0x10_0000_0000_0000,
    {
        proof {
            use_type_invariant(self);
            assert(-0x20000 * 0x1_0000_0000 <= len * self.scale_numer <= 0x20000 * 0x1_0000_0000)
                by (nonlinear_arith)
                requires
                    -0x20000 <= len <= 0x20000,
                    0 <= self.scale_numer <= 0xffff_ffff,
            ;
        }
        Length { numer: len as i64 * self.scale_numer as i64, denom: self.scale_denom }
    }

    pub fn regular(&self) -> (r: bool)
        ensures
            r == self@.flags.spec_regular(),
    {
        self.flags.regular()
    }

    pub fn italic(&self) -> (r: bool)
        ensures
            r == self@.flags.spec_italic(),
    {
        self.flags.italic()
    }

    pub fn bold(&self) -> (r: bool)
        ensures
            r == self@.flags.spec_bold(),
    {
        self.flags.bold()
    }

    pub fn oblique(&self) -> (r: bool)
        ensures
            r == self@.flags.spec_oblique(),
    {
        self.flags.oblique()
    }

    pub fn variable(&self) -> (r: bool)
        ensures
            r == self@.flags.spec_variable(),
    {
        self.flags.variable()
    }

    /// Weight class as the face reports it.
    pub fn weight(&self) -> (r: u16)
        ensures
            r == self@.weight,
    {
        self.weight
    }

    /// Width class as the face reports it.
    pub fn width(&self) -> (r: u16)
        ensures
            r == self@.width,
    {
        self.width
    }
}

/// Unscaled metrics from what the outline backend reports: the ascender and
/// the (negative) descender as they stand, and the line height combining
/// ascent, descent and line gap: `ascender - descender + line_gap`.
pub fn outline_face_metrics(
    ascender: i16,
    descender: i16,
    line_gap: i16,
    flags: FontFlags,
    weight: u16,
    width: u16,
) -> (r: FontMetrics)
    ensures
        r@ == (MetricsModel {
            ascender: ascender as int,
            descender: descender as int,
            height: ascender - descender + line_gap,
            scale_numer: 1,
            scale_denom: 1,
            flags,
            weight: weight as int,
            width: width as int,
        }),
        r@.wf(),
{
    FontMetrics::new(
        ascender as i32,
        descender as i32,
        ascender as i32 - descender as i32 + line_gap as i32,
        flags,
        weight,
        width,
    )
}

/// Unscaled metrics from what the scaling backend reports. Its `ascent` and
/// `descent` are both distances from the baseline, so the descender is the
/// negated descent and the height is the sum `ascent + descent + leading`.
/// The style is approximated: regular is weight 400 with a normal slope and
/// normal stretch, bold is weight 700 or more, and the width class comes from
/// the stretch.
pub fn scaling_face_metrics(
    ascent: i32,
    descent: i32,
    leading: i32,
    weight: u16,
    stretch: u16,
    slope: Slope,
    variable: bool,
) -> (r: FontMetrics)
    requires
        i16::MIN <= ascent <= i16::MAX,
        i16::MIN <= descent <= i16::MAX,
        i16::MIN <= leading <= i16::MAX,
    ensures
        r@.ascender == ascent,
        r@.descender == -descent,
        r@.height == ascent + descent + leading,
        r@.scale_numer == 1,
        r@.scale_denom == 1,
        r@.flags.spec_regular() == (weight == 400 && slope == Slope::Normal && stretch == 100),
        r@.flags.spec_italic() == (slope == Slope::Italic),
        r@.flags.spec_bold() == (weight >= 700),
        r@.flags.spec_oblique() == (slope == Slope::Oblique),
        r@.flags.spec_variable() == variable,
        r@.weight == weight,
        r@.width == stretch_width_class(stretch),
        r@.wf(),
{
    let is_regular = weight == 400 && matches!(slope, Slope::Normal) && stretch == 100;
    let is_italic = matches!(slope, Slope::Italic);
    let is_oblique = matches!(slope, Slope::Oblique);
    let flags = FontFlags::new(is_regular, is_italic, weight >= 700, is_oblique, variable);
    FontMetrics::new(
        ascent,
        -descent,
        ascent + descent + leading,
        flags,
        weight,
        width_class_from_stretch(stretch),
    )
}

/// `len` is exactly `n / d`.
pub open spec fn ratio_eq(len: Length, n: int, d: int) -> bool {
    len.numer * d == n * len.denom
}

/// The rounded height is the integer nearest to the exact scaled height
/// (within one half), and it is never negative when the unscaled height is
/// not.
pub proof fn lemma_rounded_height(m: MetricsModel)
    requires
        m.wf(),
    ensures
        ({
            let n = m.height * m.scale_numer;
            let r = round_half_away(n, m.scale_denom);
            &&& 2 * r * m.scale_denom - m.scale_denom <= 2 * n <= 2 * r * m.scale_denom + m.scale_denom
            &&& m.height >= 0 ==> r >= 0
        }),
{
    let n = m.height * m.scale_numer;
    let d = m.scale_denom;
    assert(m.height >= 0 ==> n >= 0) by (nonlinear_arith)
        requires
            n == m.height * m.scale_numer,
            m.scale_numer >= 0,
    ;
    lemma_round_half_away_nearest(n, d);
}

proof fn lemma_round_half_away_nearest(n: int, d: int)
    requires
        d > 0,
    ensures
        ({
            let r = round_half_away(n, d);
            &&& 2 * r * d - d <= 2 * n <= 2 * r * d + d
            &&& n >= 0 ==> r >= 0
        }),
{
    let dd = 2 * d;
    if n >= 0 {
        let q = (2 * n + d) / dd;
        vstd::arithmetic::div_mod::lemma_fundamental_div_mod(2 * n + d, dd);
        vstd::arithmetic::div_mod::lemma_mod_bound(2 * n + d, dd);
        vstd::arithmetic::div_mod::lemma_div_pos_is_pos(2 * n + d, dd);
        assert(2 * q * d == dd * q) by (nonlinear_arith)
            requires
                dd == 2 * d,
        ;
    } else {
        let q = (-2 * n + d) / dd;
        vstd::arithmetic::div_mod::lemma_fundamental_div_mod(-2 * n + d, dd);
        vstd::arithmetic::div_mod::lemma_mod_bound(-2 * n + d, dd);
        assert(2 * (-q) * d == -(dd * q)) by (nonlinear_arith)
            requires
                dd == 2 * d,
        ;
    }
}

} // verus!
