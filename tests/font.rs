use font_face::font::{Backend, ErrorKind, Font, ScalerReport};
use font_face::scaling_backend::{ScalerMetrics, Slope};
use font_face::glyph::{Glyph, GlyphMetrics, GlyphRendering};
use font_face::metrics::{Length, Size};

#[derive(Default, Debug, PartialEq)]
struct Recorder {
    commands: Vec<String>,
}

impl ttf_parser::OutlineBuilder for Recorder {
    fn move_to(&mut self, x: f32, y: f32) {
        self.commands.push(format!("M {} {}", x, y));
    }

    fn line_to(&mut self, x: f32, y: f32) {
        self.commands.push(format!("L {} {}", x, y));
    }

    fn quad_to(&mut self, x1: f32, y1: f32, x: f32, y: f32) {
        self.commands.push(format!("Q {} {} {} {}", x1, y1, x, y));
    }

    fn curve_to(&mut self, x1: f32, y1: f32, x2: f32, y2: f32, x: f32, y: f32) {
        self.commands.push(format!("C {} {} {} {} {} {}", x1, y1, x2, y2, x, y));
    }

    fn close(&mut self) {
        self.commands.push("Z".to_string());
    }
}

fn push16(out: &mut Vec<u8>, v: u16) {
    out.extend_from_slice(&v.to_be_bytes());
}

fn push32(out: &mut Vec<u8>, v: u32) {
    out.extend_from_slice(&v.to_be_bytes());
}

fn head_table(units_per_em: u16) -> Vec<u8> {
    let mut t = Vec::new();
    push32(&mut t, 0x0001_0000);
    push32(&mut t, 0);
    push32(&mut t, 0);
    push32(&mut t, 0x5F0F_3CF5);
    push16(&mut t, 0);
    push16(&mut t, units_per_em);
    t.extend_from_slice(&[0u8; 16]);
    for v in [0i16, 0, 1000, 700] {
        push16(&mut t, v as u16);
    }
    push16(&mut t, 0);
    push16(&mut t, 8);
    push16(&mut t, 2);
    push16(&mut t, 0);
    push16(&mut t, 0);
    t
}

fn hhea_table(ascender: i16, descender: i16, line_gap: i16) -> Vec<u8> {
    let mut t = Vec::new();
    push32(&mut t, 0x0001_0000);
    push16(&mut t, ascender as u16);
    push16(&mut t, descender as u16);
    push16(&mut t, line_gap as u16);
    t.extend_from_slice(&[0u8; 24]);
    push16(&mut t, 0);
    t
}

/// Glyph 1 is the triangle (0,0) (500,700) (1000,0); glyph 0 is empty.
fn glyf_table() -> Vec<u8> {
    let mut t = Vec::new();
    for v in [1i16, 0, 0, 1000, 700] {
        push16(&mut t, v as u16);
    }
    push16(&mut t, 2);
    push16(&mut t, 0);
    t.extend_from_slice(&[1, 1, 1]);
    for v in [0i16, 500, 500, 0, 700, -700] {
        push16(&mut t, v as u16);
    }
    t.push(0);
    t
}

fn png_bytes(width: u32, height: u32) -> Vec<u8> {
    let img = image::DynamicImage::ImageRgba8(image::RgbaImage::new(width, height));
    let mut out = std::io::Cursor::new(Vec::new());
    img.write_to(&mut out, image::ImageFormat::Png).unwrap();
    out.into_inner()
}

/// One strike at 32 pixels per em: glyph 1 (which also has an outline) is a
/// 2x3 PNG at (0, 0), glyph 2 a 4x6 PNG at (1, -2).
fn sbix_table() -> Vec<u8> {
    let small = png_bytes(2, 3);
    let large = png_bytes(4, 6);
    let mut t = Vec::new();
    push16(&mut t, 1);
    push16(&mut t, 1);
    push32(&mut t, 1);
    push32(&mut t, 12);
    push16(&mut t, 32);
    push16(&mut t, 72);
    let start = 4 + 4 * 4;
    let second = start + 8 + small.len();
    for v in [start, start, second, second + 8 + large.len()] {
        push32(&mut t, v as u32);
    }
    push16(&mut t, 0);
    push16(&mut t, 0);
    t.extend_from_slice(b"png ");
    t.extend_from_slice(&small);
    push16(&mut t, 1);
    push16(&mut t, (-2i16) as u16);
    t.extend_from_slice(b"png ");
    t.extend_from_slice(&large);
    t
}

fn build_font(units_per_em: u16, ascender: i16, descender: i16, line_gap: i16) -> Vec<u8> {
    build_font_with(units_per_em, ascender, descender, line_gap, false)
}

fn build_font_with(units_per_em: u16, ascender: i16, descender: i16, line_gap: i16, bitmap: bool) -> Vec<u8> {
    let glyph_count: u16 = if bitmap { 3 } else { 2 };
    let mut maxp = Vec::new();
    push32(&mut maxp, 0x0000_5000);
    push16(&mut maxp, glyph_count);
    let mut loca = Vec::new();
    push16(&mut loca, 0);
    push16(&mut loca, 0);
    for _ in 1..glyph_count {
        push16(&mut loca, 15);
    }
    let mut tables: Vec<(&[u8; 4], Vec<u8>)> = vec![
        (b"glyf", glyf_table()),
        (b"head", head_table(units_per_em)),
        (b"hhea", hhea_table(ascender, descender, line_gap)),
        (b"loca", loca),
        (b"maxp", maxp),
    ];
    if bitmap {
        tables.push((b"sbix", sbix_table()));
    }
    let mut out = Vec::new();
    push32(&mut out, 0x0001_0000);
    push16(&mut out, tables.len() as u16);
    push16(&mut out, 64);
    push16(&mut out, 2);
    push16(&mut out, 16);
    let mut offset = 12 + 16 * tables.len();
    let mut body = Vec::new();
    for (tag, data) in &tables {
        out.extend_from_slice(&tag[..]);
        push32(&mut out, 0);
        push32(&mut out, offset as u32);
        push32(&mut out, data.len() as u32);
        let mut padded = data.clone();
        while padded.len() % 4 != 0 {
            padded.push(0);
        }
        offset += padded.len();
        body.extend_from_slice(&padded);
    }
    out.extend_from_slice(&body);
    out
}

fn sample_font() -> Vec<u8> {
    build_font(1000, 800, -200, 90)
}

fn as_f64(len: Length) -> f64 {
    len.numer as f64 / len.denom as f64
}

#[test]
fn outline_font_reads_vertical_metrics() {
    let font: Font<Recorder> = Font::new_with_data(sample_font(), 0, Backend::Outline).unwrap();
    let m = font.metrics(Size { numer: 1000, denom: 1 });
    assert_eq!(m.ascender(), Length { numer: 800 * 1000, denom: 1000 });
    assert_eq!(m.descender(), Length { numer: -200 * 1000, denom: 1000 });
    // 800 + 200 + 90 (line gap)
    assert_eq!(m.height(), 1090);
    assert!(m.regular());
    assert!(!m.italic());
    assert!(!m.bold());
    assert!(!m.oblique());
    assert!(!m.variable());
    assert_eq!(m.weight(), 400);
    assert_eq!(m.width(), 5);
    assert_eq!(font.face_index(), 0);
    assert_eq!(font.data(), &sample_font()[..]);
}

#[test]
fn metrics_at_sixteen_pixels() {
    let font: Font<Recorder> = Font::new_with_data(sample_font(), 0, Backend::Outline).unwrap();
    let m = font.metrics(Size { numer: 16, denom: 1 });
    assert!((as_f64(m.ascender()) - 12.8).abs() < 1e-4);
    assert_eq!(m.ascender(), Length { numer: 800 * 16, denom: 1000 });
    assert!((as_f64(m.descender()) + 3.2).abs() < 1e-4);
    // 1090 * 16 / 1000 = 17.44
    assert_eq!(m.height(), 17);
}

#[test]
fn scale_is_size_over_units_per_em() {
    let font: Font<Recorder> = Font::new_with_data(sample_font(), 0, Backend::Outline).unwrap();
    assert_eq!(font.scale(Size { numer: 16, denom: 1 }), Length { numer: 16, denom: 1000 });
    assert_eq!(font.scale(Size { numer: 25, denom: 2 }), Length { numer: 25, denom: 2000 });
}

#[test]
fn scaling_is_exact_for_fractional_sizes() {
    let font: Font<Recorder> = Font::new_with_data(sample_font(), 0, Backend::Outline).unwrap();
    let m = font.metrics(Size { numer: 21, denom: 2 });
    // 800 * 10.5 / 1000 = 8.4
    assert!((as_f64(m.ascender()) - 8.4).abs() < 1e-9);
    // 1090 * 10.5 / 1000 = 11.445
    assert_eq!(m.height(), 11);
}

#[test]
fn height_is_rounded_to_nearest() {
    let font: Font<Recorder> = Font::new_with_data(build_font(1000, 700, -200, 0), 0, Backend::Outline).unwrap();
    // height 900 design units; at 13 px: 11.7
    assert_eq!(font.metrics(Size { numer: 13, denom: 1 }).height(), 12);
    // at 12 px: 10.8
    assert_eq!(font.metrics(Size { numer: 12, denom: 1 }).height(), 11);
    // at 1 px: 0.9
    assert_eq!(font.metrics(Size { numer: 1, denom: 1 }).height(), 1);
    // at 0 px: 0
    assert_eq!(font.metrics(Size { numer: 0, denom: 1 }).height(), 0);
}

#[test]
fn scaling_font_sums_descent_into_height() {
    let font: Font<Recorder> = Font::new_with_data(sample_font(), 0, Backend::Scaling).unwrap();
    let m = font.metrics(Size { numer: 1000, denom: 1 });
    assert_eq!(m.ascender(), Length { numer: 800 * 1000, denom: 1000 });
    assert_eq!(m.descender(), Length { numer: -200 * 1000, denom: 1000 });
    // 800 + 200 + 90
    assert_eq!(m.height(), 1090);
    assert_eq!(m.width(), 5);
    assert_eq!(m.weight(), 400);
    assert!(m.regular());
    assert!(!m.bold());
    assert_eq!(font.backend(), Backend::Scaling);
    assert!(font.face_ref().is_none());
}

#[test]
fn outline_font_height_includes_line_gap() {
    let font: Font<Recorder> = Font::new_with_data(build_font(1000, 700, -300, 200), 0, Backend::Outline).unwrap();
    assert_eq!(font.metrics(Size { numer: 1000, denom: 1 }).height(), 1200);
    assert!(font.face_ref().is_some());
}

#[test]
fn scaling_font_with_zero_em_is_refused() {
    let r: Result<Font<Recorder>, ErrorKind> = Font::new_with_data(build_font(0, 800, -200, 0), 0, Backend::Scaling);
    assert_eq!(r.err(), Some(ErrorKind::FontParseError));
}

#[test]
fn outline_font_with_zero_em_is_refused() {
    let r: Result<Font<Recorder>, ErrorKind> = Font::new_with_data(build_font(0, 800, -200, 0), 0, Backend::Outline);
    assert_eq!(r.err(), Some(ErrorKind::FontParseError));
}

#[test]
fn garbage_bytes_are_refused() {
    for backend in [Backend::Outline, Backend::Scaling] {
        let r: Result<Font<Recorder>, ErrorKind> = Font::new_with_data(vec![0xde, 0xad, 0xbe, 0xef, 1, 2, 3], 0, backend);
        assert_eq!(r.err(), Some(ErrorKind::FontParseError));
        let r: Result<Font<Recorder>, ErrorKind> = Font::new_with_data(Vec::new(), 0, backend);
        assert_eq!(r.err(), Some(ErrorKind::FontParseError));
    }
}

#[test]
fn truncated_font_is_refused() {
    let full = sample_font();
    for len in [4usize, 12, 40, 100] {
        let r: Result<Font<Recorder>, ErrorKind> = Font::new_with_data(full[..len].to_vec(), 0, Backend::Outline);
        assert_eq!(r.err(), Some(ErrorKind::FontParseError));
    }
}

#[test]
fn face_index_out_of_range_is_refused() {
    let r: Result<Font<Recorder>, ErrorKind> = Font::new_with_data(sample_font(), 3, Backend::Outline);
    assert_eq!(r.err(), Some(ErrorKind::FontParseError));
}

#[test]
fn no_backend_refuses_every_font() {
    let r: Result<Font<Recorder>, ErrorKind> = Font::new_with_data(sample_font(), 0, Backend::Unavailable);
    assert_eq!(r.err(), Some(ErrorKind::FontParseError));
}

#[test]
fn outline_glyph_is_extracted_and_cached() {
    let mut font: Font<Recorder> = Font::new_with_data(sample_font(), 0, Backend::Outline).unwrap();
    assert!(font.cached_glyph(1).is_none());
    let glyph = font.glyph(1).unwrap();
    let path = glyph.path.as_ref().unwrap();
    assert_eq!(path.commands, vec!["M 0 0", "L 500 700", "L 1000 0", "L 0 0", "Z"]);
    assert_eq!(
        glyph.metrics,
        GlyphMetrics {
            width: Length { numer: 1000, denom: 1 },
            height: Length { numer: 700, denom: 1 },
            bearing_x: Length { numer: 0, denom: 1 },
            bearing_y: Length { numer: 700, denom: 1 },
        }
    );
    assert!(font.cached_glyph(1).is_some());
}

#[test]
fn repeated_lookup_returns_identical_glyph() {
    let mut font: Font<Recorder> = Font::new_with_data(sample_font(), 0, Backend::Outline).unwrap();
    let first = font.glyph(1).map(|g| (g.path.as_ref().map(|p| p.commands.clone()), g.metrics));
    let second = font.glyph(1).map(|g| (g.path.as_ref().map(|p| p.commands.clone()), g.metrics));
    assert!(first.is_some());
    assert_eq!(first, second);
}

#[test]
fn missing_glyph_is_not_cached() {
    let mut font: Font<Recorder> = Font::new_with_data(sample_font(), 0, Backend::Outline).unwrap();
    assert!(font.glyph(0).is_none());
    assert!(font.cached_glyph(0).is_none());
    assert!(font.glyph(7).is_none());
    assert!(font.cached_glyph(7).is_none());
}

#[test]
fn sequential_lookups_of_distinct_glyphs() {
    let mut font: Font<Recorder> = Font::new_with_data(sample_font(), 0, Backend::Outline).unwrap();
    let first = font.glyph(1).map(|g| g.metrics);
    assert!(first.is_some());
    assert!(font.glyph(0).is_none());
    let again = font.glyph(1).map(|g| g.metrics);
    assert_eq!(first, again);
}

#[test]
fn outline_glyph_renders_as_path() {
    let mut font: Font<Recorder> = Font::new_with_data(sample_font(), 0, Backend::Outline).unwrap();
    match font.glyph_rendering_representation(1, 16) {
        Some(GlyphRendering::RenderAsPath(p)) => assert_eq!(p.commands.len(), 5),
        _ => panic!("expected a path"),
    }
    assert!(font.glyph_rendering_representation(9, 16).is_none());
    assert!(font.glyph_rendering_representation(0, 16).is_none());
}

#[test]
fn scaling_font_reads_glyphs_from_cache_only() {
    let mut font: Font<Recorder> = Font::new_with_data(sample_font(), 0, Backend::Scaling).unwrap();
    assert!(font.glyph(1).is_none());
    let metrics = GlyphMetrics {
        width: Length { numer: 10, denom: 1 },
        height: Length { numer: 20, denom: 1 },
        bearing_x: Length { numer: 1, denom: 1 },
        bearing_y: Length { numer: 20, denom: 1 },
    };
    let path = Recorder { commands: vec!["M 0 0".to_string(), "Z".to_string()] };
    assert!(font.cache_extracted(1, Some(Glyph { path: Some(path), metrics })).is_some());
    let kept = font.cache_extracted(1, Some(Glyph { path: None, metrics })).unwrap();
    assert!(kept.path.is_some());
    assert!(font.cache_extracted(2, None).is_none());
    assert!(font.cached_glyph(2).is_none());
    let g = font.glyph(1).unwrap();
    assert_eq!(g.metrics, metrics);
    assert_eq!(g.path.as_ref().unwrap().commands.len(), 2);
    match font.glyph_rendering_representation(1, 16) {
        Some(GlyphRendering::RenderAsPath(p)) => assert_eq!(p.commands.len(), 2),
        _ => panic!("expected a path"),
    }
}

fn report(units_per_em: u16) -> ScalerReport {
    ScalerReport {
        metrics: ScalerMetrics { units_per_em, ascent: 750, descent: 250, leading: 100 },
        weight: 800,
        stretch: 25,
        slope: Slope::Oblique,
        variable: false,
    }
}

#[test]
fn scaler_report_with_zero_em_is_refused() {
    let r: Result<Font<Recorder>, ErrorKind> = Font::from_scaler_report(sample_font(), 0, report(0));
    assert_eq!(r.err(), Some(ErrorKind::FontParseError));
}

#[test]
fn scaler_report_gives_the_metrics() {
    let font: Font<Recorder> = Font::from_scaler_report(sample_font(), 0, report(2048)).unwrap();
    let m = font.metrics(Size { numer: 2048, denom: 1 });
    assert_eq!(m.ascender(), Length { numer: 750 * 2048, denom: 2048 });
    assert_eq!(m.descender(), Length { numer: -250 * 2048, denom: 2048 });
    assert_eq!(m.height(), 1100);
    assert_eq!(m.width(), 2);
    assert_eq!(m.weight(), 800);
    assert!(m.bold());
    assert!(m.oblique());
    assert!(!m.regular());
    assert_eq!(font.scale(Size { numer: 12, denom: 1 }), Length { numer: 12, denom: 2048 });
}

fn bitmap_font() -> Vec<u8> {
    build_font_with(1000, 800, -200, 0, true)
}

#[test]
fn bitmap_glyph_has_no_path_and_strike_metrics() {
    let mut font: Font<Recorder> = Font::new_with_data(bitmap_font(), 0, Backend::Outline).unwrap();
    let glyph = font.glyph(2).unwrap();
    assert!(glyph.path.is_none());
    assert_eq!(
        glyph.metrics,
        GlyphMetrics {
            width: Length { numer: 4 * 1000, denom: 32 },
            height: Length { numer: 6 * 1000, denom: 32 },
            bearing_x: Length { numer: 1000, denom: 32 },
            bearing_y: Length { numer: 4 * 1000, denom: 32 },
        }
    );
    // glyph 1 has a bitmap too, but its outline comes first
    assert!(font.glyph(1).unwrap().path.is_some());
}

#[test]
fn bitmap_glyph_renders_as_image() {
    let mut font: Font<Recorder> = Font::new_with_data(bitmap_font(), 0, Backend::Outline).unwrap();
    match font.glyph_rendering_representation(2, 32) {
        Some(GlyphRendering::RenderAsImage(img)) => {
            assert_eq!(img.width(), 4);
            assert_eq!(img.height(), 6);
        }
        _ => panic!("expected an image"),
    }
    // an image leaves the cache alone
    assert!(font.cached_glyph(2).is_none());
    match font.glyph_rendering_representation(1, 32) {
        Some(GlyphRendering::RenderAsImage(img)) => assert_eq!((img.width(), img.height()), (2, 3)),
        _ => panic!("expected an image"),
    }
}

#[test]
fn scaling_font_with_unnegatable_descender_is_refused() {
    let data = build_font(1000, 800, i16::MIN, 0);
    let r: Result<Font<Recorder>, ErrorKind> = Font::new_with_data(data.clone(), 0, Backend::Scaling);
    assert_eq!(r.err(), Some(ErrorKind::FontParseError));
    let outline: Font<Recorder> = Font::new_with_data(data, 0, Backend::Outline).unwrap();
    assert_eq!(outline.metrics(Size { numer: 1000, denom: 1 }).height(), 800 + 32768);
}
