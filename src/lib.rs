//! Font faces and glyph caching for a vector-graphics text renderer.
//!
//! A [`font::Font`] owns the bytes of a font file, reads its vertical metrics
//! and style classification once through one of two parsing backends, and
//! keeps an append-only cache of glyph outlines keyed by glyph id.
//! Lengths are exact rationals in font design units: scaling them to a pixel
//! size stays exact, and the one rounding (of the line height) is stated.

pub mod flags;
pub mod font;
pub mod glyph;
pub mod metrics;
pub mod outline_backend;
pub mod scaling_backend;

pub use flags::FontFlags;
