//! Cached glyph layout with scope-based pruning, and conservative pixel bounds of laid-out text.

pub mod geometry;
pub mod glyphed_section;
pub mod calculator;

pub use calculator::{
    DefaultSectionHasher, FontId, GlyphCalculator, GlyphCalculatorBuilder, GlyphCalculatorGuard,
    GlyphCruncher,
};
pub use geometry::PixelRect;
pub use glyphed_section::{GlyphedSection, LaidGlyph};
