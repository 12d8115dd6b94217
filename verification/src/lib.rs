//! Single-line textual progress bars: a bracketed bar whose fill is
//! proportional to a current/maximum ratio, with an optional partial-fill
//! glyph and a trailing percentage.

pub mod bar;
pub mod glyph;
pub mod layout;
pub mod style;
pub mod term;
pub mod text;

pub use crate::bar::{GlyphTexts, LineTexts, Progresso, ProgressoBar};
pub use crate::glyph::{Emphasis, GlyphColor, GlyphStyle, Symbol};
pub use crate::style::{Style, ValueDisplay};
