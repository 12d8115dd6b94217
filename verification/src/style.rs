//! The visual description of a bar: its glyphs and its numeric annotation.

use crate::glyph::{GlyphColor, Symbol};
use vstd::prelude::*;

verus! {

/// Which numeric annotation follows the bar.
#[derive(Clone, Copy, Debug, PartialEq, Eq, Structural)]
pub enum ValueDisplay {
    /// No annotation.
    Hidden,
    /// Reserved: drawn like `Hidden`.
    CurrentValueOnly,
    /// Reserved: drawn like `Hidden`.
    CurrentAndMaxValue,
    /// A space, the whole percentage, a space and `%`.
    Percentage,
}

impl ValueDisplay {
    /// Whether the percentage is appended to the bar.
    pub open spec fn shows_percentage(self) -> bool {
        self == ValueDisplay::Percentage
    }

    /// Whether the percentage is appended to the bar.
    pub fn is_percentage(&self) -> (shown: bool)
        ensures
            shown == self.shows_percentage(),
    {
        match self {
            ValueDisplay::Percentage => true,
            _ => false,
        }
    }
}

/// Every visual element of a bar. `fill_chars` is the partial-fill palette,
/// from the least filled glyph to the most filled; with an empty palette no
/// partial glyph is ever drawn. `value_suffix` and `value_divisor` are
/// reserved: drawing reads neither.
#[derive(Debug)]
pub struct Style {
    pub value_display: ValueDisplay,
    pub value_suffix: Option<&'static str>,
    pub value_divisor: usize,
    pub left_cap: Symbol,
    pub right_cap: Symbol,
    pub empty_char: Symbol,
    pub done_char: Symbol,
    pub fill_chars: Vec<Symbol>,
}

impl Style {
    /// Whether every glyph of the style is drawn as its bare character.
    pub open spec fn is_plain(&self) -> bool {
        &&& self.left_cap.is_plain()
        &&& self.right_cap.is_plain()
        &&& self.empty_char.is_plain()
        &&& self.done_char.is_plain()
        &&& forall|i: int| 0 <= i < self.fill_chars@.len() ==> (#[trigger] self.fill_chars@[i]).is_plain()
    }

    /// The ASCII style: dim brackets, a space for an empty cell, a bold green
    /// `=` for a done cell, and four green glyphs for the partial cell.
    pub fn default_ascii() -> (style: Style)
        ensures
            style.value_display == ValueDisplay::Hidden,
            style.value_suffix is None,
            style.value_divisor == 1,
            style.left_cap == Symbol::new('[').dim(),
            style.right_cap == Symbol::new(']').dim(),
            style.empty_char == Symbol::new(' '),
            style.done_char == Symbol::new('=').with_fg(GlyphColor::Green).bold(),
            style.fill_chars@ == seq![
                Symbol::new('.').with_fg(GlyphColor::Green),
                Symbol::new(',').with_fg(GlyphColor::Green),
                Symbol::new('-').with_fg(GlyphColor::Green),
                Symbol::new('=').with_fg(GlyphColor::Green),
            ],
    {
        Style {
            value_display: ValueDisplay::Hidden,
            value_suffix: None,
            value_divisor: 1,
            left_cap: Symbol::new('[').dim(),
            right_cap: Symbol::new(']').dim(),
            empty_char: Symbol::new(' '),
            done_char: Symbol::new('=').with_fg(GlyphColor::Green).bold(),
            fill_chars: vec![
                Symbol::new('.').with_fg(GlyphColor::Green),
                Symbol::new(',').with_fg(GlyphColor::Green),
                Symbol::new('-').with_fg(GlyphColor::Green),
                Symbol::new('=').with_fg(GlyphColor::Green),
            ],
        }
    }

    /// The smooth block style: one-eighth blocks as caps, a blue full block
    /// for an empty cell, a yellow one for a done cell, and four yellow-on-blue
    /// left blocks of growing width for the partial cell.
    pub fn new_smooth_unicode() -> (style: Style)
        ensures
            style.value_display == ValueDisplay::Hidden,
            style.value_suffix is None,
            style.value_divisor == 1,
            style.left_cap == Symbol::new('\u{2595}'),
            style.right_cap == Symbol::new('\u{258f}'),
            style.empty_char == Symbol::new('\u{2588}').with_fg(GlyphColor::Blue),
            style.done_char == Symbol::new('\u{2588}').with_fg(GlyphColor::Yellow),
            style.fill_chars@ == seq![
                Symbol::new('\u{258f}').with_fg(GlyphColor::Yellow).with_bg(GlyphColor::Blue),
                Symbol::new('\u{258d}').with_fg(GlyphColor::Yellow).with_bg(GlyphColor::Blue),
                Symbol::new('\u{258b}').with_fg(GlyphColor::Yellow).with_bg(GlyphColor::Blue),
                Symbol::new('\u{2589}').with_fg(GlyphColor::Yellow).with_bg(GlyphColor::Blue),
            ],
    {
        Style {
            value_display: ValueDisplay::Hidden,
            value_suffix: None,
            value_divisor: 1,
            left_cap: Symbol::new('\u{2595}'),
            right_cap: Symbol::new('\u{258f}'),
            empty_char: Symbol::new('\u{2588}').with_fg(GlyphColor::Blue),
            done_char: Symbol::new('\u{2588}').with_fg(GlyphColor::Yellow),
            fill_chars: vec![
                Symbol::new('\u{258f}').with_fg(GlyphColor::Yellow).with_bg(GlyphColor::Blue),
                Symbol::new('\u{258d}').with_fg(GlyphColor::Yellow).with_bg(GlyphColor::Blue),
                Symbol::new('\u{258b}').with_fg(GlyphColor::Yellow).with_bg(GlyphColor::Blue),
                Symbol::new('\u{2589}').with_fg(GlyphColor::Yellow).with_bg(GlyphColor::Blue),
            ],
        }
    }

    /// The climbing block style: one-eighth blocks as caps, a dark grey full
    /// block for an empty cell, a magenta one for a done cell, and four
    /// magenta-on-grey quadrant blocks for the partial cell.
    pub fn new_climbing_blocks_unicode() -> (style: Style)
        ensures
            style.value_display == ValueDisplay::Hidden,
            style.value_suffix is None,
            style.value_divisor == 1,
            style.left_cap == Symbol::new('\u{2595}'),
            style.right_cap == Symbol::new('\u{258f}'),
            style.empty_char == Symbol::new('\u{2588}').with_fg(GlyphColor::DarkGrey),
            style.done_char == Symbol::new('\u{2588}').with_fg(GlyphColor::Magenta),
            style.fill_chars@ == seq![
                Symbol::new('\u{2598}').with_fg(GlyphColor::Magenta).with_bg(GlyphColor::DarkGrey),
                Symbol::new('\u{259a}').with_fg(GlyphColor::Magenta).with_bg(GlyphColor::DarkGrey),
                Symbol::new('\u{2599}').with_fg(GlyphColor::Magenta).with_bg(GlyphColor::DarkGrey),
                Symbol::new('\u{2588}').with_fg(GlyphColor::Magenta).with_bg(GlyphColor::DarkGrey),
            ],
    {
        Style {
            value_display: ValueDisplay::Hidden,
            value_suffix: None,
            value_divisor: 1,
            left_cap: Symbol::new('\u{2595}'),
            right_cap: Symbol::new('\u{258f}'),
            empty_char: Symbol::new('\u{2588}').with_fg(GlyphColor::DarkGrey),
            done_char: Symbol::new('\u{2588}').with_fg(GlyphColor::Magenta),
            fill_chars: vec![
                Symbol::new('\u{2598}').with_fg(GlyphColor::Magenta).with_bg(GlyphColor::DarkGrey),
                Symbol::new('\u{259a}').with_fg(GlyphColor::Magenta).with_bg(GlyphColor::DarkGrey),
                Symbol::new('\u{2599}').with_fg(GlyphColor::Magenta).with_bg(GlyphColor::DarkGrey),
                Symbol::new('\u{2588}').with_fg(GlyphColor::Magenta).with_bg(GlyphColor::DarkGrey),
            ],
        }
    }
}

} // verus!
