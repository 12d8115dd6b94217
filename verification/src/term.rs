//! The terminal styling layer. crossterm turns a styled glyph into the text
//! that draws it. What is handed to crossterm is stated here; what text it
//! makes of that is not, since it depends on the terminal the process runs
//! on.

use crate::glyph::{Emphasis, GlyphColor, GlyphStyle, Symbol};
use crossterm::style::{Attribute, Color as TermColor, ContentStyle};
use vstd::prelude::*;

verus! {

/// crossterm's `ContentStyle`, carried from its making to its use.
#[verifier::external_type_specification]
#[verifier::external_body]
pub struct ExContentStyle(crossterm::style::ContentStyle);

/// crossterm's `Color`, carried from its making to its use.
#[verifier::external_type_specification]
#[verifier::external_body]
pub struct ExTermColor(crossterm::style::Color);

/// What a crossterm colour holds: the colour of the same name and parts.
pub uninterp spec fn held_color(color: TermColor) -> GlyphColor;

/// What a crossterm style holds of the attributes that a glyph can have: its
/// fields `foreground_color` and `background_color`, and whether its field
/// `attributes` has `Bold` and has `Dim`.
pub uninterp spec fn held_style(content: ContentStyle) -> GlyphStyle;

/// `ContentStyle::new` makes the default style: no colour and no attribute.
#[verifier::external_body]
fn new_content() -> (content: ContentStyle)
    ensures
        held_style(content) == GlyphStyle::spec_new(),
{
    ContentStyle::new()
}

/// The crossterm colour of the same name and parts.
#[verifier::external_body]
fn term_color(color: GlyphColor) -> (term: TermColor)
    ensures
        held_color(term) == color,
{
    match color {
        GlyphColor::Reset => TermColor::Reset,
        GlyphColor::Black => TermColor::Black, GlyphColor::DarkGrey => TermColor::DarkGrey,
        GlyphColor::Red => TermColor::Red, GlyphColor::DarkRed => TermColor::DarkRed,
        GlyphColor::Green => TermColor::Green, GlyphColor::DarkGreen => TermColor::DarkGreen,
        GlyphColor::Yellow => TermColor::Yellow, GlyphColor::DarkYellow => TermColor::DarkYellow,
        GlyphColor::Blue => TermColor::Blue, GlyphColor::DarkBlue => TermColor::DarkBlue,
        GlyphColor::Magenta => TermColor::Magenta, GlyphColor::DarkMagenta => TermColor::DarkMagenta,
        GlyphColor::Cyan => TermColor::Cyan, GlyphColor::DarkCyan => TermColor::DarkCyan,
        GlyphColor::White => TermColor::White, GlyphColor::Grey => TermColor::Grey,
        GlyphColor::Rgb { r, g, b } => TermColor::Rgb { r, g, b },
        GlyphColor::AnsiValue(value) => TermColor::AnsiValue(value),
    }
}

/// Writes `color` to the field `foreground_color` of crossterm's
/// `ContentStyle`; the other fields stay.
#[verifier::external_body]
fn with_foreground(style: ContentStyle, color: TermColor) -> (content: ContentStyle)
    ensures
        held_style(content) == (GlyphStyle {
            foreground_color: Some(held_color(color)),
            ..held_style(style)
        }),
{
    ContentStyle { foreground_color: Some(color), ..style }
}

/// Writes `color` to the field `background_color` of crossterm's
/// `ContentStyle`; the other fields stay.
#[verifier::external_body]
fn with_background(style: ContentStyle, color: TermColor) -> (content: ContentStyle)
    ensures
        held_style(content) == (GlyphStyle {
            background_color: Some(held_color(color)),
            ..held_style(style)
        }),
{
    ContentStyle { background_color: Some(color), ..style }
}

/// `Attributes::set` on the field `attributes` of crossterm's `ContentStyle`,
/// with the attribute of the same name: that attribute is set, and the other
/// attributes and the colours stay.
#[verifier::external_body]
fn with_attribute(style: ContentStyle, emphasis: Emphasis) -> (content: ContentStyle)
    ensures
        held_style(content) == held_style(style).spec_with_emphasis(emphasis),
{
    let mut style = style;
    style.attributes.set(match emphasis {
        Emphasis::Bold => Attribute::Bold,
        Emphasis::Dim => Attribute::Dim,
    });
    style
}

/// `ContentStyle::apply` on a character, then the `Display` of the
/// `StyledContent` that it returns: the text that draws `symbol` in `style`.
/// Nothing is claimed of it: what crossterm writes depends on the terminal.
#[verifier::external_body]
fn styled_text(style: ContentStyle, symbol: char) -> String {
    format!("{}", style.apply(symbol))
}

/// The crossterm style that holds what `style` holds: the same colours, and
/// `Bold` and `Dim` where `style` is bold and dim.
fn content_style(style: &GlyphStyle) -> (content: ContentStyle)
    ensures
        held_style(content) == *style,
{
    let mut content = new_content();
    if let Some(color) = style.foreground_color {
        content = with_foreground(content, term_color(color));
    }
    if let Some(color) = style.background_color {
        content = with_background(content, term_color(color));
    }
    if style.bold {
        content = with_attribute(content, Emphasis::Bold);
    }
    if style.dim {
        content = with_attribute(content, Emphasis::Dim);
    }
    content
}

/// The text that draws `glyph`: the bare character of an unstyled glyph, and
/// for a styled one what the styling layer makes of it.
pub fn glyph_text(glyph: &Symbol) -> (text: String)
    ensures
        glyph.is_plain() ==> text@ == seq![glyph.symbol],
{
    match glyph.style {
        Some(style) => styled_text(content_style(&style), glyph.symbol),
        None => {
            let mut text = String::new();
            text.push(glyph.symbol);
            text
        },
    }
}

} // verus!
