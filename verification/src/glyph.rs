//! Glyphs: one display character with an optional set of visual attributes.

use vstd::prelude::*;

verus! {

/// A terminal colour.
#[derive(Clone, Copy, Debug, PartialEq, Eq, Structural)]
pub enum GlyphColor {
    /// The terminal's default colour.
    Reset,
    Black,
    DarkGrey,
    Red,
    DarkRed,
    Green,
    DarkGreen,
    Yellow,
    DarkYellow,
    Blue,
    DarkBlue,
    Magenta,
    DarkMagenta,
    Cyan,
    DarkCyan,
    White,
    Grey,
    /// A colour by its red, green and blue parts.
    Rgb { r: u8, g: u8, b: u8 },
    /// A colour of the 256-colour palette.
    AnsiValue(u8),
}

/// A weight of the text.
#[derive(Clone, Copy, Debug, PartialEq, Eq, Structural)]
pub enum Emphasis {
    Bold,
    Dim,
}

/// The visual attributes of a glyph. Each of them is set or left alone.
#[derive(Clone, Copy, Debug, PartialEq, Eq, Structural)]
pub struct GlyphStyle {
    pub foreground_color: Option<GlyphColor>,
    pub background_color: Option<GlyphColor>,
    pub bold: bool,
    pub dim: bool,
}

impl GlyphStyle {
    /// The style that sets nothing.
    pub open spec fn spec_new() -> GlyphStyle {
        GlyphStyle { foreground_color: None, background_color: None, bold: false, dim: false }
    }

    /// A style that sets nothing.
    #[verifier::when_used_as_spec(spec_new)]
    pub fn new() -> (style: GlyphStyle)
        ensures
            style == GlyphStyle::spec_new(),
    {
        GlyphStyle { foreground_color: None, background_color: None, bold: false, dim: false }
    }

    /// This style with `emphasis` set as well.
    pub open spec fn spec_with_emphasis(self, emphasis: Emphasis) -> GlyphStyle {
        match emphasis {
            Emphasis::Bold => GlyphStyle { bold: true, ..self },
            Emphasis::Dim => GlyphStyle { dim: true, ..self },
        }
    }

    /// Sets `emphasis` and keeps what was set before.
    #[verifier::when_used_as_spec(spec_with_emphasis)]
    pub fn with_emphasis(self, emphasis: Emphasis) -> (style: GlyphStyle)
        ensures
            style == self.spec_with_emphasis(emphasis),
    {
        match emphasis {
            Emphasis::Bold => GlyphStyle { bold: true, ..self },
            Emphasis::Dim => GlyphStyle { dim: true, ..self },
        }
    }
}

/// A display character and, where it is styled, its attributes.
#[derive(Clone, Copy, Debug, PartialEq, Eq, Structural)]
pub struct Symbol {
    pub symbol: char,
    pub style: Option<GlyphStyle>,
}

impl Symbol {
    /// The attributes of this glyph; those of an unstyled glyph set nothing.
    pub open spec fn attributes(self) -> GlyphStyle {
        match self.style {
            Some(style) => style,
            None => GlyphStyle::spec_new(),
        }
    }

    /// Whether the glyph is drawn as its bare character.
    pub open spec fn is_plain(self) -> bool {
        self.style is None
    }

    pub open spec fn spec_new(s: char) -> Symbol {
        Symbol { symbol: s, style: None }
    }

    /// The unstyled glyph of `s`.
    #[verifier::when_used_as_spec(spec_new)]
    pub fn new(s: char) -> (glyph: Symbol)
        ensures
            glyph == Symbol::spec_new(s),
    {
        Symbol { symbol: s, style: None }
    }

    pub open spec fn spec_with_fg(self, color: GlyphColor) -> Symbol {
        Symbol {
            symbol: self.symbol,
            style: Some(GlyphStyle { foreground_color: Some(color), ..self.attributes() }),
        }
    }

    /// Sets the foreground colour; the character and the other attributes stay.
    #[verifier::when_used_as_spec(spec_with_fg)]
    pub fn with_fg(self, color: GlyphColor) -> (glyph: Symbol)
        ensures
            glyph == self.spec_with_fg(color),
    {
        let mut glyph = self;
        glyph.style = match self.style {
            Some(mut style) => {
                style.foreground_color = Some(color);
                Some(style)
            },
            None => {
                let mut style = GlyphStyle::new();
                style.foreground_color = Some(color);
                Some(style)
            },
        };
        glyph
    }

    pub open spec fn spec_with_bg(self, color: GlyphColor) -> Symbol {
        Symbol {
            symbol: self.symbol,
            style: Some(GlyphStyle { background_color: Some(color), ..self.attributes() }),
        }
    }

    /// Sets the background colour; the character and the other attributes stay.
    #[verifier::when_used_as_spec(spec_with_bg)]
    pub fn with_bg(self, color: GlyphColor) -> (glyph: Symbol)
        ensures
            glyph == self.spec_with_bg(color),
    {
        let mut glyph = self;
        glyph.style = match self.style {
            Some(mut style) => {
                style.background_color = Some(color);
                Some(style)
            },
            None => {
                let mut style = GlyphStyle::new();
                style.background_color = Some(color);
                Some(style)
            },
        };
        glyph
    }

    pub open spec fn spec_bold(self) -> Symbol {
        Symbol {
            symbol: self.symbol,
            style: Some(self.attributes().spec_with_emphasis(Emphasis::Bold)),
        }
    }

    /// Makes the glyph bold; the character and the other attributes stay.
    #[verifier::when_used_as_spec(spec_bold)]
    pub fn bold(self) -> (glyph: Symbol)
        ensures
            glyph == self.spec_bold(),
    {
        let mut glyph = self;
        glyph.style = match self.style {
            Some(style) => Some(style.with_emphasis(Emphasis::Bold)),
            None => Some(GlyphStyle::new().with_emphasis(Emphasis::Bold)),
        };
        glyph
    }

    pub open spec fn spec_dim(self) -> Symbol {
        Symbol {
            symbol: self.symbol,
            style: Some(self.attributes().spec_with_emphasis(Emphasis::Dim)),
        }
    }

    /// Makes the glyph dim; the character and the other attributes stay.
    #[verifier::when_used_as_spec(spec_dim)]
    pub fn dim(self) -> (glyph: Symbol)
        ensures
            glyph == self.spec_dim(),
    {
        let mut glyph = self;
        glyph.style = match self.style {
            Some(style) => Some(style.with_emphasis(Emphasis::Dim)),
            None => Some(GlyphStyle::new().with_emphasis(Emphasis::Dim)),
        };
        glyph
    }
}

} // verus!
