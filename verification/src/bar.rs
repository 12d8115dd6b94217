//! The bar: a current value, a maximum value, a width in cells and a style,
//! drawn on demand as one line of text.

use crate::glyph::Symbol;
use crate::layout::{
    amounts, done_cells, empty_cells, has_partial, lemma_all_done, lemma_cells_fill_the_width,
    lemma_done_cells_monotonic, lemma_nothing_done, partial_index, percent,
};
use crate::style::Style;
use crate::term::glyph_text;
use crate::text::{decimal, push_decimal, push_repeated, repeated};
use vstd::prelude::*;
use vstd::string::StringExecFns;
use vstd::utf8::encode_utf8;

verus! {

/// The text of each glyph that a line is made of.
#[verifier::ext_equal]
pub struct LineTexts {
    pub left_cap: Seq<char>,
    pub done: Seq<char>,
    pub partial: Seq<char>,
    pub empty: Seq<char>,
    pub right_cap: Seq<char>,
}

/// The text of each glyph of a bar, as the styling layer gave it.
pub struct GlyphTexts {
    pub left_cap: String,
    pub done: String,
    pub partial: String,
    pub empty: String,
    pub right_cap: String,
}

impl View for GlyphTexts {
    type V = LineTexts;

    open spec fn view(&self) -> LineTexts {
        LineTexts {
            left_cap: self.left_cap@,
            done: self.done@,
            partial: self.partial@,
            empty: self.empty@,
            right_cap: self.right_cap@,
        }
    }
}

/// What the text of a glyph must be: the bare character of an unstyled glyph,
/// anything for a styled one.
pub open spec fn text_fits(glyph: Symbol, text: Seq<char>) -> bool {
    glyph.is_plain() ==> text == seq![glyph.symbol]
}

/// A progress bar. It starts at 0 out of 10, 40 cells wide.
pub struct Progresso {
    style: Style,
    curr_val: u64,
    max_val: u64,
    line_length: usize,
}

/// The operations of a bar. Setters store what they are given: a value
/// beyond the total and a total of zero are both accepted.
pub trait ProgressoBar {
    /// The maximum value.
    spec fn total(&self) -> u64;

    /// The current value.
    spec fn value(&self) -> u64;

    /// The width of the bar in cells, caps not counted.
    spec fn display_len(&self) -> usize;

    /// Whether `line` is a drawing of the bar in its present state.
    spec fn draws(&self, line: Seq<char>) -> bool;

    fn get_total(&self) -> (max: u64)
        ensures
            max == self.total(),
    ;

    fn set_total(&mut self, max: u64)
        ensures
            final(self).total() == max,
            final(self).value() == old(self).value(),
            final(self).display_len() == old(self).display_len(),
    ;

    fn get_value(&self) -> (val: u64)
        ensures
            val == self.value(),
    ;

    fn set_value(&mut self, val: u64)
        ensures
            final(self).value() == val,
            final(self).total() == old(self).total(),
            final(self).display_len() == old(self).display_len(),
    ;

    fn get_display_len(&self) -> (val: usize)
        ensures
            val == self.display_len(),
    ;

    fn set_display_len(&mut self, val: usize)
        ensures
            final(self).display_len() == val,
            final(self).value() == old(self).value(),
            final(self).total() == old(self).total(),
    ;

    /// Appends a carriage return, which takes the cursor back to the start
    /// of the line.
    fn erase_to(&self, writer: &mut Vec<u8>)
        ensures
            final(writer)@ == old(writer)@.push(0x0du8),
    ;

    /// Appends a drawing of the bar, in UTF-8.
    fn draw_to(&self, writer: &mut Vec<u8>)
        ensures
            exists|line: Seq<char>| #[trigger]
                self.draws(line) && final(writer)@ == old(writer)@ + encode_utf8(line),
    ;
}

impl Progresso {
    /// The style of the bar.
    pub closed spec fn style(&self) -> Style {
        self.style
    }

    /// Number of done cells of the bar.
    pub open spec fn done_count(&self) -> nat {
        done_cells(self.value() as nat, self.total() as nat, self.display_len() as nat)
    }

    /// The palette glyph of the partial cell, where one is drawn.
    pub open spec fn partial_glyph(&self) -> Option<Symbol> {
        let palette = self.style().fill_chars@;
        if has_partial(
            self.value() as nat,
            self.total() as nat,
            self.display_len() as nat,
            palette.len(),
        ) {
            Some(
                palette[partial_index(
                    self.value() as nat,
                    self.total() as nat,
                    self.display_len() as nat,
                    palette.len(),
                ) as int],
            )
        } else {
            None
        }
    }

    /// Number of empty cells of the bar.
    pub open spec fn empty_count(&self) -> nat {
        empty_cells(
            self.value() as nat,
            self.total() as nat,
            self.display_len() as nat,
            self.style().fill_chars@.len(),
        )
    }

    /// Whole percentage of the bar.
    pub open spec fn percentage(&self) -> nat {
        percent(self.value() as nat, self.total() as nat)
    }

    /// What follows the right cap: for `Percentage` a space, the whole
    /// percentage, a space and `%`; for every other display nothing.
    pub open spec fn annotation(&self) -> Seq<char> {
        if self.style().value_display.shows_percentage() {
            seq![' '] + decimal(self.percentage()) + seq![' ', '%']
        } else {
            Seq::empty()
        }
    }

    /// The line made of `texts`: the left cap, the done cells, the partial
    /// cell if there is one, the empty cells, the right cap, the annotation.
    pub open spec fn line(&self, texts: LineTexts) -> Seq<char> {
        texts.left_cap + repeated(texts.done, self.done_count()) + (if self.partial_glyph() is Some {
            texts.partial
        } else {
            Seq::empty()
        }) + repeated(texts.empty, self.empty_count()) + texts.right_cap + self.annotation()
    }

    /// Whether `texts` can be the texts of this bar's glyphs: each unstyled
    /// glyph has its bare character, and without a partial cell the partial
    /// text is empty.
    pub open spec fn admits(&self, texts: LineTexts) -> bool {
        &&& text_fits(self.style().left_cap, texts.left_cap)
        &&& text_fits(self.style().done_char, texts.done)
        &&& text_fits(self.style().empty_char, texts.empty)
        &&& text_fits(self.style().right_cap, texts.right_cap)
        &&& match self.partial_glyph() {
            Some(glyph) => text_fits(glyph, texts.partial),
            None => texts.partial == Seq::<char>::empty(),
        }
    }

    /// The bare characters of this bar's glyphs.
    pub open spec fn plain_texts(&self) -> LineTexts {
        LineTexts {
            left_cap: seq![self.style().left_cap.symbol],
            done: seq![self.style().done_char.symbol],
            partial: match self.partial_glyph() {
                Some(glyph) => seq![glyph.symbol],
                None => Seq::empty(),
            },
            empty: seq![self.style().empty_char.symbol],
            right_cap: seq![self.style().right_cap.symbol],
        }
    }

    /// The line of the bar with every glyph as its bare character.
    pub open spec fn plain_line(&self) -> Seq<char> {
        self.line(self.plain_texts())
    }

    /// A bar in `style`, at 0 out of 10 and 40 cells wide.
    pub fn new(style: Style) -> (bar: Progresso)
        ensures
            bar.style() == style,
            bar.value() == 0,
            bar.total() == 10,
            bar.display_len() == 40,
    {
        Progresso { style: style, curr_val: 0, max_val: 10, line_length: 40 }
    }

    /// Whole percentage of the bar: `value * 100 / total` rounded down, 0 for
    /// a total of zero, and at most `u32::MAX`.
    pub fn percent_done(&self) -> (whole: u32)
        ensures
            whole == self.percentage(),
    {
        amounts(self.curr_val, self.max_val, self.line_length, self.style.fill_chars.len()).3
    }

    /// The counts of the bar: done cells, whether a partial cell is drawn,
    /// the palette index of its glyph, and the whole percentage.
    pub fn char_amounts(&self) -> (counts: (usize, bool, usize, u32))
        ensures
            counts.0 == self.done_count(),
            counts.1 == (self.partial_glyph() is Some),
            counts.1 ==> counts.2 < self.style().fill_chars@.len() && self.partial_glyph() == Some(
                self.style().fill_chars@[counts.2 as int],
            ),
            counts.2 == partial_index(
                self.value() as nat,
                self.total() as nat,
                self.display_len() as nat,
                self.style().fill_chars@.len(),
            ),
            counts.3 == self.percentage(),
            counts.0 + (if counts.1 {
                1nat
            } else {
                0nat
            }) + self.empty_count() == self.display_len(),
    {
        proof {
            lemma_cells_fill_the_width(
                self.curr_val as nat,
                self.max_val as nat,
                self.line_length as nat,
                self.style.fill_chars@.len(),
            );
        }
        amounts(self.curr_val, self.max_val, self.line_length, self.style.fill_chars.len())
    }

    /// The text of each glyph of the bar, from the styling layer.
    pub fn glyph_texts(&self) -> (texts: GlyphTexts)
        ensures
            self.admits(texts@),
    {
        let counts = self.char_amounts();
        let partial = if counts.1 {
            glyph_text(&self.style.fill_chars[counts.2])
        } else {
            String::new()
        };
        GlyphTexts {
            left_cap: glyph_text(&self.style.left_cap),
            done: glyph_text(&self.style.done_char),
            partial: partial,
            empty: glyph_text(&self.style.empty_char),
            right_cap: glyph_text(&self.style.right_cap),
        }
    }

    /// The line of the bar made of `texts`.
    pub fn compose(&self, texts: &GlyphTexts) -> (line: String)
        ensures
            line@ == self.line(texts@),
    {
        let counts = self.char_amounts();
        let mut line = String::new();
        line.append(texts.left_cap.as_str());
        push_repeated(&mut line, texts.done.as_str(), counts.0);
        let mut empty: usize = self.line_length - counts.0;
        if counts.1 {
            line.append(texts.partial.as_str());
            empty = empty - 1;
        }
        push_repeated(&mut line, texts.empty.as_str(), empty);
        line.append(texts.right_cap.as_str());
        if self.style.value_display.is_percentage() {
            line.push(' ');
            push_decimal(&mut line, counts.3);
            line.push(' ');
            line.push('%');
        }
        line
    }

    /// A drawing of the bar. Where no glyph is styled it is the plain line.
    pub fn render(&self) -> (line: String)
        ensures
            self.draws(line@),
            self.style().is_plain() ==> line@ == self.plain_line(),
    {
        let texts = self.glyph_texts();
        let line = self.compose(&texts);
        proof {
            assert(self.admits(texts@) && line@ == self.line(texts@));
            lemma_plain_bar_has_one_drawing(*self, line@);
        }
        line
    }
}

impl ProgressoBar for Progresso {
    closed spec fn total(&self) -> u64 {
        self.max_val
    }

    closed spec fn value(&self) -> u64 {
        self.curr_val
    }

    closed spec fn display_len(&self) -> usize {
        self.line_length
    }

    open spec fn draws(&self, line: Seq<char>) -> bool {
        exists|texts: LineTexts| #[trigger] self.admits(texts) && line == self.line(texts)
    }

    fn get_total(&self) -> (max: u64) {
        self.max_val
    }

    fn set_total(&mut self, max: u64)
        ensures
            final(self).style() == old(self).style(),
    {
        self.max_val = max;
    }

    fn get_value(&self) -> (val: u64) {
        self.curr_val
    }

    fn set_value(&mut self, val: u64)
        ensures
            final(self).style() == old(self).style(),
    {
        self.curr_val = val;
    }

    fn get_display_len(&self) -> (val: usize) {
        self.line_length
    }

    fn set_display_len(&mut self, val: usize)
        ensures
            final(self).style() == old(self).style(),
    {
        self.line_length = val;
    }

    fn erase_to(&self, writer: &mut Vec<u8>) {
        writer.push(0x0du8);
    }

    fn draw_to(&self, writer: &mut Vec<u8>)
        ensures
            self.style().is_plain() ==> final(writer)@ == old(writer)@ + encode_utf8(
                self.plain_line(),
            ),
    {
        let line = self.render();
        writer.extend_from_slice(line.as_str().as_bytes());
        proof {
            assert(writer@ == old(writer)@ + encode_utf8(line@));
        }
    }
}

/// A bar without styled glyphs has exactly one drawing, its plain line: two
/// draws of it in the same state give the same text.
pub proof fn lemma_plain_bar_has_one_drawing(bar: Progresso, line: Seq<char>)
    requires
        bar.draws(line),
    ensures
        bar.style().is_plain() ==> line == bar.plain_line(),
{
    if bar.style().is_plain() {
        let texts = choose|texts: LineTexts| #[trigger] bar.admits(texts) && line == bar.line(texts);
        lemma_cells_fill_the_width(
            bar.value() as nat,
            bar.total() as nat,
            bar.display_len() as nat,
            bar.style().fill_chars@.len(),
        );
        assert(texts =~= bar.plain_texts());
    }
}

/// At a value of zero, and at any value out of a total of zero, the line is
/// the left cap, `display_len` empty cells, the right cap and the annotation:
/// no done cell and no partial cell.
pub proof fn lemma_line_with_nothing_done(bar: Progresso, texts: LineTexts)
    requires
        bar.value() == 0 || bar.total() == 0,
    ensures
        bar.line(texts) == texts.left_cap + repeated(texts.empty, bar.display_len() as nat)
            + texts.right_cap + bar.annotation(),
{
    lemma_nothing_done(
        bar.value() as nat,
        bar.total() as nat,
        bar.display_len() as nat,
        bar.style().fill_chars@.len(),
    );
}

/// From a non-zero total on, the line is the left cap, `display_len` done
/// cells, the right cap and the annotation: no empty cell and no partial
/// cell. The line of a bar without cells is always so.
pub proof fn lemma_line_with_all_done(bar: Progresso, texts: LineTexts)
    requires
        0 < bar.total() <= bar.value() || bar.display_len() == 0,
    ensures
        bar.line(texts) == texts.left_cap + repeated(texts.done, bar.display_len() as nat)
            + texts.right_cap + bar.annotation(),
{
    lemma_all_done(
        bar.value() as nat,
        bar.total() as nat,
        bar.display_len() as nat,
        bar.style().fill_chars@.len(),
    );
}

/// Of two bars of one total and one width, the one at the greater value has
/// at least as many done cells.
pub proof fn lemma_done_count_monotonic(low: Progresso, high: Progresso)
    requires
        low.total() == high.total(),
        low.display_len() == high.display_len(),
        low.value() <= high.value(),
    ensures
        low.done_count() <= high.done_count(),
{
    lemma_done_cells_monotonic(
        low.value() as nat,
        high.value() as nat,
        low.total() as nat,
        low.display_len() as nat,
    );
}

} // verus!
