//! The glyph renderer: converts a short text into a block of large
//! ASCII-art characters using the bundled standard bitmap font. Font
//! loading failure is a fatal startup error; a text the font cannot
//! render is a non-fatal, per-tick error.

use vstd::prelude::*;

verus! {

/// The rows of the standard font's rendering of a text: row `i` of the
/// block is the concatenation of row `i` of each character's glyph.
pub uninterp spec fn glyph_lines(text: Seq<char>) -> Seq<Seq<char>>;

/// The fixed number of rows the standard font gives every glyph.
pub const STANDARD_FONT_HEIGHT: usize = 6;

#[verifier::external_type_specification]
#[verifier::external_body]
pub struct ExFIGfont(figlet_rs::FIGfont);

/// The bundled standard bitmap font, loaded once at startup and passed
/// by reference into the renderer on each tick.
pub struct StandardFont {
    font: figlet_rs::FIGfont,
}

/// A character the standard font always renders: the printable ASCII
/// range, which the bundled font table covers completely.
pub open spec fn is_renderable(c: char) -> bool {
    32 <= c as u32 && c as u32 <= 126
}

/// Relies on figlet_rs's `FIGfont::standard`, which parses the font
/// bundled with that crate; the error carries its description of the
/// failure.
#[verifier::external_body]
pub fn load_standard_font() -> (r: Result<StandardFont, String>) {
    figlet_rs::FIGfont::standard().map(|font| StandardFont { font })
}

/// Relies on figlet_rs's `FIGfont::convert` with the standard font, and
/// on the rendering of its figure: conversion of a non-empty text with
/// a renderable character succeeds, of an empty text fails, and a
/// successful rendering is one fixed-height block of rows determined by
/// the text alone.
#[verifier::external_body]
fn convert_standard(font: &StandardFont, text: &str) -> (r: Option<Vec<String>>)
    ensures
        text@.len() == 0 ==> r is None,
        (text@.len() > 0 && (forall|i: int|
            0 <= i < text@.len() ==> is_renderable(text@[i]))) ==> r is Some,
        r matches Some(lines) ==> lines.deep_view() == glyph_lines(text@) && lines@.len()
            == STANDARD_FONT_HEIGHT,
{
    let figure = font.font.convert(text)?;
    Some(figure.to_string().lines().map(|line| line.to_string()).collect())
}

/// The per-tick, non-fatal failure of the glyph renderer.
#[derive(Clone, Copy, PartialEq, Eq, Structural, Debug)]
pub enum RenderError {
    /// The font renders none of the characters of the text.
    Unrenderable,
}

/// A rendered block: the rows of ASCII art for one text, top to bottom.
pub struct GlyphBlock {
    lines: Vec<String>,
}

impl View for GlyphBlock {
    type V = Seq<Seq<char>>;

    closed spec fn view(&self) -> Seq<Seq<char>> {
        self.lines.deep_view()
    }
}

/// The block's rows joined with single newline separators.
pub open spec fn join_lines(lines: Seq<Seq<char>>) -> Seq<char>
    decreases lines.len(),
{
    if lines.len() == 0 {
        Seq::empty()
    } else if lines.len() == 1 {
        lines[0]
    } else {
        lines[0] + seq!['\n'] + join_lines(lines.drop_first())
    }
}

proof fn lemma_join_lines_push(lines: Seq<Seq<char>>, x: Seq<char>)
    requires
        lines.len() >= 1,
    ensures
        join_lines(lines.push(x)) == join_lines(lines) + seq!['\n'] + x,
    decreases lines.len(),
{
    if lines.len() == 1 {
        assert(lines.push(x).drop_first() =~= seq![x]);
        assert(join_lines(seq![x]) == x);
        assert(lines.push(x)[0] == lines[0]);
        assert(join_lines(lines.push(x)) == lines[0] + seq!['\n'] + x);
    } else {
        lemma_join_lines_push(lines.drop_first(), x);
        assert(lines.push(x).drop_first() =~= lines.drop_first().push(x));
        assert(lines.push(x)[0] == lines[0]);
        assert(join_lines(lines.push(x)) =~= join_lines(lines) + seq!['\n'] + x);
    }
}

impl GlyphBlock {
    /// A well-formed block has the standard font's fixed height.
    pub open spec fn wf(&self) -> bool {
        self@.len() == STANDARD_FONT_HEIGHT
    }

    /// The number of rows of the block.
    pub fn line_count(&self) -> (n: usize)
        ensures
            n == self@.len(),
    {
        self.lines.len()
    }

    /// The rows of the block.
    pub fn lines(&self) -> (r: &Vec<String>)
        ensures
            r.deep_view() == self@,
    {
        &self.lines
    }

    /// The whole block as one string, rows joined with newlines.
    pub fn joined(&self) -> (r: String)
        ensures
            r@ == join_lines(self@),
    {
        let mut out = String::new();
        if self.lines.len() == 0 {
            return out;
        }
        out.append(self.lines[0].as_str());
        let mut i: usize = 1;
        while i < self.lines.len()
            invariant
                1 <= i <= self.lines.len(),
                out@ == join_lines(self@.take(i as int)),
                self@.len() == self.lines.len(),
            decreases self.lines.len() - i,
        {
            proof {
                reveal_strlit("\n");
                assert(self@.take(i as int).len() >= 1);
                lemma_join_lines_push(self@.take(i as int), self@[i as int]);
                assert(self@.take(i + 1 as int) =~= self@.take(i as int).push(self@[i as int]));
            }
            out.append("\n");
            out.append(self.lines[i].as_str());
            i = i + 1;
        }
        proof {
            assert(self@.take(self.lines.len() as int) =~= self@);
        }
        out
    }
}

/// Convert `text` into a glyph block with the standard font. Succeeds
/// on every non-empty printable-ASCII text; fails, non-fatally, on an
/// empty text or one whose characters the font does not cover.
pub fn render(font: &StandardFont, text: &str) -> (r: Result<GlyphBlock, RenderError>)
    ensures
        (text@.len() > 0 && (forall|i: int|
            0 <= i < text@.len() ==> is_renderable(text@[i]))) ==> r is Ok,
        text@.len() == 0 ==> r is Err,
        r matches Ok(b) ==> b@ == glyph_lines(text@) && b.wf(),
{
    match convert_standard(font, text) {
        Some(lines) => Ok(GlyphBlock { lines }),
        None => Err(RenderError::Unrenderable),
    }
}

} // verus!
