use termclock::glyph::{load_standard_font, render, GlyphBlock, RenderError, StandardFont};

fn font() -> StandardFont {
    load_standard_font().expect("the bundled standard font loads")
}

fn block(font: &StandardFont, text: &str) -> GlyphBlock {
    render(font, text).expect("text renders")
}

/// Widest row of a single rendered glyph.
fn glyph_width(font: &StandardFont, c: char) -> usize {
    let b = block(font, &c.to_string());
    b.lines().iter().map(|l| l.len()).max().unwrap_or(0)
}

#[test]
fn standard_font_loads() {
    assert!(load_standard_font().is_ok());
}

#[test]
fn time_round_trip_has_font_height_and_bounded_width() {
    let font = font();
    let b = block(&font, "08:05:09");
    assert_eq!(b.line_count(), 6, "the standard font is six rows high");
    assert_eq!(b.lines().len(), 6);

    let widest = "0859:"
        .chars()
        .map(|c| glyph_width(&font, c))
        .max()
        .unwrap();
    for line in b.lines() {
        assert!(
            line.len() <= 8 * widest,
            "no row is wider than eight glyphs side by side"
        );
    }
}

#[test]
fn rendering_is_not_the_text_itself() {
    let font = font();
    let b = block(&font, "0");
    assert_eq!(b.line_count(), 6);
    assert_ne!(b.joined(), "0");
    assert!(b.lines().iter().any(|l| !l.trim().is_empty()));
}

#[test]
fn joined_block_is_lines_with_newline_separators() {
    let font = font();
    let b = block(&font, "12:34:56");
    let manual = b.lines().join("\n");
    assert_eq!(b.joined(), manual);
}

#[test]
fn empty_text_is_a_render_error() {
    let font = font();
    assert!(matches!(render(&font, ""), Err(RenderError::Unrenderable)));
}

#[test]
fn unrenderable_text_is_a_render_error() {
    let font = font();
    assert!(matches!(
        render(&font, "\u{1}\u{2}"),
        Err(RenderError::Unrenderable)
    ));
}

#[test]
fn mixed_text_with_a_renderable_character_renders() {
    let font = font();
    let b = block(&font, "\u{1}7");
    assert_eq!(b.line_count(), 6);
}
