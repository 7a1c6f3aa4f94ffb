use velocity::builder::{add_line_spacing, apply_alignment, Alignment, AsciiArtBuilder};
use velocity::font::Font;

#[test]
fn test_builder_default() {
    let result = AsciiArtBuilder::new().text("A").build();
    assert!(!result.is_empty());
}

#[test]
fn test_builder_with_spacing() {
    let result = AsciiArtBuilder::new().text("AB").spacing(2).build();
    assert!(!result.is_empty());
}

#[test]
fn test_builder_alignment() {
    let left = AsciiArtBuilder::new().text("A").align_left().build();
    let center = AsciiArtBuilder::new().text("A").align_center().build();
    let right = AsciiArtBuilder::new().text("A").align_right().build();

    assert!(!left.is_empty());
    assert!(!center.is_empty());
    assert!(!right.is_empty());
}

fn tiny_font() -> Font {
    let mut font = Font::new(1, 1, 0);
    font.add_glyph('a', vec!["a".to_string()]);
    font.add_glyph('b', vec!["b".to_string()]);
    font
}

#[test]
fn builder_spacing_replaces_the_fonts_spacing() {
    let art = AsciiArtBuilder::new().text("ab").font(tiny_font()).spacing(3).build();
    assert_eq!(art, "a   b");
}

#[test]
fn builder_line_spacing_and_alignment_compose() {
    let art = AsciiArtBuilder::new()
        .text("ab\na")
        .font(tiny_font())
        .line_spacing(2)
        .align_right()
        .build();
    assert_eq!(art, "ab\n  \n  \n a");
    let centred = AsciiArtBuilder::new().text("aaab\na").font(tiny_font()).align_center().build();
    assert_eq!(centred, "aaab\n a  ");
}

#[test]
fn line_spacing_puts_blank_rows_between_rows() {
    assert_eq!(add_line_spacing("x\ny", 0), "x\ny");
    assert_eq!(add_line_spacing("x\ny", 1), "x\n \ny");
    assert_eq!(add_line_spacing("x\ny\nz", 2), "x\n \n \ny\n \n \nz");
    assert_eq!(add_line_spacing("x", 3), "x");
    assert_eq!(add_line_spacing("", 3), "");
}

#[test]
fn alignment_pads_to_the_widest_row() {
    assert_eq!(apply_alignment("abc\na", Alignment::Left), "abc\na");
    assert_eq!(apply_alignment("abc\na", Alignment::Right), "abc\n  a");
    assert_eq!(apply_alignment("abcd\na", Alignment::Center), "abcd\n a  ");
    assert_eq!(apply_alignment("", Alignment::Center), "");
    assert_eq!(apply_alignment("a\n", Alignment::Left), "a\n");
    assert_eq!(apply_alignment("a\n", Alignment::Right), "a");
}

#[test]
fn builder_default_is_new() {
    let a = AsciiArtBuilder::default().text("x").build();
    let b = AsciiArtBuilder::new().text("x").build();
    assert_eq!(a, b);
}
