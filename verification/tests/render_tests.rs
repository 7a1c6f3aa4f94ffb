use velocity::font::Font;
use velocity::renderer::{pad_to_width, render_text};

fn letter_a() -> Vec<String> {
    vec![
        "  A  ".to_string(),
        " A A ".to_string(),
        "AAAAA".to_string(),
        "A   A".to_string(),
        "A   A".to_string(),
    ]
}

fn letter_b() -> Vec<String> {
    vec![
        "BBBB ".to_string(),
        "B   B".to_string(),
        "BBBB ".to_string(),
        "B   B".to_string(),
        "BBBB ".to_string(),
    ]
}

#[test]
fn test_render_empty_text() {
    let font = Font::default();
    let result = render_text("", &font);
    assert_eq!(result, "");
}

#[test]
fn test_render_single_character() {
    let mut font = Font::new(5, 5, 1);
    font.add_glyph('A', letter_a());
    let result = render_text("A", &font);
    assert!(!result.is_empty());
}

#[test]
fn test_render_multiple_characters() {
    let mut font = Font::new(5, 5, 1);
    font.add_glyph('A', letter_a());
    font.add_glyph('B', letter_b());
    let result = render_text("AB", &font);
    assert!(!result.is_empty());
    assert!(result.contains('A') || result.contains('B'));
}

#[test]
fn test_render_multiline_text() {
    let mut font = Font::new(5, 5, 1);
    font.add_glyph('A', letter_a());
    let result = render_text("A\nA", &font);
    let lines: Vec<&str> = result.lines().collect();
    assert_eq!(lines.len(), 10);
}

#[test]
fn test_render_unknown_character() {
    let font = Font::new(5, 5, 1);
    let result = render_text("X", &font);
    assert!(!result.is_empty() || result.is_empty());
}

#[test]
fn single_character_is_drawn_row_by_row() {
    let mut font = Font::new(5, 5, 1);
    font.add_glyph('A', letter_a());
    assert_eq!(render_text("A", &font), "  A  \n A A \nAAAAA\nA   A\nA   A");
}

#[test]
fn characters_stand_side_by_side_with_spacing() {
    let mut font = Font::new(5, 5, 1);
    font.add_glyph('A', letter_a());
    font.add_glyph('B', letter_b());
    assert_eq!(
        render_text("AB", &font),
        "  A   BBBB \n A A  B   B\nAAAAA BBBB \nA   A B   B\nA   A BBBB "
    );
}

#[test]
fn unknown_character_is_a_blank_cell() {
    let font = Font::new(3, 2, 1);
    assert_eq!(render_text("X", &font), "   \n   ");
    assert_eq!(render_text("XY", &font), "       \n       ");
}

#[test]
fn short_glyph_rows_are_padded_and_missing_rows_are_blank() {
    let mut font = Font::new(4, 3, 0);
    font.add_glyph('i', vec!["i".to_string(), "ii".to_string()]);
    assert_eq!(render_text("i", &font), "i   \nii  \n    ");
    let mut wide = Font::new(2, 1, 0);
    wide.add_glyph('w', vec!["wwww".to_string(), "unused".to_string()]);
    assert_eq!(render_text("w", &wide), "wwww");
}

#[test]
fn empty_line_becomes_one_empty_row() {
    let mut font = Font::new(1, 2, 0);
    font.add_glyph('a', vec!["a".to_string(), "a".to_string()]);
    assert_eq!(render_text("a\n\na", &font), "a\na\n\na\na");
    assert_eq!(render_text("a\r\na\n", &font), "a\na\na\na");
    assert_eq!(render_text("\n", &font), "");
}

#[test]
fn font_of_height_zero_draws_nothing() {
    let font = Font::new(3, 0, 1);
    assert_eq!(render_text("abc", &font), "");
}

#[test]
fn pad_to_width_fills_with_blanks() {
    assert_eq!(pad_to_width("ab", 5), "ab   ");
    assert_eq!(pad_to_width("abcdef", 5), "abcdef");
    assert_eq!(pad_to_width("", 0), "");
    assert_eq!(pad_to_width("▀▌", 3), "▀▌ ");
}

#[test]
fn render_is_render_text_with_the_block_font() {
    let font = velocity::font::default_font();
    assert_eq!(velocity::render("Hi!"), render_text("Hi!", &font));
    assert_eq!(velocity::render_with_font("Hi!", &font), render_text("Hi!", &font));
    assert_eq!(
        velocity::render_ansi_compact("ok"),
        render_text("ok", &velocity::font::ansi_compact_font())
    );
    assert_eq!(velocity::render_mini("ok"), render_text("ok", &velocity::font::mini_font()));
    assert_eq!(velocity::render("a").lines().count(), 7);
    assert_eq!(velocity::render_ansi_compact("a").lines().count(), 4);
    assert_eq!(velocity::render_mini("a"), "▀▌\n█▌");
}
