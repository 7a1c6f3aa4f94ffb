use velocity::loader::{
    default_spacing, font_from_json, glyph_name_of, hex4_string, parse_character,
    validate_font_json, FontJson, LoadError,
};
use velocity::text_util::decimal_string;

#[test]
fn test_parse_character_escape() {
    assert_eq!(parse_character("\\n").unwrap(), '\n');
    assert_eq!(parse_character("\\t").unwrap(), '\t');
    assert_eq!(parse_character("A").unwrap(), 'A');
}

fn invalid_text(r: Result<char, LoadError>) -> String {
    match r {
        Err(LoadError::InvalidFont(text)) => text,
        other => panic!("expected an invalid-font error, got {:?}", other),
    }
}

#[test]
fn parse_character_reads_every_escape() {
    assert_eq!(parse_character("\\r").unwrap(), '\r');
    assert_eq!(parse_character("\\0").unwrap(), '\0');
    assert_eq!(parse_character("\\'").unwrap(), '\'');
    assert_eq!(parse_character("\\\"").unwrap(), '"');
    assert_eq!(parse_character("\\\\").unwrap(), '\\');
    assert_eq!(parse_character("\\").unwrap(), '\\');
    assert_eq!(parse_character("\\u{41}").unwrap(), 'A');
    assert_eq!(parse_character("\\u{+2588}").unwrap(), '█');
    assert_eq!(parse_character("\\u{0000000000e9}").unwrap(), 'é');
    assert_eq!(parse_character("\\u{10FFFF}").unwrap(), '\u{10FFFF}');
}

#[test]
fn parse_character_takes_the_first_character_of_a_plain_name() {
    assert_eq!(parse_character("AB").unwrap(), 'A');
    assert_eq!(parse_character("é").unwrap(), 'é');
    assert_eq!(parse_character("█x").unwrap(), '█');
}

#[test]
fn parse_character_names_each_fault() {
    assert_eq!(invalid_text(parse_character("")), "Empty character string: ");
    assert_eq!(invalid_text(parse_character("\\x")), "Unknown escape sequence: \\x");
    assert_eq!(invalid_text(parse_character("\\u{")), "Unknown escape sequence: \\u{");
    assert_eq!(invalid_text(parse_character("\\nn")), "Unknown escape sequence: \\nn");
    assert_eq!(invalid_text(parse_character("\\u{}")), "Invalid unicode escape: \\u{}");
    assert_eq!(invalid_text(parse_character("\\u{+}")), "Invalid unicode escape: \\u{+}");
    assert_eq!(invalid_text(parse_character("\\u{-1}")), "Invalid unicode escape: \\u{-1}");
    assert_eq!(invalid_text(parse_character("\\u{12g}")), "Invalid unicode escape: \\u{12g}");
    assert_eq!(
        invalid_text(parse_character("\\u{100000000}")),
        "Invalid unicode escape: \\u{100000000}"
    );
    assert_eq!(invalid_text(parse_character("\\u{D800}")), "Invalid unicode character: \\u{D800}");
    assert_eq!(
        invalid_text(parse_character("\\u{110000}")),
        "Invalid unicode character: \\u{110000}"
    );
}

#[test]
fn parse_character_agrees_with_std_on_hexadecimal_numbers() {
    for hex in ["0", "7f", "+7F", "00041", "d7ff", "DFFF", "e000", "ffffffff", "1g", "+", "", "++1", " 1", "1_0"] {
        let name = format!("\\u{{{}}}", hex);
        let expected = u32::from_str_radix(hex, 16).ok().and_then(char::from_u32);
        assert_eq!(parse_character(&name).ok(), expected);
    }
}

fn font_error(json: &FontJson) -> String {
    match font_from_json(json) {
        Err(e) => e.message(),
        Ok(_) => panic!("expected an error"),
    }
}

fn rows(lines: &[&str]) -> Vec<String> {
    lines.iter().map(|l| l.to_string()).collect()
}

#[test]
fn font_from_json_builds_the_font() {
    let json = FontJson {
        width: 5,
        height: 5,
        spacing: 1,
        glyphs: vec![("A".to_string(), rows(&["  A  ", " A A ", "AAAAA", "A   A", "A   A"]))],
    };
    let font = font_from_json(&json).unwrap();
    assert_eq!(font.width, 5);
    assert_eq!(font.height, 5);
    assert_eq!(font.spacing, 1);
    assert!(font.get_glyph('A').is_some());
    assert_eq!(font.get_glyph('A').unwrap()[2], "AAAAA");
    assert!(font.get_glyph('B').is_none());
}

#[test]
fn font_from_json_refuses_a_cell_without_size() {
    let json = FontJson { width: 0, height: 5, spacing: 1, glyphs: vec![] };
    assert!(font_from_json(&json).is_err());
    assert_eq!(font_error(&json), "Invalid font data: Font width must be greater than 0");
    let json = FontJson { width: 5, height: 0, spacing: 1, glyphs: vec![] };
    assert_eq!(font_error(&json), "Invalid font data: Font height must be greater than 0");
    assert!(validate_font_json(&FontJson { width: 1, height: 1, spacing: 0, glyphs: vec![] }).is_ok());
}

#[test]
fn font_from_json_names_the_first_faulty_glyph() {
    let json = FontJson {
        width: 2,
        height: 2,
        spacing: 0,
        glyphs: vec![
            ("a".to_string(), rows(&["aa", "a"])),
            ("b".to_string(), rows(&["b"])),
            ("c".to_string(), rows(&["c", "ccc"])),
        ],
    };
    assert_eq!(font_error(&json), "Invalid font data: Glyph for 'b' has 1 lines, expected 2");
    let json = FontJson {
        width: 2,
        height: 2,
        spacing: 0,
        glyphs: vec![("c".to_string(), rows(&["c", "ccc"])), ("\\q".to_string(), rows(&[]))],
    };
    assert_eq!(
        font_error(&json),
        "Invalid font data: Glyph for 'c' line 1 has 3 characters, maximum is 2"
    );
    let json = FontJson {
        width: 12,
        height: 0,
        spacing: 0,
        glyphs: vec![("\\q".to_string(), rows(&[]))],
    };
    assert_eq!(font_error(&json), "Invalid font data: Font height must be greater than 0");
    let json =
        FontJson { width: 12, height: 1, spacing: 0, glyphs: vec![("\\q".to_string(), rows(&[]))] };
    assert_eq!(font_error(&json), "Invalid font data: Unknown escape sequence: \\q");
}

#[test]
fn font_from_json_keeps_the_later_of_two_glyphs_for_one_character() {
    let json = FontJson {
        width: 1,
        height: 1,
        spacing: 0,
        glyphs: vec![("A".to_string(), rows(&["1"])), ("\\u{41}".to_string(), rows(&["2"]))],
    };
    let font = font_from_json(&json).unwrap();
    assert_eq!(font.get_glyph('A').unwrap()[0], "2");
    assert_eq!(font.glyphs.len(), 1);
}

#[test]
fn decimal_string_writes_numbers() {
    assert_eq!(decimal_string(0), "0");
    assert_eq!(decimal_string(7), "7");
    assert_eq!(decimal_string(10), "10");
    assert_eq!(decimal_string(1234567890), "1234567890");
    assert_eq!(decimal_string(u64::MAX), u64::MAX.to_string());
    assert_eq!(default_spacing(), 1);
}

#[test]
fn load_error_messages() {
    assert_eq!(LoadError::Io("gone".to_string()).message(), "IO error: gone");
    assert_eq!(LoadError::Json("bad".to_string()).message(), "JSON parse error: bad");
    assert_eq!(LoadError::InvalidFont("x".to_string()).message(), "Invalid font data: x");
}

#[test]
fn glyph_names_are_read_back() {
    assert_eq!(glyph_name_of('A'), "A");
    assert_eq!(glyph_name_of('█'), "█");
    assert_eq!(glyph_name_of('\n'), "\\u{000a}");
    assert_eq!(glyph_name_of('\\'), "\\u{005c}");
    assert_eq!(glyph_name_of('"'), "\\u{0022}");
    assert_eq!(glyph_name_of('\u{9f}'), "\\u{009f}");
    assert_eq!(glyph_name_of('\u{a0}'), "\u{a0}");
    for code in 0..0x3000u32 {
        if let Some(ch) = char::from_u32(code) {
            assert_eq!(parse_character(&glyph_name_of(ch)).unwrap(), ch);
            assert_eq!(glyph_name_of(ch).starts_with("\\u{"), ch.is_control() || ch == '\\' || ch == '"');
        }
    }
    assert_eq!(hex4_string(0x1f600), "1f600");
    assert_eq!(hex4_string(0), "0000");
}

fn font_json_from_text(text: &str) -> FontJson {
    let value: serde_json::Value = serde_json::from_str(text).unwrap();
    let glyphs = value["glyphs"]
        .as_object()
        .unwrap()
        .iter()
        .map(|(name, rows)| {
            let rows = rows
                .as_array()
                .unwrap()
                .iter()
                .map(|row| row.as_str().unwrap().to_string())
                .collect();
            (name.clone(), rows)
        })
        .collect();
    FontJson {
        width: value["width"].as_u64().unwrap() as usize,
        height: value["height"].as_u64().unwrap() as usize,
        spacing: value
            .get("spacing")
            .and_then(|s| s.as_u64())
            .map(|s| s as usize)
            .unwrap_or_else(default_spacing),
        glyphs,
    }
}

#[test]
fn test_load_valid_font() {
    let text = r#"{
  "width": 5,
  "height": 5,
  "spacing": 1,
  "glyphs": {
    "A": [
      "  A  ",
      " A A ",
      "AAAAA",
      "A   A",
      "A   A"
    ]
  }
}"#;

    let font = font_from_json(&font_json_from_text(text)).unwrap();
    assert_eq!(font.width, 5);
    assert_eq!(font.height, 5);
    assert_eq!(font.spacing, 1);
    assert!(font.get_glyph('A').is_some());
}

#[test]
fn test_load_invalid_dimensions() {
    let text = r#"{
  "width": 0,
  "height": 5,
  "spacing": 1,
  "glyphs": {}
}"#;

    let result = font_from_json(&font_json_from_text(text));
    assert!(result.is_err());
}
