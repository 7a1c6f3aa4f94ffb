use velocity::text_util::{blank_string, chars_of, copy_rows, join_rows, lines_of, owned_rows};

fn all_texts(alphabet: &[char], max_len: usize) -> Vec<String> {
    let mut texts = vec![String::new()];
    let mut last = vec![String::new()];
    for _ in 0..max_len {
        let mut next = Vec::new();
        for text in &last {
            for &c in alphabet {
                let mut longer = text.clone();
                longer.push(c);
                next.push(longer);
            }
        }
        texts.extend(next.iter().cloned());
        last = next;
    }
    texts
}

#[test]
fn lines_are_split_as_the_standard_library_splits_them() {
    for text in all_texts(&['a', '\r', '\n', 'é'], 6) {
        let expected: Vec<String> = text.lines().map(|l| l.to_string()).collect();
        assert_eq!(lines_of(&text), expected, "text {:?}", text);
    }
}

#[test]
fn lines_of_named_cases() {
    assert_eq!(lines_of(""), Vec::<String>::new());
    assert_eq!(lines_of("\n"), vec![""]);
    assert_eq!(lines_of("a"), vec!["a"]);
    assert_eq!(lines_of("a\n"), vec!["a"]);
    assert_eq!(lines_of("a\n\nb"), vec!["a", "", "b"]);
    assert_eq!(lines_of("a\r\nb\r"), vec!["a", "b\r"]);
    assert_eq!(lines_of("a\r\r\nb"), vec!["a\r", "b"]);
}

#[test]
fn rows_are_joined_with_line_feeds() {
    assert_eq!(join_rows(&vec![]), "");
    assert_eq!(join_rows(&vec!["a".to_string()]), "a");
    assert_eq!(join_rows(&vec!["a".to_string(), "".to_string(), "b".to_string()]), "a\n\nb");
    for text in all_texts(&['a', '\n'], 6) {
        if !text.ends_with('\n') && !text.is_empty() {
            assert_eq!(join_rows(&lines_of(&text)), text);
        }
    }
}

#[test]
fn small_helpers() {
    assert_eq!(chars_of("aé█"), vec!['a', 'é', '█']);
    assert_eq!(chars_of(""), Vec::<char>::new());
    assert_eq!(blank_string(0), "");
    assert_eq!(blank_string(3), "   ");
    let rows = vec!["x".to_string(), "yz".to_string()];
    assert_eq!(copy_rows(&rows), rows);
    assert_eq!(owned_rows(&["▀▌", "█▌"]), vec!["▀▌", "█▌"]);
}
