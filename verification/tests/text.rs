use gensui::text::{
    in_order, is_blank, join, lines_of, parse_usize, repeat_char, replace, same,
    split_once, strip_prefix, strip_suffix, take_chars, to_ascii_lower, trim, trim_end, usize_text,
    usize_text_3,
};

#[test]
fn lines_are_cut_as_a_terminal_shows_them() {
    for text in ["", "\n", "a", "a\n", "a\r\nb", "a\n\nb\n", "a\rb", "\r\n", "a\r"] {
        let expected: Vec<String> = text.lines().map(|line| line.to_string()).collect();
        assert_eq!(lines_of(text), expected);
    }
}

#[test]
fn white_space_is_trimmed() {
    for text in ["", "  ", " a b ", "\u{3000}a\u{3000}", "\u{a0}x\u{2003}", "a\u{200b}", "\u{85}y"] {
        assert_eq!(trim(text), text.trim());
        assert_eq!(trim_end(text), text.trim_end());
        assert_eq!(is_blank(text), text.trim().is_empty());
        assert_eq!(trim(&trim(text)), trim(text));
    }
}

#[test]
fn numbers_are_written_and_read() {
    assert_eq!(usize_text(0), "0");
    assert_eq!(usize_text(1203), "1203");
    assert_eq!(usize_text(usize::MAX), format!("{}", usize::MAX));
    assert_eq!(usize_text_3(7), "007");
    assert_eq!(usize_text_3(1234), "1234");
    assert_eq!(parse_usize("1203"), Some(1203));
    assert_eq!(parse_usize("+7"), Some(7));
    assert_eq!(parse_usize(""), None);
    assert_eq!(parse_usize("+"), None);
    assert_eq!(parse_usize("-1"), None);
    assert_eq!(parse_usize("99999999999999999999999"), None);
    assert_eq!(parse_usize(&usize_text(usize::MAX)), Some(usize::MAX));
}

#[test]
fn texts_are_taken_apart_and_put_together() {
    assert_eq!(strip_prefix("refs/heads/main", "refs/heads/"), Some("main".to_string()));
    assert_eq!(strip_prefix("main", "refs/"), None);
    assert_eq!(strip_suffix("a.json", ".json"), Some("a".to_string()));
    assert_eq!(split_once("a:b:c", ':'), Some(("a".to_string(), "b:c".to_string())));
    assert_eq!(split_once("a", ':'), None);
    assert_eq!(take_chars("あいう", 2), "あい");
    assert_eq!(replace("aXbXX", "X", "--"), "a--b----");
    assert_eq!(replace("aaa", "aa", "b"), "ba");
    assert_eq!(join(&vec!["a".to_string(), "b".to_string()], ", "), "a, b");
    assert_eq!(join(&vec![], ", "), "");
    assert_eq!(to_ascii_lower("ABcÄ"), "abcÄ");
    assert_eq!(repeat_char('━', 3), "━━━");
    assert!(same("a", "a"));
    assert!(!same("a", "ab"));
}

#[test]
fn texts_are_ordered_as_their_encodings() {
    let texts = ["", "a", "ab", "b", "B", "é", "認", "😀", "\u{ffff}"];
    for a in texts {
        for b in texts {
            assert_eq!(in_order(a, b), a <= b);
        }
    }
}
