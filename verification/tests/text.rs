use search::text::{contains_text, is_white_space, join, pad, str_eq, trim};

#[test]
fn str_eq_agrees_with_equality() {
    let samples = ["", "a", "b", "ab", "aB", "abc", "é", "e\u{301}", "検索", "検", "-", " "];
    for a in samples {
        for b in samples {
            assert_eq!(str_eq(a, b), a == b, "{a:?} against {b:?}");
        }
    }
}

#[test]
fn pad_fills_up_with_spaces() {
    assert_eq!(pad("", 0), "");
    assert_eq!(pad("", 3), "   ");
    assert_eq!(pad("ab", 5), "ab   ");
    assert_eq!(pad("abcde", 5), "abcde");
    assert_eq!(pad("google", 20), "google              ");
    assert_eq!(pad("google", 20).chars().count(), 20);
}

#[test]
fn pad_keeps_longer_text() {
    assert_eq!(pad("abcdef", 5), "abcdef");
    assert_eq!(pad("a-name-of-more-than-twenty-characters", 20), "a-name-of-more-than-twenty-characters");
}

#[test]
fn pad_counts_characters_not_bytes() {
    assert_eq!(pad("検索", 4), "検索  ");
    assert_eq!(pad("é", 2), "é ");
    for s in ["", "a", "検索", "naïve", "exactly-twenty-chars", "more-than-twenty-characters"] {
        assert_eq!(pad(s, 20), format!("{s:20}"));
        assert_eq!(pad(s, 0), format!("{s:0}"));
        assert_eq!(pad(s, 7), format!("{s:7}"));
    }
}

#[test]
fn join_puts_separator_between_items() {
    let none: Vec<String> = vec![];
    assert_eq!(join(&none, ", "), "");
    assert_eq!(join(&vec!["g".to_string()], ", "), "g");
    assert_eq!(join(&vec!["g".to_string(), "goo".to_string()], ", "), "g, goo");
    assert_eq!(join(&vec!["a".to_string(), "b".to_string(), "c".to_string()], ", "), "a, b, c");
    assert_eq!(join(&vec!["a".to_string(), "b".to_string()], ""), "ab");
    assert_eq!(join(&vec!["".to_string(), "".to_string(), "".to_string()], "-"), "--");
}

#[test]
fn join_agrees_with_std() {
    let lists: Vec<Vec<String>> = vec![
        vec![],
        vec!["".to_string()],
        vec!["x".to_string()],
        vec!["x".to_string(), "".to_string()],
        vec!["検".to_string(), "索".to_string(), "é".to_string()],
    ];
    for list in &lists {
        for sep in ["", ", ", "/", "→"] {
            assert_eq!(join(list, sep), list.join(sep));
        }
    }
}

#[test]
fn trim_removes_whitespace_at_both_ends() {
    assert_eq!(trim("aaa"), "aaa");
    assert_eq!(trim("  aaa"), "aaa");
    assert_eq!(trim("aaa  "), "aaa");
    assert_eq!(trim(" \t aaa \r\n"), "aaa");
    assert_eq!(trim("aaa\n"), "aaa");
}

#[test]
fn trim_keeps_inner_whitespace() {
    assert_eq!(trim("  aaa bbb  "), "aaa bbb");
    assert_eq!(trim("\naaa \t bbb\tccc\n"), "aaa \t bbb\tccc");
}

#[test]
fn trim_of_blank_text_is_empty() {
    assert_eq!(trim(""), "");
    assert_eq!(trim(" "), "");
    assert_eq!(trim(" \t\r\n "), "");
    assert_eq!(trim("\u{3000}\u{a0}"), "");
}

#[test]
fn trim_knows_unicode_whitespace() {
    assert_eq!(trim("\u{a0}検索 語\u{3000}"), "検索 語");
    assert_eq!(trim("\u{2003}é\u{2028}"), "é");
    // A zero width space is no whitespace.
    assert_eq!(trim("\u{200b}a\u{200b}"), "\u{200b}a\u{200b}");
}

#[test]
fn trim_agrees_with_std() {
    let samples = [
        "", " ", "a", " a", "a ", " a ", "  a  b  ", "\t\n", "\u{a0}x\u{a0}", "x\u{3000}",
        "\u{1680}\u{2000}y z\u{205f}", "-", " - ", "\u{feff}a", "é \u{301}",
    ];
    for s in samples {
        assert_eq!(trim(s), s.trim(), "{s:?}");
    }
}

#[test]
fn contains_text_finds_whole_items() {
    let list = vec!["g".to_string(), "goo".to_string(), "".to_string()];
    assert!(contains_text(&list, "g"));
    assert!(contains_text(&list, "goo"));
    assert!(contains_text(&list, ""));
    assert!(!contains_text(&list, "go"));
    assert!(!contains_text(&list, "G"));
    assert!(!contains_text(&Vec::new(), "g"));
    assert!(!contains_text(&Vec::new(), ""));
}

#[test]
fn white_space_is_what_std_calls_whitespace() {
    let mut count = 0;
    for code in 0..=0x10_ffffu32 {
        if let Some(c) = char::from_u32(code) {
            assert_eq!(is_white_space(c), c.is_whitespace(), "U+{code:04X}");
            if is_white_space(c) {
                count += 1;
            }
        }
    }
    assert_eq!(count, 25);
}

#[test]
fn white_space_examples() {
    for c in [' ', '\t', '\n', '\r', '\u{b}', '\u{c}', '\u{85}', '\u{a0}', '\u{2003}', '\u{3000}'] {
        assert!(is_white_space(c), "{c:?}");
    }
    for c in ['a', '0', '-', '_', '\u{0}', '\u{8}', '\u{e}', '\u{1f}', '\u{200b}', '\u{feff}', '\u{180e}'] {
        assert!(!is_white_space(c), "{c:?}");
    }
}
