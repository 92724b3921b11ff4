use gateway::text::{
    has_char, has_text, join, number, parse_number, same_ignoring_case, space, split, split_once,
    split_words, strip_prefix, trim, trim_trailing,
};

const SAMPLES: [&str; 12] = [
    "",
    " ",
    "a",
    "a b",
    "  a\tb\u{a0}c \n",
    ";;",
    "a;b;",
    ";a",
    "é;\u{3000}ü",
    "key=value=more",
    "\u{85}x\u{2009}",
    "🔐 🔐",
];

#[test]
fn white_space_is_that_of_unicode() {
    for c in '\0'..=char::MAX {
        assert_eq!(space(c), c.is_whitespace());
    }
}

#[test]
fn texts_are_trimmed_and_split() {
    for s in SAMPLES {
        assert_eq!(trim(s), s.trim());
        assert_eq!(split_words(s), s.split_whitespace().collect::<Vec<_>>());
        assert_eq!(split(s, ';'), s.split(';').collect::<Vec<_>>());
        let parts = s.split_once('=').map(|(a, b)| (a.to_string(), b.to_string()));
        assert_eq!(split_once(s, '='), parts);
        assert_eq!(has_char(s, ';'), s.contains(';'));
        assert_eq!(trim_trailing(s, ';'), s.trim_end_matches(';'));
        assert_eq!(strip_prefix(s, "a"), s.strip_prefix("a").map(|r| r.to_string()));
    }
}

#[test]
fn letter_case_is_that_of_ascii() {
    for a in ["https", "HTTPS", "HttpS", "http", "É", "é", "", "\u{212a}", "k"] {
        for b in ["https", "É", "K", ""] {
            assert_eq!(same_ignoring_case(a, b), a.eq_ignore_ascii_case(b));
        }
    }
}

#[test]
fn texts_are_joined() {
    for parts in [vec![], vec!["a"], vec!["a", "b"], vec!["", ""], vec!["x", "", "z"]] {
        let owned: Vec<String> = parts.iter().map(|p| p.to_string()).collect();
        assert_eq!(join(&owned, ", "), parts.join(", "));
    }
}

#[test]
fn texts_are_found_in_lists() {
    let list = vec!["a".to_string(), "b".to_string()];
    assert!(has_text(&list, "b"));
    assert!(!has_text(&list, ""));
    assert!(!has_text(&list, "ab"));
}

#[test]
fn numbers_are_written_and_read() {
    for n in [0, 9, 10, 101, 28_333_333, u64::MAX] {
        assert_eq!(number(n), n.to_string());
        assert_eq!(parse_number(&number(n), u64::MAX), Some(n));
    }
    assert_eq!(parse_number("256", 255), None);
    assert_eq!(parse_number("255", 255), Some(255));
}
