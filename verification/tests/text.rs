use haak::text::{
    chars_of, decimal_text, is_control, is_printable, is_white_space, last_segment, parse_count,
    replace_all, same_text, strip_prefix, take_chars, trim,
};

const SAMPLES: [&str; 12] = [
    "",
    " ",
    "a",
    "  hello world \n",
    "\u{3000}\u{a0}wide\u{2003}",
    "no-trim",
    ":",
    "a:b:c",
    "trailing:",
    "日本語:テキスト",
    "\u{200b}zero width is no white space\u{200b}",
    "\t\r\nx\u{85}",
];

#[test]
fn white_space_is_that_of_every_char() {
    for n in 0..=0x10ffffu32 {
        if let Some(c) = char::from_u32(n) {
            assert_eq!(is_white_space(c), c.is_whitespace(), "{:x}", n);
        }
    }
}

#[test]
fn control_is_that_of_every_char() {
    for n in 0..=0x10ffffu32 {
        if let Some(c) = char::from_u32(n) {
            assert_eq!(is_control(c), c.is_control(), "{:x}", n);
        }
    }
}

#[test]
fn printable_text_has_no_control_character() {
    assert!(is_printable(""));
    assert!(is_printable("ä 日"));
    assert!(!is_printable("a\u{7f}"));
    assert!(!is_printable("\n"));
}

#[test]
fn trim_samples() {
    for s in SAMPLES {
        assert_eq!(trim(s), s.trim());
    }
    assert_eq!(trim("  hello world \n"), "hello world");
}

#[test]
fn trimming_twice_changes_nothing() {
    for s in SAMPLES {
        let once = trim(s);
        assert_eq!(trim(&once), once);
    }
}

#[test]
fn characters_and_equality() {
    assert_eq!(chars_of("aé日"), vec!['a', 'é', '日']);
    assert!(same_text("日", "日"));
    assert!(!same_text("a", "b"));
}

#[test]
fn last_segment_samples() {
    for s in SAMPLES {
        assert_eq!(last_segment(s), s.split(':').last().unwrap_or(s));
    }
    assert_eq!(last_segment("person:haak:zach"), "zach");
    assert_eq!(last_segment("trailing:"), "");
    assert_eq!(last_segment("plain"), "plain");
}

#[test]
fn take_chars_counts_characters() {
    assert_eq!(take_chars("日本語", 2), "日本");
    assert_eq!(take_chars("ab", 2), "ab");
    assert_eq!(take_chars("ab", 200), "ab");
    assert_eq!(take_chars("ab", 0), "");
}

#[test]
fn strip_prefix_samples() {
    assert_eq!(strip_prefix("__type__:person", "__type__:"), Some("person".to_string()));
    assert_eq!(strip_prefix("__type__:", "__type__:"), Some("".to_string()));
    assert_eq!(strip_prefix("__type_", "__type__:"), None);
    assert_eq!(strip_prefix("x__type__:", "__type__:"), None);
}

#[test]
fn replace_samples() {
    for s in ["", "http", "https://a/http", "hhttpttp", "httphttp", "ftp", "htt", "日http日"] {
        assert_eq!(replace_all(s, "http", "ws"), s.replace("http", "ws"));
    }
    assert_eq!(replace_all("https://a/http", "http", "ws"), "wss://a/ws");
    assert_eq!(replace_all("nothing here", "http", "ws"), "nothing here");
}

#[test]
fn decimal_samples() {
    for n in [0usize, 7, 9, 10, 99, 100, 1234567, usize::MAX] {
        assert_eq!(decimal_text(n), n.to_string());
    }
    assert_eq!(decimal_text(1090), "1090");
}

#[test]
fn parse_count_samples() {
    for s in [
        "", "+", "-", "0", "+0", "-0", "007", "12", "+12", "++1", " 1", "1 ", "1_0", "٣", "12a",
        "18446744073709551615", "18446744073709551616", "99999999999999999999999",
    ] {
        assert_eq!(parse_count(s), s.parse::<usize>().ok(), "{}", s);
    }
    assert_eq!(parse_count("+42"), Some(42));
}

#[test]
fn decimal_reads_back() {
    for n in [0usize, 5, 10, 4096, usize::MAX] {
        assert_eq!(parse_count(&decimal_text(n)), Some(n));
    }
}
