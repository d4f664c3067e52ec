use bosca_server::text::{append_decimal, append_str, comma_list, ends_with, is_empty_text, split, starts_with, trim, white_space};

fn decimal(n: i64) -> String {
    let mut s = String::new();
    append_decimal(&mut s, n);
    s
}

#[test]
fn decimal_text_matches_display() {
    for n in [0i64, 7, -5, 10, 1234, -1000, i64::MAX, i64::MIN] {
        assert_eq!(decimal(n), n.to_string());
    }
}

#[test]
fn append_str_extends() {
    let mut s = "ab".to_string();
    append_str(&mut s, "cd");
    assert_eq!(s, "abcd");
}

#[test]
fn trim_strips_unicode_white_space_at_both_ends() {
    assert_eq!(trim("  a b \t"), "a b");
    assert_eq!(trim("\u{3000}x\u{85}"), "x");
    assert_eq!(trim("   "), "");
    assert_eq!(trim(""), "");
    assert_eq!(trim("no-space"), "no-space");
    for s in ["  google ", "\n\tfacebook\r\n", " a , b ", "\u{a0}\u{2000}z\u{205f}"] {
        assert_eq!(trim(s), s.trim());
    }
}

#[test]
fn white_space_agrees_with_char_is_whitespace() {
    for c in ['\t', '\n', '\u{b}', '\u{c}', '\r', ' ', '\u{85}', '\u{a0}', '\u{1680}', '\u{2000}', '\u{200a}', '\u{2028}',
        '\u{2029}', '\u{202f}', '\u{205f}', '\u{3000}', 'a', '0', '\u{200b}', '\u{feff}', '-'] {
        assert_eq!(white_space(c), c.is_whitespace(), "{:?}", c);
    }
}

#[test]
fn split_agrees_with_str_split() {
    for s in ["a,,b", "", ",", "google,facebook", "one", ",lead", "trail,"] {
        let expected: Vec<String> = s.split(',').map(|p| p.to_string()).collect();
        assert_eq!(split(s, ','), expected);
    }
    assert_eq!(split("a::b", ':'), vec!["a", "", "b"]);
}

#[test]
fn comma_list_trims_entries() {
    assert_eq!(comma_list(" google , facebook"), vec!["google", "facebook"]);
    assert_eq!(comma_list("/"), vec!["/"]);
    assert_eq!(comma_list(" , "), vec!["", ""]);
}

#[test]
fn prefixes_and_suffixes() {
    assert!(starts_with("/app/home", "/app"));
    assert!(starts_with("/", ""));
    assert!(!starts_with("/ap", "/app"));
    assert!(!starts_with("https://x", "/"));
    assert!(ends_with("song.mp3", ".mp3"));
    assert!(!ends_with("song.mp4", ".mp3"));
    assert!(!ends_with("3", ".mp3"));
    assert!(is_empty_text(""));
    assert!(!is_empty_text(" "));
}
