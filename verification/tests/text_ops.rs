use codecbridge::app::normalize_path_input;
use codecbridge::text::{decimal_string, parse_u32, chars_of, trim_chars, str_equal};

#[test]
fn normalize_trims_whitespace() {
    assert_eq!(normalize_path_input("  /tmp/movie.mp4 \n"), "/tmp/movie.mp4");
}

#[test]
fn normalize_strips_single_quotes() {
    assert_eq!(normalize_path_input("'/tmp/my movie.mp4'"), "/tmp/my movie.mp4");
}

#[test]
fn normalize_strips_double_quotes() {
    assert_eq!(normalize_path_input("\"/tmp/my movie.mp4\""), "/tmp/my movie.mp4");
}

#[test]
fn normalize_strips_single_then_double_quotes() {
    assert_eq!(normalize_path_input("'\"a b\"'"), "a b");
}

#[test]
fn normalize_keeps_lone_quote() {
    assert_eq!(normalize_path_input("'"), "'");
    assert_eq!(normalize_path_input("'abc"), "'abc");
}

#[test]
fn normalize_unescapes_spaces() {
    assert_eq!(normalize_path_input("/tmp/my\\ movie\\ file.mov"), "/tmp/my movie file.mov");
    assert_eq!(normalize_path_input("a\\\\ b"), "a\\ b");
    assert_eq!(normalize_path_input("a\\b"), "a\\b");
}

#[test]
fn normalize_empty_input() {
    assert_eq!(normalize_path_input(""), "");
    assert_eq!(normalize_path_input(" \t "), "");
}

#[test]
fn normalize_matches_std_on_unicode_whitespace() {
    let input = "\u{3000}\u{a0}path\u{2003}";
    assert_eq!(normalize_path_input(input), input.trim());
}

#[test]
fn trim_matches_std_trim() {
    for s in ["", "  a  ", "\u{85}x\u{2028}", "a b", "\u{200b}a\u{200b}"] {
        let v = trim_chars(&chars_of(s));
        let expected: Vec<char> = s.trim().chars().collect();
        assert_eq!(v, expected);
    }
}

#[test]
fn decimal_string_values() {
    assert_eq!(decimal_string(0), "0");
    assert_eq!(decimal_string(7), "7");
    assert_eq!(decimal_string(10), "10");
    assert_eq!(decimal_string(48000), "48000");
    assert_eq!(decimal_string(u64::MAX), u64::MAX.to_string());
}

#[test]
fn parse_u32_matches_std() {
    for s in ["", "+", "-", "0", "+7", "-7", "48000", "4294967295", "4294967296", "12a", " 1", "++1", "007", "\u{661}"] {
        assert_eq!(parse_u32(s), s.parse::<u32>().ok(), "input {s:?}");
    }
}

#[test]
fn str_equal_values() {
    assert!(str_equal("aac", "aac"));
    assert!(!str_equal("aac", "aa"));
    assert!(!str_equal("aac", "AAC"));
}
