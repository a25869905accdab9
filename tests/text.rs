use sentinel::text::{
    chars_of, decimal_string, split_lines, str_contains, str_eq_ignore_ascii_case, trim,
};

#[test]
fn split_lines_handles_crlf_and_blank_lines() {
    assert_eq!(split_lines("a\r\nb\n\nc"), vec!["a", "b", "", "c"]);
}

#[test]
fn split_lines_drops_only_the_final_terminator() {
    assert_eq!(split_lines("a\n"), vec!["a"]);
    assert_eq!(split_lines("\n"), vec![""]);
    assert_eq!(split_lines("a\n\n"), vec!["a", ""]);
}

#[test]
fn split_lines_of_empty_text_is_empty() {
    assert!(split_lines("").is_empty());
}

#[test]
fn split_lines_keeps_a_lone_carriage_return() {
    assert_eq!(split_lines("a\r"), vec!["a\r"]);
    assert_eq!(split_lines("x\ry\nz"), vec!["x\ry", "z"]);
}

#[test]
fn split_lines_keeps_multibyte_text() {
    assert_eq!(split_lines("é🚀\n\u{fffd}"), vec!["é🚀", "\u{fffd}"]);
}

#[test]
fn chars_of_lists_characters() {
    assert_eq!(chars_of("aé🚀"), vec!['a', 'é', '🚀']);
}

#[test]
fn str_contains_finds_substrings() {
    assert!(str_contains("require(ok)", "require("));
    assert!(str_contains("abc", ""));
    assert!(str_contains("abc", "abc"));
    assert!(!str_contains("ab", "abc"));
    assert!(!str_contains("x == y", "=>"));
    assert!(str_contains("a = b", "="));
}

#[test]
fn ascii_case_insensitive_equality() {
    assert!(str_eq_ignore_ascii_case("0xAbC", "0XaBc"));
    assert!(!str_eq_ignore_ascii_case("0xabc", "0xabd"));
    assert!(!str_eq_ignore_ascii_case("abc", "ab"));
    assert!(!str_eq_ignore_ascii_case("É", "é"));
}

#[test]
fn trim_removes_unicode_white_space() {
    assert_eq!(trim("  Warning: x \t"), "Warning: x");
    assert_eq!(trim("\u{3000}a b\u{a0}"), "a b");
    assert_eq!(trim("   "), "");
    assert_eq!(trim(""), "");
}

#[test]
fn decimal_string_renders_numbers() {
    assert_eq!(decimal_string(0), "0");
    assert_eq!(decimal_string(7), "7");
    assert_eq!(decimal_string(1000000), "1000000");
    assert_eq!(decimal_string(u64::MAX), "18446744073709551615");
}
