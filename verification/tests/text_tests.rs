use opent5::conbuf::clean_text;
use opent5::text::{contains_ascii_digit, contains_text, parse_bool, split_char, trim};

#[test]
fn trim_strips_both_ends() {
    assert_eq!(trim("  hello world \t\n"), "hello world");
    assert_eq!(trim(""), "");
    assert_eq!(trim(" \u{3000} "), "");
    assert_eq!(trim("x"), "x");
}

#[test]
fn split_then_join_gives_text_back() {
    let pieces = split_char("a,b,,c", ',');
    assert_eq!(pieces, vec!["a", "b", "", "c"]);
    assert_eq!(pieces.join(","), "a,b,,c");
    assert_eq!(split_char("", ','), vec![""]);
    assert_eq!(split_char(",", ','), vec!["", ""]);
}

#[test]
fn contains_finds_substrings() {
    assert!(contains_text("an error here", "error"));
    assert!(!contains_text("an err or", "error"));
    assert!(contains_text("abc", ""));
    assert!(!contains_text("ab", "abc"));
}

#[test]
fn parse_bool_reads_true_and_false() {
    assert_eq!(parse_bool("true"), Some(true));
    assert_eq!(parse_bool("false"), Some(false));
    assert_eq!(parse_bool("True"), None);
    assert!(contains_ascii_digit("ab3"));
    assert!(!contains_ascii_digit("abc"));
    assert_eq!(opent5::text::concat("ab", "cd"), "abcd");
}

#[test]
fn clean_text_rewrites_line_breaks() {
    assert_eq!(clean_text("\nx"), "\r\nx");
    assert_eq!(clean_text("\n\r"), "\r\n");
    assert_eq!(clean_text("\r\n"), "\r\n");
    // a trailing line break is dropped
    assert_eq!(clean_text("\n"), "");
    // any other character keeps itself and drops the one after it
    assert_eq!(clean_text("abcd"), "ac");
    assert_eq!(clean_text("abc"), "ac");
    assert_eq!(clean_text("^1"), "^");
}

#[test]
fn trim_drops_unicode_white_space() {
    assert_eq!(opent5::text::trim("\u{3000} \tkey\u{2028}\u{a0}"), "key");
    assert_eq!(opent5::text::trim("\u{200b}key"), "\u{200b}key");
}
