use onetext::text::{format_with_commas, normalize_tabs};
use onetext::wrap::wrap_text;

#[test]
fn test_wrap_preserves_indentation() {
    let input = "    indented line";
    let result = wrap_text(input, 80);
    assert_eq!(result, vec!["    indented line"]);
}

#[test]
fn test_wrap_preserves_different_indent_levels() {
    let input = "no indent\n  two spaces\n    four spaces";
    let result = wrap_text(input, 80);
    assert_eq!(result, vec!["no indent", "  two spaces", "    four spaces"]);
}

#[test]
fn test_wrap_long_indented_line_preserves_indent_on_continuation() {
    let input = "    word1 word2 word3 word4";
    let result = wrap_text(input, 20);
    // Each continuation line should also be indented
    assert!(result.len() >= 2);
    assert!(result[0].starts_with("    "));
    assert!(result[1].starts_with("    "));
}

#[test]
fn test_wrap_empty_lines() {
    let input = "line1\n\nline2";
    let result = wrap_text(input, 80);
    assert_eq!(result, vec!["line1", "", "line2"]);
}

#[test]
fn test_wrap_empty_content_has_no_lines() {
    let result = wrap_text("", 80);
    assert!(result.is_empty());
}

#[test]
fn test_wrap_packs_words_greedily() {
    let result = wrap_text("aa bb cc dd", 5);
    assert_eq!(result, vec!["aa bb", "cc dd"]);
}

#[test]
fn test_wrap_whitespace_only_line_becomes_empty() {
    let result = wrap_text("a\n   \nb", 80);
    assert_eq!(result, vec!["a", "", "b"]);
}

#[test]
fn test_wrap_strips_carriage_returns() {
    let result = wrap_text("one\r\ntwo", 80);
    assert_eq!(result, vec!["one", "two"]);
}

#[test]
fn test_wrap_unicode_whitespace_separates_words() {
    // A form feed splits words just like a space does.
    let result = wrap_text("one\u{000C}two", 80);
    assert_eq!(result, vec!["one two"]);
}

#[test]
fn test_wrap_unicode_indent_preserved() {
    // An ideographic space counts as indentation.
    let result = wrap_text("\u{3000}lead", 80);
    assert_eq!(result, vec!["\u{3000}lead"]);
}

#[test]
fn test_normalize_tabs() {
    assert_eq!(normalize_tabs("hello\tworld"), "hello  world");
    assert_eq!(normalize_tabs("\t\t"), "    ");
    assert_eq!(normalize_tabs("no tabs"), "no tabs");
}

#[test]
fn test_format_with_commas_small_numbers_unchanged() {
    assert_eq!(format_with_commas(0), "0");
    assert_eq!(format_with_commas(7), "7");
    assert_eq!(format_with_commas(999), "999");
}

#[test]
fn test_format_with_commas_groups_of_three() {
    assert_eq!(format_with_commas(1000), "1,000");
    assert_eq!(format_with_commas(12345), "12,345");
    assert_eq!(format_with_commas(1234567), "1,234,567");
}
