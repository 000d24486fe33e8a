use onetext::{offset_to_position, Position};

#[test]
fn test_position_empty_text() {
    assert_eq!(offset_to_position("", 0), Position { line: 0, character: 0 });
}

#[test]
fn test_position_after_newline() {
    // Pointing at 'd'
    assert_eq!(offset_to_position("ab\ncd", 4), Position { line: 1, character: 1 });
}

#[test]
fn test_position_at_newline_stays_on_line() {
    // Pointing at '\n' itself, still line 0
    assert_eq!(offset_to_position("ab\ncd", 2), Position { line: 0, character: 2 });
}

#[test]
fn test_position_clamps_to_end() {
    assert_eq!(offset_to_position("ab\ncd", 100), Position { line: 1, character: 2 });
}

#[test]
fn test_position_counts_scalar_values_not_bytes() {
    // Two-byte characters still count as one column unit each.
    assert_eq!(offset_to_position("éé\né", 4), Position { line: 1, character: 1 });
}
