use onetext::settings::{default_theme, default_true};
use onetext::LineEnding;

#[test]
fn test_detect_lf() {
    assert_eq!(LineEnding::detect("one\ntwo\n"), LineEnding::Lf);
}

#[test]
fn test_detect_crlf() {
    assert_eq!(LineEnding::detect("one\r\ntwo\r\n"), LineEnding::Crlf);
}

#[test]
fn test_detect_cr() {
    assert_eq!(LineEnding::detect("one\rtwo\r"), LineEnding::Cr);
}

#[test]
fn test_detect_mixed() {
    assert_eq!(LineEnding::detect("one\r\ntwo\n"), LineEnding::Mixed);
}

#[test]
fn test_detect_defaults_to_lf_without_newlines() {
    assert_eq!(LineEnding::detect("just one line"), LineEnding::Lf);
    assert_eq!(LineEnding::detect(""), LineEnding::Lf);
}

#[test]
fn test_line_ending_labels() {
    assert_eq!(LineEnding::Lf.as_str(), "LF");
    assert_eq!(LineEnding::Crlf.as_str(), "CRLF");
    assert_eq!(LineEnding::Cr.as_str(), "CR");
    assert_eq!(LineEnding::Mixed.as_str(), "Mixed");
}

#[test]
fn test_settings_defaults() {
    assert!(default_true());
    assert_eq!(default_theme(), "Default Light");
}
