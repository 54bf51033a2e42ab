use bundler_upgraded::extract::extract_version;

#[test]
fn extract_version_finds_marker() {
    let text = "module LanguagePack\n  BUNDLER_VERSION = \"2.3.4\"\nend\n";
    assert_eq!(extract_version(text), Some("2.3.4".to_string()));
}

#[test]
fn extract_version_absent_marker() {
    let text = "module LanguagePack\n  RUBY_VERSION = \"3.1.0\"\nend\n";
    assert_eq!(extract_version(text), None);
}

#[test]
fn extract_version_picks_earliest() {
    let text = "BUNDLER_VERSION = \"1.0.0\"\nBUNDLER_VERSION = \"2.0.0\"\n";
    assert_eq!(extract_version(text), Some("1.0.0".to_string()));
}

#[test]
fn extract_version_allows_many_spaces() {
    let text = "BUNDLER_VERSION    = \"1.17.3\"";
    assert_eq!(extract_version(text), Some("1.17.3".to_string()));
}

#[test]
fn extract_version_requires_a_space() {
    let text = "BUNDLER_VERSION= \"1.17.3\"";
    assert_eq!(extract_version(text), None);
}

#[test]
fn extract_version_rejects_newline_inside_literal() {
    let text = "BUNDLER_VERSION = \"2.3\n4\"";
    assert_eq!(extract_version(text), None);
}

#[test]
fn extract_version_rejects_empty_literal() {
    let text = "BUNDLER_VERSION = \"\"";
    assert_eq!(extract_version(text), None);
}

#[test]
fn extract_version_on_empty_text() {
    assert_eq!(extract_version(""), None);
}

#[test]
fn extract_version_skips_incomplete_then_matches_later() {
    let text = "BUNDLER_VERSION = 2\nBUNDLER_VERSION = \"2.4.22\"\n";
    assert_eq!(extract_version(text), Some("2.4.22".to_string()));
}

#[test]
fn extract_version_after_multibyte_characters() {
    let text = "# Übersicht — détails\nBUNDLER_VERSION = \"2.0.1\"\n";
    assert_eq!(extract_version(text), Some("2.0.1".to_string()));
}

#[test]
fn extract_version_literal_may_hold_multibyte_characters() {
    let text = "BUNDLER_VERSION = \"2.0.1-β\"";
    assert_eq!(extract_version(text), Some("2.0.1-β".to_string()));
}
