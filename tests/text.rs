use mdt::text::{has_prefix, is_whitespace, trimmed};

#[test]
fn trims_unicode_whitespace() {
    assert_eq!(trimmed("  a b \t\n"), "a b");
    assert_eq!(trimmed("\u{3000}x\u{a0}"), "x");
    assert_eq!(trimmed("   "), "");
    assert_eq!(trimmed(""), "");
}

#[test]
fn whitespace_matches_std() {
    for c in ['\t', '\n', ' ', '\u{85}', '\u{a0}', '\u{2003}', '\u{3000}', 'a', '_', '\u{200b}'] {
        assert_eq!(is_whitespace(c), c.is_whitespace());
    }
}

#[test]
fn prefix_test() {
    assert!(has_prefix("TODO: x", "TODO:"));
    assert!(!has_prefix("TODO", "TODO:"));
    assert!(!has_prefix("todo: x", "TODO:"));
    assert!(has_prefix("x", ""));
}
