use knowledge::ids::{parse_uuid, uuid_to_string};
use knowledge::text::{contains_field, is_whitespace, text_before, trim};

#[test]
fn trim_removes_unicode_whitespace_at_both_ends() {
    assert_eq!(trim("  hello world \n"), "hello world");
    assert_eq!(trim("\u{3000}\u{00A0}x\u{2028}"), "x");
    assert_eq!(trim(" \t\n "), "");
    assert_eq!(trim(""), "");
    assert_eq!(trim("a b"), "a b");
}

#[test]
fn trim_is_idempotent() {
    let once = trim("\t two words \r\n");
    assert_eq!(trim(&once), once);
}

#[test]
fn whitespace_matches_std() {
    for c in ['\t', '\n', '\u{0B}', '\u{0C}', '\r', ' ', '\u{85}', '\u{A0}', '\u{1680}', '\u{2000}', '\u{200A}', '\u{2028}', '\u{2029}', '\u{202F}', '\u{205F}', '\u{3000}', 'a', '-', '\u{200B}', '\u{FEFF}', '0'] {
        assert_eq!(is_whitespace(c), c.is_whitespace(), "{:?}", c);
    }
}

#[test]
fn text_before_first_separator() {
    assert_eq!(text_before("Tech, Science", ','), "Tech");
    assert_eq!(text_before("Solo", ','), "Solo");
    assert_eq!(text_before(",lead", ','), "");
    assert_eq!(text_before("", ','), "");
}

#[test]
fn fields_are_exact_matches() {
    assert!(contains_field("alice,bob", ',', "bob"));
    assert!(contains_field("alice,bob", ',', "alice"));
    assert!(!contains_field("alice, bob", ',', "bob"));
    assert!(!contains_field("alice,bob", ',', "ali"));
    assert!(!contains_field("alice,bob", ',', "alice,bob"));
    assert!(contains_field("a,,b", ',', ""));
    assert!(!contains_field("ab", ',', ""));
}

#[test]
fn uuid_text_is_hyphenated_lowercase() {
    let id: u128 = 0x67e5504410b1426f9247bb680e5fe0c8;
    assert_eq!(uuid_to_string(id), "67e55044-10b1-426f-9247-bb680e5fe0c8");
    assert_eq!(uuid_to_string(0), "00000000-0000-0000-0000-000000000000");
}

#[test]
fn uuid_parse_reads_back_and_rejects_garbage() {
    let id: u128 = 0x550e8400e29b41d4a716446655440000;
    assert_eq!(parse_uuid("550e8400-e29b-41d4-a716-446655440000").ok(), Some(id));
    assert_eq!(parse_uuid(&uuid_to_string(id)).ok(), Some(id));
    assert!(parse_uuid("not-a-uuid").is_err());
    assert!(parse_uuid(" 550e8400-e29b-41d4-a716-446655440000").is_err());
}
