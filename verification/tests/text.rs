use pigeon::text::{
    contains_lowered, folds_to, decode_text, decode_text_or_empty, is_visible_ascii, matches_at, same_bytes,
    same_text, starts_with_lowered, to_lower,
};

#[test]
fn only_ascii_capitals_are_folded() {
    for byte in 0u8..=255 {
        assert_eq!(to_lower(byte), byte.to_ascii_lowercase(), "byte {}", byte);
    }
    assert_eq!(to_lower(b'A'), b'a');
    assert_eq!(to_lower(b'Z'), b'z');
    assert_eq!(to_lower(b'@'), b'@');
    assert_eq!(to_lower(b'['), b'[');
    assert_eq!(to_lower(0xc9), 0xc9);
}

#[test]
fn the_hay_is_folded_and_the_needle_is_not() {
    assert!(contains_lowered(b"Application/JSON; charset=utf-8", b"application/json"));
    assert!(contains_lowered(b"xxTEXT/htmlxx", b"text/html"));
    assert!(!contains_lowered(b"application/json", b"Application/json"));
    assert!(!contains_lowered(b"application/jso", b"application/json"));
    assert!(contains_lowered(b"", b""));
    assert!(contains_lowered(b"abc", b""));
    assert!(!contains_lowered(b"", b"a"));
    assert!(contains_lowered(b"abc", b"c"));
    assert!(contains_lowered(b"abc", b"abc"));
    assert!(!contains_lowered(b"abc", b"abcd"));
    assert!(contains_lowered(b"aab", b"ab"));
}

#[test]
fn a_prefix_stands_at_the_start() {
    assert!(starts_with_lowered(b"TEXT/plain", b"text/"));
    assert!(starts_with_lowered(b"text/", b"text/"));
    assert!(!starts_with_lowered(b" text/plain", b"text/"));
    assert!(!starts_with_lowered(b"text", b"text/"));
    assert!(starts_with_lowered(b"", b""));
}

#[test]
fn an_offset_where_the_needle_does_not_fit_does_not_match() {
    assert!(matches_at(b"abcd", b"cd", 2));
    assert!(!matches_at(b"abcd", b"cd", 3));
    assert!(!matches_at(b"abcd", b"cd", 1));
    assert!(matches_at(b"abcd", b"", 4));
    assert!(!matches_at(b"abcd", b"", 5));
    assert!(!matches_at(b"ab", b"abc", 0));
    assert!(!matches_at(b"abcd", b"d", usize::MAX));
}

#[test]
fn equal_texts_are_the_same() {
    assert!(same_text("", ""));
    assert!(same_text("content-type", "content-type"));
    assert!(!same_text("content-type", "Content-Type"));
    assert!(!same_text("a", "ab"));
    assert!(same_text("\u{e9}", "\u{e9}"));
    assert!(!same_text("\u{e9}", "e\u{301}"));
    assert!(same_bytes(&[], &[]));
    assert!(same_bytes(&[1, 2], &[1, 2]));
    assert!(!same_bytes(&[1, 2], &[1, 3]));
    assert!(!same_bytes(&[1, 2], &[1]));
}

#[test]
fn visible_ascii_is_space_to_tilde_and_tab() {
    for byte in 0u8..=255 {
        assert_eq!(
            is_visible_ascii(&[byte]),
            (32..127).contains(&byte) || byte == 9,
            "byte {}",
            byte
        );
    }
    assert!(is_visible_ascii(b""));
    assert!(is_visible_ascii(b"text/html; charset=utf-8"));
    assert!(!is_visible_ascii(b"ok\x00"));
}

#[test]
fn only_valid_utf8_decodes() {
    assert_eq!(decode_text(b"plain"), Some("plain".to_string()));
    assert_eq!(decode_text(b""), Some(String::new()));
    assert_eq!(decode_text("gr\u{fc}n \u{1f600}".as_bytes()), Some("gr\u{fc}n \u{1f600}".to_string()));
    assert_eq!(decode_text(&[0xff]), None);
    assert_eq!(decode_text(&[0xc3]), None);
    assert_eq!(decode_text(&[0xc0, 0x80]), None);
    assert_eq!(decode_text(&[0xed, 0xa0, 0x80]), None);
    assert_eq!(decode_text(&[0xf4, 0x90, 0x80, 0x80]), None);
    assert_eq!(decode_text(&[0xf4, 0x8f, 0xbf, 0xbf]), Some("\u{10ffff}".to_string()));
    assert_eq!(decode_text_or_empty(&[0x61, 0xff]), "");
    assert_eq!(decode_text_or_empty(&[0x61, 0x62]), "ab");
}

#[test]
fn a_text_folds_to_its_lower_case_form_only() {
    assert!(folds_to(b"Content-Type", b"content-type"));
    assert!(folds_to(b"content-type", b"content-type"));
    assert!(folds_to(b"", b""));
    assert!(!folds_to(b"content-type", b"Content-Type"));
    assert!(!folds_to(b"content-type2", b"content-type"));
    assert!(!folds_to(b"content-typ", b"content-type"));
    assert!(!folds_to(b"xcontent-type", b"content-type"));
}
