use armillae_structured::schema::dialect_for_uri;
use armillae_structured::text::{chars_of, is_blank, same_text};
use armillae_structured::json::{nests_within, JsonShape, MAX_SCHEMA_DEPTH};
use armillae_structured::structured::{dialect_from_member, judge_text};
use armillae_structured::{BridgeError, Dialect, StructuredOutputErrorKind};

#[test]
fn dialects_ignore_trailing_hashes() {
    assert_eq!(dialect_for_uri("http://json-schema.org/draft-04/schema#"), Some(Dialect::Draft4));
    assert_eq!(dialect_for_uri("http://json-schema.org/draft-06/schema"), Some(Dialect::Draft6));
    assert_eq!(dialect_for_uri("http://json-schema.org/draft-07/schema###"), Some(Dialect::Draft7));
    assert_eq!(dialect_for_uri("https://json-schema.org/draft/2019-09/schema"), Some(Dialect::Draft201909));
    assert_eq!(dialect_for_uri("https://json-schema.org/draft/2020-12/schema#"), Some(Dialect::Draft202012));
}

#[test]
fn unknown_dialects_are_none() {
    for uri in [
        "",
        "#",
        "http://json-schema.org/draft-03/schema#",
        "https://json-schema.org/draft-07/schema#",
        "http://json-schema.org/draft-07/schema#/",
        "http://json-schema.org/draft-07/schema ",
    ] {
        assert_eq!(dialect_for_uri(uri), None, "{uri}");
    }
}

#[test]
fn blank_text_is_unicode_white_space() {
    assert!(is_blank(""));
    assert!(is_blank(" \t\r\n\u{0B}\u{0C}\u{85}\u{A0}\u{1680}\u{2000}\u{200A}\u{2028}\u{2029}\u{202F}\u{205F}\u{3000}"));
    assert!(!is_blank(" a "));
    assert!(!is_blank("\u{200B}"));
}

#[test]
fn text_helpers() {
    assert_eq!(chars_of("añb"), vec!['a', 'ñ', 'b']);
    assert!(same_text("tool_use", "tool_use"));
    assert!(!same_text("tool_use", "tool_uses"));
    assert!(!same_text("abc", "abd"));
}

#[test]
fn member_decides_dialect() {
    assert_eq!(dialect_from_member(None), Some(Dialect::Draft202012));
    assert_eq!(dialect_from_member(Some(None)), None);
    assert_eq!(
        dialect_from_member(Some(Some("http://json-schema.org/draft-06/schema#".to_string()))),
        Some(Dialect::Draft6)
    );
    assert_eq!(dialect_from_member(Some(Some("urn:custom".to_string()))), None);
}

#[test]
fn text_verdicts() {
    let err = |kind| Err(BridgeError::StructuredOutput { kind });
    assert_eq!(judge_text(JsonShape::Malformed, true), err(StructuredOutputErrorKind::InvalidJson));
    assert_eq!(judge_text(JsonShape::NotObject, true), err(StructuredOutputErrorKind::NotObject));
    assert_eq!(judge_text(JsonShape::Object, false), err(StructuredOutputErrorKind::SchemaMismatch));
    assert_eq!(judge_text(JsonShape::Object, true), Ok(()));
}

#[test]
fn nesting_is_counted_outside_strings() {
    assert_eq!(MAX_SCHEMA_DEPTH, 512);
    assert!(nests_within("", 0));
    assert!(nests_within("true", 0));
    assert!(!nests_within("{}", 0));
    assert!(nests_within("{}", 1));
    assert!(nests_within(r#"{"a":[1,{"b":2}]}"#, 3));
    assert!(!nests_within(r#"{"a":[1,{"b":2}]}"#, 2));
    assert!(nests_within(r#"{"a":"[[[{{{"}"#, 1));
    assert!(nests_within(r#"{"a":"\"[[["}"#, 1));
    assert!(!nests_within(r#"{"a":"\\"[[["}"#, 1));
    assert!(nests_within("]]]][", 1));
    assert!(nests_within("[][][]", 1));
}
