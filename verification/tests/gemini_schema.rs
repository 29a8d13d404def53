//! Schemas as the Gemini protocol accepts them.

use tokencode::adapters::gemini_schema::sanitize_gemini_schema;
use tokencode::adapters::gemini_schema::strip_gemini_response_schema_keys;
use tokencode::codec::parse_json;
use tokencode::codec::write_json;
use tokencode::json::Json;

fn json(text: &str) -> Json {
    parse_json(text).expect("a document")
}

fn sanitized(text: &str) -> String {
    let mut schema = json(text);
    sanitize_gemini_schema(&mut schema);
    write_json(&schema).expect("a text")
}

fn written(text: &str) -> String {
    write_json(&json(text)).expect("a text")
}

#[test]
fn sanitize_normalizes_nullable_type_array() {
    let mut schema = json(
        r#"{
            "type": ["object", "null"],
            "properties": {
                "action": {"type": ["object", "null"]}
            }
        }"#,
    );
    sanitize_gemini_schema(&mut schema);
    assert_eq!(schema.text_at("type").as_deref(), Some("object"));
    assert_eq!(schema.bool_at("nullable"), Some(true));
    let action = schema.get("properties").and_then(|p| p.get("action")).expect("action");
    assert_eq!(action.text_at("type").as_deref(), Some("object"));
    assert_eq!(action.bool_at("nullable"), Some(true));
}

#[test]
fn sanitize_keeps_non_nullable_type_untouched() {
    let mut schema = json(r#"{"type": "string", "enum": ["a", "b"]}"#);
    sanitize_gemini_schema(&mut schema);
    assert_eq!(schema.text_at("type").as_deref(), Some("string"));
    assert!(schema.get("nullable").is_none());
    assert_eq!(schema.get("enum"), Some(&json(r#"["a", "b"]"#)));
}

#[test]
fn sanitize_is_idempotent() {
    let text = r#"{
        "type": ["object", "null"],
        "required": ["a", "missing"],
        "properties": {
            "a": {"type": "integer", "enum": [1, 2, 3]},
            "b": {"type": "array"},
            "c": {"type": "string", "properties": {"x": {"type": "string"}}}
        }
    }"#;
    let once = sanitized(text);
    assert_eq!(sanitized(&once), once);
}

#[test]
fn sanitize_turns_number_enums_into_text() {
    assert_eq!(
        sanitized(r#"{"type": "integer", "enum": [1, 2]}"#),
        written(r#"{"type": "string", "enum": ["1", "2"]}"#)
    );
}

#[test]
fn sanitize_leaves_values_that_are_no_objects() {
    assert_eq!(sanitized("42"), "42");
    assert_eq!(sanitized(r#""text""#), r#""text""#);
}

#[test]
fn strip_removes_what_answers_may_not_have() {
    let mut schema = json(
        r##"{
            "$schema": "draft", "title": "T", "$defs": {}, "definitions": {},
            "type": "object",
            "additionalProperties": false,
            "properties": {
                "a": {"type": "string", "default": "x", "examples": ["y"]},
                "title": {"type": "string"},
                "b": {"type": "array", "items": {"$ref": "#/$defs/B", "type": "string"}}
            }
        }"##,
    );
    strip_gemini_response_schema_keys(&mut schema);
    assert_eq!(
        write_json(&schema).expect("a text"),
        written(
            r#"{
                "type": "object",
                "additionalProperties": false,
                "properties": {
                    "a": {"type": "string"},
                    "title": {"type": "string"},
                    "b": {"type": "array", "items": {"type": "string"}}
                }
            }"#
        )
    );
}
