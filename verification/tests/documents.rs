//! JSON documents: reading, writing, and what they hold.

use tokencode::codec::parse_json;
use tokencode::codec::write_json;
use tokencode::codec::write_json_pretty;
use tokencode::json::Json;
use tokencode::models::Verbosity;
use tokencode::wire::responses::create_text_param_for_request;
use tokencode::wire::responses::response_create_client_metadata;
use tokencode::wire::responses::OpenAiVerbosity;
use tokencode::wire::responses::W3cTraceContext;

#[test]
fn documents_are_read() {
    assert_eq!(parse_json("null"), Some(Json::Null));
    assert_eq!(parse_json(" true "), Some(Json::Bool(true)));
    assert_eq!(parse_json("18446744073709551615"), Some(Json::Unsigned(u64::MAX)));
    assert_eq!(parse_json("-9223372036854775808"), Some(Json::Signed(i64::MIN)));
    assert_eq!(parse_json("1.5"), Some(Json::Decimal("1.5".to_string())));
    assert_eq!(parse_json(r#""a\nb""#), Some(Json::Text("a\nb".to_string())));
    assert_eq!(
        parse_json("[1,[]]"),
        Some(Json::List(vec![Json::Unsigned(1), Json::List(vec![])]))
    );
    assert_eq!(parse_json("{"), None);
    assert_eq!(parse_json("{} x"), None);
    assert_eq!(parse_json(""), None);
}

#[test]
fn documents_are_written() {
    let doc = Json::Fields(vec![
        ("b".to_string(), Json::Signed(-1)),
        ("a".to_string(), Json::Text("\"".to_string())),
        ("b".to_string(), Json::Decimal("0.5".to_string())),
    ]);
    assert_eq!(write_json(&doc).as_deref(), Some(r#"{"a":"\"","b":0.5}"#));
    assert_eq!(
        write_json_pretty(&Json::List(vec![Json::Null])).as_deref(),
        Some("[\n  null\n]")
    );
    assert_eq!(write_json(&Json::Decimal("not a number".to_string())), None);
}

#[test]
fn documents_come_back_as_they_were_written() {
    let text = r#"{"a":[1,-2,3.25,"x",null,true],"b":{"c":{}}}"#;
    let doc = parse_json(text).expect("a document");
    assert_eq!(write_json(&doc).as_deref(), Some(text));
    assert_eq!(parse_json(&write_json(&doc).expect("a text")), Some(doc));
}

#[test]
fn of_two_fields_with_one_key_the_later_holds() {
    let doc = Json::Fields(vec![
        ("k".to_string(), Json::Unsigned(1)),
        ("k".to_string(), Json::Unsigned(2)),
    ]);
    assert_eq!(doc.u64_at("k"), Some(2));
    assert_eq!(parse_json(r#"{"k":1,"k":2}"#).and_then(|d| d.u64_at("k")), Some(2));
}

#[test]
fn text_controls_for_a_request() {
    assert!(create_text_param_for_request(None, &None, true).is_none());
    let controls = create_text_param_for_request(Some(Verbosity::High), &None, true).expect("controls");
    assert!(matches!(controls.verbosity, Some(OpenAiVerbosity::High)));
    assert!(controls.format.is_none());
    let schema = parse_json(r#"{"type":"object"}"#);
    let controls = create_text_param_for_request(None, &schema, false).expect("controls");
    let format = controls.format.expect("format");
    assert!(!format.strict);
    assert_eq!(format.name, "codex_output_schema");
    assert_eq!(Some(format.schema), schema);
}

#[test]
fn trace_context_joins_the_metadata() {
    let trace = W3cTraceContext {
        traceparent: Some("tp".to_string()),
        tracestate: None,
    };
    let pairs = response_create_client_metadata(
        Some(vec![("k".to_string(), "v".to_string())]),
        Some(&trace),
    )
    .expect("metadata");
    assert!(pairs.contains(&("k".to_string(), "v".to_string())));
    assert_eq!(pairs.len(), 2);
    assert!(pairs.iter().any(|(_, v)| v == "tp"));
    assert!(response_create_client_metadata(None, None).is_none());
}

#[test]
fn what_was_read_can_be_written() {
    for text in ["1.0", "-0.0", "1e300", "18446744073709551616", "0.1", "[1e-7,{\"a\":2.50}]"] {
        let doc = parse_json(text).expect("a document");
        let written = write_json(&doc).expect("its text");
        assert_eq!(parse_json(&written), Some(doc));
    }
    assert_eq!(write_json(&Json::Decimal("2.50".to_string())), None);
}
