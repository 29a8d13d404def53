//! The Responses protocol: requests, options and events in both directions.

use tokencode::adapters::responses::OpenaiResponsesAdapter;
use tokencode::codec::parse_json;
use tokencode::events::ResponseEvent;
use tokencode::events::SafetyBuffering;
use tokencode::unified::UnifiedError;
use tokencode::unified::UnifiedCompression;
use tokencode::unified::UnifiedEvent;
use tokencode::unified::UnifiedOpenAiVerbosity;
use tokencode::unified::UnifiedReasoning;
use tokencode::unified::UnifiedReasoningContext;
use tokencode::unified::UnifiedRequest;
use tokencode::unified::UnifiedTextControls;
use tokencode::unified::UnifiedTextFormat;
use tokencode::unified::UnifiedTextFormatType;
use tokencode::wire::responses::Compression;
use tokencode::wire::responses::OpenAiVerbosity;
use tokencode::wire::responses::ReasoningContext;
use tokencode::wire::responses::ResponsesApiRequest;
use tokencode::wire::responses::TextFormatType;

fn sample() -> UnifiedRequest {
    UnifiedRequest {
        model: "m".to_string(),
        instructions: String::new(),
        input: vec![],
        tools: None,
        tool_choice: "auto".to_string(),
        parallel_tool_calls: false,
        reasoning: Some(UnifiedReasoning {
            effort: None,
            summary: None,
            context: Some(UnifiedReasoningContext::CurrentTurn),
        }),
        store: false,
        stream: true,
        include_: vec![],
        service_tier: None,
        prompt_cache_key: None,
        text: Some(UnifiedTextControls {
            verbosity: Some(UnifiedOpenAiVerbosity::Low),
            format: Some(UnifiedTextFormat {
                kind: UnifiedTextFormatType::JsonSchema,
                strict: true,
                schema: parse_json(r#"{"type": "object"}"#).expect("a document"),
                name: "n".to_string(),
            }),
        }),
        client_metadata: None,
    }
}

#[test]
fn maps_request_with_reasoning_and_text() {
    let r: ResponsesApiRequest = sample().into();
    assert_eq!(r.model.as_str(), "m");
    assert!(r.stream);

    let Some(reasoning) = r.reasoning else {
        panic!("reasoning");
    };
    let Some(context) = reasoning.context else {
        panic!("context");
    };
    assert!(matches!(context, ReasoningContext::CurrentTurn));

    let Some(text) = r.text else {
        panic!("text");
    };
    let Some(verbosity) = text.verbosity else {
        panic!("verbosity");
    };
    assert!(matches!(verbosity, OpenAiVerbosity::Low));
    let Some(fmt) = text.format else {
        panic!("format");
    };
    assert!(fmt.strict);
    assert!(matches!(fmt.kind, TextFormatType::JsonSchema));
    assert_eq!(fmt.name.as_str(), "n");
}

#[test]
fn maps_compression() {
    assert!(matches!(Compression::from(UnifiedCompression::Identity), Compression::Identity));
    assert!(matches!(Compression::from(UnifiedCompression::Zstd), Compression::Zstd));
}

#[test]
fn maps_events() {
    assert!(matches!(UnifiedEvent::from(ResponseEvent::Created), UnifiedEvent::Created));
    assert!(matches!(
        UnifiedEvent::from(ResponseEvent::ServerReasoningIncluded(true)),
        UnifiedEvent::ServerReasoningIncluded(true)
    ));

    let ev = UnifiedEvent::from(ResponseEvent::Completed {
        response_id: "r1".to_string(),
        token_usage: None,
        end_turn: Some(true),
    });
    match ev {
        UnifiedEvent::Completed { response_id, token_usage, end_turn } => {
            assert_eq!(response_id.as_str(), "r1");
            assert!(token_usage.is_none());
            assert_eq!(end_turn, Some(true));
        }
        _ => panic!("Completed"),
    }

    let ev = UnifiedEvent::from(ResponseEvent::SafetyBuffering(SafetyBuffering {
        use_cases: vec!["a".to_string()],
        reasons: vec![],
        show_buffering_ui: true,
        faster_model: Some("f".to_string()),
    }));
    match ev {
        UnifiedEvent::SafetyBuffering(s) => {
            assert!(s.show_buffering_ui);
            assert_eq!(s.faster_model.as_deref(), Some("f"));
            assert_eq!(s.use_cases.len(), 1);
        }
        _ => panic!("SafetyBuffering"),
    }
}

#[test]
fn a_request_comes_back_as_it_went_out() {
    let adapter: OpenaiResponsesAdapter<(), ()> = OpenaiResponsesAdapter::new(());
    let back = UnifiedRequest::from(adapter.prepare(sample()));
    assert_eq!(format!("{back:?}"), format!("{:?}", sample()));
}

#[test]
fn errors_say_where_they_come_from() {
    let err = UnifiedError::passthrough("boom");
    assert_eq!(err.as_passthrough(), Some(&"boom"));
    assert_eq!(err.text("boom"), "inner adapter error: boom");
    let err: UnifiedError<()> = UnifiedError::Mapping("no such field".to_string());
    assert!(err.as_passthrough().is_none());
    assert_eq!(err.text(""), "unified mapping error: no such field");
}
