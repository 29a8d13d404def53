//! The Gemini protocol: translated requests, and answers assembled from their
//! frames.

use tokencode::adapters::gemini::GeminiAdapter;
use tokencode::codec::parse_json;
use tokencode::codec::write_json;
use tokencode::endpoint::gemini::GeminiClient;
use tokencode::json::Json;
use tokencode::models::ContentItem;
use tokencode::models::FunctionCallOutputPayload;
use tokencode::models::ReasoningEffort;
use tokencode::models::ResponseItem;
use tokencode::sse::gemini::process_gemini_sse;
use tokencode::sse::gemini::GeminiStreamState;
use tokencode::sse::SseInput;
use tokencode::sse::StreamVerdict;
use tokencode::unified::UnifiedEvent;
use tokencode::unified::UnifiedReasoning;
use tokencode::unified::UnifiedRequest;
use tokencode::unified::UnifiedTextControls;
use tokencode::unified::UnifiedTextFormat;
use tokencode::unified::UnifiedTextFormatType;
use tokencode::wire::gemini::GeminiApiRequest;

fn json(text: &str) -> Json {
    parse_json(text).expect("a document")
}

fn shown(doc: &Json) -> String {
    write_json(doc).expect("a text")
}

fn written(text: &str) -> String {
    shown(&json(text))
}

fn input(role: &str, text: &str) -> ResponseItem {
    ResponseItem::Message {
        id: None,
        role: role.to_string(),
        content: vec![ContentItem::InputText { text: text.to_string() }],
        phase: None,
    }
}

fn call(name: &str, arguments: &str, call_id: &str) -> ResponseItem {
    ResponseItem::FunctionCall {
        id: None,
        name: name.to_string(),
        namespace: None,
        arguments: arguments.to_string(),
        call_id: call_id.to_string(),
    }
}

fn answer(call_id: &str, text: &str) -> ResponseItem {
    ResponseItem::FunctionCallOutput {
        id: None,
        call_id: call_id.to_string(),
        output: FunctionCallOutputPayload { text: Some(text.to_string()), success: None },
    }
}

fn request(instructions: &str, input: Vec<ResponseItem>) -> UnifiedRequest {
    UnifiedRequest {
        model: "gemini-2.5-pro".to_string(),
        instructions: instructions.to_string(),
        input,
        tools: None,
        tool_choice: "auto".to_string(),
        parallel_tool_calls: false,
        reasoning: None,
        store: false,
        stream: true,
        include_: vec![],
        service_tier: None,
        prompt_cache_key: None,
        text: None,
        client_metadata: None,
    }
}

fn sample_unified_request() -> UnifiedRequest {
    request("你是一个助手。", vec![input("user", "你好")])
}

fn adapter(max_output_tokens: Option<u32>) -> GeminiAdapter<(), ()> {
    GeminiAdapter::new((), max_output_tokens)
}

fn drain(inputs: Vec<SseInput>) -> (Vec<UnifiedEvent>, Option<String>) {
    let mut state = GeminiStreamState::default();
    let mut events = Vec::new();
    let mut failure = None;
    for input in inputs {
        match process_gemini_sse(&mut state, &input, &mut events) {
            StreamVerdict::Continue => {}
            StreamVerdict::Finished => break,
            StreamVerdict::Failed(message) => {
                failure = Some(message);
                break;
            }
        }
    }
    (events.into_iter().map(UnifiedEvent::from).collect(), failure)
}

fn run(frames: &[&str]) -> (Vec<UnifiedEvent>, Option<String>) {
    let mut inputs: Vec<SseInput> =
        frames.iter().map(|f| SseInput::Data(f.to_string())).collect();
    inputs.push(SseInput::End);
    drain(inputs)
}

fn expect_assistant_text(evs: &[UnifiedEvent], expected: &str) {
    let found = evs.iter().any(|ev| match ev {
        UnifiedEvent::OutputItemDone(ResponseItem::Message { content, .. }) => content
            .iter()
            .any(|c| matches!(c, ContentItem::OutputText { text } if text == expected)),
        _ => false,
    });
    assert!(found, "{expected:?}: {evs:?}");
}

fn text_deltas(evs: &[UnifiedEvent]) -> Vec<&str> {
    evs.iter()
        .filter_map(|ev| match ev {
            UnifiedEvent::OutputTextDelta(s) => Some(s.as_str()),
            _ => None,
        })
        .collect()
}

#[test]
fn gemini_adapter_fixtures_fixture_text_completion() {
    let (evs, err) = run(&[
        r#"{"candidates":[{"content":{"role":"model","parts":[{"text":"你好"}]},"index":0}]}"#,
        r#"{"candidates":[{"content":{"role":"model","parts":[{"text":"，世界"}]},"index":0,"finishReason":"STOP"}],
            "usageMetadata":{"promptTokenCount":10,"candidatesTokenCount":3,"totalTokenCount":13}}"#,
    ]);
    assert!(err.is_none(), "{err:?}");
    assert!(matches!(evs.first(), Some(UnifiedEvent::Created)), "{evs:?}");
    assert_eq!(text_deltas(&evs), vec!["你好", "，世界"]);
    expect_assistant_text(&evs, "你好，世界");
    match evs.iter().find(|ev| matches!(ev, UnifiedEvent::Completed { .. })) {
        Some(UnifiedEvent::Completed { end_turn, token_usage, .. }) => {
            assert_eq!(*end_turn, Some(true));
            let usage = token_usage.as_ref().expect("usage");
            assert_eq!(usage.input_tokens, 10);
            assert_eq!(usage.output_tokens, 3);
            assert_eq!(usage.total_tokens, 13);
        }
        other => panic!("{other:?}"),
    }
    let added = evs.iter().position(|ev| {
        matches!(ev, UnifiedEvent::OutputItemAdded(ResponseItem::Message { .. }))
    });
    let done = evs
        .iter()
        .position(|ev| matches!(ev, UnifiedEvent::OutputItemDone(ResponseItem::Message { .. })));
    assert!(added.is_some() && done.is_some(), "{evs:?}");
    assert!(added.unwrap() < done.unwrap());
}

#[test]
fn fixture_tool_call() {
    let (evs, err) = run(&[r#"{"candidates":[{"content":{"role":"model",
        "parts":[{"functionCall":{"name":"get_weather","args":{"city":"北京"}}}]},"index":0,"finishReason":"STOP"}],
        "usageMetadata":{"promptTokenCount":20,"candidatesTokenCount":5,"totalTokenCount":25}}"#]);
    assert!(err.is_none(), "{err:?}");
    assert!(
        evs.iter().any(|ev| matches!(
            ev,
            UnifiedEvent::OutputItemAdded(ResponseItem::FunctionCall { name, call_id, .. })
                if name == "get_weather" && call_id == "call_0"
        )),
        "{evs:?}"
    );
    assert!(
        evs.iter().any(|ev| matches!(
            ev,
            UnifiedEvent::OutputItemDone(ResponseItem::FunctionCall { name, call_id, arguments, .. })
                if name == "get_weather" && call_id == "call_0" && arguments == r#"{"city":"北京"}"#
        )),
        "{evs:?}"
    );
    match evs.iter().find(|ev| matches!(ev, UnifiedEvent::Completed { .. })) {
        Some(UnifiedEvent::Completed { end_turn, token_usage, .. }) => {
            assert_eq!(*end_turn, Some(true));
            let usage = token_usage.as_ref().expect("usage");
            assert_eq!(usage.input_tokens, 20);
            assert_eq!(usage.output_tokens, 5);
        }
        other => panic!("{other:?}"),
    }
}

#[test]
fn fixture_thought_part_becomes_reasoning() {
    let (evs, err) = run(&[r#"{"candidates":[{"content":{"role":"model","parts":[
        {"thought":true,"text":"先思考"},{"text":"答案"}]},"index":0,"finishReason":"STOP"}],
        "usageMetadata":{"promptTokenCount":5,"candidatesTokenCount":2,"thoughtsTokenCount":8,"totalTokenCount":15}}"#]);
    assert!(err.is_none(), "{err:?}");
    let reasoning: Vec<&str> = evs
        .iter()
        .filter_map(|ev| match ev {
            UnifiedEvent::ReasoningContentDelta { delta, .. } => Some(delta.as_str()),
            _ => None,
        })
        .collect();
    assert_eq!(reasoning, vec!["先思考"]);
    assert_eq!(text_deltas(&evs), vec!["答案"]);
    expect_assistant_text(&evs, "答案");
    match evs.iter().find(|ev| matches!(ev, UnifiedEvent::Completed { .. })) {
        Some(UnifiedEvent::Completed { token_usage, .. }) => {
            let usage = token_usage.as_ref().expect("usage");
            assert_eq!(usage.input_tokens, 5);
            assert_eq!(usage.output_tokens, 2);
            assert_eq!(usage.reasoning_output_tokens, 8);
            assert_eq!(usage.total_tokens, 15);
        }
        other => panic!("{other:?}"),
    }
}

#[test]
fn fixture_stop_reason_max_tokens_is_not_end_turn() {
    let (evs, err) = run(&[r#"{"candidates":[{"content":{"role":"model","parts":[{"text":"截断的"}]},
        "index":0,"finishReason":"MAX_TOKENS"}],
        "usageMetadata":{"promptTokenCount":10,"candidatesTokenCount":100,"totalTokenCount":110}}"#]);
    assert!(err.is_none(), "{err:?}");
    match evs.iter().find(|ev| matches!(ev, UnifiedEvent::Completed { .. })) {
        Some(UnifiedEvent::Completed { end_turn, .. }) => assert_eq!(*end_turn, Some(false)),
        other => panic!("{other:?}"),
    }
}

#[test]
fn gemini_adapter_fixtures_fixture_in_stream_error_terminates() {
    let (evs, err) = run(&[r#"{"error":{"message":"quota exceeded"}}"#]);
    assert!(evs.is_empty(), "{evs:?}");
    let err = err.expect("an error");
    assert!(err.contains("quota exceeded"), "{err}");
}

#[test]
fn fixture_usage_reasoning_and_cached() {
    let (evs, err) = run(&[r#"{"candidates":[{"content":{"role":"model","parts":[{"text":"ok"}]},
        "index":0,"finishReason":"STOP"}],"usageMetadata":{"promptTokenCount":100,"candidatesTokenCount":10,
        "thoughtsTokenCount":50,"cachedContentTokenCount":80,"totalTokenCount":160}}"#]);
    assert!(err.is_none(), "{err:?}");
    match evs.iter().find(|ev| matches!(ev, UnifiedEvent::Completed { .. })) {
        Some(UnifiedEvent::Completed { token_usage, .. }) => {
            let usage = token_usage.as_ref().expect("usage");
            assert_eq!(usage.input_tokens, 100);
            assert_eq!(usage.cached_input_tokens, 80);
            assert_eq!(usage.output_tokens, 10);
            assert_eq!(usage.reasoning_output_tokens, 50);
            assert_eq!(usage.total_tokens, 160);
        }
        other => panic!("{other:?}"),
    }
}

#[test]
fn request_translation_shapes_gemini_wire() {
    let doc = GeminiApiRequest::from(request(
        "系统级指令",
        vec![
            input("user", "查天气"),
            call("get_weather", r#"{"city":"SF"}"#, "toolu_1"),
            answer("toolu_1", "晴天"),
        ],
    ))
    .to_json();
    assert!(doc.get("model").is_none());
    assert!(doc.get("stream").is_none());
    assert!(doc.get("toolConfig").is_none());
    let system = doc.get("systemInstruction").expect("systemInstruction");
    assert_eq!(
        system.list_at("parts").expect("parts")[0].text_at("text").as_deref(),
        Some("系统级指令")
    );
    let contents = doc.list_at("contents").expect("contents");
    assert_eq!(contents.len(), 3, "{contents:?}");
    assert_eq!(contents[0].text_at("role").as_deref(), Some("user"));
    assert_eq!(
        contents[0].list_at("parts").expect("parts")[0].text_at("text").as_deref(),
        Some("查天气")
    );
    assert_eq!(contents[1].text_at("role").as_deref(), Some("model"));
    let fc = contents[1].list_at("parts").expect("parts")[0]
        .get("functionCall")
        .expect("functionCall");
    assert_eq!(fc.text_at("name").as_deref(), Some("get_weather"));
    assert_eq!(fc.get("args").and_then(|v| v.text_at("city")).as_deref(), Some("SF"));
    assert_eq!(contents[2].text_at("role").as_deref(), Some("user"));
    let fr = contents[2].list_at("parts").expect("parts")[0]
        .get("functionResponse")
        .expect("functionResponse");
    assert_eq!(fr.text_at("name").as_deref(), Some("get_weather"));
    assert_eq!(fr.get("response").and_then(|v| v.text_at("output")).as_deref(), Some("晴天"));
}

#[test]
fn request_translation_sanitizes_integer_enum_and_emits_tool_config() {
    let mut req = request("", vec![input("user", "选尺寸")]);
    req.tools = Some(vec![json(
        r#"{"type":"function","name":"pick_size","description":"选尺寸","parameters":{
            "type":"object","properties":{"size":{"type":"integer","enum":[1,2,3]}},"required":["size"]}}"#,
    )]);
    let doc = GeminiApiRequest::from(req).to_json();
    let decls = doc.list_at("tools").expect("tools")[0]
        .list_at("functionDeclarations")
        .expect("functionDeclarations");
    assert_eq!(decls.len(), 1);
    assert_eq!(decls[0].text_at("name").as_deref(), Some("pick_size"));
    let size = decls[0]
        .get("parameters")
        .and_then(|p| p.get("properties"))
        .and_then(|p| p.get("size"))
        .expect("size");
    assert_eq!(size.text_at("type").as_deref(), Some("string"));
    let values: Vec<&str> = size
        .list_at("enum")
        .expect("enum")
        .iter()
        .filter_map(|v| v.as_text())
        .map(|s| s.as_str())
        .collect();
    assert_eq!(values, vec!["1", "2", "3"]);
    let mode = doc
        .get("toolConfig")
        .and_then(|t| t.get("functionCallingConfig"))
        .and_then(|f| f.text_at("mode"));
    assert_eq!(mode.as_deref(), Some("AUTO"));
}

#[test]
fn reasoning_effort_drives_wire_thinking_2_5() {
    let cases: Vec<(Option<ReasoningEffort>, Option<i64>, bool)> = vec![
        (Some(ReasoningEffort::Low), Some(2_048), true),
        (Some(ReasoningEffort::Medium), Some(8_192), true),
        (Some(ReasoningEffort::High), Some(16_384), true),
        (Some(ReasoningEffort::XHigh), Some(20_480), true),
        (Some(ReasoningEffort::Max), Some(24_576), true),
        (Some(ReasoningEffort::Ultra), Some(24_576), true),
        (Some(ReasoningEffort::Off), Some(0), false),
        (Some(ReasoningEffort::Minimal), Some(0), false),
        (Some(ReasoningEffort::Custom("future".to_string())), Some(0), false),
        (None, Some(0), false),
    ];
    for (effort, budget, thoughts) in cases {
        let mut req = sample_unified_request();
        req.reasoning = effort.clone().map(|e| UnifiedReasoning {
            effort: Some(e),
            summary: None,
            context: None,
        });
        let wire = adapter(None).prepare(req).to_json();
        let thinking = wire
            .get("generationConfig")
            .and_then(|g| g.get("thinkingConfig"))
            .expect("thinkingConfig");
        assert_eq!(thinking.i64_at("thinkingBudget"), budget, "{effort:?}");
        assert_eq!(thinking.text_at("thinkingLevel"), None);
        assert_eq!(thinking.get("includeThoughts").is_some(), thoughts, "{effort:?}");
    }
}

#[test]
fn reasoning_effort_drives_wire_thinking_3() {
    let cases: Vec<(Option<ReasoningEffort>, &str)> = vec![
        (Some(ReasoningEffort::Low), "low"),
        (Some(ReasoningEffort::Medium), "medium"),
        (Some(ReasoningEffort::High), "high"),
        (Some(ReasoningEffort::XHigh), "high"),
        (Some(ReasoningEffort::Max), "high"),
        (Some(ReasoningEffort::Ultra), "high"),
        (Some(ReasoningEffort::Off), "minimal"),
        (Some(ReasoningEffort::Minimal), "minimal"),
        (None, "minimal"),
    ];
    for (effort, level) in cases {
        let mut req = sample_unified_request();
        req.model = "gemini-3-pro".to_string();
        req.reasoning = effort.clone().map(|e| UnifiedReasoning {
            effort: Some(e),
            summary: None,
            context: None,
        });
        let wire = adapter(None).prepare(req).to_json();
        let thinking = wire
            .get("generationConfig")
            .and_then(|g| g.get("thinkingConfig"))
            .expect("thinkingConfig");
        assert_eq!(thinking.text_at("thinkingLevel").as_deref(), Some(level), "{effort:?}");
        assert_eq!(thinking.i64_at("thinkingBudget"), None);
        assert_eq!(thinking.bool_at("includeThoughts"), Some(true));
    }
}

#[test]
fn provider_max_output_tokens_drives_wire() {
    for (configured, expected) in [(None, None), (Some(8_192u32), Some(8_192u64))] {
        let api = adapter(configured).prepare(sample_unified_request());
        let body = GeminiClient::<(), ()>::body(&api).expect("a body");
        let max = json(&body).get("generationConfig").and_then(|g| g.u64_at("maxOutputTokens"));
        assert_eq!(max, expected);
    }
}

#[test]
fn gemini_structured_output_carries_the_cleaned_schema() {
    let mut req = sample_unified_request();
    req.text = Some(UnifiedTextControls {
        verbosity: None,
        format: Some(UnifiedTextFormat {
            kind: UnifiedTextFormatType::JsonSchema,
            strict: true,
            schema: json(
                r#"{"$schema":"x","type":["object","null"],"properties":{"n":{"type":"integer","enum":[1],"title":"N"}}}"#,
            ),
            name: "point".to_string(),
        }),
    });
    let wire = adapter(None).prepare(req).to_json();
    let generation = wire.get("generationConfig").expect("generationConfig");
    assert_eq!(generation.text_at("responseMimeType").as_deref(), Some("application/json"));
    assert_eq!(
        shown(generation.get("responseSchema").expect("responseSchema")),
        written(
            r#"{"type":"object","nullable":true,"properties":{"n":{"type":"string","enum":["1"]}}}"#
        )
    );
}

#[test]
fn gemini_empty_request_is_refused() {
    let api = adapter(None).prepare(request("", vec![input("developer", "x")]));
    match GeminiClient::<(), ()>::body(&api) {
        Ok(body) => panic!("{body}"),
        Err(message) => assert!(message.contains("无任何 content"), "{message}"),
    }
}

#[test]
fn gemini_path_names_the_model() {
    let path = GeminiClient::<(), ()>::path("gemini-2.5-pro");
    assert!(path.contains("gemini-2.5-pro:streamGenerateContent"), "{path}");
}

#[test]
fn gemini_stream_failures() {
    let (_, err) = drain(vec![SseInput::Idle]);
    assert_eq!(err.as_deref(), Some("idle timeout waiting for Gemini SSE"));
    let (_, err) = drain(vec![SseInput::Broken("cut".to_string())]);
    assert_eq!(err.as_deref(), Some("cut"));
    let (_, err) = run(&[r#"{"error":"plain"}"#]);
    assert_eq!(err.as_deref(), Some("plain"));
    let (evs, err) = run(&["junk"]);
    assert!(err.is_none());
    assert!(matches!(evs.as_slice(), [UnifiedEvent::Completed { end_turn: None, .. }]), "{evs:?}");
}

#[test]
fn gemini_calls_are_numbered_by_place() {
    let (evs, _) = run(&[
        r#"{"candidates":[{"content":{"parts":[{"functionCall":{"name":"ns__a","args":{}}},{"functionCall":{"name":"b"}}]}}]}"#,
        r#"{"candidates":[{"content":{"parts":[{"functionCall":{"name":"c","args":{}}}]}}]}"#,
    ]);
    let done: Vec<(Option<&str>, &str, &str)> = evs
        .iter()
        .filter_map(|ev| match ev {
            UnifiedEvent::OutputItemDone(ResponseItem::FunctionCall {
                namespace, name, call_id, ..
            }) => Some((namespace.as_deref(), name.as_str(), call_id.as_str())),
            _ => None,
        })
        .collect();
    assert_eq!(done, vec![(Some("ns"), "a", "call_0"), (None, "b", "call_1"), (None, "c", "call_2")]);
}

#[test]
fn gemini_body_has_its_fields_in_order() {
    let req = request(
        "rules",
        vec![input("user", "hi"), call("f", r#"{"y":1,"x":2}"#, "c1"), answer("c1", "ok")],
    );
    let api = adapter(Some(9)).prepare(req);
    let body = GeminiClient::<(), ()>::body(&api).expect("a body");
    assert_eq!(
        body,
        [
            r#"{"contents":[{"role":"user","parts":[{"text":"hi"}]},"#,
            r#"{"role":"model","parts":[{"functionCall":{"name":"f","args":{"x":2,"y":1}}}]},"#,
            r#"{"role":"user","parts":[{"functionResponse":{"name":"f","response":{"output":"ok"}}}]}],"#,
            r#""systemInstruction":{"parts":[{"text":"rules"}]},"#,
            r#""generationConfig":{"maxOutputTokens":9,"thinkingConfig":{"thinkingBudget":0}}}"#,
        ]
        .concat()
    );
    assert_eq!(shown(&json(&body)), shown(&api.to_json()));
}

#[test]
fn gemini_calls_are_replayed_under_the_name_they_came_by() {
    let (evs, _) = run(&[
        r#"{"candidates":[{"content":{"parts":[{"functionCall":{"name":"ns__a","args":{}}}]}}]}"#,
    ]);
    let call = evs
        .into_iter()
        .find_map(|ev| match ev {
            UnifiedEvent::OutputItemDone(item @ ResponseItem::FunctionCall { .. }) => Some(item),
            _ => None,
        })
        .expect("a call");
    let doc = GeminiApiRequest::from(request("", vec![input("user", "hi"), call])).to_json();
    assert!(
        shown(&doc).contains(r#"{"functionCall":{"args":{},"name":"ns__a"}}"#),
        "{}",
        shown(&doc)
    );
}
