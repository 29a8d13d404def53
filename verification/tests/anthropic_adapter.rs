//! The Anthropic Messages protocol: translated requests, and answers assembled
//! from their events.

use tokencode::adapters::anthropic::AnthropicAdapter;
use tokencode::codec::parse_json;
use tokencode::codec::write_json;
use tokencode::endpoint::anthropic::AnthropicClient;
use tokencode::json::Json;
use tokencode::models::ContentItem;
use tokencode::models::FunctionCallOutputPayload;
use tokencode::models::ReasoningEffort;
use tokencode::models::ReasoningItemContent;
use tokencode::models::ResponseItem;
use tokencode::sse::anthropic::process_anthropic_sse;
use tokencode::sse::anthropic::AnthropicStreamState;
use tokencode::sse::SseInput;
use tokencode::sse::StreamVerdict;
use tokencode::unified::UnifiedEvent;
use tokencode::unified::UnifiedReasoning;
use tokencode::unified::UnifiedRequest;
use tokencode::unified::UnifiedTextControls;
use tokencode::unified::UnifiedTextFormat;
use tokencode::unified::UnifiedTextFormatType;
use tokencode::wire::anthropic::AnthropicApiRequest;

fn json(text: &str) -> Json {
    parse_json(text).expect("a document")
}

fn shown(doc: &Json) -> String {
    write_json(doc).expect("a text")
}

fn message(role: &str, item: ContentItem) -> ResponseItem {
    ResponseItem::Message { id: None, role: role.to_string(), content: vec![item], phase: None }
}

fn input(role: &str, text: &str) -> ResponseItem {
    message(role, ContentItem::InputText { text: text.to_string() })
}

fn output(role: &str, text: &str) -> ResponseItem {
    message(role, ContentItem::OutputText { text: text.to_string() })
}

fn call(name: &str, arguments: &str, call_id: &str) -> ResponseItem {
    ResponseItem::FunctionCall {
        id: None,
        name: name.to_string(),
        namespace: None,
        arguments: arguments.to_string(),
        call_id: call_id.to_string(),
    }
}

fn answer(call_id: &str, text: &str, success: Option<bool>) -> ResponseItem {
    ResponseItem::FunctionCallOutput {
        id: None,
        call_id: call_id.to_string(),
        output: FunctionCallOutputPayload { text: Some(text.to_string()), success },
    }
}

fn reasoning(text: &str, token: Option<&str>) -> ResponseItem {
    ResponseItem::Reasoning {
        id: None,
        summary: vec![],
        content: Some(vec![ReasoningItemContent::ReasoningText { text: text.to_string() }]),
        encrypted_content: None,
        continuity_token: token.map(String::from),
    }
}

fn request(instructions: &str, input: Vec<ResponseItem>) -> UnifiedRequest {
    UnifiedRequest {
        model: "sonnet-3-5".to_string(),
        instructions: instructions.to_string(),
        input,
        tools: None,
        tool_choice: "auto".to_string(),
        parallel_tool_calls: false,
        reasoning: None,
        store: false,
        stream: true,
        include_: vec![],
        service_tier: None,
        prompt_cache_key: None,
        text: None,
        client_metadata: None,
    }
}

fn sample_unified_request() -> UnifiedRequest {
    request("你是一个助手。", vec![input("user", "你好")])
}

fn structured(schema: &str) -> Option<UnifiedTextControls> {
    Some(UnifiedTextControls {
        verbosity: None,
        format: Some(UnifiedTextFormat {
            kind: UnifiedTextFormatType::JsonSchema,
            strict: true,
            schema: json(schema),
            name: "point".to_string(),
        }),
    })
}

fn adapter(max_output_tokens: Option<u32>) -> AnthropicAdapter<(), ()> {
    AnthropicAdapter::new((), max_output_tokens)
}

fn drain(inputs: Vec<SseInput>) -> (Vec<UnifiedEvent>, Option<String>) {
    let mut state = AnthropicStreamState::default();
    let mut events = Vec::new();
    let mut failure = None;
    for input in inputs {
        match process_anthropic_sse(&mut state, &input, &mut events) {
            StreamVerdict::Continue => {}
            StreamVerdict::Finished => break,
            StreamVerdict::Failed(message) => {
                failure = Some(message);
                break;
            }
        }
    }
    (events.into_iter().map(UnifiedEvent::from).collect(), failure)
}

fn run(frames: &[&str]) -> (Vec<UnifiedEvent>, Option<String>) {
    let mut inputs: Vec<SseInput> =
        frames.iter().map(|f| SseInput::Data(f.to_string())).collect();
    inputs.push(SseInput::End);
    drain(inputs)
}

fn expect_assistant_text(evs: &[UnifiedEvent], expected: &str) {
    let found = evs.iter().any(|ev| match ev {
        UnifiedEvent::OutputItemDone(ResponseItem::Message { content, .. }) => content
            .iter()
            .any(|c| matches!(c, ContentItem::OutputText { text } if text == expected)),
        _ => false,
    });
    assert!(found, "{expected:?}: {evs:?}");
}

fn expect_function_call(evs: &[UnifiedEvent], name: &str, call_id: &str, arguments: &str) {
    let found = evs.iter().any(|ev| match ev {
        UnifiedEvent::OutputItemDone(ResponseItem::FunctionCall {
            name: n,
            call_id: c,
            arguments: a,
            ..
        }) => n == name && c == call_id && a == arguments,
        _ => false,
    });
    assert!(found, "{name:?}: {evs:?}");
}

fn text_deltas(evs: &[UnifiedEvent]) -> Vec<&str> {
    evs.iter()
        .filter_map(|ev| match ev {
            UnifiedEvent::OutputTextDelta(s) => Some(s.as_str()),
            _ => None,
        })
        .collect()
}

fn end_turn_of(evs: &[UnifiedEvent]) -> Option<bool> {
    match evs.iter().find(|ev| matches!(ev, UnifiedEvent::Completed { .. })) {
        Some(UnifiedEvent::Completed { end_turn, .. }) => *end_turn,
        other => panic!("{other:?}"),
    }
}

fn find_tool_result_block(doc: &Json) -> &Json {
    doc.list_at("messages")
        .expect("messages")
        .iter()
        .filter_map(|m| m.list_at("content"))
        .flatten()
        .find(|b| b.text_at("type").as_deref() == Some("tool_result"))
        .expect("a tool result")
}

fn block_at(messages: &[Json], msg: usize, block: usize) -> (String, String, Option<String>) {
    let m = &messages[msg];
    let b = &m.list_at("content").expect("content")[block];
    (
        m.text_at("role").unwrap_or_default(),
        b.text_at("type").unwrap_or_default(),
        b.text_at("text").or_else(|| b.text_at("content")),
    )
}

#[test]
fn anthropic_adapter_fixtures_fixture_text_completion() {
    let (evs, err) = run(&[
        r#"{"type":"message_start","message":{"id":"msg_1","model":"sonnet-3-5","role":"assistant",
            "content":[],"usage":{"input_tokens":10,"output_tokens":1}}}"#,
        r#"{"type":"content_block_start","index":0,"content_block":{"type":"text","text":""}}"#,
        r#"{"type":"content_block_delta","index":0,"delta":{"type":"text_delta","text":"Hello"}}"#,
        r#"{"type":"ping"}"#,
        r#"{"type":"content_block_delta","index":0,"delta":{"type":"text_delta","text":", world"}}"#,
        r#"{"type":"content_block_stop","index":0}"#,
        r#"{"type":"message_delta","delta":{"stop_reason":"end_turn","stop_sequence":null},"usage":{"output_tokens":3}}"#,
        r#"{"type":"message_stop"}"#,
    ]);
    assert!(err.is_none(), "{err:?}");
    assert!(matches!(evs.first(), Some(UnifiedEvent::Created)), "{evs:?}");
    match evs.iter().find(|ev| matches!(ev, UnifiedEvent::Completed { .. })) {
        Some(UnifiedEvent::Completed { end_turn, token_usage, .. }) => {
            assert_eq!(*end_turn, Some(true));
            let usage = token_usage.as_ref().expect("usage");
            assert_eq!(usage.input_tokens, 10);
            assert_eq!(usage.output_tokens, 3);
            assert_eq!(usage.total_tokens, 13);
        }
        other => panic!("{other:?}"),
    }
    assert_eq!(text_deltas(&evs), vec!["Hello", ", world"]);
    expect_assistant_text(&evs, "Hello, world");
    let added = evs.iter().position(|ev| {
        matches!(ev, UnifiedEvent::OutputItemAdded(ResponseItem::Message { .. }))
    });
    let done = evs
        .iter()
        .position(|ev| matches!(ev, UnifiedEvent::OutputItemDone(ResponseItem::Message { .. })));
    assert!(added.is_some() && done.is_some(), "{evs:?}");
    assert!(added.unwrap() < done.unwrap());
}

#[test]
fn anthropic_adapter_fixtures_fixture_tool_call_accumulation() {
    let (evs, err) = run(&[
        r#"{"type":"message_start","message":{"id":"msg_2","model":"sonnet-3-5","usage":{"input_tokens":20,"output_tokens":1}}}"#,
        r#"{"type":"content_block_start","index":0,"content_block":{"type":"tool_use","id":"toolu_1","name":"get_weather","input":{}}}"#,
        r#"{"type":"content_block_delta","index":0,"delta":{"type":"input_json_delta","partial_json":"{\"city\":"}}"#,
        r#"{"type":"content_block_delta","index":0,"delta":{"type":"input_json_delta","partial_json":"\"SF\"}"}}"#,
        r#"{"type":"content_block_stop","index":0}"#,
        r#"{"type":"message_delta","delta":{"stop_reason":"tool_use","stop_sequence":null},"usage":{"output_tokens":5}}"#,
        r#"{"type":"message_stop"}"#,
    ]);
    assert!(err.is_none(), "{err:?}");
    assert!(
        evs.iter().any(|ev| matches!(
            ev,
            UnifiedEvent::OutputItemAdded(ResponseItem::FunctionCall { name, call_id, .. })
                if name == "get_weather" && call_id == "toolu_1"
        )),
        "{evs:?}"
    );
    expect_function_call(&evs, "get_weather", "toolu_1", r#"{"city":"SF"}"#);
    assert_eq!(end_turn_of(&evs), Some(false));
}

#[test]
fn anthropic_adapter_fixtures_fixture_in_stream_error_terminates() {
    let (evs, err) =
        run(&[r#"{"type":"error","error":{"type":"overloaded_error","message":"rate limited"}}"#]);
    assert!(evs.is_empty(), "{evs:?}");
    let err = err.expect("an error");
    assert!(err.contains("rate limited"), "{err}");
}

#[test]
fn request_translation_shapes_anthropic_wire() {
    let api: AnthropicApiRequest = request(
        "系统级指令",
        vec![
            input("user", "查天气"),
            call("get_weather", r#"{"city":"SF"}"#, "toolu_1"),
            answer("toolu_1", "晴天", None),
        ],
    )
    .into();
    let doc = api.to_json();
    assert_eq!(doc.u64_at("max_tokens"), Some(16384));
    assert_eq!(doc.bool_at("stream"), Some(true));

    let system = doc.list_at("system").expect("system");
    assert_eq!(system.len(), 1);
    assert_eq!(system[0].text_at("type").as_deref(), Some("text"));
    assert_eq!(system[0].text_at("text").as_deref(), Some("系统级指令"));

    let messages = doc.list_at("messages").expect("messages");
    assert_eq!(messages.len(), 3, "{messages:?}");
    let (role, kind, text) = block_at(messages, 0, 0);
    assert_eq!((role.as_str(), kind.as_str()), ("user", "text"));
    assert_eq!(text.as_deref(), Some("查天气"));

    assert_eq!(messages[1].text_at("role").as_deref(), Some("assistant"));
    let tool_use = &messages[1].list_at("content").expect("content")[0];
    assert_eq!(tool_use.text_at("type").as_deref(), Some("tool_use"));
    assert_eq!(tool_use.text_at("id").as_deref(), Some("toolu_1"));
    assert_eq!(tool_use.text_at("name").as_deref(), Some("get_weather"));
    assert_eq!(tool_use.get("input").and_then(|v| v.text_at("city")).as_deref(), Some("SF"));

    let (role, kind, content) = block_at(messages, 2, 0);
    assert_eq!((role.as_str(), kind.as_str()), ("user", "tool_result"));
    assert_eq!(content.as_deref(), Some("晴天"));
    let tool_result = &messages[2].list_at("content").expect("content")[0];
    assert_eq!(tool_result.text_at("tool_use_id").as_deref(), Some("toolu_1"));
}

#[test]
fn request_translation_marks_prompt_cache_breakpoints() {
    let mut req = request(
        "系统级指令",
        vec![
            input("user", "调用工具"),
            call("get_weather", r#"{"city":"SF"}"#, "toolu_1"),
            answer("toolu_1", "晴天", None),
        ],
    );
    req.tools = Some(vec![
        json(r#"{"type":"function","name":"get_weather","parameters":{"type":"object","properties":{"city":{"type":"string"}}}}"#),
        json(r#"{"type":"function","name":"get_time","parameters":{"type":"object"}}"#),
    ]);
    let doc = AnthropicApiRequest::from(req).to_json();

    let system = doc.list_at("system").expect("system");
    assert_eq!(system.len(), 1);
    assert_eq!(
        system[0].get("cache_control").and_then(|c| c.text_at("type")).as_deref(),
        Some("ephemeral")
    );

    let tools = doc.list_at("tools").expect("tools");
    assert_eq!(tools.len(), 2);
    assert!(tools[0].get("cache_control").is_none());
    assert_eq!(
        tools[1].get("cache_control").and_then(|c| c.text_at("type")).as_deref(),
        Some("ephemeral")
    );

    for message in doc.list_at("messages").expect("messages") {
        for block in message.list_at("content").expect("content") {
            assert!(block.get("cache_control").is_none(), "{block:?}");
        }
    }
}

#[test]
fn request_translation_drops_non_user_assistant_roles() {
    let mut req = request("", vec![input("developer", "开发者指令")]);
    req.tool_choice = String::new();
    let doc = AnthropicApiRequest::from(req).to_json();
    let messages = doc.list_at("messages").expect("messages");
    assert!(messages.is_empty(), "{messages:?}");
    assert!(doc.get("system").is_none());
}

#[test]
fn fixture_usage_counts_prompt_cache_as_superset() {
    let (evs, err) = run(&[
        r#"{"type":"message_start","message":{"id":"msg_c","model":"sonnet-3-5","usage":{
            "input_tokens":10,"cache_creation_input_tokens":200,"cache_read_input_tokens":5000,"output_tokens":1}}}"#,
        r#"{"type":"content_block_start","index":0,"content_block":{"type":"text","text":""}}"#,
        r#"{"type":"content_block_delta","index":0,"delta":{"type":"text_delta","text":"ok"}}"#,
        r#"{"type":"content_block_stop","index":0}"#,
        r#"{"type":"message_delta","delta":{"stop_reason":"end_turn","stop_sequence":null},"usage":{"output_tokens":3}}"#,
        r#"{"type":"message_stop"}"#,
    ]);
    assert!(err.is_none(), "{err:?}");
    match evs.iter().find(|ev| matches!(ev, UnifiedEvent::Completed { .. })) {
        Some(UnifiedEvent::Completed { token_usage, .. }) => {
            let usage = token_usage.as_ref().expect("usage");
            assert_eq!(usage.input_tokens, 5210);
            assert_eq!(usage.cached_input_tokens, 5000);
            assert_eq!(usage.output_tokens, 3);
            assert_eq!(usage.total_tokens, 5213);
        }
        other => panic!("{other:?}"),
    }
}

#[test]
fn request_translation_tool_choice_parallel_and_is_error_shapes() {
    let tool = || {
        json(r#"{"type":"function","name":"get_weather","parameters":{"type":"object","properties":{}}}"#)
    };

    let doc = AnthropicApiRequest::from(sample_unified_request()).to_json();
    assert!(doc.get("tool_choice").is_none());

    let mut req = sample_unified_request();
    req.tools = Some(vec![tool()]);
    req.tool_choice = "auto".to_string();
    req.parallel_tool_calls = false;
    let doc = AnthropicApiRequest::from(req).to_json();
    let tc = doc.get("tool_choice").expect("tool_choice");
    assert_eq!(tc.text_at("type").as_deref(), Some("auto"));
    assert_eq!(tc.bool_at("disable_parallel_tool_use"), Some(true));

    let mut req = sample_unified_request();
    req.tools = Some(vec![tool()]);
    req.tool_choice = "auto".to_string();
    req.parallel_tool_calls = true;
    let doc = AnthropicApiRequest::from(req).to_json();
    let tc = doc.get("tool_choice").expect("tool_choice");
    assert_eq!(tc.text_at("type").as_deref(), Some("auto"));
    assert!(tc.get("disable_parallel_tool_use").is_none());

    let mut req = sample_unified_request();
    req.tools = Some(vec![tool()]);
    req.tool_choice = "none".to_string();
    req.parallel_tool_calls = false;
    let doc = AnthropicApiRequest::from(req).to_json();
    let tc = doc.get("tool_choice").expect("tool_choice");
    assert_eq!(tc.text_at("type").as_deref(), Some("none"));
    assert!(tc.get("disable_parallel_tool_use").is_none());

    let mut req = sample_unified_request();
    req.input.push(answer("toolu_1", "出错了", Some(false)));
    let doc = AnthropicApiRequest::from(req).to_json();
    assert_eq!(find_tool_result_block(&doc).bool_at("is_error"), Some(true));
}

#[test]
fn request_translation_tool_result_is_error_covers_all_success_states() {
    let translate = |success: Option<bool>| {
        let mut req = sample_unified_request();
        req.input.push(answer("toolu_1", "x", success));
        AnthropicApiRequest::from(req).to_json()
    };
    assert_eq!(find_tool_result_block(&translate(Some(false))).bool_at("is_error"), Some(true));
    assert_eq!(find_tool_result_block(&translate(Some(true))).bool_at("is_error"), Some(false));
    assert!(find_tool_result_block(&translate(None)).get("is_error").is_none());
}

#[test]
fn stream_rejects_empty_messages() {
    let req = request("", vec![input("developer", "开发者指令")]);
    let api = adapter(None).prepare(req);
    match AnthropicClient::<(), ()>::body(&api) {
        Ok(body) => panic!("{body}"),
        Err(message) => assert!(message.contains("无任何 message"), "{message}"),
    }
}

#[test]
fn anthropic_adapter_fixtures_provider_max_output_tokens_drives_wire_max_tokens() {
    for (configured, expected) in [(None, 16_384u64), (Some(8_192u32), 8_192)] {
        let api = adapter(configured).prepare(sample_unified_request());
        let body = AnthropicClient::<(), ()>::body(&api).expect("a body");
        assert_eq!(json(&body).u64_at("max_tokens"), Some(expected));
    }
}

#[test]
fn reasoning_effort_drives_wire_thinking() {
    let cases: Vec<(Option<ReasoningEffort>, Option<u64>)> = vec![
        (Some(ReasoningEffort::Low), Some(1_024)),
        (Some(ReasoningEffort::Medium), Some(4_096)),
        (Some(ReasoningEffort::High), Some(8_192)),
        (Some(ReasoningEffort::XHigh), Some(12_288)),
        (Some(ReasoningEffort::Max), Some(15_360)),
        (Some(ReasoningEffort::Ultra), Some(15_360)),
        (Some(ReasoningEffort::Off), None),
        (Some(ReasoningEffort::Minimal), None),
        (Some(ReasoningEffort::Custom("future".to_string())), None),
        (None, None),
    ];
    for (effort, expected) in cases {
        let mut req = sample_unified_request();
        req.reasoning = effort.clone().map(|e| UnifiedReasoning {
            effort: Some(e),
            summary: None,
            context: None,
        });
        let wire = adapter(None).prepare(req).to_json();
        let thinking = wire.get("thinking");
        match expected {
            Some(budget) => {
                let t = thinking.expect("thinking");
                assert_eq!(t.text_at("type").as_deref(), Some("enabled"), "{effort:?}");
                assert_eq!(t.u64_at("budget_tokens"), Some(budget), "{effort:?}");
            }
            None => assert!(thinking.is_none(), "{effort:?}: {thinking:?}"),
        }
    }
}

#[test]
fn fixture_thinking_delta_emits_reasoning_event() {
    let (evs, err) = run(&[
        r#"{"type":"message_start","message":{"id":"msg_th","model":"m","usage":{"input_tokens":5,"output_tokens":1}}}"#,
        r#"{"type":"content_block_start","index":0,"content_block":{"type":"thinking","thinking":""}}"#,
        r#"{"type":"content_block_delta","index":0,"delta":{"type":"thinking_delta","thinking":"先分析"}}"#,
        r#"{"type":"content_block_delta","index":0,"delta":{"type":"thinking_delta","thinking":"问题"}}"#,
        r#"{"type":"content_block_delta","index":0,"delta":{"type":"signature_delta","signature":"sig-abc"}}"#,
        r#"{"type":"content_block_stop","index":0}"#,
        r#"{"type":"content_block_start","index":1,"content_block":{"type":"text","text":""}}"#,
        r#"{"type":"content_block_delta","index":1,"delta":{"type":"text_delta","text":"答案是"}}"#,
        r#"{"type":"content_block_delta","index":1,"delta":{"type":"text_delta","text":"42"}}"#,
        r#"{"type":"content_block_stop","index":1}"#,
        r#"{"type":"message_delta","delta":{"stop_reason":"end_turn"},"usage":{"output_tokens":8}}"#,
        r#"{"type":"message_stop"}"#,
    ]);
    assert!(err.is_none(), "{err:?}");
    let thoughts: Vec<&str> = evs
        .iter()
        .filter_map(|ev| match ev {
            UnifiedEvent::ReasoningContentDelta { delta, content_index } => {
                assert_eq!(*content_index, 0);
                Some(delta.as_str())
            }
            _ => None,
        })
        .collect();
    assert_eq!(thoughts, vec!["先分析", "问题"]);
    assert_eq!(text_deltas(&evs), vec!["答案是", "42"]);
    expect_assistant_text(&evs, "答案是42");

    let reasoning_idx = evs
        .iter()
        .position(|ev| matches!(ev, UnifiedEvent::OutputItemDone(ResponseItem::Reasoning { .. })))
        .expect("finished reasoning");
    let UnifiedEvent::OutputItemDone(ResponseItem::Reasoning { content, continuity_token, .. }) =
        &evs[reasoning_idx]
    else {
        unreachable!();
    };
    assert_eq!(continuity_token.as_deref(), Some("sig-abc"));
    let text: String = content
        .as_ref()
        .expect("content")
        .iter()
        .map(|c| match c {
            ReasoningItemContent::ReasoningText { text } | ReasoningItemContent::Text { text } => {
                text.as_str()
            }
        })
        .collect();
    assert_eq!(text, "先分析问题");

    let message_idx = evs
        .iter()
        .position(|ev| {
            matches!(
                ev,
                UnifiedEvent::OutputItemDone(ResponseItem::Message { role, .. }) if role == "assistant"
            )
        })
        .expect("a finished message");
    assert!(reasoning_idx < message_idx, "{evs:?}");
}

#[test]
fn fixture_redacted_thinking_suppresses_reasoning_item() {
    let (evs, err) = run(&[
        r#"{"type":"message_start","message":{"id":"msg_r","model":"m","usage":{"input_tokens":3,"output_tokens":1}}}"#,
        r#"{"type":"content_block_start","index":0,"content_block":{"type":"thinking","thinking":""}}"#,
        r#"{"type":"content_block_delta","index":0,"delta":{"type":"thinking_delta","thinking":"明文思考"}}"#,
        r#"{"type":"content_block_delta","index":0,"delta":{"type":"signature_delta","signature":"sig-plain"}}"#,
        r#"{"type":"content_block_stop","index":0}"#,
        r#"{"type":"content_block_start","index":1,"content_block":{"type":"redacted_thinking","data":"encrypted-blob"}}"#,
        r#"{"type":"content_block_stop","index":1}"#,
        r#"{"type":"content_block_start","index":2,"content_block":{"type":"text","text":""}}"#,
        r#"{"type":"content_block_delta","index":2,"delta":{"type":"text_delta","text":"回答"}}"#,
        r#"{"type":"content_block_stop","index":2}"#,
        r#"{"type":"message_delta","delta":{"stop_reason":"end_turn"},"usage":{"output_tokens":4}}"#,
        r#"{"type":"message_stop"}"#,
    ]);
    assert!(err.is_none(), "{err:?}");
    let finished = evs
        .iter()
        .any(|ev| matches!(ev, UnifiedEvent::OutputItemDone(ResponseItem::Reasoning { .. })));
    assert!(!finished, "{evs:?}");
    assert!(
        evs.iter().any(|ev| matches!(
            ev,
            UnifiedEvent::ReasoningContentDelta { delta, .. } if delta == "明文思考"
        )),
        "{evs:?}"
    );
    expect_assistant_text(&evs, "回答");
}

#[test]
fn replay_reasoning_with_signature_emits_thinking_block() {
    let mut req = sample_unified_request();
    req.input = vec![
        input("user", "继续"),
        reasoning("上一轮思考", Some("sig-prev")),
        output("assistant", "上一轮回答"),
    ];
    let wire = adapter(None).prepare(req).to_json();
    let messages = wire.list_at("messages").expect("messages");
    let last = messages
        .iter()
        .rev()
        .find(|m| m.text_at("role").as_deref() == Some("assistant"))
        .expect("an assistant message");
    let blocks = last.list_at("content").expect("content");
    assert_eq!(blocks[0].text_at("type").as_deref(), Some("thinking"), "{blocks:?}");
    assert_eq!(blocks[0].text_at("thinking").as_deref(), Some("上一轮思考"));
    assert_eq!(blocks[0].text_at("signature").as_deref(), Some("sig-prev"));
    assert_eq!(blocks[1].text_at("type").as_deref(), Some("text"), "{blocks:?}");
    assert_eq!(blocks[1].text_at("text").as_deref(), Some("上一轮回答"));

    let mut req = sample_unified_request();
    req.input = vec![reasoning("无签名思考", None), output("assistant", "回答")];
    let wire = adapter(None).prepare(req).to_json();
    let thinking = wire
        .list_at("messages")
        .expect("messages")
        .iter()
        .filter_map(|m| m.list_at("content"))
        .flatten()
        .any(|b| b.text_at("type").as_deref() == Some("thinking"));
    assert!(!thinking, "{wire:?}");
}

#[test]
fn reasoning_effort_thinking_clamps_to_max_tokens() {
    let hard = || {
        let mut req = sample_unified_request();
        req.reasoning = Some(UnifiedReasoning {
            effort: Some(ReasoningEffort::High),
            summary: None,
            context: None,
        });
        req
    };
    let wire = adapter(Some(4096)).prepare(hard()).to_json();
    let t = wire.get("thinking").expect("thinking");
    assert_eq!(t.u64_at("budget_tokens"), Some(3072));

    let wire = adapter(Some(1024)).prepare(hard()).to_json();
    assert!(wire.get("thinking").is_none());
}

#[test]
fn request_translation_injects_structured_output_tool() {
    let schema = r#"{"type":"object","properties":{"x":{"type":"integer"}},"required":["x"]}"#;
    let mut req = sample_unified_request();
    req.text = structured(schema);
    let doc = AnthropicApiRequest::from(req).to_json();
    let tools = doc.list_at("tools").expect("tools");
    let tool = tools
        .iter()
        .find(|t| t.text_at("name").as_deref() == Some("respond_structured"))
        .expect("the tool for structured output");
    assert_eq!(shown(tool.get("input_schema").expect("input_schema")), shown(&json(schema)));
    assert!(tool.get("description").is_none());
    let tc = doc.get("tool_choice").expect("tool_choice");
    assert_eq!(tc.text_at("type").as_deref(), Some("tool"));
    assert_eq!(tc.text_at("name").as_deref(), Some("respond_structured"));
}

#[test]
fn fixture_structured_output_restores_message() {
    let (evs, err) = run(&[
        r#"{"type":"message_start","message":{"id":"msg_s","model":"sonnet-3-5","usage":{"input_tokens":10,"output_tokens":1}}}"#,
        r#"{"type":"content_block_start","index":0,"content_block":{"type":"tool_use","id":"toolu_s","name":"respond_structured","input":{}}}"#,
        r#"{"type":"content_block_delta","index":0,"delta":{"type":"input_json_delta","partial_json":"{\"x\":"}}"#,
        r#"{"type":"content_block_delta","index":0,"delta":{"type":"input_json_delta","partial_json":"1}"}}"#,
        r#"{"type":"content_block_stop","index":0}"#,
        r#"{"type":"message_delta","delta":{"stop_reason":"tool_use","stop_sequence":null},"usage":{"output_tokens":3}}"#,
        r#"{"type":"message_stop"}"#,
    ]);
    let mut req = sample_unified_request();
    req.text = structured(r#"{"type":"object"}"#);
    assert!(AnthropicClient::<(), ()>::body(&adapter(None).prepare(req)).is_ok());
    assert!(err.is_none(), "{err:?}");
    expect_assistant_text(&evs, r#"{"x":1}"#);
    let called = evs.iter().any(|ev| {
        matches!(
            ev,
            UnifiedEvent::OutputItemDone(ResponseItem::FunctionCall { name, .. })
                if name == "respond_structured"
        )
    });
    assert!(!called, "{evs:?}");
    assert_eq!(end_turn_of(&evs), Some(true));
}

#[test]
fn anthropic_stream_failures() {
    let (_, err) = drain(vec![SseInput::Idle]);
    assert_eq!(err.as_deref(), Some("idle timeout waiting for Anthropic SSE"));
    let (_, err) = drain(vec![SseInput::Broken("cut".to_string())]);
    assert_eq!(err.as_deref(), Some("cut"));
    let (_, err) = run(&[r#"{"type":"error"}"#]);
    assert_eq!(err.as_deref(), Some("anthropic stream error"));
    let (evs, err) = run(&["junk", r#"{"no":"type"}"#]);
    assert!(err.is_none());
    assert!(matches!(evs.as_slice(), [UnifiedEvent::Completed { end_turn: None, .. }]), "{evs:?}");
}

#[test]
fn anthropic_stop_reasons() {
    let stopped = |reason: &str| {
        let frame = format!(r#"{{"type":"message_delta","delta":{{"stop_reason":"{reason}"}}}}"#);
        end_turn_of(&run(&[&frame]).0)
    };
    assert_eq!(stopped("end_turn"), Some(true));
    assert_eq!(stopped("stop_sequence"), Some(true));
    assert_eq!(stopped("max_tokens"), Some(false));
    assert_eq!(stopped("pause_turn"), Some(false));
    assert_eq!(stopped("unheard_of"), None);
}

#[test]
fn anthropic_messages_take_turns() {
    let api = AnthropicApiRequest::from(request(
        "",
        vec![
            input("user", "a"),
            input("user", "b"),
            output("assistant", "c"),
            call("f", "not json", "t1"),
            answer("t1", "d", Some(true)),
            input("user", "e"),
        ],
    ));
    let doc = api.to_json();
    let messages = doc.list_at("messages").expect("messages");
    let roles: Vec<String> = messages.iter().filter_map(|m| m.text_at("role")).collect();
    assert_eq!(roles, vec!["user", "assistant", "user"]);
    let sizes: Vec<usize> =
        messages.iter().filter_map(|m| m.list_at("content")).map(|c| c.len()).collect();
    assert_eq!(sizes, vec![2, 2, 2]);
    let use_block = &messages[1].list_at("content").expect("content")[1];
    assert_eq!(shown(use_block.get("input").expect("input")), "{}");
}

#[test]
fn anthropic_frames_can_be_lists_of_fields() {
    let (evs, err) = run(&[r#"["message_start", null, {"id": "msg_l"}]"#, r#"["message_stop"]"#]);
    assert!(err.is_none());
    assert!(matches!(evs.first(), Some(UnifiedEvent::Created)));
    assert!(matches!(
        evs.last(),
        Some(UnifiedEvent::Completed { response_id, .. }) if response_id == "msg_l"
    ));
}

#[test]
fn anthropic_calls_are_replayed_under_the_name_they_came_by() {
    let (evs, _) = run(&[
        r#"{"type":"content_block_start","index":0,"content_block":{"type":"tool_use","id":"a","name":"context7__get-docs"}}"#,
        r#"{"type":"content_block_stop","index":0}"#,
        r#"{"type":"message_stop"}"#,
    ]);
    let call = evs
        .into_iter()
        .find_map(|ev| match ev {
            UnifiedEvent::OutputItemDone(item @ ResponseItem::FunctionCall { .. }) => Some(item),
            _ => None,
        })
        .expect("a call");
    match &call {
        ResponseItem::FunctionCall { namespace, name, .. } => {
            assert_eq!((namespace.as_deref(), name.as_str()), (Some("context7"), "get-docs"));
        }
        other => panic!("{other:?}"),
    }
    let doc = AnthropicApiRequest::from(request("", vec![input("user", "hi"), call])).to_json();
    assert!(
        shown(&doc).contains(r#""input":{},"name":"context7__get-docs","type":"tool_use""#),
        "{}",
        shown(&doc)
    );
}

#[test]
fn anthropic_body_has_its_fields_in_order() {
    let req = request(
        "",
        vec![
            input("user", "a\nb"),
            call("f", r#"{"y":1,"x":2}"#, "c1"),
            answer("c1", "no", Some(false)),
        ],
    );
    let api = AnthropicApiRequest::from(req);
    let body = AnthropicClient::<(), ()>::body(&api).expect("a body");
    assert!(body.starts_with(r#"{"model":"sonnet-3-5","max_tokens":16384,"messages":[{"role":"user","content":["#));
    assert!(body.contains(r#"{"type":"text","text":"a\nb"}"#), "{body}");
    assert!(
        body.contains(r#"{"type":"tool_use","id":"c1","name":"f","input":{"x":2,"y":1}}"#),
        "{body}"
    );
    assert!(
        body.contains(
            r#"{"type":"tool_result","tool_use_id":"c1","content":"no","is_error":true}"#
        ),
        "{body}"
    );
    assert!(body.ends_with(r#","stream":true}"#), "{body}");
    assert_eq!(shown(&json(&body)), shown(&api.to_json()));
}

#[test]
fn anthropic_blocks_are_not_empty() {
    let req = request("", vec![input("user", ""), input("user", "hi"), output("assistant", "")]);
    let doc = AnthropicApiRequest::from(req).to_json();
    assert_eq!(
        shown(doc.get("messages").expect("messages")),
        r#"[{"content":[{"text":"hi","type":"text"}],"role":"user"}]"#
    );
}
