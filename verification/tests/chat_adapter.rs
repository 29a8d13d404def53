//! The Chat Completions protocol: translated requests, and answers assembled
//! from their frames.

use tokencode::adapters::chat::OpenaiChatAdapter;
use tokencode::codec::parse_json;
use tokencode::codec::write_json;
use tokencode::json::Json;
use tokencode::models::ContentItem;
use tokencode::models::FunctionCallOutputPayload;
use tokencode::models::ImageDetail;
use tokencode::models::ResponseItem;
use tokencode::sse::chat::process_chat_sse;
use tokencode::sse::chat::ChatStreamState;
use tokencode::sse::SseInput;
use tokencode::sse::StreamVerdict;
use tokencode::unified::UnifiedEvent;
use tokencode::unified::UnifiedRequest;
use tokencode::wire::body::write_body;
use tokencode::wire::chat::ChatApiRequest;

fn json(text: &str) -> Json {
    parse_json(text).expect("a document")
}

fn written(text: &str) -> String {
    write_json(&json(text)).expect("a text")
}

fn shown(doc: &Json) -> String {
    write_json(doc).expect("a text")
}

fn message(role: &str, text: &str) -> ResponseItem {
    ResponseItem::Message {
        id: None,
        role: role.to_string(),
        content: vec![ContentItem::InputText { text: text.to_string() }],
        phase: None,
    }
}

fn request(instructions: &str, input: Vec<ResponseItem>) -> UnifiedRequest {
    UnifiedRequest {
        model: "glm-5.2".to_string(),
        instructions: instructions.to_string(),
        input,
        tools: None,
        tool_choice: "auto".to_string(),
        parallel_tool_calls: false,
        reasoning: None,
        store: false,
        stream: true,
        include_: vec![],
        service_tier: None,
        prompt_cache_key: None,
        text: None,
        client_metadata: None,
    }
}

fn sample_unified_request() -> UnifiedRequest {
    request("你是一个助手。", vec![message("user", "你好")])
}

/// Takes in inputs until the answer is complete or broke off.
fn drain(inputs: Vec<SseInput>) -> (Vec<UnifiedEvent>, Option<String>) {
    let mut state = ChatStreamState::default();
    let mut events = Vec::new();
    let mut failure = None;
    for input in inputs {
        match process_chat_sse(&mut state, &input, &mut events) {
            StreamVerdict::Continue => {}
            StreamVerdict::Finished => break,
            StreamVerdict::Failed(message) => {
                failure = Some(message);
                break;
            }
        }
    }
    (events.into_iter().map(UnifiedEvent::from).collect(), failure)
}

fn run(chunks: &[&str], done: bool) -> (Vec<UnifiedEvent>, Option<String>) {
    let mut inputs: Vec<SseInput> =
        chunks.iter().map(|c| SseInput::Data(c.to_string())).collect();
    if done {
        inputs.push(SseInput::Data("[DONE]".to_string()));
    }
    inputs.push(SseInput::End);
    drain(inputs)
}

fn has_assistant_text(evs: &[UnifiedEvent], expected: &str) -> bool {
    evs.iter().any(|ev| match ev {
        UnifiedEvent::OutputItemDone(ResponseItem::Message { content, .. }) => content
            .iter()
            .any(|c| matches!(c, ContentItem::OutputText { text } if text == expected)),
        _ => false,
    })
}

fn has_function_call(evs: &[UnifiedEvent], name: &str, call_id: &str, arguments: &str) -> bool {
    evs.iter().any(|ev| match ev {
        UnifiedEvent::OutputItemDone(ResponseItem::FunctionCall {
            name: n,
            call_id: c,
            arguments: a,
            ..
        }) => n == name && c == call_id && a == arguments,
        _ => false,
    })
}

fn deltas(evs: &[UnifiedEvent]) -> Vec<&str> {
    evs.iter()
        .filter_map(|ev| match ev {
            UnifiedEvent::OutputTextDelta(s) => Some(s.as_str()),
            _ => None,
        })
        .collect()
}

#[test]
fn chat_adapter_fixtures_fixture_text_completion() {
    let (evs, err) = run(
        &[
            r#"{"id":"chatcmpl-1","object":"chat.completion.chunk","model":"glm-5.2",
                "choices":[{"index":0,"delta":{"role":"assistant","content":""},"finish_reason":null}]}"#,
            r#"{"id":"chatcmpl-1","choices":[{"index":0,"delta":{"content":"Hello"},"finish_reason":null}]}"#,
            r#"{"id":"chatcmpl-1","choices":[{"index":0,"delta":{"content":", world"},"finish_reason":null}]}"#,
            r#"{"id":"chatcmpl-1","choices":[{"index":0,"delta":{},"finish_reason":"stop"}]}"#,
            r#"{"id":"chatcmpl-1","choices":[],"usage":{"prompt_tokens":10,"completion_tokens":2,"total_tokens":12}}"#,
        ],
        true,
    );
    assert!(err.is_none(), "{err:?}");
    assert!(matches!(evs.first(), Some(UnifiedEvent::Created)), "{evs:?}");
    match evs.iter().find(|ev| matches!(ev, UnifiedEvent::Completed { .. })) {
        Some(UnifiedEvent::Completed { end_turn, token_usage, .. }) => {
            assert_eq!(*end_turn, Some(true));
            let usage = token_usage.as_ref().expect("usage");
            assert_eq!(usage.input_tokens, 10);
            assert_eq!(usage.output_tokens, 2);
            assert_eq!(usage.total_tokens, 12);
        }
        other => panic!("{other:?}"),
    }
    assert_eq!(deltas(&evs), vec!["Hello", ", world"]);
    assert!(has_assistant_text(&evs, "Hello, world"), "{evs:?}");
    let added = evs.iter().position(|ev| {
        matches!(ev, UnifiedEvent::OutputItemAdded(ResponseItem::Message { .. }))
    });
    let done = evs
        .iter()
        .position(|ev| matches!(ev, UnifiedEvent::OutputItemDone(ResponseItem::Message { .. })));
    assert!(added.is_some() && done.is_some(), "{evs:?}");
    assert!(added.unwrap() < done.unwrap());
}

#[test]
fn chat_adapter_fixtures_fixture_tool_call_accumulation() {
    let (evs, err) = run(
        &[
            r#"{"id":"chatcmpl-2","model":"glm-5.2","choices":[{"index":0,"delta":{"role":"assistant","tool_calls":[
                {"index":0,"id":"call_1","type":"function","function":{"name":"get_weather","arguments":""}}
            ]},"finish_reason":null}]}"#,
            r#"{"id":"chatcmpl-2","choices":[{"index":0,"delta":{"tool_calls":[
                {"index":0,"function":{"arguments":"{\"city\":"}}
            ]},"finish_reason":null}]}"#,
            r#"{"id":"chatcmpl-2","choices":[{"index":0,"delta":{"tool_calls":[
                {"index":0,"function":{"arguments":"\"SF\"}"}}
            ]},"finish_reason":null}]}"#,
            r#"{"id":"chatcmpl-2","choices":[{"index":0,"delta":{},"finish_reason":"tool_calls"}]}"#,
            r#"{"id":"chatcmpl-2","choices":[],"usage":{"prompt_tokens":20,"completion_tokens":5,"total_tokens":25}}"#,
        ],
        true,
    );
    assert!(err.is_none(), "{err:?}");
    assert!(
        evs.iter().any(|ev| matches!(
            ev,
            UnifiedEvent::OutputItemAdded(ResponseItem::FunctionCall { name, call_id, .. })
                if name == "get_weather" && call_id == "call_1"
        )),
        "{evs:?}"
    );
    assert!(has_function_call(&evs, "get_weather", "call_1", r#"{"city":"SF"}"#), "{evs:?}");
    match evs.iter().find(|ev| matches!(ev, UnifiedEvent::Completed { .. })) {
        Some(UnifiedEvent::Completed { end_turn, .. }) => assert_eq!(*end_turn, Some(false)),
        other => panic!("{other:?}"),
    }
}

#[test]
fn chat_adapter_fixtures_fixture_in_stream_error_terminates() {
    let (evs, err) = run(&[r#"{"error":{"message":"rate limited"}}"#], false);
    assert!(evs.is_empty(), "{evs:?}");
    let err = err.expect("an error");
    assert!(err.contains("rate limited"), "{err}");
}

#[test]
fn request_translation_normalizes_developer_role_to_system() {
    let api_request: ChatApiRequest = request(
        "系统级指令",
        vec![message("developer", "额外的开发者指令"), message("user", "你好")],
    )
    .into();
    let doc = api_request.to_json();
    let messages = doc.list_at("messages").expect("messages");
    let roles: Vec<String> =
        messages.iter().map(|m| m.text_at("role").unwrap_or_default()).collect();
    assert!(!roles.iter().any(|r| *r == "developer"), "{roles:?}");
    assert_eq!(roles, vec!["system", "system", "user"]);
}

#[test]
fn chat_adapter_fixtures_provider_max_output_tokens_drives_wire_max_tokens() {
    for (configured, expected) in [(None, None::<u64>), (Some(8_192u32), Some(8_192u64))] {
        let adapter: OpenaiChatAdapter<(), ()> = OpenaiChatAdapter::new((), configured);
        let wire = adapter.prepare(sample_unified_request()).to_json();
        assert_eq!(wire.u64_at("max_tokens"), expected);
    }
}

#[test]
fn chat_stream_ends_without_end_marker() {
    let (evs, err) = run(&[r#"{"id":"c","choices":[{"delta":{"content":"hi"}}]}"#], false);
    assert!(err.is_none());
    assert!(has_assistant_text(&evs, "hi"));
    assert!(matches!(
        evs.last(),
        Some(UnifiedEvent::Completed { end_turn: Some(false), response_id, .. }) if response_id == "c"
    ));
}

#[test]
fn chat_stream_passes_over_frames_it_cannot_read() {
    let (evs, err) = run(&["not json", "[1,2]", r#"{"choices":[{"delta":{"content":"x"}}]}"#], true);
    assert!(err.is_none());
    assert_eq!(deltas(&evs), vec!["x"]);
}

#[test]
fn chat_stream_breaks_off_on_silence_and_breakage() {
    let (evs, err) = drain(vec![SseInput::Idle]);
    assert!(evs.is_empty());
    assert_eq!(err.as_deref(), Some("idle timeout waiting for Chat SSE"));
    let (_, err) = drain(vec![SseInput::Broken("reset".to_string())]);
    assert_eq!(err.as_deref(), Some("reset"));
    let (_, err) = run(&[r#"{"error":{"message":"  "}}"#], false);
    assert_eq!(err.as_deref(), Some("chat stream error"));
    let (_, err) = run(&[r#"{"error":{}}"#], false);
    assert_eq!(err.as_deref(), Some("chat stream error"));
}

#[test]
fn chat_stream_keeps_tool_calls_in_order_of_index() {
    let (evs, _) = run(
        &[
            r#"{"choices":[{"delta":{"tool_calls":[{"index":1,"id":"b","function":{"name":"two","arguments":"{}"}}]}}]}"#,
            r#"{"choices":[{"delta":{"tool_calls":[{"index":0,"function":{"name":"one","arguments":"{}"}}]}}]}"#,
        ],
        true,
    );
    let done: Vec<&str> = evs
        .iter()
        .filter_map(|ev| match ev {
            UnifiedEvent::OutputItemDone(ResponseItem::FunctionCall { call_id, .. }) => {
                Some(call_id.as_str())
            }
            _ => None,
        })
        .collect();
    assert_eq!(done, vec!["call_0", "b"]);
}

#[test]
fn chat_stream_reads_the_namespace_out_of_the_name() {
    let (evs, _) = run(
        &[
            r#"{"choices":[{"delta":{"tool_calls":[{"index":0,"id":"a","function":{"name":"context7__get-docs","arguments":"{}"}}]}}]}"#,
            r#"{"choices":[{"delta":{"tool_calls":[{"index":1,"id":"b","function":{"name":"apply_patch","arguments":"{}"}}]}}]}"#,
        ],
        true,
    );
    let calls: Vec<(bool, Option<&str>, &str)> = evs
        .iter()
        .filter_map(|ev| match ev {
            UnifiedEvent::OutputItemAdded(ResponseItem::FunctionCall { namespace, name, .. }) => {
                Some((false, namespace.as_deref(), name.as_str()))
            }
            UnifiedEvent::OutputItemDone(ResponseItem::FunctionCall { namespace, name, .. }) => {
                Some((true, namespace.as_deref(), name.as_str()))
            }
            _ => None,
        })
        .collect();
    assert_eq!(
        calls,
        vec![
            (false, Some("context7"), "get-docs"),
            (false, None, "apply_patch"),
            (true, Some("context7"), "get-docs"),
            (true, None, "apply_patch"),
        ]
    );
}

#[test]
fn chat_answer_is_announced_once_and_ends_once() {
    let (evs, _) = run(
        &[
            r#"{"model":"m","choices":[{"delta":{"reasoning_content":"lost"}}]}"#,
            r#"{"model":"m","choices":[{"delta":{"content":"a","reasoning_content":"kept"}}]}"#,
            r#"{"model":"n","choices":[]}"#,
        ],
        true,
    );
    let created = evs.iter().filter(|ev| matches!(ev, UnifiedEvent::Created)).count();
    let completed = evs.iter().filter(|ev| matches!(ev, UnifiedEvent::Completed { .. })).count();
    let models = evs.iter().filter(|ev| matches!(ev, UnifiedEvent::ServerModel(_))).count();
    let reasoning = evs
        .iter()
        .filter(|ev| matches!(ev, UnifiedEvent::ReasoningContentDelta { delta, .. } if delta == "kept"))
        .count();
    assert_eq!((created, completed, models, reasoning), (1, 1, 2, 1));
}

#[test]
fn chat_request_carries_calls_answers_and_images() {
    let mut req = request(
        "",
        vec![
            ResponseItem::Message {
                id: None,
                role: "user".to_string(),
                content: vec![
                    ContentItem::InputText { text: "look".to_string() },
                    ContentItem::InputImage {
                        image_url: "https://x/y.png".to_string(),
                        detail: Some(ImageDetail::High),
                    },
                ],
                phase: None,
            },
            ResponseItem::FunctionCall {
                id: None,
                name: "f".to_string(),
                namespace: Some("ns".to_string()),
                arguments: r#"{"a":1}"#.to_string(),
                call_id: "c1".to_string(),
            },
            ResponseItem::FunctionCall {
                id: None,
                name: "g".to_string(),
                namespace: None,
                arguments: "{}".to_string(),
                call_id: "c2".to_string(),
            },
            ResponseItem::FunctionCallOutput {
                id: None,
                call_id: "c1".to_string(),
                output: FunctionCallOutputPayload { text: Some("ok".to_string()), success: Some(true) },
            },
        ],
    );
    req.tools = Some(vec![json(
        r#"{"type":"function","name":"f","description":"d","strict":false,"parameters":{"type":"object"}}"#,
    )]);
    let doc = ChatApiRequest::from(req).to_json();
    assert_eq!(
        shown(doc.get("messages").expect("messages")),
        written(
            r#"[
                {"role":"user","content":[
                    {"type":"text","text":"look"},
                    {"type":"image_url","image_url":{"url":"https://x/y.png","detail":"high"}}
                ]},
                {"role":"assistant","tool_calls":[
                    {"id":"c1","type":"function","function":{"name":"ns__f","arguments":"{\"a\":1}"}},
                    {"id":"c2","type":"function","function":{"name":"g","arguments":"{}"}}
                ]},
                {"role":"tool","tool_call_id":"c1","content":"ok"}
            ]"#
        )
    );
    assert_eq!(doc.list_at("tools").map(|t| t.len()), Some(1));
}

#[test]
fn chat_frames_can_be_lists_of_fields() {
    let (evs, err) = run(&[r#"["c-1", "m", [[{"content": "hi"}, "stop"]]]"#, "[]", "[1]"], true);
    assert!(err.is_none());
    assert!(matches!(evs.first(), Some(UnifiedEvent::Created)));
    assert_eq!(deltas(&evs), vec!["hi"]);
    assert!(matches!(
        evs.last(),
        Some(UnifiedEvent::Completed { end_turn: Some(true), response_id, .. }) if response_id == "c-1"
    ));
}

#[test]
fn chat_calls_are_replayed_under_the_name_they_came_by() {
    let (evs, _) = run(
        &[
            r#"{"choices":[{"delta":{"tool_calls":[{"index":0,"id":"a","function":{"name":"context7__get-docs","arguments":"{}"}}]}}]}"#,
        ],
        true,
    );
    let call = evs
        .into_iter()
        .find_map(|ev| match ev {
            UnifiedEvent::OutputItemDone(item @ ResponseItem::FunctionCall { .. }) => Some(item),
            _ => None,
        })
        .expect("a call");
    let doc = ChatApiRequest::from(request("", vec![call])).to_json();
    assert_eq!(
        shown(doc.get("messages").expect("messages")),
        written(
            r#"[{"role":"assistant","tool_calls":[
                {"id":"a","type":"function","function":{"name":"context7__get-docs","arguments":"{}"}}
            ]}]"#
        )
    );
}

#[test]
fn chat_body_has_its_fields_in_order() {
    let mut req = request("rules", vec![message("user", "\"hi\"")]);
    req.tools = Some(vec![json(r#"{"type":"function","name":"f","parameters":{"b":1,"a":2}}"#)]);
    req.parallel_tool_calls = true;
    let api = OpenaiChatAdapter::<(), ()>::new((), Some(9)).prepare(req);
    let text = write_body(&api.to_body()).expect("a body");
    let places: Vec<Option<usize>> = [
        r#"{"model":"glm-5.2","messages":[{"role":"system","content":"rules"},{"role":"user","content":"\"hi\""}],"tools":[{"#,
        r#"}],"tool_choice":"auto","parallel_tool_calls":true,"max_tokens":9,"#,
        r#""stream_options":{"include_usage":true},"stream":true}"#,
    ]
    .iter()
    .map(|piece| text.find(piece))
    .collect();
    assert!(places[0] == Some(0) && places[0] < places[1] && places[1] < places[2], "{text}");
    assert_eq!(shown(&json(&text)), shown(&api.to_json()));
}
