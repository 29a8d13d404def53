//! One turn: the model's output is taken apart, checked, planned and recorded.

use tokencode::codec::parse_json;
use tokencode::json::Json;
use tokencode::models::ContentItem;
use tokencode::models::FunctionCallOutputPayload;
use tokencode::models::MessagePhase;
use tokencode::models::ResponseItem;
use tokencode::progress::state::DigestKind;
use tokencode::progress::state::ProgressState;
use tokencode::tool_name::ToolName;
use tokencode::tool_spec::FreeformTool;
use tokencode::tool_spec::FreeformToolFormat;
use tokencode::tool_spec::JsonSchema;
use tokencode::tool_spec::ResponsesApiNamespace;
use tokencode::tool_spec::ResponsesApiNamespaceTool;
use tokencode::tool_spec::ResponsesApiTool;
use tokencode::tool_spec::ToolSpec;
use tokencode::turn::envelope::consume_progress_channel_output;
use tokencode::turn::envelope::synthesize_call;
use tokencode::turn::envelope::validate_progress_channel_tool_call;
use tokencode::turn::envelope::Consumption;
use tokencode::turn::envelope::ToolCall;
use tokencode::turn::envelope::ToolPayload;
use tokencode::turn::image::image_bytes;
use tokencode::turn::image::image_from_decoded;
use tokencode::turn::image::image_generation_artifact_path;
use tokencode::turn::image::image_instruction_paths;
use tokencode::turn::items::completed_item_defers_mailbox_delivery_to_next_turn;
use tokencode::turn::items::finalize_message;
use tokencode::turn::items::finalized_facts;
use tokencode::turn::items::image_instructions_are_due;
use tokencode::turn::items::image_is_to_be_saved;
use tokencode::turn::items::is_shown;
use tokencode::turn::items::last_assistant_message_from_item;
use tokencode::turn::items::raw_assistant_output_text_from_item;
use tokencode::turn::items::response_input_to_response_item;
use tokencode::turn::items::response_item_may_include_external_context;
use tokencode::turn::items::AgentMessageItem;
use tokencode::turn::items::FinalizedTurnItem;
use tokencode::turn::items::ImageGenerationItem;
use tokencode::turn::items::ResponseInputItem;
use tokencode::turn::items::TurnItem;
use tokencode::turn::plan::plan_finalized_item;
use tokencode::turn::plan::plan_output_item;
use tokencode::turn::plan::Routed;
use tokencode::turn::plan::TurnAction;

fn json(text: &str) -> Json {
    parse_json(text).expect("a document")
}

fn function(name: &str, required: Option<Vec<String>>) -> ResponsesApiTool {
    ResponsesApiTool {
        name: name.to_string(),
        description: String::new(),
        strict: false,
        defer_loading: None,
        parameters: JsonSchema::object(Vec::new(), required, None),
        output_schema: None,
    }
}

fn freeform(name: &str) -> ToolSpec {
    ToolSpec::Freeform(FreeformTool {
        name: name.to_string(),
        description: String::new(),
        format: FreeformToolFormat {
            kind: "grammar".to_string(),
            syntax: "lark".to_string(),
            definition: String::new(),
        },
    })
}

fn specs() -> Vec<ToolSpec> {
    vec![
        ToolSpec::Function(function("shell", Some(vec!["command".to_string()]))),
        freeform("apply_patch"),
        freeform("exec"),
        ToolSpec::Namespace(ResponsesApiNamespace {
            name: "docs".to_string(),
            description: String::new(),
            tools: vec![ResponsesApiNamespaceTool::Function(function("search", None))],
        }),
    ]
}

fn assistant(text: &str, phase: Option<MessagePhase>) -> ResponseItem {
    ResponseItem::Message {
        id: None,
        role: "assistant".to_string(),
        content: vec![ContentItem::OutputText { text: text.to_string() }],
        phase,
    }
}

fn call(tool: &str, payload: ToolPayload) -> ToolCall {
    ToolCall {
        tool_name: ToolName::from_flat_wire_name(tool),
        call_id: "c1".to_string(),
        payload,
    }
}

fn taken(progress: &mut ProgressState, text: &str) -> (ResponseItem, usize) {
    match consume_progress_channel_output(progress, assistant(text, None), "turn-1", &specs()) {
        Consumption::Taken { item, digests } => (item, digests.len()),
        other => panic!("{other:?}"),
    }
}

#[test]
fn an_action_becomes_a_function_call() {
    let mut p = ProgressState::default();
    let (item, digests) = taken(
        &mut p,
        r#"{"action":{"tool":"docs__search","arguments":{"q":"x"}},
            "progress_patch":{"intent":"find","todo_ops":[{"op":"add","text":"a"}]},"digest_override":null}"#,
    );
    let ResponseItem::FunctionCall { name, namespace, arguments, call_id, .. } = item else {
        panic!("a call");
    };
    assert_eq!(name, "search");
    assert_eq!(namespace.as_deref(), Some("docs"));
    assert_eq!(arguments, r#"{"q":"x"}"#);
    assert!(call_id.starts_with("docs__search-"));
    assert_eq!(call_id.len(), "docs__search-".len() + 36);
    assert_eq!(digests, 0);
    assert_eq!(p.intent.as_deref(), Some("find"));
    assert_eq!(p.todo.len(), 1);
}

#[test]
fn two_calls_of_one_action_have_different_ids() {
    let mut p = ProgressState::default();
    let text = r#"{"action":{"tool":"shell","arguments":{}}}"#;
    let ids: Vec<String> = (0..2)
        .map(|_| match taken(&mut p, text).0 {
            ResponseItem::FunctionCall { call_id, .. } => call_id,
            other => panic!("{other:?}"),
        })
        .collect();
    assert_ne!(ids[0], ids[1]);
    assert!(ids[0].chars().skip("shell-".len()).all(|c| c == '-' || c.is_ascii_hexdigit()));
}

#[test]
fn a_patch_action_becomes_a_custom_call_and_touches_files() {
    let mut p = ProgressState::default();
    let (item, _) = taken(
        &mut p,
        r#"{"action":{"tool":"apply_patch","arguments":{"input":"*** Begin Patch\n*** Add File: b.rs\n*** Update File: a.rs\n*** End Patch"}}}"#,
    );
    let ResponseItem::CustomToolCall { name, input, status, .. } = item else {
        panic!("a call");
    };
    assert_eq!(name, "apply_patch");
    assert!(input.starts_with("*** Begin Patch"));
    assert_eq!(status.as_deref(), Some("completed"));
    assert_eq!(p.files_touched, vec!["a.rs".to_string(), "b.rs".to_string()]);
}

#[test]
fn free_text_falls_back_to_the_written_arguments() {
    let made = synthesize_call(
        &json(r#"{"tool":"exec","arguments":{"cmd":1}}"#),
        &vec![freeform("exec")],
        "u-1",
        Some(r#"{"cmd":1}"#.to_string()),
    )
    .expect("a call");
    let ResponseItem::CustomToolCall { input, call_id, .. } = made.item else {
        panic!("a custom call");
    };
    assert_eq!(input, r#"{"cmd":1}"#);
    assert_eq!(call_id, "exec-u-1");
    assert_eq!(made.tool, "exec");
    assert!(synthesize_call(&json(r#"{"tool":"nope"}"#), &specs(), "u", None).is_none());
    assert!(synthesize_call(&json(r#"{"arguments":{}}"#), &specs(), "u", None).is_none());
}

#[test]
fn an_answer_without_action_is_kept_and_digested() {
    let mut p = ProgressState::default();
    let text = r#"{"action":null,"progress_patch":{"intent":"i","next_step":"n"},"digest_override":null}"#;
    match consume_progress_channel_output(&mut p, assistant(text, None), "turn-1", &specs()) {
        Consumption::Taken { item, digests } => {
            assert!(matches!(item, ResponseItem::Message { .. }));
            assert_eq!(digests.len(), 1);
            assert_eq!(digests[0].entry.kind, DigestKind::Dialog);
            assert_eq!(digests[0].entry.dialog_summary.as_deref(), Some("n"));
            assert_eq!(digests[0].entry.sequence, 0);
            assert_eq!(digests[0].entry.turn_ref.turn_id, "turn-1");
        }
        other => panic!("{other:?}"),
    }
    assert_eq!(p.digest_seq, 1);
    assert_eq!(p.next_step.as_deref(), Some("n"));
}

#[test]
fn a_changed_intent_is_kept_as_a_digest() {
    let mut p = ProgressState::default();
    taken(&mut p, r#"{"progress_patch":{"intent":"first"}}"#);
    let text = r#"{"progress_patch":{"intent":"second"}}"#;
    match consume_progress_channel_output(&mut p, assistant(text, None), "turn-2", &specs()) {
        Consumption::Taken { digests, .. } => {
            assert_eq!(digests.len(), 2);
            assert_eq!(digests[0].intent_history[0].old, "first");
            assert_eq!(
                digests[0].entry.dialog_summary.as_deref(),
                Some("intent 演进旧值: first")
            );
            assert_eq!(digests[0].entry.sequence, 1);
            assert_eq!(digests[1].entry.dialog_summary.as_deref(), Some("second"));
            assert_eq!(digests[1].entry.sequence, 2);
        }
        other => panic!("{other:?}"),
    }
}

#[test]
fn items_that_are_no_answers_stay_untouched() {
    let mut p = ProgressState::default();
    for item in [
        assistant("plain words", None),
        ResponseItem::CompactionTrigger,
        ResponseItem::Message {
            id: None,
            role: "user".to_string(),
            content: vec![ContentItem::OutputText { text: "{}".to_string() }],
            phase: None,
        },
    ] {
        assert!(matches!(
            consume_progress_channel_output(&mut p, item, "t", &specs()),
            Consumption::Untouched(_)
        ));
    }
    assert!(p.is_empty());
}

#[test]
fn a_state_without_room_takes_nothing() {
    let mut p = ProgressState::default();
    p.digest_seq = u64::MAX;
    let item = assistant(r#"{"progress_patch":{"intent":"i"}}"#, None);
    assert!(matches!(
        consume_progress_channel_output(&mut p, item, "t", &specs()),
        Consumption::Full(_)
    ));
    assert_eq!(p.intent, None);
}

#[test]
fn an_unknown_tool_leaves_the_message() {
    let mut p = ProgressState::default();
    let (item, digests) = taken(&mut p, r#"{"action":{"tool":"nope","arguments":{}}}"#);
    assert!(matches!(item, ResponseItem::Message { .. }));
    assert_eq!(digests, 0);
}

#[test]
fn calls_are_checked_before_they_are_made() {
    let args = |text: &str| ToolPayload::Function { arguments: text.to_string() };
    let words = |text: &str| ToolPayload::Custom { input: text.to_string() };
    let check = |c: &ToolCall| validate_progress_channel_tool_call(&specs(), c, None);
    assert_eq!(check(&call("shell", args(r#"{"command":"ls"}"#))), None);
    assert_eq!(
        check(&call("shell", args("{}"))).as_deref(),
        Some("进度副信道校验：工具 shell 缺必填字段「command」")
    );
    assert_eq!(
        check(&call("shell", args("not json"))).as_deref(),
        Some("进度副信道校验：工具 shell 缺必填字段「command」")
    );
    assert_eq!(check(&call("docs__search", args("{}"))), None);
    assert_eq!(check(&call("exec", words("ls"))), None);
    assert_eq!(
        check(&call("exec", words("  \n"))).as_deref(),
        Some("进度副信道校验：工具 exec 的 input 为空")
    );
    assert_eq!(check(&call("unknown", args("{}"))), None);
    assert_eq!(check(&call("apply_patch", words("x"))), None);
    let wrong = "bad hunk".to_string();
    assert_eq!(
        validate_progress_channel_tool_call(&specs(), &call("apply_patch", words("x")), Some(&wrong))
            .as_deref(),
        Some("进度副信道校验：apply_patch 语法解析失败：bad hunk")
    );
}

#[test]
fn a_call_is_recorded_and_then_made() {
    let plan = plan_output_item(Routed::Call(call("exec", ToolPayload::Other)), true, None);
    assert!(plan.needs_follow_up);
    assert!(matches!(
        plan.actions.as_slice(),
        [TurnAction::AcceptMailbox, TurnAction::RecordCompleted, TurnAction::RunTool(c)]
            if c.call_id == "c1"
    ));
}

#[test]
fn a_refused_call_is_answered_in_its_place() {
    let refused = Some("no".to_string());
    let plan = plan_output_item(Routed::Call(call("exec", ToolPayload::Other)), true, refused);
    assert!(plan.needs_follow_up);
    match plan.actions.as_slice() {
        [TurnAction::AcceptMailbox, TurnAction::RecordCompleted, TurnAction::RecordAnswer(
            ResponseItem::FunctionCallOutput { call_id, output, .. },
        ), TurnAction::ReflowFailure(_)] => {
            assert_eq!(call_id, "c1");
            assert_eq!(output.text.as_deref(), Some("no"));
            assert_eq!(output.success, Some(false));
        }
        other => panic!("{other:?}"),
    }
}

#[test]
fn a_call_answered_without_a_tool_and_a_fatal_one() {
    let plan = plan_output_item(Routed::RespondToModel("denied".to_string()), true, None);
    assert!(plan.needs_follow_up);
    assert!(matches!(
        plan.actions.as_slice(),
        [TurnAction::RecordCompleted, TurnAction::ReflowFailure(_), TurnAction::RecordAnswer(_)]
    ));
    let plan = plan_output_item(Routed::RespondToModel("denied".to_string()), false, None);
    assert!(matches!(
        plan.actions.as_slice(),
        [TurnAction::RecordCompleted, TurnAction::RecordAnswer(_)]
    ));
    let plan = plan_output_item(Routed::Fatal("boom".to_string()), true, None);
    assert!(plan.actions.is_empty());
    assert_eq!(plan.fatal.as_deref(), Some("boom"));
    assert!(!plan.needs_follow_up);
}

fn message_item(text: &str, phase: Option<MessagePhase>) -> TurnItem {
    TurnItem::AgentMessage(AgentMessageItem {
        id: "m".to_string(),
        content: vec![text.to_string()],
        phase,
        memory_citation: None,
    })
}

#[test]
fn a_finalized_item_is_shown_and_recorded() {
    let item = message_item("hello", None);
    let facts = finalized_facts(&item);
    assert_eq!(facts.last_agent_message.as_deref(), Some("hello"));
    assert!(facts.defers_mailbox_delivery_to_next_turn);
    let plan = plan_finalized_item(Some(FinalizedTurnItem { turn_item: item, facts }), false);
    assert_eq!(plan.last_agent_message.as_deref(), Some("hello"));
    assert!(!plan.needs_follow_up);
    assert!(matches!(
        plan.actions.as_slice(),
        [
            TurnAction::EmitStarted(_),
            TurnAction::EmitCompleted(_),
            TurnAction::RecordCompletedWithFacts(Some(_))
        ]
    ));
    let plan = plan_finalized_item(None, false);
    assert!(matches!(plan.actions.as_slice(), [TurnAction::RecordCompletedWithFacts(None)]));
}

#[test]
fn facts_of_commentary_blanks_and_images() {
    let facts = finalized_facts(&message_item("note", Some(MessagePhase::Commentary)));
    assert!(!facts.defers_mailbox_delivery_to_next_turn);
    assert_eq!(facts.last_agent_message.as_deref(), Some("note"));
    let facts = finalized_facts(&message_item(" \n", None));
    assert_eq!(facts.last_agent_message, None);
    assert!(!facts.defers_mailbox_delivery_to_next_turn);
    let image = ImageGenerationItem {
        id: "i".to_string(),
        status: "completed".to_string(),
        revised_prompt: Some("p".to_string()),
        result: "aGk=".to_string(),
        saved_path: Some("/x".to_string()),
    };
    assert!(image_is_to_be_saved(&image));
    let item = TurnItem::ImageGeneration(image);
    assert!(finalized_facts(&item).defers_mailbox_delivery_to_next_turn);
    match item.as_started() {
        TurnItem::ImageGeneration(started) => {
            assert_eq!(started.status, "in_progress");
            assert_eq!(started.revised_prompt, None);
            assert!(started.result.is_empty());
            assert_eq!(started.saved_path, None);
        }
        other => panic!("{other:?}"),
    }
}

#[test]
fn finalizing_a_message_keeps_the_first_citation() {
    let TurnItem::AgentMessage(message) = message_item("raw", None) else {
        unreachable!();
    };
    let done = finalize_message(message, "seen".to_string(), Some(json("1")));
    assert_eq!(done.content, vec!["seen".to_string()]);
    assert_eq!(done.memory_citation, Some(json("1")));
    let done = finalize_message(done, "again".to_string(), Some(json("2")));
    assert_eq!(done.memory_citation, Some(json("1")));
}

#[test]
fn what_the_assistant_said() {
    let item = ResponseItem::Message {
        id: None,
        role: "assistant".to_string(),
        content: vec![
            ContentItem::OutputText { text: "a".to_string() },
            ContentItem::InputText { text: "x".to_string() },
            ContentItem::OutputText { text: "b".to_string() },
        ],
        phase: None,
    };
    assert_eq!(raw_assistant_output_text_from_item(&item).as_deref(), Some("ab"));
    assert_eq!(
        last_assistant_message_from_item(&item, "ab".to_string()).as_deref(),
        Some("ab")
    );
    assert_eq!(last_assistant_message_from_item(&item, "  ".to_string()), None);
    assert_eq!(raw_assistant_output_text_from_item(&ResponseItem::Other), None);
    assert!(completed_item_defers_mailbox_delivery_to_next_turn(&item, "ab".to_string()));
    let note = assistant("a", Some(MessagePhase::Commentary));
    assert!(!completed_item_defers_mailbox_delivery_to_next_turn(&note, "a".to_string()));
    let image = ResponseItem::ImageGenerationCall(json("{}"));
    assert!(completed_item_defers_mailbox_delivery_to_next_turn(&image, String::new()));
}

#[test]
fn kinds_of_items() {
    let search = ResponseItem::WebSearchCall(json("{}"));
    assert!(response_item_may_include_external_context(&search));
    assert!(is_shown(&search));
    assert!(!response_item_may_include_external_context(&ResponseItem::Other));
    assert!(!is_shown(&ResponseItem::Other));
    let output = FunctionCallOutputPayload { text: Some("t".to_string()), success: Some(true) };
    let item = response_input_to_response_item(&ResponseInputItem::McpToolCallOutput {
        call_id: "c".to_string(),
        output,
    });
    assert!(matches!(
        item,
        Some(ResponseItem::FunctionCallOutput { call_id, .. }) if call_id == "c"
    ));
    assert!(response_input_to_response_item(&ResponseInputItem::Message(json("{}"))).is_none());
}

#[test]
fn image_paths_stay_inside() {
    assert_eq!(
        image_generation_artifact_path("../s 1", ""),
        vec!["generated_images", "___s_1", "generated_image.png"]
    );
    assert_eq!(
        image_generation_artifact_path("abc-1", "call_2"),
        vec!["generated_images", "abc-1", "call_2.png"]
    );
}

#[test]
fn image_bytes_are_decoded() {
    assert_eq!(image_bytes(" aGVsbG8=\n"), Ok(b"hello".to_vec()));
    let err = image_bytes("***").expect_err("no base64");
    assert!(err.starts_with("invalid image generation payload: "), "{err}");
    assert!(image_bytes("aGVsbG8").is_err());
    assert_eq!(
        image_from_decoded(Err("broken".to_string())),
        Err("invalid image generation payload: broken".to_string())
    );
}

#[test]
fn an_answer_that_takes_no_number_needs_no_room() {
    let mut p = ProgressState::default();
    p.todo_id_seq = u64::MAX;
    p.digest_seq = u64::MAX;
    let (item, digests) = taken(
        &mut p,
        r#"{"progress_patch":{"next_step":"n"},"action":{"tool":"shell","arguments":{"cmd":"ls"}}}"#,
    );
    assert!(matches!(item, ResponseItem::FunctionCall { .. }), "{item:?}");
    assert_eq!(digests, 0);
    assert_eq!(p.next_step.as_deref(), Some("n"));
    assert_eq!((p.todo_id_seq, p.digest_seq), (u64::MAX, u64::MAX));
}

#[test]
fn instructions_say_where_saved_images_are() {
    let (directory, path) = image_instruction_paths("s 1");
    assert_eq!(directory, vec!["generated_images", "s_1"]);
    assert_eq!(path, vec!["generated_images", "s_1", "_image_id_.png"]);
    let mut image = ImageGenerationItem {
        id: "i".to_string(),
        status: "completed".to_string(),
        revised_prompt: None,
        result: "aGk=".to_string(),
        saved_path: None,
    };
    assert!(!image_instructions_are_due(&image));
    image.saved_path = Some("/x".to_string());
    assert!(image_instructions_are_due(&image));
}
