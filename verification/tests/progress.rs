//! The progress of a task: to-dos, assumptions, files touched and digests.

use tokencode::codec::parse_json;
use tokencode::json::Json;
use tokencode::models::ContentItem;
use tokencode::models::FunctionCallOutputPayload;
use tokencode::models::ResponseItem;
use tokencode::progress::channel::parse_apply_patch_paths;
use tokencode::progress::channel::truncate_brief;
use tokencode::progress::state::AssumptionStatus;
use tokencode::progress::state::Confidence;
use tokencode::progress::state::ProgressState;
use tokencode::progress::state::TodoStatus;
use tokencode::progress::state::TurnRef;
use tokencode::progress::todo::apply_assumption;
use tokencode::progress::todo::apply_todo_op;

fn json(text: &str) -> Json {
    parse_json(text).expect("a document")
}

#[test]
fn todo_op_add_appends_item_with_system_id() {
    let mut p = ProgressState::default();
    apply_todo_op(&mut p, &json(r#"{"op":"add","text":"写测试"}"#));
    assert_eq!(p.todo.len(), 1);
    assert_eq!(p.todo[0].id, 0);
    assert_eq!(p.todo[0].text, "写测试");
    assert!(matches!(p.todo[0].status, TodoStatus::Todo));
    apply_todo_op(&mut p, &json(r#"{"op":"add","text":"收尾"}"#));
    assert_eq!(p.todo[1].id, 1);
}

#[test]
fn todo_op_done_marks_existing_item() {
    let mut p = ProgressState::default();
    apply_todo_op(&mut p, &json(r#"{"op":"add","text":"a"}"#));
    apply_todo_op(&mut p, &json(r#"{"op":"done","id":"t0"}"#));
    assert!(matches!(p.todo[0].status, TodoStatus::Done));
}

#[test]
fn todo_op_done_unknown_id_warns_without_panic() {
    let mut p = ProgressState::default();
    apply_todo_op(&mut p, &json(r#"{"op":"done","id":"t9"}"#));
    assert!(p.warnings.iter().any(|w| w.contains("t9")));
}

#[test]
fn todo_op_drop_removes_item() {
    let mut p = ProgressState::default();
    apply_todo_op(&mut p, &json(r#"{"op":"add","text":"a"}"#));
    apply_todo_op(&mut p, &json(r#"{"op":"drop","id":"t0"}"#));
    assert!(p.todo.is_empty());
}

#[test]
fn todo_op_status_blocked_requires_reason() {
    let mut p = ProgressState::default();
    apply_todo_op(&mut p, &json(r#"{"op":"add","text":"a"}"#));
    apply_todo_op(&mut p, &json(r#"{"op":"status","id":"t0","status":"blocked"}"#));
    assert!(p.warnings.iter().any(|w| w.contains("reason")));
    assert!(matches!(p.todo[0].status, TodoStatus::Todo));
    apply_todo_op(
        &mut p,
        &json(r#"{"op":"status","id":"t0","status":"blocked","reason":"等依赖"}"#),
    );
    assert!(matches!(p.todo[0].status, TodoStatus::Blocked));
    assert_eq!(p.todo[0].blocked_reason.as_deref(), Some("等依赖"));
}

#[test]
fn todo_op_reset_replaces_list() {
    let mut p = ProgressState::default();
    apply_todo_op(&mut p, &json(r#"{"op":"add","text":"旧"}"#));
    apply_todo_op(
        &mut p,
        &json(
            r#"{"op":"reset","items":[
                {"text":"新1","status":"todo"},
                {"text":"新2","status":"done"}
            ]}"#,
        ),
    );
    assert_eq!(p.todo.len(), 2);
    assert_eq!(p.todo[0].text, "新1");
    assert!(matches!(p.todo[1].status, TodoStatus::Done));
}

#[test]
fn todo_op_illegal_op_warns() {
    let mut p = ProgressState::default();
    apply_todo_op(&mut p, &json(r#"{"op":"frobnicate"}"#));
    assert!(p.warnings.iter().any(|w| w.contains("frobnicate")));
}

#[test]
fn assumption_add_then_update_by_id() {
    let mut p = ProgressState::default();
    apply_assumption(&mut p, &json(r#"{"statement":"用户用 Rust","status":"assumed"}"#));
    assert_eq!(p.assumptions.len(), 1);
    let id = p.assumptions[0].id;
    let update = format!(r#"{{"id":{id},"statement":"用户用 Rust 1.95","status":"confirmed"}}"#);
    apply_assumption(&mut p, &json(&update));
    assert_eq!(p.assumptions.len(), 1);
    assert_eq!(p.assumptions[0].statement, "用户用 Rust 1.95");
    assert!(matches!(p.assumptions[0].status, AssumptionStatus::Confirmed));
}

#[test]
fn assumption_illegal_status_warns_and_skips() {
    let mut p = ProgressState::default();
    apply_assumption(&mut p, &json(r#"{"statement":"x","status":"bogus"}"#));
    assert!(p.warnings.iter().any(|w| w.contains("bogus")));
    assert!(p.assumptions.is_empty());
}

#[test]
fn parse_apply_patch_paths_extracts_markers() {
    let input = "*** Begin Patch\n\
                 *** Add File: /a.rs\n+x\n\
                 *** Update File: /b.rs\n@@\n+y\n\
                 *** Delete File: /c.rs\n\
                 *** End Patch";
    let paths = parse_apply_patch_paths(input);
    assert_eq!(paths, vec!["/a.rs".to_string(), "/b.rs".to_string(), "/c.rs".to_string()]);
}

#[test]
fn progress_state_is_empty_default_only() {
    assert!(ProgressState::default().is_empty());
    let mut p = ProgressState::default();
    p.intent = Some("做 P3b".to_string());
    assert!(!p.is_empty());
}

#[test]
fn refused_operations_change_no_todo() {
    let mut p = ProgressState::default();
    apply_todo_op(&mut p, &json(r#"{"op":"add","text":"a"}"#));
    let before = p.todo.clone();
    for op in [
        r#"{"no":"op"}"#,
        r#"{"op":"add"}"#,
        r#"{"op":"done","id":"x1"}"#,
        r#"{"op":"done"}"#,
        r#"{"op":"drop","id":7}"#,
        r#"{"op":"status","id":"t0"}"#,
        r#"{"op":"status","id":"t0","status":"odd"}"#,
        r#"{"op":"status","id":"t5","status":"done"}"#,
        r#"{"op":"reset"}"#,
        r#"{"op":"reset","items":[]}"#,
        r#"{"op":"reset","items":[{"text":"x","status":"todo"},{"text":"y"}]}"#,
        r#"{"op":"reset","items":[{"text":"x","status":"blocked"}]}"#,
    ] {
        let warnings = p.warnings.len();
        apply_todo_op(&mut p, &json(op));
        assert!(p.warnings.len() > warnings, "{op}");
        assert_eq!(p.todo, before, "{op}");
    }
}

#[test]
fn numbers_are_not_handed_out_again() {
    let mut p = ProgressState::default();
    apply_todo_op(&mut p, &json(r#"{"op":"add","text":"a"}"#));
    apply_todo_op(&mut p, &json(r#"{"op":"drop","id":0}"#));
    apply_todo_op(&mut p, &json(r#"{"op":"add","text":"b"}"#));
    assert_eq!(p.todo[0].id, 1);
    apply_assumption(&mut p, &json(r#"{"statement":"s"}"#));
    assert_eq!(p.assumptions[0].id, 2);
    apply_todo_op(
        &mut p,
        &json(r#"{"op":"reset","items":[{"text":"c","status":"blocked","reason":"r"}]}"#),
    );
    assert_eq!(p.todo[0].id, 3);
    assert_eq!(p.todo_id_seq, 4);
}

#[test]
fn a_patch_is_applied_whole() {
    let mut p = ProgressState::default();
    let turn = TurnRef { turn_id: "t1".to_string(), item_index: None };
    let patch = json(
        r#"{"intent":"i","todo_ops":[{"op":"add","text":"a"},{"op":"bad"}],
            "assumptions":[{"statement":"s"},{"statement":" "}],"next_step":"n"}"#,
    );
    assert!(p.has_room_for(&patch));
    let digests = p.apply_progress_patch(&patch, &turn);
    assert!(digests.is_empty());
    assert_eq!(p.intent.as_deref(), Some("i"));
    assert_eq!(p.next_step.as_deref(), Some("n"));
    assert_eq!((p.todo.len(), p.assumptions.len(), p.warnings.len()), (1, 1, 2));
    let digests = p.apply_progress_patch(&json(r#"{"intent":"j"}"#), &turn);
    assert_eq!(digests.len(), 1);
    assert_eq!(digests[0].intent_history[0].old, "i");
    assert_eq!(p.digest_seq, 1);
}

#[test]
fn briefs_keep_both_ends() {
    let long: String = "ab".repeat(300);
    let brief = truncate_brief(&long);
    assert_eq!(brief.chars().count(), 401);
    assert!(brief.starts_with("abab") && brief.ends_with("abab") && brief.contains('…'));
    assert_eq!(truncate_brief(&brief), brief);
    assert_eq!(truncate_brief("short"), "short");
    let limit: String = "x".repeat(500);
    assert_eq!(truncate_brief(&limit), limit);
}

#[test]
fn files_are_derived_from_patches_alone() {
    let mut p = ProgressState::default();
    let patch = json(r#"{"input":"*** Delete File: z\n*** Add File: a\n*** Add File: a"}"#);
    assert_eq!(p.derive_files_touched_from_args("apply_patch", &patch), Confidence::High);
    assert_eq!(p.files_touched, vec!["a".to_string(), "z".to_string()]);
    assert_eq!(p.derive_files_touched_from_args("apply_patch", &json("{}")), Confidence::Low);
    assert_eq!(
        p.derive_files_touched_from_args("apply_patch", &json(r#"{"input":"none"}"#)),
        Confidence::Low
    );
    assert_eq!(p.derive_files_touched_from_args("shell", &patch), Confidence::Low);
    assert_eq!(p.files_touched.len(), 2);
}

fn tool_output(text: &str, success: Option<bool>) -> ResponseItem {
    ResponseItem::CustomToolCallOutput {
        id: None,
        call_id: "c".to_string(),
        name: Some("exec".to_string()),
        output: FunctionCallOutputPayload { text: Some(text.to_string()), success },
    }
}

#[test]
fn tool_results_flow_back() {
    let mut p = ProgressState::default();
    let stored = p.progress_channel_fco_reflow("t1", &tool_output("fine", None)).expect("stored");
    assert_eq!(stored.entry.tool.as_deref(), Some("exec"));
    assert_eq!(stored.entry.brief_result.as_deref(), Some("fine"));
    assert_eq!(stored.entry.sequence, 0);
    assert!(p.last_error.is_none());
    let stored = p.progress_channel_fco_reflow("t2", &tool_output("bad", Some(false))).expect("stored");
    assert_eq!(stored.entry.sequence, 1);
    let error = p.last_error.as_ref().expect("an error");
    assert_eq!((error.turn_ref.turn_id.as_str(), error.brief.as_str()), ("t2", "bad"));
    let stored =
        p.progress_channel_fco_reflow_failure("t3", &tool_output("", None)).expect("stored");
    assert_eq!(stored.entry.tool, None);
    assert_eq!(stored.entry.brief_result, None);
    assert_eq!(p.last_error.as_ref().map(|e| e.turn_ref.turn_id.as_str()), Some("t3"));
    assert!(p.progress_channel_fco_reflow("t4", &ResponseItem::Other).is_none());
    assert_eq!(p.digest_seq, 3);
}

#[test]
fn a_snapshot_shows_everything_and_warnings_once() {
    let mut p = ProgressState::default();
    assert!(p.render_progress_injection().is_none());
    p.intent = Some("目标".to_string());
    apply_todo_op(&mut p, &json(r#"{"op":"add","text":"a"}"#));
    apply_todo_op(
        &mut p,
        &json(r#"{"op":"status","id":"t0","status":"blocked","reason":"r"}"#),
    );
    apply_assumption(&mut p, &json(r#"{"statement":"s","status":"stale"}"#));
    apply_todo_op(&mut p, &json(r#"{"op":"bad"}"#));
    let shown = |item: Option<ResponseItem>| match item {
        Some(ResponseItem::Message { role, content, .. }) => {
            assert_eq!(role, "assistant");
            match content.as_slice() {
                [ContentItem::OutputText { text }] => text.clone(),
                other => panic!("{other:?}"),
            }
        }
        other => panic!("{other:?}"),
    };
    let text = shown(p.render_progress_injection());
    assert_eq!(
        text,
        "[progress-state] 系统进度态快照(只读;勿逐字重复本消息)\n\n# 意图\n目标\n\n\
         # 待办\n[!] t0 a（阻塞：r）\n\n# 关键假设\n- a1 s（已失效）\n\n\
         # 校验回流\n- todo_op: 非法 op bad"
    );
    let text = shown(p.render_progress_injection());
    assert!(!text.contains("校验回流"));
}

#[test]
fn a_state_with_its_numbers_used_up_has_no_room() {
    let mut p = ProgressState::default();
    p.todo_id_seq = u64::MAX;
    assert!(!p.has_room_for(&json(r#"{"todo_ops":[{"op":"add","text":"a"}]}"#)));
    assert!(p.has_room_for(&json("{}")));
}

#[test]
fn an_unreadable_todo_id_is_warned_of_once() {
    for op in ["done", "drop", "status"] {
        let mut p = ProgressState::default();
        apply_todo_op(&mut p, &json(&format!(r#"{{"op":"{op}","id":"zero","status":"done"}}"#)));
        assert_eq!(p.warnings, vec!["todo_op: id 缺失或格式错(期望 tN)".to_string()]);
    }
}

#[test]
fn numbers_are_given_once_and_ascend() {
    let mut p = ProgressState::default();
    apply_todo_op(&mut p, &json(r#"{"op":"add","text":"a"}"#));
    apply_assumption(&mut p, &json(r#"{"statement":"s"}"#));
    apply_todo_op(&mut p, &json(r#"{"op":"add","text":"b"}"#));
    apply_todo_op(&mut p, &json(r#"{"op":"drop","id":"t0"}"#));
    apply_todo_op(&mut p, &json(r#"{"op":"add","text":"c"}"#));
    let ids: Vec<u64> = p.todo.iter().map(|t| t.id).collect();
    assert_eq!(ids, vec![2, 3]);
    assert_eq!(p.assumptions[0].id, 1);
    apply_todo_op(
        &mut p,
        &json(r#"{"op":"reset","items":[{"text":"x","status":"todo"},{"text":"y","status":"done"}]}"#),
    );
    let ids: Vec<u64> = p.todo.iter().map(|t| t.id).collect();
    assert_eq!(ids, vec![4, 5]);
}

#[test]
fn joined_patches_name_the_files_of_both() {
    let a = "*** Add File: a\r";
    let b = "x\n*** Update File:  b \n*** Add File: a";
    let mut both = parse_apply_patch_paths(a);
    both.extend(parse_apply_patch_paths(b));
    assert_eq!(parse_apply_patch_paths(&format!("{a}\n{b}")), both);
    assert_eq!(both, vec!["a".to_string(), "b".to_string(), "a".to_string()]);
    assert_eq!(parse_apply_patch_paths(&format!("\n{b}")), parse_apply_patch_paths(b));
}

#[test]
fn room_is_what_a_patch_uses() {
    let mut p = ProgressState::default();
    apply_todo_op(&mut p, &json(r#"{"op":"add","text":"a"}"#));
    p.todo_id_seq = u64::MAX;
    p.digest_seq = u64::MAX;
    for patch in [
        r#"{"todo_ops":[{"op":"done","id":1}]}"#,
        r#"{"todo_ops":[{"op":"add"},{"op":"unknown"}]}"#,
        r#"{"intent":"first","next_step":"n"}"#,
    ] {
        assert!(p.has_room_for(&json(patch)), "{patch}");
    }
    p.intent = Some("first".to_string());
    assert!(p.has_room_for(&json(r#"{"intent":"first"}"#)));
    assert!(!p.has_room_for(&json(r#"{"intent":"second"}"#)));
    p.todo_id_seq = u64::MAX - 1;
    assert!(p.has_room_for(&json(r#"{"todo_ops":[{"op":"add","text":"b"}]}"#)));
    assert!(!p.has_room_for(&json(
        r#"{"todo_ops":[{"op":"add","text":"b"},{"op":"add","text":"c"}]}"#
    )));
}
