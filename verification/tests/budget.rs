//! The token budget of a session tree, and connectors.

use tokencode::codec::parse_json;
use tokencode::connectors::accessible_to_merge;
use tokencode::connectors::connectors_for_plugin_apps;
use tokencode::connectors::AppInfo;
use tokencode::models::TokenUsage;
use tokencode::rollout_budget::budget_tokens;
use tokencode::rollout_budget::BudgetReminders;

fn usage(input: i64, cached: i64, output: i64, reasoning: i64) -> TokenUsage {
    TokenUsage {
        input_tokens: input,
        cached_input_tokens: cached,
        output_tokens: output,
        reasoning_output_tokens: reasoning,
        total_tokens: 0,
    }
}

fn app(id: &str, payload: &str) -> AppInfo {
    AppInfo { id: id.to_string(), payload: parse_json(payload).expect("a document") }
}

#[test]
fn reasoning_is_counted_beside_output() {
    let t = budget_tokens(&usage(0, 0, 0, 100));
    assert_eq!((t.sampled, t.prefilled, t.reasoned), (0, 0, 100));
    let t = budget_tokens(&usage(50, 20, 7, 3));
    assert_eq!((t.sampled, t.prefilled, t.reasoned), (7, 30, 3));
    let t = budget_tokens(&usage(10, 20, -5, -1));
    assert_eq!((t.sampled, t.prefilled, t.reasoned), (0, 0, 0));
}

#[test]
fn a_reminder_is_owed_once_per_threshold_and_window() {
    let mut reminders = BudgetReminders::new(vec![100, 50]);
    let first = reminders.pending_reminder(80, "t", "w").expect("owed");
    assert_eq!((first.remaining_tokens, first.reminder_index), (80, 1));
    reminders.mark_reminder_delivered("t", "w", first);
    assert!(reminders.pending_reminder(70, "t", "w").is_none());
    assert!(reminders.pending_reminder(70, "other", "w").is_some());
    assert!(reminders.pending_reminder(70, "t", "w2").is_some());
    let second = reminders.pending_reminder(50, "t", "w").expect("owed");
    assert_eq!(second.reminder_index, 2);
    reminders.mark_reminder_delivered("t", "w", second);
    assert!(reminders.pending_reminder(10, "t", "w").is_none());
    reminders.rearm_reminder("t");
    assert!(reminders.pending_reminder(10, "t", "w").is_some());
}

#[test]
fn accessible_connectors_are_held_to_a_loaded_catalog() {
    let catalog = vec![app("a", "1"), app("b", "2")];
    let accessible = || vec![app("b", "3"), app("x", "4")];
    let kept = accessible_to_merge(&catalog, accessible(), true);
    assert_eq!(kept.iter().map(|c| c.id.as_str()).collect::<Vec<_>>(), vec!["b"]);
    let kept = accessible_to_merge(&catalog, accessible(), false);
    assert_eq!(kept.len(), 2);
}

#[test]
fn connectors_come_in_the_order_of_the_apps() {
    let connectors = vec![app("a", "1"), app("b", "2"), app("a", "3")];
    let apps = vec!["b".to_string(), "a".to_string(), "b".to_string(), "none".to_string()];
    let picked = connectors_for_plugin_apps(&connectors, &apps);
    assert_eq!(picked.len(), 2);
    assert_eq!(picked[0].id, "b");
    assert_eq!(picked[1].payload, parse_json("3").expect("a document"));
}
