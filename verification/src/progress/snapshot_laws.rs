//! What a snapshot shows of the progress, and what is stored of it.

use vstd::prelude::*;
use vstd::string::*;

use crate::models::ContentItemView;
use crate::models::FunctionCallOutputPayloadView;
use crate::models::ResponseItemView;
use crate::progress::channel::after_result;
use crate::progress::channel::assumption_line;
use crate::progress::channel::assumption_section;
use crate::progress::channel::brief_of;
use crate::progress::channel::output_brief;
use crate::progress::channel::section;
use crate::progress::channel::snapshot_message;
use crate::progress::channel::snapshot_sections;
use crate::progress::channel::stored_digest;
use crate::progress::channel::todo_line;
use crate::progress::channel::todo_section;
use crate::progress::channel::tool_entry;
use crate::progress::channel::warning_section;
use crate::progress::channel::whole_turn;
use crate::progress::state::AssumptionStatus;
use crate::progress::state::AssumptionView;
use crate::progress::state::DigestEntryView;
use crate::progress::state::DigestKind;
use crate::progress::state::IntentChangeView;
use crate::progress::state::ProgressView;
use crate::progress::state::TodoItemView;
use crate::progress::state::TodoStatus;
use crate::text::decimal;
use crate::text::has_part;
use crate::text::joined;
use crate::tool_catalog::lemma_has_part_kept;
use crate::tool_catalog::lemma_has_part_within;

verus! {

/// Whether a text is shown in the snapshot, which is one text of the assistant.
pub open spec fn shows(p: ProgressView, part: Seq<char>) -> bool {
    snapshot_message(p) matches Some(ResponseItemView::Message { role, content, .. }) && role
        == "assistant"@ && content.len() == 1 && (content[0] matches ContentItemView::OutputText { text }
        && has_part(text, part))
}

proof fn lemma_joined_part(parts: Seq<Seq<char>>, sep: Seq<char>, i: int, part: Seq<char>)
    requires
        0 <= i < parts.len(),
        has_part(parts[i], part),
    ensures
        has_part(joined(parts, sep), part),
    decreases parts.len(),
{
    let none = Seq::<char>::empty();
    if parts.len() > 1 {
        let before = joined(parts.drop_last(), sep);
        if i < parts.len() - 1 {
            lemma_joined_part(parts.drop_last(), sep, i, part);
            lemma_has_part_kept(none, before, sep + parts.last(), part);
            assert(none + before + (sep + parts.last()) =~= joined(parts, sep));
        } else {
            lemma_has_part_kept(before + sep, parts.last(), none, part);
            assert(before + sep + parts.last() + none =~= joined(parts, sep));
        }
    }
}

proof fn lemma_whole(s: Seq<char>)
    ensures
        has_part(s, s),
{
    let none = Seq::<char>::empty();
    lemma_has_part_within(none, s, none);
    assert(none + s + none =~= s);
}

proof fn lemma_shown(p: ProgressView, k: int, part: Seq<char>)
    requires
        0 <= k < snapshot_sections(p).len(),
        has_part(snapshot_sections(p)[k], part),
        snapshot_message(p) is Some,
    ensures
        shows(p, part),
{
    lemma_joined_part(snapshot_sections(p), "\n\n"@, k, part);
}

/// Where the sections stand, given how many stand before them.
spec fn before_todo(p: ProgressView) -> int {
    1 + section(p.intent is Some, "# 意图\n"@ + p.intent->Some_0).len() as int
}

spec fn before_next(p: ProgressView) -> int {
    before_todo(p) + section(p.todo.len() > 0, todo_section(p.todo)).len() as int
}

spec fn before_assumptions(p: ProgressView) -> int {
    before_next(p) + section(p.next_step is Some, "# 下一步\n"@ + p.next_step->Some_0).len() as int
}

spec fn before_files(p: ProgressView) -> int {
    before_assumptions(p) + section(
        p.assumptions.len() > 0,
        assumption_section(p.assumptions),
    ).len() as int
}

spec fn before_error(p: ProgressView) -> int {
    before_files(p) + section(
        p.files_touched.len() > 0,
        "# 已触及文件\n"@ + joined(p.files_touched, ", "@),
    ).len() as int
}

spec fn before_warnings(p: ProgressView) -> int {
    before_error(p) + section(
        p.last_error is Some,
        "# 上次错误（turn "@ + p.last_error->Some_0.turn_ref.turn_id + "）\n"@
            + p.last_error->Some_0.brief,
    ).len() as int
}

/// Progress without anything in it is not shown, and any other is.
pub proof fn law_progress_is_shown(p: ProgressView)
    ensures
        snapshot_message(p) is None <==> p.intent is None && p.todo.len() == 0 && p.next_step is None
            && p.assumptions.len() == 0 && p.files_touched.len() == 0 && p.last_error is None
            && p.warnings.len() == 0,
{
}

/// The intent, the next step and the last error are shown, each under its own heading.
pub proof fn law_course_is_shown(p: ProgressView, text: Seq<char>)
    ensures
        p.intent == Some(text) ==> shows(p, "# 意图\n"@ + text),
        p.next_step == Some(text) ==> shows(p, "# 下一步\n"@ + text),
        p.last_error matches Some(error) ==> shows(
            p,
            "# 上次错误（turn "@ + error.turn_ref.turn_id + "）\n"@ + error.brief,
        ),
{
    let sections = snapshot_sections(p);
    if p.intent == Some(text) {
        lemma_whole("# 意图\n"@ + text);
        assert(sections[1] == "# 意图\n"@ + text);
        lemma_shown(p, 1, "# 意图\n"@ + text);
    }
    if p.next_step == Some(text) {
        lemma_whole("# 下一步\n"@ + text);
        assert(sections[before_next(p)] == "# 下一步\n"@ + text);
        lemma_shown(p, before_next(p), "# 下一步\n"@ + text);
    }
    if let Some(error) = p.last_error {
        let said = "# 上次错误（turn "@ + error.turn_ref.turn_id + "）\n"@ + error.brief;
        lemma_whole(said);
        assert(sections[before_error(p)] == said);
        lemma_shown(p, before_error(p), said);
    }
}

proof fn lemma_todo_section(todo: Seq<TodoItemView>, i: int)
    requires
        0 <= i < todo.len(),
    ensures
        has_part(todo_section(todo), todo_line(todo[i])),
    decreases todo.len(),
{
    let none = Seq::<char>::empty();
    let before = todo_section(todo.drop_last());
    let last = todo_line(todo.last());
    if i < todo.len() - 1 {
        lemma_todo_section(todo.drop_last(), i);
        lemma_has_part_kept(none, before, last, todo_line(todo[i]));
        assert(none + before + last =~= todo_section(todo));
    } else {
        lemma_has_part_within(before, last, none);
        assert(before + last + none =~= todo_section(todo));
    }
}

/// Every to-do is shown on a line of its own with a mark for how it stands, its number
/// and its text, and with what blocks it.
pub proof fn law_todos_are_shown(p: ProgressView, i: int, reason: Seq<char>)
    requires
        0 <= i < p.todo.len(),
    ensures
        ({
            let t = p.todo[i];
            let said = " t"@ + decimal(t.id as nat) + " "@ + t.text;
            &&& t.status == TodoStatus::Todo && t.blocked_reason is None ==> shows(
                p,
                "\n[ ]"@ + said,
            )
            &&& t.status == TodoStatus::Doing && t.blocked_reason is None ==> shows(
                p,
                "\n[~]"@ + said,
            )
            &&& t.status == TodoStatus::Done && t.blocked_reason is None ==> shows(
                p,
                "\n[x]"@ + said,
            )
            &&& t.status == TodoStatus::Blocked && t.blocked_reason == Some(reason) ==> shows(
                p,
                "\n[!]"@ + said + ("（阻塞："@ + reason + "）"@),
            )
        }),
{
    let t = p.todo[i];
    lemma_todo_section(p.todo, i);
    assert(snapshot_sections(p)[before_todo(p)] == todo_section(p.todo));
    lemma_shown(p, before_todo(p), todo_line(t));
    reveal_strlit("\n");
    reveal_strlit("[ ]");
    reveal_strlit("[~]");
    reveal_strlit("[x]");
    reveal_strlit("[!]");
    reveal_strlit("\n[ ]");
    reveal_strlit("\n[~]");
    reveal_strlit("\n[x]");
    reveal_strlit("\n[!]");
    assert("\n"@ + "[ ]"@ =~= "\n[ ]"@);
    assert("\n"@ + "[~]"@ =~= "\n[~]"@);
    assert("\n"@ + "[x]"@ =~= "\n[x]"@);
    assert("\n"@ + "[!]"@ =~= "\n[!]"@);
    let said = " t"@ + decimal(t.id as nat) + " "@ + t.text;
    let mark = match t.status {
        TodoStatus::Todo => "\n[ ]"@,
        TodoStatus::Doing => "\n[~]"@,
        TodoStatus::Done => "\n[x]"@,
        TodoStatus::Blocked => "\n[!]"@,
    };
    if t.blocked_reason is None {
        assert(todo_line(t) =~= mark + said);
    }
    if t.blocked_reason == Some(reason) {
        assert(todo_line(t) =~= mark + said + ("（阻塞："@ + reason + "）"@));
    }
}

/// To-dos are shown in their order.
pub proof fn law_todos_are_shown_in_order(todo: Seq<TodoItemView>, t: TodoItemView)
    ensures
        todo_section(todo.push(t)) == todo_section(todo) + todo_line(t),
        todo_section(Seq::empty()) == "# 待办"@,
{
    assert(todo.push(t).drop_last() =~= todo);
}

proof fn lemma_assumption_section(list: Seq<AssumptionView>, i: int)
    requires
        0 <= i < list.len(),
    ensures
        has_part(assumption_section(list), assumption_line(list[i])),
    decreases list.len(),
{
    let none = Seq::<char>::empty();
    let before = assumption_section(list.drop_last());
    let last = assumption_line(list.last());
    if i < list.len() - 1 {
        lemma_assumption_section(list.drop_last(), i);
        lemma_has_part_kept(none, before, last, assumption_line(list[i]));
        assert(none + before + last =~= assumption_section(list));
    } else {
        lemma_has_part_within(before, last, none);
        assert(before + last + none =~= assumption_section(list));
    }
}

/// Every assumption is shown with its number, what it says and how it stands.
pub proof fn law_assumptions_are_shown(p: ProgressView, i: int)
    requires
        0 <= i < p.assumptions.len(),
    ensures
        ({
            let a = p.assumptions[i];
            let said = "\n- a"@ + decimal(a.id as nat) + " "@ + a.statement;
            &&& a.status == AssumptionStatus::Assumed ==> shows(p, said + "（"@ + "假设"@ + "）"@)
            &&& a.status == AssumptionStatus::Confirmed ==> shows(
                p,
                said + "（"@ + "已确认"@ + "）"@,
            )
            &&& a.status == AssumptionStatus::Stale ==> shows(p, said + "（"@ + "已失效"@ + "）"@)
        }),
{
    lemma_assumption_section(p.assumptions, i);
    assert(snapshot_sections(p)[before_assumptions(p)] == assumption_section(p.assumptions));
    lemma_shown(p, before_assumptions(p), assumption_line(p.assumptions[i]));
}

proof fn lemma_warning_section(warnings: Seq<Seq<char>>, i: int)
    requires
        0 <= i < warnings.len(),
    ensures
        has_part(warning_section(warnings), "\n- "@ + warnings[i]),
    decreases warnings.len(),
{
    let none = Seq::<char>::empty();
    let before = warning_section(warnings.drop_last());
    let last = "\n- "@ + warnings.last();
    if i < warnings.len() - 1 {
        lemma_warning_section(warnings.drop_last(), i);
        lemma_has_part_kept(none, before, last, "\n- "@ + warnings[i]);
        assert(none + before + last =~= warning_section(warnings));
    } else {
        lemma_has_part_within(before, last, none);
        assert(before + last + none =~= warning_section(warnings));
    }
}

/// Every warning and every touched file is shown.
pub proof fn law_warnings_and_files_are_shown(p: ProgressView, i: int)
    ensures
        0 <= i < p.warnings.len() ==> shows(p, "\n- "@ + p.warnings[i]),
        0 <= i < p.files_touched.len() ==> shows(p, p.files_touched[i]),
{
    if 0 <= i < p.warnings.len() {
        lemma_warning_section(p.warnings, i);
        assert(snapshot_sections(p)[before_warnings(p)] == warning_section(p.warnings));
        lemma_shown(p, before_warnings(p), "\n- "@ + p.warnings[i]);
    }
    if 0 <= i < p.files_touched.len() {
        let none = Seq::<char>::empty();
        let all = joined(p.files_touched, ", "@);
        lemma_whole(p.files_touched[i]);
        lemma_joined_part(p.files_touched, ", "@, i, p.files_touched[i]);
        lemma_has_part_kept("# 已触及文件\n"@, all, none, p.files_touched[i]);
        assert("# 已触及文件\n"@ + all + none =~= "# 已触及文件\n"@ + all);
        assert(snapshot_sections(p)[before_files(p)] == "# 已触及文件\n"@ + all);
        lemma_shown(p, before_files(p), p.files_touched[i]);
    }
}

/// An entry is stored under the number that comes next, and otherwise as it is.
pub proof fn law_entries_are_numbered(
    p: ProgressView,
    entry: DigestEntryView,
    history: Seq<IntentChangeView>,
)
    requires
        p.digest_seq <= u64::MAX,
    ensures
        ({
            let stored = stored_digest(p, entry, history);
            &&& stored.entry.sequence == p.digest_seq
            &&& stored.entry.kind == entry.kind
            &&& stored.entry.tool == entry.tool
            &&& stored.entry.brief_result == entry.brief_result
            &&& stored.entry.dialog_summary == entry.dialog_summary
            &&& stored.entry.turn_ref == entry.turn_ref
            &&& stored.entry.confidence == entry.confidence
            &&& stored.intent_history == history
        }),
{
}

/// The result of a tool is stored under its turn and the tool's name, with what it
/// says in brief. It takes one number, and a failure is remembered with it.
pub proof fn law_results_are_stored(
    p: ProgressView,
    turn_id: Seq<char>,
    tool: Option<Seq<char>>,
    output: FunctionCallOutputPayloadView,
    text: Seq<char>,
)
    requires
        output.text == Some(text),
    ensures
        ({
            let entry = tool_entry(whole_turn(turn_id), tool, output_brief(output));
            &&& entry.kind == DigestKind::Tool
            &&& entry.tool == tool
            &&& entry.turn_ref.turn_id == turn_id
            &&& entry.dialog_summary is None
            &&& 0 < text.len() <= 500 ==> entry.brief_result == Some(text)
            &&& text.len() == 0 ==> entry.brief_result is None
            &&& text.len() > 500 ==> entry.brief_result == Some(
                text.take(200) + "…"@ + text.skip(text.len() - 200),
            )
        }),
        ({
            let left = after_result(p, turn_id, output_brief(output), true);
            &&& left.digest_seq == p.digest_seq + 1
            &&& left.last_error matches Some(error) && error.turn_ref.turn_id == turn_id && (
            text.len() <= 500 ==> error.brief == text)
            &&& left.todo == p.todo
            &&& left.intent == p.intent
            &&& left.next_step == p.next_step
            &&& left.assumptions == p.assumptions
            &&& left.files_touched == p.files_touched
            &&& left.warnings == p.warnings
        }),
        after_result(p, turn_id, output_brief(output), false) == (ProgressView {
            digest_seq: p.digest_seq + 1,
            ..p
        }),
{
    assert(brief_of(brief_of(text)) == brief_of(text)) by {
        crate::progress::laws::law_brief_is_bounded(text);
    }
}

} // verus!
