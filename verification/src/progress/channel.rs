//! The progress channel: what a model reports beside its actions is applied to
//! the session's progress, tool results flow back into it, and a snapshot is
//! put before the model's next step.

use vstd::prelude::*;
use vstd::string::*;

use crate::json::docs;
use crate::json::list_field;
use crate::json::text_field;
use crate::json::Json;
use crate::json::JsonView;
use crate::models::ContentItem;
use crate::models::ContentItemView;
use crate::models::FunctionCallOutputPayloadView;
use crate::models::ResponseItem;
use crate::models::ResponseItemView;
use crate::progress::state::no_progress;
use crate::progress::state::Assumption;
use crate::progress::state::AssumptionStatus;
use crate::progress::state::AssumptionView;
use crate::progress::state::Confidence;
use crate::progress::state::DigestEntry;
use crate::progress::state::DigestEntryView;
use crate::progress::state::DigestKind;
use crate::progress::state::IntentChange;
use crate::progress::state::IntentChangeView;
use crate::progress::state::LastError;
use crate::progress::state::LastErrorView;
use crate::progress::state::ProgressDigestItem;
use crate::progress::state::ProgressDigestItemView;
use crate::progress::state::ProgressState;
use crate::progress::state::ProgressView;
use crate::progress::state::TodoItem;
use crate::progress::state::TodoItemView;
use crate::progress::state::TodoStatus;
use crate::progress::state::TurnRef;
use crate::progress::state::TurnRefView;
use crate::progress::todo::apply_assumption;
use crate::progress::todo::apply_todo_op;
use crate::progress::todo::assumption_op;
use crate::progress::todo::lemma_first_refused;
use crate::progress::todo::todo_op;
use crate::text::copy_text;
use crate::text::copy_texts;
use crate::text::begins_with;
use crate::text::cat;
use crate::text::cat3;
use crate::text::chars_of;
use crate::text::decimal;
use crate::text::join;
use crate::text::joined;
use crate::text::lemma_text_order;
use crate::text::lemma_text_order_transitive;
use crate::text::lines;
use crate::text::order;
use crate::text::same_text;
use crate::text::split_lines;
use crate::text::strip_prefix;
use crate::text::text_of;
use crate::text::text_order;
use crate::text::trim;
use crate::text::trimmed;
use crate::text::u64_text;

verus! {

/// The to-do operations in order.
pub open spec fn todo_ops(p: ProgressView, ops: Seq<JsonView>) -> ProgressView
    decreases ops.len(),
{
    if ops.len() == 0 {
        p
    } else {
        todo_op(todo_ops(p, ops.drop_last()), ops.last())
    }
}

/// The reported assumptions in order.
pub open spec fn assumption_ops(p: ProgressView, list: Seq<JsonView>) -> ProgressView
    decreases list.len(),
{
    if list.len() == 0 {
        p
    } else {
        assumption_op(assumption_ops(p, list.drop_last()), list.last())
    }
}

/// Whether a patch replaces an intent by a different one.
pub open spec fn intent_changes(p: ProgressView, patch: JsonView) -> bool {
    &&& text_field(patch, "intent"@) is Some
    &&& p.intent is Some
    &&& p.intent != text_field(patch, "intent"@)
}

/// The progress with the intent that a patch gives.
pub open spec fn with_intent(p: ProgressView, patch: JsonView) -> ProgressView {
    match text_field(patch, "intent"@) {
        None => p,
        Some(intent) => ProgressView {
            intent: Some(intent),
            digest_seq: if intent_changes(p, patch) {
                p.digest_seq + 1
            } else {
                p.digest_seq
            },
            ..p
        },
    }
}

/// The progress after the intent and the to-do operations of a patch.
pub open spec fn with_todos(p: ProgressView, patch: JsonView) -> ProgressView {
    match list_field(patch, "todo_ops"@) {
        None => with_intent(p, patch),
        Some(ops) => todo_ops(with_intent(p, patch), ops),
    }
}

/// The progress after the intent, the to-do operations and the assumptions of a
/// patch.
pub open spec fn with_assumptions(p: ProgressView, patch: JsonView) -> ProgressView {
    match list_field(patch, "assumptions"@) {
        None => with_todos(p, patch),
        Some(list) => assumption_ops(with_todos(p, patch), list),
    }
}

/// The progress after a whole patch.
pub open spec fn patched(p: ProgressView, patch: JsonView) -> ProgressView {
    match text_field(patch, "next_step"@) {
        None => with_assumptions(p, patch),
        Some(next) => ProgressView { next_step: Some(next), ..with_assumptions(p, patch) },
    }
}

/// The digest entry for an intent that was given up.
pub open spec fn intent_digest(old: Seq<char>, turn: TurnRefView, sequence: nat) -> ProgressDigestItemView {
    ProgressDigestItemView {
        entry: DigestEntryView {
            kind: DigestKind::Dialog,
            tool: None,
            brief_result: None,
            dialog_summary: Some("intent 演进旧值: "@ + old),
            turn_ref: turn,
            sequence: sequence as u64,
            confidence: None,
        },
        intent_history: seq![IntentChangeView { old, turn_ref: turn }],
    }
}

/// What a patch stores: the intent that it gives up, if it gives one up.
pub open spec fn patch_digests(p: ProgressView, patch: JsonView, turn: TurnRefView) -> Seq<
    ProgressDigestItemView,
> {
    if intent_changes(p, patch) {
        seq![intent_digest(p.intent->Some_0, turn, p.digest_seq)]
    } else {
        Seq::empty()
    }
}

/// The path that a line of a patch names, if it names one.
pub open spec fn patch_path(line: Seq<char>) -> Option<Seq<char>> {
    let l = trimmed(line);
    let path = if begins_with(l, "*** Add File:"@) {
        trimmed(l.skip("*** Add File:"@.len() as int))
    } else if begins_with(l, "*** Update File:"@) {
        trimmed(l.skip("*** Update File:"@.len() as int))
    } else if begins_with(l, "*** Delete File:"@) {
        trimmed(l.skip("*** Delete File:"@.len() as int))
    } else {
        Seq::empty()
    };
    if path.len() > 0 {
        Some(path)
    } else {
        None
    }
}

/// The paths that lines name, in order.
pub open spec fn line_paths(lines: Seq<Seq<char>>) -> Seq<Seq<char>>
    decreases lines.len(),
{
    if lines.len() == 0 {
        Seq::empty()
    } else {
        match patch_path(lines.last()) {
            Some(path) => line_paths(lines.drop_last()).push(path),
            None => line_paths(lines.drop_last()),
        }
    }
}

/// The paths that a patch names, in order.
pub open spec fn patch_paths(input: Seq<char>) -> Seq<Seq<char>> {
    line_paths(lines(input))
}

/// The ordered list of files with one more file.
pub open spec fn with_file(files: Seq<Seq<char>>, path: Seq<char>) -> Seq<Seq<char>>
    decreases files.len(),
{
    if files.len() == 0 {
        seq![path]
    } else if text_order(path, files.last()) > 0 {
        files.push(path)
    } else if text_order(path, files.last()) == 0 {
        files
    } else {
        with_file(files.drop_last(), path).push(files.last())
    }
}

/// The ordered list of files with more files.
pub open spec fn with_files(files: Seq<Seq<char>>, paths: Seq<Seq<char>>) -> Seq<Seq<char>>
    decreases paths.len(),
{
    if paths.len() == 0 {
        files
    } else {
        with_file(with_files(files, paths.drop_last()), paths.last())
    }
}

/// Whether files are in ascending order without repetition.
pub open spec fn ascending(files: Seq<Seq<char>>) -> bool {
    forall|i: int, j: int|
        #![trigger files[i], files[j]]
        0 <= i < j < files.len() ==> text_order(files[i], files[j]) < 0
}

/// The paths that a tool call touches, as far as its arguments show them.
pub open spec fn touched_paths(tool: Seq<char>, args: JsonView) -> Seq<Seq<char>> {
    if tool == "apply_patch"@ {
        match text_field(args, "input"@) {
            Some(input) => patch_paths(input),
            None => Seq::empty(),
        }
    } else {
        Seq::empty()
    }
}

/// How reliable the touched paths of a tool call are: reliable where a patch
/// names some.
pub open spec fn touched_confidence(tool: Seq<char>, args: JsonView) -> Confidence {
    if tool == "apply_patch"@ && touched_paths(tool, args).len() > 0 {
        Confidence::High
    } else {
        Confidence::Low
    }
}

/// How long a brief may be before its middle is left out.
pub const BRIEF_MAX: usize = 500;

/// How much of a long brief is kept at either end.
pub const BRIEF_EDGE: usize = 200;

/// A text, with its middle left out when it is long.
pub open spec fn brief_of(s: Seq<char>) -> Seq<char> {
    if s.len() <= BRIEF_MAX {
        s
    } else {
        s.take(BRIEF_EDGE as int) + "…"@ + s.skip(s.len() - BRIEF_EDGE)
    }
}

/// The brief of a tool's output.
pub open spec fn output_brief(output: FunctionCallOutputPayloadView) -> Seq<char> {
    match output.text {
        Some(t) => brief_of(t),
        None => Seq::empty(),
    }
}

/// The progress with a failed tool call.
pub open spec fn with_error(p: ProgressView, turn: TurnRefView, brief: Seq<char>) -> ProgressView {
    ProgressView { last_error: Some(LastErrorView { turn_ref: turn, brief: brief_of(brief) }), ..p }
}

/// A digest entry as it is stored: under the next digest number.
pub open spec fn stored_digest(
    p: ProgressView,
    entry: DigestEntryView,
    history: Seq<IntentChangeView>,
) -> ProgressDigestItemView {
    ProgressDigestItemView {
        entry: DigestEntryView { sequence: p.digest_seq as u64, ..entry },
        intent_history: history,
    }
}

/// The digest entry of a tool result.
pub open spec fn tool_entry(turn: TurnRefView, tool: Option<Seq<char>>, brief: Seq<char>) -> DigestEntryView {
    DigestEntryView {
        kind: DigestKind::Tool,
        tool,
        brief_result: if brief.len() == 0 {
            None
        } else {
            Some(brief)
        },
        dialog_summary: None,
        turn_ref: turn,
        sequence: 0,
        confidence: None,
    }
}

/// The turn with the given name, at no particular item.
pub open spec fn whole_turn(turn_id: Seq<char>) -> TurnRefView {
    TurnRefView { turn_id, item_index: None }
}

/// The progress after a tool result.
pub open spec fn after_result(
    p: ProgressView,
    turn_id: Seq<char>,
    brief: Seq<char>,
    failed: bool,
) -> ProgressView {
    let q = if failed {
        with_error(p, whole_turn(turn_id), brief)
    } else {
        p
    };
    ProgressView { digest_seq: p.digest_seq + 1, ..q }
}

/// The mark of a to-do in the snapshot.
pub open spec fn status_mark(status: TodoStatus) -> Seq<char> {
    match status {
        TodoStatus::Todo => "[ ]"@,
        TodoStatus::Doing => "[~]"@,
        TodoStatus::Done => "[x]"@,
        TodoStatus::Blocked => "[!]"@,
    }
}

/// Why a to-do is blocked, in the snapshot.
pub open spec fn blocked_note(reason: Option<Seq<char>>) -> Seq<char> {
    match reason {
        Some(r) => "（阻塞："@ + r + "）"@,
        None => Seq::empty(),
    }
}

/// The line of a to-do in the snapshot.
pub open spec fn todo_line(t: TodoItemView) -> Seq<char> {
    "\n"@ + status_mark(t.status) + " t"@ + decimal(t.id as nat) + " "@ + t.text + blocked_note(
        t.blocked_reason,
    )
}

/// The to-dos in the snapshot.
pub open spec fn todo_section(todo: Seq<TodoItemView>) -> Seq<char>
    decreases todo.len(),
{
    if todo.len() == 0 {
        "# 待办"@
    } else {
        todo_section(todo.drop_last()) + todo_line(todo.last())
    }
}

/// The label of an assumption in the snapshot.
pub open spec fn assumption_label(status: AssumptionStatus) -> Seq<char> {
    match status {
        AssumptionStatus::Assumed => "假设"@,
        AssumptionStatus::Confirmed => "已确认"@,
        AssumptionStatus::Stale => "已失效"@,
    }
}

/// The line of an assumption in the snapshot.
pub open spec fn assumption_line(a: AssumptionView) -> Seq<char> {
    "\n- a"@ + decimal(a.id as nat) + " "@ + a.statement + "（"@ + assumption_label(a.status)
        + "）"@
}

/// The assumptions in the snapshot.
pub open spec fn assumption_section(list: Seq<AssumptionView>) -> Seq<char>
    decreases list.len(),
{
    if list.len() == 0 {
        "# 关键假设"@
    } else {
        assumption_section(list.drop_last()) + assumption_line(list.last())
    }
}

/// The warnings in the snapshot.
pub open spec fn warning_section(warnings: Seq<Seq<char>>) -> Seq<char>
    decreases warnings.len(),
{
    if warnings.len() == 0 {
        "# 校验回流"@
    } else {
        warning_section(warnings.drop_last()) + ("\n- "@ + warnings.last())
    }
}

/// A section that is there only when it has something to say.
pub open spec fn section(there: bool, text: Seq<char>) -> Seq<Seq<char>> {
    if there {
        seq![text]
    } else {
        Seq::empty()
    }
}

/// The sections of the snapshot.
pub open spec fn snapshot_sections(p: ProgressView) -> Seq<Seq<char>> {
    seq!["[progress-state] 系统进度态快照(只读;勿逐字重复本消息)"@]
        + section(p.intent is Some, "# 意图\n"@ + p.intent->Some_0)
        + section(p.todo.len() > 0, todo_section(p.todo))
        + section(p.next_step is Some, "# 下一步\n"@ + p.next_step->Some_0)
        + section(p.assumptions.len() > 0, assumption_section(p.assumptions))
        + section(p.files_touched.len() > 0, "# 已触及文件\n"@ + joined(p.files_touched, ", "@))
        + section(
            p.last_error is Some,
            "# 上次错误（turn "@ + p.last_error->Some_0.turn_ref.turn_id + "）\n"@
                + p.last_error->Some_0.brief,
        )
        + section(p.warnings.len() > 0, warning_section(p.warnings))
}

/// The message that shows a snapshot to the model: nothing when there is no
/// progress. It is an assistant message, since system messages are dropped by
/// some protocols.
pub open spec fn snapshot_message(p: ProgressView) -> Option<ResponseItemView> {
    if no_progress(p) {
        None
    } else {
        Some(
            ResponseItemView::Message {
                id: None,
                role: "assistant"@,
                content: seq![
                    ContentItemView::OutputText { text: joined(snapshot_sections(p), "\n\n"@) },
                ],
                phase: None,
            },
        )
    }
}

/// The numbers handed out never go back.
pub proof fn lemma_todo_op_counts(p: ProgressView, op: JsonView)
    ensures
        todo_op(p, op).todo_id_seq >= p.todo_id_seq,
        todo_op(p, op).digest_seq == p.digest_seq,
{
    if let Some(items) = list_field(op, "items"@) {
        lemma_first_refused(items, 0);
    }
}

pub proof fn lemma_todo_ops_counts(p: ProgressView, ops: Seq<JsonView>, n: int)
    requires
        0 <= n <= ops.len(),
    ensures
        p.todo_id_seq <= todo_ops(p, ops.take(n)).todo_id_seq <= todo_ops(p, ops).todo_id_seq,
        todo_ops(p, ops).digest_seq == p.digest_seq,
    decreases ops.len(),
{
    if ops.len() > 0 {
        let rest = ops.drop_last();
        lemma_todo_op_counts(todo_ops(p, rest), ops.last());
        if n < ops.len() {
            assert(rest.take(n) =~= ops.take(n));
            lemma_todo_ops_counts(p, rest, n);
        } else {
            assert(ops.take(n) =~= ops);
            lemma_todo_ops_counts(p, rest, 0);
        }
    } else {
        assert(ops.take(n) =~= ops);
    }
}

pub proof fn lemma_assumption_ops_counts(p: ProgressView, list: Seq<JsonView>, n: int)
    requires
        0 <= n <= list.len(),
    ensures
        p.todo_id_seq <= assumption_ops(p, list.take(n)).todo_id_seq <= assumption_ops(
            p,
            list,
        ).todo_id_seq,
        assumption_ops(p, list).digest_seq == p.digest_seq,
    decreases list.len(),
{
    if list.len() > 0 {
        let rest = list.drop_last();
        if n < list.len() {
            assert(rest.take(n) =~= list.take(n));
            lemma_assumption_ops_counts(p, rest, n);
        } else {
            assert(list.take(n) =~= list);
            lemma_assumption_ops_counts(p, rest, 0);
        }
    } else {
        assert(list.take(n) =~= list);
    }
}

/// Adding a file keeps the list in ascending order and adds that file and no
/// other.
pub proof fn law_with_file(files: Seq<Seq<char>>, path: Seq<char>)
    requires
        ascending(files),
    ensures
        ascending(with_file(files, path)),
        forall|f: Seq<char>|
            with_file(files, path).contains(f) <==> (files.contains(f) || f == path),
    decreases files.len(),
{
    let r = with_file(files, path);
    if files.len() == 0 {
        assert(r[0] == path);
    } else {
        lemma_text_order(path, files.last());
        if text_order(path, files.last()) > 0 {
            lemma_text_order(files.last(), path);
            assert forall|i: int, j: int|
                #![trigger r[i], r[j]]
                0 <= i < j < r.len() implies text_order(r[i], r[j]) < 0 by {
                if j == files.len() && i < files.len() - 1 {
                    lemma_text_order_transitive(files[i], files.last(), path);
                }
            }
            assert(r[files.len() as int] == path);
            assert forall|f: Seq<char>| r.contains(f) <==> (files.contains(f) || f == path) by {
                if files.contains(f) {
                    let k = choose|k: int| 0 <= k < files.len() && files[k] == f;
                    assert(r[k] == f);
                }
            }
        } else if text_order(path, files.last()) == 0 {
            assert(files[files.len() - 1] == path);
        } else {
            let rest = files.drop_last();
            assert(ascending(rest)) by {
                assert forall|i: int, j: int|
                    #![trigger rest[i], rest[j]]
                    0 <= i < j < rest.len() implies text_order(rest[i], rest[j]) < 0 by {
                    assert(rest[i] == files[i] && rest[j] == files[j]);
                }
            }
            law_with_file(rest, path);
            let q = with_file(rest, path);
            assert forall|i: int| 0 <= i < q.len() implies text_order(#[trigger] q[i], files.last()) < 0 by {
                assert(q.contains(q[i]));
                if rest.contains(q[i]) {
                    let k = choose|k: int| 0 <= k < rest.len() && rest[k] == q[i];
                    assert(files[k] == q[i]);
                    assert(files[files.len() - 1] == files.last());
                }
            }
            assert forall|f: Seq<char>| r.contains(f) <==> (files.contains(f) || f == path) by {
                assert(r[q.len() as int] == files.last());
                if q.contains(f) {
                    let k = choose|k: int| 0 <= k < q.len() && q[k] == f;
                    assert(r[k] == f);
                }
                if rest.contains(f) {
                    let k = choose|k: int| 0 <= k < rest.len() && rest[k] == f;
                    assert(files[k] == f);
                }
                if files.contains(f) {
                    let k = choose|k: int| 0 <= k < files.len() && files[k] == f;
                    if k < rest.len() {
                        assert(rest[k] == f);
                    }
                }
            }
        }
    }
}

/// The paths that a patch names, in order.
pub fn parse_apply_patch_paths(input: &str) -> (r: Vec<String>)
    ensures
        r.deep_view() == patch_paths(input@),
{
    let all = split_lines(input);
    let mut paths: Vec<String> = Vec::new();
    let mut i: usize = 0;
    let ghost texts = all.deep_view();
    assert(texts.take(0) =~= Seq::<Seq<char>>::empty());
    while i < all.len()
        invariant
            i <= all@.len(),
            texts == all.deep_view(),
            paths.deep_view() == line_paths(texts.take(i as int)),
        decreases all@.len() - i,
    {
        let line = trim(all[i].as_str());
        let path = if let Some(rest) = strip_prefix(line.as_str(), "*** Add File:") {
            trim(rest.as_str())
        } else if let Some(rest) = strip_prefix(line.as_str(), "*** Update File:") {
            trim(rest.as_str())
        } else if let Some(rest) = strip_prefix(line.as_str(), "*** Delete File:") {
            trim(rest.as_str())
        } else {
            String::new()
        };
        proof {
            assert(texts.take(i + 1).drop_last() =~= texts.take(i as int));
            assert(texts.take(i + 1).last() == texts[i as int]);
        }
        if !path.as_str().is_empty() {
            let ghost so_far = paths.deep_view();
            paths.push(path);
            assert(paths.deep_view() =~= so_far.push(path@));
        }
        i += 1;
    }
    assert(texts.take(i as int) =~= texts);
    paths
}

fn insert_file(files: &mut Vec<String>, path: String)
    ensures
        final(files).deep_view() == with_file(old(files).deep_view(), path@),
    decreases old(files)@.len(),
{
    let ghost before = files.deep_view();
    if files.len() == 0 {
        files.push(path);
        assert(files.deep_view() =~= seq![path@]);
        return;
    }
    let n: usize = files.len();
    assert(before.last() == files@[n - 1]@);
    let sign: i8 = order(path.as_str(), files[n - 1].as_str());
    if sign > 0 {
        files.push(path);
        assert(files.deep_view() =~= before.push(path@));
    } else if sign < 0 {
        if let Some(last) = files.pop() {
            assert(files.deep_view() =~= before.drop_last());
            insert_file(files, path);
            let ghost inner = files.deep_view();
            files.push(last);
            assert(files.deep_view() =~= inner.push(last@));
        }
    }
}

/// A long text with its middle left out.
pub fn truncate_brief(s: &str) -> (r: String)
    ensures
        r@ == brief_of(s@),
{
    let chars = chars_of(s);
    let n: usize = chars.len();
    if n <= BRIEF_MAX {
        return s.to_owned();
    }
    let head = text_of(&chars, 0, BRIEF_EDGE);
    let tail = text_of(&chars, n - BRIEF_EDGE, n);
    assert(head@ =~= s@.take(BRIEF_EDGE as int));
    assert(tail@ =~= s@.skip(s@.len() - BRIEF_EDGE));
    cat3(head.as_str(), "…", tail.as_str())
}

impl ProgressState {
    /// Applies a progress patch: the intent, then the to-do operations and the
    /// assumptions in their order, then the next step. Gives back what has to be
    /// stored: an intent that was given up.
    pub fn apply_progress_patch(&mut self, patch: &Json, turn_ref: &TurnRef) -> (r: Vec<
        ProgressDigestItem,
    >)
        requires
            patched(old(self)@, patch@).todo_id_seq <= u64::MAX,
            patched(old(self)@, patch@).digest_seq <= u64::MAX,
        ensures
            final(self)@ == patched(old(self)@, patch@),
            r.deep_view() == patch_digests(old(self)@, patch@, turn_ref@),
    {
        let ghost before = old(self)@;
        let ghost with_i = with_intent(before, patch@);
        let ghost with_t = with_todos(before, patch@);
        let ghost with_a = with_assumptions(before, patch@);
        proof {
            if let Some(ops) = list_field(patch@, "todo_ops"@) {
                lemma_todo_ops_counts(with_i, ops, 0);
            }
            if let Some(list) = list_field(patch@, "assumptions"@) {
                lemma_assumption_ops_counts(with_t, list, 0);
            }
        }
        let mut stored: Vec<ProgressDigestItem> = Vec::new();
        if let Some(intent) = patch.text_at("intent") {
            if let Some(old_intent) = &self.intent {
                if !same_text(old_intent.as_str(), intent.as_str()) {
                    let sequence: u64 = self.digest_seq;
                    let mut history: Vec<IntentChange> = Vec::new();
                    history.push(
                        IntentChange { old: old_intent.clone(), turn_ref: turn_ref.copy() },
                    );
                    let item = ProgressDigestItem {
                        entry: DigestEntry {
                            kind: DigestKind::Dialog,
                            tool: None,
                            brief_result: None,
                            dialog_summary: Some(cat("intent 演进旧值: ", old_intent.as_str())),
                            turn_ref: turn_ref.copy(),
                            sequence,
                            confidence: None,
                        },
                        intent_history: history,
                    };
                    proof {
                        assert(item@.intent_history =~= seq![
                            IntentChangeView { old: old_intent@, turn_ref: turn_ref@ },
                        ]);
                        assert(item@ == intent_digest(before.intent->Some_0, turn_ref@, before.digest_seq));
                    }
                    stored.push(item);
                    self.digest_seq = sequence + 1;
                }
            }
            self.intent = Some(intent);
        }
        assert(self@ == with_i);
        assert(stored.deep_view() =~= patch_digests(before, patch@, turn_ref@));
        if let Some(ops) = patch.list_at("todo_ops") {
            let ghost all = docs(ops@);
            let mut i: usize = 0;
            assert(all.take(0) =~= Seq::<JsonView>::empty());
            while i < ops.len()
                invariant
                    i <= ops@.len(),
                    all == docs(ops@),
                    self@ == todo_ops(with_i, all.take(i as int)),
                    todo_ops(with_i, all).todo_id_seq <= u64::MAX,
                decreases ops@.len() - i,
            {
                proof {
                    assert(all.take(i + 1).drop_last() =~= all.take(i as int));
                    assert(all.take(i + 1).last() == ops@[i as int]@);
                    lemma_todo_ops_counts(with_i, all, i + 1);
                }
                apply_todo_op(self, &ops[i]);
                i += 1;
            }
            assert(all.take(i as int) =~= all);
        }
        assert(self@ == with_t);
        if let Some(list) = patch.list_at("assumptions") {
            let ghost all = docs(list@);
            let mut i: usize = 0;
            assert(all.take(0) =~= Seq::<JsonView>::empty());
            while i < list.len()
                invariant
                    i <= list@.len(),
                    all == docs(list@),
                    self@ == assumption_ops(with_t, all.take(i as int)),
                    assumption_ops(with_t, all).todo_id_seq <= u64::MAX,
                decreases list@.len() - i,
            {
                proof {
                    assert(all.take(i + 1).drop_last() =~= all.take(i as int));
                    assert(all.take(i + 1).last() == list@[i as int]@);
                    lemma_assumption_ops_counts(with_t, all, i + 1);
                }
                apply_assumption(self, &list[i]);
                i += 1;
            }
            assert(all.take(i as int) =~= all);
        }
        assert(self@ == with_a);
        if let Some(next) = patch.text_at("next_step") {
            self.next_step = Some(next);
        }
        stored
    }

    /// Records the files that a tool call touches, and says how reliable that
    /// is. Only patches show their files; of a shell command nothing is derived.
    pub fn derive_files_touched_from_args(&mut self, tool: &str, args: &Json) -> (r: Confidence)
        ensures
            r == touched_confidence(tool@, args@),
            final(self)@ == (ProgressView {
                files_touched: with_files(
                    old(self)@.files_touched,
                    touched_paths(tool@, args@),
                ),
                ..old(self)@
            }),
    {
        if !same_text(tool, "apply_patch") {
            return Confidence::Low;
        }
        let input = match args.text_at("input") {
            Some(input) => input,
            None => {
                return Confidence::Low;
            },
        };
        let paths = parse_apply_patch_paths(input.as_str());
        if paths.len() == 0 {
            return Confidence::Low;
        }
        let ghost before = old(self)@;
        let ghost all = paths.deep_view();
        let mut i: usize = 0;
        assert(all.take(0) =~= Seq::<Seq<char>>::empty());
        while i < paths.len()
            invariant
                i <= paths@.len(),
                all == paths.deep_view(),
                self@ == (ProgressView {
                    files_touched: with_files(before.files_touched, all.take(i as int)),
                    ..before
                }),
            decreases paths@.len() - i,
        {
            proof {
                assert(all.take(i + 1).drop_last() =~= all.take(i as int));
                assert(all.take(i + 1).last() == paths@[i as int]@);
            }
            insert_file(&mut self.files_touched, paths[i].clone());
            i += 1;
        }
        assert(all.take(i as int) =~= all);
        Confidence::High
    }

    /// Records a failed tool call.
    pub fn record_last_error_from_fco(&mut self, brief: &str, turn_ref: TurnRef)
        ensures
            final(self)@ == with_error(old(self)@, turn_ref@, brief@),
    {
        let brief = truncate_brief(brief);
        self.last_error = Some(LastError { turn_ref, brief });
    }

    /// Whether an override of the last digest draft is taken notice of. An
    /// override that is no object leaves the draft as it is; one that is an
    /// object is received, and the draft is still kept.
    pub fn consume_digest_override(&self, override_doc: &Json) -> (r: bool)
        ensures
            r == (override_doc@ is Fields),
    {
        override_doc.is_object()
    }

    /// Gives a digest entry the next number; the result is what has to be
    /// stored.
    pub fn append_digest_to_l0(&mut self, entry: DigestEntry, intent_history: Vec<IntentChange>) -> (r:
        ProgressDigestItem)
        requires
            old(self)@.digest_seq < u64::MAX,
        ensures
            r@ == stored_digest(old(self)@, entry@, intent_history.deep_view()),
            final(self)@ == (ProgressView {
                digest_seq: old(self)@.digest_seq + 1,
                ..old(self)@
            }),
    {
        let mut entry = entry;
        entry.sequence = self.digest_seq;
        self.digest_seq += 1;
        ProgressDigestItem { entry, intent_history }
    }

    /// Records a tool result: a digest entry, and the error when it failed.
    fn record_fco_progress(
        &mut self,
        turn_id: &str,
        tool: Option<String>,
        brief: String,
        failed: bool,
    ) -> (r: ProgressDigestItem)
        requires
            old(self)@.digest_seq < u64::MAX,
        ensures
            r@ == stored_digest(
                old(self)@,
                tool_entry(whole_turn(turn_id@), tool.deep_view(), brief@),
                Seq::empty(),
            ),
            final(self)@ == after_result(old(self)@, turn_id@, brief@, failed),
    {
        let turn_ref = TurnRef { turn_id: turn_id.to_owned(), item_index: None };
        if failed {
            self.record_last_error_from_fco(brief.as_str(), turn_ref.copy());
        }
        let history: Vec<IntentChange> = Vec::new();
        assert(history.deep_view() =~= Seq::<IntentChangeView>::empty());
        let brief_result = if brief.as_str().is_empty() {
            None
        } else {
            Some(brief)
        };
        self.append_digest_to_l0(
            DigestEntry {
                kind: DigestKind::Tool,
                tool,
                brief_result,
                dialog_summary: None,
                turn_ref,
                sequence: 0,
                confidence: None,
            },
            history,
        )
    }

    /// Records the result of a tool call, which failed when it says so. Items
    /// that are no tool results are passed over.
    pub fn progress_channel_fco_reflow(&mut self, turn_id: &str, item: &ResponseItem) -> (r: Option<
        ProgressDigestItem,
    >)
        requires
            old(self)@.digest_seq < u64::MAX,
        ensures
            match item@ {
                ResponseItemView::FunctionCallOutput { output, .. } => r.deep_view() == Some(
                    stored_digest(
                        old(self)@,
                        tool_entry(whole_turn(turn_id@), None, output_brief(output)),
                        Seq::empty(),
                    ),
                ) && final(self)@ == after_result(
                    old(self)@,
                    turn_id@,
                    output_brief(output),
                    output.success == Some(false),
                ),
                ResponseItemView::CustomToolCallOutput { name, output, .. } => r.deep_view()
                    == Some(
                    stored_digest(
                        old(self)@,
                        tool_entry(whole_turn(turn_id@), name, output_brief(output)),
                        Seq::empty(),
                    ),
                ) && final(self)@ == after_result(
                    old(self)@,
                    turn_id@,
                    output_brief(output),
                    output.success == Some(false),
                ),
                _ => r is None && final(self)@ == old(self)@,
            },
    {
        let (tool, output) = match item {
            ResponseItem::FunctionCallOutput { output, .. } => (None, output),
            ResponseItem::CustomToolCallOutput { name, output, .. } => (
                match name {
                    Some(n) => Some(n.clone()),
                    None => None,
                },
                output,
            ),
            _ => {
                return None;
            },
        };
        let brief = match &output.text {
            Some(t) => truncate_brief(t.as_str()),
            None => String::new(),
        };
        let failed = match output.success {
            Some(success) => !success,
            None => false,
        };
        Some(self.record_fco_progress(turn_id, tool, brief, failed))
    }

    /// Records the result of a tool call that was refused or answered directly:
    /// always a failure, under no tool name.
    pub fn progress_channel_fco_reflow_failure(&mut self, turn_id: &str, item: &ResponseItem) -> (r:
        Option<ProgressDigestItem>)
        requires
            old(self)@.digest_seq < u64::MAX,
        ensures
            match item@ {
                ResponseItemView::FunctionCallOutput { output, .. }
                | ResponseItemView::CustomToolCallOutput { output, .. } => r.deep_view() == Some(
                    stored_digest(
                        old(self)@,
                        tool_entry(whole_turn(turn_id@), None, output_brief(output)),
                        Seq::empty(),
                    ),
                ) && final(self)@ == after_result(old(self)@, turn_id@, output_brief(output), true),
                _ => r is None && final(self)@ == old(self)@,
            },
    {
        let output = match item {
            ResponseItem::FunctionCallOutput { output, .. } => output,
            ResponseItem::CustomToolCallOutput { output, .. } => output,
            _ => {
                return None;
            },
        };
        let brief = match &output.text {
            Some(t) => truncate_brief(t.as_str()),
            None => String::new(),
        };
        Some(self.record_fco_progress(turn_id, None, brief, true))
    }
}

fn copy_todos(list: &Vec<TodoItem>) -> (r: Vec<TodoItem>)
    ensures
        r@ == list@,
{
    let mut out: Vec<TodoItem> = Vec::new();
    let mut i: usize = 0;
    while i < list.len()
        invariant
            i <= list@.len(),
            out@ == list@.take(i as int),
        decreases list@.len() - i,
    {
        out.push(
            TodoItem {
                id: list[i].id,
                text: list[i].text.clone(),
                status: list[i].status,
                blocked_reason: copy_text(&list[i].blocked_reason),
            },
        );
        i += 1;
    }
    out
}

fn copy_assumptions(list: &Vec<Assumption>) -> (r: Vec<Assumption>)
    ensures
        r@ == list@,
{
    let mut out: Vec<Assumption> = Vec::new();
    let mut i: usize = 0;
    while i < list.len()
        invariant
            i <= list@.len(),
            out@ == list@.take(i as int),
        decreases list@.len() - i,
    {
        out.push(
            Assumption {
                id: list[i].id,
                statement: list[i].statement.clone(),
                status: list[i].status,
            },
        );
        i += 1;
    }
    out
}

fn mark_of(status: TodoStatus) -> (r: &'static str)
    ensures
        r@ == status_mark(status),
{
    match status {
        TodoStatus::Todo => "[ ]",
        TodoStatus::Doing => "[~]",
        TodoStatus::Done => "[x]",
        TodoStatus::Blocked => "[!]",
    }
}

fn label_of(status: AssumptionStatus) -> (r: &'static str)
    ensures
        r@ == assumption_label(status),
{
    match status {
        AssumptionStatus::Assumed => "假设",
        AssumptionStatus::Confirmed => "已确认",
        AssumptionStatus::Stale => "已失效",
    }
}

fn render_todos(todo: &Vec<TodoItem>) -> (r: String)
    ensures
        r@ == todo_section(todo.deep_view()),
{
    let mut out = "# 待办".to_owned();
    let ghost all = todo.deep_view();
    let mut i: usize = 0;
    while i < todo.len()
        invariant
            i <= todo@.len(),
            all == todo.deep_view(),
            out@ == todo_section(all.take(i as int)),
        decreases todo@.len() - i,
    {
        let t = &todo[i];
        let mut line = cat3("\n", mark_of(t.status), " t");
        line.append(u64_text(t.id).as_str());
        line.append(" ");
        line.append(t.text.as_str());
        let note = match &t.blocked_reason {
            Some(r) => cat3("（阻塞：", r.as_str(), "）"),
            None => String::new(),
        };
        line.append(note.as_str());
        proof {
            assert(all[i as int] == t@);
            assert(line@ == todo_line(all[i as int]));
            assert(all.take(i + 1).drop_last() =~= all.take(i as int));
            assert(all.take(i + 1).last() == all[i as int]);
        }
        out.append(line.as_str());
        i += 1;
    }
    assert(all.take(i as int) =~= all);
    out
}

fn render_assumptions(list: &Vec<Assumption>) -> (r: String)
    ensures
        r@ == assumption_section(list.deep_view()),
{
    let mut out = "# 关键假设".to_owned();
    let ghost all = list.deep_view();
    let mut i: usize = 0;
    while i < list.len()
        invariant
            i <= list@.len(),
            all == list.deep_view(),
            out@ == assumption_section(all.take(i as int)),
        decreases list@.len() - i,
    {
        let a = &list[i];
        let mut line = cat3("\n- a", u64_text(a.id).as_str(), " ");
        line.append(a.statement.as_str());
        line.append("（");
        line.append(label_of(a.status));
        line.append("）");
        proof {
            assert(all[i as int] == a@);
            assert(line@ == assumption_line(all[i as int]));
            assert(all.take(i + 1).drop_last() =~= all.take(i as int));
            assert(all.take(i + 1).last() == all[i as int]);
        }
        out.append(line.as_str());
        i += 1;
    }
    assert(all.take(i as int) =~= all);
    out
}

fn render_warnings(list: &Vec<String>) -> (r: String)
    ensures
        r@ == warning_section(list.deep_view()),
{
    let mut out = "# 校验回流".to_owned();
    let ghost all = list.deep_view();
    let mut i: usize = 0;
    while i < list.len()
        invariant
            i <= list@.len(),
            all == list.deep_view(),
            out@ == warning_section(all.take(i as int)),
        decreases list@.len() - i,
    {
        proof {
            assert(all.take(i + 1).drop_last() =~= all.take(i as int));
            assert(all.take(i + 1).last() == all[i as int]);
        }
        let line = cat("\n- ", list[i].as_str());
        out.append(line.as_str());
        i += 1;
    }
    assert(all.take(i as int) =~= all);
    out
}

fn add_section(sections: &mut Vec<String>, text: Option<String>)
    ensures
        final(sections).deep_view() == old(sections).deep_view() + section(
            text is Some,
            text->Some_0@,
        ),
{
    if let Some(t) = text {
        sections.push(t);
        assert(sections.deep_view() =~= old(sections).deep_view() + seq![t@]);
    } else {
        assert(sections.deep_view() =~= old(sections).deep_view() + Seq::<Seq<char>>::empty());
    }
}

impl ProgressState {
    /// A copy of the progress.
    pub fn copy(&self) -> (r: ProgressState)
        ensures
            r@ == self@,
    {
        ProgressState {
            intent: copy_text(&self.intent),
            todo: copy_todos(&self.todo),
            next_step: copy_text(&self.next_step),
            assumptions: copy_assumptions(&self.assumptions),
            files_touched: copy_texts(&self.files_touched),
            last_error: match &self.last_error {
                Some(e) => Some(
                    LastError { turn_ref: e.turn_ref.copy(), brief: e.brief.clone() },
                ),
                None => None,
            },
            todo_id_seq: self.todo_id_seq,
            digest_seq: self.digest_seq,
            warnings: copy_texts(&self.warnings),
        }
    }

    /// A snapshot of the progress for the model. The warnings are in it once:
    /// they are cleared here.
    pub fn snapshot_progress_for_inject(&mut self) -> (r: ProgressState)
        ensures
            r@ == old(self)@,
            final(self)@ == (ProgressView { warnings: Seq::empty(), ..old(self)@ }),
    {
        let snapshot = self.copy();
        self.warnings.clear();
        assert(self.warnings.deep_view() =~= Seq::<Seq<char>>::empty());
        snapshot
    }

    /// The text of the snapshot.
    fn render_snapshot(&self) -> (r: String)
        ensures
            r@ == joined(snapshot_sections(self@), "\n\n"@),
    {
        let mut sections: Vec<String> = Vec::new();
        sections.push(
            "[progress-state] 系统进度态快照(只读;勿逐字重复本消息)".to_owned(),
        );
        assert(sections.deep_view() =~= seq![
            "[progress-state] 系统进度态快照(只读;勿逐字重复本消息)"@,
        ]);
        add_section(
            &mut sections,
            match &self.intent {
                Some(intent) => Some(cat("# 意图\n", intent.as_str())),
                None => None,
            },
        );
        add_section(
            &mut sections,
            if self.todo.len() > 0 {
                Some(render_todos(&self.todo))
            } else {
                None
            },
        );
        add_section(
            &mut sections,
            match &self.next_step {
                Some(next) => Some(cat("# 下一步\n", next.as_str())),
                None => None,
            },
        );
        add_section(
            &mut sections,
            if self.assumptions.len() > 0 {
                Some(render_assumptions(&self.assumptions))
            } else {
                None
            },
        );
        add_section(
            &mut sections,
            if self.files_touched.len() > 0 {
                Some(cat("# 已触及文件\n", join(&self.files_touched, ", ").as_str()))
            } else {
                None
            },
        );
        add_section(
            &mut sections,
            match &self.last_error {
                Some(e) => {
                    let mut text = cat3("# 上次错误（turn ", e.turn_ref.turn_id.as_str(), "）\n");
                    text.append(e.brief.as_str());
                    Some(text)
                },
                None => None,
            },
        );
        add_section(
            &mut sections,
            if self.warnings.len() > 0 {
                Some(render_warnings(&self.warnings))
            } else {
                None
            },
        );
        assert(sections.deep_view() == snapshot_sections(self@));
        join(&sections, "\n\n")
    }

    /// The message that puts the progress before the model's next step, or
    /// nothing when there is no progress. The warnings go out with it and are
    /// cleared.
    pub fn render_progress_injection(&mut self) -> (r: Option<ResponseItem>)
        ensures
            r.deep_view() == snapshot_message(old(self)@),
            final(self)@ == (ProgressView { warnings: Seq::empty(), ..old(self)@ }),
    {
        let snapshot = self.snapshot_progress_for_inject();
        if snapshot.is_empty() {
            return None;
        }
        let mut content: Vec<ContentItem> = Vec::new();
        content.push(ContentItem::OutputText { text: snapshot.render_snapshot() });
        assert(content.deep_view() =~= seq![
            ContentItemView::OutputText { text: joined(snapshot_sections(snapshot@), "\n\n"@) },
        ]);
        Some(
            ResponseItem::Message {
                id: None,
                role: "assistant".to_owned(),
                content,
                phase: None,
            },
        )
    }
}

} // verus!
