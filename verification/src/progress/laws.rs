//! What holds of the progress of a session whatever a model reports.

use vstd::prelude::*;
use vstd::string::*;

use crate::json::list_field;
use crate::json::text_field;
use crate::json::u64_field;
use crate::json::JsonView;
use crate::progress::channel::ascending;
use crate::progress::channel::assumption_ops;
use crate::progress::channel::brief_of;
use crate::progress::channel::law_with_file;
use crate::progress::channel::lemma_todo_op_counts;
use crate::progress::channel::line_paths;
use crate::progress::channel::patch_digests;
use crate::progress::channel::patch_path;
use crate::progress::channel::patch_paths;
use crate::progress::channel::patched;
use crate::progress::channel::todo_ops;
use crate::progress::channel::with_files;
use crate::progress::channel::with_intent;
use crate::progress::channel::with_todos;
use crate::progress::channel::BRIEF_EDGE;
use crate::progress::channel::BRIEF_MAX;
use crate::progress::state::no_progress;
use crate::progress::state::AssumptionView;
use crate::progress::state::ProgressView;
use crate::progress::state::TodoItemView;
use crate::progress::state::TurnRefView;
use crate::progress::todo::assumption_op;
use crate::progress::todo::assumption_position;
use crate::progress::todo::entry_todos;
use crate::progress::todo::first_refused;
use crate::progress::todo::lemma_first_refused;
use crate::progress::todo::op_add;
use crate::progress::todo::op_done;
use crate::progress::todo::op_reset;
use crate::progress::todo::op_status;
use crate::progress::todo::referenced_todo;
use crate::progress::todo::reset_entry;
use crate::progress::todo::todo_op;
use crate::progress::todo::todo_position;
use crate::progress::todo::without_todo;
use crate::text::begins_with;
use crate::text::find_char;
use crate::text::lemma_find_char;
use crate::text::lemma_lines_behind;
use crate::text::lemma_trimmed;
use crate::text::lemma_trimmed_end;
use crate::text::lines_from;
use crate::text::trimmed;
use crate::text::white_space;
use crate::text::without_cr;

verus! {

/// The numbers of the to-dos are strictly increasing, and none is still to be
/// handed out.
pub open spec fn todos_numbered(todo: Seq<TodoItemView>, next: nat) -> bool {
    &&& forall|i: int| 0 <= i < todo.len() ==> (#[trigger] todo[i]).id < next
    &&& forall|i: int, j: int|
        #![trigger todo[i], todo[j]]
        0 <= i < j < todo.len() ==> todo[i].id < todo[j].id
}

/// The numbers of the assumptions are strictly increasing, and none is still to
/// be handed out.
pub open spec fn assumptions_numbered(list: Seq<AssumptionView>, next: nat) -> bool {
    &&& forall|i: int| 0 <= i < list.len() ==> (#[trigger] list[i]).id < next
    &&& forall|i: int, j: int|
        #![trigger list[i], list[j]]
        0 <= i < j < list.len() ==> list[i].id < list[j].id
}

/// No to-do has the number of an assumption.
pub open spec fn numbered_apart(todo: Seq<TodoItemView>, list: Seq<AssumptionView>) -> bool {
    forall|i: int, j: int|
        #![trigger todo[i], list[j]]
        0 <= i < todo.len() && 0 <= j < list.len() ==> todo[i].id != list[j].id
}

/// The blocked to-dos are those that say why they are blocked.
pub open spec fn blocked_with_reason(todo: Seq<TodoItemView>) -> bool {
    forall|i: int|
        0 <= i < todo.len() ==> ((#[trigger] todo[i]).status is Blocked <==> todo[i].blocked_reason
            is Some)
}

/// A sound progress: every number is in use once and the lists are in the order
/// of their numbers, a to-do is blocked exactly when it says why, and the files are in ascending order without repetition.
pub open spec fn progress_sound(p: ProgressView) -> bool {
    &&& todos_numbered(p.todo, p.todo_id_seq)
    &&& assumptions_numbered(p.assumptions, p.todo_id_seq)
    &&& numbered_apart(p.todo, p.assumptions)
    &&& blocked_with_reason(p.todo)
    &&& ascending(p.files_touched)
}

/// A number that a to-do has.
pub open spec fn has_todo(todo: Seq<TodoItemView>, id: u64) -> bool {
    exists|i: int| 0 <= i < todo.len() && (#[trigger] todo[i]).id == id
}

/// A number and a text that a to-do has.
pub open spec fn has_todo_saying(todo: Seq<TodoItemView>, id: u64, text: Seq<char>) -> bool {
    exists|i: int| 0 <= i < todo.len() && (#[trigger] todo[i]).id == id && todo[i].text == text
}

/// A number that an assumption has.
pub open spec fn has_assumption(list: Seq<AssumptionView>, id: u64) -> bool {
    exists|i: int| 0 <= i < list.len() && (#[trigger] list[i]).id == id
}

/// The to-dos of one list are under the numbers that they had in another one, or
/// under numbers that were not handed out when the other one stood.
pub open spec fn numbers_from(new: Seq<TodoItemView>, old: Seq<TodoItemView>, next: nat) -> bool {
    forall|i: int|
        0 <= i < new.len() ==> has_todo_saying(old, (#[trigger] new[i]).id, new[i].text)
            || new[i].id >= next
}

/// The numbers in one list of assumptions are those of another, or were not
/// handed out when the other one stood.
pub open spec fn assumption_numbers_from(
    new: Seq<AssumptionView>,
    old: Seq<AssumptionView>,
    next: nat,
) -> bool {
    forall|i: int|
        0 <= i < new.len() ==> has_assumption(old, (#[trigger] new[i]).id) || new[i].id >= next
}

pub proof fn lemma_todo_position(todo: Seq<TodoItemView>, id: u64, from: int)
    requires
        0 <= from <= todo.len(),
    ensures
        from <= todo_position(todo, id, from) <= todo.len(),
        todo_position(todo, id, from) < todo.len() ==> todo[todo_position(todo, id, from)].id
            == id,
        forall|i: int|
            from <= i < todo_position(todo, id, from) ==> (#[trigger] todo[i]).id != id,
    decreases todo.len() - from,
{
    if from < todo.len() && todo[from].id != id {
        lemma_todo_position(todo, id, from + 1);
    }
}

pub proof fn lemma_assumption_position(list: Seq<AssumptionView>, id: u64, from: int)
    requires
        0 <= from <= list.len(),
    ensures
        from <= assumption_position(list, id, from) <= list.len(),
        assumption_position(list, id, from) < list.len() ==> list[assumption_position(
            list,
            id,
            from,
        )].id == id,
        forall|i: int|
            from <= i < assumption_position(list, id, from) ==> (#[trigger] list[i]).id != id,
    decreases list.len() - from,
{
    if from < list.len() && list[from].id != id {
        lemma_assumption_position(list, id, from + 1);
    }
}

/// Dropping a to-do leaves the others as they were and in their order, and no
/// to-do with the number.
pub proof fn law_dropped_todo_is_gone(todo: Seq<TodoItemView>, id: u64)
    ensures
        without_todo(todo, id) == todo.filter(|t: TodoItemView| t.id != id),
        !has_todo(without_todo(todo, id), id),
    decreases todo.len(),
{
    let keep = |t: TodoItemView| t.id != id;
    reveal(Seq::filter);
    if todo.len() > 0 {
        law_dropped_todo_is_gone(todo.drop_last(), id);
    }
    let rest = without_todo(todo, id);
    if has_todo(rest, id) {
        let i = choose|i: int| 0 <= i < rest.len() && (#[trigger] rest[i]).id == id;
        if todo.last().id == id {
            assert(has_todo(without_todo(todo.drop_last(), id), id));
        } else if i < rest.len() - 1 {
            let before = without_todo(todo.drop_last(), id);
            assert(before[i].id == id);
            assert(has_todo(before, id));
        }
    }
}

proof fn lemma_without_todo(todo: Seq<TodoItemView>, id: u64, next: nat)
    requires
        todos_numbered(todo, next),
        blocked_with_reason(todo),
    ensures
        todos_numbered(without_todo(todo, id), next),
        blocked_with_reason(without_todo(todo, id)),
        numbers_from(without_todo(todo, id), todo, next),
    decreases todo.len(),
{
    if todo.len() > 0 {
        let rest = todo.drop_last();
        assert(todos_numbered(rest, next)) by {
            assert forall|i: int, j: int|
                #![trigger rest[i], rest[j]]
                0 <= i < j < rest.len() implies rest[i].id < rest[j].id by {
                assert(rest[i] == todo[i] && rest[j] == todo[j]);
            }
            assert forall|i: int| 0 <= i < rest.len() implies (#[trigger] rest[i]).id < next by {
                assert(rest[i] == todo[i]);
            }
        }
        assert(blocked_with_reason(rest)) by {
            assert forall|i: int| 0 <= i < rest.len() implies ((#[trigger] rest[i]).status is Blocked
                <==> rest[i].blocked_reason is Some) by {
                assert(rest[i] == todo[i]);
            }
        }
        lemma_without_todo(rest, id, next);
        let before = without_todo(rest, id);
        let last = todo.len() - 1;
        assert(todo[last] == todo.last());
        assert forall|i: int| 0 <= i < before.len() implies has_todo_saying(
            todo,
            (#[trigger] before[i]).id,
            before[i].text,
        ) && before[i].id < todo.last().id by {
            let k = choose|k: int|
                0 <= k < rest.len() && (#[trigger] rest[k]).id == before[i].id && rest[k].text
                    == before[i].text;
            assert(todo[k] == rest[k]);
        }
        let after = without_todo(todo, id);
        assert forall|i: int| 0 <= i < after.len() implies has_todo_saying(
            todo,
            (#[trigger] after[i]).id,
            after[i].text,
        ) by {
            if i < before.len() {
                assert(after[i] == before[i]);
            } else {
                assert(after[i] == todo[last]);
            }
        }
    }
}

proof fn lemma_update_keeps(p: ProgressView, i: int, item: TodoItemView)
    requires
        progress_sound(p),
        0 <= i < p.todo.len(),
        item.id == p.todo[i].id,
        item.text == p.todo[i].text,
        item.status is Blocked <==> item.blocked_reason is Some,
    ensures
        progress_sound(ProgressView { todo: p.todo.update(i, item), ..p }),
        numbers_from(p.todo.update(i, item), p.todo, p.todo_id_seq),
{
    let todo = p.todo.update(i, item);
    assert forall|k: int| 0 <= k < todo.len() implies (#[trigger] todo[k]).id == p.todo[k].id
        && todo[k].text == p.todo[k].text by {}
    assert forall|a: int, b: int|
        #![trigger todo[a], p.assumptions[b]]
        0 <= a < todo.len() && 0 <= b < p.assumptions.len() implies todo[a].id
        != p.assumptions[b].id by {
        assert(p.todo[a].id != p.assumptions[b].id);
    }
    assert forall|k: int| 0 <= k < todo.len() implies has_todo_saying(
        p.todo,
        (#[trigger] todo[k]).id,
        todo[k].text,
    ) by {
        assert(p.todo[k].id == todo[k].id);
    }
}

proof fn lemma_kept_numbers(p: ProgressView)
    ensures
        numbers_from(p.todo, p.todo, p.todo_id_seq),
{
    assert forall|k: int| 0 <= k < p.todo.len() implies has_todo_saying(
        p.todo,
        (#[trigger] p.todo[k]).id,
        p.todo[k].text,
    ) by {}
}

proof fn lemma_entry_todos(items: Seq<JsonView>, first: nat, i: int)
    requires
        0 <= i < items.len(),
        first_refused(items, 0) == items.len(),
        first + items.len() <= u64::MAX,
    ensures
        entry_todos(items, first, items.len() as int)[i].id == first + i,
        ({
            let t = entry_todos(items, first, items.len() as int)[i];
            t.status is Blocked <==> t.blocked_reason is Some
        }),
{
    lemma_none_refused(items, 0, i);
}

pub proof fn lemma_none_refused(items: Seq<JsonView>, from: int, i: int)
    requires
        0 <= from <= i < items.len(),
        first_refused(items, from) == items.len(),
    ensures
        !(reset_entry(items[i]) is Refused),
    decreases i - from,
{
    if from < i {
        lemma_none_refused(items, from + 1, i);
    }
}

/// A to-do operation keeps the progress sound, and the to-dos after it are those
/// before it, each under its number, or stand under numbers that were not handed
/// out before.
pub proof fn law_todo_op_keeps_sound(p: ProgressView, op: JsonView)
    requires
        progress_sound(p),
        todo_op(p, op).todo_id_seq <= u64::MAX,
    ensures
        progress_sound(todo_op(p, op)),
        numbers_from(todo_op(p, op).todo, p.todo, p.todo_id_seq),
        todo_op(p, op).assumptions == p.assumptions,
{
    lemma_kept_numbers(p);
    if text_field(op, "op"@) is Some {
        let kind = text_field(op, "op"@)->Some_0;
        if let Some(id) = referenced_todo(op) {
            lemma_todo_position(p.todo, id, 0);
        }
        if kind == "add"@ {
            lemma_add(p, op);
        } else if kind == "done"@ {
            if referenced_todo(op) is Some {
                let i = todo_position(p.todo, referenced_todo(op)->Some_0, 0);
                if i < p.todo.len() {
                    lemma_update_keeps(p, i, op_done(p, op).todo[i]);
                }
            }
        } else if kind == "drop"@ {
            if referenced_todo(op) is Some {
                lemma_drop(p, referenced_todo(op)->Some_0);
            }
        } else if kind == "status"@ {
            if referenced_todo(op) is Some {
                let i = todo_position(p.todo, referenced_todo(op)->Some_0, 0);
                if i < p.todo.len() {
                    lemma_update_keeps(p, i, op_status(p, op).todo[i]);
                    assert(p.todo.update(i, op_status(p, op).todo[i]) =~= op_status(p, op).todo);
                }
            }
        } else if kind == "reset"@ {
            lemma_reset(p, op);
        }
    }
}

proof fn lemma_add(p: ProgressView, op: JsonView)
    requires
        progress_sound(p),
        op_add(p, op).todo_id_seq <= u64::MAX,
    ensures
        progress_sound(op_add(p, op)),
        numbers_from(op_add(p, op).todo, p.todo, p.todo_id_seq),
{
    let q = op_add(p, op);
    lemma_kept_numbers(p);
    if text_field(op, "text"@) is Some {
        let n = p.todo.len() as int;
        assert forall|k: int| 0 <= k < n implies q.todo[k] == p.todo[k] by {}
        assert(q.todo[n].id == p.todo_id_seq);
        assert forall|a: int, b: int|
            #![trigger q.todo[a], q.assumptions[b]]
            0 <= a < q.todo.len() && 0 <= b < q.assumptions.len() implies q.todo[a].id
            != q.assumptions[b].id by {
            if a < n {
                assert(p.todo[a].id != p.assumptions[b].id);
            }
        }
        assert forall|k: int| 0 <= k < q.todo.len() implies has_todo_saying(
            p.todo,
            (#[trigger] q.todo[k]).id,
            q.todo[k].text,
        ) || q.todo[k].id >= p.todo_id_seq by {
            if k < n {
                assert(p.todo[k].id == q.todo[k].id);
            }
        }
    }
}

proof fn lemma_drop(p: ProgressView, id: u64)
    requires
        progress_sound(p),
    ensures
        progress_sound(ProgressView { todo: without_todo(p.todo, id), ..p }),
        numbers_from(without_todo(p.todo, id), p.todo, p.todo_id_seq),
{
    lemma_without_todo(p.todo, id, p.todo_id_seq);
    let todo = without_todo(p.todo, id);
    assert forall|a: int, b: int|
        #![trigger todo[a], p.assumptions[b]]
        0 <= a < todo.len() && 0 <= b < p.assumptions.len() implies todo[a].id
        != p.assumptions[b].id by {
        let k = choose|k: int|
            0 <= k < p.todo.len() && (#[trigger] p.todo[k]).id == todo[a].id && p.todo[k].text
                == todo[a].text;
        assert(p.todo[k].id != p.assumptions[b].id);
    }
}

proof fn lemma_reset(p: ProgressView, op: JsonView)
    requires
        progress_sound(p),
        op_reset(p, op).todo_id_seq <= u64::MAX,
    ensures
        progress_sound(op_reset(p, op)),
        numbers_from(op_reset(p, op).todo, p.todo, p.todo_id_seq),
{
    let q = op_reset(p, op);
    lemma_kept_numbers(p);
    if let Some(items) = list_field(op, "items"@) {
        lemma_first_refused(items, 0);
        if items.len() > 0 && first_refused(items, 0) == items.len() {
            assert forall|k: int| 0 <= k < q.todo.len() implies (#[trigger] q.todo[k]).id
                == p.todo_id_seq + k && (q.todo[k].status is Blocked <==> q.todo[k].blocked_reason
                is Some) by {
                lemma_entry_todos(items, p.todo_id_seq, k);
            }
        }
    }
}

/// A reported assumption keeps the progress sound, and the numbers of the
/// assumptions after it are those before it or were not handed out before.
pub proof fn law_assumption_keeps_sound(p: ProgressView, doc: JsonView)
    requires
        progress_sound(p),
        assumption_op(p, doc).todo_id_seq <= u64::MAX,
    ensures
        progress_sound(assumption_op(p, doc)),
        assumption_op(p, doc).todo == p.todo,
        assumption_numbers_from(assumption_op(p, doc).assumptions, p.assumptions, p.todo_id_seq),
{
    let q = assumption_op(p, doc);
    if let Some(id) = u64_field(doc, "id"@) {
        lemma_assumption_position(p.assumptions, id, 0);
    }
    assert forall|k: int| 0 <= k < q.assumptions.len() implies (#[trigger] q.assumptions[k]).id == (
    if k < p.assumptions.len() {
        p.assumptions[k].id as nat
    } else {
        p.todo_id_seq
    }) by {}
    assert forall|a: int, b: int|
        #![trigger q.todo[a], q.assumptions[b]]
        0 <= a < q.todo.len() && 0 <= b < q.assumptions.len() implies q.todo[a].id
        != q.assumptions[b].id by {
        if b < p.assumptions.len() {
            assert(p.todo[a].id != p.assumptions[b].id);
        }
    }
    assert forall|a: int, b: int|
        #![trigger q.assumptions[a], q.assumptions[b]]
        0 <= a < b < q.assumptions.len() implies q.assumptions[a].id < q.assumptions[b].id by {
        if b < p.assumptions.len() {
            assert(p.assumptions[a].id < p.assumptions[b].id);
        } else {
            assert(p.assumptions[a].id < p.todo_id_seq);
        }
    }
    assert forall|k: int| 0 <= k < q.assumptions.len() implies has_assumption(
        p.assumptions,
        (#[trigger] q.assumptions[k]).id,
    ) || q.assumptions[k].id >= p.todo_id_seq by {
        if k < p.assumptions.len() {
            assert(p.assumptions[k].id == q.assumptions[k].id);
        }
    }
}

/// One thing that a model reports: a to-do operation or an assumption.
pub enum Report {
    Todo(JsonView),
    Assumption(JsonView),
}

/// The progress after one report.
pub open spec fn reported(p: ProgressView, report: Report) -> ProgressView {
    match report {
        Report::Todo(op) => todo_op(p, op),
        Report::Assumption(doc) => assumption_op(p, doc),
    }
}

/// The progress after reports in order.
pub open spec fn after_reports(p: ProgressView, reports: Seq<Report>) -> ProgressView
    decreases reports.len(),
{
    if reports.len() == 0 {
        p
    } else {
        reported(after_reports(p, reports.drop_last()), reports.last())
    }
}

proof fn lemma_after_reports_grows(p: ProgressView, reports: Seq<Report>)
    ensures
        p.todo_id_seq <= after_reports(p, reports).todo_id_seq,
        reports.len() > 0 ==> after_reports(p, reports.drop_last()).todo_id_seq <= after_reports(
            p,
            reports,
        ).todo_id_seq,
    decreases reports.len(),
{
    if reports.len() > 0 {
        lemma_after_reports_grows(p, reports.drop_last());
        if let Report::Todo(op) = reports.last() {
            lemma_todo_op_counts(after_reports(p, reports.drop_last()), op);
        }
    }
}

/// Whatever a model reports in whatever order, the progress stays sound, and a
/// number once handed out is never given to another entry: a to-do under an old
/// number is the to-do that had it, with the same text, and an assumption under
/// an old number is an assumption that had it.
pub proof fn law_numbers_are_given_once(p: ProgressView, reports: Seq<Report>)
    requires
        progress_sound(p),
        after_reports(p, reports).todo_id_seq <= u64::MAX,
    ensures
        progress_sound(after_reports(p, reports)),
        numbers_from(after_reports(p, reports).todo, p.todo, p.todo_id_seq),
        assumption_numbers_from(
            after_reports(p, reports).assumptions,
            p.assumptions,
            p.todo_id_seq,
        ),
    decreases reports.len(),
{
    lemma_kept_numbers(p);
    assert forall|k: int| 0 <= k < p.assumptions.len() implies has_assumption(
        p.assumptions,
        (#[trigger] p.assumptions[k]).id,
    ) by {}
    if reports.len() > 0 {
        let mid = after_reports(p, reports.drop_last());
        let end = after_reports(p, reports);
        lemma_after_reports_grows(p, reports);
        lemma_after_reports_grows(p, reports.drop_last());
        law_numbers_are_given_once(p, reports.drop_last());
        match reports.last() {
            Report::Todo(op) => law_todo_op_keeps_sound(mid, op),
            Report::Assumption(doc) => law_assumption_keeps_sound(mid, doc),
        }
        lemma_kept_numbers(mid);
        assert forall|i: int| 0 <= i < end.todo.len() implies has_todo_saying(
            p.todo,
            (#[trigger] end.todo[i]).id,
            end.todo[i].text,
        ) || end.todo[i].id >= p.todo_id_seq by {
            if has_todo_saying(mid.todo, end.todo[i].id, end.todo[i].text) {
                let k = choose|k: int|
                    0 <= k < mid.todo.len() && (#[trigger] mid.todo[k]).id == end.todo[i].id
                        && mid.todo[k].text == end.todo[i].text;
                assert(has_todo_saying(p.todo, mid.todo[k].id, mid.todo[k].text) || mid.todo[k].id
                    >= p.todo_id_seq);
            }
        }
        assert forall|i: int| 0 <= i < end.assumptions.len() implies has_assumption(
            p.assumptions,
            (#[trigger] end.assumptions[i]).id,
        ) || end.assumptions[i].id >= p.todo_id_seq by {
            if reports.last() is Todo {
                assert(mid.assumptions[i] == end.assumptions[i]);
            } else if has_assumption(mid.assumptions, end.assumptions[i].id) {
                let k = choose|k: int|
                    0 <= k < mid.assumptions.len() && (#[trigger] mid.assumptions[k]).id
                        == end.assumptions[i].id;
                assert(has_assumption(p.assumptions, mid.assumptions[k].id)
                    || mid.assumptions[k].id >= p.todo_id_seq);
            }
        }
    }
}

proof fn lemma_todo_ops_sound(p: ProgressView, ops: Seq<JsonView>)
    requires
        progress_sound(p),
        todo_ops(p, ops).todo_id_seq <= u64::MAX,
    ensures
        progress_sound(todo_ops(p, ops)),
    decreases ops.len(),
{
    if ops.len() > 0 {
        lemma_todo_op_counts(todo_ops(p, ops.drop_last()), ops.last());
        lemma_todo_ops_sound(p, ops.drop_last());
        law_todo_op_keeps_sound(todo_ops(p, ops.drop_last()), ops.last());
    }
}

proof fn lemma_assumption_ops_sound(p: ProgressView, list: Seq<JsonView>)
    requires
        progress_sound(p),
        assumption_ops(p, list).todo_id_seq <= u64::MAX,
    ensures
        progress_sound(assumption_ops(p, list)),
    decreases list.len(),
{
    if list.len() > 0 {
        lemma_assumption_ops_sound(p, list.drop_last());
        law_assumption_keeps_sound(assumption_ops(p, list.drop_last()), list.last());
    }
}

/// A progress without any entries is sound.
pub proof fn law_fresh_progress_is_sound(p: ProgressView)
    requires
        no_progress(p),
    ensures
        progress_sound(p),
{
}

/// A patch keeps the progress sound, whatever it says.
pub proof fn law_patch_keeps_sound(p: ProgressView, patch: JsonView)
    requires
        progress_sound(p),
        patched(p, patch).todo_id_seq <= u64::MAX,
    ensures
        progress_sound(patched(p, patch)),
{
    let q = with_intent(p, patch);
    assert(progress_sound(q));
    lemma_patch_counts(p, patch);
    if let Some(ops) = list_field(patch, "todo_ops"@) {
        lemma_todo_ops_sound(q, ops);
    }
    if let Some(list) = list_field(patch, "assumptions"@) {
        lemma_assumption_ops_sound(with_todos(p, patch), list);
    }
}

proof fn lemma_assumption_ops_grow(p: ProgressView, list: Seq<JsonView>)
    ensures
        p.todo_id_seq <= assumption_ops(p, list).todo_id_seq,
        assumption_ops(p, list).digest_seq == p.digest_seq,
        assumption_ops(p, list).intent == p.intent,
    decreases list.len(),
{
    if list.len() > 0 {
        lemma_assumption_ops_grow(p, list.drop_last());
    }
}

proof fn lemma_todo_ops_grow(p: ProgressView, ops: Seq<JsonView>)
    ensures
        p.todo_id_seq <= todo_ops(p, ops).todo_id_seq,
        todo_ops(p, ops).digest_seq == p.digest_seq,
        todo_ops(p, ops).intent == p.intent,
    decreases ops.len(),
{
    if ops.len() > 0 {
        lemma_todo_ops_grow(p, ops.drop_last());
        lemma_todo_op_counts(todo_ops(p, ops.drop_last()), ops.last());
    }
}

proof fn lemma_patch_counts(p: ProgressView, patch: JsonView)
    ensures
        p.todo_id_seq <= with_todos(p, patch).todo_id_seq <= patched(p, patch).todo_id_seq,
        patched(p, patch).digest_seq == with_intent(p, patch).digest_seq,
        patched(p, patch).intent == with_intent(p, patch).intent,
{
    if let Some(ops) = list_field(patch, "todo_ops"@) {
        lemma_todo_ops_grow(with_intent(p, patch), ops);
    }
    if let Some(list) = list_field(patch, "assumptions"@) {
        lemma_assumption_ops_grow(with_todos(p, patch), list);
    }
}

/// Numbers are never handed out again: a patch never sets their counter back.
pub proof fn law_numbers_never_go_back(p: ProgressView, patch: JsonView)
    ensures
        patched(p, patch).todo_id_seq >= p.todo_id_seq,
        patched(p, patch).digest_seq >= p.digest_seq,
{
    lemma_patch_counts(p, patch);
}

/// A to-do operation that is answered by a warning changes nothing but the
/// warnings and the numbers left, and one that changes the to-dos is not
/// answered by a warning.
pub proof fn law_refused_op_changes_no_todo(p: ProgressView, op: JsonView)
    ensures
        todo_op(p, op).warnings.len() > p.warnings.len() ==> todo_op(p, op) == (ProgressView {
            warnings: todo_op(p, op).warnings,
            todo_id_seq: todo_op(p, op).todo_id_seq,
            ..p
        }),
        todo_op(p, op).warnings.len() <= p.warnings.len() ==> todo_op(p, op) == (ProgressView {
            todo: todo_op(p, op).todo,
            todo_id_seq: todo_op(p, op).todo_id_seq,
            ..p
        }),
        p.warnings.is_prefix_of(todo_op(p, op).warnings),
{
}

/// An assumption that is answered by a warning changes nothing else.
pub proof fn law_refused_assumption_changes_nothing(p: ProgressView, doc: JsonView)
    ensures
        assumption_op(p, doc).warnings.len() > p.warnings.len() ==> assumption_op(p, doc) == (
        ProgressView { warnings: assumption_op(p, doc).warnings, ..p }),
        p.warnings.is_prefix_of(assumption_op(p, doc).warnings),
{
}

/// An intent that is given up is not lost: the patch that replaces it stores it,
/// and each entry that a patch stores takes one digest number.
pub proof fn law_old_intent_is_kept(p: ProgressView, patch: JsonView, turn: TurnRefView)
    requires
        p.digest_seq <= u64::MAX,
    ensures
        p.intent is Some && patched(p, patch).intent != p.intent ==> ({
            let kept = patch_digests(p, patch, turn);
            &&& kept.len() == 1
            &&& kept[0].intent_history.len() == 1
            &&& kept[0].intent_history[0].old == p.intent->Some_0
            &&& kept[0].intent_history[0].turn_ref == turn
            &&& kept[0].entry.sequence == p.digest_seq
        }),
        patched(p, patch).digest_seq == p.digest_seq + patch_digests(p, patch, turn).len(),
{
    lemma_patch_counts(p, patch);
}

/// Adding files keeps the list in ascending order and adds those files and no
/// others.
pub proof fn law_with_files(files: Seq<Seq<char>>, paths: Seq<Seq<char>>)
    requires
        ascending(files),
    ensures
        ascending(with_files(files, paths)),
        forall|f: Seq<char>|
            with_files(files, paths).contains(f) <==> (files.contains(f) || paths.contains(f)),
    decreases paths.len(),
{
    if paths.len() > 0 {
        let rest = paths.drop_last();
        law_with_files(files, rest);
        law_with_file(with_files(files, rest), paths.last());
        assert forall|f: Seq<char>| paths.contains(f) <==> (rest.contains(f) || f == paths.last()) by {
            if paths.contains(f) {
                let k = choose|k: int| 0 <= k < paths.len() && paths[k] == f;
                if k < rest.len() {
                    assert(rest[k] == f);
                }
            }
            if rest.contains(f) {
                let k = choose|k: int| 0 <= k < rest.len() && rest[k] == f;
                assert(paths[k] == f);
            }
            assert(paths[paths.len() - 1] == paths.last());
        }
    }
}

proof fn lemma_line_paths_add(a: Seq<Seq<char>>, b: Seq<Seq<char>>)
    ensures
        line_paths(a + b) == line_paths(a) + line_paths(b),
    decreases b.len(),
{
    if b.len() == 0 {
        assert(a + b =~= a);
    } else {
        lemma_line_paths_add(a, b.drop_last());
        assert((a + b).drop_last() =~= a + b.drop_last());
        assert((a + b).last() == b.last());
    }
}

proof fn lemma_line_path(line: Seq<char>)
    ensures
        line_paths(seq![line]) == line_paths(seq![without_cr(line)]),
{
    if without_cr(line) != line {
        assert(line.subrange(0, line.len() - 1) =~= line.drop_last());
        lemma_trimmed_end(line);
    }
    assert(seq![line].drop_last() =~= Seq::<Seq<char>>::empty());
    assert(seq![without_cr(line)].drop_last() =~= Seq::<Seq<char>>::empty());
}

proof fn lemma_joined_paths(a: Seq<char>, b: Seq<char>, from: int)
    requires
        0 <= from <= a.len(),
    ensures
        line_paths(lines_from(a + seq!['\n'] + b, from)) == line_paths(lines_from(a, from))
            + patch_paths(b),
    decreases a.len() - from,
{
    let whole = a + seq!['\n'] + b;
    let n = a.len() as int;
    lemma_find_char(a, '\n', from);
    lemma_find_char(whole, '\n', from);
    let end = find_char(a, '\n', from);
    assert(whole[n] == '\n');
    assert(find_char(whole, '\n', from) == end) by {
        let other = find_char(whole, '\n', from);
        if other < end {
            assert(whole[other] == a[other]);
        } else if other > end && end < n {
            assert(whole[end] == a[end]);
        }
    }
    let line = a.subrange(from, end);
    assert(whole.subrange(from, end) =~= line);
    if end < n {
        lemma_joined_paths(a, b, end + 1);
        let first = seq![without_cr(line)];
        lemma_line_paths_add(first, lines_from(whole, end + 1));
        lemma_line_paths_add(first, lines_from(a, end + 1));
        assert(line_paths(lines_from(whole, from)) =~= line_paths(lines_from(a, from))
            + patch_paths(b));
    } else {
        let first = seq![without_cr(line)];
        lemma_lines_behind(a + seq!['\n'], b, 0);
        lemma_line_paths_add(first, lines_from(whole, n + 1));
        lemma_line_path(line);
        if from == n {
            assert(line =~= Seq::<char>::empty());
            assert(lines_from(a, from) =~= Seq::<Seq<char>>::empty());
            assert(first.drop_last() =~= Seq::<Seq<char>>::empty());
            lemma_blank_line();
        }
        assert(line_paths(lines_from(whole, from)) =~= line_paths(lines_from(a, from))
            + patch_paths(b));
    }
}

proof fn lemma_blank_line()
    ensures
        line_paths(seq![Seq::<char>::empty()]) == Seq::<Seq<char>>::empty(),
{
    reveal_strlit("*** Add File:");
    reveal_strlit("*** Update File:");
    reveal_strlit("*** Delete File:");
    let none = Seq::<char>::empty();
    assert(trimmed(none) == none);
    assert(!begins_with(none, "*** Add File:"@));
    assert(!begins_with(none, "*** Update File:"@));
    assert(!begins_with(none, "*** Delete File:"@));
    assert(patch_path(none) is None);
    assert(seq![none].last() == none);
    assert(seq![none].drop_last() =~= Seq::<Seq<char>>::empty());
    assert(line_paths(Seq::<Seq<char>>::empty()) =~= Seq::<Seq<char>>::empty());
}

/// The paths of two patch texts joined by a line break are those of both, in
/// order and with repetitions.
pub proof fn law_joined_patches_name_both(a: Seq<char>, b: Seq<char>)
    ensures
        patch_paths(a + seq!['\n'] + b) == patch_paths(a) + patch_paths(b),
{
    lemma_joined_paths(a, b, 0);
}

/// A path that a patch names is not empty and has no white space at either end.
pub proof fn law_patch_paths_are_trimmed(input: Seq<char>, i: int)
    requires
        0 <= i < patch_paths(input).len(),
    ensures
        patch_paths(input)[i].len() > 0,
        !white_space(patch_paths(input)[i][0]),
        !white_space(patch_paths(input)[i].last()),
{
    lemma_line_paths_trimmed(lines_from(input, 0), i);
}

proof fn lemma_line_paths_trimmed(lines: Seq<Seq<char>>, i: int)
    requires
        0 <= i < line_paths(lines).len(),
    ensures
        line_paths(lines)[i].len() > 0,
        !white_space(line_paths(lines)[i][0]),
        !white_space(line_paths(lines)[i].last()),
    decreases lines.len(),
{
    let before = line_paths(lines.drop_last());
    if i < before.len() {
        lemma_line_paths_trimmed(lines.drop_last(), i);
    } else {
        let l = trimmed(lines.last());
        lemma_trimmed(l.skip("*** Add File:"@.len() as int));
        lemma_trimmed(l.skip("*** Update File:"@.len() as int));
        lemma_trimmed(l.skip("*** Delete File:"@.len() as int));
    }
}

/// A brief is never longer than its bound, begins and ends as the text does, and
/// is its own brief.
pub proof fn law_brief_is_bounded(s: Seq<char>)
    ensures
        brief_of(s).len() <= BRIEF_MAX,
        brief_of(brief_of(s)) == brief_of(s),
        s.len() <= BRIEF_MAX ==> brief_of(s) == s,
        s.len() > BRIEF_MAX ==> {
            &&& brief_of(s).take(BRIEF_EDGE as int) == s.take(BRIEF_EDGE as int)
            &&& brief_of(s).skip(brief_of(s).len() - BRIEF_EDGE) == s.skip(s.len() - BRIEF_EDGE)
        },
{
    reveal_strlit("…");
}

} // verus!
