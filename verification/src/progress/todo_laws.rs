//! What each report of a model does to the to-dos and the assumptions, told from
//! the document that the model sends.

use vstd::prelude::*;
use vstd::string::*;

use crate::json::law_fields_are_read_by_key;
use crate::json::law_missing_fields_are_none;
use crate::json::says;
use crate::json::Fields;
use crate::json::JsonView;
use crate::progress::channel::after_result;
use crate::progress::channel::assumption_ops;
use crate::progress::channel::patch_digests;
use crate::progress::channel::patched;
use crate::progress::channel::todo_ops;
use crate::progress::channel::touched_paths;
use crate::progress::laws::law_dropped_todo_is_gone;
use crate::progress::laws::lemma_assumption_position;
use crate::progress::laws::lemma_none_refused;
use crate::progress::laws::lemma_todo_position;
use crate::progress::state::AssumptionStatus;
use crate::progress::state::AssumptionView;
use crate::progress::state::DigestKind;
use crate::progress::state::IntentChangeView;
use crate::progress::state::ProgressView;
use crate::progress::state::TodoItemView;
use crate::progress::state::TodoStatus;
use crate::progress::state::TurnRefView;
use crate::progress::todo::assumption_op;
use crate::progress::todo::assumption_position;
use crate::progress::todo::entry_todos;
use crate::progress::todo::first_refused;
use crate::progress::todo::referenced_todo;
use crate::progress::todo::reset_entry;
use crate::progress::todo::todo_op;
use crate::progress::todo::todo_position;
use crate::text::decimal;
use crate::text::law_blank_texts_are_white_space;
use crate::text::law_numerals_are_read_back;
use crate::text::white_space;

verus! {

/// Whether an object has a number under `id`.
pub open spec fn numbered(fields: Fields, id: u64) -> bool {
    fields.contains_pair("id"@, JsonView::Unsigned(id))
}

/// Whether an operation names a to-do: by its number, or by the letter `t` and
/// the number.
pub open spec fn names(fields: Fields, id: u64) -> bool {
    ||| numbered(fields, id)
    ||| fields.contains_pair("id"@, JsonView::Text(seq!['t'] + decimal(id as nat)))
}

/// Whether a to-do is the first one with a number.
pub open spec fn is_first(todo: Seq<TodoItemView>, k: int, id: u64) -> bool {
    &&& 0 <= k < todo.len()
    &&& todo[k].id == id
    &&& forall|j: int| 0 <= j < k ==> (#[trigger] todo[j]).id != id
}

/// Whether nothing but the to-do at one place differs.
pub open spec fn only_todo_differs(p: ProgressView, q: ProgressView, k: int) -> bool {
    &&& q == (ProgressView { todo: q.todo, ..p })
    &&& q.todo.len() == p.todo.len()
    &&& forall|j: int| 0 <= j < p.todo.len() && j != k ==> #[trigger] q.todo[j] == p.todo[j]
    &&& 0 <= k < p.todo.len() ==> q.todo[k].id == p.todo[k].id && q.todo[k].text == p.todo[k].text
}

proof fn lemma_op_words()
    ensures
        "add"@ != "done"@,
        "add"@ != "drop"@,
        "add"@ != "status"@,
        "add"@ != "reset"@,
        "done"@ != "drop"@,
        "done"@ != "status"@,
        "done"@ != "reset"@,
        "drop"@ != "status"@,
        "drop"@ != "reset"@,
        "status"@ != "reset"@,
{
    reveal_strlit("add");
    reveal_strlit("done");
    reveal_strlit("drop");
    reveal_strlit("status");
    reveal_strlit("reset");
    assert("add"@.len() != "done"@.len());
    assert("add"@.len() != "drop"@.len());
    assert("add"@.len() != "status"@.len());
    assert("add"@.len() != "reset"@.len());
    assert("done"@[1] != "drop"@[1]);
    assert("done"@.len() != "status"@.len());
    assert("done"@.len() != "reset"@.len());
    assert("drop"@.len() != "status"@.len());
    assert("drop"@.len() != "reset"@.len());
    assert("status"@.len() != "reset"@.len());
}

proof fn lemma_status_words()
    ensures
        "todo"@ != "doing"@,
        "todo"@ != "done"@,
        "todo"@ != "blocked"@,
        "doing"@ != "done"@,
        "doing"@ != "blocked"@,
        "done"@ != "blocked"@,
{
    reveal_strlit("todo");
    reveal_strlit("doing");
    reveal_strlit("done");
    reveal_strlit("blocked");
    assert("todo"@.len() != "doing"@.len());
    assert("todo"@[0] != "done"@[0]);
    assert("todo"@.len() != "blocked"@.len());
    assert("doing"@.len() != "done"@.len());
    assert("doing"@.len() != "blocked"@.len());
    assert("done"@.len() != "blocked"@.len());
}

proof fn lemma_first(todo: Seq<TodoItemView>, k: int, id: u64)
    requires
        is_first(todo, k, id),
    ensures
        todo_position(todo, id, 0) == k,
{
    lemma_todo_position(todo, id, 0);
    let i = todo_position(todo, id, 0);
    if k < i {
        assert(todo[k].id != id);
    } else if i < k {
        assert(todo[i].id != id);
    }
}

/// A to-do is meant by its number, bare or behind the letter `t`.
pub proof fn law_todos_are_meant_by_number(fields: Fields, id: u64)
    requires
        names(fields, id),
    ensures
        referenced_todo(JsonView::Fields(fields)) == Some(id),
{
    if fields.contains_pair("id"@, JsonView::Unsigned(id)) {
        law_fields_are_read_by_key(fields, "id"@, JsonView::Unsigned(id));
    } else {
        let s = seq!['t'] + decimal(id as nat);
        law_fields_are_read_by_key(fields, "id"@, JsonView::Text(s));
        assert(s.subrange(1, s.len() as int) =~= decimal(id as nat));
        law_numerals_are_read_back(id);
    }
}

/// An `add` puts a to-do that is still to be done, with its text and the next
/// number, behind the others, and changes nothing else.
pub proof fn law_added_todo_is_last(p: ProgressView, fields: Fields, text: Seq<char>)
    requires
        says(fields, "op"@, "add"@),
        says(fields, "text"@, text),
        p.todo_id_seq <= u64::MAX,
    ensures
        ({
            let q = todo_op(p, JsonView::Fields(fields));
            &&& q == (ProgressView { todo: q.todo, todo_id_seq: p.todo_id_seq + 1, ..p })
            &&& q.todo.len() == p.todo.len() + 1
            &&& q.todo.drop_last() == p.todo
            &&& q.todo.last().id == p.todo_id_seq
            &&& q.todo.last().text == text
            &&& q.todo.last().status == TodoStatus::Todo
            &&& q.todo.last().blocked_reason is None
        }),
{
    lemma_op_words();
    law_fields_are_read_by_key(fields, "op"@, JsonView::Text("add"@));
    law_fields_are_read_by_key(fields, "text"@, JsonView::Text(text));
    assert(todo_op(p, JsonView::Fields(fields)).todo.drop_last() =~= p.todo);
}

/// A `done` that names a to-do marks that to-do as done and no longer blocked, and
/// changes nothing else.
pub proof fn law_done_marks_the_named_todo(p: ProgressView, fields: Fields, id: u64, k: int)
    requires
        says(fields, "op"@, "done"@),
        names(fields, id),
        is_first(p.todo, k, id),
    ensures
        ({
            let q = todo_op(p, JsonView::Fields(fields));
            &&& only_todo_differs(p, q, k)
            &&& q.todo[k].status == TodoStatus::Done
            &&& q.todo[k].blocked_reason is None
        }),
{
    lemma_op_words();
    law_fields_are_read_by_key(fields, "op"@, JsonView::Text("done"@));
    law_todos_are_meant_by_number(fields, id);
    lemma_first(p.todo, k, id);
}

/// A `drop` that names a to-do takes it away, leaves the others in their order,
/// and changes nothing else.
pub proof fn law_drop_takes_the_named_todo(p: ProgressView, fields: Fields, id: u64, k: int)
    requires
        says(fields, "op"@, "drop"@),
        names(fields, id),
        is_first(p.todo, k, id),
    ensures
        ({
            let q = todo_op(p, JsonView::Fields(fields));
            &&& q == (ProgressView { todo: q.todo, ..p })
            &&& q.todo == p.todo.filter(|t: TodoItemView| t.id != id)
        }),
{
    lemma_op_words();
    law_fields_are_read_by_key(fields, "op"@, JsonView::Text("drop"@));
    law_todos_are_meant_by_number(fields, id);
    lemma_first(p.todo, k, id);
    law_dropped_todo_is_gone(p.todo, id);
}

/// Whether a word stands for a status.
pub open spec fn word_of(status: TodoStatus) -> Seq<char> {
    match status {
        TodoStatus::Todo => "todo"@,
        TodoStatus::Doing => "doing"@,
        TodoStatus::Done => "done"@,
        TodoStatus::Blocked => "blocked"@,
    }
}

/// A `status` that names a to-do gives it that status: with the reason when it is
/// blocked, and without one otherwise. Nothing else changes.
pub proof fn law_status_is_given_to_the_named_todo(
    p: ProgressView,
    fields: Fields,
    id: u64,
    k: int,
    status: TodoStatus,
    reason: Seq<char>,
)
    requires
        says(fields, "op"@, "status"@),
        says(fields, "status"@, word_of(status)),
        names(fields, id),
        is_first(p.todo, k, id),
        status is Blocked ==> says(fields, "reason"@, reason),
    ensures
        ({
            let q = todo_op(p, JsonView::Fields(fields));
            &&& only_todo_differs(p, q, k)
            &&& q.todo[k].status == status
            &&& status is Blocked ==> q.todo[k].blocked_reason == Some(reason)
            &&& !(status is Blocked) ==> q.todo[k].blocked_reason is None
        }),
{
    lemma_op_words();
    lemma_status_words();
    law_fields_are_read_by_key(fields, "op"@, JsonView::Text("status"@));
    law_fields_are_read_by_key(fields, "status"@, JsonView::Text(word_of(status)));
    law_todos_are_meant_by_number(fields, id);
    lemma_first(p.todo, k, id);
    if status is Blocked {
        law_fields_are_read_by_key(fields, "reason"@, JsonView::Text(reason));
    }
}

/// A to-do is not blocked without a reason: the operation is answered by one
/// warning and changes nothing else.
pub proof fn law_blocked_needs_a_reason(p: ProgressView, fields: Fields, id: u64, k: int)
    requires
        says(fields, "op"@, "status"@),
        says(fields, "status"@, "blocked"@),
        names(fields, id),
        is_first(p.todo, k, id),
        !fields.dom().contains("reason"@),
    ensures
        ({
            let q = todo_op(p, JsonView::Fields(fields));
            &&& q == (ProgressView { warnings: q.warnings, ..p })
            &&& q.warnings.len() == p.warnings.len() + 1
            &&& q.warnings.drop_last() == p.warnings
        }),
{
    lemma_op_words();
    lemma_status_words();
    law_fields_are_read_by_key(fields, "op"@, JsonView::Text("status"@));
    law_fields_are_read_by_key(fields, "status"@, JsonView::Text("blocked"@));
    law_todos_are_meant_by_number(fields, id);
    law_missing_fields_are_none(JsonView::Fields(fields), "reason"@);
    lemma_first(p.todo, k, id);
    assert(todo_op(p, JsonView::Fields(fields)).warnings.drop_last() =~= p.warnings);
}

/// An operation on a to-do that is not there is answered by one warning that
/// names the number, and changes nothing else.
pub proof fn law_unknown_todo_is_warned_of(p: ProgressView, fields: Fields, kind: Seq<char>, id: u64)
    requires
        kind == "done"@ || kind == "drop"@ || kind == "status"@,
        says(fields, "op"@, kind),
        names(fields, id),
        forall|i: int| 0 <= i < p.todo.len() ==> (#[trigger] p.todo[i]).id != id,
    ensures
        ({
            let q = todo_op(p, JsonView::Fields(fields));
            &&& q == (ProgressView { warnings: q.warnings, ..p })
            &&& q.warnings == p.warnings.push(
                "todo_op "@ + kind + ": id t"@ + decimal(id as nat) + " 不存在"@,
            )
        }),
{
    lemma_op_words();
    law_fields_are_read_by_key(fields, "op"@, JsonView::Text(kind));
    law_todos_are_meant_by_number(fields, id);
    lemma_todo_position(p.todo, id, 0);
    reveal_strlit("todo_op ");
    reveal_strlit("done");
    reveal_strlit("drop");
    reveal_strlit("status");
    reveal_strlit(": id t");
    reveal_strlit("todo_op done: id t");
    reveal_strlit("todo_op drop: id t");
    reveal_strlit("todo_op status: id t");
    assert("todo_op "@ + "done"@ + ": id t"@ =~= "todo_op done: id t"@);
    assert("todo_op "@ + "drop"@ + ": id t"@ =~= "todo_op drop: id t"@);
    assert("todo_op "@ + "status"@ + ": id t"@ =~= "todo_op status: id t"@);
}

/// Whether an entry of a `reset` is an object with a text and a status, and with
/// a reason when it is blocked.
pub open spec fn is_entry(
    item: JsonView,
    text: Seq<char>,
    status: TodoStatus,
    reason: Option<Seq<char>>,
) -> bool {
    item matches JsonView::Fields(fields) && {
        &&& says(fields, "text"@, text)
        &&& says(fields, "status"@, word_of(status))
        &&& reason matches Some(r) ==> says(fields, "reason"@, r)
        &&& status is Blocked <==> reason is Some
    }
}

proof fn lemma_entry(item: JsonView, text: Seq<char>, status: TodoStatus, reason: Option<Seq<char>>)
    requires
        is_entry(item, text, status, reason),
    ensures
        reset_entry(item) is Entry,
        reset_entry(item)->text == text,
        reset_entry(item)->status == status,
        reset_entry(item)->blocked_reason == reason,
{
    lemma_status_words();
    if let JsonView::Fields(fields) = item {
        law_fields_are_read_by_key(fields, "text"@, JsonView::Text(text));
        law_fields_are_read_by_key(fields, "status"@, JsonView::Text(word_of(status)));
        if let Some(r) = reason {
            law_fields_are_read_by_key(fields, "reason"@, JsonView::Text(r));
        }
    }
}

proof fn lemma_all_entries(items: Seq<JsonView>, from: int)
    requires
        0 <= from <= items.len(),
        forall|i: int| from <= i < items.len() ==> reset_entry(#[trigger] items[i]) is Entry,
    ensures
        first_refused(items, from) == items.len(),
    decreases items.len() - from,
{
    if from < items.len() {
        assert(reset_entry(items[from]) is Entry);
        lemma_all_entries(items, from + 1);
    }
}

/// A `reset` whose entries can all be taken replaces the to-dos by them, in their
/// order, each under a new number, and changes nothing else.
pub proof fn law_reset_replaces_the_todos(
    p: ProgressView,
    fields: Fields,
    items: Seq<JsonView>,
    wanted: Seq<TodoItemView>,
)
    requires
        says(fields, "op"@, "reset"@),
        fields.contains_pair("items"@, JsonView::List(items)),
        items.len() > 0,
        wanted.len() == items.len(),
        forall|i: int|
            #![trigger items[i]]
            #![trigger wanted[i]]
            0 <= i < items.len() ==> wanted[i].id == p.todo_id_seq + i && is_entry(
                items[i],
                wanted[i].text,
                wanted[i].status,
                wanted[i].blocked_reason,
            ),
        p.todo_id_seq + items.len() <= u64::MAX,
    ensures
        todo_op(p, JsonView::Fields(fields)) == (ProgressView {
            todo: wanted,
            todo_id_seq: p.todo_id_seq + items.len(),
            ..p
        }),
{
    lemma_op_words();
    law_fields_are_read_by_key(fields, "op"@, JsonView::Text("reset"@));
    law_fields_are_read_by_key(fields, "items"@, JsonView::List(items));
    assert forall|i: int| 0 <= i < items.len() implies reset_entry(#[trigger] items[i]) is Entry by {
        lemma_entry(items[i], wanted[i].text, wanted[i].status, wanted[i].blocked_reason);
    }
    lemma_all_entries(items, 0);
    let got = entry_todos(items, p.todo_id_seq, items.len() as int);
    assert forall|i: int| 0 <= i < items.len() implies got[i] == wanted[i] by {
        lemma_entry(items[i], wanted[i].text, wanted[i].status, wanted[i].blocked_reason);
    }
    assert(got =~= wanted);
}

/// A `reset` with an entry that has no text, or no status, leaves the to-dos as
/// they are.
pub proof fn law_unreadable_reset_keeps_the_todos(
    p: ProgressView,
    fields: Fields,
    items: Seq<JsonView>,
    i: int,
    key: Seq<char>,
)
    requires
        says(fields, "op"@, "reset"@),
        fields.contains_pair("items"@, JsonView::List(items)),
        0 <= i < items.len(),
        key == "text"@ || key == "status"@,
        items[i] matches JsonView::Fields(entry) ==> !entry.dom().contains(key),
    ensures
        todo_op(p, JsonView::Fields(fields)).todo == p.todo,
        todo_op(p, JsonView::Fields(fields)).warnings.len() == p.warnings.len() + 1,
{
    lemma_op_words();
    law_fields_are_read_by_key(fields, "op"@, JsonView::Text("reset"@));
    law_fields_are_read_by_key(fields, "items"@, JsonView::List(items));
    law_missing_fields_are_none(items[i], key);
    assert(reset_entry(items[i]) is Refused);
    if first_refused(items, 0) >= items.len() {
        crate::progress::todo::lemma_first_refused(items, 0);
        lemma_none_refused(items, 0, i);
    }
}

/// A `reset` without entries changes nothing, and is warned of. One with an entry that
/// cannot be taken uses up the numbers of the entries before it.
pub proof fn law_refused_resets_are_warned_of(
    p: ProgressView,
    fields: Fields,
    items: Seq<JsonView>,
    i: int,
)
    requires
        says(fields, "op"@, "reset"@),
    ensures
        !fields.dom().contains("items"@) || fields["items"@] == JsonView::List(Seq::empty()) ==> {
            let q = todo_op(p, JsonView::Fields(fields));
            &&& q == (ProgressView { warnings: q.warnings, ..p })
            &&& q.warnings.len() == p.warnings.len() + 1
            &&& q.warnings.drop_last() == p.warnings
        },
        fields.contains_pair("items"@, JsonView::List(items)) && 0 <= i < items.len() && (forall|
            k: int,
        |
            0 <= k < i ==> reset_entry(#[trigger] items[k]) is Entry) && reset_entry(items[i])
            is Refused ==> {
            let q = todo_op(p, JsonView::Fields(fields));
            &&& q == (ProgressView {
                warnings: q.warnings,
                todo_id_seq: (p.todo_id_seq + i) as nat,
                ..p
            })
            &&& q.warnings == p.warnings.push(reset_entry(items[i])->Refused_0)
        },
{
    lemma_op_words();
    law_fields_are_read_by_key(fields, "op"@, JsonView::Text("reset"@));
    if fields.dom().contains("items"@) {
        law_fields_are_read_by_key(fields, "items"@, fields["items"@]);
    } else {
        law_missing_fields_are_none(JsonView::Fields(fields), "items"@);
    }
    let q = todo_op(p, JsonView::Fields(fields));
    if !fields.dom().contains("items"@) || fields["items"@] == JsonView::List(Seq::empty()) {
        assert(q.warnings.drop_last() =~= p.warnings);
    }
    if 0 <= i < items.len() && (forall|k: int|
        0 <= k < i ==> reset_entry(#[trigger] items[k]) is Entry) && reset_entry(items[i]) is Refused {
        lemma_refused_at(items, 0, i);
    }
}

proof fn lemma_refused_at(items: Seq<JsonView>, from: int, i: int)
    requires
        0 <= from <= i < items.len(),
        forall|k: int| from <= k < i ==> reset_entry(#[trigger] items[k]) is Entry,
        reset_entry(items[i]) is Refused,
    ensures
        first_refused(items, from) == i,
    decreases i - from,
{
    if from < i {
        assert(reset_entry(items[from]) is Entry);
        lemma_refused_at(items, from + 1, i);
    }
}

/// An operation of an unknown kind, and one of no kind, changes nothing and is warned
/// of.
pub proof fn law_unknown_operations_are_warned_of(p: ProgressView, fields: Fields, kind: Seq<char>)
    requires
        !fields.dom().contains("op"@) || says(fields, "op"@, kind) && kind != "add"@ && kind
            != "done"@ && kind != "drop"@ && kind != "status"@ && kind != "reset"@,
    ensures
        ({
            let q = todo_op(p, JsonView::Fields(fields));
            &&& q == (ProgressView { warnings: q.warnings, ..p })
            &&& q.warnings.len() == p.warnings.len() + 1
            &&& q.warnings.drop_last() == p.warnings
            &&& fields.dom().contains("op"@) ==> q.warnings.last() == "todo_op: 非法 op "@ + kind
        }),
{
    if fields.dom().contains("op"@) {
        law_fields_are_read_by_key(fields, "op"@, JsonView::Text(kind));
    } else {
        law_missing_fields_are_none(JsonView::Fields(fields), "op"@);
    }
    assert(todo_op(p, JsonView::Fields(fields)).warnings.drop_last() =~= p.warnings);
}

/// Whether a word stands for how sure an assumption is.
pub open spec fn assumption_word(status: AssumptionStatus) -> Seq<char> {
    match status {
        AssumptionStatus::Assumed => "assumed"@,
        AssumptionStatus::Confirmed => "confirmed"@,
        AssumptionStatus::Stale => "stale"@,
    }
}

/// Whether a text has something besides white space.
pub open spec fn has_words(s: Seq<char>) -> bool {
    exists|i: int| 0 <= i < s.len() && !white_space(#[trigger] s[i])
}

proof fn lemma_assumption_words()
    ensures
        "assumed"@ != "confirmed"@,
        "assumed"@ != "stale"@,
        "confirmed"@ != "stale"@,
{
    reveal_strlit("assumed");
    reveal_strlit("confirmed");
    reveal_strlit("stale");
    assert("assumed"@.len() != "confirmed"@.len());
    assert("assumed"@.len() != "stale"@.len());
    assert("confirmed"@.len() != "stale"@.len());
}

proof fn lemma_assumption(fields: Fields, statement: Seq<char>, status: AssumptionStatus)
    requires
        says(fields, "statement"@, statement),
        has_words(statement),
        says(fields, "status"@, assumption_word(status)) || (status is Assumed
            && !fields.dom().contains("status"@)),
    ensures
        crate::json::text_field(JsonView::Fields(fields), "statement"@) == Some(statement),
        !crate::text::blank(statement),
        crate::progress::todo::assumption_status(JsonView::Fields(fields)) == Some(status),
{
    law_fields_are_read_by_key(fields, "statement"@, JsonView::Text(statement));
    law_blank_texts_are_white_space(statement);
    lemma_assumption_words();
    if fields.dom().contains("status"@) {
        law_fields_are_read_by_key(fields, "status"@, JsonView::Text(assumption_word(status)));
    } else {
        law_missing_fields_are_none(JsonView::Fields(fields), "status"@);
    }
}

/// An assumption without a number is added behind the others under the next
/// number, and so is one whose number no assumption has. Nothing else changes.
pub proof fn law_new_assumption_is_last(
    p: ProgressView,
    fields: Fields,
    statement: Seq<char>,
    status: AssumptionStatus,
)
    requires
        says(fields, "statement"@, statement),
        has_words(statement),
        says(fields, "status"@, assumption_word(status)) || (status is Assumed
            && !fields.dom().contains("status"@)),
        !fields.dom().contains("id"@) || (exists|id: u64|
            #[trigger] numbered(fields, id) && forall|i: int|
                0 <= i < p.assumptions.len() ==> (#[trigger] p.assumptions[i]).id != id),
        p.todo_id_seq <= u64::MAX,
    ensures
        assumption_op(p, JsonView::Fields(fields)) == (ProgressView {
            assumptions: p.assumptions.push(
                AssumptionView { id: p.todo_id_seq as u64, statement, status },
            ),
            todo_id_seq: p.todo_id_seq + 1,
            ..p
        }),
{
    lemma_assumption(fields, statement, status);
    if fields.dom().contains("id"@) {
        let id = choose|id: u64|
            #[trigger] numbered(fields, id) && forall|i: int|
                0 <= i < p.assumptions.len() ==> (#[trigger] p.assumptions[i]).id != id;
        law_fields_are_read_by_key(fields, "id"@, JsonView::Unsigned(id));
        lemma_assumption_position(p.assumptions, id, 0);
    } else {
        law_missing_fields_are_none(JsonView::Fields(fields), "id"@);
    }
}

/// An assumption with the number of one that is known replaces its statement and
/// how sure it is. No other assumption changes, and nothing else does.
pub proof fn law_known_assumption_is_replaced(
    p: ProgressView,
    fields: Fields,
    statement: Seq<char>,
    status: AssumptionStatus,
    id: u64,
    k: int,
)
    requires
        says(fields, "statement"@, statement),
        has_words(statement),
        says(fields, "status"@, assumption_word(status)) || (status is Assumed
            && !fields.dom().contains("status"@)),
        fields.contains_pair("id"@, JsonView::Unsigned(id)),
        0 <= k < p.assumptions.len(),
        p.assumptions[k].id == id,
        forall|j: int| 0 <= j < k ==> (#[trigger] p.assumptions[j]).id != id,
    ensures
        ({
            let q = assumption_op(p, JsonView::Fields(fields));
            &&& q == (ProgressView { assumptions: q.assumptions, ..p })
            &&& q.assumptions.len() == p.assumptions.len()
            &&& q.assumptions[k] == (AssumptionView { id, statement, status })
            &&& forall|j: int|
                0 <= j < p.assumptions.len() && j != k ==> #[trigger] q.assumptions[j]
                    == p.assumptions[j]
        }),
{
    lemma_assumption(fields, statement, status);
    law_fields_are_read_by_key(fields, "id"@, JsonView::Unsigned(id));
    lemma_assumption_position(p.assumptions, id, 0);
    let i = assumption_position(p.assumptions, id, 0);
    if k < i {
        assert(p.assumptions[k].id != id);
    } else if i < k {
        assert(p.assumptions[i].id != id);
    }
}

/// A blank assumption is answered by one warning and changes nothing else.
pub proof fn law_blank_assumption_is_warned_of(p: ProgressView, fields: Fields, statement: Seq<char>)
    requires
        says(fields, "statement"@, statement),
        !has_words(statement),
    ensures
        ({
            let q = assumption_op(p, JsonView::Fields(fields));
            &&& q == (ProgressView { warnings: q.warnings, ..p })
            &&& q.warnings.len() == p.warnings.len() + 1
        }),
{
    law_fields_are_read_by_key(fields, "statement"@, JsonView::Text(statement));
    law_blank_texts_are_white_space(statement);
}

proof fn lemma_todo_ops_rest(p: ProgressView, ops: Seq<JsonView>)
    ensures
        ({
            let q = todo_ops(p, ops);
            &&& q.intent == p.intent
            &&& q.next_step == p.next_step
            &&& q.assumptions == p.assumptions
            &&& q.files_touched == p.files_touched
            &&& q.last_error == p.last_error
            &&& q.digest_seq == p.digest_seq
        }),
    decreases ops.len(),
{
    if ops.len() > 0 {
        lemma_todo_ops_rest(p, ops.drop_last());
    }
}

proof fn lemma_assumption_ops_rest(p: ProgressView, list: Seq<JsonView>)
    ensures
        ({
            let q = assumption_ops(p, list);
            &&& q.intent == p.intent
            &&& q.next_step == p.next_step
            &&& q.todo == p.todo
            &&& q.files_touched == p.files_touched
            &&& q.last_error == p.last_error
            &&& q.digest_seq == p.digest_seq
        }),
    decreases list.len(),
{
    if list.len() > 0 {
        lemma_assumption_ops_rest(p, list.drop_last());
    }
}

/// A patch sets the intent and the next step that it gives, and those alone: what
/// it does not mention stays, and so do the touched files and the last error.
pub proof fn law_patch_sets_what_it_gives(p: ProgressView, fields: Fields)
    ensures
        ({
            let q = patched(p, JsonView::Fields(fields));
            &&& forall|intent: Seq<char>|
                #[trigger] says(fields, "intent"@, intent) ==> q.intent == Some(intent)
            &&& !fields.dom().contains("intent"@) ==> q.intent == p.intent
            &&& forall|next: Seq<char>|
                #[trigger] says(fields, "next_step"@, next) ==> q.next_step == Some(next)
            &&& !fields.dom().contains("next_step"@) ==> q.next_step == p.next_step
            &&& !fields.dom().contains("todo_ops"@) ==> q.todo == p.todo
            &&& !fields.dom().contains("assumptions"@) ==> q.assumptions == p.assumptions
            &&& q.files_touched == p.files_touched
            &&& q.last_error == p.last_error
        }),
{
    let doc = JsonView::Fields(fields);
    let q = patched(p, doc);
    assert forall|intent: Seq<char>| #[trigger] says(fields, "intent"@, intent) implies q.intent
        == Some(intent) by {
        law_fields_are_read_by_key(fields, "intent"@, JsonView::Text(intent));
        lemma_patch_rest(p, doc);
    }
    assert forall|next: Seq<char>| #[trigger] says(fields, "next_step"@, next) implies q.next_step
        == Some(next) by {
        law_fields_are_read_by_key(fields, "next_step"@, JsonView::Text(next));
    }
    lemma_patch_rest(p, doc);
}

proof fn lemma_patch_rest(p: ProgressView, doc: JsonView)
    ensures
        ({
            let q = patched(p, doc);
            let i = crate::progress::channel::with_intent(p, doc);
            &&& q.intent == i.intent
            &&& q.files_touched == p.files_touched
            &&& q.last_error == p.last_error
            &&& crate::json::text_field(doc, "next_step"@) is None ==> q.next_step == p.next_step
            &&& crate::json::list_field(doc, "todo_ops"@) is None ==> q.todo == p.todo
            &&& crate::json::list_field(doc, "assumptions"@) is None ==> q.assumptions
                == p.assumptions
        }),
{
    let i = crate::progress::channel::with_intent(p, doc);
    let t = crate::progress::channel::with_todos(p, doc);
    if let Some(ops) = crate::json::list_field(doc, "todo_ops"@) {
        lemma_todo_ops_rest(i, ops);
    }
    if let Some(list) = crate::json::list_field(doc, "assumptions"@) {
        lemma_assumption_ops_rest(t, list);
    }
}

/// The operations of a patch are applied one after the other, and then its
/// assumptions: a patch with a list and one more operation does what the patch
/// with the list does, and then that operation.
pub proof fn law_patch_applies_its_operations_in_order(
    p: ProgressView,
    ops: Seq<JsonView>,
    op: JsonView,
    list: Seq<JsonView>,
    assumption: JsonView,
)
    ensures
        ({
            let of = |ops: Seq<JsonView>, list: Seq<JsonView>|
                JsonView::Fields(
                    map!["todo_ops"@ => JsonView::List(ops), "assumptions"@ => JsonView::List(list)],
                );
            &&& patched(p, of(Seq::empty(), Seq::empty())) == p
            &&& patched(p, of(ops.push(op), Seq::empty())) == todo_op(
                patched(p, of(ops, Seq::empty())),
                op,
            )
            &&& patched(p, of(ops, list.push(assumption))) == assumption_op(
                patched(p, of(ops, list)),
                assumption,
            )
        }),
{
    lemma_patch_words();
    assert(ops.push(op).drop_last() =~= ops);
    assert(list.push(assumption).drop_last() =~= list);
    lemma_two_lists(p, Seq::empty(), Seq::empty());
    lemma_two_lists(p, ops.push(op), Seq::empty());
    lemma_two_lists(p, ops, Seq::empty());
    lemma_two_lists(p, ops, list);
    lemma_two_lists(p, ops, list.push(assumption));
}

proof fn lemma_patch_words()
    ensures
        "todo_ops"@ != "assumptions"@,
        "intent"@ != "todo_ops"@,
        "intent"@ != "assumptions"@,
        "next_step"@ != "todo_ops"@,
        "next_step"@ != "assumptions"@,
{
    reveal_strlit("todo_ops");
    reveal_strlit("assumptions");
    reveal_strlit("intent");
    reveal_strlit("next_step");
    assert("todo_ops"@.len() != "assumptions"@.len());
    assert("intent"@.len() != "todo_ops"@.len());
    assert("intent"@.len() != "assumptions"@.len());
    assert("next_step"@.len() != "todo_ops"@.len());
    assert("next_step"@.len() != "assumptions"@.len());
}

proof fn lemma_two_lists(p: ProgressView, ops: Seq<JsonView>, list: Seq<JsonView>)
    ensures
        patched(
            p,
            JsonView::Fields(
                map!["todo_ops"@ => JsonView::List(ops), "assumptions"@ => JsonView::List(list)],
            ),
        ) == assumption_ops(todo_ops(p, ops), list),
{
    lemma_patch_words();
    let fields = map![
        "todo_ops"@ => JsonView::List(ops),
        "assumptions"@ => JsonView::List(list)
    ];
    let doc = JsonView::Fields(fields);
    law_fields_are_read_by_key(fields, "todo_ops"@, JsonView::List(ops));
    law_fields_are_read_by_key(fields, "assumptions"@, JsonView::List(list));
    law_missing_fields_are_none(doc, "intent"@);
    law_missing_fields_are_none(doc, "next_step"@);
}

/// A failed tool call is remembered with its turn and what it said, one that did
/// not fail leaves the last error, and either takes one digest number.
pub proof fn law_failures_are_remembered(p: ProgressView, turn: Seq<char>, brief: Seq<char>)
    requires
        brief.len() <= crate::progress::channel::BRIEF_MAX,
    ensures
        after_result(p, turn, brief, false) == (ProgressView { digest_seq: p.digest_seq + 1, ..p }),
        ({
            let q = after_result(p, turn, brief, true);
            &&& q == (ProgressView {
                digest_seq: p.digest_seq + 1,
                last_error: q.last_error,
                ..p
            })
            &&& q.last_error matches Some(e) && e.turn_ref.turn_id == turn
                && e.turn_ref.item_index is None && e.brief == brief
        }),
{
}

/// Only patches tell which files they touch.
pub proof fn law_only_patches_touch_files(tool: Seq<char>, fields: Fields, input: Seq<char>)
    ensures
        tool != "apply_patch"@ ==> touched_paths(tool, JsonView::Fields(fields)).len() == 0,
        tool == "apply_patch"@ && says(fields, "input"@, input) ==> touched_paths(
            tool,
            JsonView::Fields(fields),
        ) == crate::progress::channel::patch_paths(input),
{
    if says(fields, "input"@, input) {
        law_fields_are_read_by_key(fields, "input"@, JsonView::Text(input));
    }
}

/// A line of a patch that names a file gives that file, whatever the patch does
/// with it, and any other line gives none.
pub proof fn law_patch_lines_name_files(mark: Seq<char>, path: Seq<char>)
    requires
        mark == "*** Add File: "@ || mark == "*** Update File: "@ || mark == "*** Delete File: "@,
        path.len() > 0,
        !white_space(path[0]),
        !white_space(path.last()),
    ensures
        crate::progress::channel::patch_path(mark + path) == Some(path),
{
    reveal_strlit("*** Add File: ");
    reveal_strlit("*** Update File: ");
    reveal_strlit("*** Delete File: ");
    reveal_strlit("*** Add File:");
    reveal_strlit("*** Update File:");
    reveal_strlit("*** Delete File:");
    let line = mark + path;
    lemma_nothing_to_trim(line);
    let word = if mark == "*** Add File: "@ {
        "*** Add File:"@
    } else if mark == "*** Update File: "@ {
        "*** Update File:"@
    } else {
        "*** Delete File:"@
    };
    assert(line.subrange(0, word.len() as int) =~= word);
    assert(line.skip(word.len() as int) =~= seq![' '] + path);
    let rest = seq![' '] + path;
    assert(rest.subrange(1, rest.len() as int) =~= path);
    lemma_nothing_to_trim(path);
    assert(crate::text::trimmed(rest) == path) by {
        assert(crate::text::trim_start(rest) == crate::text::trim_start(path));
    }
    if mark != "*** Add File: "@ {
        assert(line[4] != 'A');
        assert("*** Add File:"@[4] == 'A');
        assert(line.subrange(0, "*** Add File:"@.len() as int)[4] == line[4]);
    }
    if mark == "*** Delete File: "@ {
        assert(line[4] == 'D');
        assert("*** Update File:"@[4] == 'U');
        assert(line.subrange(0, "*** Update File:"@.len() as int)[4] == line[4]);
    }
}

/// A patch that puts another intent in the place of one stores the old one, under the
/// turn and the next number. A patch that gives the same intent, or the first, or none,
/// stores nothing.
pub proof fn law_changed_intent_is_stored(
    p: ProgressView,
    patch: Fields,
    new: Seq<char>,
    old: Seq<char>,
    turn: TurnRefView,
)
    ensures
        says(patch, "intent"@, new) && p.intent == Some(old) && old != new ==> {
            let kept = patch_digests(p, JsonView::Fields(patch), turn);
            &&& kept.len() == 1
            &&& kept[0].entry.kind == DigestKind::Dialog
            &&& kept[0].entry.dialog_summary == Some("intent 演进旧值: "@ + old)
            &&& kept[0].entry.turn_ref == turn
            &&& p.digest_seq <= u64::MAX ==> kept[0].entry.sequence == p.digest_seq
            &&& kept[0].intent_history == seq![IntentChangeView { old, turn_ref: turn }]
        },
        says(patch, "intent"@, new) && (p.intent is None || p.intent == Some(new))
            ==> patch_digests(p, JsonView::Fields(patch), turn).len() == 0,
        !patch.dom().contains("intent"@) ==> patch_digests(
            p,
            JsonView::Fields(patch),
            turn,
        ).len() == 0,
{
    if patch.dom().contains("intent"@) {
        law_fields_are_read_by_key(patch, "intent"@, patch["intent"@]);
    } else {
        law_missing_fields_are_none(JsonView::Fields(patch), "intent"@);
    }
}

/// A patch of one line that names a file names that file alone, and one of a line that
/// names none names none.
pub proof fn law_patches_name_the_files_of_their_lines(line: Seq<char>, path: Seq<char>)
    requires
        line.len() > 0,
        forall|i: int| 0 <= i < line.len() ==> #[trigger] line[i] != '\n',
    ensures
        crate::progress::channel::patch_path(line) == Some(path)
            ==> crate::progress::channel::patch_paths(line) == seq![path],
        crate::progress::channel::patch_path(line) is None
            ==> crate::progress::channel::patch_paths(line).len() == 0,
        crate::progress::channel::patch_paths(Seq::empty()).len() == 0,
{
    crate::text::law_lines_end_at_line_breaks(line, Seq::empty());
    reveal_with_fuel(crate::progress::channel::line_paths, 2);
    assert(seq![line].drop_last() =~= Seq::<Seq<char>>::empty());
}

proof fn lemma_nothing_to_trim(s: Seq<char>)
    requires
        s.len() > 0,
        !white_space(s[0]),
        !white_space(s.last()),
    ensures
        crate::text::trimmed(s) == s,
        crate::text::trim_start(s) == s,
        crate::text::trim_end(s) == s,
{
}

} // verus!
