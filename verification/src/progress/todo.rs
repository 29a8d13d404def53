//! To-do operations and assumptions, as a model reports them.

use vstd::prelude::*;
use vstd::string::*;

use crate::json::docs;
use crate::json::list_field;
use crate::json::text_field;
use crate::json::u64_field;
use crate::json::Json;
use crate::json::JsonView;
use crate::progress::state::Assumption;
use crate::progress::state::AssumptionStatus;
use crate::progress::state::AssumptionView;
use crate::progress::state::ProgressState;
use crate::progress::state::ProgressView;
use crate::progress::state::TodoItem;
use crate::progress::state::TodoItemView;
use crate::progress::state::TodoStatus;
use crate::text::blank;
use crate::text::cat;
use crate::text::cat3;
use crate::text::chars_of;
use crate::text::decimal;
use crate::text::is_blank;
use crate::text::parse_u64;
use crate::text::parsed_u64;
use crate::text::same_text;
use crate::text::text_of;
use crate::text::u64_text;

verus! {

/// The same progress with one more warning for the model.
pub open spec fn warned(p: ProgressView, message: Seq<char>) -> ProgressView {
    ProgressView { warnings: p.warnings.push(message), ..p }
}

/// The position of the first to-do with the number, at or after `from`, or the
/// length of the list when there is none.
pub open spec fn todo_position(todo: Seq<TodoItemView>, id: u64, from: int) -> int
    decreases todo.len() - from,
{
    if from < 0 || from >= todo.len() {
        todo.len() as int
    } else if todo[from].id == id {
        from
    } else {
        todo_position(todo, id, from + 1)
    }
}

/// The to-dos without those that have the number.
pub open spec fn without_todo(todo: Seq<TodoItemView>, id: u64) -> Seq<TodoItemView>
    decreases todo.len(),
{
    if todo.len() == 0 {
        todo
    } else if todo.last().id == id {
        without_todo(todo.drop_last(), id)
    } else {
        without_todo(todo.drop_last(), id).push(todo.last())
    }
}

/// The position of the first assumption with the number, at or after `from`, or
/// the length of the list when there is none.
pub open spec fn assumption_position(list: Seq<AssumptionView>, id: u64, from: int) -> int
    decreases list.len() - from,
{
    if from < 0 || from >= list.len() {
        list.len() as int
    } else if list[from].id == id {
        from
    } else {
        assumption_position(list, id, from + 1)
    }
}

/// The to-do number that an operation refers to: a text `t{N}`, or a bare
/// number.
pub open spec fn referenced_todo(op: JsonView) -> Option<u64> {
    match text_field(op, "id"@) {
        Some(s) => if s.len() > 0 && s[0] == 't' {
            parsed_u64(s.subrange(1, s.len() as int))
        } else {
            None
        },
        None => u64_field(op, "id"@),
    }
}

/// The warning for a reference that cannot be read.
pub open spec fn bad_reference() -> Seq<char> {
    "todo_op: id 缺失或格式错(期望 tN)"@
}

/// The status that a word names.
pub open spec fn status_named(word: Seq<char>) -> Option<TodoStatus> {
    if word == "todo"@ {
        Some(TodoStatus::Todo)
    } else if word == "doing"@ {
        Some(TodoStatus::Doing)
    } else if word == "done"@ {
        Some(TodoStatus::Done)
    } else if word == "blocked"@ {
        Some(TodoStatus::Blocked)
    } else {
        None
    }
}

/// `add`: a new to-do under the next number.
pub open spec fn op_add(p: ProgressView, op: JsonView) -> ProgressView {
    match text_field(op, "text"@) {
        None => warned(p, "todo_op add 缺 text"@),
        Some(text) => ProgressView {
            todo: p.todo.push(
                TodoItemView {
                    id: p.todo_id_seq as u64,
                    text,
                    status: TodoStatus::Todo,
                    blocked_reason: None,
                },
            ),
            todo_id_seq: p.todo_id_seq + 1,
            ..p
        },
    }
}

/// `done`: the to-do is done and no longer blocked.
pub open spec fn op_done(p: ProgressView, op: JsonView) -> ProgressView {
    match referenced_todo(op) {
        None => warned(p, bad_reference()),
        Some(id) => {
            let i = todo_position(p.todo, id, 0);
            if i < p.todo.len() {
                ProgressView {
                    todo: p.todo.update(
                        i,
                        TodoItemView {
                            status: TodoStatus::Done,
                            blocked_reason: None,
                            ..p.todo[i]
                        },
                    ),
                    ..p
                }
            } else {
                warned(p, "todo_op done: id t"@ + decimal(id as nat) + " 不存在"@)
            }
        },
    }
}

/// `drop`: the to-do is gone.
pub open spec fn op_drop(p: ProgressView, op: JsonView) -> ProgressView {
    match referenced_todo(op) {
        None => warned(p, bad_reference()),
        Some(id) => {
            if todo_position(p.todo, id, 0) < p.todo.len() {
                ProgressView { todo: without_todo(p.todo, id), ..p }
            } else {
                warned(p, "todo_op drop: id t"@ + decimal(id as nat) + " 不存在"@)
            }
        },
    }
}

/// `status`: the to-do gets a status; a blocked one needs a reason.
pub open spec fn op_status(p: ProgressView, op: JsonView) -> ProgressView {
    match referenced_todo(op) {
        None => warned(p, bad_reference()),
        Some(id) => {
            let i = todo_position(p.todo, id, 0);
            if i >= p.todo.len() {
                warned(p, "todo_op status: id t"@ + decimal(id as nat) + " 不存在"@)
            } else {
                match text_field(op, "status"@) {
                    None => warned(p, "todo_op status: t"@ + decimal(id as nat) + " 缺 status"@),
                    Some(word) => match status_named(word) {
                        None => warned(p, "todo_op status: 非法状态 "@ + word),
                        Some(status) => {
                            let reason = text_field(op, "reason"@);
                            if status is Blocked && reason is None {
                                warned(
                                    p,
                                    "todo_op status: t"@ + decimal(id as nat)
                                        + " blocked 须带 reason"@,
                                )
                            } else {
                                ProgressView {
                                    todo: p.todo.update(
                                        i,
                                        TodoItemView {
                                            status,
                                            blocked_reason: if status is Blocked {
                                                reason
                                            } else {
                                                None
                                            },
                                            ..p.todo[i]
                                        },
                                    ),
                                    ..p
                                }
                            }
                        },
                    },
                }
            }
        },
    }
}

/// One entry of a `reset`, or why it cannot be taken.
pub enum ResetEntry {
    Entry { text: Seq<char>, status: TodoStatus, blocked_reason: Option<Seq<char>> },
    Refused(Seq<char>),
}

/// What one entry of a `reset` says.
pub open spec fn reset_entry(item: JsonView) -> ResetEntry {
    match text_field(item, "text"@) {
        None => ResetEntry::Refused("todo_op reset: 某条缺 text"@),
        Some(text) => match text_field(item, "status"@) {
            None => ResetEntry::Refused("todo_op reset: 某条缺 status"@),
            Some(word) => match status_named(word) {
                None => ResetEntry::Refused("todo_op reset: 非法状态 "@ + word),
                Some(status) => {
                    let reason = text_field(item, "reason"@);
                    if status is Blocked && reason is None {
                        ResetEntry::Refused("todo_op reset: blocked 须带 reason"@)
                    } else {
                        ResetEntry::Entry {
                            text,
                            status,
                            blocked_reason: if status is Blocked {
                                reason
                            } else {
                                None
                            },
                        }
                    }
                },
            },
        },
    }
}

/// The position of the first entry at or after `from` that cannot be taken, or
/// the number of entries when all can.
pub open spec fn first_refused(items: Seq<JsonView>, from: int) -> int
    decreases items.len() - from,
{
    if from < 0 || from >= items.len() {
        items.len() as int
    } else if reset_entry(items[from]) is Refused {
        from
    } else {
        first_refused(items, from + 1)
    }
}

/// The to-do of an entry under a number.
pub open spec fn entry_todo(item: JsonView, id: nat) -> TodoItemView {
    match reset_entry(item) {
        ResetEntry::Entry { text, status, blocked_reason } => TodoItemView {
            id: id as u64,
            text,
            status,
            blocked_reason,
        },
        ResetEntry::Refused(_) => arbitrary(),
    }
}

/// The to-dos of the first `n` entries, under the numbers from `first` on.
pub open spec fn entry_todos(items: Seq<JsonView>, first: nat, n: int) -> Seq<TodoItemView> {
    Seq::new(n as nat, |i: int| entry_todo(items[i], (first + i) as nat))
}

/// `reset`: the whole list is replaced. When an entry cannot be taken the list
/// stays, but the numbers of the entries before it are used up.
pub open spec fn op_reset(p: ProgressView, op: JsonView) -> ProgressView {
    match list_field(op, "items"@) {
        None => warned(p, "todo_op reset: 缺 items"@),
        Some(items) => if items.len() == 0 {
            warned(p, "todo_op reset: items 为空"@)
        } else {
            let bad = first_refused(items, 0);
            if bad < items.len() {
                ProgressView {
                    todo_id_seq: (p.todo_id_seq + bad) as nat,
                    warnings: p.warnings.push(reset_entry(items[bad])->Refused_0),
                    ..p
                }
            } else {
                ProgressView {
                    todo: entry_todos(items, p.todo_id_seq, items.len() as int),
                    todo_id_seq: p.todo_id_seq + items.len(),
                    ..p
                }
            }
        },
    }
}

/// What one to-do operation does to the progress.
pub open spec fn todo_op(p: ProgressView, op: JsonView) -> ProgressView {
    match text_field(op, "op"@) {
        None => warned(p, "todo_op 缺 op 字段"@),
        Some(kind) => if kind == "add"@ {
            op_add(p, op)
        } else if kind == "done"@ {
            op_done(p, op)
        } else if kind == "drop"@ {
            op_drop(p, op)
        } else if kind == "status"@ {
            op_status(p, op)
        } else if kind == "reset"@ {
            op_reset(p, op)
        } else {
            warned(p, "todo_op: 非法 op "@ + kind)
        },
    }
}

/// The status that an assumption names: assumed when it names none.
pub open spec fn assumption_status(doc: JsonView) -> Option<AssumptionStatus> {
    match text_field(doc, "status"@) {
        None => Some(AssumptionStatus::Assumed),
        Some(word) => if word == "assumed"@ {
            Some(AssumptionStatus::Assumed)
        } else if word == "confirmed"@ {
            Some(AssumptionStatus::Confirmed)
        } else if word == "stale"@ {
            Some(AssumptionStatus::Stale)
        } else {
            None
        },
    }
}

/// What one reported assumption does to the progress: it replaces the one whose
/// number it gives, or gets the next number.
pub open spec fn assumption_op(p: ProgressView, doc: JsonView) -> ProgressView {
    match text_field(doc, "statement"@) {
        None => warned(p, "assumption 缺 statement"@),
        Some(statement) => if blank(statement) {
            warned(p, "assumption statement 为空"@)
        } else {
            match assumption_status(doc) {
                None => warned(
                    p,
                    "assumption: 非法状态 "@ + text_field(doc, "status"@)->Some_0,
                ),
                Some(status) => {
                    let known = match u64_field(doc, "id"@) {
                        Some(id) => assumption_position(p.assumptions, id, 0),
                        None => p.assumptions.len() as int,
                    };
                    if known < p.assumptions.len() {
                        ProgressView {
                            assumptions: p.assumptions.update(
                                known,
                                AssumptionView { statement, status, ..p.assumptions[known] },
                            ),
                            ..p
                        }
                    } else {
                        ProgressView {
                            assumptions: p.assumptions.push(
                                AssumptionView { id: p.todo_id_seq as u64, statement, status },
                            ),
                            todo_id_seq: p.todo_id_seq + 1,
                            ..p
                        }
                    }
                },
            }
        },
    }
}

/// Adds a warning for the model.
pub fn warn(p: &mut ProgressState, message: String)
    ensures
        final(p)@ == warned(old(p)@, message@),
{
    p.warnings.push(message);
    assert(p.warnings.deep_view() =~= old(p).warnings.deep_view().push(message@));
}

/// Reads the to-do number that an operation refers to; warns when it cannot.
pub fn parse_todo_id(op: &Json, p: &mut ProgressState) -> (r: Option<u64>)
    ensures
        r == referenced_todo(op@),
        r is Some ==> final(p)@ == old(p)@,
        r is None ==> final(p)@ == warned(old(p)@, bad_reference()),
{
    let id = match op.text_at("id") {
        Some(s) => {
            let chars = chars_of(s.as_str());
            let n: usize = chars.len();
            if n > 0 && chars[0] == 't' {
                parse_u64(text_of(&chars, 1, n).as_str())
            } else {
                None
            }
        },
        None => op.u64_at("id"),
    };
    if id.is_none() {
        warn(p, "todo_op: id 缺失或格式错(期望 tN)".to_owned());
    }
    id
}

/// The status that a word names.
pub fn parse_todo_status(word: &str) -> (r: Option<TodoStatus>)
    ensures
        r == status_named(word@),
{
    if same_text(word, "todo") {
        Some(TodoStatus::Todo)
    } else if same_text(word, "doing") {
        Some(TodoStatus::Doing)
    } else if same_text(word, "done") {
        Some(TodoStatus::Done)
    } else if same_text(word, "blocked") {
        Some(TodoStatus::Blocked)
    } else {
        None
    }
}

fn find_todo(todo: &Vec<TodoItem>, id: u64) -> (r: usize)
    ensures
        r == todo_position(todo.deep_view(), id, 0),
        r <= todo@.len(),
{
    let mut i: usize = 0;
    while i < todo.len()
        invariant
            i <= todo@.len(),
            todo_position(todo.deep_view(), id, 0) == todo_position(todo.deep_view(), id, i as int),
        decreases todo@.len() - i,
    {
        assert(todo.deep_view()[i as int].id == todo@[i as int].id);
        if todo[i].id == id {
            return i;
        }
        i += 1;
    }
    i
}

fn set_todo(p: &mut ProgressState, i: usize, status: TodoStatus, blocked_reason: Option<String>)
    requires
        i < old(p)@.todo.len(),
    ensures
        final(p)@ == (ProgressView {
            todo: old(p)@.todo.update(
                i as int,
                TodoItemView {
                    status,
                    blocked_reason: blocked_reason.deep_view(),
                    ..old(p)@.todo[i as int]
                },
            ),
            ..old(p)@
        }),
{
    p.todo[i].status = status;
    p.todo[i].blocked_reason = blocked_reason;
    assert(p.todo.deep_view() =~= old(p)@.todo.update(
        i as int,
        TodoItemView {
            status,
            blocked_reason: blocked_reason.deep_view(),
            ..old(p)@.todo[i as int]
        },
    ));
}

fn add_todo(p: &mut ProgressState, op: &Json)
    requires
        op_add(old(p)@, op@).todo_id_seq <= u64::MAX,
    ensures
        final(p)@ == op_add(old(p)@, op@),
{
    match op.text_at("text") {
        None => warn(p, "todo_op add 缺 text".to_owned()),
        Some(text) => {
            let id: u64 = p.todo_id_seq;
            p.todo_id_seq += 1;
            p.todo.push(
                TodoItem { id, text, status: TodoStatus::Todo, blocked_reason: None },
            );
            assert(p.todo.deep_view() =~= op_add(old(p)@, op@).todo);
        },
    }
}

fn finish_todo(p: &mut ProgressState, op: &Json)
    ensures
        final(p)@ == op_done(old(p)@, op@),
{
    if let Some(id) = parse_todo_id(op, p) {
        let i: usize = find_todo(&p.todo, id);
        if i < p.todo.len() {
            set_todo(p, i, TodoStatus::Done, None);
        } else {
            warn(p, cat3("todo_op done: id t", u64_text(id).as_str(), " 不存在"));
        }
    }
}

fn drop_todo(p: &mut ProgressState, op: &Json)
    ensures
        final(p)@ == op_drop(old(p)@, op@),
{
    if let Some(id) = parse_todo_id(op, p) {
        let found: usize = find_todo(&p.todo, id);
        if found < p.todo.len() {
            let mut items: Vec<TodoItem> = Vec::new();
            std::mem::swap(&mut p.todo, &mut items);
            let mut kept: Vec<TodoItem> = Vec::new();
            let ghost before = old(p)@;
            assert(before.todo.take(0) =~= Seq::<TodoItemView>::empty());
            for item in it: items
                invariant
                    it.seq() == items@,
                    items.deep_view() == before.todo,
                    kept.deep_view() == without_todo(before.todo.take(it.index() as int), id),
            {
                proof {
                    let i = it.index() as int;
                    assert(before.todo[i] == item@);
                    assert(before.todo.take(i + 1).drop_last() =~= before.todo.take(i));
                    assert(before.todo.take(i + 1).last() == item@);
                }
                if item.id != id {
                    let ghost so_far = kept.deep_view();
                    kept.push(item);
                    assert(kept.deep_view() =~= so_far.push(item@));
                }
            }
            assert(before.todo.take(items@.len() as int) =~= before.todo);
            p.todo = kept;
        } else {
            warn(p, cat3("todo_op drop: id t", u64_text(id).as_str(), " 不存在"));
        }
    }
}

fn set_todo_status(p: &mut ProgressState, op: &Json)
    ensures
        final(p)@ == op_status(old(p)@, op@),
{
    match parse_todo_id(op, p) {
        None => {},
        Some(id) => {
            let i: usize = find_todo(&p.todo, id);
            if i >= p.todo.len() {
                warn(p, cat3("todo_op status: id t", u64_text(id).as_str(), " 不存在"));
                return;
            }
            match op.text_at("status") {
                None => warn(p, cat3("todo_op status: t", u64_text(id).as_str(), " 缺 status")),
                Some(word) => match parse_todo_status(word.as_str()) {
                    None => warn(p, cat("todo_op status: 非法状态 ", word.as_str())),
                    Some(status) => {
                        if let TodoStatus::Blocked = status {
                            let reason = op.text_at("reason");
                            if reason.is_none() {
                                warn(
                                    p,
                                    cat3(
                                        "todo_op status: t",
                                        u64_text(id).as_str(),
                                        " blocked 须带 reason",
                                    ),
                                );
                            } else {
                                set_todo(p, i, status, reason);
                            }
                        } else {
                            set_todo(p, i, status, None);
                        }
                    },
                },
            }
        },
    }
}

/// Reads one entry of a `reset` under a number.
pub(crate) fn read_entry(item: &Json, id: u64) -> (r: Result<TodoItem, String>)
    ensures
        match r {
            Ok(todo) => reset_entry(item@) is Entry && todo@ == entry_todo(item@, id as nat),
            Err(message) => reset_entry(item@) == ResetEntry::Refused(message@),
        },
{
    match item.text_at("text") {
        None => Err("todo_op reset: 某条缺 text".to_owned()),
        Some(text) => match item.text_at("status") {
            None => Err("todo_op reset: 某条缺 status".to_owned()),
            Some(word) => match parse_todo_status(word.as_str()) {
                None => Err(cat("todo_op reset: 非法状态 ", word.as_str())),
                Some(status) => {
                    if let TodoStatus::Blocked = status {
                        let blocked_reason = item.text_at("reason");
                        if blocked_reason.is_none() {
                            Err("todo_op reset: blocked 须带 reason".to_owned())
                        } else {
                            Ok(TodoItem { id, text, status, blocked_reason })
                        }
                    } else {
                        Ok(TodoItem { id, text, status, blocked_reason: None })
                    }
                },
            },
        },
    }
}

pub proof fn lemma_first_refused(items: Seq<JsonView>, from: int)
    requires
        0 <= from <= items.len(),
    ensures
        from <= first_refused(items, from) <= items.len(),
    decreases items.len() - from,
{
    if from < items.len() && !(reset_entry(items[from]) is Refused) {
        lemma_first_refused(items, from + 1);
    }
}

fn reset_todos(p: &mut ProgressState, op: &Json)
    requires
        op_reset(old(p)@, op@).todo_id_seq <= u64::MAX,
    ensures
        final(p)@ == op_reset(old(p)@, op@),
{
    let ghost before = old(p)@;
    let items = match op.list_at("items") {
        None => {
            warn(p, "todo_op reset: 缺 items".to_owned());
            return;
        },
        Some(items) => items,
    };
    if items.len() == 0 {
        warn(p, "todo_op reset: items 为空".to_owned());
        return;
    }
    let mut new_todo: Vec<TodoItem> = Vec::new();
    let mut i: usize = 0;
    let ghost all = docs(items@);
    assert(new_todo.deep_view() =~= entry_todos(all, before.todo_id_seq, 0));
    while i < items.len()
        invariant
            i <= items@.len(),
            items@.len() > 0,
            all == docs(items@),
            before == old(p)@,
            list_field(op@, "items"@) == Some(all),
            op_reset(before, op@).todo_id_seq <= u64::MAX,
            p@ == (ProgressView { todo_id_seq: before.todo_id_seq + i as nat, ..before }),
            first_refused(all, 0) == first_refused(all, i as int),
            new_todo.deep_view() == entry_todos(all, before.todo_id_seq, i as int),
        decreases items@.len() - i,
    {
        proof {
            lemma_first_refused(all, i as int);
            assert(all[i as int] == items@[i as int]@);
        }
        match read_entry(&items[i], p.todo_id_seq) {
            Err(message) => {
                warn(p, message);
                return;
            },
            Ok(todo) => {
                proof {
                    lemma_first_refused(all, i + 1);
                }
                p.todo_id_seq += 1;
                let ghost so_far = new_todo.deep_view();
                new_todo.push(todo);
                proof {
                    assert(new_todo.deep_view() =~= so_far.push(todo@));
                    assert(entry_todos(all, before.todo_id_seq, i + 1) =~= entry_todos(
                        all,
                        before.todo_id_seq,
                        i as int,
                    ).push(todo@));
                }
            },
        }
        i += 1;
    }
    p.todo = new_todo;
}

/// Applies one to-do operation. An operation that cannot be applied leaves a
/// warning for the model and the to-dos as they are.
pub fn apply_todo_op(p: &mut ProgressState, op: &Json)
    requires
        todo_op(old(p)@, op@).todo_id_seq <= u64::MAX,
    ensures
        final(p)@ == todo_op(old(p)@, op@),
{
    match op.text_at("op") {
        None => warn(p, "todo_op 缺 op 字段".to_owned()),
        Some(kind) => if same_text(kind.as_str(), "add") {
            add_todo(p, op);
        } else if same_text(kind.as_str(), "done") {
            finish_todo(p, op);
        } else if same_text(kind.as_str(), "drop") {
            drop_todo(p, op);
        } else if same_text(kind.as_str(), "status") {
            set_todo_status(p, op);
        } else if same_text(kind.as_str(), "reset") {
            reset_todos(p, op);
        } else {
            warn(p, cat("todo_op: 非法 op ", kind.as_str()));
        },
    }
}

fn find_assumption(list: &Vec<Assumption>, id: u64) -> (r: usize)
    ensures
        r == assumption_position(list.deep_view(), id, 0),
        r <= list@.len(),
{
    let mut i: usize = 0;
    while i < list.len()
        invariant
            i <= list@.len(),
            assumption_position(list.deep_view(), id, 0) == assumption_position(
                list.deep_view(),
                id,
                i as int,
            ),
        decreases list@.len() - i,
    {
        assert(list.deep_view()[i as int].id == list@[i as int].id);
        if list[i].id == id {
            return i;
        }
        i += 1;
    }
    i
}

pub(crate) fn read_assumption_status(doc: &Json) -> (r: Option<AssumptionStatus>)
    ensures
        r == assumption_status(doc@),
{
    match doc.text_at("status") {
        None => Some(AssumptionStatus::Assumed),
        Some(word) => if same_text(word.as_str(), "assumed") {
            Some(AssumptionStatus::Assumed)
        } else if same_text(word.as_str(), "confirmed") {
            Some(AssumptionStatus::Confirmed)
        } else if same_text(word.as_str(), "stale") {
            Some(AssumptionStatus::Stale)
        } else {
            None
        },
    }
}

/// Applies one reported assumption. One that cannot be taken leaves a warning
/// for the model and the assumptions as they are.
pub fn apply_assumption(p: &mut ProgressState, doc: &Json)
    requires
        assumption_op(old(p)@, doc@).todo_id_seq <= u64::MAX,
    ensures
        final(p)@ == assumption_op(old(p)@, doc@),
{
    let statement = match doc.text_at("statement") {
        None => {
            warn(p, "assumption 缺 statement".to_owned());
            return;
        },
        Some(statement) => statement,
    };
    if is_blank(statement.as_str()) {
        warn(p, "assumption statement 为空".to_owned());
        return;
    }
    match read_assumption_status(doc) {
        None => {
            if let Some(word) = doc.text_at("status") {
                warn(p, cat("assumption: 非法状态 ", word.as_str()));
            }
        },
        Some(status) => {
            let known: usize = match doc.u64_at("id") {
                Some(id) => find_assumption(&p.assumptions, id),
                None => p.assumptions.len(),
            };
            if known < p.assumptions.len() {
                p.assumptions[known].statement = statement;
                p.assumptions[known].status = status;
                assert(p.assumptions.deep_view() =~= assumption_op(old(p)@, doc@).assumptions);
            } else {
                let id: u64 = p.todo_id_seq;
                p.todo_id_seq += 1;
                p.assumptions.push(Assumption { id, statement, status });
                assert(p.assumptions.deep_view() =~= assumption_op(old(p)@, doc@).assumptions);
            }
        },
    }
}

} // verus!
