//! Whether the counters of the progress have room for a patch.

use vstd::prelude::*;

use crate::json::docs;
use crate::json::list_field;
use crate::json::text_field;
use crate::json::u64_field;
use crate::json::Json;
use crate::json::JsonView;
use crate::progress::channel::assumption_ops;
use crate::progress::channel::intent_changes;
use crate::progress::channel::lemma_assumption_ops_counts;
use crate::progress::channel::lemma_todo_ops_counts;
use crate::progress::channel::patched;
use crate::progress::channel::todo_ops;
use crate::progress::channel::with_intent;
use crate::progress::channel::with_todos;
use crate::progress::state::AssumptionView;
use crate::progress::state::ProgressState;
use crate::progress::state::ProgressView;
use crate::progress::todo::assumption_op;
use crate::progress::todo::assumption_position;
use crate::progress::todo::assumption_status;
use crate::progress::todo::first_refused;
use crate::progress::todo::lemma_first_refused;
use crate::progress::todo::read_assumption_status;
use crate::progress::todo::read_entry;
use crate::progress::todo::todo_op;
use crate::text::blank;
use crate::text::is_blank;
use crate::text::same_text;

verus! {

/// Whether the counters have room for a patch.
pub open spec fn has_room(p: ProgressView, patch: JsonView) -> bool {
    patched(p, patch).todo_id_seq <= u64::MAX && patched(p, patch).digest_seq <= u64::MAX
}

/// How many numbers an operation uses up: one for an addition, and for a reset
/// one for each entry up to the first that cannot be taken.
pub open spec fn op_uses(op: JsonView) -> int {
    match text_field(op, "op"@) {
        None => 0,
        Some(kind) => if kind == "add"@ {
            if text_field(op, "text"@) is Some {
                1
            } else {
                0
            }
        } else if kind == "done"@ || kind == "drop"@ || kind == "status"@ {
            0
        } else if kind == "reset"@ {
            match list_field(op, "items"@) {
                Some(items) => first_refused(items, 0),
                None => 0,
            }
        } else {
            0
        },
    }
}

/// Whether an assumption replaces none of those with these numbers, and is taken.
pub open spec fn takes_number(ids: Seq<u64>, doc: JsonView) -> bool {
    match text_field(doc, "statement"@) {
        None => false,
        Some(statement) => !blank(statement) && assumption_status(doc) is Some && match u64_field(
            doc,
            "id"@,
        ) {
            Some(id) => !ids.contains(id),
            None => true,
        },
    }
}

/// The numbers of assumptions.
pub open spec fn numbers_of(list: Seq<AssumptionView>) -> Seq<u64> {
    Seq::new(list.len(), |i: int| list[i].id)
}

proof fn lemma_op_uses(p: ProgressView, op: JsonView)
    ensures
        op_uses(op) >= 0,
        todo_op(p, op).todo_id_seq == p.todo_id_seq + op_uses(op),
        todo_op(p, op).assumptions == p.assumptions,
{
    if let Some(items) = list_field(op, "items"@) {
        lemma_first_refused(items, 0);
    }
}

proof fn lemma_todo_ops_keep_assumptions(p: ProgressView, ops: Seq<JsonView>)
    ensures
        todo_ops(p, ops).assumptions == p.assumptions,
    decreases ops.len(),
{
    if ops.len() > 0 {
        lemma_todo_ops_keep_assumptions(p, ops.drop_last());
        lemma_op_uses(todo_ops(p, ops.drop_last()), ops.last());
    }
}

proof fn lemma_position_known(list: Seq<AssumptionView>, id: u64, from: int)
    requires
        0 <= from <= list.len(),
    ensures
        from <= assumption_position(list, id, from) <= list.len(),
        assumption_position(list, id, from) < list.len() <==> exists|i: int|
            from <= i < list.len() && (#[trigger] list[i]).id == id,
    decreases list.len() - from,
{
    if from < list.len() && list[from].id != id {
        lemma_position_known(list, id, from + 1);
    }
}

proof fn lemma_takes_number(p: ProgressView, doc: JsonView)
    ensures
        assumption_op(p, doc).todo_id_seq == p.todo_id_seq + (if takes_number(
            numbers_of(p.assumptions),
            doc,
        ) {
            1int
        } else {
            0
        }),
        numbers_of(assumption_op(p, doc).assumptions) == (if takes_number(
            numbers_of(p.assumptions),
            doc,
        ) {
            numbers_of(p.assumptions).push(p.todo_id_seq as u64)
        } else {
            numbers_of(p.assumptions)
        }),
{
    let ids = numbers_of(p.assumptions);
    let q = assumption_op(p, doc);
    if let Some(id) = u64_field(doc, "id"@) {
        lemma_position_known(p.assumptions, id, 0);
        let known = assumption_position(p.assumptions, id, 0);
        if known < p.assumptions.len() {
            let i = choose|i: int| 0 <= i < p.assumptions.len() && (#[trigger] p.assumptions[i]).id == id;
            assert(ids[i] == id);
        } else if ids.contains(id) {
            let i = choose|i: int| 0 <= i < ids.len() && ids[i] == id;
            assert(p.assumptions[i].id == id);
        }
    }
    if takes_number(ids, doc) {
        assert(numbers_of(q.assumptions) =~= ids.push(p.todo_id_seq as u64));
    } else {
        assert(numbers_of(q.assumptions) =~= ids);
    }
}

fn count_entries(items: &Vec<Json>) -> (r: usize)
    ensures
        r == first_refused(docs(items@), 0),
{
    let ghost all = docs(items@);
    let mut i: usize = 0;
    while i < items.len()
        invariant
            i <= items@.len(),
            all == docs(items@),
            first_refused(all, 0) == first_refused(all, i as int),
        decreases items@.len() - i,
    {
        assert(all[i as int] == items@[i as int]@);
        if read_entry(&items[i], 0).is_err() {
            return i;
        }
        i += 1;
    }
    i
}

fn count_numbers(op: &Json) -> (r: usize)
    ensures
        r == op_uses(op@),
{
    let kind = match op.text_at("op") {
        Some(kind) => kind,
        None => {
            return 0;
        },
    };
    if same_text(kind.as_str(), "add") {
        return if op.text_at("text").is_some() {
            1
        } else {
            0
        };
    }
    if same_text(kind.as_str(), "done") || same_text(kind.as_str(), "drop") || same_text(
        kind.as_str(),
        "status",
    ) {
        return 0;
    }
    if same_text(kind.as_str(), "reset") {
        if let Some(items) = op.list_at("items") {
            return count_entries(items);
        }
    }
    0
}

fn holds_number(ids: &Vec<u64>, id: u64) -> (r: bool)
    ensures
        r == ids@.contains(id),
{
    let mut i: usize = 0;
    while i < ids.len()
        invariant
            i <= ids@.len(),
            forall|k: int| 0 <= k < i ==> ids@[k] != id,
        decreases ids@.len() - i,
    {
        if ids[i] == id {
            return true;
        }
        i += 1;
    }
    false
}

fn needs_number(ids: &Vec<u64>, doc: &Json) -> (r: bool)
    ensures
        r == takes_number(ids@, doc@),
{
    match doc.text_at("statement") {
        None => false,
        Some(statement) => {
            if is_blank(statement.as_str()) || read_assumption_status(doc).is_none() {
                return false;
            }
            match doc.u64_at("id") {
                Some(id) => !holds_number(ids, id),
                None => true,
            }
        },
    }
}

impl ProgressState {
    fn assumption_numbers(&self) -> (r: Vec<u64>)
        ensures
            r@ == numbers_of(self@.assumptions),
    {
        let ghost all = self@.assumptions;
        let mut ids: Vec<u64> = Vec::new();
        let mut i: usize = 0;
        while i < self.assumptions.len()
            invariant
                i <= self.assumptions@.len(),
                all == self@.assumptions,
                ids@.len() == i,
                forall|k: int| 0 <= k < i ==> ids@[k] == all[k].id,
            decreases self.assumptions@.len() - i,
        {
            assert(all[i as int] == self.assumptions@[i as int]@);
            ids.push(self.assumptions[i].id);
            i += 1;
        }
        assert(ids@ =~= numbers_of(all));
        ids
    }

    fn numbers_after_todos(&self, patch: &Json) -> (r: Option<u64>)
        ensures
            match r {
                Some(n) => n == with_todos(self@, patch@).todo_id_seq,
                None => with_todos(self@, patch@).todo_id_seq > u64::MAX,
            },
    {
        let ghost start = with_intent(self@, patch@);
        let mut used: u64 = self.todo_id_seq;
        if let Some(ops) = patch.list_at("todo_ops") {
            let ghost all = docs(ops@);
            let mut i: usize = 0;
            assert(all.take(0) =~= Seq::<JsonView>::empty());
            while i < ops.len()
                invariant
                    i <= ops@.len(),
                    all == docs(ops@),
                    list_field(patch@, "todo_ops"@) == Some(all),
                    start == with_intent(self@, patch@),
                    used == todo_ops(start, all.take(i as int)).todo_id_seq,
                decreases ops@.len() - i,
            {
                let n: usize = count_numbers(&ops[i]);
                proof {
                    assert(all.take(i + 1).drop_last() =~= all.take(i as int));
                    assert(all.take(i + 1).last() == ops@[i as int]@);
                    lemma_op_uses(todo_ops(start, all.take(i as int)), all[i as int]);
                    lemma_todo_ops_counts(start, all, i + 1);
                }
                if n as u64 > u64::MAX - used {
                    return None;
                }
                used = used + n as u64;
                i += 1;
            }
            assert(all.take(i as int) =~= all);
        }
        Some(used)
    }

    /// What the counters of numbers and of digest entries come to with a patch,
    /// if they have room for it.
    pub fn counters_after(&self, patch: &Json) -> (r: Option<(u64, u64)>)
        ensures
            match r {
                Some((numbers, digests)) => numbers == patched(self@, patch@).todo_id_seq && digests
                    == patched(self@, patch@).digest_seq,
                None => !has_room(self@, patch@),
            },
    {
        let ghost start = with_intent(self@, patch@);
        let ghost middle = with_todos(self@, patch@);
        proof {
            if let Some(ops) = list_field(patch@, "todo_ops"@) {
                lemma_todo_ops_counts(start, ops, 0);
                lemma_todo_ops_keep_assumptions(start, ops);
            }
            if let Some(list) = list_field(patch@, "assumptions"@) {
                lemma_assumption_ops_counts(middle, list, 0);
            }
        }
        let mut digests: u64 = self.digest_seq;
        if let Some(intent) = patch.text_at("intent") {
            if let Some(old_intent) = &self.intent {
                if !same_text(old_intent.as_str(), intent.as_str()) {
                    assert(intent_changes(self@, patch@));
                    if digests == u64::MAX {
                        return None;
                    }
                    digests = digests + 1;
                }
            }
        }
        assert(digests == start.digest_seq);
        let mut used: u64 = match self.numbers_after_todos(patch) {
            Some(n) => n,
            None => {
                return None;
            },
        };
        if let Some(list) = patch.list_at("assumptions") {
            let mut ids = self.assumption_numbers();
            let ghost all = docs(list@);
            let mut i: usize = 0;
            assert(all.take(0) =~= Seq::<JsonView>::empty());
            while i < list.len()
                invariant
                    i <= list@.len(),
                    all == docs(list@),
                    list_field(patch@, "assumptions"@) == Some(all),
                    middle == with_todos(self@, patch@),
                    used == assumption_ops(middle, all.take(i as int)).todo_id_seq,
                    ids@ == numbers_of(assumption_ops(middle, all.take(i as int)).assumptions),
                    patched(self@, patch@).todo_id_seq == assumption_ops(middle, all).todo_id_seq,
                decreases list@.len() - i,
            {
                proof {
                    assert(all.take(i + 1).drop_last() =~= all.take(i as int));
                    assert(all.take(i + 1).last() == list@[i as int]@);
                    lemma_takes_number(assumption_ops(middle, all.take(i as int)), all[i as int]);
                    lemma_assumption_ops_counts(middle, all, i + 1);
                }
                if needs_number(&ids, &list[i]) {
                    if used == u64::MAX {
                        return None;
                    }
                    ids.push(used);
                    used = used + 1;
                }
                i += 1;
            }
            assert(all.take(i as int) =~= all);
        }
        Some((used, digests))
    }

    /// Whether the counters have room for a patch.
    pub fn has_room_for(&self, patch: &Json) -> (r: bool)
        ensures
            r == has_room(self@, patch@),
    {
        self.counters_after(patch).is_some()
    }
}

} // verus!
