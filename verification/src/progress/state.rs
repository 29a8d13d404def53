//! The progress of a session: intent, to-dos, assumptions, touched files, the
//! last error and the warnings that go back to the model.

use vstd::prelude::*;

verus! {

/// Where in a conversation something happened.
#[derive(Debug, Clone, PartialEq)]
pub struct TurnRef {
    pub turn_id: String,
    pub item_index: Option<u64>,
}

/// What a `TurnRef` means.
#[verifier::ext_equal]
pub struct TurnRefView {
    pub turn_id: Seq<char>,
    pub item_index: Option<u64>,
}

impl View for TurnRef {
    type V = TurnRefView;

    open spec fn view(&self) -> TurnRefView {
        TurnRefView {
            turn_id: self.turn_id.deep_view(),
            item_index: self.item_index.deep_view(),
        }
    }
}

impl DeepView for TurnRef {
    type V = TurnRefView;

    open spec fn deep_view(&self) -> TurnRefView {
        self.view()
    }
}

/// How far a to-do is.
#[derive(Debug, Clone, Copy, PartialEq, Eq)]
pub enum TodoStatus {
    Todo,
    Doing,
    Done,
    Blocked,
}

impl View for TodoStatus {
    type V = TodoStatus;

    open spec fn view(&self) -> TodoStatus {
        *self
    }
}

impl DeepView for TodoStatus {
    type V = TodoStatus;

    open spec fn deep_view(&self) -> TodoStatus {
        self.view()
    }
}

/// A to-do; the model sees its number as `t{id}`.
#[derive(Debug, Clone, PartialEq)]
pub struct TodoItem {
    pub id: u64,
    pub text: String,
    pub status: TodoStatus,
    pub blocked_reason: Option<String>,
}

/// What a `TodoItem` means.
#[verifier::ext_equal]
pub struct TodoItemView {
    pub id: u64,
    pub text: Seq<char>,
    pub status: TodoStatus,
    pub blocked_reason: Option<Seq<char>>,
}

impl View for TodoItem {
    type V = TodoItemView;

    open spec fn view(&self) -> TodoItemView {
        TodoItemView {
            id: self.id.deep_view(),
            text: self.text.deep_view(),
            status: self.status.deep_view(),
            blocked_reason: self.blocked_reason.deep_view(),
        }
    }
}

impl DeepView for TodoItem {
    type V = TodoItemView;

    open spec fn deep_view(&self) -> TodoItemView {
        self.view()
    }
}

/// How sure an assumption is.
#[derive(Debug, Clone, Copy, PartialEq, Eq)]
pub enum AssumptionStatus {
    Assumed,
    Confirmed,
    Stale,
}

impl View for AssumptionStatus {
    type V = AssumptionStatus;

    open spec fn view(&self) -> AssumptionStatus {
        *self
    }
}

impl DeepView for AssumptionStatus {
    type V = AssumptionStatus;

    open spec fn deep_view(&self) -> AssumptionStatus {
        self.view()
    }
}

/// Something the work rests on.
#[derive(Debug, Clone, PartialEq)]
pub struct Assumption {
    pub id: u64,
    pub statement: String,
    pub status: AssumptionStatus,
}

/// What a `Assumption` means.
#[verifier::ext_equal]
pub struct AssumptionView {
    pub id: u64,
    pub statement: Seq<char>,
    pub status: AssumptionStatus,
}

impl View for Assumption {
    type V = AssumptionView;

    open spec fn view(&self) -> AssumptionView {
        AssumptionView {
            id: self.id.deep_view(),
            statement: self.statement.deep_view(),
            status: self.status.deep_view(),
        }
    }
}

impl DeepView for Assumption {
    type V = AssumptionView;

    open spec fn deep_view(&self) -> AssumptionView {
        self.view()
    }
}

/// What the last failed tool call said.
#[derive(Debug, Clone, PartialEq)]
pub struct LastError {
    pub turn_ref: TurnRef,
    pub brief: String,
}

/// What a `LastError` means.
#[verifier::ext_equal]
pub struct LastErrorView {
    pub turn_ref: TurnRefView,
    pub brief: Seq<char>,
}

impl View for LastError {
    type V = LastErrorView;

    open spec fn view(&self) -> LastErrorView {
        LastErrorView {
            turn_ref: self.turn_ref.deep_view(),
            brief: self.brief.deep_view(),
        }
    }
}

impl DeepView for LastError {
    type V = LastErrorView;

    open spec fn deep_view(&self) -> LastErrorView {
        self.view()
    }
}

/// How reliable a derived fact is.
#[derive(Debug, Clone, Copy, PartialEq, Eq)]
pub enum Confidence {
    High,
    Low,
}

impl View for Confidence {
    type V = Confidence;

    open spec fn view(&self) -> Confidence {
        *self
    }
}

impl DeepView for Confidence {
    type V = Confidence;

    open spec fn deep_view(&self) -> Confidence {
        self.view()
    }
}

/// What a digest is about.
#[derive(Debug, Clone, Copy, PartialEq, Eq)]
pub enum DigestKind {
    Dialog,
    Tool,
}

impl View for DigestKind {
    type V = DigestKind;

    open spec fn view(&self) -> DigestKind {
        *self
    }
}

impl DeepView for DigestKind {
    type V = DigestKind;

    open spec fn deep_view(&self) -> DigestKind {
        self.view()
    }
}

/// One entry of the permanent digest log.
#[derive(Debug, Clone, PartialEq)]
pub struct DigestEntry {
    pub kind: DigestKind,
    pub tool: Option<String>,
    pub brief_result: Option<String>,
    pub dialog_summary: Option<String>,
    pub turn_ref: TurnRef,
    pub sequence: u64,
    pub confidence: Option<Confidence>,
}

/// What a `DigestEntry` means.
#[verifier::ext_equal]
pub struct DigestEntryView {
    pub kind: DigestKind,
    pub tool: Option<Seq<char>>,
    pub brief_result: Option<Seq<char>>,
    pub dialog_summary: Option<Seq<char>>,
    pub turn_ref: TurnRefView,
    pub sequence: u64,
    pub confidence: Option<Confidence>,
}

impl View for DigestEntry {
    type V = DigestEntryView;

    open spec fn view(&self) -> DigestEntryView {
        DigestEntryView {
            kind: self.kind.deep_view(),
            tool: self.tool.deep_view(),
            brief_result: self.brief_result.deep_view(),
            dialog_summary: self.dialog_summary.deep_view(),
            turn_ref: self.turn_ref.deep_view(),
            sequence: self.sequence.deep_view(),
            confidence: self.confidence.deep_view(),
        }
    }
}

impl DeepView for DigestEntry {
    type V = DigestEntryView;

    open spec fn deep_view(&self) -> DigestEntryView {
        self.view()
    }
}

/// An intent that was given up, and where.
#[derive(Debug, Clone, PartialEq)]
pub struct IntentChange {
    pub old: String,
    pub turn_ref: TurnRef,
}

/// What a `IntentChange` means.
#[verifier::ext_equal]
pub struct IntentChangeView {
    pub old: Seq<char>,
    pub turn_ref: TurnRefView,
}

impl View for IntentChange {
    type V = IntentChangeView;

    open spec fn view(&self) -> IntentChangeView {
        IntentChangeView {
            old: self.old.deep_view(),
            turn_ref: self.turn_ref.deep_view(),
        }
    }
}

impl DeepView for IntentChange {
    type V = IntentChangeView;

    open spec fn deep_view(&self) -> IntentChangeView {
        self.view()
    }
}

/// A digest entry as it is stored.
#[derive(Debug, Clone, PartialEq)]
pub struct ProgressDigestItem {
    pub entry: DigestEntry,
    pub intent_history: Vec<IntentChange>,
}

/// What a `ProgressDigestItem` means.
#[verifier::ext_equal]
pub struct ProgressDigestItemView {
    pub entry: DigestEntryView,
    pub intent_history: Seq<IntentChangeView>,
}

impl View for ProgressDigestItem {
    type V = ProgressDigestItemView;

    open spec fn view(&self) -> ProgressDigestItemView {
        ProgressDigestItemView {
            entry: self.entry.deep_view(),
            intent_history: self.intent_history.deep_view(),
        }
    }
}

impl DeepView for ProgressDigestItem {
    type V = ProgressDigestItemView;

    open spec fn deep_view(&self) -> ProgressDigestItemView {
        self.view()
    }
}

/// The progress of a session.
///
/// `todo_id_seq` hands out the numbers of to-dos and assumptions, `digest_seq`
/// those of digest entries. `files_touched` is in ascending order without
/// repetition.
#[derive(Debug, Clone, PartialEq)]
pub struct ProgressState {
    pub intent: Option<String>,
    pub todo: Vec<TodoItem>,
    pub next_step: Option<String>,
    pub assumptions: Vec<Assumption>,
    pub files_touched: Vec<String>,
    pub last_error: Option<LastError>,
    pub todo_id_seq: u64,
    pub digest_seq: u64,
    pub warnings: Vec<String>,
}

/// What a `ProgressState` means.
#[verifier::ext_equal]
pub struct ProgressView {
    pub intent: Option<Seq<char>>,
    pub todo: Seq<TodoItemView>,
    pub next_step: Option<Seq<char>>,
    pub assumptions: Seq<AssumptionView>,
    pub files_touched: Seq<Seq<char>>,
    pub last_error: Option<LastErrorView>,
    pub todo_id_seq: nat,
    pub digest_seq: nat,
    pub warnings: Seq<Seq<char>>,
}

impl View for ProgressState {
    type V = ProgressView;

    open spec fn view(&self) -> ProgressView {
        ProgressView {
            intent: self.intent.deep_view(),
            todo: self.todo.deep_view(),
            next_step: self.next_step.deep_view(),
            assumptions: self.assumptions.deep_view(),
            files_touched: self.files_touched.deep_view(),
            last_error: self.last_error.deep_view(),
            todo_id_seq: self.todo_id_seq as nat,
            digest_seq: self.digest_seq as nat,
            warnings: self.warnings.deep_view(),
        }
    }
}

impl DeepView for ProgressState {
    type V = ProgressView;

    open spec fn deep_view(&self) -> ProgressView {
        self.view()
    }
}

/// No progress yet: nothing is recorded but, perhaps, how many numbers were
/// handed out.
pub open spec fn no_progress(p: ProgressView) -> bool {
    &&& p.intent is None
    &&& p.todo.len() == 0
    &&& p.next_step is None
    &&& p.assumptions.len() == 0
    &&& p.files_touched.len() == 0
    &&& p.last_error is None
    &&& p.warnings.len() == 0
}

impl Default for ProgressState {
    fn default() -> (r: ProgressState)
        ensures
            no_progress(r@),
            r@.todo_id_seq == 0,
            r@.digest_seq == 0,
    {
        ProgressState {
            intent: None,
            todo: Vec::new(),
            next_step: None,
            assumptions: Vec::new(),
            files_touched: Vec::new(),
            last_error: None,
            todo_id_seq: 0,
            digest_seq: 0,
            warnings: Vec::new(),
        }
    }
}

impl TurnRef {
    /// A copy of the reference.
    pub fn copy(&self) -> (r: TurnRef)
        ensures
            r == *self,
    {
        TurnRef { turn_id: self.turn_id.clone(), item_index: self.item_index }
    }
}

impl ProgressState {
    /// Whether nothing is recorded.
    pub fn is_empty(&self) -> (r: bool)
        ensures
            r == no_progress(self@),
    {
        self.intent.is_none() && self.todo.len() == 0 && self.next_step.is_none()
            && self.assumptions.len() == 0 && self.files_touched.len() == 0
            && self.last_error.is_none() && self.warnings.len() == 0
    }
}

} // verus!
