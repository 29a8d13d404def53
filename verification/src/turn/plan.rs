//! What is to be done, and in which order, when a model has put out an item.

use vstd::prelude::*;
use vstd::string::*;

use crate::json::Json;
use crate::json::JsonView;
use crate::models::FunctionCallOutputPayload;
use crate::models::FunctionCallOutputPayloadView;
use crate::models::ResponseItem;
use crate::models::ResponseItemView;
use crate::turn::envelope::ToolCall;
use crate::turn::envelope::ToolCallView;
use crate::turn::items::assistant_text;
use crate::turn::items::completed_item_defers_mailbox_delivery_to_next_turn;
use crate::turn::items::defers_mail;
use crate::turn::items::external_context;
use crate::turn::items::raw_assistant_output_text_from_item;
use crate::turn::items::response_input_to_response_item;
use crate::turn::items::response_item_may_include_external_context;
use crate::turn::items::started;
use crate::turn::items::FinalizedTurnItem;
use crate::turn::items::FinalizedTurnItemFacts;
use crate::turn::items::FinalizedTurnItemFactsView;
use crate::turn::items::FinalizedTurnItemView;
use crate::turn::items::ResponseInputItem;
use crate::turn::items::TurnItem;
use crate::turn::items::TurnItemView;
use crate::text::copy_text;

verus! {

/// What the router made of an item.
#[derive(Debug)]
pub enum Routed {
    /// A call of a tool.
    Call(ToolCall),
    /// No call.
    NoCall,
    /// A call that is answered without a tool.
    RespondToModel(String),
    /// A call that ends the turn.
    Fatal(String),
}

/// What a `Routed` means.
#[verifier::ext_equal]
pub enum RoutedView {
    Call(ToolCallView),
    NoCall,
    RespondToModel(Seq<char>),
    Fatal(Seq<char>),
}

impl View for Routed {
    type V = RoutedView;

    open spec fn view(&self) -> RoutedView {
        match self {
            Routed::Call(v) => RoutedView::Call(v.deep_view()),
            Routed::NoCall => RoutedView::NoCall,
            Routed::RespondToModel(v) => RoutedView::RespondToModel(v.deep_view()),
            Routed::Fatal(v) => RoutedView::Fatal(v.deep_view()),
        }
    }
}

impl DeepView for Routed {
    type V = RoutedView;

    open spec fn deep_view(&self) -> RoutedView {
        self.view()
    }
}

/// One thing to be done.
#[derive(Debug)]
pub enum TurnAction {
    /// Take in mail during this turn.
    AcceptMailbox,
    /// Record the model's item as complete.
    RecordCompleted,
    /// Record the model's item as complete, with what is known of it.
    RecordCompletedWithFacts(Option<FinalizedTurnItemFacts>),
    /// Record an answer in the conversation.
    RecordAnswer(ResponseItem),
    /// Note a failed call in the progress.
    ReflowFailure(ResponseItem),
    /// Start the tool.
    RunTool(ToolCall),
    /// Finalize the item, then go on with what comes of it.
    Finalize,
    /// Show that an item starts.
    EmitStarted(TurnItem),
    /// Show that an item is complete.
    EmitCompleted(TurnItem),
}

/// What a `TurnAction` means.
#[verifier::ext_equal]
pub enum TurnActionView {
    AcceptMailbox,
    RecordCompleted,
    RecordCompletedWithFacts(Option<FinalizedTurnItemFactsView>),
    RecordAnswer(ResponseItemView),
    ReflowFailure(ResponseItemView),
    RunTool(ToolCallView),
    Finalize,
    EmitStarted(TurnItemView),
    EmitCompleted(TurnItemView),
}

impl View for TurnAction {
    type V = TurnActionView;

    open spec fn view(&self) -> TurnActionView {
        match self {
            TurnAction::AcceptMailbox => TurnActionView::AcceptMailbox,
            TurnAction::RecordCompleted => TurnActionView::RecordCompleted,
            TurnAction::RecordCompletedWithFacts(v) => TurnActionView::RecordCompletedWithFacts(v.deep_view()),
            TurnAction::RecordAnswer(v) => TurnActionView::RecordAnswer(v.deep_view()),
            TurnAction::ReflowFailure(v) => TurnActionView::ReflowFailure(v.deep_view()),
            TurnAction::RunTool(v) => TurnActionView::RunTool(v.deep_view()),
            TurnAction::Finalize => TurnActionView::Finalize,
            TurnAction::EmitStarted(v) => TurnActionView::EmitStarted(v.deep_view()),
            TurnAction::EmitCompleted(v) => TurnActionView::EmitCompleted(v.deep_view()),
        }
    }
}

impl DeepView for TurnAction {
    type V = TurnActionView;

    open spec fn deep_view(&self) -> TurnActionView {
        self.view()
    }
}

/// What is to be done with an item, and whether the model is asked again.
#[derive(Debug)]
pub struct OutputPlan {
    pub actions: Vec<TurnAction>,
    pub needs_follow_up: bool,
    pub last_agent_message: Option<String>,
    /// Why the turn ends, when it does.
    pub fatal: Option<String>,
}

/// What a `OutputPlan` means.
#[verifier::ext_equal]
pub struct OutputPlanView {
    pub actions: Seq<TurnActionView>,
    pub needs_follow_up: bool,
    pub last_agent_message: Option<Seq<char>>,
    pub fatal: Option<Seq<char>>,
}

impl View for OutputPlan {
    type V = OutputPlanView;

    open spec fn view(&self) -> OutputPlanView {
        OutputPlanView {
            actions: self.actions.deep_view(),
            needs_follow_up: self.needs_follow_up.deep_view(),
            last_agent_message: self.last_agent_message.deep_view(),
            fatal: self.fatal.deep_view(),
        }
    }
}

impl DeepView for OutputPlan {
    type V = OutputPlanView;

    open spec fn deep_view(&self) -> OutputPlanView {
        self.view()
    }
}

/// The answer to a call that is not made.
pub open spec fn refusal(
    call_id: Seq<char>,
    message: Seq<char>,
    success: Option<bool>,
) -> ResponseItemView {
    ResponseItemView::FunctionCallOutput {
        id: None,
        call_id,
        output: FunctionCallOutputPayloadView { text: Some(message), success },
    }
}

/// What is to be done with an item that was routed. A call is recorded and then
/// made; one that is refused is answered in its place, and the failure noted. A
/// call that is answered without a tool is recorded with its answer; the failure
/// is noted first where progress is reported.
pub open spec fn plan_for(
    routed: RoutedView,
    progress_enabled: bool,
    refused: Option<Seq<char>>,
) -> OutputPlanView {
    match routed {
        RoutedView::Call(call) => {
            let opening = seq![TurnActionView::AcceptMailbox, TurnActionView::RecordCompleted];
            match refused {
                Some(message) => if progress_enabled {
                    let answer = refusal(call.call_id, message, Some(false));
                    OutputPlanView {
                        actions: opening + seq![
                            TurnActionView::RecordAnswer(answer),
                            TurnActionView::ReflowFailure(answer),
                        ],
                        needs_follow_up: true,
                        last_agent_message: None,
                        fatal: None,
                    }
                } else {
                    call_plan(opening, call)
                },
                None => call_plan(opening, call),
            }
        },
        RoutedView::NoCall => OutputPlanView {
            actions: seq![TurnActionView::Finalize],
            needs_follow_up: false,
            last_agent_message: None,
            fatal: None,
        },
        RoutedView::RespondToModel(message) => {
            let answer = refusal(Seq::empty(), message, None);
            OutputPlanView {
                actions: if progress_enabled {
                    seq![
                        TurnActionView::RecordCompleted,
                        TurnActionView::ReflowFailure(answer),
                        TurnActionView::RecordAnswer(answer),
                    ]
                } else {
                    seq![TurnActionView::RecordCompleted, TurnActionView::RecordAnswer(answer)]
                },
                needs_follow_up: true,
                last_agent_message: None,
                fatal: None,
            }
        },
        RoutedView::Fatal(message) => OutputPlanView {
            actions: Seq::empty(),
            needs_follow_up: false,
            last_agent_message: None,
            fatal: Some(message),
        },
    }
}

/// The plan of a call that is made.
pub open spec fn call_plan(opening: Seq<TurnActionView>, call: ToolCallView) -> OutputPlanView {
    OutputPlanView {
        actions: opening + seq![TurnActionView::RunTool(call)],
        needs_follow_up: true,
        last_agent_message: None,
        fatal: None,
    }
}

fn push_action(actions: &mut Vec<TurnAction>, action: TurnAction)
    ensures
        final(actions).deep_view() == old(actions).deep_view().push(action@),
{
    actions.push(action);
    assert(actions.deep_view() =~= old(actions).deep_view().push(action@));
}

fn no_actions() -> (r: Vec<TurnAction>)
    ensures
        r.deep_view() == Seq::<TurnActionView>::empty(),
{
    let actions: Vec<TurnAction> = Vec::new();
    assert(actions.deep_view() =~= Seq::<TurnActionView>::empty());
    actions
}

fn make_refusal(call_id: String, message: String, success: Option<bool>) -> (r: Option<ResponseItem>)
    ensures
        r.deep_view() == Some(refusal(call_id@, message@, success)),
{
    let response = ResponseInputItem::FunctionCallOutput {
        call_id,
        output: FunctionCallOutputPayload { text: Some(message), success },
    };
    response_input_to_response_item(&response)
}

/// Plans what is to be done with an item that was routed, given what is wrong
/// with the call.
pub fn plan_output_item(routed: Routed, progress_enabled: bool, refused: Option<String>) -> (r:
    OutputPlan)
    ensures
        r@ == plan_for(routed@, progress_enabled, refused.deep_view()),
{
    let ghost wanted = plan_for(routed@, progress_enabled, refused.deep_view());
    let mut actions = no_actions();
    let mut needs_follow_up: bool = false;
    let mut fatal: Option<String> = None;
    match routed {
        Routed::Call(call) => {
            push_action(&mut actions, TurnAction::AcceptMailbox);
            push_action(&mut actions, TurnAction::RecordCompleted);
            needs_follow_up = true;
            match refused {
                Some(message) => if progress_enabled {
                    if let Some(answer) = make_refusal(call.call_id, message, Some(false)) {
                        let copy = answer.copy();
                        push_action(&mut actions, TurnAction::RecordAnswer(answer));
                        push_action(&mut actions, TurnAction::ReflowFailure(copy));
                    }
                } else {
                    push_action(&mut actions, TurnAction::RunTool(call));
                },
                None => {
                    push_action(&mut actions, TurnAction::RunTool(call));
                },
            }
        },
        Routed::NoCall => {
            push_action(&mut actions, TurnAction::Finalize);
        },
        Routed::RespondToModel(message) => {
            needs_follow_up = true;
            let nobody = String::new();
            assert(nobody@ =~= Seq::<char>::empty());
            push_action(&mut actions, TurnAction::RecordCompleted);
            if let Some(answer) = make_refusal(nobody, message, None) {
                if progress_enabled {
                    push_action(&mut actions, TurnAction::ReflowFailure(answer.copy()));
                }
                push_action(&mut actions, TurnAction::RecordAnswer(answer));
            }
        },
        Routed::Fatal(message) => {
            fatal = Some(message);
        },
    }
    assert(actions.deep_view() =~= wanted.actions);
    OutputPlan { actions, needs_follow_up, last_agent_message: None, fatal }
}

/// What is to be done once an item is finalized: it is shown, first as started
/// when it was not yet, and recorded with what is known of it.
pub open spec fn plan_after_finalize(
    finalized: Option<FinalizedTurnItemView>,
    already_active: bool,
) -> OutputPlanView {
    match finalized {
        Some(done) => OutputPlanView {
            actions: (if already_active {
                Seq::empty()
            } else {
                seq![TurnActionView::EmitStarted(started(done.turn_item))]
            }) + seq![
                TurnActionView::EmitCompleted(done.turn_item),
                TurnActionView::RecordCompletedWithFacts(Some(done.facts)),
            ],
            needs_follow_up: false,
            last_agent_message: done.facts.last_agent_message,
            fatal: None,
        },
        None => OutputPlanView {
            actions: seq![TurnActionView::RecordCompletedWithFacts(None)],
            needs_follow_up: false,
            last_agent_message: None,
            fatal: None,
        },
    }
}

/// Plans what is to be done once an item is finalized.
pub fn plan_finalized_item(finalized: Option<FinalizedTurnItem>, already_active: bool) -> (r:
    OutputPlan)
    ensures
        r@ == plan_after_finalize(finalized.deep_view(), already_active),
{
    let ghost wanted = plan_after_finalize(finalized.deep_view(), already_active);
    let mut actions = no_actions();
    let mut last: Option<String> = None;
    match finalized {
        Some(done) => {
            if !already_active {
                push_action(&mut actions, TurnAction::EmitStarted(done.turn_item.as_started()));
            }
            last = copy_text(&done.facts.last_agent_message);
            push_action(&mut actions, TurnAction::EmitCompleted(done.turn_item));
            push_action(&mut actions, TurnAction::RecordCompletedWithFacts(Some(done.facts)));
        },
        None => {
            push_action(&mut actions, TurnAction::RecordCompletedWithFacts(None));
        },
    }
    assert(actions.deep_view() =~= wanted.actions);
    OutputPlan { actions, needs_follow_up: false, last_agent_message: last, fatal: None }
}

/// Where the citation of a complete item is looked for.
#[derive(Debug, Clone, PartialEq)]
pub enum CitationSource {
    /// It is known.
    Known(Json),
    /// It may stand in this text.
    Text(String),
    /// There is none.
    Nowhere,
}

/// What a `CitationSource` means.
#[verifier::ext_equal]
pub enum CitationSourceView {
    Known(JsonView),
    Text(Seq<char>),
    Nowhere,
}

impl View for CitationSource {
    type V = CitationSourceView;

    open spec fn view(&self) -> CitationSourceView {
        match self {
            CitationSource::Known(v) => CitationSourceView::Known(v.deep_view()),
            CitationSource::Text(v) => CitationSourceView::Text(v.deep_view()),
            CitationSource::Nowhere => CitationSourceView::Nowhere,
        }
    }
}

impl DeepView for CitationSource {
    type V = CitationSourceView;

    open spec fn deep_view(&self) -> CitationSourceView {
        self.view()
    }
}

/// What recording a complete item brings with it.
#[derive(Debug, Clone, PartialEq)]
pub struct RecordPlan {
    pub defer_mailbox_delivery: bool,
    pub mark_memory_polluted: bool,
    pub citation: CitationSource,
}

/// What a `RecordPlan` means.
#[verifier::ext_equal]
pub struct RecordPlanView {
    pub defer_mailbox_delivery: bool,
    pub mark_memory_polluted: bool,
    pub citation: CitationSourceView,
}

impl View for RecordPlan {
    type V = RecordPlanView;

    open spec fn view(&self) -> RecordPlanView {
        RecordPlanView {
            defer_mailbox_delivery: self.defer_mailbox_delivery.deep_view(),
            mark_memory_polluted: self.mark_memory_polluted.deep_view(),
            citation: self.citation.deep_view(),
        }
    }
}

impl DeepView for RecordPlan {
    type V = RecordPlanView;

    open spec fn deep_view(&self) -> RecordPlanView {
        self.view()
    }
}

/// What recording a complete item brings with it. What is known of the finalized
/// item decides where there is such.
pub open spec fn record_plan(
    item: ResponseItemView,
    facts: Option<FinalizedTurnItemFactsView>,
    stripped: Seq<char>,
    disable_on_external_context: bool,
) -> RecordPlanView {
    RecordPlanView {
        defer_mailbox_delivery: match facts {
            Some(f) => f.defers_mailbox_delivery_to_next_turn,
            None => defers_mail(item, stripped),
        },
        mark_memory_polluted: disable_on_external_context && external_context(item),
        citation: match facts {
            Some(FinalizedTurnItemFactsView { memory_citation: Some(citation), .. }) =>
                CitationSourceView::Known(citation),
            _ => match assistant_text(item) {
                Some(text) => CitationSourceView::Text(text),
                None => CitationSourceView::Nowhere,
            },
        },
    }
}

/// Plans what recording a complete item brings with it, given the item's text
/// without its hidden markup.
pub fn plan_record(
    item: &ResponseItem,
    facts: Option<&FinalizedTurnItemFacts>,
    stripped: String,
    disable_on_external_context: bool,
) -> (r: RecordPlan)
    ensures
        r@ == record_plan(item@, facts.deep_view(), stripped@, disable_on_external_context),
{
    let mut known: Option<Json> = None;
    let defer = match facts {
        Some(f) => {
            if let Some(citation) = &f.memory_citation {
                known = Some(citation.copy());
            }
            f.defers_mailbox_delivery_to_next_turn
        },
        None => completed_item_defers_mailbox_delivery_to_next_turn(item, stripped),
    };
    let citation = match known {
        Some(citation) => CitationSource::Known(citation),
        None => match raw_assistant_output_text_from_item(item) {
            Some(text) => CitationSource::Text(text),
            None => CitationSource::Nowhere,
        },
    };
    RecordPlan {
        defer_mailbox_delivery: defer,
        mark_memory_polluted: disable_on_external_context
            && response_item_may_include_external_context(item),
        citation,
    }
}

/// A tool is started only after the call that starts it was recorded, and never
/// when the call is refused.
pub proof fn law_calls_are_recorded_first(
    routed: RoutedView,
    progress_enabled: bool,
    refused: Option<Seq<char>>,
    i: int,
)
    requires
        0 <= i < plan_for(routed, progress_enabled, refused).actions.len(),
        plan_for(routed, progress_enabled, refused).actions[i] is RunTool,
    ensures
        !(progress_enabled && refused is Some),
        exists|j: int|
            0 <= j < i && (#[trigger] plan_for(routed, progress_enabled, refused).actions[j])
                == TurnActionView::RecordCompleted,
{
    let plan = plan_for(routed, progress_enabled, refused);
    if let RoutedView::Call(_) = routed {
        assert(plan.actions[1] == TurnActionView::RecordCompleted);
    }
}

/// Every call that is not fatal has the model asked again: with the tool's
/// answer or with the reason why there is none.
pub proof fn law_calls_need_follow_up(
    routed: RoutedView,
    progress_enabled: bool,
    refused: Option<Seq<char>>,
)
    ensures
        plan_for(routed, progress_enabled, refused).needs_follow_up == (routed is Call
            || routed is RespondToModel),
{
}

} // verus!
