//! What is read from the items of a turn.

use vstd::prelude::*;
use vstd::string::*;

use crate::json::copy_docs;
use crate::json::Json;
use crate::json::JsonView;
use crate::models::ContentItem;
use crate::models::ContentItemView;
use crate::models::FunctionCallOutputPayload;
use crate::models::FunctionCallOutputPayloadView;
use crate::models::MessagePhase;
use crate::models::ResponseItem;
use crate::models::ResponseItemView;
use crate::text::copy_texts;
use crate::text::blank;
use crate::text::copy_text;
use crate::text::is_blank;
use crate::text::same_text;

verus! {

/// The texts that a model put out, one after the other.
pub open spec fn output_text(content: Seq<ContentItemView>) -> Seq<char>
    decreases content.len(),
{
    if content.len() == 0 {
        Seq::empty()
    } else {
        match content.last() {
            ContentItemView::OutputText { text } => output_text(content.drop_last()) + text,
            _ => output_text(content.drop_last()),
        }
    }
}

/// What the assistant said in an item; none for any other item.
pub open spec fn assistant_text(item: ResponseItemView) -> Option<Seq<char>> {
    match item {
        ResponseItemView::Message { role, content, .. } => if role == "assistant"@ {
            Some(output_text(content))
        } else {
            None
        },
        _ => None,
    }
}

/// What the assistant said in an item, as it said it.
pub fn raw_assistant_output_text_from_item(item: &ResponseItem) -> (r: Option<String>)
    ensures
        r.deep_view() == assistant_text(item@),
{
    if let ResponseItem::Message { role, content, .. } = item {
        if same_text(role.as_str(), "assistant") {
            let ghost all = content.deep_view();
            let mut combined = String::new();
            let mut i: usize = 0;
            assert(all.take(0) =~= Seq::<ContentItemView>::empty());
            assert(combined@ =~= Seq::<char>::empty());
            while i < content.len()
                invariant
                    i <= content@.len(),
                    all == content.deep_view(),
                    combined@ == output_text(all.take(i as int)),
                decreases content@.len() - i,
            {
                proof {
                    assert(all.take(i + 1).drop_last() =~= all.take(i as int));
                    assert(all.take(i + 1).last() == content@[i as int]@);
                }
                if let ContentItem::OutputText { text } = &content[i] {
                    combined.append(text.as_str());
                }
                i += 1;
            }
            assert(all.take(i as int) =~= all);
            return Some(combined);
        }
    }
    None
}

/// What the user sees of what the assistant said, given the text without its
/// hidden markup; none when nothing is left.
pub open spec fn visible_message(item: ResponseItemView, stripped: Seq<char>) -> Option<Seq<char>> {
    match assistant_text(item) {
        Some(said) => if said.len() == 0 || blank(stripped) {
            None
        } else {
            Some(stripped)
        },
        None => None,
    }
}

/// What the user sees of what the assistant said in an item, given the text
/// without its hidden markup.
pub fn last_assistant_message_from_item(item: &ResponseItem, stripped: String) -> (r: Option<String>)
    ensures
        r.deep_view() == visible_message(item@, stripped@),
{
    match raw_assistant_output_text_from_item(item) {
        Some(said) => if said.as_str().is_empty() || is_blank(stripped.as_str()) {
            None
        } else {
            Some(stripped)
        },
        None => None,
    }
}

/// Whether mail is left for the next turn once an item is complete: after an
/// image, and after a visible message that is no commentary.
pub open spec fn defers_mail(item: ResponseItemView, stripped: Seq<char>) -> bool {
    match item {
        ResponseItemView::Message { phase, .. } => phase != Some(MessagePhase::Commentary)
            && visible_message(item, stripped) is Some,
        ResponseItemView::ImageGenerationCall(_) => true,
        _ => false,
    }
}

/// Whether mail is left for the next turn once an item is complete, given the
/// item's text without its hidden markup.
pub fn completed_item_defers_mailbox_delivery_to_next_turn(
    item: &ResponseItem,
    stripped: String,
) -> (r: bool)
    ensures
        r == defers_mail(item@, stripped@),
{
    match item {
        ResponseItem::Message { phase, .. } => {
            if let Some(MessagePhase::Commentary) = phase {
                return false;
            }
            last_assistant_message_from_item(item, stripped).is_some()
        },
        ResponseItem::ImageGenerationCall(_) => true,
        _ => false,
    }
}

/// Whether an item can bring in what others wrote.
pub open spec fn external_context(item: ResponseItemView) -> bool {
    item is ToolSearchCall || item is ToolSearchOutput || item is WebSearchCall
}

/// Whether an item can bring in what others wrote.
pub fn response_item_may_include_external_context(item: &ResponseItem) -> (r: bool)
    ensures
        r == external_context(item@),
{
    match item {
        ResponseItem::ToolSearchCall(_)
        | ResponseItem::ToolSearchOutput { .. }
        | ResponseItem::WebSearchCall(_) => true,
        _ => false,
    }
}

/// Whether an item is shown as an item of the turn.
pub open spec fn shown(item: ResponseItemView) -> bool {
    item is Message || item is Reasoning || item is WebSearchCall || item is ImageGenerationCall
}

/// Whether an item is shown as an item of the turn.
pub fn is_shown(item: &ResponseItem) -> (r: bool)
    ensures
        r == shown(item@),
{
    match item {
        ResponseItem::Message { .. }
        | ResponseItem::Reasoning { .. }
        | ResponseItem::WebSearchCall(_)
        | ResponseItem::ImageGenerationCall(_) => true,
        _ => false,
    }
}

/// What a tool answers.
#[derive(Debug, Clone, PartialEq)]
pub enum ResponseInputItem {
    FunctionCallOutput { call_id: String, output: FunctionCallOutputPayload },
    CustomToolCallOutput { call_id: String, name: Option<String>, output: FunctionCallOutputPayload },
    McpToolCallOutput { call_id: String, output: FunctionCallOutputPayload },
    ToolSearchOutput { call_id: String, status: String, execution: String, tools: Vec<Json> },
    /// Anything else that is put in.
    Message(Json),
}

/// What a `ResponseInputItem` means.
#[verifier::ext_equal]
pub enum ResponseInputItemView {
    FunctionCallOutput { call_id: Seq<char>, output: FunctionCallOutputPayloadView },
    CustomToolCallOutput { call_id: Seq<char>, name: Option<Seq<char>>, output: FunctionCallOutputPayloadView },
    McpToolCallOutput { call_id: Seq<char>, output: FunctionCallOutputPayloadView },
    ToolSearchOutput { call_id: Seq<char>, status: Seq<char>, execution: Seq<char>, tools: Seq<JsonView> },
    Message(JsonView),
}

impl View for ResponseInputItem {
    type V = ResponseInputItemView;

    open spec fn view(&self) -> ResponseInputItemView {
        match self {
            ResponseInputItem::FunctionCallOutput { call_id, output } => ResponseInputItemView::FunctionCallOutput {
                call_id: call_id.deep_view(),
                output: output.deep_view(),
            },
            ResponseInputItem::CustomToolCallOutput { call_id, name, output } => ResponseInputItemView::CustomToolCallOutput {
                call_id: call_id.deep_view(),
                name: name.deep_view(),
                output: output.deep_view(),
            },
            ResponseInputItem::McpToolCallOutput { call_id, output } => ResponseInputItemView::McpToolCallOutput {
                call_id: call_id.deep_view(),
                output: output.deep_view(),
            },
            ResponseInputItem::ToolSearchOutput { call_id, status, execution, tools } => ResponseInputItemView::ToolSearchOutput {
                call_id: call_id.deep_view(),
                status: status.deep_view(),
                execution: execution.deep_view(),
                tools: tools.deep_view(),
            },
            ResponseInputItem::Message(v) => ResponseInputItemView::Message(v.deep_view()),
        }
    }
}

impl DeepView for ResponseInputItem {
    type V = ResponseInputItemView;

    open spec fn deep_view(&self) -> ResponseInputItemView {
        self.view()
    }
}

/// The item of the conversation that an answer becomes.
pub open spec fn answer_item(input: ResponseInputItemView) -> Option<ResponseItemView> {
    match input {
        ResponseInputItemView::FunctionCallOutput { call_id, output } => Some(
            ResponseItemView::FunctionCallOutput { id: None, call_id, output },
        ),
        ResponseInputItemView::CustomToolCallOutput { call_id, name, output } => Some(
            ResponseItemView::CustomToolCallOutput { id: None, call_id, name, output },
        ),
        ResponseInputItemView::McpToolCallOutput { call_id, output } => Some(
            ResponseItemView::FunctionCallOutput { id: None, call_id, output },
        ),
        ResponseInputItemView::ToolSearchOutput { call_id, status, execution, tools } => Some(
            ResponseItemView::ToolSearchOutput {
                id: None,
                call_id: Some(call_id),
                status,
                execution,
                tools,
            },
        ),
        ResponseInputItemView::Message(_) => None,
    }
}

/// The item of the conversation that an answer becomes.
pub fn response_input_to_response_item(input: &ResponseInputItem) -> (r: Option<ResponseItem>)
    ensures
        r.deep_view() == answer_item(input@),
{
    match input {
        ResponseInputItem::FunctionCallOutput { call_id, output } => Some(
            ResponseItem::FunctionCallOutput {
                id: None,
                call_id: call_id.clone(),
                output: output.copy(),
            },
        ),
        ResponseInputItem::CustomToolCallOutput { call_id, name, output } => Some(
            ResponseItem::CustomToolCallOutput {
                id: None,
                call_id: call_id.clone(),
                name: copy_text(name),
                output: output.copy(),
            },
        ),
        ResponseInputItem::McpToolCallOutput { call_id, output } => Some(
            ResponseItem::FunctionCallOutput {
                id: None,
                call_id: call_id.clone(),
                output: output.copy(),
            },
        ),
        ResponseInputItem::ToolSearchOutput { call_id, status, execution, tools } => Some(
            ResponseItem::ToolSearchOutput {
                id: None,
                call_id: Some(call_id.clone()),
                status: status.clone(),
                execution: execution.clone(),
                tools: copy_docs(tools),
            },
        ),
        ResponseInputItem::Message(_) => None,
    }
}

/// A message of the assistant as an item of the turn.
#[derive(Debug, Clone, PartialEq)]
pub struct AgentMessageItem {
    pub id: String,
    pub content: Vec<String>,
    pub phase: Option<MessagePhase>,
    /// What the message cites from memory.
    pub memory_citation: Option<Json>,
}

/// What a `AgentMessageItem` means.
#[verifier::ext_equal]
pub struct AgentMessageItemView {
    pub id: Seq<char>,
    pub content: Seq<Seq<char>>,
    pub phase: Option<MessagePhase>,
    pub memory_citation: Option<JsonView>,
}

impl View for AgentMessageItem {
    type V = AgentMessageItemView;

    open spec fn view(&self) -> AgentMessageItemView {
        AgentMessageItemView {
            id: self.id.deep_view(),
            content: self.content.deep_view(),
            phase: self.phase.deep_view(),
            memory_citation: self.memory_citation.deep_view(),
        }
    }
}

impl DeepView for AgentMessageItem {
    type V = AgentMessageItemView;

    open spec fn deep_view(&self) -> AgentMessageItemView {
        self.view()
    }
}

/// A generated image as an item of the turn.
#[derive(Debug, Clone, PartialEq, Eq)]
pub struct ImageGenerationItem {
    pub id: String,
    pub status: String,
    pub revised_prompt: Option<String>,
    /// The image in base64.
    pub result: String,
    pub saved_path: Option<String>,
}

/// What a `ImageGenerationItem` means.
#[verifier::ext_equal]
pub struct ImageGenerationItemView {
    pub id: Seq<char>,
    pub status: Seq<char>,
    pub revised_prompt: Option<Seq<char>>,
    pub result: Seq<char>,
    pub saved_path: Option<Seq<char>>,
}

impl View for ImageGenerationItem {
    type V = ImageGenerationItemView;

    open spec fn view(&self) -> ImageGenerationItemView {
        ImageGenerationItemView {
            id: self.id.deep_view(),
            status: self.status.deep_view(),
            revised_prompt: self.revised_prompt.deep_view(),
            result: self.result.deep_view(),
            saved_path: self.saved_path.deep_view(),
        }
    }
}

impl DeepView for ImageGenerationItem {
    type V = ImageGenerationItemView;

    open spec fn deep_view(&self) -> ImageGenerationItemView {
        self.view()
    }
}

/// An item of the turn, as it is shown.
#[derive(Debug, Clone, PartialEq)]
pub enum TurnItem {
    AgentMessage(AgentMessageItem),
    ImageGeneration(ImageGenerationItem),
    /// Any other item.
    Other(Json),
}

/// What a `TurnItem` means.
#[verifier::ext_equal]
pub enum TurnItemView {
    AgentMessage(AgentMessageItemView),
    ImageGeneration(ImageGenerationItemView),
    Other(JsonView),
}

impl View for TurnItem {
    type V = TurnItemView;

    open spec fn view(&self) -> TurnItemView {
        match self {
            TurnItem::AgentMessage(v) => TurnItemView::AgentMessage(v.deep_view()),
            TurnItem::ImageGeneration(v) => TurnItemView::ImageGeneration(v.deep_view()),
            TurnItem::Other(v) => TurnItemView::Other(v.deep_view()),
        }
    }
}

impl DeepView for TurnItem {
    type V = TurnItemView;

    open spec fn deep_view(&self) -> TurnItemView {
        self.view()
    }
}

/// What is known once an item of the turn is complete.
#[derive(Debug, Clone, PartialEq)]
pub struct FinalizedTurnItemFacts {
    pub memory_citation: Option<Json>,
    pub last_agent_message: Option<String>,
    pub defers_mailbox_delivery_to_next_turn: bool,
}

/// What a `FinalizedTurnItemFacts` means.
#[verifier::ext_equal]
pub struct FinalizedTurnItemFactsView {
    pub memory_citation: Option<JsonView>,
    pub last_agent_message: Option<Seq<char>>,
    pub defers_mailbox_delivery_to_next_turn: bool,
}

impl View for FinalizedTurnItemFacts {
    type V = FinalizedTurnItemFactsView;

    open spec fn view(&self) -> FinalizedTurnItemFactsView {
        FinalizedTurnItemFactsView {
            memory_citation: self.memory_citation.deep_view(),
            last_agent_message: self.last_agent_message.deep_view(),
            defers_mailbox_delivery_to_next_turn: self.defers_mailbox_delivery_to_next_turn.deep_view(),
        }
    }
}

impl DeepView for FinalizedTurnItemFacts {
    type V = FinalizedTurnItemFactsView;

    open spec fn deep_view(&self) -> FinalizedTurnItemFactsView {
        self.view()
    }
}

/// A complete item of the turn, with what is known of it.
#[derive(Debug, Clone, PartialEq)]
pub struct FinalizedTurnItem {
    pub turn_item: TurnItem,
    pub facts: FinalizedTurnItemFacts,
}

/// What a `FinalizedTurnItem` means.
#[verifier::ext_equal]
pub struct FinalizedTurnItemView {
    pub turn_item: TurnItemView,
    pub facts: FinalizedTurnItemFactsView,
}

impl View for FinalizedTurnItem {
    type V = FinalizedTurnItemView;

    open spec fn view(&self) -> FinalizedTurnItemView {
        FinalizedTurnItemView {
            turn_item: self.turn_item.deep_view(),
            facts: self.facts.deep_view(),
        }
    }
}

impl DeepView for FinalizedTurnItem {
    type V = FinalizedTurnItemView;

    open spec fn deep_view(&self) -> FinalizedTurnItemView {
        self.view()
    }
}

/// Texts, one after the other.
pub open spec fn all_texts(content: Seq<Seq<char>>) -> Seq<char>
    decreases content.len(),
{
    if content.len() == 0 {
        Seq::empty()
    } else {
        all_texts(content.drop_last()) + content.last()
    }
}

/// The text of a message of the assistant.
pub fn message_text(message: &AgentMessageItem) -> (r: String)
    ensures
        r@ == all_texts(message@.content),
{
    let ghost all = message.content.deep_view();
    let mut combined = String::new();
    let mut i: usize = 0;
    assert(all.take(0) =~= Seq::<Seq<char>>::empty());
    assert(combined@ =~= Seq::<char>::empty());
    while i < message.content.len()
        invariant
            i <= message.content@.len(),
            all == message.content.deep_view(),
            combined@ == all_texts(all.take(i as int)),
        decreases message.content@.len() - i,
    {
        proof {
            assert(all.take(i + 1).drop_last() =~= all.take(i as int));
            assert(all.take(i + 1).last() == message.content@[i as int]@);
        }
        combined.append(message.content[i].as_str());
        i += 1;
    }
    assert(all.take(i as int) =~= all);
    combined
}

/// A message of which nothing but the visible text is shown. A citation that it
/// already carries stays.
pub open spec fn finished_message(
    message: AgentMessageItemView,
    stripped: Seq<char>,
    citation: Option<JsonView>,
) -> AgentMessageItemView {
    AgentMessageItemView {
        content: seq![stripped],
        memory_citation: if message.memory_citation is None {
            citation
        } else {
            message.memory_citation
        },
        ..message
    }
}

/// Leaves nothing but the visible text of a message, given that text and the
/// citation that was found in it.
pub fn finalize_message(
    message: AgentMessageItem,
    stripped: String,
    citation: Option<Json>,
) -> (r: AgentMessageItem)
    ensures
        r@ == finished_message(message@, stripped@, citation.deep_view()),
{
    let mut content: Vec<String> = Vec::new();
    content.push(stripped);
    assert(content.deep_view() =~= seq![stripped@]);
    AgentMessageItem {
        id: message.id,
        content,
        phase: message.phase,
        memory_citation: if message.memory_citation.is_none() {
            citation
        } else {
            message.memory_citation
        },
    }
}

/// Whether an image is to be saved: when there is one.
pub fn image_is_to_be_saved(image: &ImageGenerationItem) -> (r: bool)
    ensures
        r == (image@.result.len() > 0),
{
    !image.result.as_str().is_empty()
}

/// Whether a model is to be told where images are saved: once one was saved.
pub fn image_instructions_are_due(image: &ImageGenerationItem) -> (r: bool)
    ensures
        r == (image@.saved_path is Some),
{
    image.saved_path.is_some()
}

/// What is known of a complete item.
pub open spec fn facts_of(item: TurnItemView) -> FinalizedTurnItemFactsView {
    match item {
        TurnItemView::AgentMessage(message) => {
            let said = all_texts(message.content);
            let last = if blank(said) {
                None
            } else {
                Some(said)
            };
            FinalizedTurnItemFactsView {
                memory_citation: message.memory_citation,
                last_agent_message: last,
                defers_mailbox_delivery_to_next_turn: message.phase != Some(
                    MessagePhase::Commentary,
                ) && last is Some,
            }
        },
        TurnItemView::ImageGeneration(_) => FinalizedTurnItemFactsView {
            memory_citation: None,
            last_agent_message: None,
            defers_mailbox_delivery_to_next_turn: true,
        },
        TurnItemView::Other(_) => FinalizedTurnItemFactsView {
            memory_citation: None,
            last_agent_message: None,
            defers_mailbox_delivery_to_next_turn: false,
        },
    }
}

/// What is known of a complete item.
pub fn finalized_facts(turn_item: &TurnItem) -> (r: FinalizedTurnItemFacts)
    ensures
        r@ == facts_of(turn_item@),
{
    match turn_item {
        TurnItem::AgentMessage(message) => {
            let said = message_text(message);
            let last = if is_blank(said.as_str()) {
                None
            } else {
                Some(said)
            };
            let commentary = match message.phase {
                Some(MessagePhase::Commentary) => true,
                _ => false,
            };
            FinalizedTurnItemFacts {
                memory_citation: match &message.memory_citation {
                    Some(citation) => Some(citation.copy()),
                    None => None,
                },
                defers_mailbox_delivery_to_next_turn: !commentary && last.is_some(),
                last_agent_message: last,
            }
        },
        TurnItem::ImageGeneration(_) => FinalizedTurnItemFacts {
            memory_citation: None,
            last_agent_message: None,
            defers_mailbox_delivery_to_next_turn: true,
        },
        TurnItem::Other(_) => FinalizedTurnItemFacts {
            memory_citation: None,
            last_agent_message: None,
            defers_mailbox_delivery_to_next_turn: false,
        },
    }
}

/// An item as it is shown when it starts: an image is then still in progress.
pub open spec fn started(item: TurnItemView) -> TurnItemView {
    match item {
        TurnItemView::ImageGeneration(image) => TurnItemView::ImageGeneration(
            ImageGenerationItemView {
                status: "in_progress"@,
                revised_prompt: None,
                result: Seq::empty(),
                saved_path: None,
                ..image
            },
        ),
        _ => item,
    }
}

impl TurnItem {
    /// The item as it is shown when it starts.
    pub fn as_started(&self) -> (r: TurnItem)
        ensures
            r@ == started(self@),
    {
        match self {
            TurnItem::AgentMessage(message) => {
                let content = copy_texts(&message.content);
                assert(content.deep_view() =~= message.content.deep_view());
                TurnItem::AgentMessage(
                    AgentMessageItem {
                        id: message.id.clone(),
                        content,
                        phase: message.phase,
                        memory_citation: match &message.memory_citation {
                            Some(citation) => Some(citation.copy()),
                            None => None,
                        },
                    },
                )
            },
            TurnItem::ImageGeneration(image) => {
                let result = String::new();
                assert(result@ =~= Seq::<char>::empty());
                TurnItem::ImageGeneration(
                    ImageGenerationItem {
                        id: image.id.clone(),
                        status: "in_progress".to_owned(),
                        revised_prompt: None,
                        result,
                        saved_path: None,
                    },
                )
            },
            TurnItem::Other(payload) => TurnItem::Other(payload.copy()),
        }
    }
}

/// Mail is deferred by what is known of the finished message just as by the item
/// that it came from.
pub proof fn law_deferral_agrees(
    id: Option<Seq<char>>,
    content: Seq<ContentItemView>,
    phase: Option<MessagePhase>,
    message: AgentMessageItemView,
    stripped: Seq<char>,
    citation: Option<JsonView>,
)
    requires
        message.phase == phase,
        output_text(content).len() > 0,
    ensures
        facts_of(
            TurnItemView::AgentMessage(finished_message(message, stripped, citation)),
        ).defers_mailbox_delivery_to_next_turn == defers_mail(
            ResponseItemView::Message { id, role: "assistant"@, content, phase },
            stripped,
        ),
{
    reveal_with_fuel(all_texts, 2);
    assert(seq![stripped].drop_last() =~= Seq::<Seq<char>>::empty());
    assert(all_texts(seq![stripped]) =~= stripped);
}

} // verus!
