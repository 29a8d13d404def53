//! The items of a conversation and the usage that a model reports.

use vstd::prelude::*;
use vstd::string::*;

use crate::json::copy_docs;
use crate::json::Json;
use crate::json::JsonView;
use crate::text::copy_text;
use crate::text::copy_texts;

verus! {

/// How closely a model is asked to look at an image.
#[derive(Debug, Clone, Copy, PartialEq, Eq)]
pub enum ImageDetail {
    Auto,
    Low,
    High,
    Original,
}

impl View for ImageDetail {
    type V = ImageDetail;

    open spec fn view(&self) -> ImageDetail {
        *self
    }
}

impl DeepView for ImageDetail {
    type V = ImageDetail;

    open spec fn deep_view(&self) -> ImageDetail {
        self.view()
    }
}

/// Which part of a turn a message belongs to.
#[derive(Debug, Clone, Copy, PartialEq, Eq)]
pub enum MessagePhase {
    Commentary,
    FinalAnswer,
}

impl View for MessagePhase {
    type V = MessagePhase;

    open spec fn view(&self) -> MessagePhase {
        *self
    }
}

impl DeepView for MessagePhase {
    type V = MessagePhase;

    open spec fn deep_view(&self) -> MessagePhase {
        self.view()
    }
}

/// One piece of a message.
#[derive(Debug, Clone, PartialEq)]
pub enum ContentItem {
    InputText { text: String },
    InputImage { image_url: String, detail: Option<ImageDetail> },
    OutputText { text: String },
}

/// What a `ContentItem` means.
#[verifier::ext_equal]
pub enum ContentItemView {
    InputText { text: Seq<char> },
    InputImage { image_url: Seq<char>, detail: Option<ImageDetail> },
    OutputText { text: Seq<char> },
}

impl View for ContentItem {
    type V = ContentItemView;

    open spec fn view(&self) -> ContentItemView {
        match self {
            ContentItem::InputText { text } => ContentItemView::InputText {
                text: text.deep_view(),
            },
            ContentItem::InputImage { image_url, detail } => ContentItemView::InputImage {
                image_url: image_url.deep_view(),
                detail: detail.deep_view(),
            },
            ContentItem::OutputText { text } => ContentItemView::OutputText {
                text: text.deep_view(),
            },
        }
    }
}

impl DeepView for ContentItem {
    type V = ContentItemView;

    open spec fn deep_view(&self) -> ContentItemView {
        self.view()
    }
}

/// One piece of a model's reasoning.
#[derive(Debug, Clone, PartialEq)]
pub enum ReasoningItemContent {
    ReasoningText { text: String },
    Text { text: String },
}

/// What a `ReasoningItemContent` means.
#[verifier::ext_equal]
pub enum ReasoningItemContentView {
    ReasoningText { text: Seq<char> },
    Text { text: Seq<char> },
}

impl View for ReasoningItemContent {
    type V = ReasoningItemContentView;

    open spec fn view(&self) -> ReasoningItemContentView {
        match self {
            ReasoningItemContent::ReasoningText { text } => ReasoningItemContentView::ReasoningText {
                text: text.deep_view(),
            },
            ReasoningItemContent::Text { text } => ReasoningItemContentView::Text {
                text: text.deep_view(),
            },
        }
    }
}

impl DeepView for ReasoningItemContent {
    type V = ReasoningItemContentView;

    open spec fn deep_view(&self) -> ReasoningItemContentView {
        self.view()
    }
}

/// What a tool gave back: the text of its output, when it has one, and whether
/// the tool reported success.
#[derive(Debug, Clone, PartialEq)]
pub struct FunctionCallOutputPayload {
    pub text: Option<String>,
    pub success: Option<bool>,
}

/// What a `FunctionCallOutputPayload` means.
#[verifier::ext_equal]
pub struct FunctionCallOutputPayloadView {
    pub text: Option<Seq<char>>,
    pub success: Option<bool>,
}

impl View for FunctionCallOutputPayload {
    type V = FunctionCallOutputPayloadView;

    open spec fn view(&self) -> FunctionCallOutputPayloadView {
        FunctionCallOutputPayloadView {
            text: self.text.deep_view(),
            success: self.success.deep_view(),
        }
    }
}

impl DeepView for FunctionCallOutputPayload {
    type V = FunctionCallOutputPayloadView;

    open spec fn deep_view(&self) -> FunctionCallOutputPayloadView {
        self.view()
    }
}

/// One item of a conversation.
///
/// Items that no translation reads carry their payload as a JSON document.
#[derive(Debug, Clone, PartialEq)]
pub enum ResponseItem {
    Message {
        id: Option<String>,
        role: String,
        content: Vec<ContentItem>,
        phase: Option<MessagePhase>,
    },
    Reasoning {
        id: Option<String>,
        summary: Vec<String>,
        content: Option<Vec<ReasoningItemContent>>,
        encrypted_content: Option<String>,
        continuity_token: Option<String>,
    },
    FunctionCall {
        id: Option<String>,
        name: String,
        namespace: Option<String>,
        arguments: String,
        call_id: String,
    },
    CustomToolCall {
        id: Option<String>,
        status: Option<String>,
        call_id: String,
        name: String,
        namespace: Option<String>,
        input: String,
    },
    FunctionCallOutput {
        id: Option<String>,
        call_id: String,
        output: FunctionCallOutputPayload,
    },
    CustomToolCallOutput {
        id: Option<String>,
        call_id: String,
        name: Option<String>,
        output: FunctionCallOutputPayload,
    },
    ToolSearchOutput {
        id: Option<String>,
        call_id: Option<String>,
        status: String,
        execution: String,
        tools: Vec<Json>,
    },
    AgentMessage(Json),
    LocalShellCall(Json),
    ToolSearchCall(Json),
    WebSearchCall(Json),
    ImageGenerationCall(Json),
    Compaction(Json),
    ContextCompaction(Json),
    CompactionTrigger,
    AdditionalTools(Json),
    Other,
}

/// What a `ResponseItem` means.
#[verifier::ext_equal]
pub enum ResponseItemView {
    Message { id: Option<Seq<char>>, role: Seq<char>, content: Seq<ContentItemView>, phase: Option<MessagePhase> },
    Reasoning { id: Option<Seq<char>>, summary: Seq<Seq<char>>, content: Option<Seq<ReasoningItemContentView>>, encrypted_content: Option<Seq<char>>, continuity_token: Option<Seq<char>> },
    FunctionCall { id: Option<Seq<char>>, name: Seq<char>, namespace: Option<Seq<char>>, arguments: Seq<char>, call_id: Seq<char> },
    CustomToolCall { id: Option<Seq<char>>, status: Option<Seq<char>>, call_id: Seq<char>, name: Seq<char>, namespace: Option<Seq<char>>, input: Seq<char> },
    FunctionCallOutput { id: Option<Seq<char>>, call_id: Seq<char>, output: FunctionCallOutputPayloadView },
    CustomToolCallOutput { id: Option<Seq<char>>, call_id: Seq<char>, name: Option<Seq<char>>, output: FunctionCallOutputPayloadView },
    ToolSearchOutput { id: Option<Seq<char>>, call_id: Option<Seq<char>>, status: Seq<char>, execution: Seq<char>, tools: Seq<JsonView> },
    AgentMessage(JsonView),
    LocalShellCall(JsonView),
    ToolSearchCall(JsonView),
    WebSearchCall(JsonView),
    ImageGenerationCall(JsonView),
    Compaction(JsonView),
    ContextCompaction(JsonView),
    CompactionTrigger,
    AdditionalTools(JsonView),
    Other,
}

impl View for ResponseItem {
    type V = ResponseItemView;

    open spec fn view(&self) -> ResponseItemView {
        match self {
            ResponseItem::Message { id, role, content, phase } => ResponseItemView::Message {
                id: id.deep_view(),
                role: role.deep_view(),
                content: content.deep_view(),
                phase: phase.deep_view(),
            },
            ResponseItem::Reasoning { id, summary, content, encrypted_content, continuity_token } => ResponseItemView::Reasoning {
                id: id.deep_view(),
                summary: summary.deep_view(),
                content: content.deep_view(),
                encrypted_content: encrypted_content.deep_view(),
                continuity_token: continuity_token.deep_view(),
            },
            ResponseItem::FunctionCall { id, name, namespace, arguments, call_id } => ResponseItemView::FunctionCall {
                id: id.deep_view(),
                name: name.deep_view(),
                namespace: namespace.deep_view(),
                arguments: arguments.deep_view(),
                call_id: call_id.deep_view(),
            },
            ResponseItem::CustomToolCall { id, status, call_id, name, namespace, input } => ResponseItemView::CustomToolCall {
                id: id.deep_view(),
                status: status.deep_view(),
                call_id: call_id.deep_view(),
                name: name.deep_view(),
                namespace: namespace.deep_view(),
                input: input.deep_view(),
            },
            ResponseItem::FunctionCallOutput { id, call_id, output } => ResponseItemView::FunctionCallOutput {
                id: id.deep_view(),
                call_id: call_id.deep_view(),
                output: output.deep_view(),
            },
            ResponseItem::CustomToolCallOutput { id, call_id, name, output } => ResponseItemView::CustomToolCallOutput {
                id: id.deep_view(),
                call_id: call_id.deep_view(),
                name: name.deep_view(),
                output: output.deep_view(),
            },
            ResponseItem::ToolSearchOutput { id, call_id, status, execution, tools } => ResponseItemView::ToolSearchOutput {
                id: id.deep_view(),
                call_id: call_id.deep_view(),
                status: status.deep_view(),
                execution: execution.deep_view(),
                tools: tools.deep_view(),
            },
            ResponseItem::AgentMessage(v) => ResponseItemView::AgentMessage(v.deep_view()),
            ResponseItem::LocalShellCall(v) => ResponseItemView::LocalShellCall(v.deep_view()),
            ResponseItem::ToolSearchCall(v) => ResponseItemView::ToolSearchCall(v.deep_view()),
            ResponseItem::WebSearchCall(v) => ResponseItemView::WebSearchCall(v.deep_view()),
            ResponseItem::ImageGenerationCall(v) => ResponseItemView::ImageGenerationCall(v.deep_view()),
            ResponseItem::Compaction(v) => ResponseItemView::Compaction(v.deep_view()),
            ResponseItem::ContextCompaction(v) => ResponseItemView::ContextCompaction(v.deep_view()),
            ResponseItem::CompactionTrigger => ResponseItemView::CompactionTrigger,
            ResponseItem::AdditionalTools(v) => ResponseItemView::AdditionalTools(v.deep_view()),
            ResponseItem::Other => ResponseItemView::Other,
        }
    }
}

impl DeepView for ResponseItem {
    type V = ResponseItemView;

    open spec fn deep_view(&self) -> ResponseItemView {
        self.view()
    }
}

/// How many tokens a request and its answer took.
#[derive(Debug, Clone, Copy, PartialEq, Eq)]
pub struct TokenUsage {
    pub input_tokens: i64,
    pub cached_input_tokens: i64,
    pub output_tokens: i64,
    pub reasoning_output_tokens: i64,
    pub total_tokens: i64,
}

impl View for TokenUsage {
    type V = TokenUsage;

    open spec fn view(&self) -> TokenUsage {
        *self
    }
}

impl DeepView for TokenUsage {
    type V = TokenUsage;

    open spec fn deep_view(&self) -> TokenUsage {
        self.view()
    }
}

/// How hard a model is asked to think.
#[derive(Debug, Clone, PartialEq, Eq)]
pub enum ReasoningEffort {
    Off,
    Minimal,
    Low,
    Medium,
    High,
    XHigh,
    Max,
    Ultra,
    Custom(String),
}

/// What a `ReasoningEffort` means.
#[verifier::ext_equal]
pub enum ReasoningEffortView {
    Off,
    Minimal,
    Low,
    Medium,
    High,
    XHigh,
    Max,
    Ultra,
    Custom(Seq<char>),
}

impl View for ReasoningEffort {
    type V = ReasoningEffortView;

    open spec fn view(&self) -> ReasoningEffortView {
        match self {
            ReasoningEffort::Off => ReasoningEffortView::Off,
            ReasoningEffort::Minimal => ReasoningEffortView::Minimal,
            ReasoningEffort::Low => ReasoningEffortView::Low,
            ReasoningEffort::Medium => ReasoningEffortView::Medium,
            ReasoningEffort::High => ReasoningEffortView::High,
            ReasoningEffort::XHigh => ReasoningEffortView::XHigh,
            ReasoningEffort::Max => ReasoningEffortView::Max,
            ReasoningEffort::Ultra => ReasoningEffortView::Ultra,
            ReasoningEffort::Custom(v) => ReasoningEffortView::Custom(v.deep_view()),
        }
    }
}

impl DeepView for ReasoningEffort {
    type V = ReasoningEffortView;

    open spec fn deep_view(&self) -> ReasoningEffortView {
        self.view()
    }
}

/// How a model is asked to summarise its reasoning.
#[derive(Debug, Clone, Copy, PartialEq, Eq)]
pub enum ReasoningSummary {
    Auto,
    Concise,
    Detailed,
    Off,
}

impl View for ReasoningSummary {
    type V = ReasoningSummary;

    open spec fn view(&self) -> ReasoningSummary {
        *self
    }
}

impl DeepView for ReasoningSummary {
    type V = ReasoningSummary;

    open spec fn deep_view(&self) -> ReasoningSummary {
        self.view()
    }
}

/// How long answers are asked to be.
#[derive(Debug, Clone, Copy, PartialEq, Eq)]
pub enum Verbosity {
    Low,
    Medium,
    High,
}

impl ContentItem {
    /// A copy of the piece.
    pub fn copy(&self) -> (r: ContentItem)
        ensures
            r@ == self@,
    {
        match self {
            ContentItem::InputText { text } => ContentItem::InputText { text: text.clone() },
            ContentItem::InputImage { image_url, detail } => ContentItem::InputImage {
                image_url: image_url.clone(),
                detail: *detail,
            },
            ContentItem::OutputText { text } => ContentItem::OutputText { text: text.clone() },
        }
    }
}

impl ReasoningItemContent {
    /// A copy of the piece.
    pub fn copy(&self) -> (r: ReasoningItemContent)
        ensures
            r@ == self@,
    {
        match self {
            ReasoningItemContent::ReasoningText { text } => ReasoningItemContent::ReasoningText {
                text: text.clone(),
            },
            ReasoningItemContent::Text { text } => ReasoningItemContent::Text { text: text.clone() },
        }
    }
}

impl FunctionCallOutputPayload {
    /// A copy of the output.
    pub fn copy(&self) -> (r: FunctionCallOutputPayload)
        ensures
            r@ == self@,
    {
        FunctionCallOutputPayload { text: copy_text(&self.text), success: self.success }
    }
}

/// The name of an effort, as requests spell it.
pub open spec fn effort_name(effort: ReasoningEffortView) -> Seq<char> {
    match effort {
        ReasoningEffortView::Off => "none"@,
        ReasoningEffortView::Minimal => "minimal"@,
        ReasoningEffortView::Low => "low"@,
        ReasoningEffortView::Medium => "medium"@,
        ReasoningEffortView::High => "high"@,
        ReasoningEffortView::XHigh => "xhigh"@,
        ReasoningEffortView::Max => "max"@,
        ReasoningEffortView::Ultra => "ultra"@,
        ReasoningEffortView::Custom(name) => name,
    }
}

impl ReasoningEffort {
    /// The name of the effort, as requests spell it.
    pub fn name(&self) -> (r: String)
        ensures
            r@ == effort_name(self@),
    {
        match self {
            ReasoningEffort::Off => "none".to_owned(),
            ReasoningEffort::Minimal => "minimal".to_owned(),
            ReasoningEffort::Low => "low".to_owned(),
            ReasoningEffort::Medium => "medium".to_owned(),
            ReasoningEffort::High => "high".to_owned(),
            ReasoningEffort::XHigh => "xhigh".to_owned(),
            ReasoningEffort::Max => "max".to_owned(),
            ReasoningEffort::Ultra => "ultra".to_owned(),
            ReasoningEffort::Custom(name) => name.clone(),
        }
    }
}

impl ReasoningEffort {
    /// A copy of the effort.
    pub fn copy(&self) -> (r: ReasoningEffort)
        ensures
            r@ == self@,
    {
        match self {
            ReasoningEffort::Off => ReasoningEffort::Off,
            ReasoningEffort::Minimal => ReasoningEffort::Minimal,
            ReasoningEffort::Low => ReasoningEffort::Low,
            ReasoningEffort::Medium => ReasoningEffort::Medium,
            ReasoningEffort::High => ReasoningEffort::High,
            ReasoningEffort::XHigh => ReasoningEffort::XHigh,
            ReasoningEffort::Max => ReasoningEffort::Max,
            ReasoningEffort::Ultra => ReasoningEffort::Ultra,
            ReasoningEffort::Custom(name) => ReasoningEffort::Custom(name.clone()),
        }
    }
}

/// A copy of the pieces of a message.
pub fn copy_content(list: &Vec<ContentItem>) -> (r: Vec<ContentItem>)
    ensures
        r.deep_view() == list.deep_view(),
{
    let mut out: Vec<ContentItem> = Vec::new();
    let mut i: usize = 0;
    while i < list.len()
        invariant
            i <= list@.len(),
            out.deep_view() == list.deep_view().take(i as int),
        decreases list@.len() - i,
    {
        let ghost before = out.deep_view();
        out.push(list[i].copy());
        assert(out.deep_view() =~= before.push(list@[i as int].deep_view()));
        assert(list.deep_view().take(i + 1) =~= list.deep_view().take(i as int).push(
            list@[i as int].deep_view(),
        ));
        i += 1;
    }
    assert(list.deep_view().take(i as int) =~= list.deep_view());
    out
}

/// A copy of the pieces of reasoning.
pub fn copy_reasoning(list: &Vec<ReasoningItemContent>) -> (r: Vec<ReasoningItemContent>)
    ensures
        r.deep_view() == list.deep_view(),
{
    let mut out: Vec<ReasoningItemContent> = Vec::new();
    let mut i: usize = 0;
    while i < list.len()
        invariant
            i <= list@.len(),
            out.deep_view() == list.deep_view().take(i as int),
        decreases list@.len() - i,
    {
        let ghost before = out.deep_view();
        out.push(list[i].copy());
        assert(out.deep_view() =~= before.push(list@[i as int].deep_view()));
        assert(list.deep_view().take(i + 1) =~= list.deep_view().take(i as int).push(
            list@[i as int].deep_view(),
        ));
        i += 1;
    }
    assert(list.deep_view().take(i as int) =~= list.deep_view());
    out
}

impl ResponseItem {
    /// A copy of the item.
    pub fn copy(&self) -> (r: ResponseItem)
        ensures
            r@ == self@,
    {
        match self {
            ResponseItem::Message { id, role, content, phase } => ResponseItem::Message {
                id: copy_text(id),
                role: role.clone(),
                content: copy_content(content),
                phase: *phase,
            },
            ResponseItem::Reasoning { id, summary, content, encrypted_content, continuity_token } =>
            ResponseItem::Reasoning {
                id: copy_text(id),
                summary: copy_texts(summary),
                content: match content {
                    Some(pieces) => Some(copy_reasoning(pieces)),
                    None => None,
                },
                encrypted_content: copy_text(encrypted_content),
                continuity_token: copy_text(continuity_token),
            },
            ResponseItem::FunctionCall { id, name, namespace, arguments, call_id } =>
            ResponseItem::FunctionCall {
                id: copy_text(id),
                name: name.clone(),
                namespace: copy_text(namespace),
                arguments: arguments.clone(),
                call_id: call_id.clone(),
            },
            ResponseItem::CustomToolCall { id, status, call_id, name, namespace, input } =>
            ResponseItem::CustomToolCall {
                id: copy_text(id),
                status: copy_text(status),
                call_id: call_id.clone(),
                name: name.clone(),
                namespace: copy_text(namespace),
                input: input.clone(),
            },
            ResponseItem::FunctionCallOutput { id, call_id, output } =>
            ResponseItem::FunctionCallOutput {
                id: copy_text(id),
                call_id: call_id.clone(),
                output: output.copy(),
            },
            ResponseItem::CustomToolCallOutput { id, call_id, name, output } =>
            ResponseItem::CustomToolCallOutput {
                id: copy_text(id),
                call_id: call_id.clone(),
                name: copy_text(name),
                output: output.copy(),
            },
            ResponseItem::ToolSearchOutput { id, call_id, status, execution, tools } =>
            ResponseItem::ToolSearchOutput {
                id: copy_text(id),
                call_id: copy_text(call_id),
                status: status.clone(),
                execution: execution.clone(),
                tools: copy_docs(tools),
            },
            ResponseItem::AgentMessage(payload) => ResponseItem::AgentMessage(payload.copy()),
            ResponseItem::LocalShellCall(payload) => ResponseItem::LocalShellCall(payload.copy()),
            ResponseItem::ToolSearchCall(payload) => ResponseItem::ToolSearchCall(payload.copy()),
            ResponseItem::WebSearchCall(payload) => ResponseItem::WebSearchCall(payload.copy()),
            ResponseItem::ImageGenerationCall(payload) => ResponseItem::ImageGenerationCall(
                payload.copy(),
            ),
            ResponseItem::Compaction(payload) => ResponseItem::Compaction(payload.copy()),
            ResponseItem::ContextCompaction(payload) => ResponseItem::ContextCompaction(
                payload.copy(),
            ),
            ResponseItem::CompactionTrigger => ResponseItem::CompactionTrigger,
            ResponseItem::AdditionalTools(payload) => ResponseItem::AdditionalTools(payload.copy()),
            ResponseItem::Other => ResponseItem::Other,
        }
    }
}

/// A copy of the items of a conversation.
pub fn copy_items(list: &Vec<ResponseItem>) -> (r: Vec<ResponseItem>)
    ensures
        r.deep_view() == list.deep_view(),
{
    let mut out: Vec<ResponseItem> = Vec::new();
    let mut i: usize = 0;
    while i < list.len()
        invariant
            i <= list@.len(),
            out.deep_view() == list.deep_view().take(i as int),
        decreases list@.len() - i,
    {
        let ghost before = out.deep_view();
        out.push(list[i].copy());
        assert(out.deep_view() =~= before.push(list@[i as int].deep_view()));
        assert(list.deep_view().take(i + 1) =~= list.deep_view().take(i as int).push(
            list@[i as int].deep_view(),
        ));
        i += 1;
    }
    assert(list.deep_view().take(i as int) =~= list.deep_view());
    out
}

} // verus!
