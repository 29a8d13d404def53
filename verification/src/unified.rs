//! Provider-neutral requests, events and errors.

use vstd::prelude::*;

use crate::events::ModelVerification;
use crate::events::RateLimitSnapshot;
use crate::events::TurnModerationMetadataEvent;
use crate::json::Json;
use crate::json::JsonView;
use crate::models::ReasoningEffort;
use crate::models::ReasoningEffortView;
use crate::models::ReasoningSummary;
use crate::models::ResponseItem;
use crate::models::ResponseItemView;
use crate::models::TokenUsage;
use crate::text::cat;

verus! {

/// Which protocol a model backend speaks.
#[derive(Debug, Clone, Copy, PartialEq, Eq)]
pub enum AdapterType {
    /// The OpenAI Responses protocol, the default.
    OpenaiResponses,
    /// The OpenAI Chat Completions protocol, and every endpoint compatible with
    /// it.
    OpenaiChat,
    /// The Anthropic Messages protocol.
    Anthropic,
    /// The Google Gemini protocol.
    Gemini,
}

impl Default for AdapterType {
    fn default() -> (r: AdapterType)
        ensures
            r == AdapterType::OpenaiResponses,
    {
        AdapterType::OpenaiResponses
    }
}

/// A provider-neutral request.
#[derive(Debug, Clone)]
pub struct UnifiedRequest {
    pub model: String,
    pub instructions: String,
    pub input: Vec<ResponseItem>,
    pub tools: Option<Vec<Json>>,
    pub tool_choice: String,
    pub parallel_tool_calls: bool,
    pub reasoning: Option<UnifiedReasoning>,
    pub store: bool,
    pub stream: bool,
    pub include_: Vec<String>,
    pub service_tier: Option<String>,
    pub prompt_cache_key: Option<String>,
    pub text: Option<UnifiedTextControls>,
    pub client_metadata: Option<Vec<(String, String)>>,
}

/// What a `UnifiedRequest` means.
#[verifier::ext_equal]
pub struct UnifiedRequestView {
    pub model: Seq<char>,
    pub instructions: Seq<char>,
    pub input: Seq<ResponseItemView>,
    pub tools: Option<Seq<JsonView>>,
    pub tool_choice: Seq<char>,
    pub parallel_tool_calls: bool,
    pub reasoning: Option<UnifiedReasoningView>,
    pub store: bool,
    pub stream: bool,
    pub include_: Seq<Seq<char>>,
    pub service_tier: Option<Seq<char>>,
    pub prompt_cache_key: Option<Seq<char>>,
    pub text: Option<UnifiedTextControlsView>,
    pub client_metadata: Option<Seq<(Seq<char>, Seq<char>)>>,
}

impl View for UnifiedRequest {
    type V = UnifiedRequestView;

    open spec fn view(&self) -> UnifiedRequestView {
        UnifiedRequestView {
            model: self.model.deep_view(),
            instructions: self.instructions.deep_view(),
            input: self.input.deep_view(),
            tools: self.tools.deep_view(),
            tool_choice: self.tool_choice.deep_view(),
            parallel_tool_calls: self.parallel_tool_calls.deep_view(),
            reasoning: self.reasoning.deep_view(),
            store: self.store.deep_view(),
            stream: self.stream.deep_view(),
            include_: self.include_.deep_view(),
            service_tier: self.service_tier.deep_view(),
            prompt_cache_key: self.prompt_cache_key.deep_view(),
            text: self.text.deep_view(),
            client_metadata: self.client_metadata.deep_view(),
        }
    }
}

impl DeepView for UnifiedRequest {
    type V = UnifiedRequestView;

    open spec fn deep_view(&self) -> UnifiedRequestView {
        self.view()
    }
}

/// How a model is asked to reason.
#[derive(Debug, Clone)]
pub struct UnifiedReasoning {
    pub effort: Option<ReasoningEffort>,
    pub summary: Option<ReasoningSummary>,
    pub context: Option<UnifiedReasoningContext>,
}

/// What a `UnifiedReasoning` means.
#[verifier::ext_equal]
pub struct UnifiedReasoningView {
    pub effort: Option<ReasoningEffortView>,
    pub summary: Option<ReasoningSummary>,
    pub context: Option<UnifiedReasoningContext>,
}

impl View for UnifiedReasoning {
    type V = UnifiedReasoningView;

    open spec fn view(&self) -> UnifiedReasoningView {
        UnifiedReasoningView {
            effort: self.effort.deep_view(),
            summary: self.summary.deep_view(),
            context: self.context.deep_view(),
        }
    }
}

impl DeepView for UnifiedReasoning {
    type V = UnifiedReasoningView;

    open spec fn deep_view(&self) -> UnifiedReasoningView {
        self.view()
    }
}

/// How far back reasoning is taken into account.
#[derive(Debug, Clone, Copy, PartialEq, Eq)]
pub enum UnifiedReasoningContext {
    Auto,
    CurrentTurn,
    AllTurns,
}

impl View for UnifiedReasoningContext {
    type V = UnifiedReasoningContext;

    open spec fn view(&self) -> UnifiedReasoningContext {
        *self
    }
}

impl DeepView for UnifiedReasoningContext {
    type V = UnifiedReasoningContext;

    open spec fn deep_view(&self) -> UnifiedReasoningContext {
        self.view()
    }
}

/// How the text of an answer is controlled.
#[derive(Debug, Clone)]
pub struct UnifiedTextControls {
    pub verbosity: Option<UnifiedOpenAiVerbosity>,
    pub format: Option<UnifiedTextFormat>,
}

/// What a `UnifiedTextControls` means.
#[verifier::ext_equal]
pub struct UnifiedTextControlsView {
    pub verbosity: Option<UnifiedOpenAiVerbosity>,
    pub format: Option<UnifiedTextFormatView>,
}

impl View for UnifiedTextControls {
    type V = UnifiedTextControlsView;

    open spec fn view(&self) -> UnifiedTextControlsView {
        UnifiedTextControlsView {
            verbosity: self.verbosity.deep_view(),
            format: self.format.deep_view(),
        }
    }
}

impl DeepView for UnifiedTextControls {
    type V = UnifiedTextControlsView;

    open spec fn deep_view(&self) -> UnifiedTextControlsView {
        self.view()
    }
}

impl Default for UnifiedTextControls {
    fn default() -> (r: UnifiedTextControls)
        ensures
            r.verbosity is None,
            r.format is None,
    {
        UnifiedTextControls { verbosity: None, format: None }
    }
}

/// How long an answer is asked to be.
#[derive(Debug, Clone, Copy, PartialEq, Eq)]
pub enum UnifiedOpenAiVerbosity {
    Low,
    Medium,
    High,
}

impl View for UnifiedOpenAiVerbosity {
    type V = UnifiedOpenAiVerbosity;

    open spec fn view(&self) -> UnifiedOpenAiVerbosity {
        *self
    }
}

impl DeepView for UnifiedOpenAiVerbosity {
    type V = UnifiedOpenAiVerbosity;

    open spec fn deep_view(&self) -> UnifiedOpenAiVerbosity {
        self.view()
    }
}

impl Default for UnifiedOpenAiVerbosity {
    fn default() -> (r: UnifiedOpenAiVerbosity)
        ensures
            r == UnifiedOpenAiVerbosity::Medium,
    {
        UnifiedOpenAiVerbosity::Medium
    }
}

/// The form that the text of an answer must have.
#[derive(Debug, Clone)]
pub struct UnifiedTextFormat {
    pub kind: UnifiedTextFormatType,
    pub strict: bool,
    pub schema: Json,
    pub name: String,
}

/// What a `UnifiedTextFormat` means.
#[verifier::ext_equal]
pub struct UnifiedTextFormatView {
    pub kind: UnifiedTextFormatType,
    pub strict: bool,
    pub schema: JsonView,
    pub name: Seq<char>,
}

impl View for UnifiedTextFormat {
    type V = UnifiedTextFormatView;

    open spec fn view(&self) -> UnifiedTextFormatView {
        UnifiedTextFormatView {
            kind: self.kind.deep_view(),
            strict: self.strict.deep_view(),
            schema: self.schema.deep_view(),
            name: self.name.deep_view(),
        }
    }
}

impl DeepView for UnifiedTextFormat {
    type V = UnifiedTextFormatView;

    open spec fn deep_view(&self) -> UnifiedTextFormatView {
        self.view()
    }
}

/// What kind of form a text has: so far, always a JSON schema.
#[derive(Debug, Clone, Copy, PartialEq, Eq)]
pub enum UnifiedTextFormatType {
    JsonSchema,
}

impl View for UnifiedTextFormatType {
    type V = UnifiedTextFormatType;

    open spec fn view(&self) -> UnifiedTextFormatType {
        *self
    }
}

impl DeepView for UnifiedTextFormatType {
    type V = UnifiedTextFormatType;

    open spec fn deep_view(&self) -> UnifiedTextFormatType {
        self.view()
    }
}

impl Default for UnifiedTextFormatType {
    fn default() -> (r: UnifiedTextFormatType)
        ensures
            r == UnifiedTextFormatType::JsonSchema,
    {
        UnifiedTextFormatType::JsonSchema
    }
}

/// How the body of a request is compressed.
#[derive(Debug, Clone, Copy, PartialEq, Eq)]
pub enum UnifiedCompression {
    /// Not at all, the default.
    Identity,
    Zstd,
}

impl Default for UnifiedCompression {
    fn default() -> (r: UnifiedCompression)
        ensures
            r == UnifiedCompression::Identity,
    {
        UnifiedCompression::Identity
    }
}

/// Where a session comes from, as a document.
#[derive(Debug, Clone, PartialEq)]
pub struct SessionSource {
    pub payload: Json,
}

/// How a request is sent. `turn_state` is the caller's handle for the state that
/// the server hands out for a turn.
pub struct UnifiedRequestOptions<H> {
    pub session_id: Option<String>,
    pub thread_id: Option<String>,
    pub session_source: Option<SessionSource>,
    pub extra_headers: http::HeaderMap,
    pub compression: UnifiedCompression,
    pub turn_state: Option<H>,
}

/// A notice that an answer is held back for a safety check.
#[derive(Debug, Clone)]
pub struct UnifiedSafetyBuffering {
    pub use_cases: Vec<String>,
    pub reasons: Vec<String>,
    pub show_buffering_ui: bool,
    pub faster_model: Option<String>,
}

/// One event of an answer.
#[derive(Debug)]
pub enum UnifiedEvent {
    Created,
    SafetyBuffering(UnifiedSafetyBuffering),
    OutputItemDone(ResponseItem),
    OutputItemAdded(ResponseItem),
    /// The model that the server answers with; it can differ from the one that
    /// was asked.
    ServerModel(String),
    /// The server recommends account verifications.
    ModelVerifications(Vec<ModelVerification>),
    /// The server gives moderation metadata for the turn.
    TurnModerationMetadata(TurnModerationMetadataEvent),
    /// The server already counted past reasoning tokens.
    ServerReasoningIncluded(bool),
    Completed {
        response_id: String,
        token_usage: Option<TokenUsage>,
        /// Whether the model ended its turn, when it said so.
        end_turn: Option<bool>,
    },
    OutputTextDelta(String),
    ToolCallInputDelta { item_id: String, call_id: Option<String>, delta: String },
    ReasoningSummaryDelta { delta: String, summary_index: i64 },
    ReasoningContentDelta { delta: String, content_index: i64 },
    ReasoningSummaryPartAdded { summary_index: i64 },
    RateLimits(RateLimitSnapshot),
    ModelsEtag(String),
}

/// Why a request or an answer failed. `E` is the protocol's own error.
#[derive(Debug)]
pub enum UnifiedError<E> {
    /// The protocol's own error, unchanged.
    Passthrough(E),
    /// A value had no counterpart.
    Mapping(String),
}

impl<E> UnifiedError<E> {
    /// Wraps a protocol's own error.
    pub fn passthrough(err: E) -> (r: Self)
        ensures
            r == UnifiedError::Passthrough(err),
    {
        UnifiedError::Passthrough(err)
    }

    /// The protocol's own error, if that is what it is.
    pub fn as_passthrough(&self) -> (r: Option<&E>)
        ensures
            match *self {
                UnifiedError::Passthrough(err) => r == Some(&err),
                UnifiedError::Mapping(_) => r is None,
            },
    {
        match self {
            UnifiedError::Passthrough(err) => Some(err),
            UnifiedError::Mapping(_) => None,
        }
    }

    /// What the error says, given what the protocol's own error says.
    pub fn text(&self, inner: &str) -> (r: String)
        ensures
            r@ == error_text(*self, inner@),
    {
        match self {
            UnifiedError::Passthrough(_) => cat("inner adapter error: ", inner),
            UnifiedError::Mapping(reason) => cat("unified mapping error: ", reason.as_str()),
        }
    }
}

/// The text of an error, given that of the protocol's own error.
pub open spec fn error_text<E>(err: UnifiedError<E>, inner: Seq<char>) -> Seq<char> {
    match err {
        UnifiedError::Passthrough(_) => "inner adapter error: "@ + inner,
        UnifiedError::Mapping(reason) => "unified mapping error: "@ + reason@,
    }
}

} // verus!
