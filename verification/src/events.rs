//! The events that an answer of the Responses family is made of.

use vstd::prelude::*;

use crate::json::Json;
use crate::json::JsonView;
use crate::models::ResponseItem;
use crate::models::ResponseItemView;
use crate::models::TokenUsage;

verus! {

/// A notice that an answer is held back for a safety check.
#[derive(Debug, Clone, PartialEq)]
pub struct SafetyBuffering {
    pub use_cases: Vec<String>,
    pub reasons: Vec<String>,
    pub show_buffering_ui: bool,
    pub faster_model: Option<String>,
}

/// What a `SafetyBuffering` means.
#[verifier::ext_equal]
pub struct SafetyBufferingView {
    pub use_cases: Seq<Seq<char>>,
    pub reasons: Seq<Seq<char>>,
    pub show_buffering_ui: bool,
    pub faster_model: Option<Seq<char>>,
}

impl View for SafetyBuffering {
    type V = SafetyBufferingView;

    open spec fn view(&self) -> SafetyBufferingView {
        SafetyBufferingView {
            use_cases: self.use_cases.deep_view(),
            reasons: self.reasons.deep_view(),
            show_buffering_ui: self.show_buffering_ui.deep_view(),
            faster_model: self.faster_model.deep_view(),
        }
    }
}

impl DeepView for SafetyBuffering {
    type V = SafetyBufferingView;

    open spec fn deep_view(&self) -> SafetyBufferingView {
        self.view()
    }
}

/// An account verification that the server recommends, as it was sent.
#[derive(Debug, Clone, PartialEq)]
pub struct ModelVerification {
    pub payload: Json,
}

/// What a `ModelVerification` means.
#[verifier::ext_equal]
pub struct ModelVerificationView {
    pub payload: JsonView,
}

impl View for ModelVerification {
    type V = ModelVerificationView;

    open spec fn view(&self) -> ModelVerificationView {
        ModelVerificationView {
            payload: self.payload.deep_view(),
        }
    }
}

impl DeepView for ModelVerification {
    type V = ModelVerificationView;

    open spec fn deep_view(&self) -> ModelVerificationView {
        self.view()
    }
}

/// Moderation metadata of a turn, as it was sent.
#[derive(Debug, Clone, PartialEq)]
pub struct TurnModerationMetadataEvent {
    pub payload: Json,
}

/// What a `TurnModerationMetadataEvent` means.
#[verifier::ext_equal]
pub struct TurnModerationMetadataEventView {
    pub payload: JsonView,
}

impl View for TurnModerationMetadataEvent {
    type V = TurnModerationMetadataEventView;

    open spec fn view(&self) -> TurnModerationMetadataEventView {
        TurnModerationMetadataEventView {
            payload: self.payload.deep_view(),
        }
    }
}

impl DeepView for TurnModerationMetadataEvent {
    type V = TurnModerationMetadataEventView;

    open spec fn deep_view(&self) -> TurnModerationMetadataEventView {
        self.view()
    }
}

/// A rate limit snapshot, as it was sent.
#[derive(Debug, Clone, PartialEq)]
pub struct RateLimitSnapshot {
    pub payload: Json,
}

/// What a `RateLimitSnapshot` means.
#[verifier::ext_equal]
pub struct RateLimitSnapshotView {
    pub payload: JsonView,
}

impl View for RateLimitSnapshot {
    type V = RateLimitSnapshotView;

    open spec fn view(&self) -> RateLimitSnapshotView {
        RateLimitSnapshotView {
            payload: self.payload.deep_view(),
        }
    }
}

impl DeepView for RateLimitSnapshot {
    type V = RateLimitSnapshotView;

    open spec fn deep_view(&self) -> RateLimitSnapshotView {
        self.view()
    }
}

/// One event of an answer.
#[derive(Debug, PartialEq)]
pub enum ResponseEvent {
    Created,
    SafetyBuffering(SafetyBuffering),
    OutputItemDone(ResponseItem),
    OutputItemAdded(ResponseItem),
    /// The model that the server answers with; it can differ from the one that
    /// was asked.
    ServerModel(String),
    /// The server recommends account verifications.
    ModelVerifications(Vec<ModelVerification>),
    /// The server gives moderation metadata for the turn.
    TurnModerationMetadata(TurnModerationMetadataEvent),
    /// The server already counted past reasoning tokens.
    ServerReasoningIncluded(bool),
    Completed {
        response_id: String,
        token_usage: Option<TokenUsage>,
        /// Whether the model ended its turn; not every provider says so.
        end_turn: Option<bool>,
    },
    OutputTextDelta(String),
    ToolCallInputDelta { item_id: String, call_id: Option<String>, delta: String },
    ReasoningSummaryDelta { delta: String, summary_index: i64 },
    ReasoningContentDelta { delta: String, content_index: i64 },
    ReasoningSummaryPartAdded { summary_index: i64 },
    RateLimits(RateLimitSnapshot),
    ModelsEtag(String),
}

/// What a `ResponseEvent` means.
#[verifier::ext_equal]
pub enum ResponseEventView {
    Created,
    SafetyBuffering(SafetyBufferingView),
    OutputItemDone(ResponseItemView),
    OutputItemAdded(ResponseItemView),
    ServerModel(Seq<char>),
    ModelVerifications(Seq<ModelVerificationView>),
    TurnModerationMetadata(TurnModerationMetadataEventView),
    ServerReasoningIncluded(bool),
    Completed { response_id: Seq<char>, token_usage: Option<TokenUsage>, end_turn: Option<bool> },
    OutputTextDelta(Seq<char>),
    ToolCallInputDelta { item_id: Seq<char>, call_id: Option<Seq<char>>, delta: Seq<char> },
    ReasoningSummaryDelta { delta: Seq<char>, summary_index: i64 },
    ReasoningContentDelta { delta: Seq<char>, content_index: i64 },
    ReasoningSummaryPartAdded { summary_index: i64 },
    RateLimits(RateLimitSnapshotView),
    ModelsEtag(Seq<char>),
}

impl View for ResponseEvent {
    type V = ResponseEventView;

    open spec fn view(&self) -> ResponseEventView {
        match self {
            ResponseEvent::Created => ResponseEventView::Created,
            ResponseEvent::SafetyBuffering(v) => ResponseEventView::SafetyBuffering(v.deep_view()),
            ResponseEvent::OutputItemDone(v) => ResponseEventView::OutputItemDone(v.deep_view()),
            ResponseEvent::OutputItemAdded(v) => ResponseEventView::OutputItemAdded(v.deep_view()),
            ResponseEvent::ServerModel(v) => ResponseEventView::ServerModel(v.deep_view()),
            ResponseEvent::ModelVerifications(v) => ResponseEventView::ModelVerifications(v.deep_view()),
            ResponseEvent::TurnModerationMetadata(v) => ResponseEventView::TurnModerationMetadata(v.deep_view()),
            ResponseEvent::ServerReasoningIncluded(v) => ResponseEventView::ServerReasoningIncluded(v.deep_view()),
            ResponseEvent::Completed { response_id, token_usage, end_turn } => ResponseEventView::Completed {
                response_id: response_id.deep_view(),
                token_usage: token_usage.deep_view(),
                end_turn: end_turn.deep_view(),
            },
            ResponseEvent::OutputTextDelta(v) => ResponseEventView::OutputTextDelta(v.deep_view()),
            ResponseEvent::ToolCallInputDelta { item_id, call_id, delta } => ResponseEventView::ToolCallInputDelta {
                item_id: item_id.deep_view(),
                call_id: call_id.deep_view(),
                delta: delta.deep_view(),
            },
            ResponseEvent::ReasoningSummaryDelta { delta, summary_index } => ResponseEventView::ReasoningSummaryDelta {
                delta: delta.deep_view(),
                summary_index: summary_index.deep_view(),
            },
            ResponseEvent::ReasoningContentDelta { delta, content_index } => ResponseEventView::ReasoningContentDelta {
                delta: delta.deep_view(),
                content_index: content_index.deep_view(),
            },
            ResponseEvent::ReasoningSummaryPartAdded { summary_index } => ResponseEventView::ReasoningSummaryPartAdded {
                summary_index: summary_index.deep_view(),
            },
            ResponseEvent::RateLimits(v) => ResponseEventView::RateLimits(v.deep_view()),
            ResponseEvent::ModelsEtag(v) => ResponseEventView::ModelsEtag(v.deep_view()),
        }
    }
}

impl DeepView for ResponseEvent {
    type V = ResponseEventView;

    open spec fn deep_view(&self) -> ResponseEventView {
        self.view()
    }
}

} // verus!
