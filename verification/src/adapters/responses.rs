//! Between the neutral form of requests and events and that of the Responses
//! protocol. The two carry the same data, field by field.

use vstd::prelude::*;

use crate::endpoint::client::StreamClient;
use crate::events::ResponseEvent;
use crate::events::SafetyBuffering;
use crate::unified::UnifiedCompression;
use crate::unified::UnifiedError;
use crate::unified::UnifiedEvent;
use crate::unified::UnifiedOpenAiVerbosity;
use crate::unified::UnifiedReasoning;
use crate::unified::UnifiedReasoningContext;
use crate::unified::UnifiedRequest;
use crate::unified::UnifiedRequestOptions;
use crate::unified::UnifiedSafetyBuffering;
use crate::unified::UnifiedTextControls;
use crate::unified::UnifiedTextFormat;
use crate::unified::UnifiedTextFormatType;
use crate::wire::responses::Compression;
use crate::wire::responses::OpenAiVerbosity;
use crate::wire::responses::Reasoning;
use crate::wire::responses::ReasoningContext;
use crate::wire::responses::ResponsesApiRequest;
use crate::wire::responses::ResponsesOptions;
use crate::wire::responses::TextControls;
use crate::wire::responses::TextFormat;
use crate::wire::responses::TextFormatType;

verus! {

/// How far back reasoning goes as the Responses protocol has it.
pub open spec fn context_out(v: UnifiedReasoningContext) -> ReasoningContext {
    match v {
        UnifiedReasoningContext::Auto => ReasoningContext::Auto,
        UnifiedReasoningContext::CurrentTurn => ReasoningContext::CurrentTurn,
        UnifiedReasoningContext::AllTurns => ReasoningContext::AllTurns,
    }
}

impl From<UnifiedReasoningContext> for ReasoningContext {
    fn from(v: UnifiedReasoningContext) -> (r: ReasoningContext) {
        match v {
            UnifiedReasoningContext::Auto => ReasoningContext::Auto,
            UnifiedReasoningContext::CurrentTurn => ReasoningContext::CurrentTurn,
            UnifiedReasoningContext::AllTurns => ReasoningContext::AllTurns,
        }
    }
}

impl vstd::std_specs::convert::FromSpecImpl<UnifiedReasoningContext> for ReasoningContext {
    open spec fn obeys_from_spec() -> bool {
        true
    }

    open spec fn from_spec(v: UnifiedReasoningContext) -> ReasoningContext {
        context_out(v)
    }
}

/// How far back reasoning goes in the neutral form.
pub open spec fn context_in(v: ReasoningContext) -> UnifiedReasoningContext {
    match v {
        ReasoningContext::Auto => UnifiedReasoningContext::Auto,
        ReasoningContext::CurrentTurn => UnifiedReasoningContext::CurrentTurn,
        ReasoningContext::AllTurns => UnifiedReasoningContext::AllTurns,
    }
}

impl From<ReasoningContext> for UnifiedReasoningContext {
    fn from(v: ReasoningContext) -> (r: UnifiedReasoningContext) {
        match v {
            ReasoningContext::Auto => UnifiedReasoningContext::Auto,
            ReasoningContext::CurrentTurn => UnifiedReasoningContext::CurrentTurn,
            ReasoningContext::AllTurns => UnifiedReasoningContext::AllTurns,
        }
    }
}

impl vstd::std_specs::convert::FromSpecImpl<ReasoningContext> for UnifiedReasoningContext {
    open spec fn obeys_from_spec() -> bool {
        true
    }

    open spec fn from_spec(v: ReasoningContext) -> UnifiedReasoningContext {
        context_in(v)
    }
}

/// A verbosity as the Responses protocol has it.
pub open spec fn verbosity_out(v: UnifiedOpenAiVerbosity) -> OpenAiVerbosity {
    match v {
        UnifiedOpenAiVerbosity::Low => OpenAiVerbosity::Low,
        UnifiedOpenAiVerbosity::Medium => OpenAiVerbosity::Medium,
        UnifiedOpenAiVerbosity::High => OpenAiVerbosity::High,
    }
}

impl From<UnifiedOpenAiVerbosity> for OpenAiVerbosity {
    fn from(v: UnifiedOpenAiVerbosity) -> (r: OpenAiVerbosity) {
        match v {
            UnifiedOpenAiVerbosity::Low => OpenAiVerbosity::Low,
            UnifiedOpenAiVerbosity::Medium => OpenAiVerbosity::Medium,
            UnifiedOpenAiVerbosity::High => OpenAiVerbosity::High,
        }
    }
}

impl vstd::std_specs::convert::FromSpecImpl<UnifiedOpenAiVerbosity> for OpenAiVerbosity {
    open spec fn obeys_from_spec() -> bool {
        true
    }

    open spec fn from_spec(v: UnifiedOpenAiVerbosity) -> OpenAiVerbosity {
        verbosity_out(v)
    }
}

/// A verbosity in the neutral form.
pub open spec fn verbosity_in(v: OpenAiVerbosity) -> UnifiedOpenAiVerbosity {
    match v {
        OpenAiVerbosity::Low => UnifiedOpenAiVerbosity::Low,
        OpenAiVerbosity::Medium => UnifiedOpenAiVerbosity::Medium,
        OpenAiVerbosity::High => UnifiedOpenAiVerbosity::High,
    }
}

impl From<OpenAiVerbosity> for UnifiedOpenAiVerbosity {
    fn from(v: OpenAiVerbosity) -> (r: UnifiedOpenAiVerbosity) {
        match v {
            OpenAiVerbosity::Low => UnifiedOpenAiVerbosity::Low,
            OpenAiVerbosity::Medium => UnifiedOpenAiVerbosity::Medium,
            OpenAiVerbosity::High => UnifiedOpenAiVerbosity::High,
        }
    }
}

impl vstd::std_specs::convert::FromSpecImpl<OpenAiVerbosity> for UnifiedOpenAiVerbosity {
    open spec fn obeys_from_spec() -> bool {
        true
    }

    open spec fn from_spec(v: OpenAiVerbosity) -> UnifiedOpenAiVerbosity {
        verbosity_in(v)
    }
}

/// A kind of form as the Responses protocol has it.
pub open spec fn format_type_out(v: UnifiedTextFormatType) -> TextFormatType {
    match v {
        UnifiedTextFormatType::JsonSchema => TextFormatType::JsonSchema,
    }
}

impl From<UnifiedTextFormatType> for TextFormatType {
    fn from(v: UnifiedTextFormatType) -> (r: TextFormatType) {
        match v {
            UnifiedTextFormatType::JsonSchema => TextFormatType::JsonSchema,
        }
    }
}

impl vstd::std_specs::convert::FromSpecImpl<UnifiedTextFormatType> for TextFormatType {
    open spec fn obeys_from_spec() -> bool {
        true
    }

    open spec fn from_spec(v: UnifiedTextFormatType) -> TextFormatType {
        format_type_out(v)
    }
}

/// A kind of form in the neutral form.
pub open spec fn format_type_in(v: TextFormatType) -> UnifiedTextFormatType {
    match v {
        TextFormatType::JsonSchema => UnifiedTextFormatType::JsonSchema,
    }
}

impl From<TextFormatType> for UnifiedTextFormatType {
    fn from(v: TextFormatType) -> (r: UnifiedTextFormatType) {
        match v {
            TextFormatType::JsonSchema => UnifiedTextFormatType::JsonSchema,
        }
    }
}

impl vstd::std_specs::convert::FromSpecImpl<TextFormatType> for UnifiedTextFormatType {
    open spec fn obeys_from_spec() -> bool {
        true
    }

    open spec fn from_spec(v: TextFormatType) -> UnifiedTextFormatType {
        format_type_in(v)
    }
}

/// A compression as the Responses protocol has it.
pub open spec fn compression_out(v: UnifiedCompression) -> Compression {
    match v {
        UnifiedCompression::Identity => Compression::Identity,
        UnifiedCompression::Zstd => Compression::Zstd,
    }
}

impl From<UnifiedCompression> for Compression {
    fn from(v: UnifiedCompression) -> (r: Compression) {
        match v {
            UnifiedCompression::Identity => Compression::Identity,
            UnifiedCompression::Zstd => Compression::Zstd,
        }
    }
}

impl vstd::std_specs::convert::FromSpecImpl<UnifiedCompression> for Compression {
    open spec fn obeys_from_spec() -> bool {
        true
    }

    open spec fn from_spec(v: UnifiedCompression) -> Compression {
        compression_out(v)
    }
}

/// A compression in the neutral form.
pub open spec fn compression_in(v: Compression) -> UnifiedCompression {
    match v {
        Compression::Identity => UnifiedCompression::Identity,
        Compression::Zstd => UnifiedCompression::Zstd,
    }
}

impl From<Compression> for UnifiedCompression {
    fn from(v: Compression) -> (r: UnifiedCompression) {
        match v {
            Compression::Identity => UnifiedCompression::Identity,
            Compression::Zstd => UnifiedCompression::Zstd,
        }
    }
}

impl vstd::std_specs::convert::FromSpecImpl<Compression> for UnifiedCompression {
    open spec fn obeys_from_spec() -> bool {
        true
    }

    open spec fn from_spec(v: Compression) -> UnifiedCompression {
        compression_in(v)
    }
}

/// Reasoning settings as the Responses protocol has it.
pub open spec fn reasoning_out(v: UnifiedReasoning) -> Reasoning {
    Reasoning {
        effort: v.effort,
        summary: v.summary,
        context: match v.context {
            Some(x) => Some(context_out(x)),
            None => None,
        },
    }
}

impl From<UnifiedReasoning> for Reasoning {
    fn from(v: UnifiedReasoning) -> (r: Reasoning) {
        Reasoning {
            effort: v.effort,
            summary: v.summary,
            context: match v.context {
                Some(x) => Some(ReasoningContext::from(x)),
                None => None,
            },
        }
    }
}

impl vstd::std_specs::convert::FromSpecImpl<UnifiedReasoning> for Reasoning {
    open spec fn obeys_from_spec() -> bool {
        true
    }

    open spec fn from_spec(v: UnifiedReasoning) -> Reasoning {
        reasoning_out(v)
    }
}

/// Reasoning settings in the neutral form.
pub open spec fn reasoning_in(v: Reasoning) -> UnifiedReasoning {
    UnifiedReasoning {
        effort: v.effort,
        summary: v.summary,
        context: match v.context {
            Some(x) => Some(context_in(x)),
            None => None,
        },
    }
}

impl From<Reasoning> for UnifiedReasoning {
    fn from(v: Reasoning) -> (r: UnifiedReasoning) {
        UnifiedReasoning {
            effort: v.effort,
            summary: v.summary,
            context: match v.context {
                Some(x) => Some(UnifiedReasoningContext::from(x)),
                None => None,
            },
        }
    }
}

impl vstd::std_specs::convert::FromSpecImpl<Reasoning> for UnifiedReasoning {
    open spec fn obeys_from_spec() -> bool {
        true
    }

    open spec fn from_spec(v: Reasoning) -> UnifiedReasoning {
        reasoning_in(v)
    }
}

/// A form of text as the Responses protocol has it.
pub open spec fn format_out(v: UnifiedTextFormat) -> TextFormat {
    TextFormat {
        kind: format_type_out(v.kind),
        strict: v.strict,
        schema: v.schema,
        name: v.name,
    }
}

impl From<UnifiedTextFormat> for TextFormat {
    fn from(v: UnifiedTextFormat) -> (r: TextFormat) {
        TextFormat {
            kind: TextFormatType::from(v.kind),
            strict: v.strict,
            schema: v.schema,
            name: v.name,
        }
    }
}

impl vstd::std_specs::convert::FromSpecImpl<UnifiedTextFormat> for TextFormat {
    open spec fn obeys_from_spec() -> bool {
        true
    }

    open spec fn from_spec(v: UnifiedTextFormat) -> TextFormat {
        format_out(v)
    }
}

/// A form of text in the neutral form.
pub open spec fn format_in(v: TextFormat) -> UnifiedTextFormat {
    UnifiedTextFormat {
        kind: format_type_in(v.kind),
        strict: v.strict,
        schema: v.schema,
        name: v.name,
    }
}

impl From<TextFormat> for UnifiedTextFormat {
    fn from(v: TextFormat) -> (r: UnifiedTextFormat) {
        UnifiedTextFormat {
            kind: UnifiedTextFormatType::from(v.kind),
            strict: v.strict,
            schema: v.schema,
            name: v.name,
        }
    }
}

impl vstd::std_specs::convert::FromSpecImpl<TextFormat> for UnifiedTextFormat {
    open spec fn obeys_from_spec() -> bool {
        true
    }

    open spec fn from_spec(v: TextFormat) -> UnifiedTextFormat {
        format_in(v)
    }
}

/// Text controls as the Responses protocol has it.
pub open spec fn controls_out(v: UnifiedTextControls) -> TextControls {
    TextControls {
        verbosity: match v.verbosity {
            Some(x) => Some(verbosity_out(x)),
            None => None,
        },
        format: match v.format {
            Some(x) => Some(format_out(x)),
            None => None,
        },
    }
}

impl From<UnifiedTextControls> for TextControls {
    fn from(v: UnifiedTextControls) -> (r: TextControls) {
        TextControls {
            verbosity: match v.verbosity {
                Some(x) => Some(OpenAiVerbosity::from(x)),
                None => None,
            },
            format: match v.format {
                Some(x) => Some(TextFormat::from(x)),
                None => None,
            },
        }
    }
}

impl vstd::std_specs::convert::FromSpecImpl<UnifiedTextControls> for TextControls {
    open spec fn obeys_from_spec() -> bool {
        true
    }

    open spec fn from_spec(v: UnifiedTextControls) -> TextControls {
        controls_out(v)
    }
}

/// Text controls in the neutral form.
pub open spec fn controls_in(v: TextControls) -> UnifiedTextControls {
    UnifiedTextControls {
        verbosity: match v.verbosity {
            Some(x) => Some(verbosity_in(x)),
            None => None,
        },
        format: match v.format {
            Some(x) => Some(format_in(x)),
            None => None,
        },
    }
}

impl From<TextControls> for UnifiedTextControls {
    fn from(v: TextControls) -> (r: UnifiedTextControls) {
        UnifiedTextControls {
            verbosity: match v.verbosity {
                Some(x) => Some(UnifiedOpenAiVerbosity::from(x)),
                None => None,
            },
            format: match v.format {
                Some(x) => Some(UnifiedTextFormat::from(x)),
                None => None,
            },
        }
    }
}

impl vstd::std_specs::convert::FromSpecImpl<TextControls> for UnifiedTextControls {
    open spec fn obeys_from_spec() -> bool {
        true
    }

    open spec fn from_spec(v: TextControls) -> UnifiedTextControls {
        controls_in(v)
    }
}

/// A request as the Responses protocol has it.
pub open spec fn request_out(v: UnifiedRequest) -> ResponsesApiRequest {
    ResponsesApiRequest {
        model: v.model,
        instructions: v.instructions,
        input: v.input,
        tools: v.tools,
        tool_choice: v.tool_choice,
        parallel_tool_calls: v.parallel_tool_calls,
        reasoning: match v.reasoning {
            Some(x) => Some(reasoning_out(x)),
            None => None,
        },
        store: v.store,
        stream: v.stream,
        include_: v.include_,
        service_tier: v.service_tier,
        prompt_cache_key: v.prompt_cache_key,
        text: match v.text {
            Some(x) => Some(controls_out(x)),
            None => None,
        },
        client_metadata: v.client_metadata,
    }
}

impl From<UnifiedRequest> for ResponsesApiRequest {
    fn from(v: UnifiedRequest) -> (r: ResponsesApiRequest) {
        ResponsesApiRequest {
            model: v.model,
            instructions: v.instructions,
            input: v.input,
            tools: v.tools,
            tool_choice: v.tool_choice,
            parallel_tool_calls: v.parallel_tool_calls,
            reasoning: match v.reasoning {
                Some(x) => Some(Reasoning::from(x)),
                None => None,
            },
            store: v.store,
            stream: v.stream,
            include_: v.include_,
            service_tier: v.service_tier,
            prompt_cache_key: v.prompt_cache_key,
            text: match v.text {
                Some(x) => Some(TextControls::from(x)),
                None => None,
            },
            client_metadata: v.client_metadata,
        }
    }
}

impl vstd::std_specs::convert::FromSpecImpl<UnifiedRequest> for ResponsesApiRequest {
    open spec fn obeys_from_spec() -> bool {
        true
    }

    open spec fn from_spec(v: UnifiedRequest) -> ResponsesApiRequest {
        request_out(v)
    }
}

/// A request in the neutral form.
pub open spec fn request_in(v: ResponsesApiRequest) -> UnifiedRequest {
    UnifiedRequest {
        model: v.model,
        instructions: v.instructions,
        input: v.input,
        tools: v.tools,
        tool_choice: v.tool_choice,
        parallel_tool_calls: v.parallel_tool_calls,
        reasoning: match v.reasoning {
            Some(x) => Some(reasoning_in(x)),
            None => None,
        },
        store: v.store,
        stream: v.stream,
        include_: v.include_,
        service_tier: v.service_tier,
        prompt_cache_key: v.prompt_cache_key,
        text: match v.text {
            Some(x) => Some(controls_in(x)),
            None => None,
        },
        client_metadata: v.client_metadata,
    }
}

impl From<ResponsesApiRequest> for UnifiedRequest {
    fn from(v: ResponsesApiRequest) -> (r: UnifiedRequest) {
        UnifiedRequest {
            model: v.model,
            instructions: v.instructions,
            input: v.input,
            tools: v.tools,
            tool_choice: v.tool_choice,
            parallel_tool_calls: v.parallel_tool_calls,
            reasoning: match v.reasoning {
                Some(x) => Some(UnifiedReasoning::from(x)),
                None => None,
            },
            store: v.store,
            stream: v.stream,
            include_: v.include_,
            service_tier: v.service_tier,
            prompt_cache_key: v.prompt_cache_key,
            text: match v.text {
                Some(x) => Some(UnifiedTextControls::from(x)),
                None => None,
            },
            client_metadata: v.client_metadata,
        }
    }
}

impl vstd::std_specs::convert::FromSpecImpl<ResponsesApiRequest> for UnifiedRequest {
    open spec fn obeys_from_spec() -> bool {
        true
    }

    open spec fn from_spec(v: ResponsesApiRequest) -> UnifiedRequest {
        request_in(v)
    }
}

/// Request options as the Responses protocol has it.
pub open spec fn options_out<H>(v: UnifiedRequestOptions<H>) -> ResponsesOptions<H> {
    ResponsesOptions {
        session_id: v.session_id,
        thread_id: v.thread_id,
        session_source: v.session_source,
        extra_headers: v.extra_headers,
        compression: compression_out(v.compression),
        turn_state: v.turn_state,
    }
}

impl<H> From<UnifiedRequestOptions<H>> for ResponsesOptions<H> {
    fn from(v: UnifiedRequestOptions<H>) -> (r: ResponsesOptions<H>) {
        ResponsesOptions {
            session_id: v.session_id,
            thread_id: v.thread_id,
            session_source: v.session_source,
            extra_headers: v.extra_headers,
            compression: Compression::from(v.compression),
            turn_state: v.turn_state,
        }
    }
}

impl<H> vstd::std_specs::convert::FromSpecImpl<UnifiedRequestOptions<H>> for ResponsesOptions<H> {
    open spec fn obeys_from_spec() -> bool {
        true
    }

    open spec fn from_spec(v: UnifiedRequestOptions<H>) -> ResponsesOptions<H> {
        options_out(v)
    }
}

/// Request options in the neutral form.
pub open spec fn options_in<H>(v: ResponsesOptions<H>) -> UnifiedRequestOptions<H> {
    UnifiedRequestOptions {
        session_id: v.session_id,
        thread_id: v.thread_id,
        session_source: v.session_source,
        extra_headers: v.extra_headers,
        compression: compression_in(v.compression),
        turn_state: v.turn_state,
    }
}

impl<H> From<ResponsesOptions<H>> for UnifiedRequestOptions<H> {
    fn from(v: ResponsesOptions<H>) -> (r: UnifiedRequestOptions<H>) {
        UnifiedRequestOptions {
            session_id: v.session_id,
            thread_id: v.thread_id,
            session_source: v.session_source,
            extra_headers: v.extra_headers,
            compression: UnifiedCompression::from(v.compression),
            turn_state: v.turn_state,
        }
    }
}

impl<H> vstd::std_specs::convert::FromSpecImpl<ResponsesOptions<H>> for UnifiedRequestOptions<H> {
    open spec fn obeys_from_spec() -> bool {
        true
    }

    open spec fn from_spec(v: ResponsesOptions<H>) -> UnifiedRequestOptions<H> {
        options_in(v)
    }
}

/// A buffering notice as the Responses protocol has it.
pub open spec fn buffering_out(v: UnifiedSafetyBuffering) -> SafetyBuffering {
    SafetyBuffering {
        use_cases: v.use_cases,
        reasons: v.reasons,
        show_buffering_ui: v.show_buffering_ui,
        faster_model: v.faster_model,
    }
}

impl From<UnifiedSafetyBuffering> for SafetyBuffering {
    fn from(v: UnifiedSafetyBuffering) -> (r: SafetyBuffering) {
        SafetyBuffering {
            use_cases: v.use_cases,
            reasons: v.reasons,
            show_buffering_ui: v.show_buffering_ui,
            faster_model: v.faster_model,
        }
    }
}

impl vstd::std_specs::convert::FromSpecImpl<UnifiedSafetyBuffering> for SafetyBuffering {
    open spec fn obeys_from_spec() -> bool {
        true
    }

    open spec fn from_spec(v: UnifiedSafetyBuffering) -> SafetyBuffering {
        buffering_out(v)
    }
}

/// A buffering notice in the neutral form.
pub open spec fn buffering_in(v: SafetyBuffering) -> UnifiedSafetyBuffering {
    UnifiedSafetyBuffering {
        use_cases: v.use_cases,
        reasons: v.reasons,
        show_buffering_ui: v.show_buffering_ui,
        faster_model: v.faster_model,
    }
}

impl From<SafetyBuffering> for UnifiedSafetyBuffering {
    fn from(v: SafetyBuffering) -> (r: UnifiedSafetyBuffering) {
        UnifiedSafetyBuffering {
            use_cases: v.use_cases,
            reasons: v.reasons,
            show_buffering_ui: v.show_buffering_ui,
            faster_model: v.faster_model,
        }
    }
}

impl vstd::std_specs::convert::FromSpecImpl<SafetyBuffering> for UnifiedSafetyBuffering {
    open spec fn obeys_from_spec() -> bool {
        true
    }

    open spec fn from_spec(v: SafetyBuffering) -> UnifiedSafetyBuffering {
        buffering_in(v)
    }
}

/// An event as the Responses protocol has it.
pub open spec fn event_out(v: UnifiedEvent) -> ResponseEvent {
    match v {
        UnifiedEvent::Created => ResponseEvent::Created,
        UnifiedEvent::SafetyBuffering(x) => ResponseEvent::SafetyBuffering(buffering_out(x)),
        UnifiedEvent::OutputItemDone(x) => ResponseEvent::OutputItemDone(x),
        UnifiedEvent::OutputItemAdded(x) => ResponseEvent::OutputItemAdded(x),
        UnifiedEvent::ServerModel(x) => ResponseEvent::ServerModel(x),
        UnifiedEvent::ModelVerifications(x) => ResponseEvent::ModelVerifications(x),
        UnifiedEvent::TurnModerationMetadata(x) => ResponseEvent::TurnModerationMetadata(x),
        UnifiedEvent::ServerReasoningIncluded(x) => ResponseEvent::ServerReasoningIncluded(x),
        UnifiedEvent::Completed { response_id, token_usage, end_turn } => ResponseEvent::Completed { response_id, token_usage, end_turn },
        UnifiedEvent::OutputTextDelta(x) => ResponseEvent::OutputTextDelta(x),
        UnifiedEvent::ToolCallInputDelta { item_id, call_id, delta } => ResponseEvent::ToolCallInputDelta { item_id, call_id, delta },
        UnifiedEvent::ReasoningSummaryDelta { delta, summary_index } => ResponseEvent::ReasoningSummaryDelta { delta, summary_index },
        UnifiedEvent::ReasoningContentDelta { delta, content_index } => ResponseEvent::ReasoningContentDelta { delta, content_index },
        UnifiedEvent::ReasoningSummaryPartAdded { summary_index } => ResponseEvent::ReasoningSummaryPartAdded { summary_index },
        UnifiedEvent::RateLimits(x) => ResponseEvent::RateLimits(x),
        UnifiedEvent::ModelsEtag(x) => ResponseEvent::ModelsEtag(x),
    }
}

impl From<UnifiedEvent> for ResponseEvent {
    fn from(v: UnifiedEvent) -> (r: ResponseEvent) {
        match v {
            UnifiedEvent::Created => ResponseEvent::Created,
            UnifiedEvent::SafetyBuffering(x) => ResponseEvent::SafetyBuffering(SafetyBuffering::from(x)),
            UnifiedEvent::OutputItemDone(x) => ResponseEvent::OutputItemDone(x),
            UnifiedEvent::OutputItemAdded(x) => ResponseEvent::OutputItemAdded(x),
            UnifiedEvent::ServerModel(x) => ResponseEvent::ServerModel(x),
            UnifiedEvent::ModelVerifications(x) => ResponseEvent::ModelVerifications(x),
            UnifiedEvent::TurnModerationMetadata(x) => ResponseEvent::TurnModerationMetadata(x),
            UnifiedEvent::ServerReasoningIncluded(x) => ResponseEvent::ServerReasoningIncluded(x),
            UnifiedEvent::Completed { response_id, token_usage, end_turn } => ResponseEvent::Completed { response_id, token_usage, end_turn },
            UnifiedEvent::OutputTextDelta(x) => ResponseEvent::OutputTextDelta(x),
            UnifiedEvent::ToolCallInputDelta { item_id, call_id, delta } => ResponseEvent::ToolCallInputDelta { item_id, call_id, delta },
            UnifiedEvent::ReasoningSummaryDelta { delta, summary_index } => ResponseEvent::ReasoningSummaryDelta { delta, summary_index },
            UnifiedEvent::ReasoningContentDelta { delta, content_index } => ResponseEvent::ReasoningContentDelta { delta, content_index },
            UnifiedEvent::ReasoningSummaryPartAdded { summary_index } => ResponseEvent::ReasoningSummaryPartAdded { summary_index },
            UnifiedEvent::RateLimits(x) => ResponseEvent::RateLimits(x),
            UnifiedEvent::ModelsEtag(x) => ResponseEvent::ModelsEtag(x),
        }
    }
}

impl vstd::std_specs::convert::FromSpecImpl<UnifiedEvent> for ResponseEvent {
    open spec fn obeys_from_spec() -> bool {
        true
    }

    open spec fn from_spec(v: UnifiedEvent) -> ResponseEvent {
        event_out(v)
    }
}

/// An event in the neutral form.
pub open spec fn event_in(v: ResponseEvent) -> UnifiedEvent {
    match v {
        ResponseEvent::Created => UnifiedEvent::Created,
        ResponseEvent::SafetyBuffering(x) => UnifiedEvent::SafetyBuffering(buffering_in(x)),
        ResponseEvent::OutputItemDone(x) => UnifiedEvent::OutputItemDone(x),
        ResponseEvent::OutputItemAdded(x) => UnifiedEvent::OutputItemAdded(x),
        ResponseEvent::ServerModel(x) => UnifiedEvent::ServerModel(x),
        ResponseEvent::ModelVerifications(x) => UnifiedEvent::ModelVerifications(x),
        ResponseEvent::TurnModerationMetadata(x) => UnifiedEvent::TurnModerationMetadata(x),
        ResponseEvent::ServerReasoningIncluded(x) => UnifiedEvent::ServerReasoningIncluded(x),
        ResponseEvent::Completed { response_id, token_usage, end_turn } => UnifiedEvent::Completed { response_id, token_usage, end_turn },
        ResponseEvent::OutputTextDelta(x) => UnifiedEvent::OutputTextDelta(x),
        ResponseEvent::ToolCallInputDelta { item_id, call_id, delta } => UnifiedEvent::ToolCallInputDelta { item_id, call_id, delta },
        ResponseEvent::ReasoningSummaryDelta { delta, summary_index } => UnifiedEvent::ReasoningSummaryDelta { delta, summary_index },
        ResponseEvent::ReasoningContentDelta { delta, content_index } => UnifiedEvent::ReasoningContentDelta { delta, content_index },
        ResponseEvent::ReasoningSummaryPartAdded { summary_index } => UnifiedEvent::ReasoningSummaryPartAdded { summary_index },
        ResponseEvent::RateLimits(x) => UnifiedEvent::RateLimits(x),
        ResponseEvent::ModelsEtag(x) => UnifiedEvent::ModelsEtag(x),
    }
}

impl From<ResponseEvent> for UnifiedEvent {
    fn from(v: ResponseEvent) -> (r: UnifiedEvent) {
        match v {
            ResponseEvent::Created => UnifiedEvent::Created,
            ResponseEvent::SafetyBuffering(x) => UnifiedEvent::SafetyBuffering(UnifiedSafetyBuffering::from(x)),
            ResponseEvent::OutputItemDone(x) => UnifiedEvent::OutputItemDone(x),
            ResponseEvent::OutputItemAdded(x) => UnifiedEvent::OutputItemAdded(x),
            ResponseEvent::ServerModel(x) => UnifiedEvent::ServerModel(x),
            ResponseEvent::ModelVerifications(x) => UnifiedEvent::ModelVerifications(x),
            ResponseEvent::TurnModerationMetadata(x) => UnifiedEvent::TurnModerationMetadata(x),
            ResponseEvent::ServerReasoningIncluded(x) => UnifiedEvent::ServerReasoningIncluded(x),
            ResponseEvent::Completed { response_id, token_usage, end_turn } => UnifiedEvent::Completed { response_id, token_usage, end_turn },
            ResponseEvent::OutputTextDelta(x) => UnifiedEvent::OutputTextDelta(x),
            ResponseEvent::ToolCallInputDelta { item_id, call_id, delta } => UnifiedEvent::ToolCallInputDelta { item_id, call_id, delta },
            ResponseEvent::ReasoningSummaryDelta { delta, summary_index } => UnifiedEvent::ReasoningSummaryDelta { delta, summary_index },
            ResponseEvent::ReasoningContentDelta { delta, content_index } => UnifiedEvent::ReasoningContentDelta { delta, content_index },
            ResponseEvent::ReasoningSummaryPartAdded { summary_index } => UnifiedEvent::ReasoningSummaryPartAdded { summary_index },
            ResponseEvent::RateLimits(x) => UnifiedEvent::RateLimits(x),
            ResponseEvent::ModelsEtag(x) => UnifiedEvent::ModelsEtag(x),
        }
    }
}

impl vstd::std_specs::convert::FromSpecImpl<ResponseEvent> for UnifiedEvent {
    open spec fn obeys_from_spec() -> bool {
        true
    }

    open spec fn from_spec(v: ResponseEvent) -> UnifiedEvent {
        event_in(v)
    }
}

/// A request that goes to the Responses protocol and back is the same request,
/// and so is one that comes from there and goes back.
pub proof fn law_request_round_trip(request: UnifiedRequest, sent: ResponsesApiRequest)
    ensures
        request_in(request_out(request)) == request,
        request_out(request_in(sent)) == sent,
{
}

/// Options survive both ways.
pub proof fn law_options_round_trip<H>(options: UnifiedRequestOptions<H>, sent: ResponsesOptions<H>)
    ensures
        options_in(options_out(options)) == options,
        options_out(options_in(sent)) == sent,
{
}

/// An event that is brought into the neutral form and back is the same event,
/// and the other way round.
pub proof fn law_event_round_trip(event: ResponseEvent, neutral: UnifiedEvent)
    ensures
        event_out(event_in(event)) == event,
        event_in(event_out(neutral)) == neutral,
{
}

/// One step of an answer in the neutral form: an event is translated and the
/// protocol's own error is handed on unchanged.
pub fn unified_result<E>(result: Result<ResponseEvent, E>) -> (r: Result<UnifiedEvent, UnifiedError<E>>)
    ensures
        match result {
            Ok(event) => r == Ok::<UnifiedEvent, UnifiedError<E>>(event_in(event)),
            Err(err) => r == Err::<UnifiedEvent, UnifiedError<E>>(UnifiedError::Passthrough(err)),
        },
{
    match result {
        Ok(event) => Ok(UnifiedEvent::from(event)),
        Err(err) => Err(UnifiedError::passthrough(err)),
    }
}

/// Sends neutral requests through a Responses client.
pub struct OpenaiResponsesAdapter<S, T> {
    pub inner: StreamClient<S, T>,
}

impl<S, T> OpenaiResponsesAdapter<S, T> {
    /// An adapter over a session.
    pub fn new(session: S) -> (r: Self)
        ensures
            r.inner.session == session,
            r.inner.sse_telemetry is None,
    {
        OpenaiResponsesAdapter { inner: StreamClient::new(session) }
    }

    /// The adapter with something that listens to the answers.
    pub fn with_telemetry(self, sse: Option<T>) -> (r: Self)
        ensures
            r.inner.session == self.inner.session,
            r.inner.sse_telemetry == sse,
    {
        OpenaiResponsesAdapter { inner: self.inner.with_telemetry(sse) }
    }

    /// The request that the client is handed.
    pub fn prepare(&self, request: UnifiedRequest) -> (r: ResponsesApiRequest)
        ensures
            r == request_out(request),
    {
        ResponsesApiRequest::from(request)
    }
}

/// What a request asks for is sent under the same names: nothing is exchanged, dropped
/// or set to something else.
pub proof fn law_requests_say_the_same(request: UnifiedRequest)
    ensures
        ({
            let sent = request_out(request);
            &&& sent.model == request.model
            &&& sent.instructions == request.instructions
            &&& sent.input == request.input
            &&& sent.tools == request.tools
            &&& sent.tool_choice == request.tool_choice
            &&& sent.parallel_tool_calls == request.parallel_tool_calls
            &&& sent.store == request.store
            &&& sent.stream == request.stream
            &&& sent.include_ == request.include_
            &&& sent.service_tier == request.service_tier
            &&& sent.prompt_cache_key == request.prompt_cache_key
            &&& sent.client_metadata == request.client_metadata
            &&& match (request.reasoning, sent.reasoning) {
                (Some(asked), Some(told)) => asked.effort == told.effort && asked.summary
                    == told.summary && match (asked.context, told.context) {
                    (Some(UnifiedReasoningContext::Auto), Some(c)) => c == ReasoningContext::Auto,
                    (Some(UnifiedReasoningContext::CurrentTurn), Some(c)) => c
                        == ReasoningContext::CurrentTurn,
                    (Some(UnifiedReasoningContext::AllTurns), Some(c)) => c
                        == ReasoningContext::AllTurns,
                    (None, None) => true,
                    _ => false,
                },
                (None, None) => true,
                _ => false,
            }
            &&& match (request.text, sent.text) {
                (Some(asked), Some(told)) => {
                    &&& match (asked.verbosity, told.verbosity) {
                        (Some(UnifiedOpenAiVerbosity::Low), Some(v)) => v == OpenAiVerbosity::Low,
                        (Some(UnifiedOpenAiVerbosity::Medium), Some(v)) => v
                            == OpenAiVerbosity::Medium,
                        (Some(UnifiedOpenAiVerbosity::High), Some(v)) => v == OpenAiVerbosity::High,
                        (None, None) => true,
                        _ => false,
                    }
                    &&& match (asked.format, told.format) {
                        (Some(a), Some(b)) => a.schema == b.schema && a.name == b.name && a.strict
                            == b.strict,
                        (None, None) => true,
                        _ => false,
                    }
                },
                (None, None) => true,
                _ => false,
            }
        }),
{
}

/// How a request is sent is handed on under the same names.
pub proof fn law_options_say_the_same<H>(options: UnifiedRequestOptions<H>)
    ensures
        ({
            let sent = options_out(options);
            &&& sent.session_id == options.session_id
            &&& sent.thread_id == options.thread_id
            &&& sent.session_source == options.session_source
            &&& sent.extra_headers == options.extra_headers
            &&& sent.turn_state == options.turn_state
            &&& options.compression is Zstd <==> sent.compression is Zstd
        }),
{
}

/// An event of an answer tells the same in the neutral form.
pub proof fn law_events_say_the_same(event: ResponseEvent)
    ensures
        match (event, event_in(event)) {
            (ResponseEvent::Created, UnifiedEvent::Created) => true,
            (ResponseEvent::SafetyBuffering(a), UnifiedEvent::SafetyBuffering(b)) => a.use_cases
                == b.use_cases && a.reasons == b.reasons && a.show_buffering_ui
                == b.show_buffering_ui && a.faster_model == b.faster_model,
            (ResponseEvent::OutputItemDone(a), UnifiedEvent::OutputItemDone(b)) => a == b,
            (ResponseEvent::OutputItemAdded(a), UnifiedEvent::OutputItemAdded(b)) => a == b,
            (ResponseEvent::ServerModel(a), UnifiedEvent::ServerModel(b)) => a == b,
            (ResponseEvent::ModelVerifications(a), UnifiedEvent::ModelVerifications(b)) => a == b,
            (ResponseEvent::TurnModerationMetadata(a), UnifiedEvent::TurnModerationMetadata(b)) => a
                == b,
            (ResponseEvent::ServerReasoningIncluded(a), UnifiedEvent::ServerReasoningIncluded(b)) => a
                == b,
            (
                ResponseEvent::Completed { response_id, token_usage, end_turn },
                UnifiedEvent::Completed { response_id: id, token_usage: usage, end_turn: ends },
            ) => response_id == id && token_usage == usage && end_turn == ends,
            (ResponseEvent::OutputTextDelta(a), UnifiedEvent::OutputTextDelta(b)) => a == b,
            (
                ResponseEvent::ToolCallInputDelta { item_id, call_id, delta },
                UnifiedEvent::ToolCallInputDelta { item_id: item, call_id: call, delta: piece },
            ) => item_id == item && call_id == call && delta == piece,
            (
                ResponseEvent::ReasoningSummaryDelta { delta, summary_index },
                UnifiedEvent::ReasoningSummaryDelta { delta: piece, summary_index: index },
            ) => delta == piece && summary_index == index,
            (
                ResponseEvent::ReasoningContentDelta { delta, content_index },
                UnifiedEvent::ReasoningContentDelta { delta: piece, content_index: index },
            ) => delta == piece && content_index == index,
            (
                ResponseEvent::ReasoningSummaryPartAdded { summary_index },
                UnifiedEvent::ReasoningSummaryPartAdded { summary_index: index },
            ) => summary_index == index,
            (ResponseEvent::RateLimits(a), UnifiedEvent::RateLimits(b)) => a == b,
            (ResponseEvent::ModelsEtag(a), UnifiedEvent::ModelsEtag(b)) => a == b,
            _ => false,
        },
{
}

} // verus!
