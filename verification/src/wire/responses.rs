//! Requests of the Responses protocol.

use vstd::prelude::*;
use vstd::string::*;

use crate::json::copy_docs;
use crate::json::Json;
use crate::json::JsonView;
use crate::models::copy_items;
use crate::models::ReasoningEffort;
use crate::models::ReasoningEffortView;
use crate::models::ReasoningSummary;
use crate::models::ResponseItem;
use crate::models::ResponseItemView;
use crate::models::Verbosity;
use crate::text::add_pair;
use crate::text::copy_text;
use crate::text::copy_texts;
use crate::text::text_map;
use crate::unified::SessionSource;

verus! {

/// The metadata key that carries a trace's parent over a socket.
pub const WS_REQUEST_HEADER_TRACEPARENT_CLIENT_METADATA_KEY: &'static str = "ws_request_header_traceparent";

/// The metadata key that carries a trace's state over a socket.
pub const WS_REQUEST_HEADER_TRACESTATE_CLIENT_METADATA_KEY: &'static str = "ws_request_header_tracestate";

/// How far back reasoning is taken into account.
#[derive(Debug, Clone, Copy, PartialEq, Eq)]
pub enum ReasoningContext {
    Auto,
    CurrentTurn,
    AllTurns,
}

impl View for ReasoningContext {
    type V = ReasoningContext;

    open spec fn view(&self) -> ReasoningContext {
        *self
    }
}

impl DeepView for ReasoningContext {
    type V = ReasoningContext;

    open spec fn deep_view(&self) -> ReasoningContext {
        self.view()
    }
}

/// How a model is asked to reason.
#[derive(Debug, Clone, PartialEq)]
pub struct Reasoning {
    pub effort: Option<ReasoningEffort>,
    pub summary: Option<ReasoningSummary>,
    pub context: Option<ReasoningContext>,
}

/// What a `Reasoning` means.
#[verifier::ext_equal]
pub struct ReasoningView {
    pub effort: Option<ReasoningEffortView>,
    pub summary: Option<ReasoningSummary>,
    pub context: Option<ReasoningContext>,
}

impl View for Reasoning {
    type V = ReasoningView;

    open spec fn view(&self) -> ReasoningView {
        ReasoningView {
            effort: self.effort.deep_view(),
            summary: self.summary.deep_view(),
            context: self.context.deep_view(),
        }
    }
}

impl DeepView for Reasoning {
    type V = ReasoningView;

    open spec fn deep_view(&self) -> ReasoningView {
        self.view()
    }
}

/// What kind of form a text has: so far, always a JSON schema.
#[derive(Debug, Clone, Copy, PartialEq, Eq)]
pub enum TextFormatType {
    JsonSchema,
}

impl View for TextFormatType {
    type V = TextFormatType;

    open spec fn view(&self) -> TextFormatType {
        *self
    }
}

impl DeepView for TextFormatType {
    type V = TextFormatType;

    open spec fn deep_view(&self) -> TextFormatType {
        self.view()
    }
}

/// The form that the text of an answer must have.
#[derive(Debug, Clone, PartialEq)]
pub struct TextFormat {
    pub kind: TextFormatType,
    /// Whether the server is to hold the answer to the schema.
    pub strict: bool,
    /// The schema of the answer.
    pub schema: Json,
    /// A name for telemetry and debugging.
    pub name: String,
}

/// What a `TextFormat` means.
#[verifier::ext_equal]
pub struct TextFormatView {
    pub kind: TextFormatType,
    pub strict: bool,
    pub schema: JsonView,
    pub name: Seq<char>,
}

impl View for TextFormat {
    type V = TextFormatView;

    open spec fn view(&self) -> TextFormatView {
        TextFormatView {
            kind: self.kind.deep_view(),
            strict: self.strict.deep_view(),
            schema: self.schema.deep_view(),
            name: self.name.deep_view(),
        }
    }
}

impl DeepView for TextFormat {
    type V = TextFormatView;

    open spec fn deep_view(&self) -> TextFormatView {
        self.view()
    }
}

/// The `text` field of a request: how long the answer is and what form it has.
#[derive(Debug, Clone, PartialEq)]
pub struct TextControls {
    pub verbosity: Option<OpenAiVerbosity>,
    pub format: Option<TextFormat>,
}

/// What a `TextControls` means.
#[verifier::ext_equal]
pub struct TextControlsView {
    pub verbosity: Option<OpenAiVerbosity>,
    pub format: Option<TextFormatView>,
}

impl View for TextControls {
    type V = TextControlsView;

    open spec fn view(&self) -> TextControlsView {
        TextControlsView {
            verbosity: self.verbosity.deep_view(),
            format: self.format.deep_view(),
        }
    }
}

impl DeepView for TextControls {
    type V = TextControlsView;

    open spec fn deep_view(&self) -> TextControlsView {
        self.view()
    }
}

/// How long an answer is asked to be.
#[derive(Debug, Clone, Copy, PartialEq, Eq)]
pub enum OpenAiVerbosity {
    Low,
    Medium,
    High,
}

impl View for OpenAiVerbosity {
    type V = OpenAiVerbosity;

    open spec fn view(&self) -> OpenAiVerbosity {
        *self
    }
}

impl DeepView for OpenAiVerbosity {
    type V = OpenAiVerbosity;

    open spec fn deep_view(&self) -> OpenAiVerbosity {
        self.view()
    }
}

/// A request.
#[derive(Debug, Clone, PartialEq)]
pub struct ResponsesApiRequest {
    pub model: String,
    pub instructions: String,
    pub input: Vec<ResponseItem>,
    pub tools: Option<Vec<Json>>,
    pub tool_choice: String,
    pub parallel_tool_calls: bool,
    pub reasoning: Option<Reasoning>,
    pub store: bool,
    pub stream: bool,
    pub include_: Vec<String>,
    pub service_tier: Option<String>,
    pub prompt_cache_key: Option<String>,
    pub text: Option<TextControls>,
    pub client_metadata: Option<Vec<(String, String)>>,
}

/// What a `ResponsesApiRequest` means.
#[verifier::ext_equal]
pub struct ResponsesApiRequestView {
    pub model: Seq<char>,
    pub instructions: Seq<char>,
    pub input: Seq<ResponseItemView>,
    pub tools: Option<Seq<JsonView>>,
    pub tool_choice: Seq<char>,
    pub parallel_tool_calls: bool,
    pub reasoning: Option<ReasoningView>,
    pub store: bool,
    pub stream: bool,
    pub include_: Seq<Seq<char>>,
    pub service_tier: Option<Seq<char>>,
    pub prompt_cache_key: Option<Seq<char>>,
    pub text: Option<TextControlsView>,
    pub client_metadata: Option<Seq<(Seq<char>, Seq<char>)>>,
}

impl View for ResponsesApiRequest {
    type V = ResponsesApiRequestView;

    open spec fn view(&self) -> ResponsesApiRequestView {
        ResponsesApiRequestView {
            model: self.model.deep_view(),
            instructions: self.instructions.deep_view(),
            input: self.input.deep_view(),
            tools: self.tools.deep_view(),
            tool_choice: self.tool_choice.deep_view(),
            parallel_tool_calls: self.parallel_tool_calls.deep_view(),
            reasoning: self.reasoning.deep_view(),
            store: self.store.deep_view(),
            stream: self.stream.deep_view(),
            include_: self.include_.deep_view(),
            service_tier: self.service_tier.deep_view(),
            prompt_cache_key: self.prompt_cache_key.deep_view(),
            text: self.text.deep_view(),
            client_metadata: self.client_metadata.deep_view(),
        }
    }
}

impl DeepView for ResponsesApiRequest {
    type V = ResponsesApiRequestView;

    open spec fn deep_view(&self) -> ResponsesApiRequestView {
        self.view()
    }
}

/// A request as it is sent over a socket.
#[derive(Debug)]
pub struct ResponseCreateWsRequest {
    pub model: String,
    pub instructions: String,
    pub previous_response_id: Option<String>,
    pub input: Vec<ResponseItem>,
    pub tools: Option<Vec<Json>>,
    pub tool_choice: String,
    pub parallel_tool_calls: bool,
    pub reasoning: Option<Reasoning>,
    pub store: bool,
    pub stream: bool,
    pub include_: Vec<String>,
    pub service_tier: Option<String>,
    pub prompt_cache_key: Option<String>,
    pub text: Option<TextControls>,
    pub generate: Option<bool>,
    pub client_metadata: Option<Vec<(String, String)>>,
}

/// What a `ResponseCreateWsRequest` means.
#[verifier::ext_equal]
pub struct ResponseCreateWsRequestView {
    pub model: Seq<char>,
    pub instructions: Seq<char>,
    pub previous_response_id: Option<Seq<char>>,
    pub input: Seq<ResponseItemView>,
    pub tools: Option<Seq<JsonView>>,
    pub tool_choice: Seq<char>,
    pub parallel_tool_calls: bool,
    pub reasoning: Option<ReasoningView>,
    pub store: bool,
    pub stream: bool,
    pub include_: Seq<Seq<char>>,
    pub service_tier: Option<Seq<char>>,
    pub prompt_cache_key: Option<Seq<char>>,
    pub text: Option<TextControlsView>,
    pub generate: Option<bool>,
    pub client_metadata: Option<Seq<(Seq<char>, Seq<char>)>>,
}

impl View for ResponseCreateWsRequest {
    type V = ResponseCreateWsRequestView;

    open spec fn view(&self) -> ResponseCreateWsRequestView {
        ResponseCreateWsRequestView {
            model: self.model.deep_view(),
            instructions: self.instructions.deep_view(),
            previous_response_id: self.previous_response_id.deep_view(),
            input: self.input.deep_view(),
            tools: self.tools.deep_view(),
            tool_choice: self.tool_choice.deep_view(),
            parallel_tool_calls: self.parallel_tool_calls.deep_view(),
            reasoning: self.reasoning.deep_view(),
            store: self.store.deep_view(),
            stream: self.stream.deep_view(),
            include_: self.include_.deep_view(),
            service_tier: self.service_tier.deep_view(),
            prompt_cache_key: self.prompt_cache_key.deep_view(),
            text: self.text.deep_view(),
            generate: self.generate.deep_view(),
            client_metadata: self.client_metadata.deep_view(),
        }
    }
}

impl DeepView for ResponseCreateWsRequest {
    type V = ResponseCreateWsRequestView;

    open spec fn deep_view(&self) -> ResponseCreateWsRequestView {
        self.view()
    }
}

/// A message to the socket.
#[derive(Debug)]
pub enum ResponsesWsRequest {
    ResponseCreate(ResponseCreateWsRequest),
}

/// What the compaction endpoint is sent.
#[derive(Debug, Clone)]
pub struct CompactionInput {
    pub model: String,
    pub input: Vec<ResponseItem>,
    pub instructions: String,
    pub tools: Option<Vec<Json>>,
    pub parallel_tool_calls: bool,
    pub reasoning: Option<Reasoning>,
    pub service_tier: Option<String>,
    pub prompt_cache_key: Option<String>,
    pub text: Option<TextControls>,
}

/// What the memory endpoint is sent.
#[derive(Debug, Clone)]
pub struct MemorySummarizeInput {
    pub model: String,
    pub raw_memories: Vec<RawMemory>,
    pub reasoning: Option<Reasoning>,
}

/// One trace that memories are drawn from.
#[derive(Debug, Clone)]
pub struct RawMemory {
    pub id: String,
    pub metadata: RawMemoryMetadata,
    pub items: Vec<Json>,
}

/// Where a trace comes from.
#[derive(Debug, Clone)]
pub struct RawMemoryMetadata {
    pub source_path: String,
}

/// What the memory endpoint answers.
#[derive(Debug, Clone, PartialEq, Eq)]
pub struct MemorySummarizeOutput {
    pub raw_memory: String,
    pub memory_summary: String,
}

/// How the body of a request is compressed.
#[derive(Debug, Clone, Copy, PartialEq, Eq)]
pub enum Compression {
    /// Not at all.
    Identity,
    Zstd,
}

/// How a request is sent. `turn_state` is the caller's handle for the state that
/// the server hands out for a turn.
pub struct ResponsesOptions<H> {
    pub session_id: Option<String>,
    pub thread_id: Option<String>,
    pub session_source: Option<SessionSource>,
    pub extra_headers: http::HeaderMap,
    pub compression: Compression,
    pub turn_state: Option<H>,
}

/// A distributed trace that a request belongs to.
#[derive(Debug, Clone)]
pub struct W3cTraceContext {
    pub traceparent: Option<String>,
    pub tracestate: Option<String>,
}

/// What a `W3cTraceContext` means.
#[verifier::ext_equal]
pub struct W3cTraceContextView {
    pub traceparent: Option<Seq<char>>,
    pub tracestate: Option<Seq<char>>,
}

impl View for W3cTraceContext {
    type V = W3cTraceContextView;

    open spec fn view(&self) -> W3cTraceContextView {
        W3cTraceContextView {
            traceparent: self.traceparent.deep_view(),
            tracestate: self.tracestate.deep_view(),
        }
    }
}

impl DeepView for W3cTraceContext {
    type V = W3cTraceContextView;

    open spec fn deep_view(&self) -> W3cTraceContextView {
        self.view()
    }
}

impl From<Verbosity> for OpenAiVerbosity {
    fn from(v: Verbosity) -> (r: OpenAiVerbosity) {
        match v {
            Verbosity::Low => OpenAiVerbosity::Low,
            Verbosity::Medium => OpenAiVerbosity::Medium,
            Verbosity::High => OpenAiVerbosity::High,
        }
    }
}

impl vstd::std_specs::convert::FromSpecImpl<Verbosity> for OpenAiVerbosity {
    open spec fn obeys_from_spec() -> bool {
        true
    }

    open spec fn from_spec(v: Verbosity) -> OpenAiVerbosity {
        match v {
            Verbosity::Low => OpenAiVerbosity::Low,
            Verbosity::Medium => OpenAiVerbosity::Medium,
            Verbosity::High => OpenAiVerbosity::High,
        }
    }
}

/// The `text` field for a verbosity and a schema: none when neither is asked
/// for.
pub open spec fn text_param(
    verbosity: Option<Verbosity>,
    schema: Option<JsonView>,
    strict: bool,
) -> Option<TextControlsView> {
    if verbosity is None && schema is None {
        None
    } else {
        Some(
            TextControlsView {
                verbosity: match verbosity {
                    Some(Verbosity::Low) => Some(OpenAiVerbosity::Low),
                    Some(Verbosity::Medium) => Some(OpenAiVerbosity::Medium),
                    Some(Verbosity::High) => Some(OpenAiVerbosity::High),
                    None => None,
                },
                format: match schema {
                    Some(schema) => Some(
                        TextFormatView {
                            kind: TextFormatType::JsonSchema,
                            strict,
                            schema,
                            name: "codex_output_schema"@,
                        },
                    ),
                    None => None,
                },
            },
        )
    }
}

/// Builds the `text` field of a request.
pub fn create_text_param_for_request(
    verbosity: Option<Verbosity>,
    output_schema: &Option<Json>,
    output_schema_strict: bool,
) -> (r: Option<TextControls>)
    ensures
        r.deep_view() == text_param(verbosity, output_schema.deep_view(), output_schema_strict),
{
    if verbosity.is_none() && output_schema.is_none() {
        return None;
    }
    Some(
        TextControls {
            verbosity: match verbosity {
                Some(v) => Some(OpenAiVerbosity::from(v)),
                None => None,
            },
            format: match output_schema {
                Some(schema) => Some(
                    TextFormat {
                        kind: TextFormatType::JsonSchema,
                        strict: output_schema_strict,
                        schema: schema.copy(),
                        name: "codex_output_schema".to_owned(),
                    },
                ),
                None => None,
            },
        },
    )
}

impl Reasoning {
    /// A copy of the settings.
    pub fn copy(&self) -> (r: Reasoning)
        ensures
            r@ == self@,
    {
        Reasoning {
            effort: match &self.effort {
                Some(effort) => Some(effort.copy()),
                None => None,
            },
            summary: self.summary,
            context: self.context,
        }
    }
}

impl TextControls {
    /// A copy of the controls.
    pub fn copy(&self) -> (r: TextControls)
        ensures
            r@ == self@,
    {
        TextControls {
            verbosity: self.verbosity,
            format: match &self.format {
                Some(format) => Some(
                    TextFormat {
                        kind: format.kind,
                        strict: format.strict,
                        schema: format.schema.copy(),
                        name: format.name.clone(),
                    },
                ),
                None => None,
            },
        }
    }
}

/// A copy of metadata.
fn copy_pairs(list: &Vec<(String, String)>) -> (r: Vec<(String, String)>)
    ensures
        r@ == list@,
{
    let mut out: Vec<(String, String)> = Vec::new();
    let mut i: usize = 0;
    while i < list.len()
        invariant
            i <= list@.len(),
            out@ == list@.take(i as int),
        decreases list@.len() - i,
    {
        out.push((list[i].0.clone(), list[i].1.clone()));
        i += 1;
    }
    out
}

/// A request as it is sent over a socket: the same request, with nothing to go
/// on from and generation left to the server.
pub open spec fn ws_request(request: ResponsesApiRequestView) -> ResponseCreateWsRequestView {
    ResponseCreateWsRequestView {
        model: request.model,
        instructions: request.instructions,
        previous_response_id: None,
        input: request.input,
        tools: request.tools,
        tool_choice: request.tool_choice,
        parallel_tool_calls: request.parallel_tool_calls,
        reasoning: request.reasoning,
        store: request.store,
        stream: request.stream,
        include_: request.include_,
        service_tier: request.service_tier,
        prompt_cache_key: request.prompt_cache_key,
        text: request.text,
        generate: None,
        client_metadata: request.client_metadata,
    }
}

impl<'a> From<&'a ResponsesApiRequest> for ResponseCreateWsRequest {
    fn from(request: &'a ResponsesApiRequest) -> (r: ResponseCreateWsRequest)
        ensures
            r@ == ws_request(request@),
    {
        ResponseCreateWsRequest {
            model: request.model.clone(),
            instructions: request.instructions.clone(),
            previous_response_id: None,
            input: copy_items(&request.input),
            tools: match &request.tools {
                Some(tools) => Some(copy_docs(tools)),
                None => None,
            },
            tool_choice: request.tool_choice.clone(),
            parallel_tool_calls: request.parallel_tool_calls,
            reasoning: match &request.reasoning {
                Some(reasoning) => Some(reasoning.copy()),
                None => None,
            },
            store: request.store,
            stream: request.stream,
            include_: copy_texts(&request.include_),
            service_tier: copy_text(&request.service_tier),
            prompt_cache_key: copy_text(&request.prompt_cache_key),
            text: match &request.text {
                Some(text) => Some(text.copy()),
                None => None,
            },
            generate: None,
            client_metadata: match &request.client_metadata {
                Some(pairs) => Some(copy_pairs(pairs)),
                None => None,
            },
        }
    }
}

impl<'a> vstd::std_specs::convert::FromSpecImpl<&'a ResponsesApiRequest> for ResponseCreateWsRequest {
    open spec fn obeys_from_spec() -> bool {
        false
    }

    open spec fn from_spec(request: &'a ResponsesApiRequest) -> ResponseCreateWsRequest {
        choose|r: ResponseCreateWsRequest| r@ == ws_request(request@)
    }
}

/// Metadata with an entry, when there is a value for it.
pub open spec fn with_entry(
    map: Map<Seq<char>, Seq<char>>,
    key: Seq<char>,
    value: Option<Seq<char>>,
) -> Map<Seq<char>, Seq<char>> {
    match value {
        Some(v) => map.insert(key, v),
        None => map,
    }
}

/// Metadata with the entries of a trace.
pub open spec fn traced(
    map: Map<Seq<char>, Seq<char>>,
    traceparent: Option<Seq<char>>,
    tracestate: Option<Seq<char>>,
) -> Map<Seq<char>, Seq<char>> {
    with_entry(
        with_entry(map, WS_REQUEST_HEADER_TRACEPARENT_CLIENT_METADATA_KEY@, traceparent),
        WS_REQUEST_HEADER_TRACESTATE_CLIENT_METADATA_KEY@,
        tracestate,
    )
}

fn add_entry(pairs: &mut Vec<(String, String)>, key: &str, value: &Option<String>)
    ensures
        text_map(final(pairs).deep_view()) == with_entry(
            text_map(old(pairs).deep_view()),
            key@,
            value.deep_view(),
        ),
        final(pairs)@.len() >= old(pairs)@.len(),
{
    if let Some(v) = value {
        add_pair(pairs, key.to_owned(), v.clone());
    }
}

/// The metadata of a request over a socket: the given metadata and the trace;
/// none when there is nothing to say.
pub fn response_create_client_metadata(
    client_metadata: Option<Vec<(String, String)>>,
    trace: Option<&W3cTraceContext>,
) -> (r: Option<Vec<(String, String)>>)
    ensures
        ({
            let given = match client_metadata {
                Some(pairs) => text_map(pairs.deep_view()),
                None => Map::empty(),
            };
            let all = match trace {
                Some(t) => traced(given, t.traceparent.deep_view(), t.tracestate.deep_view()),
                None => given,
            };
            match r {
                Some(pairs) => pairs@.len() > 0 && text_map(pairs.deep_view()) == all,
                None => all == Map::<Seq<char>, Seq<char>>::empty(),
            }
        }),
{
    let mut pairs: Vec<(String, String)> = match client_metadata {
        Some(pairs) => pairs,
        None => Vec::new(),
    };
    if let Some(t) = trace {
        add_entry(&mut pairs, WS_REQUEST_HEADER_TRACEPARENT_CLIENT_METADATA_KEY, &t.traceparent);
        add_entry(&mut pairs, WS_REQUEST_HEADER_TRACESTATE_CLIENT_METADATA_KEY, &t.tracestate);
    }
    if pairs.len() == 0 {
        None
    } else {
        Some(pairs)
    }
}

/// The `text` field asks for the verbosity that is wished for and for an answer of the
/// schema that is given, and is there when either is.
pub proof fn law_text_is_asked_for(verbosity: Option<Verbosity>, schema: JsonView, strict: bool)
    ensures
        text_param(None, None, strict) is None,
        text_param(verbosity, Some(schema), strict) matches Some(text) && (text.format matches Some(
            format,
        ) && format.schema == schema && format.strict == strict && format.kind
            == TextFormatType::JsonSchema && format.name == "codex_output_schema"@),
        text_param(Some(Verbosity::Low), None, strict) matches Some(text) && text.verbosity == Some(
            OpenAiVerbosity::Low,
        ) && text.format is None,
        text_param(Some(Verbosity::Medium), None, strict) matches Some(text) && text.verbosity
            == Some(OpenAiVerbosity::Medium) && text.format is None,
        text_param(Some(Verbosity::High), None, strict) matches Some(text) && text.verbosity == Some(
            OpenAiVerbosity::High,
        ) && text.format is None,
        text_param(verbosity, Some(schema), strict) matches Some(text) && (text.verbosity is Some
            <==> verbosity is Some),
{
}

/// A trace is told in the metadata under its own keys, and everything else is told as
/// it was.
pub proof fn law_traces_are_told(
    map: Map<Seq<char>, Seq<char>>,
    parent: Option<Seq<char>>,
    state: Option<Seq<char>>,
    text: Seq<char>,
    other: Seq<char>,
)
    ensures
        parent == Some(text) ==> traced(map, parent, state).contains_pair(
            "ws_request_header_traceparent"@,
            text,
        ),
        state == Some(text) ==> traced(map, parent, state).contains_pair(
            "ws_request_header_tracestate"@,
            text,
        ),
        traced(map, None, None) == map,
        other != "ws_request_header_traceparent"@ && other != "ws_request_header_tracestate"@ ==> {
            &&& traced(map, parent, state).dom().contains(other) == map.dom().contains(other)
            &&& map.dom().contains(other) ==> traced(map, parent, state)[other] == map[other]
        },
{
    reveal_strlit("ws_request_header_traceparent");
    reveal_strlit("ws_request_header_tracestate");
    assert("ws_request_header_traceparent"@.len() != "ws_request_header_tracestate"@.len());
}

/// A request over a socket says what the request says, starts afresh and leaves
/// generation to the server.
pub proof fn law_sockets_carry_the_request(request: ResponsesApiRequestView)
    ensures
        ({
            let sent = ws_request(request);
            &&& sent.model == request.model
            &&& sent.instructions == request.instructions
            &&& sent.input == request.input
            &&& sent.tools == request.tools
            &&& sent.tool_choice == request.tool_choice
            &&& sent.parallel_tool_calls == request.parallel_tool_calls
            &&& sent.reasoning == request.reasoning
            &&& sent.store == request.store
            &&& sent.stream == request.stream
            &&& sent.include_ == request.include_
            &&& sent.service_tier == request.service_tier
            &&& sent.prompt_cache_key == request.prompt_cache_key
            &&& sent.text == request.text
            &&& sent.client_metadata == request.client_metadata
            &&& sent.previous_response_id is None
            &&& sent.generate is None
        }),
{
}

} // verus!
