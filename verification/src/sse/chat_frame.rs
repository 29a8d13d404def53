//! Frames of the Chat Completions protocol.

use vstd::prelude::*;

use crate::json::record_field;
use crate::json::is_record;
use crate::json::docs;
use crate::json::doc_i64;
use crate::json::Json;
use crate::json::JsonView;
use crate::models::TokenUsage;

verus! {

/// One frame of an answer.
#[derive(Debug, Clone, PartialEq)]
pub struct ChatStreamChunk {
    pub id: Option<String>,
    pub model: Option<String>,
    pub choices: Vec<ChatChoice>,
    pub usage: Option<ChatUsage>,
    /// Some gateways report an error in a frame of an accepted answer.
    pub error: Option<ChatStreamError>,
}

/// What a `ChatStreamChunk` means.
#[verifier::ext_equal]
pub struct ChatStreamChunkView {
    pub id: Option<Seq<char>>,
    pub model: Option<Seq<char>>,
    pub choices: Seq<ChatChoiceView>,
    pub usage: Option<ChatUsage>,
    pub error: Option<ChatStreamErrorView>,
}

impl View for ChatStreamChunk {
    type V = ChatStreamChunkView;

    open spec fn view(&self) -> ChatStreamChunkView {
        ChatStreamChunkView {
            id: self.id.deep_view(),
            model: self.model.deep_view(),
            choices: self.choices.deep_view(),
            usage: self.usage.deep_view(),
            error: self.error.deep_view(),
        }
    }
}

impl DeepView for ChatStreamChunk {
    type V = ChatStreamChunkView;

    open spec fn deep_view(&self) -> ChatStreamChunkView {
        self.view()
    }
}

/// One choice of a frame.
#[derive(Debug, Clone, PartialEq)]
pub struct ChatChoice {
    pub delta: ChatDelta,
    pub finish_reason: Option<String>,
}

/// What a `ChatChoice` means.
#[verifier::ext_equal]
pub struct ChatChoiceView {
    pub delta: ChatDeltaView,
    pub finish_reason: Option<Seq<char>>,
}

impl View for ChatChoice {
    type V = ChatChoiceView;

    open spec fn view(&self) -> ChatChoiceView {
        ChatChoiceView {
            delta: self.delta.deep_view(),
            finish_reason: self.finish_reason.deep_view(),
        }
    }
}

impl DeepView for ChatChoice {
    type V = ChatChoiceView;

    open spec fn deep_view(&self) -> ChatChoiceView {
        self.view()
    }
}

/// What a choice adds.
#[derive(Debug, Clone, PartialEq)]
pub struct ChatDelta {
    pub role: Option<String>,
    pub content: Option<String>,
    pub reasoning_content: Option<String>,
    pub tool_calls: Option<Vec<ChatDeltaToolCall>>,
}

/// What a `ChatDelta` means.
#[verifier::ext_equal]
pub struct ChatDeltaView {
    pub role: Option<Seq<char>>,
    pub content: Option<Seq<char>>,
    pub reasoning_content: Option<Seq<char>>,
    pub tool_calls: Option<Seq<ChatDeltaToolCallView>>,
}

impl View for ChatDelta {
    type V = ChatDeltaView;

    open spec fn view(&self) -> ChatDeltaView {
        ChatDeltaView {
            role: self.role.deep_view(),
            content: self.content.deep_view(),
            reasoning_content: self.reasoning_content.deep_view(),
            tool_calls: self.tool_calls.deep_view(),
        }
    }
}

impl DeepView for ChatDelta {
    type V = ChatDeltaView;

    open spec fn deep_view(&self) -> ChatDeltaView {
        self.view()
    }
}

/// A piece of a tool call; the index says of which.
#[derive(Debug, Clone, PartialEq)]
pub struct ChatDeltaToolCall {
    pub index: i64,
    pub id: Option<String>,
    pub kind: Option<String>,
    pub function: Option<ChatDeltaToolCallFunction>,
}

/// What a `ChatDeltaToolCall` means.
#[verifier::ext_equal]
pub struct ChatDeltaToolCallView {
    pub index: i64,
    pub id: Option<Seq<char>>,
    pub kind: Option<Seq<char>>,
    pub function: Option<ChatDeltaToolCallFunctionView>,
}

impl View for ChatDeltaToolCall {
    type V = ChatDeltaToolCallView;

    open spec fn view(&self) -> ChatDeltaToolCallView {
        ChatDeltaToolCallView {
            index: self.index.deep_view(),
            id: self.id.deep_view(),
            kind: self.kind.deep_view(),
            function: self.function.deep_view(),
        }
    }
}

impl DeepView for ChatDeltaToolCall {
    type V = ChatDeltaToolCallView;

    open spec fn deep_view(&self) -> ChatDeltaToolCallView {
        self.view()
    }
}

/// The function that a tool call names.
#[derive(Debug, Clone, PartialEq)]
pub struct ChatDeltaToolCallFunction {
    pub name: Option<String>,
    pub arguments: Option<String>,
}

/// What a `ChatDeltaToolCallFunction` means.
#[verifier::ext_equal]
pub struct ChatDeltaToolCallFunctionView {
    pub name: Option<Seq<char>>,
    pub arguments: Option<Seq<char>>,
}

impl View for ChatDeltaToolCallFunction {
    type V = ChatDeltaToolCallFunctionView;

    open spec fn view(&self) -> ChatDeltaToolCallFunctionView {
        ChatDeltaToolCallFunctionView {
            name: self.name.deep_view(),
            arguments: self.arguments.deep_view(),
        }
    }
}

impl DeepView for ChatDeltaToolCallFunction {
    type V = ChatDeltaToolCallFunctionView;

    open spec fn deep_view(&self) -> ChatDeltaToolCallFunctionView {
        self.view()
    }
}

/// The usage that an answer reports.
#[derive(Debug, Clone, Copy, PartialEq, Eq)]
pub struct ChatUsage {
    pub prompt_tokens: i64,
    pub completion_tokens: i64,
    pub total_tokens: i64,
}

impl View for ChatUsage {
    type V = ChatUsage;

    open spec fn view(&self) -> ChatUsage {
        *self
    }
}

impl DeepView for ChatUsage {
    type V = ChatUsage;

    open spec fn deep_view(&self) -> ChatUsage {
        self.view()
    }
}

/// The error that a frame reports.
#[derive(Debug, Clone, PartialEq)]
pub struct ChatStreamError {
    pub message: Option<String>,
}

/// What a `ChatStreamError` means.
#[verifier::ext_equal]
pub struct ChatStreamErrorView {
    pub message: Option<Seq<char>>,
}

impl View for ChatStreamError {
    type V = ChatStreamErrorView;

    open spec fn view(&self) -> ChatStreamErrorView {
        ChatStreamErrorView {
            message: self.message.deep_view(),
        }
    }
}

impl DeepView for ChatStreamError {
    type V = ChatStreamErrorView;

    open spec fn deep_view(&self) -> ChatStreamErrorView {
        self.view()
    }
}

impl From<ChatUsage> for TokenUsage {
    /// The protocol tells neither cached nor reasoning tokens apart.
    fn from(usage: ChatUsage) -> (r: TokenUsage) {
        TokenUsage {
            input_tokens: usage.prompt_tokens,
            cached_input_tokens: 0,
            output_tokens: usage.completion_tokens,
            reasoning_output_tokens: 0,
            total_tokens: usage.total_tokens,
        }
    }
}

impl vstd::std_specs::convert::FromSpecImpl<ChatUsage> for TokenUsage {
    open spec fn obeys_from_spec() -> bool {
        true
    }

    open spec fn from_spec(usage: ChatUsage) -> TokenUsage {
        TokenUsage {
            input_tokens: usage.prompt_tokens,
            cached_input_tokens: 0,
            output_tokens: usage.completion_tokens,
            reasoning_output_tokens: 0,
            total_tokens: usage.total_tokens,
        }
    }
}

/// A field that holds a text or null or is not there; anything else makes the
/// whole frame unreadable.
pub open spec fn text_slot(doc: JsonView, key: Seq<char>, at: int) -> Option<Option<Seq<char>>> {
    match record_field(doc, key, at) {
        None | Some(JsonView::Null) => Some(None),
        Some(JsonView::Text(s)) => Some(Some(s)),
        _ => None,
    }
}

/// Reads a function of a tool call.
pub open spec fn function_of(doc: JsonView) -> Option<ChatDeltaToolCallFunctionView> {
    match (is_record(doc, 2), text_slot(doc, "name"@, 0), text_slot(doc, "arguments"@, 1)) {
        (true, Some(name), Some(arguments)) => Some(
            ChatDeltaToolCallFunctionView { name, arguments },
        ),
        _ => None,
    }
}

/// Reads an optional function of a tool call.
pub open spec fn function_slot(doc: JsonView) -> Option<Option<ChatDeltaToolCallFunctionView>> {
    match record_field(doc, "function"@, 3) {
        None | Some(JsonView::Null) => Some(None),
        Some(d) => match function_of(d) {
            Some(f) => Some(Some(f)),
            None => None,
        },
    }
}

/// Reads a piece of a tool call; its index must be there.
pub open spec fn tool_call_of(doc: JsonView) -> Option<ChatDeltaToolCallView> {
    match record_field(doc, "index"@, 0) {
        None => None,
        Some(d) => match (
            is_record(doc, 4),
            doc_i64(d),
            text_slot(doc, "id"@, 1),
            text_slot(doc, "type"@, 2),
            function_slot(doc),
        ) {
            (true, Some(index), Some(id), Some(kind), Some(function)) => Some(
                ChatDeltaToolCallView { index, id, kind, function },
            ),
            _ => None,
        },
    }
}

/// Reads pieces of tool calls: all of them or none.
pub open spec fn tool_calls_of(items: Seq<JsonView>) -> Option<Seq<ChatDeltaToolCallView>> {
    if forall|i: int| 0 <= i < items.len() ==> tool_call_of(#[trigger] items[i]) is Some {
        Some(Seq::new(items.len(), |i: int| tool_call_of(items[i])->Some_0))
    } else {
        None
    }
}

/// Reads the optional pieces of tool calls.
pub open spec fn tool_calls_slot(doc: JsonView) -> Option<Option<Seq<ChatDeltaToolCallView>>> {
    match record_field(doc, "tool_calls"@, 3) {
        None | Some(JsonView::Null) => Some(None),
        Some(JsonView::List(items)) => match tool_calls_of(items) {
            Some(calls) => Some(Some(calls)),
            None => None,
        },
        _ => None,
    }
}

/// What nothing adds.
pub open spec fn no_delta() -> ChatDeltaView {
    ChatDeltaView { role: None, content: None, reasoning_content: None, tool_calls: None }
}

/// Reads what a choice adds; a choice without it adds nothing.
pub open spec fn delta_of(doc: JsonView) -> Option<ChatDeltaView> {
    match record_field(doc, "delta"@, 0) {
        None => Some(no_delta()),
        Some(d) => match (
            is_record(d, 4),
            text_slot(d, "role"@, 0),
            text_slot(d, "content"@, 1),
            text_slot(d, "reasoning_content"@, 2),
            tool_calls_slot(d),
        ) {
            (true, Some(role), Some(content), Some(reasoning_content), Some(tool_calls)) => Some(
                ChatDeltaView { role, content, reasoning_content, tool_calls },
            ),
            _ => None,
        },
    }
}

/// Reads a choice.
pub open spec fn choice_of(doc: JsonView) -> Option<ChatChoiceView> {
    match (is_record(doc, 2), delta_of(doc), text_slot(doc, "finish_reason"@, 1)) {
        (true, Some(delta), Some(finish_reason)) => Some(ChatChoiceView { delta, finish_reason }),
        _ => None,
    }
}

/// Reads choices: all of them or none.
pub open spec fn choices_of(items: Seq<JsonView>) -> Option<Seq<ChatChoiceView>> {
    if forall|i: int| 0 <= i < items.len() ==> choice_of(#[trigger] items[i]) is Some {
        Some(Seq::new(items.len(), |i: int| choice_of(items[i])->Some_0))
    } else {
        None
    }
}

/// Reads the choices of a frame; a frame without them has none.
pub open spec fn choices_slot(doc: JsonView) -> Option<Seq<ChatChoiceView>> {
    match record_field(doc, "choices"@, 2) {
        None => Some(Seq::empty()),
        Some(JsonView::List(items)) => choices_of(items),
        _ => None,
    }
}

/// The integer of a required field.
pub open spec fn required_i64(doc: JsonView, key: Seq<char>, at: int) -> Option<i64> {
    match record_field(doc, key, at) {
        None => None,
        Some(d) => doc_i64(d),
    }
}

/// Reads the optional usage of a frame; its three counts must be there.
pub open spec fn usage_slot(doc: JsonView) -> Option<Option<ChatUsage>> {
    match record_field(doc, "usage"@, 3) {
        None | Some(JsonView::Null) => Some(None),
        Some(d) => match (
            is_record(d, 3),
            required_i64(d, "prompt_tokens"@, 0),
            required_i64(d, "completion_tokens"@, 1),
            required_i64(d, "total_tokens"@, 2),
        ) {
            (true, Some(prompt_tokens), Some(completion_tokens), Some(total_tokens)) => Some(
                Some(ChatUsage { prompt_tokens, completion_tokens, total_tokens }),
            ),
            _ => None,
        },
    }
}

/// Reads the optional error of a frame.
pub open spec fn error_slot(doc: JsonView) -> Option<Option<ChatStreamErrorView>> {
    match record_field(doc, "error"@, 4) {
        None | Some(JsonView::Null) => Some(None),
        Some(d) => match (is_record(d, 1), text_slot(d, "message"@, 0)) {
            (true, Some(message)) => Some(Some(ChatStreamErrorView { message })),
            _ => None,
        },
    }
}

/// Reads a frame: a record whose fields, where they are there, have their types.
/// Fields of an object that are not listed are passed over.
pub open spec fn chunk_of(doc: JsonView) -> Option<ChatStreamChunkView> {
    match (
        is_record(doc, 5),
        text_slot(doc, "id"@, 0),
        text_slot(doc, "model"@, 1),
        choices_slot(doc),
        usage_slot(doc),
        error_slot(doc),
    ) {
        (true, Some(id), Some(model), Some(choices), Some(usage), Some(error)) => Some(
            ChatStreamChunkView { id, model, choices, usage, error },
        ),
        _ => None,
    }
}

/// Reads a text slot.
pub fn read_text_slot(doc: &Json, key: &str, at: usize) -> (r: Option<Option<String>>)
    ensures
        r.deep_view() == text_slot(doc@, key@, at as int),
{
    match doc.record_at(key, at) {
        None => Some(None),
        Some(Json::Null) => Some(None),
        Some(Json::Text(s)) => Some(Some(s.clone())),
        Some(_) => None,
    }
}

fn read_function(doc: &Json) -> (r: Option<Option<ChatDeltaToolCallFunction>>)
    ensures
        r.deep_view() == function_slot(doc@),
{
    let d = match doc.record_at("function", 3) {
        None => {
            return Some(None);
        },
        Some(d) => d,
    };
    if d.is_null() {
        return Some(None);
    }
    if !d.is_record(2) {
        return None;
    }
    match (read_text_slot(d, "name", 0), read_text_slot(d, "arguments", 1)) {
        (Some(name), Some(arguments)) => Some(Some(ChatDeltaToolCallFunction { name, arguments })),
        _ => None,
    }
}

fn read_tool_call(doc: &Json) -> (r: Option<ChatDeltaToolCall>)
    ensures
        r.deep_view() == tool_call_of(doc@),
{
    if !doc.is_record(4) {
        return None;
    }
    let index = match doc.record_at("index", 0) {
        None => {
            return None;
        },
        Some(d) => d.as_i64(),
    };
    match (
        index,
        read_text_slot(doc, "id", 1),
        read_text_slot(doc, "type", 2),
        read_function(doc),
    ) {
        (Some(index), Some(id), Some(kind), Some(function)) => Some(
            ChatDeltaToolCall { index, id, kind, function },
        ),
        _ => None,
    }
}

fn read_tool_calls(items: &Vec<Json>) -> (r: Option<Vec<ChatDeltaToolCall>>)
    ensures
        r.deep_view() == tool_calls_of(docs(items@)),
{
    let ghost all = docs(items@);
    let mut out: Vec<ChatDeltaToolCall> = Vec::new();
    let mut i: usize = 0;
    while i < items.len()
        invariant
            i <= items@.len(),
            all == docs(items@),
            out@.len() == i,
            forall|j: int|
                0 <= j < i ==> tool_call_of(#[trigger] all[j]) == Some(out.deep_view()[j]),
        decreases items@.len() - i,
    {
        assert(all[i as int] == items@[i as int]@);
        match read_tool_call(&items[i]) {
            None => {
                return None;
            },
            Some(call) => {
                let ghost so_far = out.deep_view();
                out.push(call);
                assert(out.deep_view() =~= so_far.push(call@));
            },
        }
        i += 1;
    }
    assert(out.deep_view() =~= tool_calls_of(all)->Some_0);
    Some(out)
}

fn read_tool_calls_slot(doc: &Json) -> (r: Option<Option<Vec<ChatDeltaToolCall>>>)
    ensures
        r.deep_view() == tool_calls_slot(doc@),
{
    match doc.record_at("tool_calls", 3) {
        None => Some(None),
        Some(d) => {
            if d.is_null() {
                Some(None)
            } else {
                match d.as_list() {
                    Some(items) => match read_tool_calls(items) {
                        Some(calls) => Some(Some(calls)),
                        None => None,
                    },
                    None => None,
                }
            }
        },
    }
}

fn read_delta(doc: &Json) -> (r: Option<ChatDelta>)
    ensures
        r.deep_view() == delta_of(doc@),
{
    let d = match doc.record_at("delta", 0) {
        None => {
            return Some(
                ChatDelta { role: None, content: None, reasoning_content: None, tool_calls: None },
            );
        },
        Some(d) => d,
    };
    if !d.is_record(4) {
        return None;
    }
    match (
        read_text_slot(d, "role", 0),
        read_text_slot(d, "content", 1),
        read_text_slot(d, "reasoning_content", 2),
        read_tool_calls_slot(d),
    ) {
        (Some(role), Some(content), Some(reasoning_content), Some(tool_calls)) => Some(
            ChatDelta { role, content, reasoning_content, tool_calls },
        ),
        _ => None,
    }
}

fn read_choice(doc: &Json) -> (r: Option<ChatChoice>)
    ensures
        r.deep_view() == choice_of(doc@),
{
    if !doc.is_record(2) {
        return None;
    }
    match (read_delta(doc), read_text_slot(doc, "finish_reason", 1)) {
        (Some(delta), Some(finish_reason)) => Some(ChatChoice { delta, finish_reason }),
        _ => None,
    }
}

fn read_choices(items: &Vec<Json>) -> (r: Option<Vec<ChatChoice>>)
    ensures
        r.deep_view() == choices_of(docs(items@)),
{
    let ghost all = docs(items@);
    let mut out: Vec<ChatChoice> = Vec::new();
    let mut i: usize = 0;
    while i < items.len()
        invariant
            i <= items@.len(),
            all == docs(items@),
            out@.len() == i,
            forall|j: int| 0 <= j < i ==> choice_of(#[trigger] all[j]) == Some(out.deep_view()[j]),
        decreases items@.len() - i,
    {
        assert(all[i as int] == items@[i as int]@);
        match read_choice(&items[i]) {
            None => {
                return None;
            },
            Some(choice) => {
                let ghost so_far = out.deep_view();
                out.push(choice);
                assert(out.deep_view() =~= so_far.push(choice@));
            },
        }
        i += 1;
    }
    assert(out.deep_view() =~= choices_of(all)->Some_0);
    Some(out)
}

fn read_choices_slot(doc: &Json) -> (r: Option<Vec<ChatChoice>>)
    ensures
        r.deep_view() == choices_slot(doc@),
{
    match doc.record_at("choices", 2) {
        None => {
            let none: Vec<ChatChoice> = Vec::new();
            assert(none.deep_view() =~= Seq::<ChatChoiceView>::empty());
            Some(none)
        },
        Some(d) => match d.as_list() {
            Some(items) => read_choices(items),
            None => None,
        },
    }
}

fn read_i64(doc: &Json, key: &str, at: usize) -> (r: Option<i64>)
    ensures
        r == required_i64(doc@, key@, at as int),
{
    match doc.record_at(key, at) {
        Some(d) => d.as_i64(),
        None => None,
    }
}

fn read_usage(doc: &Json) -> (r: Option<Option<ChatUsage>>)
    ensures
        r == usage_slot(doc@),
{
    let d = match doc.record_at("usage", 3) {
        None => {
            return Some(None);
        },
        Some(d) => d,
    };
    if d.is_null() {
        return Some(None);
    }
    if !d.is_record(3) {
        return None;
    }
    match (
        read_i64(d, "prompt_tokens", 0),
        read_i64(d, "completion_tokens", 1),
        read_i64(d, "total_tokens", 2),
    ) {
        (Some(prompt_tokens), Some(completion_tokens), Some(total_tokens)) => Some(
            Some(ChatUsage { prompt_tokens, completion_tokens, total_tokens }),
        ),
        _ => None,
    }
}

fn read_error(doc: &Json) -> (r: Option<Option<ChatStreamError>>)
    ensures
        r.deep_view() == error_slot(doc@),
{
    let d = match doc.record_at("error", 4) {
        None => {
            return Some(None);
        },
        Some(d) => d,
    };
    if d.is_null() {
        return Some(None);
    }
    if !d.is_record(1) {
        return None;
    }
    match read_text_slot(d, "message", 0) {
        Some(message) => Some(Some(ChatStreamError { message })),
        None => None,
    }
}

/// Reads a frame.
pub fn read_chunk(doc: &Json) -> (r: Option<ChatStreamChunk>)
    ensures
        r.deep_view() == chunk_of(doc@),
{
    if !doc.is_record(5) {
        return None;
    }
    match (
        read_text_slot(doc, "id", 0),
        read_text_slot(doc, "model", 1),
        read_choices_slot(doc),
        read_usage(doc),
        read_error(doc),
    ) {
        (Some(id), Some(model), Some(choices), Some(usage), Some(error)) => Some(
            ChatStreamChunk { id, model, choices, usage, error },
        ),
        _ => None,
    }
}

} // verus!
