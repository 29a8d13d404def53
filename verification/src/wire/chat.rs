//! Requests of the Chat Completions protocol.

use vstd::prelude::*;

use crate::json::optional_list;
use crate::json::optional_text;
use crate::json::optional_u32;
use crate::json::Json;
use crate::json::JsonView;
use crate::wire::body::bodies;
use crate::wire::body::bool_body;
use crate::wire::body::doc_of;
use crate::wire::body::lemma_bodies_push;
use crate::wire::body::no_fields;
use crate::wire::body::optional_doc;
use crate::wire::body::optional_pair;
use crate::wire::body::put;
use crate::wire::body::put_bool;
use crate::wire::body::put_optional;
use crate::wire::body::put_optional_bool;
use crate::wire::body::put_optional_doc;
use crate::wire::body::put_optional_docs;
use crate::wire::body::put_optional_text;
use crate::wire::body::put_optional_u32;
use crate::wire::body::put_text;
use crate::wire::body::text_body;
use crate::wire::body::Body;
use crate::wire::body::BodyView;

verus! {

/// One message.
///
/// The content is a text, or a list of parts where it holds images. An
/// assistant message that calls tools has `tool_calls`; a message with role
/// `tool` that answers a call has `tool_call_id`.
#[derive(Debug, Clone, PartialEq)]
pub struct ChatMessage {
    pub role: String,
    pub content: Option<Json>,
    pub name: Option<String>,
    pub tool_call_id: Option<String>,
    pub tool_calls: Option<Vec<ChatToolCall>>,
}

/// What a `ChatMessage` means.
#[verifier::ext_equal]
pub struct ChatMessageView {
    pub role: Seq<char>,
    pub content: Option<JsonView>,
    pub name: Option<Seq<char>>,
    pub tool_call_id: Option<Seq<char>>,
    pub tool_calls: Option<Seq<ChatToolCallView>>,
}

impl View for ChatMessage {
    type V = ChatMessageView;

    open spec fn view(&self) -> ChatMessageView {
        ChatMessageView {
            role: self.role.deep_view(),
            content: self.content.deep_view(),
            name: self.name.deep_view(),
            tool_call_id: self.tool_call_id.deep_view(),
            tool_calls: self.tool_calls.deep_view(),
        }
    }
}

impl DeepView for ChatMessage {
    type V = ChatMessageView;

    open spec fn deep_view(&self) -> ChatMessageView {
        self.view()
    }
}

/// One tool call of an assistant message.
#[derive(Debug, Clone, PartialEq)]
pub struct ChatToolCall {
    /// The id by which the answer names the call.
    pub id: String,
    /// Always `function`.
    pub kind: String,
    pub function: ChatToolCallFunction,
}

/// What a `ChatToolCall` means.
#[verifier::ext_equal]
pub struct ChatToolCallView {
    pub id: Seq<char>,
    pub kind: Seq<char>,
    pub function: ChatToolCallFunctionView,
}

impl View for ChatToolCall {
    type V = ChatToolCallView;

    open spec fn view(&self) -> ChatToolCallView {
        ChatToolCallView {
            id: self.id.deep_view(),
            kind: self.kind.deep_view(),
            function: self.function.deep_view(),
        }
    }
}

impl DeepView for ChatToolCall {
    type V = ChatToolCallView;

    open spec fn deep_view(&self) -> ChatToolCallView {
        self.view()
    }
}

/// The function that a tool call names.
#[derive(Debug, Clone, PartialEq)]
pub struct ChatToolCallFunction {
    pub name: String,
    /// The arguments, as JSON text.
    pub arguments: String,
}

/// What a `ChatToolCallFunction` means.
#[verifier::ext_equal]
pub struct ChatToolCallFunctionView {
    pub name: Seq<char>,
    pub arguments: Seq<char>,
}

impl View for ChatToolCallFunction {
    type V = ChatToolCallFunctionView;

    open spec fn view(&self) -> ChatToolCallFunctionView {
        ChatToolCallFunctionView {
            name: self.name.deep_view(),
            arguments: self.arguments.deep_view(),
        }
    }
}

impl DeepView for ChatToolCallFunction {
    type V = ChatToolCallFunctionView;

    open spec fn deep_view(&self) -> ChatToolCallFunctionView {
        self.view()
    }
}

/// What is asked of a streamed answer.
#[derive(Debug, Clone, PartialEq)]
pub struct ChatStreamOptions {
    pub include_usage: bool,
}

/// What a `ChatStreamOptions` means.
#[verifier::ext_equal]
pub struct ChatStreamOptionsView {
    pub include_usage: bool,
}

impl View for ChatStreamOptions {
    type V = ChatStreamOptionsView;

    open spec fn view(&self) -> ChatStreamOptionsView {
        ChatStreamOptionsView {
            include_usage: self.include_usage.deep_view(),
        }
    }
}

impl DeepView for ChatStreamOptions {
    type V = ChatStreamOptionsView;

    open spec fn deep_view(&self) -> ChatStreamOptionsView {
        self.view()
    }
}

/// A request.
#[derive(Debug, Clone, PartialEq)]
pub struct ChatApiRequest {
    pub model: String,
    pub messages: Vec<ChatMessage>,
    pub tools: Option<Vec<Json>>,
    pub tool_choice: Option<Json>,
    pub parallel_tool_calls: bool,
    pub reasoning_effort: Option<String>,
    pub service_tier: Option<String>,
    pub response_format: Option<Json>,
    /// The most tokens that one answer may take; left to the server when absent.
    pub max_tokens: Option<u32>,
    pub stream_options: Option<ChatStreamOptions>,
    pub stream: bool,
}

/// What a `ChatApiRequest` means.
#[verifier::ext_equal]
pub struct ChatApiRequestView {
    pub model: Seq<char>,
    pub messages: Seq<ChatMessageView>,
    pub tools: Option<Seq<JsonView>>,
    pub tool_choice: Option<JsonView>,
    pub parallel_tool_calls: bool,
    pub reasoning_effort: Option<Seq<char>>,
    pub service_tier: Option<Seq<char>>,
    pub response_format: Option<JsonView>,
    pub max_tokens: Option<u32>,
    pub stream_options: Option<ChatStreamOptionsView>,
    pub stream: bool,
}

impl View for ChatApiRequest {
    type V = ChatApiRequestView;

    open spec fn view(&self) -> ChatApiRequestView {
        ChatApiRequestView {
            model: self.model.deep_view(),
            messages: self.messages.deep_view(),
            tools: self.tools.deep_view(),
            tool_choice: self.tool_choice.deep_view(),
            parallel_tool_calls: self.parallel_tool_calls.deep_view(),
            reasoning_effort: self.reasoning_effort.deep_view(),
            service_tier: self.service_tier.deep_view(),
            response_format: self.response_format.deep_view(),
            max_tokens: self.max_tokens.deep_view(),
            stream_options: self.stream_options.deep_view(),
            stream: self.stream.deep_view(),
        }
    }
}

impl DeepView for ChatApiRequest {
    type V = ChatApiRequestView;

    open spec fn deep_view(&self) -> ChatApiRequestView {
        self.view()
    }
}

/// Whether a field is left out because it is false.
pub fn is_false(value: &bool) -> (r: bool)
    ensures
        r == !*value,
{
    !*value
}

/// The body of a `ChatToolCallFunction`.
pub open spec fn chat_tool_call_function_body(v: ChatToolCallFunctionView) -> BodyView {
    BodyView::Fields(
        Seq::<(Seq<char>, BodyView)>::empty()
            + seq![("name"@, text_body(v.name))]
            + seq![("arguments"@, text_body(v.arguments))],
    )
}

impl ChatToolCallFunction {
    /// The body that is sent.
    pub fn to_body(&self) -> (r: Body)
        ensures
            r@ == chat_tool_call_function_body(self@),
    {
        let mut fields = no_fields();
        put_text(&mut fields, "name", self.name.as_str());
        put_text(&mut fields, "arguments", self.arguments.as_str());
        Body::Fields(fields)
    }
}

/// The body of a `ChatToolCall`.
pub open spec fn chat_tool_call_body(v: ChatToolCallView) -> BodyView {
    BodyView::Fields(
        Seq::<(Seq<char>, BodyView)>::empty()
            + seq![("id"@, text_body(v.id))]
            + seq![("type"@, text_body(v.kind))]
            + seq![("function"@, chat_tool_call_function_body(v.function))],
    )
}

impl ChatToolCall {
    /// The body that is sent.
    pub fn to_body(&self) -> (r: Body)
        ensures
            r@ == chat_tool_call_body(self@),
    {
        let mut fields = no_fields();
        put_text(&mut fields, "id", self.id.as_str());
        put_text(&mut fields, "type", self.kind.as_str());
        put(&mut fields, "function", self.function.to_body());
        Body::Fields(fields)
    }
}

/// The bodies of a list of `ChatToolCall`.
pub open spec fn chat_tool_call_bodies(list: Seq<ChatToolCallView>) -> Seq<BodyView> {
    Seq::new(list.len(), |i: int| chat_tool_call_body(list[i]))
}

fn chat_tool_call_list(list: &Vec<ChatToolCall>) -> (r: Vec<Body>)
    ensures
        bodies(r@) == chat_tool_call_bodies(list.deep_view()),
{
    let mut out: Vec<Body> = Vec::new();
    let mut i: usize = 0;
    while i < list.len()
        invariant
            i <= list@.len(),
            bodies(out@) == chat_tool_call_bodies(list.deep_view()).take(i as int),
        decreases list@.len() - i,
    {
        let item = list[i].to_body();
        proof {
            lemma_bodies_push(out@, item);
            assert(chat_tool_call_bodies(list.deep_view()).take(i + 1) =~= chat_tool_call_bodies(list.deep_view()).take(
                i as int,
            ).push(chat_tool_call_body(list@[i as int]@)));
        }
        out.push(item);
        i += 1;
    }
    assert(chat_tool_call_bodies(list.deep_view()).take(i as int) =~= chat_tool_call_bodies(list.deep_view()));
    out
}

/// The body of a `ChatMessage`.
pub open spec fn chat_message_body(v: ChatMessageView) -> BodyView {
    BodyView::Fields(
        Seq::<(Seq<char>, BodyView)>::empty()
            + seq![("role"@, text_body(v.role))]
            + optional_pair("content"@, optional_doc(v.content))
            + optional_pair("name"@, optional_doc(optional_text(v.name)))
            + optional_pair("tool_call_id"@, optional_doc(optional_text(v.tool_call_id)))
            + optional_pair("tool_calls"@, match v.tool_calls { Some(v) => Some(BodyView::List(chat_tool_call_bodies(v))), None => None }),
    )
}

impl ChatMessage {
    /// The body that is sent.
    pub fn to_body(&self) -> (r: Body)
        ensures
            r@ == chat_message_body(self@),
    {
        let mut fields = no_fields();
        put_text(&mut fields, "role", self.role.as_str());
        put_optional_doc(&mut fields, "content", &self.content);
        put_optional_text(&mut fields, "name", &self.name);
        put_optional_text(&mut fields, "tool_call_id", &self.tool_call_id);
        put_optional(&mut fields, "tool_calls", match &self.tool_calls { Some(v) => Some(Body::List(chat_tool_call_list(v))), None => None });
        Body::Fields(fields)
    }
}

/// The bodies of a list of `ChatMessage`.
pub open spec fn chat_message_bodies(list: Seq<ChatMessageView>) -> Seq<BodyView> {
    Seq::new(list.len(), |i: int| chat_message_body(list[i]))
}

fn chat_message_list(list: &Vec<ChatMessage>) -> (r: Vec<Body>)
    ensures
        bodies(r@) == chat_message_bodies(list.deep_view()),
{
    let mut out: Vec<Body> = Vec::new();
    let mut i: usize = 0;
    while i < list.len()
        invariant
            i <= list@.len(),
            bodies(out@) == chat_message_bodies(list.deep_view()).take(i as int),
        decreases list@.len() - i,
    {
        let item = list[i].to_body();
        proof {
            lemma_bodies_push(out@, item);
            assert(chat_message_bodies(list.deep_view()).take(i + 1) =~= chat_message_bodies(list.deep_view()).take(
                i as int,
            ).push(chat_message_body(list@[i as int]@)));
        }
        out.push(item);
        i += 1;
    }
    assert(chat_message_bodies(list.deep_view()).take(i as int) =~= chat_message_bodies(list.deep_view()));
    out
}

/// The body of a `ChatStreamOptions`.
pub open spec fn chat_stream_options_body(v: ChatStreamOptionsView) -> BodyView {
    BodyView::Fields(
        Seq::<(Seq<char>, BodyView)>::empty()
            + seq![("include_usage"@, bool_body(v.include_usage))],
    )
}

impl ChatStreamOptions {
    /// The body that is sent.
    pub fn to_body(&self) -> (r: Body)
        ensures
            r@ == chat_stream_options_body(self@),
    {
        let mut fields = no_fields();
        put_bool(&mut fields, "include_usage", self.include_usage);
        Body::Fields(fields)
    }
}

/// The body of a `ChatApiRequest`.
pub open spec fn chat_api_request_body(v: ChatApiRequestView) -> BodyView {
    BodyView::Fields(
        Seq::<(Seq<char>, BodyView)>::empty()
            + seq![("model"@, text_body(v.model))]
            + seq![("messages"@, BodyView::List(chat_message_bodies(v.messages)))]
            + optional_pair("tools"@, optional_doc(optional_list(v.tools)))
            + optional_pair("tool_choice"@, optional_doc(v.tool_choice))
            + optional_pair("parallel_tool_calls"@, if v.parallel_tool_calls { Some(bool_body(true)) } else { None })
            + optional_pair("reasoning_effort"@, optional_doc(optional_text(v.reasoning_effort)))
            + optional_pair("service_tier"@, optional_doc(optional_text(v.service_tier)))
            + optional_pair("response_format"@, optional_doc(v.response_format))
            + optional_pair("max_tokens"@, optional_doc(optional_u32(v.max_tokens)))
            + optional_pair("stream_options"@, match v.stream_options { Some(v) => Some(chat_stream_options_body(v)), None => None })
            + seq![("stream"@, bool_body(v.stream))],
    )
}

impl ChatApiRequest {
    /// The body that is sent.
    pub fn to_body(&self) -> (r: Body)
        ensures
            r@ == chat_api_request_body(self@),
    {
        let mut fields = no_fields();
        put_text(&mut fields, "model", self.model.as_str());
        put(&mut fields, "messages", Body::List(chat_message_list(&self.messages)));
        put_optional_docs(&mut fields, "tools", &self.tools);
        put_optional_doc(&mut fields, "tool_choice", &self.tool_choice);
        put_optional_bool(
            &mut fields,
            "parallel_tool_calls",
            if is_false(&self.parallel_tool_calls) {
                None
            } else {
                Some(true)
            },
        );
        put_optional_text(&mut fields, "reasoning_effort", &self.reasoning_effort);
        put_optional_text(&mut fields, "service_tier", &self.service_tier);
        put_optional_doc(&mut fields, "response_format", &self.response_format);
        put_optional_u32(&mut fields, "max_tokens", self.max_tokens);
        put_optional(&mut fields, "stream_options", match &self.stream_options { Some(v) => Some(v.to_body()), None => None });
        put_bool(&mut fields, "stream", self.stream);
        Body::Fields(fields)
    }

    /// The document of the body.
    pub fn to_json(&self) -> (r: Json)
        ensures
            r@ == doc_of(chat_api_request_body(self@)),
    {
        self.to_body().to_json()
    }
}

} // verus!
