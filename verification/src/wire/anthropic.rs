//! Requests of the Anthropic Messages protocol.

use vstd::prelude::*;
use vstd::string::*;

use crate::json::optional_bool;
use crate::json::optional_text;
use crate::json::Json;
use crate::json::JsonView;
use crate::wire::body::bodies;
use crate::wire::body::bool_body;
use crate::wire::body::doc_of;
use crate::wire::body::lemma_bodies_push;
use crate::wire::body::no_fields;
use crate::wire::body::number_body;
use crate::wire::body::optional_doc;
use crate::wire::body::optional_pair;
use crate::wire::body::put;
use crate::wire::body::put_bool;
use crate::wire::body::put_json;
use crate::wire::body::put_number;
use crate::wire::body::put_optional;
use crate::wire::body::put_optional_bool;
use crate::wire::body::put_optional_text;
use crate::wire::body::put_text;
use crate::wire::body::text_body;
use crate::wire::body::Body;
use crate::wire::body::BodyView;

verus! {

/// The tool through which the protocol is made to give structured output: the
/// request adds it with the schema and forces its use, and the answer's input
/// for it is the output. Its name contains no namespace delimiter.
pub const ANTHROPIC_STRUCTURED_OUTPUT_TOOL: &'static str = "respond_structured";

/// A breakpoint up to which the server caches the request.
#[derive(Debug, Clone, PartialEq)]
pub struct AnthropicCacheControl {
    pub type_: String,
}

/// What a `AnthropicCacheControl` means.
#[verifier::ext_equal]
pub struct AnthropicCacheControlView {
    pub type_: Seq<char>,
}

impl View for AnthropicCacheControl {
    type V = AnthropicCacheControlView;

    open spec fn view(&self) -> AnthropicCacheControlView {
        AnthropicCacheControlView {
            type_: self.type_.deep_view(),
        }
    }
}

impl DeepView for AnthropicCacheControl {
    type V = AnthropicCacheControlView;

    open spec fn deep_view(&self) -> AnthropicCacheControlView {
        self.view()
    }
}

/// One block of the system prompt.
#[derive(Debug, Clone, PartialEq)]
pub struct AnthropicSystemTextBlock {
    pub type_: String,
    pub text: String,
    pub cache_control: Option<AnthropicCacheControl>,
}

/// What a `AnthropicSystemTextBlock` means.
#[verifier::ext_equal]
pub struct AnthropicSystemTextBlockView {
    pub type_: Seq<char>,
    pub text: Seq<char>,
    pub cache_control: Option<AnthropicCacheControlView>,
}

impl View for AnthropicSystemTextBlock {
    type V = AnthropicSystemTextBlockView;

    open spec fn view(&self) -> AnthropicSystemTextBlockView {
        AnthropicSystemTextBlockView {
            type_: self.type_.deep_view(),
            text: self.text.deep_view(),
            cache_control: self.cache_control.deep_view(),
        }
    }
}

impl DeepView for AnthropicSystemTextBlock {
    type V = AnthropicSystemTextBlockView;

    open spec fn deep_view(&self) -> AnthropicSystemTextBlockView {
        self.view()
    }
}

/// Where an image comes from.
#[derive(Debug, Clone, PartialEq)]
pub enum AnthropicImageSource {
    Base64 { media_type: String, data: String },
    Url { url: String },
}

/// What a `AnthropicImageSource` means.
#[verifier::ext_equal]
pub enum AnthropicImageSourceView {
    Base64 { media_type: Seq<char>, data: Seq<char> },
    Url { url: Seq<char> },
}

impl View for AnthropicImageSource {
    type V = AnthropicImageSourceView;

    open spec fn view(&self) -> AnthropicImageSourceView {
        match self {
            AnthropicImageSource::Base64 { media_type, data } => AnthropicImageSourceView::Base64 {
                media_type: media_type.deep_view(),
                data: data.deep_view(),
            },
            AnthropicImageSource::Url { url } => AnthropicImageSourceView::Url {
                url: url.deep_view(),
            },
        }
    }
}

impl DeepView for AnthropicImageSource {
    type V = AnthropicImageSourceView;

    open spec fn deep_view(&self) -> AnthropicImageSourceView {
        self.view()
    }
}

/// One block of a message.
#[derive(Debug, Clone, PartialEq)]
pub enum AnthropicContentBlock {
    Text { text: String },
    /// Thinking that is handed back, with the signature that proves it.
    Thinking { thinking: String, signature: Option<String> },
    Image { source: AnthropicImageSource },
    /// A tool call of the assistant; its input is an object.
    ToolUse { id: String, name: String, input: Json },
    /// A tool's answer; `is_error` says that the tool failed.
    ToolResult { tool_use_id: String, content: String, is_error: Option<bool> },
}

/// What a `AnthropicContentBlock` means.
#[verifier::ext_equal]
pub enum AnthropicContentBlockView {
    Text { text: Seq<char> },
    Thinking { thinking: Seq<char>, signature: Option<Seq<char>> },
    Image { source: AnthropicImageSourceView },
    ToolUse { id: Seq<char>, name: Seq<char>, input: JsonView },
    ToolResult { tool_use_id: Seq<char>, content: Seq<char>, is_error: Option<bool> },
}

impl View for AnthropicContentBlock {
    type V = AnthropicContentBlockView;

    open spec fn view(&self) -> AnthropicContentBlockView {
        match self {
            AnthropicContentBlock::Text { text } => AnthropicContentBlockView::Text {
                text: text.deep_view(),
            },
            AnthropicContentBlock::Thinking { thinking, signature } => AnthropicContentBlockView::Thinking {
                thinking: thinking.deep_view(),
                signature: signature.deep_view(),
            },
            AnthropicContentBlock::Image { source } => AnthropicContentBlockView::Image {
                source: source.deep_view(),
            },
            AnthropicContentBlock::ToolUse { id, name, input } => AnthropicContentBlockView::ToolUse {
                id: id.deep_view(),
                name: name.deep_view(),
                input: input.deep_view(),
            },
            AnthropicContentBlock::ToolResult { tool_use_id, content, is_error } => AnthropicContentBlockView::ToolResult {
                tool_use_id: tool_use_id.deep_view(),
                content: content.deep_view(),
                is_error: is_error.deep_view(),
            },
        }
    }
}

impl DeepView for AnthropicContentBlock {
    type V = AnthropicContentBlockView;

    open spec fn deep_view(&self) -> AnthropicContentBlockView {
        self.view()
    }
}

/// One message; its role is `user` or `assistant`.
#[derive(Debug, Clone, PartialEq)]
pub struct AnthropicMessage {
    pub role: String,
    pub content: Vec<AnthropicContentBlock>,
}

/// What a `AnthropicMessage` means.
#[verifier::ext_equal]
pub struct AnthropicMessageView {
    pub role: Seq<char>,
    pub content: Seq<AnthropicContentBlockView>,
}

impl View for AnthropicMessage {
    type V = AnthropicMessageView;

    open spec fn view(&self) -> AnthropicMessageView {
        AnthropicMessageView {
            role: self.role.deep_view(),
            content: self.content.deep_view(),
        }
    }
}

impl DeepView for AnthropicMessage {
    type V = AnthropicMessageView;

    open spec fn deep_view(&self) -> AnthropicMessageView {
        self.view()
    }
}

/// One tool.
#[derive(Debug, Clone, PartialEq)]
pub struct AnthropicTool {
    pub name: String,
    pub description: Option<String>,
    pub input_schema: Json,
    pub cache_control: Option<AnthropicCacheControl>,
}

/// What a `AnthropicTool` means.
#[verifier::ext_equal]
pub struct AnthropicToolView {
    pub name: Seq<char>,
    pub description: Option<Seq<char>>,
    pub input_schema: JsonView,
    pub cache_control: Option<AnthropicCacheControlView>,
}

impl View for AnthropicTool {
    type V = AnthropicToolView;

    open spec fn view(&self) -> AnthropicToolView {
        AnthropicToolView {
            name: self.name.deep_view(),
            description: self.description.deep_view(),
            input_schema: self.input_schema.deep_view(),
            cache_control: self.cache_control.deep_view(),
        }
    }
}

impl DeepView for AnthropicTool {
    type V = AnthropicToolView;

    open spec fn deep_view(&self) -> AnthropicToolView {
        self.view()
    }
}

/// Whether and which tools are to be used: `auto`, `any`, `tool` with a name, or
/// `none`.
#[derive(Debug, Clone, PartialEq)]
pub struct AnthropicToolChoice {
    pub type_: String,
    pub name: Option<String>,
    pub disable_parallel_tool_use: Option<bool>,
}

/// What a `AnthropicToolChoice` means.
#[verifier::ext_equal]
pub struct AnthropicToolChoiceView {
    pub type_: Seq<char>,
    pub name: Option<Seq<char>>,
    pub disable_parallel_tool_use: Option<bool>,
}

impl View for AnthropicToolChoice {
    type V = AnthropicToolChoiceView;

    open spec fn view(&self) -> AnthropicToolChoiceView {
        AnthropicToolChoiceView {
            type_: self.type_.deep_view(),
            name: self.name.deep_view(),
            disable_parallel_tool_use: self.disable_parallel_tool_use.deep_view(),
        }
    }
}

impl DeepView for AnthropicToolChoice {
    type V = AnthropicToolChoiceView;

    open spec fn deep_view(&self) -> AnthropicToolChoiceView {
        self.view()
    }
}

/// Extended thinking, with its budget of tokens.
#[derive(Debug, Clone, PartialEq)]
pub struct AnthropicThinking {
    pub type_: String,
    pub budget_tokens: u32,
}

/// What a `AnthropicThinking` means.
#[verifier::ext_equal]
pub struct AnthropicThinkingView {
    pub type_: Seq<char>,
    pub budget_tokens: u32,
}

impl View for AnthropicThinking {
    type V = AnthropicThinkingView;

    open spec fn view(&self) -> AnthropicThinkingView {
        AnthropicThinkingView {
            type_: self.type_.deep_view(),
            budget_tokens: self.budget_tokens.deep_view(),
        }
    }
}

impl DeepView for AnthropicThinking {
    type V = AnthropicThinkingView;

    open spec fn deep_view(&self) -> AnthropicThinkingView {
        self.view()
    }
}

/// A request.
#[derive(Debug, Clone, PartialEq)]
pub struct AnthropicApiRequest {
    pub model: String,
    pub max_tokens: u32,
    pub messages: Vec<AnthropicMessage>,
    pub system: Option<Vec<AnthropicSystemTextBlock>>,
    pub tools: Option<Vec<AnthropicTool>>,
    pub tool_choice: Option<AnthropicToolChoice>,
    pub thinking: Option<AnthropicThinking>,
    pub stream: bool,
}

/// What a `AnthropicApiRequest` means.
#[verifier::ext_equal]
pub struct AnthropicApiRequestView {
    pub model: Seq<char>,
    pub max_tokens: u32,
    pub messages: Seq<AnthropicMessageView>,
    pub system: Option<Seq<AnthropicSystemTextBlockView>>,
    pub tools: Option<Seq<AnthropicToolView>>,
    pub tool_choice: Option<AnthropicToolChoiceView>,
    pub thinking: Option<AnthropicThinkingView>,
    pub stream: bool,
}

impl View for AnthropicApiRequest {
    type V = AnthropicApiRequestView;

    open spec fn view(&self) -> AnthropicApiRequestView {
        AnthropicApiRequestView {
            model: self.model.deep_view(),
            max_tokens: self.max_tokens.deep_view(),
            messages: self.messages.deep_view(),
            system: self.system.deep_view(),
            tools: self.tools.deep_view(),
            tool_choice: self.tool_choice.deep_view(),
            thinking: self.thinking.deep_view(),
            stream: self.stream.deep_view(),
        }
    }
}

impl DeepView for AnthropicApiRequest {
    type V = AnthropicApiRequestView;

    open spec fn deep_view(&self) -> AnthropicApiRequestView {
        self.view()
    }
}

/// The body of a `AnthropicCacheControl`.
pub open spec fn anthropic_cache_control_body(v: AnthropicCacheControlView) -> BodyView {
    BodyView::Fields(
        Seq::<(Seq<char>, BodyView)>::empty()
            + seq![("type"@, text_body(v.type_))],
    )
}

impl AnthropicCacheControl {
    /// The body that is sent.
    pub fn to_body(&self) -> (r: Body)
        ensures
            r@ == anthropic_cache_control_body(self@),
    {
        let mut fields = no_fields();
        put_text(&mut fields, "type", self.type_.as_str());
        Body::Fields(fields)
    }
}

/// The body of a `AnthropicSystemTextBlock`.
pub open spec fn anthropic_system_text_block_body(v: AnthropicSystemTextBlockView) -> BodyView {
    BodyView::Fields(
        Seq::<(Seq<char>, BodyView)>::empty()
            + seq![("type"@, text_body(v.type_))]
            + seq![("text"@, text_body(v.text))]
            + optional_pair("cache_control"@, match v.cache_control { Some(v) => Some(anthropic_cache_control_body(v)), None => None }),
    )
}

impl AnthropicSystemTextBlock {
    /// The body that is sent.
    pub fn to_body(&self) -> (r: Body)
        ensures
            r@ == anthropic_system_text_block_body(self@),
    {
        let mut fields = no_fields();
        put_text(&mut fields, "type", self.type_.as_str());
        put_text(&mut fields, "text", self.text.as_str());
        put_optional(&mut fields, "cache_control", match &self.cache_control { Some(v) => Some(v.to_body()), None => None });
        Body::Fields(fields)
    }
}

/// The bodies of a list of `AnthropicSystemTextBlock`.
pub open spec fn anthropic_system_text_block_bodies(list: Seq<AnthropicSystemTextBlockView>) -> Seq<BodyView> {
    Seq::new(list.len(), |i: int| anthropic_system_text_block_body(list[i]))
}

fn anthropic_system_text_block_list(list: &Vec<AnthropicSystemTextBlock>) -> (r: Vec<Body>)
    ensures
        bodies(r@) == anthropic_system_text_block_bodies(list.deep_view()),
{
    let mut out: Vec<Body> = Vec::new();
    let mut i: usize = 0;
    while i < list.len()
        invariant
            i <= list@.len(),
            bodies(out@) == anthropic_system_text_block_bodies(list.deep_view()).take(i as int),
        decreases list@.len() - i,
    {
        let item = list[i].to_body();
        proof {
            lemma_bodies_push(out@, item);
            assert(anthropic_system_text_block_bodies(list.deep_view()).take(i + 1) =~= anthropic_system_text_block_bodies(list.deep_view()).take(
                i as int,
            ).push(anthropic_system_text_block_body(list@[i as int]@)));
        }
        out.push(item);
        i += 1;
    }
    assert(anthropic_system_text_block_bodies(list.deep_view()).take(i as int) =~= anthropic_system_text_block_bodies(list.deep_view()));
    out
}

/// The body of a `AnthropicImageSource`.
pub open spec fn anthropic_image_source_body(v: AnthropicImageSourceView) -> BodyView {
    match v {
        AnthropicImageSourceView::Base64 { media_type, data } => BodyView::Fields(
            Seq::<(Seq<char>, BodyView)>::empty()
                + seq![("type"@, text_body("base64"@))]
                + seq![("media_type"@, text_body(media_type))]
                + seq![("data"@, text_body(data))],
        ),
        AnthropicImageSourceView::Url { url } => BodyView::Fields(
            Seq::<(Seq<char>, BodyView)>::empty()
                + seq![("type"@, text_body("url"@))]
                + seq![("url"@, text_body(url))],
        ),
    }
}

impl AnthropicImageSource {
    /// The body that is sent.
    pub fn to_body(&self) -> (r: Body)
        ensures
            r@ == anthropic_image_source_body(self@),
    {
        let mut fields = no_fields();
        match self {
            AnthropicImageSource::Base64 { media_type, data } => {
                put_text(&mut fields, "type", "base64");
                put_text(&mut fields, "media_type", media_type.as_str());
                put_text(&mut fields, "data", data.as_str());
            },
            AnthropicImageSource::Url { url } => {
                put_text(&mut fields, "type", "url");
                put_text(&mut fields, "url", url.as_str());
            },
        }
        Body::Fields(fields)
    }
}

/// The body of a `AnthropicContentBlock`.
pub open spec fn anthropic_content_block_body(v: AnthropicContentBlockView) -> BodyView {
    match v {
        AnthropicContentBlockView::Text { text } => BodyView::Fields(
            Seq::<(Seq<char>, BodyView)>::empty()
                + seq![("type"@, text_body("text"@))]
                + seq![("text"@, text_body(text))],
        ),
        AnthropicContentBlockView::Thinking { thinking, signature } => BodyView::Fields(
            Seq::<(Seq<char>, BodyView)>::empty()
                + seq![("type"@, text_body("thinking"@))]
                + seq![("thinking"@, text_body(thinking))]
                + optional_pair("signature"@, optional_doc(optional_text(signature))),
        ),
        AnthropicContentBlockView::Image { source } => BodyView::Fields(
            Seq::<(Seq<char>, BodyView)>::empty()
                + seq![("type"@, text_body("image"@))]
                + seq![("source"@, anthropic_image_source_body(source))],
        ),
        AnthropicContentBlockView::ToolUse { id, name, input } => BodyView::Fields(
            Seq::<(Seq<char>, BodyView)>::empty()
                + seq![("type"@, text_body("tool_use"@))]
                + seq![("id"@, text_body(id))]
                + seq![("name"@, text_body(name))]
                + seq![("input"@, BodyView::Doc(input))],
        ),
        AnthropicContentBlockView::ToolResult { tool_use_id, content, is_error } => BodyView::Fields(
            Seq::<(Seq<char>, BodyView)>::empty()
                + seq![("type"@, text_body("tool_result"@))]
                + seq![("tool_use_id"@, text_body(tool_use_id))]
                + seq![("content"@, text_body(content))]
                + optional_pair("is_error"@, optional_doc(optional_bool(is_error))),
        ),
    }
}

impl AnthropicContentBlock {
    /// The body that is sent.
    pub fn to_body(&self) -> (r: Body)
        ensures
            r@ == anthropic_content_block_body(self@),
    {
        let mut fields = no_fields();
        match self {
            AnthropicContentBlock::Text { text } => {
                put_text(&mut fields, "type", "text");
                put_text(&mut fields, "text", text.as_str());
            },
            AnthropicContentBlock::Thinking { thinking, signature } => {
                put_text(&mut fields, "type", "thinking");
                put_text(&mut fields, "thinking", thinking.as_str());
                put_optional_text(&mut fields, "signature", signature);
            },
            AnthropicContentBlock::Image { source } => {
                put_text(&mut fields, "type", "image");
                put(&mut fields, "source", source.to_body());
            },
            AnthropicContentBlock::ToolUse { id, name, input } => {
                put_text(&mut fields, "type", "tool_use");
                put_text(&mut fields, "id", id.as_str());
                put_text(&mut fields, "name", name.as_str());
                put_json(&mut fields, "input", input);
            },
            AnthropicContentBlock::ToolResult { tool_use_id, content, is_error } => {
                put_text(&mut fields, "type", "tool_result");
                put_text(&mut fields, "tool_use_id", tool_use_id.as_str());
                put_text(&mut fields, "content", content.as_str());
                put_optional_bool(&mut fields, "is_error", *is_error);
            },
        }
        Body::Fields(fields)
    }
}

/// The bodies of a list of `AnthropicContentBlock`.
pub open spec fn anthropic_content_block_bodies(list: Seq<AnthropicContentBlockView>) -> Seq<BodyView> {
    Seq::new(list.len(), |i: int| anthropic_content_block_body(list[i]))
}

fn anthropic_content_block_list(list: &Vec<AnthropicContentBlock>) -> (r: Vec<Body>)
    ensures
        bodies(r@) == anthropic_content_block_bodies(list.deep_view()),
{
    let mut out: Vec<Body> = Vec::new();
    let mut i: usize = 0;
    while i < list.len()
        invariant
            i <= list@.len(),
            bodies(out@) == anthropic_content_block_bodies(list.deep_view()).take(i as int),
        decreases list@.len() - i,
    {
        let item = list[i].to_body();
        proof {
            lemma_bodies_push(out@, item);
            assert(anthropic_content_block_bodies(list.deep_view()).take(i + 1) =~= anthropic_content_block_bodies(list.deep_view()).take(
                i as int,
            ).push(anthropic_content_block_body(list@[i as int]@)));
        }
        out.push(item);
        i += 1;
    }
    assert(anthropic_content_block_bodies(list.deep_view()).take(i as int) =~= anthropic_content_block_bodies(list.deep_view()));
    out
}

/// The body of a `AnthropicMessage`.
pub open spec fn anthropic_message_body(v: AnthropicMessageView) -> BodyView {
    BodyView::Fields(
        Seq::<(Seq<char>, BodyView)>::empty()
            + seq![("role"@, text_body(v.role))]
            + seq![("content"@, BodyView::List(anthropic_content_block_bodies(v.content)))],
    )
}

impl AnthropicMessage {
    /// The body that is sent.
    pub fn to_body(&self) -> (r: Body)
        ensures
            r@ == anthropic_message_body(self@),
    {
        let mut fields = no_fields();
        put_text(&mut fields, "role", self.role.as_str());
        put(&mut fields, "content", Body::List(anthropic_content_block_list(&self.content)));
        Body::Fields(fields)
    }
}

/// The bodies of a list of `AnthropicMessage`.
pub open spec fn anthropic_message_bodies(list: Seq<AnthropicMessageView>) -> Seq<BodyView> {
    Seq::new(list.len(), |i: int| anthropic_message_body(list[i]))
}

fn anthropic_message_list(list: &Vec<AnthropicMessage>) -> (r: Vec<Body>)
    ensures
        bodies(r@) == anthropic_message_bodies(list.deep_view()),
{
    let mut out: Vec<Body> = Vec::new();
    let mut i: usize = 0;
    while i < list.len()
        invariant
            i <= list@.len(),
            bodies(out@) == anthropic_message_bodies(list.deep_view()).take(i as int),
        decreases list@.len() - i,
    {
        let item = list[i].to_body();
        proof {
            lemma_bodies_push(out@, item);
            assert(anthropic_message_bodies(list.deep_view()).take(i + 1) =~= anthropic_message_bodies(list.deep_view()).take(
                i as int,
            ).push(anthropic_message_body(list@[i as int]@)));
        }
        out.push(item);
        i += 1;
    }
    assert(anthropic_message_bodies(list.deep_view()).take(i as int) =~= anthropic_message_bodies(list.deep_view()));
    out
}

/// The body of a `AnthropicTool`.
pub open spec fn anthropic_tool_body(v: AnthropicToolView) -> BodyView {
    BodyView::Fields(
        Seq::<(Seq<char>, BodyView)>::empty()
            + seq![("name"@, text_body(v.name))]
            + optional_pair("description"@, optional_doc(optional_text(v.description)))
            + seq![("input_schema"@, BodyView::Doc(v.input_schema))]
            + optional_pair("cache_control"@, match v.cache_control { Some(v) => Some(anthropic_cache_control_body(v)), None => None }),
    )
}

impl AnthropicTool {
    /// The body that is sent.
    pub fn to_body(&self) -> (r: Body)
        ensures
            r@ == anthropic_tool_body(self@),
    {
        let mut fields = no_fields();
        put_text(&mut fields, "name", self.name.as_str());
        put_optional_text(&mut fields, "description", &self.description);
        put_json(&mut fields, "input_schema", &self.input_schema);
        put_optional(&mut fields, "cache_control", match &self.cache_control { Some(v) => Some(v.to_body()), None => None });
        Body::Fields(fields)
    }
}

/// The bodies of a list of `AnthropicTool`.
pub open spec fn anthropic_tool_bodies(list: Seq<AnthropicToolView>) -> Seq<BodyView> {
    Seq::new(list.len(), |i: int| anthropic_tool_body(list[i]))
}

fn anthropic_tool_list(list: &Vec<AnthropicTool>) -> (r: Vec<Body>)
    ensures
        bodies(r@) == anthropic_tool_bodies(list.deep_view()),
{
    let mut out: Vec<Body> = Vec::new();
    let mut i: usize = 0;
    while i < list.len()
        invariant
            i <= list@.len(),
            bodies(out@) == anthropic_tool_bodies(list.deep_view()).take(i as int),
        decreases list@.len() - i,
    {
        let item = list[i].to_body();
        proof {
            lemma_bodies_push(out@, item);
            assert(anthropic_tool_bodies(list.deep_view()).take(i + 1) =~= anthropic_tool_bodies(list.deep_view()).take(
                i as int,
            ).push(anthropic_tool_body(list@[i as int]@)));
        }
        out.push(item);
        i += 1;
    }
    assert(anthropic_tool_bodies(list.deep_view()).take(i as int) =~= anthropic_tool_bodies(list.deep_view()));
    out
}

/// The body of a `AnthropicToolChoice`.
pub open spec fn anthropic_tool_choice_body(v: AnthropicToolChoiceView) -> BodyView {
    BodyView::Fields(
        Seq::<(Seq<char>, BodyView)>::empty()
            + seq![("type"@, text_body(v.type_))]
            + optional_pair("name"@, optional_doc(optional_text(v.name)))
            + optional_pair("disable_parallel_tool_use"@, optional_doc(optional_bool(v.disable_parallel_tool_use))),
    )
}

impl AnthropicToolChoice {
    /// The body that is sent.
    pub fn to_body(&self) -> (r: Body)
        ensures
            r@ == anthropic_tool_choice_body(self@),
    {
        let mut fields = no_fields();
        put_text(&mut fields, "type", self.type_.as_str());
        put_optional_text(&mut fields, "name", &self.name);
        put_optional_bool(&mut fields, "disable_parallel_tool_use", self.disable_parallel_tool_use);
        Body::Fields(fields)
    }
}

/// The body of a `AnthropicThinking`.
pub open spec fn anthropic_thinking_body(v: AnthropicThinkingView) -> BodyView {
    BodyView::Fields(
        Seq::<(Seq<char>, BodyView)>::empty()
            + seq![("type"@, text_body(v.type_))]
            + seq![("budget_tokens"@, number_body(v.budget_tokens as u64))],
    )
}

impl AnthropicThinking {
    /// The body that is sent.
    pub fn to_body(&self) -> (r: Body)
        ensures
            r@ == anthropic_thinking_body(self@),
    {
        let mut fields = no_fields();
        put_text(&mut fields, "type", self.type_.as_str());
        put_number(&mut fields, "budget_tokens", self.budget_tokens as u64);
        Body::Fields(fields)
    }
}

/// The body of a `AnthropicApiRequest`.
pub open spec fn anthropic_api_request_body(v: AnthropicApiRequestView) -> BodyView {
    BodyView::Fields(
        Seq::<(Seq<char>, BodyView)>::empty()
            + seq![("model"@, text_body(v.model))]
            + seq![("max_tokens"@, number_body(v.max_tokens as u64))]
            + seq![("messages"@, BodyView::List(anthropic_message_bodies(v.messages)))]
            + optional_pair("system"@, match v.system { Some(v) => Some(BodyView::List(anthropic_system_text_block_bodies(v))), None => None })
            + optional_pair("tools"@, match v.tools { Some(v) => Some(BodyView::List(anthropic_tool_bodies(v))), None => None })
            + optional_pair("tool_choice"@, match v.tool_choice { Some(v) => Some(anthropic_tool_choice_body(v)), None => None })
            + optional_pair("thinking"@, match v.thinking { Some(v) => Some(anthropic_thinking_body(v)), None => None })
            + seq![("stream"@, bool_body(v.stream))],
    )
}

impl AnthropicApiRequest {
    /// The body that is sent.
    pub fn to_body(&self) -> (r: Body)
        ensures
            r@ == anthropic_api_request_body(self@),
    {
        let mut fields = no_fields();
        put_text(&mut fields, "model", self.model.as_str());
        put_number(&mut fields, "max_tokens", self.max_tokens as u64);
        put(&mut fields, "messages", Body::List(anthropic_message_list(&self.messages)));
        put_optional(&mut fields, "system", match &self.system { Some(v) => Some(Body::List(anthropic_system_text_block_list(v))), None => None });
        put_optional(&mut fields, "tools", match &self.tools { Some(v) => Some(Body::List(anthropic_tool_list(v))), None => None });
        put_optional(&mut fields, "tool_choice", match &self.tool_choice { Some(v) => Some(v.to_body()), None => None });
        put_optional(&mut fields, "thinking", match &self.thinking { Some(v) => Some(v.to_body()), None => None });
        put_bool(&mut fields, "stream", self.stream);
        Body::Fields(fields)
    }

    /// The document of the body.
    pub fn to_json(&self) -> (r: Json)
        ensures
            r@ == doc_of(anthropic_api_request_body(self@)),
    {
        self.to_body().to_json()
    }
}

/// The breakpoint for a short-lived cache.
pub open spec fn ephemeral_breakpoint() -> AnthropicCacheControlView {
    AnthropicCacheControlView { type_: "ephemeral"@ }
}

impl AnthropicCacheControl {
    /// The breakpoint for a short-lived cache.
    pub fn ephemeral() -> (r: AnthropicCacheControl)
        ensures
            r@ == ephemeral_breakpoint(),
    {
        AnthropicCacheControl { type_: "ephemeral".to_owned() }
    }
}

impl AnthropicSystemTextBlock {
    /// A block of text without a breakpoint.
    pub fn new(text: String) -> (r: AnthropicSystemTextBlock)
        ensures
            r@ == (AnthropicSystemTextBlockView { type_: "text"@, text: text@, cache_control: None }),
    {
        AnthropicSystemTextBlock { type_: "text".to_owned(), text, cache_control: None }
    }
}

} // verus!
