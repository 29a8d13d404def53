//! Requests of the Gemini protocol.

use vstd::prelude::*;

use crate::json::optional_bool;
use crate::json::optional_i32;
use crate::json::optional_text;
use crate::json::optional_texts;
use crate::json::optional_u32;
use crate::json::Json;
use crate::json::JsonView;
use crate::wire::body::bodies;
use crate::wire::body::bool_body;
use crate::wire::body::doc_of;
use crate::wire::body::lemma_bodies_push;
use crate::wire::body::no_fields;
use crate::wire::body::optional_doc;
use crate::wire::body::optional_pair;
use crate::wire::body::put;
use crate::wire::body::put_bool;
use crate::wire::body::put_json;
use crate::wire::body::put_optional;
use crate::wire::body::put_optional_bool;
use crate::wire::body::put_optional_doc;
use crate::wire::body::put_optional_i32;
use crate::wire::body::put_optional_text;
use crate::wire::body::put_optional_texts;
use crate::wire::body::put_optional_u32;
use crate::wire::body::put_text;
use crate::wire::body::text_body;
use crate::wire::body::Body;
use crate::wire::body::BodyView;

verus! {

/// Data in base64.
#[derive(Debug, Clone, PartialEq)]
pub struct GeminiInlineData {
    pub mime_type: String,
    pub data: String,
}

/// What a `GeminiInlineData` means.
#[verifier::ext_equal]
pub struct GeminiInlineDataView {
    pub mime_type: Seq<char>,
    pub data: Seq<char>,
}

impl View for GeminiInlineData {
    type V = GeminiInlineDataView;

    open spec fn view(&self) -> GeminiInlineDataView {
        GeminiInlineDataView {
            mime_type: self.mime_type.deep_view(),
            data: self.data.deep_view(),
        }
    }
}

impl DeepView for GeminiInlineData {
    type V = GeminiInlineDataView;

    open spec fn deep_view(&self) -> GeminiInlineDataView {
        self.view()
    }
}

/// A tool call of the model; its arguments are an object.
#[derive(Debug, Clone, PartialEq)]
pub struct GeminiFunctionCall {
    pub name: String,
    pub args: Json,
}

/// What a `GeminiFunctionCall` means.
#[verifier::ext_equal]
pub struct GeminiFunctionCallView {
    pub name: Seq<char>,
    pub args: JsonView,
}

impl View for GeminiFunctionCall {
    type V = GeminiFunctionCallView;

    open spec fn view(&self) -> GeminiFunctionCallView {
        GeminiFunctionCallView {
            name: self.name.deep_view(),
            args: self.args.deep_view(),
        }
    }
}

impl DeepView for GeminiFunctionCall {
    type V = GeminiFunctionCallView;

    open spec fn deep_view(&self) -> GeminiFunctionCallView {
        self.view()
    }
}

/// A tool's answer; it is an object, which holds `error` when the tool failed.
#[derive(Debug, Clone, PartialEq)]
pub struct GeminiFunctionResponse {
    pub name: String,
    pub response: Json,
}

/// What a `GeminiFunctionResponse` means.
#[verifier::ext_equal]
pub struct GeminiFunctionResponseView {
    pub name: Seq<char>,
    pub response: JsonView,
}

impl View for GeminiFunctionResponse {
    type V = GeminiFunctionResponseView;

    open spec fn view(&self) -> GeminiFunctionResponseView {
        GeminiFunctionResponseView {
            name: self.name.deep_view(),
            response: self.response.deep_view(),
        }
    }
}

impl DeepView for GeminiFunctionResponse {
    type V = GeminiFunctionResponseView;

    open spec fn deep_view(&self) -> GeminiFunctionResponseView {
        self.view()
    }
}

/// One part of a content. Its kind shows in its fields.
#[derive(Debug, Clone, PartialEq)]
pub enum GeminiPart {
    /// A thought, with the signature that lets it be handed back.
    Thought { thought: bool, text: String, thought_signature: Option<String> },
    Text { text: String },
    InlineData { inline_data: GeminiInlineData },
    FunctionCall { function_call: GeminiFunctionCall },
    FunctionResponse { function_response: GeminiFunctionResponse },
}

/// What a `GeminiPart` means.
#[verifier::ext_equal]
pub enum GeminiPartView {
    Thought { thought: bool, text: Seq<char>, thought_signature: Option<Seq<char>> },
    Text { text: Seq<char> },
    InlineData { inline_data: GeminiInlineDataView },
    FunctionCall { function_call: GeminiFunctionCallView },
    FunctionResponse { function_response: GeminiFunctionResponseView },
}

impl View for GeminiPart {
    type V = GeminiPartView;

    open spec fn view(&self) -> GeminiPartView {
        match self {
            GeminiPart::Thought { thought, text, thought_signature } => GeminiPartView::Thought {
                thought: thought.deep_view(),
                text: text.deep_view(),
                thought_signature: thought_signature.deep_view(),
            },
            GeminiPart::Text { text } => GeminiPartView::Text {
                text: text.deep_view(),
            },
            GeminiPart::InlineData { inline_data } => GeminiPartView::InlineData {
                inline_data: inline_data.deep_view(),
            },
            GeminiPart::FunctionCall { function_call } => GeminiPartView::FunctionCall {
                function_call: function_call.deep_view(),
            },
            GeminiPart::FunctionResponse { function_response } => GeminiPartView::FunctionResponse {
                function_response: function_response.deep_view(),
            },
        }
    }
}

impl DeepView for GeminiPart {
    type V = GeminiPartView;

    open spec fn deep_view(&self) -> GeminiPartView {
        self.view()
    }
}

/// One content; its role is `user` or `model`.
#[derive(Debug, Clone, PartialEq)]
pub struct GeminiContent {
    pub role: String,
    pub parts: Vec<GeminiPart>,
}

/// What a `GeminiContent` means.
#[verifier::ext_equal]
pub struct GeminiContentView {
    pub role: Seq<char>,
    pub parts: Seq<GeminiPartView>,
}

impl View for GeminiContent {
    type V = GeminiContentView;

    open spec fn view(&self) -> GeminiContentView {
        GeminiContentView {
            role: self.role.deep_view(),
            parts: self.parts.deep_view(),
        }
    }
}

impl DeepView for GeminiContent {
    type V = GeminiContentView;

    open spec fn deep_view(&self) -> GeminiContentView {
        self.view()
    }
}

/// The system prompt, which stands beside the contents.
#[derive(Debug, Clone, PartialEq)]
pub struct GeminiSystemInstruction {
    pub role: Option<String>,
    pub parts: Vec<GeminiPart>,
}

/// What a `GeminiSystemInstruction` means.
#[verifier::ext_equal]
pub struct GeminiSystemInstructionView {
    pub role: Option<Seq<char>>,
    pub parts: Seq<GeminiPartView>,
}

impl View for GeminiSystemInstruction {
    type V = GeminiSystemInstructionView;

    open spec fn view(&self) -> GeminiSystemInstructionView {
        GeminiSystemInstructionView {
            role: self.role.deep_view(),
            parts: self.parts.deep_view(),
        }
    }
}

impl DeepView for GeminiSystemInstruction {
    type V = GeminiSystemInstructionView;

    open spec fn deep_view(&self) -> GeminiSystemInstructionView {
        self.view()
    }
}

/// One function that the model can call.
#[derive(Debug, Clone, PartialEq)]
pub struct GeminiToolDeclaration {
    pub name: String,
    pub description: Option<String>,
    pub parameters: Option<Json>,
}

/// What a `GeminiToolDeclaration` means.
#[verifier::ext_equal]
pub struct GeminiToolDeclarationView {
    pub name: Seq<char>,
    pub description: Option<Seq<char>>,
    pub parameters: Option<JsonView>,
}

impl View for GeminiToolDeclaration {
    type V = GeminiToolDeclarationView;

    open spec fn view(&self) -> GeminiToolDeclarationView {
        GeminiToolDeclarationView {
            name: self.name.deep_view(),
            description: self.description.deep_view(),
            parameters: self.parameters.deep_view(),
        }
    }
}

impl DeepView for GeminiToolDeclaration {
    type V = GeminiToolDeclarationView;

    open spec fn deep_view(&self) -> GeminiToolDeclarationView {
        self.view()
    }
}

/// A set of functions.
#[derive(Debug, Clone, PartialEq)]
pub struct GeminiTool {
    pub function_declarations: Vec<GeminiToolDeclaration>,
}

/// What a `GeminiTool` means.
#[verifier::ext_equal]
pub struct GeminiToolView {
    pub function_declarations: Seq<GeminiToolDeclarationView>,
}

impl View for GeminiTool {
    type V = GeminiToolView;

    open spec fn view(&self) -> GeminiToolView {
        GeminiToolView {
            function_declarations: self.function_declarations.deep_view(),
        }
    }
}

impl DeepView for GeminiTool {
    type V = GeminiToolView;

    open spec fn deep_view(&self) -> GeminiToolView {
        self.view()
    }
}

/// Whether functions are called: `AUTO`, `ANY`, possibly only some, or `NONE`.
#[derive(Debug, Clone, PartialEq)]
pub struct GeminiFunctionCallingConfig {
    pub mode: String,
    pub allowed_function_names: Option<Vec<String>>,
}

/// What a `GeminiFunctionCallingConfig` means.
#[verifier::ext_equal]
pub struct GeminiFunctionCallingConfigView {
    pub mode: Seq<char>,
    pub allowed_function_names: Option<Seq<Seq<char>>>,
}

impl View for GeminiFunctionCallingConfig {
    type V = GeminiFunctionCallingConfigView;

    open spec fn view(&self) -> GeminiFunctionCallingConfigView {
        GeminiFunctionCallingConfigView {
            mode: self.mode.deep_view(),
            allowed_function_names: self.allowed_function_names.deep_view(),
        }
    }
}

impl DeepView for GeminiFunctionCallingConfig {
    type V = GeminiFunctionCallingConfigView;

    open spec fn deep_view(&self) -> GeminiFunctionCallingConfigView {
        self.view()
    }
}

/// How tools are chosen.
#[derive(Debug, Clone, PartialEq)]
pub struct GeminiToolConfig {
    pub function_calling_config: GeminiFunctionCallingConfig,
}

/// What a `GeminiToolConfig` means.
#[verifier::ext_equal]
pub struct GeminiToolConfigView {
    pub function_calling_config: GeminiFunctionCallingConfigView,
}

impl View for GeminiToolConfig {
    type V = GeminiToolConfigView;

    open spec fn view(&self) -> GeminiToolConfigView {
        GeminiToolConfigView {
            function_calling_config: self.function_calling_config.deep_view(),
        }
    }
}

impl DeepView for GeminiToolConfig {
    type V = GeminiToolConfigView;

    open spec fn deep_view(&self) -> GeminiToolConfigView {
        self.view()
    }
}

/// How the model thinks: by a budget of tokens or by a level, depending on the
/// generation of the model.
#[derive(Debug, Clone, PartialEq)]
pub struct GeminiThinkingConfig {
    pub thinking_budget: Option<i32>,
    pub thinking_level: Option<String>,
    pub include_thoughts: Option<bool>,
}

/// What a `GeminiThinkingConfig` means.
#[verifier::ext_equal]
pub struct GeminiThinkingConfigView {
    pub thinking_budget: Option<i32>,
    pub thinking_level: Option<Seq<char>>,
    pub include_thoughts: Option<bool>,
}

impl View for GeminiThinkingConfig {
    type V = GeminiThinkingConfigView;

    open spec fn view(&self) -> GeminiThinkingConfigView {
        GeminiThinkingConfigView {
            thinking_budget: self.thinking_budget.deep_view(),
            thinking_level: self.thinking_level.deep_view(),
            include_thoughts: self.include_thoughts.deep_view(),
        }
    }
}

impl DeepView for GeminiThinkingConfig {
    type V = GeminiThinkingConfigView;

    open spec fn deep_view(&self) -> GeminiThinkingConfigView {
        self.view()
    }
}

/// How the answer is generated. The sampling parameters are numbers.
#[derive(Debug, Clone, PartialEq)]
pub struct GeminiGenerationConfig {
    pub temperature: Option<Json>,
    pub top_p: Option<Json>,
    pub top_k: Option<Json>,
    pub max_output_tokens: Option<u32>,
    pub thinking_config: Option<GeminiThinkingConfig>,
    /// `application/json` where the answer has a schema.
    pub response_mime_type: Option<String>,
    pub response_schema: Option<Json>,
}

/// What a `GeminiGenerationConfig` means.
#[verifier::ext_equal]
pub struct GeminiGenerationConfigView {
    pub temperature: Option<JsonView>,
    pub top_p: Option<JsonView>,
    pub top_k: Option<JsonView>,
    pub max_output_tokens: Option<u32>,
    pub thinking_config: Option<GeminiThinkingConfigView>,
    pub response_mime_type: Option<Seq<char>>,
    pub response_schema: Option<JsonView>,
}

impl View for GeminiGenerationConfig {
    type V = GeminiGenerationConfigView;

    open spec fn view(&self) -> GeminiGenerationConfigView {
        GeminiGenerationConfigView {
            temperature: self.temperature.deep_view(),
            top_p: self.top_p.deep_view(),
            top_k: self.top_k.deep_view(),
            max_output_tokens: self.max_output_tokens.deep_view(),
            thinking_config: self.thinking_config.deep_view(),
            response_mime_type: self.response_mime_type.deep_view(),
            response_schema: self.response_schema.deep_view(),
        }
    }
}

impl DeepView for GeminiGenerationConfig {
    type V = GeminiGenerationConfigView;

    open spec fn deep_view(&self) -> GeminiGenerationConfigView {
        self.view()
    }
}

/// A request. The model's name stands in the path, not here.
#[derive(Debug, Clone, PartialEq)]
pub struct GeminiApiRequest {
    pub contents: Vec<GeminiContent>,
    pub system_instruction: Option<GeminiSystemInstruction>,
    pub tools: Option<Vec<GeminiTool>>,
    pub tool_config: Option<GeminiToolConfig>,
    pub generation_config: Option<GeminiGenerationConfig>,
}

/// What a `GeminiApiRequest` means.
#[verifier::ext_equal]
pub struct GeminiApiRequestView {
    pub contents: Seq<GeminiContentView>,
    pub system_instruction: Option<GeminiSystemInstructionView>,
    pub tools: Option<Seq<GeminiToolView>>,
    pub tool_config: Option<GeminiToolConfigView>,
    pub generation_config: Option<GeminiGenerationConfigView>,
}

impl View for GeminiApiRequest {
    type V = GeminiApiRequestView;

    open spec fn view(&self) -> GeminiApiRequestView {
        GeminiApiRequestView {
            contents: self.contents.deep_view(),
            system_instruction: self.system_instruction.deep_view(),
            tools: self.tools.deep_view(),
            tool_config: self.tool_config.deep_view(),
            generation_config: self.generation_config.deep_view(),
        }
    }
}

impl DeepView for GeminiApiRequest {
    type V = GeminiApiRequestView;

    open spec fn deep_view(&self) -> GeminiApiRequestView {
        self.view()
    }
}

/// The body of a `GeminiInlineData`.
pub open spec fn gemini_inline_data_body(v: GeminiInlineDataView) -> BodyView {
    BodyView::Fields(
        Seq::<(Seq<char>, BodyView)>::empty()
            + seq![("mimeType"@, text_body(v.mime_type))]
            + seq![("data"@, text_body(v.data))],
    )
}

impl GeminiInlineData {
    /// The body that is sent.
    pub fn to_body(&self) -> (r: Body)
        ensures
            r@ == gemini_inline_data_body(self@),
    {
        let mut fields = no_fields();
        put_text(&mut fields, "mimeType", self.mime_type.as_str());
        put_text(&mut fields, "data", self.data.as_str());
        Body::Fields(fields)
    }
}

/// The body of a `GeminiFunctionCall`.
pub open spec fn gemini_function_call_body(v: GeminiFunctionCallView) -> BodyView {
    BodyView::Fields(
        Seq::<(Seq<char>, BodyView)>::empty()
            + seq![("name"@, text_body(v.name))]
            + seq![("args"@, BodyView::Doc(v.args))],
    )
}

impl GeminiFunctionCall {
    /// The body that is sent.
    pub fn to_body(&self) -> (r: Body)
        ensures
            r@ == gemini_function_call_body(self@),
    {
        let mut fields = no_fields();
        put_text(&mut fields, "name", self.name.as_str());
        put_json(&mut fields, "args", &self.args);
        Body::Fields(fields)
    }
}

/// The body of a `GeminiFunctionResponse`.
pub open spec fn gemini_function_response_body(v: GeminiFunctionResponseView) -> BodyView {
    BodyView::Fields(
        Seq::<(Seq<char>, BodyView)>::empty()
            + seq![("name"@, text_body(v.name))]
            + seq![("response"@, BodyView::Doc(v.response))],
    )
}

impl GeminiFunctionResponse {
    /// The body that is sent.
    pub fn to_body(&self) -> (r: Body)
        ensures
            r@ == gemini_function_response_body(self@),
    {
        let mut fields = no_fields();
        put_text(&mut fields, "name", self.name.as_str());
        put_json(&mut fields, "response", &self.response);
        Body::Fields(fields)
    }
}

/// The body of a `GeminiPart`.
pub open spec fn gemini_part_body(v: GeminiPartView) -> BodyView {
    match v {
        GeminiPartView::Thought { thought, text, thought_signature } => BodyView::Fields(
            Seq::<(Seq<char>, BodyView)>::empty()
                + seq![("thought"@, bool_body(thought))]
                + seq![("text"@, text_body(text))]
                + optional_pair("thoughtSignature"@, optional_doc(optional_text(thought_signature))),
        ),
        GeminiPartView::Text { text } => BodyView::Fields(
            Seq::<(Seq<char>, BodyView)>::empty()
                + seq![("text"@, text_body(text))],
        ),
        GeminiPartView::InlineData { inline_data } => BodyView::Fields(
            Seq::<(Seq<char>, BodyView)>::empty()
                + seq![("inlineData"@, gemini_inline_data_body(inline_data))],
        ),
        GeminiPartView::FunctionCall { function_call } => BodyView::Fields(
            Seq::<(Seq<char>, BodyView)>::empty()
                + seq![("functionCall"@, gemini_function_call_body(function_call))],
        ),
        GeminiPartView::FunctionResponse { function_response } => BodyView::Fields(
            Seq::<(Seq<char>, BodyView)>::empty()
                + seq![("functionResponse"@, gemini_function_response_body(function_response))],
        ),
    }
}

impl GeminiPart {
    /// The body that is sent.
    pub fn to_body(&self) -> (r: Body)
        ensures
            r@ == gemini_part_body(self@),
    {
        let mut fields = no_fields();
        match self {
            GeminiPart::Thought { thought, text, thought_signature } => {
                put_bool(&mut fields, "thought", *thought);
                put_text(&mut fields, "text", text.as_str());
                put_optional_text(&mut fields, "thoughtSignature", thought_signature);
            },
            GeminiPart::Text { text } => {
                put_text(&mut fields, "text", text.as_str());
            },
            GeminiPart::InlineData { inline_data } => {
                put(&mut fields, "inlineData", inline_data.to_body());
            },
            GeminiPart::FunctionCall { function_call } => {
                put(&mut fields, "functionCall", function_call.to_body());
            },
            GeminiPart::FunctionResponse { function_response } => {
                put(&mut fields, "functionResponse", function_response.to_body());
            },
        }
        Body::Fields(fields)
    }
}

/// The bodies of a list of `GeminiPart`.
pub open spec fn gemini_part_bodies(list: Seq<GeminiPartView>) -> Seq<BodyView> {
    Seq::new(list.len(), |i: int| gemini_part_body(list[i]))
}

fn gemini_part_list(list: &Vec<GeminiPart>) -> (r: Vec<Body>)
    ensures
        bodies(r@) == gemini_part_bodies(list.deep_view()),
{
    let mut out: Vec<Body> = Vec::new();
    let mut i: usize = 0;
    while i < list.len()
        invariant
            i <= list@.len(),
            bodies(out@) == gemini_part_bodies(list.deep_view()).take(i as int),
        decreases list@.len() - i,
    {
        let item = list[i].to_body();
        proof {
            lemma_bodies_push(out@, item);
            assert(gemini_part_bodies(list.deep_view()).take(i + 1) =~= gemini_part_bodies(list.deep_view()).take(
                i as int,
            ).push(gemini_part_body(list@[i as int]@)));
        }
        out.push(item);
        i += 1;
    }
    assert(gemini_part_bodies(list.deep_view()).take(i as int) =~= gemini_part_bodies(list.deep_view()));
    out
}

/// The body of a `GeminiContent`.
pub open spec fn gemini_content_body(v: GeminiContentView) -> BodyView {
    BodyView::Fields(
        Seq::<(Seq<char>, BodyView)>::empty()
            + seq![("role"@, text_body(v.role))]
            + seq![("parts"@, BodyView::List(gemini_part_bodies(v.parts)))],
    )
}

impl GeminiContent {
    /// The body that is sent.
    pub fn to_body(&self) -> (r: Body)
        ensures
            r@ == gemini_content_body(self@),
    {
        let mut fields = no_fields();
        put_text(&mut fields, "role", self.role.as_str());
        put(&mut fields, "parts", Body::List(gemini_part_list(&self.parts)));
        Body::Fields(fields)
    }
}

/// The bodies of a list of `GeminiContent`.
pub open spec fn gemini_content_bodies(list: Seq<GeminiContentView>) -> Seq<BodyView> {
    Seq::new(list.len(), |i: int| gemini_content_body(list[i]))
}

fn gemini_content_list(list: &Vec<GeminiContent>) -> (r: Vec<Body>)
    ensures
        bodies(r@) == gemini_content_bodies(list.deep_view()),
{
    let mut out: Vec<Body> = Vec::new();
    let mut i: usize = 0;
    while i < list.len()
        invariant
            i <= list@.len(),
            bodies(out@) == gemini_content_bodies(list.deep_view()).take(i as int),
        decreases list@.len() - i,
    {
        let item = list[i].to_body();
        proof {
            lemma_bodies_push(out@, item);
            assert(gemini_content_bodies(list.deep_view()).take(i + 1) =~= gemini_content_bodies(list.deep_view()).take(
                i as int,
            ).push(gemini_content_body(list@[i as int]@)));
        }
        out.push(item);
        i += 1;
    }
    assert(gemini_content_bodies(list.deep_view()).take(i as int) =~= gemini_content_bodies(list.deep_view()));
    out
}

/// The body of a `GeminiSystemInstruction`.
pub open spec fn gemini_system_instruction_body(v: GeminiSystemInstructionView) -> BodyView {
    BodyView::Fields(
        Seq::<(Seq<char>, BodyView)>::empty()
            + optional_pair("role"@, optional_doc(optional_text(v.role)))
            + seq![("parts"@, BodyView::List(gemini_part_bodies(v.parts)))],
    )
}

impl GeminiSystemInstruction {
    /// The body that is sent.
    pub fn to_body(&self) -> (r: Body)
        ensures
            r@ == gemini_system_instruction_body(self@),
    {
        let mut fields = no_fields();
        put_optional_text(&mut fields, "role", &self.role);
        put(&mut fields, "parts", Body::List(gemini_part_list(&self.parts)));
        Body::Fields(fields)
    }
}

/// The body of a `GeminiToolDeclaration`.
pub open spec fn gemini_tool_declaration_body(v: GeminiToolDeclarationView) -> BodyView {
    BodyView::Fields(
        Seq::<(Seq<char>, BodyView)>::empty()
            + seq![("name"@, text_body(v.name))]
            + optional_pair("description"@, optional_doc(optional_text(v.description)))
            + optional_pair("parameters"@, optional_doc(v.parameters)),
    )
}

impl GeminiToolDeclaration {
    /// The body that is sent.
    pub fn to_body(&self) -> (r: Body)
        ensures
            r@ == gemini_tool_declaration_body(self@),
    {
        let mut fields = no_fields();
        put_text(&mut fields, "name", self.name.as_str());
        put_optional_text(&mut fields, "description", &self.description);
        put_optional_doc(&mut fields, "parameters", &self.parameters);
        Body::Fields(fields)
    }
}

/// The bodies of a list of `GeminiToolDeclaration`.
pub open spec fn gemini_tool_declaration_bodies(list: Seq<GeminiToolDeclarationView>) -> Seq<BodyView> {
    Seq::new(list.len(), |i: int| gemini_tool_declaration_body(list[i]))
}

fn gemini_tool_declaration_list(list: &Vec<GeminiToolDeclaration>) -> (r: Vec<Body>)
    ensures
        bodies(r@) == gemini_tool_declaration_bodies(list.deep_view()),
{
    let mut out: Vec<Body> = Vec::new();
    let mut i: usize = 0;
    while i < list.len()
        invariant
            i <= list@.len(),
            bodies(out@) == gemini_tool_declaration_bodies(list.deep_view()).take(i as int),
        decreases list@.len() - i,
    {
        let item = list[i].to_body();
        proof {
            lemma_bodies_push(out@, item);
            assert(gemini_tool_declaration_bodies(list.deep_view()).take(i + 1) =~= gemini_tool_declaration_bodies(list.deep_view()).take(
                i as int,
            ).push(gemini_tool_declaration_body(list@[i as int]@)));
        }
        out.push(item);
        i += 1;
    }
    assert(gemini_tool_declaration_bodies(list.deep_view()).take(i as int) =~= gemini_tool_declaration_bodies(list.deep_view()));
    out
}

/// The body of a `GeminiTool`.
pub open spec fn gemini_tool_body(v: GeminiToolView) -> BodyView {
    BodyView::Fields(
        Seq::<(Seq<char>, BodyView)>::empty()
            + seq![("functionDeclarations"@, BodyView::List(gemini_tool_declaration_bodies(v.function_declarations)))],
    )
}

impl GeminiTool {
    /// The body that is sent.
    pub fn to_body(&self) -> (r: Body)
        ensures
            r@ == gemini_tool_body(self@),
    {
        let mut fields = no_fields();
        put(&mut fields, "functionDeclarations", Body::List(gemini_tool_declaration_list(&self.function_declarations)));
        Body::Fields(fields)
    }
}

/// The bodies of a list of `GeminiTool`.
pub open spec fn gemini_tool_bodies(list: Seq<GeminiToolView>) -> Seq<BodyView> {
    Seq::new(list.len(), |i: int| gemini_tool_body(list[i]))
}

fn gemini_tool_list(list: &Vec<GeminiTool>) -> (r: Vec<Body>)
    ensures
        bodies(r@) == gemini_tool_bodies(list.deep_view()),
{
    let mut out: Vec<Body> = Vec::new();
    let mut i: usize = 0;
    while i < list.len()
        invariant
            i <= list@.len(),
            bodies(out@) == gemini_tool_bodies(list.deep_view()).take(i as int),
        decreases list@.len() - i,
    {
        let item = list[i].to_body();
        proof {
            lemma_bodies_push(out@, item);
            assert(gemini_tool_bodies(list.deep_view()).take(i + 1) =~= gemini_tool_bodies(list.deep_view()).take(
                i as int,
            ).push(gemini_tool_body(list@[i as int]@)));
        }
        out.push(item);
        i += 1;
    }
    assert(gemini_tool_bodies(list.deep_view()).take(i as int) =~= gemini_tool_bodies(list.deep_view()));
    out
}

/// The body of a `GeminiFunctionCallingConfig`.
pub open spec fn gemini_function_calling_config_body(v: GeminiFunctionCallingConfigView) -> BodyView {
    BodyView::Fields(
        Seq::<(Seq<char>, BodyView)>::empty()
            + seq![("mode"@, text_body(v.mode))]
            + optional_pair("allowedFunctionNames"@, optional_doc(optional_texts(v.allowed_function_names))),
    )
}

impl GeminiFunctionCallingConfig {
    /// The body that is sent.
    pub fn to_body(&self) -> (r: Body)
        ensures
            r@ == gemini_function_calling_config_body(self@),
    {
        let mut fields = no_fields();
        put_text(&mut fields, "mode", self.mode.as_str());
        put_optional_texts(&mut fields, "allowedFunctionNames", &self.allowed_function_names);
        Body::Fields(fields)
    }
}

/// The body of a `GeminiToolConfig`.
pub open spec fn gemini_tool_config_body(v: GeminiToolConfigView) -> BodyView {
    BodyView::Fields(
        Seq::<(Seq<char>, BodyView)>::empty()
            + seq![("functionCallingConfig"@, gemini_function_calling_config_body(v.function_calling_config))],
    )
}

impl GeminiToolConfig {
    /// The body that is sent.
    pub fn to_body(&self) -> (r: Body)
        ensures
            r@ == gemini_tool_config_body(self@),
    {
        let mut fields = no_fields();
        put(&mut fields, "functionCallingConfig", self.function_calling_config.to_body());
        Body::Fields(fields)
    }
}

/// The body of a `GeminiThinkingConfig`.
pub open spec fn gemini_thinking_config_body(v: GeminiThinkingConfigView) -> BodyView {
    BodyView::Fields(
        Seq::<(Seq<char>, BodyView)>::empty()
            + optional_pair("thinkingBudget"@, optional_doc(optional_i32(v.thinking_budget)))
            + optional_pair("thinkingLevel"@, optional_doc(optional_text(v.thinking_level)))
            + optional_pair("includeThoughts"@, optional_doc(optional_bool(v.include_thoughts))),
    )
}

impl GeminiThinkingConfig {
    /// The body that is sent.
    pub fn to_body(&self) -> (r: Body)
        ensures
            r@ == gemini_thinking_config_body(self@),
    {
        let mut fields = no_fields();
        put_optional_i32(&mut fields, "thinkingBudget", self.thinking_budget);
        put_optional_text(&mut fields, "thinkingLevel", &self.thinking_level);
        put_optional_bool(&mut fields, "includeThoughts", self.include_thoughts);
        Body::Fields(fields)
    }
}

/// The body of a `GeminiGenerationConfig`.
pub open spec fn gemini_generation_config_body(v: GeminiGenerationConfigView) -> BodyView {
    BodyView::Fields(
        Seq::<(Seq<char>, BodyView)>::empty()
            + optional_pair("temperature"@, optional_doc(v.temperature))
            + optional_pair("topP"@, optional_doc(v.top_p))
            + optional_pair("topK"@, optional_doc(v.top_k))
            + optional_pair("maxOutputTokens"@, optional_doc(optional_u32(v.max_output_tokens)))
            + optional_pair("thinkingConfig"@, match v.thinking_config { Some(v) => Some(gemini_thinking_config_body(v)), None => None })
            + optional_pair("responseMimeType"@, optional_doc(optional_text(v.response_mime_type)))
            + optional_pair("responseSchema"@, optional_doc(v.response_schema)),
    )
}

impl GeminiGenerationConfig {
    /// The body that is sent.
    pub fn to_body(&self) -> (r: Body)
        ensures
            r@ == gemini_generation_config_body(self@),
    {
        let mut fields = no_fields();
        put_optional_doc(&mut fields, "temperature", &self.temperature);
        put_optional_doc(&mut fields, "topP", &self.top_p);
        put_optional_doc(&mut fields, "topK", &self.top_k);
        put_optional_u32(&mut fields, "maxOutputTokens", self.max_output_tokens);
        put_optional(&mut fields, "thinkingConfig", match &self.thinking_config { Some(v) => Some(v.to_body()), None => None });
        put_optional_text(&mut fields, "responseMimeType", &self.response_mime_type);
        put_optional_doc(&mut fields, "responseSchema", &self.response_schema);
        Body::Fields(fields)
    }
}

/// The body of a `GeminiApiRequest`.
pub open spec fn gemini_api_request_body(v: GeminiApiRequestView) -> BodyView {
    BodyView::Fields(
        Seq::<(Seq<char>, BodyView)>::empty()
            + seq![("contents"@, BodyView::List(gemini_content_bodies(v.contents)))]
            + optional_pair("systemInstruction"@, match v.system_instruction { Some(v) => Some(gemini_system_instruction_body(v)), None => None })
            + optional_pair("tools"@, match v.tools { Some(v) => Some(BodyView::List(gemini_tool_bodies(v))), None => None })
            + optional_pair("toolConfig"@, match v.tool_config { Some(v) => Some(gemini_tool_config_body(v)), None => None })
            + optional_pair("generationConfig"@, match v.generation_config { Some(v) => Some(gemini_generation_config_body(v)), None => None }),
    )
}

impl GeminiApiRequest {
    /// The body that is sent.
    pub fn to_body(&self) -> (r: Body)
        ensures
            r@ == gemini_api_request_body(self@),
    {
        let mut fields = no_fields();
        put(&mut fields, "contents", Body::List(gemini_content_list(&self.contents)));
        put_optional(&mut fields, "systemInstruction", match &self.system_instruction { Some(v) => Some(v.to_body()), None => None });
        put_optional(&mut fields, "tools", match &self.tools { Some(v) => Some(Body::List(gemini_tool_list(v))), None => None });
        put_optional(&mut fields, "toolConfig", match &self.tool_config { Some(v) => Some(v.to_body()), None => None });
        put_optional(&mut fields, "generationConfig", match &self.generation_config { Some(v) => Some(v.to_body()), None => None });
        Body::Fields(fields)
    }

    /// The document of the body.
    pub fn to_json(&self) -> (r: Json)
        ensures
            r@ == doc_of(gemini_api_request_body(self@)),
    {
        self.to_body().to_json()
    }
}

/// A configuration that says nothing.
pub open spec fn plain_generation() -> GeminiGenerationConfigView {
    GeminiGenerationConfigView {
        temperature: None,
        top_p: None,
        top_k: None,
        max_output_tokens: None,
        thinking_config: None,
        response_mime_type: None,
        response_schema: None,
    }
}

impl Default for GeminiGenerationConfig {
    fn default() -> (r: GeminiGenerationConfig)
        ensures
            r@ == plain_generation(),
    {
        GeminiGenerationConfig {
            temperature: None,
            top_p: None,
            top_k: None,
            max_output_tokens: None,
            thinking_config: None,
            response_mime_type: None,
            response_schema: None,
        }
    }
}

} // verus!
