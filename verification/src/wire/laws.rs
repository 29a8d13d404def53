//! What the bodies of requests hold, field by field.

use vstd::prelude::*;
use vstd::seq_lib::lemma_seq_concat_contains_all_elements;

use crate::codec::json_text;
use crate::codec::written;
use crate::json::optional_bool;
use crate::json::optional_i32;
use crate::json::optional_list;
use crate::json::optional_text;
use crate::json::optional_texts;
use crate::json::optional_u32;
use crate::json::JsonView;
use crate::wire::anthropic::anthropic_api_request_body;
use crate::wire::anthropic::anthropic_cache_control_body;
use crate::wire::anthropic::anthropic_content_block_bodies;
use crate::wire::anthropic::anthropic_content_block_body;
use crate::wire::anthropic::anthropic_image_source_body;
use crate::wire::anthropic::anthropic_message_bodies;
use crate::wire::anthropic::anthropic_message_body;
use crate::wire::anthropic::anthropic_system_text_block_bodies;
use crate::wire::anthropic::anthropic_system_text_block_body;
use crate::wire::anthropic::anthropic_thinking_body;
use crate::wire::anthropic::anthropic_tool_bodies;
use crate::wire::anthropic::anthropic_tool_body;
use crate::wire::anthropic::anthropic_tool_choice_body;
use crate::wire::anthropic::AnthropicApiRequestView;
use crate::wire::anthropic::AnthropicCacheControlView;
use crate::wire::anthropic::AnthropicContentBlockView;
use crate::wire::anthropic::AnthropicImageSourceView;
use crate::wire::anthropic::AnthropicMessageView;
use crate::wire::anthropic::AnthropicSystemTextBlockView;
use crate::wire::anthropic::AnthropicThinkingView;
use crate::wire::anthropic::AnthropicToolChoiceView;
use crate::wire::anthropic::AnthropicToolView;
use crate::wire::body::body_text;
use crate::wire::body::bool_body;
use crate::wire::body::fields_text;
use crate::wire::body::items_text;
use crate::wire::body::number_body;
use crate::wire::body::optional_doc;
use crate::wire::body::optional_pair;
use crate::wire::body::text_body;
use crate::wire::body::BodyView;
use crate::wire::chat::chat_api_request_body;
use crate::wire::chat::chat_message_bodies;
use crate::wire::chat::chat_message_body;
use crate::wire::chat::chat_stream_options_body;
use crate::wire::chat::chat_tool_call_bodies;
use crate::wire::chat::chat_tool_call_body;
use crate::wire::chat::chat_tool_call_function_body;
use crate::wire::chat::ChatApiRequestView;
use crate::wire::chat::ChatMessageView;
use crate::wire::chat::ChatStreamOptionsView;
use crate::wire::chat::ChatToolCallFunctionView;
use crate::wire::chat::ChatToolCallView;
use crate::wire::gemini::gemini_api_request_body;
use crate::wire::gemini::gemini_content_bodies;
use crate::wire::gemini::gemini_content_body;
use crate::wire::gemini::gemini_function_call_body;
use crate::wire::gemini::gemini_function_calling_config_body;
use crate::wire::gemini::gemini_function_response_body;
use crate::wire::gemini::gemini_generation_config_body;
use crate::wire::gemini::gemini_inline_data_body;
use crate::wire::gemini::gemini_part_bodies;
use crate::wire::gemini::gemini_part_body;
use crate::wire::gemini::gemini_system_instruction_body;
use crate::wire::gemini::gemini_thinking_config_body;
use crate::wire::gemini::gemini_tool_bodies;
use crate::wire::gemini::gemini_tool_body;
use crate::wire::gemini::gemini_tool_config_body;
use crate::wire::gemini::gemini_tool_declaration_bodies;
use crate::wire::gemini::gemini_tool_declaration_body;
use crate::wire::gemini::GeminiApiRequestView;
use crate::wire::gemini::GeminiContentView;
use crate::wire::gemini::GeminiFunctionCallView;
use crate::wire::gemini::GeminiFunctionCallingConfigView;
use crate::wire::gemini::GeminiFunctionResponseView;
use crate::wire::gemini::GeminiGenerationConfigView;
use crate::wire::gemini::GeminiInlineDataView;
use crate::wire::gemini::GeminiPartView;
use crate::wire::gemini::GeminiSystemInstructionView;
use crate::wire::gemini::GeminiThinkingConfigView;
use crate::wire::gemini::GeminiToolConfigView;
use crate::wire::gemini::GeminiToolDeclarationView;
use crate::wire::gemini::GeminiToolView;

verus! {

/// Whether a body has a field with a value.
pub open spec fn sends(body: BodyView, key: Seq<char>, value: BodyView) -> bool {
    body matches BodyView::Fields(fields) && fields.contains((key, value))
}

/// Whether a body has a field with a document.
pub open spec fn sends_doc(body: BodyView, key: Seq<char>, value: JsonView) -> bool {
    sends(body, key, BodyView::Doc(value))
}

/// Whether a body has a field with a text.
pub open spec fn sends_text(body: BodyView, key: Seq<char>, text: Seq<char>) -> bool {
    sends_doc(body, key, JsonView::Text(text))
}

/// A field is sent when it has a value, with that value, and otherwise not at all.
pub proof fn law_absent_values_are_not_sent(
    key: Seq<char>,
    value: BodyView,
    doc: JsonView,
    text: Seq<char>,
)
    ensures
        optional_pair(key, None).len() == 0,
        optional_pair(key, Some(value)) == seq![(key, value)],
        optional_doc(None) is None,
        optional_doc(Some(doc)) == Some(BodyView::Doc(doc)),
        optional_text(None) is None,
        optional_text(Some(text)) == Some(JsonView::Text(text)),
{
}

/// Fields are written behind each other, separated by commas, each as its name in
/// quotes, a colon and its value, and braces stand around them.
pub proof fn law_fields_are_written_in_order(
    fields: Seq<(Seq<char>, BodyView)>,
    key: Seq<char>,
    value: BodyView,
    text: Seq<char>,
)
    requires
        body_text(value) == Some(text),
    ensures
        body_text(BodyView::Fields(seq![(key, value)])) == Some(
            "{"@ + (json_text(JsonView::Text(key)) + ":"@ + text) + "}"@,
        ),
        fields.len() > 0 ==> (fields_text(fields) matches Some(before) ==> body_text(
            BodyView::Fields(fields.push((key, value))),
        ) == Some("{"@ + (before + ","@ + (json_text(JsonView::Text(key)) + ":"@ + text)) + "}"@)),
        fields_text(fields) is None ==> body_text(BodyView::Fields(fields.push((key, value)))) is None,
{
    assert(fields.push((key, value)).drop_last() =~= fields);
    let one = seq![(key, value)];
    let none = Seq::<(Seq<char>, BodyView)>::empty();
    assert(one.drop_last() =~= none);
    assert(fields_text(none) == Some(Seq::<char>::empty()));
    assert(fields_text(one) == Some(json_text(JsonView::Text(key)) + ":"@ + text));
}

/// Items are written behind each other, separated by commas, in brackets.
pub proof fn law_items_are_written_in_order(items: Seq<BodyView>, item: BodyView, text: Seq<char>)
    requires
        body_text(item) == Some(text),
    ensures
        body_text(BodyView::List(seq![item])) == Some("["@ + text + "]"@),
        items.len() > 0 ==> (items_text(items) matches Some(before) ==> body_text(
            BodyView::List(items.push(item)),
        ) == Some("["@ + (before + ","@ + text) + "]"@)),
        items_text(items) is None ==> body_text(BodyView::List(items.push(item))) is None,
{
    assert(items.push(item).drop_last() =~= items);
    let one = seq![item];
    let none = Seq::<BodyView>::empty();
    assert(one.drop_last() =~= none);
    assert(items_text(none) == Some(Seq::<char>::empty()));
    assert(items_text(one) == Some(text));
}

/// A document is written as it is.
pub proof fn law_documents_are_written_as_they_are(doc: JsonView)
    ensures
        body_text(BodyView::Doc(doc)) == written(doc),
{
}

proof fn lemma_one(pair: (Seq<char>, BodyView))
    ensures
        seq![pair].contains(pair),
{
    assert(seq![pair][0] == pair);
}

/// A cache breakpoint tells its kind.
pub proof fn law_anthropic_cache_control_is_spelled_out(v: AnthropicCacheControlView)
    ensures
        ({
            let body = anthropic_cache_control_body(v);
            &&& sends_text(body, "type"@, v.type_)
        }),
{
    broadcast use lemma_seq_concat_contains_all_elements;

    lemma_one(("type"@, text_body(v.type_)));
}

/// A block of the instructions tells its kind and its text, and is a cache breakpoint
/// when it is marked.
pub proof fn law_anthropic_system_text_block_is_spelled_out(v: AnthropicSystemTextBlockView)
    ensures
        ({
            let body = anthropic_system_text_block_body(v);
            &&& sends_text(body, "type"@, v.type_)
            &&& sends_text(body, "text"@, v.text)
            &&& v.cache_control matches Some(x) ==> sends(body, "cache_control"@, anthropic_cache_control_body(x))
        }),
{
    broadcast use lemma_seq_concat_contains_all_elements;

    lemma_one(("type"@, text_body(v.type_)));
    lemma_one(("text"@, text_body(v.text)));
    if let Some(x) = v.cache_control {
        lemma_one(("cache_control"@, anthropic_cache_control_body(x)));
    }
}

/// An image is sent in its own form: as data with its media type, or by its address.
pub proof fn law_anthropic_image_source_is_spelled_out(v: AnthropicImageSourceView)
    ensures
        ({
            let body = anthropic_image_source_body(v);
            match v {
                AnthropicImageSourceView::Base64 { media_type, data } => {
                    &&& sends_text(body, "type"@, "base64"@)
                    &&& sends_text(body, "media_type"@, media_type)
                    &&& sends_text(body, "data"@, data)
                },
                AnthropicImageSourceView::Url { url } => {
                    &&& sends_text(body, "type"@, "url"@)
                    &&& sends_text(body, "url"@, url)
                },
            }
        }),
{
    broadcast use lemma_seq_concat_contains_all_elements;

    match v {
        AnthropicImageSourceView::Base64 { media_type, data } => {
            lemma_one(("type"@, text_body("base64"@)));
            lemma_one(("media_type"@, text_body(media_type)));
            lemma_one(("data"@, text_body(data)));
        },
        AnthropicImageSourceView::Url { url } => {
            lemma_one(("type"@, text_body("url"@)));
            lemma_one(("url"@, text_body(url)));
        },
    }
}

/// A block of a message is sent under its kind with what it holds.
pub proof fn law_anthropic_content_block_is_spelled_out(v: AnthropicContentBlockView)
    ensures
        ({
            let body = anthropic_content_block_body(v);
            match v {
                AnthropicContentBlockView::Text { text } => {
                    &&& sends_text(body, "type"@, "text"@)
                    &&& sends_text(body, "text"@, text)
                },
                AnthropicContentBlockView::Thinking { thinking, signature } => {
                    &&& sends_text(body, "type"@, "thinking"@)
                    &&& sends_text(body, "thinking"@, thinking)
                    &&& signature matches Some(x) ==> sends_doc(body, "signature"@, JsonView::Text(x))
                },
                AnthropicContentBlockView::Image { source } => {
                    &&& sends_text(body, "type"@, "image"@)
                    &&& sends(body, "source"@, anthropic_image_source_body(source))
                },
                AnthropicContentBlockView::ToolUse { id, name, input } => {
                    &&& sends_text(body, "type"@, "tool_use"@)
                    &&& sends_text(body, "id"@, id)
                    &&& sends_text(body, "name"@, name)
                    &&& sends_doc(body, "input"@, input)
                },
                AnthropicContentBlockView::ToolResult { tool_use_id, content, is_error } => {
                    &&& sends_text(body, "type"@, "tool_result"@)
                    &&& sends_text(body, "tool_use_id"@, tool_use_id)
                    &&& sends_text(body, "content"@, content)
                    &&& is_error matches Some(x) ==> sends_doc(body, "is_error"@, JsonView::Bool(x))
                },
            }
        }),
{
    broadcast use lemma_seq_concat_contains_all_elements;

    match v {
        AnthropicContentBlockView::Text { text } => {
            lemma_one(("type"@, text_body("text"@)));
            lemma_one(("text"@, text_body(text)));
        },
        AnthropicContentBlockView::Thinking { thinking, signature } => {
            lemma_one(("type"@, text_body("thinking"@)));
            lemma_one(("thinking"@, text_body(thinking)));
            if let Some(x) = optional_text(signature) {
                lemma_one(("signature"@, BodyView::Doc(x)));
            }
        },
        AnthropicContentBlockView::Image { source } => {
            lemma_one(("type"@, text_body("image"@)));
            lemma_one(("source"@, anthropic_image_source_body(source)));
        },
        AnthropicContentBlockView::ToolUse { id, name, input } => {
            lemma_one(("type"@, text_body("tool_use"@)));
            lemma_one(("id"@, text_body(id)));
            lemma_one(("name"@, text_body(name)));
            lemma_one(("input"@, BodyView::Doc(input)));
        },
        AnthropicContentBlockView::ToolResult { tool_use_id, content, is_error } => {
            lemma_one(("type"@, text_body("tool_result"@)));
            lemma_one(("tool_use_id"@, text_body(tool_use_id)));
            lemma_one(("content"@, text_body(content)));
            if let Some(x) = optional_bool(is_error) {
                lemma_one(("is_error"@, BodyView::Doc(x)));
            }
        },
    }
}

/// A message tells who says it and sends its blocks in their order.
pub proof fn law_anthropic_message_is_spelled_out(v: AnthropicMessageView)
    ensures
        ({
            let body = anthropic_message_body(v);
            &&& sends_text(body, "role"@, v.role)
            &&& sends(body, "content"@, BodyView::List(Seq::new(v.content.len(), |i: int| anthropic_content_block_body(v.content[i]))))
        }),
{
    broadcast use lemma_seq_concat_contains_all_elements;

    lemma_one(("role"@, text_body(v.role)));
    lemma_one(("content"@, BodyView::List(anthropic_content_block_bodies(v.content))));
    assert(anthropic_content_block_bodies(v.content) =~= Seq::new(v.content.len(), |i: int| anthropic_content_block_body(v.content[i])));
}

/// A tool is sent with its name, its description and the schema of its input.
pub proof fn law_anthropic_tool_is_spelled_out(v: AnthropicToolView)
    ensures
        ({
            let body = anthropic_tool_body(v);
            &&& sends_text(body, "name"@, v.name)
            &&& v.description matches Some(x) ==> sends_doc(body, "description"@, JsonView::Text(x))
            &&& sends_doc(body, "input_schema"@, v.input_schema)
            &&& v.cache_control matches Some(x) ==> sends(body, "cache_control"@, anthropic_cache_control_body(x))
        }),
{
    broadcast use lemma_seq_concat_contains_all_elements;

    lemma_one(("name"@, text_body(v.name)));
    if let Some(x) = optional_text(v.description) {
        lemma_one(("description"@, BodyView::Doc(x)));
    }
    lemma_one(("input_schema"@, BodyView::Doc(v.input_schema)));
    if let Some(x) = v.cache_control {
        lemma_one(("cache_control"@, anthropic_cache_control_body(x)));
    }
}

/// The choice of a tool tells its kind, and what else it says.
pub proof fn law_anthropic_tool_choice_is_spelled_out(v: AnthropicToolChoiceView)
    ensures
        ({
            let body = anthropic_tool_choice_body(v);
            &&& sends_text(body, "type"@, v.type_)
            &&& v.name matches Some(x) ==> sends_doc(body, "name"@, JsonView::Text(x))
            &&& v.disable_parallel_tool_use matches Some(x) ==> sends_doc(body, "disable_parallel_tool_use"@, JsonView::Bool(x))
        }),
{
    broadcast use lemma_seq_concat_contains_all_elements;

    lemma_one(("type"@, text_body(v.type_)));
    if let Some(x) = optional_text(v.name) {
        lemma_one(("name"@, BodyView::Doc(x)));
    }
    if let Some(x) = optional_bool(v.disable_parallel_tool_use) {
        lemma_one(("disable_parallel_tool_use"@, BodyView::Doc(x)));
    }
}

/// Thinking is allowed so many tokens.
pub proof fn law_anthropic_thinking_is_spelled_out(v: AnthropicThinkingView)
    ensures
        ({
            let body = anthropic_thinking_body(v);
            &&& sends_text(body, "type"@, v.type_)
            &&& sends_doc(body, "budget_tokens"@, JsonView::Unsigned(v.budget_tokens as u64))
        }),
{
    broadcast use lemma_seq_concat_contains_all_elements;

    lemma_one(("type"@, text_body(v.type_)));
    lemma_one(("budget_tokens"@, number_body(v.budget_tokens as u64)));
}

/// A request sends what it is made of, each part under its own name.
pub proof fn law_anthropic_api_request_is_spelled_out(v: AnthropicApiRequestView)
    ensures
        ({
            let body = anthropic_api_request_body(v);
            &&& sends_text(body, "model"@, v.model)
            &&& sends_doc(body, "max_tokens"@, JsonView::Unsigned(v.max_tokens as u64))
            &&& sends(body, "messages"@, BodyView::List(Seq::new(v.messages.len(), |i: int| anthropic_message_body(v.messages[i]))))
            &&& v.system matches Some(x) ==> sends(body, "system"@, BodyView::List(Seq::new(x.len(), |i: int| anthropic_system_text_block_body(x[i]))))
            &&& v.tools matches Some(x) ==> sends(body, "tools"@, BodyView::List(Seq::new(x.len(), |i: int| anthropic_tool_body(x[i]))))
            &&& v.tool_choice matches Some(x) ==> sends(body, "tool_choice"@, anthropic_tool_choice_body(x))
            &&& v.thinking matches Some(x) ==> sends(body, "thinking"@, anthropic_thinking_body(x))
            &&& sends_doc(body, "stream"@, JsonView::Bool(v.stream))
        }),
{
    broadcast use lemma_seq_concat_contains_all_elements;

    lemma_one(("model"@, text_body(v.model)));
    lemma_one(("max_tokens"@, number_body(v.max_tokens as u64)));
    lemma_one(("messages"@, BodyView::List(anthropic_message_bodies(v.messages))));
    assert(anthropic_message_bodies(v.messages) =~= Seq::new(v.messages.len(), |i: int| anthropic_message_body(v.messages[i])));
    if let Some(x) = v.system {
        lemma_one(("system"@, BodyView::List(anthropic_system_text_block_bodies(x))));
        assert(anthropic_system_text_block_bodies(x) =~= Seq::new(x.len(), |i: int| anthropic_system_text_block_body(x[i])));
    }
    if let Some(x) = v.tools {
        lemma_one(("tools"@, BodyView::List(anthropic_tool_bodies(x))));
        assert(anthropic_tool_bodies(x) =~= Seq::new(x.len(), |i: int| anthropic_tool_body(x[i])));
    }
    if let Some(x) = v.tool_choice {
        lemma_one(("tool_choice"@, anthropic_tool_choice_body(x)));
    }
    if let Some(x) = v.thinking {
        lemma_one(("thinking"@, anthropic_thinking_body(x)));
    }
    lemma_one(("stream"@, bool_body(v.stream)));
}

/// A called function is sent with its name and its arguments.
pub proof fn law_chat_tool_call_function_is_spelled_out(v: ChatToolCallFunctionView)
    ensures
        ({
            let body = chat_tool_call_function_body(v);
            &&& sends_text(body, "name"@, v.name)
            &&& sends_text(body, "arguments"@, v.arguments)
        }),
{
    broadcast use lemma_seq_concat_contains_all_elements;

    lemma_one(("name"@, text_body(v.name)));
    lemma_one(("arguments"@, text_body(v.arguments)));
}

/// A call is sent with its id, its kind and its function.
pub proof fn law_chat_tool_call_is_spelled_out(v: ChatToolCallView)
    ensures
        ({
            let body = chat_tool_call_body(v);
            &&& sends_text(body, "id"@, v.id)
            &&& sends_text(body, "type"@, v.kind)
            &&& sends(body, "function"@, chat_tool_call_function_body(v.function))
        }),
{
    broadcast use lemma_seq_concat_contains_all_elements;

    lemma_one(("id"@, text_body(v.id)));
    lemma_one(("type"@, text_body(v.kind)));
    lemma_one(("function"@, chat_tool_call_function_body(v.function)));
}

/// A message tells who says it, and what else it holds.
pub proof fn law_chat_message_is_spelled_out(v: ChatMessageView)
    ensures
        ({
            let body = chat_message_body(v);
            &&& sends_text(body, "role"@, v.role)
            &&& v.content matches Some(x) ==> sends_doc(body, "content"@, x)
            &&& v.name matches Some(x) ==> sends_doc(body, "name"@, JsonView::Text(x))
            &&& v.tool_call_id matches Some(x) ==> sends_doc(body, "tool_call_id"@, JsonView::Text(x))
            &&& v.tool_calls matches Some(x) ==> sends(body, "tool_calls"@, BodyView::List(Seq::new(x.len(), |i: int| chat_tool_call_body(x[i]))))
        }),
{
    broadcast use lemma_seq_concat_contains_all_elements;

    lemma_one(("role"@, text_body(v.role)));
    if let Some(x) = v.content {
        lemma_one(("content"@, BodyView::Doc(x)));
    }
    if let Some(x) = optional_text(v.name) {
        lemma_one(("name"@, BodyView::Doc(x)));
    }
    if let Some(x) = optional_text(v.tool_call_id) {
        lemma_one(("tool_call_id"@, BodyView::Doc(x)));
    }
    if let Some(x) = v.tool_calls {
        lemma_one(("tool_calls"@, BodyView::List(chat_tool_call_bodies(x))));
        assert(chat_tool_call_bodies(x) =~= Seq::new(x.len(), |i: int| chat_tool_call_body(x[i])));
    }
}

/// A stream is asked to tell its usage or not.
pub proof fn law_chat_stream_options_is_spelled_out(v: ChatStreamOptionsView)
    ensures
        ({
            let body = chat_stream_options_body(v);
            &&& sends_doc(body, "include_usage"@, JsonView::Bool(v.include_usage))
        }),
{
    broadcast use lemma_seq_concat_contains_all_elements;

    lemma_one(("include_usage"@, bool_body(v.include_usage)));
}

/// A request sends what it is made of, each part under its own name.
pub proof fn law_chat_api_request_is_spelled_out(v: ChatApiRequestView)
    ensures
        ({
            let body = chat_api_request_body(v);
            &&& sends_text(body, "model"@, v.model)
            &&& sends(body, "messages"@, BodyView::List(Seq::new(v.messages.len(), |i: int| chat_message_body(v.messages[i]))))
            &&& v.tools matches Some(x) ==> sends_doc(body, "tools"@, JsonView::List(x))
            &&& v.tool_choice matches Some(x) ==> sends_doc(body, "tool_choice"@, x)
            &&& v.parallel_tool_calls ==> sends_doc(body, "parallel_tool_calls"@, JsonView::Bool(true))
            &&& v.reasoning_effort matches Some(x) ==> sends_doc(body, "reasoning_effort"@, JsonView::Text(x))
            &&& v.service_tier matches Some(x) ==> sends_doc(body, "service_tier"@, JsonView::Text(x))
            &&& v.response_format matches Some(x) ==> sends_doc(body, "response_format"@, x)
            &&& v.max_tokens matches Some(x) ==> sends_doc(body, "max_tokens"@, JsonView::Unsigned(x as u64))
            &&& v.stream_options matches Some(x) ==> sends(body, "stream_options"@, chat_stream_options_body(x))
            &&& sends_doc(body, "stream"@, JsonView::Bool(v.stream))
        }),
{
    broadcast use lemma_seq_concat_contains_all_elements;

    lemma_one(("model"@, text_body(v.model)));
    lemma_one(("messages"@, BodyView::List(chat_message_bodies(v.messages))));
    assert(chat_message_bodies(v.messages) =~= Seq::new(v.messages.len(), |i: int| chat_message_body(v.messages[i])));
    if let Some(x) = optional_list(v.tools) {
        lemma_one(("tools"@, BodyView::Doc(x)));
    }
    if let Some(x) = v.tool_choice {
        lemma_one(("tool_choice"@, BodyView::Doc(x)));
    }
    lemma_one(("parallel_tool_calls"@, BodyView::Doc(JsonView::Bool(true))));
    if let Some(x) = optional_text(v.reasoning_effort) {
        lemma_one(("reasoning_effort"@, BodyView::Doc(x)));
    }
    if let Some(x) = optional_text(v.service_tier) {
        lemma_one(("service_tier"@, BodyView::Doc(x)));
    }
    if let Some(x) = v.response_format {
        lemma_one(("response_format"@, BodyView::Doc(x)));
    }
    if let Some(x) = optional_u32(v.max_tokens) {
        lemma_one(("max_tokens"@, BodyView::Doc(x)));
    }
    if let Some(x) = v.stream_options {
        lemma_one(("stream_options"@, chat_stream_options_body(x)));
    }
    lemma_one(("stream"@, bool_body(v.stream)));
}

/// Data is sent with its media type.
pub proof fn law_gemini_inline_data_is_spelled_out(v: GeminiInlineDataView)
    ensures
        ({
            let body = gemini_inline_data_body(v);
            &&& sends_text(body, "mimeType"@, v.mime_type)
            &&& sends_text(body, "data"@, v.data)
        }),
{
    broadcast use lemma_seq_concat_contains_all_elements;

    lemma_one(("mimeType"@, text_body(v.mime_type)));
    lemma_one(("data"@, text_body(v.data)));
}

/// A call is sent with its name and its arguments.
pub proof fn law_gemini_function_call_is_spelled_out(v: GeminiFunctionCallView)
    ensures
        ({
            let body = gemini_function_call_body(v);
            &&& sends_text(body, "name"@, v.name)
            &&& sends_doc(body, "args"@, v.args)
        }),
{
    broadcast use lemma_seq_concat_contains_all_elements;

    lemma_one(("name"@, text_body(v.name)));
    lemma_one(("args"@, BodyView::Doc(v.args)));
}

/// An answer is sent with the name of its call and what it says.
pub proof fn law_gemini_function_response_is_spelled_out(v: GeminiFunctionResponseView)
    ensures
        ({
            let body = gemini_function_response_body(v);
            &&& sends_text(body, "name"@, v.name)
            &&& sends_doc(body, "response"@, v.response)
        }),
{
    broadcast use lemma_seq_concat_contains_all_elements;

    lemma_one(("name"@, text_body(v.name)));
    lemma_one(("response"@, BodyView::Doc(v.response)));
}

/// A part is sent under its kind with what it holds.
pub proof fn law_gemini_part_is_spelled_out(v: GeminiPartView)
    ensures
        ({
            let body = gemini_part_body(v);
            match v {
                GeminiPartView::Thought { thought, text, thought_signature } => {
                    &&& sends_doc(body, "thought"@, JsonView::Bool(thought))
                    &&& sends_text(body, "text"@, text)
                    &&& thought_signature matches Some(x) ==> sends_doc(body, "thoughtSignature"@, JsonView::Text(x))
                },
                GeminiPartView::Text { text } => {
                    &&& sends_text(body, "text"@, text)
                },
                GeminiPartView::InlineData { inline_data } => {
                    &&& sends(body, "inlineData"@, gemini_inline_data_body(inline_data))
                },
                GeminiPartView::FunctionCall { function_call } => {
                    &&& sends(body, "functionCall"@, gemini_function_call_body(function_call))
                },
                GeminiPartView::FunctionResponse { function_response } => {
                    &&& sends(body, "functionResponse"@, gemini_function_response_body(function_response))
                },
            }
        }),
{
    broadcast use lemma_seq_concat_contains_all_elements;

    match v {
        GeminiPartView::Thought { thought, text, thought_signature } => {
            lemma_one(("thought"@, bool_body(thought)));
            lemma_one(("text"@, text_body(text)));
            if let Some(x) = optional_text(thought_signature) {
                lemma_one(("thoughtSignature"@, BodyView::Doc(x)));
            }
        },
        GeminiPartView::Text { text } => {
            lemma_one(("text"@, text_body(text)));
        },
        GeminiPartView::InlineData { inline_data } => {
            lemma_one(("inlineData"@, gemini_inline_data_body(inline_data)));
        },
        GeminiPartView::FunctionCall { function_call } => {
            lemma_one(("functionCall"@, gemini_function_call_body(function_call)));
        },
        GeminiPartView::FunctionResponse { function_response } => {
            lemma_one(("functionResponse"@, gemini_function_response_body(function_response)));
        },
    }
}

/// A content tells who says it and sends its parts in their order.
pub proof fn law_gemini_content_is_spelled_out(v: GeminiContentView)
    ensures
        ({
            let body = gemini_content_body(v);
            &&& sends_text(body, "role"@, v.role)
            &&& sends(body, "parts"@, BodyView::List(Seq::new(v.parts.len(), |i: int| gemini_part_body(v.parts[i]))))
        }),
{
    broadcast use lemma_seq_concat_contains_all_elements;

    lemma_one(("role"@, text_body(v.role)));
    lemma_one(("parts"@, BodyView::List(gemini_part_bodies(v.parts))));
    assert(gemini_part_bodies(v.parts) =~= Seq::new(v.parts.len(), |i: int| gemini_part_body(v.parts[i])));
}

/// The instructions are sent as parts in their order.
pub proof fn law_gemini_system_instruction_is_spelled_out(v: GeminiSystemInstructionView)
    ensures
        ({
            let body = gemini_system_instruction_body(v);
            &&& v.role matches Some(x) ==> sends_doc(body, "role"@, JsonView::Text(x))
            &&& sends(body, "parts"@, BodyView::List(Seq::new(v.parts.len(), |i: int| gemini_part_body(v.parts[i]))))
        }),
{
    broadcast use lemma_seq_concat_contains_all_elements;

    if let Some(x) = optional_text(v.role) {
        lemma_one(("role"@, BodyView::Doc(x)));
    }
    lemma_one(("parts"@, BodyView::List(gemini_part_bodies(v.parts))));
    assert(gemini_part_bodies(v.parts) =~= Seq::new(v.parts.len(), |i: int| gemini_part_body(v.parts[i])));
}

/// A function is declared with its name, its description and its parameters.
pub proof fn law_gemini_tool_declaration_is_spelled_out(v: GeminiToolDeclarationView)
    ensures
        ({
            let body = gemini_tool_declaration_body(v);
            &&& sends_text(body, "name"@, v.name)
            &&& v.description matches Some(x) ==> sends_doc(body, "description"@, JsonView::Text(x))
            &&& v.parameters matches Some(x) ==> sends_doc(body, "parameters"@, x)
        }),
{
    broadcast use lemma_seq_concat_contains_all_elements;

    lemma_one(("name"@, text_body(v.name)));
    if let Some(x) = optional_text(v.description) {
        lemma_one(("description"@, BodyView::Doc(x)));
    }
    if let Some(x) = v.parameters {
        lemma_one(("parameters"@, BodyView::Doc(x)));
    }
}

/// A tool sends its declarations in their order.
pub proof fn law_gemini_tool_is_spelled_out(v: GeminiToolView)
    ensures
        ({
            let body = gemini_tool_body(v);
            &&& sends(body, "functionDeclarations"@, BodyView::List(Seq::new(v.function_declarations.len(), |i: int| gemini_tool_declaration_body(v.function_declarations[i]))))
        }),
{
    broadcast use lemma_seq_concat_contains_all_elements;

    lemma_one(("functionDeclarations"@, BodyView::List(gemini_tool_declaration_bodies(v.function_declarations))));
    assert(gemini_tool_declaration_bodies(v.function_declarations) =~= Seq::new(v.function_declarations.len(), |i: int| gemini_tool_declaration_body(v.function_declarations[i])));
}

/// How functions are called is sent with the names of those that may be.
pub proof fn law_gemini_function_calling_config_is_spelled_out(v: GeminiFunctionCallingConfigView)
    ensures
        ({
            let body = gemini_function_calling_config_body(v);
            &&& sends_text(body, "mode"@, v.mode)
            &&& v.allowed_function_names matches Some(x) ==> sends_doc(body, "allowedFunctionNames"@, JsonView::List(Seq::new(x.len(), |i: int| JsonView::Text(x[i]))))
        }),
{
    broadcast use lemma_seq_concat_contains_all_elements;

    lemma_one(("mode"@, text_body(v.mode)));
    if let Some(x) = optional_texts(v.allowed_function_names) {
        lemma_one(("allowedFunctionNames"@, BodyView::Doc(x)));
    }
}

/// The configuration of tools is that of the calls.
pub proof fn law_gemini_tool_config_is_spelled_out(v: GeminiToolConfigView)
    ensures
        ({
            let body = gemini_tool_config_body(v);
            &&& sends(body, "functionCallingConfig"@, gemini_function_calling_config_body(v.function_calling_config))
        }),
{
    broadcast use lemma_seq_concat_contains_all_elements;

    lemma_one(("functionCallingConfig"@, gemini_function_calling_config_body(v.function_calling_config)));
}

/// How the model thinks is sent as far as it is said.
pub proof fn law_gemini_thinking_config_is_spelled_out(v: GeminiThinkingConfigView)
    ensures
        ({
            let body = gemini_thinking_config_body(v);
            &&& v.thinking_budget matches Some(x) ==> sends_doc(body, "thinkingBudget"@, if x < 0 { JsonView::Signed(x as i64) } else { JsonView::Unsigned(x as u64) })
            &&& v.thinking_level matches Some(x) ==> sends_doc(body, "thinkingLevel"@, JsonView::Text(x))
            &&& v.include_thoughts matches Some(x) ==> sends_doc(body, "includeThoughts"@, JsonView::Bool(x))
        }),
{
    broadcast use lemma_seq_concat_contains_all_elements;

    if let Some(x) = optional_i32(v.thinking_budget) {
        lemma_one(("thinkingBudget"@, BodyView::Doc(x)));
    }
    if let Some(x) = optional_text(v.thinking_level) {
        lemma_one(("thinkingLevel"@, BodyView::Doc(x)));
    }
    if let Some(x) = optional_bool(v.include_thoughts) {
        lemma_one(("includeThoughts"@, BodyView::Doc(x)));
    }
}

/// How the answer is made is sent as far as it is said.
pub proof fn law_gemini_generation_config_is_spelled_out(v: GeminiGenerationConfigView)
    ensures
        ({
            let body = gemini_generation_config_body(v);
            &&& v.temperature matches Some(x) ==> sends_doc(body, "temperature"@, x)
            &&& v.top_p matches Some(x) ==> sends_doc(body, "topP"@, x)
            &&& v.top_k matches Some(x) ==> sends_doc(body, "topK"@, x)
            &&& v.max_output_tokens matches Some(x) ==> sends_doc(body, "maxOutputTokens"@, JsonView::Unsigned(x as u64))
            &&& v.thinking_config matches Some(x) ==> sends(body, "thinkingConfig"@, gemini_thinking_config_body(x))
            &&& v.response_mime_type matches Some(x) ==> sends_doc(body, "responseMimeType"@, JsonView::Text(x))
            &&& v.response_schema matches Some(x) ==> sends_doc(body, "responseSchema"@, x)
        }),
{
    broadcast use lemma_seq_concat_contains_all_elements;

    if let Some(x) = v.temperature {
        lemma_one(("temperature"@, BodyView::Doc(x)));
    }
    if let Some(x) = v.top_p {
        lemma_one(("topP"@, BodyView::Doc(x)));
    }
    if let Some(x) = v.top_k {
        lemma_one(("topK"@, BodyView::Doc(x)));
    }
    if let Some(x) = optional_u32(v.max_output_tokens) {
        lemma_one(("maxOutputTokens"@, BodyView::Doc(x)));
    }
    if let Some(x) = v.thinking_config {
        lemma_one(("thinkingConfig"@, gemini_thinking_config_body(x)));
    }
    if let Some(x) = optional_text(v.response_mime_type) {
        lemma_one(("responseMimeType"@, BodyView::Doc(x)));
    }
    if let Some(x) = v.response_schema {
        lemma_one(("responseSchema"@, BodyView::Doc(x)));
    }
}

/// A request sends what it is made of, each part under its own name.
pub proof fn law_gemini_api_request_is_spelled_out(v: GeminiApiRequestView)
    ensures
        ({
            let body = gemini_api_request_body(v);
            &&& sends(body, "contents"@, BodyView::List(Seq::new(v.contents.len(), |i: int| gemini_content_body(v.contents[i]))))
            &&& v.system_instruction matches Some(x) ==> sends(body, "systemInstruction"@, gemini_system_instruction_body(x))
            &&& v.tools matches Some(x) ==> sends(body, "tools"@, BodyView::List(Seq::new(x.len(), |i: int| gemini_tool_body(x[i]))))
            &&& v.tool_config matches Some(x) ==> sends(body, "toolConfig"@, gemini_tool_config_body(x))
            &&& v.generation_config matches Some(x) ==> sends(body, "generationConfig"@, gemini_generation_config_body(x))
        }),
{
    broadcast use lemma_seq_concat_contains_all_elements;

    lemma_one(("contents"@, BodyView::List(gemini_content_bodies(v.contents))));
    assert(gemini_content_bodies(v.contents) =~= Seq::new(v.contents.len(), |i: int| gemini_content_body(v.contents[i])));
    if let Some(x) = v.system_instruction {
        lemma_one(("systemInstruction"@, gemini_system_instruction_body(x)));
    }
    if let Some(x) = v.tools {
        lemma_one(("tools"@, BodyView::List(gemini_tool_bodies(x))));
        assert(gemini_tool_bodies(x) =~= Seq::new(x.len(), |i: int| gemini_tool_body(x[i])));
    }
    if let Some(x) = v.tool_config {
        lemma_one(("toolConfig"@, gemini_tool_config_body(x)));
    }
    if let Some(x) = v.generation_config {
        lemma_one(("generationConfig"@, gemini_generation_config_body(x)));
    }
}

} // verus!
