//! What an Anthropic Messages request says, told from the request that it
//! translates.

use vstd::prelude::*;
use vstd::string::*;

use crate::adapters::anthropic::anthropic_messages;
use crate::adapters::anthropic::anthropic_request;
use crate::adapters::anthropic::anthropic_tools;
use crate::adapters::anthropic::content_blocks;
use crate::adapters::anthropic::prepared_request;
use crate::adapters::anthropic::thinking_for;
use crate::adapters::anthropic::with_blocks;
use crate::adapters::anthropic::with_item;
use crate::adapters::anthropic::ANTHROPIC_DEFAULT_MAX_TOKENS;
use crate::adapters::anthropic::ANTHROPIC_MIN_THINKING_TOKENS;
use crate::adapters::common::data_url;
use crate::adapters::common::pieces_text;
use crate::adapters::common::reasoning_text;
use crate::codec::parsed_json;
use crate::json::holds_object;
use crate::json::law_fields_are_read_by_key;
use crate::json::law_missing_fields_are_none;
use crate::json::says;
use crate::json::Fields;
use crate::json::JsonView;
use crate::models::ContentItemView;
use crate::models::FunctionCallOutputPayloadView;
use crate::models::ReasoningEffortView;
use crate::models::ReasoningItemContentView;
use crate::models::ResponseItemView;
use crate::text::find_char;
use crate::text::lemma_find_char;
use crate::tool_name::flat_name;
use crate::tool_name::ToolNameView;
use crate::unified::UnifiedRequestView;
use crate::unified::UnifiedTextControlsView;
use crate::unified::UnifiedTextFormatView;
use crate::wire::anthropic::ANTHROPIC_STRUCTURED_OUTPUT_TOOL;
use crate::wire::anthropic::AnthropicContentBlockView;
use crate::wire::anthropic::AnthropicImageSourceView;
use crate::wire::anthropic::AnthropicMessageView;
use crate::wire::anthropic::AnthropicToolView;

verus! {

/// Who says which block, message after message.
pub open spec fn spoken(messages: Seq<AnthropicMessageView>) -> Seq<
    (Seq<char>, AnthropicContentBlockView),
>
    decreases messages.len(),
{
    if messages.len() == 0 {
        Seq::empty()
    } else {
        spoken(messages.drop_last()) + by_role(messages.last().role, messages.last().content)
    }
}

/// Blocks with who says them.
pub open spec fn by_role(role: Seq<char>, blocks: Seq<AnthropicContentBlockView>) -> Seq<
    (Seq<char>, AnthropicContentBlockView),
> {
    Seq::new(blocks.len(), |i: int| (role, blocks[i]))
}

/// What one item of a conversation makes the request say.
pub open spec fn told(item: ResponseItemView) -> Seq<(Seq<char>, AnthropicContentBlockView)> {
    spoken(anthropic_messages(seq![item]))
}

/// A message of a conversation.
pub open spec fn message(role: Seq<char>, content: Seq<ContentItemView>) -> ResponseItemView {
    ResponseItemView::Message { id: None, role, content, phase: None }
}

proof fn lemma_spoken_with_blocks(
    messages: Seq<AnthropicMessageView>,
    role: Seq<char>,
    blocks: Seq<AnthropicContentBlockView>,
)
    ensures
        spoken(with_blocks(messages, role, blocks)) == spoken(messages) + by_role(role, blocks),
{
    let after = with_blocks(messages, role, blocks);
    if blocks.len() == 0 {
        assert(spoken(messages) + by_role(role, blocks) =~= spoken(messages));
    } else if messages.len() > 0 && messages.last().role == role {
        assert(after.drop_last() =~= messages.drop_last());
        assert(by_role(role, messages.last().content + blocks) =~= by_role(
            role,
            messages.last().content,
        ) + by_role(role, blocks));
        assert(spoken(after) =~= spoken(messages) + by_role(role, blocks));
    } else {
        assert(after.drop_last() =~= messages);
    }
}

proof fn lemma_single(item: ResponseItemView)
    ensures
        anthropic_messages(seq![item]) == with_item(Seq::empty(), item),
{
    reveal_with_fuel(anthropic_messages, 2);
    assert(seq![item].drop_last() =~= Seq::<ResponseItemView>::empty());
}

/// Where the blocks of an item come from: its role and its blocks.
proof fn lemma_item_is_blocks(item: ResponseItemView) -> (r: (
    Seq<char>,
    Seq<AnthropicContentBlockView>,
))
    ensures
        forall|messages: Seq<AnthropicMessageView>| #[trigger]
            with_item(messages, item) == with_blocks(messages, r.0, r.1),
{
    let probe = with_item(Seq::empty(), item);
    if probe.len() == 0 {
        ("user"@, Seq::empty())
    } else {
        (probe[0].role, probe[0].content)
    }
}

/// A conversation is told item by item: one more item adds what it tells by
/// itself, behind all that was told before.
pub proof fn law_conversation_is_told_item_by_item(
    items: Seq<ResponseItemView>,
    item: ResponseItemView,
)
    ensures
        spoken(anthropic_messages(Seq::empty())) == Seq::<
            (Seq<char>, AnthropicContentBlockView),
        >::empty(),
        spoken(anthropic_messages(items.push(item))) == spoken(anthropic_messages(items)) + told(
            item,
        ),
{
    assert(items.push(item).drop_last() =~= items);
    let before = anthropic_messages(items);
    let (role, blocks) = lemma_item_is_blocks(item);
    assert(with_item(before, item) == with_blocks(before, role, blocks));
    assert(with_item(Seq::empty(), item) == with_blocks(Seq::empty(), role, blocks));
    lemma_single(item);
    lemma_spoken_with_blocks(before, role, blocks);
    lemma_spoken_with_blocks(Seq::empty(), role, blocks);
    assert(Seq::<(Seq<char>, AnthropicContentBlockView)>::empty() + by_role(role, blocks)
        =~= by_role(role, blocks));
}

proof fn lemma_message_told(role: Seq<char>, content: Seq<ContentItemView>)
    requires
        role == "user"@ || role == "assistant"@,
    ensures
        told(message(role, content)) == by_role(role, content_blocks(content)),
{
    lemma_single(message(role, content));
    lemma_spoken_with_blocks(Seq::empty(), role, content_blocks(content));
    assert(Seq::<(Seq<char>, AnthropicContentBlockView)>::empty() + by_role(
        role,
        content_blocks(content),
    ) =~= by_role(role, content_blocks(content)));
}

/// What the user and the assistant said is told piece by piece, under the role
/// that said it. What any other role said is not told.
pub proof fn law_messages_are_told_piece_by_piece(
    role: Seq<char>,
    content: Seq<ContentItemView>,
    piece: ContentItemView,
)
    ensures
        told(message(role, Seq::empty())).len() == 0,
        told(message(role, content.push(piece))) == told(message(role, content)) + told(
            message(role, seq![piece]),
        ),
        forall|i: int|
            0 <= i < told(message(role, content)).len() ==> (#[trigger] told(
                message(role, content),
            )[i]).0 == role,
        role != "user"@ && role != "assistant"@ ==> told(message(role, content)).len() == 0,
{
    if role == "user"@ || role == "assistant"@ {
        lemma_message_told(role, Seq::empty());
        lemma_message_told(role, content);
        lemma_message_told(role, seq![piece]);
        lemma_message_told(role, content.push(piece));
        assert(content.push(piece).drop_last() =~= content);
        assert(seq![piece].drop_last() =~= Seq::<ContentItemView>::empty());
        assert(content_blocks(Seq::<ContentItemView>::empty()).len() == 0);
        reveal_with_fuel(content_blocks, 2);
        assert(told(message(role, content.push(piece))) =~= told(message(role, content)) + told(
            message(role, seq![piece]),
        ));
    } else {
        lemma_single(message(role, Seq::empty()));
        lemma_single(message(role, content));
        lemma_single(message(role, seq![piece]));
        lemma_single(message(role, content.push(piece)));
        assert(told(message(role, content.push(piece))) =~= told(message(role, content)) + told(
            message(role, seq![piece]),
        ));
    }
}

/// A text that is not empty is told as it is, whether it went in or came out.
pub proof fn law_texts_are_told(role: Seq<char>, piece: ContentItemView, text: Seq<char>)
    requires
        role == "user"@ || role == "assistant"@,
        piece == (ContentItemView::InputText { text }) || piece == (ContentItemView::OutputText {
            text,
        }),
    ensures
        text.len() > 0 ==> told(message(role, seq![piece])) == seq![
            (role, AnthropicContentBlockView::Text { text }),
        ],
        text.len() == 0 ==> told(message(role, seq![piece])).len() == 0,
{
    lemma_message_told(role, seq![piece]);
    assert(seq![piece].drop_last() =~= Seq::<ContentItemView>::empty());
    reveal_with_fuel(content_blocks, 2);
    if text.len() > 0 {
        assert(told(message(role, seq![piece])) =~= seq![
            (role, AnthropicContentBlockView::Text { text }),
        ]);
    }
}

/// An image in a data URL is told with its media type and its data.
pub proof fn law_images_are_told(
    role: Seq<char>,
    media_type: Seq<char>,
    data: Seq<char>,
    detail: Option<crate::models::ImageDetail>,
)
    requires
        role == "user"@ || role == "assistant"@,
        forall|i: int| 0 <= i < media_type.len() ==> media_type[i] != ',' && media_type[i] != ';',
    ensures
        told(
            message(
                role,
                seq![
                    ContentItemView::InputImage {
                        image_url: "data:"@ + media_type + ";base64,"@ + data,
                        detail,
                    },
                ],
            ),
        ) == seq![
            (
                role,
                AnthropicContentBlockView::Image {
                    source: AnthropicImageSourceView::Base64 { media_type, data },
                },
            ),
        ],
{
    let url = "data:"@ + media_type + ";base64,"@ + data;
    let piece = ContentItemView::InputImage { image_url: url, detail };
    law_data_urls_are_taken_apart(media_type, data);
    lemma_message_told(role, seq![piece]);
    assert(seq![piece].drop_last() =~= Seq::<ContentItemView>::empty());
    reveal_with_fuel(content_blocks, 2);
    assert(told(message(role, seq![piece])) =~= seq![
        (
            role,
            AnthropicContentBlockView::Image {
                source: AnthropicImageSourceView::Base64 { media_type, data },
            },
        ),
    ]);
}

/// An image at any other address is told by its address.
pub proof fn law_image_addresses_are_told(
    role: Seq<char>,
    url: Seq<char>,
    detail: Option<crate::models::ImageDetail>,
)
    requires
        role == "user"@ || role == "assistant"@,
        url.len() < 5 || url.take(5) != "data:"@,
    ensures
        told(message(role, seq![ContentItemView::InputImage { image_url: url, detail }])) == seq![
            (
                role,
                AnthropicContentBlockView::Image { source: AnthropicImageSourceView::Url { url } },
            ),
        ],
{
    let piece = ContentItemView::InputImage { image_url: url, detail };
    reveal_strlit("data:");
    if url.len() >= 5 {
        assert(url.subrange(0, 5) =~= url.take(5));
    }
    assert(data_url(url) is None);
    lemma_message_told(role, seq![piece]);
    assert(seq![piece].drop_last() =~= Seq::<ContentItemView>::empty());
    reveal_with_fuel(content_blocks, 2);
    assert(told(message(role, seq![piece])) =~= seq![
        (
            role,
            AnthropicContentBlockView::Image { source: AnthropicImageSourceView::Url { url } },
        ),
    ]);
}

/// A data URL gives its media type, which ends at the first semicolon, and its
/// data, which follow the first comma.
pub proof fn law_data_urls_are_taken_apart(media_type: Seq<char>, data: Seq<char>)
    requires
        forall|i: int| 0 <= i < media_type.len() ==> media_type[i] != ',' && media_type[i] != ';',
    ensures
        data_url("data:"@ + media_type + ";base64,"@ + data) == Some((media_type, data)),
{
    reveal_strlit("data:");
    reveal_strlit(";base64,");
    let url = "data:"@ + media_type + ";base64,"@ + data;
    assert(url.subrange(0, 5) =~= "data:"@);
    let rest = url.skip(5);
    assert(rest =~= media_type + ";base64,"@ + data);
    let n = media_type.len() as int;
    lemma_find_char(rest, ',', 0);
    let comma = find_char(rest, ',', 0);
    assert(rest[n + 7] == ',');
    assert forall|i: int| 0 <= i < n + 7 implies rest[i] != ',' by {
        if i < n {
            assert(rest[i] == media_type[i]);
        } else {
            assert(rest[i] == ";base64,"@[i - n]);
        }
    }
    assert(comma == n + 7);
    let meta = rest.take(comma);
    lemma_find_char(meta, ';', 0);
    let semi = find_char(meta, ';', 0);
    assert(meta[n] == ';');
    assert forall|i: int| 0 <= i < n implies meta[i] != ';' by {
        assert(meta[i] == media_type[i]);
    }
    assert(semi == n);
    assert(meta.take(semi) =~= media_type);
    assert(rest.skip(comma + 1) =~= data);
}

/// A call is told by the assistant, with its id, the flat name of its tool and
/// its arguments: an object as it is, and anything else as the object without
/// fields.
pub proof fn law_calls_are_told(
    item: ResponseItemView,
    name: Seq<char>,
    namespace: Option<Seq<char>>,
    arguments: Seq<char>,
    call_id: Seq<char>,
)
    requires
        match item {
            ResponseItemView::FunctionCall {
                name: n,
                namespace: s,
                arguments: a,
                call_id: c,
                ..
            } => n == name && s == namespace && a == arguments && c == call_id,
            ResponseItemView::CustomToolCall { name: n, namespace: s, input: a, call_id: c, .. } =>
                n == name && s == namespace && a == arguments && c == call_id,
            _ => false,
        },
    ensures
        told(item).len() == 1,
        told(item)[0].0 == "assistant"@,
        told(item)[0].1 matches AnthropicContentBlockView::ToolUse { id, name: n, input } && {
            &&& id == call_id
            &&& n == flat_name(ToolNameView { name, namespace })
            &&& parsed_json(arguments) matches Some(JsonView::Fields(fields)) ==> input
                == JsonView::Fields(fields)
            &&& !(parsed_json(arguments) matches Some(JsonView::Fields(_))) ==> input
                == JsonView::Fields(Map::empty())
        },
{
    lemma_single(item);
    reveal_with_fuel(spoken, 2);
    let all = with_item(Seq::empty(), item);
    assert(all.drop_last() =~= Seq::<AnthropicMessageView>::empty());
    assert(told(item) =~= by_role("assistant"@, all[0].content));
}

/// The answer of a tool is told by the user, with the id of the call that it
/// answers and the tool's text; it is an error when the tool failed, and none
/// when it did not.
pub proof fn law_answers_are_told(
    item: ResponseItemView,
    call_id: Seq<char>,
    output: FunctionCallOutputPayloadView,
)
    requires
        match item {
            ResponseItemView::FunctionCallOutput { call_id: c, output: o, .. } => c == call_id && o
                == output,
            ResponseItemView::CustomToolCallOutput { call_id: c, output: o, .. } => c == call_id && o
                == output,
            _ => false,
        },
    ensures
        told(item).len() == 1,
        told(item)[0].0 == "user"@,
        told(item)[0].1 matches AnthropicContentBlockView::ToolResult {
            tool_use_id,
            content,
            is_error,
        } && {
            &&& tool_use_id == call_id
            &&& output.text matches Some(text) ==> content == text
            &&& output.text is None ==> content.len() == 0
            &&& is_error is Some <==> output.success is Some
            &&& output.success == Some(true) ==> is_error == Some(false)
            &&& output.success == Some(false) ==> is_error == Some(true)
        },
{
    lemma_single(item);
    reveal_with_fuel(spoken, 2);
    let all = with_item(Seq::empty(), item);
    assert(all.drop_last() =~= Seq::<AnthropicMessageView>::empty());
    assert(told(item) =~= by_role("user"@, all[0].content));
}

/// Reasoning is told by the assistant with its signature, all its pieces joined.
/// Without a signature it is not told.
pub proof fn law_signed_reasoning_is_told(
    pieces: Seq<ReasoningItemContentView>,
    piece: ReasoningItemContentView,
    text: Seq<char>,
    signature: Option<Seq<char>>,
)
    requires
        piece == (ReasoningItemContentView::ReasoningText { text }) || piece == (
        ReasoningItemContentView::Text { text }),
    ensures
        reasoning_text(Some(seq![piece])) == text,
        reasoning_text(Some(pieces.push(piece))) == reasoning_text(Some(pieces)) + text,
        ({
            let item = ResponseItemView::Reasoning {
                id: None,
                summary: Seq::empty(),
                content: Some(pieces),
                encrypted_content: None,
                continuity_token: signature,
            };
            &&& signature is None ==> told(item).len() == 0
            &&& reasoning_text(Some(pieces)).len() == 0 ==> told(item).len() == 0
            &&& signature is Some && reasoning_text(Some(pieces)).len() > 0 ==> told(item) == seq![
                (
                    "assistant"@,
                    AnthropicContentBlockView::Thinking {
                        thinking: reasoning_text(Some(pieces)),
                        signature,
                    },
                ),
            ]
        }),
{
    reveal_with_fuel(pieces_text, 2);
    assert(seq![piece].drop_last() =~= Seq::<ReasoningItemContentView>::empty());
    assert(Seq::<char>::empty() + text =~= text);
    assert(pieces.push(piece).drop_last() =~= pieces);
    let item = ResponseItemView::Reasoning {
        id: None,
        summary: Seq::empty(),
        content: Some(pieces),
        encrypted_content: None,
        continuity_token: signature,
    };
    lemma_single(item);
    reveal_with_fuel(spoken, 2);
    let all = with_item(Seq::empty(), item);
    if all.len() > 0 {
        assert(all.drop_last() =~= Seq::<AnthropicMessageView>::empty());
        assert(told(item) =~= by_role("assistant"@, all[0].content));
        assert(told(item) =~= seq![
            (
                "assistant"@,
                AnthropicContentBlockView::Thinking {
                    thinking: reasoning_text(Some(pieces)),
                    signature,
                },
            ),
        ]);
    }
}

/// A request carries the conversation, the model and whether it streams, and the
/// provider's limit when there is one. The instructions are the system prompt.
pub proof fn law_request_carries_the_conversation(req: UnifiedRequestView, max: Option<u32>)
    ensures
        prepared_request(req, max).messages == anthropic_messages(req.input),
        prepared_request(req, max).model == req.model,
        prepared_request(req, max).stream == req.stream,
        max matches Some(m) ==> prepared_request(req, max).max_tokens == m,
        max is None ==> prepared_request(req, max).max_tokens == ANTHROPIC_DEFAULT_MAX_TOKENS,
        req.instructions.len() == 0 ==> prepared_request(req, max).system is None,
        req.instructions.len() > 0 ==> (prepared_request(req, max).system matches Some(blocks)
            && blocks.len() == 1 && blocks[0].text == req.instructions && blocks[0].type_
            == "text"@),
        prepared_request(req, max).tools == anthropic_request(req).tools,
        prepared_request(req, max).tool_choice == anthropic_request(req).tool_choice,
        req.reasoning is None ==> prepared_request(req, max).thinking is None,
        req.reasoning matches Some(reasoning) ==> prepared_request(req, max).thinking
            == thinking_for(reasoning.effort, prepared_request(req, max).max_tokens),
{
}

/// An answer of a given form is asked for as the call of one more tool, which stands
/// last, takes that form and must be called.
pub proof fn law_answer_form_is_a_tool(
    req: UnifiedRequestView,
    text: UnifiedTextControlsView,
    format: UnifiedTextFormatView,
)
    requires
        req.text == Some(text),
        text.format == Some(format),
    ensures
        anthropic_request(req).tools matches Some(tools) && tools.len() > 0 && tools.last().name
            == ANTHROPIC_STRUCTURED_OUTPUT_TOOL@ && tools.last().input_schema == format.schema,
        anthropic_request(req).tool_choice matches Some(choice) && choice.type_ == "tool"@
            && choice.name == Some(ANTHROPIC_STRUCTURED_OUTPUT_TOOL@),
{
    reveal_strlit("none");
    reveal_strlit("auto");
    reveal_strlit("required");
    reveal_strlit("respond_structured");
    assert(ANTHROPIC_STRUCTURED_OUTPUT_TOOL@.len() == 18);
    assert("none"@.len() == 4);
    assert("auto"@.len() == 4);
    assert("required"@.len() == 8);
}

/// Whether a declared tool says what a description says.
pub open spec fn declares(declared: AnthropicToolView, fields: Fields) -> bool {
    &&& says(fields, "name"@, declared.name)
    &&& declared.description matches Some(text) ==> says(fields, "description"@, text)
    &&& forall|text: Seq<char>| #[trigger]
        says(fields, "description"@, text) ==> declared.description == Some(text)
    &&& forall|parameters: Fields| #[trigger]
        holds_object(fields, "parameters"@, parameters) ==> declared.input_schema == JsonView::Fields(parameters)
    &&& !fields.dom().contains("parameters"@) ==> declared.input_schema == JsonView::Fields(
        Map::empty(),
    )
}

proof fn lemma_tool_declared(tools: Seq<JsonView>, fields: Fields, name: Seq<char>)
    requires
        says(fields, "type"@, "function"@),
        says(fields, "name"@, name),
    ensures
        anthropic_tools(tools.push(JsonView::Fields(fields))).len() == anthropic_tools(tools).len()
            + 1,
        anthropic_tools(tools.push(JsonView::Fields(fields))).drop_last() == anthropic_tools(tools),
        declares(anthropic_tools(tools.push(JsonView::Fields(fields))).last(), fields),
        anthropic_tools(tools.push(JsonView::Fields(fields))).last().name == name,
{
    let tool = JsonView::Fields(fields);
    assert(tools.push(tool).drop_last() =~= tools);
    law_fields_are_read_by_key(fields, "type"@, JsonView::Text("function"@));
    law_fields_are_read_by_key(fields, "name"@, JsonView::Text(name));
    assert(anthropic_tools(tools.push(tool)).drop_last() =~= anthropic_tools(tools));
    let declared = anthropic_tools(tools.push(tool)).last();
    if fields.dom().contains("description"@) {
        law_fields_are_read_by_key(fields, "description"@, fields["description"@]);
    } else {
        law_missing_fields_are_none(tool, "description"@);
    }
    if fields.dom().contains("parameters"@) {
        law_fields_are_read_by_key(fields, "parameters"@, fields["parameters"@]);
    } else {
        law_missing_fields_are_none(tool, "parameters"@);
    }
    assert(declares(declared, fields));
}

/// A function with a name is declared behind the tools before it: under its name,
/// with its description and with its parameters as they are.
pub proof fn law_functions_are_declared(
    req: UnifiedRequestView,
    tools: Seq<JsonView>,
    fields: Fields,
    name: Seq<char>,
)
    requires
        req.tools == Some(tools.push(JsonView::Fields(fields))),
        req.text is None,
        says(fields, "type"@, "function"@),
        says(fields, "name"@, name),
    ensures
        anthropic_request(req).tools matches Some(declared) && declares(declared.last(), fields)
            && declared.last().name == name && declared.len() == anthropic_tools(tools).len() + 1
            && forall|i: int|
            0 <= i < anthropic_tools(tools).len() ==> #[trigger] declared[i] == anthropic_tools(
                tools,
            )[i],
{
    lemma_tool_declared(tools, fields, name);
    let all = anthropic_tools(tools.push(JsonView::Fields(fields)));
    assert forall|i: int| 0 <= i < anthropic_tools(tools).len() implies #[trigger] all[i]
        == anthropic_tools(tools)[i] by {
        assert(all.drop_last()[i] == all[i]);
    }
}

/// Every function of a request that has a name and an object of parameters is
/// declared with exactly those parameters.
pub proof fn law_parameters_are_declared(
    req: UnifiedRequestView,
    tools: Seq<JsonView>,
    i: int,
    fields: Fields,
    name: Seq<char>,
    parameters: Fields,
)
    requires
        req.tools == Some(tools),
        0 <= i < tools.len(),
        tools[i] == JsonView::Fields(fields),
        says(fields, "type"@, "function"@),
        says(fields, "name"@, name),
        holds_object(fields, "parameters"@, parameters),
    ensures
        anthropic_request(req).tools matches Some(declared) && exists|k: int|
            0 <= k < declared.len() && (#[trigger] declared[k]).name == name
                && declared[k].input_schema == JsonView::Fields(parameters),
{
    lemma_tools_hold(tools, i, fields, name);
    let all = anthropic_tools(tools);
    let k = choose|k: int|
        0 <= k < all.len() && declares(#[trigger] all[k], fields) && all[k].name == name;
    let p = JsonView::Fields(parameters);
    assert(all[k].input_schema == p);
    let declared = anthropic_request(req).tools->0;
    assert(declared[k].name == name && declared[k].input_schema == p);
}

proof fn lemma_tools_hold(tools: Seq<JsonView>, i: int, fields: Fields, name: Seq<char>)
    requires
        0 <= i < tools.len(),
        tools[i] == JsonView::Fields(fields),
        says(fields, "type"@, "function"@),
        says(fields, "name"@, name),
    ensures
        exists|k: int|
            0 <= k < anthropic_tools(tools).len() && declares(
                #[trigger] anthropic_tools(tools)[k],
                fields,
            ) && anthropic_tools(tools)[k].name == name,
    decreases tools.len(),
{
    let rest = tools.drop_last();
    let all = anthropic_tools(tools);
    if i == tools.len() - 1 {
        assert(rest.push(JsonView::Fields(fields)) =~= tools);
        lemma_tool_declared(rest, fields, name);
        assert(declares(all[all.len() - 1], fields));
    } else {
        lemma_tools_hold(rest, i, fields, name);
        let before = anthropic_tools(rest);
        let k = choose|k: int|
            0 <= k < before.len() && declares(#[trigger] before[k], fields) && before[k].name == name;
        assert(all[k] == before[k]);
    }
}

/// A tool that is no function, or has no name, is not declared: the request is
/// the same without it.
pub proof fn law_other_tools_are_not_declared(tools: Seq<JsonView>, tool: JsonView)
    requires
        tool matches JsonView::Fields(fields) ==> !says(fields, "type"@, "function"@)
            || !fields.dom().contains("name"@),
    ensures
        anthropic_tools(tools.push(tool)) == anthropic_tools(tools),
{
    assert(tools.push(tool).drop_last() =~= tools);
    match tool {
        JsonView::Fields(fields) => {
            if fields.dom().contains("type"@) {
                law_fields_are_read_by_key(fields, "type"@, fields["type"@]);
            } else {
                law_missing_fields_are_none(tool, "type"@);
            }
            if !fields.dom().contains("name"@) {
                law_missing_fields_are_none(tool, "name"@);
            }
        },
        _ => {
            law_missing_fields_are_none(tool, "type"@);
        },
    }
}

/// Tools are chosen by the words of the protocol: none, any of them, one of them,
/// or the one that is named. Where calls may not run side by side the choice says
/// so, unless no tool is to be used.
pub proof fn law_tools_are_chosen(req: UnifiedRequestView)
    requires
        anthropic_request(req).tools is Some,
        req.text is None,
    ensures
        req.tool_choice.len() == 0 ==> anthropic_request(req).tool_choice is None,
        req.tool_choice.len() > 0 ==> (anthropic_request(req).tool_choice matches Some(choice) && {
            &&& req.tool_choice == "none"@ ==> choice.type_ == "none"@ && choice.name is None
            &&& req.tool_choice == "auto"@ ==> choice.type_ == "auto"@ && choice.name is None
            &&& req.tool_choice == "required"@ ==> choice.type_ == "any"@ && choice.name is None
            &&& req.tool_choice != "none"@ && req.tool_choice != "auto"@ && req.tool_choice
                != "required"@ ==> choice.type_ == "tool"@ && choice.name == Some(req.tool_choice)
            &&& choice.disable_parallel_tool_use == (if req.tool_choice != "none"@
                && !req.parallel_tool_calls {
                Some(true)
            } else {
                None
            })
        }),
{
    reveal_strlit("none");
    reveal_strlit("auto");
    reveal_strlit("required");
    assert("none"@[0] != "auto"@[0]);
    assert("none"@.len() != "required"@.len());
    assert("auto"@.len() != "required"@.len());
}

/// An effort asks for one budget: where the limit leaves less room than that, the
/// room is used, and with more room the budget stays.
pub proof fn law_thinking_uses_the_room(
    effort: Option<ReasoningEffortView>,
    small: u32,
    large: u32,
)
    requires
        small <= large,
        thinking_for(effort, large) is Some,
    ensures
        ({
            let most = thinking_for(effort, large)->0.budget_tokens;
            let room = small - ANTHROPIC_MIN_THINKING_TOKENS;
            &&& room >= most ==> thinking_for(effort, small) == thinking_for(effort, large)
            &&& ANTHROPIC_MIN_THINKING_TOKENS <= room < most ==> (thinking_for(effort, small) matches
                Some(t) && t.budget_tokens == room)
            &&& room < ANTHROPIC_MIN_THINKING_TOKENS ==> thinking_for(effort, small) is None
        }),
        thinking_for(effort, large)->0.type_ == "enabled"@,
{
}

/// A greater effort never thinks less, and who asks for no effort, or for hardly
/// any, gets no thinking.
pub proof fn law_greater_effort_thinks_more(max: u32)
    requires
        max >= ANTHROPIC_DEFAULT_MAX_TOKENS,
    ensures
        thinking_for(None, max) is None,
        thinking_for(Some(ReasoningEffortView::Off), max) is None,
        thinking_for(Some(ReasoningEffortView::Minimal), max) is None,
        ({
            let budget = |e: ReasoningEffortView| thinking_for(Some(e), max)->0.budget_tokens;
            &&& thinking_for(Some(ReasoningEffortView::Low), max) is Some
            &&& thinking_for(Some(ReasoningEffortView::Medium), max) is Some
            &&& thinking_for(Some(ReasoningEffortView::High), max) is Some
            &&& thinking_for(Some(ReasoningEffortView::XHigh), max) is Some
            &&& thinking_for(Some(ReasoningEffortView::Max), max) is Some
            &&& thinking_for(Some(ReasoningEffortView::Ultra), max) is Some
            &&& budget(ReasoningEffortView::Low) < budget(ReasoningEffortView::Medium)
            &&& budget(ReasoningEffortView::Medium) < budget(ReasoningEffortView::High)
            &&& budget(ReasoningEffortView::High) < budget(ReasoningEffortView::XHigh)
            &&& budget(ReasoningEffortView::XHigh) < budget(ReasoningEffortView::Max)
            &&& budget(ReasoningEffortView::Max) == budget(ReasoningEffortView::Ultra)
            &&& budget(ReasoningEffortView::Low) == 1_024
            &&& budget(ReasoningEffortView::Medium) == 4 * budget(ReasoningEffortView::Low)
            &&& budget(ReasoningEffortView::High) == 8 * budget(ReasoningEffortView::Low)
            &&& budget(ReasoningEffortView::XHigh) == 12 * budget(ReasoningEffortView::Low)
            &&& budget(ReasoningEffortView::Max) == 15 * budget(ReasoningEffortView::Low)
        }),
{
}

} // verus!
