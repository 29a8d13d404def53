//! What a Gemini request says, told from the request that it translates.

use vstd::prelude::*;
use vstd::string::*;

use crate::adapters::anthropic_laws::law_data_urls_are_taken_apart;
use crate::adapters::chat_laws::is_answer;
use crate::adapters::chat_laws::is_call;
use crate::adapters::chat_laws::is_text;
use crate::adapters::chat_laws::message;
use crate::adapters::common::data_url;
use crate::adapters::common::reasoning_text;
use crate::adapters::gemini::bare_parameters;
use crate::adapters::gemini::content_parts;
use crate::adapters::gemini::declarations;
use crate::adapters::gemini::drafted;
use crate::adapters::gemini::gemini_request;
use crate::adapters::gemini::generation_for;
use crate::adapters::gemini::prepared_request;
use crate::adapters::gemini::thinking_for;
use crate::adapters::gemini::with_item;
use crate::adapters::gemini::with_parts;
use crate::adapters::gemini::DraftView;
use crate::adapters::gemini_schema::accepted;
use crate::adapters::gemini_schema::law_accepted_is_unchanged;
use crate::adapters::gemini_schema::sanitized;
use crate::adapters::gemini_schema::stripped;
use crate::codec::parsed_json;
use crate::json::holds_object;
use crate::json::law_fields_are_read_by_key;
use crate::json::law_missing_fields_are_none;
use crate::json::says;
use crate::json::Fields;
use crate::json::JsonView;
use crate::models::ContentItemView;
use crate::models::FunctionCallOutputPayloadView;
use crate::models::ImageDetail;
use crate::models::ReasoningEffortView;
use crate::models::ReasoningItemContentView;
use crate::models::ResponseItemView;
use crate::text::has_part;
use crate::text::held;
use crate::tool_name::flat_name;
use crate::tool_name::ToolNameView;
use crate::unified::UnifiedRequestView;
use crate::wire::gemini::GeminiContentView;
use crate::wire::gemini::GeminiPartView;
use crate::wire::gemini::GeminiToolDeclarationView;

verus! {

/// Who says which part, content after content.
pub open spec fn spoken(contents: Seq<GeminiContentView>) -> Seq<(Seq<char>, GeminiPartView)>
    decreases contents.len(),
{
    if contents.len() == 0 {
        Seq::empty()
    } else {
        spoken(contents.drop_last()) + by_role(contents.last().role, contents.last().parts)
    }
}

/// Parts with who says them.
pub open spec fn by_role(role: Seq<char>, parts: Seq<GeminiPartView>) -> Seq<
    (Seq<char>, GeminiPartView),
> {
    Seq::new(parts.len(), |i: int| (role, parts[i]))
}

/// What one item of a conversation makes the request say by itself.
pub open spec fn told(item: ResponseItemView) -> Seq<(Seq<char>, GeminiPartView)> {
    spoken(drafted(seq![item]).contents)
}

proof fn lemma_spoken_with_parts(
    contents: Seq<GeminiContentView>,
    role: Seq<char>,
    parts: Seq<GeminiPartView>,
)
    ensures
        spoken(with_parts(contents, role, parts)) == spoken(contents) + by_role(role, parts),
{
    let after = with_parts(contents, role, parts);
    if parts.len() == 0 {
        assert(spoken(contents) + by_role(role, parts) =~= spoken(contents));
    } else if contents.len() > 0 && contents.last().role == role {
        assert(after.drop_last() =~= contents.drop_last());
        assert(by_role(role, contents.last().parts + parts) =~= by_role(
            role,
            contents.last().parts,
        ) + by_role(role, parts));
        assert(spoken(after) =~= spoken(contents) + by_role(role, parts));
    } else {
        assert(after.drop_last() =~= contents);
    }
}

proof fn lemma_from_nothing(role: Seq<char>, parts: Seq<GeminiPartView>)
    ensures
        spoken(with_parts(Seq::empty(), role, parts)) == by_role(role, parts),
{
    lemma_spoken_with_parts(Seq::empty(), role, parts);
    assert(Seq::<(Seq<char>, GeminiPartView)>::empty() + by_role(role, parts) =~= by_role(
        role,
        parts,
    ));
}

/// The draft of a conversation in which nothing was said.
pub open spec fn blank_draft() -> DraftView {
    DraftView { contents: Seq::empty(), names: Map::empty() }
}

proof fn lemma_single(item: ResponseItemView)
    ensures
        drafted(seq![item]) == with_item(blank_draft(), item),
{
    reveal_with_fuel(drafted, 2);
    assert(seq![item].drop_last() =~= Seq::<ResponseItemView>::empty());
}

/// A conversation is told item by item: one more item adds what it tells by
/// itself, behind all that was told before. An answer adds one part, by the
/// user.
pub proof fn law_conversation_is_told_item_by_item(
    items: Seq<ResponseItemView>,
    item: ResponseItemView,
)
    ensures
        spoken(drafted(Seq::empty()).contents).len() == 0,
        !(item is FunctionCallOutput) && !(item is CustomToolCallOutput) ==> spoken(
            drafted(items.push(item)).contents,
        ) == spoken(drafted(items).contents) + told(item),
        item is FunctionCallOutput || item is CustomToolCallOutput ==> {
            let after = spoken(drafted(items.push(item)).contents);
            &&& after.len() == spoken(drafted(items).contents).len() + 1
            &&& after.drop_last() == spoken(drafted(items).contents)
            &&& after.last().0 == "user"@
        },
{
    assert(items.push(item).drop_last() =~= items);
    let before = drafted(items);
    lemma_single(item);
    let none = Seq::<(Seq<char>, GeminiPartView)>::empty();
    match item {
        ResponseItemView::Message { role, content, .. } => {
            let parts = content_parts(content);
            lemma_role_words();
            if role == "user"@ || role == "assistant"@ {
                let own = told_role(role);
                lemma_spoken_with_parts(before.contents, own, parts);
                lemma_from_nothing(own, parts);
            } else {
                assert(spoken(before.contents) + none =~= spoken(before.contents));
            }
        },
        ResponseItemView::FunctionCall { name, namespace, arguments, call_id, .. } => {
            let flat = flat_name(ToolNameView { name, namespace });
            let parts = seq![crate::adapters::gemini::call_part(flat, arguments)];
            lemma_spoken_with_parts(before.contents, "model"@, parts);
            lemma_from_nothing("model"@, parts);
        },
        ResponseItemView::CustomToolCall { name, namespace, input, call_id, .. } => {
            let flat = flat_name(ToolNameView { name, namespace });
            let parts = seq![crate::adapters::gemini::call_part(flat, input)];
            lemma_spoken_with_parts(before.contents, "model"@, parts);
            lemma_from_nothing("model"@, parts);
        },
        ResponseItemView::FunctionCallOutput { call_id, output, .. } => {
            lemma_answer(before, call_id, output);
        },
        ResponseItemView::CustomToolCallOutput { call_id, output, .. } => {
            lemma_answer(before, call_id, output);
        },
        ResponseItemView::Reasoning { content, continuity_token, .. } => {
            if continuity_token is Some && reasoning_text(content).len() > 0 {
                let parts = seq![
                    GeminiPartView::Thought {
                        thought: true,
                        text: reasoning_text(content),
                        thought_signature: continuity_token,
                    },
                ];
                lemma_spoken_with_parts(before.contents, "model"@, parts);
                lemma_from_nothing("model"@, parts);
            } else {
                assert(spoken(before.contents) + none =~= spoken(before.contents));
            }
        },
        _ => {
            assert(spoken(before.contents) + none =~= spoken(before.contents));
        },
    }
}

proof fn lemma_answer(before: DraftView, call_id: Seq<char>, output: FunctionCallOutputPayloadView)
    ensures
        ({
            let part = crate::adapters::gemini::answer_part(
                before.names,
                call_id,
                output.text,
                output.success,
            );
            let after = spoken(with_parts(before.contents, "user"@, seq![part]));
            &&& after == spoken(before.contents).push(("user"@, part))
            &&& after.drop_last() == spoken(before.contents)
        }),
{
    let part = crate::adapters::gemini::answer_part(
        before.names,
        call_id,
        output.text,
        output.success,
    );
    lemma_spoken_with_parts(before.contents, "user"@, seq![part]);
    assert(spoken(before.contents) + by_role("user"@, seq![part]) =~= spoken(
        before.contents,
    ).push(("user"@, part)));
    assert(spoken(before.contents).push(("user"@, part)).drop_last() =~= spoken(before.contents));
}

/// What the protocol calls the two who speak: what the assistant said, the model
/// said.
pub open spec fn told_role(role: Seq<char>) -> Seq<char> {
    if role == "assistant"@ {
        "model"@
    } else {
        role
    }
}

proof fn lemma_role_words()
    ensures
        "user"@ != "assistant"@,
{
    reveal_strlit("user");
    reveal_strlit("assistant");
    assert("user"@.len() != "assistant"@.len());
}

proof fn lemma_message_told(role: Seq<char>, content: Seq<ContentItemView>)
    requires
        role == "user"@ || role == "assistant"@,
    ensures
        told(message(role, content)) == by_role(told_role(role), content_parts(content)),
{
    lemma_role_words();
    lemma_single(message(role, content));
    lemma_from_nothing(told_role(role), content_parts(content));
}

/// What the user said the user says, what the assistant said the model says, piece
/// by piece. What any other role said is not told.
pub proof fn law_messages_are_told_piece_by_piece(
    role: Seq<char>,
    content: Seq<ContentItemView>,
    piece: ContentItemView,
)
    ensures
        told(message(role, Seq::empty())).len() == 0,
        told(message(role, content.push(piece))) == told(message(role, content)) + told(
            message(role, seq![piece]),
        ),
        role == "user"@ ==> forall|i: int|
            0 <= i < told(message(role, content)).len() ==> (#[trigger] told(
                message(role, content),
            )[i]).0 == "user"@,
        role == "assistant"@ ==> forall|i: int|
            0 <= i < told(message(role, content)).len() ==> (#[trigger] told(
                message(role, content),
            )[i]).0 == "model"@,
        role != "user"@ && role != "assistant"@ ==> told(message(role, content)).len() == 0,
{
    lemma_role_words();
    if role == "user"@ || role == "assistant"@ {
        lemma_message_told(role, Seq::empty());
        lemma_message_told(role, content);
        lemma_message_told(role, seq![piece]);
        lemma_message_told(role, content.push(piece));
        assert(content.push(piece).drop_last() =~= content);
        assert(seq![piece].drop_last() =~= Seq::<ContentItemView>::empty());
        assert(content_parts(Seq::<ContentItemView>::empty()).len() == 0);
        reveal_with_fuel(content_parts, 2);
    } else {
        lemma_single(message(role, Seq::empty()));
        lemma_single(message(role, content));
        lemma_single(message(role, seq![piece]));
        lemma_single(message(role, content.push(piece)));
    }
    assert(told(message(role, content.push(piece))) =~= told(message(role, content)) + told(
        message(role, seq![piece]),
    ));
}

/// A text that is not empty is told as it is, whether it went in or came out.
pub proof fn law_texts_are_told(piece: ContentItemView, text: Seq<char>)
    requires
        is_text(piece, text),
    ensures
        text.len() > 0 ==> told(message("user"@, seq![piece])) == seq![
            ("user"@, GeminiPartView::Text { text }),
        ],
        text.len() > 0 ==> told(message("assistant"@, seq![piece])) == seq![
            ("model"@, GeminiPartView::Text { text }),
        ],
        text.len() == 0 ==> told(message("user"@, seq![piece])).len() == 0,
        text.len() == 0 ==> told(message("assistant"@, seq![piece])).len() == 0,
{
    lemma_role_words();
    lemma_message_told("user"@, seq![piece]);
    lemma_message_told("assistant"@, seq![piece]);
    assert(seq![piece].drop_last() =~= Seq::<ContentItemView>::empty());
    reveal_with_fuel(content_parts, 2);
    if text.len() > 0 {
        assert(told(message("user"@, seq![piece])) =~= seq![
            ("user"@, GeminiPartView::Text { text }),
        ]);
        assert(told(message("assistant"@, seq![piece])) =~= seq![
            ("model"@, GeminiPartView::Text { text }),
        ]);
    }
}

/// An image in a data URL is told with its media type and its data; an image at
/// any other address is not told.
pub proof fn law_images_are_told(
    url: Seq<char>,
    media_type: Seq<char>,
    data: Seq<char>,
    detail: Option<ImageDetail>,
)
    requires
        forall|i: int| 0 <= i < media_type.len() ==> media_type[i] != ',' && media_type[i] != ';',
    ensures
        ({
            let image = message("user"@, seq![ContentItemView::InputImage { image_url: url, detail }]);
            &&& url == "data:"@ + media_type + ";base64,"@ + data ==> told(image).len() == 1 && told(
                image,
            )[0].0 == "user"@ && (told(image)[0].1 matches GeminiPartView::InlineData { inline_data }
                && inline_data.mime_type == media_type && inline_data.data == data)
            &&& url.len() < 5 || url.take(5) != "data:"@ ==> told(image).len() == 0
        }),
{
    lemma_role_words();
    let piece = ContentItemView::InputImage { image_url: url, detail };
    lemma_message_told("user"@, seq![piece]);
    assert(seq![piece].drop_last() =~= Seq::<ContentItemView>::empty());
    reveal_with_fuel(content_parts, 2);
    law_data_urls_are_taken_apart(media_type, data);
    reveal_strlit("data:");
    if url.len() >= 5 {
        assert(url.subrange(0, 5) =~= url.take(5));
    }
    assert(url.len() < 5 || url.take(5) != "data:"@ ==> data_url(url) is None);
}

/// A call is told by the model, with the flat name of its tool and its arguments:
/// an object as it is, and anything else as the object without fields.
pub proof fn law_calls_are_told(
    item: ResponseItemView,
    name: Seq<char>,
    namespace: Option<Seq<char>>,
    arguments: Seq<char>,
    call_id: Seq<char>,
)
    requires
        is_call(item, name, namespace, arguments, call_id),
    ensures
        told(item).len() == 1,
        told(item)[0].0 == "model"@,
        told(item)[0].1 matches GeminiPartView::FunctionCall { function_call } && {
            &&& function_call.name == flat_name(ToolNameView { name, namespace })
            &&& parsed_json(arguments) matches Some(JsonView::Fields(fields)) ==> function_call.args
                == JsonView::Fields(fields)
            &&& !(parsed_json(arguments) matches Some(JsonView::Fields(_))) ==> function_call.args
                == JsonView::Fields(Map::empty())
        },
{
    lemma_single(item);
    let flat = flat_name(ToolNameView { name, namespace });
    let part = crate::adapters::gemini::call_part(flat, arguments);
    lemma_from_nothing("model"@, seq![part]);
    assert(told(item) =~= seq![("model"@, part)]);
}

/// Whether an item is a call with an id.
pub open spec fn calls(item: ResponseItemView, call_id: Seq<char>) -> bool {
    match item {
        ResponseItemView::FunctionCall { call_id: c, .. } => c == call_id,
        ResponseItemView::CustomToolCall { call_id: c, .. } => c == call_id,
        _ => false,
    }
}

proof fn lemma_names(items: Seq<ResponseItemView>, call_id: Seq<char>)
    ensures
        (forall|i: int| 0 <= i < items.len() ==> !calls(#[trigger] items[i], call_id)) ==> held(
            drafted(items).names,
            call_id,
        ) is None,
        forall|k: int, name: Seq<char>, namespace: Option<Seq<char>>, arguments: Seq<char>|
            0 <= k < items.len() && #[trigger] is_call(
                items[k],
                name,
                namespace,
                arguments,
                call_id,
            ) && (forall|i: int| k < i < items.len() ==> !calls(#[trigger] items[i], call_id))
                ==> held(drafted(items).names, call_id) == Some(
                flat_name(ToolNameView { name, namespace }),
            ),
    decreases items.len(),
{
    if items.len() > 0 {
        let rest = items.drop_last();
        lemma_names(rest, call_id);
        let last = items.len() - 1;
        if forall|i: int| 0 <= i < items.len() ==> !calls(#[trigger] items[i], call_id) {
            assert(!calls(items[last], call_id));
            assert forall|i: int| 0 <= i < rest.len() implies !calls(#[trigger] rest[i], call_id) by {
                assert(!calls(items[i], call_id));
            }
        }
        assert forall|k: int, name: Seq<char>, namespace: Option<Seq<char>>, arguments: Seq<char>|
            0 <= k < items.len() && #[trigger] is_call(
                items[k],
                name,
                namespace,
                arguments,
                call_id,
            ) && (forall|i: int|
                k < i < items.len() ==> !calls(#[trigger] items[i], call_id)) implies held(
            drafted(items).names,
            call_id,
        ) == Some(flat_name(ToolNameView { name, namespace })) by {
            if k < last {
                assert(!calls(items[last], call_id));
                assert(is_call(rest[k], name, namespace, arguments, call_id));
                assert forall|i: int| k < i < rest.len() implies !calls(
                    #[trigger] rest[i],
                    call_id,
                ) by {
                    assert(!calls(items[i], call_id));
                }
            }
        }
    }
}

/// The answer of a tool names the tool by the last call with its id, and by that
/// id where there was no such call. A failure is told as an error, an object as it
/// is, and anything else as output.
pub proof fn law_answers_are_told(
    items: Seq<ResponseItemView>,
    item: ResponseItemView,
    call_id: Seq<char>,
    output: FunctionCallOutputPayloadView,
    text: Seq<char>,
)
    requires
        is_answer(item, call_id, output),
        output.text == Some(text),
    ensures
        spoken(drafted(items.push(item)).contents).last().1 matches GeminiPartView::FunctionResponse {
            function_response,
        } && {
            &&& forall|k: int, name: Seq<char>, namespace: Option<Seq<char>>, arguments: Seq<char>|
                0 <= k < items.len() && #[trigger] is_call(
                    items[k],
                    name,
                    namespace,
                    arguments,
                    call_id,
                ) && (forall|i: int| k < i < items.len() ==> !calls(#[trigger] items[i], call_id))
                    ==> function_response.name == flat_name(ToolNameView { name, namespace })
            &&& (forall|i: int| 0 <= i < items.len() ==> !calls(#[trigger] items[i], call_id))
                ==> function_response.name == call_id
            &&& output.success == Some(false) ==> function_response.response == JsonView::Fields(
                map!["error"@ => JsonView::Text(text)],
            )
            &&& output.success != Some(false) ==> (parsed_json(text) matches Some(
                JsonView::Fields(fields),
            ) ==> function_response.response == JsonView::Fields(fields))
            &&& output.success != Some(false) && !(parsed_json(text) matches Some(
                JsonView::Fields(_),
            )) ==> function_response.response == JsonView::Fields(
                map!["output"@ => JsonView::Text(text)],
            )
        },
{
    assert(items.push(item).drop_last() =~= items);
    lemma_answer(drafted(items), call_id, output);
    lemma_names(items, call_id);
    lemma_single_text("error"@, text);
    lemma_single_text("output"@, text);
}

proof fn lemma_single_text(key: Seq<char>, text: Seq<char>)
    ensures
        crate::adapters::gemini::single_text(key, text) == JsonView::Fields(
            map![key => JsonView::Text(text)],
        ),
{
    let pairs = Seq::<(Seq<char>, JsonView)>::empty() + seq![(key, JsonView::Text(text))];
    assert(pairs.drop_last() =~= Seq::<(Seq<char>, JsonView)>::empty());
    reveal_with_fuel(crate::json::pair_map, 2);
    assert(crate::json::pair_map(pairs) =~= map![key => JsonView::Text(text)]);
}

/// Reasoning is told by the model as a thought with its signature, all its pieces
/// joined. Without a signature it is not told.
pub proof fn law_signed_reasoning_is_told(
    pieces: Seq<ReasoningItemContentView>,
    signature: Option<Seq<char>>,
)
    ensures
        ({
            let item = ResponseItemView::Reasoning {
                id: None,
                summary: Seq::empty(),
                content: Some(pieces),
                encrypted_content: None,
                continuity_token: signature,
            };
            &&& signature is None ==> told(item).len() == 0
            &&& reasoning_text(Some(pieces)).len() == 0 ==> told(item).len() == 0
            &&& signature is Some && reasoning_text(Some(pieces)).len() > 0 ==> told(item) == seq![
                (
                    "model"@,
                    GeminiPartView::Thought {
                        thought: true,
                        text: reasoning_text(Some(pieces)),
                        thought_signature: signature,
                    },
                ),
            ]
        }),
{
    let item = ResponseItemView::Reasoning {
        id: None,
        summary: Seq::empty(),
        content: Some(pieces),
        encrypted_content: None,
        continuity_token: signature,
    };
    lemma_single(item);
    if signature is Some && reasoning_text(Some(pieces)).len() > 0 {
        let part = GeminiPartView::Thought {
            thought: true,
            text: reasoning_text(Some(pieces)),
            thought_signature: signature,
        };
        lemma_from_nothing("model"@, seq![part]);
        assert(told(item) =~= seq![("model"@, part)]);
    }
}

/// A request carries the conversation, the instructions as the system's, and the
/// provider's limit.
pub proof fn law_request_carries_the_conversation(req: UnifiedRequestView, max: Option<u32>)
    ensures
        prepared_request(req, max).contents == drafted(req.input).contents,
        prepared_request(req, max).tools == gemini_request(req).tools,
        prepared_request(req, max).tool_config == gemini_request(req).tool_config,
        req.instructions.len() == 0 ==> prepared_request(req, max).system_instruction is None,
        req.instructions.len() > 0 ==> (prepared_request(req, max).system_instruction matches Some(
            system,
        ) && system.parts == seq![GeminiPartView::Text { text: req.instructions }]),
        prepared_request(req, max).generation_config matches Some(generation)
            && generation.max_output_tokens == max && generation.thinking_config == thinking_for(
            match req.reasoning {
                Some(reasoning) => reasoning.effort,
                None => None,
            },
            req.model,
        ),
{
}

/// An answer with a schema is asked for as JSON in that schema; without a schema
/// neither is asked for.
pub proof fn law_answer_form_is_the_schema(req: UnifiedRequestView, max: Option<u32>)
    ensures
        req.text is None ==> generation_for(req, max).response_schema is None && generation_for(
            req,
            max,
        ).response_mime_type is None,
        req.text matches Some(text) ==> (text.format matches Some(format) ==> {
            &&& generation_for(req, max).response_mime_type == Some("application/json"@)
            &&& accepted(format.schema) && stripped(format.schema) == format.schema
                ==> generation_for(req, max).response_schema == Some(format.schema)
            &&& generation_for(req, max).response_schema == Some(sanitized(stripped(format.schema)))
        }),
{
    if let Some(text) = req.text {
        if let Some(format) = text.format {
            if accepted(format.schema) {
                law_accepted_is_unchanged(format.schema);
            }
        }
    }
}

/// Whether a declared tool says what a description says: parameters that the
/// protocol accepts are declared as they are.
pub open spec fn declares(declared: GeminiToolDeclarationView, fields: Fields) -> bool {
    &&& says(fields, "name"@, declared.name)
    &&& declared.description matches Some(text) ==> says(fields, "description"@, text)
    &&& forall|text: Seq<char>| #[trigger]
        says(fields, "description"@, text) ==> declared.description == Some(text)
    &&& forall|parameters: Fields| #[trigger]
        holds_object(fields, "parameters"@, parameters) ==> declared.parameters == Some(
            sanitized(JsonView::Fields(parameters)),
        ) && (accepted(JsonView::Fields(parameters)) ==> declared.parameters == Some(
            JsonView::Fields(parameters),
        ))
    &&& !fields.dom().contains("parameters"@) ==> declared.parameters == Some(
        JsonView::Fields(map!["type"@ => JsonView::Text("object"@)]),
    )
}

proof fn lemma_tool_declared(tools: Seq<JsonView>, fields: Fields, name: Seq<char>)
    requires
        says(fields, "type"@, "function"@),
        says(fields, "name"@, name),
    ensures
        declarations(tools.push(JsonView::Fields(fields))).len() == declarations(tools).len() + 1,
        declarations(tools.push(JsonView::Fields(fields))).drop_last() == declarations(tools),
        declares(declarations(tools.push(JsonView::Fields(fields))).last(), fields),
        declarations(tools.push(JsonView::Fields(fields))).last().name == name,
{
    let tool = JsonView::Fields(fields);
    assert(tools.push(tool).drop_last() =~= tools);
    law_fields_are_read_by_key(fields, "type"@, JsonView::Text("function"@));
    law_fields_are_read_by_key(fields, "name"@, JsonView::Text(name));
    assert(declarations(tools.push(tool)).drop_last() =~= declarations(tools));
    if fields.dom().contains("description"@) {
        law_fields_are_read_by_key(fields, "description"@, fields["description"@]);
    } else {
        law_missing_fields_are_none(tool, "description"@);
    }
    if fields.dom().contains("parameters"@) {
        law_fields_are_read_by_key(fields, "parameters"@, fields["parameters"@]);
        if accepted(fields["parameters"@]) {
            law_accepted_is_unchanged(fields["parameters"@]);
        }
    } else {
        law_missing_fields_are_none(tool, "parameters"@);
        lemma_single_text("type"@, "object"@);
        lemma_bare_accepted();
        law_accepted_is_unchanged(bare_parameters());
    }
}

proof fn lemma_bare_accepted()
    ensures
        accepted(bare_parameters()),
{
    lemma_single_text("type"@, "object"@);
    let fields = map!["type"@ => JsonView::Text("object"@)];
    law_fields_are_read_by_key(fields, "type"@, JsonView::Text("object"@));
    reveal_strlit("type");
    reveal_strlit("object");
    reveal_strlit("array");
    reveal_strlit("enum");
    reveal_strlit("properties");
    reveal_strlit("required");
    assert("array"@.len() != "object"@.len());
    assert("type"@[0] != "enum"@[0]);
    assert("type"@.len() != "properties"@.len());
    assert("type"@.len() != "required"@.len());
    assert(!fields.dom().contains("enum"@));
    assert(!fields.dom().contains("properties"@));
    assert(!fields.dom().contains("required"@));
}

/// A function with a name is declared behind the tools before it: under its name,
/// with its description and with its parameters. A request without functions
/// declares no tools.
pub proof fn law_functions_are_declared(
    req: UnifiedRequestView,
    tools: Seq<JsonView>,
    fields: Fields,
    name: Seq<char>,
)
    requires
        req.tools == Some(tools.push(JsonView::Fields(fields))),
        says(fields, "type"@, "function"@),
        says(fields, "name"@, name),
    ensures
        gemini_request(req).tools matches Some(declared) && declared.len() == 1 && {
            let all = declared[0].function_declarations;
            &&& all.len() == declarations(tools).len() + 1
            &&& all.drop_last() == declarations(tools)
            &&& declares(all.last(), fields)
            &&& all.last().name == name
        },
        gemini_request(UnifiedRequestView { tools: None, ..req }).tools is None,
        gemini_request(UnifiedRequestView { tools: Some(Seq::empty()), ..req }).tools is None,
{
    lemma_tool_declared(tools, fields, name);
}

/// A tool that is no function, or has no name, is not declared.
pub proof fn law_other_tools_are_not_declared(tools: Seq<JsonView>, tool: JsonView)
    requires
        tool matches JsonView::Fields(fields) ==> !says(fields, "type"@, "function"@)
            || !fields.dom().contains("name"@),
    ensures
        declarations(tools.push(tool)) == declarations(tools),
{
    assert(tools.push(tool).drop_last() =~= tools);
    match tool {
        JsonView::Fields(fields) => {
            if fields.dom().contains("type"@) {
                law_fields_are_read_by_key(fields, "type"@, fields["type"@]);
            } else {
                law_missing_fields_are_none(tool, "type"@);
            }
            if !fields.dom().contains("name"@) {
                law_missing_fields_are_none(tool, "name"@);
            }
        },
        _ => {
            law_missing_fields_are_none(tool, "type"@);
        },
    }
}

/// Tools are chosen by the words of the protocol: none, any of them, one of them,
/// or the one that is named. Where there are no tools, none is chosen.
pub proof fn law_tools_are_chosen(req: UnifiedRequestView)
    ensures
        gemini_request(req).tools is None ==> gemini_request(req).tool_config is None,
        req.tool_choice.len() == 0 ==> gemini_request(req).tool_config is None,
        gemini_request(req).tools is Some && req.tool_choice.len() > 0 ==> (gemini_request(
            req,
        ).tool_config matches Some(choice) && {
            let config = choice.function_calling_config;
            &&& req.tool_choice == "none"@ ==> config.mode == "NONE"@
            &&& req.tool_choice == "auto"@ ==> config.mode == "AUTO"@
            &&& req.tool_choice != "none"@ && req.tool_choice != "auto"@ ==> config.mode == "ANY"@
            &&& req.tool_choice == "none"@ || req.tool_choice == "auto"@ || req.tool_choice
                == "required"@ ==> config.allowed_function_names is None
            &&& req.tool_choice != "none"@ && req.tool_choice != "auto"@ && req.tool_choice
                != "required"@ ==> config.allowed_function_names == Some(seq![req.tool_choice])
        }),
{
    reveal_strlit("none");
    reveal_strlit("auto");
    reveal_strlit("required");
    assert("none"@[0] != "auto"@[0]);
    assert("none"@.len() != "required"@.len());
    assert("auto"@.len() != "required"@.len());
}

/// A model that thinks by budget is given one, and one that thinks by level a
/// level; the greater the effort, the more. A model of another name is left alone.
pub proof fn law_models_think_their_way(effort: Option<ReasoningEffortView>, model: Seq<char>)
    ensures
        has_part(model, "gemini-2.5"@) ==> (thinking_for(effort, model) matches Some(t)
            && t.thinking_budget is Some && t.thinking_level is None && (t.include_thoughts == Some(
            true,
        ) <==> t.thinking_budget != Some(0i32))),
        !has_part(model, "gemini-2.5"@) && has_part(model, "gemini-3"@) ==> (thinking_for(
            effort,
            model,
        ) matches Some(t) && t.thinking_budget is None && t.thinking_level is Some
            && t.include_thoughts == Some(true)),
        !has_part(model, "gemini-2.5"@) && !has_part(model, "gemini-3"@) ==> thinking_for(
            effort,
            model,
        ) is None,
        has_part(model, "gemini-2.5"@) ==> {
            let budget = |e: ReasoningEffortView|
                thinking_for(Some(e), model)->0.thinking_budget->0;
            &&& thinking_for(None, model)->0.thinking_budget == Some(0i32)
            &&& budget(ReasoningEffortView::Off) == 0
            &&& budget(ReasoningEffortView::Minimal) == 0
            &&& 0 < budget(ReasoningEffortView::Low) < budget(ReasoningEffortView::Medium)
            &&& budget(ReasoningEffortView::Medium) < budget(ReasoningEffortView::High)
            &&& budget(ReasoningEffortView::High) < budget(ReasoningEffortView::XHigh)
            &&& budget(ReasoningEffortView::XHigh) < budget(ReasoningEffortView::Max)
            &&& budget(ReasoningEffortView::Max) == budget(ReasoningEffortView::Ultra)
            &&& budget(ReasoningEffortView::Low) == 2_048
            &&& budget(ReasoningEffortView::Medium) == 4 * budget(ReasoningEffortView::Low)
            &&& budget(ReasoningEffortView::High) == 2 * budget(ReasoningEffortView::Medium)
            &&& budget(ReasoningEffortView::XHigh) == 10 * budget(ReasoningEffortView::Low)
            &&& budget(ReasoningEffortView::Max) == 12 * budget(ReasoningEffortView::Low)
        },
        !has_part(model, "gemini-2.5"@) && has_part(model, "gemini-3"@) ==> {
            let level = |e: ReasoningEffortView| thinking_for(Some(e), model)->0.thinking_level->0;
            &&& thinking_for(None, model)->0.thinking_level == Some("minimal"@)
            &&& level(ReasoningEffortView::Off) == "minimal"@
            &&& level(ReasoningEffortView::Minimal) == "minimal"@
            &&& level(ReasoningEffortView::Low) == "low"@
            &&& level(ReasoningEffortView::Medium) == "medium"@
            &&& level(ReasoningEffortView::High) == "high"@
            &&& level(ReasoningEffortView::XHigh) == "high"@
            &&& level(ReasoningEffortView::Max) == "high"@
            &&& level(ReasoningEffortView::Ultra) == "high"@
        },
{
}

} // verus!
