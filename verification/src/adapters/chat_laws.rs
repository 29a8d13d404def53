//! What a Chat Completions request says, told from the request that it
//! translates.

use vstd::prelude::*;
use vstd::string::*;

use crate::adapters::chat::chat_request;
use crate::adapters::chat::chat_tools;
use crate::adapters::chat::content_text;
use crate::adapters::chat::has_image;
use crate::adapters::chat::message_content;
use crate::adapters::chat::opening;
use crate::adapters::chat::with_item;
use crate::adapters::chat::with_items;
use crate::json::doc_field;
use crate::json::law_fields_are_read_by_key;
use crate::json::law_missing_fields_are_none;
use crate::json::law_objects_hold_their_pairs;
use crate::json::object_doc;
use crate::json::says;
use crate::json::text_field;
use crate::json::Fields;
use crate::json::JsonView;
use crate::models::effort_name;
use crate::models::ContentItemView;
use crate::models::FunctionCallOutputPayloadView;
use crate::models::ImageDetail;
use crate::models::ResponseItemView;
use crate::tool_name::flat_name;
use crate::tool_name::ToolNameView;
use crate::unified::UnifiedRequestView;
use crate::wire::chat::ChatMessageView;
use crate::wire::chat::ChatToolCallView;

verus! {

/// A message of a conversation.
pub open spec fn message(role: Seq<char>, content: Seq<ContentItemView>) -> ResponseItemView {
    ResponseItemView::Message { id: None, role, content, phase: None }
}

/// The messages that one item of a conversation makes by itself.
pub open spec fn told(item: ResponseItemView) -> Seq<ChatMessageView> {
    with_items(Seq::empty(), seq![item])
}

/// Whether a piece of a message is this text, whether it went in or came out.
pub open spec fn is_text(piece: ContentItemView, text: Seq<char>) -> bool {
    piece == (ContentItemView::InputText { text }) || piece == (ContentItemView::OutputText {
        text,
    })
}

/// Whether an item is a call.
pub open spec fn is_call(
    item: ResponseItemView,
    name: Seq<char>,
    namespace: Option<Seq<char>>,
    arguments: Seq<char>,
    call_id: Seq<char>,
) -> bool {
    match item {
        ResponseItemView::FunctionCall { name: n, namespace: s, arguments: a, call_id: c, .. } => n
            == name && s == namespace && a == arguments && c == call_id,
        ResponseItemView::CustomToolCall { name: n, namespace: s, input: a, call_id: c, .. } => n
            == name && s == namespace && a == arguments && c == call_id,
        _ => false,
    }
}

/// Whether an item is the answer of a tool.
pub open spec fn is_answer(
    item: ResponseItemView,
    call_id: Seq<char>,
    output: FunctionCallOutputPayloadView,
) -> bool {
    match item {
        ResponseItemView::FunctionCallOutput { call_id: c, output: o, .. } => c == call_id && o
            == output,
        ResponseItemView::CustomToolCallOutput { call_id: c, output: o, .. } => c == call_id && o
            == output,
        _ => false,
    }
}

proof fn lemma_single(item: ResponseItemView)
    ensures
        told(item) == with_item(Seq::empty(), item),
{
    reveal_with_fuel(with_items, 2);
    assert(seq![item].drop_last() =~= Seq::<ResponseItemView>::empty());
}

/// The instructions open the request as a message of the system; without
/// instructions there is none.
pub proof fn law_instructions_open_the_request(req: UnifiedRequestView)
    requires
        req.input.len() == 0,
    ensures
        req.instructions.len() == 0 ==> chat_request(req).messages.len() == 0,
        req.instructions.len() > 0 ==> {
            &&& chat_request(req).messages.len() == 1
            &&& chat_request(req).messages[0].role == "system"@
            &&& chat_request(req).messages[0].content == Some(JsonView::Text(req.instructions))
            &&& chat_request(req).messages[0].tool_calls is None
            &&& chat_request(req).messages[0].tool_call_id is None
        },
{
}

/// One more item of the conversation that is no call adds what it tells by
/// itself behind all messages before.
pub proof fn law_items_are_told_in_order(
    req: UnifiedRequestView,
    items: Seq<ResponseItemView>,
    item: ResponseItemView,
)
    requires
        req.input == items.push(item),
        !(item is FunctionCall),
        !(item is CustomToolCall),
    ensures
        chat_request(req).messages == chat_request(
            UnifiedRequestView { input: items, ..req },
        ).messages + told(item),
{
    assert(items.push(item).drop_last() =~= items);
    lemma_single(item);
    let before = with_items(opening(req.instructions), items);
    assert(with_item(before, item) =~= before + with_item(Seq::empty(), item));
}

/// One more call joins the calls of the last message when that one makes calls,
/// and opens a message of the assistant otherwise. What came before stays.
pub proof fn law_calls_are_told_in_order(
    req: UnifiedRequestView,
    items: Seq<ResponseItemView>,
    item: ResponseItemView,
    name: Seq<char>,
    namespace: Option<Seq<char>>,
    arguments: Seq<char>,
    call_id: Seq<char>,
)
    requires
        req.input == items.push(item),
        is_call(item, name, namespace, arguments, call_id),
    ensures
        ({
            let before = chat_request(UnifiedRequestView { input: items, ..req }).messages;
            let after = chat_request(req).messages;
            let joins = before.len() > 0 && before.last().role == "assistant"@
                && before.last().tool_calls is Some;
            &&& after.len() == (if joins {
                before.len()
            } else {
                before.len() + 1
            })
            &&& forall|i: int| 0 <= i < after.len() - 1 ==> #[trigger] after[i] == before[i]
            &&& after.last().role == "assistant"@
            &&& after.last().tool_call_id is None || joins
            &&& after.last().tool_calls matches Some(calls) && {
                &&& calls.len() > 0
                &&& calls.last().id == call_id
                &&& calls.last().kind == "function"@
                &&& calls.last().function.name == flat_name(ToolNameView { name, namespace })
                &&& calls.last().function.arguments == arguments
                &&& calls.drop_last() == (if joins {
                    before.last().tool_calls->0
                } else {
                    Seq::<ChatToolCallView>::empty()
                })
            }
            &&& joins ==> after.last().content == before.last().content
        }),
{
    assert(items.push(item).drop_last() =~= items);
    let before = with_items(opening(req.instructions), items);
    let after = with_item(before, item);
    let calls = after.last().tool_calls->0;
    if before.len() > 0 && before.last().role == "assistant"@ && before.last().tool_calls is Some {
        assert(calls.drop_last() =~= before.last().tool_calls->0);
    } else {
        assert(calls.drop_last() =~= Seq::<ChatToolCallView>::empty());
    }
}

/// The answer of a tool is one message with the tool's role, the id of the call
/// that it answers, and the tool's text.
pub proof fn law_answers_are_told(
    item: ResponseItemView,
    call_id: Seq<char>,
    output: FunctionCallOutputPayloadView,
)
    requires
        is_answer(item, call_id, output),
    ensures
        told(item).len() == 1,
        told(item)[0].role == "tool"@,
        told(item)[0].tool_call_id == Some(call_id),
        told(item)[0].tool_calls is None,
        output.text matches Some(text) ==> told(item)[0].content == Some(JsonView::Text(text)),
        output.text is None ==> told(item)[0].content == Some(JsonView::Text(Seq::empty())),
{
    lemma_single(item);
}

/// A message is told under its role, and one for developers under the role of the
/// system. A message with nothing to say is not told.
pub proof fn law_messages_are_told(role: Seq<char>, content: Seq<ContentItemView>)
    ensures
        message_content(content) is None ==> told(message(role, content)).len() == 0,
        message_content(content) is Some ==> {
            let all = told(message(role, content));
            &&& all.len() == 1
            &&& all[0].content == message_content(content)
            &&& role != "developer"@ ==> all[0].role == role
            &&& role == "developer"@ ==> all[0].role == "system"@
            &&& all[0].tool_calls is None
            &&& all[0].tool_call_id is None
        },
{
    lemma_single(message(role, content));
}

proof fn lemma_no_image(content: Seq<ContentItemView>, piece: ContentItemView)
    requires
        !has_image(content),
        !(piece is InputImage),
    ensures
        !has_image(content.push(piece)),
{
    let more = content.push(piece);
    if has_image(more) {
        let i = choose|i: int| 0 <= i < more.len() && (#[trigger] more[i]) is InputImage;
        if i < content.len() {
            assert(content[i] is InputImage);
        }
    }
}

/// A message without images says its texts one after the other, those that went
/// in and those that came out: one more text is said behind the others, and a
/// message that says nothing so far says just that text.
pub proof fn law_texts_are_told(content: Seq<ContentItemView>, piece: ContentItemView, text: Seq<char>)
    requires
        forall|i: int| 0 <= i < content.len() ==> !((#[trigger] content[i]) is InputImage),
        is_text(piece, text),
    ensures
        message_content(Seq::empty()) is None,
        message_content(content) is None && text.len() == 0 ==> message_content(content.push(piece))
            is None,
        message_content(content) is None && text.len() > 0 ==> message_content(content.push(piece))
            == Some(JsonView::Text(text)),
        message_content(content) is Some ==> (message_content(content) matches Some(
            JsonView::Text(before),
        ) && message_content(content.push(piece)) == Some(JsonView::Text(before + text))),
        message_content(seq![piece]) == (if text.len() > 0 {
            Some(JsonView::Text(text))
        } else {
            None
        }),
{
    assert(!has_image(content));
    assert(!has_image(Seq::<ContentItemView>::empty()));
    assert(content_text(Seq::<ContentItemView>::empty()).len() == 0);
    lemma_no_image(content, piece);
    assert(content.push(piece).drop_last() =~= content);
    lemma_no_image(Seq::empty(), piece);
    assert(Seq::<ContentItemView>::empty().push(piece) =~= seq![piece]);
    assert(seq![piece].drop_last() =~= Seq::<ContentItemView>::empty());
    reveal_with_fuel(content_text, 2);
    assert(Seq::<char>::empty() + text =~= text);
    if content_text(content).len() == 0 {
        assert(content_text(content) =~= Seq::<char>::empty());
        assert(content_text(content) + text =~= text);
    }
}

/// A message with an image says all its pieces, each by itself and in order: a
/// text as a text, an image by its address.
pub proof fn law_images_are_told(content: Seq<ContentItemView>, k: int, i: int)
    requires
        0 <= k < content.len(),
        content[k] is InputImage,
        0 <= i < content.len(),
    ensures
        message_content(content) matches Some(JsonView::List(parts)) && {
            &&& parts.len() == content.len()
            &&& match content[i] {
                ContentItemView::InputText { text } => text_field(parts[i], "type"@) == Some(
                    "text"@,
                ) && text_field(parts[i], "text"@) == Some(text),
                ContentItemView::OutputText { text } => text_field(parts[i], "type"@) == Some(
                    "text"@,
                ) && text_field(parts[i], "text"@) == Some(text),
                ContentItemView::InputImage { image_url, detail } => {
                    &&& text_field(parts[i], "type"@) == Some("image_url"@)
                    &&& doc_field(parts[i], "image_url"@) matches Some(image) && {
                        &&& text_field(image, "url"@) == Some(image_url)
                        &&& detail is None ==> doc_field(image, "detail"@) is None
                        &&& detail == Some(ImageDetail::Low) ==> text_field(image, "detail"@)
                            == Some("low"@)
                        &&& detail == Some(ImageDetail::High) ==> text_field(image, "detail"@)
                            == Some("high"@)
                        &&& detail == Some(ImageDetail::Auto) || detail == Some(
                            ImageDetail::Original,
                        ) ==> text_field(image, "detail"@) == Some("auto"@)
                    }
                },
            }
        },
{
    assert(has_image(content));
    match content[i] {
        ContentItemView::InputText { text } => {
            lemma_text_part(text);
        },
        ContentItemView::OutputText { text } => {
            lemma_text_part(text);
        },
        ContentItemView::InputImage { image_url, detail } => {
            lemma_image_part(image_url, detail);
        },
    }
}

proof fn lemma_text_part(text: Seq<char>)
    ensures
        text_field(crate::adapters::chat::text_part(text), "type"@) == Some("text"@),
        text_field(crate::adapters::chat::text_part(text), "text"@) == Some(text),
{
    lemma_part_words();
    let pairs = Seq::<(Seq<char>, JsonView)>::empty() + seq![("type"@, JsonView::Text("text"@))]
        + seq![("text"@, JsonView::Text(text))];
    assert(pairs[0].0 == "type"@ && pairs[1].0 == "text"@);
    law_objects_hold_their_pairs(pairs, "type"@);
    law_objects_hold_their_pairs(pairs, "text"@);
}

proof fn lemma_image_part(url: Seq<char>, detail: Option<ImageDetail>)
    ensures
        ({
            let part = crate::adapters::chat::image_part(url, detail);
            &&& text_field(part, "type"@) == Some("image_url"@)
            &&& doc_field(part, "image_url"@) matches Some(image) && {
                &&& text_field(image, "url"@) == Some(url)
                &&& detail is None ==> doc_field(image, "detail"@) is None
                &&& detail matches Some(d) ==> text_field(image, "detail"@) == Some(
                    crate::adapters::chat::detail_name(d),
                )
            }
        }),
{
    lemma_part_words();
    let none = Seq::<(Seq<char>, JsonView)>::empty();
    let address = none + seq![("url"@, JsonView::Text(url))];
    let value = match detail {
        Some(d) => Some(JsonView::Text(crate::adapters::chat::detail_name(d))),
        None => None,
    };
    assert(address[0].0 == "url"@);
    law_objects_hold_their_pairs(address, "url"@);
    law_objects_hold_their_pairs(address, "detail"@);
    lemma_optional_pair(address, "detail"@, value, "url"@);
    lemma_optional_pair(address, "detail"@, value, "detail"@);
    let pairs = none + seq![("type"@, JsonView::Text("image_url"@))] + seq![
        ("image_url"@, object_doc(address + crate::json::optional_pair("detail"@, value))),
    ];
    assert(pairs[0].0 == "type"@ && pairs[1].0 == "image_url"@);
    law_objects_hold_their_pairs(pairs, "type"@);
    law_objects_hold_their_pairs(pairs, "image_url"@);
}

proof fn lemma_part_words()
    ensures
        "type"@ != "text"@,
        "type"@ != "image_url"@,
        "url"@ != "detail"@,
{
    reveal_strlit("type");
    reveal_strlit("text");
    reveal_strlit("image_url");
    reveal_strlit("url");
    reveal_strlit("detail");
    assert("type"@[1] != "text"@[1]);
    assert("type"@.len() != "image_url"@.len());
    assert("url"@.len() != "detail"@.len());
}

/// A request carries the model, the choice of tools, whether calls may run side by
/// side, the effort, the service tier, and whether it streams; a stream is asked
/// to report its usage.
pub proof fn law_request_carries_its_settings(req: UnifiedRequestView)
    ensures
        chat_request(req).model == req.model,
        chat_request(req).parallel_tool_calls == req.parallel_tool_calls,
        chat_request(req).service_tier == req.service_tier,
        chat_request(req).stream == req.stream,
        req.stream ==> (chat_request(req).stream_options matches Some(o) && o.include_usage),
        !req.stream ==> chat_request(req).stream_options is None,
        req.tool_choice.len() == 0 ==> chat_request(req).tool_choice is None,
        req.tool_choice.len() > 0 ==> chat_request(req).tool_choice == Some(
            JsonView::Text(req.tool_choice),
        ),
        req.reasoning matches Some(r) ==> (r.effort matches Some(e) ==> chat_request(
            req,
        ).reasoning_effort == Some(effort_name(e))),
        req.reasoning is None ==> chat_request(req).reasoning_effort is None,
        req.text is None ==> chat_request(req).response_format is None,
{
}

/// The form of the answer is a schema with its name and its strictness.
pub proof fn law_answer_form_is_the_schema(req: UnifiedRequestView)
    ensures
        req.text matches Some(text) ==> (text.format matches Some(format) ==> (chat_request(
            req,
        ).response_format matches Some(form) && {
            &&& text_field(form, "type"@) == Some("json_schema"@)
            &&& doc_field(form, "json_schema"@) matches Some(inner) && {
                &&& text_field(inner, "name"@) == Some(format.name)
                &&& doc_field(inner, "strict"@) == Some(JsonView::Bool(format.strict))
                &&& doc_field(inner, "schema"@) == Some(format.schema)
            }
        })),
{
    reveal_strlit("type");
    reveal_strlit("json_schema");
    reveal_strlit("name");
    reveal_strlit("strict");
    reveal_strlit("schema");
    assert("type"@.len() != "json_schema"@.len());
    assert("name"@.len() != "strict"@.len());
    assert("name"@.len() != "schema"@.len());
    assert("strict"@[1] != "schema"@[1]);
    if let Some(text) = req.text {
        if let Some(format) = text.format {
            let pairs = Seq::<(Seq<char>, JsonView)>::empty() + seq![
                ("name"@, JsonView::Text(format.name)),
            ] + seq![("strict"@, JsonView::Bool(format.strict))] + seq![("schema"@, format.schema)];
            assert(pairs[0].0 == "name"@ && pairs[1].0 == "strict"@ && pairs[2].0 == "schema"@);
            law_objects_hold_their_pairs(pairs, "name"@);
            law_objects_hold_their_pairs(pairs, "strict"@);
            law_objects_hold_their_pairs(pairs, "schema"@);
            let outer = Seq::<(Seq<char>, JsonView)>::empty() + seq![
                ("type"@, JsonView::Text("json_schema"@)),
            ] + seq![("json_schema"@, object_doc(pairs))];
            assert(outer[0].0 == "type"@ && outer[1].0 == "json_schema"@);
            law_objects_hold_their_pairs(outer, "type"@);
            law_objects_hold_their_pairs(outer, "json_schema"@);
        }
    }
}

/// What a described function hands on to its declaration.
pub open spec fn handed_on(key: Seq<char>) -> bool {
    key == "name"@ || key == "description"@ || key == "parameters"@ || key == "strict"@
}

/// A function is declared behind the tools before it, with the name, the
/// description, the parameters and the strictness that it is described with.
pub proof fn law_functions_are_declared(tools: Seq<JsonView>, fields: Fields, key: Seq<char>)
    requires
        says(fields, "type"@, "function"@),
        handed_on(key),
    ensures
        ({
            let all = chat_tools(tools.push(JsonView::Fields(fields)));
            &&& all.len() == chat_tools(tools).len() + 1
            &&& all.drop_last() == chat_tools(tools)
            &&& text_field(all.last(), "type"@) == Some("function"@)
            &&& doc_field(all.last(), "function"@) matches Some(function) && {
                &&& fields.dom().contains(key) ==> doc_field(function, key) == Some(fields[key])
                &&& !fields.dom().contains(key) ==> doc_field(function, key) is None
            }
        }),
{
    let tool = JsonView::Fields(fields);
    assert(tools.push(tool).drop_last() =~= tools);
    law_fields_are_read_by_key(fields, "type"@, fields["type"@]);
    assert(chat_tools(tools.push(tool)).drop_last() =~= chat_tools(tools));
    lemma_function_object(fields, key);
}

/// A tool that is no function is not declared.
pub proof fn law_other_tools_are_not_declared(tools: Seq<JsonView>, tool: JsonView)
    requires
        tool matches JsonView::Fields(fields) ==> !says(fields, "type"@, "function"@),
    ensures
        chat_tools(tools.push(tool)) == chat_tools(tools),
{
    assert(tools.push(tool).drop_last() =~= tools);
    match tool {
        JsonView::Fields(fields) => {
            if fields.dom().contains("type"@) {
                law_fields_are_read_by_key(fields, "type"@, fields["type"@]);
            } else {
                law_missing_fields_are_none(tool, "type"@);
            }
        },
        _ => {
            law_missing_fields_are_none(tool, "type"@);
        },
    }
}

/// The declared tools are those of the request, unless there are none.
pub proof fn law_tools_are_carried(req: UnifiedRequestView)
    ensures
        req.tools is None ==> chat_request(req).tools is None,
        req.tools matches Some(tools) ==> chat_request(req).tools == (if chat_tools(tools).len()
            > 0 {
            Some(chat_tools(tools))
        } else {
            None
        }),
{
}

proof fn lemma_function_object(fields: Fields, key: Seq<char>)
    requires
        says(fields, "type"@, "function"@),
    ensures
        ({
            let tool = JsonView::Fields(fields);
            let made = crate::adapters::chat::chat_tool(tool);
            &&& made is Some
            &&& text_field(made->0, "type"@) == Some("function"@)
            &&& doc_field(made->0, "function"@) matches Some(function) && (handed_on(key) ==> {
                &&& fields.dom().contains(key) ==> doc_field(function, key) == Some(fields[key])
                &&& !fields.dom().contains(key) ==> doc_field(function, key) is None
            })
        }),
{
    let tool = JsonView::Fields(fields);
    law_fields_are_read_by_key(fields, "type"@, JsonView::Text("function"@));
    reveal_strlit("type");
    reveal_strlit("function");
    reveal_strlit("name");
    reveal_strlit("description");
    reveal_strlit("parameters");
    reveal_strlit("strict");
    assert("type"@.len() != "function"@.len());
    assert("name"@.len() != "description"@.len());
    assert("name"@.len() != "parameters"@.len());
    assert("name"@.len() != "strict"@.len());
    assert("description"@.len() != "parameters"@.len());
    assert("description"@.len() != "strict"@.len());
    assert("parameters"@.len() != "strict"@.len());
    let a = crate::json::optional_pair("name"@, doc_field(tool, "name"@));
    let b = crate::json::optional_pair("description"@, doc_field(tool, "description"@));
    let c = crate::json::optional_pair("parameters"@, doc_field(tool, "parameters"@));
    let d = crate::json::optional_pair("strict"@, doc_field(tool, "strict"@));
    let none = Seq::<(Seq<char>, JsonView)>::empty();
    let pairs = none + a + b + c + d;
    lemma_optional_pair(none, "name"@, doc_field(tool, "name"@), key);
    lemma_optional_pair(none + a, "description"@, doc_field(tool, "description"@), key);
    lemma_optional_pair(none + a + b, "parameters"@, doc_field(tool, "parameters"@), key);
    lemma_optional_pair(none + a + b + c, "strict"@, doc_field(tool, "strict"@), key);
    law_objects_hold_their_pairs(none, key);
    let outer = none + seq![("type"@, JsonView::Text("function"@))] + seq![
        ("function"@, object_doc(pairs)),
    ];
    assert(outer[0].0 == "type"@ && outer[1].0 == "function"@);
    law_objects_hold_their_pairs(outer, "type"@);
    law_objects_hold_their_pairs(outer, "function"@);
}

/// One more optional pair decides what an object holds under its key, and nothing
/// under other keys.
pub proof fn lemma_optional_pair(
    pairs: Seq<(Seq<char>, JsonView)>,
    own: Seq<char>,
    value: Option<JsonView>,
    key: Seq<char>,
)
    ensures
        ({
            let more = object_doc(pairs + crate::json::optional_pair(own, value));
            &&& key == own && value is Some ==> doc_field(more, key) == value
            &&& key != own || value is None ==> doc_field(more, key) == doc_field(
                object_doc(pairs),
                key,
            )
        }),
{
    let all = pairs + crate::json::optional_pair(own, value);
    if let Some(v) = value {
        assert(all.drop_last() =~= pairs);
        assert(all.last() == (own, v));
    } else {
        assert(all =~= pairs);
    }
}

} // verus!
