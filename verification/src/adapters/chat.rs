//! Requests for the Chat Completions protocol.

use vstd::prelude::*;
use vstd::string::*;

use crate::endpoint::client::StreamClient;
use crate::json::doc_field;
use crate::json::docs;
use crate::json::lemma_docs_push;
use crate::json::object;
use crate::json::object_doc;
use crate::json::optional_pair;
use crate::json::or_empty;
use crate::json::pair_docs;
use crate::json::put;
use crate::json::put_optional;
use crate::json::put_text;
use crate::json::text_field;
use crate::json::Json;
use crate::json::JsonView;
use crate::models::effort_name;
use crate::models::ContentItem;
use crate::models::ContentItemView;
use crate::models::ImageDetail;
use crate::models::ResponseItem;
use crate::models::ResponseItemView;
use crate::text::same_text;
use crate::unified::UnifiedReasoningView;
use crate::unified::UnifiedRequest;
use crate::unified::UnifiedRequestView;
use crate::unified::UnifiedTextControlsView;
use crate::wire::chat::ChatApiRequest;
use crate::wire::chat::ChatApiRequestView;
use crate::wire::chat::ChatMessage;
use crate::wire::chat::ChatMessageView;
use crate::wire::chat::ChatStreamOptions;
use crate::wire::chat::ChatStreamOptionsView;
use crate::wire::chat::ChatToolCall;
use crate::wire::chat::ChatToolCallFunction;
use crate::wire::chat::ChatToolCallFunctionView;
use crate::wire::chat::ChatToolCallView;
use crate::sse::call_item;
use crate::tool_name::ToolName;
use crate::tool_name::ToolNameView;
use crate::tool_name::flat_name;
use crate::tool_name::law_flat_of_tool_of_flat;
use crate::tool_name::tool_of_flat;

verus! {

/// A message with nothing but a role and a content.
pub open spec fn plain_message(role: Seq<char>, content: JsonView) -> ChatMessageView {
    ChatMessageView {
        role,
        content: Some(content),
        name: None,
        tool_call_id: None,
        tool_calls: None,
    }
}

/// The role as servers beyond OpenAI's know it.
pub open spec fn chat_role(role: Seq<char>) -> Seq<char> {
    if role == "developer"@ {
        "system"@
    } else {
        role
    }
}

/// The name of an image detail; the protocol has none for the original size.
pub open spec fn detail_name(detail: ImageDetail) -> Seq<char> {
    match detail {
        ImageDetail::Auto => "auto"@,
        ImageDetail::Low => "low"@,
        ImageDetail::High => "high"@,
        ImageDetail::Original => "auto"@,
    }
}

/// The texts of a message, one after the other.
pub open spec fn content_text(content: Seq<ContentItemView>) -> Seq<char>
    decreases content.len(),
{
    if content.len() == 0 {
        Seq::empty()
    } else {
        content_text(content.drop_last()) + match content.last() {
            ContentItemView::InputText { text } => text,
            ContentItemView::OutputText { text } => text,
            ContentItemView::InputImage { .. } => Seq::empty(),
        }
    }
}

/// Whether a message holds an image.
pub open spec fn has_image(content: Seq<ContentItemView>) -> bool {
    exists|i: int| 0 <= i < content.len() && (#[trigger] content[i]) is InputImage
}

/// One piece of a message that holds an image.
pub open spec fn content_part(piece: ContentItemView) -> JsonView {
    match piece {
        ContentItemView::InputText { text } => text_part(text),
        ContentItemView::OutputText { text } => text_part(text),
        ContentItemView::InputImage { image_url, detail } => image_part(image_url, detail),
    }
}

pub open spec fn text_part(text: Seq<char>) -> JsonView {
    object_doc(
        Seq::<(Seq<char>, JsonView)>::empty() + seq![("type"@, JsonView::Text("text"@))]
            + seq![("text"@, JsonView::Text(text))],
    )
}

pub open spec fn image_part(url: Seq<char>, detail: Option<ImageDetail>) -> JsonView {
    object_doc(
        Seq::<(Seq<char>, JsonView)>::empty() + seq![("type"@, JsonView::Text("image_url"@))]
            + seq![
            (
                "image_url"@,
                object_doc(
                    Seq::<(Seq<char>, JsonView)>::empty() + seq![("url"@, JsonView::Text(url))]
                        + optional_pair(
                        "detail"@,
                        match detail {
                            Some(d) => Some(JsonView::Text(detail_name(d))),
                            None => None,
                        },
                    ),
                ),
            ),
        ],
    )
}

/// The content of a message: one text, or a list of parts where there is an
/// image; none when there is nothing to say.
pub open spec fn message_content(content: Seq<ContentItemView>) -> Option<JsonView> {
    if has_image(content) {
        Some(JsonView::List(Seq::new(content.len(), |i: int| content_part(content[i]))))
    } else if content_text(content).len() == 0 {
        None
    } else {
        Some(JsonView::Text(content_text(content)))
    }
}

/// A call of a tool.
pub open spec fn tool_call(
    call_id: Seq<char>,
    name: Seq<char>,
    arguments: Seq<char>,
) -> ChatToolCallView {
    ChatToolCallView {
        id: call_id,
        kind: "function"@,
        function: ChatToolCallFunctionView { name, arguments },
    }
}

/// Whether further calls join this message.
pub open spec fn takes_calls(message: ChatMessageView) -> bool {
    message.role == "assistant"@ && message.tool_calls is Some
}

/// The messages with one more call: it joins the assistant message that ends
/// them, when that one already makes calls.
pub open spec fn with_call(
    messages: Seq<ChatMessageView>,
    call: ChatToolCallView,
) -> Seq<ChatMessageView> {
    if messages.len() > 0 && takes_calls(messages.last()) {
        messages.drop_last().push(
            ChatMessageView {
                tool_calls: Some(messages.last().tool_calls->0.push(call)),
                ..messages.last()
            },
        )
    } else {
        messages.push(
            ChatMessageView {
                role: "assistant"@,
                content: None,
                name: None,
                tool_call_id: None,
                tool_calls: Some(seq![call]),
            },
        )
    }
}

/// The message that answers a call.
pub open spec fn tool_answer(call_id: Seq<char>, text: Option<Seq<char>>) -> ChatMessageView {
    ChatMessageView {
        role: "tool"@,
        content: Some(JsonView::Text(or_empty(text))),
        name: None,
        tool_call_id: Some(call_id),
        tool_calls: None,
    }
}

/// The messages with one more item of the conversation. A call goes out under the
/// name that its tool is declared under. Items that the protocol has no
/// counterpart for leave no trace.
pub open spec fn with_item(
    messages: Seq<ChatMessageView>,
    item: ResponseItemView,
) -> Seq<ChatMessageView> {
    match item {
        ResponseItemView::Message { role, content, .. } => match message_content(content) {
            Some(doc) => messages.push(plain_message(chat_role(role), doc)),
            None => messages,
        },
        ResponseItemView::FunctionCall { name, namespace, arguments, call_id, .. } => with_call(
            messages,
            tool_call(call_id, flat_name(ToolNameView { name, namespace }), arguments),
        ),
        ResponseItemView::CustomToolCall { call_id, name, namespace, input, .. } => with_call(
            messages,
            tool_call(call_id, flat_name(ToolNameView { name, namespace }), input),
        ),
        ResponseItemView::FunctionCallOutput { call_id, output, .. } => messages.push(
            tool_answer(call_id, output.text),
        ),
        ResponseItemView::CustomToolCallOutput { call_id, output, .. } => messages.push(
            tool_answer(call_id, output.text),
        ),
        _ => messages,
    }
}

/// The messages with further items, in their order.
pub open spec fn with_items(
    messages: Seq<ChatMessageView>,
    items: Seq<ResponseItemView>,
) -> Seq<ChatMessageView>
    decreases items.len(),
{
    if items.len() == 0 {
        messages
    } else {
        with_item(with_items(messages, items.drop_last()), items.last())
    }
}

/// What opens the messages: the instructions, when there are any.
pub open spec fn opening(instructions: Seq<char>) -> Seq<ChatMessageView> {
    if instructions.len() == 0 {
        Seq::empty()
    } else {
        seq![plain_message("system"@, JsonView::Text(instructions))]
    }
}

/// A tool as the protocol describes it; none for tools that are no functions.
pub open spec fn chat_tool(tool: JsonView) -> Option<JsonView> {
    if text_field(tool, "type"@) == Some("function"@) {
        Some(
            object_doc(
                Seq::<(Seq<char>, JsonView)>::empty() + seq![
                    ("type"@, JsonView::Text("function"@)),
                ] + seq![
                    (
                        "function"@,
                        object_doc(
                            Seq::<(Seq<char>, JsonView)>::empty() + optional_pair(
                                "name"@,
                                doc_field(tool, "name"@),
                            ) + optional_pair("description"@, doc_field(tool, "description"@))
                                + optional_pair("parameters"@, doc_field(tool, "parameters"@))
                                + optional_pair("strict"@, doc_field(tool, "strict"@)),
                        ),
                    ),
                ],
            ),
        )
    } else {
        None
    }
}

/// The tools that the protocol can describe, in their order.
pub open spec fn chat_tools(tools: Seq<JsonView>) -> Seq<JsonView>
    decreases tools.len(),
{
    if tools.len() == 0 {
        Seq::empty()
    } else {
        match chat_tool(tools.last()) {
            Some(tool) => chat_tools(tools.drop_last()).push(tool),
            None => chat_tools(tools.drop_last()),
        }
    }
}

/// A list that is left out when it is empty.
pub open spec fn unless_empty(tools: Seq<JsonView>) -> Option<Seq<JsonView>> {
    if tools.len() == 0 {
        None
    } else {
        Some(tools)
    }
}

/// The choice of tools, left out when it is empty.
pub open spec fn chat_tool_choice(choice: Seq<char>) -> Option<JsonView> {
    if choice.len() == 0 {
        None
    } else {
        Some(JsonView::Text(choice))
    }
}

/// The name of the effort that is asked for.
pub open spec fn asked_effort(reasoning: Option<UnifiedReasoningView>) -> Option<Seq<char>> {
    match reasoning {
        Some(r) => match r.effort {
            Some(effort) => Some(effort_name(effort)),
            None => None,
        },
        None => None,
    }
}

/// The form that the answer must have.
pub open spec fn response_format(text: Option<UnifiedTextControlsView>) -> Option<JsonView> {
    match text {
        Some(t) => match t.format {
            Some(f) => Some(
                object_doc(
                    Seq::<(Seq<char>, JsonView)>::empty() + seq![
                        ("type"@, JsonView::Text("json_schema"@)),
                    ] + seq![
                        (
                            "json_schema"@,
                            object_doc(
                                Seq::<(Seq<char>, JsonView)>::empty() + seq![
                                    ("name"@, JsonView::Text(f.name)),
                                ] + seq![("strict"@, JsonView::Bool(f.strict))] + seq![
                                    ("schema"@, f.schema),
                                ],
                            ),
                        ),
                    ],
                ),
            ),
            None => None,
        },
        None => None,
    }
}

/// A request for the protocol.
pub open spec fn chat_request(req: UnifiedRequestView) -> ChatApiRequestView {
    ChatApiRequestView {
        model: req.model,
        messages: with_items(opening(req.instructions), req.input),
        tools: match req.tools {
            Some(tools) => unless_empty(chat_tools(tools)),
            None => None,
        },
        tool_choice: chat_tool_choice(req.tool_choice),
        parallel_tool_calls: req.parallel_tool_calls,
        reasoning_effort: asked_effort(req.reasoning),
        service_tier: req.service_tier,
        response_format: response_format(req.text),
        max_tokens: None,
        stream_options: if req.stream {
            Some(ChatStreamOptionsView { include_usage: true })
        } else {
            None
        },
        stream: req.stream,
    }
}

/// The role as servers beyond OpenAI's know it.
pub fn normalize_chat_role(role: String) -> (r: String)
    ensures
        r@ == chat_role(role@),
{
    if same_text(role.as_str(), "developer") {
        "system".to_owned()
    } else {
        role
    }
}

/// The name of an image detail.
pub fn image_detail_str(detail: &ImageDetail) -> (r: &'static str)
    ensures
        r@ == detail_name(*detail),
{
    match detail {
        ImageDetail::Auto => "auto",
        ImageDetail::Low => "low",
        ImageDetail::High => "high",
        ImageDetail::Original => "auto",
    }
}

fn part_of(piece: &ContentItem) -> (r: Json)
    ensures
        r@ == content_part(piece@),
{
    let mut fields: Vec<(String, Json)> = Vec::new();
    assert(pair_docs(fields@) =~= Seq::<(Seq<char>, JsonView)>::empty());
    match piece {
        ContentItem::InputText { text } | ContentItem::OutputText { text } => {
            put_text(&mut fields, "type", "text");
            put_text(&mut fields, "text", text.as_str());
        },
        ContentItem::InputImage { image_url, detail } => {
            let mut image: Vec<(String, Json)> = Vec::new();
            assert(pair_docs(image@) =~= Seq::<(Seq<char>, JsonView)>::empty());
            put_text(&mut image, "url", image_url.as_str());
            put_optional(
                &mut image,
                "detail",
                match detail {
                    Some(d) => Some(Json::Text(image_detail_str(d).to_owned())),
                    None => None,
                },
            );
            put_text(&mut fields, "type", "image_url");
            put(&mut fields, "image_url", object(image));
        },
    }
    object(fields)
}

/// The content of a message.
pub fn message_content_to_value(content: &Vec<ContentItem>) -> (r: Option<Json>)
    ensures
        r.deep_view() == message_content(content.deep_view()),
{
    let ghost all = content.deep_view();
    let mut image: bool = false;
    let mut text: String = String::new();
    let mut i: usize = 0;
    assert(all.take(0) =~= Seq::<ContentItemView>::empty());
    assert(text@ =~= Seq::<char>::empty());
    while i < content.len()
        invariant
            i <= content@.len(),
            all == content.deep_view(),
            image == has_image(all.take(i as int)),
            text@ == content_text(all.take(i as int)),
        decreases content@.len() - i,
    {
        proof {
            assert(all.take(i + 1).drop_last() =~= all.take(i as int));
            assert(all.take(i + 1).last() == content@[i as int]@);
            if has_image(all.take(i as int)) {
                let k = choose|k: int| 0 <= k < i && (#[trigger] all.take(i as int)[k]) is InputImage;
                assert(all.take(i + 1)[k] is InputImage);
            }
            if has_image(all.take(i + 1)) && !(all[i as int] is InputImage) {
                let k = choose|k: int| 0 <= k < i + 1 && (#[trigger] all.take(i + 1)[k]) is InputImage;
                assert(all.take(i as int)[k] is InputImage);
            }
            if all[i as int] is InputImage {
                assert(all.take(i + 1)[i as int] is InputImage);
            }
        }
        match &content[i] {
            ContentItem::InputText { text: t } | ContentItem::OutputText { text: t } => {
                text.append(t.as_str());
            },
            ContentItem::InputImage { .. } => {
                image = true;
                assert(text@ + Seq::<char>::empty() =~= text@);
            },
        }
        i += 1;
    }
    assert(all.take(i as int) =~= all);
    if !image {
        return if text.as_str().is_empty() {
            None
        } else {
            Some(Json::Text(text))
        };
    }
    let ghost wanted = Seq::new(all.len(), |k: int| content_part(all[k]));
    let mut parts: Vec<Json> = Vec::new();
    let mut j: usize = 0;
    while j < content.len()
        invariant
            j <= content@.len(),
            all == content.deep_view(),
            wanted == Seq::new(all.len(), |k: int| content_part(all[k])),
            docs(parts@) == wanted.take(j as int),
        decreases content@.len() - j,
    {
        let part = part_of(&content[j]);
        proof {
            lemma_docs_push(parts@, part);
            assert(wanted.take(j + 1) =~= wanted.take(j as int).push(wanted[j as int]));
        }
        parts.push(part);
        j += 1;
    }
    assert(wanted.take(j as int) =~= wanted);
    Some(Json::List(parts))
}

fn push_message(messages: &mut Vec<ChatMessage>, message: ChatMessage)
    ensures
        final(messages).deep_view() == old(messages).deep_view().push(message@),
{
    messages.push(message);
    assert(messages.deep_view() =~= old(messages).deep_view().push(message@));
}

/// Adds a call: it joins the assistant message that ends the messages, when
/// that one already makes calls.
pub fn push_tool_call(
    messages: &mut Vec<ChatMessage>,
    call_id: String,
    name: String,
    arguments: String,
)
    ensures
        final(messages).deep_view() == with_call(
            old(messages).deep_view(),
            tool_call(call_id@, name@, arguments@),
        ),
{
    let ghost before = messages.deep_view();
    let ghost wanted = tool_call(call_id@, name@, arguments@);
    let call = ChatToolCall {
        id: call_id,
        kind: "function".to_owned(),
        function: ChatToolCallFunction { name, arguments },
    };
    let n: usize = messages.len();
    if n > 0 && same_text(messages[n - 1].role.as_str(), "assistant") && messages[n
        - 1].tool_calls.is_some() {
        assert(before.last() == messages@[n - 1]@);
        if let Some(mut last) = messages.pop() {
            assert(messages.deep_view() =~= before.drop_last());
            if let Some(mut calls) = last.tool_calls {
                let ghost calls_before = calls.deep_view();
                calls.push(call);
                assert(calls.deep_view() =~= calls_before.push(wanted));
                last.tool_calls = Some(calls);
                push_message(messages, last);
            }
        }
        return ;
    }
    assert(n > 0 ==> before.last() == messages@[n - 1]@);
    let mut calls: Vec<ChatToolCall> = Vec::new();
    calls.push(call);
    assert(calls.deep_view() =~= seq![wanted]);
    push_message(
        messages,
        ChatMessage {
            role: "assistant".to_owned(),
            content: None,
            name: None,
            tool_call_id: None,
            tool_calls: Some(calls),
        },
    );
}

/// Adds the answer to a call.
pub fn push_tool_output(messages: &mut Vec<ChatMessage>, call_id: String, text: Option<String>)
    ensures
        final(messages).deep_view() == old(messages).deep_view().push(
            tool_answer(call_id@, text.deep_view()),
        ),
{
    let content = match text {
        Some(t) => t,
        None => String::new(),
    };
    assert(text is None ==> content@ =~= Seq::<char>::empty());
    push_message(
        messages,
        ChatMessage {
            role: "tool".to_owned(),
            content: Some(Json::Text(content)),
            name: None,
            tool_call_id: Some(call_id),
            tool_calls: None,
        },
    );
}

/// Adds one item of the conversation.
pub fn translate_item(item: ResponseItem, messages: &mut Vec<ChatMessage>)
    ensures
        final(messages).deep_view() == with_item(old(messages).deep_view(), item@),
{
    match item {
        ResponseItem::Message { role, content, .. } => {
            let chat_content = message_content_to_value(&content);
            if chat_content.is_none() {
                return ;
            }
            push_message(
                messages,
                ChatMessage {
                    role: normalize_chat_role(role),
                    content: chat_content,
                    name: None,
                    tool_call_id: None,
                    tool_calls: None,
                },
            );
        },
        ResponseItem::FunctionCall { name, namespace, arguments, call_id, .. } => {
            let flat = ToolName { name, namespace }.to_flat_wire_name();
            push_tool_call(messages, call_id, flat, arguments);
        },
        ResponseItem::CustomToolCall { call_id, name, namespace, input, .. } => {
            let flat = ToolName { name, namespace }.to_flat_wire_name();
            push_tool_call(messages, call_id, flat, input);
        },
        ResponseItem::FunctionCallOutput { call_id, output, .. } => {
            push_tool_output(messages, call_id, output.text);
        },
        ResponseItem::CustomToolCallOutput { call_id, output, .. } => {
            push_tool_output(messages, call_id, output.text);
        },
        ResponseItem::Reasoning { .. }
        | ResponseItem::AgentMessage(_)
        | ResponseItem::LocalShellCall(_)
        | ResponseItem::ToolSearchCall(_)
        | ResponseItem::ToolSearchOutput { .. }
        | ResponseItem::WebSearchCall(_)
        | ResponseItem::ImageGenerationCall(_)
        | ResponseItem::Compaction(_)
        | ResponseItem::ContextCompaction(_)
        | ResponseItem::CompactionTrigger
        | ResponseItem::AdditionalTools(_)
        | ResponseItem::Other => {},
    }
}

fn copy_field(tool: &Json, key: &str) -> (r: Option<Json>)
    ensures
        r.deep_view() == doc_field(tool@, key@),
{
    match tool.get(key) {
        Some(value) => Some(value.copy()),
        None => None,
    }
}

/// Describes a tool for the protocol.
pub fn responses_tool_to_chat(tool: &Json) -> (r: Option<Json>)
    ensures
        r.deep_view() == chat_tool(tool@),
{
    match tool.text_at("type") {
        Some(kind) => if !same_text(kind.as_str(), "function") {
            return None;
        },
        None => {
            return None;
        },
    }
    let mut function: Vec<(String, Json)> = Vec::new();
    assert(pair_docs(function@) =~= Seq::<(Seq<char>, JsonView)>::empty());
    put_optional(&mut function, "name", copy_field(tool, "name"));
    put_optional(&mut function, "description", copy_field(tool, "description"));
    put_optional(&mut function, "parameters", copy_field(tool, "parameters"));
    put_optional(&mut function, "strict", copy_field(tool, "strict"));
    let mut fields: Vec<(String, Json)> = Vec::new();
    assert(pair_docs(fields@) =~= Seq::<(Seq<char>, JsonView)>::empty());
    put_text(&mut fields, "type", "function");
    put(&mut fields, "function", object(function));
    Some(object(fields))
}

fn tools_for_chat(tools: &Vec<Json>) -> (r: Option<Vec<Json>>)
    ensures
        r.deep_view() == unless_empty(chat_tools(tools.deep_view())),
{
    let ghost all = tools.deep_view();
    let mut out: Vec<Json> = Vec::new();
    let mut i: usize = 0;
    assert(all.take(0) =~= Seq::<JsonView>::empty());
    assert(out.deep_view() =~= Seq::<JsonView>::empty());
    while i < tools.len()
        invariant
            i <= tools@.len(),
            all == tools.deep_view(),
            out.deep_view() == chat_tools(all.take(i as int)),
        decreases tools@.len() - i,
    {
        proof {
            assert(all.take(i + 1).drop_last() =~= all.take(i as int));
            assert(all.take(i + 1).last() == tools@[i as int]@);
        }
        if let Some(tool) = responses_tool_to_chat(&tools[i]) {
            let ghost before = out.deep_view();
            let ghost doc = tool@;
            out.push(tool);
            assert(out.deep_view() =~= before.push(doc));
        }
        i += 1;
    }
    assert(all.take(i as int) =~= all);
    if out.len() == 0 {
        None
    } else {
        Some(out)
    }
}

/// The choice of tools.
pub fn tool_choice_to_value(tool_choice: &str) -> (r: Option<Json>)
    ensures
        r.deep_view() == chat_tool_choice(tool_choice@),
{
    if tool_choice.is_empty() {
        None
    } else {
        Some(Json::Text(tool_choice.to_owned()))
    }
}

impl From<UnifiedRequest> for ChatApiRequest {
    fn from(req: UnifiedRequest) -> (r: ChatApiRequest)
        ensures
            r@ == chat_request(req@),
    {
        let ghost asked = req@;
        let mut messages: Vec<ChatMessage> = Vec::new();
        assert(messages.deep_view() =~= Seq::<ChatMessageView>::empty());
        if !req.instructions.as_str().is_empty() {
            push_message(
                &mut messages,
                ChatMessage {
                    role: "system".to_owned(),
                    content: Some(Json::Text(req.instructions)),
                    name: None,
                    tool_call_id: None,
                    tool_calls: None,
                },
            );
        }
        assert(messages.deep_view() =~= opening(asked.instructions));
        let input = req.input;
        let ghost all = input.deep_view();
        assert(all.take(0) =~= Seq::<ResponseItemView>::empty());
        for item in it: input
            invariant
                it.seq() == input@,
                all == input.deep_view(),
                messages.deep_view() == with_items(
                    opening(asked.instructions),
                    all.take(it.index() as int),
                ),
        {
            proof {
                let i = it.index() as int;
                assert(all.take(i + 1).drop_last() =~= all.take(i));
                assert(all.take(i + 1).last() == item@);
            }
            translate_item(item, &mut messages);
        }
        assert(all.take(all.len() as int) =~= all);
        let tools = match &req.tools {
            Some(tools) => tools_for_chat(tools),
            None => None,
        };
        let effort = match &req.reasoning {
            Some(reasoning) => match &reasoning.effort {
                Some(effort) => Some(effort.name()),
                None => None,
            },
            None => None,
        };
        let format = match &req.text {
            Some(text) => match &text.format {
                Some(format) => {
                    let mut schema: Vec<(String, Json)> = Vec::new();
                    assert(pair_docs(schema@) =~= Seq::<(Seq<char>, JsonView)>::empty());
                    put_text(&mut schema, "name", format.name.as_str());
                    put(&mut schema, "strict", Json::Bool(format.strict));
                    put(&mut schema, "schema", format.schema.copy());
                    let mut fields: Vec<(String, Json)> = Vec::new();
                    assert(pair_docs(fields@) =~= Seq::<(Seq<char>, JsonView)>::empty());
                    put_text(&mut fields, "type", "json_schema");
                    put(&mut fields, "json_schema", object(schema));
                    Some(object(fields))
                },
                None => None,
            },
            None => None,
        };
        ChatApiRequest {
            model: req.model,
            messages,
            tools,
            tool_choice: tool_choice_to_value(req.tool_choice.as_str()),
            parallel_tool_calls: req.parallel_tool_calls,
            reasoning_effort: effort,
            service_tier: req.service_tier,
            response_format: format,
            max_tokens: None,
            stream_options: if req.stream {
                Some(ChatStreamOptions { include_usage: true })
            } else {
                None
            },
            stream: req.stream,
        }
    }
}

impl vstd::std_specs::convert::FromSpecImpl<UnifiedRequest> for ChatApiRequest {
    open spec fn obeys_from_spec() -> bool {
        false
    }

    open spec fn from_spec(req: UnifiedRequest) -> ChatApiRequest {
        choose|r: ChatApiRequest| r@ == chat_request(req@)
    }
}

/// The calls that messages make, in order.
pub open spec fn calls_in(messages: Seq<ChatMessageView>) -> Seq<ChatToolCallView>
    decreases messages.len(),
{
    if messages.len() == 0 {
        Seq::empty()
    } else {
        match messages.last().tool_calls {
            Some(calls) => calls_in(messages.drop_last()) + calls,
            None => calls_in(messages.drop_last()),
        }
    }
}

/// The calls of a conversation, in order, each under the name that its tool is
/// declared under.
pub open spec fn calls_of(items: Seq<ResponseItemView>) -> Seq<ChatToolCallView>
    decreases items.len(),
{
    if items.len() == 0 {
        Seq::empty()
    } else {
        match items.last() {
            ResponseItemView::FunctionCall { name, namespace, arguments, call_id, .. } => calls_of(
                items.drop_last(),
            ).push(tool_call(call_id, flat_name(ToolNameView { name, namespace }), arguments)),
            ResponseItemView::CustomToolCall { call_id, name, namespace, input, .. } => calls_of(
                items.drop_last(),
            ).push(tool_call(call_id, flat_name(ToolNameView { name, namespace }), input)),
            _ => calls_of(items.drop_last()),
        }
    }
}

proof fn lemma_with_call(messages: Seq<ChatMessageView>, call: ChatToolCallView)
    ensures
        calls_in(with_call(messages, call)) == calls_in(messages).push(call),
{
    let after = with_call(messages, call);
    if messages.len() > 0 && takes_calls(messages.last()) {
        assert(after.drop_last() =~= messages.drop_last());
        let calls = messages.last().tool_calls->0;
        assert(calls_in(messages.drop_last()) + calls.push(call) =~= (calls_in(
            messages.drop_last(),
        ) + calls).push(call));
    } else {
        assert(after.drop_last() =~= messages);
        assert(calls_in(messages) + seq![call] =~= calls_in(messages).push(call));
    }
}

proof fn lemma_calls_of_items(messages: Seq<ChatMessageView>, items: Seq<ResponseItemView>)
    ensures
        calls_in(with_items(messages, items)) == calls_in(messages) + calls_of(items),
    decreases items.len(),
{
    if items.len() == 0 {
        assert(calls_in(messages) + Seq::<ChatToolCallView>::empty() =~= calls_in(messages));
    } else {
        let before = with_items(messages, items.drop_last());
        lemma_calls_of_items(messages, items.drop_last());
        match items.last() {
            ResponseItemView::FunctionCall { name, namespace, arguments, call_id, .. } => {
                let flat = flat_name(ToolNameView { name, namespace });
                lemma_with_call(before, tool_call(call_id, flat, arguments));
            },
            ResponseItemView::CustomToolCall { call_id, name, namespace, input, .. } => {
                let flat = flat_name(ToolNameView { name, namespace });
                lemma_with_call(before, tool_call(call_id, flat, input));
            },
            _ => {
                let after = with_item(before, items.last());
                if after != before {
                    assert(after.drop_last() =~= before);
                }
            },
        }
        assert(calls_in(with_items(messages, items)) =~= calls_in(messages) + calls_of(items));
    }
}

/// A request makes the calls of the conversation, each once and in their order.
pub proof fn law_calls_are_kept(req: UnifiedRequestView)
    ensures
        calls_in(chat_request(req).messages) == calls_of(req.input),
{
    let start = opening(req.instructions);
    lemma_calls_of_items(start, req.input);
    if req.instructions.len() > 0 {
        assert(start.drop_last() =~= Seq::<ChatMessageView>::empty());
    }
    reveal_with_fuel(calls_in, 2);
    assert(calls_in(start) =~= Seq::<ChatToolCallView>::empty());
    assert(calls_in(start) + calls_of(req.input) =~= calls_of(req.input));
}

/// Every call of a conversation goes out under the name that its tool is declared
/// under, with its id and its arguments.
pub proof fn law_calls_go_out_as_declared(req: UnifiedRequestView, i: int)
    requires
        0 <= i < req.input.len(),
    ensures
        match req.input[i] {
            ResponseItemView::FunctionCall { name, namespace, arguments, call_id, .. } => calls_in(
                chat_request(req).messages,
            ).contains(
                tool_call(call_id, flat_name(ToolNameView { name, namespace }), arguments),
            ),
            ResponseItemView::CustomToolCall { call_id, name, namespace, input, .. } => calls_in(
                chat_request(req).messages,
            ).contains(tool_call(call_id, flat_name(ToolNameView { name, namespace }), input)),
            _ => true,
        },
{
    law_calls_are_kept(req);
    lemma_calls_of_holds(req.input, i);
}

proof fn lemma_calls_of_holds(items: Seq<ResponseItemView>, i: int)
    requires
        0 <= i < items.len(),
    ensures
        match items[i] {
            ResponseItemView::FunctionCall { name, namespace, arguments, call_id, .. } => calls_of(
                items,
            ).contains(
                tool_call(call_id, flat_name(ToolNameView { name, namespace }), arguments),
            ),
            ResponseItemView::CustomToolCall { call_id, name, namespace, input, .. } => calls_of(
                items,
            ).contains(tool_call(call_id, flat_name(ToolNameView { name, namespace }), input)),
            _ => true,
        },
    decreases items.len(),
{
    let before = calls_of(items.drop_last());
    let all = calls_of(items);
    if i == items.len() - 1 {
        if all.len() > before.len() {
            assert(all[before.len() as int] == all.last());
        }
    } else {
        lemma_calls_of_holds(items.drop_last(), i);
        assert forall|c: ChatToolCallView| before.contains(c) implies all.contains(c) by {
            let k = choose|k: int| 0 <= k < before.len() && before[k] == c;
            assert(all[k] == c);
        }
    }
}

/// A call that was read from an answer goes back under the name that it came
/// with.
pub proof fn law_replayed_call_keeps_its_name(
    messages: Seq<ChatMessageView>,
    flat: Seq<char>,
    arguments: Seq<char>,
    call_id: Seq<char>,
)
    ensures
        with_item(
            messages,
            call_item(tool_of_flat(flat).name, tool_of_flat(flat).namespace, arguments, call_id),
        ) == with_call(messages, tool_call(call_id, flat, arguments)),
{
    law_flat_of_tool_of_flat(flat);
    let tool = tool_of_flat(flat);
    assert(ToolNameView { name: tool.name, namespace: tool.namespace } == tool);
}

/// Calls that follow each other share one assistant message.
pub proof fn law_successive_calls_share_message(
    messages: Seq<ChatMessageView>,
    first: ChatToolCallView,
    second: ChatToolCallView,
)
    ensures
        with_call(with_call(messages, first), second).len() == with_call(messages, first).len(),
{
}

proof fn lemma_role_names()
    ensures
        "system"@ != "developer"@,
        "assistant"@ != "developer"@,
        "tool"@ != "developer"@,
{
    reveal_strlit("developer");
    reveal_strlit("system");
    reveal_strlit("assistant");
    reveal_strlit("tool");
    assert("system"@.len() != "developer"@.len());
    assert("assistant"@[0] != "developer"@[0]);
    assert("tool"@.len() != "developer"@.len());
}

/// No message has the role that only OpenAI's servers know.
pub proof fn law_no_developer_role(req: UnifiedRequestView, i: int)
    requires
        0 <= i < chat_request(req).messages.len(),
    ensures
        chat_request(req).messages[i].role != "developer"@,
{
    lemma_role_names();
    lemma_no_developer_role(opening(req.instructions), req.input);
}

proof fn lemma_no_developer_role(messages: Seq<ChatMessageView>, items: Seq<ResponseItemView>)
    requires
        forall|i: int| 0 <= i < messages.len() ==> (#[trigger] messages[i]).role != "developer"@,
    ensures
        forall|i: int|
            0 <= i < with_items(messages, items).len() ==> (#[trigger] with_items(
                messages,
                items,
            )[i]).role != "developer"@,
    decreases items.len(),
{
    if items.len() > 0 {
        lemma_no_developer_role(messages, items.drop_last());
        lemma_role_names();
    }
}

/// A message that makes calls answers none, and the other way round.
pub proof fn law_message_calls_or_answers(req: UnifiedRequestView, i: int)
    requires
        0 <= i < chat_request(req).messages.len(),
    ensures
        chat_request(req).messages[i].tool_calls is None || chat_request(
            req,
        ).messages[i].tool_call_id is None,
{
    lemma_calls_or_answers(opening(req.instructions), req.input);
}

proof fn lemma_calls_or_answers(messages: Seq<ChatMessageView>, items: Seq<ResponseItemView>)
    requires
        forall|i: int|
            0 <= i < messages.len() ==> (#[trigger] messages[i]).tool_calls is None
                || messages[i].tool_call_id is None,
    ensures
        forall|i: int|
            0 <= i < with_items(messages, items).len() ==> (#[trigger] with_items(
                messages,
                items,
            )[i]).tool_calls is None || with_items(messages, items)[i].tool_call_id is None,
    decreases items.len(),
{
    if items.len() > 0 {
        lemma_calls_or_answers(messages, items.drop_last());
    }
}

/// Sends neutral requests through a Chat Completions client.
pub struct OpenaiChatAdapter<S, T> {
    pub inner: StreamClient<S, T>,
    /// The most tokens that one answer may take, when the provider says so.
    pub max_output_tokens: Option<u32>,
}

impl<S, T> OpenaiChatAdapter<S, T> {
    /// An adapter over a session, with the provider's limit.
    pub fn new(session: S, max_output_tokens: Option<u32>) -> (r: Self)
        ensures
            r.inner.session == session,
            r.inner.sse_telemetry is None,
            r.max_output_tokens == max_output_tokens,
    {
        OpenaiChatAdapter { inner: StreamClient::new(session), max_output_tokens }
    }

    /// The adapter with something that listens to the answers.
    pub fn with_telemetry(self, sse: Option<T>) -> (r: Self)
        ensures
            r.inner.session == self.inner.session,
            r.inner.sse_telemetry == sse,
            r.max_output_tokens == self.max_output_tokens,
    {
        OpenaiChatAdapter {
            inner: self.inner.with_telemetry(sse),
            max_output_tokens: self.max_output_tokens,
        }
    }

    /// The request that the client is handed: the translation with the
    /// provider's limit.
    pub fn prepare(&self, request: UnifiedRequest) -> (r: ChatApiRequest)
        ensures
            r@ == (ChatApiRequestView {
                max_tokens: self.max_output_tokens,
                ..chat_request(request@)
            }),
    {
        let mut api_request = ChatApiRequest::from(request);
        api_request.max_tokens = self.max_output_tokens;
        api_request
    }
}

} // verus!
