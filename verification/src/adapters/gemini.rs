//! Requests for the Gemini protocol.

use vstd::prelude::*;
use vstd::string::*;

use crate::adapters::common::data_url;
use crate::adapters::common::join_reasoning;
use crate::adapters::common::keep_object;
use crate::adapters::common::object_or_empty;
use crate::adapters::common::only_object;
use crate::adapters::common::parse_arguments;
use crate::adapters::common::reasoning_text;
use crate::adapters::common::split_data_url;
use crate::adapters::gemini_schema::accepted;
use crate::adapters::gemini_schema::law_sanitized_is_accepted;
use crate::adapters::gemini_schema::sanitize_gemini_schema;
use crate::adapters::gemini_schema::sanitized;
use crate::adapters::gemini_schema::strip_gemini_response_schema_keys;
use crate::adapters::gemini_schema::stripped;
use crate::codec::parse_json;
use crate::codec::parsed_json;
use crate::endpoint::gemini::GeminiClient;
use crate::json::doc_field;
use crate::json::object;
use crate::json::object_doc;
use crate::json::or_empty;
use crate::json::pair_docs;
use crate::json::put_text;
use crate::json::text_field;
use crate::json::Json;
use crate::json::JsonView;
use crate::models::ContentItem;
use crate::models::ContentItemView;
use crate::models::ReasoningEffort;
use crate::models::ReasoningEffortView;
use crate::models::ResponseItem;
use crate::models::ResponseItemView;
use crate::text::add_pair;
use crate::text::contains_text;
use crate::text::has_part;
use crate::text::held;
use crate::text::look_up;
use crate::text::same_text;
use crate::text::text_map;
use crate::tool_name::flat_name;
use crate::tool_name::ToolName;
use crate::tool_name::ToolNameView;
use crate::unified::UnifiedReasoningView;
use crate::unified::UnifiedRequest;
use crate::unified::UnifiedRequestView;
use crate::unified::UnifiedTextControlsView;
use crate::wire::gemini::plain_generation;
use crate::wire::gemini::GeminiApiRequest;
use crate::wire::gemini::GeminiApiRequestView;
use crate::wire::gemini::GeminiContent;
use crate::wire::gemini::GeminiContentView;
use crate::wire::gemini::GeminiFunctionCall;
use crate::wire::gemini::GeminiFunctionCallView;
use crate::wire::gemini::GeminiFunctionCallingConfig;
use crate::wire::gemini::GeminiFunctionCallingConfigView;
use crate::wire::gemini::GeminiFunctionResponse;
use crate::wire::gemini::GeminiFunctionResponseView;
use crate::wire::gemini::GeminiGenerationConfig;
use crate::wire::gemini::GeminiGenerationConfigView;
use crate::wire::gemini::GeminiInlineData;
use crate::wire::gemini::GeminiInlineDataView;
use crate::wire::gemini::GeminiPart;
use crate::wire::gemini::GeminiPartView;
use crate::wire::gemini::GeminiSystemInstruction;
use crate::wire::gemini::GeminiSystemInstructionView;
use crate::wire::gemini::GeminiThinkingConfig;
use crate::wire::gemini::GeminiThinkingConfigView;
use crate::wire::gemini::GeminiTool;
use crate::wire::gemini::GeminiToolConfig;
use crate::wire::gemini::GeminiToolConfigView;
use crate::wire::gemini::GeminiToolDeclaration;
use crate::wire::gemini::GeminiToolDeclarationView;
use crate::wire::gemini::GeminiToolView;
use crate::sse::call_item;
use crate::tool_name::law_flat_of_tool_of_flat;
use crate::tool_name::tool_of_flat;

verus! {

/// The part of an image: a data URL is taken apart. The protocol knows no other
/// images.
pub open spec fn image_part(url: Seq<char>) -> Option<GeminiPartView> {
    match data_url(url) {
        Some((mime_type, data)) => Some(
            GeminiPartView::InlineData { inline_data: GeminiInlineDataView { mime_type, data } },
        ),
        None => None,
    }
}

/// The part of a text; none for an empty one.
pub open spec fn text_part(text: Seq<char>) -> Option<GeminiPartView> {
    if text.len() == 0 {
        None
    } else {
        Some(GeminiPartView::Text { text })
    }
}

/// The parts of a message.
pub open spec fn content_parts(content: Seq<ContentItemView>) -> Seq<GeminiPartView>
    decreases content.len(),
{
    if content.len() == 0 {
        Seq::empty()
    } else {
        let before = content_parts(content.drop_last());
        let part = match content.last() {
            ContentItemView::InputText { text } => text_part(text),
            ContentItemView::OutputText { text } => text_part(text),
            ContentItemView::InputImage { image_url, .. } => image_part(image_url),
        };
        match part {
            Some(p) => before.push(p),
            None => before,
        }
    }
}

/// The contents with further parts of a role: they join the content that ends
/// the contents when it has that role. No parts, no content.
pub open spec fn with_parts(
    contents: Seq<GeminiContentView>,
    role: Seq<char>,
    parts: Seq<GeminiPartView>,
) -> Seq<GeminiContentView> {
    if parts.len() == 0 {
        contents
    } else if contents.len() > 0 && contents.last().role == role {
        contents.drop_last().push(
            GeminiContentView { role, parts: contents.last().parts + parts },
        )
    } else {
        contents.push(GeminiContentView { role, parts })
    }
}

/// The role as the protocol calls it.
pub open spec fn gemini_role(role: Seq<char>) -> Option<Seq<char>> {
    if role == "user"@ {
        Some("user"@)
    } else if role == "assistant"@ {
        Some("model"@)
    } else {
        None
    }
}

/// The part of a call.
pub open spec fn call_part(name: Seq<char>, arguments: Seq<char>) -> GeminiPartView {
    GeminiPartView::FunctionCall {
        function_call: GeminiFunctionCallView {
            name,
            args: object_or_empty(parsed_json(arguments)),
        },
    }
}

/// The object with one text field.
pub open spec fn single_text(key: Seq<char>, text: Seq<char>) -> JsonView {
    object_doc(Seq::<(Seq<char>, JsonView)>::empty() + seq![(key, JsonView::Text(text))])
}

/// What a tool gave back, as an object: its output when that is an object, and
/// otherwise its text under `output`, or under `error` when the tool failed.
pub open spec fn response_doc(
    body: Seq<char>,
    success: Option<bool>,
    read: Option<JsonView>,
) -> JsonView {
    if success == Some(false) {
        single_text("error"@, body)
    } else {
        match only_object(read) {
            Some(object) => object,
            None => single_text("output"@, body),
        }
    }
}

/// The part of a call's answer. A call that is not known answers by its id.
pub open spec fn answer_part(
    names: Map<Seq<char>, Seq<char>>,
    call_id: Seq<char>,
    text: Option<Seq<char>>,
    success: Option<bool>,
) -> GeminiPartView {
    GeminiPartView::FunctionResponse {
        function_response: GeminiFunctionResponseView {
            name: match held(names, call_id) {
                Some(name) => name,
                None => call_id,
            },
            response: response_doc(or_empty(text), success, parsed_json(or_empty(text))),
        },
    }
}

/// The contents so far and the name of each call's tool.
#[verifier::ext_equal]
pub struct DraftView {
    pub contents: Seq<GeminiContentView>,
    pub names: Map<Seq<char>, Seq<char>>,
}

/// The draft with one more call.
pub open spec fn with_call(
    draft: DraftView,
    call_id: Seq<char>,
    namespace: Option<Seq<char>>,
    name: Seq<char>,
    arguments: Seq<char>,
) -> DraftView {
    let flat = flat_name(ToolNameView { name, namespace });
    DraftView {
        contents: with_parts(draft.contents, "model"@, seq![call_part(flat, arguments)]),
        names: draft.names.insert(call_id, flat),
    }
}

/// The draft with one more item of the conversation. Reasoning is handed back
/// only with its signature. Items that the protocol has no counterpart for leave
/// no trace.
pub open spec fn with_item(draft: DraftView, item: ResponseItemView) -> DraftView {
    match item {
        ResponseItemView::Message { role, content, .. } => match gemini_role(role) {
            Some(r) => DraftView {
                contents: with_parts(draft.contents, r, content_parts(content)),
                ..draft
            },
            None => draft,
        },
        ResponseItemView::FunctionCall { name, namespace, arguments, call_id, .. } => with_call(
            draft,
            call_id,
            namespace,
            name,
            arguments,
        ),
        ResponseItemView::CustomToolCall { call_id, name, namespace, input, .. } => with_call(
            draft,
            call_id,
            namespace,
            name,
            input,
        ),
        ResponseItemView::FunctionCallOutput { call_id, output, .. } => DraftView {
            contents: with_parts(
                draft.contents,
                "user"@,
                seq![answer_part(draft.names, call_id, output.text, output.success)],
            ),
            ..draft
        },
        ResponseItemView::CustomToolCallOutput { call_id, output, .. } => DraftView {
            contents: with_parts(
                draft.contents,
                "user"@,
                seq![answer_part(draft.names, call_id, output.text, output.success)],
            ),
            ..draft
        },
        ResponseItemView::Reasoning { content, continuity_token, .. } => match continuity_token {
            Some(signature) => if reasoning_text(content).len() == 0 {
                draft
            } else {
                DraftView {
                    contents: with_parts(
                        draft.contents,
                        "model"@,
                        seq![
                            GeminiPartView::Thought {
                                thought: true,
                                text: reasoning_text(content),
                                thought_signature: Some(signature),
                            },
                        ],
                    ),
                    ..draft
                }
            },
            None => draft,
        },
        _ => draft,
    }
}

/// The draft of a conversation.
pub open spec fn drafted(items: Seq<ResponseItemView>) -> DraftView
    decreases items.len(),
{
    if items.len() == 0 {
        DraftView { contents: Seq::empty(), names: Map::empty() }
    } else {
        with_item(drafted(items.drop_last()), items.last())
    }
}

/// The schema of a function without parameters.
pub open spec fn bare_parameters() -> JsonView {
    single_text("type"@, "object"@)
}

/// A tool as the protocol declares it; none for tools that are no functions and
/// for functions without a name.
pub open spec fn declaration(tool: JsonView) -> Option<GeminiToolDeclarationView> {
    if text_field(tool, "type"@) == Some("function"@) {
        match text_field(tool, "name"@) {
            Some(name) => Some(
                GeminiToolDeclarationView {
                    name,
                    description: text_field(tool, "description"@),
                    parameters: Some(
                        sanitized(
                            match only_object(doc_field(tool, "parameters"@)) {
                                Some(parameters) => parameters,
                                None => bare_parameters(),
                            },
                        ),
                    ),
                },
            ),
            None => None,
        }
    } else {
        None
    }
}

/// The tools that the protocol can declare, in their order.
pub open spec fn declarations(tools: Seq<JsonView>) -> Seq<GeminiToolDeclarationView>
    decreases tools.len(),
{
    if tools.len() == 0 {
        Seq::empty()
    } else {
        match declaration(tools.last()) {
            Some(tool) => declarations(tools.drop_last()).push(tool),
            None => declarations(tools.drop_last()),
        }
    }
}

/// The tools of a request: one set of declarations, or none.
pub open spec fn gemini_tools(tools: Option<Seq<JsonView>>) -> Option<Seq<GeminiToolView>> {
    match tools {
        Some(t) => if declarations(t).len() == 0 {
            None
        } else {
            Some(seq![GeminiToolView { function_declarations: declarations(t) }])
        },
        None => None,
    }
}

/// The choice of tools: by the neutral words for none, some and any, and
/// otherwise by name.
pub open spec fn gemini_tool_choice(choice: Seq<char>) -> Option<GeminiToolConfigView> {
    if choice.len() == 0 {
        None
    } else {
        Some(
            GeminiToolConfigView {
                function_calling_config: if choice == "none"@ {
                    GeminiFunctionCallingConfigView {
                        mode: "NONE"@,
                        allowed_function_names: None,
                    }
                } else if choice == "auto"@ {
                    GeminiFunctionCallingConfigView {
                        mode: "AUTO"@,
                        allowed_function_names: None,
                    }
                } else if choice == "required"@ {
                    GeminiFunctionCallingConfigView { mode: "ANY"@, allowed_function_names: None }
                } else {
                    GeminiFunctionCallingConfigView {
                        mode: "ANY"@,
                        allowed_function_names: Some(seq![choice]),
                    }
                },
            },
        )
    }
}

/// The system prompt: the instructions, when there are any.
pub open spec fn gemini_system(instructions: Seq<char>) -> Option<GeminiSystemInstructionView> {
    if instructions.len() == 0 {
        None
    } else {
        Some(
            GeminiSystemInstructionView {
                role: None,
                parts: seq![GeminiPartView::Text { text: instructions }],
            },
        )
    }
}

/// A request for the protocol, before generation is configured.
pub open spec fn gemini_request(req: UnifiedRequestView) -> GeminiApiRequestView {
    GeminiApiRequestView {
        contents: drafted(req.input).contents,
        system_instruction: gemini_system(req.instructions),
        tools: gemini_tools(req.tools),
        tool_config: if gemini_tools(req.tools) is Some {
            gemini_tool_choice(req.tool_choice)
        } else {
            None
        },
        generation_config: None,
    }
}

/// The budget of an effort, for models that think by budget; zero does not
/// think.
pub open spec fn effort_budget(effort: Option<ReasoningEffortView>) -> i32 {
    match effort {
        Some(ReasoningEffortView::Low) => 2_048,
        Some(ReasoningEffortView::Medium) => 8_192,
        Some(ReasoningEffortView::High) => 16_384,
        Some(ReasoningEffortView::XHigh) => 20_480,
        Some(ReasoningEffortView::Max) => 24_576,
        Some(ReasoningEffortView::Ultra) => 24_576,
        _ => 0,
    }
}

/// The level of an effort, for models that think by level.
pub open spec fn effort_level(effort: Option<ReasoningEffortView>) -> Seq<char> {
    match effort {
        Some(ReasoningEffortView::Low) => "low"@,
        Some(ReasoningEffortView::Medium) => "medium"@,
        Some(ReasoningEffortView::High) => "high"@,
        Some(ReasoningEffortView::XHigh) => "high"@,
        Some(ReasoningEffortView::Max) => "high"@,
        Some(ReasoningEffortView::Ultra) => "high"@,
        _ => "minimal"@,
    }
}

/// How a model is asked to think: by budget or by level, as its name says; a
/// model of another name is left alone.
pub open spec fn thinking_for(effort: Option<ReasoningEffortView>, model: Seq<char>) -> Option<
    GeminiThinkingConfigView,
> {
    if has_part(model, "gemini-2.5"@) {
        let budget = effort_budget(effort);
        Some(
            GeminiThinkingConfigView {
                thinking_budget: Some(budget),
                thinking_level: None,
                include_thoughts: if budget == 0 {
                    None
                } else {
                    Some(true)
                },
            },
        )
    } else if has_part(model, "gemini-3"@) {
        Some(
            GeminiThinkingConfigView {
                thinking_budget: None,
                thinking_level: Some(effort_level(effort)),
                include_thoughts: Some(true),
            },
        )
    } else {
        None
    }
}

/// The schema that the answer must follow.
pub open spec fn output_schema(text: Option<UnifiedTextControlsView>) -> Option<JsonView> {
    match text {
        Some(t) => match t.format {
            Some(format) => Some(format.schema),
            None => None,
        },
        None => None,
    }
}

/// The effort that a request asks for.
pub open spec fn asked_effort(reasoning: Option<UnifiedReasoningView>) -> Option<
    ReasoningEffortView,
> {
    match reasoning {
        Some(r) => r.effort,
        None => None,
    }
}

/// How the answer is generated: thinking by model and effort, the provider's
/// limit, and the answer's schema in the form that the protocol accepts.
pub open spec fn generation_for(
    req: UnifiedRequestView,
    max_output_tokens: Option<u32>,
) -> GeminiGenerationConfigView {
    let thought = GeminiGenerationConfigView {
        thinking_config: thinking_for(asked_effort(req.reasoning), req.model),
        max_output_tokens,
        ..plain_generation()
    };
    match output_schema(req.text) {
        Some(schema) => GeminiGenerationConfigView {
            response_mime_type: Some("application/json"@),
            response_schema: Some(sanitized(stripped(schema))),
            ..thought
        },
        None => thought,
    }
}

/// The request that goes out.
pub open spec fn prepared_request(
    req: UnifiedRequestView,
    max_output_tokens: Option<u32>,
) -> GeminiApiRequestView {
    GeminiApiRequestView {
        generation_config: Some(generation_for(req, max_output_tokens)),
        ..gemini_request(req)
    }
}

/// Takes the data of an image out of its address.
pub fn gemini_inline_data(image_url: &str) -> (r: Option<GeminiPart>)
    ensures
        r.deep_view() == image_part(image_url@),
{
    match split_data_url(image_url) {
        Some((mime_type, data)) => Some(
            GeminiPart::InlineData { inline_data: GeminiInlineData { mime_type, data } },
        ),
        None => None,
    }
}

fn push_part(parts: &mut Vec<GeminiPart>, part: GeminiPart)
    ensures
        final(parts).deep_view() == old(parts).deep_view().push(part@),
{
    parts.push(part);
    assert(parts.deep_view() =~= old(parts).deep_view().push(part@));
}

/// The parts of a message.
pub fn message_content_to_parts(content: &Vec<ContentItem>) -> (r: Vec<GeminiPart>)
    ensures
        r.deep_view() == content_parts(content.deep_view()),
{
    let ghost all = content.deep_view();
    let mut out: Vec<GeminiPart> = Vec::new();
    let mut i: usize = 0;
    assert(all.take(0) =~= Seq::<ContentItemView>::empty());
    assert(out.deep_view() =~= Seq::<GeminiPartView>::empty());
    while i < content.len()
        invariant
            i <= content@.len(),
            all == content.deep_view(),
            out.deep_view() == content_parts(all.take(i as int)),
        decreases content@.len() - i,
    {
        proof {
            assert(all.take(i + 1).drop_last() =~= all.take(i as int));
            assert(all.take(i + 1).last() == content@[i as int]@);
        }
        match &content[i] {
            ContentItem::InputText { text } | ContentItem::OutputText { text } => {
                if !text.as_str().is_empty() {
                    push_part(&mut out, GeminiPart::Text { text: text.clone() });
                }
            },
            ContentItem::InputImage { image_url, .. } => {
                if let Some(part) = gemini_inline_data(image_url.as_str()) {
                    push_part(&mut out, part);
                }
            },
        }
        i += 1;
    }
    assert(all.take(i as int) =~= all);
    out
}

/// Adds parts of a role to the contents.
pub fn append_parts(contents: &mut Vec<GeminiContent>, role: &str, new_parts: Vec<GeminiPart>)
    ensures
        final(contents).deep_view() == with_parts(
            old(contents).deep_view(),
            role@,
            new_parts.deep_view(),
        ),
{
    if new_parts.len() == 0 {
        return ;
    }
    let ghost before = contents.deep_view();
    let ghost added = new_parts.deep_view();
    let n: usize = contents.len();
    if n > 0 && same_text(contents[n - 1].role.as_str(), role) {
        assert(before.last() == contents@[n - 1]@);
        if let Some(mut last) = contents.pop() {
            let mut new_parts = new_parts;
            let ghost held_parts = last.parts.deep_view();
            last.parts.append(&mut new_parts);
            assert(last.parts.deep_view() =~= held_parts + added);
            contents.push(last);
            assert(contents.deep_view() =~= before.drop_last().push(
                GeminiContentView { role: role@, parts: held_parts + added },
            ));
        }
    } else {
        assert(n > 0 ==> before.last() == contents@[n - 1]@);
        contents.push(GeminiContent { role: role.to_owned(), parts: new_parts });
        assert(contents.deep_view() =~= before.push(
            GeminiContentView { role: role@, parts: added },
        ));
    }
}

fn append_part(contents: &mut Vec<GeminiContent>, role: &str, part: GeminiPart)
    ensures
        final(contents).deep_view() == with_parts(old(contents).deep_view(), role@, seq![part@]),
{
    let mut parts: Vec<GeminiPart> = Vec::new();
    parts.push(part);
    assert(parts.deep_view() =~= seq![part@]);
    append_parts(contents, role, parts);
}

/// Reads the arguments of a call.
pub fn parse_tool_args(arguments: &str) -> (r: Json)
    ensures
        r@ == object_or_empty(parsed_json(arguments@)),
{
    parse_arguments(arguments)
}

/// Adds a call of the model.
pub fn push_function_call(contents: &mut Vec<GeminiContent>, name: String, arguments: String)
    ensures
        final(contents).deep_view() == with_parts(
            old(contents).deep_view(),
            "model"@,
            seq![call_part(name@, arguments@)],
        ),
{
    let args = parse_tool_args(arguments.as_str());
    append_part(
        contents,
        "model",
        GeminiPart::FunctionCall { function_call: GeminiFunctionCall { name, args } },
    );
}

fn single_text_object(key: &str, text: &str) -> (r: Json)
    ensures
        r@ == single_text(key@, text@),
{
    let mut fields: Vec<(String, Json)> = Vec::new();
    assert(pair_docs(fields@) =~= Seq::<(Seq<char>, JsonView)>::empty());
    put_text(&mut fields, key, text);
    object(fields)
}

/// What a tool gave back, as an object, given the document that was read from
/// its text.
pub fn response_object(body: &str, success: Option<bool>, read: Option<Json>) -> (r: Json)
    ensures
        r@ == response_doc(body@, success, read.deep_view()),
{
    let failed = match success {
        Some(s) => !s,
        None => false,
    };
    if failed {
        single_text_object("error", body)
    } else {
        match keep_object(read) {
            Some(object) => object,
            None => single_text_object("output", body),
        }
    }
}

/// Adds the answer to a call, by the name of its tool, or by the call's id when
/// the name is not known.
pub fn push_function_response(
    contents: &mut Vec<GeminiContent>,
    call_id: String,
    text: Option<String>,
    success: Option<bool>,
    name_opt: Option<String>,
)
    ensures
        final(contents).deep_view() == with_parts(
            old(contents).deep_view(),
            "user"@,
            seq![
                GeminiPartView::FunctionResponse {
                    function_response: GeminiFunctionResponseView {
                        name: match name_opt {
                            Some(name) => name@,
                            None => call_id@,
                        },
                        response: response_doc(
                            or_empty(text.deep_view()),
                            success,
                            parsed_json(or_empty(text.deep_view())),
                        ),
                    },
                },
            ],
        ),
{
    let body = match text {
        Some(t) => t,
        None => String::new(),
    };
    assert(text is None ==> body@ =~= Seq::<char>::empty());
    let response = response_object(body.as_str(), success, parse_json(body.as_str()));
    let name = match name_opt {
        Some(name) => name,
        None => call_id,
    };
    append_part(
        contents,
        "user",
        GeminiPart::FunctionResponse { function_response: GeminiFunctionResponse { name, response } },
    );
}

/// The role as the protocol calls it.
pub fn normalize_role(role: &str) -> (r: Option<String>)
    ensures
        r.deep_view() == gemini_role(role@),
{
    if same_text(role, "user") {
        Some("user".to_owned())
    } else if same_text(role, "assistant") {
        Some("model".to_owned())
    } else {
        None
    }
}

/// What has been put together of a request: the contents, and the name of each
/// call's tool.
pub open spec fn draft_of(contents: Seq<GeminiContentView>, names: Seq<(Seq<char>, Seq<char>)>) -> DraftView {
    DraftView { contents, names: text_map(names) }
}

fn translate_call(
    call_id: String,
    namespace: Option<String>,
    name: String,
    arguments: String,
    contents: &mut Vec<GeminiContent>,
    tool_name_by_call_id: &mut Vec<(String, String)>,
)
    ensures
        draft_of(final(contents).deep_view(), final(tool_name_by_call_id).deep_view()) == with_call(
            draft_of(old(contents).deep_view(), old(tool_name_by_call_id).deep_view()),
            call_id@,
            namespace.deep_view(),
            name@,
            arguments@,
        ),
{
    let flat = ToolName::new(namespace, name).to_flat_wire_name();
    add_pair(tool_name_by_call_id, call_id, flat.clone());
    push_function_call(contents, flat, arguments);
}

/// Adds one item of the conversation.
pub fn translate_item(
    item: ResponseItem,
    contents: &mut Vec<GeminiContent>,
    tool_name_by_call_id: &mut Vec<(String, String)>,
)
    ensures
        draft_of(final(contents).deep_view(), final(tool_name_by_call_id).deep_view()) == with_item(
            draft_of(old(contents).deep_view(), old(tool_name_by_call_id).deep_view()),
            item@,
        ),
{
    match item {
        ResponseItem::Message { role, content, .. } => {
            if let Some(role) = normalize_role(role.as_str()) {
                let parts = message_content_to_parts(&content);
                append_parts(contents, role.as_str(), parts);
            }
        },
        ResponseItem::FunctionCall { name, namespace, arguments, call_id, .. } => {
            translate_call(call_id, namespace, name, arguments, contents, tool_name_by_call_id);
        },
        ResponseItem::CustomToolCall { call_id, name, namespace, input, .. } => {
            translate_call(call_id, namespace, name, input, contents, tool_name_by_call_id);
        },
        ResponseItem::FunctionCallOutput { call_id, output, .. } => {
            let name = look_up(tool_name_by_call_id, call_id.as_str());
            push_function_response(contents, call_id, output.text, output.success, name);
        },
        ResponseItem::CustomToolCallOutput { call_id, output, .. } => {
            let name = look_up(tool_name_by_call_id, call_id.as_str());
            push_function_response(contents, call_id, output.text, output.success, name);
        },
        ResponseItem::Reasoning { content, continuity_token, .. } => {
            if let Some(signature) = continuity_token {
                let text = join_reasoning(&content);
                if !text.as_str().is_empty() {
                    append_part(
                        contents,
                        "model",
                        GeminiPart::Thought {
                            thought: true,
                            text,
                            thought_signature: Some(signature),
                        },
                    );
                }
            }
        },
        ResponseItem::AgentMessage(_)
        | ResponseItem::LocalShellCall(_)
        | ResponseItem::ToolSearchCall(_)
        | ResponseItem::ToolSearchOutput { .. }
        | ResponseItem::WebSearchCall(_)
        | ResponseItem::ImageGenerationCall(_)
        | ResponseItem::Compaction(_)
        | ResponseItem::ContextCompaction(_)
        | ResponseItem::CompactionTrigger
        | ResponseItem::AdditionalTools(_)
        | ResponseItem::Other => {},
    }
}

/// Declares a tool for the protocol.
pub fn responses_tool_to_gemini(tool: &Json) -> (r: Option<GeminiToolDeclaration>)
    ensures
        r.deep_view() == declaration(tool@),
{
    match tool.text_at("type") {
        Some(kind) => if !same_text(kind.as_str(), "function") {
            return None;
        },
        None => {
            return None;
        },
    }
    let name = match tool.text_at("name") {
        Some(name) => name,
        None => {
            return None;
        },
    };
    let given = match tool.get("parameters") {
        Some(value) => Some(value.copy()),
        None => None,
    };
    let mut parameters = match keep_object(given) {
        Some(object) => object,
        None => single_text_object("type", "object"),
    };
    sanitize_gemini_schema(&mut parameters);
    Some(
        GeminiToolDeclaration {
            name,
            description: tool.text_at("description"),
            parameters: Some(parameters),
        },
    )
}

fn declare_tools(tools: &Vec<Json>) -> (r: Vec<GeminiToolDeclaration>)
    ensures
        r.deep_view() == declarations(tools.deep_view()),
{
    let ghost all = tools.deep_view();
    let mut out: Vec<GeminiToolDeclaration> = Vec::new();
    let mut i: usize = 0;
    assert(all.take(0) =~= Seq::<JsonView>::empty());
    assert(out.deep_view() =~= Seq::<GeminiToolDeclarationView>::empty());
    while i < tools.len()
        invariant
            i <= tools@.len(),
            all == tools.deep_view(),
            out.deep_view() == declarations(all.take(i as int)),
        decreases tools@.len() - i,
    {
        proof {
            assert(all.take(i + 1).drop_last() =~= all.take(i as int));
            assert(all.take(i + 1).last() == tools@[i as int]@);
        }
        if let Some(tool) = responses_tool_to_gemini(&tools[i]) {
            let ghost before = out.deep_view();
            let ghost added = tool@;
            out.push(tool);
            assert(out.deep_view() =~= before.push(added));
        }
        i += 1;
    }
    assert(all.take(i as int) =~= all);
    out
}

/// The choice of tools.
pub fn tool_choice_to_gemini(tool_choice: &str) -> (r: Option<GeminiToolConfig>)
    ensures
        r.deep_view() == gemini_tool_choice(tool_choice@),
{
    if tool_choice.is_empty() {
        return None;
    }
    let config = if same_text(tool_choice, "none") {
        GeminiFunctionCallingConfig { mode: "NONE".to_owned(), allowed_function_names: None }
    } else if same_text(tool_choice, "auto") {
        GeminiFunctionCallingConfig { mode: "AUTO".to_owned(), allowed_function_names: None }
    } else if same_text(tool_choice, "required") {
        GeminiFunctionCallingConfig { mode: "ANY".to_owned(), allowed_function_names: None }
    } else {
        let mut names: Vec<String> = Vec::new();
        names.push(tool_choice.to_owned());
        assert(names.deep_view() =~= seq![tool_choice@]);
        GeminiFunctionCallingConfig { mode: "ANY".to_owned(), allowed_function_names: Some(names) }
    };
    Some(GeminiToolConfig { function_calling_config: config })
}

impl From<UnifiedRequest> for GeminiApiRequest {
    fn from(req: UnifiedRequest) -> (r: GeminiApiRequest)
        ensures
            r@ == gemini_request(req@),
    {
        let system_instruction = if req.instructions.as_str().is_empty() {
            None
        } else {
            let mut parts: Vec<GeminiPart> = Vec::new();
            parts.push(GeminiPart::Text { text: req.instructions });
            assert(parts.deep_view() =~= seq![GeminiPartView::Text { text: req@.instructions }]);
            Some(GeminiSystemInstruction { role: None, parts })
        };
        let mut names: Vec<(String, String)> = Vec::new();
        let mut contents: Vec<GeminiContent> = Vec::new();
        let input = req.input;
        let ghost all = input.deep_view();
        assert(all.take(0) =~= Seq::<ResponseItemView>::empty());
        assert(contents.deep_view() =~= Seq::<GeminiContentView>::empty());
        assert(names.deep_view() =~= Seq::<(Seq<char>, Seq<char>)>::empty());
        for item in it: input
            invariant
                it.seq() == input@,
                all == input.deep_view(),
                draft_of(contents.deep_view(), names.deep_view()) == drafted(
                    all.take(it.index() as int),
                ),
        {
            proof {
                let i = it.index() as int;
                assert(all.take(i + 1).drop_last() =~= all.take(i));
                assert(all.take(i + 1).last() == item@);
            }
            translate_item(item, &mut contents, &mut names);
        }
        assert(all.take(all.len() as int) =~= all);
        let tools = match &req.tools {
            Some(tools) => {
                let function_declarations = declare_tools(tools);
                if function_declarations.len() == 0 {
                    None
                } else {
                    let mut sets: Vec<GeminiTool> = Vec::new();
                    let set = GeminiTool { function_declarations };
                    let ghost declared = set@;
                    sets.push(set);
                    assert(sets.deep_view() =~= seq![declared]);
                    Some(sets)
                }
            },
            None => None,
        };
        let tool_config = if tools.is_some() {
            tool_choice_to_gemini(req.tool_choice.as_str())
        } else {
            None
        };
        GeminiApiRequest {
            contents,
            system_instruction,
            tools,
            tool_config,
            generation_config: None,
        }
    }
}

impl vstd::std_specs::convert::FromSpecImpl<UnifiedRequest> for GeminiApiRequest {
    open spec fn obeys_from_spec() -> bool {
        false
    }

    open spec fn from_spec(req: UnifiedRequest) -> GeminiApiRequest {
        choose|r: GeminiApiRequest| r@ == gemini_request(req@)
    }
}

/// How a model is asked to think.
pub fn thinking_config_from_effort(effort: Option<&ReasoningEffort>, model: &str) -> (r: Option<
    GeminiThinkingConfig,
>)
    ensures
        r.deep_view() == thinking_for(effort.deep_view(), model@),
{
    if contains_text(model, "gemini-2.5") {
        let budget: i32 = match effort {
            Some(ReasoningEffort::Low) => 2_048,
            Some(ReasoningEffort::Medium) => 8_192,
            Some(ReasoningEffort::High) => 16_384,
            Some(ReasoningEffort::XHigh) => 20_480,
            Some(ReasoningEffort::Max) => 24_576,
            Some(ReasoningEffort::Ultra) => 24_576,
            _ => 0,
        };
        Some(
            GeminiThinkingConfig {
                thinking_budget: Some(budget),
                thinking_level: None,
                include_thoughts: if budget == 0 {
                    None
                } else {
                    Some(true)
                },
            },
        )
    } else if contains_text(model, "gemini-3") {
        let level = match effort {
            Some(ReasoningEffort::Low) => "low",
            Some(ReasoningEffort::Medium) => "medium",
            Some(ReasoningEffort::High) => "high",
            Some(ReasoningEffort::XHigh) => "high",
            Some(ReasoningEffort::Max) => "high",
            Some(ReasoningEffort::Ultra) => "high",
            _ => "minimal",
        };
        Some(
            GeminiThinkingConfig {
                thinking_budget: None,
                thinking_level: Some(level.to_owned()),
                include_thoughts: Some(true),
            },
        )
    } else {
        None
    }
}

/// Sends neutral requests through a Gemini client.
pub struct GeminiAdapter<S, T> {
    pub inner: GeminiClient<S, T>,
    /// The most tokens that one answer may take, when the provider says so.
    pub max_output_tokens: Option<u32>,
}

impl<S, T> GeminiAdapter<S, T> {
    /// An adapter over a session, with the provider's limit.
    pub fn new(session: S, max_output_tokens: Option<u32>) -> (r: Self)
        ensures
            r.inner.session == session,
            r.inner.sse_telemetry is None,
            r.max_output_tokens == max_output_tokens,
    {
        GeminiAdapter { inner: GeminiClient::new(session), max_output_tokens }
    }

    /// The adapter with something that listens to the answers.
    pub fn with_telemetry(self, sse: Option<T>) -> (r: Self)
        ensures
            r.inner.session == self.inner.session,
            r.inner.sse_telemetry == sse,
            r.max_output_tokens == self.max_output_tokens,
    {
        GeminiAdapter {
            inner: self.inner.with_telemetry(sse),
            max_output_tokens: self.max_output_tokens,
        }
    }

    /// The request that the client is handed.
    pub fn prepare(&self, request: UnifiedRequest) -> (r: GeminiApiRequest)
        ensures
            r@ == prepared_request(request@, self.max_output_tokens),
    {
        let thinking_config = match &request.reasoning {
            Some(reasoning) => thinking_config_from_effort(
                reasoning.effort.as_ref(),
                request.model.as_str(),
            ),
            None => thinking_config_from_effort(None, request.model.as_str()),
        };
        let mut generation = GeminiGenerationConfig::default();
        generation.thinking_config = thinking_config;
        generation.max_output_tokens = self.max_output_tokens;
        if let Some(text) = &request.text {
            if let Some(format) = &text.format {
                let mut schema = format.schema.copy();
                strip_gemini_response_schema_keys(&mut schema);
                sanitize_gemini_schema(&mut schema);
                generation.response_mime_type = Some("application/json".to_owned());
                generation.response_schema = Some(schema);
            }
        }
        let mut api_request = GeminiApiRequest::from(request);
        api_request.generation_config = Some(generation);
        api_request
    }
}

/// Contents as the protocol wants them: two roles that take turns, and none
/// without parts. No text is empty, and thoughts carry their signature.
pub open spec fn sound_contents(contents: Seq<GeminiContentView>) -> bool {
    &&& forall|i: int|
        0 <= i < contents.len() ==> ((#[trigger] contents[i]).role == "user"@ || contents[i].role
            == "model"@)
    &&& forall|i: int| 0 <= i < contents.len() ==> (#[trigger] contents[i]).parts.len() > 0
    &&& forall|i: int, j: int|
        0 <= i && j == i + 1 && j < contents.len() ==> (#[trigger] contents[i]).role != (
        #[trigger] contents[j]).role
    &&& forall|i: int| 0 <= i < contents.len() ==> sound_parts((#[trigger] contents[i]).parts)
}

/// A part as the protocol wants it: a text is not empty, and neither is a thought,
/// which is marked as one and carries a signature.
pub open spec fn sound_part(part: GeminiPartView) -> bool {
    match part {
        GeminiPartView::Text { text } => text.len() > 0,
        GeminiPartView::Thought { thought, text, thought_signature } => thought && text.len() > 0
            && thought_signature is Some,
        _ => true,
    }
}

/// Every part is as the protocol wants it.
pub open spec fn sound_parts(parts: Seq<GeminiPartView>) -> bool {
    forall|i: int| 0 <= i < parts.len() ==> sound_part(#[trigger] parts[i])
}

proof fn lemma_with_parts(
    contents: Seq<GeminiContentView>,
    role: Seq<char>,
    parts: Seq<GeminiPartView>,
)
    requires
        sound_contents(contents),
        role == "user"@ || role == "model"@,
        sound_parts(parts),
    ensures
        sound_contents(with_parts(contents, role, parts)),
        all_parts(with_parts(contents, role, parts)) == all_parts(contents) + parts,
{
    let after = with_parts(contents, role, parts);
    if parts.len() > 0 {
        if contents.len() > 0 && contents.last().role == role {
            let n = contents.len() - 1;
            assert(sound_parts(contents[n].parts));
            assert(forall|i: int| 0 <= i < n ==> after[i] == contents[i]);
            assert(sound_parts(after[n].parts));
            assert(after[n].role == contents[n].role);
            assert(after.drop_last() =~= contents.drop_last());
            assert(all_parts(after) =~= all_parts(contents) + parts);
        } else {
            assert(forall|i: int| 0 <= i < contents.len() ==> after[i] == contents[i]);
            assert(after.drop_last() =~= contents);
        }
    } else {
        assert(all_parts(contents) + parts =~= all_parts(contents));
    }
}

proof fn lemma_content_parts_sound(content: Seq<ContentItemView>)
    ensures
        sound_parts(content_parts(content)),
    decreases content.len(),
{
    if content.len() > 0 {
        lemma_content_parts_sound(content.drop_last());
    }
}

/// The parts of contents, one content after the other.
pub open spec fn all_parts(contents: Seq<GeminiContentView>) -> Seq<GeminiPartView>
    decreases contents.len(),
{
    if contents.len() == 0 {
        Seq::empty()
    } else {
        all_parts(contents.drop_last()) + contents.last().parts
    }
}

/// The parts of one item, with the names of the calls before it.
pub open spec fn item_parts(
    names: Map<Seq<char>, Seq<char>>,
    item: ResponseItemView,
) -> Seq<GeminiPartView> {
    match item {
        ResponseItemView::Message { role, content, .. } => match gemini_role(role) {
            Some(_) => content_parts(content),
            None => Seq::empty(),
        },
        ResponseItemView::FunctionCall { name, namespace, arguments, .. } => seq![
            call_part(flat_name(ToolNameView { name, namespace }), arguments),
        ],
        ResponseItemView::CustomToolCall { name, namespace, input, .. } => seq![
            call_part(flat_name(ToolNameView { name, namespace }), input),
        ],
        ResponseItemView::FunctionCallOutput { call_id, output, .. } => seq![
            answer_part(names, call_id, output.text, output.success),
        ],
        ResponseItemView::CustomToolCallOutput { call_id, output, .. } => seq![
            answer_part(names, call_id, output.text, output.success),
        ],
        ResponseItemView::Reasoning { content, continuity_token: Some(signature), .. } =>
            if reasoning_text(content).len() == 0 {
                Seq::empty()
            } else {
                seq![
                    GeminiPartView::Thought {
                        thought: true,
                        text: reasoning_text(content),
                        thought_signature: Some(signature),
                    },
                ]
            },
        _ => Seq::empty(),
    }
}

/// The parts of a conversation, item by item.
pub open spec fn conversation_parts(items: Seq<ResponseItemView>) -> Seq<GeminiPartView>
    decreases items.len(),
{
    if items.len() == 0 {
        Seq::empty()
    } else {
        conversation_parts(items.drop_last()) + item_parts(
            drafted(items.drop_last()).names,
            items.last(),
        )
    }
}

/// The contents of a conversation take turns between the two roles, none is
/// empty and no text in them is, and thoughts are handed back only with their
/// signature. They hold the parts of all items, in their order.
pub proof fn law_contents_are_sound(items: Seq<ResponseItemView>)
    ensures
        sound_contents(drafted(items).contents),
        all_parts(drafted(items).contents) == conversation_parts(items),
    decreases items.len(),
{
    if items.len() > 0 {
        let before = drafted(items.drop_last());
        law_contents_are_sound(items.drop_last());
        let parts = item_parts(before.names, items.last());
        let role = match items.last() {
            ResponseItemView::Message { role, .. } => match gemini_role(role) {
                Some(r) => r,
                None => "user"@,
            },
            ResponseItemView::FunctionCallOutput { .. } => "user"@,
            ResponseItemView::CustomToolCallOutput { .. } => "user"@,
            _ => "model"@,
        };
        if let ResponseItemView::Message { content, .. } = items.last() {
            lemma_content_parts_sound(content);
        }
        assert(sound_parts(parts));
        lemma_with_parts(before.contents, role, parts);
        assert(drafted(items).contents == with_parts(before.contents, role, parts));
    }
}

/// The answer to a call carries the name under which the call's tool is
/// declared.
pub proof fn law_answer_names_its_call(
    items: Seq<ResponseItemView>,
    call: ResponseItemView,
    call_id: Seq<char>,
    tool: ToolNameView,
)
    requires
        match call {
            ResponseItemView::FunctionCall { name, namespace, call_id: id, .. } => id == call_id
                && tool == (ToolNameView { name, namespace }),
            ResponseItemView::CustomToolCall { name, namespace, call_id: id, .. } => id == call_id
                && tool == (ToolNameView { name, namespace }),
            _ => false,
        },
    ensures
        held(drafted(items.push(call)).names, call_id) == Some(flat_name(tool)),
{
    assert(items.push(call).drop_last() =~= items);
}

/// A call that was read from an answer goes back under the name that it came
/// with.
pub proof fn law_replayed_call_keeps_its_name(
    draft: DraftView,
    flat: Seq<char>,
    arguments: Seq<char>,
    call_id: Seq<char>,
)
    ensures
        with_item(
            draft,
            call_item(tool_of_flat(flat).name, tool_of_flat(flat).namespace, arguments, call_id),
        ) == (DraftView {
            contents: with_parts(draft.contents, "model"@, seq![call_part(flat, arguments)]),
            names: draft.names.insert(call_id, flat),
        }),
{
    law_flat_of_tool_of_flat(flat);
    let tool = tool_of_flat(flat);
    assert(ToolNameView { name: tool.name, namespace: tool.namespace } == tool);
}

/// Every declared tool has parameters in the form that the protocol accepts, and
/// so has the answer's schema.
pub proof fn law_schemas_are_accepted(
    req: UnifiedRequestView,
    max_output_tokens: Option<u32>,
    tool: JsonView,
)
    ensures
        declaration(tool) matches Some(declared) ==> (declared.parameters matches Some(parameters)
            && accepted(parameters)),
        generation_for(req, max_output_tokens).response_schema matches Some(schema) ==> accepted(
            schema,
        ),
{
    law_sanitized_is_accepted(
        match only_object(doc_field(tool, "parameters"@)) {
            Some(parameters) => parameters,
            None => bare_parameters(),
        },
    );
    if let Some(schema) = output_schema(req.text) {
        law_sanitized_is_accepted(stripped(schema));
    }
}

} // verus!
