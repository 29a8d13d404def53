//! Requests for the Anthropic Messages protocol.

use vstd::prelude::*;
use vstd::string::*;

use crate::adapters::common::arguments_or_empty;
use crate::adapters::common::data_url;
use crate::adapters::common::join_reasoning;
use crate::adapters::common::object_or_empty;
use crate::adapters::common::parse_arguments;
use crate::adapters::common::reasoning_text;
use crate::adapters::common::split_data_url;
use crate::codec::parsed_json;
use crate::endpoint::anthropic::AnthropicClient;
use crate::json::doc_field;
use crate::json::or_empty;
use crate::json::text_field;
use crate::json::Json;
use crate::json::JsonView;
use crate::models::ContentItem;
use crate::models::ContentItemView;
use crate::models::ReasoningEffort;
use crate::models::ReasoningEffortView;
use crate::models::ResponseItem;
use crate::models::ResponseItemView;
use crate::text::same_text;
use crate::unified::UnifiedReasoningView;
use crate::unified::UnifiedRequest;
use crate::unified::UnifiedRequestView;
use crate::unified::UnifiedTextControlsView;
use crate::wire::anthropic::ephemeral_breakpoint;
use crate::wire::anthropic::AnthropicApiRequest;
use crate::wire::anthropic::AnthropicApiRequestView;
use crate::wire::anthropic::AnthropicCacheControl;
use crate::wire::anthropic::AnthropicContentBlock;
use crate::wire::anthropic::AnthropicContentBlockView;
use crate::wire::anthropic::AnthropicImageSource;
use crate::wire::anthropic::AnthropicImageSourceView;
use crate::wire::anthropic::AnthropicMessage;
use crate::wire::anthropic::AnthropicMessageView;
use crate::wire::anthropic::AnthropicSystemTextBlock;
use crate::wire::anthropic::AnthropicSystemTextBlockView;
use crate::wire::anthropic::AnthropicThinking;
use crate::wire::anthropic::AnthropicThinkingView;
use crate::wire::anthropic::AnthropicTool;
use crate::wire::anthropic::AnthropicToolChoice;
use crate::wire::anthropic::AnthropicToolChoiceView;
use crate::wire::anthropic::AnthropicToolView;
use crate::wire::anthropic::ANTHROPIC_STRUCTURED_OUTPUT_TOOL;
use crate::sse::call_item;
use crate::tool_name::ToolName;
use crate::tool_name::ToolNameView;
use crate::tool_name::flat_name;
use crate::tool_name::law_flat_of_tool_of_flat;
use crate::tool_name::tool_of_flat;

verus! {

/// The most tokens that an answer may take when the provider does not say.
pub const ANTHROPIC_DEFAULT_MAX_TOKENS: u32 = 16_384;

/// The least budget that thinking can have, and what thinking leaves for the
/// answer itself.
pub const ANTHROPIC_MIN_THINKING_TOKENS: u32 = 1_024;

/// Where an image comes from: a data URL is taken apart, any other address is
/// handed on.
pub open spec fn image_source(url: Seq<char>) -> AnthropicImageSourceView {
    match data_url(url) {
        Some((media_type, data)) => AnthropicImageSourceView::Base64 { media_type, data },
        None => AnthropicImageSourceView::Url { url },
    }
}

/// The blocks of a message. Empty texts are left out.
pub open spec fn content_blocks(content: Seq<ContentItemView>) -> Seq<AnthropicContentBlockView>
    decreases content.len(),
{
    if content.len() == 0 {
        Seq::empty()
    } else {
        let before = content_blocks(content.drop_last());
        match content.last() {
            ContentItemView::InputText { text } => with_text(before, text),
            ContentItemView::OutputText { text } => with_text(before, text),
            ContentItemView::InputImage { image_url, .. } => before.push(
                AnthropicContentBlockView::Image { source: image_source(image_url) },
            ),
        }
    }
}

pub open spec fn with_text(
    blocks: Seq<AnthropicContentBlockView>,
    text: Seq<char>,
) -> Seq<AnthropicContentBlockView> {
    if text.len() == 0 {
        blocks
    } else {
        blocks.push(AnthropicContentBlockView::Text { text })
    }
}

/// The messages with further blocks of a role: they join the message that ends
/// the messages when it has that role. No blocks, no message.
pub open spec fn with_blocks(
    messages: Seq<AnthropicMessageView>,
    role: Seq<char>,
    blocks: Seq<AnthropicContentBlockView>,
) -> Seq<AnthropicMessageView> {
    if blocks.len() == 0 {
        messages
    } else if messages.len() > 0 && messages.last().role == role {
        messages.drop_last().push(
            AnthropicMessageView { role, content: messages.last().content + blocks },
        )
    } else {
        messages.push(AnthropicMessageView { role, content: blocks })
    }
}

/// The block of a call.
pub open spec fn call_block(
    id: Seq<char>,
    name: Seq<char>,
    arguments: Seq<char>,
) -> AnthropicContentBlockView {
    AnthropicContentBlockView::ToolUse { id, name, input: object_or_empty(parsed_json(arguments)) }
}

/// The block of a call's answer. Success and error are each other's opposite.
pub open spec fn answer_block(
    call_id: Seq<char>,
    text: Option<Seq<char>>,
    success: Option<bool>,
) -> AnthropicContentBlockView {
    AnthropicContentBlockView::ToolResult {
        tool_use_id: call_id,
        content: or_empty(text),
        is_error: match success {
            Some(s) => Some(!s),
            None => None,
        },
    }
}

/// Whether the protocol knows the role.
pub open spec fn known_role(role: Seq<char>) -> bool {
    role == "user"@ || role == "assistant"@
}

/// The messages with one more item of the conversation. A call goes out under the
/// name that its tool is declared under. Reasoning is handed back only with its
/// signature. Items that the protocol has no counterpart for leave
/// no trace.
pub open spec fn with_item(
    messages: Seq<AnthropicMessageView>,
    item: ResponseItemView,
) -> Seq<AnthropicMessageView> {
    match item {
        ResponseItemView::Message { role, content, .. } => if known_role(role) {
            with_blocks(messages, role, content_blocks(content))
        } else {
            messages
        },
        ResponseItemView::FunctionCall { name, namespace, arguments, call_id, .. } => with_blocks(
            messages,
            "assistant"@,
            seq![call_block(call_id, flat_name(ToolNameView { name, namespace }), arguments)],
        ),
        ResponseItemView::CustomToolCall { call_id, name, namespace, input, .. } => with_blocks(
            messages,
            "assistant"@,
            seq![call_block(call_id, flat_name(ToolNameView { name, namespace }), input)],
        ),
        ResponseItemView::FunctionCallOutput { call_id, output, .. } => with_blocks(
            messages,
            "user"@,
            seq![answer_block(call_id, output.text, output.success)],
        ),
        ResponseItemView::CustomToolCallOutput { call_id, output, .. } => with_blocks(
            messages,
            "user"@,
            seq![answer_block(call_id, output.text, output.success)],
        ),
        ResponseItemView::Reasoning { content, continuity_token, .. } => match continuity_token {
            Some(signature) => if reasoning_text(content).len() == 0 {
                messages
            } else {
                with_blocks(
                    messages,
                    "assistant"@,
                    seq![
                        AnthropicContentBlockView::Thinking {
                            thinking: reasoning_text(content),
                            signature: Some(signature),
                        },
                    ],
                )
            },
            None => messages,
        },
        _ => messages,
    }
}

/// The messages of a conversation.
pub open spec fn anthropic_messages(items: Seq<ResponseItemView>) -> Seq<AnthropicMessageView>
    decreases items.len(),
{
    if items.len() == 0 {
        Seq::empty()
    } else {
        with_item(anthropic_messages(items.drop_last()), items.last())
    }
}

/// A tool as the protocol describes it; none for tools that are no functions and
/// for functions without a name.
pub open spec fn anthropic_tool(tool: JsonView) -> Option<AnthropicToolView> {
    if text_field(tool, "type"@) == Some("function"@) {
        match text_field(tool, "name"@) {
            Some(name) => Some(
                AnthropicToolView {
                    name,
                    description: text_field(tool, "description"@),
                    input_schema: object_or_empty(doc_field(tool, "parameters"@)),
                    cache_control: None,
                },
            ),
            None => None,
        }
    } else {
        None
    }
}

/// The tools that the protocol can describe, in their order.
pub open spec fn anthropic_tools(tools: Seq<JsonView>) -> Seq<AnthropicToolView>
    decreases tools.len(),
{
    if tools.len() == 0 {
        Seq::empty()
    } else {
        match anthropic_tool(tools.last()) {
            Some(tool) => anthropic_tools(tools.drop_last()).push(tool),
            None => anthropic_tools(tools.drop_last()),
        }
    }
}

/// The schema that the answer must follow.
pub open spec fn output_schema(text: Option<UnifiedTextControlsView>) -> Option<JsonView> {
    match text {
        Some(t) => match t.format {
            Some(format) => Some(format.schema),
            None => None,
        },
        None => None,
    }
}

/// The tools with the one that carries structured output, when the answer has a
/// schema.
pub open spec fn with_output_tool(
    tools: Seq<AnthropicToolView>,
    schema: Option<JsonView>,
) -> Seq<AnthropicToolView> {
    match schema {
        Some(input_schema) => tools.push(
            AnthropicToolView {
                name: ANTHROPIC_STRUCTURED_OUTPUT_TOOL@,
                description: None,
                input_schema,
                cache_control: None,
            },
        ),
        None => tools,
    }
}

/// The tools with a cache breakpoint on the last one; none when there are no
/// tools.
pub open spec fn cached_tools(tools: Seq<AnthropicToolView>) -> Option<Seq<AnthropicToolView>> {
    if tools.len() == 0 {
        None
    } else {
        Some(
            tools.drop_last().push(
                AnthropicToolView { cache_control: Some(ephemeral_breakpoint()), ..tools.last() },
            ),
        )
    }
}

/// The system prompt: the instructions, with a cache breakpoint; none when there
/// are no instructions.
pub open spec fn cached_system(instructions: Seq<char>) -> Option<
    Seq<AnthropicSystemTextBlockView>,
> {
    if instructions.len() == 0 {
        None
    } else {
        Some(
            seq![
                AnthropicSystemTextBlockView {
                    type_: "text"@,
                    text: instructions,
                    cache_control: Some(ephemeral_breakpoint()),
                },
            ],
        )
    }
}

/// The choice of tools: by the neutral words for none, some and any, and
/// otherwise by name.
pub open spec fn anthropic_tool_choice(choice: Seq<char>, parallel: bool) -> Option<
    AnthropicToolChoiceView,
> {
    let serial = if parallel {
        None
    } else {
        Some(true)
    };
    if choice.len() == 0 {
        None
    } else if choice == "none"@ {
        Some(
            AnthropicToolChoiceView {
                type_: "none"@,
                name: None,
                disable_parallel_tool_use: None,
            },
        )
    } else if choice == "auto"@ {
        Some(
            AnthropicToolChoiceView {
                type_: "auto"@,
                name: None,
                disable_parallel_tool_use: serial,
            },
        )
    } else if choice == "required"@ {
        Some(
            AnthropicToolChoiceView {
                type_: "any"@,
                name: None,
                disable_parallel_tool_use: serial,
            },
        )
    } else {
        Some(
            AnthropicToolChoiceView {
                type_: "tool"@,
                name: Some(choice),
                disable_parallel_tool_use: serial,
            },
        )
    }
}

/// A request for the protocol, before the provider's limits.
pub open spec fn anthropic_request(req: UnifiedRequestView) -> AnthropicApiRequestView {
    let described = match req.tools {
        Some(tools) => anthropic_tools(tools),
        None => Seq::empty(),
    };
    let schema = output_schema(req.text);
    let tools = cached_tools(with_output_tool(described, schema));
    AnthropicApiRequestView {
        model: req.model,
        max_tokens: ANTHROPIC_DEFAULT_MAX_TOKENS,
        messages: anthropic_messages(req.input),
        system: cached_system(req.instructions),
        tools,
        tool_choice: if schema is Some {
            anthropic_tool_choice(ANTHROPIC_STRUCTURED_OUTPUT_TOOL@, req.parallel_tool_calls)
        } else if tools is Some {
            anthropic_tool_choice(req.tool_choice, req.parallel_tool_calls)
        } else {
            None
        },
        thinking: None,
        stream: req.stream,
    }
}

/// The budget that an effort asks for; none for the efforts that do not think.
pub open spec fn asked_budget(effort: Option<ReasoningEffortView>) -> Option<u32> {
    match effort {
        Some(ReasoningEffortView::Low) => Some(1_024),
        Some(ReasoningEffortView::Medium) => Some(4_096),
        Some(ReasoningEffortView::High) => Some(8_192),
        Some(ReasoningEffortView::XHigh) => Some(12_288),
        Some(ReasoningEffortView::Max) => Some(15_360),
        Some(ReasoningEffortView::Ultra) => Some(15_360),
        _ => None,
    }
}

/// The thinking that an effort asks for, within the limit of the answer: it
/// leaves room for the answer itself, and is dropped where too little would be
/// left of it.
pub open spec fn thinking_for(effort: Option<ReasoningEffortView>, max_tokens: u32) -> Option<
    AnthropicThinkingView,
> {
    match asked_budget(effort) {
        Some(asked) => {
            let room = max_tokens - ANTHROPIC_MIN_THINKING_TOKENS;
            let budget = if asked <= room {
                asked as int
            } else {
                room
            };
            if budget < ANTHROPIC_MIN_THINKING_TOKENS {
                None
            } else {
                Some(AnthropicThinkingView { type_: "enabled"@, budget_tokens: budget as u32 })
            }
        },
        None => None,
    }
}

/// The effort that a request asks for.
pub open spec fn asked_effort(reasoning: Option<UnifiedReasoningView>) -> Option<
    ReasoningEffortView,
> {
    match reasoning {
        Some(r) => r.effort,
        None => None,
    }
}

/// The request that goes out: the translation within the provider's limit, with
/// the thinking that fits into it.
pub open spec fn prepared_request(
    req: UnifiedRequestView,
    max_output_tokens: Option<u32>,
) -> AnthropicApiRequestView {
    let max_tokens = match max_output_tokens {
        Some(max) => max,
        None => ANTHROPIC_DEFAULT_MAX_TOKENS,
    };
    AnthropicApiRequestView {
        max_tokens,
        thinking: thinking_for(asked_effort(req.reasoning), max_tokens),
        ..anthropic_request(req)
    }
}

/// Finds out where an image comes from.
pub fn anthropic_image_source(image_url: &str) -> (r: AnthropicImageSource)
    ensures
        r@ == image_source(image_url@),
{
    match split_data_url(image_url) {
        Some((media_type, data)) => AnthropicImageSource::Base64 { media_type, data },
        None => AnthropicImageSource::Url { url: image_url.to_owned() },
    }
}

fn push_block(blocks: &mut Vec<AnthropicContentBlock>, block: AnthropicContentBlock)
    ensures
        final(blocks).deep_view() == old(blocks).deep_view().push(block@),
{
    blocks.push(block);
    assert(blocks.deep_view() =~= old(blocks).deep_view().push(block@));
}

/// The blocks of a message.
pub fn message_content_to_blocks(content: &Vec<ContentItem>) -> (r: Vec<AnthropicContentBlock>)
    ensures
        r.deep_view() == content_blocks(content.deep_view()),
{
    let ghost all = content.deep_view();
    let mut out: Vec<AnthropicContentBlock> = Vec::new();
    let mut i: usize = 0;
    assert(all.take(0) =~= Seq::<ContentItemView>::empty());
    assert(out.deep_view() =~= Seq::<AnthropicContentBlockView>::empty());
    while i < content.len()
        invariant
            i <= content@.len(),
            all == content.deep_view(),
            out.deep_view() == content_blocks(all.take(i as int)),
        decreases content@.len() - i,
    {
        proof {
            assert(all.take(i + 1).drop_last() =~= all.take(i as int));
            assert(all.take(i + 1).last() == content@[i as int]@);
        }
        match &content[i] {
            ContentItem::InputText { text } | ContentItem::OutputText { text } => {
                if !text.as_str().is_empty() {
                    push_block(&mut out, AnthropicContentBlock::Text { text: text.clone() });
                }
            },
            ContentItem::InputImage { image_url, .. } => {
                push_block(
                    &mut out,
                    AnthropicContentBlock::Image {
                        source: anthropic_image_source(image_url.as_str()),
                    },
                );
            },
        }
        i += 1;
    }
    assert(all.take(i as int) =~= all);
    out
}

/// Adds blocks of a role to the messages.
pub fn append_blocks(
    messages: &mut Vec<AnthropicMessage>,
    role: &str,
    new_blocks: Vec<AnthropicContentBlock>,
)
    ensures
        final(messages).deep_view() == with_blocks(
            old(messages).deep_view(),
            role@,
            new_blocks.deep_view(),
        ),
{
    if new_blocks.len() == 0 {
        return ;
    }
    let ghost before = messages.deep_view();
    let ghost added = new_blocks.deep_view();
    let n: usize = messages.len();
    if n > 0 && same_text(messages[n - 1].role.as_str(), role) {
        assert(before.last() == messages@[n - 1]@);
        if let Some(mut last) = messages.pop() {
            let mut new_blocks = new_blocks;
            let ghost held = last.content.deep_view();
            last.content.append(&mut new_blocks);
            assert(last.content.deep_view() =~= held + added);
            messages.push(last);
            assert(messages.deep_view() =~= before.drop_last().push(
                AnthropicMessageView { role: role@, content: held + added },
            ));
        }
    } else {
        assert(n > 0 ==> before.last() == messages@[n - 1]@);
        messages.push(AnthropicMessage { role: role.to_owned(), content: new_blocks });
        assert(messages.deep_view() =~= before.push(
            AnthropicMessageView { role: role@, content: added },
        ));
    }
}

fn append_block(messages: &mut Vec<AnthropicMessage>, role: &str, block: AnthropicContentBlock)
    ensures
        final(messages).deep_view() == with_blocks(
            old(messages).deep_view(),
            role@,
            seq![block@],
        ),
{
    let mut blocks: Vec<AnthropicContentBlock> = Vec::new();
    blocks.push(block);
    assert(blocks.deep_view() =~= seq![block@]);
    append_blocks(messages, role, blocks);
}

/// Reads the arguments of a call.
pub fn parse_tool_input(arguments: &str) -> (r: Json)
    ensures
        r@ == object_or_empty(parsed_json(arguments@)),
{
    parse_arguments(arguments)
}

/// Adds a call of the assistant.
pub fn push_tool_use(
    messages: &mut Vec<AnthropicMessage>,
    id: String,
    name: String,
    arguments: String,
)
    ensures
        final(messages).deep_view() == with_blocks(
            old(messages).deep_view(),
            "assistant"@,
            seq![call_block(id@, name@, arguments@)],
        ),
{
    let input = parse_tool_input(arguments.as_str());
    append_block(messages, "assistant", AnthropicContentBlock::ToolUse { id, name, input });
}

/// Adds the answer to a call.
pub fn push_tool_result(
    messages: &mut Vec<AnthropicMessage>,
    call_id: String,
    text: Option<String>,
    success: Option<bool>,
)
    ensures
        final(messages).deep_view() == with_blocks(
            old(messages).deep_view(),
            "user"@,
            seq![answer_block(call_id@, text.deep_view(), success)],
        ),
{
    let content = match text {
        Some(t) => t,
        None => String::new(),
    };
    assert(text is None ==> content@ =~= Seq::<char>::empty());
    let is_error = match success {
        Some(s) => Some(!s),
        None => None,
    };
    append_block(
        messages,
        "user",
        AnthropicContentBlock::ToolResult { tool_use_id: call_id, content, is_error },
    );
}

/// The role, when the protocol knows it.
pub fn normalize_role(role: String) -> (r: Option<String>)
    ensures
        r == (if known_role(role@) { Some(role) } else { None }),
{
    if same_text(role.as_str(), "user") || same_text(role.as_str(), "assistant") {
        Some(role)
    } else {
        None
    }
}

/// Adds one item of the conversation.
pub fn translate_item(item: ResponseItem, messages: &mut Vec<AnthropicMessage>)
    ensures
        final(messages).deep_view() == with_item(old(messages).deep_view(), item@),
{
    match item {
        ResponseItem::Message { role, content, .. } => {
            if let Some(role) = normalize_role(role) {
                let blocks = message_content_to_blocks(&content);
                append_blocks(messages, role.as_str(), blocks);
            }
        },
        ResponseItem::FunctionCall { name, namespace, arguments, call_id, .. } => {
            let flat = ToolName { name, namespace }.to_flat_wire_name();
            push_tool_use(messages, call_id, flat, arguments);
        },
        ResponseItem::CustomToolCall { call_id, name, namespace, input, .. } => {
            let flat = ToolName { name, namespace }.to_flat_wire_name();
            push_tool_use(messages, call_id, flat, input);
        },
        ResponseItem::FunctionCallOutput { call_id, output, .. } => {
            push_tool_result(messages, call_id, output.text, output.success);
        },
        ResponseItem::CustomToolCallOutput { call_id, output, .. } => {
            push_tool_result(messages, call_id, output.text, output.success);
        },
        ResponseItem::Reasoning { content, continuity_token, .. } => {
            if let Some(signature) = continuity_token {
                let thinking = join_reasoning(&content);
                if !thinking.as_str().is_empty() {
                    append_block(
                        messages,
                        "assistant",
                        AnthropicContentBlock::Thinking { thinking, signature: Some(signature) },
                    );
                }
            }
        },
        ResponseItem::AgentMessage(_)
        | ResponseItem::LocalShellCall(_)
        | ResponseItem::ToolSearchCall(_)
        | ResponseItem::ToolSearchOutput { .. }
        | ResponseItem::WebSearchCall(_)
        | ResponseItem::ImageGenerationCall(_)
        | ResponseItem::Compaction(_)
        | ResponseItem::ContextCompaction(_)
        | ResponseItem::CompactionTrigger
        | ResponseItem::AdditionalTools(_)
        | ResponseItem::Other => {},
    }
}

/// Describes a tool for the protocol.
pub fn responses_tool_to_anthropic(tool: &Json) -> (r: Option<AnthropicTool>)
    ensures
        r.deep_view() == anthropic_tool(tool@),
{
    match tool.text_at("type") {
        Some(kind) => if !same_text(kind.as_str(), "function") {
            return None;
        },
        None => {
            return None;
        },
    }
    let name = match tool.text_at("name") {
        Some(name) => name,
        None => {
            return None;
        },
    };
    let parameters = match tool.get("parameters") {
        Some(value) => Some(value.copy()),
        None => None,
    };
    Some(
        AnthropicTool {
            name,
            description: tool.text_at("description"),
            input_schema: arguments_or_empty(parameters),
            cache_control: None,
        },
    )
}

fn push_tool(tools: &mut Vec<AnthropicTool>, tool: AnthropicTool)
    ensures
        final(tools).deep_view() == old(tools).deep_view().push(tool@),
{
    tools.push(tool);
    assert(tools.deep_view() =~= old(tools).deep_view().push(tool@));
}

fn tools_for_anthropic(tools: &Vec<Json>) -> (r: Vec<AnthropicTool>)
    ensures
        r.deep_view() == anthropic_tools(tools.deep_view()),
{
    let ghost all = tools.deep_view();
    let mut out: Vec<AnthropicTool> = Vec::new();
    let mut i: usize = 0;
    assert(all.take(0) =~= Seq::<JsonView>::empty());
    assert(out.deep_view() =~= Seq::<AnthropicToolView>::empty());
    while i < tools.len()
        invariant
            i <= tools@.len(),
            all == tools.deep_view(),
            out.deep_view() == anthropic_tools(all.take(i as int)),
        decreases tools@.len() - i,
    {
        proof {
            assert(all.take(i + 1).drop_last() =~= all.take(i as int));
            assert(all.take(i + 1).last() == tools@[i as int]@);
        }
        if let Some(tool) = responses_tool_to_anthropic(&tools[i]) {
            push_tool(&mut out, tool);
        }
        i += 1;
    }
    assert(all.take(i as int) =~= all);
    out
}

/// The choice of tools.
pub fn tool_choice_to_anthropic(tool_choice: &str, parallel_tool_calls: bool) -> (r: Option<
    AnthropicToolChoice,
>)
    ensures
        r.deep_view() == anthropic_tool_choice(tool_choice@, parallel_tool_calls),
{
    let serial: Option<bool> = if parallel_tool_calls {
        None
    } else {
        Some(true)
    };
    if tool_choice.is_empty() {
        return None;
    }
    if same_text(tool_choice, "none") {
        return Some(
            AnthropicToolChoice {
                type_: "none".to_owned(),
                name: None,
                disable_parallel_tool_use: None,
            },
        );
    }
    if same_text(tool_choice, "auto") {
        return Some(
            AnthropicToolChoice {
                type_: "auto".to_owned(),
                name: None,
                disable_parallel_tool_use: serial,
            },
        );
    }
    if same_text(tool_choice, "required") {
        return Some(
            AnthropicToolChoice {
                type_: "any".to_owned(),
                name: None,
                disable_parallel_tool_use: serial,
            },
        );
    }
    Some(
        AnthropicToolChoice {
            type_: "tool".to_owned(),
            name: Some(tool_choice.to_owned()),
            disable_parallel_tool_use: serial,
        },
    )
}

fn mark_last_tool(tools: Vec<AnthropicTool>) -> (r: Option<Vec<AnthropicTool>>)
    ensures
        r.deep_view() == cached_tools(tools.deep_view()),
{
    let ghost all = tools.deep_view();
    let mut tools = tools;
    match tools.pop() {
        Some(mut last) => {
            assert(all.last() == last@);
            assert(tools.deep_view() =~= all.drop_last());
            last.cache_control = Some(AnthropicCacheControl::ephemeral());
            push_tool(&mut tools, last);
            Some(tools)
        },
        None => None,
    }
}

/// The thinking that an effort asks for, within the limit of the answer.
pub fn thinking_from_effort(effort: Option<&ReasoningEffort>, max_tokens: u32) -> (r: Option<
    AnthropicThinking,
>)
    ensures
        r.deep_view() == thinking_for(effort.deep_view(), max_tokens),
{
    let asked: u32 = match effort {
        Some(ReasoningEffort::Low) => 1_024,
        Some(ReasoningEffort::Medium) => 4_096,
        Some(ReasoningEffort::High) => 8_192,
        Some(ReasoningEffort::XHigh) => 12_288,
        Some(ReasoningEffort::Max) => 15_360,
        Some(ReasoningEffort::Ultra) => 15_360,
        _ => {
            return None;
        },
    };
    if max_tokens < ANTHROPIC_MIN_THINKING_TOKENS {
        return None;
    }
    let room: u32 = max_tokens - ANTHROPIC_MIN_THINKING_TOKENS;
    let budget: u32 = if asked <= room {
        asked
    } else {
        room
    };
    if budget < ANTHROPIC_MIN_THINKING_TOKENS {
        None
    } else {
        Some(AnthropicThinking { type_: "enabled".to_owned(), budget_tokens: budget })
    }
}

impl From<UnifiedRequest> for AnthropicApiRequest {
    fn from(req: UnifiedRequest) -> (r: AnthropicApiRequest)
        ensures
            r@ == anthropic_request(req@),
    {
        let system = if req.instructions.as_str().is_empty() {
            None
        } else {
            let mut block = AnthropicSystemTextBlock::new(req.instructions);
            block.cache_control = Some(AnthropicCacheControl::ephemeral());
            let mut blocks: Vec<AnthropicSystemTextBlock> = Vec::new();
            blocks.push(block);
            assert(blocks.deep_view() =~= seq![block@]);
            Some(blocks)
        };
        let mut messages: Vec<AnthropicMessage> = Vec::new();
        let input = req.input;
        let ghost all = input.deep_view();
        assert(all.take(0) =~= Seq::<ResponseItemView>::empty());
        assert(messages.deep_view() =~= Seq::<AnthropicMessageView>::empty());
        for item in it: input
            invariant
                it.seq() == input@,
                all == input.deep_view(),
                messages.deep_view() == anthropic_messages(all.take(it.index() as int)),
        {
            proof {
                let i = it.index() as int;
                assert(all.take(i + 1).drop_last() =~= all.take(i));
                assert(all.take(i + 1).last() == item@);
            }
            translate_item(item, &mut messages);
        }
        assert(all.take(all.len() as int) =~= all);
        let mut described: Vec<AnthropicTool> = match &req.tools {
            Some(tools) => tools_for_anthropic(tools),
            None => Vec::new(),
        };
        assert(req.tools is None ==> described.deep_view() =~= Seq::<AnthropicToolView>::empty());
        let mut structured: bool = false;
        if let Some(text) = &req.text {
            if let Some(format) = &text.format {
                structured = true;
                push_tool(
                    &mut described,
                    AnthropicTool {
                        name: ANTHROPIC_STRUCTURED_OUTPUT_TOOL.to_owned(),
                        description: None,
                        input_schema: format.schema.copy(),
                        cache_control: None,
                    },
                );
            }
        }
        let tools = mark_last_tool(described);
        let tool_choice = if structured {
            tool_choice_to_anthropic(ANTHROPIC_STRUCTURED_OUTPUT_TOOL, req.parallel_tool_calls)
        } else if tools.is_some() {
            tool_choice_to_anthropic(req.tool_choice.as_str(), req.parallel_tool_calls)
        } else {
            None
        };
        AnthropicApiRequest {
            model: req.model,
            max_tokens: ANTHROPIC_DEFAULT_MAX_TOKENS,
            messages,
            system,
            tools,
            tool_choice,
            thinking: None,
            stream: req.stream,
        }
    }
}

impl vstd::std_specs::convert::FromSpecImpl<UnifiedRequest> for AnthropicApiRequest {
    open spec fn obeys_from_spec() -> bool {
        false
    }

    open spec fn from_spec(req: UnifiedRequest) -> AnthropicApiRequest {
        choose|r: AnthropicApiRequest| r@ == anthropic_request(req@)
    }
}

/// Sends neutral requests through an Anthropic client.
pub struct AnthropicAdapter<S, T> {
    pub inner: AnthropicClient<S, T>,
    /// The most tokens that one answer may take, when the provider says so.
    pub max_output_tokens: Option<u32>,
}

impl<S, T> AnthropicAdapter<S, T> {
    /// An adapter over a session, with the provider's limit.
    pub fn new(session: S, max_output_tokens: Option<u32>) -> (r: Self)
        ensures
            r.inner.session == session,
            r.inner.sse_telemetry is None,
            r.max_output_tokens == max_output_tokens,
    {
        AnthropicAdapter { inner: AnthropicClient::new(session), max_output_tokens }
    }

    /// The adapter with something that listens to the answers.
    pub fn with_telemetry(self, sse: Option<T>) -> (r: Self)
        ensures
            r.inner.session == self.inner.session,
            r.inner.sse_telemetry == sse,
            r.max_output_tokens == self.max_output_tokens,
    {
        AnthropicAdapter {
            inner: self.inner.with_telemetry(sse),
            max_output_tokens: self.max_output_tokens,
        }
    }

    /// The request that the client is handed.
    pub fn prepare(&self, request: UnifiedRequest) -> (r: AnthropicApiRequest)
        ensures
            r@ == prepared_request(request@, self.max_output_tokens),
    {
        let effort: Option<ReasoningEffort> = match &request.reasoning {
            Some(reasoning) => match &reasoning.effort {
                Some(effort) => Some(effort.copy()),
                None => None,
            },
            None => None,
        };
        let mut api_request = AnthropicApiRequest::from(request);
        if let Some(max) = self.max_output_tokens {
            api_request.max_tokens = max;
        }
        api_request.thinking = thinking_from_effort(effort.as_ref(), api_request.max_tokens);
        api_request
    }
}

/// Messages as the protocol wants them: known roles that take turns, and none
/// without content. No text is empty, and thinking carries its signature.
pub open spec fn sound_messages(messages: Seq<AnthropicMessageView>) -> bool {
    &&& forall|i: int| 0 <= i < messages.len() ==> known_role((#[trigger] messages[i]).role)
    &&& forall|i: int| 0 <= i < messages.len() ==> (#[trigger] messages[i]).content.len() > 0
    &&& forall|i: int, j: int|
        0 <= i && j == i + 1 && j < messages.len() ==> (#[trigger] messages[i]).role != (
        #[trigger] messages[j]).role
    &&& forall|i: int| 0 <= i < messages.len() ==> sound_blocks((#[trigger] messages[i]).content)
}

/// A block as the protocol wants it: a text is not empty, and neither is
/// thinking, which carries a signature.
pub open spec fn sound_block(block: AnthropicContentBlockView) -> bool {
    match block {
        AnthropicContentBlockView::Text { text } => text.len() > 0,
        AnthropicContentBlockView::Thinking { thinking, signature } => thinking.len() > 0
            && signature is Some,
        _ => true,
    }
}

/// Every block is as the protocol wants it.
pub open spec fn sound_blocks(blocks: Seq<AnthropicContentBlockView>) -> bool {
    forall|i: int| 0 <= i < blocks.len() ==> sound_block(#[trigger] blocks[i])
}

proof fn lemma_with_blocks(
    messages: Seq<AnthropicMessageView>,
    role: Seq<char>,
    blocks: Seq<AnthropicContentBlockView>,
)
    requires
        sound_messages(messages),
        known_role(role),
        sound_blocks(blocks),
    ensures
        sound_messages(with_blocks(messages, role, blocks)),
        all_blocks(with_blocks(messages, role, blocks)) == all_blocks(messages) + blocks,
{
    let after = with_blocks(messages, role, blocks);
    if blocks.len() > 0 {
        if messages.len() > 0 && messages.last().role == role {
            let n = messages.len() - 1;
            assert(sound_blocks(messages[n].content));
            assert(forall|i: int| 0 <= i < n ==> after[i] == messages[i]);
            assert(sound_blocks(after[n].content));
            assert(after[n].role == messages[n].role);
            assert(after.drop_last() =~= messages.drop_last());
            assert(all_blocks(after) =~= all_blocks(messages) + blocks);
        } else {
            assert(forall|i: int| 0 <= i < messages.len() ==> after[i] == messages[i]);
            assert(after.drop_last() =~= messages);
        }
    } else {
        assert(all_blocks(messages) + blocks =~= all_blocks(messages));
    }
}

/// The blocks of messages, one message after the other.
pub open spec fn all_blocks(messages: Seq<AnthropicMessageView>) -> Seq<AnthropicContentBlockView>
    decreases messages.len(),
{
    if messages.len() == 0 {
        Seq::empty()
    } else {
        all_blocks(messages.drop_last()) + messages.last().content
    }
}

/// The blocks of one item.
pub open spec fn item_blocks(item: ResponseItemView) -> Seq<AnthropicContentBlockView> {
    match item {
        ResponseItemView::Message { role, content, .. } => if known_role(role) {
            content_blocks(content)
        } else {
            Seq::empty()
        },
        ResponseItemView::FunctionCall { name, namespace, arguments, call_id, .. } => seq![
            call_block(call_id, flat_name(ToolNameView { name, namespace }), arguments),
        ],
        ResponseItemView::CustomToolCall { call_id, name, namespace, input, .. } => seq![
            call_block(call_id, flat_name(ToolNameView { name, namespace }), input),
        ],
        ResponseItemView::FunctionCallOutput { call_id, output, .. } => seq![
            answer_block(call_id, output.text, output.success),
        ],
        ResponseItemView::CustomToolCallOutput { call_id, output, .. } => seq![
            answer_block(call_id, output.text, output.success),
        ],
        ResponseItemView::Reasoning { content, continuity_token: Some(signature), .. } =>
            if reasoning_text(content).len() == 0 {
                Seq::empty()
            } else {
                seq![
                    AnthropicContentBlockView::Thinking {
                        thinking: reasoning_text(content),
                        signature: Some(signature),
                    },
                ]
            },
        _ => Seq::empty(),
    }
}

/// The blocks of a conversation, item by item.
pub open spec fn conversation_blocks(items: Seq<ResponseItemView>) -> Seq<
    AnthropicContentBlockView,
>
    decreases items.len(),
{
    if items.len() == 0 {
        Seq::empty()
    } else {
        conversation_blocks(items.drop_last()) + item_blocks(items.last())
    }
}

proof fn lemma_content_blocks_sound(content: Seq<ContentItemView>)
    ensures
        sound_blocks(content_blocks(content)),
    decreases content.len(),
{
    if content.len() > 0 {
        lemma_content_blocks_sound(content.drop_last());
    }
}

/// The messages of a conversation take turns between the two roles, none is
/// empty and no text in them is, and thinking is handed back only with its
/// signature. They hold the blocks of all items, in their order.
pub proof fn law_messages_are_sound(items: Seq<ResponseItemView>)
    ensures
        sound_messages(anthropic_messages(items)),
        all_blocks(anthropic_messages(items)) == conversation_blocks(items),
    decreases items.len(),
{
    if items.len() > 0 {
        let before = anthropic_messages(items.drop_last());
        law_messages_are_sound(items.drop_last());
        let blocks = item_blocks(items.last());
        let role = match items.last() {
            ResponseItemView::Message { role, .. } => if known_role(role) {
                role
            } else {
                "user"@
            },
            ResponseItemView::FunctionCallOutput { .. } => "user"@,
            ResponseItemView::CustomToolCallOutput { .. } => "user"@,
            _ => "assistant"@,
        };
        if let ResponseItemView::Message { content, .. } = items.last() {
            lemma_content_blocks_sound(content);
        }
        assert(sound_blocks(blocks));
        lemma_with_blocks(before, role, blocks);
        assert(anthropic_messages(items) == with_blocks(before, role, blocks));
    }
}

/// Every call of a conversation goes out under the name that its tool is declared
/// under, with its id and its arguments.
pub proof fn law_calls_go_out_as_declared(items: Seq<ResponseItemView>, i: int)
    requires
        0 <= i < items.len(),
    ensures
        match items[i] {
            ResponseItemView::FunctionCall { name, namespace, arguments, call_id, .. } => all_blocks(
                anthropic_messages(items),
            ).contains(
                call_block(call_id, flat_name(ToolNameView { name, namespace }), arguments),
            ),
            ResponseItemView::CustomToolCall { call_id, name, namespace, input, .. } => all_blocks(
                anthropic_messages(items),
            ).contains(call_block(call_id, flat_name(ToolNameView { name, namespace }), input)),
            _ => true,
        },
    decreases items.len(),
{
    law_messages_are_sound(items);
    law_messages_are_sound(items.drop_last());
    let before = conversation_blocks(items.drop_last());
    let all = conversation_blocks(items);
    if i == items.len() - 1 {
        let own = item_blocks(items.last());
        if own.len() > 0 {
            assert(all[before.len() as int] == own[0]);
        }
    } else {
        law_calls_go_out_as_declared(items.drop_last(), i);
        assert forall|b: AnthropicContentBlockView| before.contains(b) implies all.contains(b) by {
            let k = choose|k: int| 0 <= k < before.len() && before[k] == b;
            assert(all[k] == b);
        }
    }
}

/// A call that was read from an answer goes back under the name that it came
/// with.
pub proof fn law_replayed_call_keeps_its_name(
    messages: Seq<AnthropicMessageView>,
    flat: Seq<char>,
    arguments: Seq<char>,
    call_id: Seq<char>,
)
    ensures
        with_item(
            messages,
            call_item(tool_of_flat(flat).name, tool_of_flat(flat).namespace, arguments, call_id),
        ) == with_blocks(messages, "assistant"@, seq![call_block(call_id, flat, arguments)]),
{
    law_flat_of_tool_of_flat(flat);
    let tool = tool_of_flat(flat);
    assert(ToolNameView { name: tool.name, namespace: tool.namespace } == tool);
}

/// Thinking has at least the least budget and leaves at least as much for the
/// answer.
pub proof fn law_thinking_within_limits(effort: Option<ReasoningEffortView>, max_tokens: u32)
    ensures
        thinking_for(effort, max_tokens) matches Some(thinking) ==> {
            &&& ANTHROPIC_MIN_THINKING_TOKENS <= thinking.budget_tokens
            &&& thinking.budget_tokens + ANTHROPIC_MIN_THINKING_TOKENS <= max_tokens
        },
{
}

proof fn lemma_tools_uncached(tools: Seq<JsonView>)
    ensures
        forall|i: int|
            0 <= i < anthropic_tools(tools).len() ==> (#[trigger] anthropic_tools(
                tools,
            )[i]).cache_control is None,
    decreases tools.len(),
{
    if tools.len() > 0 {
        lemma_tools_uncached(tools.drop_last());
    }
}

/// A request has at most two cache breakpoints: one at the end of the system
/// prompt and one on the last tool.
pub proof fn law_cache_breakpoints(req: UnifiedRequestView, i: int)
    ensures
        anthropic_request(req).system matches Some(blocks) ==> blocks.len() == 1
            && blocks[0].cache_control == Some(ephemeral_breakpoint()),
        anthropic_request(req).tools matches Some(tools) ==> {
            &&& tools.len() > 0
            &&& tools.last().cache_control == Some(ephemeral_breakpoint())
            &&& 0 <= i < tools.len() - 1 ==> tools[i].cache_control is None
        },
{
    if let Some(tools) = req.tools {
        lemma_tools_uncached(tools);
    }
}

/// Tools are chosen only where there are tools, and structured output is forced
/// through its tool, which is then the last one.
pub proof fn law_tool_choice(req: UnifiedRequestView)
    ensures
        anthropic_request(req).tool_choice is Some ==> anthropic_request(req).tools is Some,
        output_schema(req.text) matches Some(schema) ==> {
            &&& anthropic_request(req).tools matches Some(tools) && tools.last().name
                == ANTHROPIC_STRUCTURED_OUTPUT_TOOL@ && tools.last().input_schema == schema
            &&& anthropic_request(req).tool_choice matches Some(choice) && choice.type_ == "tool"@
                && choice.name == Some(ANTHROPIC_STRUCTURED_OUTPUT_TOOL@)
        },
{
    reveal_strlit("respond_structured");
    reveal_strlit("none");
    reveal_strlit("auto");
    reveal_strlit("required");
    assert("respond_structured"@.len() != "none"@.len());
    assert("respond_structured"@.len() != "auto"@.len());
    assert("respond_structured"@.len() != "required"@.len());
}

} // verus!
