//! Answers of the Anthropic Messages protocol.
//!
//! The protocol sends content blocks in pieces and ends with `message_stop`.
//! Text goes out as it comes; tool calls, the reasoning with its signature and
//! the finished message go out when they are complete.

use vstd::prelude::*;
use vstd::string::*;

use crate::codec::parse_json;
use crate::codec::parsed_json;
use crate::events::ResponseEvent;
use crate::events::ResponseEventView;
use crate::json::record_field;
use crate::json::is_record;
use crate::json::doc_field;
use crate::json::doc_i64;
use crate::json::i64_field;
use crate::json::or_empty;
use crate::json::text_field;
use crate::json::Json;
use crate::json::JsonView;
use crate::models::ReasoningItemContent;
use crate::models::ReasoningItemContentView;
use crate::models::ResponseItem;
use crate::models::ResponseItemView;
use crate::models::TokenUsage;
use crate::sse::delta_text;
use crate::sse::lemma_sound_items;
use crate::sse::lemma_sound_ended;
use crate::sse::ended_answer;
use crate::sse::call_item;
use crate::sse::emit;
use crate::sse::finished_message;
use crate::sse::lemma_sound_created;
use crate::sse::lemma_sound_neutral;
use crate::sse::lemma_sound_opened;
use crate::sse::lemma_sound_piece;
use crate::sse::make_call_item;
use crate::sse::make_open_message;
use crate::sse::make_text_message;
use crate::sse::open_message;
use crate::sse::sound_answer;
use crate::sse::text_message;
use crate::sse::SseInput;
use crate::sse::SseInputView;
use crate::sse::StreamVerdict;
use crate::sse::VerdictView;
use crate::text::blank;
use crate::text::cat;
use crate::text::decimal_int;
use crate::text::i64_text;
use crate::text::is_blank;
use crate::text::same_text;
use crate::tool_name::delimiter_at;
use crate::tool_name::flat_name;
use crate::tool_name::has_delimiter;
use crate::tool_name::law_namespaced_round_trip;
use crate::tool_name::tool_of_flat;
use crate::tool_name::ToolName;
use crate::tool_name::ToolNameView;
use crate::wire::anthropic::ANTHROPIC_STRUCTURED_OUTPUT_TOOL;

verus! {

/// One event frame of an answer.
#[derive(Debug, Clone, PartialEq)]
pub struct AnthropicEvent {
    pub kind: String,
    pub index: Option<i64>,
    /// The payload of `message_start`.
    pub message: Option<Json>,
    /// The block that `content_block_start` opens.
    pub content_block: Option<Json>,
    /// What `content_block_delta` adds, or the end that `message_delta` reports.
    pub delta: Option<Json>,
    pub usage: Option<Json>,
    /// Some gateways report an error in a frame of an accepted answer.
    pub error: Option<Json>,
}

/// What a `AnthropicEvent` means.
#[verifier::ext_equal]
pub struct AnthropicEventView {
    pub kind: Seq<char>,
    pub index: Option<i64>,
    pub message: Option<JsonView>,
    pub content_block: Option<JsonView>,
    pub delta: Option<JsonView>,
    pub usage: Option<JsonView>,
    pub error: Option<JsonView>,
}

impl View for AnthropicEvent {
    type V = AnthropicEventView;

    open spec fn view(&self) -> AnthropicEventView {
        AnthropicEventView {
            kind: self.kind.deep_view(),
            index: self.index.deep_view(),
            message: self.message.deep_view(),
            content_block: self.content_block.deep_view(),
            delta: self.delta.deep_view(),
            usage: self.usage.deep_view(),
            error: self.error.deep_view(),
        }
    }
}

impl DeepView for AnthropicEvent {
    type V = AnthropicEventView;

    open spec fn deep_view(&self) -> AnthropicEventView {
        self.view()
    }
}

/// What is known of one tool call so far, by the index of its content block.
#[derive(Debug, Clone, PartialEq)]
pub struct ToolBlockAccumulator {
    pub index: i64,
    pub id: String,
    pub name: String,
    pub input_json: String,
}

/// What a `ToolBlockAccumulator` means.
#[verifier::ext_equal]
pub struct ToolBlockAccumulatorView {
    pub index: i64,
    pub id: Seq<char>,
    pub name: Seq<char>,
    pub input_json: Seq<char>,
}

impl View for ToolBlockAccumulator {
    type V = ToolBlockAccumulatorView;

    open spec fn view(&self) -> ToolBlockAccumulatorView {
        ToolBlockAccumulatorView {
            index: self.index.deep_view(),
            id: self.id.deep_view(),
            name: self.name.deep_view(),
            input_json: self.input_json.deep_view(),
        }
    }
}

impl DeepView for ToolBlockAccumulator {
    type V = ToolBlockAccumulatorView;

    open spec fn deep_view(&self) -> ToolBlockAccumulatorView {
        self.view()
    }
}

/// The usage reported so far. The protocol counts cached input apart from the
/// rest of the input.
#[derive(Debug, Clone, Copy, PartialEq, Eq)]
pub struct UsageAccumulator {
    pub input_tokens: Option<i64>,
    pub cache_creation_input_tokens: Option<i64>,
    pub cache_read_input_tokens: Option<i64>,
    pub output_tokens: Option<i64>,
}

impl View for UsageAccumulator {
    type V = UsageAccumulator;

    open spec fn view(&self) -> UsageAccumulator {
        *self
    }
}

impl DeepView for UsageAccumulator {
    type V = UsageAccumulator;

    open spec fn deep_view(&self) -> UsageAccumulator {
        self.view()
    }
}

/// What is known of one answer so far. The tool blocks are in ascending order of
/// their indices.
#[derive(Debug, Clone, PartialEq)]
pub struct AnthropicStreamState {
    pub created_emitted: bool,
    pub message_item_added: bool,
    pub assistant_text: String,
    pub tool_blocks: Vec<ToolBlockAccumulator>,
    pub response_id: Option<String>,
    pub server_model: Option<String>,
    pub finish_reason: Option<String>,
    pub usage: UsageAccumulator,
    /// The reasoning that is not finished yet.
    pub thinking_text: String,
    /// The signature that lets the reasoning be given back in a later turn.
    pub thinking_signature: Option<String>,
    /// Whether the turn has reasoning that cannot be read: then none of it is
    /// kept.
    pub redacted_thinking: bool,
}

/// What a `AnthropicStreamState` means.
#[verifier::ext_equal]
pub struct AnthropicStreamStateView {
    pub created_emitted: bool,
    pub message_item_added: bool,
    pub assistant_text: Seq<char>,
    pub tool_blocks: Seq<ToolBlockAccumulatorView>,
    pub response_id: Option<Seq<char>>,
    pub server_model: Option<Seq<char>>,
    pub finish_reason: Option<Seq<char>>,
    pub usage: UsageAccumulator,
    pub thinking_text: Seq<char>,
    pub thinking_signature: Option<Seq<char>>,
    pub redacted_thinking: bool,
}

impl View for AnthropicStreamState {
    type V = AnthropicStreamStateView;

    open spec fn view(&self) -> AnthropicStreamStateView {
        AnthropicStreamStateView {
            created_emitted: self.created_emitted.deep_view(),
            message_item_added: self.message_item_added.deep_view(),
            assistant_text: self.assistant_text.deep_view(),
            tool_blocks: self.tool_blocks.deep_view(),
            response_id: self.response_id.deep_view(),
            server_model: self.server_model.deep_view(),
            finish_reason: self.finish_reason.deep_view(),
            usage: self.usage.deep_view(),
            thinking_text: self.thinking_text.deep_view(),
            thinking_signature: self.thinking_signature.deep_view(),
            redacted_thinking: self.redacted_thinking.deep_view(),
        }
    }
}

impl DeepView for AnthropicStreamState {
    type V = AnthropicStreamStateView;

    open spec fn deep_view(&self) -> AnthropicStreamStateView {
        self.view()
    }
}

/// An answer so far, with the events that went out.
#[verifier::ext_equal]
pub struct AnthropicStep {
    pub state: AnthropicStreamStateView,
    pub events: Seq<ResponseEventView>,
}

/// A field that holds a document, null counting as none.
pub open spec fn doc_slot(doc: JsonView, key: Seq<char>, at: int) -> Option<JsonView> {
    match record_field(doc, key, at) {
        None | Some(JsonView::Null) => None,
        Some(d) => Some(d),
    }
}

/// A field that holds an integer or null or is not there; anything else makes
/// the whole frame unreadable.
pub open spec fn index_slot(doc: JsonView) -> Option<Option<i64>> {
    match record_field(doc, "index"@, 1) {
        None | Some(JsonView::Null) => Some(None),
        Some(d) => match doc_i64(d) {
            Some(i) => Some(Some(i)),
            None => None,
        },
    }
}

/// Reads a frame: a record with a type.
pub open spec fn event_of(doc: JsonView) -> Option<AnthropicEventView> {
    match (is_record(doc, 7), record_field(doc, "type"@, 0), index_slot(doc)) {
        (true, Some(JsonView::Text(kind)), Some(index)) => Some(
            AnthropicEventView {
                kind,
                index,
                message: doc_slot(doc, "message"@, 2),
                content_block: doc_slot(doc, "content_block"@, 3),
                delta: doc_slot(doc, "delta"@, 4),
                usage: doc_slot(doc, "usage"@, 5),
                error: doc_slot(doc, "error"@, 6),
            },
        ),
        _ => None,
    }
}

/// The step with one more event.
pub open spec fn sent(s: AnthropicStep, event: ResponseEventView) -> AnthropicStep {
    AnthropicStep { events: s.events.push(event), ..s }
}

/// A count that a report gives, or the one known before.
pub open spec fn newer(report: JsonView, key: Seq<char>, known: Option<i64>) -> Option<i64> {
    match i64_field(report, key) {
        Some(v) => Some(v),
        None => known,
    }
}

/// The usage after a report: counts that it gives replace those known before.
pub open spec fn usage_after(usage: UsageAccumulator, report: JsonView) -> UsageAccumulator {
    UsageAccumulator {
        input_tokens: newer(report, "input_tokens"@, usage.input_tokens),
        cache_creation_input_tokens: newer(
            report,
            "cache_creation_input_tokens"@,
            usage.cache_creation_input_tokens,
        ),
        cache_read_input_tokens: newer(
            report,
            "cache_read_input_tokens"@,
            usage.cache_read_input_tokens,
        ),
        output_tokens: newer(report, "output_tokens"@, usage.output_tokens),
    }
}

/// The progress of the usage when a report may be there.
pub open spec fn usage_with(usage: UsageAccumulator, report: Option<JsonView>) -> UsageAccumulator {
    match report {
        Some(r) => usage_after(usage, r),
        None => usage,
    }
}

/// The first `message_start` announces the answer.
pub open spec fn announced(s: AnthropicStep) -> AnthropicStep {
    if s.state.created_emitted {
        s
    } else {
        sent(
            AnthropicStep {
                state: AnthropicStreamStateView { created_emitted: true, ..s.state },
                ..s
            },
            ResponseEventView::Created,
        )
    }
}

/// `message_start`: the id, the model when it is new, and the usage.
pub open spec fn message_start(s: AnthropicStep, message: Option<JsonView>) -> AnthropicStep {
    let a = announced(s);
    match message {
        None => a,
        Some(m) => {
            let named = AnthropicStep {
                state: AnthropicStreamStateView {
                    response_id: if a.state.response_id is None {
                        text_field(m, "id"@)
                    } else {
                        a.state.response_id
                    },
                    ..a.state
                },
                ..a
            };
            let model = text_field(m, "model"@);
            let modelled = if model is Some && named.state.server_model != model {
                sent(
                    AnthropicStep {
                        state: AnthropicStreamStateView { server_model: model, ..named.state },
                        ..named
                    },
                    ResponseEventView::ServerModel(model->Some_0),
                )
            } else {
                named
            };
            AnthropicStep {
                state: AnthropicStreamStateView {
                    usage: usage_with(modelled.state.usage, doc_field(m, "usage"@)),
                    ..modelled.state
                },
                ..modelled
            }
        },
    }
}

/// The reasoning as an item that a later turn can give back.
pub open spec fn reasoning_item(text: Seq<char>, signature: Seq<char>) -> ResponseItemView {
    ResponseItemView::Reasoning {
        id: None,
        summary: Seq::empty(),
        content: Some(seq![ReasoningItemContentView::ReasoningText { text }]),
        encrypted_content: None,
        continuity_token: Some(signature),
    }
}

/// The reasoning ends when something else begins. With its signature, and when
/// nothing of the turn's reasoning is redacted, it goes out as an item.
pub open spec fn reasoning_closed(s: AnthropicStep) -> AnthropicStep {
    let closed = AnthropicStep {
        state: AnthropicStreamStateView {
            thinking_text: Seq::empty(),
            thinking_signature: None,
            ..s.state
        },
        ..s
    };
    if s.state.thinking_text.len() > 0 && s.state.thinking_signature is Some
        && !s.state.redacted_thinking {
        sent(
            closed,
            ResponseEventView::OutputItemDone(
                reasoning_item(s.state.thinking_text, s.state.thinking_signature->Some_0),
            ),
        )
    } else {
        closed
    }
}

/// The position of the first tool block whose index is not below the given one,
/// or their number.
pub open spec fn block_slot(blocks: Seq<ToolBlockAccumulatorView>, index: i64, from: int) -> int
    decreases blocks.len() - from,
{
    if from < 0 || from >= blocks.len() {
        blocks.len() as int
    } else if blocks[from].index >= index {
        from
    } else {
        block_slot(blocks, index, from + 1)
    }
}

/// Whether there is a tool block at the index.
pub open spec fn has_block(blocks: Seq<ToolBlockAccumulatorView>, index: i64) -> bool {
    let i = block_slot(blocks, index, 0);
    i < blocks.len() && blocks[i].index == index
}

/// The id of a tool block: its own, or one made from its index.
pub open spec fn block_id(block: JsonView, index: i64) -> Seq<char> {
    let id = or_empty(text_field(block, "id"@));
    if id.len() == 0 {
        "call_"@ + decimal_int(index as int)
    } else {
        id
    }
}

/// Whether a tool is the one that carries structured output: it is no tool of
/// the agent, and its input is the answer.
pub open spec fn carries_output(name: Seq<char>) -> bool {
    name == ANTHROPIC_STRUCTURED_OUTPUT_TOOL@
}

/// The announcement of a tool call; the carrier of structured output is none.
pub open spec fn call_announced(s: AnthropicStep, name: Seq<char>, id: Seq<char>) -> AnthropicStep {
    if carries_output(name) {
        s
    } else {
        let tool = tool_of_flat(name);
        sent(
            s,
            ResponseEventView::OutputItemAdded(
                call_item(tool.name, tool.namespace, Seq::empty(), id),
            ),
        )
    }
}

/// A tool block begins: its id and name are noted, and the call is announced.
pub open spec fn tool_started(s: AnthropicStep, block: JsonView, index: i64) -> AnthropicStep {
    let blocks = s.state.tool_blocks;
    let i = block_slot(blocks, index, 0);
    let id = block_id(block, index);
    let name = or_empty(text_field(block, "name"@));
    let noted = if has_block(blocks, index) {
        blocks.update(i, ToolBlockAccumulatorView { id, name, ..blocks[i] })
    } else {
        blocks.insert(i, ToolBlockAccumulatorView { index, id, name, input_json: Seq::empty() })
    };
    call_announced(
        AnthropicStep {
            state: AnthropicStreamStateView { tool_blocks: noted, ..s.state },
            ..s
        },
        name,
        id,
    )
}

/// `content_block_start`: a text or a tool call ends the reasoning; a redacted
/// block keeps the turn's reasoning from being kept.
pub open spec fn block_start(s: AnthropicStep, block: Option<JsonView>, index: Option<i64>) -> AnthropicStep {
    match block {
        None => s,
        Some(b) => {
            let kind = or_empty(text_field(b, "type"@));
            if kind == "tool_use"@ {
                tool_started(
                    reasoning_closed(s),
                    b,
                    match index {
                        Some(i) => i,
                        None => 0,
                    },
                )
            } else if kind == "text"@ {
                reasoning_closed(s)
            } else if kind == "redacted_thinking"@ {
                AnthropicStep {
                    state: AnthropicStreamStateView { redacted_thinking: true, ..s.state },
                    ..s
                }
            } else {
                s
            }
        },
    }
}

/// The message is announced before its first piece.
pub open spec fn opened(s: AnthropicStep) -> AnthropicStep {
    if s.state.message_item_added {
        s
    } else {
        sent(
            AnthropicStep {
                state: AnthropicStreamStateView { message_item_added: true, ..s.state },
                ..s
            },
            ResponseEventView::OutputItemAdded(open_message()),
        )
    }
}

/// A piece of text, when it is not empty.
pub open spec fn text_piece(s: AnthropicStep, text: Seq<char>) -> AnthropicStep {
    if text.len() == 0 {
        s
    } else {
        let o = opened(s);
        sent(
            AnthropicStep {
                state: AnthropicStreamStateView {
                    assistant_text: o.state.assistant_text + text,
                    ..o.state
                },
                ..o
            },
            ResponseEventView::OutputTextDelta(text),
        )
    }
}

/// A piece of reasoning, when it is not empty.
pub open spec fn thinking_piece(s: AnthropicStep, text: Seq<char>, index: Option<i64>) -> AnthropicStep {
    if text.len() == 0 {
        s
    } else {
        let o = opened(s);
        sent(
            AnthropicStep {
                state: AnthropicStreamStateView {
                    thinking_text: o.state.thinking_text + text,
                    ..o.state
                },
                ..o
            },
            ResponseEventView::ReasoningContentDelta {
                delta: text,
                content_index: match index {
                    Some(i) => i,
                    None => 0,
                },
            },
        )
    }
}

/// A piece of a tool's input goes to the block that it names, if there is one.
pub open spec fn input_piece(s: AnthropicStep, partial: Option<Seq<char>>, index: Option<i64>) -> AnthropicStep {
    match (partial, index) {
        (Some(p), Some(index)) => {
            let blocks = s.state.tool_blocks;
            let i = block_slot(blocks, index, 0);
            if has_block(blocks, index) {
                AnthropicStep {
                    state: AnthropicStreamStateView {
                        tool_blocks: blocks.update(
                            i,
                            ToolBlockAccumulatorView {
                                input_json: blocks[i].input_json + p,
                                ..blocks[i]
                            },
                        ),
                        ..s.state
                    },
                    ..s
                }
            } else {
                s
            }
        },
        _ => s,
    }
}

/// `content_block_delta`: a piece of text, of a tool's input, of reasoning, or
/// the signature of the reasoning.
pub open spec fn block_delta(s: AnthropicStep, delta: Option<JsonView>, index: Option<i64>) -> AnthropicStep {
    match delta {
        None => s,
        Some(d) => {
            let kind = or_empty(text_field(d, "type"@));
            if kind == "text_delta"@ {
                text_piece(s, or_empty(text_field(d, "text"@)))
            } else if kind == "input_json_delta"@ {
                input_piece(s, text_field(d, "partial_json"@), index)
            } else if kind == "thinking_delta"@ {
                thinking_piece(s, or_empty(text_field(d, "thinking"@)), index)
            } else if kind == "signature_delta"@ && text_field(d, "signature"@) is Some {
                AnthropicStep {
                    state: AnthropicStreamStateView {
                        thinking_signature: text_field(d, "signature"@),
                        ..s.state
                    },
                    ..s
                }
            } else {
                s
            }
        },
    }
}

/// `message_delta`: the reason to stop, and the usage.
pub open spec fn message_delta(s: AnthropicStep, delta: Option<JsonView>, usage: Option<JsonView>) -> AnthropicStep {
    let reason = match delta {
        Some(d) => text_field(d, "stop_reason"@),
        None => None,
    };
    AnthropicStep {
        state: AnthropicStreamStateView {
            finish_reason: if reason is Some {
                reason
            } else {
                s.state.finish_reason
            },
            usage: usage_with(s.state.usage, usage),
            ..s.state
        },
        ..s
    }
}

/// What one event frame does to an answer; frames of other types do nothing.
pub open spec fn event_step(s: AnthropicStep, event: AnthropicEventView) -> AnthropicStep {
    if event.kind == "message_start"@ {
        message_start(s, event.message)
    } else if event.kind == "content_block_start"@ {
        block_start(s, event.content_block, event.index)
    } else if event.kind == "content_block_delta"@ {
        block_delta(s, event.delta, event.index)
    } else if event.kind == "message_delta"@ {
        message_delta(s, event.delta, event.usage)
    } else {
        s
    }
}

/// One finished tool block: a tool call, or the answer itself when the tool
/// carries structured output. A block without name and input is left out.
pub open spec fn block_finished(s: AnthropicStep, block: ToolBlockAccumulatorView) -> AnthropicStep {
    if carries_output(block.name) {
        if block.input_json.len() == 0 {
            s
        } else {
            sent(
                opened(s),
                ResponseEventView::OutputItemDone(text_message(block.input_json)),
            )
        }
    } else if block.name.len() == 0 && block.input_json.len() == 0 {
        s
    } else {
        let tool = tool_of_flat(block.name);
        sent(
            s,
            ResponseEventView::OutputItemDone(
                call_item(tool.name, tool.namespace, block.input_json, block.id),
            ),
        )
    }
}

/// The finished tool blocks in order.
pub open spec fn blocks_finished(s: AnthropicStep, blocks: Seq<ToolBlockAccumulatorView>) -> AnthropicStep
    decreases blocks.len(),
{
    if blocks.len() == 0 {
        s
    } else {
        block_finished(blocks_finished(s, blocks.drop_last()), blocks.last())
    }
}

/// Whether the answer is structured output.
pub open spec fn structured(blocks: Seq<ToolBlockAccumulatorView>) -> bool {
    exists|i: int| 0 <= i < blocks.len() && carries_output((#[trigger] blocks[i]).name)
}

/// Whether the turn ended, by the reason to stop: not when a tool is awaited or
/// the answer was cut off, and unknown for a reason that is not known.
pub open spec fn turn_ended(reason: Option<Seq<char>>) -> Option<bool> {
    match reason {
        None => None,
        Some(r) => if r == "end_turn"@ || r == "stop_sequence"@ {
            Some(true)
        } else if r == "tool_use"@ || r == "max_tokens"@ || r == "content_filter"@ || r
            == "pause_turn"@ {
            Some(false)
        } else {
            None
        },
    }
}

/// The sum of two counts, at most the largest and at least the smallest value.
pub open spec fn saturated_sum(a: i64, b: i64) -> i64 {
    if a + b > i64::MAX {
        i64::MAX
    } else if a + b < i64::MIN {
        i64::MIN
    } else {
        (a + b) as i64
    }
}

/// A count, or zero.
pub open spec fn count_or_zero(count: Option<i64>) -> i64 {
    match count {
        Some(c) => c,
        None => 0,
    }
}

/// The usage of the answer, when any was reported. Input counts the cached
/// tokens too, and cached input is what was read from the cache.
pub open spec fn total_usage(usage: UsageAccumulator) -> Option<TokenUsage> {
    if usage.input_tokens is None && usage.cache_creation_input_tokens is None
        && usage.cache_read_input_tokens is None && usage.output_tokens is None {
        None
    } else {
        let cached = count_or_zero(usage.cache_read_input_tokens);
        let input = saturated_sum(
            saturated_sum(
                count_or_zero(usage.input_tokens),
                count_or_zero(usage.cache_creation_input_tokens),
            ),
            cached,
        );
        let output = count_or_zero(usage.output_tokens);
        Some(
            TokenUsage {
                input_tokens: input,
                cached_input_tokens: cached,
                output_tokens: output,
                reasoning_output_tokens: 0,
                total_tokens: saturated_sum(input, output),
            },
        )
    }
}

/// The end of an answer: the reasoning, the message, the tool blocks and the
/// completion. Structured output always ends the turn.
pub open spec fn flushed(s: AnthropicStep) -> AnthropicStep {
    let closed = reasoning_closed(s);
    let blocks = s.state.tool_blocks;
    let messaged = AnthropicStep {
        state: AnthropicStreamStateView { tool_blocks: Seq::empty(), ..closed.state },
        events: closed.events + finished_message(
            s.state.message_item_added,
            s.state.assistant_text,
        ),
    };
    sent(
        blocks_finished(messaged, blocks),
        ResponseEventView::Completed {
            response_id: or_empty(s.state.response_id),
            token_usage: total_usage(s.state.usage),
            end_turn: if structured(blocks) {
                Some(true)
            } else {
                turn_ended(s.state.finish_reason)
            },
        },
    )
}

/// The message of an error frame.
pub open spec fn error_text(error: Option<JsonView>) -> Seq<char> {
    let inner = match error {
        Some(e) => match doc_field(e, "error"@) {
            Some(i) => Some(i),
            None => Some(e),
        },
        None => None,
    };
    let message = match inner {
        Some(i) => text_field(i, "message"@),
        None => None,
    };
    match message {
        Some(m) => if blank(m) {
            "anthropic stream error"@
        } else {
            m
        },
        None => "anthropic stream error"@,
    }
}

/// What one frame's data does: a frame that cannot be read is passed over, an
/// error frame breaks the answer off, `message_stop` ends it.
pub open spec fn data_step(s: AnthropicStep, data: Seq<char>) -> (AnthropicStep, VerdictView) {
    match parsed_json(data) {
        None => (s, VerdictView::Continue),
        Some(doc) => match event_of(doc) {
            None => (s, VerdictView::Continue),
            Some(event) => if event.kind == "error"@ {
                (s, VerdictView::Failed(error_text(event.error)))
            } else if event.kind == "message_stop"@ {
                (flushed(event_step(s, event)), VerdictView::Finished)
            } else {
                (event_step(s, event), VerdictView::Continue)
            },
        },
    }
}

/// What the reader of a stream does next: data is taken in, the end of the
/// stream ends the answer, silence or a broken stream break it off.
pub open spec fn sse_step(s: AnthropicStep, input: SseInputView) -> (AnthropicStep, VerdictView) {
    match input {
        SseInputView::Data(data) => data_step(s, data),
        SseInputView::End => (flushed(s), VerdictView::Finished),
        SseInputView::Idle => (s, VerdictView::Failed("idle timeout waiting for Anthropic SSE"@)),
        SseInputView::Broken(reason) => (s, VerdictView::Failed(reason)),
    }
}

/// Whether the tool blocks are in ascending order of their indices.
pub open spec fn blocks_ascending(blocks: Seq<ToolBlockAccumulatorView>) -> bool {
    forall|i: int, j: int|
        #![trigger blocks[i], blocks[j]]
        0 <= i < j < blocks.len() ==> blocks[i].index < blocks[j].index
}

/// What holds of every answer of this protocol while it is assembled.
pub open spec fn sound(s: AnthropicStep) -> bool {
    &&& sound_answer(
        s.events,
        s.state.created_emitted,
        s.state.message_item_added,
        s.state.assistant_text,
    )
    &&& blocks_ascending(s.state.tool_blocks)
}

/// The answer so far, as a step.
pub open spec fn step_of(state: AnthropicStreamState, events: Seq<ResponseEventView>) -> AnthropicStep {
    AnthropicStep { state: state@, events }
}

impl Default for AnthropicStreamState {
    fn default() -> (r: AnthropicStreamState)
        ensures
            r@ == (AnthropicStreamStateView {
                created_emitted: false,
                message_item_added: false,
                assistant_text: Seq::empty(),
                tool_blocks: Seq::empty(),
                response_id: None,
                server_model: None,
                finish_reason: None,
                usage: UsageAccumulator {
                    input_tokens: None,
                    cache_creation_input_tokens: None,
                    cache_read_input_tokens: None,
                    output_tokens: None,
                },
                thinking_text: Seq::empty(),
                thinking_signature: None,
                redacted_thinking: false,
            }),
    {
        let r = AnthropicStreamState {
            created_emitted: false,
            message_item_added: false,
            assistant_text: String::new(),
            tool_blocks: Vec::new(),
            response_id: None,
            server_model: None,
            finish_reason: None,
            usage: UsageAccumulator {
                input_tokens: None,
                cache_creation_input_tokens: None,
                cache_read_input_tokens: None,
                output_tokens: None,
            },
            thinking_text: String::new(),
            thinking_signature: None,
            redacted_thinking: false,
        };
        assert(r.tool_blocks.deep_view() =~= Seq::<ToolBlockAccumulatorView>::empty());
        r
    }
}

fn read_doc_slot(doc: &Json, key: &str, at: usize) -> (r: Option<Json>)
    ensures
        r.deep_view() == doc_slot(doc@, key@, at as int),
{
    match doc.record_at(key, at) {
        None => None,
        Some(d) => if d.is_null() {
            None
        } else {
            Some(d.copy())
        },
    }
}

/// Reads a frame.
pub fn read_event(doc: &Json) -> (r: Option<AnthropicEvent>)
    ensures
        r.deep_view() == event_of(doc@),
{
    if !doc.is_record(7) {
        return None;
    }
    let kind = match doc.record_at("type", 0) {
        Some(Json::Text(kind)) => kind.clone(),
        _ => {
            return None;
        },
    };
    let index = match doc.record_at("index", 1) {
        None => None,
        Some(d) => if d.is_null() {
            None
        } else {
            match d.as_i64() {
                Some(i) => Some(i),
                None => {
                    return None;
                },
            }
        },
    };
    Some(
        AnthropicEvent {
            kind,
            index,
            message: read_doc_slot(doc, "message", 2),
            content_block: read_doc_slot(doc, "content_block", 3),
            delta: read_doc_slot(doc, "delta", 4),
            usage: read_doc_slot(doc, "usage", 5),
            error: read_doc_slot(doc, "error", 6),
        },
    )
}

/// Takes a usage report in.
pub fn apply_usage(usage: &mut UsageAccumulator, report: &Json)
    ensures
        *final(usage) == usage_after(*old(usage), report@),
{
    if let Some(v) = report.i64_at("input_tokens") {
        usage.input_tokens = Some(v);
    }
    if let Some(v) = report.i64_at("cache_creation_input_tokens") {
        usage.cache_creation_input_tokens = Some(v);
    }
    if let Some(v) = report.i64_at("cache_read_input_tokens") {
        usage.cache_read_input_tokens = Some(v);
    }
    if let Some(v) = report.i64_at("output_tokens") {
        usage.output_tokens = Some(v);
    }
}

fn or_zero(count: Option<i64>) -> (r: i64)
    ensures
        r == count_or_zero(count),
{
    match count {
        Some(c) => c,
        None => 0,
    }
}

/// The sum of two counts, at most the largest and at least the smallest value.
pub fn saturating_sum(a: i64, b: i64) -> (r: i64)
    ensures
        r == saturated_sum(a, b),
{
    let sum: i128 = a as i128 + b as i128;
    if sum > i64::MAX as i128 {
        i64::MAX
    } else if sum < i64::MIN as i128 {
        i64::MIN
    } else {
        sum as i64
    }
}

/// The usage of the answer, when any was reported.
pub fn build_token_usage(usage: &UsageAccumulator) -> (r: Option<TokenUsage>)
    ensures
        r == total_usage(*usage),
{
    if usage.input_tokens.is_none() && usage.cache_creation_input_tokens.is_none()
        && usage.cache_read_input_tokens.is_none() && usage.output_tokens.is_none() {
        return None;
    }
    let cached_input_tokens: i64 = or_zero(usage.cache_read_input_tokens);
    let input_tokens: i64 = saturating_sum(
        saturating_sum(
            or_zero(usage.input_tokens),
            or_zero(usage.cache_creation_input_tokens),
        ),
        cached_input_tokens,
    );
    let output_tokens: i64 = or_zero(usage.output_tokens);
    Some(
        TokenUsage {
            input_tokens,
            cached_input_tokens,
            output_tokens,
            reasoning_output_tokens: 0,
            total_tokens: saturating_sum(input_tokens, output_tokens),
        },
    )
}

fn take_message_start(
    state: &mut AnthropicStreamState,
    message: &Option<Json>,
    events: &mut Vec<ResponseEvent>,
)
    ensures
        step_of(*final(state), final(events).deep_view()) == message_start(
            step_of(*old(state), old(events).deep_view()),
            message.deep_view(),
        ),
{
    if !state.created_emitted {
        emit(events, ResponseEvent::Created);
        state.created_emitted = true;
    }
    if let Some(m) = message {
        if state.response_id.is_none() {
            state.response_id = m.text_at("id");
        }
        if let Some(model) = m.text_at("model") {
            let known = match &state.server_model {
                Some(k) => same_text(k.as_str(), model.as_str()),
                None => false,
            };
            if !known {
                emit(events, ResponseEvent::ServerModel(model.clone()));
                state.server_model = Some(model);
            }
        }
        if let Some(report) = m.get("usage") {
            apply_usage(&mut state.usage, report);
        }
    }
}

/// Ends the reasoning.
fn close_reasoning(state: &mut AnthropicStreamState, events: &mut Vec<ResponseEvent>)
    ensures
        step_of(*final(state), final(events).deep_view()) == reasoning_closed(
            step_of(*old(state), old(events).deep_view()),
        ),
{
    let mut text = String::new();
    std::mem::swap(&mut state.thinking_text, &mut text);
    let mut signature: Option<String> = None;
    std::mem::swap(&mut state.thinking_signature, &mut signature);
    if !text.as_str().is_empty() && !state.redacted_thinking {
        if let Some(token) = signature {
            let mut content: Vec<ReasoningItemContent> = Vec::new();
            content.push(ReasoningItemContent::ReasoningText { text });
            assert(content.deep_view() =~= seq![
                ReasoningItemContentView::ReasoningText { text: text@ },
            ]);
            let summary: Vec<String> = Vec::new();
            assert(summary.deep_view() =~= Seq::<Seq<char>>::empty());
            emit(
                events,
                ResponseEvent::OutputItemDone(
                    ResponseItem::Reasoning {
                        id: None,
                        summary,
                        content: Some(content),
                        encrypted_content: None,
                        continuity_token: Some(token),
                    },
                ),
            );
        }
    }
}

fn find_block(blocks: &Vec<ToolBlockAccumulator>, index: i64) -> (r: usize)
    ensures
        r == block_slot(blocks.deep_view(), index, 0),
        r <= blocks@.len(),
{
    let mut i: usize = 0;
    while i < blocks.len()
        invariant
            i <= blocks@.len(),
            block_slot(blocks.deep_view(), index, 0) == block_slot(
                blocks.deep_view(),
                index,
                i as int,
            ),
        decreases blocks@.len() - i,
    {
        assert(blocks.deep_view()[i as int].index == blocks@[i as int].index);
        if blocks[i].index >= index {
            return i;
        }
        i += 1;
    }
    i
}

fn is_output_carrier(name: &str) -> (r: bool)
    ensures
        r == carries_output(name@),
{
    same_text(name, ANTHROPIC_STRUCTURED_OUTPUT_TOOL)
}

fn start_tool(
    state: &mut AnthropicStreamState,
    block: &Json,
    index: i64,
    events: &mut Vec<ResponseEvent>,
)
    ensures
        step_of(*final(state), final(events).deep_view()) == tool_started(
            step_of(*old(state), old(events).deep_view()),
            block@,
            index,
        ),
{
    let ghost before = old(state)@.tool_blocks;
    let given = match block.text_at("id") {
        Some(id) => id,
        None => String::new(),
    };
    let id = if given.as_str().is_empty() {
        cat("call_", i64_text(index).as_str())
    } else {
        given
    };
    let name = match block.text_at("name") {
        Some(name) => name,
        None => String::new(),
    };
    let i: usize = find_block(&state.tool_blocks, index);
    if i < state.tool_blocks.len() && state.tool_blocks[i].index == index {
        assert(before[i as int] == state.tool_blocks@[i as int]@);
        state.tool_blocks[i].id = id.clone();
        state.tool_blocks[i].name = name.clone();
        assert(state.tool_blocks.deep_view() =~= before.update(
            i as int,
            ToolBlockAccumulatorView { id: id@, name: name@, ..before[i as int] },
        ));
    } else {
        state.tool_blocks.insert(
            i,
            ToolBlockAccumulator {
                index,
                id: id.clone(),
                name: name.clone(),
                input_json: String::new(),
            },
        );
        assert(state.tool_blocks.deep_view() =~= before.insert(
            i as int,
            ToolBlockAccumulatorView { index, id: id@, name: name@, input_json: Seq::empty() },
        ));
    }
    if !is_output_carrier(name.as_str()) {
        let tool = ToolName::from_flat_wire_name(name.as_str());
        emit(
            events,
            ResponseEvent::OutputItemAdded(
                make_call_item(tool.name, tool.namespace, String::new(), id),
            ),
        );
    }
}

fn take_block_start(
    state: &mut AnthropicStreamState,
    block: &Option<Json>,
    index: Option<i64>,
    events: &mut Vec<ResponseEvent>,
)
    ensures
        step_of(*final(state), final(events).deep_view()) == block_start(
            step_of(*old(state), old(events).deep_view()),
            block.deep_view(),
            index,
        ),
{
    if let Some(b) = block {
        let kind = match b.text_at("type") {
            Some(kind) => kind,
            None => String::new(),
        };
        if same_text(kind.as_str(), "tool_use") {
            close_reasoning(state, events);
            let at: i64 = match index {
                Some(i) => i,
                None => 0,
            };
            start_tool(state, b, at, events);
        } else if same_text(kind.as_str(), "text") {
            close_reasoning(state, events);
        } else if same_text(kind.as_str(), "redacted_thinking") {
            state.redacted_thinking = true;
        }
    }
}

/// Announces the message before its first piece.
fn ensure_message_item(state: &mut AnthropicStreamState, events: &mut Vec<ResponseEvent>)
    ensures
        step_of(*final(state), final(events).deep_view()) == opened(
            step_of(*old(state), old(events).deep_view()),
        ),
{
    if !state.message_item_added {
        emit(events, ResponseEvent::OutputItemAdded(make_open_message()));
        state.message_item_added = true;
    }
}

fn take_block_delta(
    state: &mut AnthropicStreamState,
    delta: &Option<Json>,
    index: Option<i64>,
    events: &mut Vec<ResponseEvent>,
)
    ensures
        step_of(*final(state), final(events).deep_view()) == block_delta(
            step_of(*old(state), old(events).deep_view()),
            delta.deep_view(),
            index,
        ),
{
    let d = match delta {
        Some(d) => d,
        None => {
            return;
        },
    };
    let kind = match d.text_at("type") {
        Some(kind) => kind,
        None => String::new(),
    };
    if same_text(kind.as_str(), "text_delta") {
        if let Some(text) = d.text_at("text") {
            if !text.as_str().is_empty() {
                ensure_message_item(state, events);
                state.assistant_text.append(text.as_str());
                emit(events, ResponseEvent::OutputTextDelta(text));
            }
        }
    } else if same_text(kind.as_str(), "input_json_delta") {
        if let Some(at) = index {
            if let Some(partial) = d.text_at("partial_json") {
                let ghost before = state@.tool_blocks;
                let i: usize = find_block(&state.tool_blocks, at);
                if i < state.tool_blocks.len() && state.tool_blocks[i].index == at {
                    assert(before[i as int] == state.tool_blocks@[i as int]@);
                    let longer = cat(state.tool_blocks[i].input_json.as_str(), partial.as_str());
                    state.tool_blocks[i].input_json = longer;
                    assert(state.tool_blocks.deep_view() =~= before.update(
                        i as int,
                        ToolBlockAccumulatorView { input_json: longer@, ..before[i as int] },
                    ));
                }
            }
        }
    } else if same_text(kind.as_str(), "thinking_delta") {
        if let Some(text) = d.text_at("thinking") {
            if !text.as_str().is_empty() {
                ensure_message_item(state, events);
                state.thinking_text.append(text.as_str());
                let content_index: i64 = match index {
                    Some(i) => i,
                    None => 0,
                };
                emit(events, ResponseEvent::ReasoningContentDelta { delta: text, content_index });
            }
        }
    } else if same_text(kind.as_str(), "signature_delta") {
        if let Some(signature) = d.text_at("signature") {
            state.thinking_signature = Some(signature);
        }
    }
}

fn take_message_delta(
    state: &mut AnthropicStreamState,
    delta: &Option<Json>,
    usage: &Option<Json>,
)
    ensures
        forall|events: Seq<ResponseEventView>|
            step_of(*final(state), events) == #[trigger] message_delta(
                step_of(*old(state), events),
                delta.deep_view(),
                usage.deep_view(),
            ),
{
    if let Some(d) = delta {
        if let Some(reason) = d.text_at("stop_reason") {
            state.finish_reason = Some(reason);
        }
    }
    if let Some(report) = usage {
        apply_usage(&mut state.usage, report);
    }
}

/// Takes in one event frame: the state is brought up to date, and what the
/// frame shows goes out as events.
pub fn process_event(
    state: &mut AnthropicStreamState,
    event: &AnthropicEvent,
    events: &mut Vec<ResponseEvent>,
)
    ensures
        step_of(*final(state), final(events).deep_view()) == event_step(
            step_of(*old(state), old(events).deep_view()),
            event@,
        ),
{
    if same_text(event.kind.as_str(), "message_start") {
        take_message_start(state, &event.message, events);
    } else if same_text(event.kind.as_str(), "content_block_start") {
        take_block_start(state, &event.content_block, event.index, events);
    } else if same_text(event.kind.as_str(), "content_block_delta") {
        take_block_delta(state, &event.delta, event.index, events);
    } else if same_text(event.kind.as_str(), "message_delta") {
        take_message_delta(state, &event.delta, &event.usage);
        assert(step_of(*state, events.deep_view()) == message_delta(
            step_of(*old(state), events.deep_view()),
            event@.delta,
            event@.usage,
        ));
    }
}

fn finish_block(
    state: &mut AnthropicStreamState,
    block: ToolBlockAccumulator,
    events: &mut Vec<ResponseEvent>,
)
    ensures
        step_of(*final(state), final(events).deep_view()) == block_finished(
            step_of(*old(state), old(events).deep_view()),
            block@,
        ),
{
    if is_output_carrier(block.name.as_str()) {
        if !block.input_json.as_str().is_empty() {
            ensure_message_item(state, events);
            emit(events, ResponseEvent::OutputItemDone(make_text_message(block.input_json)));
        }
    } else if !(block.name.as_str().is_empty() && block.input_json.as_str().is_empty()) {
        let tool = ToolName::from_flat_wire_name(block.name.as_str());
        emit(
            events,
            ResponseEvent::OutputItemDone(
                make_call_item(tool.name, tool.namespace, block.input_json, block.id),
            ),
        );
    }
}

fn ended(reason: &Option<String>) -> (r: Option<bool>)
    ensures
        r == turn_ended(reason.deep_view()),
{
    match reason {
        None => None,
        Some(r) => {
            let r = r.as_str();
            if same_text(r, "end_turn") || same_text(r, "stop_sequence") {
                Some(true)
            } else if same_text(r, "tool_use") || same_text(r, "max_tokens") || same_text(
                r,
                "content_filter",
            ) || same_text(r, "pause_turn") {
                Some(false)
            } else {
                None
            }
        },
    }
}

fn any_carrier(blocks: &Vec<ToolBlockAccumulator>) -> (r: bool)
    ensures
        r == structured(blocks.deep_view()),
{
    let ghost all = blocks.deep_view();
    let mut i: usize = 0;
    while i < blocks.len()
        invariant
            i <= blocks@.len(),
            all == blocks.deep_view(),
            forall|j: int| 0 <= j < i ==> !carries_output((#[trigger] all[j]).name),
        decreases blocks@.len() - i,
    {
        assert(all[i as int].name == blocks@[i as int].name@);
        if is_output_carrier(blocks[i].name.as_str()) {
            return true;
        }
        i += 1;
    }
    false
}

/// Ends the answer: the reasoning, the message, the tool blocks in ascending
/// order of their indices, and the completion go out.
pub fn flush(state: &mut AnthropicStreamState, events: &mut Vec<ResponseEvent>)
    ensures
        step_of(*final(state), final(events).deep_view()) == flushed(
            step_of(*old(state), old(events).deep_view()),
        ),
{
    let ghost first = step_of(*old(state), old(events).deep_view());
    close_reasoning(state, events);
    let ghost closed = step_of(*state, events.deep_view());
    if state.message_item_added && !state.assistant_text.as_str().is_empty() {
        emit(
            events,
            ResponseEvent::OutputItemDone(make_text_message(state.assistant_text.clone())),
        );
    }
    assert(events.deep_view() =~= closed.events + finished_message(
        first.state.message_item_added,
        first.state.assistant_text,
    ));
    let carrier = any_carrier(&state.tool_blocks);
    let mut blocks: Vec<ToolBlockAccumulator> = Vec::new();
    std::mem::swap(&mut state.tool_blocks, &mut blocks);
    assert(state.tool_blocks.deep_view() =~= Seq::<ToolBlockAccumulatorView>::empty());
    let ghost all = blocks.deep_view();
    let ghost messaged = step_of(*state, events.deep_view());
    assert(all.take(0) =~= Seq::<ToolBlockAccumulatorView>::empty());
    for block in it: blocks
        invariant
            it.seq() == blocks@,
            all == blocks.deep_view(),
            step_of(*state, events.deep_view()) == blocks_finished(
                messaged,
                all.take(it.index() as int),
            ),
    {
        proof {
            let i = it.index() as int;
            assert(all.take(i + 1).drop_last() =~= all.take(i));
            assert(all.take(i + 1).last() == block@);
        }
        finish_block(state, block, events);
    }
    proof {
        assert(all.take(all.len() as int) =~= all);
        lemma_blocks_finished_keep(messaged, all);
    }
    let end_turn = if carrier {
        Some(true)
    } else {
        ended(&state.finish_reason)
    };
    let response_id = match &state.response_id {
        Some(id) => id.clone(),
        None => String::new(),
    };
    let token_usage = build_token_usage(&state.usage);
    emit(events, ResponseEvent::Completed { response_id, token_usage, end_turn });
}

/// Finishing tool blocks changes nothing of the state but, perhaps, that the
/// message is announced.
proof fn lemma_blocks_finished_keep(s: AnthropicStep, blocks: Seq<ToolBlockAccumulatorView>)
    ensures
        blocks_finished(s, blocks).state == (AnthropicStreamStateView {
            message_item_added: blocks_finished(s, blocks).state.message_item_added,
            ..s.state
        }),
    decreases blocks.len(),
{
    if blocks.len() > 0 {
        lemma_blocks_finished_keep(s, blocks.drop_last());
    }
}

fn take_data(state: &mut AnthropicStreamState, data: &str, events: &mut Vec<ResponseEvent>) -> (r:
    StreamVerdict)
    ensures
        (step_of(*final(state), final(events).deep_view()), r@) == data_step(
            step_of(*old(state), old(events).deep_view()),
            data@,
        ),
{
    let doc = match parse_json(data) {
        Some(doc) => doc,
        None => {
            return StreamVerdict::Continue;
        },
    };
    let event = match read_event(&doc) {
        Some(event) => event,
        None => {
            return StreamVerdict::Continue;
        },
    };
    if same_text(event.kind.as_str(), "error") {
        let message = match &event.error {
            Some(e) => match e.get("error") {
                Some(inner) => inner.text_at("message"),
                None => e.text_at("message"),
            },
            None => None,
        };
        let text = match message {
            Some(m) => if is_blank(m.as_str()) {
                "anthropic stream error".to_owned()
            } else {
                m
            },
            None => "anthropic stream error".to_owned(),
        };
        return StreamVerdict::Failed(text);
    }
    process_event(state, &event, events);
    if same_text(event.kind.as_str(), "message_stop") {
        flush(state, events);
        return StreamVerdict::Finished;
    }
    StreamVerdict::Continue
}

/// Takes in what the reader of a stream meets next, and says whether more is
/// read. The text of a frame is read as a document before its fields are looked
/// at: of a field that is given twice the last one counts, and a frame that is no
/// document, because of any field, is passed over.
pub fn process_anthropic_sse(
    state: &mut AnthropicStreamState,
    input: &SseInput,
    events: &mut Vec<ResponseEvent>,
) -> (r: StreamVerdict)
    ensures
        (step_of(*final(state), final(events).deep_view()), r@) == sse_step(
            step_of(*old(state), old(events).deep_view()),
            input@,
        ),
{
    match input {
        SseInput::Data(data) => take_data(state, data.as_str(), events),
        SseInput::End => {
            flush(state, events);
            StreamVerdict::Finished
        },
        SseInput::Idle => StreamVerdict::Failed("idle timeout waiting for Anthropic SSE".to_owned()),
        SseInput::Broken(reason) => StreamVerdict::Failed(reason.clone()),
    }
}

pub proof fn lemma_block_slot(blocks: Seq<ToolBlockAccumulatorView>, index: i64, from: int)
    requires
        0 <= from <= blocks.len(),
    ensures
        from <= block_slot(blocks, index, from) <= blocks.len(),
        forall|i: int|
            from <= i < block_slot(blocks, index, from) ==> (#[trigger] blocks[i]).index < index,
        block_slot(blocks, index, from) < blocks.len() ==> blocks[block_slot(
            blocks,
            index,
            from,
        )].index >= index,
    decreases blocks.len() - from,
{
    if from < blocks.len() && blocks[from].index < index {
        lemma_block_slot(blocks, index, from + 1);
    }
}

/// Replacing a block by one at the same index, or putting one where its index
/// belongs, keeps the order.
proof fn lemma_blocks_ascending(
    blocks: Seq<ToolBlockAccumulatorView>,
    index: i64,
    block: ToolBlockAccumulatorView,
)
    requires
        blocks_ascending(blocks),
        block.index == index,
    ensures
        has_block(blocks, index) ==> blocks_ascending(
            blocks.update(block_slot(blocks, index, 0), block),
        ),
        !has_block(blocks, index) ==> blocks_ascending(
            blocks.insert(block_slot(blocks, index, 0), block),
        ),
{
    let i = block_slot(blocks, index, 0);
    lemma_block_slot(blocks, index, 0);
    if has_block(blocks, index) {
        let after = blocks.update(i, block);
        assert forall|a: int, b: int|
            #![trigger after[a], after[b]]
            0 <= a < b < after.len() implies after[a].index < after[b].index by {
            assert(blocks[a].index < blocks[b].index);
        }
    } else {
        let after = blocks.insert(i, block);
        assert forall|a: int, b: int|
            #![trigger after[a], after[b]]
            0 <= a < b < after.len() implies after[a].index < after[b].index by {
            if a < i {
                assert(after[a] == blocks[a]);
            } else if a > i {
                assert(after[a] == blocks[a - 1]);
            }
            if b < i {
                assert(after[b] == blocks[b]);
            } else if b > i {
                assert(after[b] == blocks[b - 1]);
                assert(blocks[i].index <= blocks[b - 1].index);
            }
        }
    }
}

proof fn lemma_closed_sound(s: AnthropicStep)
    requires
        sound(s),
    ensures
        sound(reasoning_closed(s)),
{
    if s.state.thinking_signature is Some {
        lemma_sound_neutral(
            s.events,
            s.state.created_emitted,
            s.state.message_item_added,
            s.state.assistant_text,
            ResponseEventView::OutputItemDone(
                reasoning_item(s.state.thinking_text, s.state.thinking_signature->Some_0),
            ),
        );
    }
}

proof fn lemma_tool_started_sound(s: AnthropicStep, block: JsonView, index: i64)
    requires
        sound(s),
    ensures
        sound(tool_started(s, block, index)),
{
    let blocks = s.state.tool_blocks;
    let i = block_slot(blocks, index, 0);
    let id = block_id(block, index);
    let name = or_empty(text_field(block, "name"@));
    if has_block(blocks, index) {
        lemma_blocks_ascending(blocks, index, ToolBlockAccumulatorView { id, name, ..blocks[i] });
    } else {
        lemma_blocks_ascending(
            blocks,
            index,
            ToolBlockAccumulatorView { index, id, name, input_json: Seq::empty() },
        );
    }
    let tool = tool_of_flat(name);
    lemma_sound_neutral(
        s.events,
        s.state.created_emitted,
        s.state.message_item_added,
        s.state.assistant_text,
        ResponseEventView::OutputItemAdded(
            call_item(tool.name, tool.namespace, Seq::empty(), id),
        ),
    );
}

proof fn lemma_opened_sound(s: AnthropicStep)
    requires
        sound(s),
    ensures
        sound(opened(s)),
        opened(s).state.message_item_added,
{
    lemma_sound_opened(
        s.events,
        s.state.created_emitted,
        s.state.message_item_added,
        s.state.assistant_text,
    );
}

proof fn lemma_message_start_sound(s: AnthropicStep, message: Option<JsonView>)
    requires
        sound(s),
    ensures
        sound(message_start(s, message)),
{
    if !s.state.created_emitted {
        lemma_sound_created(s.events, s.state.message_item_added, s.state.assistant_text);
    }
    let a = announced(s);
    assert(sound(a));
    if let Some(m) = message {
        if let Some(model) = text_field(m, "model"@) {
            lemma_sound_neutral(
                a.events,
                a.state.created_emitted,
                a.state.message_item_added,
                a.state.assistant_text,
                ResponseEventView::ServerModel(model),
            );
        }
    }
}

proof fn lemma_block_delta_sound(s: AnthropicStep, delta: Option<JsonView>, index: Option<i64>)
    requires
        sound(s),
    ensures
        sound(block_delta(s, delta, index)),
{
    if let Some(d) = delta {
        lemma_opened_sound(s);
        let o = opened(s);
        let text = or_empty(text_field(d, "text"@));
        lemma_sound_piece(
            o.events,
            o.state.created_emitted,
            o.state.assistant_text,
            ResponseEventView::OutputTextDelta(text),
        );
        assert(sound(text_piece(s, text)));
        let thought = or_empty(text_field(d, "thinking"@));
        lemma_sound_piece(
            o.events,
            o.state.created_emitted,
            o.state.assistant_text,
            ResponseEventView::ReasoningContentDelta {
                delta: thought,
                content_index: match index {
                    Some(i) => i,
                    None => 0,
                },
            },
        );
        assert(sound(thinking_piece(s, thought, index)));
        let partial = text_field(d, "partial_json"@);
        if let Some(p) = partial {
            if let Some(at) = index {
                let blocks = s.state.tool_blocks;
                let i = block_slot(blocks, at, 0);
                if has_block(blocks, at) {
                    lemma_blocks_ascending(
                        blocks,
                        at,
                        ToolBlockAccumulatorView {
                            input_json: blocks[i].input_json + p,
                            ..blocks[i]
                        },
                    );
                }
            }
        }
        assert(sound(input_piece(s, partial, index)));
    }
}

/// Every event frame keeps an answer sound: it is announced at most once, every
/// piece of the message comes after the message is announced, the text is that
/// of the pieces, and the tool blocks stay in order.
pub proof fn law_event_keeps_sound(s: AnthropicStep, event: AnthropicEventView)
    requires
        sound(s),
    ensures
        sound(event_step(s, event)),
{
    lemma_message_start_sound(s, event.message);
    lemma_closed_sound(s);
    if let Some(b) = event.content_block {
        lemma_tool_started_sound(
            reasoning_closed(s),
            b,
            match event.index {
                Some(i) => i,
                None => 0,
            },
        );
    }
    assert(sound(block_start(s, event.content_block, event.index)));
    lemma_block_delta_sound(s, event.delta, event.index);
    assert(sound(message_delta(s, event.delta, event.usage)));
}

/// An answer of which nothing is known yet is sound.
pub proof fn law_fresh_answer_is_sound(s: AnthropicStep)
    requires
        s.events.len() == 0,
        !s.state.created_emitted,
        !s.state.message_item_added,
        s.state.assistant_text.len() == 0,
        s.state.tool_blocks.len() == 0,
    ensures
        sound(s),
{
    assert(s.state.assistant_text =~= Seq::<char>::empty());
}

/// Whether no finished reasoning is among the events.
pub open spec fn no_reasoning_item(events: Seq<ResponseEventView>) -> bool {
    forall|i: int|
        0 <= i < events.len() ==> !(#[trigger] events[i] matches ResponseEventView::OutputItemDone(
            item,
        ) && item is Reasoning)
}

proof fn lemma_blocks_finished_no_reasoning(s: AnthropicStep, blocks: Seq<ToolBlockAccumulatorView>)
    requires
        no_reasoning_item(s.events),
    ensures
        no_reasoning_item(blocks_finished(s, blocks).events),
    decreases blocks.len(),
{
    if blocks.len() > 0 {
        lemma_blocks_finished_no_reasoning(s, blocks.drop_last());
    }
}

/// Once a turn has redacted reasoning, no frame lets finished reasoning out,
/// and the turn stays redacted.
pub proof fn law_redacted_turn_keeps_no_reasoning(s: AnthropicStep, event: AnthropicEventView)
    requires
        s.state.redacted_thinking,
        no_reasoning_item(s.events),
    ensures
        event_step(s, event).state.redacted_thinking,
        no_reasoning_item(event_step(s, event).events),
{
}

/// The end of a redacted turn lets no finished reasoning out either.
pub proof fn law_redacted_turn_ends_without_reasoning(s: AnthropicStep)
    requires
        s.state.redacted_thinking,
        no_reasoning_item(s.events),
    ensures
        no_reasoning_item(flushed(s).events),
{
    let closed = reasoning_closed(s);
    let messaged = AnthropicStep {
        state: AnthropicStreamStateView { tool_blocks: Seq::empty(), ..closed.state },
        events: closed.events + finished_message(
            s.state.message_item_added,
            s.state.assistant_text,
        ),
    };
    assert(no_reasoning_item(messaged.events));
    lemma_blocks_finished_no_reasoning(messaged, s.state.tool_blocks);
}

/// The signed reasoning goes out before the text that follows it begins.
pub proof fn law_signed_reasoning_precedes_text(s: AnthropicStep, block: JsonView, index: Option<i64>)
    requires
        text_field(block, "type"@) == Some("text"@),
        s.state.thinking_text.len() > 0,
        s.state.thinking_signature is Some,
        !s.state.redacted_thinking,
    ensures
        block_start(s, Some(block), index).events == s.events.push(
            ResponseEventView::OutputItemDone(
                reasoning_item(s.state.thinking_text, s.state.thinking_signature->Some_0),
            ),
        ),
{
    reveal_strlit("text");
    reveal_strlit("tool_use");
    assert("text"@.len() != "tool_use"@.len());
}

/// The carrier of structured output has a plain name: no namespace is read out
/// of it.
pub proof fn law_output_carrier_is_plain()
    ensures
        !has_delimiter(ANTHROPIC_STRUCTURED_OUTPUT_TOOL@),
{
    reveal_strlit("respond_structured");
}

/// A call under the flat name of a namespaced tool goes out as a call of that
/// tool in its namespace, unless the namespace contains the delimiter or ends
/// with half of it.
pub proof fn law_namespaced_call_is_restored(
    s: AnthropicStep,
    blocks: Seq<ToolBlockAccumulatorView>,
    i: int,
    namespace: Seq<char>,
    name: Seq<char>,
)
    requires
        0 <= i < blocks.len(),
        blocks[i].name == flat_name(ToolNameView { name, namespace: Some(namespace) }),
        !has_delimiter(namespace),
        namespace.len() > 0 ==> namespace.last() != '_',
    ensures
        blocks_finished(s, blocks).events.contains(
            ResponseEventView::OutputItemDone(
                call_item(name, Some(namespace), blocks[i].input_json, blocks[i].id),
            ),
        ),
    decreases blocks.len(),
{
    let done = ResponseEventView::OutputItemDone(
        call_item(name, Some(namespace), blocks[i].input_json, blocks[i].id),
    );
    let before = blocks_finished(s, blocks.drop_last()).events;
    let all = blocks_finished(s, blocks).events;
    if i == blocks.len() - 1 {
        law_output_carrier_is_plain();
        law_namespaced_round_trip(namespace, name);
        let flat = blocks.last().name;
        assert(delimiter_at(flat, namespace.len() as int));
        assert(!carries_output(flat));
        assert(all[before.len() as int] == done);
    } else {
        law_namespaced_call_is_restored(s, blocks.drop_last(), i, namespace, name);
        let k = choose|k: int| 0 <= k < before.len() && before[k] == done;
        assert(all[k] == done);
    }
}

/// Structured output ends the turn, whatever reason to stop was given.
pub proof fn law_structured_output_ends_turn(s: AnthropicStep)
    requires
        structured(s.state.tool_blocks),
    ensures
        flushed(s).events.last() matches ResponseEventView::Completed { end_turn, .. }
            && end_turn == Some(true),
{
}

/// Input includes what was read from the cache: what is not cached is never
/// counted below zero.
pub proof fn law_input_includes_cached(usage: UsageAccumulator)
    requires
        count_or_zero(usage.input_tokens) >= 0,
        count_or_zero(usage.cache_creation_input_tokens) >= 0,
        count_or_zero(usage.cache_read_input_tokens) >= 0,
        count_or_zero(usage.output_tokens) >= 0,
    ensures
        total_usage(usage) matches Some(u) ==> 0 <= u.cached_input_tokens <= u.input_tokens
            <= u.total_tokens,
{
}

proof fn lemma_block_finished_sound(s: AnthropicStep, block: ToolBlockAccumulatorView)
    requires
        sound(s),
    ensures
        sound(block_finished(s, block)),
{
    lemma_opened_sound(s);
    let o = if carries_output(block.name) {
        opened(s)
    } else {
        s
    };
    if block_finished(s, block) != s {
        lemma_sound_neutral(
            o.events,
            o.state.created_emitted,
            o.state.message_item_added,
            o.state.assistant_text,
            block_finished(s, block).events.last(),
        );
        assert(o.events.push(block_finished(s, block).events.last()) =~= block_finished(
            s,
            block,
        ).events);
    }
}

proof fn lemma_blocks_finished_sound(s: AnthropicStep, blocks: Seq<ToolBlockAccumulatorView>)
    requires
        sound(s),
    ensures
        sound(blocks_finished(s, blocks)),
    decreases blocks.len(),
{
    if blocks.len() > 0 {
        lemma_blocks_finished_sound(s, blocks.drop_last());
        lemma_block_finished_sound(blocks_finished(s, blocks.drop_last()), blocks.last());
    }
}

proof fn lemma_flushed_ended(s: AnthropicStep)
    requires
        sound(s),
    ensures
        ended_answer(flushed(s).events),
{
    lemma_closed_sound(s);
    let closed = reasoning_closed(s);
    let message = finished_message(s.state.message_item_added, s.state.assistant_text);
    lemma_sound_items(
        closed.events,
        s.state.created_emitted,
        s.state.message_item_added,
        s.state.assistant_text,
        message,
    );
    let messaged = AnthropicStep {
        state: AnthropicStreamStateView { tool_blocks: Seq::empty(), ..closed.state },
        events: closed.events + message,
    };
    assert(sound(messaged));
    lemma_blocks_finished_sound(messaged, s.state.tool_blocks);
    let done = blocks_finished(messaged, s.state.tool_blocks);
    lemma_sound_ended(
        done.events,
        done.state.created_emitted,
        done.state.message_item_added,
        done.state.assistant_text,
        flushed(s).events.last(),
    );
}

/// The text of the finished message is that of the pieces that went out: in the
/// end of a sound answer with text, the message with exactly that text comes
/// right after the reasoning that was still open.
pub proof fn law_finished_text_is_delta_text(s: AnthropicStep)
    requires
        sound(s),
        s.state.message_item_added,
        s.state.assistant_text.len() > 0,
    ensures
        flushed(s).events[reasoning_closed(s).events.len() as int]
            == ResponseEventView::OutputItemDone(text_message(delta_text(s.events))),
{
    let closed = reasoning_closed(s);
    let messaged = AnthropicStep {
        state: AnthropicStreamStateView { tool_blocks: Seq::empty(), ..closed.state },
        events: closed.events + finished_message(
            s.state.message_item_added,
            s.state.assistant_text,
        ),
    };
    lemma_blocks_finished_grow(messaged, s.state.tool_blocks);
    assert(messaged.events[closed.events.len() as int] == ResponseEventView::OutputItemDone(
        text_message(s.state.assistant_text),
    ));
}

proof fn lemma_blocks_finished_grow(s: AnthropicStep, blocks: Seq<ToolBlockAccumulatorView>)
    ensures
        s.events.is_prefix_of(blocks_finished(s, blocks).events),
    decreases blocks.len(),
{
    if blocks.len() > 0 {
        lemma_blocks_finished_grow(s, blocks.drop_last());
        let before = blocks_finished(s, blocks.drop_last());
        let after = block_finished(before, blocks.last());
        assert(before.events.is_prefix_of(after.events)) by {
            assert(after.events.take(before.events.len() as int) =~= before.events);
        }
        assert(after.events.take(s.events.len() as int) =~= s.events);
    }
}

/// Whatever the reader of a stream meets: while it reads on or the answer breaks
/// off, the answer is sound and its end was not told, and when the answer is
/// complete it has ended, once and with its last event.
pub proof fn law_input_keeps_sound(s: AnthropicStep, input: SseInputView)
    requires
        sound(s),
    ensures
        sse_step(s, input).1 is Finished ==> ended_answer(sse_step(s, input).0.events),
        !(sse_step(s, input).1 is Finished) ==> sound(sse_step(s, input).0),
{
    lemma_flushed_ended(s);
    if let SseInputView::Data(data) = input {
        if let Some(doc) = parsed_json(data) {
            if let Some(event) = event_of(doc) {
                law_event_keeps_sound(s, event);
                lemma_flushed_ended(event_step(s, event));
            }
        }
    }
}

/// What a stream does to an answer: its inputs are taken in order until the
/// answer is complete or broke off.
pub open spec fn stream(s: AnthropicStep, inputs: Seq<SseInputView>) -> (AnthropicStep, VerdictView)
    decreases inputs.len(),
{
    if inputs.len() == 0 {
        (s, VerdictView::Continue)
    } else {
        let before = stream(s, inputs.drop_last());
        if before.1 is Continue {
            sse_step(before.0, inputs.last())
        } else {
            before
        }
    }
}

/// Every stream makes a sound answer, and one that completes it ends it once.
pub proof fn law_stream_is_sound(s: AnthropicStep, inputs: Seq<SseInputView>)
    requires
        sound(s),
    ensures
        stream(s, inputs).1 is Finished ==> ended_answer(stream(s, inputs).0.events),
        !(stream(s, inputs).1 is Finished) ==> sound(stream(s, inputs).0),
    decreases inputs.len(),
{
    if inputs.len() > 0 {
        law_stream_is_sound(s, inputs.drop_last());
        let before = stream(s, inputs.drop_last());
        if before.1 is Continue {
            law_input_keeps_sound(before.0, inputs.last());
        }
    }
}

} // verus!
