//! Answers of the Chat Completions protocol.
//!
//! The protocol sends pieces of text and of tool calls; the finished items are
//! put together here and go out when the answer ends.

use vstd::prelude::*;
use vstd::string::*;

use crate::codec::parse_json;
use crate::codec::parsed_json;
use crate::events::ResponseEvent;
use crate::events::ResponseEventView;
use crate::json::or_empty;
use crate::models::TokenUsage;
use crate::sse::delta_text;
use crate::sse::lemma_sound_items;
use crate::sse::lemma_sound_ended;
use crate::sse::ended_answer;
use crate::sse::call_item;
use crate::sse::chat_frame::chunk_of;
use crate::sse::chat_frame::read_chunk;
use crate::sse::chat_frame::ChatChoice;
use crate::sse::chat_frame::ChatChoiceView;
use crate::sse::chat_frame::ChatDeltaToolCall;
use crate::sse::chat_frame::ChatDeltaToolCallView;
use crate::sse::chat_frame::ChatStreamChunk;
use crate::sse::chat_frame::ChatStreamChunkView;
use crate::sse::chat_frame::ChatStreamErrorView;
use crate::sse::emit;
use crate::sse::finished_message;
use crate::sse::lemma_sound_created;
use crate::sse::lemma_sound_neutral;
use crate::sse::lemma_sound_opened;
use crate::sse::lemma_sound_piece;
use crate::sse::make_call_item;
use crate::sse::make_open_message;
use crate::sse::make_text_message;
use crate::sse::open_message;
use crate::sse::sound_answer;
use crate::sse::text_message;
use crate::sse::SseInput;
use crate::sse::SseInputView;
use crate::sse::StreamVerdict;
use crate::sse::VerdictView;
use crate::text::blank;
use crate::text::cat;
use crate::text::decimal_int;
use crate::text::i64_text;
use crate::text::is_blank;
use crate::text::same_text;
use crate::text::trim;
use crate::text::trimmed;
use crate::tool_name::flat_name;
use crate::tool_name::has_delimiter;
use crate::tool_name::law_namespaced_round_trip;
use crate::tool_name::tool_of_flat;
use crate::tool_name::ToolName;
use crate::tool_name::ToolNameView;

verus! {

/// What is known of one tool call so far.
#[derive(Debug, Clone, PartialEq)]
pub struct ToolCallAccumulator {
    pub index: i64,
    pub id: String,
    pub name: String,
    pub arguments: String,
}

/// What a `ToolCallAccumulator` means.
#[verifier::ext_equal]
pub struct ToolCallAccumulatorView {
    pub index: i64,
    pub id: Seq<char>,
    pub name: Seq<char>,
    pub arguments: Seq<char>,
}

impl View for ToolCallAccumulator {
    type V = ToolCallAccumulatorView;

    open spec fn view(&self) -> ToolCallAccumulatorView {
        ToolCallAccumulatorView {
            index: self.index.deep_view(),
            id: self.id.deep_view(),
            name: self.name.deep_view(),
            arguments: self.arguments.deep_view(),
        }
    }
}

impl DeepView for ToolCallAccumulator {
    type V = ToolCallAccumulatorView;

    open spec fn deep_view(&self) -> ToolCallAccumulatorView {
        self.view()
    }
}

/// What is known of one answer so far. The tool calls are in ascending order of
/// their indices.
#[derive(Debug, Clone, PartialEq)]
pub struct ChatStreamState {
    pub created_emitted: bool,
    pub message_item_added: bool,
    pub assistant_text: String,
    pub reasoning_content: String,
    pub tool_calls: Vec<ToolCallAccumulator>,
    pub response_id: Option<String>,
    pub server_model: Option<String>,
    pub finish_reason: Option<String>,
    pub usage: Option<TokenUsage>,
}

/// What a `ChatStreamState` means.
#[verifier::ext_equal]
pub struct ChatStreamStateView {
    pub created_emitted: bool,
    pub message_item_added: bool,
    pub assistant_text: Seq<char>,
    pub reasoning_content: Seq<char>,
    pub tool_calls: Seq<ToolCallAccumulatorView>,
    pub response_id: Option<Seq<char>>,
    pub server_model: Option<Seq<char>>,
    pub finish_reason: Option<Seq<char>>,
    pub usage: Option<TokenUsage>,
}

impl View for ChatStreamState {
    type V = ChatStreamStateView;

    open spec fn view(&self) -> ChatStreamStateView {
        ChatStreamStateView {
            created_emitted: self.created_emitted.deep_view(),
            message_item_added: self.message_item_added.deep_view(),
            assistant_text: self.assistant_text.deep_view(),
            reasoning_content: self.reasoning_content.deep_view(),
            tool_calls: self.tool_calls.deep_view(),
            response_id: self.response_id.deep_view(),
            server_model: self.server_model.deep_view(),
            finish_reason: self.finish_reason.deep_view(),
            usage: self.usage.deep_view(),
        }
    }
}

impl DeepView for ChatStreamState {
    type V = ChatStreamStateView;

    open spec fn deep_view(&self) -> ChatStreamStateView {
        self.view()
    }
}

/// An answer so far, with the events that went out.
#[verifier::ext_equal]
pub struct ChatStep {
    pub state: ChatStreamStateView,
    pub events: Seq<ResponseEventView>,
}

/// The step with one more event.
pub open spec fn sent(s: ChatStep, event: ResponseEventView) -> ChatStep {
    ChatStep { events: s.events.push(event), ..s }
}

/// The first frame announces the answer.
pub open spec fn announced(s: ChatStep) -> ChatStep {
    if s.state.created_emitted {
        s
    } else {
        sent(
            ChatStep { state: ChatStreamStateView { created_emitted: true, ..s.state }, ..s },
            ResponseEventView::Created,
        )
    }
}

/// A model that differs from the one seen last is reported.
pub open spec fn model_seen(s: ChatStep, model: Option<Seq<char>>) -> ChatStep {
    match model {
        Some(m) => if s.state.server_model == Some(m) {
            s
        } else {
            sent(
                ChatStep { state: ChatStreamStateView { server_model: Some(m), ..s.state }, ..s },
                ResponseEventView::ServerModel(m),
            )
        },
        None => s,
    }
}

/// The first id and the latest usage are kept.
pub open spec fn noted(s: ChatStep, chunk: ChatStreamChunkView) -> ChatStep {
    ChatStep {
        state: ChatStreamStateView {
            response_id: if s.state.response_id is None {
                chunk.id
            } else {
                s.state.response_id
            },
            usage: match chunk.usage {
                Some(u) => Some(
                    TokenUsage {
                        input_tokens: u.prompt_tokens,
                        cached_input_tokens: 0,
                        output_tokens: u.completion_tokens,
                        reasoning_output_tokens: 0,
                        total_tokens: u.total_tokens,
                    },
                ),
                None => s.state.usage,
            },
            ..s.state
        },
        ..s
    }
}

/// The message is announced before its first piece.
pub open spec fn opened(s: ChatStep) -> ChatStep {
    if s.state.message_item_added {
        s
    } else {
        sent(
            ChatStep { state: ChatStreamStateView { message_item_added: true, ..s.state }, ..s },
            ResponseEventView::OutputItemAdded(open_message()),
        )
    }
}

/// A piece of text, when it is not empty.
pub open spec fn text_piece(s: ChatStep, text: Seq<char>) -> ChatStep {
    if text.len() == 0 {
        s
    } else {
        let o = opened(s);
        sent(
            ChatStep {
                state: ChatStreamStateView {
                    assistant_text: o.state.assistant_text + text,
                    ..o.state
                },
                ..o
            },
            ResponseEventView::OutputTextDelta(text),
        )
    }
}

/// A piece of reasoning, when it is not empty and the message is announced: a
/// turn of reasoning alone makes no message.
pub open spec fn reasoning_piece(s: ChatStep, text: Seq<char>) -> ChatStep {
    if text.len() == 0 || !s.state.message_item_added {
        s
    } else {
        sent(
            ChatStep {
                state: ChatStreamStateView {
                    reasoning_content: s.state.reasoning_content + text,
                    ..s.state
                },
                ..s
            },
            ResponseEventView::ReasoningContentDelta { delta: text, content_index: 0 },
        )
    }
}

/// The position of the first tool call whose index is not below the given one,
/// or their number.
pub open spec fn call_slot(calls: Seq<ToolCallAccumulatorView>, index: i64, from: int) -> int
    decreases calls.len() - from,
{
    if from < 0 || from >= calls.len() {
        calls.len() as int
    } else if calls[from].index >= index {
        from
    } else {
        call_slot(calls, index, from + 1)
    }
}

/// The name and the arguments that a piece of a tool call gives.
pub open spec fn piece_name(tc: ChatDeltaToolCallView) -> Option<Seq<char>> {
    match tc.function {
        Some(f) => f.name,
        None => None,
    }
}

pub open spec fn piece_arguments(tc: ChatDeltaToolCallView) -> Option<Seq<char>> {
    match tc.function {
        Some(f) => f.arguments,
        None => None,
    }
}

/// The id of a tool call: its own, or one made from its index.
pub open spec fn piece_id(tc: ChatDeltaToolCallView) -> Seq<char> {
    match tc.id {
        Some(id) => id,
        None => "call_"@ + decimal_int(tc.index as int),
    }
}

/// A tool call with a first piece.
pub open spec fn new_call(tc: ChatDeltaToolCallView) -> ToolCallAccumulatorView {
    ToolCallAccumulatorView {
        index: tc.index,
        id: piece_id(tc),
        name: or_empty(piece_name(tc)),
        arguments: or_empty(piece_arguments(tc)),
    }
}

/// A tool call with a further piece: name and id are taken while they are still
/// empty, arguments are appended.
pub open spec fn longer_call(call: ToolCallAccumulatorView, tc: ChatDeltaToolCallView) -> ToolCallAccumulatorView {
    ToolCallAccumulatorView {
        index: call.index,
        id: if call.id.len() == 0 && tc.id is Some {
            tc.id->Some_0
        } else {
            call.id
        },
        name: if call.name.len() == 0 && piece_name(tc) is Some {
            piece_name(tc)->Some_0
        } else {
            call.name
        },
        arguments: call.arguments + or_empty(piece_arguments(tc)),
    }
}

/// The announcement of a tool call. The wire holds one name; the namespace is
/// read out of it.
pub open spec fn call_opening(tc: ChatDeltaToolCallView) -> ResponseEventView {
    let tool = tool_of_flat(or_empty(piece_name(tc)));
    ResponseEventView::OutputItemAdded(
        call_item(tool.name, tool.namespace, Seq::empty(), piece_id(tc)),
    )
}

/// A piece of a tool call. The first piece of a tool call announces it.
pub open spec fn call_piece(s: ChatStep, tc: ChatDeltaToolCallView) -> ChatStep {
    let calls = s.state.tool_calls;
    let i = call_slot(calls, tc.index, 0);
    if i < calls.len() && calls[i].index == tc.index {
        ChatStep {
            state: ChatStreamStateView {
                tool_calls: calls.update(i, longer_call(calls[i], tc)),
                ..s.state
            },
            ..s
        }
    } else {
        sent(
            ChatStep {
                state: ChatStreamStateView {
                    tool_calls: calls.insert(i, new_call(tc)),
                    ..s.state
                },
                ..s
            },
            call_opening(tc),
        )
    }
}

/// Pieces of tool calls in order.
pub open spec fn call_pieces(s: ChatStep, list: Seq<ChatDeltaToolCallView>) -> ChatStep
    decreases list.len(),
{
    if list.len() == 0 {
        s
    } else {
        call_piece(call_pieces(s, list.drop_last()), list.last())
    }
}

/// One choice: the reason to finish, then text, reasoning and tool calls.
pub open spec fn choice_step(s: ChatStep, choice: ChatChoiceView) -> ChatStep {
    let finished = ChatStep {
        state: ChatStreamStateView {
            finish_reason: match choice.finish_reason {
                Some(f) => Some(f),
                None => s.state.finish_reason,
            },
            ..s.state
        },
        ..s
    };
    let texted = text_piece(finished, or_empty(choice.delta.content));
    let reasoned = reasoning_piece(texted, or_empty(choice.delta.reasoning_content));
    match choice.delta.tool_calls {
        Some(list) => call_pieces(reasoned, list),
        None => reasoned,
    }
}

/// The choices of a frame in order.
pub open spec fn choice_steps(s: ChatStep, choices: Seq<ChatChoiceView>) -> ChatStep
    decreases choices.len(),
{
    if choices.len() == 0 {
        s
    } else {
        choice_step(choice_steps(s, choices.drop_last()), choices.last())
    }
}

/// What one frame does to an answer.
pub open spec fn chunk_step(s: ChatStep, chunk: ChatStreamChunkView) -> ChatStep {
    choice_steps(noted(model_seen(announced(s), chunk.model), chunk), chunk.choices)
}

/// The finished tool calls in order; one without name and arguments is left out.
pub open spec fn finished_calls(calls: Seq<ToolCallAccumulatorView>) -> Seq<ResponseEventView>
    decreases calls.len(),
{
    if calls.len() == 0 {
        Seq::empty()
    } else {
        let before = finished_calls(calls.drop_last());
        let c = calls.last();
        if c.name.len() == 0 && c.arguments.len() == 0 {
            before
        } else {
            let tool = tool_of_flat(c.name);
            before.push(
                ResponseEventView::OutputItemDone(
                    call_item(tool.name, tool.namespace, c.arguments, c.id),
                ),
            )
        }
    }
}

/// The end of an answer: the message, the tool calls and the completion.
pub open spec fn flushed(s: ChatStep) -> ChatStep {
    ChatStep {
        state: ChatStreamStateView { tool_calls: Seq::empty(), usage: None, ..s.state },
        events: s.events + finished_message(s.state.message_item_added, s.state.assistant_text)
            + finished_calls(s.state.tool_calls) + seq![
            ResponseEventView::Completed {
                response_id: or_empty(s.state.response_id),
                token_usage: s.state.usage,
                end_turn: Some(s.state.finish_reason == Some("stop"@)),
            },
        ],
    }
}

/// The message of an error frame.
pub open spec fn error_text(error: ChatStreamErrorView) -> Seq<char> {
    match error.message {
        Some(m) => if blank(m) {
            "chat stream error"@
        } else {
            m
        },
        None => "chat stream error"@,
    }
}

/// What one frame's data does: the end marker ends the answer, a frame that
/// cannot be read is passed over, an error frame breaks the answer off.
pub open spec fn data_step(s: ChatStep, data: Seq<char>) -> (ChatStep, VerdictView) {
    if trimmed(data) == "[DONE]"@ {
        (flushed(s), VerdictView::Finished)
    } else {
        match parsed_json(data) {
            None => (s, VerdictView::Continue),
            Some(doc) => match chunk_of(doc) {
                None => (s, VerdictView::Continue),
                Some(chunk) => match chunk.error {
                    Some(error) => (s, VerdictView::Failed(error_text(error))),
                    None => (chunk_step(s, chunk), VerdictView::Continue),
                },
            },
        }
    }
}

/// What the reader of a stream does next: data is taken in, the end of the
/// stream ends the answer, silence or a broken stream break it off.
pub open spec fn sse_step(s: ChatStep, input: SseInputView) -> (ChatStep, VerdictView) {
    match input {
        SseInputView::Data(data) => data_step(s, data),
        SseInputView::End => (flushed(s), VerdictView::Finished),
        SseInputView::Idle => (s, VerdictView::Failed("idle timeout waiting for Chat SSE"@)),
        SseInputView::Broken(reason) => (s, VerdictView::Failed(reason)),
    }
}

/// Whether the tool calls are in ascending order of their indices.
pub open spec fn calls_ascending(calls: Seq<ToolCallAccumulatorView>) -> bool {
    forall|i: int, j: int|
        #![trigger calls[i], calls[j]]
        0 <= i < j < calls.len() ==> calls[i].index < calls[j].index
}

/// What holds of every answer of this protocol while it is assembled.
pub open spec fn sound(s: ChatStep) -> bool {
    &&& sound_answer(
        s.events,
        s.state.created_emitted,
        s.state.message_item_added,
        s.state.assistant_text,
    )
    &&& calls_ascending(s.state.tool_calls)
}

pub proof fn lemma_call_slot(calls: Seq<ToolCallAccumulatorView>, index: i64, from: int)
    requires
        0 <= from <= calls.len(),
    ensures
        from <= call_slot(calls, index, from) <= calls.len(),
        forall|i: int| from <= i < call_slot(calls, index, from) ==> (#[trigger] calls[i]).index < index,
        call_slot(calls, index, from) < calls.len() ==> calls[call_slot(calls, index, from)].index
            >= index,
    decreases calls.len() - from,
{
    if from < calls.len() && calls[from].index < index {
        lemma_call_slot(calls, index, from + 1);
    }
}

pub proof fn lemma_call_piece_sound(s: ChatStep, tc: ChatDeltaToolCallView)
    requires
        sound(s),
    ensures
        sound(call_piece(s, tc)),
{
    let calls = s.state.tool_calls;
    let i = call_slot(calls, tc.index, 0);
    lemma_call_slot(calls, tc.index, 0);
    let after = call_piece(s, tc).state.tool_calls;
    if i < calls.len() && calls[i].index == tc.index {
        assert forall|a: int, b: int|
            #![trigger after[a], after[b]]
            0 <= a < b < after.len() implies after[a].index < after[b].index by {
            assert(calls[a].index < calls[b].index);
        }
    } else {
        lemma_sound_neutral(
            s.events,
            s.state.created_emitted,
            s.state.message_item_added,
            s.state.assistant_text,
            call_opening(tc),
        );
        assert forall|a: int, b: int|
            #![trigger after[a], after[b]]
            0 <= a < b < after.len() implies after[a].index < after[b].index by {
            if a < i {
                assert(after[a] == calls[a]);
            } else if a > i {
                assert(after[a] == calls[a - 1]);
            }
            if b < i {
                assert(after[b] == calls[b]);
            } else if b > i {
                assert(after[b] == calls[b - 1]);
                assert(calls[i].index <= calls[b - 1].index);
            }
        }
    }
}

pub proof fn lemma_call_pieces_sound(s: ChatStep, list: Seq<ChatDeltaToolCallView>)
    requires
        sound(s),
    ensures
        sound(call_pieces(s, list)),
    decreases list.len(),
{
    if list.len() > 0 {
        lemma_call_pieces_sound(s, list.drop_last());
        lemma_call_piece_sound(call_pieces(s, list.drop_last()), list.last());
    }
}

proof fn lemma_opened_sound(s: ChatStep)
    requires
        sound(s),
    ensures
        sound(opened(s)),
        opened(s).state.message_item_added,
{
    lemma_sound_opened(
        s.events,
        s.state.created_emitted,
        s.state.message_item_added,
        s.state.assistant_text,
    );
}

pub proof fn lemma_choice_sound(s: ChatStep, choice: ChatChoiceView)
    requires
        sound(s),
    ensures
        sound(choice_step(s, choice)),
{
    let finished = ChatStep {
        state: ChatStreamStateView {
            finish_reason: match choice.finish_reason {
                Some(f) => Some(f),
                None => s.state.finish_reason,
            },
            ..s.state
        },
        ..s
    };
    let text = or_empty(choice.delta.content);
    let texted = text_piece(finished, text);
    if text.len() > 0 {
        lemma_opened_sound(finished);
        let o = opened(finished);
        lemma_sound_piece(
            o.events,
            o.state.created_emitted,
            o.state.assistant_text,
            ResponseEventView::OutputTextDelta(text),
        );
    }
    let reasoning = or_empty(choice.delta.reasoning_content);
    let reasoned = reasoning_piece(texted, reasoning);
    if reasoning.len() > 0 && texted.state.message_item_added {
        lemma_sound_piece(
            texted.events,
            texted.state.created_emitted,
            texted.state.assistant_text,
            ResponseEventView::ReasoningContentDelta { delta: reasoning, content_index: 0 },
        );
    }
    assert(sound(reasoned));
    if let Some(list) = choice.delta.tool_calls {
        lemma_call_pieces_sound(reasoned, list);
    }
}

pub proof fn lemma_choices_sound(s: ChatStep, choices: Seq<ChatChoiceView>)
    requires
        sound(s),
    ensures
        sound(choice_steps(s, choices)),
    decreases choices.len(),
{
    if choices.len() > 0 {
        lemma_choices_sound(s, choices.drop_last());
        lemma_choice_sound(choice_steps(s, choices.drop_last()), choices.last());
    }
}

/// Every frame keeps an answer sound: it is announced at most once, every piece
/// of the message comes after the message is announced, the text is that of
/// the pieces, and the tool calls stay in order.
pub proof fn law_chunk_keeps_sound(s: ChatStep, chunk: ChatStreamChunkView)
    requires
        sound(s),
    ensures
        sound(chunk_step(s, chunk)),
        chunk_step(s, chunk).state.created_emitted,
{
    if !s.state.created_emitted {
        lemma_sound_created(s.events, s.state.message_item_added, s.state.assistant_text);
    }
    let a = announced(s);
    assert(sound(a));
    if let Some(m) = chunk.model {
        if a.state.server_model != Some(m) {
            lemma_sound_neutral(
                a.events,
                a.state.created_emitted,
                a.state.message_item_added,
                a.state.assistant_text,
                ResponseEventView::ServerModel(m),
            );
        }
    }
    let n = noted(model_seen(a, chunk.model), chunk);
    assert(sound(n));
    lemma_choices_sound(n, chunk.choices);
    lemma_choices_created(n, chunk.choices);
}

proof fn lemma_call_pieces_created(s: ChatStep, list: Seq<ChatDeltaToolCallView>)
    ensures
        call_pieces(s, list).state.created_emitted == s.state.created_emitted,
    decreases list.len(),
{
    if list.len() > 0 {
        lemma_call_pieces_created(s, list.drop_last());
    }
}

proof fn lemma_choices_created(s: ChatStep, choices: Seq<ChatChoiceView>)
    ensures
        choice_steps(s, choices).state.created_emitted == s.state.created_emitted,
    decreases choices.len(),
{
    if choices.len() > 0 {
        let before = choice_steps(s, choices.drop_last());
        lemma_choices_created(s, choices.drop_last());
        let choice = choices.last();
        if let Some(list) = choice.delta.tool_calls {
            let finished = ChatStep {
                state: ChatStreamStateView {
                    finish_reason: match choice.finish_reason {
                        Some(f) => Some(f),
                        None => before.state.finish_reason,
                    },
                    ..before.state
                },
                ..before
            };
            let reasoned = reasoning_piece(
                text_piece(finished, or_empty(choice.delta.content)),
                or_empty(choice.delta.reasoning_content),
            );
            lemma_call_pieces_created(reasoned, list);
        }
    }
}

/// A call under the flat name of a namespaced tool goes out as a call of that
/// tool in its namespace, unless the namespace contains the delimiter or ends
/// with half of it.
pub proof fn law_namespaced_call_is_restored(
    calls: Seq<ToolCallAccumulatorView>,
    i: int,
    namespace: Seq<char>,
    name: Seq<char>,
)
    requires
        0 <= i < calls.len(),
        calls[i].name == flat_name(ToolNameView { name, namespace: Some(namespace) }),
        !has_delimiter(namespace),
        namespace.len() > 0 ==> namespace.last() != '_',
    ensures
        finished_calls(calls).contains(
            ResponseEventView::OutputItemDone(
                call_item(name, Some(namespace), calls[i].arguments, calls[i].id),
            ),
        ),
    decreases calls.len(),
{
    let done = ResponseEventView::OutputItemDone(
        call_item(name, Some(namespace), calls[i].arguments, calls[i].id),
    );
    let before = finished_calls(calls.drop_last());
    let all = finished_calls(calls);
    if i == calls.len() - 1 {
        law_namespaced_round_trip(namespace, name);
        assert(calls.last().name.len() >= 2);
        assert(all[before.len() as int] == done);
    } else {
        law_namespaced_call_is_restored(calls.drop_last(), i, namespace, name);
        let k = choose|k: int| 0 <= k < before.len() && before[k] == done;
        assert(all[k] == done);
    }
}

/// The text of the finished message is that of the pieces that went out: the
/// end of a sound answer with text holds the message with exactly that text.
pub proof fn law_finished_text_is_delta_text(s: ChatStep)
    requires
        sound(s),
        s.state.message_item_added,
        s.state.assistant_text.len() > 0,
    ensures
        flushed(s).events[s.events.len() as int] == ResponseEventView::OutputItemDone(
            text_message(delta_text(s.events)),
        ),
{
}

proof fn lemma_finished_calls_are_items(calls: Seq<ToolCallAccumulatorView>, i: int)
    requires
        0 <= i < finished_calls(calls).len(),
    ensures
        finished_calls(calls)[i] is OutputItemDone,
    decreases calls.len(),
{
    if calls.len() > 0 && i < finished_calls(calls.drop_last()).len() {
        lemma_finished_calls_are_items(calls.drop_last(), i);
    }
}

proof fn lemma_flushed_ended(s: ChatStep)
    requires
        sound(s),
    ensures
        ended_answer(flushed(s).events),
{
    let message = finished_message(s.state.message_item_added, s.state.assistant_text);
    let calls = finished_calls(s.state.tool_calls);
    let items = message + calls;
    assert forall|i: int| 0 <= i < items.len() implies #[trigger] items[i] is OutputItemDone by {
        if i >= message.len() {
            lemma_finished_calls_are_items(s.state.tool_calls, i - message.len());
        }
    }
    lemma_sound_items(
        s.events,
        s.state.created_emitted,
        s.state.message_item_added,
        s.state.assistant_text,
        items,
    );
    let last = flushed(s).events.last();
    lemma_sound_ended(
        s.events + items,
        s.state.created_emitted,
        s.state.message_item_added,
        s.state.assistant_text,
        last,
    );
    assert((s.events + items).push(last) =~= flushed(s).events);
}

/// Whatever the reader of a stream meets: while it reads on or the answer breaks
/// off, the answer is sound and its end was not told, and when the answer is
/// complete it has ended, once and with its last event.
pub proof fn law_input_keeps_sound(s: ChatStep, input: SseInputView)
    requires
        sound(s),
    ensures
        sse_step(s, input).1 is Finished ==> ended_answer(sse_step(s, input).0.events),
        !(sse_step(s, input).1 is Finished) ==> sound(sse_step(s, input).0),
{
    lemma_flushed_ended(s);
    if let SseInputView::Data(data) = input {
        if let Some(doc) = parsed_json(data) {
            if let Some(chunk) = chunk_of(doc) {
                law_chunk_keeps_sound(s, chunk);
            }
        }
    }
}

/// What a stream does to an answer: its inputs are taken in order until the
/// answer is complete or broke off.
pub open spec fn stream(s: ChatStep, inputs: Seq<SseInputView>) -> (ChatStep, VerdictView)
    decreases inputs.len(),
{
    if inputs.len() == 0 {
        (s, VerdictView::Continue)
    } else {
        let before = stream(s, inputs.drop_last());
        if before.1 is Continue {
            sse_step(before.0, inputs.last())
        } else {
            before
        }
    }
}

/// Every stream makes a sound answer, and one that completes it ends it once.
pub proof fn law_stream_is_sound(s: ChatStep, inputs: Seq<SseInputView>)
    requires
        sound(s),
    ensures
        stream(s, inputs).1 is Finished ==> ended_answer(stream(s, inputs).0.events),
        !(stream(s, inputs).1 is Finished) ==> sound(stream(s, inputs).0),
    decreases inputs.len(),
{
    if inputs.len() > 0 {
        law_stream_is_sound(s, inputs.drop_last());
        let before = stream(s, inputs.drop_last());
        if before.1 is Continue {
            law_input_keeps_sound(before.0, inputs.last());
        }
    }
}

/// The answer so far, as a step.
pub open spec fn step_of(state: ChatStreamState, events: Seq<ResponseEventView>) -> ChatStep {
    ChatStep { state: state@, events }
}

impl Default for ChatStreamState {
    fn default() -> (r: ChatStreamState)
        ensures
            r@ == (ChatStreamStateView {
                created_emitted: false,
                message_item_added: false,
                assistant_text: Seq::empty(),
                reasoning_content: Seq::empty(),
                tool_calls: Seq::empty(),
                response_id: None,
                server_model: None,
                finish_reason: None,
                usage: None,
            }),
    {
        let r = ChatStreamState {
            created_emitted: false,
            message_item_added: false,
            assistant_text: String::new(),
            reasoning_content: String::new(),
            tool_calls: Vec::new(),
            response_id: None,
            server_model: None,
            finish_reason: None,
            usage: None,
        };
        assert(r.tool_calls.deep_view() =~= Seq::<ToolCallAccumulatorView>::empty());
        r
    }
}

/// An answer of which nothing is known yet is sound.
pub proof fn law_fresh_answer_is_sound(s: ChatStep)
    requires
        s.events.len() == 0,
        !s.state.created_emitted,
        !s.state.message_item_added,
        s.state.assistant_text.len() == 0,
        s.state.tool_calls.len() == 0,
    ensures
        sound(s),
{
    assert(s.state.assistant_text =~= Seq::<char>::empty());
}

/// Announces the message before its first piece.
fn ensure_message_item(state: &mut ChatStreamState, events: &mut Vec<ResponseEvent>)
    ensures
        step_of(*final(state), final(events).deep_view()) == opened(
            step_of(*old(state), old(events).deep_view()),
        ),
{
    if !state.message_item_added {
        emit(events, ResponseEvent::OutputItemAdded(make_open_message()));
        state.message_item_added = true;
    }
}

fn find_call(calls: &Vec<ToolCallAccumulator>, index: i64) -> (r: usize)
    ensures
        r == call_slot(calls.deep_view(), index, 0),
        r <= calls@.len(),
{
    let mut i: usize = 0;
    while i < calls.len()
        invariant
            i <= calls@.len(),
            call_slot(calls.deep_view(), index, 0) == call_slot(calls.deep_view(), index, i as int),
        decreases calls@.len() - i,
    {
        assert(calls.deep_view()[i as int].index == calls@[i as int].index);
        if calls[i].index >= index {
            return i;
        }
        i += 1;
    }
    i
}

/// Takes in a piece of a tool call.
fn take_call_piece(
    state: &mut ChatStreamState,
    tc: &ChatDeltaToolCall,
    events: &mut Vec<ResponseEvent>,
)
    ensures
        step_of(*final(state), final(events).deep_view()) == call_piece(
            step_of(*old(state), old(events).deep_view()),
            tc@,
        ),
{
    let ghost before = old(state)@.tool_calls;
    let name = match &tc.function {
        Some(f) => match &f.name {
            Some(n) => Some(n.clone()),
            None => None,
        },
        None => None,
    };
    let arguments = match &tc.function {
        Some(f) => match &f.arguments {
            Some(a) => a.clone(),
            None => String::new(),
        },
        None => String::new(),
    };
    assert(name.deep_view() == piece_name(tc@));
    assert(arguments@ == or_empty(piece_arguments(tc@)));
    let i: usize = find_call(&state.tool_calls, tc.index);
    if i < state.tool_calls.len() && state.tool_calls[i].index == tc.index {
        let entry = &state.tool_calls[i];
        let new_name = if entry.name.as_str().is_empty() {
            match name {
                Some(n) => n,
                None => entry.name.clone(),
            }
        } else {
            entry.name.clone()
        };
        let new_id = if entry.id.as_str().is_empty() {
            match &tc.id {
                Some(id) => id.clone(),
                None => entry.id.clone(),
            }
        } else {
            entry.id.clone()
        };
        let new_arguments = cat(entry.arguments.as_str(), arguments.as_str());
        let longer = ToolCallAccumulator {
            index: tc.index,
            id: new_id,
            name: new_name,
            arguments: new_arguments,
        };
        assert(before[i as int] == entry@);
        assert(longer@ == longer_call(before[i as int], tc@));
        state.tool_calls.set(i, longer);
        assert(state.tool_calls.deep_view() =~= before.update(i as int, longer@));
    } else {
        let id = match &tc.id {
            Some(id) => id.clone(),
            None => cat("call_", i64_text(tc.index).as_str()),
        };
        let name = match name {
            Some(n) => n,
            None => String::new(),
        };
        let tool = ToolName::from_flat_wire_name(name.as_str());
        let placeholder = make_call_item(tool.name, tool.namespace, String::new(), id.clone());
        let fresh = ToolCallAccumulator { index: tc.index, id, name, arguments };
        assert(fresh@ == new_call(tc@));
        state.tool_calls.insert(i, fresh);
        assert(state.tool_calls.deep_view() =~= before.insert(i as int, fresh@));
        emit(events, ResponseEvent::OutputItemAdded(placeholder));
    }
}

/// Takes in one choice of a frame.
fn take_choice(state: &mut ChatStreamState, choice: &ChatChoice, events: &mut Vec<ResponseEvent>)
    ensures
        step_of(*final(state), final(events).deep_view()) == choice_step(
            step_of(*old(state), old(events).deep_view()),
            choice@,
        ),
{
    let delta = &choice.delta;
    if let Some(finish) = &choice.finish_reason {
        state.finish_reason = Some(finish.clone());
    }
    if let Some(content) = &delta.content {
        if !content.as_str().is_empty() {
            ensure_message_item(state, events);
            state.assistant_text.append(content.as_str());
            emit(events, ResponseEvent::OutputTextDelta(content.clone()));
        }
    }
    let ghost texted = step_of(*state, events.deep_view());
    if let Some(reasoning) = &delta.reasoning_content {
        if !reasoning.as_str().is_empty() && state.message_item_added {
            state.reasoning_content.append(reasoning.as_str());
            emit(
                events,
                ResponseEvent::ReasoningContentDelta { delta: reasoning.clone(), content_index: 0 },
            );
        }
    }
    let ghost reasoned = step_of(*state, events.deep_view());
    assert(reasoned == reasoning_piece(texted, or_empty(choice@.delta.reasoning_content)));
    if let Some(list) = &delta.tool_calls {
        let ghost all = list.deep_view();
        let mut i: usize = 0;
        assert(all.take(0) =~= Seq::<ChatDeltaToolCallView>::empty());
        while i < list.len()
            invariant
                i <= list@.len(),
                all == list.deep_view(),
                step_of(*state, events.deep_view()) == call_pieces(reasoned, all.take(i as int)),
            decreases list@.len() - i,
        {
            proof {
                assert(all.take(i + 1).drop_last() =~= all.take(i as int));
                assert(all.take(i + 1).last() == list@[i as int]@);
            }
            take_call_piece(state, &list[i], events);
            i += 1;
        }
        assert(all.take(i as int) =~= all);
    }
}

/// Takes in one frame: the state is brought up to date, and what the frame
/// shows goes out as events.
pub fn process_chunk(
    state: &mut ChatStreamState,
    chunk: &ChatStreamChunk,
    events: &mut Vec<ResponseEvent>,
)
    ensures
        step_of(*final(state), final(events).deep_view()) == chunk_step(
            step_of(*old(state), old(events).deep_view()),
            chunk@,
        ),
{
    if !state.created_emitted {
        emit(events, ResponseEvent::Created);
        state.created_emitted = true;
    }
    if let Some(model) = &chunk.model {
        let known = match &state.server_model {
            Some(m) => same_text(m.as_str(), model.as_str()),
            None => false,
        };
        if !known {
            emit(events, ResponseEvent::ServerModel(model.clone()));
            state.server_model = Some(model.clone());
        }
    }
    if state.response_id.is_none() {
        state.response_id = match &chunk.id {
            Some(id) => Some(id.clone()),
            None => None,
        };
    }
    if let Some(usage) = chunk.usage {
        state.usage = Some(TokenUsage::from(usage));
    }
    let ghost ready = step_of(*state, events.deep_view());
    assert(ready == noted(
        model_seen(announced(step_of(*old(state), old(events).deep_view())), chunk@.model),
        chunk@,
    ));
    let ghost all = chunk.choices.deep_view();
    let mut i: usize = 0;
    assert(all.take(0) =~= Seq::<ChatChoiceView>::empty());
    while i < chunk.choices.len()
        invariant
            i <= chunk.choices@.len(),
            all == chunk.choices.deep_view(),
            step_of(*state, events.deep_view()) == choice_steps(ready, all.take(i as int)),
        decreases chunk.choices@.len() - i,
    {
        proof {
            assert(all.take(i + 1).drop_last() =~= all.take(i as int));
            assert(all.take(i + 1).last() == chunk.choices@[i as int]@);
        }
        take_choice(state, &chunk.choices[i], events);
        i += 1;
    }
    assert(all.take(i as int) =~= all);
}

/// Ends the answer: the message, the tool calls in ascending order of their
/// indices, and the completion go out.
pub fn flush(state: &mut ChatStreamState, events: &mut Vec<ResponseEvent>)
    ensures
        step_of(*final(state), final(events).deep_view()) == flushed(
            step_of(*old(state), old(events).deep_view()),
        ),
{
    let ghost start = old(events).deep_view();
    let ghost before = old(state)@;
    if state.message_item_added && !state.assistant_text.as_str().is_empty() {
        emit(
            events,
            ResponseEvent::OutputItemDone(make_text_message(state.assistant_text.clone())),
        );
    }
    let ghost messaged = start + finished_message(before.message_item_added, before.assistant_text);
    assert(events.deep_view() =~= messaged);
    let mut calls: Vec<ToolCallAccumulator> = Vec::new();
    std::mem::swap(&mut state.tool_calls, &mut calls);
    assert(state.tool_calls.deep_view() =~= Seq::<ToolCallAccumulatorView>::empty());
    let ghost all = calls.deep_view();
    assert(all.take(0) =~= Seq::<ToolCallAccumulatorView>::empty());
    assert(events.deep_view() =~= messaged + finished_calls(all.take(0)));
    for call in it: calls
        invariant
            it.seq() == calls@,
            all == calls.deep_view(),
            events.deep_view() == messaged + finished_calls(all.take(it.index() as int)),
    {
        proof {
            let i = it.index() as int;
            assert(all.take(i + 1).drop_last() =~= all.take(i));
            assert(all.take(i + 1).last() == call@);
        }
        if !(call.name.as_str().is_empty() && call.arguments.as_str().is_empty()) {
            let ghost so_far = events.deep_view();
            let ghost c = call@;
            let ghost named = tool_of_flat(c.name);
            let ghost done = ResponseEventView::OutputItemDone(
                call_item(named.name, named.namespace, c.arguments, c.id),
            );
            let tool = ToolName::from_flat_wire_name(call.name.as_str());
            emit(
                events,
                ResponseEvent::OutputItemDone(
                    make_call_item(tool.name, tool.namespace, call.arguments, call.id),
                ),
            );
            proof {
                let i = it.index() as int;
                assert(events.deep_view() =~= messaged + finished_calls(all.take(i)).push(done));
            }
        }
    }
    assert(all.take(all.len() as int) =~= all);
    let end_turn = match &state.finish_reason {
        Some(reason) => same_text(reason.as_str(), "stop"),
        None => false,
    };
    let response_id = match &state.response_id {
        Some(id) => id.clone(),
        None => String::new(),
    };
    let token_usage = state.usage;
    state.usage = None;
    emit(
        events,
        ResponseEvent::Completed { response_id, token_usage, end_turn: Some(end_turn) },
    );
    assert(events.deep_view() =~= flushed(step_of(*old(state), start)).events);
}

/// Takes in the data of one frame.
fn take_data(state: &mut ChatStreamState, data: &str, events: &mut Vec<ResponseEvent>) -> (r:
    StreamVerdict)
    ensures
        (step_of(*final(state), final(events).deep_view()), r@) == data_step(
            step_of(*old(state), old(events).deep_view()),
            data@,
        ),
{
    if same_text(trim(data).as_str(), "[DONE]") {
        flush(state, events);
        return StreamVerdict::Finished;
    }
    let doc = match parse_json(data) {
        Some(doc) => doc,
        None => {
            return StreamVerdict::Continue;
        },
    };
    let chunk = match read_chunk(&doc) {
        Some(chunk) => chunk,
        None => {
            return StreamVerdict::Continue;
        },
    };
    if let Some(error) = &chunk.error {
        let message = match &error.message {
            Some(m) => if is_blank(m.as_str()) {
                "chat stream error".to_owned()
            } else {
                m.clone()
            },
            None => "chat stream error".to_owned(),
        };
        return StreamVerdict::Failed(message);
    }
    process_chunk(state, &chunk, events);
    StreamVerdict::Continue
}

/// Takes in what the reader of a stream meets next, and says whether more is
/// read. The text of a frame is read as a document before its fields are looked
/// at: of a field that is given twice the last one counts, and a frame that is no
/// document, because of any field, is passed over.
pub fn process_chat_sse(
    state: &mut ChatStreamState,
    input: &SseInput,
    events: &mut Vec<ResponseEvent>,
) -> (r: StreamVerdict)
    ensures
        (step_of(*final(state), final(events).deep_view()), r@) == sse_step(
            step_of(*old(state), old(events).deep_view()),
            input@,
        ),
{
    match input {
        SseInput::Data(data) => take_data(state, data.as_str(), events),
        SseInput::End => {
            flush(state, events);
            StreamVerdict::Finished
        },
        SseInput::Idle => StreamVerdict::Failed("idle timeout waiting for Chat SSE".to_owned()),
        SseInput::Broken(reason) => StreamVerdict::Failed(reason.clone()),
    }
}

} // verus!
