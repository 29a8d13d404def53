//! What the frames of a Chat Completions answer make of it, told from the frames.

use vstd::prelude::*;
use vstd::string::*;

use crate::codec::parsed_json;
use crate::events::ResponseEventView;
use crate::json::holds_object;
use crate::json::says;
use crate::json::Fields;
use crate::json::JsonView;
use crate::models::ContentItemView;
use crate::models::ResponseItemView;
use crate::sse::chat::call_piece;
use crate::sse::chat::call_pieces;
use crate::sse::chat::call_slot;
use crate::sse::chat::calls_ascending;
use crate::sse::chat::choice_step;
use crate::sse::chat::choice_steps;
use crate::sse::chat::chunk_step;
use crate::sse::chat::finished_calls;
use crate::sse::chat::flushed;
use crate::sse::chat::law_chunk_keeps_sound;
use crate::sse::chat::law_stream_is_sound;
use crate::sse::chat::lemma_call_piece_sound;
use crate::sse::chat::lemma_call_pieces_sound;
use crate::sse::chat::lemma_call_slot;
use crate::sse::chat::lemma_choices_sound;
use crate::sse::chat::sound;
use crate::sse::chat::sse_step;
use crate::sse::chat::stream;
use crate::sse::chat::ChatStep;
use crate::sse::chat::ChatStreamStateView;
use crate::sse::chat::ToolCallAccumulatorView;
use crate::sse::chat_frame::choice_of;
use crate::sse::chat_frame::chunk_of;
use crate::sse::chat_frame::delta_of;
use crate::sse::chat_frame::tool_call_of;
use crate::sse::chat_frame::ChatChoiceView;
use crate::sse::chat_frame::ChatDeltaToolCallView;
use crate::sse::chat_frame::ChatStreamChunkView;
use crate::sse::SseInputView;
use crate::sse::VerdictView;
use crate::text::decimal_int;
use crate::text::trimmed;
use crate::tool_name::flat_name;
use crate::tool_name::has_delimiter;
use crate::tool_name::law_flat_of_tool_of_flat;
use crate::tool_name::law_plain_round_trip;
use crate::tool_name::ToolNameView;

verus! {

/// An optional text, or an empty one.
pub open spec fn text_or_none(text: Option<Seq<char>>) -> Seq<char> {
    match text {
        Some(t) => t,
        None => Seq::empty(),
    }
}

/// What a piece of a call adds to the arguments of the call at an index.
pub open spec fn fragment(piece: ChatDeltaToolCallView, index: i64) -> Seq<char> {
    match piece.function {
        Some(function) => if piece.index == index {
            text_or_none(function.arguments)
        } else {
            Seq::empty()
        },
        None => Seq::empty(),
    }
}

/// What pieces of calls add to the arguments of the call at an index, one after the
/// other.
pub open spec fn fragments(pieces: Seq<ChatDeltaToolCallView>, index: i64) -> Seq<char>
    decreases pieces.len(),
{
    if pieces.len() == 0 {
        Seq::empty()
    } else {
        fragments(pieces.drop_last(), index) + fragment(pieces.last(), index)
    }
}

/// The pieces of calls in choices, in order.
pub open spec fn pieces_of(choices: Seq<ChatChoiceView>) -> Seq<ChatDeltaToolCallView>
    decreases choices.len(),
{
    if choices.len() == 0 {
        Seq::empty()
    } else {
        pieces_of(choices.drop_last()) + match choices.last().delta.tool_calls {
            Some(pieces) => pieces,
            None => Seq::empty(),
        }
    }
}

/// The pieces of calls in frames, in order.
pub open spec fn all_pieces(chunks: Seq<ChatStreamChunkView>) -> Seq<ChatDeltaToolCallView>
    decreases chunks.len(),
{
    if chunks.len() == 0 {
        Seq::empty()
    } else {
        all_pieces(chunks.drop_last()) + pieces_of(chunks.last().choices)
    }
}

/// The texts in choices, one after the other.
pub open spec fn text_of(choices: Seq<ChatChoiceView>) -> Seq<char>
    decreases choices.len(),
{
    if choices.len() == 0 {
        Seq::empty()
    } else {
        text_of(choices.drop_last()) + text_or_none(choices.last().delta.content)
    }
}

/// The texts in frames, one after the other.
pub open spec fn all_text(chunks: Seq<ChatStreamChunkView>) -> Seq<char>
    decreases chunks.len(),
{
    if chunks.len() == 0 {
        Seq::empty()
    } else {
        all_text(chunks.drop_last()) + text_of(chunks.last().choices)
    }
}

/// Whether a call at an index is known.
pub open spec fn known(calls: Seq<ToolCallAccumulatorView>, index: i64) -> bool {
    exists|i: int| 0 <= i < calls.len() && (#[trigger] calls[i]).index == index
}

/// What is known of the call at an index.
pub open spec fn entry(calls: Seq<ToolCallAccumulatorView>, index: i64) -> Option<
    ToolCallAccumulatorView,
> {
    if known(calls, index) {
        Some(calls[choose|i: int| 0 <= i < calls.len() && (#[trigger] calls[i]).index == index])
    } else {
        None
    }
}

/// The arguments of the call at an index, none when it is not known.
pub open spec fn arguments_at(calls: Seq<ToolCallAccumulatorView>, index: i64) -> Seq<char> {
    match entry(calls, index) {
        Some(call) => call.arguments,
        None => Seq::empty(),
    }
}

proof fn lemma_entry(calls: Seq<ToolCallAccumulatorView>, i: int)
    requires
        calls_ascending(calls),
        0 <= i < calls.len(),
    ensures
        entry(calls, calls[i].index) == Some(calls[i]),
{
    let index = calls[i].index;
    assert(known(calls, index));
    let k = choose|k: int| 0 <= k < calls.len() && (#[trigger] calls[k]).index == index;
    if k < i {
        assert(calls[k].index < calls[i].index);
    } else if i < k {
        assert(calls[i].index < calls[k].index);
    }
}

proof fn lemma_others(
    calls: Seq<ToolCallAccumulatorView>,
    after: Seq<ToolCallAccumulatorView>,
    i: int,
    other: i64,
)
    requires
        calls_ascending(calls),
        calls_ascending(after),
        0 <= i <= calls.len(),
        i < after.len(),
        other != after[i].index,
        (i < calls.len() && after == calls.update(i, after[i]) && calls[i].index == after[i].index)
            || after == calls.insert(i, after[i]),
    ensures
        entry(after, other) == entry(calls, other),
{
    let replaced = i < calls.len() && after == calls.update(i, after[i]) && calls[i].index
        == after[i].index;
    if known(calls, other) {
        let k = choose|k: int| 0 <= k < calls.len() && (#[trigger] calls[k]).index == other;
        let at = if replaced || k < i {
            k
        } else {
            k + 1
        };
        assert(after[at] == calls[k]);
        lemma_entry(after, at);
        lemma_entry(calls, k);
    } else if known(after, other) {
        let k = choose|k: int| 0 <= k < after.len() && (#[trigger] after[k]).index == other;
        let from = if replaced || k < i {
            k
        } else {
            k - 1
        };
        assert(calls[from].index == other);
    }
}

/// A piece of a call changes only the call at its own index. Its arguments are
/// joined behind those that the call has; the first piece gives the call its id, or
/// one made from its index, and its name, and announces it by its tool; later
/// pieces change neither once they are there, and announce nothing.
pub proof fn law_pieces_touch_their_own_call(s: ChatStep, piece: ChatDeltaToolCallView, index: i64)
    requires
        sound(s),
    ensures
        ({
            let before = entry(s.state.tool_calls, index);
            let done = call_piece(s, piece);
            let after = entry(done.state.tool_calls, index);
            let name = match piece.function {
                Some(function) => text_or_none(function.name),
                None => Seq::empty(),
            };
            let id = match piece.id {
                Some(id) => id,
                None => "call_"@ + decimal_int(index as int),
            };
            &&& index != piece.index ==> after == before
            &&& index == piece.index ==> after is Some && after->0.arguments == arguments_at(
                s.state.tool_calls,
                index,
            ) + fragment(piece, index)
            &&& index == piece.index && before is None ==> {
                &&& after->0.id == id
                &&& after->0.name == name
                &&& done.events.drop_last() == s.events
                &&& done.events.last() matches ResponseEventView::OutputItemAdded(
                    ResponseItemView::FunctionCall {
                        name: n,
                        namespace,
                        arguments,
                        call_id,
                        ..
                    },
                ) && call_id == id && arguments.len() == 0 && flat_name(
                    ToolNameView { name: n, namespace },
                ) == name && (!has_delimiter(name) ==> n == name && namespace is None)
            }
            &&& index == piece.index && before is Some ==> {
                &&& done.events == s.events
                &&& before->0.id.len() > 0 ==> after->0.id == before->0.id
                &&& before->0.name.len() > 0 ==> after->0.name == before->0.name
                &&& before->0.name.len() == 0 && name.len() > 0 ==> after->0.name == name
            }
            &&& done.state == (ChatStreamStateView {
                tool_calls: done.state.tool_calls,
                ..s.state
            })
        }),
{
    let calls = s.state.tool_calls;
    lemma_call_piece_sound(s, piece);
    lemma_call_slot(calls, piece.index, 0);
    let i = call_slot(calls, piece.index, 0);
    let done = call_piece(s, piece);
    let after = done.state.tool_calls;
    let name = match piece.function {
        Some(function) => text_or_none(function.name),
        None => Seq::empty(),
    };
    law_flat_of_tool_of_flat(name);
    if !has_delimiter(name) {
        law_plain_round_trip(name);
    }
    lemma_entry(after, i);
    if i < calls.len() && calls[i].index == piece.index {
        lemma_entry(calls, i);
    } else {
        if known(calls, piece.index) {
            let k = choose|k: int|
                0 <= k < calls.len() && (#[trigger] calls[k]).index == piece.index;
            if k > i {
                assert(calls[i].index < calls[k].index);
            }
        }
        assert(done.events.drop_last() =~= s.events);
        assert(after[i].arguments =~= Seq::<char>::empty() + fragment(piece, piece.index));
    }
    if index != piece.index {
        lemma_others(calls, after, i, index);
    }
}

proof fn lemma_pieces(s: ChatStep, list: Seq<ChatDeltaToolCallView>, index: i64)
    requires
        sound(s),
    ensures
        arguments_at(call_pieces(s, list).state.tool_calls, index) == arguments_at(
            s.state.tool_calls,
            index,
        ) + fragments(list, index),
        call_pieces(s, list).state.assistant_text == s.state.assistant_text,
        sound(call_pieces(s, list)),
    decreases list.len(),
{
    lemma_call_pieces_sound(s, list);
    if list.len() == 0 {
        assert(arguments_at(s.state.tool_calls, index) + fragments(list, index) =~= arguments_at(
            s.state.tool_calls,
            index,
        ));
    } else {
        let rest = list.drop_last();
        lemma_pieces(s, rest, index);
        let mid = call_pieces(s, rest);
        law_pieces_touch_their_own_call(mid, list.last(), index);
        let done = call_piece(mid, list.last());
        assert(arguments_at(done.state.tool_calls, index) =~= arguments_at(
            mid.state.tool_calls,
            index,
        ) + fragment(list.last(), index));
        assert(arguments_at(done.state.tool_calls, index) =~= arguments_at(
            s.state.tool_calls,
            index,
        ) + fragments(list, index));
    }
}

proof fn lemma_joined_fragments(
    a: Seq<ChatDeltaToolCallView>,
    b: Seq<ChatDeltaToolCallView>,
    index: i64,
)
    ensures
        fragments(a + b, index) == fragments(a, index) + fragments(b, index),
    decreases b.len(),
{
    if b.len() == 0 {
        assert(a + b =~= a);
        assert(fragments(a, index) + fragments(b, index) =~= fragments(a, index));
    } else {
        assert((a + b).drop_last() =~= a + b.drop_last());
        lemma_joined_fragments(a, b.drop_last(), index);
        assert(fragments(a + b, index) =~= fragments(a, index) + fragments(b, index));
    }
}

/// What the choice leaves once its text and reasoning are taken in.
proof fn lemma_choice(s: ChatStep, choice: ChatChoiceView, index: i64)
    requires
        sound(s),
    ensures
        ({
            let pieces = match choice.delta.tool_calls {
                Some(list) => list,
                None => Seq::empty(),
            };
            let done = choice_step(s, choice);
            &&& arguments_at(done.state.tool_calls, index) == arguments_at(
                s.state.tool_calls,
                index,
            ) + fragments(pieces, index)
            &&& done.state.assistant_text == s.state.assistant_text + text_or_none(
                choice.delta.content,
            )
        }),
{
    crate::sse::chat::lemma_choice_sound(s, choice);
    let quiet = ChatChoiceView {
        delta: crate::sse::chat_frame::ChatDeltaView { tool_calls: None, ..choice.delta },
        ..choice
    };
    crate::sse::chat::lemma_choice_sound(s, quiet);
    let mid = choice_step(s, quiet);
    assert(mid.state.tool_calls == s.state.tool_calls);
    assert(mid.state.assistant_text =~= s.state.assistant_text + text_or_none(choice.delta.content));
    match choice.delta.tool_calls {
        Some(list) => {
            assert(choice_step(s, choice) == call_pieces(mid, list));
            lemma_pieces(mid, list, index);
        },
        None => {
            assert(choice_step(s, choice) == mid);
            let none = Seq::<ChatDeltaToolCallView>::empty();
            assert(arguments_at(s.state.tool_calls, index) + fragments(none, index)
                =~= arguments_at(s.state.tool_calls, index));
        },
    }
}

proof fn lemma_choices(s: ChatStep, choices: Seq<ChatChoiceView>, index: i64)
    requires
        sound(s),
    ensures
        arguments_at(choice_steps(s, choices).state.tool_calls, index) == arguments_at(
            s.state.tool_calls,
            index,
        ) + fragments(pieces_of(choices), index),
        choice_steps(s, choices).state.assistant_text == s.state.assistant_text + text_of(choices),
    decreases choices.len(),
{
    if choices.len() == 0 {
        assert(arguments_at(s.state.tool_calls, index) + fragments(pieces_of(choices), index)
            =~= arguments_at(s.state.tool_calls, index));
        assert(s.state.assistant_text + text_of(choices) =~= s.state.assistant_text);
    } else {
        let rest = choices.drop_last();
        lemma_choices(s, rest, index);
        lemma_choices_sound(s, rest);
        let mid = choice_steps(s, rest);
        lemma_choice(mid, choices.last(), index);
        let pieces = match choices.last().delta.tool_calls {
            Some(list) => list,
            None => Seq::empty(),
        };
        lemma_joined_fragments(pieces_of(rest), pieces, index);
        assert(arguments_at(choice_steps(s, choices).state.tool_calls, index) =~= arguments_at(
            s.state.tool_calls,
            index,
        ) + fragments(pieces_of(choices), index));
        assert(choice_steps(s, choices).state.assistant_text =~= s.state.assistant_text + text_of(
            choices,
        ));
    }
}

/// A frame adds to the text of the answer the texts of its choices, and to the
/// arguments of each call those pieces that carry the call's index, in their order.
pub proof fn law_frames_add_their_pieces(s: ChatStep, chunk: ChatStreamChunkView, index: i64)
    requires
        sound(s),
    ensures
        arguments_at(chunk_step(s, chunk).state.tool_calls, index) == arguments_at(
            s.state.tool_calls,
            index,
        ) + fragments(pieces_of(chunk.choices), index),
        chunk_step(s, chunk).state.assistant_text == s.state.assistant_text + text_of(
            chunk.choices,
        ),
{
    let plain = ChatStreamChunkView { choices: Seq::empty(), ..chunk };
    law_chunk_keeps_sound(s, plain);
    let ready = chunk_step(s, plain);
    assert(choice_steps(ready, Seq::empty()) == ready);
    assert(chunk_step(s, chunk) == choice_steps(ready, chunk.choices));
    assert(ready.state.tool_calls == s.state.tool_calls);
    assert(ready.state.assistant_text == s.state.assistant_text);
    lemma_choices(ready, chunk.choices, index);
}

/// Whether an input is the frame of a chunk.
pub open spec fn frame_of(input: SseInputView, chunk: ChatStreamChunkView) -> bool {
    input matches SseInputView::Data(data) && trimmed(data) != "[DONE]"@ && (parsed_json(data)
        matches Some(doc) && chunk_of(doc) == Some(chunk))
}

/// Whether each input of a stream is the frame of a chunk that reports no error.
pub open spec fn carries(inputs: Seq<SseInputView>, chunks: Seq<ChatStreamChunkView>) -> bool {
    &&& inputs.len() == chunks.len()
    &&& forall|i: int|
        0 <= i < inputs.len() ==> frame_of(#[trigger] inputs[i], chunks[i]) && chunks[i].error
            is None
}

/// The arguments of a call are those of its pieces, and the text of the answer is
/// that of its frames: whatever the frames of a stream, a call has in the end the
/// arguments, in their order, of exactly those pieces that carry its index.
pub proof fn law_arguments_are_those_of_the_pieces(
    s: ChatStep,
    inputs: Seq<SseInputView>,
    chunks: Seq<ChatStreamChunkView>,
    index: i64,
)
    requires
        sound(s),
        carries(inputs, chunks),
    ensures
        stream(s, inputs).1 is Continue,
        arguments_at(stream(s, inputs).0.state.tool_calls, index) == arguments_at(
            s.state.tool_calls,
            index,
        ) + fragments(all_pieces(chunks), index),
        stream(s, inputs).0.state.assistant_text == s.state.assistant_text + all_text(chunks),
    decreases inputs.len(),
{
    if inputs.len() == 0 {
        assert(arguments_at(s.state.tool_calls, index) + fragments(all_pieces(chunks), index)
            =~= arguments_at(s.state.tool_calls, index));
        assert(s.state.assistant_text + all_text(chunks) =~= s.state.assistant_text);
    } else {
        let rest = inputs.drop_last();
        let earlier = chunks.drop_last();
        assert forall|i: int| 0 <= i < rest.len() implies frame_of(#[trigger] rest[i], earlier[i])
            && earlier[i].error is None by {
            assert(frame_of(inputs[i], chunks[i]));
        }
        law_arguments_are_those_of_the_pieces(s, rest, earlier, index);
        law_stream_is_sound(s, rest);
        let mid = stream(s, rest).0;
        assert(frame_of(inputs[inputs.len() - 1], chunks[inputs.len() - 1]));
        assert(stream(s, inputs).0 == chunk_step(mid, chunks.last()));
        law_frames_add_their_pieces(mid, chunks.last(), index);
        lemma_joined_fragments(all_pieces(earlier), pieces_of(chunks.last().choices), index);
        assert(arguments_at(stream(s, inputs).0.state.tool_calls, index) =~= arguments_at(
            s.state.tool_calls,
            index,
        ) + fragments(all_pieces(chunks), index));
        assert(stream(s, inputs).0.state.assistant_text =~= s.state.assistant_text + all_text(
            chunks,
        ));
    }
}

/// Whether a finished item is the call that was put together.
pub open spec fn finishes(event: ResponseEventView, call: ToolCallAccumulatorView) -> bool {
    event matches ResponseEventView::OutputItemDone(
        ResponseItemView::FunctionCall { name, namespace, arguments, call_id, .. },
    ) && {
        &&& flat_name(ToolNameView { name, namespace }) == call.name
        &&& !has_delimiter(call.name) ==> name == call.name && namespace is None
        &&& arguments == call.arguments
        &&& call_id == call.id
    }
}

/// Every call that was put together goes out once, in the order of the calls, with
/// its own arguments and its own id; a call without name and arguments does not.
pub proof fn law_calls_go_out_in_order(
    calls: Seq<ToolCallAccumulatorView>,
    call: ToolCallAccumulatorView,
)
    ensures
        finished_calls(Seq::empty()).len() == 0,
        call.name.len() > 0 || call.arguments.len() > 0 ==> {
            let all = finished_calls(calls.push(call));
            &&& all.len() == finished_calls(calls).len() + 1
            &&& all.drop_last() == finished_calls(calls)
            &&& finishes(all.last(), call)
        },
        call.name.len() == 0 && call.arguments.len() == 0 ==> finished_calls(calls.push(call))
            == finished_calls(calls),
{
    assert(calls.push(call).drop_last() =~= calls);
    law_flat_of_tool_of_flat(call.name);
    if !has_delimiter(call.name) {
        law_plain_round_trip(call.name);
    }
    if call.name.len() > 0 || call.arguments.len() > 0 {
        assert(finished_calls(calls.push(call)).drop_last() =~= finished_calls(calls));
    }
}

/// The end of an answer sends its text as one message of the assistant, then the
/// finished calls, and last its completion: with the id of the answer, its usage,
/// and the end of the turn just where the model stopped by itself.
pub proof fn law_end_finishes_the_answer(s: ChatStep)
    ensures
        ({
            let done = flushed(s).events;
            let text = if s.state.message_item_added && s.state.assistant_text.len() > 0 {
                seq![
                    ResponseEventView::OutputItemDone(
                        ResponseItemView::Message {
                            id: None,
                            role: "assistant"@,
                            content: seq![
                                ContentItemView::OutputText { text: s.state.assistant_text },
                            ],
                            phase: None,
                        },
                    ),
                ]
            } else {
                Seq::empty()
            };
            &&& done.drop_last() == s.events + text + finished_calls(s.state.tool_calls)
            &&& done.last() matches ResponseEventView::Completed {
                response_id,
                token_usage,
                end_turn,
            } && {
                &&& s.state.response_id matches Some(id) ==> response_id == id
                &&& s.state.response_id is None ==> response_id.len() == 0
                &&& token_usage == s.state.usage
                &&& s.state.finish_reason == Some("stop"@) ==> end_turn == Some(true)
                &&& s.state.finish_reason != Some("stop"@) ==> end_turn == Some(false)
            }
        }),
{
    let text = crate::sse::finished_message(s.state.message_item_added, s.state.assistant_text);
    assert(flushed(s).events.drop_last() =~= s.events + text + finished_calls(s.state.tool_calls));
}

/// A frame announces the answer once and its model when it is new, and gives the
/// answer its id, when it has none yet, and its usage, when it reports one.
pub proof fn law_frames_tell_of_the_answer(s: ChatStep, chunk: ChatStreamChunkView)
    requires
        chunk.choices.len() == 0,
    ensures
        ({
            let done = chunk_step(s, chunk);
            let news = (if s.state.created_emitted {
                Seq::<ResponseEventView>::empty()
            } else {
                seq![ResponseEventView::Created]
            }) + (if chunk.model is None || s.state.server_model == chunk.model {
                Seq::<ResponseEventView>::empty()
            } else {
                seq![ResponseEventView::ServerModel(chunk.model->0)]
            });
            &&& done.events == s.events + news
            &&& done.state.created_emitted
            &&& chunk.model is Some ==> done.state.server_model == chunk.model
            &&& s.state.response_id is None ==> done.state.response_id == chunk.id
            &&& s.state.response_id is Some ==> done.state.response_id == s.state.response_id
            &&& chunk.usage is None ==> done.state.usage == s.state.usage
            &&& chunk.usage matches Some(usage) ==> (done.state.usage matches Some(total) && {
                &&& total.input_tokens == usage.prompt_tokens
                &&& total.output_tokens == usage.completion_tokens
                &&& total.total_tokens == usage.total_tokens
                &&& total.cached_input_tokens == 0
                &&& total.reasoning_output_tokens == 0
            })
            &&& done.state.tool_calls == s.state.tool_calls
            &&& done.state.finish_reason == s.state.finish_reason
        }),
{
    let done = chunk_step(s, chunk);
    let news = (if s.state.created_emitted {
        Seq::<ResponseEventView>::empty()
    } else {
        seq![ResponseEventView::Created]
    }) + (if chunk.model is None || s.state.server_model == chunk.model {
        Seq::<ResponseEventView>::empty()
    } else {
        seq![ResponseEventView::ServerModel(chunk.model->0)]
    });
    assert(done.events =~= s.events + news);
}

/// A choice sends its text and its reasoning as they come: text behind the
/// announcement of the message, reasoning only once the message is announced. The
/// reason to finish is kept.
pub proof fn law_choices_go_out_as_they_come(s: ChatStep, choice: ChatChoiceView)
    requires
        choice.delta.tool_calls is None,
    ensures
        ({
            let text = text_or_none(choice.delta.content);
            let thought = text_or_none(choice.delta.reasoning_content);
            let done = choice_step(s, choice);
            let texts = if text.len() == 0 {
                Seq::<ResponseEventView>::empty()
            } else if s.state.message_item_added {
                seq![ResponseEventView::OutputTextDelta(text)]
            } else {
                seq![
                    ResponseEventView::OutputItemAdded(crate::sse::open_message()),
                    ResponseEventView::OutputTextDelta(text),
                ]
            };
            let thoughts = if thought.len() > 0 && (s.state.message_item_added || text.len() > 0) {
                seq![
                    ResponseEventView::ReasoningContentDelta { delta: thought, content_index: 0 },
                ]
            } else {
                Seq::<ResponseEventView>::empty()
            };
            &&& done.events == s.events + texts + thoughts
            &&& choice.finish_reason is Some ==> done.state.finish_reason == choice.finish_reason
            &&& choice.finish_reason is None ==> done.state.finish_reason == s.state.finish_reason
            &&& done.state.tool_calls == s.state.tool_calls
            &&& done.state.assistant_text == s.state.assistant_text + text
            &&& thoughts.len() > 0 ==> done.state.reasoning_content == s.state.reasoning_content
                + thought
            &&& thoughts.len() == 0 ==> done.state.reasoning_content == s.state.reasoning_content
        }),
        choice_steps(s, Seq::empty()) == s,
{
    let text = text_or_none(choice.delta.content);
    let thought = text_or_none(choice.delta.reasoning_content);
    let done = choice_step(s, choice);
    let texts = if text.len() == 0 {
        Seq::<ResponseEventView>::empty()
    } else if s.state.message_item_added {
        seq![ResponseEventView::OutputTextDelta(text)]
    } else {
        seq![
            ResponseEventView::OutputItemAdded(crate::sse::open_message()),
            ResponseEventView::OutputTextDelta(text),
        ]
    };
    let thoughts = if thought.len() > 0 && (s.state.message_item_added || text.len() > 0) {
        seq![ResponseEventView::ReasoningContentDelta { delta: thought, content_index: 0 }]
    } else {
        Seq::<ResponseEventView>::empty()
    };
    assert(done.events =~= s.events + texts + thoughts);
    assert(done.state.assistant_text =~= s.state.assistant_text + text);
}

/// What the reader meets decides what becomes of the answer: a frame is taken in and
/// reading goes on, the end marker and the end of the stream finish the answer, an
/// error, silence and breakage break it off, and what is no frame changes nothing.
pub proof fn law_inputs_are_answered(
    s: ChatStep,
    input: SseInputView,
    chunk: ChatStreamChunkView,
    text: Seq<char>,
)
    ensures
        frame_of(input, chunk) && chunk.error is None ==> sse_step(s, input) == (
            chunk_step(s, chunk),
            VerdictView::Continue,
        ),
        frame_of(input, chunk) && chunk.error is Some ==> sse_step(s, input).0 == s && sse_step(
            s,
            input,
        ).1 is Failed,
        frame_of(input, chunk) && chunk.error is Some && chunk.error->0.message == Some(text)
            && !crate::text::blank(text) ==> sse_step(s, input).1 == VerdictView::Failed(text),
        input == SseInputView::Data(text) && trimmed(text) == "[DONE]"@ ==> sse_step(s, input) == (
            flushed(s),
            VerdictView::Finished,
        ),
        input == SseInputView::End ==> sse_step(s, input) == (flushed(s), VerdictView::Finished),
        input == SseInputView::Idle ==> sse_step(s, input).0 == s && sse_step(s, input).1 is Failed,
        input == SseInputView::Broken(text) ==> sse_step(s, input) == (
            s,
            VerdictView::Failed(text),
        ),
        input == SseInputView::Data(text) && trimmed(text) != "[DONE]"@ && (parsed_json(text)
            matches Some(doc) ==> chunk_of(doc) is None) ==> sse_step(s, input) == (
            s,
            VerdictView::Continue,
        ),
{
}

/// Whether an optional text was read from a field: a text that is there, and none
/// where the field is missing or null.
pub open spec fn read_text(fields: Fields, key: Seq<char>, text: Option<Seq<char>>) -> bool {
    match text {
        Some(t) => says(fields, key, t),
        None => !fields.dom().contains(key) || fields[key] == JsonView::Null,
    }
}

/// A frame that is an object is read by the names of its fields: what is read is
/// what stands there.
pub proof fn law_frames_are_read_by_name(fields: Fields)
    ensures
        chunk_of(JsonView::Fields(fields)) matches Some(chunk) ==> {
            &&& read_text(fields, "id"@, chunk.id)
            &&& read_text(fields, "model"@, chunk.model)
            &&& !fields.dom().contains("choices"@) ==> chunk.choices.len() == 0
            &&& fields.dom().contains("choices"@) ==> (fields["choices"@] matches JsonView::List(
                items,
            ) && items.len() == chunk.choices.len() && forall|i: int|
                0 <= i < items.len() ==> choice_of(#[trigger] items[i]) == Some(chunk.choices[i]))
            &&& chunk.usage is None <==> !fields.dom().contains("usage"@) || fields["usage"@]
                == JsonView::Null
            &&& chunk.error is None <==> !fields.dom().contains("error"@) || fields["error"@]
                == JsonView::Null
        },
        choice_of(JsonView::Fields(fields)) matches Some(choice) ==> {
            &&& read_text(fields, "finish_reason"@, choice.finish_reason)
            &&& fields.dom().contains("delta"@) ==> (fields["delta"@] matches JsonView::Fields(
                delta,
            ) ==> {
                &&& read_text(delta, "content"@, choice.delta.content)
                &&& read_text(delta, "reasoning_content"@, choice.delta.reasoning_content)
                &&& choice.delta.tool_calls matches Some(calls) ==> (delta.dom().contains(
                    "tool_calls"@,
                ) && (delta["tool_calls"@] matches JsonView::List(items) && items.len()
                    == calls.len() && forall|i: int|
                    0 <= i < items.len() ==> tool_call_of(#[trigger] items[i]) == Some(calls[i])))
                &&& choice.delta.tool_calls is None ==> !delta.dom().contains("tool_calls"@)
                    || delta["tool_calls"@] == JsonView::Null
            })
            &&& !fields.dom().contains("delta"@) ==> choice.delta.content is None
                && choice.delta.tool_calls is None
        },
        tool_call_of(JsonView::Fields(fields)) matches Some(call) ==> {
            &&& read_text(fields, "id"@, call.id)
            &&& fields.dom().contains("index"@)
            &&& fields["index"@] == JsonView::Unsigned(call.index as u64) || fields["index"@]
                == JsonView::Signed(call.index)
            &&& call.function is None ==> !fields.dom().contains("function"@) || fields["function"@]
                == JsonView::Null
            &&& call.function matches Some(function) ==> (fields.dom().contains("function"@) && (
            fields["function"@] matches JsonView::Fields(inner) ==> read_text(
                inner,
                "name"@,
                function.name,
            ) && read_text(inner, "arguments"@, function.arguments)))
        },
{
}

/// A frame whose usage counts all three is read with those counts.
pub proof fn law_usage_is_read_by_name(fields: Fields, report: Fields, p: u64, c: u64, t: u64)
    requires
        fields.contains_pair("usage"@, JsonView::Fields(report)),
        report.contains_pair("prompt_tokens"@, JsonView::Unsigned(p)),
        report.contains_pair("completion_tokens"@, JsonView::Unsigned(c)),
        report.contains_pair("total_tokens"@, JsonView::Unsigned(t)),
    ensures
        chunk_of(JsonView::Fields(fields)) matches Some(chunk) ==> (chunk.usage matches Some(usage)
            && usage.prompt_tokens == p && usage.completion_tokens == c && usage.total_tokens == t),
{
}

/// A frame is readable when each of its fields is missing, null or of its kind, and
/// a choice and a piece of a call likewise.
pub proof fn law_well_typed_frames_are_readable(fields: Fields)
    ensures
        (exists|id: Option<Seq<char>>| #[trigger] read_text(fields, "id"@, id)) && (exists|
            model: Option<Seq<char>>,
        | #[trigger]
            read_text(fields, "model"@, model)) && (fields.dom().contains("choices"@) ==> (
        fields["choices"@] matches JsonView::List(items) && forall|i: int|
            0 <= i < items.len() ==> choice_of(#[trigger] items[i]) is Some)) && !fields.dom().contains(
            "usage"@,
        ) && !fields.dom().contains("error"@) ==> chunk_of(JsonView::Fields(fields)) is Some,
        (exists|reason: Option<Seq<char>>| #[trigger] read_text(fields, "finish_reason"@, reason))
            && delta_of(JsonView::Fields(fields)) is Some ==> choice_of(JsonView::Fields(fields))
            is Some,
{
}

/// Whether a field is missing, null or a text.
pub open spec fn optional_text_at(fields: Fields, key: Seq<char>) -> bool {
    fields.dom().contains(key) ==> fields[key] is Null || fields[key] is Text
}

/// A piece of a call is readable when it has an index and everything else is missing,
/// null or a text; so is a delta with a list of such pieces, a usage that counts all
/// three, and an error that is an object with a text or none as its message.
pub proof fn law_well_typed_pieces_are_readable(fields: Fields, inner: Fields, n: u64)
    ensures
        fields.contains_pair("index"@, JsonView::Unsigned(n)) && n <= i64::MAX && optional_text_at(
            fields,
            "id"@,
        ) && optional_text_at(fields, "type"@) && holds_object(fields, "function"@, inner)
            && optional_text_at(inner, "name"@) && optional_text_at(inner, "arguments"@)
            ==> tool_call_of(JsonView::Fields(fields)) is Some,
        holds_object(fields, "delta"@, inner) && optional_text_at(inner, "role"@)
            && optional_text_at(inner, "content"@) && optional_text_at(inner, "reasoning_content"@)
            && (inner.dom().contains("tool_calls"@) ==> (inner["tool_calls"@] matches JsonView::List(
            items,
        ) && forall|i: int| 0 <= i < items.len() ==> tool_call_of(#[trigger] items[i]) is Some))
            ==> delta_of(JsonView::Fields(fields)) is Some,
        !fields.dom().contains("delta"@) ==> delta_of(JsonView::Fields(fields)) is Some,
{
}

/// An error that a frame tells of is read with its message, whatever else the frame
/// holds.
pub proof fn law_errors_are_read_by_name(fields: Fields, error: Fields, message: Seq<char>)
    requires
        holds_object(fields, "error"@, error),
        says(error, "message"@, message),
    ensures
        chunk_of(JsonView::Fields(fields)) matches Some(chunk) ==> (chunk.error matches Some(told)
            && told.message == Some(message)),
        !fields.dom().contains("id"@) && !fields.dom().contains("model"@) && !fields.dom().contains(
            "choices"@,
        ) && !fields.dom().contains("usage"@) ==> chunk_of(JsonView::Fields(fields)) is Some,
{
}

} // verus!
