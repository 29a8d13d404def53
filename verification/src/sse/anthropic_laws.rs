//! What the frames of an Anthropic answer make of it, told from the frames.

use vstd::prelude::*;
use vstd::string::*;

use crate::codec::parsed_json;
use crate::events::ResponseEventView;
use crate::json::holds_object;
use crate::json::law_fields_are_read_by_key;
use crate::json::law_missing_fields_are_none;
use crate::json::says;
use crate::json::text_field;
use crate::json::Fields;
use crate::json::JsonView;
use crate::models::ReasoningItemContentView;
use crate::models::ResponseItemView;
use crate::sse::anthropic::block_finished;
use crate::sse::anthropic::block_slot;
use crate::sse::anthropic::blocks_ascending;
use crate::sse::anthropic::blocks_finished;
use crate::sse::anthropic::carries_output;
use crate::sse::anthropic::event_of;
use crate::sse::anthropic::event_step;
use crate::sse::anthropic::flushed;
use crate::sse::anthropic::has_block;
use crate::sse::anthropic::law_event_keeps_sound;
use crate::sse::anthropic::law_stream_is_sound;
use crate::sse::anthropic::lemma_block_slot;
use crate::sse::anthropic::reasoning_closed;
use crate::sse::anthropic::sound;
use crate::sse::anthropic::sse_step;
use crate::sse::anthropic::stream;
use crate::sse::anthropic::AnthropicEventView;
use crate::sse::anthropic::AnthropicStep;
use crate::sse::anthropic::AnthropicStreamStateView;
use crate::sse::anthropic::ToolBlockAccumulatorView;
use crate::sse::anthropic::UsageAccumulator;
use crate::sse::SseInputView;
use crate::sse::VerdictView;
use crate::text::decimal_int;
use crate::tool_name::flat_name;
use crate::tool_name::has_delimiter;
use crate::tool_name::law_flat_of_tool_of_flat;
use crate::tool_name::law_plain_round_trip;
use crate::tool_name::ToolNameView;

verus! {

proof fn lemma_frame_words()
    ensures
        "message_start"@ != "content_block_start"@,
        "message_start"@ != "content_block_delta"@,
        "message_start"@ != "message_delta"@,
        "message_start"@ != "message_stop"@,
        "message_start"@ != "error"@,
        "content_block_start"@ != "content_block_delta"@,
        "content_block_start"@ != "message_delta"@,
        "content_block_start"@ != "message_stop"@,
        "content_block_start"@ != "error"@,
        "content_block_delta"@ != "message_delta"@,
        "content_block_delta"@ != "message_stop"@,
        "content_block_delta"@ != "error"@,
        "message_delta"@ != "message_stop"@,
        "message_delta"@ != "error"@,
        "message_stop"@ != "error"@,
{
    reveal_strlit("message_start");
    reveal_strlit("content_block_start");
    reveal_strlit("content_block_delta");
    reveal_strlit("message_delta");
    reveal_strlit("message_stop");
    reveal_strlit("error");
    assert("message_start"@.len() != "content_block_start"@.len());
    assert("message_start"@.len() != "content_block_delta"@.len());
    assert("message_start"@[8] != "message_delta"@[8]);
    assert("message_start"@.len() != "message_stop"@.len());
    assert("message_start"@.len() != "error"@.len());
    assert("content_block_start"@[14] != "content_block_delta"@[14]);
    assert("content_block_start"@.len() != "message_delta"@.len());
    assert("content_block_start"@.len() != "message_stop"@.len());
    assert("content_block_start"@.len() != "error"@.len());
    assert("content_block_delta"@.len() != "message_delta"@.len());
    assert("content_block_delta"@.len() != "message_stop"@.len());
    assert("content_block_delta"@.len() != "error"@.len());
    assert("message_delta"@.len() != "message_stop"@.len());
    assert("message_delta"@.len() != "error"@.len());
    assert("message_stop"@.len() != "error"@.len());
}

proof fn lemma_block_words()
    ensures
        "tool_use"@ != "text"@,
        "tool_use"@ != "redacted_thinking"@,
        "text"@ != "redacted_thinking"@,
{
    reveal_strlit("tool_use");
    reveal_strlit("text");
    reveal_strlit("redacted_thinking");
    assert("tool_use"@.len() != "text"@.len());
    assert("tool_use"@.len() != "redacted_thinking"@.len());
    assert("text"@.len() != "redacted_thinking"@.len());
}

proof fn lemma_delta_words()
    ensures
        "text_delta"@ != "input_json_delta"@,
        "text_delta"@ != "thinking_delta"@,
        "text_delta"@ != "signature_delta"@,
        "input_json_delta"@ != "thinking_delta"@,
        "input_json_delta"@ != "signature_delta"@,
        "thinking_delta"@ != "signature_delta"@,
{
    reveal_strlit("text_delta");
    reveal_strlit("input_json_delta");
    reveal_strlit("thinking_delta");
    reveal_strlit("signature_delta");
    assert("text_delta"@.len() != "input_json_delta"@.len());
    assert("text_delta"@.len() != "thinking_delta"@.len());
    assert("text_delta"@.len() != "signature_delta"@.len());
    assert("input_json_delta"@.len() != "thinking_delta"@.len());
    assert("input_json_delta"@.len() != "signature_delta"@.len());
    assert("thinking_delta"@.len() != "signature_delta"@.len());
}

/// What a frame holds under a key; null counts as nothing.
pub open spec fn slot(fields: Fields, key: Seq<char>) -> Option<JsonView> {
    if fields.dom().contains(key) && fields[key] != JsonView::Null {
        Some(fields[key])
    } else {
        None
    }
}

/// A frame that is an object is read by the names of its fields.
pub proof fn law_frames_are_read_by_name(fields: Fields, kind: Seq<char>, index: i64)
    requires
        says(fields, "type"@, kind),
        index >= 0,
        slot(fields, "index"@) is Some ==> fields["index"@] == JsonView::Unsigned(index as u64),
    ensures
        event_of(JsonView::Fields(fields)) == Some(
            AnthropicEventView {
                kind,
                index: if slot(fields, "index"@) is Some {
                    Some(index)
                } else {
                    None
                },
                message: slot(fields, "message"@),
                content_block: slot(fields, "content_block"@),
                delta: slot(fields, "delta"@),
                usage: slot(fields, "usage"@),
                error: slot(fields, "error"@),
            },
        ),
{
    law_fields_are_read_by_key(fields, "type"@, JsonView::Text(kind));
}

/// A frame without a type is no event.
pub proof fn law_frames_have_a_type(fields: Fields)
    requires
        !fields.dom().contains("type"@),
    ensures
        event_of(JsonView::Fields(fields)) is None,
{
}

/// A piece of a document: an object of a type.
pub open spec fn typed(doc: Option<JsonView>, kind: Seq<char>) -> bool {
    doc matches Some(JsonView::Fields(fields)) && says(fields, "type"@, kind)
}

/// Whether a frame begins a tool call at an index; a frame without an index
/// stands at the first.
pub open spec fn begins_call(event: AnthropicEventView, index: i64) -> bool {
    &&& event.kind == "content_block_start"@
    &&& typed(event.content_block, "tool_use"@)
    &&& event.index == Some(index) || (event.index is None && index == 0)
}

/// What a frame adds to the input of the tool call at an index.
pub open spec fn fragment(event: AnthropicEventView, index: i64) -> Seq<char> {
    if event.kind == "content_block_delta"@ && event.index == Some(index) && typed(
        event.delta,
        "input_json_delta"@,
    ) {
        match text_field(event.delta->0, "partial_json"@) {
            Some(partial) => partial,
            None => Seq::empty(),
        }
    } else {
        Seq::empty()
    }
}

/// What frames add to the input of the tool call at an index, one after the
/// other.
pub open spec fn fragments(events: Seq<AnthropicEventView>, index: i64) -> Seq<char>
    decreases events.len(),
{
    if events.len() == 0 {
        Seq::empty()
    } else {
        fragments(events.drop_last(), index) + fragment(events.last(), index)
    }
}

/// Whether a tool call at an index is known.
pub open spec fn known(blocks: Seq<ToolBlockAccumulatorView>, index: i64) -> bool {
    exists|i: int| 0 <= i < blocks.len() && (#[trigger] blocks[i]).index == index
}

/// What is known of the tool call at an index.
pub open spec fn entry(blocks: Seq<ToolBlockAccumulatorView>, index: i64) -> Option<
    ToolBlockAccumulatorView,
> {
    if known(blocks, index) {
        Some(blocks[choose|i: int| 0 <= i < blocks.len() && (#[trigger] blocks[i]).index == index])
    } else {
        None
    }
}

proof fn lemma_entry(blocks: Seq<ToolBlockAccumulatorView>, i: int)
    requires
        blocks_ascending(blocks),
        0 <= i < blocks.len(),
    ensures
        entry(blocks, blocks[i].index) == Some(blocks[i]),
{
    let index = blocks[i].index;
    assert(known(blocks, index));
    let k = choose|k: int| 0 <= k < blocks.len() && (#[trigger] blocks[k]).index == index;
    if k < i {
        assert(blocks[k].index < blocks[i].index);
    } else if i < k {
        assert(blocks[i].index < blocks[k].index);
    }
}

proof fn lemma_slot(blocks: Seq<ToolBlockAccumulatorView>, index: i64)
    requires
        blocks_ascending(blocks),
    ensures
        has_block(blocks, index) == known(blocks, index),
        has_block(blocks, index) ==> entry(blocks, index) == Some(
            blocks[block_slot(blocks, index, 0)],
        ),
        0 <= block_slot(blocks, index, 0) <= blocks.len(),
{
    lemma_block_slot(blocks, index, 0);
    let i = block_slot(blocks, index, 0);
    if has_block(blocks, index) {
        lemma_entry(blocks, i);
    } else if known(blocks, index) {
        let k = choose|k: int| 0 <= k < blocks.len() && (#[trigger] blocks[k]).index == index;
        if k > i {
            assert(blocks[i].index < blocks[k].index);
        }
    }
}

proof fn lemma_updated(
    blocks: Seq<ToolBlockAccumulatorView>,
    i: int,
    block: ToolBlockAccumulatorView,
    other: i64,
)
    requires
        blocks_ascending(blocks),
        blocks_ascending(blocks.update(i, block)),
        0 <= i < blocks.len(),
        block.index == blocks[i].index,
    ensures
        entry(blocks.update(i, block), block.index) == Some(block),
        other != block.index ==> entry(blocks.update(i, block), other) == entry(blocks, other),
{
    let after = blocks.update(i, block);
    lemma_entry(after, i);
    if other != block.index {
        if known(blocks, other) {
            let k = choose|k: int| 0 <= k < blocks.len() && (#[trigger] blocks[k]).index == other;
            assert(after[k] == blocks[k]);
            lemma_entry(after, k);
            lemma_entry(blocks, k);
        } else if known(after, other) {
            let k = choose|k: int| 0 <= k < after.len() && (#[trigger] after[k]).index == other;
            assert(blocks[k].index == other);
        }
    }
}

proof fn lemma_inserted(
    blocks: Seq<ToolBlockAccumulatorView>,
    i: int,
    block: ToolBlockAccumulatorView,
    other: i64,
)
    requires
        blocks_ascending(blocks),
        blocks_ascending(blocks.insert(i, block)),
        0 <= i <= blocks.len(),
    ensures
        entry(blocks.insert(i, block), block.index) == Some(block),
        other != block.index ==> entry(blocks.insert(i, block), other) == entry(blocks, other),
{
    let after = blocks.insert(i, block);
    assert(after[i] == block);
    lemma_entry(after, i);
    if other != block.index {
        if known(blocks, other) {
            let k = choose|k: int| 0 <= k < blocks.len() && (#[trigger] blocks[k]).index == other;
            let at = if k < i {
                k
            } else {
                k + 1
            };
            assert(after[at] == blocks[k]);
            lemma_entry(after, at);
            lemma_entry(blocks, k);
        } else if known(after, other) {
            let k = choose|k: int| 0 <= k < after.len() && (#[trigger] after[k]).index == other;
            let from = if k < i {
                k
            } else {
                k - 1
            };
            assert(blocks[from].index == other);
        }
    }
}

/// What one event does to what is known of the call at an index.
pub open spec fn call_kept(
    event: AnthropicEventView,
    index: i64,
    before: Option<ToolBlockAccumulatorView>,
    after: Option<ToolBlockAccumulatorView>,
) -> bool {
    &&& !begins_call(event, index) ==> (after is Some <==> before is Some)
    &&& !begins_call(event, index) && before is Some ==> after->0.id == before->0.id
        && after->0.name == before->0.name && after->0.input_json == before->0.input_json
        + fragment(event, index)
    &&& begins_call(event, index) ==> after is Some
    &&& begins_call(event, index) && before is None ==> after->0.input_json.len() == 0
    &&& begins_call(event, index) && before is Some ==> after->0.input_json == before->0.input_json
}

proof fn lemma_same_blocks(
    event: AnthropicEventView,
    index: i64,
    before: Option<ToolBlockAccumulatorView>,
)
    requires
        !begins_call(event, index),
        before is Some ==> fragment(event, index).len() == 0,
    ensures
        call_kept(event, index, before, before),
{
    if let Some(b) = before {
        assert(b.input_json + fragment(event, index) =~= b.input_json);
    }
}

#[verifier::rlimit(40)]
proof fn lemma_start_kept(s: AnthropicStep, event: AnthropicEventView, index: i64)
    requires
        sound(s),
        event.kind == "content_block_start"@,
    ensures
        call_kept(
            event,
            index,
            entry(s.state.tool_blocks, index),
            entry(event_step(s, event).state.tool_blocks, index),
        ),
{
    lemma_frame_words();
    lemma_block_words();
    reveal_strlit("tool_use");
    law_event_keeps_sound(s, event);
    let blocks = s.state.tool_blocks;
    let done = event_step(s, event).state.tool_blocks;
    if let Some(doc) = event.content_block {
        lemma_typed(doc, "tool_use"@);
    }
    if typed(event.content_block, "tool_use"@) {
        let own: i64 = match event.index {
            Some(i) => i,
            None => 0,
        };
        lemma_slot(blocks, own);
        let i = block_slot(blocks, own, 0);
        if has_block(blocks, own) {
            assert(done == blocks.update(i, done[i]));
            lemma_updated(blocks, i, done[i], index);
        } else {
            assert(done == blocks.insert(i, done[i]));
            lemma_inserted(blocks, i, done[i], index);
        }
        lemma_slot(blocks, index);
        if own != index {
            lemma_same_blocks(event, index, entry(blocks, index));
        }
    } else {
        assert(done == blocks);
        lemma_same_blocks(event, index, entry(blocks, index));
    }
}

#[verifier::rlimit(40)]
proof fn lemma_delta_kept(s: AnthropicStep, event: AnthropicEventView, index: i64)
    requires
        sound(s),
        event.kind == "content_block_delta"@,
    ensures
        call_kept(
            event,
            index,
            entry(s.state.tool_blocks, index),
            entry(event_step(s, event).state.tool_blocks, index),
        ),
{
    lemma_frame_words();
    lemma_delta_words();
    reveal_strlit("input_json_delta");
    law_event_keeps_sound(s, event);
    let blocks = s.state.tool_blocks;
    let done = event_step(s, event).state.tool_blocks;
    if let Some(doc) = event.delta {
        lemma_typed(doc, "input_json_delta"@);
    }
    if typed(event.delta, "input_json_delta"@) && event.index is Some && text_field(
        event.delta->0,
        "partial_json"@,
    ) is Some {
        let own = event.index->0;
        lemma_slot(blocks, own);
        let i = block_slot(blocks, own, 0);
        if has_block(blocks, own) {
            assert(done == blocks.update(i, done[i]));
            lemma_updated(blocks, i, done[i], index);
        } else {
            assert(done == blocks);
        }
        lemma_slot(blocks, index);
        if own != index || !has_block(blocks, own) {
            lemma_same_blocks(event, index, entry(blocks, index));
        }
    } else {
        assert(done == blocks);
        lemma_same_blocks(event, index, entry(blocks, index));
    }
}

/// A frame changes only the tool call at its own index: what is known of the calls
/// at all other indices stays. A piece of input is joined behind the input that
/// the call has, and to nothing else of it.
pub proof fn law_frames_touch_their_own_call(
    s: AnthropicStep,
    event: AnthropicEventView,
    index: i64,
)
    requires
        sound(s),
    ensures
        ({
            let before = entry(s.state.tool_blocks, index);
            let after = entry(event_step(s, event).state.tool_blocks, index);
            &&& !begins_call(event, index) ==> (after is Some <==> before is Some)
            &&& !begins_call(event, index) && before is Some ==> after->0.id == before->0.id
                && after->0.name == before->0.name && after->0.input_json == before->0.input_json
                + fragment(event, index)
            &&& begins_call(event, index) ==> after is Some
            &&& begins_call(event, index) && before is None ==> after->0.input_json.len() == 0
            &&& begins_call(event, index) && before is Some ==> after->0.input_json
                == before->0.input_json
        }),
{
    if event.kind == "content_block_start"@ {
        lemma_start_kept(s, event, index);
    } else if event.kind == "content_block_delta"@ {
        lemma_delta_kept(s, event, index);
    } else {
        assert(event_step(s, event).state.tool_blocks == s.state.tool_blocks);
        lemma_same_blocks(event, index, entry(s.state.tool_blocks, index));
    }
}

proof fn lemma_typed(doc: JsonView, kind: Seq<char>)
    ensures
        typed(Some(doc), kind) == (text_field(doc, "type"@) == Some(kind)),
{
    match doc {
        JsonView::Fields(fields) => {
            if fields.dom().contains("type"@) {
                law_fields_are_read_by_key(fields, "type"@, fields["type"@]);
            } else {
                law_missing_fields_are_none(doc, "type"@);
            }
        },
        _ => {
            law_missing_fields_are_none(doc, "type"@);
        },
    }
}

/// Whether each input of a stream is the frame of an event that neither ends the
/// answer nor breaks it off.
pub open spec fn carries(inputs: Seq<SseInputView>, events: Seq<AnthropicEventView>) -> bool {
    &&& inputs.len() == events.len()
    &&& forall|i: int|
        0 <= i < inputs.len() ==> frame_of(#[trigger] inputs[i], events[i]) && events[i].kind
            != "error"@ && events[i].kind != "message_stop"@
}

/// Whether an input is the frame of an event.
pub open spec fn frame_of(input: SseInputView, event: AnthropicEventView) -> bool {
    input matches SseInputView::Data(data) && (parsed_json(data) matches Some(doc) && event_of(doc)
        == Some(event))
}

proof fn lemma_stream_step(
    s: AnthropicStep,
    inputs: Seq<SseInputView>,
    events: Seq<AnthropicEventView>,
)
    requires
        carries(inputs, events),
    ensures
        stream(s, inputs).1 is Continue,
        inputs.len() > 0 ==> stream(s, inputs).0 == event_step(
            stream(s, inputs.drop_last()).0,
            events.last(),
        ) && carries(inputs.drop_last(), events.drop_last()),
    decreases inputs.len(),
{
    if inputs.len() > 0 {
        let rest = inputs.drop_last();
        assert forall|i: int| 0 <= i < rest.len() implies frame_of(
            #[trigger] rest[i],
            events.drop_last()[i],
        ) && events.drop_last()[i].kind != "error"@ && events.drop_last()[i].kind
            != "message_stop"@ by {
            assert(frame_of(inputs[i], events[i]));
        }
        lemma_stream_step(s, rest, events.drop_last());
        assert(frame_of(inputs[inputs.len() - 1], events[inputs.len() - 1]));
    }
}

/// The input of a tool call is that of its pieces: whatever the frames of a
/// stream, the call that begins at an index for the first time has in the end the
/// pieces of input, in their order, of exactly those frames after its beginning
/// that carry its index.
pub proof fn law_tool_input_is_that_of_its_pieces(
    s: AnthropicStep,
    inputs: Seq<SseInputView>,
    events: Seq<AnthropicEventView>,
    k: int,
    index: i64,
)
    requires
        sound(s),
        carries(inputs, events),
        0 <= k < events.len(),
        begins_call(events[k], index),
        forall|j: int| 0 <= j < k ==> !begins_call(#[trigger] events[j], index),
        !known(s.state.tool_blocks, index),
    ensures
        entry(stream(s, inputs).0.state.tool_blocks, index) matches Some(call) && call.input_json
            == fragments(events.skip(k + 1), index),
    decreases inputs.len(),
{
    lemma_stream_step(s, inputs, events);
    let rest = inputs.drop_last();
    let earlier = events.drop_last();
    let before = stream(s, rest).0;
    law_stream_is_sound(s, rest);
    lemma_stream_step(s, rest, earlier);
    law_frames_touch_their_own_call(before, events.last(), index);
    if k == events.len() - 1 {
        lemma_unknown(s, rest, earlier, index);
        assert(events.skip(k + 1) =~= Seq::<AnthropicEventView>::empty());
        let call = entry(stream(s, inputs).0.state.tool_blocks, index)->0;
        assert(call.input_json =~= Seq::<char>::empty());
    } else {
        assert forall|j: int| 0 <= j < k implies !begins_call(#[trigger] earlier[j], index) by {
            assert(!begins_call(events[j], index));
        }
        assert(begins_call(earlier[k], index));
        law_tool_input_is_that_of_its_pieces(s, rest, earlier, k, index);
        let later = events.skip(k + 1);
        assert(later.drop_last() =~= earlier.skip(k + 1));
        assert(later.last() == events.last());
        if begins_call(events.last(), index) {
            lemma_frame_words();
            assert(fragment(events.last(), index) =~= Seq::<char>::empty());
            assert(fragments(earlier.skip(k + 1), index) + Seq::<char>::empty() =~= fragments(
                earlier.skip(k + 1),
                index,
            ));
        }
    }
}

proof fn lemma_unknown(
    s: AnthropicStep,
    inputs: Seq<SseInputView>,
    events: Seq<AnthropicEventView>,
    index: i64,
)
    requires
        sound(s),
        carries(inputs, events),
        forall|j: int| 0 <= j < events.len() ==> !begins_call(#[trigger] events[j], index),
        !known(s.state.tool_blocks, index),
    ensures
        entry(stream(s, inputs).0.state.tool_blocks, index) is None,
    decreases inputs.len(),
{
    lemma_stream_step(s, inputs, events);
    if inputs.len() > 0 {
        let rest = inputs.drop_last();
        let earlier = events.drop_last();
        lemma_stream_step(s, rest, earlier);
        assert forall|j: int| 0 <= j < earlier.len() implies !begins_call(
            #[trigger] earlier[j],
            index,
        ) by {
            assert(!begins_call(events[j], index));
        }
        lemma_unknown(s, rest, earlier, index);
        law_stream_is_sound(s, rest);
        assert(!begins_call(events[events.len() - 1], index));
        law_frames_touch_their_own_call(stream(s, rest).0, events.last(), index);
    }
}

/// The frame that begins a tool call gives it its name and its id, or an id made
/// from its index where it has none. The call is announced at once, by its tool,
/// without arguments, unless its tool carries structured output.
pub proof fn law_calls_begin_by_name(
    s: AnthropicStep,
    event: AnthropicEventView,
    index: i64,
    block: Fields,
    id: Seq<char>,
    name: Seq<char>,
)
    requires
        sound(s),
        begins_call(event, index),
        event.content_block == Some(JsonView::Fields(block)),
        says(block, "name"@, name),
        if id.len() > 0 {
            says(block, "id"@, id)
        } else {
            !block.dom().contains("id"@) || says(block, "id"@, id)
        },
    ensures
        ({
            let done = event_step(s, event);
            let call_id = if id.len() > 0 {
                id
            } else {
                "call_"@ + decimal_int(index as int)
            };
            &&& entry(done.state.tool_blocks, index) matches Some(call) && call.name == name
                && call.id == call_id
            &&& carries_output(name) ==> done.events == reasoning_closed(s).events
            &&& !carries_output(name) ==> {
                &&& done.events.drop_last() == reasoning_closed(s).events
                &&& done.events.last() matches ResponseEventView::OutputItemAdded(
                    ResponseItemView::FunctionCall { name: n, namespace, arguments, call_id: c, .. },
                ) && flat_name(ToolNameView { name: n, namespace }) == name && arguments.len() == 0
                    && c == call_id && (!has_delimiter(name) ==> n == name && namespace is None)
            }
        }),
{
    lemma_frame_words();
    lemma_block_words();
    law_event_keeps_sound(s, event);
    let doc = JsonView::Fields(block);
    lemma_typed(doc, "tool_use"@);
    law_fields_are_read_by_key(block, "name"@, JsonView::Text(name));
    if block.dom().contains("id"@) {
        law_fields_are_read_by_key(block, "id"@, JsonView::Text(id));
    } else {
        law_missing_fields_are_none(doc, "id"@);
    }
    law_flat_of_tool_of_flat(name);
    if !has_delimiter(name) {
        law_plain_round_trip(name);
    }
    let blocks = s.state.tool_blocks;
    let done = event_step(s, event);
    lemma_slot(blocks, index);
    let i = block_slot(blocks, index, 0);
    if has_block(blocks, index) {
        assert(done.state.tool_blocks == blocks.update(i, done.state.tool_blocks[i]));
        lemma_updated(blocks, i, done.state.tool_blocks[i], index);
    } else {
        assert(done.state.tool_blocks == blocks.insert(i, done.state.tool_blocks[i]));
        lemma_inserted(blocks, i, done.state.tool_blocks[i], index);
    }
    if !carries_output(name) {
        assert(done.events.drop_last() =~= reasoning_closed(s).events);
    }
}

/// The calls that are finished among events, in order.
pub open spec fn calls_done(events: Seq<ResponseEventView>) -> Seq<ResponseItemView>
    decreases events.len(),
{
    if events.len() == 0 {
        Seq::empty()
    } else {
        match events.last() {
            ResponseEventView::OutputItemDone(item) => if item is FunctionCall {
                calls_done(events.drop_last()).push(item)
            } else {
                calls_done(events.drop_last())
            },
            _ => calls_done(events.drop_last()),
        }
    }
}

proof fn lemma_calls_done_push(events: Seq<ResponseEventView>, event: ResponseEventView)
    ensures
        calls_done(events.push(event)) == (match event {
            ResponseEventView::OutputItemDone(item) => if item is FunctionCall {
                calls_done(events).push(item)
            } else {
                calls_done(events)
            },
            _ => calls_done(events),
        }),
{
    assert(events.push(event).drop_last() =~= events);
}

/// Whether a finished item is the call that was put together.
pub open spec fn finishes(item: ResponseItemView, call: ToolBlockAccumulatorView) -> bool {
    item matches ResponseItemView::FunctionCall { name, namespace, arguments, call_id, .. } && {
        &&& flat_name(ToolNameView { name, namespace }) == call.name
        &&& !has_delimiter(call.name) ==> name == call.name && namespace is None
        &&& arguments == call.input_json
        &&& call_id == call.id
    }
}

/// Every call that was put together goes out once, in the order of the calls, with
/// its own input and its own id. A call without name and input does not go out,
/// and the carrier of structured output goes out as the answer's text.
pub proof fn law_calls_go_out_in_order(
    s: AnthropicStep,
    blocks: Seq<ToolBlockAccumulatorView>,
    call: ToolBlockAccumulatorView,
)
    ensures
        ({
            let before = blocks_finished(s, blocks).events;
            let after = blocks_finished(s, blocks.push(call)).events;
            let goes = !carries_output(call.name) && (call.name.len() > 0 || call.input_json.len()
                > 0);
            &&& before.is_prefix_of(after)
            &&& goes ==> calls_done(after).len() == calls_done(before).len() + 1 && calls_done(
                after,
            ).drop_last() == calls_done(before) && finishes(calls_done(after).last(), call)
            &&& !goes ==> calls_done(after) == calls_done(before)
            &&& carries_output(call.name) && call.input_json.len() > 0 ==> (after.last() matches
                ResponseEventView::OutputItemDone(
                    ResponseItemView::Message { role, content, .. },
                ) && role == "assistant"@ && content == seq![
                    crate::models::ContentItemView::OutputText { text: call.input_json },
                ])
        }),
        blocks_finished(s, Seq::empty()) == s,
{
    assert(blocks.push(call).drop_last() =~= blocks);
    let mid = blocks_finished(s, blocks);
    let done = block_finished(mid, call);
    law_flat_of_tool_of_flat(call.name);
    if !has_delimiter(call.name) {
        law_plain_round_trip(call.name);
    }
    if carries_output(call.name) {
        if call.input_json.len() > 0 {
            let open = crate::sse::anthropic::opened(mid).events;
            lemma_calls_done_push(open, done.events.last());
            assert(open.push(done.events.last()) =~= done.events);
            if open != mid.events {
                lemma_calls_done_push(mid.events, open.last());
                assert(mid.events.push(open.last()) =~= open);
            }
        }
    } else if done != mid {
        lemma_calls_done_push(mid.events, done.events.last());
        assert(mid.events.push(done.events.last()) =~= done.events);
        assert(calls_done(done.events).drop_last() =~= calls_done(mid.events));
    }
    assert(done.events.take(mid.events.len() as int) =~= mid.events);
}

/// The end of an answer finishes the calls that are known, all of them and in
/// order, behind what went out before.
pub proof fn law_end_finishes_the_calls(s: AnthropicStep)
    ensures
        ({
            let rest = AnthropicStep {
                state: AnthropicStreamStateView { tool_blocks: Seq::empty(), ..s.state },
                ..s
            };
            let opened = flushed(rest).events.drop_last();
            exists|t: AnthropicStep|
                t.events == opened && t.state.message_item_added == s.state.message_item_added
                    && #[trigger] blocks_finished(t, s.state.tool_blocks).events == flushed(
                    s,
                ).events.drop_last()
        }),
{
    let closed = reasoning_closed(s);
    let t = AnthropicStep {
        state: AnthropicStreamStateView { tool_blocks: Seq::empty(), ..closed.state },
        events: closed.events + crate::sse::finished_message(
            s.state.message_item_added,
            s.state.assistant_text,
        ),
    };
    let rest = AnthropicStep {
        state: AnthropicStreamStateView { tool_blocks: Seq::empty(), ..s.state },
        ..s
    };
    assert(blocks_finished(t, Seq::empty()) == t);
    assert(flushed(rest).events.drop_last() =~= t.events);
    assert(flushed(s).events.drop_last() =~= blocks_finished(t, s.state.tool_blocks).events);
}

proof fn lemma_call_goes_out(s: AnthropicStep, blocks: Seq<ToolBlockAccumulatorView>, i: int)
    requires
        0 <= i < blocks.len(),
        !carries_output(blocks[i].name),
        blocks[i].name.len() > 0 || blocks[i].input_json.len() > 0,
    ensures
        exists|k: int|
            0 <= k < calls_done(blocks_finished(s, blocks).events).len() && finishes(
                #[trigger] calls_done(blocks_finished(s, blocks).events)[k],
                blocks[i],
            ),
    decreases blocks.len(),
{
    let rest = blocks.drop_last();
    assert(rest.push(blocks.last()) =~= blocks);
    law_calls_go_out_in_order(s, rest, blocks.last());
    let before = calls_done(blocks_finished(s, rest).events);
    let all = calls_done(blocks_finished(s, blocks).events);
    if i == blocks.len() - 1 {
        assert(finishes(all[all.len() - 1], blocks[i]));
    } else {
        lemma_call_goes_out(s, rest, i);
        let k = choose|k: int| 0 <= k < before.len() && finishes(#[trigger] before[k], rest[i]);
        if all != before {
            assert(all.drop_last()[k] == all[k]);
        }
        assert(finishes(all[k], blocks[i]));
    }
}

proof fn lemma_done_is_event(events: Seq<ResponseEventView>, k: int)
    requires
        0 <= k < calls_done(events).len(),
    ensures
        events.contains(ResponseEventView::OutputItemDone(calls_done(events)[k])),
    decreases events.len(),
{
    let rest = events.drop_last();
    let before = calls_done(rest);
    let item = calls_done(events)[k];
    if k < before.len() {
        lemma_done_is_event(rest, k);
        let i = choose|i: int|
            0 <= i < rest.len() && rest[i] == ResponseEventView::OutputItemDone(before[k]);
        assert(events[i] == ResponseEventView::OutputItemDone(item));
    } else {
        assert(events[events.len() - 1] == ResponseEventView::OutputItemDone(item));
    }
}

/// Every call that is known at the end of an answer goes out finished, with its own
/// input as arguments and under its own id, unless it has neither name nor input or
/// carries structured output.
pub proof fn law_known_calls_go_out(s: AnthropicStep, i: int)
    requires
        0 <= i < s.state.tool_blocks.len(),
        !carries_output(s.state.tool_blocks[i].name),
        s.state.tool_blocks[i].name.len() > 0 || s.state.tool_blocks[i].input_json.len() > 0,
    ensures
        exists|item: ResponseItemView|
            #[trigger] finishes(item, s.state.tool_blocks[i]) && flushed(s).events.contains(
                ResponseEventView::OutputItemDone(item),
            ),
{
    law_end_finishes_the_calls(s);
    let rest = AnthropicStep {
        state: AnthropicStreamStateView { tool_blocks: Seq::empty(), ..s.state },
        ..s
    };
    let opened = flushed(rest).events.drop_last();
    let blocks = s.state.tool_blocks;
    let t = choose|t: AnthropicStep|
        t.events == opened && t.state.message_item_added == s.state.message_item_added
            && #[trigger] blocks_finished(t, blocks).events == flushed(s).events.drop_last();
    lemma_call_goes_out(t, blocks, i);
    let events = blocks_finished(t, blocks).events;
    let k = choose|k: int|
        0 <= k < calls_done(events).len() && finishes(#[trigger] calls_done(events)[k], blocks[i]);
    lemma_done_is_event(events, k);
    let item = calls_done(events)[k];
    let e = choose|e: int|
        0 <= e < events.len() && events[e] == ResponseEventView::OutputItemDone(item);
    assert(flushed(s).events[e] == ResponseEventView::OutputItemDone(item));
    assert(finishes(item, blocks[i]));
}

/// The arguments of a finished call are the pieces of input of exactly those frames
/// after its beginning that carry its index, joined in their order, whatever other
/// frames stand between them.
pub proof fn law_arguments_are_the_pieces_of_the_call(
    s: AnthropicStep,
    inputs: Seq<SseInputView>,
    events: Seq<AnthropicEventView>,
    k: int,
    index: i64,
)
    requires
        sound(s),
        carries(inputs, events),
        0 <= k < events.len(),
        begins_call(events[k], index),
        forall|j: int| 0 <= j < k ==> !begins_call(#[trigger] events[j], index),
        !known(s.state.tool_blocks, index),
    ensures
        ({
            let call = entry(stream(s, inputs).0.state.tool_blocks, index);
            let pieces = fragments(events.skip(k + 1), index);
            &&& call is Some
            &&& !carries_output(call->0.name) && (call->0.name.len() > 0 || pieces.len() > 0)
                ==> exists|item: ResponseItemView| #[trigger]
                finishes(item, call->0) && item->arguments == pieces && stream(
                    s,
                    inputs.push(SseInputView::End),
                ).0.events.contains(ResponseEventView::OutputItemDone(item))
        }),
{
    law_tool_input_is_that_of_its_pieces(s, inputs, events, k, index);
    lemma_stream_step(s, inputs, events);
    law_stream_is_sound(s, inputs);
    let t = stream(s, inputs).0;
    let call = entry(t.state.tool_blocks, index);
    let all = inputs.push(SseInputView::End);
    assert(all.drop_last() =~= inputs);
    assert(stream(s, all).0 == flushed(t));
    if !carries_output(call->0.name) && (call->0.name.len() > 0 || fragments(
        events.skip(k + 1),
        index,
    ).len() > 0) {
        let blocks = t.state.tool_blocks;
        let i = choose|i: int| 0 <= i < blocks.len() && (#[trigger] blocks[i]).index == index;
        assert(call == Some(blocks[i]));
        law_known_calls_go_out(t, i);
        let item = choose|item: ResponseItemView|
            #[trigger] finishes(item, blocks[i]) && flushed(t).events.contains(
                ResponseEventView::OutputItemDone(item),
            );
        assert(finishes(item, call->0));
    }
}

/// A piece of text goes out as it comes, last of all, behind the announcement of
/// the message; an empty piece does nothing.
pub proof fn law_text_goes_out_as_it_comes(
    s: AnthropicStep,
    event: AnthropicEventView,
    delta: Fields,
    text: Seq<char>,
)
    requires
        event.kind == "content_block_delta"@,
        event.delta == Some(JsonView::Fields(delta)),
        says(delta, "type"@, "text_delta"@),
        says(delta, "text"@, text),
    ensures
        text.len() == 0 ==> event_step(s, event) == s,
        text.len() > 0 ==> {
            let done = event_step(s, event);
            &&& done.events.last() == ResponseEventView::OutputTextDelta(text)
            &&& s.events.is_prefix_of(done.events.drop_last())
            &&& done.events.len() == s.events.len() + (if s.state.message_item_added {
                1int
            } else {
                2int
            })
            &&& done.state == (AnthropicStreamStateView {
                assistant_text: s.state.assistant_text + text,
                message_item_added: true,
                ..s.state
            })
        },
{
    lemma_frame_words();
    lemma_delta_words();
    lemma_typed(JsonView::Fields(delta), "text_delta"@);
    law_fields_are_read_by_key(delta, "text"@, JsonView::Text(text));
    let done = event_step(s, event);
    if text.len() > 0 {
        assert(done.events.drop_last().take(s.events.len() as int) =~= s.events);
    }
}

/// A piece of reasoning goes out as it comes, last of all, with the index of its
/// block, and is joined behind the reasoning before; its signature replaces the
/// one before and nothing else.
pub proof fn law_reasoning_goes_out_as_it_comes(
    s: AnthropicStep,
    event: AnthropicEventView,
    delta: Fields,
    text: Seq<char>,
)
    requires
        event.kind == "content_block_delta"@,
        event.delta == Some(JsonView::Fields(delta)),
    ensures
        says(delta, "type"@, "thinking_delta"@) && says(delta, "thinking"@, text) && text.len() > 0
            ==> {
            let done = event_step(s, event);
            &&& done.events.last() == (ResponseEventView::ReasoningContentDelta {
                delta: text,
                content_index: match event.index {
                    Some(i) => i,
                    None => 0,
                },
            })
            &&& s.events.is_prefix_of(done.events.drop_last())
            &&& done.state == (AnthropicStreamStateView {
                thinking_text: s.state.thinking_text + text,
                message_item_added: true,
                ..s.state
            })
        },
        says(delta, "type"@, "signature_delta"@) && says(delta, "signature"@, text) ==> event_step(
            s,
            event,
        ) == (AnthropicStep {
            state: AnthropicStreamStateView { thinking_signature: Some(text), ..s.state },
            ..s
        }),
{
    lemma_frame_words();
    lemma_delta_words();
    let doc = JsonView::Fields(delta);
    lemma_typed(doc, "thinking_delta"@);
    lemma_typed(doc, "signature_delta"@);
    if says(delta, "type"@, "thinking_delta"@) && says(delta, "thinking"@, text) {
        law_fields_are_read_by_key(delta, "thinking"@, JsonView::Text(text));
        let done = event_step(s, event);
        if text.len() > 0 {
            assert(done.events.drop_last().take(s.events.len() as int) =~= s.events);
        }
    }
    if says(delta, "type"@, "signature_delta"@) && says(delta, "signature"@, text) {
        law_fields_are_read_by_key(delta, "signature"@, JsonView::Text(text));
    }
}

/// Reasoning ends where a text or a call begins. It goes out as one item with all
/// its text and its signature, unless it has none of either or the turn is
/// redacted, and none of it is left.
pub proof fn law_reasoning_ends_where_something_else_begins(
    s: AnthropicStep,
    event: AnthropicEventView,
    kind: Seq<char>,
)
    requires
        event.kind == "content_block_start"@,
        typed(event.content_block, kind),
        kind == "text"@ || kind == "tool_use"@,
    ensures
        ({
            let done = event_step(s, event);
            &&& done.state.thinking_text.len() == 0
            &&& done.state.thinking_signature is None
            &&& s.state.thinking_text.len() > 0 && s.state.thinking_signature is Some
                && !s.state.redacted_thinking ==> done.events.len() > s.events.len()
                && done.events[s.events.len() as int] == ResponseEventView::OutputItemDone(
                ResponseItemView::Reasoning {
                    id: None,
                    summary: Seq::empty(),
                    content: Some(
                        seq![
                            ReasoningItemContentView::ReasoningText { text: s.state.thinking_text },
                        ],
                    ),
                    encrypted_content: None,
                    continuity_token: s.state.thinking_signature,
                },
            )
            &&& kind == "text"@ && (s.state.thinking_text.len() == 0 || s.state.thinking_signature
                is None || s.state.redacted_thinking) ==> done.events == s.events
        }),
{
    lemma_frame_words();
    lemma_block_words();
    if let Some(doc) = event.content_block {
        lemma_typed(doc, kind);
    }
}

/// A redacted block marks the turn and does nothing else.
pub proof fn law_redacted_block_marks_the_turn(s: AnthropicStep, event: AnthropicEventView)
    requires
        event.kind == "content_block_start"@,
        typed(event.content_block, "redacted_thinking"@),
    ensures
        event_step(s, event) == (AnthropicStep {
            state: AnthropicStreamStateView { redacted_thinking: true, ..s.state },
            ..s
        }),
{
    lemma_frame_words();
    lemma_block_words();
    if let Some(doc) = event.content_block {
        lemma_typed(doc, "redacted_thinking"@);
    }
}

/// The frame that opens an answer announces it once, and gives it its id, when it
/// has none yet, and its model, which goes out when it is new.
pub proof fn law_answer_is_opened(
    s: AnthropicStep,
    event: AnthropicEventView,
    message: Fields,
    id: Seq<char>,
    model: Seq<char>,
)
    requires
        event.kind == "message_start"@,
        event.message == Some(JsonView::Fields(message)),
        says(message, "id"@, id),
        says(message, "model"@, model),
    ensures
        ({
            let done = event_step(s, event);
            let news = (if s.state.created_emitted {
                Seq::<ResponseEventView>::empty()
            } else {
                seq![ResponseEventView::Created]
            }) + (if s.state.server_model == Some(model) {
                Seq::<ResponseEventView>::empty()
            } else {
                seq![ResponseEventView::ServerModel(model)]
            });
            &&& done.events == s.events + news
            &&& done.state.created_emitted
            &&& done.state.server_model == Some(model)
            &&& s.state.response_id is None ==> done.state.response_id == Some(id)
            &&& s.state.response_id is Some ==> done.state.response_id == s.state.response_id
            &&& done.state.assistant_text == s.state.assistant_text
            &&& done.state.tool_blocks == s.state.tool_blocks
        }),
{
    lemma_frame_words();
    law_fields_are_read_by_key(message, "id"@, JsonView::Text(id));
    law_fields_are_read_by_key(message, "model"@, JsonView::Text(model));
    let done = event_step(s, event);
    let news = (if s.state.created_emitted {
        Seq::<ResponseEventView>::empty()
    } else {
        seq![ResponseEventView::Created]
    }) + (if s.state.server_model == Some(model) {
        Seq::<ResponseEventView>::empty()
    } else {
        seq![ResponseEventView::ServerModel(model)]
    });
    assert(done.events =~= s.events + news);
}

/// What is known of a count after a report of it.
pub open spec fn reported(report: Fields, key: Seq<char>, before: Option<i64>, after: Option<i64>) -> bool {
    &&& !report.dom().contains(key) ==> after == before
    &&& forall|n: u64|
        n <= i64::MAX && #[trigger] counts(report, key, n) ==> after == Some(n as i64)
}

/// Whether a report counts something under a key.
pub open spec fn counts(report: Fields, key: Seq<char>, n: u64) -> bool {
    report.contains_pair(key, JsonView::Unsigned(n))
}

/// Whether the usage after a report is the one before with the counts that the
/// report gives.
pub open spec fn usage_reported(report: Fields, a: UsageAccumulator, b: UsageAccumulator) -> bool {
    &&& reported(report, "input_tokens"@, a.input_tokens, b.input_tokens)
    &&& reported(
        report,
        "cache_creation_input_tokens"@,
        a.cache_creation_input_tokens,
        b.cache_creation_input_tokens,
    )
    &&& reported(
        report,
        "cache_read_input_tokens"@,
        a.cache_read_input_tokens,
        b.cache_read_input_tokens,
    )
    &&& reported(report, "output_tokens"@, a.output_tokens, b.output_tokens)
}

proof fn lemma_reported(report: Fields, key: Seq<char>, before: Option<i64>)
    ensures
        reported(
            report,
            key,
            before,
            crate::sse::anthropic::newer(JsonView::Fields(report), key, before),
        ),
{
    if report.dom().contains(key) {
        law_fields_are_read_by_key(report, key, report[key]);
    } else {
        law_missing_fields_are_none(JsonView::Fields(report), key);
    }
}

proof fn lemma_usage_reported(report: Fields, usage: UsageAccumulator)
    ensures
        usage_reported(
            report,
            usage,
            crate::sse::anthropic::usage_after(usage, JsonView::Fields(report)),
        ),
{
    lemma_reported(report, "input_tokens"@, usage.input_tokens);
    lemma_reported(report, "cache_creation_input_tokens"@, usage.cache_creation_input_tokens);
    lemma_reported(report, "cache_read_input_tokens"@, usage.cache_read_input_tokens);
    lemma_reported(report, "output_tokens"@, usage.output_tokens);
}

/// The frame that closes an answer gives the reason to stop and the counts that it
/// reports; what it does not give stays. Nothing goes out.
pub proof fn law_answer_is_closed(
    s: AnthropicStep,
    event: AnthropicEventView,
    delta: Fields,
    reason: Seq<char>,
    report: Fields,
)
    requires
        event.kind == "message_delta"@,
        event.delta == Some(JsonView::Fields(delta)),
        event.usage == Some(JsonView::Fields(report)),
    ensures
        ({
            let done = event_step(s, event);
            &&& done.events == s.events
            &&& says(delta, "stop_reason"@, reason) ==> done.state.finish_reason == Some(reason)
            &&& !delta.dom().contains("stop_reason"@) ==> done.state.finish_reason
                == s.state.finish_reason
            &&& usage_reported(report, s.state.usage, done.state.usage)
            &&& done.state == (AnthropicStreamStateView {
                finish_reason: done.state.finish_reason,
                usage: done.state.usage,
                ..s.state
            })
        }),
{
    lemma_frame_words();
    lemma_usage_reported(report, s.state.usage);
    if delta.dom().contains("stop_reason"@) {
        law_fields_are_read_by_key(delta, "stop_reason"@, delta["stop_reason"@]);
    } else {
        law_missing_fields_are_none(JsonView::Fields(delta), "stop_reason"@);
    }
}

/// The frame that opens an answer reports counts too.
pub proof fn law_opening_reports_usage(
    s: AnthropicStep,
    event: AnthropicEventView,
    message: Fields,
    report: Fields,
)
    requires
        event.kind == "message_start"@,
        event.message == Some(JsonView::Fields(message)),
        message.contains_pair("usage"@, JsonView::Fields(report)),
    ensures
        usage_reported(report, s.state.usage, event_step(s, event).state.usage),
{
    lemma_frame_words();
    law_fields_are_read_by_key(message, "usage"@, JsonView::Fields(report));
    lemma_usage_reported(report, s.state.usage);
}

/// A count, or zero.
pub open spec fn count(n: Option<i64>) -> int {
    match n {
        Some(n) => n as int,
        None => 0,
    }
}

/// The end of an answer tells its id, whether the turn ended, and its usage: all
/// input, cached or not, what of it was cached, the output, and the sum.
pub proof fn law_end_tells_the_usage(s: AnthropicStep)
    requires
        0 <= count(s.state.usage.input_tokens) <= 0x1000_0000_0000,
        0 <= count(s.state.usage.cache_creation_input_tokens) <= 0x1000_0000_0000,
        0 <= count(s.state.usage.cache_read_input_tokens) <= 0x1000_0000_0000,
        0 <= count(s.state.usage.output_tokens) <= 0x1000_0000_0000,
        forall|i: int|
            0 <= i < s.state.tool_blocks.len() ==> !carries_output(
                (#[trigger] s.state.tool_blocks[i]).name,
            ),
    ensures
        flushed(s).events.last() matches ResponseEventView::Completed {
            response_id,
            token_usage,
            end_turn,
        } && {
            let u = s.state.usage;
            let reason = s.state.finish_reason;
            &&& s.state.response_id matches Some(id) ==> response_id == id
            &&& s.state.response_id is None ==> response_id.len() == 0
            &&& u.input_tokens is None && u.cache_creation_input_tokens is None
                && u.cache_read_input_tokens is None && u.output_tokens is None <==> token_usage
                is None
            &&& token_usage matches Some(usage) ==> {
                &&& usage.input_tokens == count(u.input_tokens) + count(
                    u.cache_creation_input_tokens,
                ) + count(u.cache_read_input_tokens)
                &&& usage.cached_input_tokens == count(u.cache_read_input_tokens)
                &&& usage.output_tokens == count(u.output_tokens)
                &&& usage.reasoning_output_tokens == 0
                &&& usage.total_tokens == usage.input_tokens + usage.output_tokens
            }
            &&& reason == Some("end_turn"@) || reason == Some("stop_sequence"@) ==> end_turn
                == Some(true)
            &&& reason == Some("tool_use"@) || reason == Some("max_tokens"@) || reason == Some(
                "content_filter"@,
            ) || reason == Some("pause_turn"@) ==> end_turn == Some(false)
            &&& reason is None ==> end_turn is None
        },
{
    lemma_reason_words();
}

proof fn lemma_reason_words()
    ensures
        "end_turn"@ != "stop_sequence"@,
        "end_turn"@ != "tool_use"@,
        "end_turn"@ != "max_tokens"@,
        "end_turn"@ != "content_filter"@,
        "end_turn"@ != "pause_turn"@,
        "stop_sequence"@ != "tool_use"@,
        "stop_sequence"@ != "max_tokens"@,
        "stop_sequence"@ != "content_filter"@,
        "stop_sequence"@ != "pause_turn"@,
        "tool_use"@ != "max_tokens"@,
        "tool_use"@ != "content_filter"@,
        "tool_use"@ != "pause_turn"@,
        "max_tokens"@ != "content_filter"@,
        "max_tokens"@ != "pause_turn"@,
        "content_filter"@ != "pause_turn"@,
{
    reveal_strlit("end_turn");
    reveal_strlit("stop_sequence");
    reveal_strlit("tool_use");
    reveal_strlit("max_tokens");
    reveal_strlit("content_filter");
    reveal_strlit("pause_turn");
    assert("end_turn"@.len() != "stop_sequence"@.len());
    assert("end_turn"@[0] != "tool_use"@[0]);
    assert("end_turn"@.len() != "max_tokens"@.len());
    assert("end_turn"@.len() != "content_filter"@.len());
    assert("end_turn"@.len() != "pause_turn"@.len());
    assert("stop_sequence"@.len() != "tool_use"@.len());
    assert("stop_sequence"@.len() != "max_tokens"@.len());
    assert("stop_sequence"@.len() != "content_filter"@.len());
    assert("stop_sequence"@.len() != "pause_turn"@.len());
    assert("tool_use"@.len() != "max_tokens"@.len());
    assert("tool_use"@.len() != "content_filter"@.len());
    assert("tool_use"@.len() != "pause_turn"@.len());
    assert("max_tokens"@.len() != "content_filter"@.len());
    assert("max_tokens"@[0] != "pause_turn"@[0]);
    assert("content_filter"@.len() != "pause_turn"@.len());
}

/// The text of the answer goes out finished with all its pieces, before the calls,
/// as a message of the assistant.
pub proof fn law_end_finishes_the_text(s: AnthropicStep)
    requires
        s.state.message_item_added,
        s.state.assistant_text.len() > 0,
    ensures
        flushed(s).events.contains(
            ResponseEventView::OutputItemDone(
                ResponseItemView::Message {
                    id: None,
                    role: "assistant"@,
                    content: seq![
                        crate::models::ContentItemView::OutputText { text: s.state.assistant_text },
                    ],
                    phase: None,
                },
            ),
        ),
    decreases s.state.tool_blocks.len(),
{
    law_end_finishes_the_calls(s);
    let closed = reasoning_closed(s);
    let t = AnthropicStep {
        state: AnthropicStreamStateView { tool_blocks: Seq::empty(), ..closed.state },
        events: closed.events + crate::sse::finished_message(
            s.state.message_item_added,
            s.state.assistant_text,
        ),
    };
    let n = closed.events.len() as int;
    lemma_grow(t, s.state.tool_blocks);
    assert(t.events[n] == flushed(s).events[n]);
}

proof fn lemma_grow(s: AnthropicStep, blocks: Seq<ToolBlockAccumulatorView>)
    ensures
        s.events.is_prefix_of(blocks_finished(s, blocks).events),
    decreases blocks.len(),
{
    if blocks.len() > 0 {
        let rest = blocks.drop_last();
        lemma_grow(s, rest);
        law_calls_go_out_in_order(s, rest, blocks.last());
        assert(rest.push(blocks.last()) =~= blocks);
        let mid = blocks_finished(s, rest).events;
        let all = blocks_finished(s, blocks).events;
        assert(all.take(s.events.len() as int) =~= mid.take(s.events.len() as int));
    }
}

/// What the reader meets decides what becomes of the answer: an event is taken in
/// and reading goes on, the last one and the end of the stream finish the answer,
/// an error, silence and breakage break it off, and a frame that is no event
/// changes nothing.
pub proof fn law_inputs_are_answered(
    s: AnthropicStep,
    input: SseInputView,
    event: AnthropicEventView,
    error: Fields,
    text: Seq<char>,
)
    ensures
        frame_of(input, event) && event.kind != "error"@ && event.kind != "message_stop"@
            ==> sse_step(s, input) == (event_step(s, event), VerdictView::Continue),
        frame_of(input, event) && event.kind == "message_stop"@ ==> sse_step(s, input) == (
            flushed(s),
            VerdictView::Finished,
        ),
        frame_of(input, event) && event.kind == "error"@ ==> sse_step(s, input).0 == s && sse_step(
            s,
            input,
        ).1 is Failed,
        frame_of(input, event) && event.kind == "error"@ && event.error == Some(
            JsonView::Fields(error),
        ) && !error.dom().contains("error"@) && says(error, "message"@, text)
            && !crate::text::blank(text) ==> sse_step(s, input).1 == VerdictView::Failed(text),
        input == SseInputView::End ==> sse_step(s, input) == (flushed(s), VerdictView::Finished),
        input == SseInputView::Idle ==> sse_step(s, input).0 == s && sse_step(s, input).1 is Failed,
        input == SseInputView::Broken(text) ==> sse_step(s, input) == (
            s,
            VerdictView::Failed(text),
        ),
        input == SseInputView::Data(text) && (parsed_json(text) matches Some(doc) ==> event_of(doc)
            is None) ==> sse_step(s, input) == (s, VerdictView::Continue),
{
    lemma_frame_words();
    let doc = JsonView::Fields(error);
    if !error.dom().contains("error"@) {
        law_missing_fields_are_none(doc, "error"@);
    }
    if says(error, "message"@, text) {
        law_fields_are_read_by_key(error, "message"@, JsonView::Text(text));
    }
}

/// An error that stands within another is told by the message of the inner one.
pub proof fn law_inner_errors_are_told(
    s: AnthropicStep,
    input: SseInputView,
    event: AnthropicEventView,
    outer: Fields,
    inner: Fields,
    text: Seq<char>,
)
    requires
        frame_of(input, event),
        event.kind == "error"@,
        event.error == Some(JsonView::Fields(outer)),
        holds_object(outer, "error"@, inner),
        says(inner, "message"@, text),
        !crate::text::blank(text),
    ensures
        sse_step(s, input) == (s, VerdictView::Failed(text)),
{
    lemma_frame_words();
    law_fields_are_read_by_key(outer, "error"@, JsonView::Fields(inner));
    law_fields_are_read_by_key(inner, "message"@, JsonView::Text(text));
}

} // verus!
