//! What the frames of a Gemini answer make of it, told from the frames.

use vstd::prelude::*;
use vstd::string::*;

use crate::codec::parsed_json;
use crate::codec::written;
use crate::events::ResponseEventView;
use crate::json::law_fields_are_read_by_key;
use crate::json::law_missing_fields_are_none;
use crate::json::Fields;
use crate::json::JsonView;
use crate::models::ContentItemView;
use crate::models::ResponseItemView;
use crate::sse::anthropic_laws::count;
use crate::sse::anthropic_laws::reported;
use crate::sse::gemini::candidate_step;
use crate::sse::gemini::candidate_steps;
use crate::sse::gemini::finished_calls;
use crate::sse::gemini::flushed;
use crate::sse::gemini::frame_step;
use crate::sse::gemini::part_step;
use crate::sse::gemini::part_steps;
use crate::sse::gemini::sse_step;
use crate::sse::gemini::stream;
use crate::sse::gemini::GeminiCallView;
use crate::sse::gemini::GeminiStep;
use crate::sse::gemini::GeminiUsageAccumulator;
use crate::sse::SseInputView;
use crate::sse::VerdictView;
use crate::text::decimal;
use crate::tool_name::flat_name;
use crate::tool_name::has_delimiter;
use crate::tool_name::law_flat_of_tool_of_flat;
use crate::tool_name::law_plain_round_trip;
use crate::tool_name::ToolNameView;

verus! {

/// What an object holds under a key.
pub open spec fn inside(doc: JsonView, key: Seq<char>) -> Option<JsonView> {
    match doc {
        JsonView::Fields(fields) => if fields.dom().contains(key) {
            Some(fields[key])
        } else {
            None
        },
        _ => None,
    }
}

/// The text that a part adds to the answer: not that of a call, nor a thought.
pub open spec fn plain_text(part: JsonView) -> Seq<char> {
    if inside(part, "functionCall"@) is Some || inside(part, "thought"@) == Some(
        JsonView::Bool(true),
    ) {
        Seq::empty()
    } else {
        match inside(part, "text"@) {
            Some(JsonView::Text(text)) => text,
            _ => Seq::empty(),
        }
    }
}

/// The texts that parts add to the answer, one after the other.
pub open spec fn plain_texts(parts: Seq<JsonView>) -> Seq<char>
    decreases parts.len(),
{
    if parts.len() == 0 {
        Seq::empty()
    } else {
        plain_texts(parts.drop_last()) + plain_text(parts.last())
    }
}

/// The calls among parts, in order.
pub open spec fn calls_in(parts: Seq<JsonView>) -> Seq<JsonView>
    decreases parts.len(),
{
    if parts.len() == 0 {
        Seq::empty()
    } else {
        match inside(parts.last(), "functionCall"@) {
            Some(call) => calls_in(parts.drop_last()).push(call),
            None => calls_in(parts.drop_last()),
        }
    }
}

/// The parts of a candidate.
pub open spec fn parts_of(candidate: JsonView) -> Seq<JsonView> {
    match inside(candidate, "content"@) {
        Some(content) => match inside(content, "parts"@) {
            Some(JsonView::List(parts)) => parts,
            _ => Seq::empty(),
        },
        None => Seq::empty(),
    }
}

/// The parts of candidates, one candidate after the other.
pub open spec fn all_parts(candidates: Seq<JsonView>) -> Seq<JsonView>
    decreases candidates.len(),
{
    if candidates.len() == 0 {
        Seq::empty()
    } else {
        all_parts(candidates.drop_last()) + parts_of(candidates.last())
    }
}

/// The parts of a frame.
pub open spec fn frame_parts(frame: JsonView) -> Seq<JsonView> {
    match inside(frame, "candidates"@) {
        Some(JsonView::List(candidates)) => all_parts(candidates),
        _ => Seq::empty(),
    }
}

/// Whether a call is known as a frame gave it: under the number of its place, with
/// its name, and with its arguments as text, no arguments being an empty object.
pub open spec fn taken(call: GeminiCallView, place: nat, doc: JsonView) -> bool {
    &&& call.call_id == "call_"@ + decimal(place)
    &&& inside(doc, "name"@) matches Some(JsonView::Text(name)) ==> call.name == name
    &&& !(inside(doc, "name"@) matches Some(JsonView::Text(_))) ==> call.name.len() == 0
    &&& inside(doc, "args"@) matches Some(args) ==> (written(args) matches Some(text) ==> call.args
        == text)
    &&& inside(doc, "args"@) is None ==> (written(JsonView::Fields(Map::empty())) matches Some(
        text,
    ) ==> call.args == text)
}

/// Whether the calls after frames are those before with more calls behind them.
pub open spec fn calls_added(
    before: Seq<GeminiCallView>,
    after: Seq<GeminiCallView>,
    more: Seq<JsonView>,
) -> bool {
    &&& after.len() == before.len() + more.len()
    &&& forall|i: int| 0 <= i < before.len() ==> #[trigger] after[i] == before[i]
    &&& forall|i: int|
        0 <= i < more.len() ==> taken(
            after[before.len() + i],
            (before.len() + i) as nat,
            #[trigger] more[i],
        )
}

proof fn lemma_calls_added_more(
    a: Seq<GeminiCallView>,
    b: Seq<GeminiCallView>,
    c: Seq<GeminiCallView>,
    first: Seq<JsonView>,
    second: Seq<JsonView>,
)
    requires
        calls_added(a, b, first),
        calls_added(b, c, second),
    ensures
        calls_added(a, c, first + second),
{
    assert forall|i: int| 0 <= i < a.len() implies #[trigger] c[i] == a[i] by {
        assert(c[i] == b[i]);
        assert(b[i] == a[i]);
    }
    let more = first + second;
    assert forall|i: int| 0 <= i < more.len() implies taken(
        c[a.len() + i],
        (a.len() + i) as nat,
        #[trigger] more[i],
    ) by {
        if i < first.len() {
            assert(more[i] == first[i]);
            assert(c[a.len() + i] == b[a.len() + i]);
        } else {
            assert(more[i] == second[i - first.len()]);
        }
    }
}

proof fn lemma_empty_object()
    ensures
        crate::json::object_doc(Seq::empty()) == JsonView::Fields(Map::empty()),
{
}

/// A part adds its text to the answer and sends it as it comes, a thought as
/// reasoning. A call is added behind the calls before and announced by its tool,
/// under the number of its place. An empty part does nothing.
pub proof fn law_parts_go_out_as_they_come(s: GeminiStep, part: JsonView)
    ensures
        ({
            let done = part_step(s, part);
            let text = match inside(part, "text"@) {
                Some(JsonView::Text(text)) => text,
                _ => Seq::empty(),
            };
            let call = inside(part, "functionCall"@);
            let thought = inside(part, "thought"@) == Some(JsonView::Bool(true));
            &&& done.state.assistant_text == s.state.assistant_text + plain_text(part)
            &&& call is Some ==> {
                let made = done.state.tool_calls.last();
                &&& calls_added(s.state.tool_calls, done.state.tool_calls, seq![call->0])
                &&& done.events.drop_last() == s.events
                &&& done.events.last() matches ResponseEventView::OutputItemAdded(
                    ResponseItemView::FunctionCall { name, namespace, arguments, call_id, .. },
                ) && call_id == made.call_id && arguments.len() == 0 && flat_name(
                    ToolNameView { name, namespace },
                ) == made.name && (!has_delimiter(made.name) ==> name == made.name && namespace
                    is None)
            }
            &&& call is None ==> done.state.tool_calls == s.state.tool_calls
            &&& call is None && text.len() == 0 ==> done == s
            &&& call is None && text.len() > 0 ==> {
                &&& done.state.message_item_added
                &&& s.events.is_prefix_of(done.events.drop_last())
                &&& done.events.len() == s.events.len() + (if s.state.message_item_added {
                    1int
                } else {
                    2int
                })
                &&& thought ==> done.events.last() == (ResponseEventView::ReasoningContentDelta {
                    delta: text,
                    content_index: 0,
                })
                &&& !thought ==> done.events.last() == ResponseEventView::OutputTextDelta(text)
            }
            &&& done.state.finish_reason == s.state.finish_reason
            &&& done.state.usage == s.state.usage
            &&& done.state.response_id == s.state.response_id
            &&& done.state.created_emitted == s.state.created_emitted
        }),
{
    let done = part_step(s, part);
    lemma_empty_object();
    assert(s.state.assistant_text + Seq::<char>::empty() =~= s.state.assistant_text);
    if let Some(call) = inside(part, "functionCall"@) {
        let made = done.state.tool_calls.last();
        law_flat_of_tool_of_flat(made.name);
        if !has_delimiter(made.name) {
            law_plain_round_trip(made.name);
        }
        assert(done.events.drop_last() =~= s.events);
        assert(done.state.tool_calls == s.state.tool_calls.push(made));
        assert(taken(made, s.state.tool_calls.len(), call));
        assert(seq![call][0] == call);
    } else {
        assert(done.events.len() > s.events.len() ==> done.events.drop_last().take(
            s.events.len() as int,
        ) =~= s.events);
    }
}

proof fn lemma_parts(s: GeminiStep, parts: Seq<JsonView>)
    ensures
        ({
            let done = part_steps(s, parts);
            &&& done.state.assistant_text == s.state.assistant_text + plain_texts(parts)
            &&& calls_added(s.state.tool_calls, done.state.tool_calls, calls_in(parts))
            &&& done.state.finish_reason == s.state.finish_reason
            &&& done.state.usage == s.state.usage
            &&& done.state.response_id == s.state.response_id
            &&& done.state.created_emitted == s.state.created_emitted
        }),
    decreases parts.len(),
{
    let done = part_steps(s, parts);
    if parts.len() == 0 {
        assert(s.state.assistant_text + plain_texts(parts) =~= s.state.assistant_text);
    } else {
        let rest = parts.drop_last();
        lemma_parts(s, rest);
        let mid = part_steps(s, rest);
        law_parts_go_out_as_they_come(mid, parts.last());
        assert(done.state.assistant_text =~= s.state.assistant_text + plain_texts(parts));
        match inside(parts.last(), "functionCall"@) {
            Some(call) => {
                lemma_calls_added_more(
                    s.state.tool_calls,
                    mid.state.tool_calls,
                    done.state.tool_calls,
                    calls_in(rest),
                    seq![call],
                );
                assert(calls_in(rest) + seq![call] =~= calls_in(parts));
            },
            None => {},
        }
    }
}

proof fn lemma_joined(a: Seq<JsonView>, b: Seq<JsonView>)
    ensures
        plain_texts(a + b) == plain_texts(a) + plain_texts(b),
        calls_in(a + b) == calls_in(a) + calls_in(b),
    decreases b.len(),
{
    if b.len() == 0 {
        assert(a + b =~= a);
        assert(plain_texts(a) + plain_texts(b) =~= plain_texts(a));
        assert(calls_in(a) + calls_in(b) =~= calls_in(a));
    } else {
        assert((a + b).drop_last() =~= a + b.drop_last());
        lemma_joined(a, b.drop_last());
        assert(plain_texts(a + b) =~= plain_texts(a) + plain_texts(b));
        assert(calls_in(a + b) =~= calls_in(a) + calls_in(b));
    }
}

proof fn lemma_candidate(s: GeminiStep, candidate: JsonView)
    ensures
        ({
            let done = candidate_step(s, candidate);
            &&& done.state.assistant_text == s.state.assistant_text + plain_texts(
                parts_of(candidate),
            )
            &&& calls_added(
                s.state.tool_calls,
                done.state.tool_calls,
                calls_in(parts_of(candidate)),
            )
            &&& inside(candidate, "finishReason"@) matches Some(JsonView::Text(reason))
                ==> done.state.finish_reason == Some(reason)
            &&& !(inside(candidate, "finishReason"@) matches Some(JsonView::Text(_)))
                ==> done.state.finish_reason == s.state.finish_reason
            &&& done.state.usage == s.state.usage
            &&& done.state.response_id == s.state.response_id
            &&& done.state.created_emitted == s.state.created_emitted
        }),
{
    let bare = match candidate {
        JsonView::Fields(fields) => JsonView::Fields(fields.remove("content"@)),
        _ => candidate,
    };
    reveal_strlit("content");
    reveal_strlit("finishReason");
    assert("content"@.len() != "finishReason"@.len());
    let ready = candidate_step(s, bare);
    lemma_parts(ready, parts_of(candidate));
    assert(ready.state.tool_calls == s.state.tool_calls);
    assert(ready.state.assistant_text == s.state.assistant_text);
    assert(part_steps(ready, Seq::empty()) == ready);
    assert(candidate_step(s, candidate) == part_steps(ready, parts_of(candidate)));
}

proof fn lemma_candidates(s: GeminiStep, candidates: Seq<JsonView>)
    ensures
        ({
            let done = candidate_steps(s, candidates);
            let parts = all_parts(candidates);
            &&& done.state.assistant_text == s.state.assistant_text + plain_texts(parts)
            &&& calls_added(s.state.tool_calls, done.state.tool_calls, calls_in(parts))
            &&& done.state.usage == s.state.usage
            &&& done.state.response_id == s.state.response_id
            &&& done.state.created_emitted == s.state.created_emitted
        }),
    decreases candidates.len(),
{
    if candidates.len() == 0 {
        assert(s.state.assistant_text + plain_texts(all_parts(candidates))
            =~= s.state.assistant_text);
    } else {
        let rest = candidates.drop_last();
        lemma_candidates(s, rest);
        let mid = candidate_steps(s, rest);
        let done = candidate_steps(s, candidates);
        lemma_candidate(mid, candidates.last());
        let own = parts_of(candidates.last());
        lemma_joined(all_parts(rest), own);
        lemma_calls_added_more(
            s.state.tool_calls,
            mid.state.tool_calls,
            done.state.tool_calls,
            calls_in(all_parts(rest)),
            calls_in(own),
        );
        assert(done.state.assistant_text =~= s.state.assistant_text + plain_texts(
            all_parts(candidates),
        ));
    }
}

/// A frame adds to the text of the answer the texts of its parts, and behind the
/// calls of the answer its own, in their order and each as the frame gives it. The
/// answer is announced, and has the first id that a frame gives.
pub proof fn law_frames_add_their_parts(s: GeminiStep, frame: JsonView)
    ensures
        ({
            let done = frame_step(s, frame);
            &&& done.state.assistant_text == s.state.assistant_text + plain_texts(
                frame_parts(frame),
            )
            &&& calls_added(
                s.state.tool_calls,
                done.state.tool_calls,
                calls_in(frame_parts(frame)),
            )
            &&& done.state.created_emitted
            &&& s.state.response_id is Some ==> done.state.response_id == s.state.response_id
            &&& s.state.response_id is None ==> (inside(frame, "id"@) matches Some(
                JsonView::Text(id),
            ) ==> done.state.response_id == Some(id))
            &&& inside(frame, "usageMetadata"@) is None ==> done.state.usage == s.state.usage
        }),
{
    let ready = crate::sse::gemini::identified(crate::sse::gemini::announced(s), frame);
    assert(ready.state.tool_calls == s.state.tool_calls);
    assert(ready.state.assistant_text == s.state.assistant_text);
    match inside(frame, "candidates"@) {
        Some(JsonView::List(candidates)) => {
            lemma_candidates(ready, candidates);
        },
        _ => {
            assert(s.state.assistant_text + Seq::<char>::empty() =~= s.state.assistant_text);
        },
    }
}

/// The reason to finish is that of the candidate that gives one; a frame that gives
/// none leaves it.
pub proof fn law_reason_is_that_of_the_candidate(s: GeminiStep, frame: Fields, candidate: JsonView)
    requires
        frame.contains_pair("candidates"@, JsonView::List(seq![candidate])),
    ensures
        inside(candidate, "finishReason"@) matches Some(JsonView::Text(reason)) ==> frame_step(
            s,
            JsonView::Fields(frame),
        ).state.finish_reason == Some(reason),
        inside(candidate, "finishReason"@) is None ==> frame_step(
            s,
            JsonView::Fields(frame),
        ).state.finish_reason == s.state.finish_reason,
{
    let doc = JsonView::Fields(frame);
    law_fields_are_read_by_key(frame, "candidates"@, JsonView::List(seq![candidate]));
    let ready = crate::sse::gemini::identified(crate::sse::gemini::announced(s), doc);
    reveal_with_fuel(candidate_steps, 2);
    assert(seq![candidate].drop_last() =~= Seq::<JsonView>::empty());
    lemma_candidate(ready, candidate);
}

/// The first frame announces the answer, and no other one does.
pub proof fn law_answer_is_announced_once(s: GeminiStep, frame: JsonView)
    requires
        inside(frame, "candidates"@) is None,
    ensures
        s.state.created_emitted ==> frame_step(s, frame).events == s.events,
        !s.state.created_emitted ==> frame_step(s, frame).events == s.events.push(
            ResponseEventView::Created,
        ),
{
}

/// Whether the usage after a report is the one before with the counts that the
/// report gives.
pub open spec fn usage_reported(
    report: Fields,
    a: GeminiUsageAccumulator,
    b: GeminiUsageAccumulator,
) -> bool {
    &&& reported(report, "promptTokenCount"@, a.prompt_token_count, b.prompt_token_count)
    &&& reported(
        report,
        "candidatesTokenCount"@,
        a.candidates_token_count,
        b.candidates_token_count,
    )
    &&& reported(report, "thoughtsTokenCount"@, a.thoughts_token_count, b.thoughts_token_count)
    &&& reported(
        report,
        "cachedContentTokenCount"@,
        a.cached_content_token_count,
        b.cached_content_token_count,
    )
    &&& reported(report, "totalTokenCount"@, a.total_token_count, b.total_token_count)
}

/// A frame's counts replace those known before; counts that it does not give stay.
pub proof fn law_frames_report_usage(s: GeminiStep, frame: Fields, report: Fields)
    requires
        frame.contains_pair("usageMetadata"@, JsonView::Fields(report)),
    ensures
        usage_reported(
            report,
            s.state.usage,
            frame_step(s, JsonView::Fields(frame)).state.usage,
        ),
{
    let doc = JsonView::Fields(frame);
    law_fields_are_read_by_key(frame, "usageMetadata"@, JsonView::Fields(report));
    let ready = crate::sse::gemini::identified(crate::sse::gemini::announced(s), doc);
    if let Some(JsonView::List(candidates)) = inside(doc, "candidates"@) {
        lemma_candidates(ready, candidates);
    }
    let u = s.state.usage;
    lemma_reported(report, "promptTokenCount"@, u.prompt_token_count);
    lemma_reported(report, "candidatesTokenCount"@, u.candidates_token_count);
    lemma_reported(report, "thoughtsTokenCount"@, u.thoughts_token_count);
    lemma_reported(report, "cachedContentTokenCount"@, u.cached_content_token_count);
    lemma_reported(report, "totalTokenCount"@, u.total_token_count);
}

proof fn lemma_reported(report: Fields, key: Seq<char>, before: Option<i64>)
    ensures
        reported(
            report,
            key,
            before,
            crate::sse::anthropic::newer(JsonView::Fields(report), key, before),
        ),
{
    if report.dom().contains(key) {
        law_fields_are_read_by_key(report, key, report[key]);
    } else {
        law_missing_fields_are_none(JsonView::Fields(report), key);
    }
}

/// Whether a finished item is the call that was put together.
pub open spec fn finishes(event: ResponseEventView, call: GeminiCallView) -> bool {
    event matches ResponseEventView::OutputItemDone(
        ResponseItemView::FunctionCall { name, namespace, arguments, call_id, .. },
    ) && {
        &&& flat_name(ToolNameView { name, namespace }) == call.name
        &&& !has_delimiter(call.name) ==> name == call.name && namespace is None
        &&& arguments == call.args
        &&& call_id == call.call_id
    }
}

/// Every call goes out once, in the order of the calls, with its own arguments and
/// its own id; a call without name and arguments does not.
pub proof fn law_calls_go_out_in_order(calls: Seq<GeminiCallView>, call: GeminiCallView)
    ensures
        finished_calls(Seq::empty()).len() == 0,
        call.name.len() > 0 || call.args.len() > 0 ==> {
            let all = finished_calls(calls.push(call));
            &&& all.len() == finished_calls(calls).len() + 1
            &&& all.drop_last() == finished_calls(calls)
            &&& finishes(all.last(), call)
        },
        call.name.len() == 0 && call.args.len() == 0 ==> finished_calls(calls.push(call))
            == finished_calls(calls),
{
    assert(calls.push(call).drop_last() =~= calls);
    law_flat_of_tool_of_flat(call.name);
    if !has_delimiter(call.name) {
        law_plain_round_trip(call.name);
    }
    if call.name.len() > 0 || call.args.len() > 0 {
        assert(finished_calls(calls.push(call)).drop_last() =~= finished_calls(calls));
    }
}

proof fn lemma_reason_words()
    ensures
        "STOP"@ != "MAX_TOKENS"@,
        "STOP"@ != "SAFETY"@,
        "STOP"@ != "RECITATION"@,
        "STOP"@ != "OTHER"@,
        "STOP"@ != "BLOCKLIST"@,
        "STOP"@ != "PROHIBITED_CONTENT"@,
        "STOP"@ != "SPII"@,
        "MAX_TOKENS"@ != "SAFETY"@,
        "MAX_TOKENS"@ != "RECITATION"@,
        "MAX_TOKENS"@ != "OTHER"@,
        "MAX_TOKENS"@ != "BLOCKLIST"@,
        "MAX_TOKENS"@ != "PROHIBITED_CONTENT"@,
        "MAX_TOKENS"@ != "SPII"@,
        "SAFETY"@ != "RECITATION"@,
        "SAFETY"@ != "OTHER"@,
        "SAFETY"@ != "BLOCKLIST"@,
        "SAFETY"@ != "PROHIBITED_CONTENT"@,
        "SAFETY"@ != "SPII"@,
        "RECITATION"@ != "OTHER"@,
        "RECITATION"@ != "BLOCKLIST"@,
        "RECITATION"@ != "PROHIBITED_CONTENT"@,
        "RECITATION"@ != "SPII"@,
        "OTHER"@ != "BLOCKLIST"@,
        "OTHER"@ != "PROHIBITED_CONTENT"@,
        "OTHER"@ != "SPII"@,
        "BLOCKLIST"@ != "PROHIBITED_CONTENT"@,
        "BLOCKLIST"@ != "SPII"@,
        "PROHIBITED_CONTENT"@ != "SPII"@,
{
    reveal_strlit("STOP");
    reveal_strlit("MAX_TOKENS");
    reveal_strlit("SAFETY");
    reveal_strlit("RECITATION");
    reveal_strlit("OTHER");
    reveal_strlit("BLOCKLIST");
    reveal_strlit("PROHIBITED_CONTENT");
    reveal_strlit("SPII");
    assert("STOP"@.len() != "MAX_TOKENS"@.len());
    assert("STOP"@.len() != "SAFETY"@.len());
    assert("STOP"@.len() != "RECITATION"@.len());
    assert("STOP"@.len() != "OTHER"@.len());
    assert("STOP"@.len() != "BLOCKLIST"@.len());
    assert("STOP"@.len() != "PROHIBITED_CONTENT"@.len());
    assert("STOP"@[1] != "SPII"@[1]);
    assert("MAX_TOKENS"@.len() != "SAFETY"@.len());
    assert("MAX_TOKENS"@[0] != "RECITATION"@[0]);
    assert("MAX_TOKENS"@.len() != "OTHER"@.len());
    assert("MAX_TOKENS"@.len() != "BLOCKLIST"@.len());
    assert("MAX_TOKENS"@.len() != "PROHIBITED_CONTENT"@.len());
    assert("MAX_TOKENS"@.len() != "SPII"@.len());
    assert("SAFETY"@.len() != "RECITATION"@.len());
    assert("SAFETY"@.len() != "OTHER"@.len());
    assert("SAFETY"@.len() != "BLOCKLIST"@.len());
    assert("SAFETY"@.len() != "PROHIBITED_CONTENT"@.len());
    assert("SAFETY"@.len() != "SPII"@.len());
    assert("RECITATION"@.len() != "OTHER"@.len());
    assert("RECITATION"@.len() != "BLOCKLIST"@.len());
    assert("RECITATION"@.len() != "PROHIBITED_CONTENT"@.len());
    assert("RECITATION"@.len() != "SPII"@.len());
    assert("OTHER"@.len() != "BLOCKLIST"@.len());
    assert("OTHER"@.len() != "PROHIBITED_CONTENT"@.len());
    assert("OTHER"@.len() != "SPII"@.len());
    assert("BLOCKLIST"@.len() != "PROHIBITED_CONTENT"@.len());
    assert("BLOCKLIST"@.len() != "SPII"@.len());
    assert("PROHIBITED_CONTENT"@.len() != "SPII"@.len());
}

/// The end of an answer sends its text as one message of the assistant, then the
/// finished calls, and last its completion: with the id of the answer, whether the
/// turn ended, and the usage, whose total is the reported one or the sum.
pub proof fn law_end_finishes_the_answer(s: GeminiStep)
    requires
        0 <= count(s.state.usage.prompt_token_count) <= 0x1000_0000_0000,
        0 <= count(s.state.usage.candidates_token_count) <= 0x1000_0000_0000,
        0 <= count(s.state.usage.thoughts_token_count) <= 0x1000_0000_0000,
    ensures
        ({
            let done = flushed(s).events;
            let u = s.state.usage;
            let reason = s.state.finish_reason;
            let text = if s.state.message_item_added && s.state.assistant_text.len() > 0 {
                seq![
                    ResponseEventView::OutputItemDone(
                        ResponseItemView::Message {
                            id: None,
                            role: "assistant"@,
                            content: seq![
                                ContentItemView::OutputText { text: s.state.assistant_text },
                            ],
                            phase: None,
                        },
                    ),
                ]
            } else {
                Seq::empty()
            };
            &&& done.drop_last() == s.events + text + finished_calls(s.state.tool_calls)
            &&& done.last() matches ResponseEventView::Completed {
                response_id,
                token_usage,
                end_turn,
            } && {
                &&& s.state.response_id matches Some(id) ==> response_id == id
                &&& s.state.response_id is None ==> response_id.len() == 0
                &&& token_usage is None <==> u.prompt_token_count is None
                    && u.candidates_token_count is None && u.thoughts_token_count is None
                    && u.cached_content_token_count is None && u.total_token_count is None
                &&& token_usage matches Some(usage) ==> {
                    &&& usage.input_tokens == count(u.prompt_token_count)
                    &&& usage.output_tokens == count(u.candidates_token_count)
                    &&& usage.reasoning_output_tokens == count(u.thoughts_token_count)
                    &&& usage.cached_input_tokens == count(u.cached_content_token_count)
                    &&& u.total_token_count is Some ==> usage.total_tokens == count(
                        u.total_token_count,
                    )
                    &&& u.total_token_count is None ==> usage.total_tokens == usage.input_tokens
                        + usage.output_tokens + usage.reasoning_output_tokens
                }
                &&& reason == Some("STOP"@) ==> end_turn == Some(true)
                &&& reason == Some("MAX_TOKENS"@) || reason == Some("SAFETY"@) || reason == Some(
                    "RECITATION"@,
                ) || reason == Some("OTHER"@) || reason == Some("BLOCKLIST"@) || reason == Some(
                    "PROHIBITED_CONTENT"@,
                ) || reason == Some("SPII"@) ==> end_turn == Some(false)
                &&& reason is None ==> end_turn is None
            }
        }),
{
    lemma_reason_words();
    let text = crate::sse::finished_message(s.state.message_item_added, s.state.assistant_text);
    assert(flushed(s).events.drop_last() =~= s.events + text + finished_calls(s.state.tool_calls));
}

/// What the reader meets decides what becomes of the answer: a frame is taken in and
/// reading goes on, the end of the stream finishes the answer, an error, silence and
/// breakage break it off, and what is no document changes nothing.
pub proof fn law_inputs_are_answered(
    s: GeminiStep,
    input: SseInputView,
    data: Seq<char>,
    frame: JsonView,
    text: Seq<char>,
)
    ensures
        input == SseInputView::Data(data) && parsed_json(data) == Some(frame) && inside(
            frame,
            "error"@,
        ) is None ==> sse_step(s, input) == (frame_step(s, frame), VerdictView::Continue),
        input == SseInputView::Data(data) && parsed_json(data) == Some(frame) && inside(
            frame,
            "error"@,
        ) == Some(JsonView::Text(text)) ==> sse_step(s, input) == (s, VerdictView::Failed(text)),
        input == SseInputView::Data(data) && parsed_json(data) == Some(frame) && (inside(
            frame,
            "error"@,
        ) matches Some(error) && inside(error, "message"@) == Some(JsonView::Text(text)))
            ==> sse_step(s, input) == (s, VerdictView::Failed(text)),
        input == SseInputView::Data(data) && parsed_json(data) is None ==> sse_step(s, input) == (
            s,
            VerdictView::Continue,
        ),
        input == SseInputView::End ==> sse_step(s, input) == (flushed(s), VerdictView::Finished),
        input == SseInputView::Idle ==> sse_step(s, input).0 == s && sse_step(s, input).1 is Failed,
        input == SseInputView::Broken(text) ==> sse_step(s, input) == (
            s,
            VerdictView::Failed(text),
        ),
{
}

/// The texts of frames, one after the other.
pub open spec fn all_text(frames: Seq<JsonView>) -> Seq<char>
    decreases frames.len(),
{
    if frames.len() == 0 {
        Seq::empty()
    } else {
        all_text(frames.drop_last()) + plain_texts(frame_parts(frames.last()))
    }
}

/// The calls of frames, one after the other.
pub open spec fn all_calls(frames: Seq<JsonView>) -> Seq<JsonView>
    decreases frames.len(),
{
    if frames.len() == 0 {
        Seq::empty()
    } else {
        all_calls(frames.drop_last()) + calls_in(frame_parts(frames.last()))
    }
}

/// Whether an input is the frame of a document that reports no error.
pub open spec fn frame_of(input: SseInputView, frame: JsonView) -> bool {
    input matches SseInputView::Data(data) && parsed_json(data) == Some(frame) && inside(
        frame,
        "error"@,
    ) is None
}

/// The text of an answer is that of its frames, and its calls are those of its
/// frames, all of them in their order and each with its own arguments.
pub proof fn law_answer_is_that_of_its_frames(
    s: GeminiStep,
    inputs: Seq<SseInputView>,
    frames: Seq<JsonView>,
)
    requires
        inputs.len() == frames.len(),
        forall|i: int| 0 <= i < inputs.len() ==> frame_of(#[trigger] inputs[i], frames[i]),
    ensures
        stream(s, inputs).1 is Continue,
        stream(s, inputs).0.state.assistant_text == s.state.assistant_text + all_text(frames),
        calls_added(
            s.state.tool_calls,
            stream(s, inputs).0.state.tool_calls,
            all_calls(frames),
        ),
    decreases inputs.len(),
{
    if inputs.len() == 0 {
        assert(s.state.assistant_text + all_text(frames) =~= s.state.assistant_text);
    } else {
        let rest = inputs.drop_last();
        let earlier = frames.drop_last();
        assert forall|i: int| 0 <= i < rest.len() implies frame_of(#[trigger] rest[i], earlier[i]) by {
            assert(frame_of(inputs[i], frames[i]));
        }
        law_answer_is_that_of_its_frames(s, rest, earlier);
        let mid = stream(s, rest).0;
        let done = stream(s, inputs).0;
        assert(frame_of(inputs[inputs.len() - 1], frames[inputs.len() - 1]));
        assert(done == frame_step(mid, frames.last()));
        law_frames_add_their_parts(mid, frames.last());
        lemma_calls_added_more(
            s.state.tool_calls,
            mid.state.tool_calls,
            done.state.tool_calls,
            all_calls(earlier),
            calls_in(frame_parts(frames.last())),
        );
        assert(done.state.assistant_text =~= s.state.assistant_text + all_text(frames));
    }
}

} // verus!
