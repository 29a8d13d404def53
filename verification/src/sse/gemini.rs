//! Answers of the Gemini protocol.
//!
//! Every frame carries candidates with parts; text goes out as it comes, and the
//! finished message and the tool calls go out when the stream ends.

use vstd::prelude::*;
use vstd::string::*;

use crate::codec::parse_json;
use crate::codec::parsed_json;
use crate::codec::write_json;
use crate::codec::written;
use crate::events::ResponseEvent;
use crate::events::ResponseEventView;
use crate::json::bool_field;
use crate::json::doc_field;
use crate::json::docs;
use crate::json::list_field;
use crate::json::object;
use crate::json::object_doc;
use crate::json::opt_field;
use crate::json::or_empty;
use crate::json::pair_docs;
use crate::json::text_field;
use crate::json::doc_list;
use crate::json::doc_text;
use crate::json::Json;
use crate::json::JsonView;
use crate::models::TokenUsage;
use crate::sse::lemma_sound_items;
use crate::sse::lemma_sound_ended;
use crate::sse::ended_answer;
use crate::sse::anthropic::count_or_zero;
use crate::sse::anthropic::newer;
use crate::sse::anthropic::saturated_sum;
use crate::sse::anthropic::saturating_sum;
use crate::sse::call_item;
use crate::sse::delta_text;
use crate::sse::emit;
use crate::sse::finished_message;
use crate::sse::lemma_sound_created;
use crate::sse::lemma_sound_neutral;
use crate::sse::lemma_sound_opened;
use crate::sse::lemma_sound_piece;
use crate::sse::make_call_item;
use crate::sse::make_open_message;
use crate::sse::make_text_message;
use crate::sse::open_message;
use crate::sse::sound_answer;
use crate::sse::text_message;
use crate::sse::SseInput;
use crate::sse::SseInputView;
use crate::sse::StreamVerdict;
use crate::sse::VerdictView;
use crate::text::cat;
use crate::text::decimal;
use crate::text::same_text;
use crate::text::u64_text;
use crate::tool_name::flat_name;
use crate::tool_name::has_delimiter;
use crate::tool_name::law_namespaced_round_trip;
use crate::tool_name::tool_of_flat;
use crate::tool_name::ToolName;
use crate::tool_name::ToolNameView;

verus! {

/// A tool call of an answer, with its arguments as JSON text.
#[derive(Debug, Clone, PartialEq)]
pub struct GeminiCall {
    pub call_id: String,
    pub name: String,
    pub args: String,
}

/// What a `GeminiCall` means.
#[verifier::ext_equal]
pub struct GeminiCallView {
    pub call_id: Seq<char>,
    pub name: Seq<char>,
    pub args: Seq<char>,
}

impl View for GeminiCall {
    type V = GeminiCallView;

    open spec fn view(&self) -> GeminiCallView {
        GeminiCallView {
            call_id: self.call_id.deep_view(),
            name: self.name.deep_view(),
            args: self.args.deep_view(),
        }
    }
}

impl DeepView for GeminiCall {
    type V = GeminiCallView;

    open spec fn deep_view(&self) -> GeminiCallView {
        self.view()
    }
}

/// The usage reported so far. The protocol's input count includes cached input.
#[derive(Debug, Clone, Copy, PartialEq, Eq)]
pub struct GeminiUsageAccumulator {
    pub prompt_token_count: Option<i64>,
    pub candidates_token_count: Option<i64>,
    pub thoughts_token_count: Option<i64>,
    pub cached_content_token_count: Option<i64>,
    pub total_token_count: Option<i64>,
}

impl View for GeminiUsageAccumulator {
    type V = GeminiUsageAccumulator;

    open spec fn view(&self) -> GeminiUsageAccumulator {
        *self
    }
}

impl DeepView for GeminiUsageAccumulator {
    type V = GeminiUsageAccumulator;

    open spec fn deep_view(&self) -> GeminiUsageAccumulator {
        self.view()
    }
}

/// What is known of one answer so far, the tool calls in the order in which they
/// came.
#[derive(Debug, Clone, PartialEq)]
pub struct GeminiStreamState {
    pub created_emitted: bool,
    pub message_item_added: bool,
    pub assistant_text: String,
    pub tool_calls: Vec<GeminiCall>,
    pub response_id: Option<String>,
    pub finish_reason: Option<String>,
    pub usage: GeminiUsageAccumulator,
}

/// What a `GeminiStreamState` means.
#[verifier::ext_equal]
pub struct GeminiStreamStateView {
    pub created_emitted: bool,
    pub message_item_added: bool,
    pub assistant_text: Seq<char>,
    pub tool_calls: Seq<GeminiCallView>,
    pub response_id: Option<Seq<char>>,
    pub finish_reason: Option<Seq<char>>,
    pub usage: GeminiUsageAccumulator,
}

impl View for GeminiStreamState {
    type V = GeminiStreamStateView;

    open spec fn view(&self) -> GeminiStreamStateView {
        GeminiStreamStateView {
            created_emitted: self.created_emitted.deep_view(),
            message_item_added: self.message_item_added.deep_view(),
            assistant_text: self.assistant_text.deep_view(),
            tool_calls: self.tool_calls.deep_view(),
            response_id: self.response_id.deep_view(),
            finish_reason: self.finish_reason.deep_view(),
            usage: self.usage.deep_view(),
        }
    }
}

impl DeepView for GeminiStreamState {
    type V = GeminiStreamStateView;

    open spec fn deep_view(&self) -> GeminiStreamStateView {
        self.view()
    }
}

/// An answer so far, with the events that went out.
#[verifier::ext_equal]
pub struct GeminiStep {
    pub state: GeminiStreamStateView,
    pub events: Seq<ResponseEventView>,
}

/// The step with one more event.
pub open spec fn sent(s: GeminiStep, event: ResponseEventView) -> GeminiStep {
    GeminiStep { events: s.events.push(event), ..s }
}

/// The first frame announces the answer.
pub open spec fn announced(s: GeminiStep) -> GeminiStep {
    if s.state.created_emitted {
        s
    } else {
        sent(
            GeminiStep { state: GeminiStreamStateView { created_emitted: true, ..s.state }, ..s },
            ResponseEventView::Created,
        )
    }
}

/// The first id that a frame gives is kept.
pub open spec fn identified(s: GeminiStep, frame: JsonView) -> GeminiStep {
    if s.state.response_id is None {
        GeminiStep {
            state: GeminiStreamStateView { response_id: text_field(frame, "id"@), ..s.state },
            ..s
        }
    } else {
        s
    }
}

/// The message is announced before its first piece.
pub open spec fn opened(s: GeminiStep) -> GeminiStep {
    if s.state.message_item_added {
        s
    } else {
        sent(
            GeminiStep {
                state: GeminiStreamStateView { message_item_added: true, ..s.state },
                ..s
            },
            ResponseEventView::OutputItemAdded(open_message()),
        )
    }
}

/// The arguments of a function call as text; a call without arguments has an
/// empty object.
pub open spec fn call_args(function_call: JsonView) -> Seq<char> {
    let args = match doc_field(function_call, "args"@) {
        Some(a) => a,
        None => object_doc(Seq::empty()),
    };
    match written(args) {
        Some(t) => t,
        None => "{}"@,
    }
}

/// A function call: it gets the next id, and is announced.
pub open spec fn call_part(s: GeminiStep, function_call: JsonView) -> GeminiStep {
    let name = or_empty(text_field(function_call, "name"@));
    let call_id = "call_"@ + decimal(s.state.tool_calls.len());
    let tool = tool_of_flat(name);
    sent(
        GeminiStep {
            state: GeminiStreamStateView {
                tool_calls: s.state.tool_calls.push(
                    GeminiCallView { call_id, name, args: call_args(function_call) },
                ),
                ..s.state
            },
            ..s
        },
        ResponseEventView::OutputItemAdded(
            call_item(tool.name, tool.namespace, Seq::empty(), call_id),
        ),
    )
}

/// A piece of text or, when it is marked as a thought, of reasoning.
pub open spec fn text_part(s: GeminiStep, text: Seq<char>, thought: bool) -> GeminiStep {
    if text.len() == 0 {
        s
    } else {
        let o = opened(s);
        if thought {
            sent(o, ResponseEventView::ReasoningContentDelta { delta: text, content_index: 0 })
        } else {
            sent(
                GeminiStep {
                    state: GeminiStreamStateView {
                        assistant_text: o.state.assistant_text + text,
                        ..o.state
                    },
                    ..o
                },
                ResponseEventView::OutputTextDelta(text),
            )
        }
    }
}

/// One part of a candidate.
pub open spec fn part_step(s: GeminiStep, part: JsonView) -> GeminiStep {
    match doc_field(part, "functionCall"@) {
        Some(function_call) => call_part(s, function_call),
        None => text_part(
            s,
            or_empty(text_field(part, "text"@)),
            bool_field(part, "thought"@) == Some(true),
        ),
    }
}

/// Parts in order.
pub open spec fn part_steps(s: GeminiStep, parts: Seq<JsonView>) -> GeminiStep
    decreases parts.len(),
{
    if parts.len() == 0 {
        s
    } else {
        part_step(part_steps(s, parts.drop_last()), parts.last())
    }
}

/// The parts of a candidate, if it has any.
pub open spec fn candidate_parts(candidate: JsonView) -> Option<Seq<JsonView>> {
    match opt_field(doc_field(candidate, "content"@), "parts"@) {
        Some(parts) => doc_list(parts),
        None => None,
    }
}

/// One candidate: the reason to finish, then its parts.
pub open spec fn candidate_step(s: GeminiStep, candidate: JsonView) -> GeminiStep {
    let reason = text_field(candidate, "finishReason"@);
    let finished = if reason is Some {
        GeminiStep { state: GeminiStreamStateView { finish_reason: reason, ..s.state }, ..s }
    } else {
        s
    };
    match candidate_parts(candidate) {
        Some(parts) => part_steps(finished, parts),
        None => finished,
    }
}

/// Candidates in order.
pub open spec fn candidate_steps(s: GeminiStep, candidates: Seq<JsonView>) -> GeminiStep
    decreases candidates.len(),
{
    if candidates.len() == 0 {
        s
    } else {
        candidate_step(candidate_steps(s, candidates.drop_last()), candidates.last())
    }
}

/// The usage after a report: counts that it gives replace those known before.
pub open spec fn usage_after(usage: GeminiUsageAccumulator, report: JsonView) -> GeminiUsageAccumulator {
    GeminiUsageAccumulator {
        prompt_token_count: newer(report, "promptTokenCount"@, usage.prompt_token_count),
        candidates_token_count: newer(
            report,
            "candidatesTokenCount"@,
            usage.candidates_token_count,
        ),
        thoughts_token_count: newer(report, "thoughtsTokenCount"@, usage.thoughts_token_count),
        cached_content_token_count: newer(
            report,
            "cachedContentTokenCount"@,
            usage.cached_content_token_count,
        ),
        total_token_count: newer(report, "totalTokenCount"@, usage.total_token_count),
    }
}

/// What one frame does to an answer: the candidates, then the usage.
pub open spec fn frame_step(s: GeminiStep, frame: JsonView) -> GeminiStep {
    let ready = identified(announced(s), frame);
    let stepped = match list_field(frame, "candidates"@) {
        Some(candidates) => candidate_steps(ready, candidates),
        None => ready,
    };
    match doc_field(frame, "usageMetadata"@) {
        Some(report) => GeminiStep {
            state: GeminiStreamStateView {
                usage: usage_after(stepped.state.usage, report),
                ..stepped.state
            },
            ..stepped
        },
        None => stepped,
    }
}

/// The finished tool calls in order; one without name and arguments is left out.
pub open spec fn finished_calls(calls: Seq<GeminiCallView>) -> Seq<ResponseEventView>
    decreases calls.len(),
{
    if calls.len() == 0 {
        Seq::empty()
    } else {
        let before = finished_calls(calls.drop_last());
        let c = calls.last();
        if c.name.len() == 0 && c.args.len() == 0 {
            before
        } else {
            let tool = tool_of_flat(c.name);
            before.push(
                ResponseEventView::OutputItemDone(
                    call_item(tool.name, tool.namespace, c.args, c.call_id),
                ),
            )
        }
    }
}

/// Whether the turn ended, by the reason to finish: not when the answer was cut
/// off or blocked, and unknown for a reason that is not known.
pub open spec fn turn_ended(reason: Option<Seq<char>>) -> Option<bool> {
    match reason {
        None => None,
        Some(r) => if r == "STOP"@ {
            Some(true)
        } else if r == "MAX_TOKENS"@ || r == "SAFETY"@ || r == "RECITATION"@ || r == "OTHER"@ || r
            == "BLOCKLIST"@ || r == "PROHIBITED_CONTENT"@ || r == "SPII"@ {
            Some(false)
        } else {
            None
        },
    }
}

/// The usage of the answer, when any was reported. The total is the reported
/// one, or the sum of input, output and reasoning.
pub open spec fn total_usage(usage: GeminiUsageAccumulator) -> Option<TokenUsage> {
    if usage.prompt_token_count is None && usage.candidates_token_count is None
        && usage.thoughts_token_count is None && usage.cached_content_token_count is None
        && usage.total_token_count is None {
        None
    } else {
        let input = count_or_zero(usage.prompt_token_count);
        let output = count_or_zero(usage.candidates_token_count);
        let reasoning = count_or_zero(usage.thoughts_token_count);
        Some(
            TokenUsage {
                input_tokens: input,
                cached_input_tokens: count_or_zero(usage.cached_content_token_count),
                output_tokens: output,
                reasoning_output_tokens: reasoning,
                total_tokens: match usage.total_token_count {
                    Some(t) => t,
                    None => saturated_sum(saturated_sum(input, output), reasoning),
                },
            },
        )
    }
}

/// The end of an answer: the message, the tool calls and the completion.
pub open spec fn flushed(s: GeminiStep) -> GeminiStep {
    GeminiStep {
        state: GeminiStreamStateView { tool_calls: Seq::empty(), ..s.state },
        events: s.events + finished_message(s.state.message_item_added, s.state.assistant_text)
            + finished_calls(s.state.tool_calls) + seq![
            ResponseEventView::Completed {
                response_id: or_empty(s.state.response_id),
                token_usage: total_usage(s.state.usage),
                end_turn: turn_ended(s.state.finish_reason),
            },
        ],
    }
}

/// The error that a frame reports: the message of an error object, or an error
/// that is a text.
pub open spec fn frame_error(frame: JsonView) -> Option<Seq<char>> {
    match doc_field(frame, "error"@) {
        None => None,
        Some(error) => match text_field(error, "message"@) {
            Some(m) => Some(m),
            None => doc_text(error),
        },
    }
}

/// What one frame's data does: a frame that cannot be read is passed over, an
/// error frame breaks the answer off.
pub open spec fn data_step(s: GeminiStep, data: Seq<char>) -> (GeminiStep, VerdictView) {
    match parsed_json(data) {
        None => (s, VerdictView::Continue),
        Some(frame) => match frame_error(frame) {
            Some(message) => (s, VerdictView::Failed(message)),
            None => (frame_step(s, frame), VerdictView::Continue),
        },
    }
}

/// What the reader of a stream does next: data is taken in, the end of the
/// stream ends the answer, silence or a broken stream break it off.
pub open spec fn sse_step(s: GeminiStep, input: SseInputView) -> (GeminiStep, VerdictView) {
    match input {
        SseInputView::Data(data) => data_step(s, data),
        SseInputView::End => (flushed(s), VerdictView::Finished),
        SseInputView::Idle => (s, VerdictView::Failed("idle timeout waiting for Gemini SSE"@)),
        SseInputView::Broken(reason) => (s, VerdictView::Failed(reason)),
    }
}

/// Whether every tool call has the id of its place.
pub open spec fn calls_numbered(calls: Seq<GeminiCallView>) -> bool {
    forall|i: int| 0 <= i < calls.len() ==> (#[trigger] calls[i]).call_id == "call_"@ + decimal(i as nat)
}

/// What holds of every answer of this protocol while it is assembled.
pub open spec fn sound(s: GeminiStep) -> bool {
    &&& sound_answer(
        s.events,
        s.state.created_emitted,
        s.state.message_item_added,
        s.state.assistant_text,
    )
    &&& calls_numbered(s.state.tool_calls)
}

/// The answer so far, as a step.
pub open spec fn step_of(state: GeminiStreamState, events: Seq<ResponseEventView>) -> GeminiStep {
    GeminiStep { state: state@, events }
}

impl Default for GeminiStreamState {
    fn default() -> (r: GeminiStreamState)
        ensures
            r@ == (GeminiStreamStateView {
                created_emitted: false,
                message_item_added: false,
                assistant_text: Seq::empty(),
                tool_calls: Seq::empty(),
                response_id: None,
                finish_reason: None,
                usage: GeminiUsageAccumulator {
                    prompt_token_count: None,
                    candidates_token_count: None,
                    thoughts_token_count: None,
                    cached_content_token_count: None,
                    total_token_count: None,
                },
            }),
    {
        let r = GeminiStreamState {
            created_emitted: false,
            message_item_added: false,
            assistant_text: String::new(),
            tool_calls: Vec::new(),
            response_id: None,
            finish_reason: None,
            usage: GeminiUsageAccumulator {
                prompt_token_count: None,
                candidates_token_count: None,
                thoughts_token_count: None,
                cached_content_token_count: None,
                total_token_count: None,
            },
        };
        assert(r.tool_calls.deep_view() =~= Seq::<GeminiCallView>::empty());
        r
    }
}

/// Announces the message before its first piece.
fn ensure_message_item(state: &mut GeminiStreamState, events: &mut Vec<ResponseEvent>)
    ensures
        step_of(*final(state), final(events).deep_view()) == opened(
            step_of(*old(state), old(events).deep_view()),
        ),
{
    if !state.message_item_added {
        emit(events, ResponseEvent::OutputItemAdded(make_open_message()));
        state.message_item_added = true;
    }
}

fn args_text(function_call: &Json) -> (r: String)
    ensures
        r@ == call_args(function_call@),
{
    let text = match function_call.get("args") {
        Some(args) => write_json(args),
        None => {
            let fields: Vec<(String, Json)> = Vec::new();
            assert(pair_docs(fields@) =~= Seq::<(Seq<char>, JsonView)>::empty());
            write_json(&object(fields))
        },
    };
    match text {
        Some(t) => t,
        None => "{}".to_owned(),
    }
}

/// Takes in one part of a candidate.
pub fn process_part(state: &mut GeminiStreamState, part: &Json, events: &mut Vec<ResponseEvent>)
    ensures
        step_of(*final(state), final(events).deep_view()) == part_step(
            step_of(*old(state), old(events).deep_view()),
            part@,
        ),
{
    if let Some(function_call) = part.get("functionCall") {
        let name = match function_call.text_at("name") {
            Some(name) => name,
            None => String::new(),
        };
        let args = args_text(function_call);
        let call_id = cat("call_", u64_text(state.tool_calls.len() as u64).as_str());
        let tool = ToolName::from_flat_wire_name(name.as_str());
        emit(
            events,
            ResponseEvent::OutputItemAdded(
                make_call_item(tool.name, tool.namespace, String::new(), call_id.clone()),
            ),
        );
        let ghost before = state@.tool_calls;
        let call = GeminiCall { call_id, name, args };
        state.tool_calls.push(call);
        assert(state.tool_calls.deep_view() =~= before.push(call@));
        return;
    }
    let thought = match part.bool_at("thought") {
        Some(t) => t,
        None => false,
    };
    if let Some(text) = part.text_at("text") {
        if !text.as_str().is_empty() {
            ensure_message_item(state, events);
            if thought {
                emit(
                    events,
                    ResponseEvent::ReasoningContentDelta { delta: text, content_index: 0 },
                );
            } else {
                state.assistant_text.append(text.as_str());
                emit(events, ResponseEvent::OutputTextDelta(text));
            }
        }
    }
}

fn take_candidate(state: &mut GeminiStreamState, candidate: &Json, events: &mut Vec<ResponseEvent>)
    ensures
        step_of(*final(state), final(events).deep_view()) == candidate_step(
            step_of(*old(state), old(events).deep_view()),
            candidate@,
        ),
{
    if let Some(reason) = candidate.text_at("finishReason") {
        state.finish_reason = Some(reason);
    }
    let ghost finished = step_of(*state, events.deep_view());
    if let Some(content) = candidate.get("content") {
        if let Some(parts) = content.list_at("parts") {
            let ghost all = docs(parts@);
            let mut i: usize = 0;
            assert(all.take(0) =~= Seq::<JsonView>::empty());
            while i < parts.len()
                invariant
                    i <= parts@.len(),
                    all == docs(parts@),
                    step_of(*state, events.deep_view()) == part_steps(
                        finished,
                        all.take(i as int),
                    ),
                decreases parts@.len() - i,
            {
                proof {
                    assert(all.take(i + 1).drop_last() =~= all.take(i as int));
                    assert(all.take(i + 1).last() == parts@[i as int]@);
                }
                process_part(state, &parts[i], events);
                i += 1;
            }
            assert(all.take(i as int) =~= all);
        }
    }
}

/// Takes a usage report in.
pub fn apply_usage(usage: &mut GeminiUsageAccumulator, report: &Json)
    ensures
        *final(usage) == usage_after(*old(usage), report@),
{
    if let Some(v) = report.i64_at("promptTokenCount") {
        usage.prompt_token_count = Some(v);
    }
    if let Some(v) = report.i64_at("candidatesTokenCount") {
        usage.candidates_token_count = Some(v);
    }
    if let Some(v) = report.i64_at("thoughtsTokenCount") {
        usage.thoughts_token_count = Some(v);
    }
    if let Some(v) = report.i64_at("cachedContentTokenCount") {
        usage.cached_content_token_count = Some(v);
    }
    if let Some(v) = report.i64_at("totalTokenCount") {
        usage.total_token_count = Some(v);
    }
}

/// Takes in one frame: the state is brought up to date, and what the frame
/// shows goes out as events.
pub fn process_frame(state: &mut GeminiStreamState, frame: &Json, events: &mut Vec<ResponseEvent>)
    ensures
        step_of(*final(state), final(events).deep_view()) == frame_step(
            step_of(*old(state), old(events).deep_view()),
            frame@,
        ),
{
    if !state.created_emitted {
        emit(events, ResponseEvent::Created);
        state.created_emitted = true;
    }
    if state.response_id.is_none() {
        state.response_id = frame.text_at("id");
    }
    let ghost ready = step_of(*state, events.deep_view());
    assert(ready == identified(
        announced(step_of(*old(state), old(events).deep_view())),
        frame@,
    ));
    if let Some(candidates) = frame.list_at("candidates") {
        let ghost all = docs(candidates@);
        let mut i: usize = 0;
        assert(all.take(0) =~= Seq::<JsonView>::empty());
        while i < candidates.len()
            invariant
                i <= candidates@.len(),
                all == docs(candidates@),
                step_of(*state, events.deep_view()) == candidate_steps(ready, all.take(i as int)),
            decreases candidates@.len() - i,
        {
            proof {
                assert(all.take(i + 1).drop_last() =~= all.take(i as int));
                assert(all.take(i + 1).last() == candidates@[i as int]@);
            }
            take_candidate(state, &candidates[i], events);
            i += 1;
        }
        assert(all.take(i as int) =~= all);
    }
    if let Some(report) = frame.get("usageMetadata") {
        apply_usage(&mut state.usage, report);
    }
}

fn or_zero(count: Option<i64>) -> (r: i64)
    ensures
        r == count_or_zero(count),
{
    match count {
        Some(c) => c,
        None => 0,
    }
}

/// The usage of the answer, when any was reported.
pub fn build_token_usage(usage: &GeminiUsageAccumulator) -> (r: Option<TokenUsage>)
    ensures
        r == total_usage(*usage),
{
    if usage.prompt_token_count.is_none() && usage.candidates_token_count.is_none()
        && usage.thoughts_token_count.is_none() && usage.cached_content_token_count.is_none()
        && usage.total_token_count.is_none() {
        return None;
    }
    let input_tokens: i64 = or_zero(usage.prompt_token_count);
    let output_tokens: i64 = or_zero(usage.candidates_token_count);
    let reasoning_output_tokens: i64 = or_zero(usage.thoughts_token_count);
    let total_tokens: i64 = match usage.total_token_count {
        Some(t) => t,
        None => saturating_sum(
            saturating_sum(input_tokens, output_tokens),
            reasoning_output_tokens,
        ),
    };
    Some(
        TokenUsage {
            input_tokens,
            cached_input_tokens: or_zero(usage.cached_content_token_count),
            output_tokens,
            reasoning_output_tokens,
            total_tokens,
        },
    )
}

fn ended(reason: &Option<String>) -> (r: Option<bool>)
    ensures
        r == turn_ended(reason.deep_view()),
{
    match reason {
        None => None,
        Some(r) => {
            let r = r.as_str();
            if same_text(r, "STOP") {
                Some(true)
            } else if same_text(r, "MAX_TOKENS") || same_text(r, "SAFETY") || same_text(
                r,
                "RECITATION",
            ) || same_text(r, "OTHER") || same_text(r, "BLOCKLIST") || same_text(
                r,
                "PROHIBITED_CONTENT",
            ) || same_text(r, "SPII") {
                Some(false)
            } else {
                None
            }
        },
    }
}

/// Ends the answer: the message, the tool calls in their order, and the
/// completion go out.
pub fn flush(state: &mut GeminiStreamState, events: &mut Vec<ResponseEvent>)
    ensures
        step_of(*final(state), final(events).deep_view()) == flushed(
            step_of(*old(state), old(events).deep_view()),
        ),
{
    let ghost start = old(events).deep_view();
    let ghost before = old(state)@;
    if state.message_item_added && !state.assistant_text.as_str().is_empty() {
        emit(
            events,
            ResponseEvent::OutputItemDone(make_text_message(state.assistant_text.clone())),
        );
    }
    let ghost messaged = start + finished_message(before.message_item_added, before.assistant_text);
    assert(events.deep_view() =~= messaged);
    let mut calls: Vec<GeminiCall> = Vec::new();
    std::mem::swap(&mut state.tool_calls, &mut calls);
    assert(state.tool_calls.deep_view() =~= Seq::<GeminiCallView>::empty());
    let ghost all = calls.deep_view();
    assert(all.take(0) =~= Seq::<GeminiCallView>::empty());
    assert(events.deep_view() =~= messaged + finished_calls(all.take(0)));
    for call in it: calls
        invariant
            it.seq() == calls@,
            all == calls.deep_view(),
            events.deep_view() == messaged + finished_calls(all.take(it.index() as int)),
    {
        proof {
            let i = it.index() as int;
            assert(all.take(i + 1).drop_last() =~= all.take(i));
            assert(all.take(i + 1).last() == call@);
        }
        if !(call.name.as_str().is_empty() && call.args.as_str().is_empty()) {
            let ghost c = call@;
            let ghost named = tool_of_flat(c.name);
            let ghost done = ResponseEventView::OutputItemDone(
                call_item(named.name, named.namespace, c.args, c.call_id),
            );
            let tool = ToolName::from_flat_wire_name(call.name.as_str());
            emit(
                events,
                ResponseEvent::OutputItemDone(
                    make_call_item(tool.name, tool.namespace, call.args, call.call_id),
                ),
            );
            proof {
                let i = it.index() as int;
                assert(events.deep_view() =~= messaged + finished_calls(all.take(i)).push(done));
            }
        }
    }
    assert(all.take(all.len() as int) =~= all);
    let end_turn = ended(&state.finish_reason);
    let response_id = match &state.response_id {
        Some(id) => id.clone(),
        None => String::new(),
    };
    let token_usage = build_token_usage(&state.usage);
    emit(events, ResponseEvent::Completed { response_id, token_usage, end_turn });
    assert(events.deep_view() =~= flushed(step_of(*old(state), start)).events);
}

/// The error that a frame reports, if it reports one.
pub fn extract_stream_error(frame: &Json) -> (r: Option<String>)
    ensures
        r.deep_view() == frame_error(frame@),
{
    let error = match frame.get("error") {
        Some(error) => error,
        None => {
            return None;
        },
    };
    match error.text_at("message") {
        Some(message) => Some(message),
        None => match error.as_text() {
            Some(text) => Some(text.clone()),
            None => None,
        },
    }
}

/// Takes in what the reader of a stream meets next, and says whether more is
/// read.
pub fn process_gemini_sse(
    state: &mut GeminiStreamState,
    input: &SseInput,
    events: &mut Vec<ResponseEvent>,
) -> (r: StreamVerdict)
    ensures
        (step_of(*final(state), final(events).deep_view()), r@) == sse_step(
            step_of(*old(state), old(events).deep_view()),
            input@,
        ),
{
    match input {
        SseInput::Data(data) => match parse_json(data.as_str()) {
            None => StreamVerdict::Continue,
            Some(frame) => match extract_stream_error(&frame) {
                Some(message) => StreamVerdict::Failed(message),
                None => {
                    process_frame(state, &frame, events);
                    StreamVerdict::Continue
                },
            },
        },
        SseInput::End => {
            flush(state, events);
            StreamVerdict::Finished
        },
        SseInput::Idle => StreamVerdict::Failed("idle timeout waiting for Gemini SSE".to_owned()),
        SseInput::Broken(reason) => StreamVerdict::Failed(reason.clone()),
    }
}

proof fn lemma_part_sound(s: GeminiStep, part: JsonView)
    requires
        sound(s),
    ensures
        sound(part_step(s, part)),
{
    match doc_field(part, "functionCall"@) {
        Some(function_call) => {
            let name = or_empty(text_field(function_call, "name"@));
            let tool = tool_of_flat(name);
            lemma_sound_neutral(
                s.events,
                s.state.created_emitted,
                s.state.message_item_added,
                s.state.assistant_text,
                ResponseEventView::OutputItemAdded(
                    call_item(
                        tool.name,
                        tool.namespace,
                        Seq::empty(),
                        "call_"@ + decimal(s.state.tool_calls.len()),
                    ),
                ),
            );
        },
        None => {
            let text = or_empty(text_field(part, "text"@));
            lemma_sound_opened(
                s.events,
                s.state.created_emitted,
                s.state.message_item_added,
                s.state.assistant_text,
            );
            let o = opened(s);
            lemma_sound_piece(
                o.events,
                o.state.created_emitted,
                o.state.assistant_text,
                ResponseEventView::ReasoningContentDelta { delta: text, content_index: 0 },
            );
            lemma_sound_piece(
                o.events,
                o.state.created_emitted,
                o.state.assistant_text,
                ResponseEventView::OutputTextDelta(text),
            );
        },
    }
}

proof fn lemma_parts_sound(s: GeminiStep, parts: Seq<JsonView>)
    requires
        sound(s),
    ensures
        sound(part_steps(s, parts)),
    decreases parts.len(),
{
    if parts.len() > 0 {
        lemma_parts_sound(s, parts.drop_last());
        lemma_part_sound(part_steps(s, parts.drop_last()), parts.last());
    }
}

proof fn lemma_candidates_sound(s: GeminiStep, candidates: Seq<JsonView>)
    requires
        sound(s),
    ensures
        sound(candidate_steps(s, candidates)),
    decreases candidates.len(),
{
    if candidates.len() > 0 {
        let before = candidate_steps(s, candidates.drop_last());
        lemma_candidates_sound(s, candidates.drop_last());
        let candidate = candidates.last();
        let reason = text_field(candidate, "finishReason"@);
        let finished = if reason is Some {
            GeminiStep {
                state: GeminiStreamStateView { finish_reason: reason, ..before.state },
                ..before
            }
        } else {
            before
        };
        assert(sound(finished));
        if let Some(parts) = candidate_parts(candidate) {
            lemma_parts_sound(finished, parts);
        }
    }
}

/// Every frame keeps an answer sound: it is announced at most once, every piece
/// of the message comes after the message is announced, the text is that of
/// the pieces, and every tool call has the id of its place.
pub proof fn law_frame_keeps_sound(s: GeminiStep, frame: JsonView)
    requires
        sound(s),
    ensures
        sound(frame_step(s, frame)),
{
    if !s.state.created_emitted {
        lemma_sound_created(s.events, s.state.message_item_added, s.state.assistant_text);
    }
    let ready = identified(announced(s), frame);
    assert(sound(ready));
    if let Some(candidates) = list_field(frame, "candidates"@) {
        lemma_candidates_sound(ready, candidates);
    }
}

/// An answer of which nothing is known yet is sound.
pub proof fn law_fresh_answer_is_sound(s: GeminiStep)
    requires
        s.events.len() == 0,
        !s.state.created_emitted,
        !s.state.message_item_added,
        s.state.assistant_text.len() == 0,
        s.state.tool_calls.len() == 0,
    ensures
        sound(s),
{
    assert(s.state.assistant_text =~= Seq::<char>::empty());
}

/// A call under the flat name of a namespaced tool goes out as a call of that
/// tool in its namespace, unless the namespace contains the delimiter or ends
/// with half of it.
pub proof fn law_namespaced_call_is_restored(
    calls: Seq<GeminiCallView>,
    i: int,
    namespace: Seq<char>,
    name: Seq<char>,
)
    requires
        0 <= i < calls.len(),
        calls[i].name == flat_name(ToolNameView { name, namespace: Some(namespace) }),
        !has_delimiter(namespace),
        namespace.len() > 0 ==> namespace.last() != '_',
    ensures
        finished_calls(calls).contains(
            ResponseEventView::OutputItemDone(
                call_item(name, Some(namespace), calls[i].args, calls[i].call_id),
            ),
        ),
    decreases calls.len(),
{
    let done = ResponseEventView::OutputItemDone(
        call_item(name, Some(namespace), calls[i].args, calls[i].call_id),
    );
    let before = finished_calls(calls.drop_last());
    let all = finished_calls(calls);
    if i == calls.len() - 1 {
        law_namespaced_round_trip(namespace, name);
        assert(calls.last().name.len() >= 2);
        assert(all[before.len() as int] == done);
    } else {
        law_namespaced_call_is_restored(calls.drop_last(), i, namespace, name);
        let k = choose|k: int| 0 <= k < before.len() && before[k] == done;
        assert(all[k] == done);
    }
}

/// The text of the finished message is that of the pieces that went out.
pub proof fn law_finished_text_is_delta_text(s: GeminiStep)
    requires
        sound(s),
        s.state.message_item_added,
        s.state.assistant_text.len() > 0,
    ensures
        flushed(s).events[s.events.len() as int] == ResponseEventView::OutputItemDone(
            text_message(delta_text(s.events)),
        ),
{
}

proof fn lemma_finished_calls_are_items(calls: Seq<GeminiCallView>, i: int)
    requires
        0 <= i < finished_calls(calls).len(),
    ensures
        finished_calls(calls)[i] is OutputItemDone,
    decreases calls.len(),
{
    if calls.len() > 0 && i < finished_calls(calls.drop_last()).len() {
        lemma_finished_calls_are_items(calls.drop_last(), i);
    }
}

proof fn lemma_flushed_ended(s: GeminiStep)
    requires
        sound(s),
    ensures
        ended_answer(flushed(s).events),
{
    let message = finished_message(s.state.message_item_added, s.state.assistant_text);
    let calls = finished_calls(s.state.tool_calls);
    let items = message + calls;
    assert forall|i: int| 0 <= i < items.len() implies #[trigger] items[i] is OutputItemDone by {
        if i >= message.len() {
            lemma_finished_calls_are_items(s.state.tool_calls, i - message.len());
        }
    }
    lemma_sound_items(
        s.events,
        s.state.created_emitted,
        s.state.message_item_added,
        s.state.assistant_text,
        items,
    );
    let last = flushed(s).events.last();
    lemma_sound_ended(
        s.events + items,
        s.state.created_emitted,
        s.state.message_item_added,
        s.state.assistant_text,
        last,
    );
    assert((s.events + items).push(last) =~= flushed(s).events);
}

/// Whatever the reader of a stream meets: while it reads on or the answer breaks
/// off, the answer is sound and its end was not told, and when the answer is
/// complete it has ended, once and with its last event.
pub proof fn law_input_keeps_sound(s: GeminiStep, input: SseInputView)
    requires
        sound(s),
    ensures
        sse_step(s, input).1 is Finished ==> ended_answer(sse_step(s, input).0.events),
        !(sse_step(s, input).1 is Finished) ==> sound(sse_step(s, input).0),
{
    lemma_flushed_ended(s);
    if let SseInputView::Data(data) = input {
        if let Some(frame) = parsed_json(data) {
            law_frame_keeps_sound(s, frame);
        }
    }
}

/// What a stream does to an answer: its inputs are taken in order until the
/// answer is complete or broke off.
pub open spec fn stream(s: GeminiStep, inputs: Seq<SseInputView>) -> (GeminiStep, VerdictView)
    decreases inputs.len(),
{
    if inputs.len() == 0 {
        (s, VerdictView::Continue)
    } else {
        let before = stream(s, inputs.drop_last());
        if before.1 is Continue {
            sse_step(before.0, inputs.last())
        } else {
            before
        }
    }
}

/// Every stream makes a sound answer, and one that completes it ends it once.
pub proof fn law_stream_is_sound(s: GeminiStep, inputs: Seq<SseInputView>)
    requires
        sound(s),
    ensures
        stream(s, inputs).1 is Finished ==> ended_answer(stream(s, inputs).0.events),
        !(stream(s, inputs).1 is Finished) ==> sound(stream(s, inputs).0),
    decreases inputs.len(),
{
    if inputs.len() > 0 {
        law_stream_is_sound(s, inputs.drop_last());
        let before = stream(s, inputs.drop_last());
        if before.1 is Continue {
            law_input_keeps_sound(before.0, inputs.last());
        }
    }
}

} // verus!
