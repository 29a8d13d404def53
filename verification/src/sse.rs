//! Assembling streamed answers: each protocol's frames become the events of one
//! vocabulary.

use vstd::prelude::*;

use crate::events::ResponseEvent;
use crate::events::ResponseEventView;
use crate::models::ContentItem;
use crate::models::ContentItemView;
use crate::models::ResponseItem;
use crate::models::ResponseItemView;

pub mod anthropic;
pub mod anthropic_laws;
pub mod chat;
pub mod chat_frame;
pub mod chat_laws;
pub mod gemini;
pub mod gemini_laws;

verus! {

/// What the reader of a stream meets next.
#[derive(Debug, Clone, PartialEq)]
pub enum SseInput {
    /// The data of one frame.
    Data(String),
    /// The end of the stream.
    End,
    /// Nothing for longer than the idle timeout.
    Idle,
    /// The stream broke, for the given reason.
    Broken(String),
}

/// What a `SseInput` means.
#[verifier::ext_equal]
pub enum SseInputView {
    Data(Seq<char>),
    End,
    Idle,
    Broken(Seq<char>),
}

impl View for SseInput {
    type V = SseInputView;

    open spec fn view(&self) -> SseInputView {
        match self {
            SseInput::Data(s) => SseInputView::Data(s@),
            SseInput::End => SseInputView::End,
            SseInput::Idle => SseInputView::Idle,
            SseInput::Broken(s) => SseInputView::Broken(s@),
        }
    }
}

/// Whether a stream goes on after a frame.
#[derive(Debug, Clone, PartialEq)]
pub enum StreamVerdict {
    /// More frames are read.
    Continue,
    /// The answer is complete.
    Finished,
    /// The answer broke off with this message.
    Failed(String),
}

/// What a `StreamVerdict` means.
#[verifier::ext_equal]
pub enum VerdictView {
    Continue,
    Finished,
    Failed(Seq<char>),
}

impl View for StreamVerdict {
    type V = VerdictView;

    open spec fn view(&self) -> VerdictView {
        match self {
            StreamVerdict::Continue => VerdictView::Continue,
            StreamVerdict::Finished => VerdictView::Finished,
            StreamVerdict::Failed(s) => VerdictView::Failed(s@),
        }
    }
}

/// The item that is announced before the text of an assistant message.
pub open spec fn open_message() -> ResponseItemView {
    ResponseItemView::Message { id: None, role: "assistant"@, content: Seq::empty(), phase: None }
}

/// The finished assistant message with a text.
pub open spec fn text_message(text: Seq<char>) -> ResponseItemView {
    ResponseItemView::Message {
        id: None,
        role: "assistant"@,
        content: seq![ContentItemView::OutputText { text }],
        phase: None,
    }
}

/// The finished message, when there is text.
pub open spec fn finished_message(opened: bool, text: Seq<char>) -> Seq<ResponseEventView> {
    if opened && text.len() > 0 {
        seq![ResponseEventView::OutputItemDone(text_message(text))]
    } else {
        Seq::empty()
    }
}

/// A tool call item.
pub open spec fn call_item(
    name: Seq<char>,
    namespace: Option<Seq<char>>,
    arguments: Seq<char>,
    call_id: Seq<char>,
) -> ResponseItemView {
    ResponseItemView::FunctionCall { id: None, name, namespace, arguments, call_id }
}

/// The item that is announced before the text of an assistant message.
pub fn make_open_message() -> (r: ResponseItem)
    ensures
        r@ == open_message(),
{
    let content: Vec<ContentItem> = Vec::new();
    assert(content.deep_view() =~= Seq::<ContentItemView>::empty());
    ResponseItem::Message { id: None, role: "assistant".to_owned(), content, phase: None }
}

/// The finished assistant message with a text.
pub fn make_text_message(text: String) -> (r: ResponseItem)
    ensures
        r@ == text_message(text@),
{
    let mut content: Vec<ContentItem> = Vec::new();
    content.push(ContentItem::OutputText { text });
    assert(content.deep_view() =~= seq![ContentItemView::OutputText { text: text@ }]);
    ResponseItem::Message { id: None, role: "assistant".to_owned(), content, phase: None }
}

/// A tool call item.
pub fn make_call_item(
    name: String,
    namespace: Option<String>,
    arguments: String,
    call_id: String,
) -> (r: ResponseItem)
    ensures
        r@ == call_item(name@, namespace.deep_view(), arguments@, call_id@),
{
    ResponseItem::FunctionCall { id: None, name, namespace, arguments, call_id }
}

/// Adds one event to those that go out.
pub fn emit(events: &mut Vec<ResponseEvent>, event: ResponseEvent)
    ensures
        final(events).deep_view() == old(events).deep_view().push(event@),
{
    events.push(event);
    assert(events.deep_view() =~= old(events).deep_view().push(event@));
}

/// The texts of the output deltas, one after the other.
pub open spec fn delta_text(events: Seq<ResponseEventView>) -> Seq<char>
    decreases events.len(),
{
    if events.len() == 0 {
        Seq::empty()
    } else {
        match events.last() {
            ResponseEventView::OutputTextDelta(t) => delta_text(events.drop_last()) + t,
            _ => delta_text(events.drop_last()),
        }
    }
}

/// How many times the answer was announced.
pub open spec fn created_count(events: Seq<ResponseEventView>) -> nat
    decreases events.len(),
{
    if events.len() == 0 {
        0
    } else {
        created_count(events.drop_last()) + if events.last() is Created {
            1nat
        } else {
            0nat
        }
    }
}

/// Whether an event announces the assistant message.
pub open spec fn opens_message(event: ResponseEventView) -> bool {
    event == ResponseEventView::OutputItemAdded(open_message())
}

/// Whether the assistant message was announced.
pub open spec fn message_opened(events: Seq<ResponseEventView>) -> bool {
    exists|i: int| 0 <= i < events.len() && opens_message(#[trigger] events[i])
}

/// Whether an event carries a piece of the message: a consumer needs the
/// message to be announced before.
pub open spec fn needs_message(event: ResponseEventView) -> bool {
    event is OutputTextDelta || event is ReasoningContentDelta
}

/// Whether every piece of the message comes after its announcement.
pub open spec fn pieces_follow_opening(events: Seq<ResponseEventView>) -> bool {
    forall|i: int|
        0 <= i < events.len() && needs_message(#[trigger] events[i]) ==> message_opened(
            events.take(i),
        )
}

/// Whether the end of the answer is not among the events.
pub open spec fn unfinished(events: Seq<ResponseEventView>) -> bool {
    forall|i: int| 0 <= i < events.len() ==> !(#[trigger] events[i] is Completed)
}

/// What holds of every answer that came to its end: it was announced once if at
/// all, every piece comes after the announcement of the message, and the end is
/// the last event and there once.
pub open spec fn ended_answer(events: Seq<ResponseEventView>) -> bool {
    &&& events.len() > 0
    &&& events.last() is Completed
    &&& unfinished(events.drop_last())
    &&& created_count(events) <= 1
    &&& pieces_follow_opening(events)
}

/// What holds of every answer while it is assembled: it was announced once if
/// at all, its text is that of the deltas, every piece comes after the
/// announcement of the message, and the end is not there yet.
pub open spec fn sound_answer(
    events: Seq<ResponseEventView>,
    created: bool,
    opened: bool,
    text: Seq<char>,
) -> bool {
    &&& created_count(events) == (if created {
        1nat
    } else {
        0nat
    })
    &&& message_opened(events) == opened
    &&& delta_text(events) == text
    &&& pieces_follow_opening(events)
    &&& unfinished(events)
}

/// One more event that announces nothing and carries no piece keeps an answer
/// sound.
pub proof fn lemma_sound_neutral(
    events: Seq<ResponseEventView>,
    created: bool,
    opened: bool,
    text: Seq<char>,
    event: ResponseEventView,
)
    requires
        sound_answer(events, created, opened, text),
        !(event is Created),
        !(event is Completed),
        !needs_message(event),
        !opens_message(event),
    ensures
        sound_answer(events.push(event), created, opened, text),
{
    lemma_push(events, event);
}

/// The end of a sound answer makes it an ended one.
pub proof fn lemma_sound_ended(
    events: Seq<ResponseEventView>,
    created: bool,
    opened: bool,
    text: Seq<char>,
    event: ResponseEventView,
)
    requires
        sound_answer(events, created, opened, text),
        event is Completed,
    ensures
        ended_answer(events.push(event)),
{
    lemma_push(events, event);
    assert(events.push(event).drop_last() =~= events);
}

/// Finished items keep an answer sound.
pub proof fn lemma_sound_items(
    events: Seq<ResponseEventView>,
    created: bool,
    opened: bool,
    text: Seq<char>,
    more: Seq<ResponseEventView>,
)
    requires
        sound_answer(events, created, opened, text),
        forall|i: int| 0 <= i < more.len() ==> #[trigger] more[i] is OutputItemDone,
    ensures
        sound_answer(events + more, created, opened, text),
    decreases more.len(),
{
    if more.len() == 0 {
        assert(events + more =~= events);
    } else {
        let rest = more.drop_last();
        assert forall|i: int| 0 <= i < rest.len() implies #[trigger] rest[i] is OutputItemDone by {
            assert(rest[i] == more[i]);
        }
        lemma_sound_items(events, created, opened, text, rest);
        assert(more[more.len() - 1] is OutputItemDone);
        lemma_sound_neutral(events + rest, created, opened, text, more.last());
        assert((events + rest).push(more.last()) =~= events + more);
    }
}

/// The announcement of the answer keeps it sound.
pub proof fn lemma_sound_created(
    events: Seq<ResponseEventView>,
    opened: bool,
    text: Seq<char>,
)
    requires
        sound_answer(events, false, opened, text),
    ensures
        sound_answer(events.push(ResponseEventView::Created), true, opened, text),
{
    lemma_push(events, ResponseEventView::Created);
}

/// The announcement of the message keeps an answer sound.
pub proof fn lemma_sound_opened(events: Seq<ResponseEventView>, created: bool, opened: bool, text: Seq<char>)
    requires
        sound_answer(events, created, opened, text),
    ensures
        sound_answer(
            events.push(ResponseEventView::OutputItemAdded(open_message())),
            created,
            true,
            text,
        ),
{
    let event = ResponseEventView::OutputItemAdded(open_message());
    lemma_push(events, event);
    assert(opens_message(events.push(event)[events.len() as int]));
}

/// A piece of the message keeps an answer sound once the message is announced.
pub proof fn lemma_sound_piece(
    events: Seq<ResponseEventView>,
    created: bool,
    text: Seq<char>,
    event: ResponseEventView,
)
    requires
        sound_answer(events, created, true, text),
        needs_message(event),
    ensures
        event matches ResponseEventView::OutputTextDelta(t) ==> sound_answer(
            events.push(event),
            created,
            true,
            text + t,
        ),
        event is ReasoningContentDelta ==> sound_answer(events.push(event), created, true, text),
{
    lemma_push(events, event);
}

proof fn lemma_push(events: Seq<ResponseEventView>, event: ResponseEventView)
    ensures
        delta_text(events.push(event)) == (match event {
            ResponseEventView::OutputTextDelta(t) => delta_text(events) + t,
            _ => delta_text(events),
        }),
        created_count(events.push(event)) == created_count(events) + (if event is Created {
            1nat
        } else {
            0nat
        }),
        message_opened(events.push(event)) == (message_opened(events) || opens_message(event)),
        pieces_follow_opening(events.push(event)) == (pieces_follow_opening(events) && (
        needs_message(event) ==> message_opened(events))),
{
    let more = events.push(event);
    assert(more.drop_last() =~= events);
    assert(more.last() == event);
    assert(message_opened(more) == (message_opened(events) || opens_message(event))) by {
        if message_opened(events) {
            let i = choose|i: int| 0 <= i < events.len() && opens_message(#[trigger] events[i]);
            assert(opens_message(more[i]));
        }
        if opens_message(event) {
            assert(opens_message(more[events.len() as int]));
        }
        if message_opened(more) {
            let i = choose|i: int| 0 <= i < more.len() && opens_message(#[trigger] more[i]);
            if i < events.len() {
                assert(opens_message(events[i]));
            }
        }
    }
    if pieces_follow_opening(more) {
        assert forall|i: int| 0 <= i < events.len() && needs_message(#[trigger] events[i]) implies message_opened(
            events.take(i),
        ) by {
            assert(needs_message(more[i]));
            assert(more.take(i) =~= events.take(i));
        }
        if needs_message(event) {
            assert(needs_message(more[events.len() as int]));
            assert(more.take(events.len() as int) =~= events);
        }
    }
    if pieces_follow_opening(events) && (needs_message(event) ==> message_opened(events)) {
        assert forall|i: int| 0 <= i < more.len() && needs_message(#[trigger] more[i]) implies message_opened(
            more.take(i),
        ) by {
            if i < events.len() {
                assert(needs_message(events[i]));
                assert(more.take(i) =~= events.take(i));
            } else {
                assert(more.take(i) =~= events);
            }
        }
    }
}

/// A finished message is one of the assistant that holds its text and nothing else,
/// and it is announced without any text. A call holds its name, its arguments and its
/// id.
pub proof fn law_items_hold_what_was_assembled(
    text: Seq<char>,
    name: Seq<char>,
    namespace: Option<Seq<char>>,
    arguments: Seq<char>,
    call_id: Seq<char>,
)
    ensures
        text_message(text) matches ResponseItemView::Message { role, content, .. } && role
            == "assistant"@ && content.len() == 1 && content[0] == (ContentItemView::OutputText {
            text,
        }),
        open_message() matches ResponseItemView::Message { role, content, .. } && role
            == "assistant"@ && content.len() == 0,
        call_item(name, namespace, arguments, call_id) matches ResponseItemView::FunctionCall {
            name: n,
            namespace: s,
            arguments: a,
            call_id: c,
            ..
        } && n == name && s == namespace && a == arguments && c == call_id,
        text.len() > 0 ==> finished_message(true, text) == seq![
            ResponseEventView::OutputItemDone(text_message(text)),
        ],
        finished_message(false, text).len() == 0,
        finished_message(true, Seq::empty()).len() == 0,
{
}

} // verus!
