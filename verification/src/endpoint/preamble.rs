//! What the headers of an accepted request say before the answer begins.

use vstd::prelude::*;

use crate::events::RateLimitSnapshot;
use crate::events::RateLimitSnapshotView;
use crate::events::ResponseEvent;
use crate::events::ResponseEventView;
use crate::headers::all_shown;
use crate::headers::header_fields;
use crate::headers::header_get;
use crate::headers::header_text;
use crate::headers::plain_header_name;
use crate::headers::shown_text;
use crate::sse::emit;

verus! {

/// The header that names the model that answers.
pub const OPENAI_MODEL_HEADER: &'static str = "openai-model";

/// The header that names the request on the server's side.
pub const REQUEST_ID_HEADER: &'static str = "x-request-id";

/// The header that tells one state of the model catalog from another.
pub const MODELS_ETAG_HEADER: &'static str = "x-models-etag";

/// The header that carries the state of a turn.
pub const X_CODEX_TURN_STATE_HEADER: &'static str = "x-codex-turn-state";

/// The text of a header's first value, when it has one that is text.
pub open spec fn header_says(fields: Map<Seq<char>, Seq<Seq<u8>>>, name: Seq<char>) -> Option<
    Seq<char>,
> {
    if fields.dom().contains(name) && all_shown(fields[name][0]) {
        Some(shown_text(fields[name][0]))
    } else {
        None
    }
}

/// Reads the text of a header's first value.
pub fn read_header(headers: &http::HeaderMap, name: &str) -> (r: Option<String>)
    requires
        plain_header_name(name@),
    ensures
        r.deep_view() == header_says(header_fields(*headers), name@),
{
    match header_get(headers, name) {
        Some(value) => header_text(value),
        None => None,
    }
}

/// What precedes an answer: the events that open it, the server's id of the
/// request, and the state of the turn.
#[derive(Debug)]
pub struct StreamPreamble {
    pub events: Vec<ResponseEvent>,
    pub upstream_request_id: Option<String>,
    pub turn_state: Option<String>,
}

/// The event that names the answering model.
pub open spec fn model_events(model: Option<Seq<char>>) -> Seq<ResponseEventView> {
    match model {
        Some(m) => seq![ResponseEventView::ServerModel(m)],
        None => Seq::empty(),
    }
}

/// The event that names the state of the model catalog.
pub open spec fn etag_events(etag: Option<Seq<char>>) -> Seq<ResponseEventView> {
    match etag {
        Some(e) => seq![ResponseEventView::ModelsEtag(e)],
        None => Seq::empty(),
    }
}

/// The events that open an answer: the model, the rate limits, the catalog.
pub open spec fn opening_events(
    fields: Map<Seq<char>, Seq<Seq<u8>>>,
    rate_limits: Seq<RateLimitSnapshotView>,
) -> Seq<ResponseEventView> {
    model_events(header_says(fields, OPENAI_MODEL_HEADER@)) + Seq::new(
        rate_limits.len(),
        |i: int| ResponseEventView::RateLimits(rate_limits[i]),
    ) + etag_events(header_says(fields, MODELS_ETAG_HEADER@))
}

proof fn lemma_header_names()
    ensures
        plain_header_name(OPENAI_MODEL_HEADER@),
        plain_header_name(REQUEST_ID_HEADER@),
        plain_header_name(MODELS_ETAG_HEADER@),
        plain_header_name(X_CODEX_TURN_STATE_HEADER@),
{
    reveal_strlit("openai-model");
    reveal_strlit("x-request-id");
    reveal_strlit("x-models-etag");
    reveal_strlit("x-codex-turn-state");
}

/// Reads what precedes an answer.
pub fn stream_preamble(headers: &http::HeaderMap, rate_limits: Vec<RateLimitSnapshot>) -> (r:
    StreamPreamble)
    ensures
        r.events.deep_view() == opening_events(header_fields(*headers), rate_limits.deep_view()),
        r.upstream_request_id.deep_view() == header_says(
            header_fields(*headers),
            REQUEST_ID_HEADER@,
        ),
        r.turn_state.deep_view() == header_says(
            header_fields(*headers),
            X_CODEX_TURN_STATE_HEADER@,
        ),
{
    proof {
        lemma_header_names();
    }
    let mut events: Vec<ResponseEvent> = Vec::new();
    assert(events.deep_view() =~= Seq::<ResponseEventView>::empty());
    if let Some(model) = read_header(headers, OPENAI_MODEL_HEADER) {
        emit(&mut events, ResponseEvent::ServerModel(model));
    }
    let ghost named = events.deep_view();
    assert(named =~= model_events(header_says(header_fields(*headers), OPENAI_MODEL_HEADER@)));
    let ghost all = rate_limits.deep_view();
    let ghost limits = Seq::new(all.len(), |i: int| ResponseEventView::RateLimits(all[i]));
    assert(named + limits.take(0) =~= named);
    for snapshot in it: rate_limits
        invariant
            it.seq() == rate_limits@,
            all == rate_limits.deep_view(),
            limits == Seq::new(all.len(), |i: int| ResponseEventView::RateLimits(all[i])),
            events.deep_view() == named + limits.take(it.index() as int),
    {
        proof {
            let i = it.index() as int;
            assert(all[i] == snapshot@);
            assert(named + limits.take(i + 1) =~= (named + limits.take(i)).push(limits[i]));
        }
        emit(&mut events, ResponseEvent::RateLimits(snapshot));
    }
    assert(limits.take(all.len() as int) =~= limits);
    if let Some(etag) = read_header(headers, MODELS_ETAG_HEADER) {
        emit(&mut events, ResponseEvent::ModelsEtag(etag));
    }
    assert(events.deep_view() =~= opening_events(header_fields(*headers), rate_limits.deep_view()));
    StreamPreamble {
        events,
        upstream_request_id: read_header(headers, REQUEST_ID_HEADER),
        turn_state: read_header(headers, X_CODEX_TURN_STATE_HEADER),
    }
}

} // verus!
