//! The requests that open a streamed answer.

use vstd::prelude::*;
use vstd::utf8::encode_utf8;

use crate::headers::header_fields;
use crate::headers::header_insert;
use crate::headers::header_line;
use crate::headers::header_name;
use crate::headers::header_names;
use crate::headers::header_value;
use crate::headers::joined_headers;
use crate::headers::plain_header_name;
use crate::headers::HEADER_NAMES_WITH_ROOM;
use crate::wire::responses::Compression;
use crate::wire::responses::ResponsesOptions;

verus! {

/// The header that names a request on the client's side.
pub const CLIENT_REQUEST_ID_HEADER: &'static str = "x-client-request-id";

/// The header that names the agent on whose behalf a request is made.
pub const SUBAGENT_HEADER: &'static str = "x-openai-subagent";

/// A request that opens a streamed answer. `turn_state` is the caller's handle
/// for the state that the server hands out for a turn.
pub struct StreamRequest<H> {
    pub path: String,
    pub headers: http::HeaderMap,
    pub body: String,
    pub compression: Compression,
    pub turn_state: Option<H>,
}

/// Why a request is not made.
#[derive(Debug, Clone, PartialEq, Eq)]
pub enum RequestRefusal {
    /// It has no body, for this reason.
    Body(String),
    /// It has more headers than a map can hold.
    Headers,
}

/// Header fields with one set to a text, unless there is no text or no header
/// can hold it.
pub open spec fn with_header(
    fields: Map<Seq<char>, Seq<Seq<u8>>>,
    name: Seq<char>,
    text: Option<Seq<char>>,
) -> Map<Seq<char>, Seq<Seq<u8>>> {
    match text {
        Some(t) => if header_line(t) {
            fields.insert(name, seq![encode_utf8(t)])
        } else {
            fields
        },
        None => fields,
    }
}

/// Sets a header to a text, unless there is no text or no header can hold it. A
/// map that has no room for the header, which one with few names has, is left
/// with what it holds.
pub fn insert_header(
    headers: &mut http::HeaderMap,
    name: &'static str,
    text: Option<&String>,
) -> (r: bool)
    requires
        plain_header_name(name@),
    ensures
        header_names(*old(headers)) <= HEADER_NAMES_WITH_ROOM ==> r,
        header_fields(*final(headers)) == (if r {
            with_header(header_fields(*old(headers)), name@, text.deep_view())
        } else {
            header_fields(*old(headers))
        }),
        header_names(*final(headers)) <= header_names(*old(headers)) + 1,
{
    if let Some(t) = text {
        if let Some(value) = header_value(t.as_str()) {
            return header_insert(headers, &header_name(name), value);
        }
    }
    true
}

/// The headers of a request: those that the caller gives and the id of the
/// request, then those of the session, then the agent, and at last what kind of
/// answer is awaited.
pub open spec fn request_fields(
    extra: Map<Seq<char>, Seq<Seq<u8>>>,
    thread_id: Option<Seq<char>>,
    session: Map<Seq<char>, Seq<Seq<u8>>>,
    subagent: Option<Seq<char>>,
) -> Map<Seq<char>, Seq<Seq<u8>>> {
    let named = with_header(extra, CLIENT_REQUEST_ID_HEADER@, thread_id);
    let joined = named.union_prefer_right(session);
    let attributed = with_header(joined, SUBAGENT_HEADER@, subagent);
    with_header(attributed, "accept"@, Some("text/event-stream"@))
}

/// Makes the headers of a request. There are none where no map can hold so many,
/// which a few headers are far from.
pub fn request_headers(
    extra: http::HeaderMap,
    thread_id: Option<&String>,
    session: http::HeaderMap,
    subagent: Option<&String>,
) -> (r: Option<http::HeaderMap>)
    ensures
        match r {
            Some(headers) => header_fields(headers) == request_fields(
                header_fields(extra),
                thread_id.deep_view(),
                header_fields(session),
                subagent.deep_view(),
            ),
            None => header_names(extra) + header_names(session) + 3 > HEADER_NAMES_WITH_ROOM,
        },
{
    proof {
        reveal_strlit("x-client-request-id");
        reveal_strlit("x-openai-subagent");
        reveal_strlit("accept");
    }
    let mut named = extra;
    if !insert_header(&mut named, CLIENT_REQUEST_ID_HEADER, thread_id) {
        return None;
    }
    let mut headers = match joined_headers(named, session) {
        Some(headers) => headers,
        None => {
            return None;
        },
    };
    if !insert_header(&mut headers, SUBAGENT_HEADER, subagent) {
        return None;
    }
    let awaited = "text/event-stream".to_owned();
    if !insert_header(&mut headers, "accept", Some(&awaited)) {
        return None;
    }
    Some(headers)
}

/// Makes a request of its path and body and of how it is sent, given the headers
/// of the session and the agent on whose behalf it is made. There is none where
/// no map can hold its headers, which a few headers are far from.
pub fn stream_request<H>(
    path: String,
    body: String,
    options: ResponsesOptions<H>,
    session: http::HeaderMap,
    subagent: Option<&String>,
) -> (r: Option<StreamRequest<H>>)
    ensures
        match r {
            Some(sent) => {
                &&& sent.path == path
                &&& sent.body == body
                &&& sent.compression == options.compression
                &&& sent.turn_state == options.turn_state
                &&& header_fields(sent.headers) == request_fields(
                    header_fields(options.extra_headers),
                    options.thread_id.deep_view(),
                    header_fields(session),
                    subagent.deep_view(),
                )
            },
            None => header_names(options.extra_headers) + header_names(session) + 3
                > HEADER_NAMES_WITH_ROOM,
        },
{
    match request_headers(options.extra_headers, options.thread_id.as_ref(), session, subagent) {
        Some(headers) => Some(
            StreamRequest {
                path,
                headers,
                body,
                compression: options.compression,
                turn_state: options.turn_state,
            },
        ),
        None => None,
    }
}

/// The request says that a stream of events is awaited, whatever else is set.
pub proof fn law_stream_is_awaited(
    extra: Map<Seq<char>, Seq<Seq<u8>>>,
    thread_id: Option<Seq<char>>,
    session: Map<Seq<char>, Seq<Seq<u8>>>,
    subagent: Option<Seq<char>>,
)
    ensures
        request_fields(extra, thread_id, session, subagent).contains_pair(
            "accept"@,
            seq![encode_utf8("text/event-stream"@)],
        ),
{
    reveal_strlit("text/event-stream");
    assert(header_line("text/event-stream"@));
}

} // verus!
