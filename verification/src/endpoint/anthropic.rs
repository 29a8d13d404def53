//! The Anthropic endpoint.

use vstd::prelude::*;
use vstd::string::*;

use crate::endpoint::auth::rekey_headers;
use crate::endpoint::auth::rekeyed;
use crate::endpoint::auth::without_credentials;
use crate::endpoint::request::request_fields;
use crate::endpoint::request::stream_request;
use crate::endpoint::request::RequestRefusal;
use crate::endpoint::request::StreamRequest;
use crate::headers::ascii_bytes;
use crate::headers::ascii_text;
use crate::headers::header_fields;
use crate::headers::header_insert;
use crate::headers::header_line;
use crate::headers::header_name;
use crate::headers::header_names;
use crate::headers::header_value;
use crate::headers::plain_header_name;
use crate::headers::HEADER_NAMES_WITH_ROOM;
use crate::wire::anthropic::anthropic_api_request_body;
use crate::wire::anthropic::AnthropicApiRequest;
use crate::wire::anthropic::AnthropicApiRequestView;
use crate::wire::body::body_text;
use crate::wire::body::write_body;
use crate::wire::responses::ResponsesOptions;

verus! {

/// The version of the protocol that requests ask for.
pub const ANTHROPIC_VERSION: &'static str = "2023-06-01";

/// The headers of a request: the key in its own header, and the version.
pub open spec fn anthropic_headers(fields: Map<Seq<char>, Seq<Seq<u8>>>) -> Map<
    Seq<char>,
    Seq<Seq<u8>>,
> {
    rekeyed(fields, "x-api-key"@).insert(
        "anthropic-version"@,
        seq![ascii_bytes(ANTHROPIC_VERSION@)],
    )
}

/// Credentials for the endpoint, made from those of an inner provider, which
/// fills in a bearer token.
pub struct AnthropicAuth<A> {
    pub inner: A,
}

/// Makes the headers that the inner provider filled in those of the endpoint. A
/// map that has no room for them, which one with few names has, is left without
/// credentials, or with nothing but the version missing.
pub fn rewrite_headers(headers: &mut http::HeaderMap) -> (r: bool)
    ensures
        header_names(*old(headers)) <= HEADER_NAMES_WITH_ROOM ==> r,
        r ==> header_fields(*final(headers)) == anthropic_headers(header_fields(*old(headers))),
        !r ==> {
            ||| header_fields(*final(headers)) == without_credentials(header_fields(*old(headers)))
            ||| header_fields(*final(headers)) == rekeyed(
                header_fields(*old(headers)),
                "x-api-key"@,
            )
        },
{
    proof {
        reveal_strlit("x-api-key");
        reveal_strlit("anthropic-version");
        reveal_strlit("2023-06-01");
        assert(plain_header_name("x-api-key"@));
        assert(plain_header_name("anthropic-version"@));
        assert(header_line(ANTHROPIC_VERSION@));
        assert(ascii_text(ANTHROPIC_VERSION@));
    }
    if !rekey_headers(headers, "x-api-key") {
        return false;
    }
    match header_value(ANTHROPIC_VERSION) {
        Some(version) => header_insert(headers, &header_name("anthropic-version"), version),
        None => false,
    }
}

impl<A> AnthropicAuth<A> {
    /// Credentials around those of an inner provider.
    pub fn new(inner: A) -> (r: Self)
        ensures
            r.inner == inner,
    {
        AnthropicAuth { inner }
    }

    /// Makes the headers that the inner provider filled in those of the
    /// endpoint. A map that has no room for them, which one with few names has,
    /// is left without credentials, or with nothing but the version missing.
    pub fn add_auth_headers(&self, headers: &mut http::HeaderMap) -> (r: bool)
        ensures
            header_names(*old(headers)) <= HEADER_NAMES_WITH_ROOM ==> r,
            r ==> header_fields(*final(headers)) == anthropic_headers(
                header_fields(*old(headers)),
            ),
            !r ==> {
                ||| header_fields(*final(headers)) == without_credentials(
                    header_fields(*old(headers)),
                )
                ||| header_fields(*final(headers)) == rekeyed(
                    header_fields(*old(headers)),
                    "x-api-key"@,
                )
            },
    {
        rewrite_headers(headers)
    }
}

/// What is said of a request without messages.
pub open spec fn no_messages() -> Seq<char> {
    "Anthropic 请求翻译后无任何 message（Anthropic 协议要求至少一条 message）"@
}

/// The body of a request, or why there is none.
pub open spec fn request_body(request: AnthropicApiRequestView) -> Result<Seq<char>, Seq<char>> {
    if request.messages.len() == 0 {
        Err(no_messages())
    } else {
        match body_text(anthropic_api_request_body(request)) {
            Some(text) => Ok(text),
            None => Err("failed to encode anthropic request"@),
        }
    }
}

/// A client of the endpoint: a session and what listens to its answers.
pub struct AnthropicClient<S, T> {
    pub session: S,
    pub sse_telemetry: Option<T>,
}

impl<S, T> AnthropicClient<S, T> {
    /// A client that nothing listens to.
    pub fn new(session: S) -> (r: Self)
        ensures
            r.session == session,
            r.sse_telemetry is None,
    {
        AnthropicClient { session, sse_telemetry: None }
    }

    /// The client with something that listens to its answers.
    pub fn with_telemetry(self, sse: Option<T>) -> (r: Self)
        ensures
            r.session == self.session,
            r.sse_telemetry == sse,
    {
        AnthropicClient { session: self.session, sse_telemetry: sse }
    }

    /// The path of the endpoint, below the base address.
    pub fn path() -> (r: &'static str)
        ensures
            r@ == "v1/messages"@,
    {
        "v1/messages"
    }

    /// The body of a request. A request without messages is refused.
    pub fn body(request: &AnthropicApiRequest) -> (r: Result<String, String>)
        ensures
            match r {
                Ok(text) => request_body(request@) == Ok::<Seq<char>, Seq<char>>(text@),
                Err(reason) => request_body(request@) == Err::<Seq<char>, Seq<char>>(reason@),
            },
    {
        if request.messages.len() == 0 {
            return Err(
                "Anthropic 请求翻译后无任何 message（Anthropic 协议要求至少一条 message）".to_owned(),
            );
        }
        match write_body(&request.to_body()) {
            Some(text) => Ok(text),
            None => Err("failed to encode anthropic request".to_owned()),
        }
    }

    /// Makes the request that opens an answer, given the headers of the session
    /// and the agent on whose behalf it is made. A request that has no body is
    /// refused, before anything else is looked at, and so is one with more
    /// headers than a map can hold.
    pub fn stream_request<H>(
        &self,
        request: &AnthropicApiRequest,
        options: ResponsesOptions<H>,
        session: http::HeaderMap,
        subagent: Option<&String>,
    ) -> (r: Result<StreamRequest<H>, RequestRefusal>)
        ensures
            match r {
                Ok(sent) => {
                    &&& request_body(request@) == Ok::<Seq<char>, Seq<char>>(sent.body@)
                    &&& sent.path@ == "v1/messages"@
                    &&& sent.compression == options.compression
                    &&& sent.turn_state == options.turn_state
                    &&& header_fields(sent.headers) == request_fields(
                        header_fields(options.extra_headers),
                        options.thread_id.deep_view(),
                        header_fields(session),
                        subagent.deep_view(),
                    )
                },
                Err(RequestRefusal::Body(reason)) => request_body(request@) == Err::<
                    Seq<char>,
                    Seq<char>,
                >(reason@),
                Err(RequestRefusal::Headers) => request_body(request@) is Ok && header_names(
                    options.extra_headers,
                ) + header_names(session) + 3 > HEADER_NAMES_WITH_ROOM,
            },
    {
        match Self::body(request) {
            Ok(body) => match stream_request(Self::path().to_owned(), body, options, session, subagent) {
                Some(sent) => Ok(sent),
                None => Err(RequestRefusal::Headers),
            },
            Err(reason) => Err(RequestRefusal::Body(reason)),
        }
    }
}

} // verus!
