//! The Gemini endpoint.

use vstd::prelude::*;
use vstd::string::*;

use crate::endpoint::auth::rekey_headers;
use crate::endpoint::auth::rekeyed;
use crate::endpoint::auth::without_credentials;
use crate::endpoint::request::request_fields;
use crate::endpoint::request::stream_request;
use crate::endpoint::request::RequestRefusal;
use crate::endpoint::request::StreamRequest;
use crate::headers::header_fields;
use crate::headers::header_names;
use crate::headers::plain_header_name;
use crate::headers::HEADER_NAMES_WITH_ROOM;
use crate::text::cat3;
use crate::wire::body::body_text;
use crate::wire::body::write_body;
use crate::wire::gemini::gemini_api_request_body;
use crate::wire::gemini::GeminiApiRequest;
use crate::wire::gemini::GeminiApiRequestView;
use crate::wire::responses::ResponsesOptions;

verus! {

/// The headers of a request: the key in its own header.
pub open spec fn gemini_headers(fields: Map<Seq<char>, Seq<Seq<u8>>>) -> Map<
    Seq<char>,
    Seq<Seq<u8>>,
> {
    rekeyed(fields, "x-goog-api-key"@)
}

/// Credentials for the endpoint, made from those of an inner provider, which
/// fills in a bearer token.
pub struct GeminiAuth<A> {
    pub inner: A,
}

/// Makes the headers that the inner provider filled in those of the endpoint. A
/// map that has no room for them, which one with few names has, is left without
/// credentials.
pub fn rewrite_headers(headers: &mut http::HeaderMap) -> (r: bool)
    ensures
        header_names(*old(headers)) <= HEADER_NAMES_WITH_ROOM ==> r,
        header_fields(*final(headers)) == (if r {
            gemini_headers(header_fields(*old(headers)))
        } else {
            without_credentials(header_fields(*old(headers)))
        }),
{
    proof {
        reveal_strlit("x-goog-api-key");
        assert(plain_header_name("x-goog-api-key"@));
    }
    rekey_headers(headers, "x-goog-api-key")
}

impl<A> GeminiAuth<A> {
    /// Credentials around those of an inner provider.
    pub fn new(inner: A) -> (r: Self)
        ensures
            r.inner == inner,
    {
        GeminiAuth { inner }
    }

    /// Makes the headers that the inner provider filled in those of the
    /// endpoint. A map that has no room for them, which one with few names has,
    /// is left without credentials.
    pub fn add_auth_headers(&self, headers: &mut http::HeaderMap) -> (r: bool)
        ensures
            header_names(*old(headers)) <= HEADER_NAMES_WITH_ROOM ==> r,
            header_fields(*final(headers)) == (if r {
                gemini_headers(header_fields(*old(headers)))
            } else {
                without_credentials(header_fields(*old(headers)))
            }),
    {
        rewrite_headers(headers)
    }
}

/// What is said of a request without contents.
pub open spec fn no_contents() -> Seq<char> {
    "Gemini 请求翻译后无任何 content（Gemini 协议要求至少一条 content）"@
}

/// The body of a request, or why there is none.
pub open spec fn request_body(request: GeminiApiRequestView) -> Result<Seq<char>, Seq<char>> {
    if request.contents.len() == 0 {
        Err(no_contents())
    } else {
        match body_text(gemini_api_request_body(request)) {
            Some(text) => Ok(text),
            None => Err("failed to encode gemini request"@),
        }
    }
}

/// The path of a model's endpoint, below the base address.
pub open spec fn model_path(model: Seq<char>) -> Seq<char> {
    "v1beta/models/"@ + model + ":streamGenerateContent?alt=sse"@
}

/// A client of the endpoint: a session and what listens to its answers.
pub struct GeminiClient<S, T> {
    pub session: S,
    pub sse_telemetry: Option<T>,
}

impl<S, T> GeminiClient<S, T> {
    /// A client that nothing listens to.
    pub fn new(session: S) -> (r: Self)
        ensures
            r.session == session,
            r.sse_telemetry is None,
    {
        GeminiClient { session, sse_telemetry: None }
    }

    /// The client with something that listens to its answers.
    pub fn with_telemetry(self, sse: Option<T>) -> (r: Self)
        ensures
            r.session == self.session,
            r.sse_telemetry == sse,
    {
        GeminiClient { session: self.session, sse_telemetry: sse }
    }

    /// The path of a model's endpoint, below the base address.
    pub fn path(model: &str) -> (r: String)
        ensures
            r@ == model_path(model@),
    {
        cat3("v1beta/models/", model, ":streamGenerateContent?alt=sse")
    }

    /// The body of a request. A request without contents is refused.
    pub fn body(request: &GeminiApiRequest) -> (r: Result<String, String>)
        ensures
            match r {
                Ok(text) => request_body(request@) == Ok::<Seq<char>, Seq<char>>(text@),
                Err(reason) => request_body(request@) == Err::<Seq<char>, Seq<char>>(reason@),
            },
    {
        if request.contents.len() == 0 {
            return Err("Gemini 请求翻译后无任何 content（Gemini 协议要求至少一条 content）".to_owned());
        }
        match write_body(&request.to_body()) {
            Some(text) => Ok(text),
            None => Err("failed to encode gemini request".to_owned()),
        }
    }

    /// Makes the request that opens an answer, given the headers of the session
    /// and the agent on whose behalf it is made. A request that has no body is
    /// refused, before anything else is looked at, and so is one with more
    /// headers than a map can hold.
    pub fn stream_request<H>(
        &self,
        model: &str,
        request: &GeminiApiRequest,
        options: ResponsesOptions<H>,
        session: http::HeaderMap,
        subagent: Option<&String>,
    ) -> (r: Result<StreamRequest<H>, RequestRefusal>)
        ensures
            match r {
                Ok(sent) => {
                    &&& request_body(request@) == Ok::<Seq<char>, Seq<char>>(sent.body@)
                    &&& sent.path@ == model_path(model@)
                    &&& sent.compression == options.compression
                    &&& sent.turn_state == options.turn_state
                    &&& header_fields(sent.headers) == request_fields(
                        header_fields(options.extra_headers),
                        options.thread_id.deep_view(),
                        header_fields(session),
                        subagent.deep_view(),
                    )
                },
                Err(RequestRefusal::Body(reason)) => request_body(request@) == Err::<
                    Seq<char>,
                    Seq<char>,
                >(reason@),
                Err(RequestRefusal::Headers) => request_body(request@) is Ok && header_names(
                    options.extra_headers,
                ) + header_names(session) + 3 > HEADER_NAMES_WITH_ROOM,
            },
    {
        match Self::body(request) {
            Ok(body) => match stream_request(Self::path(model), body, options, session, subagent) {
                Some(sent) => Ok(sent),
                None => Err(RequestRefusal::Headers),
            },
            Err(reason) => Err(RequestRefusal::Body(reason)),
        }
    }
}

} // verus!
