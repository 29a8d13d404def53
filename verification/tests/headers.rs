//! What headers carry: credentials on the way out, and what precedes an answer
//! on the way in.

use http::HeaderMap;
use http::HeaderValue;
use tokencode::adapters::anthropic::AnthropicAdapter;
use tokencode::adapters::gemini::GeminiAdapter;
use tokencode::endpoint::anthropic::AnthropicAuth;
use tokencode::endpoint::anthropic::ANTHROPIC_VERSION;
use tokencode::endpoint::auth::strip_bearer_prefix;
use tokencode::endpoint::gemini::GeminiAuth;
use tokencode::endpoint::preamble::stream_preamble;
use tokencode::endpoint::request::insert_header;
use tokencode::endpoint::request::stream_request;
use tokencode::endpoint::request::RequestRefusal;
use tokencode::events::ResponseEvent;
use tokencode::headers::joined_headers;
use tokencode::models::ContentItem;
use tokencode::models::ResponseItem;
use tokencode::unified::UnifiedRequest;
use tokencode::wire::responses::Compression;
use tokencode::wire::responses::ResponsesOptions;

fn headers(pairs: &[(&'static str, &str)]) -> HeaderMap {
    let mut h = HeaderMap::new();
    for (k, v) in pairs {
        h.insert(*k, HeaderValue::from_str(v).unwrap());
    }
    h
}

fn text<'a>(h: &'a HeaderMap, name: &str) -> Option<&'a str> {
    h.get(name).and_then(|v| v.to_str().ok())
}

#[test]
fn bearer_prefix_is_stripped_in_any_case() {
    assert_eq!(strip_bearer_prefix("Bearer abc"), "abc");
    assert_eq!(strip_bearer_prefix("bEaReR abc"), "abc");
    assert_eq!(strip_bearer_prefix("abc"), "abc");
    assert_eq!(strip_bearer_prefix("Bearer"), "Bearer");
    assert_eq!(strip_bearer_prefix("钥匙"), "钥匙");
}

#[test]
fn anthropic_credentials_replace_the_bearer_header() {
    let mut h = headers(&[
        ("authorization", "Bearer  key-1 "),
        ("chatgpt-account-id", "acc"),
        ("x-openai-fedramp", "true"),
        ("x-other", "kept"),
    ]);
    assert!(AnthropicAuth::new(()).add_auth_headers(&mut h));
    assert_eq!(text(&h, "x-api-key"), Some("key-1"));
    assert_eq!(text(&h, "anthropic-version"), Some("2023-06-01"));
    assert_eq!(text(&h, "anthropic-version"), Some(ANTHROPIC_VERSION));
    assert!(h.get("authorization").is_none());
    assert!(h.get("chatgpt-account-id").is_none());
    assert!(h.get("x-openai-fedramp").is_none());
    assert_eq!(text(&h, "x-other"), Some("kept"));
}

#[test]
fn anthropic_credentials_without_a_usable_key() {
    let mut h = headers(&[("authorization", "Bearer   ")]);
    assert!(AnthropicAuth::new(()).add_auth_headers(&mut h));
    assert!(h.get("x-api-key").is_none());
    assert_eq!(text(&h, "anthropic-version"), Some("2023-06-01"));

    let mut h = HeaderMap::new();
    h.insert("authorization", HeaderValue::from_bytes(&[0xff]).unwrap());
    assert!(AnthropicAuth::new(()).add_auth_headers(&mut h));
    assert!(h.get("x-api-key").is_none());
    assert!(h.get("authorization").is_none());
}

#[test]
fn gemini_credentials_replace_the_bearer_header() {
    let mut h = headers(&[("authorization", "plain-key"), ("chatgpt-account-id", "acc")]);
    assert!(GeminiAuth::new(()).add_auth_headers(&mut h));
    assert_eq!(text(&h, "x-goog-api-key"), Some("plain-key"));
    assert!(h.get("authorization").is_none());
    assert!(h.get("chatgpt-account-id").is_none());
}

fn numbered(count: usize) -> HeaderMap {
    let mut h = HeaderMap::new();
    for i in 0..count {
        let name = http::HeaderName::from_bytes(format!("x-{i}").as_bytes()).unwrap();
        if h.try_insert(name, HeaderValue::from_static("v")).is_err() {
            break;
        }
    }
    h
}

#[test]
fn a_large_map_is_rewritten_like_any_other() {
    for count in [4000, 6552, 10000] {
        let mut h = numbered(count);
        h.insert("authorization", HeaderValue::from_static("Bearer k"));
        assert!(AnthropicAuth::new(()).add_auth_headers(&mut h));
        assert_eq!(text(&h, "x-api-key"), Some("k"));
        assert_eq!(text(&h, "anthropic-version"), Some(ANTHROPIC_VERSION));
        assert!(h.get("authorization").is_none());
        assert_eq!(h.keys_len(), count + 2);
        let mut h = numbered(count);
        h.insert("authorization", HeaderValue::from_static("Bearer k"));
        assert!(GeminiAuth::new(()).add_auth_headers(&mut h));
        assert_eq!(text(&h, "x-goog-api-key"), Some("k"));
        assert_eq!(h.keys_len(), count + 1);
    }
}

#[test]
fn a_full_map_is_refused() {
    let mut h = numbered(40000);
    assert!(!AnthropicAuth::new(()).add_auth_headers(&mut h));
    assert!(h.get("anthropic-version").is_none());
    assert!(joined_headers(numbered(40000), headers(&[("x-more", "m")])).is_none());
}

#[test]
fn joined_headers_keep_the_values_of_the_later_map() {
    let mut more = headers(&[("x-both", "1")]);
    more.append("x-both", HeaderValue::from_static("2"));
    more.append("x-new", HeaderValue::from_static("3"));
    more.append("x-new", HeaderValue::from_static("4"));
    let first = headers(&[("x-both", "0"), ("x-old", "o")]);
    let mut extended = first.clone();
    extended.extend(more.clone());
    let joined = joined_headers(first, more).expect("room");
    assert_eq!(joined, extended);
    let both: Vec<&str> = joined.get_all("x-both").iter().map(|v| v.to_str().unwrap()).collect();
    assert_eq!(both, vec!["1", "2"]);
    assert_eq!(joined.get_all("x-new").iter().count(), 2);
    assert_eq!(text(&joined, "x-old"), Some("o"));
}

#[test]
fn preamble_reads_what_the_server_says() {
    let h = headers(&[
        ("openai-model", "m-1"),
        ("x-request-id", "req-1"),
        ("x-models-etag", "etag-1"),
        ("x-codex-turn-state", "state-1"),
    ]);
    let preamble = stream_preamble(&h, vec![]);
    assert_eq!(preamble.upstream_request_id.as_deref(), Some("req-1"));
    assert_eq!(preamble.turn_state.as_deref(), Some("state-1"));
    assert!(matches!(
        preamble.events.as_slice(),
        [ResponseEvent::ServerModel(m), ResponseEvent::ModelsEtag(e)] if m == "m-1" && e == "etag-1"
    ));
}

#[test]
fn preamble_of_silent_headers_is_empty() {
    let preamble = stream_preamble(&HeaderMap::new(), vec![]);
    assert!(preamble.events.is_empty());
    assert!(preamble.upstream_request_id.is_none());
    assert!(preamble.turn_state.is_none());
}

#[test]
fn a_stream_request_carries_its_headers() {
    let options = ResponsesOptions::<()> {
        session_id: None,
        thread_id: Some("thread-1".to_string()),
        session_source: None,
        extra_headers: headers(&[("x-extra", "e"), ("x-both", "extra"), ("accept", "text/plain")]),
        compression: Compression::Zstd,
        turn_state: None,
    };
    let session = headers(&[("x-both", "session"), ("session-id", "s")]);
    let agent = "review".to_string();
    let sent = stream_request(
        "v1/messages".to_string(),
        "{}".to_string(),
        options,
        session,
        Some(&agent),
    )
    .expect("a request");
    assert_eq!((sent.path.as_str(), sent.body.as_str()), ("v1/messages", "{}"));
    assert!(matches!(sent.compression, Compression::Zstd));
    assert_eq!(text(&sent.headers, "x-client-request-id"), Some("thread-1"));
    assert_eq!(text(&sent.headers, "x-openai-subagent"), Some("review"));
    assert_eq!(text(&sent.headers, "accept"), Some("text/event-stream"));
    assert_eq!(text(&sent.headers, "x-extra"), Some("e"));
    assert_eq!(text(&sent.headers, "x-both"), Some("session"));
    assert_eq!(text(&sent.headers, "session-id"), Some("s"));
}

#[test]
fn a_text_that_no_header_can_hold_is_not_set() {
    let mut h = HeaderMap::new();
    assert!(insert_header(&mut h, "x-client-request-id", Some(&"a\nb".to_string())));
    assert!(h.is_empty());
    assert!(insert_header(&mut h, "x-client-request-id", Some(&"é".to_string())));
    assert_eq!(h.get("x-client-request-id").map(|v| v.as_bytes()), Some("é".as_bytes()));
}

#[test]
fn clients_make_their_requests() {
    let options = || ResponsesOptions::<()> {
        session_id: None,
        thread_id: None,
        session_source: None,
        extra_headers: HeaderMap::new(),
        compression: Compression::Identity,
        turn_state: None,
    };
    let request = || UnifiedRequest {
        model: "m".to_string(),
        instructions: String::new(),
        input: vec![ResponseItem::Message {
            id: None,
            role: "user".to_string(),
            content: vec![ContentItem::InputText { text: "hi".to_string() }],
            phase: None,
        }],
        tools: None,
        tool_choice: String::new(),
        parallel_tool_calls: true,
        reasoning: None,
        store: false,
        stream: true,
        include_: vec![],
        service_tier: None,
        prompt_cache_key: None,
        text: None,
        client_metadata: None,
    };
    let adapter: AnthropicAdapter<(), ()> = AnthropicAdapter::new((), None);
    let api = adapter.prepare(request());
    let sent = adapter
        .inner
        .stream_request(&api, options(), HeaderMap::new(), None)
        .expect("a request");
    assert_eq!(sent.path, "v1/messages");
    assert!(sent.body.contains("\"hi\""));
    let adapter: GeminiAdapter<(), ()> = GeminiAdapter::new((), None);
    let api = adapter.prepare(request());
    let sent = adapter
        .inner
        .stream_request("m", &api, options(), HeaderMap::new(), None)
        .expect("a request");
    assert_eq!(sent.path, "v1beta/models/m:streamGenerateContent?alt=sse");
    let mut empty = request();
    empty.input.clear();
    let api = adapter.prepare(empty.clone());
    assert!(matches!(
        adapter.inner.stream_request("m", &api, options(), numbered(40000), None),
        Err(RequestRefusal::Body(reason)) if reason.contains("无任何 content")
    ));
    let adapter: AnthropicAdapter<(), ()> = AnthropicAdapter::new((), None);
    let api = adapter.prepare(empty);
    assert!(matches!(
        adapter.inner.stream_request(&api, options(), numbered(40000), None),
        Err(RequestRefusal::Body(reason)) if reason.contains("无任何 message")
    ));
    let api = adapter.prepare(request());
    assert!(matches!(
        adapter.inner.stream_request(&api, options(), numbered(40000), None),
        Err(RequestRefusal::Headers)
    ));
}
