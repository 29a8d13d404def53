//! What goes out in the headers of a request and comes back in those of an answer,
//! told header by header.

use vstd::prelude::*;
use vstd::string::*;
use vstd::utf8::encode_utf8;

use crate::endpoint::anthropic::anthropic_headers;
use crate::endpoint::auth::ascii_lower;
use crate::endpoint::auth::carried_key;
use crate::endpoint::auth::has_bearer;
use crate::endpoint::auth::rekeyed;
use crate::endpoint::auth::same_letter;
use crate::endpoint::auth::without_bearer;
use crate::endpoint::gemini::gemini_headers;
use crate::endpoint::gemini::model_path;
use crate::endpoint::preamble::header_says;
use crate::endpoint::preamble::opening_events;
use crate::endpoint::request::request_fields;
use crate::events::RateLimitSnapshotView;
use crate::events::ResponseEventView;
use crate::headers::all_shown;
use crate::headers::ascii_bytes;
use crate::headers::header_line;
use crate::headers::shown_byte;
use crate::headers::shown_text;
use crate::text::law_trimming_takes_white_space;
use crate::text::trimmed;
use crate::text::white_space;

verus! {

/// The values of headers, by name.
pub type HeaderFields = Map<Seq<char>, Seq<Seq<u8>>>;

/// Whether a text is of visible ASCII, spaces and tabs.
pub open spec fn plain_line(text: Seq<char>) -> bool {
    forall|i: int| 0 <= i < text.len() ==> (32 <= (#[trigger] text[i]) as u32 && (text[i] as u32)
        < 127) || text[i] as u32 == 9
}

/// Whether a header's first value is a text.
pub open spec fn first_says(fields: HeaderFields, name: Seq<char>, text: Seq<char>) -> bool {
    &&& fields.dom().contains(name)
    &&& fields[name].len() > 0
    &&& fields[name][0] == ascii_bytes(text)
    &&& plain_line(text)
}

/// A header is read as the text of its first value, and one that is missing says
/// nothing.
pub proof fn law_headers_are_read_by_name(fields: HeaderFields, name: Seq<char>, text: Seq<char>)
    ensures
        first_says(fields, name, text) ==> header_says(fields, name) == Some(text),
        !fields.dom().contains(name) ==> header_says(fields, name) is None,
{
    if first_says(fields, name, text) {
        lemma_shown(text);
    }
}

proof fn lemma_shown_char(c: char)
    requires
        (32 <= c as u32 && (c as u32) < 127) || c as u32 == 9,
    ensures
        shown_byte(c as u8),
        (c as u8) as char == c,
{
}

proof fn lemma_shown(text: Seq<char>)
    requires
        plain_line(text),
    ensures
        all_shown(ascii_bytes(text)),
        shown_text(ascii_bytes(text)) == text,
{
    let bytes = ascii_bytes(text);
    assert forall|i: int| 0 <= i < bytes.len() implies shown_byte(#[trigger] bytes[i]) && bytes[i] as char
        == text[i] by {
        lemma_shown_char(text[i]);
    }
    assert(shown_text(bytes) =~= text);
}

/// An answer opens with the model that its headers name, then the rate limits in their
/// order, then the state of the catalog, each only where it is there.
pub proof fn law_answers_open_with_their_headers(
    fields: HeaderFields,
    limits: Seq<RateLimitSnapshotView>,
    i: int,
    model: Seq<char>,
    etag: Seq<char>,
)
    ensures
        ({
            let events = opening_events(fields, limits);
            let named = first_says(fields, "openai-model"@, model);
            let tagged = first_says(fields, "x-models-etag"@, etag);
            &&& named ==> events.len() > 0 && events[0] == ResponseEventView::ServerModel(model)
            &&& named && 0 <= i < limits.len() ==> events[i + 1] == ResponseEventView::RateLimits(
                limits[i],
            )
            &&& !fields.dom().contains("openai-model"@) && 0 <= i < limits.len() ==> events[i]
                == ResponseEventView::RateLimits(limits[i])
            &&& tagged ==> events.len() > 0 && events.last() == ResponseEventView::ModelsEtag(etag)
            &&& named && tagged ==> events.len() == limits.len() + 2
            &&& !fields.dom().contains("openai-model"@) && !fields.dom().contains(
                "x-models-etag"@,
            ) ==> events.len() == limits.len()
        }),
{
    law_headers_are_read_by_name(fields, "openai-model"@, model);
    law_headers_are_read_by_name(fields, "x-models-etag"@, etag);
}

proof fn lemma_untrimmed(key: Seq<char>)
    requires
        key.len() > 0,
        !white_space(key[0]),
        !white_space(key.last()),
    ensures
        trimmed(key) == key,
{
    law_trimming_takes_white_space(key);
    let (a, b) = choose|a: int, b: int|
        0 <= a <= b <= key.len() && #[trigger] key.subrange(a, b) == trimmed(key) && (forall|i: int|
            0 <= i < a || b <= i < key.len() ==> white_space(#[trigger] key[i]));
    assert(a == 0) by {
        if a > 0 {
            assert(white_space(key[0]));
        }
    }
    assert(b == key.len()) by {
        if b < key.len() {
            assert(white_space(key[key.len() - 1]));
        }
    }
    assert(key.subrange(0, key.len() as int) =~= key);
}

/// Whether a text is the bearer scheme and a space, in any case.
pub open spec fn bearer(scheme: Seq<char>) -> bool {
    &&& scheme.len() == 7
    &&& forall|i: int| 0 <= i < 7 ==> #[trigger] scheme[i] == "bearer "@[i] || scheme[i] == "BEARER "@[i]
}

proof fn lemma_letters(c: char, i: int)
    requires
        0 <= i < 7,
    ensures
        same_letter(c, "bearer "@[i]) <==> c == "bearer "@[i] || c == "BEARER "@[i],
{
    reveal_strlit("bearer ");
    reveal_strlit("BEARER ");
    if 'A' <= c <= 'Z' {
        assert(ascii_lower(c) as u32 == c as u32 + 32);
    }
    assert(ascii_lower("bearer "@[i]) == "bearer "@[i]);
}

/// A credential behind the bearer scheme, in any case, is that without the scheme; any
/// other text is the credential itself.
pub proof fn law_scheme_is_taken_off(scheme: Seq<char>, key: Seq<char>, raw: Seq<char>)
    ensures
        bearer(scheme) ==> without_bearer(scheme + key) == key,
        raw.len() < 7 || !bearer(raw.take(7)) ==> without_bearer(raw) == raw,
{
    reveal_strlit("bearer ");
    assert("bearer "@.len() == 7);
    if bearer(scheme) {
        let all = scheme + key;
        assert forall|i: int| 0 <= i < 7 implies same_letter(#[trigger] all[i], "bearer "@[i]) by {
            assert(all[i] == scheme[i]);
            lemma_letters(scheme[i], i);
        }
        assert(all.skip(7) =~= key);
    }
    if raw.len() >= 7 && has_bearer(raw) {
        let head = raw.take(7);
        assert forall|i: int| 0 <= i < 7 implies #[trigger] head[i] == "bearer "@[i] || head[i]
            == "BEARER "@[i] by {
            assert(same_letter(raw[i], "bearer "@[i]));
            lemma_letters(raw[i], i);
        }
        assert(bearer(head));
    }
}

proof fn lemma_carried_key(fields: HeaderFields, scheme: Seq<char>, key: Seq<char>)
    requires
        bearer(scheme),
        first_says(fields, "authorization"@, scheme + key),
        key.len() > 0,
        !white_space(key[0]),
        !white_space(key.last()),
    ensures
        carried_key(fields) == Some(key),
{
    lemma_shown(scheme + key);
    law_scheme_is_taken_off(scheme, key, key);
    lemma_untrimmed(key);
}

/// A bearer token goes out as the key in the header of the endpoint, and nowhere else;
/// headers that have nothing to do with credentials go out as they are.
pub proof fn law_key_goes_out_under_its_name(
    fields: HeaderFields,
    scheme: Seq<char>,
    key: Seq<char>,
    other: Seq<char>,
)
    requires
        bearer(scheme),
        first_says(fields, "authorization"@, scheme + key),
        key.len() > 0,
        !white_space(key[0]),
        !white_space(key.last()),
    ensures
        anthropic_headers(fields).contains_pair("x-api-key"@, seq![ascii_bytes(key)]),
        anthropic_headers(fields).contains_pair(
            "anthropic-version"@,
            seq![ascii_bytes("2023-06-01"@)],
        ),
        gemini_headers(fields).contains_pair("x-goog-api-key"@, seq![ascii_bytes(key)]),
        !anthropic_headers(fields).dom().contains("authorization"@),
        !gemini_headers(fields).dom().contains("authorization"@),
        other != "authorization"@ && other != "chatgpt-account-id"@ && other != "x-openai-fedramp"@
            ==> {
            &&& other != "x-goog-api-key"@ ==> gemini_headers(fields).dom().contains(other)
                == fields.dom().contains(other)
            &&& other != "x-goog-api-key"@ && fields.dom().contains(other) ==> gemini_headers(
                fields,
            )[other] == fields[other]
            &&& other != "x-api-key"@ && other != "anthropic-version"@ ==> anthropic_headers(
                fields,
            ).dom().contains(other) == fields.dom().contains(other)
            &&& other != "x-api-key"@ && other != "anthropic-version"@ && fields.dom().contains(
                other,
            ) ==> anthropic_headers(fields)[other] == fields[other]
        },
{
    lemma_carried_key(fields, scheme, key);
    reveal_strlit("authorization");
    reveal_strlit("chatgpt-account-id");
    reveal_strlit("x-openai-fedramp");
    reveal_strlit("x-api-key");
    reveal_strlit("x-goog-api-key");
    reveal_strlit("anthropic-version");
    assert("x-api-key"@.len() == 9);
    assert("x-goog-api-key"@.len() == 14);
    assert("anthropic-version"@.len() == 17);
    assert("authorization"@.len() == 13);
    assert("chatgpt-account-id"@.len() == 18);
    assert("x-openai-fedramp"@.len() == 16);
}

/// Without a token no key goes out, and the authorization header goes out in no case.
pub proof fn law_no_token_no_key(fields: HeaderFields, name: Seq<char>)
    requires
        !fields.dom().contains("authorization"@),
        !fields.dom().contains(name),
        name != "authorization"@,
    ensures
        !rekeyed(fields, name).dom().contains(name),
        !rekeyed(fields, name).dom().contains("authorization"@),
{
}

/// Whether a header holds one text and nothing else.
pub open spec fn only_says(fields: HeaderFields, name: Seq<char>, text: Seq<char>) -> bool {
    fields.contains_pair(name, seq![encode_utf8(text)])
}

proof fn lemma_request_names()
    ensures
        "x-client-request-id"@ != "x-openai-subagent"@,
        "x-client-request-id"@ != "accept"@,
        "x-openai-subagent"@ != "accept"@,
{
    reveal_strlit("x-client-request-id");
    reveal_strlit("x-openai-subagent");
    reveal_strlit("accept");
    assert("x-client-request-id"@.len() == 19);
    assert("x-openai-subagent"@.len() == 17);
    assert("accept"@.len() == 6);
}

/// A request goes out under the id of its thread, unless the session names another, and
/// on behalf of its agent. What the session sets holds before what the caller gives,
/// and everything else is as the caller gives it.
pub proof fn law_requests_tell_where_they_come_from(
    extra: HeaderFields,
    thread_id: Option<Seq<char>>,
    session: HeaderFields,
    subagent: Option<Seq<char>>,
    text: Seq<char>,
    other: Seq<char>,
)
    requires
        header_line(text),
    ensures
        ({
            let sent = request_fields(extra, thread_id, session, subagent);
            &&& thread_id == Some(text) && !session.dom().contains("x-client-request-id"@)
                ==> only_says(sent, "x-client-request-id"@, text)
            &&& session.dom().contains("x-client-request-id"@) ==> sent.contains_pair(
                "x-client-request-id"@,
                session["x-client-request-id"@],
            )
            &&& subagent == Some(text) ==> only_says(sent, "x-openai-subagent"@, text)
            &&& other != "x-client-request-id"@ && other != "x-openai-subagent"@ && other
                != "accept"@ ==> {
                &&& session.dom().contains(other) ==> sent.contains_pair(other, session[other])
                &&& !session.dom().contains(other) && extra.dom().contains(other)
                    ==> sent.contains_pair(other, extra[other])
                &&& !session.dom().contains(other) && !extra.dom().contains(other)
                    ==> !sent.dom().contains(other)
            }
        }),
{
    lemma_request_names();
}

/// A model is asked at its own address.
pub proof fn law_models_have_their_addresses(model: Seq<char>, other: Seq<char>)
    ensures
        model_path(model) == "v1beta/models/"@ + model + ":streamGenerateContent?alt=sse"@,
        model_path(model) == model_path(other) ==> model == other,
{
    if model_path(model) == model_path(other) {
        let n = "v1beta/models/"@.len();
        let k = ":streamGenerateContent?alt=sse"@.len();
        assert(model_path(model).len() == n + model.len() + k);
        assert(model_path(other).len() == n + other.len() + k);
        assert(model_path(model).subrange(n as int, (n + model.len()) as int) =~= model);
        assert(model_path(other).subrange(n as int, (n + other.len()) as int) =~= other);
    }
}

} // verus!
