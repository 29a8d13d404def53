//! Credentials: from the bearer token of the neutral provider to the key header
//! of a protocol.

use vstd::prelude::*;
use vstd::string::*;

use crate::headers::all_shown;
use crate::headers::ascii_bytes;
use crate::headers::ascii_text;
use crate::headers::header_bytes;
use crate::headers::header_char;
use crate::headers::header_fields;
use crate::headers::header_insert;
use crate::headers::header_line;
use crate::headers::header_name;
use crate::headers::header_names;
use crate::headers::header_remove;
use crate::headers::header_text;
use crate::headers::header_value;
use crate::headers::plain_header_name;
use crate::headers::shown_byte;
use crate::headers::shown_text;
use crate::headers::HEADER_NAMES_WITH_ROOM;
use crate::text::chars_of;
use crate::text::text_of;
use crate::text::trim;
use crate::text::trim_end;
use crate::text::trim_start;
use crate::text::trimmed;
use crate::text::white_space;

verus! {

/// The character in lower case, within ASCII.
pub open spec fn ascii_lower(c: char) -> char {
    if 'A' <= c <= 'Z' {
        ((c as u32) + 32) as char
    } else {
        c
    }
}

/// Whether two characters are the same but for ASCII case.
pub open spec fn same_letter(a: char, b: char) -> bool {
    ascii_lower(a) == ascii_lower(b)
}

/// Whether a text begins with the bearer scheme, in any case.
pub open spec fn has_bearer(raw: Seq<char>) -> bool {
    &&& "bearer "@.len() <= raw.len()
    &&& forall|i: int|
        0 <= i < "bearer "@.len() ==> same_letter(#[trigger] raw[i], "bearer "@[i])
}

/// A credential without the bearer scheme; any other text is the credential
/// itself.
pub open spec fn without_bearer(raw: Seq<char>) -> Seq<char> {
    if has_bearer(raw) {
        raw.skip("bearer "@.len() as int)
    } else {
        raw
    }
}

/// The key that an authorization header carries: the first value, when it is
/// text, without the bearer scheme and surrounding white space; none when
/// nothing is left.
pub open spec fn carried_key(fields: Map<Seq<char>, Seq<Seq<u8>>>) -> Option<Seq<char>> {
    if fields.dom().contains("authorization"@) && all_shown(fields["authorization"@][0]) {
        let key = trimmed(without_bearer(shown_text(fields["authorization"@][0])));
        if key.len() == 0 {
            None
        } else {
            Some(key)
        }
    } else {
        None
    }
}

/// The headers without the authorization header and without those that belong to
/// OpenAI alone.
pub open spec fn without_credentials(fields: Map<Seq<char>, Seq<Seq<u8>>>) -> Map<
    Seq<char>,
    Seq<Seq<u8>>,
> {
    fields.remove("authorization"@).remove("chatgpt-account-id"@).remove("x-openai-fedramp"@)
}

/// The headers with the carried key under its own name in place of the
/// authorization header, and without the headers that belong to OpenAI alone.
pub open spec fn rekeyed(
    fields: Map<Seq<char>, Seq<Seq<u8>>>,
    name: Seq<char>,
) -> Map<Seq<char>, Seq<Seq<u8>>> {
    let bare = fields.remove("authorization"@);
    let keyed = match carried_key(fields) {
        Some(key) => bare.insert(name, seq![ascii_bytes(key)]),
        None => bare,
    };
    keyed.remove("chatgpt-account-id"@).remove("x-openai-fedramp"@)
}

fn lower(c: char) -> (r: char)
    ensures
        r == ascii_lower(c),
{
    if 'A' <= c && c <= 'Z' {
        ((c as u8) + 32) as char
    } else {
        c
    }
}

/// Takes the bearer scheme off a credential.
pub fn strip_bearer_prefix(raw: &str) -> (r: String)
    ensures
        r@ == without_bearer(raw@),
{
    let chars = chars_of(raw);
    let prefix = chars_of("bearer ");
    let n: usize = chars.len();
    let k: usize = prefix.len();
    if k > n {
        return raw.to_owned();
    }
    let mut i: usize = 0;
    while i < k
        invariant
            i <= k <= n,
            n == chars@.len(),
            k == prefix@.len(),
            chars@ == raw@,
            prefix@ == "bearer "@,
            forall|j: int| 0 <= j < i ==> same_letter(#[trigger] raw@[j], "bearer "@[j]),
        decreases k - i,
    {
        if lower(chars[i]) != lower(prefix[i]) {
            assert(!same_letter(raw@[i as int], "bearer "@[i as int]));
            return raw.to_owned();
        }
        i += 1;
    }
    let rest = text_of(&chars, k, n);
    assert(rest@ =~= raw@.skip(k as int));
    rest
}

/// A text of characters that header values show.
spec fn shown_chars(s: Seq<char>) -> bool {
    forall|i: int| 0 <= i < s.len() ==> ((32 <= (#[trigger] s[i]) as u32 && (s[i] as u32) < 127)
        || s[i] as u32 == 9)
}

proof fn lemma_trim_shown(s: Seq<char>)
    requires
        shown_chars(s),
    ensures
        shown_chars(trim_start(s)),
        shown_chars(trim_end(s)),
    decreases s.len(),
{
    if s.len() > 0 {
        if white_space(s[0]) {
            lemma_trim_shown(s.subrange(1, s.len() as int));
        }
        if white_space(s[s.len() - 1]) {
            lemma_trim_shown(s.subrange(0, s.len() - 1));
        }
    }
}

proof fn lemma_key_shown(raw: Seq<char>)
    requires
        shown_chars(raw),
    ensures
        header_line(trimmed(without_bearer(raw))),
        ascii_text(trimmed(without_bearer(raw))),
{
    let bare = without_bearer(raw);
    assert(shown_chars(bare));
    lemma_trim_shown(bare);
    lemma_trim_shown(trim_start(bare));
    let key = trimmed(bare);
    assert(shown_chars(key));
    assert forall|i: int| 0 <= i < key.len() implies header_char(#[trigger] key[i]) by {}
}

proof fn lemma_auth_header_names()
    ensures
        plain_header_name("authorization"@),
        plain_header_name("chatgpt-account-id"@),
        plain_header_name("x-openai-fedramp"@),
{
    reveal_strlit("authorization");
    reveal_strlit("chatgpt-account-id");
    reveal_strlit("x-openai-fedramp");
}

/// Moves the carried key to its own header and drops the headers that belong to
/// OpenAI alone. A map that has no room for the key, which one with few names
/// has, is left without credentials.
pub fn rekey_headers(headers: &mut http::HeaderMap, name: &'static str) -> (r: bool)
    requires
        plain_header_name(name@),
    ensures
        header_names(*old(headers)) <= HEADER_NAMES_WITH_ROOM ==> r,
        carried_key(header_fields(*old(headers))) is None ==> r,
        header_fields(*final(headers)) == (if r {
            rekeyed(header_fields(*old(headers)), name@)
        } else {
            without_credentials(header_fields(*old(headers)))
        }),
        header_names(*final(headers)) <= header_names(*old(headers)),
{
    let mut keyed = true;
    proof {
        lemma_auth_header_names();
    }
    if let Some(auth_value) = header_remove(headers, "authorization") {
        if let Some(raw) = header_text(&auth_value) {
            let bare = strip_bearer_prefix(raw.as_str());
            let token = trim(bare.as_str());
            proof {
                let bytes = header_bytes(auth_value);
                assert(shown_chars(raw@)) by {
                    assert forall|i: int| 0 <= i < raw@.len() implies ((32 <= (#[trigger] raw@[i]) as u32
                        && (raw@[i] as u32) < 127) || raw@[i] as u32 == 9) by {
                        assert(shown_byte(bytes[i]));
                    }
                }
                lemma_key_shown(raw@);
            }
            if !token.as_str().is_empty() {
                if let Some(value) = header_value(token.as_str()) {
                    keyed = header_insert(headers, &header_name(name), value);
                }
            }
        }
    }
    let _ = header_remove(headers, "chatgpt-account-id");
    let _ = header_remove(headers, "x-openai-fedramp");
    keyed
}

/// The headers that go out carry neither the authorization header nor those that
/// belong to OpenAI alone, with the carried key and without it.
pub proof fn law_credentials_stay_home(fields: Map<Seq<char>, Seq<Seq<u8>>>, name: Seq<char>)
    requires
        name != "authorization"@,
    ensures
        !without_credentials(fields).dom().contains("authorization"@),
        !without_credentials(fields).dom().contains("chatgpt-account-id"@),
        !without_credentials(fields).dom().contains("x-openai-fedramp"@),
        !rekeyed(fields, name).dom().contains("authorization"@),
        !rekeyed(fields, name).dom().contains("chatgpt-account-id"@),
        !rekeyed(fields, name).dom().contains("x-openai-fedramp"@),
{
}

} // verus!
