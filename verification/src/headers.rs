//! HTTP header maps.
//!
//! The map itself and its values are those of the `http` crate. What a map
//! holds is named by `header_fields`: for each header name, in lower case, its
//! values in order, each as bytes.

use vstd::prelude::*;
use vstd::utf8::encode_utf8;
use vstd::string::*;

verus! {

/// `http::HeaderMap`, opaque here.
#[verifier::external_type_specification]
#[verifier::external_body]
#[verifier::reject_recursive_types(T)]
pub struct ExHeaderMap<T>(http::HeaderMap<T>);

/// `http::HeaderValue`, opaque here.
#[verifier::external_type_specification]
#[verifier::external_body]
pub struct ExHeaderValue(http::HeaderValue);

/// `http::HeaderName`, opaque here.
#[verifier::external_type_specification]
#[verifier::external_body]
pub struct ExHeaderName(http::HeaderName);

/// What a header map holds: the values of each name, in order. No name has an
/// empty list of values.
pub uninterp spec fn header_fields(headers: http::HeaderMap) -> Map<Seq<char>, Seq<Seq<u8>>>;

/// The number of names that a header map holds.
pub uninterp spec fn header_names(headers: http::HeaderMap) -> nat;

/// The bytes of a header value.
pub uninterp spec fn header_bytes(value: http::HeaderValue) -> Seq<u8>;

/// The text of a header name, in lower case.
pub uninterp spec fn header_name_text(name: http::HeaderName) -> Seq<char>;

/// With this many header names or fewer, a map has room for one more whatever
/// its hash table looks like.
pub const HEADER_NAMES_WITH_ROOM: usize = 6553;

/// A header name in lower case: letters, digits and hyphens.
pub open spec fn plain_header_name(name: Seq<char>) -> bool {
    &&& 0 < name.len() < 64
    &&& forall|i: int|
        0 <= i < name.len() ==> {
            let c = #[trigger] name[i];
            'a' <= c <= 'z' || '0' <= c <= '9' || c == '-'
        }
}

/// The fields with one more value of a name.
pub open spec fn with_value(
    fields: Map<Seq<char>, Seq<Seq<u8>>>,
    name: Seq<char>,
    bytes: Seq<u8>,
) -> Map<Seq<char>, Seq<Seq<u8>>> {
    let held = if fields.dom().contains(name) {
        fields[name]
    } else {
        Seq::empty()
    };
    fields.insert(name, held.push(bytes))
}

/// The name that the last of some values belongs to: its own, or that of the
/// value before it.
pub open spec fn listed_name(items: Seq<(Option<http::HeaderName>, http::HeaderValue)>) -> Seq<
    char,
>
    decreases items.len(),
{
    if items.len() == 0 {
        Seq::empty()
    } else {
        match items.last().0 {
            Some(name) => header_name_text(name),
            None => listed_name(items.drop_last()),
        }
    }
}

/// How many values come with a name.
pub open spec fn names_listed(items: Seq<(Option<http::HeaderName>, http::HeaderValue)>) -> nat
    decreases items.len(),
{
    if items.len() == 0 {
        0
    } else {
        names_listed(items.drop_last()) + (if items.last().0 is Some {
            1nat
        } else {
            0
        })
    }
}

/// The fields with more values: one with a name replaces what the name held, one
/// without is a further value of the name before it.
pub open spec fn with_items(
    fields: Map<Seq<char>, Seq<Seq<u8>>>,
    items: Seq<(Option<http::HeaderName>, http::HeaderValue)>,
) -> Map<Seq<char>, Seq<Seq<u8>>>
    decreases items.len(),
{
    if items.len() == 0 {
        fields
    } else {
        let before = with_items(fields, items.drop_last());
        let bytes = header_bytes(items.last().1);
        if items.last().0 is Some {
            before.insert(listed_name(items), seq![bytes])
        } else {
            with_value(before, listed_name(items), bytes)
        }
    }
}

/// A byte that a header value shows as text: visible ASCII, a space or a tab.
pub open spec fn shown_byte(b: u8) -> bool {
    32 <= b < 127 || b == 9
}

/// A character that a header value can hold: anything but control characters,
/// except for the tab.
pub open spec fn header_char(c: char) -> bool {
    (c as u32 >= 32 && c as u32 != 127) || c as u32 == 9
}

/// The text of bytes that are shown as text.
pub open spec fn shown_text(bytes: Seq<u8>) -> Seq<char> {
    Seq::new(bytes.len(), |i: int| bytes[i] as char)
}

/// `http::HeaderMap::get` with a name in lower case: the first value of the
/// name.
#[verifier::external_body]
pub(crate) fn header_get<'a>(headers: &'a http::HeaderMap, name: &str) -> (r: Option<
    &'a http::HeaderValue,
>)
    requires
        plain_header_name(name@),
    ensures
        match r {
            Some(value) => header_fields(*headers).dom().contains(name@) && header_fields(
                *headers,
            )[name@].len() > 0 && header_bytes(*value) == header_fields(*headers)[name@][0],
            None => !header_fields(*headers).dom().contains(name@),
        },
{
    headers.get(name)
}

/// `http::HeaderMap::remove` with a name in lower case: takes the name with all
/// its values out and hands back the first value.
#[verifier::external_body]
pub(crate) fn header_remove(headers: &mut http::HeaderMap, name: &str) -> (r: Option<
    http::HeaderValue,
>)
    requires
        plain_header_name(name@),
    ensures
        header_fields(*final(headers)) == header_fields(*old(headers)).remove(name@),
        header_names(*final(headers)) + (if r is Some {
            1nat
        } else {
            0
        }) == header_names(*old(headers)),
        match r {
            Some(value) => header_fields(*old(headers)).dom().contains(name@) && header_fields(
                *old(headers),
            )[name@].len() > 0 && header_bytes(value) == header_fields(*old(headers))[name@][0],
            None => !header_fields(*old(headers)).dom().contains(name@),
        },
{
    headers.remove(name)
}

/// `http::HeaderName::from_static`: the name with a text in lower case.
#[verifier::external_body]
pub(crate) fn header_name(text: &'static str) -> (r: http::HeaderName)
    requires
        plain_header_name(text@),
    ensures
        header_name_text(r) == text@,
{
    http::HeaderName::from_static(text)
}

/// `http::HeaderMap::try_insert`: the name then holds this one value. A map that
/// cannot grow any further refuses and is left with what it holds; one with few
/// names does not refuse.
#[verifier::external_body]
pub(crate) fn header_insert(
    headers: &mut http::HeaderMap,
    name: &http::HeaderName,
    value: http::HeaderValue,
) -> (r: bool)
    ensures
        header_names(*old(headers)) <= HEADER_NAMES_WITH_ROOM ==> r,
        header_names(*final(headers)) == header_names(*old(headers)) + (if r
            && !header_fields(*old(headers)).dom().contains(header_name_text(*name)) {
            1nat
        } else {
            0
        }),
        header_fields(*final(headers)) == (if r {
            header_fields(*old(headers)).insert(header_name_text(*name), seq![header_bytes(value)])
        } else {
            header_fields(*old(headers))
        }),
{
    headers.try_insert(name, value).is_ok()
}

/// `http::HeaderMap::try_append`: the name then holds this value after those
/// that it held. A map that cannot grow any further refuses and is left with
/// what it holds; one with few names does not refuse.
#[verifier::external_body]
pub(crate) fn header_append(
    headers: &mut http::HeaderMap,
    name: &http::HeaderName,
    value: http::HeaderValue,
) -> (r: bool)
    ensures
        header_names(*old(headers)) <= HEADER_NAMES_WITH_ROOM ==> r,
        header_names(*final(headers)) == header_names(*old(headers)) + (if r
            && !header_fields(*old(headers)).dom().contains(header_name_text(*name)) {
            1nat
        } else {
            0
        }),
        header_fields(*final(headers)) == (if r {
            with_value(header_fields(*old(headers)), header_name_text(*name), header_bytes(value))
        } else {
            header_fields(*old(headers))
        }),
{
    headers.try_append(name, value).is_ok()
}

/// `http::HeaderMap::into_iter`: each value of the map, the first one of a name
/// with the name and the further ones without.
#[verifier::external_body]
pub(crate) fn header_items(headers: http::HeaderMap) -> (r: Vec<
    (Option<http::HeaderName>, http::HeaderValue),
>)
    ensures
        r@.len() > 0 ==> r@[0].0 is Some,
        names_listed(r@) == header_names(headers),
        with_items(Map::empty(), r@) == header_fields(headers),
{
    headers.into_iter().collect()
}

/// Bytes that are all shown as text.
pub open spec fn all_shown(bytes: Seq<u8>) -> bool {
    forall|i: int| 0 <= i < bytes.len() ==> shown_byte(#[trigger] bytes[i])
}

/// A text that a header value can hold.
pub open spec fn header_line(text: Seq<char>) -> bool {
    forall|i: int| 0 <= i < text.len() ==> header_char(#[trigger] text[i])
}

/// A text in ASCII.
pub open spec fn ascii_text(text: Seq<char>) -> bool {
    forall|i: int| 0 <= i < text.len() ==> (#[trigger] text[i] as u32) < 128
}

/// The bytes of a text in ASCII.
pub open spec fn ascii_bytes(text: Seq<char>) -> Seq<u8> {
    Seq::new(text.len(), |i: int| text[i] as u8)
}

/// `http::HeaderValue::to_str`: the text of a value that holds nothing but
/// visible ASCII, spaces and tabs.
#[verifier::external_body]
pub(crate) fn header_text(value: &http::HeaderValue) -> (r: Option<String>)
    ensures
        r.deep_view() == (if all_shown(header_bytes(*value)) {
            Some(shown_text(header_bytes(*value)))
        } else {
            None
        }),
{
    value.to_str().ok().map(String::from)
}

/// `http::HeaderValue::from_str`: the value that holds a text in UTF-8, unless
/// the text holds a control character other than the tab. In ASCII each
/// character is one byte.
#[verifier::external_body]
pub(crate) fn header_value(text: &str) -> (r: Option<http::HeaderValue>)
    ensures
        r is Some <==> header_line(text@),
        r matches Some(value) ==> header_bytes(value) == encode_utf8(text@),
        r matches Some(value) ==> ascii_text(text@) ==> header_bytes(value) == ascii_bytes(text@),
{
    http::HeaderValue::from_str(text).ok()
}

proof fn lemma_with_items(
    fields: Map<Seq<char>, Seq<Seq<u8>>>,
    items: Seq<(Option<http::HeaderName>, http::HeaderValue)>,
)
    requires
        items.len() > 0 ==> items[0].0 is Some,
    ensures
        with_items(fields, items) == fields.union_prefer_right(with_items(Map::empty(), items)),
        items.len() > 0 ==> with_items(Map::empty(), items).dom().contains(listed_name(items)),
    decreases items.len(),
{
    let none = Map::<Seq<char>, Seq<Seq<u8>>>::empty();
    if items.len() == 0 {
        assert(fields.union_prefer_right(none) =~= fields);
    } else {
        let rest = items.drop_last();
        assert(rest.len() > 0 ==> rest[0] == items[0]);
        lemma_with_items(fields, rest);
        assert(with_items(fields, items) =~= fields.union_prefer_right(with_items(none, items)));
    }
}

/// A header map with all that another one holds: each name of the other map
/// holds what it holds there, and every other name what it held before. There
/// is none where the map cannot grow so far, which two maps with few names are
/// far from.
pub fn joined_headers(headers: http::HeaderMap, more: http::HeaderMap) -> (r: Option<
    http::HeaderMap,
>)
    ensures
        match r {
            Some(joined) => header_fields(joined) == header_fields(headers).union_prefer_right(
                header_fields(more),
            ) && header_names(joined) <= header_names(headers) + header_names(more),
            None => header_names(headers) + header_names(more) > HEADER_NAMES_WITH_ROOM,
        },
{
    let ghost fields = header_fields(headers);
    let mut joined = headers;
    let mut name: Option<http::HeaderName> = None;
    let items = header_items(more);
    let ghost all = items@;
    assert(all.take(0) =~= Seq::<(Option<http::HeaderName>, http::HeaderValue)>::empty());
    for item in it: items
        invariant
            it.seq() == all,
            all.len() > 0 ==> all[0].0 is Some,
            fields == header_fields(headers),
            names_listed(all) == header_names(more),
            it.index() > 0 ==> name is Some,
            name matches Some(n) ==> header_name_text(n) == listed_name(
                all.take(it.index() as int),
            ),
            header_fields(joined) == with_items(fields, all.take(it.index() as int)),
            header_names(joined) <= header_names(headers) + names_listed(
                all.take(it.index() as int),
            ),
    {
        let ghost i = it.index() as int;
        proof {
            assert(all.take(i + 1).drop_last() =~= all.take(i));
            assert(all.take(i + 1).last() == item);
            assert(i > 0 ==> all.take(i)[0] == all[0]);
            lemma_with_items(fields, all.take(i));
            lemma_names_listed(all, i + 1);
        }
        let (own, value) = item;
        let put = match own {
            Some(n) => {
                let put = header_insert(&mut joined, &n, value);
                name = Some(n);
                put
            },
            None => match &name {
                Some(n) => header_append(&mut joined, n, value),
                None => true,
            },
        };
        if !put {
            return None;
        }
    }
    proof {
        assert(all.take(all.len() as int) =~= all);
        lemma_with_items(fields, all);
    }
    Some(joined)
}

proof fn lemma_names_listed(
    items: Seq<(Option<http::HeaderName>, http::HeaderValue)>,
    i: int,
)
    requires
        0 <= i <= items.len(),
    ensures
        names_listed(items.take(i)) <= names_listed(items),
    decreases items.len() - i,
{
    if i < items.len() {
        lemma_names_listed(items, i + 1);
        assert(items.take(i + 1).drop_last() =~= items.take(i));
    } else {
        assert(items.take(i) =~= items);
    }
}

} // verus!
