//! Reading and writing JSON text through `serde_json`.

use vstd::prelude::*;

use crate::json::docs;
use crate::json::field_index;
use crate::json::field_map;
use crate::json::lemma_docs_push;
use crate::json::lemma_field_map_key;
use crate::json::Json;
use crate::json::JsonView;

verus! {

/// `serde_json::Value`, a JSON document of the outside crate.
#[verifier::external_type_specification]
#[verifier::external_body]
pub struct ExValue(serde_json::Value);

/// `serde_json::Number`, a JSON number of the outside crate.
#[verifier::external_type_specification]
#[verifier::external_body]
pub struct ExNumber(serde_json::Number);

/// `serde_json::Map`, the fields of a JSON object of the outside crate.
#[verifier::external_type_specification]
#[verifier::external_body]
#[verifier::reject_recursive_types(K)]
#[verifier::reject_recursive_types(V)]
pub struct ExMap<K, V>(serde_json::Map<K, V>);

/// `serde_json::Error`, why a text is no JSON document.
#[verifier::external_type_specification]
#[verifier::external_body]
pub struct ExError(serde_json::Error);

/// The document that a `serde_json::Value` holds.
pub uninterp spec fn value_doc(value: serde_json::Value) -> JsonView;

/// The number that a `serde_json::Number` holds.
pub uninterp spec fn number_doc(number: serde_json::Number) -> JsonView;

/// The fields that a `serde_json::Map` holds.
pub uninterp spec fn map_doc(map: serde_json::Map<String, serde_json::Value>) -> Map<
    Seq<char>,
    JsonView,
>;

/// The document that `serde_json::from_str` reads from a text, if it reads one.
pub uninterp spec fn parsed_json(text: Seq<char>) -> Option<JsonView>;

/// The number that `serde_json::from_str` reads from a text, if it reads one.
pub uninterp spec fn parsed_number(text: Seq<char>) -> Option<JsonView>;

/// The text that `serde_json::to_string` writes for a document.
pub uninterp spec fn json_text(doc: JsonView) -> Seq<char>;

/// The text that `serde_json::to_string_pretty` writes for a document.
pub uninterp spec fn json_pretty(doc: JsonView) -> Seq<char>;

/// How deeply lists and objects may be nested in a text that is read.
pub const JSON_DEPTH: u8 = 127;

/// Whether lists and objects are nested at most so deeply in a document.
pub open spec fn within(doc: JsonView, depth: nat) -> bool
    decreases depth,
{
    match doc {
        JsonView::List(items) => depth > 0 && forall|i: int|
            0 <= i < items.len() ==> within(#[trigger] items[i], (depth - 1) as nat),
        JsonView::Fields(fields) => depth > 0 && forall|k: Seq<char>|
            fields.dom().contains(k) ==> within(#[trigger] fields[k], (depth - 1) as nat),
        _ => true,
    }
}

/// One level of a `serde_json::Value`.
pub enum ValueParts {
    Null,
    Bool(bool),
    Number(serde_json::Number),
    Text(String),
    List(Vec<serde_json::Value>),
    Fields(serde_json::Map<String, serde_json::Value>),
}

/// The documents of a list of values.
pub open spec fn value_docs(values: Seq<serde_json::Value>) -> Seq<JsonView> {
    Seq::new(values.len(), |i: int| value_doc(values[i]))
}

/// The fields of a list of pairs; of two pairs with the same key the later one
/// holds.
pub open spec fn value_fields(pairs: Seq<(String, serde_json::Value)>) -> Map<Seq<char>, JsonView>
    decreases pairs.len(),
{
    if pairs.len() == 0 {
        Map::empty()
    } else {
        value_fields(pairs.drop_last()).insert(pairs.last().0@, value_doc(pairs.last().1))
    }
}

/// Whether pairs with the same key have the same value.
pub open spec fn agreeing(pairs: Seq<(String, serde_json::Value)>) -> bool {
    forall|i: int, j: int|
        #![trigger pairs[i], pairs[j]]
        0 <= i < pairs.len() && 0 <= j < pairs.len() && pairs[i].0@ == pairs[j].0@ ==> value_doc(
            pairs[i].1,
        ) == value_doc(pairs[j].1)
}

/// The document that one level stands for.
pub open spec fn parts_doc(parts: ValueParts) -> JsonView {
    match parts {
        ValueParts::Null => JsonView::Null,
        ValueParts::Bool(b) => JsonView::Bool(b),
        ValueParts::Number(n) => number_doc(n),
        ValueParts::Text(s) => JsonView::Text(s@),
        ValueParts::List(values) => JsonView::List(value_docs(values@)),
        ValueParts::Fields(map) => JsonView::Fields(map_doc(map)),
    }
}

/// Whether a document is a number, a signed one being negative.
pub open spec fn is_number(doc: JsonView) -> bool {
    doc is Unsigned || (doc matches JsonView::Signed(n) && n < 0) || doc is Decimal
}

/// Takes a `serde_json::Value` apart by one level: each variant gives its fields.
/// A number that is no integer is written in decimals that are read as the same
/// number again.
#[verifier::external_body]
fn value_parts(value: serde_json::Value) -> (r: ValueParts)
    ensures
        value_doc(value) == parts_doc(r),
        r matches ValueParts::Number(n) ==> is_number(number_doc(n)) && writable(number_doc(n)),
        r matches ValueParts::Fields(m) ==> map_doc(m).dom().finite(),
{
    match value {
        serde_json::Value::Null => ValueParts::Null,
        serde_json::Value::Bool(b) => ValueParts::Bool(b),
        serde_json::Value::Number(n) => ValueParts::Number(n),
        serde_json::Value::String(s) => ValueParts::Text(s),
        serde_json::Value::Array(a) => ValueParts::List(a),
        serde_json::Value::Object(m) => ValueParts::Fields(m),
    }
}

/// Puts one level of a `serde_json::Value` together.
#[verifier::external_body]
fn value_of_parts(parts: ValueParts) -> (r: serde_json::Value)
    ensures
        value_doc(r) == parts_doc(parts),
{
    match parts {
        ValueParts::Null => serde_json::Value::Null,
        ValueParts::Bool(b) => serde_json::Value::Bool(b),
        ValueParts::Number(n) => serde_json::Value::Number(n),
        ValueParts::Text(s) => serde_json::Value::String(s),
        ValueParts::List(a) => serde_json::Value::Array(a),
        ValueParts::Fields(m) => serde_json::Value::Object(m),
    }
}

/// The pairs of a `serde_json::Map`, by its `into_iter`: one for each field.
#[verifier::external_body]
fn map_pairs(map: serde_json::Map<String, serde_json::Value>) -> (r: Vec<(String, serde_json::Value)>)
    ensures
        value_fields(r@) == map_doc(map),
        forall|i: int|
            0 <= i < r@.len() ==> map_doc(map).contains_pair(
                (#[trigger] r@[i]).0@,
                value_doc(r@[i].1),
            ),
{
    map.into_iter().collect()
}

/// A `serde_json::Map` from pairs, by its `FromIterator`: it holds each pair, where
/// pairs with the same key have the same value.
#[verifier::external_body]
fn map_of_pairs(pairs: Vec<(String, serde_json::Value)>) -> (r: serde_json::Map<
    String,
    serde_json::Value,
>)
    ensures
        agreeing(pairs@) ==> map_doc(r) == value_fields(pairs@),
{
    pairs.into_iter().collect()
}

/// `serde_json::Number::as_u64`: the value of an integer that is not negative.
#[verifier::external_body]
fn number_as_u64(n: &serde_json::Number) -> (r: Option<u64>)
    ensures
        r == (match number_doc(*n) {
            JsonView::Unsigned(v) => Some(v),
            _ => None,
        }),
{
    n.as_u64()
}

/// `serde_json::Number::as_i64`: the value of an integer that fits.
#[verifier::external_body]
fn number_as_i64(n: &serde_json::Number) -> (r: Option<i64>)
    ensures
        r == (match number_doc(*n) {
            JsonView::Unsigned(v) => if v <= i64::MAX {
                Some(v as i64)
            } else {
                None
            },
            JsonView::Signed(v) => Some(v),
            _ => None,
        }),
{
    n.as_i64()
}

/// `serde_json::Number::to_string`: the decimal text of a number that is no
/// integer; of an integer nothing is claimed here.
#[verifier::external_body]
fn number_text(n: &serde_json::Number) -> (r: String)
    ensures
        number_doc(*n) matches JsonView::Decimal(t) ==> r@ == t,
{
    n.to_string()
}

/// `serde_json::Number::from(u64)`.
#[verifier::external_body]
fn number_of_u64(n: u64) -> (r: serde_json::Number)
    ensures
        number_doc(r) == JsonView::Unsigned(n),
{
    serde_json::Number::from(n)
}

/// `serde_json::Number::from(i64)`.
#[verifier::external_body]
fn number_of_i64(n: i64) -> (r: serde_json::Number)
    ensures
        number_doc(r) == (if n < 0 {
            JsonView::Signed(n)
        } else {
            JsonView::Unsigned(n as u64)
        }),
{
    serde_json::Number::from(n)
}

/// `serde_json::from_str` at type `Number`.
#[verifier::external_body]
fn number_of_text(text: &str) -> (r: Result<serde_json::Number, serde_json::Error>)
    ensures
        match r {
            Ok(n) => parsed_number(text@) == Some(number_doc(n)) && is_number(number_doc(n)),
            Err(_) => parsed_number(text@) is None,
        },
{
    serde_json::from_str(text)
}

/// `serde_json::from_str` at type `Value`.
#[verifier::external_body]
fn value_of_text(text: &str) -> (r: Result<serde_json::Value, serde_json::Error>)
    ensures
        match r {
            Ok(v) => parsed_json(text@) == Some(value_doc(v)),
            Err(_) => parsed_json(text@) is None,
        },
{
    serde_json::from_str(text)
}

/// `serde_json::to_string` of a `Value`: it does not fail, since no key of an
/// object is anything but text. Unless the value is nested more deeply than the
/// reader goes, `serde_json::from_str` reads it back from the text.
#[verifier::external_body]
fn value_to_text(value: &serde_json::Value) -> (r: Result<String, serde_json::Error>)
    ensures
        r is Ok,
        r matches Ok(s) ==> s@ == json_text(value_doc(*value)),
        r matches Ok(s) ==> within(value_doc(*value), JSON_DEPTH as nat) ==> parsed_json(s@)
            == Some(value_doc(*value)),
{
    serde_json::to_string(value)
}

/// `serde_json::to_string_pretty` of a `Value`: it does not fail, since no key of
/// an object is anything but text.
#[verifier::external_body]
fn value_to_pretty(value: &serde_json::Value) -> (r: Result<String, serde_json::Error>)
    ensures
        r is Ok,
        r matches Ok(s) ==> s@ == json_pretty(value_doc(*value)),
{
    serde_json::to_string_pretty(value)
}

/// Whether every decimal number of a document is in the form in which it is
/// written, so that the document can be written as text.
pub open spec fn writable(doc: JsonView) -> bool
    decreases doc,
{
    match doc {
        JsonView::Decimal(t) => parsed_number(t) == Some(doc),
        JsonView::List(items) => forall|i: int| 0 <= i < items.len() ==> writable(#[trigger] items[i]),
        JsonView::Fields(fields) => forall|k: Seq<char>|
            fields.dom().contains(k) ==> writable(#[trigger] fields[k]),
        _ => true,
    }
}

proof fn lemma_value_docs_push(values: Seq<serde_json::Value>, value: serde_json::Value)
    ensures
        value_docs(values.push(value)) == value_docs(values).push(value_doc(value)),
{
    assert(value_docs(values.push(value)) =~= value_docs(values).push(value_doc(value)));
}

proof fn lemma_item_not_writable(items: Seq<JsonView>, i: int)
    requires
        0 <= i < items.len(),
        !writable(items[i]),
    ensures
        !writable(JsonView::List(items)),
{
    let doc = JsonView::List(items);
    if writable(doc) {
        assert(writable(doc->List_0[i]));
    }
}

proof fn lemma_field_not_writable(fields: Map<Seq<char>, JsonView>, key: Seq<char>)
    requires
        fields.dom().contains(key),
        !writable(fields[key]),
    ensures
        !writable(JsonView::Fields(fields)),
{
    let doc = JsonView::Fields(fields);
    if writable(doc) {
        assert(writable(doc->Fields_0[key]));
    }
}

/// The library's form of a `serde_json::Value`.
fn from_value(value: serde_json::Value) -> (r: Json)
    ensures
        r@ == value_doc(value),
        writable(r@),
    decreases value_doc(value),
{
    match value_parts(value) {
        ValueParts::Null => Json::Null,
        ValueParts::Bool(b) => Json::Bool(b),
        ValueParts::Number(n) => {
            if let Some(v) = number_as_u64(&n) {
                Json::Unsigned(v)
            } else if let Some(v) = number_as_i64(&n) {
                Json::Signed(v)
            } else {
                Json::Decimal(number_text(&n))
            }
        },
        ValueParts::Text(s) => Json::Text(s),
        ValueParts::List(values) => {
            let mut out: Vec<Json> = Vec::new();
            for item in it: values
                invariant
                    it.seq() == values@,
                    value_doc(value) == JsonView::List(value_docs(values@)),
                    docs(out@) == value_docs(values@).take(it.index() as int),
                    forall|j: int| 0 <= j < it.index() ==> writable(#[trigger] value_docs(values@)[j]),
            {
                proof {
                    let i = it.index() as int;
                    let items = value_doc(value)->List_0;
                    assert(decreases_to!(value_doc(value) => value_doc(value)->List_0));
                    assert(decreases_to!(items => items[i]));
                }
                let converted = from_value(item);
                proof {
                    let i = it.index() as int;
                    lemma_docs_push(out@, converted);
                    assert(value_docs(values@).take(i + 1) =~= value_docs(values@).take(i).push(
                        converted@,
                    ));
                }
                out.push(converted);
            }
            proof {
                assert(value_docs(values@).take(values@.len() as int) =~= value_docs(values@));
            }
            Json::List(out)
        },
        ValueParts::Fields(map) => {
            let pairs = map_pairs(map);
            let mut out: Vec<(String, Json)> = Vec::new();
            proof {
                assert(pairs@.take(0) =~= Seq::<(String, serde_json::Value)>::empty());
            }
            for pair in it: pairs
                invariant
                    it.seq() == pairs@,
                    value_doc(value) == JsonView::Fields(map_doc(map)),
                    map_doc(map).dom().finite(),
                    forall|i: int|
                        0 <= i < pairs@.len() ==> map_doc(map).contains_pair(
                            (#[trigger] pairs@[i]).0@,
                            value_doc(pairs@[i].1),
                        ),
                    field_map(out@) == value_fields(pairs@.take(it.index() as int)),
                    forall|k: Seq<char>| #[trigger]
                        field_map(out@).dom().contains(k) ==> writable(field_map(out@)[k]),
            {
                let (key, item) = pair;
                proof {
                    let i = it.index() as int;
                    assert(map_doc(map).contains_pair(pairs@[i].0@, value_doc(pairs@[i].1)));
                    let fields = value_doc(value)->Fields_0;
                    assert(decreases_to!(value_doc(value) => value_doc(value)->Fields_0));
                    assert(decreases_to!(fields => fields[key@]));
                }
                let converted = (key, from_value(item));
                proof {
                    let i = it.index() as int;
                    assert(out@.push(converted).drop_last() =~= out@);
                    assert(pairs@.take(i + 1).drop_last() =~= pairs@.take(i));
                }
                out.push(converted);
            }
            proof {
                assert(pairs@.take(pairs@.len() as int) =~= pairs@);
            }
            Json::Fields(out)
        },
    }
}

/// The `serde_json::Value` of a document that can be written.
fn to_value(json: &Json) -> (r: Option<serde_json::Value>)
    ensures
        match r {
            Some(v) => value_doc(v) == json@ && writable(json@),
            None => !writable(json@),
        },
    decreases json,
{
    match json {
        Json::Null => Some(value_of_parts(ValueParts::Null)),
        Json::Bool(b) => Some(value_of_parts(ValueParts::Bool(*b))),
        Json::Unsigned(n) => Some(value_of_parts(ValueParts::Number(number_of_u64(*n)))),
        Json::Signed(n) => Some(value_of_parts(ValueParts::Number(number_of_i64(*n)))),
        Json::Decimal(s) => {
            match number_of_text(s.as_str()) {
                Ok(n) => {
                    if number_as_u64(&n).is_none() && number_as_i64(&n).is_none() && number_text(&n)
                        == *s {
                        Some(value_of_parts(ValueParts::Number(n)))
                    } else {
                        None
                    }
                },
                Err(_) => None,
            }
        },
        Json::Text(s) => Some(value_of_parts(ValueParts::Text(s.clone()))),
        Json::List(items) => {
            let mut out: Vec<serde_json::Value> = Vec::new();
            let mut i: usize = 0;
            while i < items.len()
                invariant
                    i <= items@.len(),
                    json matches Json::List(l) && l == items,
                    json@ == JsonView::List(docs(items@)),
                    value_docs(out@) == docs(items@).take(i as int),
                    forall|j: int| 0 <= j < i ==> writable(#[trigger] docs(items@)[j]),
                decreases items@.len() - i,
            {
                assert(docs(items@)[i as int] == items@[i as int]@);
                match to_value(&items[i]) {
                    Some(v) => {
                        proof {
                            lemma_value_docs_push(out@, v);
                            assert(docs(items@).take(i + 1) =~= docs(items@).take(i as int).push(
                                value_doc(v),
                            ));
                        }
                        out.push(v);
                    },
                    None => {
                        assert(!writable(docs(items@)[i as int]));
                        proof {
                            lemma_item_not_writable(docs(items@), i as int);
                        }
                        return None;
                    },
                }
                i += 1;
            }
            assert(docs(items@).take(i as int) =~= docs(items@));
            Some(value_of_parts(ValueParts::List(out)))
        },
        Json::Fields(fields) => {
            let mut out: Vec<(String, serde_json::Value)> = Vec::new();
            let mut i: usize = 0;
            proof {
                assert(fields@.take(0) =~= Seq::<(String, Json)>::empty());
            }
            while i < fields.len()
                invariant
                    i <= fields@.len(),
                    json matches Json::Fields(l) && l == fields,
                    json@ == JsonView::Fields(field_map(fields@)),
                    value_fields(out@).dom() == field_map(fields@.take(i as int)).dom(),
                    forall|k: Seq<char>| #[trigger]
                        value_fields(out@).dom().contains(k) ==> field_map(
                            fields@,
                        ).contains_pair(k, value_fields(out@)[k]) && writable(field_map(fields@)[k]),
                    forall|k: int|
                        0 <= k < out@.len() ==> field_map(fields@).contains_pair(
                            (#[trigger] out@[k]).0@,
                            value_doc(out@[k].1),
                        ),
                decreases fields@.len() - i,
            {
                let key = fields[i].0.clone();
                proof {
                    lemma_field_map_key(fields@, i as int);
                }
                if let Some(j) = field_index(fields, key.as_str()) {
                    match to_value(&fields[j].1) {
                        Some(v) => {
                            let pair = (key, v);
                            proof {
                                assert(out@.push(pair).drop_last() =~= out@);
                                assert(fields@.take(i + 1).drop_last() =~= fields@.take(i as int));
                            }
                            out.push(pair);
                        },
                        None => {
                            assert(!writable(field_map(fields@)[key@]));
                            proof {
                                lemma_field_not_writable(field_map(fields@), key@);
                            }
                            return None;
                        },
                    }
                }
                i += 1;
            }
            proof {
                assert(fields@.take(i as int) =~= fields@);
                assert(value_fields(out@) =~= field_map(fields@));
            }
            Some(value_of_parts(ValueParts::Fields(map_of_pairs(out))))
        },
    }
}

/// Reads a JSON document from a text. What was read can be written.
pub fn parse_json(text: &str) -> (r: Option<Json>)
    ensures
        r.deep_view() == parsed_json(text@),
        parsed_json(text@) matches Some(doc) ==> writable(doc),
{
    match value_of_text(text) {
        Ok(value) => Some(from_value(value)),
        Err(_) => None,
    }
}

/// The text of a document, as compact as it can be written.
pub open spec fn written(doc: JsonView) -> Option<Seq<char>> {
    if writable(doc) {
        Some(json_text(doc))
    } else {
        None
    }
}

/// Writes a document as compact text.
pub fn write_json(json: &Json) -> (r: Option<String>)
    ensures
        r.deep_view() == written(json@),
        r matches Some(text) ==> within(json@, JSON_DEPTH as nat) ==> parsed_json(text@) == Some(
            json@,
        ),
{
    match to_value(json) {
        Some(value) => match value_to_text(&value) {
            Ok(text) => Some(text),
            Err(_) => None,
        },
        None => None,
    }
}

/// The text of a document, indented for a reader.
pub open spec fn written_pretty(doc: JsonView) -> Option<Seq<char>> {
    if writable(doc) {
        Some(json_pretty(doc))
    } else {
        None
    }
}

/// Writes a document as indented text.
pub fn write_json_pretty(json: &Json) -> (r: Option<String>)
    ensures
        r.deep_view() == written_pretty(json@),
{
    match to_value(json) {
        Some(value) => match value_to_pretty(&value) {
            Ok(text) => Some(text),
            Err(_) => None,
        },
        None => None,
    }
}

} // verus!
