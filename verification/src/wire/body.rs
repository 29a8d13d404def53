//! The bodies of requests: documents whose own fields are written in the order
//! in which they are declared.

use vstd::prelude::*;

use crate::codec::json_text;
use crate::codec::writable;
use crate::codec::write_json;
use crate::codec::written;
use crate::json::copy_docs;
use crate::json::docs;
use crate::json::lemma_docs_push;
use crate::json::object;
use crate::json::object_doc;
use crate::json::optional_bool;
use crate::json::optional_i32;
use crate::json::optional_list;
use crate::json::optional_text;
use crate::json::optional_texts;
use crate::json::optional_u32;
use crate::json::pair_docs;
use crate::json::put as put_doc;
use crate::json::text_docs;
use crate::json::Json;
use crate::json::JsonView;
use crate::text::cat3;

verus! {

/// A body: a document that is handed on as it is, a list, or fields in order.
#[derive(Debug)]
pub enum Body {
    Doc(Json),
    List(Vec<Body>),
    Fields(Vec<(String, Body)>),
}

/// What a `Body` means.
#[verifier::ext_equal]
pub enum BodyView {
    Doc(JsonView),
    List(Seq<BodyView>),
    Fields(Seq<(Seq<char>, BodyView)>),
}

impl Body {
    pub open spec fn shape(self) -> BodyView
        decreases self,
    {
        match self {
            Body::Doc(doc) => BodyView::Doc(doc@),
            Body::List(items) => BodyView::List(bodies(items@)),
            Body::Fields(fields) => BodyView::Fields(pair_bodies(fields@)),
        }
    }
}

/// What the bodies of a list mean.
pub open spec fn bodies(items: Seq<Body>) -> Seq<BodyView>
    decreases items,
{
    Seq::new(
        items.len(),
        |i: int|
            if 0 <= i < items.len() {
                items[i].shape()
            } else {
                BodyView::Doc(JsonView::Null)
            },
    )
}

/// What the fields of a body mean.
pub open spec fn pair_bodies(fields: Seq<(String, Body)>) -> Seq<(Seq<char>, BodyView)>
    decreases fields,
{
    Seq::new(
        fields.len(),
        |i: int|
            if 0 <= i < fields.len() {
                (fields[i].0@, fields[i].1.shape())
            } else {
                (Seq::empty(), BodyView::Doc(JsonView::Null))
            },
    )
}

impl View for Body {
    type V = BodyView;

    open spec fn view(&self) -> BodyView {
        self.shape()
    }
}

impl DeepView for Body {
    type V = BodyView;

    open spec fn deep_view(&self) -> BodyView {
        self.shape()
    }
}

/// The document of a body.
pub open spec fn doc_of(body: BodyView) -> JsonView
    decreases body,
{
    match body {
        BodyView::Doc(doc) => doc,
        BodyView::List(items) => JsonView::List(docs_of(items)),
        BodyView::Fields(fields) => object_doc(doc_pairs(fields)),
    }
}

/// The documents of bodies.
pub open spec fn docs_of(items: Seq<BodyView>) -> Seq<JsonView>
    decreases items,
{
    Seq::new(
        items.len(),
        |i: int|
            if 0 <= i < items.len() {
                doc_of(items[i])
            } else {
                JsonView::Null
            },
    )
}

/// The documents of fields.
pub open spec fn doc_pairs(fields: Seq<(Seq<char>, BodyView)>) -> Seq<(Seq<char>, JsonView)>
    decreases fields,
{
    Seq::new(
        fields.len(),
        |i: int|
            if 0 <= i < fields.len() {
                (fields[i].0, doc_of(fields[i].1))
            } else {
                (Seq::empty(), JsonView::Null)
            },
    )
}

/// The text of a body, as compact as it can be written: the fields are in their
/// order. There is none when a document in it cannot be written.
pub open spec fn body_text(body: BodyView) -> Option<Seq<char>>
    decreases body,
{
    match body {
        BodyView::Doc(doc) => written(doc),
        BodyView::List(items) => match items_text(items) {
            Some(text) => Some("["@ + text + "]"@),
            None => None,
        },
        BodyView::Fields(fields) => match fields_text(fields) {
            Some(text) => Some("{"@ + text + "}"@),
            None => None,
        },
    }
}

/// A text behind others, with a comma before it unless it is the first.
pub open spec fn listed(before: Seq<char>, first: bool, text: Seq<char>) -> Seq<char> {
    if first {
        text
    } else {
        before + ","@ + text
    }
}

/// The texts of items, separated by commas.
pub open spec fn items_text(items: Seq<BodyView>) -> Option<Seq<char>>
    decreases items,
{
    if items.len() == 0 {
        Some(Seq::empty())
    } else {
        match (items_text(items.drop_last()), body_text(items.last())) {
            (Some(before), Some(text)) => Some(listed(before, items.len() == 1, text)),
            _ => None,
        }
    }
}

/// The text of a field: its name in quotes, a colon and its value.
pub open spec fn field_text(key: Seq<char>, value: Seq<char>) -> Seq<char> {
    json_text(JsonView::Text(key)) + ":"@ + value
}

/// The texts of fields, separated by commas.
pub open spec fn fields_text(fields: Seq<(Seq<char>, BodyView)>) -> Option<Seq<char>>
    decreases fields,
{
    if fields.len() == 0 {
        Some(Seq::empty())
    } else {
        match (fields_text(fields.drop_last()), body_text(fields.last().1)) {
            (Some(before), Some(text)) => Some(
                listed(before, fields.len() == 1, field_text(fields.last().0, text)),
            ),
            _ => None,
        }
    }
}

proof fn lemma_items_text_none(items: Seq<BodyView>, i: int)
    requires
        0 <= i < items.len(),
        body_text(items[i]) is None,
    ensures
        items_text(items) is None,
    decreases items.len(),
{
    if i < items.len() - 1 {
        lemma_items_text_none(items.drop_last(), i);
    }
}

proof fn lemma_fields_text_none(fields: Seq<(Seq<char>, BodyView)>, i: int)
    requires
        0 <= i < fields.len(),
        body_text(fields[i].1) is None,
    ensures
        fields_text(fields) is None,
    decreases fields.len(),
{
    if i < fields.len() - 1 {
        lemma_fields_text_none(fields.drop_last(), i);
    }
}

/// Whether every document in a body can be written.
pub open spec fn encodable(body: BodyView) -> bool
    decreases body,
{
    match body {
        BodyView::Doc(doc) => writable(doc),
        BodyView::List(items) => all_encodable(items),
        BodyView::Fields(fields) => fields_encodable(fields),
    }
}

/// Whether every document in these bodies can be written.
pub open spec fn all_encodable(items: Seq<BodyView>) -> bool
    decreases items,
{
    items.len() > 0 ==> all_encodable(items.drop_last()) && encodable(items.last())
}

/// Whether every document in these fields can be written.
pub open spec fn fields_encodable(fields: Seq<(Seq<char>, BodyView)>) -> bool
    decreases fields,
{
    fields.len() > 0 ==> fields_encodable(fields.drop_last()) && encodable(fields.last().1)
}

proof fn lemma_items_are_written(items: Seq<BodyView>)
    ensures
        items_text(items) is Some <==> all_encodable(items),
    decreases items,
{
    if items.len() > 0 {
        lemma_items_are_written(items.drop_last());
        law_encodable_bodies_are_written(items.last());
    }
}

proof fn lemma_fields_are_written(fields: Seq<(Seq<char>, BodyView)>)
    ensures
        fields_text(fields) is Some <==> fields_encodable(fields),
    decreases fields,
{
    if fields.len() > 0 {
        lemma_fields_are_written(fields.drop_last());
        law_encodable_bodies_are_written(fields.last().1);
    }
}

/// A body can be written when every document in it can, and only then.
pub proof fn law_encodable_bodies_are_written(body: BodyView)
    ensures
        body_text(body) is Some <==> encodable(body),
    decreases body,
{
    match body {
        BodyView::Doc(_) => {},
        BodyView::List(items) => {
            lemma_items_are_written(items);
        },
        BodyView::Fields(fields) => {
            lemma_fields_are_written(fields);
        },
    }
}

fn push_listed(text: String, first: bool, next: &str) -> (r: String)
    ensures
        r@ == listed(text@, first, next@),
{
    if first {
        next.to_owned()
    } else {
        cat3(text.as_str(), ",", next)
    }
}

fn write_field(key: &str, value: &str) -> (r: String)
    ensures
        r@ == field_text(key@, value@),
{
    match write_json(&Json::Text(key.to_owned())) {
        Some(name) => cat3(name.as_str(), ":", value),
        None => String::new(),
    }
}

/// Writes a body as compact text.
pub fn write_body(body: &Body) -> (r: Option<String>)
    ensures
        r.deep_view() == body_text(body@),
    decreases body,
{
    match body {
        Body::Doc(doc) => write_json(doc),
        Body::List(items) => {
            let ghost all = bodies(items@);
            let mut out = String::new();
            assert(out@ =~= Seq::<char>::empty());
            let mut i: usize = 0;
            assert(all.take(0) =~= Seq::<BodyView>::empty());
            while i < items.len()
                invariant
                    i <= items@.len(),
                    all == bodies(items@),
                    body matches Body::List(l) && l == items,
                    body@ == BodyView::List(all),
                    items_text(all.take(i as int)) == Some(out@),
                decreases items@.len() - i,
            {
                proof {
                    assert(all[i as int] == items@[i as int]@);
                    assert(all.take(i + 1).drop_last() =~= all.take(i as int));
                    assert(all.take(i + 1).last() == all[i as int]);
                }
                match write_body(&items[i]) {
                    Some(text) => {
                        out = push_listed(out, i == 0, text.as_str());
                    },
                    None => {
                        proof {
                            lemma_items_text_none(all, i as int);
                        }
                        return None;
                    },
                }
                i += 1;
            }
            assert(all.take(i as int) =~= all);
            Some(cat3("[", out.as_str(), "]"))
        },
        Body::Fields(fields) => {
            let ghost all = pair_bodies(fields@);
            let mut out = String::new();
            assert(out@ =~= Seq::<char>::empty());
            let mut i: usize = 0;
            assert(all.take(0) =~= Seq::<(Seq<char>, BodyView)>::empty());
            while i < fields.len()
                invariant
                    i <= fields@.len(),
                    all == pair_bodies(fields@),
                    body matches Body::Fields(l) && l == fields,
                    body@ == BodyView::Fields(all),
                    fields_text(all.take(i as int)) == Some(out@),
                decreases fields@.len() - i,
            {
                proof {
                    assert(all[i as int] == (fields@[i as int].0@, fields@[i as int].1@));
                    assert(all.take(i + 1).drop_last() =~= all.take(i as int));
                    assert(all.take(i + 1).last() == all[i as int]);
                }
                match write_body(&fields[i].1) {
                    Some(text) => {
                        let field = write_field(fields[i].0.as_str(), text.as_str());
                        out = push_listed(out, i == 0, field.as_str());
                    },
                    None => {
                        proof {
                            lemma_fields_text_none(all, i as int);
                        }
                        return None;
                    },
                }
                i += 1;
            }
            assert(all.take(i as int) =~= all);
            Some(cat3("{", out.as_str(), "}"))
        },
    }
}

impl Body {
    /// The document of the body.
    pub fn to_json(&self) -> (r: Json)
        ensures
            r@ == doc_of(self@),
        decreases self,
    {
        match self {
            Body::Doc(doc) => doc.copy(),
            Body::List(items) => {
                let ghost all = docs_of(bodies(items@));
                let mut out: Vec<Json> = Vec::new();
                let mut i: usize = 0;
                while i < items.len()
                    invariant
                        i <= items@.len(),
                        all == docs_of(bodies(items@)),
                        self matches Body::List(l) && l == items,
                        docs(out@) == all.take(i as int),
                    decreases items@.len() - i,
                {
                    assert(bodies(items@)[i as int] == items@[i as int]@);
                    let doc = items[i].to_json();
                    proof {
                        lemma_docs_push(out@, doc);
                        assert(all.take(i + 1) =~= all.take(i as int).push(doc@));
                    }
                    out.push(doc);
                    i += 1;
                }
                assert(all.take(i as int) =~= all);
                Json::List(out)
            },
            Body::Fields(fields) => {
                let ghost all = doc_pairs(pair_bodies(fields@));
                let mut out: Vec<(String, Json)> = Vec::new();
                let mut i: usize = 0;
                assert(pair_docs(out@) =~= all.take(0));
                while i < fields.len()
                    invariant
                        i <= fields@.len(),
                        all == doc_pairs(pair_bodies(fields@)),
                        self matches Body::Fields(l) && l == fields,
                        pair_docs(out@) == all.take(i as int),
                    decreases fields@.len() - i,
                {
                    assert(pair_bodies(fields@)[i as int] == (
                        fields@[i as int].0@,
                        fields@[i as int].1@,
                    ));
                    let doc = fields[i].1.to_json();
                    let ghost added = (fields@[i as int].0@, doc@);
                    put_doc(&mut out, fields[i].0.as_str(), doc);
                    assert(all.take(i + 1) =~= all.take(i as int) + seq![added]);
                    i += 1;
                }
                assert(all.take(i as int) =~= all);
                object(out)
            },
        }
    }
}

/// A field that is there only when its value is.
pub open spec fn optional_pair(key: Seq<char>, value: Option<BodyView>) -> Seq<
    (Seq<char>, BodyView),
> {
    match value {
        Some(v) => seq![(key, v)],
        None => Seq::empty(),
    }
}

/// The body of a text.
pub open spec fn text_body(s: Seq<char>) -> BodyView {
    BodyView::Doc(JsonView::Text(s))
}

/// The body of a truth value.
pub open spec fn bool_body(b: bool) -> BodyView {
    BodyView::Doc(JsonView::Bool(b))
}

/// The body of a number.
pub open spec fn number_body(n: u64) -> BodyView {
    BodyView::Doc(JsonView::Unsigned(n))
}

/// The body of an optional document.
pub open spec fn optional_doc(value: Option<JsonView>) -> Option<BodyView> {
    match value {
        Some(doc) => Some(BodyView::Doc(doc)),
        None => None,
    }
}

pub proof fn lemma_bodies_push(items: Seq<Body>, item: Body)
    ensures
        bodies(items.push(item)) == bodies(items).push(item@),
{
    assert(bodies(items.push(item)) =~= bodies(items).push(item@));
}

/// No fields yet.
pub fn no_fields() -> (r: Vec<(String, Body)>)
    ensures
        pair_bodies(r@) == Seq::<(Seq<char>, BodyView)>::empty(),
{
    let fields: Vec<(String, Body)> = Vec::new();
    assert(pair_bodies(fields@) =~= Seq::<(Seq<char>, BodyView)>::empty());
    fields
}

/// Adds a field.
pub fn put(fields: &mut Vec<(String, Body)>, key: &str, value: Body)
    ensures
        pair_bodies(final(fields)@) == pair_bodies(old(fields)@) + seq![(key@, value@)],
{
    fields.push((key.to_owned(), value));
    assert(pair_bodies(fields@) =~= pair_bodies(old(fields)@) + seq![(key@, value@)]);
}

/// Adds a text field.
pub fn put_text(fields: &mut Vec<(String, Body)>, key: &str, value: &str)
    ensures
        pair_bodies(final(fields)@) == pair_bodies(old(fields)@) + seq![(key@, text_body(value@))],
{
    put(fields, key, Body::Doc(Json::Text(value.to_owned())));
}

/// Adds a truth field.
pub fn put_bool(fields: &mut Vec<(String, Body)>, key: &str, value: bool)
    ensures
        pair_bodies(final(fields)@) == pair_bodies(old(fields)@) + seq![(key@, bool_body(value))],
{
    put(fields, key, Body::Doc(Json::Bool(value)));
}

/// Adds a number field.
pub fn put_number(fields: &mut Vec<(String, Body)>, key: &str, value: u64)
    ensures
        pair_bodies(final(fields)@) == pair_bodies(old(fields)@) + seq![(key@, number_body(value))],
{
    put(fields, key, Body::Doc(Json::Unsigned(value)));
}

/// Adds a field that holds a document.
pub fn put_json(fields: &mut Vec<(String, Body)>, key: &str, value: &Json)
    ensures
        pair_bodies(final(fields)@) == pair_bodies(old(fields)@) + seq![
            (key@, BodyView::Doc(value@)),
        ],
{
    put(fields, key, Body::Doc(value.copy()));
}

/// Adds a field when there is a value.
pub fn put_optional(fields: &mut Vec<(String, Body)>, key: &str, value: Option<Body>)
    ensures
        pair_bodies(final(fields)@) == pair_bodies(old(fields)@) + optional_pair(
            key@,
            value.deep_view(),
        ),
{
    if let Some(v) = value {
        let ghost shape = v@;
        put(fields, key, v);
        assert(pair_bodies(fields@) =~= pair_bodies(old(fields)@) + seq![(key@, shape)]);
    } else {
        assert(pair_bodies(fields@) =~= pair_bodies(old(fields)@) + Seq::<
            (Seq<char>, BodyView),
        >::empty());
    }
}

/// Adds a field that holds a document when there is one.
pub fn put_optional_json(fields: &mut Vec<(String, Body)>, key: &str, value: Option<Json>)
    ensures
        pair_bodies(final(fields)@) == pair_bodies(old(fields)@) + optional_pair(
            key@,
            optional_doc(value.deep_view()),
        ),
{
    put_optional(
        fields,
        key,
        match value {
            Some(doc) => Some(Body::Doc(doc)),
            None => None,
        },
    );
}

/// Adds a copy of a document when there is one.
pub fn put_optional_doc(fields: &mut Vec<(String, Body)>, key: &str, value: &Option<Json>)
    ensures
        pair_bodies(final(fields)@) == pair_bodies(old(fields)@) + optional_pair(
            key@,
            optional_doc(value.deep_view()),
        ),
{
    put_optional_json(
        fields,
        key,
        match value {
            Some(doc) => Some(doc.copy()),
            None => None,
        },
    );
}

/// Adds a text field when there is a text.
pub fn put_optional_text(fields: &mut Vec<(String, Body)>, key: &str, value: &Option<String>)
    ensures
        pair_bodies(final(fields)@) == pair_bodies(old(fields)@) + optional_pair(
            key@,
            optional_doc(optional_text(value.deep_view())),
        ),
{
    put_optional_json(
        fields,
        key,
        match value {
            Some(s) => Some(Json::Text(s.as_str().to_owned())),
            None => None,
        },
    );
}

/// Adds a truth field when there is a value.
pub fn put_optional_bool(fields: &mut Vec<(String, Body)>, key: &str, value: Option<bool>)
    ensures
        pair_bodies(final(fields)@) == pair_bodies(old(fields)@) + optional_pair(
            key@,
            optional_doc(optional_bool(value)),
        ),
{
    put_optional_json(
        fields,
        key,
        match value {
            Some(b) => Some(Json::Bool(b)),
            None => None,
        },
    );
}

/// Adds an integer field when there is a number.
pub fn put_optional_u32(fields: &mut Vec<(String, Body)>, key: &str, value: Option<u32>)
    ensures
        pair_bodies(final(fields)@) == pair_bodies(old(fields)@) + optional_pair(
            key@,
            optional_doc(optional_u32(value)),
        ),
{
    put_optional_json(
        fields,
        key,
        match value {
            Some(n) => Some(Json::Unsigned(n as u64)),
            None => None,
        },
    );
}

/// Adds an integer field when there is a signed number.
pub fn put_optional_i32(fields: &mut Vec<(String, Body)>, key: &str, value: Option<i32>)
    ensures
        pair_bodies(final(fields)@) == pair_bodies(old(fields)@) + optional_pair(
            key@,
            optional_doc(optional_i32(value)),
        ),
{
    put_optional_json(
        fields,
        key,
        match value {
            Some(n) => Some(Json::Signed(n as i64)),
            None => None,
        },
    );
}

/// Adds a list of documents when there is one.
pub fn put_optional_docs(fields: &mut Vec<(String, Body)>, key: &str, value: &Option<Vec<Json>>)
    ensures
        pair_bodies(final(fields)@) == pair_bodies(old(fields)@) + optional_pair(
            key@,
            optional_doc(optional_list(value.deep_view())),
        ),
{
    put_optional_json(
        fields,
        key,
        match value {
            Some(items) => {
                let copies = copy_docs(items);
                assert(docs(copies@) =~= copies.deep_view());
                Some(Json::List(copies))
            },
            None => None,
        },
    );
}

/// Adds a list of texts when there is one.
pub fn put_optional_texts(fields: &mut Vec<(String, Body)>, key: &str, value: &Option<Vec<String>>)
    ensures
        pair_bodies(final(fields)@) == pair_bodies(old(fields)@) + optional_pair(
            key@,
            optional_doc(optional_texts(value.deep_view())),
        ),
{
    put_optional_json(
        fields,
        key,
        match value {
            Some(items) => {
                let list = text_docs(items);
                assert(docs(list@) =~= Seq::new(
                    items.deep_view().len(),
                    |i: int| JsonView::Text(items.deep_view()[i]),
                ));
                Some(Json::List(list))
            },
            None => None,
        },
    );
}

} // verus!
