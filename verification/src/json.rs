//! JSON documents as plain values, and their meaning as `JsonView`.

use vstd::prelude::*;
use vstd::string::*;

use crate::text::same_text;

verus! {

/// A JSON document.
///
/// The fields of an object are kept as a list of pairs; where a key occurs
/// twice, the later pair holds.
#[derive(Debug, PartialEq)]
pub enum Json {
    Null,
    Bool(bool),
    /// An integer that is not negative.
    Unsigned(u64),
    /// An integer, meant for the negative ones.
    Signed(i64),
    /// Any other number, by its decimal text.
    Decimal(String),
    Text(String),
    List(Vec<Json>),
    Fields(Vec<(String, Json)>),
}

/// What a JSON document means: an object is a map from keys to documents.
#[verifier::ext_equal]
pub enum JsonView {
    Null,
    Bool(bool),
    Unsigned(u64),
    Signed(i64),
    Decimal(Seq<char>),
    Text(Seq<char>),
    List(Seq<JsonView>),
    Fields(Map<Seq<char>, JsonView>),
}

impl Json {
    pub open spec fn doc(self) -> JsonView
        decreases self,
    {
        match self {
            Json::Null => JsonView::Null,
            Json::Bool(b) => JsonView::Bool(b),
            Json::Unsigned(n) => JsonView::Unsigned(n),
            Json::Signed(n) => if n < 0 {
                JsonView::Signed(n)
            } else {
                JsonView::Unsigned(n as u64)
            },
            Json::Decimal(s) => JsonView::Decimal(s@),
            Json::Text(s) => JsonView::Text(s@),
            Json::List(items) => JsonView::List(docs(items@)),
            Json::Fields(fields) => JsonView::Fields(field_map(fields@)),
        }
    }
}

/// The documents of a list.
pub open spec fn docs(items: Seq<Json>) -> Seq<JsonView>
    decreases items,
{
    Seq::new(items.len(), |i: int| if 0 <= i < items.len() { items[i].doc() } else { JsonView::Null })
}

/// The fields of an object; of two pairs with the same key the later one holds.
pub open spec fn field_map(fields: Seq<(String, Json)>) -> Map<Seq<char>, JsonView>
    decreases fields,
{
    if fields.len() == 0 {
        Map::empty()
    } else {
        field_map(fields.drop_last()).insert(fields.last().0@, fields.last().1.doc())
    }
}

impl DeepView for Json {
    type V = JsonView;

    open spec fn deep_view(&self) -> JsonView {
        self.doc()
    }
}

impl View for Json {
    type V = JsonView;

    open spec fn view(&self) -> JsonView {
        self.doc()
    }
}

pub proof fn lemma_docs_push(items: Seq<Json>, item: Json)
    ensures
        docs(items.push(item)) == docs(items).push(item.doc()),
{
    assert(docs(items.push(item)) =~= docs(items).push(item.doc()));
}

impl Json {
    /// A copy of the document.
    pub fn copy(&self) -> (r: Json)
        ensures
            r@ == self@,
        decreases self,
    {
        match self {
            Json::Null => Json::Null,
            Json::Bool(b) => Json::Bool(*b),
            Json::Unsigned(n) => Json::Unsigned(*n),
            Json::Signed(n) => Json::Signed(*n),
            Json::Decimal(s) => Json::Decimal(s.clone()),
            Json::Text(s) => Json::Text(s.clone()),
            Json::List(items) => {
                let mut out: Vec<Json> = Vec::new();
                let mut i: usize = 0;
                while i < items.len()
                    invariant
                        i <= items@.len(),
                        docs(out@) == docs(items@).take(i as int),
                        *self matches Json::List(l) && l == items,
                    decreases items@.len() - i,
                {
                    let item = items[i].copy();
                    proof {
                        lemma_docs_push(out@, item);
                        assert(docs(items@).take(i + 1) =~= docs(items@).take(i as int).push(items@[i as int].doc()));
                    }
                    out.push(item);
                    i += 1;
                }
                assert(docs(items@).take(i as int) =~= docs(items@));
                Json::List(out)
            },
            Json::Fields(fields) => {
                let mut out: Vec<(String, Json)> = Vec::new();
                let mut i: usize = 0;
                assert(fields@.take(0) =~= Seq::<(String, Json)>::empty());
                while i < fields.len()
                    invariant
                        i <= fields@.len(),
                        field_map(out@) == field_map(fields@.take(i as int)),
                        *self matches Json::Fields(l) && l == fields,
                    decreases fields@.len() - i,
                {
                    let (key, value) = &fields[i];
                    let pair = (key.clone(), value.copy());
                    proof {
                        assert(out@.push(pair).drop_last() =~= out@);
                        assert(fields@.take(i + 1).drop_last() =~= fields@.take(i as int));
                    }
                    out.push(pair);
                    i += 1;
                }
                assert(fields@.take(i as int) =~= fields@);
                Json::Fields(out)
            },
        }
    }
}

/// A copy of a list of documents.
pub fn copy_docs(list: &Vec<Json>) -> (r: Vec<Json>)
    ensures
        r.deep_view() == list.deep_view(),
{
    let mut out: Vec<Json> = Vec::new();
    let mut i: usize = 0;
    while i < list.len()
        invariant
            i <= list@.len(),
            out.deep_view() == list.deep_view().take(i as int),
        decreases list@.len() - i,
    {
        let ghost before = out.deep_view();
        out.push(list[i].copy());
        assert(out.deep_view() =~= before.push(list@[i as int].deep_view()));
        assert(list.deep_view().take(i + 1) =~= list.deep_view().take(i as int).push(
            list@[i as int].deep_view(),
        ));
        i += 1;
    }
    assert(list.deep_view().take(i as int) =~= list.deep_view());
    out
}

/// The pairs from position `n` on hold no `key`, so the fields up to there
/// decide what the key holds.
proof fn lemma_field_map_suffix(fields: Seq<(String, Json)>, n: int, key: Seq<char>)
    requires
        0 <= n <= fields.len(),
        forall|i: int| n <= i < fields.len() ==> (#[trigger] fields[i]).0@ != key,
    ensures
        field_map(fields).dom().contains(key) == field_map(fields.take(n)).dom().contains(key),
        field_map(fields)[key] == field_map(fields.take(n))[key] || !field_map(fields).dom().contains(key),
    decreases fields.len(),
{
    if n < fields.len() {
        assert(fields.drop_last().take(n) =~= fields.take(n));
        assert(fields.last() == fields[fields.len() - 1]);
        lemma_field_map_suffix(fields.drop_last(), n, key);
    } else {
        assert(fields.take(n) =~= fields);
    }
}

/// The position of the pair that decides what a key holds.
pub fn field_index(fields: &Vec<(String, Json)>, key: &str) -> (r: Option<usize>)
    ensures
        match r {
            Some(i) => i < fields@.len() && fields@[i as int].0@ == key@ && field_map(
                fields@,
            ).contains_pair(key@, fields@[i as int].1@),
            None => !field_map(fields@).dom().contains(key@),
        },
{
    let mut i: usize = fields.len();
    while i > 0
        invariant
            i <= fields@.len(),
            forall|j: int| i <= j < fields@.len() ==> (#[trigger] fields@[j]).0@ != key@,
        decreases i,
    {
        if same_text(fields[i - 1].0.as_str(), key) {
            proof {
                lemma_field_map_suffix(fields@, i as int, key@);
                assert(fields@.take(i as int).last() == fields@[i - 1]);
            }
            return Some(i - 1);
        }
        i -= 1;
    }
    proof {
        lemma_field_map_suffix(fields@, 0, key@);
        assert(fields@.take(0) =~= Seq::<(String, Json)>::empty());
    }
    None
}

/// Every pair's key is a key of the object.
pub proof fn lemma_field_map_key(fields: Seq<(String, Json)>, i: int)
    requires
        0 <= i < fields.len(),
    ensures
        field_map(fields).dom().contains(fields[i].0@),
    decreases fields.len(),
{
    if i < fields.len() - 1 {
        lemma_field_map_key(fields.drop_last(), i);
        assert(fields.drop_last()[i] == fields[i]);
    }
}

/// An object has finitely many fields.
pub proof fn lemma_field_map_finite(fields: Seq<(String, Json)>)
    ensures
        field_map(fields).dom().finite(),
    decreases fields.len(),
{
    if fields.len() > 0 {
        lemma_field_map_finite(fields.drop_last());
    }
}

/// A copy of the fields of an object.
pub fn copy_fields(fields: &Vec<(String, Json)>) -> (r: Vec<(String, Json)>)
    ensures
        field_map(r@) == field_map(fields@),
{
    let mut out: Vec<(String, Json)> = Vec::new();
    let mut i: usize = 0;
    assert(fields@.take(0) =~= Seq::<(String, Json)>::empty());
    while i < fields.len()
        invariant
            i <= fields@.len(),
            field_map(out@) == field_map(fields@.take(i as int)),
        decreases fields@.len() - i,
    {
        let pair = (fields[i].0.clone(), fields[i].1.copy());
        proof {
            assert(out@.push(pair).drop_last() =~= out@);
            assert(fields@.take(i + 1).drop_last() =~= fields@.take(i as int));
        }
        out.push(pair);
        i += 1;
    }
    assert(fields@.take(i as int) =~= fields@);
    out
}

/// Takes a field out of an object.
pub fn remove_field(fields: &mut Vec<(String, Json)>, key: &str)
    ensures
        field_map(final(fields)@) == field_map(old(fields)@).remove(key@),
{
    let mut given: Vec<(String, Json)> = Vec::new();
    std::mem::swap(&mut given, fields);
    let ghost all = given@;
    assert(all.take(0) =~= Seq::<(String, Json)>::empty());
    assert(field_map(fields@) =~= Map::<Seq<char>, JsonView>::empty().remove(key@));
    for pair in it: given
        invariant
            it.seq() == all,
            field_map(fields@) == field_map(all.take(it.index() as int)).remove(key@),
    {
        proof {
            let i = it.index() as int;
            assert(all.take(i + 1).drop_last() =~= all.take(i));
            assert(all.take(i + 1).last() == pair);
        }
        if same_text(pair.0.as_str(), key) {
            assert(field_map(all.take(it.index() as int)).insert(pair.0@, pair.1@).remove(key@)
                =~= field_map(all.take(it.index() as int)).remove(key@));
        } else {
            let ghost before = fields@;
            fields.push(pair);
            assert(fields@.drop_last() =~= before);
            assert(field_map(all.take(it.index() as int)).insert(pair.0@, pair.1@).remove(key@)
                =~= field_map(all.take(it.index() as int)).remove(key@).insert(pair.0@, pair.1@));
        }
    }
    assert(all.take(all.len() as int) =~= all);
}

/// Gives a field of an object a value.
pub fn set_field(fields: &mut Vec<(String, Json)>, key: &str, value: Json)
    ensures
        field_map(final(fields)@) == field_map(old(fields)@).insert(key@, value@),
{
    let ghost given = field_map(fields@);
    remove_field(fields, key);
    let ghost before = fields@;
    fields.push((key.to_owned(), value));
    assert(fields@.drop_last() =~= before);
    assert(given.remove(key@).insert(key@, value@) =~= given.insert(key@, value@));
}

/// What an object holds under a key; any other document holds nothing.
pub open spec fn doc_field(doc: JsonView, key: Seq<char>) -> Option<JsonView> {
    match doc {
        JsonView::Fields(fields) => if fields.dom().contains(key) {
            Some(fields[key])
        } else {
            None
        },
        _ => None,
    }
}

/// The text of a text document.
pub open spec fn doc_text(doc: JsonView) -> Option<Seq<char>> {
    match doc {
        JsonView::Text(s) => Some(s),
        _ => None,
    }
}

/// The integer of a document, when it is not negative.
pub open spec fn doc_u64(doc: JsonView) -> Option<u64> {
    match doc {
        JsonView::Unsigned(n) => Some(n),
        _ => None,
    }
}

/// The integer of a document, when it fits.
pub open spec fn doc_i64(doc: JsonView) -> Option<i64> {
    match doc {
        JsonView::Unsigned(n) => if n <= i64::MAX {
            Some(n as i64)
        } else {
            None
        },
        JsonView::Signed(n) => Some(n),
        _ => None,
    }
}

/// The truth value of a document.
pub open spec fn doc_bool(doc: JsonView) -> Option<bool> {
    match doc {
        JsonView::Bool(b) => Some(b),
        _ => None,
    }
}

/// The items of a list.
pub open spec fn doc_list(doc: JsonView) -> Option<Seq<JsonView>> {
    match doc {
        JsonView::List(items) => Some(items),
        _ => None,
    }
}

/// What an optional document holds under a key.
pub open spec fn opt_field(doc: Option<JsonView>, key: Seq<char>) -> Option<JsonView> {
    match doc {
        Some(d) => doc_field(d, key),
        None => None,
    }
}

/// The text that an object holds under a key.
pub open spec fn text_field(doc: JsonView, key: Seq<char>) -> Option<Seq<char>> {
    match doc_field(doc, key) {
        Some(d) => doc_text(d),
        None => None,
    }
}

/// The integer that an object holds under a key, when it is not negative.
pub open spec fn u64_field(doc: JsonView, key: Seq<char>) -> Option<u64> {
    match doc_field(doc, key) {
        Some(d) => doc_u64(d),
        None => None,
    }
}

/// The integer that an object holds under a key.
pub open spec fn i64_field(doc: JsonView, key: Seq<char>) -> Option<i64> {
    match doc_field(doc, key) {
        Some(d) => doc_i64(d),
        None => None,
    }
}

/// The truth value that an object holds under a key.
pub open spec fn bool_field(doc: JsonView, key: Seq<char>) -> Option<bool> {
    match doc_field(doc, key) {
        Some(d) => doc_bool(d),
        None => None,
    }
}

/// The list that an object holds under a key.
pub open spec fn list_field(doc: JsonView, key: Seq<char>) -> Option<Seq<JsonView>> {
    match doc_field(doc, key) {
        Some(d) => doc_list(d),
        None => None,
    }
}

/// Whether a document can be read as a record: an object, or a list of at most
/// so many fields in their order.
pub open spec fn is_record(doc: JsonView, most: nat) -> bool {
    match doc {
        JsonView::Fields(_) => true,
        JsonView::List(items) => items.len() <= most,
        _ => false,
    }
}

/// A field of a record: what an object holds under its key, or a list at its
/// place.
pub open spec fn record_field(doc: JsonView, key: Seq<char>, at: int) -> Option<JsonView> {
    match doc {
        JsonView::List(items) => if at < items.len() {
            Some(items[at])
        } else {
            None
        },
        _ => doc_field(doc, key),
    }
}

/// An optional text, or an empty one.
pub open spec fn or_empty(s: Option<Seq<char>>) -> Seq<char> {
    match s {
        Some(t) => t,
        None => Seq::empty(),
    }
}

impl Json {
    /// What an object holds under a key.
    pub fn get(&self, key: &str) -> (r: Option<&Json>)
        ensures
            r.deep_view() == doc_field(self@, key@),
            r matches Some(j) ==> (*self is Fields && exists|i: int|
                0 <= i < self->Fields_0@.len() && #[trigger] self->Fields_0@[i].1 == *j),
    {
        match self {
            Json::Fields(fields) => match field_index(fields, key) {
                Some(i) => Some(&fields[i].1),
                None => None,
            },
            _ => None,
        }
    }

    /// The text of a text document.
    pub fn as_text(&self) -> (r: Option<&String>)
        ensures
            r.deep_view() == doc_text(self@),
    {
        match self {
            Json::Text(s) => Some(s),
            _ => None,
        }
    }

    /// The integer of a document, when it is not negative.
    pub fn as_u64(&self) -> (r: Option<u64>)
        ensures
            r == doc_u64(self@),
    {
        match self {
            Json::Unsigned(n) => Some(*n),
            Json::Signed(n) => if *n < 0 {
                None
            } else {
                Some(*n as u64)
            },
            _ => None,
        }
    }

    /// The integer of a document, when it fits.
    pub fn as_i64(&self) -> (r: Option<i64>)
        ensures
            r == doc_i64(self@),
    {
        match self {
            Json::Unsigned(n) => if *n <= i64::MAX as u64 {
                Some(*n as i64)
            } else {
                None
            },
            Json::Signed(n) => Some(*n),
            _ => None,
        }
    }

    /// The truth value of a document.
    pub fn as_bool(&self) -> (r: Option<bool>)
        ensures
            r == doc_bool(self@),
    {
        match self {
            Json::Bool(b) => Some(*b),
            _ => None,
        }
    }

    /// The items of a list.
    pub fn as_list(&self) -> (r: Option<&Vec<Json>>)
        ensures
            match r {
                Some(items) => *self == Json::List(*items) && doc_list(self@) == Some(docs(items@)),
                None => doc_list(self@) is None,
            },
    {
        match self {
            Json::List(items) => Some(items),
            _ => None,
        }
    }

    /// Whether the document is an object.
    pub fn is_object(&self) -> (r: bool)
        ensures
            r == (self@ is Fields),
    {
        match self {
            Json::Fields(_) => true,
            _ => false,
        }
    }

    /// Whether the document can be read as a record of at most so many fields.
    pub fn is_record(&self, most: usize) -> (r: bool)
        ensures
            r == is_record(self@, most as nat),
    {
        match self {
            Json::Fields(_) => true,
            Json::List(items) => items.len() <= most,
            _ => false,
        }
    }

    /// A field of a record, by its key or its place.
    pub fn record_at(&self, key: &str, at: usize) -> (r: Option<&Json>)
        ensures
            r.deep_view() == record_field(self@, key@, at as int),
    {
        match self {
            Json::List(items) => if at < items.len() {
                assert(docs(items@)[at as int] == items@[at as int]@);
                Some(&items[at])
            } else {
                None
            },
            _ => self.get(key),
        }
    }

    /// Whether the document is null.
    pub fn is_null(&self) -> (r: bool)
        ensures
            r == (self@ is Null),
    {
        match self {
            Json::Null => true,
            _ => false,
        }
    }

    /// A copy of the text that an object holds under a key.
    pub fn text_at(&self, key: &str) -> (r: Option<String>)
        ensures
            r.deep_view() == text_field(self@, key@),
    {
        match self.get(key) {
            Some(j) => match j.as_text() {
                Some(s) => Some(s.clone()),
                None => None,
            },
            None => None,
        }
    }

    /// The integer that an object holds under a key, when it is not negative.
    pub fn u64_at(&self, key: &str) -> (r: Option<u64>)
        ensures
            r == u64_field(self@, key@),
    {
        match self.get(key) {
            Some(j) => j.as_u64(),
            None => None,
        }
    }

    /// The integer that an object holds under a key.
    pub fn i64_at(&self, key: &str) -> (r: Option<i64>)
        ensures
            r == i64_field(self@, key@),
    {
        match self.get(key) {
            Some(j) => j.as_i64(),
            None => None,
        }
    }

    /// The truth value that an object holds under a key.
    pub fn bool_at(&self, key: &str) -> (r: Option<bool>)
        ensures
            r == bool_field(self@, key@),
    {
        match self.get(key) {
            Some(j) => j.as_bool(),
            None => None,
        }
    }

    /// The list that an object holds under a key.
    pub fn list_at(&self, key: &str) -> (r: Option<&Vec<Json>>)
        ensures
            match r {
                Some(items) => list_field(self@, key@) == Some(docs(items@)),
                None => list_field(self@, key@) is None,
            },
    {
        match self.get(key) {
            Some(j) => j.as_list(),
            None => None,
        }
    }
}

/// What pairs of texts and documents mean as an object; of two pairs with the
/// same key the later one holds.
pub open spec fn pair_map(pairs: Seq<(Seq<char>, JsonView)>) -> Map<Seq<char>, JsonView>
    decreases pairs.len(),
{
    if pairs.len() == 0 {
        Map::empty()
    } else {
        pair_map(pairs.drop_last()).insert(pairs.last().0, pairs.last().1)
    }
}

/// The object with the given fields.
pub open spec fn object_doc(pairs: Seq<(Seq<char>, JsonView)>) -> JsonView {
    JsonView::Fields(pair_map(pairs))
}

/// The pairs of an object under construction.
pub open spec fn pair_docs(fields: Seq<(String, Json)>) -> Seq<(Seq<char>, JsonView)> {
    Seq::new(fields.len(), |i: int| (fields[i].0@, fields[i].1@))
}

/// A field that is there only when its value is.
pub open spec fn optional_pair(key: Seq<char>, value: Option<JsonView>) -> Seq<
    (Seq<char>, JsonView),
> {
    match value {
        Some(v) => seq![(key, v)],
        None => Seq::empty(),
    }
}

/// The text document of an optional text.
pub open spec fn optional_text(value: Option<Seq<char>>) -> Option<JsonView> {
    match value {
        Some(s) => Some(JsonView::Text(s)),
        None => None,
    }
}

/// The truth document of an optional truth value.
pub open spec fn optional_bool(value: Option<bool>) -> Option<JsonView> {
    match value {
        Some(b) => Some(JsonView::Bool(b)),
        None => None,
    }
}

proof fn lemma_pair_docs(fields: Seq<(String, Json)>)
    ensures
        field_map(fields) == pair_map(pair_docs(fields)),
    decreases fields.len(),
{
    if fields.len() > 0 {
        lemma_pair_docs(fields.drop_last());
        assert(pair_docs(fields).drop_last() =~= pair_docs(fields.drop_last()));
    }
}

/// Adds a field to an object under construction.
pub fn put(fields: &mut Vec<(String, Json)>, key: &str, value: Json)
    ensures
        pair_docs(final(fields)@) == pair_docs(old(fields)@) + seq![(key@, value@)],
{
    fields.push((key.to_owned(), value));
    assert(pair_docs(fields@) =~= pair_docs(old(fields)@) + seq![(key@, value@)]);
}

/// Adds a text field to an object under construction.
pub fn put_text(fields: &mut Vec<(String, Json)>, key: &str, value: &str)
    ensures
        pair_docs(final(fields)@) == pair_docs(old(fields)@) + seq![(key@, JsonView::Text(value@))],
{
    put(fields, key, Json::Text(value.to_owned()));
}

/// Adds a text field to an object under construction when there is a text.
pub fn put_optional_text(fields: &mut Vec<(String, Json)>, key: &str, value: &Option<String>)
    ensures
        pair_docs(final(fields)@) == pair_docs(old(fields)@) + optional_pair(
            key@,
            optional_text(value.deep_view()),
        ),
{
    if let Some(s) = value {
        put_text(fields, key, s.as_str());
        assert(pair_docs(fields@) =~= pair_docs(old(fields)@) + seq![(key@, JsonView::Text(s@))]);
    } else {
        assert(pair_docs(fields@) =~= pair_docs(old(fields)@) + Seq::<(Seq<char>, JsonView)>::empty());
    }
}

/// Adds a truth field to an object under construction when there is a value.
pub fn put_optional_bool(fields: &mut Vec<(String, Json)>, key: &str, value: Option<bool>)
    ensures
        pair_docs(final(fields)@) == pair_docs(old(fields)@) + optional_pair(
            key@,
            optional_bool(value),
        ),
{
    if let Some(b) = value {
        put(fields, key, Json::Bool(b));
        assert(pair_docs(fields@) =~= pair_docs(old(fields)@) + seq![(key@, JsonView::Bool(b))]);
    } else {
        assert(pair_docs(fields@) =~= pair_docs(old(fields)@) + Seq::<(Seq<char>, JsonView)>::empty());
    }
}

/// Adds a field to an object under construction when there is a document.
pub fn put_optional(fields: &mut Vec<(String, Json)>, key: &str, value: Option<Json>)
    ensures
        pair_docs(final(fields)@) == pair_docs(old(fields)@) + optional_pair(key@, value.deep_view()),
{
    if let Some(j) = value {
        let ghost doc = j@;
        put(fields, key, j);
        assert(pair_docs(fields@) =~= pair_docs(old(fields)@) + seq![(key@, doc)]);
    } else {
        assert(pair_docs(fields@) =~= pair_docs(old(fields)@) + Seq::<(Seq<char>, JsonView)>::empty());
    }
}

/// The integer document of an optional number.
pub open spec fn optional_u32(value: Option<u32>) -> Option<JsonView> {
    match value {
        Some(n) => Some(JsonView::Unsigned(n as u64)),
        None => None,
    }
}

/// The integer document of an optional signed number.
pub open spec fn optional_i32(value: Option<i32>) -> Option<JsonView> {
    match value {
        Some(n) => Some(
            if n < 0 {
                JsonView::Signed(n as i64)
            } else {
                JsonView::Unsigned(n as u64)
            },
        ),
        None => None,
    }
}

/// The list document of optional documents.
pub open spec fn optional_list(value: Option<Seq<JsonView>>) -> Option<JsonView> {
    match value {
        Some(items) => Some(JsonView::List(items)),
        None => None,
    }
}

/// The list document of optional texts.
pub open spec fn optional_texts(value: Option<Seq<Seq<char>>>) -> Option<JsonView> {
    match value {
        Some(items) => Some(
            JsonView::List(Seq::new(items.len(), |i: int| JsonView::Text(items[i]))),
        ),
        None => None,
    }
}

/// The documents of a list of texts.
pub fn text_docs(list: &Vec<String>) -> (r: Vec<Json>)
    ensures
        docs(r@) == Seq::new(list@.len(), |i: int| JsonView::Text(list@[i]@)),
{
    let ghost all = Seq::new(list@.len(), |i: int| JsonView::Text(list@[i]@));
    let mut out: Vec<Json> = Vec::new();
    let mut i: usize = 0;
    while i < list.len()
        invariant
            i <= list@.len(),
            all == Seq::new(list@.len(), |i: int| JsonView::Text(list@[i]@)),
            docs(out@) == all.take(i as int),
        decreases list@.len() - i,
    {
        let item = Json::Text(list[i].clone());
        proof {
            lemma_docs_push(out@, item);
            assert(all.take(i + 1) =~= all.take(i as int).push(all[i as int]));
        }
        out.push(item);
        i += 1;
    }
    assert(all.take(i as int) =~= all);
    out
}

/// Adds a list of texts to an object under construction when there is one.
pub fn put_optional_texts(fields: &mut Vec<(String, Json)>, key: &str, value: &Option<Vec<String>>)
    ensures
        pair_docs(final(fields)@) == pair_docs(old(fields)@) + optional_pair(
            key@,
            optional_texts(value.deep_view()),
        ),
{
    put_optional(
        fields,
        key,
        match value {
            Some(items) => {
                let list = text_docs(items);
                assert(docs(list@) =~= Seq::new(
                    items.deep_view().len(),
                    |i: int| JsonView::Text(items.deep_view()[i]),
                ));
                Some(Json::List(list))
            },
            None => None,
        },
    );
}

/// No fields yet.
pub open spec fn no_pairs() -> Seq<(Seq<char>, JsonView)> {
    Seq::empty()
}

/// An object under construction.
pub fn no_fields() -> (r: Vec<(String, Json)>)
    ensures
        pair_docs(r@) == no_pairs(),
{
    let fields: Vec<(String, Json)> = Vec::new();
    assert(pair_docs(fields@) =~= no_pairs());
    fields
}

/// The finished object.
pub fn object(fields: Vec<(String, Json)>) -> (r: Json)
    ensures
        r@ == object_doc(pair_docs(fields@)),
{
    proof {
        lemma_pair_docs(fields@);
    }
    Json::Fields(fields)
}

/// A text document.
pub fn text(s: &str) -> (r: Json)
    ensures
        r@ == JsonView::Text(s@),
{
    Json::Text(s.to_owned())
}

impl Clone for Json {
    fn clone(&self) -> (r: Json)
        ensures
            r@ == self@,
    {
        self.copy()
    }
}

/// The fields of an object.
pub type Fields = Map<Seq<char>, JsonView>;

/// Whether an object has a text under a key.
pub open spec fn says(fields: Fields, key: Seq<char>, text: Seq<char>) -> bool {
    fields.contains_pair(key, JsonView::Text(text))
}

/// Whether an object has an object under a key.
pub open spec fn holds_object(fields: Fields, key: Seq<char>, inner: Fields) -> bool {
    fields.contains_pair(key, JsonView::Fields(inner))
}

/// What an object holds under a key is found under that key, by every reader and
/// by those of its kind alone.
pub proof fn law_fields_are_read_by_key(
    fields: Map<Seq<char>, JsonView>,
    key: Seq<char>,
    value: JsonView,
)
    requires
        fields.contains_pair(key, value),
    ensures
        doc_field(JsonView::Fields(fields), key) == Some(value),
        text_field(JsonView::Fields(fields), key) == (match value {
            JsonView::Text(text) => Some(text),
            _ => None,
        }),
        list_field(JsonView::Fields(fields), key) == (match value {
            JsonView::List(items) => Some(items),
            _ => None,
        }),
        bool_field(JsonView::Fields(fields), key) == (match value {
            JsonView::Bool(b) => Some(b),
            _ => None,
        }),
        u64_field(JsonView::Fields(fields), key) == (match value {
            JsonView::Unsigned(n) => Some(n),
            _ => None,
        }),
        value matches JsonView::Signed(n) ==> i64_field(JsonView::Fields(fields), key) == Some(n),
        value matches JsonView::Unsigned(n) ==> (i64_field(JsonView::Fields(fields), key) matches Some(
            i,
        ) ==> i == n) && (n <= i64::MAX ==> i64_field(JsonView::Fields(fields), key) is Some),
        value is Null || value is Bool || value is Text || value is List || value is Fields
            ==> i64_field(JsonView::Fields(fields), key) is None,
{
}

/// Under a key that an object does not have there is nothing, and in a document
/// that is no object there is nothing under any key.
pub proof fn law_missing_fields_are_none(doc: JsonView, key: Seq<char>)
    requires
        doc matches JsonView::Fields(fields) ==> !fields.dom().contains(key),
    ensures
        doc_field(doc, key) is None,
        text_field(doc, key) is None,
        list_field(doc, key) is None,
        bool_field(doc, key) is None,
        u64_field(doc, key) is None,
        i64_field(doc, key) is None,
{
}

/// An object made of pairs holds under a key what the last pair with that key
/// gives, and nothing where no pair has it.
pub proof fn law_objects_hold_their_pairs(pairs: Seq<(Seq<char>, JsonView)>, key: Seq<char>)
    ensures
        forall|i: int|
            0 <= i < pairs.len() && (#[trigger] pairs[i]).0 == key && (forall|j: int|
                i < j < pairs.len() ==> (#[trigger] pairs[j]).0 != key) ==> doc_field(
                object_doc(pairs),
                key,
            ) == Some(pairs[i].1),
        (forall|i: int| 0 <= i < pairs.len() ==> (#[trigger] pairs[i]).0 != key) ==> doc_field(
            object_doc(pairs),
            key,
        ) is None,
    decreases pairs.len(),
{
    if pairs.len() > 0 {
        let rest = pairs.drop_last();
        law_objects_hold_their_pairs(rest, key);
        let last = pairs.len() - 1;
        if pairs[last].0 != key {
            assert(doc_field(object_doc(pairs), key) == doc_field(object_doc(rest), key));
            assert forall|i: int|
                0 <= i < pairs.len() && (#[trigger] pairs[i]).0 == key && (forall|j: int|
                    i < j < pairs.len() ==> (#[trigger] pairs[j]).0 != key) implies doc_field(
                object_doc(pairs),
                key,
            ) == Some(pairs[i].1) by {
                assert(rest[i] == pairs[i]);
                assert forall|j: int| i < j < rest.len() implies (#[trigger] rest[j]).0 != key by {
                    assert(pairs[j].0 != key);
                }
            }
            if forall|i: int| 0 <= i < pairs.len() ==> (#[trigger] pairs[i]).0 != key {
                assert forall|i: int| 0 <= i < rest.len() implies (#[trigger] rest[i]).0 != key by {
                    assert(pairs[i].0 != key);
                }
            }
        } else {
            assert forall|i: int|
                0 <= i < pairs.len() && (#[trigger] pairs[i]).0 == key && (forall|j: int|
                    i < j < pairs.len() ==> (#[trigger] pairs[j]).0 != key) implies i == last by {
                if i < last {
                    assert(pairs[last].0 != key);
                }
            }
        }
    }
}

} // verus!
