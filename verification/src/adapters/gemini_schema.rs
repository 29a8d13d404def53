//! JSON schemas in the form that the Gemini protocol accepts.

use vstd::prelude::*;
use vstd::string::*;

use crate::codec::write_json;
use crate::codec::written;
use crate::json::copy_fields;
use crate::json::doc_field;
use crate::json::doc_list;
use crate::json::docs;
use crate::json::field_index;
use crate::json::field_map;
use crate::json::lemma_docs_push;
use crate::json::remove_field;
use crate::json::set_field;
use crate::json::text_field;
use crate::json::Json;
use crate::json::JsonView;
use crate::text::same_text;

verus! {

/// The first of the items that is a text and names a type other than null.
pub open spec fn first_type(items: Seq<JsonView>) -> Option<Seq<char>>
    decreases items.len(),
{
    if items.len() == 0 {
        None
    } else {
        match items[0] {
            JsonView::Text(t) => if t != "null"@ {
                Some(t)
            } else {
                first_type(items.skip(1))
            },
            _ => first_type(items.skip(1)),
        }
    }
}

/// Whether the items name the null type.
pub open spec fn names_null(items: Seq<JsonView>) -> bool {
    exists|i: int| 0 <= i < items.len() && #[trigger] items[i] == JsonView::Text("null"@)
}

/// A list of types becomes one type, with `nullable` where null was among them.
pub open spec fn single_type(fields: Map<Seq<char>, JsonView>) -> Map<Seq<char>, JsonView> {
    match list_at(fields, "type"@) {
        Some(types) => {
            let typed = fields.insert(
                "type"@,
                JsonView::Text(
                    match first_type(types) {
                        Some(t) => t,
                        None => "string"@,
                    },
                ),
            );
            if names_null(types) {
                typed.insert("nullable"@, JsonView::Bool(true))
            } else {
                typed
            }
        },
        None => fields,
    }
}

/// The list that fields hold under a key.
pub open spec fn list_at(fields: Map<Seq<char>, JsonView>, key: Seq<char>) -> Option<
    Seq<JsonView>,
> {
    if fields.dom().contains(key) {
        doc_list(fields[key])
    } else {
        None
    }
}

/// A value of an enumeration as a text. A value that cannot be written stays as
/// it is.
pub open spec fn as_enum_text(value: JsonView) -> JsonView {
    match value {
        JsonView::Text(t) => value,
        _ => match written(value) {
            Some(t) => JsonView::Text(t),
            None => value,
        },
    }
}

/// An enumeration becomes one of texts.
pub open spec fn text_enum(fields: Map<Seq<char>, JsonView>) -> Map<Seq<char>, JsonView> {
    match list_at(fields, "enum"@) {
        Some(values) => fields.insert(
            "enum"@,
            JsonView::List(Seq::new(values.len(), |i: int| as_enum_text(values[i]))),
        ).insert("type"@, JsonView::Text("string"@)),
        None => fields,
    }
}

/// The type that fields name.
pub open spec fn named_type(fields: Map<Seq<char>, JsonView>) -> Option<Seq<char>> {
    text_field(JsonView::Fields(fields), "type"@)
}

/// The schema of a text.
pub open spec fn text_schema() -> JsonView {
    JsonView::Fields(Map::<Seq<char>, JsonView>::empty().insert("type"@, JsonView::Text("string"@)))
}

/// The texts among the items, in order.
pub open spec fn texts_of(items: Seq<JsonView>) -> Seq<Seq<char>>
    decreases items.len(),
{
    if items.len() == 0 {
        Seq::empty()
    } else {
        match items.last() {
            JsonView::Text(t) => texts_of(items.drop_last()).push(t),
            _ => texts_of(items.drop_last()),
        }
    }
}

/// The keys that properties have.
pub open spec fn property_keys(fields: Map<Seq<char>, JsonView>) -> Set<Seq<char>> {
    match doc_field(JsonView::Fields(fields), "properties"@) {
        Some(JsonView::Fields(properties)) => properties.dom(),
        _ => Set::empty(),
    }
}

/// The keys that are among the properties, in order, as documents.
pub open spec fn known_keys(keys: Seq<Seq<char>>, properties: Set<Seq<char>>) -> Seq<JsonView>
    decreases keys.len(),
{
    if keys.len() == 0 {
        Seq::empty()
    } else if properties.contains(keys.last()) {
        known_keys(keys.drop_last(), properties).push(JsonView::Text(keys.last()))
    } else {
        known_keys(keys.drop_last(), properties)
    }
}

/// What is required is among the properties; where nothing is left, nothing is
/// required.
pub open spec fn known_required(fields: Map<Seq<char>, JsonView>) -> Map<Seq<char>, JsonView> {
    let keys = match list_at(fields, "required"@) {
        Some(items) => texts_of(items),
        None => Seq::empty(),
    };
    let kept = known_keys(keys, property_keys(fields));
    if keys.len() == 0 {
        fields
    } else if kept.len() == 0 {
        fields.remove("required"@)
    } else {
        fields.insert("required"@, JsonView::List(kept))
    }
}

/// The schemas of properties, each in the accepted form; none where the
/// document is no object.
pub open spec fn sanitized_properties(doc: JsonView) -> Option<Map<Seq<char>, JsonView>>
    decreases doc,
{
    match doc {
        JsonView::Fields(fields) => Some(
            Map::new(
                |k: Seq<char>| fields.dom().contains(k),
                |k: Seq<char>|
                    if fields.dom().contains(k) {
                        sanitized(fields[k])
                    } else {
                        JsonView::Null
                    },
            ),
        ),
        _ => None,
    }
}

/// The fields with their properties in the accepted form.
pub open spec fn with_properties(
    fields: Map<Seq<char>, JsonView>,
    properties: Option<Map<Seq<char>, JsonView>>,
) -> Map<Seq<char>, JsonView> {
    match properties {
        Some(p) => fields.insert("properties"@, JsonView::Fields(p)),
        None => fields,
    }
}

/// A schema in the accepted form: one type, enumerations of texts, lists with
/// items, no properties where there can be none, and required fields only where
/// there are such properties.
pub open spec fn sanitized(doc: JsonView) -> JsonView
    decreases doc,
{
    match doc {
        JsonView::Fields(fields) => {
            let base = text_enum(single_type(fields));
            let properties = if fields.dom().contains("properties"@) {
                sanitized_properties(fields["properties"@])
            } else {
                None
            };
            JsonView::Fields(
                match named_type(base) {
                    Some(t) => if t == "array"@ {
                        base.insert(
                            "items"@,
                            if fields.dom().contains("items"@) {
                                sanitized(fields["items"@])
                            } else {
                                text_schema()
                            },
                        )
                    } else if t == "object"@ {
                        known_required(with_properties(base, properties))
                    } else {
                        base.remove("properties"@).remove("required"@)
                    },
                    None => with_properties(base, properties),
                },
            )
        },
        JsonView::List(items) => JsonView::List(
            Seq::new(
                items.len(),
                |i: int|
                    if 0 <= i < items.len() {
                        sanitized(items[i])
                    } else {
                        JsonView::Null
                    },
            ),
        ),
        _ => doc,
    }
}

/// The one type that a list of types becomes, and whether null was among them.
fn pick_type(types: &Vec<Json>) -> (r: (String, bool))
    ensures
        r.0@ == (match first_type(docs(types@)) {
            Some(t) => t,
            None => "string"@,
        }),
        r.1 == names_null(docs(types@)),
{
    let ghost all = docs(types@);
    let mut picked: Option<String> = None;
    let mut nullable: bool = false;
    let mut i: usize = 0;
    assert(all.skip(0) =~= all);
    while i < types.len()
        invariant
            i <= types@.len(),
            all == docs(types@),
            match picked {
                Some(t) => first_type(all) == Some(t@),
                None => first_type(all) == first_type(all.skip(i as int)),
            },
            nullable == names_null(all.take(i as int)),
        decreases types@.len() - i,
    {
        proof {
            assert(all[i as int] == types@[i as int]@);
            assert(all.skip(i as int).skip(1) =~= all.skip(i + 1));
            assert(all.skip(i as int)[0] == all[i as int]);
            assert(all.take(i + 1)[i as int] == all[i as int]);
            if names_null(all.take(i as int)) {
                let k = choose|k: int|
                    0 <= k < i && #[trigger] all.take(i as int)[k] == JsonView::Text("null"@);
                assert(all.take(i + 1)[k] == JsonView::Text("null"@));
            }
            if names_null(all.take(i + 1)) && all[i as int] != JsonView::Text("null"@) {
                let k = choose|k: int|
                    0 <= k < i + 1 && #[trigger] all.take(i + 1)[k] == JsonView::Text("null"@);
                assert(all.take(i as int)[k] == JsonView::Text("null"@));
            }
        }
        if let Json::Text(t) = &types[i] {
            if same_text(t.as_str(), "null") {
                nullable = true;
            } else if picked.is_none() {
                picked = Some(t.clone());
            }
        }
        i += 1;
    }
    proof {
        assert(all.take(i as int) =~= all);
        assert(all.skip(i as int).len() == 0);
    }
    let name = match picked {
        Some(t) => t,
        None => "string".to_owned(),
    };
    (name, nullable)
}

/// The values of an enumeration as texts.
fn enum_texts(values: &Vec<Json>) -> (r: Vec<Json>)
    ensures
        docs(r@) == Seq::new(docs(values@).len(), |i: int| as_enum_text(docs(values@)[i])),
{
    let ghost all = docs(values@);
    let ghost wanted = Seq::new(all.len(), |i: int| as_enum_text(all[i]));
    let mut out: Vec<Json> = Vec::new();
    let mut i: usize = 0;
    while i < values.len()
        invariant
            i <= values@.len(),
            all == docs(values@),
            wanted == Seq::new(all.len(), |i: int| as_enum_text(all[i])),
            docs(out@) == wanted.take(i as int),
        decreases values@.len() - i,
    {
        let value = match &values[i] {
            Json::Text(t) => Json::Text(t.clone()),
            other => match write_json(other) {
                Some(t) => Json::Text(t),
                None => other.copy(),
            },
        };
        proof {
            assert(all[i as int] == values@[i as int]@);
            lemma_docs_push(out@, value);
            assert(wanted.take(i + 1) =~= wanted.take(i as int).push(wanted[i as int]));
        }
        out.push(value);
        i += 1;
    }
    assert(wanted.take(i as int) =~= wanted);
    out
}

fn settle_type(fields: &mut Vec<(String, Json)>)
    ensures
        field_map(final(fields)@) == single_type(field_map(old(fields)@)),
{
    let picked = match field_index(fields, "type") {
        Some(i) => match &fields[i].1 {
            Json::List(types) => Some(pick_type(types)),
            _ => None,
        },
        None => None,
    };
    if let Some((name, nullable)) = picked {
        set_field(fields, "type", Json::Text(name));
        if nullable {
            set_field(fields, "nullable", Json::Bool(true));
        }
    }
}

fn settle_enum(fields: &mut Vec<(String, Json)>)
    ensures
        field_map(final(fields)@) == text_enum(field_map(old(fields)@)),
{
    let values = match field_index(fields, "enum") {
        Some(i) => match &fields[i].1 {
            Json::List(values) => Some(enum_texts(values)),
            _ => None,
        },
        None => None,
    };
    if let Some(texts) = values {
        set_field(fields, "enum", Json::List(texts));
        set_field(fields, "type", Json::Text("string".to_owned()));
    }
}

/// The texts among the items that are keys of the properties, with the number of
/// texts.
fn keep_known(items: &Vec<Json>, properties: Option<&Vec<(String, Json)>>) -> (r: (Vec<Json>, bool))
    ensures
        ({
            let keys = texts_of(docs(items@));
            let known = match properties {
                Some(p) => field_map(p@).dom(),
                None => Set::empty(),
            };
            &&& docs(r.0@) == known_keys(keys, known)
            &&& r.1 == (keys.len() > 0)
        }),
{
    let ghost all = docs(items@);
    let ghost known = match properties {
        Some(p) => field_map(p@).dom(),
        None => Set::empty(),
    };
    let mut kept: Vec<Json> = Vec::new();
    let mut any: bool = false;
    let mut i: usize = 0;
    assert(all.take(0) =~= Seq::<JsonView>::empty());
    assert(docs(kept@) =~= Seq::<JsonView>::empty());
    while i < items.len()
        invariant
            i <= items@.len(),
            all == docs(items@),
            known == (match properties {
                Some(p) => field_map(p@).dom(),
                None => Set::empty(),
            }),
            docs(kept@) == known_keys(texts_of(all.take(i as int)), known),
            any == (texts_of(all.take(i as int)).len() > 0),
        decreases items@.len() - i,
    {
        proof {
            assert(all.take(i + 1).drop_last() =~= all.take(i as int));
            assert(all.take(i + 1).last() == items@[i as int]@);
        }
        if let Json::Text(key) = &items[i] {
            proof {
                let before = texts_of(all.take(i as int));
                assert(before.push(key@).drop_last() =~= before);
            }
            any = true;
            let found = match properties {
                Some(p) => field_index(p, key.as_str()).is_some(),
                None => false,
            };
            if found {
                let item = Json::Text(key.clone());
                proof {
                    lemma_docs_push(kept@, item);
                }
                kept.push(item);
            }
        }
        i += 1;
    }
    assert(all.take(i as int) =~= all);
    (kept, any)
}

fn settle_required(fields: &mut Vec<(String, Json)>)
    ensures
        field_map(final(fields)@) == known_required(field_map(old(fields)@)),
{
    let properties: Option<&Vec<(String, Json)>> = match field_index(fields, "properties") {
        Some(i) => match &fields[i].1 {
            Json::Fields(p) => Some(p),
            _ => None,
        },
        None => None,
    };
    let kept = match field_index(fields, "required") {
        Some(i) => match &fields[i].1 {
            Json::List(items) => Some(keep_known(items, properties)),
            _ => None,
        },
        None => None,
    };
    if let Some((kept, any)) = kept {
        if any {
            if kept.len() == 0 {
                remove_field(fields, "required");
            } else {
                set_field(fields, "required", Json::List(kept));
            }
        }
    }
}

/// The text that fields hold as their type.
fn type_text(fields: &Vec<(String, Json)>) -> (r: Option<String>)
    ensures
        r.deep_view() == named_type(field_map(fields@)),
{
    match field_index(fields, "type") {
        Some(i) => match &fields[i].1 {
            Json::Text(t) => Some(t.clone()),
            _ => None,
        },
        None => None,
    }
}

/// The accepted form of properties, pair by pair.
spec fn sanitized_map(fields: Map<Seq<char>, JsonView>) -> Map<Seq<char>, JsonView> {
    Map::new(
        |k: Seq<char>| fields.dom().contains(k),
        |k: Seq<char>|
            if fields.dom().contains(k) {
                sanitized(fields[k])
            } else {
                JsonView::Null
            },
    )
}

fn sanitized_pairs(doc: &Json) -> (r: Option<Vec<(String, Json)>>)
    ensures
        match r {
            Some(pairs) => sanitized_properties(doc@) == Some(field_map(pairs@)),
            None => sanitized_properties(doc@) is None,
        },
    decreases doc, 0nat,
{
    match doc {
        Json::Fields(properties) => {
            let mut done: Vec<(String, Json)> = Vec::new();
            let mut i: usize = 0;
            assert(properties@.take(0) =~= Seq::<(String, Json)>::empty());
            assert(field_map(done@) =~= sanitized_map(field_map(properties@.take(0))));
            while i < properties.len()
                invariant
                    i <= properties@.len(),
                    *doc matches Json::Fields(l) && l == properties,
                    field_map(done@) == sanitized_map(field_map(properties@.take(i as int))),
                decreases properties@.len() - i,
            {
                let pair = (properties[i].0.clone(), sanitized_json(&properties[i].1));
                proof {
                    let seen = properties@.take(i as int);
                    assert(done@.push(pair).drop_last() =~= done@);
                    assert(properties@.take(i + 1).drop_last() =~= seen);
                    assert(sanitized_map(
                        field_map(seen).insert(properties@[i as int].0@, properties@[i as int].1@),
                    ) =~= sanitized_map(field_map(seen)).insert(pair.0@, pair.1@));
                }
                done.push(pair);
                i += 1;
            }
            assert(properties@.take(i as int) =~= properties@);
            Some(done)
        },
        _ => None,
    }
}

fn sanitized_object(schema: &Json, fields: &Vec<(String, Json)>) -> (r: Vec<(String, Json)>)
    requires
        *schema == Json::Fields(*fields),
    ensures
        JsonView::Fields(field_map(r@)) == sanitized(schema@),
    decreases schema, 1nat,
{
    let mut out = copy_fields(fields);
    settle_type(&mut out);
    settle_enum(&mut out);
    let name = type_text(&out);
    let is_array = match &name {
        Some(t) => same_text(t.as_str(), "array"),
        None => false,
    };
    let is_object = match &name {
        Some(t) => same_text(t.as_str(), "object"),
        None => false,
    };
    if is_array {
        let items = match field_index(fields, "items") {
            Some(i) => sanitized_json(&fields[i].1),
            None => {
                let mut only: Vec<(String, Json)> = Vec::new();
                assert(field_map(only@) =~= Map::<Seq<char>, JsonView>::empty());
                set_field(&mut only, "type", Json::Text("string".to_owned()));
                Json::Fields(only)
            },
        };
        set_field(&mut out, "items", items);
    } else if name.is_some() && !is_object {
        remove_field(&mut out, "properties");
        remove_field(&mut out, "required");
    } else {
        let properties = match field_index(fields, "properties") {
            Some(k) => sanitized_pairs(&fields[k].1),
            None => None,
        };
        if let Some(pairs) = properties {
            set_field(&mut out, "properties", Json::Fields(pairs));
        }
        if is_object {
            settle_required(&mut out);
        }
    }
    out
}

fn sanitized_list(schema: &Json, items: &Vec<Json>) -> (r: Vec<Json>)
    requires
        *schema == Json::List(*items),
    ensures
        JsonView::List(docs(r@)) == sanitized(schema@),
    decreases schema, 1nat,
{
    let ghost all = docs(items@);
    let ghost wanted = Seq::new(
        all.len(),
        |i: int|
            if 0 <= i < all.len() {
                sanitized(all[i])
            } else {
                JsonView::Null
            },
    );
    let mut out: Vec<Json> = Vec::new();
    let mut i: usize = 0;
    while i < items.len()
        invariant
            i <= items@.len(),
            *schema matches Json::List(l) && l == items,
            all == docs(items@),
            wanted == Seq::new(
                all.len(),
                |i: int|
                    if 0 <= i < all.len() {
                        sanitized(all[i])
                    } else {
                        JsonView::Null
                    },
            ),
            docs(out@) == wanted.take(i as int),
        decreases items@.len() - i,
    {
        let item = sanitized_json(&items[i]);
        proof {
            assert(all[i as int] == items@[i as int]@);
            lemma_docs_push(out@, item);
            assert(wanted.take(i + 1) =~= wanted.take(i as int).push(wanted[i as int]));
        }
        out.push(item);
        i += 1;
    }
    assert(wanted.take(i as int) =~= wanted);
    assert(schema@ == JsonView::List(all));
    assert(sanitized(schema@)->List_0 =~= wanted);
    out
}

fn sanitized_json(schema: &Json) -> (r: Json)
    ensures
        r@ == sanitized(schema@),
    decreases schema, 2nat,
{
    match schema {
        Json::Fields(fields) => Json::Fields(sanitized_object(schema, fields)),
        Json::List(items) => Json::List(sanitized_list(schema, items)),
        other => other.copy(),
    }
}

/// Brings a schema into the accepted form.
pub fn sanitize_gemini_schema(schema: &mut Json)
    ensures
        final(schema)@ == sanitized(old(schema)@),
{
    let done = sanitized_json(schema);
    *schema = done;
}

/// The keys that an answer's schema cannot have.
pub open spec fn unanswerable_key(key: Seq<char>) -> bool {
    key == "$schema"@ || key == "title"@ || key == "$defs"@ || key == "$ref"@ || key == "default"@
        || key == "examples"@ || key == "definitions"@
}

/// Properties without the keys that an answer's schema cannot have.
pub open spec fn stripped_properties(doc: JsonView) -> JsonView
    decreases doc,
{
    match doc {
        JsonView::Fields(fields) => JsonView::Fields(
            Map::new(
                |k: Seq<char>| fields.dom().contains(k),
                |k: Seq<char>|
                    if fields.dom().contains(k) {
                        stripped(fields[k])
                    } else {
                        JsonView::Null
                    },
            ),
        ),
        _ => doc,
    }
}

/// A schema without the keys that an answer's schema cannot have, neither its
/// own nor those of its properties and items.
pub open spec fn stripped(doc: JsonView) -> JsonView
    decreases doc,
{
    match doc {
        JsonView::Fields(fields) => JsonView::Fields(
            Map::new(
                |k: Seq<char>| fields.dom().contains(k) && !unanswerable_key(k),
                |k: Seq<char>|
                    if fields.dom().contains(k) {
                        if k == "properties"@ {
                            stripped_properties(fields[k])
                        } else if k == "items"@ {
                            stripped(fields[k])
                        } else {
                            fields[k]
                        }
                    } else {
                        JsonView::Null
                    },
            ),
        ),
        JsonView::List(items) => JsonView::List(
            Seq::new(
                items.len(),
                |i: int|
                    if 0 <= i < items.len() {
                        stripped(items[i])
                    } else {
                        JsonView::Null
                    },
            ),
        ),
        _ => doc,
    }
}

spec fn stripped_map(fields: Map<Seq<char>, JsonView>) -> Map<Seq<char>, JsonView> {
    Map::new(
        |k: Seq<char>| fields.dom().contains(k),
        |k: Seq<char>|
            if fields.dom().contains(k) {
                stripped(fields[k])
            } else {
                JsonView::Null
            },
    )
}

/// The words of schemas differ from each other.
pub proof fn lemma_schema_words()
    ensures
        "type"@ != "nullable"@,
        "type"@ != "enum"@,
        "type"@ != "items"@,
        "type"@ != "properties"@,
        "type"@ != "required"@,
        "enum"@ != "nullable"@,
        "enum"@ != "items"@,
        "enum"@ != "properties"@,
        "enum"@ != "required"@,
        "items"@ != "nullable"@,
        "items"@ != "properties"@,
        "items"@ != "required"@,
        "properties"@ != "nullable"@,
        "properties"@ != "required"@,
        "required"@ != "nullable"@,
        "array"@ != "object"@,
        "array"@ != "string"@,
        "object"@ != "string"@,
        !unanswerable_key("properties"@),
        !unanswerable_key("items"@),
{
    reveal_strlit("type");
    reveal_strlit("nullable");
    reveal_strlit("enum");
    reveal_strlit("items");
    reveal_strlit("properties");
    reveal_strlit("required");
    reveal_strlit("array");
    reveal_strlit("object");
    reveal_strlit("string");
    reveal_strlit("$schema");
    reveal_strlit("title");
    reveal_strlit("$defs");
    reveal_strlit("$ref");
    reveal_strlit("default");
    reveal_strlit("examples");
    reveal_strlit("definitions");
    assert("type"@[0] != "enum"@[0]);
    assert("type"@[0] != "items"@[0]);
    assert("nullable"@[0] != "required"@[0]);
    assert("properties"@.len() == 10);
    assert("$schema"@.len() == 7);
    assert("title"@.len() == 5);
    assert("$defs"@.len() == 5);
    assert("$ref"@.len() == 4);
    assert("default"@.len() == 7);
    assert("examples"@.len() == 8);
    assert("definitions"@.len() == 11);
    assert("items"@[0] != "title"@[0]);
    assert("items"@[0] != "$defs"@[0]);
    assert("object"@[0] != "string"@[0]);
}

fn stripped_pairs(properties: &Vec<(String, Json)>, doc: &Json) -> (r: Vec<(String, Json)>)
    requires
        *doc == Json::Fields(*properties),
    ensures
        JsonView::Fields(field_map(r@)) == stripped_properties(doc@),
    decreases doc, 0nat,
{
    let mut done: Vec<(String, Json)> = Vec::new();
    let mut i: usize = 0;
    assert(properties@.take(0) =~= Seq::<(String, Json)>::empty());
    assert(field_map(done@) =~= stripped_map(field_map(properties@.take(0))));
    while i < properties.len()
        invariant
            i <= properties@.len(),
            *doc matches Json::Fields(l) && l == properties,
            field_map(done@) == stripped_map(field_map(properties@.take(i as int))),
        decreases properties@.len() - i,
    {
        let pair = (properties[i].0.clone(), stripped_json(&properties[i].1));
        proof {
            let seen = properties@.take(i as int);
            assert(done@.push(pair).drop_last() =~= done@);
            assert(properties@.take(i + 1).drop_last() =~= seen);
            assert(stripped_map(
                field_map(seen).insert(properties@[i as int].0@, properties@[i as int].1@),
            ) =~= stripped_map(field_map(seen)).insert(pair.0@, pair.1@));
        }
        done.push(pair);
        i += 1;
    }
    assert(properties@.take(i as int) =~= properties@);
    assert(field_map(done@) =~= stripped_properties(doc@)->Fields_0);
    done
}

fn stripped_object(schema: &Json, fields: &Vec<(String, Json)>) -> (r: Vec<(String, Json)>)
    requires
        *schema == Json::Fields(*fields),
    ensures
        JsonView::Fields(field_map(r@)) == stripped(schema@),
    decreases schema, 1nat,
{
    proof {
        lemma_schema_words();
    }
    let mut out = copy_fields(fields);
    remove_field(&mut out, "$schema");
    remove_field(&mut out, "title");
    remove_field(&mut out, "$defs");
    remove_field(&mut out, "$ref");
    remove_field(&mut out, "default");
    remove_field(&mut out, "examples");
    remove_field(&mut out, "definitions");
    if let Some(k) = field_index(fields, "properties") {
        if let Json::Fields(properties) = &fields[k].1 {
            let done = stripped_pairs(properties, &fields[k].1);
            set_field(&mut out, "properties", Json::Fields(done));
        }
    }
    if let Some(k) = field_index(fields, "items") {
        let done = stripped_json(&fields[k].1);
        set_field(&mut out, "items", done);
    }
    assert(field_map(out@) =~= stripped(schema@)->Fields_0);
    out
}

fn stripped_list(schema: &Json, items: &Vec<Json>) -> (r: Vec<Json>)
    requires
        *schema == Json::List(*items),
    ensures
        JsonView::List(docs(r@)) == stripped(schema@),
    decreases schema, 1nat,
{
    let ghost all = docs(items@);
    let ghost wanted = Seq::new(all.len(), |i: int| stripped(all[i]));
    let mut out: Vec<Json> = Vec::new();
    let mut i: usize = 0;
    while i < items.len()
        invariant
            i <= items@.len(),
            *schema matches Json::List(l) && l == items,
            all == docs(items@),
            wanted == Seq::new(all.len(), |i: int| stripped(all[i])),
            docs(out@) == wanted.take(i as int),
        decreases items@.len() - i,
    {
        let item = stripped_json(&items[i]);
        proof {
            assert(all[i as int] == items@[i as int]@);
            lemma_docs_push(out@, item);
            assert(wanted.take(i + 1) =~= wanted.take(i as int).push(wanted[i as int]));
        }
        out.push(item);
        i += 1;
    }
    assert(wanted.take(i as int) =~= wanted);
    assert(schema@ == JsonView::List(all));
    assert(stripped(schema@)->List_0 =~= wanted);
    out
}

fn stripped_json(schema: &Json) -> (r: Json)
    ensures
        r@ == stripped(schema@),
    decreases schema, 2nat,
{
    match schema {
        Json::Fields(fields) => Json::Fields(stripped_object(schema, fields)),
        Json::List(items) => Json::List(stripped_list(schema, items)),
        other => other.copy(),
    }
}

/// Takes the keys that an answer's schema cannot have out of a schema.
pub fn strip_gemini_response_schema_keys(schema: &mut Json)
    ensures
        final(schema)@ == stripped(old(schema)@),
{
    let done = stripped_json(schema);
    *schema = done;
}

/// Values of an enumeration are texts, but for those that cannot be written.
pub open spec fn enum_accepted(fields: Map<Seq<char>, JsonView>) -> bool {
    list_at(fields, "enum"@) matches Some(values) ==> {
        &&& named_type(fields) == Some("string"@)
        &&& forall|i: int|
            0 <= i < values.len() ==> (#[trigger] values[i]) is Text || written(values[i]) is None
    }
}

/// What is required is among the properties.
pub open spec fn required_accepted(fields: Map<Seq<char>, JsonView>) -> bool {
    list_at(fields, "required"@) matches Some(items) ==> texts_of(items).len() == 0 || forall|i: int|
        0 <= i < items.len() ==> ((#[trigger] items[i]) matches JsonView::Text(key)
            && property_keys(fields).contains(key))
}

/// Properties are each in the accepted form.
pub open spec fn properties_accepted(doc: JsonView) -> bool
    decreases doc,
{
    match doc {
        JsonView::Fields(fields) => forall|k: Seq<char>|
            fields.dom().contains(k) ==> accepted(#[trigger] fields[k]),
        _ => true,
    }
}

/// The form that the protocol accepts.
pub open spec fn accepted(doc: JsonView) -> bool
    decreases doc,
{
    match doc {
        JsonView::Fields(fields) => {
            &&& list_at(fields, "type"@) is None
            &&& enum_accepted(fields)
            &&& match named_type(fields) {
                Some(t) => if t == "array"@ {
                    fields.dom().contains("items"@) && accepted(fields["items"@])
                } else if t == "object"@ {
                    &&& fields.dom().contains("properties"@) ==> properties_accepted(
                        fields["properties"@],
                    )
                    &&& required_accepted(fields)
                } else {
                    !fields.dom().contains("properties"@) && !fields.dom().contains("required"@)
                },
                None => fields.dom().contains("properties"@) ==> properties_accepted(
                    fields["properties"@],
                ),
            }
        },
        JsonView::List(items) => forall|i: int|
            0 <= i < items.len() ==> accepted(#[trigger] items[i]),
        _ => true,
    }
}

proof fn lemma_known_keys(keys: Seq<Seq<char>>, properties: Set<Seq<char>>)
    ensures
        forall|i: int|
            0 <= i < known_keys(keys, properties).len() ==> ((#[trigger] known_keys(
                keys,
                properties,
            )[i]) matches JsonView::Text(key) && properties.contains(key)),
    decreases keys.len(),
{
    if keys.len() > 0 {
        lemma_known_keys(keys.drop_last(), properties);
    }
}

proof fn lemma_text_schema_accepted()
    ensures
        accepted(text_schema()),
{
    lemma_schema_words();
    let fields = text_schema()->Fields_0;
    assert(named_type(fields) == Some("string"@));
    assert(!fields.dom().contains("enum"@));
}

proof fn lemma_properties_accepted(doc: JsonView)
    requires
        doc is Fields,
        forall|k: Seq<char>|
            doc->Fields_0.dom().contains(k) ==> accepted(sanitized(#[trigger] doc->Fields_0[k])),
    ensures
        properties_accepted(JsonView::Fields(sanitized_properties(doc)->0)),
{
    let done = sanitized_properties(doc)->0;
    assert forall|k: Seq<char>| done.dom().contains(k) implies accepted(#[trigger] done[k]) by {
        assert(accepted(sanitized(doc->Fields_0[k])));
    }
}

proof fn lemma_base_accepted(fields: Map<Seq<char>, JsonView>)
    ensures
        list_at(text_enum(single_type(fields)), "type"@) is None,
        enum_accepted(text_enum(single_type(fields))),
{
    lemma_schema_words();
    let typed = single_type(fields);
    let base = text_enum(typed);
    if let Some(values) = list_at(typed, "enum"@) {
        let texts = list_at(base, "enum"@)->0;
        assert forall|i: int| 0 <= i < texts.len() implies (#[trigger] texts[i]) is Text || written(
            texts[i],
        ) is None by {
            assert(texts[i] == as_enum_text(values[i]));
        }
    }
}

/// Cleaning brings every schema into the accepted form.
pub proof fn law_sanitized_is_accepted(doc: JsonView)
    ensures
        accepted(sanitized(doc)),
    decreases doc,
{
    match doc {
        JsonView::Fields(fields) => {
            lemma_schema_words();
            lemma_base_accepted(fields);
            let base = text_enum(single_type(fields));
            let done = sanitized(doc)->Fields_0;
            assert(base.dom().contains("properties"@) == fields.dom().contains("properties"@));
            assert(fields.dom().contains("properties"@) ==> base["properties"@]
                == fields["properties"@]);
            if fields.dom().contains("properties"@) && fields["properties"@] is Fields {
                let properties = fields["properties"@];
                assert forall|k: Seq<char>|
                    properties->Fields_0.dom().contains(k) implies accepted(
                    sanitized(#[trigger] properties->Fields_0[k]),
                ) by {
                    law_sanitized_is_accepted(properties->Fields_0[k]);
                }
                lemma_properties_accepted(properties);
            }
            match named_type(base) {
                Some(t) => {
                    if t == "array"@ {
                        if fields.dom().contains("items"@) {
                            law_sanitized_is_accepted(fields["items"@]);
                        } else {
                            lemma_text_schema_accepted();
                        }
                    } else if t == "object"@ {
                        let properties = if fields.dom().contains("properties"@) {
                            sanitized_properties(fields["properties"@])
                        } else {
                            None
                        };
                        let before = with_properties(base, properties);
                        let keys = match list_at(before, "required"@) {
                            Some(items) => texts_of(items),
                            None => Seq::empty(),
                        };
                        lemma_known_keys(keys, property_keys(before));
                        assert(done == known_required(before));
                        assert(property_keys(done) =~= property_keys(before));
                        assert(required_accepted(done));
                        assert(done.dom().contains("properties"@) ==> properties_accepted(
                            done["properties"@],
                        ));
                    }
                },
                None => {
                    assert(done.dom().contains("properties"@) ==> properties_accepted(
                        done["properties"@],
                    ));
                },
            }
            assert(named_type(done) == named_type(base));
            assert(list_at(done, "enum"@) == list_at(base, "enum"@));
            assert(accepted(sanitized(doc)));
        },
        JsonView::List(items) => {
            assert forall|i: int| 0 <= i < items.len() implies accepted(
                #[trigger] sanitized(doc)->List_0[i],
            ) by {
                law_sanitized_is_accepted(items[i]);
            }
        },
        _ => {},
    }
}

proof fn lemma_all_known(items: Seq<JsonView>, properties: Set<Seq<char>>)
    requires
        forall|i: int|
            0 <= i < items.len() ==> ((#[trigger] items[i]) matches JsonView::Text(key)
                && properties.contains(key)),
    ensures
        known_keys(texts_of(items), properties) == items,
        texts_of(items).len() == items.len(),
    decreases items.len(),
{
    if items.len() > 0 {
        let before = items.drop_last();
        assert forall|i: int| 0 <= i < before.len() implies ((#[trigger] before[i]) matches JsonView::Text(
            key,
        ) && properties.contains(key)) by {
            assert(before[i] == items[i]);
        }
        lemma_all_known(before, properties);
        assert(items.last() == items[items.len() - 1]);
        assert(texts_of(items).drop_last() =~= texts_of(before));
        assert(known_keys(texts_of(items), properties) =~= items);
    } else {
        assert(known_keys(texts_of(items), properties) =~= items);
    }
}

/// Cleaning changes nothing of a schema in the accepted form.
pub proof fn law_accepted_is_unchanged(doc: JsonView)
    requires
        accepted(doc),
    ensures
        sanitized(doc) == doc,
    decreases doc,
{
    match doc {
        JsonView::Fields(fields) => {
            lemma_schema_words();
            assert(single_type(fields) == fields);
            let base = text_enum(fields);
            if let Some(values) = list_at(fields, "enum"@) {
                assert(Seq::new(values.len(), |i: int| as_enum_text(values[i])) =~= values);
            }
            assert(base =~= fields);
            if fields.dom().contains("properties"@) && fields["properties"@] is Fields
                && properties_accepted(fields["properties"@]) {
                let properties = fields["properties"@];
                assert forall|k: Seq<char>|
                    properties->Fields_0.dom().contains(k) implies sanitized(
                    #[trigger] properties->Fields_0[k],
                ) == properties->Fields_0[k] by {
                    assert(accepted(properties->Fields_0[k]));
                    law_accepted_is_unchanged(properties->Fields_0[k]);
                }
                assert(sanitized_properties(properties)->0 =~= properties->Fields_0);
            }
            match named_type(fields) {
                Some(t) => {
                    if t == "array"@ {
                        law_accepted_is_unchanged(fields["items"@]);
                    } else if t == "object"@ {
                        let properties = if fields.dom().contains("properties"@) {
                            sanitized_properties(fields["properties"@])
                        } else {
                            None
                        };
                        assert(with_properties(base, properties) =~= fields);
                        if let Some(items) = list_at(fields, "required"@) {
                            if texts_of(items).len() > 0 {
                                lemma_all_known(items, property_keys(fields));
                            }
                        }
                        assert(known_required(fields) =~= fields);
                    } else {
                        assert(fields.remove("properties"@).remove("required"@) =~= fields);
                    }
                },
                None => {},
            }
            assert(sanitized(doc)->Fields_0 =~= fields);
        },
        JsonView::List(items) => {
            assert forall|i: int| 0 <= i < items.len() implies #[trigger] sanitized(doc)->List_0[i]
                == items[i] by {
                assert(accepted(items[i]));
                law_accepted_is_unchanged(items[i]);
            }
            assert(sanitized(doc)->List_0 =~= items);
        },
        _ => {},
    }
}

/// Cleaning a schema twice is cleaning it once.
pub proof fn law_sanitizing_is_idempotent(doc: JsonView)
    ensures
        sanitized(sanitized(doc)) == sanitized(doc),
{
    law_sanitized_is_accepted(doc);
    law_accepted_is_unchanged(sanitized(doc));
}

/// Properties hold nothing that an answer's schema cannot have.
pub open spec fn properties_answerable(doc: JsonView) -> bool
    decreases doc,
{
    match doc {
        JsonView::Fields(fields) => forall|k: Seq<char>|
            fields.dom().contains(k) ==> answerable(#[trigger] fields[k]),
        _ => true,
    }
}

/// A schema holds nothing that an answer's schema cannot have, neither itself
/// nor in its properties and items.
pub open spec fn answerable(doc: JsonView) -> bool
    decreases doc,
{
    match doc {
        JsonView::Fields(fields) => {
            &&& forall|k: Seq<char>| #[trigger] fields.dom().contains(k) ==> !unanswerable_key(k)
            &&& fields.dom().contains("properties"@) ==> properties_answerable(
                fields["properties"@],
            )
            &&& fields.dom().contains("items"@) ==> answerable(fields["items"@])
        },
        JsonView::List(items) => forall|i: int|
            0 <= i < items.len() ==> answerable(#[trigger] items[i]),
        _ => true,
    }
}

/// Stripping leaves nothing that an answer's schema cannot have.
pub proof fn law_stripped_is_answerable(doc: JsonView)
    ensures
        answerable(stripped(doc)),
    decreases doc,
{
    match doc {
        JsonView::Fields(fields) => {
            lemma_schema_words();
            let done = stripped(doc)->Fields_0;
            if fields.dom().contains("properties"@) {
                let properties = fields["properties"@];
                if properties is Fields {
                    let inner = stripped_properties(properties)->Fields_0;
                    assert forall|k: Seq<char>| inner.dom().contains(k) implies answerable(
                        #[trigger] inner[k],
                    ) by {
                        law_stripped_is_answerable(properties->Fields_0[k]);
                    }
                }
                assert(properties_answerable(done["properties"@]));
            }
            if fields.dom().contains("items"@) {
                law_stripped_is_answerable(fields["items"@]);
            }
        },
        JsonView::List(items) => {
            assert forall|i: int| 0 <= i < items.len() implies answerable(
                #[trigger] stripped(doc)->List_0[i],
            ) by {
                law_stripped_is_answerable(items[i]);
            }
        },
        _ => {},
    }
}

} // verus!
