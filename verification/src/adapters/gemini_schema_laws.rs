//! What is kept of a schema, and what becomes of the rest of it.

use vstd::prelude::*;
use vstd::string::*;

use crate::adapters::gemini_schema::first_type;
use crate::adapters::gemini_schema::known_keys;
use crate::adapters::gemini_schema::lemma_schema_words;
use crate::adapters::gemini_schema::names_null;
use crate::adapters::gemini_schema::sanitized;
use crate::adapters::gemini_schema::sanitized_properties;
use crate::adapters::gemini_schema::single_type;
use crate::adapters::gemini_schema::stripped;
use crate::adapters::gemini_schema::stripped_properties;
use crate::adapters::gemini_schema::text_enum;
use crate::adapters::gemini_schema::texts_of;
use crate::codec::written;
use crate::json::holds_object;
use crate::json::law_fields_are_read_by_key;
use crate::json::law_missing_fields_are_none;
use crate::json::says;
use crate::json::Fields;
use crate::json::JsonView;

verus! {

/// The keys that the accepted form has rules for.
pub open spec fn ruled(key: Seq<char>) -> bool {
    key == "type"@ || key == "nullable"@ || key == "enum"@ || key == "items"@ || key
        == "properties"@ || key == "required"@
}

/// What the accepted form has no rule for stays as it is, and nothing is added
/// there. What is neither an object nor a list stays as it is.
pub proof fn law_other_keys_stay(fields: Fields, key: Seq<char>, doc: JsonView)
    requires
        !ruled(key),
        !(doc is Fields),
        !(doc is List),
    ensures
        sanitized(JsonView::Fields(fields)) matches JsonView::Fields(done) && {
            &&& done.dom().contains(key) <==> fields.dom().contains(key)
            &&& fields.dom().contains(key) ==> done[key] == fields[key]
        },
        sanitized(doc) == doc,
{
}

proof fn lemma_first_type(types: Seq<JsonView>, k: int, name: Seq<char>)
    requires
        0 <= k < types.len(),
        types[k] == JsonView::Text(name),
        name != "null"@,
        forall|i: int| 0 <= i < k ==> #[trigger] types[i] == JsonView::Text("null"@),
    ensures
        first_type(types) == Some(name),
    decreases types.len(),
{
    if k > 0 {
        assert(types[0] == JsonView::Text("null"@));
        let rest = types.skip(1);
        assert forall|i: int| 0 <= i < k - 1 implies #[trigger] rest[i] == JsonView::Text(
            "null"@,
        ) by {
            assert(types[i + 1] == JsonView::Text("null"@));
        }
        lemma_first_type(rest, k - 1, name);
    }
}

/// One type is kept of several, the first that is not null, and where null is among
/// them the value may be null. One type that is no enumeration's stays.
pub proof fn law_one_type_is_kept(fields: Fields, types: Seq<JsonView>, k: int, name: Seq<char>)
    requires
        !fields.dom().contains("enum"@),
        0 <= k < types.len(),
        types[k] == JsonView::Text(name),
        name != "null"@,
        forall|i: int| 0 <= i < k ==> #[trigger] types[i] == JsonView::Text("null"@),
    ensures
        fields.contains_pair("type"@, JsonView::List(types)) ==> (sanitized(
            JsonView::Fields(fields),
        ) matches JsonView::Fields(done) && {
            &&& says(done, "type"@, name)
            &&& types.contains(JsonView::Text("null"@)) ==> done.contains_pair(
                "nullable"@,
                JsonView::Bool(true),
            )
            &&& !types.contains(JsonView::Text("null"@)) && !fields.dom().contains("nullable"@)
                ==> !done.dom().contains("nullable"@)
        }),
        says(fields, "type"@, name) ==> (sanitized(JsonView::Fields(fields)) matches JsonView::Fields(
            done,
        ) && says(done, "type"@, name)),
{
    lemma_schema_words();
    if fields.contains_pair("type"@, JsonView::List(types)) {
        lemma_first_type(types, k, name);
        if types.contains(JsonView::Text("null"@)) {
            let i = choose|i: int| 0 <= i < types.len() && types[i] == JsonView::Text("null"@);
            assert(names_null(types));
        }
        if names_null(types) {
            let i = choose|i: int|
                0 <= i < types.len() && #[trigger] types[i] == JsonView::Text("null"@);
            assert(types.contains(types[i]));
        }
    }
}

/// An enumeration is one of texts: a text stays, and any other value is written as
/// text. None is left out, and the order stays.
pub proof fn law_enumerations_are_of_texts(fields: Fields, values: Seq<JsonView>, i: int)
    requires
        fields.contains_pair("enum"@, JsonView::List(values)),
        0 <= i < values.len(),
    ensures
        sanitized(JsonView::Fields(fields)) matches JsonView::Fields(done) && {
            &&& says(done, "type"@, "string"@)
            &&& done.dom().contains("enum"@)
            &&& done["enum"@] matches JsonView::List(texts) && texts.len() == values.len() && {
                &&& values[i] is Text ==> texts[i] == values[i]
                &&& !(values[i] is Text) ==> (written(values[i]) matches Some(text) ==> texts[i]
                    == JsonView::Text(text))
            }
        },
{
    lemma_schema_words();
    let base = text_enum(single_type(fields));
    assert(single_type(fields).contains_pair("enum"@, JsonView::List(values)));
    assert(says(base, "type"@, "string"@));
    law_fields_are_read_by_key(base, "type"@, JsonView::Text("string"@));
}

/// A list has a schema for its items: its own, in the accepted form, or that of a
/// text where it has none.
pub proof fn law_lists_have_items(fields: Fields)
    requires
        says(fields, "type"@, "array"@),
        !fields.dom().contains("enum"@),
    ensures
        sanitized(JsonView::Fields(fields)) matches JsonView::Fields(done) && {
            &&& fields.dom().contains("items"@) ==> done.contains_pair(
                "items"@,
                sanitized(fields["items"@]),
            )
            &&& !fields.dom().contains("items"@) ==> done.contains_pair(
                "items"@,
                JsonView::Fields(map!["type"@ => JsonView::Text("string"@)]),
            )
        },
{
    lemma_schema_words();
    law_fields_are_read_by_key(fields, "type"@, JsonView::Text("array"@));
    assert(text_enum(single_type(fields)) == fields);
    assert(Map::<Seq<char>, JsonView>::empty().insert("type"@, JsonView::Text("string"@)) =~= map![
        "type"@ => JsonView::Text("string"@)
    ]);
}

/// An object, and a value of no type with properties, keeps all its properties, each in
/// the accepted form.
pub proof fn law_objects_keep_their_properties(
    fields: Fields,
    properties: Fields,
    key: Seq<char>,
)
    requires
        says(fields, "type"@, "object"@) || !fields.dom().contains("type"@),
        !fields.dom().contains("enum"@),
        holds_object(fields, "properties"@, properties),
    ensures
        sanitized(JsonView::Fields(fields)) matches JsonView::Fields(done) && done.dom().contains(
            "properties"@,
        ) && (done["properties"@] matches JsonView::Fields(kept) && {
            &&& kept.dom().contains(key) <==> properties.dom().contains(key)
            &&& properties.dom().contains(key) ==> kept[key] == sanitized(properties[key])
        }),
{
    lemma_schema_words();
    if fields.dom().contains("type"@) {
        law_fields_are_read_by_key(fields, "type"@, JsonView::Text("object"@));
    } else {
        law_missing_fields_are_none(JsonView::Fields(fields), "type"@);
    }
    assert(text_enum(single_type(fields)) == fields);
    reveal_with_fuel(sanitized, 3);
    reveal_with_fuel(sanitized_properties, 3);
}

/// A value whose types name nothing but null is a text that may be null.
pub proof fn law_null_alone_is_a_text(fields: Fields, types: Seq<JsonView>)
    requires
        !fields.dom().contains("enum"@),
        fields.contains_pair("type"@, JsonView::List(types)),
        types.len() > 0,
        forall|i: int| 0 <= i < types.len() ==> #[trigger] types[i] == JsonView::Text("null"@),
    ensures
        sanitized(JsonView::Fields(fields)) matches JsonView::Fields(done) && says(
            done,
            "type"@,
            "string"@,
        ) && done.contains_pair("nullable"@, JsonView::Bool(true)),
{
    lemma_schema_words();
    lemma_no_type(types);
    assert(types[0] == JsonView::Text("null"@));
    assert(names_null(types));
}

proof fn lemma_no_type(types: Seq<JsonView>)
    requires
        forall|i: int| 0 <= i < types.len() ==> #[trigger] types[i] == JsonView::Text("null"@),
    ensures
        first_type(types) is None,
    decreases types.len(),
{
    if types.len() > 0 {
        let rest = types.skip(1);
        assert forall|i: int| 0 <= i < rest.len() implies #[trigger] rest[i] == JsonView::Text(
            "null"@,
        ) by {
            assert(rest[i] == types[i + 1]);
        }
        assert(types[0] == JsonView::Text("null"@));
        lemma_no_type(rest);
    }
}

proof fn lemma_texts_of(keys: Seq<Seq<char>>)
    ensures
        texts_of(Seq::new(keys.len(), |i: int| JsonView::Text(keys[i]))) == keys,
    decreases keys.len(),
{
    let items = Seq::new(keys.len(), |i: int| JsonView::Text(keys[i]));
    if keys.len() > 0 {
        lemma_texts_of(keys.drop_last());
        assert(items.drop_last() =~= Seq::new(
            keys.drop_last().len(),
            |i: int| JsonView::Text(keys.drop_last()[i]),
        ));
        assert(keys.drop_last().push(keys.last()) =~= keys);
    } else {
        assert(texts_of(items) =~= keys);
    }
}

proof fn lemma_known_keys(keys: Seq<Seq<char>>, properties: Set<Seq<char>>)
    ensures
        known_keys(keys, properties) == keys.filter(
            |k: Seq<char>| properties.contains(k),
        ).map_values(|k: Seq<char>| JsonView::Text(k)),
    decreases keys.len(),
{
    reveal(Seq::filter);
    let keep = |k: Seq<char>| properties.contains(k);
    if keys.len() > 0 {
        lemma_known_keys(keys.drop_last(), properties);
    }
    assert(known_keys(keys, properties) =~= keys.filter(keep).map_values(
        |k: Seq<char>| JsonView::Text(k),
    ));
}

/// What an object requires is what it required before of its properties; where
/// nothing is left, nothing is required.
pub proof fn law_required_fields_are_properties(
    fields: Fields,
    properties: Fields,
    keys: Seq<Seq<char>>,
)
    requires
        says(fields, "type"@, "object"@),
        !fields.dom().contains("enum"@),
        holds_object(fields, "properties"@, properties),
        fields.contains_pair(
            "required"@,
            JsonView::List(Seq::new(keys.len(), |i: int| JsonView::Text(keys[i]))),
        ),
        keys.len() > 0,
    ensures
        ({
            let kept = keys.filter(|k: Seq<char>| properties.dom().contains(k));
            sanitized(JsonView::Fields(fields)) matches JsonView::Fields(done) && {
                &&& kept.len() == 0 ==> !done.dom().contains("required"@)
                &&& kept.len() > 0 ==> done.contains_pair(
                    "required"@,
                    JsonView::List(kept.map_values(|k: Seq<char>| JsonView::Text(k))),
                )
            }
        }),
{
    lemma_schema_words();
    law_fields_are_read_by_key(fields, "type"@, JsonView::Text("object"@));
    assert(text_enum(single_type(fields)) == fields);
    lemma_texts_of(keys);
    lemma_known_keys(keys, properties.dom());
    let inner = sanitized_properties(
        JsonView::Fields(properties),
    )->0;
    assert(inner.dom() =~= properties.dom());
    let mid = crate::adapters::gemini_schema::with_properties(fields, Some(inner));
    law_fields_are_read_by_key(mid, "properties"@, JsonView::Fields(inner));
    assert(crate::adapters::gemini_schema::property_keys(mid) == properties.dom());
    assert(mid["required"@] == fields["required"@]);
}

/// A value that is neither an object nor a list has no properties and requires
/// none.
pub proof fn law_plain_values_have_no_properties(fields: Fields, name: Seq<char>)
    requires
        says(fields, "type"@, name),
        name != "object"@,
        name != "array"@,
        !fields.dom().contains("enum"@),
    ensures
        sanitized(JsonView::Fields(fields)) matches JsonView::Fields(done) && !done.dom().contains(
            "properties"@,
        ) && !done.dom().contains("required"@),
{
    lemma_schema_words();
    law_fields_are_read_by_key(fields, "type"@, JsonView::Text(name));
    assert(text_enum(single_type(fields)) == fields);
}

/// The keys that a schema of an answer must not have.
pub open spec fn barred(key: Seq<char>) -> bool {
    key == "$schema"@ || key == "title"@ || key == "$defs"@ || key == "$ref"@ || key == "default"@
        || key == "examples"@ || key == "definitions"@
}

/// Of a schema of an answer all keys are kept but those that it must not have, and
/// its properties and items are treated alike.
pub proof fn law_answer_schemas_keep_the_rest(
    fields: Fields,
    properties: Fields,
    key: Seq<char>,
    name: Seq<char>,
)
    ensures
        stripped(JsonView::Fields(fields)) matches JsonView::Fields(done) && {
            &&& done.dom().contains(key) <==> fields.dom().contains(key) && !barred(key)
            &&& done.dom().contains(key) && key != "properties"@ && key != "items"@ ==> done[key]
                == fields[key]
            &&& fields.dom().contains("items"@) ==> done.contains_pair(
                "items"@,
                stripped(fields["items"@]),
            )
            &&& holds_object(fields, "properties"@, properties) ==> done.dom().contains(
                "properties"@,
            ) && (done["properties"@] matches JsonView::Fields(kept) && {
                &&& kept.dom().contains(name) <==> properties.dom().contains(name)
                &&& properties.dom().contains(name) ==> kept[name] == stripped(properties[name])
            })
        },
{
    lemma_schema_words();
    reveal_with_fuel(stripped, 3);
    reveal_with_fuel(stripped_properties, 3);
}

} // verus!
