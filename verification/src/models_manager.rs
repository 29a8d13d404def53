//! The model catalog that comes with a client.

use vstd::prelude::*;
use vstd::string::*;

use crate::codec::parse_json;
use crate::codec::parsed_json;
use crate::json::doc_field;
use crate::json::docs;
use crate::json::law_fields_are_read_by_key;
use crate::json::law_missing_fields_are_none;
use crate::json::list_field;
use crate::json::text_field;
use crate::json::Fields;
use crate::json::Json;
use crate::json::JsonView;
use crate::model_provider_resolver::ModelInfo;
use crate::model_provider_resolver::ModelInfoView;
use crate::text::cat3;
use crate::text::copy_text;
use crate::text::decimal;
use crate::text::same_text;
use crate::text::u64_text;

verus! {

/// The version of the client.
pub const CLIENT_VERSION_MAJOR: u64 = 0;

/// The version of the client, second part.
pub const CLIENT_VERSION_MINOR: u64 = 1;

/// The version of the client, third part.
pub const CLIENT_VERSION_PATCH: u64 = 0;

/// A catalog of models.
#[derive(Debug, Clone)]
pub struct ModelsResponse {
    pub models: Vec<ModelInfo>,
}

/// What a `ModelsResponse` means.
#[verifier::ext_equal]
pub struct ModelsResponseView {
    pub models: Seq<ModelInfoView>,
}

impl View for ModelsResponse {
    type V = ModelsResponseView;

    open spec fn view(&self) -> ModelsResponseView {
        ModelsResponseView { models: self.models.deep_view() }
    }
}

impl DeepView for ModelsResponse {
    type V = ModelsResponseView;

    open spec fn deep_view(&self) -> ModelsResponseView {
        self.view()
    }
}

/// The provider that an entry of a catalog names, if it names one; no answer when
/// it says something else in its place.
pub open spec fn entry_provider(entry: JsonView) -> Option<Option<Seq<char>>> {
    match doc_field(entry, "provider_id"@) {
        None | Some(JsonView::Null) => Some(None),
        Some(JsonView::Text(id)) => Some(Some(id)),
        _ => None,
    }
}

/// The model that an entry of a catalog describes. An entry without a slug
/// describes none.
pub open spec fn model_of(entry: JsonView) -> Option<ModelInfoView> {
    match (text_field(entry, "slug"@), entry_provider(entry)) {
        (Some(slug), Some(provider_id)) => Some(
            ModelInfoView { slug, provider_id, payload: entry },
        ),
        _ => None,
    }
}

/// The catalog that a document holds: one in which every entry describes a model.
pub open spec fn catalog_of(doc: JsonView) -> Option<ModelsResponseView> {
    match list_field(doc, "models"@) {
        Some(entries) => if forall|i: int|
            0 <= i < entries.len() ==> model_of(#[trigger] entries[i]) is Some {
            Some(
                ModelsResponseView {
                    models: Seq::new(entries.len(), |i: int| model_of(entries[i])->Some_0),
                },
            )
        } else {
            None
        },
        None => None,
    }
}

/// The catalog that a document, if it could be read, holds.
pub open spec fn catalog_in(doc: Option<JsonView>) -> Option<ModelsResponseView> {
    match doc {
        Some(d) => catalog_of(d),
        None => None,
    }
}

/// The provider of the first model with a slug; none when there is no such model
/// or it names no provider.
pub open spec fn provider_of(models: Seq<ModelInfoView>, slug: Seq<char>) -> Option<Seq<char>>
    decreases models.len(),
{
    if models.len() == 0 {
        None
    } else if models[0].slug == slug {
        models[0].provider_id
    } else {
        provider_of(models.skip(1), slug)
    }
}

fn read_model(entry: &Json) -> (r: Option<ModelInfo>)
    ensures
        r.deep_view() == model_of(entry@),
{
    let slug = match entry.text_at("slug") {
        Some(slug) => slug,
        None => {
            return None;
        },
    };
    let provider_id = match entry.get("provider_id") {
        Some(Json::Text(id)) => Some(id.clone()),
        Some(Json::Null) | None => None,
        Some(_) => {
            return None;
        },
    };
    Some(ModelInfo { slug, provider_id, payload: entry.copy() })
}

/// Reads a catalog from its document.
pub fn read_catalog(doc: &Json) -> (r: Option<ModelsResponse>)
    ensures
        r.deep_view() == catalog_of(doc@),
{
    let entries = match doc.list_at("models") {
        Some(entries) => entries,
        None => {
            return None;
        },
    };
    let ghost all = docs(entries@);
    let mut models: Vec<ModelInfo> = Vec::new();
    let mut i: usize = 0;
    while i < entries.len()
        invariant
            i <= entries@.len(),
            all == docs(entries@),
            list_field(doc@, "models"@) == Some(all),
            models@.len() == i,
            forall|j: int| 0 <= j < i ==> model_of(#[trigger] all[j]) == Some(models.deep_view()[j]),
        decreases entries@.len() - i,
    {
        assert(all[i as int] == entries@[i as int]@);
        match read_model(&entries[i]) {
            None => {
                return None;
            },
            Some(model) => {
                let ghost so_far = models.deep_view();
                models.push(model);
                assert(models.deep_view() =~= so_far.push(model@));
            },
        }
        i += 1;
    }
    assert(models.deep_view() =~= catalog_of(doc@)->Some_0.models);
    Some(ModelsResponse { models })
}

/// Reads the catalog that comes with a client, given its text.
pub fn bundled_models_response(catalog: &str) -> (r: Option<ModelsResponse>)
    ensures
        r.deep_view() == catalog_in(parsed_json(catalog@)),
{
    match parse_json(catalog) {
        Some(doc) => read_catalog(&doc),
        None => None,
    }
}

/// The provider of a model of a catalog.
pub fn provider_id_in(models: &Vec<ModelInfo>, slug: &str) -> (r: Option<String>)
    ensures
        r.deep_view() == provider_of(models.deep_view(), slug@),
{
    let ghost all = models.deep_view();
    let mut i: usize = 0;
    assert(all.skip(0) =~= all);
    while i < models.len()
        invariant
            i <= models@.len(),
            all == models.deep_view(),
            provider_of(all, slug@) == provider_of(all.skip(i as int), slug@),
        decreases models@.len() - i,
    {
        proof {
            assert(all.skip(i as int)[0] == models@[i as int]@);
            assert(all.skip(i as int).skip(1) =~= all.skip(i + 1));
        }
        if same_text(models[i].slug.as_str(), slug) {
            return copy_text(&models[i].provider_id);
        }
        i += 1;
    }
    None
}

/// The provider of a model of the catalog that comes with a client, given the
/// catalog's text; none when the text holds no catalog.
pub fn provider_id_for_model(catalog: &str, slug: &str) -> (r: Option<String>)
    ensures
        r.deep_view() == (match catalog_in(parsed_json(catalog@)) {
            Some(bundled) => provider_of(bundled.models, slug@),
            None => None,
        }),
{
    match bundled_models_response(catalog) {
        Some(bundled) => provider_id_in(&bundled.models, slug),
        None => None,
    }
}

/// The first model with a slug decides: what it names as its provider is the
/// provider of the slug, whatever stands elsewhere in the catalog.
pub proof fn law_first_entry_decides(models: Seq<ModelInfoView>, i: int)
    requires
        0 <= i < models.len(),
        forall|j: int| 0 <= j < i ==> (#[trigger] models[j]).slug != models[i].slug,
    ensures
        provider_of(models, models[i].slug) == models[i].provider_id,
    decreases models.len(),
{
    if i > 0 {
        let rest = models.skip(1);
        assert(models[0].slug != models[i].slug);
        assert forall|j: int| 0 <= j < i - 1 implies (#[trigger] rest[j]).slug != rest[i - 1].slug by {
            assert(rest[j] == models[j + 1]);
        }
        law_first_entry_decides(rest, i - 1);
    }
}

/// A slug that no entry has is the slug of no provider.
pub proof fn law_unknown_model_has_no_provider(models: Seq<ModelInfoView>, slug: Seq<char>)
    requires
        forall|j: int| 0 <= j < models.len() ==> (#[trigger] models[j]).slug != slug,
    ensures
        provider_of(models, slug) is None,
    decreases models.len(),
{
    if models.len() > 0 {
        let rest = models.skip(1);
        assert(models[0].slug != slug);
        assert forall|j: int| 0 <= j < rest.len() implies (#[trigger] rest[j]).slug != slug by {
            assert(rest[j] == models[j + 1]);
        }
        law_unknown_model_has_no_provider(rest, slug);
    }
}

/// A version by its three parts.
pub open spec fn whole_version(major: u64, minor: u64, patch: u64) -> Seq<char> {
    decimal(major as nat) + "."@ + decimal(minor as nat) + "."@ + decimal(patch as nat)
}

/// The version of the client, without what follows its three parts.
pub fn client_version_to_whole() -> (r: String)
    ensures
        r@ == whole_version(CLIENT_VERSION_MAJOR, CLIENT_VERSION_MINOR, CLIENT_VERSION_PATCH),
{
    let head = cat3(
        u64_text(CLIENT_VERSION_MAJOR).as_str(),
        ".",
        u64_text(CLIENT_VERSION_MINOR).as_str(),
    );
    cat3(head.as_str(), ".", u64_text(CLIENT_VERSION_PATCH).as_str())
}

/// A catalog lists its models in their order, each with the slug and the provider that
/// its entry gives and with the entry itself.
pub proof fn law_catalogs_list_their_models(doc: Fields, entries: Seq<JsonView>, i: int)
    requires
        doc.contains_pair("models"@, JsonView::List(entries)),
        forall|k: int|
            0 <= k < entries.len() ==> (#[trigger] entries[k] matches JsonView::Fields(entry)
                && entry.dom().contains("slug"@) && entry["slug"@] is Text && (
            !entry.dom().contains("provider_id"@) || entry["provider_id"@] is Null
                || entry["provider_id"@] is Text)),
        0 <= i < entries.len(),
    ensures
        catalog_of(JsonView::Fields(doc)) matches Some(catalog) && catalog.models.len()
            == entries.len() && (entries[i] matches JsonView::Fields(entry) && {
            &&& entry["slug"@] == JsonView::Text(catalog.models[i].slug)
            &&& entry.dom().contains("provider_id"@) ==> match catalog.models[i].provider_id {
                Some(id) => entry["provider_id"@] == JsonView::Text(id),
                None => entry["provider_id"@] is Null,
            }
            &&& !entry.dom().contains("provider_id"@) ==> catalog.models[i].provider_id is None
            &&& catalog.models[i].payload == entries[i]
        }),
{
    law_fields_are_read_by_key(doc, "models"@, JsonView::List(entries));
    assert forall|k: int| 0 <= k < entries.len() implies model_of(#[trigger] entries[k]) is Some by {
        lemma_entry(entries[k]);
    }
    lemma_entry(entries[i]);
}

proof fn lemma_entry(value: JsonView)
    requires
        value matches JsonView::Fields(entry) && entry.dom().contains("slug"@) && entry["slug"@] is Text
            && (!entry.dom().contains("provider_id"@) || entry["provider_id"@] is Null
            || entry["provider_id"@] is Text),
    ensures
        value matches JsonView::Fields(entry) && (model_of(value) matches Some(model) && {
            &&& entry["slug"@] == JsonView::Text(model.slug)
            &&& entry.dom().contains("provider_id"@) ==> match model.provider_id {
                Some(id) => entry["provider_id"@] == JsonView::Text(id),
                None => entry["provider_id"@] is Null,
            }
            &&& !entry.dom().contains("provider_id"@) ==> model.provider_id is None
            &&& model.payload == value
        }),
{
    if let JsonView::Fields(entry) = value {
        law_fields_are_read_by_key(entry, "slug"@, entry["slug"@]);
        if entry.dom().contains("provider_id"@) {
            law_fields_are_read_by_key(entry, "provider_id"@, entry["provider_id"@]);
        } else {
            law_missing_fields_are_none(value, "provider_id"@);
        }
    }
}

/// A document with an entry that has no slug is no catalog, and neither is one without
/// a list of models.
pub proof fn law_models_have_slugs(doc: Fields, entries: Seq<JsonView>, i: int, entry: Fields)
    ensures
        doc.contains_pair("models"@, JsonView::List(entries)) && 0 <= i < entries.len() && entries[i]
            == JsonView::Fields(entry) && !entry.dom().contains("slug"@) ==> catalog_of(
            JsonView::Fields(doc),
        ) is None,
        !doc.dom().contains("models"@) ==> catalog_of(JsonView::Fields(doc)) is None,
{
    if doc.dom().contains("models"@) {
        law_fields_are_read_by_key(doc, "models"@, doc["models"@]);
    } else {
        law_missing_fields_are_none(JsonView::Fields(doc), "models"@);
    }
    if !entry.dom().contains("slug"@) {
        law_missing_fields_are_none(JsonView::Fields(entry), "slug"@);
        assert(model_of(JsonView::Fields(entry)) is None);
    }
}

} // verus!
