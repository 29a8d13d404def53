//! What is said of tools: their documents, key by key, and their entries in the
//! catalog.

use vstd::prelude::*;
use vstd::string::*;

use crate::adapters::chat_laws::lemma_optional_pair;
use crate::codec::written_pretty;
use crate::json::doc_field;
use crate::json::law_objects_hold_their_pairs;
use crate::json::no_pairs;
use crate::json::object_doc;
use crate::json::optional_bool;
use crate::json::optional_pair;
use crate::json::optional_text;
use crate::json::optional_texts;
use crate::json::JsonView;
use crate::text::has_part;
use crate::text::lines;
use crate::tool_catalog::action_schema;
use crate::tool_catalog::catalog;
use crate::tool_catalog::catalog_head;
use crate::tool_catalog::free_objects;
use crate::tool_catalog::lemma_has_part_within;
use crate::tool_catalog::patch_schema;
use crate::tool_catalog::progress_schema;
use crate::tool_catalog::text_list;
use crate::tool_catalog::tool_entries;
use crate::tool_catalog::tool_entry;
use crate::tool_catalog::typed;
use crate::tool_spec::filters_doc;
use crate::tool_spec::location_doc;
use crate::tool_spec::namespace_docs;
use crate::tool_spec::size_name;
use crate::tool_spec::spec_doc;
use crate::tool_spec::FreeformToolView;
use crate::tool_spec::ResponsesApiNamespaceToolView;
use crate::tool_spec::ResponsesApiNamespaceView;
use crate::tool_spec::ResponsesApiToolView;
use crate::tool_spec::ResponsesApiWebSearchFiltersView;
use crate::tool_spec::ResponsesApiWebSearchUserLocationView;
use crate::tool_spec::ToolSpecView;
use crate::tool_spec::WebSearchContextSize;

verus! {

proof fn lemma_more(pairs: Seq<(Seq<char>, JsonView)>, own: Seq<char>, value: Option<JsonView>)
    ensures
        forall|key: Seq<char>| #[trigger]
            doc_field(object_doc(pairs + optional_pair(own, value)), key) == (if key == own && value is Some {
                value
            } else {
                doc_field(object_doc(pairs), key)
            }),
{
    assert forall|key: Seq<char>| #[trigger]
        doc_field(object_doc(pairs + optional_pair(own, value)), key) == (if key == own && value is Some {
            value
        } else {
            doc_field(object_doc(pairs), key)
        }) by {
        lemma_optional_pair(pairs, own, value, key);
    }
}

/// Whether a document holds a value under a key.
pub open spec fn tells(doc: JsonView, key: Seq<char>, value: JsonView) -> bool {
    doc_field(doc, key) == Some(value)
}

/// Whether a document holds a text under a key.
pub open spec fn tells_text(doc: JsonView, key: Seq<char>, text: Seq<char>) -> bool {
    tells(doc, key, JsonView::Text(text))
}

proof fn lemma_functions_are_described_words()
    ensures
        "type"@ != "name"@,
        "type"@ != "description"@,
        "type"@ != "strict"@,
        "type"@ != "defer_loading"@,
        "type"@ != "parameters"@,
        "name"@ != "description"@,
        "name"@ != "strict"@,
        "name"@ != "defer_loading"@,
        "name"@ != "parameters"@,
        "description"@ != "strict"@,
        "description"@ != "defer_loading"@,
        "description"@ != "parameters"@,
        "strict"@ != "defer_loading"@,
        "strict"@ != "parameters"@,
        "defer_loading"@ != "parameters"@,
{
    reveal_strlit("type");
    reveal_strlit("name");
    reveal_strlit("description");
    reveal_strlit("strict");
    reveal_strlit("defer_loading");
    reveal_strlit("parameters");
    assert("type"@[0] != "name"@[0]);
    assert("type"@.len() != "description"@.len());
    assert("type"@.len() != "strict"@.len());
    assert("type"@.len() != "defer_loading"@.len());
    assert("type"@.len() != "parameters"@.len());
    assert("name"@.len() != "description"@.len());
    assert("name"@.len() != "strict"@.len());
    assert("name"@.len() != "defer_loading"@.len());
    assert("name"@.len() != "parameters"@.len());
    assert("description"@.len() != "strict"@.len());
    assert("description"@.len() != "defer_loading"@.len());
    assert("description"@.len() != "parameters"@.len());
    assert("strict"@.len() != "defer_loading"@.len());
    assert("strict"@.len() != "parameters"@.len());
    assert("defer_loading"@.len() != "parameters"@.len());
}

/// A function is told with its name, its description, whether it is strict and the
/// schema of its parameters.
pub proof fn law_functions_are_described(t: ResponsesApiToolView)
    ensures
        ({
            let doc = spec_doc(ToolSpecView::Function(t));
            &&& tells_text(doc, "type"@, "function"@)
            &&& tells_text(doc, "name"@, t.name)
            &&& tells_text(doc, "description"@, t.description)
            &&& tells(doc, "strict"@, JsonView::Bool(t.strict))
            &&& tells(doc, "parameters"@, t.parameters)
            &&& t.defer_loading matches Some(b) ==> tells(doc, "defer_loading"@, JsonView::Bool(b))
            &&& t.defer_loading is None ==> doc_field(doc, "defer_loading"@) is None
        }),
{
    lemma_functions_are_described_words();
    law_objects_hold_their_pairs(no_pairs(), "defer_loading"@);
    let p0 = no_pairs();
    lemma_more(p0, "type"@, Some(JsonView::Text("function"@)));
    let p1 = p0 + optional_pair("type"@, Some(JsonView::Text("function"@)));
    lemma_more(p1, "name"@, Some(JsonView::Text(t.name)));
    let p2 = p1 + optional_pair("name"@, Some(JsonView::Text(t.name)));
    lemma_more(p2, "description"@, Some(JsonView::Text(t.description)));
    let p3 = p2 + optional_pair("description"@, Some(JsonView::Text(t.description)));
    lemma_more(p3, "strict"@, Some(JsonView::Bool(t.strict)));
    let p4 = p3 + optional_pair("strict"@, Some(JsonView::Bool(t.strict)));
    lemma_more(p4, "defer_loading"@, optional_bool(t.defer_loading));
    let p5 = p4 + optional_pair("defer_loading"@, optional_bool(t.defer_loading));
    lemma_more(p5, "parameters"@, Some(t.parameters));
}

proof fn lemma_searches_for_tools_are_described_words()
    ensures
        "type"@ != "execution"@,
        "type"@ != "description"@,
        "type"@ != "parameters"@,
        "execution"@ != "description"@,
        "execution"@ != "parameters"@,
        "description"@ != "parameters"@,
{
    reveal_strlit("type");
    reveal_strlit("execution");
    reveal_strlit("description");
    reveal_strlit("parameters");
    assert("type"@.len() != "execution"@.len());
    assert("type"@.len() != "description"@.len());
    assert("type"@.len() != "parameters"@.len());
    assert("execution"@.len() != "description"@.len());
    assert("execution"@.len() != "parameters"@.len());
    assert("description"@.len() != "parameters"@.len());
}

/// The search for tools is told with how it is run, its description and the schema of
/// its parameters.
pub proof fn law_searches_for_tools_are_described(execution: Seq<char>, description: Seq<char>, parameters: JsonView)
    ensures
        ({
            let doc = spec_doc(
                ToolSpecView::ToolSearch { execution, description, parameters },
            );
            &&& tells_text(doc, "type"@, "tool_search"@)
            &&& tells_text(doc, "execution"@, execution)
            &&& tells_text(doc, "description"@, description)
            &&& tells(doc, "parameters"@, parameters)
        }),
{
    lemma_searches_for_tools_are_described_words();
    let p0 = no_pairs();
    lemma_more(p0, "type"@, Some(JsonView::Text("tool_search"@)));
    let p1 = p0 + optional_pair("type"@, Some(JsonView::Text("tool_search"@)));
    lemma_more(p1, "execution"@, Some(JsonView::Text(execution)));
    let p2 = p1 + optional_pair("execution"@, Some(JsonView::Text(execution)));
    lemma_more(p2, "description"@, Some(JsonView::Text(description)));
    let p3 = p2 + optional_pair("description"@, Some(JsonView::Text(description)));
    lemma_more(p3, "parameters"@, Some(parameters));
}

proof fn lemma_image_generation_is_described_words()
    ensures
        "type"@ != "output_format"@,
{
    reveal_strlit("type");
    reveal_strlit("output_format");
    assert("type"@.len() != "output_format"@.len());
}

/// The making of images is told with the form of its output.
pub proof fn law_image_generation_is_described(output_format: Seq<char>)
    ensures
        ({
            let doc = spec_doc(ToolSpecView::ImageGeneration { output_format });
            &&& tells_text(doc, "type"@, "image_generation"@)
            &&& tells_text(doc, "output_format"@, output_format)
        }),
{
    lemma_image_generation_is_described_words();
    let p0 = no_pairs();
    lemma_more(p0, "type"@, Some(JsonView::Text("image_generation"@)));
    let p1 = p0 + optional_pair("type"@, Some(JsonView::Text("image_generation"@)));
    lemma_more(p1, "output_format"@, Some(JsonView::Text(output_format)));
}

proof fn lemma_namespaces_are_described_words()
    ensures
        "type"@ != "name"@,
        "type"@ != "description"@,
        "type"@ != "tools"@,
        "name"@ != "description"@,
        "name"@ != "tools"@,
        "description"@ != "tools"@,
{
    reveal_strlit("type");
    reveal_strlit("name");
    reveal_strlit("description");
    reveal_strlit("tools");
    assert("type"@[0] != "name"@[0]);
    assert("type"@.len() != "description"@.len());
    assert("type"@.len() != "tools"@.len());
    assert("name"@.len() != "description"@.len());
    assert("name"@.len() != "tools"@.len());
    assert("description"@.len() != "tools"@.len());
}

/// A namespace is told with its name, its description and its functions in their order.
pub proof fn law_namespaces_are_described(n: ResponsesApiNamespaceView, i: int)
    ensures
        ({
            let doc = spec_doc(ToolSpecView::Namespace(n));
            &&& tells_text(doc, "type"@, "namespace"@)
            &&& tells_text(doc, "name"@, n.name)
            &&& tells_text(doc, "description"@, n.description)
            &&& doc_field(doc, "tools"@) matches Some(JsonView::List(docs)) && docs.len() == n.tools.len() && (0 <= i < n.tools.len() ==> match n.tools[i] {
                ResponsesApiNamespaceToolView::Function(t) => docs[i] == spec_doc(ToolSpecView::Function(t)),
            })
        }),
{
    lemma_namespaces_are_described_words();
    let p0 = no_pairs();
    lemma_more(p0, "type"@, Some(JsonView::Text("namespace"@)));
    let p1 = p0 + optional_pair("type"@, Some(JsonView::Text("namespace"@)));
    lemma_more(p1, "name"@, Some(JsonView::Text(n.name)));
    let p2 = p1 + optional_pair("name"@, Some(JsonView::Text(n.name)));
    lemma_more(p2, "description"@, Some(JsonView::Text(n.description)));
    let p3 = p2 + optional_pair("description"@, Some(JsonView::Text(n.description)));
    lemma_more(p3, "tools"@, Some(JsonView::List(namespace_docs(n.tools))));
}

proof fn lemma_free_tools_are_described_words()
    ensures
        "type"@ != "name"@,
        "type"@ != "description"@,
        "type"@ != "format"@,
        "name"@ != "description"@,
        "name"@ != "format"@,
        "description"@ != "format"@,
{
    reveal_strlit("type");
    reveal_strlit("name");
    reveal_strlit("description");
    reveal_strlit("format");
    assert("type"@[0] != "name"@[0]);
    assert("type"@.len() != "description"@.len());
    assert("type"@.len() != "format"@.len());
    assert("name"@.len() != "description"@.len());
    assert("name"@.len() != "format"@.len());
    assert("description"@.len() != "format"@.len());
}

/// A tool that takes free text is told with its name, its description and the form of
/// the text.
pub proof fn law_free_tools_are_described(t: FreeformToolView)
    ensures
        ({
            let doc = spec_doc(ToolSpecView::Freeform(t));
            &&& tells_text(doc, "type"@, "custom"@)
            &&& tells_text(doc, "name"@, t.name)
            &&& tells_text(doc, "description"@, t.description)
            &&& doc_field(doc, "format"@) matches Some(form) && tells_text(form, "type"@, t.format.kind) && tells_text(form, "syntax"@, t.format.syntax) && tells_text(form, "definition"@, t.format.definition)
        }),
{
    lemma_free_tools_are_described_words();
    lemma_free_form(t);
    let p0 = no_pairs();
    lemma_more(p0, "type"@, Some(JsonView::Text("custom"@)));
    let p1 = p0 + optional_pair("type"@, Some(JsonView::Text("custom"@)));
    lemma_more(p1, "name"@, Some(JsonView::Text(t.name)));
    let p2 = p1 + optional_pair("name"@, Some(JsonView::Text(t.name)));
    lemma_more(p2, "description"@, Some(JsonView::Text(t.description)));
    let p3 = p2 + optional_pair("description"@, Some(JsonView::Text(t.description)));
    lemma_more(p3, "format"@, Some(object_doc(no_pairs() + seq![("type"@, JsonView::Text(t.format.kind))] + seq![("syntax"@, JsonView::Text(t.format.syntax))] + seq![("definition"@, JsonView::Text(t.format.definition))])));
}

proof fn lemma_form_words()
    ensures
        "type"@ != "syntax"@,
        "type"@ != "definition"@,
        "syntax"@ != "definition"@,
{
    reveal_strlit("type");
    reveal_strlit("syntax");
    reveal_strlit("definition");
    assert("type"@.len() != "syntax"@.len());
    assert("type"@.len() != "definition"@.len());
    assert("syntax"@.len() != "definition"@.len());
}

proof fn lemma_free_form(t: FreeformToolView)
    ensures
        ({
            let form = object_doc(
                no_pairs() + seq![("type"@, JsonView::Text(t.format.kind))] + seq![
                    ("syntax"@, JsonView::Text(t.format.syntax)),
                ] + seq![("definition"@, JsonView::Text(t.format.definition))],
            );
            &&& tells_text(form, "type"@, t.format.kind)
            &&& tells_text(form, "syntax"@, t.format.syntax)
            &&& tells_text(form, "definition"@, t.format.definition)
        }),
{
    lemma_form_words();
    let p0 = no_pairs();
    lemma_more(p0, "type"@, Some(JsonView::Text(t.format.kind)));
    let p1 = p0 + optional_pair("type"@, Some(JsonView::Text(t.format.kind)));
    lemma_more(p1, "syntax"@, Some(JsonView::Text(t.format.syntax)));
    let p2 = p1 + optional_pair("syntax"@, Some(JsonView::Text(t.format.syntax)));
    lemma_more(p2, "definition"@, Some(JsonView::Text(t.format.definition)));
}

proof fn lemma_locations_are_described_words()
    ensures
        "type"@ != "country"@,
        "type"@ != "region"@,
        "type"@ != "city"@,
        "type"@ != "timezone"@,
        "country"@ != "region"@,
        "country"@ != "city"@,
        "country"@ != "timezone"@,
        "region"@ != "city"@,
        "region"@ != "timezone"@,
        "city"@ != "timezone"@,
{
    reveal_strlit("type");
    reveal_strlit("country");
    reveal_strlit("region");
    reveal_strlit("city");
    reveal_strlit("timezone");
    assert("type"@.len() != "country"@.len());
    assert("type"@.len() != "region"@.len());
    assert("type"@[0] != "city"@[0]);
    assert("type"@.len() != "timezone"@.len());
    assert("country"@.len() != "region"@.len());
    assert("country"@.len() != "city"@.len());
    assert("country"@.len() != "timezone"@.len());
    assert("region"@.len() != "city"@.len());
    assert("region"@.len() != "timezone"@.len());
    assert("city"@.len() != "timezone"@.len());
}

/// A place is told as far as it is known.
pub proof fn law_locations_are_described(l: ResponsesApiWebSearchUserLocationView)
    ensures
        ({
            let doc = location_doc(l);
            &&& tells_text(doc, "type"@, "approximate"@)
            &&& l.country matches Some(x) ==> tells_text(doc, "country"@, x)
            &&& l.region matches Some(x) ==> tells_text(doc, "region"@, x)
            &&& l.city matches Some(x) ==> tells_text(doc, "city"@, x)
            &&& l.timezone matches Some(x) ==> tells_text(doc, "timezone"@, x)
            &&& l.country is None ==> doc_field(doc, "country"@) is None
            &&& l.region is None ==> doc_field(doc, "region"@) is None
            &&& l.city is None ==> doc_field(doc, "city"@) is None
            &&& l.timezone is None ==> doc_field(doc, "timezone"@) is None
        }),
{
    lemma_locations_are_described_words();
    law_objects_hold_their_pairs(no_pairs(), "country"@);
    law_objects_hold_their_pairs(no_pairs(), "region"@);
    law_objects_hold_their_pairs(no_pairs(), "city"@);
    law_objects_hold_their_pairs(no_pairs(), "timezone"@);
    let p0 = no_pairs();
    lemma_more(p0, "type"@, Some(JsonView::Text("approximate"@)));
    let p1 = p0 + optional_pair("type"@, Some(JsonView::Text("approximate"@)));
    lemma_more(p1, "country"@, optional_text(l.country));
    let p2 = p1 + optional_pair("country"@, optional_text(l.country));
    lemma_more(p2, "region"@, optional_text(l.region));
    let p3 = p2 + optional_pair("region"@, optional_text(l.region));
    lemma_more(p3, "city"@, optional_text(l.city));
    let p4 = p3 + optional_pair("city"@, optional_text(l.city));
    lemma_more(p4, "timezone"@, optional_text(l.timezone));
}

proof fn lemma_web_search_is_described_words()
    ensures
        "type"@ != "external_web_access"@,
        "type"@ != "index_gated_web_access"@,
        "type"@ != "filters"@,
        "type"@ != "user_location"@,
        "type"@ != "search_context_size"@,
        "type"@ != "search_content_types"@,
        "external_web_access"@ != "index_gated_web_access"@,
        "external_web_access"@ != "filters"@,
        "external_web_access"@ != "user_location"@,
        "external_web_access"@ != "search_context_size"@,
        "external_web_access"@ != "search_content_types"@,
        "index_gated_web_access"@ != "filters"@,
        "index_gated_web_access"@ != "user_location"@,
        "index_gated_web_access"@ != "search_context_size"@,
        "index_gated_web_access"@ != "search_content_types"@,
        "filters"@ != "user_location"@,
        "filters"@ != "search_context_size"@,
        "filters"@ != "search_content_types"@,
        "user_location"@ != "search_context_size"@,
        "user_location"@ != "search_content_types"@,
        "search_context_size"@ != "search_content_types"@,
{
    reveal_strlit("type");
    reveal_strlit("external_web_access");
    reveal_strlit("index_gated_web_access");
    reveal_strlit("filters");
    reveal_strlit("user_location");
    reveal_strlit("search_context_size");
    reveal_strlit("search_content_types");
    assert("type"@.len() != "external_web_access"@.len());
    assert("type"@.len() != "index_gated_web_access"@.len());
    assert("type"@.len() != "filters"@.len());
    assert("type"@.len() != "user_location"@.len());
    assert("type"@.len() != "search_context_size"@.len());
    assert("type"@.len() != "search_content_types"@.len());
    assert("external_web_access"@.len() != "index_gated_web_access"@.len());
    assert("external_web_access"@.len() != "filters"@.len());
    assert("external_web_access"@.len() != "user_location"@.len());
    assert("external_web_access"@[0] != "search_context_size"@[0]);
    assert("external_web_access"@.len() != "search_content_types"@.len());
    assert("index_gated_web_access"@.len() != "filters"@.len());
    assert("index_gated_web_access"@.len() != "user_location"@.len());
    assert("index_gated_web_access"@.len() != "search_context_size"@.len());
    assert("index_gated_web_access"@.len() != "search_content_types"@.len());
    assert("filters"@.len() != "user_location"@.len());
    assert("filters"@.len() != "search_context_size"@.len());
    assert("filters"@.len() != "search_content_types"@.len());
    assert("user_location"@.len() != "search_context_size"@.len());
    assert("user_location"@.len() != "search_content_types"@.len());
    assert("search_context_size"@.len() != "search_content_types"@.len());
}

/// The search of the web is told as far as it is set up.
pub proof fn law_web_search_is_described(external: Option<bool>,
    gated: Option<bool>,
    filters: Option<ResponsesApiWebSearchFiltersView>,
    location: Option<ResponsesApiWebSearchUserLocationView>,
    size: Option<WebSearchContextSize>,
    types: Option<Seq<Seq<char>>>)
    ensures
        ({
            let doc = spec_doc(
                ToolSpecView::WebSearch {
                    external_web_access: external,
                    index_gated_web_access: gated,
                    filters,
                    user_location: location,
                    search_context_size: size,
                    search_content_types: types,
                },
            );
            &&& tells_text(doc, "type"@, "web_search"@)
            &&& external matches Some(b) ==> tells(doc, "external_web_access"@, JsonView::Bool(b))
            &&& external is None ==> doc_field(doc, "external_web_access"@) is None
            &&& gated matches Some(b) ==> tells(doc, "index_gated_web_access"@, JsonView::Bool(b))
            &&& gated is None ==> doc_field(doc, "index_gated_web_access"@) is None
            &&& location matches Some(l) ==> tells(doc, "user_location"@, location_doc(l))
            &&& location is None ==> doc_field(doc, "user_location"@) is None
            &&& filters matches Some(f) ==> (f.allowed_domains matches Some(domains) ==> (doc_field(doc, "filters"@) matches Some(allowed) && tells(allowed, "allowed_domains"@, JsonView::List(Seq::new(domains.len(), |i: int| JsonView::Text(domains[i]))))))
            &&& size == Some(WebSearchContextSize::Low) ==> tells_text(doc, "search_context_size"@, "low"@)
            &&& size == Some(WebSearchContextSize::Medium) ==> tells_text(doc, "search_context_size"@, "medium"@)
            &&& size == Some(WebSearchContextSize::High) ==> tells_text(doc, "search_context_size"@, "high"@)
            &&& types matches Some(list) ==> tells(doc, "search_content_types"@, JsonView::List(Seq::new(list.len(), |i: int| JsonView::Text(list[i]))))
        }),
{
    lemma_web_search_is_described_words();
    law_objects_hold_their_pairs(no_pairs(), "external_web_access"@);
    law_objects_hold_their_pairs(no_pairs(), "index_gated_web_access"@);
    law_objects_hold_their_pairs(no_pairs(), "user_location"@);
    if let Some(f) = filters {
        lemma_more(no_pairs(), "allowed_domains"@, optional_texts(f.allowed_domains));
    }
    let p0 = no_pairs();
    lemma_more(p0, "type"@, Some(JsonView::Text("web_search"@)));
    let p1 = p0 + optional_pair("type"@, Some(JsonView::Text("web_search"@)));
    lemma_more(p1, "external_web_access"@, optional_bool(external));
    let p2 = p1 + optional_pair("external_web_access"@, optional_bool(external));
    lemma_more(p2, "index_gated_web_access"@, optional_bool(gated));
    let p3 = p2 + optional_pair("index_gated_web_access"@, optional_bool(gated));
    lemma_more(p3, "filters"@, match filters { Some(f) => Some(filters_doc(f)), None => None });
    let p4 = p3 + optional_pair("filters"@, match filters { Some(f) => Some(filters_doc(f)), None => None });
    lemma_more(p4, "user_location"@, match location { Some(l) => Some(location_doc(l)), None => None });
    let p5 = p4 + optional_pair("user_location"@, match location { Some(l) => Some(location_doc(l)), None => None });
    lemma_more(p5, "search_context_size"@, match size { Some(size) => Some(JsonView::Text(size_name(size))), None => None });
    let p6 = p5 + optional_pair("search_context_size"@, match size { Some(size) => Some(JsonView::Text(size_name(size))), None => None });
    lemma_more(p6, "search_content_types"@, optional_texts(types));
}

/// Tools stand in the catalog one after the other, behind its head, and where there
/// are none the catalog says so.
pub proof fn law_catalog_tells_tools_in_order(tools: Seq<ToolSpecView>, tool: ToolSpecView)
    ensures
        catalog(seq![tool]) == catalog_head() + tool_entry(tool),
        tools.len() > 0 ==> catalog(tools.push(tool)) == catalog(tools) + tool_entry(tool),
        catalog(Seq::empty()) == catalog_head() + "（当前无可用工具）\n"@,
{
    assert(tools.push(tool).drop_last() =~= tools);
    assert(seq![tool].drop_last() =~= Seq::<ToolSpecView>::empty());
    reveal_with_fuel(tool_entries, 2);
    assert(Seq::<char>::empty() + tool_entry(tool) =~= tool_entry(tool));
    if tools.len() > 0 {
        assert(catalog(tools.push(tool)) =~= catalog(tools) + tool_entry(tool));
    }
}

/// The entry of a function tells its name, what it is for and the schema of its
/// parameters, in this order.
pub proof fn law_entries_tell_functions(t: ResponsesApiToolView)
    ensures
        ({
            let said = tool_entry(ToolSpecView::Function(t));
            let head = "## "@ + t.name + "\n"@;
            let after = match written_pretty(t.parameters) {
                Some(schema) => "参数 schema:\n```\n"@ + schema + "\n```\n"@,
                None => Seq::empty(),
            };
            &&& t.description.len() > 0 ==> said == head + (t.description + "\n"@) + after
            &&& t.description.len() == 0 ==> said == head + after
        }),
{
    let said = tool_entry(ToolSpecView::Function(t));
    let head = "## "@ + t.name + "\n"@;
    assert(head + Seq::<char>::empty() =~= head);
}

/// The entry of a tool that takes free text tells its name and the form of the text.
pub proof fn law_entries_tell_free_tools(t: FreeformToolView)
    ensures
        has_part(tool_entry(ToolSpecView::Freeform(t)), "## "@ + t.name + "（自由格式工具）\n"@),
        has_part(
            tool_entry(ToolSpecView::Freeform(t)),
            "格式: "@ + t.format.syntax + " ("@ + t.format.kind + ")\n"@,
        ),
        t.description.len() > 0 ==> has_part(
            tool_entry(ToolSpecView::Freeform(t)),
            t.description + "\n"@,
        ),
{
    let all = tool_entry(ToolSpecView::Freeform(t));
    let head = "## "@ + t.name + "（自由格式工具）\n"@;
    let said = if t.description.len() == 0 {
        Seq::<char>::empty()
    } else {
        t.description + "\n"@
    };
    let form = "格式: "@ + t.format.syntax + " ("@ + t.format.kind + ")\n"@;
    let none = Seq::<char>::empty();
    let rest = all.skip(head.len() as int);
    lemma_has_part_within(none, head, rest);
    assert(none + head + rest =~= all);
    let last = all.skip((head.len() + said.len()) as int);
    lemma_has_part_within(head, said, last);
    assert(head + said + last =~= all);
    let end = all.skip((head.len() + said.len() + form.len()) as int);
    lemma_has_part_within(head + said, form, end);
    assert(head + said + form + end =~= all);
}

/// The entry of a namespace tells its name and, line by line, each of its functions
/// with the first line of what it is for.
pub proof fn law_entries_tell_namespaces(
    n: ResponsesApiNamespaceView,
    t: ResponsesApiToolView,
    first: Seq<char>,
)
    requires
        lines(t.description).len() > 0,
        lines(t.description)[0] == first,
    ensures
        ({
            let more = ResponsesApiNamespaceView {
                tools: n.tools.push(ResponsesApiNamespaceToolView::Function(t)),
                ..n
            };
            let bare = ResponsesApiNamespaceView { tools: Seq::empty(), ..n };
            &&& tool_entry(ToolSpecView::Namespace(more)) == tool_entry(ToolSpecView::Namespace(n))
                + ("  - "@ + t.name + ": "@ + first + "\n"@)
            &&& tool_entry(ToolSpecView::Namespace(bare)) == "## namespace: "@ + n.name + "\n"@
        }),
{
    let tool = ResponsesApiNamespaceToolView::Function(t);
    assert(n.tools.push(tool).drop_last() =~= n.tools);
    let more = ResponsesApiNamespaceView { tools: n.tools.push(tool), ..n };
    let bare = ResponsesApiNamespaceView { tools: Seq::empty(), ..n };
    assert(tool_entry(ToolSpecView::Namespace(more)) =~= tool_entry(ToolSpecView::Namespace(n)) + (
    "  - "@ + t.name + ": "@ + first + "\n"@));
    assert(tool_entry(ToolSpecView::Namespace(bare)) =~= "## namespace: "@ + n.name + "\n"@);
}

proof fn lemma_answer_words()
    ensures
        "type"@ != "additionalProperties"@,
        "type"@ != "properties"@,
        "type"@ != "required"@,
        "additionalProperties"@ != "properties"@,
        "additionalProperties"@ != "required"@,
        "properties"@ != "required"@,
{
    reveal_strlit("type");
    reveal_strlit("additionalProperties");
    reveal_strlit("properties");
    reveal_strlit("required");
    assert("type"@.len() != "additionalProperties"@.len());
    assert("type"@.len() != "properties"@.len());
    assert("type"@.len() != "required"@.len());
    assert("additionalProperties"@.len() != "properties"@.len());
    assert("additionalProperties"@.len() != "required"@.len());
    assert("properties"@.len() != "required"@.len());
}

proof fn lemma_report_words()
    ensures
        "action"@ != "progress_patch"@,
        "action"@ != "digest_override"@,
        "progress_patch"@ != "digest_override"@,
{
    reveal_strlit("action");
    reveal_strlit("progress_patch");
    reveal_strlit("digest_override");
    assert("action"@.len() != "progress_patch"@.len());
    assert("action"@.len() != "digest_override"@.len());
    assert("progress_patch"@.len() != "digest_override"@.len());
}

proof fn lemma_action_words()
    ensures
        "type"@ != "enum"@,
        "tool"@ != "arguments"@,
{
    reveal_strlit("type");
    reveal_strlit("enum");
    reveal_strlit("tool");
    reveal_strlit("arguments");
    assert("type"@[0] != "enum"@[0]);
    assert("tool"@.len() != "arguments"@.len());
}

proof fn lemma_patch_words()
    ensures
        "intent"@ != "todo_ops"@,
        "intent"@ != "assumptions"@,
        "intent"@ != "next_step"@,
        "todo_ops"@ != "assumptions"@,
        "todo_ops"@ != "next_step"@,
        "assumptions"@ != "next_step"@,
{
    reveal_strlit("intent");
    reveal_strlit("todo_ops");
    reveal_strlit("assumptions");
    reveal_strlit("next_step");
    assert("intent"@.len() != "todo_ops"@.len());
    assert("intent"@.len() != "assumptions"@.len());
    assert("intent"@.len() != "next_step"@.len());
    assert("todo_ops"@.len() != "assumptions"@.len());
    assert("todo_ops"@.len() != "next_step"@.len());
    assert("assumptions"@.len() != "next_step"@.len());
}

/// The action that an answer may take calls one of the tools by name, with arguments
/// that are an object, and must give both.
pub proof fn law_actions_name_the_tools(names: Seq<Seq<char>>)
    ensures
        ({
            let texts = JsonView::List(Seq::new(names.len(), |i: int| JsonView::Text(names[i])));
            let action = action_schema(names);
            &&& doc_field(action, "properties"@) matches Some(parts) && (doc_field(parts, "tool"@) matches Some(
                tool,
            ) && tells_text(tool, "type"@, "string"@) && tells(tool, "enum"@, texts)) && (doc_field(
                parts,
                "arguments"@,
            ) matches Some(arguments) && tells_text(arguments, "type"@, "object"@))
            &&& tells(action, "additionalProperties"@, JsonView::Bool(false))
            &&& doc_field(action, "required"@) matches Some(JsonView::List(required)) && required.len()
                == 2 && required[0] == JsonView::Text("tool"@) && required[1] == JsonView::Text(
                "arguments"@,
            )
            &&& doc_field(action, "type"@) matches Some(JsonView::List(kinds)) && kinds.len() == 2
                && kinds[0] == JsonView::Text("object"@) && kinds[1] == JsonView::Text("null"@)
        }),
{
    lemma_answer_words();
    lemma_action_words();
    let none = no_pairs();
    let tool = none + seq![("type"@, JsonView::Text("string"@))];
    lemma_more(none, "type"@, Some(JsonView::Text("string"@)));
    lemma_more(tool, "enum"@, Some(text_list(names)));
    lemma_more(none, "type"@, Some(JsonView::Text("object"@)));
    let one = object_doc(tool + seq![("enum"@, text_list(names))]);
    let parts = none + seq![("tool"@, one)];
    lemma_more(none, "tool"@, Some(one));
    lemma_more(parts, "arguments"@, Some(typed("object"@)));
    let kinds = text_list(seq!["object"@, "null"@]);
    let a = none + seq![("type"@, kinds)];
    let b = a + seq![("additionalProperties"@, JsonView::Bool(false))];
    let both = object_doc(parts + seq![("arguments"@, typed("object"@))]);
    let c = b + seq![("properties"@, both)];
    lemma_more(none, "type"@, Some(kinds));
    lemma_more(a, "additionalProperties"@, Some(JsonView::Bool(false)));
    lemma_more(b, "properties"@, Some(both));
    lemma_more(c, "required"@, Some(text_list(seq!["tool"@, "arguments"@])));
}

/// An answer takes an action, reports progress and may override a digest, must say
/// something of all three, and nothing else.
pub proof fn law_answers_have_three_parts(names: Seq<Seq<char>>)
    ensures
        ({
            let schema = progress_schema(names);
            &&& tells_text(schema, "type"@, "object"@)
            &&& tells(schema, "additionalProperties"@, JsonView::Bool(false))
            &&& doc_field(schema, "properties"@) matches Some(parts) && tells(
                parts,
                "action"@,
                action_schema(names),
            ) && doc_field(parts, "digest_override"@) is Some && (doc_field(
                parts,
                "progress_patch"@,
            ) matches Some(patch) && (doc_field(patch, "properties"@) matches Some(fields) && (
            doc_field(fields, "intent"@) matches Some(intent) && tells_text(
                intent,
                "type"@,
                "string"@,
            )) && (doc_field(fields, "next_step"@) matches Some(next) && tells_text(
                next,
                "type"@,
                "string"@,
            )) && (doc_field(fields, "todo_ops"@) matches Some(ops) && tells_text(
                ops,
                "type"@,
                "array"@,
            )) && (doc_field(fields, "assumptions"@) matches Some(list) && tells_text(
                list,
                "type"@,
                "array"@,
            ))))
            &&& doc_field(schema, "required"@) matches Some(JsonView::List(required)) && required.len()
                == 3 && required[0] == JsonView::Text("action"@) && required[1] == JsonView::Text(
                "progress_patch"@,
            ) && required[2] == JsonView::Text("digest_override"@)
        }),
{
    lemma_answer_words();
    lemma_report_words();
    lemma_patch_parts();
    let none = no_pairs();
    let x = none + seq![("action"@, action_schema(names))];
    let y = x + seq![("progress_patch"@, patch_schema())];
    let parts = object_doc(y + seq![("digest_override"@, object_doc(none))]);
    lemma_more(none, "action"@, Some(action_schema(names)));
    lemma_more(x, "progress_patch"@, Some(patch_schema()));
    lemma_more(y, "digest_override"@, Some(object_doc(none)));
    let a = none + seq![("type"@, JsonView::Text("object"@))];
    let b = a + seq![("additionalProperties"@, JsonView::Bool(false))];
    let c = b + seq![("properties"@, parts)];
    let required = text_list(seq!["action"@, "progress_patch"@, "digest_override"@]);
    lemma_more(none, "type"@, Some(JsonView::Text("object"@)));
    lemma_more(a, "additionalProperties"@, Some(JsonView::Bool(false)));
    lemma_more(b, "properties"@, Some(parts));
    lemma_more(c, "required"@, Some(required));
}

proof fn lemma_patch_parts()
    ensures
        doc_field(patch_schema(), "properties"@) matches Some(fields) && (doc_field(
            fields,
            "intent"@,
        ) matches Some(intent) && tells_text(intent, "type"@, "string"@)) && (doc_field(
            fields,
            "next_step"@,
        ) matches Some(next) && tells_text(next, "type"@, "string"@)) && (doc_field(
            fields,
            "todo_ops"@,
        ) matches Some(ops) && tells_text(ops, "type"@, "array"@)) && (doc_field(
            fields,
            "assumptions"@,
        ) matches Some(list) && tells_text(list, "type"@, "array"@)),
{
    lemma_answer_words();
    lemma_patch_words();
    lemma_items_word();
    let none = no_pairs();
    lemma_more(none, "type"@, Some(JsonView::Text("string"@)));
    lemma_more(none, "type"@, Some(JsonView::Text("array"@)));
    let item = object_doc(
        none + seq![("type"@, JsonView::Text("object"@))] + seq![
            ("additionalProperties"@, JsonView::Bool(true)),
        ],
    );
    lemma_more(none + seq![("type"@, JsonView::Text("array"@))], "items"@, Some(item));
    let x = none + seq![("intent"@, typed("string"@))];
    let y = x + seq![("todo_ops"@, free_objects())];
    let z = y + seq![("assumptions"@, free_objects())];
    let fields = object_doc(z + seq![("next_step"@, typed("string"@))]);
    lemma_more(none, "intent"@, Some(typed("string"@)));
    lemma_more(x, "todo_ops"@, Some(free_objects()));
    lemma_more(y, "assumptions"@, Some(free_objects()));
    lemma_more(z, "next_step"@, Some(typed("string"@)));
    let kinds = text_list(seq!["object"@, "null"@]);
    let a = none + seq![("type"@, kinds)];
    let b = a + seq![("additionalProperties"@, JsonView::Bool(false))];
    lemma_more(b, "properties"@, Some(fields));
}

proof fn lemma_items_word()
    ensures
        "type"@ != "items"@,
{
    reveal_strlit("type");
    reveal_strlit("items");
    assert("type"@.len() != "items"@.len());
}

} // verus!
