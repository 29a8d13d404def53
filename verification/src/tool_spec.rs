//! Tools as they are described to models.

use vstd::prelude::*;
use vstd::string::*;

use crate::json::docs;
use crate::json::lemma_docs_push;
use crate::json::no_fields;
use crate::json::no_pairs;
use crate::json::object;
use crate::json::object_doc;
use crate::json::optional_bool;
use crate::json::optional_pair;
use crate::json::optional_text;
use crate::json::optional_texts;
use crate::json::pair_docs;
use crate::json::put;
use crate::json::put_optional;
use crate::json::put_optional_bool;
use crate::json::put_optional_text;
use crate::json::put_optional_texts;
use crate::json::put_text;
use crate::json::Json;
use crate::json::JsonView;
use crate::text::copy_text;
use crate::text::copy_texts;
use crate::tool_name::flat_name;
use crate::tool_name::has_delimiter;
use crate::tool_name::law_namespaced_round_trip;
use crate::tool_name::tool_of_flat;
use crate::tool_name::ToolName;
use crate::tool_name::ToolNameView;

verus! {

/// A function that a model can call.
#[derive(Debug, Clone, PartialEq)]
pub struct ResponsesApiTool {
    pub name: String,
    pub description: String,
    pub strict: bool,
    pub defer_loading: Option<bool>,
    /// The schema of the arguments.
    pub parameters: Json,
    /// The schema of the output; it is not sent.
    pub output_schema: Option<Json>,
}

/// What a `ResponsesApiTool` means.
#[verifier::ext_equal]
pub struct ResponsesApiToolView {
    pub name: Seq<char>,
    pub description: Seq<char>,
    pub strict: bool,
    pub defer_loading: Option<bool>,
    pub parameters: JsonView,
    pub output_schema: Option<JsonView>,
}

impl View for ResponsesApiTool {
    type V = ResponsesApiToolView;

    open spec fn view(&self) -> ResponsesApiToolView {
        ResponsesApiToolView {
            name: self.name.deep_view(),
            description: self.description.deep_view(),
            strict: self.strict.deep_view(),
            defer_loading: self.defer_loading.deep_view(),
            parameters: self.parameters.deep_view(),
            output_schema: self.output_schema.deep_view(),
        }
    }
}

impl DeepView for ResponsesApiTool {
    type V = ResponsesApiToolView;

    open spec fn deep_view(&self) -> ResponsesApiToolView {
        self.view()
    }
}

/// A tool of a namespace.
#[derive(Debug, Clone, PartialEq)]
pub enum ResponsesApiNamespaceTool {
    Function(ResponsesApiTool),
}

/// What a `ResponsesApiNamespaceTool` means.
#[verifier::ext_equal]
pub enum ResponsesApiNamespaceToolView {
    Function(ResponsesApiToolView),
}

impl View for ResponsesApiNamespaceTool {
    type V = ResponsesApiNamespaceToolView;

    open spec fn view(&self) -> ResponsesApiNamespaceToolView {
        match self {
            ResponsesApiNamespaceTool::Function(v) => ResponsesApiNamespaceToolView::Function(v.deep_view()),
        }
    }
}

impl DeepView for ResponsesApiNamespaceTool {
    type V = ResponsesApiNamespaceToolView;

    open spec fn deep_view(&self) -> ResponsesApiNamespaceToolView {
        self.view()
    }
}

/// Tools under a common name.
#[derive(Debug, Clone, PartialEq)]
pub struct ResponsesApiNamespace {
    pub name: String,
    pub description: String,
    pub tools: Vec<ResponsesApiNamespaceTool>,
}

/// What a `ResponsesApiNamespace` means.
#[verifier::ext_equal]
pub struct ResponsesApiNamespaceView {
    pub name: Seq<char>,
    pub description: Seq<char>,
    pub tools: Seq<ResponsesApiNamespaceToolView>,
}

impl View for ResponsesApiNamespace {
    type V = ResponsesApiNamespaceView;

    open spec fn view(&self) -> ResponsesApiNamespaceView {
        ResponsesApiNamespaceView {
            name: self.name.deep_view(),
            description: self.description.deep_view(),
            tools: self.tools.deep_view(),
        }
    }
}

impl DeepView for ResponsesApiNamespace {
    type V = ResponsesApiNamespaceView;

    open spec fn deep_view(&self) -> ResponsesApiNamespaceView {
        self.view()
    }
}

/// The format of a tool that takes free text.
#[derive(Debug, Clone, PartialEq, Eq)]
pub struct FreeformToolFormat {
    pub kind: String,
    pub syntax: String,
    pub definition: String,
}

/// What a `FreeformToolFormat` means.
#[verifier::ext_equal]
pub struct FreeformToolFormatView {
    pub kind: Seq<char>,
    pub syntax: Seq<char>,
    pub definition: Seq<char>,
}

impl View for FreeformToolFormat {
    type V = FreeformToolFormatView;

    open spec fn view(&self) -> FreeformToolFormatView {
        FreeformToolFormatView {
            kind: self.kind.deep_view(),
            syntax: self.syntax.deep_view(),
            definition: self.definition.deep_view(),
        }
    }
}

impl DeepView for FreeformToolFormat {
    type V = FreeformToolFormatView;

    open spec fn deep_view(&self) -> FreeformToolFormatView {
        self.view()
    }
}

/// A tool that takes free text.
#[derive(Debug, Clone, PartialEq, Eq)]
pub struct FreeformTool {
    pub name: String,
    pub description: String,
    pub format: FreeformToolFormat,
}

/// What a `FreeformTool` means.
#[verifier::ext_equal]
pub struct FreeformToolView {
    pub name: Seq<char>,
    pub description: Seq<char>,
    pub format: FreeformToolFormatView,
}

impl View for FreeformTool {
    type V = FreeformToolView;

    open spec fn view(&self) -> FreeformToolView {
        FreeformToolView {
            name: self.name.deep_view(),
            description: self.description.deep_view(),
            format: self.format.deep_view(),
        }
    }
}

impl DeepView for FreeformTool {
    type V = FreeformToolView;

    open spec fn deep_view(&self) -> FreeformToolView {
        self.view()
    }
}

/// Which sites a search may find.
#[derive(Debug, Clone, PartialEq, Eq)]
pub struct ResponsesApiWebSearchFilters {
    pub allowed_domains: Option<Vec<String>>,
}

/// What a `ResponsesApiWebSearchFilters` means.
#[verifier::ext_equal]
pub struct ResponsesApiWebSearchFiltersView {
    pub allowed_domains: Option<Seq<Seq<char>>>,
}

impl View for ResponsesApiWebSearchFilters {
    type V = ResponsesApiWebSearchFiltersView;

    open spec fn view(&self) -> ResponsesApiWebSearchFiltersView {
        ResponsesApiWebSearchFiltersView {
            allowed_domains: self.allowed_domains.deep_view(),
        }
    }
}

impl DeepView for ResponsesApiWebSearchFilters {
    type V = ResponsesApiWebSearchFiltersView;

    open spec fn deep_view(&self) -> ResponsesApiWebSearchFiltersView {
        self.view()
    }
}

/// How exact a location is.
#[derive(Debug, Clone, Copy, PartialEq, Eq)]
pub enum WebSearchUserLocationType {
    Approximate,
}

impl View for WebSearchUserLocationType {
    type V = WebSearchUserLocationType;

    open spec fn view(&self) -> WebSearchUserLocationType {
        *self
    }
}

impl DeepView for WebSearchUserLocationType {
    type V = WebSearchUserLocationType;

    open spec fn deep_view(&self) -> WebSearchUserLocationType {
        self.view()
    }
}

/// Where the user of a search is.
#[derive(Debug, Clone, PartialEq, Eq)]
pub struct ResponsesApiWebSearchUserLocation {
    pub kind: WebSearchUserLocationType,
    pub country: Option<String>,
    pub region: Option<String>,
    pub city: Option<String>,
    pub timezone: Option<String>,
}

/// What a `ResponsesApiWebSearchUserLocation` means.
#[verifier::ext_equal]
pub struct ResponsesApiWebSearchUserLocationView {
    pub kind: WebSearchUserLocationType,
    pub country: Option<Seq<char>>,
    pub region: Option<Seq<char>>,
    pub city: Option<Seq<char>>,
    pub timezone: Option<Seq<char>>,
}

impl View for ResponsesApiWebSearchUserLocation {
    type V = ResponsesApiWebSearchUserLocationView;

    open spec fn view(&self) -> ResponsesApiWebSearchUserLocationView {
        ResponsesApiWebSearchUserLocationView {
            kind: self.kind.deep_view(),
            country: self.country.deep_view(),
            region: self.region.deep_view(),
            city: self.city.deep_view(),
            timezone: self.timezone.deep_view(),
        }
    }
}

impl DeepView for ResponsesApiWebSearchUserLocation {
    type V = ResponsesApiWebSearchUserLocationView;

    open spec fn deep_view(&self) -> ResponsesApiWebSearchUserLocationView {
        self.view()
    }
}

/// How much a search brings into the context.
#[derive(Debug, Clone, Copy, PartialEq, Eq)]
pub enum WebSearchContextSize {
    Low,
    Medium,
    High,
}

impl View for WebSearchContextSize {
    type V = WebSearchContextSize;

    open spec fn view(&self) -> WebSearchContextSize {
        *self
    }
}

impl DeepView for WebSearchContextSize {
    type V = WebSearchContextSize;

    open spec fn deep_view(&self) -> WebSearchContextSize {
        self.view()
    }
}

/// A tool.
#[derive(Debug, Clone, PartialEq)]
pub enum ToolSpec {
    Function(ResponsesApiTool),
    Namespace(ResponsesApiNamespace),
    ToolSearch { execution: String, description: String, parameters: Json },
    ImageGeneration { output_format: String },
    WebSearch {
        external_web_access: Option<bool>,
        index_gated_web_access: Option<bool>,
        filters: Option<ResponsesApiWebSearchFilters>,
        user_location: Option<ResponsesApiWebSearchUserLocation>,
        search_context_size: Option<WebSearchContextSize>,
        search_content_types: Option<Vec<String>>,
    },
    Freeform(FreeformTool),
}

/// What a `ToolSpec` means.
#[verifier::ext_equal]
pub enum ToolSpecView {
    Function(ResponsesApiToolView),
    Namespace(ResponsesApiNamespaceView),
    ToolSearch { execution: Seq<char>, description: Seq<char>, parameters: JsonView },
    ImageGeneration { output_format: Seq<char> },
    WebSearch { external_web_access: Option<bool>, index_gated_web_access: Option<bool>, filters: Option<ResponsesApiWebSearchFiltersView>, user_location: Option<ResponsesApiWebSearchUserLocationView>, search_context_size: Option<WebSearchContextSize>, search_content_types: Option<Seq<Seq<char>>> },
    Freeform(FreeformToolView),
}

impl View for ToolSpec {
    type V = ToolSpecView;

    open spec fn view(&self) -> ToolSpecView {
        match self {
            ToolSpec::Function(v) => ToolSpecView::Function(v.deep_view()),
            ToolSpec::Namespace(v) => ToolSpecView::Namespace(v.deep_view()),
            ToolSpec::ToolSearch { execution, description, parameters } => ToolSpecView::ToolSearch {
                execution: execution.deep_view(),
                description: description.deep_view(),
                parameters: parameters.deep_view(),
            },
            ToolSpec::ImageGeneration { output_format } => ToolSpecView::ImageGeneration {
                output_format: output_format.deep_view(),
            },
            ToolSpec::WebSearch { external_web_access, index_gated_web_access, filters, user_location, search_context_size, search_content_types } => ToolSpecView::WebSearch {
                external_web_access: external_web_access.deep_view(),
                index_gated_web_access: index_gated_web_access.deep_view(),
                filters: filters.deep_view(),
                user_location: user_location.deep_view(),
                search_context_size: search_context_size.deep_view(),
                search_content_types: search_content_types.deep_view(),
            },
            ToolSpec::Freeform(v) => ToolSpecView::Freeform(v.deep_view()),
        }
    }
}

impl DeepView for ToolSpec {
    type V = ToolSpecView;

    open spec fn deep_view(&self) -> ToolSpecView {
        self.view()
    }
}

/// A tool that is loaded on demand.
#[derive(Debug, Clone, PartialEq)]
pub enum LoadableToolSpec {
    Function(ResponsesApiTool),
    Namespace(ResponsesApiNamespace),
}

/// Which sites a search may find, as configured.
#[derive(Debug, Clone, PartialEq, Eq)]
pub struct WebSearchFilters {
    pub allowed_domains: Option<Vec<String>>,
}

/// Where the user of a search is, as configured.
#[derive(Debug, Clone, PartialEq, Eq)]
pub struct WebSearchUserLocation {
    pub kind: WebSearchUserLocationType,
    pub country: Option<String>,
    pub region: Option<String>,
    pub city: Option<String>,
    pub timezone: Option<String>,
}

/// What an object may hold beside its properties.
#[derive(Debug, Clone, PartialEq)]
pub enum AdditionalProperties {
    Boolean(bool),
    Schema(Json),
}

/// Makes JSON schemas.
pub struct JsonSchema {}

/// The document of what an object may hold beside its properties.
pub open spec fn additional_doc(additional: Option<AdditionalProperties>) -> Option<JsonView> {
    match additional {
        Some(AdditionalProperties::Boolean(b)) => Some(JsonView::Bool(b)),
        Some(AdditionalProperties::Schema(schema)) => Some(schema@),
        None => None,
    }
}

impl JsonSchema {
    /// The schema of an object.
    pub fn object(
        properties: Vec<(String, Json)>,
        required: Option<Vec<String>>,
        additional_properties: Option<AdditionalProperties>,
    ) -> (r: Json)
        ensures
            r@ == object_doc(
                no_pairs() + seq![("type"@, JsonView::Text("object"@))] + seq![
                    ("properties"@, object_doc(pair_docs(properties@))),
                ] + optional_pair("required"@, optional_texts(required.deep_view()))
                    + optional_pair("additionalProperties"@, additional_doc(additional_properties)),
            ),
    {
        let mut fields = no_fields();
        put_text(&mut fields, "type", "object");
        put(&mut fields, "properties", object(properties));
        put_optional_texts(&mut fields, "required", &required);
        put_optional(
            &mut fields,
            "additionalProperties",
            match additional_properties {
                Some(AdditionalProperties::Boolean(b)) => Some(Json::Bool(b)),
                Some(AdditionalProperties::Schema(schema)) => Some(schema),
                None => None,
            },
        );
        object(fields)
    }

    /// The schema of a text.
    pub fn string(description: Option<String>) -> (r: Json)
        ensures
            r@ == object_doc(
                no_pairs() + seq![("type"@, JsonView::Text("string"@))] + optional_pair(
                    "description"@,
                    optional_text(description.deep_view()),
                ),
            ),
    {
        let mut fields = no_fields();
        put_text(&mut fields, "type", "string");
        put_optional_text(&mut fields, "description", &description);
        object(fields)
    }
}

/// The name of a tool.
pub open spec fn spec_name(tool: ToolSpecView) -> Seq<char> {
    match tool {
        ToolSpecView::Function(t) => t.name,
        ToolSpecView::Namespace(namespace) => namespace.name,
        ToolSpecView::ToolSearch { .. } => "tool_search"@,
        ToolSpecView::ImageGeneration { .. } => "image_generation"@,
        ToolSpecView::WebSearch { .. } => "web_search"@,
        ToolSpecView::Freeform(t) => t.name,
    }
}

/// The document of a function.
pub open spec fn function_doc(t: ResponsesApiToolView) -> JsonView {
    object_doc(
        no_pairs() + seq![("type"@, JsonView::Text("function"@))] + seq![
            ("name"@, JsonView::Text(t.name)),
        ] + seq![("description"@, JsonView::Text(t.description))] + seq![
            ("strict"@, JsonView::Bool(t.strict)),
        ] + optional_pair("defer_loading"@, optional_bool(t.defer_loading)) + seq![
            ("parameters"@, t.parameters),
        ],
    )
}

/// The documents of the tools of a namespace.
pub open spec fn namespace_docs(tools: Seq<ResponsesApiNamespaceToolView>) -> Seq<JsonView> {
    Seq::new(
        tools.len(),
        |i: int|
            match tools[i] {
                ResponsesApiNamespaceToolView::Function(t) => function_doc(t),
            },
    )
}

/// The document of a location.
pub open spec fn location_doc(l: ResponsesApiWebSearchUserLocationView) -> JsonView {
    object_doc(
        no_pairs() + seq![("type"@, JsonView::Text("approximate"@))] + optional_pair(
            "country"@,
            optional_text(l.country),
        ) + optional_pair("region"@, optional_text(l.region)) + optional_pair(
            "city"@,
            optional_text(l.city),
        ) + optional_pair("timezone"@, optional_text(l.timezone)),
    )
}

/// The document of search filters.
pub open spec fn filters_doc(f: ResponsesApiWebSearchFiltersView) -> JsonView {
    object_doc(no_pairs() + optional_pair("allowed_domains"@, optional_texts(f.allowed_domains)))
}

/// The name of a context size.
pub open spec fn size_name(size: WebSearchContextSize) -> Seq<char> {
    match size {
        WebSearchContextSize::Low => "low"@,
        WebSearchContextSize::Medium => "medium"@,
        WebSearchContextSize::High => "high"@,
    }
}

/// The document of a tool, as the Responses protocol has it.
pub open spec fn spec_doc(tool: ToolSpecView) -> JsonView {
    match tool {
        ToolSpecView::Function(t) => function_doc(t),
        ToolSpecView::Namespace(n) => object_doc(
            no_pairs() + seq![("type"@, JsonView::Text("namespace"@))] + seq![
                ("name"@, JsonView::Text(n.name)),
            ] + seq![("description"@, JsonView::Text(n.description))] + seq![
                ("tools"@, JsonView::List(namespace_docs(n.tools))),
            ],
        ),
        ToolSpecView::ToolSearch { execution, description, parameters } => object_doc(
            no_pairs() + seq![("type"@, JsonView::Text("tool_search"@))] + seq![
                ("execution"@, JsonView::Text(execution)),
            ] + seq![("description"@, JsonView::Text(description))] + seq![
                ("parameters"@, parameters),
            ],
        ),
        ToolSpecView::ImageGeneration { output_format } => object_doc(
            no_pairs() + seq![("type"@, JsonView::Text("image_generation"@))] + seq![
                ("output_format"@, JsonView::Text(output_format)),
            ],
        ),
        ToolSpecView::WebSearch {
            external_web_access,
            index_gated_web_access,
            filters,
            user_location,
            search_context_size,
            search_content_types,
        } => object_doc(
            no_pairs() + seq![("type"@, JsonView::Text("web_search"@))] + optional_pair(
                "external_web_access"@,
                optional_bool(external_web_access),
            ) + optional_pair("index_gated_web_access"@, optional_bool(index_gated_web_access))
                + optional_pair(
                "filters"@,
                match filters {
                    Some(f) => Some(filters_doc(f)),
                    None => None,
                },
            ) + optional_pair(
                "user_location"@,
                match user_location {
                    Some(l) => Some(location_doc(l)),
                    None => None,
                },
            ) + optional_pair(
                "search_context_size"@,
                match search_context_size {
                    Some(size) => Some(JsonView::Text(size_name(size))),
                    None => None,
                },
            ) + optional_pair("search_content_types"@, optional_texts(search_content_types)),
        ),
        ToolSpecView::Freeform(t) => object_doc(
            no_pairs() + seq![("type"@, JsonView::Text("custom"@))] + seq![
                ("name"@, JsonView::Text(t.name)),
            ] + seq![("description"@, JsonView::Text(t.description))] + seq![
                (
                    "format"@,
                    object_doc(
                        no_pairs() + seq![("type"@, JsonView::Text(t.format.kind))] + seq![
                            ("syntax"@, JsonView::Text(t.format.syntax)),
                        ] + seq![("definition"@, JsonView::Text(t.format.definition))],
                    ),
                ),
            ],
        ),
    }
}

impl ResponsesApiTool {
    /// A copy of the function.
    pub fn copy(&self) -> (r: ResponsesApiTool)
        ensures
            r@ == self@,
    {
        ResponsesApiTool {
            name: self.name.clone(),
            description: self.description.clone(),
            strict: self.strict,
            defer_loading: self.defer_loading,
            parameters: self.parameters.copy(),
            output_schema: match &self.output_schema {
                Some(schema) => Some(schema.copy()),
                None => None,
            },
        }
    }

    /// The document of the function.
    pub fn to_json(&self) -> (r: Json)
        ensures
            r@ == function_doc(self@),
    {
        let mut fields = no_fields();
        put_text(&mut fields, "type", "function");
        put_text(&mut fields, "name", self.name.as_str());
        put_text(&mut fields, "description", self.description.as_str());
        put(&mut fields, "strict", Json::Bool(self.strict));
        put_optional_bool(&mut fields, "defer_loading", self.defer_loading);
        put(&mut fields, "parameters", self.parameters.copy());
        object(fields)
    }
}

fn copy_namespace_tools(list: &Vec<ResponsesApiNamespaceTool>) -> (r: Vec<
    ResponsesApiNamespaceTool,
>)
    ensures
        r.deep_view() == list.deep_view(),
{
    let mut out: Vec<ResponsesApiNamespaceTool> = Vec::new();
    let mut i: usize = 0;
    while i < list.len()
        invariant
            i <= list@.len(),
            out.deep_view() == list.deep_view().take(i as int),
        decreases list@.len() - i,
    {
        let ghost before = out.deep_view();
        match &list[i] {
            ResponsesApiNamespaceTool::Function(t) => {
                out.push(ResponsesApiNamespaceTool::Function(t.copy()));
            },
        }
        assert(out.deep_view() =~= before.push(list@[i as int].deep_view()));
        assert(list.deep_view().take(i + 1) =~= list.deep_view().take(i as int).push(
            list@[i as int].deep_view(),
        ));
        i += 1;
    }
    assert(list.deep_view().take(i as int) =~= list.deep_view());
    out
}

fn namespace_list(list: &Vec<ResponsesApiNamespaceTool>) -> (r: Vec<Json>)
    ensures
        docs(r@) == namespace_docs(list.deep_view()),
{
    let ghost wanted = namespace_docs(list.deep_view());
    let mut out: Vec<Json> = Vec::new();
    let mut i: usize = 0;
    while i < list.len()
        invariant
            i <= list@.len(),
            wanted == namespace_docs(list.deep_view()),
            docs(out@) == wanted.take(i as int),
        decreases list@.len() - i,
    {
        let item = match &list[i] {
            ResponsesApiNamespaceTool::Function(t) => t.to_json(),
        };
        proof {
            assert(list.deep_view()[i as int] == list@[i as int]@);
            lemma_docs_push(out@, item);
            assert(wanted.take(i + 1) =~= wanted.take(i as int).push(wanted[i as int]));
        }
        out.push(item);
        i += 1;
    }
    assert(wanted.take(i as int) =~= wanted);
    out
}

impl ResponsesApiWebSearchFilters {
    /// The document of the filters.
    pub fn to_json(&self) -> (r: Json)
        ensures
            r@ == filters_doc(self@),
    {
        let mut fields = no_fields();
        put_optional_texts(&mut fields, "allowed_domains", &self.allowed_domains);
        object(fields)
    }
}

impl ResponsesApiWebSearchUserLocation {
    /// The document of the location.
    pub fn to_json(&self) -> (r: Json)
        ensures
            r@ == location_doc(self@),
    {
        let mut fields = no_fields();
        put_text(&mut fields, "type", "approximate");
        put_optional_text(&mut fields, "country", &self.country);
        put_optional_text(&mut fields, "region", &self.region);
        put_optional_text(&mut fields, "city", &self.city);
        put_optional_text(&mut fields, "timezone", &self.timezone);
        object(fields)
    }
}

fn copy_optional_texts(value: &Option<Vec<String>>) -> (r: Option<Vec<String>>)
    ensures
        r.deep_view() == value.deep_view(),
{
    match value {
        Some(list) => Some(copy_texts(list)),
        None => None,
    }
}

impl ToolSpec {
    /// The name of the tool.
    pub fn name(&self) -> (r: &str)
        ensures
            r@ == spec_name(self@),
    {
        match self {
            ToolSpec::Function(tool) => tool.name.as_str(),
            ToolSpec::Namespace(namespace) => namespace.name.as_str(),
            ToolSpec::ToolSearch { .. } => "tool_search",
            ToolSpec::ImageGeneration { .. } => "image_generation",
            ToolSpec::WebSearch { .. } => "web_search",
            ToolSpec::Freeform(tool) => tool.name.as_str(),
        }
    }

    /// A copy of the tool.
    pub fn copy(&self) -> (r: ToolSpec)
        ensures
            r@ == self@,
    {
        match self {
            ToolSpec::Function(tool) => ToolSpec::Function(tool.copy()),
            ToolSpec::Namespace(namespace) => ToolSpec::Namespace(
                ResponsesApiNamespace {
                    name: namespace.name.clone(),
                    description: namespace.description.clone(),
                    tools: copy_namespace_tools(&namespace.tools),
                },
            ),
            ToolSpec::ToolSearch { execution, description, parameters } => ToolSpec::ToolSearch {
                execution: execution.clone(),
                description: description.clone(),
                parameters: parameters.copy(),
            },
            ToolSpec::ImageGeneration { output_format } => ToolSpec::ImageGeneration {
                output_format: output_format.clone(),
            },
            ToolSpec::WebSearch {
                external_web_access,
                index_gated_web_access,
                filters,
                user_location,
                search_context_size,
                search_content_types,
            } => ToolSpec::WebSearch {
                external_web_access: *external_web_access,
                index_gated_web_access: *index_gated_web_access,
                filters: match filters {
                    Some(f) => Some(
                        ResponsesApiWebSearchFilters {
                            allowed_domains: copy_optional_texts(&f.allowed_domains),
                        },
                    ),
                    None => None,
                },
                user_location: match user_location {
                    Some(l) => Some(
                        ResponsesApiWebSearchUserLocation {
                            kind: l.kind,
                            country: copy_text(&l.country),
                            region: copy_text(&l.region),
                            city: copy_text(&l.city),
                            timezone: copy_text(&l.timezone),
                        },
                    ),
                    None => None,
                },
                search_context_size: *search_context_size,
                search_content_types: copy_optional_texts(search_content_types),
            },
            ToolSpec::Freeform(tool) => ToolSpec::Freeform(
                FreeformTool {
                    name: tool.name.clone(),
                    description: tool.description.clone(),
                    format: FreeformToolFormat {
                        kind: tool.format.kind.clone(),
                        syntax: tool.format.syntax.clone(),
                        definition: tool.format.definition.clone(),
                    },
                },
            ),
        }
    }

    /// The document of the tool, as the Responses protocol has it.
    pub fn to_json(&self) -> (r: Json)
        ensures
            r@ == spec_doc(self@),
    {
        let mut fields = no_fields();
        match self {
            ToolSpec::Function(tool) => {
                return tool.to_json();
            },
            ToolSpec::Namespace(namespace) => {
                put_text(&mut fields, "type", "namespace");
                put_text(&mut fields, "name", namespace.name.as_str());
                put_text(&mut fields, "description", namespace.description.as_str());
                put(&mut fields, "tools", Json::List(namespace_list(&namespace.tools)));
            },
            ToolSpec::ToolSearch { execution, description, parameters } => {
                put_text(&mut fields, "type", "tool_search");
                put_text(&mut fields, "execution", execution.as_str());
                put_text(&mut fields, "description", description.as_str());
                put(&mut fields, "parameters", parameters.copy());
            },
            ToolSpec::ImageGeneration { output_format } => {
                put_text(&mut fields, "type", "image_generation");
                put_text(&mut fields, "output_format", output_format.as_str());
            },
            ToolSpec::WebSearch {
                external_web_access,
                index_gated_web_access,
                filters,
                user_location,
                search_context_size,
                search_content_types,
            } => {
                put_text(&mut fields, "type", "web_search");
                put_optional_bool(&mut fields, "external_web_access", *external_web_access);
                put_optional_bool(&mut fields, "index_gated_web_access", *index_gated_web_access);
                put_optional(
                    &mut fields,
                    "filters",
                    match filters {
                        Some(f) => Some(f.to_json()),
                        None => None,
                    },
                );
                put_optional(
                    &mut fields,
                    "user_location",
                    match user_location {
                        Some(l) => Some(l.to_json()),
                        None => None,
                    },
                );
                put_optional(
                    &mut fields,
                    "search_context_size",
                    match search_context_size {
                        Some(WebSearchContextSize::Low) => Some(Json::Text("low".to_owned())),
                        Some(WebSearchContextSize::Medium) => Some(Json::Text("medium".to_owned())),
                        Some(WebSearchContextSize::High) => Some(Json::Text("high".to_owned())),
                        None => None,
                    },
                );
                put_optional_texts(&mut fields, "search_content_types", search_content_types);
            },
            ToolSpec::Freeform(tool) => {
                let mut format = no_fields();
                put_text(&mut format, "type", tool.format.kind.as_str());
                put_text(&mut format, "syntax", tool.format.syntax.as_str());
                put_text(&mut format, "definition", tool.format.definition.as_str());
                put_text(&mut fields, "type", "custom");
                put_text(&mut fields, "name", tool.name.as_str());
                put_text(&mut fields, "description", tool.description.as_str());
                put(&mut fields, "format", object(format));
            },
        }
        object(fields)
    }
}

impl From<LoadableToolSpec> for ToolSpec {
    fn from(value: LoadableToolSpec) -> (r: ToolSpec) {
        match value {
            LoadableToolSpec::Function(tool) => ToolSpec::Function(tool),
            LoadableToolSpec::Namespace(namespace) => ToolSpec::Namespace(namespace),
        }
    }
}

impl vstd::std_specs::convert::FromSpecImpl<LoadableToolSpec> for ToolSpec {
    open spec fn obeys_from_spec() -> bool {
        true
    }

    open spec fn from_spec(value: LoadableToolSpec) -> ToolSpec {
        match value {
            LoadableToolSpec::Function(tool) => ToolSpec::Function(tool),
            LoadableToolSpec::Namespace(namespace) => ToolSpec::Namespace(namespace),
        }
    }
}

impl From<WebSearchFilters> for ResponsesApiWebSearchFilters {
    fn from(filters: WebSearchFilters) -> (r: ResponsesApiWebSearchFilters) {
        ResponsesApiWebSearchFilters { allowed_domains: filters.allowed_domains }
    }
}

impl vstd::std_specs::convert::FromSpecImpl<WebSearchFilters> for ResponsesApiWebSearchFilters {
    open spec fn obeys_from_spec() -> bool {
        true
    }

    open spec fn from_spec(filters: WebSearchFilters) -> ResponsesApiWebSearchFilters {
        ResponsesApiWebSearchFilters { allowed_domains: filters.allowed_domains }
    }
}

impl From<WebSearchUserLocation> for ResponsesApiWebSearchUserLocation {
    fn from(l: WebSearchUserLocation) -> (r: ResponsesApiWebSearchUserLocation) {
        ResponsesApiWebSearchUserLocation {
            kind: l.kind,
            country: l.country,
            region: l.region,
            city: l.city,
            timezone: l.timezone,
        }
    }
}

impl vstd::std_specs::convert::FromSpecImpl<WebSearchUserLocation> for ResponsesApiWebSearchUserLocation {
    open spec fn obeys_from_spec() -> bool {
        true
    }

    open spec fn from_spec(l: WebSearchUserLocation) -> ResponsesApiWebSearchUserLocation {
        ResponsesApiWebSearchUserLocation {
            kind: l.kind,
            country: l.country,
            region: l.region,
            city: l.city,
            timezone: l.timezone,
        }
    }
}

/// The documents of tools, in their order.
pub fn create_tools_json_for_responses_api(tools: &Vec<ToolSpec>) -> (r: Vec<Json>)
    ensures
        docs(r@) == Seq::new(tools@.len(), |i: int| spec_doc(tools@[i]@)),
{
    let ghost wanted = Seq::new(tools@.len(), |i: int| spec_doc(tools@[i]@));
    let mut out: Vec<Json> = Vec::new();
    let mut i: usize = 0;
    while i < tools.len()
        invariant
            i <= tools@.len(),
            wanted == Seq::new(tools@.len(), |i: int| spec_doc(tools@[i]@)),
            docs(out@) == wanted.take(i as int),
        decreases tools@.len() - i,
    {
        let item = tools[i].to_json();
        proof {
            lemma_docs_push(out@, item);
            assert(wanted.take(i + 1) =~= wanted.take(i as int).push(wanted[i as int]));
        }
        out.push(item);
        i += 1;
    }
    assert(wanted.take(i as int) =~= wanted);
    out
}

/// A function of a namespace under its flat name.
pub open spec fn flat_function(
    namespace: Seq<char>,
    tool: ResponsesApiNamespaceToolView,
) -> ToolSpecView {
    match tool {
        ResponsesApiNamespaceToolView::Function(t) => ToolSpecView::Function(
            ResponsesApiToolView {
                name: flat_name(ToolNameView { name: t.name, namespace: Some(namespace) }),
                ..t
            },
        ),
    }
}

/// What a tool becomes where there are no namespaces: a namespace becomes its
/// functions under their flat names.
pub open spec fn flat_specs(tool: ToolSpecView) -> Seq<ToolSpecView> {
    match tool {
        ToolSpecView::Namespace(n) => Seq::new(
            n.tools.len(),
            |i: int| flat_function(n.name, n.tools[i]),
        ),
        _ => seq![tool],
    }
}

/// The tools where there are no namespaces, in their order.
pub open spec fn flattened(tools: Seq<ToolSpecView>) -> Seq<ToolSpecView>
    decreases tools.len(),
{
    if tools.len() == 0 {
        Seq::empty()
    } else {
        flattened(tools.drop_last()) + flat_specs(tools.last())
    }
}

fn push_spec(tools: &mut Vec<ToolSpec>, tool: ToolSpec)
    ensures
        final(tools).deep_view() == old(tools).deep_view().push(tool@),
{
    tools.push(tool);
    assert(tools.deep_view() =~= old(tools).deep_view().push(tool@));
}

/// Brings tools into a form for protocols that know no namespaces.
pub fn flatten_namespaces_for_flat_wire(specs: &Vec<ToolSpec>) -> (r: Vec<ToolSpec>)
    ensures
        r.deep_view() == flattened(specs.deep_view()),
{
    let ghost all = specs.deep_view();
    let mut out: Vec<ToolSpec> = Vec::new();
    let mut i: usize = 0;
    assert(all.take(0) =~= Seq::<ToolSpecView>::empty());
    assert(out.deep_view() =~= Seq::<ToolSpecView>::empty());
    while i < specs.len()
        invariant
            i <= specs@.len(),
            all == specs.deep_view(),
            out.deep_view() == flattened(all.take(i as int)),
        decreases specs@.len() - i,
    {
        let ghost before = out.deep_view();
        proof {
            assert(all.take(i + 1).drop_last() =~= all.take(i as int));
            assert(all.take(i + 1).last() == specs@[i as int]@);
        }
        match &specs[i] {
            ToolSpec::Namespace(namespace) => {
                let ghost inner = flat_specs(specs@[i as int]@);
                let mut k: usize = 0;
                assert(before + inner.take(0) =~= before);
                while k < namespace.tools.len()
                    invariant
                        k <= namespace.tools@.len(),
                        inner == flat_specs(ToolSpecView::Namespace(namespace@)),
                        out.deep_view() == before + inner.take(k as int),
                    decreases namespace.tools@.len() - k,
                {
                    match &namespace.tools[k] {
                        ResponsesApiNamespaceTool::Function(tool) => {
                            let mut flat = tool.copy();
                            flat.name =
                            ToolName::namespaced(
                                namespace.name.as_str(),
                                tool.name.as_str(),
                            ).to_flat_wire_name();
                            proof {
                                assert(namespace@.tools[k as int] == namespace.tools@[k as int]@);
                                assert(inner[k as int] == ToolSpecView::Function(flat@));
                                assert(before + inner.take(k + 1) =~= (before + inner.take(
                                    k as int,
                                )).push(inner[k as int]));
                            }
                            push_spec(&mut out, ToolSpec::Function(flat));
                        },
                    }
                    k += 1;
                }
                assert(inner.take(k as int) =~= inner);
            },
            other => {
                let copy = other.copy();
                assert(before + seq![copy@] =~= before.push(copy@));
                push_spec(&mut out, copy);
            },
        }
        i += 1;
    }
    assert(all.take(i as int) =~= all);
    out
}

/// A function that came out of a namespace is found back by its flat name,
/// unless the namespace contains the delimiter or ends with half of it.
pub proof fn law_flat_function_is_found(
    namespace: Seq<char>,
    tool: ResponsesApiNamespaceToolView,
)
    requires
        !has_delimiter(namespace),
        namespace.len() > 0 ==> namespace.last() != '_',
    ensures
        tool_of_flat(spec_name(flat_function(namespace, tool))) == (ToolNameView {
            name: match tool {
                ResponsesApiNamespaceToolView::Function(t) => t.name,
            },
            namespace: Some(namespace),
        }),
{
    match tool {
        ResponsesApiNamespaceToolView::Function(t) => {
            law_namespaced_round_trip(namespace, t.name);
        },
    }
}

/// Nothing that is flattened is a namespace.
pub proof fn law_flattened_has_no_namespace(tools: Seq<ToolSpecView>, i: int)
    requires
        0 <= i < flattened(tools).len(),
    ensures
        !(flattened(tools)[i] is Namespace),
    decreases tools.len(),
{
    let before = flattened(tools.drop_last());
    if i < before.len() {
        law_flattened_has_no_namespace(tools.drop_last(), i);
    } else {
        let inner = flat_specs(tools.last());
        assert(flattened(tools)[i] == inner[i - before.len()]);
    }
}

} // verus!
