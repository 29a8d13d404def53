//! Tool specifications, their documents, and what a model is told of them.

use tokencode::codec::parse_json;
use tokencode::codec::write_json;
use tokencode::json::Json;
use tokencode::tool_catalog::build_progress_channel_schema;
use tokencode::tool_catalog::render_tool_catalog;
use tokencode::tool_name::ToolName;
use tokencode::tool_spec::create_tools_json_for_responses_api;
use tokencode::tool_spec::flatten_namespaces_for_flat_wire;
use tokencode::tool_spec::AdditionalProperties;
use tokencode::tool_spec::FreeformTool;
use tokencode::tool_spec::FreeformToolFormat;
use tokencode::tool_spec::JsonSchema;
use tokencode::tool_spec::ResponsesApiNamespace;
use tokencode::tool_spec::ResponsesApiNamespaceTool;
use tokencode::tool_spec::ResponsesApiTool;
use tokencode::tool_spec::ResponsesApiWebSearchFilters;
use tokencode::tool_spec::ResponsesApiWebSearchUserLocation;
use tokencode::tool_spec::ToolSpec;
use tokencode::tool_spec::WebSearchContextSize;
use tokencode::tool_spec::WebSearchFilters;
use tokencode::tool_spec::WebSearchUserLocation;
use tokencode::tool_spec::WebSearchUserLocationType;

fn shown(doc: &Json) -> String {
    write_json(doc).expect("a text")
}

fn written(text: &str) -> String {
    shown(&parse_json(text).expect("a document"))
}

fn empty_schema() -> Json {
    JsonSchema::object(Vec::new(), None, None)
}

fn function(name: &str, description: &str, parameters: Json) -> ResponsesApiTool {
    ResponsesApiTool {
        name: name.to_string(),
        description: description.to_string(),
        strict: false,
        defer_loading: None,
        parameters,
        output_schema: None,
    }
}

fn freeform(name: &str, description: &str, definition: &str) -> ToolSpec {
    ToolSpec::Freeform(FreeformTool {
        name: name.to_string(),
        description: description.to_string(),
        format: FreeformToolFormat {
            kind: "grammar".to_string(),
            syntax: "lark".to_string(),
            definition: definition.to_string(),
        },
    })
}

#[test]
fn tool_spec_name_covers_all_variants() {
    assert_eq!(
        ToolSpec::Function(function("lookup_order", "Look up an order", empty_schema())).name(),
        "lookup_order"
    );
    assert_eq!(
        ToolSpec::Namespace(ResponsesApiNamespace {
            name: "mcp__demo__".to_string(),
            description: "Demo tools".to_string(),
            tools: Vec::new(),
        })
        .name(),
        "mcp__demo__"
    );
    assert_eq!(
        ToolSpec::ToolSearch {
            execution: "sync".to_string(),
            description: "Search for tools".to_string(),
            parameters: empty_schema(),
        }
        .name(),
        "tool_search"
    );
    assert_eq!(
        ToolSpec::ImageGeneration { output_format: "png".to_string() }.name(),
        "image_generation"
    );
    assert_eq!(
        ToolSpec::WebSearch {
            external_web_access: Some(true),
            index_gated_web_access: None,
            filters: None,
            user_location: None,
            search_context_size: None,
            search_content_types: None,
        }
        .name(),
        "web_search"
    );
    assert_eq!(freeform("exec", "Run a command", "start: \"exec\"").name(), "exec");
}

#[test]
fn web_search_config_converts_to_responses_api_types() {
    assert_eq!(
        ResponsesApiWebSearchFilters::from(WebSearchFilters {
            allowed_domains: Some(vec!["example.com".to_string()]),
        }),
        ResponsesApiWebSearchFilters { allowed_domains: Some(vec!["example.com".to_string()]) }
    );
    assert_eq!(
        ResponsesApiWebSearchUserLocation::from(WebSearchUserLocation {
            kind: WebSearchUserLocationType::Approximate,
            country: Some("US".to_string()),
            region: Some("California".to_string()),
            city: Some("San Francisco".to_string()),
            timezone: Some("America/Los_Angeles".to_string()),
        }),
        ResponsesApiWebSearchUserLocation {
            kind: WebSearchUserLocationType::Approximate,
            country: Some("US".to_string()),
            region: Some("California".to_string()),
            city: Some("San Francisco".to_string()),
            timezone: Some("America/Los_Angeles".to_string()),
        }
    );
}

#[test]
fn create_tools_json_for_responses_api_includes_top_level_name() {
    let tools = create_tools_json_for_responses_api(&vec![ToolSpec::Function(function(
        "demo",
        "A demo tool",
        JsonSchema::object(vec![("foo".to_string(), JsonSchema::string(None))], None, None),
    ))]);
    assert_eq!(tools.len(), 1);
    assert_eq!(
        shown(&tools[0]),
        written(
            r#"{
                "type": "function",
                "name": "demo",
                "description": "A demo tool",
                "strict": false,
                "parameters": {"type": "object", "properties": {"foo": {"type": "string"}}}
            }"#
        )
    );
}

#[test]
fn namespace_tool_spec_serializes_expected_wire_shape() {
    let spec = ToolSpec::Namespace(ResponsesApiNamespace {
        name: "mcp__demo__".to_string(),
        description: "Demo tools".to_string(),
        tools: vec![ResponsesApiNamespaceTool::Function(function(
            "lookup_order",
            "Look up an order",
            JsonSchema::object(vec![("order_id".to_string(), JsonSchema::string(None))], None, None),
        ))],
    });
    assert_eq!(
        shown(&spec.to_json()),
        written(
            r#"{
                "type": "namespace",
                "name": "mcp__demo__",
                "description": "Demo tools",
                "tools": [
                    {
                        "type": "function",
                        "name": "lookup_order",
                        "description": "Look up an order",
                        "strict": false,
                        "parameters": {"type": "object", "properties": {"order_id": {"type": "string"}}}
                    }
                ]
            }"#
        )
    );
}

#[test]
fn web_search_tool_spec_serializes_expected_wire_shape() {
    let spec = ToolSpec::WebSearch {
        external_web_access: Some(true),
        index_gated_web_access: None,
        filters: Some(ResponsesApiWebSearchFilters {
            allowed_domains: Some(vec!["example.com".to_string()]),
        }),
        user_location: Some(ResponsesApiWebSearchUserLocation {
            kind: WebSearchUserLocationType::Approximate,
            country: Some("US".to_string()),
            region: Some("California".to_string()),
            city: Some("San Francisco".to_string()),
            timezone: Some("America/Los_Angeles".to_string()),
        }),
        search_context_size: Some(WebSearchContextSize::High),
        search_content_types: Some(vec!["text".to_string(), "image".to_string()]),
    };
    assert_eq!(
        shown(&spec.to_json()),
        written(
            r#"{
                "type": "web_search",
                "external_web_access": true,
                "filters": {"allowed_domains": ["example.com"]},
                "user_location": {
                    "type": "approximate",
                    "country": "US",
                    "region": "California",
                    "city": "San Francisco",
                    "timezone": "America/Los_Angeles"
                },
                "search_context_size": "high",
                "search_content_types": ["text", "image"]
            }"#
        )
    );
}

#[test]
fn tool_search_tool_spec_serializes_expected_wire_shape() {
    let spec = ToolSpec::ToolSearch {
        execution: "sync".to_string(),
        description: "Search app tools".to_string(),
        parameters: JsonSchema::object(
            vec![(
                "query".to_string(),
                JsonSchema::string(Some("Tool search query".to_string())),
            )],
            Some(vec!["query".to_string()]),
            Some(AdditionalProperties::Boolean(false)),
        ),
    };
    assert_eq!(
        shown(&spec.to_json()),
        written(
            r#"{
                "type": "tool_search",
                "execution": "sync",
                "description": "Search app tools",
                "parameters": {
                    "type": "object",
                    "properties": {"query": {"type": "string", "description": "Tool search query"}},
                    "required": ["query"],
                    "additionalProperties": false
                }
            }"#
        )
    );
}

fn namespaced_specs() -> Vec<ToolSpec> {
    vec![
        ToolSpec::Namespace(ResponsesApiNamespace {
            name: "context7".to_string(),
            description: "Docs tools".to_string(),
            tools: vec![
                ResponsesApiNamespaceTool::Function(function("get-docs", "Get docs", empty_schema())),
                ResponsesApiNamespaceTool::Function(function("search", "Search docs", empty_schema())),
            ],
        }),
        ToolSpec::Function(function("apply_patch", "Apply a patch", empty_schema())),
    ]
}

#[test]
fn flatten_namespaces_emits_flat_function_per_inner_tool() {
    let flattened = flatten_namespaces_for_flat_wire(&namespaced_specs());
    assert_eq!(flattened.len(), 3);
    assert_eq!(flattened[0].name(), "context7__get-docs");
    assert_eq!(flattened[1].name(), "context7__search");
    assert_eq!(flattened[2].name(), "apply_patch");
    assert_eq!(
        ToolName::from_flat_wire_name(flattened[0].name()),
        ToolName::namespaced("context7", "get-docs")
    );
}

#[test]
fn progress_channel_schema_shape() {
    let names = vec!["shell".to_string(), "apply_patch".to_string()];
    let schema = build_progress_channel_schema(&names);
    assert_eq!(schema.text_at("type").as_deref(), Some("object"));
    assert_eq!(schema.bool_at("additionalProperties"), Some(false));
    let has = |list: &Vec<Json>, word: &str| list.iter().any(|v| v.as_text().map(|s| s.as_str()) == Some(word));
    let required = schema.list_at("required").expect("required");
    assert!(has(required, "action"));
    assert!(has(required, "progress_patch"));
    assert!(has(required, "digest_override"));
    let properties = schema.get("properties").expect("properties");
    let action = properties.get("action").expect("action");
    let inner = action.get("properties").expect("properties");
    let tools = inner.get("tool").and_then(|t| t.list_at("enum")).expect("enum");
    assert!(has(tools, "shell"));
    assert!(has(tools, "apply_patch"));
    let arguments = inner.get("arguments").expect("arguments");
    assert_eq!(arguments.text_at("type").as_deref(), Some("object"));
    assert!(arguments.get("additionalProperties").is_none());
    let kinds = action.list_at("type").expect("type");
    assert!(has(kinds, "object"));
    assert!(has(kinds, "null"));
    assert_eq!(shown(properties.get("digest_override").expect("digest_override")), "{}");
}

#[test]
fn render_tool_catalog_contains_tool_names() {
    let tools = vec![
        ToolSpec::Function(function("lookup_order", "Look up an order", empty_schema())),
        freeform("apply_patch", "Edit files", ""),
    ];
    let catalog = render_tool_catalog(&tools);
    assert!(catalog.contains("可用工具目录"));
    assert!(catalog.contains("lookup_order"));
    assert!(catalog.contains("apply_patch"));
    assert!(catalog.contains("自由格式工具"));
}

#[test]
fn catalog_text_of_a_function() {
    let catalog = render_tool_catalog(&vec![ToolSpec::Function(function("f", "does f", empty_schema()))]);
    assert!(
        catalog.ends_with(
            "## f\ndoes f\n参数 schema:\n```\n{\n  \"properties\": {},\n  \"type\": \"object\"\n}\n```\n"
        ),
        "{catalog}"
    );
}

#[test]
fn catalog_of_namespaces_and_of_nothing() {
    let catalog = render_tool_catalog(&namespaced_specs());
    assert!(catalog.contains("## namespace: context7\n  - get-docs: Get docs\n  - search: Search docs\n"));
    assert!(render_tool_catalog(&Vec::new()).ends_with("（当前无可用工具）\n"));
}
