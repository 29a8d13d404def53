//! What models are told of tools in their instructions, and the schema of the
//! answers by which they then call them.

use vstd::prelude::*;
use vstd::string::*;

use crate::codec::write_json_pretty;
use crate::codec::written_pretty;
use crate::json::docs;
use crate::json::no_fields;
use crate::json::no_pairs;
use crate::json::object;
use crate::json::object_doc;
use crate::json::put;
use crate::json::put_text;
use crate::json::text_docs;
use crate::json::Json;
use crate::json::JsonView;
use crate::text::has_part;
use crate::text::part_at;
use crate::text::lines;
use crate::text::split_lines;
use crate::tool_spec::spec_name;
use crate::tool_spec::FreeformTool;
use crate::tool_spec::FreeformToolView;
use crate::tool_spec::ResponsesApiNamespace;
use crate::tool_spec::ResponsesApiNamespaceTool;
use crate::tool_spec::ResponsesApiNamespaceToolView;
use crate::tool_spec::ResponsesApiTool;
use crate::tool_spec::ResponsesApiToolView;
use crate::tool_spec::ToolSpec;
use crate::tool_spec::ToolSpecView;

verus! {

/// The list of texts.
pub open spec fn text_list(texts: Seq<Seq<char>>) -> JsonView {
    JsonView::List(Seq::new(texts.len(), |i: int| JsonView::Text(texts[i])))
}

/// The schema that says nothing but a type.
pub open spec fn typed(kind: Seq<char>) -> JsonView {
    object_doc(no_pairs() + seq![("type"@, JsonView::Text(kind))])
}

/// The schema of a list of free objects.
pub open spec fn free_objects() -> JsonView {
    object_doc(
        no_pairs() + seq![("type"@, JsonView::Text("array"@))] + seq![
            (
                "items"@,
                object_doc(
                    no_pairs() + seq![("type"@, JsonView::Text("object"@))] + seq![
                        ("additionalProperties"@, JsonView::Bool(true)),
                    ],
                ),
            ),
        ],
    )
}

/// The schema of the action: a tool of the given names and its arguments, or
/// nothing.
pub open spec fn action_schema(tool_names: Seq<Seq<char>>) -> JsonView {
    object_doc(
        no_pairs() + seq![("type"@, text_list(seq!["object"@, "null"@]))] + seq![
            ("additionalProperties"@, JsonView::Bool(false)),
        ] + seq![
            (
                "properties"@,
                object_doc(
                    no_pairs() + seq![
                        (
                            "tool"@,
                            object_doc(
                                no_pairs() + seq![("type"@, JsonView::Text("string"@))] + seq![
                                    ("enum"@, text_list(tool_names)),
                                ],
                            ),
                        ),
                    ] + seq![("arguments"@, typed("object"@))],
                ),
            ),
        ] + seq![("required"@, text_list(seq!["tool"@, "arguments"@]))],
    )
}

/// The schema of a change to the progress, or nothing.
pub open spec fn patch_schema() -> JsonView {
    object_doc(
        no_pairs() + seq![("type"@, text_list(seq!["object"@, "null"@]))] + seq![
            ("additionalProperties"@, JsonView::Bool(false)),
        ] + seq![
            (
                "properties"@,
                object_doc(
                    no_pairs() + seq![("intent"@, typed("string"@))] + seq![
                        ("todo_ops"@, free_objects()),
                    ] + seq![("assumptions"@, free_objects())] + seq![
                        ("next_step"@, typed("string"@)),
                    ],
                ),
            ),
        ],
    )
}

/// The schema of a whole answer.
pub open spec fn progress_schema(tool_names: Seq<Seq<char>>) -> JsonView {
    object_doc(
        no_pairs() + seq![("type"@, JsonView::Text("object"@))] + seq![
            ("additionalProperties"@, JsonView::Bool(false)),
        ] + seq![
            (
                "properties"@,
                object_doc(
                    no_pairs() + seq![("action"@, action_schema(tool_names))] + seq![
                        ("progress_patch"@, patch_schema()),
                    ] + seq![("digest_override"@, object_doc(no_pairs()))],
                ),
            ),
        ] + seq![
            ("required"@, text_list(seq!["action"@, "progress_patch"@, "digest_override"@])),
        ],
    )
}

fn two_texts(a: &str, b: &str) -> (r: Json)
    ensures
        r@ == text_list(seq![a@, b@]),
{
    let mut texts: Vec<String> = Vec::new();
    texts.push(a.to_owned());
    texts.push(b.to_owned());
    let list = text_docs(&texts);
    assert(docs(list@) =~= text_list(seq![a@, b@])->List_0);
    Json::List(list)
}

fn three_texts(a: &str, b: &str, c: &str) -> (r: Json)
    ensures
        r@ == text_list(seq![a@, b@, c@]),
{
    let mut texts: Vec<String> = Vec::new();
    texts.push(a.to_owned());
    texts.push(b.to_owned());
    texts.push(c.to_owned());
    let list = text_docs(&texts);
    assert(docs(list@) =~= text_list(seq![a@, b@, c@])->List_0);
    Json::List(list)
}

fn typed_schema(kind: &str) -> (r: Json)
    ensures
        r@ == typed(kind@),
{
    let mut fields = no_fields();
    put_text(&mut fields, "type", kind);
    object(fields)
}

fn free_object_list() -> (r: Json)
    ensures
        r@ == free_objects(),
{
    let mut item = no_fields();
    put_text(&mut item, "type", "object");
    put(&mut item, "additionalProperties", Json::Bool(true));
    let mut fields = no_fields();
    put_text(&mut fields, "type", "array");
    put(&mut fields, "items", object(item));
    object(fields)
}

fn make_action_schema(tool_names: &Vec<String>) -> (r: Json)
    ensures
        r@ == action_schema(tool_names.deep_view()),
{
    let names = text_docs(tool_names);
    assert(docs(names@) =~= text_list(tool_names.deep_view())->List_0);
    let mut tool = no_fields();
    put_text(&mut tool, "type", "string");
    put(&mut tool, "enum", Json::List(names));
    let mut properties = no_fields();
    put(&mut properties, "tool", object(tool));
    put(&mut properties, "arguments", typed_schema("object"));
    let mut fields = no_fields();
    put(&mut fields, "type", two_texts("object", "null"));
    put(&mut fields, "additionalProperties", Json::Bool(false));
    put(&mut fields, "properties", object(properties));
    put(&mut fields, "required", two_texts("tool", "arguments"));
    object(fields)
}

fn make_patch_schema() -> (r: Json)
    ensures
        r@ == patch_schema(),
{
    let mut properties = no_fields();
    put(&mut properties, "intent", typed_schema("string"));
    put(&mut properties, "todo_ops", free_object_list());
    put(&mut properties, "assumptions", free_object_list());
    put(&mut properties, "next_step", typed_schema("string"));
    let mut fields = no_fields();
    put(&mut fields, "type", two_texts("object", "null"));
    put(&mut fields, "additionalProperties", Json::Bool(false));
    put(&mut fields, "properties", object(properties));
    object(fields)
}

/// Builds the schema of an answer that calls one of the given tools and reports
/// progress.
pub fn build_progress_channel_schema(tool_names: &Vec<String>) -> (r: Json)
    ensures
        r@ == progress_schema(tool_names.deep_view()),
{
    let mut properties = no_fields();
    put(&mut properties, "action", make_action_schema(tool_names));
    put(&mut properties, "progress_patch", make_patch_schema());
    put(&mut properties, "digest_override", object(no_fields()));
    let mut fields = no_fields();
    put_text(&mut fields, "type", "object");
    put(&mut fields, "additionalProperties", Json::Bool(false));
    put(&mut fields, "properties", object(properties));
    put(&mut fields, "required", three_texts("action", "progress_patch", "digest_override"));
    object(fields)
}

/// A description on a line of its own; nothing for an empty one.
pub open spec fn description_line(description: Seq<char>) -> Seq<char> {
    if description.len() == 0 {
        Seq::empty()
    } else {
        description + "\n"@
    }
}

/// The schema of a function's arguments, when it can be written.
pub open spec fn schema_block(schema: Option<Seq<char>>) -> Seq<char> {
    match schema {
        Some(text) => "参数 schema:\n```\n"@ + text + "\n```\n"@,
        None => Seq::empty(),
    }
}

/// The first line of a text; empty when there is none.
pub open spec fn first_line(text: Seq<char>) -> Seq<char> {
    if lines(text).len() == 0 {
        Seq::empty()
    } else {
        lines(text)[0]
    }
}

/// What is said of a function, given its written schema.
pub open spec fn function_entry(tool: ResponsesApiToolView, schema: Option<Seq<char>>) -> Seq<char> {
    "## "@ + tool.name + "\n"@ + description_line(tool.description) + schema_block(schema)
}

/// What is said of a tool that takes free text.
pub open spec fn freeform_entry(tool: FreeformToolView) -> Seq<char> {
    "## "@ + tool.name + "（自由格式工具）\n"@ + description_line(tool.description) + "格式: "@
        + tool.format.syntax + " ("@ + tool.format.kind + ")\n"@
        + "调用形态: action.arguments 填 `{\"input\": <上方格式文本>}`（raw 文本经 input 键承载，系统据此提取）\n"@
}

/// One line for a function of a namespace.
pub open spec fn namespace_line(tool: ResponsesApiNamespaceToolView) -> Seq<char> {
    match tool {
        ResponsesApiNamespaceToolView::Function(t) => "  - "@ + t.name + ": "@ + first_line(
            t.description,
        ) + "\n"@,
    }
}

/// The lines for the functions of a namespace.
pub open spec fn namespace_lines(tools: Seq<ResponsesApiNamespaceToolView>) -> Seq<char>
    decreases tools.len(),
{
    if tools.len() == 0 {
        Seq::empty()
    } else {
        namespace_lines(tools.drop_last()) + namespace_line(tools.last())
    }
}

/// What is said of a tool.
pub open spec fn tool_entry(tool: ToolSpecView) -> Seq<char> {
    match tool {
        ToolSpecView::Function(t) => function_entry(t, written_pretty(t.parameters)),
        ToolSpecView::Freeform(t) => freeform_entry(t),
        ToolSpecView::Namespace(n) => "## namespace: "@ + n.name + "\n"@ + namespace_lines(n.tools),
        _ => "## "@ + spec_name(tool) + "\n"@,
    }
}

/// What is said of tools, one after the other.
pub open spec fn tool_entries(tools: Seq<ToolSpecView>) -> Seq<char>
    decreases tools.len(),
{
    if tools.len() == 0 {
        Seq::empty()
    } else {
        tool_entries(tools.drop_last()) + tool_entry(tools.last())
    }
}

/// What opens the catalog.
pub open spec fn catalog_head() -> Seq<char> {
    "\n\n# 可用工具目录\n"@
        + "（以下工具通过统一输出 schema 的 action.tool 调用，参数填 action.arguments；勿使用原生 function calling）\n\n"@
}

/// The catalog of tools.
pub open spec fn catalog(tools: Seq<ToolSpecView>) -> Seq<char> {
    if tools.len() == 0 {
        catalog_head() + "（当前无可用工具）\n"@
    } else {
        catalog_head() + tool_entries(tools)
    }
}

fn description_text(description: &str) -> (r: String)
    ensures
        r@ == description_line(description@),
{
    let mut out = String::new();
    assert(out@ =~= Seq::<char>::empty());
    if !description.is_empty() {
        out = description.to_owned();
        out.append("\n");
    }
    out
}

/// What is said of a function, given its written schema.
pub fn function_text(tool: &ResponsesApiTool, schema: Option<String>) -> (r: String)
    ensures
        r@ == function_entry(tool@, schema.deep_view()),
{
    let block = match schema {
        Some(text) => {
            let mut block = "参数 schema:\n```\n".to_owned();
            block.append(text.as_str());
            block.append("\n```\n");
            block
        },
        None => String::new(),
    };
    assert(schema is None ==> block@ =~= Seq::<char>::empty());
    let mut out = "## ".to_owned();
    out.append(tool.name.as_str());
    out.append("\n");
    out.append(description_text(tool.description.as_str()).as_str());
    out.append(block.as_str());
    out
}

fn freeform_text(tool: &FreeformTool) -> (r: String)
    ensures
        r@ == freeform_entry(tool@),
{
    let mut out = "## ".to_owned();
    out.append(tool.name.as_str());
    out.append("（自由格式工具）\n");
    out.append(description_text(tool.description.as_str()).as_str());
    out.append("格式: ");
    out.append(tool.format.syntax.as_str());
    out.append(" (");
    out.append(tool.format.kind.as_str());
    out.append(")\n");
    out.append(
        "调用形态: action.arguments 填 `{\"input\": <上方格式文本>}`（raw 文本经 input 键承载，系统据此提取）\n",
    );
    out
}

fn namespace_line_text(tool: &ResponsesApiNamespaceTool) -> (r: String)
    ensures
        r@ == namespace_line(tool@),
{
    match tool {
        ResponsesApiNamespaceTool::Function(t) => {
            let split = split_lines(t.description.as_str());
            let first = if split.len() == 0 {
                String::new()
            } else {
                split[0].clone()
            };
            assert(first@ =~= first_line(t.description@));
            let mut out = "  - ".to_owned();
            out.append(t.name.as_str());
            out.append(": ");
            out.append(first.as_str());
            out.append("\n");
            out
        },
    }
}

fn namespace_text(namespace: &ResponsesApiNamespace) -> (r: String)
    ensures
        r@ == tool_entry(ToolSpecView::Namespace(namespace@)),
{
    let ghost all = namespace@.tools;
    let mut rows = String::new();
    let mut i: usize = 0;
    assert(all.take(0) =~= Seq::<ResponsesApiNamespaceToolView>::empty());
    assert(rows@ =~= Seq::<char>::empty());
    while i < namespace.tools.len()
        invariant
            i <= namespace.tools@.len(),
            all == namespace.tools.deep_view(),
            rows@ == namespace_lines(all.take(i as int)),
        decreases namespace.tools@.len() - i,
    {
        proof {
            assert(all.take(i + 1).drop_last() =~= all.take(i as int));
            assert(all.take(i + 1).last() == namespace.tools@[i as int]@);
        }
        rows.append(namespace_line_text(&namespace.tools[i]).as_str());
        i += 1;
    }
    assert(all.take(i as int) =~= all);
    let mut out = "## namespace: ".to_owned();
    out.append(namespace.name.as_str());
    out.append("\n");
    out.append(rows.as_str());
    out
}

fn entry_text(tool: &ToolSpec) -> (r: String)
    ensures
        r@ == tool_entry(tool@),
{
    match tool {
        ToolSpec::Function(t) => function_text(t, write_json_pretty(&t.parameters)),
        ToolSpec::Freeform(t) => freeform_text(t),
        ToolSpec::Namespace(n) => namespace_text(n),
        other => {
            let mut out = "## ".to_owned();
            out.append(other.name());
            out.append("\n");
            out
        },
    }
}

/// Writes the catalog of tools that goes into a model's instructions.
pub fn render_tool_catalog(tools: &Vec<ToolSpec>) -> (r: String)
    ensures
        r@ == catalog(tools.deep_view()),
{
    let mut head = "\n\n# 可用工具目录\n".to_owned();
    head.append(
        "（以下工具通过统一输出 schema 的 action.tool 调用，参数填 action.arguments；勿使用原生 function calling）\n\n",
    );
    if tools.len() == 0 {
        head.append("（当前无可用工具）\n");
        return head;
    }
    let ghost all = tools.deep_view();
    let mut entries = String::new();
    let mut i: usize = 0;
    assert(all.take(0) =~= Seq::<ToolSpecView>::empty());
    assert(entries@ =~= Seq::<char>::empty());
    while i < tools.len()
        invariant
            i <= tools@.len(),
            all == tools.deep_view(),
            entries@ == tool_entries(all.take(i as int)),
        decreases tools@.len() - i,
    {
        proof {
            assert(all.take(i + 1).drop_last() =~= all.take(i as int));
            assert(all.take(i + 1).last() == tools@[i as int]@);
        }
        entries.append(entry_text(&tools[i]).as_str());
        i += 1;
    }
    assert(all.take(i as int) =~= all);
    head.append(entries.as_str());
    head
}

pub proof fn lemma_has_part_within(before: Seq<char>, part: Seq<char>, after: Seq<char>)
    ensures
        has_part(before + part + after, part),
{
    let s = before + part + after;
    assert(s.subrange(before.len() as int, (before.len() + part.len()) as int) =~= part);
    assert(part_at(s, part, before.len() as int));
}

pub proof fn lemma_has_part_kept(before: Seq<char>, s: Seq<char>, after: Seq<char>, part: Seq<char>)
    requires
        has_part(s, part),
    ensures
        has_part(before + s + after, part),
{
    let i = choose|i: int| part_at(s, part, i);
    lemma_has_part_within(before + s.take(i), part, s.skip(i + part.len()) + after);
    assert(before + s.take(i) + part + (s.skip(i + part.len()) + after) =~= before + s + after);
}

proof fn lemma_entry_names_tool(tool: ToolSpecView)
    ensures
        has_part(tool_entry(tool), spec_name(tool)),
{
    let name = spec_name(tool);
    match tool {
        ToolSpecView::Function(t) => {
            let rest = "\n"@ + description_line(t.description) + schema_block(
                written_pretty(t.parameters),
            );
            lemma_has_part_within("## "@, name, rest);
            assert("## "@ + name + rest =~= tool_entry(tool));
        },
        ToolSpecView::Freeform(t) => {
            let rest = tool_entry(tool).skip(("## "@.len() + name.len()) as int);
            lemma_has_part_within("## "@, name, rest);
            assert("## "@ + name + rest =~= tool_entry(tool));
        },
        ToolSpecView::Namespace(n) => {
            let rest = "\n"@ + namespace_lines(n.tools);
            lemma_has_part_within("## namespace: "@, name, rest);
            assert("## namespace: "@ + name + rest =~= tool_entry(tool));
        },
        _ => {
            lemma_has_part_within("## "@, name, "\n"@);
        },
    }
}

proof fn lemma_entries_name_tool(tools: Seq<ToolSpecView>, i: int)
    requires
        0 <= i < tools.len(),
    ensures
        has_part(tool_entries(tools), spec_name(tools[i])),
    decreases tools.len(),
{
    let before = tool_entries(tools.drop_last());
    let last = tool_entry(tools.last());
    if i < tools.len() - 1 {
        lemma_entries_name_tool(tools.drop_last(), i);
        lemma_has_part_kept(Seq::empty(), before, last, spec_name(tools[i]));
        assert(Seq::<char>::empty() + before + last =~= tool_entries(tools));
    } else {
        lemma_entry_names_tool(tools.last());
        lemma_has_part_kept(before, last, Seq::empty(), spec_name(tools[i]));
        assert(before + last + Seq::<char>::empty() =~= tool_entries(tools));
    }
}

/// The catalog names every tool that there is.
pub proof fn law_catalog_names_every_tool(tools: Seq<ToolSpecView>, i: int)
    requires
        0 <= i < tools.len(),
    ensures
        has_part(catalog(tools), spec_name(tools[i])),
{
    lemma_entries_name_tool(tools, i);
    lemma_has_part_kept(catalog_head(), tool_entries(tools), Seq::empty(), spec_name(tools[i]));
    assert(catalog_head() + tool_entries(tools) + Seq::<char>::empty() =~= catalog(tools));
}

} // verus!
