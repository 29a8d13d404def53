//! What becomes of the items that a model puts out, told from the items.

use vstd::prelude::*;
use vstd::string::*;

use crate::codec::written;
use crate::adapters::gemini_schema::texts_of;
use crate::json::holds_object;
use crate::json::law_fields_are_read_by_key;
use crate::json::law_missing_fields_are_none;
use crate::json::says;
use crate::json::Fields;
use crate::json::JsonView;
use crate::models::ContentItemView;
use crate::models::FunctionCallOutputPayloadView;
use crate::models::MessagePhase;
use crate::models::ResponseItemView;
use crate::progress::channel::ascending;
use crate::progress::channel::patch_digests;
use crate::progress::channel::patch_paths;
use crate::progress::channel::patched;
use crate::progress::channel::whole_turn;
use crate::progress::laws::law_with_files;
use crate::progress::state::DigestKind;
use crate::progress::state::ProgressView;
use crate::text::law_blank_texts_are_white_space;
use crate::text::white_space;
use crate::tool_name::flat_name;
use crate::tool_name::law_flat_of_tool_of_flat;
use crate::tool_name::tool_of_flat;
use crate::tool_name::ToolNameView;
use crate::tool_spec::flattened;
use crate::tool_spec::ResponsesApiNamespaceToolView;
use crate::tool_spec::ToolSpecView;
use crate::turn::envelope::action_text;
use crate::turn::envelope::call_refused;
use crate::turn::envelope::consumed;
use crate::turn::envelope::envelope_text;
use crate::turn::envelope::first_missing;
use crate::turn::envelope::tool_named;
use crate::turn::envelope::ToolCallView;
use crate::turn::envelope::ToolPayloadView;
use crate::turn::items::all_texts;
use crate::turn::items::answer_item;
use crate::turn::items::assistant_text;
use crate::turn::items::defers_mail;
use crate::turn::items::facts_of;
use crate::turn::items::finished_message;
use crate::turn::items::output_text;
use crate::turn::items::shown;
use crate::turn::items::started;
use crate::turn::items::visible_message;
use crate::turn::items::AgentMessageItemView;
use crate::turn::items::FinalizedTurnItemView;
use crate::turn::items::ImageGenerationItemView;
use crate::turn::items::ResponseInputItemView;
use crate::turn::items::TurnItemView;
use crate::turn::plan::plan_after_finalize;
use crate::turn::plan::plan_for;
use crate::turn::plan::record_plan;
use crate::turn::plan::CitationSourceView;
use crate::turn::plan::RoutedView;
use crate::turn::plan::TurnActionView;

verus! {

/// The name that a tool is called by.
pub open spec fn called(tool: ToolSpecView) -> Seq<char> {
    match tool {
        ToolSpecView::Function(t) => t.name,
        ToolSpecView::Namespace(n) => n.name,
        ToolSpecView::ToolSearch { .. } => "tool_search"@,
        ToolSpecView::ImageGeneration { .. } => "image_generation"@,
        ToolSpecView::WebSearch { .. } => "web_search"@,
        ToolSpecView::Freeform(t) => t.name,
    }
}

/// A tool is found by its name, the last one where several have it, and none is
/// found where none has it.
pub proof fn law_tools_are_found_by_name(tools: Seq<ToolSpecView>, name: Seq<char>, k: int)
    ensures
        0 <= k < tools.len() && called(tools[k]) == name && (forall|i: int|
            k < i < tools.len() ==> called(#[trigger] tools[i]) != name) ==> tool_named(tools, name)
            == Some(tools[k]),
        (forall|i: int| 0 <= i < tools.len() ==> called(#[trigger] tools[i]) != name) ==> tool_named(
            tools,
            name,
        ) is None,
    decreases tools.len(),
{
    if tools.len() > 0 {
        let rest = tools.drop_last();
        law_tools_are_found_by_name(rest, name, k);
        let last = tools.len() - 1;
        if 0 <= k < last && called(tools[k]) == name && (forall|i: int|
            k < i < tools.len() ==> called(#[trigger] tools[i]) != name) {
            assert(called(tools[last]) != name);
            assert(rest[k] == tools[k]);
            assert forall|i: int| k < i < rest.len() implies called(#[trigger] rest[i]) != name by {
                assert(called(tools[i]) != name);
            }
        }
        if forall|i: int| 0 <= i < tools.len() ==> called(#[trigger] tools[i]) != name {
            assert(called(tools[last]) != name);
            assert forall|i: int| 0 <= i < rest.len() implies called(#[trigger] rest[i]) != name by {
                assert(called(tools[i]) != name);
            }
        }
    }
}

/// Tools are flattened one after the other: a namespace becomes its functions, in
/// their order, each under the namespace and its name but otherwise as it is, and
/// any other tool stays.
pub proof fn law_tools_are_flattened_in_order(tools: Seq<ToolSpecView>, tool: ToolSpecView, i: int)
    ensures
        flattened(Seq::empty()).len() == 0,
        flattened(tools.push(tool)).take(flattened(tools).len() as int) == flattened(tools),
        !(tool is Namespace) ==> flattened(tools.push(tool)) == flattened(tools).push(tool),
        tool matches ToolSpecView::Namespace(n) ==> {
            let all = flattened(tools.push(tool));
            &&& all.len() == flattened(tools).len() + n.tools.len()
            &&& 0 <= i < n.tools.len() ==> match n.tools[i] {
                ResponsesApiNamespaceToolView::Function(f) => all[flattened(tools).len() + i] matches
                    ToolSpecView::Function(flat) && flat.name == n.name + "__"@ + f.name
                    && flat.description == f.description && flat.parameters == f.parameters
                    && flat.strict == f.strict,
            }
        },
{
    assert(tools.push(tool).drop_last() =~= tools);
    let all = flattened(tools.push(tool));
    assert(all.take(flattened(tools).len() as int) =~= flattened(tools));
    match tool {
        ToolSpecView::Namespace(n) => {
            if 0 <= i < n.tools.len() {
                match n.tools[i] {
                    ResponsesApiNamespaceToolView::Function(f) => {
                        crate::tool_name::law_flat_names_are_spelled_out(f.name, n.name);
                    },
                }
            }
        },
        _ => {
            assert(all =~= flattened(tools).push(tool));
        },
    }
}

/// Only a message of the assistant with one text and nothing else is an answer that
/// can be taken apart.
pub proof fn law_answers_are_single_texts(item: ResponseItemView, text: Seq<char>)
    ensures
        envelope_text(item) == Some(text) <==> (item matches ResponseItemView::Message {
            role,
            content,
            ..
        } && role == "assistant"@ && content == seq![ContentItemView::OutputText { text }]),
{
    if let ResponseItemView::Message { role, content, .. } = item {
        if content.len() == 1 && content[0] == (ContentItemView::OutputText { text }) {
            assert(content =~= seq![ContentItemView::OutputText { text }]);
        }
    }
}

/// The arguments of an action: what it holds under that name, or null.
pub open spec fn arguments_of(action: Fields) -> JsonView {
    if action.dom().contains("arguments"@) {
        action["arguments"@]
    } else {
        JsonView::Null
    }
}

proof fn lemma_action(doc: Fields, action: Fields, tool: Seq<char>)
    requires
        holds_object(doc, "action"@, action),
        says(action, "tool"@, tool),
    ensures
        crate::turn::envelope::present(JsonView::Fields(doc), "action"@) == Some(
            JsonView::Fields(action),
        ),
        crate::json::text_field(JsonView::Fields(action), "tool"@) == Some(tool),
        crate::turn::envelope::action_arguments(JsonView::Fields(action)) == arguments_of(action),
        action_text(JsonView::Fields(doc)) == written(arguments_of(action)),
{
    law_fields_are_read_by_key(doc, "action"@, JsonView::Fields(action));
    law_fields_are_read_by_key(action, "tool"@, JsonView::Text(tool));
    if action.dom().contains("arguments"@) {
        law_fields_are_read_by_key(action, "arguments"@, action["arguments"@]);
    } else {
        law_missing_fields_are_none(JsonView::Fields(action), "arguments"@);
    }
}

/// An action that names a known tool becomes a call of that tool, under an id made of
/// its name and something unique. A tool that takes arguments gets those of the
/// action, as text; one that takes free text gets the action's input, or else all its
/// arguments as text.
pub proof fn law_actions_become_calls(
    p: ProgressView,
    item: ResponseItemView,
    text: Seq<char>,
    doc: Fields,
    turn_id: Seq<char>,
    tools: Seq<ToolSpecView>,
    unique: Seq<char>,
    action: Fields,
    tool: Seq<char>,
    k: int,
    all: Seq<char>,
)
    requires
        holds_object(doc, "action"@, action),
        says(action, "tool"@, tool),
        0 <= k < tools.len(),
        called(tools[k]) == tool,
        forall|i: int| k < i < tools.len() ==> called(#[trigger] tools[i]) != tool,
        written(arguments_of(action)) == Some(all),
    ensures
        ({
            let left = consumed(
                p,
                item,
                text,
                JsonView::Fields(doc),
                turn_id,
                tools,
                unique,
                action_text(JsonView::Fields(doc)),
            );
            &&& !(tools[k] is Freeform) ==> (left.item matches ResponseItemView::FunctionCall {
                name,
                namespace,
                arguments,
                call_id,
                ..
            } && flat_name(ToolNameView { name, namespace }) == tool && arguments == all && call_id
                == tool + "-"@ + unique)
            &&& tools[k] is Freeform ==> (left.item matches ResponseItemView::CustomToolCall {
                name,
                namespace,
                input,
                call_id,
                ..
            } && {
                &&& flat_name(ToolNameView { name, namespace }) == tool
                &&& call_id == tool + "-"@ + unique
                &&& forall|free: Seq<char>, inner: Fields| #[trigger]
                    says(inner, "input"@, free) && arguments_of(action) == JsonView::Fields(inner)
                        ==> input == free
                &&& (arguments_of(action) matches JsonView::Fields(inner) ==> !inner.dom().contains(
                    "input"@,
                )) ==> input == all
            })
            &&& left.progress.todo == crate::turn::envelope::after_patch(p, JsonView::Fields(doc)).todo
        }),
{
    lemma_action(doc, action, tool);
    law_tools_are_found_by_name(tools, tool, k);
    law_flat_of_tool_of_flat(tool);
    let named = tool_of_flat(tool);
    assert(named == (ToolNameView { name: named.name, namespace: named.namespace }));
    let args = arguments_of(action);
    match args {
        JsonView::Fields(inner) => {
            if inner.dom().contains("input"@) {
                law_fields_are_read_by_key(inner, "input"@, inner["input"@]);
            } else {
                law_missing_fields_are_none(args, "input"@);
            }
        },
        _ => {
            law_missing_fields_are_none(args, "input"@);
        },
    }
}

/// The progress that an answer reports is taken in, action or not. A patch that an
/// action makes has the files that it names noted, and no others.
pub proof fn law_answers_report_progress(
    p: ProgressView,
    item: ResponseItemView,
    text: Seq<char>,
    doc: Fields,
    turn_id: Seq<char>,
    tools: Seq<ToolSpecView>,
    unique: Seq<char>,
    arguments_text: Option<Seq<char>>,
    patch: Fields,
)
    requires
        holds_object(doc, "progress_patch"@, patch) || !doc.dom().contains("progress_patch"@),
    ensures
        ({
            let done = consumed(
                p,
                item,
                text,
                JsonView::Fields(doc),
                turn_id,
                tools,
                unique,
                arguments_text,
            );
            let left = done.progress;
            let kept = if doc.dom().contains("progress_patch"@) {
                patch_digests(p, JsonView::Fields(patch), whole_turn(turn_id))
            } else {
                Seq::empty()
            };
            let q = if doc.dom().contains("progress_patch"@) {
                patched(p, JsonView::Fields(patch))
            } else {
                p
            };
            &&& left.intent == q.intent
            &&& left.todo == q.todo
            &&& left.next_step == q.next_step
            &&& left.assumptions == q.assumptions
            &&& left.last_error == q.last_error
            &&& left.warnings == q.warnings
            &&& left.todo_id_seq == q.todo_id_seq
            &&& !doc.dom().contains("action"@) || doc["action"@] == JsonView::Null
                ==> left.files_touched == q.files_touched && left.digest_seq == q.digest_seq + 1
                && done.digests.len() == kept.len() + 1 && done.digests.drop_last() == kept
            &&& doc.dom().contains("action"@) && doc["action"@] != JsonView::Null
                ==> left.digest_seq == q.digest_seq && done.digests == kept
        }),
{
    if doc.dom().contains("progress_patch"@) {
        law_fields_are_read_by_key(doc, "progress_patch"@, JsonView::Fields(patch));
    } else {
        law_missing_fields_are_none(JsonView::Fields(doc), "progress_patch"@);
    }
    if doc.dom().contains("action"@) {
        law_fields_are_read_by_key(doc, "action"@, doc["action"@]);
    } else {
        law_missing_fields_are_none(JsonView::Fields(doc), "action"@);
    }
    let done = consumed(
        p,
        item,
        text,
        JsonView::Fields(doc),
        turn_id,
        tools,
        unique,
        arguments_text,
    );
    let kept = if doc.dom().contains("progress_patch"@) {
        patch_digests(p, JsonView::Fields(patch), whole_turn(turn_id))
    } else {
        Seq::empty()
    };
    if !doc.dom().contains("action"@) || doc["action"@] == JsonView::Null {
        assert(done.digests.drop_last() =~= kept);
    }
}

/// A patch that an action makes has the files that it names noted, besides those noted
/// before, and an action of another tool has none noted.
pub proof fn law_actions_touch_files(
    p: ProgressView,
    item: ResponseItemView,
    text: Seq<char>,
    doc: Fields,
    turn_id: Seq<char>,
    tools: Seq<ToolSpecView>,
    unique: Seq<char>,
    action: Fields,
    tool: Seq<char>,
    k: int,
    inner: Fields,
    input: Seq<char>,
    file: Seq<char>,
)
    requires
        holds_object(doc, "action"@, action),
        says(action, "tool"@, tool),
        holds_object(action, "arguments"@, inner),
        says(inner, "input"@, input),
        !doc.dom().contains("progress_patch"@),
        0 <= k < tools.len(),
        called(tools[k]) == tool,
        forall|i: int| k < i < tools.len() ==> called(#[trigger] tools[i]) != tool,
        ascending(p.files_touched),
    ensures
        ({
            let left = consumed(
                p,
                item,
                text,
                JsonView::Fields(doc),
                turn_id,
                tools,
                unique,
                action_text(JsonView::Fields(doc)),
            ).progress.files_touched;
            &&& tool == "apply_patch"@ ==> (left.contains(file) <==> p.files_touched.contains(file)
                || patch_paths(input).contains(file))
            &&& tool != "apply_patch"@ ==> left == p.files_touched
        }),
{
    lemma_action(doc, action, tool);
    law_tools_are_found_by_name(tools, tool, k);
    law_missing_fields_are_none(JsonView::Fields(doc), "progress_patch"@);
    law_fields_are_read_by_key(action, "arguments"@, JsonView::Fields(inner));
    law_fields_are_read_by_key(inner, "input"@, JsonView::Text(input));
    law_with_files(p.files_touched, patch_paths(input));
}

/// An answer without an action stays as it is, and what it says is stored last: its
/// next step, or else its intent, or else the beginning of its text.
pub proof fn law_answers_without_action_are_digested(
    p: ProgressView,
    item: ResponseItemView,
    text: Seq<char>,
    doc: Fields,
    turn_id: Seq<char>,
    tools: Seq<ToolSpecView>,
    unique: Seq<char>,
    patch: Fields,
    said: Seq<char>,
)
    requires
        !doc.dom().contains("action"@) || doc["action"@] == JsonView::Null,
        p.digest_seq < u64::MAX,
    ensures
        ({
            let left = consumed(
                p,
                item,
                text,
                JsonView::Fields(doc),
                turn_id,
                tools,
                unique,
                None,
            );
            let stored = left.digests.last();
            &&& left.item == item
            &&& left.digests.len() > 0
            &&& stored.entry.kind == DigestKind::Dialog
            &&& stored.entry.turn_ref.turn_id == turn_id
            &&& stored.intent_history.len() == 0
            &&& holds_object(doc, "progress_patch"@, patch) && says(patch, "next_step"@, said)
                ==> stored.entry.dialog_summary == Some(said)
            &&& holds_object(doc, "progress_patch"@, patch) && !patch.dom().contains("next_step"@)
                && says(patch, "intent"@, said) ==> stored.entry.dialog_summary == Some(said)
            &&& !doc.dom().contains("progress_patch"@) ==> left.digests.len() == 1
                && stored.entry.sequence == p.digest_seq && stored.entry.dialog_summary == Some(
                if text.len() <= 300 {
                    text
                } else {
                    text.take(300)
                },
            )
        }),
{
    let all = JsonView::Fields(doc);
    if doc.dom().contains("action"@) {
        law_fields_are_read_by_key(doc, "action"@, doc["action"@]);
    } else {
        law_missing_fields_are_none(all, "action"@);
    }
    if doc.dom().contains("progress_patch"@) {
        law_fields_are_read_by_key(doc, "progress_patch"@, doc["progress_patch"@]);
    } else {
        law_missing_fields_are_none(all, "progress_patch"@);
    }
    if patch.dom().contains("next_step"@) {
        law_fields_are_read_by_key(patch, "next_step"@, patch["next_step"@]);
    } else {
        law_missing_fields_are_none(JsonView::Fields(patch), "next_step"@);
    }
    if says(patch, "intent"@, said) {
        law_fields_are_read_by_key(patch, "intent"@, JsonView::Text(said));
    }
}

/// An action that names no known tool leaves the answer as it is.
pub proof fn law_unknown_tools_are_not_called(
    p: ProgressView,
    item: ResponseItemView,
    text: Seq<char>,
    doc: Fields,
    turn_id: Seq<char>,
    tools: Seq<ToolSpecView>,
    unique: Seq<char>,
    action: Fields,
    tool: Seq<char>,
)
    requires
        holds_object(doc, "action"@, action),
        says(action, "tool"@, tool),
        forall|i: int| 0 <= i < tools.len() ==> called(#[trigger] tools[i]) != tool,
    ensures
        consumed(
            p,
            item,
            text,
            JsonView::Fields(doc),
            turn_id,
            tools,
            unique,
            action_text(JsonView::Fields(doc)),
        ).item == item,
{
    lemma_action(doc, action, tool);
    law_tools_are_found_by_name(tools, tool, 0);
}

proof fn lemma_first_missing(required: Seq<Seq<char>>, args: Fields, from: int, k: int)
    requires
        0 <= from <= k <= required.len(),
        forall|i: int| from <= i < k ==> args.dom().contains(#[trigger] required[i]),
        k < required.len() ==> !args.dom().contains(required[k]),
    ensures
        first_missing(required, JsonView::Fields(args), from) == k,
    decreases k - from,
{
    if from < k {
        assert(args.dom().contains(required[from]));
        law_fields_are_read_by_key(args, required[from], args[required[from]]);
        lemma_first_missing(required, args, from + 1, k);
    } else if from < required.len() {
        law_missing_fields_are_none(JsonView::Fields(args), required[from]);
    }
}

proof fn lemma_texts_of(keys: Seq<Seq<char>>)
    ensures
        texts_of(Seq::new(keys.len(), |i: int| JsonView::Text(keys[i]))) == keys,
    decreases keys.len(),
{
    let items = Seq::new(keys.len(), |i: int| JsonView::Text(keys[i]));
    if keys.len() > 0 {
        lemma_texts_of(keys.drop_last());
        assert(items.drop_last() =~= Seq::new(
            keys.drop_last().len(),
            |i: int| JsonView::Text(keys.drop_last()[i]),
        ));
        assert(keys.drop_last().push(keys.last()) =~= keys);
    } else {
        assert(texts_of(items) =~= keys);
    }
}

/// A call is held up when it lacks a field that its tool requires, and is told the
/// first such field; with all those fields it is not held up.
pub proof fn law_calls_have_what_is_required(
    tools: Seq<ToolSpecView>,
    tool: Seq<char>,
    t: int,
    schema: Fields,
    required: Seq<Seq<char>>,
    arguments: Seq<char>,
    args: Fields,
    patch_error: Option<Seq<char>>,
    k: int,
)
    requires
        0 <= t < tools.len(),
        called(tools[t]) == tool,
        forall|i: int| t < i < tools.len() ==> called(#[trigger] tools[i]) != tool,
        tools[t] matches ToolSpecView::Function(f) && f.parameters == JsonView::Fields(schema),
        schema.contains_pair(
            "required"@,
            JsonView::List(Seq::new(required.len(), |i: int| JsonView::Text(required[i]))),
        ),
        0 <= k <= required.len(),
        forall|i: int| 0 <= i < k ==> args.dom().contains(#[trigger] required[i]),
        k < required.len() ==> !args.dom().contains(required[k]),
    ensures
        ({
            let said = call_refused(
                tools,
                tool,
                ToolPayloadView::Function { arguments },
                Some(JsonView::Fields(args)),
                patch_error,
            );
            &&& k == required.len() ==> said is None
            &&& k < required.len() ==> said == Some(
                "进度副信道校验：工具 "@ + tool + " 缺必填字段「"@ + required[k] + "」"@,
            )
        }),
{
    law_tools_are_found_by_name(tools, tool, t);
    let list = Seq::new(required.len(), |i: int| JsonView::Text(required[i]));
    law_fields_are_read_by_key(schema, "required"@, JsonView::List(list));
    lemma_texts_of(required);
    lemma_first_missing(required, args, 0, k);
}

/// A call with free text is held up when the text is blank, and a patch when it
/// cannot be read; a call of a tool that is not known is not held up.
pub proof fn law_free_texts_are_checked(
    tools: Seq<ToolSpecView>,
    tool: Seq<char>,
    t: int,
    input: Seq<char>,
    read: Option<JsonView>,
    patch_error: Option<Seq<char>>,
)
    ensures
        ({
            let said = call_refused(
                tools,
                tool,
                ToolPayloadView::Custom { input },
                read,
                patch_error,
            );
            let found = 0 <= t < tools.len() && called(tools[t]) == tool && (forall|i: int|
                t < i < tools.len() ==> called(#[trigger] tools[i]) != tool) && tools[t] is Freeform;
            &&& found && tool == "apply_patch"@ ==> (said is Some <==> patch_error is Some)
            &&& found && tool == "apply_patch"@ ==> (patch_error matches Some(why) ==> said == Some(
                "进度副信道校验：apply_patch 语法解析失败："@ + why,
            ))
            &&& found && tool != "apply_patch"@ && said is Some ==> said == Some(
                "进度副信道校验：工具 "@ + tool + " 的 input 为空"@,
            )
            &&& found && tool != "apply_patch"@ ==> (said is Some <==> forall|i: int|
                0 <= i < input.len() ==> white_space(#[trigger] input[i]))
            &&& (forall|i: int| 0 <= i < tools.len() ==> called(#[trigger] tools[i]) != tool) ==> said
                is None
        }),
{
    law_tools_are_found_by_name(tools, tool, t);
    law_blank_texts_are_white_space(input);
}

/// A call is recorded and then made. One that is refused is answered in its place,
/// under its own id and as a failure, which is noted too. What is no call is
/// finalized, and a fatal one ends the turn without further ado.
pub proof fn law_calls_are_made_or_answered(
    call: ToolCallView,
    enabled: bool,
    refused: Option<Seq<char>>,
    message: Seq<char>,
)
    ensures
        refused is None || !enabled ==> {
            let plan = plan_for(RoutedView::Call(call), enabled, refused);
            &&& plan.actions == seq![
                TurnActionView::AcceptMailbox,
                TurnActionView::RecordCompleted,
                TurnActionView::RunTool(call),
            ]
            &&& plan.fatal is None
            &&& plan.needs_follow_up
        },
        enabled && refused == Some(message) ==> {
            let plan = plan_for(RoutedView::Call(call), enabled, refused);
            let answer = ResponseItemView::FunctionCallOutput {
                id: None,
                call_id: call.call_id,
                output: FunctionCallOutputPayloadView {
                    text: Some(message),
                    success: Some(false),
                },
            };
            &&& plan.actions == seq![
                TurnActionView::AcceptMailbox,
                TurnActionView::RecordCompleted,
                TurnActionView::RecordAnswer(answer),
                TurnActionView::ReflowFailure(answer),
            ]
            &&& plan.fatal is None
            &&& plan.needs_follow_up
        },
        !plan_for(RoutedView::NoCall, enabled, refused).needs_follow_up,
        plan_for(RoutedView::RespondToModel(message), enabled, refused).needs_follow_up,
        plan_for(RoutedView::NoCall, enabled, refused).actions == seq![TurnActionView::Finalize],
        plan_for(RoutedView::Fatal(message), enabled, refused).fatal == Some(message),
        plan_for(RoutedView::Fatal(message), enabled, refused).actions.len() == 0,
        ({
            let answer = ResponseItemView::FunctionCallOutput {
                id: None,
                call_id: Seq::empty(),
                output: FunctionCallOutputPayloadView { text: Some(message), success: None },
            };
            let actions = plan_for(RoutedView::RespondToModel(message), enabled, refused).actions;
            &&& actions[0] == TurnActionView::RecordCompleted
            &&& actions.last() == TurnActionView::RecordAnswer(answer)
            &&& enabled ==> actions.len() == 3 && actions[1] == TurnActionView::ReflowFailure(answer)
            &&& !enabled ==> actions.len() == 2
        }),
{
    let opening = seq![TurnActionView::AcceptMailbox, TurnActionView::RecordCompleted];
    assert(opening + seq![TurnActionView::RunTool(call)] =~= seq![
        TurnActionView::AcceptMailbox,
        TurnActionView::RecordCompleted,
        TurnActionView::RunTool(call),
    ]);
    let answer = ResponseItemView::FunctionCallOutput {
        id: None,
        call_id: call.call_id,
        output: FunctionCallOutputPayloadView { text: Some(message), success: Some(false) },
    };
    assert(opening + seq![
        TurnActionView::RecordAnswer(answer),
        TurnActionView::ReflowFailure(answer),
    ] =~= seq![
        TurnActionView::AcceptMailbox,
        TurnActionView::RecordCompleted,
        TurnActionView::RecordAnswer(answer),
        TurnActionView::ReflowFailure(answer),
    ]);
}

/// A finalized item is shown as complete and then recorded with what is known of it,
/// and shown as started first when it was not shown yet. What it says last is what is
/// known of it.
pub proof fn law_finalized_items_are_shown(done: FinalizedTurnItemView, active: bool)
    ensures
        ({
            let plan = plan_after_finalize(Some(done), active);
            let end = seq![
                TurnActionView::EmitCompleted(done.turn_item),
                TurnActionView::RecordCompletedWithFacts(Some(done.facts)),
            ];
            &&& active ==> plan.actions == end
            &&& !active ==> plan.actions.len() == 3 && plan.actions.skip(1) == end
                && (plan.actions[0] matches TurnActionView::EmitStarted(first) && first == started(
                done.turn_item,
            ))
            &&& plan.last_agent_message == done.facts.last_agent_message
            &&& !plan.needs_follow_up
        }),
        plan_after_finalize(None, active).actions == seq![
            TurnActionView::RecordCompletedWithFacts(None),
        ],
{
    let plan = plan_after_finalize(Some(done), active);
    let end = seq![
        TurnActionView::EmitCompleted(done.turn_item),
        TurnActionView::RecordCompletedWithFacts(Some(done.facts)),
    ];
    if active {
        assert(plan.actions =~= end);
    } else {
        assert(plan.actions.skip(1) =~= end);
    }
}

/// What the assistant said is its output texts, one after the other; what went in is
/// not among them, and what others said is not the assistant's.
pub proof fn law_assistant_said_its_output(
    content: Seq<ContentItemView>,
    piece: ContentItemView,
    role: Seq<char>,
    id: Option<Seq<char>>,
    phase: Option<MessagePhase>,
)
    ensures
        output_text(Seq::empty()).len() == 0,
        piece matches ContentItemView::OutputText { text } ==> output_text(content.push(piece))
            == output_text(content) + text,
        !(piece is OutputText) ==> output_text(content.push(piece)) == output_text(content),
        role == "assistant"@ ==> assistant_text(
            ResponseItemView::Message { id, role, content, phase },
        ) == Some(output_text(content)),
        role != "assistant"@ ==> assistant_text(
            ResponseItemView::Message { id, role, content, phase },
        ) is None,
{
    assert(content.push(piece).drop_last() =~= content);
}

/// What the user sees of a message is its text without hidden markup, unless nothing
/// but white space is left of it. Mail waits for the next turn after such a message,
/// unless it is commentary, and after an image.
pub proof fn law_visible_messages_defer_mail(
    id: Option<Seq<char>>,
    content: Seq<ContentItemView>,
    phase: Option<MessagePhase>,
    stripped: Seq<char>,
    image: JsonView,
)
    requires
        output_text(content).len() > 0,
    ensures
        ({
            let item = ResponseItemView::Message { id, role: "assistant"@, content, phase };
            let seen = exists|i: int| 0 <= i < stripped.len() && !white_space(#[trigger] stripped[i]);
            &&& seen ==> visible_message(item, stripped) == Some(stripped)
            &&& !seen ==> visible_message(item, stripped) is None
            &&& defers_mail(item, stripped) <==> seen && phase != Some(MessagePhase::Commentary)
        }),
        defers_mail(ResponseItemView::ImageGenerationCall(image), stripped),
{
    law_blank_texts_are_white_space(stripped);
}

/// The answer of a tool keeps its id and its output; that of an external tool is the
/// answer of a function.
pub proof fn law_answers_keep_their_output(
    call_id: Seq<char>,
    name: Option<Seq<char>>,
    output: FunctionCallOutputPayloadView,
    input: ResponseInputItemView,
)
    ensures
        answer_item(ResponseInputItemView::FunctionCallOutput { call_id, output }) == Some(
            ResponseItemView::FunctionCallOutput { id: None, call_id, output },
        ),
        answer_item(ResponseInputItemView::McpToolCallOutput { call_id, output }) == answer_item(
            ResponseInputItemView::FunctionCallOutput { call_id, output },
        ),
        answer_item(ResponseInputItemView::CustomToolCallOutput { call_id, name, output }) == Some(
            ResponseItemView::CustomToolCallOutput { id: None, call_id, name, output },
        ),
        !(input is Message) ==> answer_item(input) is Some,
        input is Message ==> answer_item(input) is None,
        input matches ResponseInputItemView::ToolSearchOutput {
            call_id: found,
            status,
            execution,
            tools,
        } ==> (answer_item(input) matches Some(
            ResponseItemView::ToolSearchOutput { call_id: c, status: s, execution: e, tools: t, .. },
        ) && c == Some(found) && s == status && e == execution && t == tools),
{
}

/// What is known of a finished message is its visible text, which the finished
/// message holds alone, and the citation that it carries or that was found in it.
pub proof fn law_finished_messages_are_known(
    message: AgentMessageItemView,
    stripped: Seq<char>,
    citation: Option<JsonView>,
)
    ensures
        ({
            let done = finished_message(message, stripped, citation);
            let facts = facts_of(TurnItemView::AgentMessage(done));
            let seen = exists|i: int| 0 <= i < stripped.len() && !white_space(#[trigger] stripped[i]);
            &&& done.id == message.id
            &&& done.phase == message.phase
            &&& done.content == seq![stripped]
            &&& message.memory_citation is Some ==> facts.memory_citation == message.memory_citation
            &&& message.memory_citation is None ==> facts.memory_citation == citation
            &&& seen ==> facts.last_agent_message == Some(stripped)
            &&& !seen ==> facts.last_agent_message is None
            &&& facts.defers_mailbox_delivery_to_next_turn <==> seen && message.phase != Some(
                MessagePhase::Commentary,
            )
        }),
{
    reveal_with_fuel(all_texts, 2);
    assert(seq![stripped].drop_last() =~= Seq::<Seq<char>>::empty());
    assert(all_texts(seq![stripped]) =~= stripped);
    law_blank_texts_are_white_space(stripped);
}

/// Messages, reasoning, searches of the web and images are shown, and nothing else is.
pub proof fn law_shown_items(item: ResponseItemView)
    ensures
        shown(item) <==> item is Message || item is Reasoning || item is WebSearchCall
            || item is ImageGenerationCall,
{
}

/// An image holds mail back and says nothing; what else is shown does neither.
pub proof fn law_images_hold_mail_back(image: ImageGenerationItemView, item: TurnItemView)
    ensures
        facts_of(TurnItemView::ImageGeneration(image)).defers_mailbox_delivery_to_next_turn,
        facts_of(TurnItemView::ImageGeneration(image)).last_agent_message is None,
        item is Other ==> !facts_of(item).defers_mailbox_delivery_to_next_turn && facts_of(
            item,
        ).last_agent_message is None && facts_of(item).memory_citation is None,
{
}

/// An image that starts has its id and nothing of its result yet; any other item
/// starts as it is.
pub proof fn law_items_start_without_result(image: ImageGenerationItemView, item: TurnItemView)
    ensures
        started(TurnItemView::ImageGeneration(image)) matches TurnItemView::ImageGeneration(first)
            && first.id == image.id && first.status == "in_progress"@ && first.result.len() == 0
            && first.saved_path is None && first.revised_prompt is None,
        !(item is ImageGeneration) ==> started(item) == item,
{
}

/// Recording an item goes by what is known of it: mail waits as that says, its
/// citation is the known one, and without one it is looked for in what the assistant
/// said. Memory is marked only where that is asked for and others' words come in.
pub proof fn law_recording_goes_by_what_is_known(
    item: ResponseItemView,
    done: FinalizedTurnItemView,
    stripped: Seq<char>,
    disable: bool,
)
    ensures
        record_plan(item, Some(done.facts), stripped, disable).defer_mailbox_delivery
            == done.facts.defers_mailbox_delivery_to_next_turn,
        record_plan(item, None, stripped, disable).defer_mailbox_delivery == defers_mail(
            item,
            stripped,
        ),
        done.facts.memory_citation matches Some(citation) ==> record_plan(
            item,
            Some(done.facts),
            stripped,
            disable,
        ).citation == CitationSourceView::Known(citation),
        assistant_text(item) matches Some(said) ==> record_plan(item, None, stripped, disable).citation
            == CitationSourceView::Text(said),
        assistant_text(item) is None ==> record_plan(item, None, stripped, disable).citation
            == CitationSourceView::Nowhere,
        record_plan(item, None, stripped, disable).mark_memory_polluted <==> disable && (
        item is ToolSearchCall || item is ToolSearchOutput || item is WebSearchCall),
{
}

} // verus!
