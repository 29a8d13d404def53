//! Answers that call a tool and report progress in one document.
//!
//! Such an answer is an assistant message whose one text is an object with the
//! fields `action`, `progress_patch` and `digest_override`. The action becomes
//! an ordinary tool call, and the rest goes into the progress.

use vstd::prelude::*;
use vstd::string::*;

use crate::adapters::gemini_schema::texts_of;
use crate::adapters::common::only_object;
use crate::codec::parse_json;
use crate::codec::parsed_json;
use crate::codec::write_json;
use crate::codec::written;
use crate::json::doc_field;
use crate::json::docs;
use crate::json::list_field;
use crate::json::or_empty;
use crate::json::text_field;
use crate::json::Json;
use crate::json::JsonView;
use crate::models::ContentItem;
use crate::models::ContentItemView;
use crate::models::ResponseItem;
use crate::models::ResponseItemView;
use crate::progress::channel::patch_digests;
use crate::progress::channel::patched;
use crate::progress::channel::stored_digest;
use crate::progress::channel::touched_paths;
use crate::progress::channel::whole_turn;
use crate::progress::channel::with_files;
use crate::progress::state::DigestEntry;
use crate::progress::state::DigestEntryView;
use crate::progress::state::DigestKind;
use crate::progress::state::IntentChange;
use crate::progress::state::IntentChangeView;
use crate::progress::state::ProgressDigestItem;
use crate::progress::state::ProgressDigestItemView;
use crate::progress::state::ProgressState;
use crate::progress::state::ProgressView;
use crate::progress::state::TurnRef;
use crate::text::cat3;
use crate::text::is_blank;
use crate::text::blank;
use crate::text::same_text;
use crate::text::take_chars;
use crate::tool_name::flat_name;
use crate::tool_name::law_flat_of_tool_of_flat;
use crate::tool_name::tool_of_flat;
use crate::tool_name::ToolName;
use crate::tool_name::ToolNameView;
use crate::tool_spec::flatten_namespaces_for_flat_wire;
use crate::tool_spec::flattened;
use crate::tool_spec::spec_name;
use crate::tool_spec::ToolSpec;
use crate::tool_spec::ToolSpecView;

verus! {

/// The last tool with a flat name.
pub open spec fn tool_named(tools: Seq<ToolSpecView>, name: Seq<char>) -> Option<ToolSpecView>
    decreases tools.len(),
{
    if tools.len() == 0 {
        None
    } else if spec_name(tools.last()) == name {
        Some(tools.last())
    } else {
        tool_named(tools.drop_last(), name)
    }
}

/// Finds the last tool with a flat name among flattened tools.
pub fn find_tool<'a>(tools: &'a Vec<ToolSpec>, name: &str) -> (r: Option<&'a ToolSpec>)
    ensures
        r.deep_view() == tool_named(tools.deep_view(), name@),
{
    let ghost all = tools.deep_view();
    let mut k: usize = tools.len();
    assert(all.take(k as int) =~= all);
    while k > 0
        invariant
            k <= tools@.len(),
            all == tools.deep_view(),
            tool_named(all, name@) == tool_named(all.take(k as int), name@),
        decreases k,
    {
        proof {
            assert(all.take(k as int).drop_last() =~= all.take(k - 1));
            assert(all.take(k as int).last() == tools@[k - 1]@);
        }
        if same_text(tools[k - 1].name(), name) {
            return Some(&tools[k - 1]);
        }
        k -= 1;
    }
    None
}

/// The arguments of an action; null when it has none.
pub open spec fn action_arguments(action: JsonView) -> JsonView {
    match doc_field(action, "arguments"@) {
        Some(arguments) => arguments,
        None => JsonView::Null,
    }
}

/// The free text of arguments: what they hold as `input`, or else all of them as
/// they are written.
pub open spec fn free_input(arguments: JsonView, all: Option<Seq<char>>) -> Seq<char> {
    match text_field(arguments, "input"@) {
        Some(input) => input,
        None => or_empty(all),
    }
}

/// The id of a call: the tool's flat name and something unique.
pub open spec fn call_id_of(tool: Seq<char>, unique: Seq<char>) -> Seq<char> {
    tool + "-"@ + unique
}

/// The call that an action becomes: one with free text for a tool that takes
/// such, and one with arguments for any other. None when the action names no
/// known tool. The arguments are given both as a document and as written.
pub open spec fn synthesized(
    action: JsonView,
    tools: Seq<ToolSpecView>,
    unique: Seq<char>,
    arguments_text: Option<Seq<char>>,
) -> Option<ResponseItemView> {
    match text_field(action, "tool"@) {
        Some(tool) => {
            let named = tool_of_flat(tool);
            match tool_named(tools, tool) {
                Some(ToolSpecView::Freeform(_)) => Some(
                    ResponseItemView::CustomToolCall {
                        id: None,
                        status: Some("completed"@),
                        call_id: call_id_of(tool, unique),
                        name: named.name,
                        namespace: named.namespace,
                        input: free_input(action_arguments(action), arguments_text),
                    },
                ),
                Some(_) => Some(
                    ResponseItemView::FunctionCall {
                        id: None,
                        name: named.name,
                        namespace: named.namespace,
                        arguments: or_empty(arguments_text),
                        call_id: call_id_of(tool, unique),
                    },
                ),
                None => None,
            }
        },
        None => None,
    }
}

/// A call that was made of an action, with its tool's flat name and its
/// arguments.
#[derive(Debug)]
pub struct SynthesizedCall {
    pub item: ResponseItem,
    pub tool: String,
    pub arguments: Json,
}

fn or_nothing(text: Option<String>) -> (r: String)
    ensures
        r@ == or_empty(text.deep_view()),
{
    match text {
        Some(t) => t,
        None => {
            let empty = String::new();
            assert(empty@ =~= Seq::<char>::empty());
            empty
        },
    }
}

/// Makes a call of an action, given something unique and the arguments as they
/// are written.
pub fn synthesize_call(
    action: &Json,
    tools: &Vec<ToolSpec>,
    unique: &str,
    arguments_text: Option<String>,
) -> (r: Option<SynthesizedCall>)
    ensures
        match r {
            Some(call) => {
                &&& synthesized(action@, tools.deep_view(), unique@, arguments_text.deep_view())
                    == Some(call.item@)
                &&& text_field(action@, "tool"@) == Some(call.tool@)
                &&& call.arguments@ == action_arguments(action@)
            },
            None => synthesized(
                action@,
                tools.deep_view(),
                unique@,
                arguments_text.deep_view(),
            ) is None,
        },
{
    let tool = match action.text_at("tool") {
        Some(tool) => tool,
        None => {
            return None;
        },
    };
    let freeform = match find_tool(tools, tool.as_str()) {
        Some(ToolSpec::Freeform(_)) => true,
        Some(_) => false,
        None => {
            return None;
        },
    };
    let arguments = match action.get("arguments") {
        Some(arguments) => arguments.copy(),
        None => Json::Null,
    };
    let named = ToolName::from_flat_wire_name(tool.as_str());
    let call_id = cat3(tool.as_str(), "-", unique);
    let item = if freeform {
        let input = match arguments.text_at("input") {
            Some(input) => input,
            None => or_nothing(arguments_text),
        };
        ResponseItem::CustomToolCall {
            id: None,
            status: Some("completed".to_owned()),
            call_id,
            name: named.name,
            namespace: named.namespace,
            input,
        }
    } else {
        ResponseItem::FunctionCall {
            id: None,
            name: named.name,
            namespace: named.namespace,
            arguments: or_nothing(arguments_text),
            call_id,
        }
    };
    Some(SynthesizedCall { item, tool, arguments })
}

/// A lower-case hexadecimal digit.
pub open spec fn hex_digit(c: char) -> bool {
    ('0' <= c <= '9') || ('a' <= c <= 'f')
}

/// A random UUID as text: groups of lower-case hexadecimal digits between
/// hyphens, with the number of its version at the head of the third group.
pub open spec fn uuid_text(s: Seq<char>) -> bool {
    &&& s.len() == 36
    &&& forall|i: int|
        #![trigger s[i]]
        0 <= i < 36 ==> if i == 8 || i == 13 || i == 18 || i == 23 {
            s[i] == '-'
        } else {
            hex_digit(s[i])
        }
    &&& s[14] == '4'
}

/// `uuid::Uuid::new_v4`, written out: a random UUID as text. Which one is left
/// to chance.
#[verifier::external_body]
fn fresh_uuid() -> (r: String)
    ensures
        uuid_text(r@),
{
    uuid::Uuid::new_v4().to_string()
}

/// Makes a call of an action, under a fresh id.
pub fn synthesize_call_from_action(action: &Json, tools: &Vec<ToolSpec>) -> (r: Option<
    SynthesizedCall,
>)
    ensures
        exists|unique: Seq<char>|
            uuid_text(unique) && {
                let wanted = #[trigger] synthesized(
                    action@,
                    tools.deep_view(),
                    unique,
                    written(action_arguments(action@)),
                );
                match r {
                    Some(call) => wanted == Some(call.item@) && text_field(action@, "tool"@) == Some(
                        call.tool@,
                    ) && call.arguments@ == action_arguments(action@),
                    None => wanted is None,
                }
            },
{
    let text = match action.get("arguments") {
        Some(arguments) => write_json(arguments),
        None => write_json(&Json::Null),
    };
    let unique = fresh_uuid();
    synthesize_call(action, tools, unique.as_str(), text)
}

/// The one text of an assistant message; none for any other item.
pub open spec fn envelope_text(item: ResponseItemView) -> Option<Seq<char>> {
    match item {
        ResponseItemView::Message { role, content, .. } => if role == "assistant"@ && content.len()
            == 1 {
            match content[0] {
                ContentItemView::OutputText { text } => Some(text),
                _ => None,
            }
        } else {
            None
        },
        _ => None,
    }
}

/// The one text of an assistant message.
pub fn text_of_envelope(item: &ResponseItem) -> (r: Option<String>)
    ensures
        r.deep_view() == envelope_text(item@),
{
    if let ResponseItem::Message { role, content, .. } = item {
        if same_text(role.as_str(), "assistant") && content.len() == 1 {
            assert(content.deep_view()[0] == content@[0]@);
            if let ContentItem::OutputText { text } = &content[0] {
                return Some(text.clone());
            }
        }
    }
    None
}

/// What stands under a key, when it is not null.
pub open spec fn present(doc: JsonView, key: Seq<char>) -> Option<JsonView> {
    match doc_field(doc, key) {
        Some(JsonView::Null) => None,
        other => other,
    }
}

/// What an answer without an action says: its next step or its intent, or else
/// the beginning of its text.
pub open spec fn dialog_summary(doc: JsonView, text: Seq<char>) -> Seq<char> {
    let patch = doc_field(doc, "progress_patch"@);
    match patch_text(patch, "next_step"@) {
        Some(next_step) => next_step,
        None => match patch_text(patch, "intent"@) {
            Some(intent) => intent,
            None => if text.len() <= 300 {
                text
            } else {
                text.take(300)
            },
        },
    }
}

/// The text that a patch holds under a key.
pub open spec fn patch_text(patch: Option<JsonView>, key: Seq<char>) -> Option<Seq<char>> {
    match patch {
        Some(p) => text_field(p, key),
        None => None,
    }
}

/// The digest entry of an answer without an action.
pub open spec fn dialog_entry(turn_id: Seq<char>, summary: Seq<char>) -> DigestEntryView {
    DigestEntryView {
        kind: DigestKind::Dialog,
        tool: None,
        brief_result: None,
        dialog_summary: Some(summary),
        turn_ref: whole_turn(turn_id),
        sequence: 0,
        confidence: None,
    }
}

/// What an answer leaves behind: the item that takes its place, the progress,
/// and what has to be stored.
#[verifier::ext_equal]
pub struct ConsumedView {
    pub item: ResponseItemView,
    pub progress: ProgressView,
    pub digests: Seq<ProgressDigestItemView>,
}

/// The progress after the patch of an answer.
pub open spec fn after_patch(p: ProgressView, doc: JsonView) -> ProgressView {
    match only_object(doc_field(doc, "progress_patch"@)) {
        Some(patch) => patched(p, patch),
        None => p,
    }
}

/// What the patch of an answer stores.
pub open spec fn patch_stores(p: ProgressView, doc: JsonView, turn_id: Seq<char>) -> Seq<
    ProgressDigestItemView,
> {
    match only_object(doc_field(doc, "progress_patch"@)) {
        Some(patch) => patch_digests(p, patch, whole_turn(turn_id)),
        None => Seq::empty(),
    }
}

/// What an answer leaves behind, given the document that was read from its text.
/// The patch is applied first. An action becomes a call and the files that it
/// names are noted; an action that names no known tool leaves the item as it is.
/// Without an action, a summary is stored.
pub open spec fn consumed(
    p: ProgressView,
    item: ResponseItemView,
    text: Seq<char>,
    doc: JsonView,
    turn_id: Seq<char>,
    tools: Seq<ToolSpecView>,
    unique: Seq<char>,
    arguments_text: Option<Seq<char>>,
) -> ConsumedView {
    let q = after_patch(p, doc);
    let stored = patch_stores(p, doc, turn_id);
    match present(doc, "action"@) {
        Some(action) => match synthesized(action, tools, unique, arguments_text) {
            Some(call) => ConsumedView {
                item: call,
                progress: ProgressView {
                    files_touched: with_files(
                        q.files_touched,
                        touched_paths(
                            text_field(action, "tool"@)->Some_0,
                            action_arguments(action),
                        ),
                    ),
                    ..q
                },
                digests: stored,
            },
            None => ConsumedView { item, progress: q, digests: stored },
        },
        None => ConsumedView {
            item,
            progress: ProgressView { digest_seq: q.digest_seq + 1, ..q },
            digests: stored.push(
                stored_digest(
                    q,
                    dialog_entry(turn_id, dialog_summary(doc, text)),
                    Seq::<IntentChangeView>::empty(),
                ),
            ),
        },
    }
}

/// Whether the counters have room for an answer: for its patch and, when it has no
/// action, for its summary.
pub open spec fn room_for_answer(p: ProgressView, doc: JsonView) -> bool {
    let q = after_patch(p, doc);
    &&& q.todo_id_seq <= u64::MAX
    &&& q.digest_seq + (if present(doc, "action"@) is Some {
        0int
    } else {
        1
    }) <= u64::MAX
}

/// There is room for an answer exactly where the counters still fit after it,
/// whatever tools there are.
pub proof fn law_room_is_what_an_answer_needs(
    p: ProgressView,
    item: ResponseItemView,
    text: Seq<char>,
    doc: JsonView,
    turn_id: Seq<char>,
    tools: Seq<ToolSpecView>,
    unique: Seq<char>,
    arguments_text: Option<Seq<char>>,
)
    ensures
        room_for_answer(p, doc) <==> {
            let left = consumed(p, item, text, doc, turn_id, tools, unique, arguments_text);
            left.progress.todo_id_seq <= u64::MAX && left.progress.digest_seq <= u64::MAX
        },
{
}

fn has_room_for_answer(progress: &ProgressState, doc: &Json) -> (r: bool)
    ensures
        r == room_for_answer(progress@, doc@),
{
    let acts = match doc.get("action") {
        Some(action) => !action.is_null(),
        None => false,
    };
    let mut digests: u64 = progress.digest_seq;
    if let Some(patch) = doc.get("progress_patch") {
        if patch.is_object() {
            match progress.counters_after(patch) {
                Some((_, after)) => {
                    digests = after;
                },
                None => {
                    return false;
                },
            }
        }
    }
    acts || digests < u64::MAX
}

fn summarize(doc: &Json, text: &str) -> (r: String)
    ensures
        r@ == dialog_summary(doc@, text@),
{
    if let Some(patch) = doc.get("progress_patch") {
        if let Some(next_step) = patch.text_at("next_step") {
            return next_step;
        }
        if let Some(intent) = patch.text_at("intent") {
            return intent;
        }
    }
    take_chars(text, 300)
}

/// Takes an answer apart, given the document that was read from its text,
/// something unique and the action's arguments as they are written.
pub fn consume_envelope(
    progress: &mut ProgressState,
    item: ResponseItem,
    text: &str,
    doc: &Json,
    turn_id: &str,
    tools: &Vec<ToolSpec>,
    unique: &str,
    arguments_text: Option<String>,
) -> (r: (ResponseItem, Vec<ProgressDigestItem>))
    requires
        room_for_answer(old(progress)@, doc@),
    ensures
        (ConsumedView { item: r.0@, progress: final(progress)@, digests: r.1.deep_view() })
            == consumed(
            old(progress)@,
            item@,
            text@,
            doc@,
            turn_id@,
            tools.deep_view(),
            unique@,
            arguments_text.deep_view(),
        ),
{
    let ghost before = progress@;
    let turn_ref = TurnRef { turn_id: turn_id.to_owned(), item_index: None };
    let mut digests: Vec<ProgressDigestItem> = Vec::new();
    assert(digests.deep_view() =~= Seq::<ProgressDigestItemView>::empty());
    if let Some(patch) = doc.get("progress_patch") {
        if patch.is_object() {
            digests = progress.apply_progress_patch(patch, &turn_ref);
        }
    }
    let ghost stored = digests.deep_view();
    assert(progress@ == after_patch(before, doc@));
    assert(stored == patch_stores(before, doc@, turn_id@));
    if let Some(override_doc) = doc.get("digest_override") {
        if !override_doc.is_null() {
            let _ = progress.consume_digest_override(override_doc);
        }
    }
    if let Some(action) = doc.get("action") {
        if !action.is_null() {
            return match synthesize_call(action, tools, unique, arguments_text) {
                Some(call) => {
                    let _ = progress.derive_files_touched_from_args(
                        call.tool.as_str(),
                        &call.arguments,
                    );
                    (call.item, digests)
                },
                None => (item, digests),
            };
        }
    }
    let summary = summarize(doc, text);
    let entry = DigestEntry {
        kind: DigestKind::Dialog,
        tool: None,
        brief_result: None,
        dialog_summary: Some(summary),
        turn_ref,
        sequence: 0,
        confidence: None,
    };
    let history: Vec<IntentChange> = Vec::new();
    assert(history.deep_view() =~= Seq::<IntentChangeView>::empty());
    let digest = progress.append_digest_to_l0(entry, history);
    let ghost added = digest@;
    digests.push(digest);
    assert(digests.deep_view() =~= stored.push(added));
    (item, digests)
}

/// The arguments of an answer's action, as they are written.
pub open spec fn action_text(doc: JsonView) -> Option<Seq<char>> {
    match present(doc, "action"@) {
        Some(action) => written(action_arguments(action)),
        None => None,
    }
}

/// Whether an answer leaves this behind, under something unique.
pub open spec fn leaves_behind(
    p: ProgressView,
    item: ResponseItemView,
    turn_id: Seq<char>,
    specs: Seq<ToolSpecView>,
    unique: Seq<char>,
    left: ConsumedView,
) -> bool {
    let text = envelope_text(item)->0;
    let doc = parsed_json(text)->0;
    left == consumed(p, item, text, doc, turn_id, flattened(specs), unique, action_text(doc))
}

/// What became of an answer.
#[derive(Debug)]
pub enum Consumption {
    /// The item stays as it is; it is no such answer.
    Untouched(ResponseItem),
    /// The answer was taken apart.
    Taken { item: ResponseItem, digests: Vec<ProgressDigestItem> },
    /// The counters have no room left; nothing was done.
    Full(ResponseItem),
}

/// Takes an answer of a model apart: the patch goes into the progress and the
/// action becomes a call. Any other item stays as it is.
pub fn consume_progress_channel_output(
    progress: &mut ProgressState,
    item: ResponseItem,
    turn_id: &str,
    specs: &Vec<ToolSpec>,
) -> (r: Consumption)
    ensures
        ({
            let read = match envelope_text(item@) {
                Some(text) => parsed_json(text),
                None => None,
            };
            match r {
                Consumption::Untouched(same) => read is None && same == item && final(progress)@
                    == old(progress)@,
                Consumption::Full(same) => read is Some && !room_for_answer(
                    old(progress)@,
                    read->0,
                ) && same == item && final(progress)@ == old(progress)@,
                Consumption::Taken { item: taken, digests } => read is Some && room_for_answer(
                    old(progress)@,
                    read->0,
                ) && exists|unique: Seq<char>| uuid_text(unique) && #[trigger]
                    leaves_behind(
                        old(progress)@,
                        item@,
                        turn_id@,
                        specs.deep_view(),
                        unique,
                        ConsumedView {
                            item: taken@,
                            progress: final(progress)@,
                            digests: digests.deep_view(),
                        },
                    ),
            }
        }),
{
    let text = match text_of_envelope(&item) {
        Some(text) => text,
        None => {
            return Consumption::Untouched(item);
        },
    };
    let doc = match parse_json(text.as_str()) {
        Some(doc) => doc,
        None => {
            return Consumption::Untouched(item);
        },
    };
    if !has_room_for_answer(progress, &doc) {
        return Consumption::Full(item);
    }
    let tools = flatten_namespaces_for_flat_wire(specs);
    let mut arguments_text: Option<String> = None;
    if let Some(action) = doc.get("action") {
        if !action.is_null() {
            arguments_text =
            match action.get("arguments") {
                Some(arguments) => write_json(arguments),
                None => write_json(&Json::Null),
            };
        }
    }
    let unique = fresh_uuid();
    let ghost before = progress@;
    let ghost given = item@;
    let (taken, digests) = consume_envelope(
        progress,
        item,
        text.as_str(),
        &doc,
        turn_id,
        &tools,
        unique.as_str(),
        arguments_text,
    );
    assert(leaves_behind(
        before,
        given,
        turn_id@,
        specs.deep_view(),
        unique@,
        ConsumedView { item: taken@, progress: progress@, digests: digests.deep_view() },
    ));
    Consumption::Taken { item: taken, digests }
}

/// What a call hands to its tool.
#[derive(Debug, Clone, PartialEq, Eq)]
pub enum ToolPayload {
    /// Arguments, as JSON text.
    Function { arguments: String },
    /// Free text.
    Custom { input: String },
    /// Anything else.
    Other,
}

/// What a `ToolPayload` means.
#[verifier::ext_equal]
pub enum ToolPayloadView {
    Function { arguments: Seq<char> },
    Custom { input: Seq<char> },
    Other,
}

impl View for ToolPayload {
    type V = ToolPayloadView;

    open spec fn view(&self) -> ToolPayloadView {
        match self {
            ToolPayload::Function { arguments } => ToolPayloadView::Function {
                arguments: arguments.deep_view(),
            },
            ToolPayload::Custom { input } => ToolPayloadView::Custom {
                input: input.deep_view(),
            },
            ToolPayload::Other => ToolPayloadView::Other,
        }
    }
}

impl DeepView for ToolPayload {
    type V = ToolPayloadView;

    open spec fn deep_view(&self) -> ToolPayloadView {
        self.view()
    }
}

/// A call of a tool.
#[derive(Debug, Clone, PartialEq, Eq)]
pub struct ToolCall {
    pub tool_name: ToolName,
    pub call_id: String,
    pub payload: ToolPayload,
}

/// What a `ToolCall` means.
#[verifier::ext_equal]
pub struct ToolCallView {
    pub tool_name: ToolNameView,
    pub call_id: Seq<char>,
    pub payload: ToolPayloadView,
}

impl View for ToolCall {
    type V = ToolCallView;

    open spec fn view(&self) -> ToolCallView {
        ToolCallView {
            tool_name: self.tool_name.deep_view(),
            call_id: self.call_id.deep_view(),
            payload: self.payload.deep_view(),
        }
    }
}

impl DeepView for ToolCall {
    type V = ToolCallView;

    open spec fn deep_view(&self) -> ToolCallView {
        self.view()
    }
}

/// The fields that a schema requires; none when it has no such list.
pub open spec fn required_fields(schema: JsonView) -> Option<Seq<Seq<char>>> {
    match list_field(schema, "required"@) {
        Some(items) => Some(texts_of(items)),
        None => None,
    }
}

/// The position of the first field that arguments lack, or the number of fields.
pub open spec fn first_missing(required: Seq<Seq<char>>, args: JsonView, from: int) -> int
    decreases required.len() - from,
{
    if from < 0 || from >= required.len() {
        required.len() as int
    } else if doc_field(args, required[from]) is None {
        from
    } else {
        first_missing(required, args, from + 1)
    }
}

/// What is said of a call that lacks a field.
pub open spec fn missing_text(tool: Seq<char>, field: Seq<char>) -> Seq<char> {
    "进度副信道校验：工具 "@ + tool + " 缺必填字段「"@ + field + "」"@
}

/// What is wrong with the arguments of a call.
pub open spec fn arguments_refused(tool: Seq<char>, schema: JsonView, args: JsonView) -> Option<
    Seq<char>,
> {
    match required_fields(schema) {
        Some(required) => {
            let i = first_missing(required, args, 0);
            if i < required.len() {
                Some(missing_text(tool, required[i]))
            } else {
                None
            }
        },
        None => None,
    }
}

/// What is wrong with the free text of a call, given what is wrong with it as a
/// patch.
pub open spec fn input_refused(
    tool: Seq<char>,
    input: Seq<char>,
    patch_error: Option<Seq<char>>,
) -> Option<Seq<char>> {
    if tool == "apply_patch"@ {
        match patch_error {
            Some(err) => Some("进度副信道校验：apply_patch 语法解析失败："@ + err),
            None => None,
        }
    } else if blank(input) {
        Some("进度副信道校验：工具 "@ + tool + " 的 input 为空"@)
    } else {
        None
    }
}

/// The arguments that a text holds; null when it is no document.
pub open spec fn read_arguments(read: Option<JsonView>) -> JsonView {
    match read {
        Some(doc) => doc,
        None => JsonView::Null,
    }
}

/// What is wrong with a call before it is made, given the document that was read
/// from its arguments and what is wrong with its text as a patch. A call of an
/// unknown tool is not held up here.
pub open spec fn call_refused(
    tools: Seq<ToolSpecView>,
    tool: Seq<char>,
    payload: ToolPayloadView,
    read: Option<JsonView>,
    patch_error: Option<Seq<char>>,
) -> Option<Seq<char>> {
    match tool_named(tools, tool) {
        Some(ToolSpecView::Function(t)) => match payload {
            ToolPayloadView::Function { .. } => arguments_refused(
                tool,
                t.parameters,
                read_arguments(read),
            ),
            _ => None,
        },
        Some(ToolSpecView::Freeform(_)) => match payload {
            ToolPayloadView::Custom { input } => input_refused(tool, input, patch_error),
            _ => None,
        },
        _ => None,
    }
}

fn read_required(schema: &Json) -> (r: Option<Vec<String>>)
    ensures
        r.deep_view() == required_fields(schema@),
{
    match schema.list_at("required") {
        Some(items) => {
            let ghost all = docs(items@);
            let mut out: Vec<String> = Vec::new();
            let mut i: usize = 0;
            assert(all.take(0) =~= Seq::<JsonView>::empty());
            assert(out.deep_view() =~= Seq::<Seq<char>>::empty());
            while i < items.len()
                invariant
                    i <= items@.len(),
                    all == docs(items@),
                    out.deep_view() == texts_of(
                        all.take(i as int),
                    ),
                decreases items@.len() - i,
            {
                proof {
                    assert(all.take(i + 1).drop_last() =~= all.take(i as int));
                    assert(all.take(i + 1).last() == items@[i as int]@);
                }
                if let Json::Text(t) = &items[i] {
                    let ghost before = out.deep_view();
                    out.push(t.clone());
                    assert(out.deep_view() =~= before.push(t@));
                }
                i += 1;
            }
            assert(all.take(i as int) =~= all);
            Some(out)
        },
        None => None,
    }
}

fn refuse_arguments(tool: &str, schema: &Json, args: &Json) -> (r: Option<String>)
    ensures
        r.deep_view() == arguments_refused(tool@, schema@, args@),
{
    if let Some(required) = read_required(schema) {
        let ghost all = required.deep_view();
        let mut i: usize = 0;
        while i < required.len()
            invariant
                i <= required@.len(),
                all == required.deep_view(),
                required_fields(schema@) == Some(all),
                first_missing(all, args@, 0) == first_missing(all, args@, i as int),
            decreases required@.len() - i,
        {
            assert(all[i as int] == required@[i as int]@);
            if args.get(required[i].as_str()).is_none() {
                let mut text = "进度副信道校验：工具 ".to_owned();
                text.append(tool);
                text.append(" 缺必填字段「");
                text.append(required[i].as_str());
                text.append("」");
                return Some(text);
            }
            i += 1;
        }
    }
    None
}

/// Holds a call to what its tool asks for, given the document that was read from
/// its arguments and what is wrong with its text as a patch.
pub fn check_call(
    tools: &Vec<ToolSpec>,
    call: &ToolCall,
    read: Option<Json>,
    patch_error: Option<&String>,
) -> (r: Option<String>)
    ensures
        r.deep_view() == call_refused(
            tools.deep_view(),
            flat_name(call@.tool_name),
            call@.payload,
            read.deep_view(),
            patch_error.deep_view(),
        ),
{
    let flat = call.tool_name.to_flat_wire_name();
    match find_tool(tools, flat.as_str()) {
        Some(ToolSpec::Function(tool)) => match &call.payload {
            ToolPayload::Function { .. } => {
                let args = match read {
                    Some(doc) => doc,
                    None => Json::Null,
                };
                refuse_arguments(flat.as_str(), &tool.parameters, &args)
            },
            _ => None,
        },
        Some(ToolSpec::Freeform(_)) => match &call.payload {
            ToolPayload::Custom { input } => {
                if same_text(flat.as_str(), "apply_patch") {
                    match patch_error {
                        Some(err) => {
                            let mut text = "进度副信道校验：apply_patch 语法解析失败：".to_owned();
                            text.append(err.as_str());
                            Some(text)
                        },
                        None => None,
                    }
                } else if is_blank(input.as_str()) {
                    let mut text = "进度副信道校验：工具 ".to_owned();
                    text.append(flat.as_str());
                    text.append(" 的 input 为空");
                    Some(text)
                } else {
                    None
                }
            },
            _ => None,
        },
        _ => None,
    }
}

/// Holds a call to what its tool asks for before it is made, given what is wrong
/// with its text as a patch.
pub fn validate_progress_channel_tool_call(
    specs: &Vec<ToolSpec>,
    call: &ToolCall,
    patch_error: Option<&String>,
) -> (r: Option<String>)
    ensures
        r.deep_view() == call_refused(
            flattened(specs.deep_view()),
            flat_name(call@.tool_name),
            call@.payload,
            match call@.payload {
                ToolPayloadView::Function { arguments } => parsed_json(arguments),
                _ => None,
            },
            patch_error.deep_view(),
        ),
{
    let tools = flatten_namespaces_for_flat_wire(specs);
    let read = match &call.payload {
        ToolPayload::Function { arguments } => parse_json(arguments.as_str()),
        _ => None,
    };
    check_call(&tools, call, read, patch_error)
}

/// The call that an action becomes is that of the tool that the action names.
pub proof fn law_call_names_its_tool(
    action: JsonView,
    tools: Seq<ToolSpecView>,
    unique: Seq<char>,
    arguments_text: Option<Seq<char>>,
)
    ensures
        match synthesized(action, tools, unique, arguments_text) {
            Some(ResponseItemView::FunctionCall { name, namespace, .. }) => text_field(
                action,
                "tool"@,
            ) == Some(flat_name(ToolNameView { name, namespace })),
            Some(ResponseItemView::CustomToolCall { name, namespace, .. }) => text_field(
                action,
                "tool"@,
            ) == Some(flat_name(ToolNameView { name, namespace })),
            Some(_) => false,
            None => true,
        },
{
    if let Some(tool) = text_field(action, "tool"@) {
        law_flat_of_tool_of_flat(tool);
        let named = tool_of_flat(tool);
        assert(named == (ToolNameView { name: named.name, namespace: named.namespace }));
    }
}

} // verus!
