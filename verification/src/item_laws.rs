//! What is kept of the items of a turn, of failures and of differences.

use vstd::prelude::*;

use crate::diff::{
    entry_matches, header_of, kind_of, label_of, line_of, read_all, summary_of, LineView, ReadState,
};
use crate::event::{
    CommandExecutionStart, FileChangeKind, Item, ItemKind, ItemPayload, ToolCallStart,
};
use crate::event_laws::keeps_raw;
use crate::ids::ItemId;
use crate::items::{
    command_start_matches, completes_as, dynamic_output, image_details, item_kind, item_name,
    spoken, tool_start_matches,
};
use crate::json::{display, law_member_is_the_first_entry, member, JsonTree};
use crate::protocol::{
    CommandExecutionStatus, FileUpdateChange, PatchChangeKind, ThreadItem, ToolCallStatus, TurnError,
    UserContent,
};
use crate::split::{first_word_of, without_leading, without_trailing};
use crate::text::{begins_with, is_space, joined, occurs_at, occurs_in, trimmed, views};
use crate::text_laws::{
    law_cut_is_at_the_first_place, law_first_word_stands_between_white_space,
    law_leading_and_trailing_are_taken_away,
};
use crate::turn_error::{body_chars, error_chars, fatal_chars, info_chars, label_chars};

verus! {

/// An item goes by its own name.
pub proof fn law_item_goes_by_its_name(item: ThreadItem)
    ensures
        item matches ThreadItem::UserMessage { id, .. } ==> item_name(item) == id,
        item matches ThreadItem::HookPrompt { id, .. } ==> item_name(item) == id,
        item matches ThreadItem::AgentMessage { id, .. } ==> item_name(item) == id,
        item matches ThreadItem::Plan { id, .. } ==> item_name(item) == id,
        item matches ThreadItem::Reasoning { id, .. } ==> item_name(item) == id,
        item matches ThreadItem::CommandExecution { id, .. } ==> item_name(item) == id,
        item matches ThreadItem::FileChange { id, .. } ==> item_name(item) == id,
        item matches ThreadItem::McpToolCall { id, .. } ==> item_name(item) == id,
        item matches ThreadItem::DynamicToolCall { id, .. } ==> item_name(item) == id,
        item matches ThreadItem::CollabAgentToolCall { id, .. } ==> item_name(item) == id,
        item matches ThreadItem::SubAgentActivity { id, .. } ==> item_name(item) == id,
        item matches ThreadItem::WebSearch { id, .. } ==> item_name(item) == id,
        item matches ThreadItem::ImageView { id, .. } ==> item_name(item) == id,
        item matches ThreadItem::Sleep { id, .. } ==> item_name(item) == id,
        item matches ThreadItem::ImageGeneration { id, .. } ==> item_name(item) == id,
        item matches ThreadItem::EnteredReviewMode { id, .. } ==> item_name(item) == id,
        item matches ThreadItem::ExitedReviewMode { id, .. } ==> item_name(item) == id,
        item matches ThreadItem::ContextCompaction { id, .. } ==> item_name(item) == id,
{
}

/// The kind of an item that starts is the kind of what it is told as when it is complete.
pub proof fn law_item_keeps_its_kind(
    native: ThreadItem,
    id: ItemId,
    completed_at_ms: i64,
    now_ms: i64,
    item: Item,
)
    requires
        completes_as(native, id, completed_at_ms, now_ms, item),
    ensures
        item.payload is UserMessage <==> item_kind(native) == ItemKind::UserMessage,
        item.payload is AgentMessage <==> item_kind(native) == ItemKind::AgentMessage,
        item.payload is Reasoning <==> item_kind(native) == ItemKind::Reasoning,
        item.payload is CommandExecution <==> item_kind(native) == ItemKind::CommandExecution,
        item.payload is FileChange <==> item_kind(native) == ItemKind::FileChange,
        item.payload is ToolCall <==> item_kind(native) == ItemKind::ToolCall,
        item.payload is Activity <==> item_kind(native) == ItemKind::Activity,
        item.payload is UserMessage <==> native is UserMessage,
        item.payload is AgentMessage <==> (native is AgentMessage || native is Plan),
        item.payload is Reasoning <==> native is Reasoning,
        item.payload is CommandExecution <==> native is CommandExecution,
        item.payload is FileChange <==> native is FileChange,
        item.payload is ToolCall <==> (native is McpToolCall || native is DynamicToolCall
            || native is CollabAgentToolCall),
{
}

/// A complete item has the identifier that it was given, its own name, and the time at which it was
/// complete, as long as the calendar has that time; otherwise it has the present.
pub proof fn law_item_keeps_name_and_time(
    native: ThreadItem,
    id: ItemId,
    completed_at_ms: i64,
    now_ms: i64,
    item: Item,
)
    requires
        completes_as(native, id, completed_at_ms, now_ms, item),
    ensures
        item.id == id,
        item.harness_item_id == item_name(native),
        -8334601228800000 <= completed_at_ms <= 8210266876799999 ==> item.created_at_ms
            == completed_at_ms,
        completed_at_ms < -8334601228800000 || completed_at_ms > 8210266876799999
            ==> item.created_at_ms == now_ms,
{
}

/// What the agent said, and what it plans, is told word by word.
pub proof fn law_messages_are_kept(
    native: ThreadItem,
    id: ItemId,
    completed_at_ms: i64,
    now_ms: i64,
    item: Item,
)
    requires
        completes_as(native, id, completed_at_ms, now_ms, item),
    ensures
        native matches ThreadItem::AgentMessage { text: came, .. } ==> {
            &&& item.payload matches ItemPayload::AgentMessage { text }
            &&& text@ == came@
        },
        native matches ThreadItem::Plan { text: came, .. } ==> {
            &&& item.payload matches ItemPayload::AgentMessage { text }
            &&& text@ == came@
        },
        native matches ThreadItem::Reasoning { summary: Some(parts), .. } ==> {
            &&& item.payload matches ItemPayload::Reasoning { text }
            &&& text@ == joined(views(parts@), "\n"@)
        },
        native matches ThreadItem::Reasoning { summary: None, content: Some(parts), .. } ==> {
            &&& item.payload matches ItemPayload::Reasoning { text }
            &&& text@ == joined(views(parts@), "\n"@)
        },
        native matches ThreadItem::Reasoning { summary: None, content: None, .. } ==> {
            &&& item.payload matches ItemPayload::Reasoning { text }
            &&& text@.len() == 0
        },
{
}

/// What a user said is all texts of the message and nothing else of it, in order.
pub proof fn law_spoken_is_every_text(content: Seq<UserContent>, text: String)
    ensures
        spoken(Seq::empty()).len() == 0,
        spoken(content.push(UserContent::Text(text))) == spoken(content).push(text@),
        spoken(content.push(UserContent::Other)) == spoken(content),
{
    assert(content.push(UserContent::Text(text)).drop_last() =~= content);
    assert(content.push(UserContent::Other).drop_last() =~= content);
}

/// A user's message is told as its texts, one to a line.
pub proof fn law_user_message_is_its_texts(
    native: ThreadItem,
    id: ItemId,
    completed_at_ms: i64,
    now_ms: i64,
    item: Item,
)
    requires
        completes_as(native, id, completed_at_ms, now_ms, item),
    ensures
        native matches ThreadItem::UserMessage { content, .. } ==> {
            &&& item.payload matches ItemPayload::UserMessage { text }
            &&& text@ == joined(spoken(content@), "\n"@)
        },
        native matches ThreadItem::UserMessage { content, .. } ==> (content@.len() == 1
            && content@[0] is Text ==> item.payload->UserMessage_text@ == content@[0]->Text_0@),
{
    match native {
        ThreadItem::UserMessage { content, .. } => {
            if content@.len() == 1 && content@[0] is Text {
                let text = content@[0]->Text_0;
                assert(content@ =~= Seq::<UserContent>::empty().push(UserContent::Text(text)));
                law_spoken_is_every_text(Seq::empty(), text);
                assert(spoken(content@) =~= seq![text@]);
            }
        },
        _ => {},
    }
}

/// Whether a word is the one for the state of a command.
pub open spec fn says_state(word: Option<String>, status: CommandExecutionStatus) -> bool {
    &&& word matches Some(text)
    &&& text@ == "in_progress"@ <==> status == CommandExecutionStatus::InProgress
    &&& text@ == "completed"@ <==> status == CommandExecutionStatus::Completed
    &&& text@ == "failed"@ <==> status == CommandExecutionStatus::Failed
    &&& text@ == "declined"@ <==> status == CommandExecutionStatus::Declined
}

proof fn lemma_state_words()
    ensures
        "in_progress"@ != "completed"@,
        "in_progress"@ != "failed"@,
        "in_progress"@ != "declined"@,
        "completed"@ != "failed"@,
        "completed"@ != "declined"@,
        "failed"@ != "declined"@,
        "inProgress"@ != "completed"@,
        "inProgress"@ != "failed"@,
{
    reveal_strlit("in_progress");
    assert("in_progress"@.len() == 11);
    reveal_strlit("inProgress");
    assert("inProgress"@.len() == 10);
    reveal_strlit("completed");
    assert("completed"@.len() == 9);
    reveal_strlit("failed");
    assert("failed"@.len() == 6);
    reveal_strlit("declined");
    assert("declined"@.len() == 8);
}

/// A command is told as it is: the command, where it ran, what it printed, how it ended, its state
/// and its process.
pub proof fn law_command_is_kept(
    native: ThreadItem,
    id: ItemId,
    completed_at_ms: i64,
    now_ms: i64,
    item: Item,
)
    requires
        completes_as(native, id, completed_at_ms, now_ms, item),
    ensures
        native matches ThreadItem::CommandExecution {
            command: ran,
            cwd: place,
            process_id: process,
            status: state,
            aggregated_output,
            exit_code: code,
            duration_ms: took,
            ..
        } ==> {
            &&& item.payload matches ItemPayload::CommandExecution {
                command,
                cwd,
                output,
                exit_code,
                status,
                process_id,
                duration_ms,
            }
            &&& command@ == ran@
            &&& cwd@ == display(place@)
            &&& aggregated_output matches Some(printed) ==> output@ == printed@
            &&& aggregated_output is None ==> output@.len() == 0
            &&& code is None <==> exit_code is None
            &&& code matches Some(n) ==> (i32::MIN <= n <= i32::MAX ==> exit_code == Some(n as i32))
            &&& says_state(status, state)
            &&& process_id == process
            &&& duration_ms == took
        },
{
    lemma_state_words();
}

/// A command that starts is told with what it runs, where and when. A time that is not after the
/// epoch is none. Nothing else starts as a command.
pub proof fn law_started_command_is_kept(
    native: ThreadItem,
    started_at_ms: i64,
    start: Option<CommandExecutionStart>,
)
    requires
        command_start_matches(native, started_at_ms, start),
    ensures
        start is Some <==> native is CommandExecution,
        native matches ThreadItem::CommandExecution { command, cwd, process_id, status, .. } ==> {
            &&& start matches Some(told)
            &&& told.command@ == command@
            &&& told.cwd@ == display(cwd@)
            &&& told.process_id == process_id
            &&& says_state(told.status, status)
            &&& started_at_ms > 0 ==> told.started_at_ms == Some(started_at_ms)
            &&& started_at_ms <= 0 ==> told.started_at_ms is None
        },
{
    lemma_state_words();
}

/// Changes of files are told one by one, in order, each with its path, what became of the file, and
/// its difference where there is one. The first stands for all.
pub proof fn law_file_changes_are_kept(
    native: ThreadItem,
    id: ItemId,
    completed_at_ms: i64,
    now_ms: i64,
    item: Item,
)
    requires
        completes_as(native, id, completed_at_ms, now_ms, item),
    ensures
        native matches ThreadItem::FileChange { changes: came, status: state, .. } ==> {
            &&& item.payload matches ItemPayload::FileChange { path, change, changes, status }
            &&& state matches Some(told) ==> status is Some && status->Some_0@ == display(told@)
            &&& changes@.len() == came@.len()
            &&& forall|i: int|
                0 <= i < came@.len() ==> {
                    &&& (#[trigger] changes@[i]).path@ == came@[i].path@
                    &&& changes@[i].change == FileChangeKind::Created <==> came@[i].kind
                        == PatchChangeKind::Add
                    &&& changes@[i].change == FileChangeKind::Deleted <==> came@[i].kind
                        == PatchChangeKind::Delete
                    &&& changes@[i].change == FileChangeKind::Modified <==> came@[i].kind
                        == PatchChangeKind::Update
                    &&& changes@[i].diff is None <==> came@[i].diff@.len() == 0
                    &&& changes@[i].diff matches Some(diff) ==> diff@ == came@[i].diff@
                }
            &&& came@.len() > 0 ==> path@ == changes@[0].path@ && change == changes@[0].change
            &&& came@.len() == 0 ==> path@.len() == 0 && change == FileChangeKind::Modified
        },
{
    match native {
        ThreadItem::FileChange { changes: came, .. } => {
            let changes = item.payload->FileChange_changes@;
            assert forall|i: int| 0 <= i < came@.len() implies entry_matches(
                came@[i],
                #[trigger] changes[i],
            ) by {
                assert(entry_matches(came@[i], changes[i]));
            }
        },
        _ => {},
    }
}

/// The kinds of changes are told apart, and each in its own word.
pub proof fn law_changes_are_told_apart(a: PatchChangeKind, b: PatchChangeKind)
    ensures
        kind_of(a) == kind_of(b) ==> a == b,
        label_of(kind_of(a)) == "created"@ <==> a == PatchChangeKind::Add,
        label_of(kind_of(a)) == "modified"@ <==> a == PatchChangeKind::Update,
        label_of(kind_of(a)) == "deleted"@ <==> a == PatchChangeKind::Delete,
{
    reveal_strlit("created");
    assert("created"@.len() == 7);
    reveal_strlit("modified");
    assert("modified"@.len() == 8);
    reveal_strlit("deleted");
    assert("deleted"@.len() == 7);
    assert("created"@[0] != "deleted"@[0]);
}

/// A summary of changes says of each what became of which file.
pub proof fn law_summary_tells_every_change(
    changes: Seq<FileUpdateChange>,
    more: FileUpdateChange,
)
    ensures
        changes.len() == 0 ==> summary_of(changes) == "File changes updated."@,
        changes.len() == 0 ==> summary_of(changes.push(more)) == label_of(kind_of(more.kind)) + " "@
            + more.path@,
        changes.len() > 0 ==> summary_of(changes.push(more)) == summary_of(changes) + "\n"@ + (
        label_of(kind_of(more.kind)) + " "@ + more.path@),
{
    let all = crate::diff::summaries_of(changes.push(more));
    assert(all.drop_last() =~= crate::diff::summaries_of(changes));
    assert(all.last() == label_of(kind_of(more.kind)) + " "@ + more.path@);
}

/// Whether a word is the one for the state of a tool call that starts.
pub open spec fn says_call_state(word: Option<String>, status: ToolCallStatus) -> bool {
    &&& word matches Some(text)
    &&& text@ == "in_progress"@ <==> status == ToolCallStatus::InProgress
    &&& text@ == "completed"@ <==> status == ToolCallStatus::Completed
    &&& text@ == "failed"@ <==> status == ToolCallStatus::Failed
}

/// Whether a word is the one for the state of a tool call that is complete.
pub open spec fn says_end_state(word: Option<String>, status: ToolCallStatus) -> bool {
    &&& word matches Some(text)
    &&& text@ == "inProgress"@ <==> status == ToolCallStatus::InProgress
    &&& text@ == "completed"@ <==> status == ToolCallStatus::Completed
    &&& text@ == "failed"@ <==> status == ToolCallStatus::Failed
}

/// A tool call is told as it is: the tool, the server, what went in, what came out, its state and
/// its failure.
pub proof fn law_tool_call_is_kept(
    native: ThreadItem,
    id: ItemId,
    completed_at_ms: i64,
    now_ms: i64,
    item: Item,
)
    requires
        completes_as(native, id, completed_at_ms, now_ms, item),
    ensures
        native matches ThreadItem::McpToolCall {
            server: host,
            tool,
            arguments,
            result,
            error: failure,
            status: state,
            ..
        } ==> {
            &&& item.payload matches ItemPayload::ToolCall {
                name,
                input,
                output,
                server,
                status,
                error,
            }
            &&& name@ == tool@
            &&& input@ == arguments@
            &&& result is None <==> output is None
            &&& result matches Some(given) ==> output->Some_0@ == given@
            &&& server == Some(host)
            &&& error == failure
            &&& says_end_state(status, state)
        },
        native matches ThreadItem::DynamicToolCall {
            tool,
            arguments,
            content_items,
            status: state,
            namespace,
            success,
            ..
        } ==> {
            &&& item.payload matches ItemPayload::ToolCall {
                name,
                input,
                output,
                server,
                status,
                error,
            }
            &&& name@ == tool@
            &&& input@ == arguments@
            &&& server == namespace
            &&& error is None
            &&& says_end_state(status, state)
            &&& content_items matches Some(given) ==> output is Some && output->Some_0@ == given@
            &&& content_items is None && success is None ==> output is None
            &&& content_items is None ==> (success matches Some(worked) ==> output is Some && member(
                output->Some_0@,
                "success"@,
            ) == Some(JsonTree::Bool(worked)))
        },
        native matches ThreadItem::CollabAgentToolCall {
            tool,
            status: state,
            prompt,
            model,
            ..
        } ==> {
            &&& item.payload matches ItemPayload::ToolCall {
                name,
                input,
                output,
                server: Some(server),
                status: Some(status),
                error,
            }
            &&& name@ == display(tool@)
            &&& server@ == "collab-agent"@
            &&& status@ == display(state@)
            &&& output is Some && output->Some_0@ == state@
            &&& error is None
            &&& asks_agent(input@, prompt, model)
        },
{
    lemma_state_words();
    match native {
        ThreadItem::DynamicToolCall { content_items: None, success: Some(worked), .. } => {
            let tree = dynamic_output(None, Some(worked))->Some_0;
            law_member_is_the_first_entry(tree->Object_0, "success"@, 0);
        },
        ThreadItem::CollabAgentToolCall { prompt, model, .. } => {
            lemma_asks_agent(prompt, model);
        },
        _ => {},
    }
}

/// Whether a value asks another agent: with the prompt and the model, each where there is one.
pub open spec fn asks_agent(
    input: JsonTree,
    prompt: Option<String>,
    model: Option<String>,
) -> bool {
    &&& prompt matches Some(words) ==> member(input, "prompt"@) == Some(JsonTree::Text(words@))
    &&& prompt is None ==> member(input, "prompt"@) == Some(JsonTree::Null)
    &&& model matches Some(name) ==> member(input, "model"@) == Some(JsonTree::Text(name@))
    &&& model is None ==> member(input, "model"@) == Some(JsonTree::Null)
}

proof fn lemma_asks_agent(prompt: Option<String>, model: Option<String>)
    ensures
        asks_agent(crate::items::collab_input(prompt, model), prompt, model),
{
    reveal_strlit("prompt");
    assert("prompt"@.len() == 6);
    reveal_strlit("model");
    assert("model"@.len() == 5);
    let entries = crate::items::collab_input(prompt, model)->Object_0;
    law_member_is_the_first_entry(entries, "model"@, 0);
    law_member_is_the_first_entry(entries, "prompt"@, 1);
}

/// A tool call that starts is told with the tool, the server and what goes in. Nothing else starts
/// as a tool call.
pub proof fn law_started_tool_call_is_kept(
    native: ThreadItem,
    started_at_ms: i64,
    start: Option<ToolCallStart>,
)
    requires
        tool_start_matches(native, started_at_ms, start),
    ensures
        start is Some <==> (native is McpToolCall || native is DynamicToolCall || native is
            CollabAgentToolCall),
        start matches Some(told) ==> {
            &&& started_at_ms > 0 ==> told.started_at_ms == Some(started_at_ms)
            &&& started_at_ms <= 0 ==> told.started_at_ms is None
        },
        native matches ThreadItem::McpToolCall { server, tool, arguments, status, .. } ==> {
            &&& start matches Some(told)
            &&& told.name@ == tool@
            &&& told.input@ == arguments@
            &&& told.server == Some(server)
            &&& says_call_state(told.status, status)
        },
        native matches ThreadItem::DynamicToolCall { tool, arguments, status, namespace, .. } ==> {
            &&& start matches Some(told)
            &&& told.name@ == tool@
            &&& told.input@ == arguments@
            &&& told.server == namespace
            &&& says_call_state(told.status, status)
        },
        native matches ThreadItem::CollabAgentToolCall { tool, status, prompt, model, .. } ==> {
            &&& start matches Some(told)
            &&& told.name@ == display(tool@)
            &&& told.server matches Some(server)
            &&& server@ == "collab-agent"@
            &&& told.status matches Some(state)
            &&& state@ == display(status@)
            &&& asks_agent(told.input@, prompt, model)
        },
{
    lemma_state_words();
    match native {
        ThreadItem::CollabAgentToolCall { prompt, model, .. } => {
            lemma_asks_agent(prompt, model);
        },
        _ => {},
    }
}

/// The other items are activities. Each has a title of its own, and its detail says what the
/// activity was about.
pub proof fn law_activities_tell_what_they_are_about(
    native: ThreadItem,
    id: ItemId,
    completed_at_ms: i64,
    now_ms: i64,
    item: Item,
)
    requires
        completes_as(native, id, completed_at_ms, now_ms, item),
    ensures
        native matches ThreadItem::WebSearch { query, action, .. } ==> {
            &&& item.payload matches ItemPayload::Activity { title, detail: Some(detail), metadata }
            &&& title@ == "Web search"@
            &&& detail@ == query@
            &&& keeps_raw(action, metadata)
        },
        native matches ThreadItem::ImageView { path, raw, .. } ==> {
            &&& item.payload matches ItemPayload::Activity { title, detail: Some(detail), metadata }
            &&& title@ == "Image viewed"@
            &&& detail@ == path@
            &&& keeps_raw(raw, metadata)
        },
        native matches ThreadItem::HookPrompt { fragments, raw, .. } ==> {
            &&& item.payload matches ItemPayload::Activity { title, detail: Some(detail), metadata }
            &&& keeps_raw(raw, metadata)
            &&& title@ == "Hook prompt"@
            &&& detail@ == joined(views(fragments@), "\n"@)
        },
        native matches ThreadItem::SubAgentActivity {
            agent_path,
            agent_thread_id,
            kind,
            raw,
            ..
        } ==> {
            &&& item.payload matches ItemPayload::Activity { title, detail: Some(detail), metadata }
            &&& kind matches Some(told) ==> title@ == "Sub-agent "@ + display(told@)
            &&& kind is None ==> title@ == "Sub-agent "@ + "unknown"@
            &&& keeps_raw(raw, metadata)
            &&& detail@ == agent_path@ + " ("@ + agent_thread_id@ + ")"@
        },
        native matches ThreadItem::Sleep { duration_ms, raw, .. } ==> {
            &&& item.payload matches ItemPayload::Activity { title, detail: Some(detail), metadata }
            &&& keeps_raw(raw, metadata)
            &&& title@ == "Sleep"@
            &&& detail@ == crate::number::signed_decimal(duration_ms as int) + " ms"@
        },
        native matches ThreadItem::EnteredReviewMode { review, .. } ==> {
            &&& item.payload matches ItemPayload::Activity { title, detail: Some(detail), metadata }
            &&& title@ == "Entered review mode"@
            &&& detail@ == review@
            &&& metadata is None
        },
        native matches ThreadItem::ExitedReviewMode { review, .. } ==> {
            &&& item.payload matches ItemPayload::Activity { title, detail: Some(detail), metadata }
            &&& title@ == "Exited review mode"@
            &&& detail@ == review@
            &&& metadata is None
        },
        native matches ThreadItem::ContextCompaction { raw, .. } ==> {
            &&& item.payload matches ItemPayload::Activity { title, detail, metadata }
            &&& title@ == "Context compaction"@
            &&& detail is None
            &&& keeps_raw(raw, metadata)
        },
        native matches ThreadItem::ImageGeneration {
            status,
            result,
            revised_prompt,
            saved_path,
            raw,
            ..
        } ==> {
            &&& item.payload matches ItemPayload::Activity { title, detail: Some(detail), metadata }
            &&& title@ == "Image generation"@
            &&& detail@ == joined(
                image_details(status, result, revised_prompt, saved_path),
                "\n"@,
            )
            &&& keeps_raw(raw, metadata)
        },
{
}

/// An image that was made is told with its state first, and then with where it was saved, the prompt
/// and the result, each where there is one.
pub proof fn law_made_image_is_told_in_full(
    status: String,
    result: String,
    revised_prompt: Option<String>,
    saved_path: Option<String>,
)
    ensures
        ({
            let told = image_details(status, result, revised_prompt, saved_path);
            &&& told.len() > 0
            &&& told[0] == "status: "@ + status@
            &&& saved_path matches Some(path) ==> told.contains("saved: "@ + path@)
            &&& revised_prompt matches Some(prompt) ==> told.contains("prompt: "@ + prompt@)
            &&& !crate::text::is_blank(result@) ==> told.last() == "result: "@ + result@
            &&& told.len() == 1 + (if saved_path is Some {
                1int
            } else {
                0
            }) + (if revised_prompt is Some {
                1int
            } else {
                0
            }) + (if crate::text::is_blank(result@) {
                0int
            } else {
                1
            })
        }),
{
    let told = image_details(status, result, revised_prompt, saved_path);
    match saved_path {
        Some(path) => {
            assert(told[1] == "saved: "@ + path@);
            match revised_prompt {
                Some(prompt) => {
                    assert(told[2] == "prompt: "@ + prompt@);
                },
                None => {},
            }
        },
        None => {
            match revised_prompt {
                Some(prompt) => {
                    assert(told[1] == "prompt: "@ + prompt@);
                },
                None => {},
            }
        },
    }
}

proof fn lemma_occurs(before: Seq<char>, needle: Seq<char>, after: Seq<char>)
    ensures
        occurs_in(before + needle + after, needle),
{
    let text = before + needle + after;
    let at = before.len() as int;
    assert(text.subrange(at, at + needle.len() as int) =~= needle);
    assert(occurs_at(text, needle, at));
}

proof fn lemma_occurs_within(outer: Seq<char>, text: Seq<char>, needle: Seq<char>)
    requires
        occurs_in(outer, text),
        occurs_in(text, needle),
    ensures
        occurs_in(outer, needle),
{
    let i = choose|at: int| occurs_at(outer, text, at);
    let j = choose|at: int| occurs_at(text, needle, at);
    assert(outer.subrange(i + j, i + j + needle.len() as int) =~= text.subrange(
        j,
        j + needle.len() as int,
    )) by {
        assert forall|k: int| 0 <= k < needle.len() implies outer[i + j + k] == #[trigger] text[j
            + k] by {
            assert(outer.subrange(i, i + text.len() as int)[j + k] == text[j + k]);
        }
    }
    assert(occurs_at(outer, needle, i + j));
}

proof fn lemma_body_is_told(error: TurnError, will_retry: bool)
    ensures
        occurs_in(error_chars(error, will_retry), body_chars(error)),
        error.codex_error_info matches Some(info) ==> begins_with(
            error_chars(error, will_retry),
            info_chars(info) + ": "@,
        ),
{
    let body = body_chars(error);
    let full = error_chars(error, will_retry);
    let none = Seq::<char>::empty();
    let tail = if will_retry {
        " (retrying)"@
    } else {
        none
    };
    let head = match error.codex_error_info {
        Some(info) => info_chars(info) + ": "@,
        None => none,
    };
    assert(full =~= head + body + tail);
    lemma_occurs(head, body, tail);
    assert(full.subrange(0, head.len() as int) =~= head);
    assert(occurs_at(full, head, 0));
}

proof fn lemma_body_holds_the_message(message: Seq<char>, details: Seq<char>)
    ensures
        occurs_in(message + ": "@ + details, message),
        occurs_in(message + ": "@ + details, details),
        occurs_in(message, message),
{
    let none = Seq::<char>::empty();
    let body = message + ": "@ + details;
    assert(body =~= none + message + (": "@ + details));
    lemma_occurs(none, message, ": "@ + details);
    assert(body =~= (message + ": "@) + details + none);
    lemma_occurs(message + ": "@, details, none);
    assert(message =~= none + message + none);
    lemma_occurs(none, message, none);
}

/// A failure is told with all that is known of it: its message, its details and its label. Whether
/// it is tried again is said at the end, and only then.
pub proof fn law_failure_tells_what_is_known(error: TurnError, will_retry: bool)
    ensures
        trimmed(error.message@).len() > 0 ==> occurs_in(
            error_chars(error, will_retry),
            trimmed(error.message@),
        ),
        error.additional_details matches Some(more) ==> (trimmed(more@).len() > 0 ==> occurs_in(
            error_chars(error, will_retry),
            trimmed(more@),
        )),
        error.codex_error_info matches Some(info) ==> begins_with(
            error_chars(error, will_retry),
            info_chars(info) + ": "@,
        ),
        error_chars(error, true) == error_chars(error, false) + " (retrying)"@,
{
    let body = body_chars(error);
    let full = error_chars(error, will_retry);
    let message = trimmed(error.message@);
    let details = match error.additional_details {
        Some(text) => trimmed(text@),
        None => Seq::empty(),
    };
    lemma_body_is_told(error, will_retry);
    lemma_body_holds_the_message(message, details);
    lemma_body_holds_the_message(details, message);
    if message.len() > 0 {
        assert(occurs_in(body, message));
        lemma_occurs_within(full, body, message);
    }
    if details.len() > 0 {
        if occurs_in(message, details) {
            let at = choose|at: int| occurs_at(message, details, at);
            assert(message.len() > 0);
        }
        assert(occurs_in(body, details));
        lemma_occurs_within(full, body, details);
    }
}

/// A failure is told by its message; details that the message does not hold follow it, and stand
/// alone where there is no message. Where there is neither, that is said.
pub proof fn law_details_follow_the_message(error: TurnError)
    ensures
        ({
            let message = trimmed(error.message@);
            let more = error.additional_details is Some && trimmed(
                error.additional_details->Some_0@,
            ).len() > 0 && !occurs_in(message, trimmed(error.additional_details->Some_0@));
            &&& more && message.len() > 0 ==> body_chars(error) == message + ": "@ + trimmed(
                error.additional_details->Some_0@,
            )
            &&& more && message.len() == 0 ==> body_chars(error) == trimmed(
                error.additional_details->Some_0@,
            )
            &&& !more && message.len() > 0 ==> body_chars(error) == message
            &&& !more && message.len() == 0 ==> body_chars(error)
                == "Codex reported an unspecified error"@
        }),
        error.codex_error_info matches Some(info) ==> error_chars(error, false) == info_chars(info)
            + ": "@ + body_chars(error),
        error.codex_error_info is None ==> error_chars(error, false) == body_chars(error),
{
}

/// The label of a failure is the text that it came with, or the name that its details came under;
/// a failure of the connection is told with the status of the answer.
pub proof fn law_label_is_the_name_of_the_failure(
    wire: JsonTree,
    info: crate::protocol::CodexErrorInfo,
)
    ensures
        wire matches JsonTree::Text(text) ==> label_chars(Some(wire)) == text,
        wire matches JsonTree::Object(entries) ==> (entries.len() > 0 ==> label_chars(Some(wire))
            == entries[0].0),
        label_chars(None) == "error"@,
        info.http_status_code matches Some(code) ==> (info.connection ==> info_chars(info)
            == label_chars(crate::items::opt_tree(info.wire)) + " (HTTP "@
            + crate::number::signed_decimal(code as int) + ")"@),
        info.http_status_code is None || !info.connection ==> info_chars(info) == label_chars(
            crate::items::opt_tree(info.wire),
        ),
{
}

/// A failure ends the turn where the app-server does not try again, and only there.
pub proof fn law_only_last_failures_are_fatal(notification: crate::protocol::Notification)
    ensures
        fatal_chars(notification) is Some <==> (notification matches
            crate::protocol::Notification::Error { will_retry, .. } && !will_retry),
        notification matches crate::protocol::Notification::Error { error, will_retry, .. } ==> (
        !will_retry ==> fatal_chars(notification) == Some(error_chars(error, false))),
{
}

/// A line of a difference is told as new, as gone or as one that stayed by its first character,
/// which is not part of it. A line with another first character stayed, and is told whole.
pub proof fn law_line_is_told_by_its_mark(line: Seq<char>)
    ensures
        line_of(seq!['+'] + line) == LineView::Added(line),
        line_of(seq!['-'] + line) == LineView::Removed(line),
        line_of(seq![' '] + line) == LineView::Context(line),
        line.len() > 0 && line[0] != '+' && line[0] != '-' && line[0] != ' ' ==> line_of(line)
            == LineView::Context(line),
        line.len() == 0 ==> line_of(line) == LineView::Context(line),
{
    reveal_strlit("+");
    assert("+"@.len() == 1);
    reveal_strlit("-");
    assert("-"@.len() == 1);
    reveal_strlit(" ");
    assert(" "@.len() == 1);
    let plus = seq!['+'] + line;
    let minus = seq!['-'] + line;
    let blank = seq![' '] + line;
    assert("+"@ =~= seq!['+']);
    assert("-"@ =~= seq!['-']);
    assert(" "@ =~= seq![' ']);
    lemma_first_char(plus, '+');
    lemma_first_char(minus, '+');
    lemma_first_char(minus, '-');
    lemma_first_char(blank, '+');
    lemma_first_char(blank, '-');
    lemma_first_char(blank, ' ');
    lemma_first_char(line, '+');
    lemma_first_char(line, '-');
    lemma_first_char(line, ' ');
    assert(plus.skip(1) =~= line);
    assert(minus.skip(1) =~= line);
    assert(blank.skip(1) =~= line);
}

proof fn lemma_first_char(line: Seq<char>, c: char)
    ensures
        begins_with(line, seq![c]) <==> line.len() > 0 && line[0] == c,
{
    if line.len() > 0 && line[0] == c {
        assert(line.subrange(0, 1) =~= seq![c]);
    }
    if begins_with(line, seq![c]) {
        assert(line.subrange(0, 1)[0] == line[0]);
    }
}

/// A difference is read line by line: a line that starts a stretch closes the one before, and every
/// other line belongs to the stretch that is open.
pub proof fn law_difference_is_read_line_by_line(lines: Seq<Seq<char>>, line: Seq<char>)
    ensures
        ({
            let before = read_all(lines);
            let after = read_all(lines.push(line));
            &&& !begins_with(line, "@@"@) ==> {
                &&& after.lines == before.lines.push(line_of(line))
                &&& after.hunks == before.hunks
                &&& after.numbers == before.numbers
            }
            &&& begins_with(line, "@@"@) ==> {
                &&& after.lines.len() == 0
                &&& before.lines.len() == 0 ==> after.hunks == before.hunks
                &&& before.lines.len() > 0 ==> {
                    &&& after.hunks.len() == before.hunks.len() + 1
                    &&& after.hunks.drop_last() == before.hunks
                    &&& after.hunks.last().numbers == before.numbers
                    &&& after.hunks.last().lines == before.lines
                }
                &&& header_of(line) matches Some(numbers) ==> after.numbers == numbers
                &&& header_of(line) is None ==> after.numbers == before.numbers
            }
        }),
        read_all(Seq::empty()) == ReadState::start(),
{
    assert(lines.push(line).drop_last() =~= lines);
    assert(read_all(lines).closed().drop_last() =~= if read_all(lines).lines.len() > 0 {
        read_all(lines).hunks
    } else {
        read_all(lines).hunks.drop_last()
    });
}

/// The numbers of a header are looked for in its first word, which holds no blank to part them at:
/// no header is ever read, and a stretch has no numbers of its own.
pub proof fn law_headers_are_not_read(line: Seq<char>)
    ensures
        header_of(line) is None,
{
    let inner = without_leading(without_leading(line, '@'), ' ');
    let place = law_first_word_stands_between_white_space(inner);
    match first_word_of(inner) {
        Some(first) => {
            let mid = without_leading(first, '@');
            let a = law_leading_and_trailing_are_taken_away(first, '@');
            let b = law_leading_and_trailing_are_taken_away(mid, '@');
            let word = without_trailing(mid, '@');
            assert forall|i: int| 0 <= i < word.len() implies #[trigger] word[i] != ' ' by {
                assert(word[i] == mid[i]);
                assert(mid[i] == first[a.0 + i]);
                assert(first[a.0 + i] == inner[place.0 + a.0 + i]);
                assert(!is_space(inner[place.0 + a.0 + i]));
            }
            law_cut_is_at_the_first_place(word, ' ');
        },
        None => {},
    }
}

/// Every stretch of a difference is told without numbers.
pub proof fn law_stretches_have_no_numbers(lines: Seq<Seq<char>>)
    ensures
        read_all(lines).numbers == (0u32, 0u32, 0u32, 0u32),
        forall|i: int|
            0 <= i < read_all(lines).hunks.len() ==> (#[trigger] read_all(lines).hunks[i]).numbers
                == (0u32, 0u32, 0u32, 0u32),
        forall|i: int|
            0 <= i < read_all(lines).closed().len() ==> (#[trigger] read_all(
                lines,
            ).closed()[i]).numbers == (0u32, 0u32, 0u32, 0u32),
    decreases lines.len(),
{
    if lines.len() > 0 {
        law_stretches_have_no_numbers(lines.drop_last());
        law_headers_are_not_read(lines.last());
    }
}

/// A value of the app-server is shown as it is, and one that is missing as unknown.
pub proof fn law_missing_values_are_unknown(wire: Option<crate::json::Json>)
    ensures
        wire is None ==> crate::items::wire_chars(wire) == "unknown"@,
        wire matches Some(value) ==> crate::items::wire_chars(wire) == display(value@),
{
}

} // verus!
