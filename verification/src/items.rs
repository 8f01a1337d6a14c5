//! Items of turns: what is told of them when they start and when they end.

use vstd::prelude::*;

use crate::diff::{entries_match, map_file_changes};
use crate::event::{
    CommandExecutionStart, FileChangeKind, Item, ItemKind, ItemPayload, ToolCallStart,
};
use crate::handle::copy_text;
use crate::ids::ItemId;
use crate::json::{display, json_display, object1, object2, Json, JsonTree};
use crate::number::{i64_text, signed_decimal};
use crate::protocol::{CommandExecutionStatus, ThreadItem, ToolCallStatus, UserContent};
use crate::text::{blank, concat, concat3, is_blank, join, joined, views};

verus! {

/// A value that came in the protocol's own words, as text; `unknown` where it could not be had.
pub open spec fn wire_chars(wire: Option<Json>) -> Seq<char> {
    match wire {
        Some(value) => display(value@),
        None => "unknown"@,
    }
}

/// A value that came in the protocol's own words, as text.
pub fn enum_string(wire: &Option<Json>) -> (text: String)
    ensures
        text@ == wire_chars(*wire),
{
    match wire {
        Some(value) => json_display(value),
        None => "unknown".to_owned(),
    }
}

/// Where a command stands, in one word.
pub open spec fn command_status_chars(status: CommandExecutionStatus) -> Seq<char> {
    match status {
        CommandExecutionStatus::InProgress => "in_progress"@,
        CommandExecutionStatus::Completed => "completed"@,
        CommandExecutionStatus::Failed => "failed"@,
        CommandExecutionStatus::Declined => "declined"@,
    }
}

/// Where a command stands, in one word.
pub fn command_status_string(status: CommandExecutionStatus) -> (text: String)
    ensures
        text@ == command_status_chars(status),
{
    match status {
        CommandExecutionStatus::InProgress => "in_progress".to_owned(),
        CommandExecutionStatus::Completed => "completed".to_owned(),
        CommandExecutionStatus::Failed => "failed".to_owned(),
        CommandExecutionStatus::Declined => "declined".to_owned(),
    }
}

/// Where a tool call stands, in one word.
pub open spec fn tool_status_chars(status: ToolCallStatus) -> Seq<char> {
    match status {
        ToolCallStatus::InProgress => "in_progress"@,
        ToolCallStatus::Completed => "completed"@,
        ToolCallStatus::Failed => "failed"@,
    }
}

/// Where a tool call stands, in one word.
pub fn tool_status_string(status: ToolCallStatus) -> (text: String)
    ensures
        text@ == tool_status_chars(status),
{
    match status {
        ToolCallStatus::InProgress => "in_progress".to_owned(),
        ToolCallStatus::Completed => "completed".to_owned(),
        ToolCallStatus::Failed => "failed".to_owned(),
    }
}

/// Where a tool call stands, in the protocol's own words.
pub open spec fn tool_wire_chars(status: ToolCallStatus) -> Seq<char> {
    match status {
        ToolCallStatus::InProgress => "inProgress"@,
        ToolCallStatus::Completed => "completed"@,
        ToolCallStatus::Failed => "failed"@,
    }
}

fn tool_wire_string(status: ToolCallStatus) -> (text: String)
    ensures
        text@ == tool_wire_chars(status),
{
    match status {
        ToolCallStatus::InProgress => "inProgress".to_owned(),
        ToolCallStatus::Completed => "completed".to_owned(),
        ToolCallStatus::Failed => "failed".to_owned(),
    }
}

/// The name of an item at the app-server.
pub open spec fn item_name(item: ThreadItem) -> String {
    match item {
        ThreadItem::UserMessage { id, .. } => id,
        ThreadItem::HookPrompt { id, .. } => id,
        ThreadItem::AgentMessage { id, .. } => id,
        ThreadItem::Plan { id, .. } => id,
        ThreadItem::Reasoning { id, .. } => id,
        ThreadItem::CommandExecution { id, .. } => id,
        ThreadItem::FileChange { id, .. } => id,
        ThreadItem::McpToolCall { id, .. } => id,
        ThreadItem::DynamicToolCall { id, .. } => id,
        ThreadItem::CollabAgentToolCall { id, .. } => id,
        ThreadItem::SubAgentActivity { id, .. } => id,
        ThreadItem::WebSearch { id, .. } => id,
        ThreadItem::ImageView { id, .. } => id,
        ThreadItem::Sleep { id, .. } => id,
        ThreadItem::ImageGeneration { id, .. } => id,
        ThreadItem::EnteredReviewMode { id, .. } => id,
        ThreadItem::ExitedReviewMode { id, .. } => id,
        ThreadItem::ContextCompaction { id, .. } => id,
    }
}

/// The name of an item at the app-server.
pub fn thread_item_id(item: &ThreadItem) -> (id: String)
    ensures
        id == item_name(*item),
{
    match item {
        ThreadItem::UserMessage { id, .. } => id.clone(),
        ThreadItem::HookPrompt { id, .. } => id.clone(),
        ThreadItem::AgentMessage { id, .. } => id.clone(),
        ThreadItem::Plan { id, .. } => id.clone(),
        ThreadItem::Reasoning { id, .. } => id.clone(),
        ThreadItem::CommandExecution { id, .. } => id.clone(),
        ThreadItem::FileChange { id, .. } => id.clone(),
        ThreadItem::McpToolCall { id, .. } => id.clone(),
        ThreadItem::DynamicToolCall { id, .. } => id.clone(),
        ThreadItem::CollabAgentToolCall { id, .. } => id.clone(),
        ThreadItem::SubAgentActivity { id, .. } => id.clone(),
        ThreadItem::WebSearch { id, .. } => id.clone(),
        ThreadItem::ImageView { id, .. } => id.clone(),
        ThreadItem::Sleep { id, .. } => id.clone(),
        ThreadItem::ImageGeneration { id, .. } => id.clone(),
        ThreadItem::EnteredReviewMode { id, .. } => id.clone(),
        ThreadItem::ExitedReviewMode { id, .. } => id.clone(),
        ThreadItem::ContextCompaction { id, .. } => id.clone(),
    }
}

/// What an item is.
pub open spec fn item_kind(item: ThreadItem) -> ItemKind {
    match item {
        ThreadItem::UserMessage { .. } => ItemKind::UserMessage,
        ThreadItem::AgentMessage { .. } => ItemKind::AgentMessage,
        ThreadItem::Plan { .. } => ItemKind::AgentMessage,
        ThreadItem::Reasoning { .. } => ItemKind::Reasoning,
        ThreadItem::CommandExecution { .. } => ItemKind::CommandExecution,
        ThreadItem::FileChange { .. } => ItemKind::FileChange,
        ThreadItem::McpToolCall { .. } => ItemKind::ToolCall,
        ThreadItem::DynamicToolCall { .. } => ItemKind::ToolCall,
        ThreadItem::CollabAgentToolCall { .. } => ItemKind::ToolCall,
        _ => ItemKind::Activity,
    }
}

/// A time, where it is after the epoch.
pub open spec fn positive(ms: i64) -> Option<i64> {
    if ms > 0 {
        Some(ms)
    } else {
        None
    }
}

/// A text value, or `null` where there is no text.
pub open spec fn nullable(text: Option<String>) -> JsonTree {
    match text {
        Some(t) => JsonTree::Text(t@),
        None => JsonTree::Null,
    }
}

fn nullable_text(text: &Option<String>) -> (json: Json)
    ensures
        json@ == nullable(*text),
{
    match text {
        Some(t) => Json::Text(t.clone()),
        None => Json::Null,
    }
}

/// What another agent was given.
pub open spec fn collab_input(prompt: Option<String>, model: Option<String>) -> JsonTree {
    JsonTree::Object(seq![("model"@, nullable(model)), ("prompt"@, nullable(prompt))])
}

/// What is told of a command when its item starts.
pub open spec fn command_start_matches(
    item: ThreadItem,
    started_at_ms: i64,
    start: Option<CommandExecutionStart>,
) -> bool {
    match item {
        ThreadItem::CommandExecution { command, cwd, process_id, status, .. } => {
            &&& start matches Some(s)
            &&& s.command == command
            &&& s.cwd@ == display(cwd@)
            &&& s.status matches Some(text)
            &&& text@ == command_status_chars(status)
            &&& s.process_id == process_id
            &&& s.started_at_ms == positive(started_at_ms)
        },
        _ => start is None,
    }
}

/// What is told of a tool call when its item starts.
pub open spec fn tool_start_matches(
    item: ThreadItem,
    started_at_ms: i64,
    start: Option<ToolCallStart>,
) -> bool {
    match item {
        ThreadItem::McpToolCall { server, tool, arguments, status, .. } => {
            &&& start matches Some(s)
            &&& s.name == tool
            &&& s.input@ == arguments@
            &&& s.server == Some(server)
            &&& s.status matches Some(text)
            &&& text@ == tool_status_chars(status)
            &&& s.started_at_ms == positive(started_at_ms)
        },
        ThreadItem::DynamicToolCall { tool, arguments, status, namespace, .. } => {
            &&& start matches Some(s)
            &&& s.name == tool
            &&& s.input@ == arguments@
            &&& s.server == namespace
            &&& s.status matches Some(text)
            &&& text@ == tool_status_chars(status)
            &&& s.started_at_ms == positive(started_at_ms)
        },
        ThreadItem::CollabAgentToolCall { tool, status, prompt, model, .. } => {
            &&& start matches Some(s)
            &&& s.name@ == display(tool@)
            &&& s.input@ == collab_input(prompt, model)
            &&& s.server matches Some(server)
            &&& server@ == "collab-agent"@
            &&& s.status matches Some(text)
            &&& text@ == display(status@)
            &&& s.started_at_ms == positive(started_at_ms)
        },
        _ => start is None,
    }
}

/// The name of an item, what it is, and what is told of it when it starts.
pub fn map_thread_item_start(item: &ThreadItem, started_at_ms: i64) -> (start: (
    String,
    ItemKind,
    Option<CommandExecutionStart>,
    Option<ToolCallStart>,
))
    ensures
        start.0 == item_name(*item),
        start.1 == item_kind(*item),
        command_start_matches(*item, started_at_ms, start.2),
        tool_start_matches(*item, started_at_ms, start.3),
{
    let kind = match item {
        ThreadItem::UserMessage { .. } => ItemKind::UserMessage,
        ThreadItem::AgentMessage { .. } => ItemKind::AgentMessage,
        ThreadItem::Plan { .. } => ItemKind::AgentMessage,
        ThreadItem::Reasoning { .. } => ItemKind::Reasoning,
        ThreadItem::CommandExecution { .. } => ItemKind::CommandExecution,
        ThreadItem::FileChange { .. } => ItemKind::FileChange,
        ThreadItem::McpToolCall { .. } => ItemKind::ToolCall,
        ThreadItem::DynamicToolCall { .. } => ItemKind::ToolCall,
        ThreadItem::CollabAgentToolCall { .. } => ItemKind::ToolCall,
        _ => ItemKind::Activity,
    };
    let started: Option<i64> = if started_at_ms > 0 {
        Some(started_at_ms)
    } else {
        None
    };
    let command = match item {
        ThreadItem::CommandExecution { command, cwd, process_id, status, .. } => Some(
            CommandExecutionStart {
                command: command.clone(),
                cwd: json_display(cwd),
                status: Some(command_status_string(*status)),
                process_id: copy_text(process_id),
                started_at_ms: started,
            },
        ),
        _ => None,
    };
    let tool = match item {
        ThreadItem::McpToolCall { server, tool, arguments, status, .. } => Some(
            ToolCallStart {
                name: tool.clone(),
                input: arguments.copy(),
                server: Some(server.clone()),
                status: Some(tool_status_string(*status)),
                started_at_ms: started,
            },
        ),
        ThreadItem::DynamicToolCall { tool, arguments, status, namespace, .. } => Some(
            ToolCallStart {
                name: tool.clone(),
                input: arguments.copy(),
                server: copy_text(namespace),
                status: Some(tool_status_string(*status)),
                started_at_ms: started,
            },
        ),
        ThreadItem::CollabAgentToolCall { tool, status, prompt, model, .. } => Some(
            ToolCallStart {
                name: json_display(tool),
                input: object2("model", nullable_text(model), "prompt", nullable_text(prompt)),
                server: Some("collab-agent".to_owned()),
                status: Some(json_display(status)),
                started_at_ms: started,
            },
        ),
        _ => None,
    };
    (thread_item_id(item), kind, command, tool)
}

/// The words of what a user said.
pub open spec fn spoken(content: Seq<UserContent>) -> Seq<Seq<char>>
    decreases content.len(),
{
    if content.len() == 0 {
        Seq::empty()
    } else {
        match content.last() {
            UserContent::Text(text) => spoken(content.drop_last()).push(text@),
            UserContent::Other => spoken(content.drop_last()),
        }
    }
}

fn user_text(content: &Vec<UserContent>) -> (text: String)
    ensures
        text@ == joined(spoken(content@), "\n"@),
{
    let mut parts: Vec<String> = Vec::new();
    let mut i: usize = 0;
    proof {
        assert(content@.take(0) == Seq::<UserContent>::empty());
        assert(views(parts@) =~= spoken(content@.take(0)));
    }
    while i < content.len()
        invariant
            i <= content@.len(),
            views(parts@) == spoken(content@.take(i as int)),
        decreases content@.len() - i,
    {
        let ghost before = parts@;
        proof {
            assert(content@.take(i + 1).drop_last() == content@.take(i as int));
            assert(content@.take(i + 1).last() == content@[i as int]);
        }
        match &content[i] {
            UserContent::Text(text) => {
                parts.push(text.clone());
                proof {
                    assert(views(parts@) =~= views(before).push(text@));
                }
            },
            UserContent::Other => {},
        }
        i = i + 1;
    }
    proof {
        assert(content@.take(content@.len() as int) == content@);
    }
    join(&parts, "\n")
}

/// What the agent thought: in short where that is told, else in full.
pub open spec fn reasoning_chars(content: Option<Vec<String>>, summary: Option<Vec<String>>) -> Seq<
    char,
> {
    match summary {
        Some(parts) => joined(views(parts@), "\n"@),
        None => match content {
            Some(parts) => joined(views(parts@), "\n"@),
            None => Seq::empty(),
        },
    }
}

/// The details of an image that was made.
pub open spec fn image_details(
    status: String,
    result: String,
    revised_prompt: Option<String>,
    saved_path: Option<String>,
) -> Seq<Seq<char>> {
    let a = seq!["status: "@ + status@];
    let b = match saved_path {
        Some(path) => a.push("saved: "@ + path@),
        None => a,
    };
    let c = match revised_prompt {
        Some(prompt) => b.push("prompt: "@ + prompt@),
        None => b,
    };
    if is_blank(result@) {
        c
    } else {
        c.push("result: "@ + result@)
    }
}

fn image_detail(
    status: &String,
    result: &String,
    revised_prompt: &Option<String>,
    saved_path: &Option<String>,
) -> (text: String)
    ensures
        text@ == joined(image_details(*status, *result, *revised_prompt, *saved_path), "\n"@),
{
    let mut parts: Vec<String> = Vec::new();
    parts.push(concat("status: ", status.as_str()));
    match saved_path {
        Some(path) => {
            parts.push(concat("saved: ", path.as_str()));
        },
        None => {},
    }
    match revised_prompt {
        Some(prompt) => {
            parts.push(concat("prompt: ", prompt.as_str()));
        },
        None => {},
    }
    if !blank(result.as_str()) {
        parts.push(concat("result: ", result.as_str()));
    }
    proof {
        assert(views(parts@) =~= image_details(*status, *result, *revised_prompt, *saved_path));
    }
    join(&parts, "\n")
}

/// What an activity is, as text, and what came with it.
pub open spec fn activity(
    payload: ItemPayload,
    title: Seq<char>,
    detail: Option<Seq<char>>,
    metadata: Option<Json>,
) -> bool {
    &&& payload matches ItemPayload::Activity { title: t, detail: d, metadata: m }
    &&& t@ == title
    &&& crate::json::opt_chars(d) == detail
    &&& opt_tree(m) == opt_tree(metadata)
}

/// An optional value by its tree.
pub open spec fn opt_tree(json: Option<Json>) -> Option<JsonTree> {
    match json {
        Some(value) => Some(value@),
        None => None,
    }
}

/// Another value of the same optional value.
pub fn copy_json(json: &Option<Json>) -> (copy: Option<Json>)
    ensures
        opt_tree(copy) == opt_tree(*json),
{
    match json {
        Some(value) => Some(value.copy()),
        None => None,
    }
}

/// What a tool of the client gave back: its content, or else whether it worked.
pub open spec fn dynamic_output(content_items: Option<Json>, success: Option<bool>) -> Option<
    JsonTree,
> {
    match content_items {
        Some(items) => Some(items@),
        None => match success {
            Some(worked) => Some(JsonTree::Object(seq![("success"@, JsonTree::Bool(worked))])),
            None => None,
        },
    }
}

/// What an item brings when it ends.
pub open spec fn payload_matches(item: ThreadItem, payload: ItemPayload) -> bool {
    match item {
        ThreadItem::UserMessage { content, .. } => {
            &&& payload matches ItemPayload::UserMessage { text }
            &&& text@ == joined(spoken(content@), "\n"@)
        },
        ThreadItem::AgentMessage { text, .. } => payload == (ItemPayload::AgentMessage { text }),
        ThreadItem::Plan { text, .. } => payload == (ItemPayload::AgentMessage { text }),
        ThreadItem::Reasoning { content, summary, .. } => {
            &&& payload matches ItemPayload::Reasoning { text }
            &&& text@ == reasoning_chars(content, summary)
        },
        ThreadItem::CommandExecution {
            command,
            cwd,
            process_id,
            status,
            aggregated_output,
            exit_code,
            duration_ms,
            ..
        } => {
            &&& payload matches ItemPayload::CommandExecution {
                command: c,
                cwd: d,
                output,
                exit_code: e,
                status: s,
                process_id: p,
                duration_ms: ms,
            }
            &&& c == command
            &&& d@ == display(cwd@)
            &&& output@ == (match aggregated_output {
                Some(text) => text@,
                None => Seq::empty(),
            })
            &&& e == (match exit_code {
                Some(code) => Some(code as i32),
                None => None,
            })
            &&& s matches Some(text)
            &&& text@ == command_status_chars(status)
            &&& p == process_id
            &&& ms == duration_ms
        },
        ThreadItem::FileChange { changes, status, .. } => {
            &&& payload matches ItemPayload::FileChange {
                path,
                change,
                changes: entries,
                status: s,
            }
            &&& entries_match(changes@, entries@)
            &&& path@ == (if changes@.len() == 0 {
                Seq::empty()
            } else {
                changes@[0].path@
            })
            &&& change == (if changes@.len() == 0 {
                FileChangeKind::Modified
            } else {
                crate::diff::kind_of(changes@[0].kind)
            })
            &&& s matches Some(text)
            &&& text@ == wire_chars(status)
        },
        ThreadItem::McpToolCall { server, tool, arguments, result, error, status, .. } => {
            &&& payload matches ItemPayload::ToolCall {
                name,
                input,
                output,
                server: v,
                status: s,
                error: e,
            }
            &&& name == tool
            &&& input@ == arguments@
            &&& opt_tree(output) == opt_tree(result)
            &&& v == Some(server)
            &&& s matches Some(text)
            &&& text@ == tool_wire_chars(status)
            &&& e == error
        },
        ThreadItem::DynamicToolCall {
            tool,
            arguments,
            content_items,
            status,
            namespace,
            success,
            ..
        } => {
            &&& payload matches ItemPayload::ToolCall {
                name,
                input,
                output,
                server: v,
                status: s,
                error: e,
            }
            &&& name == tool
            &&& input@ == arguments@
            &&& opt_tree(output) == dynamic_output(content_items, success)
            &&& v == namespace
            &&& s matches Some(text)
            &&& text@ == tool_wire_chars(status)
            &&& e is None
        },
        ThreadItem::CollabAgentToolCall { tool, status, prompt, model, .. } => {
            &&& payload matches ItemPayload::ToolCall {
                name,
                input,
                output,
                server: v,
                status: s,
                error: e,
            }
            &&& name@ == display(tool@)
            &&& input@ == collab_input(prompt, model)
            &&& opt_tree(output) == Some(status@)
            &&& v matches Some(server)
            &&& server@ == "collab-agent"@
            &&& s matches Some(text)
            &&& text@ == display(status@)
            &&& e is None
        },
        ThreadItem::HookPrompt { fragments, raw, .. } => activity(
            payload,
            "Hook prompt"@,
            Some(joined(views(fragments@), "\n"@)),
            raw,
        ),
        ThreadItem::SubAgentActivity { agent_path, agent_thread_id, kind, raw, .. } => activity(
            payload,
            "Sub-agent "@ + wire_chars(kind),
            Some(agent_path@ + " ("@ + agent_thread_id@ + ")"@),
            raw,
        ),
        ThreadItem::WebSearch { query, action, .. } => activity(
            payload,
            "Web search"@,
            Some(query@),
            action,
        ),
        ThreadItem::ImageView { path, raw, .. } => activity(
            payload,
            "Image viewed"@,
            Some(path@),
            raw,
        ),
        ThreadItem::Sleep { duration_ms, raw, .. } => activity(
            payload,
            "Sleep"@,
            Some(signed_decimal(duration_ms as int) + " ms"@),
            raw,
        ),
        ThreadItem::ImageGeneration { status, result, revised_prompt, saved_path, raw, .. } => activity(
            payload,
            "Image generation"@,
            Some(joined(image_details(status, result, revised_prompt, saved_path), "\n"@)),
            raw,
        ),
        ThreadItem::EnteredReviewMode { review, .. } => activity(
            payload,
            "Entered review mode"@,
            Some(review@),
            None,
        ),
        ThreadItem::ExitedReviewMode { review, .. } => activity(
            payload,
            "Exited review mode"@,
            Some(review@),
            None,
        ),
        ThreadItem::ContextCompaction { raw, .. } => activity(
            payload,
            "Context compaction"@,
            None,
            raw,
        ),
    }
}

fn activity_payload(title: String, detail: Option<String>, metadata: &Option<Json>) -> (payload:
    ItemPayload)
    ensures
        activity(payload, title@, crate::json::opt_chars(detail), *metadata),
{
    ItemPayload::Activity { title, detail, metadata: copy_json(metadata) }
}

/// What an item brings when it ends.
pub fn item_payload(item: &ThreadItem) -> (payload: ItemPayload)
    ensures
        payload_matches(*item, payload),
{
    match item {
        ThreadItem::UserMessage { content, .. } => ItemPayload::UserMessage {
            text: user_text(content),
        },
        ThreadItem::AgentMessage { text, .. } => ItemPayload::AgentMessage { text: text.clone() },
        ThreadItem::Plan { text, .. } => ItemPayload::AgentMessage { text: text.clone() },
        ThreadItem::Reasoning { content, summary, .. } => {
            let text = match summary {
                Some(parts) => join(parts, "\n"),
                None => match content {
                    Some(parts) => join(parts, "\n"),
                    None => String::new(),
                },
            };
            ItemPayload::Reasoning { text }
        },
        ThreadItem::CommandExecution {
            command,
            cwd,
            process_id,
            status,
            aggregated_output,
            exit_code,
            duration_ms,
            ..
        } => {
            let output = match aggregated_output {
                Some(text) => text.clone(),
                None => String::new(),
            };
            let exit = match exit_code {
                Some(code) => Some(#[verifier::truncate] (*code as i32)),
                None => None,
            };
            ItemPayload::CommandExecution {
                command: command.clone(),
                cwd: json_display(cwd),
                output,
                exit_code: exit,
                status: Some(command_status_string(*status)),
                process_id: copy_text(process_id),
                duration_ms: *duration_ms,
            }
        },
        ThreadItem::FileChange { changes, status, .. } => {
            let entries = map_file_changes(changes);
            let (path, change) = if changes.len() == 0 {
                (String::new(), FileChangeKind::Modified)
            } else {
                proof {
                    assert(crate::diff::entry_matches(changes@[0], entries@[0]));
                }
                (entries[0].path.clone(), entries[0].change)
            };
            ItemPayload::FileChange {
                path,
                change,
                changes: entries,
                status: Some(enum_string(status)),
            }
        },
        ThreadItem::McpToolCall { server, tool, arguments, result, error, status, .. } => {
            ItemPayload::ToolCall {
                name: tool.clone(),
                input: arguments.copy(),
                output: copy_json(result),
                server: Some(server.clone()),
                status: Some(tool_wire_string(*status)),
                error: copy_text(error),
            }
        },
        ThreadItem::DynamicToolCall {
            tool,
            arguments,
            content_items,
            status,
            namespace,
            success,
            ..
        } => {
            let output = match content_items {
                Some(items) => Some(items.copy()),
                None => match success {
                    Some(worked) => Some(object1("success", Json::Bool(*worked))),
                    None => None,
                },
            };
            ItemPayload::ToolCall {
                name: tool.clone(),
                input: arguments.copy(),
                output,
                server: copy_text(namespace),
                status: Some(tool_wire_string(*status)),
                error: None,
            }
        },
        ThreadItem::CollabAgentToolCall { tool, status, prompt, model, .. } => {
            ItemPayload::ToolCall {
                name: json_display(tool),
                input: object2("model", nullable_text(model), "prompt", nullable_text(prompt)),
                output: Some(status.copy()),
                server: Some("collab-agent".to_owned()),
                status: Some(json_display(status)),
                error: None,
            }
        },
        ThreadItem::HookPrompt { fragments, raw, .. } => activity_payload(
            "Hook prompt".to_owned(),
            Some(join(fragments, "\n")),
            raw,
        ),
        ThreadItem::SubAgentActivity { agent_path, agent_thread_id, kind, raw, .. } => {
            let mut detail = concat3(agent_path.as_str(), " (", agent_thread_id.as_str());
            detail.append(")");
            activity_payload(
                concat("Sub-agent ", enum_string(kind).as_str()),
                Some(detail),
                raw,
            )
        },
        ThreadItem::WebSearch { query, action, .. } => activity_payload(
            "Web search".to_owned(),
            Some(query.clone()),
            action,
        ),
        ThreadItem::ImageView { path, raw, .. } => activity_payload(
            "Image viewed".to_owned(),
            Some(path.clone()),
            raw,
        ),
        ThreadItem::Sleep { duration_ms, raw, .. } => activity_payload(
            "Sleep".to_owned(),
            Some(concat(i64_text(*duration_ms).as_str(), " ms")),
            raw,
        ),
        ThreadItem::ImageGeneration { status, result, revised_prompt, saved_path, raw, .. } => activity_payload(
            "Image generation".to_owned(),
            Some(image_detail(status, result, revised_prompt, saved_path)),
            raw,
        ),
        ThreadItem::EnteredReviewMode { review, .. } => activity_payload(
            "Entered review mode".to_owned(),
            Some(review.clone()),
            &None,
        ),
        ThreadItem::ExitedReviewMode { review, .. } => activity_payload(
            "Exited review mode".to_owned(),
            Some(review.clone()),
            &None,
        ),
        ThreadItem::ContextCompaction { raw, .. } => activity_payload(
            "Context compaction".to_owned(),
            None,
            raw,
        ),
    }
}

/// Whether a time in milliseconds of the epoch lies within the calendar, which reaches from the
/// start of the year -262143 to the end of the year 262142.
pub open spec fn in_calendar(ms: i64) -> bool {
    -8334601228800000 <= ms <= 8210266876799999
}

/// `chrono::DateTime::from_timestamp_millis` makes a time of every number of milliseconds within
/// the calendar and of no other, and `timestamp_millis` gives that number back.
#[verifier::external_body]
pub(crate) fn calendar_millis(ms: i64) -> (kept: Option<i64>)
    ensures
        kept == (if in_calendar(ms) {
            Some(ms)
        } else {
            None
        }),
{
    chrono::DateTime::from_timestamp_millis(ms).map(|time| time.timestamp_millis())
}

/// When an item came: the time that was told, or the present where that is no time.
pub open spec fn item_time(completed_at_ms: i64, now_ms: i64) -> i64 {
    if in_calendar(completed_at_ms) {
        completed_at_ms
    } else {
        now_ms
    }
}

/// Whether an item is what an ended item of the app-server brings.
pub open spec fn completes_as(
    native: ThreadItem,
    id: ItemId,
    completed_at_ms: i64,
    now_ms: i64,
    item: Item,
) -> bool {
    &&& item.id == id
    &&& item.harness_item_id == item_name(native)
    &&& item.created_at_ms == item_time(completed_at_ms, now_ms)
    &&& payload_matches(native, item.payload)
}

/// The item that an ended item of the app-server brings.
pub fn map_thread_item_complete(
    item: &ThreadItem,
    id: ItemId,
    harness_item_id: String,
    completed_at_ms: i64,
    now_ms: i64,
) -> (mapped: Item)
    ensures
        mapped.id == id,
        mapped.harness_item_id == harness_item_id,
        mapped.created_at_ms == item_time(completed_at_ms, now_ms),
        payload_matches(*item, mapped.payload),
{
    let payload = item_payload(item);
    let created_at_ms = match calendar_millis(completed_at_ms) {
        Some(ms) => ms,
        None => now_ms,
    };
    Item { id, harness_item_id, payload, created_at_ms }
}

} // verus!
