//! Items of turns, from what the bindings read.

use vstd::prelude::*;

use crate::items::opt_tree;
use crate::json::{opt_chars, Json, JsonTree};
use crate::protocol::{
    CommandExecutionStatus, FileUpdateChange, NativeTurnStatus, PatchChangeKind, ThreadItem,
    ToolCallStatus, UserContent,
};
use crate::reading::{
    has_kind, is_kind, list_at, list_in, number_at, number_in, opt_flag_at, opt_flag_in, opt_int,
    opt_number_at, opt_number_in, opt_text_at, opt_text_in, opt_texts_in, opt_texts_read, some_at,
    some_in, text_at, text_in, value_at, value_in,
};
use crate::text::same_text;

verus! {

/// Where a turn stands, by its word.
pub open spec fn turn_status(word: Seq<char>) -> NativeTurnStatus {
    if word == "completed"@ {
        NativeTurnStatus::Completed
    } else if word == "interrupted"@ {
        NativeTurnStatus::Interrupted
    } else if word == "failed"@ {
        NativeTurnStatus::Failed
    } else {
        NativeTurnStatus::InProgress
    }
}

pub(crate) fn turn_status_in(json: &Json, key: &str) -> (found: NativeTurnStatus)
    ensures
        found == turn_status(text_at(json@, key@)),
{
    let word = text_in(json, key);
    if same_text(word.as_str(), "completed") {
        NativeTurnStatus::Completed
    } else if same_text(word.as_str(), "interrupted") {
        NativeTurnStatus::Interrupted
    } else if same_text(word.as_str(), "failed") {
        NativeTurnStatus::Failed
    } else {
        NativeTurnStatus::InProgress
    }
}

/// Where a command stands, by its word.
pub open spec fn command_status(word: Seq<char>) -> CommandExecutionStatus {
    if word == "completed"@ {
        CommandExecutionStatus::Completed
    } else if word == "failed"@ {
        CommandExecutionStatus::Failed
    } else if word == "declined"@ {
        CommandExecutionStatus::Declined
    } else {
        CommandExecutionStatus::InProgress
    }
}

fn command_status_in(json: &Json, key: &str) -> (found: CommandExecutionStatus)
    ensures
        found == command_status(text_at(json@, key@)),
{
    let word = text_in(json, key);
    if same_text(word.as_str(), "completed") {
        CommandExecutionStatus::Completed
    } else if same_text(word.as_str(), "failed") {
        CommandExecutionStatus::Failed
    } else if same_text(word.as_str(), "declined") {
        CommandExecutionStatus::Declined
    } else {
        CommandExecutionStatus::InProgress
    }
}

/// Where a tool call stands, by its word.
pub open spec fn tool_status(word: Seq<char>) -> ToolCallStatus {
    if word == "completed"@ {
        ToolCallStatus::Completed
    } else if word == "failed"@ {
        ToolCallStatus::Failed
    } else {
        ToolCallStatus::InProgress
    }
}

fn tool_status_in(json: &Json, key: &str) -> (found: ToolCallStatus)
    ensures
        found == tool_status(text_at(json@, key@)),
{
    let word = text_in(json, key);
    if same_text(word.as_str(), "completed") {
        ToolCallStatus::Completed
    } else if same_text(word.as_str(), "failed") {
        ToolCallStatus::Failed
    } else {
        ToolCallStatus::InProgress
    }
}

/// How a file is patched, by its kind.
pub open spec fn patch_kind(tree: JsonTree) -> PatchChangeKind {
    if is_kind(tree, "add"@) {
        PatchChangeKind::Add
    } else if is_kind(tree, "delete"@) {
        PatchChangeKind::Delete
    } else {
        PatchChangeKind::Update
    }
}

pub(crate) fn patch_kind_of(json: &Json) -> (kind: PatchChangeKind)
    ensures
        kind == patch_kind(json@),
{
    if has_kind(json, "add") {
        PatchChangeKind::Add
    } else if has_kind(json, "delete") {
        PatchChangeKind::Delete
    } else {
        PatchChangeKind::Update
    }
}

/// Whether this is the patch of a file.
pub open spec fn change_reads(tree: JsonTree, read: FileUpdateChange) -> bool {
    &&& read.path@ == text_at(tree, "path"@)
    &&& read.kind == patch_kind(value_at(tree, "kind"@))
    &&& read.diff@ == text_at(tree, "diff"@)
}

fn change_from(json: &Json) -> (read: FileUpdateChange)
    ensures
        change_reads(json@, read),
{
    let kind = value_in(json, "kind");
    FileUpdateChange {
        path: text_in(json, "path"),
        kind: patch_kind_of(&kind),
        diff: text_in(json, "diff"),
    }
}

/// Whether these are the patches of a list.
pub open spec fn changes_read(list: Seq<JsonTree>, read: Seq<FileUpdateChange>) -> bool {
    &&& read.len() == list.len()
    &&& forall|i: int| 0 <= i < list.len() ==> change_reads(list[i], #[trigger] read[i])
}

pub(crate) fn changes_in(json: &Json, key: &str) -> (read: Vec<FileUpdateChange>)
    ensures
        changes_read(list_at(json@, key@), read@),
{
    match list_in(json, key) {
        Some(items) => {
            let mut read: Vec<FileUpdateChange> = Vec::new();
            let mut i: usize = 0;
            while i < items.len()
                invariant
                    i <= items@.len(),
                    read@.len() == i,
                    forall|j: int| 0 <= j < i ==> change_reads(items@[j]@, #[trigger] read@[j]),
                decreases items@.len() - i,
            {
                read.push(change_from(&items[i]));
                i = i + 1;
            }
            read
        },
        None => Vec::new(),
    }
}

/// Whether this is a part of what a user said.
pub open spec fn part_reads(tree: JsonTree, read: UserContent) -> bool {
    if is_kind(tree, "text"@) {
        read matches UserContent::Text(text) && text@ == text_at(tree, "text"@)
    } else {
        read is Other
    }
}

fn part_from(json: &Json) -> (read: UserContent)
    ensures
        part_reads(json@, read),
{
    if has_kind(json, "text") {
        UserContent::Text(text_in(json, "text"))
    } else {
        UserContent::Other
    }
}

/// Whether these are the parts of what a user said.
pub open spec fn content_read(list: Seq<JsonTree>, read: Seq<UserContent>) -> bool {
    &&& read.len() == list.len()
    &&& forall|i: int| 0 <= i < list.len() ==> part_reads(list[i], #[trigger] read[i])
}

fn content_in(json: &Json, key: &str) -> (read: Vec<UserContent>)
    ensures
        content_read(list_at(json@, key@), read@),
{
    match list_in(json, key) {
        Some(items) => {
            let mut read: Vec<UserContent> = Vec::new();
            let mut i: usize = 0;
            while i < items.len()
                invariant
                    i <= items@.len(),
                    read@.len() == i,
                    forall|j: int| 0 <= j < i ==> part_reads(items@[j]@, #[trigger] read@[j]),
                decreases items@.len() - i,
            {
                read.push(part_from(&items[i]));
                i = i + 1;
            }
            read
        },
        None => Vec::new(),
    }
}

/// Whether these are the words of a fragment.
pub open spec fn fragment_reads(tree: JsonTree, read: String) -> bool {
    read@ == text_at(tree, "text"@)
}

fn fragment_from(json: &Json) -> (read: String)
    ensures
        fragment_reads(json@, read),
{
    text_in(json, "text")
}

/// Whether these are the words of the fragments of a list.
pub open spec fn fragments_read(list: Seq<JsonTree>, read: Seq<String>) -> bool {
    &&& read.len() == list.len()
    &&& forall|i: int| 0 <= i < list.len() ==> fragment_reads(list[i], #[trigger] read[i])
}

fn fragments_in(json: &Json, key: &str) -> (read: Vec<String>)
    ensures
        fragments_read(list_at(json@, key@), read@),
{
    match list_in(json, key) {
        Some(items) => {
            let mut read: Vec<String> = Vec::new();
            let mut i: usize = 0;
            while i < items.len()
                invariant
                    i <= items@.len(),
                    read@.len() == i,
                    forall|j: int| 0 <= j < i ==> fragment_reads(items@[j]@, #[trigger] read@[j]),
                decreases items@.len() - i,
            {
                read.push(fragment_from(&items[i]));
                i = i + 1;
            }
            read
        },
        None => Vec::new(),
    }
}

/// The words of a failure, where there is one.
pub open spec fn failure_words(tree: Option<JsonTree>) -> Option<Seq<char>> {
    match tree {
        Some(failure) => Some(text_at(failure, "message"@)),
        None => None,
    }
}

fn failure_in(json: &Json, key: &str) -> (words: Option<String>)
    ensures
        opt_chars(words) == failure_words(some_at(json@, key@)),
{
    match some_in(json, key) {
        Some(failure) => Some(text_in(&failure, "message")),
        None => None,
    }
}

/// Whether this is an item of a turn; nothing where it is of a kind that has no place in a turn.
pub open spec fn item_reads(tree: JsonTree, item: Option<ThreadItem>) -> bool {
    if is_kind(tree, "userMessage"@) {
        &&& item matches Some(ThreadItem::UserMessage { id, content })
        &&& id@ == text_at(tree, "id"@)
        &&& content_read(list_at(tree, "content"@), content@)
    } else if is_kind(tree, "hookPrompt"@) {
        &&& item matches Some(ThreadItem::HookPrompt { id, fragments, raw })
        &&& id@ == text_at(tree, "id"@)
        &&& fragments_read(list_at(tree, "fragments"@), fragments@)
        &&& opt_tree(raw) == Some(value_at(tree, "fragments"@))
    } else if is_kind(tree, "agentMessage"@) {
        &&& item matches Some(ThreadItem::AgentMessage { id, text })
        &&& id@ == text_at(tree, "id"@)
        &&& text@ == text_at(tree, "text"@)
    } else if is_kind(tree, "plan"@) {
        &&& item matches Some(ThreadItem::Plan { id, text })
        &&& id@ == text_at(tree, "id"@)
        &&& text@ == text_at(tree, "text"@)
    } else if is_kind(tree, "reasoning"@) {
        &&& item matches Some(ThreadItem::Reasoning { id, content, summary })
        &&& id@ == text_at(tree, "id"@)
        &&& opt_texts_read(tree, "content"@, content)
        &&& opt_texts_read(tree, "summary"@, summary)
    } else if is_kind(tree, "commandExecution"@) {
        &&& item matches Some(ThreadItem::CommandExecution {
            id,
            command,
            cwd,
            process_id,
            status,
            aggregated_output,
            exit_code,
            duration_ms,
        })
        &&& id@ == text_at(tree, "id"@)
        &&& command@ == text_at(tree, "command"@)
        &&& cwd@ == value_at(tree, "cwd"@)
        &&& opt_chars(process_id) == opt_text_at(tree, "processId"@)
        &&& status == command_status(text_at(tree, "status"@))
        &&& opt_chars(aggregated_output) == opt_text_at(tree, "aggregatedOutput"@)
        &&& opt_int(exit_code) == opt_number_at(tree, "exitCode"@)
        &&& opt_int(duration_ms) == opt_number_at(tree, "durationMs"@)
    } else if is_kind(tree, "fileChange"@) {
        &&& item matches Some(ThreadItem::FileChange { id, changes, status })
        &&& id@ == text_at(tree, "id"@)
        &&& changes_read(list_at(tree, "changes"@), changes@)
        &&& opt_tree(status) == Some(value_at(tree, "status"@))
    } else if is_kind(tree, "mcpToolCall"@) {
        &&& item matches Some(ThreadItem::McpToolCall {
            id,
            server,
            tool,
            arguments,
            result,
            error,
            status,
        })
        &&& id@ == text_at(tree, "id"@)
        &&& server@ == text_at(tree, "server"@)
        &&& tool@ == text_at(tree, "tool"@)
        &&& arguments@ == value_at(tree, "arguments"@)
        &&& opt_tree(result) == some_at(tree, "result"@)
        &&& opt_chars(error) == failure_words(some_at(tree, "error"@))
        &&& status == tool_status(text_at(tree, "status"@))
    } else if is_kind(tree, "dynamicToolCall"@) {
        &&& item matches Some(ThreadItem::DynamicToolCall {
            id,
            tool,
            arguments,
            content_items,
            status,
            namespace,
            success,
        })
        &&& id@ == text_at(tree, "id"@)
        &&& tool@ == text_at(tree, "tool"@)
        &&& arguments@ == value_at(tree, "arguments"@)
        &&& opt_tree(content_items) == some_at(tree, "contentItems"@)
        &&& status == tool_status(text_at(tree, "status"@))
        &&& opt_chars(namespace) == opt_text_at(tree, "namespace"@)
        &&& success == opt_flag_at(tree, "success"@)
    } else if is_kind(tree, "collabAgentToolCall"@) {
        &&& item matches Some(ThreadItem::CollabAgentToolCall { id, tool, status, prompt, model })
        &&& id@ == text_at(tree, "id"@)
        &&& tool@ == value_at(tree, "tool"@)
        &&& status@ == value_at(tree, "status"@)
        &&& opt_chars(prompt) == opt_text_at(tree, "prompt"@)
        &&& opt_chars(model) == opt_text_at(tree, "model"@)
    } else if is_kind(tree, "subAgentActivity"@) {
        &&& item matches Some(ThreadItem::SubAgentActivity {
            id,
            agent_path,
            agent_thread_id,
            kind,
            raw,
        })
        &&& id@ == text_at(tree, "id"@)
        &&& agent_path@ == text_at(tree, "agentPath"@)
        &&& agent_thread_id@ == text_at(tree, "agentThreadId"@)
        &&& opt_tree(kind) == Some(value_at(tree, "kind"@))
        &&& opt_tree(raw) == Some(tree)
    } else if is_kind(tree, "webSearch"@) {
        &&& item matches Some(ThreadItem::WebSearch { id, query, action })
        &&& id@ == text_at(tree, "id"@)
        &&& query@ == text_at(tree, "query"@)
        &&& opt_tree(action) == some_at(tree, "action"@)
    } else if is_kind(tree, "imageView"@) {
        &&& item matches Some(ThreadItem::ImageView { id, path, raw })
        &&& id@ == text_at(tree, "id"@)
        &&& path@ == text_at(tree, "path"@)
        &&& opt_tree(raw) == Some(tree)
    } else if is_kind(tree, "sleep"@) {
        &&& item matches Some(ThreadItem::Sleep { id, duration_ms, raw })
        &&& id@ == text_at(tree, "id"@)
        &&& duration_ms == number_at(tree, "durationMs"@)
        &&& opt_tree(raw) == Some(tree)
    } else if is_kind(tree, "imageGeneration"@) {
        &&& item matches Some(ThreadItem::ImageGeneration {
            id,
            status,
            result,
            revised_prompt,
            saved_path,
            raw,
        })
        &&& id@ == text_at(tree, "id"@)
        &&& status@ == text_at(tree, "status"@)
        &&& result@ == text_at(tree, "result"@)
        &&& opt_chars(revised_prompt) == opt_text_at(tree, "revisedPrompt"@)
        &&& opt_chars(saved_path) == opt_text_at(tree, "savedPath"@)
        &&& opt_tree(raw) == Some(tree)
    } else if is_kind(tree, "enteredReviewMode"@) {
        &&& item matches Some(ThreadItem::EnteredReviewMode { id, review })
        &&& id@ == text_at(tree, "id"@)
        &&& review@ == text_at(tree, "review"@)
    } else if is_kind(tree, "exitedReviewMode"@) {
        &&& item matches Some(ThreadItem::ExitedReviewMode { id, review })
        &&& id@ == text_at(tree, "id"@)
        &&& review@ == text_at(tree, "review"@)
    } else if is_kind(tree, "contextCompaction"@) {
        &&& item matches Some(ThreadItem::ContextCompaction { id, raw })
        &&& id@ == text_at(tree, "id"@)
        &&& opt_tree(raw) == Some(tree)
    } else {
        item is None
    }
}

/// An item of a turn; nothing where it is of a kind that has no place in a turn.
pub fn read_item(json: &Json) -> (item: Option<ThreadItem>)
    ensures
        item_reads(json@, item),
{
    if has_kind(json, "userMessage") {
        Some(
            ThreadItem::UserMessage {
                id: text_in(json, "id"),
                content: content_in(json, "content"),
            },
        )
    } else if has_kind(json, "hookPrompt") {
        Some(
            ThreadItem::HookPrompt {
                id: text_in(json, "id"),
                fragments: fragments_in(json, "fragments"),
                raw: Some(value_in(json, "fragments")),
            },
        )
    } else if has_kind(json, "agentMessage") {
        Some(
            ThreadItem::AgentMessage { id: text_in(json, "id"), text: text_in(json, "text") },
        )
    } else if has_kind(json, "plan") {
        Some(
            ThreadItem::Plan { id: text_in(json, "id"), text: text_in(json, "text") },
        )
    } else if has_kind(json, "reasoning") {
        Some(
            ThreadItem::Reasoning {
                id: text_in(json, "id"),
                content: opt_texts_in(json, "content"),
                summary: opt_texts_in(json, "summary"),
            },
        )
    } else if has_kind(json, "commandExecution") {
        Some(
            ThreadItem::CommandExecution {
                id: text_in(json, "id"),
                command: text_in(json, "command"),
                cwd: value_in(json, "cwd"),
                process_id: opt_text_in(json, "processId"),
                status: command_status_in(json, "status"),
                aggregated_output: opt_text_in(json, "aggregatedOutput"),
                exit_code: opt_number_in(json, "exitCode"),
                duration_ms: opt_number_in(json, "durationMs"),
            },
        )
    } else if has_kind(json, "fileChange") {
        Some(
            ThreadItem::FileChange {
                id: text_in(json, "id"),
                changes: changes_in(json, "changes"),
                status: Some(value_in(json, "status")),
            },
        )
    } else if has_kind(json, "mcpToolCall") {
        Some(
            ThreadItem::McpToolCall {
                id: text_in(json, "id"),
                server: text_in(json, "server"),
                tool: text_in(json, "tool"),
                arguments: value_in(json, "arguments"),
                result: some_in(json, "result"),
                error: failure_in(json, "error"),
                status: tool_status_in(json, "status"),
            },
        )
    } else if has_kind(json, "dynamicToolCall") {
        Some(
            ThreadItem::DynamicToolCall {
                id: text_in(json, "id"),
                tool: text_in(json, "tool"),
                arguments: value_in(json, "arguments"),
                content_items: some_in(json, "contentItems"),
                status: tool_status_in(json, "status"),
                namespace: opt_text_in(json, "namespace"),
                success: opt_flag_in(json, "success"),
            },
        )
    } else if has_kind(json, "collabAgentToolCall") {
        Some(
            ThreadItem::CollabAgentToolCall {
                id: text_in(json, "id"),
                tool: value_in(json, "tool"),
                status: value_in(json, "status"),
                prompt: opt_text_in(json, "prompt"),
                model: opt_text_in(json, "model"),
            },
        )
    } else if has_kind(json, "subAgentActivity") {
        Some(
            ThreadItem::SubAgentActivity {
                id: text_in(json, "id"),
                agent_path: text_in(json, "agentPath"),
                agent_thread_id: text_in(json, "agentThreadId"),
                kind: Some(value_in(json, "kind")),
                raw: Some(json.copy()),
            },
        )
    } else if has_kind(json, "webSearch") {
        Some(
            ThreadItem::WebSearch {
                id: text_in(json, "id"),
                query: text_in(json, "query"),
                action: some_in(json, "action"),
            },
        )
    } else if has_kind(json, "imageView") {
        Some(
            ThreadItem::ImageView {
                id: text_in(json, "id"),
                path: text_in(json, "path"),
                raw: Some(json.copy()),
            },
        )
    } else if has_kind(json, "sleep") {
        Some(
            ThreadItem::Sleep {
                id: text_in(json, "id"),
                duration_ms: number_in(json, "durationMs"),
                raw: Some(json.copy()),
            },
        )
    } else if has_kind(json, "imageGeneration") {
        Some(
            ThreadItem::ImageGeneration {
                id: text_in(json, "id"),
                status: text_in(json, "status"),
                result: text_in(json, "result"),
                revised_prompt: opt_text_in(json, "revisedPrompt"),
                saved_path: opt_text_in(json, "savedPath"),
                raw: Some(json.copy()),
            },
        )
    } else if has_kind(json, "enteredReviewMode") {
        Some(
            ThreadItem::EnteredReviewMode {
                id: text_in(json, "id"),
                review: text_in(json, "review"),
            },
        )
    } else if has_kind(json, "exitedReviewMode") {
        Some(
            ThreadItem::ExitedReviewMode {
                id: text_in(json, "id"),
                review: text_in(json, "review"),
            },
        )
    } else if has_kind(json, "contextCompaction") {
        Some(
            ThreadItem::ContextCompaction { id: text_in(json, "id"), raw: Some(json.copy()) },
        )
    } else {
        None
    }
}

} // verus!
