//! What is read of the messages of the app-server, name by name.

use vstd::prelude::*;

use crate::answers::{auth_status, model_reads, opening_reads, server_reads};
use crate::catalog::{McpAuthStatus, NativeModel, NativeServerStatus};
use crate::json::{member, JsonTree};
use crate::number::signed_decimal;
use crate::opening::OpenResponse;
use crate::protocol::{
    CodexErrorInfo, CommandAction, CommandExecutionStatus, FileSystemEntry, FileSystemPath,
    FileUpdateChange, NativeTurnStatus, NetworkAmendment, NetworkContext, Notification,
    PatchChangeKind, PlanStep, ServerRequest, ThreadItem, ToolCallStatus, UserContent,
};
use crate::reading::{
    chars_in, flag_at, list_at, number_at, opt_number_at, opt_text_at, some_at, text_at, texts_read,
    value_at,
};
use crate::text_laws::law_signed_number_comes_back_from_writing;
use crate::wire_items::{
    change_reads, changes_read, command_status, content_read, item_reads, part_reads, patch_kind,
    tool_status, turn_status,
};
use crate::wire_notifications::{info_reads, piece_reads, report_reads, step_reads, steps_read};
use crate::wire_requests::{
    action_reads, amendment_reads, entry_reads, network_reads, request_reads,
};

verus! {

/// Whether a text is the one under a name. Where there is none it is empty.
pub open spec fn text_under(tree: JsonTree, key: Seq<char>, read: Seq<char>) -> bool {
    &&& member(tree, key) matches Some(JsonTree::Text(text)) ==> read == text
    &&& !(member(tree, key) is Some && member(tree, key)->Some_0 is Text) ==> read.len() == 0
}

/// Whether a text is the one under a name, where there is one.
pub open spec fn opt_text_under(tree: JsonTree, key: Seq<char>, read: Option<String>) -> bool {
    &&& member(tree, key) matches Some(JsonTree::Text(text)) ==> read is Some && read->Some_0@
        == text
    &&& !(member(tree, key) is Some && member(tree, key)->Some_0 is Text) ==> read is None
}

/// Whether the text under a name is a word.
pub open spec fn says(tree: JsonTree, key: Seq<char>, word: Seq<char>) -> bool {
    member(tree, key) == Some(JsonTree::Text(word))
}

/// Whether a number is the one under a name, where there is one that can be held.
pub open spec fn number_under(tree: JsonTree, key: Seq<char>, read: Option<i64>) -> bool {
    &&& forall|n: i64|
        member(tree, key) == Some(JsonTree::Number(#[trigger] signed_decimal(n as int)))
            ==> read == Some(n)
    &&& !(member(tree, key) is Some && member(tree, key)->Some_0 is Number) ==> read is None
}

/// Whether a number is the one under a name. Where there is none it is zero.
pub open spec fn count_under(tree: JsonTree, key: Seq<char>, read: i64) -> bool {
    &&& forall|n: i64|
        member(tree, key) == Some(JsonTree::Number(#[trigger] signed_decimal(n as int))) ==> read
            == n
    &&& !(member(tree, key) is Some && member(tree, key)->Some_0 is Number) ==> read == 0
}

/// What is read under a name is what the name stands for. A value that is missing is read as if it
/// were null, and null as if it were missing.
pub proof fn law_values_are_read_by_name(tree: JsonTree, key: Seq<char>)
    ensures
        member(tree, key) matches Some(value) ==> value_at(tree, key) == value,
        member(tree, key) is None ==> value_at(tree, key) is Null,
        member(tree, key) is None || member(tree, key)->Some_0 is Null ==> some_at(
            tree,
            key,
        ) is None,
        member(tree, key) matches Some(value) ==> (!(value is Null) ==> some_at(tree, key) == Some(
            value,
        )),
        text_under(tree, key, text_at(tree, key)),
        member(tree, key) matches Some(JsonTree::Text(text)) ==> opt_text_at(tree, key) == Some(
            text,
        ),
        flag_at(tree, key) <==> member(tree, key) == Some(JsonTree::Bool(true)),
        member(tree, key) matches Some(JsonTree::Array(items)) ==> list_at(tree, key) == items,
        !(member(tree, key) is Some && member(tree, key)->Some_0 is Array) ==> list_at(
            tree,
            key,
        ).len() == 0,
{
}

/// A number that was written is read back from under its name.
pub proof fn law_numbers_are_read_by_name(tree: JsonTree, key: Seq<char>, n: i64)
    requires
        member(tree, key) == Some(JsonTree::Number(signed_decimal(n as int))),
    ensures
        opt_number_at(tree, key) == Some(n as int),
        number_at(tree, key) == n,
{
    law_signed_number_comes_back_from_writing(n);
}

proof fn lemma_number(tree: JsonTree, key: Seq<char>)
    ensures
        forall|n: i64|
            member(tree, key) == Some(JsonTree::Number(#[trigger] signed_decimal(n as int)))
                ==> opt_number_at(tree, key) == Some(n as int),
{
    assert forall|n: i64|
        member(tree, key) == Some(
            JsonTree::Number(#[trigger] signed_decimal(n as int)),
        ) implies opt_number_at(tree, key) == Some(n as int) by {
        law_signed_number_comes_back_from_writing(n);
    }
}

proof fn lemma_states_apart()
    ensures
        "completed"@ != "interrupted"@,
        "completed"@ != "failed"@,
        "completed"@ != "declined"@,
        "completed"@.len() > 0,
        "interrupted"@ != "failed"@,
        "interrupted"@.len() > 0,
        "failed"@ != "declined"@,
        "failed"@.len() > 0,
        "declined"@.len() > 0,
        "notLoaded"@.len() > 0,
{
    reveal_strlit("completed");
    assert("completed"@.len() == 9);
    reveal_strlit("interrupted");
    assert("interrupted"@.len() == 11);
    reveal_strlit("failed");
    assert("failed"@.len() == 6);
    reveal_strlit("declined");
    assert("declined"@.len() == 8);
    reveal_strlit("notLoaded");
    assert("notLoaded"@.len() == 9);
}

/// Each state is read from its own word alone. What is not known is still in progress.
pub proof fn law_states_are_read_from_their_words(word: Seq<char>)
    ensures
        turn_status(word) == NativeTurnStatus::Completed <==> word == "completed"@,
        turn_status(word) == NativeTurnStatus::Interrupted <==> word == "interrupted"@,
        turn_status(word) == NativeTurnStatus::Failed <==> word == "failed"@,
        command_status(word) == CommandExecutionStatus::Completed <==> word == "completed"@,
        command_status(word) == CommandExecutionStatus::Failed <==> word == "failed"@,
        command_status(word) == CommandExecutionStatus::Declined <==> word == "declined"@,
        tool_status(word) == ToolCallStatus::Completed <==> word == "completed"@,
        tool_status(word) == ToolCallStatus::Failed <==> word == "failed"@,
{
    lemma_states_apart();
}

/// What became of a file is read from its own word alone; every other word is a change.
pub proof fn law_patches_are_read_from_their_words(tree: JsonTree)
    ensures
        patch_kind(tree) == PatchChangeKind::Add <==> member(tree, "type"@) == Some(
            JsonTree::Text("add"@),
        ),
        patch_kind(tree) == PatchChangeKind::Delete <==> member(tree, "type"@) == Some(
            JsonTree::Text("delete"@),
        ),
{
    reveal_strlit("add");
    assert("add"@.len() == 3);
    reveal_strlit("delete");
    assert("delete"@.len() == 6);
}

/// How one logs in to a server is read from its own word alone.
pub proof fn law_logins_are_read_from_their_words(word: Seq<char>)
    ensures
        auth_status(word) == McpAuthStatus::Unsupported <==> word == "unsupported"@,
        auth_status(word) == McpAuthStatus::NotLoggedIn <==> word == "notLoggedIn"@,
        auth_status(word) == McpAuthStatus::BearerToken <==> word == "bearerToken"@,
        auth_status(word) == McpAuthStatus::OAuth <==> word == "oAuth"@,
{
    reveal_strlit("unsupported");
    assert("unsupported"@.len() == 11);
    reveal_strlit("notLoggedIn");
    assert("notLoggedIn"@.len() == 11);
    reveal_strlit("bearerToken");
    assert("bearerToken"@.len() == 11);
    reveal_strlit("oAuth");
    assert("oAuth"@.len() == 5);
    assert("unsupported"@[0] != "notLoggedIn"@[0]);
    assert("unsupported"@[0] != "bearerToken"@[0]);
    assert("notLoggedIn"@[0] != "bearerToken"@[0]);
}

/// The answer to an opening tells the thread by its name, and the model; the effort is told for a
/// thread that was gone on with.
pub proof fn law_opening_is_read_by_name(resumed: bool, tree: JsonTree, read: OpenResponse)
    requires
        opening_reads(resumed, tree, read),
    ensures
        member(tree, "thread"@) matches Some(thread) ==> {
            &&& text_under(thread, "id"@, read.harness_thread_id@)
            &&& opt_text_under(thread, "agentNickname"@, read.agent_nickname)
            &&& opt_text_under(thread, "parentThreadId"@, read.parent_thread_id)
        },
        text_under(tree, "model"@, read.model@),
        text_under(tree, "modelProvider"@, read.model_provider@),
        resumed ==> opt_text_under(tree, "reasoningEffort"@, read.reasoning_effort),
        !resumed ==> read.reasoning_effort is None,
{
}

/// A model is read by its names.
pub proof fn law_model_is_read_by_name(tree: JsonTree, read: NativeModel)
    requires
        model_reads(tree, read),
    ensures
        text_under(tree, "id"@, read.id@),
        text_under(tree, "model"@, read.model@),
        text_under(tree, "displayName"@, read.display_name@),
        text_under(tree, "defaultReasoningEffort"@, read.default_reasoning_effort@),
        read.hidden <==> member(tree, "hidden"@) == Some(JsonTree::Bool(true)),
        read.is_default <==> member(tree, "isDefault"@) == Some(JsonTree::Bool(true)),
        member(tree, "supportedReasoningEfforts"@) matches Some(JsonTree::Array(list)) ==> {
            &&& read.supported_reasoning_efforts@.len() == list.len()
            &&& forall|i: int|
                0 <= i < list.len() ==> text_under(
                    list[i],
                    "reasoningEffort"@,
                    (#[trigger] read.supported_reasoning_efforts@[i])@,
                )
        },
{
}

/// A server is read by its names.
pub proof fn law_server_is_read_by_name(tree: JsonTree, read: NativeServerStatus)
    requires
        server_reads(tree, read),
    ensures
        text_under(tree, "name"@, read.name@),
        read.auth_status == McpAuthStatus::BearerToken <==> member(tree, "authStatus"@) == Some(
            JsonTree::Text("bearerToken"@),
        ),
        read.auth_status == McpAuthStatus::OAuth <==> member(tree, "authStatus"@) == Some(
            JsonTree::Text("oAuth"@),
        ),
        read.auth_status == McpAuthStatus::NotLoggedIn <==> member(tree, "authStatus"@) == Some(
            JsonTree::Text("notLoggedIn"@),
        ),
        member(tree, "serverInfo"@) matches Some(info) ==> (!(info is Null) ==> {
            &&& read.server_info matches Some(told)
            &&& text_under(info, "name"@, told.name@)
            &&& opt_text_under(info, "title"@, told.title)
            &&& opt_text_under(info, "description"@, told.description)
            &&& text_under(info, "version"@, told.version@)
            &&& opt_text_under(info, "websiteUrl"@, told.website_url)
        }),
        member(tree, "resources"@) matches Some(JsonTree::Array(list)) ==> {
            &&& read.resources@.len() == list.len()
            &&& forall|i: int|
                0 <= i < list.len() ==> {
                    &&& text_under(list[i], "name"@, (#[trigger] read.resources@[i]).name@)
                    &&& text_under(list[i], "uri"@, read.resources@[i].uri@)
                    &&& opt_text_under(list[i], "title"@, read.resources@[i].title)
                    &&& opt_text_under(list[i], "description"@, read.resources@[i].description)
                    &&& opt_text_under(list[i], "mimeType"@, read.resources@[i].mime_type)
                }
        },
        member(tree, "tools"@) matches Some(JsonTree::Object(entries)) ==> {
            &&& read.tools@.len() == entries.len()
            &&& forall|i: int|
                0 <= i < entries.len() ==> {
                    &&& (#[trigger] read.tools@[i]).0@ == entries[i].0
                    &&& text_under(entries[i].1, "name"@, read.tools@[i].1.name@)
                    &&& opt_text_under(entries[i].1, "title"@, read.tools@[i].1.title)
                    &&& opt_text_under(entries[i].1, "description"@, read.tools@[i].1.description)
                }
        },
{
    law_logins_are_read_from_their_words(text_at(tree, "authStatus"@));
    reveal_strlit("bearerToken");
    assert("bearerToken"@.len() == 11);
    reveal_strlit("oAuth");
    assert("oAuth"@.len() == 5);
    reveal_strlit("notLoggedIn");
    assert("notLoggedIn"@.len() == 11);
}

/// An item is read by its type, and each part of it by its own name. A text that is missing is
/// empty, and one that need not be there is none.
pub proof fn law_item_is_read_by_name(tree: JsonTree, item: Option<ThreadItem>)
    requires
        item_reads(tree, item),
    ensures
        says(tree, "type"@, "userMessage"@) ==> {
            &&& item matches Some(ThreadItem::UserMessage { id, .. })
            &&& text_under(tree, "id"@, id@)
        },
        says(tree, "type"@, "hookPrompt"@) ==> {
            &&& item matches Some(ThreadItem::HookPrompt { id, .. })
            &&& text_under(tree, "id"@, id@)
        },
        says(tree, "type"@, "agentMessage"@) ==> {
            &&& item matches Some(ThreadItem::AgentMessage { id, text, .. })
            &&& text_under(tree, "id"@, id@)
            &&& text_under(tree, "text"@, text@)
        },
        says(tree, "type"@, "plan"@) ==> {
            &&& item matches Some(ThreadItem::Plan { id, text, .. })
            &&& text_under(tree, "id"@, id@)
            &&& text_under(tree, "text"@, text@)
        },
        says(tree, "type"@, "reasoning"@) ==> {
            &&& item matches Some(ThreadItem::Reasoning { id, .. })
            &&& text_under(tree, "id"@, id@)
        },
        says(tree, "type"@, "commandExecution"@) ==> {
            &&& item matches Some(ThreadItem::CommandExecution {
                id,
                command,
                cwd,
                process_id,
                status,
                aggregated_output,
                exit_code,
                duration_ms,
                ..
            })
            &&& text_under(tree, "id"@, id@)
            &&& text_under(tree, "command"@, command@)
            &&& opt_text_under(tree, "processId"@, process_id)
            &&& opt_text_under(tree, "aggregatedOutput"@, aggregated_output)
            &&& member(tree, "cwd"@) matches Some(place) ==> cwd@ == place
            &&& number_under(tree, "exitCode"@, exit_code)
            &&& number_under(tree, "durationMs"@, duration_ms)
            &&& status == CommandExecutionStatus::Completed <==> says(tree, "status"@, "completed"@)
            &&& status == CommandExecutionStatus::Failed <==> says(tree, "status"@, "failed"@)
            &&& status == CommandExecutionStatus::Declined <==> says(tree, "status"@, "declined"@)
        },
        says(tree, "type"@, "fileChange"@) ==> {
            &&& item matches Some(ThreadItem::FileChange { id, .. })
            &&& text_under(tree, "id"@, id@)
        },
        says(tree, "type"@, "mcpToolCall"@) ==> {
            &&& item matches Some(ThreadItem::McpToolCall {
                id,
                server,
                tool,
                arguments,
                status,
                ..
            })
            &&& text_under(tree, "id"@, id@)
            &&& text_under(tree, "server"@, server@)
            &&& text_under(tree, "tool"@, tool@)
            &&& member(tree, "arguments"@) matches Some(given) ==> arguments@ == given
            &&& status == ToolCallStatus::Completed <==> says(tree, "status"@, "completed"@)
            &&& status == ToolCallStatus::Failed <==> says(tree, "status"@, "failed"@)
        },
        says(tree, "type"@, "dynamicToolCall"@) ==> {
            &&& item matches Some(ThreadItem::DynamicToolCall {
                id,
                tool,
                arguments,
                status,
                namespace,
                ..
            })
            &&& text_under(tree, "id"@, id@)
            &&& text_under(tree, "tool"@, tool@)
            &&& opt_text_under(tree, "namespace"@, namespace)
            &&& member(tree, "arguments"@) matches Some(given) ==> arguments@ == given
            &&& status == ToolCallStatus::Completed <==> says(tree, "status"@, "completed"@)
            &&& status == ToolCallStatus::Failed <==> says(tree, "status"@, "failed"@)
        },
        says(tree, "type"@, "collabAgentToolCall"@) ==> {
            &&& item matches Some(ThreadItem::CollabAgentToolCall { id, prompt, model, .. })
            &&& text_under(tree, "id"@, id@)
            &&& opt_text_under(tree, "prompt"@, prompt)
            &&& opt_text_under(tree, "model"@, model)
        },
        says(tree, "type"@, "subAgentActivity"@) ==> {
            &&& item matches Some(ThreadItem::SubAgentActivity {
                id,
                agent_path,
                agent_thread_id,
                ..
            })
            &&& text_under(tree, "id"@, id@)
            &&& text_under(tree, "agentPath"@, agent_path@)
            &&& text_under(tree, "agentThreadId"@, agent_thread_id@)
        },
        says(tree, "type"@, "webSearch"@) ==> {
            &&& item matches Some(ThreadItem::WebSearch { id, query, .. })
            &&& text_under(tree, "id"@, id@)
            &&& text_under(tree, "query"@, query@)
        },
        says(tree, "type"@, "imageView"@) ==> {
            &&& item matches Some(ThreadItem::ImageView { id, path, .. })
            &&& text_under(tree, "id"@, id@)
            &&& text_under(tree, "path"@, path@)
        },
        says(tree, "type"@, "sleep"@) ==> {
            &&& item matches Some(ThreadItem::Sleep { id, .. })
            &&& text_under(tree, "id"@, id@)
        },
        says(tree, "type"@, "imageGeneration"@) ==> {
            &&& item matches Some(ThreadItem::ImageGeneration {
                id,
                status,
                result,
                revised_prompt,
                saved_path,
                ..
            })
            &&& text_under(tree, "id"@, id@)
            &&& text_under(tree, "status"@, status@)
            &&& text_under(tree, "result"@, result@)
            &&& opt_text_under(tree, "revisedPrompt"@, revised_prompt)
            &&& opt_text_under(tree, "savedPath"@, saved_path)
        },
        says(tree, "type"@, "enteredReviewMode"@) ==> {
            &&& item matches Some(ThreadItem::EnteredReviewMode { id, review, .. })
            &&& text_under(tree, "id"@, id@)
            &&& text_under(tree, "review"@, review@)
        },
        says(tree, "type"@, "exitedReviewMode"@) ==> {
            &&& item matches Some(ThreadItem::ExitedReviewMode { id, review, .. })
            &&& text_under(tree, "id"@, id@)
            &&& text_under(tree, "review"@, review@)
        },
        says(tree, "type"@, "contextCompaction"@) ==> {
            &&& item matches Some(ThreadItem::ContextCompaction { id, .. })
            &&& text_under(tree, "id"@, id@)
        },
{
    reveal_strlit("userMessage");
    assert("userMessage"@.len() == 11);
    reveal_strlit("hookPrompt");
    assert("hookPrompt"@.len() == 10);
    reveal_strlit("agentMessage");
    assert("agentMessage"@.len() == 12);
    reveal_strlit("plan");
    assert("plan"@.len() == 4);
    reveal_strlit("reasoning");
    assert("reasoning"@.len() == 9);
    reveal_strlit("commandExecution");
    assert("commandExecution"@.len() == 16);
    reveal_strlit("fileChange");
    assert("fileChange"@.len() == 10);
    reveal_strlit("mcpToolCall");
    assert("mcpToolCall"@.len() == 11);
    reveal_strlit("dynamicToolCall");
    assert("dynamicToolCall"@.len() == 15);
    reveal_strlit("collabAgentToolCall");
    assert("collabAgentToolCall"@.len() == 19);
    reveal_strlit("subAgentActivity");
    assert("subAgentActivity"@.len() == 16);
    reveal_strlit("webSearch");
    assert("webSearch"@.len() == 9);
    reveal_strlit("imageView");
    assert("imageView"@.len() == 9);
    reveal_strlit("sleep");
    assert("sleep"@.len() == 5);
    reveal_strlit("imageGeneration");
    assert("imageGeneration"@.len() == 15);
    reveal_strlit("enteredReviewMode");
    assert("enteredReviewMode"@.len() == 17);
    reveal_strlit("exitedReviewMode");
    assert("exitedReviewMode"@.len() == 16);
    reveal_strlit("contextCompaction");
    assert("contextCompaction"@.len() == 17);
    assert("userMessage"@[0] != "mcpToolCall"@[0]);
    assert("hookPrompt"@[0] != "fileChange"@[0]);
    assert("reasoning"@[0] != "webSearch"@[0]);
    assert("reasoning"@[0] != "imageView"@[0]);
    assert("webSearch"@[0] != "imageView"@[0]);
    assert("commandExecution"@[0] != "subAgentActivity"@[0]);
    assert("commandExecution"@[0] != "exitedReviewMode"@[0]);
    assert("subAgentActivity"@[0] != "exitedReviewMode"@[0]);
    assert("dynamicToolCall"@[0] != "imageGeneration"@[0]);
    assert("enteredReviewMode"@[0] != "contextCompaction"@[0]);
    lemma_states_apart();
    lemma_number(tree, "exitCode"@);
    lemma_number(tree, "durationMs"@);
}

/// A report is read by its method, and each part of it by its own name.
pub proof fn law_report_is_read_by_name(method: Seq<char>, params: JsonTree, read: Notification)
    requires
        report_reads(method, params, Some(read)),
    ensures
        method == "turn/started"@ ==> {
            &&& read matches Notification::TurnStarted { thread_id, turn_id, .. }
            &&& text_under(params, "threadId"@, thread_id@)
            &&& member(params, "turn"@) matches Some(turn) ==> text_under(turn, "id"@, turn_id@)
        },
        method == "turn/completed"@ ==> {
            &&& read matches Notification::TurnCompleted { thread_id, turn_id, status, .. }
            &&& text_under(params, "threadId"@, thread_id@)
            &&& member(params, "turn"@) matches Some(turn) ==> text_under(turn, "id"@, turn_id@)
            &&& member(params, "turn"@) matches Some(turn) ==> {
                &&& status == NativeTurnStatus::Completed <==> says(turn, "status"@, "completed"@)
                &&& status == NativeTurnStatus::Interrupted <==> says(
                    turn,
                    "status"@,
                    "interrupted"@,
                )
                &&& status == NativeTurnStatus::Failed <==> says(turn, "status"@, "failed"@)
            }
        },
        method == "thread/tokenUsage/updated"@ ==> {
            &&& read matches Notification::ThreadTokenUsageUpdated {
                thread_id,
                turn_id,
                last,
                model_context_window,
                ..
            }
            &&& text_under(params, "threadId"@, thread_id@)
            &&& text_under(params, "turnId"@, turn_id@)
            &&& member(params, "tokenUsage"@) matches Some(usage) ==> {
                &&& number_under(usage, "modelContextWindow"@, model_context_window)
                &&& member(usage, "last"@) matches Some(counts) ==> {
                    &&& count_under(counts, "inputTokens"@, last.input_tokens)
                    &&& count_under(counts, "outputTokens"@, last.output_tokens)
                    &&& count_under(counts, "totalTokens"@, last.total_tokens)
                }
            }
        },
        method == "item/fileChange/patchUpdated"@ ==> {
            &&& read matches Notification::FileChangePatchUpdated {
                thread_id,
                turn_id,
                item_id,
                ..
            }
            &&& text_under(params, "threadId"@, thread_id@)
            &&& text_under(params, "turnId"@, turn_id@)
            &&& text_under(params, "itemId"@, item_id@)
        },
        method == "turn/diff/updated"@ ==> {
            &&& read matches Notification::TurnDiffUpdated { thread_id, turn_id, diff, .. }
            &&& text_under(params, "threadId"@, thread_id@)
            &&& text_under(params, "turnId"@, turn_id@)
            &&& text_under(params, "diff"@, diff@)
        },
        method == "error"@ ==> {
            &&& read matches Notification::Error { thread_id, turn_id, error, will_retry, .. }
            &&& text_under(params, "threadId"@, thread_id@)
            &&& text_under(params, "turnId"@, turn_id@)
            &&& will_retry <==> member(params, "willRetry"@) == Some(JsonTree::Bool(true))
            &&& member(params, "error"@) matches Some(told) ==> {
                &&& text_under(told, "message"@, error.message@)
                &&& opt_text_under(told, "additionalDetails"@, error.additional_details)
            }
        },
        method == "turn/plan/updated"@ ==> {
            &&& read matches Notification::TurnPlanUpdated { thread_id, turn_id, explanation, .. }
            &&& text_under(params, "threadId"@, thread_id@)
            &&& text_under(params, "turnId"@, turn_id@)
            &&& opt_text_under(params, "explanation"@, explanation)
        },
        method == "model/rerouted"@ ==> {
            &&& read matches Notification::ModelRerouted {
                thread_id,
                turn_id,
                from_model,
                to_model,
                ..
            }
            &&& text_under(params, "threadId"@, thread_id@)
            &&& text_under(params, "turnId"@, turn_id@)
            &&& text_under(params, "fromModel"@, from_model@)
            &&& text_under(params, "toModel"@, to_model@)
        },
        method == "thread/compacted"@ ==> {
            &&& read matches Notification::ContextCompacted { thread_id, turn_id, .. }
            &&& text_under(params, "threadId"@, thread_id@)
            &&& text_under(params, "turnId"@, turn_id@)
        },
        method == "warning"@ ==> {
            &&& read matches Notification::Warning { thread_id, message, .. }
            &&& opt_text_under(params, "threadId"@, thread_id)
            &&& text_under(params, "message"@, message@)
        },
        method == "configWarning"@ ==> {
            &&& read matches Notification::ConfigWarning { summary, details, .. }
            &&& text_under(params, "summary"@, summary@)
            &&& opt_text_under(params, "details"@, details)
        },
        method == "guardianWarning"@ ==> {
            &&& read matches Notification::GuardianWarning { thread_id, message, .. }
            &&& text_under(params, "threadId"@, thread_id@)
            &&& text_under(params, "message"@, message@)
        },
        method == "deprecationNotice"@ ==> {
            &&& read matches Notification::DeprecationNotice { summary, details, .. }
            &&& text_under(params, "summary"@, summary@)
            &&& opt_text_under(params, "details"@, details)
        },
        method == "thread/status/changed"@ ==> {
            &&& read matches Notification::ThreadStatusChanged { thread_id, loaded, .. }
            &&& text_under(params, "threadId"@, thread_id@)
            &&& member(params, "status"@) matches Some(status) ==> (!loaded <==> says(
                status,
                "type"@,
                "notLoaded"@,
            ))
        },
{
    lemma_states_apart();
    let usage = value_at(params, "tokenUsage"@);
    let counts = value_at(usage, "last"@);
    lemma_number(usage, "modelContextWindow"@);
    lemma_number(counts, "inputTokens"@);
    lemma_number(counts, "outputTokens"@);
    lemma_number(counts, "totalTokens"@);
    reveal_strlit("turn/started");
    assert("turn/started"@.len() == 12);
    reveal_strlit("turn/completed");
    assert("turn/completed"@.len() == 14);
    reveal_strlit("thread/tokenUsage/updated");
    assert("thread/tokenUsage/updated"@.len() == 25);
    reveal_strlit("item/fileChange/patchUpdated");
    assert("item/fileChange/patchUpdated"@.len() == 28);
    reveal_strlit("turn/diff/updated");
    assert("turn/diff/updated"@.len() == 17);
    reveal_strlit("error");
    assert("error"@.len() == 5);
    reveal_strlit("turn/plan/updated");
    assert("turn/plan/updated"@.len() == 17);
    reveal_strlit("model/rerouted");
    assert("model/rerouted"@.len() == 14);
    reveal_strlit("thread/compacted");
    assert("thread/compacted"@.len() == 16);
    reveal_strlit("warning");
    assert("warning"@.len() == 7);
    reveal_strlit("configWarning");
    assert("configWarning"@.len() == 13);
    reveal_strlit("guardianWarning");
    assert("guardianWarning"@.len() == 15);
    reveal_strlit("deprecationNotice");
    assert("deprecationNotice"@.len() == 17);
    reveal_strlit("thread/status/changed");
    assert("thread/status/changed"@.len() == 21);
    assert("turn/completed"@[0] != "model/rerouted"@[0]);
    assert("turn/diff/updated"@[5] != "turn/plan/updated"@[5]);
    assert("turn/diff/updated"@[0] != "deprecationNotice"@[0]);
    assert("turn/plan/updated"@[0] != "deprecationNotice"@[0]);
}

/// A piece of an item is read by its method, and each part of it by its own name.
pub proof fn law_piece_is_read_by_name(method: Seq<char>, params: JsonTree, read: Notification)
    requires
        piece_reads(method, params, Some(read)),
    ensures
        method == "item/agentMessage/delta"@ ==> {
            &&& read matches Notification::AgentMessageDelta(d)
            &&& text_under(params, "threadId"@, d.thread_id@)
            &&& text_under(params, "turnId"@, d.turn_id@)
            &&& text_under(params, "itemId"@, d.item_id@)
            &&& text_under(params, "delta"@, d.delta@)
        },
        method == "item/commandExecution/outputDelta"@ ==> {
            &&& read matches Notification::CmdOutputDelta(d)
            &&& text_under(params, "threadId"@, d.thread_id@)
            &&& text_under(params, "turnId"@, d.turn_id@)
            &&& text_under(params, "itemId"@, d.item_id@)
            &&& text_under(params, "delta"@, d.delta@)
        },
        method == "item/fileChange/outputDelta"@ ==> {
            &&& read matches Notification::FileChangeOutputDelta(d)
            &&& text_under(params, "threadId"@, d.thread_id@)
            &&& text_under(params, "turnId"@, d.turn_id@)
            &&& text_under(params, "itemId"@, d.item_id@)
            &&& text_under(params, "delta"@, d.delta@)
        },
        method == "item/reasoning/summaryTextDelta"@ ==> {
            &&& read matches Notification::ReasoningDelta(d)
            &&& text_under(params, "threadId"@, d.thread_id@)
            &&& text_under(params, "turnId"@, d.turn_id@)
            &&& text_under(params, "itemId"@, d.item_id@)
            &&& text_under(params, "delta"@, d.delta@)
        },
        method == "item/reasoning/textDelta"@ ==> {
            &&& read matches Notification::ReasoningTextDelta(d)
            &&& text_under(params, "threadId"@, d.thread_id@)
            &&& text_under(params, "turnId"@, d.turn_id@)
            &&& text_under(params, "itemId"@, d.item_id@)
            &&& text_under(params, "delta"@, d.delta@)
        },
        method == "item/plan/delta"@ ==> {
            &&& read matches Notification::PlanDelta(d)
            &&& text_under(params, "threadId"@, d.thread_id@)
            &&& text_under(params, "turnId"@, d.turn_id@)
            &&& text_under(params, "itemId"@, d.item_id@)
            &&& text_under(params, "delta"@, d.delta@)
        },
        method == "item/mcpToolCall/progress"@ ==> {
            &&& read matches Notification::McpToolCallProgress(d)
            &&& text_under(params, "threadId"@, d.thread_id@)
            &&& text_under(params, "turnId"@, d.turn_id@)
            &&& text_under(params, "itemId"@, d.item_id@)
            &&& text_under(params, "message"@, d.delta@)
        },
{
    reveal_strlit("item/agentMessage/delta");
    assert("item/agentMessage/delta"@.len() == 23);
    reveal_strlit("item/commandExecution/outputDelta");
    assert("item/commandExecution/outputDelta"@.len() == 33);
    reveal_strlit("item/fileChange/outputDelta");
    assert("item/fileChange/outputDelta"@.len() == 27);
    reveal_strlit("item/reasoning/summaryTextDelta");
    assert("item/reasoning/summaryTextDelta"@.len() == 31);
    reveal_strlit("item/reasoning/textDelta");
    assert("item/reasoning/textDelta"@.len() == 24);
    reveal_strlit("item/plan/delta");
    assert("item/plan/delta"@.len() == 15);
    reveal_strlit("item/mcpToolCall/progress");
    assert("item/mcpToolCall/progress"@.len() == 25);
}

/// A request is read by its method, and each part of it by its own name. One that is not known here
/// is kept with its method and all of it.
pub proof fn law_request_is_read_by_name(
    method: Seq<char>,
    given: Option<JsonTree>,
    came: JsonTree,
    read: ServerRequest,
)
    requires
        request_reads(method, given, came, read),
    ensures
        method == "item/commandExecution/requestApproval"@ ==> {
            &&& read matches ServerRequest::CmdExecApproval(p)
            &&& text_under(came, "threadId"@, p.thread_id@)
            &&& text_under(came, "turnId"@, p.turn_id@)
            &&& opt_text_under(came, "command"@, p.command)
            &&& opt_text_under(came, "cwd"@, p.cwd)
            &&& opt_text_under(came, "reason"@, p.reason)
            &&& opt_text_under(came, "environmentId"@, p.environment_id)
        },
        method == "item/fileChange/requestApproval"@ ==> {
            &&& read matches ServerRequest::FileChangeApproval(p)
            &&& text_under(came, "threadId"@, p.thread_id@)
            &&& text_under(came, "turnId"@, p.turn_id@)
            &&& opt_text_under(came, "grantRoot"@, p.grant_root)
            &&& opt_text_under(came, "reason"@, p.reason)
        },
        method == "item/permissions/requestApproval"@ ==> {
            &&& read matches ServerRequest::PermissionsRequestApproval(p)
            &&& text_under(came, "threadId"@, p.thread_id@)
            &&& text_under(came, "turnId"@, p.turn_id@)
            &&& text_under(came, "cwd"@, p.cwd@)
            &&& opt_text_under(came, "reason"@, p.reason)
            &&& opt_text_under(came, "environmentId"@, p.environment_id)
            &&& member(came, "permissions"@) matches Some(asked) ==> p.permissions@ == asked
        },
        method == "execCommandApproval"@ ==> {
            &&& read matches ServerRequest::ExecCommandApproval(p)
            &&& text_under(came, "cwd"@, p.cwd@)
            &&& opt_text_under(came, "reason"@, p.reason)
            &&& opt_text_under(came, "approvalId"@, p.approval_id)
            &&& member(came, "conversationId"@) matches Some(name) ==> p.conversation_id@ == name
        },
        method == "applyPatchApproval"@ ==> {
            &&& read matches ServerRequest::ApplyPatchApproval(p)
            &&& opt_text_under(came, "grantRoot"@, p.grant_root)
            &&& opt_text_under(came, "reason"@, p.reason)
            &&& member(came, "conversationId"@) matches Some(name) ==> p.conversation_id@ == name
        },
        method == "item/tool/requestUserInput"@ ==> {
            &&& read matches ServerRequest::ToolRequestUserInput(p)
            &&& text_under(came, "threadId"@, p.thread_id@)
            &&& text_under(came, "turnId"@, p.turn_id@)
            &&& p.params@ == came
        },
        method == "item/tool/call"@ ==> {
            &&& read matches ServerRequest::ItemToolCall(p)
            &&& text_under(came, "threadId"@, p.thread_id@)
            &&& text_under(came, "turnId"@, p.turn_id@)
            &&& p.params@ == came
        },
        method == "mcpServer/elicitation/request"@ ==> {
            &&& read matches ServerRequest::McpServerElicitationRequest(p)
            &&& p@ == came
        },
        method == "account/chatgptAuthTokens/refresh"@ ==> {
            &&& read matches ServerRequest::ChatgptAuthTokensRefresh(p)
            &&& p@ == came
        },
        method == "attestation/generate"@ ==> {
            &&& read matches ServerRequest::AttestationGenerate(p)
            &&& p@ == came
        },
        read matches ServerRequest::Unknown { method: named, params } ==> {
            &&& named@ == method
            &&& given is None <==> params is None
            &&& given matches Some(all) ==> params->Some_0@ == all
        },
{
    reveal_strlit("item/commandExecution/requestApproval");
    assert("item/commandExecution/requestApproval"@.len() == 37);
    reveal_strlit("item/fileChange/requestApproval");
    assert("item/fileChange/requestApproval"@.len() == 31);
    reveal_strlit("item/permissions/requestApproval");
    assert("item/permissions/requestApproval"@.len() == 32);
    reveal_strlit("execCommandApproval");
    assert("execCommandApproval"@.len() == 19);
    reveal_strlit("applyPatchApproval");
    assert("applyPatchApproval"@.len() == 18);
    reveal_strlit("item/tool/requestUserInput");
    assert("item/tool/requestUserInput"@.len() == 26);
    reveal_strlit("item/tool/call");
    assert("item/tool/call"@.len() == 14);
    reveal_strlit("mcpServer/elicitation/request");
    assert("mcpServer/elicitation/request"@.len() == 29);
    reveal_strlit("account/chatgptAuthTokens/refresh");
    assert("account/chatgptAuthTokens/refresh"@.len() == 33);
    reveal_strlit("attestation/generate");
    assert("attestation/generate"@.len() == 20);
}

/// Changes of files are read one by one, in order, each by its path, its kind and its difference.
pub proof fn law_changes_are_read_by_name(list: Seq<JsonTree>, read: Seq<FileUpdateChange>, i: int)
    requires
        changes_read(list, read),
        0 <= i < list.len(),
    ensures
        read.len() == list.len(),
        text_under(list[i], "path"@, read[i].path@),
        text_under(list[i], "diff"@, read[i].diff@),
        member(list[i], "kind"@) matches Some(kind) ==> {
            &&& read[i].kind == PatchChangeKind::Add <==> says(kind, "type"@, "add"@)
            &&& read[i].kind == PatchChangeKind::Delete <==> says(kind, "type"@, "delete"@)
        },
{
    law_patches_are_read_from_their_words(value_at(list[i], "kind"@));
    assert(change_reads(list[i], read[i]));
}

/// What a user said is read part by part, in order: a part that is a text by its words, and every
/// other part as one that is not.
pub proof fn law_content_is_read_by_name(list: Seq<JsonTree>, read: Seq<UserContent>, i: int)
    requires
        content_read(list, read),
        0 <= i < list.len(),
    ensures
        read.len() == list.len(),
        read[i] is Text <==> says(list[i], "type"@, "text"@),
        read[i] matches UserContent::Text(text) ==> text_under(list[i], "text"@, text@),
{
    reveal_strlit("text");
    assert("text"@.len() == 4);
    assert(part_reads(list[i], read[i]));
}

/// The steps of a plan are read in order, each by its words and where it stands.
pub proof fn law_steps_are_read_by_name(list: Seq<JsonTree>, read: Seq<PlanStep>, i: int)
    requires
        steps_read(list, read),
        0 <= i < list.len(),
    ensures
        read.len() == list.len(),
        text_under(list[i], "step"@, read[i].step@),
        member(list[i], "status"@) matches Some(status) ==> read[i].status is Some
            && read[i].status->Some_0@ == status,
{
    assert(step_reads(list[i], read[i]));
}

/// Texts are read one by one, in order.
pub proof fn law_texts_are_read_in_order(list: Seq<JsonTree>, read: Seq<String>, i: int)
    requires
        texts_read(list, read),
        0 <= i < list.len(),
    ensures
        read.len() == list.len(),
        list[i] matches JsonTree::Text(text) ==> read[i]@ == text,
{
    assert(read[i]@ == chars_in(list[i]));
}

/// A failure of the connection is known by its name, and its status is the one under that name. All
/// that came is kept.
pub proof fn law_failure_info_is_read_by_name(info: JsonTree, read: CodexErrorInfo)
    requires
        info_reads(info, read),
    ensures
        read.wire is Some && read.wire->Some_0@ == info,
        read.connection <==> (member(info, "httpConnectionFailed"@) is Some || member(
            info,
            "responseStreamConnectionFailed"@,
        ) is Some || member(info, "responseStreamDisconnected"@) is Some || member(
            info,
            "responseTooManyFailedAttempts"@,
        ) is Some),
        member(info, "httpConnectionFailed"@) matches Some(told) ==> number_under(
            told,
            "httpStatusCode"@,
            read.http_status_code,
        ),
        !read.connection ==> read.http_status_code is None,
{
    match member(info, "httpConnectionFailed"@) {
        Some(told) => {
            lemma_number(told, "httpStatusCode"@);
        },
        None => {},
    }
}

/// What a command does is read by its type: what it reads, what it lists, or where and for what it
/// searches. What is not known is kept as a command alone.
pub proof fn law_action_is_read_by_name(tree: JsonTree, read: CommandAction)
    requires
        action_reads(tree, read),
    ensures
        says(tree, "type"@, "read"@) ==> {
            &&& read matches CommandAction::Read { command, name, path }
            &&& text_under(tree, "command"@, command@)
            &&& text_under(tree, "name"@, name@)
            &&& text_under(tree, "path"@, path.path@)
        },
        says(tree, "type"@, "listFiles"@) ==> {
            &&& read matches CommandAction::ListFiles { command, path }
            &&& text_under(tree, "command"@, command@)
            &&& path matches Some(place) ==> text_under(tree, "path"@, place.path@)
        },
        says(tree, "type"@, "search"@) ==> {
            &&& read matches CommandAction::Search { command, path, query }
            &&& text_under(tree, "command"@, command@)
            &&& path matches Some(place) ==> text_under(tree, "path"@, place.path@)
            &&& opt_text_under(tree, "query"@, query)
        },
        read matches CommandAction::Unknown { command } ==> text_under(
            tree,
            "command"@,
            command@,
        ),
{
    reveal_strlit("read");
    reveal_strlit("listFiles");
    reveal_strlit("search");
    assert("read"@.len() == 4);
    assert("listFiles"@.len() == 9);
    assert("search"@.len() == 6);
}

/// A place of the file system is read by its type: a path, a pattern, or a special place.
pub proof fn law_place_is_read_by_name(tree: JsonTree, read: FileSystemEntry)
    requires
        entry_reads(tree, read),
    ensures
        member(tree, "access"@) matches Some(access) ==> read.access is Some
            && read.access->Some_0@ == access,
        member(tree, "path"@) matches Some(place) ==> {
            &&& says(place, "type"@, "path"@) ==> {
                &&& read.path matches FileSystemPath::Path(path)
                &&& text_under(place, "path"@, path.path@)
            }
            &&& says(place, "type"@, "glob_pattern"@) ==> {
                &&& read.path matches FileSystemPath::GlobPattern(pattern)
                &&& text_under(place, "pattern"@, pattern@)
            }
        },
{
    reveal_strlit("path");
    reveal_strlit("glob_pattern");
    assert("path"@.len() == 4);
    assert("glob_pattern"@.len() == 12);
}

/// A host is read by its name, with how it is spoken to and with what is proposed for it.
pub proof fn law_hosts_are_read_by_name(
    tree: JsonTree,
    context: NetworkContext,
    amendment: NetworkAmendment,
)
    ensures
        network_reads(tree, context) ==> {
            &&& text_under(tree, "host"@, context.host@)
            &&& member(tree, "protocol"@) matches Some(protocol) ==> context.protocol is Some
                && context.protocol->Some_0@ == protocol
        },
        amendment_reads(tree, amendment) ==> {
            &&& text_under(tree, "host"@, amendment.host@)
            &&& member(tree, "action"@) matches Some(action) ==> amendment.action is Some
                && amendment.action->Some_0@ == action
        },
{
}

} // verus!
