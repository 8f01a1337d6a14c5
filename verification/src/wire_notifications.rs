//! Notifications of the app-server, from what the bindings read.

use vstd::prelude::*;

use crate::items::opt_tree;
use crate::json::{member, opt_chars, Json, JsonTree};
use crate::protocol::{
    CodexErrorInfo, Notification, OtherNotification, PlanStep, TextDelta, TokenUsageBreakdown,
    TurnError,
};
use crate::reading::{
    flag_at, flag_in, has_kind, is_kind, list_at, list_in, number_at, number_in, opt_int,
    opt_number_at, opt_number_in, opt_text_at, opt_text_in, some_at, some_in, text_at, text_in,
    value_at, value_in,
};
use crate::text::same_text;
use crate::wire_items::{
    changes_in, changes_read, item_reads, read_item, turn_status, turn_status_in,
};

verus! {

/// What a notification is that brings no event, by its method.
pub open spec fn other_kind(method: Seq<char>) -> Option<OtherNotification> {
    if method == "thread/started"@ {
        Some(OtherNotification::ThreadStarted)
    } else if method == "thread/archived"@ {
        Some(OtherNotification::ThreadArchived)
    } else if method == "thread/closed"@ {
        Some(OtherNotification::ThreadClosed)
    } else if method == "thread/deleted"@ {
        Some(OtherNotification::ThreadDeleted)
    } else if method == "thread/unarchived"@ {
        Some(OtherNotification::ThreadUnarchived)
    } else if method == "item/reasoning/summaryPartAdded"@ {
        Some(OtherNotification::ReasoningSummaryPartAdded)
    } else if method == "serverRequest/resolved"@ {
        Some(OtherNotification::ServerRequestResolved)
    } else if method == "thread/goal/cleared"@ {
        Some(OtherNotification::ThreadGoalCleared)
    } else if method == "thread/name/updated"@ {
        Some(OtherNotification::ThreadNameUpdated)
    } else if method == "hook/completed"@ {
        Some(OtherNotification::HookCompleted)
    } else if method == "hook/started"@ {
        Some(OtherNotification::HookStarted)
    } else if method == "item/autoApprovalReview/completed"@ {
        Some(OtherNotification::ItemGuardianApprovalReviewCompleted)
    } else if method == "item/autoApprovalReview/started"@ {
        Some(OtherNotification::ItemGuardianApprovalReviewStarted)
    } else if method == "item/commandExecution/terminalInteraction"@ {
        Some(OtherNotification::TerminalInteraction)
    } else if method == "model/verification"@ {
        Some(OtherNotification::ModelVerification)
    } else if method == "thread/goal/updated"@ {
        Some(OtherNotification::ThreadGoalUpdated)
    } else if method == "thread/realtime/closed"@ {
        Some(OtherNotification::ThreadRealtimeClosed)
    } else if method == "thread/realtime/error"@ {
        Some(OtherNotification::ThreadRealtimeError)
    } else if method == "thread/realtime/itemAdded"@ {
        Some(OtherNotification::ThreadRealtimeItemAdded)
    } else if method == "thread/realtime/outputAudio/delta"@ {
        Some(OtherNotification::ThreadRealtimeOutputAudioDelta)
    } else if method == "thread/realtime/sdp"@ {
        Some(OtherNotification::ThreadRealtimeSdp)
    } else if method == "thread/realtime/started"@ {
        Some(OtherNotification::ThreadRealtimeStarted)
    } else if method == "thread/realtime/transcript/delta"@ {
        Some(OtherNotification::ThreadRealtimeTranscriptDelta)
    } else if method == "thread/realtime/transcript/done"@ {
        Some(OtherNotification::ThreadRealtimeTranscriptDone)
    } else if method == "thread/settings/updated"@ {
        Some(OtherNotification::ThreadSettingsUpdated)
    } else if method == "turn/moderationMetadata"@ {
        Some(OtherNotification::TurnModerationMetadata)
    } else if method == "model/safetyBuffering/updated"@ {
        Some(OtherNotification::ModelSafetyBufferingUpdated)
    } else if method == "thread/environment/connected"@ {
        Some(OtherNotification::ThreadEnvironmentConnected)
    } else if method == "thread/environment/disconnected"@ {
        Some(OtherNotification::ThreadEnvironmentDisconnected)
    } else if method == "autoApprovalReview/strictReviewRequired"@ {
        Some(OtherNotification::StrictReviewRequired)
    } else if method == "thread/project/updated"@ {
        Some(OtherNotification::ThreadProjectUpdated)
    } else if method == "thread/queue/changed"@ {
        Some(OtherNotification::ThreadQueueChanged)
    } else if method == "thread/reverted"@ {
        Some(OtherNotification::ThreadReverted)
    } else if method == "thread/realtime/item/started"@ {
        Some(OtherNotification::ThreadRealtimeItemStarted)
    } else if method == "thread/realtime/item/completed"@ {
        Some(OtherNotification::ThreadRealtimeItemCompleted)
    } else if method == "thread/realtime/item/transcript/delta"@ {
        Some(OtherNotification::ThreadRealtimeItemTranscriptDelta)
    } else if method == "modelProvider/authRecoveryStarted"@ {
        Some(OtherNotification::ModelProviderAuthRecoveryStarted)
    } else if method == "modelProvider/authRecoveryCompleted"@ {
        Some(OtherNotification::ModelProviderAuthRecoveryCompleted)
    } else if method == "mcpServer/startupStatus/updated"@ {
        Some(OtherNotification::McpServerStartupStatusUpdated)
    } else if method == "mcpServer/oauthLogin/completed"@ {
        Some(OtherNotification::McpServerOauthLoginCompleted)
    } else if method == "account/rateLimits/updated"@ {
        Some(OtherNotification::AccountRateLimitsUpdated)
    } else if method == "remoteControl/status/changed"@ {
        Some(OtherNotification::RemoteControlStatusChanged)
    } else if method == "account/login/completed"@ {
        Some(OtherNotification::AccountLoginCompleted)
    } else if method == "skills/changed"@ {
        Some(OtherNotification::SkillsChanged)
    } else if method == "fs/changed"@ {
        Some(OtherNotification::FsChanged)
    } else if method == "account/updated"@ {
        Some(OtherNotification::AccountUpdated)
    } else if method == "app/list/updated"@ {
        Some(OtherNotification::AppListUpdated)
    } else if method == "command/exec/outputDelta"@ {
        Some(OtherNotification::CommandExecOutputDelta)
    } else if method == "externalAgentConfig/import/completed"@ {
        Some(OtherNotification::ExternalAgentConfigImportCompleted)
    } else if method == "fuzzyFileSearch/sessionCompleted"@ {
        Some(OtherNotification::FuzzyFileSearchSessionCompleted)
    } else if method == "fuzzyFileSearch/sessionUpdated"@ {
        Some(OtherNotification::FuzzyFileSearchSessionUpdated)
    } else if method == "process/exited"@ {
        Some(OtherNotification::ProcessExited)
    } else if method == "process/outputDelta"@ {
        Some(OtherNotification::ProcessOutputDelta)
    } else if method == "windows/worldWritableWarning"@ {
        Some(OtherNotification::WindowsWorldWritableWarning)
    } else if method == "windowsSandbox/setupCompleted"@ {
        Some(OtherNotification::WindowsSandboxSetupCompleted)
    } else if method == "externalAgentConfig/import/progress"@ {
        Some(OtherNotification::ExternalAgentConfigImportProgress)
    } else if method == "project/changed"@ {
        Some(OtherNotification::ProjectChanged)
    } else if method == "mcpServer/event/stream/notification"@ {
        Some(OtherNotification::McpServerEventStream)
    } else {
        None
    }
}

fn other_kind_of(method: &str) -> (kind: Option<OtherNotification>)
    ensures
        kind == other_kind(method@),
{
    if same_text(method, "thread/started") {
        Some(OtherNotification::ThreadStarted)
    } else if same_text(method, "thread/archived") {
        Some(OtherNotification::ThreadArchived)
    } else if same_text(method, "thread/closed") {
        Some(OtherNotification::ThreadClosed)
    } else if same_text(method, "thread/deleted") {
        Some(OtherNotification::ThreadDeleted)
    } else if same_text(method, "thread/unarchived") {
        Some(OtherNotification::ThreadUnarchived)
    } else if same_text(method, "item/reasoning/summaryPartAdded") {
        Some(OtherNotification::ReasoningSummaryPartAdded)
    } else if same_text(method, "serverRequest/resolved") {
        Some(OtherNotification::ServerRequestResolved)
    } else if same_text(method, "thread/goal/cleared") {
        Some(OtherNotification::ThreadGoalCleared)
    } else if same_text(method, "thread/name/updated") {
        Some(OtherNotification::ThreadNameUpdated)
    } else if same_text(method, "hook/completed") {
        Some(OtherNotification::HookCompleted)
    } else if same_text(method, "hook/started") {
        Some(OtherNotification::HookStarted)
    } else if same_text(method, "item/autoApprovalReview/completed") {
        Some(OtherNotification::ItemGuardianApprovalReviewCompleted)
    } else if same_text(method, "item/autoApprovalReview/started") {
        Some(OtherNotification::ItemGuardianApprovalReviewStarted)
    } else if same_text(method, "item/commandExecution/terminalInteraction") {
        Some(OtherNotification::TerminalInteraction)
    } else if same_text(method, "model/verification") {
        Some(OtherNotification::ModelVerification)
    } else if same_text(method, "thread/goal/updated") {
        Some(OtherNotification::ThreadGoalUpdated)
    } else if same_text(method, "thread/realtime/closed") {
        Some(OtherNotification::ThreadRealtimeClosed)
    } else if same_text(method, "thread/realtime/error") {
        Some(OtherNotification::ThreadRealtimeError)
    } else if same_text(method, "thread/realtime/itemAdded") {
        Some(OtherNotification::ThreadRealtimeItemAdded)
    } else if same_text(method, "thread/realtime/outputAudio/delta") {
        Some(OtherNotification::ThreadRealtimeOutputAudioDelta)
    } else if same_text(method, "thread/realtime/sdp") {
        Some(OtherNotification::ThreadRealtimeSdp)
    } else if same_text(method, "thread/realtime/started") {
        Some(OtherNotification::ThreadRealtimeStarted)
    } else if same_text(method, "thread/realtime/transcript/delta") {
        Some(OtherNotification::ThreadRealtimeTranscriptDelta)
    } else if same_text(method, "thread/realtime/transcript/done") {
        Some(OtherNotification::ThreadRealtimeTranscriptDone)
    } else if same_text(method, "thread/settings/updated") {
        Some(OtherNotification::ThreadSettingsUpdated)
    } else if same_text(method, "turn/moderationMetadata") {
        Some(OtherNotification::TurnModerationMetadata)
    } else if same_text(method, "model/safetyBuffering/updated") {
        Some(OtherNotification::ModelSafetyBufferingUpdated)
    } else if same_text(method, "thread/environment/connected") {
        Some(OtherNotification::ThreadEnvironmentConnected)
    } else if same_text(method, "thread/environment/disconnected") {
        Some(OtherNotification::ThreadEnvironmentDisconnected)
    } else if same_text(method, "autoApprovalReview/strictReviewRequired") {
        Some(OtherNotification::StrictReviewRequired)
    } else if same_text(method, "thread/project/updated") {
        Some(OtherNotification::ThreadProjectUpdated)
    } else if same_text(method, "thread/queue/changed") {
        Some(OtherNotification::ThreadQueueChanged)
    } else if same_text(method, "thread/reverted") {
        Some(OtherNotification::ThreadReverted)
    } else if same_text(method, "thread/realtime/item/started") {
        Some(OtherNotification::ThreadRealtimeItemStarted)
    } else if same_text(method, "thread/realtime/item/completed") {
        Some(OtherNotification::ThreadRealtimeItemCompleted)
    } else if same_text(method, "thread/realtime/item/transcript/delta") {
        Some(OtherNotification::ThreadRealtimeItemTranscriptDelta)
    } else if same_text(method, "modelProvider/authRecoveryStarted") {
        Some(OtherNotification::ModelProviderAuthRecoveryStarted)
    } else if same_text(method, "modelProvider/authRecoveryCompleted") {
        Some(OtherNotification::ModelProviderAuthRecoveryCompleted)
    } else if same_text(method, "mcpServer/startupStatus/updated") {
        Some(OtherNotification::McpServerStartupStatusUpdated)
    } else if same_text(method, "mcpServer/oauthLogin/completed") {
        Some(OtherNotification::McpServerOauthLoginCompleted)
    } else if same_text(method, "account/rateLimits/updated") {
        Some(OtherNotification::AccountRateLimitsUpdated)
    } else if same_text(method, "remoteControl/status/changed") {
        Some(OtherNotification::RemoteControlStatusChanged)
    } else if same_text(method, "account/login/completed") {
        Some(OtherNotification::AccountLoginCompleted)
    } else if same_text(method, "skills/changed") {
        Some(OtherNotification::SkillsChanged)
    } else if same_text(method, "fs/changed") {
        Some(OtherNotification::FsChanged)
    } else if same_text(method, "account/updated") {
        Some(OtherNotification::AccountUpdated)
    } else if same_text(method, "app/list/updated") {
        Some(OtherNotification::AppListUpdated)
    } else if same_text(method, "command/exec/outputDelta") {
        Some(OtherNotification::CommandExecOutputDelta)
    } else if same_text(method, "externalAgentConfig/import/completed") {
        Some(OtherNotification::ExternalAgentConfigImportCompleted)
    } else if same_text(method, "fuzzyFileSearch/sessionCompleted") {
        Some(OtherNotification::FuzzyFileSearchSessionCompleted)
    } else if same_text(method, "fuzzyFileSearch/sessionUpdated") {
        Some(OtherNotification::FuzzyFileSearchSessionUpdated)
    } else if same_text(method, "process/exited") {
        Some(OtherNotification::ProcessExited)
    } else if same_text(method, "process/outputDelta") {
        Some(OtherNotification::ProcessOutputDelta)
    } else if same_text(method, "windows/worldWritableWarning") {
        Some(OtherNotification::WindowsWorldWritableWarning)
    } else if same_text(method, "windowsSandbox/setupCompleted") {
        Some(OtherNotification::WindowsSandboxSetupCompleted)
    } else if same_text(method, "externalAgentConfig/import/progress") {
        Some(OtherNotification::ExternalAgentConfigImportProgress)
    } else if same_text(method, "project/changed") {
        Some(OtherNotification::ProjectChanged)
    } else if same_text(method, "mcpServer/event/stream/notification") {
        Some(OtherNotification::McpServerEventStream)
    } else {
        None
    }
}

/// The thread that the parameters of a notification name: by the thread itself where there is one,
/// and by its identifier elsewhere.
pub open spec fn named_thread(params: JsonTree) -> Option<Seq<char>> {
    match member(params, "thread"@) {
        Some(thread) => opt_text_at(thread, "id"@),
        None => opt_text_at(params, "threadId"@),
    }
}

fn named_thread_in(params: &Json) -> (name: Option<String>)
    ensures
        opt_chars(name) == named_thread(params@),
{
    match params.get("thread") {
        Some(thread) => opt_text_in(thread, "id"),
        None => opt_text_in(params, "threadId"),
    }
}

/// Whether this is a piece of text of an item.
pub open spec fn delta_reads(params: JsonTree, key: Seq<char>, delta: TextDelta) -> bool {
    &&& delta.thread_id@ == text_at(params, "threadId"@)
    &&& delta.turn_id@ == text_at(params, "turnId"@)
    &&& delta.item_id@ == text_at(params, "itemId"@)
    &&& delta.delta@ == text_at(params, key)
}

fn delta_in(params: &Json, key: &str) -> (delta: TextDelta)
    ensures
        delta_reads(params@, key@, delta),
{
    TextDelta {
        thread_id: text_in(params, "threadId"),
        turn_id: text_in(params, "turnId"),
        item_id: text_in(params, "itemId"),
        delta: text_in(params, key),
    }
}

/// The tokens of a turn.
pub open spec fn breakdown_reads(last: JsonTree, usage: TokenUsageBreakdown) -> bool {
    &&& usage.input_tokens == number_at(last, "inputTokens"@)
    &&& usage.output_tokens == number_at(last, "outputTokens"@)
    &&& usage.total_tokens == number_at(last, "totalTokens"@)
}

fn breakdown_of(last: &Json) -> (usage: TokenUsageBreakdown)
    ensures
        breakdown_reads(last@, usage),
{
    TokenUsageBreakdown {
        input_tokens: number_in(last, "inputTokens"),
        output_tokens: number_in(last, "outputTokens"),
        total_tokens: number_in(last, "totalTokens"),
    }
}

/// What is told of a connection that failed; nothing where the failure is of another kind.
pub open spec fn connection_failure(info: JsonTree) -> Option<JsonTree> {
    if member(info, "httpConnectionFailed"@) is Some {
        member(info, "httpConnectionFailed"@)
    } else if member(info, "responseStreamConnectionFailed"@) is Some {
        member(info, "responseStreamConnectionFailed"@)
    } else if member(info, "responseStreamDisconnected"@) is Some {
        member(info, "responseStreamDisconnected"@)
    } else {
        member(info, "responseTooManyFailedAttempts"@)
    }
}

fn connection_failure_of<'a>(info: &'a Json) -> (failure: Option<&'a Json>)
    ensures
        (match failure {
            Some(told) => Some(told@),
            None => None,
        }) == connection_failure(info@),
{
    match info.get("httpConnectionFailed") {
        Some(told) => {
            return Some(told);
        },
        None => {},
    }
    match info.get("responseStreamConnectionFailed") {
        Some(told) => {
            return Some(told);
        },
        None => {},
    }
    match info.get("responseStreamDisconnected") {
        Some(told) => {
            return Some(told);
        },
        None => {},
    }
    info.get("responseTooManyFailedAttempts")
}

/// Whether this is what kind of failure a turn had.
pub open spec fn info_reads(info: JsonTree, read: CodexErrorInfo) -> bool {
    &&& opt_tree(read.wire) == Some(info)
    &&& match connection_failure(info) {
        Some(told) => read.connection && opt_int(read.http_status_code) == opt_number_at(
            told,
            "httpStatusCode"@,
        ),
        None => !read.connection && read.http_status_code is None,
    }
}

/// Whether this is what went wrong in a turn.
pub open spec fn error_reads(tree: JsonTree, error: TurnError) -> bool {
    &&& error.message@ == text_at(tree, "message"@)
    &&& opt_chars(error.additional_details) == opt_text_at(tree, "additionalDetails"@)
    &&& match some_at(tree, "codexErrorInfo"@) {
        Some(info) => error.codex_error_info matches Some(read) && info_reads(info, read),
        None => error.codex_error_info is None,
    }
}

fn error_from(json: &Json) -> (error: TurnError)
    ensures
        error_reads(json@, error),
{
    let codex_error_info = match some_in(json, "codexErrorInfo") {
        Some(info) => {
            let (connection, http_status_code) = match connection_failure_of(&info) {
                Some(told) => (true, opt_number_in(told, "httpStatusCode")),
                None => (false, None),
            };
            Some(CodexErrorInfo { wire: Some(info), connection, http_status_code })
        },
        None => None,
    };
    TurnError {
        message: text_in(json, "message"),
        additional_details: opt_text_in(json, "additionalDetails"),
        codex_error_info,
    }
}

/// Whether this is a step of a plan.
pub open spec fn step_reads(tree: JsonTree, read: PlanStep) -> bool {
    &&& opt_tree(read.status) == Some(value_at(tree, "status"@))
    &&& read.step@ == text_at(tree, "step"@)
}

fn step_from(json: &Json) -> (read: PlanStep)
    ensures
        step_reads(json@, read),
{
    PlanStep { status: Some(value_in(json, "status")), step: text_in(json, "step") }
}

/// Whether these are the steps of a plan.
pub open spec fn steps_read(list: Seq<JsonTree>, read: Seq<PlanStep>) -> bool {
    &&& read.len() == list.len()
    &&& forall|i: int| 0 <= i < list.len() ==> step_reads(list[i], #[trigger] read[i])
}

fn steps_in(json: &Json, key: &str) -> (read: Vec<PlanStep>)
    ensures
        steps_read(list_at(json@, key@), read@),
{
    match list_in(json, key) {
        Some(items) => {
            let mut read: Vec<PlanStep> = Vec::new();
            let mut i: usize = 0;
            while i < items.len()
                invariant
                    i <= items@.len(),
                    read@.len() == i,
                    forall|j: int| 0 <= j < i ==> step_reads(items@[j]@, #[trigger] read@[j]),
                decreases items@.len() - i,
            {
                read.push(step_from(&items[i]));
                i = i + 1;
            }
            read
        },
        None => Vec::new(),
    }
}

/// Whether a notification is a piece of text, and is this one.
pub open spec fn piece_reads(
    method: Seq<char>,
    params: JsonTree,
    read: Option<Notification>,
) -> bool {
    if method == "item/agentMessage/delta"@ {
        &&& read matches Some(Notification::AgentMessageDelta(delta))
        &&& delta_reads(params, "delta"@, delta)
    } else if method == "item/commandExecution/outputDelta"@ {
        &&& read matches Some(Notification::CmdOutputDelta(delta))
        &&& delta_reads(params, "delta"@, delta)
    } else if method == "item/fileChange/outputDelta"@ {
        &&& read matches Some(Notification::FileChangeOutputDelta(delta))
        &&& delta_reads(params, "delta"@, delta)
    } else if method == "item/reasoning/summaryTextDelta"@ {
        &&& read matches Some(Notification::ReasoningDelta(delta))
        &&& delta_reads(params, "delta"@, delta)
    } else if method == "item/reasoning/textDelta"@ {
        &&& read matches Some(Notification::ReasoningTextDelta(delta))
        &&& delta_reads(params, "delta"@, delta)
    } else if method == "item/plan/delta"@ {
        &&& read matches Some(Notification::PlanDelta(delta))
        &&& delta_reads(params, "delta"@, delta)
    } else if method == "item/mcpToolCall/progress"@ {
        &&& read matches Some(Notification::McpToolCallProgress(delta))
        &&& delta_reads(params, "message"@, delta)
    } else {
        read is None
    }
}

fn piece_of(method: &str, params: &Json) -> (read: Option<Notification>)
    ensures
        piece_reads(method@, params@, read),
{
    if same_text(method, "item/agentMessage/delta") {
        Some(Notification::AgentMessageDelta(delta_in(params, "delta")))
    } else if same_text(method, "item/commandExecution/outputDelta") {
        Some(Notification::CmdOutputDelta(delta_in(params, "delta")))
    } else if same_text(method, "item/fileChange/outputDelta") {
        Some(Notification::FileChangeOutputDelta(delta_in(params, "delta")))
    } else if same_text(method, "item/reasoning/summaryTextDelta") {
        Some(Notification::ReasoningDelta(delta_in(params, "delta")))
    } else if same_text(method, "item/reasoning/textDelta") {
        Some(Notification::ReasoningTextDelta(delta_in(params, "delta")))
    } else if same_text(method, "item/plan/delta") {
        Some(Notification::PlanDelta(delta_in(params, "delta")))
    } else if same_text(method, "item/mcpToolCall/progress") {
        Some(Notification::McpToolCallProgress(delta_in(params, "message")))
    } else {
        None
    }
}

/// Whether a notification is about a turn or a thread, or a warning, and is this one.
pub open spec fn report_reads(
    method: Seq<char>,
    params: JsonTree,
    read: Option<Notification>,
) -> bool {
    if method == "turn/started"@ {
        &&& read matches Some(Notification::TurnStarted { thread_id, turn_id })
        &&& thread_id@ == text_at(params, "threadId"@)
        &&& turn_id@ == text_at(value_at(params, "turn"@), "id"@)
    } else if method == "turn/completed"@ {
        &&& read matches Some(Notification::TurnCompleted { thread_id, turn_id, status })
        &&& thread_id@ == text_at(params, "threadId"@)
        &&& turn_id@ == text_at(value_at(params, "turn"@), "id"@)
        &&& status == turn_status(text_at(value_at(params, "turn"@), "status"@))
    } else if method == "thread/tokenUsage/updated"@ {
        &&& read matches Some(Notification::ThreadTokenUsageUpdated {
            thread_id,
            turn_id,
            last,
            model_context_window,
        })
        &&& thread_id@ == text_at(params, "threadId"@)
        &&& turn_id@ == text_at(params, "turnId"@)
        &&& breakdown_reads(value_at(value_at(params, "tokenUsage"@), "last"@), last)
        &&& opt_int(model_context_window) == opt_number_at(
            value_at(params, "tokenUsage"@),
            "modelContextWindow"@,
        )
    } else if method == "item/fileChange/patchUpdated"@ {
        &&& read matches Some(Notification::FileChangePatchUpdated {
            thread_id,
            turn_id,
            item_id,
            changes,
        })
        &&& thread_id@ == text_at(params, "threadId"@)
        &&& turn_id@ == text_at(params, "turnId"@)
        &&& item_id@ == text_at(params, "itemId"@)
        &&& changes_read(list_at(params, "changes"@), changes@)
    } else if method == "turn/diff/updated"@ {
        &&& read matches Some(Notification::TurnDiffUpdated { thread_id, turn_id, diff })
        &&& thread_id@ == text_at(params, "threadId"@)
        &&& turn_id@ == text_at(params, "turnId"@)
        &&& diff@ == text_at(params, "diff"@)
    } else if method == "error"@ {
        &&& read matches Some(Notification::Error { thread_id, turn_id, error, will_retry })
        &&& thread_id@ == text_at(params, "threadId"@)
        &&& turn_id@ == text_at(params, "turnId"@)
        &&& error_reads(value_at(params, "error"@), error)
        &&& will_retry == flag_at(params, "willRetry"@)
    } else if method == "turn/plan/updated"@ {
        &&& read matches Some(Notification::TurnPlanUpdated {
            thread_id,
            turn_id,
            explanation,
            plan,
            raw,
        })
        &&& thread_id@ == text_at(params, "threadId"@)
        &&& turn_id@ == text_at(params, "turnId"@)
        &&& opt_chars(explanation) == opt_text_at(params, "explanation"@)
        &&& steps_read(list_at(params, "plan"@), plan@)
        &&& opt_tree(raw) == Some(value_at(params, "plan"@))
    } else if method == "model/rerouted"@ {
        &&& read matches Some(Notification::ModelRerouted {
            thread_id,
            turn_id,
            from_model,
            to_model,
            raw,
        })
        &&& thread_id@ == text_at(params, "threadId"@)
        &&& turn_id@ == text_at(params, "turnId"@)
        &&& from_model@ == text_at(params, "fromModel"@)
        &&& to_model@ == text_at(params, "toModel"@)
        &&& opt_tree(raw) == Some(params)
    } else if method == "thread/compacted"@ {
        &&& read matches Some(Notification::ContextCompacted { thread_id, turn_id, raw })
        &&& thread_id@ == text_at(params, "threadId"@)
        &&& turn_id@ == text_at(params, "turnId"@)
        &&& opt_tree(raw) == Some(params)
    } else if method == "warning"@ {
        &&& read matches Some(Notification::Warning { thread_id, message })
        &&& opt_chars(thread_id) == opt_text_at(params, "threadId"@)
        &&& message@ == text_at(params, "message"@)
    } else if method == "configWarning"@ {
        &&& read matches Some(Notification::ConfigWarning { summary, details })
        &&& summary@ == text_at(params, "summary"@)
        &&& opt_chars(details) == opt_text_at(params, "details"@)
    } else if method == "guardianWarning"@ {
        &&& read matches Some(Notification::GuardianWarning { thread_id, message })
        &&& thread_id@ == text_at(params, "threadId"@)
        &&& message@ == text_at(params, "message"@)
    } else if method == "deprecationNotice"@ {
        &&& read matches Some(Notification::DeprecationNotice { summary, details })
        &&& summary@ == text_at(params, "summary"@)
        &&& opt_chars(details) == opt_text_at(params, "details"@)
    } else if method == "thread/status/changed"@ {
        &&& read matches Some(Notification::ThreadStatusChanged { thread_id, loaded })
        &&& thread_id@ == text_at(params, "threadId"@)
        &&& loaded == !is_kind(value_at(params, "status"@), "notLoaded"@)
    } else {
        read is None
    }
}

fn report_of(method: &str, params: &Json) -> (read: Option<Notification>)
    ensures
        report_reads(method@, params@, read),
{
    if same_text(method, "turn/started") {
        Some(
            Notification::TurnStarted {
                thread_id: text_in(params, "threadId"),
                turn_id: text_in(&value_in(params, "turn"), "id"),
            },
        )
    } else if same_text(method, "turn/completed") {
        Some(
            Notification::TurnCompleted {
                thread_id: text_in(params, "threadId"),
                turn_id: text_in(&value_in(params, "turn"), "id"),
                status: turn_status_in(&value_in(params, "turn"), "status"),
            },
        )
    } else if same_text(method, "thread/tokenUsage/updated") {
        Some(
            Notification::ThreadTokenUsageUpdated {
                thread_id: text_in(params, "threadId"),
                turn_id: text_in(params, "turnId"),
                last: breakdown_of(&value_in(&value_in(params, "tokenUsage"), "last")),
                model_context_window: opt_number_in(
                    &value_in(params, "tokenUsage"),
                    "modelContextWindow",
                ),
            },
        )
    } else if same_text(method, "item/fileChange/patchUpdated") {
        Some(
            Notification::FileChangePatchUpdated {
                thread_id: text_in(params, "threadId"),
                turn_id: text_in(params, "turnId"),
                item_id: text_in(params, "itemId"),
                changes: changes_in(params, "changes"),
            },
        )
    } else if same_text(method, "turn/diff/updated") {
        Some(
            Notification::TurnDiffUpdated {
                thread_id: text_in(params, "threadId"),
                turn_id: text_in(params, "turnId"),
                diff: text_in(params, "diff"),
            },
        )
    } else if same_text(method, "error") {
        Some(
            Notification::Error {
                thread_id: text_in(params, "threadId"),
                turn_id: text_in(params, "turnId"),
                error: error_from(&value_in(params, "error")),
                will_retry: flag_in(params, "willRetry"),
            },
        )
    } else if same_text(method, "turn/plan/updated") {
        Some(
            Notification::TurnPlanUpdated {
                thread_id: text_in(params, "threadId"),
                turn_id: text_in(params, "turnId"),
                explanation: opt_text_in(params, "explanation"),
                plan: steps_in(params, "plan"),
                raw: Some(value_in(params, "plan")),
            },
        )
    } else if same_text(method, "model/rerouted") {
        Some(
            Notification::ModelRerouted {
                thread_id: text_in(params, "threadId"),
                turn_id: text_in(params, "turnId"),
                from_model: text_in(params, "fromModel"),
                to_model: text_in(params, "toModel"),
                raw: Some(params.copy()),
            },
        )
    } else if same_text(method, "thread/compacted") {
        Some(
            Notification::ContextCompacted {
                thread_id: text_in(params, "threadId"),
                turn_id: text_in(params, "turnId"),
                raw: Some(params.copy()),
            },
        )
    } else if same_text(method, "warning") {
        Some(
            Notification::Warning {
                thread_id: opt_text_in(params, "threadId"),
                message: text_in(params, "message"),
            },
        )
    } else if same_text(method, "configWarning") {
        Some(
            Notification::ConfigWarning {
                summary: text_in(params, "summary"),
                details: opt_text_in(params, "details"),
            },
        )
    } else if same_text(method, "guardianWarning") {
        Some(
            Notification::GuardianWarning {
                thread_id: text_in(params, "threadId"),
                message: text_in(params, "message"),
            },
        )
    } else if same_text(method, "deprecationNotice") {
        Some(
            Notification::DeprecationNotice {
                summary: text_in(params, "summary"),
                details: opt_text_in(params, "details"),
            },
        )
    } else if same_text(method, "thread/status/changed") {
        Some(
            Notification::ThreadStatusChanged {
                thread_id: text_in(params, "threadId"),
                loaded: !has_kind(&value_in(params, "status"), "notLoaded"),
            },
        )
    } else {
        None
    }
}

/// Whether this is a notification that is not known here.
pub open spec fn unknown_reads(method: Seq<char>, came: JsonTree, read: Notification) -> bool {
    &&& read matches Notification::Unknown { method: named, params }
    &&& named@ == method
    &&& opt_tree(params) == member(came, "params"@)
}

fn unknown_of(method: &str, came: &Json) -> (read: Notification)
    ensures
        unknown_reads(method@, came@, read),
{
    let params = match came.get("params") {
        Some(params) => Some(params.copy()),
        None => None,
    };
    Notification::Unknown { method: method.to_owned(), params }
}

/// Whether this is what the bindings read as a notification of this method: by what the method is,
/// with an item of a kind that has no place in a turn as what is not known here.
pub open spec fn notification_reads(method: Seq<char>, came: JsonTree, read: Notification) -> bool {
    let params = value_at(came, "params"@);
    match other_kind(method) {
        Some(kind) => {
            &&& read matches Notification::Other { kind: named, thread_id }
            &&& named == kind
            &&& opt_chars(thread_id) == named_thread(params)
        },
        None => {
            ||| report_reads(method, params, Some(read))
            ||| {
                &&& report_reads(method, params, None)
                &&& piece_reads(method, params, Some(read))
            }
            ||| {
                &&& report_reads(method, params, None)
                &&& piece_reads(method, params, None)
                &&& if method == "item/started"@ && !item_reads(value_at(params, "item"@), None) {
                    &&& read matches Notification::ItemStarted {
                        item,
                        started_at_ms,
                        thread_id,
                        turn_id,
                    }
                    &&& item_reads(value_at(params, "item"@), Some(item))
                    &&& started_at_ms == number_at(params, "startedAtMs"@)
                    &&& thread_id@ == text_at(params, "threadId"@)
                    &&& turn_id@ == text_at(params, "turnId"@)
                } else if method == "item/completed"@ && !item_reads(
                    value_at(params, "item"@),
                    None,
                ) {
                    &&& read matches Notification::ItemCompleted {
                        item,
                        completed_at_ms,
                        thread_id,
                        turn_id,
                    }
                    &&& item_reads(value_at(params, "item"@), Some(item))
                    &&& completed_at_ms == number_at(params, "completedAtMs"@)
                    &&& thread_id@ == text_at(params, "threadId"@)
                    &&& turn_id@ == text_at(params, "turnId"@)
                } else {
                    unknown_reads(method, came, read)
                }
            }
        },
    }
}

/// The notification that the bindings read, taken apart by its method.
pub fn read_notification(method: &str, came: &Json) -> (read: Notification)
    ensures
        notification_reads(method@, came@, read),
{
    let params = value_in(came, "params");
    match other_kind_of(method) {
        Some(kind) => {
            return Notification::Other { kind, thread_id: named_thread_in(&params) };
        },
        None => {},
    }
    match report_of(method, &params) {
        Some(read) => {
            return read;
        },
        None => {},
    }
    match piece_of(method, &params) {
        Some(read) => {
            return read;
        },
        None => {},
    }
    if same_text(method, "item/started") {
        match read_item(&value_in(&params, "item")) {
            Some(item) => {
                return Notification::ItemStarted {
                    item,
                    started_at_ms: number_in(&params, "startedAtMs"),
                    thread_id: text_in(&params, "threadId"),
                    turn_id: text_in(&params, "turnId"),
                };
            },
            None => {},
        }
    } else if same_text(method, "item/completed") {
        match read_item(&value_in(&params, "item")) {
            Some(item) => {
                return Notification::ItemCompleted {
                    item,
                    completed_at_ms: number_in(&params, "completedAtMs"),
                    thread_id: text_in(&params, "threadId"),
                    turn_id: text_in(&params, "turnId"),
                };
            },
            None => {},
        }
    }
    unknown_of(method, came)
}

} // verus!
