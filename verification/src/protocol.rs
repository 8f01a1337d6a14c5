//! Messages of the app-server, as far as they are read here.

use vstd::prelude::*;

use crate::ids::RequestId;
use crate::json::Json;

verus! {

/// A path as it came, and whether it is a source file of the workspace.
#[derive(Debug)]
pub struct PathRef {
    /// The path as it came.
    pub path: String,
    /// Whether it can be opened as a source file of the workspace.
    pub source_link: bool,
}

/// Where a turn stands.
#[derive(Clone, Copy, PartialEq, Eq, Structural, Debug)]
#[allow(inconsistent_fields)]
pub enum NativeTurnStatus {
    /// It came to its end.
    Completed,
    /// It was interrupted.
    Interrupted,
    /// It failed.
    Failed,
    /// It goes on.
    InProgress,
}

/// Where a command stands.
#[derive(Clone, Copy, PartialEq, Eq, Structural, Debug)]
#[allow(inconsistent_fields)]
pub enum CommandExecutionStatus {
    /// It runs.
    InProgress,
    /// It came to its end.
    Completed,
    /// It failed.
    Failed,
    /// It was not allowed.
    Declined,
}

/// Where a tool call stands.
#[derive(Clone, Copy, PartialEq, Eq, Structural, Debug)]
#[allow(inconsistent_fields)]
pub enum ToolCallStatus {
    /// It runs.
    InProgress,
    /// It came to its end.
    Completed,
    /// It failed.
    Failed,
}

/// Tokens, as the app-server counts them.
#[derive(Clone, Copy, PartialEq, Eq, Structural, Debug)]
pub struct TokenUsageBreakdown {
    /// Tokens read.
    pub input_tokens: i64,
    /// Tokens written.
    pub output_tokens: i64,
    /// Tokens in all.
    pub total_tokens: i64,
}

/// How a file is patched.
#[derive(Clone, Copy, PartialEq, Eq, Structural, Debug)]
#[allow(inconsistent_fields)]
pub enum PatchChangeKind {
    /// It is made.
    Add,
    /// It is deleted.
    Delete,
    /// It is changed.
    Update,
}

/// The patch of a file.
#[derive(Debug)]
pub struct FileUpdateChange {
    /// The file.
    pub path: String,
    /// How it is patched.
    pub kind: PatchChangeKind,
    /// The difference.
    pub diff: String,
}

/// A part of what a user said.
#[derive(Debug)]
#[allow(inconsistent_fields)]
pub enum UserContent {
    /// Words.
    Text(String),
    /// Anything else.
    Other,
}

/// An item of a turn.
#[derive(Debug)]
#[allow(inconsistent_fields)]
pub enum ThreadItem {
    /// What the user said.
    UserMessage {
        /// The item.
        id: String,
        /// The parts of it.
        content: Vec<UserContent>,
    },
    /// What a hook said.
    HookPrompt {
        /// The item.
        id: String,
        /// The words of each fragment.
        fragments: Vec<String>,
        /// The fragments as they came.
        raw: Option<Json>,
    },
    /// What the agent said.
    AgentMessage {
        /// The item.
        id: String,
        /// The words.
        text: String,
    },
    /// What the agent plans.
    Plan {
        /// The item.
        id: String,
        /// The words.
        text: String,
    },
    /// What the agent thought.
    Reasoning {
        /// The item.
        id: String,
        /// The words.
        content: Option<Vec<String>>,
        /// The words in short.
        summary: Option<Vec<String>>,
    },
    /// A command.
    CommandExecution {
        /// The item.
        id: String,
        /// The command.
        command: String,
        /// Where it runs.
        cwd: Json,
        /// The process that runs it.
        process_id: Option<String>,
        /// Where it stands.
        status: CommandExecutionStatus,
        /// What it printed.
        aggregated_output: Option<String>,
        /// What it returned.
        exit_code: Option<i64>,
        /// How long it took, in milliseconds.
        duration_ms: Option<i64>,
    },
    /// A change of files.
    FileChange {
        /// The item.
        id: String,
        /// The patches.
        changes: Vec<FileUpdateChange>,
        /// Where the change stands, as it came.
        status: Option<Json>,
    },
    /// A call of a tool of an MCP server.
    McpToolCall {
        /// The item.
        id: String,
        /// The server.
        server: String,
        /// The tool.
        tool: String,
        /// What it was given.
        arguments: Json,
        /// What it gave back.
        result: Option<Json>,
        /// Why it failed.
        error: Option<String>,
        /// Where the call stands.
        status: ToolCallStatus,
    },
    /// A call of a tool of the client.
    DynamicToolCall {
        /// The item.
        id: String,
        /// The tool.
        tool: String,
        /// What it was given.
        arguments: Json,
        /// What it gave back.
        content_items: Option<Json>,
        /// Where the call stands.
        status: ToolCallStatus,
        /// Where the tool comes from.
        namespace: Option<String>,
        /// Whether it worked.
        success: Option<bool>,
    },
    /// A call of another agent.
    CollabAgentToolCall {
        /// The item.
        id: String,
        /// The tool.
        tool: Json,
        /// Where the call stands.
        status: Json,
        /// What the agent was asked.
        prompt: Option<String>,
        /// The agent's model.
        model: Option<String>,
    },
    /// What another agent did.
    SubAgentActivity {
        /// The item.
        id: String,
        /// The agent.
        agent_path: String,
        /// The agent's thread.
        agent_thread_id: String,
        /// What happened, as it came.
        kind: Option<Json>,
        /// The item as it came.
        raw: Option<Json>,
    },
    /// A search of the web.
    WebSearch {
        /// The item.
        id: String,
        /// What was looked for.
        query: String,
        /// How, as it came.
        action: Option<Json>,
    },
    /// An image was looked at.
    ImageView {
        /// The item.
        id: String,
        /// The image.
        path: String,
        /// The item as it came.
        raw: Option<Json>,
    },
    /// A pause.
    Sleep {
        /// The item.
        id: String,
        /// How long, in milliseconds.
        duration_ms: i64,
        /// The item as it came.
        raw: Option<Json>,
    },
    /// An image was made.
    ImageGeneration {
        /// The item.
        id: String,
        /// Where it stands.
        status: String,
        /// What came of it.
        result: String,
        /// What was asked for in the end.
        revised_prompt: Option<String>,
        /// Where the image is.
        saved_path: Option<String>,
        /// The item as it came.
        raw: Option<Json>,
    },
    /// A review started.
    EnteredReviewMode {
        /// The item.
        id: String,
        /// The review.
        review: String,
    },
    /// A review ended.
    ExitedReviewMode {
        /// The item.
        id: String,
        /// The review.
        review: String,
    },
    /// The context was made shorter.
    ContextCompaction {
        /// The item.
        id: String,
        /// The item as it came.
        raw: Option<Json>,
    },
}

/// What went wrong in a turn.
#[derive(Debug)]
pub struct TurnError {
    /// What to say about it.
    pub message: String,
    /// More about it.
    pub additional_details: Option<String>,
    /// What kind of failure it is.
    pub codex_error_info: Option<CodexErrorInfo>,
}

/// What kind of failure a turn had.
#[derive(Debug)]
pub struct CodexErrorInfo {
    /// The kind, as it came.
    pub wire: Option<Json>,
    /// Whether the connection failed, so that an HTTP status may tell more.
    pub connection: bool,
    /// The HTTP status, where the connection failed and there was one.
    pub http_status_code: Option<i64>,
}

/// A piece of text of an item.
#[derive(Debug)]
pub struct TextDelta {
    /// The thread.
    pub thread_id: String,
    /// The turn.
    pub turn_id: String,
    /// The item.
    pub item_id: String,
    /// The piece.
    pub delta: String,
}

/// A step of a plan.
#[derive(Debug)]
pub struct PlanStep {
    /// Where the step stands, as it came.
    pub status: Option<Json>,
    /// What is to be done.
    pub step: String,
}

/// What a notification is that brings no event.
#[derive(Clone, Copy, PartialEq, Eq, Structural, Debug)]
#[allow(inconsistent_fields)]
pub enum OtherNotification {
    /// `thread/started`
    ThreadStarted,
    /// `thread/archived`
    ThreadArchived,
    /// `thread/closed`
    ThreadClosed,
    /// `thread/deleted`
    ThreadDeleted,
    /// `thread/unarchived`
    ThreadUnarchived,
    /// A part was added to a summary of reasoning.
    ReasoningSummaryPartAdded,
    /// A request of the app-server was answered.
    ServerRequestResolved,
    /// The goal of a thread is gone.
    ThreadGoalCleared,
    /// A thread has another name.
    ThreadNameUpdated,
    /// A hook came to its end.
    HookCompleted,
    /// A hook started.
    HookStarted,
    /// The guardian's review of an item came to its end.
    ItemGuardianApprovalReviewCompleted,
    /// The guardian's review of an item started.
    ItemGuardianApprovalReviewStarted,
    /// Something was typed into a terminal.
    TerminalInteraction,
    /// A model was verified.
    ModelVerification,
    /// A thread has another goal.
    ThreadGoalUpdated,
    /// A realtime session was closed.
    ThreadRealtimeClosed,
    /// A realtime session failed.
    ThreadRealtimeError,
    /// A realtime session has another item.
    ThreadRealtimeItemAdded,
    /// Sound of a realtime session.
    ThreadRealtimeOutputAudioDelta,
    /// The description of a realtime session.
    ThreadRealtimeSdp,
    /// A realtime session started.
    ThreadRealtimeStarted,
    /// Words of a realtime session.
    ThreadRealtimeTranscriptDelta,
    /// All words of a realtime session.
    ThreadRealtimeTranscriptDone,
    /// A thread has other settings.
    ThreadSettingsUpdated,
    /// A turn was moderated.
    TurnModerationMetadata,
    /// A model's safety buffering changed.
    ModelSafetyBufferingUpdated,
    /// The environment of a thread is connected.
    ThreadEnvironmentConnected,
    /// The environment of a thread is gone.
    ThreadEnvironmentDisconnected,
    /// A strict review is required.
    StrictReviewRequired,
    /// A thread belongs to another project.
    ThreadProjectUpdated,
    /// The queue of a thread changed.
    ThreadQueueChanged,
    /// A thread was reverted.
    ThreadReverted,
    /// An item of a realtime session started.
    ThreadRealtimeItemStarted,
    /// An item of a realtime session came to its end.
    ThreadRealtimeItemCompleted,
    /// Words of an item of a realtime session.
    ThreadRealtimeItemTranscriptDelta,
    /// The authentication with a provider is being mended.
    ModelProviderAuthRecoveryStarted,
    /// The authentication with a provider was mended.
    ModelProviderAuthRecoveryCompleted,
    /// An MCP server started up.
    McpServerStartupStatusUpdated,
    /// A login to an MCP server came to its end.
    McpServerOauthLoginCompleted,
    /// The limits of the account changed.
    AccountRateLimitsUpdated,
    /// The remote control changed.
    RemoteControlStatusChanged,
    /// A login came to its end.
    AccountLoginCompleted,
    /// The skills changed.
    SkillsChanged,
    /// Files changed.
    FsChanged,
    /// The account changed.
    AccountUpdated,
    /// The list of apps changed.
    AppListUpdated,
    /// What a standalone command printed.
    CommandExecOutputDelta,
    /// An import came to its end.
    ExternalAgentConfigImportCompleted,
    /// A file search came to its end.
    FuzzyFileSearchSessionCompleted,
    /// A file search went on.
    FuzzyFileSearchSessionUpdated,
    /// A process ended.
    ProcessExited,
    /// What a process printed.
    ProcessOutputDelta,
    /// A warning about files.
    WindowsWorldWritableWarning,
    /// The sandbox was set up.
    WindowsSandboxSetupCompleted,
    /// An import went on.
    ExternalAgentConfigImportProgress,
    /// A project changed.
    ProjectChanged,
    /// Events of an MCP server.
    McpServerEventStream,
}

/// A notification of the app-server.
#[derive(Debug)]
#[allow(inconsistent_fields)]
pub enum Notification {
    /// A turn started.
    TurnStarted {
        /// The thread.
        thread_id: String,
        /// The turn.
        turn_id: String,
    },
    /// A turn came to its end.
    TurnCompleted {
        /// The thread.
        thread_id: String,
        /// The turn.
        turn_id: String,
        /// Where it stands.
        status: NativeTurnStatus,
    },
    /// The tokens of a thread.
    ThreadTokenUsageUpdated {
        /// The thread.
        thread_id: String,
        /// The turn.
        turn_id: String,
        /// The tokens of the turn.
        last: TokenUsageBreakdown,
        /// How many tokens the model can hold.
        model_context_window: Option<i64>,
    },
    /// An item started.
    ItemStarted {
        /// The item.
        item: ThreadItem,
        /// When, in milliseconds of the epoch.
        started_at_ms: i64,
        /// The thread.
        thread_id: String,
        /// The turn.
        turn_id: String,
    },
    /// An item came to its end.
    ItemCompleted {
        /// The item.
        item: ThreadItem,
        /// When, in milliseconds of the epoch.
        completed_at_ms: i64,
        /// The thread.
        thread_id: String,
        /// The turn.
        turn_id: String,
    },
    /// Words of the agent.
    AgentMessageDelta(TextDelta),
    /// What a command printed.
    CmdOutputDelta(TextDelta),
    /// What a change of files printed.
    FileChangeOutputDelta(TextDelta),
    /// The patches of a change of files.
    FileChangePatchUpdated {
        /// The thread.
        thread_id: String,
        /// The turn.
        turn_id: String,
        /// The item.
        item_id: String,
        /// The patches.
        changes: Vec<FileUpdateChange>,
    },
    /// Words of a summary of reasoning.
    ReasoningDelta(TextDelta),
    /// Words of reasoning.
    ReasoningTextDelta(TextDelta),
    /// Words of a plan.
    PlanDelta(TextDelta),
    /// What a tool call says of itself.
    McpToolCallProgress(TextDelta),
    /// The difference that a turn made so far.
    TurnDiffUpdated {
        /// The thread.
        thread_id: String,
        /// The turn.
        turn_id: String,
        /// The difference.
        diff: String,
    },
    /// Something failed.
    Error {
        /// The thread.
        thread_id: String,
        /// The turn.
        turn_id: String,
        /// The failure.
        error: TurnError,
        /// Whether the app-server tries again.
        will_retry: bool,
    },
    /// The plan of a turn changed.
    TurnPlanUpdated {
        /// The thread.
        thread_id: String,
        /// The turn.
        turn_id: String,
        /// Why.
        explanation: Option<String>,
        /// The steps.
        plan: Vec<PlanStep>,
        /// The steps as they came.
        raw: Option<Json>,
    },
    /// Another model took over.
    ModelRerouted {
        /// The thread.
        thread_id: String,
        /// The turn.
        turn_id: String,
        /// The model before.
        from_model: String,
        /// The model after.
        to_model: String,
        /// The notification as it came.
        raw: Option<Json>,
    },
    /// The context was made shorter.
    ContextCompacted {
        /// The thread.
        thread_id: String,
        /// The turn.
        turn_id: String,
        /// The notification as it came.
        raw: Option<Json>,
    },
    /// A warning.
    Warning {
        /// The thread.
        thread_id: Option<String>,
        /// What to say.
        message: String,
    },
    /// A warning about the configuration.
    ConfigWarning {
        /// In short.
        summary: String,
        /// More about it.
        details: Option<String>,
    },
    /// A warning of the guardian.
    GuardianWarning {
        /// The thread.
        thread_id: String,
        /// What to say.
        message: String,
    },
    /// Something will go away.
    DeprecationNotice {
        /// In short.
        summary: String,
        /// More about it.
        details: Option<String>,
    },
    /// The status of a thread changed.
    ThreadStatusChanged {
        /// The thread.
        thread_id: String,
        /// Whether the thread is loaded now.
        loaded: bool,
    },
    /// A notification that brings no event.
    Other {
        /// What it is.
        kind: OtherNotification,
        /// The thread that it names, where it names one.
        thread_id: Option<String>,
    },
    /// A notification that is not known here.
    Unknown {
        /// What it is.
        method: String,
        /// All of it.
        params: Option<Json>,
    },
}

/// What a command does, as far as it is understood.
#[derive(Debug)]
#[allow(inconsistent_fields)]
pub enum CommandAction {
    /// It reads a file.
    Read {
        /// The command.
        command: String,
        /// The file's name.
        name: String,
        /// The file.
        path: PathRef,
    },
    /// It lists files.
    ListFiles {
        /// The command.
        command: String,
        /// Where.
        path: Option<PathRef>,
    },
    /// It searches files.
    Search {
        /// The command.
        command: String,
        /// Where.
        path: Option<PathRef>,
        /// For what.
        query: Option<String>,
    },
    /// It does something else.
    Unknown {
        /// The command.
        command: String,
    },
}

/// A host on the network, and what is to be done about it.
#[derive(Debug)]
pub struct NetworkAmendment {
    /// What is to be done, as it came.
    pub action: Option<Json>,
    /// The host.
    pub host: String,
}

/// A host on the network, and how it is spoken to.
#[derive(Debug)]
pub struct NetworkContext {
    /// The host.
    pub host: String,
    /// How it is spoken to, as it came.
    pub protocol: Option<Json>,
}

/// A request to run a command.
#[derive(Debug)]
pub struct CommandApprovalParams {
    /// The thread.
    pub thread_id: String,
    /// The turn.
    pub turn_id: String,
    /// The command.
    pub command: Option<String>,
    /// What the command does.
    pub command_actions: Option<Vec<CommandAction>>,
    /// Where it will run.
    pub cwd: Option<String>,
    /// Why.
    pub reason: Option<String>,
    /// The environment that it will run in.
    pub environment_id: Option<String>,
    /// The host that it will speak to.
    pub network_approval_context: Option<NetworkContext>,
    /// How the policy for commands could change.
    pub proposed_execpolicy_amendment: Option<Vec<String>>,
    /// How the policy for hosts could change.
    pub proposed_network_policy_amendments: Option<Vec<NetworkAmendment>>,
}

/// A request to change files.
#[derive(Debug)]
pub struct FileChangeApprovalParams {
    /// The thread.
    pub thread_id: String,
    /// The turn.
    pub turn_id: String,
    /// The root below which files may be changed.
    pub grant_root: Option<String>,
    /// Why.
    pub reason: Option<String>,
}

/// A place in the file system that permission is asked for.
#[derive(Debug)]
#[allow(inconsistent_fields)]
pub enum FileSystemPath {
    /// A path.
    Path(PathRef),
    /// All paths of a pattern.
    GlobPattern(String),
    /// A special place, as it came.
    Special(Option<Json>),
}

/// Permission on a place in the file system.
#[derive(Debug)]
pub struct FileSystemEntry {
    /// What is permitted, as it came.
    pub access: Option<Json>,
    /// The place.
    pub path: FileSystemPath,
}

/// Permissions on the file system.
#[derive(Debug)]
pub struct FileSystemPermissions {
    /// Places with what is permitted there.
    pub entries: Option<Vec<FileSystemEntry>>,
    /// Places that may be read.
    pub read: Option<Vec<PathRef>>,
    /// Places that may be written.
    pub write: Option<Vec<PathRef>>,
    /// How deep patterns are looked for.
    pub glob_scan_max_depth: Option<i64>,
}

/// A request for more permissions.
#[derive(Debug)]
pub struct PermissionsApprovalParams {
    /// The thread.
    pub thread_id: String,
    /// The turn.
    pub turn_id: String,
    /// Where the permissions are needed.
    pub cwd: String,
    /// Why.
    pub reason: Option<String>,
    /// The environment.
    pub environment_id: Option<String>,
    /// Permissions on the file system.
    pub file_system: Option<FileSystemPermissions>,
    /// Whether the network may be used, where that is asked.
    pub network_enabled: Option<bool>,
    /// The permissions as they came.
    pub permissions: Json,
}

/// A request to run a command, in the older form.
#[derive(Debug)]
pub struct ExecCommandApprovalParams {
    /// The thread.
    pub conversation_id: Json,
    /// The parts of the command.
    pub command: Vec<String>,
    /// Where it will run.
    pub cwd: String,
    /// Why.
    pub reason: Option<String>,
    /// The request, by another name.
    pub approval_id: Option<String>,
    /// What the command does.
    pub parsed_cmd: Vec<CommandAction>,
}

/// How a file is patched, in the older form.
#[derive(Debug)]
pub struct LegacyFileChange {
    /// The file.
    pub path: PathRef,
    /// How it is patched.
    pub kind: PatchChangeKind,
    /// Where the file goes, where it is changed and moved.
    pub move_path: Option<PathRef>,
}

/// A request to patch files, in the older form.
#[derive(Debug)]
pub struct ApplyPatchApprovalParams {
    /// The thread.
    pub conversation_id: Json,
    /// The patches.
    pub file_changes: Vec<LegacyFileChange>,
    /// The root below which files may be changed.
    pub grant_root: Option<String>,
    /// Why.
    pub reason: Option<String>,
}

/// A request that belongs to a turn and is handed on.
#[derive(Debug)]
pub struct ScopedParams {
    /// The thread.
    pub thread_id: String,
    /// The turn.
    pub turn_id: String,
    /// All of it.
    pub params: Json,
}

/// A request of the app-server.
#[derive(Debug)]
#[allow(inconsistent_fields)]
pub enum ServerRequest {
    /// `item/commandExecution/requestApproval`
    CmdExecApproval(CommandApprovalParams),
    /// `item/fileChange/requestApproval`
    FileChangeApproval(FileChangeApprovalParams),
    /// `item/permissions/requestApproval`
    PermissionsRequestApproval(PermissionsApprovalParams),
    /// `execCommandApproval`
    ExecCommandApproval(ExecCommandApprovalParams),
    /// `applyPatchApproval`
    ApplyPatchApproval(ApplyPatchApprovalParams),
    /// `item/tool/requestUserInput`
    ToolRequestUserInput(ScopedParams),
    /// `item/tool/call`
    ItemToolCall(ScopedParams),
    /// `mcpServer/elicitation/request`, with all of it
    McpServerElicitationRequest(Json),
    /// `account/chatgptAuthTokens/refresh`, with all of it
    ChatgptAuthTokensRefresh(Json),
    /// `attestation/generate`, with all of it
    AttestationGenerate(Json),
    /// A request that is not known here.
    Unknown {
        /// What is asked.
        method: String,
        /// All of it.
        params: Option<Json>,
    },
}

/// A message of the app-server.
#[derive(Debug)]
#[allow(inconsistent_fields)]
pub enum ServerMessage {
    /// Something to know.
    Notification(Notification),
    /// Something to answer.
    Request {
        /// The request.
        id: RequestId,
        /// What is asked.
        request: ServerRequest,
    },
}

} // verus!
