//! Events of threads, as consumers of the harness see them.

use vstd::prelude::*;

use crate::error::HarnessError;
use crate::ids::{ItemId, ThreadId, TurnId};
use crate::json::Json;

verus! {

/// Tokens that a turn took.
#[derive(Clone, Copy, PartialEq, Eq, Structural, Debug)]
pub struct TokenUsage {
    /// Tokens read.
    pub input: u64,
    /// Tokens written.
    pub output: u64,
    /// Tokens in all.
    pub total: u64,
}

impl View for TokenUsage {
    type V = TokenUsage;

    open spec fn view(&self) -> TokenUsage {
        *self
    }
}

impl TokenUsage {
    /// No tokens.
    pub fn zero() -> (usage: TokenUsage)
        ensures
            usage == (TokenUsage { input: 0, output: 0, total: 0 }),
    {
        TokenUsage { input: 0, output: 0, total: 0 }
    }
}

/// How a turn ended.
#[derive(Clone, Copy, PartialEq, Eq, Structural, Debug)]
#[allow(inconsistent_fields)]
pub enum TurnStatusKind {
    /// It came to its end.
    Completed,
    /// It was interrupted.
    Interrupted,
    /// It failed.
    Failed,
}

/// How a turn ended, and what is to be said about it.
#[derive(Debug)]
pub struct TurnStatus {
    /// How the turn ended.
    pub kind: TurnStatusKind,
    /// What is to be said about it.
    pub message: Option<String>,
}

/// What became of a file.
#[derive(Clone, Copy, PartialEq, Eq, Structural, Debug)]
#[allow(inconsistent_fields)]
pub enum FileChangeKind {
    /// It is new.
    Created,
    /// It changed.
    Modified,
    /// It is gone.
    Deleted,
}

/// A changed file.
#[derive(Debug)]
pub struct FileChangeEntry {
    /// The file.
    pub path: String,
    /// What became of it.
    pub change: FileChangeKind,
    /// The difference, where there is one to show.
    pub diff: Option<String>,
}

/// A line of a difference.
#[derive(Debug)]
#[allow(inconsistent_fields)]
pub enum DiffLine {
    /// A new line.
    Added(String),
    /// A line that is gone.
    Removed(String),
    /// A line that stayed.
    Context(String),
}

/// A stretch of a difference.
#[derive(Debug)]
pub struct DiffHunk {
    /// The first line of the stretch before the change.
    pub old_start: u32,
    /// How many lines it had before the change.
    pub old_lines: u32,
    /// The first line of the stretch after the change.
    pub new_start: u32,
    /// How many lines it has after the change.
    pub new_lines: u32,
    /// The lines.
    pub lines: Vec<DiffLine>,
}

/// A difference.
#[derive(Debug)]
pub struct FileDiff {
    /// The file, or nothing where the difference spans files.
    pub path: String,
    /// What became of the file.
    pub change: FileChangeKind,
    /// The text before.
    pub old_text: Option<String>,
    /// The text after, or the difference as it came.
    pub new_text: Option<String>,
    /// The stretches of the difference.
    pub hunks: Vec<DiffHunk>,
    /// Whether the file is not text.
    pub binary: bool,
}

/// What an item is.
#[derive(Clone, Copy, PartialEq, Eq, Structural, Debug)]
#[allow(inconsistent_fields)]
pub enum ItemKind {
    /// What the user said.
    UserMessage,
    /// What the agent said.
    AgentMessage,
    /// What the agent thought.
    Reasoning,
    /// A command.
    CommandExecution,
    /// A change of files.
    FileChange,
    /// A call of a tool.
    ToolCall,
    /// Anything else.
    Activity,
}

/// What is known of a command when it starts.
#[derive(Debug)]
pub struct CommandExecutionStart {
    /// The command.
    pub command: String,
    /// Where it runs.
    pub cwd: String,
    /// Where it stands.
    pub status: Option<String>,
    /// The process that runs it.
    pub process_id: Option<String>,
    /// When it started, in milliseconds of the epoch.
    pub started_at_ms: Option<i64>,
}

/// What is known of a tool call when it starts.
#[derive(Debug)]
pub struct ToolCallStart {
    /// The tool.
    pub name: String,
    /// What it was given.
    pub input: Json,
    /// Where the tool comes from.
    pub server: Option<String>,
    /// Where the call stands.
    pub status: Option<String>,
    /// When it started, in milliseconds of the epoch.
    pub started_at_ms: Option<i64>,
}

/// An item that started.
#[derive(Debug)]
pub struct ItemStart {
    /// The item on this side.
    pub id: ItemId,
    /// The item's name at the app-server.
    pub harness_item_id: String,
    /// What it is.
    pub kind: ItemKind,
    /// What is known of the command, where it is one.
    pub command: Option<CommandExecutionStart>,
    /// What is known of the tool call, where it is one.
    pub tool: Option<ToolCallStart>,
}

/// What an item brought.
#[derive(Debug)]
#[allow(inconsistent_fields)]
pub enum ItemPayload {
    /// What the user said.
    UserMessage {
        /// The words.
        text: String,
    },
    /// What the agent said.
    AgentMessage {
        /// The words.
        text: String,
    },
    /// What the agent thought.
    Reasoning {
        /// The words.
        text: String,
    },
    /// A command.
    CommandExecution {
        /// The command.
        command: String,
        /// Where it ran.
        cwd: String,
        /// What it printed.
        output: String,
        /// What it returned.
        exit_code: Option<i32>,
        /// Where it stands.
        status: Option<String>,
        /// The process that ran it.
        process_id: Option<String>,
        /// How long it took, in milliseconds.
        duration_ms: Option<i64>,
    },
    /// A change of files.
    FileChange {
        /// The first file.
        path: String,
        /// What became of the first file.
        change: FileChangeKind,
        /// All files.
        changes: Vec<FileChangeEntry>,
        /// Where the change stands.
        status: Option<String>,
    },
    /// A call of a tool.
    ToolCall {
        /// The tool.
        name: String,
        /// What it was given.
        input: Json,
        /// What it gave back.
        output: Option<Json>,
        /// Where the tool comes from.
        server: Option<String>,
        /// Where the call stands.
        status: Option<String>,
        /// Why it failed.
        error: Option<String>,
    },
    /// Anything else.
    Activity {
        /// What happened.
        title: String,
        /// More about it.
        detail: Option<String>,
        /// All about it.
        metadata: Option<Json>,
    },
}

/// An item that came to its end.
#[derive(Debug)]
pub struct Item {
    /// The item on this side.
    pub id: ItemId,
    /// The item's name at the app-server.
    pub harness_item_id: String,
    /// What it brought.
    pub payload: ItemPayload,
    /// When it came, in milliseconds of the epoch.
    pub created_at_ms: i64,
}

/// A piece of an item that is still going on.
#[derive(Debug)]
#[allow(inconsistent_fields)]
pub enum ItemDelta {
    /// Words.
    Text {
        /// The words.
        text: String,
    },
    /// What a command printed.
    CommandOutput {
        /// The piece.
        chunk: String,
    },
}

/// What a user can answer to a request for approval.
#[derive(Debug)]
#[allow(inconsistent_fields)]
pub enum ApprovalDecision {
    /// Yes.
    Accept,
    /// Yes, and to the like for the rest of the session.
    AcceptForSession,
    /// No.
    Decline,
    /// No, and stop.
    Cancel,
    /// Yes, under a changed policy for commands.
    AcceptWithExecPolicyAmendment {
        /// The change of the policy.
        amendment: Vec<String>,
    },
}

/// What approval is asked for.
#[derive(Debug)]
#[allow(inconsistent_fields)]
pub enum ApprovalKind {
    /// A command.
    CommandExecution {
        /// The command.
        command: String,
        /// Where it will run.
        cwd: String,
    },
    /// A change of files.
    FileChange {
        /// The file, or the root of the files.
        path: String,
        /// What will become of it.
        change: FileChangeKind,
    },
    /// More permissions.
    Permission {
        /// Which.
        detail: String,
    },
}

/// Something a user should see before answering a request for approval.
#[derive(Debug)]
#[allow(inconsistent_fields)]
pub enum ApprovalMetadata {
    /// A text.
    Text {
        /// What the text is.
        label: String,
        /// The text.
        value: String,
    },
    /// A file or directory.
    Path {
        /// What the path is.
        label: String,
        /// The path.
        path: String,
        /// Whether it can be opened as a source file of the workspace.
        source_link: bool,
    },
    /// A host on the network.
    Host {
        /// What the host is.
        label: String,
        /// The host.
        host: String,
        /// How it is spoken to.
        protocol: Option<String>,
        /// The port.
        port: Option<i64>,
        /// What is asked of it.
        target: Option<String>,
    },
}

/// A request for approval.
#[derive(Debug)]
pub struct ApprovalRequest {
    /// The request, by the name under which it is answered.
    pub id: String,
    /// What approval is asked for.
    pub kind: ApprovalKind,
    /// Why.
    pub reason: Option<String>,
    /// What the user should see.
    pub metadata: Vec<ApprovalMetadata>,
    /// The possible answers.
    pub available: Vec<ApprovalDecision>,
}

/// Another request of the app-server.
#[derive(Debug)]
pub struct ServerRequestEvent {
    /// The request, by the name under which it is answered.
    pub id: String,
    /// What is asked.
    pub method: String,
    /// All that was asked.
    pub params: Json,
    /// When it came, in milliseconds of the epoch.
    pub received_at_ms: i64,
}

/// An event of a thread.
#[derive(Debug)]
#[allow(inconsistent_fields)]
pub enum AgentEvent {
    /// The thread is open.
    ThreadOpened {
        /// The thread.
        thread: ThreadId,
        /// The thread's name at the app-server.
        harness_thread_id: String,
    },
    /// A turn started.
    TurnStarted {
        /// The thread.
        thread: ThreadId,
        /// The turn.
        turn: TurnId,
    },
    /// How much the model of a turn can hold.
    ContextWindowUpdated {
        /// The thread.
        thread: ThreadId,
        /// The turn.
        turn: TurnId,
        /// The number of tokens.
        context_window: u32,
    },
    /// An item started.
    ItemStarted {
        /// The thread.
        thread: ThreadId,
        /// The turn.
        turn: TurnId,
        /// The item.
        item: ItemStart,
    },
    /// An item went on.
    ItemDelta {
        /// The thread.
        thread: ThreadId,
        /// The turn.
        turn: TurnId,
        /// The item.
        item_id: ItemId,
        /// The next piece of it.
        delta: ItemDelta,
    },
    /// An item came to its end.
    ItemCompleted {
        /// The thread.
        thread: ThreadId,
        /// The turn.
        turn: TurnId,
        /// The item.
        item: Item,
    },
    /// The difference that a turn made so far.
    DiffUpdated {
        /// The thread.
        thread: ThreadId,
        /// The turn.
        turn: TurnId,
        /// The difference.
        diff: FileDiff,
    },
    /// Approval is asked for.
    ApprovalRequested {
        /// The thread.
        thread: ThreadId,
        /// The turn.
        turn: TurnId,
        /// The request.
        request: ApprovalRequest,
    },
    /// The app-server asks something else.
    ServerRequestReceived {
        /// The thread.
        thread: ThreadId,
        /// The turn, where the request belongs to one.
        turn: Option<TurnId>,
        /// The request.
        request: ServerRequestEvent,
    },
    /// A request of the app-server was answered.
    ServerRequestResolved {
        /// The thread.
        thread: ThreadId,
        /// The turn, where the request belongs to one.
        turn: Option<TurnId>,
        /// The request, by the name under which it was answered.
        request_id: String,
    },
    /// A turn came to its end.
    TurnCompleted {
        /// The thread.
        thread: ThreadId,
        /// The turn.
        turn: TurnId,
        /// The tokens it took.
        usage: TokenUsage,
        /// How it ended.
        status: TurnStatus,
    },
    /// Something failed.
    Error {
        /// The thread.
        thread: ThreadId,
        /// The turn, where it was one.
        turn: Option<TurnId>,
        /// The failure.
        error: HarnessError,
    },
    /// Something should be said.
    Notice {
        /// The thread.
        thread: ThreadId,
        /// The turn, where it is about one.
        turn: Option<TurnId>,
        /// What is to be said.
        message: String,
    },
}

/// The thread of an event.
pub open spec fn thread_of(event: AgentEvent) -> ThreadId {
    match event {
        AgentEvent::ThreadOpened { thread, .. } => thread,
        AgentEvent::TurnStarted { thread, .. } => thread,
        AgentEvent::ContextWindowUpdated { thread, .. } => thread,
        AgentEvent::ItemStarted { thread, .. } => thread,
        AgentEvent::ItemDelta { thread, .. } => thread,
        AgentEvent::ItemCompleted { thread, .. } => thread,
        AgentEvent::DiffUpdated { thread, .. } => thread,
        AgentEvent::ApprovalRequested { thread, .. } => thread,
        AgentEvent::ServerRequestReceived { thread, .. } => thread,
        AgentEvent::ServerRequestResolved { thread, .. } => thread,
        AgentEvent::TurnCompleted { thread, .. } => thread,
        AgentEvent::Error { thread, .. } => thread,
        AgentEvent::Notice { thread, .. } => thread,
    }
}

/// The thread of an event.
pub fn event_thread(event: &AgentEvent) -> (thread: ThreadId)
    ensures
        thread == thread_of(*event),
{
    match event {
        AgentEvent::ThreadOpened { thread, .. } => *thread,
        AgentEvent::TurnStarted { thread, .. } => *thread,
        AgentEvent::ContextWindowUpdated { thread, .. } => *thread,
        AgentEvent::ItemStarted { thread, .. } => *thread,
        AgentEvent::ItemDelta { thread, .. } => *thread,
        AgentEvent::ItemCompleted { thread, .. } => *thread,
        AgentEvent::DiffUpdated { thread, .. } => *thread,
        AgentEvent::ApprovalRequested { thread, .. } => *thread,
        AgentEvent::ServerRequestReceived { thread, .. } => *thread,
        AgentEvent::ServerRequestResolved { thread, .. } => *thread,
        AgentEvent::TurnCompleted { thread, .. } => *thread,
        AgentEvent::Error { thread, .. } => *thread,
        AgentEvent::Notice { thread, .. } => *thread,
    }
}

/// The turn of an event, where it belongs to one.
pub open spec fn turn_of(event: AgentEvent) -> Option<TurnId> {
    match event {
        AgentEvent::ThreadOpened { .. } => None,
        AgentEvent::TurnStarted { turn, .. } => Some(turn),
        AgentEvent::ContextWindowUpdated { turn, .. } => Some(turn),
        AgentEvent::ItemStarted { turn, .. } => Some(turn),
        AgentEvent::ItemDelta { turn, .. } => Some(turn),
        AgentEvent::ItemCompleted { turn, .. } => Some(turn),
        AgentEvent::DiffUpdated { turn, .. } => Some(turn),
        AgentEvent::ApprovalRequested { turn, .. } => Some(turn),
        AgentEvent::ServerRequestReceived { turn, .. } => turn,
        AgentEvent::ServerRequestResolved { turn, .. } => turn,
        AgentEvent::TurnCompleted { turn, .. } => Some(turn),
        AgentEvent::Error { turn, .. } => turn,
        AgentEvent::Notice { turn, .. } => turn,
    }
}

/// The turn of an event, where it belongs to one.
pub fn agent_event_turn(event: &AgentEvent) -> (turn: Option<TurnId>)
    ensures
        turn == turn_of(*event),
{
    match event {
        AgentEvent::ThreadOpened { .. } => None,
        AgentEvent::TurnStarted { turn, .. } => Some(*turn),
        AgentEvent::ContextWindowUpdated { turn, .. } => Some(*turn),
        AgentEvent::ItemStarted { turn, .. } => Some(*turn),
        AgentEvent::ItemDelta { turn, .. } => Some(*turn),
        AgentEvent::ItemCompleted { turn, .. } => Some(*turn),
        AgentEvent::DiffUpdated { turn, .. } => Some(*turn),
        AgentEvent::ApprovalRequested { turn, .. } => Some(*turn),
        AgentEvent::ServerRequestReceived { turn, .. } => *turn,
        AgentEvent::ServerRequestResolved { turn, .. } => *turn,
        AgentEvent::TurnCompleted { turn, .. } => Some(*turn),
        AgentEvent::Error { turn, .. } => *turn,
        AgentEvent::Notice { turn, .. } => *turn,
    }
}

} // verus!
