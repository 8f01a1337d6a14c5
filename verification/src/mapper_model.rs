//! What a mapper of messages knows, and what messages make of it.

use vstd::prelude::*;

use crate::approval::{
    command_line, command_meta, meta_views, opt_path_meta, opt_text_meta, actions_meta, patch_path,
    patches_meta, permission_detail, permissions_meta, preview_chars, MetaView,
};
use crate::diff::{hunk_views, hunks_of, summary_of};
use crate::error::ErrorView;
use crate::event::{
    AgentEvent, ApprovalDecision, ApprovalKind, FileChangeKind, ItemDelta, TokenUsage,
    TurnStatusKind,
};
use crate::ids::{ItemId, RequestId, ThreadId, TurnId};
use crate::items::{
    activity, command_start_matches, completes_as, item_kind, item_name, tool_start_matches,
    wire_chars,
};
use crate::json::{text_of, Json, JsonTree};
use crate::maps::{without_thread, Owned};
use crate::protocol::{
    CommandExecutionStatus, NativeTurnStatus, Notification, PlanStep, ServerRequest, TextDelta,
    ThreadItem, TokenUsageBreakdown,
};
use crate::text::{is_blank, joined};
use crate::turn_error::error_chars;

verus! {

/// What kind of answer a request for approval waits for.
pub enum PendingKind {
    /// A decision.
    Decision,
    /// Permissions, and which were asked for.
    Permissions(JsonTree),
    /// A decision in the older form.
    LegacyReviewDecision,
}

/// A request for approval that waits for its answer.
pub struct PendingView {
    /// The request.
    pub request_id: RequestId,
    /// What kind of answer it waits for.
    pub kind: PendingKind,
    /// The thread.
    pub thread: ThreadId,
    /// The turn.
    pub turn: TurnId,
}

/// Another request that waits for its answer.
#[derive(Debug)]
pub struct PendingServerRequest {
    /// The request.
    pub request_id: RequestId,
    /// The thread.
    pub thread: ThreadId,
    /// The turn, where the request belongs to one.
    pub turn: Option<TurnId>,
}

impl View for PendingServerRequest {
    type V = PendingServerRequest;

    open spec fn view(&self) -> PendingServerRequest {
        *self
    }
}

impl Owned for PendingServerRequest {
    open spec fn owner_of(seen: PendingServerRequest) -> ThreadId {
        seen.thread
    }

    fn owner(&self) -> (thread: ThreadId) {
        self.thread
    }
}

impl PendingServerRequest {
    /// Another value of the same request.
    pub fn copy(&self) -> (request: PendingServerRequest)
        ensures
            request == *self,
    {
        PendingServerRequest {
            request_id: self.request_id.copy(),
            thread: self.thread,
            turn: self.turn,
        }
    }
}

/// What a mapper knows.
#[verifier::ext_equal]
pub struct MapperView {
    /// The thread of each name of a thread.
    pub threads: Map<Seq<char>, ThreadId>,
    /// The turn of each name of a turn.
    pub turns: Map<Seq<char>, TurnId>,
    /// The item of each name of an item.
    pub items: Map<Seq<char>, ItemId>,
    /// The tokens told last of each turn that goes on.
    pub usage: Map<Seq<char>, TokenUsage>,
    /// The name of the turn that goes on in each thread.
    pub active: Map<ThreadId, Seq<char>>,
    /// The thread and the turn's name of each process.
    pub process_turns: Map<Seq<char>, (ThreadId, Seq<char>)>,
    /// The thread of each command that runs, by the name of its item.
    pub running: Map<Seq<char>, ThreadId>,
    /// The requests for approval that wait for an answer.
    pub approvals: Map<Seq<char>, PendingView>,
    /// The other requests that wait for an answer.
    pub requests: Map<Seq<char>, PendingServerRequest>,
}

/// The number of tokens that a count stands for: none where it is negative.
pub open spec fn count_of(n: i64) -> u64 {
    if n > 0 {
        n as u64
    } else {
        0
    }
}

/// The tokens that the app-server's counts stand for.
pub open spec fn usage_of(counts: TokenUsageBreakdown) -> TokenUsage {
    TokenUsage {
        input: count_of(counts.input_tokens),
        output: count_of(counts.output_tokens),
        total: count_of(counts.total_tokens),
    }
}

/// How a turn ended. One that is told to have ended and still goes on came to its end.
pub open spec fn ended_as(status: NativeTurnStatus) -> TurnStatusKind {
    match status {
        NativeTurnStatus::Completed => TurnStatusKind::Completed,
        NativeTurnStatus::Interrupted => TurnStatusKind::Interrupted,
        NativeTurnStatus::Failed => TurnStatusKind::Failed,
        NativeTurnStatus::InProgress => TurnStatusKind::Completed,
    }
}

impl MapperView {
    /// A mapper that knows nothing.
    pub open spec fn empty() -> MapperView {
        MapperView {
            threads: Map::empty(),
            turns: Map::empty(),
            items: Map::empty(),
            usage: Map::empty(),
            active: Map::empty(),
            process_turns: Map::empty(),
            running: Map::empty(),
            approvals: Map::empty(),
            requests: Map::empty(),
        }
    }

    /// The thread of a name, or the fallback where the name is empty or not known.
    pub open spec fn thread(self, native: Seq<char>, fallback: ThreadId) -> ThreadId {
        if native.len() > 0 && self.threads.contains_key(native) {
            self.threads[native]
        } else {
            fallback
        }
    }

    /// The turn of a name, or a fresh one where the name is empty or not known.
    pub open spec fn turn(self, native: Seq<char>, fresh: TurnId) -> TurnId {
        if native.len() > 0 && self.turns.contains_key(native) {
            self.turns[native]
        } else {
            fresh
        }
    }

    /// The turn of a name is kept from now on, unless the name is empty.
    pub open spec fn with_turn(self, native: Seq<char>, fresh: TurnId) -> MapperView {
        if native.len() > 0 && !self.turns.contains_key(native) {
            MapperView { turns: self.turns.insert(native, fresh), ..self }
        } else {
            self
        }
    }

    /// The item of a name, or a fresh one where the name is empty or not known.
    pub open spec fn item(self, native: Seq<char>, fresh: ItemId) -> ItemId {
        if native.len() > 0 && self.items.contains_key(native) {
            self.items[native]
        } else {
            fresh
        }
    }

    /// The item of a name is kept from now on, unless the name is empty.
    pub open spec fn with_item(self, native: Seq<char>, fresh: ItemId) -> MapperView {
        if native.len() > 0 && !self.items.contains_key(native) {
            MapperView { items: self.items.insert(native, fresh), ..self }
        } else {
            self
        }
    }

    /// The name of the turn that goes on in a thread; empty where none does.
    pub open spec fn active_name(self, thread: ThreadId) -> Seq<char> {
        if self.active.contains_key(thread) {
            self.active[thread]
        } else {
            Seq::empty()
        }
    }

    /// A turn goes on in a thread.
    pub open spec fn started(self, thread: ThreadId, native: Seq<char>) -> MapperView {
        MapperView { active: self.active.insert(thread, native), ..self }
    }

    /// No turn goes on in a thread.
    pub open spec fn cleared(self, thread: ThreadId) -> MapperView {
        MapperView { active: self.active.remove(thread), ..self }
    }

    /// All that goes on in a thread is forgotten, and no request of it waits any longer. Names stay
    /// bound.
    pub open spec fn retired(self, thread: ThreadId) -> MapperView {
        MapperView {
            active: self.active.remove(thread),
            process_turns: without_thread::<Seq<char>, (ThreadId, String)>(
                self.process_turns,
                thread,
            ),
            running: without_thread::<Seq<char>, ThreadId>(self.running, thread),
            approvals: self.approvals.restrict(
                Set::new(
                    |id: Seq<char>|
                        self.approvals.contains_key(id) && self.approvals[id].thread != thread,
                ),
            ),
            requests: without_thread::<Seq<char>, PendingServerRequest>(self.requests, thread),
            ..self
        }
    }

    /// The names of the requests for approval of a thread that wait for an answer.
    pub open spec fn approvals_of(self, thread: ThreadId) -> Set<Seq<char>> {
        Set::new(
            |id: Seq<char>| self.approvals.contains_key(id) && self.approvals[id].thread == thread,
        )
    }

    /// The names of the other requests of a thread that wait for an answer.
    pub open spec fn requests_of(self, thread: ThreadId) -> Set<Seq<char>> {
        Set::new(
            |id: Seq<char>| self.requests.contains_key(id) && self.requests[id].thread == thread,
        )
    }

    /// A turn came to its end: its tokens are forgotten, and so is that it goes on, unless another
    /// turn does by now.
    pub open spec fn ended(self, thread: ThreadId, native: Seq<char>) -> MapperView {
        MapperView {
            active: if self.active.contains_key(thread) && self.active[thread] == native {
                self.active.remove(thread)
            } else {
                self.active
            },
            usage: self.usage.remove(native),
            ..self
        }
    }

    /// The tokens of a turn.
    pub open spec fn tokens(self, native: Seq<char>) -> TokenUsage {
        if self.usage.contains_key(native) {
            self.usage[native]
        } else {
            TokenUsage { input: 0, output: 0, total: 0 }
        }
    }

    /// A command that started and runs is kept with its thread, and its process with its turn: the
    /// turn that is named, or else the one that goes on.
    pub open spec fn command_started(self, item: ThreadItem, thread: ThreadId, turn: Seq<char>) -> MapperView {
        match item {
            ThreadItem::CommandExecution {
                id,
                process_id,
                status: CommandExecutionStatus::InProgress,
                ..
            } => {
                let named = if turn.len() > 0 {
                    turn
                } else {
                    self.active_name(thread)
                };
                MapperView {
                    running: self.running.insert(id@, thread),
                    process_turns: match process_id {
                        Some(process) if named.len() > 0 => self.process_turns.insert(
                            process@,
                            (thread, named),
                        ),
                        _ => self.process_turns,
                    },
                    ..self
                }
            },
            _ => self,
        }
    }

    /// A command that ended is forgotten, with its process; one that is told to have ended and
    /// still runs is kept.
    pub open spec fn command_ended(self, item: ThreadItem, thread: ThreadId) -> MapperView {
        match item {
            ThreadItem::CommandExecution { id, process_id, status, .. } => if status
                == CommandExecutionStatus::InProgress {
                MapperView { running: self.running.insert(id@, thread), ..self }
            } else {
                MapperView {
                    running: self.running.remove(id@),
                    process_turns: match process_id {
                        Some(process) => self.process_turns.remove(process@),
                        None => self.process_turns,
                    },
                    ..self
                }
            },
            _ => self,
        }
    }

    /// A piece of text keeps its turn and its item, unless it is empty.
    pub open spec fn texted(
        self,
        turn: Seq<char>,
        item: Seq<char>,
        text: Seq<char>,
        fresh: (TurnId, ItemId),
    ) -> MapperView {
        if text.len() > 0 {
            self.with_turn(turn, fresh.0).with_item(item, fresh.1)
        } else {
            self
        }
    }

    /// What is known after a notification.
    pub open spec fn notified(
        self,
        notification: Notification,
        fallback: ThreadId,
        fresh: (TurnId, ItemId),
    ) -> MapperView {
        match notification {
            Notification::TurnStarted { thread_id, turn_id } => self.started(
                self.thread(thread_id@, fallback),
                turn_id@,
            ).with_turn(turn_id@, fresh.0),
            Notification::TurnCompleted { thread_id, turn_id, .. } => self.ended(
                self.thread(thread_id@, fallback),
                turn_id@,
            ).with_turn(turn_id@, fresh.0),
            Notification::ThreadTokenUsageUpdated { turn_id, last, .. } => if turn_id@.len() > 0 {
                MapperView { usage: self.usage.insert(turn_id@, usage_of(last)), ..self }
            } else {
                self
            },
            Notification::ItemStarted { item, thread_id, turn_id, .. } => self.with_turn(
                turn_id@,
                fresh.0,
            ).with_item(item_name(item)@, fresh.1).command_started(
                item,
                self.thread(thread_id@, fallback),
                turn_id@,
            ),
            Notification::ItemCompleted { item, thread_id, turn_id, .. } => self.with_turn(
                turn_id@,
                fresh.0,
            ).with_item(item_name(item)@, fresh.1).command_ended(
                item,
                self.thread(thread_id@, fallback),
            ),
            Notification::AgentMessageDelta(d) => self.texted(
                d.turn_id@,
                d.item_id@,
                d.delta@,
                fresh,
            ),
            Notification::CmdOutputDelta(d) => self.with_turn(d.turn_id@, fresh.0).with_item(
                d.item_id@,
                fresh.1,
            ),
            Notification::FileChangeOutputDelta(d) => self.texted(
                d.turn_id@,
                d.item_id@,
                d.delta@,
                fresh,
            ),
            Notification::FileChangePatchUpdated { turn_id, item_id, changes, .. } => self.texted(
                turn_id@,
                item_id@,
                summary_of(changes@),
                fresh,
            ),
            Notification::ReasoningDelta(d) => self.texted(d.turn_id@, d.item_id@, d.delta@, fresh),
            Notification::ReasoningTextDelta(d) => self.texted(
                d.turn_id@,
                d.item_id@,
                d.delta@,
                fresh,
            ),
            Notification::PlanDelta(d) => self.texted(d.turn_id@, d.item_id@, d.delta@, fresh),
            Notification::McpToolCallProgress(d) => self.texted(
                d.turn_id@,
                d.item_id@,
                d.delta@,
                fresh,
            ),
            Notification::TurnDiffUpdated { turn_id, .. } => self.with_turn(turn_id@, fresh.0),
            Notification::TurnPlanUpdated { turn_id, .. } => self.with_turn(
                turn_id@,
                fresh.0,
            ).with_item("turn_plan:"@ + turn_id@, fresh.1),
            Notification::ModelRerouted { turn_id, .. } => self.with_turn(
                turn_id@,
                fresh.0,
            ).with_item("model_rerouted:"@ + turn_id@, fresh.1),
            Notification::ContextCompacted { turn_id, .. } => self.with_turn(
                turn_id@,
                fresh.0,
            ).with_item("context_compacted:"@ + turn_id@, fresh.1),
            _ => self,
        }
    }

    /// Whether an event is a piece of text of an item.
    pub open spec fn text_event(
        self,
        delta: (Seq<char>, Seq<char>, Seq<char>, Seq<char>),
        fallback: ThreadId,
        fresh: (TurnId, ItemId),
        event: Option<AgentEvent>,
    ) -> bool {
        let (thread_id, turn_id, item_id, text) = delta;
        if text.len() == 0 {
            event is None
        } else {
            &&& event matches Some(AgentEvent::ItemDelta { thread, turn, item_id: item, delta: d })
            &&& thread == self.thread(thread_id, fallback)
            &&& turn == self.turn(turn_id, fresh.0)
            &&& item == self.item(item_id, fresh.1)
            &&& d matches ItemDelta::Text { text: t }
            &&& t@ == text
        }
    }

    /// Whether an event is an activity that is told under a made name.
    pub open spec fn activity_event(
        self,
        place: (Seq<char>, Seq<char>),
        fallback: ThreadId,
        fresh: (TurnId, ItemId),
        now_ms: i64,
        name: Seq<char>,
        told: (Seq<char>, Seq<char>, Option<Json>),
        event: Option<AgentEvent>,
    ) -> bool {
        let (title, detail, raw) = told;
        &&& event matches Some(AgentEvent::ItemCompleted { thread, turn, item })
        &&& thread == self.thread(place.0, fallback)
        &&& turn == self.turn(place.1, fresh.0)
        &&& item.id == self.item(name, fresh.1)
        &&& item.harness_item_id@ == name
        &&& item.created_at_ms == now_ms
        &&& activity(
            item.payload,
            title,
            if is_blank(detail) {
                None
            } else {
                Some(detail)
            },
            raw,
        )
    }

    /// Whether an event is a notice.
    pub open spec fn notice(thread: ThreadId, message: Seq<char>, event: Option<AgentEvent>) -> bool {
        &&& event matches Some(AgentEvent::Notice { thread: t, turn, message: m })
        &&& t == thread
        &&& turn is None
        &&& m@ == message
    }

    /// Whether an event is what a notification tells.
    pub open spec fn tells(
        self,
        notification: Notification,
        fallback: ThreadId,
        fresh: (TurnId, ItemId),
        now_ms: i64,
        event: Option<AgentEvent>,
    ) -> bool {
        match notification {
            Notification::TurnStarted { thread_id, turn_id } => event == Some(
                AgentEvent::TurnStarted {
                    thread: self.thread(thread_id@, fallback),
                    turn: self.turn(turn_id@, fresh.0),
                },
            ),
            Notification::TurnCompleted { thread_id, turn_id, status } => {
                &&& event matches Some(
                    AgentEvent::TurnCompleted { thread, turn, usage, status: told },
                )
                &&& thread == self.thread(thread_id@, fallback)
                &&& turn == self.turn(turn_id@, fresh.0)
                &&& usage == self.tokens(turn_id@)
                &&& told.kind == ended_as(status)
                &&& told.message is None
            },
            Notification::ItemStarted { item, started_at_ms, thread_id, turn_id } => {
                &&& event matches Some(AgentEvent::ItemStarted { thread, turn, item: start })
                &&& thread == self.thread(thread_id@, fallback)
                &&& turn == self.turn(turn_id@, fresh.0)
                &&& start.id == self.item(item_name(item)@, fresh.1)
                &&& start.harness_item_id == item_name(item)
                &&& start.kind == item_kind(item)
                &&& command_start_matches(item, started_at_ms, start.command)
                &&& tool_start_matches(item, started_at_ms, start.tool)
            },
            Notification::ItemCompleted { item, completed_at_ms, thread_id, turn_id } => {
                &&& event matches Some(AgentEvent::ItemCompleted { thread, turn, item: told })
                &&& thread == self.thread(thread_id@, fallback)
                &&& turn == self.turn(turn_id@, fresh.0)
                &&& completes_as(
                    item,
                    self.item(item_name(item)@, fresh.1),
                    completed_at_ms,
                    now_ms,
                    told,
                )
            },
            Notification::AgentMessageDelta(d) => self.text_event(parts(d), fallback, fresh, event),
            Notification::CmdOutputDelta(d) => {
                &&& event matches Some(AgentEvent::ItemDelta { thread, turn, item_id, delta })
                &&& thread == self.thread(d.thread_id@, fallback)
                &&& turn == self.turn(d.turn_id@, fresh.0)
                &&& item_id == self.item(d.item_id@, fresh.1)
                &&& delta == (ItemDelta::CommandOutput { chunk: d.delta })
            },
            Notification::FileChangeOutputDelta(d) => self.text_event(
                parts(d),
                fallback,
                fresh,
                event,
            ),
            Notification::FileChangePatchUpdated { thread_id, turn_id, item_id, changes } => self.text_event(
                (thread_id@, turn_id@, item_id@, summary_of(changes@)),
                fallback,
                fresh,
                event,
            ),
            Notification::ReasoningDelta(d) => self.text_event(parts(d), fallback, fresh, event),
            Notification::ReasoningTextDelta(d) => self.text_event(parts(d), fallback, fresh, event),
            Notification::PlanDelta(d) => self.text_event(parts(d), fallback, fresh, event),
            Notification::McpToolCallProgress(d) => self.text_event(
                parts(d),
                fallback,
                fresh,
                event,
            ),
            Notification::TurnDiffUpdated { thread_id, turn_id, diff } => {
                &&& event matches Some(AgentEvent::DiffUpdated { thread, turn, diff: told })
                &&& thread == self.thread(thread_id@, fallback)
                &&& turn == self.turn(turn_id@, fresh.0)
                &&& told.path@.len() == 0
                &&& told.change == FileChangeKind::Modified
                &&& told.old_text is None
                &&& told.new_text == Some(diff)
                &&& hunk_views(told.hunks@) == hunks_of(diff@)
                &&& !told.binary
            },
            Notification::Error { thread_id, error, will_retry, .. } => {
                &&& event matches Some(AgentEvent::Error { thread, turn, error: told })
                &&& thread == self.thread(thread_id@, fallback)
                &&& turn is None
                &&& told@ == ErrorView::Protocol(error_chars(error, will_retry))
            },
            Notification::TurnPlanUpdated { thread_id, turn_id, explanation, plan, raw } => self.activity_event(
                (thread_id@, turn_id@),
                fallback,
                fresh,
                now_ms,
                "turn_plan:"@ + turn_id@,
                ("Plan updated"@, joined(plan_lines(explanation, plan@), "\n"@), raw),
                event,
            ),
            Notification::ModelRerouted { thread_id, turn_id, from_model, to_model, raw } => self.activity_event(
                (thread_id@, turn_id@),
                fallback,
                fresh,
                now_ms,
                "model_rerouted:"@ + turn_id@,
                ("Model rerouted"@, from_model@ + " -> "@ + to_model@, raw),
                event,
            ),
            Notification::ContextCompacted { thread_id, turn_id, raw } => self.activity_event(
                (thread_id@, turn_id@),
                fallback,
                fresh,
                now_ms,
                "context_compacted:"@ + turn_id@,
                ("Context compacted"@, Seq::empty(), raw),
                event,
            ),
            Notification::Warning { thread_id, message } => Self::notice(
                match thread_id {
                    Some(native) => self.thread(native@, fallback),
                    None => fallback,
                },
                message@,
                event,
            ),
            Notification::ConfigWarning { summary, details } => Self::notice(
                fallback,
                "Configuration: "@ + advice(summary, details),
                event,
            ),
            Notification::GuardianWarning { thread_id, message } => Self::notice(
                self.thread(thread_id@, fallback),
                "Guardian: "@ + message@,
                event,
            ),
            Notification::DeprecationNotice { summary, details } => Self::notice(
                fallback,
                "Deprecation: "@ + advice(summary, details),
                event,
            ),
            _ => event is None,
        }
    }

    /// The place of a request in the older form: the thread that it names, and the turn that goes
    /// on there.
    pub open spec fn older_place(self, conversation: JsonTree, fallback: ThreadId) -> (
        ThreadId,
        Seq<char>,
    ) {
        let native = match text_of(conversation) {
            Some(text) => text,
            None => Seq::empty(),
        };
        let thread = self.thread(native, fallback);
        (thread, self.active_name(thread))
    }

    /// The thread of a request, the name of its turn, and what kind of answer it waits for, where it
    /// is a request for approval.
    pub open spec fn approval_of(self, request: ServerRequest, fallback: ThreadId) -> Option<
        (ThreadId, Seq<char>, PendingKind),
    > {
        match request {
            ServerRequest::CmdExecApproval(p) => Some(
                (self.thread(p.thread_id@, fallback), p.turn_id@, PendingKind::Decision),
            ),
            ServerRequest::FileChangeApproval(p) => Some(
                (self.thread(p.thread_id@, fallback), p.turn_id@, PendingKind::Decision),
            ),
            ServerRequest::PermissionsRequestApproval(p) => Some(
                (
                    self.thread(p.thread_id@, fallback),
                    p.turn_id@,
                    PendingKind::Permissions(p.permissions@),
                ),
            ),
            ServerRequest::ExecCommandApproval(p) => {
                let (thread, turn) = self.older_place(p.conversation_id@, fallback);
                Some((thread, turn, PendingKind::LegacyReviewDecision))
            },
            ServerRequest::ApplyPatchApproval(p) => {
                let (thread, turn) = self.older_place(p.conversation_id@, fallback);
                Some((thread, turn, PendingKind::LegacyReviewDecision))
            },
            _ => None,
        }
    }

    /// The thread of another request, and the name of its turn, which is empty where it has none.
    pub open spec fn scope_of(self, request: ServerRequest, fallback: ThreadId) -> (
        ThreadId,
        Seq<char>,
    ) {
        match request {
            ServerRequest::ToolRequestUserInput(p) => (
                self.thread(p.thread_id@, fallback),
                p.turn_id@,
            ),
            ServerRequest::ItemToolCall(p) => (self.thread(p.thread_id@, fallback), p.turn_id@),
            _ => (fallback, Seq::empty()),
        }
    }

    /// The turn of another request.
    pub open spec fn scope_turn(self, native: Seq<char>, fresh: TurnId) -> Option<TurnId> {
        if native.len() > 0 {
            Some(self.turn(native, fresh))
        } else {
            None
        }
    }

    /// What is known after a request.
    pub open spec fn requested(
        self,
        id: RequestId,
        request: ServerRequest,
        fallback: ThreadId,
        fresh: TurnId,
    ) -> MapperView {
        match self.approval_of(request, fallback) {
            Some((thread, native, kind)) => {
                let next = self.with_turn(native, fresh);
                MapperView {
                    approvals: next.approvals.insert(
                        id.chars(),
                        PendingView {
                            request_id: id,
                            kind,
                            thread,
                            turn: self.turn(native, fresh),
                        },
                    ),
                    ..next
                }
            },
            None => {
                let (thread, native) = self.scope_of(request, fallback);
                let next = self.with_turn(native, fresh);
                MapperView {
                    requests: next.requests.insert(
                        id.chars(),
                        PendingServerRequest {
                            request_id: id,
                            thread,
                            turn: self.scope_turn(native, fresh),
                        },
                    ),
                    ..next
                }
            },
        }
    }

    /// Whether an event is what a request asks.
    pub open spec fn asks(
        self,
        id: RequestId,
        request: ServerRequest,
        fallback: ThreadId,
        fresh: TurnId,
        now_ms: i64,
        event: AgentEvent,
    ) -> bool {
        match self.approval_of(request, fallback) {
            Some((thread, native, _)) => {
                &&& event matches AgentEvent::ApprovalRequested { thread: t, turn, request: asked }
                &&& t == thread
                &&& turn == self.turn(native, fresh)
                &&& asked.id@ == id.chars()
                &&& asks_for(request, asked.kind)
                &&& asked.reason == reason_of(request)
                &&& meta_views(asked.metadata@) == shown_of(request)
                &&& asked.available@ == usual_answers()
            },
            None => {
                let (thread, native) = self.scope_of(request, fallback);
                &&& event matches AgentEvent::ServerRequestReceived {
                    thread: t,
                    turn,
                    request: asked,
                }
                &&& t == thread
                &&& turn == self.scope_turn(native, fresh)
                &&& asked.id@ == id.chars()
                &&& asked.method@ == method_of(request)
                &&& asked.params@ == params_of(request)
                &&& asked.received_at_ms == now_ms
            },
        }
    }
}

/// The thread, the turn, the item and the text of a piece of text.
pub open spec fn parts(d: TextDelta) -> (Seq<char>, Seq<char>, Seq<char>, Seq<char>) {
    (d.thread_id@, d.turn_id@, d.item_id@, d.delta@)
}

/// A plan, line by line: why it changed, unless that is blank, and its steps.
pub open spec fn plan_lines(explanation: Option<String>, plan: Seq<PlanStep>) -> Seq<Seq<char>> {
    let head: Seq<Seq<char>> = match explanation {
        Some(text) if !is_blank(text@) => seq![text@],
        _ => Seq::empty(),
    };
    head + plan.map_values(|step: PlanStep| wire_chars(step.status) + ": "@ + step.step@)
}

/// An advice, with more about it where there is more.
pub open spec fn advice(summary: String, details: Option<String>) -> Seq<char> {
    match details {
        Some(more) => summary@ + ": "@ + more@,
        None => summary@,
    }
}

/// The answers that a user can choose from.
pub open spec fn usual_answers() -> Seq<ApprovalDecision> {
    seq![
        ApprovalDecision::Accept,
        ApprovalDecision::AcceptForSession,
        ApprovalDecision::Decline,
        ApprovalDecision::Cancel,
    ]
}

/// Whether this is what approval is asked for.
pub open spec fn asks_for(request: ServerRequest, kind: ApprovalKind) -> bool {
    match request {
        ServerRequest::CmdExecApproval(p) => {
            &&& kind matches ApprovalKind::CommandExecution { command, cwd }
            &&& command@ == preview_chars(p)
            &&& cwd@ == opt_or_empty(p.cwd)
        },
        ServerRequest::FileChangeApproval(p) => {
            &&& kind matches ApprovalKind::FileChange { path, change }
            &&& path@ == opt_or_empty(p.grant_root)
            &&& change == FileChangeKind::Modified
        },
        ServerRequest::PermissionsRequestApproval(p) => {
            &&& kind matches ApprovalKind::Permission { detail }
            &&& detail@ == permission_detail(p.permissions@)
        },
        ServerRequest::ExecCommandApproval(p) => {
            &&& kind matches ApprovalKind::CommandExecution { command, cwd }
            &&& command@ == command_line(p.command@)
            &&& cwd == p.cwd
        },
        ServerRequest::ApplyPatchApproval(p) => {
            &&& kind matches ApprovalKind::FileChange { path, change }
            &&& path@ == patch_path(p)
            &&& change == FileChangeKind::Modified
        },
        _ => false,
    }
}

/// The characters of a text, or none.
pub open spec fn opt_or_empty(text: Option<String>) -> Seq<char> {
    match text {
        Some(t) => t@,
        None => Seq::empty(),
    }
}

/// Why approval is asked for.
pub open spec fn reason_of(request: ServerRequest) -> Option<String> {
    match request {
        ServerRequest::CmdExecApproval(p) => p.reason,
        ServerRequest::FileChangeApproval(p) => p.reason,
        ServerRequest::PermissionsRequestApproval(p) => p.reason,
        ServerRequest::ExecCommandApproval(p) => p.reason,
        ServerRequest::ApplyPatchApproval(p) => p.reason,
        _ => None,
    }
}

/// What the user is shown of what approval is asked for.
pub open spec fn shown_of(request: ServerRequest) -> Seq<MetaView> {
    match request {
        ServerRequest::CmdExecApproval(p) => command_meta(p),
        ServerRequest::FileChangeApproval(p) => opt_path_meta("Grant root"@, p.grant_root),
        ServerRequest::PermissionsRequestApproval(p) => permissions_meta(p),
        ServerRequest::ExecCommandApproval(p) => opt_text_meta("Approval id"@, p.approval_id)
            + actions_meta(p.parsed_cmd@),
        ServerRequest::ApplyPatchApproval(p) => opt_path_meta("Grant root"@, p.grant_root)
            + patches_meta(p.file_changes@),
        _ => Seq::empty(),
    }
}

/// What a request is called.
pub open spec fn method_of(request: ServerRequest) -> Seq<char> {
    match request {
        ServerRequest::CmdExecApproval(_) => "item/commandExecution/requestApproval"@,
        ServerRequest::FileChangeApproval(_) => "item/fileChange/requestApproval"@,
        ServerRequest::PermissionsRequestApproval(_) => "item/permissions/requestApproval"@,
        ServerRequest::ExecCommandApproval(_) => "execCommandApproval"@,
        ServerRequest::ApplyPatchApproval(_) => "applyPatchApproval"@,
        ServerRequest::ToolRequestUserInput(_) => "item/tool/requestUserInput"@,
        ServerRequest::ItemToolCall(_) => "item/tool/call"@,
        ServerRequest::McpServerElicitationRequest(_) => "mcpServer/elicitation/request"@,
        ServerRequest::ChatgptAuthTokensRefresh(_) => "account/chatgptAuthTokens/refresh"@,
        ServerRequest::AttestationGenerate(_) => "attestation/generate"@,
        ServerRequest::Unknown { method, .. } => method@,
    }
}

/// All that another request asks; `null` where nothing came with it.
pub open spec fn params_of(request: ServerRequest) -> JsonTree {
    match request {
        ServerRequest::ToolRequestUserInput(p) => p.params@,
        ServerRequest::ItemToolCall(p) => p.params@,
        ServerRequest::McpServerElicitationRequest(params) => params@,
        ServerRequest::ChatgptAuthTokensRefresh(params) => params@,
        ServerRequest::AttestationGenerate(params) => params@,
        ServerRequest::Unknown { params: Some(params), .. } => params@,
        _ => JsonTree::Null,
    }
}

} // verus!
