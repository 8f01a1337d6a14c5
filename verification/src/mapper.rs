//! Messages of the app-server as events of threads.

use vstd::prelude::*;

use crate::answer_laws::asks_where_named;
use crate::approval::{
    command_approval_metadata, command_approval_preview, file_change_approval_metadata,
    format_permissions_detail, legacy_command_preview, legacy_exec_approval_metadata,
    legacy_patch_approval_metadata, legacy_patch_preview_path, legacy_tree, map_approval_decision,
    map_legacy_review_decision, map_permissions_approval_decision, permissions_approval_metadata,
    permissions_body, decision_tree, ApprovalResponse, ApprovalResponseBody, BodyView,
};
use crate::diff::{parse_diff_hunks, summarize_file_changes};
use crate::error::HarnessError;
use crate::event::{
    AgentEvent, ApprovalDecision, ApprovalKind, ApprovalMetadata, ApprovalRequest, FileChangeKind,
    FileDiff, Item, ItemDelta, ItemPayload, ItemStart, ServerRequestEvent, TokenUsage, TurnStatus,
    TurnStatusKind,
};
use crate::event_laws::lands_where_named;
use crate::handle::copy_text;
use crate::ids::{request_id_to_string, ItemId, RequestId, ThreadId, TurnId};
use crate::items::{
    copy_json, enum_string, map_thread_item_complete, map_thread_item_start, thread_item_id,
};
use crate::json::Json;
use crate::maps::{KeyMap, Owned, TextMap, ThreadMap};
use crate::mapper_model::{
    advice, ended_as, method_of, opt_or_empty, params_of, plan_lines, usage_of, usual_answers,
    MapperView, PendingKind, PendingServerRequest, PendingView,
};
use crate::protocol::{
    CommandExecutionStatus, NativeTurnStatus, Notification, PlanStep, ServerRequest, ThreadItem,
    TokenUsageBreakdown,
};
use crate::text::{blank, concat, concat3, join, views};
use crate::turn_error::compose_turn_error;

verus! {

/// What kind of answer a request for approval waits for.
enum PendingApprovalResponseKind {
    Decision,
    Permissions { permissions: Json },
    LegacyReviewDecision,
}

/// A request for approval that waits for its answer.
struct PendingApprovalResponse {
    request_id: RequestId,
    kind: PendingApprovalResponseKind,
    thread: ThreadId,
    turn: TurnId,
}

impl View for PendingApprovalResponse {
    type V = PendingView;

    closed spec fn view(&self) -> PendingView {
        PendingView {
            request_id: self.request_id,
            kind: match self.kind {
                PendingApprovalResponseKind::Decision => PendingKind::Decision,
                PendingApprovalResponseKind::Permissions { permissions } => PendingKind::Permissions(
                    permissions@,
                ),
                PendingApprovalResponseKind::LegacyReviewDecision => PendingKind::LegacyReviewDecision,
            },
            thread: self.thread,
            turn: self.turn,
        }
    }
}

impl Owned for PendingApprovalResponse {
    open spec fn owner_of(seen: PendingView) -> ThreadId {
        seen.thread
    }

    fn owner(&self) -> (thread: ThreadId) {
        self.thread
    }
}

impl PendingApprovalResponse {
    fn copy(&self) -> (pending: PendingApprovalResponse)
        ensures
            pending@ == self@,
    {
        PendingApprovalResponse {
            request_id: self.request_id.copy(),
            kind: match &self.kind {
                PendingApprovalResponseKind::Decision => PendingApprovalResponseKind::Decision,
                PendingApprovalResponseKind::Permissions { permissions } => {
                    PendingApprovalResponseKind::Permissions { permissions: permissions.copy() }
                },
                PendingApprovalResponseKind::LegacyReviewDecision => {
                    PendingApprovalResponseKind::LegacyReviewDecision
                },
            },
            thread: self.thread,
            turn: self.turn,
        }
    }

    fn answered(self, decision: &ApprovalDecision) -> (response: ApprovalResponse)
        ensures
            response.id() == self@.request_id,
            response.body() == answer_of(self@.kind, *decision),
    {
        let body = match self.kind {
            PendingApprovalResponseKind::Permissions { permissions } => {
                map_permissions_approval_decision(decision, permissions)
            },
            PendingApprovalResponseKind::LegacyReviewDecision => map_legacy_review_decision(
                decision,
            ),
            PendingApprovalResponseKind::Decision => ApprovalResponseBody::Result(
                map_approval_decision(decision),
            ),
        };
        ApprovalResponse::from_parts(self.request_id, body)
    }
}

/// A request for approval that is being answered.
pub struct ApprovalResponseToken {
    id: String,
    pending: PendingApprovalResponse,
}

impl ApprovalResponseToken {
    /// The name under which the request is answered.
    pub closed spec fn name(self) -> Seq<char> {
        self.id@
    }

    /// The request.
    pub closed spec fn pending(self) -> PendingView {
        self.pending@
    }
}

/// An answer to a request for approval that is to be written, and the request, should the writing
/// fail.
pub struct ApprovalResponseAttempt {
    /// The answer.
    pub response: ApprovalResponse,
    /// The request.
    pub token: ApprovalResponseToken,
    /// The thread of the request.
    pub thread: ThreadId,
    /// The turn of the request.
    pub turn: TurnId,
}

/// Makes events of messages. Threads, turns and items get their identifiers here, each once: every
/// message that names the same thread, turn or item is told under the same identifier.
pub struct CodexMapper {
    workspace_root: String,
    thread_ids: TextMap<ThreadId>,
    turn_ids: TextMap<TurnId>,
    item_ids: TextMap<ItemId>,
    turn_usage: TextMap<TokenUsage>,
    active_turns: ThreadMap<String>,
    running_command_turns: TextMap<(ThreadId, String)>,
    running_commands: TextMap<ThreadId>,
    pending_approval_responses: TextMap<PendingApprovalResponse>,
    pending_server_requests: TextMap<PendingServerRequest>,
}

impl View for CodexMapper {
    type V = MapperView;

    closed spec fn view(&self) -> MapperView {
        MapperView {
            threads: self.thread_ids@,
            turns: self.turn_ids@,
            items: self.item_ids@,
            usage: self.turn_usage@,
            active: self.active_turns@,
            process_turns: self.running_command_turns@,
            running: self.running_commands@,
            approvals: self.pending_approval_responses@,
            requests: self.pending_server_requests@,
        }
    }
}

impl CodexMapper {
    /// Each table is a map.
    pub closed spec fn wf(self) -> bool {
        &&& self.thread_ids.wf()
        &&& self.turn_ids.wf()
        &&& self.item_ids.wf()
        &&& self.turn_usage.wf()
        &&& self.active_turns.wf()
        &&& self.running_command_turns.wf()
        &&& self.running_commands.wf()
        &&& self.pending_approval_responses.wf()
        &&& self.pending_server_requests.wf()
    }

    /// The root of the workspace.
    pub closed spec fn root(self) -> String {
        self.workspace_root
    }

    /// A mapper that knows nothing yet.
    pub fn new(workspace_root: String) -> (mapper: Self)
        ensures
            mapper.wf(),
            mapper@ == MapperView::empty(),
            mapper.root() == workspace_root,
    {
        CodexMapper {
            workspace_root,
            thread_ids: KeyMap::new(),
            turn_ids: KeyMap::new(),
            item_ids: KeyMap::new(),
            turn_usage: KeyMap::new(),
            active_turns: KeyMap::new(),
            running_command_turns: KeyMap::new(),
            running_commands: KeyMap::new(),
            pending_approval_responses: KeyMap::new(),
            pending_server_requests: KeyMap::new(),
        }
    }

    /// The root of the workspace, below which files can be opened.
    pub fn workspace_root(&self) -> (root: &str)
        ensures
            root@ == self.root()@,
    {
        self.workspace_root.as_str()
    }

    /// Whether a command runs.
    pub fn has_running_commands(&self) -> (running: bool)
        requires
            self.wf(),
        ensures
            running == (self@.running != Map::<Seq<char>, ThreadId>::empty()),
    {
        !self.running_commands.is_empty()
    }

    /// A thread in which a command runs.
    pub fn running_command_fallback_thread(&self) -> (thread: Option<ThreadId>)
        requires
            self.wf(),
        ensures
            thread is None <==> self@.running == Map::<Seq<char>, ThreadId>::empty(),
            thread matches Some(t) ==> self@.running.contains_value(t),
    {
        if self.running_commands.is_empty() {
            None
        } else {
            proof {
                self.running_commands.lemma_order();
                if self.running_commands.order().len() == 0 {
                    assert(self@.running.dom() =~= Set::empty());
                    assert(self@.running =~= Map::<Seq<char>, ThreadId>::empty());
                }
            }
            Some(*self.running_commands.nth(0).1)
        }
    }

    /// The name of the turn that goes on in a thread.
    pub fn active_native_turn_for_thread(&self, thread: ThreadId) -> (turn: Option<&str>)
        requires
            self.wf(),
        ensures
            crate::split::opt_view(turn) == (if self@.active.contains_key(thread) {
                Some(self@.active[thread])
            } else {
                None
            }),
    {
        match self.active_turns.get(&thread) {
            Some(native) => Some(native.as_str()),
            None => None,
        }
    }

    /// The name of the turn that a process belongs to, where it belongs to the thread.
    pub fn native_turn_for_process(&self, thread: ThreadId, process_id: &String) -> (turn: Option<
        &str,
    >)
        requires
            self.wf(),
        ensures
            crate::split::opt_view(turn) == (if self@.process_turns.contains_key(process_id@)
                && self@.process_turns[process_id@].0 == thread {
                Some(self@.process_turns[process_id@].1)
            } else {
                None
            }),
    {
        match self.running_command_turns.get(process_id) {
            Some(entry) => if entry.0 == thread {
                Some(entry.1.as_str())
            } else {
                None
            },
            None => None,
        }
    }

    /// Binds a name of a thread to the thread.
    pub fn register_thread(&mut self, harness_thread_id: String, thread: ThreadId)
        requires
            old(self).wf(),
        ensures
            final(self).wf(),
            final(self).root() == old(self).root(),
            final(self)@ == (MapperView {
                threads: old(self)@.threads.insert(harness_thread_id@, thread),
                ..old(self)@
            }),
    {
        self.thread_ids.insert(harness_thread_id, thread);
    }

    /// The thread of a name, or the fallback where the name is empty or not known.
    pub fn resolve_thread(&self, native: &String, fallback: ThreadId) -> (thread: ThreadId)
        requires
            self.wf(),
        ensures
            thread == self@.thread(native@, fallback),
    {
        if native.as_str().is_empty() {
            return fallback;
        }
        match self.thread_ids.get(native) {
            Some(thread) => *thread,
            None => fallback,
        }
    }

    /// The turn of a name; the fresh one where the name is new.
    fn known_turn(&self, native: &String, fresh: TurnId) -> (turn: TurnId)
        requires
            self.wf(),
        ensures
            turn == self@.turn(native@, fresh),
    {
        if native.as_str().is_empty() {
            return fresh;
        }
        match self.turn_ids.get(native) {
            Some(turn) => *turn,
            None => fresh,
        }
    }

    /// The turn of a name. A name that is new is bound to the fresh turn.
    pub fn resolve_turn(&mut self, native: &String, fresh: TurnId) -> (turn: TurnId)
        requires
            old(self).wf(),
        ensures
            final(self).wf(),
            final(self).root() == old(self).root(),
            turn == old(self)@.turn(native@, fresh),
            final(self)@ == old(self)@.with_turn(native@, fresh),
    {
        if native.as_str().is_empty() {
            return fresh;
        }
        match self.turn_ids.get(native) {
            Some(turn) => {
                return *turn;
            },
            None => {},
        }
        self.turn_ids.insert(native.clone(), fresh);
        fresh
    }

    /// The item of a name. A name that is new is bound to the fresh item.
    pub fn resolve_item(&mut self, native: &String, fresh: ItemId) -> (item: ItemId)
        requires
            old(self).wf(),
        ensures
            final(self).wf(),
            final(self).root() == old(self).root(),
            item == old(self)@.item(native@, fresh),
            final(self)@ == old(self)@.with_item(native@, fresh),
    {
        if native.as_str().is_empty() {
            return fresh;
        }
        match self.item_ids.get(native) {
            Some(item) => {
                return *item;
            },
            None => {},
        }
        self.item_ids.insert(native.clone(), fresh);
        fresh
    }

    /// What a notification tells. `fresh` gives the identifiers for a turn and an item that were
    /// not named before, and `now_ms` the present.
    pub fn map_notification(
        &mut self,
        notification: &Notification,
        fallback: ThreadId,
        fresh: (TurnId, ItemId),
        now_ms: i64,
    ) -> (event: Option<AgentEvent>)
        requires
            old(self).wf(),
        ensures
            final(self).wf(),
            final(self).root() == old(self).root(),
            final(self)@ == old(self)@.notified(*notification, fallback, fresh),
            old(self)@.tells(*notification, fallback, fresh, now_ms, event),
            lands_where_named(old(self)@.threads, *notification, fallback, event),
    {
        match notification {
            Notification::TurnStarted { thread_id, turn_id } => {
                let thread = self.resolve_thread(thread_id, fallback);
                self.active_turns.insert(thread, turn_id.clone());
                let turn = self.resolve_turn(turn_id, fresh.0);
                Some(AgentEvent::TurnStarted { thread, turn })
            },
            Notification::TurnCompleted { thread_id, turn_id, status } => {
                let thread = self.resolve_thread(thread_id, fallback);
                let ended = match self.active_turns.get(&thread) {
                    Some(active) => *active == *turn_id,
                    None => false,
                };
                if ended {
                    self.active_turns.remove(&thread);
                }
                let usage = match self.turn_usage.remove(turn_id) {
                    Some(usage) => usage,
                    None => TokenUsage::zero(),
                };
                let turn = self.resolve_turn(turn_id, fresh.0);
                Some(
                    AgentEvent::TurnCompleted { thread, turn, usage, status: map_turn_status(*status) },
                )
            },
            Notification::ThreadTokenUsageUpdated { turn_id, last, .. } => {
                if !turn_id.as_str().is_empty() {
                    self.turn_usage.insert(turn_id.clone(), breakdown_to_usage(*last));
                }
                None
            },
            Notification::ItemStarted { item, started_at_ms, thread_id, turn_id } => {
                let thread = self.resolve_thread(thread_id, fallback);
                let turn = self.resolve_turn(turn_id, fresh.0);
                let (harness_item_id, kind, command, tool) = map_thread_item_start(
                    item,
                    *started_at_ms,
                );
                let id = self.resolve_item(&harness_item_id, fresh.1);
                self.track_command_start(item, thread, turn_id);
                Some(
                    AgentEvent::ItemStarted {
                        thread,
                        turn,
                        item: ItemStart { id, harness_item_id, kind, command, tool },
                    },
                )
            },
            Notification::ItemCompleted { item, completed_at_ms, thread_id, turn_id } => {
                let thread = self.resolve_thread(thread_id, fallback);
                let turn = self.resolve_turn(turn_id, fresh.0);
                let harness_item_id = thread_item_id(item);
                let id = self.resolve_item(&harness_item_id, fresh.1);
                let told = map_thread_item_complete(
                    item,
                    id,
                    harness_item_id,
                    *completed_at_ms,
                    now_ms,
                );
                self.track_completed_item(item, thread);
                Some(AgentEvent::ItemCompleted { thread, turn, item: told })
            },
            Notification::AgentMessageDelta(d) => self.map_text_delta(
                (&d.thread_id, &d.turn_id, &d.item_id),
                &d.delta,
                fallback,
                fresh,
            ),
            Notification::CmdOutputDelta(d) => {
                let thread = self.resolve_thread(&d.thread_id, fallback);
                let turn = self.resolve_turn(&d.turn_id, fresh.0);
                let item_id = self.resolve_item(&d.item_id, fresh.1);
                Some(
                    AgentEvent::ItemDelta {
                        thread,
                        turn,
                        item_id,
                        delta: ItemDelta::CommandOutput { chunk: d.delta.clone() },
                    },
                )
            },
            Notification::FileChangeOutputDelta(d) => self.map_text_delta(
                (&d.thread_id, &d.turn_id, &d.item_id),
                &d.delta,
                fallback,
                fresh,
            ),
            Notification::FileChangePatchUpdated { thread_id, turn_id, item_id, changes } => {
                let text = summarize_file_changes(changes);
                self.map_text_delta((thread_id, turn_id, item_id), &text, fallback, fresh)
            },
            Notification::ReasoningDelta(d) => self.map_text_delta(
                (&d.thread_id, &d.turn_id, &d.item_id),
                &d.delta,
                fallback,
                fresh,
            ),
            Notification::ReasoningTextDelta(d) => self.map_text_delta(
                (&d.thread_id, &d.turn_id, &d.item_id),
                &d.delta,
                fallback,
                fresh,
            ),
            Notification::PlanDelta(d) => self.map_text_delta(
                (&d.thread_id, &d.turn_id, &d.item_id),
                &d.delta,
                fallback,
                fresh,
            ),
            Notification::McpToolCallProgress(d) => self.map_text_delta(
                (&d.thread_id, &d.turn_id, &d.item_id),
                &d.delta,
                fallback,
                fresh,
            ),
            Notification::TurnDiffUpdated { thread_id, turn_id, diff } => {
                let thread = self.resolve_thread(thread_id, fallback);
                let turn = self.resolve_turn(turn_id, fresh.0);
                Some(
                    AgentEvent::DiffUpdated {
                        thread,
                        turn,
                        diff: FileDiff {
                            path: String::new(),
                            change: FileChangeKind::Modified,
                            old_text: None,
                            new_text: Some(diff.clone()),
                            hunks: parse_diff_hunks(diff.as_str()),
                            binary: false,
                        },
                    },
                )
            },
            Notification::Error { thread_id, error, will_retry, .. } => {
                let thread = self.resolve_thread(thread_id, fallback);
                Some(
                    AgentEvent::Error {
                        thread,
                        turn: None,
                        error: HarnessError::Protocol(compose_turn_error(error, *will_retry)),
                    },
                )
            },
            Notification::TurnPlanUpdated { thread_id, turn_id, explanation, plan, raw } => {
                let detail = join(&plan_text(explanation, plan), "\n");
                Some(
                    self.activity_event(
                        (thread_id, turn_id),
                        fallback,
                        fresh,
                        now_ms,
                        concat("turn_plan:", turn_id.as_str()),
                        ("Plan updated", detail, raw),
                    ),
                )
            },
            Notification::ModelRerouted { thread_id, turn_id, from_model, to_model, raw } => {
                let detail = concat3(from_model.as_str(), " -> ", to_model.as_str());
                Some(
                    self.activity_event(
                        (thread_id, turn_id),
                        fallback,
                        fresh,
                        now_ms,
                        concat("model_rerouted:", turn_id.as_str()),
                        ("Model rerouted", detail, raw),
                    ),
                )
            },
            Notification::ContextCompacted { thread_id, turn_id, raw } => {
                Some(
                    self.activity_event(
                        (thread_id, turn_id),
                        fallback,
                        fresh,
                        now_ms,
                        concat("context_compacted:", turn_id.as_str()),
                        ("Context compacted", String::new(), raw),
                    ),
                )
            },
            Notification::Warning { thread_id, message } => {
                let thread = match thread_id {
                    Some(native) => self.resolve_thread(native, fallback),
                    None => fallback,
                };
                Some(AgentEvent::Notice { thread, turn: None, message: message.clone() })
            },
            Notification::ConfigWarning { summary, details } => Some(
                AgentEvent::Notice {
                    thread: fallback,
                    turn: None,
                    message: concat("Configuration: ", advice_text(summary, details).as_str()),
                },
            ),
            Notification::GuardianWarning { thread_id, message } => {
                let thread = self.resolve_thread(thread_id, fallback);
                Some(
                    AgentEvent::Notice {
                        thread,
                        turn: None,
                        message: concat("Guardian: ", message.as_str()),
                    },
                )
            },
            Notification::DeprecationNotice { summary, details } => Some(
                AgentEvent::Notice {
                    thread: fallback,
                    turn: None,
                    message: concat("Deprecation: ", advice_text(summary, details).as_str()),
                },
            ),
            _ => None,
        }
    }

    fn track_command_start(&mut self, item: &ThreadItem, thread: ThreadId, native_turn_id: &String)
        requires
            old(self).wf(),
        ensures
            final(self).wf(),
            final(self).root() == old(self).root(),
            final(self)@ == old(self)@.command_started(*item, thread, native_turn_id@),
    {
        match item {
            ThreadItem::CommandExecution { id, process_id, status, .. } => {
                if *status != CommandExecutionStatus::InProgress {
                    return ;
                }
                self.running_commands.insert(id.clone(), thread);
                match process_id {
                    Some(process) => {
                        let turn = if native_turn_id.as_str().is_empty() {
                            match self.active_turns.get(&thread) {
                                Some(active) => active.clone(),
                                None => String::new(),
                            }
                        } else {
                            native_turn_id.clone()
                        };
                        if !turn.as_str().is_empty() {
                            self.running_command_turns.insert(process.clone(), (thread, turn));
                        }
                    },
                    None => {},
                }
            },
            _ => {},
        }
    }

    fn track_completed_item(&mut self, item: &ThreadItem, thread: ThreadId)
        requires
            old(self).wf(),
        ensures
            final(self).wf(),
            final(self).root() == old(self).root(),
            final(self)@ == old(self)@.command_ended(*item, thread),
    {
        match item {
            ThreadItem::CommandExecution { id, process_id, status, .. } => {
                if *status == CommandExecutionStatus::InProgress {
                    self.running_commands.insert(id.clone(), thread);
                } else {
                    self.running_commands.remove(id);
                    match process_id {
                        Some(process) => {
                            self.running_command_turns.remove(process);
                        },
                        None => {},
                    }
                }
            },
            _ => {},
        }
    }

    fn map_text_delta(
        &mut self,
        place: (&String, &String, &String),
        text: &String,
        fallback: ThreadId,
        fresh: (TurnId, ItemId),
    ) -> (event: Option<AgentEvent>)
        requires
            old(self).wf(),
        ensures
            final(self).wf(),
            final(self).root() == old(self).root(),
            final(self)@ == old(self)@.texted(place.1@, place.2@, text@, fresh),
            old(self)@.text_event((place.0@, place.1@, place.2@, text@), fallback, fresh, event),
    {
        if text.as_str().is_empty() {
            return None;
        }
        let thread = self.resolve_thread(place.0, fallback);
        let turn = self.resolve_turn(place.1, fresh.0);
        let item_id = self.resolve_item(place.2, fresh.1);
        Some(
            AgentEvent::ItemDelta {
                thread,
                turn,
                item_id,
                delta: ItemDelta::Text { text: text.clone() },
            },
        )
    }

    fn activity_event(
        &mut self,
        place: (&String, &String),
        fallback: ThreadId,
        fresh: (TurnId, ItemId),
        now_ms: i64,
        harness_item_id: String,
        told: (&str, String, &Option<Json>),
    ) -> (event: AgentEvent)
        requires
            old(self).wf(),
        ensures
            final(self).wf(),
            final(self).root() == old(self).root(),
            final(self)@ == old(self)@.with_turn(place.1@, fresh.0).with_item(
                harness_item_id@,
                fresh.1,
            ),
            old(self)@.activity_event(
                (place.0@, place.1@),
                fallback,
                fresh,
                now_ms,
                harness_item_id@,
                (told.0@, told.1@, *told.2),
                Some(event),
            ),
    {
        let thread = self.resolve_thread(place.0, fallback);
        let turn = self.resolve_turn(place.1, fresh.0);
        let id = self.resolve_item(&harness_item_id, fresh.1);
        let (title, text, raw) = told;
        let detail = if blank(text.as_str()) {
            None
        } else {
            Some(text)
        };
        AgentEvent::ItemCompleted {
            thread,
            turn,
            item: Item {
                id,
                harness_item_id,
                payload: ItemPayload::Activity {
                    title: title.to_owned(),
                    detail,
                    metadata: copy_json(raw),
                },
                created_at_ms: now_ms,
            },
        }
    }
}

/// How a turn ended.
pub fn map_turn_status(status: NativeTurnStatus) -> (ended: TurnStatus)
    ensures
        ended == (TurnStatus { kind: ended_as(status), message: None }),
        ended.kind == TurnStatusKind::Failed <==> status == NativeTurnStatus::Failed,
        ended.kind == TurnStatusKind::Interrupted <==> status == NativeTurnStatus::Interrupted,
        ended.kind == TurnStatusKind::Completed <==> (status == NativeTurnStatus::Completed
            || status == NativeTurnStatus::InProgress),
{
    let kind = match status {
        NativeTurnStatus::Completed => TurnStatusKind::Completed,
        NativeTurnStatus::Interrupted => TurnStatusKind::Interrupted,
        NativeTurnStatus::Failed => TurnStatusKind::Failed,
        NativeTurnStatus::InProgress => TurnStatusKind::Completed,
    };
    TurnStatus { kind, message: None }
}

/// The tokens that the app-server's counts stand for. Tokens from the cache and of reasoning are
/// counted among those read and written.
pub fn breakdown_to_usage(counts: TokenUsageBreakdown) -> (usage: TokenUsage)
    ensures
        usage == usage_of(counts),
{
    TokenUsage {
        input: count(counts.input_tokens),
        output: count(counts.output_tokens),
        total: count(counts.total_tokens),
    }
}

fn count(n: i64) -> (counted: u64)
    ensures
        counted == crate::mapper_model::count_of(n),
{
    if n > 0 {
        n as u64
    } else {
        0
    }
}

fn plan_text(explanation: &Option<String>, plan: &Vec<PlanStep>) -> (lines: Vec<String>)
    ensures
        views(lines@) == plan_lines(*explanation, plan@),
{
    let mut lines: Vec<String> = Vec::new();
    match explanation {
        Some(text) => {
            if !blank(text.as_str()) {
                lines.push(text.clone());
            }
        },
        None => {},
    }
    let ghost head = views(lines@);
    proof {
        assert(head =~= plan_lines(*explanation, Seq::empty()));
    }
    let mut i: usize = 0;
    while i < plan.len()
        invariant
            i <= plan@.len(),
            head == plan_lines(*explanation, Seq::empty()),
            views(lines@) == plan_lines(*explanation, plan@.take(i as int)),
        decreases plan@.len() - i,
    {
        let ghost before = lines@;
        lines.push(concat3(enum_string(&plan[i].status).as_str(), ": ", plan[i].step.as_str()));
        proof {
            assert(views(lines@) =~= views(before).push(lines@.last()@));
            assert(plan@.take(i + 1) =~= plan@.take(i as int).push(plan@[i as int]));
            assert(views(lines@) =~= plan_lines(*explanation, plan@.take(i + 1)));
        }
        i = i + 1;
    }
    proof {
        assert(plan@.take(plan@.len() as int) =~= plan@);
    }
    lines
}

fn advice_text(summary: &String, details: &Option<String>) -> (text: String)
    ensures
        text@ == advice(*summary, *details),
{
    match details {
        Some(more) => concat3(summary.as_str(), ": ", more.as_str()),
        None => summary.clone(),
    }
}

fn usual_decisions() -> (answers: Vec<ApprovalDecision>)
    ensures
        answers@ == usual_answers(),
{
    let mut answers: Vec<ApprovalDecision> = Vec::new();
    answers.push(ApprovalDecision::Accept);
    answers.push(ApprovalDecision::AcceptForSession);
    answers.push(ApprovalDecision::Decline);
    answers.push(ApprovalDecision::Cancel);
    answers
}

fn or_empty(text: &Option<String>) -> (chars: String)
    ensures
        chars@ == opt_or_empty(*text),
{
    match text {
        Some(t) => t.clone(),
        None => String::new(),
    }
}

/// What a request is called.
pub fn request_method(request: &ServerRequest) -> (method: String)
    ensures
        method@ == method_of(*request),
{
    match request {
        ServerRequest::CmdExecApproval(_) => "item/commandExecution/requestApproval".to_owned(),
        ServerRequest::FileChangeApproval(_) => "item/fileChange/requestApproval".to_owned(),
        ServerRequest::PermissionsRequestApproval(_) => {
            "item/permissions/requestApproval".to_owned()
        },
        ServerRequest::ExecCommandApproval(_) => "execCommandApproval".to_owned(),
        ServerRequest::ApplyPatchApproval(_) => "applyPatchApproval".to_owned(),
        ServerRequest::ToolRequestUserInput(_) => "item/tool/requestUserInput".to_owned(),
        ServerRequest::ItemToolCall(_) => "item/tool/call".to_owned(),
        ServerRequest::McpServerElicitationRequest(_) => "mcpServer/elicitation/request".to_owned(),
        ServerRequest::ChatgptAuthTokensRefresh(_) => {
            "account/chatgptAuthTokens/refresh".to_owned()
        },
        ServerRequest::AttestationGenerate(_) => "attestation/generate".to_owned(),
        ServerRequest::Unknown { method, .. } => method.clone(),
    }
}

/// All that a request asks which is no request for approval; `null` where nothing came with it.
pub fn server_request_params(request: &ServerRequest) -> (params: Json)
    ensures
        params@ == params_of(*request),
{
    match request {
        ServerRequest::ToolRequestUserInput(p) => p.params.copy(),
        ServerRequest::ItemToolCall(p) => p.params.copy(),
        ServerRequest::McpServerElicitationRequest(params) => params.copy(),
        ServerRequest::ChatgptAuthTokensRefresh(params) => params.copy(),
        ServerRequest::AttestationGenerate(params) => params.copy(),
        ServerRequest::Unknown { params, .. } => match params {
            Some(params) => params.copy(),
            None => Json::Null,
        },
        _ => Json::Null,
    }
}

fn approval_request(
    id: String,
    kind: ApprovalKind,
    reason: &Option<String>,
    metadata: Vec<ApprovalMetadata>,
) -> (request: ApprovalRequest)
    ensures
        request.id == id,
        request.kind == kind,
        request.reason == *reason,
        request.metadata == metadata,
        request.available@ == usual_answers(),
{
    ApprovalRequest {
        id,
        kind,
        reason: copy_text(reason),
        metadata,
        available: usual_decisions(),
    }
}

/// What is put into the answer to a request for approval.
pub open spec fn answer_of(kind: PendingKind, decision: ApprovalDecision) -> BodyView {
    match kind {
        PendingKind::Decision => BodyView::Result(decision_tree(decision)),
        PendingKind::Permissions(permissions) => permissions_body(decision, permissions),
        PendingKind::LegacyReviewDecision => BodyView::Result(legacy_tree(decision)),
    }
}

impl CodexMapper {
    fn await_approval(
        &mut self,
        id: &RequestId,
        kind: PendingApprovalResponseKind,
        thread: ThreadId,
        turn: TurnId,
    )
        requires
            old(self).wf(),
        ensures
            final(self).wf(),
            final(self).root() == old(self).root(),
            final(self)@ == (MapperView {
                approvals: old(self)@.approvals.insert(
                    id.chars(),
                    (PendingApprovalResponse { request_id: *id, kind, thread, turn })@,
                ),
                ..old(self)@
            }),
    {
        self.pending_approval_responses.insert(
            request_id_to_string(id),
            PendingApprovalResponse { request_id: id.copy(), kind, thread, turn },
        );
    }

    /// The thread that a request in the older form belongs to, and the name of the turn that goes on
    /// there, which is empty where none does.
    fn older_place_of(&self, conversation_id: &Json, fallback: ThreadId) -> (place: (
        ThreadId,
        String,
    ))
        requires
            self.wf(),
        ensures
            (place.0, place.1@) == self@.older_place(conversation_id@, fallback),
    {
        let native = match conversation_id.as_str() {
            Some(text) => text.to_owned(),
            None => String::new(),
        };
        let thread = self.resolve_thread(&native, fallback);
        let active = match self.active_turns.get(&thread) {
            Some(turn) => turn.clone(),
            None => String::new(),
        };
        (thread, active)
    }

    /// The thread of a request that is no request for approval, and its turn.
    pub fn server_request_scope(
        &mut self,
        request: &ServerRequest,
        fallback: ThreadId,
        fresh: TurnId,
    ) -> (scope: (ThreadId, Option<TurnId>))
        requires
            old(self).wf(),
        ensures
            final(self).wf(),
            final(self).root() == old(self).root(),
            scope.0 == old(self)@.scope_of(*request, fallback).0,
            scope.1 == old(self)@.scope_turn(old(self)@.scope_of(*request, fallback).1, fresh),
            final(self)@ == old(self)@.with_turn(
                old(self)@.scope_of(*request, fallback).1,
                fresh,
            ),
    {
        match request {
            ServerRequest::ToolRequestUserInput(p) => {
                let thread = self.resolve_thread(&p.thread_id, fallback);
                if p.turn_id.as_str().is_empty() {
                    (thread, None)
                } else {
                    (thread, Some(self.resolve_turn(&p.turn_id, fresh)))
                }
            },
            ServerRequest::ItemToolCall(p) => {
                let thread = self.resolve_thread(&p.thread_id, fallback);
                if p.turn_id.as_str().is_empty() {
                    (thread, None)
                } else {
                    (thread, Some(self.resolve_turn(&p.turn_id, fresh)))
                }
            },
            _ => (fallback, None),
        }
    }

    /// What a request asks. It does not wait for its answer yet.
    pub fn prepare_server_request(
        &self,
        id: &RequestId,
        request: &ServerRequest,
        fallback: ThreadId,
        fresh: TurnId,
        now_ms: i64,
    ) -> (event: AgentEvent)
        requires
            self.wf(),
        ensures
            self@.asks(*id, *request, fallback, fresh, now_ms, event),
            asks_where_named(self@.threads, *request, fallback, event),
    {
        let name = request_id_to_string(id);
        match request {
            ServerRequest::CmdExecApproval(params) => {
                let kind = ApprovalKind::CommandExecution {
                    command: command_approval_preview(params),
                    cwd: or_empty(&params.cwd),
                };
                let metadata = command_approval_metadata(params);
                AgentEvent::ApprovalRequested {
                    thread: self.resolve_thread(&params.thread_id, fallback),
                    turn: self.known_turn(&params.turn_id, fresh),
                    request: approval_request(name, kind, &params.reason, metadata),
                }
            },
            ServerRequest::FileChangeApproval(params) => {
                let kind = ApprovalKind::FileChange {
                    path: or_empty(&params.grant_root),
                    change: FileChangeKind::Modified,
                };
                let metadata = file_change_approval_metadata(params);
                AgentEvent::ApprovalRequested {
                    thread: self.resolve_thread(&params.thread_id, fallback),
                    turn: self.known_turn(&params.turn_id, fresh),
                    request: approval_request(name, kind, &params.reason, metadata),
                }
            },
            ServerRequest::PermissionsRequestApproval(params) => {
                let kind = ApprovalKind::Permission {
                    detail: format_permissions_detail(&params.permissions),
                };
                let metadata = permissions_approval_metadata(params);
                AgentEvent::ApprovalRequested {
                    thread: self.resolve_thread(&params.thread_id, fallback),
                    turn: self.known_turn(&params.turn_id, fresh),
                    request: approval_request(name, kind, &params.reason, metadata),
                }
            },
            ServerRequest::ExecCommandApproval(params) => {
                let (thread, active) = self.older_place_of(&params.conversation_id, fallback);
                let kind = ApprovalKind::CommandExecution {
                    command: legacy_command_preview(&params.command),
                    cwd: params.cwd.clone(),
                };
                let metadata = legacy_exec_approval_metadata(params);
                AgentEvent::ApprovalRequested {
                    thread,
                    turn: self.known_turn(&active, fresh),
                    request: approval_request(name, kind, &params.reason, metadata),
                }
            },
            ServerRequest::ApplyPatchApproval(params) => {
                let (thread, active) = self.older_place_of(&params.conversation_id, fallback);
                let kind = ApprovalKind::FileChange {
                    path: legacy_patch_preview_path(params),
                    change: FileChangeKind::Modified,
                };
                let metadata = legacy_patch_approval_metadata(params);
                AgentEvent::ApprovalRequested {
                    thread,
                    turn: self.known_turn(&active, fresh),
                    request: approval_request(name, kind, &params.reason, metadata),
                }
            },
            _ => {
                let (thread, native) = match request {
                    ServerRequest::ToolRequestUserInput(p) => (
                        self.resolve_thread(&p.thread_id, fallback),
                        p.turn_id.clone(),
                    ),
                    ServerRequest::ItemToolCall(p) => (
                        self.resolve_thread(&p.thread_id, fallback),
                        p.turn_id.clone(),
                    ),
                    _ => (fallback, String::new()),
                };
                let turn = if native.as_str().is_empty() {
                    None
                } else {
                    Some(self.known_turn(&native, fresh))
                };
                AgentEvent::ServerRequestReceived {
                    thread,
                    turn,
                    request: ServerRequestEvent {
                        id: name,
                        method: request_method(request),
                        params: server_request_params(request),
                        received_at_ms: now_ms,
                    },
                }
            },
        }
    }

    /// A request reached its thread: it waits for its answer from now on.
    pub fn commit_server_request(
        &mut self,
        id: &RequestId,
        request: &ServerRequest,
        fallback: ThreadId,
        fresh: TurnId,
    )
        requires
            old(self).wf(),
        ensures
            final(self).wf(),
            final(self).root() == old(self).root(),
            final(self)@ == old(self)@.requested(*id, *request, fallback, fresh),
    {
        let (thread, native, kind) = match request {
            ServerRequest::CmdExecApproval(params) => (
                self.resolve_thread(&params.thread_id, fallback),
                params.turn_id.clone(),
                PendingApprovalResponseKind::Decision,
            ),
            ServerRequest::FileChangeApproval(params) => (
                self.resolve_thread(&params.thread_id, fallback),
                params.turn_id.clone(),
                PendingApprovalResponseKind::Decision,
            ),
            ServerRequest::PermissionsRequestApproval(params) => (
                self.resolve_thread(&params.thread_id, fallback),
                params.turn_id.clone(),
                PendingApprovalResponseKind::Permissions { permissions: params.permissions.copy() },
            ),
            ServerRequest::ExecCommandApproval(params) => {
                let (thread, active) = self.older_place_of(&params.conversation_id, fallback);
                (thread, active, PendingApprovalResponseKind::LegacyReviewDecision)
            },
            ServerRequest::ApplyPatchApproval(params) => {
                let (thread, active) = self.older_place_of(&params.conversation_id, fallback);
                (thread, active, PendingApprovalResponseKind::LegacyReviewDecision)
            },
            _ => {
                let (thread, turn) = self.server_request_scope(request, fallback, fresh);
                self.pending_server_requests.insert(
                    request_id_to_string(id),
                    PendingServerRequest { request_id: id.copy(), thread, turn },
                );
                return;
            },
        };
        let turn = self.resolve_turn(&native, fresh);
        self.await_approval(id, kind, thread, turn);
    }

    /// What a request asks. It waits for its answer from now on.
    pub fn map_server_request(
        &mut self,
        id: &RequestId,
        request: &ServerRequest,
        fallback: ThreadId,
        fresh: TurnId,
        now_ms: i64,
    ) -> (event: AgentEvent)
        requires
            old(self).wf(),
        ensures
            final(self).wf(),
            final(self).root() == old(self).root(),
            final(self)@ == old(self)@.requested(*id, *request, fallback, fresh),
            old(self)@.asks(*id, *request, fallback, fresh, now_ms, event),
            asks_where_named(old(self)@.threads, *request, fallback, event),
    {
        let event = self.prepare_server_request(id, request, fallback, fresh, now_ms);
        self.commit_server_request(id, request, fallback, fresh);
        event
    }

    /// The answer to a request for approval, which waits no longer.
    pub fn map_approval_response(&mut self, id: &String, decision: &ApprovalDecision) -> (answer:
        Result<ApprovalResponse, String>)
        requires
            old(self).wf(),
        ensures
            final(self).wf(),
            final(self).root() == old(self).root(),
            final(self)@ == (MapperView {
                approvals: old(self)@.approvals.remove(id@),
                ..old(self)@
            }),
            answer is Ok <==> old(self)@.approvals.contains_key(id@),
            answer matches Ok(response) ==> response.id() == old(self)@.approvals[id@].request_id
                && response.body() == answer_of(old(self)@.approvals[id@].kind, *decision),
            answer matches Err(message) ==> message@ == "no pending approval for id "@ + id@,
    {
        match self.pending_approval_responses.remove(id) {
            Some(pending) => Ok(pending.answered(decision)),
            None => Err(concat("no pending approval for id ", id.as_str())),
        }
    }

    /// A request that waits for its answer and is no request for approval.
    pub fn pending_server_request(&self, id: &String) -> (pending: Result<
        PendingServerRequest,
        String,
    >)
        requires
            self.wf(),
        ensures
            pending is Ok <==> self@.requests.contains_key(id@),
            pending matches Ok(request) ==> request == self@.requests[id@],
            pending matches Err(message) ==> message@ == "no pending server request for id "@ + id@,
    {
        match self.pending_server_requests.get(id) {
            Some(pending) => Ok(pending.copy()),
            None => Err(concat("no pending server request for id ", id.as_str())),
        }
    }

    /// A request was answered, and waits no longer.
    pub fn resolve_server_request(&mut self, id: &String)
        requires
            old(self).wf(),
        ensures
            final(self).wf(),
            final(self).root() == old(self).root(),
            final(self)@ == (MapperView {
                requests: old(self)@.requests.remove(id@),
                ..old(self)@
            }),
    {
        self.pending_server_requests.remove(id);
    }

    /// The thread of a name, where it is known.
    pub fn thread_for_native(&self, native: &String) -> (thread: Option<ThreadId>)
        requires
            self.wf(),
        ensures
            thread == (if self@.threads.contains_key(native@) {
                Some(self@.threads[native@])
            } else {
                None
            }),
    {
        match self.thread_ids.get(native) {
            Some(thread) => Some(*thread),
            None => None,
        }
    }

    /// A turn goes on in a thread. Gives the turn, unless its name is empty.
    pub fn register_active_turn(&mut self, thread: ThreadId, native: &String, fresh: TurnId) -> (turn:
        Option<TurnId>)
        requires
            old(self).wf(),
        ensures
            final(self).wf(),
            final(self).root() == old(self).root(),
            turn == (if native@.len() > 0 {
                Some(old(self)@.turn(native@, fresh))
            } else {
                None
            }),
            final(self)@ == (if native@.len() > 0 {
                old(self)@.started(thread, native@).with_turn(native@, fresh)
            } else {
                old(self)@
            }),
    {
        if native.as_str().is_empty() {
            return None;
        }
        self.active_turns.insert(thread, native.clone());
        Some(self.resolve_turn(native, fresh))
    }

    /// No turn goes on in a thread.
    pub fn clear_active_turn(&mut self, thread: ThreadId)
        requires
            old(self).wf(),
        ensures
            final(self).wf(),
            final(self).root() == old(self).root(),
            final(self)@ == old(self)@.cleared(thread),
    {
        self.active_turns.remove(&thread);
    }

    /// Forgets all that goes on in a thread, with the requests of it that wait for an answer.
    pub fn retire_thread(&mut self, thread: ThreadId)
        requires
            old(self).wf(),
        ensures
            final(self).wf(),
            final(self).root() == old(self).root(),
            final(self)@ == old(self)@.retired(thread),
    {
        self.active_turns.remove(&thread);
        self.running_command_turns.remove_thread(thread);
        self.running_commands.remove_thread(thread);
        self.pending_approval_responses.remove_thread(thread);
        self.pending_server_requests.remove_thread(thread);
        proof {
            assert(self@ =~= old(self)@.retired(thread));
        }
    }

    /// The names of the requests for approval of a thread that wait for an answer.
    pub fn pending_approval_ids_for_thread(&self, thread: ThreadId) -> (ids: Vec<String>)
        requires
            self.wf(),
        ensures
            views(ids@).no_duplicates(),
            views(ids@).to_set() == self@.approvals_of(thread),
    {
        let ids = self.pending_approval_responses.keys_of_thread(thread);
        proof {
            assert(views(ids@).to_set() =~= self@.approvals_of(thread));
        }
        ids
    }

    /// The names of the other requests of a thread that wait for an answer.
    pub fn pending_server_request_ids_for_thread(&self, thread: ThreadId) -> (ids: Vec<String>)
        requires
            self.wf(),
        ensures
            views(ids@).no_duplicates(),
            views(ids@).to_set() == self@.requests_of(thread),
    {
        let ids = self.pending_server_requests.keys_of_thread(thread);
        proof {
            assert(views(ids@).to_set() =~= self@.requests_of(thread));
        }
        ids
    }

    /// An answer to a request for approval that is to be written. The request waits no longer,
    /// unless it is put back.
    pub fn prepare_approval_response(&mut self, id: &String, decision: &ApprovalDecision) -> (attempt:
        Result<ApprovalResponseAttempt, String>)
        requires
            old(self).wf(),
        ensures
            final(self).wf(),
            final(self).root() == old(self).root(),
            final(self)@ == (MapperView {
                approvals: old(self)@.approvals.remove(id@),
                ..old(self)@
            }),
            attempt is Ok <==> old(self)@.approvals.contains_key(id@),
            attempt matches Ok(a) ==> {
                &&& a.response.id() == old(self)@.approvals[id@].request_id
                &&& a.response.body() == answer_of(old(self)@.approvals[id@].kind, *decision)
                &&& a.token.name() == id@
                &&& a.token.pending() == old(self)@.approvals[id@]
                &&& a.thread == old(self)@.approvals[id@].thread
                &&& a.turn == old(self)@.approvals[id@].turn
            },
            attempt matches Err(message) ==> message@ == "no pending approval for id "@ + id@,
    {
        match self.pending_approval_responses.remove(id) {
            Some(pending) => {
                let token = ApprovalResponseToken { id: id.clone(), pending: pending.copy() };
                let thread = pending.thread;
                let turn = pending.turn;
                Ok(
                    ApprovalResponseAttempt {
                        response: pending.answered(decision),
                        token,
                        thread,
                        turn,
                    },
                )
            },
            None => Err(concat("no pending approval for id ", id.as_str())),
        }
    }

    /// Puts a request for approval back whose answer could not be written: it waits again.
    pub fn rollback_approval_response(&mut self, token: ApprovalResponseToken)
        requires
            old(self).wf(),
        ensures
            final(self).wf(),
            final(self).root() == old(self).root(),
            final(self)@ == (MapperView {
                approvals: old(self)@.approvals.insert(token.name(), token.pending()),
                ..old(self)@
            }),
    {
        self.pending_approval_responses.insert(token.id, token.pending);
    }

    /// A request that is to be answered. It waits no longer, unless it is put back.
    pub fn prepare_server_request_response(&mut self, id: &String) -> (pending: Result<
        PendingServerRequest,
        String,
    >)
        requires
            old(self).wf(),
        ensures
            final(self).wf(),
            final(self).root() == old(self).root(),
            final(self)@ == (MapperView {
                requests: old(self)@.requests.remove(id@),
                ..old(self)@
            }),
            pending is Ok <==> old(self)@.requests.contains_key(id@),
            pending matches Ok(request) ==> request == old(self)@.requests[id@],
            pending matches Err(message) ==> message@ == "no pending server request for id "@ + id@,
    {
        match self.pending_server_requests.remove(id) {
            Some(pending) => Ok(pending),
            None => Err(concat("no pending server request for id ", id.as_str())),
        }
    }

    /// Puts a request back whose answer could not be written: it waits again.
    pub fn rollback_server_request_response(&mut self, id: &String, pending: PendingServerRequest)
        requires
            old(self).wf(),
        ensures
            final(self).wf(),
            final(self).root() == old(self).root(),
            final(self)@ == (MapperView {
                requests: old(self)@.requests.insert(id@, pending),
                ..old(self)@
            }),
    {
        self.pending_server_requests.insert(id.clone(), pending);
    }
}

} // verus!
