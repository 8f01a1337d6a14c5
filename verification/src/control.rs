//! What callers ask of an app-server besides turns, step by step.

use vstd::prelude::*;

use crate::approval::{ApprovalResponse, ApprovalResponseBody, BodyView};
use crate::background::{BackgroundState, StateView};
use crate::error::{outcome, ErrorView, HarnessError};
use crate::event::{AgentEvent, ApprovalDecision};
use crate::handle::ThreadHandle;
use crate::ids::{RequestId, ThreadId};
use crate::json::{Json, JsonTree};
use crate::mapper::{answer_of, ApprovalResponseAttempt, ApprovalResponseToken};
use crate::mapper_model::{MapperView, PendingServerRequest, PendingView};
use crate::native_routes::{NativeRoutes, RoutesView};
use crate::number::{parses_as_i32, reads_as_i32};
use crate::requests::{
    archive_call, compact_call, config_call, config_request, delete_call, exec_call, exec_request,
    interrupt_call, interrupt_request, login_call, login_request, name_call, name_request,
    reload_call, servers_call, servers_request, terminal_call, terminal_request, thread_call, Call,
    CallView,
};
use crate::text::{same_text, strip_prefix, views};
use crate::turns::PendingCompaction;

verus! {

/// An answer to a request of the app-server that is no request for approval.
#[derive(Debug)]
#[allow(inconsistent_fields)]
pub enum ServerRequestResponse {
    /// The answer.
    Result {
        /// What is answered.
        value: Json,
    },
    /// The refusal to answer.
    Error {
        /// The JSON-RPC error code.
        code: i64,
        /// Why.
        message: String,
    },
}

impl ServerRequestResponse {
    /// What is put into the answer.
    pub open spec fn body(self) -> BodyView {
        match self {
            ServerRequestResponse::Result { value } => BodyView::Result(value@),
            ServerRequestResponse::Error { code, message } => BodyView::Error {
                code: code as int,
                message: message@,
            },
        }
    }

    fn answer(self, request_id: RequestId) -> (response: ApprovalResponse)
        ensures
            response.id() == request_id,
            response.body() == self.body(),
    {
        match self {
            ServerRequestResponse::Result { value } => ApprovalResponse::from_parts(
                request_id,
                ApprovalResponseBody::Result(value),
            ),
            ServerRequestResponse::Error { code, message } => ApprovalResponse::from_parts(
                request_id,
                ApprovalResponseBody::Error { code, message },
            ),
        }
    }
}

/// What a caller asks.
#[derive(Debug)]
#[allow(inconsistent_fields)]
pub enum ControlCommand {
    /// To have a thread of the app-server as a thread of this side.
    ClaimNativeThread {
        /// The thread on this side.
        thread: ThreadId,
        /// The thread's name at the app-server.
        harness_thread_id: String,
        /// The root of the workspace that the thread works in.
        workspace_root: String,
    },
    /// To answer a request for approval.
    RespondApproval {
        /// The request.
        id: String,
        /// The answer.
        decision: ApprovalDecision,
    },
    /// To answer another request.
    RespondServerRequest {
        /// The request.
        id: String,
        /// The answer.
        response_payload: ServerRequestResponse,
    },
    /// To interrupt the turn of a thread.
    Interrupt {
        /// The thread.
        thread: ThreadHandle,
    },
    /// To end a command.
    TerminateCommand {
        /// The thread.
        thread: ThreadHandle,
        /// The process of the command.
        process_id: String,
    },
    /// To make a thread's context shorter.
    CompactThread {
        /// The thread.
        thread: ThreadHandle,
    },
    /// To name a thread.
    SetThreadName {
        /// The thread.
        thread: ThreadHandle,
        /// The name.
        name: String,
    },
    /// To put a thread away or to bring it back.
    SetThreadArchived {
        /// The thread.
        thread: ThreadHandle,
        /// Whether it is put away.
        archived: bool,
    },
    /// To delete a thread.
    DeleteThread {
        /// The thread.
        thread: ThreadHandle,
    },
    /// To list the MCP servers.
    ListMcpServers,
    /// To read the configuration of the MCP servers again.
    ReloadMcpServers,
    /// To log in to an MCP server.
    StartMcpOauthLogin {
        /// The server.
        name: String,
    },
    /// To list the providers of models.
    ListProviders {
        /// The directory whose configuration holds.
        cwd: String,
    },
    /// To list the models.
    ListModels {
        /// The directory whose configuration holds.
        cwd: String,
    },
}

/// The thread that a caller asks about, where it is one.
pub open spec fn asked_thread(command: ControlCommand) -> Option<ThreadId> {
    match command {
        ControlCommand::ClaimNativeThread { thread, .. } => Some(thread),
        ControlCommand::Interrupt { thread } => Some(thread.thread),
        ControlCommand::TerminateCommand { thread, .. } => Some(thread.thread),
        ControlCommand::CompactThread { thread } => Some(thread.thread),
        ControlCommand::SetThreadName { thread, .. } => Some(thread.thread),
        ControlCommand::SetThreadArchived { thread, .. } => Some(thread.thread),
        ControlCommand::DeleteThread { thread } => Some(thread.thread),
        _ => None,
    }
}

/// Whether what a caller asks must not wait behind other work: an answer that the app-server waits
/// for, and a wish to stop something.
pub open spec fn is_urgent(command: ControlCommand) -> bool {
    command is RespondApproval || command is RespondServerRequest || command is Interrupt
        || command is TerminateCommand
}

impl ControlCommand {
    /// The thread that is asked about, where it is one.
    pub fn thread_id(&self) -> (thread: Option<ThreadId>)
        ensures
            thread == asked_thread(*self),
    {
        match self {
            ControlCommand::ClaimNativeThread { thread, .. } => Some(*thread),
            ControlCommand::Interrupt { thread } => Some(thread.thread),
            ControlCommand::TerminateCommand { thread, .. } => Some(thread.thread),
            ControlCommand::CompactThread { thread } => Some(thread.thread),
            ControlCommand::SetThreadName { thread, .. } => Some(thread.thread),
            ControlCommand::SetThreadArchived { thread, .. } => Some(thread.thread),
            ControlCommand::DeleteThread { thread } => Some(thread.thread),
            _ => None,
        }
    }

    /// Whether this must not wait behind other work.
    pub fn urgent(&self) -> (found: bool)
        ensures
            found == is_urgent(*self),
    {
        match self {
            ControlCommand::RespondApproval { .. } => true,
            ControlCommand::RespondServerRequest { .. } => true,
            ControlCommand::Interrupt { .. } => true,
            ControlCommand::TerminateCommand { .. } => true,
            _ => false,
        }
    }
}

/// A request of the app-server that is being answered.
#[derive(Debug)]
pub struct RequestAttempt {
    /// The request, by the name under which it is answered.
    pub id: String,
    /// The request.
    pub pending: PendingServerRequest,
    /// The answer.
    pub response: ApprovalResponse,
}

/// What is done next about what a caller asked.
pub enum ControlStep {
    /// The caller is answered.
    Reply(Result<Option<ThreadHandle>, HarnessError>),
    /// The caller is answered with a failure, after which nothing more is done.
    Stop(HarnessError),
    /// The app-server is asked.
    Ask(Call),
    /// A request for approval is answered.
    AnswerApproval(ApprovalResponseAttempt),
    /// Another request is answered.
    AnswerRequest(RequestAttempt),
}

/// What is done next about what a caller asked.
#[allow(inconsistent_fields)]
pub enum StepView {
    /// The caller is answered.
    Reply(Result<Option<ThreadHandle>, ErrorView>),
    /// The caller is answered with a failure, after which nothing more is done.
    Stop(ErrorView),
    /// The app-server is asked.
    Ask(CallView),
    /// A request for approval is answered.
    AnswerApproval {
        /// The name under which it is answered.
        name: Seq<char>,
        /// The request.
        pending: PendingView,
        /// What is put into the answer.
        body: BodyView,
    },
    /// Another request is answered.
    AnswerRequest {
        /// The name under which it is answered.
        name: Seq<char>,
        /// The request.
        pending: PendingServerRequest,
        /// What is put into the answer.
        body: BodyView,
    },
}

impl ControlStep {
    /// Whether the answer of a step goes to the request that it answers.
    pub open spec fn wf(self) -> bool {
        match self {
            ControlStep::AnswerApproval(attempt) => {
                &&& attempt.response.id() == attempt.token.pending().request_id
                &&& attempt.thread == attempt.token.pending().thread
                &&& attempt.turn == attempt.token.pending().turn
            },
            ControlStep::AnswerRequest(attempt) => attempt.response.id()
                == attempt.pending.request_id,
            _ => true,
        }
    }
}

impl View for ControlStep {
    type V = StepView;

    open spec fn view(&self) -> StepView {
        match *self {
            ControlStep::Reply(result) => StepView::Reply(outcome(result)),
            ControlStep::Stop(error) => StepView::Stop(error@),
            ControlStep::Ask(call) => StepView::Ask(call@),
            ControlStep::AnswerApproval(attempt) => StepView::AnswerApproval {
                name: attempt.token.name(),
                pending: attempt.token.pending(),
                body: attempt.response.body(),
            },
            ControlStep::AnswerRequest(attempt) => StepView::AnswerRequest {
                name: attempt.id@,
                pending: attempt.pending,
                body: attempt.response.body(),
            },
        }
    }
}

/// A failure of something that cannot be done while a turn goes on.
pub open spec fn busy(what: Seq<char>) -> StepView {
    StepView::Reply(Err(ErrorView::Unsupported(what)))
}

/// A failure of something that was handed to the wrong place.
pub open spec fn misplaced(what: Seq<char>) -> StepView {
    StepView::Reply(Err(ErrorView::Protocol(what)))
}

/// What is known after a thread of the app-server was claimed, and what is done next: the caller
/// has the thread of the route, with the thread that it was started from.
pub open spec fn claimed(
    state: StateView,
    routes: RoutesView,
    thread: ThreadId,
    native: String,
    root: String,
    parent: Option<String>,
) -> (StateView, RoutesView, StepView) {
    let (after, route) = routes.claim(native@, thread);
    match route {
        Ok(r) => (
            state.bound(native@, route),
            after,
            StepView::Reply(
                Ok(
                    Some(
                        ThreadHandle {
                            thread: r.thread,
                            harness_thread_id: native,
                            workspace_root: root,
                            warning: None,
                            resumed_model: None,
                            agent_name: None,
                            parent_harness_thread_id: parent,
                        },
                    ),
                ),
            ),
        ),
        Err(error) => (state, after, StepView::Stop(error)),
    }
}

/// What is known after a request for approval is being answered, and what is done next.
pub open spec fn approving(state: StateView, id: Seq<char>, decision: ApprovalDecision) -> (
    StateView,
    StepView,
) {
    let next = StateView {
        mapper: MapperView { approvals: state.mapper.approvals.remove(id), ..state.mapper },
        ..state
    };
    if state.mapper.approvals.contains_key(id) {
        let pending = state.mapper.approvals[id];
        (
            next,
            StepView::AnswerApproval {
                name: id,
                pending,
                body: answer_of(pending.kind, decision),
            },
        )
    } else {
        (next, misplaced("no pending approval for id "@ + id))
    }
}

/// What is known after another request is being answered, and what is done next.
pub open spec fn answering(state: StateView, id: Seq<char>, payload: ServerRequestResponse) -> (
    StateView,
    StepView,
) {
    let next = StateView {
        mapper: MapperView { requests: state.mapper.requests.remove(id), ..state.mapper },
        ..state
    };
    if state.mapper.requests.contains_key(id) {
        (
            next,
            StepView::AnswerRequest {
                name: id,
                pending: state.mapper.requests[id],
                body: payload.body(),
            },
        )
    } else {
        (next, misplaced("no pending server request for id "@ + id))
    }
}

/// What is known after what a caller asked was taken up, and what is done next.
pub open spec fn begun(
    state: StateView,
    routes: RoutesView,
    command: ControlCommand,
    parent: Option<String>,
) -> (StateView, RoutesView, StepView) {
    match command {
        ControlCommand::ClaimNativeThread { thread, harness_thread_id, workspace_root } => claimed(
            state,
            routes,
            thread,
            harness_thread_id,
            workspace_root,
            parent,
        ),
        ControlCommand::RespondApproval { id, decision } => {
            let (next, step) = approving(state, id@, decision);
            (next, routes, step)
        },
        ControlCommand::RespondServerRequest { id, response_payload } => {
            let (next, step) = answering(state, id@, response_payload);
            (next, routes, step)
        },
        ControlCommand::Interrupt { .. } => (
            state,
            routes,
            misplaced("interrupt was routed to the non-urgent Codex control dispatcher"@),
        ),
        ControlCommand::TerminateCommand { .. } => (
            state,
            routes,
            misplaced(
                "command termination was routed to the non-urgent Codex control dispatcher"@,
            ),
        ),
        ControlCommand::CompactThread { thread } => (
            state,
            routes,
            if state.active.contains_key(thread.thread) {
                busy("context compaction is not available during an active turn"@)
            } else {
                StepView::Ask(thread_call("thread/compact/start"@, thread.harness_thread_id@))
            },
        ),
        ControlCommand::SetThreadName { thread, name } => (
            state,
            routes,
            StepView::Ask(name_request(thread.harness_thread_id@, name@)),
        ),
        ControlCommand::SetThreadArchived { thread, archived } => (
            state,
            routes,
            if state.active.contains_key(thread.thread) {
                busy("thread archiving is not available during an active turn"@)
            } else {
                StepView::Ask(
                    thread_call(
                        if archived {
                            "thread/archive"@
                        } else {
                            "thread/unarchive"@
                        },
                        thread.harness_thread_id@,
                    ),
                )
            },
        ),
        ControlCommand::DeleteThread { thread } => (
            state,
            routes,
            if state.active.contains_key(thread.thread) {
                busy("thread deletion is not available during an active turn"@)
            } else {
                StepView::Ask(thread_call("thread/delete"@, thread.harness_thread_id@))
            },
        ),
        ControlCommand::ListMcpServers => (state, routes, StepView::Ask(servers_request(None))),
        ControlCommand::ReloadMcpServers => (
            state,
            routes,
            StepView::Ask(
                CallView {
                    method: "config/mcpServer/reload"@,
                    params: JsonTree::Object(Seq::empty()),
                },
            ),
        ),
        ControlCommand::StartMcpOauthLogin { name } => (
            state,
            routes,
            StepView::Ask(login_request(name@)),
        ),
        ControlCommand::ListProviders { cwd } => (
            state,
            routes,
            StepView::Ask(config_request(cwd@)),
        ),
        ControlCommand::ListModels { cwd } => (state, routes, StepView::Ask(config_request(cwd@))),
    }
}

fn unsupported(what: &str) -> (step: ControlStep)
    ensures
        step@ == busy(what@),
        step.wf(),
{
    ControlStep::Reply(Err(HarnessError::Unsupported(what.to_owned())))
}

impl BackgroundState {
    /// Takes up what a caller asks, and gives what is done next. `parent` names the thread that a
    /// claimed thread was started from, as far as that is known.
    pub fn handle_control_command(
        &mut self,
        routes: &mut NativeRoutes,
        control: ControlCommand,
        parent: Option<String>,
    ) -> (step: ControlStep)
        requires
            old(self).wf(),
            old(routes).wf(),
        ensures
            final(self).wf(),
            final(routes).wf(),
            final(self).mapper.root() == old(self).mapper.root(),
            step.wf(),
            (final(self)@, final(routes)@, step@) == begun(
                old(self)@,
                old(routes)@,
                control,
                parent,
            ),
    {
        proof {
            assert(control is ClaimNativeThread || control is Interrupt || control
                is TerminateCommand || begun_urgently(self@, routes@, control, parent) == begun(
                self@,
                routes@,
                control,
                parent,
            ));
        }
        match control {
            ControlCommand::ClaimNativeThread { thread, harness_thread_id, workspace_root } => {
                match self.claim_mapped_route(routes, harness_thread_id.as_str(), thread) {
                    Ok(route) => {
                        let handle = ThreadHandle {
                            parent_harness_thread_id: parent,
                            ..ThreadHandle::opened(
                                route.thread_id,
                                harness_thread_id,
                                workspace_root,
                            )
                        };
                        ControlStep::Reply(Ok(Some(handle)))
                    },
                    Err(error) => ControlStep::Stop(error),
                }
            },
            ControlCommand::Interrupt { .. } => ControlStep::Reply(
                Err(
                    HarnessError::Protocol(
                        "interrupt was routed to the non-urgent Codex control dispatcher".to_owned(),
                    ),
                ),
            ),
            ControlCommand::TerminateCommand { .. } => ControlStep::Reply(
                Err(
                    HarnessError::Protocol(
                        "command termination was routed to the non-urgent Codex control dispatcher".to_owned(),
                    ),
                ),
            ),
            other => self.handle_unrouted_command(other),
        }
    }

    /// Takes up what a caller asks that claims no thread, and gives what is done next. It needs no
    /// routes.
    pub fn handle_unrouted_command(&mut self, control: ControlCommand) -> (step: ControlStep)
        requires
            old(self).wf(),
            !(control is ClaimNativeThread),
        ensures
            final(self).wf(),
            final(self).mapper.root() == old(self).mapper.root(),
            step.wf(),
            forall|routes: RoutesView, parent: Option<String>| #[trigger]
                begun_urgently(old(self)@, routes, control, parent) == (
                    final(self)@,
                    routes,
                    step@,
                ),
    {
        match control {
            ControlCommand::ClaimNativeThread { .. } => ControlStep::Reply(Ok(None)),
            ControlCommand::RespondApproval { id, decision } => self.begin_approval(&id, &decision),
            ControlCommand::RespondServerRequest { id, response_payload } => self.begin_answer(
                id,
                response_payload,
            ),
            ControlCommand::Interrupt { thread } => match self.mapper.active_native_turn_for_thread(
                thread.thread,
            ) {
                Some(turn) => ControlStep::Ask(
                    interrupt_call(thread.harness_thread_id.as_str(), turn),
                ),
                None => unsupported("no active Codex turn to interrupt"),
            },
            ControlCommand::TerminateCommand { thread, process_id } => ControlStep::Ask(
                termination_call(thread.harness_thread_id.as_str(), process_id.as_str()),
            ),
            ControlCommand::CompactThread { thread } => if self.active_turns.contains_key(
                &thread.thread,
            ) {
                unsupported("context compaction is not available during an active turn")
            } else {
                ControlStep::Ask(compact_call(thread.harness_thread_id.as_str()))
            },
            ControlCommand::SetThreadName { thread, name } => ControlStep::Ask(
                name_call(thread.harness_thread_id.as_str(), name.as_str()),
            ),
            ControlCommand::SetThreadArchived { thread, archived } => {
                if self.active_turns.contains_key(&thread.thread) {
                    unsupported("thread archiving is not available during an active turn")
                } else {
                    ControlStep::Ask(archive_call(thread.harness_thread_id.as_str(), archived))
                }
            },
            ControlCommand::DeleteThread { thread } => if self.active_turns.contains_key(
                &thread.thread,
            ) {
                unsupported("thread deletion is not available during an active turn")
            } else {
                ControlStep::Ask(delete_call(thread.harness_thread_id.as_str()))
            },
            ControlCommand::ListMcpServers => ControlStep::Ask(servers_call(&None)),
            ControlCommand::ReloadMcpServers => ControlStep::Ask(reload_call()),
            ControlCommand::StartMcpOauthLogin { name } => ControlStep::Ask(
                login_call(name.as_str()),
            ),
            ControlCommand::ListProviders { cwd } => ControlStep::Ask(config_call(cwd.as_str())),
            ControlCommand::ListModels { cwd } => ControlStep::Ask(config_call(cwd.as_str())),
        }
    }

    /// Takes a request for approval to answer it.
    pub fn begin_approval(&mut self, id: &String, decision: &ApprovalDecision) -> (step: ControlStep)
        requires
            old(self).wf(),
        ensures
            final(self).wf(),
            final(self).mapper.root() == old(self).mapper.root(),
            step.wf(),
            (final(self)@, step@) == approving(old(self)@, id@, *decision),
    {
        match self.mapper.prepare_approval_response(id, decision) {
            Ok(attempt) => ControlStep::AnswerApproval(attempt),
            Err(message) => ControlStep::Reply(Err(HarnessError::Protocol(message))),
        }
    }

    /// Takes another request to answer it.
    pub fn begin_answer(&mut self, id: String, payload: ServerRequestResponse) -> (step: ControlStep)
        requires
            old(self).wf(),
        ensures
            final(self).wf(),
            final(self).mapper.root() == old(self).mapper.root(),
            step.wf(),
            (final(self)@, step@) == answering(old(self)@, id@, payload),
    {
        match self.mapper.prepare_server_request_response(&id) {
            Ok(pending) => {
                let response = payload.answer(pending.request_id.copy());
                ControlStep::AnswerRequest(RequestAttempt { id, pending, response })
            },
            Err(message) => ControlStep::Reply(Err(HarnessError::Protocol(message))),
        }
    }

    /// The answer to a request for approval was written, or could not be: then the request waits
    /// again.
    pub fn settle_approval(
        &mut self,
        token: ApprovalResponseToken,
        written: Result<(), HarnessError>,
    ) -> (result: Result<(), HarnessError>)
        requires
            old(self).wf(),
        ensures
            final(self).wf(),
            final(self).mapper.root() == old(self).mapper.root(),
            result == written,
            final(self)@ == (if written is Ok {
                old(self)@
            } else {
                StateView {
                    mapper: MapperView {
                        approvals: old(self)@.mapper.approvals.insert(
                            token.name(),
                            token.pending(),
                        ),
                        ..old(self)@.mapper
                    },
                    ..old(self)@
                }
            }),
    {
        if written.is_err() {
            self.mapper.rollback_approval_response(token);
        }
        written
    }

    /// The answer to another request was written, and its thread is told so, or could not be: then
    /// the request waits again.
    pub fn settle_answer(&mut self, attempt: RequestAttempt, written: Result<(), HarnessError>) -> (result:
        Result<AgentEvent, HarnessError>)
        requires
            old(self).wf(),
        ensures
            final(self).wf(),
            final(self).mapper.root() == old(self).mapper.root(),
            match written {
                Ok(()) => {
                    &&& final(self)@ == old(self)@
                    &&& result == Ok::<AgentEvent, HarnessError>(
                        AgentEvent::ServerRequestResolved {
                            thread: attempt.pending.thread,
                            turn: attempt.pending.turn,
                            request_id: attempt.id,
                        },
                    )
                },
                Err(error) => {
                    &&& result == Err::<AgentEvent, HarnessError>(error)
                    &&& final(self)@ == (StateView {
                        mapper: MapperView {
                            requests: old(self)@.mapper.requests.insert(
                                attempt.id@,
                                attempt.pending,
                            ),
                            ..old(self)@.mapper
                        },
                        ..old(self)@
                    })
                },
            },
    {
        match written {
            Ok(()) => Ok(
                AgentEvent::ServerRequestResolved {
                    thread: attempt.pending.thread,
                    turn: attempt.pending.turn,
                    request_id: attempt.id,
                },
            ),
            Err(error) => {
                self.mapper.rollback_server_request_response(&attempt.id, attempt.pending);
                Err(error)
            },
        }
    }

    /// The app-server took up a compaction, which waits from when it was asked for.
    pub fn compaction_accepted(&mut self, thread: ThreadId, started_at: u64)
        requires
            old(self).wf(),
        ensures
            final(self).wf(),
            final(self).mapper.root() == old(self).mapper.root(),
            final(self)@ == (StateView {
                compactions: old(self)@.compactions.insert(
                    thread,
                    PendingCompaction { started_at, saw_turn_started: false },
                ),
                ..old(self)@
            }),
    {
        self.pending_compactions.insert(thread, PendingCompaction::new(started_at));
    }

    /// The app-server deleted a thread, or said that it does not have it: its route is forgotten. Or
    /// it could not.
    pub fn settle_delete(
        &mut self,
        routes: &mut NativeRoutes,
        thread: &ThreadHandle,
        result: Result<(), HarnessError>,
    ) -> (settled: Result<(), HarnessError>)
        requires
            old(self).wf(),
            old(routes).wf(),
        ensures
            final(self).wf(),
            final(routes).wf(),
            final(self).mapper.root() == old(self).mapper.root(),
            settled == deleted(result, thread.harness_thread_id@),
            settled is Ok ==> final(routes)@ == old(routes)@.without(thread.thread) && final(self)@
                == (StateView {
                restores: old(self)@.restores.remove(thread.harness_thread_id@),
                ..old(self)@
            }),
            settled is Err ==> final(routes)@ == old(routes)@ && final(self)@ == old(self)@,
    {
        let settled = delete_result(result, thread.harness_thread_id.as_str());
        if settled.is_ok() {
            routes.remove_native_route(thread.thread);
            self.pending_context_restores.remove(&thread.harness_thread_id);
        }
        settled
    }

    /// Takes up what a caller asks that must not wait: a wish to stop something, or else what any
    /// caller asks.
    pub fn handle_urgent_command(
        &mut self,
        routes: &mut NativeRoutes,
        control: ControlCommand,
        parent: Option<String>,
    ) -> (step: ControlStep)
        requires
            old(self).wf(),
            old(routes).wf(),
        ensures
            final(self).wf(),
            final(routes).wf(),
            final(self).mapper.root() == old(self).mapper.root(),
            step.wf(),
            (final(self)@, final(routes)@, step@) == begun_urgently(
                old(self)@,
                old(routes)@,
                control,
                parent,
            ),
    {
        match control {
            ControlCommand::ClaimNativeThread { .. } => self.handle_control_command(
                routes,
                control,
                parent,
            ),
            other => self.handle_unrouted_command(other),
        }
    }

    /// The requests of a thread that still wait when its turn was interrupted: those for approval,
    /// which are cancelled, and the others, which are refused.
    pub fn interrupted(&self, thread: ThreadId) -> (waiting: (Vec<String>, Vec<String>))
        requires
            self.wf(),
        ensures
            views(waiting.0@).no_duplicates(),
            views(waiting.0@).to_set() == self@.mapper.approvals_of(thread),
            views(waiting.1@).no_duplicates(),
            views(waiting.1@).to_set() == self@.mapper.requests_of(thread),
    {
        (
            self.mapper.pending_approval_ids_for_thread(thread),
            self.mapper.pending_server_request_ids_for_thread(thread),
        )
    }
}

/// What is known after what a caller asked was taken up that must not wait, and what is done next.
pub open spec fn begun_urgently(
    state: StateView,
    routes: RoutesView,
    command: ControlCommand,
    parent: Option<String>,
) -> (StateView, RoutesView, StepView) {
    match command {
        ControlCommand::Interrupt { thread } => (
            state,
            routes,
            if state.mapper.active.contains_key(thread.thread) {
                StepView::Ask(
                    interrupt_request(
                        thread.harness_thread_id@,
                        state.mapper.active[thread.thread],
                    ),
                )
            } else {
                busy("no active Codex turn to interrupt"@)
            },
        ),
        ControlCommand::TerminateCommand { thread, process_id } => (
            state,
            routes,
            StepView::Ask(termination_request(thread.harness_thread_id@, process_id@)),
        ),
        _ => begun(state, routes, command, parent),
    }
}

/// The answer to a request that waits when its turn is interrupted.
pub fn interrupted_answer() -> (response: ServerRequestResponse)
    ensures
        response.body() == (BodyView::Error {
            code: -32000,
            message: "Turn interrupted before this server request was answered."@,
        }),
{
    ServerRequestResponse::Error {
        code: -32000,
        message: "Turn interrupted before this server request was answered.".to_owned(),
    }
}

/// The answer to a request that belongs to no thread of this side.
pub fn unroutable_answer(id: &RequestId) -> (response: ApprovalResponse)
    ensures
        response.id() == *id,
        response.body() == (BodyView::Error {
            code: -32000,
            message: "Giskard cannot route this Codex server request to a known thread."@,
        }),
{
    ApprovalResponse::from_parts(
        id.copy(),
        ApprovalResponseBody::Error {
            code: -32000,
            message: "Giskard cannot route this Codex server request to a known thread.".to_owned(),
        },
    )
}

/// The first request to end a command: where its process is a number, it may run in a background
/// terminal.
pub open spec fn termination_request(thread: Seq<char>, process: Seq<char>) -> CallView {
    if reads_as_i32(process) {
        terminal_request(thread, process)
    } else {
        exec_request(process)
    }
}

/// The first request to end a command.
pub fn termination_call(thread: &str, process: &str) -> (call: Call)
    ensures
        call@ == termination_request(thread@, process@),
{
    if parses_as_i32(process) {
        terminal_call(thread, process)
    } else {
        exec_call(process)
    }
}

/// What is done after the app-server answered a request to end a command.
#[derive(Debug)]
pub enum TerminationStep {
    /// The caller is answered.
    Done(Result<(), HarnessError>),
    /// The app-server is asked in another way.
    Ask(Call),
}

/// What is done after the app-server answered the first request to end a command. Where the command
/// was looked for in a background terminal and did not end there, the app-server is asked to end it
/// as a command; else its answer stands.
pub fn complete_submitted_termination(process: &str, answer: Result<bool, HarnessError>) -> (step:
    TerminationStep)
    ensures
        match step {
            TerminationStep::Done(result) => {
                &&& result is Ok <==> answer is Ok
                &&& result matches Err(error) ==> answer == Err::<bool, HarnessError>(error)
                &&& !reads_as_i32(process@) || answer == Ok::<bool, HarnessError>(true)
            },
            TerminationStep::Ask(call) => {
                &&& call@ == exec_request(process@)
                &&& reads_as_i32(process@)
                &&& answer != Ok::<bool, HarnessError>(true)
            },
        },
{
    if !parses_as_i32(process) {
        return match answer {
            Ok(_) => TerminationStep::Done(Ok(())),
            Err(error) => TerminationStep::Done(Err(error)),
        };
    }
    match answer {
        Ok(ended) => if ended {
            TerminationStep::Done(Ok(()))
        } else {
            TerminationStep::Ask(exec_call(process))
        },
        Err(_) => TerminationStep::Ask(exec_call(process)),
    }
}

/// Whether a failure says that the app-server does not have a thread.
pub open spec fn says_missing(error: HarnessError, thread: Seq<char>) -> bool {
    match error {
        HarnessError::ProviderRejected { code, message } => code == -32600 && message@
            == "no rollout found for thread id "@ + thread,
        _ => false,
    }
}

/// Whether a failure says that the app-server does not have a thread. Nothing but the very words
/// about this very thread says so.
pub fn codex_reports_missing_rollout(error: &HarnessError, harness_thread_id: &str) -> (found: bool)
    ensures
        found == says_missing(*error, harness_thread_id@),
{
    match error {
        HarnessError::ProviderRejected { code, message } => {
            if *code != -32600 {
                return false;
            }
            match strip_prefix(message.as_str(), "no rollout found for thread id ") {
                Some(missing) => {
                    proof {
                        let prefix = "no rollout found for thread id "@;
                        assert(message@ =~= prefix + missing@);
                        assert((prefix + harness_thread_id@).skip(prefix.len() as int)
                            =~= harness_thread_id@);
                        assert((prefix + missing@).skip(prefix.len() as int) =~= missing@);
                    }
                    same_text(missing, harness_thread_id)
                },
                None => {
                    proof {
                        let prefix = "no rollout found for thread id "@;
                        assert((prefix + harness_thread_id@).take(prefix.len() as int) =~= prefix);
                    }
                    false
                },
            }
        },
        _ => false,
    }
}

/// What came of deleting a thread: a thread that is not there is deleted.
pub open spec fn deleted(result: Result<(), HarnessError>, thread: Seq<char>) -> Result<
    (),
    HarnessError,
> {
    match result {
        Ok(()) => Ok(()),
        Err(error) => if says_missing(error, thread) {
            Ok(())
        } else {
            Err(error)
        },
    }
}

/// What came of deleting a thread.
pub fn delete_result(result: Result<(), HarnessError>, harness_thread_id: &str) -> (settled: Result<
    (),
    HarnessError,
>)
    ensures
        settled == deleted(result, harness_thread_id@),
{
    match result {
        Ok(()) => Ok(()),
        Err(error) => if codex_reports_missing_rollout(&error, harness_thread_id) {
            Ok(())
        } else {
            Err(error)
        },
    }
}

/// An answer that could not be written leaves everything as it was before it was tried.
pub proof fn law_failed_answer_changes_nothing(
    state: StateView,
    id: Seq<char>,
    decision: ApprovalDecision,
    payload: ServerRequestResponse,
)
    ensures
        state.mapper.approvals.contains_key(id) ==> ({
            let (tried, step) = approving(state, id, decision);
            &&& step is AnswerApproval
            &&& (StateView {
                mapper: MapperView {
                    approvals: tried.mapper.approvals.insert(
                        step->AnswerApproval_name,
                        step->AnswerApproval_pending,
                    ),
                    ..tried.mapper
                },
                ..tried
            }) == state
        }),
        state.mapper.requests.contains_key(id) ==> ({
            let (tried, step) = answering(state, id, payload);
            &&& step is AnswerRequest
            &&& (StateView {
                mapper: MapperView {
                    requests: tried.mapper.requests.insert(
                        step->AnswerRequest_name,
                        step->AnswerRequest_pending,
                    ),
                    ..tried.mapper
                },
                ..tried
            }) == state
        }),
{
    crate::mapper_laws::law_unwritten_answer_can_be_tried_again(state.mapper, id);
}

/// A request is answered once: while its answer is being written, and after that, nobody can answer
/// it again.
pub proof fn law_request_is_answered_once(
    state: StateView,
    id: Seq<char>,
    decision: ApprovalDecision,
    again: ApprovalDecision,
)
    ensures
        approving(approving(state, id, decision).0, id, again).1 == misplaced(
            "no pending approval for id "@ + id,
        ),
{
}

/// While a turn goes on in a thread, the app-server is not asked to compact, archive or delete the
/// thread, and nothing changes.
pub proof fn law_active_thread_is_left_alone(
    state: StateView,
    routes: RoutesView,
    command: ControlCommand,
    parent: Option<String>,
)
    requires
        command is CompactThread || command is SetThreadArchived || command is DeleteThread,
        asked_thread(command) matches Some(thread) && state.active.contains_key(thread),
    ensures
        begun(state, routes, command, parent).0 == state,
        begun(state, routes, command, parent).1 == routes,
        begun(state, routes, command, parent).2 is Reply,
        begun(state, routes, command, parent).2->Reply_0 is Err,
{
}

/// Stopping something changes nothing by itself, and only what is urgent is done urgently.
pub proof fn law_urgent_commands_are_kept_apart(
    state: StateView,
    routes: RoutesView,
    command: ControlCommand,
    parent: Option<String>,
)
    ensures
        !is_urgent(command) ==> begun_urgently(state, routes, command, parent) == begun(
            state,
            routes,
            command,
            parent,
        ),
        command is Interrupt || command is TerminateCommand ==> begun_urgently(
            state,
            routes,
            command,
            parent,
        ).0 == state && begun(state, routes, command, parent).2 is Reply,
{
}

} // verus!
