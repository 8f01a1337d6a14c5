//! Opening threads and starting turns, step by step.

use vstd::prelude::*;

use crate::background::{BackgroundState, StateView};
use crate::error::{outcome, outcome_view, ErrorView, HarnessError};
use crate::event::AgentEvent;
use crate::handle::{copy_text, HarnessNotice, ModelRef, ThreadHandle};
use crate::ids::{ProjectId, ThreadId, TurnId};
use crate::json::opt_chars;
use crate::native_routes::{other_primary, ClaimView, NativeRoutes};
use crate::requests::{resume_call, resume_request, start_call, start_request, Call, CallView};
use crate::scope::eligible;
use crate::text::{concat3, trimmed_non_empty};
use crate::turns::{ActiveTurn, PendingContextRestore};

verus! {

/// How a thread is to be opened.
#[derive(Debug)]
pub struct OpenThreadOptions {
    /// The project.
    pub project: ProjectId,
    /// The thread on this side, where the caller knows it.
    pub thread: Option<ThreadId>,
    /// The root of the workspace that the thread works in.
    pub workspace_root: String,
    /// The app-server's name of the thread that is to go on, where it is not a new one.
    pub resume: Option<String>,
    /// The model that the thread starts on, or that takes the place of its own.
    pub initial_model: Option<ModelRef>,
    /// Which try to find the thread's identity this is, where it is one.
    pub identity_generation: Option<u64>,
}

/// What the app-server tells of a thread that it opened.
#[derive(Debug)]
pub struct OpenResponse {
    /// The thread's name.
    pub harness_thread_id: String,
    /// The thread's model.
    pub model: String,
    /// The provider of the model.
    pub model_provider: String,
    /// How hard the model reasons, where that is told.
    pub reasoning_effort: Option<String>,
    /// The name of the agent that runs the thread.
    pub agent_nickname: Option<String>,
    /// The thread that this one was started from.
    pub parent_thread_id: Option<String>,
}

/// A thread that the app-server opened.
#[derive(Debug)]
pub struct OpenedNativeThread {
    /// The thread's name.
    pub harness_thread_id: String,
    /// The thread's model.
    pub model: Option<ModelRef>,
    /// The name of the agent that runs the thread.
    pub agent_name: Option<String>,
    /// The thread that this one was started from.
    pub parent_harness_thread_id: Option<String>,
}

/// Whether this is the model that the app-server reports: none where it leaves the model or the
/// provider empty. The effort that it reports goes before the one that was asked for.
pub open spec fn is_reported(
    model: Seq<char>,
    provider: Seq<char>,
    effort: Option<String>,
    requested: Option<ModelRef>,
    reported: Option<ModelRef>,
) -> bool {
    if model.len() == 0 || provider.len() == 0 {
        reported is None
    } else {
        &&& reported matches Some(found)
        &&& found.provider@ == provider
        &&& found.model@ == model
        &&& found.reasoning_effort == (match effort {
            Some(text) => Some(text),
            None => match requested {
                Some(asked) => asked.reasoning_effort,
                None => None,
            },
        })
    }
}

/// The model that the app-server reports.
pub fn identity_response_model(
    model: &str,
    model_provider: &str,
    reported_effort: &Option<String>,
    requested: &Option<ModelRef>,
) -> (reported: Option<ModelRef>)
    ensures
        is_reported(model@, model_provider@, *reported_effort, *requested, reported),
{
    if model.is_empty() || model_provider.is_empty() {
        return None;
    }
    let reasoning_effort = match reported_effort {
        Some(text) => Some(text.clone()),
        None => match requested {
            Some(asked) => copy_text(&asked.reasoning_effort),
            None => None,
        },
    };
    Some(
        ModelRef { provider: model_provider.to_owned(), model: model.to_owned(), reasoning_effort },
    )
}

fn trimmed_text(text: &Option<String>) -> (trimmed: Option<String>)
    ensures
        opt_chars(trimmed) == (match *text {
            Some(t) => eligible(t@),
            None => None,
        }),
{
    match text {
        Some(t) => match trimmed_non_empty(t.as_str()) {
            Some(name) => Some(name.to_owned()),
            None => None,
        },
        None => None,
    }
}

/// Whether a thread is what the app-server told of it.
pub open spec fn opens(
    response: OpenResponse,
    requested: Option<ModelRef>,
    opened: OpenedNativeThread,
) -> bool {
    &&& opened.harness_thread_id == response.harness_thread_id
    &&& is_reported(
        response.model@,
        response.model_provider@,
        response.reasoning_effort,
        requested,
        opened.model,
    )
    &&& opt_chars(opened.agent_name) == (match response.agent_nickname {
        Some(name) => eligible(name@),
        None => None,
    })
    &&& opt_chars(opened.parent_harness_thread_id) == (match response.parent_thread_id {
        Some(name) => eligible(name@),
        None => None,
    })
}

/// The thread that the app-server told of.
pub fn opened_thread(response: OpenResponse, requested: &Option<ModelRef>) -> (opened:
    OpenedNativeThread)
    ensures
        opens(response, *requested, opened),
{
    let model = identity_response_model(
        response.model.as_str(),
        response.model_provider.as_str(),
        &response.reasoning_effort,
        requested,
    );
    let agent_name = trimmed_text(&response.agent_nickname);
    let parent_harness_thread_id = trimmed_text(&response.parent_thread_id);
    OpenedNativeThread {
        harness_thread_id: response.harness_thread_id,
        model,
        agent_name,
        parent_harness_thread_id,
    }
}

/// The model that a new thread starts on, which the caller must have named.
pub fn fresh_model(opts: &OpenThreadOptions) -> (model: Result<ModelRef, HarnessError>)
    ensures
        outcome(model) == (match opts.initial_model {
            Some(m) => Ok(m),
            None => Err(ErrorView::Protocol("starting a new thread requires a model"@)),
        }),
{
    match &opts.initial_model {
        Some(model) => Ok(model.copy()),
        None => Err(HarnessError::Protocol("starting a new thread requires a model".to_owned())),
    }
}

/// The first request that opens a thread: to go on with one, or else to start one.
pub open spec fn first_request(opts: OpenThreadOptions) -> Result<CallView, ErrorView> {
    match opts.resume {
        Some(native) => Ok(
            resume_request(native@, opts.workspace_root@, opts.initial_model),
        ),
        None => match opts.initial_model {
            Some(model) => Ok(start_request(opts.workspace_root@, model)),
            None => Err(ErrorView::Protocol("starting a new thread requires a model"@)),
        },
    }
}

/// The first request that opens a thread.
pub fn open_call(opts: &OpenThreadOptions) -> (call: Result<Call, HarnessError>)
    ensures
        outcome_view(call) == first_request(*opts),
{
    match &opts.resume {
        Some(native) => Ok(
            resume_call(native.as_str(), opts.workspace_root.as_str(), &opts.initial_model),
        ),
        None => match fresh_model(opts) {
            Ok(model) => Ok(start_call(opts.workspace_root.as_str(), &model)),
            Err(error) => Err(error),
        },
    }
}

/// Whether a notice tells that a thread could not go on and a new one was started.
pub open spec fn tells_lost_context(notice: HarnessNotice, told: String) -> bool {
    &&& notice.code@ == "codex_resume_failed"@
    &&& notice.message@
        == "Agent context was lost; started a fresh Codex session. History is intact."@
    &&& notice.detail == Some(told)
}

/// What is done when a thread could not go on: where the app-server refused, and the caller named a
/// model, a new thread is started and the caller is told; else the failure stands. `told` is the
/// failure in words.
pub fn resume_failed(opts: &OpenThreadOptions, error: HarnessError, told: String) -> (next: Result<
    (Call, HarnessNotice),
    HarnessError,
>)
    ensures
        match next {
            Ok((call, notice)) => {
                &&& error is ProviderRejected
                &&& opts.initial_model matches Some(model)
                &&& call@ == start_request(opts.workspace_root@, model)
                &&& tells_lost_context(notice, told)
            },
            Err(failure) => failure == error && (opts.initial_model is None || !(error is
                ProviderRejected)),
        },
{
    match &opts.initial_model {
        Some(model) => match error {
            HarnessError::ProviderRejected { .. } => Ok(
                (start_call(opts.workspace_root.as_str(), model), lost_context(told)),
            ),
            other => Err(other),
        },
        None => Err(error),
    }
}

/// The notice that a thread could not go on and a new one was started.
pub fn lost_context(told: String) -> (notice: HarnessNotice)
    ensures
        tells_lost_context(notice, told),
{
    HarnessNotice {
        code: "codex_resume_failed".to_owned(),
        message: "Agent context was lost; started a fresh Codex session. History is intact.".to_owned(),
        detail: Some(told),
    }
}

/// The thread and the try to find its identity that failed for good: a timeout is not for good.
pub open spec fn failed_identity(opts: OpenThreadOptions, error: HarnessError) -> Option<
    (ThreadId, u64),
> {
    match (opts.thread, opts.identity_generation) {
        (Some(thread), Some(generation)) => if error is Timeout {
            None
        } else {
            Some((thread, generation))
        },
        _ => None,
    }
}

/// The thread and the try to find its identity that failed for good.
pub fn identity_failure(opts: &OpenThreadOptions, error: &HarnessError) -> (failed: Option<
    (ThreadId, u64),
>)
    ensures
        failed == failed_identity(*opts, *error),
{
    match error {
        HarnessError::Timeout(_) => {
            return None;
        },
        _ => {},
    }
    match (opts.thread, opts.identity_generation) {
        (Some(thread), Some(generation)) => Some((thread, generation)),
        _ => None,
    }
}

/// The events of a thread that was opened: that it was, and, where its context was lost, that.
pub open spec fn opening_events(
    thread: ThreadId,
    native: String,
    warning: Option<HarnessNotice>,
) -> Seq<AgentEvent> {
    let opened = seq![AgentEvent::ThreadOpened { thread, harness_thread_id: native }];
    match warning {
        Some(notice) => opened.push(
            AgentEvent::Error {
                thread,
                turn: None,
                error: HarnessError::Transport(notice.message),
            },
        ),
        None => opened,
    }
}

/// The events of a thread that was opened.
pub fn opened_events(thread: ThreadId, native: &String, warning: &Option<HarnessNotice>) -> (events:
    Vec<AgentEvent>)
    ensures
        events@ == opening_events(thread, *native, *warning),
{
    let mut events: Vec<AgentEvent> = Vec::new();
    events.push(AgentEvent::ThreadOpened { thread, harness_thread_id: native.clone() });
    match warning {
        Some(notice) => {
            events.push(
                AgentEvent::Error {
                    thread,
                    turn: None,
                    error: HarnessError::Transport(notice.message.clone()),
                },
            );
        },
        None => {},
    }
    proof {
        assert(events@ =~= opening_events(thread, *native, *warning));
    }
    events
}

/// What a caller holds of a thread that was opened.
pub open spec fn opened_handle(
    thread: ThreadId,
    opened: OpenedNativeThread,
    root: String,
    warning: Option<HarnessNotice>,
) -> ThreadHandle {
    ThreadHandle {
        thread,
        harness_thread_id: opened.harness_thread_id,
        workspace_root: root,
        warning,
        resumed_model: opened.model,
        agent_name: opened.agent_name,
        parent_harness_thread_id: opened.parent_harness_thread_id,
    }
}

/// The thread that an opened thread is on this side: the one that the caller knows, else the one
/// that its name is bound to, else a fresh one.
pub open spec fn opening_thread(state: StateView, opts: OpenThreadOptions, fresh: ThreadId) -> ThreadId {
    match opts.thread {
        Some(thread) => thread,
        None => match opts.resume {
            Some(native) => state.suggested(native@, fresh),
            None => fresh,
        },
    }
}

impl BackgroundState {
    /// The thread that an opened thread is on this side.
    pub fn open_thread_id(&self, opts: &OpenThreadOptions, fresh: ThreadId) -> (thread: ThreadId)
        requires
            self.wf(),
        ensures
            thread == opening_thread(self@, *opts, fresh),
    {
        match opts.thread {
            Some(thread) => thread,
            None => match &opts.resume {
                Some(native) => match self.mapper.thread_for_native(native) {
                    Some(thread) => thread,
                    None => fresh,
                },
                None => fresh,
            },
        }
    }

    /// The app-server opened a thread: its name is bound, and, where the thread goes on and its
    /// model is known, its owner waits to learn how much the model can hold.
    pub fn accept_open(
        &mut self,
        routes: &mut NativeRoutes,
        native: &String,
        intended: ThreadId,
        resumed_model: Option<ModelRef>,
    ) -> (accepted: Result<(), HarnessError>)
        requires
            old(self).wf(),
            old(routes).wf(),
        ensures
            final(self).wf(),
            final(routes).wf(),
            final(self).mapper.root() == old(self).mapper.root(),
            ({
                let (after, route) = old(routes)@.claim(native@, intended);
                let bound = old(self)@.bound(native@, route);
                &&& final(routes)@ == after
                &&& final(self)@ == (match (route, resumed_model) {
                    (Ok(_), Some(model)) => StateView {
                        restores: bound.restores.insert(
                            native@,
                            PendingContextRestore { thread: intended, model },
                        ),
                        ..bound
                    },
                    _ => bound,
                })
                &&& match accepted {
                    Ok(()) => route is Ok,
                    Err(error) => route == Err::<ClaimView, ErrorView>(error@),
                }
            }),
    {
        match self.claim_mapped_route(routes, native.as_str(), intended) {
            Ok(_) => {},
            Err(error) => {
                return Err(error);
            },
        }
        match resumed_model {
            Some(model) => {
                self.pending_context_restores.insert(
                    native.clone(),
                    PendingContextRestore { thread: intended, model },
                );
            },
            None => {},
        }
        Ok(())
    }

    /// Hands out a thread that was opened, with the events that are delivered to it first. A thread
    /// whose name belongs to another thread of this side is refused.
    pub fn finish_open(
        &mut self,
        routes: &mut NativeRoutes,
        thread: ThreadId,
        opened: OpenedNativeThread,
        workspace_root: &String,
        warning: Option<HarnessNotice>,
    ) -> (result: Result<(Vec<AgentEvent>, ThreadHandle), HarnessError>)
        requires
            old(self).wf(),
            old(routes).wf(),
        ensures
            final(self).wf(),
            final(routes).wf(),
            final(self).mapper.root() == old(self).mapper.root(),
            ({
                let native = opened.harness_thread_id@;
                let (after, route) = old(routes)@.claim(native, thread);
                &&& final(routes)@ == after
                &&& final(self)@ == old(self)@.bound(native, route)
                &&& match route {
                    Ok(r) => if r.thread == thread {
                        &&& result matches Ok((events, handle))
                        &&& events@ == opening_events(thread, opened.harness_thread_id, warning)
                        &&& handle == opened_handle(thread, opened, *workspace_root, warning)
                    } else {
                        &&& result matches Err(error)
                        &&& error@ == other_primary(native, r.thread, thread)
                    },
                    Err(failure) => {
                        &&& result matches Err(error)
                        &&& error@ == failure
                    },
                }
            }),
    {
        let route = match self.claim_mapped_route(
            routes,
            opened.harness_thread_id.as_str(),
            thread,
        ) {
            Ok(route) => route,
            Err(error) => {
                return Err(error);
            },
        };
        if route.thread_id != thread {
            let mut message = concat3(
                "native thread ",
                opened.harness_thread_id.as_str(),
                " is already bound to ",
            );
            message.append(route.thread_id.text().as_str());
            message.append(", not intended Primary ");
            message.append(thread.text().as_str());
            return Err(HarnessError::Protocol(message));
        }
        let events = opened_events(thread, &opened.harness_thread_id, &warning);
        let handle = ThreadHandle {
            warning,
            resumed_model: opened.model,
            agent_name: opened.agent_name,
            parent_harness_thread_id: opened.parent_harness_thread_id,
            ..ThreadHandle::opened(thread, opened.harness_thread_id, workspace_root.clone())
        };
        Ok((events, handle))
    }

    /// The app-server took up a turn: it goes on from now. The app-server must have named it.
    pub fn accept_turn(
        &mut self,
        thread: &ThreadHandle,
        native_turn: &String,
        fresh: TurnId,
        upload_dir: Option<String>,
        clock: u64,
    ) -> (turn: Result<TurnId, HarnessError>)
        requires
            old(self).wf(),
        ensures
            final(self).wf(),
            final(self).mapper.root() == old(self).mapper.root(),
            (final(self)@, outcome(turn)) == old(self)@.accepted(
                *thread,
                native_turn@,
                fresh,
                upload_dir,
                clock,
            ),
    {
        match self.mapper.register_active_turn(thread.thread, native_turn, fresh) {
            Some(turn) => {
                let active = ActiveTurn::new(thread.copy(), turn, clock).with_upload_dir(
                    upload_dir,
                );
                self.active_turns.insert(thread.thread, active);
                Ok(turn)
            },
            None => Err(
                HarnessError::Protocol("turn/start response did not include a turn id".to_owned()),
            ),
        }
    }

    /// The turn that was accepted in a thread.
    pub fn acknowledged_turn(&self, thread: ThreadId) -> (turn: Result<TurnId, HarnessError>)
        requires
            self.wf(),
        ensures
            outcome(turn) == (if self@.active.contains_key(thread) {
                Ok(self@.active[thread].acknowledged_turn)
            } else {
                Err(
                    ErrorView::Protocol(
                        "turn/start hook completed without registering the active turn"@,
                    ),
                )
            }),
    {
        match self.active_turns.get(&thread) {
            Some(active) => Ok(active.acknowledged_turn),
            None => Err(
                HarnessError::Protocol(
                    "turn/start hook completed without registering the active turn".to_owned(),
                ),
            ),
        }
    }
}

impl StateView {
    /// A turn was taken up in a thread.
    pub open spec fn accepted(
        self,
        thread: ThreadHandle,
        native: Seq<char>,
        fresh: TurnId,
        upload_dir: Option<String>,
        clock: u64,
    ) -> (StateView, Result<TurnId, ErrorView>) {
        if native.len() > 0 {
            let turn = self.mapper.turn(native, fresh);
            (
                StateView {
                    mapper: self.mapper.started(thread.thread, native).with_turn(native, fresh),
                    active: self.active.insert(
                        thread.thread,
                        ActiveTurn {
                            thread,
                            acknowledged_turn: turn,
                            active_turn: Some(turn),
                            started_at: clock,
                            saw_server_message: false,
                            warned_no_server_message: false,
                            upload_dir,
                        },
                    ),
                    ..self
                },
                Ok(turn),
            )
        } else {
            (
                self,
                Err(ErrorView::Protocol("turn/start response did not include a turn id"@)),
            )
        }
    }
}

/// A turn that was taken up is the accepted turn of its thread, can be interrupted by its name, and
/// is ended by its own end; then the thread is as it was before, but for the name of the turn.
pub proof fn law_accepted_turn_ends_with_itself(
    state: StateView,
    thread: ThreadHandle,
    native: Seq<char>,
    fresh: TurnId,
    upload_dir: Option<String>,
    clock: u64,
)
    requires
        native.len() > 0,
        !state.active.contains_key(thread.thread),
        !state.mapper.active.contains_key(thread.thread),
    ensures
        ({
            let (accepted, turn) = state.accepted(thread, native, fresh, upload_dir, clock);
            &&& accepted.active[thread.thread].acknowledged_turn == turn->Ok_0
            &&& accepted.mapper.active_name(thread.thread) == native
            &&& accepted.mapper.turn(native, fresh) == turn->Ok_0
            &&& accepted.finished(thread.thread).active == state.active
            &&& accepted.finished(thread.thread).mapper.active == state.mapper.active
        }),
{
    let (accepted, turn) = state.accepted(thread, native, fresh, upload_dir, clock);
    assert(accepted.finished(thread.thread).active =~= state.active);
    assert(accepted.finished(thread.thread).mapper.active =~= state.mapper.active);
}

/// A thread keeps one identity: a name that is bound is opened as the thread it is bound to, unless
/// the caller knows another.
pub proof fn law_known_thread_is_reused(
    state: StateView,
    opts: OpenThreadOptions,
    fresh: ThreadId,
    native: String,
)
    requires
        opts.thread is None,
        opts.resume == Some(native),
        state.mapper.threads.contains_key(native@),
    ensures
        opening_thread(state, opts, fresh) == state.mapper.threads[native@],
{
}

} // verus!
