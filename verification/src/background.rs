//! What goes on in the threads of an app-server, and what its messages make of it.

use vstd::prelude::*;

use crate::error::{outcome_view, ErrorView, HarnessError};
use crate::event::{event_thread, thread_of, AgentEvent};
use crate::handle::{copy_text, ThreadHandle};
use crate::ids::{ItemId, RequestId, ThreadId, TurnId};
use crate::json::{opt_chars, Json};
use crate::maps::{KeyMap, TextMap, ThreadMap};
use crate::mapper::CodexMapper;
use crate::mapper_model::MapperView;
use crate::native_routes::{ClaimView, ClaimedNativeRoute, NativeRoutes};
use crate::protocol::{Notification, ServerMessage, ServerRequest};
use crate::scope::{
    eligible, envelope_thread, notification_native_thread_id, request_scope,
    server_request_native_scope,
};
use crate::text::{concat, trim, trimmed, trimmed_non_empty};
use crate::turn_error::{fatal_chars, fatal_turn_error};
use crate::turns::{
    compaction_took, compactions_after, completed, completed_current_active_turn, failed_turn,
    fallback_thread, fatal_turn_completion, incomplete_turn, is_current,
    observe_pending_compaction, stands_in, ActiveTurn, ActiveTurns, PendingCompaction,
    PendingContextRestore,
};

verus! {

/// What goes on in the threads of an app-server.
pub struct BackgroundState {
    /// What messages made known.
    pub mapper: CodexMapper,
    /// The compactions that wait.
    pub pending_compactions: ThreadMap<PendingCompaction>,
    /// The resumed threads whose owners wait to learn how much their models can hold.
    pub pending_context_restores: TextMap<PendingContextRestore>,
    /// The turns that go on.
    pub active_turns: ActiveTurns,
}

/// What goes on in the threads of an app-server.
#[verifier::ext_equal]
pub struct StateView {
    /// What messages made known.
    pub mapper: MapperView,
    /// The compactions that wait.
    pub compactions: Map<ThreadId, PendingCompaction>,
    /// The resumed threads whose owners wait.
    pub restores: Map<Seq<char>, PendingContextRestore>,
    /// The turns that go on.
    pub active: Map<ThreadId, ActiveTurn>,
}

impl View for BackgroundState {
    type V = StateView;

    open spec fn view(&self) -> StateView {
        StateView {
            mapper: self.mapper@,
            compactions: self.pending_compactions@,
            restores: self.pending_context_restores@,
            active: self.active_turns@,
        }
    }
}

/// A turn that goes on after a message for its thread came.
pub open spec fn noted(active: ActiveTurn, event: AgentEvent) -> ActiveTurn {
    ActiveTurn {
        saw_server_message: true,
        active_turn: match event {
            AgentEvent::TurnStarted { turn, .. } => if turn == active.acknowledged_turn {
                Some(turn)
            } else {
                active.active_turn
            },
            _ => active.active_turn,
        },
        ..active
    }
}

impl StateView {
    /// A message for a thread came.
    pub open spec fn heard(self, event: AgentEvent) -> StateView {
        let thread = thread_of(event);
        if self.active.contains_key(thread) {
            StateView {
                active: self.active.insert(thread, noted(self.active[thread], event)),
                ..self
            }
        } else {
            self
        }
    }

    /// What an event makes of the state: the thread heard of it, and so did its compaction.
    pub open spec fn observed(self, event: AgentEvent) -> StateView {
        StateView {
            compactions: compactions_after(self.compactions, thread_of(event), event),
            ..self.heard(event)
        }
    }

    /// Nothing goes on in a thread any longer.
    pub open spec fn finished(self, thread: ThreadId) -> StateView {
        StateView {
            mapper: self.mapper.cleared(thread),
            active: self.active.remove(thread),
            ..self
        }
    }

    /// The thread whose accepted turn a failure ends, with the turn that goes on there.
    pub open spec fn struck(self, event: AgentEvent) -> bool {
        self.active.contains_key(thread_of(event)) && is_current(
            self.active[thread_of(event)],
            event,
        )
    }
}

/// The directory of uploads that is to be removed, and the thread that it belongs to.
#[derive(Debug)]
pub struct Cleanup {
    /// The thread.
    pub thread: ThreadHandle,
    /// The directory.
    pub upload_dir: Option<String>,
}

/// What is to be done with a notification.
#[derive(Debug)]
pub struct Delivery {
    /// The event that is delivered to its thread.
    pub event: AgentEvent,
    /// The thread.
    pub thread: ThreadId,
    /// How long the thread's compaction took, in milliseconds, where the event ends it.
    pub compaction_ms: Option<u64>,
    /// The accepted turn of the thread, where the event ends it.
    pub completed_turn: Option<TurnId>,
    /// The turn that goes on, and why it failed, where the notification is a failure that ends it.
    pub fatal: Option<(Option<TurnId>, String)>,
}

/// What a thread is told after the event of a notification: that its turn failed, where the notification
/// is a failure that ends it and the event itself does not.
pub open spec fn failure_event(
    thread: ThreadId,
    completed_turn: Option<TurnId>,
    fatal: Option<(Option<TurnId>, String)>,
) -> Option<AgentEvent> {
    match (completed_turn, fatal) {
        (None, Some((Some(turn), message))) => Some(failed_turn(thread, turn, message)),
        _ => None,
    }
}

/// What a thread is told after the event of a notification.
pub fn told_after(
    thread: ThreadId,
    completed_turn: Option<TurnId>,
    fatal: Option<(Option<TurnId>, String)>,
) -> (event: Option<AgentEvent>)
    ensures
        event == failure_event(thread, completed_turn, fatal),
{
    match (completed_turn, fatal) {
        (None, Some((turn, message))) => fatal_turn_completion(thread, turn, message),
        _ => None,
    }
}

/// The failure that ends a turn, in its characters.
pub open spec fn fatal_view(fatal: Option<(Option<TurnId>, String)>) -> Option<
    (Option<TurnId>, Seq<char>),
> {
    match fatal {
        Some((turn, message)) => Some((turn, message@)),
        None => None,
    }
}

/// Whether a delivery is what is to be done with a notification that tells an event.
pub open spec fn delivers(
    state: StateView,
    notification: Notification,
    now: u64,
    delivery: Delivery,
) -> bool {
    let event = delivery.event;
    let thread = thread_of(event);
    &&& delivery.thread == thread
    &&& delivery.compaction_ms == compaction_took(state.compactions, thread, event, now)
    &&& delivery.completed_turn == (match completed(state.active, event) {
        Some((_, turn)) => Some(turn),
        None => None,
    })
    &&& fatal_view(delivery.fatal) == (match fatal_chars(notification) {
        Some(message) => if state.struck(event) {
            Some((noted(state.active[thread], event).active_turn, message))
        } else {
            None
        },
        None => None,
    })
}

/// Identifiers that were not used before.
#[derive(Clone, Copy, PartialEq, Eq, Structural, Debug)]
pub struct FreshIds {
    /// For a thread.
    pub thread: ThreadId,
    /// For a turn.
    pub turn: TurnId,
    /// For an item.
    pub item: ItemId,
}

/// The time.
#[derive(Clone, Copy, PartialEq, Eq, Structural, Debug)]
pub struct Now {
    /// In nanoseconds of the clock that never goes backwards.
    pub clock: u64,
    /// In milliseconds of the epoch.
    pub epoch_ms: i64,
}

impl BackgroundState {
    /// Each table is a map.
    pub open spec fn wf(self) -> bool {
        &&& self.mapper.wf()
        &&& self.pending_compactions.wf()
        &&& self.pending_context_restores.wf()
        &&& self.active_turns.wf()
    }

    /// Nothing goes on.
    pub fn new(workspace_root: String) -> (state: Self)
        ensures
            state.wf(),
            state.mapper.root() == workspace_root,
            state@ == (StateView {
                mapper: MapperView::empty(),
                compactions: Map::empty(),
                restores: Map::empty(),
                active: Map::empty(),
            }),
    {
        BackgroundState {
            mapper: CodexMapper::new(workspace_root),
            pending_compactions: KeyMap::new(),
            pending_context_restores: KeyMap::new(),
            active_turns: KeyMap::new(),
        }
    }

    /// A thread that stands for a message that names none.
    pub fn fallback(&self, fresh: ThreadId) -> (thread: ThreadId)
        requires
            self.wf(),
        ensures
            stands_in(self@.mapper, self@.active, fresh, thread),
    {
        fallback_thread(&self.mapper, &self.active_turns, fresh)
    }

    /// Takes note that a message for a thread came.
    pub fn hear(&mut self, event: &AgentEvent)
        requires
            old(self).wf(),
        ensures
            final(self).wf(),
            final(self).mapper.root() == old(self).mapper.root(),
            final(self)@ == old(self)@.heard(*event),
    {
        let thread = event_thread(event);
        match self.active_turns.remove(&thread) {
            Some(active) => {
                let mut active = active;
                active.mark_server_message();
                match event {
                    AgentEvent::TurnStarted { turn, .. } => {
                        if *turn == active.acknowledged_turn {
                            active.active_turn = Some(*turn);
                        }
                    },
                    _ => {},
                }
                self.active_turns.insert(thread, active);
                proof {
                    assert(self@ =~= old(self)@.heard(*event));
                }
            },
            None => {
                proof {
                    assert(self@ =~= old(self)@.heard(*event));
                }
            },
        }
    }

    /// Claims the route of a thread's name, and binds the name to the thread of the route.
    pub fn claim_mapped_route(
        &mut self,
        routes: &mut NativeRoutes,
        native_thread_id: &str,
        suggested: ThreadId,
    ) -> (route: Result<ClaimedNativeRoute, HarnessError>)
        requires
            old(self).wf(),
            old(routes).wf(),
        ensures
            final(self).wf(),
            final(routes).wf(),
            final(self).mapper.root() == old(self).mapper.root(),
            (final(routes)@, outcome_view(route)) == old(routes)@.claim(
                native_thread_id@,
                suggested,
            ),
            final(self)@ == old(self)@.bound(native_thread_id@, outcome_view(route)),
    {
        let route = routes.claim_native_route(native_thread_id, suggested)?;
        self.mapper.register_thread(native_thread_id.to_owned(), route.thread_id);
        Ok(route)
    }

    /// Claims the route that a message is delivered on, and tells whether its owner has yet to be
    /// asked to take it: the route of the thread that the name is bound to, or else of a fresh one.
    pub fn claim_frame_route(
        &mut self,
        routes: &mut NativeRoutes,
        native_thread_id: &str,
        fresh: ThreadId,
    ) -> (claimed: Result<(ClaimedNativeRoute, bool), HarnessError>)
        requires
            old(self).wf(),
            old(routes).wf(),
        ensures
            final(self).wf(),
            final(routes).wf(),
            final(self).mapper.root() == old(self).mapper.root(),
            ({
                let native = trimmed(native_thread_id@);
                let (after, route) = old(routes)@.claim(
                    native,
                    old(self)@.suggested(native, fresh),
                );
                &&& final(routes)@ == after
                &&& final(self)@ == old(self)@.bound(native, route)
                &&& match claimed {
                    Ok((r, ask)) => route == Ok::<ClaimView, ErrorView>(r@) && ask
                        == !after.is_ready(r@.native),
                    Err(error) => route == Err::<ClaimView, ErrorView>(error@),
                }
            }),
    {
        let native = trim(native_thread_id);
        let suggested = match self.mapper.thread_for_native(&native.to_owned()) {
            Some(thread) => thread,
            None => fresh,
        };
        match self.claim_mapped_route(routes, native, suggested) {
            Ok(route) => {
                let ready = routes.is_ready(route.harness_thread_id.as_str());
                Ok((route, !ready))
            },
            Err(error) => Err(error),
        }
    }

    /// Takes note of a notification: what is to be delivered, where it tells an event, or else the
    /// failure that is lost with it.
    pub fn observe_notification(
        &mut self,
        notification: &Notification,
        fallback: ThreadId,
        fresh: FreshIds,
        now: Now,
    ) -> (noticed: Result<Delivery, Option<String>>)
        requires
            old(self).wf(),
        ensures
            final(self).wf(),
            final(self).mapper.root() == old(self).mapper.root(),
            ({
                let ids = (fresh.turn, fresh.item);
                let mapped = StateView {
                    mapper: old(self)@.mapper.notified(*notification, fallback, ids),
                    ..old(self)@
                };
                match noticed {
                    Ok(delivery) => {
                        &&& old(self)@.mapper.tells(
                            *notification,
                            fallback,
                            ids,
                            now.epoch_ms,
                            Some(delivery.event),
                        )
                        &&& delivers(old(self)@, *notification, now.clock, delivery)
                        &&& final(self)@ == mapped.observed(delivery.event)
                    },
                    Err(lost) => {
                        &&& old(self)@.mapper.tells(
                            *notification,
                            fallback,
                            ids,
                            now.epoch_ms,
                            None,
                        )
                        &&& opt_chars(lost) == fatal_chars(*notification)
                        &&& final(self)@ == mapped
                    },
                }
            }),
    {
        let ids = (fresh.turn, fresh.item);
        let event = match self.mapper.map_notification(
            notification,
            fallback,
            ids,
            now.epoch_ms,
        ) {
            Some(event) => event,
            None => {
                return Err(fatal_turn_error(notification));
            },
        };
        let thread = event_thread(&event);
        self.hear(&event);
        let compaction_ms = observe_pending_compaction(
            &mut self.pending_compactions,
            thread,
            &event,
            now.clock,
        );
        let completed_turn = match completed_current_active_turn(&self.active_turns, &event) {
            Some((_, turn)) => Some(turn),
            None => None,
        };
        let fatal = match self.active_turns.get(&thread) {
            Some(active) => if active.event_is_current_turn(&event) {
                match fatal_turn_error(notification) {
                    Some(message) => Some((active.active_turn, message)),
                    None => None,
                }
            } else {
                None
            },
            None => None,
        };
        Ok(Delivery { event, thread, compaction_ms, completed_turn, fatal })
    }

    /// Takes note of a request, and gives the event that is delivered to its thread.
    pub fn observe_request(
        &mut self,
        id: &RequestId,
        request: &ServerRequest,
        fallback: ThreadId,
        fresh: FreshIds,
        now: Now,
    ) -> (event: AgentEvent)
        requires
            old(self).wf(),
        ensures
            final(self).wf(),
            final(self).mapper.root() == old(self).mapper.root(),
            old(self)@.mapper.asks(*id, *request, fallback, fresh.turn, now.epoch_ms, event),
            final(self)@ == (StateView {
                mapper: old(self)@.mapper.requested(*id, *request, fallback, fresh.turn),
                ..old(self)@
            }).heard(event),
    {
        let event = self.mapper.map_server_request(id, request, fallback, fresh.turn, now.epoch_ms);
        self.hear(&event);
        event
    }

    /// Ends what goes on in a thread, and gives the directory of uploads that is to be removed.
    pub fn finish_turn(&mut self, thread: ThreadId) -> (cleanup: Option<Cleanup>)
        requires
            old(self).wf(),
        ensures
            final(self).wf(),
            final(self).mapper.root() == old(self).mapper.root(),
            final(self)@ == old(self)@.finished(thread),
            cleanup == (if old(self)@.active.contains_key(thread) {
                let active = old(self)@.active[thread];
                Some(Cleanup { thread: active.thread, upload_dir: active.upload_dir })
            } else {
                None
            }),
    {
        let active = self.active_turns.remove(&thread);
        self.mapper.clear_active_turn(thread);
        match active {
            Some(active) => Some(Cleanup { thread: active.thread, upload_dir: active.upload_dir }),
            None => None,
        }
    }

    /// Ends what goes on in a thread where the event that was delivered ends its turn, or where the
    /// thread was told of the failure that does. Gives the directory of uploads that is to be removed.
    pub fn settle_notification(
        &mut self,
        thread: ThreadId,
        completed_turn: Option<TurnId>,
        told_failure: bool,
    ) -> (cleanup: Option<Cleanup>)
        requires
            old(self).wf(),
        ensures
            final(self).wf(),
            final(self).mapper.root() == old(self).mapper.root(),
            final(self)@ == (if completed_turn is Some || told_failure {
                old(self)@.finished(thread)
            } else {
                old(self)@
            }),
            cleanup == (if (completed_turn is Some || told_failure)
                && old(self)@.active.contains_key(thread) {
                let active = old(self)@.active[thread];
                Some(Cleanup { thread: active.thread, upload_dir: active.upload_dir })
            } else {
                None
            }),
    {
        if completed_turn.is_some() || told_failure {
            self.finish_turn(thread)
        } else {
            None
        }
    }

    /// Ends all that goes on, and gives what there was: the thread, the turn, and the directory of
    /// its uploads.
    pub fn finish_all(&mut self) -> (finished: Vec<(Cleanup, Option<TurnId>)>)
        requires
            old(self).wf(),
        ensures
            final(self).wf(),
            final(self).mapper.root() == old(self).mapper.root(),
            final(self)@ == old(self)@.all_finished(),
            finished@.len() == old(self)@.active.dom().len(),
            forall|i: int|
                0 <= i < finished@.len() ==> ended_one(old(self)@.active, #[trigger] finished@[i]),
            forall|thread: ThreadId| #[trigger]
                old(self)@.active.contains_key(thread) ==> exists|i: int|
                    0 <= i < finished@.len() && #[trigger] is_end_of(
                        old(self)@.active[thread],
                        finished@[i],
                    ),
    {
        let mut finished: Vec<(Cleanup, Option<TurnId>)> = Vec::new();
        let ghost before = self@;
        let ghost order = self.active_turns.order();
        let mut i: usize = 0;
        let n: usize = self.active_turns.len();
        proof {
            self.active_turns.lemma_order();
            assert(order.take(0).to_set() =~= Set::<ThreadId>::empty());
            assert(before.mapper.active.remove_keys(Set::empty()) =~= before.mapper.active);
        }
        while i < n
            invariant
                self.wf(),
                self.mapper.root() == old(self).mapper.root(),
                self.active_turns == old(self).active_turns,
                self.active_turns.order() == order,
                self.active_turns@ == before.active,
                order.to_set() == before.active.dom(),
                n == order.len(),
                i <= n,
                self@.compactions == before.compactions,
                self@.restores == before.restores,
                self@.mapper == (MapperView {
                    active: before.mapper.active.remove_keys(order.take(i as int).to_set()),
                    ..before.mapper
                }),
                finished@.len() == i,
                forall|j: int|
                    0 <= j < i ==> before.active.contains_key(#[trigger] order[j]) && is_end_of(
                        before.active[order[j]],
                        finished@[j],
                    ),
            decreases n - i,
        {
            let (thread, active) = self.active_turns.nth(i);
            let thread = *thread;
            let entry = (
                Cleanup {
                    thread: active.thread.copy(),
                    upload_dir: copy_text(&active.upload_dir),
                },
                active.active_turn,
            );
            proof {
                assert(order.to_set().contains(order[i as int]));
            }
            finished.push(entry);
            self.mapper.clear_active_turn(thread);
            proof {
                let done = order.take(i as int).to_set();
                let now = order.take(i + 1);
                let more = now.to_set();
                assert(now =~= order.take(i as int).push(thread));
                assert forall|t: ThreadId| more.contains(t) == (done.contains(t) || t == thread) by {
                    if done.contains(t) {
                        let k = choose|k: int| 0 <= k < i && order[k] == t;
                        assert(now[k] == t);
                    }
                    if t == thread {
                        assert(now[i as int] == t);
                    }
                    if more.contains(t) && t != thread {
                        let k = choose|k: int| 0 <= k < now.len() && now[k] == t;
                        assert(order.take(i as int)[k] == t);
                    }
                }
                assert(before.mapper.active.remove_keys(done).remove(thread)
                    =~= before.mapper.active.remove_keys(more));
            }
            i = i + 1;
        }
        self.active_turns = KeyMap::new();
        proof {
            assert(order.take(order.len() as int) =~= order);
            assert forall|j: int| 0 <= j < finished@.len() implies ended_one(
                before.active,
                #[trigger] finished@[j],
            ) by {
                assert(before.active.contains_key(order[j]) && is_end_of(
                    before.active[order[j]],
                    finished@[j],
                ));
            }
            assert forall|thread: ThreadId| #[trigger]
                before.active.contains_key(thread) implies exists|j: int|
                0 <= j < finished@.len() && #[trigger] is_end_of(
                    before.active[thread],
                    finished@[j],
                ) by {
                assert(order.to_set().contains(thread));
                let j = choose|j: int| 0 <= j < order.len() && order[j] == thread;
                assert(is_end_of(before.active[order[j]], finished@[j]));
            }
        }
        finished
    }
}

/// Whether this is what is left of a turn that went on.
pub open spec fn is_end_of(active: ActiveTurn, end: (Cleanup, Option<TurnId>)) -> bool {
    &&& end.0.thread == active.thread
    &&& end.0.upload_dir == active.upload_dir
    &&& end.1 == active.active_turn
}

/// Whether this is what is left of one of the turns that went on.
pub open spec fn ended_one(active: Map<ThreadId, ActiveTurn>, end: (Cleanup, Option<TurnId>)) -> bool {
    exists|thread: ThreadId| #[trigger]
        active.contains_key(thread) && is_end_of(active[thread], end)
}

impl StateView {
    /// The thread that a name is bound to, or a fresh one.
    pub open spec fn suggested(self, native: Seq<char>, fresh: ThreadId) -> ThreadId {
        if self.mapper.threads.contains_key(native) {
            self.mapper.threads[native]
        } else {
            fresh
        }
    }

    /// Nothing goes on any longer in any thread where something did.
    pub open spec fn all_finished(self) -> StateView {
        StateView {
            mapper: MapperView {
                active: self.mapper.active.remove_keys(self.active.dom()),
                ..self.mapper
            },
            active: Map::empty(),
            ..self
        }
    }

    /// A name is bound to the thread of its route.
    pub open spec fn bound(self, native: Seq<char>, route: Result<ClaimView, ErrorView>) -> StateView {
        match route {
            Ok(r) => StateView {
                mapper: MapperView {
                    threads: self.mapper.threads.insert(native, r.thread),
                    ..self.mapper
                },
                ..self
            },
            Err(_) => self,
        }
    }
}

/// The thread whose route must be ready before a message is delivered.
pub open spec fn frame_name(message: ServerMessage, envelope: Json) -> Option<Seq<char>> {
    let named = match message {
        ServerMessage::Notification(_) => envelope_thread(envelope@),
        ServerMessage::Request { request, .. } => request_scope(request).0,
    };
    match named {
        Some(name) => eligible(name),
        None => None,
    }
}

/// The thread whose route must be ready before a message is delivered. The envelope is the
/// notification as it came.
pub fn frame_thread(message: &ServerMessage, envelope: &Json) -> (name: Option<String>)
    ensures
        opt_chars(name) == frame_name(*message, *envelope),
{
    let named = match message {
        ServerMessage::Notification(_) => notification_native_thread_id(envelope),
        ServerMessage::Request { request, .. } => server_request_native_scope(request).0,
    };
    match named {
        Some(name) => match trimmed_non_empty(name.as_str()) {
            Some(name) => Some(name.to_owned()),
            None => None,
        },
        None => None,
    }
}

/// What came from the app-server.
#[derive(Debug)]
#[allow(inconsistent_fields)]
pub enum StreamEvent {
    /// A message came and was handled, or could not be.
    Handled(Result<(), String>),
    /// The stream ended.
    Ended,
    /// A line came that is no JSON. The next line starts afresh.
    NonJson,
    /// The stream failed.
    Failed(String),
}

/// Why the stream is read no longer.
pub open spec fn stop_of(event: StreamEvent) -> Option<Seq<char>> {
    match event {
        StreamEvent::Handled(Ok(())) => None,
        StreamEvent::Handled(Err(error)) => Some(
            "Codex stream failed before turn completion: "@ + error@,
        ),
        StreamEvent::Ended => Some("Codex stream ended before turn completion"@),
        StreamEvent::NonJson => None,
        StreamEvent::Failed(error) => Some(
            "Codex stream failed before turn completion: "@ + error@,
        ),
    }
}

/// Why the stream is read no longer after what came; nothing where it is read on.
pub fn stream_stop(event: &StreamEvent) -> (message: Option<String>)
    ensures
        opt_chars(message) == stop_of(*event),
{
    match event {
        StreamEvent::Handled(result) => match result {
            Ok(()) => None,
            Err(error) => Some(
                concat("Codex stream failed before turn completion: ", error.as_str()),
            ),
        },
        StreamEvent::Ended => Some("Codex stream ended before turn completion".to_owned()),
        StreamEvent::NonJson => None,
        StreamEvent::Failed(error) => Some(
            concat("Codex stream failed before turn completion: ", error.as_str()),
        ),
    }
}

/// What the threads are told whose turns the stream's end cut off, one event for each.
pub fn incomplete_turns(finished: &Vec<(Cleanup, Option<TurnId>)>, message: &String) -> (events: Vec<
    AgentEvent,
>)
    ensures
        events@.len() == finished@.len(),
        forall|i: int|
            0 <= i < events@.len() ==> #[trigger] events@[i] == (match finished@[i].1 {
                Some(turn) => crate::turns::failed_turn(
                    finished@[i].0.thread.thread,
                    turn,
                    *message,
                ),
                None => AgentEvent::Error {
                    thread: finished@[i].0.thread.thread,
                    turn: None,
                    error: HarnessError::Transport(*message),
                },
            }),
{
    let mut events: Vec<AgentEvent> = Vec::new();
    let mut i: usize = 0;
    while i < finished.len()
        invariant
            i <= finished@.len(),
            events@.len() == i,
            forall|j: int|
                0 <= j < i ==> #[trigger] events@[j] == (match finished@[j].1 {
                    Some(turn) => crate::turns::failed_turn(
                        finished@[j].0.thread.thread,
                        turn,
                        *message,
                    ),
                    None => AgentEvent::Error {
                        thread: finished@[j].0.thread.thread,
                        turn: None,
                        error: HarnessError::Transport(*message),
                    },
                }),
        decreases finished@.len() - i,
    {
        events.push(
            incomplete_turn(finished[i].0.thread.thread, finished[i].1, message.clone()),
        );
        i = i + 1;
    }
    events
}

/// A message is heard by its own thread alone.
pub proof fn law_messages_are_heard_by_their_thread(
    state: StateView,
    event: AgentEvent,
    other: ThreadId,
)
    requires
        other != thread_of(event),
    ensures
        state.observed(event).active.contains_key(other) == state.active.contains_key(other),
        state.active.contains_key(other) ==> state.observed(event).active[other]
            == state.active[other],
        state.observed(event).mapper == state.mapper,
        state.observed(event).restores == state.restores,
        state.observed(event).active.dom() == state.active.dom(),
{
    let thread = thread_of(event);
    if state.active.contains_key(thread) {
        assert(state.active.insert(thread, noted(state.active[thread], event)).dom()
            =~= state.active.dom());
    }
}

/// A message changes neither the accepted turn of a thread nor when it was accepted, and after it
/// the thread is never said to be slow.
pub proof fn law_heard_turn_is_not_slow(active: ActiveTurn, event: AgentEvent, now: u64)
    ensures
        noted(active, event).acknowledged_turn == active.acknowledged_turn,
        noted(active, event).started_at == active.started_at,
        noted(active, event).thread == active.thread,
        !crate::turns::is_slow(noted(active, event), now),
{
}

/// When the accepted turn of a thread ended, nothing goes on there, and in all other threads what
/// went on does.
pub proof fn law_finished_thread_is_idle(state: StateView, thread: ThreadId, other: ThreadId)
    requires
        other != thread,
    ensures
        !state.finished(thread).active.contains_key(thread),
        !state.finished(thread).mapper.active.contains_key(thread),
        state.active.contains_key(other) ==> state.finished(thread).active.contains_key(other)
            && state.finished(thread).active[other] == state.active[other],
        state.finished(thread).mapper.active_name(other) == state.mapper.active_name(other),
        state.finished(thread).compactions == state.compactions,
{
}

/// The stream is read on after a message that was handled and after a line that is no JSON, and
/// never after its end or a failure.
pub proof fn law_stream_goes_on_past_noise(event: StreamEvent)
    ensures
        stop_of(event) is None <==> (event is NonJson || (event is Handled && event->Handled_0 is Ok)),
{
}

} // verus!
