//! One app-server and all that goes on with it: the routes of its threads, the work in them, and who
//! is told of threads that were seen for the first time.

use vstd::prelude::*;

use crate::background::{
    delivers, incomplete_turns, stop_of, stream_stop, BackgroundState, Cleanup, Delivery, FreshIds,
    Now, StateView, StreamEvent,
};
use crate::discovery::{AdmissionView, DiscoveryAdmission, SendOutcome, Submission};
use crate::error::{ErrorView, HarnessError};
use crate::event::{event_thread, thread_of, AgentEvent};
use crate::ids::{RequestId, ThreadId, TurnId};
use crate::json::opt_chars;
use crate::mapper_model::MapperView;
use crate::protocol::{Notification, ServerMessage, ServerRequest};
use crate::route_model::{DiscoveryState, RouteView, TableView, TicketView};
use crate::routes::{ActiveRoute, CodexRouteAuthority, DiscoveryTicket};
use crate::scope::{
    eligible_notification_native_id, eligible_server_request_native_id, notification_thread,
    request_thread,
};
use crate::text::{concat3, is_blank, trim, trimmed};
use crate::turn_error::fatal_chars;
use crate::turns::{fatal_turn_completion, ActiveTurn, PendingCompaction, PendingContextRestore};

verus! {

/// One app-server and all that goes on with it.
pub struct CodexInstance {
    /// What goes on in its threads.
    pub work: BackgroundState,
    /// The routes of its threads.
    pub routes: CodexRouteAuthority,
    /// Who is told of threads that were seen for the first time.
    pub discovery: DiscoveryAdmission,
}

/// One app-server and all that goes on with it.
#[verifier::ext_equal]
pub struct InstanceView {
    /// What goes on in its threads.
    pub work: StateView,
    /// The routes of its threads.
    pub routes: TableView,
    /// Who is told of threads that were seen for the first time.
    pub admission: AdmissionView,
}

impl View for CodexInstance {
    type V = InstanceView;

    open spec fn view(&self) -> InstanceView {
        InstanceView {
            work: self.work@,
            routes: self.routes@,
            admission: self.discovery@,
        }
    }
}

/// A thread that is known from before.
#[derive(Debug)]
pub struct ThreadBinding {
    /// The thread's name at the app-server.
    pub harness_thread_id: String,
    /// The thread on this side.
    pub thread_id: ThreadId,
}

/// The failure to bind a thread that is known from before: its name has another thread.
pub open spec fn bound_otherwise(found: ThreadId, known: ThreadId) -> ErrorView {
    ErrorView::Protocol(
        "bootstrap native route resolved to "@ + found.chars() + " instead of "@ + known.chars(),
    )
}

/// The routes after all threads that are known from before were bound, one after another, or why one
/// could not be.
pub open spec fn bootstrapped(table: TableView, known: Seq<ThreadBinding>) -> Result<
    TableView,
    ErrorView,
>
    decreases known.len(),
{
    if known.len() == 0 {
        Ok(table)
    } else {
        match bootstrapped(table, known.drop_last()) {
            Err(error) => Err(error),
            Ok(before) => {
                let binding = known.last();
                match before.bootstrap(binding.harness_thread_id@, binding.thread_id) {
                    (_, Err(error)) => Err(error),
                    (after, Ok(route)) => if route.thread == binding.thread_id {
                        Ok(after)
                    } else {
                        Err(bound_otherwise(route.thread, binding.thread_id))
                    },
                }
            },
        }
    }
}

/// The route that a message is delivered on, as far as it is known.
#[derive(Debug)]
pub enum RouteStep {
    /// There is none.
    Lost,
    /// This one.
    Known(ActiveRoute),
    /// This one, and its owner has yet to be told of it.
    Announce {
        /// The route.
        route: ActiveRoute,
        /// What its owner is told.
        ticket: DiscoveryTicket,
    },
}

/// The route that a message is delivered on, as far as it is known.
#[verifier::ext_equal]
#[allow(inconsistent_fields)]
pub enum RouteStepView {
    /// There is none.
    Lost,
    /// This one.
    Known(RouteView),
    /// This one, and its owner has yet to be told of it.
    Announce {
        /// The route.
        route: RouteView,
        /// What its owner is told.
        ticket: TicketView,
    },
}

impl View for RouteStep {
    type V = RouteStepView;

    open spec fn view(&self) -> RouteStepView {
        match *self {
            RouteStep::Lost => RouteStepView::Lost,
            RouteStep::Known(route) => RouteStepView::Known(route@),
            RouteStep::Announce { route, ticket } => RouteStepView::Announce {
                route: route@,
                ticket: ticket@,
            },
        }
    }
}

/// A route, or none.
pub open spec fn route_view(route: Option<ActiveRoute>) -> Option<RouteView> {
    match route {
        Some(route) => Some(route@),
        None => None,
    }
}

impl InstanceView {
    /// The thread of a name was seen. While owners of new threads can be told of them, a route is found
    /// or bound for the thread; after that, only a route that is there already is used.
    pub open spec fn seen(self, name: Seq<char>, fallback: ThreadId, fresh: ThreadId) -> (
        InstanceView,
        RouteStepView,
    ) {
        if is_blank(name) {
            (self, RouteStepView::Lost)
        } else if !self.admission.open {
            (
                self,
                match self.routes.resolve(trimmed(name), fallback) {
                    Ok(route) => RouteStepView::Known(route),
                    Err(_) => RouteStepView::Lost,
                },
            )
        } else {
            let (routes, found) = self.routes.discover(trimmed(name), fresh);
            (
                InstanceView { routes, ..self },
                match found {
                    Ok((route, Some(ticket))) => RouteStepView::Announce { route, ticket },
                    Ok((route, None)) => RouteStepView::Known(route),
                    Err(_) => RouteStepView::Lost,
                },
            )
        }
    }

    /// Nobody is told of new threads any longer, and no route is good.
    pub open spec fn deserted(self) -> InstanceView {
        InstanceView {
            routes: self.routes.shut_down(),
            admission: AdmissionView::shut(),
            ..self
        }
    }

    /// The owner of a thread was told of it, or could not be: then it is told once there is room, or
    /// nobody is there any longer.
    pub open spec fn told(self, route: RouteView, ticket: TicketView, sent: SendOutcome) -> (
        InstanceView,
        Option<RouteView>,
    ) {
        match sent {
            SendOutcome::Sent => (self, Some(route)),
            SendOutcome::Full => (
                InstanceView {
                    routes: if self.routes.ticket_is_out(ticket) {
                        self.routes.announced(ticket.slot, DiscoveryState::Pending)
                    } else {
                        self.routes
                    },
                    ..self
                },
                Some(route),
            ),
            SendOutcome::Closed => (self.deserted(), None),
        }
    }

    /// Whether messages are read: there is something that one may be about.
    pub open spec fn listens(self) -> bool {
        ||| self.work.mapper.running != Map::<Seq<char>, ThreadId>::empty()
        ||| self.work.active != Map::<ThreadId, ActiveTurn>::empty()
        ||| self.work.compactions != Map::<ThreadId, PendingCompaction>::empty()
        ||| self.work.restores != Map::<Seq<char>, PendingContextRestore>::empty()
    }
}

/// What is waited for next.
#[derive(Debug)]
pub struct Waits {
    /// Room to tell the owner of a thread of it.
    pub room: bool,
    /// That nobody is told of new threads any longer.
    pub desertion: bool,
    /// A message.
    pub message: bool,
    /// The time to look for turns that are slow.
    pub tick: bool,
}

/// What a message without a failure leads to.
#[derive(Debug)]
pub struct RoutedDelivery {
    /// What is to be done.
    pub delivery: Delivery,
    /// The channel that the event goes to, or why it goes nowhere.
    pub channel: Result<u64, HarnessError>,
}

/// What is done with a request.
#[derive(Debug)]
pub enum RequestStep {
    /// It is refused.
    Refuse,
    /// Its thread is asked. Once it was, the request waits for its answer.
    Deliver {
        /// What the thread is asked.
        event: AgentEvent,
        /// The channel that it goes to.
        channel: u64,
    },
}

/// What is left when messages are read no longer.
#[derive(Debug)]
pub struct StreamEnd {
    /// The turns that went on, with the directories of their uploads.
    pub finished: Vec<(Cleanup, Option<TurnId>)>,
    /// What their threads are told.
    pub events: Vec<AgentEvent>,
}

impl CodexInstance {
    /// Each table is a map, and names have one thread each.
    pub open spec fn wf(self) -> bool {
        self.work.wf() && self.routes.wf()
    }

    /// Nothing goes on, and the threads that are known from before are bound to their names.
    pub fn new(workspace_root: String, known: &Vec<ThreadBinding>) -> (instance: Result<
        Self,
        HarnessError,
    >)
        ensures
            match bootstrapped(TableView::empty(), known@) {
                Ok(routes) => {
                    &&& instance is Ok
                    &&& instance->Ok_0.wf()
                    &&& instance->Ok_0.work.mapper.root() == workspace_root
                    &&& instance->Ok_0@ == (InstanceView {
                        work: StateView {
                            mapper: MapperView::empty(),
                            compactions: Map::empty(),
                            restores: Map::empty(),
                            active: Map::empty(),
                        },
                        routes,
                        admission: AdmissionView { pending: None, open: true, failed: false },
                    })
                },
                Err(error) => instance is Err && instance->Err_0@ == error,
            },
    {
        let mut routes = CodexRouteAuthority::new();
        let mut i: usize = 0;
        proof {
            assert(known@.take(0) =~= Seq::<ThreadBinding>::empty());
        }
        while i < known.len()
            invariant
                i <= known@.len(),
                routes.wf(),
                bootstrapped(TableView::empty(), known@.take(i as int)) == Ok::<
                    TableView,
                    ErrorView,
                >(routes@),
            decreases known@.len() - i,
        {
            let binding = &known[i];
            proof {
                assert(known@.take(i + 1).drop_last() =~= known@.take(i as int));
                assert(known@.take(i + 1).last() == *binding);
            }
            match routes.bootstrap(binding.harness_thread_id.as_str(), binding.thread_id) {
                Ok(route) => {
                    if route.thread_id() != binding.thread_id {
                        let mut message = concat3(
                            "bootstrap native route resolved to ",
                            route.thread_id().text().as_str(),
                            " instead of ",
                        );
                        message.append(binding.thread_id.text().as_str());
                        proof {
                            lemma_first_failure(
                                TableView::empty(),
                                known@,
                                i + 1,
                                bound_otherwise(route@.thread, binding.thread_id),
                            );
                        }
                        return Err(HarnessError::Protocol(message));
                    }
                },
                Err(error) => {
                    proof {
                        lemma_first_failure(TableView::empty(), known@, i + 1, error@);
                    }
                    return Err(error);
                },
            }
            i = i + 1;
        }
        proof {
            assert(known@.take(known@.len() as int) =~= known@);
        }
        Ok(
            CodexInstance {
                work: BackgroundState::new(workspace_root),
                routes,
                discovery: DiscoveryAdmission::new(),
            },
        )
    }

    /// The thread of a name was seen: the route that its messages are delivered on, as far as there is
    /// one, and whether the owner of the thread has yet to be told of it.
    pub fn ensure_discovered_route(&mut self, name: &str, fallback: ThreadId, fresh: ThreadId) -> (step:
        RouteStep)
        requires
            old(self).wf(),
        ensures
            final(self).wf(),
            final(self).work == old(self).work,
            (final(self)@, step@) == old(self)@.seen(name@, fallback, fresh),
    {
        let name = trim(name);
        proof {
            crate::text::lemma_trimmed_is_trim(name@);
        }
        if name.is_empty() {
            return RouteStep::Lost;
        }
        if !self.discovery.is_open() {
            return match self.routes.resolve(name, fallback) {
                Ok(route) => RouteStep::Known(route),
                Err(_) => RouteStep::Lost,
            };
        }
        match self.routes.discover(name, fresh) {
            Ok(found) => match found.ticket {
                Some(ticket) => RouteStep::Announce { route: found.route, ticket },
                None => RouteStep::Known(found.route),
            },
            Err(_) => RouteStep::Lost,
        }
    }

    /// The owner of a thread was told of it, or could not be. The route, where there still is one.
    pub fn route_announced(
        &mut self,
        route: ActiveRoute,
        ticket: DiscoveryTicket,
        sent: SendOutcome,
    ) -> (found: Option<ActiveRoute>)
        requires
            old(self).wf(),
        ensures
            final(self).wf(),
            final(self).work == old(self).work,
            (final(self)@, route_view(found)) == old(self)@.told(route@, ticket@, sent),
    {
        match self.discovery.submit(ticket, sent) {
            Submission::Queued => Some(route),
            Submission::Deferred(ticket) => {
                match self.routes.defer_ticket(ticket) {
                    Ok(()) => {},
                    Err(_) => {},
                }
                Some(route)
            },
            Submission::Closed(_) => {
                self.discovery_consumer_closed();
                None
            },
        }
    }

    /// Nobody is told of new threads any longer, and no route is good.
    pub fn discovery_consumer_closed(&mut self)
        requires
            old(self).wf(),
        ensures
            final(self).wf(),
            final(self).work == old(self).work,
            final(self)@ == old(self)@.deserted(),
    {
        self.discovery.close_failed();
        self.routes.close();
    }

    /// What is waited for next; nothing where nobody is told of new threads any longer, or where no
    /// route can be announced any longer.
    pub fn next_waits(&mut self) -> (waits: Option<Waits>)
        requires
            old(self).wf(),
        ensures
            final(self).wf(),
            final(self).work == old(self).work,
            old(self)@.admission.failed ==> waits is None && final(self)@ == old(self)@,
            !old(self)@.admission.failed ==> exists|staged: AdmissionView, result: Result<(), HarnessError>|
                #![trigger stages(old(self)@, final(self)@.routes, staged, result)]
                stages(old(self)@, final(self)@.routes, staged, result) && match result {
                    Ok(()) => {
                        &&& final(self)@.admission == staged
                        &&& waits matches Some(waits)
                        &&& waits.room == staged.waits()
                        &&& waits.desertion == staged.open
                        &&& waits.message == old(self)@.listens()
                        &&& waits.tick == (old(self)@.work.active != Map::<
                            ThreadId,
                            ActiveTurn,
                        >::empty())
                    },
                    Err(_) => waits is None && final(self)@.admission == AdmissionView::shut(),
                },
    {
        if self.discovery.failed() {
            return None;
        }
        let ghost before = self@;
        let staged = self.discovery.stage_pending(&mut self.routes);
        let ghost mid = self@.admission;
        proof {
            assert(stages(before, self@.routes, mid, staged));
        }
        if staged.is_err() {
            self.discovery.close_failed();
            proof {
                assert(stages(before, self@.routes, mid, staged));
            }
            return None;
        }
        let idle = self.work.active_turns.is_empty();
        let message = self.work.mapper.has_running_commands() || !idle
            || !self.work.pending_compactions.is_empty()
            || !self.work.pending_context_restores.is_empty();
        Some(
            Waits {
                room: self.discovery.has_pending(),
                desertion: self.discovery.is_open(),
                message,
                tick: !idle,
            },
        )
    }

    /// The name whose route a message is delivered on, where the message may be delivered by a name.
    pub fn message_name(message: &ServerMessage) -> (name: Option<String>)
        ensures
            opt_chars(name) == (match *message {
                ServerMessage::Notification(notification) => notification_thread(notification),
                ServerMessage::Request { request, .. } => request_thread(request),
            }),
    {
        match message {
            ServerMessage::Notification(notification) => {
                match eligible_notification_native_id(notification) {
                    Some(name) => Some(name.as_ref().to_owned()),
                    None => None,
                }
            },
            ServerMessage::Request { request, .. } => eligible_server_request_native_id(request),
        }
    }

    /// The route of a message that is delivered by no name: that of the thread that stands for it.
    pub fn fallback_route(&self, fallback: ThreadId) -> (route: Option<ActiveRoute>)
        requires
            self.wf(),
        ensures
            route_view(route) == (match self@.routes.active_for_thread(fallback) {
                Ok(route) => Some(route),
                Err(_) => None,
            }),
    {
        match self.routes.active_for_thread(fallback) {
            Ok(route) => Some(route),
            Err(_) => None,
        }
    }

    /// Takes note of a notification that came on a route: what is to be delivered and where, where it
    /// tells an event, or else the failure that is lost with it.
    pub fn handle_notification(
        &mut self,
        notification: &Notification,
        route: &ActiveRoute,
        fresh: FreshIds,
        now: Now,
    ) -> (noticed: Result<RoutedDelivery, Option<String>>)
        requires
            old(self).wf(),
        ensures
            final(self).wf(),
            final(self)@.routes == old(self)@.routes,
            final(self)@.admission == old(self)@.admission,
            final(self).work.mapper.root() == old(self).work.mapper.root(),
            ({
                let thread = route@.thread;
                let ids = (fresh.turn, fresh.item);
                let mapped = StateView {
                    mapper: old(self)@.work.mapper.notified(*notification, thread, ids),
                    ..old(self)@.work
                };
                match noticed {
                    Ok(routed) => {
                        let event = routed.delivery.event;
                        &&& old(self)@.work.mapper.tells(
                            *notification,
                            thread,
                            ids,
                            now.epoch_ms,
                            Some(event),
                        )
                        &&& delivers(old(self)@.work, *notification, now.clock, routed.delivery)
                        &&& final(self)@.work == mapped.observed(event)
                        &&& crate::error::outcome(routed.channel) == old(self)@.routes.deliver(
                            route@,
                            thread_of(event),
                        )
                    },
                    Err(lost) => {
                        &&& old(self)@.work.mapper.tells(
                            *notification,
                            thread,
                            ids,
                            now.epoch_ms,
                            None,
                        )
                        &&& opt_chars(lost) == fatal_chars(*notification)
                        &&& final(self)@.work == mapped
                    },
                }
            }),
    {
        match self.work.observe_notification(notification, route.thread_id(), fresh, now) {
            Ok(delivery) => {
                let channel = self.routes.deliver(route, delivery.thread);
                Ok(RoutedDelivery { delivery, channel })
            },
            Err(lost) => Err(lost),
        }
    }

    /// What a thread is told whose turn a failure ends, and the channel that it goes to. Nothing is told
    /// where no turn is known or the thread has no route.
    pub fn fatal_delivery(&self, thread: ThreadId, turn: Option<TurnId>, message: String) -> (told: Option<
        (AgentEvent, u64),
    >)
        requires
            self.wf(),
        ensures
            match told {
                Some((event, channel)) => {
                    &&& turn matches Some(turn)
                    &&& event == crate::turns::failed_turn(thread, turn, message)
                    &&& self@.routes.active_for_thread(thread) matches Ok(route)
                    &&& self@.routes.deliver(route, thread) == Ok::<u64, ErrorView>(channel)
                },
                None => {
                    ||| turn is None
                    ||| self@.routes.active_for_thread(thread) is Err
                    ||| self@.routes.deliver(
                        self@.routes.active_for_thread(thread)->Ok_0,
                        thread,
                    ) is Err
                },
            },
    {
        let event = match fatal_turn_completion(thread, turn, message) {
            Some(event) => event,
            None => {
                return None;
            },
        };
        let route = match self.routes.active_for_thread(thread) {
            Ok(route) => route,
            Err(_) => {
                return None;
            },
        };
        match self.routes.deliver(&route, thread) {
            Ok(channel) => Some((event, channel)),
            Err(_) => None,
        }
    }

    /// Ends what goes on in a thread where the event that was delivered ends it, or where the thread was
    /// told of the failure that does. The directory of uploads that is to be removed.
    pub fn settle_notification(
        &mut self,
        thread: ThreadId,
        completed_turn: Option<TurnId>,
        told_failure: bool,
    ) -> (cleanup: Option<Cleanup>)
        requires
            old(self).wf(),
        ensures
            final(self).wf(),
            final(self)@.routes == old(self)@.routes,
            final(self)@.admission == old(self)@.admission,
            final(self).work.mapper.root() == old(self).work.mapper.root(),
            final(self)@.work == (if completed_turn is Some || told_failure {
                old(self)@.work.finished(thread)
            } else {
                old(self)@.work
            }),
            cleanup == (if (completed_turn is Some || told_failure)
                && old(self)@.work.active.contains_key(thread) {
                let active = old(self)@.work.active[thread];
                Some(Cleanup { thread: active.thread, upload_dir: active.upload_dir })
            } else {
                None
            }),
    {
        self.work.settle_notification(thread, completed_turn, told_failure)
    }

    /// Takes up a request that came on a route, or on none. A request that is unknown, has no route, or
    /// cannot be delivered on the route that it has is refused. No request waits for its answer before
    /// it was delivered, so one that waits under the same name goes on waiting.
    pub fn handle_request(
        &mut self,
        id: &RequestId,
        request: &ServerRequest,
        route: &Option<ActiveRoute>,
        fresh: FreshIds,
        now: Now,
    ) -> (step: RequestStep)
        requires
            old(self).wf(),
        ensures
            final(self).wf(),
            final(self)@.routes == old(self)@.routes,
            final(self)@.admission == old(self)@.admission,
            final(self).work.mapper.root() == old(self).work.mapper.root(),
            final(self)@.work.mapper == old(self)@.work.mapper,
            (request is Unknown || route is None) ==> step is Refuse && final(self)@ == old(self)@,
            !(request is Unknown) && route is Some ==> ({
                let thread = route->Some_0@.thread;
                exists|event: AgentEvent|
                    #![trigger thread_of(event)]
                    {
                        &&& old(self)@.work.mapper.asks(
                            *id,
                            *request,
                            thread,
                            fresh.turn,
                            now.epoch_ms,
                            event,
                        )
                        &&& final(self)@.work == old(self)@.work.heard(event)
                        &&& match old(self)@.routes.deliver(route->Some_0@, thread_of(event)) {
                            Ok(channel) => step == (RequestStep::Deliver { event, channel }),
                            Err(_) => step is Refuse,
                        }
                    }
            }),
    {
        match request {
            ServerRequest::Unknown { .. } => {
                return RequestStep::Refuse;
            },
            _ => {},
        }
        let route = match route {
            Some(route) => route,
            None => {
                return RequestStep::Refuse;
            },
        };
        let event = self.work.mapper.prepare_server_request(
            id,
            request,
            route.thread_id(),
            fresh.turn,
            now.epoch_ms,
        );
        self.work.hear(&event);
        let thread = event_thread(&event);
        match self.routes.deliver(route, thread) {
            Ok(channel) => RequestStep::Deliver { event, channel },
            Err(_) => RequestStep::Refuse,
        }
    }

    /// A request that was taken up on a route was delivered: it waits for its answer from now on.
    pub fn request_delivered(
        &mut self,
        id: &RequestId,
        request: &ServerRequest,
        route: &ActiveRoute,
        fresh: FreshIds,
    )
        requires
            old(self).wf(),
        ensures
            final(self).wf(),
            final(self)@.routes == old(self)@.routes,
            final(self)@.admission == old(self)@.admission,
            final(self).work.mapper.root() == old(self).work.mapper.root(),
            final(self)@.work == (StateView {
                mapper: old(self)@.work.mapper.requested(
                    *id,
                    *request,
                    route@.thread,
                    fresh.turn,
                ),
                ..old(self)@.work
            }),
    {
        self.work.mapper.commit_server_request(id, request, route.thread_id(), fresh.turn);
    }

    /// What is left when messages are read no longer after what came; nothing where they are.
    pub fn stream_event(&mut self, event: &StreamEvent) -> (end: Option<StreamEnd>)
        requires
            old(self).wf(),
        ensures
            final(self).wf(),
            final(self)@.routes == old(self)@.routes,
            final(self)@.admission == old(self)@.admission,
            final(self).work.mapper.root() == old(self).work.mapper.root(),
            end is Some <==> stop_of(*event) is Some,
            end is None ==> final(self)@ == old(self)@,
            end matches Some(end) ==> {
                &&& final(self)@.work == old(self)@.work.all_finished()
                &&& end.finished@.len() == old(self)@.work.active.dom().len()
                &&& end.events@.len() == end.finished@.len()
                &&& forall|i: int|
                    0 <= i < end.events@.len() ==> tells_stop(
                        #[trigger] end.events@[i],
                        end.finished@[i],
                        stop_of(*event)->Some_0,
                    )
                &&& forall|i: int|
                    0 <= i < end.finished@.len() ==> crate::background::ended_one(
                        old(self)@.work.active,
                        #[trigger] end.finished@[i],
                    )
                &&& forall|thread: ThreadId| #[trigger]
                    old(self)@.work.active.contains_key(thread) ==> exists|i: int|
                        0 <= i < end.finished@.len() && #[trigger] crate::background::is_end_of(
                            old(self)@.work.active[thread],
                            end.finished@[i],
                        )
            },
    {
        match stream_stop(event) {
            Some(message) => {
                let finished = self.work.finish_all();
                let events = incomplete_turns(&finished, &message);
                proof {
                    assert forall|i: int| 0 <= i < events@.len() implies tells_stop(
                        #[trigger] events@[i],
                        finished@[i],
                        message@,
                    ) by {
                        assert(events@[i] == stop_event(finished@[i], message));
                    }
                }
                Some(StreamEnd { finished, events })
            },
            None => None,
        }
    }
}

/// Whether an event tells a thread that messages are read no longer: its turn failed, or, where no turn
/// is known, there was a failure.
pub open spec fn tells_stop(
    event: AgentEvent,
    finished: (Cleanup, Option<TurnId>),
    message: Seq<char>,
) -> bool {
    exists|words: String|
        words@ == message && event == #[trigger] stop_event(finished, words)
}

/// What a thread is told when messages are read no longer.
pub open spec fn stop_event(finished: (Cleanup, Option<TurnId>), words: String) -> AgentEvent {
    match finished.1 {
        Some(turn) => crate::turns::failed_turn(finished.0.thread.thread, turn, words),
        None => AgentEvent::Error {
            thread: finished.0.thread.thread,
            turn: None,
            error: HarnessError::Transport(words),
        },
    }
}

/// What is known after a route whose announcement waits for room was looked for.
pub open spec fn stages(
    before: InstanceView,
    routes: TableView,
    staged: AdmissionView,
    result: Result<(), HarnessError>,
) -> bool {
    if before.admission.pending is Some || !before.admission.open {
        result is Ok && staged == before.admission && routes == before.routes
    } else {
        crate::discovery::staged(before.admission, before.routes, staged, routes, result)
    }
}

/// After a thread that is known from before could not be bound, the rest does not matter.
proof fn lemma_first_failure(table: TableView, known: Seq<ThreadBinding>, n: int, error: ErrorView)
    requires
        0 <= n <= known.len(),
        bootstrapped(table, known.take(n)) == Err::<TableView, ErrorView>(error),
    ensures
        bootstrapped(table, known) == Err::<TableView, ErrorView>(error),
    decreases known.len() - n,
{
    if n == known.len() {
        assert(known.take(n) =~= known);
    } else {
        assert(known.take(n + 1).drop_last() =~= known.take(n));
        lemma_first_failure(table, known, n + 1, error);
    }
}

/// Whether a request waits for its answer.
pub open spec fn waits(mapper: MapperView, id: Seq<char>) -> bool {
    mapper.approvals.contains_key(id) || mapper.requests.contains_key(id)
}

/// A request waits for its answer from when it was delivered: no request waits more or less for being
/// taken up, whether it is delivered or not, and the delivery changes nothing of what others wait for.
pub proof fn law_request_waits_from_its_delivery(
    state: StateView,
    id: RequestId,
    request: ServerRequest,
    thread: ThreadId,
    fresh: TurnId,
    event: AgentEvent,
)
    ensures
        state.heard(event).mapper == state.mapper,
        waits(state.mapper.requested(id, request, thread, fresh), id.chars()),
        forall|other: Seq<char>|
            other != id.chars() ==> (#[trigger] waits(
                state.mapper.requested(id, request, thread, fresh),
                other,
            ) == waits(state.mapper, other)),
{
}

/// Once nobody is told of new threads, no thread that is seen gets a route, and none is bound.
pub proof fn law_deserted_instance_routes_nothing(
    instance: InstanceView,
    name: Seq<char>,
    fallback: ThreadId,
    fresh: ThreadId,
)
    ensures
        instance.deserted().seen(name, fallback, fresh) == (
            instance.deserted(),
            RouteStepView::Lost,
        ),
        instance.deserted().work == instance.work,
{
    crate::text::lemma_trimmed_is_trim(name);
}

/// Whether a name is bound to a thread.
pub open spec fn has_thread(table: TableView, binding: ThreadBinding) -> bool {
    let native = trimmed(binding.harness_thread_id@);
    &&& table.by_native.contains_key(native)
    &&& table.slots[table.by_native[native]].thread == binding.thread_id
}

proof fn lemma_bootstrap(table: TableView, native: Seq<char>, thread: ThreadId, other: ThreadBinding)
    requires
        table.wf(),
    ensures
        table.bootstrap(native, thread).0.wf(),
        has_thread(table, other) ==> has_thread(table.bootstrap(native, thread).0, other),
        table.bootstrap(native, thread).1 matches Ok(route) ==> {
            let after = table.bootstrap(native, thread).0;
            &&& after.by_native.contains_key(trimmed(native))
            &&& after.slots[after.by_native[trimmed(native)]].thread == route.thread
        },
{
    let after = table.bootstrap(native, thread).0;
    if has_thread(table, other) {
        assert(table.slots.contains_key(table.by_native[trimmed(other.harness_thread_id@)]));
    }
}

proof fn lemma_bootstrapped(table: TableView, known: Seq<ThreadBinding>)
    requires
        table.wf(),
        bootstrapped(table, known) is Ok,
    ensures
        bootstrapped(table, known)->Ok_0.wf(),
        forall|i: int|
            0 <= i < known.len() ==> has_thread(
                bootstrapped(table, known)->Ok_0,
                #[trigger] known[i],
            ),
    decreases known.len(),
{
    if known.len() > 0 {
        let before = bootstrapped(table, known.drop_last())->Ok_0;
        let binding = known.last();
        lemma_bootstrapped(table, known.drop_last());
        assert forall|i: int| 0 <= i < known.len() implies has_thread(
            bootstrapped(table, known)->Ok_0,
            #[trigger] known[i],
        ) by {
            lemma_bootstrap(before, binding.harness_thread_id@, binding.thread_id, known[i]);
            if i < known.len() - 1 {
                assert(known.drop_last()[i] == known[i]);
            }
        }
        lemma_bootstrap(before, binding.harness_thread_id@, binding.thread_id, binding);
    }
}

/// An instance that was made has every thread that was known from before, under its name.
pub proof fn law_known_threads_are_bound(known: Seq<ThreadBinding>, i: int)
    requires
        bootstrapped(TableView::empty(), known) is Ok,
        0 <= i < known.len(),
    ensures
        has_thread(bootstrapped(TableView::empty(), known)->Ok_0, known[i]),
{
    lemma_bootstrapped(TableView::empty(), known);
}

/// Threads that were known from before and have different names on both sides can always be bound, as
/// long as none has a blank name.
pub proof fn law_distinct_threads_can_be_bound(known: Seq<ThreadBinding>)
    requires
        known.len() < u64::MAX - 1,
        forall|i: int|
            0 <= i < known.len() ==> trimmed((#[trigger] known[i]).harness_thread_id@).len() > 0,
        forall|i: int, j: int|
            0 <= i < j < known.len() ==> (#[trigger] known[i]).thread_id != (
            #[trigger] known[j]).thread_id && trimmed(known[i].harness_thread_id@) != trimmed(
                known[j].harness_thread_id@,
            ),
    ensures
        bootstrapped(TableView::empty(), known) is Ok,
{
    lemma_distinct(known);
}

proof fn lemma_distinct(known: Seq<ThreadBinding>)
    requires
        known.len() < u64::MAX - 1,
        forall|i: int|
            0 <= i < known.len() ==> trimmed((#[trigger] known[i]).harness_thread_id@).len() > 0,
        forall|i: int, j: int|
            0 <= i < j < known.len() ==> (#[trigger] known[i]).thread_id != (
            #[trigger] known[j]).thread_id && trimmed(known[i].harness_thread_id@) != trimmed(
                known[j].harness_thread_id@,
            ),
    ensures
        bootstrapped(TableView::empty(), known) matches Ok(table) && {
            &&& table.wf()
            &&& !table.closed
            &&& table.next_slot == known.len() + 1
            &&& table.next_activation == known.len() + 1
            &&& forall|native: Seq<char>| #[trigger]
                table.by_native.contains_key(native) ==> exists|i: int|
                    0 <= i < known.len() && trimmed(#[trigger] known[i].harness_thread_id@) == native
            &&& forall|thread: ThreadId| #[trigger]
                table.by_thread.contains_key(thread) ==> exists|i: int|
                    0 <= i < known.len() && (#[trigger] known[i]).thread_id == thread
        },
    decreases known.len(),
{
    if known.len() > 0 {
        let rest = known.drop_last();
        let binding = known.last();
        lemma_distinct(rest);
        let before = bootstrapped(TableView::empty(), rest)->Ok_0;
        let native = trimmed(binding.harness_thread_id@);
        assert(!before.by_native.contains_key(native)) by {
            if before.by_native.contains_key(native) {
                let i = choose|i: int|
                    0 <= i < rest.len() && trimmed(#[trigger] rest[i].harness_thread_id@) == native;
                assert(known[i] == rest[i]);
                assert(known[known.len() - 1] == binding);
            }
        }
        assert(!before.by_thread.contains_key(binding.thread_id)) by {
            if before.by_thread.contains_key(binding.thread_id) {
                let i = choose|i: int|
                    0 <= i < rest.len() && (#[trigger] rest[i]).thread_id == binding.thread_id;
                assert(known[i] == rest[i]);
                assert(known[known.len() - 1] == binding);
            }
        }
        lemma_bootstrap(before, binding.harness_thread_id@, binding.thread_id, binding);
        let after = before.bootstrap(binding.harness_thread_id@, binding.thread_id).0;
        assert forall|name: Seq<char>| #[trigger] after.by_native.contains_key(name) implies exists|
            i: int,
        |
            0 <= i < known.len() && trimmed(#[trigger] known[i].harness_thread_id@) == name by {
            if name == native {
                assert(known[known.len() - 1] == binding);
            } else {
                let i = choose|i: int|
                    0 <= i < rest.len() && trimmed(#[trigger] rest[i].harness_thread_id@) == name;
                assert(known[i] == rest[i]);
            }
        }
        assert forall|thread: ThreadId| #[trigger] after.by_thread.contains_key(thread) implies exists|
            i: int,
        |
            0 <= i < known.len() && (#[trigger] known[i]).thread_id == thread by {
            if thread == binding.thread_id {
                assert(known[known.len() - 1] == binding);
            } else {
                let i = choose|i: int|
                    0 <= i < rest.len() && (#[trigger] rest[i]).thread_id == thread;
                assert(known[i] == rest[i]);
            }
        }
    }
}

} // verus!
