//! What is noted of turns that go on, of compactions and of what a stream brings.

use vstd::prelude::*;

use crate::attaching::{attach, claimed_handle, deleting, restores_after, DeleteStep};
use crate::background::{
    delivers, failure_event, frame_name, noted, stop_of, Delivery, StateView,
    StreamEvent,
};
use crate::discovery::{staged, AdmissionView, SendOutcome};
use crate::error::HarnessError;
use crate::event::{
    thread_of, turn_of, AgentEvent, Item, ItemPayload, TurnStatusKind,
};
use crate::handle::{HarnessNotice, ThreadHandle};
use crate::ids::{ThreadId, TurnId};
use crate::instance::{stop_event, InstanceView, RouteStepView};
use crate::json::{member, Json, JsonTree};
use crate::opening::{OpenThreadOptions, OpenedNativeThread};
use crate::protocol::{Notification, ServerMessage};
use crate::request_laws::law_thread_call_names_the_thread;
use crate::route_laws::{
    law_discovered_thread_is_announced_as_itself, law_message_finds_the_named_route,
    law_route_leads_to_its_thread,
};
use crate::route_model::{RouteView, TableView, TicketView};
use crate::text::{begins_with, is_blank, occurs_at, occurs_in, trimmed};
use crate::turn_error::error_chars;
use crate::turns::{
    compaction_line, compaction_name, compaction_took, compactions_after, completed, elapsed,
    elapsed_millis, failed_turn,
    is_current, is_slow, says_compacted, told_window, turn_line, ActiveTurn, PendingCompaction,
    PendingContextRestore,
};

verus! {

/// Time that has passed is the time since, and none where the clock went back. A millisecond is a
/// million nanoseconds, and a part of one does not count.
pub proof fn law_time_passes_forward(started_at: u64, now: u64)
    ensures
        now >= started_at ==> elapsed(started_at, now) == now - started_at,
        now < started_at ==> elapsed(started_at, now) == 0,
        elapsed_millis(started_at, now) * 1_000_000 <= elapsed(started_at, now),
        elapsed(started_at, now) < (elapsed_millis(started_at, now) + 1) * 1_000_000,
{
}

/// A turn is slow when fifteen seconds have passed without a message, and is told of only once.
pub proof fn law_turn_is_slow_after_fifteen_seconds(active: ActiveTurn, now: u64)
    ensures
        is_slow(active, now) <==> (!active.saw_server_message && !active.warned_no_server_message
            && now - active.started_at >= 15_000_000_000),
{
}

/// An event is about the accepted turn where it tells that turn, or none.
pub proof fn law_event_is_about_the_accepted_turn(active: ActiveTurn, event: AgentEvent)
    ensures
        turn_of(event) is None ==> is_current(active, event),
        turn_of(event) matches Some(turn) ==> (is_current(active, event) <==> turn
            == active.acknowledged_turn),
{
}

/// What goes on in a thread is over when its accepted turn is told to have ended there, and only
/// then.
pub proof fn law_accepted_turn_ends_once(active: Map<ThreadId, ActiveTurn>, event: AgentEvent)
    ensures
        event matches AgentEvent::TurnCompleted { thread, turn, .. } ==> {
            &&& active.contains_key(thread) && active[thread].acknowledged_turn == turn
                ==> completed(active, event) == Some((thread, turn))
            &&& !active.contains_key(thread) || active[thread].acknowledged_turn != turn
                ==> completed(active, event) is None
        },
        !(event is TurnCompleted) ==> completed(active, event) is None,
{
}

/// An event makes its thread heard, and changes which turn goes on there only where the accepted
/// turn starts. All else that is noted of the turn stays.
pub proof fn law_event_is_noted(active: ActiveTurn, event: AgentEvent)
    ensures
        noted(active, event).saw_server_message,
        noted(active, event).thread == active.thread,
        noted(active, event).upload_dir == active.upload_dir,
        noted(active, event).warned_no_server_message == active.warned_no_server_message,
        event matches AgentEvent::TurnStarted { turn, .. } ==> (turn == active.acknowledged_turn
            ==> noted(active, event).active_turn == Some(turn)),
        event matches AgentEvent::TurnStarted { turn, .. } ==> (turn != active.acknowledged_turn
            ==> noted(active, event).active_turn == active.active_turn),
        !(event is TurnStarted) ==> noted(active, event).active_turn == active.active_turn,
{
}

/// The events that belong to a compaction are the start and the end of its turn and the item that
/// says so. The end of the turn ends it, and so does the item where no turn started; a start is
/// kept in mind. No other event touches it.
pub proof fn law_compaction_is_followed(
    pending: Map<ThreadId, PendingCompaction>,
    thread: ThreadId,
    event: AgentEvent,
    now: u64,
)
    requires
        pending.contains_key(thread),
    ensures
        ({
            let after = compactions_after(pending, thread, event);
            let took = compaction_took(pending, thread, event, now);
            &&& event is TurnCompleted ==> !after.contains_key(thread) && took == Some(
                elapsed_millis(pending[thread].started_at, now),
            )
            &&& event is TurnStarted ==> after.contains_key(thread)
                && after[thread].saw_turn_started && after[thread].started_at
                == pending[thread].started_at && took is None
            &&& event matches AgentEvent::ItemCompleted { item, .. } ==> {
                &&& says_compacted(item) && !pending[thread].saw_turn_started
                    ==> !after.contains_key(thread) && took == Some(
                    elapsed_millis(pending[thread].started_at, now),
                )
                &&& !says_compacted(item) || pending[thread].saw_turn_started
                    ==> after.contains_key(thread) && after[thread] == pending[thread]
                    && took is None
            }
            &&& !(event is TurnCompleted) && !(event is TurnStarted) && !(event is ItemCompleted)
                ==> after == pending && took is None
        }),
{
    let after = compactions_after(pending, thread, event);
    if event is ItemCompleted && after.contains_key(thread) {
        assert(after =~= pending.insert(thread, pending[thread]) || after =~= pending);
    }
}

/// An item says that the context was compacted by its title alone.
pub proof fn law_item_says_so_by_its_title(item: Item)
    ensures
        says_compacted(item) <==> (item.payload matches ItemPayload::Activity { title, .. } && title@
            == "Context compacted"@),
{
}

/// How much a model can hold is told by the tokens of a named turn, where it is a number above zero
/// that thirty-two bits can hold; it is told as it came, for the thread that is named.
pub proof fn law_window_is_told_as_it_came(message: ServerMessage)
    ensures
        message matches ServerMessage::Notification(
            Notification::ThreadTokenUsageUpdated {
                thread_id,
                turn_id,
                model_context_window: Some(tokens),
                ..
            },
        ) ==> {
            &&& turn_id@.len() > 0 && 0 < tokens <= 0xffff_ffff ==> told_window(message) == Some(
                (thread_id@, tokens as u32),
            )
            &&& turn_id@.len() == 0 || tokens <= 0 || tokens > 0xffff_ffff ==> told_window(
                message,
            ) is None
        },
        message is Request ==> told_window(message) is None,
{
}

/// A turn that failed here is told to have failed, in its own thread, with why and without tokens.
pub proof fn law_failed_turn_is_told_as_one(thread: ThreadId, turn: TurnId, message: String)
    ensures
        failed_turn(thread, turn, message) matches AgentEvent::TurnCompleted {
            thread: t,
            turn: u,
            usage,
            status,
        } && t == thread && u == turn && status.kind == TurnStatusKind::Failed && status.message
            == Some(message) && usage.input == 0 && usage.output == 0 && usage.total == 0,
{
}

/// A failure that ends a turn is told as the end of the turn that goes on, unless the event itself
/// ends it; where none goes on, nothing follows.
pub proof fn law_fatal_failure_ends_the_turn(
    thread: ThreadId,
    completed_turn: Option<TurnId>,
    fatal: Option<(Option<TurnId>, String)>,
)
    ensures
        failure_event(thread, completed_turn, fatal) is Some <==> (completed_turn is None && (fatal
            matches Some((turn, _)) && turn is Some)),
        failure_event(thread, completed_turn, fatal) matches Some(event) ==> {
            &&& event matches AgentEvent::TurnCompleted { thread: t, turn, status, .. }
            &&& t == thread
            &&& fatal->Some_0.0 == Some(turn)
            &&& status.kind == TurnStatusKind::Failed
            &&& status.message == Some(fatal->Some_0.1)
        },
{
}

/// An event is delivered to the thread that it tells. It ends the accepted turn of that thread or
/// no turn.
pub proof fn law_event_is_delivered_to_its_thread(
    state: StateView,
    notification: Notification,
    now: u64,
    delivery: Delivery,
)
    requires
        delivers(state, notification, now, delivery),
    ensures
        delivery.thread == thread_of(delivery.event),
        delivery.completed_turn matches Some(turn) ==> {
            &&& delivery.event is TurnCompleted
            &&& turn_of(delivery.event) == Some(turn)
            &&& state.active.contains_key(delivery.thread)
            &&& state.active[delivery.thread].acknowledged_turn == turn
        },
        delivery.fatal matches Some((turn, message)) ==> {
            &&& notification matches Notification::Error { error, will_retry, .. }
            &&& !will_retry
            &&& message@ == error_chars(error, false)
            &&& state.active.contains_key(delivery.thread)
            &&& !(delivery.event is TurnStarted) ==> turn
                == state.active[delivery.thread].active_turn
        },
        delivery.compaction_ms is Some ==> state.compactions.contains_key(delivery.thread),
{
}

/// A message goes by the thread that it names. Blank names are none, and white space around a name
/// does not count.
pub proof fn law_frame_goes_by_its_thread(message: ServerMessage, envelope: Json)
    ensures
        frame_name(message, envelope) matches Some(name) ==> !is_blank(name) && trimmed(name)
            == name,
        message matches ServerMessage::Request { request, .. } ==> {
            &&& crate::scope::request_scope(request).0 is None ==> frame_name(
                message,
                envelope,
            ) is None
            &&& crate::scope::request_scope(request).0 matches Some(name) ==> (is_blank(name)
                <==> frame_name(message, envelope) is None)
            &&& crate::scope::request_scope(request).0 matches Some(name) ==> (!is_blank(name)
                ==> frame_name(message, envelope) == Some(trimmed(name)))
        },
{
    let named = match message {
        ServerMessage::Notification(_) => crate::scope::envelope_thread(envelope@),
        ServerMessage::Request { request, .. } => crate::scope::request_scope(request).0,
    };
    match named {
        Some(name) => {
            crate::text::lemma_trimmed_is_trim(name);
        },
        None => {},
    }
}

/// When the stream stops, what goes on is told why: that it ended, or how it failed.
pub proof fn law_stop_tells_why(event: StreamEvent)
    ensures
        event is Ended ==> stop_of(event) == Some("Codex stream ended before turn completion"@),
        event matches StreamEvent::Failed(error) ==> stop_of(event) == Some(
            "Codex stream failed before turn completion: "@ + error@,
        ),
        event matches StreamEvent::Handled(Err(error)) ==> stop_of(event) == Some(
            "Codex stream failed before turn completion: "@ + error@,
        ),
{
}

/// A turn that a stop ends is told to have failed, in its own thread and with why; a thread whose
/// turn never started is told the failure alone.
pub proof fn law_stop_is_told_to_the_thread(
    finished: (crate::background::Cleanup, Option<TurnId>),
    words: String,
)
    ensures
        thread_of(stop_event(finished, words)) == finished.0.thread.thread,
        finished.1 matches Some(turn) ==> {
            &&& stop_event(finished, words) matches AgentEvent::TurnCompleted {
                turn: u,
                status,
                ..
            }
            &&& u == turn
            &&& status.kind == TurnStatusKind::Failed
            &&& status.message == Some(words)
        },
        finished.1 is None ==> {
            &&& stop_event(finished, words) matches AgentEvent::Error { turn, error, .. }
            &&& turn is None
            &&& error == HarnessError::Transport(words)
        },
{
}

/// A resumed thread waits for its context under its own name, with its model, unless it had to be
/// started over. No other thread's waiting is touched.
pub proof fn law_resumed_thread_waits_for_its_context(
    restores: Map<Seq<char>, PendingContextRestore>,
    opts: OpenThreadOptions,
    opened: OpenedNativeThread,
    thread: ThreadId,
    warning: Option<HarnessNotice>,
    other: Seq<char>,
)
    ensures
        ({
            let after = restores_after(restores, opts, opened, thread, warning);
            &&& opts.resume is Some && warning is None && opened.model is Some ==> {
                &&& after.contains_key(opened.harness_thread_id@)
                &&& after[opened.harness_thread_id@].thread == thread
                &&& Some(after[opened.harness_thread_id@].model) == opened.model
            }
            &&& opts.resume is None || warning is Some || opened.model is None ==> after == restores
            &&& other != opened.harness_thread_id@ ==> (after.contains_key(other)
                <==> restores.contains_key(other))
            &&& other != opened.harness_thread_id@ && restores.contains_key(other) ==> after[other]
                == restores[other]
        }),
{
}

/// A deletion asks the app-server to delete that very thread, once it is given up here; a thread in
/// which a turn goes on is refused and kept.
pub proof fn law_deletion_asks_about_its_thread(
    before: InstanceView,
    thread: ThreadHandle,
    after: InstanceView,
    step: DeleteStep,
)
    requires
        deleting(before, thread, after, step),
    ensures
        before.work.active.contains_key(thread.thread) <==> step is Busy,
        step is Busy ==> after == before,
        step matches DeleteStep::Ask(call) ==> {
            &&& call@.method == "thread/delete"@
            &&& member(call@.params, "threadId"@) == Some(
                JsonTree::Text(thread.harness_thread_id@),
            )
            &&& !after.work.compactions.contains_key(thread.thread)
            &&& !after.work.restores.contains_key(thread.harness_thread_id@)
            &&& !after.work.mapper.active.contains_key(thread.thread)
            &&& after.work.active == before.work.active
        },
        step is Unknown ==> after.work == before.work,
{
    law_thread_call_names_the_thread(
        "thread/delete"@,
        thread.harness_thread_id@,
        Seq::empty(),
    );
}

/// A claimed thread is handed out as the thread that was claimed: its name, where it works and the
/// thread it came from. Nothing else is known of it.
pub proof fn law_claimed_handle_is_of_the_thread(
    thread: ThreadId,
    native: String,
    root: String,
    parent: Option<String>,
)
    ensures
        ({
            let handle = claimed_handle(thread, native, root, parent);
            &&& handle.thread == thread
            &&& handle.harness_thread_id@ == native@
            &&& handle.workspace_root@ == root@
            &&& handle.parent_harness_thread_id == parent
            &&& handle.warning is None
            &&& handle.resumed_model is None
            &&& handle.agent_name is None
        }),
{
}

/// A message is routed to the thread that it names. A blank name leads nowhere, and once nothing is
/// announced any more, nothing changes.
pub proof fn law_message_is_routed_to_its_thread(
    instance: InstanceView,
    name: Seq<char>,
    fallback: ThreadId,
    fresh: ThreadId,
)
    requires
        instance.routes.wf(),
    ensures
        ({
            let (after, step) = instance.seen(name, fallback, fresh);
            &&& is_blank(name) ==> after == instance && step is Lost
            &&& !instance.admission.open ==> after == instance && !(step is Announce)
            &&& after.work == instance.work
            &&& after.admission == instance.admission
            &&& step matches RouteStepView::Known(route) ==> {
                &&& route.native == trimmed(name)
                &&& instance.routes.by_native.contains_key(route.native) ==> route.thread
                    == instance.routes.slots[instance.routes.by_native[route.native]].thread
            }
            &&& step matches RouteStepView::Announce { route, ticket } ==> {
                &&& route.native == trimmed(name)
                &&& ticket.slot == route.slot
                &&& ticket.thread == route.thread
                &&& ticket.native == route.native
                &&& !instance.routes.by_native.contains_key(route.native) ==> route.thread == fresh
            }
        }),
{
    if !is_blank(name) {
        crate::text::lemma_trimmed_is_trim(name);
        if instance.admission.open {
            law_discovered_thread_is_announced_as_itself(instance.routes, trimmed(name), fresh);
            law_route_leads_to_its_thread(instance.routes, trimmed(name), fresh);
        } else {
            law_message_finds_the_named_route(instance.routes, trimmed(name), fallback);
        }
    }
}

/// A thread that was announced is heard on its route. Where nobody could take the announcement yet,
/// it waits; where nobody ever will, nothing is routed any more.
pub proof fn law_announcement_is_taken_or_waits(
    instance: InstanceView,
    route: RouteView,
    ticket: TicketView,
    sent: SendOutcome,
)
    ensures
        sent is Sent ==> instance.told(route, ticket, sent) == (instance, Some(route)),
        sent is Full ==> {
            let (after, heard) = instance.told(route, ticket, sent);
            &&& heard == Some(route)
            &&& instance.routes.ticket_is_out(ticket) ==> after.routes.is_pending(ticket.slot)
            &&& !instance.routes.ticket_is_out(ticket) ==> after.routes == instance.routes
            &&& after.work == instance.work
        },
        sent is Closed ==> {
            let (after, heard) = instance.told(route, ticket, sent);
            &&& heard is None
            &&& after.routes.closed
            &&& !after.admission.open
            &&& after.work == instance.work
        },
{
}

/// The stream is listened to as long as a command runs, a turn goes on, a compaction waits or a
/// resumed thread waits for its context.
pub proof fn law_stream_is_listened_to_while_something_goes_on(instance: InstanceView)
    ensures
        instance.listens() <==> (!(instance.work.mapper.running =~= Map::empty())
            || !(instance.work.active =~= Map::empty()) || !(instance.work.compactions
            =~= Map::empty()) || !(instance.work.restores =~= Map::empty())),
{
}

/// A thread that was gone on with is never thrown away where it cannot be attached. One that was
/// started over is, unless it belongs to another thread; and a new one is where its thread is bound
/// already.
pub proof fn law_only_new_threads_are_thrown_away(
    table: TableView,
    resume: Option<Seq<char>>,
    started_over: bool,
    native: Seq<char>,
    thread: ThreadId,
    handle: ThreadHandle,
)
    ensures
        attach(table, resume, started_over, native, thread, handle).1 matches Err(failure) ==> {
            &&& resume is Some && !started_over ==> !failure.discard
            &&& resume matches Some(expected) ==> (started_over ==> (failure.discard
                <==> table.replacement_owner(expected, native) is None))
            &&& resume is None ==> (failure.discard ==> table.by_thread.contains_key(thread)
                && !table.by_native.contains_key(trimmed(native)))
        },
        attach(table, resume, started_over, native, thread, handle).1 matches Ok(held)
            ==> held.handle == handle,
{
}

/// The events of a compaction go by names of their own, and no other event has one.
pub proof fn law_compaction_events_have_names(event: AgentEvent)
    ensures
        event is TurnStarted ==> compaction_name(event) == Some("turn_started"@),
        event is TurnCompleted ==> compaction_name(event) == Some("turn_completed"@),
        event matches AgentEvent::ItemCompleted { item, .. } ==> {
            &&& says_compacted(item) ==> compaction_name(event) == Some("context_compacted_item"@)
            &&& !says_compacted(item) ==> compaction_name(event) is None
        },
        !(event is TurnStarted) && !(event is TurnCompleted) && !(event is ItemCompleted)
            ==> compaction_name(event) is None,
{
}

/// What is logged of a turn and of a compaction names the thread first, and then what is known.
pub proof fn law_log_lines_name_their_thread(
    active: ActiveTurn,
    thread: ThreadId,
    pending: PendingCompaction,
    now: u64,
)
    ensures
        begins_with(turn_line(active), "thread_id="@ + active.thread.thread.chars()),
        occurs_in(turn_line(active), ",harness_thread_id="@ + active.thread.harness_thread_id@),
        begins_with(compaction_line(thread, pending, now), thread.chars()),
{
    let head = "thread_id="@ + active.thread.thread.chars();
    let name = ",harness_thread_id="@ + active.thread.harness_thread_id@;
    let line = turn_line(active);
    assert(line.subrange(0, head.len() as int) =~= head);
    assert(occurs_at(line, head, 0));
    assert(line.subrange(head.len() as int, head.len() + name.len() as int) =~= name);
    assert(occurs_at(line, name, head.len() as int));
    let log = compaction_line(thread, pending, now);
    assert(log.subrange(0, thread.chars().len() as int) =~= thread.chars());
    assert(occurs_at(log, thread.chars(), 0));
}

/// What waits to be announced is a thread whose announcement waits, told as itself, and only one at
/// a time. Where none waits, nothing changes.
pub proof fn law_waiting_announcement_is_of_its_thread(
    before: AdmissionView,
    routes: TableView,
    after: AdmissionView,
    routes_after: TableView,
    result: Result<(), HarnessError>,
    slot: u64,
)
    requires
        staged(before, routes, after, routes_after, result),
        result is Ok,
    ensures
        after.open == before.open,
        after.failed == before.failed,
        routes.is_pending(slot) ==> after.pending is Some,
        after.pending is None ==> routes_after == routes,
        after.pending matches Some(ticket) ==> {
            &&& routes.is_pending(ticket.slot)
            &&& ticket.thread == routes.slots[ticket.slot].thread
            &&& ticket.native == routes.slots[ticket.slot].native
            &&& routes_after.ticket_is_out(ticket)
            &&& !routes_after.is_pending(ticket.slot)
            &&& slot != ticket.slot ==> (routes_after.is_pending(slot) <==> routes.is_pending(slot))
        },
{
}

} // verus!
