//! What holds of a mapper of messages over any number of messages.

use vstd::prelude::*;

use crate::event::{AgentEvent, TokenUsage};
use crate::ids::{ItemId, RequestId, ThreadId, TurnId};
use crate::mapper_model::{usage_of, MapperView};
use crate::protocol::{
    CommandExecutionStatus, Notification, ServerRequest, ThreadItem, TokenUsageBreakdown,
};

verus! {

/// What one mapper knows, another does too: the threads, and all turns and items that were named.
pub open spec fn keeps_names(before: MapperView, after: MapperView) -> bool {
    &&& after.threads == before.threads
    &&& forall|native: Seq<char>| #[trigger]
        before.turns.contains_key(native) ==> after.turns.contains_key(native)
            && after.turns[native] == before.turns[native]
    &&& forall|native: Seq<char>| #[trigger]
        before.items.contains_key(native) ==> after.items.contains_key(native)
            && after.items[native] == before.items[native]
}

/// A message of the app-server, with the fresh identifiers for what it names first.
pub enum Message {
    /// A notification.
    Notified(Notification, TurnId, ItemId),
    /// A request.
    Requested(RequestId, ServerRequest, TurnId),
}

/// What is known after messages.
pub open spec fn after(start: MapperView, messages: Seq<(Message, ThreadId)>) -> MapperView
    decreases messages.len(),
{
    if messages.len() == 0 {
        start
    } else {
        let (message, fallback) = messages.last();
        let known = after(start, messages.drop_last());
        match message {
            Message::Notified(notification, turn, item) => known.notified(
                notification,
                fallback,
                (turn, item),
            ),
            Message::Requested(id, request, turn) => known.requested(id, request, fallback, turn),
        }
    }
}

/// A notification leaves every name bound as it was.
pub proof fn law_notification_keeps_names(
    known: MapperView,
    notification: Notification,
    fallback: ThreadId,
    fresh: (TurnId, ItemId),
)
    ensures
        keeps_names(known, known.notified(notification, fallback, fresh)),
        known.notified(notification, fallback, fresh).approvals == known.approvals,
        known.notified(notification, fallback, fresh).requests == known.requests,
{
}

/// A request leaves every name bound as it was.
pub proof fn law_request_keeps_names(
    known: MapperView,
    id: RequestId,
    request: ServerRequest,
    fallback: ThreadId,
    fresh: TurnId,
)
    ensures
        keeps_names(known, known.requested(id, request, fallback, fresh)),
{
}

/// Whatever messages come, a name of a thread, a turn or an item that was bound once stays bound to
/// the same identifier.
pub proof fn law_names_stay_bound(start: MapperView, messages: Seq<(Message, ThreadId)>)
    ensures
        keeps_names(start, after(start, messages)),
    decreases messages.len(),
{
    if messages.len() > 0 {
        law_names_stay_bound(start, messages.drop_last());
        let (message, fallback) = messages.last();
        let known = after(start, messages.drop_last());
        match message {
            Message::Notified(notification, turn, item) => {
                law_notification_keeps_names(known, notification, fallback, (turn, item));
            },
            Message::Requested(id, request, turn) => {
                law_request_keeps_names(known, id, request, fallback, turn);
            },
        }
    }
}

/// All events of a turn carry the same identifier: the one under which the turn was told first,
/// whatever messages came since and whatever fresh identifier is at hand.
pub proof fn law_events_of_a_turn_stay_together(
    known: MapperView,
    native: Seq<char>,
    first: TurnId,
    messages: Seq<(Message, ThreadId)>,
    later: TurnId,
)
    requires
        native.len() > 0,
    ensures
        after(known.with_turn(native, first), messages).turn(native, later) == known.turn(
            native,
            first,
        ),
{
    law_names_stay_bound(known.with_turn(native, first), messages);
    assert(known.with_turn(native, first).turns.contains_key(native));
}

/// All events of an item carry the same identifier.
pub proof fn law_events_of_an_item_stay_together(
    known: MapperView,
    native: Seq<char>,
    first: ItemId,
    messages: Seq<(Message, ThreadId)>,
    later: ItemId,
)
    requires
        native.len() > 0,
    ensures
        after(known.with_item(native, first), messages).item(native, later) == known.item(
            native,
            first,
        ),
{
    law_names_stay_bound(known.with_item(native, first), messages);
    assert(known.with_item(native, first).items.contains_key(native));
}

/// The tokens that were told last of a turn are the tokens of the event that ends it, and they are
/// told once: a second end of the same turn tells of none.
pub proof fn law_tokens_are_told_once(
    known: MapperView,
    usage: Notification,
    ended: Notification,
    fallback: ThreadId,
    fresh: (TurnId, ItemId),
    now_ms: i64,
    event: Option<AgentEvent>,
    again: Option<AgentEvent>,
)
    requires
        usage is ThreadTokenUsageUpdated,
        ended is TurnCompleted,
        usage->ThreadTokenUsageUpdated_turn_id == ended->TurnCompleted_turn_id,
        usage->ThreadTokenUsageUpdated_turn_id@.len() > 0,
        known.notified(usage, fallback, fresh).tells(ended, fallback, fresh, now_ms, event),
        known.notified(usage, fallback, fresh).notified(ended, fallback, fresh).tells(
            ended,
            fallback,
            fresh,
            now_ms,
            again,
        ),
    ensures
        event->Some_0 is TurnCompleted,
        event->Some_0->TurnCompleted_usage == usage_of(usage->last),
        again->Some_0->TurnCompleted_usage == (TokenUsage { input: 0, output: 0, total: 0 }),
{
}

/// A command runs from its start until it is told to have ended, and its process is found in its
/// turn, by its own thread alone.
pub proof fn law_command_runs_until_it_ends(
    known: MapperView,
    start: ThreadItem,
    end: ThreadItem,
    thread: ThreadId,
    turn: Seq<char>,
)
    requires
        start is CommandExecution,
        end is CommandExecution,
        start->CommandExecution_id@ == end->CommandExecution_id@,
        start->CommandExecution_process_id == end->CommandExecution_process_id,
        start->CommandExecution_status == CommandExecutionStatus::InProgress,
        end->CommandExecution_status != CommandExecutionStatus::InProgress,
    ensures
        ({
            let running = known.command_started(start, thread, turn);
            let ended = running.command_ended(end, thread);
            &&& running.running.contains_key(start->CommandExecution_id@)
            &&& !ended.running.contains_key(start->CommandExecution_id@)
            &&& start->CommandExecution_process_id matches Some(process) ==> {
                &&& turn.len() > 0 ==> running.process_turns.contains_key(process@)
                    && running.process_turns[process@] == (thread, turn)
                &&& !ended.process_turns.contains_key(process@)
            }
        }),
{
}

/// A turn that ended late takes nothing from the turn that follows it: what goes on in its thread
/// still does, and so do the turns of all other threads.
pub proof fn law_late_end_leaves_the_next_turn(
    known: MapperView,
    thread: ThreadId,
    ended: Seq<char>,
    next: Seq<char>,
    other: ThreadId,
)
    requires
        ended != next,
    ensures
        known.started(thread, next).ended(thread, ended).active_name(thread) == next,
        other != thread ==> known.ended(thread, ended).active_name(other) == known.active_name(
            other,
        ),
        !known.started(thread, ended).ended(thread, ended).active.contains_key(thread),
{
}

/// A request for approval is answered once: it waits from when it came, under its own name, and no
/// longer once its answer was taken.
pub proof fn law_approval_is_answered_once(
    known: MapperView,
    id: RequestId,
    request: ServerRequest,
    fallback: ThreadId,
    fresh: TurnId,
)
    requires
        known.approval_of(request, fallback) is Some,
    ensures
        ({
            let asked = known.requested(id, request, fallback, fresh);
            &&& asked.approvals.contains_key(id.chars())
            &&& asked.approvals[id.chars()].request_id == id
            &&& asked.requests == known.requests
            &&& !asked.approvals.remove(id.chars()).contains_key(id.chars())
        }),
{
}

/// Another request waits until it is answered, and is handed back as it came.
pub proof fn law_request_waits_until_it_is_answered(
    known: MapperView,
    id: RequestId,
    request: ServerRequest,
    fallback: ThreadId,
    fresh: TurnId,
)
    requires
        known.approval_of(request, fallback) is None,
    ensures
        ({
            let asked = known.requested(id, request, fallback, fresh);
            &&& asked.requests.contains_key(id.chars())
            &&& asked.requests[id.chars()].request_id == id
            &&& asked.approvals == known.approvals
            &&& !asked.requests.remove(id.chars()).contains_key(id.chars())
        }),
{
}

/// A name that is empty or not known stands for the fallback thread, and a bound name does not.
pub proof fn law_fallback_is_for_unknown_names(
    known: MapperView,
    native: Seq<char>,
    thread: ThreadId,
    fallback: ThreadId,
)
    ensures
        known.thread(Seq::empty(), fallback) == fallback,
        !known.threads.contains_key(native) ==> known.thread(native, fallback) == fallback,
        native.len() > 0 ==> (MapperView {
            threads: known.threads.insert(native, thread),
            ..known
        }).thread(native, fallback) == thread,
{
}

/// Counts below zero stand for no tokens, and others for themselves.
pub proof fn law_tokens_are_never_negative(counts: TokenUsageBreakdown)
    ensures
        counts.input_tokens <= 0 ==> usage_of(counts).input == 0,
        counts.input_tokens >= 0 ==> usage_of(counts).input == counts.input_tokens,
        counts.output_tokens <= 0 ==> usage_of(counts).output == 0,
        counts.output_tokens >= 0 ==> usage_of(counts).output == counts.output_tokens,
        counts.total_tokens <= 0 ==> usage_of(counts).total == 0,
        counts.total_tokens >= 0 ==> usage_of(counts).total == counts.total_tokens,
{
}

/// An answer that could not be written can be tried again: when the request is put back, it waits as
/// it did before.
pub proof fn law_unwritten_answer_can_be_tried_again(known: MapperView, id: Seq<char>)
    ensures
        known.approvals.contains_key(id) ==> (MapperView {
            approvals: known.approvals.remove(id).insert(id, known.approvals[id]),
            ..known
        }) == known,
        known.requests.contains_key(id) ==> (MapperView {
            requests: known.requests.remove(id).insert(id, known.requests[id]),
            ..known
        }) == known,
{
    if known.approvals.contains_key(id) {
        assert(known.approvals.remove(id).insert(id, known.approvals[id]) =~= known.approvals);
    }
    if known.requests.contains_key(id) {
        assert(known.requests.remove(id).insert(id, known.requests[id]) =~= known.requests);
    }
}

/// Of a retired thread nothing goes on and no request waits, and nothing of another thread is lost.
pub proof fn law_retired_thread_leaves_nothing(
    known: MapperView,
    thread: ThreadId,
    other: ThreadId,
)
    requires
        other != thread,
    ensures
        !known.retired(thread).active.contains_key(thread),
        !known.retired(thread).running.contains_value(thread),
        known.retired(thread).approvals_of(thread) == Set::<Seq<char>>::empty(),
        known.retired(thread).requests_of(thread) == Set::<Seq<char>>::empty(),
        known.retired(thread).approvals_of(other) == known.approvals_of(other),
        known.retired(thread).requests_of(other) == known.requests_of(other),
        known.retired(thread).active_name(other) == known.active_name(other),
        keeps_names(known, known.retired(thread)),
{
    let left = known.retired(thread);
    assert(left.approvals_of(thread) =~= Set::<Seq<char>>::empty());
    assert(left.requests_of(thread) =~= Set::<Seq<char>>::empty());
    assert(left.approvals_of(other) =~= known.approvals_of(other));
    assert(left.requests_of(other) =~= known.requests_of(other));
}

} // verus!
