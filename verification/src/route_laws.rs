//! What holds of routes whatever operations came before.

use vstd::prelude::*;

use crate::error::ErrorView;
use crate::handle::ThreadHandle;
use crate::ids::ThreadId;
use crate::route_model::{
    already_attached, bound_elsewhere, opened_by, shut, stale, tombstoned, AttachmentView, Custody,
    DiscoveryState, RouteView, SlotState, TableView, TicketView,
};
use crate::text::trimmed;

verus! {

/// Names at the app-server and threads on this side are bound one to one: two names that lead to
/// the same thread are the same name, and what a name leads to leads back to the name.
pub proof fn law_names_are_bound_one_to_one(t: TableView, a: Seq<char>, b: Seq<char>)
    requires
        t.wf(),
        t.by_native.contains_key(a),
        t.by_native.contains_key(b),
    ensures
        t.slots[t.by_native[a]].thread == t.slots[t.by_native[b]].thread ==> a == b,
        t.by_thread[t.slots[t.by_native[a]].thread] == t.by_native[a],
{
}

/// A bound name stays with its thread: binding it again, with the same or any unbound thread,
/// changes nothing and leads to the same route.
pub proof fn law_bound_name_is_authoritative(t: TableView, native: Seq<char>, proposed: ThreadId)
    requires
        t.wf(),
        !t.closed,
        trimmed(native).len() > 0,
        t.by_native.contains_key(trimmed(native)),
        !t.by_thread.contains_key(proposed) || t.by_thread[proposed] == t.by_native[trimmed(native)],
    ensures
        t.bootstrap(native, proposed) == (t, t.active_route(t.by_native[trimmed(native)])),
{
}

/// A binding that would break the one-to-one relation is refused and changes nothing.
pub proof fn law_conflicting_binding_changes_nothing(
    t: TableView,
    native: Seq<char>,
    proposed: ThreadId,
)
    requires
        t.wf(),
        !t.closed,
        trimmed(native).len() > 0,
        t.by_thread.contains_key(proposed),
        !t.by_native.contains_key(trimmed(native)) || t.by_native[trimmed(native)]
            != t.by_thread[proposed],
    ensures
        t.bootstrap(native, proposed) == (
            t,
            Err::<RouteView, ErrorView>(bound_elsewhere(proposed)),
        ),
{
}

/// A new name that is taken, or a thread that has another name, is told before anything changes.
pub proof fn law_fresh_conflict_changes_nothing(
    t: TableView,
    native: Seq<char>,
    proposed: ThreadId,
    handle: ThreadHandle,
)
    requires
        t.fresh_conflict(trimmed(native), proposed) is Some,
    ensures
        t.claim_fresh(native, proposed, handle).0 == t,
{
}

/// Once a pair of names is tombstoned, every permission on its slot is stale: nothing is
/// delivered, and no ticket, attachment or owner is good.
pub proof fn law_tombstone_invalidates(
    t: TableView,
    native: Seq<char>,
    thread: ThreadId,
    route: RouteView,
    ticket: TicketView,
    held: AttachmentView,
)
    requires
        t.wf(),
        t.tombstone(native, thread).1 is Ok,
        route.slot == t.by_native[trimmed(native)],
        ticket.slot == route.slot,
        held.slot == route.slot,
    ensures
        ({
            let after = t.tombstone(native, thread).0;
            &&& after.deliver(route, route.thread) == Err::<u64, ErrorView>(stale())
            &&& !after.ticket_is_out(ticket)
            &&& !after.is_attaching(held.slot, held.activation, held.claim)
            &&& !after.is_owned(held.slot, held.activation, held.claim)
        }),
{
}

/// Tombstoning again is the same as tombstoning once.
pub proof fn law_tombstone_is_idempotent(t: TableView, native: Seq<char>, thread: ThreadId)
    requires
        t.wf(),
        t.tombstone(native, thread).1 is Ok,
    ensures
        t.tombstone(native, thread).0.tombstone(native, thread) == (
            t.tombstone(native, thread).0,
            Ok::<(), ErrorView>(()),
        ),
{
    let once = t.tombstone(native, thread).0;
    let slot = t.by_native[trimmed(native)];
    assert(once.with_state(slot, SlotState::Tombstoned).slots =~= once.slots);
}

/// Only an exact reopening brings a tombstoned route back: binding, announcing and attaching as a
/// parent are refused and leave it tombstoned, and so does reattaching under another thread.
pub proof fn law_tombstone_outlasts_other_claims(
    t: TableView,
    native: Seq<char>,
    thread: ThreadId,
    proposed: ThreadId,
    handle: ThreadHandle,
)
    requires
        t.wf(),
        !t.closed,
        trimmed(native).len() > 0,
        t.exact_slot(trimmed(native), thread) is Ok,
        t.slots[t.by_native[trimmed(native)]].state is Tombstoned,
    ensures
        ({
            let slot = t.by_native[trimmed(native)];
            &&& t.bootstrap(native, proposed).1 is Err
            &&& t.bootstrap(native, proposed).0 == t
            &&& t.resolve(native, proposed) == Err::<RouteView, ErrorView>(
                tombstoned(trimmed(native)),
            )
            &&& t.discover(native, proposed).1 is Err
            &&& t.discover(native, proposed).0 == t
            &&& t.claim_parent(native, proposed, handle).1 is Err
            &&& t.claim_parent(native, proposed, handle).0.slots == t.slots
            &&& proposed != thread ==> t.reattach(native, proposed, handle).1 is Err
            &&& proposed != thread ==> t.reattach(native, proposed, handle).0 == t
        }),
{
    assert(t.slots[t.by_thread[thread]].thread == thread);
    if t.by_thread.contains_key(proposed) {
        assert(t.slots[t.by_thread[proposed]].thread == proposed);
    }
}

/// An exact reopening of a tombstoned route starts an activation that was never used, so that
/// every permission from before stays stale.
pub proof fn law_reopening_is_a_new_activation(
    t: TableView,
    native: Seq<char>,
    thread: ThreadId,
    handle: ThreadHandle,
    earlier: RouteView,
    ticket: TicketView,
    held: AttachmentView,
)
    requires
        t.wf(),
        t.slots[t.by_native[trimmed(native)]].state is Tombstoned,
        t.reattach(native, thread, handle).1 is Ok,
        earlier.slot == t.by_native[trimmed(native)],
        earlier.activation < t.next_activation,
        ticket.slot == earlier.slot,
        ticket.activation < t.next_activation,
        held.slot == earlier.slot,
        held.activation < t.next_activation,
    ensures
        ({
            let (after, attachment) = t.reattach(native, thread, handle);
            &&& attachment->Ok_0.activation == t.next_activation
            &&& attachment->Ok_0.stream == Some(t.next_activation)
            &&& after.is_attaching(
                earlier.slot,
                attachment->Ok_0.activation,
                attachment->Ok_0.claim,
            )
            &&& after.deliver(earlier, earlier.thread) == Err::<u64, ErrorView>(stale())
            &&& !after.ticket_is_out(ticket)
            &&& !after.is_attaching(held.slot, held.activation, held.claim)
            &&& !after.is_owned(held.slot, held.activation, held.claim)
        }),
{
}

/// Once the authority is shut down, nothing can be bound or attached, and every permission is
/// stale.
pub proof fn law_shut_authority_is_inert(
    t: TableView,
    native: Seq<char>,
    other: Seq<char>,
    thread: ThreadId,
    handle: ThreadHandle,
    route: RouteView,
    ticket: TicketView,
    held: AttachmentView,
)
    requires
        trimmed(native).len() > 0,
        trimmed(other).len() > 0,
    ensures
        ({
            let t = t.shut_down();
            &&& t.bootstrap(native, thread) == (t, Err::<RouteView, ErrorView>(shut()))
            &&& t.discover(native, thread).0 == t
            &&& t.discover(native, thread).1 is Err
            &&& t.claim_parent(native, thread, handle) == (
                t,
                Err::<AttachmentView, ErrorView>(shut()),
            )
            &&& t.claim_fresh(native, thread, handle).0 == t
            &&& t.claim_fresh(native, thread, handle).1 is Err
            &&& t.reattach(native, thread, handle) == (t, Err::<AttachmentView, ErrorView>(shut()))
            &&& t.resume(native, thread, handle) == (t, Err::<AttachmentView, ErrorView>(shut()))
            &&& t.replace(native, other, thread, handle) == (
                t,
                Err::<AttachmentView, ErrorView>(shut()),
            )
            &&& t.resolve(native, thread) is Err
            &&& t.tombstone(native, thread).1 is Err
            &&& t.deliver(route, thread) is Err
            &&& !t.ticket_is_out(ticket)
            &&& !t.is_attaching(held.slot, held.activation, held.claim)
            &&& !t.is_owned(held.slot, held.activation, held.claim)
        }),
{
}

/// At most one ticket of a slot is good.
pub proof fn law_one_ticket_per_route(t: TableView, a: TicketView, b: TicketView)
    requires
        t.ticket_is_out(a),
        t.ticket_is_out(b),
        a.slot == b.slot,
    ensures
        a.claim == b.claim,
        a.activation == b.activation,
{
}

/// While a ticket is out, or its announcement waits, or somebody holds the receiving end, traffic
/// on the route announces nothing.
pub proof fn law_no_second_announcement(t: TableView, slot: u64)
    requires
        t.slots.contains_key(slot),
        t.slots[slot].state matches SlotState::Active(active) && !(active.custody matches
            Custody::Unattached { discovery: DiscoveryState::Idle, .. }),
        t.next_claim < u64::MAX,
    ensures
        t.queue_idle(slot).1 == Ok::<Option<TicketView>, ErrorView>(None),
        t.queue_idle(slot).0.slots == t.slots,
{
}

/// A ticket that is handed out is good, and giving it back leaves the route as it was, ready to
/// be announced again.
pub proof fn law_returned_ticket_restores_the_route(t: TableView, slot: u64, ticket: TicketView)
    requires
        t.queue_idle(slot).1 == Ok::<Option<TicketView>, ErrorView>(Some(ticket)),
    ensures
        t.queue_idle(slot).0.ticket_is_out(ticket),
        t.queue_idle(slot).0.announced(ticket.slot, DiscoveryState::Idle).slots == t.slots,
{
    let out = t.queue_idle(slot).0;
    assert(out.announced(slot, DiscoveryState::Idle).slots =~= t.slots);
}

/// While the receiving end of a route is held, nobody else can attach to it, and delivery goes on
/// as before.
pub proof fn law_custody_is_exclusive_and_silent(
    t: TableView,
    slot: u64,
    handle: ThreadHandle,
    other: ThreadHandle,
    route: RouteView,
    event_thread: ThreadId,
)
    requires
        t.claim_attachment(slot, handle).1 is Ok,
        t.claim_attachment(slot, handle).0.next_claim < u64::MAX,
        route.slot == slot,
    ensures
        ({
            let (held, attachment) = t.claim_attachment(slot, handle);
            let owned = held.with_custody(slot, Custody::Owned(attachment->Ok_0.claim));
            &&& held.is_attaching(
                slot,
                attachment->Ok_0.activation,
                attachment->Ok_0.claim,
            )
            &&& held.claim_attachment(slot, other).1 == Err::<AttachmentView, ErrorView>(
                already_attached(t.slots[slot].native),
            )
            &&& owned.claim_attachment(slot, other).1 == Err::<AttachmentView, ErrorView>(
                already_attached(t.slots[slot].native),
            )
            &&& held.deliver(route, event_thread) == t.deliver(route, event_thread)
            &&& owned.deliver(route, event_thread) == t.deliver(route, event_thread)
        }),
{
}

/// An attachment that is given back, committed or not, returns the very receiving end that it
/// took, and the route can be announced again.
pub proof fn law_returned_attachment_restores_the_receiver(
    t: TableView,
    slot: u64,
    handle: ThreadHandle,
)
    requires
        t.claim_attachment(slot, handle).1 is Ok,
    ensures
        ({
            let (held, attachment) = t.claim_attachment(slot, handle);
            let a = attachment->Ok_0;
            let owned = held.with_custody(slot, Custody::Owned(a.claim));
            let restored = t.announced(slot, DiscoveryState::Idle).slots;
            &&& owned.is_owned(a.slot, a.activation, a.claim)
            &&& held.returned(a).slots == restored
            &&& owned.returned(a).slots == restored
        }),
{
    let (held, attachment) = t.claim_attachment(slot, handle);
    let a = attachment->Ok_0;
    let owned = held.with_custody(slot, Custody::Owned(a.claim));
    let restored = t.announced(slot, DiscoveryState::Idle).slots;
    assert(held.returned(a).slots =~= restored);
    assert(owned.returned(a).slots =~= restored);
}

/// A replaced route keeps its thread and, where it was unattached, its channel with what waits in
/// it; the old name is free, and permissions under the old name are stale.
pub proof fn law_replacement_carries_the_route_over(
    t: TableView,
    expected: Seq<char>,
    new_native: Seq<char>,
    thread: ThreadId,
    handle: ThreadHandle,
    earlier: RouteView,
    ticket: TicketView,
)
    requires
        t.wf(),
        t.replace(expected, new_native, thread, handle).1 is Ok,
        earlier.slot == t.by_native[trimmed(expected)],
        earlier.activation < t.next_activation,
        ticket.slot == earlier.slot,
        ticket.activation < t.next_activation,
    ensures
        ({
            let slot = t.by_native[trimmed(expected)];
            let (after, attachment) = t.replace(expected, new_native, thread, handle);
            &&& after.by_native.contains_key(trimmed(new_native))
            &&& after.by_native[trimmed(new_native)] == slot
            &&& after.by_thread == t.by_thread
            &&& trimmed(new_native) != trimmed(expected) ==> !after.by_native.contains_key(
                trimmed(expected),
            )
            &&& attachment->Ok_0.handle.thread == thread
            &&& t.slots[slot].state matches SlotState::Active(active) ==> {
                &&& attachment->Ok_0.stream == active.custody->receiver
                &&& after.slots[slot].state->Active_0.channel == active.channel
            }
            &&& after.deliver(earlier, thread) == Err::<u64, ErrorView>(stale())
            &&& !after.ticket_is_out(ticket)
        }),
{
    let slot = t.by_native[trimmed(expected)];
    assert(t.slots[t.by_thread[thread]].thread == thread);
}

/// A resumed thread whose new name has its thread already is left alone, as is the route of the
/// old name.
pub proof fn law_authoritative_replacement_is_refused(
    t: TableView,
    expected: Seq<char>,
    new_native: Seq<char>,
    thread: ThreadId,
    handle: ThreadHandle,
)
    requires
        t.wf(),
        t.replacement_owner(expected, new_native) is Some,
        t.exact_slot(trimmed(expected), thread) is Ok,
    ensures
        t.replace(expected, new_native, thread, handle).1 is Err,
        t.replace(expected, new_native, thread, handle).0 == t,
{
}

/// A blank name leads to the route of the fallback thread where that route is active, and to
/// nothing else.
pub proof fn law_blank_name_means_the_fallback(t: TableView, native: Seq<char>, fallback: ThreadId)
    requires
        t.wf(),
        trimmed(native).len() == 0,
    ensures
        t.resolve(native, fallback) is Ok <==> t.active_for_thread(fallback) is Ok,
        t.resolve(native, fallback) is Ok ==> t.resolve(native, fallback)
            == t.active_for_thread(fallback),
        t.resolve(native, fallback) matches Ok(route) ==> route.thread == fallback,
{
}

/// Slot, activation and claim numbers are never handed out twice: what is handed out is the next
/// number, and the next number only grows.
pub proof fn law_numbers_are_handed_out_once(t: TableView, native: Seq<char>, thread: ThreadId)
    requires
        t.wf(),
    ensures
        ({
            let (after, slot) = t.establish(native, thread);
            &&& after.next_slot >= t.next_slot
            &&& after.next_activation >= t.next_activation
            &&& after.next_claim == t.next_claim
            &&& !t.by_native.contains_key(native) ==> (slot matches Ok(s) ==> s == t.next_slot
                && s < after.next_slot && !t.slots.contains_key(s) && after.slots[s].state
                == opened_by(t.next_activation) && t.next_activation < after.next_activation)
        }),
        t.allocate_claim().1 matches Ok(claim) ==> claim == t.next_claim && claim
            < t.allocate_claim().0.next_claim,
{
}

/// A route that is established leads to its own thread by its own name: to the thread that the name
/// is bound to, and to the one that is proposed where the name is new. What is sent on it arrives.
pub proof fn law_route_leads_to_its_thread(t: TableView, native: Seq<char>, proposed: ThreadId)
    requires
        t.wf(),
    ensures
        ({
            let (after, found) = t.bootstrap(native, proposed);
            found matches Ok(route) ==> {
                &&& route.native == trimmed(native)
                &&& route.native.len() > 0
                &&& after.by_native.contains_key(route.native)
                &&& after.by_native[route.native] == route.slot
                &&& after.slots[route.slot].thread == route.thread
                &&& after.by_thread[route.thread] == route.slot
                &&& !t.by_native.contains_key(route.native) ==> route.thread == proposed
                &&& t.by_native.contains_key(route.native) ==> route.thread
                    == t.slots[t.by_native[route.native]].thread && after == t
                &&& after.deliver(route, route.thread) is Ok
                &&& after.resolve(native, proposed) == found
            }
        }),
{
    let (after, found) = t.bootstrap(native, proposed);
    if found is Ok {
        crate::text::lemma_trimmed_is_trim(native);
    }
}

/// A message finds the route of the thread that it names, and no other; a name that is not bound
/// finds none.
pub proof fn law_message_finds_the_named_route(
    t: TableView,
    native: Seq<char>,
    fallback: ThreadId,
)
    requires
        t.wf(),
        trimmed(native).len() > 0,
    ensures
        t.resolve(native, fallback) matches Ok(route) ==> {
            &&& route.native == trimmed(native)
            &&& t.by_native.contains_key(route.native)
            &&& route.slot == t.by_native[route.native]
            &&& route.thread == t.slots[route.slot].thread
        },
        !t.by_native.contains_key(trimmed(native)) ==> t.resolve(native, fallback) is Err,
{
}

/// A thread finds its own route.
pub proof fn law_thread_finds_its_route(t: TableView, thread: ThreadId)
    requires
        t.wf(),
    ensures
        t.active_for_thread(thread) matches Ok(route) ==> {
            &&& route.thread == thread
            &&& t.by_native[route.native] == route.slot
            &&& t.deliver(route, thread) is Ok
        },
        !t.by_thread.contains_key(thread) ==> t.active_for_thread(thread) is Err,
{
}

/// An event is sent on a route only to the thread of the route, and only while the route is in
/// force.
pub proof fn law_event_is_sent_to_its_own_thread(t: TableView, route: RouteView, thread: ThreadId)
    ensures
        t.deliver(route, thread) is Ok <==> {
            &&& thread == route.thread
            &&& t.slots.contains_key(route.slot)
            &&& t.slots[route.slot].state matches SlotState::Active(active)
            &&& active.activation == route.activation
        },
        t.deliver(route, thread) matches Ok(channel) ==> (t.slots[route.slot].state matches
            SlotState::Active(active) ==> channel == active.channel),
{
}

/// A thread that is seen first is announced once, as itself.
pub proof fn law_discovered_thread_is_announced_as_itself(
    t: TableView,
    native: Seq<char>,
    proposed: ThreadId,
)
    requires
        t.wf(),
    ensures
        t.discover(native, proposed).1 matches Ok((route, ticket)) ==> {
            &&& route.native == trimmed(native)
            &&& !t.by_native.contains_key(route.native) ==> route.thread == proposed
            &&& ticket matches Some(told) ==> {
                &&& told.slot == route.slot
                &&& told.activation == route.activation
                &&& told.thread == route.thread
                &&& told.native == route.native
                &&& t.discover(native, proposed).0.ticket_is_out(told)
            }
        },
{
    law_route_leads_to_its_thread(t, native, proposed);
}

/// A thread that is attached is the one that was asked for, with the handle that was given, and is
/// held until it is owned or given back.
pub proof fn law_attached_thread_is_the_asked_one(
    t: TableView,
    native: Seq<char>,
    thread: ThreadId,
    handle: ThreadHandle,
)
    requires
        t.wf(),
    ensures
        ({
            let (after, claimed) = t.claim_parent(native, thread, handle);
            claimed matches Ok(held) ==> {
                &&& held.handle == handle
                &&& held.slot == after.by_native[trimmed(native)]
                &&& handle.thread == after.slots[held.slot].thread
                &&& trimmed(handle.harness_thread_id@) == trimmed(native)
                &&& after.is_attaching(held.slot, held.activation, held.claim)
            }
        }),
        ({
            let (after, resumed) = t.resume(native, thread, handle);
            resumed matches Ok(held) ==> {
                &&& held.handle == handle
                &&& held.slot == after.by_native[trimmed(native)]
                &&& handle.thread == after.slots[held.slot].thread
                &&& trimmed(handle.harness_thread_id@) == trimmed(native)
                &&& after.is_attaching(held.slot, held.activation, held.claim)
            }
        }),
        ({
            let (after, claimed) = t.reattach(native, thread, handle);
            claimed matches Ok(held) ==> {
                &&& held.handle == handle
                &&& held.slot == t.by_native[trimmed(native)]
                &&& handle.thread == thread
                &&& after.is_attaching(held.slot, held.activation, held.claim)
            }
        }),
{
}

/// What is refused is refused in words that say why.
pub proof fn law_refusals_say_why(native: Seq<char>, thread: ThreadId)
    ensures
        stale() == ErrorView::Protocol("route capability is stale"@),
        shut() == ErrorView::Transport("Codex route authority is closed"@),
        bound_elsewhere(thread) == ErrorView::Protocol(
            "thread "@ + thread.chars() + " is already bound to another native thread"@,
        ),
        tombstoned(native) == ErrorView::Protocol("native thread "@ + native + " is tombstoned"@),
        already_attached(native) == ErrorView::Protocol(
            "native thread "@ + native + " already has an attachment or owner"@,
        ),
        crate::route_model::blank_native() == ErrorView::Protocol(
            "cannot establish an empty native thread id"@,
        ),
        crate::route_model::handle_mismatch() == ErrorView::Protocol(
            "attachment handle does not match its authoritative route"@,
        ),
{
}

} // verus!
