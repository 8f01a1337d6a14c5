//! What the route authority knows, and what each of its operations makes of it.

use vstd::prelude::*;

use crate::error::ErrorView;
use crate::handle::ThreadHandle;
use crate::ids::ThreadId;
use crate::text::trimmed;

verus! {

/// Where the announcement of a route stands that nobody has attached to.
#[derive(Clone, Copy, PartialEq, Eq, Structural, Debug)]
pub enum DiscoveryState {
    /// Nothing was announced.
    Idle,
    /// The announcement waits for room.
    Pending,
    /// A ticket with this claim is out.
    Queued(u64),
}

/// Who holds the receiving end of a route's events.
#[derive(Clone, Copy, PartialEq, Eq, Structural, Debug)]
pub enum Custody {
    /// The route itself.
    Unattached {
        /// The channel whose receiving end is kept, or `None` where that end was given up.
        receiver: Option<u64>,
        /// Where the announcement of the route stands.
        discovery: DiscoveryState,
    },
    /// An attachment with this claim, not committed yet.
    Attaching(u64),
    /// An owner with this claim.
    Owned(u64),
}

/// A route that delivers.
#[derive(Clone, Copy, PartialEq, Eq, Structural, Debug)]
pub struct ActiveSlot {
    /// The number of this activation, which no other activation has.
    pub activation: u64,
    /// The channel that events are sent to, by the activation that opened it.
    pub channel: u64,
    /// Who holds the receiving end.
    pub custody: Custody,
}

/// Whether a route delivers.
#[derive(Clone, Copy, PartialEq, Eq, Structural, Debug)]
pub enum SlotState {
    /// It does.
    Active(ActiveSlot),
    /// Its thread was deleted: the names stay bound, and nothing is delivered.
    Tombstoned,
}

/// A pair of bound names, and the state of the route between them.
#[verifier::ext_equal]
pub struct SlotView {
    /// The thread's name at the app-server.
    pub native: Seq<char>,
    /// The thread on this side.
    pub thread: ThreadId,
    /// The state of the route.
    pub state: SlotState,
}

/// What the authority knows.
#[verifier::ext_equal]
pub struct TableView {
    /// The slot of each name at the app-server.
    pub by_native: Map<Seq<char>, u64>,
    /// The slot of each thread on this side.
    pub by_thread: Map<ThreadId, u64>,
    /// The slots.
    pub slots: Map<u64, SlotView>,
    /// The number of the next slot.
    pub next_slot: u64,
    /// The number of the next activation.
    pub next_activation: u64,
    /// The number of the next claim.
    pub next_claim: u64,
    /// Whether the authority was shut down.
    pub closed: bool,
}

/// The failure of a permission that is no longer good.
pub open spec fn stale() -> ErrorView {
    ErrorView::Protocol("route capability is stale"@)
}

/// The failure of an authority that was shut down.
pub open spec fn shut() -> ErrorView {
    ErrorView::Transport("Codex route authority is closed"@)
}

/// The failure to bind a thread that is bound otherwise.
pub open spec fn bound_elsewhere(thread: ThreadId) -> ErrorView {
    ErrorView::Protocol(
        "thread "@ + thread.chars() + " is already bound to another native thread"@,
    )
}

/// The failure of a number space that is used up.
pub open spec fn exhausted(name: Seq<char>) -> ErrorView {
    ErrorView::Protocol(name + " id space exhausted"@)
}

/// A failure that names a thread of the app-server between two texts.
pub open spec fn about_native(before: Seq<char>, native: Seq<char>, after: Seq<char>) -> ErrorView {
    ErrorView::Protocol(before + native + after)
}

/// The failure of an operation on a route that was tombstoned.
pub open spec fn tombstoned(native: Seq<char>) -> ErrorView {
    about_native("native thread "@, native, " is tombstoned"@)
}

/// The failure to bind a blank name.
pub open spec fn blank_native() -> ErrorView {
    ErrorView::Protocol("cannot establish an empty native thread id"@)
}

/// The state of a route that an activation opens: the route holds the receiving end of a new
/// channel, and nothing was announced.
pub open spec fn opened_by(activation: u64) -> SlotState {
    SlotState::Active(
        ActiveSlot {
            activation,
            channel: activation,
            custody: Custody::Unattached {
                receiver: Some(activation),
                discovery: DiscoveryState::Idle,
            },
        },
    )
}

/// Whether the numbers that a slot's state holds were handed out already.
pub open spec fn state_below(state: SlotState, next_activation: u64, next_claim: u64) -> bool {
    match state {
        SlotState::Tombstoned => true,
        SlotState::Active(active) => {
            &&& active.activation < next_activation
            &&& active.channel < next_activation
            &&& match active.custody {
                Custody::Unattached { receiver, discovery } => {
                    discovery matches DiscoveryState::Queued(claim) ==> claim < next_claim
                },
                Custody::Attaching(claim) => claim < next_claim,
                Custody::Owned(claim) => claim < next_claim,
            }
        },
    }
}

impl TableView {
    /// The two indexes and the slots are one bijection between names at the app-server and
    /// threads on this side, every number in use was handed out already, and an authority that
    /// was shut down binds nothing.
    pub open spec fn wf(self) -> bool {
        &&& forall|native: Seq<char>| #[trigger]
            self.by_native.contains_key(native) ==> self.slots.contains_key(self.by_native[native])
                && self.slots[self.by_native[native]].native == native
        &&& forall|thread: ThreadId| #[trigger]
            self.by_thread.contains_key(thread) ==> self.slots.contains_key(self.by_thread[thread])
                && self.slots[self.by_thread[thread]].thread == thread
        &&& forall|slot: u64| #[trigger]
            self.slots.contains_key(slot) ==> {
                &&& slot < self.next_slot
                &&& self.by_native.contains_key(self.slots[slot].native)
                &&& self.by_native[self.slots[slot].native] == slot
                &&& self.by_thread.contains_key(self.slots[slot].thread)
                &&& self.by_thread[self.slots[slot].thread] == slot
                &&& state_below(self.slots[slot].state, self.next_activation, self.next_claim)
            }
        &&& self.closed ==> self.slots == Map::<u64, SlotView>::empty()
    }

    /// The table with nothing bound.
    pub open spec fn empty() -> TableView {
        TableView {
            by_native: Map::empty(),
            by_thread: Map::empty(),
            slots: Map::empty(),
            next_slot: 1,
            next_activation: 1,
            next_claim: 1,
            closed: false,
        }
    }

    /// The table with another state of a slot.
    pub open spec fn with_state(self, slot: u64, state: SlotState) -> TableView {
        TableView {
            slots: self.slots.insert(slot, SlotView { state, ..self.slots[slot] }),
            ..self
        }
    }

    /// The table shut down, which binds nothing.
    pub open spec fn shut_down(self) -> TableView {
        TableView {
            by_native: Map::empty(),
            by_thread: Map::empty(),
            slots: Map::empty(),
            closed: true,
            ..self
        }
    }

    /// A new slot number.
    pub open spec fn allocate_slot(self) -> (TableView, Result<u64, ErrorView>) {
        if self.next_slot == u64::MAX {
            (self, Err(exhausted("route slot"@)))
        } else {
            (TableView { next_slot: (self.next_slot + 1) as u64, ..self }, Ok(self.next_slot))
        }
    }

    /// A new activation number.
    pub open spec fn allocate_activation(self) -> (TableView, Result<u64, ErrorView>) {
        if self.next_activation == u64::MAX {
            (self, Err(exhausted("route activation"@)))
        } else {
            (
                TableView { next_activation: (self.next_activation + 1) as u64, ..self },
                Ok(self.next_activation),
            )
        }
    }

    /// A new claim number.
    pub open spec fn allocate_claim(self) -> (TableView, Result<u64, ErrorView>) {
        if self.next_claim == u64::MAX {
            (self, Err(exhausted("route claim"@)))
        } else {
            (TableView { next_claim: (self.next_claim + 1) as u64, ..self }, Ok(self.next_claim))
        }
    }

    /// The table with two unbound names bound by a new slot.
    pub open spec fn bind(self, slot: u64, native: Seq<char>, thread: ThreadId, activation: u64) ->
        TableView {
        TableView {
            by_native: self.by_native.insert(native, slot),
            by_thread: self.by_thread.insert(thread, slot),
            slots: self.slots.insert(
                slot,
                SlotView { native, thread, state: opened_by(activation) },
            ),
            ..self
        }
    }

    /// Finds the slot of a name at the app-server, or binds the name to the proposed thread. A
    /// name that is bound stays with its thread whatever is proposed, unless the proposed thread
    /// has another name; a thread that is bound gets no second name.
    pub open spec fn establish(self, native: Seq<char>, proposed: ThreadId) -> (
        TableView,
        Result<u64, ErrorView>,
    ) {
        if self.by_native.contains_key(native) {
            let slot = self.by_native[native];
            if self.by_thread.contains_key(proposed) && self.by_thread[proposed] != slot {
                (self, Err(bound_elsewhere(proposed)))
            } else {
                (self, Ok(slot))
            }
        } else if self.by_thread.contains_key(proposed) {
            (self, Err(bound_elsewhere(proposed)))
        } else {
            match self.allocate_slot() {
                (t1, Err(error)) => (t1, Err(error)),
                (t1, Ok(slot)) => match t1.allocate_activation() {
                    (t2, Err(error)) => (t2, Err(error)),
                    (t2, Ok(activation)) => (t2.bind(slot, native, proposed, activation), Ok(slot)),
                },
            }
        }
    }

    /// The permission to deliver through a slot, where it is active.
    pub open spec fn active_route(self, slot: u64) -> Result<RouteView, ErrorView> {
        if !self.slots.contains_key(slot) {
            Err(stale())
        } else {
            match self.slots[slot].state {
                SlotState::Tombstoned => Err(tombstoned(self.slots[slot].native)),
                SlotState::Active(active) => Ok(
                    RouteView {
                        slot,
                        activation: active.activation,
                        thread: self.slots[slot].thread,
                        native: self.slots[slot].native,
                    },
                ),
            }
        }
    }

    /// The slot that binds exactly these two names to each other.
    pub open spec fn exact_slot(self, native: Seq<char>, thread: ThreadId) -> Result<
        u64,
        ErrorView,
    > {
        if !self.by_native.contains_key(native) {
            Err(about_native("native thread "@, native, " is not bound"@))
        } else if self.by_thread.contains_key(thread) && self.by_thread[thread]
            == self.by_native[native] {
            Ok(self.by_native[native])
        } else {
            Err(
                ErrorView::Protocol(
                    "native thread "@ + native + " is not bound to thread "@ + thread.chars(),
                ),
            )
        }
    }

    /// The active state of a slot, where it has this activation.
    pub open spec fn activation_of(self, slot: u64, activation: u64) -> Option<ActiveSlot> {
        if self.slots.contains_key(slot) {
            match self.slots[slot].state {
                SlotState::Active(active) if active.activation == activation => Some(active),
                _ => None,
            }
        } else {
            None
        }
    }

    /// Announces a slot to which nobody attached and of which nothing is out. A claim number is
    /// used up in any case.
    pub open spec fn queue_idle(self, slot: u64) -> (
        TableView,
        Result<Option<TicketView>, ErrorView>,
    ) {
        match self.allocate_claim() {
            (t, Err(error)) => (t, Err(error)),
            (t, Ok(claim)) => if !t.slots.contains_key(slot) {
                (t, Err(stale()))
            } else {
                match t.slots[slot].state {
                    SlotState::Tombstoned => (t, Err(stale())),
                    SlotState::Active(active) => match active.custody {
                        Custody::Unattached { receiver, discovery: DiscoveryState::Idle } => (
                            t.queued(slot, claim),
                            Ok(Some(t.ticket(slot, claim))),
                        ),
                        _ => (t, Ok(None)),
                    },
                }
            },
        }
    }

    /// The table with a ticket out for a slot that is active and unattached.
    pub open spec fn queued(self, slot: u64, claim: u64) -> TableView {
        self.announced(slot, DiscoveryState::Queued(claim))
    }

    /// The table with another standing of the announcement of a slot that is active and
    /// unattached.
    pub open spec fn announced(self, slot: u64, discovery: DiscoveryState) -> TableView {
        match self.slots[slot].state {
            SlotState::Active(active) => match active.custody {
                Custody::Unattached { receiver, .. } => self.with_state(
                    slot,
                    SlotState::Active(
                        ActiveSlot { custody: Custody::Unattached { receiver, discovery }, ..active },
                    ),
                ),
                _ => self,
            },
            SlotState::Tombstoned => self,
        }
    }

    /// The ticket with a claim on a slot that is active.
    pub open spec fn ticket(self, slot: u64, claim: u64) -> TicketView {
        TicketView {
            slot,
            activation: self.slots[slot].state->Active_0.activation,
            claim,
            thread: self.slots[slot].thread,
            native: self.slots[slot].native,
        }
    }

    /// Whether the announcement of a slot waits for room.
    pub open spec fn is_pending(self, slot: u64) -> bool {
        &&& self.slots.contains_key(slot)
        &&& self.slots[slot].state matches SlotState::Active(active)
        &&& active.custody matches Custody::Unattached { discovery: DiscoveryState::Pending, .. }
    }

    /// Whether a ticket is the one that is out for its slot.
    pub open spec fn ticket_is_out(self, ticket: TicketView) -> bool {
        &&& self.activation_of(ticket.slot, ticket.activation) matches Some(active)
        &&& active.custody matches Custody::Unattached { discovery: DiscoveryState::Queued(claim), .. }
        &&& claim == ticket.claim
    }

    /// The thread of the route that a name has, or gets where it has none.
    pub open spec fn thread_at(self, native: Seq<char>, proposed: ThreadId) -> ThreadId {
        if self.by_native.contains_key(native) {
            self.slots[self.by_native[native]].thread
        } else {
            proposed
        }
    }

    /// Hands the receiving end of a slot to an attachment. A claim number is used up in any case. A
    /// handle of another thread or another name is refused.
    pub open spec fn claim_attachment(self, slot: u64, handle: ThreadHandle) -> (
        TableView,
        Result<AttachmentView, ErrorView>,
    ) {
        match self.allocate_claim() {
            (t, Err(error)) => (t, Err(error)),
            (t, Ok(claim)) => if !t.slots.contains_key(slot) {
                (t, Err(stale()))
            } else {
                match t.slots[slot].state {
                    SlotState::Tombstoned => (t, Err(tombstoned(t.slots[slot].native))),
                    SlotState::Active(active) => match active.custody {
                        Custody::Unattached { receiver, .. } => if handle.thread
                            != t.slots[slot].thread || trimmed(handle.harness_thread_id@)
                            != t.slots[slot].native {
                            (t, Err(handle_mismatch()))
                        } else {
                            (
                                t.with_custody(slot, Custody::Attaching(claim)),
                                Ok(
                                    AttachmentView {
                                        slot,
                                        activation: active.activation,
                                        claim,
                                        stream: receiver,
                                        handle,
                                    },
                                ),
                            )
                        },
                        _ => (t, Err(already_attached(t.slots[slot].native))),
                    },
                }
            },
        }
    }

    /// The table with another custody of a slot that is active.
    pub open spec fn with_custody(self, slot: u64, custody: Custody) -> TableView {
        match self.slots[slot].state {
            SlotState::Active(active) => self.with_state(
                slot,
                SlotState::Active(ActiveSlot { custody, ..active }),
            ),
            SlotState::Tombstoned => self,
        }
    }

    /// Reactivates a slot that is tombstoned; another slot stays as it is.
    pub open spec fn reactivate(self, slot: u64) -> (TableView, Result<(), ErrorView>) {
        if self.slots[slot].state is Tombstoned {
            match self.allocate_activation() {
                (t, Err(error)) => (t, Err(error)),
                (t, Ok(activation)) => (t.with_state(slot, opened_by(activation)), Ok(())),
            }
        } else {
            (self, Ok(()))
        }
    }

    /// The table with another name at the app-server for a slot, and another state.
    pub open spec fn rename(self, slot: u64, native: Seq<char>, state: SlotState) -> TableView {
        TableView {
            by_native: self.by_native.remove(self.slots[slot].native).insert(native, slot),
            slots: self.slots.insert(slot, SlotView { native, state, ..self.slots[slot] }),
            ..self
        }
    }

    /// Binds two names at the start.
    pub open spec fn bootstrap(self, native: Seq<char>, thread: ThreadId) -> (
        TableView,
        Result<RouteView, ErrorView>,
    ) {
        if trimmed(native).len() == 0 {
            (self, Err(blank_native()))
        } else if self.closed {
            (self, Err(shut()))
        } else {
            match self.establish(trimmed(native), thread) {
                (t, Err(error)) => (t, Err(error)),
                (t, Ok(slot)) => (t, t.active_route(slot)),
            }
        }
    }

    /// The route of a name at the app-server. A blank name stands for the route of the thread
    /// that the caller falls back to.
    pub open spec fn resolve(self, native: Seq<char>, fallback: ThreadId) -> Result<
        RouteView,
        ErrorView,
    > {
        let native = trimmed(native);
        if native.len() == 0 {
            if self.by_thread.contains_key(fallback) {
                match self.active_route(self.by_thread[fallback]) {
                    Ok(route) => Ok(route),
                    Err(_) => Err(stale()),
                }
            } else {
                Err(stale())
            }
        } else if self.by_native.contains_key(native) {
            self.active_route(self.by_native[native])
        } else {
            Err(about_native("native thread "@, native, " has no active route"@))
        }
    }

    /// The route of a thread on this side.
    pub open spec fn active_for_thread(self, thread: ThreadId) -> Result<RouteView, ErrorView> {
        if self.by_thread.contains_key(thread) {
            self.active_route(self.by_thread[thread])
        } else {
            Err(stale())
        }
    }

    /// Finds or binds the route that traffic was seen on, and announces it where nobody holds it.
    pub open spec fn discover(self, native: Seq<char>, proposed: ThreadId) -> (
        TableView,
        Result<(RouteView, Option<TicketView>), ErrorView>,
    ) {
        match self.bootstrap(native, proposed) {
            (t, Err(error)) => (t, Err(error)),
            (t, Ok(route)) => match t.queue_idle(route.slot) {
                (t2, Err(error)) => (t2, Err(error)),
                (t2, Ok(ticket)) => (t2, Ok((route, ticket))),
            },
        }
    }

    /// Attaches to a route that is found or bound. A tombstoned route stays tombstoned.
    pub open spec fn claim_parent(
        self,
        native: Seq<char>,
        proposed: ThreadId,
        handle: ThreadHandle,
    ) -> (TableView, Result<AttachmentView, ErrorView>) {
        if trimmed(native).len() == 0 {
            (self, Err(blank_native()))
        } else if self.closed {
            (self, Err(shut()))
        } else {
            match self.establish(trimmed(native), proposed) {
                (t, Err(error)) => (t, Err(error)),
                (t, Ok(slot)) => t.claim_attachment(slot, handle),
            }
        }
    }

    /// What stands against binding a new name to a thread.
    pub open spec fn fresh_conflict(self, native: Seq<char>, proposed: ThreadId) -> Option<
        ConflictView,
    > {
        if self.by_native.contains_key(native) {
            Some(
                ConflictView::AuthoritativeNative {
                    thread: self.slots[self.by_native[native]].thread,
                },
            )
        } else if self.by_thread.contains_key(proposed) {
            Some(
                ConflictView::NewNativeForBoundThread {
                    existing_native: self.slots[self.by_thread[proposed]].native,
                },
            )
        } else {
            None
        }
    }

    /// Attaches to a new thread of the app-server, where nothing stands against binding it.
    pub open spec fn claim_fresh(
        self,
        native: Seq<char>,
        proposed: ThreadId,
        handle: ThreadHandle,
    ) -> (TableView, Result<Result<AttachmentView, ConflictView>, ErrorView>) {
        if trimmed(native).len() == 0 {
            (self, Err(blank_native()))
        } else if self.closed {
            (self, Err(shut()))
        } else {
            match self.fresh_conflict(trimmed(native), proposed) {
                Some(conflict) => (self, Ok(Err(conflict))),
                None => match self.claim_parent(native, proposed, handle) {
                    (t, Ok(attachment)) => (t, Ok(Ok(attachment))),
                    (t, Err(error)) => (t, Err(error)),
                },
            }
        }
    }

    /// Attaches to an exact pair of bound names, and reactivates it where it is tombstoned.
    pub open spec fn reattach(self, native: Seq<char>, thread: ThreadId, handle: ThreadHandle) -> (
        TableView,
        Result<AttachmentView, ErrorView>,
    ) {
        if trimmed(native).len() == 0 {
            (self, Err(blank_native()))
        } else if self.closed {
            (self, Err(shut()))
        } else {
            match self.exact_slot(trimmed(native), thread) {
                Err(error) => (self, Err(error)),
                Ok(slot) => self.reopen(slot, handle),
            }
        }
    }

    /// Reactivates a slot where it is tombstoned, and attaches to it.
    pub open spec fn reopen(self, slot: u64, handle: ThreadHandle) -> (
        TableView,
        Result<AttachmentView, ErrorView>,
    ) {
        match self.reactivate(slot) {
            (t, Err(error)) => (t, Err(error)),
            (t, Ok(_)) => t.claim_attachment(slot, handle),
        }
    }

    /// Attaches to a route that the app-server resumed: it is found or bound, and reactivated
    /// where it is tombstoned.
    pub open spec fn resume(self, native: Seq<char>, thread: ThreadId, handle: ThreadHandle) -> (
        TableView,
        Result<AttachmentView, ErrorView>,
    ) {
        if trimmed(native).len() == 0 {
            (self, Err(blank_native()))
        } else if self.closed {
            (self, Err(shut()))
        } else {
            match self.establish(trimmed(native), thread) {
                (t, Err(error)) => (t, Err(error)),
                (t, Ok(slot)) => t.reopen(slot, handle),
            }
        }
    }

    /// Gives an unattached or tombstoned route another name at the app-server, under a new
    /// activation, and attaches to it. The channel of an unattached route goes on.
    pub open spec fn replace(
        self,
        expected: Seq<char>,
        new_native: Seq<char>,
        thread: ThreadId,
        handle: ThreadHandle,
    ) -> (TableView, Result<AttachmentView, ErrorView>) {
        let expected = trimmed(expected);
        let new_native = trimmed(new_native);
        if expected.len() == 0 || new_native.len() == 0 {
            (self, Err(blank_native()))
        } else if self.closed {
            (self, Err(shut()))
        } else {
            match self.exact_slot(expected, thread) {
                Err(error) => (self, Err(error)),
                Ok(slot) => if new_native != expected && self.by_native.contains_key(new_native) {
                    (
                        self,
                        Err(about_native("native thread "@, new_native, " is already bound"@)),
                    )
                } else {
                    self.replace_at(slot, expected, new_native, handle)
                },
            }
        }
    }

    /// Gives a slot another name at the app-server, under a new activation, and attaches to it.
    pub open spec fn replace_at(
        self,
        slot: u64,
        expected: Seq<char>,
        new_native: Seq<char>,
        handle: ThreadHandle,
    ) -> (TableView, Result<AttachmentView, ErrorView>) {
        match self.slots[slot].state {
            SlotState::Active(active) => match active.custody {
                Custody::Unattached { receiver, discovery } => match self.allocate_activation() {
                    (t, Err(error)) => (
                        t.with_custody(slot, Custody::Unattached { receiver: None, discovery }),
                        Err(error),
                    ),
                    (t, Ok(activation)) => t.rename(
                        slot,
                        new_native,
                        SlotState::Active(
                            ActiveSlot {
                                activation,
                                channel: active.channel,
                                custody: Custody::Unattached {
                                    receiver,
                                    discovery: DiscoveryState::Idle,
                                },
                            },
                        ),
                    ).claim_attachment(slot, handle),
                },
                _ => (
                    self,
                    Err(about_native("cannot replace attached native thread "@, expected, ""@)),
                ),
            },
            SlotState::Tombstoned => match self.allocate_activation() {
                (t, Err(error)) => (t, Err(error)),
                (t, Ok(activation)) => t.rename(
                    slot,
                    new_native,
                    opened_by(activation),
                ).claim_attachment(slot, handle),
            },
        }
    }

    /// The thread that already has a name which replaces another one.
    pub open spec fn replacement_owner(self, expected: Seq<char>, new_native: Seq<char>) -> Option<
        ThreadId,
    > {
        if trimmed(new_native) != trimmed(expected) && self.by_native.contains_key(
            trimmed(new_native),
        ) {
            Some(self.slots[self.by_native[trimmed(new_native)]].thread)
        } else {
            None
        }
    }

    /// Tombstones an exact pair of bound names.
    pub open spec fn tombstone(self, native: Seq<char>, thread: ThreadId) -> (
        TableView,
        Result<(), ErrorView>,
    ) {
        match self.exact_slot(trimmed(native), thread) {
            Err(error) => (self, Err(error)),
            Ok(slot) => (self.with_state(slot, SlotState::Tombstoned), Ok(())),
        }
    }

    /// The channel to which an event of a thread goes through a route.
    pub open spec fn deliver(self, route: RouteView, thread: ThreadId) -> Result<u64, ErrorView> {
        match self.activation_of(route.slot, route.activation) {
            None => Err(stale()),
            Some(active) => if thread == route.thread {
                Ok(active.channel)
            } else {
                Err(
                    ErrorView::Protocol(
                        "mapped event for thread "@ + thread.chars() + " cannot use route for "@
                            + route.thread.chars(),
                    ),
                )
            },
        }
    }

    /// The table with a receiving end given back to its slot.
    pub open spec fn returned(self, a: AttachmentView) -> TableView {
        self.with_custody(
            a.slot,
            Custody::Unattached { receiver: a.stream, discovery: DiscoveryState::Idle },
        )
    }

    /// Whether an attachment holds the receiving end of its slot.
    pub open spec fn is_attaching(self, slot: u64, activation: u64, claim: u64) -> bool {
        &&& self.activation_of(slot, activation) matches Some(active)
        &&& active.custody == Custody::Attaching(claim)
    }

    /// Whether an owner holds the receiving end of its slot.
    pub open spec fn is_owned(self, slot: u64, activation: u64, claim: u64) -> bool {
        &&& self.activation_of(slot, activation) matches Some(active)
        &&& active.custody == Custody::Owned(claim)
    }
}

/// The failure of a handle that names another thread of the app-server than the route.
pub open spec fn handle_mismatch() -> ErrorView {
    ErrorView::Protocol("attachment handle does not match its authoritative route"@)
}

/// The failure to attach to a route whose receiving end is held.
pub open spec fn already_attached(native: Seq<char>) -> ErrorView {
    about_native("native thread "@, native, " already has an attachment or owner"@)
}

/// An announcement of a route.
#[verifier::ext_equal]
pub struct TicketView {
    /// The slot.
    pub slot: u64,
    /// The activation.
    pub activation: u64,
    /// The claim.
    pub claim: u64,
    /// The thread on this side.
    pub thread: ThreadId,
    /// The thread's name at the app-server.
    pub native: Seq<char>,
}

/// The receiving end of a route, not committed yet.
#[verifier::ext_equal]
pub struct AttachmentView {
    /// The slot.
    pub slot: u64,
    /// The activation.
    pub activation: u64,
    /// The claim.
    pub claim: u64,
    /// The channel whose receiving end this is, or `None` where that end was given up.
    pub stream: Option<u64>,
    /// What the holder knows of the thread.
    pub handle: ThreadHandle,
}

/// What stands against binding a new name.
#[verifier::ext_equal]
pub enum ConflictView {
    /// The name is bound to this thread.
    AuthoritativeNative {
        /// The thread that has the name.
        thread: ThreadId,
    },
    /// The thread has this other name.
    NewNativeForBoundThread {
        /// The name that the thread has.
        existing_native: Seq<char>,
    },
}

/// The permission to map and deliver through one activation of a route.
#[verifier::ext_equal]
pub struct RouteView {
    /// The slot.
    pub slot: u64,
    /// The activation.
    pub activation: u64,
    /// The thread on this side.
    pub thread: ThreadId,
    /// The thread's name at the app-server.
    pub native: Seq<char>,
}

} // verus!
