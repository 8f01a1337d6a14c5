//! The authority over routes: which thread of the app-server belongs to which thread on this
//! side, who holds the events of a route, and which permissions on a route are still good.

use vstd::prelude::*;

use crate::error::{outcome, outcome_view, ErrorView, HarnessError};
use crate::handle::ThreadHandle;
use crate::ids::ThreadId;
use crate::maps::{KeyMap, TextMap, ThreadMap};
use crate::route_model::{
    about_native, blank_native, bound_elsewhere, exhausted, shut, stale, state_below, ActiveSlot,
    AttachmentView, ConflictView, Custody, DiscoveryState, RouteView, SlotState, SlotView, TableView,
    TicketView,
};
use crate::text::{concat3, same_text, trim, trimmed};

verus! {

/// A pair of bound names, and the state of the route between them.
pub struct RouteSlot {
    native: String,
    thread: ThreadId,
    state: SlotState,
}

impl View for RouteSlot {
    type V = SlotView;

    closed spec fn view(&self) -> SlotView {
        SlotView { native: self.native@, thread: self.thread, state: self.state }
    }
}

/// Permission to map and deliver through one activation of a route. It is good as long as that
/// activation is.
#[derive(Debug)]
pub struct ActiveRoute {
    slot: u64,
    activation: u64,
    thread_id: ThreadId,
    native_thread_id: String,
}

impl View for ActiveRoute {
    type V = RouteView;

    closed spec fn view(&self) -> RouteView {
        RouteView {
            slot: self.slot,
            activation: self.activation,
            thread: self.thread_id,
            native: self.native_thread_id@,
        }
    }
}

impl ActiveRoute {
    /// The thread whose events may be delivered.
    pub fn thread_id(&self) -> (thread: ThreadId)
        ensures
            thread == self@.thread,
    {
        self.thread_id
    }

    /// Whether two permissions are for the same activation of the same route.
    pub fn same(&self, other: &ActiveRoute) -> (same: bool)
        ensures
            same == (self@ == other@),
    {
        self.slot == other.slot && self.activation == other.activation && self.thread_id
            == other.thread_id && self.native_thread_id == other.native_thread_id
    }
}

fn stale_error() -> (error: HarnessError)
    ensures
        error@ == stale(),
{
    HarnessError::Protocol("route capability is stale".to_owned())
}

fn binding_error(thread: ThreadId) -> (error: HarnessError)
    ensures
        error@ == bound_elsewhere(thread),
{
    HarnessError::Protocol(
        concat3(
            "thread ",
            thread.text().as_str(),
            " is already bound to another native thread",
        ),
    )
}

fn native_error(before: &str, native: &str, after: &str) -> (error: HarnessError)
    ensures
        error@ == about_native(before@, native@, after@),
{
    HarnessError::Protocol(concat3(before, native, after))
}

/// The number after this one, or the failure that the space of that name is used up.
pub fn checked_next(value: u64, name: &str) -> (next: Result<u64, HarnessError>)
    ensures
        outcome(next) == (if value == u64::MAX {
            Err(exhausted(name@))
        } else {
            Ok((value + 1) as u64)
        }),
{
    match value.checked_add(1) {
        Some(next) => Ok(next),
        None => Err(HarnessError::Protocol(crate::text::concat(name, " id space exhausted"))),
    }
}

/// The name at the app-server without white space around it.
pub fn normalized_native(value: &str) -> (native: Result<String, HarnessError>)
    ensures
        outcome_view(native) == (if trimmed(value@).len() == 0 {
            Err(blank_native())
        } else {
            Ok(trimmed(value@))
        }),
{
    let value = trim(value);
    if value.is_empty() {
        Err(HarnessError::Protocol("cannot establish an empty native thread id".to_owned()))
    } else {
        Ok(value.to_owned())
    }
}

/// The sole authority over route identity, custody of delivery, announcements and tombstones.
pub struct CodexRouteAuthority {
    by_native: TextMap<u64>,
    by_thread: ThreadMap<u64>,
    slots: KeyMap<u64, RouteSlot>,
    next_slot: u64,
    next_activation: u64,
    next_claim: u64,
    closed: bool,
}

impl View for CodexRouteAuthority {
    type V = TableView;

    closed spec fn view(&self) -> TableView {
        TableView {
            by_native: self.by_native@,
            by_thread: self.by_thread@,
            slots: self.slots@,
            next_slot: self.next_slot,
            next_activation: self.next_activation,
            next_claim: self.next_claim,
            closed: self.closed,
        }
    }
}

impl CodexRouteAuthority {
    /// The authority's tables are maps, and form one bijection.
    pub closed spec fn wf(self) -> bool {
        &&& self.by_native.wf()
        &&& self.by_thread.wf()
        &&& self.slots.wf()
        &&& self@.wf()
    }

    /// The tables of a well-formed authority form one bijection.
    pub proof fn lemma_wf(self)
        requires
            self.wf(),
        ensures
            self@.wf(),
    {
    }

    /// An authority with nothing bound.
    pub fn new() -> (authority: Self)
        ensures
            authority.wf(),
            authority@ == TableView::empty(),
    {
        CodexRouteAuthority {
            by_native: KeyMap::new(),
            by_thread: KeyMap::new(),
            slots: KeyMap::new(),
            next_slot: 1,
            next_activation: 1,
            next_claim: 1,
            closed: false,
        }
    }

    fn ensure_open(&self) -> (result: Result<(), HarnessError>)
        ensures
            outcome(result) == (if self@.closed {
                Err(shut())
            } else {
                Ok(())
            }),
    {
        if self.closed {
            Err(HarnessError::Transport("Codex route authority is closed".to_owned()))
        } else {
            Ok(())
        }
    }

    fn allocate_activation(&mut self) -> (result: Result<u64, HarnessError>)
        requires
            old(self).wf(),
        ensures
            final(self).wf(),
            (final(self)@, outcome(result)) == old(self)@.allocate_activation(),
    {
        let id = self.next_activation;
        match checked_next(id, "route activation") {
            Ok(next) => {
                self.next_activation = next;
                Ok(id)
            },
            Err(error) => Err(error),
        }
    }

    fn allocate_claim(&mut self) -> (result: Result<u64, HarnessError>)
        requires
            old(self).wf(),
        ensures
            final(self).wf(),
            (final(self)@, outcome(result)) == old(self)@.allocate_claim(),
    {
        let id = self.next_claim;
        match checked_next(id, "route claim") {
            Ok(next) => {
                self.next_claim = next;
                Ok(id)
            },
            Err(error) => Err(error),
        }
    }

    fn establish(&mut self, native: String, proposed: ThreadId) -> (result: Result<
        u64,
        HarnessError,
    >)
        requires
            old(self).wf(),
            !old(self)@.closed,
        ensures
            final(self).wf(),
            !final(self)@.closed,
            (final(self)@, outcome(result)) == old(self)@.establish(native@, proposed),
            result matches Ok(slot) ==> final(self)@.slots.contains_key(slot),
    {
        match self.by_native.get(&native) {
            Some(slot) => {
                let slot = *slot;
                match self.by_thread.get(&proposed) {
                    Some(other) => {
                        if *other != slot {
                            return Err(binding_error(proposed));
                        }
                    },
                    None => {},
                }
                return Ok(slot);
            },
            None => {},
        }
        if self.by_thread.contains_key(&proposed) {
            return Err(binding_error(proposed));
        }
        let slot = self.next_slot;
        match checked_next(slot, "route slot") {
            Ok(next) => {
                self.next_slot = next;
            },
            Err(error) => {
                return Err(error);
            },
        }
        let activation = match self.allocate_activation() {
            Ok(activation) => activation,
            Err(error) => {
                return Err(error);
            },
        };
        let ghost before = self@;
        let state = SlotState::Active(
            ActiveSlot {
                activation,
                channel: activation,
                custody: Custody::Unattached {
                    receiver: Some(activation),
                    discovery: DiscoveryState::Idle,
                },
            },
        );
        self.slots.insert(slot, RouteSlot { native: native.clone(), thread: proposed, state });
        self.by_native.insert(native, slot);
        self.by_thread.insert(proposed, slot);
        proof {
            assert(self@ == before.bind(slot, native@, proposed, activation));
            assert(!before.slots.contains_key(slot));
            assert(self@.wf());
        }
        Ok(slot)
    }

    fn active_route(&self, slot: u64) -> (result: Result<ActiveRoute, HarnessError>)
        requires
            self.wf(),
        ensures
            outcome_view(result) == self@.active_route(slot),
    {
        match self.slots.get(&slot) {
            None => Err(stale_error()),
            Some(route) => match route.state {
                SlotState::Tombstoned => Err(
                    native_error("native thread ", route.native.as_str(), " is tombstoned"),
                ),
                SlotState::Active(active) => Ok(
                    ActiveRoute {
                        slot,
                        activation: active.activation,
                        thread_id: route.thread,
                        native_thread_id: route.native.clone(),
                    },
                ),
            },
        }
    }

    fn exact_slot(&self, native: &str, thread: ThreadId) -> (result: Result<u64, HarnessError>)
        requires
            self.wf(),
        ensures
            outcome(result) == self@.exact_slot(native@, thread),
            result matches Ok(slot) ==> self@.slots.contains_key(slot) && self@.slots[slot].native
                == native@ && self@.slots[slot].thread == thread,
    {
        let slot = match self.by_native.get(&native.to_owned()) {
            Some(slot) => *slot,
            None => {
                return Err(native_error("native thread ", native, " is not bound"));
            },
        };
        match self.by_thread.get(&thread) {
            Some(other) => if *other == slot {
                return Ok(slot);
            },
            None => {},
        }
        let mut message = concat3("native thread ", native, " is not bound to thread ");
        message.append(thread.text().as_str());
        Err(HarnessError::Protocol(message))
    }

    fn set_state(&mut self, slot: u64, state: SlotState)
        requires
            old(self).wf(),
            old(self)@.slots.contains_key(slot),
            state_below(state, old(self)@.next_activation, old(self)@.next_claim),
        ensures
            final(self).wf(),
            final(self)@ == old(self)@.with_state(slot, state),
    {
        let ghost before = self@;
        match self.slots.remove(&slot) {
            Some(route) => {
                let native = route.native;
                let thread = route.thread;
                self.slots.insert(slot, RouteSlot { native, thread, state });
                proof {
                    assert(self@.slots =~= before.with_state(slot, state).slots);
                    assert(self@ == before.with_state(slot, state));
                    assert(self@.wf());
                }
            },
            None => {},
        }
    }
}

/// The announcement of a route to whoever will attach to it. It is good once.
#[derive(Debug)]
pub struct DiscoveryTicket {
    slot: u64,
    activation: u64,
    claim: u64,
    thread: ThreadId,
    native: String,
}

impl View for DiscoveryTicket {
    type V = TicketView;

    closed spec fn view(&self) -> TicketView {
        TicketView {
            slot: self.slot,
            activation: self.activation,
            claim: self.claim,
            thread: self.thread,
            native: self.native@,
        }
    }
}

impl DiscoveryTicket {
    /// The thread on this side.
    pub fn thread_id(&self) -> (thread: ThreadId)
        ensures
            thread == self@.thread,
    {
        self.thread
    }

    /// The thread's name at the app-server.
    pub fn harness_thread_id(&self) -> (native: &str)
        ensures
            native@ == self@.native,
    {
        self.native.as_str()
    }
}

/// Whether this is a handle that is made for a thread.
pub open spec fn makes<F: FnOnce(ThreadId) -> ThreadHandle>(
    make_handle: F,
    thread: ThreadId,
    handle: ThreadHandle,
) -> bool {
    call_ensures(make_handle, (thread,), handle)
}

/// The receiving end of a route's events, for a holder who has still to commit to it.
#[derive(Debug)]
pub struct ThreadAttachment {
    slot: u64,
    activation: u64,
    claim: u64,
    stream: Option<u64>,
    handle: ThreadHandle,
}

impl View for ThreadAttachment {
    type V = AttachmentView;

    closed spec fn view(&self) -> AttachmentView {
        AttachmentView {
            slot: self.slot,
            activation: self.activation,
            claim: self.claim,
            stream: self.stream,
            handle: self.handle,
        }
    }
}

impl ThreadAttachment {
    /// What is known of the thread.
    pub fn handle(&self) -> (handle: &ThreadHandle)
        ensures
            *handle == self@.handle,
    {
        &self.handle
    }

    /// The channel whose receiving end this is.
    pub fn stream(&self) -> (stream: Option<u64>)
        ensures
            stream == self@.stream,
    {
        self.stream
    }
}

/// The receiving end of a route's events, for its owner.
#[derive(Debug)]
pub struct ThreadOwner {
    slot: u64,
    activation: u64,
    claim: u64,
    stream: Option<u64>,
    handle: ThreadHandle,
}

impl View for ThreadOwner {
    type V = AttachmentView;

    closed spec fn view(&self) -> AttachmentView {
        AttachmentView {
            slot: self.slot,
            activation: self.activation,
            claim: self.claim,
            stream: self.stream,
            handle: self.handle,
        }
    }
}

impl ThreadOwner {
    /// What is known of the thread.
    pub fn handle(&self) -> (handle: &ThreadHandle)
        ensures
            *handle == self@.handle,
    {
        &self.handle
    }

    /// The channel whose receiving end this is.
    pub fn stream(&self) -> (stream: Option<u64>)
        ensures
            stream == self@.stream,
    {
        self.stream
    }
}

/// The route that traffic was seen on, with the announcement that is due.
#[derive(Debug)]
pub struct RouteDiscovery {
    /// Permission to deliver through the route.
    pub route: ActiveRoute,
    /// The announcement, where one is due.
    pub ticket: Option<DiscoveryTicket>,
}

impl View for RouteDiscovery {
    type V = (RouteView, Option<TicketView>);

    open spec fn view(&self) -> (RouteView, Option<TicketView>) {
        (self.route@, ticket_view(self.ticket))
    }
}

/// An announcement that may be missing, by its view.
pub open spec fn ticket_view(ticket: Option<DiscoveryTicket>) -> Option<TicketView> {
    match ticket {
        Some(ticket) => Some(ticket@),
        None => None,
    }
}

/// Why a new thread of the app-server could not be bound.
#[derive(Debug)]
pub enum FreshRouteConflict {
    /// The name is bound already.
    AuthoritativeNative {
        /// The thread that has the name.
        thread: ThreadId,
    },
    /// The thread has another name.
    NewNativeForBoundThread {
        /// The name that the thread has.
        existing_native: String,
    },
}

impl View for FreshRouteConflict {
    type V = ConflictView;

    open spec fn view(&self) -> ConflictView {
        match *self {
            FreshRouteConflict::AuthoritativeNative { thread } => {
                ConflictView::AuthoritativeNative { thread }
            },
            FreshRouteConflict::NewNativeForBoundThread { existing_native } => {
                ConflictView::NewNativeForBoundThread { existing_native: existing_native@ }
            },
        }
    }
}

impl FreshRouteConflict {
    /// The failure that a conflict over binding `native` to `proposed` amounts to.
    pub fn as_error(&self, native: &str, proposed: ThreadId) -> (error: HarnessError)
        ensures
            error@ == ErrorView::Protocol(
                match self@ {
                    ConflictView::AuthoritativeNative { thread } => "fresh native thread "@
                        + native@ + " is already authoritative for "@ + thread.chars() + ", not "@
                        + proposed.chars(),
                    ConflictView::NewNativeForBoundThread { existing_native } => "thread "@
                        + proposed.chars() + " is already bound to native thread "@
                        + existing_native + ", not "@ + native@,
                },
            ),
    {
        match self {
            FreshRouteConflict::AuthoritativeNative { thread } => {
                let mut message = concat3(
                    "fresh native thread ",
                    native,
                    " is already authoritative for ",
                );
                message.append(thread.text().as_str());
                message.append(", not ");
                message.append(proposed.text().as_str());
                HarnessError::Protocol(message)
            },
            FreshRouteConflict::NewNativeForBoundThread { existing_native } => {
                let mut message = concat3(
                    "thread ",
                    proposed.text().as_str(),
                    " is already bound to native thread ",
                );
                message.append(existing_native.as_str());
                message.append(", not ");
                message.append(native);
                HarnessError::Protocol(message)
            },
        }
    }
}

/// Why a route could not get another name.
#[derive(Debug)]
pub enum ReplaceRouteFailure {
    /// The new name is bound already.
    AuthoritativeNative {
        /// The thread that has the name.
        thread: ThreadId,
    },
    /// The app-server's new thread has no route.
    NewProviderRoute(HarnessError),
}

impl CodexRouteAuthority {
    /// Binds two names at the start, and hands out permission to deliver between them.
    pub fn bootstrap(&mut self, native: &str, thread: ThreadId) -> (result: Result<
        ActiveRoute,
        HarnessError,
    >)
        requires
            old(self).wf(),
        ensures
            final(self).wf(),
            (final(self)@, outcome_view(result)) == old(self)@.bootstrap(native@, thread),
    {
        let native = match normalized_native(native) {
            Ok(native) => native,
            Err(error) => {
                return Err(error);
            },
        };
        match self.ensure_open() {
            Ok(_) => {},
            Err(error) => {
                return Err(error);
            },
        }
        match self.establish(native, thread) {
            Ok(slot) => self.active_route(slot),
            Err(error) => Err(error),
        }
    }

    /// The route of a name at the app-server; of the fallback where the name is blank.
    pub fn resolve(&self, native: &str, fallback: ThreadId) -> (result: Result<
        ActiveRoute,
        HarnessError,
    >)
        requires
            self.wf(),
        ensures
            outcome_view(result) == self@.resolve(native@, fallback),
    {
        let native = trim(native);
        if native.is_empty() {
            return match self.by_thread.get(&fallback) {
                Some(slot) => match self.active_route(*slot) {
                    Ok(route) => Ok(route),
                    Err(_) => Err(stale_error()),
                },
                None => Err(stale_error()),
            };
        }
        match self.by_native.get(&native.to_owned()) {
            Some(slot) => self.active_route(*slot),
            None => Err(native_error("native thread ", native, " has no active route")),
        }
    }

    /// The route of a thread on this side.
    pub fn active_for_thread(&self, thread: ThreadId) -> (result: Result<ActiveRoute, HarnessError>)
        requires
            self.wf(),
        ensures
            outcome_view(result) == self@.active_for_thread(thread),
    {
        match self.by_thread.get(&thread) {
            Some(slot) => self.active_route(*slot),
            None => Err(stale_error()),
        }
    }

    fn announce(&mut self, slot: u64, discovery: DiscoveryState)
        requires
            old(self).wf(),
            old(self)@.slots.contains_key(slot),
            discovery matches DiscoveryState::Queued(claim) ==> claim < old(self)@.next_claim,
        ensures
            final(self).wf(),
            final(self)@ == old(self)@.announced(slot, discovery),
    {
        let state = match self.slots.get(&slot) {
            Some(route) => route.state,
            None => {
                return ;
            },
        };
        match state {
            SlotState::Active(active) => match active.custody {
                Custody::Unattached { receiver, .. } => {
                    self.set_state(
                        slot,
                        SlotState::Active(
                            ActiveSlot {
                                activation: active.activation,
                                channel: active.channel,
                                custody: Custody::Unattached { receiver, discovery },
                            },
                        ),
                    );
                },
                _ => {},
            },
            SlotState::Tombstoned => {},
        }
    }

    fn queue_idle(&mut self, slot: u64) -> (result: Result<Option<DiscoveryTicket>, HarnessError>)
        requires
            old(self).wf(),
        ensures
            final(self).wf(),
            final(self)@ == old(self)@.queue_idle(slot).0,
            (match result {
                Ok(ticket) => Ok(ticket_view(ticket)),
                Err(error) => Err(error@),
            }) == old(self)@.queue_idle(slot).1,
    {
        let claim = match self.allocate_claim() {
            Ok(claim) => claim,
            Err(error) => {
                return Err(error);
            },
        };
        let ticket = match self.slots.get(&slot) {
            None => {
                return Err(stale_error());
            },
            Some(route) => match route.state {
                SlotState::Tombstoned => {
                    return Err(stale_error());
                },
                SlotState::Active(active) => match active.custody {
                    Custody::Unattached { receiver: _, discovery: DiscoveryState::Idle } => {
                        DiscoveryTicket {
                            slot,
                            activation: active.activation,
                            claim,
                            thread: route.thread,
                            native: route.native.clone(),
                        }
                    },
                    _ => {
                        return Ok(None);
                    },
                },
            },
        };
        self.announce(slot, DiscoveryState::Queued(claim));
        Ok(Some(ticket))
    }

    /// Finds or binds the route that traffic was seen on, and announces it where nobody holds it
    /// and nothing is out.
    pub fn discover(&mut self, native: &str, proposed: ThreadId) -> (result: Result<
        RouteDiscovery,
        HarnessError,
    >)
        requires
            old(self).wf(),
        ensures
            final(self).wf(),
            (final(self)@, outcome_view(result)) == old(self)@.discover(native@, proposed),
    {
        let route = match self.bootstrap(native, proposed) {
            Ok(route) => route,
            Err(error) => {
                return Err(error);
            },
        };
        match self.queue_idle(route.slot) {
            Ok(ticket) => Ok(RouteDiscovery { route, ticket }),
            Err(error) => Err(error),
        }
    }

    /// Announces one of the routes whose announcement waits for room, where there is one.
    pub fn take_pending_discovery(&mut self) -> (result: Result<
        Option<DiscoveryTicket>,
        HarnessError,
    >)
        requires
            old(self).wf(),
        ensures
            final(self).wf(),
            match result {
                Ok(None) => *final(self) == *old(self) && forall|slot: u64|
                    !#[trigger] old(self)@.is_pending(slot),
                Ok(Some(ticket)) => {
                    let (next, claim) = old(self)@.allocate_claim();
                    &&& old(self)@.is_pending(ticket@.slot)
                    &&& claim == Ok::<u64, ErrorView>(ticket@.claim)
                    &&& final(self)@ == next.queued(ticket@.slot, ticket@.claim)
                    &&& ticket@ == old(self)@.ticket(ticket@.slot, ticket@.claim)
                },
                Err(error) => {
                    &&& exists|slot: u64| #[trigger] old(self)@.is_pending(slot)
                    &&& old(self)@.next_claim == u64::MAX
                    &&& error@ == exhausted("route claim"@)
                    &&& final(self)@ == old(self)@
                },
            },
    {
        let n: usize = self.slots.len();
        let mut i: usize = 0;
        while i < n
            invariant
                self.wf(),
                *self == *old(self),
                n == self.slots.order().len(),
                i <= n,
                forall|j: int| 0 <= j < i ==> !#[trigger] self@.is_pending(self.slots.order()[j]),
            decreases n - i,
        {
            let (slot, route) = self.slots.nth(i);
            let slot: u64 = *slot;
            let pending = match route.state {
                SlotState::Active(active) => match active.custody {
                    Custody::Unattached { receiver: _, discovery: DiscoveryState::Pending } => Some(
                        active.activation,
                    ),
                    _ => None,
                },
                SlotState::Tombstoned => None,
            };
            match pending {
                Some(activation) => {
                    let thread = route.thread;
                    let native = route.native.clone();
                    proof {
                        assert(self@.is_pending(slot));
                    }
                    let claim = match self.allocate_claim() {
                        Ok(claim) => claim,
                        Err(error) => {
                            return Err(error);
                        },
                    };
                    self.announce(slot, DiscoveryState::Queued(claim));
                    return Ok(Some(DiscoveryTicket { slot, activation, claim, thread, native }));
                },
                None => {},
            }
            i = i + 1;
        }
        proof {
            self.slots.lemma_order();
            assert forall|slot: u64| !#[trigger] self@.is_pending(slot) by {
                if self@.slots.contains_key(slot) {
                    assert(self.slots.order().to_set().contains(slot));
                    let j = choose|j: int|
                        0 <= j < self.slots.order().len() && self.slots.order()[j] == slot;
                    assert(!self@.is_pending(self.slots.order()[j]));
                }
            }
        }
        Ok(None)
    }

    fn claim_attachment(&mut self, slot: u64, handle: ThreadHandle) -> (result: Result<
        ThreadAttachment,
        HarnessError,
    >)
        requires
            old(self).wf(),
        ensures
            final(self).wf(),
            (final(self)@, outcome_view(result)) == old(self)@.claim_attachment(slot, handle),
    {
        let claim = match self.allocate_claim() {
            Ok(claim) => claim,
            Err(error) => {
                return Err(error);
            },
        };
        let (active, receiver) = match self.slots.get(&slot) {
            None => {
                return Err(stale_error());
            },
            Some(route) => match route.state {
                SlotState::Tombstoned => {
                    return Err(
                        native_error("native thread ", route.native.as_str(), " is tombstoned"),
                    );
                },
                SlotState::Active(active) => match active.custody {
                    Custody::Unattached { receiver, .. } => {
                        if !(handle.thread == route.thread) || !same_text(
                            trim(handle.harness_thread_id.as_str()),
                            route.native.as_str(),
                        ) {
                            return Err(
                                HarnessError::Protocol(
                                    "attachment handle does not match its authoritative route".to_owned(),
                                ),
                            );
                        }
                        (active, receiver)
                    },
                    _ => {
                        return Err(
                            native_error(
                                "native thread ",
                                route.native.as_str(),
                                " already has an attachment or owner",
                            ),
                        );
                    },
                },
            },
        };
        self.set_state(
            slot,
            SlotState::Active(
                ActiveSlot {
                    activation: active.activation,
                    channel: active.channel,
                    custody: Custody::Attaching(claim),
                },
            ),
        );
        Ok(
            ThreadAttachment {
                slot,
                activation: active.activation,
                claim,
                stream: receiver,
                handle,
            },
        )
    }

    fn attach_parent(&mut self, native: &str, proposed: ThreadId, handle: ThreadHandle) -> (result:
        Result<ThreadAttachment, HarnessError>)
        requires
            old(self).wf(),
        ensures
            final(self).wf(),
            (final(self)@, outcome_view(result)) == old(self)@.claim_parent(
                native@,
                proposed,
                handle,
            ),
    {
        let native = match normalized_native(native) {
            Ok(native) => native,
            Err(error) => {
                return Err(error);
            },
        };
        match self.ensure_open() {
            Ok(_) => {},
            Err(error) => {
                return Err(error);
            },
        }
        match self.establish(native, proposed) {
            Ok(slot) => self.claim_attachment(slot, handle),
            Err(error) => Err(error),
        }
    }

    fn attach_fresh(&mut self, native: &str, proposed: ThreadId, handle: ThreadHandle) -> (result:
        Result<Result<ThreadAttachment, FreshRouteConflict>, HarnessError>)
        requires
            old(self).wf(),
        ensures
            final(self).wf(),
            (
                final(self)@,
                match result {
                    Ok(Ok(attachment)) => Ok(Ok(attachment@)),
                    Ok(Err(conflict)) => Ok(Err(conflict@)),
                    Err(error) => Err(error@),
                },
            ) == old(self)@.claim_fresh(native@, proposed, handle),
    {
        let given = native;
        let native = match normalized_native(native) {
            Ok(native) => native,
            Err(error) => {
                return Err(error);
            },
        };
        match self.ensure_open() {
            Ok(_) => {},
            Err(error) => {
                return Err(error);
            },
        }
        match self.by_native.get(&native) {
            Some(slot) => match self.slots.get(slot) {
                Some(route) => {
                    return Ok(
                        Err(FreshRouteConflict::AuthoritativeNative { thread: route.thread }),
                    );
                },
                None => {
                    return Err(stale_error());
                },
            },
            None => {},
        }
        match self.by_thread.get(&proposed) {
            Some(slot) => match self.slots.get(slot) {
                Some(route) => {
                    return Ok(
                        Err(
                            FreshRouteConflict::NewNativeForBoundThread {
                                existing_native: route.native.clone(),
                            },
                        ),
                    );
                },
                None => {
                    return Err(stale_error());
                },
            },
            None => {},
        }
        match self.attach_parent(given, proposed, handle) {
            Ok(attachment) => Ok(Ok(attachment)),
            Err(error) => Err(error),
        }
    }
}

impl CodexRouteAuthority {
    fn reopen(&mut self, slot: u64, handle: ThreadHandle) -> (result: Result<
        ThreadAttachment,
        HarnessError,
    >)
        requires
            old(self).wf(),
            old(self)@.slots.contains_key(slot),
        ensures
            final(self).wf(),
            (final(self)@, outcome_view(result)) == old(self)@.reopen(slot, handle),
    {
        let dead = match self.slots.get(&slot) {
            Some(route) => match route.state {
                SlotState::Tombstoned => true,
                SlotState::Active(_) => false,
            },
            None => false,
        };
        if dead {
            let activation = match self.allocate_activation() {
                Ok(activation) => activation,
                Err(error) => {
                    return Err(error);
                },
            };
            self.set_state(
                slot,
                SlotState::Active(
                    ActiveSlot {
                        activation,
                        channel: activation,
                        custody: Custody::Unattached {
                            receiver: Some(activation),
                            discovery: DiscoveryState::Idle,
                        },
                    },
                ),
            );
        }
        self.claim_attachment(slot, handle)
    }

    fn attach_again(&mut self, native: &str, thread: ThreadId, handle: ThreadHandle) -> (result:
        Result<ThreadAttachment, HarnessError>)
        requires
            old(self).wf(),
        ensures
            final(self).wf(),
            (final(self)@, outcome_view(result)) == old(self)@.reattach(native@, thread, handle),
    {
        let native = match normalized_native(native) {
            Ok(native) => native,
            Err(error) => {
                return Err(error);
            },
        };
        match self.ensure_open() {
            Ok(_) => {},
            Err(error) => {
                return Err(error);
            },
        }
        match self.exact_slot(native.as_str(), thread) {
            Ok(slot) => self.reopen(slot, handle),
            Err(error) => Err(error),
        }
    }

    fn attach_resumed(&mut self, native: &str, thread: ThreadId, handle: ThreadHandle) -> (result:
        Result<ThreadAttachment, HarnessError>)
        requires
            old(self).wf(),
        ensures
            final(self).wf(),
            (final(self)@, outcome_view(result)) == old(self)@.resume(native@, thread, handle),
    {
        let native = match normalized_native(native) {
            Ok(native) => native,
            Err(error) => {
                return Err(error);
            },
        };
        match self.ensure_open() {
            Ok(_) => {},
            Err(error) => {
                return Err(error);
            },
        }
        match self.establish(native, thread) {
            Ok(slot) => self.reopen(slot, handle),
            Err(error) => Err(error),
        }
    }

    /// The thread of the route that a name has, or gets where it has none.
    fn thread_at(&self, native: &str, proposed: ThreadId) -> (thread: ThreadId)
        requires
            self.wf(),
        ensures
            thread == self@.thread_at(trimmed(native@), proposed),
    {
        match self.by_native.get(&trim(native).to_owned()) {
            Some(slot) => match self.slots.get(slot) {
                Some(route) => route.thread,
                None => proposed,
            },
            None => proposed,
        }
    }

    /// Attaches to a route that is found or bound. A tombstoned route stays tombstoned. The handle is
    /// made for the thread that the route belongs to.
    pub fn claim_parent<F: FnOnce(ThreadId) -> ThreadHandle>(
        &mut self,
        native: &str,
        proposed: ThreadId,
        make_handle: F,
    ) -> (result: Result<ThreadAttachment, HarnessError>)
        requires
            old(self).wf(),
            forall|thread: ThreadId| call_requires(make_handle, (thread,)),
        ensures
            final(self).wf(),
            exists|handle: ThreadHandle| #[trigger]
                makes(make_handle, old(self)@.thread_at(trimmed(native@), proposed), handle) && (
                    final(self)@,
                    outcome_view(result),
                ) == old(self)@.claim_parent(native@, proposed, handle),
    {
        let made_for = self.thread_at(native, proposed);
        let handle = make_handle(made_for);
        proof {
            assert(makes(make_handle, made_for, handle));
        }
        self.attach_parent(native, proposed, handle)
    }

    /// Attaches to a new thread of the app-server. Whatever stands against binding it is told
    /// before anything changes.
    pub fn claim_fresh<F: FnOnce(ThreadId) -> ThreadHandle>(
        &mut self,
        native: &str,
        proposed: ThreadId,
        make_handle: F,
    ) -> (result: Result<Result<ThreadAttachment, FreshRouteConflict>, HarnessError>)
        requires
            old(self).wf(),
            forall|thread: ThreadId| call_requires(make_handle, (thread,)),
        ensures
            final(self).wf(),
            exists|handle: ThreadHandle| #[trigger]
                makes(make_handle, proposed, handle) && (
                    final(self)@,
                    match result {
                        Ok(Ok(attachment)) => Ok(Ok(attachment@)),
                        Ok(Err(conflict)) => Ok(Err(conflict@)),
                        Err(error) => Err(error@),
                    },
                ) == old(self)@.claim_fresh(native@, proposed, handle),
    {
        let handle = make_handle(proposed);
        proof {
            assert(makes(make_handle, proposed, handle));
        }
        self.attach_fresh(native, proposed, handle)
    }

    /// Attaches to an exact pair of bound names, and reactivates it where it is tombstoned.
    pub fn reattach<F: FnOnce(ThreadId) -> ThreadHandle>(
        &mut self,
        native: &str,
        thread: ThreadId,
        make_handle: F,
    ) -> (result: Result<ThreadAttachment, HarnessError>)
        requires
            old(self).wf(),
            forall|thread: ThreadId| call_requires(make_handle, (thread,)),
        ensures
            final(self).wf(),
            exists|handle: ThreadHandle| #[trigger]
                makes(make_handle, thread, handle) && (
                    final(self)@,
                    outcome_view(result),
                ) == old(self)@.reattach(native@, thread, handle),
    {
        let handle = make_handle(thread);
        proof {
            assert(makes(make_handle, thread, handle));
        }
        self.attach_again(native, thread, handle)
    }

    /// Attaches to a route that the app-server resumed. It is found or bound, and reactivated
    /// where it is tombstoned. The handle is made for the thread that the route belongs to.
    pub fn resume<F: FnOnce(ThreadId) -> ThreadHandle>(
        &mut self,
        native: &str,
        thread: ThreadId,
        make_handle: F,
    ) -> (result: Result<ThreadAttachment, HarnessError>)
        requires
            old(self).wf(),
            forall|thread: ThreadId| call_requires(make_handle, (thread,)),
        ensures
            final(self).wf(),
            exists|handle: ThreadHandle| #[trigger]
                makes(make_handle, old(self)@.thread_at(trimmed(native@), thread), handle) && (
                    final(self)@,
                    outcome_view(result),
                ) == old(self)@.resume(native@, thread, handle),
    {
        let made_for = self.thread_at(native, thread);
        let handle = make_handle(made_for);
        proof {
            assert(makes(make_handle, made_for, handle));
        }
        self.attach_resumed(native, thread, handle)
    }

    fn rename(&mut self, slot: u64, new_native: String, state: SlotState)
        requires
            old(self).wf(),
            old(self)@.slots.contains_key(slot),
            old(self)@.slots[slot].native == new_native@ || !old(self)@.by_native.contains_key(
                new_native@,
            ),
            state_below(state, old(self)@.next_activation, old(self)@.next_claim),
        ensures
            final(self).wf(),
            final(self)@ == old(self)@.rename(slot, new_native@, state),
    {
        let ghost before = self@;
        match self.slots.remove(&slot) {
            Some(route) => {
                let old_native = route.native;
                let thread = route.thread;
                self.by_native.remove(&old_native);
                self.by_native.insert(new_native.clone(), slot);
                self.slots.insert(slot, RouteSlot { native: new_native, thread, state });
                proof {
                    let after = before.rename(slot, new_native@, state);
                    assert(self@.slots =~= after.slots);
                    assert(self@ == after);
                    assert forall|other: u64| #[trigger] self@.slots.contains_key(other) && other != slot implies
                        before.slots.contains_key(other) && before.slots[other].native != new_native@ by {
                        assert(before.by_native[before.slots[other].native] == other);
                    }
                    assert(self@.wf());
                }
            },
            None => {},
        }
    }

    fn attach_replaced(
        &mut self,
        expected_native: &str,
        new_native: &str,
        thread: ThreadId,
        handle: ThreadHandle,
    ) -> (result: Result<ThreadAttachment, HarnessError>)
        requires
            old(self).wf(),
        ensures
            final(self).wf(),
            (final(self)@, outcome_view(result)) == old(self)@.replace(
                expected_native@,
                new_native@,
                thread,
                handle,
            ),
    {
        let expected = match normalized_native(expected_native) {
            Ok(native) => native,
            Err(error) => {
                return Err(error);
            },
        };
        let new_native = match normalized_native(new_native) {
            Ok(native) => native,
            Err(error) => {
                return Err(error);
            },
        };
        match self.ensure_open() {
            Ok(_) => {},
            Err(error) => {
                return Err(error);
            },
        }
        let slot = match self.exact_slot(expected.as_str(), thread) {
            Ok(slot) => slot,
            Err(error) => {
                return Err(error);
            },
        };
        if !(new_native == expected) && self.by_native.contains_key(&new_native) {
            return Err(native_error("native thread ", new_native.as_str(), " is already bound"));
        }
        let state = match self.slots.get(&slot) {
            Some(route) => route.state,
            None => {
                return Err(stale_error());
            },
        };
        match state {
            SlotState::Active(active) => match active.custody {
                Custody::Unattached { receiver, discovery } => {
                    let activation = match self.allocate_activation() {
                        Ok(activation) => activation,
                        Err(error) => {
                            self.set_state(
                                slot,
                                SlotState::Active(
                                    ActiveSlot {
                                        activation: active.activation,
                                        channel: active.channel,
                                        custody: Custody::Unattached { receiver: None, discovery },
                                    },
                                ),
                            );
                            return Err(error);
                        },
                    };
                    self.rename(
                        slot,
                        new_native,
                        SlotState::Active(
                            ActiveSlot {
                                activation,
                                channel: active.channel,
                                custody: Custody::Unattached {
                                    receiver,
                                    discovery: DiscoveryState::Idle,
                                },
                            },
                        ),
                    );
                },
                _ => {
                    return Err(
                        native_error("cannot replace attached native thread ", expected.as_str(), ""),
                    );
                },
            },
            SlotState::Tombstoned => {
                let activation = match self.allocate_activation() {
                    Ok(activation) => activation,
                    Err(error) => {
                        return Err(error);
                    },
                };
                self.rename(
                    slot,
                    new_native,
                    SlotState::Active(
                        ActiveSlot {
                            activation,
                            channel: activation,
                            custody: Custody::Unattached {
                                receiver: Some(activation),
                                discovery: DiscoveryState::Idle,
                            },
                        },
                    ),
                );
            },
        }
        self.claim_attachment(slot, handle)
    }

    /// Gives an unattached or tombstoned route another name at the app-server, after the thread
    /// of the old name could not be resumed, and attaches to it.
    pub fn replace<F: FnOnce(ThreadId) -> ThreadHandle>(
        &mut self,
        expected_native: &str,
        new_native: &str,
        thread: ThreadId,
        make_handle: F,
    ) -> (result: Result<ThreadAttachment, HarnessError>)
        requires
            old(self).wf(),
            forall|thread: ThreadId| call_requires(make_handle, (thread,)),
        ensures
            final(self).wf(),
            exists|handle: ThreadHandle| #[trigger]
                makes(make_handle, thread, handle) && (final(self)@, outcome_view(result)) == old(
                    self,
                )@.replace(expected_native@, new_native@, thread, handle),
    {
        let handle = make_handle(thread);
        proof {
            assert(makes(make_handle, thread, handle));
        }
        self.attach_replaced(expected_native, new_native, thread, handle)
    }

    /// Like [`CodexRouteAuthority::replace`], but tells where the new name has its thread already,
    /// which nothing then changes.
    pub fn replace_fresh<F: FnOnce(ThreadId) -> ThreadHandle>(
        &mut self,
        expected_native: &str,
        new_native: &str,
        thread: ThreadId,
        make_handle: F,
    ) -> (result: Result<ThreadAttachment, ReplaceRouteFailure>)
        requires
            old(self).wf(),
            forall|thread: ThreadId| call_requires(make_handle, (thread,)),
        ensures
            final(self).wf(),
            match old(self)@.replacement_owner(expected_native@, new_native@) {
                Some(owner) => {
                    &&& *final(self) == *old(self)
                    &&& result matches Err(ReplaceRouteFailure::AuthoritativeNative { thread: t })
                    &&& t == owner
                },
                None => exists|handle: ThreadHandle| #[trigger]
                    makes(make_handle, thread, handle) && {
                        let (next, replaced) = old(self)@.replace(
                            expected_native@,
                            new_native@,
                            thread,
                            handle,
                        );
                        &&& final(self)@ == next
                        &&& match result {
                            Ok(attachment) => replaced == Ok::<AttachmentView, ErrorView>(
                                attachment@,
                            ),
                            Err(ReplaceRouteFailure::NewProviderRoute(error)) => replaced == Err::<
                                AttachmentView,
                                ErrorView,
                            >(error@),
                            Err(ReplaceRouteFailure::AuthoritativeNative { .. }) => false,
                        }
                    },
            },
    {
        let wanted = trim(new_native);
        if !same_text(wanted, trim(expected_native)) {
            match self.by_native.get(&wanted.to_owned()) {
                Some(slot) => match self.slots.get(slot) {
                    Some(route) => {
                        return Err(
                            ReplaceRouteFailure::AuthoritativeNative { thread: route.thread },
                        );
                    },
                    None => {},
                },
                None => {},
            }
        }
        match self.replace(expected_native, new_native, thread, make_handle) {
            Ok(attachment) => Ok(attachment),
            Err(error) => Err(ReplaceRouteFailure::NewProviderRoute(error)),
        }
    }

    /// Tombstones an exact pair of bound names: every permission on the route goes stale, and
    /// nothing is delivered.
    pub fn tombstone(&mut self, native: &str, thread: ThreadId) -> (result: Result<
        (),
        HarnessError,
    >)
        requires
            old(self).wf(),
        ensures
            final(self).wf(),
            (final(self)@, outcome(result)) == old(self)@.tombstone(native@, thread),
    {
        match self.exact_slot(trim(native), thread) {
            Ok(slot) => {
                self.set_state(slot, SlotState::Tombstoned);
                Ok(())
            },
            Err(error) => Err(error),
        }
    }

    /// The channel to which an event of a thread goes through a route.
    pub fn deliver(&self, route: &ActiveRoute, event_thread: ThreadId) -> (result: Result<
        u64,
        HarnessError,
    >)
        requires
            self.wf(),
        ensures
            outcome(result) == self@.deliver(route@, event_thread),
    {
        let channel = match self.slots.get(&route.slot) {
            None => {
                return Err(stale_error());
            },
            Some(slot) => match slot.state {
                SlotState::Tombstoned => {
                    return Err(stale_error());
                },
                SlotState::Active(active) => {
                    if active.activation != route.activation {
                        return Err(stale_error());
                    }
                    active.channel
                },
            },
        };
        if event_thread == route.thread_id {
            Ok(channel)
        } else {
            let mut message = concat3(
                "mapped event for thread ",
                event_thread.text().as_str(),
                " cannot use route for ",
            );
            message.append(route.thread_id.text().as_str());
            Err(HarnessError::Protocol(message))
        }
    }

    /// Shuts the authority down: nothing is bound any more, and nothing will be.
    pub fn close(&mut self)
        requires
            old(self).wf(),
        ensures
            final(self).wf(),
            final(self)@ == old(self)@.shut_down(),
    {
        self.closed = true;
        self.by_native = KeyMap::new();
        self.by_thread = KeyMap::new();
        self.slots = KeyMap::new();
    }

    /// Shuts the authority down because a holder of its lock failed, and tells so.
    pub fn close_poisoned(&mut self) -> (error: HarnessError)
        requires
            old(self).wf(),
        ensures
            final(self).wf(),
            final(self)@ == old(self)@.shut_down(),
            error@ == ErrorView::Transport(
                "Codex route authority lock poisoned; authority closed"@,
            ),
    {
        self.close();
        HarnessError::Transport("Codex route authority lock poisoned; authority closed".to_owned())
    }

    fn is_out(&self, ticket: &DiscoveryTicket) -> (out: bool)
        requires
            self.wf(),
        ensures
            out == self@.ticket_is_out(ticket@),
    {
        match self.slots.get(&ticket.slot) {
            None => false,
            Some(slot) => match slot.state {
                SlotState::Tombstoned => false,
                SlotState::Active(active) => active.activation == ticket.activation
                    && match active.custody {
                    Custody::Unattached { receiver: _, discovery: DiscoveryState::Queued(claim) } => claim
                        == ticket.claim,
                    _ => false,
                },
            },
        }
    }

    /// Lets an announcement wait for room, where its ticket is the one that is out.
    pub fn defer_ticket(&mut self, ticket: DiscoveryTicket) -> (result: Result<(), HarnessError>)
        requires
            old(self).wf(),
        ensures
            final(self).wf(),
            (final(self)@, outcome(result)) == (if old(self)@.ticket_is_out(ticket@) {
                (old(self)@.announced(ticket@.slot, DiscoveryState::Pending), Ok(()))
            } else {
                (old(self)@, Err(stale()))
            }),
    {
        if self.is_out(&ticket) {
            self.announce(ticket.slot, DiscoveryState::Pending);
            Ok(())
        } else {
            Err(stale_error())
        }
    }

    /// Takes an announcement back, where its ticket is the one that is out; another ticket does
    /// nothing.
    pub fn return_ticket(&mut self, ticket: DiscoveryTicket)
        requires
            old(self).wf(),
        ensures
            final(self).wf(),
            final(self)@ == (if old(self)@.ticket_is_out(ticket@) {
                old(self)@.announced(ticket@.slot, DiscoveryState::Idle)
            } else {
                old(self)@
            }),
    {
        if self.is_out(&ticket) {
            self.announce(ticket.slot, DiscoveryState::Idle);
        }
    }

    /// Attaches to the announced route, where the ticket is the one that is out.
    pub fn claim_ticket(&mut self, ticket: DiscoveryTicket, workspace: String) -> (result: Result<
        ThreadAttachment,
        HarnessError,
    >)
        requires
            old(self).wf(),
        ensures
            final(self).wf(),
            old(self)@.ticket_is_out(ticket@) ==> {
                &&& result matches Ok(attachment)
                &&& final(self)@ == old(self)@.with_custody(
                    ticket@.slot,
                    Custody::Attaching(ticket@.claim),
                )
                &&& attachment@.slot == ticket@.slot
                &&& attachment@.activation == ticket@.activation
                &&& attachment@.claim == ticket@.claim
                &&& attachment@.stream
                    == old(self)@.slots[ticket@.slot].state->Active_0.custody->receiver
                &&& attachment@.handle.thread == old(self)@.slots[ticket@.slot].thread
                &&& attachment@.handle.harness_thread_id@ == old(self)@.slots[ticket@.slot].native
                &&& attachment@.handle.workspace_root == workspace
                &&& attachment@.handle.warning is None
                &&& attachment@.handle.resumed_model is None
                &&& attachment@.handle.agent_name is None
                &&& attachment@.handle.parent_harness_thread_id is None
            },
            !old(self)@.ticket_is_out(ticket@) ==> final(self)@ == old(self)@ && outcome_view(
                result,
            ) == Err::<AttachmentView, ErrorView>(stale()),
    {
        if !self.is_out(&ticket) {
            return Err(stale_error());
        }
        let (thread, native, active, receiver) = match self.slots.get(&ticket.slot) {
            None => {
                return Err(stale_error());
            },
            Some(slot) => match slot.state {
                SlotState::Tombstoned => {
                    return Err(stale_error());
                },
                SlotState::Active(active) => match active.custody {
                    Custody::Unattached { receiver, .. } => (
                        slot.thread,
                        slot.native.clone(),
                        active,
                        receiver,
                    ),
                    _ => {
                        return Err(stale_error());
                    },
                },
            },
        };
        self.set_state(
            ticket.slot,
            SlotState::Active(
                ActiveSlot {
                    activation: active.activation,
                    channel: active.channel,
                    custody: Custody::Attaching(ticket.claim),
                },
            ),
        );
        Ok(
            ThreadAttachment {
                slot: ticket.slot,
                activation: ticket.activation,
                claim: ticket.claim,
                stream: receiver,
                handle: ThreadHandle::opened(thread, native, workspace),
            },
        )
    }

    fn holds(&self, slot: u64, activation: u64, custody: Custody) -> (holds: bool)
        requires
            self.wf(),
        ensures
            holds == (self@.activation_of(slot, activation) matches Some(active) && active.custody
                == custody),
    {
        match self.slots.get(&slot) {
            None => false,
            Some(route) => match route.state {
                SlotState::Tombstoned => false,
                SlotState::Active(active) => active.activation == activation && active.custody
                    == custody,
            },
        }
    }

    fn set_custody(&mut self, slot: u64, custody: Custody)
        requires
            old(self).wf(),
            old(self)@.slots.contains_key(slot),
            old(self)@.slots[slot].state matches SlotState::Active(active) ==> state_below(
                SlotState::Active(ActiveSlot { custody, ..active }),
                old(self)@.next_activation,
                old(self)@.next_claim,
            ),
        ensures
            final(self).wf(),
            final(self)@ == old(self)@.with_custody(slot, custody),
    {
        let state = match self.slots.get(&slot) {
            Some(route) => route.state,
            None => {
                return ;
            },
        };
        match state {
            SlotState::Active(active) => {
                self.set_state(
                    slot,
                    SlotState::Active(
                        ActiveSlot {
                            activation: active.activation,
                            channel: active.channel,
                            custody,
                        },
                    ),
                );
            },
            SlotState::Tombstoned => {},
        }
    }

    /// Makes the holder of an attachment the owner of its route, where the attachment holds the
    /// receiving end.
    pub fn commit_attachment(&mut self, attachment: ThreadAttachment) -> (result: Result<
        ThreadOwner,
        HarnessError,
    >)
        requires
            old(self).wf(),
        ensures
            final(self).wf(),
            ({
                let a = attachment@;
                (final(self)@, outcome_view(result)) == (if old(self)@.is_attaching(
                    a.slot,
                    a.activation,
                    a.claim,
                ) {
                    (old(self)@.with_custody(a.slot, Custody::Owned(a.claim)), Ok(a))
                } else {
                    (old(self)@, Err(stale()))
                })
            }),
    {
        if self.holds(
            attachment.slot,
            attachment.activation,
            Custody::Attaching(attachment.claim),
        ) {
            self.set_custody(attachment.slot, Custody::Owned(attachment.claim));
            Ok(
                ThreadOwner {
                    slot: attachment.slot,
                    activation: attachment.activation,
                    claim: attachment.claim,
                    stream: attachment.stream,
                    handle: attachment.handle,
                },
            )
        } else {
            Err(stale_error())
        }
    }

    /// Gives a route its receiving end back, where the attachment holds it; another attachment
    /// does nothing.
    pub fn return_attachment(&mut self, attachment: ThreadAttachment)
        requires
            old(self).wf(),
        ensures
            final(self).wf(),
            final(self)@ == (if old(self)@.is_attaching(
                attachment@.slot,
                attachment@.activation,
                attachment@.claim,
            ) {
                old(self)@.returned(attachment@)
            } else {
                old(self)@
            }),
    {
        if self.holds(
            attachment.slot,
            attachment.activation,
            Custody::Attaching(attachment.claim),
        ) {
            self.set_custody(
                attachment.slot,
                Custody::Unattached {
                    receiver: attachment.stream,
                    discovery: DiscoveryState::Idle,
                },
            );
        }
    }

    /// Gives a route its receiving end back, where the owner holds it; another owner does
    /// nothing.
    pub fn return_owner(&mut self, owner: ThreadOwner)
        requires
            old(self).wf(),
        ensures
            final(self).wf(),
            final(self)@ == (if old(self)@.is_owned(owner@.slot, owner@.activation, owner@.claim) {
                old(self)@.returned(owner@)
            } else {
                old(self)@
            }),
    {
        if self.holds(owner.slot, owner.activation, Custody::Owned(owner.claim)) {
            self.set_custody(
                owner.slot,
                Custody::Unattached { receiver: owner.stream, discovery: DiscoveryState::Idle },
            );
        }
    }
}

/// The failure to deliver through a route whose channel has no receiving end.
pub fn no_receiver_error(route: &ActiveRoute) -> (error: HarnessError)
    ensures
        error@ == ErrorView::Transport(
            "native thread "@ + route@.native + " has no event receiver"@,
        ),
{
    HarnessError::Transport(
        concat3("native thread ", route.native_thread_id.as_str(), " has no event receiver"),
    )
}

} // verus!
