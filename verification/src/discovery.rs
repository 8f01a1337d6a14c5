//! The announcement of routes through a channel of limited room.

use vstd::prelude::*;

use crate::error::{ErrorView, HarnessError};
use crate::route_model::{exhausted, TableView, TicketView};
use crate::routes::{ticket_view, CodexRouteAuthority, DiscoveryTicket};

verus! {

/// What came of sending a ticket.
#[derive(Clone, Copy, PartialEq, Eq, Structural, Debug)]
#[allow(inconsistent_fields)]
pub enum SendOutcome {
    /// It was sent.
    Sent,
    /// There was no room.
    Full,
    /// Nobody is there to receive it.
    Closed,
}

/// What became of a ticket that was submitted.
#[derive(Debug)]
pub enum Submission {
    /// It was sent.
    Queued,
    /// There was no room: it is handed back.
    Deferred(DiscoveryTicket),
    /// Nobody is there to receive it: it is handed back.
    Closed(DiscoveryTicket),
}

/// Keeps one ticket that waits for room, and knows whether anybody is there to receive tickets.
pub struct DiscoveryAdmission {
    pending: Option<DiscoveryTicket>,
    open: bool,
    failed: bool,
}

/// Keeps one ticket that waits for room, and knows whether anybody is there to receive tickets.
#[verifier::ext_equal]
pub struct AdmissionView {
    /// The ticket that waits for room.
    pub pending: Option<TicketView>,
    /// Whether tickets are taken.
    pub open: bool,
    /// Whether nobody is there any longer.
    pub failed: bool,
}

impl View for DiscoveryAdmission {
    type V = AdmissionView;

    closed spec fn view(&self) -> AdmissionView {
        AdmissionView {
            pending: ticket_view(self.pending),
            open: self.open,
            failed: self.failed,
        }
    }
}

impl AdmissionView {
    /// Nobody is there any longer, and no ticket waits.
    pub open spec fn shut() -> AdmissionView {
        AdmissionView { pending: None, open: false, failed: true }
    }

    /// Whether a ticket waits for room.
    pub open spec fn waits(self) -> bool {
        self.open && self.pending is Some
    }
}

impl DiscoveryAdmission {
    /// Tickets are taken, and none waits.
    pub fn new() -> (admission: Self)
        ensures
            admission@ == (AdmissionView { pending: None, open: true, failed: false }),
    {
        DiscoveryAdmission { pending: None, open: true, failed: false }
    }

    /// Whether tickets are taken.
    pub fn is_open(&self) -> (open: bool)
        ensures
            open == self@.open,
    {
        self.open
    }

    /// Whether nobody is there any longer.
    pub fn failed(&self) -> (failed: bool)
        ensures
            failed == self@.failed,
    {
        self.failed
    }

    /// What became of a ticket, after it was sent or could not be.
    pub fn submit(&self, ticket: DiscoveryTicket, sent: SendOutcome) -> (submission: Submission)
        ensures
            submission == (match sent {
                SendOutcome::Sent => Submission::Queued,
                SendOutcome::Full => Submission::Deferred(ticket),
                SendOutcome::Closed => Submission::Closed(ticket),
            }),
    {
        match sent {
            SendOutcome::Sent => Submission::Queued,
            SendOutcome::Full => Submission::Deferred(ticket),
            SendOutcome::Closed => Submission::Closed(ticket),
        }
    }

    /// Takes a ticket that waits for room, where none waits here yet.
    pub fn stage_pending(&mut self, routes: &mut CodexRouteAuthority) -> (result: Result<
        (),
        HarnessError,
    >)
        requires
            old(routes).wf(),
        ensures
            final(routes).wf(),
            (old(self)@.pending is Some || !old(self)@.open) ==> result is Ok && final(self)@
                == old(self)@ && final(routes)@ == old(routes)@,
            (old(self)@.pending is None && old(self)@.open) ==> staged(
                old(self)@,
                old(routes)@,
                final(self)@,
                final(routes)@,
                result,
            ),
    {
        if self.pending.is_none() && self.open {
            match routes.take_pending_discovery() {
                Ok(pending) => {
                    self.pending = pending;
                },
                Err(error) => {
                    return Err(error);
                },
            }
        }
        Ok(())
    }

    /// Whether a ticket waits for room.
    pub fn has_pending(&self) -> (waits: bool)
        ensures
            waits == self@.waits(),
    {
        self.open && self.pending.is_some()
    }

    /// Hands out the ticket that waits.
    pub fn take_pending(&mut self) -> (ticket: Option<DiscoveryTicket>)
        ensures
            ticket_view(ticket) == old(self)@.pending,
            final(self)@ == (AdmissionView { pending: None, ..old(self)@ }),
    {
        self.pending.take()
    }

    /// Nobody is there any longer: no ticket is taken, and the one that waits is dropped.
    pub fn close_failed(&mut self)
        ensures
            final(self)@ == AdmissionView::shut(),
    {
        self.open = false;
        self.failed = true;
        self.pending = None;
    }
}

/// What is known after a ticket that waits for room was looked for: the ticket of one of the routes
/// whose announcement waits, or none where none does.
pub open spec fn staged(
    before: AdmissionView,
    routes: TableView,
    after: AdmissionView,
    routes_after: TableView,
    result: Result<(), HarnessError>,
) -> bool {
    match result {
        Ok(()) => match after.pending {
            None => {
                &&& after == before
                &&& routes_after == routes
                &&& forall|slot: u64| !#[trigger] routes.is_pending(slot)
            },
            Some(ticket) => {
                let (next, claim) = routes.allocate_claim();
                &&& after == (AdmissionView { pending: Some(ticket), ..before })
                &&& routes.is_pending(ticket.slot)
                &&& claim == Ok::<u64, ErrorView>(ticket.claim)
                &&& routes_after == next.queued(ticket.slot, ticket.claim)
                &&& ticket == routes.ticket(ticket.slot, ticket.claim)
            },
        },
        Err(error) => {
            &&& after == before
            &&& routes_after == routes
            &&& exists|slot: u64| #[trigger] routes.is_pending(slot)
            &&& routes.next_claim == u64::MAX
            &&& error@ == exhausted("route claim"@)
        },
    }
}

/// Once nobody is there to receive tickets, none waits, and none is taken ever after.
pub proof fn law_shut_admission_stays_shut(admission: AdmissionView)
    requires
        admission == AdmissionView::shut(),
    ensures
        !admission.waits(),
        !admission.open,
        admission.failed,
        (AdmissionView { pending: None, ..admission }) == admission,
{
}

} // verus!
