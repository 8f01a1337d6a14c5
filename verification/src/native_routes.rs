//! Routes of threads of the app-server, each under the epoch in which it was claimed.

use vstd::prelude::*;

use crate::error::{outcome, outcome_view, ErrorView, HarnessError};
use crate::ids::ThreadId;
use crate::maps::{KeyMap, TextMap, ThreadMap};
use crate::text::{concat3, trim, trimmed};

verus! {

/// A claimed route: the two names that it binds, and the epoch in which it was claimed.
#[derive(Debug)]
pub struct ClaimedNativeRoute {
    /// The thread on this side.
    pub thread_id: ThreadId,
    /// The thread's name at the app-server.
    pub harness_thread_id: String,
    /// The epoch, which also names the channel of the route's events.
    pub route_epoch: u64,
}

/// A claimed route.
#[verifier::ext_equal]
pub struct ClaimView {
    /// The thread on this side.
    pub thread: ThreadId,
    /// The thread's name at the app-server.
    pub native: Seq<char>,
    /// The epoch.
    pub epoch: u64,
}

impl View for ClaimedNativeRoute {
    type V = ClaimView;

    open spec fn view(&self) -> ClaimView {
        ClaimView {
            thread: self.thread_id,
            native: self.harness_thread_id@,
            epoch: self.route_epoch,
        }
    }
}

impl ClaimedNativeRoute {
    /// Another value of the same route.
    pub fn copy(&self) -> (route: ClaimedNativeRoute)
        ensures
            route == *self,
    {
        ClaimedNativeRoute {
            thread_id: self.thread_id,
            harness_thread_id: self.harness_thread_id.clone(),
            route_epoch: self.route_epoch,
        }
    }

    /// Whether two routes are the same, claimed in the same epoch.
    pub fn same(&self, other: &ClaimedNativeRoute) -> (same: bool)
        ensures
            same == (self@ == other@),
    {
        self.thread_id == other.thread_id && self.harness_thread_id == other.harness_thread_id
            && self.route_epoch == other.route_epoch
    }
}

/// A route, whether its receiving end is still here, and whether its owner is ready.
struct NativeRouteEntry {
    route: ClaimedNativeRoute,
    has_receiver: bool,
    ready: bool,
}

/// A route, whether its receiving end is still here, and whether its owner is ready.
#[verifier::ext_equal]
pub struct EntryView {
    /// The route.
    pub route: ClaimView,
    /// Whether nobody claimed the receiving end.
    pub has_receiver: bool,
    /// Whether the owner of the route acknowledged it.
    pub ready: bool,
}

impl View for NativeRouteEntry {
    type V = EntryView;

    closed spec fn view(&self) -> EntryView {
        EntryView { route: self.route@, has_receiver: self.has_receiver, ready: self.ready }
    }
}

/// What the routes are.
#[verifier::ext_equal]
pub struct RoutesView {
    /// The route of each name at the app-server.
    pub by_native: Map<Seq<char>, EntryView>,
    /// The name of each thread on this side.
    pub native_by_thread: Map<ThreadId, Seq<char>>,
    /// The epoch in which a route was claimed last.
    pub last_epoch: u64,
}

/// The failure of a route that is not the one at hand.
pub open spec fn stale_route() -> ErrorView {
    ErrorView::Protocol("stale or unknown native route"@)
}

impl RoutesView {
    /// Names and threads are bound one to one, and epochs in use were handed out, each once.
    pub open spec fn wf(self) -> bool {
        &&& forall|native: Seq<char>| #[trigger]
            self.by_native.contains_key(native) ==> {
                &&& self.by_native[native].route.native == native
                &&& self.native_by_thread.contains_key(self.by_native[native].route.thread)
                &&& self.native_by_thread[self.by_native[native].route.thread] == native
                &&& self.by_native[native].route.epoch <= self.last_epoch
            }
        &&& forall|thread: ThreadId| #[trigger]
            self.native_by_thread.contains_key(thread) ==> {
                &&& self.by_native.contains_key(self.native_by_thread[thread])
                &&& self.by_native[self.native_by_thread[thread]].route.thread == thread
            }
        &&& forall|a: Seq<char>, b: Seq<char>| #[trigger]
            self.by_native.contains_key(a) && #[trigger] self.by_native.contains_key(b)
                && self.by_native[a].route.epoch == self.by_native[b].route.epoch ==> a == b
    }

    /// Claims the route of a name: the one that exists, whatever thread is suggested, or a new one
    /// to the suggested thread in a new epoch.
    pub open spec fn claim(self, native: Seq<char>, suggested: ThreadId) -> (
        RoutesView,
        Result<ClaimView, ErrorView>,
    ) {
        let native = trimmed(native);
        if native.len() == 0 {
            (self, Err(ErrorView::Protocol("cannot claim an empty native thread id"@)))
        } else if self.by_native.contains_key(native) {
            (self, Ok(self.by_native[native].route))
        } else if self.native_by_thread.contains_key(suggested) {
            (
                self,
                Err(
                    ErrorView::Protocol(
                        "thread "@ + suggested.chars() + " is already bound to native route "@
                            + self.native_by_thread[suggested],
                    ),
                ),
            )
        } else if self.last_epoch == u64::MAX {
            (self, Err(ErrorView::Protocol("native route epoch space exhausted"@)))
        } else {
            let route = ClaimView {
                thread: suggested,
                native,
                epoch: (self.last_epoch + 1) as u64,
            };
            (
                RoutesView {
                    by_native: self.by_native.insert(
                        native,
                        EntryView { route, has_receiver: true, ready: false },
                    ),
                    native_by_thread: self.native_by_thread.insert(suggested, native),
                    last_epoch: route.epoch,
                },
                Ok(route),
            )
        }
    }

    /// Whether a route is the one at hand under its name.
    pub open spec fn is_current(self, route: ClaimView) -> bool {
        self.by_native.contains_key(route.native) && self.by_native[route.native].route == route
    }

    /// The routes with another entry under a name that is bound.
    pub open spec fn with_entry(self, native: Seq<char>, entry: EntryView) -> RoutesView {
        RoutesView { by_native: self.by_native.insert(native, entry), ..self }
    }

    /// Hands the receiving end of a route out, which happens once.
    pub open spec fn claim_receiver(self, route: ClaimView) -> (RoutesView, Result<u64, ErrorView>) {
        if !self.is_current(route) {
            (self, Err(stale_route()))
        } else if !self.by_native[route.native].has_receiver {
            (
                self,
                Err(
                    ErrorView::Protocol(
                        "native route "@ + route.native + " event receiver was already claimed"@,
                    ),
                ),
            )
        } else {
            (
                self.with_entry(
                    route.native,
                    EntryView { has_receiver: false, ..self.by_native[route.native] },
                ),
                Ok(route.epoch),
            )
        }
    }

    /// Takes the acknowledgement of a route's owner, which must have the receiving end.
    pub open spec fn acknowledge(self, route: ClaimView) -> (RoutesView, Result<(), ErrorView>) {
        if !self.is_current(route) {
            (self, Err(stale_route()))
        } else if self.by_native[route.native].has_receiver {
            (
                self,
                Err(
                    ErrorView::Protocol(
                        "native route "@ + route.native
                            + " was acknowledged before its receiver was claimed"@,
                    ),
                ),
            )
        } else {
            (
                self.with_entry(
                    route.native,
                    EntryView { ready: true, ..self.by_native[route.native] },
                ),
                Ok(()),
            )
        }
    }

    /// The routes without the route of a thread.
    pub open spec fn without(self, thread: ThreadId) -> RoutesView {
        if self.native_by_thread.contains_key(thread) {
            RoutesView {
                by_native: self.by_native.remove(self.native_by_thread[thread]),
                native_by_thread: self.native_by_thread.remove(thread),
                ..self
            }
        } else {
            self
        }
    }

    /// Whether the owner of a name's route acknowledged it.
    pub open spec fn is_ready(self, native: Seq<char>) -> bool {
        self.by_native.contains_key(native) && self.by_native[native].ready
    }

    /// The channel to which events of a thread go.
    pub open spec fn sender(self, thread: ThreadId) -> Option<u64> {
        if self.native_by_thread.contains_key(thread) {
            Some(self.by_native[self.native_by_thread[thread]].route.epoch)
        } else {
            None
        }
    }
}

/// The routes of one app-server process.
pub struct NativeRoutes {
    by_native: TextMap<NativeRouteEntry>,
    native_by_thread: ThreadMap<String>,
    next_route_epoch: u64,
}

impl View for NativeRoutes {
    type V = RoutesView;

    closed spec fn view(&self) -> RoutesView {
        RoutesView {
            by_native: self.by_native@,
            native_by_thread: self.native_by_thread@,
            last_epoch: self.next_route_epoch,
        }
    }
}

impl NativeRoutes {
    /// The tables are maps, and bind names and threads one to one.
    pub closed spec fn wf(self) -> bool {
        &&& self.by_native.wf()
        &&& self.native_by_thread.wf()
        &&& self@.wf()
    }

    /// Well-formed routes bind names and threads one to one.
    pub proof fn lemma_wf(self)
        requires
            self.wf(),
        ensures
            self@.wf(),
    {
    }

    /// No routes.
    pub fn new() -> (routes: Self)
        ensures
            routes.wf(),
            routes@ == (RoutesView {
                by_native: Map::empty(),
                native_by_thread: Map::empty(),
                last_epoch: 0,
            }),
    {
        NativeRoutes {
            by_native: KeyMap::new(),
            native_by_thread: KeyMap::new(),
            next_route_epoch: 0,
        }
    }

    /// Claims the route of a name, which is made where there is none.
    pub fn claim_native_route(&mut self, harness_thread_id: &str, suggested_thread_id: ThreadId) -> (result:
        Result<ClaimedNativeRoute, HarnessError>)
        requires
            old(self).wf(),
        ensures
            final(self).wf(),
            (final(self)@, outcome_view(result)) == old(self)@.claim(
                harness_thread_id@,
                suggested_thread_id,
            ),
    {
        let native = trim(harness_thread_id).to_owned();
        if native.as_str().is_empty() {
            return Err(
                HarnessError::Protocol("cannot claim an empty native thread id".to_owned()),
            );
        }
        match self.by_native.get(&native) {
            Some(entry) => {
                return Ok(entry.route.copy());
            },
            None => {},
        }
        match self.native_by_thread.get(&suggested_thread_id) {
            Some(existing) => {
                let mut message = concat3(
                    "thread ",
                    suggested_thread_id.text().as_str(),
                    " is already bound to native route ",
                );
                message.append(existing.as_str());
                return Err(HarnessError::Protocol(message));
            },
            None => {},
        }
        let ghost before = self@;
        match self.next_route_epoch.checked_add(1) {
            Some(next) => {
                self.next_route_epoch = next;
            },
            None => {
                return Err(
                    HarnessError::Protocol("native route epoch space exhausted".to_owned()),
                );
            },
        }
        let route = ClaimedNativeRoute {
            thread_id: suggested_thread_id,
            harness_thread_id: native,
            route_epoch: self.next_route_epoch,
        };
        self.native_by_thread.insert(route.thread_id, route.harness_thread_id.clone());
        self.by_native.insert(
            route.harness_thread_id.clone(),
            NativeRouteEntry { route: route.copy(), has_receiver: true, ready: false },
        );
        proof {
            assert(self@ == before.claim(harness_thread_id@, suggested_thread_id).0);
            assert(self@.wf());
        }
        Ok(route)
    }

    /// The route of a name.
    pub fn route_for_native(&self, native_thread_id: &str) -> (route: Option<ClaimedNativeRoute>)
        requires
            self.wf(),
        ensures
            route is Some <==> self@.by_native.contains_key(native_thread_id@),
            route matches Some(r) ==> r@ == self@.by_native[native_thread_id@].route,
    {
        match self.by_native.get(&native_thread_id.to_owned()) {
            Some(entry) => Some(entry.route.copy()),
            None => None,
        }
    }

    fn replace_entry(&mut self, route: &ClaimedNativeRoute, has_receiver: bool, ready: bool)
        requires
            old(self).wf(),
            old(self)@.is_current(route@),
        ensures
            final(self).wf(),
            final(self)@ == old(self)@.with_entry(
                route@.native,
                EntryView { route: route@, has_receiver, ready },
            ),
    {
        let ghost before = self@;
        self.by_native.insert(
            route.harness_thread_id.clone(),
            NativeRouteEntry { route: route.copy(), has_receiver, ready },
        );
        proof {
            assert(self@.wf());
        }
    }

    /// Hands the receiving end of a route out, once: the channel whose receiving end it is.
    pub fn claim_event_receiver(&mut self, route: &ClaimedNativeRoute) -> (result: Result<
        u64,
        HarnessError,
    >)
        requires
            old(self).wf(),
        ensures
            final(self).wf(),
            (final(self)@, outcome(result)) == old(self)@.claim_receiver(route@),
    {
        let ready = match self.by_native.get(&route.harness_thread_id) {
            Some(entry) => {
                if !entry.route.same(route) {
                    return Err(
                        HarnessError::Protocol("stale or unknown native route".to_owned()),
                    );
                }
                if !entry.has_receiver {
                    return Err(
                        HarnessError::Protocol(
                            concat3(
                                "native route ",
                                route.harness_thread_id.as_str(),
                                " event receiver was already claimed",
                            ),
                        ),
                    );
                }
                entry.ready
            },
            None => {
                return Err(HarnessError::Protocol("stale or unknown native route".to_owned()));
            },
        };
        self.replace_entry(route, false, ready);
        Ok(route.route_epoch)
    }

    /// Whether the owner of a name's route acknowledged it, so that its events may be delivered.
    pub fn is_ready(&self, native_thread_id: &str) -> (ready: bool)
        requires
            self.wf(),
        ensures
            ready == self@.is_ready(native_thread_id@),
    {
        match self.by_native.get(&native_thread_id.to_owned()) {
            Some(entry) => entry.ready,
            None => false,
        }
    }

    /// Takes the acknowledgement of a route's owner.
    pub fn acknowledge_activation(&mut self, route: &ClaimedNativeRoute) -> (result: Result<
        (),
        HarnessError,
    >)
        requires
            old(self).wf(),
        ensures
            final(self).wf(),
            (final(self)@, outcome(result)) == old(self)@.acknowledge(route@),
    {
        match self.by_native.get(&route.harness_thread_id) {
            Some(entry) => {
                if !entry.route.same(route) {
                    return Err(
                        HarnessError::Protocol("stale or unknown native route".to_owned()),
                    );
                }
                if entry.has_receiver {
                    return Err(
                        HarnessError::Protocol(
                            concat3(
                                "native route ",
                                route.harness_thread_id.as_str(),
                                " was acknowledged before its receiver was claimed",
                            ),
                        ),
                    );
                }
            },
            None => {
                return Err(HarnessError::Protocol("stale or unknown native route".to_owned()));
            },
        }
        self.replace_entry(route, false, true);
        Ok(())
    }

    /// Forgets the route of a thread.
    pub fn remove_native_route(&mut self, thread_id: ThreadId)
        requires
            old(self).wf(),
        ensures
            final(self).wf(),
            final(self)@ == old(self)@.without(thread_id),
    {
        let ghost before = self@;
        match self.native_by_thread.remove(&thread_id) {
            Some(native) => {
                self.by_native.remove(&native);
                proof {
                    assert(self@ == before.without(thread_id));
                    assert forall|other: ThreadId| #[trigger]
                        self@.native_by_thread.contains_key(other) implies self@.by_native.contains_key(
                        self@.native_by_thread[other],
                    ) by {
                        assert(before.native_by_thread.contains_key(other));
                        assert(before.native_by_thread[other] != native@) by {
                            if before.native_by_thread[other] == native@ {
                                assert(before.by_native[native@].route.thread == other);
                                assert(before.by_native[native@].route.thread == thread_id);
                            }
                        }
                    }
                    assert(self@.wf());
                }
            },
            None => {
                proof {
                    assert(self@ == before.without(thread_id));
                }
            },
        }
    }

    /// The channel to which events of a thread go.
    pub fn event_sender_for_thread(&self, thread: ThreadId) -> (channel: Option<u64>)
        requires
            self.wf(),
        ensures
            channel == self@.sender(thread),
    {
        match self.native_by_thread.get(&thread) {
            Some(native) => match self.by_native.get(native) {
                Some(entry) => Some(entry.route.route_epoch),
                None => None,
            },
            None => None,
        }
    }

    /// The channel to which an event of a thread is sent, or why there is none.
    pub fn route_event(&self, thread: ThreadId) -> (result: Result<u64, HarnessError>)
        requires
            self.wf(),
        ensures
            outcome(result) == (match self@.sender(thread) {
                Some(channel) => Ok(channel),
                None => Err(
                    ErrorView::Protocol(
                        "no native event route exists for thread "@ + thread.chars(),
                    ),
                ),
            }),
    {
        match self.event_sender_for_thread(thread) {
            Some(channel) => Ok(channel),
            None => Err(
                HarnessError::Protocol(
                    crate::text::concat(
                        "no native event route exists for thread ",
                        thread.text().as_str(),
                    ),
                ),
            ),
        }
    }

    /// Claims the route that an identity answer names for the thread that asked, and refuses one
    /// that belongs to another thread.
    pub fn claim_primary_identity(&mut self, native_thread_id: &str, intended: ThreadId) -> (result:
        Result<ClaimedNativeRoute, HarnessError>)
        requires
            old(self).wf(),
        ensures
            final(self).wf(),
            ({
                let (next, claimed) = old(self)@.claim(native_thread_id@, intended);
                &&& final(self)@ == next
                &&& outcome_view(result) == (match claimed {
                    Ok(route) => if route.thread == intended {
                        Ok(route)
                    } else {
                        Err(other_primary(native_thread_id@, route.thread, intended))
                    },
                    Err(error) => Err(error),
                })
            }),
    {
        let route = match self.claim_native_route(native_thread_id, intended) {
            Ok(route) => route,
            Err(error) => {
                return Err(error);
            },
        };
        if route.thread_id == intended {
            Ok(route)
        } else {
            let mut message = concat3(
                "native thread ",
                native_thread_id,
                " is already bound to ",
            );
            message.append(route.thread_id.text().as_str());
            message.append(", not intended Primary ");
            message.append(intended.text().as_str());
            Err(HarnessError::Protocol(message))
        }
    }
}

/// The failure of an identity answer that names the thread of another thread on this side.
pub open spec fn other_primary(native: Seq<char>, bound: ThreadId, intended: ThreadId) -> ErrorView {
    ErrorView::Protocol(
        "native thread "@ + native + " is already bound to "@ + bound.chars()
            + ", not intended Primary "@ + intended.chars(),
    )
}

/// The failure to send an event to a route whose receiving end is gone.
pub fn closed_route_error(thread: ThreadId) -> (error: HarnessError)
    ensures
        error@ == ErrorView::Transport(
            "native event route for thread "@ + thread.chars() + " is closed"@,
        ),
{
    HarnessError::Transport(
        concat3("native event route for thread ", thread.text().as_str(), " is closed"),
    )
}

/// A name that has a route keeps it: claiming it again changes nothing and gives the same route,
/// whatever thread is suggested.
pub proof fn law_claimed_route_is_authoritative(
    r: RoutesView,
    native: Seq<char>,
    first: ThreadId,
    second: ThreadId,
)
    requires
        r.wf(),
        r.claim(native, first).1 is Ok,
    ensures
        ({
            let (after, route) = r.claim(native, first);
            after.claim(native, second) == (after, route)
        }),
{
}

/// Routes are claimed in strictly increasing epochs.
pub proof fn law_epochs_increase(
    r: RoutesView,
    first: Seq<char>,
    first_thread: ThreadId,
    second: Seq<char>,
    second_thread: ThreadId,
)
    requires
        r.wf(),
        !r.by_native.contains_key(trimmed(first)),
        !r.by_native.contains_key(trimmed(second)),
        trimmed(first) != trimmed(second),
        r.claim(first, first_thread).1 is Ok,
        r.claim(first, first_thread).0.claim(second, second_thread).1 is Ok,
    ensures
        ({
            let (after, a) = r.claim(first, first_thread);
            let b = after.claim(second, second_thread).1;
            &&& r.last_epoch < a->Ok_0.epoch
            &&& a->Ok_0.epoch < b->Ok_0.epoch
        }),
{
}

/// A thread that has a route gets no second one: the claim is refused and changes nothing.
pub proof fn law_thread_gets_no_second_route(r: RoutesView, native: Seq<char>, thread: ThreadId)
    requires
        r.wf(),
        r.native_by_thread.contains_key(thread),
        !r.by_native.contains_key(trimmed(native)),
    ensures
        r.claim(native, thread).0 == r,
        r.claim(native, thread).1 is Err,
{
}

/// The receiving end of a route is handed out once.
pub proof fn law_receiver_is_claimed_once(r: RoutesView, route: ClaimView)
    requires
        r.claim_receiver(route).1 is Ok,
    ensures
        ({
            let after = r.claim_receiver(route).0;
            &&& after.claim_receiver(route).1 is Err
            &&& after.claim_receiver(route).0 == after
            &&& after.acknowledge(route).1 is Ok
            &&& after.acknowledge(route).0.is_ready(route.native)
        }),
{
}

/// A route is never ready before its receiving end was claimed.
pub proof fn law_acknowledgement_follows_the_receiver(r: RoutesView, route: ClaimView)
    requires
        r.is_current(route),
        r.by_native[route.native].has_receiver,
    ensures
        r.acknowledge(route).1 is Err,
        r.acknowledge(route).0 == r,
{
}

/// A route that was forgotten and claimed again is a new route: the old one is stale.
pub proof fn law_forgotten_route_stays_stale(
    r: RoutesView,
    route: ClaimView,
    suggested: ThreadId,
)
    requires
        r.wf(),
        r.is_current(route),
        trimmed(route.native) == route.native,
        r.without(route.thread).claim(route.native, suggested).1 is Ok,
    ensures
        ({
            let after = r.without(route.thread).claim(route.native, suggested).0;
            &&& !r.without(route.thread).is_current(route)
            &&& !after.is_current(route)
            &&& after.claim_receiver(route).1 == Err::<u64, ErrorView>(stale_route())
            &&& after.acknowledge(route).1 == Err::<(), ErrorView>(stale_route())
        }),
{
}

} // verus!
