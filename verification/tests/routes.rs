//! Routes between the threads of an app-server and those on this side.

use giskard_harness_codex::discovery::{DiscoveryAdmission, SendOutcome, Submission};
use giskard_harness_codex::error::HarnessError;
use giskard_harness_codex::handle::ThreadHandle;
use giskard_harness_codex::ids::ThreadId;
use giskard_harness_codex::native_routes::{closed_route_error, NativeRoutes};
use giskard_harness_codex::routes::{
    no_receiver_error, CodexRouteAuthority, DiscoveryTicket, FreshRouteConflict, ReplaceRouteFailure,
};

fn handle(thread: ThreadId, native: &str) -> ThreadHandle {
    ThreadHandle::opened(thread, native.to_owned(), "/workspace".to_owned())
}

fn ticket(routes: &mut CodexRouteAuthority, native: &str, thread: ThreadId) -> Option<DiscoveryTicket> {
    routes.discover(native, thread).unwrap().ticket
}

fn words(error: HarnessError) -> String {
    match error {
        HarnessError::Protocol(m) | HarnessError::Transport(m) => m,
        other => panic!("unexpected {other:?}"),
    }
}

#[test]
fn convergence_is_bijective_and_authoritative() {
    let mut routes = CodexRouteAuthority::new();
    let (first, proposal, other) = (ThreadId(1), ThreadId(2), ThreadId(3));
    let route = routes.bootstrap("native-a", first).unwrap();
    assert!(routes.bootstrap("native-a", proposal).unwrap().same(&route));
    routes.bootstrap("native-b", other).unwrap();
    assert!(routes.bootstrap("native-a", other).is_err());
}

#[test]
fn fresh_claim_classifies_native_and_reverse_collisions_without_mutation() {
    let mut routes = CodexRouteAuthority::new();
    let (first, second) = (ThreadId(1), ThreadId(2));
    routes.bootstrap("native-a", first).unwrap();
    let taken = routes.claim_fresh("native-a", second, |id| handle(id, "native-a")).unwrap();
    assert!(matches!(
        &taken,
        Err(FreshRouteConflict::AuthoritativeNative { thread }) if *thread == first
    ));
    assert_eq!(
        words(taken.unwrap_err().as_error("native-a", second)),
        format!(
            "fresh native thread native-a is already authoritative for {}, not {}",
            first.text(),
            second.text()
        )
    );
    let bound = routes.claim_fresh("native-new", first, |id| handle(id, "native-new")).unwrap();
    assert!(matches!(&bound, Err(FreshRouteConflict::NewNativeForBoundThread { .. })));
    assert_eq!(
        words(bound.unwrap_err().as_error("native-new", first)),
        format!(
            "thread {} is already bound to native thread native-a, not native-new",
            first.text()
        )
    );
    assert!(routes.resolve("native-new", first).is_err());
    assert!(routes.active_for_thread(first).is_ok());
}

#[test]
fn ticket_drop_restores_discovery_eligibility() {
    let mut routes = CodexRouteAuthority::new();
    let thread = ThreadId(1);
    let first = ticket(&mut routes, "native-a", thread).unwrap();
    assert!(ticket(&mut routes, "native-a", thread).is_none());
    routes.return_ticket(first);
    assert!(ticket(&mut routes, "native-a", thread).is_some());
}

#[test]
fn bounded_deferral_has_one_pending_ticket_and_parent_supersedes_it() {
    let mut routes = CodexRouteAuthority::new();
    let thread = ThreadId(1);
    let first = ticket(&mut routes, "native-a", thread).unwrap();
    routes.defer_ticket(first).unwrap();
    assert!(ticket(&mut routes, "native-a", thread).is_none());
    let queued = routes.take_pending_discovery().unwrap().unwrap();
    let attachment = routes.claim_parent("native-a", thread, |id| handle(id, "native-a")).unwrap();
    assert!(routes.claim_ticket(queued, "/workspace".to_owned()).is_err());
    routes.return_attachment(attachment);
    assert!(ticket(&mut routes, "native-a", thread).is_some());
}

#[test]
fn attachment_drop_preserves_the_exact_buffered_receiver() {
    let mut routes = CodexRouteAuthority::new();
    let thread = ThreadId(1);
    let route = routes.bootstrap("native-a", thread).unwrap();
    let attachment = routes.claim_parent("native-a", thread, |id| handle(id, "native-a")).unwrap();
    let channel = routes.deliver(&route, thread).unwrap();
    assert_eq!(attachment.stream(), Some(channel));
    routes.return_attachment(attachment);
    let attachment = routes.claim_parent("native-a", thread, |id| handle(id, "native-a")).unwrap();
    let owner = routes.commit_attachment(attachment).unwrap();
    assert_eq!(owner.stream(), Some(channel));
    assert_eq!(owner.handle().thread, thread);
}

#[test]
fn exact_replacement_preserves_unattached_buffered_delivery() {
    let mut routes = CodexRouteAuthority::new();
    let thread = ThreadId(1);
    let old = routes.bootstrap("native-old", thread).unwrap();
    let channel = routes.deliver(&old, thread).unwrap();
    let attachment = routes
        .replace("native-old", "native-new", thread, |id| handle(id, "native-new"))
        .unwrap();
    let owner = routes.commit_attachment(attachment).unwrap();
    assert_eq!(owner.stream(), Some(channel));
    assert!(routes.deliver(&old, thread).is_err());
    assert!(routes.resolve("native-old", thread).is_err());
}

#[test]
fn tombstone_invalidates_capabilities_and_only_exact_reattach_reactivates() {
    let mut routes = CodexRouteAuthority::new();
    let thread = ThreadId(1);
    let route = routes.bootstrap("native-a", thread).unwrap();
    let attachment = routes.claim_parent("native-a", thread, |id| handle(id, "native-a")).unwrap();
    assert!(routes.tombstone("native-a", ThreadId(9)).is_err());
    assert!(
        routes.deliver(&route, thread).is_ok(),
        "identity mismatch must leave the active route and provider delivery untouched"
    );
    routes.tombstone("native-a", thread).unwrap();
    routes.return_attachment(attachment);
    assert!(routes.deliver(&route, thread).is_err());
    assert!(routes.claim_parent("native-a", thread, |id| handle(id, "native-a")).is_err());
    assert!(routes.reattach("native-a", ThreadId(9), |id| handle(id, "native-a")).is_err());
    assert!(routes.reattach("native-a", thread, |id| handle(id, "native-a")).is_ok());
}

#[test]
fn owner_drop_returns_exact_receiver_without_creating_a_subscriber() {
    let mut routes = CodexRouteAuthority::new();
    let thread = ThreadId(1);
    let route = routes.bootstrap("native-a", thread).unwrap();
    let attachment = routes.claim_parent("native-a", thread, |id| handle(id, "native-a")).unwrap();
    let owner = routes.commit_attachment(attachment).unwrap();
    assert_eq!(
        words(routes.claim_parent("native-a", thread, |id| handle(id, "native-a")).unwrap_err()),
        "native thread native-a already has an attachment or owner"
    );
    let channel = routes.deliver(&route, thread).unwrap();
    routes.return_owner(owner);
    let attachment = routes.claim_parent("native-a", thread, |id| handle(id, "native-a")).unwrap();
    assert_eq!(attachment.stream(), Some(channel));
    routes.close();
    routes.return_attachment(attachment);
    assert!(routes.bootstrap("native-b", ThreadId(2)).is_err());
}

#[test]
fn stale_ticket_cannot_mutate_resume_fallback_replacement() {
    let mut routes = CodexRouteAuthority::new();
    let thread = ThreadId(1);
    let first = ticket(&mut routes, "native-old", thread).unwrap();
    let attachment = routes
        .replace("native-old", "native-new", thread, |id| handle(id, "native-new"))
        .unwrap();
    routes.return_ticket(first);
    let owner = routes.commit_attachment(attachment).unwrap();
    assert!(routes.resolve("native-old", thread).is_err());
    assert!(routes.resolve("native-new", thread).is_ok());
    routes.return_owner(owner);
    assert!(routes.claim_parent("native-new", thread, |id| handle(id, "native-new")).is_ok());
}

#[test]
fn resume_fallback_never_cleans_up_an_authoritative_native_route() {
    let mut routes = CodexRouteAuthority::new();
    let (expected_thread, authoritative_thread) = (ThreadId(1), ThreadId(2));
    routes.bootstrap("native-old", expected_thread).unwrap();
    routes.bootstrap("native-authoritative", authoritative_thread).unwrap();
    assert!(matches!(
        routes.replace_fresh(
            "native-old",
            "native-authoritative",
            expected_thread,
            |id| handle(id, "native-authoritative")
        ),
        Err(ReplaceRouteFailure::AuthoritativeNative { thread }) if thread == authoritative_thread
    ));
    assert!(routes.resolve("native-old", expected_thread).is_ok());
    assert!(routes.resolve("native-authoritative", authoritative_thread).is_ok());
}

#[test]
fn stale_attachment_and_owner_cannot_reopen_reactivated_tombstone() {
    let mut routes = CodexRouteAuthority::new();
    let thread = ThreadId(1);
    routes.bootstrap("native-a", thread).unwrap();
    let stale_attachment =
        routes.claim_parent("native-a", thread, |id| handle(id, "native-a")).unwrap();
    routes.tombstone("native-a", thread).unwrap();
    let current = routes.reattach("native-a", thread, |id| handle(id, "native-a")).unwrap();
    let current_owner = routes.commit_attachment(current).unwrap();
    routes.return_attachment(stale_attachment);
    assert!(routes.claim_parent("native-a", thread, |id| handle(id, "native-a")).is_err());
    routes.tombstone("native-a", thread).unwrap();
    let replacement = routes.reattach("native-a", thread, |id| handle(id, "native-a")).unwrap();
    routes.return_owner(current_owner);
    assert!(routes.commit_attachment(replacement).is_ok());
}

#[test]
fn repeated_tombstone_does_not_reactivate_delivery() {
    let mut routes = CodexRouteAuthority::new();
    let thread = ThreadId(1);
    routes.bootstrap("native-a", thread).unwrap();
    routes.tombstone("native-a", thread).unwrap();
    routes.tombstone("native-a", thread).unwrap();
    assert_eq!(
        words(routes.resolve("native-a", thread).unwrap_err()),
        "native thread native-a is tombstoned"
    );
    assert!(routes.claim_parent("native-a", thread, |id| handle(id, "native-a")).is_err());
}

#[test]
fn attaching_and_owned_routes_do_not_duplicate_discovery() {
    let mut routes = CodexRouteAuthority::new();
    let thread = ThreadId(1);
    let first = ticket(&mut routes, "native-a", thread).unwrap();
    let attachment = routes.claim_ticket(first, "/workspace".to_owned()).unwrap();
    assert!(
        ticket(&mut routes, "native-a", ThreadId(7)).is_none(),
        "an attaching route must not admit another discovery"
    );
    let owner = routes.commit_attachment(attachment).unwrap();
    assert!(
        ticket(&mut routes, "native-a", ThreadId(8)).is_none(),
        "an owned route must not admit another discovery"
    );
    routes.return_owner(owner);
}

#[test]
fn attaching_and_owned_routes_continue_delivering_to_the_exact_receiver() {
    let mut routes = CodexRouteAuthority::new();
    let thread = ThreadId(1);
    let discovery = routes.discover("native-live", thread).unwrap();
    let route = discovery.route;
    let attachment = routes.claim_ticket(discovery.ticket.unwrap(), "/workspace".to_owned()).unwrap();
    let channel = routes.deliver(&route, thread).unwrap();
    let owner = routes.commit_attachment(attachment).unwrap();
    assert_eq!(owner.stream(), Some(channel));
    assert_eq!(routes.deliver(&route, thread).unwrap(), channel);
}

#[test]
fn physically_retained_persistence_blocked_owner_suppresses_discovery() {
    let mut routes = CodexRouteAuthority::new();
    let thread = ThreadId(1);
    routes.bootstrap("native-blocked", thread).unwrap();
    let attachment = routes
        .claim_parent("native-blocked", thread, |id| handle(id, "native-blocked"))
        .unwrap();
    let owner = routes.commit_attachment(attachment).unwrap();
    assert!(ticket(&mut routes, "native-blocked", ThreadId(7)).is_none());
    routes.return_owner(owner);
    assert!(ticket(&mut routes, "native-blocked", ThreadId(8)).is_some());
}

#[test]
fn every_late_capability_kind_is_inert_after_close() {
    let mut routes = CodexRouteAuthority::new();
    let late = ticket(&mut routes, "native-ticket", ThreadId(1)).unwrap();
    let attaching_thread = ThreadId(2);
    let attachment = routes
        .claim_parent("native-attachment", attaching_thread, |id| handle(id, "native-attachment"))
        .unwrap();
    let owned_thread = ThreadId(3);
    let owned = routes
        .claim_parent("native-owner", owned_thread, |id| handle(id, "native-owner"))
        .unwrap();
    let owner = routes.commit_attachment(owned).unwrap();
    routes.close();
    routes.return_ticket(late);
    routes.return_attachment(attachment);
    routes.return_owner(owner);
    assert_eq!(
        words(routes.bootstrap("new-native", ThreadId(4)).unwrap_err()),
        "Codex route authority is closed"
    );
    assert!(routes.resolve("native-ticket", ThreadId(5)).is_err());
    assert!(routes
        .reattach("native-attachment", attaching_thread, |id| handle(id, "native-attachment"))
        .is_err());
    assert!(routes
        .reattach("native-owner", owned_thread, |id| handle(id, "native-owner"))
        .is_err());
}

#[test]
fn conflicting_bootstrap_does_not_partially_mutate_existing_bindings() {
    let mut routes = CodexRouteAuthority::new();
    let (first, second) = (ThreadId(1), ThreadId(2));
    routes.bootstrap("native-a", first).unwrap();
    routes.bootstrap("native-b", second).unwrap();
    assert_eq!(
        words(routes.bootstrap("native-a", second).unwrap_err()),
        format!("thread {} is already bound to another native thread", second.text())
    );
    assert_eq!(routes.resolve("native-a", first).unwrap().thread_id(), first);
    assert_eq!(routes.resolve("native-b", second).unwrap().thread_id(), second);
}

#[test]
fn empty_native_id_resolves_only_the_explicit_active_fallback() {
    let mut routes = CodexRouteAuthority::new();
    let (fallback, other) = (ThreadId(1), ThreadId(2));
    routes.bootstrap("native-fallback", fallback).unwrap();
    routes.bootstrap("native-other", other).unwrap();
    assert_eq!(routes.resolve("", fallback).unwrap().thread_id(), fallback);
    assert_eq!(routes.resolve("   ", other).unwrap().thread_id(), other);
    assert!(routes.resolve("", ThreadId(9)).is_err());
    assert_eq!(
        words(routes.bootstrap("  ", ThreadId(9)).unwrap_err()),
        "cannot establish an empty native thread id"
    );
}

#[test]
fn a_failed_holder_closes_all_routes() {
    let mut routes = CodexRouteAuthority::new();
    routes.bootstrap("native-a", ThreadId(1)).unwrap();
    match routes.close_poisoned() {
        HarnessError::Transport(m) => assert!(m.contains("authority closed")),
        other => panic!("unexpected {other:?}"),
    }
    assert!(routes.active_for_thread(ThreadId(1)).is_err());
    assert!(routes.bootstrap("native-b", ThreadId(2)).is_err());
}

#[test]
fn events_of_other_threads_cannot_use_a_route() {
    let mut routes = CodexRouteAuthority::new();
    let route = routes.bootstrap("native-a", ThreadId(1)).unwrap();
    assert_eq!(
        words(routes.deliver(&route, ThreadId(2)).unwrap_err()),
        format!(
            "mapped event for thread {} cannot use route for {}",
            ThreadId(2).text(),
            ThreadId(1).text()
        )
    );
    assert!(!words(no_receiver_error(&route)).is_empty());
}

#[test]
fn failed_admission_closes_and_discards_pending_state() {
    let mut routes = CodexRouteAuthority::new();
    let mut admission = DiscoveryAdmission::new();
    let first = ticket(&mut routes, "native-a", ThreadId(1)).unwrap();
    assert!(matches!(
        admission.submit(first, SendOutcome::Closed),
        Submission::Closed(_)
    ));
    admission.close_failed();
    assert!(admission.failed());
    assert!(!admission.is_open());
    assert!(!admission.has_pending());
}

#[test]
fn full_channel_defers_exact_ticket_until_capacity_is_reserved() {
    let mut routes = CodexRouteAuthority::new();
    let mut admission = DiscoveryAdmission::new();
    let first = ticket(&mut routes, "native-a", ThreadId(1)).unwrap();
    assert!(matches!(admission.submit(first, SendOutcome::Sent), Submission::Queued));
    let second = ticket(&mut routes, "native-b", ThreadId(2)).unwrap();
    let Submission::Deferred(second) = admission.submit(second, SendOutcome::Full) else {
        panic!("a saturated bounded channel must return the exact ticket");
    };
    routes.defer_ticket(second).unwrap();
    admission.stage_pending(&mut routes).unwrap();
    assert!(admission.has_pending());
    let staged = admission.take_pending().unwrap();
    assert_eq!(staged.harness_thread_id(), "native-b");
    assert_eq!(staged.thread_id(), ThreadId(2));
    assert!(!admission.has_pending());
}

#[test]
fn route_epochs_tell_one_claim_from_another() {
    let mut routes = NativeRoutes::new();
    let thread = ThreadId(1);
    assert_eq!(
        words(routes.claim_native_route("  ", thread).unwrap_err()),
        "cannot claim an empty native thread id"
    );
    let route = routes.claim_native_route(" native-a ", thread).unwrap();
    assert_eq!(route.harness_thread_id, "native-a");
    assert!(!routes.is_ready("native-a"));
    let channel = routes.claim_event_receiver(&route).unwrap();
    assert!(routes.claim_event_receiver(&route).is_err());
    routes.acknowledge_activation(&route).unwrap();
    assert!(routes.is_ready("native-a"));
    assert_eq!(routes.route_event(thread).unwrap(), channel);
    assert!(routes.claim_primary_identity("native-a", ThreadId(2)).is_err());
    routes.remove_native_route(thread);
    assert!(routes.route_for_native("native-a").is_none());
    assert!(routes.event_sender_for_thread(thread).is_none());
    assert!(routes.route_event(thread).is_err());
    let again = routes.claim_native_route("native-a", thread).unwrap();
    assert!(again.route_epoch > route.route_epoch);
    assert!(routes.claim_event_receiver(&route).is_err());
    assert!(!words(closed_route_error(thread)).is_empty());
}

#[test]
fn a_handle_of_another_route_is_refused() {
    let mut routes = CodexRouteAuthority::new();
    let (thread, other) = (ThreadId(1), ThreadId(2));
    routes.bootstrap("native-a", thread).unwrap();
    let mismatch = "attachment handle does not match its authoritative route";
    let refused = routes.claim_parent("native-a", thread, |_| handle(other, "native-a"));
    assert_eq!(words(refused.unwrap_err()), mismatch);
    let refused = routes.claim_parent("native-a", thread, |id| handle(id, "native-b"));
    assert_eq!(words(refused.unwrap_err()), mismatch);
    let refused = routes.reattach("native-a", thread, |_| handle(other, "native-a"));
    assert_eq!(words(refused.unwrap_err()), mismatch);
    let refused = routes.resume("native-a", thread, |_| handle(other, "native-a"));
    assert_eq!(words(refused.unwrap_err()), mismatch);
    let attachment = routes.claim_parent("native-a", other, |id| handle(id, "native-a")).unwrap();
    assert_eq!(attachment.handle().thread, thread);
    assert_eq!(attachment.stream(), Some(1));
}

#[test]
fn a_refused_handle_leaves_a_new_name_in_place() {
    let mut routes = CodexRouteAuthority::new();
    let (thread, other) = (ThreadId(1), ThreadId(2));
    routes.bootstrap("native-old", thread).unwrap();
    assert!(routes
        .replace("native-old", "native-new", thread, |_| handle(other, "native-new"))
        .is_err());
    assert!(routes.resolve("native-old", thread).is_err());
    assert!(routes.resolve("native-new", thread).is_ok());
    assert!(routes.claim_fresh("native-b", other, |_| handle(thread, "native-b")).is_err());
    assert!(routes.resolve("native-b", other).is_ok());
}
