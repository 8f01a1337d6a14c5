//! Opening, claiming and deleting the threads of an app-server, step by step.

use vstd::prelude::*;

use crate::background::StateView;
use crate::control::{begun_urgently, busy, delete_result, deleted, ControlCommand, ControlStep};
use crate::error::{outcome_view, ErrorView, HarnessError};
use crate::event::AgentEvent;
use crate::handle::{HarnessNotice, ThreadHandle};
use crate::ids::ThreadId;
use crate::instance::{CodexInstance, InstanceView};
use crate::native_routes::RoutesView;
use crate::opening::{
    fresh_model, lost_context, opened_events, opened_handle, opening_events, tells_lost_context,
    OpenThreadOptions, OpenedNativeThread,
};
use crate::requests::{delete_call, start_call, start_request, thread_call, Call};
use crate::route_model::{AttachmentView, ConflictView, TableView};
use crate::routes::{FreshRouteConflict, ReplaceRouteFailure, ThreadAttachment};
use crate::text::concat3;
use crate::turns::{retire_tombstoned_state, PendingContextRestore};

verus! {

/// What came of opening a thread.
#[derive(Debug)]
pub enum OpenStep {
    /// The caller holds the thread, whose first events go to a channel.
    Opened {
        /// What the caller holds.
        attachment: ThreadAttachment,
        /// The first events.
        events: Vec<AgentEvent>,
        /// The channel that they go to.
        channel: u64,
    },
    /// The thread could not be opened.
    Failed(HarnessError),
    /// The thread could not be opened, and what the app-server made for it is deleted.
    Discard {
        /// The request that deletes it.
        call: Call,
        /// Why it could not be opened.
        error: HarnessError,
    },
}

/// Why a thread could not be opened, and whether what the app-server made for it is deleted.
#[verifier::ext_equal]
pub struct OpenFailure {
    /// Why.
    pub error: ErrorView,
    /// Whether what the app-server made is deleted.
    pub discard: bool,
}

/// What stands against a new thread, as a failure.
pub open spec fn conflict_error(conflict: ConflictView, native: Seq<char>, thread: ThreadId) -> ErrorView {
    ErrorView::Protocol(
        match conflict {
            ConflictView::AuthoritativeNative { thread: owner } => "fresh native thread "@ + native
                + " is already authoritative for "@ + owner.chars() + ", not "@ + thread.chars(),
            ConflictView::NewNativeForBoundThread { existing_native } => "thread "@ + thread.chars()
                + " is already bound to native thread "@ + existing_native + ", not "@ + native,
        },
    )
}

/// The failure of a thread that was started in the place of another one: its name has a thread.
pub open spec fn owned_replacement(native: Seq<char>, owner: ThreadId) -> ErrorView {
    ErrorView::Protocol(
        "resume fallback returned native thread "@ + native + " already owned by "@ + owner.chars(),
    )
}

/// The failure of a thread whose name has another thread.
pub open spec fn opened_elsewhere(native: Seq<char>, owner: ThreadId, thread: ThreadId) -> ErrorView {
    ErrorView::Protocol(
        "opened native thread "@ + native + " is already bound to "@ + owner.chars() + ", not "@
            + thread.chars(),
    )
}

/// Attaches to a thread that the app-server opened. One that was started in the place of another one
/// takes over the route of that one; one that goes on has its route, be it given up; a new one gets a
/// new route.
pub open spec fn attach(
    table: TableView,
    resume: Option<Seq<char>>,
    started_over: bool,
    native: Seq<char>,
    thread: ThreadId,
    handle: ThreadHandle,
) -> (TableView, Result<AttachmentView, OpenFailure>) {
    match resume {
        Some(expected) => if started_over {
            match table.replacement_owner(expected, native) {
                Some(owner) => (
                    table,
                    Err(OpenFailure { error: owned_replacement(native, owner), discard: false }),
                ),
                None => match table.replace(expected, native, thread, handle) {
                    (after, Ok(attachment)) => (after, Ok(attachment)),
                    (after, Err(error)) => (after, Err(OpenFailure { error, discard: true })),
                },
            }
        } else {
            match table.resume(native, thread, handle) {
                (after, Ok(attachment)) => (after, Ok(attachment)),
                (after, Err(error)) => (after, Err(OpenFailure { error, discard: false })),
            }
        },
        None => match table.claim_fresh(native, thread, handle) {
            (after, Ok(Ok(attachment))) => (after, Ok(attachment)),
            (after, Ok(Err(conflict))) => (
                after,
                Err(
                    OpenFailure {
                        error: conflict_error(conflict, native, thread),
                        discard: conflict is NewNativeForBoundThread,
                    },
                ),
            ),
            (after, Err(error)) => (after, Err(OpenFailure { error, discard: false })),
        },
    }
}

/// The thread that the handle of an opened thread is made for: the one that the route belongs to, which
/// is another one only where the thread goes on and its name has a route.
pub open spec fn attached_thread(
    table: TableView,
    resume: Option<Seq<char>>,
    started_over: bool,
    native: Seq<char>,
    thread: ThreadId,
) -> ThreadId {
    if resume is Some && !started_over {
        table.thread_at(crate::text::trimmed(native), thread)
    } else {
        thread
    }
}

/// The routes after an attachment was given back.
pub open spec fn given_back(table: TableView, a: AttachmentView) -> TableView {
    if table.is_attaching(a.slot, a.activation, a.claim) {
        table.returned(a)
    } else {
        table
    }
}

/// What came of opening a thread: an attachment that is for the very thread, and the channel that its
/// first events go to.
pub open spec fn open_at(
    table: TableView,
    resume: Option<Seq<char>>,
    started_over: bool,
    native: Seq<char>,
    thread: ThreadId,
    handle: ThreadHandle,
) -> (TableView, Result<(AttachmentView, u64), OpenFailure>) {
    match attach(table, resume, started_over, native, thread, handle) {
        (after, Err(failure)) => (after, Err(failure)),
        (after, Ok(a)) => if a.handle.thread != thread {
            (
                given_back(after, a),
                Err(
                    OpenFailure {
                        error: opened_elsewhere(native, a.handle.thread, thread),
                        discard: false,
                    },
                ),
            )
        } else {
            match after.active_for_thread(thread) {
                Err(error) => (given_back(after, a), Err(OpenFailure { error, discard: false })),
                Ok(route) => match after.deliver(route, thread) {
                    Err(error) => (
                        given_back(after, a),
                        Err(OpenFailure { error, discard: false }),
                    ),
                    Ok(channel) => (after, Ok((a, channel))),
                },
            }
        },
    }
}

/// The resumed threads whose owners wait, after a thread was opened: where it goes on and its model is
/// known, its owner waits to learn how much the model can hold.
pub open spec fn restores_after(
    restores: Map<Seq<char>, PendingContextRestore>,
    opts: OpenThreadOptions,
    opened: OpenedNativeThread,
    thread: ThreadId,
    warning: Option<HarnessNotice>,
) -> Map<Seq<char>, PendingContextRestore> {
    match (opts.resume, warning, opened.model) {
        (Some(_), None, Some(model)) => restores.insert(
            opened.harness_thread_id@,
            PendingContextRestore { thread, model },
        ),
        _ => restores,
    }
}

/// The app-server's name of the thread that is to go on, in characters.
pub open spec fn resumed_name(opts: OpenThreadOptions) -> Option<Seq<char>> {
    match opts.resume {
        Some(native) => Some(native@),
        None => None,
    }
}

/// What is done when a thread could not go on, whatever the reason: a new thread is started in its
/// place, and the caller is told. `told` is the failure in words.
pub fn start_over(opts: &OpenThreadOptions, told: String) -> (next: Result<
    (Call, HarnessNotice),
    HarnessError,
>)
    ensures
        match opts.initial_model {
            Some(model) => {
                &&& next matches Ok((call, notice))
                &&& call@ == start_request(opts.workspace_root@, model)
                &&& tells_lost_context(notice, told)
            },
            None => {
                &&& next matches Err(error)
                &&& error@ == ErrorView::Protocol("starting a new thread requires a model"@)
            },
        },
{
    match fresh_model(opts) {
        Ok(model) => Ok((start_call(opts.workspace_root.as_str(), &model), lost_context(told))),
        Err(error) => Err(error),
    }
}

/// What is done about the deletion of a thread.
#[derive(Debug)]
pub enum DeleteStep {
    /// It is refused because a turn goes on in the thread.
    Busy(HarnessError),
    /// It is refused because the thread has no such route.
    Unknown(HarnessError),
    /// The thread is given up on this side, and the app-server is asked to delete it.
    Ask(Call),
}

/// What the one is told who waits for a thread to be given up, where it is not. `told` is the failure in
/// words.
pub fn retirement_error(busy: bool, told: String) -> (error: HarnessError)
    ensures
        error == if busy {
            HarnessError::Unsupported(told)
        } else {
            HarnessError::Protocol(told)
        },
{
    if busy {
        HarnessError::Unsupported(told)
    } else {
        HarnessError::Protocol(told)
    }
}

/// What came of the deletion of a thread that was given up on this side.
#[derive(Debug)]
pub enum ThreadDeletion {
    /// The app-server has it no longer.
    Retired,
    /// The app-server failed to delete it.
    RetiredWithProviderError(HarnessError),
}

/// What came of the deletion of a thread that was given up on this side. A thread that is not there is
/// deleted.
pub fn thread_deletion(result: Result<(), HarnessError>, harness_thread_id: &str) -> (deletion:
    ThreadDeletion)
    ensures
        deletion == (match deleted(result, harness_thread_id@) {
            Ok(()) => ThreadDeletion::Retired,
            Err(error) => ThreadDeletion::RetiredWithProviderError(error),
        }),
{
    match delete_result(result, harness_thread_id) {
        Ok(()) => ThreadDeletion::Retired,
        Err(error) => ThreadDeletion::RetiredWithProviderError(error),
    }
}

/// What is done next about what a caller asked of an instance.
pub enum InstanceStep {
    /// The caller holds a thread, or not.
    Attached(Result<ThreadAttachment, HarnessError>),
    /// A thread is deleted.
    Delete(DeleteStep),
    /// Something else.
    Control(ControlStep),
}

impl InstanceView {
    /// What goes on with an app-server after a thread was given up on this side.
    pub open spec fn retired(self, thread: ThreadHandle, routes: TableView) -> InstanceView {
        InstanceView {
            work: StateView {
                mapper: self.work.mapper.retired(thread.thread),
                restores: self.work.restores.remove(thread.harness_thread_id@),
                compactions: self.work.compactions.remove(thread.thread),
                ..self.work
            },
            routes,
            ..self
        }
    }
}

/// What is known after the deletion of a thread was taken up.
pub open spec fn deleting(
    before: InstanceView,
    thread: ThreadHandle,
    after: InstanceView,
    step: DeleteStep,
) -> bool {
    if before.work.active.contains_key(thread.thread) {
        &&& after == before
        &&& step matches DeleteStep::Busy(error)
        &&& error@ == ErrorView::Unsupported(
            "thread deletion is not available during an active turn"@,
        )
    } else {
        match before.routes.tombstone(thread.harness_thread_id@, thread.thread) {
            (routes, Ok(())) => {
                &&& after == before.retired(thread, routes)
                &&& step matches DeleteStep::Ask(call)
                &&& call@ == thread_call("thread/delete"@, thread.harness_thread_id@)
            },
            (routes, Err(failure)) => {
                &&& after == InstanceView { routes, ..before }
                &&& step matches DeleteStep::Unknown(error)
                &&& error@ == failure
            },
        }
    }
}

/// What is known after a thread of the app-server was claimed. A thread that was given up is had again
/// only where that is asked for.
pub open spec fn claiming(
    routes: TableView,
    thread: ThreadId,
    native: String,
    root: String,
    parent: Option<String>,
    reactivate: bool,
) -> (TableView, Result<AttachmentView, ErrorView>) {
    if reactivate {
        routes.reattach(native@, thread, claimed_handle(thread, native, root, parent))
    } else {
        let owner = routes.thread_at(crate::text::trimmed(native@), thread);
        routes.claim_parent(native@, thread, claimed_handle(owner, native, root, parent))
    }
}

/// What a caller holds of a thread that was claimed.
pub open spec fn claimed_handle(
    thread: ThreadId,
    native: String,
    root: String,
    parent: Option<String>,
) -> ThreadHandle {
    ThreadHandle {
        thread,
        harness_thread_id: native,
        workspace_root: root,
        warning: None,
        resumed_model: None,
        agent_name: None,
        parent_harness_thread_id: parent,
    }
}

impl CodexInstance {
    /// Attaches to a thread of the app-server. `parent` names the thread that it was started from, as
    /// far as that is known.
    pub fn claim_native_thread(
        &mut self,
        thread: ThreadId,
        harness_thread_id: String,
        workspace_root: String,
        parent: Option<String>,
        reactivate_tombstone: bool,
    ) -> (result: Result<ThreadAttachment, HarnessError>)
        requires
            old(self).wf(),
        ensures
            final(self).wf(),
            final(self).work == old(self).work,
            final(self)@.admission == old(self)@.admission,
            (final(self)@.routes, outcome_view(result)) == claiming(
                old(self)@.routes,
                thread,
                harness_thread_id,
                workspace_root,
                parent,
                reactivate_tombstone,
            ),
    {
        let native = harness_thread_id.clone();
        let make_handle = |owner: ThreadId| -> (handle: ThreadHandle)
            ensures
                handle == claimed_handle(owner, harness_thread_id, workspace_root, parent),
            {
                ThreadHandle {
                    parent_harness_thread_id: parent,
                    ..ThreadHandle::opened(owner, harness_thread_id, workspace_root)
                }
            };
        if reactivate_tombstone {
            self.routes.reattach(native.as_str(), thread, make_handle)
        } else {
            self.routes.claim_parent(native.as_str(), thread, make_handle)
        }
    }

    /// Takes up the deletion of a thread: it is given up on this side before the app-server is asked.
    pub fn delete_thread(&mut self, thread: &ThreadHandle) -> (step: DeleteStep)
        requires
            old(self).wf(),
        ensures
            final(self).wf(),
            final(self).work.mapper.root() == old(self).work.mapper.root(),
            deleting(old(self)@, *thread, final(self)@, step),
    {
        if self.work.active_turns.contains_key(&thread.thread) {
            return DeleteStep::Busy(
                HarnessError::Unsupported(
                    "thread deletion is not available during an active turn".to_owned(),
                ),
            );
        }
        match self.routes.tombstone(thread.harness_thread_id.as_str(), thread.thread) {
            Ok(()) => {
                retire_tombstoned_state(
                    &mut self.work.mapper,
                    &mut self.work.pending_context_restores,
                    &mut self.work.pending_compactions,
                    thread,
                );
                DeleteStep::Ask(delete_call(thread.harness_thread_id.as_str()))
            },
            Err(error) => DeleteStep::Unknown(error),
        }
    }

    /// Takes up what a caller asks, and gives what is done next. `parent` names the thread that a
    /// claimed thread was started from, as far as that is known.
    pub fn handle_control_command(
        &mut self,
        control: ControlCommand,
        parent: Option<String>,
        reactivate_tombstone: bool,
    ) -> (step: InstanceStep)
        requires
            old(self).wf(),
        ensures
            final(self).wf(),
            final(self).work.mapper.root() == old(self).work.mapper.root(),
            match control {
                ControlCommand::ClaimNativeThread { thread, harness_thread_id, workspace_root } => {
                    &&& step matches InstanceStep::Attached(result)
                    &&& (final(self)@.routes, outcome_view(result)) == claiming(
                        old(self)@.routes,
                        thread,
                        harness_thread_id,
                        workspace_root,
                        parent,
                        reactivate_tombstone,
                    )
                    &&& final(self)@.work == old(self)@.work
                    &&& final(self)@.admission == old(self)@.admission
                },
                ControlCommand::DeleteThread { thread } => {
                    &&& step matches InstanceStep::Delete(step)
                    &&& deleting(old(self)@, thread, final(self)@, step)
                },
                _ => {
                    &&& step matches InstanceStep::Control(step)
                    &&& step.wf()
                    &&& forall|routes: RoutesView, parent: Option<String>| #[trigger]
                        begun_urgently(old(self)@.work, routes, control, parent) == (
                            final(self)@.work,
                            routes,
                            step@,
                        )
                    &&& final(self)@.routes == old(self)@.routes
                    &&& final(self)@.admission == old(self)@.admission
                },
            },
    {
        match control {
            ControlCommand::ClaimNativeThread { thread, harness_thread_id, workspace_root } => {
                InstanceStep::Attached(
                    self.claim_native_thread(
                        thread,
                        harness_thread_id,
                        workspace_root,
                        parent,
                        reactivate_tombstone,
                    ),
                )
            },
            ControlCommand::DeleteThread { thread } => InstanceStep::Delete(
                self.delete_thread(&thread),
            ),
            other => InstanceStep::Control(self.work.handle_unrouted_command(other)),
        }
    }

    fn attach_opened(
        &mut self,
        resume: &Option<String>,
        started_over: bool,
        native: &str,
        thread: ThreadId,
        handle: ThreadHandle,
    ) -> (result: Result<ThreadAttachment, (HarnessError, bool)>)
        requires
            old(self).wf(),
        ensures
            final(self).wf(),
            final(self).work == old(self).work,
            final(self)@.admission == old(self)@.admission,
            ({
                let name = match *resume {
                    Some(expected) => Some(expected@),
                    None => None,
                };
                let (after, attached) = attach(
                    old(self)@.routes,
                    name,
                    started_over,
                    native@,
                    thread,
                    (ThreadHandle {
                        thread: attached_thread(
                            old(self)@.routes,
                            name,
                            started_over,
                            native@,
                            thread,
                        ),
                        ..handle
                    }),
                );
                &&& final(self)@.routes == after
                &&& match result {
                    Ok(attachment) => attached == Ok::<AttachmentView, OpenFailure>(attachment@),
                    Err((error, discard)) => attached == Err::<AttachmentView, OpenFailure>(
                        OpenFailure { error: error@, discard },
                    ),
                }
            }),
    {
        let make_handle = |owner: ThreadId| -> (made: ThreadHandle)
            ensures
                made == (ThreadHandle { thread: owner, ..handle }),
            { ThreadHandle { thread: owner, ..handle } };
        match resume {
            Some(expected) => if started_over {
                match self.routes.replace_fresh(expected.as_str(), native, thread, make_handle) {
                    Ok(attachment) => Ok(attachment),
                    Err(ReplaceRouteFailure::AuthoritativeNative { thread: owner }) => {
                        let mut message = concat3(
                            "resume fallback returned native thread ",
                            native,
                            " already owned by ",
                        );
                        message.append(owner.text().as_str());
                        Err((HarnessError::Protocol(message), false))
                    },
                    Err(ReplaceRouteFailure::NewProviderRoute(error)) => Err((error, true)),
                }
            } else {
                match self.routes.resume(native, thread, make_handle) {
                    Ok(attachment) => Ok(attachment),
                    Err(error) => Err((error, false)),
                }
            },
            None => match self.routes.claim_fresh(native, thread, make_handle) {
                Ok(Ok(attachment)) => Ok(attachment),
                Ok(Err(conflict)) => {
                    let error = conflict.as_error(native, thread);
                    match conflict {
                        FreshRouteConflict::AuthoritativeNative { .. } => Err((error, false)),
                        FreshRouteConflict::NewNativeForBoundThread { .. } => Err((error, true)),
                    }
                },
                Err(error) => Err((error, false)),
            },
        }
    }

    /// Hands out a thread that the app-server opened, with the events that are delivered to it first, or
    /// tells why it cannot be. `warning` tells that it was started in the place of another one.
    pub fn handle_open_thread(
        &mut self,
        opts: &OpenThreadOptions,
        thread: ThreadId,
        opened: OpenedNativeThread,
        warning: Option<HarnessNotice>,
    ) -> (step: OpenStep)
        requires
            old(self).wf(),
        ensures
            final(self).wf(),
            final(self).work.mapper.root() == old(self).work.mapper.root(),
            final(self)@.admission == old(self)@.admission,
            ({
                let native = opened.harness_thread_id@;
                let (after, result) = open_at(
                    old(self)@.routes,
                    resumed_name(*opts),
                    warning is Some,
                    native,
                    thread,
                    opened_handle(
                        attached_thread(
                            old(self)@.routes,
                            resumed_name(*opts),
                            warning is Some,
                            native,
                            thread,
                        ),
                        opened,
                        opts.workspace_root,
                        warning,
                    ),
                );
                &&& final(self)@.routes == after
                &&& match result {
                    Ok((a, to)) => {
                        &&& step matches OpenStep::Opened { attachment, events, channel }
                        &&& attachment@ == a
                        &&& channel == to
                        &&& events@ == opening_events(thread, opened.harness_thread_id, warning)
                        &&& final(self)@.work == (StateView {
                            restores: restores_after(
                                old(self)@.work.restores,
                                *opts,
                                opened,
                                thread,
                                warning,
                            ),
                            ..old(self)@.work
                        })
                    },
                    Err(failure) => {
                        &&& final(self)@.work == old(self)@.work
                        &&& match step {
                            OpenStep::Opened { .. } => false,
                            OpenStep::Failed(error) => failure == (OpenFailure {
                                error: error@,
                                discard: false,
                            }),
                            OpenStep::Discard { call, error } => failure == (OpenFailure {
                                error: error@,
                                discard: true,
                            }) && call@ == thread_call("thread/delete"@, native),
                        }
                    },
                }
            }),
    {
        let native = opened.harness_thread_id.clone();
        let events = opened_events(thread, &native, &warning);
        let started_over = warning.is_some();
        let restore = match &opened.model {
            Some(model) => if opts.resume.is_some() && !started_over {
                Some(PendingContextRestore { thread, model: model.copy() })
            } else {
                None
            },
            None => None,
        };
        let handle = ThreadHandle {
            warning,
            resumed_model: opened.model,
            agent_name: opened.agent_name,
            parent_harness_thread_id: opened.parent_harness_thread_id,
            ..ThreadHandle::opened(thread, opened.harness_thread_id, opts.workspace_root.clone())
        };
        let attachment = match self.attach_opened(
            &opts.resume,
            started_over,
            native.as_str(),
            thread,
            handle,
        ) {
            Ok(attachment) => attachment,
            Err((error, discard)) => {
                return if discard {
                    OpenStep::Discard { call: delete_call(native.as_str()), error }
                } else {
                    OpenStep::Failed(error)
                };
            },
        };
        let owner = attachment.handle().thread;
        if owner != thread {
            let mut message = concat3(
                "opened native thread ",
                native.as_str(),
                " is already bound to ",
            );
            message.append(owner.text().as_str());
            message.append(", not ");
            message.append(thread.text().as_str());
            self.routes.return_attachment(attachment);
            return OpenStep::Failed(HarnessError::Protocol(message));
        }
        let route = match self.routes.active_for_thread(thread) {
            Ok(route) => route,
            Err(error) => {
                self.routes.return_attachment(attachment);
                return OpenStep::Failed(error);
            },
        };
        let channel = match self.routes.deliver(&route, thread) {
            Ok(channel) => channel,
            Err(error) => {
                self.routes.return_attachment(attachment);
                return OpenStep::Failed(error);
            },
        };
        match restore {
            Some(restore) => {
                self.work.pending_context_restores.insert(native, restore);
            },
            None => {},
        }
        OpenStep::Opened { attachment, events, channel }
    }
}

/// A thread that was deleted is given up on this side whatever the app-server says: its route delivers
/// nothing any longer, and nothing of it waits.
pub proof fn law_deleted_thread_is_given_up(
    instance: InstanceView,
    thread: ThreadHandle,
    after: InstanceView,
    step: DeleteStep,
)
    requires
        instance.routes.wf(),
        deleting(instance, thread, after, step),
        step is Ask,
    ensures
        after.routes.active_for_thread(thread.thread) is Err,
        !after.work.restores.contains_key(thread.harness_thread_id@),
        !after.work.compactions.contains_key(thread.thread),
        !after.work.mapper.active.contains_key(thread.thread),
        after.work.mapper.approvals_of(thread.thread) == Set::<Seq<char>>::empty(),
        after.work.mapper.requests_of(thread.thread) == Set::<Seq<char>>::empty(),
{
    assert(after.work.mapper.approvals_of(thread.thread) =~= Set::<Seq<char>>::empty());
    assert(after.work.mapper.requests_of(thread.thread) =~= Set::<Seq<char>>::empty());
}

/// A thread whose deletion was refused is as it was.
pub proof fn law_refused_deletion_changes_nothing(
    instance: InstanceView,
    thread: ThreadHandle,
    after: InstanceView,
    step: DeleteStep,
)
    requires
        deleting(instance, thread, after, step),
        !(step is Ask),
    ensures
        after == instance,
{
}

/// Opening a thread whose name or whose thread is taken changes no route, and what the app-server made is
/// deleted only where nothing else holds it.
pub proof fn law_conflicting_open_changes_no_route(
    table: TableView,
    native: Seq<char>,
    thread: ThreadId,
    handle: ThreadHandle,
)
    requires
        !table.closed,
        crate::text::trimmed(native).len() > 0,
        table.fresh_conflict(crate::text::trimmed(native), thread) is Some,
    ensures
        open_at(table, None, false, native, thread, handle).0 == table,
        open_at(table, None, false, native, thread, handle).1 is Err,
        open_at(table, None, false, native, thread, handle).1->Err_0.discard
            <==> !table.by_native.contains_key(crate::text::trimmed(native)),
{
}

/// Whether the slot that an attachment holds is active and belongs to the thread of its handle.
spec fn holds_slot(table: TableView, a: AttachmentView) -> bool {
    &&& table.slots.contains_key(a.slot)
    &&& table.slots[a.slot].thread == a.handle.thread
    &&& table.slots[a.slot].state is Active
}

proof fn lemma_claim_holds(table: TableView, slot: u64, handle: ThreadHandle)
    ensures
        table.claim_attachment(slot, handle).1 matches Ok(a) ==> holds_slot(
            table.claim_attachment(slot, handle).0,
            a,
        ),
{
}

proof fn lemma_reopen_holds(table: TableView, slot: u64, handle: ThreadHandle)
    ensures
        table.reopen(slot, handle).1 matches Ok(a) ==> holds_slot(table.reopen(slot, handle).0, a),
{
    lemma_claim_holds(table.reactivate(slot).0, slot, handle);
}

proof fn lemma_replace_holds(
    table: TableView,
    expected: Seq<char>,
    new_native: Seq<char>,
    thread: ThreadId,
    handle: ThreadHandle,
)
    ensures
        table.replace(expected, new_native, thread, handle).1 matches Ok(a) ==> holds_slot(
            table.replace(expected, new_native, thread, handle).0,
            a,
        ),
{
}

proof fn lemma_attach_holds(
    table: TableView,
    resume: Option<Seq<char>>,
    started_over: bool,
    native: Seq<char>,
    thread: ThreadId,
    handle: ThreadHandle,
)
    ensures
        attach(table, resume, started_over, native, thread, handle).1 matches Ok(a) ==> holds_slot(
            attach(table, resume, started_over, native, thread, handle).0,
            a,
        ),
{
    let (bound, slot) = table.establish(crate::text::trimmed(native), thread);
    match resume {
        Some(expected) => if started_over {
            lemma_replace_holds(table, expected, native, thread, handle);
        } else {
            lemma_reopen_holds(bound, slot->Ok_0, handle);
        },
        None => {
            lemma_claim_holds(bound, slot->Ok_0, handle);
        },
    }
}

/// An active slot of a thread delivers what is for the thread.
proof fn lemma_active_slot_delivers(table: TableView, slot: u64)
    requires
        table.wf(),
        table.slots.contains_key(slot),
        table.slots[slot].state is Active,
    ensures
        ({
            let thread = table.slots[slot].thread;
            &&& table.active_for_thread(thread) is Ok
            &&& table.deliver(table.active_for_thread(thread)->Ok_0, thread) is Ok
        }),
{
    let thread = table.slots[slot].thread;
    assert(table.by_thread.contains_key(thread) && table.by_thread[thread] == slot);
}

/// Whoever got the receiving end of the very thread that was opened hears of it: the first events are
/// delivered.
pub proof fn law_opened_thread_is_heard(
    table: TableView,
    resume: Option<Seq<char>>,
    started_over: bool,
    native: Seq<char>,
    thread: ThreadId,
    handle: ThreadHandle,
)
    requires
        table.wf(),
        attach(table, resume, started_over, native, thread, handle).1 is Ok,
        attach(table, resume, started_over, native, thread, handle).1->Ok_0.handle.thread == thread,
        attach(table, resume, started_over, native, thread, handle).0.wf(),
    ensures
        open_at(table, resume, started_over, native, thread, handle).1 is Ok,
{
    let (after, attached) = attach(table, resume, started_over, native, thread, handle);
    lemma_attach_holds(table, resume, started_over, native, thread, handle);
    lemma_active_slot_delivers(after, attached->Ok_0.slot);
}

} // verus!
