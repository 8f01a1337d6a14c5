//! Work that waits for a worker and work that a worker has taken up, so that slow work is noticed.

use vstd::prelude::*;

use crate::ids::{ProjectId, ThreadId};
use crate::maps::KeyMap;
use crate::turns::{elapsed_millis, elapsed_ms};

verus! {

/// How long work may wait or go on before that is worth a warning, in milliseconds.
pub const WORKER_QUEUE_WARN_AFTER_MS: u64 = 10_000;

/// Which queue work waits in.
#[derive(Clone, Copy, PartialEq, Eq, Structural, Debug)]
#[allow(inconsistent_fields)]
pub enum WorkerQueueKind {
    /// The queue of commands.
    Command,
    /// The queue of controls.
    Control,
}

/// A queue in one word.
pub open spec fn kind_chars(kind: WorkerQueueKind) -> Seq<char> {
    match kind {
        WorkerQueueKind::Command => "command"@,
        WorkerQueueKind::Control => "control"@,
    }
}

impl WorkerQueueKind {
    /// The queue in one word.
    pub fn as_str(self) -> (text: &'static str)
        ensures
            text@ == kind_chars(self),
    {
        match self {
            WorkerQueueKind::Command => "command",
            WorkerQueueKind::Control => "control",
        }
    }
}

/// Work in a queue.
#[derive(Clone, Copy, Debug)]
pub struct WorkerQueueToken {
    /// The number of the work.
    pub id: u64,
    /// Which queue it waits in.
    pub kind: WorkerQueueKind,
    /// What is to be done.
    pub action: &'static str,
    /// For which project.
    pub project_id: Option<ProjectId>,
    /// For which thread.
    pub thread_id: Option<ThreadId>,
    /// Since when it waits, in nanoseconds of the clock.
    pub enqueued_at: u64,
}

impl View for WorkerQueueToken {
    type V = WorkerQueueToken;

    open spec fn view(&self) -> WorkerQueueToken {
        *self
    }
}

/// Work in a queue, and for how long.
#[derive(Clone, Copy, Debug)]
pub struct WorkerQueueEntrySnapshot {
    /// The number of the work.
    pub id: u64,
    /// Which queue it waits in.
    pub kind: WorkerQueueKind,
    /// What is to be done.
    pub action: &'static str,
    /// For which project.
    pub project_id: Option<ProjectId>,
    /// For which thread.
    pub thread_id: Option<ThreadId>,
    /// For how long it waits, in milliseconds.
    pub elapsed_ms: u64,
}

/// Work in a queue, and for how long.
pub open spec fn entry_of(token: WorkerQueueToken, now: u64) -> WorkerQueueEntrySnapshot {
    WorkerQueueEntrySnapshot {
        id: token.id,
        kind: token.kind,
        action: token.action,
        project_id: token.project_id,
        thread_id: token.thread_id,
        elapsed_ms: elapsed_millis(token.enqueued_at, now),
    }
}

/// Work in a queue, and for how long.
pub fn snapshot_queue_token(token: WorkerQueueToken, now: u64) -> (entry: WorkerQueueEntrySnapshot)
    ensures
        entry == entry_of(token, now),
{
    WorkerQueueEntrySnapshot {
        id: token.id,
        kind: token.kind,
        action: token.action,
        project_id: token.project_id,
        thread_id: token.thread_id,
        elapsed_ms: elapsed_ms(token.enqueued_at, now),
    }
}

/// What waits and what goes on.
#[derive(Debug)]
pub struct WorkerQueueSnapshot {
    /// The work that goes on the longest.
    pub active: Option<WorkerQueueEntrySnapshot>,
    /// The work that waits the longest.
    pub oldest_pending: Option<WorkerQueueEntrySnapshot>,
    /// How many commands wait.
    pub command_pending: usize,
    /// How many controls wait.
    pub control_pending: usize,
}

/// What waits and what goes on.
#[verifier::ext_equal]
pub struct QueueView {
    /// The number of the next work.
    pub next_id: u64,
    /// What waits.
    pub pending: Map<u64, WorkerQueueToken>,
    /// What goes on.
    pub active: Map<u64, WorkerQueueToken>,
    /// Whether no worker is left.
    pub closed: bool,
}

/// Whether this is one of the works that are there the longest.
pub open spec fn is_oldest(
    works: Map<u64, WorkerQueueToken>,
    found: Option<WorkerQueueEntrySnapshot>,
    now: u64,
) -> bool {
    match found {
        Some(entry) => exists|id: u64| #[trigger]
            works.contains_key(id) && entry == entry_of(works[id], now) && forall|other: u64| #[trigger]
                works.contains_key(other) ==> works[id].enqueued_at <= works[other].enqueued_at,
        None => works == Map::<u64, WorkerQueueToken>::empty(),
    }
}

/// The works of a queue.
pub open spec fn of_kind(works: Map<u64, WorkerQueueToken>, kind: WorkerQueueKind) -> Set<u64> {
    works.dom().filter(|id: u64| works[id].kind == kind)
}

impl QueueView {
    /// Work came.
    pub open spec fn enqueued(self, token: WorkerQueueToken) -> QueueView {
        QueueView {
            next_id: if self.next_id < u64::MAX {
                (self.next_id + 1) as u64
            } else {
                self.next_id
            },
            pending: self.pending.insert(token.id, token),
            ..self
        }
    }

    /// Work was taken up.
    pub open spec fn started(self, token: WorkerQueueToken) -> QueueView {
        QueueView {
            pending: self.pending.remove(token.id),
            active: self.active.insert(token.id, token),
            ..self
        }
    }
}

/// Watches the work of a worker.
pub struct WorkerQueueWatchdog {
    next_id: u64,
    pending: KeyMap<u64, WorkerQueueToken>,
    active: KeyMap<u64, WorkerQueueToken>,
    closed: bool,
}

impl View for WorkerQueueWatchdog {
    type V = QueueView;

    closed spec fn view(&self) -> QueueView {
        QueueView {
            next_id: self.next_id,
            pending: self.pending@,
            active: self.active@,
            closed: self.closed,
        }
    }
}

/// What is done when the work is looked at.
#[derive(Debug)]
pub enum WatchStep {
    /// Nothing is looked at any longer.
    Stop,
    /// Nothing is slow.
    Quiet,
    /// Something is slow.
    Warn(WorkerQueueSnapshot),
}

/// Whether some of the work is slow.
pub open spec fn some_is_late(works: Map<u64, WorkerQueueToken>, now: u64) -> bool {
    exists|id: u64| #[trigger]
        works.contains_key(id) && elapsed_millis(works[id].enqueued_at, now)
            >= WORKER_QUEUE_WARN_AFTER_MS
}

/// Whether this work is slow.
fn is_late(entry: &Option<WorkerQueueEntrySnapshot>, works: Ghost<Map<u64, WorkerQueueToken>>, now: u64) -> (late:
    bool)
    requires
        is_oldest(works@, *entry, now),
    ensures
        late == some_is_late(works@, now),
{
    match entry {
        Some(entry) => entry.elapsed_ms >= WORKER_QUEUE_WARN_AFTER_MS,
        None => false,
    }
}

/// What a snapshot shows of the work.
pub open spec fn shows(queue: QueueView, snapshot: WorkerQueueSnapshot, now: u64) -> bool {
    &&& is_oldest(queue.active, snapshot.active, now)
    &&& is_oldest(queue.pending, snapshot.oldest_pending, now)
    &&& snapshot.command_pending == of_kind(queue.pending, WorkerQueueKind::Command).len()
    &&& snapshot.control_pending == of_kind(queue.pending, WorkerQueueKind::Control).len()
}

impl WorkerQueueWatchdog {
    /// Each table is a map.
    pub closed spec fn wf(self) -> bool {
        self.pending.wf() && self.active.wf()
    }

    /// Nothing waits and nothing goes on.
    pub fn new() -> (watchdog: Self)
        ensures
            watchdog.wf(),
            watchdog@ == (QueueView {
                next_id: 1,
                pending: Map::empty(),
                active: Map::empty(),
                closed: false,
            }),
    {
        WorkerQueueWatchdog {
            next_id: 1,
            pending: KeyMap::new(),
            active: KeyMap::new(),
            closed: false,
        }
    }

    /// Work comes, and waits from now.
    pub fn enqueue(
        &mut self,
        kind: WorkerQueueKind,
        action: &'static str,
        project_id: Option<ProjectId>,
        thread_id: Option<ThreadId>,
        now: u64,
    ) -> (token: WorkerQueueToken)
        requires
            old(self).wf(),
        ensures
            final(self).wf(),
            token == (WorkerQueueToken {
                id: old(self)@.next_id,
                kind,
                action,
                project_id,
                thread_id,
                enqueued_at: now,
            }),
            final(self)@ == old(self)@.enqueued(token),
    {
        let token = WorkerQueueToken {
            id: self.next_id,
            kind,
            action,
            project_id,
            thread_id,
            enqueued_at: now,
        };
        self.next_id = self.next_id.saturating_add(1);
        self.pending.insert(token.id, token);
        token
    }

    /// Work that could not be handed to a worker waits no longer.
    pub fn cancel(&mut self, token: WorkerQueueToken)
        requires
            old(self).wf(),
        ensures
            final(self).wf(),
            final(self)@ == (QueueView {
                pending: old(self)@.pending.remove(token.id),
                ..old(self)@
            }),
    {
        self.pending.remove(&token.id);
    }

    /// A worker takes work up.
    pub fn mark_started(&mut self, token: WorkerQueueToken)
        requires
            old(self).wf(),
        ensures
            final(self).wf(),
            final(self)@ == old(self)@.started(token),
    {
        self.pending.remove(&token.id);
        self.active.insert(token.id, token);
    }

    /// A worker is done with work.
    pub fn mark_finished(&mut self, token: WorkerQueueToken)
        requires
            old(self).wf(),
        ensures
            final(self).wf(),
            final(self)@ == (QueueView {
                active: old(self)@.active.remove(token.id),
                ..old(self)@
            }),
    {
        self.active.remove(&token.id);
    }

    /// No worker is left.
    pub fn close(&mut self)
        requires
            old(self).wf(),
        ensures
            final(self).wf(),
            final(self)@ == (QueueView { closed: true, ..old(self)@ }),
    {
        self.closed = true;
    }

    /// Whether no worker is left.
    pub fn is_closed(&self) -> (closed: bool)
        ensures
            closed == self@.closed,
    {
        self.closed
    }

    fn oldest(works: &KeyMap<u64, WorkerQueueToken>, now: u64) -> (found: Option<
        WorkerQueueEntrySnapshot,
    >)
        requires
            works.wf(),
        ensures
            is_oldest(works@, found, now),
    {
        let n: usize = works.len();
        proof {
            works.lemma_order();
        }
        if n == 0 {
            proof {
                assert(works@.dom() =~= Set::empty());
                assert(works@ =~= Map::<u64, WorkerQueueToken>::empty());
            }
            return None;
        }
        let mut best = *works.nth(0).1;
        let ghost mut at: int = 0;
        let mut i: usize = 1;
        while i < n
            invariant
                works.wf(),
                n == works.order().len(),
                1 <= i <= n,
                0 <= at < i,
                works@.contains_key(works.order()[at]),
                best == works@[works.order()[at]],
                forall|j: int|
                    0 <= j < i ==> best.enqueued_at <= works@[#[trigger] works.order()[j]].enqueued_at,
            decreases n - i,
        {
            let token = *works.nth(i).1;
            if token.enqueued_at < best.enqueued_at {
                best = token;
                proof {
                    at = i as int;
                }
            }
            i = i + 1;
        }
        proof {
            let id = works.order()[at];
            assert forall|other: u64| #[trigger] works@.contains_key(other) implies works@[id].enqueued_at
                <= works@[other].enqueued_at by {
                assert(works.order().to_set().contains(other));
                let j = choose|j: int| 0 <= j < works.order().len() && works.order()[j] == other;
                assert(works@[works.order()[j]] == works@[other]);
            }
            assert(works@.contains_key(id));
        }
        Some(snapshot_queue_token(best, now))
    }

    fn count(works: &KeyMap<u64, WorkerQueueToken>, kind: WorkerQueueKind) -> (counted: usize)
        requires
            works.wf(),
        ensures
            counted == of_kind(works@, kind).len(),
    {
        let n: usize = works.len();
        let mut counted: usize = 0;
        let mut i: usize = 0;
        let ghost order = works.order();
        let ghost p = |id: u64| works@[id].kind == kind;
        proof {
            works.lemma_order();
            assert(order.take(0).to_set().filter(p) =~= Set::<u64>::empty());
        }
        while i < n
            invariant
                works.wf(),
                order == works.order(),
                order.no_duplicates(),
                n == order.len(),
                i <= n,
                counted <= i,
                p == |id: u64| works@[id].kind == kind,
                order.take(i as int).to_set().finite(),
                order.take(i as int).to_set().filter(p).finite(),
                counted == order.take(i as int).to_set().filter(p).len(),
            decreases n - i,
        {
            let (id, token) = works.nth(i);
            let ghost done = order.take(i as int).to_set();
            let ghost more = order.take(i + 1).to_set();
            proof {
                let now = order.take(i + 1);
                assert(now =~= order.take(i as int).push(*id));
                assert forall|k: u64| more.contains(k) == done.insert(*id).contains(k) by {
                    if done.contains(k) {
                        let j = choose|j: int| 0 <= j < i && order[j] == k;
                        assert(now[j] == k);
                    }
                    if k == *id {
                        assert(now[i as int] == k);
                    }
                    if more.contains(k) && k != *id {
                        let j = choose|j: int| 0 <= j < now.len() && now[j] == k;
                        assert(order.take(i as int)[j] == k);
                    }
                }
                assert(more =~= done.insert(*id));
                assert(!done.contains(*id)) by {
                    if done.contains(*id) {
                        let j = choose|j: int| 0 <= j < i && order[j] == *id;
                        assert(order[j] == order[i as int]);
                    }
                }
                if p(*id) {
                    assert(more.filter(p) =~= done.filter(p).insert(*id));
                } else {
                    assert(more.filter(p) =~= done.filter(p));
                }
            }
            if token.kind == kind {
                counted = counted + 1;
            }
            i = i + 1;
        }
        proof {
            assert(order.take(n as int) =~= order);
            assert(order.to_set().filter(p) =~= of_kind(works@, kind));
        }
        counted
    }

    /// What waits and what goes on.
    pub fn snapshot(&self, now: u64) -> (snapshot: WorkerQueueSnapshot)
        requires
            self.wf(),
        ensures
            shows(self@, snapshot, now),
    {
        WorkerQueueSnapshot {
            active: Self::oldest(&self.active, now),
            oldest_pending: Self::oldest(&self.pending, now),
            command_pending: Self::count(&self.pending, WorkerQueueKind::Command),
            control_pending: Self::count(&self.pending, WorkerQueueKind::Control),
        }
    }

    /// Looks at the work: whether it is looked at no longer, and whether something is slow.
    pub fn watch(&self, now: u64) -> (step: WatchStep)
        requires
            self.wf(),
        ensures
            step is Stop <==> self@.closed,
            step is Warn <==> !self@.closed && (some_is_late(self@.active, now) || some_is_late(
                self@.pending,
                now,
            )),
            step matches WatchStep::Warn(snapshot) ==> shows(self@, snapshot, now),
    {
        if self.closed {
            return WatchStep::Stop;
        }
        let snapshot = self.snapshot(now);
        let active_is_slow = is_late(&snapshot.active, Ghost(self@.active), now);
        let pending_is_slow = is_late(&snapshot.oldest_pending, Ghost(self@.pending), now);
        if active_is_slow || pending_is_slow {
            WatchStep::Warn(snapshot)
        } else {
            WatchStep::Quiet
        }
    }
}

/// Work that was taken up and is done leaves the rest as it was, and so does work that could not be
/// handed on.
pub proof fn law_finished_work_leaves_nothing(queue: QueueView, token: WorkerQueueToken)
    requires
        token.id == queue.next_id,
        !queue.pending.contains_key(token.id),
        !queue.active.contains_key(token.id),
    ensures
        queue.enqueued(token).pending.remove(token.id) == queue.pending,
        queue.enqueued(token).started(token).pending == queue.pending,
        queue.enqueued(token).started(token).active.contains_key(token.id),
        queue.enqueued(token).started(token).active.remove(token.id) == queue.active,
{
    assert(queue.enqueued(token).pending.remove(token.id) =~= queue.pending);
    assert(queue.enqueued(token).started(token).active.remove(token.id) =~= queue.active);
}

/// Numbers of work are handed out in order, each once, until they are used up.
pub proof fn law_work_is_numbered_once(queue: QueueView, token: WorkerQueueToken)
    requires
        queue.next_id < u64::MAX,
        token.id == queue.next_id,
        forall|id: u64| #[trigger] queue.pending.contains_key(id) ==> id < queue.next_id,
    ensures
        queue.enqueued(token).next_id == token.id + 1,
        forall|id: u64| #[trigger]
            queue.enqueued(token).pending.contains_key(id) ==> id < queue.enqueued(token).next_id,
{
}

/// Work is told as it was handed in: its number, its kind, what it does, for which project and
/// thread, and how long it has waited.
pub proof fn law_work_is_told_as_handed_in(token: WorkerQueueToken, now: u64)
    ensures
        entry_of(token, now).id == token.id,
        entry_of(token, now).kind == token.kind,
        entry_of(token, now).action == token.action,
        entry_of(token, now).project_id == token.project_id,
        entry_of(token, now).thread_id == token.thread_id,
        now >= token.enqueued_at ==> entry_of(token, now).elapsed_ms == (now - token.enqueued_at)
            / 1_000_000,
        now < token.enqueued_at ==> entry_of(token, now).elapsed_ms == 0,
{
}

/// Work that waits is of one kind or the other, and each kind goes by its own word.
pub proof fn law_work_is_counted_by_kind(works: Map<u64, WorkerQueueToken>, id: u64)
    requires
        works.contains_key(id),
    ensures
        of_kind(works, WorkerQueueKind::Command).contains(id) <==> works[id].kind
            == WorkerQueueKind::Command,
        of_kind(works, WorkerQueueKind::Control).contains(id) <==> works[id].kind
            == WorkerQueueKind::Control,
        kind_chars(WorkerQueueKind::Command) == "command"@,
        kind_chars(WorkerQueueKind::Control) == "control"@,
{
}

/// Work is late after ten seconds.
pub proof fn law_work_is_late_after_ten_seconds(works: Map<u64, WorkerQueueToken>, now: u64)
    ensures
        some_is_late(works, now) <==> exists|id: u64| #[trigger]
            works.contains_key(id) && now - works[id].enqueued_at >= 10_000_000_000,
{
    if some_is_late(works, now) {
        let id = choose|id: u64| #[trigger]
            works.contains_key(id) && elapsed_millis(works[id].enqueued_at, now)
                >= WORKER_QUEUE_WARN_AFTER_MS;
        assert(works.contains_key(id));
    }
    if exists|id: u64| #[trigger]
        works.contains_key(id) && now - works[id].enqueued_at >= 10_000_000_000 {
        let id = choose|id: u64| #[trigger]
            works.contains_key(id) && now - works[id].enqueued_at >= 10_000_000_000;
        assert(works.contains_key(id));
        assert(elapsed_millis(works[id].enqueued_at, now) >= WORKER_QUEUE_WARN_AFTER_MS);
    }
}

/// Work that is taken up no longer waits and is being done, and other work is left as it was.
pub proof fn law_taken_up_work_is_being_done(queue: QueueView, token: WorkerQueueToken, other: u64)
    ensures
        queue.enqueued(token).pending.contains_key(token.id),
        queue.enqueued(token).pending[token.id] == token,
        queue.enqueued(token).active == queue.active,
        !queue.started(token).pending.contains_key(token.id),
        queue.started(token).active.contains_key(token.id),
        queue.started(token).active[token.id] == token,
        queue.started(token).next_id == queue.next_id,
        other != token.id ==> {
            &&& queue.enqueued(token).pending.contains_key(other) == queue.pending.contains_key(
                other,
            )
            &&& queue.started(token).pending.contains_key(other) == queue.pending.contains_key(
                other,
            )
            &&& queue.started(token).active.contains_key(other) == queue.active.contains_key(other)
        },
{
}

} // verus!
