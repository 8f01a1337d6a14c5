//! Turns that go on, compactions and restores that wait, and what events make of them.

use vstd::prelude::*;

use crate::error::HarnessError;
use crate::event::{
    agent_event_turn, turn_of, AgentEvent, Item, ItemPayload, TokenUsage, TurnStatus,
    TurnStatusKind,
};
use crate::handle::{ModelRef, ThreadHandle};
use crate::ids::{ThreadId, TurnId};
use crate::maps::{TextMap, ThreadMap};
use crate::mapper::CodexMapper;
use crate::mapper_model::MapperView;
use crate::number::{decimal, u64_text};
use crate::protocol::{Notification, ServerMessage};
use crate::text::{same_text, views};

verus! {

/// How long a turn may go on without a message before that is worth a warning, in nanoseconds.
pub const FIRST_EVENT_WARN_NS: u64 = 15_000_000_000;

/// The time that went by, in nanoseconds. A clock that went backwards made no time go by.
pub open spec fn elapsed(started_at: u64, now: u64) -> nat {
    if now >= started_at {
        (now - started_at) as nat
    } else {
        0
    }
}

/// The time that went by, in whole milliseconds.
pub open spec fn elapsed_millis(started_at: u64, now: u64) -> u64 {
    (elapsed(started_at, now) / 1_000_000) as u64
}

/// The time that went by, in nanoseconds.
pub fn elapsed_ns(started_at: u64, now: u64) -> (ns: u64)
    ensures
        ns == elapsed(started_at, now),
{
    if now >= started_at {
        now - started_at
    } else {
        0
    }
}

/// The time that went by, in whole milliseconds.
pub fn elapsed_ms(started_at: u64, now: u64) -> (ms: u64)
    ensures
        ms == elapsed_millis(started_at, now),
{
    elapsed_ns(started_at, now) / 1_000_000
}

/// A turn that was accepted and goes on.
#[derive(Debug)]
pub struct ActiveTurn {
    /// The thread.
    pub thread: ThreadHandle,
    /// The turn that was accepted.
    pub acknowledged_turn: TurnId,
    /// The turn that goes on.
    pub active_turn: Option<TurnId>,
    /// When it was accepted, in nanoseconds of the clock.
    pub started_at: u64,
    /// Whether a message came for the thread since.
    pub saw_server_message: bool,
    /// Whether it was warned that no message came.
    pub warned_no_server_message: bool,
    /// The directory of the files that were uploaded for the turn.
    pub upload_dir: Option<String>,
}

impl View for ActiveTurn {
    type V = ActiveTurn;

    open spec fn view(&self) -> ActiveTurn {
        *self
    }
}

/// The turns that go on, by thread.
pub type ActiveTurns = ThreadMap<ActiveTurn>;

/// Whether an event belongs to the accepted turn: it names no other.
pub open spec fn is_current(active: ActiveTurn, event: AgentEvent) -> bool {
    turn_of(event) is None || turn_of(event) == Some(active.acknowledged_turn)
}

impl ActiveTurn {
    /// A turn that was just accepted.
    pub fn new(thread: ThreadHandle, acknowledged_turn: TurnId, started_at: u64) -> (active: Self)
        ensures
            active == (ActiveTurn {
                thread,
                acknowledged_turn,
                active_turn: Some(acknowledged_turn),
                started_at,
                saw_server_message: false,
                warned_no_server_message: false,
                upload_dir: None,
            }),
    {
        ActiveTurn {
            thread,
            acknowledged_turn,
            active_turn: Some(acknowledged_turn),
            started_at,
            saw_server_message: false,
            warned_no_server_message: false,
            upload_dir: None,
        }
    }

    /// The same turn, with the directory of its uploads.
    pub fn with_upload_dir(self, upload_dir: Option<String>) -> (active: Self)
        ensures
            active == (ActiveTurn { upload_dir, ..self }),
    {
        ActiveTurn { upload_dir, ..self }
    }

    /// A message came.
    pub fn mark_server_message(&mut self)
        ensures
            *final(self) == (ActiveTurn { saw_server_message: true, ..*old(self) }),
    {
        self.saw_server_message = true;
    }

    /// Whether an event belongs to the accepted turn.
    pub fn event_is_current_turn(&self, event: &AgentEvent) -> (current: bool)
        ensures
            current == is_current(*self, *event),
    {
        match agent_event_turn(event) {
            Some(turn) => turn == self.acknowledged_turn,
            None => true,
        }
    }
}

/// A turn that goes on, in words.
pub open spec fn turn_line(active: ActiveTurn) -> Seq<char> {
    "thread_id="@ + active.thread.thread.chars() + ",harness_thread_id="@
        + active.thread.harness_thread_id@ + ",acknowledged_turn="@
        + active.acknowledged_turn.chars() + ",active_turn="@ + (match active.active_turn {
        Some(turn) => turn.chars(),
        None => "none"@,
    })
}

/// The turns that go on, in words.
pub fn active_turn_states(active_turns: &ActiveTurns) -> (states: Vec<String>)
    requires
        active_turns.wf(),
    ensures
        views(states@) == active_turns.order().map_values(
            |thread: ThreadId| turn_line(active_turns@[thread]),
        ),
{
    let mut states: Vec<String> = Vec::new();
    let mut i: usize = 0;
    let n: usize = active_turns.len();
    while i < n
        invariant
            active_turns.wf(),
            n == active_turns.order().len(),
            i <= n,
            states@.len() == i,
            forall|j: int|
                0 <= j < i ==> #[trigger] states@[j]@ == turn_line(
                    active_turns@[active_turns.order()[j]],
                ),
        decreases n - i,
    {
        let active = active_turns.nth(i).1;
        let mut line = "thread_id=".to_owned();
        line.append(active.thread.thread.text().as_str());
        line.append(",harness_thread_id=");
        line.append(active.thread.harness_thread_id.as_str());
        line.append(",acknowledged_turn=");
        line.append(active.acknowledged_turn.text().as_str());
        line.append(",active_turn=");
        match active.active_turn {
            Some(turn) => {
                line.append(turn.text().as_str());
            },
            None => {
                line.append("none");
            },
        }
        states.push(line);
        i = i + 1;
    }
    proof {
        let want = active_turns.order().map_values(
            |thread: ThreadId| turn_line(active_turns@[thread]),
        );
        assert forall|j: int| 0 <= j < n implies #[trigger] views(states@)[j] == want[j] by {
            assert(states@[j]@ == turn_line(active_turns@[active_turns.order()[j]]));
        }
        assert(views(states@) =~= want);
    }
    states
}

/// Whether a thread may stand for a message that names none: one in which a command runs, else the
/// only one in which a turn goes on, else a fresh one.
pub open spec fn stands_in(
    known: MapperView,
    active: Map<ThreadId, ActiveTurn>,
    fresh: ThreadId,
    thread: ThreadId,
) -> bool {
    if known.running != Map::<Seq<char>, ThreadId>::empty() {
        known.running.contains_value(thread)
    } else if active.dom().len() == 1 {
        active.contains_key(thread)
    } else {
        thread == fresh
    }
}

/// A thread that stands for a message that names none.
pub fn fallback_thread(mapper: &CodexMapper, active_turns: &ActiveTurns, fresh: ThreadId) -> (thread:
    ThreadId)
    requires
        mapper.wf(),
        active_turns.wf(),
    ensures
        stands_in(mapper@, active_turns@, fresh, thread),
{
    match mapper.running_command_fallback_thread() {
        Some(thread) => thread,
        None => if active_turns.len() == 1 {
            *active_turns.nth(0).0
        } else {
            fresh
        },
    }
}

/// Whether a turn goes on without a message for too long, and that was not said yet.
pub open spec fn is_slow(active: ActiveTurn, now: u64) -> bool {
    &&& !active.saw_server_message
    &&& !active.warned_no_server_message
    &&& elapsed(active.started_at, now) >= FIRST_EVENT_WARN_NS
}

/// A turn after the clock was looked at.
pub open spec fn watched(active: ActiveTurn, now: u64) -> ActiveTurn {
    ActiveTurn { warned_no_server_message: active.warned_no_server_message || is_slow(active, now), ..active }
}

/// Finds the turns that go on without a message for too long. Each is found once.
pub fn warn_slow_first_events(active_turns: &mut ActiveTurns, now: u64) -> (slow: Vec<ThreadId>)
    requires
        old(active_turns).wf(),
    ensures
        final(active_turns).wf(),
        final(active_turns)@ == old(active_turns)@.map_values(|active: ActiveTurn| watched(active, now)),
        slow@.no_duplicates(),
        slow@.to_set() == Set::new(
            |thread: ThreadId|
                old(active_turns)@.contains_key(thread) && is_slow(
                    old(active_turns)@[thread],
                    now,
                ),
        ),
{
    let mut slow: Vec<ThreadId> = Vec::new();
    let mut i: usize = 0;
    let n: usize = active_turns.len();
    let ghost before = active_turns@;
    let ghost order = active_turns.order();
    proof {
        active_turns.lemma_order();
    }
    while i < n
        invariant
            active_turns.wf(),
            active_turns.order() == order,
            n == order.len(),
            i <= n,
            order.no_duplicates(),
            order.to_set() == before.dom(),
            active_turns@.dom() == before.dom(),
            forall|j: int|
                0 <= j < i ==> active_turns@[#[trigger] order[j]] == watched(before[order[j]], now),
            forall|j: int|
                i <= j < n ==> active_turns@[#[trigger] order[j]] == before[order[j]],
            slow@.no_duplicates(),
            forall|thread: ThreadId| #[trigger]
                slow@.contains(thread) <==> exists|j: int|
                    0 <= j < i && #[trigger] order[j] == thread && is_slow(before[thread], now),
        decreases n - i,
    {
        let (thread, active) = active_turns.nth(i);
        let thread = *thread;
        proof {
            assert(order.contains(order[i as int]));
            assert(before.dom().contains(thread));
        }
        let ghost found = slow@;
        if !active.saw_server_message && !active.warned_no_server_message && elapsed_ns(
            active.started_at,
            now,
        ) >= FIRST_EVENT_WARN_NS {
            let warned = ActiveTurn {
                thread: active.thread.copy(),
                acknowledged_turn: active.acknowledged_turn,
                active_turn: active.active_turn,
                started_at: active.started_at,
                saw_server_message: active.saw_server_message,
                warned_no_server_message: true,
                upload_dir: crate::handle::copy_text(&active.upload_dir),
            };
            active_turns.set_nth(i, warned);
            slow.push(thread);
            proof {
                assert(!found.contains(thread));
                assert forall|t: ThreadId| #[trigger] slow@.contains(t) <==> (found.contains(t) || t
                    == thread) by {
                    if found.contains(t) {
                        let m = choose|m: int| 0 <= m < found.len() && found[m] == t;
                        assert(slow@[m] == t);
                    }
                    if t == thread {
                        assert(slow@[found.len() as int] == t);
                    }
                }
                assert(order[i as int] == thread);
            }
        }
        i = i + 1;
    }
    proof {
        let want = before.map_values(|active: ActiveTurn| watched(active, now));
        assert forall|thread: ThreadId| #[trigger]
            before.contains_key(thread) implies active_turns@[thread] == want[thread] by {
            assert(order.to_set().contains(thread));
            let j = choose|j: int| 0 <= j < order.len() && order[j] == thread;
            assert(active_turns@[order[j]] == watched(before[order[j]], now));
        }
        assert(active_turns@ =~= want);
        let late = Set::new(
            |thread: ThreadId| before.contains_key(thread) && is_slow(before[thread], now),
        );
        assert forall|thread: ThreadId| slow@.to_set().contains(thread) == late.contains(thread) by {
            if late.contains(thread) {
                assert(order.to_set().contains(thread));
                let j = choose|j: int| 0 <= j < order.len() && order[j] == thread;
                assert(order[j] == thread);
                assert(slow@.contains(thread));
            }
            if slow@.contains(thread) {
                let j = choose|j: int|
                    0 <= j < n && #[trigger] order[j] == thread && is_slow(before[thread], now);
                assert(order.contains(thread));
                assert(before.dom().contains(thread));
            }
        }
        assert(slow@.to_set() =~= late);
    }
    slow
}

/// The turn that an event ends, where it is the accepted turn of its thread.
pub open spec fn completed(active: Map<ThreadId, ActiveTurn>, event: AgentEvent) -> Option<
    (ThreadId, TurnId),
> {
    match event {
        AgentEvent::TurnCompleted { thread, turn, .. } => if active.contains_key(thread)
            && active[thread].acknowledged_turn == turn {
            Some((thread, turn))
        } else {
            None
        },
        _ => None,
    }
}

/// The turn that an event ends, where it is the accepted turn of its thread.
pub fn completed_current_active_turn(active_turns: &ActiveTurns, event: &AgentEvent) -> (ended:
    Option<(ThreadId, TurnId)>)
    requires
        active_turns.wf(),
    ensures
        ended == completed(active_turns@, *event),
{
    match event {
        AgentEvent::TurnCompleted { thread, turn, .. } => match active_turns.get(thread) {
            Some(active) => if *turn == active.acknowledged_turn {
                Some((*thread, *turn))
            } else {
                None
            },
            None => None,
        },
        _ => None,
    }
}

/// A compaction of a thread's context that was asked for.
#[derive(Clone, Copy, PartialEq, Eq, Structural, Debug)]
pub struct PendingCompaction {
    /// When it was asked for, in nanoseconds of the clock.
    pub started_at: u64,
    /// Whether a turn started since.
    pub saw_turn_started: bool,
}

impl View for PendingCompaction {
    type V = PendingCompaction;

    open spec fn view(&self) -> PendingCompaction {
        *self
    }
}

/// Whether an item says that the context was compacted.
pub open spec fn says_compacted(item: Item) -> bool {
    match item.payload {
        ItemPayload::Activity { title, .. } => title@ == "Context compacted"@,
        _ => false,
    }
}

/// Whether an item says that the context was compacted.
pub fn is_context_compaction_activity(item: &Item) -> (found: bool)
    ensures
        found == says_compacted(*item),
{
    match &item.payload {
        ItemPayload::Activity { title, .. } => same_text(title.as_str(), "Context compacted"),
        _ => false,
    }
}

/// What an event makes of a compaction, and whether it is over. The item that says so ends a
/// compaction that started no turn; one that did ends with its turn.
pub open spec fn compacted(pending: PendingCompaction, event: AgentEvent) -> (
    PendingCompaction,
    bool,
) {
    match event {
        AgentEvent::TurnStarted { .. } => (
            PendingCompaction { saw_turn_started: true, ..pending },
            false,
        ),
        AgentEvent::ItemCompleted { item, .. } => (
            pending,
            says_compacted(item) && !pending.saw_turn_started,
        ),
        AgentEvent::TurnCompleted { .. } => (pending, true),
        _ => (pending, false),
    }
}

impl PendingCompaction {
    /// A compaction that is asked for now.
    pub fn new(started_at: u64) -> (pending: Self)
        ensures
            pending == (PendingCompaction { started_at, saw_turn_started: false }),
    {
        PendingCompaction { started_at, saw_turn_started: false }
    }

    /// Takes note of an event, and tells whether the compaction is over.
    pub fn observe(&mut self, event: &AgentEvent) -> (over: bool)
        ensures
            (*final(self), over) == compacted(*old(self), *event),
    {
        match event {
            AgentEvent::TurnStarted { .. } => {
                self.saw_turn_started = true;
                false
            },
            AgentEvent::ItemCompleted { item, .. } => is_context_compaction_activity(item)
                && !self.saw_turn_started,
            AgentEvent::TurnCompleted { .. } => true,
            _ => false,
        }
    }
}

/// What an event is to a compaction.
pub open spec fn compaction_name(event: AgentEvent) -> Option<Seq<char>> {
    match event {
        AgentEvent::TurnStarted { .. } => Some("turn_started"@),
        AgentEvent::ItemCompleted { item, .. } => if says_compacted(item) {
            Some("context_compacted_item"@)
        } else {
            None
        },
        AgentEvent::TurnCompleted { .. } => Some("turn_completed"@),
        _ => None,
    }
}

/// What an event is to a compaction.
pub fn compaction_event_name(event: &AgentEvent) -> (name: Option<&'static str>)
    ensures
        crate::split::opt_view(name) == compaction_name(*event),
{
    match event {
        AgentEvent::TurnStarted { .. } => Some("turn_started"),
        AgentEvent::ItemCompleted { item, .. } => if is_context_compaction_activity(item) {
            Some("context_compacted_item")
        } else {
            None
        },
        AgentEvent::TurnCompleted { .. } => Some("turn_completed"),
        _ => None,
    }
}

/// What an event makes of the compactions that wait.
pub open spec fn compactions_after(
    pending: Map<ThreadId, PendingCompaction>,
    thread: ThreadId,
    event: AgentEvent,
) -> Map<ThreadId, PendingCompaction> {
    if pending.contains_key(thread) && compaction_name(event) is Some {
        let (next, over) = compacted(pending[thread], event);
        if over {
            pending.remove(thread)
        } else {
            pending.insert(thread, next)
        }
    } else {
        pending
    }
}

/// How long a compaction took that an event ended, in milliseconds.
pub open spec fn compaction_took(
    pending: Map<ThreadId, PendingCompaction>,
    thread: ThreadId,
    event: AgentEvent,
    now: u64,
) -> Option<u64> {
    if pending.contains_key(thread) && compacted(pending[thread], event).1 {
        Some(elapsed_millis(pending[thread].started_at, now))
    } else {
        None
    }
}

/// Takes note of an event of a thread, and tells how long its compaction took where it is over.
pub fn observe_pending_compaction(
    pending_compactions: &mut ThreadMap<PendingCompaction>,
    thread: ThreadId,
    event: &AgentEvent,
    now: u64,
) -> (took: Option<u64>)
    requires
        old(pending_compactions).wf(),
    ensures
        final(pending_compactions).wf(),
        final(pending_compactions)@ == compactions_after(
            old(pending_compactions)@,
            thread,
            *event,
        ),
        took == compaction_took(old(pending_compactions)@, thread, *event, now),
{
    if compaction_event_name(event).is_none() {
        return None;
    }
    let mut pending = match pending_compactions.get(&thread) {
        Some(pending) => *pending,
        None => {
            return None;
        },
    };
    if pending.observe(event) {
        pending_compactions.remove(&thread);
        Some(elapsed_ms(pending.started_at, now))
    } else {
        pending_compactions.insert(thread, pending);
        None
    }
}

/// A compaction that waits, in words.
pub open spec fn compaction_line(thread: ThreadId, pending: PendingCompaction, now: u64) -> Seq<
    char,
> {
    thread.chars() + ":saw_turn_started="@ + (if pending.saw_turn_started {
        "true"@
    } else {
        "false"@
    }) + ",elapsed_ms="@ + decimal(elapsed_millis(pending.started_at, now) as nat)
}

/// The compactions that wait, in words.
pub fn pending_compaction_states(pending_compactions: &ThreadMap<PendingCompaction>, now: u64) -> (states:
    Vec<String>)
    requires
        pending_compactions.wf(),
    ensures
        views(states@) == pending_compactions.order().map_values(
            |thread: ThreadId| compaction_line(thread, pending_compactions@[thread], now),
        ),
{
    let mut states: Vec<String> = Vec::new();
    let mut i: usize = 0;
    let n: usize = pending_compactions.len();
    while i < n
        invariant
            pending_compactions.wf(),
            n == pending_compactions.order().len(),
            i <= n,
            states@.len() == i,
            forall|j: int|
                0 <= j < i ==> #[trigger] states@[j]@ == compaction_line(
                    pending_compactions.order()[j],
                    pending_compactions@[pending_compactions.order()[j]],
                    now,
                ),
        decreases n - i,
    {
        let (thread, pending) = pending_compactions.nth(i);
        let mut line = thread.text();
        line.append(":saw_turn_started=");
        if pending.saw_turn_started {
            line.append("true");
        } else {
            line.append("false");
        }
        line.append(",elapsed_ms=");
        line.append(u64_text(elapsed_ms(pending.started_at, now)).as_str());
        states.push(line);
        i = i + 1;
    }
    proof {
        let want = pending_compactions.order().map_values(
            |thread: ThreadId| compaction_line(thread, pending_compactions@[thread], now),
        );
        assert forall|j: int| 0 <= j < n implies #[trigger] views(states@)[j] == want[j] by {
            assert(states@[j]@ == compaction_line(
                pending_compactions.order()[j],
                pending_compactions@[pending_compactions.order()[j]],
                now,
            ));
        }
        assert(views(states@) =~= want);
    }
    states
}

/// A thread that was resumed, whose owner waits to learn how much its model can hold.
#[derive(Debug)]
pub struct PendingContextRestore {
    /// The thread.
    pub thread: ThreadId,
    /// The thread's model.
    pub model: ModelRef,
}

impl View for PendingContextRestore {
    type V = PendingContextRestore;

    open spec fn view(&self) -> PendingContextRestore {
        *self
    }
}

/// How much the model of a resumed thread can hold.
#[derive(Debug)]
pub struct ContextRestored {
    /// The thread's name at the app-server.
    pub harness_thread_id: String,
    /// The thread, with its model.
    pub restore: PendingContextRestore,
    /// The number of tokens.
    pub context_window: u32,
}

/// The thread that a message tells about, and how many tokens its model can hold: a message about
/// the tokens of a turn that is named, with a number that is neither zero nor out of range.
pub open spec fn told_window(message: ServerMessage) -> Option<(Seq<char>, u32)> {
    match message {
        ServerMessage::Notification(
            Notification::ThreadTokenUsageUpdated {
                thread_id,
                turn_id,
                model_context_window: Some(tokens),
                ..
            },
        ) => if turn_id@.len() > 0 && 0 < tokens <= u32::MAX {
            Some((thread_id@, tokens as u32))
        } else {
            None
        },
        _ => None,
    }
}

/// Takes note of a message that tells how much the model of a resumed thread can hold, which is
/// told to its owner once.
pub fn observe_pending_context_restore(
    pending: &mut TextMap<PendingContextRestore>,
    message: &ServerMessage,
) -> (restored: Option<ContextRestored>)
    requires
        old(pending).wf(),
    ensures
        final(pending).wf(),
        match told_window(*message) {
            Some((name, window)) => {
                &&& final(pending)@ == old(pending)@.remove(name)
                &&& restored is Some <==> old(pending)@.contains_key(name)
                &&& restored matches Some(told) ==> told.harness_thread_id@ == name && told.restore
                    == old(pending)@[name] && told.context_window == window
            },
            None => final(pending)@ == old(pending)@ && restored is None,
        },
{
    match message {
        ServerMessage::Notification(notification) => match notification {
            Notification::ThreadTokenUsageUpdated {
                thread_id,
                turn_id,
                model_context_window,
                ..
            } => {
                if turn_id.as_str().is_empty() {
                    return None;
                }
                match model_context_window {
                    Some(tokens) => {
                        if *tokens <= 0 || *tokens > 0xffff_ffff {
                            return None;
                        }
                        match pending.remove(thread_id) {
                            Some(restore) => Some(
                                ContextRestored {
                                    harness_thread_id: thread_id.clone(),
                                    restore,
                                    context_window: *tokens as u32,
                                },
                            ),
                            None => None,
                        }
                    },
                    None => None,
                }
            },
            _ => None,
        },
        ServerMessage::Request { .. } => None,
    }
}

/// The end of a turn that failed.
pub open spec fn failed_turn(thread: ThreadId, turn: TurnId, message: String) -> AgentEvent {
    AgentEvent::TurnCompleted {
        thread,
        turn,
        usage: TokenUsage { input: 0, output: 0, total: 0 },
        status: TurnStatus { kind: TurnStatusKind::Failed, message: Some(message) },
    }
}

/// What is told of a thread whose stream ended before its turn did: that the turn failed, or where
/// none is known, that the connection did.
pub fn incomplete_turn(thread: ThreadId, turn: Option<TurnId>, message: String) -> (event: AgentEvent)
    ensures
        event == (match turn {
            Some(turn) => failed_turn(thread, turn, message),
            None => AgentEvent::Error {
                thread,
                turn: None,
                error: HarnessError::Transport(message),
            },
        }),
{
    match turn {
        Some(turn) => AgentEvent::TurnCompleted {
            thread,
            turn,
            usage: TokenUsage::zero(),
            status: TurnStatus { kind: TurnStatusKind::Failed, message: Some(message) },
        },
        None => AgentEvent::Error { thread, turn: None, error: HarnessError::Transport(message) },
    }
}

/// What is told of a thread whose turn met a failure that ends it: that the turn failed. Where no
/// turn is known, nothing is told.
pub fn fatal_turn_completion(thread: ThreadId, turn: Option<TurnId>, message: String) -> (event:
    Option<AgentEvent>)
    ensures
        event == (match turn {
            Some(turn) => Some(failed_turn(thread, turn, message)),
            None => None,
        }),
{
    match turn {
        Some(turn) => Some(
            AgentEvent::TurnCompleted {
                thread,
                turn,
                usage: TokenUsage::zero(),
                status: TurnStatus { kind: TurnStatusKind::Failed, message: Some(message) },
            },
        ),
        None => None,
    }
}

/// Forgets all that goes on in a thread whose route was given up.
pub fn retire_tombstoned_state(
    mapper: &mut CodexMapper,
    pending_context_restores: &mut TextMap<PendingContextRestore>,
    pending_compactions: &mut ThreadMap<PendingCompaction>,
    thread: &ThreadHandle,
)
    requires
        old(mapper).wf(),
        old(pending_context_restores).wf(),
        old(pending_compactions).wf(),
    ensures
        final(mapper).wf(),
        final(mapper).root() == old(mapper).root(),
        final(mapper)@ == old(mapper)@.retired(thread.thread),
        final(pending_context_restores).wf(),
        final(pending_context_restores)@ == old(pending_context_restores)@.remove(
            thread.harness_thread_id@,
        ),
        final(pending_compactions).wf(),
        final(pending_compactions)@ == old(pending_compactions)@.remove(thread.thread),
{
    mapper.retire_thread(thread.thread);
    pending_context_restores.remove(&thread.harness_thread_id);
    pending_compactions.remove(&thread.thread);
}

/// A turn that is slow to start is told of once: after that it is slow no longer.
pub proof fn law_slow_turn_is_told_once(active: ActiveTurn, now: u64, later: u64)
    ensures
        is_slow(active, now) ==> !is_slow(watched(active, now), later),
        !is_slow(active, now) ==> watched(active, now) == active,
{
}

/// The item that says so ends a compaction that started no turn, and does not end one that did:
/// that one ends with its turn.
pub proof fn law_compaction_ends_with_its_turn(
    pending: PendingCompaction,
    started: AgentEvent,
    item: AgentEvent,
    ended: AgentEvent,
)
    requires
        started is TurnStarted,
        item is ItemCompleted,
        says_compacted(item->ItemCompleted_item),
        ended is TurnCompleted,
    ensures
        !pending.saw_turn_started ==> compacted(pending, item).1,
        !compacted(pending, started).1,
        !compacted(compacted(pending, started).0, item).1,
        compacted(compacted(pending, started).0, ended).1,
        compacted(pending, ended).1,
{
}

/// An event of one thread makes nothing of the compactions of others, and no event starts one.
pub proof fn law_compactions_are_apart(
    pending: Map<ThreadId, PendingCompaction>,
    thread: ThreadId,
    other: ThreadId,
    event: AgentEvent,
)
    requires
        other != thread,
    ensures
        compactions_after(pending, thread, event).contains_key(other) == pending.contains_key(other),
        pending.contains_key(other) ==> compactions_after(pending, thread, event)[other]
            == pending[other],
        compactions_after(pending, thread, event).contains_key(thread) ==> pending.contains_key(
            thread,
        ),
        compaction_took(pending, thread, event, 0) is Some ==> !compactions_after(
            pending,
            thread,
            event,
        ).contains_key(thread),
{
}

/// Only the end of the accepted turn ends what goes on in a thread.
pub proof fn law_other_turns_end_nothing(
    active: Map<ThreadId, ActiveTurn>,
    event: AgentEvent,
    thread: ThreadId,
    turn: TurnId,
)
    requires
        completed(active, event) == Some((thread, turn)),
    ensures
        active.contains_key(thread),
        active[thread].acknowledged_turn == turn,
        event is TurnCompleted,
        is_current(active[thread], event),
{
}

} // verus!
