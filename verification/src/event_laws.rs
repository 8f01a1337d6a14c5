//! What the events of a mapper tell of the notifications that they come from.

use vstd::prelude::*;

use crate::diff::{hunk_views, hunks_of};
use crate::error::ErrorView;
use crate::event::{
    thread_of, turn_of, AgentEvent, FileChangeKind, ItemDelta, ItemPayload, TurnStatusKind,
};
use crate::ids::{ItemId, ThreadId, TurnId};
use crate::items::wire_chars;
use crate::json::Json;
use crate::mapper_model::{plan_lines, MapperView};
use crate::protocol::{
    CommandExecutionStatus, NativeTurnStatus, Notification, PlanStep, TextDelta, ThreadItem,
};
use crate::text::{is_blank, joined};
use crate::text_laws::law_blank_is_all_white_space;
use crate::turn_error::error_chars;

verus! {

/// Whether an event, where there is one, belongs to the thread of a name: to the one that the name
/// is bound to, and to the fallback where the name is empty or not bound.
pub open spec fn lands(
    threads: Map<Seq<char>, ThreadId>,
    name: Seq<char>,
    fallback: ThreadId,
    event: Option<AgentEvent>,
) -> bool {
    event matches Some(told) ==> {
        &&& name.len() > 0 && threads.contains_key(name) ==> thread_of(told) == threads[name]
        &&& name.len() == 0 || !threads.contains_key(name) ==> thread_of(told) == fallback
    }
}

/// Whether the event of a notification belongs to the thread that the notification names.
pub open spec fn lands_where_named(
    threads: Map<Seq<char>, ThreadId>,
    notification: Notification,
    fallback: ThreadId,
    event: Option<AgentEvent>,
) -> bool {
    &&& notification matches Notification::TurnStarted { thread_id, .. } ==> lands(
        threads,
        thread_id@,
        fallback,
        event,
    )
    &&& notification matches Notification::TurnCompleted { thread_id, .. } ==> lands(
        threads,
        thread_id@,
        fallback,
        event,
    )
    &&& notification matches Notification::ItemStarted { thread_id, .. } ==> lands(
        threads,
        thread_id@,
        fallback,
        event,
    )
    &&& notification matches Notification::ItemCompleted { thread_id, .. } ==> lands(
        threads,
        thread_id@,
        fallback,
        event,
    )
    &&& notification matches Notification::AgentMessageDelta(d) ==> lands(
        threads,
        d.thread_id@,
        fallback,
        event,
    )
    &&& notification matches Notification::CmdOutputDelta(d) ==> lands(
        threads,
        d.thread_id@,
        fallback,
        event,
    )
    &&& notification matches Notification::FileChangeOutputDelta(d) ==> lands(
        threads,
        d.thread_id@,
        fallback,
        event,
    )
    &&& notification matches Notification::FileChangePatchUpdated { thread_id, .. } ==> lands(
        threads,
        thread_id@,
        fallback,
        event,
    )
    &&& notification matches Notification::ReasoningDelta(d) ==> lands(
        threads,
        d.thread_id@,
        fallback,
        event,
    )
    &&& notification matches Notification::ReasoningTextDelta(d) ==> lands(
        threads,
        d.thread_id@,
        fallback,
        event,
    )
    &&& notification matches Notification::PlanDelta(d) ==> lands(
        threads,
        d.thread_id@,
        fallback,
        event,
    )
    &&& notification matches Notification::McpToolCallProgress(d) ==> lands(
        threads,
        d.thread_id@,
        fallback,
        event,
    )
    &&& notification matches Notification::TurnDiffUpdated { thread_id, .. } ==> lands(
        threads,
        thread_id@,
        fallback,
        event,
    )
    &&& notification matches Notification::Error { thread_id, .. } ==> lands(
        threads,
        thread_id@,
        fallback,
        event,
    )
    &&& notification matches Notification::TurnPlanUpdated { thread_id, .. } ==> lands(
        threads,
        thread_id@,
        fallback,
        event,
    )
    &&& notification matches Notification::ModelRerouted { thread_id, .. } ==> lands(
        threads,
        thread_id@,
        fallback,
        event,
    )
    &&& notification matches Notification::ContextCompacted { thread_id, .. } ==> lands(
        threads,
        thread_id@,
        fallback,
        event,
    )
    &&& notification matches Notification::GuardianWarning { thread_id, .. } ==> lands(
        threads,
        thread_id@,
        fallback,
        event,
    )
    &&& notification matches Notification::Warning { thread_id: Some(thread_id), .. } ==> lands(
        threads,
        thread_id@,
        fallback,
        event,
    )
    &&& notification matches Notification::Warning { thread_id: None, .. } ==> lands(
        threads,
        Seq::empty(),
        fallback,
        event,
    )
    &&& notification is ConfigWarning || notification is DeprecationNotice ==> lands(
        threads,
        Seq::empty(),
        fallback,
        event,
    )
}

/// An event belongs to the thread that its notification names. The fallback stands in only where
/// the name is empty or not bound, or where the notification names no thread.
pub proof fn law_event_goes_to_the_named_thread(
    known: MapperView,
    notification: Notification,
    fallback: ThreadId,
    fresh: (TurnId, ItemId),
    now_ms: i64,
    event: Option<AgentEvent>,
)
    requires
        known.tells(notification, fallback, fresh, now_ms, event),
    ensures
        lands_where_named(known.threads, notification, fallback, event),
{
}

/// Where the words of a notification are about a bound thread, it makes no difference which thread
/// is at hand as a fallback.
pub proof fn law_fallback_does_not_matter_for_a_bound_thread(
    known: MapperView,
    d: TextDelta,
    fallback: ThreadId,
    other: ThreadId,
    fresh: (TurnId, ItemId),
    now_ms: i64,
    event: Option<AgentEvent>,
    again: Option<AgentEvent>,
)
    requires
        d.thread_id@.len() > 0,
        known.threads.contains_key(d.thread_id@),
        known.tells(Notification::AgentMessageDelta(d), fallback, fresh, now_ms, event),
        known.tells(Notification::AgentMessageDelta(d), other, fresh, now_ms, again),
    ensures
        event is Some <==> again is Some,
        event is Some ==> thread_of(event->Some_0) == thread_of(again->Some_0),
        event is Some ==> turn_of(event->Some_0) == turn_of(again->Some_0),
{
}

/// Whether a turn is the one of a name: the one that the name is bound to, and the fresh one where
/// the name is empty or not bound.
pub open spec fn turn_named(
    turns: Map<Seq<char>, TurnId>,
    name: Seq<char>,
    fresh: TurnId,
    turn: Option<TurnId>,
) -> bool {
    &&& name.len() > 0 && turns.contains_key(name) ==> turn == Some(turns[name])
    &&& name.len() == 0 || !turns.contains_key(name) ==> turn == Some(fresh)
}

/// An event belongs to the turn that its notification names. Failures and warnings belong to none.
pub proof fn law_event_goes_to_the_named_turn(
    known: MapperView,
    notification: Notification,
    fallback: ThreadId,
    fresh: (TurnId, ItemId),
    now_ms: i64,
    event: AgentEvent,
)
    requires
        known.tells(notification, fallback, fresh, now_ms, Some(event)),
    ensures
        notification matches Notification::TurnStarted { turn_id, .. } ==> turn_named(
            known.turns,
            turn_id@,
            fresh.0,
            turn_of(event),
        ),
        notification matches Notification::TurnCompleted { turn_id, .. } ==> turn_named(
            known.turns,
            turn_id@,
            fresh.0,
            turn_of(event),
        ),
        notification matches Notification::ItemStarted { turn_id, .. } ==> turn_named(
            known.turns,
            turn_id@,
            fresh.0,
            turn_of(event),
        ),
        notification matches Notification::ItemCompleted { turn_id, .. } ==> turn_named(
            known.turns,
            turn_id@,
            fresh.0,
            turn_of(event),
        ),
        notification matches Notification::AgentMessageDelta(d) ==> turn_named(
            known.turns,
            d.turn_id@,
            fresh.0,
            turn_of(event),
        ),
        notification matches Notification::CmdOutputDelta(d) ==> turn_named(
            known.turns,
            d.turn_id@,
            fresh.0,
            turn_of(event),
        ),
        notification matches Notification::FileChangeOutputDelta(d) ==> turn_named(
            known.turns,
            d.turn_id@,
            fresh.0,
            turn_of(event),
        ),
        notification matches Notification::FileChangePatchUpdated { turn_id, .. } ==> turn_named(
            known.turns,
            turn_id@,
            fresh.0,
            turn_of(event),
        ),
        notification matches Notification::ReasoningDelta(d) ==> turn_named(
            known.turns,
            d.turn_id@,
            fresh.0,
            turn_of(event),
        ),
        notification matches Notification::ReasoningTextDelta(d) ==> turn_named(
            known.turns,
            d.turn_id@,
            fresh.0,
            turn_of(event),
        ),
        notification matches Notification::PlanDelta(d) ==> turn_named(
            known.turns,
            d.turn_id@,
            fresh.0,
            turn_of(event),
        ),
        notification matches Notification::McpToolCallProgress(d) ==> turn_named(
            known.turns,
            d.turn_id@,
            fresh.0,
            turn_of(event),
        ),
        notification matches Notification::TurnDiffUpdated { turn_id, .. } ==> turn_named(
            known.turns,
            turn_id@,
            fresh.0,
            turn_of(event),
        ),
        notification matches Notification::TurnPlanUpdated { turn_id, .. } ==> turn_named(
            known.turns,
            turn_id@,
            fresh.0,
            turn_of(event),
        ),
        notification matches Notification::ModelRerouted { turn_id, .. } ==> turn_named(
            known.turns,
            turn_id@,
            fresh.0,
            turn_of(event),
        ),
        notification matches Notification::ContextCompacted { turn_id, .. } ==> turn_named(
            known.turns,
            turn_id@,
            fresh.0,
            turn_of(event),
        ),
        notification is Error || notification is Warning || notification is ConfigWarning
            || notification is GuardianWarning || notification is DeprecationNotice ==> turn_of(
            event,
        ) is None,
{
}

/// The turn of an event is the one that it was made with.
pub proof fn law_event_tells_its_turn(event: AgentEvent)
    ensures
        event matches AgentEvent::TurnStarted { turn, .. } ==> turn_of(event) == Some(turn),
        event matches AgentEvent::ContextWindowUpdated { turn, .. } ==> turn_of(event) == Some(
            turn,
        ),
        event matches AgentEvent::ItemStarted { turn, .. } ==> turn_of(event) == Some(turn),
        event matches AgentEvent::ItemDelta { turn, .. } ==> turn_of(event) == Some(turn),
        event matches AgentEvent::ItemCompleted { turn, .. } ==> turn_of(event) == Some(turn),
        event matches AgentEvent::DiffUpdated { turn, .. } ==> turn_of(event) == Some(turn),
        event matches AgentEvent::ApprovalRequested { turn, .. } ==> turn_of(event) == Some(turn),
        event matches AgentEvent::TurnCompleted { turn, .. } ==> turn_of(event) == Some(turn),
        event matches AgentEvent::ServerRequestReceived { turn, .. } ==> turn_of(event) == turn,
        event matches AgentEvent::ServerRequestResolved { turn, .. } ==> turn_of(event) == turn,
        event matches AgentEvent::Error { turn, .. } ==> turn_of(event) == turn,
        event matches AgentEvent::Notice { turn, .. } ==> turn_of(event) == turn,
        event is ThreadOpened ==> turn_of(event) is None,
        event matches AgentEvent::ThreadOpened { thread, .. } ==> thread_of(event) == thread,
        event matches AgentEvent::TurnStarted { thread, .. } ==> thread_of(event) == thread,
        event matches AgentEvent::ContextWindowUpdated { thread, .. } ==> thread_of(event)
            == thread,
        event matches AgentEvent::ItemStarted { thread, .. } ==> thread_of(event) == thread,
        event matches AgentEvent::ItemDelta { thread, .. } ==> thread_of(event) == thread,
        event matches AgentEvent::ItemCompleted { thread, .. } ==> thread_of(event) == thread,
        event matches AgentEvent::DiffUpdated { thread, .. } ==> thread_of(event) == thread,
        event matches AgentEvent::ApprovalRequested { thread, .. } ==> thread_of(event) == thread,
        event matches AgentEvent::ServerRequestReceived { thread, .. } ==> thread_of(event)
            == thread,
        event matches AgentEvent::ServerRequestResolved { thread, .. } ==> thread_of(event)
            == thread,
        event matches AgentEvent::TurnCompleted { thread, .. } ==> thread_of(event) == thread,
        event matches AgentEvent::Error { thread, .. } ==> thread_of(event) == thread,
        event matches AgentEvent::Notice { thread, .. } ==> thread_of(event) == thread,
{
}

/// Whether an item is the one of a name: the one that the name is bound to, and the fresh one where
/// the name is empty or not bound.
pub open spec fn item_named(
    items: Map<Seq<char>, ItemId>,
    name: Seq<char>,
    fresh: ItemId,
    item: ItemId,
) -> bool {
    &&& name.len() > 0 && items.contains_key(name) ==> item == items[name]
    &&& name.len() == 0 || !items.contains_key(name) ==> item == fresh
}

/// Whether an event tells words of an item, as they came. Of no words nothing is told.
pub open spec fn tells_words(
    known: MapperView,
    item: Seq<char>,
    words: Seq<char>,
    fresh: ItemId,
    event: Option<AgentEvent>,
) -> bool {
    &&& words.len() == 0 <==> event is None
    &&& event matches Some(told) ==> {
        &&& told matches AgentEvent::ItemDelta { item_id, delta: ItemDelta::Text { text }, .. }
        &&& text@ == words
        &&& item_named(known.items, item, fresh, item_id)
    }
}

/// Words come through as they are, each as words of the item that they belong to, and words that
/// are empty are not told. What a command prints is told as its output, empty or not.
pub proof fn law_words_are_told_as_they_came(
    known: MapperView,
    notification: Notification,
    fallback: ThreadId,
    fresh: (TurnId, ItemId),
    now_ms: i64,
    event: Option<AgentEvent>,
)
    requires
        known.tells(notification, fallback, fresh, now_ms, event),
    ensures
        notification matches Notification::AgentMessageDelta(d) ==> tells_words(
            known,
            d.item_id@,
            d.delta@,
            fresh.1,
            event,
        ),
        notification matches Notification::FileChangeOutputDelta(d) ==> tells_words(
            known,
            d.item_id@,
            d.delta@,
            fresh.1,
            event,
        ),
        notification matches Notification::ReasoningDelta(d) ==> tells_words(
            known,
            d.item_id@,
            d.delta@,
            fresh.1,
            event,
        ),
        notification matches Notification::ReasoningTextDelta(d) ==> tells_words(
            known,
            d.item_id@,
            d.delta@,
            fresh.1,
            event,
        ),
        notification matches Notification::PlanDelta(d) ==> tells_words(
            known,
            d.item_id@,
            d.delta@,
            fresh.1,
            event,
        ),
        notification matches Notification::McpToolCallProgress(d) ==> tells_words(
            known,
            d.item_id@,
            d.delta@,
            fresh.1,
            event,
        ),
        notification matches Notification::CmdOutputDelta(d) ==> {
            &&& event matches Some(
                AgentEvent::ItemDelta { item_id, delta: ItemDelta::CommandOutput { chunk }, .. },
            )
            &&& chunk@ == d.delta@
            &&& item_named(known.items, d.item_id@, fresh.1, item_id)
        },
{
}

/// A turn that failed is told to have failed, and no other turn is; a turn that was interrupted is
/// told to have been, and no other turn is; every other end is a completion. The tokens are those
/// that were noted for the turn, and none where none were.
pub proof fn law_turn_ends_as_it_did(
    known: MapperView,
    notification: Notification,
    fallback: ThreadId,
    fresh: (TurnId, ItemId),
    now_ms: i64,
    event: Option<AgentEvent>,
)
    requires
        known.tells(notification, fallback, fresh, now_ms, event),
    ensures
        event is Some && event->Some_0 is TurnCompleted <==> notification is TurnCompleted,
        notification matches Notification::TurnCompleted { turn_id, status: native, .. } ==> {
            &&& event matches Some(AgentEvent::TurnCompleted { usage, status, .. })
            &&& status.kind == TurnStatusKind::Failed <==> native == NativeTurnStatus::Failed
            &&& status.kind == TurnStatusKind::Interrupted <==> native
                == NativeTurnStatus::Interrupted
            &&& status.kind == TurnStatusKind::Completed <==> (native == NativeTurnStatus::Completed
                || native == NativeTurnStatus::InProgress)
            &&& status.message is None
            &&& known.usage.contains_key(turn_id@) ==> usage == known.usage[turn_id@]
            &&& !known.usage.contains_key(turn_id@) ==> usage.input == 0 && usage.output == 0
                && usage.total == 0
        },
{
}

/// A turn is told to have started where it did, and nowhere else.
pub proof fn law_turn_starts_when_it_does(
    known: MapperView,
    notification: Notification,
    fallback: ThreadId,
    fresh: (TurnId, ItemId),
    now_ms: i64,
    event: Option<AgentEvent>,
)
    requires
        known.tells(notification, fallback, fresh, now_ms, event),
    ensures
        event is Some && event->Some_0 is TurnStarted <==> notification is TurnStarted,
        event is Some && event->Some_0 is ItemStarted <==> notification is ItemStarted,
        event is Some && event->Some_0 is DiffUpdated <==> notification is TurnDiffUpdated,
        event is Some && event->Some_0 is Error <==> notification is Error,
        event is Some && event->Some_0 is ItemCompleted <==> (notification is ItemCompleted
            || notification is TurnPlanUpdated || notification is ModelRerouted
            || notification is ContextCompacted),
        event is Some && event->Some_0 is Notice <==> (notification is Warning || notification is
            ConfigWarning || notification is GuardianWarning || notification is DeprecationNotice),
        notification is ThreadTokenUsageUpdated || notification is ThreadStatusChanged
            || notification is Other || notification is Unknown ==> event is None,
{
}

/// The difference of a turn is told as it came, as a change of no file in particular.
pub proof fn law_difference_is_told_as_it_came(
    known: MapperView,
    notification: Notification,
    fallback: ThreadId,
    fresh: (TurnId, ItemId),
    now_ms: i64,
    event: Option<AgentEvent>,
)
    requires
        known.tells(notification, fallback, fresh, now_ms, event),
    ensures
        notification matches Notification::TurnDiffUpdated { diff: came, .. } ==> {
            &&& event matches Some(AgentEvent::DiffUpdated { diff, .. })
            &&& diff.new_text == Some(came)
            &&& hunk_views(diff.hunks@) == hunks_of(came@)
            &&& diff.old_text is None
            &&& diff.path@ == Seq::<char>::empty()
            &&& diff.change == FileChangeKind::Modified
            &&& !diff.binary
        },
{
}

/// Warnings are told in their own words: those of the app-server as they came, and the others with
/// where they come from in front. Details follow the summary.
pub proof fn law_warnings_keep_their_words(
    known: MapperView,
    notification: Notification,
    fallback: ThreadId,
    fresh: (TurnId, ItemId),
    now_ms: i64,
    event: Option<AgentEvent>,
)
    requires
        known.tells(notification, fallback, fresh, now_ms, event),
    ensures
        notification matches Notification::Warning { message: came, .. } ==> {
            &&& event matches Some(AgentEvent::Notice { message, .. })
            &&& message@ == came@
        },
        notification matches Notification::GuardianWarning { message: came, .. } ==> {
            &&& event matches Some(AgentEvent::Notice { message, .. })
            &&& message@ == "Guardian: "@ + came@
        },
        notification matches Notification::ConfigWarning { summary, details: None } ==> {
            &&& event matches Some(AgentEvent::Notice { message, .. })
            &&& message@ == "Configuration: "@ + summary@
        },
        notification matches Notification::ConfigWarning { summary, details: Some(more) } ==> {
            &&& event matches Some(AgentEvent::Notice { message, .. })
            &&& message@ == "Configuration: "@ + (summary@ + ": "@ + more@)
        },
        notification matches Notification::DeprecationNotice { summary, details: None } ==> {
            &&& event matches Some(AgentEvent::Notice { message, .. })
            &&& message@ == "Deprecation: "@ + summary@
        },
        notification matches Notification::DeprecationNotice { summary, details: Some(more) } ==> {
            &&& event matches Some(AgentEvent::Notice { message, .. })
            &&& message@ == "Deprecation: "@ + (summary@ + ": "@ + more@)
        },
{
}

/// Whether a value is kept as it came, where there is one.
pub open spec fn keeps_raw(came: Option<Json>, kept: Option<Json>) -> bool {
    &&& came is None <==> kept is None
    &&& came matches Some(value) ==> kept->Some_0@ == value@
}

/// What the app-server did with a turn on its own is told as an activity of the turn: a new plan, a
/// change of model with both models, and a shorter context. Each has an item of its own in the turn.
pub proof fn law_activities_of_a_turn_are_told(
    known: MapperView,
    notification: Notification,
    fallback: ThreadId,
    fresh: (TurnId, ItemId),
    now_ms: i64,
    event: Option<AgentEvent>,
)
    requires
        known.tells(notification, fallback, fresh, now_ms, event),
    ensures
        notification matches Notification::TurnPlanUpdated {
            turn_id,
            explanation,
            plan,
            raw,
            ..
        } ==> {
            &&& event matches Some(AgentEvent::ItemCompleted { item, .. })
            &&& item.harness_item_id@ == "turn_plan:"@ + turn_id@
            &&& item_named(known.items, "turn_plan:"@ + turn_id@, fresh.1, item.id)
            &&& item.created_at_ms == now_ms
            &&& item.payload matches ItemPayload::Activity { title, detail, metadata }
            &&& title@ == "Plan updated"@
            &&& detail matches Some(words) ==> words@ == joined(
                plan_lines(explanation, plan@),
                "\n"@,
            )
            &&& detail is None <==> is_blank(joined(plan_lines(explanation, plan@), "\n"@))
            &&& keeps_raw(raw, metadata)
        },
        notification matches Notification::ModelRerouted {
            turn_id,
            from_model,
            to_model,
            raw,
            ..
        } ==> {
            &&& event matches Some(AgentEvent::ItemCompleted { item, .. })
            &&& item.harness_item_id@ == "model_rerouted:"@ + turn_id@
            &&& item_named(known.items, "model_rerouted:"@ + turn_id@, fresh.1, item.id)
            &&& item.created_at_ms == now_ms
            &&& item.payload matches ItemPayload::Activity { title, detail, metadata }
            &&& title@ == "Model rerouted"@
            &&& detail matches Some(words)
            &&& words@ == from_model@ + " -> "@ + to_model@
            &&& keeps_raw(raw, metadata)
        },
        notification matches Notification::ContextCompacted { turn_id, raw, .. } ==> {
            &&& event matches Some(AgentEvent::ItemCompleted { item, .. })
            &&& item.harness_item_id@ == "context_compacted:"@ + turn_id@
            &&& item_named(known.items, "context_compacted:"@ + turn_id@, fresh.1, item.id)
            &&& item.created_at_ms == now_ms
            &&& item.payload matches ItemPayload::Activity { title, detail, metadata }
            &&& title@ == "Context compacted"@
            &&& detail is None
            &&& keeps_raw(raw, metadata)
        },
{
    match notification {
        Notification::ModelRerouted { from_model, to_model, .. } => {
            let words = from_model@ + " -> "@ + to_model@;
            reveal_strlit(" -> ");
            assert(words[from_model@.len() + 1int] == '-');
            law_blank_is_all_white_space(words);
        },
        _ => {},
    }
}

/// A plan is told by why it changed, where that is told, and by its steps in order, each with where
/// it stands.
pub proof fn law_plan_tells_every_step(
    explanation: Option<String>,
    plan: Seq<PlanStep>,
    more: PlanStep,
)
    ensures
        plan_lines(explanation, plan.push(more)) == plan_lines(explanation, plan).push(
            wire_chars(more.status) + ": "@ + more.step@,
        ),
        explanation is None ==> plan_lines(explanation, Seq::empty()).len() == 0,
        explanation matches Some(words) ==> {
            &&& is_blank(words@) ==> plan_lines(explanation, Seq::empty()).len() == 0
            &&& !is_blank(words@) ==> plan_lines(explanation, Seq::empty()) == seq![words@]
        },
{
    assert(plan_lines(explanation, plan.push(more)) =~= plan_lines(explanation, plan).push(
        wire_chars(more.status) + ": "@ + more.step@,
    ));
}

/// A failure is told as a failure of the protocol, with all that is known of it.
pub proof fn law_failure_is_told_as_one(
    known: MapperView,
    notification: Notification,
    fallback: ThreadId,
    fresh: (TurnId, ItemId),
    now_ms: i64,
    event: Option<AgentEvent>,
)
    requires
        known.tells(notification, fallback, fresh, now_ms, event),
    ensures
        notification matches Notification::Error { error: came, will_retry, .. } ==> {
            &&& event matches Some(AgentEvent::Error { error, .. })
            &&& error@ == ErrorView::Protocol(error_chars(came, will_retry))
        },
{
}

/// A turn goes on in the thread that it was told of, from its start until it ends: a start sets it,
/// its own end clears it, and nothing else a notification brings touches what goes on in a thread.
pub proof fn law_turn_goes_on_until_it_ends(
    known: MapperView,
    notification: Notification,
    fallback: ThreadId,
    fresh: (TurnId, ItemId),
    event: Option<AgentEvent>,
    now_ms: i64,
    other: ThreadId,
)
    requires
        known.tells(notification, fallback, fresh, now_ms, event),
    ensures
        ({
            let after = known.notified(notification, fallback, fresh);
            &&& notification matches Notification::TurnStarted { turn_id, .. } ==> {
                let thread = thread_of(event->Some_0);
                &&& after.active.contains_key(thread)
                &&& after.active[thread] == turn_id@
                &&& other != thread ==> (after.active.contains_key(other)
                    <==> known.active.contains_key(other))
                &&& other != thread && known.active.contains_key(other) ==> after.active[other]
                    == known.active[other]
            }
            &&& notification matches Notification::TurnCompleted { turn_id, .. } ==> {
                let thread = thread_of(event->Some_0);
                &&& known.active.contains_key(thread) && known.active[thread] == turn_id@
                    ==> !after.active.contains_key(thread)
                &&& !(known.active.contains_key(thread) && known.active[thread] == turn_id@)
                    ==> after.active == known.active
                &&& other != thread ==> (after.active.contains_key(other)
                    <==> known.active.contains_key(other))
                &&& !after.usage.contains_key(turn_id@)
            }
            &&& !(notification is TurnStarted) && !(notification is TurnCompleted) ==> after.active
                == known.active
        }),
{
}

/// A turn or an item that is named for the first time is bound to the identifier that its event
/// tells, so that all that follows is told under it.
pub proof fn law_first_name_is_bound(
    known: MapperView,
    notification: Notification,
    fallback: ThreadId,
    fresh: (TurnId, ItemId),
    now_ms: i64,
    event: AgentEvent,
)
    requires
        known.tells(notification, fallback, fresh, now_ms, Some(event)),
    ensures
        ({
            let after = known.notified(notification, fallback, fresh);
            &&& notification matches Notification::TurnStarted { turn_id, .. } ==> (turn_id@.len()
                > 0 ==> after.turns.contains_key(turn_id@) && turn_of(event) == Some(
                after.turns[turn_id@],
            ))
            &&& notification matches Notification::AgentMessageDelta(d) ==> {
                &&& event matches AgentEvent::ItemDelta { turn, item_id, .. }
                &&& d.turn_id@.len() > 0 ==> after.turns.contains_key(d.turn_id@)
                    && after.turns[d.turn_id@] == turn
                &&& d.item_id@.len() > 0 ==> after.items.contains_key(d.item_id@)
                    && after.items[d.item_id@] == item_id
            }
            &&& notification matches Notification::CmdOutputDelta(d) ==> {
                &&& event matches AgentEvent::ItemDelta { turn, item_id, .. }
                &&& d.turn_id@.len() > 0 ==> after.turns.contains_key(d.turn_id@)
                    && after.turns[d.turn_id@] == turn
                &&& d.item_id@.len() > 0 ==> after.items.contains_key(d.item_id@)
                    && after.items[d.item_id@] == item_id
            }
            &&& notification matches Notification::ItemStarted { turn_id, .. } ==> {
                &&& event matches AgentEvent::ItemStarted { turn, item, .. }
                &&& turn_id@.len() > 0 ==> after.turns.contains_key(turn_id@)
                    && after.turns[turn_id@] == turn
                &&& item.harness_item_id@.len() > 0 ==> after.items.contains_key(
                    item.harness_item_id@,
                ) && after.items[item.harness_item_id@] == item.id
            }
            &&& notification matches Notification::ItemCompleted { turn_id, .. } ==> {
                &&& event matches AgentEvent::ItemCompleted { turn, item, .. }
                &&& turn_id@.len() > 0 ==> after.turns.contains_key(turn_id@)
                    && after.turns[turn_id@] == turn
                &&& item.harness_item_id@.len() > 0 ==> after.items.contains_key(
                    item.harness_item_id@,
                ) && after.items[item.harness_item_id@] == item.id
            }
        }),
{
}

/// The tokens that are noted for a turn are those of the turn, in each of the three counts; a turn
/// without a name has none noted. Nothing else notes tokens.
pub proof fn law_tokens_are_noted_for_their_turn(
    known: MapperView,
    notification: Notification,
    fallback: ThreadId,
    fresh: (TurnId, ItemId),
)
    ensures
        ({
            let after = known.notified(notification, fallback, fresh);
            &&& notification matches Notification::ThreadTokenUsageUpdated { turn_id, last, .. }
                ==> {
                &&& turn_id@.len() == 0 ==> after.usage == known.usage
                &&& turn_id@.len() > 0 ==> {
                    &&& after.usage.contains_key(turn_id@)
                    &&& last.input_tokens >= 0 ==> after.usage[turn_id@].input == last.input_tokens
                    &&& last.input_tokens < 0 ==> after.usage[turn_id@].input == 0
                    &&& last.output_tokens >= 0 ==> after.usage[turn_id@].output
                        == last.output_tokens
                    &&& last.output_tokens < 0 ==> after.usage[turn_id@].output == 0
                    &&& last.total_tokens >= 0 ==> after.usage[turn_id@].total == last.total_tokens
                    &&& last.total_tokens < 0 ==> after.usage[turn_id@].total == 0
                }
            }
            &&& !(notification is ThreadTokenUsageUpdated) && !(notification is TurnCompleted)
                ==> after.usage == known.usage
        }),
{
}

/// A command is known to run in the thread that its start is told in, and no longer when it is told
/// to have ended. Other items leave the running commands alone.
pub proof fn law_command_runs_in_its_thread(
    known: MapperView,
    notification: Notification,
    fallback: ThreadId,
    fresh: (TurnId, ItemId),
    now_ms: i64,
    event: AgentEvent,
)
    requires
        known.tells(notification, fallback, fresh, now_ms, Some(event)),
    ensures
        ({
            let after = known.notified(notification, fallback, fresh);
            &&& notification matches Notification::ItemStarted {
                item: ThreadItem::CommandExecution { id, process_id, status, .. },
                turn_id,
                ..
            } ==> {
                &&& status == CommandExecutionStatus::InProgress ==> {
                    &&& after.running.contains_key(id@)
                    &&& after.running[id@] == thread_of(event)
                    &&& process_id matches Some(process) ==> (turn_id@.len() > 0
                        ==> after.process_turns.contains_key(process@)
                        && after.process_turns[process@].0 == thread_of(event)
                        && after.process_turns[process@].1 == turn_id@)
                    &&& process_id matches Some(process) ==> (turn_id@.len() == 0
                        && known.active.contains_key(thread_of(event)) && known.active[thread_of(
                        event,
                    )].len() > 0 ==> after.process_turns.contains_key(process@)
                        && after.process_turns[process@].0 == thread_of(event)
                        && after.process_turns[process@].1 == known.active[thread_of(event)])
                }
                &&& status != CommandExecutionStatus::InProgress ==> after.running == known.running
                    && after.process_turns == known.process_turns
            }
            &&& notification matches Notification::ItemCompleted {
                item: ThreadItem::CommandExecution { id, process_id, status, .. },
                ..
            } ==> {
                &&& status != CommandExecutionStatus::InProgress ==> !after.running.contains_key(
                    id@,
                ) && (process_id matches Some(process) ==> !after.process_turns.contains_key(
                    process@,
                ))
                &&& status == CommandExecutionStatus::InProgress ==> after.running.contains_key(id@)
                    && after.running[id@] == thread_of(event) && after.process_turns
                    == known.process_turns
            }
            &&& !(notification is ItemStarted) && !(notification is ItemCompleted) ==> after.running
                == known.running && after.process_turns == known.process_turns
        }),
{
}

} // verus!
