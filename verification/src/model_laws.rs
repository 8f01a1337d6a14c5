//! What the models of values keep of them.

use vstd::prelude::*;

use crate::approval::{ApprovalResponse, ApprovalResponseBody, BodyView, MetaView};
use crate::attaching::{
    attached_thread, claiming, conflict_error, opened_elsewhere, owned_replacement,
};
use crate::background::{is_end_of, Cleanup, StateView};
use crate::control::{ControlStep, StepView};
use crate::decode::message_becomes;
use crate::diff::LineView;
use crate::error::{outcome, outcome_view, ErrorView, HarnessError};
use crate::event::{thread_of, AgentEvent, ApprovalMetadata, DiffHunk, DiffLine};
use crate::frames::{has_break, without_breaks};
use crate::ids::{RequestId, RequestIdView, ThreadId, TurnId};
use crate::instance::{bound_otherwise, tells_stop};
use crate::json::{json_text, lemma_array_tree, lemma_entries_tree, Json, JsonTree};
use crate::mapper_model::MapperView;
use crate::native_routes::RoutesView;
use crate::protocol::ServerMessage;
use crate::queue::{shows, QueueView, WorkerQueueKind, WorkerQueueSnapshot, WorkerQueueToken};
use crate::requests::Call;
use crate::route_model::{ConflictView, TableView};
use crate::rpc::{answered, late_request, CODEX_SHUTDOWN_NS, NON_JSON_STDOUT_PREVIEW_BYTES};
use crate::text::trimmed;
use crate::transport::{
    outgoing, Envelope, EnvelopeView, InboxItem, OutgoingLine, ReadStep, CODEX_INBOX_RETAIN_LIMIT,
    CODEX_MAX_FRAME_BYTES, WRITER_QUEUE_CAPACITY,
};
use crate::turns::{elapsed_millis, stands_in, ActiveTurn};

verus! {

/// A value is the tree of its parts: a text is its characters, a list its values in order, and an
/// object its values in order, each under its name.
pub proof fn law_value_is_the_tree_of_its_parts(value: Json)
    ensures
        value is Null <==> value@ is Null,
        value matches Json::Bool(b) ==> value@ == JsonTree::Bool(b),
        value matches Json::Number(n) ==> value@ == JsonTree::Number(n@),
        value matches Json::Text(text) ==> value@ == JsonTree::Text(text@),
        value matches Json::Array(items) ==> {
            &&& value@ matches JsonTree::Array(trees)
            &&& trees.len() == items@.len()
            &&& forall|i: int| 0 <= i < items@.len() ==> #[trigger] trees[i] == items@[i]@
        },
        value matches Json::Object(entries) ==> {
            &&& value@ matches JsonTree::Object(trees)
            &&& trees.len() == entries@.len()
            &&& forall|i: int|
                0 <= i < entries@.len() ==> #[trigger] trees[i] == (
                    entries@[i].0@,
                    entries@[i].1@,
                )
        },
{
    match value {
        Json::Array(items) => {
            lemma_array_tree(items@);
        },
        Json::Object(entries) => {
            lemma_entries_tree(entries@);
        },
        _ => {},
    }
}

/// A failure is of its own kind, in its own words.
pub proof fn law_failure_keeps_kind_and_words(error: HarnessError)
    ensures
        error matches HarnessError::Spawn(m) ==> error@ == ErrorView::Spawn(m@),
        error matches HarnessError::Transport(m) ==> error@ == ErrorView::Transport(m@),
        error matches HarnessError::Protocol(m) ==> error@ == ErrorView::Protocol(m@),
        error matches HarnessError::Timeout(m) ==> error@ == ErrorView::Timeout(m@),
        error matches HarnessError::Unsupported(m) ==> error@ == ErrorView::Unsupported(m@),
        error matches HarnessError::ProviderRejected { code, message } ==> error@ == (
        ErrorView::ProviderRejected { code, message: message@ }),
        outcome::<bool>(Err(error)) == Err::<bool, ErrorView>(error@),
        outcome(Ok::<bool, HarnessError>(true)) == Ok::<bool, ErrorView>(true),
        outcome_view::<Json>(Err(error)) == Err::<JsonTree, ErrorView>(error@),
{
}

/// A line of a difference is of its own kind, and a stretch has its own numbers and lines.
pub proof fn law_difference_keeps_its_lines(line: DiffLine, hunk: DiffHunk)
    ensures
        line matches DiffLine::Added(text) ==> line@ == LineView::Added(text@),
        line matches DiffLine::Removed(text) ==> line@ == LineView::Removed(text@),
        line matches DiffLine::Context(text) ==> line@ == LineView::Context(text@),
        hunk@.numbers == (hunk.old_start, hunk.old_lines, hunk.new_start, hunk.new_lines),
        hunk@.lines.len() == hunk.lines@.len(),
        forall|i: int| 0 <= i < hunk.lines@.len() ==> #[trigger] hunk@.lines[i] == hunk.lines@[i]@,
{
}

/// What is shown with a request is shown under its label, as a text, a path or a host.
pub proof fn law_shown_keeps_its_label(shown: ApprovalMetadata)
    ensures
        shown matches ApprovalMetadata::Text { label, value } ==> shown@ == (MetaView::Text {
            label: label@,
            value: value@,
        }),
        shown matches ApprovalMetadata::Path { label, path, source_link } ==> shown@ == (
        MetaView::Path { label: label@, path: path@, source_link }),
        shown matches ApprovalMetadata::Host { label, host, port, .. } ==> {
            &&& shown@ matches MetaView::Host { label: l, host: h, port: p, .. }
            &&& l == label@
            &&& h == host@
            &&& p == port
        },
{
}

/// An answer goes to the request that it names, with the result or the failure that it holds.
pub proof fn law_answer_keeps_its_request(response: ApprovalResponse, body: ApprovalResponseBody)
    ensures
        response matches ApprovalResponse::Result { request_id, value } ==> response.id()
            == request_id && response.body() == BodyView::Result(value@),
        response matches ApprovalResponse::Error { request_id, code, message } ==> response.id()
            == request_id && response.body() == (BodyView::Error {
            code: code as int,
            message: message@,
        }),
        body matches ApprovalResponseBody::Result(value) ==> body@ == BodyView::Result(value@),
        body matches ApprovalResponseBody::Error { code, message } ==> body@ == (BodyView::Error {
            code: code as int,
            message: message@,
        }),
{
}

/// Requests are told apart by number and by name, and a request asks by its own method.
pub proof fn law_request_keeps_its_number(id: RequestId, call: Call)
    ensures
        id matches RequestId::String(text) ==> id@ == RequestIdView::String(text@) && id.chars()
            == text@,
        id matches RequestId::Integer(n) ==> id@ == RequestIdView::Integer(n) && id.chars()
            == crate::number::signed_decimal(n as int),
        call@.method == call.method@,
        call@.params == call.params@,
{
}

/// A step is what it says: an answer to the caller, a failure, or a question to the app-server.
pub proof fn law_step_is_what_it_says(step: ControlStep)
    ensures
        step matches ControlStep::Reply(Ok(handle)) ==> step@ == StepView::Reply(Ok(handle)),
        step matches ControlStep::Reply(Err(error)) ==> step@ == StepView::Reply(Err(error@)),
        step matches ControlStep::Stop(error) ==> step@ == StepView::Stop(error@),
        step matches ControlStep::Ask(call) ==> step@ == StepView::Ask(call@),
        step matches ControlStep::AnswerApproval(attempt) ==> {
            &&& step@ matches StepView::AnswerApproval { body, .. }
            &&& body == attempt.response.body()
        },
        step matches ControlStep::AnswerRequest(attempt) ==> {
            &&& step@ matches StepView::AnswerRequest { name, pending, body }
            &&& name == attempt.id@
            &&& pending == attempt.pending
            &&& body == attempt.response.body()
        },
{
}

/// An envelope keeps whom it is for, what it asks and what it brings.
pub proof fn law_envelope_keeps_its_parts(envelope: Envelope)
    ensures
        envelope matches Envelope::Request { id, method, .. } ==> {
            &&& envelope@ matches EnvelopeView::Request { id: i, method: m, .. }
            &&& i == id@
            &&& m == method@
        },
        envelope matches Envelope::Response { id, result } ==> envelope@ == (
        EnvelopeView::Response { id: id@, result: result@ }),
        envelope matches Envelope::Error { id, code, message } ==> envelope@ == (
        EnvelopeView::Error { id: id@, code, message: message@ }),
        envelope matches Envelope::Notification { method, .. } ==> {
            &&& envelope@ matches EnvelopeView::Notification { method: m, .. }
            &&& m == method@
        },
{
}

/// A request is answered with what came for it, and where nothing came in time, with that.
pub proof fn law_request_gets_what_came(
    reply: Option<Result<JsonTree, ErrorView>>,
    late: ErrorView,
    method: Seq<char>,
)
    ensures
        reply matches Some(result) ==> answered(reply, late) == result,
        reply is None ==> answered(reply, late) == Err::<JsonTree, ErrorView>(late),
        late_request(method) == ErrorView::Timeout(
            "Codex JSON-RPC request "@ + method + " timed out"@,
        ),
{
}

/// A message that names no thread goes to one in which a command runs; where none runs, to the only
/// thread in which a turn goes on; and otherwise to a fresh one.
pub proof fn law_message_without_a_name_has_a_thread(
    known: MapperView,
    active: Map<ThreadId, ActiveTurn>,
    fresh: ThreadId,
    thread: ThreadId,
    id: Seq<char>,
)
    requires
        stands_in(known, active, fresh, thread),
    ensures
        known.running.contains_key(id) ==> known.running.contains_value(thread),
        known.running =~= Map::empty() && active.dom().len() == 1 ==> active.contains_key(thread),
        known.running =~= Map::empty() && active.dom().len() != 1 ==> thread == fresh,
{
    if known.running.contains_key(id) {
        assert(known.running != Map::<Seq<char>, ThreadId>::empty());
    }
}

/// When everything stops, nothing goes on in any thread, and the names that were bound stay bound.
pub proof fn law_stop_ends_every_turn(state: StateView, thread: ThreadId)
    ensures
        !state.all_finished().active.contains_key(thread),
        state.active.contains_key(thread) ==> !state.all_finished().mapper.active.contains_key(
            thread,
        ),
        !state.active.contains_key(thread) ==> (state.all_finished().mapper.active.contains_key(
            thread,
        ) <==> state.mapper.active.contains_key(thread)),
        state.all_finished().mapper.threads == state.mapper.threads,
        state.all_finished().mapper.turns == state.mapper.turns,
        state.all_finished().mapper.approvals == state.mapper.approvals,
        state.all_finished().compactions == state.compactions,
        state.all_finished().restores == state.restores,
{
}

/// What is cleaned up after a turn is what belongs to it: its thread, its uploads and the turn that
/// went on.
pub proof fn law_turn_is_cleaned_up_after(active: ActiveTurn, end: (Cleanup, Option<TurnId>))
    requires
        is_end_of(active, end),
    ensures
        end.0.thread == active.thread,
        end.0.upload_dir == active.upload_dir,
        end.1 == active.active_turn,
{
}

/// A stop is told in its own words, to the thread of the turn that it ended.
pub proof fn law_stop_is_told_in_its_words(
    event: AgentEvent,
    finished: (Cleanup, Option<TurnId>),
    message: Seq<char>,
)
    requires
        tells_stop(event, finished, message),
    ensures
        thread_of(event) == finished.0.thread.thread,
        event matches AgentEvent::TurnCompleted { turn, status, .. } ==> finished.1 == Some(turn)
            && status.message is Some && status.message->Some_0@ == message,
        event matches AgentEvent::Error { error, .. } ==> error@ == ErrorView::Transport(message),
        event is TurnCompleted || event is Error,
{
}

/// A line is sent while the connection is open, whole and described; after that it is refused.
pub proof fn law_line_is_sent_while_open(
    sent: Result<OutgoingLine, HarnessError>,
    frame: JsonTree,
    description: Seq<char>,
    open: bool,
)
    requires
        outgoing(sent, frame, description, open),
    ensures
        sent is Ok <==> open,
        sent matches Ok(line) ==> {
            &&& line.line@ == json_text(frame)
            &&& !has_break(line.line@)
            &&& line.description@ == description
        },
        sent matches Err(error) ==> error@ == ErrorView::Transport("Codex transport closed"@),
{
}

/// A message with an identifier is a request under that identifier, and one without is a
/// notification; one that cannot be read ends the stream.
pub proof fn law_message_is_a_request_or_a_notification(
    id: Option<RequestId>,
    method: Seq<char>,
    given: Option<JsonTree>,
    line: Seq<char>,
    came: Result<JsonTree, Seq<char>>,
    step: ReadStep,
    envelope: JsonTree,
)
    requires
        message_becomes(id, method, given, line, came, step, envelope),
    ensures
        came is Ok ==> (step matches ReadStep::Append(InboxItem::Message(message)) && (message
            matches ServerMessage::Request { id: of, .. } ==> id == Some(of)) && (message is
            Notification <==> id is None)),
        came is Err ==> step is End,
        id is None && came is Ok ==> Ok::<JsonTree, Seq<char>>(envelope) == came,
{
}

/// The ends of lines at the end of a text are taken away, and nothing else is.
pub proof fn law_ends_of_lines_are_taken_away(text: Seq<char>) -> (end: int)
    ensures
        0 <= end <= text.len(),
        without_breaks(text) == text.take(end),
        forall|i: int| end <= i < text.len() ==> #[trigger] text[i] == '\n' || text[i] == '\r',
        end > 0 ==> text[end - 1] != '\n' && text[end - 1] != '\r',
    decreases text.len(),
{
    if text.len() > 0 && (text.last() == '\n' || text.last() == '\r') {
        let rest = text.drop_last();
        let end = law_ends_of_lines_are_taken_away(rest);
        assert(text.take(end) =~= rest.take(end));
        assert forall|i: int| end <= i < text.len() implies #[trigger] text[i] == '\n' || text[i]
            == '\r' by {
            if i < text.len() - 1 {
                assert(rest[i] == text[i]);
            }
        }
        end
    } else {
        assert(text.take(text.len() as int) =~= text);
        text.len() as int
    }
}

/// The oldest work that waits is told, and of each kind how much waits.
pub proof fn law_oldest_work_is_told(
    queue: QueueView,
    snapshot: WorkerQueueSnapshot,
    now: u64,
    other: u64,
)
    requires
        shows(queue, snapshot, now),
    ensures
        snapshot.oldest_pending is None <==> queue.pending =~= Map::<u64, WorkerQueueToken>::empty(),
        snapshot.active is None <==> queue.active =~= Map::<u64, WorkerQueueToken>::empty(),
        queue.pending.contains_key(other) ==> snapshot.oldest_pending is Some
            && snapshot.oldest_pending->Some_0.elapsed_ms >= elapsed_millis(
            queue.pending[other].enqueued_at,
            now,
        ),
        snapshot.command_pending == crate::queue::of_kind(
            queue.pending,
            WorkerQueueKind::Command,
        ).len(),
        snapshot.control_pending == crate::queue::of_kind(
            queue.pending,
            WorkerQueueKind::Control,
        ).len(),
{
    match snapshot.oldest_pending {
        Some(entry) => {
            let id = choose|id: u64| #[trigger]
                queue.pending.contains_key(id) && entry == crate::queue::entry_of(
                    queue.pending[id],
                    now,
                ) && forall|other: u64| #[trigger]
                    queue.pending.contains_key(other) ==> queue.pending[id].enqueued_at
                        <= queue.pending[other].enqueued_at;
            assert(queue.pending.contains_key(id));
            if queue.pending.contains_key(other) {
                let a = queue.pending[id].enqueued_at;
                let b = queue.pending[other].enqueued_at;
                assert(a <= b);
                assert(crate::turns::elapsed(a, now) >= crate::turns::elapsed(b, now));
                assert(elapsed_millis(a, now) >= elapsed_millis(b, now));
            }
        },
        None => {},
    }
    match snapshot.active {
        Some(entry) => {
            let id = choose|id: u64| #[trigger]
                queue.active.contains_key(id) && entry == crate::queue::entry_of(
                    queue.active[id],
                    now,
                ) && forall|other: u64| #[trigger]
                    queue.active.contains_key(other) ==> queue.active[id].enqueued_at
                        <= queue.active[other].enqueued_at;
            assert(queue.active.contains_key(id));
        },
        None => {},
    }
}

/// A thread that is gone on with is the one that its name is bound to; one that is new or started
/// over is the one that was asked for.
pub proof fn law_resumed_thread_keeps_its_identity(
    table: TableView,
    resume: Option<Seq<char>>,
    started_over: bool,
    native: Seq<char>,
    thread: ThreadId,
)
    ensures
        resume is Some && !started_over && table.by_native.contains_key(trimmed(native))
            ==> attached_thread(table, resume, started_over, native, thread)
            == table.slots[table.by_native[trimmed(native)]].thread,
        resume is None || started_over || !table.by_native.contains_key(trimmed(native))
            ==> attached_thread(table, resume, started_over, native, thread) == thread,
{
}

/// A claim hands out the claimed thread: under the name and in the place that were given, as the
/// thread that the name is bound to, or as the one that was asked for where it is brought back.
pub proof fn law_claim_hands_out_the_thread(
    routes: TableView,
    thread: ThreadId,
    native: String,
    root: String,
    parent: Option<String>,
    reactivate: bool,
)
    requires
        routes.wf(),
    ensures
        claiming(routes, thread, native, root, parent, reactivate).1 matches Ok(held) ==> {
            &&& held.handle.harness_thread_id@ == native@
            &&& held.handle.workspace_root@ == root@
            &&& held.handle.parent_harness_thread_id == parent
            &&& reactivate ==> held.handle.thread == thread
            &&& !reactivate && routes.by_native.contains_key(trimmed(native@)) ==> held.handle.thread
                == routes.slots[routes.by_native[trimmed(native@)]].thread
            &&& !reactivate && !routes.by_native.contains_key(trimmed(native@))
                ==> held.handle.thread == thread
        },
{
}

/// Events of a thread go to the channel of the route that the thread is bound to.
pub proof fn law_events_go_to_the_bound_route(routes: RoutesView, thread: ThreadId)
    requires
        routes.wf(),
    ensures
        routes.sender(thread) is Some <==> routes.native_by_thread.contains_key(thread),
        routes.sender(thread) matches Some(channel) ==> {
            let native = routes.native_by_thread[thread];
            &&& routes.by_native[native].route.thread == thread
            &&& routes.by_native[native].route.epoch == channel
        },
{
}

/// A frame has at most sixty-four mebibytes, of a line that cannot be read four kibibytes are kept,
/// the inbox retains sixty-five thousand and some messages, the writer's queue holds sixty-four
/// lines, and the app-server has ten seconds to end.
pub proof fn law_limits_of_the_connection()
    ensures
        CODEX_MAX_FRAME_BYTES == 64 * 1024 * 1024,
        NON_JSON_STDOUT_PREVIEW_BYTES == 4 * 1024,
        CODEX_INBOX_RETAIN_LIMIT == 64 * 1024,
        WRITER_QUEUE_CAPACITY == 64,
        CODEX_SHUTDOWN_NS == 10 * 1_000_000_000,
{
}

/// A thread that cannot be attached is refused in words that say which thread owns the name, and
/// which thread was meant.
pub proof fn law_conflicts_are_told_in_words(
    native: Seq<char>,
    other: Seq<char>,
    owner: ThreadId,
    thread: ThreadId,
)
    ensures
        conflict_error(
            ConflictView::AuthoritativeNative { thread: owner },
            native,
            thread,
        ) == ErrorView::Protocol(
            "fresh native thread "@ + native + " is already authoritative for "@ + owner.chars()
                + ", not "@ + thread.chars(),
        ),
        conflict_error(
            ConflictView::NewNativeForBoundThread { existing_native: other },
            native,
            thread,
        ) == ErrorView::Protocol(
            "thread "@ + thread.chars() + " is already bound to native thread "@ + other + ", not "@
                + native,
        ),
        owned_replacement(native, owner) == ErrorView::Protocol(
            "resume fallback returned native thread "@ + native + " already owned by "@
                + owner.chars(),
        ),
        opened_elsewhere(native, owner, thread) == ErrorView::Protocol(
            "opened native thread "@ + native + " is already bound to "@ + owner.chars() + ", not "@
                + thread.chars(),
        ),
        bound_otherwise(owner, thread) == ErrorView::Protocol(
            "bootstrap native route resolved to "@ + owner.chars() + " instead of "@
                + thread.chars(),
        ),
{
}

} // verus!
