//! The connection to the app-server: which requests wait for an answer, and what becomes of each line
//! that is read.

use vstd::prelude::*;

use vstd::utf8::{encode_utf8, valid_utf8};

use codex_codes::{JsonRpcMessage as Line, RequestId as WireId};

use crate::error::{ErrorView, HarnessError};
use crate::frames::{
    error_frame, has_break, notification_frame, request_frame, request_tree, response_frame,
    serialize_line, trim_line_ending, without_line_ending,
};
use crate::ids::{request_id_to_string, RequestId, RequestIdView};
use crate::items::opt_tree;
use crate::json::{json_of, json_text, Json, JsonTree};
use crate::maps::KeyMap;
use crate::number::{decimal, i64_text, signed_decimal, u64_text};
use crate::protocol::ServerMessage;
use crate::rpc::{
    bounded_utf8_preview, byte_count, byte_len, is_preview, CodexStreamError,
    NON_JSON_STDOUT_PREVIEW_BYTES,
};
use crate::text::{blank, concat, concat3, is_blank, trimmed_start};

verus! {

/// How long a line may be, in bytes.
pub const CODEX_MAX_FRAME_BYTES: usize = 67_108_864;

/// How many messages are kept until they are taken.
pub const CODEX_INBOX_RETAIN_LIMIT: usize = 65_536;

/// How many lines may wait to be written.
pub const WRITER_QUEUE_CAPACITY: usize = 64;

/// The connection is closed.
pub fn transport_closed() -> (error: HarnessError)
    ensures
        error@ == ErrorView::Transport("Codex transport closed"@),
{
    HarnessError::Transport("Codex transport closed".to_owned())
}

/// What a lock guards. A lock that was left behind by a failure is used as it was left.
pub fn lock_mutex<T>(locked: Result<T, T>) -> (guard: T)
    ensures
        guard == (match locked {
            Ok(guard) => guard,
            Err(recovered) => recovered,
        }),
{
    match locked {
        Ok(guard) => guard,
        Err(recovered) => recovered,
    }
}

/// How far a request came.
#[derive(Clone, Copy, PartialEq, Eq, Structural, Debug)]
#[allow(inconsistent_fields)]
pub enum FrameState {
    /// It does not wait to be written yet.
    Unqueued,
    /// It waits to be written.
    Queued,
    /// It was written.
    Written,
}

impl View for FrameState {
    type V = FrameState;

    open spec fn view(&self) -> FrameState {
        *self
    }
}

/// A request that is to be written.
#[derive(Debug)]
pub struct OutgoingRequest {
    /// The request.
    pub id: RequestId,
    /// The line to write.
    pub line: String,
    /// What the line is, for the log.
    pub description: String,
}

/// Which requests wait for an answer.
#[verifier::ext_equal]
pub struct WaitersView {
    /// The number of the next request.
    pub next_id: i64,
    /// How far each request that waits came.
    pub waiting: Map<RequestIdView, FrameState>,
}

/// The number after a number. After the last one comes the first one.
pub open spec fn next_number(n: i64) -> i64 {
    if n == i64::MAX {
        i64::MIN
    } else {
        (n + 1) as i64
    }
}

impl WaitersView {
    /// A request is about to be made.
    pub open spec fn numbered(self) -> WaitersView {
        WaitersView { next_id: next_number(self.next_id), ..self }
    }

    /// A request waits for its answer.
    pub open spec fn begun(self) -> WaitersView {
        WaitersView {
            waiting: self.waiting.insert(RequestIdView::Integer(self.next_id), FrameState::Unqueued),
            ..self.numbered()
        }
    }

    /// A request waits for no answer any longer.
    pub open spec fn without(self, id: RequestIdView) -> WaitersView {
        WaitersView { waiting: self.waiting.remove(id), ..self }
    }

    /// A request came further.
    pub open spec fn moved(self, id: RequestIdView, state: FrameState) -> WaitersView {
        if self.waiting.contains_key(id) {
            WaitersView { waiting: self.waiting.insert(id, state), ..self }
        } else {
            self
        }
    }

    /// A request waits to be written. One that was written meanwhile stays so.
    pub open spec fn queued(self, id: RequestIdView) -> WaitersView {
        if self.waiting.contains_key(id) && self.waiting[id] is Unqueued {
            self.moved(id, FrameState::Queued)
        } else {
            self
        }
    }
}

/// Which requests wait for an answer.
pub struct Waiters {
    next_id: i64,
    waiting: KeyMap<RequestId, FrameState>,
}

impl View for Waiters {
    type V = WaitersView;

    closed spec fn view(&self) -> WaitersView {
        WaitersView { next_id: self.next_id, waiting: self.waiting@ }
    }
}

/// A request in words, for the log.
pub open spec fn request_words(method: Seq<char>, id: Seq<char>) -> Seq<char> {
    "request "@ + method + " id "@ + id
}

impl Waiters {
    /// No request occurs twice.
    pub closed spec fn wf(self) -> bool {
        self.waiting.wf()
    }

    /// No request waits, and the first one gets the number one.
    pub fn new() -> (waiters: Self)
        ensures
            waiters.wf(),
            waiters@ == (WaitersView { next_id: 1, waiting: Map::empty() }),
    {
        Waiters { next_id: 1, waiting: KeyMap::new() }
    }

    /// Makes a request, which waits for its answer from now. One on a connection that is closed waits
    /// for none.
    pub fn begin(&mut self, method: &str, params: Json, open: bool) -> (begun: Result<
        OutgoingRequest,
        HarnessError,
    >)
        requires
            old(self).wf(),
        ensures
            final(self).wf(),
            ({
                let id = RequestId::Integer(old(self)@.next_id);
                if open {
                    &&& final(self)@ == old(self)@.begun()
                    &&& begun is Ok
                    &&& begun->Ok_0.id == id
                    &&& begun->Ok_0.line@ == json_text(request_tree(id, method@, params@))
                    &&& !has_break(begun->Ok_0.line@)
                    &&& begun->Ok_0.description@ == request_words(method@, id.chars())
                } else {
                    &&& final(self)@ == old(self)@.numbered().without(id@)
                    &&& begun is Err
                    &&& begun->Err_0@ == ErrorView::Transport("Codex transport closed"@)
                }
            }),
    {
        let number: i64 = self.next_id;
        let id = RequestId::Integer(number);
        self.next_id = if number == i64::MAX {
            i64::MIN
        } else {
            number + 1
        };
        let line = match serialize_line(&request_frame(&id, method, params)) {
            Ok(line) => line,
            Err(error) => {
                self.waiting.remove(&id);
                return Err(error);
            },
        };
        if !open {
            self.waiting.remove(&id);
            return Err(transport_closed());
        }
        self.waiting.insert(RequestId::Integer(number), FrameState::Unqueued);
        let number_text = request_id_to_string(&id);
        let description = concat3(
            concat("request ", method).as_str(),
            " id ",
            number_text.as_str(),
        );
        Ok(OutgoingRequest { id, line, description })
    }

    /// A request waits to be written. One that was written meanwhile stays so.
    pub fn queued(&mut self, id: &RequestId)
        requires
            old(self).wf(),
        ensures
            final(self).wf(),
            final(self)@ == old(self)@.queued(id@),
    {
        let unqueued = match self.waiting.get(id) {
            Some(state) => *state == FrameState::Unqueued,
            None => false,
        };
        if unqueued {
            self.waiting.insert(id.copy(), FrameState::Queued);
        }
    }

    /// What became of a line that was to be written. Whether more lines are written: a line that could
    /// not be is the last one.
    pub fn wrote(&mut self, id: Option<&RequestId>, result: &Result<(), HarnessError>) -> (goes_on: bool)
        requires
            old(self).wf(),
        ensures
            final(self).wf(),
            goes_on == (*result is Ok),
            final(self)@ == (match (id, *result) {
                (Some(id), Ok(())) => old(self)@.moved(id@, FrameState::Written),
                _ => old(self)@,
            }),
    {
        match result {
            Ok(()) => {
                if let Some(id) = id {
                    if self.waiting.contains_key(id) {
                        self.waiting.insert(id.copy(), FrameState::Written);
                    }
                }
                true
            },
            Err(_) => false,
        }
    }

    /// An answer came. Whether a request waited for it.
    pub fn deliver_response(&mut self, id: &RequestId) -> (waited: bool)
        requires
            old(self).wf(),
        ensures
            final(self).wf(),
            waited == old(self)@.waiting.contains_key(id@),
            final(self)@ == old(self)@.without(id@),
    {
        self.waiting.remove(id).is_some()
    }

    /// Nobody waits for the answer any longer. How far the request came.
    pub fn abandon(&mut self, id: &RequestId) -> (state: Option<FrameState>)
        requires
            old(self).wf(),
        ensures
            final(self).wf(),
            final(self)@ == old(self)@.without(id@),
            state == if old(self)@.waiting.contains_key(id@) {
                Some(old(self)@.waiting[id@])
            } else {
                None
            },
    {
        self.waiting.remove(id)
    }

    /// The answer to a request, or why none comes. Nothing came where nobody is there to answer.
    pub fn finish(&mut self, id: &RequestId, reply: Option<Result<Json, HarnessError>>) -> (result:
        Result<Json, HarnessError>)
        requires
            old(self).wf(),
        ensures
            final(self).wf(),
            match reply {
                Some(reply) => result == reply && final(self)@ == old(self)@,
                None => {
                    &&& final(self)@ == old(self)@.without(id@)
                    &&& result is Err
                    &&& result->Err_0@ == ErrorView::Transport("Codex transport closed"@)
                },
            },
    {
        match reply {
            Some(result) => result,
            None => {
                self.waiting.remove(id);
                Err(transport_closed())
            },
        }
    }

    /// No request gets an answer any longer. The requests that waited for one, each once.
    pub fn fail_all(&mut self) -> (failed: Vec<RequestId>)
        requires
            old(self).wf(),
        ensures
            final(self).wf(),
            final(self)@ == (WaitersView { waiting: Map::empty(), ..old(self)@ }),
            ids_of(failed@).no_duplicates(),
            ids_of(failed@).to_set() == old(self)@.waiting.dom(),
    {
        let mut failed: Vec<RequestId> = Vec::new();
        let n: usize = self.waiting.len();
        let mut i: usize = 0;
        let ghost order = self.waiting.order();
        proof {
            self.waiting.lemma_order();
        }
        while i < n
            invariant
                self.wf(),
                order == self.waiting.order(),
                n == order.len(),
                i <= n,
                failed@.len() == i,
                forall|j: int| 0 <= j < i ==> (#[trigger] failed@[j])@ == order[j],
            decreases n - i,
        {
            failed.push(self.waiting.nth(i).0.copy());
            i = i + 1;
        }
        proof {
            assert(ids_of(failed@) =~= order);
        }
        self.waiting = KeyMap::new();
        failed
    }
}

/// The requests of a list.
pub open spec fn ids_of(ids: Seq<RequestId>) -> Seq<RequestIdView> {
    ids.map_values(|id: RequestId| id@)
}

/// A message that waits to be taken.
#[derive(Debug)]
pub enum InboxItem {
    /// A message.
    Message(ServerMessage),
    /// A line that is not JSON.
    NonJson {
        /// Why it is not JSON.
        parse_error: String,
        /// The beginning of the line.
        raw_preview: String,
        /// The length of the line in bytes.
        raw_bytes: usize,
    },
    /// Nothing more can be read.
    Fatal(String),
    /// Nothing more comes.
    Eof,
}

/// Why no message waits.
#[derive(Clone, Copy, PartialEq, Eq, Structural, Debug)]
#[allow(inconsistent_fields)]
pub enum EventStreamError {
    /// Nothing more comes.
    Closed,
    /// Messages were lost.
    Gap {
        /// How many.
        dropped: u64,
    },
}

/// The next message, or why there is none.
pub fn next_message(received: Result<InboxItem, EventStreamError>) -> (next: Result<
    Option<ServerMessage>,
    CodexStreamError,
>)
    ensures
        match received {
            Ok(InboxItem::Message(message)) => next == Ok::<_, CodexStreamError>(Some(message)),
            Ok(InboxItem::NonJson { parse_error, raw_preview, raw_bytes }) => next == Err::<
                Option<ServerMessage>,
                _,
            >(CodexStreamError::NonJsonStdout { parse_error, raw_preview, raw_bytes }),
            Ok(InboxItem::Fatal(message)) => next == Err::<Option<ServerMessage>, _>(
                CodexStreamError::Fatal(HarnessError::Transport(message)),
            ),
            Ok(InboxItem::Eof) | Err(EventStreamError::Closed) => next == Ok::<
                Option<ServerMessage>,
                CodexStreamError,
            >(None),
            Err(EventStreamError::Gap { dropped }) => {
                &&& next matches Err(error)
                &&& error matches CodexStreamError::Fatal(error)
                &&& error@ == ErrorView::Transport(
                    "Codex inbox overflowed; "@ + decimal(dropped as nat) + " frames dropped"@,
                )
            },
        },
{
    match received {
        Ok(InboxItem::Message(message)) => Ok(Some(message)),
        Ok(InboxItem::NonJson { parse_error, raw_preview, raw_bytes }) => Err(
            CodexStreamError::NonJsonStdout { parse_error, raw_preview, raw_bytes },
        ),
        Ok(InboxItem::Fatal(message)) => Err(
            CodexStreamError::Fatal(HarnessError::Transport(message)),
        ),
        Ok(InboxItem::Eof) => Ok(None),
        Err(EventStreamError::Closed) => Ok(None),
        Err(EventStreamError::Gap { dropped }) => {
            let dropped = u64_text(dropped);
            Err(
                CodexStreamError::Fatal(
                    HarnessError::Transport(
                        concat3("Codex inbox overflowed; ", dropped.as_str(), " frames dropped"),
                    ),
                ),
            )
        },
    }
}

/// What `String::from_utf8_lossy` makes of bytes.
pub uninterp spec fn lossy_text(bytes: Seq<u8>) -> Seq<char>;

/// `String::from_utf8_lossy` reads bytes as UTF-8, with a replacement character where they are not.
/// Bytes that are UTF-8 are read as the text that they encode.
#[verifier::external_body]
pub(crate) fn from_utf8_lossy(bytes: &Vec<u8>) -> (text: String)
    ensures
        text@ == lossy_text(bytes@),
        valid_utf8(bytes@) ==> encode_utf8(text@) == bytes@,
{
    String::from_utf8_lossy(bytes).into_owned()
}

/// How `format!` with `{:?}` shows a text.
pub uninterp spec fn debug_text(text: Seq<char>) -> Seq<char>;

/// `format!` with `{:?}` shows a text between double quotes, with characters that cannot be shown
/// escaped. Which characters these are is not stated.
#[verifier::external_body]
pub(crate) fn debug_format(text: &str) -> (shown: String)
    ensures
        shown@ == debug_text(text@),
{
    format!("{:?}", text)
}

/// A line that was read as a message.
#[derive(Debug)]
pub enum Envelope {
    /// Something to answer.
    Request {
        /// The request.
        id: RequestId,
        /// Its method.
        method: String,
        /// What it is about.
        params: Option<Json>,
    },
    /// The answer to a request.
    Response {
        /// The request.
        id: RequestId,
        /// The answer.
        result: Json,
    },
    /// The refusal of a request.
    Error {
        /// The request.
        id: RequestId,
        /// The code of the failure.
        code: i64,
        /// The failure.
        message: String,
    },
    /// Something to know.
    Notification {
        /// Its method.
        method: String,
        /// What it is about.
        params: Option<Json>,
    },
}

/// A line that was read as a message, with texts as characters and values as trees.
pub enum EnvelopeView {
    /// View of [`Envelope::Request`].
    Request {
        /// The request.
        id: RequestIdView,
        /// Its method.
        method: Seq<char>,
        /// What it is about.
        params: Option<JsonTree>,
    },
    /// View of [`Envelope::Response`].
    Response {
        /// The request.
        id: RequestIdView,
        /// The answer.
        result: JsonTree,
    },
    /// View of [`Envelope::Error`].
    Error {
        /// The request.
        id: RequestIdView,
        /// The code of the failure.
        code: i64,
        /// The failure.
        message: Seq<char>,
    },
    /// View of [`Envelope::Notification`].
    Notification {
        /// Its method.
        method: Seq<char>,
        /// What it is about.
        params: Option<JsonTree>,
    },
}

impl View for Envelope {
    type V = EnvelopeView;

    open spec fn view(&self) -> EnvelopeView {
        match *self {
            Envelope::Request { id, method, params } => EnvelopeView::Request {
                id: id@,
                method: method@,
                params: opt_tree(params),
            },
            Envelope::Response { id, result } => EnvelopeView::Response {
                id: id@,
                result: result@,
            },
            Envelope::Error { id, code, message } => EnvelopeView::Error {
                id: id@,
                code,
                message: message@,
            },
            Envelope::Notification { method, params } => EnvelopeView::Notification {
                method: method@,
                params: opt_tree(params),
            },
        }
    }
}

/// What was read, or why it could not be, with texts as characters and values as trees.
pub open spec fn told_view<T: View>(read: Result<T, String>) -> Result<T::V, Seq<char>> {
    match read {
        Ok(value) => Ok(value@),
        Err(error) => Err(error@),
    }
}

/// What `serde_json::from_str` reads from a line as a `codex_codes::JsonRpcMessage`, or why it reads
/// none.
pub uninterp spec fn parsed_line(line: Seq<char>) -> Result<EnvelopeView, Seq<char>>;

/// `serde_json::from_str` reads a line as a `codex_codes::JsonRpcMessage`: a request where there is
/// an `id` and a `method`, a response where there is an `id` and a `result`, an error where there is
/// an `id` and an `error`, and a notification where there is a `method`. Its fields are moved as they
/// are. Which texts are JSON, and how an error is told, is not stated.
#[verifier::external_body]
fn parse_line(line: &str) -> (parsed: Result<Envelope, String>)
    ensures
        told_view(parsed) == parsed_line(line@),
{
    let own = |id| match id {
        WireId::String(text) => RequestId::String(text),
        WireId::Integer(n) => RequestId::Integer(n)
    };
    serde_json::from_str(line).map(|read| match read {
        Line::Request(m) =>
            Envelope::Request { id: own(m.id), method: m.method, params: m.params.map(json_of) },
        Line::Response(m) => Envelope::Response { id: own(m.id), result: json_of(m.result) },
        Line::Error(m) =>
            Envelope::Error { id: own(m.id), code: m.error.code, message: m.error.message },
        Line::Notification(m) =>
            Envelope::Notification { method: m.method, params: m.params.map(json_of) }
    }).map_err(|error| error.to_string())
}

/// What becomes of what was read.
#[derive(Debug)]
#[allow(inconsistent_fields)]
pub enum ReadStep {
    /// Nothing: the next line is read.
    Skip,
    /// The line is to be read as a message.
    Parse(String),
    /// A message waits to be taken, and the next line is read.
    Append(InboxItem),
    /// A request gets its answer, and the next line is read.
    Deliver {
        /// The request.
        id: RequestId,
        /// Its answer.
        result: Result<Json, HarnessError>,
    },
    /// A message is to be read by its method.
    Decode {
        /// The request, where it is one.
        id: Option<RequestId>,
        /// The method.
        method: String,
        /// What it is about.
        params: Option<Json>,
        /// The line.
        line: String,
    },
    /// A last item waits to be taken, every request that waits is told why it gets no answer, and no
    /// line is read any longer.
    End {
        /// The last item.
        item: InboxItem,
        /// What requests are told.
        told: String,
    },
}

/// Whether reading ends with this.
pub open spec fn ends_with(step: ReadStep, fatal: Seq<char>, told: Seq<char>) -> bool {
    &&& step matches ReadStep::End { item, told: words }
    &&& words@ == told
    &&& item matches InboxItem::Fatal(message)
    &&& message@ == fatal
}

fn end_reading(fatal: String, told: &str) -> (step: ReadStep)
    ensures
        ends_with(step, fatal@, told@),
{
    ReadStep::End { item: InboxItem::Fatal(fatal), told: told.to_owned() }
}

/// What becomes of what was read up to the end of a line: nothing where nothing more comes, and
/// nothing good where that failed or the line is too long.
pub fn take_line(read: Result<Vec<u8>, String>) -> (step: ReadStep)
    ensures
        match read {
            Ok(bytes) => {
                let line = without_line_ending(lossy_text(bytes@));
                if bytes@.len() == 0 {
                    &&& step matches ReadStep::End { item, told }
                    &&& item is Eof
                    &&& told@ == "Codex stream closed"@
                } else if bytes@.len() > CODEX_MAX_FRAME_BYTES {
                    ends_with(
                        step,
                        "Codex stdout frame exceeded "@ + decimal(CODEX_MAX_FRAME_BYTES as nat)
                            + " bytes"@,
                        "Codex stream produced an oversized frame"@,
                    )
                } else if is_blank(line) {
                    step is Skip
                } else {
                    &&& step matches ReadStep::Parse(text)
                    &&& text@ == line
                }
            },
            Err(error) => ends_with(
                step,
                "failed to read Codex stdout: "@ + error@,
                "Codex stream read failed"@,
            ),
        },
{
    let bytes = match read {
        Ok(bytes) => bytes,
        Err(error) => {
            return end_reading(
                concat("failed to read Codex stdout: ", error.as_str()),
                "Codex stream read failed",
            );
        },
    };
    if bytes.len() == 0 {
        return ReadStep::End { item: InboxItem::Eof, told: "Codex stream closed".to_owned() };
    }
    if bytes.len() > CODEX_MAX_FRAME_BYTES {
        let limit = u64_text(CODEX_MAX_FRAME_BYTES as u64);
        return end_reading(
            concat3("Codex stdout frame exceeded ", limit.as_str(), " bytes"),
            "Codex stream produced an oversized frame",
        );
    }
    let mut line = from_utf8_lossy(&bytes);
    trim_line_ending(&mut line);
    if blank(line.as_str()) {
        ReadStep::Skip
    } else {
        ReadStep::Parse(line)
    }
}

/// Whether a line looks like the beginning of an object.
pub open spec fn opens_object(line: Seq<char>) -> bool {
    trimmed_start(line).len() > 0 && trimmed_start(line)[0] == '{'
}

fn starts_object(line: &str) -> (found: bool)
    ensures
        found == opens_object(line@),
{
    let n: usize = line.unicode_len();
    let mut from: usize = 0;
    proof {
        assert(line@.skip(0) =~= line@);
    }
    while from < n && crate::text::char_is_space(line.get_char(from))
        invariant
            from <= n,
            n == line@.len(),
            trimmed_start(line@) == trimmed_start(line@.skip(from as int)),
        decreases n - from,
    {
        proof {
            assert(line@.skip(from as int).drop_first() =~= line@.skip(from + 1));
            assert(line@.skip(from as int)[0] == line@[from as int]);
        }
        from = from + 1;
    }
    from < n && line.get_char(from) == '{'
}

/// Why a line cannot be read, in words.
pub open spec fn decode_failure(
    method: Seq<char>,
    error: Seq<char>,
    line: Seq<char>,
    preview: Seq<char>,
) -> Seq<char> {
    "Codex JSON-RPC deserialization error for method "@ + method + ": "@ + error + " (raw_bytes: "@
        + decimal(byte_count(line)) + ", raw_preview: "@ + debug_text(preview) + ")"@
}

/// Whether reading ends because a line cannot be read.
pub open spec fn ends_undecoded(
    step: ReadStep,
    method: Seq<char>,
    error: Seq<char>,
    line: Seq<char>,
    told: Seq<char>,
) -> bool {
    exists|preview: Seq<char>|
        #![trigger decode_failure(method, error, line, preview)]
        is_preview(preview, line, NON_JSON_STDOUT_PREVIEW_BYTES as nat) && ends_with(
            step,
            decode_failure(method, error, line, preview),
            told,
        )
}

fn append_fatal_decode(method: &str, line: &str, error: &str, told: &str) -> (step: ReadStep)
    ensures
        ends_undecoded(step, method@, error@, line@, told@),
{
    let preview = bounded_utf8_preview(line, NON_JSON_STDOUT_PREVIEW_BYTES);
    let mut fatal = concat("Codex JSON-RPC deserialization error for method ", method);
    fatal.append(": ");
    fatal.append(error);
    fatal.append(" (raw_bytes: ");
    let n = u64_text(byte_len(line) as u64);
    fatal.append(n.as_str());
    fatal.append(", raw_preview: ");
    let shown = debug_format(preview.as_str());
    fatal.append(shown.as_str());
    fatal.append(")");
    proof {
        assert(fatal@ == decode_failure(method@, error@, line@, preview@));
    }
    end_reading(fatal, told)
}

/// The refusal of a request as a failure.
pub open spec fn refusal(code: i64, message: Seq<char>) -> ErrorView {
    ErrorView::Transport("JSON-RPC error ("@ + signed_decimal(code as int) + "): "@ + message)
}

/// What becomes of a line, after it was read as a message or could not be. A line that does not even
/// begin as one is noise.
pub fn take_envelope(line: String, parsed: Result<Envelope, String>) -> (step: ReadStep)
    ensures
        match parsed {
            Ok(Envelope::Response { id, result }) => step == (ReadStep::Deliver {
                id,
                result: Ok(result),
            }),
            Ok(Envelope::Error { id, code, message }) => {
                &&& step matches ReadStep::Deliver { id: to, result: Err(error) }
                &&& to == id
                &&& error@ == refusal(code, message@)
            },
            Ok(Envelope::Notification { method, params }) => step == (ReadStep::Decode {
                id: None,
                method,
                params,
                line,
            }),
            Ok(Envelope::Request { id, method, params }) => step == (ReadStep::Decode {
                id: Some(id),
                method,
                params,
                line,
            }),
            Err(error) => if opens_object(line@) {
                ends_undecoded(
                    step,
                    "unknown"@,
                    error@,
                    line@,
                    "Codex stream contained malformed JSON-RPC"@,
                )
            } else {
                &&& step matches ReadStep::Append(
                    InboxItem::NonJson { parse_error, raw_preview, raw_bytes },
                )
                &&& parse_error == error
                &&& is_preview(raw_preview@, line@, NON_JSON_STDOUT_PREVIEW_BYTES as nat)
                &&& raw_bytes == byte_count(line@)
            },
        },
{
    match parsed {
        Ok(Envelope::Response { id, result }) => ReadStep::Deliver { id, result: Ok(result) },
        Ok(Envelope::Error { id, code, message }) => {
            let mut words = concat("JSON-RPC error (", i64_text(code).as_str());
            words.append("): ");
            words.append(message.as_str());
            ReadStep::Deliver { id, result: Err(HarnessError::Transport(words)) }
        },
        Ok(Envelope::Notification { method, params }) => ReadStep::Decode {
            id: None,
            method,
            params,
            line,
        },
        Ok(Envelope::Request { id, method, params }) => ReadStep::Decode {
            id: Some(id),
            method,
            params,
            line,
        },
        Err(error) => if starts_object(line.as_str()) {
            append_fatal_decode(
                "unknown",
                line.as_str(),
                error.as_str(),
                "Codex stream contained malformed JSON-RPC",
            )
        } else {
            ReadStep::Append(
                InboxItem::NonJson {
                    parse_error: error,
                    raw_preview: bounded_utf8_preview(
                        line.as_str(),
                        NON_JSON_STDOUT_PREVIEW_BYTES,
                    ),
                    raw_bytes: byte_len(line.as_str()),
                },
            )
        },
    }
}

/// Whether this becomes of a line, after it was read as a message or could not be.
pub open spec fn becomes(
    step: ReadStep,
    line: Seq<char>,
    parsed: Result<EnvelopeView, Seq<char>>,
) -> bool {
    match parsed {
        Ok(EnvelopeView::Response { id, result }) => {
            &&& step matches ReadStep::Deliver { id: to, result: Ok(answer) }
            &&& to@ == id
            &&& answer@ == result
        },
        Ok(EnvelopeView::Error { id, code, message }) => {
            &&& step matches ReadStep::Deliver { id: to, result: Err(error) }
            &&& to@ == id
            &&& error@ == refusal(code, message)
        },
        Ok(EnvelopeView::Notification { method, params }) => {
            &&& step matches ReadStep::Decode { id: None, method: asked, params: about, line: whole }
            &&& asked@ == method
            &&& opt_tree(about) == params
            &&& whole@ == line
        },
        Ok(EnvelopeView::Request { id, method, params }) => {
            &&& step matches ReadStep::Decode {
                id: Some(from),
                method: asked,
                params: about,
                line: whole,
            }
            &&& from@ == id
            &&& asked@ == method
            &&& opt_tree(about) == params
            &&& whole@ == line
        },
        Err(error) => if opens_object(line) {
            ends_undecoded(
                step,
                "unknown"@,
                error,
                line,
                "Codex stream contained malformed JSON-RPC"@,
            )
        } else {
            &&& step matches ReadStep::Append(
                InboxItem::NonJson { parse_error, raw_preview, raw_bytes },
            )
            &&& parse_error@ == error
            &&& is_preview(raw_preview@, line, NON_JSON_STDOUT_PREVIEW_BYTES as nat)
            &&& raw_bytes == byte_count(line)
        },
    }
}

/// What becomes of what was read up to the end of a line, read as a message where it is a line that
/// is not blank.
pub fn read_line(read: Result<Vec<u8>, String>) -> (step: ReadStep)
    ensures
        match read {
            Ok(bytes) => {
                let line = without_line_ending(lossy_text(bytes@));
                if bytes@.len() == 0 {
                    &&& step matches ReadStep::End { item, told }
                    &&& item is Eof
                    &&& told@ == "Codex stream closed"@
                } else if bytes@.len() > CODEX_MAX_FRAME_BYTES {
                    ends_with(
                        step,
                        "Codex stdout frame exceeded "@ + decimal(CODEX_MAX_FRAME_BYTES as nat)
                            + " bytes"@,
                        "Codex stream produced an oversized frame"@,
                    )
                } else if is_blank(line) {
                    step is Skip
                } else {
                    becomes(step, line, parsed_line(line))
                }
            },
            Err(error) => ends_with(
                step,
                "failed to read Codex stdout: "@ + error@,
                "Codex stream read failed"@,
            ),
        },
{
    match take_line(read) {
        ReadStep::Parse(line) => {
            let parsed = parse_line(line.as_str());
            take_envelope(line, parsed)
        },
        step => step,
    }
}

/// What becomes of a message, after it was read by its method or could not be.
pub fn take_message(
    method: &str,
    line: &str,
    is_request: bool,
    decoded: Result<ServerMessage, String>,
) -> (step: ReadStep)
    ensures
        match decoded {
            Ok(message) => step == ReadStep::Append(InboxItem::Message(message)),
            Err(error) => ends_undecoded(
                step,
                method@,
                error@,
                line@,
                if is_request {
                    "Codex request decode failed"@
                } else {
                    "Codex notification decode failed"@
                },
            ),
        },
{
    match decoded {
        Ok(message) => ReadStep::Append(InboxItem::Message(message)),
        Err(error) => append_fatal_decode(
            method,
            line,
            error.as_str(),
            if is_request {
                "Codex request decode failed"
            } else {
                "Codex notification decode failed"
            },
        ),
    }
}

/// A line that asks for no answer.
#[derive(Debug)]
pub struct OutgoingLine {
    /// The line to write.
    pub line: String,
    /// What the line is, for the log.
    pub description: String,
}

/// What is known of a line that asks for no answer.
pub open spec fn outgoing(
    sent: Result<OutgoingLine, HarnessError>,
    frame: JsonTree,
    description: Seq<char>,
    open: bool,
) -> bool {
    if open {
        &&& sent is Ok
        &&& sent->Ok_0.line@ == json_text(frame)
        &&& !has_break(sent->Ok_0.line@)
        &&& sent->Ok_0.description@ == description
    } else {
        &&& sent is Err
        &&& sent->Err_0@ == ErrorView::Transport("Codex transport closed"@)
    }
}

fn send_frame(frame: Json, description: String, open: bool) -> (sent: Result<
    OutgoingLine,
    HarnessError,
>)
    ensures
        outgoing(sent, frame@, description@, open),
{
    match serialize_line(&frame) {
        Ok(line) => if open {
            Ok(OutgoingLine { line, description })
        } else {
            Err(transport_closed())
        },
        Err(error) => Err(error),
    }
}

/// Something to know, as a line.
pub fn send_notification(method: &str, open: bool) -> (sent: Result<OutgoingLine, HarnessError>)
    ensures
        outgoing(
            sent,
            JsonTree::Object(seq![("method"@, JsonTree::Text(method@))]),
            "notification "@ + method@,
            open,
        ),
{
    send_frame(notification_frame(method), concat("notification ", method), open)
}

/// The answer to a request of the app-server, as a line.
pub fn respond_json(id: &RequestId, value: Json, open: bool) -> (sent: Result<
    OutgoingLine,
    HarnessError,
>)
    ensures
        outgoing(
            sent,
            JsonTree::Object(seq![("id"@, crate::frames::id_tree(*id)), ("result"@, value@)]),
            "response id "@ + id.chars(),
            open,
        ),
{
    let words = request_id_to_string(id);
    send_frame(response_frame(id, value), concat("response id ", words.as_str()), open)
}

/// The refusal of a request of the app-server, as a line.
pub fn respond_error_json(id: &RequestId, code: i64, message: &str, open: bool) -> (sent: Result<
    OutgoingLine,
    HarnessError,
>)
    ensures
        outgoing(
            sent,
            JsonTree::Object(
                seq![
                    (
                        "error"@,
                        JsonTree::Object(
                            seq![
                                ("code"@, JsonTree::Number(signed_decimal(code as int))),
                                ("message"@, JsonTree::Text(message@)),
                            ],
                        ),
                    ),
                    ("id"@, crate::frames::id_tree(*id)),
                ],
            ),
            "error response id "@ + id.chars(),
            open,
        ),
{
    let words = request_id_to_string(id);
    send_frame(
        error_frame(id, code, message),
        concat("error response id ", words.as_str()),
        open,
    )
}

/// Why the app-server cannot be used: something came before it answered the first request.
pub fn early_frame(read: Result<Option<ServerMessage>, CodexStreamError>) -> (error: HarnessError)
    ensures
        match read {
            Ok(Some(_)) => error@ == ErrorView::Protocol(
                "Codex emitted a production frame before initialize completed"@,
            ),
            Ok(None) => error@ == ErrorView::Transport(
                "Codex stdout closed before initialize completed"@,
            ),
            Err(CodexStreamError::NonJsonStdout { parse_error, .. }) => error@
                == ErrorView::Transport(
                "Codex wrote non-JSON stdout before initialize completed: "@ + parse_error@,
            ),
            Err(CodexStreamError::Fatal(failed)) => error == failed,
        },
{
    match read {
        Ok(Some(_)) => HarnessError::Protocol(
            "Codex emitted a production frame before initialize completed".to_owned(),
        ),
        Ok(None) => HarnessError::Transport(
            "Codex stdout closed before initialize completed".to_owned(),
        ),
        Err(CodexStreamError::NonJsonStdout { parse_error, .. }) => HarnessError::Transport(
            concat(
                "Codex wrote non-JSON stdout before initialize completed: ",
                parse_error.as_str(),
            ),
        ),
        Err(CodexStreamError::Fatal(error)) => error,
    }
}

/// A request that waits is answered once: the answer takes it out, so a second answer finds nobody.
pub proof fn law_answer_is_delivered_once(waiters: WaitersView, id: RequestIdView)
    ensures
        !waiters.without(id).waiting.contains_key(id),
        forall|other: RequestIdView| other != id ==> (
        #[trigger] waiters.without(id).waiting.contains_key(other)
            <==> waiters.waiting.contains_key(other)),
{
}

/// A late answer changes nothing: a request that nobody waits for is not known, and the requests that
/// wait are left as they are.
pub proof fn law_late_answer_is_dropped(waiters: WaitersView, id: RequestIdView)
    requires
        !waiters.waiting.contains_key(id),
    ensures
        waiters.without(id) == waiters,
{
    assert(waiters.without(id).waiting =~= waiters.waiting);
}

/// A request that was written stays so, even where it is told only later that it waits to be written.
pub proof fn law_written_stays_written(waiters: WaitersView, id: RequestIdView)
    requires
        waiters.waiting.contains_key(id),
    ensures
        waiters.moved(id, FrameState::Written).queued(id) == waiters.moved(id, FrameState::Written),
        waiters.moved(id, FrameState::Written).waiting[id] is Written,
{
}

/// Requests that wait have different numbers, as long as the numbers last.
pub proof fn law_requests_are_numbered_apart(waiters: WaitersView)
    requires
        waiters.next_id < i64::MAX,
        forall|n: i64| #[trigger]
            waiters.waiting.contains_key(RequestIdView::Integer(n)) ==> n < waiters.next_id,
    ensures
        !waiters.waiting.contains_key(RequestIdView::Integer(waiters.next_id)),
        waiters.begun().waiting.contains_key(RequestIdView::Integer(waiters.next_id)),
        forall|n: i64| #[trigger]
            waiters.begun().waiting.contains_key(RequestIdView::Integer(n)) ==> n
                < waiters.begun().next_id,
{
}

} // verus!
