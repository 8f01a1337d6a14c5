//! Requests over the connection: what is kept of a line that cannot be read, and what is known when
//! no answer comes in time.

use vstd::prelude::*;

use vstd::utf8::{
    decode_utf8_split, encode_utf8, encode_utf8_decode_utf8, encode_utf8_first_scalar,
    encode_utf8_valid_utf8, is_char_boundary, is_char_boundary_start_end_of_seq, pop_first_scalar,
    valid_utf8,
};

use crate::error::{outcome, outcome_view, ErrorView, HarnessError};
use crate::ids::{request_id_to_string, RequestId};
use crate::json::Json;
use crate::text::concat3;

verus! {

/// Why no message could be read.
#[derive(Debug)]
pub enum CodexStreamError {
    /// A line that is not JSON was read. Messages are lines, so the next one starts afresh.
    NonJsonStdout {
        /// Why it is not JSON.
        parse_error: String,
        /// The beginning of the line.
        raw_preview: String,
        /// The length of the line in bytes.
        raw_bytes: usize,
    },
    /// Nothing more can be read.
    Fatal(HarnessError),
}

/// Why no message could be read, with texts as characters.
pub enum StreamErrorView {
    /// View of [`CodexStreamError::NonJsonStdout`].
    NonJsonStdout {
        /// Why it is not JSON.
        parse_error: Seq<char>,
        /// The beginning of the line.
        raw_preview: Seq<char>,
        /// The length of the line in bytes.
        raw_bytes: nat,
    },
    /// View of [`CodexStreamError::Fatal`].
    Fatal(ErrorView),
}

impl View for CodexStreamError {
    type V = StreamErrorView;

    open spec fn view(&self) -> StreamErrorView {
        match *self {
            CodexStreamError::NonJsonStdout { parse_error, raw_preview, raw_bytes } =>
                StreamErrorView::NonJsonStdout {
                    parse_error: parse_error@,
                    raw_preview: raw_preview@,
                    raw_bytes: raw_bytes as nat,
                },
            CodexStreamError::Fatal(error) => StreamErrorView::Fatal(error@),
        }
    }
}

/// How many bytes are kept of a line that cannot be read.
pub const NON_JSON_STDOUT_PREVIEW_BYTES: usize = 4096;

/// How long a text is in bytes.
pub open spec fn byte_count(text: Seq<char>) -> nat {
    encode_utf8(text).len()
}

/// How long a text is in bytes.
pub fn byte_len(text: &str) -> (n: usize)
    ensures
        n == byte_count(text@),
{
    text.as_bytes().len()
}

/// Whether this is the longest beginning of a text that has no more than so many bytes.
pub open spec fn is_preview(preview: Seq<char>, text: Seq<char>, max_bytes: nat) -> bool {
    &&& preview.len() <= text.len()
    &&& preview == text.take(preview.len() as int)
    &&& byte_count(preview) <= max_bytes
    &&& forall|n: int|
        preview.len() < n <= text.len() ==> byte_count(#[trigger] text.take(n)) > max_bytes
}

/// The bytes of two texts that follow each other are those of the first and those of the second, and
/// the place between them is one between characters.
proof fn lemma_bytes_of_two(first: Seq<char>, second: Seq<char>)
    ensures
        encode_utf8(first + second) == encode_utf8(first) + encode_utf8(second),
        is_char_boundary(encode_utf8(first + second), encode_utf8(first).len() as int),
    decreases first.len(),
{
    let whole = first + second;
    encode_utf8_valid_utf8(whole);
    if first.len() == 0 {
        assert(whole =~= second);
        assert(encode_utf8(first) + encode_utf8(second) =~= encode_utf8(second));
    } else {
        let rest = first.drop_first();
        lemma_bytes_of_two(rest, second);
        assert(whole.drop_first() =~= rest + second);
        encode_utf8_first_scalar(whole);
        assert(pop_first_scalar(encode_utf8(whole)) =~= encode_utf8(rest + second));
        assert(encode_utf8(whole) =~= encode_utf8(first) + encode_utf8(second));
    }
}

/// Every character takes a byte.
proof fn lemma_bytes_are_enough(text: Seq<char>)
    ensures
        text.len() > 0 ==> encode_utf8(text).len() > 0,
{
    if text.len() > 0 {
        encode_utf8_first_scalar(text);
    }
}

/// A text is preceded by nothing but what is cut off before a place between characters.
proof fn lemma_cut(text: Seq<char>, end: int, first: Seq<char>)
    requires
        is_char_boundary(encode_utf8(text), end),
        0 <= end <= encode_utf8(text).len(),
        encode_utf8(first) == encode_utf8(text).subrange(0, end),
    ensures
        first.len() <= text.len(),
        first == text.take(first.len() as int),
{
    let bytes = encode_utf8(text);
    encode_utf8_valid_utf8(text);
    decode_utf8_split(bytes, end);
    encode_utf8_decode_utf8(text);
    encode_utf8_decode_utf8(first);
    assert(text.take(first.len() as int) =~= first);
}

/// The longest beginning of a text that has no more than so many bytes.
pub fn bounded_utf8_preview(value: &str, max_bytes: usize) -> (preview: String)
    ensures
        is_preview(preview@, value@, max_bytes as nat),
{
    let n: usize = byte_len(value);
    let mut end: usize = if n < max_bytes {
        n
    } else {
        max_bytes
    };
    let ghost bytes = encode_utf8(value@);
    let ghost most = end as int;
    proof {
        encode_utf8_valid_utf8(value@);
        is_char_boundary_start_end_of_seq(bytes);
    }
    while !value.is_char_boundary(end)
        invariant
            bytes == encode_utf8(value@),
            valid_utf8(bytes),
            is_char_boundary(bytes, 0),
            end <= most <= bytes.len(),
            forall|e: int| end < e <= most ==> !#[trigger] is_char_boundary(bytes, e),
        decreases end,
    {
        end = end - 1;
    }
    let (first, _) = value.split_at(end);
    proof {
        lemma_cut(value@, end as int, first@);
        assert forall|m: int| first@.len() < m <= value@.len() implies byte_count(
            #[trigger] value@.take(m),
        ) > max_bytes by {
            let longer = value@.take(m);
            let added = longer.skip(first@.len() as int);
            assert(longer =~= first@ + added);
            lemma_bytes_of_two(first@, added);
            lemma_bytes_are_enough(added);
            assert(value@ =~= longer + value@.skip(m));
            lemma_bytes_of_two(longer, value@.skip(m));
            assert(is_char_boundary(bytes, encode_utf8(longer).len() as int));
        }
    }
    first.to_owned()
}

/// No answer came in time.
pub open spec fn late_request(method: Seq<char>) -> ErrorView {
    ErrorView::Timeout("Codex JSON-RPC request "@ + method + " timed out"@)
}

/// What came of a request. Nothing came where the time is over.
pub open spec fn answered<T>(reply: Option<Result<T, ErrorView>>, late: ErrorView) -> Result<
    T,
    ErrorView,
> {
    match reply {
        Some(result) => result,
        None => Err(late),
    }
}

/// What came of a request, with the failure's message as characters.
pub open spec fn reply_view(reply: Option<Result<Json, HarnessError>>) -> Option<
    Result<crate::json::JsonTree, ErrorView>,
> {
    match reply {
        Some(result) => Some(outcome_view(result)),
        None => None,
    }
}

/// What came of a message that asks for no answer, with the failure's message as characters.
pub open spec fn sent_view(sent: Option<Result<(), HarnessError>>) -> Option<
    Result<(), ErrorView>,
> {
    match sent {
        Some(result) => Some(outcome(result)),
        None => None,
    }
}

/// The answer to a request, or why there is none. Nothing came where the time is over.
pub fn codex_request(method: &str, reply: Option<Result<Json, HarnessError>>) -> (result: Result<
    Json,
    HarnessError,
>)
    ensures
        outcome_view(result) == answered(reply_view(reply), late_request(method@)),
{
    match reply {
        Some(result) => result,
        None => Err(
            HarnessError::Timeout(concat3("Codex JSON-RPC request ", method, " timed out")),
        ),
    }
}

/// The answer to a request that names a thread, or why there is none. Nothing came where the time is
/// over, be it for the answer or for what is done with the thread that it names.
pub fn codex_request_with_hook(method: &str, reply: Option<Result<Json, HarnessError>>) -> (result:
    Result<Json, HarnessError>)
    ensures
        outcome_view(result) == answered(
            reply_view(reply),
            ErrorView::Timeout(
                "Codex JSON-RPC request or identity activation "@ + method@ + " timed out"@,
            ),
        ),
{
    match reply {
        Some(result) => result,
        None => Err(
            HarnessError::Timeout(
                concat3(
                    "Codex JSON-RPC request or identity activation ",
                    method,
                    " timed out",
                ),
            ),
        ),
    }
}

/// What came of an answer to a request of the app-server.
pub fn codex_respond_json(id: &RequestId, sent: Option<Result<(), HarnessError>>) -> (result: Result<
    (),
    HarnessError,
>)
    ensures
        outcome(result) == answered(
            sent_view(sent),
            ErrorView::Timeout("Codex JSON-RPC response "@ + id.chars() + " timed out"@),
        ),
{
    match sent {
        Some(result) => result,
        None => {
            let id = request_id_to_string(id);
            Err(
                HarnessError::Timeout(
                    concat3("Codex JSON-RPC response ", id.as_str(), " timed out"),
                ),
            )
        },
    }
}

/// What came of a refusal of a request of the app-server.
pub fn codex_respond_error_json(id: &RequestId, sent: Option<Result<(), HarnessError>>) -> (result:
    Result<(), HarnessError>)
    ensures
        outcome(result) == answered(
            sent_view(sent),
            ErrorView::Timeout("Codex JSON-RPC error response "@ + id.chars() + " timed out"@),
        ),
{
    match sent {
        Some(result) => result,
        None => {
            let id = request_id_to_string(id);
            Err(
                HarnessError::Timeout(
                    concat3("Codex JSON-RPC error response ", id.as_str(), " timed out"),
                ),
            )
        },
    }
}

/// How long the app-server has to end, in nanoseconds.
pub const CODEX_SHUTDOWN_NS: u64 = 10_000_000_000;

/// Until when work is cleaned up and until when the app-server has to end, in nanoseconds of the
/// clock. The end of the app-server has a part of the time to itself; where that part would begin
/// before the clock did, nothing is cleaned up.
pub fn codex_shutdown_deadlines(started: u64, reserve: u64) -> (deadlines: (u64, u64))
    requires
        started + CODEX_SHUTDOWN_NS <= u64::MAX,
    ensures
        deadlines.1 == started + CODEX_SHUTDOWN_NS,
        deadlines.0 == if reserve <= deadlines.1 {
            deadlines.1 - reserve
        } else {
            started as int
        },
{
    let deadline: u64 = started + CODEX_SHUTDOWN_NS;
    let cleanup: u64 = match deadline.checked_sub(reserve) {
        Some(cleanup) => cleanup,
        None => started,
    };
    (cleanup, deadline)
}

/// What the beginning of a text shows is determined by the text.
pub proof fn law_preview_is_determined(
    preview: Seq<char>,
    other: Seq<char>,
    text: Seq<char>,
    max_bytes: nat,
)
    requires
        is_preview(preview, text, max_bytes),
        is_preview(other, text, max_bytes),
    ensures
        preview == other,
{
    if preview.len() < other.len() {
        assert(byte_count(text.take(other.len() as int)) > max_bytes);
    }
    if other.len() < preview.len() {
        assert(byte_count(text.take(preview.len() as int)) > max_bytes);
    }
}

/// A text that is short enough is shown whole.
pub proof fn law_short_text_is_shown_whole(text: Seq<char>, max_bytes: nat)
    requires
        byte_count(text) <= max_bytes,
    ensures
        is_preview(text, text, max_bytes),
{
    assert(text.take(text.len() as int) =~= text);
}

} // verus!
