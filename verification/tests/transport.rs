//! The connection to an app-server.

use giskard_harness_codex::error::HarnessError;
use giskard_harness_codex::frames::{
    error_frame, notification_frame, response_frame, serialize_line, single_line, stderr_line,
    strip_ansi, trim_line_ending, StderrLevel,
};
use giskard_harness_codex::ids::RequestId;
use giskard_harness_codex::json::{to_json_text, Json};
use giskard_harness_codex::protocol::{Notification, ServerMessage};
use giskard_harness_codex::rpc::{
    bounded_utf8_preview, byte_len, codex_request, codex_request_with_hook,
    codex_respond_error_json, codex_respond_json, codex_shutdown_deadlines, CodexStreamError,
    NON_JSON_STDOUT_PREVIEW_BYTES,
};
use giskard_harness_codex::transport::{
    early_frame, lock_mutex, next_message, respond_error_json, respond_json, send_notification,
    take_envelope, take_line, take_message, transport_closed, Envelope, EventStreamError, FrameState,
    InboxItem, ReadStep, Waiters, CODEX_INBOX_RETAIN_LIMIT, CODEX_MAX_FRAME_BYTES,
};

fn s(text: &str) -> String {
    text.to_owned()
}

fn message_of(error: HarnessError) -> String {
    match error {
        HarnessError::Transport(m) => m,
        other => panic!("expected a transport failure, got {other:?}"),
    }
}

fn empty() -> Json {
    Json::Object(vec![])
}

fn unknown(method: &str) -> ServerMessage {
    ServerMessage::Notification(Notification::Unknown { method: s(method), params: None })
}

#[test]
fn stderr_ansi_stripping_preserves_unicode() {
    assert_eq!(strip_ansi("\u{1b}[32mréussi\u{1b}[0m"), "réussi");
}

#[test]
fn control_sequences_end_with_the_first_other_character() {
    assert_eq!(strip_ansi("a\u{1b}[1;31mb\u{1b}[Kc"), "abc");
    assert_eq!(strip_ansi("tail\u{1b}[12;"), "tail");
    assert_eq!(strip_ansi("\u{1b}x [y"), "\u{1b}x [y");
    assert_eq!(strip_ansi(""), "");
}

#[test]
fn stderr_lines_matter_by_the_word_in_them() {
    assert_eq!(stderr_line("\u{1b}[31mx ERROR y\u{1b}[0m\r\n"), (StderrLevel::Error, s("x ERROR y")));
    assert_eq!(stderr_line("x WARN y\n").0, StderrLevel::Warn);
    assert_eq!(stderr_line("x DEBUG y\n\n").0, StderrLevel::Debug);
    assert_eq!(stderr_line("x ERRORy\n"), (StderrLevel::Trace, s("x ERRORy")));
}

#[test]
fn line_endings_are_taken_away_once() {
    for (given, expected) in
        [("a\n", "a"), ("a\r\n", "a"), ("a", "a"), ("a\r", "a\r"), ("a\n\n", "a\n"), ("\n", ""), ("", "")]
    {
        let mut line = s(given);
        trim_line_ending(&mut line);
        assert_eq!(line, expected);
    }
}

#[test]
fn previews_end_between_characters() {
    assert_eq!(bounded_utf8_preview("héllo", 2), "h");
    assert_eq!(bounded_utf8_preview("héllo", 3), "hé");
    assert_eq!(bounded_utf8_preview("héllo", 0), "");
    assert_eq!(bounded_utf8_preview("héllo", 100), "héllo");
    assert_eq!(bounded_utf8_preview("𝄞x", 3), "");
    assert_eq!(byte_len("é𝄞x"), 7);
    let long = format!("{}é", "x".repeat(NON_JSON_STDOUT_PREVIEW_BYTES - 1));
    assert_eq!(
        bounded_utf8_preview(&long, NON_JSON_STDOUT_PREVIEW_BYTES).len(),
        NON_JSON_STDOUT_PREVIEW_BYTES - 1
    );
}

#[test]
fn frames_have_the_shape_of_the_protocol() {
    let id = RequestId::Integer(7);
    let result = response_frame(&id, Json::Bool(true));
    assert_eq!(to_json_text(&result), "{\"id\":7,\"result\":true}");
    let named = RequestId::String(s("a\"b"));
    assert_eq!(
        to_json_text(&error_frame(&named, -32000, "no")),
        "{\"error\":{\"code\":-32000,\"message\":\"no\"},\"id\":\"a\\\"b\"}"
    );
    assert_eq!(to_json_text(&notification_frame("initialized")), "{\"method\":\"initialized\"}");
    let decoded: codex_codes::jsonrpc::JsonRpcMessage =
        serde_json::from_str(&to_json_text(&result)).unwrap();
    assert!(matches!(decoded, codex_codes::jsonrpc::JsonRpcMessage::Response(_)));
}

#[test]
fn frames_are_single_lines() {
    let text = response_frame(&RequestId::Integer(1), Json::Text(s("a\nb\rc")));
    assert_eq!(serialize_line(&text).unwrap(), "{\"id\":1,\"result\":\"a\\nb\\rc\"}");
    assert_eq!(single_line(s("{\"id\":1}")).unwrap(), "{\"id\":1}");
    match single_line(s("{\n}")) {
        Err(HarnessError::Protocol(m)) => {
            assert_eq!(m, "raw app-server frame contains an embedded line break")
        }
        other => panic!("expected a refusal, got {other:?}"),
    }
}

#[test]
fn requests_are_numbered_from_one_and_answered_once() {
    let mut waiters = Waiters::new();
    let first = waiters.begin("initialize", empty(), true).unwrap();
    assert!(matches!(first.id, RequestId::Integer(1)));
    assert_eq!(first.line, "{\"id\":1,\"method\":\"initialize\",\"params\":{}}");
    assert_eq!(first.description, "request initialize id 1");
    let second = waiters.begin("thread/start", empty(), true).unwrap();
    assert!(matches!(second.id, RequestId::Integer(2)));
    assert!(waiters.deliver_response(&first.id));
    assert!(!waiters.deliver_response(&first.id));
    assert!(!waiters.deliver_response(&RequestId::String(s("2"))));
    assert_eq!(waiters.fail_all().len(), 1);
    assert!(!waiters.deliver_response(&second.id));
}

#[test]
fn a_late_response_is_logged_exactly_once() {
    let mut waiters = Waiters::new();
    let mut logged = Vec::new();
    if !waiters.deliver_response(&RequestId::Integer(7)) {
        logged.push("dropping Codex response without a pending request request_id=7");
    }
    assert_eq!(logged.len(), 1);
    assert!(waiters.fail_all().is_empty());
}

#[test]
fn abandoned_requests_tell_how_far_they_came() {
    let mut waiters = Waiters::new();
    let unqueued = waiters.begin("a", empty(), true).unwrap().id;
    let queued = waiters.begin("b", empty(), true).unwrap().id;
    let written = waiters.begin("c", empty(), true).unwrap().id;
    waiters.queued(&queued);
    assert!(waiters.wrote(Some(&written), &Ok(())));
    waiters.queued(&written);
    assert_eq!(waiters.abandon(&unqueued), Some(FrameState::Unqueued));
    assert_eq!(waiters.abandon(&queued), Some(FrameState::Queued));
    assert_eq!(waiters.abandon(&written), Some(FrameState::Written));
    assert_eq!(waiters.abandon(&written), None);
    assert!(!waiters.wrote(None, &Err(transport_closed())));
}

#[test]
fn requests_that_cannot_be_made_do_not_wait() {
    let mut waiters = Waiters::new();
    assert_eq!(
        message_of(waiters.begin("a", empty(), false).unwrap_err()),
        "Codex transport closed"
    );
    assert!(waiters.fail_all().is_empty());
    let second = waiters.begin("a", empty(), true).unwrap();
    assert!(matches!(second.id, RequestId::Integer(2)));
    assert_eq!(message_of(waiters.finish(&second.id, None).unwrap_err()), "Codex transport closed");
    assert!(waiters.fail_all().is_empty());
    assert!(waiters.finish(&second.id, Some(Ok(Json::Null))).is_ok());
}

fn ended(step: ReadStep) -> (String, String) {
    match step {
        ReadStep::End { item: InboxItem::Fatal(fatal), told } => (fatal, told),
        other => panic!("expected the end, got {other:?}"),
    }
}

#[test]
fn the_end_of_the_stream_is_told_to_who_waits() {
    match take_line(Ok(vec![])) {
        ReadStep::End { item: InboxItem::Eof, told } => assert_eq!(told, "Codex stream closed"),
        other => panic!("expected the end, got {other:?}"),
    }
    assert_eq!(
        ended(take_line(Err(s("broken pipe")))),
        (s("failed to read Codex stdout: broken pipe"), s("Codex stream read failed"))
    );
}

#[test]
fn an_oversized_line_is_fatal_and_one_at_the_limit_is_not() {
    let mut frame = vec![b'x'; CODEX_MAX_FRAME_BYTES];
    frame.push(b'\n');
    assert_eq!(
        ended(take_line(Ok(frame))),
        (
            format!("Codex stdout frame exceeded {CODEX_MAX_FRAME_BYTES} bytes"),
            s("Codex stream produced an oversized frame")
        )
    );
    let mut frame = vec![b'x'; 4096];
    frame.push(b'\n');
    assert!(matches!(take_line(Ok(frame)), ReadStep::Parse(line) if line.len() == 4096));
    assert_eq!(CODEX_INBOX_RETAIN_LIMIT, 65_536);
}

#[test]
fn bytes_are_read_as_text_whatever_they_are() {
    assert!(matches!(take_line(Ok(b"   \r\n".to_vec())), ReadStep::Skip));
    match take_line(Ok(vec![b'a', 0xff, b'\n'])) {
        ReadStep::Parse(line) => assert_eq!(line, "a\u{fffd}"),
        other => panic!("expected a line, got {other:?}"),
    }
    match take_line(Ok("réussi\n".as_bytes().to_vec())) {
        ReadStep::Parse(line) => assert_eq!(line, "réussi"),
        other => panic!("expected a line, got {other:?}"),
    }
}

#[test]
fn noise_is_skipped_and_broken_objects_are_fatal() {
    match take_envelope(s("warming up é"), Err(s("expected value"))) {
        ReadStep::Append(InboxItem::NonJson { parse_error, raw_preview, raw_bytes }) => {
            assert_eq!(parse_error, "expected value");
            assert_eq!(raw_preview, "warming up é");
            assert_eq!(raw_bytes, 13);
        }
        other => panic!("expected noise, got {other:?}"),
    }
    assert_eq!(
        ended(take_envelope(s("  {\"method\":"), Err(s("EOF")))),
        (
            s("Codex JSON-RPC deserialization error for method unknown: EOF (raw_bytes: 12, raw_preview: \"  {\\\"method\\\":\")"),
            s("Codex stream contained malformed JSON-RPC")
        )
    );
}

#[test]
fn answers_go_to_their_requests_and_messages_are_decoded() {
    match take_envelope(
        s("x"),
        Ok(Envelope::Response { id: RequestId::Integer(1), result: Json::Bool(true) }),
    ) {
        ReadStep::Deliver { id: RequestId::Integer(1), result: Ok(Json::Bool(true)) } => {}
        other => panic!("expected an answer, got {other:?}"),
    }
    match take_envelope(
        s("x"),
        Ok(Envelope::Error { id: RequestId::Integer(1), code: -32600, message: s("bad") }),
    ) {
        ReadStep::Deliver { result: Err(error), .. } => {
            assert_eq!(message_of(error), "JSON-RPC error (-32600): bad")
        }
        other => panic!("expected an answer, got {other:?}"),
    }
    assert!(matches!(
        take_envelope(s("x"), Ok(Envelope::Notification { method: s("m"), params: None })),
        ReadStep::Decode { id: None, .. }
    ));
    assert!(matches!(
        take_envelope(
            s("x"),
            Ok(Envelope::Request { id: RequestId::Integer(3), method: s("m"), params: None })
        ),
        ReadStep::Decode { id: Some(RequestId::Integer(3)), .. }
    ));
    assert!(matches!(
        take_message("m", "x", false, Ok(unknown("m"))),
        ReadStep::Append(InboxItem::Message(_))
    ));
    assert_eq!(
        ended(take_message("m", "x", false, Err(s("missing field")))),
        (
            s("Codex JSON-RPC deserialization error for method m: missing field (raw_bytes: 1, raw_preview: \"x\")"),
            s("Codex notification decode failed")
        )
    );
    assert_eq!(ended(take_message("m", "x", true, Err(s("e")))).1, "Codex request decode failed");
}

#[test]
fn the_inbox_hands_out_messages_then_nothing() {
    assert!(matches!(next_message(Ok(InboxItem::Message(unknown("m")))), Ok(Some(_))));
    assert!(matches!(next_message(Ok(InboxItem::Eof)), Ok(None)));
    assert!(matches!(next_message(Err(EventStreamError::Closed)), Ok(None)));
    match next_message(Err(EventStreamError::Gap { dropped: 3 })) {
        Err(CodexStreamError::Fatal(error)) => {
            assert_eq!(message_of(error), "Codex inbox overflowed; 3 frames dropped")
        }
        other => panic!("expected fatal overflow, got {other:?}"),
    }
    match next_message(Ok(InboxItem::Fatal(s("gone")))) {
        Err(CodexStreamError::Fatal(error)) => assert_eq!(message_of(error), "gone"),
        other => panic!("expected a failure, got {other:?}"),
    }
    assert!(matches!(
        next_message(Ok(InboxItem::NonJson { parse_error: s("e"), raw_preview: s("p"), raw_bytes: 1 })),
        Err(CodexStreamError::NonJsonStdout { raw_bytes: 1, .. })
    ));
}

#[test]
fn messages_before_the_first_answer_are_failures() {
    match early_frame(Ok(Some(unknown("m")))) {
        HarnessError::Protocol(m) => {
            assert_eq!(m, "Codex emitted a production frame before initialize completed")
        }
        other => panic!("unexpected {other:?}"),
    }
    assert_eq!(
        message_of(early_frame(Ok(None))),
        "Codex stdout closed before initialize completed"
    );
    assert_eq!(
        message_of(early_frame(Err(CodexStreamError::NonJsonStdout {
            parse_error: s("e"),
            raw_preview: s(""),
            raw_bytes: 0
        }))),
        "Codex wrote non-JSON stdout before initialize completed: e"
    );
    assert_eq!(message_of(early_frame(Err(CodexStreamError::Fatal(transport_closed())))), "Codex transport closed");
}

fn timeout_of(error: HarnessError) -> String {
    match error {
        HarnessError::Timeout(m) => m,
        other => panic!("expected a timeout, got {other:?}"),
    }
}

#[test]
fn requests_without_an_answer_time_out_by_name() {
    assert_eq!(
        timeout_of(codex_request("thread/start", None).unwrap_err()),
        "Codex JSON-RPC request thread/start timed out"
    );
    assert_eq!(
        timeout_of(codex_request_with_hook("thread/start", None).unwrap_err()),
        "Codex JSON-RPC request or identity activation thread/start timed out"
    );
    let id = RequestId::String(s("r1"));
    assert_eq!(
        timeout_of(codex_respond_json(&id, None).unwrap_err()),
        "Codex JSON-RPC response r1 timed out"
    );
    assert_eq!(
        timeout_of(codex_respond_error_json(&RequestId::Integer(4), None).unwrap_err()),
        "Codex JSON-RPC error response 4 timed out"
    );
    assert!(codex_respond_json(&id, Some(Ok(()))).is_ok());
    assert!(codex_request("m", Some(Ok(Json::Null))).is_ok());
    assert!(codex_request_with_hook("m", Some(Err(transport_closed()))).is_err());
    assert!(codex_respond_error_json(&id, Some(Err(transport_closed()))).is_err());
}

#[test]
fn answers_and_notices_are_lines_with_descriptions() {
    let id = RequestId::Integer(9);
    let sent = respond_json(&id, Json::Null, true).unwrap();
    assert_eq!((sent.line.as_str(), sent.description.as_str()), ("{\"id\":9,\"result\":null}", "response id 9"));
    let sent = respond_error_json(&id, -1, "no", true).unwrap();
    assert_eq!(sent.description, "error response id 9");
    let sent = send_notification("initialized", true).unwrap();
    assert_eq!((sent.line.as_str(), sent.description.as_str()), ("{\"method\":\"initialized\"}", "notification initialized"));
    assert_eq!(message_of(send_notification("x", false).unwrap_err()), "Codex transport closed");
}

#[test]
fn shutdown_leaves_time_for_the_end() {
    assert_eq!(codex_shutdown_deadlines(5, 2_000_000_000), (8_000_000_005, 10_000_000_005));
    assert_eq!(codex_shutdown_deadlines(5, u64::MAX), (5, 10_000_000_005));
    assert_eq!(lock_mutex::<u8>(Ok(1)), 1);
    assert_eq!(lock_mutex::<u8>(Err(2)), 2);
}
