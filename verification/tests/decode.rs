//! Lines and answers of the app-server, from their text on.

use giskard_harness_codex::answers::{
    login_url, model_page, opening_answer, server_page, turn_start_name, user_agent,
};
use giskard_harness_codex::decode::{decode_message, decode_notification, decode_request};
use giskard_harness_codex::error::HarnessError;
use giskard_harness_codex::json::{to_json_text, Json};
use giskard_harness_codex::protocol::{Notification, OtherNotification};
use giskard_harness_codex::transport::{read_line, InboxItem, ReadStep};
use giskard_harness_codex::wire_notifications::read_notification;

fn read(line: &str) -> ReadStep {
    read_line(Ok(line.as_bytes().to_vec()))
}

/// What a line brings, and all of a notification as it was read.
fn decoded(line: &str) -> (ReadStep, Json) {
    match read(line) {
        ReadStep::Decode { id, method, params, line } => decode_message(id, method, params, line),
        other => panic!("expected a message, got {other:?}"),
    }
}

/// What a notification or a request is read as, in the words of `Debug`.
fn message(line: &str) -> String {
    match decoded(line).0 {
        ReadStep::Append(InboxItem::Message(message)) => format!("{message:?}"),
        other => panic!("expected a message, got {other:?}"),
    }
}

fn notified(method: &str, params: &str) -> String {
    let shown = message(&format!("{{\"method\":\"{method}\",\"params\":{params}}}"));
    shown.strip_prefix("Notification(").and_then(|rest| rest.strip_suffix(")")).unwrap().to_owned()
}

fn item(item: &str) -> String {
    let params = format!("{{\"item\":{item},\"startedAtMs\":5,\"threadId\":\"t\",\"turnId\":\"u\"}}");
    let shown = notified("item/started", &params);
    shown
        .strip_prefix("ItemStarted { item: ")
        .and_then(|rest| rest.strip_suffix(", started_at_ms: 5, thread_id: \"t\", turn_id: \"u\" }"))
        .unwrap()
        .to_owned()
}

fn asked(method: &str, params: &str) -> String {
    let shown = message(&format!("{{\"id\":7,\"method\":\"{method}\",\"params\":{params}}}"));
    shown
        .strip_prefix("Request { id: Integer(7), request: ")
        .and_then(|rest| rest.strip_suffix(" }"))
        .unwrap()
        .to_owned()
}

/// A value, as an answer brings it.
fn value(json: &str) -> Json {
    match read(&format!("{{\"id\":1,\"result\":{json}}}")) {
        ReadStep::Deliver { result: Ok(value), .. } => value,
        other => panic!("expected an answer, got {other:?}"),
    }
}

#[test]
fn lines_are_read_as_the_messages_that_they_hold() {
    assert_eq!(
        format!("{:?}", read("{\"id\":\"a\",\"result\":{\"b\":[1,-2.5,null,true],\"a\":\"x\"}}\r\n")),
        "Deliver { id: String(\"a\"), result: Ok(Object([(\"a\", Text(\"x\")), (\"b\", Array([\
         Number(\"1\"), Number(\"-2.5\"), Null, Bool(true)]))])) }"
    );
    assert_eq!(
        format!("{:?}", read("{\"id\":3,\"error\":{\"code\":-32600,\"message\":\"no\"}}\n")),
        "Deliver { id: Integer(3), result: Err(Transport(\"JSON-RPC error (-32600): no\")) }"
    );
    assert_eq!(
        format!("{:?}", read("{\"method\":\"m\",\"params\":{}}")),
        "Decode { id: None, method: \"m\", params: Some(Object([])), \
         line: \"{\\\"method\\\":\\\"m\\\",\\\"params\\\":{}}\" }"
    );
    match read("{\"id\":4,\"method\":\"m\"}\n") {
        ReadStep::Decode { id: Some(id), method, params: None, line } => {
            assert_eq!(format!("{id:?}"), "Integer(4)");
            assert_eq!((method.as_str(), line.as_str()), ("m", "{\"id\":4,\"method\":\"m\"}"));
        }
        other => panic!("expected a request, got {other:?}"),
    }
}

#[test]
fn lines_that_hold_no_message_are_noise_or_the_end() {
    match read("warming up\n") {
        ReadStep::Append(InboxItem::NonJson { parse_error, raw_preview, raw_bytes }) => {
            assert_eq!(parse_error, "expected value at line 1 column 1");
            assert_eq!((raw_preview.as_str(), raw_bytes), ("warming up", 10));
        }
        other => panic!("expected noise, got {other:?}"),
    }
    match read("{\"method\":\n") {
        ReadStep::End { item: InboxItem::Fatal(words), told } => {
            assert_eq!(told, "Codex stream contained malformed JSON-RPC");
            assert_eq!(
                words,
                "Codex JSON-RPC deserialization error for method unknown: EOF while parsing a \
                 value at line 1 column 10 (raw_bytes: 10, raw_preview: \"{\\\"method\\\":\")"
            );
        }
        other => panic!("expected the end, got {other:?}"),
    }
    assert!(matches!(read("{}"), ReadStep::End { .. }));
    assert!(matches!(read(" \n"), ReadStep::Skip));
    assert!(matches!(read(""), ReadStep::End { item: InboxItem::Eof, .. }));
    assert!(matches!(read_line(Err("gone".to_owned())), ReadStep::End { .. }));
}

#[test]
fn notifications_are_read_by_their_method() {
    let cases = [
        (
            "turn/started",
            "{\"threadId\":\"t\",\"turn\":{\"id\":\"u\",\"status\":\"inProgress\"}}",
            "TurnStarted { thread_id: \"t\", turn_id: \"u\" }",
        ),
        (
            "turn/completed",
            "{\"threadId\":\"t\",\"turn\":{\"id\":\"u\",\"status\":\"interrupted\"}}",
            "TurnCompleted { thread_id: \"t\", turn_id: \"u\", status: Interrupted }",
        ),
        (
            "thread/tokenUsage/updated",
            "{\"threadId\":\"t\",\"turnId\":\"u\",\"tokenUsage\":{\"last\":{\"inputTokens\":1,\
             \"outputTokens\":2,\"totalTokens\":-3},\"total\":{},\"modelContextWindow\":9}}",
            "ThreadTokenUsageUpdated { thread_id: \"t\", turn_id: \"u\", last: TokenUsageBreakdown \
             { input_tokens: 1, output_tokens: 2, total_tokens: -3 }, model_context_window: \
             Some(9) }",
        ),
        (
            "item/fileChange/patchUpdated",
            "{\"threadId\":\"t\",\"turnId\":\"u\",\"itemId\":\"i\",\"changes\":[{\"path\":\"a\",\
             \"kind\":{\"type\":\"update\",\"move_path\":\"b\"},\"diff\":\"d\"},{\"path\":\"c\",\
             \"kind\":{\"type\":\"delete\"},\"diff\":\"\"}]}",
            "FileChangePatchUpdated { thread_id: \"t\", turn_id: \"u\", item_id: \"i\", changes: [\
             FileUpdateChange { path: \"a\", kind: Update, diff: \"d\" }, FileUpdateChange { path: \
             \"c\", kind: Delete, diff: \"\" }] }",
        ),
        (
            "turn/diff/updated",
            "{\"threadId\":\"t\",\"turnId\":\"u\",\"diff\":\"d\"}",
            "TurnDiffUpdated { thread_id: \"t\", turn_id: \"u\", diff: \"d\" }",
        ),
        (
            "error",
            "{\"threadId\":\"t\",\"turnId\":\"u\",\"willRetry\":true,\"error\":{\"message\":\"m\",\
             \"additionalDetails\":\"d\",\"codexErrorInfo\":{\"responseStreamDisconnected\":\
             {\"httpStatusCode\":503}}}}",
            "Error { thread_id: \"t\", turn_id: \"u\", error: TurnError { message: \"m\", \
             additional_details: Some(\"d\"), codex_error_info: Some(CodexErrorInfo { wire: \
             Some(Object([(\"responseStreamDisconnected\", Object([(\"httpStatusCode\", \
             Number(\"503\"))]))])), connection: true, http_status_code: Some(503) }) }, \
             will_retry: true }",
        ),
        (
            "error",
            "{\"threadId\":\"t\",\"turnId\":\"u\",\"error\":{\"message\":\"m\",\
             \"codexErrorInfo\":\"badRequest\"}}",
            "Error { thread_id: \"t\", turn_id: \"u\", error: TurnError { message: \"m\", \
             additional_details: None, codex_error_info: Some(CodexErrorInfo { wire: \
             Some(Text(\"badRequest\")), connection: false, http_status_code: None }) }, \
             will_retry: false }",
        ),
        (
            "turn/plan/updated",
            "{\"threadId\":\"t\",\"turnId\":\"u\",\"plan\":[{\"step\":\"s\",\
             \"status\":\"pending\"}]}",
            "TurnPlanUpdated { thread_id: \"t\", turn_id: \"u\", explanation: None, plan: [PlanStep \
             { status: Some(Text(\"pending\")), step: \"s\" }], raw: Some(Array([Object([(\
             \"status\", Text(\"pending\")), (\"step\", Text(\"s\"))])])) }",
        ),
        (
            "thread/compacted",
            "{\"threadId\":\"t\",\"turnId\":\"u\"}",
            "ContextCompacted { thread_id: \"t\", turn_id: \"u\", raw: Some(Object([(\"threadId\", \
             Text(\"t\")), (\"turnId\", Text(\"u\"))])) }",
        ),
        (
            "warning",
            "{\"message\":\"m\"}",
            "Warning { thread_id: None, message: \"m\" }",
        ),
        (
            "configWarning",
            "{\"summary\":\"s\",\"details\":\"d\"}",
            "ConfigWarning { summary: \"s\", details: Some(\"d\") }",
        ),
        (
            "guardianWarning",
            "{\"threadId\":\"t\",\"message\":\"m\"}",
            "GuardianWarning { thread_id: \"t\", message: \"m\" }",
        ),
        (
            "deprecationNotice",
            "{\"summary\":\"s\"}",
            "DeprecationNotice { summary: \"s\", details: None }",
        ),
        (
            "thread/status/changed",
            "{\"threadId\":\"t\",\"status\":{\"type\":\"notLoaded\"}}",
            "ThreadStatusChanged { thread_id: \"t\", loaded: false }",
        ),
        (
            "thread/status/changed",
            "{\"threadId\":\"t\",\"status\":{\"type\":\"idle\"}}",
            "ThreadStatusChanged { thread_id: \"t\", loaded: true }",
        ),
        (
            "future/thing",
            "{\"x\":1}",
            "Unknown { method: \"future/thing\", params: Some(Object([(\"x\", Number(\"1\"))])) }",
        ),
    ];
    for (method, params, expected) in cases {
        assert_eq!(notified(method, params), expected);
    }
    let rerouted = notified(
        "model/rerouted",
        "{\"threadId\":\"t\",\"turnId\":\"u\",\"fromModel\":\"a\",\"toModel\":\"b\",\
         \"reason\":\"highRiskCyberActivity\"}",
    );
    assert!(rerouted.starts_with(
        "ModelRerouted { thread_id: \"t\", turn_id: \"u\", from_model: \"a\", to_model: \"b\", raw: \
         Some(Object("
    ));
}

#[test]
fn pieces_of_text_keep_their_place() {
    let cases = [
        ("item/agentMessage/delta", "delta", "AgentMessageDelta"),
        ("item/commandExecution/outputDelta", "delta", "CmdOutputDelta"),
        ("item/fileChange/outputDelta", "delta", "FileChangeOutputDelta"),
        ("item/reasoning/summaryTextDelta", "delta", "ReasoningDelta"),
        ("item/reasoning/textDelta", "delta", "ReasoningTextDelta"),
        ("item/plan/delta", "delta", "PlanDelta"),
        ("item/mcpToolCall/progress", "message", "McpToolCallProgress"),
    ];
    for (method, key, name) in cases {
        let params = format!(
            "{{\"threadId\":\"t\",\"turnId\":\"u\",\"itemId\":\"i\",\"{key}\":\"words\"}}"
        );
        assert_eq!(
            notified(method, &params),
            format!(
                "{name}(TextDelta {{ thread_id: \"t\", turn_id: \"u\", item_id: \"i\", delta: \
                 \"words\" }})"
            )
        );
    }
}

#[test]
fn silent_notifications_keep_the_thread_that_they_name() {
    let kinds = [
        ("thread/archived", OtherNotification::ThreadArchived),
        ("thread/closed", OtherNotification::ThreadClosed),
        ("thread/deleted", OtherNotification::ThreadDeleted),
        ("thread/unarchived", OtherNotification::ThreadUnarchived),
        ("thread/goal/cleared", OtherNotification::ThreadGoalCleared),
        ("thread/name/updated", OtherNotification::ThreadNameUpdated),
        ("item/reasoning/summaryPartAdded", OtherNotification::ReasoningSummaryPartAdded),
        ("item/commandExecution/terminalInteraction", OtherNotification::TerminalInteraction),
        ("thread/realtime/closed", OtherNotification::ThreadRealtimeClosed),
    ];
    for (method, kind) in kinds {
        assert_eq!(
            notified(method, "{\"threadId\":\"t\"}"),
            format!("Other {{ kind: {kind:?}, thread_id: Some(\"t\") }}")
        );
    }
    assert_eq!(
        notified("thread/started", "{\"thread\":{\"id\":\"t\"}}"),
        "Other { kind: ThreadStarted, thread_id: Some(\"t\") }"
    );
    assert_eq!(
        notified("skills/changed", "{}"),
        "Other { kind: SkillsChanged, thread_id: None }"
    );
}

#[test]
fn every_silent_method_is_one_that_the_bindings_know() {
    let methods = [
        "account/login/completed",
        "account/rateLimits/updated",
        "account/updated",
        "app/list/updated",
        "autoApprovalReview/strictReviewRequired",
        "command/exec/outputDelta",
        "externalAgentConfig/import/completed",
        "externalAgentConfig/import/progress",
        "fs/changed",
        "fuzzyFileSearch/sessionCompleted",
        "fuzzyFileSearch/sessionUpdated",
        "hook/completed",
        "hook/started",
        "item/autoApprovalReview/completed",
        "item/autoApprovalReview/started",
        "item/commandExecution/terminalInteraction",
        "item/reasoning/summaryPartAdded",
        "mcpServer/event/stream/notification",
        "mcpServer/oauthLogin/completed",
        "mcpServer/startupStatus/updated",
        "model/safetyBuffering/updated",
        "model/verification",
        "modelProvider/authRecoveryCompleted",
        "modelProvider/authRecoveryStarted",
        "process/exited",
        "process/outputDelta",
        "project/changed",
        "remoteControl/status/changed",
        "serverRequest/resolved",
        "skills/changed",
        "thread/archived",
        "thread/closed",
        "thread/deleted",
        "thread/environment/connected",
        "thread/environment/disconnected",
        "thread/goal/cleared",
        "thread/goal/updated",
        "thread/name/updated",
        "thread/project/updated",
        "thread/queue/changed",
        "thread/realtime/closed",
        "thread/realtime/error",
        "thread/realtime/item/completed",
        "thread/realtime/item/started",
        "thread/realtime/item/transcript/delta",
        "thread/realtime/itemAdded",
        "thread/realtime/outputAudio/delta",
        "thread/realtime/sdp",
        "thread/realtime/started",
        "thread/realtime/transcript/delta",
        "thread/realtime/transcript/done",
        "thread/reverted",
        "thread/settings/updated",
        "thread/started",
        "thread/unarchived",
        "turn/moderationMetadata",
        "windows/worldWritableWarning",
        "windowsSandbox/setupCompleted",
    ];
    let mut kinds = Vec::new();
    for method in methods {
        match read_notification(method, &Json::Null) {
            Notification::Other { kind, thread_id: None } => {
                assert!(!kinds.contains(&kind));
                kinds.push(kind);
            }
            other => panic!("expected a silent notification, got {other:?}"),
        }
        match codex_codes::Notification::from_envelope(method, None) {
            Ok(read) => assert!(!read.is_unknown()),
            Err(_) => {}
        }
    }
    assert_eq!(kinds.len(), 58);
}

#[test]
fn items_are_read_by_their_kind() {
    let cases = [
        (
            "{\"type\":\"userMessage\",\"id\":\"i\",\"content\":[{\"type\":\"text\",\"text\":\"a\"},\
             {\"type\":\"image\",\"url\":\"x\"}]}",
            "UserMessage { id: \"i\", content: [Text(\"a\"), Other] }",
        ),
        (
            "{\"type\":\"hookPrompt\",\"id\":\"i\",\"fragments\":[{\"hookRunId\":\"h\",\
             \"text\":\"a\"}]}",
            "HookPrompt { id: \"i\", fragments: [\"a\"], raw: Some(Array([Object([(\"hookRunId\", \
             Text(\"h\")), (\"text\", Text(\"a\"))])])) }",
        ),
        (
            "{\"type\":\"agentMessage\",\"id\":\"i\",\"text\":\"a\"}",
            "AgentMessage { id: \"i\", text: \"a\" }",
        ),
        ("{\"type\":\"plan\",\"id\":\"i\",\"text\":\"a\"}", "Plan { id: \"i\", text: \"a\" }"),
        (
            "{\"type\":\"reasoning\",\"id\":\"i\",\"summary\":[\"a\",\"b\"]}",
            "Reasoning { id: \"i\", content: None, summary: Some([\"a\", \"b\"]) }",
        ),
        (
            "{\"type\":\"commandExecution\",\"id\":\"i\",\"command\":\"ls\",\"commandActions\":[],\
             \"cwd\":\"/w\",\"processId\":\"9\",\"status\":\"declined\",\"aggregatedOutput\":\"o\",\
             \"exitCode\":-1,\"durationMs\":12}",
            "CommandExecution { id: \"i\", command: \"ls\", cwd: Text(\"/w\"), process_id: \
             Some(\"9\"), status: Declined, aggregated_output: Some(\"o\"), exit_code: Some(-1), \
             duration_ms: Some(12) }",
        ),
        (
            "{\"type\":\"fileChange\",\"id\":\"i\",\"changes\":[{\"path\":\"a\",\"kind\":{\
             \"type\":\"add\"},\"diff\":\"d\"}],\"status\":\"completed\"}",
            "FileChange { id: \"i\", changes: [FileUpdateChange { path: \"a\", kind: Add, diff: \
             \"d\" }], status: Some(Text(\"completed\")) }",
        ),
        (
            "{\"type\":\"mcpToolCall\",\"id\":\"i\",\"server\":\"s\",\"tool\":\"t\",\"arguments\":{\
             \"a\":1},\"error\":{\"message\":\"m\"},\"status\":\"failed\"}",
            "McpToolCall { id: \"i\", server: \"s\", tool: \"t\", arguments: Object([(\"a\", \
             Number(\"1\"))]), result: None, error: Some(\"m\"), status: Failed }",
        ),
        (
            "{\"type\":\"mcpToolCall\",\"id\":\"i\",\"server\":\"s\",\"tool\":\"t\",\
             \"arguments\":null,\"result\":{\"content\":[1]},\"status\":\"completed\"}",
            "McpToolCall { id: \"i\", server: \"s\", tool: \"t\", arguments: Null, result: \
             Some(Object([(\"content\", Array([Number(\"1\")]))])), error: None, status: Completed }",
        ),
        (
            "{\"type\":\"dynamicToolCall\",\"id\":\"i\",\"tool\":\"t\",\"arguments\":{},\
             \"contentItems\":[{\"type\":\"inputText\",\"text\":\"a\"}],\"status\":\"inProgress\",\
             \"namespace\":\"n\",\"success\":false}",
            "DynamicToolCall { id: \"i\", tool: \"t\", arguments: Object([]), content_items: \
             Some(Array([Object([(\"text\", Text(\"a\")), (\"type\", Text(\"inputText\"))])])), \
             status: InProgress, namespace: Some(\"n\"), success: Some(false) }",
        ),
        (
            "{\"type\":\"collabAgentToolCall\",\"id\":\"i\",\"agentsStates\":{},\
             \"receiverThreadIds\":[],\"senderThreadId\":\"s\",\"status\":\"completed\",\
             \"tool\":\"spawnAgent\",\"prompt\":\"p\"}",
            "CollabAgentToolCall { id: \"i\", tool: Text(\"spawnAgent\"), status: \
             Text(\"completed\"), prompt: Some(\"p\"), model: None }",
        ),
        (
            "{\"type\":\"webSearch\",\"id\":\"i\",\"query\":\"q\",\"action\":{\"type\":\"search\",\
             \"query\":\"q\"}}",
            "WebSearch { id: \"i\", query: \"q\", action: Some(Object([(\"query\", Text(\"q\")), \
             (\"type\", Text(\"search\"))])) }",
        ),
        (
            "{\"type\":\"imageView\",\"id\":\"i\",\"path\":\"/p\"}",
            "ImageView { id: \"i\", path: \"/p\", raw: Some(Object([(\"id\", Text(\"i\")), (\
             \"path\", Text(\"/p\")), (\"type\", Text(\"imageView\"))])) }",
        ),
        (
            "{\"type\":\"sleep\",\"id\":\"i\",\"durationMs\":3}",
            "Sleep { id: \"i\", duration_ms: 3, raw: Some(Object([(\"durationMs\", Number(\"3\")), \
             (\"id\", Text(\"i\")), (\"type\", Text(\"sleep\"))])) }",
        ),
        (
            "{\"type\":\"enteredReviewMode\",\"id\":\"i\",\"review\":\"r\"}",
            "EnteredReviewMode { id: \"i\", review: \"r\" }",
        ),
        (
            "{\"type\":\"exitedReviewMode\",\"id\":\"i\",\"review\":\"r\"}",
            "ExitedReviewMode { id: \"i\", review: \"r\" }",
        ),
        (
            "{\"type\":\"contextCompaction\",\"id\":\"i\"}",
            "ContextCompaction { id: \"i\", raw: Some(Object([(\"id\", Text(\"i\")), (\"type\", \
             Text(\"contextCompaction\"))])) }",
        ),
    ];
    for (came, expected) in cases {
        assert_eq!(item(came), expected);
    }
    assert!(item(
        "{\"type\":\"subAgentActivity\",\"id\":\"i\",\"agentPath\":\"a\",\"agentThreadId\":\"b\",\
         \"kind\":\"started\"}"
    )
    .starts_with(
        "SubAgentActivity { id: \"i\", agent_path: \"a\", agent_thread_id: \"b\", kind: \
         Some(Text(\"started\")), raw: Some(Object("
    ));
    assert!(item(
        "{\"type\":\"imageGeneration\",\"id\":\"i\",\"status\":\"completed\",\"result\":\"r\",\
         \"revisedPrompt\":\"p\",\"savedPath\":\"/s\"}"
    )
    .starts_with(
        "ImageGeneration { id: \"i\", status: \"completed\", result: \"r\", revised_prompt: \
         Some(\"p\"), saved_path: Some(\"/s\"), raw: Some(Object("
    ));
    let shown = notified(
        "item/completed",
        "{\"item\":{\"type\":\"plan\",\"id\":\"i\",\"text\":\"a\"},\"completedAtMs\":6,\
         \"threadId\":\"t\",\"turnId\":\"u\"}",
    );
    assert_eq!(
        shown,
        "ItemCompleted { item: Plan { id: \"i\", text: \"a\" }, completed_at_ms: 6, thread_id: \
         \"t\", turn_id: \"u\" }"
    );
}

#[test]
fn an_item_without_a_place_in_a_turn_is_unknown() {
    let shown = notified(
        "item/completed",
        "{\"item\":{\"type\":\"functionCallOutput\",\"id\":\"i\",\"name\":\"n\",\"output\":\"o\"},\
         \"completedAtMs\":6,\"threadId\":\"t\",\"turnId\":\"u\"}",
    );
    assert!(shown.starts_with("Unknown { method: \"item/completed\", params: Some(Object("));
}

#[test]
fn a_notification_is_kept_whole_beside_what_was_read() {
    let (_, envelope) = decoded("{\"method\":\"future/thing\",\"params\":{\"threadId\":\"t\"}}");
    assert_eq!(
        to_json_text(&envelope),
        "{\"method\":\"future/thing\",\"params\":{\"threadId\":\"t\"}}"
    );
    let (_, envelope) = decoded("{\"method\":\"turn/diff/updated\",\"params\":{\"diff\":\"d\"}}");
    assert_eq!(
        to_json_text(&envelope),
        "{\"method\":\"turn/diff/updated\",\"params\":{\"diff\":\"d\",\"threadId\":\"\",\
         \"turnId\":\"\"}}"
    );
    let read = decode_notification("future/thing", &None).unwrap();
    assert_eq!(to_json_text(&read.envelope), "{\"method\":\"future/thing\"}");
    let (_, envelope) = decoded("{\"id\":1,\"method\":\"future/thing\",\"params\":{}}");
    assert!(matches!(envelope, Json::Null));
}

#[test]
fn messages_that_do_not_fit_their_method_end_the_stream() {
    let line = "{\"method\":\"turn/started\",\"params\":{\"threadId\":\"t\"}}";
    match decoded(line).0 {
        ReadStep::End { item: InboxItem::Fatal(words), told } => {
            assert_eq!(told, "Codex notification decode failed");
            assert!(words.starts_with(
                "Codex JSON-RPC deserialization error for method turn/started: missing field \
                 `turn` (raw_bytes: 51, raw_preview: \""
            ));
        }
        other => panic!("expected the end, got {other:?}"),
    }
    match decoded("{\"id\":1,\"method\":\"execCommandApproval\",\"params\":{}}").0 {
        ReadStep::End { told, .. } => assert_eq!(told, "Codex request decode failed"),
        other => panic!("expected the end, got {other:?}"),
    }
    assert_eq!(
        decode_request("execCommandApproval", Some(Json::Object(vec![]))).unwrap_err(),
        "missing field `conversationId`"
    );
}

#[test]
fn requests_are_read_by_their_method() {
    let cases = [
        (
            "item/commandExecution/requestApproval",
            "{\"threadId\":\"t\",\"turnId\":\"u\",\"itemId\":\"i\",\"command\":\"ls\",\
             \"commandActions\":[{\"type\":\"read\",\"command\":\"c\",\"name\":\"n\",\"path\":\"p\"},\
             {\"type\":\"listFiles\",\"command\":\"c\"},{\"type\":\"search\",\"command\":\"c\",\
             \"path\":\"p\",\"query\":\"q\"},{\"type\":\"unknown\",\"command\":\"c\"}],\
             \"cwd\":\"/w\",\"reason\":\"r\",\"environmentId\":\"e\",\"networkApprovalContext\":{\
             \"host\":\"h\",\"protocol\":\"https\"},\"proposedExecpolicyAmendment\":[\"a\"],\
             \"proposedNetworkPolicyAmendments\":[{\"action\":\"deny\",\"host\":\"h\"}]}",
            "CmdExecApproval(CommandApprovalParams { thread_id: \"t\", turn_id: \"u\", command: \
             Some(\"ls\"), command_actions: Some([Read { command: \"c\", name: \"n\", path: PathRef \
             { path: \"p\", source_link: false } }, ListFiles { command: \"c\", path: None }, Search \
             { command: \"c\", path: Some(PathRef { path: \"p\", source_link: false }), query: \
             Some(\"q\") }, Unknown { command: \"c\" }]), cwd: Some(\"/w\"), reason: Some(\"r\"), \
             environment_id: Some(\"e\"), network_approval_context: Some(NetworkContext { host: \
             \"h\", protocol: Some(Text(\"https\")) }), proposed_execpolicy_amendment: Some([\"a\"]), \
             proposed_network_policy_amendments: Some([NetworkAmendment { action: \
             Some(Text(\"deny\")), host: \"h\" }]) })",
        ),
        (
            "item/fileChange/requestApproval",
            "{\"threadId\":\"t\",\"turnId\":\"u\",\"grantRoot\":\"/g\",\"reason\":\"r\"}",
            "FileChangeApproval(FileChangeApprovalParams { thread_id: \"t\", turn_id: \"u\", \
             grant_root: Some(\"/g\"), reason: Some(\"r\") })",
        ),
        (
            "item/permissions/requestApproval",
            "{\"threadId\":\"t\",\"turnId\":\"u\",\"cwd\":\"/w\",\"permissions\":{\"fileSystem\":{\
             \"entries\":[{\"access\":\"read\",\"path\":{\"type\":\"path\",\"path\":\"/p\"}},{\
             \"access\":\"write\",\"path\":{\"type\":\"glob_pattern\",\"pattern\":\"*\"}},{\
             \"access\":\"deny\",\"path\":{\"type\":\"special\",\"value\":{\"kind\":\"root\"}}}],\
             \"read\":[\"/r\"],\"globScanMaxDepth\":4},\"network\":{\"enabled\":true}}}",
            "PermissionsRequestApproval(PermissionsApprovalParams { thread_id: \"t\", turn_id: \
             \"u\", cwd: \"/w\", reason: None, environment_id: None, file_system: \
             Some(FileSystemPermissions { entries: Some([FileSystemEntry { access: \
             Some(Text(\"read\")), path: Path(PathRef { path: \"/p\", source_link: false }) }, \
             FileSystemEntry { access: Some(Text(\"write\")), path: GlobPattern(\"*\") }, \
             FileSystemEntry { access: Some(Text(\"deny\")), path: Special(Some(Object([(\"kind\", \
             Text(\"root\"))]))) }]), read: Some([PathRef { path: \"/r\", source_link: false }]), \
             write: None, glob_scan_max_depth: Some(4) }), network_enabled: Some(true), permissions: \
             Object([(\"fileSystem\", Object([(\"entries\", Array([Object([(\"access\", \
             Text(\"read\")), (\"path\", Object([(\"path\", Text(\"/p\")), (\"type\", \
             Text(\"path\"))]))]), Object([(\"access\", Text(\"write\")), (\"path\", \
             Object([(\"pattern\", Text(\"*\")), (\"type\", Text(\"glob_pattern\"))]))]), \
             Object([(\"access\", Text(\"deny\")), (\"path\", Object([(\"type\", \
             Text(\"special\")), (\"value\", Object([(\"kind\", Text(\"root\"))]))]))])])), \
             (\"globScanMaxDepth\", Number(\"4\")), (\"read\", Array([Text(\"/r\")]))])), \
             (\"network\", Object([(\"enabled\", Bool(true))]))]) })",
        ),
        (
            "execCommandApproval",
            "{\"conversationId\":\"c\",\"command\":[\"a\",\"b\"],\"cwd\":\"/w\",\"callId\":\"k\",\
             \"approvalId\":\"x\",\"parsedCmd\":[{\"type\":\"read\",\"cmd\":\"c\",\"name\":\"n\",\
             \"path\":\"p\"},{\"type\":\"list_files\",\"cmd\":\"l\",\"path\":\"p\"},{\
             \"type\":\"unknown\",\"cmd\":\"z\"}]}",
            "ExecCommandApproval(ExecCommandApprovalParams { conversation_id: Text(\"c\"), command: \
             [\"a\", \"b\"], cwd: \"/w\", reason: None, approval_id: Some(\"x\"), parsed_cmd: [Read \
             { command: \"c\", name: \"n\", path: PathRef { path: \"p\", source_link: false } }, \
             ListFiles { command: \"l\", path: Some(PathRef { path: \"p\", source_link: false }) }, \
             Unknown { command: \"z\" }] })",
        ),
        (
            "applyPatchApproval",
            "{\"conversationId\":\"c\",\"callId\":\"k\",\"fileChanges\":{\"b\":{\"type\":\"update\",\
             \"move_path\":\"d\",\"unified_diff\":\"x\"},\"a\":{\"type\":\"add\",\"content\":\"\"},\
             \"c\":{\"type\":\"delete\",\"content\":\"\"}},\"grantRoot\":\"/g\"}",
            "ApplyPatchApproval(ApplyPatchApprovalParams { conversation_id: Text(\"c\"), \
             file_changes: [LegacyFileChange { path: PathRef { path: \"a\", source_link: false }, \
             kind: Add, move_path: None }, LegacyFileChange { path: PathRef { path: \"b\", \
             source_link: false }, kind: Update, move_path: Some(PathRef { path: \"d\", source_link: \
             false }) }, LegacyFileChange { path: PathRef { path: \"c\", source_link: false }, kind: \
             Delete, move_path: None }], grant_root: Some(\"/g\"), reason: None })",
        ),
        (
            "item/tool/call",
            "{\"threadId\":\"t\",\"turnId\":\"u\",\"tool\":\"x\",\"callId\":\"k\",\"arguments\":{}}",
            "ItemToolCall(ScopedParams { thread_id: \"t\", turn_id: \"u\", params: Object([(\
             \"arguments\", Object([])), (\"callId\", Text(\"k\")), (\"threadId\", Text(\"t\")), \
             (\"tool\", Text(\"x\")), (\"turnId\", Text(\"u\"))]) })",
        ),
        (
            "mcpServer/elicitation/request",
            "{\"mode\":\"openai/form\",\"message\":\"m\",\"requestedSchema\":{}}",
            "McpServerElicitationRequest(Object([(\"message\", Text(\"m\")), (\"mode\", \
             Text(\"openai/form\")), (\"requestedSchema\", Object([]))]))",
        ),
        (
            "account/chatgptAuthTokens/refresh",
            "{\"reason\":\"unauthorized\",\"x\":1}",
            "ChatgptAuthTokensRefresh(Object([(\"reason\", Text(\"unauthorized\"))]))",
        ),
        ("attestation/generate", "{}", "AttestationGenerate(Object([]))"),
        (
            "future/request",
            "{\"x\":1}",
            "Unknown { method: \"future/request\", params: Some(Object([(\"x\", Number(\"1\"))])) }",
        ),
    ];
    for (method, params, expected) in cases {
        assert_eq!(asked(method, params), expected);
    }
    assert!(asked("item/tool/requestUserInput", "{\"threadId\":\"t\",\"turnId\":\"u\"}")
        .starts_with("ToolRequestUserInput(ScopedParams { thread_id: \"t\", turn_id: \"u\", params: "));
    assert_eq!(
        format!("{:?}", decode_request("future/request", None)),
        "Ok(Unknown { method: \"future/request\", params: None })"
    );
}

fn opening(id: &str) -> Json {
    value(&format!(
        "{{\"approvalPolicy\":\"never\",\"cwd\":\"/w\",\"model\":\"m\",\"modelProvider\":\"p\",\
         \"reasoningEffort\":\"high\",\"thread\":{{\"id\":\"{id}\",\"agentNickname\":\"n\"}}}}"
    ))
}

#[test]
fn a_thread_that_was_opened_is_told_of() {
    assert_eq!(
        format!("{:?}", opening_answer(true, &opening("t"))),
        "Ok(OpenResponse { harness_thread_id: \"t\", model: \"m\", model_provider: \"p\", \
         reasoning_effort: Some(\"high\"), agent_nickname: Some(\"n\"), parent_thread_id: None })"
    );
    assert_eq!(
        format!("{:?}", opening_answer(false, &opening("t"))),
        "Ok(OpenResponse { harness_thread_id: \"t\", model: \"m\", model_provider: \"p\", \
         reasoning_effort: None, agent_nickname: Some(\"n\"), parent_thread_id: None })"
    );
    for resumed in [true, false] {
        match opening_answer(resumed, &Json::Object(vec![])) {
            Err(HarnessError::Protocol(m)) => assert_eq!(m, "missing field `approvalPolicy`"),
            other => panic!("expected a refusal, got {other:?}"),
        }
    }
}

#[test]
fn short_answers_are_read() {
    let started = value("{\"turn\":{\"id\":\"u\",\"status\":\"inProgress\"}}");
    assert_eq!(turn_start_name(&started).unwrap(), "u");
    match turn_start_name(&value("{}")) {
        Err(HarnessError::Protocol(m)) => assert_eq!(m, "missing field `turn`"),
        other => panic!("expected a refusal, got {other:?}"),
    }
    assert_eq!(login_url(&value("{\"authorizationUrl\":\"https://x\"}")).unwrap(), "https://x");
    assert!(matches!(login_url(&value("[1]")), Err(HarnessError::Protocol(_))));
    assert_eq!(user_agent(&value("{\"userAgent\":\"codex/1.2.3\"}")).unwrap(), "codex/1.2.3");
    assert!(matches!(user_agent(&value("3")), Err(HarnessError::Spawn(_))));
}

#[test]
fn pages_of_models_are_read() {
    let page = value(
        "{\"data\":[{\"id\":\"i\",\"model\":\"m\",\"displayName\":\"d\",\"hidden\":true,\
         \"isDefault\":true,\"defaultReasoningEffort\":\"low\",\"supportedReasoningEfforts\":[{\
         \"reasoningEffort\":\"low\",\"description\":\"x\"},{\"reasoningEffort\":\"high\"}]}],\
         \"nextCursor\":\"c\"}",
    );
    assert_eq!(
        format!("{:?}", model_page(&page)),
        "Ok(ModelPage { models: [NativeModel { id: \"i\", model: \"m\", display_name: \"d\", hidden: \
         true, is_default: true, default_reasoning_effort: \"low\", supported_reasoning_efforts: \
         [\"low\", \"high\"] }], next_cursor: Some(\"c\") })"
    );
    assert!(matches!(model_page(&value("{\"data\":[{}]}")), Err(HarnessError::Protocol(_))));
}

#[test]
fn pages_of_servers_are_read() {
    let page = value(
        "{\"data\":[{\"name\":\"s\",\"authStatus\":\"bearerToken\",\"serverInfo\":{\"name\":\"n\",\
         \"version\":\"1\",\"websiteUrl\":\"w\"},\"tools\":{\"k\":{\"name\":\"t\",\"inputSchema\":{},\
         \"description\":\"d\"}},\"resources\":[{\"name\":\"r\",\"uri\":\"u\",\"size\":7}],\
         \"resourceTemplates\":[{\"name\":\"x\",\"uriTemplate\":\"y\",\"mimeType\":\"z\"}]},\
         {\"name\":\"o\",\"authStatus\":\"oAuth\"}]}",
    );
    assert_eq!(
        format!("{:?}", server_page(&page)),
        "Ok(ServerPage { servers: [NativeServerStatus { name: \"s\", auth_status: BearerToken, \
         server_info: Some(NativeServerInfo { name: \"n\", title: None, description: None, version: \
         \"1\", website_url: Some(\"w\") }), tools: [(\"k\", McpTool { name: \"t\", title: None, \
         description: Some(\"d\"), input_schema: Object([]), output_schema: None })], resources: \
         [McpResource { name: \"r\", uri: \"u\", title: None, description: None, mime_type: None, \
         size: Some(7) }], resource_templates: [McpResourceTemplate { name: \"x\", uri_template: \
         \"y\", title: None, description: None, mime_type: Some(\"z\") }] }, NativeServerStatus { \
         name: \"o\", auth_status: OAuth, server_info: None, tools: [], resources: [], \
         resource_templates: [] }], next_cursor: None })"
    );
    assert!(matches!(server_page(&value("{\"data\":[{}]}")), Err(HarnessError::Protocol(_))));
}
