//! What the messages of an app-server become.

use giskard_harness_codex::approval::ApprovalResponse;
use giskard_harness_codex::error::HarnessError;
use giskard_harness_codex::event::{
    AgentEvent, ApprovalDecision, ApprovalKind, ApprovalMetadata, FileChangeKind, ItemDelta, ItemKind,
    ItemPayload,
};
use giskard_harness_codex::ids::{ItemId, RequestId, ThreadId, TurnId};
use giskard_harness_codex::json::{to_json_text, Json};
use giskard_harness_codex::mapper::CodexMapper;
use giskard_harness_codex::modes::{
    map_mode_to_collaboration_mode, map_mode_to_sandbox, Mode, SandboxPolicy,
};
use giskard_harness_codex::protocol::{
    ApplyPatchApprovalParams, CodexErrorInfo, CommandAction, CommandApprovalParams,
    CommandExecutionStatus, ExecCommandApprovalParams, FileChangeApprovalParams, FileSystemEntry,
    FileSystemPath, FileSystemPermissions, FileUpdateChange, LegacyFileChange, NativeTurnStatus,
    NetworkAmendment, NetworkContext, Notification, PatchChangeKind, PathRef,
    PermissionsApprovalParams, ScopedParams, ServerRequest, TextDelta, ThreadItem,
    TokenUsageBreakdown, ToolCallStatus, TurnError,
};
use giskard_harness_codex::turn_error::fatal_turn_error;

fn of_value(value: serde_json::Value) -> Json {
    match value {
        serde_json::Value::Null => Json::Null,
        serde_json::Value::Bool(b) => Json::Bool(b),
        serde_json::Value::Number(n) => Json::Number(n.to_string()),
        serde_json::Value::String(s) => Json::Text(s),
        serde_json::Value::Array(items) => Json::Array(items.into_iter().map(of_value).collect()),
        serde_json::Value::Object(entries) => {
            Json::Object(entries.into_iter().map(|(k, v)| (k, of_value(v))).collect())
        }
    }
}

fn json(text: &str) -> Json {
    of_value(serde_json::from_str(text).unwrap())
}

fn value(json: &Json) -> serde_json::Value {
    serde_json::from_str(&to_json_text(json)).unwrap()
}

fn s(text: &str) -> String {
    text.to_owned()
}

fn mapper() -> CodexMapper {
    CodexMapper::new(s("/tmp"))
}

fn map(mapper: &mut CodexMapper, notification: &Notification, fallback: ThreadId) -> Option<AgentEvent> {
    mapper.map_notification(notification, fallback, (TurnId(100), ItemId(200)), 9_000)
}

fn ask(mapper: &mut CodexMapper, id: &RequestId, request: &ServerRequest, fallback: ThreadId) -> AgentEvent {
    mapper.map_server_request(id, request, fallback, TurnId(101), 9_001)
}

fn path(text: &str, source_link: bool) -> PathRef {
    PathRef { path: s(text), source_link }
}

fn completed_item(item: ThreadItem) -> Notification {
    Notification::ItemCompleted {
        item,
        completed_at_ms: 1000,
        thread_id: s("th1"),
        turn_id: s("t1"),
    }
}

fn started_item(item: ThreadItem) -> Notification {
    started_item_in_turn(item, "t1")
}

fn started_item_in_turn(item: ThreadItem, turn_id: &str) -> Notification {
    Notification::ItemStarted {
        item,
        started_at_ms: 500,
        thread_id: s("th1"),
        turn_id: s(turn_id),
    }
}

fn turn_started(turn_id: &str) -> Notification {
    Notification::TurnStarted { thread_id: s("th1"), turn_id: s(turn_id) }
}

fn turn_completed(turn_id: &str) -> Notification {
    Notification::TurnCompleted {
        thread_id: s("th1"),
        turn_id: s(turn_id),
        status: NativeTurnStatus::Completed,
    }
}

fn sleep_command(status: CommandExecutionStatus) -> ThreadItem {
    let done = status == CommandExecutionStatus::Failed;
    ThreadItem::CommandExecution {
        id: s("cmd1"),
        command: s("sleep 60"),
        cwd: json("\"/tmp/project\""),
        process_id: Some(s("proc_1")),
        status,
        aggregated_output: if done { Some(s("")) } else { None },
        exit_code: if done { Some(130) } else { None },
        duration_ms: if done { Some(60000) } else { None },
    }
}

fn text_delta(event: AgentEvent) -> String {
    match event {
        AgentEvent::ItemDelta { delta: ItemDelta::Text { text }, .. } => text,
        other => panic!("expected text delta, got {other:?}"),
    }
}

fn delta(item: &str, text: &str) -> TextDelta {
    TextDelta { thread_id: s("th1"), turn_id: s("t1"), item_id: s(item), delta: s(text) }
}

fn metadata_has_host(
    metadata: &[ApprovalMetadata],
    label: &str,
    host: &str,
    protocol: Option<&str>,
) -> bool {
    metadata.iter().any(|item| {
        matches!(
            item,
            ApprovalMetadata::Host { label: got_label, host: got_host, protocol: got_protocol, .. }
                if got_label == label && got_host == host && got_protocol.as_deref() == protocol
        )
    })
}

fn metadata_has_path(metadata: &[ApprovalMetadata], label: &str, path: &str, source_link: bool) -> bool {
    metadata.iter().any(|item| {
        matches!(
            item,
            ApprovalMetadata::Path { label: got_label, path: got_path, source_link: got_link }
                if got_label == label && got_path == path && *got_link == source_link
        )
    })
}

fn metadata_has_text(metadata: &[ApprovalMetadata], label: &str, value: &str) -> bool {
    metadata.iter().any(|item| {
        matches!(
            item,
            ApprovalMetadata::Text { label: got_label, value: got_value }
                if got_label == label && got_value == value
        )
    })
}

fn approval_result_value(response: ApprovalResponse) -> serde_json::Value {
    match response {
        ApprovalResponse::Result { value: answer, .. } => value(&answer),
        ApprovalResponse::Error { code, message, .. } => {
            panic!("expected approval result, got JSON-RPC error {code}: {message}")
        }
    }
}

fn command_params() -> CommandApprovalParams {
    CommandApprovalParams {
        thread_id: s("thread1"),
        turn_id: s("turn1"),
        command: None,
        command_actions: Some(vec![]),
        cwd: Some(s("/tmp/project")),
        reason: None,
        environment_id: None,
        network_approval_context: None,
        proposed_execpolicy_amendment: None,
        proposed_network_policy_amendments: None,
    }
}

fn usage(input: i64, output: i64, total: i64) -> TokenUsageBreakdown {
    TokenUsageBreakdown { input_tokens: input, output_tokens: output, total_tokens: total }
}

#[test]
fn token_usage_attached_on_turn_completed() {
    let mut mapper = mapper();
    let fallback = ThreadId(1);
    let usage_notif = Notification::ThreadTokenUsageUpdated {
        thread_id: s("th1"),
        turn_id: s("t1"),
        last: usage(100, 40, 140),
        model_context_window: None,
    };
    assert!(map(&mut mapper, &usage_notif, fallback).is_none());
    match map(&mut mapper, &turn_completed("t1"), fallback).unwrap() {
        AgentEvent::TurnCompleted { usage, .. } => {
            assert_eq!(usage.input, 100);
            assert_eq!(usage.output, 40);
            assert_eq!(usage.total, 140);
        }
        other => panic!("expected TurnCompleted, got {other:?}"),
    }
}

#[test]
fn file_change_item_preserves_all_changed_paths() {
    let mut mapper = mapper();
    let notif = completed_item(ThreadItem::FileChange {
        id: s("fc1"),
        status: Some(json("\"completed\"")),
        changes: vec![
            FileUpdateChange {
                path: s("src/main.rs"),
                kind: PatchChangeKind::Update,
                diff: s("@@ -1 +1 @@\n-old\n+new"),
            },
            FileUpdateChange { path: s("src/lib.rs"), kind: PatchChangeKind::Add, diff: s("") },
        ],
    });
    match map(&mut mapper, &notif, ThreadId(1)).unwrap() {
        AgentEvent::ItemCompleted { item, .. } => match item.payload {
            ItemPayload::FileChange { path, change, changes, status } => {
                assert_eq!(path, "src/main.rs");
                assert_eq!(change, FileChangeKind::Modified);
                assert_eq!(changes.len(), 2);
                assert_eq!(changes[0].change, FileChangeKind::Modified);
                assert_eq!(changes[1].change, FileChangeKind::Created);
                assert_eq!(status.as_deref(), Some("completed"));
            }
            other => panic!("expected file change, got {other:?}"),
        },
        other => panic!("expected item completion, got {other:?}"),
    }
}

#[test]
fn build_mode_enables_workspace_network_access() {
    match map_mode_to_sandbox(Mode::Build) {
        SandboxPolicy::WorkspaceWrite { network_access, .. } => {
            assert_eq!(network_access, Some(true));
        }
        other => panic!("expected workspace-write sandbox, got {other:?}"),
    }
}

#[test]
fn plan_mode_enables_read_only_network_access() {
    match map_mode_to_sandbox(Mode::Plan) {
        SandboxPolicy::ReadOnly { network_access } => {
            assert_eq!(network_access, Some(true));
        }
        other => panic!("expected read-only sandbox, got {other:?}"),
    }
}

#[test]
fn mode_maps_to_matching_codex_collaboration_mode() {
    assert_eq!(map_mode_to_collaboration_mode(Mode::Plan), "plan");
    assert_eq!(map_mode_to_collaboration_mode(Mode::Build), "default");
}

#[test]
fn permissions_request_maps_to_approval_and_codex_response_shape() {
    let cwd = "/tmp/giskard-approval-metadata-permissions";
    let source_path = "/tmp/giskard-approval-metadata-permissions/src/lib.rs";
    let readme_path = "/tmp/giskard-approval-metadata-permissions/README.md";
    let generated_path = "/tmp/giskard-approval-metadata-permissions/generated.rs";
    let outside_path = "/tmp/giskard-approval-metadata-permissions-outside/secret.rs";
    let mut mapper = CodexMapper::new(s(cwd));
    let request = ServerRequest::PermissionsRequestApproval(PermissionsApprovalParams {
        thread_id: s("thread1"),
        turn_id: s("turn1"),
        cwd: s(cwd),
        reason: Some(s("Need network access")),
        environment_id: None,
        file_system: Some(FileSystemPermissions {
            entries: Some(vec![
                FileSystemEntry {
                    access: Some(json("\"write\"")),
                    path: FileSystemPath::Path(path(source_path, true)),
                },
                FileSystemEntry {
                    access: Some(json("\"read\"")),
                    path: FileSystemPath::GlobPattern(s("src/**/*.rs")),
                },
            ]),
            read: Some(vec![path(readme_path, true), path(outside_path, false)]),
            write: Some(vec![path(generated_path, false)]),
            glob_scan_max_depth: Some(3),
        }),
        network_enabled: Some(true),
        permissions: json(&format!(
            "{{\"fileSystem\":{{\"entries\":[{{\"access\":\"write\",\"path\":{{\"type\":\"path\",\
             \"path\":\"{source_path}\"}}}},{{\"access\":\"read\",\"path\":{{\"type\":\"glob_pattern\",\
             \"pattern\":\"src/**/*.rs\"}}}}],\"read\":[\"{readme_path}\",\"{outside_path}\"],\
             \"write\":[\"{generated_path}\"],\"globScanMaxDepth\":3}},\"network\":{{\"enabled\":true}}}}"
        )),
    });
    let request_id = RequestId::String(s("perm_req"));

    match ask(&mut mapper, &request_id, &request, ThreadId(1)) {
        AgentEvent::ApprovalRequested { request, .. } => {
            assert_eq!(request.id, "perm_req");
            assert!(matches!(request.kind, ApprovalKind::Permission { .. }));
            assert_eq!(request.reason.as_deref(), Some("Need network access"));
            let m = &request.metadata;
            assert!(metadata_has_path(m, "Working directory", cwd, false));
            assert!(metadata_has_path(m, "Filesystem write", source_path, true));
            assert!(metadata_has_text(m, "Filesystem read", "glob: src/**/*.rs"));
            assert!(metadata_has_path(m, "Filesystem read", readme_path, true));
            assert!(metadata_has_path(m, "Filesystem read", outside_path, false));
            assert!(metadata_has_path(m, "Filesystem write", generated_path, false));
            assert!(metadata_has_text(m, "Network access", "enabled"));
            assert!(metadata_has_text(m, "Glob scan max depth", "3"));
        }
        other => panic!("expected permissions approval, got {other:?}"),
    }

    match mapper
        .map_approval_response(&s("perm_req"), &ApprovalDecision::AcceptForSession)
        .unwrap()
    {
        ApprovalResponse::Result { request_id, value: answer } => {
            assert!(matches!(request_id, RequestId::String(id) if id == "perm_req"));
            let answer = value(&answer);
            assert_eq!(answer["permissions"]["network"]["enabled"], true);
            assert_eq!(answer["scope"], "session");
        }
        ApprovalResponse::Error { .. } => panic!("accept should grant requested permissions"),
    }
}

#[test]
fn declined_permissions_request_maps_to_json_rpc_error() {
    let mut mapper = mapper();
    let request = ServerRequest::PermissionsRequestApproval(PermissionsApprovalParams {
        thread_id: s("thread1"),
        turn_id: s("turn1"),
        cwd: s("/tmp/project"),
        reason: None,
        environment_id: None,
        file_system: None,
        network_enabled: Some(true),
        permissions: json("{\"network\":{\"enabled\":true}}"),
    });
    ask(&mut mapper, &RequestId::String(s("perm_req")), &request, ThreadId(1));
    match mapper.map_approval_response(&s("perm_req"), &ApprovalDecision::Decline).unwrap() {
        ApprovalResponse::Error { request_id, code, message } => {
            assert!(matches!(request_id, RequestId::String(id) if id == "perm_req"));
            assert_eq!(code, -32000);
            assert!(message.contains("declined"));
        }
        ApprovalResponse::Result { .. } => panic!("decline should use a JSON-RPC error"),
    }
}

#[test]
fn command_approval_uses_command_actions_for_preview() {
    let cwd = "/tmp/giskard-approval-metadata-command";
    let read_path = "/tmp/giskard-approval-metadata-command/src/lib.rs";
    let search_path = "/tmp/giskard-approval-metadata-command/src";
    let mut mapper = CodexMapper::new(s(cwd));
    let request = ServerRequest::CmdExecApproval(CommandApprovalParams {
        command_actions: Some(vec![
            CommandAction::Search {
                command: s("rg marmeladema tf"),
                path: Some(path(search_path, false)),
                query: Some(s("marmeladema")),
            },
            CommandAction::Read {
                command: s("cat src/lib.rs"),
                name: s("lib.rs"),
                path: path(read_path, true),
            },
        ]),
        cwd: Some(s(cwd)),
        environment_id: Some(s("env_1")),
        network_approval_context: Some(NetworkContext {
            host: s("api.openai.com"),
            protocol: Some(json("\"https\"")),
        }),
        proposed_execpolicy_amendment: Some(vec![s("rg marmeladema tf")]),
        proposed_network_policy_amendments: Some(vec![NetworkAmendment {
            action: Some(json("\"allow\"")),
            host: s("api.openai.com"),
        }]),
        ..command_params()
    });
    match ask(&mut mapper, &RequestId::String(s("cmd_req")), &request, ThreadId(1)) {
        AgentEvent::ApprovalRequested { request, .. } => match request.kind {
            ApprovalKind::CommandExecution { command, .. } => {
                assert_eq!(command, "rg marmeladema tf");
                let m = &request.metadata;
                assert!(metadata_has_text(m, "Environment", "env_1"));
                assert!(metadata_has_host(m, "Network host", "api.openai.com", Some("https")));
                assert!(metadata_has_host(m, "Proposed network allow", "api.openai.com", None));
                assert!(metadata_has_text(m, "Proposed exec policy", "rg marmeladema tf"));
                assert!(metadata_has_path(m, "Search path", search_path, false));
                assert!(metadata_has_path(m, "Read path", read_path, true));
                assert!(metadata_has_text(m, "Search query", "marmeladema"));
            }
            other => panic!("expected command approval, got {other:?}"),
        },
        other => panic!("expected command approval event, got {other:?}"),
    }
}

#[test]
fn approval_metadata_skips_empty_values() {
    let mut mapper = mapper();
    let request = ServerRequest::CmdExecApproval(CommandApprovalParams {
        network_approval_context: Some(NetworkContext {
            host: s(""),
            protocol: Some(json("\"https\"")),
        }),
        proposed_execpolicy_amendment: Some(vec![s(""), s("  ")]),
        proposed_network_policy_amendments: Some(vec![NetworkAmendment {
            action: Some(json("\"allow\"")),
            host: s(""),
        }]),
        ..command_params()
    });
    match ask(&mut mapper, &RequestId::String(s("cmd_req")), &request, ThreadId(1)) {
        AgentEvent::ApprovalRequested { request, .. } => {
            assert!(request.metadata.is_empty());
        }
        other => panic!("expected command approval event, got {other:?}"),
    }
}

#[test]
fn command_approval_response_matches_codex_schema() {
    let mut mapper = mapper();
    let request = ServerRequest::CmdExecApproval(command_params());
    ask(&mut mapper, &RequestId::String(s("cmd_req")), &request, ThreadId(1));
    let answer = approval_result_value(
        mapper
            .map_approval_response(
                &s("cmd_req"),
                &ApprovalDecision::AcceptWithExecPolicyAmendment { amendment: vec![s("cargo test")] },
            )
            .unwrap(),
    );
    let decoded: codex_codes::protocol::CommandExecutionRequestApprovalResponse =
        serde_json::from_value(answer).expect("response should match Codex schema");
    assert_eq!(
        decoded.decision,
        codex_codes::protocol::CommandExecutionApprovalDecision::AcceptWithExecpolicyAmendment {
            execpolicy_amendment: vec!["cargo test".into()],
        }
    );
}

#[test]
fn file_change_approval_response_matches_codex_schema() {
    let mut mapper = mapper();
    let request = ServerRequest::FileChangeApproval(FileChangeApprovalParams {
        thread_id: s("thread1"),
        turn_id: s("turn1"),
        grant_root: Some(s("/tmp/project")),
        reason: None,
    });
    match ask(&mut mapper, &RequestId::String(s("file_req")), &request, ThreadId(1)) {
        AgentEvent::ApprovalRequested { request, .. } => match request.kind {
            ApprovalKind::FileChange { path, change } => {
                assert_eq!(path, "/tmp/project");
                assert_eq!(change, FileChangeKind::Modified);
                assert!(metadata_has_path(&request.metadata, "Grant root", "/tmp/project", false));
            }
            other => panic!("expected file-change approval, got {other:?}"),
        },
        other => panic!("expected file-change approval event, got {other:?}"),
    }
    let answer = approval_result_value(
        mapper
            .map_approval_response(&s("file_req"), &ApprovalDecision::AcceptForSession)
            .unwrap(),
    );
    let decoded: codex_codes::protocol::FileChangeRequestApprovalResponse =
        serde_json::from_value(answer).expect("response should match Codex schema");
    assert_eq!(
        decoded.decision,
        codex_codes::protocol::FileChangeApprovalDecision::AcceptForSession
    );
}

#[test]
fn legacy_apply_patch_approval_response_matches_codex_schema() {
    let mut mapper = CodexMapper::new(s("/tmp/giskard-approval-metadata-legacy-patch"));
    let request = ServerRequest::ApplyPatchApproval(ApplyPatchApprovalParams {
        conversation_id: json("\"thread1\""),
        file_changes: vec![
            LegacyFileChange {
                path: path("src/lib.rs", false),
                kind: PatchChangeKind::Add,
                move_path: None,
            },
            LegacyFileChange {
                path: path("src/main.rs", true),
                kind: PatchChangeKind::Update,
                move_path: Some(path("src/bin/main.rs", false)),
            },
        ],
        grant_root: Some(s("/tmp/project")),
        reason: None,
    });
    match ask(&mut mapper, &RequestId::String(s("patch_req")), &request, ThreadId(1)) {
        AgentEvent::ApprovalRequested { request, .. } => {
            let m = &request.metadata;
            assert!(metadata_has_path(m, "Grant root", "/tmp/project", false));
            assert!(metadata_has_path(m, "File created", "src/lib.rs", false));
            assert!(metadata_has_path(m, "File modified", "src/main.rs", true));
            assert!(metadata_has_path(m, "Move target", "src/bin/main.rs", false));
        }
        other => panic!("expected patch approval event, got {other:?}"),
    }
    let answer = approval_result_value(
        mapper
            .map_approval_response(
                &s("patch_req"),
                &ApprovalDecision::AcceptWithExecPolicyAmendment { amendment: vec![s("apply patch")] },
            )
            .unwrap(),
    );
    let decoded: codex_codes::protocol::ApplyPatchApprovalResponse =
        serde_json::from_value(answer).expect("response should match Codex schema");
    assert_eq!(
        decoded.decision,
        codex_codes::protocol::ReviewDecision::ApprovedExecpolicyAmendment {
            proposed_execpolicy_amendment: vec!["apply patch".into()],
        }
    );
}

#[test]
fn unknown_approval_response_id_is_an_error() {
    let mut mapper = mapper();
    let err = mapper
        .map_approval_response(&s("missing"), &ApprovalDecision::Accept)
        .unwrap_err();
    assert!(err.contains("missing"));
}

#[test]
fn dynamic_tool_call_maps_to_pending_server_request() {
    let mut mapper = mapper();
    let fallback = ThreadId(1);
    let request = ServerRequest::ItemToolCall(ScopedParams {
        thread_id: s("thread1"),
        turn_id: s("turn1"),
        params: json(
            "{\"threadId\":\"thread1\",\"turnId\":\"turn1\",\"callId\":\"call1\",\"namespace\":\"cf-mcp\",\"tool\":\"gitlab_get_mr_changes\",\"arguments\":{\"mr_iid\":1534}}",
        ),
    });
    mapper.register_thread(s("thread1"), fallback);
    match ask(&mut mapper, &RequestId::Integer(42), &request, ThreadId(2)) {
        AgentEvent::ServerRequestReceived { thread, turn, request } => {
            assert_eq!(thread, fallback);
            assert!(turn.is_some());
            assert_eq!(request.id, "42");
            assert_eq!(request.method, "item/tool/call");
            let params = value(&request.params);
            assert_eq!(params["tool"], "gitlab_get_mr_changes");
            assert_eq!(params["arguments"]["mr_iid"], 1534);
        }
        other => panic!("expected pending server request, got {other:?}"),
    }
    let pending = mapper.pending_server_request(&s("42")).unwrap();
    assert!(matches!(pending.request_id, RequestId::Integer(42)));
    assert_eq!(pending.thread, fallback);
    assert!(pending.turn.is_some());
    mapper.resolve_server_request(&s("42"));
    assert!(mapper.pending_server_request(&s("42")).is_err());
}

#[test]
fn known_non_approval_server_requests_preserve_method_and_params() {
    let mut mapper = mapper();
    let fallback = ThreadId(1);
    let scoped_thread = ThreadId(2);
    mapper.register_thread(s("thread1"), scoped_thread);
    let cases = vec![
        (
            "tool_user_input",
            ServerRequest::ToolRequestUserInput(ScopedParams {
                thread_id: s("thread1"),
                turn_id: s("turn1"),
                params: json(
                    "{\"itemId\":\"input1\",\"threadId\":\"thread1\",\"turnId\":\"turn1\",\"questions\":[{\"id\":\"confirm\",\"header\":\"Confirm\",\"question\":\"Continue?\"}]}",
                ),
            }),
            "item/tool/requestUserInput",
            Some(scoped_thread),
        ),
        (
            "mcp_elicitation",
            ServerRequest::McpServerElicitationRequest(json(
                "{\"mode\":\"form\",\"message\":\"Need input\",\"requestedSchema\":{\"type\":\"object\",\"properties\":{\"name\":{\"type\":\"string\",\"title\":\"Name\"}}}}",
            )),
            "mcpServer/elicitation/request",
            None,
        ),
        (
            "auth_refresh",
            ServerRequest::ChatgptAuthTokensRefresh(json(
                "{\"reason\":\"unauthorized\",\"previousAccountId\":\"acct_1\"}",
            )),
            "account/chatgptAuthTokens/refresh",
            None,
        ),
        (
            "attestation",
            ServerRequest::AttestationGenerate(json("{}")),
            "attestation/generate",
            None,
        ),
    ];
    for (id, request, method, expected_thread) in cases {
        match ask(&mut mapper, &RequestId::String(s(id)), &request, fallback) {
            AgentEvent::ServerRequestReceived { thread, turn, request } => {
                assert_eq!(request.method, method);
                assert!(request.params.get("serializationError").is_none());
                assert!(mapper.pending_server_request(&request.id).is_ok());
                if let Some(expected_thread) = expected_thread {
                    assert_eq!(thread, expected_thread);
                    assert!(turn.is_some());
                } else {
                    assert_eq!(thread, fallback);
                    assert!(turn.is_none());
                }
            }
            other => panic!("expected pending server request for {method}, got {other:?}"),
        }
    }
}

#[test]
fn unknown_server_request_preserves_method_and_params() {
    let mut mapper = mapper();
    let request = ServerRequest::Unknown {
        method: s("future/request"),
        params: Some(json("{\"answer\":42}")),
    };
    match ask(&mut mapper, &RequestId::String(s("future_req")), &request, ThreadId(1)) {
        AgentEvent::ServerRequestReceived { request, .. } => {
            assert_eq!(request.id, "future_req");
            assert_eq!(request.method, "future/request");
            assert_eq!(value(&request.params)["answer"], 42);
        }
        other => panic!("expected pending server request, got {other:?}"),
    }
}

#[test]
fn unknown_server_request_response_id_is_an_error() {
    let mapper = mapper();
    let err = mapper.pending_server_request(&s("missing")).unwrap_err();
    assert!(err.contains("missing"));
}

#[test]
fn legacy_exec_command_approval_uses_review_decision_shape() {
    let cwd_string = "/tmp/giskard-approval-metadata-legacy-exec";
    let mut mapper = CodexMapper::new(s(cwd_string));
    let request = ServerRequest::ExecCommandApproval(ExecCommandApprovalParams {
        conversation_id: json("\"thread1\""),
        command: vec![s("cargo"), s("test")],
        cwd: s(cwd_string),
        reason: None,
        approval_id: None,
        parsed_cmd: vec![CommandAction::Read {
            command: s("cat src/lib.rs"),
            name: s("lib.rs"),
            path: path("src/lib.rs", true),
        }],
    });
    match ask(&mut mapper, &RequestId::String(s("legacy_cmd")), &request, ThreadId(1)) {
        AgentEvent::ApprovalRequested { request, .. } => match request.kind {
            ApprovalKind::CommandExecution { command, cwd } => {
                assert_eq!(command, "cargo test");
                assert_eq!(cwd, cwd_string);
                assert!(metadata_has_path(&request.metadata, "Read path", "src/lib.rs", true));
                assert!(metadata_has_text(&request.metadata, "Read name", "lib.rs"));
            }
            other => panic!("expected command approval, got {other:?}"),
        },
        other => panic!("expected approval event, got {other:?}"),
    }
    match mapper.map_approval_response(&s("legacy_cmd"), &ApprovalDecision::Decline).unwrap() {
        ApprovalResponse::Result { value: answer, .. } => {
            assert_eq!(value(&answer)["decision"], "denied");
        }
        ApprovalResponse::Error { .. } => {
            panic!("legacy review decisions should use result payloads")
        }
    }
}

#[test]
fn command_item_preserves_running_metadata() {
    let mut mapper = mapper();
    let start = started_item(sleep_command(CommandExecutionStatus::InProgress));
    match map(&mut mapper, &start, ThreadId(1)).unwrap() {
        AgentEvent::ItemStarted { item, .. } => {
            assert_eq!(item.kind, ItemKind::CommandExecution);
            let command = item.command.expect("command metadata");
            assert_eq!(command.command, "sleep 60");
            assert_eq!(command.cwd, "/tmp/project");
            assert_eq!(command.status.as_deref(), Some("in_progress"));
            assert_eq!(command.process_id.as_deref(), Some("proc_1"));
            assert_eq!(command.started_at_ms, Some(500));
        }
        other => panic!("expected command item start, got {other:?}"),
    }
    assert!(mapper.has_running_commands());

    let completed = completed_item(sleep_command(CommandExecutionStatus::Failed));
    match map(&mut mapper, &completed, ThreadId(1)).unwrap() {
        AgentEvent::ItemCompleted { item, .. } => match item.payload {
            ItemPayload::CommandExecution {
                command,
                cwd,
                status,
                process_id,
                exit_code,
                duration_ms,
                ..
            } => {
                assert_eq!(command, "sleep 60");
                assert_eq!(cwd, "/tmp/project");
                assert_eq!(status.as_deref(), Some("failed"));
                assert_eq!(process_id.as_deref(), Some("proc_1"));
                assert_eq!(exit_code, Some(130));
                assert_eq!(duration_ms, Some(60000));
            }
            other => panic!("expected command execution, got {other:?}"),
        },
        other => panic!("expected command item completion, got {other:?}"),
    }
    assert!(!mapper.has_running_commands());
}

#[test]
fn command_process_tracks_native_turn_for_interrupt() {
    let mut mapper = mapper();
    let thread = ThreadId(1);
    assert!(matches!(
        map(&mut mapper, &turn_started("native_turn_1"), thread),
        Some(AgentEvent::TurnStarted { .. })
    ));
    assert_eq!(mapper.active_native_turn_for_thread(thread), Some("native_turn_1"));
    let start = started_item_in_turn(
        sleep_command(CommandExecutionStatus::InProgress),
        "native_turn_1",
    );
    assert!(matches!(map(&mut mapper, &start, thread), Some(AgentEvent::ItemStarted { .. })));
    assert_eq!(mapper.native_turn_for_process(thread, &s("proc_1")), Some("native_turn_1"));
    let completed = completed_item(sleep_command(CommandExecutionStatus::Failed));
    assert!(matches!(
        map(&mut mapper, &completed, thread),
        Some(AgentEvent::ItemCompleted { .. })
    ));
    assert_eq!(mapper.native_turn_for_process(thread, &s("proc_1")), None);
    assert!(matches!(
        map(&mut mapper, &turn_completed("native_turn_1"), thread),
        Some(AgentEvent::TurnCompleted { .. })
    ));
    assert_eq!(mapper.active_native_turn_for_thread(thread), None);
}

#[test]
fn mcp_tool_call_item_preserves_tool_fields() {
    let mut mapper = mapper();
    let notif = completed_item(ThreadItem::McpToolCall {
        id: s("tool1"),
        server: s("cf-tools"),
        tool: s("jira_search"),
        arguments: json("{\"jql\":\"project = ERE\"}"),
        result: None,
        error: Some(s("bad query")),
        status: ToolCallStatus::Failed,
    });
    match map(&mut mapper, &notif, ThreadId(1)).unwrap() {
        AgentEvent::ItemCompleted { item, .. } => match item.payload {
            ItemPayload::ToolCall { name, input, server, status, error, .. } => {
                assert_eq!(name, "jira_search");
                assert_eq!(value(&input)["jql"], "project = ERE");
                assert_eq!(server.as_deref(), Some("cf-tools"));
                assert_eq!(status.as_deref(), Some("failed"));
                assert_eq!(error.as_deref(), Some("bad query"));
            }
            other => panic!("expected tool call, got {other:?}"),
        },
        other => panic!("expected item completion, got {other:?}"),
    }
}

#[test]
fn mcp_tool_call_item_preserves_success_status() {
    let mut mapper = mapper();
    let notif = completed_item(ThreadItem::McpToolCall {
        id: s("tool1"),
        server: s("cf-tools"),
        tool: s("wiki_search"),
        arguments: json("{\"query\":\"text ~ \\\"Giskard\\\"\"}"),
        result: Some(json("{\"content\":[{\"type\":\"text\",\"text\":\"found\"}]}")),
        error: None,
        status: ToolCallStatus::Completed,
    });
    match map(&mut mapper, &notif, ThreadId(1)).unwrap() {
        AgentEvent::ItemCompleted { item, .. } => match item.payload {
            ItemPayload::ToolCall { name, server, status, error, output, .. } => {
                assert_eq!(name, "wiki_search");
                assert_eq!(server.as_deref(), Some("cf-tools"));
                assert_eq!(status.as_deref(), Some("completed"));
                assert_eq!(error, None);
                assert!(output.is_some(), "successful tool result should be kept");
            }
            other => panic!("expected tool call, got {other:?}"),
        },
        other => panic!("expected item completion, got {other:?}"),
    }
}

#[test]
fn mcp_tool_call_started_preserves_pending_tool_metadata() {
    let mut mapper = mapper();
    let notif = started_item(ThreadItem::McpToolCall {
        id: s("tool1"),
        server: s("cf-tools"),
        tool: s("gitlab_get_merge_request"),
        arguments: json(
            "{\"project_path\":\"cloudflare/iac/terraform-github-cloudflare\",\"mr_iid\":1534}",
        ),
        result: None,
        error: None,
        status: ToolCallStatus::InProgress,
    });
    match map(&mut mapper, &notif, ThreadId(1)).unwrap() {
        AgentEvent::ItemStarted { item, .. } => {
            assert_eq!(item.kind, ItemKind::ToolCall);
            let tool = item.tool.expect("tool metadata should be present");
            assert_eq!(tool.name, "gitlab_get_merge_request");
            assert_eq!(tool.server.as_deref(), Some("cf-tools"));
            assert_eq!(tool.status.as_deref(), Some("in_progress"));
            assert_eq!(value(&tool.input)["mr_iid"], 1534);
            assert_eq!(tool.started_at_ms, Some(500));
        }
        other => panic!("expected item start, got {other:?}"),
    }
}

#[test]
fn codex_non_chat_item_maps_to_activity() {
    let mut mapper = mapper();
    let notif = completed_item(ThreadItem::WebSearch {
        id: s("search1"),
        query: s("rust serde"),
        action: Some(json("{\"type\":\"search\",\"query\":\"rust serde\"}")),
    });
    match map(&mut mapper, &notif, ThreadId(1)).unwrap() {
        AgentEvent::ItemCompleted { item, .. } => match item.payload {
            ItemPayload::Activity { title, detail, .. } => {
                assert_eq!(title, "Web search");
                assert_eq!(detail.as_deref(), Some("rust serde"));
            }
            other => panic!("expected activity, got {other:?}"),
        },
        other => panic!("expected item completion, got {other:?}"),
    }
}

#[test]
fn additional_item_deltas_are_mapped() {
    let mut mapper = mapper();
    let fallback = ThreadId(1);
    let plan = Notification::PlanDelta(delta("plan1", "step one"));
    assert_eq!(text_delta(map(&mut mapper, &plan, fallback).unwrap()), "step one");
    let patch = Notification::FileChangePatchUpdated {
        thread_id: s("th1"),
        turn_id: s("t1"),
        item_id: s("fc1"),
        changes: vec![FileUpdateChange {
            path: s("src/main.rs"),
            kind: PatchChangeKind::Delete,
            diff: s(""),
        }],
    };
    assert_eq!(text_delta(map(&mut mapper, &patch, fallback).unwrap()), "deleted src/main.rs");
    let reasoning = Notification::ReasoningTextDelta(delta("r1", "thinking"));
    assert_eq!(text_delta(map(&mut mapper, &reasoning, fallback).unwrap()), "thinking");
    let progress = Notification::McpToolCallProgress(delta("tool1", "running"));
    assert_eq!(text_delta(map(&mut mapper, &progress, fallback).unwrap()), "running");
}

fn error_message(event: AgentEvent) -> String {
    match event {
        AgentEvent::Error { error: HarnessError::Protocol(msg), .. } => msg,
        other => panic!("expected protocol error, got {other:?}"),
    }
}

fn failure(thread: &str, turn: &str, message: &str, info: Option<CodexErrorInfo>, will_retry: bool) -> Notification {
    Notification::Error {
        thread_id: s(thread),
        turn_id: s(turn),
        error: TurnError { message: s(message), additional_details: None, codex_error_info: info },
        will_retry,
    }
}

fn plain_info(word: &str) -> Option<CodexErrorInfo> {
    Some(CodexErrorInfo {
        wire: Some(Json::Text(s(word))),
        connection: false,
        http_status_code: None,
    })
}

#[test]
fn error_notification_surfaces_message_and_classification() {
    let mut mapper = mapper();
    let fallback = ThreadId(1);
    let unauthorized = failure(
        "th1",
        "t1",
        "No API key configured for provider openai",
        plain_info("unauthorized"),
        false,
    );
    assert_eq!(
        error_message(map(&mut mapper, &unauthorized, fallback).unwrap()),
        "unauthorized: No API key configured for provider openai"
    );
    let http = failure(
        "",
        "",
        "stream failed",
        Some(CodexErrorInfo {
            wire: Some(json("{\"httpConnectionFailed\":{\"httpStatusCode\":503}}")),
            connection: true,
            http_status_code: Some(503),
        }),
        true,
    );
    assert_eq!(
        error_message(map(&mut mapper, &http, fallback).unwrap()),
        "httpConnectionFailed (HTTP 503): stream failed (retrying)"
    );
    let empty = failure("", "", "", None, false);
    assert_eq!(
        error_message(map(&mut mapper, &empty, fallback).unwrap()),
        "Codex reported an unspecified error"
    );
}

#[test]
fn fatal_turn_error_detects_non_retryable_errors() {
    let fatal = failure("", "", "Quota exceeded", plain_info("usageLimitExceeded"), false);
    assert_eq!(
        fatal_turn_error(&fatal).as_deref(),
        Some("usageLimitExceeded: Quota exceeded")
    );
    let retryable = failure("", "", "transient blip", None, true);
    assert!(fatal_turn_error(&retryable).is_none());
    let plan = Notification::PlanDelta(delta("p1", "x"));
    assert!(fatal_turn_error(&plan).is_none());
}

#[test]
fn warning_notification_maps_to_notice() {
    let mut mapper = mapper();
    let warn = Notification::Warning {
        thread_id: None,
        message: s("Model metadata for `glm` not found. Using fallback."),
    };
    match map(&mut mapper, &warn, ThreadId(1)).unwrap() {
        AgentEvent::Notice { message, .. } => {
            assert!(message.contains("Model metadata"), "got {message:?}");
        }
        other => panic!("expected Notice, got {other:?}"),
    }
}

#[test]
fn token_usage_defaults_to_zero() {
    let mut mapper = mapper();
    match map(&mut mapper, &turn_completed("t9"), ThreadId(1)).unwrap() {
        AgentEvent::TurnCompleted { usage, .. } => assert_eq!(usage.total, 0),
        other => panic!("expected TurnCompleted, got {other:?}"),
    }
}

#[test]
fn negative_token_counts_become_zero() {
    let mut mapper = mapper();
    let notif = Notification::ThreadTokenUsageUpdated {
        thread_id: s("th1"),
        turn_id: s("t1"),
        last: usage(-5, 7, -1),
        model_context_window: None,
    };
    map(&mut mapper, &notif, ThreadId(1));
    match map(&mut mapper, &turn_completed("t1"), ThreadId(1)).unwrap() {
        AgentEvent::TurnCompleted { usage, .. } => {
            assert_eq!((usage.input, usage.output, usage.total), (0, 7, 0));
        }
        other => panic!("expected TurnCompleted, got {other:?}"),
    }
    match map(&mut mapper, &turn_completed("t1"), ThreadId(1)).unwrap() {
        AgentEvent::TurnCompleted { usage, .. } => assert_eq!(usage.output, 0),
        other => panic!("expected TurnCompleted, got {other:?}"),
    }
}

#[test]
fn a_late_end_leaves_the_next_turn_active() {
    let mut mapper = mapper();
    let thread = ThreadId(1);
    map(&mut mapper, &turn_started("first"), thread);
    map(&mut mapper, &turn_started("second"), thread);
    map(&mut mapper, &turn_completed("first"), thread);
    assert_eq!(mapper.active_native_turn_for_thread(thread), Some("second"));
    map(&mut mapper, &turn_completed("second"), thread);
    assert_eq!(mapper.active_native_turn_for_thread(thread), None);
}

#[test]
fn an_approval_is_answered_once_unless_it_could_not_be_written() {
    let mut mapper = mapper();
    ask(&mut mapper, &RequestId::Integer(7), &ServerRequest::CmdExecApproval(command_params()), ThreadId(1));
    let attempt = mapper.prepare_approval_response(&s("7"), &ApprovalDecision::Accept).unwrap();
    assert!(mapper.prepare_approval_response(&s("7"), &ApprovalDecision::Accept).is_err());
    mapper.rollback_approval_response(attempt.token);
    assert!(mapper.prepare_approval_response(&s("7"), &ApprovalDecision::Accept).is_ok());
    assert_eq!(
        mapper.map_approval_response(&s("7"), &ApprovalDecision::Accept).unwrap_err(),
        "no pending approval for id 7"
    );
}

#[test]
fn a_retired_thread_leaves_nothing_behind() {
    let mut mapper = mapper();
    let thread = ThreadId(1);
    map(&mut mapper, &turn_started("turn1"), thread);
    map(&mut mapper, &started_item(sleep_command(CommandExecutionStatus::InProgress)), thread);
    ask(&mut mapper, &RequestId::Integer(7), &ServerRequest::CmdExecApproval(command_params()), thread);
    ask(
        &mut mapper,
        &RequestId::Integer(8),
        &ServerRequest::Unknown { method: s("future/request"), params: None },
        thread,
    );
    assert_eq!(mapper.pending_approval_ids_for_thread(thread), vec![s("7")]);
    assert_eq!(mapper.pending_server_request_ids_for_thread(thread), vec![s("8")]);
    mapper.retire_thread(thread);
    assert!(mapper.pending_approval_ids_for_thread(thread).is_empty());
    assert!(mapper.pending_server_request_ids_for_thread(thread).is_empty());
    assert!(!mapper.has_running_commands());
    assert_eq!(mapper.active_native_turn_for_thread(thread), None);
}

#[test]
fn completed_items_carry_calendar_times_and_fall_back_to_now() {
    let mut mapper = mapper();
    let item = || ThreadItem::AgentMessage { id: s("m1"), text: s("hello") };
    match map(&mut mapper, &completed_item(item()), ThreadId(1)).unwrap() {
        AgentEvent::ItemCompleted { item, .. } => assert_eq!(item.created_at_ms, 1000),
        other => panic!("expected item completion, got {other:?}"),
    }
    let late = Notification::ItemCompleted {
        item: item(),
        completed_at_ms: i64::MAX,
        thread_id: s("th1"),
        turn_id: s("t1"),
    };
    match map(&mut mapper, &late, ThreadId(1)).unwrap() {
        AgentEvent::ItemCompleted { item, .. } => assert_eq!(item.created_at_ms, 9_000),
        other => panic!("expected item completion, got {other:?}"),
    }
}
