//! Turns, scopes, parameters, catalogues and queues.

use giskard_harness_codex::catalog::{
    default_model_provider, handle_list_mcp_servers, handle_list_models, list_providers,
    map_mcp_server_status, map_model, take_model_page,
    CodexModelProvider, CodexProviderAuth, McpAuthStatus, McpResource, McpResourceTemplate, McpTool,
    NativeModel, NativeServerInfo, NativeServerStatus, ProviderAuth,
};
use giskard_harness_codex::diff::{parse_diff_hunks, parse_hunk_header, summarize_file_changes};
use giskard_harness_codex::error::HarnessError;
use giskard_harness_codex::event::{
    AgentEvent, DiffLine, Item, ItemPayload, TokenUsage, TurnStatus, TurnStatusKind,
};
use giskard_harness_codex::handle::{ModelRef, ThreadHandle};
use giskard_harness_codex::ids::{
    ItemId, NativeItemId, NativeItemKey, NativeProcessId, NativeProcessKey, NativeRouteEpoch,
    NativeThreadId, NativeTurnId, NativeTurnKey, ProjectId, RequestId, ThreadId, TurnId,
};
use giskard_harness_codex::json::{json_display, to_json_text, Json};
use giskard_harness_codex::log_fields::display_opt;
use giskard_harness_codex::maps::KeyMap;
use giskard_harness_codex::mapper::CodexMapper;
use giskard_harness_codex::modes::{
    map_approval_policy, map_effort, ApprovalPolicy, AttachmentKind, Effort, Mode,
    PermissionPreset, UserAttachment, UserInput,
};
use giskard_harness_codex::native_routes::NativeRoutes;
use giskard_harness_codex::paths::sorted_paths;
use giskard_harness_codex::protocol::{
    FileUpdateChange, Notification, OtherNotification, PatchChangeKind, ServerMessage, ServerRequest,
    TokenUsageBreakdown,
};
use giskard_harness_codex::queue::{WatchStep, WorkerQueueKind, WorkerQueueWatchdog};
use giskard_harness_codex::requests::{
    build_initialize_params, build_turn_start_params, configured_workspace_write_roots, TurnOverrides,
};
use giskard_harness_codex::scope::{
    eligible_notification_native_id, eligible_server_request_native_id,
    notification_native_thread_id, optional_native_id, server_request_native_scope,
};
use giskard_harness_codex::text::char_is_space;
use giskard_harness_codex::turns::{
    active_turn_states, completed_current_active_turn, incomplete_turn, observe_pending_compaction,
    observe_pending_context_restore, pending_compaction_states, warn_slow_first_events, ActiveTurn,
    ActiveTurns, PendingCompaction, PendingContextRestore,
};
use giskard_harness_codex::uploads::{
    codex_upload_dir, codex_upload_path, plan_uploads, prepare_user_input_for_codex_uploads,
    removal_call, safe_upload_file_name, upload_dir_of, upload_failed, upload_path_of,
};
use giskard_harness_codex::version::{
    codex_is_newer_than_tested, codex_version_from_user_agent, version_is_newer,
};

fn of_value(value: serde_json::Value) -> Json {
    match value {
        serde_json::Value::Null => Json::Null,
        serde_json::Value::Bool(b) => Json::Bool(b),
        serde_json::Value::Number(n) => Json::Number(n.to_string()),
        serde_json::Value::String(s) => Json::Text(s),
        serde_json::Value::Array(items) => Json::Array(items.into_iter().map(of_value).collect()),
        serde_json::Value::Object(entries) => {
            Json::Object(entries.into_iter().map(|(k, v)| (k, of_value(v))).collect())
        }
    }
}

fn json(text: &str) -> Json {
    of_value(serde_json::from_str(text).unwrap())
}

fn value(json: &Json) -> serde_json::Value {
    serde_json::from_str(&to_json_text(json)).unwrap()
}

fn s(text: &str) -> String {
    text.to_owned()
}

fn test_thread() -> ThreadHandle {
    ThreadHandle::opened(ThreadId(11), s("native-thread"), s("/tmp/test-workspace"))
}

fn turn_overrides(mode: Mode, effort: Option<&str>) -> TurnOverrides {
    TurnOverrides {
        model: Some(ModelRef {
            provider: s("openai"),
            model: s("gpt-5.5"),
            reasoning_effort: effort.map(s),
        }),
        mode,
        permission_preset: PermissionPreset::AskFirst,
    }
}

fn completed_event(thread: ThreadId, turn: TurnId) -> AgentEvent {
    AgentEvent::TurnCompleted {
        thread,
        turn,
        usage: TokenUsage { input: 0, output: 0, total: 0 },
        status: TurnStatus { kind: TurnStatusKind::Completed, message: None },
    }
}

fn context_compacted_event(thread: ThreadId, turn: TurnId) -> AgentEvent {
    AgentEvent::ItemCompleted {
        thread,
        turn,
        item: Item {
            id: ItemId(1),
            harness_item_id: s("context-compacted"),
            payload: ItemPayload::Activity {
                title: s("Context compacted"),
                detail: None,
                metadata: None,
            },
            created_at_ms: 0,
        },
    }
}

#[test]
fn codex_version_is_read_out_of_the_user_agent() {
    assert_eq!(
        codex_version_from_user_agent("codex_cli_rs/0.58.0 (Linux 6.1.0; x86_64) codex_vscode/1.2.3")
            .as_deref(),
        Some("0.58.0")
    );
    assert_eq!(
        codex_version_from_user_agent("codex_cli_rs/0.59.0-alpha.1 (Mac)").as_deref(),
        Some("0.59.0")
    );
    assert_eq!(
        codex_version_from_user_agent("codex_cli_rs/1.2.3+build.7 (Mac)").as_deref(),
        Some("1.2.3")
    );
    assert_eq!(
        codex_version_from_user_agent("vendor/codex_cli_rs/1.0.0 (Linux)").as_deref(),
        Some("1.0.0")
    );
    for unparseable in [
        "",
        "codex_cli_rs",
        "   ",
        "codex_cli_rs/ (Linux)",
        "codex_cli_rs/1.2 (Linux)",
        "codex_cli_rs/1.2.3.4 (Linux)",
        "codex_cli_rs/1.2.x (Linux)",
    ] {
        assert_eq!(
            codex_version_from_user_agent(unparseable),
            None,
            "{unparseable:?} should not yield a version"
        );
    }
}

#[test]
fn codex_newer_than_the_tested_release_is_ordered_ahead_of_it() {
    assert!(version_is_newer("0.151.0", "0.150.1"));
    assert!(version_is_newer("0.150.2", "0.150.1"));
    assert!(version_is_newer("1.0.0", "0.150.1"));
    assert!(!version_is_newer("0.150.1", "0.150.1"));
    assert!(!version_is_newer("0.150.0", "0.150.1"));
    assert!(!version_is_newer("0.9.9", "0.150.1"));
    assert!(version_is_newer("0.150.10", "0.150.9"));
    assert!(!version_is_newer("0.150", "0.150.1"));
    assert!(!version_is_newer("0.150.1.2", "0.150.1"));
    assert!(!version_is_newer("0.150.x", "0.150.1"));
    assert!(!version_is_newer("", "0.150.1"));
}

#[test]
fn tested_codex_release_is_comparable_to_a_reported_version() {
    let tested = codex_codes::version::tested_cli_version();
    assert!(!version_is_newer(tested, tested), "{tested} vs itself");
    assert!(
        version_is_newer("999.0.0", tested),
        "{tested} should order below a clearly newer release"
    );
    assert!(!codex_is_newer_than_tested(tested));
    assert!(codex_is_newer_than_tested("999.0.0"));
}

#[test]
fn optional_display_preserves_presence_without_formatting_eagerly() {
    assert_eq!(display_opt(Some(42)).map(|value| value.to_string()), Some("42".into()));
    assert!(display_opt::<u8>(None).is_none());
}

#[test]
fn event_routes_own_authoritative_monotonic_epochs() {
    let mut routes = NativeRoutes::new();
    let first_thread = ThreadId(1);
    let second_thread = ThreadId(2);
    let first = routes
        .claim_native_route("native-first", first_thread)
        .expect("first native route should be claimable");
    let repeated = routes
        .claim_native_route("native-first", ThreadId(3))
        .expect("an existing native route should remain authoritative");
    let second = routes
        .claim_native_route("native-second", second_thread)
        .expect("second native route should be claimable");
    assert!(repeated.same(&first));
    assert!(second.route_epoch > first.route_epoch);
    assert!(routes.claim_native_route("native-conflict", first_thread).is_err());
}

fn queue_keeps_identity() {
    let mut watchdog = WorkerQueueWatchdog::new();
    let project_id = ProjectId(5);
    let thread_id = ThreadId(6);
    let token = watchdog.enqueue(
        WorkerQueueKind::Command,
        "open_thread",
        Some(project_id),
        Some(thread_id),
        0,
    );
    watchdog.mark_started(token);
    let active = watchdog.snapshot(0).active.expect("active queue entry");
    assert_eq!(active.project_id, Some(project_id));
    assert_eq!(active.thread_id, Some(thread_id));
    assert_eq!(active.action, "open_thread");
}

#[test]
fn lib_worker_queue_snapshot_preserves_operation_identity() {
    queue_keeps_identity();
}

#[test]
fn queue_worker_queue_snapshot_preserves_operation_identity() {
    queue_keeps_identity();
}

#[test]
fn queues_count_what_waits_and_warn_of_what_is_slow() {
    let second = 1_000_000_000u64;
    let mut watchdog = WorkerQueueWatchdog::new();
    let first = watchdog.enqueue(WorkerQueueKind::Command, "start_turn", None, None, second);
    let urgent = watchdog.enqueue(WorkerQueueKind::Control, "interrupt", None, None, 2 * second);
    watchdog.enqueue(WorkerQueueKind::Command, "open_thread", None, None, 3 * second);
    assert_eq!((first.id, urgent.id), (1, 2));
    let snapshot = watchdog.snapshot(4 * second);
    assert_eq!((snapshot.command_pending, snapshot.control_pending), (2, 1));
    let oldest = snapshot.oldest_pending.unwrap();
    assert_eq!((oldest.id, oldest.elapsed_ms), (1, 3_000));
    assert!(snapshot.active.is_none());
    assert!(matches!(watchdog.watch(10 * second), WatchStep::Quiet));
    assert!(matches!(watchdog.watch(11 * second), WatchStep::Warn(_)));
    watchdog.cancel(first);
    watchdog.mark_started(urgent);
    assert!(matches!(watchdog.watch(11 * second), WatchStep::Quiet));
    match watchdog.watch(12 * second) {
        WatchStep::Warn(snapshot) => assert_eq!(snapshot.active.unwrap().id, 2),
        other => panic!("expected a warning, got {other:?}"),
    }
    watchdog.mark_finished(urgent);
    assert!(matches!(watchdog.watch(12 * second), WatchStep::Quiet));
    watchdog.close();
    assert!(watchdog.is_closed());
    assert!(matches!(watchdog.watch(99 * second), WatchStep::Stop));
    assert_eq!(WorkerQueueKind::Command.as_str(), "command");
    assert_eq!(WorkerQueueKind::Control.as_str(), "control");
}

#[test]
fn active_turn_diagnostics_preserve_thread_identities() {
    let thread = test_thread();
    let thread_id = thread.thread;
    let turn = TurnId(77);
    let mut active_turns: ActiveTurns = KeyMap::new();
    active_turns.insert(thread_id, ActiveTurn::new(thread, turn, 0));
    let states = active_turn_states(&active_turns);
    assert_eq!(states.len(), 1);
    assert!(states[0].contains(&format!("thread_id={}", thread_id.text())));
    assert!(states[0].contains("harness_thread_id=native-thread"));
    assert!(states[0].contains(&format!("acknowledged_turn={}", turn.text())));
}

#[test]
fn unknown_server_request_diagnostics_extract_only_native_scope() {
    let request = ServerRequest::Unknown {
        method: s("future/request"),
        params: Some(json(
            "{\"threadId\":\"native-thread-7\",\"turnId\":\"native-turn-9\",\"prompt\":\"sensitive and intentionally ignored\"}",
        )),
    };
    assert_eq!(
        server_request_native_scope(&request),
        (Some(s("native-thread-7")), Some(s("native-turn-9")))
    );
}

#[test]
fn unknown_server_request_scope_accepts_all_protocol_spellings() {
    for (key, native_id) in [
        ("threadId", "camel-thread"),
        ("thread_id", "snake-thread"),
        ("conversationId", "camel-conversation"),
        ("conversation_id", "snake-conversation"),
    ] {
        let request = ServerRequest::Unknown {
            method: s("future/request"),
            params: Some(Json::Object(vec![
                (s(key), Json::Text(s(native_id))),
                (s("turn_id"), Json::Text(s("native-turn"))),
            ])),
        };
        assert_eq!(
            server_request_native_scope(&request),
            (Some(s(native_id)), Some(s("native-turn")))
        );
    }
}

#[test]
fn mcp_elicitation_scope_uses_meta_thread_and_turn() {
    let request = ServerRequest::McpServerElicitationRequest(json(
        "{\"mode\":\"form\",\"_meta\":{\"threadId\":\"native-mcp\",\"turn_id\":\"native-turn\"},\"message\":\"Need input\",\"requestedSchema\":{\"type\":\"object\"}}",
    ));
    assert_eq!(
        server_request_native_scope(&request),
        (Some(s("native-mcp")), Some(s("native-turn")))
    );
}

#[test]
fn thread_started_scope_uses_nested_thread_identity() {
    let notification = json("{\"method\":\"thread/started\",\"params\":{\"thread\":{\"id\":\"native-started\"}}}");
    assert_eq!(notification_native_thread_id(&notification).as_deref(), Some("native-started"));
}

#[test]
fn unknown_notification_scope_accepts_meta_and_snake_case() {
    let notification = json(
        "{\"method\":\"future/notification\",\"params\":{\"_meta\":{\"thread_id\":\"native-meta\"}}}",
    );
    assert_eq!(notification_native_thread_id(&notification).as_deref(), Some("native-meta"));
}

#[test]
fn only_messages_that_name_a_thread_are_routed_by_name() {
    let named = Notification::TurnStarted { thread_id: s("  native-a "), turn_id: s("t") };
    assert_eq!(eligible_notification_native_id(&named).unwrap().as_ref(), "native-a");
    let blank = Notification::TurnStarted { thread_id: s("  "), turn_id: s("t") };
    assert!(eligible_notification_native_id(&blank).is_none());
    let unloaded = Notification::ThreadStatusChanged { thread_id: s("native-a"), loaded: false };
    assert!(eligible_notification_native_id(&unloaded).is_none());
    let loaded = Notification::ThreadStatusChanged { thread_id: s("native-a"), loaded: true };
    assert!(eligible_notification_native_id(&loaded).is_some());
    let archived = Notification::Other {
        kind: OtherNotification::ThreadArchived,
        thread_id: Some(s("native-a")),
    };
    assert!(eligible_notification_native_id(&archived).is_none());
    let unknown = ServerRequest::Unknown {
        method: s("future/request"),
        params: Some(json("{\"threadId\":\"native-a\"}")),
    };
    assert_eq!(eligible_server_request_native_id(&unknown), None);
    assert!(optional_native_id(None).is_none());
    assert_eq!(optional_native_id(Some(" x ")).unwrap().as_ref(), "x");
}

#[test]
fn active_turn_table_completes_only_matching_thread_and_turn() {
    let first_thread = test_thread();
    let second_thread =
        ThreadHandle::opened(ThreadId(12), s("native-thread-2"), s("/tmp/test-workspace-2"));
    let (first, second) = (first_thread.thread, second_thread.thread);
    let first_turn = TurnId(1);
    let second_turn = TurnId(2);
    let stale_turn = TurnId(3);
    let mut active_turns: ActiveTurns = KeyMap::new();
    active_turns.insert(first, ActiveTurn::new(first_thread, first_turn, 0));
    active_turns.insert(second, ActiveTurn::new(second_thread, second_turn, 0));
    assert_eq!(
        completed_current_active_turn(&active_turns, &completed_event(second, second_turn)),
        Some((second, second_turn))
    );
    assert_eq!(
        completed_current_active_turn(&active_turns, &completed_event(first, stale_turn)),
        None
    );
    assert_eq!(
        completed_current_active_turn(&active_turns, &completed_event(ThreadId(99), first_turn)),
        None
    );
}

#[test]
fn pending_compaction_marker_only_completes_without_turn_started() {
    let thread = ThreadId(1);
    let turn = TurnId(2);
    let mut pending = KeyMap::new();
    pending.insert(thread, PendingCompaction::new(0));
    let elapsed_ms = observe_pending_compaction(
        &mut pending,
        thread,
        &context_compacted_event(thread, turn),
        7_000_000,
    );
    assert_eq!(elapsed_ms, Some(7));
    assert!(!pending.contains_key(&thread));
}

#[test]
fn pending_compaction_marker_after_turn_started_waits_for_turn_completed() {
    let thread = ThreadId(1);
    let turn = TurnId(2);
    let mut pending = KeyMap::new();
    pending.insert(thread, PendingCompaction::new(0));
    let started = AgentEvent::TurnStarted { thread, turn };
    assert!(observe_pending_compaction(&mut pending, thread, &started, 1).is_none());
    assert!(pending.get(&thread).unwrap().saw_turn_started);
    let marker =
        observe_pending_compaction(&mut pending, thread, &context_compacted_event(thread, turn), 2);
    assert!(marker.is_none());
    assert!(pending.contains_key(&thread));
    let completed =
        observe_pending_compaction(&mut pending, thread, &completed_event(thread, turn), 3);
    assert!(completed.is_some());
    assert!(!pending.contains_key(&thread));
}

#[test]
fn compactions_are_listed_with_what_is_known_of_them() {
    let mut pending = KeyMap::new();
    pending.insert(ThreadId(1), PendingCompaction::new(1_000_000));
    let states = pending_compaction_states(&pending, 6_000_000);
    assert_eq!(states.len(), 1);
    assert!(states[0].contains(&ThreadId(1).text()));
    assert!(states[0].contains("5"));
}

#[test]
fn a_slow_turn_is_told_of_once() {
    let thread = test_thread();
    let id = thread.thread;
    let mut active_turns: ActiveTurns = KeyMap::new();
    active_turns.insert(id, ActiveTurn::new(thread, TurnId(1), 0));
    assert!(warn_slow_first_events(&mut active_turns, 14_999_999_999).is_empty());
    assert_eq!(warn_slow_first_events(&mut active_turns, 15_000_000_000), vec![id]);
    assert!(warn_slow_first_events(&mut active_turns, 99_000_000_000).is_empty());
}

#[test]
fn a_resumed_thread_learns_once_how_much_its_model_holds() {
    let mut pending = KeyMap::new();
    pending.insert(
        s("native-a"),
        PendingContextRestore {
            thread: ThreadId(1),
            model: ModelRef { provider: s("openai"), model: s("m"), reasoning_effort: None },
        },
    );
    let tell = |turn: &str, window: Option<i64>| {
        ServerMessage::Notification(Notification::ThreadTokenUsageUpdated {
            thread_id: s("native-a"),
            turn_id: s(turn),
            last: TokenUsageBreakdown { input_tokens: 0, output_tokens: 0, total_tokens: 0 },
            model_context_window: window,
        })
    };
    assert!(observe_pending_context_restore(&mut pending, &tell("", Some(5))).is_none());
    assert!(observe_pending_context_restore(&mut pending, &tell("t", None)).is_none());
    assert!(observe_pending_context_restore(&mut pending, &tell("t", Some(0))).is_none());
    assert!(observe_pending_context_restore(&mut pending, &tell("t", Some(1 << 33))).is_none());
    let told = observe_pending_context_restore(&mut pending, &tell("t", Some(272_000))).unwrap();
    assert_eq!(told.context_window, 272_000);
    assert_eq!(told.restore.thread, ThreadId(1));
    assert!(observe_pending_context_restore(&mut pending, &tell("t", Some(272_000))).is_none());
}

#[test]
fn a_turn_that_was_cut_off_failed_or_leaves_an_error() {
    match incomplete_turn(ThreadId(1), Some(TurnId(2)), s("stream failed")) {
        AgentEvent::TurnCompleted { thread, turn, status, .. } => {
            assert_eq!((thread, turn), (ThreadId(1), TurnId(2)));
            assert_eq!(status.kind, TurnStatusKind::Failed);
            assert_eq!(status.message.as_deref(), Some("stream failed"));
        }
        other => panic!("expected failed turn completion, got {other:?}"),
    }
    assert!(matches!(
        incomplete_turn(ThreadId(1), None, s("stream ended")),
        AgentEvent::Error { turn: None, .. }
    ));
}

#[test]
fn mcp_server_status_maps_codex_metadata() {
    let mapped = map_mcp_server_status(NativeServerStatus {
        auth_status: McpAuthStatus::NotLoggedIn,
        name: s("cf-mcp"),
        resource_templates: vec![McpResourceTemplate {
            description: Some(s("Issue by key")),
            mime_type: Some(s("application/json")),
            name: s("jira issue"),
            title: Some(s("Jira Issue")),
            uri_template: s("jira://issue/{key}"),
        }],
        resources: vec![McpResource {
            description: Some(s("Project metadata")),
            mime_type: Some(s("application/json")),
            name: s("project"),
            size: Some(42),
            title: Some(s("Project")),
            uri: s("gitlab://project/group/name"),
        }],
        server_info: Some(NativeServerInfo {
            description: Some(s("Cloudflare tools")),
            name: s("cf-mcp"),
            title: Some(s("Cloudflare MCP")),
            version: s("1.2.3"),
            website_url: Some(s("https://example.invalid")),
        }),
        tools: vec![(
            s("jira_search"),
            McpTool {
                description: Some(s("Search Jira")),
                input_schema: json("{\"type\":\"object\"}"),
                name: s("jira_search"),
                output_schema: Some(json("{\"type\":\"object\"}")),
                title: Some(s("Jira Search")),
            },
        )],
    });
    assert_eq!(mapped.name, "cf-mcp");
    assert_eq!(mapped.auth_status, McpAuthStatus::NotLoggedIn);
    assert_eq!(mapped.server_info.unwrap().title.unwrap(), "Cloudflare MCP");
    assert_eq!(mapped.tools[0].name, "jira_search");
    assert_eq!(mapped.tools[0].description.as_deref(), Some("Search Jira"));
    assert_eq!(mapped.resources[0].uri, "gitlab://project/group/name");
    assert_eq!(mapped.resource_templates[0].uri_template, "jira://issue/{key}");
}

#[test]
fn maps_unknown_mcp_auth_status() {
    let mapped = map_mcp_server_status(NativeServerStatus {
        auth_status: McpAuthStatus::Unknown,
        name: s("x"),
        resource_templates: vec![],
        resources: vec![],
        server_info: None,
        tools: vec![],
    });
    assert_eq!(mapped.auth_status, McpAuthStatus::Unknown);
}

#[test]
fn providers_are_listed_once_with_how_they_are_reached() {
    let provider = |env: Option<&str>, auth: Option<CodexProviderAuth>| CodexModelProvider {
        name: Some(s("Mine")),
        base_url: Some(s("https://example.invalid")),
        env_key: env.map(s),
        auth,
    };
    let command = CodexProviderAuth {
        command: Some(s("token")),
        args: vec![s("--print")],
        cwd: None,
        timeout_ms: Some(0),
    };
    let providers = list_providers(vec![
        (s("mine"), provider(Some("KEY"), Some(command))),
        (s("openai"), provider(Some("OPENAI_KEY"), None)),
        (s("plain"), provider(Some("  "), None)),
    ]);
    let ids: Vec<&str> = providers.iter().map(|p| p.id.as_str()).collect();
    let mut once = ids.clone();
    once.sort_unstable();
    once.dedup();
    assert_eq!(once.len(), ids.len());
    assert!(ids.contains(&"mine") && ids.contains(&"openai") && ids.contains(&"ollama"));
    let find = |id: &str| providers.iter().find(|p| p.id == id).unwrap();
    assert!(matches!(
        &find("mine").auth,
        Some(ProviderAuth::Command { command, timeout_ms: 5_000, .. }) if command == "token"
    ));
    assert!(matches!(&find("openai").auth, Some(ProviderAuth::Env(key)) if key == "OPENAI_KEY"));
    assert!(find("plain").auth.is_none());
    assert_eq!(default_model_provider(None), "openai");
    assert_eq!(default_model_provider(Some(s(" "))), "openai");
    assert_eq!(default_model_provider(Some(s("mine"))), "mine");
}

#[test]
fn models_are_described_and_hidden_ones_left_out() {
    let model = |id: &str, hidden: bool, efforts: Vec<String>| NativeModel {
        id: s(id),
        model: s(""),
        display_name: s(""),
        hidden,
        is_default: false,
        default_reasoning_effort: s("medium"),
        supported_reasoning_efforts: efforts,
    };
    let described = map_model(model("m1", false, vec![]), "openai", 128_000);
    assert_eq!(described.model, "m1");
    assert_eq!(described.reasoning_efforts, vec![s("medium")]);
    assert!(described.supports_reasoning_effort);
    assert_eq!(described.context_window, 128_000);
    assert_eq!(described.display_name, None);
    let mut listed = Vec::new();
    take_model_page(
        &mut listed,
        vec![model("a", false, vec![]), model("b", true, vec![]), model("c", false, vec![s("high")])],
        "openai",
        1,
    );
    let names: Vec<&str> = listed.iter().map(|d| d.model.as_str()).collect();
    assert_eq!(names, vec!["a", "c"]);
}

#[test]
fn lists_are_asked_for_page_by_page() {
    let model = NativeModel {
        id: s("m1"),
        model: s("slug"),
        display_name: s("Model"),
        hidden: false,
        is_default: true,
        default_reasoning_effort: s("none"),
        supported_reasoning_efforts: vec![],
    };
    let mut models = Vec::new();
    let next = handle_list_models(&mut models, vec![model], Some(s("more")), "openai", 1).unwrap();
    assert_eq!(next.method, "model/list");
    assert_eq!(value(&next.params)["cursor"], "more");
    assert!(handle_list_models(&mut models, vec![], None, "openai", 1).is_none());
    assert_eq!(models.len(), 1);
    assert_eq!((models[0].model.as_str(), models[0].is_default), ("slug", true));
    assert!(!models[0].supports_reasoning_effort);
    let server = |name: &str| NativeServerStatus {
        auth_status: McpAuthStatus::OAuth,
        name: s(name),
        resource_templates: vec![],
        resources: vec![],
        server_info: None,
        tools: vec![],
    };
    let mut servers = Vec::new();
    let next =
        handle_list_mcp_servers(&mut servers, vec![server("a"), server("b")], Some(s("c2"))).unwrap();
    assert_eq!(next.method, "mcpServerStatus/list");
    assert_eq!(value(&next.params)["cursor"], "c2");
    assert_eq!(value(&next.params)["detail"], "full");
    assert!(handle_list_mcp_servers(&mut servers, vec![server("c")], None).is_none());
    let names: Vec<&str> = servers.iter().map(|server| server.name.as_str()).collect();
    assert_eq!(names, vec!["a", "b", "c"]);
}

#[test]
fn policies_and_efforts_have_words() {
    assert_eq!(map_approval_policy(ApprovalPolicy::ReadOnly), "never");
    assert_eq!(map_approval_policy(ApprovalPolicy::Ask), "on-request");
    assert_eq!(map_approval_policy(ApprovalPolicy::Auto), "never");
    assert_eq!(map_effort(Effort::Minimal), "minimal");
    assert_eq!(map_effort(Effort::Low), "low");
    assert_eq!(map_effort(Effort::Medium), "medium");
    assert_eq!(map_effort(Effort::High), "high");
    assert_eq!(map_effort(Effort::XHigh), "xhigh");
}

#[test]
fn names_keep_their_text() {
    let thread = NativeThreadId::new(s("native-a"));
    assert_eq!(thread.as_str(), "native-a");
    assert_eq!(thread.into_inner(), "native-a");
    let turn = NativeTurnKey::new(ThreadId(1), NativeTurnId::new(s("turn-1")));
    assert_eq!((turn.thread_id, turn.native_turn_id.as_str()), (ThreadId(1), "turn-1"));
    let item = NativeItemKey::new(ThreadId(1), TurnId(2), NativeItemId::new(s("item-1")));
    assert_eq!((item.thread_id, item.turn_id), (ThreadId(1), TurnId(2)));
    let process = NativeProcessKey::new(ThreadId(1), NativeProcessId::new(s("7")));
    assert_eq!(process.thread_id, ThreadId(1));
}

#[test]
fn initialize_params_enable_experimental_app_server_api() {
    let params = value(&build_initialize_params("0.1.0"));
    assert_eq!(params["clientInfo"]["name"], "giskard");
    assert_eq!(params["capabilities"]["experimentalApi"], true);
    assert!(params["capabilities"].get("extensions").is_none());
}

fn roots() -> Vec<String> {
    vec![s("/home/test/.cache/cargo"), s("/home/test/.cache/sccache")]
}

fn turn_params(text: &str, overrides: &TurnOverrides, roots: &Vec<String>) -> serde_json::Value {
    value(&build_turn_start_params(&test_thread(), &UserInput::text(s(text)), overrides, roots))
}

#[test]
fn auto_approve_turn_includes_thread_workspace_root_and_configured_roots() {
    let roots = roots();
    let expected: serde_json::Value = serde_json::from_str(
        "[\"/home/test/.cache/cargo\",\"/home/test/.cache/sccache\",\"/tmp/test-workspace\"]",
    )
    .unwrap();
    let mut overrides = turn_overrides(Mode::Build, None);
    overrides.permission_preset = PermissionPreset::AutoApprove;
    let params = turn_params("implement it", &overrides, &roots);
    assert_eq!(params["permissions"], ":workspace");
    assert_eq!(params["runtimeWorkspaceRoots"], expected);

    overrides.permission_preset = PermissionPreset::AskFirst;
    let params = turn_params("inspect it", &overrides, &roots);
    assert!(params.get("runtimeWorkspaceRoots").is_none());

    overrides.permission_preset = PermissionPreset::FullAccess;
    let params = turn_params("run it", &overrides, &roots);
    assert!(params.get("runtimeWorkspaceRoots").is_none());

    overrides.permission_preset = PermissionPreset::AutoApprove;
    let params = turn_params("continue", &overrides, &roots);
    assert_eq!(params["runtimeWorkspaceRoots"], expected);
}

#[test]
fn auto_approve_turn_includes_thread_workspace_root_without_configured_roots() {
    let mut overrides = turn_overrides(Mode::Build, None);
    overrides.permission_preset = PermissionPreset::AutoApprove;
    let params = turn_params("implement it", &overrides, &vec![]);
    assert_eq!(params["permissions"], ":workspace");
    let expected: serde_json::Value = serde_json::from_str("[\"/tmp/test-workspace\"]").unwrap();
    assert_eq!(params["runtimeWorkspaceRoots"], expected);
}

#[test]
fn plan_turn_start_params_include_plan_collaboration_mode() {
    let params = turn_params("make a plan", &turn_overrides(Mode::Plan, Some("medium")), &vec![]);
    assert_eq!(params["threadId"], "native-thread");
    assert!(params.get("sandboxPolicy").is_none());
    assert_eq!(params["approvalPolicy"], "on-request");
    assert_eq!(params["permissions"], ":read-only");
    assert_eq!(params["model"], "gpt-5.5");
    assert_eq!(params["effort"], "medium");
    assert_eq!(params["collaborationMode"]["mode"], "plan");
    assert_eq!(params["collaborationMode"]["settings"]["model"], "gpt-5.5");
    assert_eq!(params["collaborationMode"]["settings"]["reasoning_effort"], "medium");
    assert!(params["collaborationMode"]["settings"]["developer_instructions"].is_null());
}

#[test]
fn build_turn_start_params_reset_collaboration_mode_to_default() {
    let params = turn_params("implement it", &turn_overrides(Mode::Build, None), &vec![]);
    assert_eq!(params["collaborationMode"]["mode"], "default");
    assert!(params.get("sandboxPolicy").is_none());
    assert_eq!(params["approvalPolicy"], "on-request");
    assert_eq!(params["permissions"], ":read-only");
    assert_eq!(params["collaborationMode"]["settings"]["model"], "gpt-5.5");
    assert!(params.get("effort").is_none());
    assert!(params["collaborationMode"]["settings"]["reasoning_effort"].is_null());
}

#[test]
fn full_access_turn_start_params_disable_codex_approval_and_sandbox() {
    let mut overrides = turn_overrides(Mode::Build, None);
    overrides.permission_preset = PermissionPreset::FullAccess;
    let params = turn_params("implement it", &overrides, &vec![]);
    assert!(params.get("sandboxPolicy").is_none());
    assert_eq!(params["approvalPolicy"], "never");
    assert_eq!(params["permissions"], ":danger-full-access");
}

#[test]
fn configured_roots_are_absolute_and_come_in_order() {
    let configured = Some(vec![s("/b"), s("relative"), s("/a"), s("/b")]);
    assert_eq!(configured_workspace_write_roots(&configured), vec![s("/a"), s("/b")]);
    assert!(configured_workspace_write_roots(&None).is_empty());
}

#[test]
fn paths_are_sorted_as_the_standard_library_sorts_them() {
    let texts = [
        "/b/c", "/a", "/a/b", "a/b", "a-b", "a", "", "/", "//x", "/x", "./a", "a/./b", "a/", "../a",
        "/a//b", "é", "z", "/b/", "..", ".",
    ];
    let given: Vec<String> = texts.iter().map(|t| s(t)).collect();
    let mut expected: Vec<std::path::PathBuf> =
        given.iter().map(std::path::PathBuf::from).collect();
    expected.sort();
    expected.dedup();
    let expected: Vec<String> =
        expected.iter().map(|p| p.to_string_lossy().into_owned()).collect();
    assert_eq!(sorted_paths(&given), expected);
}

#[test]
fn white_space_is_what_the_standard_library_says() {
    for code in 0..=0x10ffffu32 {
        if let Some(c) = char::from_u32(code) {
            assert_eq!(char_is_space(c), c.is_whitespace(), "{code:x}");
        }
    }
}

#[test]
fn json_is_written_as_serde_writes_it() {
    for text in [
        "null",
        "true",
        "[1,-2.5,\"a\\\"b\\\\c\\n\\r\\t\\u0001\\b\\f é \\u007f\"]",
        "{\"a\":{\"b\":[]},\"c\":{}}",
    ] {
        let parsed: serde_json::Value = serde_json::from_str(text).unwrap();
        let written = serde_json::to_string(&parsed).unwrap();
        assert_eq!(to_json_text(&of_value(parsed)), written);
    }
    assert_eq!(json_display(&Json::Text(s("plain"))), "plain");
    assert_eq!(json_display(&json("[1]")), "[1]");
    assert!(matches!(RequestId::Integer(-7).copy(), RequestId::Integer(-7)));
}

#[test]
fn diffs_are_read_by_hunk() {
    assert_eq!(parse_hunk_header("@@-1,2"), None);
    assert_eq!(parse_hunk_header("@@ -1,2 +3,4 @@"), None);
    assert!(parse_diff_hunks("").is_empty());
    let hunks = parse_diff_hunks("@@ -1 +1 @@\n-old\n+new\n same\n@@ -9 +9 @@\nplain");
    assert_eq!(hunks.len(), 2);
    assert_eq!((hunks[0].old_start, hunks[0].old_lines), (0, 0));
    assert_eq!((hunks[0].new_start, hunks[0].new_lines), (0, 0));
    assert!(matches!(&hunks[0].lines[0], DiffLine::Removed(line) if line == "old"));
    assert!(matches!(&hunks[0].lines[1], DiffLine::Added(line) if line == "new"));
    assert!(matches!(&hunks[0].lines[2], DiffLine::Context(line) if line == "same"));
    assert_eq!(hunks[0].lines.len(), 3);
    assert!(matches!(&hunks[1].lines[0], DiffLine::Context(line) if line == "plain"));
    assert_eq!(hunks[1].lines.len(), 1);
    assert_eq!(summarize_file_changes(&vec![]), "File changes updated.");
    let change = FileUpdateChange { path: s("a.rs"), kind: PatchChangeKind::Add, diff: s("") };
    assert_eq!(summarize_file_changes(&vec![change]), "created a.rs");
}

#[test]
fn uploads_have_safe_names_below_their_directory() {
    assert_eq!(safe_upload_file_name("a b/c?.txt"), "a_b_c_.txt");
    let long = "x".repeat(500);
    assert_eq!(safe_upload_file_name(&long), "x".repeat(96));
    assert_eq!(safe_upload_file_name("..."), "attachment");
    assert_eq!(safe_upload_file_name(""), "attachment");
    assert_eq!(safe_upload_file_name("../../etc/passwd"), "etc_passwd");
    let thread = test_thread();
    let dir = upload_dir_of("/tmp", thread.thread, 1, 2);
    assert!(dir.starts_with("/tmp/giskard-codex-uploads/"));
    assert!(dir.ends_with("00000000000000010000000000000002"));
    assert!(upload_path_of(&dir, 3, 7, "a.txt").ends_with("/03-7-a.txt"));
    let drawn = codex_upload_dir("/tmp", &thread);
    assert!(drawn.starts_with("/tmp/giskard-codex-uploads/"));
    assert_ne!(drawn, codex_upload_dir("/tmp", &thread));
    let attachment = |kind| UserAttachment {
        name: s("notes.txt"),
        mime_type: s("text/plain"),
        size: 4,
        kind,
        data_base64: s("YWJjZA=="),
    };
    let input = UserInput {
        text: s("look"),
        attachments: vec![attachment(AttachmentKind::Image), attachment(AttachmentKind::File)],
    };
    let plan = plan_uploads(&input, &dir, &vec![0, 9]);
    assert_eq!(plan.upload_dir.as_deref(), Some(dir.as_str()));
    assert_eq!(plan.calls.len(), 2);
    assert_eq!(plan.calls[0].method, "fs/createDirectory");
    assert_eq!(plan.calls[1].method, "fs/writeFile");
    assert_eq!(plan.input.attachments.len(), 1);
    let path = upload_path_of(&dir, 1, 9, "notes.txt");
    assert_eq!(
        plan.input.text,
        format!("look\n\nAttached files available on the harness host:\n- notes.txt: {path}\n")
    );
    assert_eq!(value(&plan.calls[1].params)["path"], path.as_str());
    assert_eq!(value(&plan.calls[1].params)["dataBase64"], "YWJjZA==");
    let drawn = codex_upload_path(&dir, 1, &attachment(AttachmentKind::File));
    assert!(drawn.starts_with(&format!("{dir}/01-")));
    assert!(drawn.ends_with("-notes.txt"));
    assert_ne!(drawn, codex_upload_path(&dir, 1, &attachment(AttachmentKind::File)));
    let prepared = prepare_user_input_for_codex_uploads("/tmp", &thread, &input);
    assert!(prepared.upload_dir.as_ref().unwrap().starts_with("/tmp/giskard-codex-uploads/"));
    assert_eq!(prepared.calls.len(), 2);
    let (removal, error) = upload_failed(&prepared, HarnessError::Transport(s("disk full")));
    let removal = removal.unwrap();
    assert_eq!(removal.method, "fs/remove");
    assert_eq!(value(&removal.params)["path"], value(&prepared.calls[0].params)["path"]);
    assert_eq!(value(&removal.params)["recursive"], true);
    assert_eq!(value(&removal.params)["force"], true);
    assert!(matches!(error, HarnessError::Transport(m) if m == "disk full"));
    let plain = prepare_user_input_for_codex_uploads("/tmp", &thread, &UserInput::text(s("hi")));
    assert!(plain.upload_dir.is_none());
    assert!(plain.calls.is_empty());
    assert_eq!(plain.input.text, "hi");
    let (removal, error) = upload_failed(&plain, HarnessError::Protocol(s("no")));
    assert!(removal.is_none());
    assert!(matches!(error, HarnessError::Protocol(m) if m == "no"));
    assert!(removal_call(&None).is_none());
}

#[test]
fn epochs_follow_each_other_until_they_are_used_up() {
    let epoch = NativeRouteEpoch::new(4);
    assert_eq!(epoch.checked_next().unwrap().into_inner(), 5);
    assert!(NativeRouteEpoch::new(u64::MAX).checked_next().is_none());
}

#[test]
fn the_mapper_knows_its_root() {
    assert_eq!(CodexMapper::new(s("/tmp")).workspace_root(), "/tmp");
}
