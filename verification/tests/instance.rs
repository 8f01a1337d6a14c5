//! An app-server and all that goes on with it, step by step.

use giskard_harness_codex::attaching::{
    retirement_error, start_over, thread_deletion, DeleteStep, InstanceStep, OpenStep, ThreadDeletion,
};
use giskard_harness_codex::background::{told_after, BackgroundState, FreshIds, Now, StreamEvent};
use giskard_harness_codex::control::{
    codex_reports_missing_rollout, complete_submitted_termination, interrupted_answer,
    termination_call, unroutable_answer, ControlCommand, ControlStep, ServerRequestResponse,
    TerminationStep,
};
use giskard_harness_codex::discovery::SendOutcome;
use giskard_harness_codex::error::HarnessError;
use giskard_harness_codex::event::{AgentEvent, ApprovalDecision, TurnStatusKind};
use giskard_harness_codex::handle::{HarnessNotice, ModelRef, ThreadHandle};
use giskard_harness_codex::ids::{ItemId, ProjectId, RequestId, ThreadId, TurnId};
use giskard_harness_codex::instance::{CodexInstance, RequestStep, RouteStep, ThreadBinding};
use giskard_harness_codex::json::Json;
use giskard_harness_codex::maps::KeyMap;
use giskard_harness_codex::mapper::CodexMapper;
use giskard_harness_codex::native_routes::NativeRoutes;
use giskard_harness_codex::opening::{
    identity_failure, open_call, opened_thread, resume_failed, OpenResponse, OpenThreadOptions,
    OpenedNativeThread,
};
use giskard_harness_codex::protocol::{
    NativeTurnStatus, Notification, ScopedParams, ServerMessage, ServerRequest, TurnError,
};
use giskard_harness_codex::routes::ActiveRoute;
use giskard_harness_codex::turns::{
    retire_tombstoned_state, PendingCompaction, PendingContextRestore,
};

fn s(text: &str) -> String {
    text.to_owned()
}

fn fresh() -> FreshIds {
    FreshIds { thread: ThreadId(900), turn: TurnId(901), item: ItemId(902) }
}

fn now() -> Now {
    Now { clock: 5_000_000, epoch_ms: 1 }
}

fn model() -> ModelRef {
    ModelRef { provider: s("openai"), model: s("test"), reasoning_effort: None }
}

fn options(resume: Option<&str>, with_model: bool) -> OpenThreadOptions {
    OpenThreadOptions {
        project: ProjectId(1),
        thread: Some(ThreadId(1)),
        workspace_root: s("/workspace"),
        resume: resume.map(s),
        initial_model: if with_model { Some(model()) } else { None },
        identity_generation: Some(4),
    }
}

fn opened(native: &str) -> OpenedNativeThread {
    OpenedNativeThread {
        harness_thread_id: s(native),
        model: Some(model()),
        agent_name: None,
        parent_harness_thread_id: None,
    }
}

fn notice() -> HarnessNotice {
    HarnessNotice { code: s("codex_resume_failed"), message: s("lost"), detail: None }
}

fn instance() -> CodexInstance {
    CodexInstance::new(
        s("/workspace"),
        &vec![ThreadBinding { harness_thread_id: s("native-a"), thread_id: ThreadId(1) }],
    )
    .unwrap_or_else(|e| panic!("{e:?}"))
}

fn thread_a() -> ThreadHandle {
    ThreadHandle::opened(ThreadId(1), s("native-a"), s("/workspace"))
}

fn words(error: HarnessError) -> String {
    match error {
        HarnessError::Protocol(m)
        | HarnessError::Transport(m)
        | HarnessError::Unsupported(m)
        | HarnessError::Timeout(m) => m,
        other => panic!("unexpected {other:?}"),
    }
}

fn known_route(instance: &mut CodexInstance) -> ActiveRoute {
    instance.fallback_route(ThreadId(1)).unwrap()
}

fn turn_started(native: &str) -> Notification {
    Notification::TurnStarted { thread_id: s("native-a"), turn_id: s(native) }
}

fn turn_completed(native: &str) -> Notification {
    Notification::TurnCompleted {
        thread_id: s("native-a"),
        turn_id: s(native),
        status: NativeTurnStatus::Completed,
    }
}

fn tool_call() -> ServerRequest {
    ServerRequest::ItemToolCall(ScopedParams {
        thread_id: s("native-a"),
        turn_id: s("turn-1"),
        params: Json::Object(vec![]),
    })
}

#[test]
fn tombstone_cutover_clears_restore_and_compaction_before_provider_cleanup() {
    let thread = ThreadHandle::opened(ThreadId(3), s("native-retired"), s(""));
    let mut mapper = CodexMapper::new(s("/tmp"));
    let mut restores = KeyMap::new();
    restores.insert(
        s("native-retired"),
        PendingContextRestore { thread: thread.thread, model: model() },
    );
    let mut compactions = KeyMap::new();
    compactions.insert(thread.thread, PendingCompaction::new(0));
    retire_tombstoned_state(&mut mapper, &mut restores, &mut compactions, &thread);
    assert!(restores.is_empty());
    assert!(compactions.is_empty());
}

#[test]
fn known_threads_are_bound_or_refused() {
    let mut made = instance();
    assert_eq!(known_route(&mut made).thread_id(), ThreadId(1));
    let twice = vec![
        ThreadBinding { harness_thread_id: s("native-a"), thread_id: ThreadId(1) },
        ThreadBinding { harness_thread_id: s(" native-a"), thread_id: ThreadId(2) },
    ];
    match CodexInstance::new(s("/"), &twice) {
        Err(error) => assert_eq!(
            words(error),
            format!(
                "bootstrap native route resolved to {} instead of {}",
                ThreadId(1).text(),
                ThreadId(2).text()
            )
        ),
        Ok(_) => panic!("one name cannot have two threads"),
    }
    let blank = vec![ThreadBinding { harness_thread_id: s(" "), thread_id: ThreadId(1) }];
    assert!(CodexInstance::new(s("/"), &blank).is_err());
}

#[test]
fn threads_that_are_seen_are_announced_once() {
    let mut made = instance();
    assert!(matches!(made.ensure_discovered_route("  ", ThreadId(1), ThreadId(5)), RouteStep::Lost));
    let RouteStep::Announce { route, ticket } =
        made.ensure_discovered_route(" native-b ", ThreadId(1), ThreadId(5))
    else {
        panic!("a new thread is announced");
    };
    assert_eq!(route.thread_id(), ThreadId(5));
    assert_eq!(ticket.harness_thread_id(), "native-b");
    assert!(made.route_announced(route, ticket, SendOutcome::Full).is_some());
    let waits = made.next_waits().unwrap();
    assert!(waits.room && waits.desertion && !waits.message && !waits.tick);
    assert!(matches!(
        made.ensure_discovered_route("native-b", ThreadId(1), ThreadId(6)),
        RouteStep::Known(_)
    ));
}

#[test]
fn nothing_is_routed_when_nobody_is_told_of_threads() {
    let mut made = instance();
    let RouteStep::Announce { route, ticket } =
        made.ensure_discovered_route("native-b", ThreadId(1), ThreadId(5))
    else {
        panic!("a new thread is announced");
    };
    assert!(made.route_announced(route, ticket, SendOutcome::Closed).is_none());
    assert!(made.next_waits().is_none());
    assert!(matches!(
        made.ensure_discovered_route("native-a", ThreadId(1), ThreadId(5)),
        RouteStep::Lost
    ));
    assert!(made.fallback_route(ThreadId(1)).is_none());
}

#[test]
fn a_turn_is_heard_and_ends_with_itself() {
    let mut made = instance();
    let turn = made.work.accept_turn(&thread_a(), &s("turn-1"), TurnId(50), Some(s("/up")), 0).unwrap();
    assert_eq!(made.work.acknowledged_turn(ThreadId(1)).unwrap(), turn);
    assert!(made.next_waits().unwrap().message);
    let route = known_route(&mut made);
    let started = made.handle_notification(&turn_started("turn-1"), &route, fresh(), now()).unwrap();
    assert!(started.channel.is_ok());
    assert!(started.delivery.completed_turn.is_none());
    let stale = made.handle_notification(&turn_completed("turn-0"), &route, fresh(), now()).unwrap();
    assert!(stale.delivery.completed_turn.is_none());
    let ended = made.handle_notification(&turn_completed("turn-1"), &route, fresh(), now()).unwrap();
    assert_eq!(ended.delivery.completed_turn, Some(turn));
    let cleanup = made
        .settle_notification(ThreadId(1), ended.delivery.completed_turn, false)
        .unwrap();
    assert_eq!(cleanup.upload_dir.as_deref(), Some("/up"));
    assert!(!made.next_waits().unwrap().message);
    assert_eq!(
        words(made.work.acknowledged_turn(ThreadId(1)).unwrap_err()),
        "turn/start hook completed without registering the active turn"
    );
    assert_eq!(
        words(made.work.accept_turn(&thread_a(), &s(""), TurnId(50), None, 0).unwrap_err()),
        "turn/start response did not include a turn id"
    );
}

#[test]
fn a_failure_that_ends_a_turn_is_told_as_its_end() {
    let mut made = instance();
    let turn = made.work.accept_turn(&thread_a(), &s("turn-1"), TurnId(50), None, 0).unwrap();
    let route = known_route(&mut made);
    let failure = Notification::Error {
        thread_id: s("native-a"),
        turn_id: s("turn-1"),
        error: TurnError { message: s("quota exceeded"), additional_details: None, codex_error_info: None },
        will_retry: false,
    };
    let routed = made.handle_notification(&failure, &route, fresh(), now()).unwrap();
    let (struck, message) = routed.delivery.fatal.unwrap();
    assert_eq!(struck, Some(turn));
    let (event, _) = made.fatal_delivery(ThreadId(1), struck, message).unwrap();
    match event {
        AgentEvent::TurnCompleted { thread, turn: got, status, .. } => {
            assert_eq!((thread, got), (ThreadId(1), turn));
            assert_eq!(status.kind, TurnStatusKind::Failed);
            assert_eq!(status.message.as_deref(), Some("quota exceeded"));
        }
        other => panic!("expected failed turn completion, got {other:?}"),
    }
    assert!(made.fatal_delivery(ThreadId(1), None, s("x")).is_none());
    assert!(made.fatal_delivery(ThreadId(9), Some(turn), s("x")).is_none());
    assert!(made.settle_notification(ThreadId(1), None, true).is_some());
}

#[test]
fn a_turn_ends_by_its_completion_or_by_a_failure_that_was_told() {
    let mut state = BackgroundState::new(s("/workspace"));
    let dir = Some(s("/tmp/uploads"));
    let turn = state.accept_turn(&thread_a(), &s("turn-1"), TurnId(50), dir.clone(), 0).unwrap();
    assert!(state.settle_notification(ThreadId(1), None, false).is_none());
    assert!(state.settle_notification(ThreadId(2), Some(turn), false).is_none());
    assert_eq!(state.acknowledged_turn(ThreadId(1)).unwrap(), turn);
    let cleanup = state.settle_notification(ThreadId(1), None, true).unwrap();
    assert_eq!(cleanup.upload_dir, dir);
    assert!(state.acknowledged_turn(ThreadId(1)).is_err());
    let turn = state.accept_turn(&thread_a(), &s("turn-2"), TurnId(51), None, 0).unwrap();
    assert!(state.settle_notification(ThreadId(1), Some(turn), false).is_some());
    let failure = || Some((Some(turn), s("quota exceeded")));
    match told_after(ThreadId(1), None, failure()) {
        Some(AgentEvent::TurnCompleted { turn: struck, status, .. }) => {
            assert_eq!(struck, turn);
            assert_eq!(status.message.as_deref(), Some("quota exceeded"));
        }
        other => panic!("expected failed turn completion, got {other:?}"),
    }
    assert!(told_after(ThreadId(1), Some(turn), failure()).is_none());
    assert!(told_after(ThreadId(1), None, Some((None, s("quota exceeded")))).is_none());
    assert!(told_after(ThreadId(1), None, None).is_none());
}

#[test]
fn requests_wait_only_where_their_thread_was_asked() {
    let mut made = instance();
    let id = RequestId::Integer(3);
    let unknown = ServerRequest::Unknown { method: s("future/request"), params: None };
    let route = Some(known_route(&mut made));
    assert!(matches!(
        made.handle_request(&id, &unknown, &route, fresh(), now()),
        RequestStep::Refuse
    ));
    assert!(matches!(
        made.handle_request(&id, &tool_call(), &None, fresh(), now()),
        RequestStep::Refuse
    ));
    match made.handle_request(&id, &tool_call(), &route, fresh(), now()) {
        RequestStep::Deliver { event: AgentEvent::ServerRequestReceived { thread, .. }, .. } => {
            assert_eq!(thread, ThreadId(1))
        }
        other => panic!("expected a question, got {other:?}"),
    }
    assert!(made.work.mapper.pending_server_request(&s("3")).is_err());
    made.request_delivered(&id, &tool_call(), route.as_ref().unwrap(), fresh());
    assert!(made.work.mapper.pending_server_request(&s("3")).is_ok());
    let stale = Some(known_route(&mut made));
    made.routes.tombstone("native-a", ThreadId(1)).unwrap();
    let later = RequestId::Integer(4);
    assert!(matches!(
        made.handle_request(&later, &tool_call(), &stale, fresh(), now()),
        RequestStep::Refuse
    ));
    assert!(made.work.mapper.pending_server_request(&s("4")).is_err());
    assert!(matches!(
        made.handle_request(&id, &tool_call(), &stale, fresh(), now()),
        RequestStep::Refuse
    ));
    assert!(made.work.mapper.pending_server_request(&s("3")).is_ok());
    assert_eq!(
        CodexInstance::message_name(&ServerMessage::Request { id, request: tool_call() }).as_deref(),
        Some("native-a")
    );
}

#[test]
fn the_end_of_the_stream_ends_every_turn() {
    let mut made = instance();
    let turn = made.work.accept_turn(&thread_a(), &s("turn-1"), TurnId(50), None, 0).unwrap();
    assert!(made.stream_event(&StreamEvent::NonJson).is_none());
    assert!(made.stream_event(&StreamEvent::Handled(Ok(()))).is_none());
    let end = made.stream_event(&StreamEvent::Failed(s("broken"))).unwrap();
    assert_eq!(end.finished.len(), 1);
    match &end.events[0] {
        AgentEvent::TurnCompleted { turn: got, status, .. } => {
            assert_eq!(*got, turn);
            assert_eq!(
                status.message.as_deref(),
                Some("Codex stream failed before turn completion: broken")
            );
        }
        other => panic!("expected the end, got {other:?}"),
    }
    assert!(made.stream_event(&StreamEvent::Ended).unwrap().events.is_empty());
}

#[test]
fn new_threads_are_opened_on_their_own_routes() {
    let mut made = instance();
    match made.handle_open_thread(&options(None, true), ThreadId(2), opened("native-n"), None) {
        OpenStep::Opened { attachment, events, channel } => {
            assert_eq!(attachment.handle().thread, ThreadId(2));
            assert_eq!(attachment.stream(), Some(channel));
            assert!(matches!(&events[0], AgentEvent::ThreadOpened { harness_thread_id, .. } if harness_thread_id == "native-n"));
            assert_eq!(events.len(), 1);
        }
        other => panic!("expected a thread, got {other:?}"),
    }
    assert!(made.work.pending_context_restores.is_empty());
    match made.handle_open_thread(&options(None, true), ThreadId(3), opened("native-n"), None) {
        OpenStep::Failed(error) => assert!(words(error).contains("already authoritative")),
        other => panic!("expected a failure, got {other:?}"),
    }
    match made.handle_open_thread(&options(None, true), ThreadId(2), opened("native-m"), None) {
        OpenStep::Discard { call, error } => {
            assert_eq!(call.method, "thread/delete");
            assert!(words(error).contains("already bound to native thread native-n"));
        }
        other => panic!("expected a deletion, got {other:?}"),
    }
}

#[test]
fn resumed_threads_wait_for_what_their_models_hold() {
    let mut made = instance();
    match made.handle_open_thread(&options(Some("native-a"), false), ThreadId(1), opened("native-a"), None) {
        OpenStep::Opened { attachment, .. } => {
            assert_eq!(attachment.handle().resumed_model.as_ref().unwrap().model, "test")
        }
        other => panic!("expected a thread, got {other:?}"),
    }
    assert!(made.work.pending_context_restores.contains_key(&s("native-a")));
    let mut made = instance();
    match made.handle_open_thread(&options(Some("native-a"), false), ThreadId(8), opened("native-a"), None) {
        OpenStep::Failed(error) => assert_eq!(
            words(error),
            format!(
                "opened native thread native-a is already bound to {}, not {}",
                ThreadId(1).text(),
                ThreadId(8).text()
            )
        ),
        other => panic!("expected a failure, got {other:?}"),
    }
    assert!(made.work.pending_context_restores.is_empty());
    assert!(matches!(
        made.handle_open_thread(&options(Some("native-a"), false), ThreadId(1), opened("native-a"), None),
        OpenStep::Opened { .. }
    ));
}

#[test]
fn threads_that_are_started_over_take_their_routes_along() {
    let mut made = instance();
    match made.handle_open_thread(&options(Some("native-a"), true), ThreadId(1), opened("native-n"), Some(notice())) {
        OpenStep::Opened { attachment, events, .. } => {
            assert_eq!(attachment.handle().harness_thread_id, "native-n");
            assert_eq!(events.len(), 2);
            assert!(matches!(&events[1], AgentEvent::Error { error: HarnessError::Transport(m), .. } if m == "lost"));
        }
        other => panic!("expected a thread, got {other:?}"),
    }
    assert!(made.work.pending_context_restores.is_empty());
    let mut made = instance();
    made.routes.bootstrap("native-b", ThreadId(2)).unwrap();
    match made.handle_open_thread(&options(Some("native-a"), true), ThreadId(1), opened("native-b"), Some(notice())) {
        OpenStep::Failed(error) => assert_eq!(
            words(error),
            format!(
                "resume fallback returned native thread native-b already owned by {}",
                ThreadId(2).text()
            )
        ),
        other => panic!("expected a failure, got {other:?}"),
    }
    assert!(matches!(
        made.handle_open_thread(&options(Some("gone"), true), ThreadId(1), opened("native-n"), Some(notice())),
        OpenStep::Discard { .. }
    ));
    let (call, told) = start_over(&options(Some("native-a"), true), s("why")).unwrap();
    assert_eq!(call.method, "thread/start");
    assert_eq!(told.detail.as_deref(), Some("why"));
    assert_eq!(
        words(start_over(&options(Some("native-a"), false), s("why")).unwrap_err()),
        "starting a new thread requires a model"
    );
}

#[test]
fn deleted_threads_are_given_up_before_the_app_server_is_asked() {
    let mut made = instance();
    made.work.accept_turn(&thread_a(), &s("turn-1"), TurnId(50), None, 0).unwrap();
    match made.delete_thread(&thread_a()) {
        DeleteStep::Busy(error) => {
            assert_eq!(words(error), "thread deletion is not available during an active turn")
        }
        other => panic!("expected a refusal, got {other:?}"),
    }
    made.settle_notification(ThreadId(1), Some(TurnId(50)), false);
    made.work.compaction_accepted(ThreadId(1), 0);
    match made.delete_thread(&thread_a()) {
        DeleteStep::Ask(call) => assert_eq!(call.method, "thread/delete"),
        other => panic!("expected a request, got {other:?}"),
    }
    assert!(made.work.pending_compactions.is_empty());
    assert!(made.fallback_route(ThreadId(1)).is_none());
    let other = ThreadHandle::opened(ThreadId(7), s("native-z"), s("/"));
    assert!(matches!(made.delete_thread(&other), DeleteStep::Unknown(_)));
    assert!(matches!(retirement_error(true, s("x")), HarnessError::Unsupported(_)));
    assert!(matches!(retirement_error(false, s("x")), HarnessError::Protocol(_)));
    assert!(matches!(thread_deletion(Ok(()), "n"), ThreadDeletion::Retired));
    assert!(matches!(
        thread_deletion(Err(HarnessError::Timeout(s("t"))), "n"),
        ThreadDeletion::RetiredWithProviderError(HarnessError::Timeout(_))
    ));
}

#[test]
fn a_missing_thread_counts_as_deleted_and_nothing_else_does() {
    let missing = |code: i64, message: &str| HarnessError::ProviderRejected { code, message: s(message) };
    let error = missing(-32600, "no rollout found for thread id native-a");
    assert!(codex_reports_missing_rollout(&error, "native-a"));
    assert!(!codex_reports_missing_rollout(&error, "native-b"));
    assert!(!codex_reports_missing_rollout(
        &missing(-32000, "no rollout found for thread id native-a"),
        "native-a"
    ));
    assert!(!codex_reports_missing_rollout(&missing(-32600, "other"), "native-a"));
    assert!(matches!(thread_deletion(Err(error), "native-a"), ThreadDeletion::Retired));
}

#[test]
fn claimed_threads_are_had_again_only_where_that_is_asked_for() {
    let mut made = instance();
    made.routes.tombstone("native-a", ThreadId(1)).unwrap();
    let claim = || ControlCommand::ClaimNativeThread {
        thread: ThreadId(1),
        harness_thread_id: s("native-a"),
        workspace_root: s("/workspace"),
    };
    match made.handle_control_command(claim(), None, false) {
        InstanceStep::Attached(Err(error)) => {
            assert_eq!(words(error), "native thread native-a is tombstoned")
        }
        _ => panic!("a thread that was given up is refused"),
    }
    match made.handle_control_command(claim(), Some(s("parent")), true) {
        InstanceStep::Attached(Ok(attachment)) => assert_eq!(
            attachment.handle().parent_harness_thread_id.as_deref(),
            Some("parent")
        ),
        _ => panic!("the very thread can be had again"),
    }
    assert!(matches!(
        made.handle_control_command(ControlCommand::DeleteThread { thread: thread_a() }, None, false),
        InstanceStep::Delete(DeleteStep::Ask(_))
    ));
    assert!(matches!(
        made.handle_control_command(ControlCommand::ListMcpServers, None, false),
        InstanceStep::Control(ControlStep::Ask(_))
    ));
}

fn asked(step: ControlStep) -> String {
    match step {
        ControlStep::Ask(call) => call.method,
        _ => panic!("expected a request"),
    }
}

fn refused(step: ControlStep) -> String {
    match step {
        ControlStep::Reply(Err(error)) => words(error),
        _ => panic!("expected a refusal"),
    }
}

#[test]
fn callers_are_answered_step_by_step() {
    let mut state = BackgroundState::new(s("/workspace"));
    let mut routes = NativeRoutes::new();
    let mut step = |state: &mut BackgroundState, command| {
        state.handle_control_command(&mut routes, command, None)
    };
    assert_eq!(asked(step(&mut state, ControlCommand::CompactThread { thread: thread_a() })), "thread/compact/start");
    assert_eq!(
        asked(step(&mut state, ControlCommand::SetThreadName { thread: thread_a(), name: s("x") })),
        "thread/name/set"
    );
    assert_eq!(
        asked(step(&mut state, ControlCommand::SetThreadArchived { thread: thread_a(), archived: false })),
        "thread/unarchive"
    );
    assert_eq!(asked(step(&mut state, ControlCommand::ReloadMcpServers)), "config/mcpServer/reload");
    assert_eq!(asked(step(&mut state, ControlCommand::StartMcpOauthLogin { name: s("m") })), "mcpServer/oauth/login");
    assert_eq!(asked(step(&mut state, ControlCommand::ListModels { cwd: s("/") })), "config/read");
    assert_eq!(
        refused(step(&mut state, ControlCommand::Interrupt { thread: thread_a() })),
        "interrupt was routed to the non-urgent Codex control dispatcher"
    );
    assert_eq!(
        refused(step(
            &mut state,
            ControlCommand::RespondApproval { id: s("x"), decision: ApprovalDecision::Accept }
        )),
        "no pending approval for id x"
    );
    assert_eq!(
        refused(step(
            &mut state,
            ControlCommand::RespondServerRequest {
                id: s("x"),
                response_payload: ServerRequestResponse::Result { value: Json::Null }
            }
        )),
        "no pending server request for id x"
    );
    state.accept_turn(&thread_a(), &s("turn-1"), TurnId(50), None, 0).unwrap();
    assert_eq!(
        refused(step(&mut state, ControlCommand::CompactThread { thread: thread_a() })),
        "context compaction is not available during an active turn"
    );
    assert_eq!(
        refused(step(&mut state, ControlCommand::SetThreadArchived { thread: thread_a(), archived: true })),
        "thread archiving is not available during an active turn"
    );
    let claim = ControlCommand::ClaimNativeThread {
        thread: ThreadId(1),
        harness_thread_id: s("native-a"),
        workspace_root: s("/workspace"),
    };
    assert_eq!(claim.thread_id(), Some(ThreadId(1)));
    assert!(!claim.urgent());
    match step(&mut state, claim) {
        ControlStep::Reply(Ok(Some(handle))) => assert_eq!(handle.thread, ThreadId(1)),
        _ => panic!("expected a thread"),
    }
    let blank = ControlCommand::ClaimNativeThread {
        thread: ThreadId(2),
        harness_thread_id: s(""),
        workspace_root: s("/workspace"),
    };
    assert!(matches!(step(&mut state, blank), ControlStep::Stop(_)));
}

#[test]
fn urgent_commands_stop_what_goes_on() {
    let mut state = BackgroundState::new(s("/workspace"));
    let mut routes = NativeRoutes::new();
    let interrupt = || ControlCommand::Interrupt { thread: thread_a() };
    assert!(interrupt().urgent());
    assert_eq!(
        refused(state.handle_urgent_command(&mut routes, interrupt(), None)),
        "no active Codex turn to interrupt"
    );
    state.accept_turn(&thread_a(), &s("turn-1"), TurnId(50), None, 0).unwrap();
    assert_eq!(asked(state.handle_urgent_command(&mut routes, interrupt(), None)), "turn/interrupt");
    assert_eq!(termination_call("native-a", "12").method, "thread/backgroundTerminals/terminate");
    assert_eq!(termination_call("native-a", "proc").method, "command/exec/terminate");
    assert!(matches!(complete_submitted_termination("12", Ok(false)), TerminationStep::Ask(_)));
    assert!(matches!(complete_submitted_termination("12", Ok(true)), TerminationStep::Done(Ok(()))));
    assert!(matches!(
        complete_submitted_termination("proc", Err(HarnessError::Timeout(s("t")))),
        TerminationStep::Done(Err(_))
    ));
    assert!(matches!(interrupted_answer(), ServerRequestResponse::Error { code: -32000, .. }));
    let _ = unroutable_answer(&RequestId::Integer(1));
}

#[test]
fn answers_that_cannot_be_written_can_be_tried_again() {
    let mut state = BackgroundState::new(s("/workspace"));
    state.observe_request(&RequestId::Integer(3), &tool_call(), ThreadId(1), fresh(), now());
    assert_eq!(state.interrupted(ThreadId(1)), (vec![], vec![s("3")]));
    let payload = || ServerRequestResponse::Result { value: Json::Null };
    let ControlStep::AnswerRequest(attempt) = state.begin_answer(s("3"), payload()) else {
        panic!("the request waits");
    };
    assert!(matches!(state.begin_answer(s("3"), payload()), ControlStep::Reply(Err(_))));
    assert!(state.settle_answer(attempt, Err(HarnessError::Timeout(s("t")))).is_err());
    let ControlStep::AnswerRequest(attempt) = state.begin_answer(s("3"), payload()) else {
        panic!("the request waits again");
    };
    match state.settle_answer(attempt, Ok(())) {
        Ok(AgentEvent::ServerRequestResolved { thread, request_id, .. }) => {
            assert_eq!((thread, request_id.as_str()), (ThreadId(1), "3"))
        }
        other => panic!("expected the end, got {other:?}"),
    }
}

#[test]
fn opening_asks_for_what_the_caller_wants() {
    assert_eq!(open_call(&options(Some("native-a"), false)).unwrap().method, "thread/resume");
    assert_eq!(open_call(&options(None, true)).unwrap().method, "thread/start");
    assert_eq!(
        words(open_call(&options(None, false)).unwrap_err()),
        "starting a new thread requires a model"
    );
    let rejected = || HarnessError::ProviderRejected { code: -32600, message: s("gone") };
    assert!(resume_failed(&options(Some("native-a"), true), rejected(), s("gone")).is_ok());
    assert!(resume_failed(&options(Some("native-a"), false), rejected(), s("gone")).is_err());
    assert!(resume_failed(&options(Some("native-a"), true), HarnessError::Timeout(s("t")), s("t")).is_err());
    assert_eq!(identity_failure(&options(None, true), &rejected()), Some((ThreadId(1), 4)));
    assert_eq!(identity_failure(&options(None, true), &HarnessError::Timeout(s("t"))), None);
    let told = opened_thread(
        OpenResponse {
            harness_thread_id: s("native-a"),
            model: s("m"),
            model_provider: s("p"),
            reasoning_effort: None,
            agent_nickname: Some(s("  ")),
            parent_thread_id: Some(s(" parent ")),
        },
        &Some(ModelRef { provider: s("x"), model: s("y"), reasoning_effort: Some(s("high")) }),
    );
    let model = told.model.unwrap();
    assert_eq!((model.model.as_str(), model.reasoning_effort.as_deref()), ("m", Some("high")));
    assert_eq!(told.agent_name, None);
    assert_eq!(told.parent_harness_thread_id.as_deref(), Some("parent"));
}

#[test]
fn threads_on_routes_with_epochs_are_opened_and_deleted() {
    let mut state = BackgroundState::new(s("/workspace"));
    let mut routes = NativeRoutes::new();
    let opts = options(Some("native-a"), true);
    assert_eq!(state.open_thread_id(&opts, ThreadId(99)), ThreadId(1));
    state.accept_open(&mut routes, &s("native-a"), ThreadId(1), Some(model())).unwrap();
    let (events, handle) = state
        .finish_open(&mut routes, ThreadId(1), opened("native-a"), &s("/workspace"), None)
        .unwrap();
    assert_eq!((events.len(), handle.thread), (1, ThreadId(1)));
    let taken = state
        .finish_open(&mut routes, ThreadId(2), opened("native-a"), &s("/workspace"), None)
        .unwrap_err();
    assert!(words(taken).contains("not intended Primary"));
    assert!(state
        .settle_delete(&mut routes, &handle, Err(HarnessError::Timeout(s("t"))))
        .is_err());
    assert!(routes.route_for_native("native-a").is_some());
    state.settle_delete(&mut routes, &handle, Ok(())).unwrap();
    assert!(routes.route_for_native("native-a").is_none());
    assert!(state.pending_context_restores.is_empty());
}
