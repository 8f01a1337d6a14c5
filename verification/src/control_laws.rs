//! What commands ask of the app-server, and how threads are opened and turns taken up.

use vstd::prelude::*;

use crate::answer_laws::law_answer_has_the_form_of_its_request;
use crate::approval::BodyView;
use crate::background::StateView;
use crate::control::{
    answering, approving, asked_thread, begun, begun_urgently, deleted, is_urgent, ControlCommand,
    ServerRequestResponse, StepView,
};
use crate::error::{ErrorView, HarnessError};
use crate::event::{AgentEvent, ApprovalDecision};
use crate::handle::{HarnessNotice, ModelRef, ThreadHandle};
use crate::ids::{ThreadId, TurnId};
use crate::json::{member, JsonTree};
use crate::mapper_model::{MapperView, PendingKind};
use crate::native_routes::RoutesView;
use crate::number::reads_as_i32;
use crate::opening::{
    failed_identity, first_request, opened_handle, opening_events, opening_thread, opens,
    tells_lost_context, OpenResponse, OpenThreadOptions, OpenedNativeThread,
};
use crate::request_laws::{
    law_config_is_read_for_the_directory, law_interrupt_names_the_turn,
    law_list_goes_on_from_the_cursor, law_login_names_the_server, law_name_call_names_the_thread,
    law_resume_names_the_thread, law_start_names_directory_and_model,
    law_termination_names_the_process, law_thread_call_names_the_thread,
};
use crate::text::{is_blank, trimmed};

verus! {

/// Whether a step asks the app-server by a method about a thread.
pub open spec fn asks_about(step: StepView, method: Seq<char>, thread: ThreadHandle) -> bool {
    &&& step matches StepView::Ask(call)
    &&& call.method == method
    &&& member(call.params, "threadId"@) == Some(JsonTree::Text(thread.harness_thread_id@))
}

/// A command about a thread asks the app-server for what the command says, and about that thread.
/// While a turn goes on in the thread, it is not compacted, archived or deleted.
pub proof fn law_command_asks_about_its_thread(
    state: StateView,
    routes: RoutesView,
    command: ControlCommand,
    parent: Option<String>,
)
    ensures
        ({
            let step = begun(state, routes, command, parent).2;
            &&& command matches ControlCommand::CompactThread { thread } ==> {
                &&& !state.active.contains_key(thread.thread) ==> asks_about(
                    step,
                    "thread/compact/start"@,
                    thread,
                )
                &&& state.active.contains_key(thread.thread) ==> step == StepView::Reply(
                    Err(
                        ErrorView::Unsupported(
                            "context compaction is not available during an active turn"@,
                        ),
                    ),
                )
            }
            &&& command matches ControlCommand::SetThreadArchived { thread, archived } ==> {
                &&& !state.active.contains_key(thread.thread) && archived ==> asks_about(
                    step,
                    "thread/archive"@,
                    thread,
                )
                &&& !state.active.contains_key(thread.thread) && !archived ==> asks_about(
                    step,
                    "thread/unarchive"@,
                    thread,
                )
                &&& state.active.contains_key(thread.thread) ==> step == StepView::Reply(
                    Err(
                        ErrorView::Unsupported(
                            "thread archiving is not available during an active turn"@,
                        ),
                    ),
                )
            }
            &&& command matches ControlCommand::DeleteThread { thread } ==> {
                &&& !state.active.contains_key(thread.thread) ==> asks_about(
                    step,
                    "thread/delete"@,
                    thread,
                )
                &&& state.active.contains_key(thread.thread) ==> step == StepView::Reply(
                    Err(
                        ErrorView::Unsupported(
                            "thread deletion is not available during an active turn"@,
                        ),
                    ),
                )
            }
            &&& command matches ControlCommand::SetThreadName { thread, name } ==> {
                &&& asks_about(step, "thread/name/set"@, thread)
                &&& member(step->Ask_0.params, "name"@) == Some(JsonTree::Text(name@))
            }
        }),
{
    match command {
        ControlCommand::CompactThread { thread } => {
            law_thread_call_names_the_thread(
                "thread/compact/start"@,
                thread.harness_thread_id@,
                Seq::empty(),
            );
        },
        ControlCommand::SetThreadArchived { thread, archived } => {
            let method = if archived {
                "thread/archive"@
            } else {
                "thread/unarchive"@
            };
            law_thread_call_names_the_thread(method, thread.harness_thread_id@, Seq::empty());
        },
        ControlCommand::DeleteThread { thread } => {
            law_thread_call_names_the_thread(
                "thread/delete"@,
                thread.harness_thread_id@,
                Seq::empty(),
            );
        },
        ControlCommand::SetThreadName { thread, name } => {
            law_name_call_names_the_thread(thread.harness_thread_id@, name@);
        },
        _ => {},
    }
}

/// What goes on in a thread is interrupted by the turn that goes on there, and by no other; where
/// none does, nothing is asked. A process is ended by its own name.
pub proof fn law_urgent_command_asks_about_its_turn(
    state: StateView,
    routes: RoutesView,
    command: ControlCommand,
    parent: Option<String>,
)
    ensures
        ({
            let step = begun_urgently(state, routes, command, parent).2;
            &&& command matches ControlCommand::Interrupt { thread } ==> {
                &&& state.mapper.active.contains_key(thread.thread) ==> {
                    &&& asks_about(step, "turn/interrupt"@, thread)
                    &&& member(step->Ask_0.params, "turnId"@) == Some(
                        JsonTree::Text(state.mapper.active[thread.thread]),
                    )
                }
                &&& !state.mapper.active.contains_key(thread.thread) ==> step == StepView::Reply(
                    Err(ErrorView::Unsupported("no active Codex turn to interrupt"@)),
                )
            }
            &&& command matches ControlCommand::TerminateCommand { thread, process_id } ==> {
                &&& step matches StepView::Ask(call)
                &&& member(call.params, "processId"@) == Some(JsonTree::Text(process_id@))
                &&& reads_as_i32(process_id@) ==> asks_about(
                    step,
                    "thread/backgroundTerminals/terminate"@,
                    thread,
                )
                &&& !reads_as_i32(process_id@) ==> call.method == "command/exec/terminate"@
            }
        }),
{
    match command {
        ControlCommand::Interrupt { thread } => {
            if state.mapper.active.contains_key(thread.thread) {
                law_interrupt_names_the_turn(
                    thread.harness_thread_id@,
                    state.mapper.active[thread.thread],
                );
            }
        },
        ControlCommand::TerminateCommand { thread, process_id } => {
            law_termination_names_the_process(thread.harness_thread_id@, process_id@);
        },
        _ => {},
    }
}

/// Servers, providers and models are asked for by their own methods: the servers from the first
/// page on, and the configuration for the directory of the command.
pub proof fn law_lists_are_asked_for(
    state: StateView,
    routes: RoutesView,
    command: ControlCommand,
    parent: Option<String>,
)
    ensures
        ({
            let step = begun(state, routes, command, parent).2;
            &&& command is ListMcpServers ==> {
                &&& step matches StepView::Ask(call)
                &&& call.method == "mcpServerStatus/list"@
                &&& member(call.params, "detail"@) == Some(JsonTree::Text("full"@))
                &&& member(call.params, "cursor"@) is None
            }
            &&& command is ReloadMcpServers ==> {
                &&& step matches StepView::Ask(call)
                &&& call.method == "config/mcpServer/reload"@
            }
            &&& command matches ControlCommand::StartMcpOauthLogin { name } ==> {
                &&& step matches StepView::Ask(call)
                &&& call.method == "mcpServer/oauth/login"@
                &&& member(call.params, "name"@) == Some(JsonTree::Text(name@))
            }
            &&& command matches ControlCommand::ListProviders { cwd } ==> {
                &&& step matches StepView::Ask(call)
                &&& call.method == "config/read"@
                &&& member(call.params, "cwd"@) == Some(JsonTree::Text(cwd@))
            }
            &&& command matches ControlCommand::ListModels { cwd } ==> {
                &&& step matches StepView::Ask(call)
                &&& call.method == "config/read"@
                &&& member(call.params, "cwd"@) == Some(JsonTree::Text(cwd@))
            }
        }),
{
    match command {
        ControlCommand::ListMcpServers => {
            law_list_goes_on_from_the_cursor(None);
        },
        ControlCommand::StartMcpOauthLogin { name } => {
            law_login_names_the_server(name@);
        },
        ControlCommand::ListProviders { cwd } => {
            law_config_is_read_for_the_directory(cwd@);
        },
        ControlCommand::ListModels { cwd } => {
            law_config_is_read_for_the_directory(cwd@);
        },
        _ => {},
    }
}

/// Only answers and claims change what is known; a command that asks the app-server changes nothing
/// by itself.
pub proof fn law_asking_changes_nothing(
    state: StateView,
    routes: RoutesView,
    command: ControlCommand,
    parent: Option<String>,
)
    ensures
        !(command is ClaimNativeThread) && !(command is RespondApproval) && !(command is
            RespondServerRequest) ==> {
            &&& begun(state, routes, command, parent).0 == state
            &&& begun(state, routes, command, parent).1 == routes
            &&& begun_urgently(state, routes, command, parent).0 == state
            &&& begun_urgently(state, routes, command, parent).1 == routes
        },
        begun(state, routes, command, parent).0.active == state.active,
        begun(state, routes, command, parent).0.compactions == state.compactions,
        begun(state, routes, command, parent).0.restores == state.restores,
{
}

/// An answer goes to the request that it was given for, with what was decided, and that request
/// alone waits no longer. Where no request waits under the name, nothing is written.
pub proof fn law_answer_goes_to_its_request(
    state: StateView,
    id: Seq<char>,
    decision: ApprovalDecision,
    other: Seq<char>,
)
    ensures
        ({
            let (after, step) = approving(state, id, decision);
            &&& !after.mapper.approvals.contains_key(id)
            &&& other != id ==> (after.mapper.approvals.contains_key(other)
                <==> state.mapper.approvals.contains_key(other))
            &&& other != id && state.mapper.approvals.contains_key(other)
                ==> after.mapper.approvals[other] == state.mapper.approvals[other]
            &&& after.mapper.requests == state.mapper.requests
            &&& after.mapper.active == state.mapper.active
            &&& after.active == state.active
            &&& step is AnswerApproval <==> state.mapper.approvals.contains_key(id)
            &&& !(step is AnswerApproval) ==> step == StepView::Reply(
                Err(ErrorView::Protocol("no pending approval for id "@ + id)),
            )
            &&& step matches StepView::AnswerApproval { name, pending, body } ==> {
                &&& name == id
                &&& pending == state.mapper.approvals[id]
                &&& pending.kind is Decision ==> {
                    &&& body matches BodyView::Result(tree)
                    &&& member(tree, "decision"@) == Some(JsonTree::Text("accept"@))
                        <==> decision is Accept
                    &&& member(tree, "decision"@) == Some(JsonTree::Text("decline"@))
                        <==> decision is Decline
                    &&& member(tree, "decision"@) == Some(JsonTree::Text("cancel"@))
                        <==> decision is Cancel
                }
                &&& pending.kind is LegacyReviewDecision ==> {
                    &&& body matches BodyView::Result(tree)
                    &&& member(tree, "decision"@) == Some(JsonTree::Text("approved"@))
                        <==> decision is Accept
                    &&& member(tree, "decision"@) == Some(JsonTree::Text("denied"@))
                        <==> decision is Decline
                    &&& member(tree, "decision"@) == Some(JsonTree::Text("abort"@))
                        <==> decision is Cancel
                }
                &&& pending.kind matches PendingKind::Permissions(permissions) ==> {
                    &&& body is Result <==> (decision is Accept || decision is AcceptForSession)
                    &&& body matches BodyView::Result(tree) ==> member(tree, "permissions"@) == Some(
                        permissions,
                    )
                }
            }
        }),
{
    if state.mapper.approvals.contains_key(id) {
        law_answer_has_the_form_of_its_request(state.mapper.approvals[id].kind, decision);
    }
}

/// The answer to another request is sent as it was given, to that request, which alone waits no
/// longer.
pub proof fn law_other_answer_is_sent_as_given(
    state: StateView,
    id: Seq<char>,
    payload: ServerRequestResponse,
    other: Seq<char>,
)
    ensures
        ({
            let (after, step) = answering(state, id, payload);
            &&& !after.mapper.requests.contains_key(id)
            &&& other != id ==> (after.mapper.requests.contains_key(other)
                <==> state.mapper.requests.contains_key(other))
            &&& other != id && state.mapper.requests.contains_key(other)
                ==> after.mapper.requests[other] == state.mapper.requests[other]
            &&& after.mapper.approvals == state.mapper.approvals
            &&& step is AnswerRequest <==> state.mapper.requests.contains_key(id)
            &&& !(step is AnswerRequest) ==> step == StepView::Reply(
                Err(ErrorView::Protocol("no pending server request for id "@ + id)),
            )
            &&& step matches StepView::AnswerRequest { name, pending, body } ==> {
                &&& name == id
                &&& pending == state.mapper.requests[id]
                &&& payload matches ServerRequestResponse::Result { value } ==> body
                    == BodyView::Result(value@)
                &&& payload matches ServerRequestResponse::Error { code, message } ==> body == (
                BodyView::Error { code: code as int, message: message@ })
            }
        }),
{
}

/// The commands that answer requests answer the request that they name, with what they bring.
pub proof fn law_commands_answer_what_they_name(
    state: StateView,
    routes: RoutesView,
    command: ControlCommand,
    parent: Option<String>,
)
    ensures
        command matches ControlCommand::RespondApproval { id, decision } ==> {
            &&& begun(state, routes, command, parent).0 == approving(state, id@, decision).0
            &&& begun(state, routes, command, parent).2 == approving(state, id@, decision).1
        },
        command matches ControlCommand::RespondServerRequest { id, response_payload } ==> {
            &&& begun(state, routes, command, parent).0 == answering(
                state,
                id@,
                response_payload,
            ).0
            &&& begun(state, routes, command, parent).2 == answering(
                state,
                id@,
                response_payload,
            ).1
        },
        command matches ControlCommand::ClaimNativeThread {
            harness_thread_id,
            workspace_root,
            ..
        } ==> (begun(state, routes, command, parent).2 matches StepView::Reply(Ok(handle))
            ==> handle is Some && handle->Some_0.harness_thread_id@ == harness_thread_id@
            && handle->Some_0.workspace_root@ == workspace_root@
            && handle->Some_0.parent_harness_thread_id == parent && begun(
            state,
            routes,
            command,
            parent,
        ).0.mapper.threads.contains_key(harness_thread_id@) && begun(
            state,
            routes,
            command,
            parent,
        ).0.mapper.threads[harness_thread_id@] == handle->Some_0.thread),
{
}

/// A thread that the app-server no longer has counts as deleted; every other failure is told.
pub proof fn law_missing_thread_counts_as_deleted(
    result: Result<(), HarnessError>,
    thread: Seq<char>,
)
    ensures
        result is Ok ==> deleted(result, thread) is Ok,
        result matches Err(error) ==> {
            &&& deleted(result, thread) is Ok <==> (error matches HarnessError::ProviderRejected {
                code,
                message,
            } && code == -32600 && message@ == "no rollout found for thread id "@ + thread)
            &&& deleted(result, thread) is Err ==> deleted(result, thread) == result
        },
{
}

/// A thread is opened by going on with it where one is named, and otherwise by starting one, for
/// which a model is needed. Either way it is in the directory that was asked for.
pub proof fn law_thread_is_opened_as_asked(opts: OpenThreadOptions)
    ensures
        opts.resume matches Some(native) ==> {
            &&& first_request(opts) matches Ok(call)
            &&& call.method == "thread/resume"@
            &&& member(call.params, "threadId"@) == Some(JsonTree::Text(native@))
            &&& member(call.params, "cwd"@) == Some(JsonTree::Text(opts.workspace_root@))
            &&& opts.initial_model matches Some(model) ==> member(call.params, "model"@) == Some(
                JsonTree::Text(model.model@),
            )
            &&& opts.initial_model is None ==> member(call.params, "model"@) is None
        },
        opts.resume is None ==> (opts.initial_model matches Some(model) ==> {
            &&& first_request(opts) matches Ok(call)
            &&& call.method == "thread/start"@
            &&& member(call.params, "cwd"@) == Some(JsonTree::Text(opts.workspace_root@))
            &&& member(call.params, "model"@) == Some(JsonTree::Text(model.model@))
            &&& member(call.params, "modelProvider"@) == Some(JsonTree::Text(model.provider@))
        }),
        first_request(opts) is Err <==> (opts.resume is None && opts.initial_model is None),
        first_request(opts) matches Err(error) ==> error == ErrorView::Protocol(
            "starting a new thread requires a model"@,
        ),
{
    match opts.resume {
        Some(native) => {
            law_resume_names_the_thread(native@, opts.workspace_root@, opts.initial_model);
        },
        None => {
            match opts.initial_model {
                Some(model) => {
                    law_start_names_directory_and_model(opts.workspace_root@, model);
                },
                None => {},
            }
        },
    }
}

/// The thread that is opened is the one that the app-server answers with, on the model that it
/// answers with. An effort that it leaves out is the one that was asked for; a model or provider
/// that it leaves out makes the model unknown. Blank names are none.
pub proof fn law_opened_thread_is_the_answered_one(
    response: OpenResponse,
    requested: Option<ModelRef>,
    opened: OpenedNativeThread,
)
    requires
        opens(response, requested, opened),
    ensures
        opened.harness_thread_id@ == response.harness_thread_id@,
        opened.model is None <==> (response.model@.len() == 0 || response.model_provider@.len()
            == 0),
        opened.model matches Some(model) ==> {
            &&& model.model@ == response.model@
            &&& model.provider@ == response.model_provider@
            &&& response.reasoning_effort is Some ==> model.reasoning_effort
                == response.reasoning_effort
            &&& response.reasoning_effort is None ==> (requested matches Some(asked)
                ==> model.reasoning_effort == asked.reasoning_effort)
            &&& response.reasoning_effort is None && requested is None
                ==> model.reasoning_effort is None
        },
        response.agent_nickname matches Some(name) ==> {
            &&& is_blank(name@) <==> opened.agent_name is None
            &&& opened.agent_name matches Some(told) ==> told@ == trimmed(name@)
        },
        response.agent_nickname is None ==> opened.agent_name is None,
        response.parent_thread_id matches Some(name) ==> {
            &&& is_blank(name@) <==> opened.parent_harness_thread_id is None
            &&& opened.parent_harness_thread_id matches Some(told) ==> told@ == trimmed(name@)
        },
        response.parent_thread_id is None ==> opened.parent_harness_thread_id is None,
{
}

/// Whoever opened a thread gets it as it was opened: the thread, its name, where it works, its
/// model, its agent and the thread it came from.
pub proof fn law_handle_is_of_the_opened_thread(
    thread: ThreadId,
    opened: OpenedNativeThread,
    root: String,
    warning: Option<HarnessNotice>,
)
    ensures
        ({
            let handle = opened_handle(thread, opened, root, warning);
            &&& handle.thread == thread
            &&& handle.harness_thread_id@ == opened.harness_thread_id@
            &&& handle.workspace_root@ == root@
            &&& handle.warning == warning
            &&& handle.resumed_model == opened.model
            &&& handle.agent_name == opened.agent_name
            &&& handle.parent_harness_thread_id == opened.parent_harness_thread_id
        }),
{
}

/// The first event of an opened thread tells that it is open, and under which name. A warning
/// follows it, in its own words, and nothing else does.
pub proof fn law_opening_is_told_first(
    thread: ThreadId,
    native: String,
    warning: Option<HarnessNotice>,
)
    ensures
        ({
            let events = opening_events(thread, native, warning);
            &&& events.len() == (if warning is Some {
                2int
            } else {
                1
            })
            &&& events[0] matches AgentEvent::ThreadOpened { thread: t, harness_thread_id }
            &&& t == thread
            &&& harness_thread_id@ == native@
            &&& warning matches Some(notice) ==> {
                &&& events[1] matches AgentEvent::Error { thread: t, turn, error }
                &&& t == thread
                &&& turn is None
                &&& error matches HarnessError::Transport(words)
                &&& words@ == notice.message@
            }
        }),
{
}

/// A thread whose context was lost is told so, with why.
pub proof fn law_lost_context_tells_why(notice: HarnessNotice, why: String)
    requires
        tells_lost_context(notice, why),
    ensures
        notice.code@ == "codex_resume_failed"@,
        notice.detail == Some(why),
        notice.message@
            == "Agent context was lost; started a fresh Codex session. History is intact."@,
{
}

/// A thread is opened under the identity that its caller knows; where the caller knows none, under
/// the one that its name is bound to, and otherwise under a fresh one.
pub proof fn law_identity_is_the_known_one(
    state: StateView,
    opts: OpenThreadOptions,
    fresh: ThreadId,
)
    ensures
        opts.thread matches Some(thread) ==> opening_thread(state, opts, fresh) == thread,
        opts.thread is None ==> (opts.resume matches Some(native) ==> {
            &&& state.mapper.threads.contains_key(native@) ==> opening_thread(state, opts, fresh)
                == state.mapper.threads[native@]
            &&& !state.mapper.threads.contains_key(native@) ==> opening_thread(state, opts, fresh)
                == fresh
        }),
        opts.thread is None && opts.resume is None ==> opening_thread(state, opts, fresh) == fresh,
{
}

/// The identity of a thread that could not be opened is given up under its own generation, unless
/// the time ran out, when nobody knows whether it was opened.
pub proof fn law_identity_of_a_failed_opening(opts: OpenThreadOptions, error: HarnessError)
    ensures
        failed_identity(opts, error) is Some <==> (opts.thread is Some && opts.identity_generation is
            Some && !(error is Timeout)),
        failed_identity(opts, error) matches Some((thread, generation)) ==> opts.thread == Some(
            thread,
        ) && opts.identity_generation == Some(generation),
{
}

/// A turn that the app-server took up is noted for its thread, under the name that it has there and
/// with the uploads that belong to it. No other thread is touched, and an answer without a name is
/// refused and notes nothing.
pub proof fn law_turn_is_noted_for_its_thread(
    state: StateView,
    thread: ThreadHandle,
    native: Seq<char>,
    fresh: TurnId,
    upload_dir: Option<String>,
    clock: u64,
    other: ThreadId,
)
    ensures
        ({
            let (after, turn) = state.accepted(thread, native, fresh, upload_dir, clock);
            &&& native.len() == 0 <==> turn is Err
            &&& turn matches Err(error) ==> error == ErrorView::Protocol(
                "turn/start response did not include a turn id"@,
            )
            &&& native.len() == 0 ==> after == state
            &&& native.len() > 0 ==> {
                &&& after.active.contains_key(thread.thread)
                &&& after.active[thread.thread].thread == thread
                &&& after.active[thread.thread].acknowledged_turn == turn->Ok_0
                &&& after.active[thread.thread].active_turn == Some(turn->Ok_0)
                &&& after.active[thread.thread].started_at == clock
                &&& after.active[thread.thread].upload_dir == upload_dir
                &&& !after.active[thread.thread].saw_server_message
                &&& !after.active[thread.thread].warned_no_server_message
                &&& after.mapper.active.contains_key(thread.thread)
                &&& after.mapper.active[thread.thread] == native
                &&& state.mapper.turns.contains_key(native) ==> turn->Ok_0
                    == state.mapper.turns[native]
                &&& !state.mapper.turns.contains_key(native) ==> turn->Ok_0 == fresh
                    && after.mapper.turns.contains_key(native) && after.mapper.turns[native]
                    == fresh
                &&& other != thread.thread ==> (after.active.contains_key(other)
                    <==> state.active.contains_key(other))
                &&& other != thread.thread && state.active.contains_key(other)
                    ==> after.active[other] == state.active[other]
            }
        }),
{
}

/// A command is about the thread that it names. Answers, lists and logins are about none.
pub proof fn law_command_is_about_its_thread(command: ControlCommand)
    ensures
        command matches ControlCommand::ClaimNativeThread { thread, .. } ==> asked_thread(command)
            == Some(thread),
        command matches ControlCommand::Interrupt { thread } ==> asked_thread(command) == Some(
            thread.thread,
        ),
        command matches ControlCommand::TerminateCommand { thread, .. } ==> asked_thread(command)
            == Some(thread.thread),
        command matches ControlCommand::CompactThread { thread } ==> asked_thread(command) == Some(
            thread.thread,
        ),
        command matches ControlCommand::SetThreadName { thread, .. } ==> asked_thread(command)
            == Some(thread.thread),
        command matches ControlCommand::SetThreadArchived { thread, .. } ==> asked_thread(command)
            == Some(thread.thread),
        command matches ControlCommand::DeleteThread { thread } ==> asked_thread(command) == Some(
            thread.thread,
        ),
        command is RespondApproval || command is RespondServerRequest || command is ListMcpServers
            || command is ReloadMcpServers || command is StartMcpOauthLogin || command is
            ListProviders || command is ListModels ==> asked_thread(command) is None,
{
}

/// Answers, interruptions and the end of a command do not wait behind other work. All else does.
pub proof fn law_only_answers_and_stops_are_urgent(command: ControlCommand)
    ensures
        command is RespondApproval ==> is_urgent(command),
        command is RespondServerRequest ==> is_urgent(command),
        command is Interrupt ==> is_urgent(command),
        command is TerminateCommand ==> is_urgent(command),
        command is ClaimNativeThread || command is CompactThread || command is SetThreadName
            || command is SetThreadArchived || command is DeleteThread || command is ListMcpServers
            || command is ReloadMcpServers || command is StartMcpOauthLogin || command is
            ListProviders || command is ListModels ==> !is_urgent(command),
{
}

/// The requests that wait in a thread are those that were asked there.
pub proof fn law_requests_wait_in_their_thread(
    known: MapperView,
    thread: ThreadId,
    id: Seq<char>,
)
    ensures
        known.approvals_of(thread).contains(id) <==> known.approvals.contains_key(id)
            && known.approvals[id].thread == thread,
        known.requests_of(thread).contains(id) <==> known.requests.contains_key(id)
            && known.requests[id].thread == thread,
{
}

} // verus!
