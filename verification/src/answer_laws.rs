//! What requests of the app-server ask, and what their answers say.

use vstd::prelude::*;

use crate::approval::{
    action_command, action_meta, actions_meta, amendments_meta, command_line, command_meta,
    decision_tree, file_system_meta, first_command, host_meta, is_plain, legacy_tree, not_blank,
    meta_views, opt_ref_meta, opt_text_meta, patch_meta, patch_path, patches_meta, path_meta,
    permission_parts, permission_words, permissions_body, permissions_meta, place_meta, places_meta,
    present_text, preview_chars, ref_meta, refs_meta, shown_part, text_meta, BodyView, MetaView,
};
use crate::diff::{kind_of, label_of};
use crate::event::{thread_of, turn_of, AgentEvent, ApprovalDecision, ApprovalKind, FileChangeKind};
use crate::event_laws::{lands, turn_named};
use crate::ids::{RequestId, ThreadId, TurnId};
use crate::items::wire_chars;
use crate::json::{json_text, law_member_is_the_first_entry, member, quoted, JsonTree};
use crate::mapper::answer_of;
use crate::mapper_model::{MapperView, PendingKind};
use crate::protocol::{
    ApplyPatchApprovalParams, CommandAction, CommandApprovalParams, FileSystemEntry, FileSystemPath,
    FileSystemPermissions, LegacyFileChange, NetworkAmendment, PatchChangeKind, PathRef,
    PermissionsApprovalParams, ServerRequest,
};
use crate::text::{is_blank, is_space, joined, trimmed};

verus! {

/// Whether a value is the list of texts, in order.
pub open spec fn lists(tree: JsonTree, texts: Seq<String>) -> bool {
    &&& tree matches JsonTree::Array(items)
    &&& items.len() == texts.len()
    &&& forall|i: int| 0 <= i < texts.len() ==> #[trigger] items[i] == JsonTree::Text(texts[i]@)
}

/// An answer says what was decided, each decision in its own word and no other decision in that
/// word. An amendment is sent as it was decided.
pub proof fn law_answer_says_what_was_decided(decision: ApprovalDecision)
    ensures
        member(decision_tree(decision), "decision"@) == Some(JsonTree::Text("accept"@))
            <==> decision is Accept,
        member(decision_tree(decision), "decision"@) == Some(JsonTree::Text("acceptForSession"@))
            <==> decision is AcceptForSession,
        member(decision_tree(decision), "decision"@) == Some(JsonTree::Text("decline"@))
            <==> decision is Decline,
        member(decision_tree(decision), "decision"@) == Some(JsonTree::Text("cancel"@))
            <==> decision is Cancel,
        decision matches ApprovalDecision::AcceptWithExecPolicyAmendment { amendment } ==> {
            &&& member(decision_tree(decision), "decision"@) matches Some(told)
            &&& member(told, "acceptWithExecpolicyAmendment"@) matches Some(change)
            &&& member(change, "execpolicy_amendment"@) matches Some(words)
            &&& lists(words, amendment@)
        },
{
    reveal_strlit("accept");
    assert("accept"@.len() == 6);
    reveal_strlit("acceptForSession");
    assert("acceptForSession"@.len() == 16);
    reveal_strlit("decline");
    assert("decline"@.len() == 7);
    reveal_strlit("cancel");
    assert("cancel"@.len() == 6);
    assert("accept"@[0] != "cancel"@[0]);
    let entries = decision_tree(decision)->Object_0;
    law_member_is_the_first_entry(entries, "decision"@, 0);
    if decision is AcceptWithExecPolicyAmendment {
        let told = entries[0].1->Object_0;
        law_member_is_the_first_entry(told, "acceptWithExecpolicyAmendment"@, 0);
        law_member_is_the_first_entry(told[0].1->Object_0, "execpolicy_amendment"@, 0);
    }
}

/// In the older form, too, an answer says what was decided, each decision in its own word and no
/// other decision in that word.
pub proof fn law_older_answer_says_what_was_decided(decision: ApprovalDecision)
    ensures
        member(legacy_tree(decision), "decision"@) == Some(JsonTree::Text("approved"@))
            <==> decision is Accept,
        member(legacy_tree(decision), "decision"@) == Some(JsonTree::Text("approved_for_session"@))
            <==> decision is AcceptForSession,
        member(legacy_tree(decision), "decision"@) == Some(JsonTree::Text("denied"@))
            <==> decision is Decline,
        member(legacy_tree(decision), "decision"@) == Some(JsonTree::Text("abort"@))
            <==> decision is Cancel,
        decision matches ApprovalDecision::AcceptWithExecPolicyAmendment { amendment } ==> {
            &&& member(legacy_tree(decision), "decision"@) matches Some(told)
            &&& member(told, "approved_execpolicy_amendment"@) matches Some(change)
            &&& member(change, "proposed_execpolicy_amendment"@) matches Some(words)
            &&& lists(words, amendment@)
        },
{
    reveal_strlit("approved");
    assert("approved"@.len() == 8);
    reveal_strlit("approved_for_session");
    assert("approved_for_session"@.len() == 20);
    reveal_strlit("denied");
    assert("denied"@.len() == 6);
    reveal_strlit("abort");
    assert("abort"@.len() == 5);
    let entries = legacy_tree(decision)->Object_0;
    law_member_is_the_first_entry(entries, "decision"@, 0);
    if decision is AcceptWithExecPolicyAmendment {
        let told = entries[0].1->Object_0;
        law_member_is_the_first_entry(told, "approved_execpolicy_amendment"@, 0);
        law_member_is_the_first_entry(told[0].1->Object_0, "proposed_execpolicy_amendment"@, 0);
    }
}

/// Permissions are granted for the turn or for the session as it was decided, and they are those
/// that were asked for. Every other decision is answered by an error.
pub proof fn law_permissions_last_as_decided(decision: ApprovalDecision, permissions: JsonTree)
    ensures
        decision is Accept <==> {
            &&& permissions_body(decision, permissions) matches BodyView::Result(tree)
            &&& member(tree, "permissions"@) == Some(permissions)
            &&& member(tree, "scope"@) == Some(JsonTree::Text("turn"@))
        },
        decision is AcceptForSession <==> {
            &&& permissions_body(decision, permissions) matches BodyView::Result(tree)
            &&& member(tree, "permissions"@) == Some(permissions)
            &&& member(tree, "scope"@) == Some(JsonTree::Text("session"@))
        },
        decision is Decline <==> permissions_body(decision, permissions) == (BodyView::Error {
            code: -32000,
            message: "Permissions request declined."@,
        }),
        decision is Cancel <==> permissions_body(decision, permissions) == (BodyView::Error {
            code: -32000,
            message: "Permissions request cancelled."@,
        }),
        decision is AcceptWithExecPolicyAmendment ==> permissions_body(decision, permissions)
            is Error,
{
    reveal_strlit("turn");
    assert("turn"@.len() == 4);
    reveal_strlit("session");
    assert("session"@.len() == 7);
    reveal_strlit("permissions");
    assert("permissions"@.len() == 11);
    reveal_strlit("scope");
    assert("scope"@.len() == 5);
    reveal_strlit("Permissions request declined.");
    assert("Permissions request declined."@.len() == 29);
    reveal_strlit("Permissions request cancelled.");
    assert("Permissions request cancelled."@.len() == 30);
    reveal_strlit("Exec policy amendments are not valid for permissions requests.");
    assert("Exec policy amendments are not valid for permissions requests."@.len() == 62);
    match permissions_body(decision, permissions) {
        BodyView::Result(tree) => {
            let entries = tree->Object_0;
            law_member_is_the_first_entry(entries, "permissions"@, 0);
            law_member_is_the_first_entry(entries, "scope"@, 1);
        },
        _ => {},
    }
}

/// Whether two decisions are of the same kind.
pub open spec fn same_decision(a: ApprovalDecision, b: ApprovalDecision) -> bool {
    &&& a is Accept <==> b is Accept
    &&& a is AcceptForSession <==> b is AcceptForSession
    &&& a is Decline <==> b is Decline
    &&& a is Cancel <==> b is Cancel
    &&& a is AcceptWithExecPolicyAmendment <==> b is AcceptWithExecPolicyAmendment
}

/// Whatever kind of answer a request waits for, two decisions that differ give answers that differ:
/// none that refuses is ever taken for one that accepts.
pub proof fn law_answers_are_told_apart(kind: PendingKind, a: ApprovalDecision, b: ApprovalDecision)
    requires
        !same_decision(a, b),
    ensures
        answer_of(kind, a) != answer_of(kind, b),
{
    match kind {
        PendingKind::Decision => {
            law_answer_says_what_was_decided(a);
            law_answer_says_what_was_decided(b);
        },
        PendingKind::Permissions(permissions) => {
            law_permissions_last_as_decided(a, permissions);
            law_permissions_last_as_decided(b, permissions);
        },
        PendingKind::LegacyReviewDecision => {
            law_older_answer_says_what_was_decided(a);
            law_older_answer_says_what_was_decided(b);
        },
    }
}

/// Every request is answered in its own form: commands and changes of files by a decision, requests
/// in the older form by a decision in the older form, and permissions by what is granted.
pub proof fn law_answer_has_the_form_of_its_request(kind: PendingKind, decision: ApprovalDecision)
    ensures
        kind is Decision ==> {
            &&& answer_of(kind, decision) matches BodyView::Result(tree)
            &&& member(tree, "decision"@) == Some(JsonTree::Text("accept"@)) <==> decision is Accept
            &&& member(tree, "decision"@) == Some(JsonTree::Text("acceptForSession"@))
                <==> decision is AcceptForSession
            &&& member(tree, "decision"@) == Some(JsonTree::Text("decline"@))
                <==> decision is Decline
            &&& member(tree, "decision"@) == Some(JsonTree::Text("cancel"@)) <==> decision is Cancel
        },
        kind is LegacyReviewDecision ==> {
            &&& answer_of(kind, decision) matches BodyView::Result(tree)
            &&& member(tree, "decision"@) == Some(JsonTree::Text("approved"@))
                <==> decision is Accept
            &&& member(tree, "decision"@) == Some(JsonTree::Text("approved_for_session"@))
                <==> decision is AcceptForSession
            &&& member(tree, "decision"@) == Some(JsonTree::Text("denied"@)) <==> decision is Decline
            &&& member(tree, "decision"@) == Some(JsonTree::Text("abort"@)) <==> decision is Cancel
        },
        kind matches PendingKind::Permissions(permissions) ==> {
            &&& answer_of(kind, decision) is Result <==> (decision is Accept || decision is
                AcceptForSession)
            &&& answer_of(kind, decision) matches BodyView::Result(tree) ==> {
                &&& member(tree, "permissions"@) == Some(permissions)
                &&& member(tree, "scope"@) == Some(JsonTree::Text("turn"@)) <==> decision is Accept
                &&& member(tree, "scope"@) == Some(JsonTree::Text("session"@))
                    <==> decision is AcceptForSession
            }
        },
{
    match kind {
        PendingKind::Decision => {
            law_answer_says_what_was_decided(decision);
        },
        PendingKind::Permissions(permissions) => {
            law_permissions_last_as_decided(decision, permissions);
        },
        PendingKind::LegacyReviewDecision => {
            law_older_answer_says_what_was_decided(decision);
        },
    }
}

/// The name that a conversation of the older form goes by.
pub open spec fn conversation_name(conversation: JsonTree) -> Seq<char> {
    match conversation {
        JsonTree::Text(name) => name,
        _ => Seq::empty(),
    }
}

/// Whether the event of a request belongs to the thread that the request names.
pub open spec fn asks_where_named(
    threads: Map<Seq<char>, ThreadId>,
    request: ServerRequest,
    fallback: ThreadId,
    event: AgentEvent,
) -> bool {
    &&& request matches ServerRequest::CmdExecApproval(p) ==> lands(
        threads,
        p.thread_id@,
        fallback,
        Some(event),
    )
    &&& request matches ServerRequest::FileChangeApproval(p) ==> lands(
        threads,
        p.thread_id@,
        fallback,
        Some(event),
    )
    &&& request matches ServerRequest::PermissionsRequestApproval(p) ==> lands(
        threads,
        p.thread_id@,
        fallback,
        Some(event),
    )
    &&& request matches ServerRequest::ExecCommandApproval(p) ==> lands(
        threads,
        conversation_name(p.conversation_id@),
        fallback,
        Some(event),
    )
    &&& request matches ServerRequest::ApplyPatchApproval(p) ==> lands(
        threads,
        conversation_name(p.conversation_id@),
        fallback,
        Some(event),
    )
    &&& request matches ServerRequest::ToolRequestUserInput(p) ==> lands(
        threads,
        p.thread_id@,
        fallback,
        Some(event),
    )
    &&& request matches ServerRequest::ItemToolCall(p) ==> lands(
        threads,
        p.thread_id@,
        fallback,
        Some(event),
    )
    &&& request is McpServerElicitationRequest || request is ChatgptAuthTokensRefresh || request is
        AttestationGenerate || request is Unknown ==> thread_of(event) == fallback
}

/// A request is told in the thread that it names, and in the turn that it names. One of the older
/// form belongs to the turn that goes on in its thread.
pub proof fn law_request_goes_to_the_named_thread(
    known: MapperView,
    id: RequestId,
    request: ServerRequest,
    fallback: ThreadId,
    fresh: TurnId,
    now_ms: i64,
    event: AgentEvent,
)
    requires
        known.asks(id, request, fallback, fresh, now_ms, event),
    ensures
        asks_where_named(known.threads, request, fallback, event),
        request matches ServerRequest::CmdExecApproval(p) ==> turn_named(
            known.turns,
            p.turn_id@,
            fresh,
            turn_of(event),
        ),
        request matches ServerRequest::FileChangeApproval(p) ==> turn_named(
            known.turns,
            p.turn_id@,
            fresh,
            turn_of(event),
        ),
        request matches ServerRequest::PermissionsRequestApproval(p) ==> turn_named(
            known.turns,
            p.turn_id@,
            fresh,
            turn_of(event),
        ),
        request is ExecCommandApproval || request is ApplyPatchApproval ==> {
            let thread = thread_of(event);
            &&& known.active.contains_key(thread) ==> turn_named(
                known.turns,
                known.active[thread],
                fresh,
                turn_of(event),
            )
            &&& !known.active.contains_key(thread) ==> turn_of(event) == Some(fresh)
        },
        request matches ServerRequest::ToolRequestUserInput(p) ==> {
            &&& p.turn_id@.len() == 0 ==> turn_of(event) is None
            &&& p.turn_id@.len() > 0 ==> turn_named(
                known.turns,
                p.turn_id@,
                fresh,
                turn_of(event),
            )
        },
        request matches ServerRequest::ItemToolCall(p) ==> {
            &&& p.turn_id@.len() == 0 ==> turn_of(event) is None
            &&& p.turn_id@.len() > 0 ==> turn_named(
                known.turns,
                p.turn_id@,
                fresh,
                turn_of(event),
            )
        },
{
}

/// A request for approval is told as one, and every other request as it came. Each carries its own
/// name, by which it is answered.
pub proof fn law_request_is_told_as_it_came(
    known: MapperView,
    id: RequestId,
    request: ServerRequest,
    fallback: ThreadId,
    fresh: TurnId,
    now_ms: i64,
    event: AgentEvent,
)
    requires
        known.asks(id, request, fallback, fresh, now_ms, event),
    ensures
        event is ApprovalRequested <==> (request is CmdExecApproval || request is FileChangeApproval
            || request is PermissionsRequestApproval || request is ExecCommandApproval
            || request is ApplyPatchApproval),
        event is ApprovalRequested || event is ServerRequestReceived,
        event matches AgentEvent::ApprovalRequested { request: asked, .. } ==> {
            &&& id matches RequestId::String(text) ==> asked.id@ == text@
            &&& asked.available@.len() == 4
            &&& asked.available@[0] is Accept
            &&& asked.available@[1] is AcceptForSession
            &&& asked.available@[2] is Decline
            &&& asked.available@[3] is Cancel
        },
        event matches AgentEvent::ServerRequestReceived { request: asked, .. } ==> {
            &&& id matches RequestId::String(text) ==> asked.id@ == text@
            &&& asked.received_at_ms == now_ms
            &&& request matches ServerRequest::ToolRequestUserInput(p) ==> asked.params@ == p.params@
                && asked.method@ == "item/tool/requestUserInput"@
            &&& request matches ServerRequest::ItemToolCall(p) ==> asked.params@ == p.params@
                && asked.method@ == "item/tool/call"@
            &&& request matches ServerRequest::McpServerElicitationRequest(params) ==> asked.params@
                == params@ && asked.method@ == "mcpServer/elicitation/request"@
            &&& request matches ServerRequest::ChatgptAuthTokensRefresh(params) ==> asked.params@
                == params@ && asked.method@ == "account/chatgptAuthTokens/refresh"@
            &&& request matches ServerRequest::AttestationGenerate(params) ==> asked.params@
                == params@ && asked.method@ == "attestation/generate"@
            &&& request matches ServerRequest::Unknown { method, params } ==> {
                &&& asked.method@ == method@
                &&& params matches Some(all) ==> asked.params@ == all@
                &&& params is None ==> asked.params@ == JsonTree::Null
            }
        },
{
}

/// What is to be approved is what the request asks: a command, and where it runs; a change of
/// files, and below which root; or permissions. The reason is told as it came.
pub proof fn law_approval_shows_what_is_asked(
    known: MapperView,
    id: RequestId,
    request: ServerRequest,
    fallback: ThreadId,
    fresh: TurnId,
    now_ms: i64,
    event: AgentEvent,
)
    requires
        known.asks(id, request, fallback, fresh, now_ms, event),
    ensures
        request matches ServerRequest::CmdExecApproval(p) ==> {
            &&& event matches AgentEvent::ApprovalRequested { request: asked, .. }
            &&& asked.reason == p.reason
            &&& asked.kind matches ApprovalKind::CommandExecution { command, cwd }
            &&& command@ == preview_chars(p)
            &&& p.cwd matches Some(dir) ==> cwd@ == dir@
            &&& p.cwd is None ==> cwd@.len() == 0
        },
        request matches ServerRequest::FileChangeApproval(p) ==> {
            &&& event matches AgentEvent::ApprovalRequested { request: asked, .. }
            &&& asked.reason == p.reason
            &&& asked.kind matches ApprovalKind::FileChange { path, change }
            &&& p.grant_root matches Some(root) ==> path@ == root@
            &&& p.grant_root is None ==> path@.len() == 0
            &&& change == FileChangeKind::Modified
        },
        request matches ServerRequest::PermissionsRequestApproval(p) ==> {
            &&& event matches AgentEvent::ApprovalRequested { request: asked, .. }
            &&& asked.reason == p.reason
            &&& asked.kind matches ApprovalKind::Permission { detail }
            &&& detail@ == permission_words(
                present_text(p.permissions@, "fileSystem"@),
                present_text(p.permissions@, "network"@),
                json_text(p.permissions@),
            )
        },
        request matches ServerRequest::ExecCommandApproval(p) ==> {
            &&& event matches AgentEvent::ApprovalRequested { request: asked, .. }
            &&& asked.reason == p.reason
            &&& asked.kind matches ApprovalKind::CommandExecution { command, cwd }
            &&& command@ == command_line(p.command@)
            &&& cwd@ == p.cwd@
        },
        request matches ServerRequest::ApplyPatchApproval(p) ==> {
            &&& event matches AgentEvent::ApprovalRequested { request: asked, .. }
            &&& asked.reason == p.reason
            &&& asked.kind matches ApprovalKind::FileChange { path, change }
            &&& change == FileChangeKind::Modified
            &&& path@ == patch_path(p)
        },
{
}

/// A request waits for its answer under its own name, in the thread and the turn that its event
/// tells, and for an answer of its own form. The other requests wait as they did.
pub proof fn law_request_waits_as_it_was_told(
    known: MapperView,
    id: RequestId,
    request: ServerRequest,
    fallback: ThreadId,
    fresh: TurnId,
    now_ms: i64,
    event: AgentEvent,
    other: Seq<char>,
)
    requires
        known.asks(id, request, fallback, fresh, now_ms, event),
    ensures
        ({
            let after = known.requested(id, request, fallback, fresh);
            &&& event is ApprovalRequested ==> {
                &&& after.approvals.contains_key(id.chars())
                &&& after.approvals[id.chars()].request_id == id
                &&& after.approvals[id.chars()].thread == thread_of(event)
                &&& Some(after.approvals[id.chars()].turn) == turn_of(event)
                &&& after.requests == known.requests
                &&& other != id.chars() ==> (after.approvals.contains_key(other)
                    <==> known.approvals.contains_key(other))
                &&& other != id.chars() && known.approvals.contains_key(other)
                    ==> after.approvals[other] == known.approvals[other]
            }
            &&& event is ServerRequestReceived ==> {
                &&& after.requests.contains_key(id.chars())
                &&& after.requests[id.chars()].request_id == id
                &&& after.requests[id.chars()].thread == thread_of(event)
                &&& after.requests[id.chars()].turn == turn_of(event)
                &&& after.approvals == known.approvals
                &&& other != id.chars() ==> (after.requests.contains_key(other)
                    <==> known.requests.contains_key(other))
                &&& other != id.chars() && known.requests.contains_key(other)
                    ==> after.requests[other] == known.requests[other]
            }
            &&& request is CmdExecApproval || request is FileChangeApproval
                ==> after.approvals[id.chars()].kind is Decision
            &&& request matches ServerRequest::PermissionsRequestApproval(p)
                ==> after.approvals[id.chars()].kind == PendingKind::Permissions(p.permissions@)
            &&& request is ExecCommandApproval || request is ApplyPatchApproval
                ==> after.approvals[id.chars()].kind is LegacyReviewDecision
            &&& after.active == known.active
            &&& after.usage == known.usage
            &&& after.running == known.running
        }),
{
}

/// What is shown for a command is the first thing that it does, where one is told that is not blank;
/// otherwise it is the command itself.
pub proof fn law_preview_is_the_first_command(params: CommandApprovalParams, i: int)
    ensures
        params.command_actions matches Some(actions) ==> {
            &&& 0 <= i < actions@.len() && !is_blank(action_command(actions@[i])@) && (forall|j: int|
                0 <= j < i ==> is_blank(action_command(#[trigger] actions@[j])@)) ==> preview_chars(
                params,
            ) == action_command(actions@[i])@
            &&& (forall|j: int|
                0 <= j < actions@.len() ==> is_blank(action_command(#[trigger] actions@[j])@)) ==> (
            params.command matches Some(command) ==> preview_chars(params) == command@)
        },
        params.command_actions is None ==> (params.command matches Some(command) ==> preview_chars(
            params,
        ) == command@),
{
    match params.command_actions {
        Some(actions) => {
            lemma_first_command(actions@, i);
        },
        None => {},
    }
}

proof fn lemma_first_command(actions: Seq<CommandAction>, i: int)
    ensures
        0 <= i < actions.len() && !is_blank(action_command(actions[i])@) && (forall|j: int|
            0 <= j < i ==> is_blank(action_command(#[trigger] actions[j])@)) ==> first_command(
            actions,
        ) == Some(action_command(actions[i])@),
        (forall|j: int|
            0 <= j < actions.len() ==> is_blank(action_command(#[trigger] actions[j])@))
            ==> first_command(actions) is None,
    decreases actions.len(),
{
    if actions.len() > 0 {
        let rest = actions.drop_first();
        lemma_first_command(rest, i - 1);
        assert(forall|j: int| 0 <= j < rest.len() ==> #[trigger] rest[j] == actions[j + 1]);
        if is_blank(action_command(actions[0])@) && 0 < i < actions.len() {
            assert(rest[i - 1] == actions[i]);
        }
    }
}

/// Every action is told with its own command.
pub proof fn law_action_is_told_with_its_command(action: CommandAction)
    ensures
        action matches CommandAction::Read { command, .. } ==> action_command(action) == command,
        action matches CommandAction::ListFiles { command, .. } ==> action_command(action)
            == command,
        action matches CommandAction::Search { command, .. } ==> action_command(action) == command,
        action matches CommandAction::Unknown { command } ==> action_command(action) == command,
{
}

/// A command of the older form is shown part by part, with blanks between them: a part that a shell
/// takes as it is stands as it is, every other is quoted, and a blank part is left out.
pub proof fn law_command_line_shows_every_part(parts: Seq<String>, more: String)
    ensures
        is_blank(more@) ==> command_line(parts.push(more)) == command_line(parts),
        !is_blank(more@) && not_blank(parts).len() == 0 ==> command_line(parts.push(more))
            == shown_part(more@),
        !is_blank(more@) && not_blank(parts).len() > 0 ==> command_line(parts.push(more))
            == command_line(parts) + " "@ + shown_part(more@),
        (forall|i: int| 0 <= i < more@.len() ==> is_plain(#[trigger] more@[i])) ==> shown_part(
            more@,
        ) == more@,
        !(forall|i: int| 0 <= i < more@.len() ==> is_plain(#[trigger] more@[i])) ==> shown_part(
            more@,
        ) == quoted(more@),
{
    let shown = |part: Seq<char>| shown_part(part);
    let all = parts.push(more);
    assert(all.drop_last() =~= parts);
    if !is_blank(more@) {
        let before = not_blank(parts).map_values(shown);
        let now = not_blank(all).map_values(shown);
        assert(now =~= before.push(shown_part(more@)));
        assert(now.drop_last() =~= before);
    }
}

/// A patch of the older form is shown by the root that is asked for, where that is not blank, and
/// otherwise by the first file that it changes.
pub proof fn law_patch_is_shown_by_its_place(params: ApplyPatchApprovalParams)
    ensures
        params.grant_root matches Some(root) ==> (!is_blank(root@) ==> patch_path(params) == root@),
        (params.grant_root is None || is_blank(params.grant_root->Some_0@))
            && params.file_changes@.len() > 0 ==> patch_path(params)
            == params.file_changes@[0].path.path@,
        (params.grant_root is None || is_blank(params.grant_root->Some_0@))
            && params.file_changes@.len() == 0 ==> patch_path(params).len() == 0,
{
}

/// Permissions are shown by what they are about, the file system before the network; where they
/// are about neither, they are shown whole.
pub proof fn law_permissions_are_shown_by_what_they_are_about(
    files: Seq<char>,
    network: Seq<char>,
    all: Seq<char>,
)
    ensures
        permission_words(Some(files), None, all) == "fileSystem: "@ + files,
        permission_words(None, Some(network), all) == "network: "@ + network,
        permission_words(Some(files), Some(network), all) == "fileSystem: "@ + files + "; "@ + (
        "network: "@ + network),
        permission_words(None, None, all) == all,
{
    let both = permission_parts(Some(files), Some(network));
    assert(both.drop_last() =~= seq!["fileSystem: "@ + files]);
    assert(permission_parts(None, Some(network)) =~= seq!["network: "@ + network]);
}

/// Whether an entry among what is shown is a text under a label.
pub open spec fn shows_text(shown: Seq<MetaView>, label: Seq<char>, text: Seq<char>) -> bool {
    shown.contains(MetaView::Text { label, value: trimmed(text) })
}

/// Whether an entry among what is shown is a path under a label.
pub open spec fn shows_path(
    shown: Seq<MetaView>,
    label: Seq<char>,
    path: Seq<char>,
    source_link: bool,
) -> bool {
    shown.contains(MetaView::Path { label, path: trimmed(path), source_link })
}

proof fn lemma_shown_in_sum(before: Seq<MetaView>, part: Seq<MetaView>, after: Seq<MetaView>, m: MetaView)
    requires
        part.contains(m),
    ensures
        (before + part + after).contains(m),
{
    let i = choose|i: int| 0 <= i < part.len() && part[i] == m;
    assert((before + part + after)[before.len() + i] == m);
}

/// What an action does is shown: the file that it reads and its name, what it lists, and where and
/// for what it searches. Blank words are not shown.
pub proof fn law_action_is_shown(action: CommandAction)
    ensures
        action matches CommandAction::Read { name, path, .. } ==> {
            &&& !is_blank(path.path@) ==> shows_path(
                action_meta(action),
                "Read path"@,
                path.path@,
                path.source_link,
            )
            &&& !is_blank(name@) ==> shows_text(action_meta(action), "Read name"@, name@)
        },
        action matches CommandAction::ListFiles { path: Some(path), .. } ==> (!is_blank(path.path@)
            ==> shows_path(action_meta(action), "List path"@, path.path@, path.source_link)),
        action matches CommandAction::Search { path: Some(path), .. } ==> (!is_blank(path.path@)
            ==> shows_path(action_meta(action), "Search path"@, path.path@, path.source_link)),
        action matches CommandAction::Search { query: Some(query), .. } ==> (!is_blank(query@)
            ==> shows_text(action_meta(action), "Search query"@, query@)),
        action is Unknown ==> action_meta(action).len() == 0,
{
    let shown = action_meta(action);
    match action {
        CommandAction::Read { name, path, .. } => {
            let first = ref_meta("Read path"@, path);
            if !is_blank(path.path@) {
                assert(shown[0] == first[0]);
            }
            if !is_blank(name@) {
                assert(shown[first.len() as int] == (MetaView::Text {
                    label: "Read name"@,
                    value: trimmed(name@),
                }));
            }
        },
        CommandAction::ListFiles { path: Some(path), .. } => {
            if !is_blank(path.path@) {
                assert(shown[0] == ref_meta("List path"@, path)[0]);
            }
        },
        CommandAction::Search { path, query, .. } => {
            let first = opt_ref_meta("Search path"@, path);
            match path {
                Some(place) => {
                    if !is_blank(place.path@) {
                        assert(shown[0] == first[0]);
                    }
                },
                None => {},
            }
            match query {
                Some(words) => {
                    if !is_blank(words@) {
                        assert(shown[first.len() as int] == (MetaView::Text {
                            label: "Search query"@,
                            value: trimmed(words@),
                        }));
                    }
                },
                None => {},
            }
        },
        _ => {},
    }
}

/// All that is shown of one action is shown of all of them together, in order.
pub proof fn law_every_action_is_shown(actions: Seq<CommandAction>, more: CommandAction)
    ensures
        actions_meta(Seq::empty()).len() == 0,
        actions_meta(actions.push(more)) == actions_meta(actions) + action_meta(more),
{
    assert(actions.push(more).drop_last() =~= actions);
}

/// What a command would do is shown: its environment, the host it speaks to, the policy that is
/// proposed for it and all its actions.
pub proof fn law_command_request_is_shown(params: CommandApprovalParams, m: MetaView)
    ensures
        params.environment_id matches Some(name) ==> (!is_blank(name@) ==> shows_text(
            command_meta(params),
            "Environment"@,
            name@,
        )),
        params.network_approval_context matches Some(context) ==> (!is_blank(context.host@) ==> exists|
            i: int,
        |
            0 <= i < command_meta(params).len() && (#[trigger] command_meta(params)[i] matches
                MetaView::Host { label, host, .. } && label == "Network host"@ && host == trimmed(
                context.host@,
            ))),
        params.proposed_execpolicy_amendment matches Some(amendment) ==> (!is_blank(
            joined(not_blank(amendment@), "\n"@),
        ) ==> shows_text(
            command_meta(params),
            "Proposed exec policy"@,
            joined(not_blank(amendment@), "\n"@),
        )),
        params.command_actions matches Some(actions) ==> (actions_meta(actions@).contains(m)
            ==> command_meta(params).contains(m)),
        params.proposed_network_policy_amendments matches Some(amendments) ==> (amendments_meta(
            amendments@,
        ).contains(m) ==> command_meta(params).contains(m)),
{
    let none = Seq::<MetaView>::empty();
    let a = opt_text_meta("Environment"@, params.environment_id);
    let b = match params.network_approval_context {
        Some(context) => host_meta(
            "Network host"@,
            context.host@,
            Some(wire_chars(context.protocol)),
        ),
        None => none,
    };
    let c = match params.proposed_network_policy_amendments {
        Some(amendments) => amendments_meta(amendments@),
        None => none,
    };
    let d = match params.proposed_execpolicy_amendment {
        Some(amendment) => text_meta(
            "Proposed exec policy"@,
            joined(not_blank(amendment@), "\n"@),
        ),
        None => none,
    };
    let e = match params.command_actions {
        Some(actions) => actions_meta(actions@),
        None => none,
    };
    let all = command_meta(params);
    assert(all == a + b + c + d + e);
    match params.environment_id {
        Some(name) => {
            if !is_blank(name@) {
                assert(all[0] == a[0]);
            }
        },
        None => {},
    }
    match params.network_approval_context {
        Some(context) => {
            if !is_blank(context.host@) {
                assert(all[a.len() as int] == b[0]);
            }
        },
        None => {},
    }
    match params.proposed_execpolicy_amendment {
        Some(amendment) => {
            if d.len() > 0 {
                assert(all[(a + b + c).len() as int] == d[0]);
            }
        },
        None => {},
    }
    if c.contains(m) {
        lemma_shown_in_sum(a + b, c, d + e, m);
        assert(all =~= (a + b) + c + (d + e));
    }
    if e.contains(m) {
        lemma_shown_in_sum(a + b + c + d, e, none, m);
        assert(all =~= (a + b + c + d) + e + none);
    }
}

/// What permissions are asked for is shown: where they are needed, in which environment, and
/// whether the network may be used.
pub proof fn law_permission_request_is_shown(params: PermissionsApprovalParams, m: MetaView)
    ensures
        !is_blank(params.cwd@) ==> shows_path(
            permissions_meta(params),
            "Working directory"@,
            params.cwd@,
            false,
        ),
        params.environment_id matches Some(name) ==> (!is_blank(name@) ==> shows_text(
            permissions_meta(params),
            "Environment"@,
            name@,
        )),
        params.network_enabled == Some(true) ==> permissions_meta(params).last() == (
        MetaView::Text { label: "Network access"@, value: "enabled"@ }),
        params.network_enabled == Some(false) ==> permissions_meta(params).last() == (
        MetaView::Text { label: "Network access"@, value: "disabled"@ }),
        params.file_system matches Some(permissions) ==> (file_system_meta(permissions).contains(m)
            ==> permissions_meta(params).contains(m)),
{
    let none = Seq::<MetaView>::empty();
    let a = path_meta("Working directory"@, params.cwd@, false);
    let b = opt_text_meta("Environment"@, params.environment_id);
    let c = match params.file_system {
        Some(permissions) => file_system_meta(permissions),
        None => none,
    };
    let all = permissions_meta(params);
    if !is_blank(params.cwd@) {
        assert(all[0] == a[0]);
    }
    match params.environment_id {
        Some(name) => {
            if !is_blank(name@) {
                assert(all[a.len() as int] == b[0]);
            }
        },
        None => {},
    }
    let d = match params.network_enabled {
        Some(enabled) => text_meta(
            "Network access"@,
            if enabled {
                "enabled"@
            } else {
                "disabled"@
            },
        ),
        None => none,
    };
    assert(all == a + b + c + d);
    if c.contains(m) {
        lemma_shown_in_sum(a + b, c, d, m);
    }
    reveal_strlit("enabled");
    assert("enabled"@.len() == 7);
    reveal_strlit("disabled");
    assert("disabled"@.len() == 8);
    lemma_plain_word("enabled"@);
    lemma_plain_word("disabled"@);
}

proof fn lemma_plain_word(word: Seq<char>)
    requires
        word.len() > 0,
        !is_space(word[0]),
        !is_space(word.last()),
    ensures
        trimmed(word) == word,
        !is_blank(word),
{
}

/// What a patch changes is shown file by file, each with what becomes of it and, where the file is
/// changed and moved, where it goes.
pub proof fn law_every_patch_is_shown(changes: Seq<LegacyFileChange>, more: LegacyFileChange)
    ensures
        patches_meta(Seq::empty()).len() == 0,
        patches_meta(changes.push(more)) == patches_meta(changes) + patch_meta(more),
        !is_blank(more.path.path@) && more.kind == PatchChangeKind::Add ==> shows_path(
            patch_meta(more),
            "File "@ + "created"@,
            more.path.path@,
            more.path.source_link,
        ),
        !is_blank(more.path.path@) && more.kind == PatchChangeKind::Delete ==> shows_path(
            patch_meta(more),
            "File "@ + "deleted"@,
            more.path.path@,
            more.path.source_link,
        ),
        !is_blank(more.path.path@) && more.kind == PatchChangeKind::Update ==> shows_path(
            patch_meta(more),
            "File "@ + "modified"@,
            more.path.path@,
            more.path.source_link,
        ),
        more.move_path matches Some(target) ==> (!is_blank(target.path@) && more.kind
            == PatchChangeKind::Update ==> shows_path(
            patch_meta(more),
            "Move target"@,
            target.path@,
            target.source_link,
        )),
{
    assert(changes.push(more).drop_last() =~= changes);
    let shown = patch_meta(more);
    if !is_blank(more.path.path@) {
        assert(shown[0] == ref_meta("File "@ + label_of(kind_of(more.kind)), more.path)[0]);
    }
    match more.move_path {
        Some(target) => {
            if !is_blank(target.path@) && more.kind == PatchChangeKind::Update {
                assert(shown.last() == ref_meta("Move target"@, target)[0]);
            }
        },
        None => {},
    }
}

/// What is shown with a request is what the request brings: all that is shown of a command, of a
/// patch or of permissions; the root of a change; and the other name of a request of the older form.
pub proof fn law_request_shows_what_it_brings(
    known: MapperView,
    id: RequestId,
    request: ServerRequest,
    fallback: ThreadId,
    fresh: TurnId,
    now_ms: i64,
    event: AgentEvent,
)
    requires
        known.asks(id, request, fallback, fresh, now_ms, event),
    ensures
        event matches AgentEvent::ApprovalRequested { request: asked, .. } ==> {
            let shown = meta_views(asked.metadata@);
            &&& request matches ServerRequest::CmdExecApproval(p) ==> shown == command_meta(p)
            &&& request matches ServerRequest::PermissionsRequestApproval(p) ==> shown
                == permissions_meta(p)
            &&& request matches ServerRequest::FileChangeApproval(p) ==> {
                &&& p.grant_root is None ==> shown.len() == 0
                &&& p.grant_root matches Some(root) ==> (!is_blank(root@) ==> shows_path(
                    shown,
                    "Grant root"@,
                    root@,
                    false,
                ))
            }
            &&& request matches ServerRequest::ExecCommandApproval(p) ==> {
                &&& p.approval_id is None ==> shown == actions_meta(p.parsed_cmd@)
                &&& p.approval_id matches Some(name) ==> (!is_blank(name@) ==> shown == seq![
                    MetaView::Text { label: "Approval id"@, value: trimmed(name@) },
                ] + actions_meta(p.parsed_cmd@))
            }
            &&& request matches ServerRequest::ApplyPatchApproval(p) ==> {
                &&& p.grant_root is None ==> shown == patches_meta(p.file_changes@)
                &&& p.grant_root matches Some(root) ==> (!is_blank(root@) ==> shown == seq![
                    MetaView::Path {
                        label: "Grant root"@,
                        path: trimmed(root@),
                        source_link: false,
                    },
                ] + patches_meta(p.file_changes@))
            }
        },
{
    match event {
        AgentEvent::ApprovalRequested { request: asked, .. } => {
            let shown = meta_views(asked.metadata@);
            match request {
                ServerRequest::FileChangeApproval(p) => {
                    match p.grant_root {
                        Some(root) => {
                            if !is_blank(root@) {
                                assert(shown[0] == (MetaView::Path {
                                    label: "Grant root"@,
                                    path: trimmed(root@),
                                    source_link: false,
                                }));
                            }
                        },
                        None => {},
                    }
                },
                ServerRequest::ExecCommandApproval(p) => {
                    assert(Seq::<MetaView>::empty() + actions_meta(p.parsed_cmd@) =~= actions_meta(
                        p.parsed_cmd@,
                    ));
                },
                ServerRequest::ApplyPatchApproval(p) => {
                    assert(Seq::<MetaView>::empty() + patches_meta(p.file_changes@)
                        =~= patches_meta(p.file_changes@));
                },
                _ => {},
            }
        },
        _ => {},
    }
}

/// Permissions on the file system are shown one by one: what may be read as read, what may be
/// written as written, and every other entry with the access that it asks for.
pub proof fn law_file_permissions_are_shown(permissions: FileSystemPermissions, i: int)
    ensures
        permissions.read matches Some(paths) ==> (0 <= i < paths@.len() && !is_blank(
            paths@[i].path@,
        ) ==> shows_path(
            file_system_meta(permissions),
            "Filesystem read"@,
            paths@[i].path@,
            paths@[i].source_link,
        )),
        permissions.write matches Some(paths) ==> (0 <= i < paths@.len() && !is_blank(
            paths@[i].path@,
        ) ==> shows_path(
            file_system_meta(permissions),
            "Filesystem write"@,
            paths@[i].path@,
            paths@[i].source_link,
        )),
        permissions.entries matches Some(entries) ==> (0 <= i < entries@.len() ==> (
        entries@[i].path matches FileSystemPath::Path(path) ==> (!is_blank(path.path@)
            ==> shows_path(
            file_system_meta(permissions),
            "Filesystem "@ + wire_chars(entries@[i].access),
            path.path@,
            path.source_link,
        )))),
{
    let none = Seq::<MetaView>::empty();
    let a = match permissions.entries {
        Some(entries) => places_meta(entries@),
        None => none,
    };
    let b = match permissions.read {
        Some(paths) => refs_meta("Filesystem read"@, paths@),
        None => none,
    };
    let c = match permissions.write {
        Some(paths) => refs_meta("Filesystem write"@, paths@),
        None => none,
    };
    let d = match permissions.glob_scan_max_depth {
        Some(depth) => text_meta(
            "Glob scan max depth"@,
            crate::number::signed_decimal(depth as int),
        ),
        None => none,
    };
    let all = file_system_meta(permissions);
    assert(all == a + b + c + d);
    match permissions.read {
        Some(paths) => {
            if 0 <= i < paths@.len() && !is_blank(paths@[i].path@) {
                lemma_ref_shown("Filesystem read"@, paths@, i);
                lemma_shown_in_sum(a, b, c + d, path_shown("Filesystem read"@, paths@[i]));
                assert(all =~= a + b + (c + d));
            }
        },
        None => {},
    }
    match permissions.write {
        Some(paths) => {
            if 0 <= i < paths@.len() && !is_blank(paths@[i].path@) {
                lemma_ref_shown("Filesystem write"@, paths@, i);
                lemma_shown_in_sum(a + b, c, d, path_shown("Filesystem write"@, paths@[i]));
            }
        },
        None => {},
    }
    match permissions.entries {
        Some(entries) => {
            if 0 <= i < entries@.len() {
                match entries@[i].path {
                    FileSystemPath::Path(path) => {
                        if !is_blank(path.path@) {
                            let label = "Filesystem "@ + wire_chars(entries@[i].access);
                            lemma_place_shown(entries@, i);
                            lemma_shown_in_sum(none, a, b + c + d, path_shown(label, path));
                            assert(all =~= none + a + (b + c + d));
                        }
                    },
                    _ => {},
                }
            }
        },
        None => {},
    }
}

spec fn path_shown(label: Seq<char>, path: PathRef) -> MetaView {
    MetaView::Path { label, path: trimmed(path.path@), source_link: path.source_link }
}

proof fn lemma_ref_shown(label: Seq<char>, paths: Seq<PathRef>, i: int)
    requires
        0 <= i < paths.len(),
        !is_blank(paths[i].path@),
    ensures
        refs_meta(label, paths).contains(path_shown(label, paths[i])),
    decreases paths.len(),
{
    let before = refs_meta(label, paths.drop_last());
    let m = path_shown(label, paths[i]);
    if i == paths.len() - 1 {
        assert(refs_meta(label, paths)[before.len() as int] == m);
    } else {
        lemma_ref_shown(label, paths.drop_last(), i);
        let k = choose|k: int| 0 <= k < before.len() && before[k] == m;
        assert(refs_meta(label, paths)[k] == m);
    }
}

proof fn lemma_place_shown(entries: Seq<FileSystemEntry>, i: int)
    requires
        0 <= i < entries.len(),
        entries[i].path is Path,
        !is_blank(entries[i].path->Path_0.path@),
    ensures
        places_meta(entries).contains(
            path_shown("Filesystem "@ + wire_chars(entries[i].access), entries[i].path->Path_0),
        ),
    decreases entries.len(),
{
    let before = places_meta(entries.drop_last());
    let m = path_shown("Filesystem "@ + wire_chars(entries[i].access), entries[i].path->Path_0);
    if i == entries.len() - 1 {
        assert(places_meta(entries)[before.len() as int] == m);
    } else {
        lemma_place_shown(entries.drop_last(), i);
        let k = choose|k: int| 0 <= k < before.len() && before[k] == m;
        assert(places_meta(entries)[k] == m);
    }
}

/// The policy that is proposed for each host is shown with the host.
pub proof fn law_proposed_hosts_are_shown(
    amendments: Seq<NetworkAmendment>,
    more: NetworkAmendment,
)
    ensures
        amendments_meta(Seq::empty()).len() == 0,
        is_blank(more.host@) ==> amendments_meta(amendments.push(more)) == amendments_meta(
            amendments,
        ),
        !is_blank(more.host@) ==> amendments_meta(amendments.push(more)) == amendments_meta(
            amendments,
        ).push(
            MetaView::Host {
                label: "Proposed network "@ + wire_chars(more.action),
                host: trimmed(more.host@),
                protocol: None,
                port: None,
                target: None,
            },
        ),
{
    assert(amendments.push(more).drop_last() =~= amendments);
    assert(amendments_meta(amendments) + Seq::<MetaView>::empty() =~= amendments_meta(amendments));
}

/// A place is shown as what it is: a path as a path, a pattern as a pattern, and a special place as
/// one.
pub proof fn law_place_is_shown_as_what_it_is(label: Seq<char>, place: FileSystemPath)
    ensures
        place matches FileSystemPath::Path(path) ==> (!is_blank(path.path@) ==> place_meta(
            label,
            place,
        ) == seq![
            MetaView::Path { label, path: trimmed(path.path@), source_link: path.source_link },
        ]),
        place matches FileSystemPath::GlobPattern(pattern) ==> (!is_blank("glob: "@ + pattern@)
            ==> place_meta(label, place) == seq![
            MetaView::Text { label, value: trimmed("glob: "@ + pattern@) },
        ]),
        place matches FileSystemPath::Special(value) ==> (!is_blank(
            "special: "@ + wire_chars(value),
        ) ==> place_meta(label, place) == seq![
            MetaView::Text { label, value: trimmed("special: "@ + wire_chars(value)) },
        ]),
{
}

/// A part of a command stands as it is where it is made of letters, digits and these marks alone.
pub proof fn law_plain_characters_need_no_quotes(c: char)
    ensures
        is_plain(c) <==> ('0' <= c <= '9' || 'A' <= c <= 'Z' || 'a' <= c <= 'z' || c == '_' || c
            == '.' || c == '/' || c == ':' || c == '@' || c == '%' || c == '+' || c == '=' || c
            == ',' || c == '-'),
{
}

} // verus!
