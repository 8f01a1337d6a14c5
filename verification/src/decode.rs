//! Messages of the app-server, read by their methods.

use vstd::prelude::*;

use codex_codes::{Notification as WireNotification, ServerRequest as WireRequest};
use serde_json::to_value;

use crate::ids::RequestId;
use crate::items::opt_tree;
use crate::json::{json_of, member, value_of, Json, JsonTree};
use crate::mapper_model::method_of;
use crate::protocol::{Notification, ServerMessage, ServerRequest};
use crate::transport::{ends_undecoded, take_message, told_view, InboxItem, ReadStep};
use crate::wire_notifications::{notification_reads, other_kind, read_notification};
use crate::wire_requests::{read_request, request_reads};

verus! {

/// Whether the bindings know notifications of this method.
pub open spec fn known_notification(method: Seq<char>) -> bool {
    ||| other_kind(method) is Some
    ||| method == "item/agentMessage/delta"@
    ||| method == "item/commandExecution/outputDelta"@
    ||| method == "item/fileChange/outputDelta"@
    ||| method == "item/reasoning/summaryTextDelta"@
    ||| method == "item/reasoning/textDelta"@
    ||| method == "item/plan/delta"@
    ||| method == "item/mcpToolCall/progress"@
    ||| method == "turn/started"@
    ||| method == "turn/completed"@
    ||| method == "thread/tokenUsage/updated"@
    ||| method == "item/fileChange/patchUpdated"@
    ||| method == "turn/diff/updated"@
    ||| method == "error"@
    ||| method == "turn/plan/updated"@
    ||| method == "model/rerouted"@
    ||| method == "thread/compacted"@
    ||| method == "warning"@
    ||| method == "configWarning"@
    ||| method == "guardianWarning"@
    ||| method == "deprecationNotice"@
    ||| method == "thread/status/changed"@
    ||| method == "item/started"@
    ||| method == "item/completed"@
}

/// What `codex_codes::Notification::from_envelope` reads, as `serde_json::to_value` writes it, or
/// why it reads nothing.
pub uninterp spec fn decoded_notification(
    method: Seq<char>,
    params: Option<JsonTree>,
) -> Result<JsonTree, Seq<char>>;

/// `codex_codes::Notification::from_envelope` reads a notification by its method, and
/// `serde_json::to_value` writes what was read as an object of the method and the parameters. A
/// method that is not known is read as it is; parameters that do not fit a method that is known are
/// an error. To write what was read does not fail: all keys of it are texts. Which parameters fit a
/// method is not stated.
#[verifier::external_body]
fn bound_notification(method: &str, params: &Option<Json>) -> (came: Result<Json, String>)
    ensures
        told_view(came) == decoded_notification(method@, opt_tree(*params)),
        !known_notification(method@) ==> came is Ok,
{
    let read = WireNotification::from_envelope(method, params.as_ref().map(value_of));
    let came = read.and_then(|notification| to_value(notification));
    came.map(json_of).map_err(|error| error.to_string())
}

/// Whether the bindings know requests of this method.
pub open spec fn known_request(method: Seq<char>) -> bool {
    ||| method == "item/commandExecution/requestApproval"@
    ||| method == "item/fileChange/requestApproval"@
    ||| method == "item/permissions/requestApproval"@
    ||| method == "execCommandApproval"@
    ||| method == "applyPatchApproval"@
    ||| method == "item/tool/requestUserInput"@
    ||| method == "item/tool/call"@
    ||| method == "mcpServer/elicitation/request"@
    ||| method == "account/chatgptAuthTokens/refresh"@
    ||| method == "attestation/generate"@
}

/// What `codex_codes::ServerRequest::from_envelope` reads, with the parameters as
/// `serde_json::to_value` writes them, or why it reads nothing.
pub uninterp spec fn decoded_request(
    method: Seq<char>,
    params: Option<JsonTree>,
) -> Result<JsonTree, Seq<char>>;

/// `codex_codes::ServerRequest::from_envelope` reads a request by its method, and
/// `serde_json::to_value` writes the parameters that were read. A method that is not known is read
/// with the parameters as they are, `null` where there are none; parameters that do not fit a
/// method that is known are an error. To write what was read does not fail: all keys of it are
/// texts. Which parameters fit a method is not stated.
#[verifier::external_body]
fn bound_request(method: &str, params: &Option<Json>) -> (came: Result<Json, String>)
    ensures
        told_view(came) == decoded_request(method@, opt_tree(*params)),
        !known_request(method@) ==> came is Ok,
{
    WireRequest::from_envelope(method, params.as_ref().map(value_of)).and_then(|read| match read {
        WireRequest::CmdExecApproval(params) => to_value(params),
        WireRequest::FileChangeApproval(params) => to_value(params),
        WireRequest::PermissionsRequestApproval(params) => to_value(params),
        WireRequest::ExecCommandApproval(params) => to_value(params),
        WireRequest::ApplyPatchApproval(params) => to_value(params),
        WireRequest::ToolRequestUserInput(params) => to_value(params),
        WireRequest::ItemToolCall(params) => to_value(params),
        WireRequest::McpServerElicitationRequest(params) => to_value(params),
        WireRequest::ChatgptAuthTokensRefresh(params) => to_value(params),
        WireRequest::AttestationGenerate(params) => to_value(params),
        WireRequest::Unknown { params, .. } => to_value(params),
    }).map(json_of).map_err(|error| error.to_string())
}

/// A notification that was read, and all of it as the bindings read it.
#[derive(Debug)]
pub struct DecodedNotification {
    /// The notification.
    pub notification: Notification,
    /// All of it, with its method and its parameters.
    pub envelope: Json,
}

/// Whether a notification is read as this, or fails like this, after what the bindings made of it.
pub open spec fn notification_decoded(
    method: Seq<char>,
    came: Result<JsonTree, Seq<char>>,
    decoded: Result<DecodedNotification, String>,
) -> bool {
    match came {
        Ok(tree) => {
            &&& decoded matches Ok(read)
            &&& read.envelope@ == tree
            &&& notification_reads(method, tree, read.notification)
        },
        Err(error) => decoded matches Err(told) && told@ == error,
    }
}

/// A notification, read by its method.
pub fn decode_notification(method: &str, params: &Option<Json>) -> (decoded: Result<
    DecodedNotification,
    String,
>)
    ensures
        notification_decoded(
            method@,
            decoded_notification(method@, opt_tree(*params)),
            decoded,
        ),
        !known_notification(method@) ==> (decoded matches Ok(read) && read.notification is
            Unknown),
{
    match bound_notification(method, params) {
        Ok(envelope) => Ok(
            DecodedNotification { notification: read_notification(method, &envelope), envelope },
        ),
        Err(error) => Err(error),
    }
}

/// Whether a request is read as this, or fails like this, after what the bindings made of it.
pub open spec fn request_decoded(
    method: Seq<char>,
    given: Option<JsonTree>,
    came: Result<JsonTree, Seq<char>>,
    decoded: Result<ServerRequest, String>,
) -> bool {
    match came {
        Ok(tree) => decoded matches Ok(read) && request_reads(method, given, tree, read),
        Err(error) => decoded matches Err(told) && told@ == error,
    }
}

/// A request, read by its method. No path of it is marked as a source file of the workspace.
pub fn decode_request(method: &str, params: Option<Json>) -> (decoded: Result<
    ServerRequest,
    String,
>)
    ensures
        request_decoded(
            method@,
            opt_tree(params),
            decoded_request(method@, opt_tree(params)),
            decoded,
        ),
        !known_request(method@) ==> decoded matches Ok(ServerRequest::Unknown { .. }),
{
    match bound_request(method, &params) {
        Ok(came) => Ok(read_request(method, params, came)),
        Err(error) => Err(error),
    }
}

/// Whether this becomes of a message after the bindings read it by its method, with all of a
/// notification as it was read.
pub open spec fn message_becomes(
    id: Option<RequestId>,
    method: Seq<char>,
    given: Option<JsonTree>,
    line: Seq<char>,
    came: Result<JsonTree, Seq<char>>,
    step: ReadStep,
    envelope: JsonTree,
) -> bool {
    match (id, came) {
        (None, Ok(tree)) => {
            &&& step matches ReadStep::Append(
                InboxItem::Message(ServerMessage::Notification(notification)),
            )
            &&& notification_reads(method, tree, notification)
            &&& envelope == tree
        },
        (Some(id), Ok(tree)) => {
            &&& step matches ReadStep::Append(
                InboxItem::Message(ServerMessage::Request { id: of, request }),
            )
            &&& of == id
            &&& request_reads(method, given, tree, request)
            &&& envelope is Null
        },
        (_, Err(error)) => {
            &&& ends_undecoded(
                step,
                method,
                error,
                line,
                if id is Some {
                    "Codex request decode failed"@
                } else {
                    "Codex notification decode failed"@
                },
            )
            &&& envelope is Null
        },
    }
}

/// What becomes of a message, read by its method: a request where it has an identifier, and a
/// notification elsewhere. Beside it stands all of a notification as it was read, and `null` where
/// there is none. A message of a method that the bindings do not know is handed on.
pub fn decode_message(
    id: Option<RequestId>,
    method: String,
    params: Option<Json>,
    line: String,
) -> (became: (ReadStep, Json))
    ensures
        message_becomes(
            id,
            method@,
            opt_tree(params),
            line@,
            if id is Some {
                decoded_request(method@, opt_tree(params))
            } else {
                decoded_notification(method@, opt_tree(params))
            },
            became.0,
            became.1@,
        ),
        id is None && !known_notification(method@) ==> became.0 is Append,
        id is Some && !known_request(method@) ==> became.0 is Append,
{
    match id {
        None => match decode_notification(method.as_str(), &params) {
            Ok(read) => {
                let message = ServerMessage::Notification(read.notification);
                (take_message(method.as_str(), line.as_str(), false, Ok(message)), read.envelope)
            },
            Err(error) => (
                take_message(method.as_str(), line.as_str(), false, Err(error)),
                Json::Null,
            ),
        },
        Some(id) => {
            let decoded = match decode_request(method.as_str(), params) {
                Ok(request) => Ok(ServerMessage::Request { id, request }),
                Err(error) => Err(error),
            };
            (take_message(method.as_str(), line.as_str(), true, decoded), Json::Null)
        },
    }
}

/// A notification of a method that the bindings do not know is kept as it came.
pub proof fn law_unknown_notification_is_kept(
    method: Seq<char>,
    came: JsonTree,
    read: Notification,
)
    requires
        !known_notification(method),
        notification_reads(method, came, read),
    ensures
        read matches Notification::Unknown { method: named, params } && named@ == method
            && opt_tree(params) == member(came, "params"@),
{
}

/// A request is handed on under the method that it came with, whether the bindings know it or not.
pub proof fn law_request_keeps_its_method(
    method: Seq<char>,
    given: Option<JsonTree>,
    came: JsonTree,
    read: ServerRequest,
)
    requires
        request_reads(method, given, came, read),
    ensures
        method_of(read) == method,
        read is Unknown <==> !known_request(method),
{
}

} // verus!
