//! The thread and the turn that a message of the app-server names.

use vstd::prelude::*;

use crate::json::{
    member, native_thread_id_from_value, native_thread_of, opt_chars, string_field,
    string_field_of, string_field_or_meta, string_field_or_meta_of, str_views, text_of, turn_keys,
    Json, JsonTree,
};
use crate::protocol::{Notification, OtherNotification, ServerRequest};
use crate::split::opt_view;
use crate::text::{is_blank, trimmed, trimmed_non_empty};

verus! {

/// The names of the thread and of the turn that a request belongs to, as far as it tells them.
pub open spec fn request_scope(request: ServerRequest) -> (Option<Seq<char>>, Option<Seq<char>>) {
    match request {
        ServerRequest::CmdExecApproval(p) => (Some(p.thread_id@), Some(p.turn_id@)),
        ServerRequest::FileChangeApproval(p) => (Some(p.thread_id@), Some(p.turn_id@)),
        ServerRequest::ToolRequestUserInput(p) => (Some(p.thread_id@), Some(p.turn_id@)),
        ServerRequest::PermissionsRequestApproval(p) => (Some(p.thread_id@), Some(p.turn_id@)),
        ServerRequest::ItemToolCall(p) => (Some(p.thread_id@), Some(p.turn_id@)),
        ServerRequest::ApplyPatchApproval(p) => (text_of(p.conversation_id@), None),
        ServerRequest::ExecCommandApproval(p) => (text_of(p.conversation_id@), None),
        ServerRequest::Unknown { params, .. } => match params {
            Some(value) => (native_thread_of(value@), string_field_of(value@, turn_keys())),
            None => (None, None),
        },
        ServerRequest::McpServerElicitationRequest(value) => (
            native_thread_of(value@),
            string_field_or_meta_of(value@, turn_keys()),
        ),
        ServerRequest::ChatgptAuthTokensRefresh(_) => (None, None),
        ServerRequest::AttestationGenerate(_) => (None, None),
    }
}

fn text_value_of(value: &Json) -> (text: Option<String>)
    ensures
        opt_chars(text) == text_of(value@),
{
    match value.as_str() {
        Some(text) => Some(text.to_owned()),
        None => None,
    }
}

/// The names of the thread and of the turn that a request belongs to, as far as it tells them.
pub fn server_request_native_scope(request: &ServerRequest) -> (scope: (
    Option<String>,
    Option<String>,
))
    ensures
        opt_chars(scope.0) == request_scope(*request).0,
        opt_chars(scope.1) == request_scope(*request).1,
{
    let keys: Vec<&str> = vec!["turnId", "turn_id"];
    proof {
        assert(str_views(keys@) =~= turn_keys());
    }
    match request {
        ServerRequest::CmdExecApproval(p) => (Some(p.thread_id.clone()), Some(p.turn_id.clone())),
        ServerRequest::FileChangeApproval(p) => {
            (Some(p.thread_id.clone()), Some(p.turn_id.clone()))
        },
        ServerRequest::ToolRequestUserInput(p) => {
            (Some(p.thread_id.clone()), Some(p.turn_id.clone()))
        },
        ServerRequest::PermissionsRequestApproval(p) => {
            (Some(p.thread_id.clone()), Some(p.turn_id.clone()))
        },
        ServerRequest::ItemToolCall(p) => (Some(p.thread_id.clone()), Some(p.turn_id.clone())),
        ServerRequest::ApplyPatchApproval(p) => (text_value_of(&p.conversation_id), None),
        ServerRequest::ExecCommandApproval(p) => (text_value_of(&p.conversation_id), None),
        ServerRequest::Unknown { params, .. } => match params {
            Some(value) => (native_thread_id_from_value(value), string_field(value, &keys)),
            None => (None, None),
        },
        ServerRequest::McpServerElicitationRequest(value) => {
            (native_thread_id_from_value(value), string_field_or_meta(value, &keys))
        },
        ServerRequest::ChatgptAuthTokensRefresh(_) => (None, None),
        ServerRequest::AttestationGenerate(_) => (None, None),
    }
}

/// The thread that a notification names, in its parameters or, where it has none, in itself.
pub open spec fn envelope_thread(envelope: JsonTree) -> Option<Seq<char>> {
    match member(envelope, "params"@) {
        Some(params) => native_thread_of(params),
        None => native_thread_of(envelope),
    }
}

/// The thread that a notification names.
pub fn notification_native_thread_id(envelope: &Json) -> (name: Option<String>)
    ensures
        opt_chars(name) == envelope_thread(envelope@),
{
    match envelope.get("params") {
        Some(params) => native_thread_id_from_value(params),
        None => native_thread_id_from_value(envelope),
    }
}

/// A name without white space around it, unless nothing is left of it.
pub open spec fn eligible(name: Seq<char>) -> Option<Seq<char>> {
    if is_blank(name) {
        None
    } else {
        Some(trimmed(name))
    }
}

/// The thread to whose route a request belongs. A request that is not known here belongs to none,
/// whatever it says.
pub open spec fn request_thread(request: ServerRequest) -> Option<Seq<char>> {
    if request is Unknown {
        None
    } else {
        match request_scope(request).0 {
            Some(name) => eligible(name),
            None => None,
        }
    }
}

/// The thread to whose route a request belongs.
pub fn eligible_server_request_native_id(request: &ServerRequest) -> (name: Option<String>)
    ensures
        opt_chars(name) == request_thread(*request),
{
    match request {
        ServerRequest::Unknown { .. } => {
            return None;
        },
        _ => {},
    }
    match server_request_native_scope(request).0 {
        Some(name) => match trimmed_non_empty(name.as_str()) {
            Some(name) => Some(name.to_owned()),
            None => None,
        },
        None => None,
    }
}

/// The name of a thread that a notification belongs to.
#[derive(Debug)]
pub enum EligibleNotificationNativeId<'a> {
    /// The notification names the thread itself.
    Direct(&'a str),
}

impl<'a> EligibleNotificationNativeId<'a> {
    /// The name.
    pub open spec fn chars(self) -> Seq<char> {
        match self {
            EligibleNotificationNativeId::Direct(name) => name@,
        }
    }

    /// The name.
    pub fn as_ref(&self) -> (name: &str)
        ensures
            name@ == self.chars(),
    {
        match self {
            EligibleNotificationNativeId::Direct(name) => name,
        }
    }
}

/// The characters of the name of a thread.
pub open spec fn id_view(name: Option<EligibleNotificationNativeId<'_>>) -> Option<Seq<char>> {
    match name {
        Some(id) => Some(id.chars()),
        None => None,
    }
}

/// The name of a thread, without white space around it, unless nothing is left of it.
pub fn direct_native_id(value: &str) -> (name: Option<EligibleNotificationNativeId<'_>>)
    ensures
        id_view(name) == eligible(value@),
{
    match trimmed_non_empty(value) {
        Some(name) => Some(EligibleNotificationNativeId::Direct(name)),
        None => None,
    }
}

/// The name of a thread where there is one.
pub fn optional_native_id(value: Option<&str>) -> (name: Option<EligibleNotificationNativeId<'_>>)
    ensures
        id_view(name) == (match opt_view(value) {
            Some(text) => eligible(text),
            None => None,
        }),
{
    match value {
        Some(text) => direct_native_id(text),
        None => None,
    }
}

/// Whether a notification without an event tells about the work of a thread. Those that tell how a
/// thread is kept, and those about the whole app-server, do not.
pub open spec fn belongs_to_thread(kind: OtherNotification) -> bool {
    match kind {
        OtherNotification::ThreadArchived => false,
        OtherNotification::ThreadClosed => false,
        OtherNotification::ThreadDeleted => false,
        OtherNotification::ThreadUnarchived => false,
        OtherNotification::AccountRateLimitsUpdated => false,
        OtherNotification::RemoteControlStatusChanged => false,
        OtherNotification::AccountLoginCompleted => false,
        OtherNotification::SkillsChanged => false,
        OtherNotification::FsChanged => false,
        OtherNotification::AccountUpdated => false,
        OtherNotification::AppListUpdated => false,
        OtherNotification::CommandExecOutputDelta => false,
        OtherNotification::ExternalAgentConfigImportCompleted => false,
        OtherNotification::FuzzyFileSearchSessionCompleted => false,
        OtherNotification::FuzzyFileSearchSessionUpdated => false,
        OtherNotification::ProcessExited => false,
        OtherNotification::ProcessOutputDelta => false,
        OtherNotification::WindowsWorldWritableWarning => false,
        OtherNotification::WindowsSandboxSetupCompleted => false,
        OtherNotification::ExternalAgentConfigImportProgress => false,
        OtherNotification::ProjectChanged => false,
        OtherNotification::McpServerEventStream => false,
        _ => true,
    }
}

fn tells_of_thread(kind: OtherNotification) -> (found: bool)
    ensures
        found == belongs_to_thread(kind),
{
    match kind {
        OtherNotification::ThreadArchived => false,
        OtherNotification::ThreadClosed => false,
        OtherNotification::ThreadDeleted => false,
        OtherNotification::ThreadUnarchived => false,
        OtherNotification::AccountRateLimitsUpdated => false,
        OtherNotification::RemoteControlStatusChanged => false,
        OtherNotification::AccountLoginCompleted => false,
        OtherNotification::SkillsChanged => false,
        OtherNotification::FsChanged => false,
        OtherNotification::AccountUpdated => false,
        OtherNotification::AppListUpdated => false,
        OtherNotification::CommandExecOutputDelta => false,
        OtherNotification::ExternalAgentConfigImportCompleted => false,
        OtherNotification::FuzzyFileSearchSessionCompleted => false,
        OtherNotification::FuzzyFileSearchSessionUpdated => false,
        OtherNotification::ProcessExited => false,
        OtherNotification::ProcessOutputDelta => false,
        OtherNotification::WindowsWorldWritableWarning => false,
        OtherNotification::WindowsSandboxSetupCompleted => false,
        OtherNotification::ExternalAgentConfigImportProgress => false,
        OtherNotification::ProjectChanged => false,
        OtherNotification::McpServerEventStream => false,
        _ => true,
    }
}

/// The thread that a notification names for its route, as it came.
pub open spec fn named_thread(notification: Notification) -> Option<String> {
    match notification {
        Notification::ThreadStatusChanged { thread_id, loaded } => if loaded {
            Some(thread_id)
        } else {
            None
        },
        Notification::Unknown { .. } => None,
        Notification::TurnStarted { thread_id, .. } => Some(thread_id),
        Notification::TurnCompleted { thread_id, .. } => Some(thread_id),
        Notification::ThreadTokenUsageUpdated { thread_id, .. } => Some(thread_id),
        Notification::ItemStarted { thread_id, .. } => Some(thread_id),
        Notification::ItemCompleted { thread_id, .. } => Some(thread_id),
        Notification::AgentMessageDelta(d) => Some(d.thread_id),
        Notification::CmdOutputDelta(d) => Some(d.thread_id),
        Notification::FileChangeOutputDelta(d) => Some(d.thread_id),
        Notification::FileChangePatchUpdated { thread_id, .. } => Some(thread_id),
        Notification::ReasoningDelta(d) => Some(d.thread_id),
        Notification::ReasoningTextDelta(d) => Some(d.thread_id),
        Notification::PlanDelta(d) => Some(d.thread_id),
        Notification::McpToolCallProgress(d) => Some(d.thread_id),
        Notification::TurnDiffUpdated { thread_id, .. } => Some(thread_id),
        Notification::Error { thread_id, .. } => Some(thread_id),
        Notification::TurnPlanUpdated { thread_id, .. } => Some(thread_id),
        Notification::ModelRerouted { thread_id, .. } => Some(thread_id),
        Notification::ContextCompacted { thread_id, .. } => Some(thread_id),
        Notification::GuardianWarning { thread_id, .. } => Some(thread_id),
        Notification::Warning { thread_id, .. } => thread_id,
        Notification::ConfigWarning { .. } => None,
        Notification::DeprecationNotice { .. } => None,
        Notification::Other { kind, thread_id } => if belongs_to_thread(kind) {
            thread_id
        } else {
            None
        },
    }
}

/// The thread to whose route a notification belongs.
pub open spec fn notification_thread(notification: Notification) -> Option<Seq<char>> {
    match named_thread(notification) {
        Some(name) => eligible(name@),
        None => None,
    }
}

/// The thread to whose route a notification belongs.
pub fn eligible_notification_native_id(notification: &Notification) -> (name: Option<
    EligibleNotificationNativeId<'_>,
>)
    ensures
        id_view(name) == notification_thread(*notification),
{
    match notification {
        Notification::ThreadStatusChanged { thread_id, loaded } => if *loaded {
            direct_native_id(thread_id.as_str())
        } else {
            None
        },
        Notification::Unknown { .. } => None,
        Notification::TurnStarted { thread_id, .. } => direct_native_id(thread_id.as_str()),
        Notification::TurnCompleted { thread_id, .. } => direct_native_id(thread_id.as_str()),
        Notification::ThreadTokenUsageUpdated { thread_id, .. } => {
            direct_native_id(thread_id.as_str())
        },
        Notification::ItemStarted { thread_id, .. } => direct_native_id(thread_id.as_str()),
        Notification::ItemCompleted { thread_id, .. } => direct_native_id(thread_id.as_str()),
        Notification::AgentMessageDelta(d) => direct_native_id(d.thread_id.as_str()),
        Notification::CmdOutputDelta(d) => direct_native_id(d.thread_id.as_str()),
        Notification::FileChangeOutputDelta(d) => direct_native_id(d.thread_id.as_str()),
        Notification::FileChangePatchUpdated { thread_id, .. } => {
            direct_native_id(thread_id.as_str())
        },
        Notification::ReasoningDelta(d) => direct_native_id(d.thread_id.as_str()),
        Notification::ReasoningTextDelta(d) => direct_native_id(d.thread_id.as_str()),
        Notification::PlanDelta(d) => direct_native_id(d.thread_id.as_str()),
        Notification::McpToolCallProgress(d) => direct_native_id(d.thread_id.as_str()),
        Notification::TurnDiffUpdated { thread_id, .. } => direct_native_id(thread_id.as_str()),
        Notification::Error { thread_id, .. } => direct_native_id(thread_id.as_str()),
        Notification::TurnPlanUpdated { thread_id, .. } => direct_native_id(thread_id.as_str()),
        Notification::ModelRerouted { thread_id, .. } => direct_native_id(thread_id.as_str()),
        Notification::ContextCompacted { thread_id, .. } => direct_native_id(thread_id.as_str()),
        Notification::GuardianWarning { thread_id, .. } => direct_native_id(thread_id.as_str()),
        Notification::Warning { thread_id, .. } => optional_native_id(text_ref(thread_id)),
        Notification::ConfigWarning { .. } => None,
        Notification::DeprecationNotice { .. } => None,
        Notification::Other { kind, thread_id } => if tells_of_thread(*kind) {
            optional_native_id(text_ref(thread_id))
        } else {
            None
        },
    }
}

fn text_ref(text: &Option<String>) -> (slice: Option<&str>)
    ensures
        opt_view(slice) == opt_chars(*text),
{
    match text {
        Some(t) => Some(t.as_str()),
        None => None,
    }
}

/// A name to which a message is routed is never blank and has no white space around it.
pub proof fn law_routed_name_is_trimmed(name: Seq<char>)
    ensures
        eligible(name) matches Some(routed) ==> routed == trimmed(name) && routed.len() > 0,
        eligible(name) is None <==> is_blank(name),
{
}

/// A request belongs to the thread and the turn that it names. One of the older form names its
/// thread as a conversation and no turn, and the requests about the account name neither.
pub proof fn law_request_belongs_where_it_says(request: ServerRequest)
    ensures
        request matches ServerRequest::CmdExecApproval(p) ==> request_scope(request) == (
            Some(p.thread_id@),
            Some(p.turn_id@),
        ),
        request matches ServerRequest::FileChangeApproval(p) ==> request_scope(request) == (
            Some(p.thread_id@),
            Some(p.turn_id@),
        ),
        request matches ServerRequest::PermissionsRequestApproval(p) ==> request_scope(request) == (
            Some(p.thread_id@),
            Some(p.turn_id@),
        ),
        request matches ServerRequest::ToolRequestUserInput(p) ==> request_scope(request) == (
            Some(p.thread_id@),
            Some(p.turn_id@),
        ),
        request matches ServerRequest::ItemToolCall(p) ==> request_scope(request) == (
            Some(p.thread_id@),
            Some(p.turn_id@),
        ),
        request matches ServerRequest::ApplyPatchApproval(p) ==> {
            &&& request_scope(request).1 is None
            &&& p.conversation_id@ matches JsonTree::Text(name) ==> request_scope(request).0
                == Some(name)
            &&& !(p.conversation_id@ is Text) ==> request_scope(request).0 is None
        },
        request matches ServerRequest::ExecCommandApproval(p) ==> {
            &&& request_scope(request).1 is None
            &&& p.conversation_id@ matches JsonTree::Text(name) ==> request_scope(request).0
                == Some(name)
            &&& !(p.conversation_id@ is Text) ==> request_scope(request).0 is None
        },
        request is ChatgptAuthTokensRefresh || request is AttestationGenerate ==> request_scope(
            request,
        ).0 is None && request_scope(request).1 is None,
        request is Unknown ==> request_thread(request) is None,
{
}

/// A notification is routed by the thread that it names, whatever it tells. A thread that is not
/// loaded is not routed to, and neither is what is not known here.
pub proof fn law_notification_is_routed_by_its_thread(notification: Notification)
    ensures
        notification matches Notification::TurnStarted { thread_id, .. } ==> named_thread(
            notification,
        ) == Some(thread_id),
        notification matches Notification::TurnCompleted { thread_id, .. } ==> named_thread(
            notification,
        ) == Some(thread_id),
        notification matches Notification::ThreadTokenUsageUpdated { thread_id, .. }
            ==> named_thread(notification) == Some(thread_id),
        notification matches Notification::ItemStarted { thread_id, .. } ==> named_thread(
            notification,
        ) == Some(thread_id),
        notification matches Notification::ItemCompleted { thread_id, .. } ==> named_thread(
            notification,
        ) == Some(thread_id),
        notification matches Notification::AgentMessageDelta(d) ==> named_thread(notification)
            == Some(d.thread_id),
        notification matches Notification::CmdOutputDelta(d) ==> named_thread(notification) == Some(
            d.thread_id,
        ),
        notification matches Notification::FileChangeOutputDelta(d) ==> named_thread(notification)
            == Some(d.thread_id),
        notification matches Notification::FileChangePatchUpdated { thread_id, .. } ==> named_thread(
            notification,
        ) == Some(thread_id),
        notification matches Notification::ReasoningDelta(d) ==> named_thread(notification) == Some(
            d.thread_id,
        ),
        notification matches Notification::ReasoningTextDelta(d) ==> named_thread(notification)
            == Some(d.thread_id),
        notification matches Notification::PlanDelta(d) ==> named_thread(notification) == Some(
            d.thread_id,
        ),
        notification matches Notification::McpToolCallProgress(d) ==> named_thread(notification)
            == Some(d.thread_id),
        notification matches Notification::TurnDiffUpdated { thread_id, .. } ==> named_thread(
            notification,
        ) == Some(thread_id),
        notification matches Notification::Error { thread_id, .. } ==> named_thread(notification)
            == Some(thread_id),
        notification matches Notification::TurnPlanUpdated { thread_id, .. } ==> named_thread(
            notification,
        ) == Some(thread_id),
        notification matches Notification::ModelRerouted { thread_id, .. } ==> named_thread(
            notification,
        ) == Some(thread_id),
        notification matches Notification::ContextCompacted { thread_id, .. } ==> named_thread(
            notification,
        ) == Some(thread_id),
        notification matches Notification::GuardianWarning { thread_id, .. } ==> named_thread(
            notification,
        ) == Some(thread_id),
        notification matches Notification::Warning { thread_id, .. } ==> named_thread(notification)
            == thread_id,
        notification matches Notification::ThreadStatusChanged { thread_id, loaded } ==> {
            &&& loaded ==> named_thread(notification) == Some(thread_id)
            &&& !loaded ==> named_thread(notification) is None
        },
        notification is ConfigWarning || notification is DeprecationNotice || notification is
            Unknown ==> named_thread(notification) is None,
        notification matches Notification::Other { thread_id, .. } ==> named_thread(notification)
            == thread_id || named_thread(notification) is None,
        named_thread(notification) is None ==> notification_thread(notification) is None,
        named_thread(notification) matches Some(name) ==> {
            &&& is_blank(name@) ==> notification_thread(notification) is None
            &&& !is_blank(name@) ==> notification_thread(notification) == Some(trimmed(name@))
        },
{
}

/// A thread that is put away, closed, deleted or brought back is not routed to on that account,
/// nor is what is told of the account, of files or of processes. What is told of the thread itself
/// is.
pub proof fn law_other_notifications_are_routed_by_kind(kind: OtherNotification, thread: String)
    ensures
        kind is ThreadArchived || kind is ThreadClosed || kind is ThreadDeleted || kind is
            ThreadUnarchived ==> named_thread(
            Notification::Other { kind, thread_id: Some(thread) },
        ) is None,
        kind is AccountRateLimitsUpdated || kind is AccountLoginCompleted || kind is AccountUpdated
            || kind is RemoteControlStatusChanged || kind is SkillsChanged || kind is FsChanged
            || kind is AppListUpdated || kind is CommandExecOutputDelta || kind is ProcessExited
            || kind is ProcessOutputDelta || kind is McpServerEventStream || kind is ProjectChanged
            ==> named_thread(Notification::Other { kind, thread_id: Some(thread) }) is None,
        kind is ThreadStarted || kind is ServerRequestResolved || kind is ThreadNameUpdated
            || kind is ThreadGoalUpdated || kind is ThreadGoalCleared || kind is HookStarted
            || kind is HookCompleted || kind is TerminalInteraction || kind is ModelVerification
            || kind is ThreadSettingsUpdated || kind is ThreadQueueChanged || kind is ThreadReverted
            || kind is McpServerStartupStatusUpdated || kind is McpServerOauthLoginCompleted
            ==> named_thread(Notification::Other { kind, thread_id: Some(thread) }) == Some(thread),
{
}

/// The thread of an envelope is the one that what it is about names; where it is about nothing, it
/// is the one that the envelope names.
pub proof fn law_envelope_names_its_thread(envelope: JsonTree)
    ensures
        member(envelope, "params"@) matches Some(params) ==> envelope_thread(envelope)
            == native_thread_of(params),
        member(envelope, "params"@) is None ==> envelope_thread(envelope) == native_thread_of(
            envelope,
        ),
{
}

} // verus!
