//! Requests for approval: what a user is shown, and how an answer is put to the app-server.

use vstd::prelude::*;

use crate::answer_laws::{
    law_answer_says_what_was_decided, law_older_answer_says_what_was_decided,
    law_permissions_last_as_decided,
};
use crate::diff::{file_change_label, kind_of, label_of, map_patch_change_kind};
use crate::event::{ApprovalDecision, ApprovalMetadata};
use crate::ids::RequestId;
use crate::items::{enum_string, wire_chars};
use crate::json::{
    json_text, member, object1, object2, opt_chars, quoted, quoted_text, text_array, text_value,
    to_json_text, Json, JsonTree,
};
use crate::number::{i64_text, signed_decimal};
use crate::protocol::{
    ApplyPatchApprovalParams, CommandAction, CommandApprovalParams, ExecCommandApprovalParams,
    FileChangeApprovalParams, FileSystemEntry, FileSystemPath, FileSystemPermissions,
    LegacyFileChange, NetworkAmendment, PatchChangeKind, PathRef, PermissionsApprovalParams,
};
use crate::reading::some_at;
use crate::text::{
    blank, char_is_alphanumeric, concat, is_alphanumeric, is_blank, join, joined, trim, trimmed,
    views,
};

verus! {

/// An answer to a request of the app-server.
#[derive(Debug)]
#[allow(inconsistent_fields)]
pub enum ApprovalResponse {
    /// The answer.
    Result {
        /// The request.
        request_id: RequestId,
        /// What is answered.
        value: Json,
    },
    /// The refusal to answer.
    Error {
        /// The request.
        request_id: RequestId,
        /// The JSON-RPC error code.
        code: i64,
        /// Why.
        message: String,
    },
}

/// What is put into an answer.
#[derive(Debug)]
pub enum ApprovalResponseBody {
    /// The answer.
    Result(Json),
    /// The refusal to answer.
    Error {
        /// The JSON-RPC error code.
        code: i64,
        /// Why.
        message: String,
    },
}

/// What is put into an answer.
#[verifier::ext_equal]
pub enum BodyView {
    /// The answer.
    Result(JsonTree),
    /// The refusal to answer.
    Error {
        /// The JSON-RPC error code.
        code: int,
        /// Why.
        message: Seq<char>,
    },
}

impl View for ApprovalResponseBody {
    type V = BodyView;

    open spec fn view(&self) -> BodyView {
        match *self {
            ApprovalResponseBody::Result(value) => BodyView::Result(value@),
            ApprovalResponseBody::Error { code, message } => BodyView::Error {
                code: code as int,
                message: message@,
            },
        }
    }
}

impl ApprovalResponse {
    /// The request that is answered.
    pub open spec fn id(self) -> RequestId {
        match self {
            ApprovalResponse::Result { request_id, .. } => request_id,
            ApprovalResponse::Error { request_id, .. } => request_id,
        }
    }

    /// What is put into the answer.
    pub open spec fn body(self) -> BodyView {
        match self {
            ApprovalResponse::Result { value, .. } => BodyView::Result(value@),
            ApprovalResponse::Error { code, message, .. } => BodyView::Error {
                code: code as int,
                message: message@,
            },
        }
    }

    /// An answer to a request.
    pub fn from_parts(request_id: RequestId, body: ApprovalResponseBody) -> (response: Self)
        ensures
            response.id() == request_id,
            response.body() == body@,
    {
        match body {
            ApprovalResponseBody::Result(value) => ApprovalResponse::Result { request_id, value },
            ApprovalResponseBody::Error { code, message } => ApprovalResponse::Error {
                request_id,
                code,
                message,
            },
        }
    }
}

/// An object of one text.
pub open spec fn tagged(key: Seq<char>, text: Seq<char>) -> JsonTree {
    JsonTree::Object(seq![(key, JsonTree::Text(text))])
}

/// A list of texts as a value.
pub open spec fn text_list(texts: Seq<String>) -> JsonTree {
    JsonTree::Array(views(texts).map_values(|t: Seq<char>| JsonTree::Text(t)))
}

/// An answer to a request for approval of a command or of a change of files.
pub open spec fn decision_tree(decision: ApprovalDecision) -> JsonTree {
    match decision {
        ApprovalDecision::Accept => tagged("decision"@, "accept"@),
        ApprovalDecision::AcceptForSession => tagged("decision"@, "acceptForSession"@),
        ApprovalDecision::Decline => tagged("decision"@, "decline"@),
        ApprovalDecision::Cancel => tagged("decision"@, "cancel"@),
        ApprovalDecision::AcceptWithExecPolicyAmendment { amendment } => JsonTree::Object(
            seq![
                (
                    "decision"@,
                    JsonTree::Object(
                        seq![
                            (
                                "acceptWithExecpolicyAmendment"@,
                                JsonTree::Object(
                                    seq![("execpolicy_amendment"@, text_list(amendment@))],
                                ),
                            ),
                        ],
                    ),
                ),
            ],
        ),
    }
}

/// An answer to a request for approval of a command or of a change of files.
pub fn map_approval_decision(decision: &ApprovalDecision) -> (value: Json)
    ensures
        value@ == decision_tree(*decision),
        decision is Accept <==> member(value@, "decision"@) == Some(JsonTree::Text("accept"@)),
        decision is AcceptForSession <==> member(value@, "decision"@) == Some(
            JsonTree::Text("acceptForSession"@),
        ),
        decision is Decline <==> member(value@, "decision"@) == Some(JsonTree::Text("decline"@)),
        decision is Cancel <==> member(value@, "decision"@) == Some(JsonTree::Text("cancel"@)),
{
    proof {
        law_answer_says_what_was_decided(*decision);
    }
    match decision {
        ApprovalDecision::Accept => object1("decision", text_value("accept")),
        ApprovalDecision::AcceptForSession => object1("decision", text_value("acceptForSession")),
        ApprovalDecision::Decline => object1("decision", text_value("decline")),
        ApprovalDecision::Cancel => object1("decision", text_value("cancel")),
        ApprovalDecision::AcceptWithExecPolicyAmendment { amendment } => object1(
            "decision",
            object1(
                "acceptWithExecpolicyAmendment",
                object1("execpolicy_amendment", text_array(amendment)),
            ),
        ),
    }
}

/// An answer to a request for approval in the older form.
pub open spec fn legacy_tree(decision: ApprovalDecision) -> JsonTree {
    match decision {
        ApprovalDecision::Accept => tagged("decision"@, "approved"@),
        ApprovalDecision::AcceptForSession => tagged("decision"@, "approved_for_session"@),
        ApprovalDecision::Decline => tagged("decision"@, "denied"@),
        ApprovalDecision::Cancel => tagged("decision"@, "abort"@),
        ApprovalDecision::AcceptWithExecPolicyAmendment { amendment } => JsonTree::Object(
            seq![
                (
                    "decision"@,
                    JsonTree::Object(
                        seq![
                            (
                                "approved_execpolicy_amendment"@,
                                JsonTree::Object(
                                    seq![("proposed_execpolicy_amendment"@, text_list(amendment@))],
                                ),
                            ),
                        ],
                    ),
                ),
            ],
        ),
    }
}

/// An answer to a request for approval in the older form.
pub fn map_legacy_review_decision(decision: &ApprovalDecision) -> (body: ApprovalResponseBody)
    ensures
        body@ == BodyView::Result(legacy_tree(*decision)),
        decision is Accept <==> member(body@->Result_0, "decision"@) == Some(
            JsonTree::Text("approved"@),
        ),
        decision is AcceptForSession <==> member(body@->Result_0, "decision"@) == Some(
            JsonTree::Text("approved_for_session"@),
        ),
        decision is Decline <==> member(body@->Result_0, "decision"@) == Some(
            JsonTree::Text("denied"@),
        ),
        decision is Cancel <==> member(body@->Result_0, "decision"@) == Some(
            JsonTree::Text("abort"@),
        ),
{
    proof {
        law_older_answer_says_what_was_decided(*decision);
    }
    let value = match decision {
        ApprovalDecision::Accept => object1("decision", text_value("approved")),
        ApprovalDecision::AcceptForSession => object1(
            "decision",
            text_value("approved_for_session"),
        ),
        ApprovalDecision::Decline => object1("decision", text_value("denied")),
        ApprovalDecision::Cancel => object1("decision", text_value("abort")),
        ApprovalDecision::AcceptWithExecPolicyAmendment { amendment } => object1(
            "decision",
            object1(
                "approved_execpolicy_amendment",
                object1("proposed_execpolicy_amendment", text_array(amendment)),
            ),
        ),
    };
    ApprovalResponseBody::Result(value)
}

/// The permissions that are granted, for a turn or a session.
pub open spec fn granted(permissions: JsonTree, scope: Seq<char>) -> BodyView {
    BodyView::Result(
        JsonTree::Object(
            seq![("permissions"@, permissions), ("scope"@, JsonTree::Text(scope))],
        ),
    )
}

/// The refusal of permissions.
pub open spec fn refused(message: Seq<char>) -> BodyView {
    BodyView::Error { code: -32000, message }
}

/// An answer to a request for permissions.
pub open spec fn permissions_body(decision: ApprovalDecision, permissions: JsonTree) -> BodyView {
    match decision {
        ApprovalDecision::Accept => granted(permissions, "turn"@),
        ApprovalDecision::AcceptForSession => granted(permissions, "session"@),
        ApprovalDecision::Decline => refused("Permissions request declined."@),
        ApprovalDecision::Cancel => refused("Permissions request cancelled."@),
        ApprovalDecision::AcceptWithExecPolicyAmendment { .. } => refused(
            "Exec policy amendments are not valid for permissions requests."@,
        ),
    }
}

/// An answer to a request for permissions.
pub fn map_permissions_approval_decision(decision: &ApprovalDecision, permissions: Json) -> (body:
    ApprovalResponseBody)
    ensures
        body@ == permissions_body(*decision, permissions@),
        decision is Accept ==> {
            &&& body@ matches BodyView::Result(tree)
            &&& member(tree, "permissions"@) == Some(permissions@)
            &&& member(tree, "scope"@) == Some(JsonTree::Text("turn"@))
        },
        decision is AcceptForSession ==> {
            &&& body@ matches BodyView::Result(tree)
            &&& member(tree, "permissions"@) == Some(permissions@)
            &&& member(tree, "scope"@) == Some(JsonTree::Text("session"@))
        },
        !(decision is Accept) && !(decision is AcceptForSession) ==> body@ is Error,
{
    proof {
        law_permissions_last_as_decided(*decision, permissions@);
    }
    match decision {
        ApprovalDecision::Accept => ApprovalResponseBody::Result(
            object2("permissions", permissions, "scope", text_value("turn")),
        ),
        ApprovalDecision::AcceptForSession => ApprovalResponseBody::Result(
            object2("permissions", permissions, "scope", text_value("session")),
        ),
        ApprovalDecision::Decline => ApprovalResponseBody::Error {
            code: -32000,
            message: "Permissions request declined.".to_owned(),
        },
        ApprovalDecision::Cancel => ApprovalResponseBody::Error {
            code: -32000,
            message: "Permissions request cancelled.".to_owned(),
        },
        ApprovalDecision::AcceptWithExecPolicyAmendment { .. } => ApprovalResponseBody::Error {
            code: -32000,
            message: "Exec policy amendments are not valid for permissions requests.".to_owned(),
        },
    }
}

/// Something a user is shown, by its characters.
#[verifier::ext_equal]
#[allow(inconsistent_fields)]
pub enum MetaView {
    /// A text.
    Text {
        /// What the text is.
        label: Seq<char>,
        /// The text.
        value: Seq<char>,
    },
    /// A file or directory.
    Path {
        /// What the path is.
        label: Seq<char>,
        /// The path.
        path: Seq<char>,
        /// Whether it can be opened.
        source_link: bool,
    },
    /// A host on the network.
    Host {
        /// What the host is.
        label: Seq<char>,
        /// The host.
        host: Seq<char>,
        /// How it is spoken to.
        protocol: Option<Seq<char>>,
        /// The port.
        port: Option<i64>,
        /// What is asked of it.
        target: Option<Seq<char>>,
    },
}

impl View for ApprovalMetadata {
    type V = MetaView;

    open spec fn view(&self) -> MetaView {
        match *self {
            ApprovalMetadata::Text { label, value } => MetaView::Text {
                label: label@,
                value: value@,
            },
            ApprovalMetadata::Path { label, path, source_link } => MetaView::Path {
                label: label@,
                path: path@,
                source_link,
            },
            ApprovalMetadata::Host { label, host, protocol, port, target } => MetaView::Host {
                label: label@,
                host: host@,
                protocol: opt_chars(protocol),
                port,
                target: opt_chars(target),
            },
        }
    }
}

/// What a user is shown, by its characters.
pub open spec fn meta_views(metadata: Seq<ApprovalMetadata>) -> Seq<MetaView> {
    metadata.map_values(|m: ApprovalMetadata| m@)
}

/// A text that is shown unless it is blank.
pub open spec fn text_meta(label: Seq<char>, value: Seq<char>) -> Seq<MetaView> {
    if is_blank(value) {
        Seq::empty()
    } else {
        seq![MetaView::Text { label, value: trimmed(value) }]
    }
}

/// A path that is shown unless it is blank.
pub open spec fn path_meta(label: Seq<char>, path: Seq<char>, source_link: bool) -> Seq<MetaView> {
    if is_blank(path) {
        Seq::empty()
    } else {
        seq![MetaView::Path { label, path: trimmed(path), source_link }]
    }
}

/// A text that is dropped where it is blank.
pub open spec fn unless_blank(text: Option<Seq<char>>) -> Option<Seq<char>> {
    match text {
        Some(t) => if is_blank(t) {
            None
        } else {
            Some(t)
        },
        None => None,
    }
}

/// A host that is shown unless it is blank.
pub open spec fn host_meta(label: Seq<char>, host: Seq<char>, protocol: Option<Seq<char>>) -> Seq<
    MetaView,
> {
    if is_blank(host) {
        Seq::empty()
    } else {
        seq![
            MetaView::Host {
                label,
                host: trimmed(host),
                protocol: unless_blank(protocol),
                port: None,
                target: None,
            },
        ]
    }
}

fn push_meta(metadata: &mut Vec<ApprovalMetadata>, entry: ApprovalMetadata)
    ensures
        meta_views(final(metadata)@) == meta_views(old(metadata)@).push(entry@),
{
    metadata.push(entry);
    proof {
        assert(meta_views(metadata@) =~= meta_views(old(metadata)@).push(entry@));
    }
}

/// Shows a text unless it is blank.
pub fn add_text_metadata(metadata: &mut Vec<ApprovalMetadata>, label: &str, value: &str)
    ensures
        meta_views(final(metadata)@) == meta_views(old(metadata)@) + text_meta(label@, value@),
{
    let value = trim(value);
    if value.is_empty() {
        proof {
            assert(meta_views(metadata@) =~= meta_views(old(metadata)@) + Seq::<MetaView>::empty());
        }
        return ;
    }
    push_meta(
        metadata,
        ApprovalMetadata::Text { label: label.to_owned(), value: value.to_owned() },
    );
    proof {
        assert(meta_views(metadata@) =~= meta_views(old(metadata)@) + seq![
            MetaView::Text { label: label@, value: value@ },
        ]);
    }
}

/// Shows a path unless it is blank.
pub fn add_path_metadata(
    metadata: &mut Vec<ApprovalMetadata>,
    label: &str,
    path: &str,
    source_link: bool,
)
    ensures
        meta_views(final(metadata)@) == meta_views(old(metadata)@) + path_meta(
            label@,
            path@,
            source_link,
        ),
{
    let path = trim(path);
    if path.is_empty() {
        proof {
            assert(meta_views(metadata@) =~= meta_views(old(metadata)@) + Seq::<MetaView>::empty());
        }
        return ;
    }
    push_meta(
        metadata,
        ApprovalMetadata::Path { label: label.to_owned(), path: path.to_owned(), source_link },
    );
    proof {
        assert(meta_views(metadata@) =~= meta_views(old(metadata)@) + seq![
            MetaView::Path { label: label@, path: path@, source_link },
        ]);
    }
}

/// Shows a host unless it is blank.
pub fn add_host_metadata(
    metadata: &mut Vec<ApprovalMetadata>,
    label: &str,
    host: &str,
    protocol: Option<String>,
)
    ensures
        meta_views(final(metadata)@) == meta_views(old(metadata)@) + host_meta(
            label@,
            host@,
            opt_chars(protocol),
        ),
{
    let host = trim(host);
    if host.is_empty() {
        proof {
            assert(meta_views(metadata@) =~= meta_views(old(metadata)@) + Seq::<MetaView>::empty());
        }
        return ;
    }
    let protocol = crate::text::non_empty(protocol);
    push_meta(
        metadata,
        ApprovalMetadata::Host {
            label: label.to_owned(),
            host: host.to_owned(),
            protocol,
            port: None,
            target: None,
        },
    );
    proof {
        assert(meta_views(metadata@) =~= meta_views(old(metadata)@) + seq![
            MetaView::Host {
                label: label@,
                host: host@,
                protocol: opt_chars(protocol),
                port: None,
                target: None,
            },
        ]);
    }
}

/// A path of the workspace.
pub open spec fn ref_meta(label: Seq<char>, path: PathRef) -> Seq<MetaView> {
    path_meta(label, path.path@, path.source_link)
}

/// A path of the workspace, where there is one.
pub open spec fn opt_ref_meta(label: Seq<char>, path: Option<PathRef>) -> Seq<MetaView> {
    match path {
        Some(p) => ref_meta(label, p),
        None => Seq::empty(),
    }
}

/// A text, where there is one.
pub open spec fn opt_text_meta(label: Seq<char>, text: Option<String>) -> Seq<MetaView> {
    match text {
        Some(t) => text_meta(label, t@),
        None => Seq::empty(),
    }
}

/// A path, where there is one, which cannot be opened.
pub open spec fn opt_path_meta(label: Seq<char>, path: Option<String>) -> Seq<MetaView> {
    match path {
        Some(p) => path_meta(label, p@, false),
        None => Seq::empty(),
    }
}

fn add_opt_ref(metadata: &mut Vec<ApprovalMetadata>, label: &str, path: &Option<PathRef>)
    ensures
        meta_views(final(metadata)@) == meta_views(old(metadata)@) + opt_ref_meta(label@, *path),
{
    match path {
        Some(p) => add_path_metadata(metadata, label, p.path.as_str(), p.source_link),
        None => {
            proof {
                assert(meta_views(metadata@) =~= meta_views(old(metadata)@) + Seq::<
                    MetaView,
                >::empty());
            }
        },
    }
}

fn add_opt_text(metadata: &mut Vec<ApprovalMetadata>, label: &str, text: &Option<String>)
    ensures
        meta_views(final(metadata)@) == meta_views(old(metadata)@) + opt_text_meta(label@, *text),
{
    match text {
        Some(t) => add_text_metadata(metadata, label, t.as_str()),
        None => {
            proof {
                assert(meta_views(metadata@) =~= meta_views(old(metadata)@) + Seq::<
                    MetaView,
                >::empty());
            }
        },
    }
}

fn add_opt_path(metadata: &mut Vec<ApprovalMetadata>, label: &str, path: &Option<String>)
    ensures
        meta_views(final(metadata)@) == meta_views(old(metadata)@) + opt_path_meta(label@, *path),
{
    match path {
        Some(p) => add_path_metadata(metadata, label, p.as_str(), false),
        None => {
            proof {
                assert(meta_views(metadata@) =~= meta_views(old(metadata)@) + Seq::<
                    MetaView,
                >::empty());
            }
        },
    }
}

/// What is shown of what a command does.
pub open spec fn action_meta(action: CommandAction) -> Seq<MetaView> {
    match action {
        CommandAction::Read { name, path, .. } => ref_meta("Read path"@, path) + text_meta(
            "Read name"@,
            name@,
        ),
        CommandAction::ListFiles { path, .. } => opt_ref_meta("List path"@, path),
        CommandAction::Search { path, query, .. } => opt_ref_meta("Search path"@, path)
            + opt_text_meta("Search query"@, query),
        CommandAction::Unknown { .. } => Seq::empty(),
    }
}

/// Shows what a command does.
pub fn add_command_action_metadata(metadata: &mut Vec<ApprovalMetadata>, action: &CommandAction)
    ensures
        meta_views(final(metadata)@) == meta_views(old(metadata)@) + action_meta(*action),
{
    match action {
        CommandAction::Read { name, path, .. } => {
            add_path_metadata(metadata, "Read path", path.path.as_str(), path.source_link);
            add_text_metadata(metadata, "Read name", name.as_str());
        },
        CommandAction::ListFiles { path, .. } => {
            add_opt_ref(metadata, "List path", path);
        },
        CommandAction::Search { path, query, .. } => {
            add_opt_ref(metadata, "Search path", path);
            add_opt_text(metadata, "Search query", query);
        },
        CommandAction::Unknown { .. } => {},
    }
    proof {
        assert(meta_views(metadata@) =~= meta_views(old(metadata)@) + action_meta(*action));
    }
}

/// What is shown of what a command does, part by part.
pub open spec fn actions_meta(actions: Seq<CommandAction>) -> Seq<MetaView>
    decreases actions.len(),
{
    if actions.len() == 0 {
        Seq::empty()
    } else {
        actions_meta(actions.drop_last()) + action_meta(actions.last())
    }
}

fn add_actions(metadata: &mut Vec<ApprovalMetadata>, actions: &Vec<CommandAction>)
    ensures
        meta_views(final(metadata)@) == meta_views(old(metadata)@) + actions_meta(actions@),
{
    let mut i: usize = 0;
    let ghost start = meta_views(metadata@);
    proof {
        assert(actions@.take(0) == Seq::<CommandAction>::empty());
        assert(meta_views(metadata@) =~= start + actions_meta(actions@.take(0)));
    }
    while i < actions.len()
        invariant
            i <= actions@.len(),
            meta_views(metadata@) == start + actions_meta(actions@.take(i as int)),
        decreases actions@.len() - i,
    {
        add_command_action_metadata(metadata, &actions[i]);
        proof {
            assert(actions@.take(i + 1).drop_last() == actions@.take(i as int));
            assert(actions@.take(i + 1).last() == actions@[i as int]);
            assert(meta_views(metadata@) =~= start + actions_meta(actions@.take(i + 1)));
        }
        i = i + 1;
    }
    proof {
        assert(actions@.take(actions@.len() as int) == actions@);
    }
}

/// The label of a proposed change of the policy for a host.
pub open spec fn amendment_meta(amendment: NetworkAmendment) -> Seq<MetaView> {
    host_meta("Proposed network "@ + wire_chars(amendment.action), amendment.host@, None)
}

/// The proposed changes of the policy for hosts.
pub open spec fn amendments_meta(amendments: Seq<NetworkAmendment>) -> Seq<MetaView>
    decreases amendments.len(),
{
    if amendments.len() == 0 {
        Seq::empty()
    } else {
        amendments_meta(amendments.drop_last()) + amendment_meta(amendments.last())
    }
}

fn add_amendments(metadata: &mut Vec<ApprovalMetadata>, amendments: &Vec<NetworkAmendment>)
    ensures
        meta_views(final(metadata)@) == meta_views(old(metadata)@) + amendments_meta(amendments@),
{
    let mut i: usize = 0;
    let ghost start = meta_views(metadata@);
    proof {
        assert(amendments@.take(0) == Seq::<NetworkAmendment>::empty());
        assert(meta_views(metadata@) =~= start + amendments_meta(amendments@.take(0)));
    }
    while i < amendments.len()
        invariant
            i <= amendments@.len(),
            meta_views(metadata@) == start + amendments_meta(amendments@.take(i as int)),
        decreases amendments@.len() - i,
    {
        let label = concat("Proposed network ", enum_string(&amendments[i].action).as_str());
        add_host_metadata(metadata, label.as_str(), amendments[i].host.as_str(), None);
        proof {
            assert(amendments@.take(i + 1).drop_last() == amendments@.take(i as int));
            assert(amendments@.take(i + 1).last() == amendments@[i as int]);
            assert(meta_views(metadata@) =~= start + amendments_meta(amendments@.take(i + 1)));
        }
        i = i + 1;
    }
    proof {
        assert(amendments@.take(amendments@.len() as int) == amendments@);
    }
}

/// The texts of a list that are not blank.
pub open spec fn not_blank(texts: Seq<String>) -> Seq<Seq<char>>
    decreases texts.len(),
{
    if texts.len() == 0 {
        Seq::empty()
    } else if is_blank(texts.last()@) {
        not_blank(texts.drop_last())
    } else {
        not_blank(texts.drop_last()).push(texts.last()@)
    }
}

fn keep_not_blank(texts: &Vec<String>) -> (kept: Vec<String>)
    ensures
        views(kept@) == not_blank(texts@),
{
    let mut kept: Vec<String> = Vec::new();
    let mut i: usize = 0;
    proof {
        assert(texts@.take(0) == Seq::<String>::empty());
        assert(views(kept@) =~= not_blank(texts@.take(0)));
    }
    while i < texts.len()
        invariant
            i <= texts@.len(),
            views(kept@) == not_blank(texts@.take(i as int)),
        decreases texts@.len() - i,
    {
        let ghost before = kept@;
        proof {
            assert(texts@.take(i + 1).drop_last() == texts@.take(i as int));
            assert(texts@.take(i + 1).last() == texts@[i as int]);
        }
        if !blank(texts[i].as_str()) {
            kept.push(texts[i].clone());
            proof {
                assert(views(kept@) =~= views(before).push(texts@[i as int]@));
            }
        }
        i = i + 1;
    }
    proof {
        assert(texts@.take(texts@.len() as int) == texts@);
    }
    kept
}

/// What is shown of a request to run a command.
pub open spec fn command_meta(params: CommandApprovalParams) -> Seq<MetaView> {
    opt_text_meta("Environment"@, params.environment_id) + (match params.network_approval_context {
        Some(context) => host_meta(
            "Network host"@,
            context.host@,
            Some(wire_chars(context.protocol)),
        ),
        None => Seq::empty(),
    }) + (match params.proposed_network_policy_amendments {
        Some(amendments) => amendments_meta(amendments@),
        None => Seq::empty(),
    }) + (match params.proposed_execpolicy_amendment {
        Some(amendment) => text_meta(
            "Proposed exec policy"@,
            joined(not_blank(amendment@), "\n"@),
        ),
        None => Seq::empty(),
    }) + (match params.command_actions {
        Some(actions) => actions_meta(actions@),
        None => Seq::empty(),
    })
}

/// What is shown of a request to run a command.
pub fn command_approval_metadata(params: &CommandApprovalParams) -> (metadata: Vec<
    ApprovalMetadata,
>)
    ensures
        meta_views(metadata@) == command_meta(*params),
{
    let mut metadata: Vec<ApprovalMetadata> = Vec::new();
    add_opt_text(&mut metadata, "Environment", &params.environment_id);
    match &params.network_approval_context {
        Some(context) => {
            add_host_metadata(
                &mut metadata,
                "Network host",
                context.host.as_str(),
                Some(enum_string(&context.protocol)),
            );
        },
        None => {},
    }
    match &params.proposed_network_policy_amendments {
        Some(amendments) => {
            add_amendments(&mut metadata, amendments);
        },
        None => {},
    }
    match &params.proposed_execpolicy_amendment {
        Some(amendment) => {
            let value = join(&keep_not_blank(amendment), "\n");
            add_text_metadata(&mut metadata, "Proposed exec policy", value.as_str());
        },
        None => {},
    }
    match &params.command_actions {
        Some(actions) => {
            add_actions(&mut metadata, actions);
        },
        None => {},
    }
    proof {
        assert(meta_views(metadata@) =~= command_meta(*params));
    }
    metadata
}

/// What is shown of a request to change files.
pub fn file_change_approval_metadata(params: &FileChangeApprovalParams) -> (metadata: Vec<
    ApprovalMetadata,
>)
    ensures
        meta_views(metadata@) == opt_path_meta("Grant root"@, params.grant_root),
{
    let mut metadata: Vec<ApprovalMetadata> = Vec::new();
    add_opt_path(&mut metadata, "Grant root", &params.grant_root);
    proof {
        assert(meta_views(metadata@) =~= opt_path_meta("Grant root"@, params.grant_root));
    }
    metadata
}

/// What is shown of permission on a place in the file system.
pub open spec fn place_meta(label: Seq<char>, path: FileSystemPath) -> Seq<MetaView> {
    match path {
        FileSystemPath::Path(path) => ref_meta(label, path),
        FileSystemPath::GlobPattern(pattern) => text_meta(label, "glob: "@ + pattern@),
        FileSystemPath::Special(value) => text_meta(label, "special: "@ + wire_chars(value)),
    }
}

/// Shows permission on a place in the file system.
pub fn add_file_system_path_metadata(
    metadata: &mut Vec<ApprovalMetadata>,
    label: &str,
    path: &FileSystemPath,
)
    ensures
        meta_views(final(metadata)@) == meta_views(old(metadata)@) + place_meta(label@, *path),
{
    match path {
        FileSystemPath::Path(path) => {
            add_path_metadata(metadata, label, path.path.as_str(), path.source_link);
        },
        FileSystemPath::GlobPattern(pattern) => {
            add_text_metadata(metadata, label, concat("glob: ", pattern.as_str()).as_str());
        },
        FileSystemPath::Special(value) => {
            add_text_metadata(
                metadata,
                label,
                concat("special: ", enum_string(value).as_str()).as_str(),
            );
        },
    }
}

/// What is shown of permissions on places, one by one.
pub open spec fn places_meta(entries: Seq<FileSystemEntry>) -> Seq<MetaView>
    decreases entries.len(),
{
    if entries.len() == 0 {
        Seq::empty()
    } else {
        places_meta(entries.drop_last()) + place_meta(
            "Filesystem "@ + wire_chars(entries.last().access),
            entries.last().path,
        )
    }
}

/// Paths under one label.
pub open spec fn refs_meta(label: Seq<char>, paths: Seq<PathRef>) -> Seq<MetaView>
    decreases paths.len(),
{
    if paths.len() == 0 {
        Seq::empty()
    } else {
        refs_meta(label, paths.drop_last()) + ref_meta(label, paths.last())
    }
}

fn add_places(metadata: &mut Vec<ApprovalMetadata>, entries: &Vec<FileSystemEntry>)
    ensures
        meta_views(final(metadata)@) == meta_views(old(metadata)@) + places_meta(entries@),
{
    let mut i: usize = 0;
    let ghost start = meta_views(metadata@);
    proof {
        assert(entries@.take(0) == Seq::<FileSystemEntry>::empty());
        assert(meta_views(metadata@) =~= start + places_meta(entries@.take(0)));
    }
    while i < entries.len()
        invariant
            i <= entries@.len(),
            meta_views(metadata@) == start + places_meta(entries@.take(i as int)),
        decreases entries@.len() - i,
    {
        let label = concat("Filesystem ", enum_string(&entries[i].access).as_str());
        add_file_system_path_metadata(metadata, label.as_str(), &entries[i].path);
        proof {
            assert(entries@.take(i + 1).drop_last() == entries@.take(i as int));
            assert(entries@.take(i + 1).last() == entries@[i as int]);
            assert(meta_views(metadata@) =~= start + places_meta(entries@.take(i + 1)));
        }
        i = i + 1;
    }
    proof {
        assert(entries@.take(entries@.len() as int) == entries@);
    }
}

fn add_refs(metadata: &mut Vec<ApprovalMetadata>, label: &str, paths: &Vec<PathRef>)
    ensures
        meta_views(final(metadata)@) == meta_views(old(metadata)@) + refs_meta(label@, paths@),
{
    let mut i: usize = 0;
    let ghost start = meta_views(metadata@);
    proof {
        assert(paths@.take(0) == Seq::<PathRef>::empty());
        assert(meta_views(metadata@) =~= start + refs_meta(label@, paths@.take(0)));
    }
    while i < paths.len()
        invariant
            i <= paths@.len(),
            meta_views(metadata@) == start + refs_meta(label@, paths@.take(i as int)),
        decreases paths@.len() - i,
    {
        add_path_metadata(metadata, label, paths[i].path.as_str(), paths[i].source_link);
        proof {
            assert(paths@.take(i + 1).drop_last() == paths@.take(i as int));
            assert(paths@.take(i + 1).last() == paths@[i as int]);
            assert(meta_views(metadata@) =~= start + refs_meta(label@, paths@.take(i + 1)));
        }
        i = i + 1;
    }
    proof {
        assert(paths@.take(paths@.len() as int) == paths@);
    }
}

/// What is shown of permissions on the file system.
pub open spec fn file_system_meta(permissions: FileSystemPermissions) -> Seq<MetaView> {
    (match permissions.entries {
        Some(entries) => places_meta(entries@),
        None => Seq::empty(),
    }) + (match permissions.read {
        Some(paths) => refs_meta("Filesystem read"@, paths@),
        None => Seq::empty(),
    }) + (match permissions.write {
        Some(paths) => refs_meta("Filesystem write"@, paths@),
        None => Seq::empty(),
    }) + (match permissions.glob_scan_max_depth {
        Some(depth) => text_meta("Glob scan max depth"@, signed_decimal(depth as int)),
        None => Seq::empty(),
    })
}

/// Shows permissions on the file system.
pub fn add_file_system_permissions_metadata(
    metadata: &mut Vec<ApprovalMetadata>,
    permissions: &FileSystemPermissions,
)
    ensures
        meta_views(final(metadata)@) == meta_views(old(metadata)@) + file_system_meta(*permissions),
{
    match &permissions.entries {
        Some(entries) => {
            add_places(metadata, entries);
        },
        None => {},
    }
    match &permissions.read {
        Some(paths) => {
            add_refs(metadata, "Filesystem read", paths);
        },
        None => {},
    }
    match &permissions.write {
        Some(paths) => {
            add_refs(metadata, "Filesystem write", paths);
        },
        None => {},
    }
    match permissions.glob_scan_max_depth {
        Some(depth) => {
            add_text_metadata(metadata, "Glob scan max depth", i64_text(depth).as_str());
        },
        None => {},
    }
    proof {
        assert(meta_views(metadata@) =~= meta_views(old(metadata)@) + file_system_meta(
            *permissions,
        ));
    }
}

/// What is shown of a request for permissions.
pub open spec fn permissions_meta(params: PermissionsApprovalParams) -> Seq<MetaView> {
    path_meta("Working directory"@, params.cwd@, false) + opt_text_meta(
        "Environment"@,
        params.environment_id,
    ) + (match params.file_system {
        Some(permissions) => file_system_meta(permissions),
        None => Seq::empty(),
    }) + (match params.network_enabled {
        Some(enabled) => text_meta(
            "Network access"@,
            if enabled {
                "enabled"@
            } else {
                "disabled"@
            },
        ),
        None => Seq::empty(),
    })
}

/// What is shown of a request for permissions.
pub fn permissions_approval_metadata(params: &PermissionsApprovalParams) -> (metadata: Vec<
    ApprovalMetadata,
>)
    ensures
        meta_views(metadata@) == permissions_meta(*params),
{
    let mut metadata: Vec<ApprovalMetadata> = Vec::new();
    add_path_metadata(&mut metadata, "Working directory", params.cwd.as_str(), false);
    add_opt_text(&mut metadata, "Environment", &params.environment_id);
    match &params.file_system {
        Some(permissions) => {
            add_file_system_permissions_metadata(&mut metadata, permissions);
        },
        None => {},
    }
    match params.network_enabled {
        Some(enabled) => {
            let value: &str = if enabled {
                "enabled"
            } else {
                "disabled"
            };
            add_text_metadata(&mut metadata, "Network access", value);
        },
        None => {},
    }
    proof {
        assert(meta_views(metadata@) =~= permissions_meta(*params));
    }
    metadata
}

/// What is shown of a request to run a command in the older form.
pub fn legacy_exec_approval_metadata(params: &ExecCommandApprovalParams) -> (metadata: Vec<
    ApprovalMetadata,
>)
    ensures
        meta_views(metadata@) == opt_text_meta("Approval id"@, params.approval_id) + actions_meta(
            params.parsed_cmd@,
        ),
{
    let mut metadata: Vec<ApprovalMetadata> = Vec::new();
    add_opt_text(&mut metadata, "Approval id", &params.approval_id);
    add_actions(&mut metadata, &params.parsed_cmd);
    proof {
        assert(meta_views(metadata@) =~= opt_text_meta("Approval id"@, params.approval_id)
            + actions_meta(params.parsed_cmd@));
    }
    metadata
}

/// What is shown of the patch of a file.
pub open spec fn patch_meta(change: LegacyFileChange) -> Seq<MetaView> {
    ref_meta("File "@ + label_of(kind_of(change.kind)), change.path) + (if change.kind
        == PatchChangeKind::Update {
        opt_ref_meta("Move target"@, change.move_path)
    } else {
        Seq::empty()
    })
}

/// What is shown of patches, one by one.
pub open spec fn patches_meta(changes: Seq<LegacyFileChange>) -> Seq<MetaView>
    decreases changes.len(),
{
    if changes.len() == 0 {
        Seq::empty()
    } else {
        patches_meta(changes.drop_last()) + patch_meta(changes.last())
    }
}

/// What is shown of a request to patch files in the older form.
pub fn legacy_patch_approval_metadata(params: &ApplyPatchApprovalParams) -> (metadata: Vec<
    ApprovalMetadata,
>)
    ensures
        meta_views(metadata@) == opt_path_meta("Grant root"@, params.grant_root) + patches_meta(
            params.file_changes@,
        ),
{
    let mut metadata: Vec<ApprovalMetadata> = Vec::new();
    add_opt_path(&mut metadata, "Grant root", &params.grant_root);
    let changes = &params.file_changes;
    let mut i: usize = 0;
    let ghost start = meta_views(metadata@);
    proof {
        assert(changes@.take(0) == Seq::<LegacyFileChange>::empty());
        assert(meta_views(metadata@) =~= start + patches_meta(changes@.take(0)));
        assert(start =~= opt_path_meta("Grant root"@, params.grant_root));
    }
    while i < changes.len()
        invariant
            i <= changes@.len(),
            meta_views(metadata@) == start + patches_meta(changes@.take(i as int)),
        decreases changes@.len() - i,
    {
        let label = concat(
            "File ",
            file_change_label(map_patch_change_kind(changes[i].kind)),
        );
        add_path_metadata(
            &mut metadata,
            label.as_str(),
            changes[i].path.path.as_str(),
            changes[i].path.source_link,
        );
        if changes[i].kind == PatchChangeKind::Update {
            add_opt_ref(&mut metadata, "Move target", &changes[i].move_path);
        }
        proof {
            assert(changes@.take(i + 1).drop_last() == changes@.take(i as int));
            assert(changes@.take(i + 1).last() == changes@[i as int]);
            assert(meta_views(metadata@) =~= start + patches_meta(changes@.take(i + 1)));
        }
        i = i + 1;
    }
    proof {
        assert(changes@.take(changes@.len() as int) == changes@);
    }
    metadata
}

/// The command of an action, unless it is blank.
pub open spec fn action_command(action: CommandAction) -> String {
    match action {
        CommandAction::Read { command, .. } => command,
        CommandAction::ListFiles { command, .. } => command,
        CommandAction::Search { command, .. } => command,
        CommandAction::Unknown { command } => command,
    }
}

/// The first command of actions that is not blank.
pub open spec fn first_command(actions: Seq<CommandAction>) -> Option<Seq<char>>
    decreases actions.len(),
{
    if actions.len() == 0 {
        None
    } else if is_blank(action_command(actions[0])@) {
        first_command(actions.drop_first())
    } else {
        Some(action_command(actions[0])@)
    }
}

/// The command that is shown: the first of its actions' commands that is not blank, else the
/// command itself.
pub open spec fn preview_chars(params: CommandApprovalParams) -> Seq<char> {
    let first = match params.command_actions {
        Some(actions) => first_command(actions@),
        None => None,
    };
    match first {
        Some(command) => command,
        None => match params.command {
            Some(command) => command@,
            None => Seq::empty(),
        },
    }
}

/// The command that is shown.
pub fn command_approval_preview(params: &CommandApprovalParams) -> (preview: String)
    ensures
        preview@ == preview_chars(*params),
{
    match &params.command_actions {
        Some(actions) => {
            let mut i: usize = 0;
            proof {
                assert(actions@.skip(0) == actions@);
            }
            while i < actions.len()
                invariant
                    i <= actions@.len(),
                    first_command(actions@) == first_command(actions@.skip(i as int)),
                    params.command_actions == Some(*actions),
                decreases actions@.len() - i,
            {
                proof {
                    assert(actions@.skip(i as int)[0] == actions@[i as int]);
                    assert(actions@.skip(i as int).drop_first() == actions@.skip(i + 1));
                }
                let command = match &actions[i] {
                    CommandAction::Read { command, .. } => command,
                    CommandAction::ListFiles { command, .. } => command,
                    CommandAction::Search { command, .. } => command,
                    CommandAction::Unknown { command } => command,
                };
                if !blank(command.as_str()) {
                    return command.clone();
                }
                i = i + 1;
            }
        },
        None => {},
    }
    match &params.command {
        Some(command) => command.clone(),
        None => String::new(),
    }
}

/// Whether a character needs no quotes in a command.
pub open spec fn is_plain(c: char) -> bool {
    ||| is_alphanumeric(c)
    ||| c == '_'
    ||| c == '.'
    ||| c == '/'
    ||| c == ':'
    ||| c == '@'
    ||| c == '%'
    ||| c == '+'
    ||| c == '='
    ||| c == ','
    ||| c == '-'
}

/// A part of a command, in quotes where it needs them.
pub open spec fn shown_part(part: Seq<char>) -> Seq<char> {
    if forall|i: int| 0 <= i < part.len() ==> is_plain(#[trigger] part[i]) {
        part
    } else {
        quoted(part)
    }
}

/// A command in one line: its parts that are not blank, each in quotes where it needs them.
pub open spec fn command_line(parts: Seq<String>) -> Seq<char> {
    joined(not_blank(parts).map_values(|part: Seq<char>| shown_part(part)), " "@)
}

fn show_part(part: &str) -> (shown: String)
    ensures
        shown@ == shown_part(part@),
{
    let n: usize = part.unicode_len();
    let mut i: usize = 0;
    while i < n
        invariant
            n == part@.len(),
            i <= n,
            forall|j: int| 0 <= j < i ==> is_plain(#[trigger] part@[j]),
        decreases n - i,
    {
        let c = part.get_char(i);
        let plain = char_is_alphanumeric(c) || c == '_' || c == '.' || c == '/' || c == ':' || c
            == '@' || c == '%' || c == '+' || c == '=' || c == ',' || c == '-';
        if !plain {
            proof {
                assert(!is_plain(part@[i as int]));
            }
            return quoted_text(part);
        }
        i = i + 1;
    }
    part.to_owned()
}

/// A command in one line.
pub fn legacy_command_preview(command: &Vec<String>) -> (preview: String)
    ensures
        preview@ == command_line(command@),
{
    let kept = keep_not_blank(command);
    let mut shown: Vec<String> = Vec::new();
    let mut i: usize = 0;
    while i < kept.len()
        invariant
            i <= kept@.len(),
            shown@.len() == i,
            forall|j: int| 0 <= j < i ==> #[trigger] shown@[j]@ == shown_part(kept@[j]@),
        decreases kept@.len() - i,
    {
        shown.push(show_part(kept[i].as_str()));
        i = i + 1;
    }
    proof {
        assert(views(shown@) =~= not_blank(command@).map_values(
            |part: Seq<char>| shown_part(part),
        )) by {
            assert forall|j: int| 0 <= j < kept@.len() implies #[trigger] views(shown@)[j] == shown_part(
                not_blank(command@)[j],
            ) by {
                assert(shown@[j]@ == shown_part(kept@[j]@));
                assert(views(kept@)[j] == kept@[j]@);
            }
            assert(views(kept@).len() == kept@.len());
        }
    }
    join(&shown, " ")
}

/// The path that is shown of patches: the root below which files may be changed, unless it is
/// blank, else the first file.
pub open spec fn patch_path(params: ApplyPatchApprovalParams) -> Seq<char> {
    let first = if params.file_changes@.len() > 0 {
        params.file_changes@[0].path.path@
    } else {
        Seq::empty()
    };
    match params.grant_root {
        Some(root) => if is_blank(root@) {
            first
        } else {
            root@
        },
        None => first,
    }
}

/// The path that is shown of patches.
pub fn legacy_patch_preview_path(params: &ApplyPatchApprovalParams) -> (path: String)
    ensures
        path@ == patch_path(*params),
{
    match &params.grant_root {
        Some(root) => if !blank(root.as_str()) {
            return root.clone();
        },
        None => {},
    }
    if params.file_changes.len() > 0 {
        params.file_changes[0].path.path.clone()
    } else {
        String::new()
    }
}

/// The JSON text of the value under a name that is there and not `null`.
pub open spec fn present_text(tree: JsonTree, key: Seq<char>) -> Option<Seq<char>> {
    match some_at(tree, key) {
        Some(value) => Some(json_text(value)),
        None => None,
    }
}

/// The parts of permissions in words.
pub open spec fn permission_parts(
    file_system: Option<Seq<char>>,
    network: Option<Seq<char>>,
) -> Seq<Seq<char>> {
    let a: Seq<Seq<char>> = match file_system {
        Some(text) => seq!["fileSystem: "@ + text],
        None => Seq::empty(),
    };
    match network {
        Some(text) => a.push("network: "@ + text),
        None => a,
    }
}

/// Permissions in words: their parts, or all of them where none of the parts is there.
pub open spec fn permission_words(
    file_system: Option<Seq<char>>,
    network: Option<Seq<char>>,
    all: Seq<char>,
) -> Seq<char> {
    if permission_parts(file_system, network).len() == 0 {
        all
    } else {
        joined(permission_parts(file_system, network), "; "@)
    }
}

/// Permissions in words.
pub open spec fn permission_detail(tree: JsonTree) -> Seq<char> {
    permission_words(
        present_text(tree, "fileSystem"@),
        present_text(tree, "network"@),
        json_text(tree),
    )
}

/// Permissions in words, by the JSON texts of their parts and of all of them.
pub fn permissions_in_words(
    file_system: Option<String>,
    network: Option<String>,
    all: String,
) -> (words: String)
    ensures
        words@ == permission_words(opt_chars(file_system), opt_chars(network), all@),
{
    let ghost wanted = permission_parts(opt_chars(file_system), opt_chars(network));
    let mut parts: Vec<String> = Vec::new();
    match file_system {
        Some(text) => {
            parts.push(concat("fileSystem: ", text.as_str()));
        },
        None => {},
    }
    match network {
        Some(text) => {
            parts.push(concat("network: ", text.as_str()));
        },
        None => {},
    }
    proof {
        assert(views(parts@) =~= wanted);
    }
    if parts.len() == 0 {
        all
    } else {
        join(&parts, "; ")
    }
}

fn text_present(json: &Json, key: &str) -> (text: Option<String>)
    ensures
        opt_chars(text) == present_text(json@, key@),
{
    match json.get(key) {
        Some(Json::Null) => None,
        Some(value) => Some(to_json_text(value)),
        None => None,
    }
}

/// Permissions in words.
pub fn format_permissions_detail(permissions: &Json) -> (detail: String)
    ensures
        detail@ == permission_detail(permissions@),
{
    permissions_in_words(
        text_present(permissions, "fileSystem"),
        text_present(permissions, "network"),
        to_json_text(permissions),
    )
}

/// A refused request for permissions is answered by an error, and an allowed one by the very
/// permissions that were asked for.
pub proof fn law_permissions_are_granted_as_asked(decision: ApprovalDecision, permissions: JsonTree)
    ensures
        permissions_body(decision, permissions) is Result <==> (decision is Accept || decision is
            AcceptForSession),
        permissions_body(decision, permissions) matches BodyView::Result(tree) ==> member(
            tree,
            "permissions"@,
        ) == Some(permissions),
        permissions_body(decision, permissions) matches BodyView::Error { code, .. } ==> code
            == -32000,
{
    match permissions_body(decision, permissions) {
        BodyView::Result(tree) => {
            let entries = tree->Object_0;
            assert(entries[0].0 == "permissions"@);
        },
        _ => {},
    }
}

} // verus!
