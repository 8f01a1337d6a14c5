//! How a turn works and what it may do, in the words of the app-server.

use vstd::prelude::*;

use crate::json::{member, object2, text_value, Json, JsonTree};
use crate::request_laws::law_input_starts_with_the_words;
use crate::text::concat3;

verus! {

/// How the agent works.
#[derive(Clone, Copy, PartialEq, Eq, Structural, Debug)]
#[allow(inconsistent_fields)]
pub enum Mode {
    /// It makes a plan.
    Plan,
    /// It does the work.
    Build,
}

/// Whether the user is asked.
#[derive(Clone, Copy, PartialEq, Eq, Structural, Debug)]
#[allow(inconsistent_fields)]
pub enum ApprovalPolicy {
    /// Nothing is changed, so nothing is asked.
    ReadOnly,
    /// The user is asked.
    Ask,
    /// The user is not asked.
    Auto,
}

/// What a turn may do, and whether the user is asked.
#[derive(Clone, Copy, PartialEq, Eq, Structural, Debug)]
#[allow(inconsistent_fields)]
pub enum PermissionPreset {
    /// The user is asked first.
    AskFirst,
    /// What stays in the workspace is approved by itself.
    AutoApprove,
    /// Everything.
    FullAccess,
}

/// How hard a model reasons.
#[derive(Clone, Copy, PartialEq, Eq, Structural, Debug)]
#[allow(inconsistent_fields)]
pub enum Effort {
    /// Hardly.
    Minimal,
    /// A little.
    Low,
    /// As usual.
    Medium,
    /// Hard.
    High,
    /// Very hard.
    XHigh,
}

/// Where a turn may write.
#[derive(Clone, Copy, PartialEq, Eq, Structural, Debug)]
#[allow(inconsistent_fields)]
pub enum SandboxPolicy {
    /// Nowhere.
    ReadOnly {
        /// Whether it may use the network.
        network_access: Option<bool>,
    },
    /// In the workspace.
    WorkspaceWrite {
        /// Whether it may not write to `/tmp`.
        exclude_slash_tmp: Option<bool>,
        /// Whether it may not write to the directory for temporary files.
        exclude_tmpdir_env_var: Option<bool>,
        /// Whether it may use the network.
        network_access: Option<bool>,
    },
}

/// Where a turn of a mode may write. The network may always be used.
pub fn map_mode_to_sandbox(mode: Mode) -> (policy: SandboxPolicy)
    ensures
        policy == (match mode {
            Mode::Plan => SandboxPolicy::ReadOnly { network_access: Some(true) },
            Mode::Build => SandboxPolicy::WorkspaceWrite {
                exclude_slash_tmp: None,
                exclude_tmpdir_env_var: None,
                network_access: Some(true),
            },
        }),
{
    match mode {
        Mode::Plan => SandboxPolicy::ReadOnly { network_access: Some(true) },
        Mode::Build => SandboxPolicy::WorkspaceWrite {
            exclude_slash_tmp: None,
            exclude_tmpdir_env_var: None,
            network_access: Some(true),
        },
    }
}

/// A mode in the words of the app-server.
pub open spec fn mode_chars(mode: Mode) -> Seq<char> {
    match mode {
        Mode::Plan => "plan"@,
        Mode::Build => "default"@,
    }
}

/// A mode in the words of the app-server.
pub fn map_mode_to_collaboration_mode(mode: Mode) -> (text: &'static str)
    ensures
        text@ == mode_chars(mode),
{
    match mode {
        Mode::Plan => "plan",
        Mode::Build => "default",
    }
}

/// A policy in the words of the app-server: only one that asks does ask.
pub open spec fn policy_chars(policy: ApprovalPolicy) -> Seq<char> {
    match policy {
        ApprovalPolicy::ReadOnly => "never"@,
        ApprovalPolicy::Ask => "on-request"@,
        ApprovalPolicy::Auto => "never"@,
    }
}

/// A policy in the words of the app-server.
pub fn map_approval_policy(policy: ApprovalPolicy) -> (text: &'static str)
    ensures
        text@ == policy_chars(policy),
{
    match policy {
        ApprovalPolicy::ReadOnly => "never",
        ApprovalPolicy::Ask => "on-request",
        ApprovalPolicy::Auto => "never",
    }
}

/// An effort in the words of the app-server.
pub open spec fn effort_chars(effort: Effort) -> Seq<char> {
    match effort {
        Effort::Minimal => "minimal"@,
        Effort::Low => "low"@,
        Effort::Medium => "medium"@,
        Effort::High => "high"@,
        Effort::XHigh => "xhigh"@,
    }
}

/// An effort in the words of the app-server.
pub fn map_effort(effort: Effort) -> (text: &'static str)
    ensures
        text@ == effort_chars(effort),
{
    match effort {
        Effort::Minimal => "minimal",
        Effort::Low => "low",
        Effort::Medium => "medium",
        Effort::High => "high",
        Effort::XHigh => "xhigh",
    }
}

/// Whether the user is asked under a preset: first of all, or never.
pub open spec fn preset_approval(preset: PermissionPreset) -> Seq<char> {
    match preset {
        PermissionPreset::AskFirst => "on-request"@,
        PermissionPreset::AutoApprove => "never"@,
        PermissionPreset::FullAccess => "never"@,
    }
}

/// Whether the user is asked under a preset.
pub fn map_permission_preset_to_codex_approval(preset: PermissionPreset) -> (text: &'static str)
    ensures
        text@ == preset_approval(preset),
{
    match preset {
        PermissionPreset::AskFirst => "on-request",
        PermissionPreset::AutoApprove => "never",
        PermissionPreset::FullAccess => "never",
    }
}

/// What a turn may do under a preset.
pub open spec fn preset_permissions(preset: PermissionPreset) -> Seq<char> {
    match preset {
        PermissionPreset::AskFirst => ":read-only"@,
        PermissionPreset::AutoApprove => ":workspace"@,
        PermissionPreset::FullAccess => ":danger-full-access"@,
    }
}

/// What a turn may do under a preset.
pub fn map_permission_preset_to_codex_permissions(preset: PermissionPreset) -> (text: &'static str)
    ensures
        text@ == preset_permissions(preset),
{
    match preset {
        PermissionPreset::AskFirst => ":read-only",
        PermissionPreset::AutoApprove => ":workspace",
        PermissionPreset::FullAccess => ":danger-full-access",
    }
}

/// What an attachment is.
#[derive(Clone, Copy, PartialEq, Eq, Structural, Debug)]
#[allow(inconsistent_fields)]
pub enum AttachmentKind {
    /// An image, which goes along with the words.
    Image,
    /// A file, which is uploaded.
    File,
}

/// Something that a user attached.
#[derive(Debug)]
pub struct UserAttachment {
    /// Its name.
    pub name: String,
    /// Its type.
    pub mime_type: String,
    /// How many bytes it has.
    pub size: u64,
    /// What it is.
    pub kind: AttachmentKind,
    /// Its bytes in base 64.
    pub data_base64: String,
}

impl UserAttachment {
    /// Another value of the same attachment.
    pub fn copy(&self) -> (attachment: UserAttachment)
        ensures
            attachment == *self,
    {
        UserAttachment {
            name: self.name.clone(),
            mime_type: self.mime_type.clone(),
            size: self.size,
            kind: self.kind,
            data_base64: self.data_base64.clone(),
        }
    }
}

/// What a user said.
#[derive(Debug)]
pub struct UserInput {
    /// The words.
    pub text: String,
    /// What was attached.
    pub attachments: Vec<UserAttachment>,
}

impl UserInput {
    /// Words alone.
    pub fn text(text: String) -> (input: UserInput)
        ensures
            input.text == text,
            input.attachments@.len() == 0,
    {
        UserInput { text, attachments: Vec::new() }
    }
}

/// An image as a URL that holds it.
pub open spec fn image_tree(attachment: UserAttachment) -> JsonTree {
    JsonTree::Object(
        seq![
            ("type"@, JsonTree::Text("image"@)),
            (
                "url"@,
                JsonTree::Text(
                    "data:"@ + attachment.mime_type@ + ";base64,"@ + attachment.data_base64@,
                ),
            ),
        ],
    )
}

/// The images among attachments.
pub open spec fn image_trees(attachments: Seq<UserAttachment>) -> Seq<JsonTree>
    decreases attachments.len(),
{
    if attachments.len() == 0 {
        Seq::empty()
    } else if attachments.last().kind == AttachmentKind::Image {
        image_trees(attachments.drop_last()).push(image_tree(attachments.last()))
    } else {
        image_trees(attachments.drop_last())
    }
}

/// What a user said, in the words of the app-server: the words, then the images.
pub open spec fn input_tree(input: UserInput) -> JsonTree {
    JsonTree::Array(
        seq![
            JsonTree::Object(
                seq![("text"@, JsonTree::Text(input.text@)), ("type"@, JsonTree::Text("text"@))],
            ),
        ] + image_trees(input.attachments@),
    )
}

/// What a user said, in the words of the app-server.
pub fn map_user_input(input: &UserInput) -> (value: Json)
    ensures
        value@ == input_tree(*input),
        ({
            &&& value@ matches JsonTree::Array(parts)
            &&& parts.len() > 0
            &&& member(parts[0], "type"@) == Some(JsonTree::Text("text"@))
            &&& member(parts[0], "text"@) == Some(JsonTree::Text(input.text@))
        }),
{
    proof {
        law_input_starts_with_the_words(*input);
    }
    let mut items: Vec<Json> = Vec::new();
    items.push(object2("text", text_value(input.text.as_str()), "type", text_value("text")));
    let ghost words = JsonTree::Object(
        seq![("text"@, JsonTree::Text(input.text@)), ("type"@, JsonTree::Text("text"@))],
    );
    let attachments = &input.attachments;
    let mut i: usize = 0;
    proof {
        assert(attachments@.take(0) =~= Seq::<UserAttachment>::empty());
        assert(items@.map_values(|item: Json| item@) =~= seq![words] + image_trees(
            attachments@.take(0),
        ));
    }
    while i < attachments.len()
        invariant
            i <= attachments@.len(),
            items@.map_values(|item: Json| item@) == seq![words] + image_trees(
                attachments@.take(i as int),
            ),
        decreases attachments@.len() - i,
    {
        let ghost before = items@;
        proof {
            assert(attachments@.take(i + 1).drop_last() =~= attachments@.take(i as int));
            assert(attachments@.take(i + 1).last() == attachments@[i as int]);
        }
        let attachment = &attachments[i];
        if attachment.kind == AttachmentKind::Image {
            let mut url = concat3("data:", attachment.mime_type.as_str(), ";base64,");
            url.append(attachment.data_base64.as_str());
            let image = object2("type", text_value("image"), "url", text_value(url.as_str()));
            items.push(image);
            proof {
                assert(image@ == image_tree(*attachment));
                assert(items@.map_values(|item: Json| item@) =~= before.map_values(
                    |item: Json| item@,
                ).push(image@));
            }
        }
        i = i + 1;
    }
    proof {
        assert(attachments@.take(attachments@.len() as int) =~= attachments@);
        crate::json::lemma_array_tree(items@);
        assert forall|j: int| 0 <= j < items@.len() implies #[trigger] crate::json::array_tree(
            items@,
        )[j] == items@.map_values(|item: Json| item@)[j] by {}
        assert(crate::json::array_tree(items@) =~= items@.map_values(|item: Json| item@));
    }
    Json::Array(items)
}

} // verus!
