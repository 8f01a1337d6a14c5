//! Requests of the app-server, from what the bindings read.

use vstd::prelude::*;

use crate::items::opt_tree;
use crate::json::{entries_tree, lemma_entries_tree, opt_chars, Json, JsonTree};
use crate::protocol::{
    ApplyPatchApprovalParams, CommandAction, CommandApprovalParams, ExecCommandApprovalParams,
    FileChangeApprovalParams, FileSystemEntry, FileSystemPath, FileSystemPermissions,
    LegacyFileChange, NetworkAmendment, NetworkContext, PatchChangeKind, PathRef,
    PermissionsApprovalParams, ScopedParams, ServerRequest,
};
use crate::reading::{
    chars_in, entries_of, has_kind, is_kind, list_at, list_in, opt_flag_at, opt_flag_in, opt_int,
    opt_list_at, opt_number_at, opt_number_in, opt_text_at, opt_text_in, opt_texts_in,
    opt_texts_read, some_at, some_in, text_at, text_from, text_in, texts_in, texts_read, value_at,
    value_in,
};
use crate::text::same_text;
use crate::wire_items::{patch_kind, patch_kind_of};

verus! {

/// Whether this is a path as it came, of which nothing is known yet.
pub open spec fn path_reads(text: Seq<char>, path: PathRef) -> bool {
    path.path@ == text && !path.source_link
}

/// Whether this is a path as it came, where one came.
pub open spec fn opt_path_reads(text: Option<Seq<char>>, path: Option<PathRef>) -> bool {
    match text {
        Some(text) => path matches Some(path) && path_reads(text, path),
        None => path is None,
    }
}

fn path_from(path: String) -> (read: PathRef)
    ensures
        path_reads(path@, read),
{
    PathRef { path, source_link: false }
}

fn opt_path_in(json: &Json, key: &str) -> (read: Option<PathRef>)
    ensures
        opt_path_reads(opt_text_at(json@, key@), read),
{
    match opt_text_in(json, key) {
        Some(path) => Some(path_from(path)),
        None => None,
    }
}

/// Whether this is what a command does. The command stands under a name, and an action that lists
/// files has a kind, both of which the older form of the request has otherwise.
pub open spec fn does(
    tree: JsonTree,
    command_key: Seq<char>,
    list_kind: Seq<char>,
    action: CommandAction,
) -> bool {
    let told = text_at(tree, command_key);
    if is_kind(tree, "read"@) {
        &&& action matches CommandAction::Read { command, name, path }
        &&& command@ == told
        &&& name@ == text_at(tree, "name"@)
        &&& path_reads(text_at(tree, "path"@), path)
    } else if is_kind(tree, list_kind) {
        &&& action matches CommandAction::ListFiles { command, path }
        &&& command@ == told
        &&& opt_path_reads(opt_text_at(tree, "path"@), path)
    } else if is_kind(tree, "search"@) {
        &&& action matches CommandAction::Search { command, path, query }
        &&& command@ == told
        &&& opt_path_reads(opt_text_at(tree, "path"@), path)
        &&& opt_chars(query) == opt_text_at(tree, "query"@)
    } else {
        action matches CommandAction::Unknown { command } && command@ == told
    }
}

fn action_of(json: &Json, command_key: &str, list_kind: &str) -> (action: CommandAction)
    ensures
        does(json@, command_key@, list_kind@, action),
{
    let command = text_in(json, command_key);
    if has_kind(json, "read") {
        CommandAction::Read {
            command,
            name: text_in(json, "name"),
            path: path_from(text_in(json, "path")),
        }
    } else if has_kind(json, list_kind) {
        CommandAction::ListFiles { command, path: opt_path_in(json, "path") }
    } else if has_kind(json, "search") {
        CommandAction::Search {
            command,
            path: opt_path_in(json, "path"),
            query: opt_text_in(json, "query"),
        }
    } else {
        CommandAction::Unknown { command }
    }
}

/// Whether this is an action of a command.
pub open spec fn action_reads(tree: JsonTree, read: CommandAction) -> bool {
    does(tree, "command"@, "listFiles"@, read)
}

fn action_from(json: &Json) -> (read: CommandAction)
    ensures
        action_reads(json@, read),
{
    action_of(json, "command", "listFiles")
}

/// Whether this is what a command does.
pub open spec fn actions_read(list: Seq<JsonTree>, read: Seq<CommandAction>) -> bool {
    &&& read.len() == list.len()
    &&& forall|i: int| 0 <= i < list.len() ==> action_reads(list[i], #[trigger] read[i])
}

/// Whether this is what a command does, where there is a list.
pub open spec fn opt_actions_read(
    tree: JsonTree,
    key: Seq<char>,
    read: Option<Vec<CommandAction>>,
) -> bool {
    match opt_list_at(tree, key) {
        Some(list) => read matches Some(read) && actions_read(list, read@),
        None => read is None,
    }
}

fn opt_actions_in(json: &Json, key: &str) -> (read: Option<Vec<CommandAction>>)
    ensures
        opt_actions_read(json@, key@, read),
{
    match list_in(json, key) {
        Some(items) => {
            let mut read: Vec<CommandAction> = Vec::new();
            let mut i: usize = 0;
            while i < items.len()
                invariant
                    i <= items@.len(),
                    read@.len() == i,
                    forall|j: int| 0 <= j < i ==> action_reads(items@[j]@, #[trigger] read@[j]),
                decreases items@.len() - i,
            {
                read.push(action_from(&items[i]));
                i = i + 1;
            }
            Some(read)
        },
        None => None,
    }
}

/// Whether this is an action of a command, in the older form.
pub open spec fn parsed_command_reads(tree: JsonTree, read: CommandAction) -> bool {
    does(tree, "cmd"@, "list_files"@, read)
}

fn parsed_command_from(json: &Json) -> (read: CommandAction)
    ensures
        parsed_command_reads(json@, read),
{
    action_of(json, "cmd", "list_files")
}

/// Whether this is what a command does, in the older form.
pub open spec fn parsed_commands_read(list: Seq<JsonTree>, read: Seq<CommandAction>) -> bool {
    &&& read.len() == list.len()
    &&& forall|i: int| 0 <= i < list.len() ==> parsed_command_reads(list[i], #[trigger] read[i])
}

fn parsed_commands_in(json: &Json, key: &str) -> (read: Vec<CommandAction>)
    ensures
        parsed_commands_read(list_at(json@, key@), read@),
{
    match list_in(json, key) {
        Some(items) => {
            let mut read: Vec<CommandAction> = Vec::new();
            let mut i: usize = 0;
            while i < items.len()
                invariant
                    i <= items@.len(),
                    read@.len() == i,
                    forall|j: int|
                        0 <= j < i ==> parsed_command_reads(items@[j]@, #[trigger] read@[j]),
                decreases items@.len() - i,
            {
                read.push(parsed_command_from(&items[i]));
                i = i + 1;
            }
            read
        },
        None => Vec::new(),
    }
}

/// Whether this is a host and what is to be done about it.
pub open spec fn amendment_reads(tree: JsonTree, read: NetworkAmendment) -> bool {
    &&& opt_tree(read.action) == Some(value_at(tree, "action"@))
    &&& read.host@ == text_at(tree, "host"@)
}

fn amendment_from(json: &Json) -> (read: NetworkAmendment)
    ensures
        amendment_reads(json@, read),
{
    NetworkAmendment { action: Some(value_in(json, "action")), host: text_in(json, "host") }
}

/// Whether this is how the policy for hosts could change.
pub open spec fn amendments_read(list: Seq<JsonTree>, read: Seq<NetworkAmendment>) -> bool {
    &&& read.len() == list.len()
    &&& forall|i: int| 0 <= i < list.len() ==> amendment_reads(list[i], #[trigger] read[i])
}

/// Whether this is how the policy for hosts could change, where there is a list.
pub open spec fn opt_amendments_read(
    tree: JsonTree,
    key: Seq<char>,
    read: Option<Vec<NetworkAmendment>>,
) -> bool {
    match opt_list_at(tree, key) {
        Some(list) => read matches Some(read) && amendments_read(list, read@),
        None => read is None,
    }
}

fn opt_amendments_in(json: &Json, key: &str) -> (read: Option<Vec<NetworkAmendment>>)
    ensures
        opt_amendments_read(json@, key@, read),
{
    match list_in(json, key) {
        Some(items) => {
            let mut read: Vec<NetworkAmendment> = Vec::new();
            let mut i: usize = 0;
            while i < items.len()
                invariant
                    i <= items@.len(),
                    read@.len() == i,
                    forall|j: int| 0 <= j < i ==> amendment_reads(items@[j]@, #[trigger] read@[j]),
                decreases items@.len() - i,
            {
                read.push(amendment_from(&items[i]));
                i = i + 1;
            }
            Some(read)
        },
        None => None,
    }
}

/// Whether this is a place in the file system.
pub open spec fn place_reads(tree: JsonTree, read: PathRef) -> bool {
    path_reads(chars_in(tree), read)
}

fn place_from(json: &Json) -> (read: PathRef)
    ensures
        place_reads(json@, read),
{
    path_from(text_from(json))
}

/// Whether these are the places of a list.
pub open spec fn places_read(list: Seq<JsonTree>, read: Seq<PathRef>) -> bool {
    &&& read.len() == list.len()
    &&& forall|i: int| 0 <= i < list.len() ==> place_reads(list[i], #[trigger] read[i])
}

/// Whether these are the places of a list, where there is a list.
pub open spec fn opt_places_read(
    tree: JsonTree,
    key: Seq<char>,
    read: Option<Vec<PathRef>>,
) -> bool {
    match opt_list_at(tree, key) {
        Some(list) => read matches Some(read) && places_read(list, read@),
        None => read is None,
    }
}

fn opt_places_in(json: &Json, key: &str) -> (read: Option<Vec<PathRef>>)
    ensures
        opt_places_read(json@, key@, read),
{
    match list_in(json, key) {
        Some(items) => {
            let mut read: Vec<PathRef> = Vec::new();
            let mut i: usize = 0;
            while i < items.len()
                invariant
                    i <= items@.len(),
                    read@.len() == i,
                    forall|j: int| 0 <= j < i ==> place_reads(items@[j]@, #[trigger] read@[j]),
                decreases items@.len() - i,
            {
                read.push(place_from(&items[i]));
                i = i + 1;
            }
            Some(read)
        },
        None => None,
    }
}

/// Whether this is a place that permission is asked for.
pub open spec fn file_system_path_reads(tree: JsonTree, path: FileSystemPath) -> bool {
    if is_kind(tree, "path"@) {
        path matches FileSystemPath::Path(at) && path_reads(text_at(tree, "path"@), at)
    } else if is_kind(tree, "glob_pattern"@) {
        path matches FileSystemPath::GlobPattern(pattern) && pattern@ == text_at(
            tree,
            "pattern"@,
        )
    } else {
        path matches FileSystemPath::Special(value) && opt_tree(value) == Some(
            value_at(tree, "value"@),
        )
    }
}

fn file_system_path_of(json: &Json) -> (path: FileSystemPath)
    ensures
        file_system_path_reads(json@, path),
{
    if has_kind(json, "path") {
        FileSystemPath::Path(path_from(text_in(json, "path")))
    } else if has_kind(json, "glob_pattern") {
        FileSystemPath::GlobPattern(text_in(json, "pattern"))
    } else {
        FileSystemPath::Special(Some(value_in(json, "value")))
    }
}

/// Whether this is a permission on a place.
pub open spec fn entry_reads(tree: JsonTree, read: FileSystemEntry) -> bool {
    &&& opt_tree(read.access) == Some(value_at(tree, "access"@))
    &&& file_system_path_reads(value_at(tree, "path"@), read.path)
}

fn entry_from(json: &Json) -> (read: FileSystemEntry)
    ensures
        entry_reads(json@, read),
{
    FileSystemEntry {
        access: Some(value_in(json, "access")),
        path: file_system_path_of(&value_in(json, "path")),
    }
}

/// Whether these are permissions on places.
pub open spec fn entries_read(list: Seq<JsonTree>, read: Seq<FileSystemEntry>) -> bool {
    &&& read.len() == list.len()
    &&& forall|i: int| 0 <= i < list.len() ==> entry_reads(list[i], #[trigger] read[i])
}

/// Whether these are permissions on places, where there is a list.
pub open spec fn opt_entries_read(
    tree: JsonTree,
    key: Seq<char>,
    read: Option<Vec<FileSystemEntry>>,
) -> bool {
    match opt_list_at(tree, key) {
        Some(list) => read matches Some(read) && entries_read(list, read@),
        None => read is None,
    }
}

fn opt_entries_in(json: &Json, key: &str) -> (read: Option<Vec<FileSystemEntry>>)
    ensures
        opt_entries_read(json@, key@, read),
{
    match list_in(json, key) {
        Some(items) => {
            let mut read: Vec<FileSystemEntry> = Vec::new();
            let mut i: usize = 0;
            while i < items.len()
                invariant
                    i <= items@.len(),
                    read@.len() == i,
                    forall|j: int| 0 <= j < i ==> entry_reads(items@[j]@, #[trigger] read@[j]),
                decreases items@.len() - i,
            {
                read.push(entry_from(&items[i]));
                i = i + 1;
            }
            Some(read)
        },
        None => None,
    }
}

/// Whether these are permissions on the file system.
pub open spec fn permissions_read(tree: JsonTree, read: FileSystemPermissions) -> bool {
    &&& opt_entries_read(tree, "entries"@, read.entries)
    &&& opt_places_read(tree, "read"@, read.read)
    &&& opt_places_read(tree, "write"@, read.write)
    &&& opt_int(read.glob_scan_max_depth) == opt_number_at(tree, "globScanMaxDepth"@)
}

fn permissions_from(json: &Json) -> (read: FileSystemPermissions)
    ensures
        permissions_read(json@, read),
{
    FileSystemPermissions {
        entries: opt_entries_in(json, "entries"),
        read: opt_places_in(json, "read"),
        write: opt_places_in(json, "write"),
        glob_scan_max_depth: opt_number_in(json, "globScanMaxDepth"),
    }
}

/// Whether this is a host and how it is spoken to.
pub open spec fn network_reads(tree: JsonTree, read: NetworkContext) -> bool {
    &&& read.host@ == text_at(tree, "host"@)
    &&& opt_tree(read.protocol) == Some(value_at(tree, "protocol"@))
}

/// Whether this is a request to run a command.
pub open spec fn command_reads(tree: JsonTree, read: CommandApprovalParams) -> bool {
    &&& read.thread_id@ == text_at(tree, "threadId"@)
    &&& read.turn_id@ == text_at(tree, "turnId"@)
    &&& opt_chars(read.command) == opt_text_at(tree, "command"@)
    &&& opt_actions_read(tree, "commandActions"@, read.command_actions)
    &&& opt_chars(read.cwd) == opt_text_at(tree, "cwd"@)
    &&& opt_chars(read.reason) == opt_text_at(tree, "reason"@)
    &&& opt_chars(read.environment_id) == opt_text_at(tree, "environmentId"@)
    &&& match some_at(tree, "networkApprovalContext"@) {
        Some(context) => read.network_approval_context matches Some(network) && network_reads(
            context,
            network,
        ),
        None => read.network_approval_context is None,
    }
    &&& opt_texts_read(tree, "proposedExecpolicyAmendment"@, read.proposed_execpolicy_amendment)
    &&& opt_amendments_read(
        tree,
        "proposedNetworkPolicyAmendments"@,
        read.proposed_network_policy_amendments,
    )
}

fn command_from(json: &Json) -> (read: CommandApprovalParams)
    ensures
        command_reads(json@, read),
{
    let network_approval_context = match some_in(json, "networkApprovalContext") {
        Some(context) => Some(
            NetworkContext {
                host: text_in(&context, "host"),
                protocol: Some(value_in(&context, "protocol")),
            },
        ),
        None => None,
    };
    CommandApprovalParams {
        thread_id: text_in(json, "threadId"),
        turn_id: text_in(json, "turnId"),
        command: opt_text_in(json, "command"),
        command_actions: opt_actions_in(json, "commandActions"),
        cwd: opt_text_in(json, "cwd"),
        reason: opt_text_in(json, "reason"),
        environment_id: opt_text_in(json, "environmentId"),
        network_approval_context,
        proposed_execpolicy_amendment: opt_texts_in(json, "proposedExecpolicyAmendment"),
        proposed_network_policy_amendments: opt_amendments_in(
            json,
            "proposedNetworkPolicyAmendments",
        ),
    }
}

/// Whether this is a request to change files.
pub open spec fn file_change_reads(tree: JsonTree, read: FileChangeApprovalParams) -> bool {
    &&& read.thread_id@ == text_at(tree, "threadId"@)
    &&& read.turn_id@ == text_at(tree, "turnId"@)
    &&& opt_chars(read.grant_root) == opt_text_at(tree, "grantRoot"@)
    &&& opt_chars(read.reason) == opt_text_at(tree, "reason"@)
}

fn file_change_from(json: &Json) -> (read: FileChangeApprovalParams)
    ensures
        file_change_reads(json@, read),
{
    FileChangeApprovalParams {
        thread_id: text_in(json, "threadId"),
        turn_id: text_in(json, "turnId"),
        grant_root: opt_text_in(json, "grantRoot"),
        reason: opt_text_in(json, "reason"),
    }
}

/// Whether this is a request for more permissions.
pub open spec fn asked_permissions_read(tree: JsonTree, read: PermissionsApprovalParams) -> bool {
    let asked = value_at(tree, "permissions"@);
    &&& read.thread_id@ == text_at(tree, "threadId"@)
    &&& read.turn_id@ == text_at(tree, "turnId"@)
    &&& read.cwd@ == text_at(tree, "cwd"@)
    &&& opt_chars(read.reason) == opt_text_at(tree, "reason"@)
    &&& opt_chars(read.environment_id) == opt_text_at(tree, "environmentId"@)
    &&& match some_at(asked, "fileSystem"@) {
        Some(places) => read.file_system matches Some(file_system) && permissions_read(
            places,
            file_system,
        ),
        None => read.file_system is None,
    }
    &&& read.network_enabled == opt_flag_at(value_at(asked, "network"@), "enabled"@)
    &&& read.permissions@ == asked
}

fn asked_permissions_from(json: &Json) -> (read: PermissionsApprovalParams)
    ensures
        asked_permissions_read(json@, read),
{
    let permissions = value_in(json, "permissions");
    let file_system = match some_in(&permissions, "fileSystem") {
        Some(places) => Some(permissions_from(&places)),
        None => None,
    };
    PermissionsApprovalParams {
        thread_id: text_in(json, "threadId"),
        turn_id: text_in(json, "turnId"),
        cwd: text_in(json, "cwd"),
        reason: opt_text_in(json, "reason"),
        environment_id: opt_text_in(json, "environmentId"),
        file_system,
        network_enabled: opt_flag_in(&value_in(&permissions, "network"), "enabled"),
        permissions,
    }
}

/// Whether this is a request to run a command, in the older form.
pub open spec fn exec_command_reads(tree: JsonTree, read: ExecCommandApprovalParams) -> bool {
    &&& read.conversation_id@ == value_at(tree, "conversationId"@)
    &&& texts_read(list_at(tree, "command"@), read.command@)
    &&& read.cwd@ == text_at(tree, "cwd"@)
    &&& opt_chars(read.reason) == opt_text_at(tree, "reason"@)
    &&& opt_chars(read.approval_id) == opt_text_at(tree, "approvalId"@)
    &&& parsed_commands_read(list_at(tree, "parsedCmd"@), read.parsed_cmd@)
}

fn exec_command_from(json: &Json) -> (read: ExecCommandApprovalParams)
    ensures
        exec_command_reads(json@, read),
{
    ExecCommandApprovalParams {
        conversation_id: value_in(json, "conversationId"),
        command: texts_in(json, "command"),
        cwd: text_in(json, "cwd"),
        reason: opt_text_in(json, "reason"),
        approval_id: opt_text_in(json, "approvalId"),
        parsed_cmd: parsed_commands_in(json, "parsedCmd"),
    }
}

/// Whether this is how a file is patched, in the older form. Only a file that is changed is moved.
pub open spec fn legacy_change_reads(
    entry: (Seq<char>, JsonTree),
    read: LegacyFileChange,
) -> bool {
    &&& path_reads(entry.0, read.path)
    &&& read.kind == patch_kind(entry.1)
    &&& opt_path_reads(
        if patch_kind(entry.1) is Update {
            opt_text_at(entry.1, "move_path"@)
        } else {
            None
        },
        read.move_path,
    )
}

/// Whether these are patches, in the older form.
pub open spec fn legacy_changes_read(tree: JsonTree, read: Seq<LegacyFileChange>) -> bool {
    &&& read.len() == entries_of(tree).len()
    &&& forall|i: int|
        0 <= i < read.len() ==> legacy_change_reads(entries_of(tree)[i], #[trigger] read[i])
}

fn legacy_change_from(path: &String, json: &Json) -> (read: LegacyFileChange)
    ensures
        legacy_change_reads((path@, json@), read),
{
    let kind = patch_kind_of(json);
    let move_path = match kind {
        PatchChangeKind::Update => opt_path_in(json, "move_path"),
        _ => None,
    };
    LegacyFileChange { path: path_from(path.clone()), kind, move_path }
}

fn legacy_changes_from(json: &Json) -> (read: Vec<LegacyFileChange>)
    ensures
        legacy_changes_read(json@, read@),
{
    match json {
        Json::Object(entries) => {
            let mut read: Vec<LegacyFileChange> = Vec::new();
            let mut i: usize = 0;
            while i < entries.len()
                invariant
                    i <= entries@.len(),
                    read@.len() == i,
                    forall|j: int|
                        0 <= j < i ==> legacy_change_reads(
                            (entries@[j].0@, entries@[j].1@),
                            #[trigger] read@[j],
                        ),
                decreases entries@.len() - i,
            {
                read.push(legacy_change_from(&entries[i].0, &entries[i].1));
                i = i + 1;
            }
            proof {
                lemma_entries_tree(entries@);
                assert(entries_of(json@) == entries_tree(entries@));
            }
            read
        },
        _ => Vec::new(),
    }
}

/// Whether this is a request to patch files, in the older form.
pub open spec fn patch_reads(tree: JsonTree, read: ApplyPatchApprovalParams) -> bool {
    &&& read.conversation_id@ == value_at(tree, "conversationId"@)
    &&& legacy_changes_read(value_at(tree, "fileChanges"@), read.file_changes@)
    &&& opt_chars(read.grant_root) == opt_text_at(tree, "grantRoot"@)
    &&& opt_chars(read.reason) == opt_text_at(tree, "reason"@)
}

fn patch_from(json: &Json) -> (read: ApplyPatchApprovalParams)
    ensures
        patch_reads(json@, read),
{
    ApplyPatchApprovalParams {
        conversation_id: value_in(json, "conversationId"),
        file_changes: legacy_changes_from(&value_in(json, "fileChanges")),
        grant_root: opt_text_in(json, "grantRoot"),
        reason: opt_text_in(json, "reason"),
    }
}

/// Whether this is a request that belongs to a turn and is handed on.
pub open spec fn scoped_reads(tree: JsonTree, read: ScopedParams) -> bool {
    &&& read.thread_id@ == text_at(tree, "threadId"@)
    &&& read.turn_id@ == text_at(tree, "turnId"@)
    &&& read.params@ == tree
}

fn scoped_from(json: Json) -> (read: ScopedParams)
    ensures
        scoped_reads(json@, read),
{
    ScopedParams {
        thread_id: text_in(&json, "threadId"),
        turn_id: text_in(&json, "turnId"),
        params: json,
    }
}

/// Whether this is what the bindings read as a request of this method. Of one that they do not
/// know, what came with it is kept.
pub open spec fn request_reads(
    method: Seq<char>,
    given: Option<JsonTree>,
    came: JsonTree,
    read: ServerRequest,
) -> bool {
    if method == "item/commandExecution/requestApproval"@ {
        read matches ServerRequest::CmdExecApproval(params) && command_reads(came, params)
    } else if method == "item/fileChange/requestApproval"@ {
        read matches ServerRequest::FileChangeApproval(params) && file_change_reads(came, params)
    } else if method == "item/permissions/requestApproval"@ {
        read matches ServerRequest::PermissionsRequestApproval(params) && asked_permissions_read(
            came,
            params,
        )
    } else if method == "execCommandApproval"@ {
        read matches ServerRequest::ExecCommandApproval(params) && exec_command_reads(came, params)
    } else if method == "applyPatchApproval"@ {
        read matches ServerRequest::ApplyPatchApproval(params) && patch_reads(came, params)
    } else if method == "item/tool/requestUserInput"@ {
        read matches ServerRequest::ToolRequestUserInput(params) && scoped_reads(came, params)
    } else if method == "item/tool/call"@ {
        read matches ServerRequest::ItemToolCall(params) && scoped_reads(came, params)
    } else if method == "mcpServer/elicitation/request"@ {
        read matches ServerRequest::McpServerElicitationRequest(params) && params@ == came
    } else if method == "account/chatgptAuthTokens/refresh"@ {
        read matches ServerRequest::ChatgptAuthTokensRefresh(params) && params@ == came
    } else if method == "attestation/generate"@ {
        read matches ServerRequest::AttestationGenerate(params) && params@ == came
    } else {
        &&& read matches ServerRequest::Unknown { method: named, params }
        &&& named@ == method
        &&& opt_tree(params) == given
    }
}

/// The request that the bindings read, taken apart by its method. Which paths are source files of
/// the workspace is not known here: none is marked as one.
pub fn read_request(method: &str, given: Option<Json>, came: Json) -> (read: ServerRequest)
    ensures
        request_reads(method@, opt_tree(given), came@, read),
{
    if same_text(method, "item/commandExecution/requestApproval") {
        ServerRequest::CmdExecApproval(command_from(&came))
    } else if same_text(method, "item/fileChange/requestApproval") {
        ServerRequest::FileChangeApproval(file_change_from(&came))
    } else if same_text(method, "item/permissions/requestApproval") {
        ServerRequest::PermissionsRequestApproval(asked_permissions_from(&came))
    } else if same_text(method, "execCommandApproval") {
        ServerRequest::ExecCommandApproval(exec_command_from(&came))
    } else if same_text(method, "applyPatchApproval") {
        ServerRequest::ApplyPatchApproval(patch_from(&came))
    } else if same_text(method, "item/tool/requestUserInput") {
        ServerRequest::ToolRequestUserInput(scoped_from(came))
    } else if same_text(method, "item/tool/call") {
        ServerRequest::ItemToolCall(scoped_from(came))
    } else if same_text(method, "mcpServer/elicitation/request") {
        ServerRequest::McpServerElicitationRequest(came)
    } else if same_text(method, "account/chatgptAuthTokens/refresh") {
        ServerRequest::ChatgptAuthTokensRefresh(came)
    } else if same_text(method, "attestation/generate") {
        ServerRequest::AttestationGenerate(came)
    } else {
        ServerRequest::Unknown { method: method.to_owned(), params: given }
    }
}

} // verus!
