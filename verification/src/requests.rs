//! Requests to the app-server.

use vstd::prelude::*;

use crate::handle::{ModelRef, ThreadHandle};
use crate::json::{entries_tree, member, text_array, text_value, Json, JsonTree};
use crate::modes::{
    input_tree, map_mode_to_collaboration_mode, map_permission_preset_to_codex_approval,
    map_permission_preset_to_codex_permissions, map_user_input, mode_chars, preset_approval,
    preset_permissions, Mode, PermissionPreset, UserInput,
};
use crate::paths::{absolute, is_absolute, sorted_paths, sorts};
use crate::request_laws::{
    law_file_requests_name_the_path, law_interrupt_names_the_turn, law_name_call_names_the_thread,
    law_resume_names_the_thread, law_start_names_directory_and_model,
    law_termination_names_the_process, law_turn_names_thread_and_words,
};
use crate::text::views;

verus! {

/// The entries of an object that is being made.
pub struct Fields {
    entries: Vec<(String, Json)>,
}

impl View for Fields {
    type V = Seq<(Seq<char>, JsonTree)>;

    closed spec fn view(&self) -> Seq<(Seq<char>, JsonTree)> {
        self.entries@.map_values(|entry: (String, Json)| (entry.0@, entry.1@))
    }
}

impl Fields {
    /// No entries.
    pub fn new() -> (fields: Self)
        ensures
            fields@ == Seq::<(Seq<char>, JsonTree)>::empty(),
    {
        let fields = Fields { entries: Vec::new() };
        proof {
            assert(fields@ =~= Seq::<(Seq<char>, JsonTree)>::empty());
        }
        fields
    }

    /// The entries, and one more.
    pub fn set(self, key: &str, value: Json) -> (fields: Self)
        ensures
            fields@ == self@.push((key@, value@)),
    {
        let mut entries = self.entries;
        entries.push((key.to_owned(), value));
        let fields = Fields { entries };
        proof {
            assert(fields@ =~= self@.push((key@, value@)));
        }
        fields
    }

    /// The entries, and one more that is a text.
    pub fn text(self, key: &str, text: &str) -> (fields: Self)
        ensures
            fields@ == self@.push((key@, JsonTree::Text(text@))),
    {
        self.set(key, text_value(text))
    }

    /// The object.
    pub fn object(self) -> (json: Json)
        ensures
            json@ == JsonTree::Object(self@),
    {
        proof {
            crate::json::lemma_entries_tree(self.entries@);
            assert(entries_tree(self.entries@) =~= self@);
        }
        Json::Object(self.entries)
    }
}

/// A request to the app-server.
#[derive(Debug)]
pub struct Call {
    /// What is asked.
    pub method: String,
    /// With what.
    pub params: Json,
}

/// A request to the app-server.
pub struct CallView {
    /// What is asked.
    pub method: Seq<char>,
    /// With what.
    pub params: JsonTree,
}

impl View for Call {
    type V = CallView;

    open spec fn view(&self) -> CallView {
        CallView { method: self.method@, params: self.params@ }
    }
}

fn call(method: &str, params: Json) -> (call: Call)
    ensures
        call@ == (CallView { method: method@, params: params@ }),
{
    Call { method: method.to_owned(), params }
}

/// A request about a thread, with nothing but its name.
pub open spec fn thread_call(method: Seq<char>, thread: Seq<char>) -> CallView {
    CallView { method, params: JsonTree::Object(seq![("threadId"@, JsonTree::Text(thread))]) }
}

fn about_thread(method: &str, thread: &str) -> (call: Call)
    ensures
        call@ == thread_call(method@, thread@),
{
    let params = Fields::new().text("threadId", thread).object();
    proof {
        assert(params@->Object_0 =~= seq![("threadId"@, JsonTree::Text(thread@))]);
    }
    self::call(method, params)
}

/// Asks to make a thread's context shorter.
pub fn compact_call(thread: &str) -> (call: Call)
    ensures
        call@ == thread_call("thread/compact/start"@, thread@),
{
    about_thread("thread/compact/start", thread)
}

/// Asks to put a thread away or to bring it back.
pub fn archive_call(thread: &str, archived: bool) -> (call: Call)
    ensures
        call@ == thread_call(
            if archived {
                "thread/archive"@
            } else {
                "thread/unarchive"@
            },
            thread@,
        ),
{
    if archived {
        about_thread("thread/archive", thread)
    } else {
        about_thread("thread/unarchive", thread)
    }
}

/// Asks to delete a thread.
pub fn delete_call(thread: &str) -> (call: Call)
    ensures
        call@ == thread_call("thread/delete"@, thread@),
{
    about_thread("thread/delete", thread)
}

/// The request to name a thread.
pub open spec fn name_request(thread: Seq<char>, name: Seq<char>) -> CallView {
    CallView {
        method: "thread/name/set"@,
        params: JsonTree::Object(
            seq![("name"@, JsonTree::Text(name)), ("threadId"@, JsonTree::Text(thread))],
        ),
    }
}

/// Asks to name a thread.
pub fn name_call(thread: &str, name: &str) -> (call: Call)
    ensures
        call@ == name_request(thread@, name@),
        call@.method == "thread/name/set"@,
        member(call@.params, "threadId"@) == Some(JsonTree::Text(thread@)),
        member(call@.params, "name"@) == Some(JsonTree::Text(name@)),
{
    proof {
        law_name_call_names_the_thread(thread@, name@);
    }
    let params = Fields::new().text("name", name).text("threadId", thread).object();
    proof {
        assert(params@->Object_0 =~= name_request(thread@, name@).params->Object_0);
    }
    self::call("thread/name/set", params)
}

/// The request to interrupt a turn.
pub open spec fn interrupt_request(thread: Seq<char>, turn: Seq<char>) -> CallView {
    CallView {
        method: "turn/interrupt"@,
        params: JsonTree::Object(
            seq![("threadId"@, JsonTree::Text(thread)), ("turnId"@, JsonTree::Text(turn))],
        ),
    }
}

/// Asks to interrupt a turn.
pub fn interrupt_call(thread: &str, turn: &str) -> (call: Call)
    ensures
        call@ == interrupt_request(thread@, turn@),
        call@.method == "turn/interrupt"@,
        member(call@.params, "threadId"@) == Some(JsonTree::Text(thread@)),
        member(call@.params, "turnId"@) == Some(JsonTree::Text(turn@)),
{
    proof {
        law_interrupt_names_the_turn(thread@, turn@);
    }
    let params = Fields::new().text("threadId", thread).text("turnId", turn).object();
    proof {
        assert(params@->Object_0 =~= interrupt_request(thread@, turn@).params->Object_0);
    }
    self::call("turn/interrupt", params)
}

/// The request to end a process in a background terminal.
pub open spec fn terminal_request(thread: Seq<char>, process: Seq<char>) -> CallView {
    CallView {
        method: "thread/backgroundTerminals/terminate"@,
        params: JsonTree::Object(
            seq![("processId"@, JsonTree::Text(process)), ("threadId"@, JsonTree::Text(thread))],
        ),
    }
}

/// Asks to end a process in a background terminal.
pub fn terminal_call(thread: &str, process: &str) -> (call: Call)
    ensures
        call@ == terminal_request(thread@, process@),
        call@.method == "thread/backgroundTerminals/terminate"@,
        member(call@.params, "threadId"@) == Some(JsonTree::Text(thread@)),
        member(call@.params, "processId"@) == Some(JsonTree::Text(process@)),
{
    proof {
        law_termination_names_the_process(thread@, process@);
    }
    let params = Fields::new().text("processId", process).text("threadId", thread).object();
    proof {
        assert(params@->Object_0 =~= terminal_request(thread@, process@).params->Object_0);
    }
    self::call("thread/backgroundTerminals/terminate", params)
}

/// The request to end a command.
pub open spec fn exec_request(process: Seq<char>) -> CallView {
    CallView {
        method: "command/exec/terminate"@,
        params: JsonTree::Object(seq![("processId"@, JsonTree::Text(process))]),
    }
}

/// Asks to end a command.
pub fn exec_call(process: &str) -> (call: Call)
    ensures
        call@ == exec_request(process@),
{
    let params = Fields::new().text("processId", process).object();
    proof {
        assert(params@->Object_0 =~= exec_request(process@).params->Object_0);
    }
    self::call("command/exec/terminate", params)
}

/// Where a list goes on, where it does.
pub open spec fn cursor_fields(cursor: Option<String>) -> Seq<(Seq<char>, JsonTree)> {
    match cursor {
        Some(text) => seq![("cursor"@, JsonTree::Text(text@))],
        None => Seq::empty(),
    }
}

fn cursor_field(cursor: &Option<String>) -> (fields: Fields)
    ensures
        fields@ == cursor_fields(*cursor),
{
    match cursor {
        Some(text) => {
            let fields = Fields::new().text("cursor", text.as_str());
            proof {
                assert(fields@ =~= cursor_fields(*cursor));
            }
            fields
        },
        None => Fields::new(),
    }
}

/// The request to list the MCP servers, with all about them.
pub open spec fn servers_request(cursor: Option<String>) -> CallView {
    CallView {
        method: "mcpServerStatus/list"@,
        params: JsonTree::Object(
            cursor_fields(cursor).push(("detail"@, JsonTree::Text("full"@))),
        ),
    }
}

/// Asks to list the MCP servers.
pub fn servers_call(cursor: &Option<String>) -> (call: Call)
    ensures
        call@ == servers_request(*cursor),
{
    self::call("mcpServerStatus/list", cursor_field(cursor).text("detail", "full").object())
}

/// The request to list the models that are not hidden.
pub open spec fn models_request(cursor: Option<String>) -> CallView {
    CallView { method: "model/list"@, params: JsonTree::Object(cursor_fields(cursor)) }
}

/// Asks to list the models.
pub fn models_call(cursor: &Option<String>) -> (call: Call)
    ensures
        call@ == models_request(*cursor),
{
    self::call("model/list", cursor_field(cursor).object())
}

/// Asks to read the configuration of the MCP servers again.
pub fn reload_call() -> (call: Call)
    ensures
        call@ == (CallView {
            method: "config/mcpServer/reload"@,
            params: JsonTree::Object(Seq::empty()),
        }),
{
    self::call("config/mcpServer/reload", Fields::new().object())
}

/// The request to log in to an MCP server.
pub open spec fn login_request(name: Seq<char>) -> CallView {
    CallView {
        method: "mcpServer/oauth/login"@,
        params: JsonTree::Object(seq![("name"@, JsonTree::Text(name))]),
    }
}

/// Asks to log in to an MCP server.
pub fn login_call(name: &str) -> (call: Call)
    ensures
        call@ == login_request(name@),
{
    let params = Fields::new().text("name", name).object();
    proof {
        assert(params@->Object_0 =~= login_request(name@).params->Object_0);
    }
    self::call("mcpServer/oauth/login", params)
}

/// The request for the configuration that holds in a directory.
pub open spec fn config_request(cwd: Seq<char>) -> CallView {
    CallView {
        method: "config/read"@,
        params: JsonTree::Object(
            seq![("cwd"@, JsonTree::Text(cwd)), ("includeLayers"@, JsonTree::Bool(false))],
        ),
    }
}

/// Asks for the configuration that holds in a directory.
pub fn config_call(cwd: &str) -> (call: Call)
    ensures
        call@ == config_request(cwd@),
{
    let params = Fields::new().text("cwd", cwd).set("includeLayers", Json::Bool(false)).object();
    proof {
        assert(params@->Object_0 =~= config_request(cwd@).params->Object_0);
    }
    self::call("config/read", params)
}

/// The model that is asked for, where one is.
pub open spec fn model_fields(model: Option<ModelRef>) -> Seq<(Seq<char>, JsonTree)> {
    match model {
        Some(m) => seq![
            ("model"@, JsonTree::Text(m.model@)),
            ("modelProvider"@, JsonTree::Text(m.provider@)),
        ],
        None => Seq::empty(),
    }
}

/// The request to start a thread on a model.
pub open spec fn start_request(cwd: Seq<char>, model: ModelRef) -> CallView {
    CallView {
        method: "thread/start"@,
        params: JsonTree::Object(seq![("cwd"@, JsonTree::Text(cwd))] + model_fields(Some(model))),
    }
}

/// Asks to start a thread on a model.
pub fn start_call(cwd: &str, model: &ModelRef) -> (call: Call)
    ensures
        call@ == start_request(cwd@, *model),
        call@.method == "thread/start"@,
        member(call@.params, "cwd"@) == Some(JsonTree::Text(cwd@)),
        member(call@.params, "model"@) == Some(JsonTree::Text(model.model@)),
        member(call@.params, "modelProvider"@) == Some(JsonTree::Text(model.provider@)),
{
    proof {
        law_start_names_directory_and_model(cwd@, *model);
    }
    let params = Fields::new().text("cwd", cwd).text("model", model.model.as_str()).text(
        "modelProvider",
        model.provider.as_str(),
    ).object();
    proof {
        assert(params@->Object_0 =~= start_request(cwd@, *model).params->Object_0);
    }
    self::call("thread/start", params)
}

/// The request to go on with a thread. A model that is asked for takes the place of the thread's
/// own; where none is, the thread keeps its model.
pub open spec fn resume_request(thread: Seq<char>, cwd: Seq<char>, model: Option<ModelRef>) -> CallView {
    CallView {
        method: "thread/resume"@,
        params: JsonTree::Object(
            (seq![("cwd"@, JsonTree::Text(cwd))] + model_fields(model)).push(
                ("threadId"@, JsonTree::Text(thread)),
            ),
        ),
    }
}

/// Asks to go on with a thread.
pub fn resume_call(thread: &str, cwd: &str, model: &Option<ModelRef>) -> (call: Call)
    ensures
        call@ == resume_request(thread@, cwd@, *model),
        call@.method == "thread/resume"@,
        member(call@.params, "threadId"@) == Some(JsonTree::Text(thread@)),
        member(call@.params, "cwd"@) == Some(JsonTree::Text(cwd@)),
        model matches Some(m) ==> {
            &&& member(call@.params, "model"@) == Some(JsonTree::Text(m.model@))
            &&& member(call@.params, "modelProvider"@) == Some(JsonTree::Text(m.provider@))
        },
        model is None ==> {
            &&& member(call@.params, "model"@) is None
            &&& member(call@.params, "modelProvider"@) is None
        },
{
    proof {
        law_resume_names_the_thread(thread@, cwd@, *model);
    }
    let mut fields = Fields::new().text("cwd", cwd);
    match model {
        Some(m) => {
            fields =
            fields.text("model", m.model.as_str()).text("modelProvider", m.provider.as_str());
        },
        None => {},
    }
    let params = fields.text("threadId", thread).object();
    proof {
        assert(params@->Object_0 =~= resume_request(thread@, cwd@, *model).params->Object_0);
    }
    self::call("thread/resume", params)
}

/// The request to make a directory, with all above it.
pub open spec fn make_directory_request(path: Seq<char>) -> CallView {
    CallView {
        method: "fs/createDirectory"@,
        params: JsonTree::Object(
            seq![("path"@, JsonTree::Text(path)), ("recursive"@, JsonTree::Bool(true))],
        ),
    }
}

/// Asks to make a directory.
pub fn make_directory_call(path: &str) -> (call: Call)
    ensures
        call@ == make_directory_request(path@),
{
    let params = Fields::new().text("path", path).set("recursive", Json::Bool(true)).object();
    proof {
        assert(params@->Object_0 =~= make_directory_request(path@).params->Object_0);
    }
    self::call("fs/createDirectory", params)
}

/// The request to write a file.
pub open spec fn write_file_request(path: Seq<char>, data: Seq<char>) -> CallView {
    CallView {
        method: "fs/writeFile"@,
        params: JsonTree::Object(
            seq![("dataBase64"@, JsonTree::Text(data)), ("path"@, JsonTree::Text(path))],
        ),
    }
}

/// Asks to write a file, whose bytes come in base 64.
pub fn write_file_call(path: &str, data: &str) -> (call: Call)
    ensures
        call@ == write_file_request(path@, data@),
        call@.method == "fs/writeFile"@,
        member(call@.params, "path"@) == Some(JsonTree::Text(path@)),
        member(call@.params, "dataBase64"@) == Some(JsonTree::Text(data@)),
{
    proof {
        law_file_requests_name_the_path(path@, data@);
    }
    let params = Fields::new().text("dataBase64", data).text("path", path).object();
    proof {
        assert(params@->Object_0 =~= write_file_request(path@, data@).params->Object_0);
    }
    self::call("fs/writeFile", params)
}

/// The request to remove a directory, with all below it, whether it is there or not.
pub open spec fn remove_request(path: Seq<char>) -> CallView {
    CallView {
        method: "fs/remove"@,
        params: JsonTree::Object(
            seq![
                ("force"@, JsonTree::Bool(true)),
                ("path"@, JsonTree::Text(path)),
                ("recursive"@, JsonTree::Bool(true)),
            ],
        ),
    }
}

/// Asks to remove a directory.
pub fn remove_call(path: &str) -> (call: Call)
    ensures
        call@ == remove_request(path@),
{
    let params = Fields::new().set("force", Json::Bool(true)).text("path", path).set(
        "recursive",
        Json::Bool(true),
    ).object();
    proof {
        assert(params@->Object_0 =~= remove_request(path@).params->Object_0);
    }
    self::call("fs/remove", params)
}

/// What this side tells about itself when the connection is set up: its name and version, and that
/// it takes the experimental parts of the protocol.
pub open spec fn initialize_tree(version: Seq<char>) -> JsonTree {
    JsonTree::Object(
        seq![
            (
                "capabilities"@,
                JsonTree::Object(seq![("experimentalApi"@, JsonTree::Bool(true))]),
            ),
            (
                "clientInfo"@,
                JsonTree::Object(
                    seq![
                        ("name"@, JsonTree::Text("giskard"@)),
                        ("title"@, JsonTree::Text("Giskard"@)),
                        ("version"@, JsonTree::Text(version)),
                    ],
                ),
            ),
        ],
    )
}

/// What this side tells about itself when the connection is set up.
pub fn build_initialize_params(version: &str) -> (params: Json)
    ensures
        params@ == initialize_tree(version@),
{
    let capabilities = Fields::new().set("experimentalApi", Json::Bool(true)).object();
    let client = Fields::new().text("name", "giskard").text("title", "Giskard").text(
        "version",
        version,
    ).object();
    let ghost want = initialize_tree(version@)->Object_0;
    proof {
        assert(capabilities@->Object_0 =~= want[0].1->Object_0);
        assert(client@->Object_0 =~= want[1].1->Object_0);
    }
    let params = Fields::new().set("capabilities", capabilities).set("clientInfo", client).object();
    proof {
        assert(params@->Object_0 =~= want);
    }
    params
}

/// What a turn is asked to do differently.
#[derive(Debug)]
pub struct TurnOverrides {
    /// How the agent works.
    pub mode: Mode,
    /// The model, where it is not the thread's.
    pub model: Option<ModelRef>,
    /// What the turn may do.
    pub permission_preset: PermissionPreset,
}

/// The roots below which a turn may write: the thread's workspace and those of the configuration,
/// in order, each once.
pub open spec fn runtime_roots(thread: ThreadHandle, configured: Seq<String>) -> Seq<Seq<char>> {
    seq![thread.workspace_root@] + views(configured)
}

/// The roots below which a turn may write.
pub fn runtime_workspace_roots(thread: &ThreadHandle, configured_writable_roots: &Vec<String>) -> (roots:
    Vec<String>)
    ensures
        sorts(views(roots@), runtime_roots(*thread, configured_writable_roots@)),
{
    let mut roots: Vec<String> = Vec::new();
    roots.push(thread.workspace_root.clone());
    let mut i: usize = 0;
    while i < configured_writable_roots.len()
        invariant
            i <= configured_writable_roots@.len(),
            roots@.len() == i + 1,
            roots@[0] == thread.workspace_root,
            forall|j: int| 0 <= j < i ==> #[trigger] roots@[j + 1] == configured_writable_roots@[j],
        decreases configured_writable_roots@.len() - i,
    {
        roots.push(configured_writable_roots[i].clone());
        i = i + 1;
    }
    proof {
        assert forall|j: int| 0 <= j < roots@.len() implies #[trigger] views(roots@)[j]
            == runtime_roots(*thread, configured_writable_roots@)[j] by {
            if j > 0 {
                assert(roots@[(j - 1) + 1] == configured_writable_roots@[j - 1]);
            }
        }
        assert(views(roots@) =~= runtime_roots(*thread, configured_writable_roots@));
    }
    sorted_paths(&roots)
}

/// The roots of a configuration that start at the root of the file system. The others are left out.
pub open spec fn absolute_roots(roots: Seq<String>) -> Seq<Seq<char>>
    decreases roots.len(),
{
    if roots.len() == 0 {
        Seq::empty()
    } else if is_absolute(roots.last()@) {
        absolute_roots(roots.drop_last()).push(roots.last()@)
    } else {
        absolute_roots(roots.drop_last())
    }
}

/// The roots below which a turn may write besides its workspace: those of the configuration that
/// start at the root of the file system, in order, each once. None where the configuration could
/// not be read or has none.
pub fn configured_workspace_write_roots(writable_roots: &Option<Vec<String>>) -> (roots: Vec<String>)
    ensures
        match *writable_roots {
            Some(configured) => sorts(views(roots@), absolute_roots(configured@)),
            None => roots@.len() == 0,
        },
{
    match writable_roots {
        Some(configured) => {
            let mut kept: Vec<String> = Vec::new();
            let mut i: usize = 0;
            proof {
                assert(configured@.take(0) =~= Seq::<String>::empty());
                assert(views(kept@) =~= absolute_roots(configured@.take(0)));
            }
            while i < configured.len()
                invariant
                    i <= configured@.len(),
                    views(kept@) == absolute_roots(configured@.take(i as int)),
                decreases configured@.len() - i,
            {
                let ghost before = kept@;
                proof {
                    assert(configured@.take(i + 1).drop_last() =~= configured@.take(i as int));
                    assert(configured@.take(i + 1).last() == configured@[i as int]);
                }
                if absolute(configured[i].as_str()) {
                    kept.push(configured[i].clone());
                    proof {
                        assert(views(kept@) =~= views(before).push(configured@[i as int]@));
                    }
                }
                i = i + 1;
            }
            proof {
                assert(configured@.take(configured@.len() as int) =~= configured@);
            }
            sorted_paths(&kept)
        },
        None => Vec::new(),
    }
}

/// An effort, or `null`.
pub open spec fn effort_tree(effort: Option<String>) -> JsonTree {
    match effort {
        Some(text) => JsonTree::Text(text@),
        None => JsonTree::Null,
    }
}

/// How the agent works and on which model.
pub open spec fn collaboration_tree(mode: Mode, model: ModelRef) -> JsonTree {
    JsonTree::Object(
        seq![
            ("mode"@, JsonTree::Text(mode_chars(mode))),
            (
                "settings"@,
                JsonTree::Object(
                    seq![
                        ("developer_instructions"@, JsonTree::Null),
                        ("model"@, JsonTree::Text(model.model@)),
                        ("reasoning_effort"@, effort_tree(model.reasoning_effort)),
                    ],
                ),
            ),
        ],
    )
}

/// What a turn is started with. The roots stand in it only where what stays in the workspace is
/// approved by itself, and the model, with the effort and with how the agent works, only where one
/// is asked for.
pub open spec fn turn_fields(
    thread: ThreadHandle,
    input: UserInput,
    overrides: TurnOverrides,
    roots: Seq<String>,
) -> Seq<(Seq<char>, JsonTree)> {
    let a = seq![
        (
            "approvalPolicy"@,
            JsonTree::Text(preset_approval(overrides.permission_preset)),
        ),
    ];
    let b = match overrides.model {
        Some(model) => a.push(("collaborationMode"@, collaboration_tree(overrides.mode, model))),
        None => a,
    };
    let c = match overrides.model {
        Some(ModelRef { reasoning_effort: Some(effort), .. }) => b.push(
            ("effort"@, JsonTree::Text(effort@)),
        ),
        _ => b,
    };
    let d = c.push(("input"@, input_tree(input)));
    let e = match overrides.model {
        Some(model) => d.push(("model"@, JsonTree::Text(model.model@))),
        None => d,
    };
    let f = e.push(
        ("permissions"@, JsonTree::Text(preset_permissions(overrides.permission_preset))),
    );
    let g = if overrides.permission_preset == PermissionPreset::AutoApprove {
        f.push(("runtimeWorkspaceRoots"@, crate::approval::text_list(roots)))
    } else {
        f
    };
    g.push(("threadId"@, JsonTree::Text(thread.harness_thread_id@)))
}

fn collaboration(mode: Mode, model: &ModelRef) -> (value: Json)
    ensures
        value@ == collaboration_tree(mode, *model),
{
    let effort = match &model.reasoning_effort {
        Some(text) => text_value(text.as_str()),
        None => Json::Null,
    };
    let settings = Fields::new().set("developer_instructions", Json::Null).text(
        "model",
        model.model.as_str(),
    ).set("reasoning_effort", effort).object();
    let ghost want = collaboration_tree(mode, *model)->Object_0;
    proof {
        assert(settings@->Object_0 =~= want[1].1->Object_0);
    }
    let value = Fields::new().text("mode", map_mode_to_collaboration_mode(mode)).set(
        "settings",
        settings,
    ).object();
    proof {
        assert(value@->Object_0 =~= want);
    }
    value
}

/// What a turn is started with.
pub fn build_turn_start_params(
    thread: &ThreadHandle,
    input: &UserInput,
    overrides: &TurnOverrides,
    configured_writable_roots: &Vec<String>,
) -> (params: Json)
    ensures
        exists|roots: Vec<String>|
            sorts(views(roots@), runtime_roots(*thread, configured_writable_roots@))
                && #[trigger] turn_fields(*thread, *input, *overrides, roots@)
                == params@->Object_0,
        params@ is Object,
        member(params@, "threadId"@) == Some(JsonTree::Text(thread.harness_thread_id@)),
        ({
            &&& member(params@, "input"@) matches Some(JsonTree::Array(parts))
            &&& parts.len() > 0
            &&& member(parts[0], "type"@) == Some(JsonTree::Text("text"@))
            &&& member(parts[0], "text"@) == Some(JsonTree::Text(input.text@))
        }),
{
    let roots = runtime_workspace_roots(thread, configured_writable_roots);
    let mut fields = Fields::new().text(
        "approvalPolicy",
        map_permission_preset_to_codex_approval(overrides.permission_preset),
    );
    proof {
        assert(fields@ =~= seq![
            (
                "approvalPolicy"@,
                JsonTree::Text(preset_approval(overrides.permission_preset)),
            ),
        ]);
    }
    match &overrides.model {
        Some(model) => {
            fields = fields.set("collaborationMode", collaboration(overrides.mode, model));
            match &model.reasoning_effort {
                Some(effort) => {
                    fields = fields.text("effort", effort.as_str());
                },
                None => {},
            }
        },
        None => {},
    }
    fields = fields.set("input", map_user_input(input));
    match &overrides.model {
        Some(model) => {
            fields = fields.text("model", model.model.as_str());
        },
        None => {},
    }
    fields =
    fields.text(
        "permissions",
        map_permission_preset_to_codex_permissions(overrides.permission_preset),
    );
    if overrides.permission_preset == PermissionPreset::AutoApprove {
        fields = fields.set("runtimeWorkspaceRoots", text_array(&roots));
    }
    fields = fields.text("threadId", thread.harness_thread_id.as_str());
    proof {
        assert(fields@ =~= turn_fields(*thread, *input, *overrides, roots@));
        law_turn_names_thread_and_words(*thread, *input, *overrides, roots@);
    }
    fields.object()
}

} // verus!
