//! What each request to the app-server says, name by name.

use vstd::prelude::*;

use crate::handle::{ModelRef, ThreadHandle};
use crate::json::{law_member_is_the_first_entry, member, JsonTree};
use crate::approval::text_list;
use crate::modes::{
    effort_chars, image_trees, input_tree, mode_chars, policy_chars, preset_approval,
    preset_permissions, ApprovalPolicy, AttachmentKind, Effort, Mode, PermissionPreset,
    UserAttachment, UserInput,
};
use crate::requests::{
    collaboration_tree, config_request, exec_request, initialize_tree, interrupt_request, login_request,
    make_directory_request, models_request, name_request, remove_request,
    resume_request, servers_request, start_request, terminal_request, thread_call, turn_fields,
    write_file_request, TurnOverrides,
};

verus! {

/// A request about a thread goes by its method and names that thread, and nothing else.
pub proof fn law_thread_call_names_the_thread(method: Seq<char>, thread: Seq<char>, key: Seq<char>)
    ensures
        thread_call(method, thread).method == method,
        member(thread_call(method, thread).params, "threadId"@) == Some(JsonTree::Text(thread)),
        key != "threadId"@ ==> member(thread_call(method, thread).params, key) is None,
{
    let entries = thread_call(method, thread).params->Object_0;
    law_member_is_the_first_entry(entries, "threadId"@, 0);
    if key != "threadId"@ {
        law_member_is_the_first_entry(entries, key, 1);
    }
}

/// A thread is named by its own name, and called what it is to be called.
pub proof fn law_name_call_names_the_thread(thread: Seq<char>, name: Seq<char>)
    ensures
        name_request(thread, name).method == "thread/name/set"@,
        member(name_request(thread, name).params, "threadId"@) == Some(JsonTree::Text(thread)),
        member(name_request(thread, name).params, "name"@) == Some(JsonTree::Text(name)),
{
    reveal_strlit("name");
    assert("name"@.len() == 4);
    reveal_strlit("threadId");
    assert("threadId"@.len() == 8);
    let entries = name_request(thread, name).params->Object_0;
    law_member_is_the_first_entry(entries, "name"@, 0);
    law_member_is_the_first_entry(entries, "threadId"@, 1);
}

/// An interruption names the thread and the turn that is interrupted.
pub proof fn law_interrupt_names_the_turn(thread: Seq<char>, turn: Seq<char>)
    ensures
        interrupt_request(thread, turn).method == "turn/interrupt"@,
        member(interrupt_request(thread, turn).params, "threadId"@) == Some(JsonTree::Text(thread)),
        member(interrupt_request(thread, turn).params, "turnId"@) == Some(JsonTree::Text(turn)),
{
    reveal_strlit("threadId");
    assert("threadId"@.len() == 8);
    reveal_strlit("turnId");
    assert("turnId"@.len() == 6);
    let entries = interrupt_request(thread, turn).params->Object_0;
    law_member_is_the_first_entry(entries, "threadId"@, 0);
    law_member_is_the_first_entry(entries, "turnId"@, 1);
}

/// A process is ended by its own name: in a background terminal together with the thread, and
/// elsewhere without one.
pub proof fn law_termination_names_the_process(thread: Seq<char>, process: Seq<char>)
    ensures
        terminal_request(thread, process).method == "thread/backgroundTerminals/terminate"@,
        member(terminal_request(thread, process).params, "threadId"@) == Some(
            JsonTree::Text(thread),
        ),
        member(terminal_request(thread, process).params, "processId"@) == Some(
            JsonTree::Text(process),
        ),
        exec_request(process).method == "command/exec/terminate"@,
        member(exec_request(process).params, "processId"@) == Some(JsonTree::Text(process)),
        member(exec_request(process).params, "threadId"@) is None,
{
    reveal_strlit("processId");
    assert("processId"@.len() == 9);
    reveal_strlit("threadId");
    assert("threadId"@.len() == 8);
    let entries = terminal_request(thread, process).params->Object_0;
    law_member_is_the_first_entry(entries, "processId"@, 0);
    law_member_is_the_first_entry(entries, "threadId"@, 1);
    let alone = exec_request(process).params->Object_0;
    law_member_is_the_first_entry(alone, "processId"@, 0);
    law_member_is_the_first_entry(alone, "threadId"@, 1);
}

/// A list goes on where the page before it ended, and starts at its beginning where there was
/// none. Of the servers everything is asked for.
pub proof fn law_list_goes_on_from_the_cursor(cursor: Option<String>)
    ensures
        servers_request(cursor).method == "mcpServerStatus/list"@,
        models_request(cursor).method == "model/list"@,
        member(servers_request(cursor).params, "detail"@) == Some(JsonTree::Text("full"@)),
        member(models_request(cursor).params, "detail"@) is None,
        cursor matches Some(text) ==> {
            &&& member(servers_request(cursor).params, "cursor"@) == Some(JsonTree::Text(text@))
            &&& member(models_request(cursor).params, "cursor"@) == Some(JsonTree::Text(text@))
        },
        cursor is None ==> {
            &&& member(servers_request(cursor).params, "cursor"@) is None
            &&& member(models_request(cursor).params, "cursor"@) is None
        },
{
    reveal_strlit("cursor");
    assert("cursor"@.len() == 6);
    reveal_strlit("detail");
    assert("detail"@.len() == 6);
    assert("cursor"@[0] != "detail"@[0]);
    let servers = servers_request(cursor).params->Object_0;
    let models = models_request(cursor).params->Object_0;
    match cursor {
        Some(text) => {
            law_member_is_the_first_entry(servers, "cursor"@, 0);
            law_member_is_the_first_entry(servers, "detail"@, 1);
            law_member_is_the_first_entry(models, "cursor"@, 0);
            law_member_is_the_first_entry(models, "detail"@, 1);
        },
        None => {
            law_member_is_the_first_entry(servers, "detail"@, 0);
            law_member_is_the_first_entry(servers, "cursor"@, 1);
            law_member_is_the_first_entry(models, "cursor"@, 0);
            law_member_is_the_first_entry(models, "detail"@, 0);
        },
    }
}

/// A login names the server.
pub proof fn law_login_names_the_server(name: Seq<char>)
    ensures
        login_request(name).method == "mcpServer/oauth/login"@,
        member(login_request(name).params, "name"@) == Some(JsonTree::Text(name)),
{
    law_member_is_the_first_entry(login_request(name).params->Object_0, "name"@, 0);
}

/// The configuration is read for the directory that was given, without its layers.
pub proof fn law_config_is_read_for_the_directory(cwd: Seq<char>)
    ensures
        config_request(cwd).method == "config/read"@,
        member(config_request(cwd).params, "cwd"@) == Some(JsonTree::Text(cwd)),
        member(config_request(cwd).params, "includeLayers"@) == Some(JsonTree::Bool(false)),
{
    reveal_strlit("cwd");
    assert("cwd"@.len() == 3);
    reveal_strlit("includeLayers");
    assert("includeLayers"@.len() == 13);
    let entries = config_request(cwd).params->Object_0;
    law_member_is_the_first_entry(entries, "cwd"@, 0);
    law_member_is_the_first_entry(entries, "includeLayers"@, 1);
}

/// A thread is started in the directory and on the model that were given, and names no thread.
pub proof fn law_start_names_directory_and_model(cwd: Seq<char>, model: ModelRef)
    ensures
        start_request(cwd, model).method == "thread/start"@,
        member(start_request(cwd, model).params, "cwd"@) == Some(JsonTree::Text(cwd)),
        member(start_request(cwd, model).params, "model"@) == Some(JsonTree::Text(model.model@)),
        member(start_request(cwd, model).params, "modelProvider"@) == Some(
            JsonTree::Text(model.provider@),
        ),
        member(start_request(cwd, model).params, "threadId"@) is None,
{
    reveal_strlit("cwd");
    assert("cwd"@.len() == 3);
    reveal_strlit("model");
    assert("model"@.len() == 5);
    reveal_strlit("modelProvider");
    assert("modelProvider"@.len() == 13);
    reveal_strlit("threadId");
    assert("threadId"@.len() == 8);
    let entries = start_request(cwd, model).params->Object_0;
    law_member_is_the_first_entry(entries, "cwd"@, 0);
    law_member_is_the_first_entry(entries, "model"@, 1);
    law_member_is_the_first_entry(entries, "modelProvider"@, 2);
    law_member_is_the_first_entry(entries, "threadId"@, 3);
}

/// A thread is gone on with by its own name, in the directory that was given. A model and its
/// provider are named where one is asked for, and otherwise neither is.
pub proof fn law_resume_names_the_thread(
    thread: Seq<char>,
    cwd: Seq<char>,
    model: Option<ModelRef>,
)
    ensures
        resume_request(thread, cwd, model).method == "thread/resume"@,
        member(resume_request(thread, cwd, model).params, "threadId"@) == Some(
            JsonTree::Text(thread),
        ),
        member(resume_request(thread, cwd, model).params, "cwd"@) == Some(JsonTree::Text(cwd)),
        model matches Some(m) ==> {
            &&& member(resume_request(thread, cwd, model).params, "model"@) == Some(
                JsonTree::Text(m.model@),
            )
            &&& member(resume_request(thread, cwd, model).params, "modelProvider"@) == Some(
                JsonTree::Text(m.provider@),
            )
        },
        model is None ==> {
            &&& member(resume_request(thread, cwd, model).params, "model"@) is None
            &&& member(resume_request(thread, cwd, model).params, "modelProvider"@) is None
        },
{
    reveal_strlit("cwd");
    assert("cwd"@.len() == 3);
    reveal_strlit("model");
    assert("model"@.len() == 5);
    reveal_strlit("modelProvider");
    assert("modelProvider"@.len() == 13);
    reveal_strlit("threadId");
    assert("threadId"@.len() == 8);
    let entries = resume_request(thread, cwd, model).params->Object_0;
    law_member_is_the_first_entry(entries, "cwd"@, 0);
    match model {
        Some(m) => {
            law_member_is_the_first_entry(entries, "model"@, 1);
            law_member_is_the_first_entry(entries, "modelProvider"@, 2);
            law_member_is_the_first_entry(entries, "threadId"@, 3);
        },
        None => {
            law_member_is_the_first_entry(entries, "threadId"@, 1);
            law_member_is_the_first_entry(entries, "model"@, 2);
            law_member_is_the_first_entry(entries, "modelProvider"@, 2);
        },
    }
}

/// Two resumptions are the same request only where they go on with the same thread in the same
/// directory.
pub proof fn law_resumptions_are_told_apart(
    thread: Seq<char>,
    cwd: Seq<char>,
    model: Option<ModelRef>,
    other_thread: Seq<char>,
    other_cwd: Seq<char>,
    other_model: Option<ModelRef>,
)
    requires
        thread != other_thread || cwd != other_cwd || model is Some != other_model is Some,
    ensures
        resume_request(thread, cwd, model) != resume_request(other_thread, other_cwd, other_model),
{
    law_resume_names_the_thread(thread, cwd, model);
    law_resume_names_the_thread(other_thread, other_cwd, other_model);
}

/// A directory is made at its path, with all above it; a file is written at its path with its
/// bytes; and a directory is removed at its path, with all below it, whether it is there or not.
pub proof fn law_file_requests_name_the_path(path: Seq<char>, data: Seq<char>)
    ensures
        make_directory_request(path).method == "fs/createDirectory"@,
        member(make_directory_request(path).params, "path"@) == Some(JsonTree::Text(path)),
        member(make_directory_request(path).params, "recursive"@) == Some(JsonTree::Bool(true)),
        write_file_request(path, data).method == "fs/writeFile"@,
        member(write_file_request(path, data).params, "path"@) == Some(JsonTree::Text(path)),
        member(write_file_request(path, data).params, "dataBase64"@) == Some(JsonTree::Text(data)),
        remove_request(path).method == "fs/remove"@,
        member(remove_request(path).params, "path"@) == Some(JsonTree::Text(path)),
        member(remove_request(path).params, "recursive"@) == Some(JsonTree::Bool(true)),
        member(remove_request(path).params, "force"@) == Some(JsonTree::Bool(true)),
{
    reveal_strlit("path");
    assert("path"@.len() == 4);
    reveal_strlit("recursive");
    assert("recursive"@.len() == 9);
    reveal_strlit("dataBase64");
    assert("dataBase64"@.len() == 10);
    reveal_strlit("force");
    assert("force"@.len() == 5);
    let made = make_directory_request(path).params->Object_0;
    law_member_is_the_first_entry(made, "path"@, 0);
    law_member_is_the_first_entry(made, "recursive"@, 1);
    let written = write_file_request(path, data).params->Object_0;
    law_member_is_the_first_entry(written, "dataBase64"@, 0);
    law_member_is_the_first_entry(written, "path"@, 1);
    let removed = remove_request(path).params->Object_0;
    law_member_is_the_first_entry(removed, "force"@, 0);
    law_member_is_the_first_entry(removed, "path"@, 1);
    law_member_is_the_first_entry(removed, "recursive"@, 2);
}

/// The connection is set up under this side's name and version, and with the experimental parts of
/// the protocol.
pub proof fn law_initialization_tells_the_version(version: Seq<char>)
    ensures
        ({
            &&& member(initialize_tree(version), "clientInfo"@) matches Some(info)
            &&& member(info, "name"@) == Some(JsonTree::Text("giskard"@))
            &&& member(info, "title"@) == Some(JsonTree::Text("Giskard"@))
            &&& member(info, "version"@) == Some(JsonTree::Text(version))
        }),
        ({
            &&& member(initialize_tree(version), "capabilities"@) matches Some(parts)
            &&& member(parts, "experimentalApi"@) == Some(JsonTree::Bool(true))
        }),
{
    reveal_strlit("clientInfo");
    assert("clientInfo"@.len() == 10);
    reveal_strlit("capabilities");
    assert("capabilities"@.len() == 12);
    reveal_strlit("name");
    assert("name"@.len() == 4);
    reveal_strlit("title");
    assert("title"@.len() == 5);
    reveal_strlit("version");
    assert("version"@.len() == 7);
    let entries = initialize_tree(version)->Object_0;
    law_member_is_the_first_entry(entries, "capabilities"@, 0);
    law_member_is_the_first_entry(entries, "clientInfo"@, 1);
    let parts = entries[0].1->Object_0;
    law_member_is_the_first_entry(parts, "experimentalApi"@, 0);
    let info = entries[1].1->Object_0;
    law_member_is_the_first_entry(info, "name"@, 0);
    law_member_is_the_first_entry(info, "title"@, 1);
    law_member_is_the_first_entry(info, "version"@, 2);
}

proof fn lemma_pushed_member(entries: Seq<(Seq<char>, JsonTree)>, name: Seq<char>, value: JsonTree)
    ensures
        forall|key: Seq<char>| #[trigger]
            member(JsonTree::Object(entries.push((name, value))), key) == (match member(
                JsonTree::Object(entries),
                key,
            ) {
                Some(found) => Some(found),
                None => if key == name {
                    Some(value)
                } else {
                    None
                },
            }),
{
    assert forall|key: Seq<char>| #[trigger]
        member(JsonTree::Object(entries.push((name, value))), key) == (match member(
            JsonTree::Object(entries),
            key,
        ) {
            Some(found) => Some(found),
            None => if key == name {
                Some(value)
            } else {
                None
            },
        }) by {
        let more = entries.push((name, value));
        if exists|i: int| 0 <= i < entries.len() && #[trigger] entries[i].0 == key {
            let at = lemma_first_with(entries, key);
            assert(forall|i: int| 0 <= i < at ==> #[trigger] more[i].0 != key) by {
                assert(forall|i: int| 0 <= i < at ==> #[trigger] more[i] == entries[i]);
            }
            law_member_is_the_first_entry(entries, key, at);
            law_member_is_the_first_entry(more, key, at);
        } else {
            law_member_is_the_first_entry(entries, key, entries.len() as int);
            let at = if key == name {
                entries.len() as int
            } else {
                more.len() as int
            };
            assert(forall|i: int| 0 <= i < at ==> #[trigger] more[i].0 != key) by {
                assert(forall|i: int| 0 <= i < entries.len() ==> #[trigger] more[i] == entries[i]);
            }
            law_member_is_the_first_entry(more, key, at);
        }
    }
}

proof fn lemma_first_with(entries: Seq<(Seq<char>, JsonTree)>, key: Seq<char>) -> (at: int)
    requires
        exists|i: int| 0 <= i < entries.len() && #[trigger] entries[i].0 == key,
    ensures
        0 <= at < entries.len(),
        entries[at].0 == key,
        forall|i: int| 0 <= i < at ==> #[trigger] entries[i].0 != key,
    decreases entries.len(),
{
    let before = entries.drop_last();
    if exists|i: int| 0 <= i < before.len() && #[trigger] before[i].0 == key {
        let at = lemma_first_with(before, key);
        assert(forall|i: int| 0 <= i < at ==> #[trigger] entries[i].0 == before[i].0);
        at
    } else {
        assert(forall|i: int| 0 <= i < before.len() ==> #[trigger] entries[i].0 == before[i].0);
        entries.len() - 1
    }
}

/// The words of the user are the first part of what is sent, as they were written.
pub proof fn law_input_starts_with_the_words(input: UserInput)
    ensures
        ({
            &&& input_tree(input) matches JsonTree::Array(parts)
            &&& parts.len() > 0
            &&& member(parts[0], "type"@) == Some(JsonTree::Text("text"@))
            &&& member(parts[0], "text"@) == Some(JsonTree::Text(input.text@))
        }),
{
    reveal_strlit("text");
    assert("text"@.len() == 4);
    reveal_strlit("type");
    assert("type"@.len() == 4);
    assert("text"@[1] != "type"@[1]);
    let words = input_tree(input)->Array_0[0]->Object_0;
    law_member_is_the_first_entry(words, "text"@, 0);
    law_member_is_the_first_entry(words, "type"@, 1);
}

/// Different words are sent as different values.
pub proof fn law_different_words_are_told_apart(a: UserInput, b: UserInput)
    requires
        a.text@ != b.text@,
    ensures
        input_tree(a) != input_tree(b),
{
    law_input_starts_with_the_words(a);
    law_input_starts_with_the_words(b);
}

/// After the words come the images, all of them and nothing else, in order. Each is sent with its
/// type and its bytes.
pub proof fn law_images_follow_the_words(input: UserInput)
    ensures
        ({
            let images = input.attachments@.filter(
                |attachment: UserAttachment| attachment.kind == AttachmentKind::Image,
            );
            &&& input_tree(input) matches JsonTree::Array(parts)
            &&& parts.len() == images.len() + 1
            &&& forall|i: int|
                0 <= i < images.len() ==> {
                    &&& member(#[trigger] parts[i + 1], "type"@) == Some(JsonTree::Text("image"@))
                    &&& member(parts[i + 1], "url"@) == Some(
                        JsonTree::Text(
                            "data:"@ + images[i].mime_type@ + ";base64,"@ + images[i].data_base64@,
                        ),
                    )
                }
        }),
{
    let images = input.attachments@.filter(
        |attachment: UserAttachment| attachment.kind == AttachmentKind::Image,
    );
    let parts = input_tree(input)->Array_0;
    lemma_image_parts(input.attachments@);
    assert forall|i: int| 0 <= i < images.len() implies {
        &&& member(#[trigger] parts[i + 1], "type"@) == Some(JsonTree::Text("image"@))
        &&& member(parts[i + 1], "url"@) == Some(
            JsonTree::Text("data:"@ + images[i].mime_type@ + ";base64,"@ + images[i].data_base64@),
        )
    } by {
        reveal_strlit("type");
        assert("type"@.len() == 4);
        reveal_strlit("url");
        assert("url"@.len() == 3);
        assert(parts[i + 1] == image_trees(input.attachments@)[i]);
        assert(parts[i + 1] == crate::modes::image_tree(images[i]));
        let image = parts[i + 1]->Object_0;
        law_member_is_the_first_entry(image, "type"@, 0);
        law_member_is_the_first_entry(image, "url"@, 1);
    }
}

proof fn lemma_image_parts(attachments: Seq<UserAttachment>)
    ensures
        ({
            let images = attachments.filter(
                |attachment: UserAttachment| attachment.kind == AttachmentKind::Image,
            );
            &&& image_trees(attachments).len() == images.len()
            &&& forall|i: int|
                0 <= i < images.len() ==> #[trigger] image_trees(attachments)[i]
                    == crate::modes::image_tree(images[i])
        }),
    decreases attachments.len(),
{
    reveal(Seq::filter);
    if attachments.len() > 0 {
        lemma_image_parts(attachments.drop_last());
    }
}

/// A turn is started in the thread, with the words of the user.
pub proof fn law_turn_names_thread_and_words(
    thread: ThreadHandle,
    input: UserInput,
    overrides: TurnOverrides,
    roots: Seq<String>,
)
    ensures
        ({
            let params = JsonTree::Object(turn_fields(thread, input, overrides, roots));
            &&& member(params, "threadId"@) == Some(JsonTree::Text(thread.harness_thread_id@))
            &&& member(params, "input"@) matches Some(JsonTree::Array(parts))
            &&& parts.len() > 0
            &&& member(parts[0], "type"@) == Some(JsonTree::Text("text"@))
            &&& member(parts[0], "text"@) == Some(JsonTree::Text(input.text@))
        }),
{
    lemma_turn_members(thread, input, overrides, roots);
    law_input_starts_with_the_words(input);
}

/// What a turn may do is what the user allowed: with `AskFirst` it reads and asks, with
/// `AutoApprove` it works in the workspace without asking, and only with `FullAccess` it may do
/// everything.
pub proof fn law_turn_may_do_what_is_allowed(
    thread: ThreadHandle,
    input: UserInput,
    overrides: TurnOverrides,
    roots: Seq<String>,
)
    ensures
        ({
            let params = JsonTree::Object(turn_fields(thread, input, overrides, roots));
            let asks = member(params, "approvalPolicy"@);
            let may = member(params, "permissions"@);
            &&& overrides.permission_preset == PermissionPreset::AskFirst <==> asks == Some(
                JsonTree::Text("on-request"@),
            )
            &&& overrides.permission_preset != PermissionPreset::AskFirst <==> asks == Some(
                JsonTree::Text("never"@),
            )
            &&& overrides.permission_preset == PermissionPreset::AskFirst <==> may == Some(
                JsonTree::Text(":read-only"@),
            )
            &&& overrides.permission_preset == PermissionPreset::AutoApprove <==> may == Some(
                JsonTree::Text(":workspace"@),
            )
            &&& overrides.permission_preset == PermissionPreset::FullAccess <==> may == Some(
                JsonTree::Text(":danger-full-access"@),
            )
        }),
{
    lemma_turn_members(thread, input, overrides, roots);
    reveal_strlit("on-request");
    assert("on-request"@.len() == 10);
    reveal_strlit("never");
    assert("never"@.len() == 5);
    reveal_strlit(":read-only");
    assert(":read-only"@.len() == 10);
    reveal_strlit(":workspace");
    assert(":workspace"@.len() == 10);
    reveal_strlit(":danger-full-access");
    assert(":danger-full-access"@.len() == 19);
    assert(":read-only"@[1] != ":workspace"@[1]);
}

/// The roots that may be written are named where the turn works in the workspace, all of them and
/// in order, and nowhere else.
pub proof fn law_roots_are_named_for_the_workspace(
    thread: ThreadHandle,
    input: UserInput,
    overrides: TurnOverrides,
    roots: Seq<String>,
)
    ensures
        ({
            let params = JsonTree::Object(turn_fields(thread, input, overrides, roots));
            &&& overrides.permission_preset != PermissionPreset::AutoApprove <==> member(
                params,
                "runtimeWorkspaceRoots"@,
            ) is None
            &&& overrides.permission_preset == PermissionPreset::AutoApprove ==> {
                &&& member(params, "runtimeWorkspaceRoots"@) matches Some(JsonTree::Array(named))
                &&& named.len() == roots.len()
                &&& forall|i: int|
                    0 <= i < roots.len() ==> #[trigger] named[i] == JsonTree::Text(roots[i]@)
            }
        }),
{
    lemma_turn_members(thread, input, overrides, roots);
}

/// A turn that asks for a model names it, its effort where there is one, and how it works: to plan
/// or to build. A turn that asks for none names none of these.
pub proof fn law_turn_names_model_and_mode(
    thread: ThreadHandle,
    input: UserInput,
    overrides: TurnOverrides,
    roots: Seq<String>,
)
    ensures
        ({
            let params = JsonTree::Object(turn_fields(thread, input, overrides, roots));
            &&& overrides.model is None ==> {
                &&& member(params, "model"@) is None
                &&& member(params, "effort"@) is None
                &&& member(params, "collaborationMode"@) is None
            }
            &&& overrides.model matches Some(model) ==> {
                &&& member(params, "model"@) == Some(JsonTree::Text(model.model@))
                &&& model.reasoning_effort is None ==> member(params, "effort"@) is None
                &&& model.reasoning_effort matches Some(effort) ==> member(params, "effort"@)
                    == Some(JsonTree::Text(effort@))
            }
        }),
        ({
            let params = JsonTree::Object(turn_fields(thread, input, overrides, roots));
            overrides.model matches Some(model) ==> {
                &&& member(params, "collaborationMode"@) matches Some(how)
                &&& overrides.mode == Mode::Plan <==> member(how, "mode"@) == Some(
                    JsonTree::Text("plan"@),
                )
                &&& overrides.mode == Mode::Build <==> member(how, "mode"@) == Some(
                    JsonTree::Text("default"@),
                )
                &&& member(how, "settings"@) matches Some(settings)
                &&& member(settings, "model"@) == Some(JsonTree::Text(model.model@))
                &&& member(settings, "developer_instructions"@) == Some(JsonTree::Null)
                &&& model.reasoning_effort is None ==> member(settings, "reasoning_effort"@)
                    == Some(JsonTree::Null)
                &&& model.reasoning_effort matches Some(effort) ==> member(
                    settings,
                    "reasoning_effort"@,
                ) == Some(JsonTree::Text(effort@))
            }
        }),
{
    lemma_turn_members(thread, input, overrides, roots);
    match overrides.model {
        Some(model) => {
            reveal_strlit("plan");
            assert("plan"@.len() == 4);
            reveal_strlit("default");
            assert("default"@.len() == 7);
            reveal_strlit("mode");
            assert("mode"@.len() == 4);
            reveal_strlit("settings");
            assert("settings"@.len() == 8);
            reveal_strlit("developer_instructions");
            assert("developer_instructions"@.len() == 22);
            reveal_strlit("model");
            assert("model"@.len() == 5);
            reveal_strlit("reasoning_effort");
            assert("reasoning_effort"@.len() == 16);
            let how = collaboration_tree(overrides.mode, model)->Object_0;
            law_member_is_the_first_entry(how, "mode"@, 0);
            law_member_is_the_first_entry(how, "settings"@, 1);
            let settings = how[1].1->Object_0;
            law_member_is_the_first_entry(settings, "developer_instructions"@, 0);
            law_member_is_the_first_entry(settings, "model"@, 1);
            law_member_is_the_first_entry(settings, "reasoning_effort"@, 2);
        },
        None => {},
    }
}

proof fn lemma_turn_members(
    thread: ThreadHandle,
    input: UserInput,
    overrides: TurnOverrides,
    roots: Seq<String>,
)
    ensures
        ({
            let params = JsonTree::Object(turn_fields(thread, input, overrides, roots));
            &&& member(params, "threadId"@) == Some(JsonTree::Text(thread.harness_thread_id@))
            &&& member(params, "input"@) == Some(input_tree(input))
            &&& member(params, "approvalPolicy"@) == Some(
                JsonTree::Text(preset_approval(overrides.permission_preset)),
            )
            &&& member(params, "permissions"@) == Some(
                JsonTree::Text(preset_permissions(overrides.permission_preset)),
            )
            &&& member(params, "runtimeWorkspaceRoots"@) == (if overrides.permission_preset
                == PermissionPreset::AutoApprove {
                Some(text_list(roots))
            } else {
                None
            })
            &&& member(params, "model"@) == (match overrides.model {
                Some(model) => Some(JsonTree::Text(model.model@)),
                None => None,
            })
            &&& member(params, "effort"@) == (match overrides.model {
                Some(ModelRef { reasoning_effort: Some(effort), .. }) => Some(
                    JsonTree::Text(effort@),
                ),
                _ => None,
            })
            &&& member(params, "collaborationMode"@) == (match overrides.model {
                Some(model) => Some(collaboration_tree(overrides.mode, model)),
                None => None,
            })
        }),
{
    reveal_strlit("approvalPolicy");
    assert("approvalPolicy"@.len() == 14);
    reveal_strlit("collaborationMode");
    assert("collaborationMode"@.len() == 17);
    reveal_strlit("effort");
    assert("effort"@.len() == 6);
    reveal_strlit("input");
    assert("input"@.len() == 5);
    reveal_strlit("model");
    assert("model"@.len() == 5);
    reveal_strlit("permissions");
    assert("permissions"@.len() == 11);
    reveal_strlit("runtimeWorkspaceRoots");
    assert("runtimeWorkspaceRoots"@.len() == 21);
    reveal_strlit("threadId");
    assert("threadId"@.len() == 8);
    assert("input"@[0] != "model"@[0]);
    let policy = JsonTree::Text(preset_approval(overrides.permission_preset));
    let none = Seq::<(Seq<char>, JsonTree)>::empty();
    lemma_pushed_member(none, "approvalPolicy"@, policy);
    let a = none.push(("approvalPolicy"@, policy));
    assert(a =~= seq![("approvalPolicy"@, policy)]);
    let b = match overrides.model {
        Some(model) => {
            let how = collaboration_tree(overrides.mode, model);
            lemma_pushed_member(a, "collaborationMode"@, how);
            a.push(("collaborationMode"@, how))
        },
        None => a,
    };
    let c = match overrides.model {
        Some(ModelRef { reasoning_effort: Some(effort), .. }) => {
            lemma_pushed_member(b, "effort"@, JsonTree::Text(effort@));
            b.push(("effort"@, JsonTree::Text(effort@)))
        },
        _ => b,
    };
    lemma_pushed_member(c, "input"@, input_tree(input));
    let d = c.push(("input"@, input_tree(input)));
    let e = match overrides.model {
        Some(model) => {
            lemma_pushed_member(d, "model"@, JsonTree::Text(model.model@));
            d.push(("model"@, JsonTree::Text(model.model@)))
        },
        None => d,
    };
    let may = JsonTree::Text(preset_permissions(overrides.permission_preset));
    lemma_pushed_member(e, "permissions"@, may);
    let f = e.push(("permissions"@, may));
    lemma_pushed_member(f, "runtimeWorkspaceRoots"@, text_list(roots));
    let g = if overrides.permission_preset == PermissionPreset::AutoApprove {
        f.push(("runtimeWorkspaceRoots"@, text_list(roots)))
    } else {
        f
    };
    lemma_pushed_member(g, "threadId"@, JsonTree::Text(thread.harness_thread_id@));
    let all = g.push(("threadId"@, JsonTree::Text(thread.harness_thread_id@)));
    assert(all == turn_fields(thread, input, overrides, roots));
}

/// The words for the mode, the policy, the effort and the preset that the app-server is told, each
/// as it knows them.
pub proof fn law_settings_keep_their_words()
    ensures
        forall|mode: Mode| #[trigger]
            mode_chars(mode) == (if mode == Mode::Plan {
                "plan"@
            } else {
                "default"@
            }),
        forall|policy: ApprovalPolicy| #[trigger]
            policy_chars(policy) == "on-request"@ <==> policy == ApprovalPolicy::Ask,
        forall|policy: ApprovalPolicy| #[trigger]
            policy_chars(policy) == "never"@ <==> policy != ApprovalPolicy::Ask,
        effort_chars(Effort::Minimal) == "minimal"@,
        effort_chars(Effort::Low) == "low"@,
        effort_chars(Effort::Medium) == "medium"@,
        effort_chars(Effort::High) == "high"@,
        effort_chars(Effort::XHigh) == "xhigh"@,
        forall|a: Effort, b: Effort|
            a != b ==> #[trigger] effort_chars(a) != #[trigger] effort_chars(b),
{
    reveal_strlit("on-request");
    assert("on-request"@.len() == 10);
    reveal_strlit("never");
    assert("never"@.len() == 5);
    reveal_strlit("minimal");
    assert("minimal"@.len() == 7);
    reveal_strlit("low");
    assert("low"@.len() == 3);
    reveal_strlit("medium");
    assert("medium"@.len() == 6);
    reveal_strlit("high");
    assert("high"@.len() == 4);
    reveal_strlit("xhigh");
    assert("xhigh"@.len() == 5);
}

} // verus!
