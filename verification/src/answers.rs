//! Answers of the app-server, from what the bindings read to the values of this library.

use vstd::prelude::*;

use codex_codes::protocol::{
    InitializeResponse, ListMcpServerStatusResponse, McpServerOauthLoginResponse, ModelListResponse,
    ThreadResumeResponse, ThreadStartResponse, TurnStartResponse,
};
use serde_json::{from_value, to_value};

use crate::catalog::{
    McpAuthStatus, McpResource, McpResourceTemplate, McpTool, NativeModel, NativeServerInfo,
    NativeServerStatus,
};
use crate::error::{outcome, ErrorView, HarnessError};
use crate::items::opt_tree;
use crate::json::{
    entries_tree, json_of, lemma_entries_tree, opt_chars, value_of, Json, JsonTree,
};
use crate::opening::OpenResponse;
use crate::reading::{
    entries_of, flag_at, flag_in, list_at, list_in, opt_int, opt_number_at, opt_number_in,
    opt_text_at, opt_text_in, some_at, some_in, text_at, text_in, value_at, value_in,
};
use crate::text::same_text;
use crate::transport::told_view;

verus! {

/// Whether this is what the app-server told of a thread that it opened. How hard the model of a new
/// thread reasons is what was asked for, whatever is told.
pub open spec fn opening_reads(resumed: bool, tree: JsonTree, read: OpenResponse) -> bool {
    let thread = value_at(tree, "thread"@);
    &&& read.harness_thread_id@ == text_at(thread, "id"@)
    &&& read.model@ == text_at(tree, "model"@)
    &&& read.model_provider@ == text_at(tree, "modelProvider"@)
    &&& opt_chars(read.reasoning_effort) == (if resumed {
        opt_text_at(tree, "reasoningEffort"@)
    } else {
        None
    })
    &&& opt_chars(read.agent_nickname) == opt_text_at(thread, "agentNickname"@)
    &&& opt_chars(read.parent_thread_id) == opt_text_at(thread, "parentThreadId"@)
}

/// What the app-server told of a thread that it opened, to go on with it or as a new one.
pub fn read_opening(resumed: bool, came: &Json) -> (read: OpenResponse)
    ensures
        opening_reads(resumed, came@, read),
{
    let thread = value_in(came, "thread");
    OpenResponse {
        harness_thread_id: text_in(&thread, "id"),
        model: text_in(came, "model"),
        model_provider: text_in(came, "modelProvider"),
        reasoning_effort: if resumed {
            opt_text_in(came, "reasoningEffort")
        } else {
            None
        },
        agent_nickname: opt_text_in(&thread, "agentNickname"),
        parent_thread_id: opt_text_in(&thread, "parentThreadId"),
    }
}

/// What `serde_json::from_value` reads from an answer as a
/// `codex_codes::protocol::ThreadResumeResponse`, as `serde_json::to_value` writes it, or why it
/// reads nothing.
pub uninterp spec fn resumed_answer(answer: JsonTree) -> Result<JsonTree, Seq<char>>;

/// `serde_json::from_value` reads an answer as a `codex_codes::protocol::ThreadResumeResponse`, the
/// answer to `thread/resume`, and `serde_json::to_value` writes what was read. Which answers fit is
/// not stated.
#[verifier::external_body]
fn bound_resumed(answer: &Json) -> (came: Result<Json, String>)
    ensures
        told_view(came) == resumed_answer(answer@),
{
    let read = from_value::<ThreadResumeResponse>(value_of(answer));
    let came = read.and_then(|read| to_value(read));
    came.map(json_of).map_err(|error| error.to_string())
}

/// What `serde_json::from_value` reads from an answer as a
/// `codex_codes::protocol::ThreadStartResponse`, as `serde_json::to_value` writes it, or why it
/// reads nothing.
pub uninterp spec fn started_answer(answer: JsonTree) -> Result<JsonTree, Seq<char>>;

/// `serde_json::from_value` reads an answer as a `codex_codes::protocol::ThreadStartResponse`, the
/// answer to `thread/start`, and `serde_json::to_value` writes what was read. Which answers fit is
/// not stated.
#[verifier::external_body]
fn bound_started(answer: &Json) -> (came: Result<Json, String>)
    ensures
        told_view(came) == started_answer(answer@),
{
    let read = from_value::<ThreadStartResponse>(value_of(answer));
    let came = read.and_then(|read| to_value(read));
    came.map(json_of).map_err(|error| error.to_string())
}

/// What the app-server told of a thread that it opened, from its answer.
pub fn opening_answer(resumed: bool, answer: &Json) -> (read: Result<OpenResponse, HarnessError>)
    ensures
        match (if resumed {
            resumed_answer(answer@)
        } else {
            started_answer(answer@)
        }) {
            Ok(tree) => read matches Ok(read) && opening_reads(resumed, tree, read),
            Err(error) => outcome(read) == Err::<OpenResponse, ErrorView>(
                ErrorView::Protocol(error),
            ),
        },
{
    let came = if resumed {
        bound_resumed(answer)
    } else {
        bound_started(answer)
    };
    match came {
        Ok(came) => Ok(read_opening(resumed, &came)),
        Err(error) => Err(HarnessError::Protocol(error)),
    }
}

/// What `serde_json::from_value` reads from an answer as a
/// `codex_codes::protocol::TurnStartResponse`, as `serde_json::to_value` writes it, or why it reads
/// nothing.
pub uninterp spec fn turn_start_answer(answer: JsonTree) -> Result<JsonTree, Seq<char>>;

/// `serde_json::from_value` reads an answer as a `codex_codes::protocol::TurnStartResponse`, the
/// answer to `turn/start`, and `serde_json::to_value` writes what was read. Which answers fit is
/// not stated.
#[verifier::external_body]
fn bound_turn_start(answer: &Json) -> (came: Result<Json, String>)
    ensures
        told_view(came) == turn_start_answer(answer@),
{
    let read = from_value::<TurnStartResponse>(value_of(answer));
    let came = read.and_then(|read| to_value(read));
    came.map(json_of).map_err(|error| error.to_string())
}

/// The name of the turn that the app-server started, from its answer.
pub fn turn_start_name(answer: &Json) -> (name: Result<String, HarnessError>)
    ensures
        match turn_start_answer(answer@) {
            Ok(tree) => name matches Ok(name) && name@ == text_at(value_at(tree, "turn"@), "id"@),
            Err(error) => outcome(name) == Err::<String, ErrorView>(ErrorView::Protocol(error)),
        },
{
    match bound_turn_start(answer) {
        Ok(came) => Ok(text_in(&value_in(&came, "turn"), "id")),
        Err(error) => Err(HarnessError::Protocol(error)),
    }
}

/// What `serde_json::from_value` reads from an answer as a
/// `codex_codes::protocol::McpServerOauthLoginResponse`, as `serde_json::to_value` writes it, or
/// why it reads nothing.
pub uninterp spec fn login_answer(answer: JsonTree) -> Result<JsonTree, Seq<char>>;

/// `serde_json::from_value` reads an answer as a
/// `codex_codes::protocol::McpServerOauthLoginResponse`, the answer to `mcpServer/oauth/login`, and
/// `serde_json::to_value` writes what was read. Which answers fit is not stated.
#[verifier::external_body]
fn bound_login(answer: &Json) -> (came: Result<Json, String>)
    ensures
        told_view(came) == login_answer(answer@),
{
    let read = from_value::<McpServerOauthLoginResponse>(value_of(answer));
    let came = read.and_then(|read| to_value(read));
    came.map(json_of).map_err(|error| error.to_string())
}

/// Where to log in to an MCP server, from the answer of the app-server.
pub fn login_url(answer: &Json) -> (url: Result<String, HarnessError>)
    ensures
        match login_answer(answer@) {
            Ok(tree) => url matches Ok(url) && url@ == text_at(tree, "authorizationUrl"@),
            Err(error) => outcome(url) == Err::<String, ErrorView>(ErrorView::Protocol(error)),
        },
{
    match bound_login(answer) {
        Ok(came) => Ok(text_in(&came, "authorizationUrl")),
        Err(error) => Err(HarnessError::Protocol(error)),
    }
}

/// What `serde_json::from_value` reads from an answer as a
/// `codex_codes::protocol::InitializeResponse`, as `serde_json::to_value` writes it, or why it
/// reads nothing.
pub uninterp spec fn initialize_answer(answer: JsonTree) -> Result<JsonTree, Seq<char>>;

/// `serde_json::from_value` reads an answer as a `codex_codes::protocol::InitializeResponse`, the
/// answer to `initialize`, and `serde_json::to_value` writes what was read. Which answers fit is
/// not stated.
#[verifier::external_body]
fn bound_initialize(answer: &Json) -> (came: Result<Json, String>)
    ensures
        told_view(came) == initialize_answer(answer@),
{
    let read = from_value::<InitializeResponse>(value_of(answer));
    let came = read.and_then(|read| to_value(read));
    came.map(json_of).map_err(|error| error.to_string())
}

/// What the app-server calls itself, from its first answer. An app-server whose first answer cannot
/// be read did not start.
pub fn user_agent(answer: &Json) -> (agent: Result<String, HarnessError>)
    ensures
        match initialize_answer(answer@) {
            Ok(tree) => agent matches Ok(agent) && agent@ == text_at(tree, "userAgent"@),
            Err(error) => outcome(agent) == Err::<String, ErrorView>(ErrorView::Spawn(error)),
        },
{
    match bound_initialize(answer) {
        Ok(came) => Ok(text_in(&came, "userAgent")),
        Err(error) => Err(HarnessError::Spawn(error)),
    }
}

/// Whether this is an effort that a model can be asked for.
pub open spec fn effort_reads(tree: JsonTree, read: String) -> bool {
    read@ == text_at(tree, "reasoningEffort"@)
}

fn effort_from(json: &Json) -> (read: String)
    ensures
        effort_reads(json@, read),
{
    text_in(json, "reasoningEffort")
}

/// Whether these are the efforts of a list.
pub open spec fn efforts_read(list: Seq<JsonTree>, read: Seq<String>) -> bool {
    &&& read.len() == list.len()
    &&& forall|i: int| 0 <= i < list.len() ==> effort_reads(list[i], #[trigger] read[i])
}

fn efforts_in(json: &Json, key: &str) -> (read: Vec<String>)
    ensures
        efforts_read(list_at(json@, key@), read@),
{
    match list_in(json, key) {
        Some(items) => {
            let mut read: Vec<String> = Vec::new();
            let mut i: usize = 0;
            while i < items.len()
                invariant
                    i <= items@.len(),
                    read@.len() == i,
                    forall|j: int| 0 <= j < i ==> effort_reads(items@[j]@, #[trigger] read@[j]),
                decreases items@.len() - i,
            {
                read.push(effort_from(&items[i]));
                i = i + 1;
            }
            read
        },
        None => Vec::new(),
    }
}

/// Whether this is a model of the catalogue.
pub open spec fn model_reads(tree: JsonTree, read: NativeModel) -> bool {
    &&& read.id@ == text_at(tree, "id"@)
    &&& read.model@ == text_at(tree, "model"@)
    &&& read.display_name@ == text_at(tree, "displayName"@)
    &&& read.hidden == flag_at(tree, "hidden"@)
    &&& read.is_default == flag_at(tree, "isDefault"@)
    &&& read.default_reasoning_effort@ == text_at(tree, "defaultReasoningEffort"@)
    &&& efforts_read(
        list_at(tree, "supportedReasoningEfforts"@),
        read.supported_reasoning_efforts@,
    )
}

fn model_from(json: &Json) -> (read: NativeModel)
    ensures
        model_reads(json@, read),
{
    NativeModel {
        id: text_in(json, "id"),
        model: text_in(json, "model"),
        display_name: text_in(json, "displayName"),
        hidden: flag_in(json, "hidden"),
        is_default: flag_in(json, "isDefault"),
        default_reasoning_effort: text_in(json, "defaultReasoningEffort"),
        supported_reasoning_efforts: efforts_in(json, "supportedReasoningEfforts"),
    }
}

/// Whether these are the models of a list.
pub open spec fn models_read(list: Seq<JsonTree>, read: Seq<NativeModel>) -> bool {
    &&& read.len() == list.len()
    &&& forall|i: int| 0 <= i < list.len() ==> model_reads(list[i], #[trigger] read[i])
}

fn models_in(json: &Json, key: &str) -> (read: Vec<NativeModel>)
    ensures
        models_read(list_at(json@, key@), read@),
{
    match list_in(json, key) {
        Some(items) => {
            let mut read: Vec<NativeModel> = Vec::new();
            let mut i: usize = 0;
            while i < items.len()
                invariant
                    i <= items@.len(),
                    read@.len() == i,
                    forall|j: int| 0 <= j < i ==> model_reads(items@[j]@, #[trigger] read@[j]),
                decreases items@.len() - i,
            {
                read.push(model_from(&items[i]));
                i = i + 1;
            }
            read
        },
        None => Vec::new(),
    }
}

/// A page of the catalogue of models.
#[derive(Debug)]
pub struct ModelPage {
    /// The models.
    pub models: Vec<NativeModel>,
    /// Where the next page is, where there is one.
    pub next_cursor: Option<String>,
}

/// Whether this is a page of the catalogue of models.
pub open spec fn model_page_reads(tree: JsonTree, page: ModelPage) -> bool {
    &&& models_read(list_at(tree, "data"@), page.models@)
    &&& opt_chars(page.next_cursor) == opt_text_at(tree, "nextCursor"@)
}

/// A page of the catalogue of models.
pub fn read_model_page(came: &Json) -> (page: ModelPage)
    ensures
        model_page_reads(came@, page),
{
    ModelPage { models: models_in(came, "data"), next_cursor: opt_text_in(came, "nextCursor") }
}

/// What `serde_json::from_value` reads from an answer as a
/// `codex_codes::protocol::ModelListResponse`, as `serde_json::to_value` writes it, or why it reads
/// nothing.
pub uninterp spec fn models_answer(answer: JsonTree) -> Result<JsonTree, Seq<char>>;

/// `serde_json::from_value` reads an answer as a `codex_codes::protocol::ModelListResponse`, the
/// answer to `model/list`, and `serde_json::to_value` writes what was read. Which answers fit is
/// not stated.
#[verifier::external_body]
fn bound_models(answer: &Json) -> (came: Result<Json, String>)
    ensures
        told_view(came) == models_answer(answer@),
{
    let read = from_value::<ModelListResponse>(value_of(answer));
    let came = read.and_then(|read| to_value(read));
    came.map(json_of).map_err(|error| error.to_string())
}

/// A page of the catalogue of models, from the answer of the app-server.
pub fn model_page(answer: &Json) -> (page: Result<ModelPage, HarnessError>)
    ensures
        match models_answer(answer@) {
            Ok(tree) => page matches Ok(page) && model_page_reads(tree, page),
            Err(error) => outcome(page) == Err::<ModelPage, ErrorView>(ErrorView::Protocol(error)),
        },
{
    match bound_models(answer) {
        Ok(came) => Ok(read_model_page(&came)),
        Err(error) => Err(HarnessError::Protocol(error)),
    }
}

/// How one is known to an MCP server, by its word.
pub open spec fn auth_status(word: Seq<char>) -> McpAuthStatus {
    if word == "unsupported"@ {
        McpAuthStatus::Unsupported
    } else if word == "notLoggedIn"@ {
        McpAuthStatus::NotLoggedIn
    } else if word == "bearerToken"@ {
        McpAuthStatus::BearerToken
    } else if word == "oAuth"@ {
        McpAuthStatus::OAuth
    } else {
        McpAuthStatus::Unknown
    }
}

fn auth_status_in(json: &Json, key: &str) -> (status: McpAuthStatus)
    ensures
        status == auth_status(text_at(json@, key@)),
{
    let word = text_in(json, key);
    if same_text(word.as_str(), "unsupported") {
        McpAuthStatus::Unsupported
    } else if same_text(word.as_str(), "notLoggedIn") {
        McpAuthStatus::NotLoggedIn
    } else if same_text(word.as_str(), "bearerToken") {
        McpAuthStatus::BearerToken
    } else if same_text(word.as_str(), "oAuth") {
        McpAuthStatus::OAuth
    } else {
        McpAuthStatus::Unknown
    }
}

/// Whether this is what an MCP server tells of itself.
pub open spec fn info_reads(tree: JsonTree, read: NativeServerInfo) -> bool {
    &&& read.name@ == text_at(tree, "name"@)
    &&& opt_chars(read.title) == opt_text_at(tree, "title"@)
    &&& opt_chars(read.description) == opt_text_at(tree, "description"@)
    &&& read.version@ == text_at(tree, "version"@)
    &&& opt_chars(read.website_url) == opt_text_at(tree, "websiteUrl"@)
}

fn info_from(json: &Json) -> (read: NativeServerInfo)
    ensures
        info_reads(json@, read),
{
    NativeServerInfo {
        name: text_in(json, "name"),
        title: opt_text_in(json, "title"),
        description: opt_text_in(json, "description"),
        version: text_in(json, "version"),
        website_url: opt_text_in(json, "websiteUrl"),
    }
}

/// Whether this is a tool of an MCP server.
pub open spec fn tool_reads(tree: JsonTree, read: McpTool) -> bool {
    &&& read.name@ == text_at(tree, "name"@)
    &&& opt_chars(read.title) == opt_text_at(tree, "title"@)
    &&& opt_chars(read.description) == opt_text_at(tree, "description"@)
    &&& read.input_schema@ == value_at(tree, "inputSchema"@)
    &&& opt_tree(read.output_schema) == some_at(tree, "outputSchema"@)
}

fn tool_from(json: &Json) -> (read: McpTool)
    ensures
        tool_reads(json@, read),
{
    McpTool {
        name: text_in(json, "name"),
        title: opt_text_in(json, "title"),
        description: opt_text_in(json, "description"),
        input_schema: value_in(json, "inputSchema"),
        output_schema: some_in(json, "outputSchema"),
    }
}

/// Whether these are tools of an MCP server, under their names.
pub open spec fn tools_read(
    entries: Seq<(Seq<char>, JsonTree)>,
    read: Seq<(String, McpTool)>,
) -> bool {
    &&& read.len() == entries.len()
    &&& forall|i: int|
        0 <= i < read.len() ==> (#[trigger] read[i]).0@ == entries[i].0 && tool_reads(
            entries[i].1,
            read[i].1,
        )
}

fn tools_from(json: &Json) -> (read: Vec<(String, McpTool)>)
    ensures
        tools_read(entries_of(json@), read@),
{
    match json {
        Json::Object(entries) => {
            let mut read: Vec<(String, McpTool)> = Vec::new();
            let mut i: usize = 0;
            while i < entries.len()
                invariant
                    i <= entries@.len(),
                    read@.len() == i,
                    forall|j: int|
                        0 <= j < i ==> (#[trigger] read@[j]).0@ == entries@[j].0@ && tool_reads(
                            entries@[j].1@,
                            read@[j].1,
                        ),
                decreases entries@.len() - i,
            {
                read.push((entries[i].0.clone(), tool_from(&entries[i].1)));
                i = i + 1;
            }
            proof {
                lemma_entries_tree(entries@);
                assert(entries_of(json@) == entries_tree(entries@));
            }
            read
        },
        _ => Vec::new(),
    }
}

/// Whether this is a resource of an MCP server.
pub open spec fn resource_reads(tree: JsonTree, read: McpResource) -> bool {
    &&& read.name@ == text_at(tree, "name"@)
    &&& read.uri@ == text_at(tree, "uri"@)
    &&& opt_chars(read.title) == opt_text_at(tree, "title"@)
    &&& opt_chars(read.description) == opt_text_at(tree, "description"@)
    &&& opt_chars(read.mime_type) == opt_text_at(tree, "mimeType"@)
    &&& opt_int(read.size) == opt_number_at(tree, "size"@)
}

fn resource_from(json: &Json) -> (read: McpResource)
    ensures
        resource_reads(json@, read),
{
    McpResource {
        name: text_in(json, "name"),
        uri: text_in(json, "uri"),
        title: opt_text_in(json, "title"),
        description: opt_text_in(json, "description"),
        mime_type: opt_text_in(json, "mimeType"),
        size: opt_number_in(json, "size"),
    }
}

/// Whether these are the resources of a list.
pub open spec fn resources_read(list: Seq<JsonTree>, read: Seq<McpResource>) -> bool {
    &&& read.len() == list.len()
    &&& forall|i: int| 0 <= i < list.len() ==> resource_reads(list[i], #[trigger] read[i])
}

fn resources_in(json: &Json, key: &str) -> (read: Vec<McpResource>)
    ensures
        resources_read(list_at(json@, key@), read@),
{
    match list_in(json, key) {
        Some(items) => {
            let mut read: Vec<McpResource> = Vec::new();
            let mut i: usize = 0;
            while i < items.len()
                invariant
                    i <= items@.len(),
                    read@.len() == i,
                    forall|j: int| 0 <= j < i ==> resource_reads(items@[j]@, #[trigger] read@[j]),
                decreases items@.len() - i,
            {
                read.push(resource_from(&items[i]));
                i = i + 1;
            }
            read
        },
        None => Vec::new(),
    }
}

/// Whether these are resources of an MCP server under one pattern.
pub open spec fn template_reads(tree: JsonTree, read: McpResourceTemplate) -> bool {
    &&& read.name@ == text_at(tree, "name"@)
    &&& read.uri_template@ == text_at(tree, "uriTemplate"@)
    &&& opt_chars(read.title) == opt_text_at(tree, "title"@)
    &&& opt_chars(read.description) == opt_text_at(tree, "description"@)
    &&& opt_chars(read.mime_type) == opt_text_at(tree, "mimeType"@)
}

fn template_from(json: &Json) -> (read: McpResourceTemplate)
    ensures
        template_reads(json@, read),
{
    McpResourceTemplate {
        name: text_in(json, "name"),
        uri_template: text_in(json, "uriTemplate"),
        title: opt_text_in(json, "title"),
        description: opt_text_in(json, "description"),
        mime_type: opt_text_in(json, "mimeType"),
    }
}

/// Whether these are the patterns of a list.
pub open spec fn templates_read(list: Seq<JsonTree>, read: Seq<McpResourceTemplate>) -> bool {
    &&& read.len() == list.len()
    &&& forall|i: int| 0 <= i < list.len() ==> template_reads(list[i], #[trigger] read[i])
}

fn templates_in(json: &Json, key: &str) -> (read: Vec<McpResourceTemplate>)
    ensures
        templates_read(list_at(json@, key@), read@),
{
    match list_in(json, key) {
        Some(items) => {
            let mut read: Vec<McpResourceTemplate> = Vec::new();
            let mut i: usize = 0;
            while i < items.len()
                invariant
                    i <= items@.len(),
                    read@.len() == i,
                    forall|j: int| 0 <= j < i ==> template_reads(items@[j]@, #[trigger] read@[j]),
                decreases items@.len() - i,
            {
                read.push(template_from(&items[i]));
                i = i + 1;
            }
            read
        },
        None => Vec::new(),
    }
}

/// Whether this is an MCP server.
pub open spec fn server_reads(tree: JsonTree, read: NativeServerStatus) -> bool {
    &&& read.name@ == text_at(tree, "name"@)
    &&& read.auth_status == auth_status(text_at(tree, "authStatus"@))
    &&& match some_at(tree, "serverInfo"@) {
        Some(info) => read.server_info matches Some(told) && info_reads(info, told),
        None => read.server_info is None,
    }
    &&& tools_read(entries_of(value_at(tree, "tools"@)), read.tools@)
    &&& resources_read(list_at(tree, "resources"@), read.resources@)
    &&& templates_read(list_at(tree, "resourceTemplates"@), read.resource_templates@)
}

fn server_from(json: &Json) -> (read: NativeServerStatus)
    ensures
        server_reads(json@, read),
{
    let server_info = match some_in(json, "serverInfo") {
        Some(info) => Some(info_from(&info)),
        None => None,
    };
    NativeServerStatus {
        name: text_in(json, "name"),
        auth_status: auth_status_in(json, "authStatus"),
        server_info,
        tools: tools_from(&value_in(json, "tools")),
        resources: resources_in(json, "resources"),
        resource_templates: templates_in(json, "resourceTemplates"),
    }
}

/// Whether these are the MCP servers of a list.
pub open spec fn servers_read(list: Seq<JsonTree>, read: Seq<NativeServerStatus>) -> bool {
    &&& read.len() == list.len()
    &&& forall|i: int| 0 <= i < list.len() ==> server_reads(list[i], #[trigger] read[i])
}

fn servers_in(json: &Json, key: &str) -> (read: Vec<NativeServerStatus>)
    ensures
        servers_read(list_at(json@, key@), read@),
{
    match list_in(json, key) {
        Some(items) => {
            let mut read: Vec<NativeServerStatus> = Vec::new();
            let mut i: usize = 0;
            while i < items.len()
                invariant
                    i <= items@.len(),
                    read@.len() == i,
                    forall|j: int| 0 <= j < i ==> server_reads(items@[j]@, #[trigger] read@[j]),
                decreases items@.len() - i,
            {
                read.push(server_from(&items[i]));
                i = i + 1;
            }
            read
        },
        None => Vec::new(),
    }
}

/// A page of the list of MCP servers.
#[derive(Debug)]
pub struct ServerPage {
    /// The servers.
    pub servers: Vec<NativeServerStatus>,
    /// Where the next page is, where there is one.
    pub next_cursor: Option<String>,
}

/// Whether this is a page of the list of MCP servers.
pub open spec fn server_page_reads(tree: JsonTree, page: ServerPage) -> bool {
    &&& servers_read(list_at(tree, "data"@), page.servers@)
    &&& opt_chars(page.next_cursor) == opt_text_at(tree, "nextCursor"@)
}

/// A page of the list of MCP servers.
pub fn read_server_page(came: &Json) -> (page: ServerPage)
    ensures
        server_page_reads(came@, page),
{
    ServerPage { servers: servers_in(came, "data"), next_cursor: opt_text_in(came, "nextCursor") }
}

/// What `serde_json::from_value` reads from an answer as a
/// `codex_codes::protocol::ListMcpServerStatusResponse`, as `serde_json::to_value` writes it, or
/// why it reads nothing.
pub uninterp spec fn servers_answer(answer: JsonTree) -> Result<JsonTree, Seq<char>>;

/// `serde_json::from_value` reads an answer as a
/// `codex_codes::protocol::ListMcpServerStatusResponse`, the answer to `mcpServerStatus/list`, and
/// `serde_json::to_value` writes what was read. Which answers fit is not stated.
#[verifier::external_body]
fn bound_servers(answer: &Json) -> (came: Result<Json, String>)
    ensures
        told_view(came) == servers_answer(answer@),
{
    let read = from_value::<ListMcpServerStatusResponse>(value_of(answer));
    let came = read.and_then(|read| to_value(read));
    came.map(json_of).map_err(|error| error.to_string())
}

/// A page of the list of MCP servers, from the answer of the app-server.
pub fn server_page(answer: &Json) -> (page: Result<ServerPage, HarnessError>)
    ensures
        match servers_answer(answer@) {
            Ok(tree) => page matches Ok(page) && server_page_reads(tree, page),
            Err(error) => outcome(page) == Err::<ServerPage, ErrorView>(ErrorView::Protocol(error)),
        },
{
    match bound_servers(answer) {
        Ok(came) => Ok(read_server_page(&came)),
        Err(error) => Err(HarnessError::Protocol(error)),
    }
}

} // verus!
