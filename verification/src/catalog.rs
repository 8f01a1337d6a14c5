//! Providers, models and MCP servers, as the app-server lists them.

use vstd::prelude::*;

use crate::handle::copy_text;
use crate::json::Json;
use crate::requests::{models_call, models_request, servers_call, servers_request, Call};
use crate::text::{is_blank, non_empty, same_text};

verus! {

/// How long a command that prints a token may take, in milliseconds, where nothing else is said.
pub const DEFAULT_PROVIDER_AUTH_TIMEOUT_MS: u64 = 5_000;

/// A command that prints a token, as the configuration has it.
#[derive(Debug)]
pub struct CodexProviderAuth {
    /// The command.
    pub command: Option<String>,
    /// What it is given.
    pub args: Vec<String>,
    /// Where it runs.
    pub cwd: Option<String>,
    /// How long it may take, in milliseconds.
    pub timeout_ms: Option<u64>,
}

/// A provider of models, as the configuration has it.
#[derive(Debug)]
pub struct CodexModelProvider {
    /// What it is called.
    pub name: Option<String>,
    /// Where it is.
    pub base_url: Option<String>,
    /// The environment variable that holds its key.
    pub env_key: Option<String>,
    /// The command that prints its token.
    pub auth: Option<CodexProviderAuth>,
}

/// How a provider knows who asks.
#[derive(Debug)]
#[allow(inconsistent_fields)]
pub enum ProviderAuth {
    /// By a token that a command prints.
    Command {
        /// The command.
        command: String,
        /// What it is given.
        args: Vec<String>,
        /// Where it runs.
        cwd: Option<String>,
        /// How long it may take, in milliseconds.
        timeout_ms: u64,
    },
    /// By a key in an environment variable.
    Env(String),
}

/// A provider of models.
#[derive(Debug)]
pub struct HarnessProvider {
    /// The name by which it is asked for.
    pub id: String,
    /// What it is called.
    pub name: Option<String>,
    /// Where it is.
    pub base_url: Option<String>,
    /// How it knows who asks.
    pub auth: Option<ProviderAuth>,
}

/// A text that is dropped where it is blank.
pub open spec fn kept(text: Option<String>) -> Option<String> {
    match text {
        Some(t) => if is_blank(t@) {
            None
        } else {
            Some(t)
        },
        None => None,
    }
}

/// How long a command may take: what is said, unless that is nothing.
pub open spec fn timeout_of(timeout_ms: Option<u64>) -> u64 {
    match timeout_ms {
        Some(ms) => if ms > 0 {
            ms
        } else {
            DEFAULT_PROVIDER_AUTH_TIMEOUT_MS
        },
        None => DEFAULT_PROVIDER_AUTH_TIMEOUT_MS,
    }
}

/// How a provider knows who asks: by the command, where there is one that is not blank, else by the
/// environment variable, where there is one that is not blank.
pub open spec fn auth_of(provider: CodexModelProvider) -> Option<ProviderAuth> {
    match provider.auth {
        Some(CodexProviderAuth { command: Some(command), args, cwd, timeout_ms }) if !is_blank(
            command@,
        ) => Some(
            ProviderAuth::Command { command, args, cwd, timeout_ms: timeout_of(timeout_ms) },
        ),
        _ => match kept(provider.env_key) {
            Some(variable) => Some(ProviderAuth::Env(variable)),
            None => None,
        },
    }
}

impl CodexModelProvider {
    /// How the provider knows who asks.
    pub fn auth(self) -> (auth: Option<ProviderAuth>)
        ensures
            auth == auth_of(self),
    {
        match self.auth {
            Some(auth) => match non_empty(auth.command) {
                Some(command) => {
                    let timeout_ms: u64 = match auth.timeout_ms {
                        Some(ms) => if ms > 0 {
                            ms
                        } else {
                            DEFAULT_PROVIDER_AUTH_TIMEOUT_MS
                        },
                        None => DEFAULT_PROVIDER_AUTH_TIMEOUT_MS,
                    };
                    return Some(
                        ProviderAuth::Command {
                            command,
                            args: auth.args,
                            cwd: auth.cwd,
                            timeout_ms,
                        },
                    );
                },
                None => {},
            },
            None => {},
        }
        match non_empty(self.env_key) {
            Some(variable) => Some(ProviderAuth::Env(variable)),
            None => None,
        }
    }
}

/// The providers that the app-server knows by itself.
pub open spec fn built_in_ids() -> Seq<Seq<char>> {
    seq!["openai"@, "amazon-bedrock"@, "amazon-bedrock-runtime"@, "ollama"@, "lmstudio"@]
}

/// A provider by its characters: its name, and what it is where it was configured.
#[verifier::ext_equal]
pub struct ProviderView {
    /// The name by which it is asked for.
    pub id: Seq<char>,
    /// What it is called.
    pub name: Option<String>,
    /// Where it is.
    pub base_url: Option<String>,
    /// How it knows who asks.
    pub auth: Option<ProviderAuth>,
}

impl View for HarnessProvider {
    type V = ProviderView;

    open spec fn view(&self) -> ProviderView {
        ProviderView {
            id: self.id@,
            name: self.name,
            base_url: self.base_url,
            auth: self.auth,
        }
    }
}

/// A provider that nothing is known of but its name.
pub open spec fn plain_provider(id: Seq<char>) -> ProviderView {
    ProviderView { id, name: None, base_url: None, auth: None }
}

/// A provider of the configuration.
pub open spec fn configured_provider(id: Seq<char>, provider: CodexModelProvider) -> ProviderView {
    ProviderView {
        id,
        name: kept(provider.name),
        base_url: kept(provider.base_url),
        auth: auth_of(provider),
    }
}

/// The place of a provider in a list; the list's length where it is not there.
pub open spec fn place_of(providers: Seq<ProviderView>, id: Seq<char>) -> int
    decreases providers.len(),
{
    if providers.len() == 0 {
        0
    } else if providers[0].id == id {
        0
    } else {
        1 + place_of(providers.drop_first(), id)
    }
}

/// A list with a provider: in the place of the one of the same name, else at the end.
pub open spec fn with_provider(providers: Seq<ProviderView>, provider: ProviderView) -> Seq<
    ProviderView,
> {
    let i = place_of(providers, provider.id);
    if 0 <= i < providers.len() {
        providers.update(i, provider)
    } else {
        providers.push(provider)
    }
}

/// The providers that there are: those that the app-server knows by itself, and those of the
/// configuration, of which one takes the place of another of the same name.
pub open spec fn providers_of(configured: Seq<(String, CodexModelProvider)>) -> Seq<ProviderView>
    decreases configured.len(),
{
    if configured.len() == 0 {
        built_in_ids().map_values(|id: Seq<char>| plain_provider(id))
    } else {
        with_provider(
            providers_of(configured.drop_last()),
            configured_provider(configured.last().0@, configured.last().1),
        )
    }
}

/// The providers of a list by their characters.
pub open spec fn provider_views(providers: Seq<HarnessProvider>) -> Seq<ProviderView> {
    providers.map_values(|provider: HarnessProvider| provider@)
}

fn built_in(id: &str) -> (provider: HarnessProvider)
    ensures
        provider@ == plain_provider(id@),
{
    HarnessProvider { id: id.to_owned(), name: None, base_url: None, auth: None }
}

proof fn lemma_place_of(providers: Seq<ProviderView>, id: Seq<char>, i: int)
    requires
        0 <= i <= providers.len(),
        forall|j: int| 0 <= j < i ==> (#[trigger] providers[j]).id != id,
        i < providers.len() ==> providers[i].id == id,
    ensures
        place_of(providers, id) == i,
    decreases providers.len(),
{
    if i > 0 {
        assert(providers[0].id != id);
        assert forall|j: int| 0 <= j < i - 1 implies (#[trigger] providers.drop_first()[j]).id
            != id by {
            assert(providers[j + 1].id != id);
        }
        lemma_place_of(providers.drop_first(), id, i - 1);
    }
}

fn put_provider(providers: &mut Vec<HarnessProvider>, provider: HarnessProvider)
    ensures
        provider_views(final(providers)@) == with_provider(
            provider_views(old(providers)@),
            provider@,
        ),
{
    let ghost all = provider_views(providers@);
    let mut i: usize = 0;
    while i < providers.len() && !same_text(providers[i].id.as_str(), provider.id.as_str())
        invariant
            i <= providers@.len(),
            all == provider_views(providers@),
            forall|j: int| 0 <= j < i ==> (#[trigger] all[j]).id != provider.id@,
        decreases providers@.len() - i,
    {
        proof {
            assert(all[i as int].id == providers@[i as int].id@);
        }
        i = i + 1;
    }
    proof {
        if i < providers@.len() {
            assert(all[i as int].id == providers@[i as int].id@);
        }
        lemma_place_of(all, provider.id@, i as int);
    }
    if i < providers.len() {
        providers.remove(i);
        providers.insert(i, provider);
        proof {
            assert(provider_views(providers@) =~= all.update(i as int, provider@));
        }
    } else {
        providers.push(provider);
        proof {
            assert(provider_views(providers@) =~= all.push(provider@));
        }
    }
}

/// The providers that there are.
pub fn list_providers(configured: Vec<(String, CodexModelProvider)>) -> (providers: Vec<
    HarnessProvider,
>)
    ensures
        provider_views(providers@) == providers_of(configured@),
{
    let mut providers: Vec<HarnessProvider> = Vec::new();
    providers.push(built_in("openai"));
    providers.push(built_in("amazon-bedrock"));
    providers.push(built_in("amazon-bedrock-runtime"));
    providers.push(built_in("ollama"));
    providers.push(built_in("lmstudio"));
    let ghost all = configured@;
    let mut rest = configured;
    let mut queue: Vec<(String, CodexModelProvider)> = Vec::new();
    proof {
        assert(provider_views(providers@) =~= providers_of(all.take(0)));
    }
    // The last comes off a list first, so the list is turned round before it is read.
    while rest.len() > 0
        invariant
            rest@.len() + queue@.len() == all.len(),
            rest@ == all.take(rest@.len() as int),
            forall|j: int|
                0 <= j < queue@.len() ==> #[trigger] queue@[j] == all[all.len() - 1 - j],
        decreases rest@.len(),
    {
        let ghost before = rest@;
        let entry = rest.pop();
        match entry {
            Some(entry) => {
                queue.push(entry);
                proof {
                    assert(rest@ =~= all.take(rest@.len() as int));
                }
            },
            None => {},
        }
    }
    let ghost mut done: int = 0;
    while queue.len() > 0
        invariant
            0 <= done,
            done + queue@.len() == all.len(),
            provider_views(providers@) == providers_of(all.take(done)),
            forall|j: int|
                0 <= j < queue@.len() ==> #[trigger] queue@[j] == all[all.len() - 1 - j],
        decreases queue@.len(),
    {
        proof {
            assert(queue@[queue@.len() - 1] == all[done]);
        }
        match queue.pop() {
            Some((id, provider)) => {
                let name = non_empty(copy_text(&provider.name));
                let base_url = non_empty(copy_text(&provider.base_url));
                let auth = provider.auth();
                let entry = HarnessProvider { id, name, base_url, auth };
                proof {
                    assert(entry@ == configured_provider(all[done].0@, all[done].1));
                    assert(all.take(done + 1).drop_last() =~= all.take(done));
                    assert(all.take(done + 1).last() == all[done]);
                    done = done + 1;
                }
                put_provider(&mut providers, entry);
            },
            None => {},
        }
    }
    proof {
        assert(all.take(all.len() as int) =~= all);
    }
    providers
}

/// The provider that the app-server asks where nothing else is said: the one of the configuration,
/// or `openai` where that names none.
pub open spec fn default_provider(configured: Option<String>) -> Seq<char> {
    match kept(configured) {
        Some(id) => id@,
        None => "openai"@,
    }
}

/// The provider that the app-server asks where nothing else is said.
pub fn default_model_provider(configured: Option<String>) -> (id: String)
    ensures
        id@ == default_provider(configured),
{
    match non_empty(configured) {
        Some(id) => id,
        None => "openai".to_owned(),
    }
}

/// A model, as the app-server lists it.
#[derive(Debug)]
pub struct NativeModel {
    /// The name of the preset.
    pub id: String,
    /// The name by which it is asked for.
    pub model: String,
    /// What it is called.
    pub display_name: String,
    /// Whether it is left out of lists.
    pub hidden: bool,
    /// Whether it is the one that is used by default.
    pub is_default: bool,
    /// How hard it reasons by default.
    pub default_reasoning_effort: String,
    /// How hard it can be asked to reason.
    pub supported_reasoning_efforts: Vec<String>,
}

/// A model of a provider.
#[derive(Debug)]
pub struct ModelDescriptor {
    /// The provider.
    pub provider: String,
    /// The name by which it is asked for.
    pub model: String,
    /// How many tokens it is taken to hold.
    pub context_window: u32,
    /// Whether it can be asked how hard to reason.
    pub supports_reasoning_effort: bool,
    /// How hard it can be asked to reason.
    pub reasoning_efforts: Vec<String>,
    /// What it is called.
    pub display_name: Option<String>,
    /// Whether it is the one that is used by default.
    pub is_default: bool,
}

/// How hard a model can be asked to reason. Where only the default is told, and it is one, that is
/// the only choice.
pub open spec fn efforts_of(model: NativeModel) -> Seq<String> {
    if model.supported_reasoning_efforts@.len() == 0 && model.default_reasoning_effort@
        != "none"@ {
        seq![model.default_reasoning_effort]
    } else {
        model.supported_reasoning_efforts@
    }
}

/// Whether a model of a provider is what the app-server lists.
pub open spec fn describes(
    model: NativeModel,
    provider: Seq<char>,
    context_window: u32,
    d: ModelDescriptor,
) -> bool {
    &&& d.provider@ == provider
    &&& d.model == (if model.model@.len() == 0 {
        model.id
    } else {
        model.model
    })
    &&& d.context_window == context_window
    &&& d.reasoning_efforts@ == efforts_of(model)
    &&& d.supports_reasoning_effort == (efforts_of(model).len() > 0)
    &&& d.display_name == (if model.display_name@.len() == 0 {
        None
    } else {
        Some(model.display_name)
    })
    &&& d.is_default == model.is_default
}

/// A model of a provider. The app-server does not tell how many tokens it can hold, so that is given.
pub fn map_model(model: NativeModel, provider: &str, context_window: u32) -> (descriptor:
    ModelDescriptor)
    ensures
        describes(model, provider@, context_window, descriptor),
{
    let id = if model.model.as_str().is_empty() {
        model.id
    } else {
        model.model
    };
    let display_name = if model.display_name.as_str().is_empty() {
        None
    } else {
        Some(model.display_name)
    };
    let mut reasoning_efforts = model.supported_reasoning_efforts;
    if reasoning_efforts.len() == 0 && !same_text(
        model.default_reasoning_effort.as_str(),
        "none",
    ) {
        reasoning_efforts.push(model.default_reasoning_effort);
    }
    let supports_reasoning_effort = reasoning_efforts.len() > 0;
    proof {
        assert(reasoning_efforts@ =~= efforts_of(model));
    }
    ModelDescriptor {
        provider: provider.to_owned(),
        model: id,
        context_window,
        supports_reasoning_effort,
        reasoning_efforts,
        display_name,
        is_default: model.is_default,
    }
}

/// The models of a page that are not left out of lists.
pub open spec fn shown_models(page: Seq<NativeModel>) -> Seq<NativeModel>
    decreases page.len(),
{
    if page.len() == 0 {
        Seq::empty()
    } else if page.last().hidden {
        shown_models(page.drop_last())
    } else {
        shown_models(page.drop_last()).push(page.last())
    }
}

/// Takes the models of a page into a list, but for those that are left out of lists.
pub fn take_model_page(
    listed: &mut Vec<ModelDescriptor>,
    page: Vec<NativeModel>,
    provider: &str,
    context_window: u32,
)
    ensures
        final(listed)@.len() == old(listed)@.len() + shown_models(page@).len(),
        forall|i: int|
            0 <= i < old(listed)@.len() ==> #[trigger] final(listed)@[i] == old(listed)@[i],
        forall|i: int|
            0 <= i < shown_models(page@).len() ==> describes(
                #[trigger] shown_models(page@)[i],
                provider@,
                context_window,
                final(listed)@[old(listed)@.len() + i],
            ),
{
    let ghost all = page@;
    let ghost before = listed@;
    let mut rest = page;
    let mut queue: Vec<NativeModel> = Vec::new();
    while rest.len() > 0
        invariant
            rest@.len() + queue@.len() == all.len(),
            rest@ == all.take(rest@.len() as int),
            forall|j: int|
                0 <= j < queue@.len() ==> #[trigger] queue@[j] == all[all.len() - 1 - j],
        decreases rest@.len(),
    {
        match rest.pop() {
            Some(model) => {
                queue.push(model);
                proof {
                    assert(rest@ =~= all.take(rest@.len() as int));
                }
            },
            None => {},
        }
    }
    let ghost mut done: int = 0;
    proof {
        assert(all.take(0) =~= Seq::<NativeModel>::empty());
    }
    while queue.len() > 0
        invariant
            0 <= done,
            done + queue@.len() == all.len(),
            listed@.len() == before.len() + shown_models(all.take(done)).len(),
            forall|i: int| 0 <= i < before.len() ==> #[trigger] listed@[i] == before[i],
            forall|i: int|
                0 <= i < shown_models(all.take(done)).len() ==> describes(
                    #[trigger] shown_models(all.take(done))[i],
                    provider@,
                    context_window,
                    listed@[before.len() + i],
                ),
            forall|j: int|
                0 <= j < queue@.len() ==> #[trigger] queue@[j] == all[all.len() - 1 - j],
        decreases queue@.len(),
    {
        proof {
            assert(queue@[queue@.len() - 1] == all[done]);
            assert(all.take(done + 1).drop_last() =~= all.take(done));
            assert(all.take(done + 1).last() == all[done]);
        }
        match queue.pop() {
            Some(model) => {
                let ghost was = listed@;
                if !model.hidden {
                    let descriptor = map_model(model, provider, context_window);
                    listed.push(descriptor);
                    proof {
                        let shown = shown_models(all.take(done + 1));
                        assert forall|i: int| 0 <= i < shown.len() implies describes(
                            #[trigger] shown[i],
                            provider@,
                            context_window,
                            listed@[before.len() + i],
                        ) by {
                            if i < shown.len() - 1 {
                                assert(shown[i] == shown_models(all.take(done))[i]);
                                assert(listed@[before.len() + i] == was[before.len() + i]);
                            }
                        }
                    }
                }
                proof {
                    done = done + 1;
                }
            },
            None => {},
        }
    }
    proof {
        assert(all.take(all.len() as int) =~= all);
    }
}

/// Takes a page of models into a list. What is asked for then: the next page, unless this was the
/// last.
pub fn handle_list_models(
    listed: &mut Vec<ModelDescriptor>,
    page: Vec<NativeModel>,
    next_cursor: Option<String>,
    provider: &str,
    context_window: u32,
) -> (next: Option<Call>)
    ensures
        final(listed)@.len() == old(listed)@.len() + shown_models(page@).len(),
        forall|i: int|
            0 <= i < old(listed)@.len() ==> #[trigger] final(listed)@[i] == old(listed)@[i],
        forall|i: int|
            0 <= i < shown_models(page@).len() ==> describes(
                #[trigger] shown_models(page@)[i],
                provider@,
                context_window,
                final(listed)@[old(listed)@.len() + i],
            ),
        next is Some <==> next_cursor is Some,
        next matches Some(call) ==> call@ == models_request(next_cursor),
{
    take_model_page(listed, page, provider, context_window);
    match next_cursor {
        Some(_) => Some(models_call(&next_cursor)),
        None => None,
    }
}

/// Whether an MCP server knows who asks.
#[derive(Clone, Copy, PartialEq, Eq, Structural, Debug)]
#[allow(inconsistent_fields)]
pub enum McpAuthStatus {
    /// That is not known.
    Unknown,
    /// The server does not ask.
    Unsupported,
    /// Nobody logged in.
    NotLoggedIn,
    /// By a token.
    BearerToken,
    /// By a login.
    OAuth,
}

/// What an MCP server tells of itself.
#[derive(Debug)]
pub struct McpServerInfo {
    /// Its name.
    pub name: String,
    /// What it is called.
    pub title: Option<String>,
    /// What it is.
    pub description: Option<String>,
    /// Its version, where it tells one.
    pub version: Option<String>,
    /// Where to read about it.
    pub website_url: Option<String>,
}

/// A tool of an MCP server.
#[derive(Debug)]
pub struct McpTool {
    /// Its name.
    pub name: String,
    /// What it is called.
    pub title: Option<String>,
    /// What it does.
    pub description: Option<String>,
    /// What it takes.
    pub input_schema: Json,
    /// What it gives.
    pub output_schema: Option<Json>,
}

/// A resource of an MCP server.
#[derive(Debug)]
pub struct McpResource {
    /// Its name.
    pub name: String,
    /// Where it is.
    pub uri: String,
    /// What it is called.
    pub title: Option<String>,
    /// What it is.
    pub description: Option<String>,
    /// Its type.
    pub mime_type: Option<String>,
    /// How large it is.
    pub size: Option<i64>,
}

/// Resources of an MCP server under one pattern.
#[derive(Debug)]
pub struct McpResourceTemplate {
    /// Their name.
    pub name: String,
    /// The pattern.
    pub uri_template: String,
    /// What they are called.
    pub title: Option<String>,
    /// What they are.
    pub description: Option<String>,
    /// Their type.
    pub mime_type: Option<String>,
}

/// What an MCP server tells of itself, as the app-server has it.
#[derive(Debug)]
pub struct NativeServerInfo {
    /// Its name.
    pub name: String,
    /// What it is called.
    pub title: Option<String>,
    /// What it is.
    pub description: Option<String>,
    /// Its version, which may be empty.
    pub version: String,
    /// Where to read about it.
    pub website_url: Option<String>,
}

/// An MCP server, as the app-server lists it.
#[derive(Debug)]
pub struct NativeServerStatus {
    /// Its name.
    pub name: String,
    /// Whether it knows who asks.
    pub auth_status: McpAuthStatus,
    /// What it tells of itself.
    pub server_info: Option<NativeServerInfo>,
    /// Its tools by name.
    pub tools: Vec<(String, McpTool)>,
    /// Its resources.
    pub resources: Vec<McpResource>,
    /// Its patterns of resources.
    pub resource_templates: Vec<McpResourceTemplate>,
}

/// An MCP server.
#[derive(Debug)]
pub struct McpServerStatus {
    /// Its name.
    pub name: String,
    /// Whether it knows who asks.
    pub auth_status: McpAuthStatus,
    /// What it tells of itself.
    pub server_info: Option<McpServerInfo>,
    /// Its tools.
    pub tools: Vec<McpTool>,
    /// Its resources.
    pub resources: Vec<McpResource>,
    /// Its patterns of resources.
    pub resource_templates: Vec<McpResourceTemplate>,
}

/// What an MCP server tells of itself. A version that is empty is none.
pub open spec fn info_of(info: NativeServerInfo) -> McpServerInfo {
    McpServerInfo {
        name: info.name,
        title: info.title,
        description: info.description,
        version: if info.version@.len() == 0 {
            None
        } else {
            Some(info.version)
        },
        website_url: info.website_url,
    }
}

/// What an MCP server tells of itself.
pub fn map_mcp_server_info(info: NativeServerInfo) -> (mapped: McpServerInfo)
    ensures
        mapped == info_of(info),
{
    let version = if info.version.as_str().is_empty() {
        None
    } else {
        Some(info.version)
    };
    McpServerInfo {
        name: info.name,
        title: info.title,
        description: info.description,
        version,
        website_url: info.website_url,
    }
}

/// Whether this is an MCP server as the app-server told of it. Its tools keep the order of their
/// names.
pub open spec fn shows_server(status: NativeServerStatus, mapped: McpServerStatus) -> bool {
    &&& mapped.name == status.name
    &&& mapped.auth_status == status.auth_status
    &&& mapped.server_info == (match status.server_info {
        Some(info) => Some(info_of(info)),
        None => None,
    })
    &&& mapped.tools@ == status.tools@.map_values(|entry: (String, McpTool)| entry.1)
    &&& mapped.resources == status.resources
    &&& mapped.resource_templates == status.resource_templates
}

/// An MCP server.
pub fn map_mcp_server_status(status: NativeServerStatus) -> (mapped: McpServerStatus)
    ensures
        shows_server(status, mapped),
{
    let server_info = match status.server_info {
        Some(info) => Some(map_mcp_server_info(info)),
        None => None,
    };
    let ghost all = status.tools@;
    let mut rest = status.tools;
    let mut tools: Vec<McpTool> = Vec::new();
    while rest.len() > 0
        invariant
            rest@.len() + tools@.len() == all.len(),
            rest@ == all.take(rest@.len() as int),
            forall|j: int|
                0 <= j < tools@.len() ==> #[trigger] tools@[j] == all[rest@.len() + j].1,
        decreases rest@.len(),
    {
        let ghost was = tools@;
        let ghost n = rest@.len();
        match rest.pop() {
            Some((_, tool)) => {
                tools.insert(0, tool);
                proof {
                    assert(rest@ =~= all.take(rest@.len() as int));
                    assert forall|j: int| 0 <= j < tools@.len() implies #[trigger] tools@[j]
                        == all[rest@.len() + j].1 by {
                        if j > 0 {
                            assert(tools@[j] == was[j - 1]);
                            assert(was[j - 1] == all[n + (j - 1)].1);
                        }
                    }
                }
            },
            None => {},
        }
    }
    proof {
        assert(tools@ =~= all.map_values(|entry: (String, McpTool)| entry.1));
    }
    McpServerStatus {
        name: status.name,
        auth_status: status.auth_status,
        server_info,
        tools,
        resources: status.resources,
        resource_templates: status.resource_templates,
    }
}

/// Takes a page of MCP servers into a list. What is asked for then: the next page, unless this was
/// the last.
pub fn handle_list_mcp_servers(
    listed: &mut Vec<McpServerStatus>,
    page: Vec<NativeServerStatus>,
    next_cursor: Option<String>,
) -> (next: Option<Call>)
    ensures
        final(listed)@.len() == old(listed)@.len() + page@.len(),
        forall|i: int|
            0 <= i < old(listed)@.len() ==> #[trigger] final(listed)@[i] == old(listed)@[i],
        forall|i: int|
            0 <= i < page@.len() ==> shows_server(
                #[trigger] page@[i],
                final(listed)@[old(listed)@.len() + i],
            ),
        next is Some <==> next_cursor is Some,
        next matches Some(call) ==> call@ == servers_request(next_cursor),
{
    let ghost all = page@;
    let ghost before = listed@;
    let mut rest = page;
    while rest.len() > 0
        invariant
            rest@.len() <= all.len(),
            rest@ == all.skip(all.len() - rest@.len()),
            listed@.len() == before.len() + all.len() - rest@.len(),
            forall|i: int| 0 <= i < before.len() ==> #[trigger] listed@[i] == before[i],
            forall|i: int|
                0 <= i < all.len() - rest@.len() ==> shows_server(
                    #[trigger] all[i],
                    listed@[before.len() + i],
                ),
        decreases rest@.len(),
    {
        let ghost was = rest@;
        let ghost done = listed@;
        let status = rest.remove(0);
        listed.push(map_mcp_server_status(status));
        proof {
            let n = all.len() - was.len();
            assert(was[0] == all[n]);
            assert(rest@ =~= all.skip(all.len() - rest@.len()));
            assert forall|i: int| 0 <= i < all.len() - rest@.len() implies shows_server(
                #[trigger] all[i],
                listed@[before.len() + i],
            ) by {
                if i < n {
                    assert(listed@[before.len() + i] == done[before.len() + i]);
                }
            }
        }
    }
    match next_cursor {
        Some(_) => Some(servers_call(&next_cursor)),
        None => None,
    }
}

proof fn lemma_place_in_range(providers: Seq<ProviderView>, id: Seq<char>)
    ensures
        0 <= place_of(providers, id) <= providers.len(),
        place_of(providers, id) < providers.len() ==> providers[place_of(providers, id)].id == id,
        place_of(providers, id) == providers.len() ==> forall|j: int|
            0 <= j < providers.len() ==> (#[trigger] providers[j]).id != id,
    decreases providers.len(),
{
    if providers.len() > 0 && providers[0].id != id {
        let rest = providers.drop_first();
        lemma_place_in_range(rest, id);
        if place_of(providers, id) == providers.len() {
            assert forall|j: int| 0 <= j < providers.len() implies (#[trigger] providers[j]).id
                != id by {
                if j > 0 {
                    assert(rest[j - 1].id != id);
                }
            }
        }
    }
}

/// Every provider of the configuration is listed, and so are all that the app-server knows by
/// itself; none is listed twice.
pub proof fn law_each_provider_is_listed_once(configured: Seq<(String, CodexModelProvider)>)
    ensures
        forall|i: int, j: int|
            0 <= i < j < providers_of(configured).len() ==> (#[trigger] providers_of(
                configured,
            )[i]).id != (#[trigger] providers_of(configured)[j]).id,
        providers_of(configured).len() >= 5,
        configured.len() > 0 ==> providers_of(configured).contains(
            configured_provider(configured.last().0@, configured.last().1),
        ),
        forall|k: int|
            0 <= k < 5 ==> (#[trigger] providers_of(configured)[k]).id == built_in_ids()[k],
    decreases configured.len(),
{
    if configured.len() == 0 {
        reveal_strlit("openai");
        reveal_strlit("amazon-bedrock");
        reveal_strlit("amazon-bedrock-runtime");
        reveal_strlit("ollama");
        reveal_strlit("lmstudio");
        let all = providers_of(configured);
        assert(all.len() == 5);
        assert("openai"@.len() == 6 && "amazon-bedrock"@.len() == 14
            && "amazon-bedrock-runtime"@.len() == 22 && "ollama"@.len() == 6 && "lmstudio"@.len()
            == 8);
        assert("openai"@[1] != "ollama"@[1]);
        assert forall|k: int| 0 <= k < 5 implies (#[trigger] all[k]).id == built_in_ids()[k] by {}
    } else {
        let before = providers_of(configured.drop_last());
        let one = configured_provider(configured.last().0@, configured.last().1);
        law_each_provider_is_listed_once(configured.drop_last());
        lemma_place_in_range(before, one.id);
        let now = with_provider(before, one);
        let at = place_of(before, one.id);
        assert(now[at] == one);
        assert forall|k: int| 0 <= k < 5 implies (#[trigger] now[k]).id == built_in_ids()[k] by {
            assert(before[k].id == built_in_ids()[k]);
        }
        assert forall|i: int, j: int| 0 <= i < j < now.len() implies (#[trigger] now[i]).id != (
        #[trigger] now[j]).id by {
            if i != at && j != at {
                assert(before[i].id != before[j].id);
            } else if i == at && at < before.len() {
                assert(before[i].id != before[j].id);
            } else if j == at && at < before.len() {
                assert(before[i].id != before[j].id);
            } else {
                assert(before[i].id != one.id);
            }
        }
    }
}

/// A model that reasons by default can be asked to, and one that does not cannot.
pub proof fn law_default_effort_is_a_choice(model: NativeModel)
    requires
        model.supported_reasoning_efforts@.len() == 0,
    ensures
        efforts_of(model).len() > 0 <==> model.default_reasoning_effort@ != "none"@,
{
}

} // verus!
