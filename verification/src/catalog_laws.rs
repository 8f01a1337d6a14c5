//! What is listed of providers, models and servers, and which versions come after which.

use vstd::prelude::*;

use crate::catalog::{
    auth_of, configured_provider, default_provider, describes, kept, place_of, plain_provider,
    providers_of, shown_models, shows_server, with_provider, CodexModelProvider, McpServerStatus,
    ModelDescriptor, NativeModel, NativeServerStatus, ProviderAuth, ProviderView,
};
use crate::number::{all_digits, decimal, unsigned_value};
use crate::split::{cut_at, cut_at_last, first_word_of, lemma_is_first_where, parts_of};
use crate::text::{is_blank, is_digit, is_space, trimmed_start};
use crate::text_laws::{
    law_cut_is_at_the_first_place, law_cut_is_at_the_last_place, law_number_comes_back_from_writing,
};
use crate::version::{agent_version, newer, starts_suffix, triple_of};

verus! {

/// A text of a configuration counts where it is not blank, as it is.
pub proof fn law_blank_settings_are_none(text: Option<String>)
    ensures
        text is None ==> kept(text) is None,
        text matches Some(t) ==> {
            &&& is_blank(t@) ==> kept(text) is None
            &&& !is_blank(t@) ==> kept(text) == Some(t)
        },
{
}

/// A provider is spoken to with what a command gives, where it names one, and otherwise with what
/// an environment variable holds, where it names one. The command runs as it was configured, for
/// five seconds unless another time above zero was set.
pub proof fn law_provider_is_spoken_to_as_configured(provider: CodexModelProvider)
    ensures
        ({
            let runs = provider.auth is Some && provider.auth->Some_0.command is Some && !is_blank(
                provider.auth->Some_0.command->Some_0@,
            );
            &&& runs ==> {
                let auth = provider.auth->Some_0;
                &&& auth_of(provider) matches Some(
                    ProviderAuth::Command { command, args, cwd, timeout_ms },
                )
                &&& Some(command) == auth.command
                &&& args@ == auth.args@
                &&& cwd == auth.cwd
                &&& auth.timeout_ms is None ==> timeout_ms == 5000
                &&& auth.timeout_ms matches Some(ms) ==> {
                    &&& ms > 0 ==> timeout_ms == ms
                    &&& ms == 0 ==> timeout_ms == 5000
                }
            }
            &&& !runs ==> {
                &&& provider.env_key is None ==> auth_of(provider) is None
                &&& provider.env_key matches Some(variable) ==> {
                    &&& is_blank(variable@) ==> auth_of(provider) is None
                    &&& !is_blank(variable@) ==> auth_of(provider) == Some(
                        ProviderAuth::Env(variable),
                    )
                }
            }
        }),
{
}

/// Whether a provider is listed as it was configured.
pub open spec fn listed_as(provider: ProviderView, id: Seq<char>, set: CodexModelProvider) -> bool {
    &&& provider.id == id
    &&& provider.auth == auth_of(set)
    &&& set.name is None ==> provider.name is None
    &&& set.name matches Some(name) ==> provider.name == (if is_blank(name@) {
        None
    } else {
        Some(name)
    })
    &&& set.base_url is None ==> provider.base_url is None
    &&& set.base_url matches Some(url) ==> provider.base_url == (if is_blank(url@) {
        None
    } else {
        Some(url)
    })
}

proof fn lemma_place(providers: Seq<ProviderView>, id: Seq<char>)
    ensures
        0 <= place_of(providers, id) <= providers.len(),
        place_of(providers, id) < providers.len() ==> providers[place_of(providers, id)].id == id,
    decreases providers.len(),
{
    if providers.len() > 0 && providers[0].id != id {
        lemma_place(providers.drop_first(), id);
    }
}

/// Every provider of the configuration is listed under its own name and as it was configured last.
pub proof fn law_provider_is_listed_as_configured(
    configured: Seq<(String, CodexModelProvider)>,
    i: int,
)
    requires
        0 <= i < configured.len(),
        forall|j: int| i < j < configured.len() ==> #[trigger] configured[j].0@ != configured[i].0@,
    ensures
        exists|k: int|
            0 <= k < providers_of(configured).len() && listed_as(
                #[trigger] providers_of(configured)[k],
                configured[i].0@,
                configured[i].1,
            ),
    decreases configured.len(),
{
    let before = providers_of(configured.drop_last());
    let one = configured_provider(configured.last().0@, configured.last().1);
    let now = with_provider(before, one);
    lemma_place(before, one.id);
    let at = place_of(before, one.id);
    if i == configured.len() - 1 {
        assert(providers_of(configured) == now);
        assert(providers_of(configured)[at] == one);
        assert(listed_as(now[at], configured[i].0@, configured[i].1));
    } else {
        let shorter = configured.drop_last();
        assert forall|j: int| i < j < shorter.len() implies #[trigger] shorter[j].0@
            != shorter[i].0@ by {
            assert(configured[j].0@ != configured[i].0@);
        }
        law_provider_is_listed_as_configured(shorter, i);
        let k = choose|k: int|
            0 <= k < before.len() && listed_as(
                #[trigger] before[k],
                configured[i].0@,
                configured[i].1,
            );
        assert(configured[configured.len() - 1].0@ != configured[i].0@);
        assert(before[k].id != one.id);
        assert(providers_of(configured)[k] == before[k]);
        assert(listed_as(now[k], configured[i].0@, configured[i].1));
    }
}

/// Without a configuration the providers are those that the app-server knows by itself, and nothing
/// more is known of them.
pub proof fn law_known_providers_are_plain(id: Seq<char>)
    ensures
        providers_of(Seq::empty()).len() == 5,
        providers_of(Seq::empty())[0].id == "openai"@,
        providers_of(Seq::empty())[1].id == "amazon-bedrock"@,
        providers_of(Seq::empty())[2].id == "amazon-bedrock-runtime"@,
        providers_of(Seq::empty())[3].id == "ollama"@,
        providers_of(Seq::empty())[4].id == "lmstudio"@,
        plain_provider(id).id == id,
        plain_provider(id).name is None,
        plain_provider(id).base_url is None,
        plain_provider(id).auth is None,
{
}

/// The provider of a configuration that names none, or a blank one, is `openai`.
pub proof fn law_provider_by_default(configured: Option<String>)
    ensures
        configured is None ==> default_provider(configured) == "openai"@,
        configured matches Some(id) ==> {
            &&& is_blank(id@) ==> default_provider(configured) == "openai"@
            &&& !is_blank(id@) ==> default_provider(configured) == id@
        },
{
}

/// A model is described by what the app-server lists of it: its name, or that of its preset where
/// it has none, what it is called, its efforts and whether it is the default. Where no effort is
/// listed, the effort by default is one, unless there is none.
pub proof fn law_model_is_described_as_listed(
    model: NativeModel,
    provider: Seq<char>,
    context_window: u32,
    d: ModelDescriptor,
)
    requires
        describes(model, provider, context_window, d),
    ensures
        d.provider@ == provider,
        d.context_window == context_window,
        model.model@.len() > 0 ==> d.model@ == model.model@,
        model.model@.len() == 0 ==> d.model@ == model.id@,
        model.display_name@.len() == 0 <==> d.display_name is None,
        d.display_name matches Some(name) ==> name@ == model.display_name@,
        d.is_default == model.is_default,
        d.supports_reasoning_effort <==> d.reasoning_efforts@.len() > 0,
        model.supported_reasoning_efforts@.len() > 0 ==> d.reasoning_efforts@
            == model.supported_reasoning_efforts@,
        model.supported_reasoning_efforts@.len() == 0 && model.default_reasoning_effort@ == "none"@
            ==> d.reasoning_efforts@.len() == 0,
        model.supported_reasoning_efforts@.len() == 0 && model.default_reasoning_effort@ != "none"@
            ==> d.reasoning_efforts@.len() == 1 && d.reasoning_efforts@[0]
            == model.default_reasoning_effort,
{
}

/// The models that are listed are those that are not hidden, in order.
pub proof fn law_hidden_models_are_left_out(page: Seq<NativeModel>)
    ensures
        shown_models(page) == page.filter(|model: NativeModel| !model.hidden),
    decreases page.len(),
{
    reveal(Seq::filter);
    if page.len() > 0 {
        law_hidden_models_are_left_out(page.drop_last());
    }
}

/// A server is listed as the app-server tells it: its name, how one logs in, what it says of itself,
/// its tools in order, and its resources. An empty version is none.
pub proof fn law_server_is_listed_as_told(status: NativeServerStatus, mapped: McpServerStatus)
    requires
        shows_server(status, mapped),
    ensures
        mapped.name@ == status.name@,
        mapped.auth_status == status.auth_status,
        mapped.tools@.len() == status.tools@.len(),
        forall|i: int|
            0 <= i < status.tools@.len() ==> #[trigger] mapped.tools@[i] == status.tools@[i].1,
        mapped.resources@ == status.resources@,
        mapped.resource_templates@ == status.resource_templates@,
        status.server_info is None <==> mapped.server_info is None,
        status.server_info matches Some(info) ==> {
            let told = mapped.server_info->Some_0;
            &&& told.name@ == info.name@
            &&& told.title == info.title
            &&& told.description == info.description
            &&& told.website_url == info.website_url
            &&& info.version@.len() == 0 <==> told.version is None
            &&& told.version matches Some(version) ==> version@ == info.version@
        },
{
}

/// A version in writing.
pub open spec fn dotted(major: nat, minor: nat, patch: nat) -> Seq<char> {
    decimal(major) + seq!['.'] + decimal(minor) + seq!['.'] + decimal(patch)
}

proof fn lemma_digits_hold_none(s: Seq<char>, c: char)
    requires
        all_digits(s),
        !is_digit(c),
    ensures
        !s.contains(c),
{
    assert forall|i: int| 0 <= i < s.len() implies #[trigger] s[i] != c by {
        assert(is_digit(s[i]));
    }
}

proof fn lemma_cut_between(head: Seq<char>, c: char, tail: Seq<char>)
    requires
        !head.contains(c),
    ensures
        cut_at(head + seq![c] + tail, c) == Some((head, tail)),
{
    let s = head + seq![c] + tail;
    let p = crate::split::is_char(c);
    assert forall|i: int| 0 <= i < head.len() implies !p(#[trigger] s[i]) by {
        assert(head[i] != c);
        assert(s[i] == head[i]);
    }
    lemma_is_first_where(s, p, head.len() as int);
    assert(s.take(head.len() as int) =~= head);
    assert(s.skip(head.len() + 1int) =~= tail);
}

proof fn lemma_parts_between(head: Seq<char>, c: char, tail: Seq<char>)
    requires
        !head.contains(c),
    ensures
        parts_of(head + seq![c] + tail, c) == seq![head] + parts_of(tail, c),
{
    lemma_cut_between(head, c, tail);
}

proof fn lemma_dotted_parts(major: nat, minor: nat, patch: nat)
    ensures
        parts_of(dotted(major, minor, patch), '.') == seq![
            decimal(major),
            decimal(minor),
            decimal(patch),
        ],
        all_digits(decimal(major)),
        all_digits(decimal(minor)),
        all_digits(decimal(patch)),
{
    law_number_comes_back_from_writing(major);
    law_number_comes_back_from_writing(minor);
    law_number_comes_back_from_writing(patch);
    lemma_digits_hold_none(decimal(major), '.');
    lemma_digits_hold_none(decimal(minor), '.');
    lemma_digits_hold_none(decimal(patch), '.');
    let last = decimal(patch);
    let rest = decimal(minor) + seq!['.'] + last;
    let all = dotted(major, minor, patch);
    assert(all =~= decimal(major) + seq!['.'] + rest);
    lemma_parts_between(decimal(major), '.', rest);
    lemma_parts_between(decimal(minor), '.', last);
    law_cut_is_at_the_first_place(last, '.');
    assert(parts_of(last, '.') == seq![last]);
    assert(parts_of(all, '.') =~= seq![decimal(major), decimal(minor), last]);
}

proof fn lemma_reads_back(n: u64)
    ensures
        unsigned_value(decimal(n as nat), u64::MAX as nat) == Some(n as nat),
{
    law_number_comes_back_from_writing(n as nat);
    assert(is_digit(decimal(n as nat)[0]));
}

/// A version of three numbers is read as these numbers, and one comes after another where its first
/// number that differs is greater.
pub proof fn law_versions_are_ordered_by_their_numbers(
    a: (u64, u64, u64),
    b: (u64, u64, u64),
)
    ensures
        ({
            let x = dotted(a.0 as nat, a.1 as nat, a.2 as nat);
            let y = dotted(b.0 as nat, b.1 as nat, b.2 as nat);
            &&& triple_of(x) == Some((a.0 as nat, a.1 as nat, a.2 as nat))
            &&& a.0 > b.0 ==> newer(x, y)
            &&& a.0 < b.0 ==> !newer(x, y)
            &&& a.0 == b.0 && a.1 > b.1 ==> newer(x, y)
            &&& a.0 == b.0 && a.1 < b.1 ==> !newer(x, y)
            &&& a.0 == b.0 && a.1 == b.1 ==> (newer(x, y) <==> a.2 > b.2)
        }),
{
    lemma_dotted_parts(a.0 as nat, a.1 as nat, a.2 as nat);
    lemma_dotted_parts(b.0 as nat, b.1 as nat, b.2 as nat);
    lemma_reads_back(a.0);
    lemma_reads_back(a.1);
    lemma_reads_back(a.2);
    lemma_reads_back(b.0);
    lemma_reads_back(b.1);
    lemma_reads_back(b.2);
}

/// What is not three numbers is no version, and comes neither before nor after one.
pub proof fn law_only_numbers_are_compared(version: Seq<char>, other: Seq<char>)
    requires
        triple_of(version) is None,
    ensures
        !newer(version, other),
        !newer(other, version),
{
}

proof fn lemma_tail_after_slash(program: Seq<char>, version: Seq<char>)
    requires
        !version.contains('/'),
    ensures
        cut_at_last(program + seq!['/'] + version, '/') == Some((program, version)),
{
    let s = program + seq!['/'] + version;
    law_cut_is_at_the_last_place(s, '/');
    assert(s[program.len() as int] == '/');
    assert(s.contains('/'));
    let (head, tail) = cut_at_last(s, '/')->Some_0;
    assert(s == head.push('/') + tail);
    if head.len() < program.len() {
        let i = program.len() - head.len() - 1;
        assert((head.push('/') + tail)[program.len() as int] == tail[i]);
        assert(tail.contains('/'));
    }
    if head.len() > program.len() {
        let i = head.len() - program.len() - 1;
        assert((head.push('/') + tail)[head.len() as int] == '/');
        assert(s[head.len() as int] == version[i]);
        assert(version.contains('/'));
    }
    assert(head =~= program) by {
        assert(s.take(head.len() as int) =~= head);
        assert(s.take(program.len() as int) =~= program);
    }
    assert(tail =~= version) by {
        assert(s.skip(head.len() + 1int) =~= tail);
        assert(s.skip(program.len() + 1int) =~= version);
    }
}

/// The version of a user agent is the three numbers behind the name of the program, whatever
/// follows behind a blank.
pub proof fn law_agent_tells_its_version(
    program: Seq<char>,
    version: (nat, nat, nat),
    more: Seq<char>,
)
    requires
        forall|i: int| 0 <= i < program.len() ==> !is_space(#[trigger] program[i]),
        more.len() == 0 || more[0] == ' ',
    ensures
        agent_version(
            program + seq!['/'] + dotted(version.0, version.1, version.2) + more,
        ) == Some(dotted(version.0, version.1, version.2)),
{
    let numbers = dotted(version.0, version.1, version.2);
    let word = program + seq!['/'] + numbers;
    let agent = word + more;
    lemma_dotted_parts(version.0, version.1, version.2);
    law_number_comes_back_from_writing(version.0);
    law_number_comes_back_from_writing(version.1);
    law_number_comes_back_from_writing(version.2);
    assert forall|i: int| 0 <= i < numbers.len() implies is_digit(#[trigger] numbers[i])
        || numbers[i] == '.' by {
        let a = decimal(version.0);
        let b = decimal(version.1);
        let c = decimal(version.2);
        if i < a.len() {
            assert(numbers[i] == a[i]);
        } else if a.len() < i < a.len() + 1 + b.len() {
            assert(numbers[i] == b[i - a.len() - 1]);
        } else if i > a.len() + 1 + b.len() {
            assert(numbers[i] == c[i - a.len() - b.len() - 2]);
        }
    }
    assert(!numbers.contains('/'));
    lemma_tail_after_slash(program, numbers);
    assert forall|i: int| 0 <= i < word.len() implies !is_space(#[trigger] word[i]) by {
        if i < program.len() {
            assert(word[i] == program[i]);
        } else if i > program.len() {
            assert(word[i] == numbers[i - program.len() - 1]);
        }
    }
    assert(agent =~= program + seq!['/'] + numbers + more);
    assert(!is_space(word[0]));
    assert(agent[0] == word[0]);
    assert(trimmed_start(agent) == agent);
    let space = |c: char| is_space(c);
    assert forall|i: int| 0 <= i < word.len() implies !space(#[trigger] agent[i]) by {
        assert(agent[i] == word[i]);
    }
    lemma_is_first_where(agent, space, word.len() as int);
    assert(agent.take(word.len() as int) =~= word);
    assert(first_word_of(agent) == Some(word));
    let suffix = |c: char| starts_suffix(c);
    assert forall|i: int| 0 <= i < numbers.len() implies !suffix(#[trigger] numbers[i]) by {
        assert(is_digit(numbers[i]) || numbers[i] == '.');
    }
    lemma_is_first_where(numbers, suffix, numbers.len() as int);
    assert(numbers.take(numbers.len() as int) =~= numbers);
    reveal_strlit(".");
    assert("."@ =~= seq!['.']);
}

} // verus!
