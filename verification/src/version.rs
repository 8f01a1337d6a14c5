//! Versions of the app-server.

use vstd::prelude::*;

use crate::json::opt_chars;
use crate::number::{parse_unsigned, unsigned_value};
use crate::split::{
    cut_at_last, first_where, first_word, first_word_of, lemma_is_first_where, parts_of,
    rsplit_once, slices_view, split,
};
use crate::text::is_digit;

verus! {

/// The three numbers of a version of the form `MAJOR.MINOR.PATCH`.
pub open spec fn triple_of(s: Seq<char>) -> Option<(nat, nat, nat)> {
    let parts = parts_of(s, '.');
    if parts.len() != 3 {
        None
    } else {
        match (
            unsigned_value(parts[0], u64::MAX as nat),
            unsigned_value(parts[1], u64::MAX as nat),
            unsigned_value(parts[2], u64::MAX as nat),
        ) {
            (Some(major), Some(minor), Some(patch)) => Some((major, minor, patch)),
            _ => None,
        }
    }
}

/// Whether a version comes after another, by its first number that differs.
pub open spec fn later(a: (nat, nat, nat), b: (nat, nat, nat)) -> bool {
    ||| a.0 > b.0
    ||| a.0 == b.0 && a.1 > b.1
    ||| a.0 == b.0 && a.1 == b.1 && a.2 > b.2
}

fn triple(s: &str) -> (numbers: Option<(u64, u64, u64)>)
    ensures
        (match numbers {
            Some((a, b, c)) => Some((a as nat, b as nat, c as nat)),
            None => None,
        }) == triple_of(s@),
{
    let parts = split(s, '.');
    proof {
        assert(slices_view(parts@).len() == parts@.len());
    }
    if parts.len() != 3 {
        return None;
    }
    proof {
        assert(slices_view(parts@)[0] == parts@[0]@);
        assert(slices_view(parts@)[1] == parts@[1]@);
        assert(slices_view(parts@)[2] == parts@[2]@);
    }
    match parse_unsigned(parts[0], u64::MAX) {
        Some(major) => match parse_unsigned(parts[1], u64::MAX) {
            Some(minor) => match parse_unsigned(parts[2], u64::MAX) {
                Some(patch) => Some((major, minor, patch)),
                None => None,
            },
            None => None,
        },
        None => None,
    }
}

/// Whether a version comes after a baseline. A text that is no version comes after nothing, and
/// nothing comes after it.
pub open spec fn newer(version: Seq<char>, baseline: Seq<char>) -> bool {
    match (triple_of(version), triple_of(baseline)) {
        (Some(v), Some(b)) => later(v, b),
        _ => false,
    }
}

/// Decides [`newer`].
pub fn version_is_newer(version: &str, baseline: &str) -> (found: bool)
    ensures
        found == newer(version@, baseline@),
{
    match triple(version) {
        Some((a, b, c)) => match triple(baseline) {
            Some((x, y, z)) => a > x || (a == x && b > y) || (a == x && b == y && c > z),
            None => false,
        },
        None => false,
    }
}

/// No version comes after itself, and of two versions at most one comes after the other.
pub proof fn law_newer_is_a_strict_order(a: Seq<char>, b: Seq<char>, c: Seq<char>)
    ensures
        !newer(a, a),
        newer(a, b) ==> !newer(b, a),
        newer(a, b) && newer(b, c) ==> newer(a, c),
{
}

/// Whether a character starts what follows a whole version: a mark of a pre-release or of a build.
pub open spec fn starts_suffix(c: char) -> bool {
    c == '-' || c == '+'
}

/// Whether a text is a number in digits alone.
pub open spec fn numeric(s: Seq<char>) -> bool {
    s.len() > 0 && crate::number::all_digits(s)
}

/// The version that a user agent of the form `originator/version ...` tells, without what marks a
/// pre-release or a build, where that is three numbers.
pub open spec fn agent_version(user_agent: Seq<char>) -> Option<Seq<char>> {
    match first_word_of(user_agent) {
        Some(word) => match cut_at_last(word, '/') {
            Some((_, version)) => {
                let whole = version.take(first_where(version, |c: char| starts_suffix(c)) as int);
                let parts = parts_of(whole, '.');
                if parts.len() == 3 && numeric(parts[0]) && numeric(parts[1]) && numeric(parts[2]) {
                    Some(parts[0] + "."@ + parts[1] + "."@ + parts[2])
                } else {
                    None
                }
            },
            None => None,
        },
        None => None,
    }
}

fn is_numeric(s: &str) -> (found: bool)
    ensures
        found == numeric(s@),
{
    let n: usize = s.unicode_len();
    let mut i: usize = 0;
    while i < n
        invariant
            n == s@.len(),
            i <= n,
            forall|j: int| 0 <= j < i ==> is_digit(#[trigger] s@[j]),
        decreases n - i,
    {
        let c = s.get_char(i);
        if !('0' <= c && c <= '9') {
            proof {
                assert(!is_digit(s@[i as int]));
            }
            return false;
        }
        i = i + 1;
    }
    n > 0
}

fn whole_version(version: &str) -> (whole: &str)
    ensures
        whole@ == version@.take(first_where(version@, |c: char| starts_suffix(c)) as int),
{
    let n: usize = version.unicode_len();
    let mut i: usize = 0;
    while i < n && version.get_char(i) != '-' && version.get_char(i) != '+'
        invariant
            n == version@.len(),
            i <= n,
            forall|j: int| 0 <= j < i ==> !starts_suffix(#[trigger] version@[j]),
        decreases n - i,
    {
        i = i + 1;
    }
    proof {
        lemma_is_first_where(version@, |c: char| starts_suffix(c), i as int);
    }
    let whole = version.substring_char(0, i);
    proof {
        assert(whole@ == version@.take(i as int));
    }
    whole
}

/// The version that a user agent tells.
pub fn codex_version_from_user_agent(user_agent: &str) -> (version: Option<String>)
    ensures
        opt_chars(version) == agent_version(user_agent@),
{
    let word = match first_word(user_agent) {
        Some(word) => word,
        None => {
            return None;
        },
    };
    let (_, version) = match rsplit_once(word, '/') {
        Some(parts) => parts,
        None => {
            return None;
        },
    };
    let whole = whole_version(version);
    let parts = split(whole, '.');
    proof {
        assert(slices_view(parts@).len() == parts@.len());
    }
    if parts.len() != 3 {
        return None;
    }
    proof {
        assert(slices_view(parts@)[0] == parts@[0]@);
        assert(slices_view(parts@)[1] == parts@[1]@);
        assert(slices_view(parts@)[2] == parts@[2]@);
    }
    if !is_numeric(parts[0]) || !is_numeric(parts[1]) || !is_numeric(parts[2]) {
        return None;
    }
    let mut text = parts[0].to_owned();
    text.append(".");
    text.append(parts[1]);
    text.append(".");
    text.append(parts[2]);
    Some(text)
}

/// `codex_codes::version::tested_cli_version` gives the release of the app-server that the
/// bindings were last tested against, which in this version of the crate is `0.151.0`.
#[verifier::external_body]
pub(crate) fn tested_cli_version() -> (version: &'static str)
    ensures
        version@ == "0.151.0"@,
{
    codex_codes::version::tested_cli_version()
}

/// Whether the running app-server is newer than the release that the bindings were tested against,
/// in which case it may send what is not known here.
pub fn codex_is_newer_than_tested(version: &str) -> (found: bool)
    ensures
        found == newer(version@, "0.151.0"@),
{
    version_is_newer(version, tested_cli_version())
}

} // verus!
