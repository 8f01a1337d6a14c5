//! Cutting texts into parts: at characters, at white space, into lines.

use vstd::prelude::*;

use crate::text::{char_is_space, is_space, trimmed_start};

verus! {

/// The position of the first character that satisfies a condition, or the length of the text
/// where none does.
pub open spec fn first_where(s: Seq<char>, p: spec_fn(char) -> bool) -> nat
    decreases s.len(),
{
    if s.len() == 0 || p(s[0]) {
        0
    } else {
        1 + first_where(s.drop_first(), p)
    }
}

/// The condition of being a character.
pub open spec fn is_char(c: char) -> spec_fn(char) -> bool {
    |x: char| x == c
}

/// The condition of not being a character.
pub open spec fn is_not_char(c: char) -> spec_fn(char) -> bool {
    |x: char| x != c
}

/// The position of a character, or the length of the text where it does not occur.
pub open spec fn first_of(s: Seq<char>, c: char) -> nat {
    first_where(s, is_char(c))
}

/// Where [`first_where`] stops, the condition holds, and nowhere before.
pub proof fn lemma_first_where(s: Seq<char>, p: spec_fn(char) -> bool)
    ensures
        first_where(s, p) <= s.len(),
        first_where(s, p) < s.len() ==> p(s[first_where(s, p) as int]),
        forall|i: int| 0 <= i < first_where(s, p) ==> !p(#[trigger] s[i]),
    decreases s.len(),
{
    if s.len() > 0 && !p(s[0]) {
        lemma_first_where(s.drop_first(), p);
        assert forall|i: int| 0 <= i < first_where(s, p) implies !p(#[trigger] s[i]) by {
            if i > 0 {
                assert(s.drop_first()[i - 1] == s[i]);
            }
        }
    }
}

/// A position before which a condition never holds, and at which it holds where there is a
/// character, is the first.
pub proof fn lemma_is_first_where(s: Seq<char>, p: spec_fn(char) -> bool, at: int)
    requires
        0 <= at <= s.len(),
        forall|i: int| 0 <= i < at ==> !p(#[trigger] s[i]),
        at < s.len() ==> p(s[at]),
    ensures
        first_where(s, p) == at,
{
    lemma_first_where(s, p);
    let found = first_where(s, p) as int;
    if found < at {
        assert(!p(s[found]));
    }
    if at < found {
        assert(!p(s[at]));
    }
}

/// The position of a character, or the length of the text where it does not occur.
pub fn index_of(s: &str, c: char) -> (at: usize)
    ensures
        at == first_of(s@, c),
        at <= s@.len(),
{
    let n: usize = s.unicode_len();
    let mut i: usize = 0;
    while i < n && s.get_char(i) != c
        invariant
            n == s@.len(),
            i <= n,
            forall|j: int| 0 <= j < i ==> #[trigger] s@[j] != c,
        decreases n - i,
    {
        i = i + 1;
    }
    proof {
        lemma_is_first_where(s@, is_char(c), i as int);
    }
    i
}

/// What stands before and after the first of a character.
pub open spec fn cut_at(s: Seq<char>, c: char) -> Option<(Seq<char>, Seq<char>)> {
    let at = first_of(s, c) as int;
    if at < s.len() {
        Some((s.take(at), s.skip(at + 1)))
    } else {
        None
    }
}

/// Two texts by their characters.
pub open spec fn pair_view(pair: Option<(&str, &str)>) -> Option<(Seq<char>, Seq<char>)> {
    match pair {
        Some((a, b)) => Some((a@, b@)),
        None => None,
    }
}

/// Cuts a text at the first of a character.
pub fn split_once<'a>(s: &'a str, c: char) -> (parts: Option<(&'a str, &'a str)>)
    ensures
        pair_view(parts) == cut_at(s@, c),
{
    let n: usize = s.unicode_len();
    let at: usize = index_of(s, c);
    if at < n {
        let head = s.substring_char(0, at);
        let tail = s.substring_char(at + 1, n);
        proof {
            assert(head@ == s@.take(at as int));
            assert(tail@ == s@.skip(at + 1));
        }
        Some((head, tail))
    } else {
        None
    }
}

/// The position of the last of a character, or -1 where it does not occur.
pub open spec fn last_of(s: Seq<char>, c: char) -> int
    decreases s.len(),
{
    if s.len() == 0 {
        -1
    } else if s.last() == c {
        s.len() - 1
    } else {
        last_of(s.drop_last(), c)
    }
}

/// What stands before and after the last of a character.
pub open spec fn cut_at_last(s: Seq<char>, c: char) -> Option<(Seq<char>, Seq<char>)> {
    let at = last_of(s, c);
    if at >= 0 {
        Some((s.take(at), s.skip(at + 1)))
    } else {
        None
    }
}

/// Cuts a text at the last of a character.
pub fn rsplit_once<'a>(s: &'a str, c: char) -> (parts: Option<(&'a str, &'a str)>)
    ensures
        pair_view(parts) == cut_at_last(s@, c),
{
    let n: usize = s.unicode_len();
    let mut i: usize = n;
    proof {
        assert(s@.take(n as int) == s@);
    }
    while i > 0
        invariant
            n == s@.len(),
            i <= n,
            last_of(s@, c) == last_of(s@.take(i as int), c),
        decreases i,
    {
        proof {
            assert(s@.take(i as int).last() == s@[i - 1]);
            assert(s@.take(i as int).drop_last() == s@.take(i - 1));
        }
        if s.get_char(i - 1) == c {
            let head = s.substring_char(0, i - 1);
            let tail = s.substring_char(i, n);
            proof {
                assert(head@ == s@.take(i - 1));
                assert(tail@ == s@.skip(i as int));
            }
            return Some((head, tail));
        }
        i = i - 1;
    }
    None
}

/// The parts of a text between the occurrences of a character: one more than there are.
pub open spec fn parts_of(s: Seq<char>, c: char) -> Seq<Seq<char>>
    decreases s.len(),
{
    match cut_at(s, c) {
        Some((head, tail)) => if tail.len() < s.len() {
            seq![head] + parts_of(tail, c)
        } else {
            seq![s]
        },
        None => seq![s],
    }
}

/// Texts by their characters.
pub open spec fn slices_view(parts: Seq<&str>) -> Seq<Seq<char>> {
    parts.map_values(|part: &str| part@)
}

/// Cuts a text at every occurrence of a character.
pub fn split<'a>(s: &'a str, c: char) -> (parts: Vec<&'a str>)
    ensures
        slices_view(parts@) == parts_of(s@, c),
{
    let mut parts: Vec<&'a str> = Vec::new();
    let mut rest: &'a str = s;
    proof {
        assert(slices_view(parts@) + parts_of(rest@, c) =~= parts_of(s@, c));
    }
    loop
        invariant
            slices_view(parts@) + parts_of(rest@, c) == parts_of(s@, c),
        decreases rest@.len(),
    {
        let ghost before = parts@;
        let ghost left = rest@;
        match split_once(rest, c) {
            Some((head, tail)) => {
                parts.push(head);
                rest = tail;
                proof {
                    assert(slices_view(parts@) =~= slices_view(before).push(head@));
                    assert(parts_of(left, c) == seq![head@] + parts_of(tail@, c));
                    assert(slices_view(parts@) + parts_of(rest@, c) =~= slices_view(before)
                        + parts_of(left, c));
                }
            },
            None => {
                parts.push(rest);
                proof {
                    assert(slices_view(parts@) =~= slices_view(before).push(rest@));
                    assert(slices_view(parts@) =~= slices_view(before) + parts_of(rest@, c));
                }
                return parts;
            },
        }
    }
}

/// The first stretch of a text without white space.
pub open spec fn first_word_of(s: Seq<char>) -> Option<Seq<char>> {
    let t = trimmed_start(s);
    if t.len() == 0 {
        None
    } else {
        Some(t.take(first_where(t, |c: char| is_space(c)) as int))
    }
}

/// An optional text by its characters.
pub open spec fn opt_view(text: Option<&str>) -> Option<Seq<char>> {
    match text {
        Some(t) => Some(t@),
        None => None,
    }
}

/// The first stretch of a text without white space.
pub fn first_word<'a>(s: &'a str) -> (word: Option<&'a str>)
    ensures
        opt_view(word) == first_word_of(s@),
{
    let n: usize = s.unicode_len();
    let mut from: usize = 0;
    proof {
        assert(s@.skip(0) == s@);
    }
    while from < n && char_is_space(s.get_char(from))
        invariant
            from <= n,
            n == s@.len(),
            trimmed_start(s@) == trimmed_start(s@.skip(from as int)),
        decreases n - from,
    {
        proof {
            assert(s@.skip(from as int).drop_first() == s@.skip(from + 1));
            assert(s@.skip(from as int)[0] == s@[from as int]);
        }
        from = from + 1;
    }
    proof {
        if from < n {
            assert(s@.skip(from as int)[0] == s@[from as int]);
        }
        assert(trimmed_start(s@) == s@.skip(from as int));
    }
    if from == n {
        return None;
    }
    let ghost t = s@.skip(from as int);
    let mut to: usize = from;
    while to < n && !char_is_space(s.get_char(to))
        invariant
            from <= to <= n,
            n == s@.len(),
            t == s@.skip(from as int),
            forall|j: int| 0 <= j < to - from ==> !is_space(#[trigger] t[j]),
        decreases n - to,
    {
        to = to + 1;
    }
    proof {
        lemma_is_first_where(t, |c: char| is_space(c), to - from);
    }
    let word = s.substring_char(from, to);
    proof {
        assert(word@ == t.take(to - from));
    }
    Some(word)
}

/// The text without its leading occurrences of a character.
pub open spec fn without_leading(s: Seq<char>, c: char) -> Seq<char> {
    s.skip(first_where(s, is_not_char(c)) as int)
}

/// The text without its leading occurrences of a character.
pub fn trim_start_matches<'a>(s: &'a str, c: char) -> (rest: &'a str)
    ensures
        rest@ == without_leading(s@, c),
{
    let n: usize = s.unicode_len();
    let mut i: usize = 0;
    while i < n && s.get_char(i) == c
        invariant
            n == s@.len(),
            i <= n,
            forall|j: int| 0 <= j < i ==> #[trigger] s@[j] == c,
        decreases n - i,
    {
        i = i + 1;
    }
    proof {
        lemma_is_first_where(s@, is_not_char(c), i as int);
    }
    let rest = s.substring_char(i, n);
    proof {
        assert(rest@ == s@.skip(i as int));
    }
    rest
}

/// The text without its trailing occurrences of a character.
pub open spec fn without_trailing(s: Seq<char>, c: char) -> Seq<char>
    decreases s.len(),
{
    if s.len() > 0 && s.last() == c {
        without_trailing(s.drop_last(), c)
    } else {
        s
    }
}

/// The text without its leading and trailing occurrences of a character.
pub fn trim_matches<'a>(s: &'a str, c: char) -> (rest: &'a str)
    ensures
        rest@ == without_trailing(without_leading(s@, c), c),
{
    let t = trim_start_matches(s, c);
    let mut to: usize = t.unicode_len();
    proof {
        assert(t@.take(to as int) == t@);
    }
    while to > 0 && t.get_char(to - 1) == c
        invariant
            to <= t@.len(),
            without_trailing(t@, c) == without_trailing(t@.take(to as int), c),
        decreases to,
    {
        proof {
            assert(t@.take(to as int).last() == t@[to - 1]);
            assert(t@.take(to as int).drop_last() == t@.take(to - 1));
        }
        to = to - 1;
    }
    proof {
        if to > 0 {
            assert(t@.take(to as int).last() == t@[to - 1]);
        }
    }
    let rest = t.substring_char(0, to);
    proof {
        assert(rest@ == t@.take(to as int));
    }
    rest
}

/// A line without the carriage return that ended it together with a line feed.
pub open spec fn without_return(line: Seq<char>) -> Seq<char> {
    if line.len() > 0 && line.last() == '\r' {
        line.drop_last()
    } else {
        line
    }
}

/// The lines of a text. A line ends with a line feed, or a carriage return and a line feed; the
/// last line may end with the text.
pub open spec fn lines_of(s: Seq<char>) -> Seq<Seq<char>>
    decreases s.len(),
{
    if s.len() == 0 {
        Seq::empty()
    } else {
        match cut_at(s, '\n') {
            Some((head, tail)) => if tail.len() < s.len() {
                seq![without_return(head)] + lines_of(tail)
            } else {
                seq![s]
            },
            None => seq![s],
        }
    }
}

/// The lines of a text.
pub fn lines<'a>(s: &'a str) -> (lines: Vec<&'a str>)
    ensures
        slices_view(lines@) == lines_of(s@),
{
    let mut lines: Vec<&'a str> = Vec::new();
    let mut rest: &'a str = s;
    proof {
        assert(slices_view(lines@) + lines_of(rest@) =~= lines_of(s@));
    }
    while !rest.is_empty()
        invariant
            slices_view(lines@) + lines_of(rest@) == lines_of(s@),
        decreases rest@.len(),
    {
        let ghost before = lines@;
        let ghost left = rest@;
        match split_once(rest, '\n') {
            Some((head, tail)) => {
                let m: usize = head.unicode_len();
                let line = if m > 0 && head.get_char(m - 1) == '\r' {
                    head.substring_char(0, m - 1)
                } else {
                    head
                };
                proof {
                    assert(head@.len() > 0 && head@.last() == '\r' ==> head@.subrange(
                        0,
                        head@.len() - 1,
                    ) == head@.drop_last());
                    assert(line@ == without_return(head@));
                }
                lines.push(line);
                rest = tail;
                proof {
                    assert(slices_view(lines@) =~= slices_view(before).push(line@));
                    assert(lines_of(left) == seq![line@] + lines_of(tail@));
                    assert(slices_view(lines@) + lines_of(rest@) =~= slices_view(before)
                        + lines_of(left));
                }
            },
            None => {
                lines.push(rest);
                proof {
                    assert(slices_view(lines@) =~= slices_view(before).push(rest@));
                    assert(slices_view(lines@) =~= slices_view(before) + lines_of(rest@));
                }
                return lines;
            },
        }
    }
    proof {
        assert(slices_view(lines@) =~= slices_view(lines@) + lines_of(rest@));
    }
    lines
}

} // verus!
