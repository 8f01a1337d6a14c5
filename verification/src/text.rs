//! Character predicates and string operations, stated over the characters of a string.

use vstd::prelude::*;

verus! {

/// `String::push` of the standard library appends the given character to the string and
/// changes nothing else.
pub assume_specification[ std::string::String::push ](s: &mut std::string::String, ch: char)
    ensures
        final(s)@ == old(s)@.push(ch),
;

/// Whether a character has the Unicode property `White_Space`.
pub open spec fn is_space(c: char) -> bool {
    ||| '\u{9}' <= c <= '\u{d}'
    ||| c == ' '
    ||| c == '\u{85}'
    ||| c == '\u{a0}'
    ||| c == '\u{1680}'
    ||| '\u{2000}' <= c <= '\u{200a}'
    ||| c == '\u{2028}'
    ||| c == '\u{2029}'
    ||| c == '\u{202f}'
    ||| c == '\u{205f}'
    ||| c == '\u{3000}'
}

/// Decides [`is_space`].
pub fn char_is_space(c: char) -> (found: bool)
    ensures
        found == is_space(c),
{
    ('\u{9}' <= c && c <= '\u{d}') || c == ' ' || c == '\u{85}' || c == '\u{a0}' || c == '\u{1680}'
        || ('\u{2000}' <= c && c <= '\u{200a}') || c == '\u{2028}' || c == '\u{2029}' || c
        == '\u{202f}' || c == '\u{205f}' || c == '\u{3000}'
}

/// Whether a character is an ASCII decimal digit.
pub open spec fn is_digit(c: char) -> bool {
    '0' <= c <= '9'
}

/// Whether a character is an ASCII letter or digit.
pub open spec fn is_alphanumeric(c: char) -> bool {
    ||| is_digit(c)
    ||| 'a' <= c <= 'z'
    ||| 'A' <= c <= 'Z'
}

/// Decides [`is_alphanumeric`].
pub fn char_is_alphanumeric(c: char) -> (found: bool)
    ensures
        found == is_alphanumeric(c),
{
    ('0' <= c && c <= '9') || ('a' <= c && c <= 'z') || ('A' <= c && c <= 'Z')
}

/// The text without its leading white space.
pub open spec fn trimmed_start(s: Seq<char>) -> Seq<char>
    decreases s.len(),
{
    if s.len() > 0 && is_space(s[0]) {
        trimmed_start(s.drop_first())
    } else {
        s
    }
}

/// The text without its trailing white space.
pub open spec fn trimmed_end(s: Seq<char>) -> Seq<char>
    decreases s.len(),
{
    if s.len() > 0 && is_space(s.last()) {
        trimmed_end(s.drop_last())
    } else {
        s
    }
}

/// The text without leading and trailing white space.
pub open spec fn trimmed(s: Seq<char>) -> Seq<char> {
    trimmed_end(trimmed_start(s))
}

/// Whether the text holds nothing but white space.
pub open spec fn is_blank(s: Seq<char>) -> bool {
    trimmed(s).len() == 0
}

/// What is left of a text that was trimmed at its end begins as the text did.
proof fn lemma_trimmed_end_prefix(s: Seq<char>)
    ensures
        trimmed_end(s).len() <= s.len(),
        trimmed_end(s) == s.take(trimmed_end(s).len() as int),
        trimmed_end(s).len() > 0 ==> !is_space(trimmed_end(s).last()),
    decreases s.len(),
{
    if s.len() > 0 && is_space(s.last()) {
        lemma_trimmed_end_prefix(s.drop_last());
        assert(s.drop_last().take(trimmed_end(s).len() as int) == s.take(
            trimmed_end(s).len() as int,
        ));
    } else {
        assert(s.take(s.len() as int) == s);
    }
}

/// What is left of a text that was trimmed at its start does not start with white space.
proof fn lemma_trimmed_start_first(s: Seq<char>)
    ensures
        trimmed_start(s).len() > 0 ==> !is_space(trimmed_start(s)[0]),
    decreases s.len(),
{
    if s.len() > 0 && is_space(s[0]) {
        lemma_trimmed_start_first(s.drop_first());
    }
}

/// A trimmed text has no white space at either end, so trimming it again changes nothing.
pub proof fn lemma_trimmed_is_trim(s: Seq<char>)
    ensures
        trimmed(trimmed(s)) == trimmed(s),
        trimmed(s).len() > 0 ==> !is_space(trimmed(s)[0]) && !is_space(trimmed(s).last()),
{
    let t = trimmed(s);
    lemma_trimmed_start_first(s);
    lemma_trimmed_end_prefix(trimmed_start(s));
    if t.len() > 0 {
        assert(t[0] == trimmed_start(s)[0]);
    }
    assert(trimmed_start(t) == t);
    assert(trimmed_end(t) == t);
}

/// The text with leading and trailing white space removed.
pub fn trim<'a>(s: &'a str) -> (r: &'a str)
    ensures
        r@ == trimmed(s@),
{
    let n: usize = s.unicode_len();
    let mut from: usize = 0;
    proof {
        assert(s@.skip(0) == s@);
    }
    while from < n && char_is_space(s.get_char(from))
        invariant
            from <= n,
            n == s@.len(),
            trimmed_start(s@) == trimmed_start(s@.skip(from as int)),
        decreases n - from,
    {
        proof {
            assert(s@.skip(from as int).drop_first() == s@.skip(from + 1));
            assert(s@.skip(from as int)[0] == s@[from as int]);
        }
        from = from + 1;
    }
    proof {
        if from < n {
            assert(s@.skip(from as int)[0] == s@[from as int]);
        }
        assert(trimmed_start(s@) == s@.skip(from as int));
        assert(s@.subrange(from as int, n as int) == s@.skip(from as int));
    }
    let mut to: usize = n;
    while to > from && char_is_space(s.get_char(to - 1))
        invariant
            from <= to <= n,
            n == s@.len(),
            trimmed(s@) == trimmed_end(s@.subrange(from as int, to as int)),
        decreases to,
    {
        proof {
            let part = s@.subrange(from as int, to as int);
            assert(part.drop_last() == s@.subrange(from as int, to - 1));
            assert(part.last() == s@[to - 1]);
        }
        to = to - 1;
    }
    proof {
        if to > from {
            assert(s@.subrange(from as int, to as int).last() == s@[to - 1]);
        }
    }
    s.substring_char(from, to)
}

/// The trimmed text, or `None` where nothing is left of it.
pub fn trimmed_non_empty<'a>(s: &'a str) -> (r: Option<&'a str>)
    ensures
        r is None <==> is_blank(s@),
        r matches Some(t) ==> t@ == trimmed(s@),
{
    let t = trim(s);
    if t.is_empty() {
        None
    } else {
        Some(t)
    }
}

/// Decides [`is_blank`].
pub fn blank(s: &str) -> (found: bool)
    ensures
        found == is_blank(s@),
{
    trim(s).is_empty()
}

/// Whether two texts hold the same characters.
pub fn same_text(a: &str, b: &str) -> (same: bool)
    ensures
        same == (a@ == b@),
{
    a.to_owned() == b.to_owned()
}

/// Treats an absent and a blank text alike: what is left is neither.
pub fn non_empty(value: Option<String>) -> (kept: Option<String>)
    ensures
        kept == (match value {
            Some(text) => if is_blank(text@) {
                None
            } else {
                Some(text)
            },
            None => None,
        }),
{
    match value {
        Some(text) => if blank(text.as_str()) {
            None
        } else {
            Some(text)
        },
        None => None,
    }
}

/// The characters of a text.
pub fn chars_of(s: &str) -> (chars: Vec<char>)
    ensures
        chars@ == s@,
{
    let mut chars: Vec<char> = Vec::new();
    for c in it: s.chars()
        invariant
            chars@ == s@.take(it.index() as int),
            it.seq() == s@,
    {
        chars.push(c);
        proof {
            assert(chars@ == s@.take(it.index() + 1));
        }
    }
    proof {
        assert(s@.take(s@.len() as int) == s@);
    }
    chars
}

/// The text made of the given characters.
pub fn string_of(chars: &Vec<char>) -> (text: String)
    ensures
        text@ == chars@,
{
    let mut text = String::new();
    let mut i: usize = 0;
    while i < chars.len()
        invariant
            i <= chars@.len(),
            text@ == chars@.take(i as int),
        decreases chars@.len() - i,
    {
        text.push(chars[i]);
        i = i + 1;
        proof {
            assert(chars@.take(i as int) == chars@.take(i - 1).push(chars@[i - 1]));
        }
    }
    proof {
        assert(chars@.take(chars@.len() as int) == chars@);
    }
    text
}

/// The characters of each text of a list.
pub open spec fn views(parts: Seq<String>) -> Seq<Seq<char>> {
    parts.map_values(|part: String| part@)
}

/// The texts one after another, with a separator between each two of them.
pub open spec fn joined(parts: Seq<Seq<char>>, separator: Seq<char>) -> Seq<char>
    decreases parts.len(),
{
    if parts.len() == 0 {
        Seq::empty()
    } else if parts.len() == 1 {
        parts[0]
    } else {
        joined(parts.drop_last(), separator) + separator + parts.last()
    }
}

/// Joins the texts with a separator.
pub fn join(parts: &Vec<String>, separator: &str) -> (text: String)
    ensures
        text@ == joined(views(parts@), separator@),
{
    let mut text = String::new();
    let mut i: usize = 0;
    while i < parts.len()
        invariant
            i <= parts@.len(),
            text@ == joined(views(parts@).take(i as int), separator@),
        decreases parts@.len() - i,
    {
        proof {
            let done = views(parts@).take(i + 1);
            assert(done.drop_last() == views(parts@).take(i as int));
            assert(done.last() == parts@[i as int]@);
            assert(i == 0 ==> views(parts@).take(0) == Seq::<Seq<char>>::empty());
        }
        if i > 0 {
            text.append(separator);
        }
        text.append(parts[i].as_str());
        i = i + 1;
    }
    proof {
        assert(views(parts@).take(parts@.len() as int) == views(parts@));
    }
    text
}

/// One text after another.
pub fn concat(first: &str, second: &str) -> (text: String)
    ensures
        text@ == first@ + second@,
{
    let mut text = first.to_owned();
    text.append(second);
    text
}

/// Three texts one after another.
pub fn concat3(first: &str, second: &str, third: &str) -> (text: String)
    ensures
        text@ == first@ + second@ + third@,
{
    let mut text = first.to_owned();
    text.append(second);
    text.append(third);
    text
}

/// Whether `needle` stands in `text` at character `at`.
pub open spec fn occurs_at(text: Seq<char>, needle: Seq<char>, at: int) -> bool {
    &&& 0 <= at
    &&& at + needle.len() <= text.len()
    &&& text.subrange(at, at + needle.len() as int) == needle
}

/// Whether `needle` stands anywhere in `text`.
pub open spec fn occurs_in(text: Seq<char>, needle: Seq<char>) -> bool {
    exists|at: int| occurs_at(text, needle, at)
}

/// Whether a text contains another.
pub fn contains(text: &str, needle: &str) -> (found: bool)
    ensures
        found == occurs_in(text@, needle@),
{
    let n: usize = text.unicode_len();
    let m: usize = needle.unicode_len();
    if m > n {
        return false;
    }
    let mut at: usize = 0;
    while at <= n - m
        invariant
            n == text@.len(),
            m == needle@.len(),
            m <= n,
            at <= n - m + 1,
            forall|i: int| 0 <= i < at ==> !occurs_at(text@, needle@, i),
        decreases n - m + 1 - at,
    {
        if same_text(text.substring_char(at, at + m), needle) {
            proof {
                assert(occurs_at(text@, needle@, at as int));
            }
            return true;
        }
        if at == n - m {
            return false;
        }
        at = at + 1;
    }
    false
}

/// Whether a text begins with another.
pub open spec fn begins_with(text: Seq<char>, prefix: Seq<char>) -> bool {
    occurs_at(text, prefix, 0)
}

/// Decides [`begins_with`].
pub fn starts_with(text: &str, prefix: &str) -> (found: bool)
    ensures
        found == begins_with(text@, prefix@),
{
    let n: usize = text.unicode_len();
    let m: usize = prefix.unicode_len();
    m <= n && same_text(text.substring_char(0, m), prefix)
}

/// What follows a prefix, or `None` where the text does not begin with it.
pub fn strip_prefix<'a>(text: &'a str, prefix: &str) -> (rest: Option<&'a str>)
    ensures
        rest is Some <==> begins_with(text@, prefix@),
        rest matches Some(r) ==> r@ == text@.skip(prefix@.len() as int),
{
    let n: usize = text.unicode_len();
    let m: usize = prefix.unicode_len();
    if m <= n && same_text(text.substring_char(0, m), prefix) {
        let rest = text.substring_char(m, n);
        proof {
            assert(rest@ == text@.skip(m as int));
        }
        Some(rest)
    } else {
        None
    }
}

} // verus!
