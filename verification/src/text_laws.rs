//! What holds of trimming, joining and splitting texts, and of numbers in writing.

use vstd::prelude::*;

use crate::ids::id_chars;
use crate::number::{
    all_digits, decimal, digit_char, digit_value, digits_value, padded_hex, reads_as_i32,
    signed_decimal, signed_value, two_digits,
};
use crate::split::{
    cut_at, cut_at_last, first_of, first_where, first_word_of, is_char, last_of, lemma_first_where,
    lemma_is_first_where, lines_of, parts_of, without_leading, without_trailing,
};
use crate::text::{
    is_alphanumeric, is_blank, is_digit, is_space, joined, trimmed, trimmed_end, trimmed_start,
};

verus! {

/// Blanks and line breaks are white space, and what is seen in print is not. Letters and digits are
/// those of ASCII.
pub proof fn law_characters_are_what_they_look_like(c: char)
    ensures
        is_space(' ') && is_space('\n') && is_space('\r') && is_space('\t'),
        '!' <= c <= '~' ==> !is_space(c),
        is_digit(c) <==> '0' <= c <= '9',
        is_alphanumeric(c) <==> '0' <= c <= '9' || 'A' <= c <= 'Z' || 'a' <= c <= 'z',
        is_alphanumeric(c) ==> !is_space(c),
{
}

proof fn lemma_start(s: Seq<char>) -> (a: int)
    ensures
        0 <= a <= s.len(),
        trimmed_start(s) == s.skip(a),
        forall|i: int| 0 <= i < a ==> is_space(#[trigger] s[i]),
        a < s.len() ==> !is_space(s[a]),
    decreases s.len(),
{
    if s.len() > 0 && is_space(s[0]) {
        let rest = s.drop_first();
        let b = lemma_start(rest);
        assert(s.skip(b + 1) =~= rest.skip(b));
        assert forall|i: int| 0 <= i < b + 1 implies is_space(#[trigger] s[i]) by {
            if i > 0 {
                assert(rest[i - 1] == s[i]);
            }
        }
        b + 1
    } else {
        assert(s.skip(0) =~= s);
        0
    }
}

proof fn lemma_end(s: Seq<char>) -> (b: int)
    ensures
        0 <= b <= s.len(),
        trimmed_end(s) == s.take(b),
        forall|i: int| b <= i < s.len() ==> is_space(#[trigger] s[i]),
        b > 0 ==> !is_space(s[b - 1]),
    decreases s.len(),
{
    if s.len() > 0 && is_space(s.last()) {
        let rest = s.drop_last();
        let b = lemma_end(rest);
        assert(s.take(b) =~= rest.take(b));
        assert forall|i: int| b <= i < s.len() implies is_space(#[trigger] s[i]) by {
            if i < s.len() - 1 {
                assert(rest[i] == s[i]);
            }
        }
        b
    } else {
        assert(s.take(s.len() as int) =~= s);
        s.len() as int
    }
}

/// Trimming takes away white space at both ends and nothing else: what is left stands together in
/// the text, and neither starts nor ends with white space.
pub proof fn law_trimming_loses_only_white_space(s: Seq<char>) -> (cut: (int, int))
    ensures
        0 <= cut.0 <= cut.1 <= s.len(),
        trimmed(s) == s.subrange(cut.0, cut.1),
        forall|i: int| 0 <= i < cut.0 || cut.1 <= i < s.len() ==> is_space(#[trigger] s[i]),
        cut.0 < cut.1 ==> !is_space(s[cut.0]) && !is_space(s[cut.1 - 1]),
{
    let a = lemma_start(s);
    let rest = s.skip(a);
    let b = lemma_end(rest);
    assert(rest.take(b) =~= s.subrange(a, a + b));
    assert forall|i: int| 0 <= i < a || a + b <= i < s.len() implies is_space(#[trigger] s[i]) by {
        if a + b <= i {
            assert(rest[i - a] == s[i]);
        }
    }
    if b > 0 {
        assert(rest[b - 1] == s[a + b - 1]);
    }
    (a, a + b)
}

/// A text is blank where all of it is white space, and only there.
pub proof fn law_blank_is_all_white_space(s: Seq<char>)
    ensures
        is_blank(s) <==> forall|i: int| 0 <= i < s.len() ==> is_space(#[trigger] s[i]),
{
    let cut = law_trimming_loses_only_white_space(s);
    if cut.0 < cut.1 {
        assert(!is_space(s[cut.0]));
    }
}

/// Nothing joined is nothing, and what is joined last stands last, behind a separator where
/// something stands before it.
pub proof fn law_joining_keeps_every_part(
    parts: Seq<Seq<char>>,
    last: Seq<char>,
    separator: Seq<char>,
)
    ensures
        joined(Seq::empty(), separator) == Seq::<char>::empty(),
        parts.len() == 0 ==> joined(parts.push(last), separator) == last,
        parts.len() > 0 ==> joined(parts.push(last), separator) == joined(parts, separator)
            + separator + last,
{
    assert(parts.push(last).drop_last() =~= parts);
}

/// A text is cut at the first place of a character: the two sides and the character between them
/// are the text, and the left side does not hold it. A text that does not hold it is not cut.
pub proof fn law_cut_is_at_the_first_place(s: Seq<char>, c: char)
    ensures
        cut_at(s, c) is None <==> !s.contains(c),
        cut_at(s, c) matches Some((head, tail)) ==> s == head.push(c) + tail && !head.contains(c),
{
    lemma_first_where(s, is_char(c));
    let at = first_of(s, c) as int;
    if at < s.len() {
        assert(s[at] == c);
        assert(s =~= s.take(at).push(c) + s.skip(at + 1));
        let head = s.take(at);
        assert forall|i: int| 0 <= i < head.len() implies #[trigger] head[i] != c by {
            assert(!is_char(c)(s[i]));
        }
    } else {
        assert forall|i: int| 0 <= i < s.len() implies #[trigger] s[i] != c by {
            assert(!is_char(c)(s[i]));
        }
    }
}

/// A text is cut at the last place of a character where that is asked: then the right side does not
/// hold it.
pub proof fn law_cut_is_at_the_last_place(s: Seq<char>, c: char)
    ensures
        cut_at_last(s, c) is None <==> !s.contains(c),
        cut_at_last(s, c) matches Some((head, tail)) ==> s == head.push(c) + tail && !tail.contains(
            c,
        ),
{
    lemma_last_of(s, c);
    let at = last_of(s, c);
    if at >= 0 {
        assert(s[at] == c);
        assert(s =~= s.take(at).push(c) + s.skip(at + 1));
        let tail = s.skip(at + 1);
        assert forall|i: int| 0 <= i < tail.len() implies #[trigger] tail[i] != c by {
            assert(s[at + 1 + i] != c);
        }
    }
}

proof fn lemma_last_of(s: Seq<char>, c: char)
    ensures
        -1 <= last_of(s, c) < s.len(),
        last_of(s, c) >= 0 ==> s[last_of(s, c)] == c,
        forall|i: int| last_of(s, c) < i < s.len() ==> #[trigger] s[i] != c,
    decreases s.len(),
{
    if s.len() > 0 && s.last() != c {
        lemma_last_of(s.drop_last(), c);
        assert forall|i: int| last_of(s, c) < i < s.len() implies #[trigger] s[i] != c by {
            if i < s.len() - 1 {
                assert(s.drop_last()[i] == s[i]);
            }
        }
    }
}

proof fn lemma_joined_front(head: Seq<char>, rest: Seq<Seq<char>>, separator: Seq<char>)
    requires
        rest.len() > 0,
    ensures
        joined(seq![head] + rest, separator) == head + separator + joined(rest, separator),
    decreases rest.len(),
{
    let all = seq![head] + rest;
    if rest.len() == 1 {
        assert(all.drop_last() =~= seq![head]);
        assert(joined(all.drop_last(), separator) == head);
        assert(joined(rest, separator) == rest[0]);
    } else {
        lemma_joined_front(head, rest.drop_last(), separator);
        assert(all.drop_last() =~= seq![head] + rest.drop_last());
        assert(joined(all, separator) =~= head + separator + joined(rest, separator));
    }
}

/// The parts of a text, joined again by the character between them, are the text, and none of them
/// holds the character.
pub proof fn law_parts_make_up_the_text(s: Seq<char>, c: char)
    ensures
        parts_of(s, c).len() > 0,
        joined(parts_of(s, c), seq![c]) == s,
        forall|i: int| 0 <= i < parts_of(s, c).len() ==> !(#[trigger] parts_of(s, c)[i]).contains(c),
    decreases s.len(),
{
    law_cut_is_at_the_first_place(s, c);
    match cut_at(s, c) {
        Some((head, tail)) => {
            law_parts_make_up_the_text(tail, c);
            lemma_joined_front(head, parts_of(tail, c), seq![c]);
            assert(head + seq![c] + tail =~= head.push(c) + tail);
            let all = parts_of(s, c);
            assert(all =~= seq![head] + parts_of(tail, c));
            assert forall|i: int| 0 <= i < all.len() implies !(#[trigger] all[i]).contains(c) by {
                if i > 0 {
                    assert(all[i] == parts_of(tail, c)[i - 1]);
                }
            }
        },
        None => {},
    }
}

proof fn lemma_cut_of(head: Seq<char>, c: char, tail: Seq<char>)
    requires
        !head.contains(c),
    ensures
        cut_at(head.push(c) + tail, c) == Some((head, tail)),
{
    let s = head.push(c) + tail;
    assert forall|i: int| 0 <= i < head.len() implies !is_char(c)(#[trigger] s[i]) by {
        assert(head[i] != c);
        assert(s[i] == head[i]);
    }
    lemma_is_first_where(s, is_char(c), head.len() as int);
    assert(s.take(head.len() as int) =~= head);
    assert(s.skip((head.len() + 1) as int) =~= tail);
}

/// A line stands before its end, and the lines after it follow. A carriage return before the end of
/// a line is not part of it, and a last line needs no end.
pub proof fn law_lines_follow_each_other(line: Seq<char>, rest: Seq<char>)
    requires
        !line.contains('\n'),
    ensures
        lines_of(Seq::empty()).len() == 0,
        line.len() > 0 ==> lines_of(line) == seq![line],
        (line.len() == 0 || line.last() != '\r') ==> lines_of(line.push('\n') + rest) == seq![line]
            + lines_of(rest),
        lines_of(line.push('\r').push('\n') + rest) == seq![line] + lines_of(rest),
{
    law_cut_is_at_the_first_place(line, '\n');
    lemma_cut_of(line, '\n', rest);
    let returned = line.push('\r');
    assert(!returned.contains('\n')) by {
        assert forall|i: int| 0 <= i < returned.len() implies #[trigger] returned[i] != '\n' by {
            if i < line.len() {
                assert(line[i] != '\n');
            }
        }
    }
    lemma_cut_of(returned, '\n', rest);
    assert(returned.drop_last() =~= line);
}

/// The first word of a text holds no white space. Only white space stands before it, and behind it
/// the text ends or white space follows. A text without a word is blank.
pub proof fn law_first_word_stands_between_white_space(s: Seq<char>) -> (place: (int, int))
    ensures
        first_word_of(s) is None ==> forall|i: int| 0 <= i < s.len() ==> is_space(#[trigger] s[i]),
        first_word_of(s) matches Some(word) ==> {
            &&& 0 <= place.0 < place.1 <= s.len()
            &&& word == s.subrange(place.0, place.1)
            &&& forall|i: int| 0 <= i < place.0 ==> is_space(#[trigger] s[i])
            &&& forall|i: int| place.0 <= i < place.1 ==> !is_space(#[trigger] s[i])
            &&& place.1 < s.len() ==> is_space(s[place.1])
        },
{
    let a = lemma_start(s);
    let t = s.skip(a);
    let p = |c: char| is_space(c);
    lemma_first_where(t, p);
    let n = first_where(t, p) as int;
    if t.len() > 0 {
        assert(!is_space(s[a]));
        assert(t[0] == s[a]);
        if n == 0 {
            assert(p(t[0]));
        }
        assert(t.take(n) =~= s.subrange(a, a + n));
        assert forall|i: int| a <= i < a + n implies !is_space(#[trigger] s[i]) by {
            assert(!p(t[i - a]));
        }
        if n < t.len() {
            assert(p(t[n]));
            assert(t[n] == s[a + n]);
        }
    }
    (a, a + n)
}

/// A character is taken away from one end of a text until something else stands there.
pub proof fn law_leading_and_trailing_are_taken_away(s: Seq<char>, c: char) -> (cut: (int, int))
    ensures
        0 <= cut.0 <= s.len(),
        without_leading(s, c) == s.skip(cut.0),
        forall|i: int| 0 <= i < cut.0 ==> #[trigger] s[i] == c,
        cut.0 < s.len() ==> s[cut.0] != c,
        0 <= cut.1 <= s.len(),
        without_trailing(s, c) == s.take(cut.1),
        forall|i: int| cut.1 <= i < s.len() ==> #[trigger] s[i] == c,
        cut.1 > 0 ==> s[cut.1 - 1] != c,
{
    let p = crate::split::is_not_char(c);
    lemma_first_where(s, p);
    let a = first_where(s, p) as int;
    assert forall|i: int| 0 <= i < a implies #[trigger] s[i] == c by {
        assert(!p(s[i]));
    }
    if a < s.len() {
        assert(p(s[a]));
    }
    let b = lemma_without_trailing(s, c);
    (a, b)
}

proof fn lemma_without_trailing(s: Seq<char>, c: char) -> (b: int)
    ensures
        0 <= b <= s.len(),
        without_trailing(s, c) == s.take(b),
        forall|i: int| b <= i < s.len() ==> #[trigger] s[i] == c,
        b > 0 ==> s[b - 1] != c,
    decreases s.len(),
{
    if s.len() > 0 && s.last() == c {
        let rest = s.drop_last();
        let b = lemma_without_trailing(rest, c);
        assert(s.take(b) =~= rest.take(b));
        assert forall|i: int| b <= i < s.len() implies #[trigger] s[i] == c by {
            if i < s.len() - 1 {
                assert(rest[i] == s[i]);
            }
        }
        b
    } else {
        assert(s.take(s.len() as int) =~= s);
        s.len() as int
    }
}

/// A number that is written in decimal digits is read as itself.
pub proof fn law_number_comes_back_from_writing(n: nat)
    ensures
        decimal(n).len() > 0,
        all_digits(decimal(n)),
        digits_value(decimal(n)) == n,
        n > 0 ==> decimal(n)[0] != '0',
    decreases n,
{
    lemma_digit((n % 10) as int);
    if n < 10 {
        assert(decimal(n).drop_last() =~= Seq::<char>::empty());
        assert(digits_value(Seq::<char>::empty()) == 0);
    } else {
        law_number_comes_back_from_writing(n / 10);
        assert(decimal(n).drop_last() =~= decimal(n / 10));
        assert forall|i: int| 0 <= i < decimal(n).len() implies is_digit(
            #[trigger] decimal(n)[i],
        ) by {
            if i < decimal(n / 10).len() {
                assert(decimal(n)[i] == decimal(n / 10)[i]);
            }
        }
    }
}

proof fn lemma_digit(d: int)
    requires
        0 <= d < 10,
    ensures
        is_digit(digit_char(d)),
        digit_value(digit_char(d)) == d,
        d > 0 ==> digit_char(d) != '0',
{
}

/// A whole number of 64 bits that is written with its sign is read as itself.
pub proof fn law_signed_number_comes_back_from_writing(n: i64)
    ensures
        signed_value(signed_decimal(n as int)) == Some(n as int),
{
    if n < 0 {
        let m = (-n) as nat;
        law_number_comes_back_from_writing(m);
        assert(signed_decimal(n as int).drop_first() =~= decimal(m));
    } else {
        law_number_comes_back_from_writing(n as nat);
        assert(is_digit(decimal(n as nat)[0]));
    }
}

/// A text is the name of a process in a terminal where it is a whole number of 32 bits, and only
/// there.
pub proof fn law_terminal_names_are_small_numbers(s: Seq<char>)
    ensures
        reads_as_i32(s) <==> {
            &&& signed_value(s) matches Some(n)
            &&& -0x8000_0000 <= n <= 0x7fff_ffff
        },
{
}

/// Two digits at least are written, with a zero in front where one would do.
pub proof fn law_two_digits_stand_for_the_number(n: nat)
    ensures
        two_digits(n).len() >= 2,
        all_digits(two_digits(n)),
        digits_value(two_digits(n)) == n,
    decreases n,
{
    law_number_comes_back_from_writing(n);
    lemma_digit((n % 10) as int);
    if n < 10 {
        let s = two_digits(n);
        assert(s.drop_last() =~= seq!['0']);
        assert(s.drop_last().drop_last() =~= Seq::<char>::empty());
        assert(digits_value(s.drop_last().drop_last()) == 0);
        assert(digits_value(s.drop_last()) == 0);
    } else {
        law_number_comes_back_from_writing(n / 10);
    }
}

/// Two numbers that are written in the same hexadecimal digits are the same, up to what the digits
/// can hold.
pub proof fn law_hexadecimal_tells_numbers_apart(a: nat, b: nat, len: nat)
    requires
        padded_hex(a, len) == padded_hex(b, len),
    ensures
        padded_hex(a, len).len() == len,
        a < vstd::arithmetic::power::pow(16, len) && b < vstd::arithmetic::power::pow(16, len)
            ==> a == b,
    decreases len,
{
    reveal(vstd::arithmetic::power::pow);
    if len > 0 {
        let shorter = (len - 1) as nat;
        assert(padded_hex(a, len).drop_last() =~= padded_hex(a / 16, shorter));
        assert(padded_hex(b, len).drop_last() =~= padded_hex(b / 16, shorter));
        law_hexadecimal_tells_numbers_apart(a / 16, b / 16, shorter);
        let x = (a % 16) as int;
        let y = (b % 16) as int;
        assert(padded_hex(a, len).last() == digit_char(x));
        assert(padded_hex(b, len).last() == digit_char(y));
        assert(0 <= x < 16 && 0 <= y < 16);
        assert(x == y);
    }
}

/// An identifier is written in thirty-six characters: five groups of hexadecimal digits with a dash
/// between them. Identifiers that differ are written differently.
pub proof fn law_identifiers_are_told_apart(a: u128, b: u128)
    ensures
        id_chars(a).len() == 36,
        id_chars(a)[8] == '-' && id_chars(a)[13] == '-' && id_chars(a)[18] == '-' && id_chars(a)[23]
            == '-',
        id_chars(a) == id_chars(b) ==> a == b,
{
    lemma_groups(a);
    if id_chars(a) == id_chars(b) {
        lemma_groups(b);
        lemma_same_groups(a as nat, b as nat);
    }
}

proof fn lemma_same_groups(n: nat, m: nat)
    requires
        n < 0x1_0000_0000_0000_0000_0000_0000_0000_0000,
        m < 0x1_0000_0000_0000_0000_0000_0000_0000_0000,
        padded_hex(n / 0x1_0000_0000_0000_0000_0000_0000, 8) == padded_hex(
            m / 0x1_0000_0000_0000_0000_0000_0000,
            8,
        ),
        padded_hex((n / 0x1_0000_0000_0000_0000_0000) % 0x1_0000, 4) == padded_hex(
            (m / 0x1_0000_0000_0000_0000_0000) % 0x1_0000,
            4,
        ),
        padded_hex((n / 0x1_0000_0000_0000_0000) % 0x1_0000, 4) == padded_hex(
            (m / 0x1_0000_0000_0000_0000) % 0x1_0000,
            4,
        ),
        padded_hex((n / 0x1_0000_0000_0000) % 0x1_0000, 4) == padded_hex(
            (m / 0x1_0000_0000_0000) % 0x1_0000,
            4,
        ),
        padded_hex(n % 0x1_0000_0000_0000, 12) == padded_hex(m % 0x1_0000_0000_0000, 12),
    ensures
        n == m,
{
    lemma_same_group(
        n / 0x1_0000_0000_0000_0000_0000_0000,
        m / 0x1_0000_0000_0000_0000_0000_0000,
        8,
    );
    lemma_same_group(
        (n / 0x1_0000_0000_0000_0000_0000) % 0x1_0000,
        (m / 0x1_0000_0000_0000_0000_0000) % 0x1_0000,
        4,
    );
    lemma_same_group(
        (n / 0x1_0000_0000_0000_0000) % 0x1_0000,
        (m / 0x1_0000_0000_0000_0000) % 0x1_0000,
        4,
    );
    lemma_same_group(
        (n / 0x1_0000_0000_0000) % 0x1_0000,
        (m / 0x1_0000_0000_0000) % 0x1_0000,
        4,
    );
    lemma_same_group(n % 0x1_0000_0000_0000, m % 0x1_0000_0000_0000, 12);
    lemma_quotient(n as int, m as int, 0x1_0000_0000_0000_0000_0000, 0x1_0000);
    lemma_quotient(n as int, m as int, 0x1_0000_0000_0000_0000, 0x1_0000);
    lemma_quotient(n as int, m as int, 0x1_0000_0000_0000, 0x1_0000);
    vstd::arithmetic::div_mod::lemma_fundamental_div_mod(n as int, 0x1_0000_0000_0000);
    vstd::arithmetic::div_mod::lemma_fundamental_div_mod(m as int, 0x1_0000_0000_0000);
}

proof fn lemma_quotient(n: int, m: int, d: int, c: int)
    requires
        n >= 0,
        m >= 0,
        d > 0,
        c > 0,
        n / (d * c) == m / (d * c),
        (n / d) % c == (m / d) % c,
    ensures
        n / d == m / d,
{
    vstd::arithmetic::div_mod::lemma_div_denominator(n, d, c);
    vstd::arithmetic::div_mod::lemma_div_denominator(m, d, c);
    vstd::arithmetic::div_mod::lemma_fundamental_div_mod(n / d, c);
    vstd::arithmetic::div_mod::lemma_fundamental_div_mod(m / d, c);
}

proof fn lemma_same_group(a: nat, b: nat, len: nat)
    requires
        padded_hex(a, len) == padded_hex(b, len),
        len == 8 ==> a < 0x1_0000_0000 && b < 0x1_0000_0000,
        len == 4 ==> a < 0x1_0000 && b < 0x1_0000,
        len == 12 ==> a < 0x1_0000_0000_0000 && b < 0x1_0000_0000_0000,
        len == 4 || len == 8 || len == 12,
    ensures
        a == b,
{
    law_hexadecimal_tells_numbers_apart(a, b, len);
    lemma_powers_of_sixteen();
}

/// How many numbers four, eight, twelve and sixteen hexadecimal digits tell apart.
pub proof fn lemma_powers_of_sixteen()
    ensures
        vstd::arithmetic::power::pow(16, 4) == 0x1_0000,
        vstd::arithmetic::power::pow(16, 8) == 0x1_0000_0000,
        vstd::arithmetic::power::pow(16, 12) == 0x1_0000_0000_0000,
        vstd::arithmetic::power::pow(16, 16) == 0x1_0000_0000_0000_0000,
{
    reveal(vstd::arithmetic::power::pow);
    assert(vstd::arithmetic::power::pow(16, 0) == 0x1);
    assert(vstd::arithmetic::power::pow(16, 1) == 0x10);
    assert(vstd::arithmetic::power::pow(16, 2) == 0x100);
    assert(vstd::arithmetic::power::pow(16, 3) == 0x1000);
    assert(vstd::arithmetic::power::pow(16, 4) == 0x10000);
    assert(vstd::arithmetic::power::pow(16, 5) == 0x100000);
    assert(vstd::arithmetic::power::pow(16, 6) == 0x1000000);
    assert(vstd::arithmetic::power::pow(16, 7) == 0x10000000);
    assert(vstd::arithmetic::power::pow(16, 8) == 0x100000000);
    assert(vstd::arithmetic::power::pow(16, 9) == 0x1000000000);
    assert(vstd::arithmetic::power::pow(16, 10) == 0x10000000000);
    assert(vstd::arithmetic::power::pow(16, 11) == 0x100000000000);
    assert(vstd::arithmetic::power::pow(16, 12) == 0x1000000000000);
    assert(vstd::arithmetic::power::pow(16, 13) == 0x10000000000000);
    assert(vstd::arithmetic::power::pow(16, 14) == 0x100000000000000);
    assert(vstd::arithmetic::power::pow(16, 15) == 0x1000000000000000);
    assert(vstd::arithmetic::power::pow(16, 16) == 0x10000000000000000);
}

/// As many hexadecimal digits are written as were asked for.
pub proof fn lemma_hex_len(n: nat, len: nat)
    ensures
        padded_hex(n, len).len() == len,
    decreases len,
{
    if len > 0 {
        lemma_hex_len(n / 16, (len - 1) as nat);
    }
}

proof fn lemma_groups(a: u128)
    ensures
        ({
            let n = a as nat;
            let x = id_chars(a);
            &&& x.len() == 36
            &&& x[8] == '-' && x[13] == '-' && x[18] == '-' && x[23] == '-'
            &&& x.subrange(0, 8) == padded_hex(n / 0x1_0000_0000_0000_0000_0000_0000, 8)
            &&& x.subrange(9, 13) == padded_hex(
                (n / 0x1_0000_0000_0000_0000_0000) % 0x1_0000,
                4,
            )
            &&& x.subrange(14, 18) == padded_hex((n / 0x1_0000_0000_0000_0000) % 0x1_0000, 4)
            &&& x.subrange(19, 23) == padded_hex((n / 0x1_0000_0000_0000) % 0x1_0000, 4)
            &&& x.subrange(24, 36) == padded_hex(n % 0x1_0000_0000_0000, 12)
        }),
{
    let n = a as nat;
    let x = id_chars(a);
    reveal_strlit("-");
    lemma_hex_len(n / 0x1_0000_0000_0000_0000_0000_0000, 8);
    lemma_hex_len((n / 0x1_0000_0000_0000_0000_0000) % 0x1_0000, 4);
    lemma_hex_len((n / 0x1_0000_0000_0000_0000) % 0x1_0000, 4);
    lemma_hex_len((n / 0x1_0000_0000_0000) % 0x1_0000, 4);
    lemma_hex_len(n % 0x1_0000_0000_0000, 12);
    assert(x.subrange(0, 8) =~= padded_hex(n / 0x1_0000_0000_0000_0000_0000_0000, 8));
    assert(x.subrange(9, 13) =~= padded_hex((n / 0x1_0000_0000_0000_0000_0000) % 0x1_0000, 4));
    assert(x.subrange(14, 18) =~= padded_hex((n / 0x1_0000_0000_0000_0000) % 0x1_0000, 4));
    assert(x.subrange(19, 23) =~= padded_hex((n / 0x1_0000_0000_0000) % 0x1_0000, 4));
    assert(x.subrange(24, 36) =~= padded_hex(n % 0x1_0000_0000_0000, 12));
}

} // verus!
