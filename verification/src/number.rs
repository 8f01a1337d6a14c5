//! Decimal and hexadecimal texts of integers.

use vstd::prelude::*;

use crate::text::is_digit;

verus! {

/// The character of a digit below sixteen, in lower case.
pub open spec fn digit_char(d: int) -> char {
    if d == 0 {
        '0'
    } else if d == 1 {
        '1'
    } else if d == 2 {
        '2'
    } else if d == 3 {
        '3'
    } else if d == 4 {
        '4'
    } else if d == 5 {
        '5'
    } else if d == 6 {
        '6'
    } else if d == 7 {
        '7'
    } else if d == 8 {
        '8'
    } else if d == 9 {
        '9'
    } else if d == 10 {
        'a'
    } else if d == 11 {
        'b'
    } else if d == 12 {
        'c'
    } else if d == 13 {
        'd'
    } else if d == 14 {
        'e'
    } else {
        'f'
    }
}

/// The character of a digit below sixteen.
pub fn digit(d: u64) -> (c: char)
    ensures
        c == digit_char(d as int),
{
    match d {
        0 => '0',
        1 => '1',
        2 => '2',
        3 => '3',
        4 => '4',
        5 => '5',
        6 => '6',
        7 => '7',
        8 => '8',
        9 => '9',
        10 => 'a',
        11 => 'b',
        12 => 'c',
        13 => 'd',
        14 => 'e',
        _ => 'f',
    }
}

/// The decimal text of a number, without leading zeros.
pub open spec fn decimal(n: nat) -> Seq<char>
    decreases n,
{
    if n < 10 {
        seq![digit_char(n as int)]
    } else {
        decimal(n / 10).push(digit_char((n % 10) as int))
    }
}

/// The decimal text of an integer, with a leading minus sign where it is negative.
pub open spec fn signed_decimal(n: int) -> Seq<char> {
    if n < 0 {
        seq!['-'] + decimal((-n) as nat)
    } else {
        decimal(n as nat)
    }
}

/// The decimal text of a number.
pub fn u64_text(n: u64) -> (text: String)
    ensures
        text@ == decimal(n as nat),
    decreases n,
{
    if n < 10 {
        let mut text = String::new();
        text.push(digit(n));
        text
    } else {
        let mut text = u64_text(n / 10);
        text.push(digit(n % 10));
        text
    }
}

/// The decimal text of an integer.
pub fn i64_text(n: i64) -> (text: String)
    ensures
        text@ == signed_decimal(n as int),
{
    if n < 0 {
        let mut text = String::new();
        text.push('-');
        if n == i64::MIN {
            text.append(u64_text(9223372036854775808).as_str());
        } else {
            text.append(u64_text((-n) as u64).as_str());
        }
        proof {
            assert(text@ == seq!['-'] + decimal((-n) as nat));
        }
        text
    } else {
        u64_text(n as u64)
    }
}

/// The lower-case hexadecimal text of a number, padded with zeros to the given length.
pub open spec fn padded_hex(n: nat, len: nat) -> Seq<char>
    decreases len,
{
    if len == 0 {
        Seq::empty()
    } else {
        padded_hex(n / 16, (len - 1) as nat).push(digit_char((n % 16) as int))
    }
}

/// The hexadecimal text of a number in `len` characters.
pub fn hex_text(n: u64, len: u32) -> (text: String)
    ensures
        text@ == padded_hex(n as nat, len as nat),
    decreases len,
{
    if len == 0 {
        String::new()
    } else {
        let mut text = hex_text(n / 16, len - 1);
        text.push(digit(n % 16));
        text
    }
}

/// The decimal text of a number, padded with a zero to two characters.
pub open spec fn two_digits(n: nat) -> Seq<char> {
    if n < 10 {
        seq!['0', digit_char(n as int)]
    } else {
        decimal(n)
    }
}

/// The decimal text of a number in at least two characters.
pub fn two_digit_text(n: u64) -> (text: String)
    ensures
        text@ == two_digits(n as nat),
{
    if n < 10 {
        let mut text = String::new();
        text.push('0');
        text.push(digit(n));
        proof {
            assert(text@ == two_digits(n as nat));
        }
        text
    } else {
        u64_text(n)
    }
}

/// The value of a decimal digit.
pub open spec fn digit_value(c: char) -> nat {
    (c as int - '0' as int) as nat
}

/// Whether a text holds decimal digits and nothing else.
pub open spec fn all_digits(s: Seq<char>) -> bool {
    forall|i: int| 0 <= i < s.len() ==> is_digit(#[trigger] s[i])
}

/// The number that a text of decimal digits stands for.
pub open spec fn digits_value(s: Seq<char>) -> nat
    decreases s.len(),
{
    if s.len() == 0 {
        0
    } else {
        digits_value(s.drop_last()) * 10 + digit_value(s.last())
    }
}

/// The digits of an unsigned number, which may follow one plus sign.
pub open spec fn unsigned_digits(s: Seq<char>) -> Seq<char> {
    if s.len() > 0 && s[0] == '+' {
        s.drop_first()
    } else {
        s
    }
}

/// The unsigned number that a text stands for, where it is at most `max`: digits, at least one
/// of them, which may follow one plus sign.
pub open spec fn unsigned_value(s: Seq<char>, max: nat) -> Option<nat> {
    let digits = unsigned_digits(s);
    if digits.len() > 0 && all_digits(digits) && digits_value(digits) <= max {
        Some(digits_value(digits))
    } else {
        None
    }
}

/// Cutting digits off the end makes the value no larger.
proof fn lemma_prefix_value(s: Seq<char>, k: int)
    requires
        0 <= k <= s.len(),
    ensures
        digits_value(s.take(k)) <= digits_value(s),
    decreases s.len(),
{
    if k == s.len() {
        assert(s.take(k) == s);
    } else {
        lemma_prefix_value(s.drop_last(), k);
        assert(s.drop_last().take(k) == s.take(k));
    }
}

/// Reads an unsigned number of at most `max`.
pub fn parse_unsigned(s: &str, max: u64) -> (value: Option<u64>)
    ensures
        (match value {
            Some(v) => unsigned_value(s@, max as nat) == Some(v as nat),
            None => unsigned_value(s@, max as nat) is None,
        }),
{
    let n: usize = s.unicode_len();
    let skip: usize = if n > 0 && s.get_char(0) == '+' {
        1
    } else {
        0
    };
    let ghost digits = unsigned_digits(s@);
    proof {
        assert(digits == s@.skip(skip as int));
    }
    if skip == n {
        return None;
    }
    let mut value: u64 = 0;
    let mut i: usize = skip;
    proof {
        assert(digits.take(0) == Seq::<char>::empty());
    }
    while i < n
        invariant
            skip <= i <= n,
            n == s@.len(),
            skip < n,
            digits == s@.skip(skip as int),
            digits == unsigned_digits(s@),
            value <= max,
            value == digits_value(digits.take(i - skip)),
            all_digits(digits.take(i - skip)),
        decreases n - i,
    {
        let c = s.get_char(i);
        proof {
            assert(digits[i - skip] == c);
            assert(digits.take(i - skip + 1).drop_last() == digits.take(i - skip));
            assert(digits.take(i - skip + 1).last() == c);
        }
        if !('0' <= c && c <= '9') {
            return None;
        }
        let d: u64 = (c as u64) - 48;
        proof {
            assert(digits_value(digits.take(i - skip + 1)) == value * 10 + d);
            lemma_prefix_value(digits, i - skip + 1);
        }
        match value.checked_mul(10) {
            Some(scaled) => match scaled.checked_add(d) {
                Some(next) => {
                    if next > max {
                        return None;
                    }
                    value = next;
                },
                None => {
                    return None;
                },
            },
            None => {
                return None;
            },
        }
        i = i + 1;
        proof {
            assert(all_digits(digits.take(i - skip))) by {
                assert forall|j: int| 0 <= j < digits.take(i - skip).len() implies is_digit(
                    #[trigger] digits.take(i - skip)[j],
                ) by {
                    if j < i - skip - 1 {
                        assert(digits.take(i - skip - 1)[j] == digits.take(i - skip)[j]);
                    }
                }
            }
        }
    }
    proof {
        assert(digits.take(n - skip) == digits);
    }
    Some(value)
}

/// Whether a text reads as a signed number of thirty-two bits: digits, at least one of them,
/// which may follow one plus or minus sign, with a value in range.
pub open spec fn reads_as_i32(s: Seq<char>) -> bool {
    if s.len() > 0 && s[0] == '-' {
        let digits = s.drop_first();
        digits.len() > 0 && all_digits(digits) && digits_value(digits) <= 0x8000_0000
    } else {
        unsigned_value(s, 0x7fff_ffff) is Some
    }
}

/// Decides [`reads_as_i32`].
pub fn parses_as_i32(s: &str) -> (parses: bool)
    ensures
        parses == reads_as_i32(s@),
{
    let n: usize = s.unicode_len();
    if n > 0 && s.get_char(0) == '-' {
        let rest = s.substring_char(1, n);
        proof {
            assert(rest@ == s@.drop_first());
        }
        if n > 1 && rest.get_char(0) == '+' {
            proof {
                assert(rest@[0] == '+');
                assert(!is_digit(rest@[0]));
            }
            return false;
        }
        parse_unsigned(rest, 0x8000_0000).is_some()
    } else {
        parse_unsigned(s, 0x7fff_ffff).is_some()
    }
}

/// The signed number of sixty-four bits that a text stands for: digits, at least one of them, which
/// may follow one plus or minus sign, with a value in range.
pub open spec fn signed_value(s: Seq<char>) -> Option<int> {
    if s.len() > 0 && s[0] == '-' {
        let digits = s.drop_first();
        if digits.len() > 0 && all_digits(digits) && digits_value(digits) <= 0x8000_0000_0000_0000 {
            Some(-(digits_value(digits) as int))
        } else {
            None
        }
    } else {
        match unsigned_value(s, 0x7fff_ffff_ffff_ffff) {
            Some(value) => Some(value as int),
            None => None,
        }
    }
}

/// Reads a signed number.
pub fn parse_signed(s: &str) -> (value: Option<i64>)
    ensures
        (match value {
            Some(v) => signed_value(s@) == Some(v as int),
            None => signed_value(s@) is None,
        }),
{
    let n: usize = s.unicode_len();
    if n > 0 && s.get_char(0) == '-' {
        let rest = s.substring_char(1, n);
        proof {
            assert(rest@ == s@.drop_first());
        }
        if n > 1 && rest.get_char(0) == '+' {
            proof {
                assert(rest@[0] == '+');
                assert(!is_digit(rest@[0]));
            }
            return None;
        }
        match parse_unsigned(rest, 0x8000_0000_0000_0000) {
            Some(value) => if value == 0x8000_0000_0000_0000 {
                Some(i64::MIN)
            } else {
                Some(-(value as i64))
            },
            None => None,
        }
    } else {
        match parse_unsigned(s, 0x7fff_ffff_ffff_ffff) {
            Some(value) => Some(value as i64),
            None => None,
        }
    }
}

} // verus!
