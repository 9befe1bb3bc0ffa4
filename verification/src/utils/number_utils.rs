//! Numbers as text: decimal notation, written and read.

use crate::utils::text_utils::to_chars;
use vstd::prelude::*;

verus! {

/// The character that stands for a digit.
pub open spec fn digit(d: int) -> char
    recommends
        0 <= d <= 9,
{
    if d == 0 {
        '0'
    } else if d == 1 {
        '1'
    } else if d == 2 {
        '2'
    } else if d == 3 {
        '3'
    } else if d == 4 {
        '4'
    } else if d == 5 {
        '5'
    } else if d == 6 {
        '6'
    } else if d == 7 {
        '7'
    } else if d == 8 {
        '8'
    } else {
        '9'
    }
}

/// The decimal digits of `n`, without leading zeros.
pub open spec fn digits(n: nat) -> Seq<char>
    decreases n,
{
    if n < 10 {
        seq![digit(n as int)]
    } else {
        digits(n / 10).push(digit((n % 10) as int))
    }
}

/// `n` in decimal notation, with a minus sign where it is negative.
pub open spec fn decimal(n: int) -> Seq<char> {
    if n < 0 {
        seq!['-'] + digits((-n) as nat)
    } else {
        digits(n as nat)
    }
}

fn digit_char(d: u64) -> (c: char)
    requires
        d <= 9,
    ensures
        c == digit(d as int),
{
    if d == 0 {
        '0'
    } else if d == 1 {
        '1'
    } else if d == 2 {
        '2'
    } else if d == 3 {
        '3'
    } else if d == 4 {
        '4'
    } else if d == 5 {
        '5'
    } else if d == 6 {
        '6'
    } else if d == 7 {
        '7'
    } else if d == 8 {
        '8'
    } else {
        '9'
    }
}

/// Appends the decimal digits of `magnitude` to `text`.
pub fn push_digits(text: &mut String, magnitude: u64)
    ensures
        final(text)@ == old(text)@ + digits(magnitude as nat),
{
    let mut low_first: Vec<char> = Vec::new();
    let mut rest: u64 = magnitude;
    while rest >= 10
        invariant
            digits(magnitude as nat) == digits(rest as nat) + low_first@.reverse(),
        decreases rest,
    {
        let ghost before = low_first@;
        low_first.push(digit_char(rest % 10));
        assert(low_first@.reverse() =~= seq![digit((rest % 10) as int)] + before.reverse());
        assert(digits(rest as nat) =~= digits((rest / 10) as nat).push(digit((rest % 10) as int)));
        rest = rest / 10;
    }
    let ghost before = low_first@;
    low_first.push(digit_char(rest));
    assert(low_first@.reverse() =~= digits(magnitude as nat)) by {
        assert(low_first@.reverse() =~= seq![digit(rest as int)] + before.reverse());
    }
    let ghost start = text@;
    let mut i: usize = low_first.len();
    while i > 0
        invariant
            i <= low_first@.len(),
            text@ == start + low_first@.reverse().take(low_first@.len() - i),
        decreases i,
    {
        i -= 1;
        text.push(low_first[i]);
        assert(low_first@.reverse().take(low_first@.len() - i) =~= low_first@.reverse().take(
            low_first@.len() - i - 1,
        ).push(low_first@[i as int]));
    }
    assert(low_first@.reverse().take(low_first@.len() as int) =~= low_first@.reverse());
}

/// Writes `n` in decimal notation.
pub fn i64_to_string(n: i64) -> (text: String)
    ensures
        text@ == decimal(n as int),
{
    let magnitude: u64 = if n < 0 {
        ((-(n + 1)) as u64) + 1
    } else {
        n as u64
    };
    let mut text = String::new();
    if n < 0 {
        text.push('-');
    }
    push_digits(&mut text, magnitude);
    text
}

/// Writes `n` in decimal notation.
pub fn u64_to_string(n: u64) -> (text: String)
    ensures
        text@ == decimal(n as int),
{
    let mut text = String::new();
    push_digits(&mut text, n);
    text
}

/// Whether `c` is a decimal digit.
pub open spec fn is_digit(c: char) -> bool {
    '0' <= c && c <= '9'
}

/// The number that the decimal digits of `s` write.
pub open spec fn digits_value(s: Seq<char>) -> nat
    decreases s.len(),
{
    if s.len() == 0 {
        0
    } else {
        digits_value(s.drop_last()) * 10 + (s.last() as u32 - '0' as u32) as nat
    }
}

/// Whether every character of `s` is a decimal digit.
pub open spec fn all_digits(s: Seq<char>) -> bool {
    forall|i: int| 0 <= i < s.len() ==> is_digit(#[trigger] s[i])
}

/// What stands behind the sign of a number, or the whole of it where it has
/// no sign.
pub open spec fn unsigned_part(s: Seq<char>) -> Seq<char> {
    if s.len() > 0 && (s[0] == '-' || s[0] == '+') {
        s.skip(1)
    } else {
        s
    }
}

/// The `i32` that `s` writes: an optional sign and one decimal digit or
/// more, within the range of `i32`. Leading zeros count; nothing else may
/// stand in `s`.
pub open spec fn parsed_i32(s: Seq<char>) -> Option<int> {
    let body = unsigned_part(s);
    let value = if s.len() > 0 && s[0] == '-' {
        -(digits_value(body) as int)
    } else {
        digits_value(body) as int
    };
    if body.len() > 0 && all_digits(body) && i32::MIN <= value <= i32::MAX {
        Some(value)
    } else {
        None
    }
}

/// More digits never write a smaller number.
proof fn lemma_digits_value_grows(s: Seq<char>, j: int)
    requires
        0 <= j <= s.len(),
    ensures
        digits_value(s.take(j)) <= digits_value(s),
    decreases s.len() - j,
{
    if j < s.len() {
        lemma_digits_value_grows(s, j + 1);
        assert(s.take(j + 1).drop_last() =~= s.take(j));
    } else {
        assert(s.take(j) =~= s);
    }
}

/// Reads an `i32` in decimal notation, as `str::parse` does.
pub fn parse_i32(text: &str) -> (number: Option<i32>)
    ensures
        match number {
            Some(n) => parsed_i32(text@) == Some(n as int),
            None => parsed_i32(text@) is None,
        },
{
    let chars = to_chars(text);
    let len: usize = chars.len();
    if len == 0 {
        return None;
    }
    let negative = chars[0] == '-';
    let first: usize = if chars[0] == '-' || chars[0] == '+' {
        1
    } else {
        0
    };
    if first == len {
        return None;
    }
    let ghost body = chars@.skip(first as int);
    assert(first == 0 ==> body =~= text@);
    let mut value: i64 = 0;
    let mut j: usize = first;
    assert(body.take(0) =~= Seq::<char>::empty());
    while j < len
        invariant
            first <= j <= len == chars@.len(),
            first < len,
            chars@ == text@,
            negative == (chars@[0] == '-'),
            first == if chars@[0] == '-' || chars@[0] == '+' {
                1int
            } else {
                0int
            },
            body == chars@.skip(first as int),
            body == unsigned_part(text@),
            all_digits(body.take(j - first)),
            value == digits_value(body.take(j - first)),
            value <= 0x8000_0000,
        decreases len - j,
    {
        let c = chars[j];
        if !(c >= '0' && c <= '9') {
            proof {
                assert(first == 0 ==> body =~= text@);
                assert(unsigned_part(text@) == body);
                assert(!is_digit(body[j - first]));
            }
            return None;
        }
        assert(body.take(j - first + 1).drop_last() =~= body.take(j - first));
        assert(body.take(j - first + 1).last() == c);
        let next: i64 = value * 10 + (c as u32 - '0' as u32) as i64;
        if next > 0x8000_0000 {
            proof {
                lemma_digits_value_grows(body, j - first + 1);
            }
            return None;
        }
        value = next;
        j += 1;
    }
    assert(body.take(len - first) =~= body);
    if negative {
        Some((-value) as i32)
    } else if value > 0x7fff_ffff {
        None
    } else {
        Some(value as i32)
    }
}

/// The unsigned number that `s` writes, where it is no larger than `max`:
/// an optional plus sign and one decimal digit or more. Leading zeros count;
/// nothing else may stand in `s`.
pub open spec fn parsed_unsigned(s: Seq<char>, max: nat) -> Option<nat> {
    let body = if s.len() > 0 && s[0] == '+' {
        s.skip(1)
    } else {
        s
    };
    if body.len() > 0 && all_digits(body) && digits_value(body) <= max {
        Some(digits_value(body))
    } else {
        None
    }
}

/// Reads an unsigned number in decimal notation that is no larger than
/// `max`, as `str::parse` does for the unsigned type whose largest value is
/// `max`.
pub fn parse_unsigned(text: &str, max: u64) -> (number: Option<u64>)
    ensures
        match number {
            Some(n) => parsed_unsigned(text@, max as nat) == Some(n as nat),
            None => parsed_unsigned(text@, max as nat) is None,
        },
{
    let chars = to_chars(text);
    let len: usize = chars.len();
    if len == 0 {
        return None;
    }
    let first: usize = if chars[0] == '+' {
        1
    } else {
        0
    };
    if first == len {
        return None;
    }
    let ghost body = chars@.skip(first as int);
    assert(first == 0 ==> body =~= text@);
    let mut value: u64 = 0;
    let mut j: usize = first;
    assert(body.take(0) =~= Seq::<char>::empty());
    while j < len
        invariant
            first <= j <= len == chars@.len(),
            first < len,
            chars@ == text@,
            first == if chars@[0] == '+' {
                1int
            } else {
                0int
            },
            body == chars@.skip(first as int),
            first == 0 ==> body == text@,
            all_digits(body.take(j - first)),
            value == digits_value(body.take(j - first)),
            value <= max,
        decreases len - j,
    {
        let c = chars[j];
        if !(c >= '0' && c <= '9') {
            assert(!is_digit(body[j - first]));
            return None;
        }
        assert(body.take(j - first + 1).drop_last() =~= body.take(j - first));
        assert(body.take(j - first + 1).last() == c);
        let d: u64 = (c as u32 - '0' as u32) as u64;
        if d > max || value > (max - d) / 10 {
            proof {
                lemma_digits_value_grows(body, j - first + 1);
            }
            return None;
        }
        value = value * 10 + d;
        j += 1;
    }
    assert(body.take(len - first) =~= body);
    Some(value)
}

} // verus!
