//! Whole numbers as decimal text, read and written.

use crate::text::{decimal, decimal_string, digit_char, to_chars};
use vstd::prelude::*;

verus! {

/// Whether a character is a decimal digit.
pub open spec fn is_digit(c: char) -> bool {
    '0' <= c <= '9'
}

/// The value of a decimal digit.
pub open spec fn digit_value(c: char) -> nat
    recommends
        is_digit(c),
{
    (c as u32 - '0' as u32) as nat
}

/// Whether a text is a run of one or more decimal digits.
pub open spec fn is_digits(text: Seq<char>) -> bool {
    text.len() > 0 && forall|i: int| 0 <= i < text.len() ==> is_digit(#[trigger] text[i])
}

/// The number that a run of decimal digits writes.
pub open spec fn digits_value(text: Seq<char>) -> nat
    decreases text.len(),
{
    if text.len() == 0 {
        0
    } else {
        digits_value(text.drop_last()) * 10 + digit_value(text.last())
    }
}

/// The number that a run of digits writes, if the text is one and the
/// number is at most `limit`.
pub open spec fn digits_within(text: Seq<char>, limit: nat) -> Option<nat> {
    if is_digits(text) && digits_value(text) <= limit {
        Some(digits_value(text))
    } else {
        None
    }
}

/// The text without a sign in front.
pub open spec fn unsigned_part(text: Seq<char>) -> Seq<char> {
    if text.len() > 0 && (text[0] == '+' || text[0] == '-') {
        text.drop_first()
    } else {
        text
    }
}

/// Whether the text has a minus sign in front.
pub open spec fn is_negative(text: Seq<char>) -> bool {
    text.len() > 0 && text[0] == '-'
}

/// The unsigned number of at most 32 bits that a text writes: digits, with
/// or without a `+` in front.
pub open spec fn parsed_u32(text: Seq<char>) -> Option<u32> {
    if is_negative(text) {
        None
    } else {
        match digits_within(unsigned_part(text), u32::MAX as nat) {
            Some(n) => Some(n as u32),
            None => None,
        }
    }
}

/// The unsigned number of at most 64 bits that a text writes: digits, with
/// or without a `+` in front.
pub open spec fn parsed_u64(text: Seq<char>) -> Option<u64> {
    if is_negative(text) {
        None
    } else {
        match digits_within(unsigned_part(text), u64::MAX as nat) {
            Some(n) => Some(n as u64),
            None => None,
        }
    }
}

/// The signed number of at most 64 bits that a text writes: digits, with or
/// without a `+` or a `-` in front.
pub open spec fn parsed_i64(text: Seq<char>) -> Option<i64> {
    if is_negative(text) {
        match digits_within(unsigned_part(text), 0x8000_0000_0000_0000) {
            Some(n) => Some((-(n as int)) as i64),
            None => None,
        }
    } else {
        match digits_within(unsigned_part(text), i64::MAX as nat) {
            Some(n) => Some(n as i64),
            None => None,
        }
    }
}

/// A signed number in decimal, with a `-` in front of a negative one.
pub open spec fn signed_decimal(n: int) -> Seq<char> {
    if n < 0 {
        seq!['-'] + decimal((-n) as nat)
    } else {
        decimal(n as nat)
    }
}

/// A run of digits writes at least what any shorter run from its front
/// writes.
proof fn lemma_digits_value_grows(text: Seq<char>, n: int)
    requires
        0 <= n <= text.len(),
    ensures
        digits_value(text.take(n)) <= digits_value(text),
    decreases text.len() - n,
{
    if n < text.len() {
        assert(text.take(n + 1).drop_last() =~= text.take(n));
        lemma_digits_value_grows(text, n + 1);
    } else {
        assert(text.take(n) =~= text);
    }
}

/// Reads the digits of `chars` from position `from` to the end as a number
/// of at most `limit`.
fn parse_digits(chars: &Vec<char>, from: usize, limit: u64) -> (r: Option<u64>)
    requires
        from <= chars.len(),
    ensures
        match r {
            Some(n) => Some(n as nat),
            None => None,
        } == digits_within(chars@.subrange(from as int, chars.len() as int), limit as nat),
{
    let ghost text = chars@.subrange(from as int, chars.len() as int);
    if from == chars.len() {
        return None;
    }
    let mut value: u64 = 0;
    let mut i: usize = from;
    while i < chars.len()
        invariant
            from <= i <= chars.len(),
            text == chars@.subrange(from as int, chars.len() as int),
            forall|k: int| 0 <= k < i - from ==> is_digit(#[trigger] text[k]),
            value == digits_value(text.take(i - from)),
            value <= limit,
        decreases chars.len() - i,
    {
        let c = chars[i];
        assert(c == text[i - from]);
        if c < '0' || c > '9' {
            return None;
        }
        let d = (c as u32 - '0' as u32) as u64;
        proof {
            assert(text.take(i - from + 1).drop_last() =~= text.take(i - from));
            assert(text.take(i - from + 1).last() == c);
            assert(digits_value(text.take(i - from + 1)) == value * 10 + d);
            lemma_digits_value_grows(text, i - from + 1);
        }
        if d > limit {
            return None;
        }
        if value > (limit - d) / 10 {
            assert(value * 10 + d > limit) by (nonlinear_arith)
                requires
                    value > (limit - d) / 10,
                    0 <= d <= limit,
            ;
            return None;
        }
        assert(value * 10 + d <= limit) by (nonlinear_arith)
            requires
                value <= (limit - d) / 10,
                0 <= d <= limit,
        ;
        value = value * 10 + d;
        i += 1;
    }
    assert(text.take(i - from) =~= text);
    Some(value)
}

/// Reads an unsigned number of at most 32 bits.
pub fn parse_u32(text: &str) -> (r: Option<u32>)
    ensures
        r == parsed_u32(text@),
{
    let chars = to_chars(text);
    if chars.len() > 0 && chars[0] == '-' {
        return None;
    }
    let from: usize = if chars.len() > 0 && chars[0] == '+' {
        1
    } else {
        0
    };
    assert(chars@.subrange(from as int, chars.len() as int) =~= unsigned_part(text@));
    match parse_digits(&chars, from, u32::MAX as u64) {
        Some(n) => Some(n as u32),
        None => None,
    }
}

/// Reads an unsigned number of at most 64 bits.
pub fn parse_u64(text: &str) -> (r: Option<u64>)
    ensures
        r == parsed_u64(text@),
{
    let chars = to_chars(text);
    if chars.len() > 0 && chars[0] == '-' {
        return None;
    }
    let from: usize = if chars.len() > 0 && chars[0] == '+' {
        1
    } else {
        0
    };
    assert(chars@.subrange(from as int, chars.len() as int) =~= unsigned_part(text@));
    parse_digits(&chars, from, u64::MAX)
}

/// Reads a signed number of at most 64 bits.
pub fn parse_i64(text: &str) -> (r: Option<i64>)
    ensures
        r == parsed_i64(text@),
{
    let chars = to_chars(text);
    let negative = chars.len() > 0 && chars[0] == '-';
    let from: usize = if chars.len() > 0 && (chars[0] == '+' || chars[0] == '-') {
        1
    } else {
        0
    };
    assert(chars@.subrange(from as int, chars.len() as int) =~= unsigned_part(text@));
    if negative {
        match parse_digits(&chars, from, 0x8000_0000_0000_0000) {
            Some(n) => if n == 0x8000_0000_0000_0000 {
                Some(i64::MIN)
            } else {
                Some(-(n as i64))
            },
            None => None,
        }
    } else {
        match parse_digits(&chars, from, i64::MAX as u64) {
            Some(n) => Some(n as i64),
            None => None,
        }
    }
}

/// Writes a signed number in decimal.
pub fn i64_to_string(n: i64) -> (r: String)
    ensures
        r@ == signed_decimal(n as int),
{
    if n < 0 {
        let magnitude: u64 = (-(n + 1)) as u64 + 1;
        let digits = decimal_string(magnitude);
        proof {
            reveal_strlit("-");
        }
        let r = String::from_str("-").concat(digits.as_str());
        assert(r@ =~= signed_decimal(n as int));
        r
    } else {
        decimal_string(n as u64)
    }
}

/// The decimal numeral of a number is a run of digits that writes it.
pub proof fn lemma_decimal_is_read_back(n: nat)
    ensures
        is_digits(decimal(n)),
        digits_value(decimal(n)) == n,
    decreases n,
{
    if n < 10 {
        assert(decimal(n) =~= seq![digit_char(n)]);
        assert(decimal(n).drop_last() =~= Seq::<char>::empty());
        assert(digits_value(decimal(n).drop_last()) == 0);
        assert(digit_value(digit_char(n)) == n);
    } else {
        lemma_decimal_is_read_back(n / 10);
        let head = decimal(n / 10);
        let all = head.push(digit_char(n % 10));
        assert(all.drop_last() =~= head);
        assert(digit_value(digit_char(n % 10)) == n % 10);
        assert(is_digit(digit_char(n % 10)));
        assert forall|i: int| 0 <= i < all.len() implies is_digit(#[trigger] all[i]) by {
            if i < head.len() {
                assert(all[i] == head[i]);
            }
        }
    }
}

/// A number that is written and then read is the same number.
pub proof fn lemma_i64_round_trip(n: i64)
    ensures
        parsed_i64(signed_decimal(n as int)) == Some(n),
{
    let text = signed_decimal(n as int);
    if n < 0 {
        let magnitude = (-(n as int)) as nat;
        lemma_decimal_is_read_back(magnitude);
        assert(text.drop_first() =~= decimal(magnitude));
    } else {
        lemma_decimal_is_read_back(n as nat);
        assert(is_digit(text[0]));
    }
}

/// A version that is written and then read is the same version.
pub proof fn lemma_u64_round_trip(n: u64)
    ensures
        parsed_u64(decimal(n as nat)) == Some(n),
{
    lemma_decimal_is_read_back(n as nat);
    assert(is_digit(decimal(n as nat)[0]));
}

} // verus!
