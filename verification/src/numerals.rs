//! Numbers as users write them.

use vstd::prelude::*;

use crate::text;

verus! {

pub open spec fn is_digit(c: char) -> bool {
    '0' <= c && c <= '9'
}

/// The number that decimal digits stand for.
pub open spec fn digits_value(digits: Seq<char>) -> nat
    decreases digits.len(),
{
    if digits.len() == 0 {
        0
    } else {
        digits_value(digits.drop_last()) * 10 + (digits.last() as nat - '0' as nat) as nat
    }
}

/// The digits of a number: a plus sign before them is left out.
pub open spec fn digits_of(written: Seq<char>) -> Seq<char> {
    if written.len() > 0 && written[0] == '+' {
        written.drop_first()
    } else {
        written
    }
}

/// The number that a text writes in decimal, where it writes one.
pub open spec fn written_number(written: Seq<char>) -> Option<nat> {
    let digits = digits_of(written);
    if digits.len() > 0 && (forall|i: int| 0 <= i < digits.len() ==> is_digit(#[trigger] digits[i])) {
        Some(digits_value(digits))
    } else {
        None
    }
}

proof fn lemma_value_grows(digits: Seq<char>, n: int)
    requires
        0 <= n <= digits.len(),
        forall|i: int| 0 <= i < digits.len() ==> is_digit(#[trigger] digits[i]),
    ensures
        digits_value(digits.take(n)) <= digits_value(digits),
    decreases digits.len(),
{
    if n < digits.len() {
        let rest = digits.drop_last();
        assert forall|i: int| 0 <= i < rest.len() implies is_digit(#[trigger] rest[i]) by {
            assert(rest[i] == digits[i]);
        }
        assert(rest.take(n) =~= digits.take(n));
        lemma_value_grows(rest, n);
    } else {
        assert(digits.take(n) =~= digits);
    }
}

/// Reads a number that is at most `max`.
pub fn parse_number(written: &str, max: u64) -> (res: Option<u64>)
    ensures
        match res {
            Some(value) => written_number(written@) == Some(value as nat) && value <= max,
            None => match written_number(written@) {
                Some(value) => value > max,
                None => true,
            },
        },
{
    let chars = text::chars_of(written);
    let start: usize = if chars.len() > 0 && chars[0] == '+' {
        1
    } else {
        0
    };
    let ghost digits = digits_of(written@);
    assert(digits =~= chars@.skip(start as int));
    if start == chars.len() {
        return None;
    }
    let mut at: usize = start;
    while at < chars.len()
        invariant
            start <= at <= chars.len(),
            digits == chars@.skip(start as int),
            digits == digits_of(written@),
            forall|i: int| 0 <= i < at - start ==> is_digit(#[trigger] digits[i]),
        decreases chars.len() - at,
    {
        if chars[at] < '0' || chars[at] > '9' {
            assert(!is_digit(digits[at - start]));
            return None;
        }
        assert(is_digit(digits[at - start]));
        at = at + 1;
    }
    let mut value: u64 = 0;
    at = start;
    assert(digits.take(0) =~= Seq::<char>::empty());
    while at < chars.len()
        invariant
            start <= at <= chars.len(),
            digits == chars@.skip(start as int),
            digits.len() > 0,
            digits == digits_of(written@),
            forall|i: int| 0 <= i < digits.len() ==> is_digit(#[trigger] digits[i]),
            value == digits_value(digits.take(at - start)),
            value <= max,
        decreases chars.len() - at,
    {
        let c = chars[at];
        assert(c == digits[at - start]);
        assert(is_digit(digits[at - start]));
        let digit: u64 = (c as u32 - '0' as u32) as u64;
        proof {
            assert(digits.take(at - start + 1).drop_last() =~= digits.take(at - start));
            assert(digits.take(at - start + 1).last() == c);
            lemma_value_grows(digits, at - start + 1);
            assert(digits_value(digits.take(at - start + 1)) == value * 10 + digit);
        }
        let next: u128 = value as u128 * 10 + digit as u128;
        if next > max as u128 {
            return None;
        }
        value = next as u64;
        at = at + 1;
    }
    assert(digits.take(at - start) =~= digits);
    Some(value)
}

/// The octal notation of a number, without leading zeros.
pub open spec fn octal(n: nat) -> Seq<char>
    decreases n,
{
    if n < 8 {
        text::decimal(n)
    } else {
        octal(n / 8) + text::decimal(n % 8)
    }
}

/// A text with zeros before it, so that it has at least so many characters.
pub open spec fn zero_padded(text: Seq<char>, width: nat) -> Seq<char>
    decreases width - text.len(),
{
    if text.len() >= width {
        text
    } else {
        zero_padded(seq!['0'] + text, width)
    }
}

fn octal_digits(n: u32) -> (res: String)
    ensures
        res@ == octal(n as nat),
    decreases n,
{
    if n < 8 {
        text::number(n as u64)
    } else {
        let mut out = octal_digits(n / 8);
        let digit = text::number((n % 8) as u64);
        out.append(digit.as_str());
        out
    }
}

/// Writes the permissions of a file: at least four octal digits.
pub fn permissions(mode: u32) -> (res: String)
    ensures
        res@ == zero_padded(octal(mode as nat), 4),
{
    let mut out = octal_digits(mode);
    let mut len: usize = text::chars_of(out.as_str()).len();
    while len < 4
        invariant
            len == out@.len(),
            zero_padded(out@, 4) == zero_padded(octal(mode as nat), 4),
        decreases 4 - len,
    {
        proof {
            reveal_strlit("0");
            assert("0"@ =~= seq!['0']);
        }
        out = text::joined("0", out.as_str());
        len = len + 1;
    }
    out
}

} // verus!
