//! Decimal notation for unsigned integers.
//!
//! File names and status lines carry numbers written in plain base ten, without
//! sign, padding or separators. This module defines that notation as a
//! sequence of characters, renders it, and shows that no two numbers share a
//! rendering.

use vstd::prelude::*;
use vstd::string::StringExecFns;

verus! {

/// The character that stands for a single decimal digit.
pub open spec fn digit_char(d: nat) -> char
    recommends
        d < 10,
{
    if d == 0 {
        '0'
    } else if d == 1 {
        '1'
    } else if d == 2 {
        '2'
    } else if d == 3 {
        '3'
    } else if d == 4 {
        '4'
    } else if d == 5 {
        '5'
    } else if d == 6 {
        '6'
    } else if d == 7 {
        '7'
    } else if d == 8 {
        '8'
    } else {
        '9'
    }
}

/// Whether a character is one of the ten decimal digits.
pub open spec fn is_digit(c: char) -> bool {
    exists|d: nat| d < 10 && c == #[trigger] digit_char(d)
}

/// The digit that a character stands for; meaningful only for digit characters.
pub open spec fn digit_value(c: char) -> nat {
    if c == '0' {
        0
    } else if c == '1' {
        1
    } else if c == '2' {
        2
    } else if c == '3' {
        3
    } else if c == '4' {
        4
    } else if c == '5' {
        5
    } else if c == '6' {
        6
    } else if c == '7' {
        7
    } else if c == '8' {
        8
    } else {
        9
    }
}

/// The base-ten notation of `n`: most significant digit first, no leading
/// zero except for zero itself.
pub open spec fn decimal(n: nat) -> Seq<char>
    decreases n,
{
    if n < 10 {
        seq![digit_char(n)]
    } else {
        decimal(n / 10).push(digit_char(n % 10))
    }
}

/// The number that a sequence of digit characters denotes, read most
/// significant digit first.
pub open spec fn decimal_value(digits: Seq<char>) -> nat
    decreases digits.len(),
{
    if digits.len() == 0 {
        0
    } else {
        decimal_value(digits.drop_last()) * 10 + digit_value(digits.last())
    }
}

/// A rendering is never empty and holds digit characters only.
pub proof fn lemma_decimal_digits(n: nat)
    ensures
        decimal(n).len() >= 1,
        forall|i: int| 0 <= i < decimal(n).len() ==> is_digit(#[trigger] decimal(n)[i]),
    decreases n,
{
    if n >= 10 {
        lemma_decimal_digits(n / 10);
        assert forall|i: int| 0 <= i < decimal(n).len() implies is_digit(
            #[trigger] decimal(n)[i],
        ) by {
            if i < decimal(n / 10).len() {
                assert(decimal(n)[i] == decimal(n / 10)[i]);
            }
        }
    }
}

/// Reading a rendering back gives the number it was made from.
pub proof fn lemma_decimal_value(n: nat)
    ensures
        decimal_value(decimal(n)) == n,
    decreases n,
{
    if n < 10 {
        assert(decimal_value(decimal(n).drop_last()) == 0);
    } else {
        lemma_decimal_value(n / 10);
        assert(decimal(n).drop_last() == decimal(n / 10));
    }
}

/// Different numbers have different renderings.
pub proof fn lemma_decimal_injective(a: nat, b: nat)
    requires
        decimal(a) == decimal(b),
    ensures
        a == b,
{
    lemma_decimal_value(a);
    lemma_decimal_value(b);
}

/// The base-ten notation of an integer of either sign: a minus sign before the
/// notation of the magnitude where the integer is negative.
pub open spec fn signed_decimal(i: int) -> Seq<char> {
    if i < 0 {
        "-"@ + decimal((-i) as nat)
    } else {
        decimal(i as nat)
    }
}

/// Whether every character of a text is a decimal digit.
pub open spec fn all_digits(text: Seq<char>) -> bool {
    forall|i: int| 0 <= i < text.len() ==> is_digit(#[trigger] text[i])
}

/// The number that a text denotes in base ten: an optional plus sign followed
/// by at least one digit, most significant digit first. Leading zeros count
/// for nothing. `None` for any other text.
pub open spec fn parsed_decimal(text: Seq<char>) -> Option<nat> {
    let digits = if text.len() > 0 && text[0] == '+' {
        text.skip(1)
    } else {
        text
    };
    if digits.len() > 0 && all_digits(digits) {
        Some(decimal_value(digits))
    } else {
        None
    }
}

/// The number that fits sixty-four bits and that a text denotes in base ten.
pub open spec fn parsed_u64(text: Seq<char>) -> Option<u64> {
    match parsed_decimal(text) {
        Some(value) => if value <= u64::MAX {
            Some(value as u64)
        } else {
            None
        },
        None => None,
    }
}

/// More digits never denote less: a text denotes at least what any of its
/// beginnings denotes.
pub proof fn lemma_decimal_value_grows(digits: Seq<char>, k: int)
    requires
        0 <= k <= digits.len(),
    ensures
        decimal_value(digits.take(k)) <= decimal_value(digits),
    decreases digits.len() - k,
{
    if k == digits.len() {
        assert(digits.take(k) =~= digits);
    } else {
        lemma_decimal_value_grows(digits, k + 1);
        assert(digits.take(k + 1).drop_last() =~= digits.take(k));
    }
}

/// The rendering of a number is read back as that number.
pub proof fn lemma_parse_inverts_decimal(n: nat)
    ensures
        parsed_decimal(decimal(n)) == Some(n),
{
    lemma_decimal_digits(n);
    lemma_decimal_value(n);
    assert(is_digit(decimal(n)[0]));
}

/// The digit that a character stands for, if it is a digit.
fn digit_of(c: char) -> (digit: Option<u64>)
    ensures
        match digit {
            Some(d) => is_digit(c) && d == digit_value(c) && d < 10,
            None => !is_digit(c),
        },
{
    let digit = if c == '0' {
        Some(0)
    } else if c == '1' {
        Some(1)
    } else if c == '2' {
        Some(2)
    } else if c == '3' {
        Some(3)
    } else if c == '4' {
        Some(4)
    } else if c == '5' {
        Some(5)
    } else if c == '6' {
        Some(6)
    } else if c == '7' {
        Some(7)
    } else if c == '8' {
        Some(8)
    } else if c == '9' {
        Some(9)
    } else {
        None
    };
    proof {
        if digit is Some {
            assert(c == digit_char(digit->0 as nat));
        }
    }
    digit
}

/// Reads a number in base ten: an optional plus sign followed by at least one
/// digit. `None` where the text is anything else, or denotes a number that
/// does not fit sixty-four bits.
pub fn parse_u64(text: &str) -> (number: Option<u64>)
    ensures
        number == parsed_u64(text@),
{
    let ghost all = text@;
    let ghost signed = all.len() > 0 && all[0] == '+';
    let ghost digits = if signed {
        all.skip(1)
    } else {
        all
    };
    let mut value: u64 = 0;
    let ghost mut seen: int = 0;
    let mut any: bool = false;
    let mut first: bool = true;
    let mut skipped: bool = false;
    for c in it: text.chars()
        invariant
            it.seq() == all,
            all == text@,
            signed <==> all.len() > 0 && all[0] == '+',
            digits == if signed { all.skip(1) } else { all },
            first <==> it.index() == 0,
            skipped <==> signed && it.index() >= 1,
            seen == it.index() - (if skipped { 1int } else { 0int }),
            0 <= seen <= digits.len(),
            any <==> seen > 0,
            all_digits(digits.take(seen)),
            value == decimal_value(digits.take(seen)),
    {
        let was_first = first;
        first = false;
        if was_first && c == '+' {
            skipped = true;
        } else {
            let ghost longer = digits.take(seen + 1);
            assert(longer.drop_last() =~= digits.take(seen));
            match digit_of(c) {
                None => {
                    assert(!is_digit(digits[seen]));
                    return None;
                },
                Some(d) => {
                    assert(all_digits(longer)) by {
                        assert forall|i: int| 0 <= i < longer.len() implies is_digit(
                            #[trigger] longer[i],
                        ) by {
                            if i < seen {
                                assert(longer[i] == digits.take(seen)[i]);
                            }
                        }
                    }
                    proof {
                        lemma_decimal_value_grows(digits, seen + 1);
                    }
                    if value > (u64::MAX - d) / 10 {
                        // Too large already; if the rest holds digits only, the
                        // whole is larger still.
                        return None;
                    }
                    value = value * 10 + d;
                    any = true;
                    proof {
                        seen = seen + 1;
                    }
                },
            }
        }
    }
    assert(digits.take(digits.len() as int) =~= digits);
    if any {
        Some(value)
    } else {
        None
    }
}

/// One digit as a string slice.
fn digit_str(d: u128) -> (s: &'static str)
    requires
        d < 10,
    ensures
        s@ == seq![digit_char(d as nat)],
{
    proof {
        reveal_strlit("0");
        reveal_strlit("1");
        reveal_strlit("2");
        reveal_strlit("3");
        reveal_strlit("4");
        reveal_strlit("5");
        reveal_strlit("6");
        reveal_strlit("7");
        reveal_strlit("8");
        reveal_strlit("9");
    }
    let s = if d == 0 {
        "0"
    } else if d == 1 {
        "1"
    } else if d == 2 {
        "2"
    } else if d == 3 {
        "3"
    } else if d == 4 {
        "4"
    } else if d == 5 {
        "5"
    } else if d == 6 {
        "6"
    } else if d == 7 {
        "7"
    } else if d == 8 {
        "8"
    } else {
        "9"
    };
    s
}

/// Appends the base-ten notation of `n` to `out`.
pub fn append_decimal(out: &mut String, n: u128)
    ensures
        final(out)@ == old(out)@ + decimal(n as nat),
    decreases n,
{
    if n >= 10 {
        append_decimal(out, n / 10);
    }
    out.append(digit_str(n % 10));
}

/// Appends the base-ten notation of `i`, with its sign where it is negative,
/// to `out`.
pub fn append_signed_decimal(out: &mut String, i: i128)
    ensures
        final(out)@ == old(out)@ + signed_decimal(i as int),
{
    if i < 0 {
        out.append("-");
        let magnitude: u128 = if i == i128::MIN {
            0x8000_0000_0000_0000_0000_0000_0000_0000u128
        } else {
            (-i) as u128
        };
        append_decimal(out, magnitude);
    } else {
        append_decimal(out, i as u128);
    }
}

/// The base-ten notation of `n` as an owned string.
pub fn to_decimal(n: u128) -> (text: String)
    ensures
        text@ == decimal(n as nat),
{
    let mut text = String::new();
    append_decimal(&mut text, n);
    text
}

} // verus!
