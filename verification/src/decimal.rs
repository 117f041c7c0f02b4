//! Whole numbers written in decimal.

use vstd::prelude::*;
use vstd::string::StringExecFns;

verus! {

/// The text of one decimal digit.
pub open spec fn digit_text(digit: int) -> Seq<char> {
    if digit == 0 {
        "0"@
    } else if digit == 1 {
        "1"@
    } else if digit == 2 {
        "2"@
    } else if digit == 3 {
        "3"@
    } else if digit == 4 {
        "4"@
    } else if digit == 5 {
        "5"@
    } else if digit == 6 {
        "6"@
    } else if digit == 7 {
        "7"@
    } else if digit == 8 {
        "8"@
    } else {
        "9"@
    }
}

/// A natural number in decimal: its digits, the most significant first,
/// without leading zeros.
pub open spec fn natural_text(number: nat) -> Seq<char>
    decreases number,
{
    if number < 10 {
        digit_text(number as int)
    } else {
        natural_text(number / 10) + digit_text((number % 10) as int)
    }
}

/// A whole number in decimal: a minus sign before the digits of a negative
/// number.
pub open spec fn decimal_text(number: int) -> Seq<char> {
    if number < 0 {
        "-"@ + natural_text((-number) as nat)
    } else {
        natural_text(number as nat)
    }
}

/// The text of one decimal digit.
fn digit(value: u64) -> (text: &'static str)
    requires
        value < 10,
    ensures
        text@ == digit_text(value as int),
{
    if value == 0 {
        "0"
    } else if value == 1 {
        "1"
    } else if value == 2 {
        "2"
    } else if value == 3 {
        "3"
    } else if value == 4 {
        "4"
    } else if value == 5 {
        "5"
    } else if value == 6 {
        "6"
    } else if value == 7 {
        "7"
    } else if value == 8 {
        "8"
    } else {
        "9"
    }
}

/// Writes a natural number behind a text.
fn append_natural(text: &mut String, number: u64)
    ensures
        final(text)@ == old(text)@ + natural_text(number as nat),
    decreases number,
{
    if number >= 10 {
        append_natural(text, number / 10);
    }
    text.append(digit(number % 10));
    proof {
        if number >= 10 {
            assert(old(text)@ + natural_text((number / 10) as nat) + digit_text(
                (number % 10) as int,
            ) =~= old(text)@ + (natural_text((number / 10) as nat) + digit_text(
                (number % 10) as int,
            )));
        }
    }
}

/// Writes a whole number in decimal.
pub fn decimal(number: i64) -> (text: String)
    ensures
        text@ == decimal_text(number as int),
{
    let mut text = String::new();
    if number < 0 {
        let magnitude: u64 = (-(number + 1)) as u64 + 1;
        text.append("-");
        append_natural(&mut text, magnitude);
    } else {
        append_natural(&mut text, number as u64);
    }
    proof {
        assert(Seq::<char>::empty() + natural_text(number as nat) =~= natural_text(number as nat));
        assert(Seq::<char>::empty() + "-"@ =~= "-"@);
    }
    text
}

} // verus!
