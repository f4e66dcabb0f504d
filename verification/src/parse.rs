//! Reading values from the text of a setting.
//!
//! A switch is `true` or `false`. A number is written in decimal digits, a
//! plus sign may stand before them, and nothing else may: no space, no minus
//! sign, no other kind of digit.

use crate::config::shard::Positive;
use crate::text::same_text;
use vstd::prelude::*;
use vstd::string::StrSliceExecFns;

verus! {

/// The switch that a text stands for.
pub open spec fn spec_parse_bool(text: Seq<char>) -> Option<bool> {
    if text == "true"@ {
        Some(true)
    } else if text == "false"@ {
        Some(false)
    } else {
        None
    }
}

/// Reads a switch.
pub fn parse_bool(text: &str) -> (value: Option<bool>)
    ensures
        value == spec_parse_bool(text@),
{
    if same_text(text, "true") {
        Some(true)
    } else if same_text(text, "false") {
        Some(false)
    } else {
        None
    }
}

/// The value of a decimal digit, and nothing for any other character.
pub open spec fn digit_of(letter: char) -> Option<nat> {
    if letter == '0' {
        Some(0)
    } else if letter == '1' {
        Some(1)
    } else if letter == '2' {
        Some(2)
    } else if letter == '3' {
        Some(3)
    } else if letter == '4' {
        Some(4)
    } else if letter == '5' {
        Some(5)
    } else if letter == '6' {
        Some(6)
    } else if letter == '7' {
        Some(7)
    } else if letter == '8' {
        Some(8)
    } else if letter == '9' {
        Some(9)
    } else {
        None
    }
}

/// The number that a run of decimal digits stands for, and nothing for a
/// run that holds anything but digits. The empty run stands for zero.
pub open spec fn digits_value(digits: Seq<char>) -> Option<nat>
    decreases digits.len(),
{
    if digits.len() == 0 {
        Some(0)
    } else {
        match (digits_value(digits.drop_last()), digit_of(digits.last())) {
            (Some(front), Some(last)) => Some(front * 10 + last),
            _ => None,
        }
    }
}

/// The digits of the text of a number: the text without the plus sign that
/// it may begin with.
pub open spec fn unsigned_digits(text: Seq<char>) -> Seq<char> {
    if text.len() > 0 && text[0] == '+' {
        text.skip(1)
    } else {
        text
    }
}

/// The number up to `max` that a text stands for: that of its digits, of
/// which there must be one at least.
pub open spec fn spec_parse_unsigned(text: Seq<char>, max: nat) -> Option<nat> {
    let digits = unsigned_digits(text);
    if digits.len() == 0 {
        None
    } else {
        match digits_value(digits) {
            Some(value) => if value <= max {
                Some(value)
            } else {
                None
            },
            None => None,
        }
    }
}

/// A run of digits stands for no less than any run that it begins with, and
/// a run that holds something else begins only runs that do so too or end
/// before it.
proof fn lemma_value_grows(digits: Seq<char>, length: int)
    requires
        0 <= length <= digits.len(),
        digits_value(digits) is Some,
    ensures
        digits_value(digits.take(length)) is Some,
        digits_value(digits.take(length))->Some_0 <= digits_value(digits)->Some_0,
    decreases digits.len(),
{
    if length == digits.len() {
        assert(digits.take(length) =~= digits);
    } else {
        assert(digits.drop_last().take(length) =~= digits.take(length));
        lemma_value_grows(digits.drop_last(), length);
    }
}

fn digit_value(letter: char) -> (value: Option<u64>)
    ensures
        value is Some <==> digit_of(letter) is Some,
        value matches Some(digit) ==> digit_of(letter) == Some(digit as nat) && digit <= 9,
{
    if letter == '0' {
        Some(0)
    } else if letter == '1' {
        Some(1)
    } else if letter == '2' {
        Some(2)
    } else if letter == '3' {
        Some(3)
    } else if letter == '4' {
        Some(4)
    } else if letter == '5' {
        Some(5)
    } else if letter == '6' {
        Some(6)
    } else if letter == '7' {
        Some(7)
    } else if letter == '8' {
        Some(8)
    } else if letter == '9' {
        Some(9)
    } else {
        None
    }
}

/// Reads a number up to `max`.
pub fn parse_unsigned(text: &str, max: u64) -> (value: Option<u64>)
    ensures
        match spec_parse_unsigned(text@, max as nat) {
            Some(number) => value == Some(number as u64),
            None => value is None,
        },
{
    let length = text.unicode_len();
    let first: usize = if length > 0 && text.get_char(0) == '+' {
        1
    } else {
        0
    };
    if first == length {
        return None;
    }
    let ghost digits = unsigned_digits(text@);
    let mut number: u64 = 0;
    let mut at: usize = first;
    while at < length
        invariant
            length == text@.len(),
            first <= at <= length,
            digits == unsigned_digits(text@),
            digits == text@.skip(first as int),
            digits_value(digits.take(at - first)) == Some(number as nat),
            number <= max,
        decreases length - at,
    {
        let ghost before = digits.take(at - first);
        let ghost longer = digits.take(at + 1 - first);
        proof {
            assert(longer.drop_last() =~= before);
            assert(longer.last() == text@[at as int]);
            if digits_value(digits) is Some {
                lemma_value_grows(digits, at + 1 - first);
            }
        }
        let digit = match digit_value(text.get_char(at)) {
            Some(digit) => digit,
            None => {
                return None;
            },
        };
        let grown = match number.checked_mul(10) {
            Some(tenfold) => tenfold.checked_add(digit),
            None => None,
        };
        match grown {
            Some(grown) if grown <= max => {
                number = grown;
            },
            _ => {
                return None;
            },
        }
        at = at + 1;
    }
    proof {
        assert(digits.take(length - first) =~= digits);
    }
    Some(number)
}

/// Reads a number of 64 bits.
pub fn parse_u64(text: &str) -> (value: Option<u64>)
    ensures
        match spec_parse_unsigned(text@, u64::MAX as nat) {
            Some(number) => value == Some(number as u64),
            None => value is None,
        },
{
    parse_unsigned(text, u64::MAX)
}

/// Reads a number of 16 bits.
pub fn parse_u16(text: &str) -> (value: Option<u16>)
    ensures
        match spec_parse_unsigned(text@, u16::MAX as nat) {
            Some(number) => value == Some(number as u16),
            None => value is None,
        },
{
    match parse_unsigned(text, 65535) {
        Some(number) => Some(number as u16),
        None => None,
    }
}

/// Reads a count that is not zero.
pub fn parse_positive(text: &str) -> (value: Option<Positive>)
    ensures
        match spec_parse_unsigned(text@, u64::MAX as nat) {
            Some(number) => if number == 0 {
                value is None
            } else {
                value matches Some(count) && count.get() == number
            },
            None => value is None,
        },
{
    match parse_unsigned(text, u64::MAX) {
        Some(number) => Positive::new(number),
        None => None,
    }
}

} // verus!
