//! Work on text: decimal numerals, as they stand in the addresses that the
//! queue client asks, and the comparison and rewriting of names.

use vstd::prelude::*;
use vstd::string::{StrSliceExecFns, StringExecFns, StringSliceAdditionalSpecFns};

verus! {

/// The character of one decimal digit.
pub open spec fn digit_char(digit: nat) -> char {
    if digit == 0 {
        '0'
    } else if digit == 1 {
        '1'
    } else if digit == 2 {
        '2'
    } else if digit == 3 {
        '3'
    } else if digit == 4 {
        '4'
    } else if digit == 5 {
        '5'
    } else if digit == 6 {
        '6'
    } else if digit == 7 {
        '7'
    } else if digit == 8 {
        '8'
    } else {
        '9'
    }
}

/// The decimal numeral of `value`: no sign, no leading zero but for zero
/// itself.
pub open spec fn decimal(value: nat) -> Seq<char>
    decreases value,
{
    if value < 10 {
        seq![digit_char(value)]
    } else {
        decimal(value / 10).push(digit_char(value % 10))
    }
}

fn digit_str(digit: u64) -> (text: &'static str)
    requires
        digit < 10,
    ensures
        text@ == seq![digit_char(digit as nat)],
{
    proof {
        reveal_strlit("0");
        reveal_strlit("1");
        reveal_strlit("2");
        reveal_strlit("3");
        reveal_strlit("4");
        reveal_strlit("5");
        reveal_strlit("6");
        reveal_strlit("7");
        reveal_strlit("8");
        reveal_strlit("9");
    }
    let text = if digit == 0 {
        "0"
    } else if digit == 1 {
        "1"
    } else if digit == 2 {
        "2"
    } else if digit == 3 {
        "3"
    } else if digit == 4 {
        "4"
    } else if digit == 5 {
        "5"
    } else if digit == 6 {
        "6"
    } else if digit == 7 {
        "7"
    } else if digit == 8 {
        "8"
    } else {
        "9"
    };
    assert(text@ =~= seq![digit_char(digit as nat)]);
    text
}

/// Appends the decimal numeral of `value` to `out`.
pub fn push_decimal(out: &mut String, value: u64)
    ensures
        final(out)@ == old(out)@ + decimal(value as nat),
    decreases value,
{
    if value >= 10 {
        push_decimal(out, value / 10);
    }
    out.append(digit_str(value % 10));
    assert(out@ =~= old(out)@ + decimal(value as nat));
}

/// The decimal numeral of `value`.
pub fn to_decimal(value: u64) -> (text: String)
    ensures
        text@ == decimal(value as nat),
{
    let mut text = String::new();
    push_decimal(&mut text, value);
    assert(text@ =~= decimal(value as nat));
    text
}

/// Whether two slices hold the same text.
pub fn same_text(left: &str, right: &str) -> (same: bool)
    ensures
        same == (left@ == right@),
{
    let left = String::from_str(left);
    let right = String::from_str(right);
    left == right
}

/// Appends `letter` to `text`, with `String::push` of std, which does that
/// and nothing else.
#[verifier::external_body]
fn push_char(text: &mut String, letter: char)
    ensures
        final(text)@ == old(text)@.push(letter),
{
    text.push(letter)
}

/// `text` with every `from` turned into `to`.
pub open spec fn spec_replace_char(text: Seq<char>, from: char, to: char) -> Seq<char> {
    Seq::new(
        text.len(),
        |at: int|
            if text[at] == from {
                to
            } else {
                text[at]
            },
    )
}

/// Rewrites `text` with every `from` turned into `to`.
pub fn replace_char(text: &str, from: char, to: char) -> (rewritten: String)
    ensures
        rewritten@ == spec_replace_char(text@, from, to),
{
    let length = text.unicode_len();
    let mut rewritten = String::new();
    let mut at: usize = 0;
    while at < length
        invariant
            length == text@.len(),
            at <= length,
            rewritten@ == spec_replace_char(text@.take(at as int), from, to),
        decreases length - at,
    {
        let letter = text.get_char(at);
        if letter == from {
            push_char(&mut rewritten, to);
        } else {
            push_char(&mut rewritten, letter);
        }
        assert(rewritten@ =~= spec_replace_char(text@.take(at + 1), from, to));
        at = at + 1;
    }
    assert(text@.take(length as int) =~= text@);
    rewritten
}

/// `needle` stands in `haystack` at `at`, byte for byte.
pub open spec fn occurs_at(haystack: Seq<u8>, needle: Seq<u8>, at: int) -> bool {
    &&& 0 <= at
    &&& at + needle.len() <= haystack.len()
    &&& haystack.subrange(at, at + needle.len()) == needle
}

/// `needle` stands somewhere in `haystack`.
pub open spec fn spec_contains(haystack: Seq<u8>, needle: Seq<u8>) -> bool {
    exists|at: int| occurs_at(haystack, needle, at)
}

fn matches_at(haystack: &[u8], needle: &[u8], at: usize) -> (same: bool)
    requires
        at + needle@.len() <= haystack@.len(),
    ensures
        same == occurs_at(haystack@, needle@, at as int),
{
    let length = needle.len();
    let room = haystack.len();
    let mut checked: usize = 0;
    while checked < length
        invariant
            length == needle@.len(),
            room == haystack@.len(),
            at + length <= room,
            checked <= length,
            forall|k: int| 0 <= k < checked ==> haystack@[at + k] == needle@[k],
        decreases length - checked,
    {
        if haystack[at + checked] != needle[checked] {
            assert(haystack@.subrange(at as int, at + needle@.len())[checked as int]
                != needle@[checked as int]);
            return false;
        }
        checked = checked + 1;
    }
    assert(haystack@.subrange(at as int, at + needle@.len()) =~= needle@);
    true
}

/// Whether the text of `needle` stands somewhere in the text of `haystack`.
/// Texts are compared by their bytes.
pub fn contains_text(haystack: &str, needle: &str) -> (found: bool)
    ensures
        found == spec_contains(haystack.spec_bytes(), needle.spec_bytes()),
{
    let hay = haystack.as_bytes();
    let pin = needle.as_bytes();
    if pin.len() > hay.len() {
        assert forall|at: int| !occurs_at(hay@, pin@, at) by {}
        return false;
    }
    let last = hay.len() - pin.len();
    let mut at: usize = 0;
    while at < last
        invariant
            hay@ == haystack.spec_bytes(),
            pin@ == needle.spec_bytes(),
            last == hay@.len() - pin@.len(),
            at <= last,
            forall|earlier: int| 0 <= earlier < at ==> !occurs_at(hay@, pin@, earlier),
        decreases last - at,
    {
        if matches_at(hay, pin, at) {
            return true;
        }
        at = at + 1;
    }
    let found = matches_at(hay, pin, last);
    proof {
        if !found {
            assert forall|any: int| !occurs_at(hay@, pin@, any) by {}
        }
    }
    found
}

} // verus!
