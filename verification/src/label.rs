//! The text of the seed label.

use vstd::prelude::*;
use vstd::string::*;
use crate::seed::CurrentSeed;

verus! {

/// The character that writes the decimal digit `d`.
pub open spec fn digit_char(d: int) -> char {
    if d == 0 {
        '0'
    } else if d == 1 {
        '1'
    } else if d == 2 {
        '2'
    } else if d == 3 {
        '3'
    } else if d == 4 {
        '4'
    } else if d == 5 {
        '5'
    } else if d == 6 {
        '6'
    } else if d == 7 {
        '7'
    } else if d == 8 {
        '8'
    } else {
        '9'
    }
}

/// The decimal digits of `n`, most significant first, without leading zeros.
pub open spec fn digits(n: nat) -> Seq<char>
    decreases n,
{
    if n < 10 {
        seq![digit_char(n as int)]
    } else {
        digits(n / 10).push(digit_char((n % 10) as int))
    }
}

/// `value` in decimal: a minus sign if it is negative, then the digits of its
/// magnitude.
pub open spec fn decimal(value: int) -> Seq<char> {
    if value < 0 {
        seq!['-'] + digits((-value) as nat)
    } else {
        digits(value as nat)
    }
}

/// What precedes the number in the label.
pub open spec fn label_prefix() -> Seq<char> {
    seq!['S', 'e', 'e', 'd', ':', ' ']
}

/// The label shown for `seed`.
pub open spec fn label_text(seed: int) -> Seq<char> {
    label_prefix() + decimal(seed)
}

/// The digit that `c` writes.
pub open spec fn digit_value(c: char) -> int {
    if c == '0' {
        0
    } else if c == '1' {
        1
    } else if c == '2' {
        2
    } else if c == '3' {
        3
    } else if c == '4' {
        4
    } else if c == '5' {
        5
    } else if c == '6' {
        6
    } else if c == '7' {
        7
    } else if c == '8' {
        8
    } else {
        9
    }
}

/// The number that a run of decimal digits writes.
pub open spec fn number_of(digits: Seq<char>) -> int
    decreases digits.len(),
{
    if digits.len() == 0 {
        0
    } else {
        number_of(digits.drop_last()) * 10 + digit_value(digits.last())
    }
}

/// The whole number that `text` writes in decimal, with a leading minus sign
/// for a negative one.
pub open spec fn integer_of(text: Seq<char>) -> int {
    if text.len() > 0 && text[0] == '-' {
        -number_of(text.drop_first())
    } else {
        number_of(text)
    }
}

/// The whole number that a label displays: what follows the prefix, read in
/// decimal.
pub open spec fn displayed_integer(label: Seq<char>) -> int {
    integer_of(label.subrange(label_prefix().len() as int, label.len() as int))
}

fn digit_text(d: u64) -> (text: &'static str)
    requires
        d < 10,
    ensures
        text@ == seq![digit_char(d as int)],
{
    proof {
        reveal_strlit("0");
        reveal_strlit("1");
        reveal_strlit("2");
        reveal_strlit("3");
        reveal_strlit("4");
        reveal_strlit("5");
        reveal_strlit("6");
        reveal_strlit("7");
        reveal_strlit("8");
        reveal_strlit("9");
    }
    let text = if d == 0 {
        "0"
    } else if d == 1 {
        "1"
    } else if d == 2 {
        "2"
    } else if d == 3 {
        "3"
    } else if d == 4 {
        "4"
    } else if d == 5 {
        "5"
    } else if d == 6 {
        "6"
    } else if d == 7 {
        "7"
    } else if d == 8 {
        "8"
    } else {
        "9"
    };
    assert(text@ =~= seq![digit_char(d as int)]);
    text
}

fn push_digits(text: &mut String, n: u64)
    ensures
        final(text)@ == old(text)@ + digits(n as nat),
    decreases n,
{
    if n >= 10 {
        push_digits(text, n / 10);
    }
    text.append(digit_text(n % 10));
    assert(text@ =~= old(text)@ + digits(n as nat));
}

/// Writes `value` in decimal.
pub fn decimal_text(value: i64) -> (text: String)
    ensures
        text@ == decimal(value as int),
{
    let mut text = String::new();
    if value < 0 {
        proof {
            reveal_strlit("-");
        }
        text.append("-");
        push_digits(&mut text, (-(value as i128)) as u64);
    } else {
        push_digits(&mut text, value as u64);
    }
    assert(text@ =~= decimal(value as int));
    text
}

/// Writes the label for `seed`.
pub fn seed_label(seed: &CurrentSeed) -> (text: String)
    ensures
        text@ == label_text(seed@),
{
    proof {
        reveal_strlit("Seed: ");
    }
    let mut text = String::from_str("Seed: ");
    let number = decimal_text(seed.value());
    text.append(number.as_str());
    assert(text@ =~= label_text(seed@));
    text
}

} // verus!
