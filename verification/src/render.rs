//! Numbers as text: decimal digits, with or without leading zeros.

use vstd::prelude::*;
use vstd::string::*;

verus! {

/// The character of a decimal digit.
pub open spec fn digit_char(d: int) -> char {
    if d == 0 {
        '0'
    } else if d == 1 {
        '1'
    } else if d == 2 {
        '2'
    } else if d == 3 {
        '3'
    } else if d == 4 {
        '4'
    } else if d == 5 {
        '5'
    } else if d == 6 {
        '6'
    } else if d == 7 {
        '7'
    } else if d == 8 {
        '8'
    } else {
        '9'
    }
}

/// A natural number in decimal digits, without leading zeros.
pub open spec fn decimal(n: nat) -> Seq<char>
    decreases n,
{
    if n < 10 {
        seq![digit_char(n as int)]
    } else {
        decimal(n / 10).push(digit_char((n % 10) as int))
    }
}

/// An integer in decimal digits, with a minus sign where it is negative.
pub open spec fn signed_decimal(n: int) -> Seq<char> {
    if n < 0 {
        seq!['-'] + decimal((-n) as nat)
    } else {
        decimal(n as nat)
    }
}

/// A text filled up with zeros at the front to at least `width` characters.
pub open spec fn zero_filled(text: Seq<char>, width: nat) -> Seq<char>
    decreases width - text.len(),
{
    if text.len() >= width {
        text
    } else {
        zero_filled(seq!['0'] + text, width)
    }
}

/// The text of one decimal digit.
pub fn digit(d: u64) -> (text: &'static str)
    requires
        d < 10,
    ensures
        text@ == seq![digit_char(d as int)],
{
    proof {
        reveal_strlit("0");
        reveal_strlit("1");
        reveal_strlit("2");
        reveal_strlit("3");
        reveal_strlit("4");
        reveal_strlit("5");
        reveal_strlit("6");
        reveal_strlit("7");
        reveal_strlit("8");
        reveal_strlit("9");
    }
    let text = if d == 0 {
        "0"
    } else if d == 1 {
        "1"
    } else if d == 2 {
        "2"
    } else if d == 3 {
        "3"
    } else if d == 4 {
        "4"
    } else if d == 5 {
        "5"
    } else if d == 6 {
        "6"
    } else if d == 7 {
        "7"
    } else if d == 8 {
        "8"
    } else {
        "9"
    };
    assert(text@ =~= seq![digit_char(d as int)]);
    text
}

/// A number in decimal digits.
pub fn to_decimal(n: u64) -> (text: String)
    ensures
        text@ == decimal(n as nat),
    decreases n,
{
    if n < 10 {
        String::from_str(digit(n))
    } else {
        let mut text = to_decimal(n / 10);
        text.append(digit(n % 10));
        text
    }
}

/// A signed number in decimal digits.
pub fn to_signed_decimal(n: i32) -> (text: String)
    ensures
        text@ == signed_decimal(n as int),
{
    if n < 0 {
        let size: u64 = (-(n as i64)) as u64;
        let mut text = String::from_str("-");
        let digits = to_decimal(size);
        text.append(digits.as_str());
        proof {
            reveal_strlit("-");
            assert("-"@ =~= seq!['-']);
        }
        text
    } else {
        to_decimal(n as u64)
    }
}

/// A number in decimal digits, filled up with zeros at the front to at least
/// `width` characters.
pub fn to_zero_filled(n: u64, width: usize) -> (text: String)
    ensures
        text@ == zero_filled(decimal(n as nat), width as nat),
{
    let mut text = to_decimal(n);
    loop
        invariant
            zero_filled(text@, width as nat) == zero_filled(decimal(n as nat), width as nat),
        ensures
            text@ == zero_filled(decimal(n as nat), width as nat),
        decreases width - text@.len(),
    {
        if text.as_str().unicode_len() >= width {
            break;
        }
        let mut longer = String::from_str("0");
        longer.append(text.as_str());
        proof {
            reveal_strlit("0");
            assert(longer@ =~= seq!['0'] + text@);
        }
        text = longer;
    }
    text
}

} // verus!
