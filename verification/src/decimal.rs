//! Integers in decimal notation, as they are written into addresses and
//! request parameters.

use vstd::prelude::*;

verus! {

/// The character of a decimal digit.
pub open spec fn digit_char(digit: int) -> char {
    ((0x30 + digit) as u8) as char
}

/// A natural number in decimal notation, without leading zeros.
pub open spec fn decimal_of_nat(n: nat) -> Seq<char>
    decreases n,
{
    if n < 10 {
        seq![digit_char(n as int)]
    } else {
        decimal_of_nat(n / 10) + seq![digit_char((n % 10) as int)]
    }
}

/// An integer in decimal notation: `-` before the digits of a negative one.
pub open spec fn decimal_of(value: int) -> Seq<char> {
    if value < 0 {
        seq!['-'] + decimal_of_nat((-value) as nat)
    } else {
        decimal_of_nat(value as nat)
    }
}

fn digit_text(digit: u64) -> (text: &'static str)
    requires
        digit < 10,
    ensures
        text@ == seq![digit_char(digit as int)],
{
    proof {
        reveal_strlit("0");
        reveal_strlit("1");
        reveal_strlit("2");
        reveal_strlit("3");
        reveal_strlit("4");
        reveal_strlit("5");
        reveal_strlit("6");
        reveal_strlit("7");
        reveal_strlit("8");
        reveal_strlit("9");
    }
    let text = if digit == 0 {
        "0"
    } else if digit == 1 {
        "1"
    } else if digit == 2 {
        "2"
    } else if digit == 3 {
        "3"
    } else if digit == 4 {
        "4"
    } else if digit == 5 {
        "5"
    } else if digit == 6 {
        "6"
    } else if digit == 7 {
        "7"
    } else if digit == 8 {
        "8"
    } else {
        "9"
    };
    assert(text@ =~= seq![digit_char(digit as int)]);
    text
}

fn decimal_u64(n: u64) -> (text: String)
    ensures
        text@ == decimal_of_nat(n as nat),
    decreases n,
{
    if n < 10 {
        String::from_str(digit_text(n))
    } else {
        let mut text = decimal_u64(n / 10);
        text.append(digit_text(n % 10));
        text
    }
}

/// Writes `value` in decimal notation.
pub fn decimal(value: i64) -> (text: String)
    ensures
        text@ == decimal_of(value as int),
{
    if value < 0 {
        let magnitude: u64 = (-(value + 1)) as u64 + 1;
        proof {
            reveal_strlit("-");
        }
        let mut text = String::from_str("-");
        assert(text@ =~= seq!['-']);
        let digits = decimal_u64(magnitude);
        text.append(digits.as_str());
        text
    } else {
        decimal_u64(value as u64)
    }
}

} // verus!
