//! The settlement adapter: what the result of a transfer means for the
//! payment that records it.
use crate::host::{answer_byte, read_answer_byte, PromiseOutcome};
use vstd::prelude::*;

verus! {

/// A digit as text.
pub open spec fn digit_text(digit: nat) -> Seq<char> {
    if digit == 0 {
        "0"@
    } else if digit == 1 {
        "1"@
    } else if digit == 2 {
        "2"@
    } else if digit == 3 {
        "3"@
    } else if digit == 4 {
        "4"@
    } else if digit == 5 {
        "5"@
    } else if digit == 6 {
        "6"@
    } else if digit == 7 {
        "7"@
    } else if digit == 8 {
        "8"@
    } else {
        "9"@
    }
}

/// A number in decimal, without leading zeros.
pub open spec fn decimal_text(n: nat) -> Seq<char>
    decreases n,
{
    if n < 10 {
        digit_text(n)
    } else {
        decimal_text(n / 10) + digit_text(n % 10)
    }
}

/// The status under which a transfer is recorded: its result code in decimal.
/// A transfer that gave no result code has no status.
pub open spec fn settlement_status(outcomes: Seq<PromiseOutcome>) -> Option<Seq<char>> {
    match answer_byte(outcomes) {
        Some(code) => Some(decimal_text(code as nat)),
        None => None,
    }
}

fn digit_string(digit: u8) -> (text: String)
    requires
        digit < 10,
    ensures
        text@ == digit_text(digit as nat),
{
    if digit == 0 {
        String::from_str("0")
    } else if digit == 1 {
        String::from_str("1")
    } else if digit == 2 {
        String::from_str("2")
    } else if digit == 3 {
        String::from_str("3")
    } else if digit == 4 {
        String::from_str("4")
    } else if digit == 5 {
        String::from_str("5")
    } else if digit == 6 {
        String::from_str("6")
    } else if digit == 7 {
        String::from_str("7")
    } else if digit == 8 {
        String::from_str("8")
    } else {
        String::from_str("9")
    }
}

/// Writes a result code in decimal.
pub fn code_text(code: u8) -> (text: String)
    ensures
        text@ == decimal_text(code as nat),
{
    let ones = digit_string(code % 10);
    if code < 10 {
        return ones;
    }
    let tens = digit_string((code / 10) % 10);
    if code < 100 {
        proof {
            reveal_with_fuel(decimal_text, 2);
        }
        return tens.concat(ones.as_str());
    }
    let hundreds = digit_string(code / 100);
    proof {
        reveal_with_fuel(decimal_text, 3);
    }
    hundreds.concat(tens.as_str()).concat(ones.as_str())
}

/// Reads the status under which a transfer is to be recorded.
pub fn read_settlement_status(outcomes: &Vec<PromiseOutcome>) -> (status: Option<String>)
    ensures
        match status {
            Some(text) => settlement_status(outcomes@) == Some(text@),
            None => settlement_status(outcomes@) is None,
        },
{
    match read_answer_byte(outcomes) {
        Some(code) => Some(code_text(code)),
        None => None,
    }
}

} // verus!
