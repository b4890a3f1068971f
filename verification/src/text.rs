//! Texts that the client composes: numbers in decimal and the diagnosis that
//! goes with a failed request.

use vstd::prelude::*;
use vstd::string::StringExecFns;

verus! {

/// The text of an optional string.
pub open spec fn opt_text(text: Option<String>) -> Option<Seq<char>> {
    match text {
        Some(t) => Some(t@),
        None => None,
    }
}

/// The text of an optional string slice.
pub open spec fn opt_str(text: Option<&str>) -> Option<Seq<char>> {
    match text {
        Some(t) => Some(t@),
        None => None,
    }
}

/// The character of a decimal digit.
pub open spec fn digit(value: nat) -> char
    recommends
        value < 10,
{
    if value == 0 {
        '0'
    } else if value == 1 {
        '1'
    } else if value == 2 {
        '2'
    } else if value == 3 {
        '3'
    } else if value == 4 {
        '4'
    } else if value == 5 {
        '5'
    } else if value == 6 {
        '6'
    } else if value == 7 {
        '7'
    } else if value == 8 {
        '8'
    } else {
        '9'
    }
}

/// A number in decimal, without leading zeros.
pub open spec fn decimal(number: nat) -> Seq<char>
    decreases number,
{
    if number < 10 {
        seq![digit(number)]
    } else {
        decimal(number / 10).push(digit(number % 10))
    }
}

/// The text that Rust's `Debug` formatting prints for a string: the string in
/// double quotes, with the characters that need it escaped.
pub uninterp spec fn debug_text(text: Seq<char>) -> Seq<char>;

/// `format!("{:?}", text)`: the string as `Debug` prints it.
#[verifier::external_body]
fn debug_quoted(text: &str) -> (quoted: String)
    ensures
        quoted@ == debug_text(text@),
{
    format!("{:?}", text)
}

/// The diagnosis made of a status code and of a body that is quoted already.
pub open spec fn failure_detail_of(status_code: u16, quoted_body: Seq<char>) -> Seq<char> {
    "status_code: "@ + decimal(status_code as nat) + ", payload: "@ + quoted_body
}

/// The diagnosis that goes with a response that reports a failure: its status
/// code and its body, the body quoted as `Debug` prints it.
pub open spec fn failure_detail(status_code: u16, body: Seq<char>) -> Seq<char> {
    failure_detail_of(status_code, debug_text(body))
}

/// The one-character string of a decimal digit.
fn digit_text(value: u64) -> (text: &'static str)
    requires
        value < 10,
    ensures
        text@ == seq![digit(value as nat)],
{
    proof {
        reveal_strlit("0");
        reveal_strlit("1");
        reveal_strlit("2");
        reveal_strlit("3");
        reveal_strlit("4");
        reveal_strlit("5");
        reveal_strlit("6");
        reveal_strlit("7");
        reveal_strlit("8");
        reveal_strlit("9");
    }
    let text = if value == 0 {
        "0"
    } else if value == 1 {
        "1"
    } else if value == 2 {
        "2"
    } else if value == 3 {
        "3"
    } else if value == 4 {
        "4"
    } else if value == 5 {
        "5"
    } else if value == 6 {
        "6"
    } else if value == 7 {
        "7"
    } else if value == 8 {
        "8"
    } else {
        "9"
    };
    assert(text@ =~= seq![digit(value as nat)]);
    text
}

/// Writes a number in decimal.
pub fn decimal_text(number: u64) -> (text: String)
    ensures
        text@ == decimal(number as nat),
    decreases number,
{
    if number < 10 {
        String::from_str(digit_text(number))
    } else {
        let mut text = decimal_text(number / 10);
        text.append(digit_text(number % 10));
        assert(text@ =~= decimal(number as nat));
        text
    }
}

/// Writes the diagnosis made of a status code and of a body that is quoted
/// already.
pub fn compose_failure(status_code: u16, quoted_body: &str) -> (detail: String)
    ensures
        detail@ == failure_detail_of(status_code, quoted_body@),
{
    let mut detail = String::from_str("status_code: ");
    detail.append(decimal_text(status_code as u64).as_str());
    detail.append(", payload: ");
    detail.append(quoted_body);
    detail
}

/// Writes the diagnosis that goes with a response that reports a failure.
pub fn describe_failure(status_code: u16, body: &str) -> (detail: String)
    ensures
        detail@ == failure_detail(status_code, body@),
{
    compose_failure(status_code, debug_quoted(body).as_str())
}

} // verus!
