//! Text: comparing it, and reading and writing decimal numbers.

use std::num::ParseIntError;
use std::str::FromStr;

use vstd::prelude::*;
use vstd::string::StringExecFns;

verus! {

/// The error of the standard library's integer parsers. It is only carried through.
#[verifier::external_type_specification]
#[verifier::external_body]
pub struct ExParseIntError(ParseIntError);

/// Whether `c` is one of the decimal digits `0` to `9`.
pub open spec fn is_digit(c: char) -> bool {
    48 <= c as int <= 57
}

/// Whether `text` is one decimal digit or more, and nothing else.
pub open spec fn is_number(text: Seq<char>) -> bool {
    text.len() > 0 && forall|i: int| 0 <= i < text.len() ==> is_digit(#[trigger] text[i])
}

/// The number that decimal digits stand for.
pub open spec fn number_value(digits: Seq<char>) -> int
    decreases digits.len(),
{
    if digits.len() == 0 {
        0
    } else {
        10 * number_value(digits.drop_last()) + (digits.last() as int - 48)
    }
}

/// The value of an unsigned decimal number, which may have a plus sign before it.
pub open spec fn unsigned_value(text: Seq<char>) -> Option<int> {
    let digits = if text.len() > 0 && text[0] == '+' {
        text.skip(1)
    } else {
        text
    };
    if is_number(digits) {
        Some(number_value(digits))
    } else {
        None
    }
}

/// The value of a signed decimal number, which may have a sign before it.
pub open spec fn signed_value(text: Seq<char>) -> Option<int> {
    if text.len() > 0 && text[0] == '-' {
        if is_number(text.skip(1)) {
            Some(-number_value(text.skip(1)))
        } else {
            None
        }
    } else {
        unsigned_value(text)
    }
}

/// The value of `text` as an `i64`: none where it is no decimal number or one out
/// of range.
pub open spec fn i64_value(text: Seq<char>) -> Option<i64> {
    match signed_value(text) {
        Some(value) => if i64::MIN <= value <= i64::MAX {
            Some(value as i64)
        } else {
            None
        },
        None => None,
    }
}

/// The value of `text` as a `u32`: none where it is no decimal number or one out
/// of range.
pub open spec fn u32_value(text: Seq<char>) -> Option<u32> {
    match unsigned_value(text) {
        Some(value) => if value <= u32::MAX {
            Some(value as u32)
        } else {
            None
        },
        None => None,
    }
}

/// What `i64::from_str` returns for a text: the number, or the error, which is opaque
/// here.
pub uninterp spec fn i64_from_str(text: Seq<char>) -> Result<i64, ParseIntError>;

/// Calls `i64::from_str`. It succeeds exactly on an optional sign followed by
/// decimal digits whose value is in range, and then returns that value. Otherwise it
/// returns an error that the text determines; of which kind that is nothing is said.
#[verifier::external_body]
pub(crate) fn parse_i64(text: &str) -> (value: Result<i64, ParseIntError>)
    ensures
        value == i64_from_str(text@),
        value is Ok <==> i64_value(text@) is Some,
        value matches Ok(v) ==> i64_value(text@) == Some(v),
{
    i64::from_str(text)
}

/// Calls `u32::from_str`. It succeeds exactly on an optional plus sign followed by
/// decimal digits whose value is in range, and then returns that value; nothing is
/// said of the error.
#[verifier::external_body]
pub(crate) fn parse_u32(text: &str) -> (value: Result<u32, ParseIntError>)
    ensures
        value is Ok <==> u32_value(text@) is Some,
        value matches Ok(v) ==> u32_value(text@) == Some(v),
{
    u32::from_str(text)
}

/// The decimal digit for a number below ten.
pub open spec fn digit_char(value: int) -> char {
    (48 + value) as char
}

/// The decimal digits of a natural number, without leading zeros.
pub open spec fn number_text(value: nat) -> Seq<char>
    decreases value,
{
    if value < 10 {
        seq![digit_char(value as int)]
    } else {
        number_text(value / 10).push(digit_char((value % 10) as int))
    }
}

/// The decimal text of an integer.
pub open spec fn integer_text(value: int) -> Seq<char> {
    if value < 0 {
        seq!['-'] + number_text((-value) as nat)
    } else {
        number_text(value as nat)
    }
}

/// Formats a `u32` with the standard library, which writes it in decimal.
#[verifier::external_body]
pub(crate) fn format_u32(value: u32) -> (text: String)
    ensures
        text@ == integer_text(value as int),
{
    format!("{:?}", value)
}

/// Formats an `i64` with the standard library, which writes it in decimal, with a
/// minus sign before it where it is negative.
#[verifier::external_body]
pub(crate) fn format_i64(value: i64) -> (text: String)
    ensures
        text@ == integer_text(value as int),
{
    format!("{}", value)
}

/// The word for a truth value.
pub open spec fn bool_text(value: bool) -> Seq<char> {
    if value {
        "true"@
    } else {
        "false"@
    }
}

/// Returns `true` or `false` as a word.
pub fn format_bool(value: bool) -> (text: String)
    ensures
        text@ == bool_text(value),
{
    if value {
        "true".to_owned()
    } else {
        "false".to_owned()
    }
}

/// The truth value of the word `true` or `false`; no other text has one.
pub open spec fn bool_value(text: Seq<char>) -> Option<bool> {
    if text == "true"@ {
        Some(true)
    } else if text == "false"@ {
        Some(false)
    } else {
        None
    }
}

/// Reads the word `true` or `false`.
pub fn parse_bool(text: &str) -> (value: Option<bool>)
    ensures
        value == bool_value(text@),
{
    if same_text(text, "true") {
        Some(true)
    } else if same_text(text, "false") {
        Some(false)
    } else {
        None
    }
}

/// Returns whether two texts are the same.
pub(crate) fn same_text(left: &str, right: &str) -> (same: bool)
    ensures
        same == (left@ == right@),
{
    left.to_owned() == right.to_owned()
}

/// Returns three texts, one after the other.
pub(crate) fn concat3(first: &str, second: &str, third: &str) -> (text: String)
    ensures
        text@ == first@ + second@ + third@,
{
    let mut text = first.to_owned();
    text.append(second);
    text.append(third);
    text
}

/// The digits of a natural number are a number with that value.
proof fn lemma_number_text(value: nat)
    ensures
        is_number(number_text(value)),
        number_value(number_text(value)) == value,
    decreases value,
{
    reveal_with_fuel(number_value, 2);
    if value >= 10 {
        lemma_number_text(value / 10);
        let shorter = number_text(value / 10);
        assert(number_text(value).drop_last() =~= shorter);
    }
}

/// The decimal text of an `i64` reads back as the same number.
pub proof fn law_i64_reads_back(value: i64)
    ensures
        i64_value(integer_text(value as int)) == Some(value),
{
    if value < 0 {
        let digits = number_text((-value) as nat);
        lemma_number_text((-value) as nat);
        assert(integer_text(value as int).skip(1) =~= digits);
    } else {
        lemma_number_text(value as nat);
    }
}

/// The decimal text of a `u32` reads back as the same number.
pub proof fn law_u32_reads_back(value: u32)
    ensures
        u32_value(integer_text(value as int)) == Some(value),
{
    lemma_number_text(value as nat);
}

/// The word for a truth value reads back as the same truth value.
pub proof fn law_bool_reads_back(value: bool)
    ensures
        bool_value(bool_text(value)) == Some(value),
{
    reveal_strlit("true");
    reveal_strlit("false");
    assert("true"@.len() != "false"@.len());
}

} // verus!
