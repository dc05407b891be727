//! String slices: comparison, and unsigned numbers written in base ten.

use vstd::prelude::*;
use core::num::ParseIntError;

verus! {

/// Equality of two string slices, by `str`'s `PartialEq::eq`: the result is
/// `true` exactly when both hold the same characters in the same order.
#[verifier::external_body]
pub(crate) fn str_eq(a: &str, b: &str) -> (same: bool)
    ensures
        same == (a@ == b@),
{
    a == b
}

/// The error with which the standard library turns down a string that is to
/// be read as an integer. Nothing is known of what it holds.
#[verifier::external_type_specification]
#[verifier::external_body]
pub struct ExParseIntError(ParseIntError);

/// Whether `c` is one of the digits `0` to `9`.
pub open spec fn is_digit(c: char) -> bool {
    '0' <= c <= '9'
}

/// The number that a sequence of digits stands for in base ten.
pub open spec fn digits_value(digits: Seq<char>) -> nat
    decreases digits.len(),
{
    if digits.len() == 0 {
        0
    } else {
        digits_value(digits.drop_last()) * 10 + ((digits.last() as u32) - ('0' as u32)) as nat
    }
}

/// The text without the one plus sign that may lead it.
pub open spec fn without_plus(text: Seq<char>) -> Seq<char> {
    if text.len() > 0 && text[0] == '+' {
        text.drop_first()
    } else {
        text
    }
}

/// Whether `text` is an unsigned 64-bit number in base ten: an optional plus
/// sign, then at least one digit and nothing but digits, of a value within
/// 64 bits.
pub open spec fn is_u64_text(text: Seq<char>) -> bool {
    let digits = without_plus(text);
    &&& digits.len() > 0
    &&& forall|i: int| 0 <= i < digits.len() ==> is_digit(#[trigger] digits[i])
    &&& digits_value(digits) <= u64::MAX
}

/// The error that reading `text` as an unsigned 64-bit number gives, where
/// `text` is none.
pub uninterp spec fn parse_u64_error(text: Seq<char>) -> ParseIntError;

/// What reading `text` as an unsigned 64-bit number gives.
pub open spec fn parse_u64_of(text: Seq<char>) -> Result<u64, ParseIntError> {
    if is_u64_text(text) {
        Ok(digits_value(without_plus(text)) as u64)
    } else {
        Err(parse_u64_error(text))
    }
}

/// `str::parse::<u64>`: reads a number in base ten. It succeeds on an optional
/// plus sign followed by digits only, at least one, whose value fits in 64
/// bits, and gives that value. On every other text it fails, with an error
/// that depends on the text alone.
#[verifier::external_body]
pub(crate) fn parse_u64(text: &str) -> (r: Result<u64, ParseIntError>)
    ensures
        r is Ok <==> is_u64_text(text@),
        r is Ok ==> r->Ok_0 == digits_value(without_plus(text@)),
        r is Err ==> r->Err_0 == parse_u64_error(text@),
{
    text.parse::<u64>()
}

} // verus!
