//! Amount arithmetic, carried out by `cosmwasm_std::Uint128`.

use vstd::prelude::*;
use cosmwasm_std::Uint128;

verus! {

/// The character of one decimal digit.
pub open spec fn digit_char(d: nat) -> char
    recommends
        d < 10,
{
    if d == 0 {
        '0'
    } else if d == 1 {
        '1'
    } else if d == 2 {
        '2'
    } else if d == 3 {
        '3'
    } else if d == 4 {
        '4'
    } else if d == 5 {
        '5'
    } else if d == 6 {
        '6'
    } else if d == 7 {
        '7'
    } else if d == 8 {
        '8'
    } else {
        '9'
    }
}

/// A number written in base ten, without sign or leading zeros.
pub open spec fn decimal(n: nat) -> Seq<char>
    decreases n,
{
    if n < 10 {
        seq![digit_char(n)]
    } else {
        decimal(n / 10).push(digit_char(n % 10))
    }
}

/// `u128`'s `to_string`: the number in base ten, without sign or leading
/// zeros, as `Display` writes an unsigned integer.
#[verifier::external_body]
pub(crate) fn decimal_string(n: u128) -> (text: String)
    ensures
        text@ == decimal(n as nat),
{
    n.to_string()
}

/// The arithmetic operation that left the range of its type.
#[derive(Debug, Clone, Copy, PartialEq, Eq, Structural)]
pub enum OverflowOperation {
    Add,
    Sub,
    Mul,
    Pow,
    Shr,
    Shl,
}

/// An operation on amounts whose result cannot be represented, with both
/// operands written in base ten.
#[derive(Debug, Clone, PartialEq, Eq)]
pub struct OverflowError {
    pub operation: OverflowOperation,
    pub operand1: String,
    pub operand2: String,
}

/// What an [`OverflowError`] holds, as plain values.
pub struct OverflowErrorView {
    pub operation: OverflowOperation,
    pub operand1: Seq<char>,
    pub operand2: Seq<char>,
}

impl View for OverflowError {
    type V = OverflowErrorView;

    open spec fn view(&self) -> OverflowErrorView {
        OverflowErrorView {
            operation: self.operation,
            operand1: self.operand1@,
            operand2: self.operand2@,
        }
    }
}

/// The error of subtracting `b` from a smaller `a`.
pub open spec fn sub_overflow(a: nat, b: nat) -> OverflowErrorView {
    OverflowErrorView {
        operation: OverflowOperation::Sub,
        operand1: decimal(a),
        operand2: decimal(b),
    }
}

/// `Uint128::checked_sub`: the difference `a - b` where `b` does not exceed
/// `a`; otherwise the crate's overflow error, which names the subtraction and
/// carries both operands as `Uint128` displays them, in base ten.
#[verifier::external_body]
pub(crate) fn uint128_checked_sub(a: u128, b: u128) -> (r: Result<u128, OverflowError>)
    ensures
        r is Ok <==> b <= a,
        r is Ok ==> r->Ok_0 == a - b,
        r is Err ==> r->Err_0@ == sub_overflow(a as nat, b as nat),
{
    match Uint128::new(a).checked_sub(Uint128::new(b)) {
        Ok(v) => Ok(v.u128()),
        Err(e) => Err(OverflowError {
            operation: match e.operation {
                cosmwasm_std::OverflowOperation::Add => OverflowOperation::Add,
                cosmwasm_std::OverflowOperation::Sub => OverflowOperation::Sub,
                cosmwasm_std::OverflowOperation::Mul => OverflowOperation::Mul,
                cosmwasm_std::OverflowOperation::Pow => OverflowOperation::Pow,
                cosmwasm_std::OverflowOperation::Shr => OverflowOperation::Shr,
                cosmwasm_std::OverflowOperation::Shl => OverflowOperation::Shl,
            },
            operand1: e.operand1,
            operand2: e.operand2,
        }),
    }
}

/// `Uint128::multiply_ratio`: `amount * numerator / denominator`, rounded
/// down, with the product taken in 256 bits. The call panics on a zero
/// denominator and on a quotient beyond 128 bits, so both are excluded.
#[verifier::external_body]
pub(crate) fn uint128_multiply_ratio(amount: u128, numerator: u128, denominator: u128) -> (r: u128)
    requires
        denominator != 0,
        (amount as int) * (numerator as int) / (denominator as int) <= u128::MAX,
    ensures
        r as int == (amount as int) * (numerator as int) / (denominator as int),
{
    Uint128::new(amount).multiply_ratio(numerator, denominator).u128()
}

} // verus!
