//! The coins that come with a call.

use vstd::prelude::*;
use cosmwasm_std::{Addr, Coin as StdCoin, MessageInfo as StdMessageInfo, Uint128};
use cw_utils::PaymentError as StdPaymentError;
use crate::coin::Coin;
use crate::msg::MessageInfo;

verus! {

/// Why the coins that came with a call are not what the call needs.
#[derive(Debug, Clone, PartialEq, Eq)]
pub enum PaymentError {
    MissingDenom(String),
    ExtraDenom(String),
    MultipleDenoms,
    NoFunds,
    NonPayable,
}

/// Whether exactly one coin came, of an amount that is not zero.
pub open spec fn pays_one_coin(funds: Seq<Coin>) -> bool {
    funds.len() == 1 && funds[0].amount != 0
}

/// What is wrong with funds that are not one coin: more than one coin is
/// more than one denomination, everything else is no funds.
pub open spec fn payment_failure(funds: Seq<Coin>) -> PaymentError {
    if funds.len() > 1 {
        PaymentError::MultipleDenoms
    } else {
        PaymentError::NoFunds
    }
}

/// `cw_utils::one_coin`: the one coin that came with the call. It is handed
/// out where exactly one coin came and its amount is not zero. No coin, or
/// one coin of amount zero, counts as no funds; two coins or more as more
/// than one denomination.
#[verifier::external_body]
pub(crate) fn one_coin(info: &MessageInfo) -> (r: Result<Coin, PaymentError>)
    ensures
        r is Ok <==> pays_one_coin(info.funds@),
        r is Ok ==> r->Ok_0@ == info.funds@[0]@,
        r is Err ==> r->Err_0 == payment_failure(info.funds@),
{
    let funds = info.funds.iter().map(
        |c| StdCoin { denom: c.denom.clone(), amount: Uint128::new(c.amount) },
    ).collect();
    let outside = StdMessageInfo { sender: Addr::unchecked(&info.sender), funds };
    match cw_utils::one_coin(&outside) {
        Ok(c) => Ok(Coin { denom: c.denom, amount: c.amount.u128() }),
        Err(StdPaymentError::MissingDenom(d)) => Err(PaymentError::MissingDenom(d)),
        Err(StdPaymentError::ExtraDenom(d)) => Err(PaymentError::ExtraDenom(d)),
        Err(StdPaymentError::MultipleDenoms {  }) => Err(PaymentError::MultipleDenoms),
        Err(StdPaymentError::NoFunds {  }) => Err(PaymentError::NoFunds),
        Err(StdPaymentError::NonPayable {  }) => Err(PaymentError::NonPayable),
    }
}

} // verus!
