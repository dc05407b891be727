//! The swap adapter for the Lido Satellite: it wraps the one coin that comes
//! with a swap by having the satellite mint against it, and hands the
//! proceeds back to the caller. The route of the swap plays no part.

use vstd::prelude::*;
use crate::coin::{coins_view, Coin};
use crate::error::SkipError;
use crate::msg::{
    action, AttributeView, Message, MessageInfo, MessageView, Response, ResponseView,
};
use crate::payment::{one_coin, payment_failure, pays_one_coin, PaymentError};
use crate::swap::{
    execute_transfer_funds_back, ExecuteMsg, ExecuteMsgView, LidoSatelliteInstantiateMsg,
    SwapOperation,
};

verus! {

/// Why the adapter turned a call down.
#[derive(Debug, Clone, PartialEq, Eq)]
pub enum ContractError {
    /// A failure that all adapters share.
    Skip(SkipError),
    /// The coins that came with the call are not exactly one coin.
    Payment(PaymentError),
    /// The caller is not the entry point.
    Unauthorized,
}

/// What the adapter keeps between calls: the only address that may ask for a
/// swap, and the address of the satellite.
#[derive(Debug, Clone, PartialEq, Eq)]
pub struct Config {
    pub entry_point_contract_address: String,
    pub lido_satellite_contract_address: String,
}

/// Sets the adapter up: the configuration to keep, and the report of it.
pub fn instantiate(msg: LidoSatelliteInstantiateMsg) -> (outcome: (Config, Response))
    ensures
        outcome.0.entry_point_contract_address@ == msg.entry_point_contract_address@,
        outcome.0.lido_satellite_contract_address@ == msg.lido_satellite_contract_address@,
        outcome.1@ == (ResponseView {
            messages: Seq::empty(),
            attributes: seq![
                action("instantiate"@),
                AttributeView {
                    key: "entry_point_contract_address"@,
                    value: msg.entry_point_contract_address@,
                },
                AttributeView {
                    key: "lido_satellite_contract_address"@,
                    value: msg.lido_satellite_contract_address@,
                },
            ],
        }),
{
    let response = Response::new().add_attribute("action", "instantiate").add_attribute(
        "entry_point_contract_address",
        msg.entry_point_contract_address.as_str(),
    ).add_attribute(
        "lido_satellite_contract_address",
        msg.lido_satellite_contract_address.as_str(),
    );
    proof {
        assert(response@.attributes =~= seq![
            action("instantiate"@),
            AttributeView {
                key: "entry_point_contract_address"@,
                value: msg.entry_point_contract_address@,
            },
            AttributeView {
                key: "lido_satellite_contract_address"@,
                value: msg.lido_satellite_contract_address@,
            },
        ]);
    }
    let config = Config {
        entry_point_contract_address: msg.entry_point_contract_address,
        lido_satellite_contract_address: msg.lido_satellite_contract_address,
    };
    (config, response)
}

/// The two messages of a swap of `coin_in` for `swapper`: the satellite mints
/// against the coin, then the adapter at `contract_address` calls itself to
/// hand the proceeds back.
pub open spec fn swap_messages(
    config: Config,
    contract_address: Seq<char>,
    swapper: Seq<char>,
    coin_in: Coin,
) -> Seq<MessageView> {
    seq![
        MessageView::Mint {
            contract_addr: config.lido_satellite_contract_address@,
            receiver: None,
            funds: seq![coin_in@],
        },
        MessageView::Execute {
            contract_addr: contract_address,
            msg: ExecuteMsgView::TransferFundsBack { swapper },
            funds: Seq::empty(),
        },
    ]
}

/// What a swap through the adapter comes to.
pub open spec fn swap_outcome(config: Config, contract_address: Seq<char>, info: MessageInfo) -> Result<
    ResponseView,
    ContractError,
> {
    if info.sender@ != config.entry_point_contract_address@ {
        Err(ContractError::Unauthorized)
    } else if !pays_one_coin(info.funds@) {
        Err(ContractError::Payment(payment_failure(info.funds@)))
    } else {
        Ok(
            ResponseView {
                messages: swap_messages(config, contract_address, info.sender@, info.funds@[0]),
                attributes: seq![action("dispatch_swap_and_transfer_back"@)],
            },
        )
    }
}

/// Swaps the one coin that came with the call. Only the entry point may ask;
/// the route is not looked at.
pub fn execute_swap(
    config: &Config,
    contract_address: &String,
    info: &MessageInfo,
    _operations: Vec<SwapOperation>,
) -> (outcome: Result<Response, ContractError>)
    ensures
        (match outcome {
            Ok(response) => Ok::<ResponseView, ContractError>(response@),
            Err(error) => Err::<ResponseView, ContractError>(error),
        }) == swap_outcome(*config, contract_address@, *info),
{
    if info.sender != config.entry_point_contract_address {
        return Err(ContractError::Unauthorized);
    }
    let coin_in = match one_coin(info) {
        Ok(coin) => coin,
        Err(e) => {
            return Err(ContractError::Payment(e));
        },
    };
    let mut funds: Vec<Coin> = Vec::new();
    funds.push(coin_in);
    proof {
        assert(coins_view(funds@) == seq![info.funds@[0]@]);
    }
    let swap_msg = Message::Mint {
        contract_addr: config.lido_satellite_contract_address.clone(),
        receiver: None,
        funds,
    };
    let no_funds: Vec<Coin> = Vec::new();
    proof {
        assert(coins_view(no_funds@) == Seq::<crate::coin::CoinView>::empty());
    }
    let transfer_funds_back_msg = Message::Execute {
        contract_addr: contract_address.clone(),
        msg: ExecuteMsg::TransferFundsBack { swapper: info.sender.clone() },
        funds: no_funds,
    };
    let response = Response::new().add_message(swap_msg).add_message(
        transfer_funds_back_msg,
    ).add_attribute("action", "dispatch_swap_and_transfer_back");
    proof {
        assert(response@.messages == swap_messages(
            *config,
            contract_address@,
            info.sender@,
            info.funds@[0],
        ));
    }
    Ok(response)
}

/// Carries out one call of the adapter. `balances` is what the adapter holds;
/// it is only looked at where the adapter hands its funds back.
pub fn execute(
    config: &Config,
    contract_address: &String,
    info: &MessageInfo,
    msg: ExecuteMsg,
    balances: Vec<Coin>,
) -> (outcome: Result<Response, ContractError>)
    ensures
        msg is Swap ==> (match outcome {
            Ok(response) => Ok::<ResponseView, ContractError>(response@),
            Err(error) => Err::<ResponseView, ContractError>(error),
        }) == swap_outcome(*config, contract_address@, *info),
        msg is TransferFundsBack && info.sender@ != contract_address@ ==> outcome == Err::<
            Response,
            ContractError,
        >(ContractError::Skip(SkipError::Unauthorized)),
        msg is TransferFundsBack && info.sender@ == contract_address@ ==> outcome is Ok
            && outcome->Ok_0@ == (ResponseView {
            messages: seq![
                MessageView::Send {
                    to_address: msg->TransferFundsBack_swapper@,
                    amount: coins_view(balances@),
                },
            ],
            attributes: seq![action("dispatch_transfer_funds_back_bank_send"@)],
        }),
{
    match msg {
        ExecuteMsg::Swap { operations } => execute_swap(config, contract_address, info, operations),
        ExecuteMsg::TransferFundsBack { swapper } => {
            match execute_transfer_funds_back(contract_address, info, swapper, balances) {
                Ok(response) => Ok(response),
                Err(e) => Err(ContractError::Skip(e)),
            }
        },
    }
}

} // verus!
