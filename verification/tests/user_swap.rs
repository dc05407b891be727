use skip::coin::Coin;
use skip::entry_point::{
    execute_user_swap, user_swap_step, ContractError, SwapAction, SwapEvent, SwapState, UserSwap,
};
use skip::error::SkipError;
use skip::fee::Affiliate;
use skip::math::{OverflowError, OverflowOperation};
use skip::msg::Message;
use skip::swap::{ExecuteMsg, QueryMsg, Swap, SwapExactCoinIn, SwapExactCoinOut, SwapOperation};

fn hop(pool: &str, denom_in: &str, denom_out: &str) -> SwapOperation {
    SwapOperation {
        pool: pool.to_string(),
        denom_in: denom_in.to_string(),
        denom_out: denom_out.to_string(),
    }
}

fn exact_in(operations: Vec<SwapOperation>) -> Swap {
    Swap::SwapExactCoinIn(SwapExactCoinIn {
        swap_venue_name: "swap_venue_name".to_string(),
        operations,
    })
}

fn exact_out(operations: Vec<SwapOperation>, refund_address: Option<&str>) -> Swap {
    Swap::SwapExactCoinOut(SwapExactCoinOut {
        swap_venue_name: "swap_venue_name".to_string(),
        operations,
        refund_address: refund_address.map(|a| a.to_string()),
    })
}

fn affiliate(address: &str, basis_points_fee: u128) -> Affiliate {
    Affiliate {
        address: address.to_string(),
        basis_points_fee,
    }
}

fn swap_msg(operations: Vec<SwapOperation>, amount: u128, denom: &str) -> Message {
    Message::Execute {
        contract_addr: "swap_venue_adapter".to_string(),
        msg: ExecuteMsg::Swap { operations },
        funds: vec![Coin::new(amount, denom)],
    }
}

fn send(to_address: &str, amount: u128, denom: &str) -> Message {
    Message::Send {
        to_address: to_address.to_string(),
        amount: vec![Coin::new(amount, denom)],
    }
}

// Runs a request as the entry point would: the venue resolves to
// "swap_venue_adapter" and always asks for 500_000 untrn.
fn run(caller: &str, request: &UserSwap) -> Result<Vec<Message>, ContractError> {
    assert!(request.is_valid());
    execute_user_swap(
        request,
        &caller.to_string(),
        &"entry_point".to_string(),
        &Some("swap_venue_adapter".to_string()),
        &Coin::new(500_000, "untrn"),
    )
}

#[test]
fn exact_in_with_no_affiliates() {
    let request = UserSwap {
        swap: exact_in(vec![hop("pool", "untrn", "osmo")]),
        remaining_coin: Coin::new(1_000_000, "untrn"),
        min_coin: Coin::new(1_000_000, "osmo"),
        affiliates: vec![],
    };
    assert_eq!(
        run("entry_point", &request),
        Ok(vec![swap_msg(vec![hop("pool", "untrn", "osmo")], 1_000_000, "untrn")])
    );
}

#[test]
fn exact_in_with_single_affiliate() {
    let request = UserSwap {
        swap: exact_in(vec![hop("pool", "untrn", "osmo")]),
        remaining_coin: Coin::new(1_000_000, "untrn"),
        min_coin: Coin::new(1_000_000, "osmo"),
        affiliates: vec![affiliate("affiliate", 1000)],
    };
    assert_eq!(
        run("entry_point", &request),
        Ok(vec![
            swap_msg(vec![hop("pool", "untrn", "osmo")], 1_000_000, "untrn"),
            send("affiliate", 100_000, "osmo"),
        ])
    );
}

#[test]
fn exact_in_with_multiple_affiliates() {
    let request = UserSwap {
        swap: exact_in(vec![hop("pool", "untrn", "osmo")]),
        remaining_coin: Coin::new(1_000_000, "untrn"),
        min_coin: Coin::new(1_000_000, "osmo"),
        affiliates: vec![affiliate("affiliate_1", 1000), affiliate("affiliate_2", 1000)],
    };
    assert_eq!(
        run("entry_point", &request),
        Ok(vec![
            swap_msg(vec![hop("pool", "untrn", "osmo")], 1_000_000, "untrn"),
            send("affiliate_1", 100_000, "osmo"),
            send("affiliate_2", 100_000, "osmo"),
        ])
    );
}

#[test]
fn exact_in_with_zero_fee_affiliate() {
    let request = UserSwap {
        swap: exact_in(vec![hop("pool", "untrn", "osmo")]),
        remaining_coin: Coin::new(1_000_000, "untrn"),
        min_coin: Coin::new(1_000_000, "osmo"),
        affiliates: vec![affiliate("affiliate", 0)],
    };
    assert_eq!(
        run("entry_point", &request),
        Ok(vec![swap_msg(vec![hop("pool", "untrn", "osmo")], 1_000_000, "untrn")])
    );
}

#[test]
fn exact_out_with_no_affiliates() {
    let request = UserSwap {
        swap: exact_out(vec![hop("pool", "untrn", "osmo")], Some("refund_address")),
        remaining_coin: Coin::new(1_000_000, "untrn"),
        min_coin: Coin::new(500_000, "osmo"),
        affiliates: vec![],
    };
    assert_eq!(
        run("entry_point", &request),
        Ok(vec![
            send("refund_address", 500_000, "untrn"),
            swap_msg(vec![hop("pool", "untrn", "osmo")], 500_000, "untrn"),
        ])
    );
}

#[test]
fn exact_out_with_single_affiliate() {
    let request = UserSwap {
        swap: exact_out(vec![hop("pool", "untrn", "osmo")], Some("refund_address")),
        remaining_coin: Coin::new(1_000_000, "untrn"),
        min_coin: Coin::new(500_000, "osmo"),
        affiliates: vec![affiliate("affiliate", 1000)],
    };
    assert_eq!(
        run("entry_point", &request),
        Ok(vec![
            send("refund_address", 500_000, "untrn"),
            swap_msg(vec![hop("pool", "untrn", "osmo")], 500_000, "untrn"),
            send("affiliate", 50_000, "osmo"),
        ])
    );
}

#[test]
fn exact_out_with_multiple_affiliates() {
    let request = UserSwap {
        swap: exact_out(vec![hop("pool", "untrn", "osmo")], Some("refund_address")),
        remaining_coin: Coin::new(1_000_000, "untrn"),
        min_coin: Coin::new(500_000, "osmo"),
        affiliates: vec![affiliate("affiliate_1", 1000), affiliate("affiliate_2", 1000)],
    };
    assert_eq!(
        run("entry_point", &request),
        Ok(vec![
            send("refund_address", 500_000, "untrn"),
            swap_msg(vec![hop("pool", "untrn", "osmo")], 500_000, "untrn"),
            send("affiliate_1", 50_000, "osmo"),
            send("affiliate_2", 50_000, "osmo"),
        ])
    );
}

#[test]
fn exact_out_with_zero_fee_affiliate() {
    let request = UserSwap {
        swap: exact_out(vec![hop("pool", "untrn", "osmo")], Some("refund_address")),
        remaining_coin: Coin::new(1_000_000, "untrn"),
        min_coin: Coin::new(500_000, "osmo"),
        affiliates: vec![affiliate("affiliate", 0)],
    };
    assert_eq!(
        run("entry_point", &request),
        Ok(vec![
            send("refund_address", 500_000, "untrn"),
            swap_msg(vec![hop("pool", "untrn", "osmo")], 500_000, "untrn"),
        ])
    );
}

#[test]
fn exact_out_with_refund_amount_zero() {
    let request = UserSwap {
        swap: exact_out(vec![hop("pool", "untrn", "osmo")], Some("refund_address")),
        remaining_coin: Coin::new(500_000, "untrn"),
        min_coin: Coin::new(500_000, "osmo"),
        affiliates: vec![],
    };
    assert_eq!(
        run("entry_point", &request),
        Ok(vec![swap_msg(vec![hop("pool", "untrn", "osmo")], 500_000, "untrn")])
    );
}

#[test]
fn exact_in_first_denom_in_mismatch() {
    let request = UserSwap {
        swap: exact_in(vec![hop("pool_2", "untrn", "uatom")]),
        remaining_coin: Coin::new(1_000_000, "uosmo"),
        min_coin: Coin::new(100_000, "uatom"),
        affiliates: vec![],
    };
    assert_eq!(
        run("entry_point", &request),
        Err(ContractError::Skip(SkipError::SwapOperationsCoinInDenomMismatch))
    );
}

#[test]
fn exact_in_last_denom_out_mismatch() {
    let request = UserSwap {
        swap: exact_in(vec![hop("pool_2", "osmo", "osmo")]),
        remaining_coin: Coin::new(1_000_000, "osmo"),
        min_coin: Coin::new(100_000, "uatom"),
        affiliates: vec![],
    };
    assert_eq!(
        run("entry_point", &request),
        Err(ContractError::Skip(SkipError::SwapOperationsCoinOutDenomMismatch))
    );
}

#[test]
fn exact_in_empty_swap_operations() {
    let request = UserSwap {
        swap: exact_in(vec![]),
        remaining_coin: Coin::new(1_000_000, "untrn"),
        min_coin: Coin::new(1_000_000, "osmo"),
        affiliates: vec![],
    };
    assert_eq!(
        run("entry_point", &request),
        Err(ContractError::Skip(SkipError::SwapOperationsEmpty))
    );
}

#[test]
fn exact_out_first_denom_in_mismatch() {
    let request = UserSwap {
        swap: exact_out(vec![hop("pool_2", "untrn", "uatom")], Some("refund_address")),
        remaining_coin: Coin::new(1_000_000, "uosmo"),
        min_coin: Coin::new(100_000, "uatom"),
        affiliates: vec![],
    };
    assert_eq!(
        run("entry_point", &request),
        Err(ContractError::Skip(SkipError::SwapOperationsCoinInDenomMismatch))
    );
}

#[test]
fn exact_out_last_denom_out_mismatch() {
    let request = UserSwap {
        swap: exact_out(vec![hop("pool_2", "osmo", "osmo")], Some("refund_address")),
        remaining_coin: Coin::new(1_000_000, "osmo"),
        min_coin: Coin::new(100_000, "uatom"),
        affiliates: vec![],
    };
    assert_eq!(
        run("entry_point", &request),
        Err(ContractError::Skip(SkipError::SwapOperationsCoinOutDenomMismatch))
    );
}

#[test]
fn exact_out_empty_swap_operations() {
    let request = UserSwap {
        swap: exact_out(vec![], Some("refund_address")),
        remaining_coin: Coin::new(1_000_000, "untrn"),
        min_coin: Coin::new(1_000_000, "osmo"),
        affiliates: vec![],
    };
    assert_eq!(
        run("entry_point", &request),
        Err(ContractError::Skip(SkipError::SwapOperationsEmpty))
    );
}

#[test]
fn exact_out_with_no_refund_address() {
    let request = UserSwap {
        swap: exact_out(vec![hop("pool", "untrn", "osmo")], None),
        remaining_coin: Coin::new(1_000_000, "untrn"),
        min_coin: Coin::new(500_000, "osmo"),
        affiliates: vec![],
    };
    assert_eq!(run("entry_point", &request), Err(ContractError::NoRefundAddress));
}

#[test]
fn exact_out_with_no_refund_address_and_nothing_to_refund() {
    let request = UserSwap {
        swap: exact_out(vec![hop("pool", "untrn", "osmo")], None),
        remaining_coin: Coin::new(500_000, "untrn"),
        min_coin: Coin::new(500_000, "osmo"),
        affiliates: vec![],
    };
    assert_eq!(run("entry_point", &request), Err(ContractError::NoRefundAddress));
}

#[test]
fn exact_out_coin_in_denom_mismatch() {
    let request = UserSwap {
        swap: exact_out(vec![hop("pool", "uatom", "osmo")], Some("refund_address")),
        remaining_coin: Coin::new(1_000_000, "uatom"),
        min_coin: Coin::new(500_000, "osmo"),
        affiliates: vec![],
    };
    assert_eq!(
        run("entry_point", &request),
        Err(ContractError::UserSwapCoinInDenomMismatch)
    );
}

#[test]
fn exact_out_requires_more_than_remains() {
    let request = UserSwap {
        swap: exact_out(vec![hop("pool", "untrn", "osmo")], Some("refund_address")),
        remaining_coin: Coin::new(499_999, "untrn"),
        min_coin: Coin::new(500_000, "osmo"),
        affiliates: vec![],
    };
    assert_eq!(
        run("entry_point", &request),
        Err(ContractError::Overflow(OverflowError {
            operation: OverflowOperation::Sub,
            operand1: "499999".to_string(),
            operand2: "500000".to_string(),
        }))
    );
}

#[test]
fn overflow_comes_before_the_missing_refund_address() {
    let request = UserSwap {
        swap: exact_out(vec![hop("pool", "untrn", "osmo")], None),
        remaining_coin: Coin::new(499_999, "untrn"),
        min_coin: Coin::new(500_000, "osmo"),
        affiliates: vec![],
    };
    assert_eq!(
        run("entry_point", &request),
        Err(ContractError::Overflow(OverflowError {
            operation: OverflowOperation::Sub,
            operand1: "499999".to_string(),
            operand2: "500000".to_string(),
        }))
    );
}

#[test]
fn unauthorized_caller() {
    let request = UserSwap {
        swap: exact_in(vec![]),
        remaining_coin: Coin::new(1_000_000, "osmo"),
        min_coin: Coin::new(1_000_000, "osmo"),
        affiliates: vec![],
    };
    assert_eq!(run("random", &request), Err(ContractError::Unauthorized));
}

#[test]
fn unauthorized_caller_with_a_valid_request() {
    let request = UserSwap {
        swap: exact_out(vec![hop("pool", "untrn", "osmo")], Some("refund_address")),
        remaining_coin: Coin::new(1_000_000, "untrn"),
        min_coin: Coin::new(500_000, "osmo"),
        affiliates: vec![affiliate("affiliate", 1000)],
    };
    assert_eq!(run("random", &request), Err(ContractError::Unauthorized));
}

#[test]
fn unknown_venue_comes_before_the_route() {
    let request = UserSwap {
        swap: exact_in(vec![]),
        remaining_coin: Coin::new(1_000_000, "untrn"),
        min_coin: Coin::new(1_000_000, "osmo"),
        affiliates: vec![],
    };
    let outcome = execute_user_swap(
        &request,
        &"entry_point".to_string(),
        &"entry_point".to_string(),
        &None,
        &Coin::new(500_000, "untrn"),
    );
    assert_eq!(outcome, Err(ContractError::UnknownVenue));
}

#[test]
fn machine_walks_through_an_exact_out_swap() {
    let request = UserSwap {
        swap: exact_out(vec![hop("pool", "untrn", "osmo")], Some("refund_address")),
        remaining_coin: Coin::new(1_000_000, "untrn"),
        min_coin: Coin::new(500_000, "osmo"),
        affiliates: vec![affiliate("affiliate", 1)],
    };
    let (state, action) = user_swap_step(
        &request,
        SwapState::Received,
        SwapEvent::Invoked {
            caller: "entry_point".to_string(),
            entry_point: "entry_point".to_string(),
        },
    );
    assert_eq!(state, SwapState::Authorized);
    assert_eq!(
        action,
        SwapAction::ResolveVenue {
            name: "swap_venue_name".to_string()
        }
    );

    let (state, action) = user_swap_step(
        &request,
        state,
        SwapEvent::VenueResolved {
            adapter: Some("swap_venue_adapter".to_string()),
        },
    );
    assert_eq!(
        state,
        SwapState::Validated {
            adapter: "swap_venue_adapter".to_string()
        }
    );
    assert_eq!(
        action,
        SwapAction::Simulate {
            adapter: "swap_venue_adapter".to_string(),
            query: QueryMsg::SimulateSwapExactCoinOut {
                coin_out: Coin::new(500_000, "osmo"),
                swap_operations: vec![hop("pool", "untrn", "osmo")],
            },
        }
    );

    let (state, action) = user_swap_step(
        &request,
        state,
        SwapEvent::Simulated {
            coin_in: Coin::new(999_999, "untrn"),
        },
    );
    assert_eq!(state, SwapState::Dispatched);
    assert_eq!(
        action,
        SwapAction::Dispatch {
            messages: vec![
                send("refund_address", 1, "untrn"),
                swap_msg(vec![hop("pool", "untrn", "osmo")], 999_999, "untrn"),
                send("affiliate", 50, "osmo"),
            ]
        }
    );

    let (state, action) = user_swap_step(
        &request,
        state,
        SwapEvent::Simulated {
            coin_in: Coin::new(1, "untrn"),
        },
    );
    assert_eq!(state, SwapState::Dispatched);
    assert_eq!(action, SwapAction::Idle);
}

#[test]
fn machine_ignores_an_event_it_does_not_wait_for() {
    let request = UserSwap {
        swap: exact_out(vec![hop("pool", "untrn", "osmo")], Some("refund_address")),
        remaining_coin: Coin::new(1_000_000, "untrn"),
        min_coin: Coin::new(500_000, "osmo"),
        affiliates: vec![],
    };
    let (state, action) = user_swap_step(
        &request,
        SwapState::Received,
        SwapEvent::Simulated {
            coin_in: Coin::new(1, "untrn"),
        },
    );
    assert_eq!(state, SwapState::Received);
    assert_eq!(action, SwapAction::Idle);

    let (state, action) = user_swap_step(
        &request,
        SwapState::Authorized,
        SwapEvent::Simulated {
            coin_in: Coin::new(1, "untrn"),
        },
    );
    assert_eq!(state, SwapState::Authorized);
    assert_eq!(
        action,
        SwapAction::ResolveVenue {
            name: "swap_venue_name".to_string()
        }
    );

    let (state, action) = user_swap_step(
        &request,
        SwapState::Failed,
        SwapEvent::VenueResolved { adapter: None },
    );
    assert_eq!(state, SwapState::Failed);
    assert_eq!(action, SwapAction::Idle);
}

#[test]
fn request_with_a_share_above_the_whole_is_not_valid() {
    let request = UserSwap {
        swap: exact_in(vec![hop("pool", "untrn", "osmo")]),
        remaining_coin: Coin::new(1_000_000, "untrn"),
        min_coin: Coin::new(1_000_000, "osmo"),
        affiliates: vec![affiliate("a", 10_000), affiliate("b", 10_001)],
    };
    assert!(!request.is_valid());
    assert!(request.affiliates[0].is_valid());
    assert!(!request.affiliates[1].is_valid());
}
