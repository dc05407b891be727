//! Swap routes and their validation.

use vstd::prelude::*;
use vstd::std_specs::convert::FromSpecImpl;
use crate::coin::{coins_view, Coin, CoinView};
use crate::msg::{action, Message, MessageInfo, MessageView, Response, ResponseView};
use crate::error::SkipError;
use crate::text::str_eq;
pub use crate::venue::{
    convert_swap_operations, AssetInfo, AstroportSwapOperation, OsmosisSwapAmountInRoute,
    OsmosisSwapAmountOutRoute,
};

verus! {

/// One hop of a route: a pool and the two denominations it trades.
#[derive(Debug, Clone, PartialEq, Eq)]
pub struct SwapOperation {
    pub pool: String,
    pub denom_in: String,
    pub denom_out: String,
}

/// What a [`SwapOperation`] holds, as plain sequences of characters.
pub struct SwapOperationView {
    pub pool: Seq<char>,
    pub denom_in: Seq<char>,
    pub denom_out: Seq<char>,
}

impl View for SwapOperation {
    type V = SwapOperationView;

    open spec fn view(&self) -> SwapOperationView {
        SwapOperationView {
            pool: self.pool@,
            denom_in: self.denom_in@,
            denom_out: self.denom_out@,
        }
    }
}

/// The views of a route's hops, in order.
pub open spec fn operations_view(operations: Seq<SwapOperation>) -> Seq<SwapOperationView> {
    operations.map_values(|op: SwapOperation| op@)
}

impl SwapOperation {
    /// A copy of this hop.
    pub fn duplicate(&self) -> (op: SwapOperation)
        ensures
            op@ == self@,
    {
        SwapOperation {
            pool: self.pool.clone(),
            denom_in: self.denom_in.clone(),
            denom_out: self.denom_out.clone(),
        }
    }
}

/// A copy of a route, hop by hop.
pub fn duplicate_operations(operations: &Vec<SwapOperation>) -> (copy: Vec<SwapOperation>)
    ensures
        operations_view(copy@) == operations_view(operations@),
{
    let mut copy: Vec<SwapOperation> = Vec::new();
    let mut i: usize = 0;
    while i < operations.len()
        invariant
            i <= operations.len(),
            operations_view(copy@) == operations_view(operations@).take(i as int),
        decreases operations.len() - i,
    {
        let ghost before = copy@;
        copy.push(operations[i].duplicate());
        proof {
            assert(operations_view(copy@) == operations_view(before).push(copy@.last()@));
            assert(operations_view(operations@).take(i + 1) == operations_view(operations@).take(
                i as int,
            ).push(operations[i as int]@));
        }
        i += 1;
    }
    proof {
        assert(operations_view(operations@).take(i as int) == operations_view(operations@));
    }
    copy
}

/// Setup of the adapter for the Osmosis pool manager.
#[derive(Debug, Clone, PartialEq, Eq)]
pub struct OsmosisInstantiateMsg {
    pub entry_point_contract_address: String,
}

/// Setup of the adapter for the Astroport router on Neutron.
#[derive(Debug, Clone, PartialEq, Eq)]
pub struct NeutronInstantiateMsg {
    pub entry_point_contract_address: String,
    pub router_contract_address: String,
}

/// Setup of the adapter for the Lido Satellite wrapping contract.
#[derive(Debug, Clone, PartialEq, Eq)]
pub struct LidoSatelliteInstantiateMsg {
    pub entry_point_contract_address: String,
    pub lido_satellite_contract_address: String,
}

/// A swap venue: its name and the address of its adapter.
#[derive(Debug, Clone, PartialEq, Eq)]
pub struct SwapVenue {
    pub name: String,
    pub adapter_contract_address: String,
}

/// A swap that obtains an exact output; input that is not needed is refunded.
#[derive(Debug, Clone, PartialEq, Eq)]
pub struct SwapExactCoinOut {
    pub swap_venue_name: String,
    pub operations: Vec<SwapOperation>,
    pub refund_address: Option<String>,
}

/// A swap that spends the whole remaining input.
#[derive(Debug, Clone, PartialEq, Eq)]
pub struct SwapExactCoinIn {
    pub swap_venue_name: String,
    pub operations: Vec<SwapOperation>,
}

/// What the user wants swapped, and how.
#[derive(Debug, Clone, PartialEq, Eq)]
pub enum Swap {
    SwapExactCoinIn(SwapExactCoinIn),
    SwapExactCoinOut(SwapExactCoinOut),
}

/// What a [`Swap`] holds, as plain values.
pub enum SwapView {
    SwapExactCoinIn { swap_venue_name: Seq<char>, operations: Seq<SwapOperationView> },
    SwapExactCoinOut {
        swap_venue_name: Seq<char>,
        operations: Seq<SwapOperationView>,
        refund_address: Option<Seq<char>>,
    },
}

/// The characters of an optional string.
pub open spec fn optional_text(text: Option<String>) -> Option<Seq<char>> {
    match text {
        Some(t) => Some(t@),
        None => None,
    }
}

impl View for Swap {
    type V = SwapView;

    open spec fn view(&self) -> SwapView {
        match self {
            Swap::SwapExactCoinIn(swap) => SwapView::SwapExactCoinIn {
                swap_venue_name: swap.swap_venue_name@,
                operations: operations_view(swap.operations@),
            },
            Swap::SwapExactCoinOut(swap) => SwapView::SwapExactCoinOut {
                swap_venue_name: swap.swap_venue_name@,
                operations: operations_view(swap.operations@),
                refund_address: optional_text(swap.refund_address),
            },
        }
    }
}

impl SwapView {
    /// The name of the venue that is to carry out the swap.
    pub open spec fn venue_name(self) -> Seq<char> {
        match self {
            SwapView::SwapExactCoinIn { swap_venue_name, .. } => swap_venue_name,
            SwapView::SwapExactCoinOut { swap_venue_name, .. } => swap_venue_name,
        }
    }

    /// The route of the swap.
    pub open spec fn route(self) -> Seq<SwapOperationView> {
        match self {
            SwapView::SwapExactCoinIn { operations, .. } => operations,
            SwapView::SwapExactCoinOut { operations, .. } => operations,
        }
    }
}

/// What a swap adapter can be asked to do. Only `Swap` is open to the entry
/// point; `TransferFundsBack` is the adapter's call to itself.
#[derive(Debug, Clone, PartialEq, Eq)]
pub enum ExecuteMsg {
    Swap { operations: Vec<SwapOperation> },
    TransferFundsBack { swapper: String },
}

/// What an [`ExecuteMsg`] holds, as plain values.
pub enum ExecuteMsgView {
    Swap { operations: Seq<SwapOperationView> },
    TransferFundsBack { swapper: Seq<char> },
}

impl View for ExecuteMsg {
    type V = ExecuteMsgView;

    open spec fn view(&self) -> ExecuteMsgView {
        match self {
            ExecuteMsg::Swap { operations } => ExecuteMsgView::Swap {
                operations: operations_view(operations@),
            },
            ExecuteMsg::TransferFundsBack { swapper } => ExecuteMsgView::TransferFundsBack {
                swapper: swapper@,
            },
        }
    }
}

impl From<SwapExactCoinIn> for ExecuteMsg {
    /// The adapter's `Swap` over the route of an exact-in swap.
    fn from(swap: SwapExactCoinIn) -> (msg: ExecuteMsg) {
        ExecuteMsg::Swap { operations: swap.operations }
    }
}

impl FromSpecImpl<SwapExactCoinIn> for ExecuteMsg {
    open spec fn obeys_from_spec() -> bool {
        true
    }

    open spec fn from_spec(swap: SwapExactCoinIn) -> ExecuteMsg {
        ExecuteMsg::Swap { operations: swap.operations }
    }
}

impl From<SwapExactCoinOut> for ExecuteMsg {
    /// The adapter's `Swap` over the route of an exact-out swap.
    fn from(swap: SwapExactCoinOut) -> (msg: ExecuteMsg) {
        ExecuteMsg::Swap { operations: swap.operations }
    }
}

impl FromSpecImpl<SwapExactCoinOut> for ExecuteMsg {
    open spec fn obeys_from_spec() -> bool {
        true
    }

    open spec fn from_spec(swap: SwapExactCoinOut) -> ExecuteMsg {
        ExecuteMsg::Swap { operations: swap.operations }
    }
}

/// The read-only questions a swap adapter answers.
#[derive(Debug, Clone, PartialEq, Eq)]
pub enum QueryMsg {
    /// The address of the venue's router.
    RouterContractAddress {  },
    /// The coin that must go in for `coin_out` to come out.
    SimulateSwapExactCoinOut { coin_out: Coin, swap_operations: Vec<SwapOperation> },
    /// The coin that comes out when `coin_in` goes in.
    SimulateSwapExactCoinIn { coin_in: Coin, swap_operations: Vec<SwapOperation> },
}

/// What a [`QueryMsg`] holds, as plain values.
pub enum QueryMsgView {
    RouterContractAddress,
    SimulateSwapExactCoinOut { coin_out: CoinView, swap_operations: Seq<SwapOperationView> },
    SimulateSwapExactCoinIn { coin_in: CoinView, swap_operations: Seq<SwapOperationView> },
}

impl View for QueryMsg {
    type V = QueryMsgView;

    open spec fn view(&self) -> QueryMsgView {
        match self {
            QueryMsg::RouterContractAddress {  } => QueryMsgView::RouterContractAddress,
            QueryMsg::SimulateSwapExactCoinOut {
                coin_out,
                swap_operations,
            } => QueryMsgView::SimulateSwapExactCoinOut {
                coin_out: coin_out@,
                swap_operations: operations_view(swap_operations@),
            },
            QueryMsg::SimulateSwapExactCoinIn {
                coin_in,
                swap_operations,
            } => QueryMsgView::SimulateSwapExactCoinIn {
                coin_in: coin_in@,
                swap_operations: operations_view(swap_operations@),
            },
        }
    }
}

/// The verdict on a route that is to turn `coin_in_denom` into
/// `coin_out_denom`. Only the two ends of the route are looked at.
pub open spec fn route_verdict(
    operations: Seq<SwapOperationView>,
    coin_in_denom: Seq<char>,
    coin_out_denom: Seq<char>,
) -> Result<(), SkipError> {
    if operations.len() == 0 {
        Err(SkipError::SwapOperationsEmpty)
    } else if operations.first().denom_in != coin_in_denom {
        Err(SkipError::SwapOperationsCoinInDenomMismatch)
    } else if operations.last().denom_out != coin_out_denom {
        Err(SkipError::SwapOperationsCoinOutDenomMismatch)
    } else {
        Ok(())
    }
}

/// A route without hops is turned down as empty, whatever the two
/// denominations are.
pub proof fn lemma_empty_route_is_rejected(
    operations: Seq<SwapOperationView>,
    coin_in_denom: Seq<char>,
    coin_out_denom: Seq<char>,
)
    requires
        operations.len() == 0,
    ensures
        route_verdict(operations, coin_in_denom, coin_out_denom) == Err::<(), SkipError>(
            SkipError::SwapOperationsEmpty,
        ),
{
}

/// A route with hops whose first hop starts from another denomination than
/// `coin_in_denom` is turned down for its input, whatever the rest is. One
/// that starts right and whose last hop ends in another denomination than
/// `coin_out_denom` is turned down for its output. Every other route with
/// hops is accepted: the joins between hops are not looked at.
pub proof fn lemma_route_is_judged_by_its_ends(
    operations: Seq<SwapOperationView>,
    coin_in_denom: Seq<char>,
    coin_out_denom: Seq<char>,
)
    requires
        operations.len() > 0,
    ensures
        operations[0].denom_in != coin_in_denom ==> route_verdict(
            operations,
            coin_in_denom,
            coin_out_denom,
        ) == Err::<(), SkipError>(SkipError::SwapOperationsCoinInDenomMismatch),
        operations[0].denom_in == coin_in_denom && operations[operations.len() - 1].denom_out
            != coin_out_denom ==> route_verdict(operations, coin_in_denom, coin_out_denom) == Err::<
            (),
            SkipError,
        >(SkipError::SwapOperationsCoinOutDenomMismatch),
        operations[0].denom_in == coin_in_denom && operations[operations.len() - 1].denom_out
            == coin_out_denom ==> route_verdict(operations, coin_in_denom, coin_out_denom) == Ok::<
            (),
            SkipError,
        >(()),
{
}

/// Checks that a route starts from `coin_in_denom` and ends in
/// `coin_out_denom`.
pub fn validate_swap_operations(
    swap_operations: &[SwapOperation],
    coin_in_denom: &str,
    coin_out_denom: &str,
) -> (verdict: Result<(), SkipError>)
    ensures
        verdict == route_verdict(
            operations_view(swap_operations@),
            coin_in_denom@,
            coin_out_denom@,
        ),
{
    let n: usize = swap_operations.len();
    if n == 0 {
        return Err(SkipError::SwapOperationsEmpty);
    }
    let first_op = &swap_operations[0];
    let last_op = &swap_operations[n - 1];
    if !str_eq(first_op.denom_in.as_str(), coin_in_denom) {
        return Err(SkipError::SwapOperationsCoinInDenomMismatch);
    }
    if !str_eq(last_op.denom_out.as_str(), coin_out_denom) {
        return Err(SkipError::SwapOperationsCoinOutDenomMismatch);
    }
    Ok(())
}

/// Hands everything the adapter holds back to `swapper`. Only the adapter
/// itself may ask for this: it is the second half of a swap, which the
/// adapter calls on itself once the venue has paid out. `balances` is what the
/// adapter holds at that moment.
pub fn execute_transfer_funds_back(
    contract_address: &String,
    info: &MessageInfo,
    swapper: String,
    balances: Vec<Coin>,
) -> (outcome: Result<Response, SkipError>)
    ensures
        info.sender@ != contract_address@ ==> outcome == Err::<Response, SkipError>(
            SkipError::Unauthorized,
        ),
        info.sender@ == contract_address@ ==> outcome is Ok && outcome->Ok_0@ == (ResponseView {
            messages: seq![
                MessageView::Send { to_address: swapper@, amount: coins_view(balances@) },
            ],
            attributes: seq![action("dispatch_transfer_funds_back_bank_send"@)],
        }),
{
    if info.sender != *contract_address {
        return Err(SkipError::Unauthorized);
    }
    let transfer_funds_back_msg = Message::Send { to_address: swapper, amount: balances };
    Ok(
        Response::new().add_message(transfer_funds_back_msg).add_attribute(
            "action",
            "dispatch_transfer_funds_back_bank_send",
        ),
    )
}

} // verus!
