//! The user swap of the entry point: a state machine that turns a swap
//! request into the ordered messages that carry it out.
//!
//! The machine does no outside work. Where it needs the address of a venue's
//! adapter, or the input that a venue requires for an exact output, it asks
//! for it with an action and goes on when the answer is handed back as an
//! event.

use vstd::prelude::*;
use vstd::pervasive::unreached;
use crate::coin::{coins_view, Coin, CoinView};
use crate::error::SkipError;
use crate::fee::{
    affiliate_payouts, affiliates_view, affiliates_wf, calculate_refund, fee_of,
    lemma_payouts_keep_declaration_order, payout_origin, payouts_of, Affiliate, AffiliateView,
};
use crate::math::{sub_overflow, OverflowError, OverflowErrorView};
use crate::msg::{
    messages_view, payout_messages, push_payout_messages, send_message, send_one, Message,
    MessageView,
};
use crate::swap::{
    duplicate_operations, operations_view, route_verdict, validate_swap_operations, ExecuteMsg,
    ExecuteMsgView, QueryMsg, QueryMsgView, Swap, SwapOperation, SwapOperationView, SwapView,
    optional_text,
};
use crate::text::str_eq;

verus! {

/// Why a user swap was turned down.
#[derive(Debug, Clone, PartialEq, Eq)]
pub enum ContractError {
    /// The caller is not the entry point.
    Unauthorized,
    /// No adapter is known under the name of the swap's venue.
    UnknownVenue,
    /// The route is not a route from the remaining coin to the minimum coin.
    Skip(SkipError),
    /// More input is required than remains.
    Overflow(OverflowError),
    /// An exact-out swap names nobody to refund.
    NoRefundAddress,
    /// The venue asks for another denomination than the one that remains.
    UserSwapCoinInDenomMismatch,
}

/// What a [`ContractError`] holds, as plain values.
pub enum ContractErrorView {
    Unauthorized,
    UnknownVenue,
    Skip(SkipError),
    Overflow(OverflowErrorView),
    NoRefundAddress,
    UserSwapCoinInDenomMismatch,
}

impl View for ContractError {
    type V = ContractErrorView;

    open spec fn view(&self) -> ContractErrorView {
        match self {
            ContractError::Unauthorized => ContractErrorView::Unauthorized,
            ContractError::UnknownVenue => ContractErrorView::UnknownVenue,
            ContractError::Skip(e) => ContractErrorView::Skip(*e),
            ContractError::Overflow(e) => ContractErrorView::Overflow(e@),
            ContractError::NoRefundAddress => ContractErrorView::NoRefundAddress,
            ContractError::UserSwapCoinInDenomMismatch =>
                ContractErrorView::UserSwapCoinInDenomMismatch,
        }
    }
}

/// A user swap as it arrives: the swap, the coin that is left to swap, the
/// least coin that must come out, and the affiliates to pay.
#[derive(Debug, Clone, PartialEq, Eq)]
pub struct UserSwap {
    pub swap: Swap,
    pub remaining_coin: Coin,
    pub min_coin: Coin,
    pub affiliates: Vec<Affiliate>,
}

/// What a [`UserSwap`] holds, as plain values.
pub struct UserSwapView {
    pub swap: SwapView,
    pub remaining_coin: CoinView,
    pub min_coin: CoinView,
    pub affiliates: Seq<AffiliateView>,
}

impl View for UserSwap {
    type V = UserSwapView;

    open spec fn view(&self) -> UserSwapView {
        UserSwapView {
            swap: self.swap@,
            remaining_coin: self.remaining_coin@,
            min_coin: self.min_coin@,
            affiliates: affiliates_view(self.affiliates@),
        }
    }
}

impl UserSwap {
    /// Every affiliate's share is at most the whole.
    pub open spec fn wf(&self) -> bool {
        affiliates_wf(self.affiliates@)
    }

    /// Whether every affiliate's share is at most the whole.
    pub fn is_valid(&self) -> (ok: bool)
        ensures
            ok == self.wf(),
    {
        let mut i: usize = 0;
        while i < self.affiliates.len()
            invariant
                i <= self.affiliates.len(),
                forall|j: int| 0 <= j < i ==> (#[trigger] self.affiliates@[j]).wf(),
            decreases self.affiliates.len() - i,
        {
            if !self.affiliates[i].is_valid() {
                return false;
            }
            i += 1;
        }
        true
    }
}

/// How far a user swap has come.
#[derive(Debug, Clone, PartialEq, Eq)]
pub enum SwapState {
    /// The request has arrived; nothing is checked yet.
    Received,
    /// The caller is the entry point; the venue's adapter is being looked up.
    Authorized,
    /// The route of an exact-out swap is valid; the venue at `adapter` is
    /// being asked for the input it requires.
    Validated { adapter: String },
    /// The messages were handed out.
    Dispatched,
    /// The swap was turned down.
    Failed,
}

/// What a [`SwapState`] holds, as plain values.
pub enum SwapStateView {
    Received,
    Authorized,
    Validated { adapter: Seq<char> },
    Dispatched,
    Failed,
}

impl View for SwapState {
    type V = SwapStateView;

    open spec fn view(&self) -> SwapStateView {
        match self {
            SwapState::Received => SwapStateView::Received,
            SwapState::Authorized => SwapStateView::Authorized,
            SwapState::Validated { adapter } => SwapStateView::Validated { adapter: adapter@ },
            SwapState::Dispatched => SwapStateView::Dispatched,
            SwapState::Failed => SwapStateView::Failed,
        }
    }
}

/// What happened outside the machine.
#[derive(Debug, Clone, PartialEq, Eq)]
pub enum SwapEvent {
    /// `caller` invoked the swap on a contract whose entry point is
    /// `entry_point`.
    Invoked { caller: String, entry_point: String },
    /// The venue's name was looked up: its adapter is at `adapter`, or no
    /// adapter is known under that name.
    VenueResolved { adapter: Option<String> },
    /// The venue answered that `coin_in` must go in for the minimum coin to
    /// come out.
    Simulated { coin_in: Coin },
}

/// What a [`SwapEvent`] holds, as plain values.
pub enum SwapEventView {
    Invoked { caller: Seq<char>, entry_point: Seq<char> },
    VenueResolved { adapter: Option<Seq<char>> },
    Simulated { coin_in: CoinView },
}

impl View for SwapEvent {
    type V = SwapEventView;

    open spec fn view(&self) -> SwapEventView {
        match self {
            SwapEvent::Invoked { caller, entry_point } => SwapEventView::Invoked {
                caller: caller@,
                entry_point: entry_point@,
            },
            SwapEvent::VenueResolved { adapter } => SwapEventView::VenueResolved {
                adapter: optional_text(*adapter),
            },
            SwapEvent::Simulated { coin_in } => SwapEventView::Simulated { coin_in: coin_in@ },
        }
    }
}

/// What the machine asks its driver to do next.
#[derive(Debug, Clone, PartialEq, Eq)]
pub enum SwapAction {
    /// Nothing: the machine waits for an invocation, or has come to its end.
    Idle,
    /// Look up the adapter of the venue called `name`.
    ResolveVenue { name: String },
    /// Put `query` to the adapter at `adapter`.
    Simulate { adapter: String, query: QueryMsg },
    /// Hand the messages to the chain, in this order.
    Dispatch { messages: Vec<Message> },
    /// Turn the call down; no message is handed out.
    Fail { error: ContractError },
}

/// What a [`SwapAction`] holds, as plain values.
pub enum SwapActionView {
    Idle,
    ResolveVenue { name: Seq<char> },
    Simulate { adapter: Seq<char>, query: QueryMsgView },
    Dispatch { messages: Seq<MessageView> },
    Fail { error: ContractErrorView },
}

impl View for SwapAction {
    type V = SwapActionView;

    open spec fn view(&self) -> SwapActionView {
        match self {
            SwapAction::Idle => SwapActionView::Idle,
            SwapAction::ResolveVenue { name } => SwapActionView::ResolveVenue { name: name@ },
            SwapAction::Simulate { adapter, query } => SwapActionView::Simulate {
                adapter: adapter@,
                query: query@,
            },
            SwapAction::Dispatch { messages } => SwapActionView::Dispatch {
                messages: messages_view(messages@),
            },
            SwapAction::Fail { error } => SwapActionView::Fail { error: error@ },
        }
    }
}

/// The call of the venue's `Swap` over `operations`, with one coin attached.
pub open spec fn venue_swap(
    adapter: Seq<char>,
    operations: Seq<SwapOperationView>,
    denom: Seq<char>,
    amount: nat,
) -> MessageView {
    MessageView::Execute {
        contract_addr: adapter,
        msg: ExecuteMsgView::Swap { operations },
        funds: seq![CoinView { denom, amount }],
    }
}

/// The transfers to the affiliates of a request: each one's share of the
/// minimum coin's amount, in the minimum coin's denomination, in the order in
/// which the affiliates were declared.
pub open spec fn affiliate_messages(request: UserSwapView) -> Seq<MessageView> {
    payout_messages(
        request.min_coin.denom,
        payouts_of(request.min_coin.amount, request.affiliates),
    )
}

/// The messages of an exact-in swap: the venue's swap with the whole
/// remaining coin attached, then the affiliates' transfers.
pub open spec fn exact_in_messages(request: UserSwapView, adapter: Seq<char>) -> Seq<MessageView> {
    seq![
        venue_swap(
            adapter,
            request.swap.route(),
            request.remaining_coin.denom,
            request.remaining_coin.amount,
        ),
    ] + affiliate_messages(request)
}

/// The refund of an exact-out swap: one transfer of what is not required, or
/// none where all of the remaining coin is required.
pub open spec fn refund_messages(
    request: UserSwapView,
    required: nat,
    refund_address: Seq<char>,
) -> Seq<MessageView>
    recommends
        required <= request.remaining_coin.amount,
{
    if request.remaining_coin.amount - required > 0 {
        seq![
            send_one(
                refund_address,
                request.remaining_coin.denom,
                (request.remaining_coin.amount - required) as nat,
            ),
        ]
    } else {
        Seq::empty()
    }
}

/// The messages of an exact-out swap: the refund if there is one, then the
/// venue's swap with exactly the required input attached, then the
/// affiliates' transfers.
pub open spec fn exact_out_messages(
    request: UserSwapView,
    adapter: Seq<char>,
    required: nat,
    refund_address: Seq<char>,
) -> Seq<MessageView>
    recommends
        required <= request.remaining_coin.amount,
{
    refund_messages(request, required, refund_address) + seq![
        venue_swap(adapter, request.swap.route(), request.remaining_coin.denom, required),
    ] + affiliate_messages(request)
}

/// The end of an exact-out swap, once the venue has said which coin must go
/// in: the messages, or the reason why there are none.
pub open spec fn settle_exact_out(
    request: UserSwapView,
    adapter: Seq<char>,
    coin_in: CoinView,
    refund_address: Option<Seq<char>>,
) -> Result<Seq<MessageView>, ContractErrorView> {
    if coin_in.denom != request.remaining_coin.denom {
        Err(ContractErrorView::UserSwapCoinInDenomMismatch)
    } else if coin_in.amount > request.remaining_coin.amount {
        Err(
            ContractErrorView::Overflow(
                sub_overflow(request.remaining_coin.amount, coin_in.amount),
            ),
        )
    } else {
        match refund_address {
            None => Err(ContractErrorView::NoRefundAddress),
            Some(address) => Ok(exact_out_messages(request, adapter, coin_in.amount, address)),
        }
    }
}

/// The question to the venue of an exact-out swap: which coin must go in for
/// the minimum coin to come out of the route.
pub open spec fn price_query(request: UserSwapView, adapter: Seq<char>) -> SwapActionView {
    SwapActionView::Simulate {
        adapter,
        query: QueryMsgView::SimulateSwapExactCoinOut {
            coin_out: request.min_coin,
            swap_operations: request.swap.route(),
        },
    }
}

/// The next state and the action of the machine, for every state and event.
/// An event that the state does not wait for changes nothing: the machine
/// stays where it is and repeats what it asked for.
pub open spec fn step_of(request: UserSwapView, state: SwapStateView, event: SwapEventView) -> (
    SwapStateView,
    SwapActionView,
) {
    match state {
        SwapStateView::Received => match event {
            SwapEventView::Invoked { caller, entry_point } => if caller != entry_point {
                (
                    SwapStateView::Failed,
                    SwapActionView::Fail { error: ContractErrorView::Unauthorized },
                )
            } else {
                (
                    SwapStateView::Authorized,
                    SwapActionView::ResolveVenue { name: request.swap.venue_name() },
                )
            },
            _ => (SwapStateView::Received, SwapActionView::Idle),
        },
        SwapStateView::Authorized => match event {
            SwapEventView::VenueResolved { adapter: None } => (
                SwapStateView::Failed,
                SwapActionView::Fail { error: ContractErrorView::UnknownVenue },
            ),
            SwapEventView::VenueResolved { adapter: Some(adapter) } => match route_verdict(
                request.swap.route(),
                request.remaining_coin.denom,
                request.min_coin.denom,
            ) {
                Err(e) => (
                    SwapStateView::Failed,
                    SwapActionView::Fail { error: ContractErrorView::Skip(e) },
                ),
                Ok(_) => match request.swap {
                    SwapView::SwapExactCoinIn { .. } => (
                        SwapStateView::Dispatched,
                        SwapActionView::Dispatch { messages: exact_in_messages(request, adapter) },
                    ),
                    SwapView::SwapExactCoinOut { .. } => (
                        SwapStateView::Validated { adapter },
                        price_query(request, adapter),
                    ),
                },
            },
            _ => (
                SwapStateView::Authorized,
                SwapActionView::ResolveVenue { name: request.swap.venue_name() },
            ),
        },
        SwapStateView::Validated { adapter } => match (event, request.swap) {
            (
                SwapEventView::Simulated { coin_in },
                SwapView::SwapExactCoinOut { refund_address, .. },
            ) => match settle_exact_out(request, adapter, coin_in, refund_address) {
                Err(error) => (SwapStateView::Failed, SwapActionView::Fail { error }),
                Ok(messages) => (SwapStateView::Dispatched, SwapActionView::Dispatch { messages }),
            },
            _ => (SwapStateView::Validated { adapter }, price_query(request, adapter)),
        },
        SwapStateView::Dispatched => (SwapStateView::Dispatched, SwapActionView::Idle),
        SwapStateView::Failed => (SwapStateView::Failed, SwapActionView::Idle),
    }
}

/// The call of the venue's `Swap` at `adapter` over a copy of `operations`,
/// with `amount` units of `denom` attached.
pub fn venue_swap_message(
    adapter: &String,
    operations: &Vec<SwapOperation>,
    denom: &String,
    amount: u128,
) -> (msg: Message)
    ensures
        msg@ == venue_swap(adapter@, operations_view(operations@), denom@, amount as nat),
{
    let mut funds: Vec<Coin> = Vec::new();
    funds.push(Coin { denom: denom.clone(), amount });
    proof {
        assert(coins_view(funds@) == seq![CoinView { denom: denom@, amount: amount as nat }]);
    }
    Message::Execute {
        contract_addr: adapter.clone(),
        msg: ExecuteMsg::Swap { operations: duplicate_operations(operations) },
        funds,
    }
}

impl UserSwap {
    /// The route of the swap.
    pub fn operations(&self) -> (operations: &Vec<SwapOperation>)
        ensures
            operations_view(operations@) == self@.swap.route(),
    {
        match &self.swap {
            Swap::SwapExactCoinIn(swap) => &swap.operations,
            Swap::SwapExactCoinOut(swap) => &swap.operations,
        }
    }

    /// The name of the venue that is to carry out the swap.
    pub fn venue_name(&self) -> (name: &String)
        ensures
            name@ == self@.swap.venue_name(),
    {
        match &self.swap {
            Swap::SwapExactCoinIn(swap) => &swap.swap_venue_name,
            Swap::SwapExactCoinOut(swap) => &swap.swap_venue_name,
        }
    }

    /// Appends the affiliates' transfers to `messages`.
    fn push_affiliate_messages(&self, messages: &mut Vec<Message>)
        requires
            self.wf(),
        ensures
            messages_view(final(messages)@) == messages_view(old(messages)@) + affiliate_messages(
                self@,
            ),
    {
        let payouts = affiliate_payouts(self.min_coin.amount, &self.affiliates);
        push_payout_messages(messages, &self.min_coin.denom, &payouts);
    }

    /// The messages of an exact-in swap through the venue at `adapter`.
    pub fn dispatch_exact_in(&self, adapter: &String) -> (messages: Vec<Message>)
        requires
            self.wf(),
        ensures
            messages_view(messages@) == exact_in_messages(self@, adapter@),
    {
        let mut messages: Vec<Message> = Vec::new();
        messages.push(
            venue_swap_message(
                adapter,
                self.operations(),
                &self.remaining_coin.denom,
                self.remaining_coin.amount,
            ),
        );
        proof {
            assert(messages_view(messages@) == seq![
                venue_swap(
                    adapter@,
                    self@.swap.route(),
                    self@.remaining_coin.denom,
                    self@.remaining_coin.amount,
                ),
            ]);
        }
        self.push_affiliate_messages(&mut messages);
        messages
    }

    /// The end of an exact-out swap through the venue at `adapter`, which
    /// requires `coin_in`: the messages, or the reason why there are none.
    pub fn settle_exact_out(
        &self,
        adapter: &String,
        coin_in: &Coin,
        refund_address: &Option<String>,
    ) -> (outcome: Result<Vec<Message>, ContractError>)
        requires
            self.wf(),
        ensures
            (match outcome {
                Ok(messages) => Ok::<Seq<MessageView>, ContractErrorView>(messages_view(messages@)),
                Err(error) => Err::<Seq<MessageView>, ContractErrorView>(error@),
            }) == settle_exact_out(self@, adapter@, coin_in@, optional_text(*refund_address)),
    {
        if !str_eq(coin_in.denom.as_str(), self.remaining_coin.denom.as_str()) {
            return Err(ContractError::UserSwapCoinInDenomMismatch);
        }
        let refund: u128 = match calculate_refund(self.remaining_coin.amount, coin_in.amount) {
            Ok(refund) => refund,
            Err(e) => {
                return Err(ContractError::Overflow(e));
            },
        };
        let address: &String = match refund_address {
            Some(address) => address,
            None => {
                return Err(ContractError::NoRefundAddress);
            },
        };
        let mut messages: Vec<Message> = Vec::new();
        if refund > 0 {
            messages.push(send_message(address, &self.remaining_coin.denom, refund));
        }
        proof {
            assert(messages_view(messages@) == refund_messages(
                self@,
                coin_in@.amount,
                address@,
            ));
        }
        let ghost before = messages@;
        messages.push(
            venue_swap_message(
                adapter,
                self.operations(),
                &self.remaining_coin.denom,
                coin_in.amount,
            ),
        );
        proof {
            assert(messages_view(messages@) == messages_view(before) + seq![
                venue_swap(
                    adapter@,
                    self@.swap.route(),
                    self@.remaining_coin.denom,
                    coin_in@.amount,
                ),
            ]);
        }
        self.push_affiliate_messages(&mut messages);
        Ok(messages)
    }

    /// The question to the venue at `adapter`: which coin must go in for
    /// the minimum coin to come out of the route.
    fn simulate(&self, adapter: &String) -> (action: SwapAction)
        ensures
            action@ == price_query(self@, adapter@),
    {
        SwapAction::Simulate {
            adapter: adapter.clone(),
            query: QueryMsg::SimulateSwapExactCoinOut {
                coin_out: self.min_coin.duplicate(),
                swap_operations: duplicate_operations(self.operations()),
            },
        }
    }
}

/// One step of a user swap: takes the state the swap is in and what happened
/// outside, and gives the next state and what is to be done next.
pub fn user_swap_step(request: &UserSwap, state: SwapState, event: SwapEvent) -> (next: (
    SwapState,
    SwapAction,
))
    requires
        request.wf(),
    ensures
        (next.0@, next.1@) == step_of(request@, state@, event@),
{
    match state {
        SwapState::Received => match event {
            SwapEvent::Invoked { caller, entry_point } => {
                if caller != entry_point {
                    (SwapState::Failed, SwapAction::Fail { error: ContractError::Unauthorized })
                } else {
                    (
                        SwapState::Authorized,
                        SwapAction::ResolveVenue { name: request.venue_name().clone() },
                    )
                }
            },
            _ => (SwapState::Received, SwapAction::Idle),
        },
        SwapState::Authorized => match event {
            SwapEvent::VenueResolved { adapter: None } => (
                SwapState::Failed,
                SwapAction::Fail { error: ContractError::UnknownVenue },
            ),
            SwapEvent::VenueResolved { adapter: Some(adapter) } => {
                match validate_swap_operations(
                    request.operations().as_slice(),
                    request.remaining_coin.denom.as_str(),
                    request.min_coin.denom.as_str(),
                ) {
                    Err(e) => (SwapState::Failed, SwapAction::Fail { error: ContractError::Skip(e) }),
                    Ok(_) => match &request.swap {
                        Swap::SwapExactCoinIn(_) => {
                            let messages = request.dispatch_exact_in(&adapter);
                            (SwapState::Dispatched, SwapAction::Dispatch { messages })
                        },
                        Swap::SwapExactCoinOut(_) => {
                            let action = request.simulate(&adapter);
                            (SwapState::Validated { adapter }, action)
                        },
                    },
                }
            },
            _ => (
                SwapState::Authorized,
                SwapAction::ResolveVenue { name: request.venue_name().clone() },
            ),
        },
        SwapState::Validated { adapter } => {
            if let SwapEvent::Simulated { coin_in } = &event {
                if let Swap::SwapExactCoinOut(swap) = &request.swap {
                    return match request.settle_exact_out(&adapter, coin_in, &swap.refund_address) {
                        Err(error) => (SwapState::Failed, SwapAction::Fail { error }),
                        Ok(messages) => (SwapState::Dispatched, SwapAction::Dispatch { messages }),
                    };
                }
            }
            let action = request.simulate(&adapter);
            (SwapState::Validated { adapter }, action)
        },
        SwapState::Dispatched => (SwapState::Dispatched, SwapAction::Idle),
        SwapState::Failed => (SwapState::Failed, SwapAction::Idle),
    }
}

/// The result of a whole user swap, where the lookup of the venue gives
/// `venue` and the venue answers that `coin_in` must go in: the messages in
/// the order in which they are handed out, or the reason why there are none.
/// The checks come in a fixed order: the caller, the venue, the route, then,
/// for an exact-out swap, the denomination of the required coin, its amount,
/// and the refund address.
pub open spec fn user_swap_outcome(
    request: UserSwapView,
    caller: Seq<char>,
    entry_point: Seq<char>,
    venue: Option<Seq<char>>,
    coin_in: CoinView,
) -> Result<Seq<MessageView>, ContractErrorView> {
    if caller != entry_point {
        Err(ContractErrorView::Unauthorized)
    } else if venue is None {
        Err(ContractErrorView::UnknownVenue)
    } else {
        let adapter = venue->Some_0;
        match route_verdict(
            request.swap.route(),
            request.remaining_coin.denom,
            request.min_coin.denom,
        ) {
            Err(e) => Err(ContractErrorView::Skip(e)),
            Ok(_) => match request.swap {
                SwapView::SwapExactCoinIn { .. } => Ok(exact_in_messages(request, adapter)),
                SwapView::SwapExactCoinOut { refund_address, .. } => settle_exact_out(
                    request,
                    adapter,
                    coin_in,
                    refund_address,
                ),
            },
        }
    }
}

/// Runs a user swap from its arrival to its end, with the outside answers
/// known beforehand: the lookup of the venue gives `venue`, and the venue
/// requires `coin_in` for the minimum coin. `coin_in` is only looked at for an
/// exact-out swap with a valid route.
pub fn execute_user_swap(
    request: &UserSwap,
    caller: &String,
    entry_point: &String,
    venue: &Option<String>,
    coin_in: &Coin,
) -> (outcome: Result<Vec<Message>, ContractError>)
    requires
        request.wf(),
    ensures
        (match outcome {
            Ok(messages) => Ok::<Seq<MessageView>, ContractErrorView>(messages_view(messages@)),
            Err(error) => Err::<Seq<MessageView>, ContractErrorView>(error@),
        }) == user_swap_outcome(
            request@,
            caller@,
            entry_point@,
            optional_text(*venue),
            coin_in@,
        ),
{
    let invoked = SwapEvent::Invoked { caller: caller.clone(), entry_point: entry_point.clone() };
    let (state, action) = user_swap_step(request, SwapState::Received, invoked);
    if let SwapAction::Fail { error } = action {
        return Err(error);
    }
    let resolved = SwapEvent::VenueResolved {
        adapter: match venue {
            Some(adapter) => Some(adapter.clone()),
            None => None,
        },
    };
    let (state, action) = user_swap_step(request, state, resolved);
    match action {
        SwapAction::Fail { error } => {
            return Err(error);
        },
        SwapAction::Dispatch { messages } => {
            return Ok(messages);
        },
        _ => {},
    }
    let simulated = SwapEvent::Simulated { coin_in: coin_in.duplicate() };
    let (state, action) = user_swap_step(request, state, simulated);
    match action {
        SwapAction::Dispatch { messages } => Ok(messages),
        SwapAction::Fail { error } => Err(error),
        _ => unreached(),
    }
}

/// A caller that is not the entry point is turned down as unauthorized,
/// whatever the request holds: no other check comes first, and nothing is
/// looked up or asked of a venue.
pub proof fn lemma_unauthorized_caller_fails_first(
    request: UserSwapView,
    caller: Seq<char>,
    entry_point: Seq<char>,
    venue: Option<Seq<char>>,
    coin_in: CoinView,
)
    requires
        caller != entry_point,
    ensures
        step_of(request, SwapStateView::Received, SwapEventView::Invoked { caller, entry_point })
            == (
            SwapStateView::Failed,
            SwapActionView::Fail { error: ContractErrorView::Unauthorized },
        ),
        user_swap_outcome(request, caller, entry_point, venue, coin_in) == Err::<
            Seq<MessageView>,
            ContractErrorView,
        >(ContractErrorView::Unauthorized),
{
}

/// The refund of an exact-out swap whose required coin is of the remaining
/// denomination. Where more is required than remains, the swap fails with the
/// overflow of the subtraction, which carries both amounts. Otherwise, without
/// a refund address it fails for want of one, whatever the refund would be;
/// with one, the refund is what remains less what is required: it is the
/// first message where it is positive, and there is no refund message where
/// it is zero.
pub proof fn lemma_exact_out_refund(
    request: UserSwapView,
    adapter: Seq<char>,
    coin_in: CoinView,
    refund_address: Option<Seq<char>>,
)
    requires
        coin_in.denom == request.remaining_coin.denom,
    ensures
        coin_in.amount > request.remaining_coin.amount ==> settle_exact_out(
            request,
            adapter,
            coin_in,
            refund_address,
        ) == Err::<Seq<MessageView>, ContractErrorView>(
            ContractErrorView::Overflow(
                sub_overflow(request.remaining_coin.amount, coin_in.amount),
            ),
        ),
        coin_in.amount <= request.remaining_coin.amount && refund_address is None
            ==> settle_exact_out(request, adapter, coin_in, refund_address) == Err::<
            Seq<MessageView>,
            ContractErrorView,
        >(ContractErrorView::NoRefundAddress),
        coin_in.amount <= request.remaining_coin.amount && refund_address is Some ==> {
            let outcome = settle_exact_out(request, adapter, coin_in, refund_address);
            let swap = venue_swap(
                adapter,
                request.swap.route(),
                request.remaining_coin.denom,
                coin_in.amount,
            );
            &&& outcome is Ok
            &&& coin_in.amount < request.remaining_coin.amount ==> outcome->Ok_0[0] == send_one(
                refund_address->Some_0,
                request.remaining_coin.denom,
                (request.remaining_coin.amount - coin_in.amount) as nat,
            ) && outcome->Ok_0[1] == swap
            &&& coin_in.amount == request.remaining_coin.amount ==> outcome->Ok_0[0] == swap
        },
{
}

/// The place of the venue's swap among the messages of a swap that went
/// through: second where a refund comes first, else first.
pub open spec fn swap_position(request: UserSwapView, coin_in: CoinView) -> int {
    match request.swap {
        SwapView::SwapExactCoinIn { .. } => 0,
        SwapView::SwapExactCoinOut { .. } => if coin_in.amount < request.remaining_coin.amount {
            1
        } else {
            0
        },
    }
}

/// The order of the messages of a user swap that went through. There is one
/// swap message. Before it stands the refund and nothing else, if there is a
/// refund. After it stand the affiliates' transfers and nothing else, each of
/// its affiliate's share of the minimum coin, in the order in which the
/// affiliates were declared.
pub proof fn lemma_messages_are_ordered(
    request: UserSwapView,
    caller: Seq<char>,
    entry_point: Seq<char>,
    venue: Option<Seq<char>>,
    coin_in: CoinView,
)
    requires
        user_swap_outcome(request, caller, entry_point, venue, coin_in) is Ok,
    ensures
        ({
            let messages = user_swap_outcome(request, caller, entry_point, venue, coin_in)->Ok_0;
            let at = swap_position(request, coin_in);
            let payouts = payouts_of(request.min_coin.amount, request.affiliates);
            &&& messages.len() == at + 1 + payouts.len()
            &&& messages[at] is Execute
            &&& venue == Some(messages[at]->Execute_contract_addr)
            &&& messages[at]->Execute_msg == (ExecuteMsgView::Swap {
                operations: request.swap.route(),
            })
            &&& at == 1 ==> request.swap is SwapExactCoinOut && messages[0] == send_one(
                request.swap->SwapExactCoinOut_refund_address->Some_0,
                request.remaining_coin.denom,
                (request.remaining_coin.amount - coin_in.amount) as nat,
            )
            &&& forall|j: int|
                0 <= j < payouts.len() ==> {
                    let from = #[trigger] payout_origin(
                        request.min_coin.amount,
                        request.affiliates,
                        j,
                    );
                    &&& 0 <= from < request.affiliates.len()
                    &&& messages[at + 1 + j] == send_one(
                        request.affiliates[from].address,
                        request.min_coin.denom,
                        fee_of(request.min_coin.amount, request.affiliates[from].basis_points_fee),
                    )
                }
            &&& forall|j: int, k: int|
                0 <= j < k < payouts.len() ==> payout_origin(
                    request.min_coin.amount,
                    request.affiliates,
                    j,
                ) < payout_origin(request.min_coin.amount, request.affiliates, k)
        }),
{
    lemma_payouts_keep_declaration_order(request.min_coin.amount, request.affiliates);
}

} // verus!
