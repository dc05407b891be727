//! Messages and types of the adapters that send a coin on over IBC.

use vstd::prelude::*;
use vstd::std_specs::convert::FromSpecImpl;
use crate::coin::{coins_view, Coin, CoinView};
use crate::math::{decimal, decimal_string};

verus! {

/// Setup of an IBC transfer adapter.
#[derive(Debug, Clone, PartialEq, Eq)]
pub struct InstantiateMsg {
    pub entry_point_contract_address: String,
}

/// What an IBC transfer adapter can be asked to do.
#[derive(Debug, Clone, PartialEq, Eq)]
pub enum ExecuteMsg {
    IbcTransfer { info: IbcInfo, coin: Coin, timeout_timestamp: u64 },
}

/// The read-only questions the adapter on Neutron answers.
#[derive(Debug, Clone, PartialEq, Eq)]
pub enum NeutronQueryMsg {
    /// Who gets the funds of the transfer in flight on this channel with
    /// this sequence number, should it fail.
    InProgressRecoverAddress { channel_id: String, sequence_id: u64 },
}

/// The read-only questions the adapter on Osmosis answers.
#[derive(Debug, Clone, PartialEq, Eq)]
pub enum OsmosisQueryMsg {
    /// Who gets the funds of the transfer in flight on this channel with
    /// this sequence number, should it fail.
    InProgressRecoverAddress { channel_id: String, sequence_id: u64 },
}

/// The fees of one IBC transfer, by the event that each pays for.
#[derive(Debug, Clone, PartialEq, Eq)]
pub struct IbcFee {
    pub recv_fee: Vec<Coin>,
    pub ack_fee: Vec<Coin>,
    pub timeout_fee: Vec<Coin>,
}

/// A coin as the chain's wire format holds it: the amount is text, in base
/// ten.
#[derive(Debug, Clone, PartialEq, Eq)]
pub struct ProtoCoin {
    pub denom: String,
    pub amount: String,
}

/// What a [`ProtoCoin`] holds, as plain values.
pub struct ProtoCoinView {
    pub denom: Seq<char>,
    pub amount: Seq<char>,
}

impl View for ProtoCoin {
    type V = ProtoCoinView;

    open spec fn view(&self) -> ProtoCoinView {
        ProtoCoinView { denom: self.denom@, amount: self.amount@ }
    }
}

/// The views of a list of wire coins, in order.
pub open spec fn proto_coins_view(coins: Seq<ProtoCoin>) -> Seq<ProtoCoinView> {
    coins.map_values(|c: ProtoCoin| c@)
}

/// The wire form of a coin.
pub open spec fn proto_coin_of(coin: CoinView) -> ProtoCoinView {
    ProtoCoinView { denom: coin.denom, amount: decimal(coin.amount) }
}

/// The wire forms of a list of coins, in order.
pub open spec fn proto_coins_of(coins: Seq<CoinView>) -> Seq<ProtoCoinView> {
    coins.map_values(|c: CoinView| proto_coin_of(c))
}

/// The fees of one IBC transfer as Neutron's fee refunder takes them.
#[derive(Debug, Clone, PartialEq, Eq)]
pub struct NeutronFee {
    pub recv_fee: Vec<ProtoCoin>,
    pub ack_fee: Vec<ProtoCoin>,
    pub timeout_fee: Vec<ProtoCoin>,
}

/// The wire forms of a list of coins, in order.
pub fn proto_coins(coins: &Vec<Coin>) -> (wire: Vec<ProtoCoin>)
    ensures
        proto_coins_view(wire@) == proto_coins_of(coins_view(coins@)),
{
    let mut wire: Vec<ProtoCoin> = Vec::new();
    let mut i: usize = 0;
    while i < coins.len()
        invariant
            i <= coins.len(),
            proto_coins_view(wire@) == proto_coins_of(coins_view(coins@).take(i as int)),
        decreases coins.len() - i,
    {
        let ghost before = wire@;
        wire.push(
            ProtoCoin { denom: coins[i].denom.clone(), amount: decimal_string(coins[i].amount) },
        );
        proof {
            assert(proto_coins_view(wire@) == proto_coins_view(before).push(wire@.last()@));
            assert(coins_view(coins@).take(i + 1) == coins_view(coins@).take(i as int).push(
                coins[i as int]@,
            ));
            assert(proto_coins_of(coins_view(coins@).take(i + 1)) == proto_coins_of(
                coins_view(coins@).take(i as int),
            ).push(proto_coin_of(coins[i as int]@)));
        }
        i += 1;
    }
    proof {
        assert(coins_view(coins@).take(i as int) == coins_view(coins@));
    }
    wire
}

impl NeutronFee {
    /// The fees in wire form: every coin of every list, in its place.
    pub fn from_ibc_fee(ibc_fee: &IbcFee) -> (fee: NeutronFee)
        ensures
            proto_coins_view(fee.recv_fee@) == proto_coins_of(coins_view(ibc_fee.recv_fee@)),
            proto_coins_view(fee.ack_fee@) == proto_coins_of(coins_view(ibc_fee.ack_fee@)),
            proto_coins_view(fee.timeout_fee@) == proto_coins_of(
                coins_view(ibc_fee.timeout_fee@),
            ),
    {
        NeutronFee {
            recv_fee: proto_coins(&ibc_fee.recv_fee),
            ack_fee: proto_coins(&ibc_fee.ack_fee),
            timeout_fee: proto_coins(&ibc_fee.timeout_fee),
        }
    }
}

/// Where an IBC transfer goes and what goes with it.
#[derive(Debug, Clone, PartialEq, Eq)]
pub struct IbcInfo {
    pub source_channel: String,
    pub receiver: String,
    pub fee: IbcFee,
    pub memo: String,
    pub recover_address: String,
}

/// One IBC transfer: where it goes, the coin, and when it times out.
#[derive(Debug, Clone, PartialEq, Eq)]
pub struct IbcTransfer {
    pub info: IbcInfo,
    pub coin: Coin,
    pub timeout_timestamp: u64,
}

impl From<IbcTransfer> for ExecuteMsg {
    /// The adapter's `IbcTransfer` of this transfer.
    fn from(ibc_transfer: IbcTransfer) -> (msg: ExecuteMsg) {
        ExecuteMsg::IbcTransfer {
            info: ibc_transfer.info,
            coin: ibc_transfer.coin,
            timeout_timestamp: ibc_transfer.timeout_timestamp,
        }
    }
}

impl FromSpecImpl<IbcTransfer> for ExecuteMsg {
    open spec fn obeys_from_spec() -> bool {
        true
    }

    open spec fn from_spec(ibc_transfer: IbcTransfer) -> ExecuteMsg {
        ExecuteMsg::IbcTransfer {
            info: ibc_transfer.info,
            coin: ibc_transfer.coin,
            timeout_timestamp: ibc_transfer.timeout_timestamp,
        }
    }
}

/// The key under which a transfer in flight is kept: its channel and its
/// sequence number.
pub type AckID<'a> = (&'a str, u64);

/// How an IBC transfer ended.
#[derive(Debug, Clone, PartialEq, Eq)]
pub enum IbcLifecycleComplete {
    /// The packet was acknowledged.
    IbcAck {
        /// The source channel of the packet.
        channel: String,
        /// The sequence number that the packet was sent with.
        sequence: u64,
        /// The acknowledgement, as text.
        ack: String,
        /// Whether the acknowledgement reports success.
        success: bool,
    },
    /// The packet timed out.
    IbcTimeout {
        /// The source channel of the packet.
        channel: String,
        /// The sequence number that the packet was sent with.
        sequence: u64,
    },
}

} // verus!
