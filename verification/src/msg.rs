//! Outbound messages: what one call asks the chain to carry out, in order.

use vstd::prelude::*;
use crate::coin::{coins_view, Coin, CoinView};
use crate::fee::{Payout, PayoutView, payouts_view};
use crate::swap::{optional_text, ExecuteMsg, ExecuteMsgView};

verus! {

/// One outbound message. The chain carries out the messages of a call in the
/// order in which the call returned them, and all of them or none.
#[derive(Debug, Clone, PartialEq, Eq)]
pub enum Message {
    /// A bank transfer of `amount` to `to_address`.
    Send { to_address: String, amount: Vec<Coin> },
    /// A call of a swap adapter, with `funds` attached.
    Execute { contract_addr: String, msg: ExecuteMsg, funds: Vec<Coin> },
    /// A call that has a wrapping contract mint for `receiver`, or for the
    /// sender where there is none, against the `funds` attached.
    Mint { contract_addr: String, receiver: Option<String>, funds: Vec<Coin> },
}

/// What a [`Message`] holds, as plain values.
pub enum MessageView {
    Send { to_address: Seq<char>, amount: Seq<CoinView> },
    Execute { contract_addr: Seq<char>, msg: ExecuteMsgView, funds: Seq<CoinView> },
    Mint { contract_addr: Seq<char>, receiver: Option<Seq<char>>, funds: Seq<CoinView> },
}

impl View for Message {
    type V = MessageView;

    open spec fn view(&self) -> MessageView {
        match self {
            Message::Send { to_address, amount } => MessageView::Send {
                to_address: to_address@,
                amount: coins_view(amount@),
            },
            Message::Execute { contract_addr, msg, funds } => MessageView::Execute {
                contract_addr: contract_addr@,
                msg: msg@,
                funds: coins_view(funds@),
            },
            Message::Mint { contract_addr, receiver, funds } => MessageView::Mint {
                contract_addr: contract_addr@,
                receiver: optional_text(*receiver),
                funds: coins_view(funds@),
            },
        }
    }
}

/// The views of a list of messages, in order.
pub open spec fn messages_view(messages: Seq<Message>) -> Seq<MessageView> {
    messages.map_values(|m: Message| m@)
}

/// A transfer of one coin.
pub open spec fn send_one(to_address: Seq<char>, denom: Seq<char>, amount: nat) -> MessageView {
    MessageView::Send { to_address, amount: seq![CoinView { denom, amount }] }
}

/// One transfer per payout, in order, each of the payout's amount of `denom`.
pub open spec fn payout_messages(denom: Seq<char>, payouts: Seq<PayoutView>) -> Seq<MessageView> {
    payouts.map_values(|p: PayoutView| send_one(p.address, denom, p.amount))
}

/// A transfer of `amount` units of `denom` to `to_address`.
pub fn send_message(to_address: &String, denom: &String, amount: u128) -> (msg: Message)
    ensures
        msg@ == send_one(to_address@, denom@, amount as nat),
{
    let mut coins: Vec<Coin> = Vec::new();
    coins.push(Coin { denom: denom.clone(), amount });
    proof {
        assert(coins_view(coins@) == seq![CoinView { denom: denom@, amount: amount as nat }]);
    }
    Message::Send { to_address: to_address.clone(), amount: coins }
}

/// Appends one transfer per payout to `messages`, in order.
pub fn push_payout_messages(messages: &mut Vec<Message>, denom: &String, payouts: &Vec<Payout>)
    ensures
        messages_view(final(messages)@) == messages_view(old(messages)@) + payout_messages(
            denom@,
            payouts_view(payouts@),
        ),
{
    let mut i: usize = 0;
    while i < payouts.len()
        invariant
            i <= payouts.len(),
            messages_view(messages@) == messages_view(old(messages)@) + payout_messages(
                denom@,
                payouts_view(payouts@).take(i as int),
            ),
        decreases payouts.len() - i,
    {
        let ghost before = messages@;
        messages.push(send_message(&payouts[i].address, denom, payouts[i].amount));
        proof {
            assert(messages_view(messages@) == messages_view(before).push(messages@.last()@));
            assert(payouts_view(payouts@).take(i + 1) == payouts_view(payouts@).take(
                i as int,
            ).push(payouts[i as int]@));
            assert(payout_messages(denom@, payouts_view(payouts@).take(i + 1))
                == payout_messages(denom@, payouts_view(payouts@).take(i as int)).push(
                send_one(payouts[i as int]@.address, denom@, payouts[i as int]@.amount),
            ));
        }
        i += 1;
    }
    proof {
        assert(payouts_view(payouts@).take(i as int) == payouts_view(payouts@));
    }
}

/// Who called, and the coins that came with the call.
#[derive(Debug, Clone, PartialEq, Eq)]
pub struct MessageInfo {
    pub sender: String,
    pub funds: Vec<Coin>,
}

/// A key and a value that a call reports.
#[derive(Debug, Clone, PartialEq, Eq)]
pub struct Attribute {
    pub key: String,
    pub value: String,
}

/// What an [`Attribute`] holds, as plain values.
pub struct AttributeView {
    pub key: Seq<char>,
    pub value: Seq<char>,
}

impl View for Attribute {
    type V = AttributeView;

    open spec fn view(&self) -> AttributeView {
        AttributeView { key: self.key@, value: self.value@ }
    }
}

/// The views of a list of attributes, in order.
pub open spec fn attributes_view(attributes: Seq<Attribute>) -> Seq<AttributeView> {
    attributes.map_values(|a: Attribute| a@)
}

/// The attribute that names what a call did.
pub open spec fn action(name: Seq<char>) -> AttributeView {
    AttributeView { key: "action"@, value: name }
}

/// What a call that went through hands back: the messages to carry out, in
/// order, and the attributes it reports.
#[derive(Debug, Clone, PartialEq, Eq)]
pub struct Response {
    pub messages: Vec<Message>,
    pub attributes: Vec<Attribute>,
}

/// What a [`Response`] holds, as plain values.
pub struct ResponseView {
    pub messages: Seq<MessageView>,
    pub attributes: Seq<AttributeView>,
}

impl View for Response {
    type V = ResponseView;

    open spec fn view(&self) -> ResponseView {
        ResponseView {
            messages: messages_view(self.messages@),
            attributes: attributes_view(self.attributes@),
        }
    }
}

impl Response {
    /// A response without messages or attributes.
    pub fn new() -> (response: Response)
        ensures
            response@ == (ResponseView { messages: Seq::empty(), attributes: Seq::empty() }),
    {
        let response = Response { messages: Vec::new(), attributes: Vec::new() };
        proof {
            assert(messages_view(response.messages@) == Seq::<MessageView>::empty());
            assert(attributes_view(response.attributes@) == Seq::<AttributeView>::empty());
        }
        response
    }

    /// The response with `msg` after its messages.
    pub fn add_message(self, msg: Message) -> (response: Response)
        ensures
            response@ == (ResponseView { messages: self@.messages.push(msg@), ..self@ }),
    {
        let mut response = self;
        response.messages.push(msg);
        proof {
            assert(messages_view(response.messages@) == self@.messages.push(msg@));
        }
        response
    }

    /// The response with the attribute `key`, `value` after its attributes.
    pub fn add_attribute(self, key: &str, value: &str) -> (response: Response)
        ensures
            response@ == (ResponseView {
                attributes: self@.attributes.push(AttributeView { key: key@, value: value@ }),
                ..self@
            }),
    {
        let mut response = self;
        response.attributes.push(Attribute { key: key.to_owned(), value: value.to_owned() });
        proof {
            assert(attributes_view(response.attributes@) == self@.attributes.push(
                AttributeView { key: key@, value: value@ },
            ));
        }
        response
    }
}

} // verus!
