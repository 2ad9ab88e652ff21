//! The values exchanged with the host: coins, message metadata, and the
//! declarative effects and attributes a handler returns.

use crate::addr::Addr;
use crate::msg::NoisSinkExecuteMsg;
use vstd::prelude::*;

verus! {

/// An amount of one denomination.
#[derive(Clone, Debug, PartialEq, Eq)]
pub struct Coin {
    pub denom: String,
    pub amount: u128,
}

#[verifier::ext_equal]
pub struct CoinV {
    pub denom: Seq<char>,
    pub amount: u128,
}

impl View for Coin {
    type V = CoinV;

    open spec fn view(&self) -> CoinV {
        CoinV { denom: self.denom@, amount: self.amount }
    }
}

impl Coin {
    pub fn new(amount: u128, denom: &str) -> (c: Coin)
        ensures
            c@ == (CoinV { denom: denom@, amount }),
    {
        Coin { denom: denom.to_string(), amount }
    }
}

pub open spec fn coins_view(coins: Seq<Coin>) -> Seq<CoinV> {
    coins.map_values(|c: Coin| c@)
}

/// Metadata of the invoking message: who sent it and what funds it carries.
#[derive(Clone, Debug, PartialEq, Eq)]
pub struct MessageInfo {
    pub sender: Addr,
    pub funds: Vec<Coin>,
}

#[verifier::ext_equal]
pub struct MessageInfoV {
    pub sender: Seq<char>,
    pub funds: Seq<CoinV>,
}

impl View for MessageInfo {
    type V = MessageInfoV;

    open spec fn view(&self) -> MessageInfoV {
        MessageInfoV { sender: self.sender@, funds: coins_view(self.funds@) }
    }
}

/// A declarative outbound effect, executed by the host as part of the same
/// transaction: either a sub-call into another actor carrying funds, or a
/// direct transfer of funds to an address.
#[derive(Clone, Debug, PartialEq, Eq)]
pub enum CosmosMsg {
    /// A sub-call to the actor at `contract_addr`, attaching `funds`.
    WasmExecute { contract_addr: String, msg: NoisSinkExecuteMsg, funds: Vec<Coin> },
    /// A direct transfer of `amount` to `to_address`.
    BankSend { to_address: String, amount: Vec<Coin> },
}

#[verifier::ext_equal]
pub enum CosmosMsgV {
    WasmExecute { contract_addr: Seq<char>, msg: NoisSinkExecuteMsg, funds: Seq<CoinV> },
    BankSend { to_address: Seq<char>, amount: Seq<CoinV> },
}

impl View for CosmosMsg {
    type V = CosmosMsgV;

    open spec fn view(&self) -> CosmosMsgV {
        match self {
            CosmosMsg::WasmExecute { contract_addr, msg, funds } => CosmosMsgV::WasmExecute {
                contract_addr: contract_addr@,
                msg: *msg,
                funds: coins_view(funds@),
            },
            CosmosMsg::BankSend { to_address, amount } => CosmosMsgV::BankSend {
                to_address: to_address@,
                amount: coins_view(amount@),
            },
        }
    }
}

pub open spec fn msgs_view(msgs: Seq<CosmosMsg>) -> Seq<CosmosMsgV> {
    msgs.map_values(|m: CosmosMsg| m@)
}

/// An observable key/value pair recorded with a successful response, for
/// host-level event logs.
#[derive(Clone, Debug, PartialEq, Eq)]
pub struct Attribute {
    pub key: String,
    pub value: String,
}

#[verifier::ext_equal]
pub struct AttributeV {
    pub key: Seq<char>,
    pub value: Seq<char>,
}

impl View for Attribute {
    type V = AttributeV;

    open spec fn view(&self) -> AttributeV {
        AttributeV { key: self.key@, value: self.value@ }
    }
}

pub open spec fn attrs_view(attrs: Seq<Attribute>) -> Seq<AttributeV> {
    attrs.map_values(|a: Attribute| a@)
}

/// A successful handler result: the ordered effects for the host to execute,
/// and the observable attributes.
#[derive(Clone, Debug, PartialEq, Eq)]
pub struct Response {
    pub messages: Vec<CosmosMsg>,
    pub attributes: Vec<Attribute>,
}

#[verifier::ext_equal]
pub struct ResponseV {
    pub messages: Seq<CosmosMsgV>,
    pub attributes: Seq<AttributeV>,
}

impl View for Response {
    type V = ResponseV;

    open spec fn view(&self) -> ResponseV {
        ResponseV { messages: msgs_view(self.messages@), attributes: attrs_view(self.attributes@) }
    }
}

impl Response {
    pub fn new() -> (r: Response)
        ensures
            r@ == (ResponseV { messages: Seq::<CosmosMsgV>::empty(), attributes: Seq::<AttributeV>::empty() }),
    {
        let r = Response { messages: Vec::new(), attributes: Vec::new() };
        proof {
            assert(r@ =~~= (ResponseV {
                messages: Seq::<CosmosMsgV>::empty(),
                attributes: Seq::<AttributeV>::empty(),
            }));
        }
        r
    }

    /// Appends one effect, leaving everything else unchanged.
    pub fn add_message(self, msg: CosmosMsg) -> (r: Response)
        ensures
            r@ == (ResponseV { messages: self@.messages.push(msg@), attributes: self@.attributes }),
    {
        let mut messages = self.messages;
        let ghost old_messages = messages@;
        messages.push(msg);
        let r = Response { messages, attributes: self.attributes };
        proof {
            assert(r@ =~~= (ResponseV { messages: msgs_view(old_messages).push(msg@), attributes: r@.attributes }));
        }
        r
    }

    /// Appends the given effects in order, leaving everything else unchanged.
    pub fn add_messages(self, msgs: Vec<CosmosMsg>) -> (r: Response)
        ensures
            r@ == (ResponseV { messages: self@.messages + msgs_view(msgs@), attributes: self@.attributes }),
    {
        let ghost orig = self.messages@;
        let ghost added = msgs@;
        let mut messages = self.messages;
        let mut msgs = msgs;
        messages.append(&mut msgs);
        let r = Response { messages, attributes: self.attributes };
        proof {
            assert(r@ =~~= (ResponseV { messages: msgs_view(orig) + msgs_view(added), attributes: r@.attributes }));
        }
        r
    }

    /// Appends one observable attribute, leaving everything else unchanged.
    pub fn add_attribute(self, key: String, value: String) -> (r: Response)
        ensures
            r@ == (ResponseV {
                messages: self@.messages,
                attributes: self@.attributes.push(AttributeV { key: key@, value: value@ }),
            }),
    {
        let ghost pushed = AttributeV { key: key@, value: value@ };
        let mut attributes = self.attributes;
        let ghost old_attributes = attributes@;
        attributes.push(Attribute { key, value });
        let r = Response { messages: self.messages, attributes };
        proof {
            assert(r@ =~~= (ResponseV { messages: r@.messages, attributes: attrs_view(old_attributes).push(pushed) }));
        }
        r
    }
}

} // verus!
