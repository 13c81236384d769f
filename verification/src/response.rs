//! What the contract answers to an action: messages for the chain to carry
//! out, and attributes that describe what happened.
use vstd::prelude::*;

use crate::coin::{coins_view, Coin, CoinView};
use crate::msg::ExecMsg;

verus! {

/// A key and a value that describe an action.
#[derive(Clone, Debug, PartialEq, Eq)]
pub struct Attribute {
    pub key: String,
    pub value: String,
}

/// What an attribute is: its key and its value.
pub type AttributeView = (Seq<char>, Seq<char>);

impl View for Attribute {
    type V = AttributeView;

    open spec fn view(&self) -> AttributeView {
        (self.key@, self.value@)
    }
}

/// A message for the chain to carry out after the action.
#[derive(Clone, Debug, PartialEq, Eq)]
pub enum CosmosMsg {
    /// Send `amount` from the contract to `to_address`.
    BankSend { to_address: String, amount: Vec<Coin> },
    /// Execute `msg` on the contract at `contract_addr`, sending it `funds`.
    WasmExecute { contract_addr: String, msg: ExecMsg, funds: Vec<Coin> },
}

/// What a message is.
pub enum MsgView {
    BankSend { to_address: Seq<char>, amount: Seq<CoinView> },
    WasmExecute { contract_addr: Seq<char>, msg: ExecMsg, funds: Seq<CoinView> },
}

impl View for CosmosMsg {
    type V = MsgView;

    open spec fn view(&self) -> MsgView {
        match self {
            CosmosMsg::BankSend { to_address, amount } => MsgView::BankSend {
                to_address: to_address@,
                amount: coins_view(amount@),
            },
            CosmosMsg::WasmExecute { contract_addr, msg, funds } => MsgView::WasmExecute {
                contract_addr: contract_addr@,
                msg: *msg,
                funds: coins_view(funds@),
            },
        }
    }
}

/// The answer to an action.
#[derive(Clone, Debug, PartialEq, Eq)]
pub struct Response {
    pub messages: Vec<CosmosMsg>,
    pub attributes: Vec<Attribute>,
}

/// What an answer is: its messages and its attributes, in order.
pub struct ResponseView {
    pub messages: Seq<MsgView>,
    pub attributes: Seq<AttributeView>,
}

impl View for Response {
    type V = ResponseView;

    open spec fn view(&self) -> ResponseView {
        ResponseView {
            messages: self.messages@.map_values(|m: CosmosMsg| m@),
            attributes: self.attributes@.map_values(|a: Attribute| a@),
        }
    }
}

/// The answer with no message and no attribute.
pub open spec fn empty_response() -> ResponseView {
    ResponseView { messages: seq![], attributes: seq![] }
}

impl Response {
    /// An answer with no message and no attribute.
    pub fn new() -> (resp: Response)
        ensures
            resp@ == empty_response(),
    {
        let resp = Response { messages: Vec::new(), attributes: Vec::new() };
        assert(resp@.messages =~= seq![]);
        assert(resp@.attributes =~= seq![]);
        resp
    }

    /// This answer with one more attribute at the end.
    pub fn add_attribute(self, key: &str, value: String) -> (resp: Response)
        ensures
            resp@.messages == self@.messages,
            resp@.attributes == self@.attributes.push((key@, value@)),
    {
        let ghost old_view = self@;
        let mut resp = self;
        resp.attributes.push(Attribute { key: String::from_str(key), value });
        assert(resp@.attributes =~= old_view.attributes.push((key@, value@)));
        resp
    }

    /// This answer with one more message at the end.
    pub fn add_message(self, msg: CosmosMsg) -> (resp: Response)
        ensures
            resp@.messages == self@.messages.push(msg@),
            resp@.attributes == self@.attributes,
    {
        let ghost old_view = self@;
        let ghost m = msg@;
        let mut resp = self;
        resp.messages.push(msg);
        assert(resp@.messages =~= old_view.messages.push(m));
        resp
    }
}

} // verus!
