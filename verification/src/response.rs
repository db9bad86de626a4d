//! What a successful call hands back to the host: attributes for observers
//! and instructions for the ledger.

use vstd::prelude::*;
use crate::msg::{Coin, CoinView, coins_view};

verus! {

/// A key and a value, both text.
pub struct AttributeView {
    pub key: Seq<char>,
    pub value: Seq<char>,
}

/// A key and a value attached to a response.
#[derive(Clone, Debug, PartialEq, Eq)]
pub struct Attribute {
    pub key: String,
    pub value: String,
}

impl View for Attribute {
    type V = AttributeView;

    open spec fn view(&self) -> AttributeView {
        AttributeView { key: self.key@, value: self.value@ }
    }
}

/// An instruction to the ledger, by its view.
pub enum BankMsgView {
    Send { to_address: Seq<char>, amount: Seq<CoinView> },
}

/// An instruction to the ledger. The contract only emits it; the host
/// settles it.
#[derive(Clone, Debug, PartialEq, Eq)]
pub enum BankMsg {
    /// Move `amount` from the contract's balance to `to_address`.
    Send { to_address: String, amount: Vec<Coin> },
}

impl View for BankMsg {
    type V = BankMsgView;

    open spec fn view(&self) -> BankMsgView {
        match self {
            BankMsg::Send { to_address, amount } => BankMsgView::Send {
                to_address: to_address@,
                amount: coins_view(amount@),
            },
        }
    }
}

/// A response, by its view.
pub struct ResponseView {
    pub messages: Seq<BankMsgView>,
    pub attributes: Seq<AttributeView>,
}

/// The outcome of a successful call.
#[derive(Clone, Debug, PartialEq, Eq)]
pub struct Response {
    pub messages: Vec<BankMsg>,
    pub attributes: Vec<Attribute>,
}

impl View for Response {
    type V = ResponseView;

    open spec fn view(&self) -> ResponseView {
        ResponseView {
            messages: Seq::new(self.messages@.len(), |i: int| self.messages@[i]@),
            attributes: Seq::new(self.attributes@.len(), |i: int| self.attributes@[i]@),
        }
    }
}

impl Response {
    /// The empty response: no instruction, no attribute.
    pub fn new() -> (resp: Response)
        ensures
            resp@.messages == Seq::<BankMsgView>::empty(),
            resp@.attributes == Seq::<AttributeView>::empty(),
    {
        let resp = Response { messages: Vec::new(), attributes: Vec::new() };
        assert(resp@.messages =~= Seq::<BankMsgView>::empty());
        assert(resp@.attributes =~= Seq::<AttributeView>::empty());
        resp
    }

    /// Appends an instruction.
    pub fn add_message(self, msg: BankMsg) -> (resp: Response)
        ensures
            resp@.messages == self@.messages.push(msg@),
            resp@.attributes == self@.attributes,
    {
        let mut resp = self;
        resp.messages.push(msg);
        assert(resp@.messages =~= self@.messages.push(msg@));
        assert(resp@.attributes =~= self@.attributes);
        resp
    }

    /// Appends an attribute.
    pub fn add_attribute(self, key: &str, value: &str) -> (resp: Response)
        ensures
            resp@.messages == self@.messages,
            resp@.attributes == self@.attributes.push(
                AttributeView { key: key@, value: value@ },
            ),
    {
        let mut resp = self;
        resp.attributes.push(Attribute { key: key.to_owned(), value: value.to_owned() });
        assert(resp@.messages =~= self@.messages);
        assert(resp@.attributes =~= self@.attributes.push(
            AttributeView { key: key@, value: value@ },
        ));
        resp
    }
}

} // verus!
