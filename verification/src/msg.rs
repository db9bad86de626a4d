//! The message surface of the contract: what a caller sends, what the
//! contract answers, and the plain-value forms of the host's data that the
//! transition rules read.

use vstd::prelude::*;

verus! {

/// An amount of one denomination, as the rules see it.
pub struct CoinView {
    pub denom: Seq<char>,
    pub amount: nat,
}

/// An amount of one denomination.
#[derive(Clone, Debug, PartialEq, Eq)]
pub struct Coin {
    pub denom: String,
    pub amount: u128,
}

impl View for Coin {
    type V = CoinView;

    open spec fn view(&self) -> CoinView {
        CoinView { denom: self.denom@, amount: self.amount as nat }
    }
}

/// The coins of a list, each by its view, in the list's order.
pub open spec fn coins_view(coins: Seq<Coin>) -> Seq<CoinView> {
    Seq::new(coins.len(), |i: int| coins[i]@)
}

impl Coin {
    /// A coin of `amount` units of `denom`.
    pub fn new(amount: u128, denom: &str) -> (coin: Coin)
        ensures
            coin@ == (CoinView { denom: denom@, amount: amount as nat }),
    {
        Coin { denom: denom.to_owned(), amount }
    }
}

/// Who sent a message, and the funds attached to it.
#[derive(Clone, Debug, PartialEq, Eq)]
pub struct MessageInfo {
    pub sender: String,
    pub funds: Vec<Coin>,
}

/// Sets a contract instance up. `admins` belongs to the message schema and
/// takes no part in any transition.
#[derive(Clone, Debug, PartialEq, Eq)]
pub struct InstantiateMsg {
    pub admins: Option<Vec<String>>,
    pub minimal_donation: Coin,
}

/// The state transitions a caller may ask for.
#[derive(Clone, Debug, PartialEq, Eq)]
pub enum ExecuteMsg {
    Poke {},
    Donate {},
    Withdraw {},
    AddMembers { admins: Vec<String> },
    Leave {},
}

/// The questions a caller may ask.
#[derive(Clone, Debug, PartialEq, Eq)]
pub enum QueryMsg {
    Value {},
    Greet {},
    AdminsList {},
}

/// The answer to `QueryMsg::Value`.
#[derive(Clone, Debug, PartialEq, Eq)]
pub struct ValueResp {
    pub value: u64,
}

/// The answer shape of `QueryMsg::Greet`.
#[derive(Clone, Debug, PartialEq, Eq)]
pub struct GreetResp {
    pub message: String,
}

/// The answer shape of `QueryMsg::AdminsList`.
#[derive(Clone, Debug, PartialEq, Eq)]
pub struct AdminsListResp {
    pub admins: Vec<String>,
}

} // verus!
