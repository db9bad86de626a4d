//! State-changing calls.
//!
//! The counter is a `u64`. A call that would advance it past `u64::MAX`
//! fails with `CounterOverflow` and changes nothing: the counter neither
//! wraps nor sticks silently.

use vstd::prelude::*;
use vstd::string::*;
use crate::decimal::{decimal, decimal_text};
use crate::error::ContractError;
use crate::msg::{coins_view, Coin, CoinView, MessageInfo};
use crate::response::{AttributeView, BankMsg, BankMsgView, Response, ResponseView};
use crate::state::{
    contents, counter, counter_key, minimal_donation, owner, wrote, Slot, Store,
};

verus! {

/// Some coin of `funds` is of the threshold's denomination and at least of
/// its amount.
pub open spec fn qualifies(funds: Seq<CoinView>, threshold: CoinView) -> bool {
    exists|i: int|
        0 <= i < funds.len() && (#[trigger] funds[i]).denom == threshold.denom && funds[i].amount
            >= threshold.amount
}

/// The response of a call that reports the counter: the attributes
/// `action = poke`, `sender`, `counter`, in this order, and no instruction.
/// `donate` reports under the action `poke` as well.
pub open spec fn counter_response(sender: Seq<char>, value: u64) -> ResponseView {
    ResponseView {
        messages: Seq::<BankMsgView>::empty(),
        attributes: seq![
            AttributeView { key: "action"@, value: "poke"@ },
            AttributeView { key: "sender"@, value: sender },
            AttributeView { key: "counter"@, value: decimal(value as nat) },
        ],
    }
}

/// The response of a withdrawal: one instruction that sends `balance` to
/// `owner`, and the attributes `action = withdraw`, `sender`.
pub open spec fn withdraw_response(
    owner: Seq<char>,
    sender: Seq<char>,
    balance: Seq<CoinView>,
) -> ResponseView {
    ResponseView {
        messages: seq![BankMsgView::Send { to_address: owner, amount: balance }],
        attributes: seq![
            AttributeView { key: "action"@, value: "withdraw"@ },
            AttributeView { key: "sender"@, value: sender },
        ],
    }
}

/// The outcome `r` of advancing a counter that stood at `v`, in a call by
/// `sender` that took the store from `before` to `after`: below the largest
/// value the counter is written one higher and reported; at the largest
/// value the call fails and writes nothing.
pub open spec fn advanced(
    before: Store,
    after: Store,
    sender: Seq<char>,
    v: u64,
    r: Result<Response, ContractError>,
) -> bool {
    if v == u64::MAX {
        &&& r == Err::<Response, ContractError>(ContractError::CounterOverflow)
        &&& contents(after) == contents(before)
    } else {
        &&& r matches Ok(resp)
        &&& resp@ == counter_response(sender, (v + 1) as u64)
        &&& counter(after) == Slot::Holds((v + 1) as u64)
        &&& wrote(before, after, counter_key())
    }
}

/// What `poke` does, as a relation between the store before, the store
/// after, the sender and the outcome.
pub open spec fn poked(
    before: Store,
    after: Store,
    sender: Seq<char>,
    r: Result<Response, ContractError>,
) -> bool {
    match counter(before) {
        Slot::Holds(v) => advanced(before, after, sender, v, r),
        Slot::Absent => {
            &&& r == Err::<Response, ContractError>(ContractError::StorageUninitialized)
            &&& contents(after) == contents(before)
        },
        Slot::Corrupt(e) => {
            &&& r == Err::<Response, ContractError>(ContractError::Host(e))
            &&& contents(after) == contents(before)
        },
    }
}

/// What `donate` does, as a relation between the store before, the store
/// after, the message's sender and funds, and the outcome. The minimal
/// donation is read first, the counter second.
pub open spec fn donated(
    before: Store,
    after: Store,
    sender: Seq<char>,
    funds: Seq<CoinView>,
    r: Result<Response, ContractError>,
) -> bool {
    match minimal_donation(before) {
        Slot::Holds(threshold) => match counter(before) {
            Slot::Holds(v) => if qualifies(funds, threshold) {
                advanced(before, after, sender, v, r)
            } else {
                &&& r matches Ok(resp)
                &&& resp@ == counter_response(sender, v)
                &&& contents(after) == contents(before)
            },
            Slot::Absent => {
                &&& r == Err::<Response, ContractError>(ContractError::StorageUninitialized)
                &&& contents(after) == contents(before)
            },
            Slot::Corrupt(e) => {
                &&& r == Err::<Response, ContractError>(ContractError::Host(e))
                &&& contents(after) == contents(before)
            },
        },
        Slot::Absent => {
            &&& r == Err::<Response, ContractError>(ContractError::StorageUninitialized)
            &&& contents(after) == contents(before)
        },
        Slot::Corrupt(e) => {
            &&& r == Err::<Response, ContractError>(ContractError::Host(e))
            &&& contents(after) == contents(before)
        },
    }
}

/// What `withdraw` answers, given the store, the sender and what the ledger
/// said of the contract's balance.
pub open spec fn withdrawn(
    store: Store,
    sender: Seq<char>,
    balance: Result<Vec<Coin>, cosmwasm_std::StdError>,
    r: Result<Response, ContractError>,
) -> bool {
    match owner(store) {
        Slot::Holds(o) => if sender != o {
            r matches Err(ContractError::Unauthorized { owner: named }) && named@ == o
        } else {
            match balance {
                Ok(coins) => r matches Ok(resp) && resp@ == withdraw_response(
                    o,
                    sender,
                    coins_view(coins@),
                ),
                Err(e) => r == Err::<Response, ContractError>(ContractError::Host(e)),
            }
        },
        Slot::Absent => r == Err::<Response, ContractError>(ContractError::StorageUninitialized),
        Slot::Corrupt(e) => r == Err::<Response, ContractError>(ContractError::Host(e)),
    }
}

/// Whether some coin of `funds` meets the threshold.
pub fn meets_threshold(funds: &Vec<Coin>, threshold: &Coin) -> (b: bool)
    ensures
        b == qualifies(coins_view(funds@), threshold@),
{
    let mut i: usize = 0;
    while i < funds.len()
        invariant
            i <= funds.len(),
            forall|j: int|
                0 <= j < i ==> !((#[trigger] coins_view(funds@)[j]).denom == threshold@.denom
                    && coins_view(funds@)[j].amount >= threshold@.amount),
        decreases funds.len() - i,
    {
        if funds[i].denom == threshold.denom && funds[i].amount >= threshold.amount {
            assert(coins_view(funds@)[i as int] == funds@[i as int]@);
            return true;
        }
        assert(coins_view(funds@)[i as int] == funds@[i as int]@);
        i += 1;
    }
    false
}

/// The response that reports the counter at `value` to `sender`.
fn report_counter(sender: &str, value: u64) -> (resp: Response)
    ensures
        resp@ == counter_response(sender@, value),
{
    let text = decimal_text(value);
    let resp = Response::new().add_attribute("action", "poke").add_attribute(
        "sender",
        sender,
    ).add_attribute("counter", text.as_str());
    assert(resp@.attributes =~= counter_response(sender@, value).attributes);
    resp
}

/// Advances a counter that stands at `value` and reports the new value.
fn advance(store: &mut Store, sender: &str, value: u64) -> (r: Result<Response, ContractError>)
    ensures
        advanced(*old(store), *final(store), sender@, value, r),
{
    if value == u64::MAX {
        return Err(ContractError::CounterOverflow);
    }
    let next: u64 = value + 1;
    match store.save_counter(next) {
        Ok(()) => Ok(report_counter(sender, next)),
        Err(e) => Err(e),
    }
}

/// Advances the counter by one, whoever asks, and reports its new value.
pub fn poke(store: &mut Store, info: MessageInfo) -> (r: Result<Response, ContractError>)
    ensures
        poked(*old(store), *final(store), info.sender@, r),
{
    let value = match store.load_counter() {
        Ok(v) => v,
        Err(e) => {
            return Err(e);
        },
    };
    advance(store, info.sender.as_str(), value)
}

/// Advances the counter by one if the attached funds hold a coin of the
/// minimal donation's denomination and at least its amount, and reports the
/// counter's value either way. Too small a donation is no error.
pub fn donate(store: &mut Store, info: MessageInfo) -> (r: Result<Response, ContractError>)
    ensures
        donated(*old(store), *final(store), info.sender@, coins_view(info.funds@), r),
{
    let threshold = match store.load_minimal_donation() {
        Ok(c) => c,
        Err(e) => {
            return Err(e);
        },
    };
    let value = match store.load_counter() {
        Ok(v) => v,
        Err(e) => {
            return Err(e);
        },
    };
    if meets_threshold(&info.funds, &threshold) {
        advance(store, info.sender.as_str(), value)
    } else {
        Ok(report_counter(info.sender.as_str(), value))
    }
}

/// Hands the contract's whole balance to the owner, if the owner asks.
///
/// `balance` is what the ledger answered when asked for everything the
/// contract holds. It is looked at only once the sender is known to be the
/// owner. The store is not written.
pub fn withdraw(
    store: &Store,
    info: MessageInfo,
    balance: Result<Vec<Coin>, cosmwasm_std::StdError>,
) -> (r: Result<Response, ContractError>)
    ensures
        withdrawn(*store, info.sender@, balance, r),
{
    let owner = match store.load_owner() {
        Ok(o) => o,
        Err(e) => {
            return Err(e);
        },
    };
    if !(info.sender == owner) {
        return Err(ContractError::Unauthorized { owner });
    }
    let funds = match balance {
        Ok(coins) => coins,
        Err(e) => {
            return Err(ContractError::Host(e));
        },
    };
    let ghost amount = coins_view(funds@);
    let bank_msg = BankMsg::Send { to_address: owner, amount: funds };
    let resp = Response::new().add_message(bank_msg).add_attribute(
        "action",
        "withdraw",
    ).add_attribute("sender", info.sender.as_str());
    assert(resp@.messages =~= withdraw_response(owner@, info.sender@, amount).messages);
    assert(resp@.attributes =~= withdraw_response(owner@, info.sender@, amount).attributes);
    Ok(resp)
}

} // verus!
