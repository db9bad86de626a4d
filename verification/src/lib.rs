//! A counting contract: a counter in a persistent store that advances when a
//! caller donates at least a threshold, and whose accrued funds only the
//! owner may withdraw.
//!
//! The three entry points below map a message to its transition. The host
//! delivers one message at a time; each call ends in a response or in a
//! single error.

use vstd::prelude::*;
use crate::contract::exec::{donated, poked, withdrawn};
use crate::contract::query::value_answer;
use crate::contract::{empty_response, instantiated};
use crate::error::ContractError;
use crate::msg::{coins_view, Coin, ExecuteMsg, InstantiateMsg, MessageInfo, QueryMsg, ValueResp};
use crate::response::Response;
use crate::state::{contents, owner, Slot, Store};

pub mod contract;
pub mod decimal;
pub mod error;
pub mod laws;
pub mod msg;
pub mod response;
pub mod state;

verus! {

/// What `query` answers to `msg` on a store. `Greet` and `AdminsList` are in
/// the schema without a rule behind them: they are answered `Unsupported`.
pub open spec fn query_answer(store: Store, msg: QueryMsg) -> Result<ValueResp, ContractError> {
    match msg {
        QueryMsg::Value {  } => value_answer(store),
        QueryMsg::Greet {  } => Err(ContractError::Unsupported),
        QueryMsg::AdminsList {  } => Err(ContractError::Unsupported),
    }
}

/// What `execute` does, as a relation between the store before, the store
/// after, the message with its sender and funds, the ledger's word on the
/// contract's balance, and the outcome. `AddMembers` and `Leave` are in the
/// schema without a rule behind them: they fail with `Unsupported` and
/// change nothing.
pub open spec fn executed(
    before: Store,
    after: Store,
    info: MessageInfo,
    msg: ExecuteMsg,
    balance: Result<Vec<Coin>, cosmwasm_std::StdError>,
    r: Result<Response, ContractError>,
) -> bool {
    match msg {
        ExecuteMsg::Poke {  } => poked(before, after, info.sender@, r),
        ExecuteMsg::Donate {  } => donated(
            before,
            after,
            info.sender@,
            coins_view(info.funds@),
            r,
        ),
        ExecuteMsg::Withdraw {  } => {
            &&& withdrawn(before, info.sender@, balance, r)
            &&& contents(after) == contents(before)
        },
        ExecuteMsg::AddMembers { admins } => {
            &&& r == Err::<Response, ContractError>(ContractError::Unsupported)
            &&& contents(after) == contents(before)
        },
        ExecuteMsg::Leave {  } => {
            &&& r == Err::<Response, ContractError>(ContractError::Unsupported)
            &&& contents(after) == contents(before)
        },
    }
}

/// Whether an `execute` call looks at the contract's balance: only a
/// withdrawal asked for by the owner does.
pub open spec fn balance_needed(store: Store, sender: Seq<char>, msg: ExecuteMsg) -> bool {
    msg is Withdraw && owner(store) == Slot::Holds(sender)
}

/// Tells the host whether `execute` will look at the contract's balance for
/// this message, so that the ledger is asked only then. Where it answers
/// `false`, `execute` does the same whatever balance it is given.
pub fn needs_balance(store: &Store, info: &MessageInfo, msg: &ExecuteMsg) -> (b: bool)
    ensures
        b == balance_needed(*store, info.sender@, *msg),
{
    match msg {
        ExecuteMsg::Withdraw {  } => match store.load_owner() {
            Ok(owner) => owner == info.sender,
            Err(_) => false,
        },
        _ => false,
    }
}

/// Sets a fresh instance up. The host calls this once, before anything else.
/// It always succeeds.
pub fn instantiate(store: &mut Store, info: MessageInfo, msg: InstantiateMsg) -> (r: Result<
    Response,
    ContractError,
>)
    ensures
        r matches Ok(resp) && resp@ == empty_response(),
        instantiated(*old(store), *final(store), info, msg),
{
    contract::instantiate(store, info, msg)
}

/// Answers a question. The store is only read.
pub fn query(store: &Store, msg: QueryMsg) -> (r: Result<ValueResp, ContractError>)
    ensures
        r == query_answer(*store, msg),
{
    match msg {
        QueryMsg::Value {  } => contract::query::value(store),
        QueryMsg::Greet {  } => Err(ContractError::Unsupported),
        QueryMsg::AdminsList {  } => Err(ContractError::Unsupported),
    }
}

/// Carries a state transition out.
///
/// `balance` is what the ledger answered when asked for everything the
/// contract holds; only a withdrawal by the owner looks at it.
pub fn execute(
    store: &mut Store,
    info: MessageInfo,
    msg: ExecuteMsg,
    balance: Result<Vec<Coin>, cosmwasm_std::StdError>,
) -> (r: Result<Response, ContractError>)
    ensures
        executed(*old(store), *final(store), info, msg, balance, r),
{
    match msg {
        ExecuteMsg::Poke {  } => contract::exec::poke(store, info),
        ExecuteMsg::Donate {  } => contract::exec::donate(store, info),
        ExecuteMsg::Withdraw {  } => contract::exec::withdraw(store, info, balance),
        ExecuteMsg::AddMembers { admins } => Err(ContractError::Unsupported),
        ExecuteMsg::Leave {  } => Err(ContractError::Unsupported),
    }
}

} // verus!
