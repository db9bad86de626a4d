//! What holds of the contract over every store, sender and message.

use vstd::prelude::*;
use crate::contract::exec::donated;
use crate::contract::query::value_answer;
use crate::contract::instantiated;
use crate::error::ContractError;
use crate::{balance_needed, executed};
use crate::msg::{coins_view, Coin, CoinView, ExecuteMsg, InstantiateMsg, MessageInfo};
use crate::response::{BankMsgView, Response};
use crate::state::{
    contents, counter, counter_key, lemma_keys_distinct, lemma_wrote_elsewhere, minimal_donation,
    owner, Slot, Store,
};

verus! {

/// Some `execute` call takes the store from `before` to `after`.
pub open spec fn step(before: Store, after: Store) -> bool {
    exists|
        info: MessageInfo,
        msg: ExecuteMsg,
        balance: Result<Vec<Coin>, cosmwasm_std::StdError>,
        r: Result<Response, ContractError>,
    | #[trigger]
        executed(before, after, info, msg, balance, r)
}

/// A history of the store: each entry comes from the one before it by one
/// `execute` call.
pub open spec fn history(stores: Seq<Store>) -> bool {
    forall|k: int| 0 <= k < stores.len() - 1 ==> step(#[trigger] stores[k], stores[k + 1])
}

/// After an instantiation the counter is zero.
pub proof fn lemma_counter_starts_at_zero(
    before: Store,
    after: Store,
    info: MessageInfo,
    msg: InstantiateMsg,
)
    requires
        instantiated(before, after, info, msg),
    ensures
        counter(after) == Slot::Holds(0u64),
{
}

/// No `execute` call lowers the counter, and none raises it by more than
/// one: where the counter stood at `v` before, it stands at `v` or at
/// `v + 1` after.
pub proof fn lemma_execute_never_lowers_counter(
    before: Store,
    after: Store,
    info: MessageInfo,
    msg: ExecuteMsg,
    balance: Result<Vec<Coin>, cosmwasm_std::StdError>,
    r: Result<Response, ContractError>,
    v: u64,
)
    requires
        executed(before, after, info, msg, balance, r),
        counter(before) == Slot::Holds(v),
    ensures
        counter(after) == Slot::Holds(v) || (v < u64::MAX && counter(after) == Slot::Holds(
            (v + 1) as u64,
        )),
{
}

/// Over any history that starts with the counter in place, the counter
/// stays in place and never decreases: at a later point it is at least what
/// it was at an earlier one.
pub proof fn lemma_counter_never_decreases(stores: Seq<Store>, i: int, j: int)
    requires
        history(stores),
        0 <= i <= j < stores.len(),
        counter(stores[i]) is Holds,
    ensures
        counter(stores[j]) is Holds,
        counter(stores[i])->Holds_0 <= counter(stores[j])->Holds_0,
    decreases j - i,
{
    if i < j {
        lemma_counter_never_decreases(stores, i, j - 1);
        let before = stores[j - 1];
        let after = stores[j];
        assert(step(before, after));
        let (info, msg, balance, r) = choose|
            info: MessageInfo,
            msg: ExecuteMsg,
            balance: Result<Vec<Coin>, cosmwasm_std::StdError>,
            r: Result<Response, ContractError>,
        | #[trigger] executed(before, after, info, msg, balance, r);
        lemma_execute_never_lowers_counter(
            before,
            after,
            info,
            msg,
            balance,
            r,
            counter(before)->Holds_0,
        );
    }
}

/// Neither the minimal donation nor the owner changes in an `execute` call.
pub proof fn lemma_execute_keeps_threshold_and_owner(
    before: Store,
    after: Store,
    info: MessageInfo,
    msg: ExecuteMsg,
    balance: Result<Vec<Coin>, cosmwasm_std::StdError>,
    r: Result<Response, ContractError>,
)
    requires
        executed(before, after, info, msg, balance, r),
    ensures
        minimal_donation(after) == minimal_donation(before),
        owner(after) == owner(before),
{
    lemma_keys_distinct();
    if contents(after) != contents(before) {
        lemma_wrote_elsewhere(before, after, counter_key());
    }
}

/// A donation without funds succeeds and changes nothing, on any
/// instantiated store.
pub proof fn lemma_donation_without_funds(
    before: Store,
    after: Store,
    sender: Seq<char>,
    r: Result<Response, ContractError>,
)
    requires
        donated(before, after, sender, Seq::<CoinView>::empty(), r),
        minimal_donation(before) is Holds,
        counter(before) is Holds,
    ensures
        r is Ok,
        contents(after) == contents(before),
        counter(after) == counter(before),
{
}

/// A donation that holds a coin of the threshold's denomination and at least
/// its amount succeeds and advances the counter by exactly one, wherever the
/// counter is below its largest value.
pub proof fn lemma_donation_at_threshold_counts(
    before: Store,
    after: Store,
    sender: Seq<char>,
    funds: Seq<CoinView>,
    r: Result<Response, ContractError>,
    i: int,
)
    requires
        donated(before, after, sender, funds, r),
        minimal_donation(before) is Holds,
        counter(before) is Holds,
        0 <= i < funds.len(),
        funds[i].denom == minimal_donation(before)->Holds_0.denom,
        funds[i].amount >= minimal_donation(before)->Holds_0.amount,
        counter(before)->Holds_0 < u64::MAX,
    ensures
        r is Ok,
        counter(after) == Slot::Holds((counter(before)->Holds_0 + 1) as u64),
{
}

/// A donation in which every coin is of another denomination or below the
/// threshold's amount succeeds and leaves the counter as it was.
pub proof fn lemma_donation_below_threshold(
    before: Store,
    after: Store,
    sender: Seq<char>,
    funds: Seq<CoinView>,
    r: Result<Response, ContractError>,
)
    requires
        donated(before, after, sender, funds, r),
        minimal_donation(before) is Holds,
        counter(before) is Holds,
        forall|i: int|
            0 <= i < funds.len() ==> (#[trigger] funds[i]).denom != minimal_donation(
                before,
            )->Holds_0.denom || funds[i].amount < minimal_donation(before)->Holds_0.amount,
    ensures
        r is Ok,
        contents(after) == contents(before),
        counter(after) == counter(before),
{
}

/// A withdrawal asked for by anyone but the owner fails with `Unauthorized`,
/// names the owner, emits nothing and leaves the store as it was, whatever
/// the ledger said.
pub proof fn lemma_withdraw_by_stranger(
    before: Store,
    after: Store,
    info: MessageInfo,
    balance: Result<Vec<Coin>, cosmwasm_std::StdError>,
    r: Result<Response, ContractError>,
)
    requires
        executed(before, after, info, (ExecuteMsg::Withdraw {  }), balance, r),
        owner(before) is Holds,
        info.sender@ != owner(before)->Holds_0,
    ensures
        r matches Err(ContractError::Unauthorized { owner: named }) && named@ == owner(
            before,
        )->Holds_0,
        contents(after) == contents(before),
{
}

/// A withdrawal asked for by the owner emits exactly one instruction, which
/// sends the whole balance, as the ledger gave it, to the owner; the store
/// stays as it was.
pub proof fn lemma_withdraw_by_owner(
    before: Store,
    after: Store,
    info: MessageInfo,
    coins: Vec<Coin>,
    r: Result<Response, ContractError>,
)
    requires
        executed(
            before,
            after,
            info,
            (ExecuteMsg::Withdraw {  }),
            Ok::<Vec<Coin>, cosmwasm_std::StdError>(coins),
            r,
        ),
        owner(before) == Slot::Holds(info.sender@),
    ensures
        r matches Ok(resp) && resp@.messages == seq![
            BankMsgView::Send { to_address: info.sender@, amount: coins_view(coins@) },
        ],
        contents(after) == contents(before),
{
}

/// Where `needs_balance` says that the balance is not looked at, the
/// outcome of `execute` is the same whatever the ledger said.
pub proof fn lemma_unneeded_balance_is_ignored(
    before: Store,
    after: Store,
    info: MessageInfo,
    msg: ExecuteMsg,
    given: Result<Vec<Coin>, cosmwasm_std::StdError>,
    other: Result<Vec<Coin>, cosmwasm_std::StdError>,
    r: Result<Response, ContractError>,
)
    requires
        executed(before, after, info, msg, given, r),
        !balance_needed(before, info.sender@, msg),
    ensures
        executed(before, after, info, msg, other, r),
{
}

/// What `value` answers depends on what the store holds and on nothing
/// else: asked twice with the store unchanged in between, it answers the
/// same.
pub proof fn lemma_value_repeats(first: Store, second: Store)
    requires
        contents(first) == contents(second),
    ensures
        value_answer(first) == value_answer(second),
{
}

} // verus!
