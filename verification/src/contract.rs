//! The transitions of the contract. Each takes the store as an explicit
//! handle and returns either a response or a single error.

use vstd::prelude::*;
use crate::error::ContractError;
use crate::msg::{InstantiateMsg, MessageInfo};
use crate::response::{AttributeView, BankMsgView, Response, ResponseView};
use crate::state::{
    contents, counter, counter_key, lemma_keys_distinct, lemma_wrote_elsewhere, minimal_donation,
    minimal_donation_key, owner, owner_key, Slot, Store,
};

pub mod exec;
pub mod query;

verus! {

/// The response that carries nothing.
pub open spec fn empty_response() -> ResponseView {
    ResponseView {
        messages: Seq::<BankMsgView>::empty(),
        attributes: Seq::<AttributeView>::empty(),
    }
}

/// What the store holds apart from the contract's three fields.
pub open spec fn beside_fields(store: Store) -> Map<Seq<u8>, Seq<u8>> {
    contents(store).remove(counter_key()).remove(minimal_donation_key()).remove(owner_key())
}

/// `after` is `before` with the three fields set as an instantiation by
/// `info` with `msg` sets them, and nothing else touched.
pub open spec fn instantiated(
    before: Store,
    after: Store,
    info: MessageInfo,
    msg: InstantiateMsg,
) -> bool {
    &&& counter(after) == Slot::Holds(0u64)
    &&& minimal_donation(after) == Slot::Holds(msg.minimal_donation@)
    &&& owner(after) == Slot::Holds(info.sender@)
    &&& beside_fields(after) == beside_fields(before)
}

/// Sets the instance up: the counter at zero, the minimal donation as the
/// message gives it, the sender as owner. It writes over whatever the three
/// keys held, rejects no message and always succeeds.
pub fn instantiate(store: &mut Store, info: MessageInfo, msg: InstantiateMsg) -> (r: Result<
    Response,
    ContractError,
>)
    ensures
        r matches Ok(resp) && resp@ == empty_response(),
        instantiated(*old(store), *final(store), info, msg),
{
    match store.save_counter(0) {
        Ok(()) => {},
        Err(e) => {
            return Err(e);
        },
    }
    let ghost first = *store;
    match store.save_minimal_donation(&msg.minimal_donation) {
        Ok(()) => {},
        Err(e) => {
            return Err(e);
        },
    }
    let ghost second = *store;
    proof {
        lemma_keys_distinct();
        lemma_wrote_elsewhere(*old(store), first, counter_key());
        lemma_wrote_elsewhere(first, second, minimal_donation_key());
        assert(contents(second).remove(counter_key()).remove(minimal_donation_key())
            =~= contents(*old(store)).remove(counter_key()).remove(minimal_donation_key()));
    }
    match store.save_owner(info.sender.as_str()) {
        Ok(()) => {},
        Err(e) => {
            return Err(e);
        },
    }
    proof {
        lemma_wrote_elsewhere(second, *store, owner_key());
        assert(beside_fields(*store) =~= beside_fields(*old(store)));
    }
    Ok(Response::new())
}

} // verus!
