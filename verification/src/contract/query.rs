//! Read-only questions.

use vstd::prelude::*;
use crate::error::ContractError;
use crate::msg::ValueResp;
use crate::state::{counter, Slot, Store};

verus! {

/// What `value` answers on a store.
pub open spec fn value_answer(store: Store) -> Result<ValueResp, ContractError> {
    match counter(store) {
        Slot::Holds(v) => Ok(ValueResp { value: v }),
        Slot::Absent => Err(ContractError::StorageUninitialized),
        Slot::Corrupt(e) => Err(ContractError::Host(e)),
    }
}

/// The counter's value.
///
/// Fails with `StorageUninitialized` before instantiation, and with the
/// store's own error where the counter's bytes do not decode.
pub fn value(store: &Store) -> (r: Result<ValueResp, ContractError>)
    ensures
        r == value_answer(*store),
{
    match store.load_counter() {
        Ok(value) => Ok(ValueResp { value }),
        Err(e) => Err(e),
    }
}

} // verus!
