//! The errors a call can end in.

use vstd::prelude::*;

verus! {

/// The host's error type. Its values are carried through untouched.
#[verifier::external_type_specification]
#[verifier::external_body]
pub struct ExStdError(cosmwasm_std::StdError);

/// Why a call was rejected. A rejected call is over: nothing resumes it.
#[derive(Debug, PartialEq)]
pub enum ContractError {
    /// A field was read that no instantiation has written yet.
    StorageUninitialized,
    /// Someone other than the owner asked for a withdrawal.
    Unauthorized { owner: String },
    /// The counter stands at its largest value and cannot advance.
    CounterOverflow,
    /// The message is part of the schema but has no transition.
    Unsupported,
    /// A stored value did not decode, or the ledger failed; the host's error,
    /// as it came.
    Host(cosmwasm_std::StdError),
}

} // verus!
