//! The ways in which a handler can fail.

use cosmwasm_std::StdError;
use vstd::prelude::*;

verus! {

/// `cosmwasm_std::StdError`, the error of every storage and decoding call.
/// Nothing is said of what it holds: the handlers only pass it on.
#[verifier::external_type_specification]
#[verifier::external_body]
pub struct ExStdError(StdError);

#[derive(Debug)]
pub enum ContractError {
    /// A storage entry could not be read; the storage's own error is kept as it came.
    Std(StdError),
    /// The sender of a command is not the owner.
    Unauthorized {},
}

} // verus!
