//! The failures that a call on the ledger can end in.

use crate::model::Refusal;
use cosmwasm_std::StdError;
use vstd::prelude::*;

verus! {

/// `cosmwasm_std::StdError`, the error of the host and its store. It is
/// carried through as it comes and never looked into.
#[verifier::external_type_specification]
#[verifier::external_body]
pub struct ExStdError(StdError);

/// Every call either succeeds or ends in exactly one of these, having
/// changed nothing.
#[derive(Debug)]
pub enum ContractError {
    /// The store could not make sense of what it holds, or could not write.
    Std(StdError),
    /// Kept for a caller that may not act for an account. No operation of
    /// the ledger checks the caller, so none reports it.
    Unauthorized {},
    /// An address is malformed, or the zero account stands where a real
    /// account is needed.
    InvalidAddress {},
    /// Two lists that go together pair by pair differ in length.
    InvalidIdAmountLength {},
    /// A debit asks for more than the account holds.
    InsufficientBalance {},
    /// An owner names itself as its operator.
    SelfApprovedError {},
    /// A credit would push a balance past the largest amount.
    Overflow {},
}

impl ContractError {
    /// The error that a refused change to the balances is reported as.
    pub open spec fn reports(self, why: Refusal) -> bool {
        match why {
            Refusal::Unreadable => self is Std,
            Refusal::InsufficientBalance => self is InsufficientBalance,
            Refusal::Overflow => self is Overflow,
        }
    }
}

} // verus!
