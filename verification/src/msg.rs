//! The commands and queries that the ledger answers, and its answers.
//! Accounts are written as address strings; the empty string is no account.

use vstd::prelude::*;

verus! {

/// Setting up the ledger takes no parameters.
#[derive(Clone, Debug, PartialEq)]
pub struct InstantiateMsg {}

/// A command that changes the ledger.
#[derive(Clone, Debug, PartialEq)]
pub enum ExecuteMsg {
    /// The sender lets `operator` act for it, or no longer.
    SetApprovalForAll { operator: String, approved: bool },
    /// Moves `amount` of token `id` between two real accounts.
    SafeTransferFrom { from: String, to: String, id: u64, amount: u64 },
    /// Moves `amounts[i]` of token `ids[i]`, for every `i`, between two real
    /// accounts, all or nothing.
    SafeBatchTransferFrom { from: String, to: String, ids: Vec<u64>, amounts: Vec<u64> },
    /// Creates `amount` of token `id` for `to`.
    Mint { to: String, id: u64, amount: u64 },
    /// Creates `amounts[i]` of token `ids[i]`, for every `i`, for `to`, all
    /// or nothing.
    MintBatch { to: String, ids: Vec<u64>, amounts: Vec<u64> },
    /// Destroys `amount` of token `id` held by `from`.
    Burn { from: String, id: u64, amount: u64 },
    /// Destroys `amounts[i]` of token `ids[i]`, for every `i`, held by
    /// `from`, all or nothing.
    BurnBatch { from: String, ids: Vec<u64>, amounts: Vec<u64> },
}

/// A question about the ledger.
#[derive(Clone, Debug, PartialEq)]
pub enum QueryMsg {
    /// How much of token `id` does `account` hold?
    BalanceOf { account: String, id: u64 },
    /// How much of token `ids[i]` does `accounts[i]` hold, for every `i`?
    BalanceOfBatch { accounts: Vec<String>, ids: Vec<u64> },
    /// May `operator` act for `account`?
    IsApprovedForAll { account: String, operator: String },
}

/// The answer to [`QueryMsg::BalanceOf`].
#[allow(non_snake_case)]
#[derive(Clone, Debug, PartialEq)]
pub struct BalanceOfResponse {
    pub balanceOf: u64,
}

/// The answer to [`QueryMsg::BalanceOfBatch`], in the order of the question.
#[allow(non_snake_case)]
#[derive(Clone, Debug, PartialEq)]
pub struct BalanceOfBatchResponse {
    pub balanceOfBatch: Vec<u64>,
}

/// The answer to [`QueryMsg::IsApprovedForAll`].
#[allow(non_snake_case)]
#[derive(Clone, Debug, PartialEq)]
pub struct IsApprovedForAllResponse {
    pub isApprovedForAll: bool,
}

/// The answer to a [`QueryMsg`], of the kind that the question asks for.
#[derive(Clone, Debug, PartialEq)]
pub enum QueryResponse {
    BalanceOf(BalanceOfResponse),
    BalanceOfBatch(BalanceOfBatchResponse),
    IsApprovedForAll(IsApprovedForAllResponse),
}

} // verus!
