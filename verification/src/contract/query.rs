//! The questions: what an account holds, what several accounts hold, and
//! whether an operator may act for an account. None of them changes the
//! ledger, and what was never stored reads as zero or as not approved.

use crate::error::ContractError;
use crate::model::{balance, entry, garbled};
use crate::msg::{BalanceOfBatchResponse, BalanceOfResponse, IsApprovedForAllResponse};
use crate::state::{
    fits_key, get_balance, key_fits, load_approval, viewed_approvals, viewed_balances,
    BalanceWrite, LedgerView,
};
use vstd::prelude::*;

verus! {

/// One of the balances asked for cannot be read.
pub open spec fn some_garbled(
    balances: Map<(u64, Seq<char>), Option<u64>>,
    accounts: Seq<String>,
    ids: Seq<u64>,
) -> bool {
    exists|i: int| 0 <= i < ids.len() && #[trigger] garbled(balances, (ids[i], accounts[i]@))
}

/// The balance of `accounts[i]` in token `ids[i]`, for every `i`.
pub open spec fn balances_of(
    balances: Map<(u64, Seq<char>), Option<u64>>,
    accounts: Seq<String>,
    ids: Seq<u64>,
) -> Seq<u64> {
    Seq::new(ids.len(), |i: int| balance(balances, ids[i], accounts[i]@))
}

/// `operator` may act for `owner`: the approval stored for the pair is
/// `true`. Nothing stored means no.
pub open spec fn is_operator(
    approvals: Map<(Seq<char>, Seq<char>), Option<bool>>,
    owner: Seq<char>,
    operator: Seq<char>,
) -> bool {
    key_fits(owner) && entry(approvals, (owner, operator)) == Some(true)
}

/// What asking for one balance gives: the balance, unless the entry is
/// garbled, and then the store's error.
pub open spec fn balance_told(
    balances: Map<(u64, Seq<char>), Option<u64>>,
    account: Seq<char>,
    id: u64,
    r: Result<BalanceOfResponse, ContractError>,
) -> bool {
    match r {
        Ok(response) => !garbled(balances, (id, account)) && response.balanceOf == balance(balances, id, account),
        Err(e) => garbled(balances, (id, account)) && e is Std,
    }
}

/// What asking for several balances gives. Lists of different length are
/// turned away. Else it is the balances in order, unless one of the
/// entries is garbled, and then the store's error.
pub open spec fn balances_told(
    balances: Map<(u64, Seq<char>), Option<u64>>,
    accounts: Seq<String>,
    ids: Seq<u64>,
    r: Result<BalanceOfBatchResponse, ContractError>,
) -> bool {
    if accounts.len() != ids.len() {
        r matches Err(ContractError::InvalidIdAmountLength {  })
    } else {
        match r {
            Ok(response) => !some_garbled(balances, accounts, ids) && response.balanceOfBatch@ == balances_of(
                balances,
                accounts,
                ids,
            ),
            Err(e) => some_garbled(balances, accounts, ids) && e is Std,
        }
    }
}

/// What asking for an approval gives: whether the operator may act for the
/// account, unless the entry is garbled, and then the store's error.
pub open spec fn approval_told(
    approvals: Map<(Seq<char>, Seq<char>), Option<bool>>,
    account: Seq<char>,
    operator: Seq<char>,
    r: Result<IsApprovedForAllResponse, ContractError>,
) -> bool {
    let unreadable = key_fits(account) && garbled(approvals, (account, operator));
    match r {
        Ok(response) => !unreadable && response.isApprovedForAll == is_operator(approvals, account, operator),
        Err(e) => unreadable && e is Std,
    }
}

/// How much of token `id` `account` holds: zero where nothing is stored. It
/// fails only where the entry is garbled.
pub fn balance_of(view: &LedgerView, account: String, id: u64) -> (r: Result<BalanceOfResponse, ContractError>)
    ensures
        balance_told(viewed_balances(*view), account@, id, r),
{
    let nothing_staged: Vec<BalanceWrite> = Vec::new();
    match get_balance(view, &nothing_staged, id, &account) {
        Ok(amount) => Ok(BalanceOfResponse { balanceOf: amount }),
        Err(e) => Err(e),
    }
}

/// How much of token `ids[i]` `accounts[i]` holds, for every `i`, in that
/// order. Lists of different length are turned away; else it fails only
/// where one of the entries is garbled.
pub fn balance_of_batch(view: &LedgerView, accounts: Vec<String>, ids: Vec<u64>) -> (r: Result<
    BalanceOfBatchResponse,
    ContractError,
>)
    ensures
        balances_told(viewed_balances(*view), accounts@, ids@, r),
{
    if accounts.len() != ids.len() {
        return Err(ContractError::InvalidIdAmountLength {  });
    }
    let nothing_staged: Vec<BalanceWrite> = Vec::new();
    let mut found: Vec<u64> = Vec::new();
    let mut at: usize = 0;
    while at < ids.len()
        invariant
            at <= ids.len(),
            accounts.len() == ids.len(),
            nothing_staged@.len() == 0,
            found@.len() == at,
            forall|i: int|
                0 <= i < at ==> !(#[trigger] garbled(viewed_balances(*view), (ids@[i], accounts@[i]@))),
            forall|i: int|
                0 <= i < at ==> found@[i] == balance(viewed_balances(*view), ids@[i], #[trigger] accounts@[i]@),
        decreases ids.len() - at,
    {
        match get_balance(view, &nothing_staged, ids[at], &accounts[at]) {
            Ok(amount) => {
                found.push(amount);
            },
            Err(e) => {
                return Err(e);
            },
        }
        at = at + 1;
    }
    assert(found@ =~= balances_of(viewed_balances(*view), accounts@, ids@));
    Ok(BalanceOfBatchResponse { balanceOfBatch: found })
}

/// Whether `operator` may act for `account`: no where no approval was ever
/// stored for the pair. It fails only where the entry is garbled.
pub fn is_approved_for_all(view: &LedgerView, account: String, operator: String) -> (r: Result<
    IsApprovedForAllResponse,
    ContractError,
>)
    ensures
        approval_told(viewed_approvals(*view), account@, operator@, r),
{
    if !fits_key(account.as_str()) {
        return Ok(IsApprovedForAllResponse { isApprovedForAll: false });
    }
    match load_approval(view, account.as_str(), operator.as_str()) {
        Ok(Some(approved)) => Ok(IsApprovedForAllResponse { isApprovedForAll: approved }),
        Ok(None) => Ok(IsApprovedForAllResponse { isApprovedForAll: false }),
        Err(e) => Err(ContractError::Std(e)),
    }
}

} // verus!
