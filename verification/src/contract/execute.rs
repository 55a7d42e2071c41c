//! The commands: transfers, mints and burns, one token or a batch, and
//! operator approvals.
//!
//! Every transfer, mint and burn is one call of [`update`], which moves a
//! batch between two accounts. A mint moves from the zero account, a burn
//! moves to it, and a command on one token is a batch of one. A batch is
//! staged pair by pair and written only when every pair has been accepted:
//! a call that fails leaves the ledger as it found it.
//!
//! No command asks who the caller is. Whether a caller may move or burn
//! what `from` holds is left to whoever calls the ledger.

use crate::contract::{method_response, names_method, untouched};
use crate::error::ContractError;
use crate::model::{batch_outcome, is_zero_account, lemma_batch_step, lemma_refusal_is_final};
use crate::state::{
    accepted_addresses, address_accepted, commit, credit, debit, fits_key, key_fits, overlay, save_approval,
    stored_approvals, stored_balances, viewed_balances, BalanceWrite, Ledger,
};
use cosmwasm_std::Response;
use vstd::prelude::*;

verus! {

/// What moving a batch from `from` to `to` does. Lists of different length
/// are turned away. Else the batch is applied pair by pair: if every pair is
/// accepted the balances are what the batch leaves and the answer names
/// `method`; if a pair is refused the call fails with the error for that
/// refusal and the balances are as they were. Approvals and the address
/// validator are never touched.
pub open spec fn moved(
    before: Ledger,
    after: Ledger,
    r: Result<Response, ContractError>,
    method: Seq<char>,
    from: Seq<char>,
    to: Seq<char>,
    ids: Seq<u64>,
    amounts: Seq<u64>,
) -> bool {
    &&& stored_approvals(after) == stored_approvals(before)
    &&& accepted_addresses(after) == accepted_addresses(before)
    &&& if ids.len() != amounts.len() {
        r matches Err(ContractError::InvalidIdAmountLength {  }) && stored_balances(after) == stored_balances(before)
    } else {
        match batch_outcome(stored_balances(before), from, to, ids, amounts) {
            Ok(balances) => r matches Ok(response) && names_method(response, method) && stored_balances(after)
                == balances,
            Err(why) => r matches Err(e) && e.reports(why) && stored_balances(after) == stored_balances(before),
        }
    }
}

/// What a transfer between two accounts does: it is turned away as an
/// invalid address where either is the zero account, and else moves the
/// batch.
pub open spec fn transferred(
    before: Ledger,
    after: Ledger,
    r: Result<Response, ContractError>,
    method: Seq<char>,
    from: Seq<char>,
    to: Seq<char>,
    ids: Seq<u64>,
    amounts: Seq<u64>,
) -> bool {
    if is_zero_account(from) || is_zero_account(to) {
        r matches Err(ContractError::InvalidAddress {  }) && untouched(before, after)
    } else {
        moved(before, after, r, method, from, to, ids, amounts)
    }
}

/// `account` can receive a mint or give to a burn: it is not the zero
/// account, and the host accepts it as an address.
pub open spec fn is_real_account(ledger: Ledger, account: Seq<char>) -> bool {
    !is_zero_account(account) && accepted_addresses(ledger).contains(account)
}

/// What a mint does: it is turned away as an invalid address where `to` is
/// no real account, and else moves the batch from the zero account to `to`.
pub open spec fn minted(
    before: Ledger,
    after: Ledger,
    r: Result<Response, ContractError>,
    method: Seq<char>,
    to: Seq<char>,
    ids: Seq<u64>,
    amounts: Seq<u64>,
) -> bool {
    if !is_real_account(before, to) {
        r matches Err(ContractError::InvalidAddress {  }) && untouched(before, after)
    } else {
        moved(before, after, r, method, Seq::empty(), to, ids, amounts)
    }
}

/// What a burn does: it is turned away as an invalid address where `from`
/// is no real account, and else moves the batch from `from` to the zero
/// account.
pub open spec fn burned(
    before: Ledger,
    after: Ledger,
    r: Result<Response, ContractError>,
    method: Seq<char>,
    from: Seq<char>,
    ids: Seq<u64>,
    amounts: Seq<u64>,
) -> bool {
    if !is_real_account(before, from) {
        r matches Err(ContractError::InvalidAddress {  }) && untouched(before, after)
    } else {
        moved(before, after, r, method, from, Seq::empty(), ids, amounts)
    }
}

/// What setting an approval does. An owner that names itself is turned
/// away, whatever the flag; so is an owner whose address the store cannot
/// hold. Else the flag is stored for the pair, over whatever was stored for
/// it before, and nothing else changes.
pub open spec fn approval_set(
    before: Ledger,
    after: Ledger,
    r: Result<Response, ContractError>,
    owner: Seq<char>,
    operator: Seq<char>,
    approved: bool,
) -> bool {
    if owner == operator {
        r matches Err(ContractError::SelfApprovedError {  }) && untouched(before, after)
    } else if !key_fits(owner) {
        r matches Err(ContractError::InvalidAddress {  }) && untouched(before, after)
    } else {
        &&& r matches Ok(response) && names_method(response, "set_approval_for_all"@)
        &&& stored_approvals(after) == stored_approvals(before).insert((owner, operator), Some(approved))
        &&& stored_balances(after) == stored_balances(before)
        &&& accepted_addresses(after) == accepted_addresses(before)
    }
}

/// The one-token form of a batch: a list of one id and a list of one amount.
pub fn change_to_array(id: u64, amount: u64) -> (arrays: ([u64; 1], [u64; 1]))
    ensures
        arrays.0@ == seq![id],
        arrays.1@ == seq![amount],
{
    let id_array = [id];
    let amount_array = [amount];
    (id_array, amount_array)
}

/// Moves `amounts[i]` of token `ids[i]` from `from` to `to`, for every `i`
/// in order, all or nothing. The zero account as `from` makes it a mint, as
/// `to` a burn.
pub fn update(ledger: &mut Ledger, from: String, to: String, ids: &[u64], amounts: &[u64]) -> (r: Result<
    Response,
    ContractError,
>)
    ensures
        moved(*old(ledger), *final(ledger), r, "update"@, from@, to@, ids@, amounts@),
{
    if ids.len() != amounts.len() {
        return Err(ContractError::InvalidIdAmountLength {  });
    }
    let debits = !from.as_str().is_empty();
    let credits = !to.as_str().is_empty();
    let mut staged: Vec<BalanceWrite> = Vec::new();
    let view = ledger.as_view();
    let ghost base = stored_balances(*ledger);
    let mut at: usize = 0;
    while at < ids.len()
        invariant
            at <= ids.len(),
            ids.len() == amounts.len(),
            debits == !is_zero_account(from@),
            credits == !is_zero_account(to@),
            *ledger == *old(ledger),
            base == stored_balances(*ledger),
            base == viewed_balances(view),
            batch_outcome(base, from@, to@, ids@.take(at as int), amounts@.take(at as int)) matches Ok(balances)
                && balances == overlay(base, staged@),
        decreases ids.len() - at,
    {
        proof {
            lemma_batch_step(base, from@, to@, ids@, amounts@, at as int);
        }
        if debits {
            match debit(&view, &mut staged, ids[at], &from, amounts[at]) {
                Ok(()) => {},
                Err(e) => {
                    proof {
                        lemma_refusal_is_final(base, from@, to@, ids@, amounts@, at + 1);
                    }
                    return Err(e);
                },
            }
        }
        if credits {
            match credit(&view, &mut staged, ids[at], &to, amounts[at]) {
                Ok(()) => {},
                Err(e) => {
                    proof {
                        lemma_refusal_is_final(base, from@, to@, ids@, amounts@, at + 1);
                    }
                    return Err(e);
                },
            }
        }
        at = at + 1;
    }
    assert(ids@.take(at as int) =~= ids@);
    assert(amounts@.take(at as int) =~= amounts@);
    commit(ledger, &staged);
    Ok(method_response("update"))
}

/// The answer of a call that has moved its batch through [`update`], under
/// the method's own name.
fn answer_as(moved: Result<Response, ContractError>, method: &str) -> (r: Result<Response, ContractError>)
    ensures
        match moved {
            Ok(_) => r matches Ok(response) && names_method(response, method@),
            Err(e) => r == Err::<Response, ContractError>(e),
        },
{
    match moved {
        Ok(_) => Ok(method_response(method)),
        Err(e) => Err(e),
    }
}

/// Lets `operator` act for `owner`, or no longer.
pub fn set_approval_for_all(ledger: &mut Ledger, owner: String, operator: String, approved: bool) -> (r: Result<
    Response,
    ContractError,
>)
    ensures
        approval_set(*old(ledger), *final(ledger), r, owner@, operator@, approved),
{
    if owner == operator {
        return Err(ContractError::SelfApprovedError {  });
    }
    if !fits_key(owner.as_str()) {
        return Err(ContractError::InvalidAddress {  });
    }
    save_approval(ledger, owner.as_str(), operator.as_str(), approved);
    Ok(method_response("set_approval_for_all"))
}

/// Moves `amount` of token `id` from `from` to `to`, two real accounts.
pub fn safe_transfer_from(ledger: &mut Ledger, from: String, to: String, id: u64, amount: u64) -> (r: Result<
    Response,
    ContractError,
>)
    ensures
        transferred(
            *old(ledger),
            *final(ledger),
            r,
            "safe_transfer_from"@,
            from@,
            to@,
            seq![id],
            seq![amount],
        ),
{
    if from.as_str().is_empty() || to.as_str().is_empty() {
        return Err(ContractError::InvalidAddress {  });
    }
    let (id_array, amount_array) = change_to_array(id, amount);
    answer_as(update(ledger, from, to, id_array.as_slice(), amount_array.as_slice()), "safe_transfer_from")
}

/// Moves `amounts[i]` of token `ids[i]`, for every `i`, from `from` to `to`,
/// two real accounts, all or nothing.
pub fn safe_batch_transfer_from(
    ledger: &mut Ledger,
    from: String,
    to: String,
    ids: Vec<u64>,
    amounts: Vec<u64>,
) -> (r: Result<Response, ContractError>)
    ensures
        transferred(
            *old(ledger),
            *final(ledger),
            r,
            "safe_batch_transfer_from"@,
            from@,
            to@,
            ids@,
            amounts@,
        ),
{
    if from.as_str().is_empty() || to.as_str().is_empty() {
        return Err(ContractError::InvalidAddress {  });
    }
    answer_as(update(ledger, from, to, ids.as_slice(), amounts.as_slice()), "safe_batch_transfer_from")
}

/// Creates `amount` of token `id` for `to`, a real account.
pub fn mint(ledger: &mut Ledger, to: String, id: u64, amount: u64) -> (r: Result<Response, ContractError>)
    ensures
        minted(*old(ledger), *final(ledger), r, "mint"@, to@, seq![id], seq![amount]),
{
    if to.as_str().is_empty() || !address_accepted(ledger, to.as_str()) {
        return Err(ContractError::InvalidAddress {  });
    }
    let (id_array, amount_array) = change_to_array(id, amount);
    answer_as(update(ledger, String::new(), to, id_array.as_slice(), amount_array.as_slice()), "mint")
}

/// Creates `amounts[i]` of token `ids[i]`, for every `i`, for `to`, a real
/// account, all or nothing.
pub fn mint_batch(ledger: &mut Ledger, to: String, ids: Vec<u64>, amounts: Vec<u64>) -> (r: Result<
    Response,
    ContractError,
>)
    ensures
        minted(*old(ledger), *final(ledger), r, "mint_batch"@, to@, ids@, amounts@),
{
    if to.as_str().is_empty() || !address_accepted(ledger, to.as_str()) {
        return Err(ContractError::InvalidAddress {  });
    }
    answer_as(update(ledger, String::new(), to, ids.as_slice(), amounts.as_slice()), "mint_batch")
}

/// Destroys `amount` of token `id` held by `from`, a real account.
pub fn burn(ledger: &mut Ledger, from: String, id: u64, amount: u64) -> (r: Result<Response, ContractError>)
    ensures
        burned(*old(ledger), *final(ledger), r, "burn"@, from@, seq![id], seq![amount]),
{
    if from.as_str().is_empty() || !address_accepted(ledger, from.as_str()) {
        return Err(ContractError::InvalidAddress {  });
    }
    let (id_array, amount_array) = change_to_array(id, amount);
    answer_as(update(ledger, from, String::new(), id_array.as_slice(), amount_array.as_slice()), "burn")
}

/// Destroys `amounts[i]` of token `ids[i]`, for every `i`, held by `from`,
/// a real account, all or nothing.
pub fn burn_batch(ledger: &mut Ledger, from: String, ids: Vec<u64>, amounts: Vec<u64>) -> (r: Result<
    Response,
    ContractError,
>)
    ensures
        burned(*old(ledger), *final(ledger), r, "burn_batch"@, from@, ids@, amounts@),
{
    if from.as_str().is_empty() || !address_accepted(ledger, from.as_str()) {
        return Err(ContractError::InvalidAddress {  });
    }
    answer_as(update(ledger, from, String::new(), ids.as_slice(), amounts.as_slice()), "burn_batch")
}

} // verus!
