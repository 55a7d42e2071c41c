//! The three ways into the ledger: setting it up, running a command and
//! answering a question. Each hands the work to the function that the
//! message names.

use crate::error::ContractError;
use crate::msg::{ExecuteMsg, InstantiateMsg, QueryMsg, QueryResponse};
use crate::state::{
    accepted_addresses, stored_approvals, stored_balances, viewed_approvals, viewed_balances, Ledger,
    LedgerView,
};
use cosmwasm_std::{Empty, Response, StdError};
use vstd::prelude::*;

pub mod execute;
pub mod query;

verus! {

/// `cosmwasm_std::Empty`, which stands for "no custom message" in the type
/// of a response.
#[verifier::external_type_specification]
#[verifier::external_body]
pub struct ExEmpty(Empty);

/// `cosmwasm_std::Response`, what a call that went well hands to the host.
/// It is opaque to Verus: what it carries is what [`attributes_of`] and
/// [`message_count`] say of it.
#[verifier::external_type_specification]
#[verifier::external_body]
#[verifier::reject_recursive_types(T)]
pub struct ExResponse<T>(Response<T>);

/// The attributes that `response` carries, each a key and a value, in order.
pub uninterp spec fn attributes_of(response: Response) -> Seq<(Seq<char>, Seq<char>)>;

/// The number of messages that `response` asks the host to send on.
pub uninterp spec fn message_count(response: Response) -> nat;

/// The name under which the ledger records itself in the store.
pub const CONTRACT_NAME: &'static str = "crates.io:cw1155-base";

/// The version under which the ledger records itself in the store.
pub const CONTRACT_VERSION: &'static str = "0.1.0";

/// What a call that went well answers: one attribute, which names the
/// method, and nothing for the host to send on.
pub open spec fn names_method(response: Response, method: Seq<char>) -> bool {
    attributes_of(response) == seq![("method"@, method)] && message_count(response) == 0
}

/// `after` holds what `before` held.
pub open spec fn untouched(before: Ledger, after: Ledger) -> bool {
    &&& stored_balances(after) == stored_balances(before)
    &&& stored_approvals(after) == stored_approvals(before)
    &&& accepted_addresses(after) == accepted_addresses(before)
}

/// An empty response with one attribute added, made with `Response::new`
/// and `Response::add_attribute`: the key is `method`, the value is the
/// method's name.
#[verifier::external_body]
pub(crate) fn method_response(method: &str) -> (response: Response)
    ensures
        attributes_of(response) == seq![("method"@, method@)],
        message_count(response) == 0,
{
    Response::new().add_attribute("method", method)
}

/// Records the ledger's name and version with `cw2::set_contract_version`,
/// which saves them under a key of their own: no balance entry and no
/// approval entry has that key. Nothing is promised of when it succeeds.
#[verifier::external_body]
pub(crate) fn save_contract_version(ledger: &mut Ledger, name: &str, version: &str) -> (saved: Result<(), StdError>)
    ensures
        stored_balances(*final(ledger)) == stored_balances(*old(ledger)),
        stored_approvals(*final(ledger)) == stored_approvals(*old(ledger)),
        accepted_addresses(*final(ledger)) == accepted_addresses(*old(ledger)),
{
    cw2::set_contract_version(ledger.deps.storage, name, version)
}

/// What setting up answers, given what the store said to the record: the
/// answer that names the method where the record was saved, and the store's
/// error where it was not.
pub fn instantiated(saved: Result<(), StdError>) -> (r: Result<Response, ContractError>)
    ensures
        match saved {
            Ok(_) => r matches Ok(response) && names_method(response, "instantiate"@),
            Err(refusal) => r matches Err(ContractError::Std(e)) && e == refusal,
        },
{
    match saved {
        Ok(()) => Ok(method_response("instantiate")),
        Err(e) => Err(ContractError::Std(e)),
    }
}

/// Sets the ledger up: records its name and version, and leaves balances
/// and approvals as they are. It fails only where the store refuses the
/// record.
pub fn instantiate(ledger: &mut Ledger, _msg: InstantiateMsg) -> (r: Result<Response, ContractError>)
    ensures
        untouched(*old(ledger), *final(ledger)),
        match r {
            Ok(response) => names_method(response, "instantiate"@),
            Err(e) => e is Std,
        },
{
    instantiated(save_contract_version(ledger, CONTRACT_NAME, CONTRACT_VERSION))
}

/// What running a command does: what the function for that command does,
/// with the sender as the owner where an approval is set.
pub open spec fn executed(
    before: Ledger,
    after: Ledger,
    r: Result<Response, ContractError>,
    sender: Seq<char>,
    msg: ExecuteMsg,
) -> bool {
    match msg {
        ExecuteMsg::SetApprovalForAll { operator, approved } => execute::approval_set(
            before,
            after,
            r,
            sender,
            operator@,
            approved,
        ),
        ExecuteMsg::SafeTransferFrom { from, to, id, amount } => execute::transferred(
            before,
            after,
            r,
            "safe_transfer_from"@,
            from@,
            to@,
            seq![id],
            seq![amount],
        ),
        ExecuteMsg::SafeBatchTransferFrom { from, to, ids, amounts } => execute::transferred(
            before,
            after,
            r,
            "safe_batch_transfer_from"@,
            from@,
            to@,
            ids@,
            amounts@,
        ),
        ExecuteMsg::Mint { to, id, amount } => execute::minted(
            before,
            after,
            r,
            "mint"@,
            to@,
            seq![id],
            seq![amount],
        ),
        ExecuteMsg::MintBatch { to, ids, amounts } => execute::minted(
            before,
            after,
            r,
            "mint_batch"@,
            to@,
            ids@,
            amounts@,
        ),
        ExecuteMsg::Burn { from, id, amount } => execute::burned(
            before,
            after,
            r,
            "burn"@,
            from@,
            seq![id],
            seq![amount],
        ),
        ExecuteMsg::BurnBatch { from, ids, amounts } => execute::burned(
            before,
            after,
            r,
            "burn_batch"@,
            from@,
            ids@,
            amounts@,
        ),
    }
}

/// Runs one command for `sender`.
pub fn execute(ledger: &mut Ledger, sender: String, msg: ExecuteMsg) -> (r: Result<Response, ContractError>)
    ensures
        executed(*old(ledger), *final(ledger), r, sender@, msg),
{
    match msg {
        ExecuteMsg::SetApprovalForAll { operator, approved } => execute::set_approval_for_all(
            ledger,
            sender,
            operator,
            approved,
        ),
        ExecuteMsg::SafeTransferFrom { from, to, id, amount } => execute::safe_transfer_from(
            ledger,
            from,
            to,
            id,
            amount,
        ),
        ExecuteMsg::SafeBatchTransferFrom { from, to, ids, amounts } => execute::safe_batch_transfer_from(
            ledger,
            from,
            to,
            ids,
            amounts,
        ),
        ExecuteMsg::Mint { to, id, amount } => execute::mint(ledger, to, id, amount),
        ExecuteMsg::MintBatch { to, ids, amounts } => execute::mint_batch(ledger, to, ids, amounts),
        ExecuteMsg::Burn { from, id, amount } => execute::burn(ledger, from, id, amount),
        ExecuteMsg::BurnBatch { from, ids, amounts } => execute::burn_batch(ledger, from, ids, amounts),
    }
}

/// What answering a question gives: an answer of the kind asked for, which
/// says what the function for that question says.
pub open spec fn answered(view: LedgerView, r: Result<QueryResponse, ContractError>, msg: QueryMsg) -> bool {
    match msg {
        QueryMsg::BalanceOf { account, id } => (r matches Ok(answer) ==> answer is BalanceOf)
            && query::balance_told(
            viewed_balances(view),
            account@,
            id,
            match r {
                Ok(answer) => Ok(answer->BalanceOf_0),
                Err(e) => Err(e),
            },
        ),
        QueryMsg::BalanceOfBatch { accounts, ids } => (r matches Ok(answer) ==> answer is BalanceOfBatch)
            && query::balances_told(
            viewed_balances(view),
            accounts@,
            ids@,
            match r {
                Ok(answer) => Ok(answer->BalanceOfBatch_0),
                Err(e) => Err(e),
            },
        ),
        QueryMsg::IsApprovedForAll { account, operator } => (r matches Ok(answer) ==> answer is IsApprovedForAll)
            && query::approval_told(
            viewed_approvals(view),
            account@,
            operator@,
            match r {
                Ok(answer) => Ok(answer->IsApprovedForAll_0),
                Err(e) => Err(e),
            },
        ),
    }
}

/// Answers one question.
pub fn query(view: &LedgerView, msg: QueryMsg) -> (r: Result<QueryResponse, ContractError>)
    ensures
        answered(*view, r, msg),
{
    match msg {
        QueryMsg::BalanceOf { account, id } => match query::balance_of(view, account, id) {
            Ok(answer) => Ok(QueryResponse::BalanceOf(answer)),
            Err(e) => Err(e),
        },
        QueryMsg::BalanceOfBatch { accounts, ids } => match query::balance_of_batch(view, accounts, ids) {
            Ok(answer) => Ok(QueryResponse::BalanceOfBatch(answer)),
            Err(e) => Err(e),
        },
        QueryMsg::IsApprovedForAll { account, operator } => match query::is_approved_for_all(
            view,
            account,
            operator,
        ) {
            Ok(answer) => Ok(QueryResponse::IsApprovedForAll(answer)),
            Err(e) => Err(e),
        },
    }
}

} // verus!
