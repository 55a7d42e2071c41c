//! What the ledger guarantees across its operations, beyond what each one
//! promises by itself: that an overdraft is refused, that a failed call
//! changes nothing, that minting, burning and moving show up in the
//! balances, and how approvals behave.

use crate::contract::execute::{approval_set, burned, is_real_account, minted, moved, transferred};
use crate::contract::query::{approval_told, balance_told, balances_told, is_operator};
use crate::contract::{executed, untouched};
use crate::error::ContractError;
use crate::model::{balance, batch_outcome, garbled, is_zero_account, pair_outcome, Refusal};
use crate::msg::{BalanceOfBatchResponse, BalanceOfResponse, ExecuteMsg, IsApprovedForAllResponse};
use crate::state::{key_fits, stored_approvals, stored_balances, Ledger};
use cosmwasm_std::Response;
use vstd::prelude::*;

verus! {

/// A batch of one pair does what the pair does.
pub proof fn lemma_batch_of_one(
    balances: Map<(u64, Seq<char>), Option<u64>>,
    from: Seq<char>,
    to: Seq<char>,
    id: u64,
    amount: u64,
)
    ensures
        batch_outcome(balances, from, to, seq![id], seq![amount]) == pair_outcome(balances, from, to, id, amount),
{
    assert(seq![id].drop_last() =~= Seq::<u64>::empty());
    assert(seq![amount].drop_last() =~= Seq::<u64>::empty());
    assert(batch_outcome(balances, from, to, Seq::<u64>::empty(), Seq::<u64>::empty()) matches Ok(rest) && rest
        == balances);
}

/// **No balance goes below zero.** A pair that takes from a real account
/// more than it holds is refused for insufficient balance.
pub proof fn lemma_overdraft_is_refused(
    balances: Map<(u64, Seq<char>), Option<u64>>,
    from: Seq<char>,
    to: Seq<char>,
    id: u64,
    amount: u64,
)
    requires
        !is_zero_account(from),
        !garbled(balances, (id, from)),
        balance(balances, id, from) < amount,
    ensures
        pair_outcome(balances, from, to, id, amount) matches Err(Refusal::InsufficientBalance),
{
}

/// **An overdraft changes nothing.** A call that moves from a real account
/// more of a token than it holds fails with `InsufficientBalance`, and
/// every balance and approval is as it was.
pub proof fn lemma_overdraft_changes_nothing(
    before: Ledger,
    after: Ledger,
    r: Result<Response, ContractError>,
    method: Seq<char>,
    from: Seq<char>,
    to: Seq<char>,
    id: u64,
    amount: u64,
)
    requires
        moved(before, after, r, method, from, to, seq![id], seq![amount]),
        !is_zero_account(from),
        !garbled(stored_balances(before), (id, from)),
        balance(stored_balances(before), id, from) < amount,
    ensures
        r matches Err(ContractError::InsufficientBalance {  }),
        untouched(before, after),
{
    lemma_batch_of_one(stored_balances(before), from, to, id, amount);
}

/// **All or nothing.** A batch whose pair number `at` is refused, after
/// the pairs before it were accepted, is refused as a whole for the same
/// reason.
pub proof fn lemma_one_refusal_refuses_all(
    balances: Map<(u64, Seq<char>), Option<u64>>,
    from: Seq<char>,
    to: Seq<char>,
    ids: Seq<u64>,
    amounts: Seq<u64>,
    at: int,
)
    requires
        ids.len() == amounts.len(),
        0 <= at < ids.len(),
        batch_outcome(balances, from, to, ids.take(at), amounts.take(at)) is Ok,
        pair_outcome(
            batch_outcome(balances, from, to, ids.take(at), amounts.take(at))->Ok_0,
            from,
            to,
            ids[at],
            amounts[at],
        ) is Err,
    ensures
        batch_outcome(balances, from, to, ids, amounts) == pair_outcome(
            batch_outcome(balances, from, to, ids.take(at), amounts.take(at))->Ok_0,
            from,
            to,
            ids[at],
            amounts[at],
        ),
{
    crate::model::lemma_batch_step(balances, from, to, ids, amounts, at);
    crate::model::lemma_refusal_is_final(balances, from, to, ids, amounts, at + 1);
}

/// **A failed call changes nothing.** Whatever the command and whatever
/// the reason, a command that fails leaves every balance and every
/// approval as it was.
pub proof fn lemma_failure_changes_nothing(
    before: Ledger,
    after: Ledger,
    r: Result<Response, ContractError>,
    sender: Seq<char>,
    msg: ExecuteMsg,
)
    requires
        executed(before, after, r, sender, msg),
        r is Err,
    ensures
        untouched(before, after),
{
}

/// **A failed batch changes nothing.** A call that moves a batch and fails,
/// at whichever pair, leaves every balance and every approval as it was.
pub proof fn lemma_failed_batch_changes_nothing(
    before: Ledger,
    after: Ledger,
    r: Result<Response, ContractError>,
    method: Seq<char>,
    from: Seq<char>,
    to: Seq<char>,
    ids: Seq<u64>,
    amounts: Seq<u64>,
)
    requires
        moved(before, after, r, method, from, to, ids, amounts),
        r is Err,
    ensures
        untouched(before, after),
{
}

/// **Lists that do not pair up are turned away.** A call that moves a batch
/// whose lists differ in length fails with `InvalidIdAmountLength` and
/// changes nothing.
pub proof fn lemma_unequal_lists_are_refused(
    before: Ledger,
    after: Ledger,
    r: Result<Response, ContractError>,
    method: Seq<char>,
    from: Seq<char>,
    to: Seq<char>,
    ids: Seq<u64>,
    amounts: Seq<u64>,
)
    requires
        moved(before, after, r, method, from, to, ids, amounts),
        ids.len() != amounts.len(),
    ensures
        r matches Err(ContractError::InvalidIdAmountLength {  }),
        untouched(before, after),
{
}

/// **Lists that do not pair up are turned away, for every batch command.**
/// A batch transfer between real accounts, a batch mint to a real account
/// and a batch burn from a real account fail with `InvalidIdAmountLength`
/// where the lists differ in length, and change nothing.
pub proof fn lemma_unequal_lists_refuse_command(
    before: Ledger,
    after: Ledger,
    r: Result<Response, ContractError>,
    sender: Seq<char>,
    msg: ExecuteMsg,
)
    requires
        executed(before, after, r, sender, msg),
        match msg {
            ExecuteMsg::SafeBatchTransferFrom { from, to, ids, amounts } => !is_zero_account(from@)
                && !is_zero_account(to@) && ids.len() != amounts.len(),
            ExecuteMsg::MintBatch { to, ids, amounts } => is_real_account(before, to@) && ids.len()
                != amounts.len(),
            ExecuteMsg::BurnBatch { from, ids, amounts } => is_real_account(before, from@) && ids.len()
                != amounts.len(),
            _ => false,
        },
    ensures
        r matches Err(ContractError::InvalidIdAmountLength {  }),
        untouched(before, after),
{
}

/// **Lists that do not pair up are turned away, for the batch question.**
pub proof fn lemma_unequal_lists_refuse_question(
    balances: Map<(u64, Seq<char>), Option<u64>>,
    accounts: Seq<String>,
    ids: Seq<u64>,
    r: Result<BalanceOfBatchResponse, ContractError>,
)
    requires
        balances_told(balances, accounts, ids, r),
        accounts.len() != ids.len(),
    ensures
        r matches Err(ContractError::InvalidIdAmountLength {  }),
{
}

/// **A mint shows.** After a mint of one token that succeeded, the account
/// holds what it held before and the amount minted, and asking for its
/// balance says so.
pub proof fn lemma_mint_shows(
    before: Ledger,
    after: Ledger,
    r: Result<Response, ContractError>,
    method: Seq<char>,
    to: Seq<char>,
    id: u64,
    amount: u64,
    told: Result<BalanceOfResponse, ContractError>,
)
    requires
        minted(before, after, r, method, to, seq![id], seq![amount]),
        r is Ok,
        balance_told(stored_balances(after), to, id, told),
    ensures
        told matches Ok(response) && response.balanceOf == balance(stored_balances(before), id, to) + amount,
{
    lemma_batch_of_one(stored_balances(before), Seq::empty(), to, id, amount);
}

/// **A burn shows.** After a burn of one token that succeeded, the account
/// holds what it held before less the amount burned, and asking for its
/// balance says so.
pub proof fn lemma_burn_shows(
    before: Ledger,
    after: Ledger,
    r: Result<Response, ContractError>,
    method: Seq<char>,
    from: Seq<char>,
    id: u64,
    amount: u64,
    told: Result<BalanceOfResponse, ContractError>,
)
    requires
        burned(before, after, r, method, from, seq![id], seq![amount]),
        r is Ok,
        balance_told(stored_balances(after), from, id, told),
    ensures
        told matches Ok(response) && response.balanceOf == balance(stored_balances(before), id, from) - amount,
{
    lemma_batch_of_one(stored_balances(before), from, Seq::empty(), id, amount);
}

/// **A transfer shows.** After a transfer of one token between two
/// different accounts that succeeded, the sender holds the amount less and
/// the receiver the amount more.
pub proof fn lemma_transfer_shows(
    before: Ledger,
    after: Ledger,
    r: Result<Response, ContractError>,
    method: Seq<char>,
    from: Seq<char>,
    to: Seq<char>,
    id: u64,
    amount: u64,
)
    requires
        transferred(before, after, r, method, from, to, seq![id], seq![amount]),
        r is Ok,
        from != to,
    ensures
        balance(stored_balances(after), id, from) == balance(stored_balances(before), id, from) - amount,
        balance(stored_balances(after), id, to) == balance(stored_balances(before), id, to) + amount,
        !garbled(stored_balances(after), (id, from)),
        !garbled(stored_balances(after), (id, to)),
{
    lemma_batch_of_one(stored_balances(before), from, to, id, amount);
}

/// **A transfer to oneself changes no balance.**
pub proof fn lemma_transfer_to_self(
    before: Ledger,
    after: Ledger,
    r: Result<Response, ContractError>,
    method: Seq<char>,
    account: Seq<char>,
    id: u64,
    amount: u64,
)
    requires
        transferred(before, after, r, method, account, account, seq![id], seq![amount]),
        r is Ok,
    ensures
        balance(stored_balances(after), id, account) == balance(stored_balances(before), id, account),
{
    lemma_batch_of_one(stored_balances(before), account, account, id, amount);
}

/// **No account approves itself.** Setting an approval with the owner as
/// its own operator fails with `SelfApprovedError`, whatever the flag, and
/// changes nothing.
pub proof fn lemma_self_approval_is_refused(
    before: Ledger,
    after: Ledger,
    r: Result<Response, ContractError>,
    account: Seq<char>,
    approved: bool,
)
    requires
        approval_set(before, after, r, account, account, approved),
    ensures
        r matches Err(ContractError::SelfApprovedError {  }),
        untouched(before, after),
{
}

/// **Setting an approval twice is setting it once.** After the first call
/// the operator is approved or not as the flag says; the second call with
/// the same flag succeeds too and leaves the ledger as the first left it.
pub proof fn lemma_approval_is_idempotent(
    before: Ledger,
    once: Ledger,
    twice: Ledger,
    first: Result<Response, ContractError>,
    second: Result<Response, ContractError>,
    owner: Seq<char>,
    operator: Seq<char>,
    approved: bool,
)
    requires
        owner != operator,
        key_fits(owner),
        approval_set(before, once, first, owner, operator, approved),
        approval_set(once, twice, second, owner, operator, approved),
    ensures
        first is Ok,
        second is Ok,
        is_operator(stored_approvals(once), owner, operator) == approved,
        is_operator(stored_approvals(twice), owner, operator) == approved,
        untouched(once, twice),
{
    assert(stored_approvals(twice) =~= stored_approvals(once));
}

/// No owner is its own operator in any approval entry.
pub open spec fn no_self_grants(approvals: Map<(Seq<char>, Seq<char>), Option<bool>>) -> bool {
    forall|pair: (Seq<char>, Seq<char>)| #[trigger] approvals.contains_key(pair) ==> pair.0 != pair.1
}

/// **Owner and operator always differ.** Whatever the command and however
/// it ends, a ledger without an approval of an account for itself is such a
/// ledger afterwards.
pub proof fn lemma_no_self_grant_is_stored(
    before: Ledger,
    after: Ledger,
    r: Result<Response, ContractError>,
    sender: Seq<char>,
    msg: ExecuteMsg,
)
    requires
        executed(before, after, r, sender, msg),
        no_self_grants(stored_approvals(before)),
    ensures
        no_self_grants(stored_approvals(after)),
{
}

/// **An approval that was set is told.** After an approval was set, asking
/// for it gives the flag that was set.
pub proof fn lemma_approval_shows(
    before: Ledger,
    after: Ledger,
    r: Result<Response, ContractError>,
    owner: Seq<char>,
    operator: Seq<char>,
    approved: bool,
    told: Result<IsApprovedForAllResponse, ContractError>,
)
    requires
        approval_set(before, after, r, owner, operator, approved),
        r is Ok,
        approval_told(stored_approvals(after), owner, operator, told),
    ensures
        told matches Ok(response) && response.isApprovedForAll == approved,
{
}

/// **Not approved unless granted.** Where no approval was ever stored for
/// an account and an operator, asking for it succeeds and says no.
pub proof fn lemma_no_grant_is_no_approval(
    approvals: Map<(Seq<char>, Seq<char>), Option<bool>>,
    account: Seq<char>,
    operator: Seq<char>,
    told: Result<IsApprovedForAllResponse, ContractError>,
)
    requires
        !approvals.contains_key((account, operator)),
        approval_told(approvals, account, operator, told),
    ensures
        told matches Ok(response) && !response.isApprovedForAll,
{
}

/// The zero account has no balance entry.
pub open spec fn zero_account_holds_nothing(balances: Map<(u64, Seq<char>), Option<u64>>) -> bool {
    forall|key: (u64, Seq<char>)| is_zero_account(key.1) ==> !#[trigger] balances.contains_key(key)
}

/// Every entry of `before` is an entry of `after`.
pub open spec fn keeps_entries<K, V>(before: Map<K, V>, after: Map<K, V>) -> bool {
    forall|key: K| #[trigger] before.contains_key(key) ==> after.contains_key(key)
}

/// A batch gives the zero account no balance entry, and takes no entry
/// away.
pub proof fn lemma_batch_keeps_the_books(
    balances: Map<(u64, Seq<char>), Option<u64>>,
    from: Seq<char>,
    to: Seq<char>,
    ids: Seq<u64>,
    amounts: Seq<u64>,
)
    requires
        ids.len() == amounts.len(),
        batch_outcome(balances, from, to, ids, amounts) is Ok,
    ensures
        keeps_entries(balances, batch_outcome(balances, from, to, ids, amounts)->Ok_0),
        zero_account_holds_nothing(balances) ==> zero_account_holds_nothing(
            batch_outcome(balances, from, to, ids, amounts)->Ok_0,
        ),
    decreases ids.len(),
{
    if ids.len() > 0 {
        lemma_batch_keeps_the_books(balances, from, to, ids.drop_last(), amounts.drop_last());
    }
}

/// **The zero account never holds anything, and no entry is ever deleted.**
/// Whatever the command and however it ends, a ledger in which the zero
/// account has no balance entry is such a ledger afterwards, and every
/// balance entry and every approval entry that was there is still there.
pub proof fn lemma_command_keeps_the_books(
    before: Ledger,
    after: Ledger,
    r: Result<Response, ContractError>,
    sender: Seq<char>,
    msg: ExecuteMsg,
)
    requires
        executed(before, after, r, sender, msg),
    ensures
        keeps_entries(stored_balances(before), stored_balances(after)),
        keeps_entries(stored_approvals(before), stored_approvals(after)),
        zero_account_holds_nothing(stored_balances(before)) ==> zero_account_holds_nothing(stored_balances(after)),
{
    let balances = stored_balances(before);
    match msg {
        ExecuteMsg::SetApprovalForAll { .. } => {},
        ExecuteMsg::SafeTransferFrom { from, to, id, amount } => {
            if batch_outcome(balances, from@, to@, seq![id], seq![amount]) is Ok {
                lemma_batch_keeps_the_books(balances, from@, to@, seq![id], seq![amount]);
            }
        },
        ExecuteMsg::SafeBatchTransferFrom { from, to, ids, amounts } => {
            if ids.len() == amounts.len() && batch_outcome(balances, from@, to@, ids@, amounts@) is Ok {
                lemma_batch_keeps_the_books(balances, from@, to@, ids@, amounts@);
            }
        },
        ExecuteMsg::Mint { to, id, amount } => {
            if batch_outcome(balances, Seq::empty(), to@, seq![id], seq![amount]) is Ok {
                lemma_batch_keeps_the_books(balances, Seq::empty(), to@, seq![id], seq![amount]);
            }
        },
        ExecuteMsg::MintBatch { to, ids, amounts } => {
            if ids.len() == amounts.len() && batch_outcome(balances, Seq::empty(), to@, ids@, amounts@) is Ok {
                lemma_batch_keeps_the_books(balances, Seq::empty(), to@, ids@, amounts@);
            }
        },
        ExecuteMsg::Burn { from, id, amount } => {
            if batch_outcome(balances, from@, Seq::empty(), seq![id], seq![amount]) is Ok {
                lemma_batch_keeps_the_books(balances, from@, Seq::empty(), seq![id], seq![amount]);
            }
        },
        ExecuteMsg::BurnBatch { from, ids, amounts } => {
            if ids.len() == amounts.len() && batch_outcome(balances, from@, Seq::empty(), ids@, amounts@) is Ok {
                lemma_batch_keeps_the_books(balances, from@, Seq::empty(), ids@, amounts@);
            }
        },
    }
}

} // verus!
