//! The ledger store: the two collections that the host keeps for the
//! ledger, the handles through which one call reaches them, and the balance
//! operations that work on them.
//!
//! Balances live under the namespace `balance`, keyed by token id and owner;
//! operator approvals live under `allowance`, keyed by owner and operator.
//! Verus does not look inside the host's storage. What it holds is named by
//! the specification functions below, and the few functions that touch it
//! are believed, not proved: each says in its comment what it rests on.
//! All of them rest on a storage that gives back under each key the bytes
//! that were last set under it, as the trait `cosmwasm_std::Storage` asks
//! of every host, and on an address validator that gives the same answer for
//! the same address, as the trait `cosmwasm_std::Api` asks.
//!
//! A change to the balances is never written as it is computed. It is
//! staged as a list of writes, read back through [`get_balance`], and
//! written by [`commit`] only when the whole change has been accepted, so a
//! refused change leaves the store as it was.

use crate::error::ContractError;
use crate::model::{balance, credit_outcome, debit_outcome, entry, garbled};
use cosmwasm_std::{Addr, Deps, DepsMut, StdError};
use cw_storage_plus::Map as StoreMap;
use vstd::prelude::*;
use vstd::utf8::encode_utf8;

verus! {

/// The storage and the address validator of the host, borrowed exclusively
/// for the length of one call that may write. It is made by wrapping the
/// `DepsMut` that the host hands to the call, and is opaque to Verus: what
/// it holds is what [`stored_balances`], [`stored_approvals`] and
/// [`accepted_addresses`] say of it.
#[verifier::external_body]
pub struct Ledger<'a> {
    pub deps: DepsMut<'a>,
}

/// The storage of the host, borrowed for the length of one call that only
/// reads. It is made by wrapping the `Deps` that the host hands to the call,
/// and is opaque to Verus: what it shows is what [`viewed_balances`] and
/// [`viewed_approvals`] say of it.
#[verifier::external_body]
pub struct LedgerView<'a> {
    pub deps: Deps<'a>,
}

/// The balance entries that the storage behind `ledger` holds: for each
/// token id and owner with an entry, the amount, or `None` where the bytes
/// stored there are not an amount.
pub uninterp spec fn stored_balances(ledger: Ledger) -> Map<(u64, Seq<char>), Option<u64>>;

/// The approval entries that the storage behind `ledger` holds: for each
/// owner and operator with an entry, the flag, or `None` where the bytes
/// stored there are not a flag.
pub uninterp spec fn stored_approvals(ledger: Ledger) -> Map<(Seq<char>, Seq<char>), Option<bool>>;

/// The addresses that the host behind `ledger` accepts as well formed.
pub uninterp spec fn accepted_addresses(ledger: Ledger) -> Set<Seq<char>>;

/// The balance entries that `view` shows.
pub uninterp spec fn viewed_balances(view: LedgerView) -> Map<(u64, Seq<char>), Option<u64>>;

/// The approval entries that `view` shows.
pub uninterp spec fn viewed_approvals(view: LedgerView) -> Map<(Seq<char>, Seq<char>), Option<bool>>;

/// The longest first part of a key, in bytes, that the store can encode.
pub const MAX_KEY_PART: usize = 0xFFFF;

/// The store can hold approvals that `owner` grants: its address, in
/// bytes, is short enough to be the first part of a key.
pub open spec fn key_fits(owner: Seq<char>) -> bool {
    encode_utf8(owner).len() <= MAX_KEY_PART
}

/// Whether the store can hold approvals that `owner` grants.
pub fn fits_key(owner: &str) -> (fits: bool)
    ensures
        fits == key_fits(owner@),
{
    owner.as_bytes().len() <= MAX_KEY_PART
}

/// A read-only handle on the storage of `ledger`, made with
/// `DepsMut::as_ref`, which hands on the same storage. It shows what the
/// ledger holds at the moment of the call, which is finitely many entries,
/// as in every storage.
#[verifier::external_body]
pub(crate) fn borrow_view<'a>(ledger: &'a Ledger) -> (view: LedgerView<'a>)
    ensures
        viewed_balances(view) == stored_balances(*ledger),
        viewed_approvals(view) == stored_approvals(*ledger),
        viewed_balances(view).dom().finite(),
        viewed_approvals(view).dom().finite(),
{
    LedgerView { deps: ledger.deps.as_ref() }
}

impl<'a> Ledger<'a> {
    /// The ledger as it stands, for reading: the view shows the balances
    /// and the approvals that the ledger holds now, finitely many of each.
    pub fn as_view(&self) -> (view: LedgerView<'_>)
        ensures
            viewed_balances(view) == stored_balances(*self),
            viewed_approvals(view) == stored_approvals(*self),
            stored_balances(*self).dom().finite(),
            stored_approvals(*self).dom().finite(),
    {
        borrow_view(self)
    }
}

/// Reads one balance entry with `Map::may_load`, which gets the bytes under
/// the key and parses them: `Ok(None)` where the storage has nothing under
/// the key, `Ok(Some(amount))` where the bytes parse, and an error exactly
/// where they do not.
#[verifier::external_body]
pub(crate) fn load_balance(view: &LedgerView, id: u64, owner: &str) -> (loaded: Result<Option<u64>, StdError>)
    ensures
        loaded.is_err() == garbled(viewed_balances(*view), (id, owner@)),
        loaded matches Ok(found) ==> found == entry(viewed_balances(*view), (id, owner@)),
{
    StoreMap::<(&str, &str), u64>::new("balance").may_load(view.deps.storage, (&id.to_string(), owner))
}

/// Writes one balance entry with `Map::save`, which serialises the amount
/// and sets the bytes under the key. Serialising an integer cannot fail, so
/// the entry is always written. The key is the namespace, the id in decimal
/// and the owner, each but the last with its length in front: no other
/// balance entry and no approval entry has the same key, and the address
/// validator is not involved.
#[verifier::external_body]
pub(crate) fn save_balance(ledger: &mut Ledger, id: u64, owner: &str, amount: u64)
    ensures
        stored_balances(*final(ledger)) == stored_balances(*old(ledger)).insert((id, owner@), Some(amount)),
        stored_approvals(*final(ledger)) == stored_approvals(*old(ledger)),
        accepted_addresses(*final(ledger)) == accepted_addresses(*old(ledger)),
{
    let _ = StoreMap::<(&str, &str), u64>::new("balance").save(ledger.deps.storage, (&id.to_string(), owner), &amount);
}

/// Reads one approval entry with `Map::may_load`: `Ok(None)` where the
/// storage has nothing under the key, `Ok(Some(flag))` where the bytes
/// parse, and an error exactly where they do not. The owner is the first
/// part of the key and goes with its length in front, in two bytes: the
/// store panics on a longer one.
#[verifier::external_body]
pub(crate) fn load_approval(view: &LedgerView, owner: &str, operator: &str) -> (loaded: Result<
    Option<bool>,
    StdError,
>)
    requires
        key_fits(owner@),
    ensures
        loaded.is_err() == garbled(viewed_approvals(*view), (owner@, operator@)),
        loaded matches Ok(found) ==> found == entry(viewed_approvals(*view), (owner@, operator@)),
{
    StoreMap::<(&Addr, &Addr), bool>::new("allowance").may_load(
        view.deps.storage,
        (&Addr::unchecked(owner), &Addr::unchecked(operator)),
    )
}

/// Writes one approval entry with `Map::save`, over whatever was there.
/// Serialising a flag cannot fail, so the entry is always written. No other
/// approval entry and no balance entry has the same key, and the address
/// validator is not involved. The store panics on an owner of more than
/// `MAX_KEY_PART` bytes.
#[verifier::external_body]
pub(crate) fn save_approval(ledger: &mut Ledger, owner: &str, operator: &str, approved: bool)
    requires
        key_fits(owner@),
    ensures
        stored_approvals(*final(ledger)) == stored_approvals(*old(ledger)).insert(
            (owner@, operator@),
            Some(approved),
        ),
        stored_balances(*final(ledger)) == stored_balances(*old(ledger)),
        accepted_addresses(*final(ledger)) == accepted_addresses(*old(ledger)),
{
    let _ = StoreMap::<(&Addr, &Addr), bool>::new("allowance").save(
        ledger.deps.storage,
        (&Addr::unchecked(owner), &Addr::unchecked(operator)),
        &approved,
    );
}

/// Asks the host's `Api::addr_validate` whether `human` is a well-formed
/// address. The host answers the same for the same address every time.
#[verifier::external_body]
pub(crate) fn address_accepted(ledger: &Ledger, human: &str) -> (accepted: bool)
    ensures
        accepted == accepted_addresses(*ledger).contains(human@),
{
    ledger.deps.api.addr_validate(human).is_ok()
}

/// One balance entry that is to be written: `owner` will hold `amount` of
/// token `id`.
#[derive(Debug)]
pub struct BalanceWrite {
    pub id: u64,
    pub owner: String,
    pub amount: u64,
}

/// The balances as they will stand once `writes` have been written over
/// `base`, first to last.
pub open spec fn overlay(base: Map<(u64, Seq<char>), Option<u64>>, writes: Seq<BalanceWrite>) -> Map<
    (u64, Seq<char>),
    Option<u64>,
>
    decreases writes.len(),
{
    if writes.len() == 0 {
        base
    } else {
        overlay(base, writes.drop_last()).insert((writes.last().id, writes.last().owner@), Some(writes.last().amount))
    }
}

/// The amount that the last of `writes` for `owner` and `id` gives, if any
/// of them is for that entry.
pub open spec fn pending(writes: Seq<BalanceWrite>, id: u64, owner: Seq<char>) -> Option<u64>
    decreases writes.len(),
{
    if writes.len() == 0 {
        None
    } else if writes.last().id == id && writes.last().owner@ == owner {
        Some(writes.last().amount)
    } else {
        pending(writes.drop_last(), id, owner)
    }
}

/// Under the staged writes an entry holds what the last write for it gives;
/// an entry that no write is for is as it is in the store.
pub proof fn lemma_overlay_entry(
    base: Map<(u64, Seq<char>), Option<u64>>,
    writes: Seq<BalanceWrite>,
    id: u64,
    owner: Seq<char>,
)
    ensures
        pending(writes, id, owner) is Some ==> overlay(base, writes).contains_key((id, owner)) && overlay(
            base,
            writes,
        )[(id, owner)] == pending(writes, id, owner),
        pending(writes, id, owner) is None ==> (overlay(base, writes).contains_key((id, owner))
            <==> base.contains_key((id, owner))),
        pending(writes, id, owner) is None && base.contains_key((id, owner)) ==> overlay(base, writes)[(
            id,
            owner,
        )] == base[(id, owner)],
    decreases writes.len(),
{
    if writes.len() > 0 {
        lemma_overlay_entry(base, writes.drop_last(), id, owner);
    }
}

/// The amount that the last staged write for `owner` and `id` gives, if any
/// write is staged for that entry.
pub fn staged_amount(staged: &Vec<BalanceWrite>, id: u64, owner: &String) -> (found: Option<u64>)
    ensures
        found == pending(staged@, id, owner@),
{
    let mut at: usize = staged.len();
    assert(staged@.take(at as int) =~= staged@);
    while at > 0
        invariant
            at <= staged.len(),
            pending(staged@, id, owner@) == pending(staged@.take(at as int), id, owner@),
        decreases at,
    {
        at = at - 1;
        assert(staged@.take(at + 1).drop_last() =~= staged@.take(at as int));
        if staged[at].id == id && staged[at].owner == *owner {
            return Some(staged[at].amount);
        }
    }
    None
}

/// The balance of `owner` in token `id` as the staged writes leave it: what
/// the last write for it gives, else what the store holds, else zero. It
/// fails only where the store has to be read and the entry is garbled.
pub fn get_balance(view: &LedgerView, staged: &Vec<BalanceWrite>, id: u64, owner: &String) -> (r: Result<
    u64,
    ContractError,
>)
    ensures
        match r {
            Ok(amount) => !garbled(overlay(viewed_balances(*view), staged@), (id, owner@)) && amount == balance(
                overlay(viewed_balances(*view), staged@),
                id,
                owner@,
            ),
            Err(e) => garbled(overlay(viewed_balances(*view), staged@), (id, owner@)) && e is Std,
        },
{
    proof {
        lemma_overlay_entry(viewed_balances(*view), staged@, id, owner@);
    }
    match staged_amount(staged, id, owner) {
        Some(amount) => Ok(amount),
        None => match load_balance(view, id, owner.as_str()) {
            Ok(Some(amount)) => Ok(amount),
            Ok(None) => Ok(0),
            Err(e) => Err(ContractError::Std(e)),
        },
    }
}

/// Stages the taking of `amount` of token `id` from `owner`. Where the
/// account holds less, or its balance cannot be read, nothing is staged.
pub fn debit(view: &LedgerView, staged: &mut Vec<BalanceWrite>, id: u64, owner: &String, amount: u64) -> (r: Result<
    (),
    ContractError,
>)
    ensures
        match debit_outcome(overlay(viewed_balances(*view), old(staged)@), id, owner@, amount) {
            Ok(after) => r is Ok && overlay(viewed_balances(*view), final(staged)@) == after,
            Err(why) => r matches Err(e) && e.reports(why) && final(staged)@ == old(staged)@,
        },
{
    let held = match get_balance(view, staged, id, owner) {
        Ok(held) => held,
        Err(e) => {
            return Err(e);
        },
    };
    if held < amount {
        return Err(ContractError::InsufficientBalance {  });
    }
    staged.push(BalanceWrite { id, owner: owner.clone(), amount: held - amount });
    assert(staged@.drop_last() =~= old(staged)@);
    Ok(())
}

/// Stages the giving of `amount` of token `id` to `owner`. Where the
/// balance would pass the largest amount, or cannot be read, nothing is
/// staged.
pub fn credit(view: &LedgerView, staged: &mut Vec<BalanceWrite>, id: u64, owner: &String, amount: u64) -> (r: Result<
    (),
    ContractError,
>)
    ensures
        match credit_outcome(overlay(viewed_balances(*view), old(staged)@), id, owner@, amount) {
            Ok(after) => r is Ok && overlay(viewed_balances(*view), final(staged)@) == after,
            Err(why) => r matches Err(e) && e.reports(why) && final(staged)@ == old(staged)@,
        },
{
    let held = match get_balance(view, staged, id, owner) {
        Ok(held) => held,
        Err(e) => {
            return Err(e);
        },
    };
    if amount > u64::MAX - held {
        return Err(ContractError::Overflow {  });
    }
    staged.push(BalanceWrite { id, owner: owner.clone(), amount: held + amount });
    assert(staged@.drop_last() =~= old(staged)@);
    Ok(())
}

/// Writes the staged balances to the store, first to last. Approvals are
/// not touched.
pub fn commit(ledger: &mut Ledger, staged: &Vec<BalanceWrite>)
    ensures
        stored_balances(*final(ledger)) == overlay(stored_balances(*old(ledger)), staged@),
        stored_approvals(*final(ledger)) == stored_approvals(*old(ledger)),
        accepted_addresses(*final(ledger)) == accepted_addresses(*old(ledger)),
{
    let mut at: usize = 0;
    while at < staged.len()
        invariant
            at <= staged.len(),
            stored_balances(*ledger) == overlay(stored_balances(*old(ledger)), staged@.take(at as int)),
            stored_approvals(*ledger) == stored_approvals(*old(ledger)),
            accepted_addresses(*ledger) == accepted_addresses(*old(ledger)),
        decreases staged.len() - at,
    {
        save_balance(ledger, staged[at].id, staged[at].owner.as_str(), staged[at].amount);
        assert(staged@.take(at + 1).drop_last() =~= staged@.take(at as int));
        at = at + 1;
    }
    assert(staged@.take(at as int) =~= staged@);
}

} // verus!
