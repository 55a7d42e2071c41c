//! The ledger as mathematics: what a balance is, what one debit, one credit,
//! one pair and one batch do to the balances, and what a list of staged
//! writes amounts to. Everything here is specification; the executable
//! store and the transfer engine are proved against it.

use vstd::prelude::*;

verus! {

/// An entry is garbled when something is stored under the key but it does
/// not decode to a value.
pub open spec fn garbled<K, V>(entries: Map<K, Option<V>>, key: K) -> bool {
    entries.contains_key(key) && entries[key] is None
}

/// The value stored under a key: `None` when nothing is stored there, and
/// also when what is stored there is garbled.
pub open spec fn entry<K, V>(entries: Map<K, Option<V>>, key: K) -> Option<V> {
    if entries.contains_key(key) {
        entries[key]
    } else {
        None
    }
}

/// The account that stands for "no account": the source of a mint and the
/// destination of a burn. It is written as the empty address.
pub open spec fn is_zero_account(account: Seq<char>) -> bool {
    account.len() == 0
}

/// The balance of `owner` in token `id`: the stored amount, zero where
/// nothing is stored.
pub open spec fn balance(balances: Map<(u64, Seq<char>), Option<u64>>, id: u64, owner: Seq<char>) -> u64 {
    match entry(balances, (id, owner)) {
        Some(amount) => amount,
        None => 0,
    }
}

/// Why a change to the balances is refused.
pub enum Refusal {
    /// A balance that the change depends on is garbled in the store.
    Unreadable,
    /// A debit asks for more than the account holds.
    InsufficientBalance,
    /// A credit would push a balance past the largest amount.
    Overflow,
}

/// Taking `amount` of token `id` from `owner`.
pub open spec fn debit_outcome(
    balances: Map<(u64, Seq<char>), Option<u64>>,
    id: u64,
    owner: Seq<char>,
    amount: u64,
) -> Result<Map<(u64, Seq<char>), Option<u64>>, Refusal> {
    if garbled(balances, (id, owner)) {
        Err(Refusal::Unreadable)
    } else if balance(balances, id, owner) < amount {
        Err(Refusal::InsufficientBalance)
    } else {
        Ok(balances.insert((id, owner), Some((balance(balances, id, owner) - amount) as u64)))
    }
}

/// Giving `amount` of token `id` to `owner`.
pub open spec fn credit_outcome(
    balances: Map<(u64, Seq<char>), Option<u64>>,
    id: u64,
    owner: Seq<char>,
    amount: u64,
) -> Result<Map<(u64, Seq<char>), Option<u64>>, Refusal> {
    if garbled(balances, (id, owner)) {
        Err(Refusal::Unreadable)
    } else if balance(balances, id, owner) + amount > u64::MAX {
        Err(Refusal::Overflow)
    } else {
        Ok(balances.insert((id, owner), Some((balance(balances, id, owner) + amount) as u64)))
    }
}

/// Moving `amount` of token `id` from `from` to `to`: the debit first, then
/// the credit. The zero account is neither debited nor credited.
pub open spec fn pair_outcome(
    balances: Map<(u64, Seq<char>), Option<u64>>,
    from: Seq<char>,
    to: Seq<char>,
    id: u64,
    amount: u64,
) -> Result<Map<(u64, Seq<char>), Option<u64>>, Refusal> {
    let debited = if is_zero_account(from) {
        Ok(balances)
    } else {
        debit_outcome(balances, id, from, amount)
    };
    match debited {
        Err(why) => Err(why),
        Ok(rest) => if is_zero_account(to) {
            Ok(rest)
        } else {
            credit_outcome(rest, id, to, amount)
        },
    }
}

/// Moving a whole batch, pair by pair in list order. The first pair that is
/// refused refuses the batch.
pub open spec fn batch_outcome(
    balances: Map<(u64, Seq<char>), Option<u64>>,
    from: Seq<char>,
    to: Seq<char>,
    ids: Seq<u64>,
    amounts: Seq<u64>,
) -> Result<Map<(u64, Seq<char>), Option<u64>>, Refusal>
    recommends
        ids.len() == amounts.len(),
    decreases ids.len(),
{
    if ids.len() == 0 {
        Ok(balances)
    } else {
        match batch_outcome(balances, from, to, ids.drop_last(), amounts.drop_last()) {
            Err(why) => Err(why),
            Ok(rest) => pair_outcome(rest, from, to, ids.last(), amounts.last()),
        }
    }
}

/// A batch that is refused after some of its pairs stays refused, for the
/// same reason, however many pairs follow.
pub proof fn lemma_refusal_is_final(
    balances: Map<(u64, Seq<char>), Option<u64>>,
    from: Seq<char>,
    to: Seq<char>,
    ids: Seq<u64>,
    amounts: Seq<u64>,
    done: int,
)
    requires
        ids.len() == amounts.len(),
        0 <= done <= ids.len(),
        batch_outcome(balances, from, to, ids.take(done), amounts.take(done)) is Err,
    ensures
        batch_outcome(balances, from, to, ids, amounts) == batch_outcome(
            balances,
            from,
            to,
            ids.take(done),
            amounts.take(done),
        ),
    decreases ids.len() - done,
{
    if done == ids.len() {
        assert(ids.take(done) =~= ids);
        assert(amounts.take(done) =~= amounts);
    } else {
        assert(ids.take(done + 1).drop_last() =~= ids.take(done));
        assert(amounts.take(done + 1).drop_last() =~= amounts.take(done));
        lemma_refusal_is_final(balances, from, to, ids, amounts, done + 1);
    }
}

/// The first `done + 1` pairs are the first `done` pairs and then pair
/// number `done`.
pub proof fn lemma_batch_step(
    balances: Map<(u64, Seq<char>), Option<u64>>,
    from: Seq<char>,
    to: Seq<char>,
    ids: Seq<u64>,
    amounts: Seq<u64>,
    done: int,
)
    requires
        ids.len() == amounts.len(),
        0 <= done < ids.len(),
    ensures
        batch_outcome(balances, from, to, ids.take(done + 1), amounts.take(done + 1)) == (match batch_outcome(
            balances,
            from,
            to,
            ids.take(done),
            amounts.take(done),
        ) {
            Err(why) => Err(why),
            Ok(rest) => pair_outcome(rest, from, to, ids[done], amounts[done]),
        }),
{
    assert(ids.take(done + 1).drop_last() =~= ids.take(done));
    assert(amounts.take(done + 1).drop_last() =~= amounts.take(done));
}

} // verus!
