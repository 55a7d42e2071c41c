//! Conservation. The supply of a token is what all real accounts together
//! hold of it. A transfer leaves it as it is, a mint raises it by what is
//! minted, a burn lowers it by what is burned, and a call that fails does
//! not change it: whatever calls a ledger has seen, the supply of a token
//! is what it was at first, plus all that was minted, minus all that was
//! burned.

use crate::contract::execute::{is_real_account, moved};
use crate::contract::executed;
use crate::error::ContractError;
use crate::model::{balance, batch_outcome, credit_outcome, debit_outcome, is_zero_account, pair_outcome};
use crate::msg::ExecuteMsg;
use crate::state::{stored_balances, Ledger};
use cosmwasm_std::Response;
use vstd::prelude::*;

verus! {

/// The entries of real accounts for token `id`.
pub open spec fn holdings(balances: Map<(u64, Seq<char>), Option<u64>>, id: u64) -> Set<(u64, Seq<char>)> {
    balances.dom().filter(|key: (u64, Seq<char>)| key.0 == id && !is_zero_account(key.1))
}

/// The sum of the balances under `keys`.
pub open spec fn sum_over(balances: Map<(u64, Seq<char>), Option<u64>>, keys: Set<(u64, Seq<char>)>) -> int
    decreases keys.len(),
    when keys.finite()
{
    if keys.len() == 0 {
        0
    } else {
        let key = keys.choose();
        balance(balances, key.0, key.1) + sum_over(balances, keys.remove(key))
    }
}

/// What all real accounts together hold of token `id`.
pub open spec fn supply(balances: Map<(u64, Seq<char>), Option<u64>>, id: u64) -> int {
    sum_over(balances, holdings(balances, id))
}

/// The sum of `amounts[i]` over the pairs with `ids[i] == id`.
pub open spec fn amount_of(ids: Seq<u64>, amounts: Seq<u64>, id: u64) -> int
    recommends
        ids.len() == amounts.len(),
    decreases ids.len(),
{
    if ids.len() == 0 {
        0
    } else {
        amount_of(ids.drop_last(), amounts.drop_last(), id) + if ids.last() == id {
            amounts.last() as int
        } else {
            0
        }
    }
}

/// What a batch from `from` creates of token `id`: its amounts of that
/// token where `from` is the zero account, nothing else.
pub open spec fn minted_by(from: Seq<char>, ids: Seq<u64>, amounts: Seq<u64>, id: u64) -> int {
    if is_zero_account(from) {
        amount_of(ids, amounts, id)
    } else {
        0
    }
}

/// What a batch to `to` destroys of token `id`: its amounts of that token
/// where `to` is the zero account, nothing else.
pub open spec fn burned_by(to: Seq<char>, ids: Seq<u64>, amounts: Seq<u64>, id: u64) -> int {
    if is_zero_account(to) {
        amount_of(ids, amounts, id)
    } else {
        0
    }
}

/// One call that moves a batch.
pub struct Transfer {
    pub from: Seq<char>,
    pub to: Seq<char>,
    pub ids: Seq<u64>,
    pub amounts: Seq<u64>,
}

/// The call is accepted on these balances: its lists pair up and no pair is
/// refused.
pub open spec fn accepted(balances: Map<(u64, Seq<char>), Option<u64>>, call: Transfer) -> bool {
    call.ids.len() == call.amounts.len() && batch_outcome(balances, call.from, call.to, call.ids, call.amounts)
        is Ok
}

/// The balances after one call: what the batch leaves where the call is
/// accepted, and what they were where it is not.
pub open spec fn after_call(balances: Map<(u64, Seq<char>), Option<u64>>, call: Transfer) -> Map<
    (u64, Seq<char>),
    Option<u64>,
> {
    if accepted(balances, call) {
        batch_outcome(balances, call.from, call.to, call.ids, call.amounts)->Ok_0
    } else {
        balances
    }
}

/// The balances after the calls, one after the other.
pub open spec fn after_calls(balances: Map<(u64, Seq<char>), Option<u64>>, calls: Seq<Transfer>) -> Map<
    (u64, Seq<char>),
    Option<u64>,
>
    decreases calls.len(),
{
    if calls.len() == 0 {
        balances
    } else {
        after_call(after_calls(balances, calls.drop_last()), calls.last())
    }
}

/// All that the accepted ones among the calls have minted of token `id`.
pub open spec fn total_minted(balances: Map<(u64, Seq<char>), Option<u64>>, calls: Seq<Transfer>, id: u64) -> int
    decreases calls.len(),
{
    if calls.len() == 0 {
        0
    } else {
        let call = calls.last();
        total_minted(balances, calls.drop_last(), id) + if accepted(after_calls(balances, calls.drop_last()), call) {
            minted_by(call.from, call.ids, call.amounts, id)
        } else {
            0
        }
    }
}

/// All that the accepted ones among the calls have burned of token `id`.
pub open spec fn total_burned(balances: Map<(u64, Seq<char>), Option<u64>>, calls: Seq<Transfer>, id: u64) -> int
    decreases calls.len(),
{
    if calls.len() == 0 {
        0
    } else {
        let call = calls.last();
        total_burned(balances, calls.drop_last(), id) + if accepted(after_calls(balances, calls.drop_last()), call) {
            burned_by(call.to, call.ids, call.amounts, id)
        } else {
            0
        }
    }
}

/// A sum over a set is the balance under any one of its keys plus the sum
/// over the rest.
pub proof fn lemma_sum_split(
    balances: Map<(u64, Seq<char>), Option<u64>>,
    keys: Set<(u64, Seq<char>)>,
    key: (u64, Seq<char>),
)
    requires
        keys.finite(),
        keys.contains(key),
    ensures
        sum_over(balances, keys) == balance(balances, key.0, key.1) + sum_over(balances, keys.remove(key)),
    decreases keys.len(),
{
    let chosen = keys.choose();
    if chosen != key {
        lemma_sum_split(balances, keys.remove(chosen), key);
        lemma_sum_split(balances, keys.remove(key), chosen);
        assert(keys.remove(chosen).remove(key) =~= keys.remove(key).remove(chosen));
    }
}

/// Two ledgers that agree on the balance under every key of a set have the
/// same sum over it.
pub proof fn lemma_sum_agrees(
    one: Map<(u64, Seq<char>), Option<u64>>,
    other: Map<(u64, Seq<char>), Option<u64>>,
    keys: Set<(u64, Seq<char>)>,
)
    requires
        keys.finite(),
        forall|key: (u64, Seq<char>)| #[trigger]
            keys.contains(key) ==> balance(one, key.0, key.1) == balance(other, key.0, key.1),
    ensures
        sum_over(one, keys) == sum_over(other, keys),
    decreases keys.len(),
{
    if keys.len() != 0 {
        lemma_sum_agrees(one, other, keys.remove(keys.choose()));
    }
}

/// Writing one balance changes the supply of its token by the difference
/// between the new and the old balance, where the owner is a real account,
/// and no other supply.
pub proof fn lemma_supply_after_write(
    balances: Map<(u64, Seq<char>), Option<u64>>,
    id: u64,
    owner: Seq<char>,
    amount: u64,
    token: u64,
)
    requires
        balances.dom().finite(),
    ensures
        balances.insert((id, owner), Some(amount)).dom().finite(),
        supply(balances.insert((id, owner), Some(amount)), token) == supply(balances, token) + if token == id
            && !is_zero_account(owner) {
            amount - balance(balances, id, owner)
        } else {
            0
        },
{
    let written = balances.insert((id, owner), Some(amount));
    let key = (id, owner);
    let counts = |key: (u64, Seq<char>)| key.0 == token && !is_zero_account(key.1);
    let before = holdings(balances, token);
    let after = holdings(written, token);
    balances.dom().lemma_len_filter(counts);
    written.dom().lemma_len_filter(counts);
    if token == id && !is_zero_account(owner) {
        assert(after.remove(key) =~= before.remove(key));
        lemma_sum_split(written, after, key);
        lemma_sum_agrees(written, balances, after.remove(key));
        if before.contains(key) {
            lemma_sum_split(balances, before, key);
        } else {
            assert(before.remove(key) =~= before);
        }
    } else {
        assert(after =~= before);
        lemma_sum_agrees(written, balances, before);
    }
}

/// A debit lowers the supply of its token by its amount, and changes no
/// other supply.
pub proof fn lemma_supply_after_debit(
    balances: Map<(u64, Seq<char>), Option<u64>>,
    id: u64,
    owner: Seq<char>,
    amount: u64,
    token: u64,
)
    requires
        balances.dom().finite(),
        !is_zero_account(owner),
        debit_outcome(balances, id, owner, amount) is Ok,
    ensures
        debit_outcome(balances, id, owner, amount)->Ok_0.dom().finite(),
        supply(debit_outcome(balances, id, owner, amount)->Ok_0, token) == supply(balances, token) - if token == id {
            amount as int
        } else {
            0
        },
{
    lemma_supply_after_write(balances, id, owner, (balance(balances, id, owner) - amount) as u64, token);
}

/// A credit raises the supply of its token by its amount, and changes no
/// other supply.
pub proof fn lemma_supply_after_credit(
    balances: Map<(u64, Seq<char>), Option<u64>>,
    id: u64,
    owner: Seq<char>,
    amount: u64,
    token: u64,
)
    requires
        balances.dom().finite(),
        !is_zero_account(owner),
        credit_outcome(balances, id, owner, amount) is Ok,
    ensures
        credit_outcome(balances, id, owner, amount)->Ok_0.dom().finite(),
        supply(credit_outcome(balances, id, owner, amount)->Ok_0, token) == supply(balances, token) + if token == id {
            amount as int
        } else {
            0
        },
{
    lemma_supply_after_write(balances, id, owner, (balance(balances, id, owner) + amount) as u64, token);
}

/// Moving one pair changes the supply of its token by what it mints less
/// what it burns: nothing where both accounts are real.
pub proof fn lemma_supply_after_pair(
    balances: Map<(u64, Seq<char>), Option<u64>>,
    from: Seq<char>,
    to: Seq<char>,
    id: u64,
    amount: u64,
    token: u64,
)
    requires
        balances.dom().finite(),
        pair_outcome(balances, from, to, id, amount) is Ok,
    ensures
        pair_outcome(balances, from, to, id, amount)->Ok_0.dom().finite(),
        supply(pair_outcome(balances, from, to, id, amount)->Ok_0, token) == supply(balances, token) + minted_by(
            from,
            seq![id],
            seq![amount],
            token,
        ) - burned_by(to, seq![id], seq![amount], token),
{
    assert(seq![id].drop_last() =~= Seq::<u64>::empty());
    assert(seq![amount].drop_last() =~= Seq::<u64>::empty());
    assert(amount_of(seq![id], seq![amount], token) == if id == token {
        amount as int
    } else {
        0
    }) by {
        assert(amount_of(Seq::<u64>::empty(), Seq::<u64>::empty(), token) == 0);
    }
    let debited = if is_zero_account(from) {
        balances
    } else {
        debit_outcome(balances, id, from, amount)->Ok_0
    };
    if !is_zero_account(from) {
        lemma_supply_after_debit(balances, id, from, amount, token);
    }
    if !is_zero_account(to) {
        lemma_supply_after_credit(debited, id, to, amount, token);
    }
}

/// **Conservation, one batch.** A batch that is accepted changes the supply
/// of every token by what it mints of the token less what it burns of it.
pub proof fn lemma_batch_conserves(
    balances: Map<(u64, Seq<char>), Option<u64>>,
    from: Seq<char>,
    to: Seq<char>,
    ids: Seq<u64>,
    amounts: Seq<u64>,
    token: u64,
)
    requires
        balances.dom().finite(),
        ids.len() == amounts.len(),
        batch_outcome(balances, from, to, ids, amounts) is Ok,
    ensures
        batch_outcome(balances, from, to, ids, amounts)->Ok_0.dom().finite(),
        supply(batch_outcome(balances, from, to, ids, amounts)->Ok_0, token) == supply(balances, token) + minted_by(
            from,
            ids,
            amounts,
            token,
        ) - burned_by(to, ids, amounts, token),
    decreases ids.len(),
{
    if ids.len() > 0 {
        let rest = batch_outcome(balances, from, to, ids.drop_last(), amounts.drop_last())->Ok_0;
        lemma_batch_conserves(balances, from, to, ids.drop_last(), amounts.drop_last(), token);
        lemma_supply_after_pair(rest, from, to, ids.last(), amounts.last(), token);
        assert(seq![ids.last()].drop_last() =~= Seq::<u64>::empty());
        assert(seq![amounts.last()].drop_last() =~= Seq::<u64>::empty());
        assert(amount_of(Seq::<u64>::empty(), Seq::<u64>::empty(), token) == 0);
    }
}

/// **Conservation.** Whatever calls a ledger has seen, accepted or not, the
/// supply of every token is what it was before them, plus all that was
/// minted of it, minus all that was burned of it.
pub proof fn lemma_calls_conserve(balances: Map<(u64, Seq<char>), Option<u64>>, calls: Seq<Transfer>, token: u64)
    requires
        balances.dom().finite(),
    ensures
        after_calls(balances, calls).dom().finite(),
        supply(after_calls(balances, calls), token) == supply(balances, token) + total_minted(
            balances,
            calls,
            token,
        ) - total_burned(balances, calls, token),
    decreases calls.len(),
{
    if calls.len() > 0 {
        let call = calls.last();
        lemma_calls_conserve(balances, calls.drop_last(), token);
        if accepted(after_calls(balances, calls.drop_last()), call) {
            lemma_batch_conserves(
                after_calls(balances, calls.drop_last()),
                call.from,
                call.to,
                call.ids,
                call.amounts,
                token,
            );
        }
    }
}

/// A ledger that holds nothing has no supply of any token.
pub proof fn lemma_empty_supply(token: u64)
    ensures
        supply(Map::<(u64, Seq<char>), Option<u64>>::empty(), token) == 0,
{
}

/// Every call that moves a batch takes the balances of the ledger from
/// what they were to what they are after that call, whether it succeeds
/// or fails.
pub proof fn lemma_moved_is_a_call(
    before: Ledger,
    after: Ledger,
    r: Result<Response, ContractError>,
    method: Seq<char>,
    call: Transfer,
)
    requires
        moved(before, after, r, method, call.from, call.to, call.ids, call.amounts),
    ensures
        stored_balances(after) == after_call(stored_balances(before), call),
        r is Ok <==> accepted(stored_balances(before), call),
{
}

/// The batch that a command moves on this ledger: none where the command
/// sets an approval, and none where it is turned away for an address.
pub open spec fn transfer_of(ledger: Ledger, msg: ExecuteMsg) -> Option<Transfer> {
    match msg {
        ExecuteMsg::SetApprovalForAll { .. } => None,
        ExecuteMsg::SafeTransferFrom { from, to, id, amount } => if is_zero_account(from@) || is_zero_account(to@) {
            None
        } else {
            Some(Transfer { from: from@, to: to@, ids: seq![id], amounts: seq![amount] })
        },
        ExecuteMsg::SafeBatchTransferFrom { from, to, ids, amounts } => if is_zero_account(from@)
            || is_zero_account(to@) {
            None
        } else {
            Some(Transfer { from: from@, to: to@, ids: ids@, amounts: amounts@ })
        },
        ExecuteMsg::Mint { to, id, amount } => if is_real_account(ledger, to@) {
            Some(Transfer { from: Seq::empty(), to: to@, ids: seq![id], amounts: seq![amount] })
        } else {
            None
        },
        ExecuteMsg::MintBatch { to, ids, amounts } => if is_real_account(ledger, to@) {
            Some(Transfer { from: Seq::empty(), to: to@, ids: ids@, amounts: amounts@ })
        } else {
            None
        },
        ExecuteMsg::Burn { from, id, amount } => if is_real_account(ledger, from@) {
            Some(Transfer { from: from@, to: Seq::empty(), ids: seq![id], amounts: seq![amount] })
        } else {
            None
        },
        ExecuteMsg::BurnBatch { from, ids, amounts } => if is_real_account(ledger, from@) {
            Some(Transfer { from: from@, to: Seq::empty(), ids: ids@, amounts: amounts@ })
        } else {
            None
        },
    }
}

/// **Conservation, one command.** A command that succeeds changes the
/// supply of every token by what it mints of the token less what it burns
/// of it: a transfer and an approval change no supply. A command that fails
/// changes no supply.
pub proof fn lemma_command_conserves(
    before: Ledger,
    after: Ledger,
    r: Result<Response, ContractError>,
    sender: Seq<char>,
    msg: ExecuteMsg,
    token: u64,
)
    requires
        stored_balances(before).dom().finite(),
        executed(before, after, r, sender, msg),
    ensures
        stored_balances(after).dom().finite(),
        stored_balances(after) == (match transfer_of(before, msg) {
            Some(call) => after_call(stored_balances(before), call),
            None => stored_balances(before),
        }),
        supply(stored_balances(after), token) == supply(stored_balances(before), token) + (match transfer_of(
            before,
            msg,
        ) {
            Some(call) if r is Ok => minted_by(call.from, call.ids, call.amounts, token) - burned_by(
                call.to,
                call.ids,
                call.amounts,
                token,
            ),
            _ => 0,
        }),
{
    match transfer_of(before, msg) {
        Some(call) => {
            if accepted(stored_balances(before), call) {
                lemma_batch_conserves(stored_balances(before), call.from, call.to, call.ids, call.amounts, token);
            }
        },
        None => {},
    }
}

} // verus!
