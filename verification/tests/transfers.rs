use cosmwasm_std::testing::mock_dependencies;
use cosmwasm_std::testing::{MockApi, MockQuerier, MockStorage};
use cosmwasm_std::{Attribute, OwnedDeps};
use cw1155_base::contract::execute::{
    burn, burn_batch, change_to_array, mint, mint_batch, safe_batch_transfer_from, safe_transfer_from,
    update,
};
use cw1155_base::contract::query::{balance_of, balance_of_batch, is_approved_for_all};
use cw1155_base::contract::{execute, instantiate, instantiated, query, CONTRACT_NAME, CONTRACT_VERSION};
use cw1155_base::error::ContractError;
use cw1155_base::msg::{ExecuteMsg, InstantiateMsg, QueryMsg, QueryResponse};
use cw1155_base::state::{Ledger, LedgerView};
use cw_storage_plus::Map as StoreMap;

type Host = OwnedDeps<MockStorage, MockApi, MockQuerier>;

fn held(deps: &Host, account: &str, id: u64) -> u64 {
    balance_of(&LedgerView { deps: deps.as_ref() }, account.to_string(), id).unwrap().balanceOf
}

fn method(name: &str) -> Vec<Attribute> {
    vec![Attribute::new("method", name)]
}

#[test]
fn change_to_array_wraps_each_value() {
    assert_eq!(change_to_array(3, 40), ([3], [40]));
    assert_eq!(change_to_array(0, u64::MAX), ([0], [u64::MAX]));
}

#[test]
fn mint_then_burn_then_transfer() {
    let mut deps = mock_dependencies();
    mint(&mut Ledger { deps: deps.as_mut() }, "alice".to_string(), 1, 10).unwrap();
    assert_eq!(held(&deps, "alice", 1), 10);
    burn(&mut Ledger { deps: deps.as_mut() }, "alice".to_string(), 1, 5).unwrap();
    assert_eq!(held(&deps, "alice", 1), 5);
    safe_transfer_from(&mut Ledger { deps: deps.as_mut() }, "alice".to_string(), "bobby".to_string(), 1, 1)
        .unwrap();
    assert_eq!(held(&deps, "bobby", 1), 1);
    assert_eq!(held(&deps, "alice", 1), 4);
}

#[test]
fn mint_batch_then_balance_of_batch() {
    let mut deps = mock_dependencies();
    mint_batch(&mut Ledger { deps: deps.as_mut() }, "alice".to_string(), vec![1, 2, 3, 4], vec![10, 10, 10, 10])
        .unwrap();
    let accounts = vec!["alice".to_string(), "alice".to_string(), "alice".to_string(), "alice".to_string()];
    let told = balance_of_batch(&LedgerView { deps: deps.as_ref() }, accounts, vec![1, 2, 3, 4]).unwrap();
    assert_eq!(told.balanceOfBatch, vec![10, 10, 10, 10]);
}

#[test]
fn balance_of_batch_answers_in_the_order_asked() {
    let mut deps = mock_dependencies();
    mint_batch(&mut Ledger { deps: deps.as_mut() }, "alice".to_string(), vec![1, 2], vec![11, 22]).unwrap();
    mint(&mut Ledger { deps: deps.as_mut() }, "bobby".to_string(), 2, 33).unwrap();
    let accounts = vec!["bobby".to_string(), "alice".to_string(), "carol".to_string(), "alice".to_string()];
    let told = balance_of_batch(&LedgerView { deps: deps.as_ref() }, accounts, vec![2, 2, 2, 1]).unwrap();
    assert_eq!(told.balanceOfBatch, vec![33, 22, 0, 11]);
    let told = balance_of_batch(&LedgerView { deps: deps.as_ref() }, vec![], vec![]).unwrap();
    assert_eq!(told.balanceOfBatch, Vec::<u64>::new());
}

#[test]
fn mints_to_one_account_add_up() {
    let mut deps = mock_dependencies();
    mint(&mut Ledger { deps: deps.as_mut() }, "alice".to_string(), 1, 10).unwrap();
    mint(&mut Ledger { deps: deps.as_mut() }, "alice".to_string(), 1, 5).unwrap();
    mint(&mut Ledger { deps: deps.as_mut() }, "alice".to_string(), 2, 1).unwrap();
    assert_eq!(held(&deps, "alice", 1), 15);
    assert_eq!(held(&deps, "alice", 2), 1);
}

#[test]
fn a_batch_may_name_a_token_twice() {
    let mut deps = mock_dependencies();
    mint_batch(&mut Ledger { deps: deps.as_mut() }, "alice".to_string(), vec![1, 1, 2], vec![3, 4, 5]).unwrap();
    assert_eq!(held(&deps, "alice", 1), 7);
    assert_eq!(held(&deps, "alice", 2), 5);
    // 5 + 5 is more than the 7 that alice holds of token 1
    let refused = burn_batch(&mut Ledger { deps: deps.as_mut() }, "alice".to_string(), vec![1, 1], vec![5, 5]);
    assert!(matches!(refused, Err(ContractError::InsufficientBalance {})));
    assert_eq!(held(&deps, "alice", 1), 7);
    burn_batch(&mut Ledger { deps: deps.as_mut() }, "alice".to_string(), vec![1, 1], vec![5, 2]).unwrap();
    assert_eq!(held(&deps, "alice", 1), 0);
}

#[test]
fn the_supply_is_what_was_minted_less_what_was_burned() {
    let mut deps = mock_dependencies();
    let accounts = ["alice", "bobby", "carol"];
    let mut minted: u64 = 0;
    let mut burned: u64 = 0;
    let supply = |deps: &Host| -> u64 { accounts.iter().map(|a| held(deps, a, 1)).sum() };

    mint(&mut Ledger { deps: deps.as_mut() }, "alice".to_string(), 1, 100).unwrap();
    minted += 100;
    assert_eq!(supply(&deps), minted - burned);
    mint(&mut Ledger { deps: deps.as_mut() }, "bobby".to_string(), 1, 40).unwrap();
    minted += 40;
    assert_eq!(supply(&deps), minted - burned);
    // another token does not count
    mint(&mut Ledger { deps: deps.as_mut() }, "bobby".to_string(), 2, 1000).unwrap();
    assert_eq!(supply(&deps), minted - burned);
    safe_transfer_from(&mut Ledger { deps: deps.as_mut() }, "alice".to_string(), "carol".to_string(), 1, 30)
        .unwrap();
    assert_eq!(supply(&deps), minted - burned);
    burn(&mut Ledger { deps: deps.as_mut() }, "carol".to_string(), 1, 7).unwrap();
    burned += 7;
    assert_eq!(supply(&deps), minted - burned);
    // calls that fail count for nothing
    assert!(burn(&mut Ledger { deps: deps.as_mut() }, "carol".to_string(), 1, 24).is_err());
    assert!(safe_transfer_from(&mut Ledger { deps: deps.as_mut() }, "bobby".to_string(), "alice".to_string(), 1, 41)
        .is_err());
    assert_eq!(supply(&deps), minted - burned);
    safe_batch_transfer_from(
        &mut Ledger { deps: deps.as_mut() },
        "bobby".to_string(),
        "alice".to_string(),
        vec![1, 2, 1],
        vec![10, 500, 30],
    )
    .unwrap();
    assert_eq!(supply(&deps), minted - burned);
    burn_batch(&mut Ledger { deps: deps.as_mut() }, "alice".to_string(), vec![1, 2, 1], vec![50, 500, 60]).unwrap();
    burned += 110;
    assert_eq!(supply(&deps), minted - burned);
    assert_eq!(supply(&deps), 23);
    assert_eq!((held(&deps, "alice", 1), held(&deps, "bobby", 1), held(&deps, "carol", 1)), (0, 0, 23));
}

#[test]
fn a_debit_beyond_the_balance_fails_and_changes_nothing() {
    let mut deps = mock_dependencies();
    mint_batch(&mut Ledger { deps: deps.as_mut() }, "alice".to_string(), vec![1, 2], vec![10, 20]).unwrap();
    mint(&mut Ledger { deps: deps.as_mut() }, "bobby".to_string(), 1, 3).unwrap();

    let refused = burn(&mut Ledger { deps: deps.as_mut() }, "alice".to_string(), 1, 11);
    assert!(matches!(refused, Err(ContractError::InsufficientBalance {})));
    let refused =
        safe_transfer_from(&mut Ledger { deps: deps.as_mut() }, "bobby".to_string(), "alice".to_string(), 1, 4);
    assert!(matches!(refused, Err(ContractError::InsufficientBalance {})));
    // an account that holds nothing
    let refused = burn(&mut Ledger { deps: deps.as_mut() }, "carol".to_string(), 1, 1);
    assert!(matches!(refused, Err(ContractError::InsufficientBalance {})));
    let refused =
        safe_transfer_from(&mut Ledger { deps: deps.as_mut() }, "carol".to_string(), "alice".to_string(), 2, 1);
    assert!(matches!(refused, Err(ContractError::InsufficientBalance {})));

    assert_eq!(held(&deps, "alice", 1), 10);
    assert_eq!(held(&deps, "alice", 2), 20);
    assert_eq!(held(&deps, "bobby", 1), 3);
    assert_eq!(held(&deps, "carol", 1), 0);
    // the exact balance can be taken
    burn(&mut Ledger { deps: deps.as_mut() }, "alice".to_string(), 1, 10).unwrap();
    assert_eq!(held(&deps, "alice", 1), 0);
}

#[test]
fn a_batch_that_fails_at_its_second_pair_undoes_its_first() {
    let mut deps = mock_dependencies();
    mint_batch(&mut Ledger { deps: deps.as_mut() }, "alice".to_string(), vec![1, 2], vec![10, 3]).unwrap();

    let refused = safe_batch_transfer_from(
        &mut Ledger { deps: deps.as_mut() },
        "alice".to_string(),
        "bobby".to_string(),
        vec![1, 2],
        vec![4, 5],
    );
    assert!(matches!(refused, Err(ContractError::InsufficientBalance {})));
    assert_eq!(held(&deps, "alice", 1), 10);
    assert_eq!(held(&deps, "bobby", 1), 0);
    assert_eq!(held(&deps, "alice", 2), 3);
    assert_eq!(held(&deps, "bobby", 2), 0);

    let refused = burn_batch(&mut Ledger { deps: deps.as_mut() }, "alice".to_string(), vec![1, 2], vec![4, 5]);
    assert!(matches!(refused, Err(ContractError::InsufficientBalance {})));
    assert_eq!(held(&deps, "alice", 1), 10);

    // nothing of a refused batch reaches the store, not even an entry of zero
    let balances: StoreMap<(&str, &str), u64> = StoreMap::new("balance");
    assert_eq!(balances.may_load(&deps.storage, ("1", "bobby")).unwrap(), None);
}

#[test]
fn a_mint_that_would_overflow_fails_and_changes_nothing() {
    let mut deps = mock_dependencies();
    mint(&mut Ledger { deps: deps.as_mut() }, "alice".to_string(), 1, u64::MAX - 5).unwrap();
    let refused = mint(&mut Ledger { deps: deps.as_mut() }, "alice".to_string(), 1, 6);
    assert!(matches!(refused, Err(ContractError::Overflow {})));
    assert_eq!(held(&deps, "alice", 1), u64::MAX - 5);
    let refused = mint_batch(&mut Ledger { deps: deps.as_mut() }, "alice".to_string(), vec![2, 1, 1], vec![9, 3, 3]);
    assert!(matches!(refused, Err(ContractError::Overflow {})));
    assert_eq!(held(&deps, "alice", 1), u64::MAX - 5);
    assert_eq!(held(&deps, "alice", 2), 0);
    mint(&mut Ledger { deps: deps.as_mut() }, "alice".to_string(), 1, 5).unwrap();
    assert_eq!(held(&deps, "alice", 1), u64::MAX);
    // a transfer that would overflow the receiver
    mint(&mut Ledger { deps: deps.as_mut() }, "bobby".to_string(), 1, 1).unwrap();
    let refused =
        safe_transfer_from(&mut Ledger { deps: deps.as_mut() }, "bobby".to_string(), "alice".to_string(), 1, 1);
    assert!(matches!(refused, Err(ContractError::Overflow {})));
    assert_eq!(held(&deps, "bobby", 1), 1);
    assert_eq!(held(&deps, "alice", 1), u64::MAX);
}

#[test]
fn lists_of_different_length_are_turned_away() {
    let mut deps = mock_dependencies();
    mint_batch(&mut Ledger { deps: deps.as_mut() }, "alice".to_string(), vec![1, 2], vec![10, 20]).unwrap();

    let refused = mint_batch(&mut Ledger { deps: deps.as_mut() }, "alice".to_string(), vec![1, 2], vec![5]);
    assert!(matches!(refused, Err(ContractError::InvalidIdAmountLength {})));
    let refused = burn_batch(&mut Ledger { deps: deps.as_mut() }, "alice".to_string(), vec![1], vec![5, 5]);
    assert!(matches!(refused, Err(ContractError::InvalidIdAmountLength {})));
    let refused = safe_batch_transfer_from(
        &mut Ledger { deps: deps.as_mut() },
        "alice".to_string(),
        "bobby".to_string(),
        vec![],
        vec![1],
    );
    assert!(matches!(refused, Err(ContractError::InvalidIdAmountLength {})));
    let refused =
        update(&mut Ledger { deps: deps.as_mut() }, "alice".to_string(), "bobby".to_string(), &[1, 2, 2], &[1, 1]);
    assert!(matches!(refused, Err(ContractError::InvalidIdAmountLength {})));

    assert_eq!(held(&deps, "alice", 1), 10);
    assert_eq!(held(&deps, "alice", 2), 20);
    assert_eq!(held(&deps, "bobby", 1), 0);
    assert_eq!(held(&deps, "bobby", 2), 0);

    let accounts = vec!["alice".to_string(), "alice".to_string()];
    let refused = balance_of_batch(&LedgerView { deps: deps.as_ref() }, accounts, vec![1]);
    assert!(matches!(refused, Err(ContractError::InvalidIdAmountLength {})));
    let refused = balance_of_batch(&LedgerView { deps: deps.as_ref() }, vec![], vec![1, 2]);
    assert!(matches!(refused, Err(ContractError::InvalidIdAmountLength {})));
}

#[test]
fn the_zero_account_takes_no_part_in_a_transfer() {
    let mut deps = mock_dependencies();
    mint(&mut Ledger { deps: deps.as_mut() }, "alice".to_string(), 1, 10).unwrap();
    let refused = safe_transfer_from(&mut Ledger { deps: deps.as_mut() }, String::new(), "alice".to_string(), 1, 1);
    assert!(matches!(refused, Err(ContractError::InvalidAddress {})));
    let refused = safe_transfer_from(&mut Ledger { deps: deps.as_mut() }, "alice".to_string(), String::new(), 1, 1);
    assert!(matches!(refused, Err(ContractError::InvalidAddress {})));
    let refused = safe_batch_transfer_from(
        &mut Ledger { deps: deps.as_mut() },
        "alice".to_string(),
        String::new(),
        vec![1],
        vec![1],
    );
    assert!(matches!(refused, Err(ContractError::InvalidAddress {})));
    // the address is looked at before the lists are
    let refused =
        safe_batch_transfer_from(&mut Ledger { deps: deps.as_mut() }, String::new(), "alice".to_string(), vec![1], vec![]);
    assert!(matches!(refused, Err(ContractError::InvalidAddress {})));
    assert_eq!(held(&deps, "alice", 1), 10);
    assert_eq!(held(&deps, "", 1), 0);
}

#[test]
fn a_mint_or_burn_needs_an_address_that_the_host_accepts() {
    let mut deps = mock_dependencies();
    mint(&mut Ledger { deps: deps.as_mut() }, "alice".to_string(), 1, 10).unwrap();
    // the mock host wants three bytes at least, at most ninety, and no upper case
    for bad in ["", "al", "Alice", &"a".repeat(91)] {
        let refused = mint(&mut Ledger { deps: deps.as_mut() }, bad.to_string(), 1, 1);
        assert!(matches!(refused, Err(ContractError::InvalidAddress {})));
        let refused = mint_batch(&mut Ledger { deps: deps.as_mut() }, bad.to_string(), vec![1], vec![1]);
        assert!(matches!(refused, Err(ContractError::InvalidAddress {})));
        let refused = burn(&mut Ledger { deps: deps.as_mut() }, bad.to_string(), 1, 0);
        assert!(matches!(refused, Err(ContractError::InvalidAddress {})));
        let refused = burn_batch(&mut Ledger { deps: deps.as_mut() }, bad.to_string(), vec![], vec![]);
        assert!(matches!(refused, Err(ContractError::InvalidAddress {})));
        assert_eq!(held(&deps, bad, 1), 0);
    }
    // the address is looked at before the lists are
    let refused = mint_batch(&mut Ledger { deps: deps.as_mut() }, String::new(), vec![1], vec![]);
    assert!(matches!(refused, Err(ContractError::InvalidAddress {})));
    assert_eq!(held(&deps, "alice", 1), 10);
    mint(&mut Ledger { deps: deps.as_mut() }, "a".repeat(90), 1, 1).unwrap();
    assert_eq!(held(&deps, &"a".repeat(90), 1), 1);
}

#[test]
fn update_mints_from_and_burns_to_the_zero_account() {
    let mut deps = mock_dependencies();
    let answer = update(&mut Ledger { deps: deps.as_mut() }, String::new(), "alice".to_string(), &[1, 2], &[10, 20])
        .unwrap();
    assert_eq!(answer.attributes, method("update"));
    assert_eq!((held(&deps, "alice", 1), held(&deps, "alice", 2)), (10, 20));
    update(&mut Ledger { deps: deps.as_mut() }, "alice".to_string(), "bobby".to_string(), &[2], &[5]).unwrap();
    assert_eq!((held(&deps, "alice", 2), held(&deps, "bobby", 2)), (15, 5));
    update(&mut Ledger { deps: deps.as_mut() }, "alice".to_string(), String::new(), &[1], &[10]).unwrap();
    assert_eq!(held(&deps, "alice", 1), 0);
    // between the zero account and itself nothing moves
    update(&mut Ledger { deps: deps.as_mut() }, String::new(), String::new(), &[1, 2], &[5, 5]).unwrap();
    assert_eq!(held(&deps, "", 1), 0);
    let balances: StoreMap<(&str, &str), u64> = StoreMap::new("balance");
    assert_eq!(balances.may_load(&deps.storage, ("1", "")).unwrap(), None);
    // an empty batch is accepted
    update(&mut Ledger { deps: deps.as_mut() }, "alice".to_string(), "bobby".to_string(), &[], &[]).unwrap();
    assert_eq!((held(&deps, "alice", 2), held(&deps, "bobby", 2)), (15, 5));
}

#[test]
fn a_transfer_to_oneself_changes_no_balance() {
    let mut deps = mock_dependencies();
    mint(&mut Ledger { deps: deps.as_mut() }, "alice".to_string(), 1, 10).unwrap();
    safe_transfer_from(&mut Ledger { deps: deps.as_mut() }, "alice".to_string(), "alice".to_string(), 1, 10).unwrap();
    assert_eq!(held(&deps, "alice", 1), 10);
    let refused =
        safe_transfer_from(&mut Ledger { deps: deps.as_mut() }, "alice".to_string(), "alice".to_string(), 1, 11);
    assert!(matches!(refused, Err(ContractError::InsufficientBalance {})));
    assert_eq!(held(&deps, "alice", 1), 10);
}

#[test]
fn a_garbled_balance_fails_the_call_and_changes_nothing() {
    let mut deps = mock_dependencies();
    mint_batch(&mut Ledger { deps: deps.as_mut() }, "alice".to_string(), vec![1, 2], vec![10, 20]).unwrap();
    let garbage: StoreMap<(&str, &str), String> = StoreMap::new("balance");
    garbage.save(&mut deps.storage, ("2", "bobby"), &"many".to_string()).unwrap();

    let refused = safe_batch_transfer_from(
        &mut Ledger { deps: deps.as_mut() },
        "alice".to_string(),
        "bobby".to_string(),
        vec![1, 2],
        vec![1, 1],
    );
    assert!(matches!(refused, Err(ContractError::Std(_))));
    assert_eq!(held(&deps, "alice", 1), 10);
    assert_eq!(held(&deps, "bobby", 1), 0);
    assert_eq!(held(&deps, "alice", 2), 20);
    let told = balance_of(&LedgerView { deps: deps.as_ref() }, "bobby".to_string(), 2);
    assert!(matches!(told, Err(ContractError::Std(_))));
    let accounts = vec!["alice".to_string(), "bobby".to_string()];
    let told = balance_of_batch(&LedgerView { deps: deps.as_ref() }, accounts, vec![2, 2]);
    assert!(matches!(told, Err(ContractError::Std(_))));
    assert_eq!(garbage.load(&deps.storage, ("2", "bobby")).unwrap(), "many");
}

#[test]
fn every_command_answers_with_its_method() {
    let mut deps = mock_dependencies();
    let alice = || "alice".to_string();
    let bobby = || "bobby".to_string();
    let answer = mint(&mut Ledger { deps: deps.as_mut() }, alice(), 1, 10).unwrap();
    assert_eq!(answer.attributes, method("mint"));
    assert!(answer.messages.is_empty() && answer.events.is_empty() && answer.data.is_none());
    let answer = mint_batch(&mut Ledger { deps: deps.as_mut() }, alice(), vec![1], vec![10]).unwrap();
    assert_eq!(answer.attributes, method("mint_batch"));
    let answer = burn(&mut Ledger { deps: deps.as_mut() }, alice(), 1, 1).unwrap();
    assert_eq!(answer.attributes, method("burn"));
    let answer = burn_batch(&mut Ledger { deps: deps.as_mut() }, alice(), vec![1], vec![1]).unwrap();
    assert_eq!(answer.attributes, method("burn_batch"));
    let answer = safe_transfer_from(&mut Ledger { deps: deps.as_mut() }, alice(), bobby(), 1, 1).unwrap();
    assert_eq!(answer.attributes, method("safe_transfer_from"));
    let answer =
        safe_batch_transfer_from(&mut Ledger { deps: deps.as_mut() }, alice(), bobby(), vec![1], vec![1]).unwrap();
    assert_eq!(answer.attributes, method("safe_batch_transfer_from"));
    assert!(answer.messages.is_empty());
    let answer = instantiate(&mut Ledger { deps: deps.as_mut() }, InstantiateMsg {}).unwrap();
    assert_eq!(answer.attributes, method("instantiate"));
    assert!(answer.messages.is_empty());
}

#[test]
fn instantiate_records_name_and_version() {
    let mut deps = mock_dependencies();
    mint(&mut Ledger { deps: deps.as_mut() }, "alice".to_string(), 1, 10).unwrap();
    instantiate(&mut Ledger { deps: deps.as_mut() }, InstantiateMsg {}).unwrap();
    let recorded = cw2::get_contract_version(&deps.storage).unwrap();
    assert_eq!(recorded.contract, "crates.io:cw1155-base");
    assert_eq!(recorded.contract, CONTRACT_NAME);
    assert_eq!(recorded.version, CONTRACT_VERSION);
    assert_eq!(held(&deps, "alice", 1), 10);
}

#[test]
fn instantiated_passes_the_error_of_the_store_on() {
    let answer = instantiated(Ok(())).unwrap();
    assert_eq!(answer.attributes, method("instantiate"));
    let refused = instantiated(Err(cosmwasm_std::StdError::generic_err("no room")));
    match refused {
        Err(ContractError::Std(e)) => assert_eq!(e, cosmwasm_std::StdError::generic_err("no room")),
        other => panic!("not an error of the store: {:?}", other),
    }
}

#[test]
fn execute_runs_the_command_named() {
    let mut deps = mock_dependencies();
    let alice = || "alice".to_string();
    let bobby = || "bobby".to_string();
    let run = |deps: &mut Host, msg: ExecuteMsg| execute(&mut Ledger { deps: deps.as_mut() }, "sender".to_string(), msg);

    let answer = run(&mut deps, ExecuteMsg::MintBatch { to: alice(), ids: vec![1, 2], amounts: vec![10, 20] }).unwrap();
    assert_eq!(answer.attributes, method("mint_batch"));
    let answer = run(&mut deps, ExecuteMsg::Mint { to: alice(), id: 3, amount: 30 }).unwrap();
    assert_eq!(answer.attributes, method("mint"));
    let answer = run(&mut deps, ExecuteMsg::Burn { from: alice(), id: 1, amount: 1 }).unwrap();
    assert_eq!(answer.attributes, method("burn"));
    let answer = run(&mut deps, ExecuteMsg::BurnBatch { from: alice(), ids: vec![2, 3], amounts: vec![2, 3] }).unwrap();
    assert_eq!(answer.attributes, method("burn_batch"));
    let answer = run(&mut deps, ExecuteMsg::SafeTransferFrom { from: alice(), to: bobby(), id: 1, amount: 4 }).unwrap();
    assert_eq!(answer.attributes, method("safe_transfer_from"));
    let answer = run(
        &mut deps,
        ExecuteMsg::SafeBatchTransferFrom { from: alice(), to: bobby(), ids: vec![2, 3], amounts: vec![5, 6] },
    )
    .unwrap();
    assert_eq!(answer.attributes, method("safe_batch_transfer_from"));
    let answer = run(&mut deps, ExecuteMsg::SetApprovalForAll { operator: bobby(), approved: true }).unwrap();
    assert_eq!(answer.attributes, method("set_approval_for_all"));

    assert_eq!((held(&deps, "alice", 1), held(&deps, "alice", 2), held(&deps, "alice", 3)), (5, 13, 21));
    assert_eq!((held(&deps, "bobby", 1), held(&deps, "bobby", 2), held(&deps, "bobby", 3)), (4, 5, 6));

    // the sender is the owner of the approval that it sets
    let told = is_approved_for_all(&LedgerView { deps: deps.as_ref() }, "sender".to_string(), bobby()).unwrap();
    assert!(told.isApprovedForAll);
    let told = is_approved_for_all(&LedgerView { deps: deps.as_ref() }, alice(), bobby()).unwrap();
    assert!(!told.isApprovedForAll);

    let refused = run(&mut deps, ExecuteMsg::Burn { from: bobby(), id: 1, amount: 5 });
    assert!(matches!(refused, Err(ContractError::InsufficientBalance {})));
    let refused = run(&mut deps, ExecuteMsg::SetApprovalForAll { operator: "sender".to_string(), approved: false });
    assert!(matches!(refused, Err(ContractError::SelfApprovedError {})));
}

#[test]
fn query_answers_the_question_asked() {
    let mut deps = mock_dependencies();
    mint_batch(&mut Ledger { deps: deps.as_mut() }, "alice".to_string(), vec![1, 2], vec![10, 20]).unwrap();
    let ask = |deps: &Host, msg: QueryMsg| query(&LedgerView { deps: deps.as_ref() }, msg);

    let told = ask(&deps, QueryMsg::BalanceOf { account: "alice".to_string(), id: 2 }).unwrap();
    assert!(matches!(told, QueryResponse::BalanceOf(answer) if answer.balanceOf == 20));
    let accounts = vec!["alice".to_string(), "bobby".to_string()];
    let told = ask(&deps, QueryMsg::BalanceOfBatch { accounts, ids: vec![1, 1] }).unwrap();
    assert!(matches!(told, QueryResponse::BalanceOfBatch(answer) if answer.balanceOfBatch == vec![10, 0]));
    let told =
        ask(&deps, QueryMsg::IsApprovedForAll { account: "alice".to_string(), operator: "bobby".to_string() }).unwrap();
    assert!(matches!(told, QueryResponse::IsApprovedForAll(answer) if !answer.isApprovedForAll));
    let refused = ask(&deps, QueryMsg::BalanceOfBatch { accounts: vec![], ids: vec![1] });
    assert!(matches!(refused, Err(ContractError::InvalidIdAmountLength {})));
}

#[test]
fn a_ledger_can_be_read_between_its_commands() {
    let mut deps = mock_dependencies();
    let mut ledger = Ledger { deps: deps.as_mut() };
    assert_eq!(balance_of(&ledger.as_view(), "alice".to_string(), 1).unwrap().balanceOf, 0);
    mint(&mut ledger, "alice".to_string(), 1, 10).unwrap();
    assert_eq!(balance_of(&ledger.as_view(), "alice".to_string(), 1).unwrap().balanceOf, 10);
    burn(&mut ledger, "alice".to_string(), 1, 4).unwrap();
    assert_eq!(balance_of(&ledger.as_view(), "alice".to_string(), 1).unwrap().balanceOf, 6);
    assert!(burn(&mut ledger, "alice".to_string(), 1, 7).is_err());
    assert_eq!(balance_of(&ledger.as_view(), "alice".to_string(), 1).unwrap().balanceOf, 6);
}

#[test]
fn an_owner_of_any_length_can_hold_a_balance() {
    let mut deps = mock_dependencies();
    let long = "a".repeat(70000);
    update(&mut Ledger { deps: deps.as_mut() }, String::new(), long.clone(), &[1], &[3]).unwrap();
    assert_eq!(held(&deps, &long, 1), 3);
    update(&mut Ledger { deps: deps.as_mut() }, long.clone(), "alice".to_string(), &[1], &[2]).unwrap();
    assert_eq!(held(&deps, &long, 1), 1);
    assert_eq!(held(&deps, "alice", 1), 2);
    assert_eq!(held(&deps, &"a".repeat(69999), 1), 0);
}
