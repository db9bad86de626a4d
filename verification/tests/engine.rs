//! The transitions called directly, on an in-memory store.

use cosmwasm_std::testing::MockStorage;
use cosmwasm_std::{Addr, StdError, Storage, Uint128};
use counting_contract::contract;
use counting_contract::contract::exec::meets_threshold;
use counting_contract::decimal::decimal_text;
use counting_contract::error::ContractError;
use counting_contract::msg::{Coin, ExecuteMsg, InstantiateMsg, MessageInfo, QueryMsg, ValueResp};
use counting_contract::response::{Attribute, BankMsg, Response};
use counting_contract::state::Store;
use cw_storage_plus::Item;

fn info(sender: &str, funds: Vec<Coin>) -> MessageInfo {
    MessageInfo { sender: sender.to_string(), funds }
}

fn atom(amount: u128) -> Coin {
    Coin::new(amount, "atom")
}

fn attribute(key: &str, value: &str) -> Attribute {
    Attribute { key: key.to_string(), value: value.to_string() }
}

fn counter_report(sender: &str, counter: &str) -> Response {
    Response {
        messages: vec![],
        attributes: vec![
            attribute("action", "poke"),
            attribute("sender", sender),
            attribute("counter", counter),
        ],
    }
}

/// A store instantiated by `owner` with a threshold of 10 atom.
fn instantiated(storage: &mut MockStorage) {
    let mut store = Store::new(storage);
    let msg = InstantiateMsg { admins: None, minimal_donation: atom(10) };
    let resp = contract::instantiate(&mut store, info("owner", vec![]), msg).unwrap();
    assert_eq!(resp, Response { messages: vec![], attributes: vec![] });
}

fn no_balance() -> Result<Vec<Coin>, StdError> {
    Ok(vec![])
}

#[test]
fn instantiate_writes_the_three_fields() {
    let mut storage = MockStorage::new();
    instantiated(&mut storage);

    assert_eq!(storage.get(b"counter"), Some(b"0".to_vec()));
    assert_eq!(
        storage.get(b"minimal_donation"),
        Some(br#"{"denom":"atom","amount":"10"}"#.to_vec())
    );
    assert_eq!(storage.get(b"owner"), Some(br#""owner""#.to_vec()));

    let store = Store::new(&mut storage);
    assert_eq!(store.load_counter(), Ok(0));
    assert_eq!(store.load_minimal_donation(), Ok(atom(10)));
    assert_eq!(store.load_owner(), Ok("owner".to_string()));
}

#[test]
fn instantiate_leaves_other_keys_alone() {
    let mut storage = MockStorage::new();
    storage.set(b"elsewhere", b"kept");
    instantiated(&mut storage);
    assert_eq!(storage.get(b"elsewhere"), Some(b"kept".to_vec()));
}

#[test]
fn instantiate_through_the_entry_point() {
    let mut storage = MockStorage::new();
    let mut store = Store::new(&mut storage);
    let msg = InstantiateMsg {
        admins: Some(vec!["someone".to_string()]),
        minimal_donation: Coin::new(3, "stake"),
    };
    let resp = counting_contract::instantiate(&mut store, info("creator", vec![]), msg);
    assert_eq!(resp, Ok(Response { messages: vec![], attributes: vec![] }));
    assert_eq!(store.load_counter(), Ok(0));
    assert_eq!(store.load_minimal_donation(), Ok(Coin::new(3, "stake")));
    assert_eq!(store.load_owner(), Ok("creator".to_string()));
}

#[test]
fn fields_are_stored_as_the_host_reads_them() {
    let mut storage = MockStorage::new();
    instantiated(&mut storage);
    assert_eq!(Item::<u64>::new("counter").load(&storage), Ok(0));
    assert_eq!(
        Item::<cosmwasm_std::Coin>::new("minimal_donation").load(&storage),
        Ok(cosmwasm_std::Coin { denom: "atom".to_string(), amount: Uint128::new(10) })
    );
    assert_eq!(Item::<Addr>::new("owner").load(&storage), Ok(Addr::unchecked("owner")));
}

#[test]
fn fields_saved_by_the_host_are_read_back() {
    let mut storage = MockStorage::new();
    Item::<u64>::new("counter").save(&mut storage, &41).unwrap();
    Item::<cosmwasm_std::Coin>::new("minimal_donation")
        .save(&mut storage, &cosmwasm_std::Coin::new(7, "stake"))
        .unwrap();
    Item::<Addr>::new("owner").save(&mut storage, &Addr::unchecked("alice")).unwrap();

    let store = Store::new(&mut storage);
    assert_eq!(store.load_counter(), Ok(41));
    assert_eq!(store.load_minimal_donation(), Ok(Coin::new(7, "stake")));
    assert_eq!(store.load_owner(), Ok("alice".to_string()));
}

#[test]
fn save_overwrites_and_touches_one_field() {
    let mut storage = MockStorage::new();
    instantiated(&mut storage);
    let mut store = Store::new(&mut storage);

    assert_eq!(store.save_counter(9), Ok(()));
    assert_eq!(store.save_counter(12), Ok(()));
    assert_eq!(store.load_counter(), Ok(12));
    assert_eq!(store.load_minimal_donation(), Ok(atom(10)));
    assert_eq!(store.load_owner(), Ok("owner".to_string()));

    assert_eq!(store.save_minimal_donation(&Coin::new(2, "stake")), Ok(()));
    assert_eq!(store.load_minimal_donation(), Ok(Coin::new(2, "stake")));
    assert_eq!(store.load_counter(), Ok(12));
    assert_eq!(store.load_owner(), Ok("owner".to_string()));

    assert_eq!(store.save_owner("bob"), Ok(()));
    assert_eq!(store.load_owner(), Ok("bob".to_string()));
    assert_eq!(store.load_counter(), Ok(12));
    assert_eq!(store.load_minimal_donation(), Ok(Coin::new(2, "stake")));
}

#[test]
fn text_with_escapes_survives_the_store() {
    let mut storage = MockStorage::new();
    let mut store = Store::new(&mut storage);
    let odd = "a\"b\\c\n\u{1}\u{7f}\u{e9}\u{1f600}";
    assert_eq!(store.save_owner(odd), Ok(()));
    assert_eq!(store.load_owner(), Ok(odd.to_string()));
    assert_eq!(store.save_minimal_donation(&Coin::new(u128::MAX, odd)), Ok(()));
    assert_eq!(store.load_minimal_donation(), Ok(Coin::new(u128::MAX, odd)));
    assert_eq!(store.save_counter(u64::MAX), Ok(()));
    assert_eq!(store.load_counter(), Ok(u64::MAX));
}

#[test]
fn loads_fail_before_instantiation() {
    let mut storage = MockStorage::new();
    let store = Store::new(&mut storage);
    assert_eq!(store.load_counter(), Err(ContractError::StorageUninitialized));
    assert_eq!(store.load_minimal_donation(), Err(ContractError::StorageUninitialized));
    assert_eq!(store.load_owner(), Err(ContractError::StorageUninitialized));
}

#[test]
fn loads_hand_on_the_decoder_error() {
    let mut storage = MockStorage::new();
    storage.set(b"counter", b"not a number");
    storage.set(b"minimal_donation", b"[]");
    storage.set(b"owner", b"17");
    let expected_counter = Item::<u64>::new("counter").load(&storage).unwrap_err();
    let expected_donation =
        Item::<cosmwasm_std::Coin>::new("minimal_donation").load(&storage).unwrap_err();
    let expected_owner = Item::<Addr>::new("owner").load(&storage).unwrap_err();

    let store = Store::new(&mut storage);
    assert_eq!(store.load_counter(), Err(ContractError::Host(expected_counter)));
    assert_eq!(store.load_minimal_donation(), Err(ContractError::Host(expected_donation)));
    assert_eq!(store.load_owner(), Err(ContractError::Host(expected_owner)));
}

#[test]
fn value_is_zero_after_instantiation() {
    let mut storage = MockStorage::new();
    instantiated(&mut storage);
    let store = Store::new(&mut storage);
    assert_eq!(contract::query::value(&store), Ok(ValueResp { value: 0 }));
    assert_eq!(counting_contract::query(&store, QueryMsg::Value {}), Ok(ValueResp { value: 0 }));
}

#[test]
fn value_fails_before_instantiation() {
    let mut storage = MockStorage::new();
    let store = Store::new(&mut storage);
    assert_eq!(contract::query::value(&store), Err(ContractError::StorageUninitialized));
}

#[test]
fn value_hands_on_the_decoder_error() {
    let mut storage = MockStorage::new();
    storage.set(b"counter", b"\"zero\"");
    let expected = Item::<u64>::new("counter").load(&storage).unwrap_err();
    let store = Store::new(&mut storage);
    assert_eq!(contract::query::value(&store), Err(ContractError::Host(expected)));
}

#[test]
fn value_asked_twice_answers_the_same() {
    let mut storage = MockStorage::new();
    instantiated(&mut storage);
    let mut store = Store::new(&mut storage);
    contract::exec::poke(&mut store, info("anyone", vec![])).unwrap();
    let first = contract::query::value(&store);
    let second = contract::query::value(&store);
    assert_eq!(first, Ok(ValueResp { value: 1 }));
    assert_eq!(first, second);

    let mut empty = MockStorage::new();
    let store = Store::new(&mut empty);
    assert_eq!(contract::query::value(&store), contract::query::value(&store));
}

#[test]
fn greet_and_admins_list_are_unsupported() {
    let mut storage = MockStorage::new();
    instantiated(&mut storage);
    let store = Store::new(&mut storage);
    assert_eq!(
        counting_contract::query(&store, QueryMsg::Greet {}),
        Err(ContractError::Unsupported)
    );
    assert_eq!(
        counting_contract::query(&store, QueryMsg::AdminsList {}),
        Err(ContractError::Unsupported)
    );
}

#[test]
fn donate_without_funds_changes_nothing() {
    let mut storage = MockStorage::new();
    instantiated(&mut storage);
    let mut store = Store::new(&mut storage);
    let resp = contract::exec::donate(&mut store, info("sender", vec![]));
    assert_eq!(resp, Ok(counter_report("sender", "0")));
    assert_eq!(store.load_counter(), Ok(0));
}

#[test]
fn donate_at_the_threshold_counts_once() {
    let mut storage = MockStorage::new();
    instantiated(&mut storage);
    let mut store = Store::new(&mut storage);
    let resp = contract::exec::donate(&mut store, info("sender", vec![atom(10)]));
    assert_eq!(resp, Ok(counter_report("sender", "1")));
    assert_eq!(store.load_counter(), Ok(1));
    assert_eq!(store.load_minimal_donation(), Ok(atom(10)));
    assert_eq!(store.load_owner(), Ok("owner".to_string()));
}

#[test]
fn donate_below_the_threshold_does_not_count() {
    let mut storage = MockStorage::new();
    instantiated(&mut storage);
    let mut store = Store::new(&mut storage);
    let resp = contract::exec::donate(&mut store, info("sender", vec![atom(5)]));
    assert_eq!(resp, Ok(counter_report("sender", "0")));
    assert_eq!(store.load_counter(), Ok(0));
    let resp = contract::exec::donate(&mut store, info("sender", vec![atom(9)]));
    assert_eq!(resp, Ok(counter_report("sender", "0")));
}

#[test]
fn donate_in_another_denomination_does_not_count() {
    let mut storage = MockStorage::new();
    instantiated(&mut storage);
    let mut store = Store::new(&mut storage);
    let resp = contract::exec::donate(&mut store, info("sender", vec![Coin::new(1000, "stake")]));
    assert_eq!(resp, Ok(counter_report("sender", "0")));
    assert_eq!(store.load_counter(), Ok(0));
}

#[test]
fn donate_counts_once_if_any_coin_qualifies() {
    let mut storage = MockStorage::new();
    instantiated(&mut storage);
    let mut store = Store::new(&mut storage);
    let funds = vec![Coin::new(1000, "stake"), atom(3), atom(11), atom(50)];
    let resp = contract::exec::donate(&mut store, info("sender", funds));
    assert_eq!(resp, Ok(counter_report("sender", "1")));
    assert_eq!(store.load_counter(), Ok(1));
}

#[test]
fn donate_fails_before_instantiation() {
    let mut storage = MockStorage::new();
    let mut store = Store::new(&mut storage);
    let resp = contract::exec::donate(&mut store, info("sender", vec![atom(10)]));
    assert_eq!(resp, Err(ContractError::StorageUninitialized));
    assert_eq!(store.load_counter(), Err(ContractError::StorageUninitialized));

    assert_eq!(store.save_minimal_donation(&atom(10)), Ok(()));
    let resp = contract::exec::donate(&mut store, info("sender", vec![atom(10)]));
    assert_eq!(resp, Err(ContractError::StorageUninitialized));
}

#[test]
fn donate_at_the_largest_counter_overflows() {
    let mut storage = MockStorage::new();
    instantiated(&mut storage);
    let mut store = Store::new(&mut storage);
    assert_eq!(store.save_counter(u64::MAX - 1), Ok(()));
    let resp = contract::exec::donate(&mut store, info("sender", vec![atom(10)]));
    assert_eq!(resp, Ok(counter_report("sender", "18446744073709551615")));
    let resp = contract::exec::donate(&mut store, info("sender", vec![atom(10)]));
    assert_eq!(resp, Err(ContractError::CounterOverflow));
    assert_eq!(store.load_counter(), Ok(u64::MAX));
    let resp = contract::exec::donate(&mut store, info("sender", vec![atom(1)]));
    assert_eq!(resp, Ok(counter_report("sender", "18446744073709551615")));
}

#[test]
fn poke_counts_for_anyone() {
    let mut storage = MockStorage::new();
    instantiated(&mut storage);
    let mut store = Store::new(&mut storage);
    assert_eq!(
        contract::exec::poke(&mut store, info("anyone", vec![])),
        Ok(counter_report("anyone", "1"))
    );
    assert_eq!(
        contract::exec::poke(&mut store, info("owner", vec![atom(1)])),
        Ok(counter_report("owner", "2"))
    );
    assert_eq!(store.load_counter(), Ok(2));
}

#[test]
fn poke_fails_before_instantiation_and_at_the_largest_counter() {
    let mut storage = MockStorage::new();
    let mut store = Store::new(&mut storage);
    assert_eq!(
        contract::exec::poke(&mut store, info("anyone", vec![])),
        Err(ContractError::StorageUninitialized)
    );
    assert_eq!(store.save_counter(u64::MAX), Ok(()));
    assert_eq!(
        contract::exec::poke(&mut store, info("anyone", vec![])),
        Err(ContractError::CounterOverflow)
    );
    assert_eq!(store.load_counter(), Ok(u64::MAX));
}

#[test]
fn withdraw_by_the_owner_sends_the_whole_balance() {
    let mut storage = MockStorage::new();
    instantiated(&mut storage);
    let store = Store::new(&mut storage);
    let balance = vec![atom(15), Coin::new(2, "stake")];
    let resp = contract::exec::withdraw(&store, info("owner", vec![]), Ok(balance.clone()));
    assert_eq!(
        resp,
        Ok(Response {
            messages: vec![BankMsg::Send { to_address: "owner".to_string(), amount: balance }],
            attributes: vec![attribute("action", "withdraw"), attribute("sender", "owner")],
        })
    );
    assert_eq!(store.load_counter(), Ok(0));
}

#[test]
fn withdraw_of_an_empty_balance_still_sends() {
    let mut storage = MockStorage::new();
    instantiated(&mut storage);
    let store = Store::new(&mut storage);
    let resp = contract::exec::withdraw(&store, info("owner", vec![]), no_balance());
    assert_eq!(
        resp,
        Ok(Response {
            messages: vec![BankMsg::Send { to_address: "owner".to_string(), amount: vec![] }],
            attributes: vec![attribute("action", "withdraw"), attribute("sender", "owner")],
        })
    );
}

#[test]
fn withdraw_by_a_stranger_names_the_owner() {
    let mut storage = MockStorage::new();
    instantiated(&mut storage);
    let store = Store::new(&mut storage);
    let resp = contract::exec::withdraw(&store, info("member", vec![]), Ok(vec![atom(15)]));
    assert_eq!(resp, Err(ContractError::Unauthorized { owner: "owner".to_string() }));
    let resp = contract::exec::withdraw(
        &store,
        info("member", vec![]),
        Err(StdError::generic_err("ledger down")),
    );
    assert_eq!(resp, Err(ContractError::Unauthorized { owner: "owner".to_string() }));
    assert_eq!(store.load_counter(), Ok(0));
    assert_eq!(store.load_owner(), Ok("owner".to_string()));
}

#[test]
fn withdraw_hands_on_the_ledger_error() {
    let mut storage = MockStorage::new();
    instantiated(&mut storage);
    let store = Store::new(&mut storage);
    let resp = contract::exec::withdraw(
        &store,
        info("owner", vec![]),
        Err(StdError::generic_err("ledger down")),
    );
    assert_eq!(resp, Err(ContractError::Host(StdError::generic_err("ledger down"))));
}

#[test]
fn withdraw_fails_before_instantiation() {
    let mut storage = MockStorage::new();
    let store = Store::new(&mut storage);
    let resp = contract::exec::withdraw(&store, info("owner", vec![]), no_balance());
    assert_eq!(resp, Err(ContractError::StorageUninitialized));
}

#[test]
fn execute_maps_each_message_to_its_transition() {
    let mut storage = MockStorage::new();
    instantiated(&mut storage);
    let mut store = Store::new(&mut storage);

    let resp = counting_contract::execute(
        &mut store,
        info("sender", vec![atom(10)]),
        ExecuteMsg::Donate {},
        no_balance(),
    );
    assert_eq!(resp, Ok(counter_report("sender", "1")));

    let resp = counting_contract::execute(
        &mut store,
        info("sender", vec![]),
        ExecuteMsg::Poke {},
        Err(StdError::generic_err("not asked")),
    );
    assert_eq!(resp, Ok(counter_report("sender", "2")));

    let resp = counting_contract::execute(
        &mut store,
        info("owner", vec![]),
        ExecuteMsg::Withdraw {},
        Ok(vec![atom(10)]),
    );
    assert_eq!(
        resp,
        Ok(Response {
            messages: vec![BankMsg::Send {
                to_address: "owner".to_string(),
                amount: vec![atom(10)],
            }],
            attributes: vec![attribute("action", "withdraw"), attribute("sender", "owner")],
        })
    );
    assert_eq!(store.load_counter(), Ok(2));
}

#[test]
fn add_members_and_leave_are_unsupported() {
    let mut storage = MockStorage::new();
    instantiated(&mut storage);
    let mut store = Store::new(&mut storage);
    let resp = counting_contract::execute(
        &mut store,
        info("owner", vec![atom(10)]),
        ExecuteMsg::AddMembers { admins: vec!["bob".to_string()] },
        no_balance(),
    );
    assert_eq!(resp, Err(ContractError::Unsupported));
    let resp = counting_contract::execute(
        &mut store,
        info("owner", vec![atom(10)]),
        ExecuteMsg::Leave {},
        no_balance(),
    );
    assert_eq!(resp, Err(ContractError::Unsupported));
    assert_eq!(store.load_counter(), Ok(0));
    assert_eq!(store.load_owner(), Ok("owner".to_string()));
}

#[test]
fn counter_never_decreases_over_a_run_of_calls() {
    let mut storage = MockStorage::new();
    instantiated(&mut storage);
    let mut store = Store::new(&mut storage);
    let calls = vec![
        (ExecuteMsg::Donate {}, "a", vec![atom(10)]),
        (ExecuteMsg::Donate {}, "b", vec![atom(1)]),
        (ExecuteMsg::Withdraw {}, "owner", vec![]),
        (ExecuteMsg::Withdraw {}, "b", vec![]),
        (ExecuteMsg::Leave {}, "a", vec![]),
        (ExecuteMsg::Poke {}, "c", vec![]),
        (ExecuteMsg::Donate {}, "a", vec![atom(99)]),
    ];
    let mut seen = vec![store.load_counter().unwrap()];
    for (msg, sender, funds) in calls {
        let _ = counting_contract::execute(&mut store, info(sender, funds), msg, no_balance());
        seen.push(store.load_counter().unwrap());
        assert_eq!(store.load_minimal_donation(), Ok(atom(10)));
        assert_eq!(store.load_owner(), Ok("owner".to_string()));
    }
    assert_eq!(seen, vec![0, 1, 1, 1, 1, 1, 2, 3]);
}

#[test]
fn meets_threshold_looks_at_every_coin() {
    let threshold = atom(10);
    assert!(!meets_threshold(&vec![], &threshold));
    assert!(meets_threshold(&vec![atom(10)], &threshold));
    assert!(meets_threshold(&vec![atom(11)], &threshold));
    assert!(!meets_threshold(&vec![atom(9)], &threshold));
    assert!(!meets_threshold(&vec![Coin::new(10, "atom2")], &threshold));
    assert!(meets_threshold(&vec![atom(1), Coin::new(10, "stake"), atom(10)], &threshold));
    assert!(meets_threshold(&vec![atom(0)], &atom(0)));
}

#[test]
fn decimal_text_of_small_and_large_numbers() {
    assert_eq!(decimal_text(0), "0");
    assert_eq!(decimal_text(7), "7");
    assert_eq!(decimal_text(9), "9");
    assert_eq!(decimal_text(10), "10");
    assert_eq!(decimal_text(101), "101");
    assert_eq!(decimal_text(1234567890), "1234567890");
    assert_eq!(decimal_text(u64::MAX), "18446744073709551615");
}

#[test]
fn decimal_text_agrees_with_the_standard_library() {
    let mut n: u64 = 1;
    for _ in 0..64 {
        assert_eq!(decimal_text(n), n.to_string());
        assert_eq!(decimal_text(n - 1), (n - 1).to_string());
        n = n.wrapping_mul(2);
    }
}

#[test]
fn coin_new_keeps_amount_and_denomination() {
    let coin = Coin::new(10, "atom");
    assert_eq!(coin.amount, 10);
    assert_eq!(coin.denom, "atom");
}

#[test]
fn response_is_built_in_order() {
    let resp = Response::new();
    assert_eq!(resp, Response { messages: vec![], attributes: vec![] });
    let msg = BankMsg::Send { to_address: "x".to_string(), amount: vec![atom(1)] };
    let resp = resp.add_attribute("a", "1").add_message(msg.clone()).add_attribute("b", "2");
    assert_eq!(
        resp,
        Response {
            messages: vec![msg],
            attributes: vec![attribute("a", "1"), attribute("b", "2")],
        }
    );
}

#[test]
fn instantiate_ignores_attached_funds() {
    let mut storage = MockStorage::new();
    let mut store = Store::new(&mut storage);
    let msg = InstantiateMsg { admins: None, minimal_donation: atom(10) };
    let resp = contract::instantiate(&mut store, info("owner", vec![Coin::new(7, "btc")]), msg);
    assert_eq!(resp, Ok(Response::new()));
    assert_eq!(store.load_counter(), Ok(0));
    assert_eq!(store.load_minimal_donation(), Ok(atom(10)));
    assert_eq!(store.load_owner(), Ok("owner".to_string()));
}

#[test]
fn instantiate_rejects_no_threshold() {
    let mut storage = MockStorage::new();
    let mut store = Store::new(&mut storage);
    let msg = InstantiateMsg { admins: None, minimal_donation: Coin::new(0, "") };
    let resp = contract::instantiate(&mut store, info("sender", vec![]), msg);
    assert_eq!(resp, Ok(Response::new()));
    assert_eq!(store.load_minimal_donation(), Ok(Coin::new(0, "")));
    assert_eq!(store.load_counter(), Ok(0));
    assert_eq!(store.load_owner(), Ok("sender".to_string()));
}

#[test]
fn instantiate_writes_over_what_does_not_decode() {
    let mut storage = MockStorage::new();
    storage.set(b"counter", b"not a number");
    storage.set(b"minimal_donation", b"[]");
    storage.set(b"owner", b"17");
    let mut store = Store::new(&mut storage);
    let msg = InstantiateMsg { admins: None, minimal_donation: atom(10) };
    let resp = contract::instantiate(&mut store, info("owner", vec![]), msg);
    assert_eq!(resp, Ok(Response::new()));
    assert_eq!(store.load_counter(), Ok(0));
    assert_eq!(store.load_minimal_donation(), Ok(atom(10)));
    assert_eq!(store.load_owner(), Ok("owner".to_string()));
}

#[test]
fn donation_counts_whatever_the_ledger_said() {
    let mut storage = MockStorage::new();
    instantiated(&mut storage);
    let mut store = Store::new(&mut storage);
    let resp = counting_contract::execute(
        &mut store,
        info("donor", vec![atom(10)]),
        ExecuteMsg::Donate {},
        Err(StdError::generic_err("ledger down")),
    );
    assert_eq!(resp, Ok(counter_report("donor", "1")));
    assert_eq!(store.load_counter(), Ok(1));

    let resp = counting_contract::execute(
        &mut store,
        info("donor", vec![Coin::new(1000, "btc"), atom(5), atom(10)]),
        ExecuteMsg::Donate {},
        Err(StdError::generic_err("ledger down")),
    );
    assert_eq!(resp, Ok(counter_report("donor", "2")));
    assert_eq!(store.load_counter(), Ok(2));
}

#[test]
fn balance_is_needed_only_for_the_owners_withdrawal() {
    let mut storage = MockStorage::new();
    instantiated(&mut storage);
    let store = Store::new(&mut storage);
    let owner = info("owner", vec![]);
    let member = info("member", vec![atom(10)]);
    assert!(counting_contract::needs_balance(&store, &owner, &ExecuteMsg::Withdraw {}));
    assert!(!counting_contract::needs_balance(&store, &member, &ExecuteMsg::Withdraw {}));
    assert!(!counting_contract::needs_balance(&store, &owner, &ExecuteMsg::Donate {}));
    assert!(!counting_contract::needs_balance(&store, &owner, &ExecuteMsg::Poke {}));
    assert!(!counting_contract::needs_balance(&store, &owner, &ExecuteMsg::Leave {}));
    assert!(!counting_contract::needs_balance(
        &store,
        &owner,
        &ExecuteMsg::AddMembers { admins: vec![] }
    ));

    let mut empty = MockStorage::new();
    let store = Store::new(&mut empty);
    assert!(!counting_contract::needs_balance(&store, &owner, &ExecuteMsg::Withdraw {}));
}
