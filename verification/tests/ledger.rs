use cosmwasm_std::testing::mock_dependencies;
use cosmwasm_std::{Addr, MemoryStorage, Storage};
use simple_terra_dapp::contract::{
    can_execute, execute, execute_checked, get_owner, get_score, get_score_for_token, instantiate,
    query, try_set_score, CONTRACT_NAME, CONTRACT_VERSION, NO_SCORE,
};
use simple_terra_dapp::error::ContractError;
use simple_terra_dapp::msg::{ExecuteMsg, InstantiateMsg, MessageInfo, QueryMsg, QueryResponse};
use simple_terra_dapp::state::{SCORE_BY_ADDRESS, SCORE_BY_ADDRESS_AND_TOKEN, STATE};

fn sender(name: &str) -> MessageInfo {
    MessageInfo { sender: name.to_string() }
}

fn set(user: &str, token: &str, score: i32) -> ExecuteMsg {
    ExecuteMsg::SetScore {
        user_address: user.to_string(),
        token_address: token.to_string(),
        score,
    }
}

fn fresh(owner: &str) -> MemoryStorage {
    let mut storage = MemoryStorage::new();
    instantiate(&mut storage, sender(owner), InstantiateMsg {}).unwrap();
    storage
}

fn score(storage: &MemoryStorage, address: &str) -> i32 {
    let response = get_score(storage, address.to_string()).unwrap();
    assert_eq!(address, response.user_address);
    response.score
}

fn token_score(storage: &MemoryStorage, user: &str, token: &str) -> i32 {
    let response = get_score_for_token(storage, user.to_string(), token.to_string()).unwrap();
    assert_eq!(user, response.user_address);
    assert_eq!(token, response.token_address);
    response.score
}

fn dump(storage: &MemoryStorage) -> String {
    format!("{:?}", storage)
}

fn score_key(address: &str) -> Vec<u8> {
    cw_storage_plus::Map::<Addr, i32>::new(SCORE_BY_ADDRESS).key(Addr::unchecked(address)).to_vec()
}

fn token_score_key(address: &str, token: &str) -> Vec<u8> {
    cw_storage_plus::Map::<(Addr, Addr), i32>::new(SCORE_BY_ADDRESS_AND_TOKEN)
        .key((Addr::unchecked(address), Addr::unchecked(token)))
        .to_vec()
}

#[test]
fn instantiate_answers_with_method_and_owner() {
    let mut deps = mock_dependencies();
    let res = instantiate(&mut deps.storage, sender("creator"), InstantiateMsg {}).unwrap();
    assert_eq!(2, res.attributes.len());
    assert_eq!("method", res.attributes[0].key);
    assert_eq!("instantiate", res.attributes[0].value);
    assert_eq!("owner", res.attributes[1].key);
    assert_eq!("creator", res.attributes[1].value);
    assert_eq!(0, res.messages.len());
    assert_eq!(0, res.events.len());
    assert!(res.data.is_none());
}

#[test]
fn instantiate_registers_name_and_version() {
    let storage = fresh("creator");
    let version = cw2::get_contract_version(&storage).unwrap();
    assert_eq!("crates.io:simple-terra-dapp", version.contract);
    assert_eq!("0.1.0", version.version);
    assert_eq!(CONTRACT_NAME, version.contract);
    assert_eq!(CONTRACT_VERSION, version.version);
}

#[test]
fn instantiate_keeps_the_owner_under_the_state_key() {
    let storage = fresh("creator");
    assert_eq!("state", STATE);
    assert_eq!(Some(b"\"creator\"".to_vec()), storage.get(b"state"));
}

#[test]
fn instantiate_leaves_existing_scores() {
    let mut storage = fresh("first");
    execute(&mut storage, sender("first"), set("alice", "gold", 3)).unwrap();
    instantiate(&mut storage, sender("second"), InstantiateMsg {}).unwrap();
    assert_eq!("second", get_owner(&storage).unwrap().owner);
    assert_eq!(3, score(&storage, "alice"));
    assert_eq!(3, token_score(&storage, "alice", "gold"));
}

#[test]
fn owner_is_whoever_instantiated() {
    for name in ["creator", "", "terra1xyz", "a b", "quote\"back\\slash", "tab\tline\n", "héllo€😀"] {
        let storage = fresh(name);
        assert_eq!(name, get_owner(&storage).unwrap().owner);
        match query(&storage, QueryMsg::GetOwner {}).unwrap() {
            QueryResponse::Owner(response) => assert_eq!(name, response.owner),
            other => panic!("not an owner: {:?}", other),
        }
    }
}

#[test]
fn owner_stays_after_commands() {
    let mut storage = fresh("creator");
    execute(&mut storage, sender("creator"), set("alice", "gold", 1)).unwrap();
    assert!(execute(&mut storage, sender("alice"), set("alice", "gold", 2)).is_err());
    execute(&mut storage, sender("creator"), set("creator", "creator", 9)).unwrap();
    assert_eq!("creator", get_owner(&storage).unwrap().owner);
}

#[test]
fn owner_cannot_be_read_before_instantiate() {
    let storage = MemoryStorage::new();
    assert!(get_owner(&storage).is_err());
    assert!(query(&storage, QueryMsg::GetOwner {}).is_err());
}

#[test]
fn set_score_before_instantiate_is_a_storage_error() {
    let mut storage = MemoryStorage::new();
    let before = dump(&storage);
    let result = execute(&mut storage, sender("creator"), set("alice", "gold", 5));
    assert!(matches!(result, Err(ContractError::Std(_))));
    assert_eq!(before, dump(&storage));
}

#[test]
fn set_score_answers_with_method() {
    let mut storage = fresh("creator");
    let res = execute(&mut storage, sender("creator"), set("alice", "gold", 5)).unwrap();
    assert_eq!(1, res.attributes.len());
    assert_eq!("method", res.attributes[0].key);
    assert_eq!("set_score", res.attributes[0].value);
    assert_eq!(0, res.messages.len());
    assert_eq!(0, res.events.len());
    assert!(res.data.is_none());
}

#[test]
fn set_score_writes_under_the_two_namespaces() {
    let mut storage = fresh("creator");
    execute(&mut storage, sender("creator"), set("alice", "gold", 5)).unwrap();
    assert_eq!("score_by_address", SCORE_BY_ADDRESS);
    assert_eq!("score_by_address_and_token", SCORE_BY_ADDRESS_AND_TOKEN);
    assert_eq!(Some(b"5".to_vec()), storage.get(b"\x00\x10score_by_addressalice"));
    assert_eq!(
        Some(b"5".to_vec()),
        storage.get(b"\x00\x1ascore_by_address_and_token\x00\x05alicegold")
    );
}

#[test]
fn address_never_scored_reads_minimum() {
    let mut storage = fresh("creator");
    assert_eq!(i32::MIN, NO_SCORE);
    assert_eq!(i32::MIN, score(&storage, "bob"));
    execute(&mut storage, sender("creator"), set("alice", "gold", 5)).unwrap();
    execute(&mut storage, sender("creator"), set("alice", "bob", 6)).unwrap();
    execute(&mut storage, sender("creator"), set("bo", "b", 7)).unwrap();
    assert_eq!(i32::MIN, score(&storage, "bob"));
    assert_eq!(i32::MIN, score(&storage, "gold"));
    assert_eq!(i32::MIN, score(&storage, ""));
}

#[test]
fn pair_never_scored_reads_minimum() {
    let mut storage = fresh("creator");
    assert_eq!(i32::MIN, token_score(&storage, "alice", "gold"));
    execute(&mut storage, sender("creator"), set("alice", "gold", 5)).unwrap();
    execute(&mut storage, sender("creator"), set("bob", "silver", 6)).unwrap();
    assert_eq!(i32::MIN, token_score(&storage, "alice", "silver"));
    assert_eq!(i32::MIN, token_score(&storage, "bob", "gold"));
    assert_eq!(i32::MIN, token_score(&storage, "gold", "alice"));
    assert_eq!(i32::MIN, token_score(&storage, "alic", "egold"));
    assert_eq!(i32::MIN, token_score(&storage, "aliceg", "old"));
    assert_eq!(i32::MIN, token_score(&storage, "", "alicegold"));
}

#[test]
fn stranger_is_refused_and_changes_nothing() {
    let mut storage = fresh("creator");
    execute(&mut storage, sender("creator"), set("alice", "gold", 5)).unwrap();
    let before = dump(&storage);
    let result = execute(&mut storage, sender("anyone"), set("alice", "gold", 9));
    assert!(matches!(result, Err(ContractError::Unauthorized {})));
    let result = try_set_score(&mut storage, sender("anyone"), "anyone".to_string(), "anyone".to_string(), 5);
    assert!(matches!(result, Err(ContractError::Unauthorized {})));
    let result = execute(&mut storage, sender(""), set("bob", "gold", 1));
    assert!(matches!(result, Err(ContractError::Unauthorized {})));
    assert_eq!(before, dump(&storage));
    assert_eq!(5, score(&storage, "alice"));
    assert_eq!(5, token_score(&storage, "alice", "gold"));
    assert_eq!(i32::MIN, score(&storage, "anyone"));
    assert_eq!(i32::MIN, token_score(&storage, "anyone", "anyone"));
    assert_eq!(i32::MIN, score(&storage, "bob"));
    assert_eq!("creator", get_owner(&storage).unwrap().owner);
}

#[test]
fn unauthorized_scenario_keeps_the_sentinel() {
    let mut storage = fresh("creator");
    let result = execute(&mut storage, sender("anyone"), set("anyone", "anyone", 5));
    assert!(matches!(result, Err(ContractError::Unauthorized {})));
    assert_eq!(i32::MIN, score(&storage, "anyone"));
}

#[test]
fn first_score_is_taken_as_it_is() {
    let mut storage = fresh("creator");
    execute(&mut storage, sender("creator"), set("creator", "creator", 5)).unwrap();
    assert_eq!(5, score(&storage, "creator"));
    assert_eq!(5, token_score(&storage, "creator", "creator"));
}

#[test]
fn later_score_moves_the_total_by_the_difference() {
    let mut storage = fresh("creator");
    execute(&mut storage, sender("creator"), set("creator", "creator", 5)).unwrap();
    execute(&mut storage, sender("creator"), set("creator", "creator", 10)).unwrap();
    assert_eq!(10, score(&storage, "creator"));
    assert_eq!(10, token_score(&storage, "creator", "creator"));
    execute(&mut storage, sender("creator"), set("creator", "creator", -4)).unwrap();
    assert_eq!(-4, score(&storage, "creator"));
    assert_eq!(-4, token_score(&storage, "creator", "creator"));
}

#[test]
fn new_token_replaces_the_total() {
    let mut storage = fresh("creator");
    execute(&mut storage, sender("creator"), set("alice", "gold", 5)).unwrap();
    execute(&mut storage, sender("creator"), set("alice", "silver", 7)).unwrap();
    assert_eq!(7, score(&storage, "alice"));
    assert_eq!(5, token_score(&storage, "alice", "gold"));
    assert_eq!(7, token_score(&storage, "alice", "silver"));
    execute(&mut storage, sender("creator"), set("alice", "gold", 6)).unwrap();
    assert_eq!(8, score(&storage, "alice"));
    assert_eq!(6, token_score(&storage, "alice", "gold"));
    execute(&mut storage, sender("creator"), set("alice", "silver", 0)).unwrap();
    assert_eq!(1, score(&storage, "alice"));
    assert_eq!(0, token_score(&storage, "alice", "silver"));
}

#[test]
fn same_command_twice_is_the_same_as_once() {
    let mut once = fresh("creator");
    execute(&mut once, sender("creator"), set("alice", "gold", 5)).unwrap();
    let mut twice = fresh("creator");
    execute(&mut twice, sender("creator"), set("alice", "gold", 5)).unwrap();
    execute(&mut twice, sender("creator"), set("alice", "gold", 5)).unwrap();
    assert_eq!(5, score(&once, "alice"));
    assert_eq!(5, score(&twice, "alice"));
    assert_eq!(5, token_score(&twice, "alice", "gold"));
    assert_eq!(dump(&once), dump(&twice));
}

#[test]
fn same_command_twice_after_other_tokens_keeps_the_total() {
    let mut storage = fresh("creator");
    execute(&mut storage, sender("creator"), set("alice", "gold", 5)).unwrap();
    execute(&mut storage, sender("creator"), set("alice", "silver", 7)).unwrap();
    execute(&mut storage, sender("creator"), set("alice", "gold", 20)).unwrap();
    assert_eq!(22, score(&storage, "alice"));
    let once = dump(&storage);
    execute(&mut storage, sender("creator"), set("alice", "gold", 20)).unwrap();
    assert_eq!(22, score(&storage, "alice"));
    assert_eq!(once, dump(&storage));
}

#[test]
fn zero_is_a_score_and_not_the_lack_of_one() {
    let mut storage = fresh("creator");
    execute(&mut storage, sender("creator"), set("alice", "gold", 0)).unwrap();
    assert_eq!(0, score(&storage, "alice"));
    assert_eq!(0, token_score(&storage, "alice", "gold"));
    assert_eq!(i32::MIN, score(&storage, "bob"));
}

#[test]
fn minimum_can_be_a_real_score() {
    let mut storage = fresh("creator");
    execute(&mut storage, sender("creator"), set("alice", "gold", i32::MIN)).unwrap();
    assert_eq!(i32::MIN, score(&storage, "alice"));
    assert_eq!(i32::MIN, token_score(&storage, "alice", "gold"));
    execute(&mut storage, sender("creator"), set("alice", "gold", i32::MAX)).unwrap();
    assert_eq!(i32::MAX, score(&storage, "alice"));
    assert_eq!(i32::MAX, token_score(&storage, "alice", "gold"));
}

#[test]
fn scores_of_unusual_addresses_are_kept_apart() {
    let mut storage = fresh("creator");
    let names = ["", "a", "aa", "a\u{0}", "\"", "\\", "é", "😀", "gold"];
    let mut next = 1;
    for user in names {
        for token in names {
            execute(&mut storage, sender("creator"), set(user, token, next)).unwrap();
            next += 1;
        }
    }
    let mut expected = 1;
    for user in names {
        for token in names {
            assert_eq!(expected, token_score(&storage, user, token));
            expected += 1;
        }
        assert_eq!(expected - 1, score(&storage, user));
    }
}

#[test]
fn total_beyond_the_range_is_not_executed() {
    let mut storage = fresh("creator");
    execute(&mut storage, sender("creator"), set("alice", "gold", 0)).unwrap();
    execute(&mut storage, sender("creator"), set("alice", "silver", i32::MAX)).unwrap();
    assert_eq!(i32::MAX, score(&storage, "alice"));
    let before = dump(&storage);
    assert!(!can_execute(&storage, &sender("creator"), &set("alice", "gold", 1)));
    assert!(execute_checked(&mut storage, sender("creator"), set("alice", "gold", 1)).is_none());
    assert_eq!(before, dump(&storage));
    assert!(can_execute(&storage, &sender("anyone"), &set("alice", "gold", 1)));
    let refused = execute_checked(&mut storage, sender("anyone"), set("alice", "gold", 1));
    assert!(matches!(refused, Some(Err(ContractError::Unauthorized {}))));
    assert!(can_execute(&storage, &sender("creator"), &set("alice", "gold", 0)));
    assert!(can_execute(&storage, &sender("creator"), &set("alice", "gold", -1)));
    let done = execute_checked(&mut storage, sender("creator"), set("alice", "gold", -1));
    assert!(matches!(done, Some(Ok(_))));
    assert_eq!(i32::MAX - 1, score(&storage, "alice"));
    assert_eq!(-1, token_score(&storage, "alice", "gold"));
}

#[test]
fn total_below_the_range_is_not_executed() {
    let mut storage = fresh("creator");
    execute(&mut storage, sender("creator"), set("alice", "gold", 1)).unwrap();
    execute(&mut storage, sender("creator"), set("alice", "silver", i32::MIN)).unwrap();
    assert!(execute_checked(&mut storage, sender("creator"), set("alice", "gold", 0)).is_none());
    assert!(matches!(
        execute_checked(&mut storage, sender("creator"), set("alice", "gold", 1)),
        Some(Ok(_))
    ));
    assert_eq!(i32::MIN, score(&storage, "alice"));
}

#[test]
fn difference_beyond_the_range_is_fine_where_the_total_fits() {
    let mut storage = fresh("creator");
    execute(&mut storage, sender("creator"), set("alice", "gold", -1)).unwrap();
    execute(&mut storage, sender("creator"), set("alice", "silver", i32::MAX)).unwrap();
    assert!(can_execute(&storage, &sender("creator"), &set("alice", "gold", -5)));
    let done = execute_checked(&mut storage, sender("creator"), set("alice", "gold", -5));
    assert!(matches!(done, Some(Ok(_))));
    assert_eq!(i32::MAX - 4, score(&storage, "alice"));
}

#[test]
fn address_too_long_for_a_pair_is_not_executed() {
    let mut storage = fresh("creator");
    let long = "a".repeat(0x10000);
    let before = dump(&storage);
    assert!(!can_execute(&storage, &sender("creator"), &set(&long, "gold", 1)));
    assert!(execute_checked(&mut storage, sender("creator"), set(&long, "gold", 1)).is_none());
    assert!(!can_execute(&storage, &sender("anyone"), &set(&long, "gold", 1)));
    assert_eq!(before, dump(&storage));
    assert_eq!(i32::MIN, score(&storage, &long));
}

#[test]
fn longest_address_of_a_pair_is_executed() {
    let mut storage = fresh("creator");
    let long = "a".repeat(0xFFFF);
    assert!(can_execute(&storage, &sender("creator"), &set(&long, "gold", 1)));
    let done = execute_checked(&mut storage, sender("creator"), set(&long, "gold", 4));
    assert!(matches!(done, Some(Ok(_))));
    assert_eq!(4, score(&storage, &long));
    assert_eq!(4, token_score(&storage, &long, "gold"));
    let token = "t".repeat(0x10000);
    execute(&mut storage, sender("creator"), set("alice", &token, 2)).unwrap();
    assert_eq!(2, token_score(&storage, "alice", &token));
}

#[test]
fn unreadable_score_is_a_storage_error() {
    let mut storage = fresh("creator");
    storage.set(&score_key("alice"), b"junk");
    assert!(get_score(&storage, "alice".to_string()).is_err());
    assert!(query(&storage, QueryMsg::GetScore { address: "alice".to_string() }).is_err());
    assert_eq!(i32::MIN, token_score(&storage, "alice", "gold"));
    storage.set(&token_score_key("bob", "gold"), b"2147483648");
    assert!(get_score_for_token(&storage, "bob".to_string(), "gold".to_string()).is_err());
    assert_eq!(i32::MIN, score(&storage, "bob"));
}

#[test]
fn unreadable_score_stops_a_command_that_needs_it() {
    let mut storage = fresh("creator");
    execute(&mut storage, sender("creator"), set("alice", "gold", 5)).unwrap();
    storage.set(&score_key("alice"), b"junk");
    let before = dump(&storage);
    assert!(can_execute(&storage, &sender("creator"), &set("alice", "gold", 6)));
    let result = execute(&mut storage, sender("creator"), set("alice", "gold", 6));
    assert!(matches!(result, Err(ContractError::Std(_))));
    assert_eq!(before, dump(&storage));
    assert_eq!(5, token_score(&storage, "alice", "gold"));
}

#[test]
fn unreadable_score_is_overwritten_where_it_is_not_needed() {
    let mut storage = fresh("creator");
    storage.set(&score_key("alice"), b"junk");
    execute(&mut storage, sender("creator"), set("alice", "gold", 6)).unwrap();
    assert_eq!(6, score(&storage, "alice"));
    assert_eq!(6, token_score(&storage, "alice", "gold"));
}

#[test]
fn unreadable_owner_is_a_storage_error() {
    let mut storage = fresh("creator");
    storage.set(b"state", b"{}");
    assert!(get_owner(&storage).is_err());
    let before = dump(&storage);
    let result = execute(&mut storage, sender("creator"), set("alice", "gold", 6));
    assert!(matches!(result, Err(ContractError::Std(_))));
    assert_eq!(before, dump(&storage));
}

#[test]
fn query_answers_each_kind() {
    let mut storage = fresh("creator");
    execute(&mut storage, sender("creator"), set("alice", "gold", 5)).unwrap();
    match query(&storage, QueryMsg::GetScore { address: "alice".to_string() }).unwrap() {
        QueryResponse::Score(response) => {
            assert_eq!("alice", response.user_address);
            assert_eq!(5, response.score);
        }
        other => panic!("not a score: {:?}", other),
    }
    let msg = QueryMsg::GetScoreForToken {
        user_address: "alice".to_string(),
        token_address: "gold".to_string(),
    };
    match query(&storage, msg).unwrap() {
        QueryResponse::ScoreForToken(response) => {
            assert_eq!("alice", response.user_address);
            assert_eq!("gold", response.token_address);
            assert_eq!(5, response.score);
        }
        other => panic!("not a score for a token: {:?}", other),
    }
}
