use cosmwasm_std::testing::MockApi;
use cosmwasm_std::{Api, HumanAddr};
use cred_ledger::contract::{handle, init, query, Ledger};
use cred_ledger::error::ContractError;
use cred_ledger::msg::{HandleMsg, InitMsg, QueryMsg, QueryResponse};
use cred_ledger::state::{ContractInfo, PolicyType, State, UserCred};

const TOKEN_HASH: &str = "foocoinhash";
const TEST_CREATOR: &str = "creator";

fn canonical(human: &str) -> Vec<u8> {
    MockApi::new(20)
        .canonical_address(&HumanAddr::from(human))
        .unwrap()
        .as_slice()
        .to_vec()
}

fn token_contract() -> ContractInfo {
    ContractInfo {
        code_hash: TOKEN_HASH.to_string(),
        address: TOKEN_HASH.to_string(),
    }
}

fn mock_init() -> Ledger {
    let msg = InitMsg {
        token_contract: token_contract(),
    };
    init(canonical(TEST_CREATOR), msg)
}

fn assert_registered(deps: &Ledger, cred_id: &str, expected: bool) {
    let res = query(
        deps,
        QueryMsg::IsCredRegistered {
            cred_id: cred_id.to_string(),
        },
    )
    .unwrap();
    match res {
        QueryResponse::CredRegistered(value) => assert_eq!(expected, value.registered),
        other => panic!("unexpected response: {:?}", other),
    }
}

fn assert_config_state(deps: &Ledger, expected: State) {
    match query(deps, QueryMsg::Config {}).unwrap() {
        QueryResponse::Config(value) => assert_eq!(value, expected),
        other => panic!("unexpected response: {:?}", other),
    }
}

fn assert_cred_balance(deps: &Ledger, expected: UserCred) {
    let res = query(
        deps,
        QueryMsg::GetUserCred {
            cred_id: expected.cred_id,
        },
    )
    .unwrap();
    match res {
        QueryResponse::UserCred(value) => assert_eq!(value.total_allocated, expected.total_allocated),
        other => panic!("unexpected response: {:?}", other),
    }
}

fn assert_cred_allocated(deps: &Ledger, cred_id: String, allocation_id: String, expected: bool) {
    let res = query(
        deps,
        QueryMsg::IsAllocated {
            cred_id,
            allocation_id,
        },
    )
    .unwrap();
    match res {
        QueryResponse::CredAllocated(value) => assert_eq!(value.allocated, expected),
        other => panic!("unexpected response: {:?}", other),
    }
}

fn register_msg(alias: Option<String>) -> HandleMsg {
    HandleMsg::RegisterUser {
        cred_id: "cred1".to_string(),
        scrt_address: canonical("secret007"),
        alias,
    }
}

fn cred_with_total(total_allocated: u128) -> UserCred {
    UserCred {
        cred_id: "cred1".to_string(),
        scrt_address: Vec::new(),
        total_allocated,
        allocations: vec![],
        alias: None,
    }
}

#[test]
fn proper_initialization() {
    let deps = mock_init();

    let state = match query(&deps, QueryMsg::Config {}).unwrap() {
        QueryResponse::Config(state) => state,
        other => panic!("unexpected response: {:?}", other),
    };
    assert_eq!(
        state,
        State {
            total_cred: 0,
            total_users: 0,
            token_contract: token_contract(),
            owner: canonical(TEST_CREATOR),
        }
    );
}

#[test]
fn register_cred_and_query_works() {
    let mut deps = mock_init();
    let sender = canonical(TEST_CREATOR);

    let msg = register_msg(Some("secret007".to_string()));
    let _res = handle(&mut deps, &sender, msg).expect("contract successfully registers cred");
    assert_registered(&deps, "cred1", true);

    assert_config_state(
        &deps,
        State {
            total_cred: 0,
            total_users: 1,
            token_contract: token_contract(),
            owner: canonical(TEST_CREATOR),
        },
    );

    assert_cred_balance(&deps, cred_with_total(0));
}

#[test]
fn allocate_cred_works() {
    let mut deps = mock_init();
    let sender = canonical(TEST_CREATOR);

    let _res = handle(&mut deps, &sender, register_msg(None)).expect("contract successfully registers cred");
    assert_registered(&deps, "cred1", true);

    let msg = HandleMsg::Allocate {
        allocation_id: "allocation 1".to_string(),
        policy_type: PolicyType::Balanced,
        cred_id: "cred1".to_string(),
        amount: 100u128,
    };
    let _res = handle(&mut deps, &sender, msg).expect("contract successfully allocates cred");

    assert_config_state(
        &deps,
        State {
            total_cred: 100u128,
            total_users: 1,
            token_contract: token_contract(),
            owner: canonical(TEST_CREATOR),
        },
    );
    assert_cred_balance(&deps, cred_with_total(100u128));
    assert_cred_allocated(&deps, "cred1".to_string(), "allocation 1".to_string(), true);
}

#[test]
fn allocate_cred_twice_works() {
    let mut deps = mock_init();
    let sender = canonical(TEST_CREATOR);

    let _res = handle(&mut deps, &sender, register_msg(None)).expect("contract successfully registers cred");
    assert_registered(&deps, "cred1", true);

    let msg = HandleMsg::Allocate {
        allocation_id: "allocation 1".to_string(),
        policy_type: PolicyType::Balanced,
        cred_id: "cred1".to_string(),
        amount: 14708428991047254000u128,
    };
    let _res = handle(&mut deps, &sender, msg).expect("contract successfully allocates cred");

    assert_config_state(
        &deps,
        State {
            total_cred: 14708428991047254000u128,
            total_users: 1,
            token_contract: token_contract(),
            owner: canonical(TEST_CREATOR),
        },
    );
    assert_cred_balance(&deps, cred_with_total(14708428991047254000u128));

    let msg = HandleMsg::Allocate {
        allocation_id: "allocation 2".to_string(),
        policy_type: PolicyType::Balanced,
        cred_id: "cred1".to_string(),
        amount: 29416857982094508000u128,
    };
    let handle_res = handle(&mut deps, &sender, msg).expect("contract successfully allocates more cred");
    let _msg = handle_res.messages.get(0).expect("no message");

    assert_config_state(
        &deps,
        State {
            total_cred: 44125286973141762000u128,
            total_users: 1,
            token_contract: token_contract(),
            owner: canonical(TEST_CREATOR),
        },
    );
    assert_cred_balance(&deps, cred_with_total(44125286973141762000u128));
}

#[test]
fn allocate_cred_duplicate_fails() {
    let mut deps = mock_init();
    let sender = canonical(TEST_CREATOR);

    let _res = handle(&mut deps, &sender, register_msg(None)).expect("contract successfully registers cred");
    assert_registered(&deps, "cred1", true);

    let msg = HandleMsg::Allocate {
        allocation_id: "allocation 1".to_string(),
        policy_type: PolicyType::Balanced,
        cred_id: "cred1".to_string(),
        amount: 100u128,
    };
    let _res = handle(&mut deps, &sender, msg.clone()).expect("contract successfully allocates cred");

    let expected_state = State {
        total_cred: 100u128,
        total_users: 1,
        token_contract: token_contract(),
        owner: canonical(TEST_CREATOR),
    };
    assert_config_state(&deps, expected_state.clone());
    assert_cred_balance(&deps, cred_with_total(100u128));

    let res = handle(&mut deps, &sender, msg);
    match res {
        Ok(_) => panic!("expected error"),
        Err(ContractError::DuplicateAllocation) => {
            assert_eq!(ContractError::DuplicateAllocation.message(), "Already allocated")
        }
        Err(e) => panic!("unexpected error: {:?}", e),
    }

    assert_config_state(&deps, expected_state);
    assert_cred_balance(&deps, cred_with_total(100u128));
}

#[test]
fn register_twice_fails() {
    let mut deps = mock_init();
    let sender = canonical(TEST_CREATOR);

    let msg = register_msg(None);
    let _res = handle(&mut deps, &sender, msg.clone()).expect("contract successfully registers cred");
    assert_registered(&deps, "cred1", true);
    let res = handle(&mut deps, &sender, msg);
    match res {
        Ok(_) => panic!("expected error"),
        Err(ContractError::AlreadyExists) => {
            assert_eq!(ContractError::AlreadyExists.message(), "User already exists")
        }
        Err(e) => panic!("unexpected error: {:?}", e),
    }
}
