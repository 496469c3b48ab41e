use bike_share::registry::{Bike, Contract};
use bike_share::settlement::{SettlementConfig, SettlementResult};
use bike_share::state::BikeError;

fn test_config() -> SettlementConfig {
    SettlementConfig {
        ft_contract_account: "sub.ft_jk.testnet".to_string(),
        reward_amount: 15,
    }
}

#[test]
fn check_default() {
    let init_num = 5;
    let contract = Contract::new(init_num);

    assert_eq!(contract.num_of_bikes(), init_num);
    for i in 0..init_num {
        assert!(contract.is_available(i).unwrap())
    }
}

#[test]
fn check_inspecting_account() {
    let mut contract = Contract::new(5);

    let test_index = contract.num_of_bikes() - 1;
    contract.inspect_bike(test_index, "bob".to_string()).unwrap();

    for i in 0..contract.num_of_bikes() {
        if i == test_index {
            assert_eq!("bob", contract.who_is_inspecting(i).unwrap().unwrap());
        } else {
            assert!(contract.is_available(i).unwrap())
        }
    }
}

#[test]
fn return_by_other_account() {
    let mut contract = Contract::new(5);

    contract.inspect_bike(0, "bob".to_string()).unwrap();

    let r = contract.return_bike(0, "charlie".to_string(), &test_config());
    assert_eq!(r.unwrap_err(), BikeError::Unauthorized);
    assert_eq!(contract.who_is_inspecting(0).unwrap().unwrap(), "bob");
}

#[test]
fn fresh_empty_registry() {
    let contract = Contract::new(0);
    assert_eq!(contract.num_of_bikes(), 0);
    assert_eq!(
        contract.is_available(0).unwrap_err(),
        BikeError::IndexOutOfRange
    );
}

#[test]
fn begin_on_unavailable_fails() {
    let mut contract = Contract::new(2);
    contract.use_bike(0, "alice".to_string()).unwrap();
    contract.inspect_bike(1, "bob".to_string()).unwrap();

    // A bike in use can be neither used nor inspected.
    assert_eq!(
        contract.use_bike(0, "bob".to_string()).unwrap_err(),
        BikeError::NotAvailable
    );
    assert_eq!(
        contract.inspect_bike(0, "bob".to_string()).unwrap_err(),
        BikeError::NotAvailable
    );
    // A bike under inspection can be neither used nor inspected.
    assert_eq!(
        contract.use_bike(1, "alice".to_string()).unwrap_err(),
        BikeError::NotAvailable
    );
    assert_eq!(
        contract.inspect_bike(1, "alice".to_string()).unwrap_err(),
        BikeError::NotAvailable
    );
    // Nothing changed.
    assert_eq!(contract.who_is_using(0).unwrap().unwrap(), "alice");
    assert_eq!(contract.who_is_inspecting(1).unwrap().unwrap(), "bob");
}

#[test]
fn use_then_wrong_return() {
    let mut contract = Contract::new(3);
    contract.use_bike(1, "alice".to_string()).unwrap();

    assert_eq!(contract.who_is_using(1).unwrap().unwrap(), "alice");
    assert!(!contract.is_available(1).unwrap());
    assert_eq!(contract.who_is_inspecting(1).unwrap(), None);

    let r = contract.return_bike(1, "bob".to_string(), &test_config());
    assert_eq!(r.unwrap_err(), BikeError::Unauthorized);
    assert_eq!(contract.who_is_using(1).unwrap().unwrap(), "alice");
}

#[test]
fn use_then_return_is_synchronous() {
    let mut contract = Contract::new(3);
    contract.use_bike(2, "alice".to_string()).unwrap();

    let r = contract.return_bike(2, "alice".to_string(), &test_config());
    // No settlement action: nothing external to do.
    assert!(r.unwrap().is_none());
    assert!(contract.is_available(2).unwrap());
}

#[test]
fn inspect_then_return_starts_settlement() {
    let mut contract = Contract::new(3);
    contract.inspect_bike(0, "bob".to_string()).unwrap();

    let action = contract
        .return_bike(0, "bob".to_string(), &test_config())
        .unwrap()
        .expect("a settlement must be started");

    assert_eq!(action.ft_contract_account, "sub.ft_jk.testnet");
    assert_eq!(action.request.receiver_id, "bob");
    assert_eq!(action.request.amount, "15");
    assert!(action.request.memo.is_none());
    assert_eq!(action.callback_index, 0);

    // The bike is still under inspection until the settlement resolves.
    assert!(!contract.is_available(0).unwrap());
    assert_eq!(contract.who_is_inspecting(0).unwrap().unwrap(), "bob");
}

#[test]
fn settlement_success_releases_bike() {
    let mut contract = Contract::new(3);
    contract.inspect_bike(0, "bob".to_string()).unwrap();
    let action = contract
        .return_bike(0, "bob".to_string(), &test_config())
        .unwrap()
        .unwrap();

    contract
        .callback_return_bike(action.callback_index, SettlementResult::Successful)
        .unwrap();
    assert!(contract.is_available(0).unwrap());
    assert_eq!(contract.who_is_inspecting(0).unwrap(), None);
}

#[test]
fn settlement_failure_keeps_bike_in_inspection() {
    let mut contract = Contract::new(3);
    contract.inspect_bike(0, "bob".to_string()).unwrap();
    let action = contract
        .return_bike(0, "bob".to_string(), &test_config())
        .unwrap()
        .unwrap();

    let r = contract.callback_return_bike(action.callback_index, SettlementResult::Failed);
    assert_eq!(r.unwrap_err(), BikeError::ExternalTransferFailed);
    assert!(!contract.is_available(0).unwrap());
    assert_eq!(contract.who_is_inspecting(0).unwrap().unwrap(), "bob");
}

#[test]
fn full_settlement_scenario() {
    // Five bikes; bob inspects bike 0, returns it, and the reward transfer
    // of the fixed amount succeeds: bike 0 is available again and no other
    // bike was touched.
    let mut contract = Contract::new(5);
    contract.inspect_bike(0, "bob".to_string()).unwrap();

    let action = contract
        .return_bike(0, "bob".to_string(), &test_config())
        .unwrap()
        .expect("a settlement must be started");
    assert_eq!(action.request.receiver_id, "bob");
    assert_eq!(action.request.amount, "15");

    contract
        .callback_return_bike(action.callback_index, SettlementResult::Successful)
        .unwrap();

    for i in 0..contract.num_of_bikes() {
        assert!(contract.is_available(i).unwrap());
        assert_eq!(contract.who_is_using(i).unwrap(), None);
        assert_eq!(contract.who_is_inspecting(i).unwrap(), None);
    }
}

#[test]
fn wrong_account_cannot_end_inspection() {
    let mut contract = Contract::new(5);
    contract.inspect_bike(0, "bob".to_string()).unwrap();

    let r = contract.return_bike(0, "carol".to_string(), &test_config());
    assert_eq!(r.unwrap_err(), BikeError::Unauthorized);
    assert_eq!(contract.who_is_inspecting(0).unwrap().unwrap(), "bob");
}

#[test]
fn index_out_of_range_changes_nothing() {
    let mut contract = Contract::new(5);

    assert_eq!(
        contract.is_available(7).unwrap_err(),
        BikeError::IndexOutOfRange
    );
    assert_eq!(
        contract.who_is_using(7).unwrap_err(),
        BikeError::IndexOutOfRange
    );
    assert_eq!(
        contract.who_is_inspecting(7).unwrap_err(),
        BikeError::IndexOutOfRange
    );
    assert_eq!(
        contract.use_bike(7, "bob".to_string()).unwrap_err(),
        BikeError::IndexOutOfRange
    );
    assert_eq!(
        contract.inspect_bike(7, "bob".to_string()).unwrap_err(),
        BikeError::IndexOutOfRange
    );
    assert_eq!(
        contract
            .return_bike(7, "bob".to_string(), &test_config())
            .unwrap_err(),
        BikeError::IndexOutOfRange
    );
    assert_eq!(
        contract
            .callback_return_bike(7, SettlementResult::Successful)
            .unwrap_err(),
        BikeError::IndexOutOfRange
    );

    for i in 0..contract.num_of_bikes() {
        assert!(contract.is_available(i).unwrap());
    }
}

#[test]
fn return_of_available_bike_fails() {
    let mut contract = Contract::new(1);
    let r = contract.return_bike(0, "bob".to_string(), &test_config());
    assert_eq!(r.unwrap_err(), BikeError::AlreadyAvailable);
    assert!(contract.is_available(0).unwrap());
}

#[test]
fn reward_amount_follows_config() {
    let mut contract = Contract::new(1);
    contract.inspect_bike(0, "dana".to_string()).unwrap();

    let config = SettlementConfig {
        ft_contract_account: "tokens.test".to_string(),
        reward_amount: 1000,
    };
    let action = contract
        .return_bike(0, "dana".to_string(), &config)
        .unwrap()
        .unwrap();
    assert_eq!(action.ft_contract_account, "tokens.test");
    assert_eq!(action.request.amount, "1000");
}

#[test]
fn build_settlement_action_directly() {
    let action = Contract::return_inspected_bike(3, "bob".to_string(), &test_config());
    assert_eq!(action.ft_contract_account, "sub.ft_jk.testnet");
    assert_eq!(action.request.receiver_id, "bob");
    assert_eq!(action.request.amount, "15");
    assert!(action.request.memo.is_none());
    assert_eq!(action.callback_index, 3);
}

#[test]
fn states_round_trip() {
    let states = vec![
        Bike::Available,
        Bike::InUse("alice".to_string()),
        Bike::Inspection("bob".to_string()),
    ];
    let contract = Contract::from_states(states);

    assert_eq!(contract.num_of_bikes(), 3);
    assert!(contract.is_available(0).unwrap());
    assert_eq!(contract.who_is_using(1).unwrap().unwrap(), "alice");
    assert_eq!(contract.who_is_inspecting(2).unwrap().unwrap(), "bob");

    match &contract.states()[1] {
        Bike::InUse(holder) => assert_eq!(holder, "alice"),
        _ => panic!("bike 1 must be in use"),
    }
}
