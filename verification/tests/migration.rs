use counting_contract::contract::{instantiate, LegacyRecords};
use counting_contract::error::ContractError;
use counting_contract::migrate;
use counting_contract::msg::{InstantiateMsg, MigrateMsg, QueryMsg};
use counting_contract::query;
use counting_contract::state::{OldState, State};
use counting_contract::types::{Coin, ContractVersion};

fn no_legacy() -> LegacyRecords {
    LegacyRecords { counter: None, minimal_donation: None, old_state: None }
}

#[test]
fn migration() {
    let version = ContractVersion {
        contract: "counting-contract".to_string(),
        version: "0.1.0".to_string(),
    };
    let legacy = LegacyRecords {
        counter: Some(1),
        minimal_donation: Some(Coin::new(10, "atom")),
        old_state: None,
    };
    let out = migrate(version, MigrateMsg { parent: None }, legacy).unwrap();
    assert!(out.update_version);
    let state = out.state.unwrap();
    let resp = query(&state, QueryMsg::Value {});
    assert_eq!(resp.value, 1);
    assert_eq!(
        state,
        State { counter: 1, minimal_donation: Coin::new(10, "atom"), donating_parent: None }
    );
}

#[test]
fn migration_no_update() {
    let out = instantiate(
        "owner".to_string(),
        InstantiateMsg { counter: 1, minimal_donation: Coin::new(10, "atom"), parent: None },
    );
    let r = migrate(out.version, MigrateMsg { parent: None }, no_legacy()).unwrap();
    assert!(r.state.is_none());
    assert!(r.parent_donation.is_none());
    assert!(!r.update_version);
    assert!(r.response.messages.is_empty());
    assert!(r.response.attributes.is_empty());
}

#[test]
fn migration_combined_layout() {
    let version = ContractVersion {
        contract: "counting-contract".to_string(),
        version: "0.2.0".to_string(),
    };
    let legacy = LegacyRecords {
        counter: None,
        minimal_donation: None,
        old_state: Some(OldState { counter: 7, minimal_donation: Coin::new(5, "atom") }),
    };
    let out = migrate(version, MigrateMsg { parent: None }, legacy).unwrap();
    assert!(out.update_version);
    assert_eq!(
        out.state.unwrap(),
        State { counter: 7, minimal_donation: Coin::new(5, "atom"), donating_parent: None }
    );
    assert!(out.parent_donation.is_none());
}

#[test]
fn migration_invalid_name() {
    let version = ContractVersion {
        contract: "some-other-program".to_string(),
        version: "0.1.0".to_string(),
    };
    let err = migrate(version, MigrateMsg { parent: None }, no_legacy()).unwrap_err();
    assert_eq!(err, ContractError::InvalidName("some-other-program".to_string()));
}

#[test]
fn migration_invalid_version() {
    let version = ContractVersion {
        contract: "counting-contract".to_string(),
        version: "0.0.7".to_string(),
    };
    let err = migrate(version, MigrateMsg { parent: None }, no_legacy()).unwrap_err();
    assert_eq!(err, ContractError::InvalidVersion("0.0.7".to_string()));
}

#[test]
fn migration_missing_legacy_records() {
    let version = ContractVersion {
        contract: "counting-contract".to_string(),
        version: "0.1.0".to_string(),
    };
    let err = migrate(version, MigrateMsg { parent: None }, no_legacy()).unwrap_err();
    assert!(matches!(err, ContractError::Std(_)));

    let version = ContractVersion {
        contract: "counting-contract".to_string(),
        version: "0.2.0".to_string(),
    };
    let err = migrate(version, MigrateMsg { parent: None }, no_legacy()).unwrap_err();
    assert!(matches!(err, ContractError::Std(_)));
}
