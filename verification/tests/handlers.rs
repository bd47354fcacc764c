use counting_contract::contract::instantiate;
use counting_contract::error::ContractError;
use counting_contract::execute;
use counting_contract::msg::{ExecMsg, InstantiateMsg, QueryMsg, ValueResp};
use counting_contract::query;
use counting_contract::types::Coin;

#[test]
fn lib_query_value() {
    let out = instantiate(
        "sender".to_string(),
        InstantiateMsg { counter: 20, minimal_donation: Coin::new(10, "atom"), parent: None },
    );
    let resp = query(&out.state, QueryMsg::Value {});
    assert_eq!(resp, ValueResp { value: 20 });
}

#[test]
fn lib_donate() {
    let out = instantiate(
        "sender".to_string(),
        InstantiateMsg { counter: 0, minimal_donation: Coin::new(10, "atom"), parent: None },
    );
    let r = execute(
        ExecMsg::Donate {},
        "sender".to_string(),
        vec![],
        out.state,
        out.parent_donation,
        out.owner,
        vec![],
    )
    .unwrap();
    let resp = query(&r.state, QueryMsg::Value {});
    assert_eq!(resp, ValueResp { value: 0 });
}

#[test]
fn expecting_no_funds() {
    let out = instantiate(
        "sender".to_string(),
        InstantiateMsg { counter: 0, minimal_donation: Coin::new(0, "atom"), parent: None },
    );
    let r = execute(
        ExecMsg::Donate {},
        "sender".to_string(),
        vec![],
        out.state,
        out.parent_donation,
        out.owner,
        vec![],
    )
    .unwrap();
    let resp = query(&r.state, QueryMsg::Value {});
    assert_eq!(resp, ValueResp { value: 1 });
}

#[test]
fn reset() {
    let out = instantiate(
        "sender".to_string(),
        InstantiateMsg { counter: 0, minimal_donation: Coin::new(10, "atom"), parent: None },
    );
    let r = execute(
        ExecMsg::Reset { counter: 10 },
        "sender".to_string(),
        vec![],
        out.state,
        out.parent_donation,
        out.owner,
        vec![],
    )
    .unwrap();
    let resp = query(&r.state, QueryMsg::Value {});
    assert_eq!(resp, ValueResp { value: 10 });
}

#[test]
fn query_incremented() {
    let out = instantiate(
        "sender".to_string(),
        InstantiateMsg { counter: 0, minimal_donation: Coin::new(10, "atom"), parent: None },
    );
    let resp = query(&out.state, QueryMsg::Incremented { value: 1 });
    assert_eq!(resp, ValueResp { value: 2 });
}

#[test]
fn lib_unauthorized_withdraw() {
    let out = instantiate(
        "owner".to_string(),
        InstantiateMsg { counter: 0, minimal_donation: Coin::new(10, "atom"), parent: None },
    );
    let err = execute(
        ExecMsg::Withdraw {},
        "member".to_string(),
        vec![],
        out.state,
        out.parent_donation,
        out.owner,
        vec![],
    )
    .unwrap_err();
    assert_eq!(ContractError::Unauthorized { owner: "owner".to_string() }, err);
}

#[test]
fn tests_query_value() {
    let out = instantiate(
        "sender".to_string(),
        InstantiateMsg { counter: 1, minimal_donation: Coin::new(10, "atom"), parent: None },
    );
    let resp = query(&out.state, QueryMsg::Value {});
    assert_eq!(resp.value, 1);
}

#[test]
fn tests_donate() {
    let out = instantiate(
        "owner".to_string(),
        InstantiateMsg { counter: 1, minimal_donation: Coin::new(10, "atom"), parent: None },
    );
    let r = execute(
        ExecMsg::Donate {},
        "sender".to_string(),
        vec![],
        out.state,
        out.parent_donation,
        out.owner,
        vec![],
    )
    .unwrap();
    let resp = query(&r.state, QueryMsg::Value {});
    assert_eq!(resp.value, 1);
}

#[test]
fn tests_unauthorized_withdraw() {
    let out = instantiate(
        "owner".to_string(),
        InstantiateMsg { counter: 1, minimal_donation: Coin::new(10, "atom"), parent: None },
    );
    let err = execute(
        ExecMsg::Withdraw {},
        "member".to_string(),
        vec![],
        out.state,
        out.parent_donation,
        out.owner,
        vec![],
    )
    .unwrap_err();
    assert_eq!(err, ContractError::Unauthorized { owner: "owner".to_string() });
}
