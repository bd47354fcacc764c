use counting_contract::contract::instantiate;
use counting_contract::execute;
use counting_contract::fraction::Fraction;
use counting_contract::msg::{ExecMsg, InstantiateMsg, Parent};
use counting_contract::types::{Coin, OutMsg};

#[test]
fn donating_parent() {
    let out = instantiate(
        "owner".to_string(),
        InstantiateMsg {
            counter: 1,
            minimal_donation: Coin::new(10, "atom"),
            parent: Some(Parent {
                addr: "parent".to_string(),
                donating_period: 2,
                part: Fraction::percent(10),
            }),
        },
    );
    assert_eq!(out.state.donating_parent, Some(2));
    let parent_donation = out.parent_donation.clone();

    // first qualifying donation of 10 units: countdown 2 -> 1, no forward
    let r1 = execute(
        ExecMsg::Donate {},
        "sender".to_string(),
        vec![Coin::new(10, "atom")],
        out.state,
        parent_donation.clone(),
        out.owner.clone(),
        vec![Coin::new(10, "atom")],
    )
    .unwrap();
    assert_eq!(r1.state.donating_parent, Some(1));
    assert!(r1.response.messages.is_empty());

    // second qualifying donation: the program now holds 20 units;
    // 10% of them go to the parent and the countdown resets to 2
    let r2 = execute(
        ExecMsg::Donate {},
        "sender".to_string(),
        vec![Coin::new(10, "atom")],
        r1.state,
        parent_donation,
        out.owner,
        vec![Coin::new(20, "atom")],
    )
    .unwrap();
    assert_eq!(
        r2.response.messages,
        vec![OutMsg::DonateToParent {
            contract_addr: "parent".to_string(),
            funds: vec![Coin::new(2, "atom")],
        }]
    );
    assert_eq!(r2.state.donating_parent, Some(2));
    let forwarded = match &r2.response.messages[0] {
        OutMsg::DonateToParent { funds, .. } => funds[0].amount,
        _ => panic!("expected a forward to the parent"),
    };
    assert_eq!(forwarded, 2);
    assert_eq!(20 - forwarded, 18);
}

#[test]
fn forward_attribute_names_parent() {
    let out = instantiate(
        "owner".to_string(),
        InstantiateMsg {
            counter: 0,
            minimal_donation: Coin::new(0, "atom"),
            parent: Some(Parent {
                addr: "parent".to_string(),
                donating_period: 1,
                part: Fraction::percent(50),
            }),
        },
    );
    let r = execute(
        ExecMsg::Donate {},
        "sender".to_string(),
        vec![],
        out.state,
        out.parent_donation,
        out.owner,
        vec![Coin::new(9, "atom")],
    )
    .unwrap();
    // period of one: every qualifying donation forwards, floor(9 * 50%) = 4
    assert_eq!(r.response.attributes.len(), 4);
    assert_eq!(r.response.attributes[0].key, "donated_to_parent");
    assert_eq!(r.response.attributes[0].value, "parent");
    assert_eq!(
        r.response.messages,
        vec![OutMsg::DonateToParent {
            contract_addr: "parent".to_string(),
            funds: vec![Coin::new(4, "atom")],
        }]
    );
    assert_eq!(r.state.donating_parent, Some(1));
}

#[test]
fn fraction_mul_floor_exact() {
    assert_eq!(Fraction::percent(10).mul_floor(20), 2);
    assert_eq!(Fraction::percent(10).mul_floor(15), 1);
    assert_eq!(Fraction::percent(10).mul_floor(9), 0);
    assert_eq!(Fraction::percent(0).mul_floor(1000), 0);
    assert_eq!(Fraction::percent(100).mul_floor(1000), 1000);
    assert_eq!(Fraction::percent(33).mul_floor(100), 33);
}

#[test]
fn fraction_mul_floor_large_amounts() {
    // amounts far above the fixed-point unit exercise the split path
    assert_eq!(Fraction::percent(100).mul_floor(u128::MAX), u128::MAX);
    assert_eq!(Fraction::percent(50).mul_floor(u128::MAX), u128::MAX / 2);
    assert_eq!(
        Fraction::percent(10).mul_floor(10_000_000_000_000_000_000_000),
        1_000_000_000_000_000_000_000
    );
}
