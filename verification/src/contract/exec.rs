//! Execution handlers: donate, reset, withdraw.
//!
//! Each handler is a pure function from the caller, the records the
//! host loaded, and the queried balances, to the new records and the
//! response.  The host persists the returned state (when asked to)
//! and executes the returned instructions within the same
//! transaction.

use crate::digits::{decimal_chars, u64_to_decimal};
use crate::error::ContractError;
use crate::fraction::Fraction;
use crate::state::{ParentDonation, State};
use crate::types::{attr_is, string_eq, Attribute, Coin, OutMsg, Response};
use vstd::prelude::*;
use vstd::string::StringExecFns;

verus! {

/// What an execution handler hands back to the host: the state
/// record, whether it must be persisted, and the response.
#[derive(Debug)]
pub struct ExecOutcome {
    pub state: State,
    pub save_state: bool,
    pub response: Response,
}

/// One coin meets the threshold: the configured denomination and at
/// least the configured amount.
pub open spec fn coin_qualifies(c: Coin, minimal: Coin) -> bool {
    c.denom@ == minimal.denom@ && c.amount >= minimal.amount
}

/// A donation qualifies when no threshold is configured (zero
/// amount), or when some attached coin meets the threshold.
pub open spec fn donation_qualifies(funds: Seq<Coin>, minimal: Coin) -> bool {
    minimal.amount == 0 || exists|i: int|
        0 <= i < funds.len() && coin_qualifies(#[trigger] funds[i], minimal)
}

/// Decide whether the attached funds qualify.
pub fn qualifies(funds: &Vec<Coin>, minimal: &Coin) -> (b: bool)
    ensures
        b == donation_qualifies(funds@, *minimal),
{
    if minimal.amount == 0 {
        return true;
    }
    let mut i: usize = 0;
    while i < funds.len()
        invariant
            i <= funds@.len(),
            forall|j: int| 0 <= j < i ==> !coin_qualifies(funds@[j], *minimal),
        decreases funds@.len() - i,
    {
        let c = &funds[i];
        if string_eq(&c.denom, &minimal.denom) && c.amount >= minimal.amount {
            assert(coin_qualifies(funds@[i as int], *minimal));
            return true;
        }
        i = i + 1;
    }
    false
}

/// Each balance coin scaled down by `part`, keeping its denomination.
pub open spec fn scaled_funds(balances: Seq<Coin>, part: Fraction) -> Seq<Coin> {
    balances.map_values(|c: Coin| Coin { denom: c.denom, amount: part.spec_scaled(c.amount) })
}

fn scale_funds(balances: Vec<Coin>, part: &Fraction) -> (r: Vec<Coin>)
    requires
        part.wf(),
    ensures
        r@ == scaled_funds(balances@, *part),
{
    let mut out: Vec<Coin> = Vec::new();
    let mut i: usize = 0;
    while i < balances.len()
        invariant
            i <= balances@.len(),
            part.wf(),
            out@.len() == i as int,
            forall|j: int| 0 <= j < i ==> out@[j] == scaled_funds(balances@, *part)[j],
        decreases balances@.len() - i,
    {
        let c = &balances[i];
        let amount = part.mul_floor(c.amount);
        out.push(Coin { denom: c.denom.clone(), amount });
        i = i + 1;
    }
    assert(out@ =~= scaled_funds(balances@, *part));
    out
}

/// The forward to the parent fires exactly when a qualifying donation
/// brings the countdown from one to zero.
pub open spec fn forwards_to_parent(funds: Seq<Coin>, state: State) -> bool {
    donation_qualifies(funds, state.minimal_donation) && state.donating_parent == Some(1u64)
}

/// The countdown after one qualifying donation: decremented, or reset
/// to the configured period when it would reach zero.
pub open spec fn next_countdown(
    current: Option<u64>,
    parent_donation: Option<ParentDonation>,
) -> Option<u64> {
    match current {
        None => None,
        Some(n) => if n == 1 {
            match parent_donation {
                Some(pd) => Some(pd.donating_parent_period),
                None => None,
            }
        } else {
            Some((n - 1) as u64)
        },
    }
}

/// Everything donate promises: the counter moves exactly on
/// qualifying donations and the state is persisted exactly then; the
/// countdown decrements and wraps; the forward instruction carries
/// the scaled balances; the attributes record the action, the caller
/// and the resulting counter.
pub open spec fn donate_post(
    r: ExecOutcome,
    sender: Seq<char>,
    funds: Seq<Coin>,
    state: State,
    parent_donation: Option<ParentDonation>,
    balances: Seq<Coin>,
) -> bool {
    let q = donation_qualifies(funds, state.minimal_donation);
    let fwd = forwards_to_parent(funds, state);
    &&& r.save_state == q
    &&& !q ==> r.state == state
    &&& q ==> r.state == (State {
        counter: (state.counter + 1) as u64,
        minimal_donation: state.minimal_donation,
        donating_parent: next_countdown(state.donating_parent, parent_donation),
    })
    &&& !fwd ==> r.response.messages@.len() == 0
    &&& fwd ==> {
        &&& parent_donation matches Some(pd)
        &&& r.response.messages@.len() == 1
        &&& r.response.messages@[0] matches OutMsg::DonateToParent { contract_addr, funds: f }
            && contract_addr@ == pd.address@ && f@ == scaled_funds(balances, pd.part)
    }
    &&& !fwd ==> {
        &&& r.response.attributes@.len() == 3
        &&& attr_is(r.response.attributes@[0], "action"@, "donate"@)
        &&& attr_is(r.response.attributes@[1], "sender"@, sender)
        &&& attr_is(r.response.attributes@[2], "counter"@, decimal_chars(r.state.counter as nat))
    }
    &&& fwd ==> {
        &&& parent_donation matches Some(pd)
        &&& r.response.attributes@.len() == 4
        &&& attr_is(r.response.attributes@[0], "donated_to_parent"@, pd.address@)
        &&& attr_is(r.response.attributes@[1], "action"@, "donate"@)
        &&& attr_is(r.response.attributes@[2], "sender"@, sender)
        &&& attr_is(r.response.attributes@[3], "counter"@, decimal_chars(r.state.counter as nat))
    }
}

/// Accept a donation.  A qualifying donation increments the counter;
/// when a parent is configured it also advances the countdown, and on
/// the period's last donation emits one instruction forwarding
/// `part` of the held balance to the parent program.  A
/// non-qualifying donation changes nothing and persists nothing.
pub fn donate(
    sender: String,
    funds: Vec<Coin>,
    state: State,
    parent_donation: Option<ParentDonation>,
    balances: Vec<Coin>,
) -> (r: ExecOutcome)
    requires
        state.wf(),
        state.counter < u64::MAX,
        state.donating_parent is Some <==> parent_donation is Some,
        parent_donation matches Some(pd) ==> pd.wf(),
    ensures
        donate_post(r, sender@, funds@, state, parent_donation, balances@),
        r.state.wf(),
{
    let q = qualifies(&funds, &state.minimal_donation);
    let mut messages: Vec<OutMsg> = Vec::new();
    let mut attributes: Vec<Attribute> = Vec::new();
    let new_state: State;
    if q {
        let new_parent: Option<u64>;
        match state.donating_parent {
            None => {
                new_parent = None;
            },
            Some(n) => {
                if n == 1 {
                    match &parent_donation {
                        Some(pd) => {
                            new_parent = Some(pd.donating_parent_period);
                            let scaled = scale_funds(balances, &pd.part);
                            messages.push(OutMsg::DonateToParent {
                                contract_addr: pd.address.clone(),
                                funds: scaled,
                            });
                            attributes.push(Attribute::new("donated_to_parent", pd.address.clone()));
                        },
                        None => {
                            proof {
                                assert(false);
                            }
                            new_parent = None;
                        },
                    }
                } else {
                    new_parent = Some(n - 1);
                }
            },
        }
        new_state = State {
            counter: state.counter + 1,
            minimal_donation: state.minimal_donation,
            donating_parent: new_parent,
        };
    } else {
        new_state = state;
    }
    attributes.push(Attribute::new("action", String::from_str("donate")));
    attributes.push(Attribute::new("sender", sender));
    attributes.push(Attribute::new("counter", u64_to_decimal(new_state.counter)));
    ExecOutcome { state: new_state, save_state: q, response: Response { messages, attributes } }
}

/// Everything reset promises: the counter is overwritten, nothing
/// else moves, and the attributes record the action, the caller and
/// the new counter.
pub open spec fn reset_post(r: ExecOutcome, sender: Seq<char>, counter: u64, state: State) -> bool {
    &&& r.save_state
    &&& r.state == (State {
        counter,
        minimal_donation: state.minimal_donation,
        donating_parent: state.donating_parent,
    })
    &&& r.response.messages@.len() == 0
    &&& r.response.attributes@.len() == 3
    &&& attr_is(r.response.attributes@[0], "action"@, "reset"@)
    &&& attr_is(r.response.attributes@[1], "sender"@, sender)
    &&& attr_is(r.response.attributes@[2], "counter"@, decimal_chars(counter as nat))
}

/// Overwrite the counter with the supplied value.  Deliberately open
/// to any caller; restriction, if wanted, belongs to a higher layer.
pub fn reset(sender: String, counter: u64, state: State) -> (r: ExecOutcome)
    ensures
        reset_post(r, sender@, counter, state),
        state.wf() ==> r.state.wf(),
{
    let new_state = State {
        counter,
        minimal_donation: state.minimal_donation,
        donating_parent: state.donating_parent,
    };
    let mut attributes: Vec<Attribute> = Vec::new();
    attributes.push(Attribute::new("action", String::from_str("reset")));
    attributes.push(Attribute::new("sender", sender));
    attributes.push(Attribute::new("counter", u64_to_decimal(counter)));
    ExecOutcome {
        state: new_state,
        save_state: true,
        response: Response { messages: Vec::new(), attributes },
    }
}

/// The successful withdraw response: one instruction sending the
/// whole held balance to the owner, plus the action and caller
/// attributes.
pub open spec fn withdraw_ok_response(
    resp: Response,
    sender: Seq<char>,
    owner: Seq<char>,
    balances: Seq<Coin>,
) -> bool {
    &&& resp.messages@.len() == 1
    &&& resp.messages@[0] matches OutMsg::BankSend { to_address, amount }
        && to_address@ == owner && amount@ == balances
    &&& resp.attributes@.len() == 2
    &&& attr_is(resp.attributes@[0], "action"@, "withdraw"@)
    &&& attr_is(resp.attributes@[1], "sender"@, sender)
}

/// Everything withdraw promises: any caller other than the stored
/// owner is refused with `Unauthorized` naming that owner, and only
/// the owner gets the transfer instruction.
pub open spec fn withdraw_post(
    r: Result<Response, ContractError>,
    sender: Seq<char>,
    owner: Seq<char>,
    balances: Seq<Coin>,
) -> bool {
    if sender != owner {
        r matches Err(ContractError::Unauthorized { owner: o }) && o@ == owner
    } else {
        r matches Ok(resp) && withdraw_ok_response(resp, sender, owner, balances)
    }
}

/// Send the whole held balance to the owner.  Touches no state
/// record at all: the counter and the thresholds are left as they
/// are, and an unauthorized call returns before anything is emitted.
pub fn withdraw(sender: String, owner: String, balances: Vec<Coin>) -> (r: Result<
    Response,
    ContractError,
>)
    ensures
        withdraw_post(r, sender@, owner@, balances@),
{
    if !string_eq(&sender, &owner) {
        return Err(ContractError::Unauthorized { owner });
    }
    let mut messages: Vec<OutMsg> = Vec::new();
    messages.push(OutMsg::BankSend { to_address: owner, amount: balances });
    let mut attributes: Vec<Attribute> = Vec::new();
    attributes.push(Attribute::new("action", String::from_str("withdraw")));
    attributes.push(Attribute::new("sender", sender));
    Ok(Response { messages, attributes })
}

} // verus!
