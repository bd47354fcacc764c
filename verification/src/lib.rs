//! Core logic of a donation-counting ledger program.
//!
//! The library models the program's state, its execution and query
//! handlers (donate, reset, withdraw, value, incremented) and the
//! schema-migration resolver as pure, verified functions on plain
//! values.  The surrounding host — message dispatch, persistent
//! storage, balance queries and wire serialization — stays outside
//! and hands these functions their inputs.

pub mod contract;
pub mod digits;
pub mod error;
pub mod fraction;
pub mod laws;
pub mod msg;
pub mod state;
pub mod types;

use crate::contract::exec::{
    donate_post, reset_post, withdraw_ok_response, ExecOutcome,
};
use crate::error::ContractError;
use crate::msg::{ExecMsg, MigrateMsg, QueryMsg, ValueResp};
use crate::state::{ParentDonation, State};
use crate::types::{Coin, ContractVersion};
use vstd::prelude::*;

verus! {

/// Route a query to its handler.
pub fn query(state: &State, msg: QueryMsg) -> (resp: ValueResp)
    requires
        msg matches QueryMsg::Incremented { value } ==> value < u64::MAX,
    ensures
        msg is Value ==> resp.value == state.counter,
        msg matches QueryMsg::Incremented { value } ==> resp.value == value + 1,
{
    match msg {
        QueryMsg::Value {} => contract::query::value(state),
        QueryMsg::Incremented { value } => contract::query::incremented(value),
    }
}

/// Route an execution message to its handler.  The host supplies the
/// caller, the attached funds, the stored records and the queried
/// balances; it persists `state` when `save_state` is set and
/// executes the returned instructions.
pub fn execute(
    msg: ExecMsg,
    sender: String,
    funds: Vec<Coin>,
    state: State,
    parent_donation: Option<ParentDonation>,
    owner: String,
    balances: Vec<Coin>,
) -> (r: Result<ExecOutcome, ContractError>)
    requires
        msg is Donate ==> {
            &&& state.wf()
            &&& state.counter < u64::MAX
            &&& state.donating_parent is Some <==> parent_donation is Some
            &&& parent_donation matches Some(pd) ==> pd.wf()
        },
    ensures
        msg is Donate ==> (r matches Ok(o) && donate_post(
            o,
            sender@,
            funds@,
            state,
            parent_donation,
            balances@,
        ) && o.state.wf()),
        msg matches ExecMsg::Reset { counter } ==> (r matches Ok(o) && reset_post(
            o,
            sender@,
            counter,
            state,
        ) && (state.wf() ==> o.state.wf())),
        msg is Withdraw ==> {
            &&& r is Ok <==> sender@ == owner@
            &&& r matches Ok(o) ==> !o.save_state && o.state == state && withdraw_ok_response(
                o.response,
                sender@,
                owner@,
                balances@,
            )
            &&& r matches Err(e) ==> (e matches ContractError::Unauthorized { owner: who } && who@
                == owner@)
        },
{
    match msg {
        ExecMsg::Donate {} => Ok(
            contract::exec::donate(sender, funds, state, parent_donation, balances),
        ),
        ExecMsg::Reset { counter } => Ok(contract::exec::reset(sender, counter, state)),
        ExecMsg::Withdraw {} => match contract::exec::withdraw(sender, owner, balances) {
            Ok(resp) => Ok(ExecOutcome { state, save_state: false, response: resp }),
            Err(e) => Err(e),
        },
    }
}

/// Route a migration to the resolver.
pub fn migrate(
    version: ContractVersion,
    msg: MigrateMsg,
    legacy: contract::LegacyRecords,
) -> (r: Result<contract::MigrateOutcome, ContractError>)
    requires
        msg.wf(),
    ensures
        contract::migrate_post(r, version, msg, legacy),
{
    contract::migrate(version, msg, legacy)
}

} // verus!
