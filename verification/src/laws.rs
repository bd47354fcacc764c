//! Laws that relate the handlers, stated once over their contracts
//! and proved for every input.

use crate::contract::exec::{reset_post, ExecOutcome};
use crate::contract::{
    legacy_combined_version, legacy_split_version, migrate_post, outcome_is_noop,
    spec_contract_name, spec_contract_version, LegacyRecords, MigrateOutcome,
};
use crate::error::ContractError;
use crate::msg::{MigrateMsg, ValueResp};
use crate::state::State;
use crate::types::ContractVersion;
use vstd::prelude::*;

verus! {

/// Resetting to `counter` makes a subsequent value query report
/// exactly `counter`, whatever the prior counter or donation history
/// was.  The second premise is what `value` ensures of a query
/// against the persisted state.
pub proof fn reset_then_value(
    o: ExecOutcome,
    sender: Seq<char>,
    counter: u64,
    state: State,
    resp: ValueResp,
)
    requires
        reset_post(o, sender, counter, state),
        resp.value == o.state.counter,
    ensures
        resp.value == counter,
{
}

/// `incremented` is pure: its contract pins the reply completely, so
/// repeated calls on the same input all agree.
pub proof fn incremented_deterministic(value: u64, r1: ValueResp, r2: ValueResp)
    requires
        r1.value == value + 1,
        r2.value == value + 1,
    ensures
        r1 == r2,
{
}

/// A migration invoked when the recorded version is already current
/// succeeds and writes nothing: the state, the parent record and the
/// version record are all left alone.
pub proof fn migrate_current_is_noop(
    r: Result<MigrateOutcome, ContractError>,
    version: ContractVersion,
    msg: MigrateMsg,
    legacy: LegacyRecords,
)
    requires
        migrate_post(r, version, msg, legacy),
        version.contract@ == spec_contract_name(),
        version.version@ == spec_contract_version(),
    ensures
        r matches Ok(o) && outcome_is_noop(o),
{
    reveal_strlit("0.1.0");
    reveal_strlit("0.2.0");
    reveal_strlit("0.3.0");
    assert(spec_contract_version()[2] == '3');
    assert(legacy_split_version()[2] == '1');
    assert(legacy_combined_version()[2] == '2');
}

} // verus!
