//! Instantiation and the migration resolver.
//!
//! The resolver is a pure function of the recorded version, the
//! supplied parent settings and the legacy records the host loaded:
//! it rewrites a recognized legacy layout into the current one, does
//! nothing when the recorded version is already current, and refuses
//! a foreign program identity or an unrecognized version without
//! producing any record to write.

pub mod exec;
pub mod query;

use crate::error::ContractError;
use crate::msg::{InstantiateMsg, MigrateMsg, Parent};
use crate::state::{OldState, ParentDonation, State};
use crate::types::{response_empty, string_matches, Coin, ContractVersion, Response};
use vstd::prelude::*;
use vstd::string::StringExecFns;

verus! {

/// This program's identity, as kept in the host's version record.
pub open spec fn spec_contract_name() -> Seq<char> {
    "counting-contract"@
}

/// The current schema version.
pub open spec fn spec_contract_version() -> Seq<char> {
    "0.3.0"@
}

/// The version whose layout was two split records, `counter` and
/// `minimal_donation`.
pub open spec fn legacy_split_version() -> Seq<char> {
    "0.1.0"@
}

/// The version whose layout was one combined record without a parent
/// field.
pub open spec fn legacy_combined_version() -> Seq<char> {
    "0.2.0"@
}

pub fn contract_name() -> (s: String)
    ensures
        s@ == spec_contract_name(),
{
    String::from_str("counting-contract")
}

pub fn contract_version() -> (s: String)
    ensures
        s@ == spec_contract_version(),
{
    String::from_str("0.3.0")
}

/// The countdown a fresh state starts with: the supplied parent's
/// period, or nothing.
pub open spec fn spec_parent_period(parent: Option<Parent>) -> Option<u64> {
    match parent {
        Some(p) => Some(p.donating_period),
        None => None,
    }
}

/// The state record built from a counter, a threshold and the
/// optionally supplied parent settings.
pub open spec fn spec_built_state(
    counter: u64,
    minimal_donation: Coin,
    parent: Option<Parent>,
) -> State {
    State { counter, minimal_donation, donating_parent: spec_parent_period(parent) }
}

/// The parent-forwarding record built from the supplied settings.
pub open spec fn spec_parent_record(parent: Option<Parent>) -> Option<ParentDonation> {
    match parent {
        Some(p) => Some(
            ParentDonation {
                address: p.addr,
                donating_parent_period: p.donating_period,
                part: p.part,
            },
        ),
        None => None,
    }
}

fn parent_period(parent: &Option<Parent>) -> (r: Option<u64>)
    ensures
        r == spec_parent_period(*parent),
{
    match parent {
        Some(p) => Some(p.donating_period),
        None => None,
    }
}

fn build_parent_record(parent: Option<Parent>) -> (r: Option<ParentDonation>)
    ensures
        r == spec_parent_record(parent),
{
    match parent {
        Some(p) => Some(
            ParentDonation {
                address: p.addr,
                donating_parent_period: p.donating_period,
                part: p.part,
            },
        ),
        None => None,
    }
}

/// Everything instantiation produces: the version record to write,
/// the fresh state, the parent-forwarding record if a parent was
/// supplied, and the caller as owner.
#[derive(Debug)]
pub struct InstantiateOutcome {
    pub version: ContractVersion,
    pub state: State,
    pub parent_donation: Option<ParentDonation>,
    pub owner: String,
    pub response: Response,
}

/// Create the program's records.  The caller becomes the owner, set
/// exactly once and never mutated afterwards.
pub fn instantiate(sender: String, msg: InstantiateMsg) -> (r: InstantiateOutcome)
    requires
        msg.wf(),
    ensures
        r.version.contract@ == spec_contract_name(),
        r.version.version@ == spec_contract_version(),
        r.state == spec_built_state(msg.counter, msg.minimal_donation, msg.parent),
        r.parent_donation == spec_parent_record(msg.parent),
        r.owner == sender,
        response_empty(r.response),
        r.state.wf(),
        r.parent_donation matches Some(p) ==> p.wf(),
{
    let donating_parent = parent_period(&msg.parent);
    InstantiateOutcome {
        version: ContractVersion { contract: contract_name(), version: contract_version() },
        state: State {
            counter: msg.counter,
            minimal_donation: msg.minimal_donation,
            donating_parent,
        },
        parent_donation: build_parent_record(msg.parent),
        owner: sender,
        response: Response::new(),
    }
}

/// What the migration resolver produces: records to write (`None`
/// means leave that record alone), whether the version record must be
/// advanced to the current version, and the response.
#[derive(Debug)]
pub struct MigrateOutcome {
    pub state: Option<State>,
    pub parent_donation: Option<ParentDonation>,
    pub update_version: bool,
    pub response: Response,
}

/// The legacy-layout records as the host found them in storage;
/// `None` where a record is absent or unreadable.
#[derive(Debug)]
pub struct LegacyRecords {
    pub counter: Option<u64>,
    pub minimal_donation: Option<Coin>,
    pub old_state: Option<OldState>,
}

/// Holds when a migration outcome writes nothing at all.
pub open spec fn outcome_is_noop(o: MigrateOutcome) -> bool {
    o.state is None && o.parent_donation is None && !o.update_version && response_empty(o.response)
}

/// Holds when a migration outcome writes exactly the state built
/// from the given legacy values, plus the parent record if supplied.
pub open spec fn outcome_writes(
    o: MigrateOutcome,
    counter: u64,
    minimal_donation: Coin,
    parent: Option<Parent>,
) -> bool {
    &&& o.state == Some(spec_built_state(counter, minimal_donation, parent))
    &&& o.parent_donation == spec_parent_record(parent)
    &&& o.update_version
    &&& response_empty(o.response)
}

/// Rewrite the split-record legacy layout: the counter and the
/// threshold were two independent top-level records.
pub fn migrate_0_1_0(counter: u64, minimal_donation: Coin, parent: Option<Parent>) -> (r:
    MigrateOutcome)
    ensures
        outcome_writes(r, counter, minimal_donation, parent),
{
    let donating_parent = parent_period(&parent);
    MigrateOutcome {
        state: Some(State { counter, minimal_donation, donating_parent }),
        parent_donation: build_parent_record(parent),
        update_version: true,
        response: Response::new(),
    }
}

/// Rewrite the combined-record legacy layout: one record holding the
/// counter and the threshold, with no parent field.
pub fn migrate_0_2_0(old_state: OldState, parent: Option<Parent>) -> (r: MigrateOutcome)
    ensures
        outcome_writes(r, old_state.counter, old_state.minimal_donation, parent),
{
    migrate_0_1_0(old_state.counter, old_state.minimal_donation, parent)
}

/// Everything the migration resolver promises, following its
/// decision tree: a foreign identity is refused outright; each
/// recognized legacy version is rewritten from its own layout, or
/// fails as a storage error when that layout's records are missing;
/// the current version is a no-op with no writes; anything else is
/// refused as an invalid version.  Both refusals carry the offending
/// string and produce nothing to write.
pub open spec fn migrate_post(
    r: Result<MigrateOutcome, ContractError>,
    version: ContractVersion,
    msg: MigrateMsg,
    legacy: LegacyRecords,
) -> bool {
    if version.contract@ != spec_contract_name() {
        r matches Err(ContractError::InvalidName(found)) && found@ == version.contract@
    } else if version.version@ == legacy_split_version() {
        match (legacy.counter, legacy.minimal_donation) {
            (Some(counter), Some(minimal_donation)) => r matches Ok(o) && outcome_writes(
                o,
                counter,
                minimal_donation,
                msg.parent,
            ),
            _ => r matches Err(e) && e is Std,
        }
    } else if version.version@ == legacy_combined_version() {
        match legacy.old_state {
            Some(old) => r matches Ok(o) && outcome_writes(
                o,
                old.counter,
                old.minimal_donation,
                msg.parent,
            ),
            None => r matches Err(e) && e is Std,
        }
    } else if version.version@ == spec_contract_version() {
        r matches Ok(o) && outcome_is_noop(o)
    } else {
        r matches Err(ContractError::InvalidVersion(found)) && found@ == version.version@
    }
}

/// Resolve a migration from the recorded version.
pub fn migrate(version: ContractVersion, msg: MigrateMsg, legacy: LegacyRecords) -> (r: Result<
    MigrateOutcome,
    ContractError,
>)
    requires
        msg.wf(),
    ensures
        migrate_post(r, version, msg, legacy),
        r matches Ok(o) ==> (o.state matches Some(s) ==> s.wf()),
        r matches Ok(o) ==> (o.parent_donation matches Some(p) ==> p.wf()),
{
    if !string_matches(&version.contract, "counting-contract") {
        return Err(ContractError::InvalidName(version.contract));
    }
    if string_matches(&version.version, "0.1.0") {
        match (legacy.counter, legacy.minimal_donation) {
            (Some(counter), Some(minimal_donation)) => Ok(
                migrate_0_1_0(counter, minimal_donation, msg.parent),
            ),
            _ => Err(ContractError::Std(String::from_str("legacy records not found"))),
        }
    } else if string_matches(&version.version, "0.2.0") {
        match legacy.old_state {
            Some(old) => Ok(migrate_0_2_0(old, msg.parent)),
            None => Err(ContractError::Std(String::from_str("legacy state record not found"))),
        }
    } else if string_matches(&version.version, "0.3.0") {
        Ok(
            MigrateOutcome {
                state: None,
                parent_donation: None,
                update_version: false,
                response: Response::new(),
            },
        )
    } else {
        Err(ContractError::InvalidVersion(version.version))
    }
}

} // verus!
