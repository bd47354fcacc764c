//! The records this program keeps in its storage slot.

use crate::fraction::Fraction;
use crate::types::Coin;
use vstd::prelude::*;

verus! {

/// The combined state record, current layout.
#[derive(Clone, Debug, PartialEq, Eq)]
pub struct State {
    /// Number of qualifying donations, also settable by reset.
    pub counter: u64,
    /// Threshold a donation must meet; immutable after instantiate.
    pub minimal_donation: Coin,
    /// Qualifying donations left until the next forward to the
    /// parent program; `None` when no parent is configured.
    pub donating_parent: Option<u64>,
}

impl State {
    /// The countdown is never below one: it starts at the configured
    /// period and is reset to the period whenever it would reach zero.
    pub open spec fn wf(self) -> bool {
        self.donating_parent matches Some(n) ==> n >= 1
    }
}

/// The parent-forwarding configuration; written at instantiate or
/// migration, only read afterwards.
#[derive(Clone, Debug, PartialEq, Eq)]
pub struct ParentDonation {
    pub address: String,
    /// Value the countdown is reset to; always at least one.
    pub donating_parent_period: u64,
    /// Share of the held balance forwarded to the parent.
    pub part: Fraction,
}

impl ParentDonation {
    pub open spec fn wf(self) -> bool {
        self.donating_parent_period >= 1 && self.part.wf()
    }
}

/// The legacy combined record layout: counter and threshold in one
/// record, with no parent field.  Read only by the migration
/// resolver.
#[derive(Clone, Debug, PartialEq, Eq)]
pub struct OldState {
    pub counter: u64,
    pub minimal_donation: Coin,
}

} // verus!
