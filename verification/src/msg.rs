//! Inbound message shapes.
//!
//! The host decodes the wire format and hands these to the
//! dispatcher as plain values.

use crate::fraction::Fraction;
use crate::types::Coin;
use vstd::prelude::*;

verus! {

/// Parent-forwarding settings supplied at instantiate or migration.
#[derive(Clone, Debug, PartialEq, Eq)]
pub struct Parent {
    pub addr: String,
    /// Number of qualifying donations between forwards; at least one.
    pub donating_period: u64,
    /// Share of the held balance forwarded each time.
    pub part: Fraction,
}

impl Parent {
    pub open spec fn wf(self) -> bool {
        self.donating_period >= 1 && self.part.wf()
    }
}

#[derive(Clone, Debug, PartialEq, Eq)]
pub struct InstantiateMsg {
    pub counter: u64,
    pub minimal_donation: Coin,
    pub parent: Option<Parent>,
}

impl InstantiateMsg {
    pub open spec fn wf(self) -> bool {
        self.parent matches Some(p) ==> p.wf()
    }
}

#[derive(Clone, Debug, PartialEq, Eq)]
pub enum QueryMsg {
    Value {},
    Incremented { value: u64 },
}

#[derive(Clone, Debug, PartialEq, Eq)]
pub enum ExecMsg {
    Donate {},
    Withdraw {},
    Reset { counter: u64 },
}

/// Reply of both queries.
#[derive(Clone, Debug, PartialEq, Eq)]
pub struct ValueResp {
    pub value: u64,
}

#[derive(Clone, Debug, PartialEq, Eq)]
pub struct MigrateMsg {
    pub parent: Option<Parent>,
}

impl MigrateMsg {
    pub open spec fn wf(self) -> bool {
        self.parent matches Some(p) ==> p.wf()
    }
}

} // verus!
