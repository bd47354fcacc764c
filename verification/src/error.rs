//! The error taxonomy.  Every error aborts the whole call at the
//! host boundary; nothing is retried or partially committed.

use vstd::prelude::*;

verus! {

#[derive(Debug, PartialEq, Eq)]
pub enum ContractError {
    /// A record failed to load or save; raised by the host glue and
    /// propagated unchanged.
    Std(String),
    /// Withdraw was called by someone other than the stored owner.
    Unauthorized { owner: String },
    /// Migrate was invoked on a version record of a different program.
    InvalidName(String),
    /// Migrate was invoked from an unrecognized recorded version.
    InvalidVersion(String),
}

} // verus!
