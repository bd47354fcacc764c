//! Query handlers: pure reads, no mutation.

use crate::msg::ValueResp;
use crate::state::State;
use vstd::prelude::*;

verus! {

/// Report the current counter.
pub fn value(state: &State) -> (resp: ValueResp)
    ensures
        resp.value == state.counter,
{
    ValueResp { value: state.counter }
}

/// Report `value + 1`; takes no state at all.
pub fn incremented(value: u64) -> (resp: ValueResp)
    requires
        value < u64::MAX,
    ensures
        resp.value == value + 1,
{
    ValueResp { value: value + 1 }
}

} // verus!
