//! Auxiliary demonstration state: a tiny adder and an encrypted counter.
//!
//! These accompany the settlement engine as the smallest possible exercises
//! of the decrypt-compute-encrypt pattern and take no part in settlement.

use vstd::prelude::*;

verus! {

/// A pair of small operands for the demonstration adder.
#[derive(Clone, Copy, Debug, PartialEq, Eq, Structural)]
pub struct InputValues {
    /// First operand.
    pub v1: u8,
    /// Second operand.
    pub v2: u8,
}

/// The stored state of the demonstration counter.
#[derive(Clone, Copy, Debug, PartialEq, Eq, Structural)]
pub struct CounterState {
    /// The running count.
    pub counter: u64,
}

/// Add the two operands, widened so the sum can never overflow.
pub fn add_together(input: InputValues) -> (r: u16)
    ensures
        r == input.v1 + input.v2,
{
    input.v1 as u16 + input.v2 as u16
}

/// A fresh counter starting at zero.
pub fn init_counter() -> (r: CounterState)
    ensures
        r.counter == 0,
{
    CounterState { counter: 0 }
}

/// Advance the counter by one. The outer layer retires a counter long
/// before its range runs out, so saturation is ruled out here.
pub fn increment_counter(state: CounterState) -> (r: CounterState)
    requires
        state.counter < u64::MAX,
    ensures
        r.counter == state.counter + 1,
{
    CounterState { counter: state.counter + 1 }
}

/// Read the counter for sharing: two identical copies of the state, one for
/// each recipient the outer layer re-encrypts it to.
pub fn get_counter(state: CounterState) -> (r: (CounterState, CounterState))
    ensures
        r.0 == state,
        r.1 == state,
{
    (state, state)
}

} // verus!
