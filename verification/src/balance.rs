//! Per-(controller, asset) escrow balances.
//!
//! A balance splits into a freely available `amount` and a `committed_amount`
//! locked against open deals and offers. Commitments may by design exceed the
//! spendable amount until settlement debits occur; solvency is the outer
//! ledger's concern. Every operation returns a fresh value; nothing is
//! mutated in place.

use vstd::prelude::*;

verus! {

/// Escrow record for one (controller, asset) pair.
#[derive(Clone, Copy, Debug, PartialEq, Eq, Structural)]
pub struct BalanceState {
    /// Freely available units.
    pub amount: u64,
    /// Units locked against open deals and offers.
    pub committed_amount: u64,
}

/// Event payload mirroring a balance after an update, sealed to its owner.
#[derive(Clone, Copy, Debug, PartialEq, Eq, Structural)]
pub struct BalanceUpdatedBlob {
    /// Available units after the update.
    pub amount: u64,
    /// Committed units after the update.
    pub committed_amount: u64,
}

impl BalanceState {
    /// The all-zero balance a fresh account starts from.
    pub open spec fn spec_zero() -> BalanceState {
        BalanceState { amount: 0, committed_amount: 0 }
    }

    /// The event payload that mirrors this balance.
    pub open spec fn spec_blob(self) -> BalanceUpdatedBlob {
        BalanceUpdatedBlob { amount: self.amount, committed_amount: self.committed_amount }
    }

    /// A fresh, empty balance.
    pub fn zero() -> (r: BalanceState)
        ensures
            r == Self::spec_zero(),
    {
        BalanceState { amount: 0, committed_amount: 0 }
    }

    /// Lock `delta` more units against an open deal or offer. The available
    /// amount is untouched; overflow of the commitment is a caller-side
    /// precondition violation and is ruled out here.
    pub fn lock(self, delta: u64) -> (r: BalanceState)
        requires
            self.committed_amount + delta <= u64::MAX,
        ensures
            r.amount == self.amount,
            r.committed_amount == self.committed_amount + delta,
    {
        BalanceState { amount: self.amount, committed_amount: self.committed_amount + delta }
    }

    /// Release `release` committed units and debit `debit` spent units, both
    /// at settlement. The caller guarantees both stay within the balance;
    /// a violation would be a fatal precondition failure, so it is ruled out
    /// here rather than recovered at run time.
    pub fn release_and_debit(self, release: u64, debit: u64) -> (r: BalanceState)
        requires
            release <= self.committed_amount,
            debit <= self.amount,
        ensures
            r.amount == self.amount - debit,
            r.committed_amount == self.committed_amount - release,
    {
        BalanceState {
            amount: self.amount - debit,
            committed_amount: self.committed_amount - release,
        }
    }
}

/// Add deposited units to a balance. When `is_new` the account did not exist
/// before: the stale input is ignored and the balance starts from zero. The
/// flag comes from the outer ledger's account-existence check and is trusted.
pub fn top_up(balance: BalanceState, amount: u64, is_new: bool) -> (r: (
    BalanceState,
    BalanceUpdatedBlob,
))
    requires
        !is_new ==> balance.amount + amount <= u64::MAX,
    ensures
        is_new ==> r.0.amount == amount && r.0.committed_amount == 0,
        !is_new ==> r.0.amount == balance.amount + amount && r.0.committed_amount
            == balance.committed_amount,
        r.1 == r.0.spec_blob(),
{
    let state: BalanceState = if is_new {
        BalanceState::zero()
    } else {
        balance
    };
    let new_state: BalanceState = BalanceState {
        amount: state.amount + amount,
        committed_amount: state.committed_amount,
    };
    let blob: BalanceUpdatedBlob = BalanceUpdatedBlob {
        amount: new_state.amount,
        committed_amount: new_state.committed_amount,
    };
    (new_state, blob)
}

/// Read a balance back to its owner as an event payload, changing nothing.
pub fn announce_balance(balance: BalanceState) -> (r: BalanceUpdatedBlob)
    ensures
        r == balance.spec_blob(),
{
    BalanceUpdatedBlob { amount: balance.amount, committed_amount: balance.committed_amount }
}

} // verus!
