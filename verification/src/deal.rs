//! Deal creation and fill bookkeeping.
//!
//! A deal is a standing sale of `amount` base units at a fixed X64.64
//! `price`, open until filled or expired. `fill_amount` accumulates the
//! executed amounts of submitted offers and never exceeds `amount`.

use vstd::prelude::*;
use crate::balance::BalanceState;
use crate::balance::BalanceUpdatedBlob;

verus! {

/// Creation parameters supplied by the deal's creator.
#[derive(Clone, Copy, Debug, PartialEq, Eq, Structural)]
pub struct DealInput {
    /// Base units offered for sale.
    pub amount: u64,
    /// X64.64 asking price in quote units per base unit. No sanity bounds
    /// are imposed here; zero or extreme prices are the caller's choice.
    pub price: u128,
}

/// The stored state of a deal.
#[derive(Clone, Copy, Debug, PartialEq, Eq, Structural)]
pub struct DealState {
    /// Base units offered for sale.
    pub amount: u64,
    /// X64.64 asking price in quote units per base unit.
    pub price: u128,
    /// Cumulative base units matched so far.
    pub fill_amount: u64,
}

/// Event payload sealed to the creator when a deal is created.
#[derive(Clone, Copy, Debug, PartialEq, Eq, Structural)]
pub struct DealCreatedBlob {
    /// Base units offered for sale.
    pub amount: u64,
    /// X64.64 asking price.
    pub price: u128,
}

impl DealState {
    /// The running fill can never overshoot the amount on offer.
    pub open spec fn wf(self) -> bool {
        self.fill_amount <= self.amount
    }

    /// Base units still open for matching.
    pub open spec fn spec_remaining(self) -> int {
        self.amount - self.fill_amount
    }
}

/// Open a deal: record its parameters with an empty fill and lock the full
/// base amount in the creator's balance. The commitment lock must not
/// overflow; the outer ledger rules that out before invoking the core.
pub fn create_deal(input: DealInput, creator_balance: BalanceState) -> (r: (
    DealState,
    BalanceState,
    DealCreatedBlob,
    BalanceUpdatedBlob,
))
    requires
        creator_balance.committed_amount + input.amount <= u64::MAX,
    ensures
        r.0.amount == input.amount,
        r.0.price == input.price,
        r.0.fill_amount == 0,
        r.0.wf(),
        r.1.amount == creator_balance.amount,
        r.1.committed_amount == creator_balance.committed_amount + input.amount,
        r.2.amount == input.amount,
        r.2.price == input.price,
        r.3 == r.1.spec_blob(),
{
    let new_balance: BalanceState = creator_balance.lock(input.amount);
    let state: DealState = DealState { amount: input.amount, price: input.price, fill_amount: 0 };
    let deal_blob: DealCreatedBlob = DealCreatedBlob { amount: input.amount, price: input.price };
    let balance_blob: BalanceUpdatedBlob = BalanceUpdatedBlob {
        amount: new_balance.amount,
        committed_amount: new_balance.committed_amount,
    };
    (state, new_balance, deal_blob, balance_blob)
}

} // verus!
