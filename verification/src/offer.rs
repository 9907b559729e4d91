//! Offer submission and match-amount computation.
//!
//! Matching is one-shot and order-dependent: the amount an offer executes is
//! fixed forever at submission, first come first served against the deal's
//! remaining capacity. An offer priced below the ask is still accepted, with
//! a zero executed amount, so that a rejection cannot be observed from the
//! outside.

use vstd::prelude::*;
use crate::balance::BalanceState;
use crate::deal::DealState;
use crate::fixed_point::mul_shift_128;
use crate::fixed_point::spec_mul_shift;

verus! {

/// Submission parameters supplied by an offeror.
#[derive(Clone, Copy, Debug, PartialEq, Eq, Structural)]
pub struct OfferInput {
    /// X64.64 ceiling price the offeror accepts paying.
    pub price: u128,
    /// Base units requested.
    pub amount: u64,
}

/// The stored state of an offer; fixed permanently at submission.
#[derive(Clone, Copy, Debug, PartialEq, Eq, Structural)]
pub struct OfferState {
    /// X64.64 ceiling price the offeror accepts paying.
    pub price: u128,
    /// Base units requested.
    pub amount: u64,
    /// Base units matched at submission time; never revisited.
    pub amt_to_execute: u64,
}

/// Event payload sealed to the offeror when an offer is created.
#[derive(Clone, Copy, Debug, PartialEq, Eq, Structural)]
pub struct OfferCreatedBlob {
    /// X64.64 ceiling price.
    pub price: u128,
    /// Base units requested.
    pub amount: u64,
}

impl OfferState {
    /// An offer never executes more than it requested.
    pub open spec fn wf(self) -> bool {
        self.amt_to_execute <= self.amount
    }

    /// An offer only matches a deal it was willing to pay for: a positive
    /// executed amount means the ceiling price reached the deal's ask.
    /// Submission establishes this; offer settlement relies on it.
    pub open spec fn consistent_with(self, deal: DealState) -> bool {
        self.amt_to_execute > 0 ==> self.price >= deal.price
    }
}

/// The base units an offer executes against a deal: the requested amount
/// capped by the deal's remaining capacity when the ceiling price reaches
/// the ask (ties match), and zero otherwise.
pub open spec fn spec_amt_to_execute(deal: DealState, offer: OfferInput) -> int {
    if offer.price >= deal.price {
        if offer.amount <= deal.spec_remaining() {
            offer.amount as int
        } else {
            deal.spec_remaining()
        }
    } else {
        0
    }
}

/// The deal after a submission: only the running fill moves.
pub open spec fn spec_submit_deal(deal: DealState, offer: OfferInput) -> DealState {
    DealState {
        amount: deal.amount,
        price: deal.price,
        fill_amount: (deal.fill_amount + spec_amt_to_execute(deal, offer)) as u64,
    }
}

/// The offer state a submission creates.
pub open spec fn spec_submit_offer_state(deal: DealState, offer: OfferInput) -> OfferState {
    OfferState {
        price: offer.price,
        amount: offer.amount,
        amt_to_execute: spec_amt_to_execute(deal, offer) as u64,
    }
}

/// The quote units locked at submission: the full requested amount at the
/// offeror's own ceiling price. Committing the worst case regardless of how
/// much actually matched keeps the match size unobservable from the lock.
pub open spec fn spec_quote_commitment(offer: OfferInput) -> int {
    spec_mul_shift(offer.amount, offer.price)
}

/// The offeror's balance after the submission lock.
pub open spec fn spec_submit_balance(balance: BalanceState, offer: OfferInput) -> BalanceState {
    BalanceState {
        amount: balance.amount,
        committed_amount: (balance.committed_amount + spec_quote_commitment(offer)) as u64,
    }
}

/// Submit an offer against an open deal: fix its executed amount, advance
/// the deal's fill, and lock the offeror's worst-case quote commitment.
pub fn submit_offer(deal: DealState, offer: OfferInput, offeror_balance: BalanceState) -> (r: (
    DealState,
    OfferState,
    BalanceState,
    OfferCreatedBlob,
))
    requires
        deal.wf(),
        offer.amount * offer.price <= u128::MAX,
        offeror_balance.committed_amount + spec_quote_commitment(offer) <= u64::MAX,
    ensures
        r.0 == spec_submit_deal(deal, offer),
        r.1 == spec_submit_offer_state(deal, offer),
        r.2 == spec_submit_balance(offeror_balance, offer),
        r.0.wf(),
        r.0.amount == deal.amount,
        r.0.price == deal.price,
        r.0.fill_amount == deal.fill_amount + r.1.amt_to_execute,
        deal.fill_amount <= r.0.fill_amount,
        r.1.wf(),
        r.1.consistent_with(r.0),
        r.2.amount == offeror_balance.amount,
        r.2.committed_amount == offeror_balance.committed_amount + spec_quote_commitment(offer),
        r.3.price == offer.price,
        r.3.amount == offer.amount,
{
    let remaining: u64 = deal.amount - deal.fill_amount;
    let amt_to_execute: u64 = if offer.price >= deal.price {
        if offer.amount < remaining {
            offer.amount
        } else {
            remaining
        }
    } else {
        0
    };
    let quote_to_commit: u64 = mul_shift_128(offer.amount, offer.price);
    let new_balance: BalanceState = offeror_balance.lock(quote_to_commit);
    let updated_deal: DealState = DealState {
        amount: deal.amount,
        price: deal.price,
        fill_amount: deal.fill_amount + amt_to_execute,
    };
    let offer_state: OfferState = OfferState {
        price: offer.price,
        amount: offer.amount,
        amt_to_execute,
    };
    let offer_blob: OfferCreatedBlob = OfferCreatedBlob {
        price: offer.price,
        amount: offer.amount,
    };
    (updated_deal, offer_state, new_balance, offer_blob)
}

/// The deal a whole sequence of submissions leaves behind, first to last.
pub open spec fn run_submits(deal: DealState, offers: Seq<OfferInput>) -> DealState
    decreases offers.len(),
{
    if offers.len() == 0 {
        deal
    } else {
        run_submits(spec_submit_deal(deal, offers[0]), offers.drop_first())
    }
}

/// The sum of the executed amounts those submissions fix, in order.
pub open spec fn total_executed(deal: DealState, offers: Seq<OfferInput>) -> int
    decreases offers.len(),
{
    if offers.len() == 0 {
        0
    } else {
        spec_amt_to_execute(deal, offers[0]) + total_executed(
            spec_submit_deal(deal, offers[0]),
            offers.drop_first(),
        )
    }
}

/// One submission moves the fill by exactly the offer's executed amount and
/// keeps the deal well formed; its parameters are untouched.
pub proof fn lemma_submit_step(deal: DealState, offer: OfferInput)
    requires
        deal.wf(),
    ensures
        0 <= spec_amt_to_execute(deal, offer) <= deal.spec_remaining(),
        spec_submit_deal(deal, offer).wf(),
        spec_submit_deal(deal, offer).amount == deal.amount,
        spec_submit_deal(deal, offer).price == deal.price,
        spec_submit_deal(deal, offer).fill_amount == deal.fill_amount + spec_amt_to_execute(
            deal,
            offer,
        ),
{
}

/// Conservation and monotonicity across any sequence of submissions on a
/// well-formed deal: the parameters never move, the fill advances by exactly
/// the sum of the executed amounts, and it never overshoots the amount on
/// offer nor falls back.
pub proof fn lemma_fill_conservation(deal: DealState, offers: Seq<OfferInput>)
    requires
        deal.wf(),
    ensures
        run_submits(deal, offers).wf(),
        run_submits(deal, offers).amount == deal.amount,
        run_submits(deal, offers).price == deal.price,
        run_submits(deal, offers).fill_amount == deal.fill_amount + total_executed(deal, offers),
        0 <= total_executed(deal, offers),
        deal.fill_amount <= run_submits(deal, offers).fill_amount <= deal.amount,
    decreases offers.len(),
{
    if offers.len() > 0 {
        lemma_submit_step(deal, offers[0]);
        lemma_fill_conservation(spec_submit_deal(deal, offers[0]), offers.drop_first());
    }
}

/// Conservation from creation: starting from the empty fill a freshly opened
/// deal has, the fill equals the sum of all executed amounts and stays within
/// the amount on offer.
pub proof fn lemma_conservation_from_creation(deal: DealState, offers: Seq<OfferInput>)
    requires
        deal.fill_amount == 0,
        deal.wf(),
    ensures
        run_submits(deal, offers).fill_amount == total_executed(deal, offers),
        total_executed(deal, offers) <= deal.amount,
{
    lemma_fill_conservation(deal, offers);
}

} // verus!
