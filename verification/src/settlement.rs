//! Deal and offer cranking: the settlement state machine.
//!
//! Cranking a deal decides, from expiry and the running fill, whether the
//! deal executes, expires, or stays open, and pays the creator out. Each
//! offer is then cranked independently against the settled deal, paying at
//! the deal's settlement price — not the offer's own ceiling — and refunding
//! the rest of the quote commitment. Both transitions are terminal; the
//! outer layer must not crank the same record twice.

use vstd::prelude::*;
use crate::balance::BalanceState;
use crate::balance::BalanceUpdatedBlob;
use crate::deal::DealState;
use crate::fixed_point::lemma_mul_shift_monotonic;
use crate::fixed_point::lemma_mul_shift_nonneg;
use crate::fixed_point::mul_shift_128;
use crate::fixed_point::spec_mul_shift;
use crate::offer::spec_quote_commitment;
use crate::offer::spec_submit_balance;
use crate::offer::spec_submit_deal;
use crate::offer::spec_submit_offer_state;
use crate::offer::OfferInput;
use crate::offer::OfferState;
use crate::status::DealStatus;
use crate::status::OfferOutcome;

verus! {

/// Settlement payload sealed to the creator when a deal is cranked.
#[derive(Clone, Copy, Debug, PartialEq, Eq, Structural)]
pub struct DealSettledBlob {
    /// Base units filled across all offers, or zero when nothing executes.
    pub total_filled: u64,
    /// Quote units the creator receives.
    pub creator_receives: u64,
    /// Base units refunded to the creator.
    pub creator_refund: u64,
}

/// Settlement payload sealed to an offeror when their offer is cranked.
#[derive(Clone, Copy, Debug, PartialEq, Eq, Structural)]
pub struct OfferSettledBlob {
    /// Classification of how the offer ended.
    pub outcome: OfferOutcome,
    /// Base units actually bought.
    pub executed_amt: u64,
    /// Quote units paid, at the deal's settlement price.
    pub quote_paid: u64,
    /// Quote units refunded: the unexecuted remainder plus the spread
    /// between the offeror's ceiling and the deal's actual price.
    pub quote_refund: u64,
}

/// Whether the deal's fill has reached the amount on offer.
pub open spec fn spec_fully_filled(deal: DealState) -> bool {
    deal.fill_amount >= deal.amount
}

/// A deal may settle once it has expired or filled completely.
pub open spec fn spec_can_settle(deal: DealState, is_expired: bool) -> bool {
    is_expired || spec_fully_filled(deal)
}

/// A settling deal executes when fully filled, or when partially filled and
/// partial settlement is allowed.
pub open spec fn spec_deal_executes(deal: DealState, allow_partial: bool) -> bool {
    spec_fully_filled(deal) || (allow_partial && deal.fill_amount > 0)
}

/// The fill a crank finalizes: the running fill when the deal settles and
/// executes, and zero otherwise.
pub open spec fn spec_total_filled(deal: DealState, is_expired: bool, allow_partial: bool) -> u64 {
    if spec_can_settle(deal, is_expired) && spec_deal_executes(deal, allow_partial) {
        deal.fill_amount
    } else {
        0
    }
}

/// The status a crank leaves the deal in: untouched while it cannot settle,
/// then executed or expired, exactly once.
pub open spec fn spec_deal_status(deal: DealState, is_expired: bool, allow_partial: bool)
    -> DealStatus {
    if !spec_can_settle(deal, is_expired) {
        DealStatus::Open
    } else if spec_deal_executes(deal, allow_partial) {
        DealStatus::Executed
    } else {
        DealStatus::Expired
    }
}

/// The base units an offer settles with: its fixed match when the deal
/// executed, nothing when the deal expired unexecuted.
pub open spec fn spec_executed_amt(offer: OfferState, deal_success: bool) -> u64 {
    if deal_success {
        offer.amt_to_execute
    } else {
        0
    }
}

/// Classification of a settled offer, measured against the amount it
/// requested — an offer capped below its request by deal scarcity counts as
/// partial even though its whole fixed match executed.
pub open spec fn spec_offer_outcome(offer: OfferState, deal_success: bool) -> OfferOutcome {
    if spec_executed_amt(offer, deal_success) == 0 {
        OfferOutcome::Failed
    } else if spec_executed_amt(offer, deal_success) < offer.amount {
        OfferOutcome::Partial
    } else {
        OfferOutcome::Executed
    }
}

/// The offeror's balance after their offer is cranked: the whole quote
/// commitment released, the quote actually paid debited.
pub open spec fn spec_crank_offer_balance(
    deal: DealState,
    offer: OfferState,
    balance: BalanceState,
    deal_success: bool,
) -> BalanceState {
    BalanceState {
        amount: (balance.amount - spec_mul_shift(
            spec_executed_amt(offer, deal_success),
            deal.price,
        )) as u64,
        committed_amount: (balance.committed_amount - spec_mul_shift(
            offer.amount,
            offer.price,
        )) as u64,
    }
}

/// Crank (settle) a deal once it has expired or filled completely.
///
/// Before that point the call is a no-op: the balance is untouched and the
/// status stays open, signalling the caller not to treat the deal as
/// settled. On settlement the creator's entire original commitment is
/// released, the sold base units are debited, and the deal moves to its
/// terminal status. The deal's amounts themselves are never touched by a
/// crank — in particular the fill cannot fall back — only the status moves.
/// The caller must not crank an already-settled deal.
pub fn crank_deal(
    deal: DealState,
    creator_balance: BalanceState,
    is_expired: bool,
    allow_partial: bool,
) -> (r: (BalanceState, DealSettledBlob, BalanceUpdatedBlob, DealStatus))
    requires
        deal.wf(),
        deal.fill_amount * deal.price <= u128::MAX,
        spec_can_settle(deal, is_expired) ==> deal.amount <= creator_balance.committed_amount,
        spec_can_settle(deal, is_expired) ==> spec_total_filled(deal, is_expired, allow_partial)
            <= creator_balance.amount,
    ensures
        r.1.total_filled == spec_total_filled(deal, is_expired, allow_partial),
        r.1.creator_receives == spec_mul_shift(
            spec_total_filled(deal, is_expired, allow_partial),
            deal.price,
        ),
        r.1.creator_refund == (if spec_can_settle(deal, is_expired) {
            deal.amount - spec_total_filled(deal, is_expired, allow_partial)
        } else {
            0
        }),
        spec_can_settle(deal, is_expired) ==> r.0.amount == creator_balance.amount
            - spec_total_filled(deal, is_expired, allow_partial) && r.0.committed_amount
            == creator_balance.committed_amount - deal.amount,
        !spec_can_settle(deal, is_expired) ==> r.0 == creator_balance && r.3 == DealStatus::Open,
        spec_can_settle(deal, is_expired) ==> r.3 != DealStatus::Open,
        r.2 == r.0.spec_blob(),
        r.3 == spec_deal_status(deal, is_expired, allow_partial),
{
    let fully_filled: bool = deal.fill_amount >= deal.amount;
    let can_settle: bool = is_expired || fully_filled;
    let deal_executes: bool = fully_filled || (allow_partial && deal.fill_amount > 0);
    let total_filled: u64 = if can_settle && deal_executes {
        deal.fill_amount
    } else {
        0
    };
    let unfilled: u64 = deal.amount - total_filled;
    let creator_receives: u64 = mul_shift_128(total_filled, deal.price);
    let creator_refund: u64 = if can_settle {
        unfilled
    } else {
        0
    };
    let new_balance: BalanceState = if can_settle {
        creator_balance.release_and_debit(deal.amount, total_filled)
    } else {
        creator_balance
    };
    let deal_blob: DealSettledBlob = DealSettledBlob {
        total_filled,
        creator_receives,
        creator_refund,
    };
    let balance_blob: BalanceUpdatedBlob = BalanceUpdatedBlob {
        amount: new_balance.amount,
        committed_amount: new_balance.committed_amount,
    };
    let status: DealStatus = if !can_settle {
        DealStatus::Open
    } else if deal_executes {
        DealStatus::Executed
    } else {
        DealStatus::Expired
    };
    (new_balance, deal_blob, balance_blob, status)
}

/// Crank (settle) a single offer after its deal has settled.
///
/// `deal_success` says whether the deal executed; when it did not, the
/// offer's fixed match is voided. The quote actually paid is priced at the
/// deal's settlement price, never the offer's own ceiling; the whole
/// commitment locked at submission is released and the difference refunded.
/// The caller must not crank an already-settled offer.
pub fn crank_offer(
    deal: DealState,
    offer: OfferState,
    offeror_balance: BalanceState,
    deal_success: bool,
) -> (r: (BalanceState, OfferSettledBlob, BalanceUpdatedBlob))
    requires
        offer.wf(),
        offer.consistent_with(deal),
        offer.amount * offer.price <= u128::MAX,
        spec_mul_shift(offer.amount, offer.price) <= offeror_balance.committed_amount,
        spec_mul_shift(spec_executed_amt(offer, deal_success), deal.price)
            <= offeror_balance.amount,
    ensures
        r.0 == spec_crank_offer_balance(deal, offer, offeror_balance, deal_success),
        r.0.amount == offeror_balance.amount - spec_mul_shift(
            spec_executed_amt(offer, deal_success),
            deal.price,
        ),
        r.0.committed_amount == offeror_balance.committed_amount - spec_mul_shift(
            offer.amount,
            offer.price,
        ),
        r.1.outcome == spec_offer_outcome(offer, deal_success),
        r.1.executed_amt == spec_executed_amt(offer, deal_success),
        r.1.quote_paid == spec_mul_shift(spec_executed_amt(offer, deal_success), deal.price),
        r.1.quote_refund == spec_mul_shift(offer.amount, offer.price) - spec_mul_shift(
            spec_executed_amt(offer, deal_success),
            deal.price,
        ),
        r.2 == r.0.spec_blob(),
{
    let executed_amt: u64 = if deal_success {
        offer.amt_to_execute
    } else {
        0
    };
    proof {
        if executed_amt > 0 {
            assert(executed_amt * deal.price <= offer.amount * offer.price)
                by (nonlinear_arith)
                requires
                    executed_amt <= offer.amount,
                    deal.price <= offer.price,
                    0 <= executed_amt,
                    0 <= deal.price,
            ;
            lemma_mul_shift_monotonic(executed_amt, deal.price, offer.amount, offer.price);
        }
    }
    let quote_committed: u64 = mul_shift_128(offer.amount, offer.price);
    let quote_executed: u64 = mul_shift_128(executed_amt, deal.price);
    let quote_refund: u64 = quote_committed - quote_executed;
    let new_balance: BalanceState = offeror_balance.release_and_debit(
        quote_committed,
        quote_executed,
    );
    let outcome: OfferOutcome = if executed_amt == 0 {
        OfferOutcome::Failed
    } else if executed_amt < offer.amount {
        OfferOutcome::Partial
    } else {
        OfferOutcome::Executed
    };
    let offer_blob: OfferSettledBlob = OfferSettledBlob {
        outcome,
        executed_amt,
        quote_paid: quote_executed,
        quote_refund,
    };
    let balance_blob: BalanceUpdatedBlob = BalanceUpdatedBlob {
        amount: new_balance.amount,
        committed_amount: new_balance.committed_amount,
    };
    (new_balance, offer_blob, balance_blob)
}

/// Law: the quote commitment locked when an offer is submitted is released
/// in full — the same `spec_quote_commitment` value — when that offer is
/// cranked, whatever the deal's outcome, so the offeror's committed amount
/// returns exactly to where it started.
pub proof fn lemma_commitment_round_trip(
    deal: DealState,
    offer: OfferInput,
    balance: BalanceState,
    deal_success: bool,
)
    requires
        deal.wf(),
        balance.committed_amount + spec_quote_commitment(offer) <= u64::MAX,
    ensures
        spec_submit_balance(balance, offer).committed_amount == balance.committed_amount
            + spec_quote_commitment(offer),
        spec_crank_offer_balance(
            spec_submit_deal(deal, offer),
            spec_submit_offer_state(deal, offer),
            spec_submit_balance(balance, offer),
            deal_success,
        ).committed_amount == balance.committed_amount,
{
    lemma_mul_shift_nonneg(offer.amount, offer.price);
}

} // verus!
