use otc_core::balance::BalanceState;
use otc_core::deal::DealState;
use otc_core::offer::submit_offer;
use otc_core::offer::OfferInput;
use otc_core::offer::OfferState;
use otc_core::settlement::crank_deal;
use otc_core::settlement::crank_offer;
use otc_core::status::DealStatus;
use otc_core::status::OfferOutcome;

const ONE: u128 = 1u128 << 64;

#[test]
fn crank_is_noop_until_expired_or_filled() {
    let deal = DealState { amount: 100, price: ONE, fill_amount: 40 };
    let balance = BalanceState { amount: 7, committed_amount: 3 };
    let (balance2, blob, _, status) = crank_deal(deal, balance, false, true);
    assert_eq!(status, DealStatus::Open);
    assert_eq!(status.as_code(), 0);
    assert_eq!(balance2, balance);
    assert_eq!(blob.total_filled, 0);
    assert_eq!(blob.creator_receives, 0);
    assert_eq!(blob.creator_refund, 0);
}

#[test]
fn fully_filled_deal_executes() {
    let deal = DealState { amount: 100, price: ONE, fill_amount: 100 };
    let balance = BalanceState { amount: 100, committed_amount: 100 };
    let (balance2, blob, balance_blob, status) = crank_deal(deal, balance, false, false);
    assert_eq!(blob.total_filled, 100);
    assert_eq!(blob.creator_receives, 100);
    assert_eq!(blob.creator_refund, 0);
    assert_eq!(status, DealStatus::Executed);
    assert_eq!(status.as_code(), 1);
    // full commitment released, sold base debited
    assert_eq!(balance2.amount, 0);
    assert_eq!(balance2.committed_amount, 0);
    assert_eq!(balance_blob.amount, 0);
    assert_eq!(balance_blob.committed_amount, 0);
}

#[test]
fn expired_partial_fill_executes_when_allowed() {
    let deal = DealState { amount: 100, price: ONE, fill_amount: 40 };
    let balance = BalanceState { amount: 100, committed_amount: 100 };
    let (balance2, blob, _, status) = crank_deal(deal, balance, true, true);
    assert_eq!(blob.total_filled, 40);
    assert_eq!(blob.creator_receives, 40);
    assert_eq!(blob.creator_refund, 60);
    assert_eq!(status, DealStatus::Executed);
    assert_eq!(balance2.amount, 60);
    assert_eq!(balance2.committed_amount, 0);
}

#[test]
fn expired_partial_fill_voided_when_not_allowed() {
    let deal = DealState { amount: 100, price: ONE, fill_amount: 40 };
    let balance = BalanceState { amount: 100, committed_amount: 100 };
    let (balance2, blob, _, status) = crank_deal(deal, balance, true, false);
    assert_eq!(blob.total_filled, 0);
    assert_eq!(blob.creator_receives, 0);
    assert_eq!(blob.creator_refund, 100);
    assert_eq!(status, DealStatus::Expired);
    assert_eq!(status.as_code(), 2);
    assert_eq!(balance2.amount, 100);
    assert_eq!(balance2.committed_amount, 0);
}

#[test]
fn expired_empty_deal_expires() {
    let deal = DealState { amount: 100, price: ONE, fill_amount: 0 };
    let balance = BalanceState { amount: 100, committed_amount: 100 };
    let (balance2, blob, _, status) = crank_deal(deal, balance, true, true);
    assert_eq!(blob.total_filled, 0);
    assert_eq!(blob.creator_refund, 100);
    assert_eq!(status, DealStatus::Expired);
    assert_eq!(balance2.amount, 100);
    assert_eq!(balance2.committed_amount, 0);
}

#[test]
fn offer_pays_deal_price_not_its_own() {
    // offer priced at 2.0 against a deal that settles at 1.0
    let deal = DealState { amount: 100, price: ONE, fill_amount: 100 };
    let offer = OfferState { price: 2 * ONE, amount: 50, amt_to_execute: 30 };
    let balance = BalanceState { amount: 200, committed_amount: 100 };
    let (balance2, blob, balance_blob) = crank_offer(deal, offer, balance, true);
    assert_eq!(blob.executed_amt, 30);
    assert_eq!(blob.quote_paid, 30);
    // committed was 50 * 2.0 = 100; refund covers the 20 unexecuted units
    // at 2.0 plus the price spread on the 30 executed: 100 - 30 = 70
    assert_eq!(blob.quote_refund, 70);
    assert_eq!(blob.outcome, OfferOutcome::Partial);
    assert_eq!(blob.outcome.as_code(), 1);
    assert_eq!(balance2.amount, 170);
    assert_eq!(balance2.committed_amount, 0);
    assert_eq!(balance_blob.amount, 170);
    assert_eq!(balance_blob.committed_amount, 0);
}

#[test]
fn offer_on_failed_deal_is_fully_refunded() {
    let deal = DealState { amount: 100, price: ONE, fill_amount: 40 };
    let offer = OfferState { price: 2 * ONE, amount: 50, amt_to_execute: 30 };
    let balance = BalanceState { amount: 200, committed_amount: 100 };
    let (balance2, blob, _) = crank_offer(deal, offer, balance, false);
    assert_eq!(blob.executed_amt, 0);
    assert_eq!(blob.quote_paid, 0);
    assert_eq!(blob.quote_refund, 100);
    assert_eq!(blob.outcome, OfferOutcome::Failed);
    assert_eq!(blob.outcome.as_code(), 2);
    assert_eq!(balance2.amount, 200);
    assert_eq!(balance2.committed_amount, 0);
}

#[test]
fn offer_fully_executed_when_request_met() {
    let deal = DealState { amount: 100, price: ONE, fill_amount: 100 };
    let offer = OfferState { price: ONE, amount: 30, amt_to_execute: 30 };
    let balance = BalanceState { amount: 30, committed_amount: 30 };
    let (balance2, blob, _) = crank_offer(deal, offer, balance, true);
    assert_eq!(blob.executed_amt, 30);
    assert_eq!(blob.quote_paid, 30);
    assert_eq!(blob.quote_refund, 0);
    assert_eq!(blob.outcome, OfferOutcome::Executed);
    assert_eq!(blob.outcome.as_code(), 0);
    assert_eq!(balance2.amount, 0);
    assert_eq!(balance2.committed_amount, 0);
}

#[test]
fn commitment_locked_at_submit_is_released_at_crank() {
    // the committed amount rises by the quote commitment and returns to its
    // starting point once the offer settles, success or not
    let deal = DealState { amount: 100, price: ONE, fill_amount: 0 };
    let start = BalanceState { amount: 1000, committed_amount: 17 };
    let request = OfferInput { price: 2 * ONE, amount: 50 };
    let (deal2, offer, locked, _) = submit_offer(deal, request, start);
    assert_eq!(locked.committed_amount, start.committed_amount + 100);
    for success in [true, false] {
        let (after, _, _) = crank_offer(deal2, offer, locked, success);
        assert_eq!(after.committed_amount, start.committed_amount);
    }
}
