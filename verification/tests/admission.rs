use otc_core::admission::check_crank_deal;
use otc_core::admission::check_crank_offer;
use otc_core::admission::check_submit_offer;
use otc_core::admission::ErrorCode;
use otc_core::status::DealStatus;
use otc_core::status::OfferStatus;

#[test]
fn submit_admitted_on_open_unexpired_deal() {
    assert_eq!(check_submit_offer(DealStatus::Open, 100, 99), Ok(()));
}

#[test]
fn submit_refused_on_settled_deal() {
    assert_eq!(
        check_submit_offer(DealStatus::Executed, 100, 50),
        Err(ErrorCode::DealNotOpen)
    );
    assert_eq!(
        check_submit_offer(DealStatus::Expired, 100, 50),
        Err(ErrorCode::DealNotOpen)
    );
}

#[test]
fn submit_refused_after_deadline() {
    assert_eq!(
        check_submit_offer(DealStatus::Open, 100, 100),
        Err(ErrorCode::DealExpired)
    );
    assert_eq!(
        check_submit_offer(DealStatus::Open, 100, 101),
        Err(ErrorCode::DealExpired)
    );
}

#[test]
fn crank_deal_admitted_for_controller_before_expiry() {
    assert_eq!(check_crank_deal(DealStatus::Open, 100, 50, true), Ok(false));
}

#[test]
fn crank_deal_admitted_for_anyone_after_expiry() {
    assert_eq!(check_crank_deal(DealStatus::Open, 100, 100, false), Ok(true));
    assert_eq!(check_crank_deal(DealStatus::Open, 100, 200, true), Ok(true));
}

#[test]
fn crank_deal_refused_for_stranger_before_expiry() {
    assert_eq!(
        check_crank_deal(DealStatus::Open, 100, 50, false),
        Err(ErrorCode::NotAuthorized)
    );
}

#[test]
fn crank_deal_refused_once_settled() {
    assert_eq!(
        check_crank_deal(DealStatus::Executed, 100, 200, true),
        Err(ErrorCode::DealNotOpen)
    );
}

#[test]
fn crank_offer_admitted_after_deal_settles() {
    assert_eq!(
        check_crank_offer(DealStatus::Executed, OfferStatus::Open, true),
        Ok(true)
    );
    assert_eq!(
        check_crank_offer(DealStatus::Expired, OfferStatus::Open, true),
        Ok(false)
    );
}

#[test]
fn crank_offer_refused_while_deal_open() {
    assert_eq!(
        check_crank_offer(DealStatus::Open, OfferStatus::Open, true),
        Err(ErrorCode::DealNotSettled)
    );
}

#[test]
fn crank_offer_refused_when_already_settled() {
    assert_eq!(
        check_crank_offer(DealStatus::Executed, OfferStatus::Settled, true),
        Err(ErrorCode::OfferAlreadySettled)
    );
}

#[test]
fn crank_offer_refused_on_foreign_offer() {
    assert_eq!(
        check_crank_offer(DealStatus::Executed, OfferStatus::Open, false),
        Err(ErrorCode::DealMismatch)
    );
}

#[test]
fn deal_status_codes_round_trip() {
    for status in [DealStatus::Open, DealStatus::Executed, DealStatus::Expired] {
        assert_eq!(DealStatus::from_code(status.as_code()), Some(status));
    }
    assert_eq!(DealStatus::from_code(3), None);
    assert_eq!(DealStatus::from_code(u8::MAX), None);
}
