//! Admission checks the outer layer runs before invoking a settlement step.
//!
//! The core itself has no error channel; these gates decide, from the
//! plaintext status, deadline and authorization facts the ledger holds,
//! whether an operation may be queued at all, and with which error it is
//! turned away otherwise.

use vstd::prelude::*;
use crate::status::DealStatus;
use crate::status::OfferStatus;

verus! {

/// The validation errors the admission gates can turn a caller away with.
#[derive(Clone, Copy, Debug, PartialEq, Eq, Structural)]
pub enum ErrorCode {
    /// The deal has already left its open state.
    DealNotOpen,
    /// The deal's deadline has passed.
    DealExpired,
    /// The caller is not allowed to perform this action.
    NotAuthorized,
    /// The deal has not been settled yet.
    DealNotSettled,
    /// The offer has already been settled.
    OfferAlreadySettled,
    /// The offer does not belong to this deal.
    DealMismatch,
}

/// May an offer be submitted? Only against a deal that is still open and
/// whose deadline lies strictly in the future.
pub fn check_submit_offer(deal_status: DealStatus, expires_at: i64, now: i64) -> (r: Result<
    (),
    ErrorCode,
>)
    ensures
        r == (if deal_status != DealStatus::Open {
            Err::<(), ErrorCode>(ErrorCode::DealNotOpen)
        } else if expires_at <= now {
            Err::<(), ErrorCode>(ErrorCode::DealExpired)
        } else {
            Ok::<(), ErrorCode>(())
        }),
{
    if !matches!(deal_status, DealStatus::Open) {
        Err(ErrorCode::DealNotOpen)
    } else if expires_at <= now {
        Err(ErrorCode::DealExpired)
    } else {
        Ok(())
    }
}

/// May a deal be cranked? Only while open; before expiry only its controller
/// may crank, after expiry anyone may. On success the returned flag says
/// whether the deal counts as expired for settlement.
pub fn check_crank_deal(
    deal_status: DealStatus,
    expires_at: i64,
    now: i64,
    payer_is_controller: bool,
) -> (r: Result<bool, ErrorCode>)
    ensures
        r == (if deal_status != DealStatus::Open {
            Err::<bool, ErrorCode>(ErrorCode::DealNotOpen)
        } else if expires_at > now && !payer_is_controller {
            Err::<bool, ErrorCode>(ErrorCode::NotAuthorized)
        } else {
            Ok::<bool, ErrorCode>(expires_at <= now)
        }),
{
    if !matches!(deal_status, DealStatus::Open) {
        Err(ErrorCode::DealNotOpen)
    } else {
        let is_expired: bool = expires_at <= now;
        if !is_expired && !payer_is_controller {
            Err(ErrorCode::NotAuthorized)
        } else {
            Ok(is_expired)
        }
    }
}

/// May an offer be cranked? Only an offer of this very deal, after the deal
/// has settled and before the offer has. On success the returned flag says
/// whether the deal executed, which decides the offer's payout.
pub fn check_crank_offer(
    deal_status: DealStatus,
    offer_status: OfferStatus,
    offer_belongs_to_deal: bool,
) -> (r: Result<bool, ErrorCode>)
    ensures
        r == (if !offer_belongs_to_deal {
            Err::<bool, ErrorCode>(ErrorCode::DealMismatch)
        } else if deal_status == DealStatus::Open {
            Err::<bool, ErrorCode>(ErrorCode::DealNotSettled)
        } else if offer_status == OfferStatus::Settled {
            Err::<bool, ErrorCode>(ErrorCode::OfferAlreadySettled)
        } else {
            Ok::<bool, ErrorCode>(deal_status == DealStatus::Executed)
        }),
{
    if !offer_belongs_to_deal {
        Err(ErrorCode::DealMismatch)
    } else if matches!(deal_status, DealStatus::Open) {
        Err(ErrorCode::DealNotSettled)
    } else if matches!(offer_status, OfferStatus::Settled) {
        Err(ErrorCode::OfferAlreadySettled)
    } else {
        Ok(matches!(deal_status, DealStatus::Executed))
    }
}

} // verus!
