//! Status and outcome sum types, with their small-integer wire codes.
//!
//! Internally every state is a tagged enum; only the boundary that stores or
//! transmits a status marshals it to a `u8` code.

use vstd::prelude::*;

verus! {

/// Lifecycle of a deal. Terminal once it leaves `Open`.
#[derive(Clone, Copy, Debug, PartialEq, Eq, Structural)]
pub enum DealStatus {
    /// Accepting offers; code 0.
    Open,
    /// Settled with at least one executed fill; code 1.
    Executed,
    /// Settled with nothing executed; code 2.
    Expired,
}

/// Lifecycle of an offer. Terminal once `Settled`.
#[derive(Clone, Copy, Debug, PartialEq, Eq, Structural)]
pub enum OfferStatus {
    /// Waiting for its deal to settle.
    Open,
    /// Cranked exactly once after the deal settled.
    Settled,
}

/// Settlement-time classification of a single offer; not a stored status.
#[derive(Clone, Copy, Debug, PartialEq, Eq, Structural)]
pub enum OfferOutcome {
    /// The full requested amount executed; code 0.
    Executed,
    /// Some, but not all, of the requested amount executed; code 1.
    Partial,
    /// Nothing executed; code 2.
    Failed,
}

impl DealStatus {
    /// The wire code of this status.
    pub open spec fn spec_code(self) -> u8 {
        match self {
            DealStatus::Open => 0,
            DealStatus::Executed => 1,
            DealStatus::Expired => 2,
        }
    }

    /// Marshal to the small-integer code used at the boundary.
    pub fn as_code(self) -> (r: u8)
        ensures
            r == self.spec_code(),
    {
        match self {
            DealStatus::Open => 0,
            DealStatus::Executed => 1,
            DealStatus::Expired => 2,
        }
    }

    /// Unmarshal a wire code; `None` for codes outside the status range.
    pub fn from_code(code: u8) -> (r: Option<DealStatus>)
        ensures
            (match r {
                Some(s) => s.spec_code() == code,
                None => code > 2,
            }),
    {
        match code {
            0 => Some(DealStatus::Open),
            1 => Some(DealStatus::Executed),
            2 => Some(DealStatus::Expired),
            _ => None,
        }
    }
}

impl OfferOutcome {
    /// The wire code of this outcome.
    pub open spec fn spec_code(self) -> u8 {
        match self {
            OfferOutcome::Executed => 0,
            OfferOutcome::Partial => 1,
            OfferOutcome::Failed => 2,
        }
    }

    /// Marshal to the small-integer code used at the boundary.
    pub fn as_code(self) -> (r: u8)
        ensures
            r == self.spec_code(),
    {
        match self {
            OfferOutcome::Executed => 0,
            OfferOutcome::Partial => 1,
            OfferOutcome::Failed => 2,
        }
    }
}

} // verus!
