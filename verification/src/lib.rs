//! Settlement core for confidential over-the-counter (OTC) trades.
//!
//! A creator opens a *deal* that sells a fixed base-asset amount at a fixed
//! X64.64 fixed-point price. Buyers place *offers* against it; each offer's
//! executed amount is fixed at submission, first come first served against
//! the deal's remaining capacity. After expiry or a full fill, the deal and
//! each of its offers are *cranked* into a terminal settled state, releasing
//! the escrow commitments held in per-participant balances.
//!
//! Every operation is a pure function from plaintext state to plaintext
//! state: decryption of inputs, re-encryption of outputs, account storage
//! and authorization live in an outer layer that calls into this crate.

pub mod admission;
pub mod balance;
pub mod counter;
pub mod deal;
pub mod fixed_point;
pub mod offer;
pub mod settlement;
pub mod status;
