//! Custody settlement engine: escrow, timed auction, raffle and fixed-rate swap
//! state machines that hold funds in program-owned custody and release them only
//! under stated state, time and authorization conditions.
//!
//! Every transition here is a pure decision over plain values: it takes the
//! entity's record, the caller's identity and the ledger clock, and either fails
//! with a named error leaving the record untouched, or updates the record and
//! returns the custody movements that the host runtime must carry out in the same
//! atomic step.

pub mod account;
pub mod transfer;
pub mod custody;
pub mod auction;
pub mod escrow;
pub mod raffle;
pub mod swap;

pub use account::AccountId;
pub use transfer::{custody_delta, custody_flow, party_delta, party_flow, Transfer};
