//! An authorization-gated USD-to-SOL conversion engine.
//!
//! The library holds the verified decision logic of a small on-chain
//! program: a one-time, admin-only configuration of a trusted price
//! feed, and a conversion operation that turns a quoted USD amount
//! into lamports using a live price snapshot, then authorizes a
//! transfer of that amount from the caller to a destination.
//!
//! All account plumbing (storage handles, the oracle decoder, the
//! clock, the ledger transfer) lives outside; the library works on
//! plain values and says in its contracts exactly which outcome each
//! input produces.

pub mod convert;
pub mod error;
pub mod instruction;
pub mod processor;
pub mod state;
