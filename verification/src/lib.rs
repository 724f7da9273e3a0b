//! Helpers for preparing and driving a simulated ledger in tests.
//!
//! The crate computes what a test wants the ledger to hold or to do: the
//! account records to seed before the runtime starts, the transactions that
//! create token state on a running ledger, the interpretation of fetched
//! account data, and the clock jump that reaches a wall-clock timestamp.
//! Talking to the runtime itself is left to the caller.

pub mod address;
pub mod clock;
pub mod codec;
pub mod fetch;
pub mod flow;
pub mod instruction;
pub mod ledger;
pub mod rent;
pub mod token;
pub mod transaction;
