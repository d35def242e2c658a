//! A staking ledger: a participant locks tokens in an escrow account for a
//! fixed period and, once it has passed, withdraws them together with a
//! reward paid from a shared vault.
//!
//! - `state`: the ledger entry, the balances an operation touches, errors.
//! - `engine`: the two operations, `stake` and `destake`.
//! - `laws`: properties that hold across sequences of operations.
//! - `units`: conversion of whole tokens into base units.
//! - `address`: seeds and program-derived addresses of the accounts.
//! - `constants`: the lock duration and the seeds.

pub mod address;
pub mod constants;
pub mod engine;
pub mod laws;
pub mod state;
pub mod units;
