//! Allocation and payout engine for owner-controlled custody vaults.
//!
//! A vault holds deposited balances, a whitelist of asset kinds, a roster of
//! members with percentage or fixed allocations, and an optional payout
//! schedule.  The engine validates every mutation against the vault's
//! invariants, computes fee/net splits in basis points, and sequences
//! scheduled and batched payouts.  All state lives in plain values; the host
//! that persists records, authenticates the owner and moves funds calls in
//! with the current time and applies the computed transfers.

pub mod config;
pub mod deposit;
pub mod errors;
pub mod laws;
pub mod member;
pub mod payout;
pub mod payout_batch;
pub mod roster;
pub mod vault_account;
