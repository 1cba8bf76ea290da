//! Verified core of a per-account wallet service: current balances with a
//! non-negative invariant, an append-only transaction ledger, and the engine
//! that applies a balance delta and records the outcome of every attempt.
//!
//! Monetary values are exact signed integers counting the smallest currency
//! unit — never floating point, which could misrepresent a sum — and account
//! identifiers are the 128-bit integer form of their UUID.

pub mod deltas;
pub mod engine;
pub mod errors;
pub mod ledger;
pub mod responses;
pub mod store;
