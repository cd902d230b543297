//! Core of an on-chain sell-side trading engine.
//!
//! The library has two halves: extraction of normalized trade records from
//! streamed transaction updates, and a resilient sell executor that retries a
//! primary venue, falls back to an aggregator venue, and verifies on-chain
//! settlement before reporting success.  All decision logic is verified; the
//! surrounding I/O (RPC queries, transaction submission, sleeps) lives in the
//! unverified application shell, which drives the state machines defined here.

pub mod decode;
pub mod textscan;
pub mod transaction_parser;
pub mod transaction_retry;
