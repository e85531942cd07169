//! Confidential credit scoring for wallets.
//!
//! A wallet's activity metrics are scored by a fixed, deterministic formula
//! that is meant to run inside a confidential-compute boundary. Around the
//! formula sits the bookkeeping of the scoring protocol: one credit record per
//! wallet, a cooldown between submissions, a freshness window for disclosure,
//! the positional argument list handed to the compute service, and the
//! reconciliation of the service's asynchronous results.
//!
//! Nothing in this crate performs I/O: callers read the clock, dispatch
//! requests and emit events, and hand the library plain values.
//!
//! The functions of this crate are verified against their contracts, with
//! one exception. `circuit::comp_def_offset` calls `arcium_anchor`, whose code
//! Verus does not read: its contract, and the name `comp_def_offset_of` that
//! the contract speaks of, are taken on trust. The byte order of a nonce
//! rests in the same way on `vstd::bytes::u128_to_le_bytes`.

pub mod circuit;
pub mod errors;
pub mod orchestrator;
pub mod program;
pub mod record;
pub mod request;
pub mod scoring;
pub mod store;
