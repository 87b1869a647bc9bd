//! Resilient networking client core for a blockchain-style ledger SDK.
//!
//! The crate models the observable behaviour of the client as verified,
//! deterministic state machines: endpoint election by measured latency and
//! liveness, query retry with transport/logical error classification,
//! subscription suspend/resume, and parallel message fan-out with
//! first-success-wins races. All network I/O happens outside the library;
//! callers hand the outcomes of that I/O to the functions here, which decide
//! every next step under contracts.

pub mod config;
pub mod elect;
pub mod endpoint;
pub mod errors;
pub mod link;
pub mod query;
pub mod send;
pub mod subs;
pub mod wire;
