//! Verified core of a per-collection price-registry ledger program.
//!
//! The library models the registry record, its byte layout, the
//! authorization protocol for mutations, deterministic seeded addressing,
//! and the orchestration of an external compressed-tree resource. The
//! host environment (account loading, transaction atomicity, event log,
//! cross-program calls) stays outside; it hands the library plain values
//! and applies the results.

pub mod addressing;
pub mod auth;
pub mod errors;
pub mod events;
pub mod identity;
pub mod layout;
pub mod orchestrator;
pub mod registry;
