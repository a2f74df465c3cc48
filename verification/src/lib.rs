//! The verified logic of the current-boot hello service: canonical
//! `key=value` record hashing, the artifact load plan preflight and its
//! self-test, and the rollback gates of a hot swap, from the append record
//! and sector plan dry runs through the writer policy, the durable append
//! authority and durable audit policy availability chain, to the durable
//! policy write authority decision that keeps every rollback append denied.

pub mod sha256;
pub mod canonical;
pub mod compare;
pub mod constants;
pub mod methods;
pub mod preflight;
pub mod foundation;
pub mod append_plan;
pub mod target_region;
pub mod sector_inspection;
pub mod inspect_source;
pub mod writer_gate;
pub mod audit_policy;
pub mod rollback_gate;
pub mod rollback_chain;
