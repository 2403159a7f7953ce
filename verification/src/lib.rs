//! A credential vault: namespace-scoped storage of per-provider API keys on
//! top of a platform secret store, with defined semantics for absence,
//! overwrite, idempotent deletion, aggregation, and self-verification.

pub mod keys;
pub mod store;
pub mod platform;
pub mod vault;
pub mod laws;
