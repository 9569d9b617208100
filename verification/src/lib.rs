//! Standing health-check probes for blockchain RPC fee-history endpoints.
//!
//! A fixed registry of (chain, provider) endpoints is turned into staggered
//! one-shot probe tasks. Each probe asks an external RPC aggregator for
//! recent fee history, classifies the response as a success or a specific
//! failure, and appends one entry to a bounded in-memory log that can be
//! read back at any time.

pub mod types;
pub mod validator;
pub mod logstore;
pub mod probe;
pub mod scheduler;
pub mod registry;
