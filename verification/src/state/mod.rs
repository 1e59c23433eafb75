//! Bounded state layouts and pure transition validation.

pub mod bootstrap;
pub mod timing;
pub mod distribution;
pub mod config;
pub mod contributions;
pub mod guardian;
pub mod kif_claim;
pub mod principal_deposit;
pub mod reconciliation;
pub mod transitions;
