//! PIV1: checked-integer accounting primitives and the bounded pure state
//! model of a perpetual-principal vault, with their contracts proved by Verus.

pub mod account_view;
pub mod accounts;
pub mod address;
pub mod bitmap;
pub mod codec;
pub mod constants;
pub mod errors;
pub mod events;
pub mod genesis_allocation;
pub mod genesis_initialization;
pub mod genesis_model;
pub mod genesis_preflight;
pub mod genesis_recipients;
pub mod guardian_clock_accounts;
pub mod instruction_boundary;
pub mod instruction_errors;
pub mod instructions;
pub mod integrations;
pub mod kif_claim_accounts;
pub mod kif_claim_execution;
pub mod laws;
pub mod math;
pub mod pending_accounts;
pub mod squads_accounts;
pub mod squads_execution;
pub mod state;
pub mod state_persistence;
