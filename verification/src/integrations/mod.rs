//! Integration seams: the stake-pool adapter boundary and the stake-pool
//! account-layout decoder.

pub mod jito_identity;
pub mod stake_pool;
