//! The factual KIF claim event and markers for the other logical boundaries.
//! The markers carry no data; state is the accounting authority.

use crate::address::Pubkey;
use vstd::prelude::*;

verus! {

/// Marker of a logical boundary; not an emitted event.
#[derive(Debug, Clone, Copy, Default, PartialEq, Eq, Structural)]
pub struct PivInitialized;

/// Marker of a logical boundary; not an emitted event.
#[derive(Debug, Clone, Copy, Default, PartialEq, Eq, Structural)]
pub struct SolContribution;

/// Marker of a logical boundary; not an emitted event.
#[derive(Debug, Clone, Copy, Default, PartialEq, Eq, Structural)]
pub struct JitoSolContribution;

/// Marker of a logical boundary; not an emitted event.
#[derive(Debug, Clone, Copy, Default, PartialEq, Eq, Structural)]
pub struct UntrackedBalanceReconciled;

/// Marker of a logical boundary; not an emitted event.
#[derive(Debug, Clone, Copy, Default, PartialEq, Eq, Structural)]
pub struct PendingSolStaked;

/// Marker of a logical boundary; not an emitted event.
#[derive(Debug, Clone, Copy, Default, PartialEq, Eq, Structural)]
pub struct DistributionPrepared;

/// Marker of a logical boundary; not an emitted event.
#[derive(Debug, Clone, Copy, Default, PartialEq, Eq, Structural)]
pub struct DelayedWithdrawalInitiated;

/// Marker of a logical boundary; not an emitted event.
#[derive(Debug, Clone, Copy, Default, PartialEq, Eq, Structural)]
pub struct WithdrawalLegInitiated;

/// Marker of a logical boundary; not an emitted event.
#[derive(Debug, Clone, Copy, Default, PartialEq, Eq, Structural)]
pub struct WithdrawalLegFinalized;

/// Marker of a logical boundary; not an emitted event.
#[derive(Debug, Clone, Copy, Default, PartialEq, Eq, Structural)]
pub struct WithdrawalReady;

/// Marker of a logical boundary; not an emitted event.
#[derive(Debug, Clone, Copy, Default, PartialEq, Eq, Structural)]
pub struct DistributionFinalized;

/// Marker of a logical boundary; not an emitted event.
#[derive(Debug, Clone, Copy, Default, PartialEq, Eq, Structural)]
pub struct PendingIntegrated;

/// Marker of a logical boundary; not an emitted event.
#[derive(Debug, Clone, Copy, Default, PartialEq, Eq, Structural)]
pub struct GuardianHeartbeat;

/// Marker of a logical boundary; not an emitted event.
#[derive(Debug, Clone, Copy, Default, PartialEq, Eq, Structural)]
pub struct KifRewardsCredited;

/// Marker of a logical boundary; not an emitted event.
#[derive(Debug, Clone, Copy, Default, PartialEq, Eq, Structural)]
pub struct PauseChanged;

/// Marker of a logical boundary; not an emitted event.
#[derive(Debug, Clone, Copy, Default, PartialEq, Eq, Structural)]
pub struct RecipientsUpdated;

/// Marker of a logical boundary; not an emitted event.
#[derive(Debug, Clone, Copy, Default, PartialEq, Eq, Structural)]
pub struct GuardianSetUpdated;

/// Marker of a logical boundary; not an emitted event.
#[derive(Debug, Clone, Copy, Default, PartialEq, Eq, Structural)]
pub struct StrategyConfigUpdated;

/// Emitted once after a successful claim execution and all its postchecks. A
/// later transaction failure can still leave logs, so consumers require
/// transaction success. The event neither creates liability nor replaces state.
#[derive(Debug, Clone, Copy, PartialEq, Eq, Structural)]
pub struct KifClaimed {
    pub guardian_reward: Pubkey,
    pub guardian: Pubkey,
    pub amount_lamports: u64,
}

} // verus!
