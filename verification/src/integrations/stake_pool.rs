//! Narrow deterministic boundary for a stake-pool adapter: values and the
//! pure validation of pool observations. No account decoding, CPI or fund
//! movement happens here.

use vstd::prelude::*;

verus! {

/// Basis-point denominator used by protected adapter operations.
pub const SLIPPAGE_BASIS_POINTS_DENOMINATOR: u64 = 10_000;
/// Immutable slippage ceiling accepted by the adapter boundary.
pub const MAX_PROTECTED_SLIPPAGE_BPS: u16 = 1;

/// A validated fee fraction used for one pool operation. Zero fee is
/// represented canonically as `0 / 1`; a zero denominator is always rejected.
#[derive(Clone, Copy, Debug, PartialEq, Eq, Structural)]
pub struct FeeFraction {
    pub numerator: u64,
    pub denominator: u64,
}

/// Outcome of validating a fee fraction.
pub open spec fn spec_fee_validate(fee: FeeFraction) -> StakePoolResult<()> {
    if fee.denominator == 0 {
        Err(StakePoolError::DivisionByZero)
    } else if fee.numerator >= fee.denominator {
        Err(StakePoolError::InvalidFee)
    } else {
        Ok(())
    }
}

impl FeeFraction {
    /// Canonical zero-fee value `0 / 1`.
    pub fn zero() -> (r: FeeFraction)
        ensures
            r == (FeeFraction { numerator: 0, denominator: 1 }),
    {
        FeeFraction { numerator: 0, denominator: 1 }
    }

    /// Rejects division by zero and fractions at or above one whole unit.
    pub fn validate(self) -> (r: StakePoolResult<()>)
        ensures
            r == spec_fee_validate(self),
    {
        if self.denominator == 0 {
            return Err(StakePoolError::DivisionByZero);
        }
        if self.numerator >= self.denominator {
            return Err(StakePoolError::InvalidFee);
        }
        Ok(())
    }
}

/// Bounded identity binding a quote to one exact pool observation.
#[derive(Clone, Copy, Debug, PartialEq, Eq, Structural)]
pub struct PoolSnapshotIdentity {
    pub current_epoch: u64,
    pub last_update_epoch: u64,
    pub revision: u64,
}

/// Account-independent pool facts needed by PIV1's narrow integration seam.
///
/// `maximum_deposit_lamports` is a bounded adapter capacity. The host mock uses
/// it to simulate unavailable deposit liquidity; its exact Phase 3 mapping is
/// provisional. `available_withdrawal_lamports` is the currently usable native
/// pool liquidity after adapter-specific safety reservations.
#[derive(Clone, Copy, Debug, PartialEq, Eq, Structural)]
pub struct PoolSnapshot {
    pub current_epoch: u64,
    pub last_update_epoch: u64,
    pub total_pool_lamports: u64,
    pub pool_token_supply: u64,
    pub sol_deposit_fee: FeeFraction,
    pub stake_withdrawal_fee: FeeFraction,
    pub minimum_delegation_lamports: u64,
    pub maximum_deposit_lamports: u64,
    pub available_withdrawal_lamports: u64,
    pub revision: u64,
}

/// Inputs used to quote or execute a protected native-SOL deposit.
///
/// Implementations independently derive their configured slippage floor and
/// use the greater of that floor and `caller_minimum_pool_tokens_out`; a caller
/// therefore cannot weaken the protected floor.
#[derive(Clone, Copy, Debug, PartialEq, Eq, Structural)]
pub struct SolDepositRequest {
    pub snapshot: PoolSnapshotIdentity,
    pub native_lamports: u64,
    pub caller_minimum_pool_tokens_out: u64,
    pub slippage_bps: u16,
}

/// Deterministic protected-deposit quote derived by an adapter.
#[derive(Clone, Copy, Debug, PartialEq, Eq, Structural)]
pub struct SolDepositQuote {
    pub snapshot: PoolSnapshotIdentity,
    pub native_lamports: u64,
    pub gross_pool_tokens: u64,
    pub deposit_fee_pool_tokens: u64,
    pub quoted_pool_tokens_out: u64,
    pub derived_slippage_floor_pool_tokens: u64,
    pub minimum_pool_tokens_out: u64,
}

/// Observed result of a protected deposit execution.
#[derive(Clone, Copy, Debug, PartialEq, Eq, Structural)]
pub struct SolDepositExecution {
    pub quote: SolDepositQuote,
    pub actual_pool_tokens_out: u64,
    pub actual_fee_pool_tokens: u64,
}

/// Deterministic identifier for one `(distribution sequence, leg index)`.
#[derive(Clone, Copy, Debug, PartialEq, Eq, PartialOrd, Ord, Structural)]
pub struct WithdrawalId {
    pub sequence: u64,
    pub leg_index: u64,
}

/// Bounded adapter-local identity for one validated withdrawal source.
#[derive(Clone, Copy, Debug, PartialEq, Eq, PartialOrd, Ord, Structural)]
pub struct WithdrawalSourceId(pub u32);

/// Inputs used to quote or initiate one maximum-safe protected withdrawal leg.
///
/// `remaining_pool_token_target` is the fixed unassigned round target. The
/// adapter, not the caller, chooses the leg input as the smaller of that target
/// and the validated source capacity.
#[derive(Clone, Copy, Debug, PartialEq, Eq, Structural)]
pub struct StakeWithdrawalRequest {
    pub snapshot: PoolSnapshotIdentity,
    pub withdrawal_id: WithdrawalId,
    pub source_id: WithdrawalSourceId,
    pub remaining_pool_token_target: u64,
    pub caller_minimum_native_lamports_out: u64,
    pub slippage_bps: u16,
}

/// Deterministic quote for one protected maximum-safe withdrawal leg.
#[derive(Clone, Copy, Debug, PartialEq, Eq, Structural)]
pub struct StakeWithdrawalQuote {
    pub snapshot: PoolSnapshotIdentity,
    pub withdrawal_id: WithdrawalId,
    pub source_id: WithdrawalSourceId,
    pub remaining_pool_token_target: u64,
    pub source_capacity_pool_tokens: u64,
    pub technical_minimum_pool_tokens: u64,
    pub pool_tokens_in: u64,
    pub withdrawal_fee_pool_tokens: u64,
    pub burned_pool_tokens: u64,
    pub expected_delegated_native_lamports: u64,
    pub derived_slippage_floor_native_lamports: u64,
    pub minimum_native_lamports_out: u64,
}

/// Delayed lifecycle states represented at the adapter boundary.
#[derive(Clone, Copy, Debug, PartialEq, Eq, Structural)]
pub enum DelayedWithdrawalStatus {
    Initiated,
    Deactivating,
    Inactive,
    Finalized,
}

/// Result recorded after a protected withdrawal leg is initiated.
#[derive(Clone, Copy, Debug, PartialEq, Eq, Structural)]
pub struct StakeWithdrawalInitiation {
    pub quote: StakeWithdrawalQuote,
    pub actual_delegated_native_lamports: u64,
    pub initiation_epoch: u64,
    pub deactivation_epoch: u64,
    pub first_eligible_finalization_epoch: u64,
    pub status: DelayedWithdrawalStatus,
    pub stake_rent_lamports: u64,
    pub metadata_rent_lamports: u64,
}

/// Read-only delayed status for one known withdrawal identifier.
#[derive(Clone, Copy, Debug, PartialEq, Eq, Structural)]
pub struct DelayedWithdrawal {
    pub withdrawal_id: WithdrawalId,
    pub status: DelayedWithdrawalStatus,
    pub initiation_epoch: u64,
    pub deactivation_epoch: u64,
    pub first_eligible_finalization_epoch: u64,
    pub delegated_native_lamports: u64,
    pub stake_rent_lamports: u64,
    pub metadata_rent_lamports: u64,
}

/// Input for replay-protected finalization of one inactive withdrawal leg.
#[derive(Clone, Copy, Debug, PartialEq, Eq, Structural)]
pub struct FinalizeWithdrawalRequest {
    pub withdrawal_id: WithdrawalId,
}

/// Exact categorized result of successful delayed finalization.
#[derive(Clone, Copy, Debug, PartialEq, Eq, Structural)]
pub struct StakeWithdrawalFinalization {
    pub withdrawal_id: WithdrawalId,
    pub status: DelayedWithdrawalStatus,
    pub initiation_epoch: u64,
    pub deactivation_epoch: u64,
    pub first_eligible_finalization_epoch: u64,
    pub finalized_epoch: u64,
    pub delegated_native_lamports: u64,
    pub cooldown_reward_lamports: u64,
    pub cooldown_loss_lamports: u64,
    pub recovered_stake_rent_lamports: u64,
    pub recovered_metadata_rent_lamports: u64,
    pub finalized_native_lamports: u64,
}

/// Explicit bounded failures for the production seam and host mock.
#[derive(Clone, Copy, Debug, PartialEq, Eq, Structural)]
pub enum StakePoolError {
    InvalidSnapshot,
    InvalidConfiguration,
    StalePool,
    StaleQuote,
    ZeroInput,
    DivisionByZero,
    ArithmeticOverflow,
    NarrowingConversion,
    InvalidFee,
    InvalidSlippage,
    SlippageExceeded,
    TechnicalMinimumNotMet,
    InsufficientPoolLiquidity,
    UnknownWithdrawalSource,
    InsufficientSourceCapacity,
    InsufficientOperationalRent,
    UnknownWithdrawalIdentifier,
    IdentifierReuse,
    WithdrawalNotInactive,
    AlreadyFinalized,
    InjectedMockFailure,
}

/// Outcome of validating a pool snapshot: freshness first, then intrinsic
/// consistency, then both fees.
pub open spec fn spec_pool_validate(s: PoolSnapshot) -> StakePoolResult<()> {
    if s.last_update_epoch > s.current_epoch {
        Err(StakePoolError::InvalidSnapshot)
    } else if s.last_update_epoch < s.current_epoch {
        Err(StakePoolError::StalePool)
    } else if (s.total_pool_lamports == 0) != (s.pool_token_supply == 0)
        || s.available_withdrawal_lamports > s.total_pool_lamports
        || s.minimum_delegation_lamports == 0 {
        Err(StakePoolError::InvalidSnapshot)
    } else if spec_fee_validate(s.sol_deposit_fee) is Err {
        spec_fee_validate(s.sol_deposit_fee)
    } else {
        spec_fee_validate(s.stake_withdrawal_fee)
    }
}

impl PoolSnapshot {
    /// Returns the bounded identity that every quote and execution must bind.
    pub fn identity(self) -> (r: PoolSnapshotIdentity)
        ensures
            r == (PoolSnapshotIdentity {
                current_epoch: self.current_epoch,
                last_update_epoch: self.last_update_epoch,
                revision: self.revision,
            }),
    {
        PoolSnapshotIdentity {
            current_epoch: self.current_epoch,
            last_update_epoch: self.last_update_epoch,
            revision: self.revision,
        }
    }

    /// True only for the explicit empty-pool bootstrap representation.
    pub fn is_bootstrap(self) -> (r: bool)
        ensures
            r == (self.total_pool_lamports == 0 && self.pool_token_supply == 0),
    {
        self.total_pool_lamports == 0 && self.pool_token_supply == 0
    }

    /// Validates intrinsic snapshot consistency and current-epoch freshness.
    pub fn validate(self) -> (r: StakePoolResult<()>)
        ensures
            r == spec_pool_validate(self),
    {
        if self.last_update_epoch > self.current_epoch {
            return Err(StakePoolError::InvalidSnapshot);
        }
        if self.last_update_epoch < self.current_epoch {
            return Err(StakePoolError::StalePool);
        }
        if (self.total_pool_lamports == 0) != (self.pool_token_supply == 0)
            || self.available_withdrawal_lamports > self.total_pool_lamports
            || self.minimum_delegation_lamports == 0 {
            return Err(StakePoolError::InvalidSnapshot);
        }
        self.sol_deposit_fee.validate()?;
        self.stake_withdrawal_fee.validate()?;
        Ok(())
    }
}

/// The human-readable description of each failure.
pub open spec fn spec_message(e: StakePoolError) -> Seq<char> {
    match e {
        StakePoolError::InvalidSnapshot => "invalid stake-pool snapshot"@,
        StakePoolError::InvalidConfiguration => "invalid adapter configuration"@,
        StakePoolError::StalePool => "stake-pool state is stale"@,
        StakePoolError::StaleQuote => "quote snapshot no longer matches the pool"@,
        StakePoolError::ZeroInput => "operation input is zero"@,
        StakePoolError::DivisionByZero => "division by zero"@,
        StakePoolError::ArithmeticOverflow => "checked arithmetic overflow"@,
        StakePoolError::NarrowingConversion => "wide result cannot be represented as u64"@,
        StakePoolError::InvalidFee => "invalid fee fraction"@,
        StakePoolError::InvalidSlippage => "slippage exceeds the immutable adapter bound"@,
        StakePoolError::SlippageExceeded => "protected minimum output is not satisfied"@,
        StakePoolError::TechnicalMinimumNotMet => "technical withdrawal minimum not met"@,
        StakePoolError::InsufficientPoolLiquidity => "insufficient pool liquidity"@,
        StakePoolError::UnknownWithdrawalSource => "unknown withdrawal source"@,
        StakePoolError::InsufficientSourceCapacity => "insufficient withdrawal-source capacity"@,
        StakePoolError::InsufficientOperationalRent => "insufficient operational rent capacity"@,
        StakePoolError::UnknownWithdrawalIdentifier => "unknown withdrawal identifier"@,
        StakePoolError::IdentifierReuse => "withdrawal identifier already exists"@,
        StakePoolError::WithdrawalNotInactive => "withdrawal is not inactive"@,
        StakePoolError::AlreadyFinalized => "withdrawal was already finalized"@,
        StakePoolError::InjectedMockFailure => "host mock failure injected"@,
    }
}

impl StakePoolError {
    /// Human-readable description of the failure.
    pub fn message(&self) -> (s: String)
        ensures
            s@ == spec_message(*self),
    {
        match self {
            StakePoolError::InvalidSnapshot => "invalid stake-pool snapshot".to_owned(),
            StakePoolError::InvalidConfiguration => "invalid adapter configuration".to_owned(),
            StakePoolError::StalePool => "stake-pool state is stale".to_owned(),
            StakePoolError::StaleQuote => "quote snapshot no longer matches the pool".to_owned(),
            StakePoolError::ZeroInput => "operation input is zero".to_owned(),
            StakePoolError::DivisionByZero => "division by zero".to_owned(),
            StakePoolError::ArithmeticOverflow => "checked arithmetic overflow".to_owned(),
            StakePoolError::NarrowingConversion => "wide result cannot be represented as u64".to_owned(),
            StakePoolError::InvalidFee => "invalid fee fraction".to_owned(),
            StakePoolError::InvalidSlippage => "slippage exceeds the immutable adapter bound".to_owned(),
            StakePoolError::SlippageExceeded => "protected minimum output is not satisfied".to_owned(),
            StakePoolError::TechnicalMinimumNotMet => "technical withdrawal minimum not met".to_owned(),
            StakePoolError::InsufficientPoolLiquidity => "insufficient pool liquidity".to_owned(),
            StakePoolError::UnknownWithdrawalSource => "unknown withdrawal source".to_owned(),
            StakePoolError::InsufficientSourceCapacity => "insufficient withdrawal-source capacity".to_owned(),
            StakePoolError::InsufficientOperationalRent => "insufficient operational rent capacity".to_owned(),
            StakePoolError::UnknownWithdrawalIdentifier => "unknown withdrawal identifier".to_owned(),
            StakePoolError::IdentifierReuse => "withdrawal identifier already exists".to_owned(),
            StakePoolError::WithdrawalNotInactive => "withdrawal is not inactive".to_owned(),
            StakePoolError::AlreadyFinalized => "withdrawal was already finalized".to_owned(),
            StakePoolError::InjectedMockFailure => "host mock failure injected".to_owned(),
        }
    }
}

/// Result alias for the bounded stake-pool seam.
pub type StakePoolResult<T> = Result<T, StakePoolError>;

/// Statically dispatched, synchronous contract used by future PIV1 handlers.
///
/// Quote outputs are informational. Execution methods accept the original
/// bounded request, revalidate its snapshot identity, and independently derive
/// all outputs; they never accept a caller-provided object labeled as
/// "validated." Implementations must commit no partial mutation on failure.
pub trait StakePoolAdapter: Sized {
    fn pool_snapshot(&self) -> StakePoolResult<PoolSnapshot>;

    fn quote_sol_deposit(
        &self,
        request: SolDepositRequest,
    ) -> StakePoolResult<SolDepositQuote>;

    fn execute_protected_sol_deposit(
        &mut self,
        request: SolDepositRequest,
    ) -> StakePoolResult<SolDepositExecution>;

    fn quote_stake_withdrawal(
        &self,
        request: StakeWithdrawalRequest,
    ) -> StakePoolResult<StakeWithdrawalQuote>;

    fn initiate_protected_stake_withdrawal(
        &mut self,
        request: StakeWithdrawalRequest,
    ) -> StakePoolResult<StakeWithdrawalInitiation>;

    fn delayed_withdrawal(
        &self,
        withdrawal_id: WithdrawalId,
    ) -> StakePoolResult<DelayedWithdrawal>;

    fn finalize_delayed_stake_withdrawal(
        &mut self,
        request: FinalizeWithdrawalRequest,
    ) -> StakePoolResult<StakeWithdrawalFinalization>;
}

} // verus!
