//! Protected conversion of recognized historical SOL while the bound round is
//! Idle. Only zero-fee conversions that preserve historical book value and
//! HWM coverage are accepted; even one lamport of integer loss is refused.

use crate::errors::{from_math, lift, Piv1Error, Piv1Result};
use crate::integrations::stake_pool::{
    spec_pool_validate, FeeFraction, PoolSnapshot, PoolSnapshotIdentity, SolDepositExecution,
    SolDepositQuote, SolDepositRequest, SLIPPAGE_BASIS_POINTS_DENOMINATOR,
};
use crate::math::{checked_mul_div_floor, spec_mul_div_floor};
use crate::state::config::PivConfig;
use crate::state::distribution::{
    checked_add, max_amount, max_u64, ActiveDistribution, DistributionLifecycle,
};
use crate::state::reconciliation::{
    economic_custody_surplus, observed_token_book_value, spec_book_value, spec_custody_binding,
    spec_surplus, validate_custody_state_binding, zero_amounts, EconomicCustodyObservation,
    EconomicVaultAmounts,
};
use vstd::prelude::*;

verus! {

/// Same-operation observations of one protected deposit.
#[derive(Clone, Copy, Debug, PartialEq, Eq, Structural)]
pub struct PrincipalSolDepositObservation {
    pub request: SolDepositRequest,
    pub execution: SolDepositExecution,
    pub pool_before: PoolSnapshot,
    pub pool_after: PoolSnapshot,
    pub custody_before: EconomicCustodyObservation,
    pub custody_after: EconomicCustodyObservation,
}

/// Exact conversion amounts and independently derived historical values.
#[derive(Clone, Copy, Debug, PartialEq, Eq, Structural)]
pub struct PrincipalSolDepositRecord {
    pub deposited_sol_lamports: u64,
    pub minted_jitosol_units: u64,
    pub historical_value_before_lamports: u64,
    pub historical_value_after_lamports: u64,
}

/// Outcome of checking that principal and pending tokens fit in the pool supply.
pub open spec fn spec_combined_supply(custody: EconomicCustodyObservation, pool: PoolSnapshot) -> Piv1Result<()> {
    let held = custody.principal_jitosol_units + custody.pending_jitosol_units;
    if held > u64::MAX {
        Err(Piv1Error::ArithmeticOverflow)
    } else if held > pool.pool_token_supply {
        Err(Piv1Error::InvalidPrincipalDepositPool)
    } else {
        Ok(())
    }
}

/// Checks that principal and pending token units fit in the pool supply.
pub fn validate_combined_supply(custody: EconomicCustodyObservation, pool: PoolSnapshot) -> (r:
    Piv1Result<()>)
    ensures
        r == spec_combined_supply(custody, pool),
{
    if checked_add(custody.principal_jitosol_units, custody.pending_jitosol_units)?
        > pool.pool_token_supply {
        return Err(Piv1Error::InvalidPrincipalDepositPool);
    }
    Ok(())
}

/// The pool identity a quote must bind.
pub open spec fn spec_identity(p: PoolSnapshot) -> PoolSnapshotIdentity {
    PoolSnapshotIdentity {
        current_epoch: p.current_epoch,
        last_update_epoch: p.last_update_epoch,
        revision: p.revision,
    }
}

/// Pool tokens minted for `native` lamports at the pool's ratio.
pub open spec fn spec_minted(native: u64, pool: PoolSnapshot) -> Piv1Result<u64> {
    if pool.total_pool_lamports == 0 && pool.pool_token_supply == 0 {
        Ok(native)
    } else {
        lift(spec_mul_div_floor(native, pool.pool_token_supply, pool.total_pool_lamports))
    }
}

/// Outcome of a protected principal deposit: the new configuration and record.
pub open spec fn spec_principal_deposit(
    config: PivConfig,
    round: ActiveDistribution,
    obs: PrincipalSolDepositObservation,
) -> Piv1Result<(PivConfig, PrincipalSolDepositRecord)> {
    let request = obs.request;
    let execution = obs.execution;
    let pb = obs.pool_before;
    let pa = obs.pool_after;
    let cb = obs.custody_before;
    let ca = obs.custody_after;
    let pre = spec_surplus(config, round, cb);
    let minted_r = spec_minted(request.native_lamports, pb);
    let minted = minted_r->Ok_0;
    let floor_r = lift(
        spec_mul_div_floor(
            minted,
            (SLIPPAGE_BASIS_POINTS_DENOMINATOR - config.configured_slippage_bps) as u64,
            SLIPPAGE_BASIS_POINTS_DENOMINATOR,
        ),
    );
    let floor = floor_r->Ok_0;
    let minimum = max_u64(floor, request.caller_minimum_pool_tokens_out);
    let expected_quote = SolDepositQuote {
        snapshot: spec_identity(pb),
        native_lamports: request.native_lamports,
        gross_pool_tokens: minted,
        deposit_fee_pool_tokens: 0,
        quoted_pool_tokens_out: minted,
        derived_slippage_floor_pool_tokens: floor,
        minimum_pool_tokens_out: minimum,
    };
    let total_after = pb.total_pool_lamports + request.native_lamports;
    let supply_after = pb.pool_token_supply + minted;
    let ab = cb.spec_amounts()->Ok_0;
    let principal_jit = ab.principal_jitosol_units + minted;
    let expected_after = EconomicVaultAmounts {
        principal_sol_lamports: (ab.principal_sol_lamports - request.native_lamports) as u64,
        principal_jitosol_units: principal_jit as u64,
        ..ab
    };
    let bv_before = spec_book_value(config.accounted_historical_jitosol_units, pb);
    let before_value = config.accounted_historical_sol_lamports + bv_before->Ok_0;
    let next_sol = (config.accounted_historical_sol_lamports - request.native_lamports) as u64;
    let next_jit = config.accounted_historical_jitosol_units + minted;
    let next = PivConfig {
        accounted_historical_sol_lamports: next_sol,
        accounted_historical_jitosol_units: next_jit as u64,
        ..config
    };
    let bv_after = spec_book_value(next_jit as u64, pa);
    let after_value = next_sol + bv_after->Ok_0;
    let post = spec_surplus(next, round, ca);
    if config.spec_unpaused() is Err {
        Err(config.spec_unpaused()->Err_0)
    } else if spec_custody_binding(config, round) is Err {
        Err(spec_custody_binding(config, round)->Err_0)
    } else if round.bump != config.bumps.active_distribution {
        Err(Piv1Error::InvalidAccountPda)
    } else if round.lifecycle != DistributionLifecycle::Idle {
        Err(Piv1Error::InvalidLifecycle)
    } else if request.native_lamports == 0 {
        Err(Piv1Error::ZeroPrincipalDeposit)
    } else if request.native_lamports > config.accounted_historical_sol_lamports {
        Err(Piv1Error::PrincipalDepositExceedsQueue)
    } else if request.slippage_bps != config.configured_slippage_bps {
        Err(Piv1Error::InvalidSlippage)
    } else if pre is Err {
        Err(pre->Err_0)
    } else if pre->Ok_0 != zero_amounts() {
        Err(Piv1Error::InvalidCustodyObservation)
    } else if spec_pool_validate(pb) is Err || spec_pool_validate(pa) is Err {
        Err(Piv1Error::InvalidPrincipalDepositPool)
    } else if request.snapshot != spec_identity(pb) || pa.current_epoch != pb.current_epoch
        || pa.last_update_epoch != pb.last_update_epoch || pa.sol_deposit_fee != pb.sol_deposit_fee
        || pa.stake_withdrawal_fee != pb.stake_withdrawal_fee || pa.minimum_delegation_lamports
        != pb.minimum_delegation_lamports {
        Err(Piv1Error::InvalidPrincipalDepositPool)
    } else if pb.sol_deposit_fee != (FeeFraction { numerator: 0, denominator: 1 })
        || execution.actual_fee_pool_tokens != 0 || execution.quote.deposit_fee_pool_tokens != 0 {
        Err(Piv1Error::UnsupportedPrincipalDepositFee)
    } else if spec_combined_supply(cb, pb) is Err {
        Err(spec_combined_supply(cb, pb)->Err_0)
    } else if minted_r is Err {
        Err(minted_r->Err_0)
    } else if config.configured_slippage_bps > SLIPPAGE_BASIS_POINTS_DENOMINATOR {
        Err(Piv1Error::InvalidSlippage)
    } else if floor_r is Err {
        Err(floor_r->Err_0)
    } else if minted == 0 || minted < minimum {
        Err(Piv1Error::PrincipalDepositMinimumNotMet)
    } else if execution.quote != expected_quote || execution.actual_pool_tokens_out != minted {
        Err(Piv1Error::PrincipalDepositObservationMismatch)
    } else if total_after > u64::MAX {
        Err(Piv1Error::ArithmeticOverflow)
    } else if pa.total_pool_lamports != total_after {
        Err(Piv1Error::InvalidPrincipalDepositPool)
    } else if supply_after > u64::MAX {
        Err(Piv1Error::ArithmeticOverflow)
    } else if pa.pool_token_supply != supply_after {
        Err(Piv1Error::InvalidPrincipalDepositPool)
    } else if ab.principal_sol_lamports < request.native_lamports {
        Err(Piv1Error::PrincipalDepositExceedsQueue)
    } else if principal_jit > u64::MAX {
        Err(Piv1Error::ArithmeticOverflow)
    } else if !cb.spec_same_floors(ca) {
        Err(Piv1Error::PrincipalDepositObservationMismatch)
    } else if ca.spec_amounts() is Err {
        Err(ca.spec_amounts()->Err_0)
    } else if ca.spec_amounts()->Ok_0 != expected_after {
        Err(Piv1Error::PrincipalDepositObservationMismatch)
    } else if spec_combined_supply(ca, pa) is Err {
        Err(spec_combined_supply(ca, pa)->Err_0)
    } else if bv_before is Err {
        Err(bv_before->Err_0)
    } else if before_value > u64::MAX || next_jit > u64::MAX {
        Err(Piv1Error::ArithmeticOverflow)
    } else if bv_after is Err {
        Err(bv_after->Err_0)
    } else if after_value > u64::MAX {
        Err(Piv1Error::ArithmeticOverflow)
    } else if after_value < before_value {
        Err(Piv1Error::PrincipalDepositHistoricalValueLoss)
    } else if after_value < config.protected_principal_hwm_lamports {
        Err(Piv1Error::HighWaterMarkDecrease)
    } else if post is Err {
        Err(post->Err_0)
    } else if post->Ok_0 != zero_amounts() {
        Err(Piv1Error::CumulativeReconciliationMismatch)
    } else {
        Ok(
            (
                next,
                PrincipalSolDepositRecord {
                    deposited_sol_lamports: request.native_lamports,
                    minted_jitosol_units: minted,
                    historical_value_before_lamports: before_value as u64,
                    historical_value_after_lamports: after_value as u64,
                },
            ),
        )
    }
}

/// Records an unpaused Idle-to-Idle conversion of already recognized principal.
/// The quote and receipt are checked against independent integer output
/// arithmetic and exact custody and pool deltas; only the two historical
/// asset fields change. On any error the configuration is unchanged.
#[verifier::rlimit(60)]
pub fn record_protected_principal_deposit(
    config: &mut PivConfig,
    round: &ActiveDistribution,
    observation: PrincipalSolDepositObservation,
) -> (r: Piv1Result<PrincipalSolDepositRecord>)
    ensures
        match spec_principal_deposit(*old(config), *round, observation) {
            Ok((c, rec)) => r == Ok::<PrincipalSolDepositRecord, Piv1Error>(rec) && *final(config)
                == c,
            Err(e) => r == Err::<PrincipalSolDepositRecord, Piv1Error>(e) && *final(config) == *old(
                config,
            ),
        },
{
    config.ensure_unpaused()?;
    validate_custody_state_binding(config, round)?;
    if round.bump != config.bumps.active_distribution {
        return Err(Piv1Error::InvalidAccountPda);
    }
    if round.lifecycle != DistributionLifecycle::Idle {
        return Err(Piv1Error::InvalidLifecycle);
    }
    let request = observation.request;
    let execution = observation.execution;
    let pool_before = observation.pool_before;
    let pool_after = observation.pool_after;
    let custody_before = observation.custody_before;
    let custody_after = observation.custody_after;
    if request.native_lamports == 0 {
        return Err(Piv1Error::ZeroPrincipalDeposit);
    }
    if request.native_lamports > config.accounted_historical_sol_lamports {
        return Err(Piv1Error::PrincipalDepositExceedsQueue);
    }
    if request.slippage_bps != config.configured_slippage_bps {
        return Err(Piv1Error::InvalidSlippage);
    }
    if economic_custody_surplus(config, round, custody_before)? != EconomicVaultAmounts::default() {
        return Err(Piv1Error::InvalidCustodyObservation);
    }
    if pool_before.validate().is_err() || pool_after.validate().is_err() {
        return Err(Piv1Error::InvalidPrincipalDepositPool);
    }
    if request.snapshot != pool_before.identity() || pool_after.current_epoch
        != pool_before.current_epoch || pool_after.last_update_epoch != pool_before.last_update_epoch
        || pool_after.sol_deposit_fee != pool_before.sol_deposit_fee
        || pool_after.stake_withdrawal_fee != pool_before.stake_withdrawal_fee
        || pool_after.minimum_delegation_lamports != pool_before.minimum_delegation_lamports {
        return Err(Piv1Error::InvalidPrincipalDepositPool);
    }
    if pool_before.sol_deposit_fee != FeeFraction::zero() || execution.actual_fee_pool_tokens != 0
        || execution.quote.deposit_fee_pool_tokens != 0 {
        return Err(Piv1Error::UnsupportedPrincipalDepositFee);
    }
    validate_combined_supply(custody_before, pool_before)?;
    let minted = if pool_before.is_bootstrap() {
        request.native_lamports
    } else {
        match checked_mul_div_floor(
            request.native_lamports,
            pool_before.pool_token_supply,
            pool_before.total_pool_lamports,
        ) {
            Ok(v) => v,
            Err(e) => return Err(from_math(e)),
        }
    };
    let keep_bps = match SLIPPAGE_BASIS_POINTS_DENOMINATOR.checked_sub(
        config.configured_slippage_bps as u64,
    ) {
        Some(v) => v,
        None => return Err(Piv1Error::InvalidSlippage),
    };
    let floor = match checked_mul_div_floor(minted, keep_bps, SLIPPAGE_BASIS_POINTS_DENOMINATOR) {
        Ok(v) => v,
        Err(e) => return Err(from_math(e)),
    };
    let minimum = max_amount(floor, request.caller_minimum_pool_tokens_out);
    if minted == 0 || minted < minimum {
        return Err(Piv1Error::PrincipalDepositMinimumNotMet);
    }
    let expected_quote = SolDepositQuote {
        snapshot: pool_before.identity(),
        native_lamports: request.native_lamports,
        gross_pool_tokens: minted,
        deposit_fee_pool_tokens: 0,
        quoted_pool_tokens_out: minted,
        derived_slippage_floor_pool_tokens: floor,
        minimum_pool_tokens_out: minimum,
    };
    if execution.quote != expected_quote || execution.actual_pool_tokens_out != minted {
        return Err(Piv1Error::PrincipalDepositObservationMismatch);
    }
    if pool_after.total_pool_lamports != checked_add(
        pool_before.total_pool_lamports,
        request.native_lamports,
    )? {
        return Err(Piv1Error::InvalidPrincipalDepositPool);
    }
    if pool_after.pool_token_supply != checked_add(pool_before.pool_token_supply, minted)? {
        return Err(Piv1Error::InvalidPrincipalDepositPool);
    }
    let mut expected_after = custody_before.amounts()?;
    expected_after.principal_sol_lamports = match expected_after.principal_sol_lamports.checked_sub(
        request.native_lamports,
    ) {
        Some(v) => v,
        None => return Err(Piv1Error::PrincipalDepositExceedsQueue),
    };
    expected_after.principal_jitosol_units = checked_add(
        expected_after.principal_jitosol_units,
        minted,
    )?;
    if !custody_before.same_floors(custody_after) {
        return Err(Piv1Error::PrincipalDepositObservationMismatch);
    }
    if custody_after.amounts()? != expected_after {
        return Err(Piv1Error::PrincipalDepositObservationMismatch);
    }
    validate_combined_supply(custody_after, pool_after)?;
    let before_value = checked_add(
        config.accounted_historical_sol_lamports,
        observed_token_book_value(config.accounted_historical_jitosol_units, pool_before)?,
    )?;
    let mut next = *config;
    next.accounted_historical_sol_lamports = match next.accounted_historical_sol_lamports.checked_sub(
        request.native_lamports,
    ) {
        Some(v) => v,
        None => return Err(Piv1Error::PrincipalDepositExceedsQueue),
    };
    next.accounted_historical_jitosol_units = checked_add(
        next.accounted_historical_jitosol_units,
        minted,
    )?;
    let after_value = checked_add(
        next.accounted_historical_sol_lamports,
        observed_token_book_value(next.accounted_historical_jitosol_units, pool_after)?,
    )?;
    if after_value < before_value {
        return Err(Piv1Error::PrincipalDepositHistoricalValueLoss);
    }
    if after_value < config.protected_principal_hwm_lamports {
        return Err(Piv1Error::HighWaterMarkDecrease);
    }
    if economic_custody_surplus(&next, round, custody_after)? != EconomicVaultAmounts::default() {
        return Err(Piv1Error::CumulativeReconciliationMismatch);
    }
    *config = next;
    Ok(
        PrincipalSolDepositRecord {
            deposited_sol_lamports: request.native_lamports,
            minted_jitosol_units: minted,
            historical_value_before_lamports: before_value,
            historical_value_after_lamports: after_value,
        },
    )
}

} // verus!
