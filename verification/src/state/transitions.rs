//! Pure deterministic transitions over already validated numeric and account
//! facts. Every multi-object transition stages complete copies and commits
//! only after all checks pass, so an error leaves every state object unchanged.

use crate::address::Pubkey;
use crate::bitmap::{count_ones, has_bit, slot_bit, spec_popcount};
use crate::constants::{RECOVERY_FLAG_COOLDOWN_LOSS, RECOVERY_FLAG_RESIDUAL_HWM, STATE_LAYOUT_VERSION};
use crate::errors::{from_math, spec_from_math, Piv1Error, Piv1Result};
use crate::math::{
    allocate_kif, calculate_gross_yield, spec_allocate_kif, spec_gross_yield, spec_split,
    split_gross_yield, GrossYieldSplit, KifAllocation,
};
use crate::state::config::PivConfig;
use crate::state::distribution::{
    checked_add, checked_sub, max_amount, max_u64, min_amount, min_u64, ActiveDistribution,
    CompletedDistributionSummary, DistributionLifecycle, WithdrawalLeg, WithdrawalLegStatus,
};
use crate::state::guardian::{GuardianRegistry, GuardianReward};
use crate::state::timing::{
    derive_kif_period, spec_insufficient_retry, spec_kif_period, spec_preparation_interval,
    validate_insufficient_retry, validate_preparation_interval,
};
use vstd::prelude::*;

verus! {

/// Tagged funding route: a liquid-only zero-target round cannot be confused
/// with an invalid zero-target delayed-withdrawal round.
#[derive(Clone, Copy, Debug, PartialEq, Eq, Structural)]
pub enum DistributionFunding {
    /// Pending native SOL fully covers the fixed outgoing gross obligation.
    Liquid { escrow_available_lamports: u64 },
    /// A nonzero JitoSOL target is required for the native shortfall.
    Withdrawal {
        fixed_jitosol_target_units: u64,
        snapshot_leg_input_floor_units: u64,
        maximum_useful_legs: u64,
        stored_round_minimum_native_lamports: u64,
        initial_escrow_available_lamports: u64,
    },
}

/// Immutable facts fixed when a positive-yield distribution opens.
#[derive(Clone, Copy, Debug, PartialEq, Eq, Structural)]
pub struct OpenDistributionInput {
    pub sequence: u64,
    pub prepared_at: i64,
    pub prepared_slot: u64,
    pub prepared_epoch: u64,
    pub historical_jitosol_units: u64,
    pub historical_sol_lamports: u64,
    pub historical_value_lamports: u64,
    pub snapshot_pool_total_lamports: u64,
    pub snapshot_pool_token_supply: u64,
    pub snapshot_withdrawal_fee_numerator: u64,
    pub snapshot_withdrawal_fee_denominator: u64,
    pub gross_yield_lamports: u64,
    pub pending_sol_snapshot_lamports: u64,
    pub pending_sol_used_lamports: u64,
    pub snapshot_conversion_dust_lamports: u64,
    pub stored_residual_hwm_floor_lamports: u64,
    pub funding: DistributionFunding,
}

/// Already protocol-validated facts recorded for one maximum-safe leg fill.
#[derive(Clone, Copy, Debug, PartialEq, Eq, Structural)]
pub struct LegInitiationInput {
    pub sequence: u64,
    pub leg_index: u64,
    pub validator_list_index: u32,
    pub validator_seed_suffix: u32,
    pub validator_vote: Pubkey,
    pub validator_stake_source: Pubkey,
    pub initiation_epoch: u64,
    pub pool_total_lamports: u64,
    pub pool_token_supply: u64,
    pub withdrawal_fee_numerator: u64,
    pub withdrawal_fee_denominator: u64,
    pub current_technical_floor_units: u64,
    pub maximum_safe_capacity_units: u64,
    pub jitosol_input_units: u64,
    pub withdrawal_fee_units: u64,
    pub burned_units: u64,
    pub expected_native_lamports: u64,
    pub observed_delegated_native_lamports: u64,
    pub minimum_native_lamports: u64,
    pub stake_rent_advanced_lamports: u64,
    pub metadata_rent_advanced_lamports: u64,
}

/// Already inactivity- and balance-validated facts for one leg finalization.
#[derive(Clone, Copy, Debug, PartialEq, Eq, Structural)]
pub struct LegFinalizationInput {
    pub sequence: u64,
    pub leg_index: u64,
    pub finalized_epoch: u64,
    pub finalized_native_lamports: u64,
    pub recovered_stake_rent_lamports: u64,
    pub recovered_metadata_rent_lamports: u64,
    pub cooldown_reward_lamports: u64,
    pub cooldown_loss_lamports: u64,
    pub validated_residual_historical_value_lamports: u64,
    pub escrow_available_after_lamports: u64,
}

/// State-level result of a successful leg finalization record.
#[derive(Clone, Copy, Debug, PartialEq, Eq, Structural)]
pub enum LegFinalizationOutcome {
    /// The leg finalized while more target assignment or legs remain.
    Recorded,
    /// Exact assignment and all successful-leg finalizations now reconcile.
    EscrowFunded,
    /// A recorded loss or residual-HWM failure blocks normal progression.
    RecoveryRequired,
}

/// Exact state-level escrow and protected-value facts for atomic settlement.
#[derive(Clone, Copy, Debug, PartialEq, Eq, Structural)]
pub struct SettlementInput {
    pub sequence: u64,
    pub escrow_available_lamports: u64,
    /// Validated actual HTFP amount, bounded here by its fixed obligation.
    pub actual_htfp_lamports: u64,
    /// Validated actual Team Owner amount, bounded here by its fixed obligation.
    pub actual_team_owner_lamports: u64,
    /// Validated current KIF amount, before applying prior carry.
    pub actual_kif_allocation_lamports: u64,
    pub validated_post_settlement_protected_value_lamports: u64,
}

/// State-level result of evaluating a settlement boundary.
#[derive(Clone, Copy, Debug, PartialEq, Eq, Structural)]
pub enum SettlementOutcome {
    /// Beneficiary/KIF/HWM accounting was atomically recorded.
    Settled,
    /// The supplied validated protected value requires governed recovery.
    RecoveryRequired,
}

/// Already custody-validated facts for post-settlement pending integration.
#[derive(Clone, Copy, Debug, PartialEq, Eq, Structural)]
pub struct PendingIntegrationInput {
    pub sequence: u64,
    pub completed_at: i64,
    pub integrated_pending_sol_lamports: u64,
    pub integrated_pending_jitosol_units: u64,
    pub contribution_value_lamports: u64,
    pub new_accounted_historical_jitosol_units: u64,
    pub new_accounted_historical_sol_lamports: u64,
    pub new_protected_hwm_lamports: u64,
}

/// Withdrawal bounds and escrow chosen by the funding route of a new round.
#[derive(Clone, Copy, Debug, PartialEq, Eq, Structural)]
pub struct FundingPlan {
    pub lifecycle: DistributionLifecycle,
    pub fixed_target: u64,
    pub snapshot_floor: u64,
    pub maximum_useful_legs: u64,
    pub stored_round_minimum: u64,
    pub escrow_available: u64,
}

/// The error of a failed result.
pub open spec fn err_of<T>(r: Piv1Result<T>) -> Piv1Error {
    r->Err_0
}

/// Outcome of checking that the config's next sequence follows the active round.
pub open spec fn spec_sequence_binding(config: PivConfig, round: ActiveDistribution) -> Piv1Result<()> {
    if round.active_sequence + 1 > u64::MAX {
        Err(Piv1Error::ArithmeticOverflow)
    } else if config.next_distribution_sequence != round.active_sequence + 1 {
        Err(Piv1Error::SequenceMismatch)
    } else {
        Ok(())
    }
}

/// Checks that the config's next sequence follows the active round.
pub fn validate_active_sequence_binding(config: &PivConfig, round: &ActiveDistribution) -> (r:
    Piv1Result<()>)
    ensures
        r == spec_sequence_binding(*config, *round),
{
    let expected_next = match round.active_sequence.checked_add(1) {
        Some(v) => v,
        None => return Err(Piv1Error::ArithmeticOverflow),
    };
    if config.next_distribution_sequence != expected_next {
        return Err(Piv1Error::SequenceMismatch);
    }
    Ok(())
}

/// Outcome of evaluating a no-yield result.
pub open spec fn spec_no_yield(
    config: PivConfig,
    round: ActiveDistribution,
    evaluated_at: i64,
    historical_value: u64,
) -> Piv1Result<()> {
    let hy = spec_gross_yield(historical_value, config.protected_principal_hwm_lamports);
    let prep = spec_preparation_interval(config.last_successful_preparation_at, evaluated_at);
    if config.spec_unpaused() is Err {
        config.spec_unpaused()
    } else if round.spec_validate() is Err {
        round.spec_validate()
    } else if round.lifecycle != DistributionLifecycle::Idle {
        Err(Piv1Error::InvalidLifecycle)
    } else if prep is Err {
        prep
    } else if hy + config.next_cycle_yield_lamports > u64::MAX {
        Err(Piv1Error::ArithmeticOverflow)
    } else if hy + config.next_cycle_yield_lamports != 0 {
        Err(Piv1Error::CumulativeReconciliationMismatch)
    } else {
        Ok(())
    }
}

/// Validates a no-yield result without modifying either timing clock.
pub fn record_no_yield_evaluation(
    config: &PivConfig,
    round: &ActiveDistribution,
    evaluated_at: i64,
    historical_value_lamports: u64,
) -> (r: Piv1Result<()>)
    ensures
        r == spec_no_yield(*config, *round, evaluated_at, historical_value_lamports),
{
    config.ensure_unpaused()?;
    round.validate()?;
    if round.lifecycle != DistributionLifecycle::Idle {
        return Err(Piv1Error::InvalidLifecycle);
    }
    validate_preparation_interval(config.last_successful_preparation_at, evaluated_at)?;
    let historical_yield = calculate_gross_yield(
        historical_value_lamports,
        config.protected_principal_hwm_lamports,
    );
    if checked_add(historical_yield, config.next_cycle_yield_lamports)? != 0 {
        return Err(Piv1Error::CumulativeReconciliationMismatch);
    }
    Ok(())
}

/// Outcome of recording a valid technically insufficient attempt.
pub open spec fn spec_insufficient_attempt(
    config: PivConfig,
    round: ActiveDistribution,
    attempted_at: i64,
) -> Piv1Result<PivConfig> {
    let prep = spec_preparation_interval(config.last_successful_preparation_at, attempted_at);
    let retry = spec_insufficient_retry(config.last_valid_insufficient_attempt_at, attempted_at);
    let next = PivConfig { last_valid_insufficient_attempt_at: Some(attempted_at), ..config };
    if config.spec_unpaused() is Err {
        Err(err_of(config.spec_unpaused()))
    } else if round.spec_validate() is Err {
        Err(err_of(round.spec_validate()))
    } else if round.lifecycle != DistributionLifecycle::Idle {
        Err(Piv1Error::InvalidLifecycle)
    } else if prep is Err {
        Err(err_of(prep))
    } else if retry is Err {
        Err(err_of(retry))
    } else if next.spec_validate() is Err {
        Err(err_of(next.spec_validate()))
    } else {
        Ok(next)
    }
}

/// Records the only mutation allowed for a valid technically insufficient
/// result: the attempt timestamp. On failure the config is unchanged.
pub fn record_valid_insufficient_attempt(
    config: &mut PivConfig,
    round: &ActiveDistribution,
    attempted_at: i64,
) -> (r: Piv1Result<()>)
    ensures
        match spec_insufficient_attempt(*old(config), *round, attempted_at) {
            Ok(c) => r == Ok::<(), Piv1Error>(()) && *final(config) == c,
            Err(e) => r == Err::<(), Piv1Error>(e) && *final(config) == *old(config),
        },
{
    config.ensure_unpaused()?;
    round.validate()?;
    if round.lifecycle != DistributionLifecycle::Idle {
        return Err(Piv1Error::InvalidLifecycle);
    }
    validate_preparation_interval(config.last_successful_preparation_at, attempted_at)?;
    validate_insufficient_retry(config.last_valid_insufficient_attempt_at, attempted_at)?;
    let mut next_config = *config;
    next_config.last_valid_insufficient_attempt_at = Some(attempted_at);
    next_config.validate_initialized()?;
    *config = next_config;
    Ok(())
}

/// Outcome of choosing the funding route of a new round.
pub open spec fn spec_funding_plan(funding: DistributionFunding, initial: u64, outgoing: u64) -> Piv1Result<
    FundingPlan,
> {
    match funding {
        DistributionFunding::Liquid { escrow_available_lamports } => if initial != outgoing
            || escrow_available_lamports != initial {
            Err(Piv1Error::EscrowReconciliationMismatch)
        } else {
            Ok(
                FundingPlan {
                    lifecycle: DistributionLifecycle::EscrowFunded,
                    fixed_target: 0,
                    snapshot_floor: 0,
                    maximum_useful_legs: 0,
                    stored_round_minimum: 0,
                    escrow_available: escrow_available_lamports,
                },
            )
        },
        DistributionFunding::Withdrawal {
            fixed_jitosol_target_units,
            snapshot_leg_input_floor_units,
            maximum_useful_legs,
            stored_round_minimum_native_lamports,
            initial_escrow_available_lamports,
        } => if fixed_jitosol_target_units == 0 {
            Err(Piv1Error::ZeroTarget)
        } else if initial >= outgoing || initial_escrow_available_lamports != initial {
            Err(Piv1Error::EscrowReconciliationMismatch)
        } else if snapshot_leg_input_floor_units == 0 || fixed_jitosol_target_units
            < snapshot_leg_input_floor_units || stored_round_minimum_native_lamports == 0 {
            Err(Piv1Error::TechnicalFloorNotMet)
        } else if fixed_jitosol_target_units / snapshot_leg_input_floor_units == 0
            || maximum_useful_legs != fixed_jitosol_target_units / snapshot_leg_input_floor_units {
            Err(Piv1Error::UsefulLegBoundExceeded)
        } else {
            Ok(
                FundingPlan {
                    lifecycle: DistributionLifecycle::WithdrawalActive,
                    fixed_target: fixed_jitosol_target_units,
                    snapshot_floor: snapshot_leg_input_floor_units,
                    maximum_useful_legs,
                    stored_round_minimum: stored_round_minimum_native_lamports,
                    escrow_available: initial_escrow_available_lamports,
                },
            )
        },
    }
}

/// Chooses the funding route of a new round.
pub fn plan_funding(funding: DistributionFunding, initial_liquid_funding: u64, outgoing: u64) -> (r:
    Piv1Result<FundingPlan>)
    ensures
        r == spec_funding_plan(funding, initial_liquid_funding, outgoing),
{
    match funding {
        DistributionFunding::Liquid { escrow_available_lamports } => {
            if initial_liquid_funding != outgoing || escrow_available_lamports
                != initial_liquid_funding {
                return Err(Piv1Error::EscrowReconciliationMismatch);
            }
            Ok(
                FundingPlan {
                    lifecycle: DistributionLifecycle::EscrowFunded,
                    fixed_target: 0,
                    snapshot_floor: 0,
                    maximum_useful_legs: 0,
                    stored_round_minimum: 0,
                    escrow_available: escrow_available_lamports,
                },
            )
        },
        DistributionFunding::Withdrawal {
            fixed_jitosol_target_units,
            snapshot_leg_input_floor_units,
            maximum_useful_legs,
            stored_round_minimum_native_lamports,
            initial_escrow_available_lamports,
        } => {
            if fixed_jitosol_target_units == 0 {
                return Err(Piv1Error::ZeroTarget);
            }
            if initial_liquid_funding >= outgoing || initial_escrow_available_lamports
                != initial_liquid_funding {
                return Err(Piv1Error::EscrowReconciliationMismatch);
            }
            if snapshot_leg_input_floor_units == 0 || fixed_jitosol_target_units
                < snapshot_leg_input_floor_units || stored_round_minimum_native_lamports == 0 {
                return Err(Piv1Error::TechnicalFloorNotMet);
            }
            let expected_maximum = fixed_jitosol_target_units / snapshot_leg_input_floor_units;
            if expected_maximum == 0 || maximum_useful_legs != expected_maximum {
                return Err(Piv1Error::UsefulLegBoundExceeded);
            }
            Ok(
                FundingPlan {
                    lifecycle: DistributionLifecycle::WithdrawalActive,
                    fixed_target: fixed_jitosol_target_units,
                    snapshot_floor: snapshot_leg_input_floor_units,
                    maximum_useful_legs,
                    stored_round_minimum: stored_round_minimum_native_lamports,
                    escrow_available: initial_escrow_available_lamports,
                },
            )
        },
    }
}

/// The freshly opened round header.
pub open spec fn spec_opened_round(
    config: PivConfig,
    round: ActiveDistribution,
    registry: GuardianRegistry,
    input: OpenDistributionInput,
    split: GrossYieldSplit,
    outgoing: u64,
    plan: FundingPlan,
    bitmap: u8,
    active_count: u8,
    period_id: u64,
    proposed_hwm_delta: u64,
    proposed_hwm: u64,
) -> ActiveDistribution {
    let lifecycle = plan.lifecycle;
    let fixed_target = plan.fixed_target;
    let snapshot_floor = plan.snapshot_floor;
    let maximum_useful_legs = plan.maximum_useful_legs;
    let stored_round_minimum = plan.stored_round_minimum;
    let escrow_available = plan.escrow_available;
    ActiveDistribution {
        version: STATE_LAYOUT_VERSION,
        bump: round.bump,
        is_initialized: true,
        lifecycle: lifecycle,
        recovery_flags: 0,
        settlement_recorded: false,
        active_sequence: input.sequence,
        last_completed: round.last_completed,
        prepared_at: input.prepared_at,
        prepared_slot: input.prepared_slot,
        prepared_epoch: input.prepared_epoch,
        old_protected_principal_lamports: config.protected_principal_hwm_lamports,
        historical_jitosol_units: input.historical_jitosol_units,
        historical_sol_lamports: input.historical_sol_lamports,
        historical_value_lamports: input.historical_value_lamports,
        snapshot_pool_total_lamports: input.snapshot_pool_total_lamports,
        snapshot_pool_token_supply: input.snapshot_pool_token_supply,
        snapshot_withdrawal_fee_numerator: input.snapshot_withdrawal_fee_numerator,
        snapshot_withdrawal_fee_denominator: input.snapshot_withdrawal_fee_denominator,
        gross_yield_lamports: input.gross_yield_lamports,
        prior_next_cycle_yield_lamports: config.next_cycle_yield_lamports,
        htfp_gross_obligation_lamports: split.htfp_reserve,
        permanent_compound_lamports: split.permanent_compound,
        team_owner_gross_obligation_lamports: split.team_owner_pool,
        kif_gross_obligation_lamports: split.kif,
        split_dust_lamports: split.dust,
        outgoing_gross_obligation_lamports: outgoing,
        pending_sol_snapshot_lamports: input.pending_sol_snapshot_lamports,
        pending_sol_used_lamports: input.pending_sol_used_lamports,
        snapshot_conversion_dust_lamports: input.snapshot_conversion_dust_lamports,
        fixed_jitosol_withdrawal_target_units: fixed_target,
        snapshot_leg_input_floor_units: snapshot_floor,
        maximum_useful_legs: maximum_useful_legs,
        stored_round_minimum_native_lamports: stored_round_minimum,
        stored_residual_hwm_floor_lamports: input.stored_residual_hwm_floor_lamports,
        stored_slippage_bps: config.configured_slippage_bps,
        cumulative_jitosol_assigned_units: 0,
        cumulative_withdrawal_fee_units: 0,
        cumulative_burned_units: 0,
        cumulative_expected_native_lamports: 0,
        cumulative_delegated_native_lamports: 0,
        cumulative_finalized_delegated_native_lamports: 0,
        cumulative_finalized_native_lamports: 0,
        cumulative_recovered_stake_rent_lamports: 0,
        cumulative_recovered_metadata_rent_lamports: 0,
        cumulative_cooldown_rewards_lamports: 0,
        cumulative_cooldown_losses_lamports: 0,
        next_leg_index: 0,
        successful_leg_count: 0,
        finalized_leg_count: 0,
        recorded_escrow_available_lamports: escrow_available,
        outstanding_active_round_liability_lamports: outgoing,
        htfp_recipient: config.htfp_recipient,
        team_owner_recipient: config.team_owner_recipient,
        guardian_registry: config.guardian_registry,
        guardian_registry_revision: registry.revision,
        guardian_keys: registry.guardian_keys,
        kif_eligibility_bitmap: bitmap,
        kif_active_guardian_count: active_count,
        kif_period_id: period_id,
        kif_carry_input_lamports: config.collective_kif_carry_lamports,
        proposed_hwm_delta_lamports: proposed_hwm_delta,
        proposed_hwm_after_settlement_lamports: proposed_hwm,
        actual_net_available_lamports: 0,
        actual_htfp_lamports: 0,
        actual_team_owner_lamports: 0,
        actual_kif_allocation_lamports: 0,
        actual_net_allocation_dust_lamports: 0,
        actual_allocated_outgoing_lamports: 0,
        actual_escrow_remainder_lamports: 0,
        actual_retained_conservative_dust_lamports: 0,
        actual_kif_liability_lamports: 0,
        actual_kif_carry_next_lamports: 0,
        actual_zero_active_kif_compound_lamports: 0,
        actual_hwm_delta_lamports: 0,
        settled_protected_hwm_lamports: 0,
    }
}

/// Builds the freshly opened round header.
pub fn build_opened_round(
    config: &PivConfig,
    round: &ActiveDistribution,
    registry: &GuardianRegistry,
    input: &OpenDistributionInput,
    split: &GrossYieldSplit,
    outgoing: u64,
    plan: &FundingPlan,
    bitmap: u8,
    active_count: u8,
    period_id: u64,
    proposed_hwm_delta: u64,
    proposed_hwm: u64,
) -> (r: ActiveDistribution)
    ensures
        r == spec_opened_round(
            *config,
            *round,
            *registry,
            *input,
            *split,
            outgoing,
            *plan,
            bitmap,
            active_count,
            period_id,
            proposed_hwm_delta,
            proposed_hwm,
        ),
{
    let lifecycle = plan.lifecycle;
    let fixed_target = plan.fixed_target;
    let snapshot_floor = plan.snapshot_floor;
    let maximum_useful_legs = plan.maximum_useful_legs;
    let stored_round_minimum = plan.stored_round_minimum;
    let escrow_available = plan.escrow_available;
    ActiveDistribution {
        version: STATE_LAYOUT_VERSION,
        bump: round.bump,
        is_initialized: true,
        lifecycle: lifecycle,
        recovery_flags: 0,
        settlement_recorded: false,
        active_sequence: input.sequence,
        last_completed: round.last_completed,
        prepared_at: input.prepared_at,
        prepared_slot: input.prepared_slot,
        prepared_epoch: input.prepared_epoch,
        old_protected_principal_lamports: config.protected_principal_hwm_lamports,
        historical_jitosol_units: input.historical_jitosol_units,
        historical_sol_lamports: input.historical_sol_lamports,
        historical_value_lamports: input.historical_value_lamports,
        snapshot_pool_total_lamports: input.snapshot_pool_total_lamports,
        snapshot_pool_token_supply: input.snapshot_pool_token_supply,
        snapshot_withdrawal_fee_numerator: input.snapshot_withdrawal_fee_numerator,
        snapshot_withdrawal_fee_denominator: input.snapshot_withdrawal_fee_denominator,
        gross_yield_lamports: input.gross_yield_lamports,
        prior_next_cycle_yield_lamports: config.next_cycle_yield_lamports,
        htfp_gross_obligation_lamports: split.htfp_reserve,
        permanent_compound_lamports: split.permanent_compound,
        team_owner_gross_obligation_lamports: split.team_owner_pool,
        kif_gross_obligation_lamports: split.kif,
        split_dust_lamports: split.dust,
        outgoing_gross_obligation_lamports: outgoing,
        pending_sol_snapshot_lamports: input.pending_sol_snapshot_lamports,
        pending_sol_used_lamports: input.pending_sol_used_lamports,
        snapshot_conversion_dust_lamports: input.snapshot_conversion_dust_lamports,
        fixed_jitosol_withdrawal_target_units: fixed_target,
        snapshot_leg_input_floor_units: snapshot_floor,
        maximum_useful_legs: maximum_useful_legs,
        stored_round_minimum_native_lamports: stored_round_minimum,
        stored_residual_hwm_floor_lamports: input.stored_residual_hwm_floor_lamports,
        stored_slippage_bps: config.configured_slippage_bps,
        cumulative_jitosol_assigned_units: 0,
        cumulative_withdrawal_fee_units: 0,
        cumulative_burned_units: 0,
        cumulative_expected_native_lamports: 0,
        cumulative_delegated_native_lamports: 0,
        cumulative_finalized_delegated_native_lamports: 0,
        cumulative_finalized_native_lamports: 0,
        cumulative_recovered_stake_rent_lamports: 0,
        cumulative_recovered_metadata_rent_lamports: 0,
        cumulative_cooldown_rewards_lamports: 0,
        cumulative_cooldown_losses_lamports: 0,
        next_leg_index: 0,
        successful_leg_count: 0,
        finalized_leg_count: 0,
        recorded_escrow_available_lamports: escrow_available,
        outstanding_active_round_liability_lamports: outgoing,
        htfp_recipient: config.htfp_recipient,
        team_owner_recipient: config.team_owner_recipient,
        guardian_registry: config.guardian_registry,
        guardian_registry_revision: registry.revision,
        guardian_keys: registry.guardian_keys,
        kif_eligibility_bitmap: bitmap,
        kif_active_guardian_count: active_count,
        kif_period_id: period_id,
        kif_carry_input_lamports: config.collective_kif_carry_lamports,
        proposed_hwm_delta_lamports: proposed_hwm_delta,
        proposed_hwm_after_settlement_lamports: proposed_hwm,
        actual_net_available_lamports: 0,
        actual_htfp_lamports: 0,
        actual_team_owner_lamports: 0,
        actual_kif_allocation_lamports: 0,
        actual_net_allocation_dust_lamports: 0,
        actual_allocated_outgoing_lamports: 0,
        actual_escrow_remainder_lamports: 0,
        actual_retained_conservative_dust_lamports: 0,
        actual_kif_liability_lamports: 0,
        actual_kif_carry_next_lamports: 0,
        actual_zero_active_kif_compound_lamports: 0,
        actual_hwm_delta_lamports: 0,
        settled_protected_hwm_lamports: 0,
    }
}

/// Outcome of opening a distribution round: the new config and round header.
pub open spec fn spec_open_distribution(
    config: PivConfig,
    round: ActiveDistribution,
    registry: GuardianRegistry,
    rewards: [GuardianReward; 6],
    input: OpenDistributionInput,
) -> Piv1Result<(PivConfig, ActiveDistribution)> {
    let hy = spec_gross_yield(input.historical_value_lamports, config.protected_principal_hwm_lamports);
    let expected = hy + config.next_cycle_yield_lamports;
    let split = spec_split(input.gross_yield_lamports);
    let outgoing = split.htfp_reserve + split.team_owner_pool + split.kif;
    let required = min_u64(input.pending_sol_snapshot_lamports, outgoing as u64);
    let prior_used = min_u64(config.next_cycle_yield_lamports, (outgoing - required) as u64);
    let initial = required + prior_used;
    let period = spec_kif_period(config.kif_anchor_timestamp, input.prepared_at);
    let bm = registry.spec_activity_bitmap(rewards, period->Ok_0.id);
    let bitmap = bm->Ok_0;
    let delta = split.permanent_compound + split.dust + input.snapshot_conversion_dust_lamports;
    let proposed = config.protected_principal_hwm_lamports + delta;
    let plan = spec_funding_plan(input.funding, initial as u64, outgoing as u64);
    let prep = spec_preparation_interval(config.last_successful_preparation_at, input.prepared_at);
    let next_config = PivConfig {
        next_distribution_sequence: (config.next_distribution_sequence + 1) as u64,
        last_successful_preparation_at: Some(input.prepared_at),
        next_cycle_yield_lamports: 0,
        ..config
    };
    let next_round = spec_opened_round(
        config,
        round,
        registry,
        input,
        split,
        outgoing as u64,
        plan->Ok_0,
        bitmap,
        spec_popcount(bitmap) as u8,
        period->Ok_0.id,
        delta as u64,
        proposed as u64,
    );
    if config.spec_unpaused() is Err {
        Err(err_of(config.spec_unpaused()))
    } else if round.spec_validate() is Err {
        Err(err_of(round.spec_validate()))
    } else if registry.spec_validate() is Err {
        Err(err_of(registry.spec_validate()))
    } else if round.lifecycle != DistributionLifecycle::Idle {
        Err(Piv1Error::InvalidLifecycle)
    } else if prep is Err {
        Err(err_of(prep))
    } else if input.sequence != config.next_distribution_sequence {
        Err(Piv1Error::SequenceMismatch)
    } else if round.last_completed matches Some(s) && input.sequence <= s.sequence {
        Err(Piv1Error::Replay)
    } else if registry.revision != config.guardian_registry_revision {
        Err(Piv1Error::InvalidGuardianSet)
    } else if input.historical_jitosol_units != config.accounted_historical_jitosol_units
        || input.historical_sol_lamports != config.accounted_historical_sol_lamports
        || input.pending_sol_snapshot_lamports != config.accounted_pending_sol_lamports {
        Err(Piv1Error::CumulativeReconciliationMismatch)
    } else if input.snapshot_pool_total_lamports == 0 || input.snapshot_pool_token_supply == 0 {
        Err(Piv1Error::ZeroTarget)
    } else if expected > u64::MAX {
        Err(Piv1Error::ArithmeticOverflow)
    } else if input.gross_yield_lamports == 0 || input.gross_yield_lamports != expected {
        Err(Piv1Error::ZeroTarget)
    } else if outgoing > u64::MAX {
        Err(Piv1Error::ArithmeticOverflow)
    } else if outgoing == 0 {
        Err(Piv1Error::ZeroTarget)
    } else if input.pending_sol_used_lamports != required {
        Err(Piv1Error::CumulativeReconciliationMismatch)
    } else if period is Err {
        Err(err_of(period))
    } else if bm is Err {
        Err(err_of(bm))
    } else if delta > u64::MAX || proposed > u64::MAX {
        Err(Piv1Error::ArithmeticOverflow)
    } else if input.stored_residual_hwm_floor_lamports < proposed {
        Err(Piv1Error::HighWaterMarkDecrease)
    } else if plan is Err {
        Err(err_of(plan))
    } else if config.next_distribution_sequence == u64::MAX {
        Err(Piv1Error::ArithmeticOverflow)
    } else if next_config.spec_validate() is Err {
        Err(err_of(next_config.spec_validate()))
    } else if next_round.spec_validate() is Err {
        Err(err_of(next_round.spec_validate()))
    } else {
        Ok((next_config, next_round))
    }
}

proof fn lemma_split_outgoing(g: u64)
    ensures
        spec_split(g).htfp_reserve + spec_split(g).team_owner_pool + spec_split(g).kif <= g,
{
    crate::math::lemma_split_shares_bounded(g);
}

/// Opens exactly one liquid-only or delayed-withdrawal distribution round.
/// On any failure neither the config nor the round changes.
#[verifier::rlimit(50)]
pub fn open_distribution(
    config: &mut PivConfig,
    round: &mut ActiveDistribution,
    registry: &GuardianRegistry,
    rewards: &[GuardianReward; 6],
    input: OpenDistributionInput,
) -> (r: Piv1Result<()>)
    ensures
        match spec_open_distribution(*old(config), *old(round), *registry, *rewards, input) {
            Ok((c, d)) => r == Ok::<(), Piv1Error>(()) && *final(config) == c && *final(round) == d,
            Err(e) => r == Err::<(), Piv1Error>(e) && *final(config) == *old(config) && *final(round)
                == *old(round),
        },
{
    config.ensure_unpaused()?;
    round.validate()?;
    registry.validate()?;
    if round.lifecycle != DistributionLifecycle::Idle {
        return Err(Piv1Error::InvalidLifecycle);
    }
    validate_preparation_interval(config.last_successful_preparation_at, input.prepared_at)?;
    if input.sequence != config.next_distribution_sequence {
        return Err(Piv1Error::SequenceMismatch);
    }
    let replayed = match round.last_completed {
        Some(summary) => input.sequence <= summary.sequence,
        None => false,
    };
    if replayed {
        return Err(Piv1Error::Replay);
    }
    if registry.revision != config.guardian_registry_revision {
        return Err(Piv1Error::InvalidGuardianSet);
    }
    if input.historical_jitosol_units != config.accounted_historical_jitosol_units
        || input.historical_sol_lamports != config.accounted_historical_sol_lamports
        || input.pending_sol_snapshot_lamports != config.accounted_pending_sol_lamports {
        return Err(Piv1Error::CumulativeReconciliationMismatch);
    }
    if input.snapshot_pool_total_lamports == 0 || input.snapshot_pool_token_supply == 0 {
        return Err(Piv1Error::ZeroTarget);
    }
    let historical_yield = calculate_gross_yield(
        input.historical_value_lamports,
        config.protected_principal_hwm_lamports,
    );
    let expected_yield = checked_add(historical_yield, config.next_cycle_yield_lamports)?;
    if input.gross_yield_lamports == 0 || input.gross_yield_lamports != expected_yield {
        return Err(Piv1Error::ZeroTarget);
    }
    let split = match split_gross_yield(input.gross_yield_lamports) {
        Ok(s) => s,
        Err(e) => return Err(from_math(e)),
    };
    proof {
        lemma_split_outgoing(input.gross_yield_lamports);
    }
    let outgoing = checked_add(checked_add(split.htfp_reserve, split.team_owner_pool)?, split.kif)?;
    if outgoing == 0 {
        return Err(Piv1Error::ZeroTarget);
    }
    let required_pending_sol = min_amount(input.pending_sol_snapshot_lamports, outgoing);
    if input.pending_sol_used_lamports != required_pending_sol {
        return Err(Piv1Error::CumulativeReconciliationMismatch);
    }
    let remaining_after_pending = checked_sub(outgoing, required_pending_sol)?;
    let prior_next_cycle_yield_used = min_amount(
        config.next_cycle_yield_lamports,
        remaining_after_pending,
    );
    let initial_liquid_funding = checked_add(required_pending_sol, prior_next_cycle_yield_used)?;
    let period = derive_kif_period(config.kif_anchor_timestamp, input.prepared_at)?;
    let bitmap = registry.activity_bitmap(rewards, period.id)?;
    let active_count = count_ones(bitmap) as u8;
    let proposed_hwm_delta = checked_add(
        checked_add(split.permanent_compound, split.dust)?,
        input.snapshot_conversion_dust_lamports,
    )?;
    let proposed_hwm = checked_add(config.protected_principal_hwm_lamports, proposed_hwm_delta)?;
    if input.stored_residual_hwm_floor_lamports < proposed_hwm {
        return Err(Piv1Error::HighWaterMarkDecrease);
    }
    let plan = plan_funding(input.funding, initial_liquid_funding, outgoing)?;
    let mut next_config = *config;
    let allocated_sequence = next_config.allocate_next_distribution_sequence()?;
    if allocated_sequence != input.sequence {
        return Err(Piv1Error::SequenceMismatch);
    }
    next_config.last_successful_preparation_at = Some(input.prepared_at);
    next_config.next_cycle_yield_lamports = 0;
    let next_round = build_opened_round(
        config,
        round,
        registry,
        &input,
        &split,
        outgoing,
        &plan,
        bitmap,
        active_count,
        period.id,
        proposed_hwm_delta,
        proposed_hwm,
    );
    next_config.validate_initialized()?;
    next_round.validate()?;
    *config = next_config;
    *round = next_round;
    Ok(())
}

/// The leg record of a newly initiated withdrawal leg.
pub open spec fn spec_initiated_leg(leg: WithdrawalLeg, input: LegInitiationInput, floor: u64) -> WithdrawalLeg {
    WithdrawalLeg {
        version: leg.version,
        metadata_bump: leg.metadata_bump,
        stake_bump: leg.stake_bump,
        is_initialized: true,
        status: WithdrawalLegStatus::Initiated,
        recovery_flags: 0,
        sequence: input.sequence,
        leg_index: input.leg_index,
        validator_list_index: input.validator_list_index,
        validator_seed_suffix: input.validator_seed_suffix,
        validator_vote: input.validator_vote,
        validator_stake_source: input.validator_stake_source,
        initiation_epoch: input.initiation_epoch,
        pool_total_lamports: input.pool_total_lamports,
        pool_token_supply: input.pool_token_supply,
        withdrawal_fee_numerator: input.withdrawal_fee_numerator,
        withdrawal_fee_denominator: input.withdrawal_fee_denominator,
        technical_floor_units: floor,
        jitosol_input_units: input.jitosol_input_units,
        withdrawal_fee_units: input.withdrawal_fee_units,
        burned_units: input.burned_units,
        expected_native_lamports: input.expected_native_lamports,
        observed_delegated_native_lamports: input.observed_delegated_native_lamports,
        minimum_native_lamports: input.minimum_native_lamports,
        stake_rent_advanced_lamports: input.stake_rent_advanced_lamports,
        metadata_rent_advanced_lamports: input.metadata_rent_advanced_lamports,
        finalized_epoch: None,
        finalized_native_lamports: 0,
        recovered_stake_rent_lamports: 0,
        recovered_metadata_rent_lamports: 0,
        cooldown_reward_lamports: 0,
        cooldown_loss_lamports: 0,
    }
}

/// Outcome of initiating one withdrawal leg: the new round and leg records.
pub open spec fn spec_initiate(
    config: PivConfig,
    round: ActiveDistribution,
    leg: WithdrawalLeg,
    input: LegInitiationInput,
) -> Piv1Result<(ActiveDistribution, WithdrawalLeg)> {
    let remaining = round.spec_remaining_target();
    let rem = remaining->Ok_0;
    let max_fill = min_u64(rem, input.maximum_safe_capacity_units);
    let eff = max_u64(round.snapshot_leg_input_floor_units, input.current_technical_floor_units);
    let after = rem - input.jitosol_input_units;
    let assigned = round.cumulative_jitosol_assigned_units + input.jitosol_input_units;
    let fees = round.cumulative_withdrawal_fee_units + input.withdrawal_fee_units;
    let burned = round.cumulative_burned_units + input.burned_units;
    let expected = round.cumulative_expected_native_lamports + input.expected_native_lamports;
    let delegated = round.cumulative_delegated_native_lamports + input.observed_delegated_native_lamports;
    let next_round = ActiveDistribution {
        cumulative_jitosol_assigned_units: assigned as u64,
        cumulative_withdrawal_fee_units: fees as u64,
        cumulative_burned_units: burned as u64,
        cumulative_expected_native_lamports: expected as u64,
        cumulative_delegated_native_lamports: delegated as u64,
        next_leg_index: (round.next_leg_index + 1) as u64,
        successful_leg_count: (round.successful_leg_count + 1) as u64,
        ..round
    };
    let next_leg = spec_initiated_leg(leg, input, eff);
    if config.spec_unpaused() is Err {
        Err(err_of(config.spec_unpaused()))
    } else if round.spec_validate() is Err {
        Err(err_of(round.spec_validate()))
    } else if leg.spec_validate() is Err {
        Err(err_of(leg.spec_validate()))
    } else if round.lifecycle == DistributionLifecycle::RecoveryRequired {
        Err(Piv1Error::RecoveryRequired)
    } else if round.lifecycle != DistributionLifecycle::WithdrawalActive {
        Err(Piv1Error::InvalidLifecycle)
    } else if input.sequence != round.active_sequence {
        Err(Piv1Error::SequenceMismatch)
    } else if spec_sequence_binding(config, round) is Err {
        Err(err_of(spec_sequence_binding(config, round)))
    } else if leg.status != WithdrawalLegStatus::Vacant {
        Err(Piv1Error::Replay)
    } else if input.leg_index != round.next_leg_index {
        Err(Piv1Error::LegIndexMismatch)
    } else if round.spec_target_assigned() {
        Err(Piv1Error::TargetExceeded)
    } else if round.successful_leg_count >= round.maximum_useful_legs {
        Err(Piv1Error::UsefulLegBoundExceeded)
    } else if input.pool_total_lamports == 0 || input.pool_token_supply == 0
        || input.validator_vote.is_zero() || input.validator_stake_source.is_zero() {
        Err(Piv1Error::InvalidInitialization)
    } else if remaining is Err {
        Err(Piv1Error::TargetExceeded)
    } else if input.jitosol_input_units > rem {
        Err(Piv1Error::TargetExceeded)
    } else if input.jitosol_input_units == 0 || max_fill == 0 {
        Err(Piv1Error::ZeroInput)
    } else if input.jitosol_input_units != max_fill {
        Err(Piv1Error::NonMaximumSafeLegFill)
    } else if eff == 0 || input.jitosol_input_units < eff {
        Err(Piv1Error::TechnicalFloorNotMet)
    } else if after != 0 && after < eff {
        Err(Piv1Error::TechnicalFloorNotMet)
    } else if input.withdrawal_fee_units + input.burned_units > u64::MAX {
        Err(Piv1Error::ArithmeticOverflow)
    } else if input.withdrawal_fee_units + input.burned_units != input.jitosol_input_units
        || input.minimum_native_lamports > input.expected_native_lamports
        || input.observed_delegated_native_lamports < input.minimum_native_lamports {
        Err(Piv1Error::CumulativeReconciliationMismatch)
    } else if assigned > u64::MAX {
        Err(Piv1Error::ArithmeticOverflow)
    } else if assigned > round.fixed_jitosol_withdrawal_target_units {
        Err(Piv1Error::TargetExceeded)
    } else if fees > u64::MAX || burned > u64::MAX || expected > u64::MAX || delegated > u64::MAX
        || round.next_leg_index + 1 > u64::MAX || round.successful_leg_count + 1 > u64::MAX {
        Err(Piv1Error::ArithmeticOverflow)
    } else if next_leg.spec_validate() is Err {
        Err(err_of(next_leg.spec_validate()))
    } else if next_round.spec_validate() is Err {
        Err(err_of(next_round.spec_validate()))
    } else {
        Ok((next_round, next_leg))
    }
}

/// Initiates one exact maximum-safe withdrawal leg and consumes its index
/// once. On any failure neither the round nor the leg changes.
#[verifier::rlimit(50)]
pub fn initiate_withdrawal_leg(
    config: &PivConfig,
    round: &mut ActiveDistribution,
    leg: &mut WithdrawalLeg,
    input: LegInitiationInput,
) -> (r: Piv1Result<()>)
    ensures
        match spec_initiate(*config, *old(round), *old(leg), input) {
            Ok((d, l)) => r == Ok::<(), Piv1Error>(()) && *final(round) == d && *final(leg) == l,
            Err(e) => r == Err::<(), Piv1Error>(e) && *final(round) == *old(round) && *final(leg)
                == *old(leg),
        },
{
    config.ensure_unpaused()?;
    round.validate()?;
    leg.validate()?;
    if round.lifecycle == DistributionLifecycle::RecoveryRequired {
        return Err(Piv1Error::RecoveryRequired);
    }
    if round.lifecycle != DistributionLifecycle::WithdrawalActive {
        return Err(Piv1Error::InvalidLifecycle);
    }
    if input.sequence != round.active_sequence {
        return Err(Piv1Error::SequenceMismatch);
    }
    validate_active_sequence_binding(config, round)?;
    if leg.status != WithdrawalLegStatus::Vacant {
        return Err(Piv1Error::Replay);
    }
    if input.leg_index != round.next_leg_index {
        return Err(Piv1Error::LegIndexMismatch);
    }
    if round.is_withdrawal_target_assigned() {
        return Err(Piv1Error::TargetExceeded);
    }
    if round.successful_leg_count >= round.maximum_useful_legs {
        return Err(Piv1Error::UsefulLegBoundExceeded);
    }
    let z = Pubkey::default();
    if input.pool_total_lamports == 0 || input.pool_token_supply == 0 || input.validator_vote == z
        || input.validator_stake_source == z {
        return Err(Piv1Error::InvalidInitialization);
    }
    let remaining = round.remaining_withdrawal_target_units()?;
    if input.jitosol_input_units > remaining {
        return Err(Piv1Error::TargetExceeded);
    }
    let maximum_fill = min_amount(remaining, input.maximum_safe_capacity_units);
    if input.jitosol_input_units == 0 || maximum_fill == 0 {
        return Err(Piv1Error::ZeroInput);
    }
    if input.jitosol_input_units != maximum_fill {
        return Err(Piv1Error::NonMaximumSafeLegFill);
    }
    let effective_floor = max_amount(
        round.snapshot_leg_input_floor_units,
        input.current_technical_floor_units,
    );
    if effective_floor == 0 || input.jitosol_input_units < effective_floor {
        return Err(Piv1Error::TechnicalFloorNotMet);
    }
    let remaining_after = remaining - input.jitosol_input_units;
    if remaining_after != 0 && remaining_after < effective_floor {
        return Err(Piv1Error::TechnicalFloorNotMet);
    }
    if checked_add(input.withdrawal_fee_units, input.burned_units)? != input.jitosol_input_units
        || input.minimum_native_lamports > input.expected_native_lamports
        || input.observed_delegated_native_lamports < input.minimum_native_lamports {
        return Err(Piv1Error::CumulativeReconciliationMismatch);
    }
    let mut next_round = *round;
    next_round.cumulative_jitosol_assigned_units = checked_add(
        next_round.cumulative_jitosol_assigned_units,
        input.jitosol_input_units,
    )?;
    if next_round.cumulative_jitosol_assigned_units > next_round.fixed_jitosol_withdrawal_target_units {
        return Err(Piv1Error::TargetExceeded);
    }
    next_round.cumulative_withdrawal_fee_units = checked_add(
        next_round.cumulative_withdrawal_fee_units,
        input.withdrawal_fee_units,
    )?;
    next_round.cumulative_burned_units = checked_add(
        next_round.cumulative_burned_units,
        input.burned_units,
    )?;
    next_round.cumulative_expected_native_lamports = checked_add(
        next_round.cumulative_expected_native_lamports,
        input.expected_native_lamports,
    )?;
    next_round.cumulative_delegated_native_lamports = checked_add(
        next_round.cumulative_delegated_native_lamports,
        input.observed_delegated_native_lamports,
    )?;
    next_round.next_leg_index = checked_add(next_round.next_leg_index, 1)?;
    next_round.successful_leg_count = checked_add(next_round.successful_leg_count, 1)?;
    let next_leg = WithdrawalLeg {
        version: leg.version,
        metadata_bump: leg.metadata_bump,
        stake_bump: leg.stake_bump,
        is_initialized: true,
        status: WithdrawalLegStatus::Initiated,
        recovery_flags: 0,
        sequence: input.sequence,
        leg_index: input.leg_index,
        validator_list_index: input.validator_list_index,
        validator_seed_suffix: input.validator_seed_suffix,
        validator_vote: input.validator_vote,
        validator_stake_source: input.validator_stake_source,
        initiation_epoch: input.initiation_epoch,
        pool_total_lamports: input.pool_total_lamports,
        pool_token_supply: input.pool_token_supply,
        withdrawal_fee_numerator: input.withdrawal_fee_numerator,
        withdrawal_fee_denominator: input.withdrawal_fee_denominator,
        technical_floor_units: effective_floor,
        jitosol_input_units: input.jitosol_input_units,
        withdrawal_fee_units: input.withdrawal_fee_units,
        burned_units: input.burned_units,
        expected_native_lamports: input.expected_native_lamports,
        observed_delegated_native_lamports: input.observed_delegated_native_lamports,
        minimum_native_lamports: input.minimum_native_lamports,
        stake_rent_advanced_lamports: input.stake_rent_advanced_lamports,
        metadata_rent_advanced_lamports: input.metadata_rent_advanced_lamports,
        finalized_epoch: None,
        finalized_native_lamports: 0,
        recovered_stake_rent_lamports: 0,
        recovered_metadata_rent_lamports: 0,
        cooldown_reward_lamports: 0,
        cooldown_loss_lamports: 0,
    };
    next_leg.validate()?;
    next_round.validate()?;
    *round = next_round;
    *leg = next_leg;
    Ok(())
}

/// Recovery flags raised by a leg finalization.
pub open spec fn spec_finalization_flags(round: ActiveDistribution, input: LegFinalizationInput) -> u8 {
    let loss: u8 = if input.cooldown_loss_lamports > 0 {
        RECOVERY_FLAG_COOLDOWN_LOSS
    } else {
        0
    };
    if input.validated_residual_historical_value_lamports < round.stored_residual_hwm_floor_lamports {
        loss | RECOVERY_FLAG_RESIDUAL_HWM
    } else {
        loss
    }
}

/// Outcome of finalizing one leg: the new round and leg records and the outcome.
pub open spec fn spec_finalize(
    config: PivConfig,
    round: ActiveDistribution,
    leg: WithdrawalLeg,
    input: LegFinalizationInput,
) -> Piv1Result<(ActiveDistribution, WithdrawalLeg, LegFinalizationOutcome)> {
    let left = leg.observed_delegated_native_lamports + input.recovered_stake_rent_lamports
        + input.cooldown_reward_lamports;
    let right = input.finalized_native_lamports + input.cooldown_loss_lamports;
    let flags = spec_finalization_flags(round, input);
    let next_leg = WithdrawalLeg {
        status: WithdrawalLegStatus::Finalized,
        recovery_flags: flags,
        finalized_epoch: Some(input.finalized_epoch),
        finalized_native_lamports: input.finalized_native_lamports,
        recovered_stake_rent_lamports: input.recovered_stake_rent_lamports,
        recovered_metadata_rent_lamports: input.recovered_metadata_rent_lamports,
        cooldown_reward_lamports: input.cooldown_reward_lamports,
        cooldown_loss_lamports: input.cooldown_loss_lamports,
        ..leg
    };
    let c_fd = round.cumulative_finalized_delegated_native_lamports + leg.observed_delegated_native_lamports;
    let c_fn = round.cumulative_finalized_native_lamports + input.finalized_native_lamports;
    let c_rs = round.cumulative_recovered_stake_rent_lamports + input.recovered_stake_rent_lamports;
    let c_rm = round.cumulative_recovered_metadata_rent_lamports
        + input.recovered_metadata_rent_lamports;
    let c_cr = round.cumulative_cooldown_rewards_lamports + input.cooldown_reward_lamports;
    let c_cl = round.cumulative_cooldown_losses_lamports + input.cooldown_loss_lamports;
    let staged = ActiveDistribution {
        cumulative_finalized_delegated_native_lamports: c_fd as u64,
        cumulative_finalized_native_lamports: c_fn as u64,
        cumulative_recovered_stake_rent_lamports: c_rs as u64,
        cumulative_recovered_metadata_rent_lamports: c_rm as u64,
        cumulative_cooldown_rewards_lamports: c_cr as u64,
        cumulative_cooldown_losses_lamports: c_cl as u64,
        finalized_leg_count: (round.finalized_leg_count + 1) as u64,
        recorded_escrow_available_lamports: input.escrow_available_after_lamports,
        ..round
    };
    let prior = staged.spec_prior_used();
    let liquid = staged.pending_sol_used_lamports + prior->Ok_0;
    let (next_round, outcome) = if flags != 0 {
        (
            ActiveDistribution {
                lifecycle: DistributionLifecycle::RecoveryRequired,
                recovery_flags: staged.recovery_flags | flags,
                ..staged
            },
            LegFinalizationOutcome::RecoveryRequired,
        )
    } else if staged.spec_withdrawal_complete() {
        (
            ActiveDistribution { lifecycle: DistributionLifecycle::EscrowFunded, ..staged },
            LegFinalizationOutcome::EscrowFunded,
        )
    } else {
        (staged, LegFinalizationOutcome::Recorded)
    };
    if config.spec_unpaused() is Err {
        Err(err_of(config.spec_unpaused()))
    } else if round.spec_validate() is Err {
        Err(err_of(round.spec_validate()))
    } else if leg.spec_validate() is Err {
        Err(err_of(leg.spec_validate()))
    } else if round.lifecycle == DistributionLifecycle::RecoveryRequired {
        Err(Piv1Error::RecoveryRequired)
    } else if round.lifecycle != DistributionLifecycle::WithdrawalActive {
        Err(Piv1Error::InvalidLifecycle)
    } else if input.sequence != round.active_sequence || input.sequence != leg.sequence {
        Err(Piv1Error::SequenceMismatch)
    } else if spec_sequence_binding(config, round) is Err {
        Err(err_of(spec_sequence_binding(config, round)))
    } else if input.leg_index != leg.leg_index {
        Err(Piv1Error::LegIndexMismatch)
    } else if leg.status == WithdrawalLegStatus::Vacant {
        Err(Piv1Error::InvalidLifecycle)
    } else if leg.status == WithdrawalLegStatus::Finalized {
        Err(Piv1Error::AlreadyFinalized)
    } else if leg.leg_index >= round.next_leg_index || leg.leg_index >= round.successful_leg_count {
        Err(Piv1Error::LegIndexMismatch)
    } else if input.finalized_epoch < leg.initiation_epoch {
        Err(Piv1Error::TimestampRegression)
    } else if input.recovered_stake_rent_lamports != leg.stake_rent_advanced_lamports
        || input.recovered_metadata_rent_lamports != leg.metadata_rent_advanced_lamports || (
    input.cooldown_reward_lamports > 0 && input.cooldown_loss_lamports > 0) {
        Err(Piv1Error::CumulativeReconciliationMismatch)
    } else if left > u64::MAX || right > u64::MAX {
        Err(Piv1Error::ArithmeticOverflow)
    } else if left != right {
        Err(Piv1Error::CumulativeReconciliationMismatch)
    } else if c_fd > u64::MAX || c_fn > u64::MAX || c_rs > u64::MAX || c_rm > u64::MAX || c_cr
        > u64::MAX || c_cl > u64::MAX || round.finalized_leg_count + 1 > u64::MAX {
        Err(Piv1Error::ArithmeticOverflow)
    } else if prior is Err {
        Err(Piv1Error::CumulativeReconciliationMismatch)
    } else if liquid > u64::MAX || liquid + c_fn > u64::MAX {
        Err(Piv1Error::ArithmeticOverflow)
    } else if liquid + c_fn < c_rs {
        Err(Piv1Error::CumulativeReconciliationMismatch)
    } else if liquid + c_fn - c_rs != input.escrow_available_after_lamports {
        Err(Piv1Error::EscrowReconciliationMismatch)
    } else if next_leg.spec_validate() is Err {
        Err(err_of(next_leg.spec_validate()))
    } else if next_round.spec_validate() is Err {
        Err(err_of(next_round.spec_validate()))
    } else {
        Ok((next_round, next_leg, outcome))
    }
}

/// Finalizes one already validated inactive stake leg exactly once. On any
/// failure neither the round nor the leg changes.
#[verifier::rlimit(50)]
pub fn finalize_withdrawal_leg(
    config: &PivConfig,
    round: &mut ActiveDistribution,
    leg: &mut WithdrawalLeg,
    input: LegFinalizationInput,
) -> (r: Piv1Result<LegFinalizationOutcome>)
    ensures
        match spec_finalize(*config, *old(round), *old(leg), input) {
            Ok((d, l, o)) => r == Ok::<LegFinalizationOutcome, Piv1Error>(o) && *final(round) == d
                && *final(leg) == l,
            Err(e) => r == Err::<LegFinalizationOutcome, Piv1Error>(e) && *final(round) == *old(
                round,
            ) && *final(leg) == *old(leg),
        },
{
    config.ensure_unpaused()?;
    round.validate()?;
    leg.validate()?;
    if round.lifecycle == DistributionLifecycle::RecoveryRequired {
        return Err(Piv1Error::RecoveryRequired);
    }
    if round.lifecycle != DistributionLifecycle::WithdrawalActive {
        return Err(Piv1Error::InvalidLifecycle);
    }
    if input.sequence != round.active_sequence || input.sequence != leg.sequence {
        return Err(Piv1Error::SequenceMismatch);
    }
    validate_active_sequence_binding(config, round)?;
    if input.leg_index != leg.leg_index {
        return Err(Piv1Error::LegIndexMismatch);
    }
    match leg.status {
        WithdrawalLegStatus::Vacant => return Err(Piv1Error::InvalidLifecycle),
        WithdrawalLegStatus::Finalized => return Err(Piv1Error::AlreadyFinalized),
        WithdrawalLegStatus::Initiated => {},
    }
    if leg.leg_index >= round.next_leg_index || leg.leg_index >= round.successful_leg_count {
        return Err(Piv1Error::LegIndexMismatch);
    }
    if input.finalized_epoch < leg.initiation_epoch {
        return Err(Piv1Error::TimestampRegression);
    }
    if input.recovered_stake_rent_lamports != leg.stake_rent_advanced_lamports
        || input.recovered_metadata_rent_lamports != leg.metadata_rent_advanced_lamports || (
    input.cooldown_reward_lamports > 0 && input.cooldown_loss_lamports > 0) {
        return Err(Piv1Error::CumulativeReconciliationMismatch);
    }
    let final_left = checked_add(
        checked_add(leg.observed_delegated_native_lamports, input.recovered_stake_rent_lamports)?,
        input.cooldown_reward_lamports,
    )?;
    let final_right = checked_add(input.finalized_native_lamports, input.cooldown_loss_lamports)?;
    if final_left != final_right {
        return Err(Piv1Error::CumulativeReconciliationMismatch);
    }
    let mut recovery_flags: u8 = 0;
    if input.cooldown_loss_lamports > 0 {
        recovery_flags = recovery_flags | RECOVERY_FLAG_COOLDOWN_LOSS;
    }
    if input.validated_residual_historical_value_lamports < round.stored_residual_hwm_floor_lamports {
        recovery_flags = recovery_flags | RECOVERY_FLAG_RESIDUAL_HWM;
    }
    proof {
        assert(0u8 | 1u8 == 1u8) by (bit_vector);
    }
    let mut next_leg = *leg;
    next_leg.status = WithdrawalLegStatus::Finalized;
    next_leg.recovery_flags = recovery_flags;
    next_leg.finalized_epoch = Some(input.finalized_epoch);
    next_leg.finalized_native_lamports = input.finalized_native_lamports;
    next_leg.recovered_stake_rent_lamports = input.recovered_stake_rent_lamports;
    next_leg.recovered_metadata_rent_lamports = input.recovered_metadata_rent_lamports;
    next_leg.cooldown_reward_lamports = input.cooldown_reward_lamports;
    next_leg.cooldown_loss_lamports = input.cooldown_loss_lamports;
    let mut next_round = *round;
    next_round.cumulative_finalized_delegated_native_lamports = checked_add(
        next_round.cumulative_finalized_delegated_native_lamports,
        leg.observed_delegated_native_lamports,
    )?;
    next_round.cumulative_finalized_native_lamports = checked_add(
        next_round.cumulative_finalized_native_lamports,
        input.finalized_native_lamports,
    )?;
    next_round.cumulative_recovered_stake_rent_lamports = checked_add(
        next_round.cumulative_recovered_stake_rent_lamports,
        input.recovered_stake_rent_lamports,
    )?;
    next_round.cumulative_recovered_metadata_rent_lamports = checked_add(
        next_round.cumulative_recovered_metadata_rent_lamports,
        input.recovered_metadata_rent_lamports,
    )?;
    next_round.cumulative_cooldown_rewards_lamports = checked_add(
        next_round.cumulative_cooldown_rewards_lamports,
        input.cooldown_reward_lamports,
    )?;
    next_round.cumulative_cooldown_losses_lamports = checked_add(
        next_round.cumulative_cooldown_losses_lamports,
        input.cooldown_loss_lamports,
    )?;
    next_round.finalized_leg_count = checked_add(next_round.finalized_leg_count, 1)?;
    next_round.recorded_escrow_available_lamports = input.escrow_available_after_lamports;
    let initial_liquid_funding = checked_add(
        next_round.pending_sol_used_lamports,
        next_round.prior_next_cycle_yield_used_lamports()?,
    )?;
    let expected_escrow = checked_sub(
        checked_add(initial_liquid_funding, next_round.cumulative_finalized_native_lamports)?,
        next_round.cumulative_recovered_stake_rent_lamports,
    )?;
    if expected_escrow != input.escrow_available_after_lamports {
        return Err(Piv1Error::EscrowReconciliationMismatch);
    }
    let outcome = if recovery_flags != 0 {
        next_round.lifecycle = DistributionLifecycle::RecoveryRequired;
        next_round.recovery_flags = next_round.recovery_flags | recovery_flags;
        LegFinalizationOutcome::RecoveryRequired
    } else if next_round.is_withdrawal_complete() {
        next_round.lifecycle = DistributionLifecycle::EscrowFunded;
        LegFinalizationOutcome::EscrowFunded
    } else {
        LegFinalizationOutcome::Recorded
    };
    next_leg.validate()?;
    next_round.validate()?;
    *leg = next_leg;
    *round = next_round;
    Ok(outcome)
}

/// Per-guardian credit, KIF liability, next carry and zero-active compound
/// of a KIF allocation.
pub open spec fn kif_terms(k: KifAllocation) -> (u64, u64, u64, u64) {
    match k {
        KifAllocation::ActiveGuardians(a) => (a.per_guardian, a.credited_total, a.carry_next, 0),
        KifAllocation::ZeroActiveGuardians(z) => (0, 0, z.carry_next, z.compound_from_kif),
    }
}

/// Outcome of crediting slot `i` of the snapshot: eligible slots receive `per`.
pub open spec fn slot_credit(round: ActiveDistribution, per: u64, i: int, reward: GuardianReward) -> Piv1Result<
    GuardianReward,
> {
    let credit: u64 = if has_bit(round.kif_eligibility_bitmap, i as u8) {
        per
    } else {
        0
    };
    reward.spec_credit_snapshot(round.guardian_keys[i], i as u8, round.guardian_registry_revision, credit)
}

/// Outcome of crediting the first `n` reward records in slot order, stopping
/// at the first refusal.
pub open spec fn credit_scan(rewards: Seq<GuardianReward>, round: ActiveDistribution, per: u64, n: int) -> Piv1Result<
    Seq<GuardianReward>,
>
    decreases n,
{
    if n <= 0 {
        Ok(rewards)
    } else {
        match credit_scan(rewards, round, per, n - 1) {
            Err(e) => Err(e),
            Ok(s) => match slot_credit(round, per, n - 1, s[n - 1]) {
                Err(e) => Err(e),
                Ok(c) => Ok(s.update(n - 1, c)),
            },
        }
    }
}

proof fn lemma_credit_scan_len(rewards: Seq<GuardianReward>, round: ActiveDistribution, per: u64, n: int)
    requires
        0 <= n <= rewards.len(),
        credit_scan(rewards, round, per, n) is Ok,
    ensures
        credit_scan(rewards, round, per, n)->Ok_0.len() == rewards.len(),
        forall|j: int|
            n <= j < rewards.len() ==> #[trigger] credit_scan(rewards, round, per, n)->Ok_0[j]
                == rewards[j],
    decreases n,
{
    if n > 0 {
        lemma_credit_scan_len(rewards, round, per, n - 1);
    }
}

proof fn lemma_credit_scan_err(rewards: Seq<GuardianReward>, round: ActiveDistribution, per: u64, n: int, m: int)
    requires
        0 <= n <= m,
        credit_scan(rewards, round, per, n) is Err,
    ensures
        credit_scan(rewards, round, per, m) == credit_scan(rewards, round, per, n),
    decreases m - n,
{
    if m > n {
        lemma_credit_scan_err(rewards, round, per, n, m - 1);
    }
}

/// The round record after a completed settlement.
pub open spec fn spec_settled_round(
    round: ActiveDistribution,
    input: SettlementInput,
    net: u64,
    dust: u64,
    allocated: u64,
    remainder: u64,
    retained: u64,
    terms: (u64, u64, u64, u64),
    delta: u64,
    settled: u64,
) -> ActiveDistribution {
    ActiveDistribution {
        actual_net_available_lamports: net,
        actual_htfp_lamports: input.actual_htfp_lamports,
        actual_team_owner_lamports: input.actual_team_owner_lamports,
        actual_kif_allocation_lamports: input.actual_kif_allocation_lamports,
        actual_net_allocation_dust_lamports: dust,
        actual_allocated_outgoing_lamports: allocated,
        actual_escrow_remainder_lamports: remainder,
        actual_retained_conservative_dust_lamports: retained,
        actual_kif_liability_lamports: terms.1,
        actual_kif_carry_next_lamports: terms.2,
        actual_zero_active_kif_compound_lamports: terms.3,
        actual_hwm_delta_lamports: delta,
        settled_protected_hwm_lamports: settled,
        outstanding_active_round_liability_lamports: 0,
        settlement_recorded: true,
        lifecycle: DistributionLifecycle::Settled,
        ..round
    }
}

/// Dust retained by a settlement: split, conversion, allocation and
/// conservative dust.
pub open spec fn retained_dust_total(round: ActiveDistribution, dust: u64, retained: u64) -> int {
    round.split_dust_lamports + round.snapshot_conversion_dust_lamports + dust + retained
}

/// True when one of the cumulative counters a settlement raises would overflow.
pub open spec fn settlement_counters_overflow(
    config: PivConfig,
    round: ActiveDistribution,
    input: SettlementInput,
    dust: u64,
    retained: u64,
    terms: (u64, u64, u64, u64),
) -> bool {
    ||| config.cumulative_gross_yield_lamports + round.gross_yield_lamports > u64::MAX
    ||| config.cumulative_htfp_paid_lamports + input.actual_htfp_lamports > u64::MAX
    ||| config.cumulative_team_owner_paid_lamports + input.actual_team_owner_lamports > u64::MAX
    ||| config.cumulative_kif_credited_lamports + terms.1 > u64::MAX
    ||| config.kif_claim_liability_lamports + terms.1 > u64::MAX
    ||| config.cumulative_permanent_compound_lamports + round.permanent_compound_lamports > u64::MAX
    ||| round.split_dust_lamports + round.snapshot_conversion_dust_lamports > u64::MAX
    ||| round.split_dust_lamports + round.snapshot_conversion_dust_lamports + dust > u64::MAX
    ||| retained_dust_total(round, dust, retained) > u64::MAX
    ||| config.cumulative_retained_dust_lamports + retained_dust_total(round, dust, retained) > u64::MAX
    ||| config.cumulative_zero_active_kif_compound_lamports + terms.3 > u64::MAX
    ||| config.cumulative_cooldown_yield_recorded_lamports + round.cumulative_cooldown_rewards_lamports
        > u64::MAX
    ||| config.next_cycle_yield_lamports + round.cumulative_cooldown_rewards_lamports > u64::MAX
}

/// The configuration after a completed settlement.
pub open spec fn spec_settled_config(
    config: PivConfig,
    round: ActiveDistribution,
    input: SettlementInput,
    dust: u64,
    retained: u64,
    terms: (u64, u64, u64, u64),
    settled: u64,
) -> PivConfig {
    PivConfig {
        protected_principal_hwm_lamports: settled,
        cumulative_gross_yield_lamports: (config.cumulative_gross_yield_lamports
            + round.gross_yield_lamports) as u64,
        cumulative_htfp_paid_lamports: (config.cumulative_htfp_paid_lamports
            + input.actual_htfp_lamports) as u64,
        cumulative_team_owner_paid_lamports: (config.cumulative_team_owner_paid_lamports
            + input.actual_team_owner_lamports) as u64,
        cumulative_kif_credited_lamports: (config.cumulative_kif_credited_lamports + terms.1) as u64,
        kif_claim_liability_lamports: (config.kif_claim_liability_lamports + terms.1) as u64,
        collective_kif_carry_lamports: terms.2,
        cumulative_permanent_compound_lamports: (config.cumulative_permanent_compound_lamports
            + round.permanent_compound_lamports) as u64,
        cumulative_retained_dust_lamports: (config.cumulative_retained_dust_lamports
            + retained_dust_total(round, dust, retained)) as u64,
        cumulative_zero_active_kif_compound_lamports: (config.cumulative_zero_active_kif_compound_lamports
            + terms.3) as u64,
        cumulative_cooldown_yield_recorded_lamports: (config.cumulative_cooldown_yield_recorded_lamports
            + round.cumulative_cooldown_rewards_lamports) as u64,
        next_cycle_yield_lamports: (config.next_cycle_yield_lamports
            + round.cumulative_cooldown_rewards_lamports) as u64,
        ..config
    }
}

/// Outcome of a settlement: the new configuration, round, reward records and
/// the outcome reported, or the error on which nothing changes.
pub open spec fn spec_settle(
    config: PivConfig,
    round: ActiveDistribution,
    rewards: Seq<GuardianReward>,
    input: SettlementInput,
) -> Piv1Result<(PivConfig, ActiveDistribution, Seq<GuardianReward>, SettlementOutcome)> {
    let prior = round.spec_prior_used();
    let e1 = round.pending_sol_used_lamports + prior->Ok_0;
    let eligible = e1 + round.cumulative_finalized_delegated_native_lamports;
    let net = min_u64(round.outgoing_gross_obligation_lamports, eligible as u64);
    let a1 = input.actual_htfp_lamports + input.actual_team_owner_lamports;
    let allocated = a1 + input.actual_kif_allocation_lamports;
    let dust = (net - allocated) as u64;
    let retained = (eligible - net) as u64;
    let remainder = (round.recorded_escrow_available_lamports - allocated) as u64;
    let x1 = dust + retained;
    let expected_remainder = x1 + round.cumulative_cooldown_rewards_lamports;
    let kif = spec_allocate_kif(
        input.actual_kif_allocation_lamports,
        round.kif_carry_input_lamports,
        round.kif_active_guardian_count,
    );
    let terms = kif_terms(kif->Ok_0);
    let credits = credit_scan(rewards, round, terms.0, 6);
    let h1 = round.proposed_hwm_delta_lamports + dust;
    let h2 = h1 + retained;
    let delta = h2 + terms.3;
    let settled = round.old_protected_principal_lamports + delta;
    let recovery = ActiveDistribution {
        lifecycle: DistributionLifecycle::RecoveryRequired,
        recovery_flags: round.recovery_flags | RECOVERY_FLAG_RESIDUAL_HWM,
        ..round
    };
    let next_round = spec_settled_round(
        round,
        input,
        net,
        dust,
        allocated as u64,
        remainder,
        retained,
        terms,
        delta as u64,
        settled as u64,
    );
    let next_config = spec_settled_config(config, round, input, dust, retained, terms, settled as u64);
    if config.spec_validate() is Err {
        Err(err_of(config.spec_validate()))
    } else if round.spec_validate() is Err {
        Err(err_of(round.spec_validate()))
    } else if round.lifecycle == DistributionLifecycle::Settled || round.settlement_recorded {
        Err(Piv1Error::SettlementReplay)
    } else if round.lifecycle == DistributionLifecycle::RecoveryRequired {
        Err(Piv1Error::RecoveryRequired)
    } else if round.lifecycle != DistributionLifecycle::EscrowFunded {
        Err(Piv1Error::InvalidLifecycle)
    } else if input.sequence != round.active_sequence {
        Err(Piv1Error::SequenceMismatch)
    } else if spec_sequence_binding(config, round) is Err {
        Err(err_of(spec_sequence_binding(config, round)))
    } else if input.escrow_available_lamports != round.recorded_escrow_available_lamports {
        Err(Piv1Error::EscrowReconciliationMismatch)
    } else if config.protected_principal_hwm_lamports != round.old_protected_principal_lamports
        || config.collective_kif_carry_lamports != round.kif_carry_input_lamports {
        Err(Piv1Error::CumulativeReconciliationMismatch)
    } else if prior is Err {
        Err(err_of(prior))
    } else if e1 > u64::MAX || eligible > u64::MAX {
        Err(Piv1Error::ArithmeticOverflow)
    } else if input.actual_htfp_lamports > round.htfp_gross_obligation_lamports
        || input.actual_team_owner_lamports > round.team_owner_gross_obligation_lamports
        || input.actual_kif_allocation_lamports > round.kif_gross_obligation_lamports {
        Err(Piv1Error::ObligationExceeded)
    } else if a1 > u64::MAX || allocated > u64::MAX {
        Err(Piv1Error::ArithmeticOverflow)
    } else if allocated > net {
        Err(Piv1Error::ObligationExceeded)
    } else if allocated > round.recorded_escrow_available_lamports {
        Err(Piv1Error::CumulativeReconciliationMismatch)
    } else if x1 > u64::MAX || expected_remainder > u64::MAX {
        Err(Piv1Error::ArithmeticOverflow)
    } else if remainder != expected_remainder {
        Err(Piv1Error::EscrowReconciliationMismatch)
    } else if kif is Err {
        Err(spec_from_math(kif->Err_0))
    } else if credits is Err {
        Err(err_of(credits))
    } else if h1 > u64::MAX || h2 > u64::MAX || delta > u64::MAX || settled > u64::MAX {
        Err(Piv1Error::ArithmeticOverflow)
    } else if input.validated_post_settlement_protected_value_lamports < settled {
        if recovery.spec_validate() is Err {
            Err(err_of(recovery.spec_validate()))
        } else {
            Ok((config, recovery, rewards, SettlementOutcome::RecoveryRequired))
        }
    } else if settlement_counters_overflow(config, round, input, dust, retained, terms) {
        Err(Piv1Error::ArithmeticOverflow)
    } else if next_round.spec_validate() is Err {
        Err(err_of(next_round.spec_validate()))
    } else if next_config.spec_validate() is Err {
        Err(err_of(next_config.spec_validate()))
    } else {
        Ok((next_config, next_round, credits->Ok_0, SettlementOutcome::Settled))
    }
}

/// Atomically records beneficiary, KIF, HWM and cumulative settlement state.
/// On any error the configuration, the round and every reward are unchanged.
#[verifier::rlimit(100)]
pub fn settle_distribution(
    config: &mut PivConfig,
    round: &mut ActiveDistribution,
    rewards: &mut [GuardianReward; 6],
    input: SettlementInput,
) -> (r: Piv1Result<SettlementOutcome>)
    ensures
        match spec_settle(*old(config), *old(round), old(rewards)@, input) {
            Ok((c, d, w, o)) => r == Ok::<SettlementOutcome, Piv1Error>(o) && *final(config) == c
                && *final(round) == d && final(rewards)@ == w,
            Err(e) => r == Err::<SettlementOutcome, Piv1Error>(e) && *final(config) == *old(config)
                && *final(round) == *old(round) && final(rewards)@ == old(rewards)@,
        },
{
    config.validate_initialized()?;
    round.validate()?;
    if round.lifecycle == DistributionLifecycle::Settled || round.settlement_recorded {
        return Err(Piv1Error::SettlementReplay);
    }
    if round.lifecycle == DistributionLifecycle::RecoveryRequired {
        return Err(Piv1Error::RecoveryRequired);
    }
    if round.lifecycle != DistributionLifecycle::EscrowFunded {
        return Err(Piv1Error::InvalidLifecycle);
    }
    if input.sequence != round.active_sequence {
        return Err(Piv1Error::SequenceMismatch);
    }
    validate_active_sequence_binding(config, round)?;
    if input.escrow_available_lamports != round.recorded_escrow_available_lamports {
        return Err(Piv1Error::EscrowReconciliationMismatch);
    }
    if config.protected_principal_hwm_lamports != round.old_protected_principal_lamports
        || config.collective_kif_carry_lamports != round.kif_carry_input_lamports {
        return Err(Piv1Error::CumulativeReconciliationMismatch);
    }
    let prior = round.prior_next_cycle_yield_used_lamports()?;
    let eligible_native = checked_add(
        checked_add(round.pending_sol_used_lamports, prior)?,
        round.cumulative_finalized_delegated_native_lamports,
    )?;
    let actual_net_available = min_amount(round.outgoing_gross_obligation_lamports, eligible_native);
    let actual_htfp = input.actual_htfp_lamports;
    let actual_team = input.actual_team_owner_lamports;
    let actual_kif = input.actual_kif_allocation_lamports;
    if actual_htfp > round.htfp_gross_obligation_lamports || actual_team
        > round.team_owner_gross_obligation_lamports || actual_kif
        > round.kif_gross_obligation_lamports {
        return Err(Piv1Error::ObligationExceeded);
    }
    let actual_allocated = checked_add(checked_add(actual_htfp, actual_team)?, actual_kif)?;
    if actual_allocated > actual_net_available {
        return Err(Piv1Error::ObligationExceeded);
    }
    let net_allocation_dust = checked_sub(actual_net_available, actual_allocated)?;
    let retained_conservative_dust = checked_sub(eligible_native, actual_net_available)?;
    let escrow_remainder = checked_sub(round.recorded_escrow_available_lamports, actual_allocated)?;
    let expected_escrow_remainder = checked_add(
        checked_add(net_allocation_dust, retained_conservative_dust)?,
        round.cumulative_cooldown_rewards_lamports,
    )?;
    if escrow_remainder != expected_escrow_remainder {
        return Err(Piv1Error::EscrowReconciliationMismatch);
    }
    let kif_allocation = match allocate_kif(
        actual_kif,
        round.kif_carry_input_lamports,
        round.kif_active_guardian_count,
    ) {
        Ok(k) => k,
        Err(e) => return Err(from_math(e)),
    };
    let (per_active_guardian, kif_liability, kif_carry_next, zero_active_compound) =
        match kif_allocation {
        KifAllocation::ActiveGuardians(active) => (
            active.per_guardian,
            active.credited_total,
            active.carry_next,
            0u64,
        ),
        KifAllocation::ZeroActiveGuardians(zero) => (0u64, 0u64, zero.carry_next, zero.compound_from_kif),
    };
    let ghost terms = (per_active_guardian, kif_liability, kif_carry_next, zero_active_compound);
    assert(terms == kif_terms(kif_allocation));
    let mut next_rewards = *rewards;
    let mut index: usize = 0;
    #[verifier::loop_isolation(false)]
    while index < 6
        invariant
            0 <= index <= 6,
            next_rewards@.len() == 6,
            credit_scan(old(rewards)@, *round, per_active_guardian, index as int) == Ok::<
                Seq<GuardianReward>,
                Piv1Error,
            >(next_rewards@),
        decreases 6 - index,
    {
        let guardian_index = index as u8;
        let bit = slot_bit(guardian_index);
        let credit: u64 = if round.kif_eligibility_bitmap & bit != 0 {
            per_active_guardian
        } else {
            0
        };
        let mut reward = next_rewards[index];
        proof {
            assert(has_bit(round.kif_eligibility_bitmap, guardian_index) == (round.kif_eligibility_bitmap
                & bit != 0));
        }
        match reward.credit_snapshot(
            round.guardian_keys[index],
            guardian_index,
            round.guardian_registry_revision,
            credit,
        ) {
            Ok(()) => {},
            Err(e) => {
                proof {
                    lemma_credit_scan_err(
                        old(rewards)@,
                        *round,
                        per_active_guardian,
                        index as int + 1,
                        6,
                    );
                }
                return Err(e);
            },
        }
        next_rewards[index] = reward;
        index = index + 1;
    }
    let actual_hwm_delta = checked_add(
        checked_add(
            checked_add(round.proposed_hwm_delta_lamports, net_allocation_dust)?,
            retained_conservative_dust,
        )?,
        zero_active_compound,
    )?;
    let settled_hwm = checked_add(round.old_protected_principal_lamports, actual_hwm_delta)?;
    if input.validated_post_settlement_protected_value_lamports < settled_hwm {
        let mut recovery_round = *round;
        recovery_round.lifecycle = DistributionLifecycle::RecoveryRequired;
        recovery_round.recovery_flags = recovery_round.recovery_flags | RECOVERY_FLAG_RESIDUAL_HWM;
        recovery_round.validate()?;
        *round = recovery_round;
        return Ok(SettlementOutcome::RecoveryRequired);
    }
    let mut next_round = *round;
    next_round.actual_net_available_lamports = actual_net_available;
    next_round.actual_htfp_lamports = actual_htfp;
    next_round.actual_team_owner_lamports = actual_team;
    next_round.actual_kif_allocation_lamports = actual_kif;
    next_round.actual_net_allocation_dust_lamports = net_allocation_dust;
    next_round.actual_allocated_outgoing_lamports = actual_allocated;
    next_round.actual_escrow_remainder_lamports = escrow_remainder;
    next_round.actual_retained_conservative_dust_lamports = retained_conservative_dust;
    next_round.actual_kif_liability_lamports = kif_liability;
    next_round.actual_kif_carry_next_lamports = kif_carry_next;
    next_round.actual_zero_active_kif_compound_lamports = zero_active_compound;
    next_round.actual_hwm_delta_lamports = actual_hwm_delta;
    next_round.settled_protected_hwm_lamports = settled_hwm;
    next_round.outstanding_active_round_liability_lamports = 0;
    next_round.settlement_recorded = true;
    next_round.lifecycle = DistributionLifecycle::Settled;
    let mut next_config = *config;
    if next_config.checked_increase_protected_principal_hwm(actual_hwm_delta)? != settled_hwm {
        return Err(Piv1Error::HighWaterMarkDecrease);
    }
    next_config.cumulative_gross_yield_lamports = checked_add(
        next_config.cumulative_gross_yield_lamports,
        round.gross_yield_lamports,
    )?;
    next_config.cumulative_htfp_paid_lamports = checked_add(
        next_config.cumulative_htfp_paid_lamports,
        actual_htfp,
    )?;
    next_config.cumulative_team_owner_paid_lamports = checked_add(
        next_config.cumulative_team_owner_paid_lamports,
        actual_team,
    )?;
    next_config.cumulative_kif_credited_lamports = checked_add(
        next_config.cumulative_kif_credited_lamports,
        kif_liability,
    )?;
    next_config.kif_claim_liability_lamports = checked_add(
        next_config.kif_claim_liability_lamports,
        kif_liability,
    )?;
    next_config.collective_kif_carry_lamports = kif_carry_next;
    next_config.cumulative_permanent_compound_lamports = checked_add(
        next_config.cumulative_permanent_compound_lamports,
        round.permanent_compound_lamports,
    )?;
    let retained_dust = checked_add(
        checked_add(
            checked_add(round.split_dust_lamports, round.snapshot_conversion_dust_lamports)?,
            net_allocation_dust,
        )?,
        retained_conservative_dust,
    )?;
    next_config.cumulative_retained_dust_lamports = checked_add(
        next_config.cumulative_retained_dust_lamports,
        retained_dust,
    )?;
    next_config.cumulative_zero_active_kif_compound_lamports = checked_add(
        next_config.cumulative_zero_active_kif_compound_lamports,
        zero_active_compound,
    )?;
    next_config.cumulative_cooldown_yield_recorded_lamports = checked_add(
        next_config.cumulative_cooldown_yield_recorded_lamports,
        round.cumulative_cooldown_rewards_lamports,
    )?;
    next_config.next_cycle_yield_lamports = checked_add(
        next_config.next_cycle_yield_lamports,
        round.cumulative_cooldown_rewards_lamports,
    )?;
    next_round.validate()?;
    next_config.validate_initialized()?;
    *round = next_round;
    *config = next_config;
    *rewards = next_rewards;
    Ok(SettlementOutcome::Settled)
}

/// The record of a completed round.
pub open spec fn spec_completion_summary(round: ActiveDistribution, input: PendingIntegrationInput) -> CompletedDistributionSummary {
    CompletedDistributionSummary {
        sequence: round.active_sequence,
        completed_at: input.completed_at,
        gross_yield_lamports: round.gross_yield_lamports,
        actual_allocated_outgoing_lamports: round.actual_allocated_outgoing_lamports,
        integrated_contribution_value_lamports: input.contribution_value_lamports,
        final_protected_hwm_lamports: input.new_protected_hwm_lamports,
        fixed_jitosol_withdrawal_target_units: round.fixed_jitosol_withdrawal_target_units,
        successful_leg_count: round.successful_leg_count,
        cumulative_cooldown_rewards_lamports: round.cumulative_cooldown_rewards_lamports,
        actual_kif_liability_lamports: round.actual_kif_liability_lamports,
        actual_kif_carry_next_lamports: round.actual_kif_carry_next_lamports,
    }
}

/// The configuration after pending contributions are integrated.
pub open spec fn spec_integrated_config(config: PivConfig, input: PendingIntegrationInput) -> PivConfig {
    PivConfig {
        accounted_pending_sol_lamports: (config.accounted_pending_sol_lamports
            - input.integrated_pending_sol_lamports) as u64,
        accounted_pending_jitosol_units: (config.accounted_pending_jitosol_units
            - input.integrated_pending_jitosol_units) as u64,
        accounted_historical_jitosol_units: input.new_accounted_historical_jitosol_units,
        accounted_historical_sol_lamports: input.new_accounted_historical_sol_lamports,
        protected_principal_hwm_lamports: input.new_protected_hwm_lamports,
        cumulative_contribution_value_lamports: (config.cumulative_contribution_value_lamports
            + input.contribution_value_lamports) as u64,
        ..config
    }
}

/// Outcome of integrating pending contributions after settlement: the new
/// configuration and the completion record, or the error on which nothing
/// changes.
pub open spec fn spec_integrate(
    config: PivConfig,
    round: ActiveDistribution,
    input: PendingIntegrationInput,
) -> Piv1Result<(PivConfig, CompletedDistributionSummary)> {
    let expected_hwm = config.protected_principal_hwm_lamports + input.contribution_value_lamports;
    let next_config = spec_integrated_config(config, input);
    if config.spec_validate() is Err {
        Err(err_of(config.spec_validate()))
    } else if round.spec_validate() is Err {
        Err(err_of(round.spec_validate()))
    } else if round.lifecycle == DistributionLifecycle::RecoveryRequired {
        Err(Piv1Error::RecoveryRequired)
    } else if round.lifecycle != DistributionLifecycle::Settled {
        Err(Piv1Error::InvalidLifecycle)
    } else if input.sequence != round.active_sequence {
        Err(Piv1Error::SequenceMismatch)
    } else if spec_sequence_binding(config, round) is Err {
        Err(err_of(spec_sequence_binding(config, round)))
    } else if round.outstanding_active_round_liability_lamports != 0 {
        Err(Piv1Error::OutstandingLiability)
    } else if input.completed_at < round.prepared_at {
        Err(Piv1Error::TimestampRegression)
    } else if input.integrated_pending_sol_lamports != config.accounted_pending_sol_lamports
        || input.integrated_pending_jitosol_units != config.accounted_pending_jitosol_units
        || input.contribution_value_lamports < input.integrated_pending_sol_lamports {
        Err(Piv1Error::CumulativeReconciliationMismatch)
    } else if config.protected_principal_hwm_lamports != round.settled_protected_hwm_lamports {
        Err(Piv1Error::CumulativeReconciliationMismatch)
    } else if expected_hwm > u64::MAX {
        Err(Piv1Error::ArithmeticOverflow)
    } else if input.new_protected_hwm_lamports != expected_hwm {
        Err(Piv1Error::HighWaterMarkDecrease)
    } else if config.cumulative_contribution_value_lamports + input.contribution_value_lamports > u64::MAX {
        Err(Piv1Error::ArithmeticOverflow)
    } else if next_config.spec_validate() is Err {
        Err(err_of(next_config.spec_validate()))
    } else {
        Ok((next_config, spec_completion_summary(round, input)))
    }
}

/// Integrates already validated pending contributions, records completion and
/// returns the reusable round header to Idle without reusing its sequence.
/// On any error neither the configuration nor the round changes.
#[verifier::rlimit(50)]
pub fn integrate_pending_and_complete(
    config: &mut PivConfig,
    round: &mut ActiveDistribution,
    input: PendingIntegrationInput,
) -> (r: Piv1Result<CompletedDistributionSummary>)
    ensures
        match spec_integrate(*old(config), *old(round), input) {
            Ok((c, s)) => r == Ok::<CompletedDistributionSummary, Piv1Error>(s) && *final(config) == c
                && final(round).is_idle_layout(old(round).bump, Some(s)) && final(round).valid(),
            Err(e) => r == Err::<CompletedDistributionSummary, Piv1Error>(e) && *final(config) == *old(
                config,
            ) && *final(round) == *old(round),
        },
{
    config.validate_initialized()?;
    round.validate()?;
    if round.lifecycle == DistributionLifecycle::RecoveryRequired {
        return Err(Piv1Error::RecoveryRequired);
    }
    if round.lifecycle != DistributionLifecycle::Settled {
        return Err(Piv1Error::InvalidLifecycle);
    }
    if input.sequence != round.active_sequence {
        return Err(Piv1Error::SequenceMismatch);
    }
    validate_active_sequence_binding(config, round)?;
    if round.outstanding_active_round_liability_lamports != 0 {
        return Err(Piv1Error::OutstandingLiability);
    }
    if input.completed_at < round.prepared_at {
        return Err(Piv1Error::TimestampRegression);
    }
    if input.integrated_pending_sol_lamports != config.accounted_pending_sol_lamports
        || input.integrated_pending_jitosol_units != config.accounted_pending_jitosol_units
        || input.contribution_value_lamports < input.integrated_pending_sol_lamports {
        return Err(Piv1Error::CumulativeReconciliationMismatch);
    }
    if config.protected_principal_hwm_lamports != round.settled_protected_hwm_lamports {
        return Err(Piv1Error::CumulativeReconciliationMismatch);
    }
    let expected_hwm = checked_add(
        config.protected_principal_hwm_lamports,
        input.contribution_value_lamports,
    )?;
    if input.new_protected_hwm_lamports != expected_hwm || input.new_protected_hwm_lamports
        < config.protected_principal_hwm_lamports {
        return Err(Piv1Error::HighWaterMarkDecrease);
    }
    let mut next_config = *config;
    next_config.accounted_pending_sol_lamports = checked_sub(
        next_config.accounted_pending_sol_lamports,
        input.integrated_pending_sol_lamports,
    )?;
    next_config.accounted_pending_jitosol_units = checked_sub(
        next_config.accounted_pending_jitosol_units,
        input.integrated_pending_jitosol_units,
    )?;
    next_config.accounted_historical_jitosol_units = input.new_accounted_historical_jitosol_units;
    next_config.accounted_historical_sol_lamports = input.new_accounted_historical_sol_lamports;
    next_config.protected_principal_hwm_lamports = input.new_protected_hwm_lamports;
    next_config.cumulative_contribution_value_lamports = checked_add(
        next_config.cumulative_contribution_value_lamports,
        input.contribution_value_lamports,
    )?;
    let summary = CompletedDistributionSummary {
        sequence: round.active_sequence,
        completed_at: input.completed_at,
        gross_yield_lamports: round.gross_yield_lamports,
        actual_allocated_outgoing_lamports: round.actual_allocated_outgoing_lamports,
        integrated_contribution_value_lamports: input.contribution_value_lamports,
        final_protected_hwm_lamports: input.new_protected_hwm_lamports,
        fixed_jitosol_withdrawal_target_units: round.fixed_jitosol_withdrawal_target_units,
        successful_leg_count: round.successful_leg_count,
        cumulative_cooldown_rewards_lamports: round.cumulative_cooldown_rewards_lamports,
        actual_kif_liability_lamports: round.actual_kif_liability_lamports,
        actual_kif_carry_next_lamports: round.actual_kif_carry_next_lamports,
    };
    let next_round = ActiveDistribution::idle_after_completion(round.bump, summary);
    next_config.validate_initialized()?;
    next_round.validate()?;
    *config = next_config;
    *round = next_round;
    Ok(summary)
}


} // verus!
