//! One withdrawal leg from initiation to finalization, with the refusals that
//! must leave the round and the leg unchanged.

use piv1::address::Pubkey;
use piv1::constants::{
    CONFIG_MIGRATION_RESERVE_BYTES, INSUFFICIENT_RETRY_COOLDOWN_SECONDS, KIF_PERIOD_SECONDS,
    MINIMUM_DISTRIBUTION_INTERVAL_SECONDS, STATE_LAYOUT_VERSION,
};
use piv1::errors::Piv1Error;
use piv1::state::config::{PivConfig, PivConfigBumps};
use piv1::state::distribution::{ActiveDistribution, DistributionLifecycle, WithdrawalLeg, WithdrawalLegStatus};
use piv1::state::transitions::{
    finalize_withdrawal_leg, initiate_withdrawal_leg, record_no_yield_evaluation,
    record_valid_insufficient_attempt, LegFinalizationInput, LegFinalizationOutcome, LegInitiationInput,
};

fn key(tag: u8) -> Pubkey {
    Pubkey::new_from_array([tag; 32])
}

fn config() -> PivConfig {
    PivConfig {
        version: STATE_LAYOUT_VERSION,
        is_initialized: true,
        paused: false,
        bumps: PivConfigBumps {
            config: 1,
            piv_authority: 2,
            active_distribution: 3,
            principal_jito_vault: 4,
            pending_jito_vault: 5,
            pending_sol_vault: 6,
            principal_sol_queue: 7,
            operational_sol_vault: 8,
            distribution_escrow: 9,
            kif_sol_vault: 10,
            guardian_registry: 11,
        },
        stake_pool_program: key(101),
        stake_pool: key(102),
        validator_list: key(103),
        reserve_stake: key(104),
        jitosol_mint: key(105),
        token_program: key(106),
        stake_program: key(107),
        system_program: key(108),
        manager_fee_account: key(109),
        referrer_token_account: key(110),
        piv_authority: key(111),
        active_distribution: key(112),
        principal_jito_vault: key(113),
        pending_jito_vault: key(114),
        pending_sol_vault: key(115),
        principal_sol_queue: key(116),
        operational_sol_vault: key(117),
        distribution_escrow: key(118),
        kif_sol_vault: key(119),
        htfp_recipient: key(1),
        team_owner_recipient: key(2),
        guardian_registry: key(3),
        basis_points_denominator: 10_000,
        htfp_reserve_bps: 5_900,
        permanent_compound_bps: 1_950,
        team_owner_pool_bps: 1_950,
        kif_bps: 200,
        configured_slippage_bps: 1,
        slippage_hard_cap_bps: 1,
        minimum_distribution_interval_seconds: MINIMUM_DISTRIBUTION_INTERVAL_SECONDS,
        insufficient_retry_cooldown_seconds: INSUFFICIENT_RETRY_COOLDOWN_SECONDS,
        last_successful_preparation_at: Some(1_000),
        last_valid_insufficient_attempt_at: None,
        next_distribution_sequence: 8,
        protected_principal_hwm_lamports: 1_000,
        accounted_historical_jitosol_units: 500,
        accounted_historical_sol_lamports: 100,
        accounted_pending_jitosol_units: 0,
        accounted_pending_sol_lamports: 10,
        next_cycle_yield_lamports: 0,
        kif_claim_liability_lamports: 0,
        collective_kif_carry_lamports: 9,
        cumulative_contribution_value_lamports: 0,
        cumulative_gross_yield_lamports: 0,
        cumulative_htfp_paid_lamports: 0,
        cumulative_team_owner_paid_lamports: 0,
        cumulative_kif_credited_lamports: 0,
        cumulative_kif_claimed_lamports: 0,
        cumulative_permanent_compound_lamports: 0,
        cumulative_retained_dust_lamports: 0,
        cumulative_zero_active_kif_compound_lamports: 0,
        cumulative_cooldown_yield_recorded_lamports: 0,
        kif_anchor_timestamp: 0,
        kif_period_seconds: KIF_PERIOD_SECONDS,
        guardian_registry_revision: 4,
        migration_reserve: [0; CONFIG_MIGRATION_RESERVE_BYTES],
    }
}

fn active_round() -> ActiveDistribution {
    let mut round = ActiveDistribution::new_idle(9);
    round.lifecycle = DistributionLifecycle::WithdrawalActive;
    round.active_sequence = 7;
    round.prepared_at = 1_000;
    round.prepared_slot = 2_000;
    round.prepared_epoch = 3;
    round.old_protected_principal_lamports = 1_000;
    round.historical_jitosol_units = 500;
    round.historical_sol_lamports = 100;
    round.historical_value_lamports = 1_100;
    round.snapshot_pool_total_lamports = 2_000;
    round.snapshot_pool_token_supply = 1_000;
    round.snapshot_withdrawal_fee_numerator = 1;
    round.snapshot_withdrawal_fee_denominator = 1_000;
    round.gross_yield_lamports = 100;
    round.htfp_gross_obligation_lamports = 59;
    round.permanent_compound_lamports = 19;
    round.team_owner_gross_obligation_lamports = 19;
    round.kif_gross_obligation_lamports = 2;
    round.split_dust_lamports = 1;
    round.outgoing_gross_obligation_lamports = 80;
    round.pending_sol_snapshot_lamports = 10;
    round.pending_sol_used_lamports = 10;
    round.fixed_jitosol_withdrawal_target_units = 100;
    round.snapshot_leg_input_floor_units = 25;
    round.maximum_useful_legs = 4;
    round.stored_round_minimum_native_lamports = 80;
    round.stored_residual_hwm_floor_lamports = 1_020;
    round.stored_slippage_bps = 1;
    round.recorded_escrow_available_lamports = 10;
    round.outstanding_active_round_liability_lamports = 80;
    round.htfp_recipient = key(1);
    round.team_owner_recipient = key(2);
    round.guardian_registry = key(3);
    round.guardian_registry_revision = 4;
    round.guardian_keys = core::array::from_fn(|index| key((index + 10) as u8));
    round.kif_eligibility_bitmap = 0b00_1011;
    round.kif_active_guardian_count = 3;
    round.kif_period_id = 8;
    round.kif_carry_input_lamports = 9;
    round.proposed_hwm_delta_lamports = 20;
    round.proposed_hwm_after_settlement_lamports = 1_020;
    round
}

fn initiation(jitosol_input_units: u64) -> LegInitiationInput {
    LegInitiationInput {
        sequence: 7,
        leg_index: 0,
        validator_list_index: 3,
        validator_seed_suffix: 4,
        validator_vote: key(20),
        validator_stake_source: key(21),
        initiation_epoch: 5,
        pool_total_lamports: 2_000,
        pool_token_supply: 1_000,
        withdrawal_fee_numerator: 1,
        withdrawal_fee_denominator: 1_000,
        current_technical_floor_units: 25,
        maximum_safe_capacity_units: 100,
        jitosol_input_units,
        withdrawal_fee_units: 2,
        burned_units: jitosol_input_units - 2,
        expected_native_lamports: 100,
        observed_delegated_native_lamports: 100,
        minimum_native_lamports: 80,
        stake_rent_advanced_lamports: 20,
        metadata_rent_advanced_lamports: 10,
    }
}

fn finalization(residual: u64, escrow: u64) -> LegFinalizationInput {
    LegFinalizationInput {
        sequence: 7,
        leg_index: 0,
        finalized_epoch: 6,
        finalized_native_lamports: 120,
        recovered_stake_rent_lamports: 20,
        recovered_metadata_rent_lamports: 10,
        cooldown_reward_lamports: 0,
        cooldown_loss_lamports: 0,
        validated_residual_historical_value_lamports: residual,
        escrow_available_after_lamports: escrow,
    }
}

#[test]
fn one_maximum_safe_leg_is_initiated_and_finalized_into_escrow() {
    let config = config();
    let mut round = active_round();
    assert_eq!(round.validate(), Ok(()));
    let mut leg = WithdrawalLeg::vacant(1, 2);

    assert_eq!(initiate_withdrawal_leg(&config, &mut round, &mut leg, initiation(100)), Ok(()));
    assert_eq!(round.cumulative_jitosol_assigned_units, 100);
    assert_eq!(round.cumulative_withdrawal_fee_units, 2);
    assert_eq!(round.cumulative_burned_units, 98);
    assert_eq!(round.cumulative_expected_native_lamports, 100);
    assert_eq!(round.cumulative_delegated_native_lamports, 100);
    assert_eq!(round.next_leg_index, 1);
    assert_eq!(round.successful_leg_count, 1);
    assert_eq!(leg.status, WithdrawalLegStatus::Initiated);
    assert_eq!(leg.technical_floor_units, 25);
    assert_eq!(leg.jitosol_input_units, 100);

    assert_eq!(
        finalize_withdrawal_leg(&config, &mut round, &mut leg, finalization(1_020, 110)),
        Ok(LegFinalizationOutcome::EscrowFunded)
    );
    assert_eq!(round.lifecycle, DistributionLifecycle::EscrowFunded);
    assert_eq!(round.finalized_leg_count, 1);
    assert_eq!(round.cumulative_finalized_native_lamports, 120);
    assert_eq!(round.cumulative_recovered_stake_rent_lamports, 20);
    assert_eq!(round.recorded_escrow_available_lamports, 110);
    assert_eq!(leg.status, WithdrawalLegStatus::Finalized);
    assert_eq!(leg.finalized_epoch, Some(6));
    assert_eq!(
        finalize_withdrawal_leg(&config, &mut round, &mut leg, finalization(1_020, 110)),
        Err(Piv1Error::InvalidLifecycle)
    );
}

#[test]
fn refused_initiations_change_neither_the_round_nor_the_leg() {
    let config = config();
    let round = active_round();
    let leg = WithdrawalLeg::vacant(1, 2);
    let cases = [
        (initiation(60), Piv1Error::NonMaximumSafeLegFill),
        (LegInitiationInput { sequence: 6, ..initiation(100) }, Piv1Error::SequenceMismatch),
        (LegInitiationInput { leg_index: 1, ..initiation(100) }, Piv1Error::LegIndexMismatch),
        (LegInitiationInput { maximum_safe_capacity_units: 20, ..initiation(20) }, Piv1Error::TechnicalFloorNotMet),
        (LegInitiationInput { withdrawal_fee_units: 3, ..initiation(100) }, Piv1Error::CumulativeReconciliationMismatch),
        (LegInitiationInput { validator_vote: Pubkey::default(), ..initiation(100) }, Piv1Error::InvalidInitialization),
    ];
    for (input, error) in cases {
        let mut r = round;
        let mut l = leg;
        assert_eq!(initiate_withdrawal_leg(&config, &mut r, &mut l, input), Err(error));
        assert_eq!(r, round);
        assert_eq!(l, leg);
    }
    let mut paused = config;
    paused.paused = true;
    let mut r = round;
    let mut l = leg;
    assert_eq!(initiate_withdrawal_leg(&paused, &mut r, &mut l, initiation(100)), Err(Piv1Error::PausedOperation));
    let mut unbound = config;
    unbound.next_distribution_sequence = 9;
    assert_eq!(initiate_withdrawal_leg(&unbound, &mut r, &mut l, initiation(100)), Err(Piv1Error::SequenceMismatch));
}

#[test]
fn a_replayed_leg_or_index_is_refused() {
    let config = config();
    let mut round = active_round();
    let mut leg = WithdrawalLeg::vacant(1, 2);
    assert_eq!(initiate_withdrawal_leg(&config, &mut round, &mut leg, initiation(100)), Ok(()));
    let (before_round, before_leg) = (round, leg);
    assert_eq!(initiate_withdrawal_leg(&config, &mut round, &mut leg, initiation(100)), Err(Piv1Error::Replay));
    let mut second = WithdrawalLeg::vacant(3, 4);
    let input = LegInitiationInput { leg_index: 1, ..initiation(100) };
    assert_eq!(initiate_withdrawal_leg(&config, &mut round, &mut second, input), Err(Piv1Error::TargetExceeded));
    assert_eq!((round, leg), (before_round, before_leg));
}

#[test]
fn finalization_must_reconcile_native_value_and_escrow() {
    let config = config();
    let mut round = active_round();
    let mut leg = WithdrawalLeg::vacant(1, 2);
    assert_eq!(initiate_withdrawal_leg(&config, &mut round, &mut leg, initiation(100)), Ok(()));
    let (before_round, before_leg) = (round, leg);
    let cases = [
        (LegFinalizationInput { finalized_native_lamports: 119, ..finalization(1_020, 110) }, Piv1Error::CumulativeReconciliationMismatch),
        (finalization(1_020, 111), Piv1Error::EscrowReconciliationMismatch),
        (LegFinalizationInput { finalized_epoch: 4, ..finalization(1_020, 110) }, Piv1Error::TimestampRegression),
        (LegFinalizationInput { recovered_stake_rent_lamports: 19, ..finalization(1_020, 110) }, Piv1Error::CumulativeReconciliationMismatch),
        (LegFinalizationInput { leg_index: 1, ..finalization(1_020, 110) }, Piv1Error::LegIndexMismatch),
    ];
    for (input, error) in cases {
        assert_eq!(finalize_withdrawal_leg(&config, &mut round, &mut leg, input), Err(error));
        assert_eq!((round, leg), (before_round, before_leg));
    }
    assert_eq!(
        finalize_withdrawal_leg(&config, &mut round, &mut leg, finalization(1_019, 110)),
        Ok(LegFinalizationOutcome::RecoveryRequired)
    );
    assert_eq!(round.lifecycle, DistributionLifecycle::RecoveryRequired);
}

#[test]
fn idle_evaluations_record_only_the_insufficient_attempt_time() {
    let idle = ActiveDistribution::new_idle(9);
    let mut config = config();
    let now = 1_000 + MINIMUM_DISTRIBUTION_INTERVAL_SECONDS;
    assert_eq!(record_no_yield_evaluation(&config, &idle, now, 1_000), Ok(()));
    assert_eq!(record_no_yield_evaluation(&config, &idle, now, 1_001), Err(Piv1Error::CumulativeReconciliationMismatch));
    assert_eq!(record_no_yield_evaluation(&config, &idle, now - 1, 1_000), Err(Piv1Error::PreparationIntervalNotElapsed));
    assert_eq!(record_no_yield_evaluation(&config, &active_round(), now, 1_000), Err(Piv1Error::InvalidLifecycle));

    assert_eq!(record_valid_insufficient_attempt(&mut config, &idle, now), Ok(()));
    assert_eq!(config.last_valid_insufficient_attempt_at, Some(now));
    let before = config;
    assert_eq!(
        record_valid_insufficient_attempt(&mut config, &idle, now + INSUFFICIENT_RETRY_COOLDOWN_SECONDS - 1),
        Err(Piv1Error::InsufficientAttemptCooldownActive)
    );
    assert_eq!(config, before);
    assert_eq!(record_valid_insufficient_attempt(&mut config, &idle, now + INSUFFICIENT_RETRY_COOLDOWN_SECONDS), Ok(()));
    assert_eq!(config.last_valid_insufficient_attempt_at, Some(now + INSUFFICIENT_RETRY_COOLDOWN_SECONDS));
}
