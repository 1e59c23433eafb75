//! A liquid distribution round from opening through settlement, pending
//! integration and a KIF claim, with the failure paths that must leave every
//! state object unchanged.

use piv1::address::Pubkey;
use piv1::constants::{
    CONFIG_MIGRATION_RESERVE_BYTES, INSUFFICIENT_RETRY_COOLDOWN_SECONDS, KIF_PERIOD_SECONDS,
    MINIMUM_DISTRIBUTION_INTERVAL_SECONDS, STATE_LAYOUT_VERSION,
};
use piv1::errors::Piv1Error;
use piv1::state::config::{PivConfig, PivConfigBumps};
use piv1::state::distribution::{ActiveDistribution, DistributionLifecycle};
use piv1::state::guardian::{GuardianRegistry, GuardianReward};
use piv1::state::kif_claim::{prepare_kif_claim, KifClaimCustodyObservation, KifClaimRequest};
use piv1::state::reconciliation::SolVaultBalance;
use piv1::state::transitions::{
    integrate_pending_and_complete, open_distribution, settle_distribution, DistributionFunding,
    OpenDistributionInput, PendingIntegrationInput, SettlementInput, SettlementOutcome,
};

fn key(tag: u8) -> Pubkey {
    Pubkey::new_from_array([tag; 32])
}

fn fresh_config() -> PivConfig {
    PivConfig {
        version: STATE_LAYOUT_VERSION,
        is_initialized: true,
        paused: false,
        bumps: PivConfigBumps {
            config: 1,
            piv_authority: 2,
            active_distribution: 3,
            principal_jito_vault: 4,
            pending_jito_vault: 5,
            pending_sol_vault: 6,
            principal_sol_queue: 7,
            operational_sol_vault: 8,
            distribution_escrow: 9,
            kif_sol_vault: 10,
            guardian_registry: 11,
        },
        stake_pool_program: key(1),
        stake_pool: key(2),
        validator_list: key(3),
        reserve_stake: key(4),
        jitosol_mint: key(5),
        token_program: key(6),
        stake_program: key(7),
        system_program: key(8),
        manager_fee_account: key(9),
        referrer_token_account: key(10),
        piv_authority: key(11),
        active_distribution: key(12),
        principal_jito_vault: key(13),
        pending_jito_vault: key(14),
        pending_sol_vault: key(15),
        principal_sol_queue: key(16),
        operational_sol_vault: key(17),
        distribution_escrow: key(18),
        kif_sol_vault: key(19),
        htfp_recipient: key(20),
        team_owner_recipient: key(21),
        guardian_registry: key(22),
        basis_points_denominator: 10_000,
        htfp_reserve_bps: 5_900,
        permanent_compound_bps: 1_950,
        team_owner_pool_bps: 1_950,
        kif_bps: 200,
        configured_slippage_bps: 1,
        slippage_hard_cap_bps: 1,
        minimum_distribution_interval_seconds: MINIMUM_DISTRIBUTION_INTERVAL_SECONDS,
        insufficient_retry_cooldown_seconds: INSUFFICIENT_RETRY_COOLDOWN_SECONDS,
        last_successful_preparation_at: None,
        last_valid_insufficient_attempt_at: None,
        next_distribution_sequence: 1,
        protected_principal_hwm_lamports: 1_000_000,
        accounted_historical_jitosol_units: 0,
        accounted_historical_sol_lamports: 1_010_000,
        accounted_pending_jitosol_units: 0,
        accounted_pending_sol_lamports: 10_000,
        next_cycle_yield_lamports: 0,
        kif_claim_liability_lamports: 0,
        collective_kif_carry_lamports: 0,
        cumulative_contribution_value_lamports: 0,
        cumulative_gross_yield_lamports: 0,
        cumulative_htfp_paid_lamports: 0,
        cumulative_team_owner_paid_lamports: 0,
        cumulative_kif_credited_lamports: 0,
        cumulative_kif_claimed_lamports: 0,
        cumulative_permanent_compound_lamports: 0,
        cumulative_retained_dust_lamports: 0,
        cumulative_zero_active_kif_compound_lamports: 0,
        cumulative_cooldown_yield_recorded_lamports: 0,
        kif_anchor_timestamp: 0,
        kif_period_seconds: KIF_PERIOD_SECONDS,
        guardian_registry_revision: 4,
        migration_reserve: [0; CONFIG_MIGRATION_RESERVE_BYTES],
    }
}

fn guardian_keys() -> [Pubkey; 6] {
    core::array::from_fn(|index| key((index + 40) as u8))
}

fn registry() -> GuardianRegistry {
    GuardianRegistry::new(11, 4, guardian_keys()).expect("valid registry")
}

/// Rewards of the six slots, with slots 0, 1 and 3 active in period 0.
fn active_rewards(registry: &GuardianRegistry) -> [GuardianReward; 6] {
    let mut rewards: [GuardianReward; 6] = core::array::from_fn(|index| {
        GuardianReward::new(index as u8, registry, index as u8).expect("valid reward")
    });
    for index in [0_u8, 1, 3] {
        rewards[usize::from(index)]
            .record_activity(registry, index, 0)
            .expect("record activity");
    }
    rewards
}

fn liquid_open_input() -> OpenDistributionInput {
    OpenDistributionInput {
        sequence: 1,
        prepared_at: 1_000,
        prepared_slot: 2_000,
        prepared_epoch: 3,
        historical_jitosol_units: 0,
        historical_sol_lamports: 1_010_000,
        historical_value_lamports: 1_010_000,
        snapshot_pool_total_lamports: 2_000,
        snapshot_pool_token_supply: 1_000,
        snapshot_withdrawal_fee_numerator: 1,
        snapshot_withdrawal_fee_denominator: 1_000,
        gross_yield_lamports: 10_000,
        pending_sol_snapshot_lamports: 10_000,
        pending_sol_used_lamports: 8_050,
        snapshot_conversion_dust_lamports: 0,
        stored_residual_hwm_floor_lamports: 1_001_950,
        funding: DistributionFunding::Liquid { escrow_available_lamports: 8_050 },
    }
}

fn settlement_input() -> SettlementInput {
    SettlementInput {
        sequence: 1,
        escrow_available_lamports: 8_050,
        actual_htfp_lamports: 5_900,
        actual_team_owner_lamports: 1_950,
        actual_kif_allocation_lamports: 200,
        validated_post_settlement_protected_value_lamports: 1_001_950,
    }
}

#[test]
fn liquid_round_opens_settles_integrates_and_pays_kif() {
    let registry = registry();
    let mut rewards = active_rewards(&registry);
    let mut config = fresh_config();
    assert_eq!(config.validate_initialized(), Ok(()));
    let mut round = ActiveDistribution::new_idle(3);

    assert_eq!(
        open_distribution(&mut config, &mut round, &registry, &rewards, liquid_open_input()),
        Ok(())
    );
    assert_eq!(round.lifecycle, DistributionLifecycle::EscrowFunded);
    assert_eq!(round.active_sequence, 1);
    assert_eq!(config.next_distribution_sequence, 2);
    assert_eq!(config.protected_principal_hwm_lamports, 1_000_000);
    assert_eq!(round.old_protected_principal_lamports, 1_000_000);
    assert_eq!(round.htfp_gross_obligation_lamports, 5_900);
    assert_eq!(round.team_owner_gross_obligation_lamports, 1_950);
    assert_eq!(round.kif_gross_obligation_lamports, 200);
    assert_eq!(round.permanent_compound_lamports, 1_950);
    assert_eq!(round.outgoing_gross_obligation_lamports, 8_050);
    assert_eq!(round.kif_eligibility_bitmap, 0b00_1011);
    assert_eq!(round.kif_active_guardian_count, 3);
    assert_eq!(round.proposed_hwm_after_settlement_lamports, 1_001_950);
    assert_eq!(config.last_successful_preparation_at, Some(1_000));

    assert_eq!(
        settle_distribution(&mut config, &mut round, &mut rewards, settlement_input()),
        Ok(SettlementOutcome::Settled)
    );
    assert_eq!(round.lifecycle, DistributionLifecycle::Settled);
    assert!(round.settlement_recorded);
    assert_eq!(round.actual_kif_liability_lamports, 198);
    assert_eq!(round.actual_kif_carry_next_lamports, 2);
    assert_eq!(round.actual_hwm_delta_lamports, 1_950);
    assert_eq!(round.settled_protected_hwm_lamports, 1_001_950);
    assert_eq!(config.protected_principal_hwm_lamports, 1_001_950);
    assert_eq!(config.kif_claim_liability_lamports, 198);
    assert_eq!(config.cumulative_kif_credited_lamports, 198);
    assert_eq!(config.collective_kif_carry_lamports, 2);
    assert_eq!(config.cumulative_gross_yield_lamports, 10_000);
    assert_eq!(config.cumulative_htfp_paid_lamports, 5_900);
    assert_eq!(config.cumulative_team_owner_paid_lamports, 1_950);
    assert_eq!(config.cumulative_permanent_compound_lamports, 1_950);
    let credited: Vec<u64> = rewards.iter().map(|reward| reward.claimable_lamports).collect();
    assert_eq!(credited, vec![66, 66, 0, 66, 0, 0]);

    let summary = integrate_pending_and_complete(
        &mut config,
        &mut round,
        PendingIntegrationInput {
            sequence: 1,
            completed_at: 2_000,
            integrated_pending_sol_lamports: 10_000,
            integrated_pending_jitosol_units: 0,
            contribution_value_lamports: 10_000,
            new_accounted_historical_jitosol_units: 0,
            new_accounted_historical_sol_lamports: 1_011_950,
            new_protected_hwm_lamports: 1_011_950,
        },
    )
    .expect("integration");
    assert_eq!(summary.sequence, 1);
    assert_eq!(summary.final_protected_hwm_lamports, 1_011_950);
    assert_eq!(summary.actual_kif_liability_lamports, 198);
    assert_eq!(round.lifecycle, DistributionLifecycle::Idle);
    assert_eq!(round.last_completed, Some(summary));
    assert_eq!(round.validate(), Ok(()));
    assert_eq!(config.protected_principal_hwm_lamports, 1_011_950);
    assert_eq!(config.accounted_pending_sol_lamports, 0);
    assert_eq!(config.cumulative_contribution_value_lamports, 10_000);
    assert_eq!(config.next_distribution_sequence, 2);

    let before = KifClaimCustodyObservation {
        kif_sol: SolVaultBalance { lamports: 1_000 + 198 + 2 + 5, non_economic_floor_lamports: 1_000 },
        guardian_lamports: 50,
    };
    let plan = prepare_kif_claim(
        &config,
        &rewards[1],
        KifClaimRequest { amount_lamports: 66, expected_cumulative_claimed: 0 },
        before,
    )
    .expect("claim plan");
    let transfer = plan.transfer();
    assert_eq!(transfer.source, config.kif_sol_vault);
    assert_eq!(transfer.destination, rewards[1].guardian);
    assert_eq!(transfer.amount_lamports, 66);
    let after = KifClaimCustodyObservation {
        kif_sol: SolVaultBalance { lamports: 1_000 + 198 + 2 + 5 - 66, non_economic_floor_lamports: 1_000 },
        guardian_lamports: 116,
    };
    let mut reward = rewards[1];
    assert_eq!(plan.commit(&mut config, &mut reward, after), Ok(transfer));
    assert_eq!(reward.claimable_lamports, 0);
    assert_eq!(reward.cumulative_claimed, 66);
    assert_eq!(reward.cumulative_earned, 66);
    assert_eq!(config.kif_claim_liability_lamports, 132);
    assert_eq!(config.cumulative_kif_claimed_lamports, 66);
    assert_eq!(config.collective_kif_carry_lamports, 2);
}

#[test]
fn opening_twice_or_with_a_stale_sequence_changes_nothing() {
    let registry = registry();
    let rewards = active_rewards(&registry);
    let mut config = fresh_config();
    let mut round = ActiveDistribution::new_idle(3);
    let mut wrong_sequence = liquid_open_input();
    wrong_sequence.sequence = 2;
    let (config_before, round_before) = (config, round);
    assert_eq!(
        open_distribution(&mut config, &mut round, &registry, &rewards, wrong_sequence),
        Err(Piv1Error::SequenceMismatch)
    );
    assert_eq!(config, config_before);
    assert_eq!(round, round_before);

    assert_eq!(
        open_distribution(&mut config, &mut round, &registry, &rewards, liquid_open_input()),
        Ok(())
    );
    let (config_before, round_before) = (config, round);
    let mut again = liquid_open_input();
    again.sequence = 2;
    again.prepared_at = 1_000 + MINIMUM_DISTRIBUTION_INTERVAL_SECONDS;
    assert_eq!(
        open_distribution(&mut config, &mut round, &registry, &rewards, again),
        Err(Piv1Error::InvalidLifecycle)
    );
    assert_eq!(config, config_before);
    assert_eq!(round, round_before);
}

#[test]
fn zero_yield_cannot_open_a_round() {
    let registry = registry();
    let rewards = active_rewards(&registry);
    let mut config = fresh_config();
    let mut round = ActiveDistribution::new_idle(3);
    let mut input = liquid_open_input();
    input.historical_value_lamports = 1_000_000;
    input.gross_yield_lamports = 0;
    assert_eq!(
        open_distribution(&mut config, &mut round, &registry, &rewards, input),
        Err(Piv1Error::ZeroTarget)
    );
    assert_eq!(config, fresh_config());
}

#[test]
fn settlement_below_the_protected_value_requires_recovery_without_credits() {
    let registry = registry();
    let mut rewards = active_rewards(&registry);
    let mut config = fresh_config();
    let mut round = ActiveDistribution::new_idle(3);
    open_distribution(&mut config, &mut round, &registry, &rewards, liquid_open_input())
        .expect("open");
    let (config_before, rewards_before) = (config, rewards);
    let mut input = settlement_input();
    input.validated_post_settlement_protected_value_lamports = 1_001_949;
    assert_eq!(
        settle_distribution(&mut config, &mut round, &mut rewards, input),
        Ok(SettlementOutcome::RecoveryRequired)
    );
    assert_eq!(round.lifecycle, DistributionLifecycle::RecoveryRequired);
    assert_eq!(config, config_before);
    assert_eq!(rewards, rewards_before);
    let round_before = round;
    assert_eq!(
        settle_distribution(&mut config, &mut round, &mut rewards, settlement_input()),
        Err(Piv1Error::RecoveryRequired)
    );
    assert_eq!(round, round_before);
}

#[test]
fn settlement_rejects_overpayment_and_replay() {
    let registry = registry();
    let mut rewards = active_rewards(&registry);
    let mut config = fresh_config();
    let mut round = ActiveDistribution::new_idle(3);
    open_distribution(&mut config, &mut round, &registry, &rewards, liquid_open_input())
        .expect("open");
    let mut over = settlement_input();
    over.actual_htfp_lamports = 5_901;
    let (config_before, round_before, rewards_before) = (config, round, rewards);
    assert_eq!(
        settle_distribution(&mut config, &mut round, &mut rewards, over),
        Err(Piv1Error::ObligationExceeded)
    );
    assert_eq!((config, round, rewards), (config_before, round_before, rewards_before));

    let mut wrong_escrow = settlement_input();
    wrong_escrow.escrow_available_lamports = 8_049;
    assert_eq!(
        settle_distribution(&mut config, &mut round, &mut rewards, wrong_escrow),
        Err(Piv1Error::EscrowReconciliationMismatch)
    );

    settle_distribution(&mut config, &mut round, &mut rewards, settlement_input()).expect("settle");
    let (config_before, round_before, rewards_before) = (config, round, rewards);
    assert_eq!(
        settle_distribution(&mut config, &mut round, &mut rewards, settlement_input()),
        Err(Piv1Error::SettlementReplay)
    );
    assert_eq!((config, round, rewards), (config_before, round_before, rewards_before));
}

#[test]
fn integration_rejects_a_wrong_high_water_mark() {
    let registry = registry();
    let mut rewards = active_rewards(&registry);
    let mut config = fresh_config();
    let mut round = ActiveDistribution::new_idle(3);
    open_distribution(&mut config, &mut round, &registry, &rewards, liquid_open_input())
        .expect("open");
    settle_distribution(&mut config, &mut round, &mut rewards, settlement_input()).expect("settle");
    let (config_before, round_before) = (config, round);
    let input = PendingIntegrationInput {
        sequence: 1,
        completed_at: 2_000,
        integrated_pending_sol_lamports: 10_000,
        integrated_pending_jitosol_units: 0,
        contribution_value_lamports: 10_000,
        new_accounted_historical_jitosol_units: 0,
        new_accounted_historical_sol_lamports: 1_011_950,
        new_protected_hwm_lamports: 1_011_949,
    };
    assert_eq!(
        integrate_pending_and_complete(&mut config, &mut round, input),
        Err(Piv1Error::HighWaterMarkDecrease)
    );
    assert_eq!((config, round), (config_before, round_before));
    let mut early = input;
    early.new_protected_hwm_lamports = 1_011_950;
    early.completed_at = 999;
    assert_eq!(
        integrate_pending_and_complete(&mut config, &mut round, early),
        Err(Piv1Error::TimestampRegression)
    );
}
