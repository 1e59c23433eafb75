//! Distribution header arithmetic: gross-yield basis and net beneficiary allocation.

use piv1::address::Pubkey;
use piv1::constants::STATE_LAYOUT_VERSION;
use piv1::errors::Piv1Error;
use piv1::state::distribution::{
    derive_gross_yield_lamports, derive_net_beneficiary_allocation, ActiveDistribution,
    DistributionLifecycle, WithdrawalLeg, WithdrawalLegStatus,
};

#[test]
fn gross_yield_basis_applies_carry_before_the_high_water_mark() {
    assert_eq!(derive_gross_yield_lamports(900, 50, 1_000), Ok(0));
    assert_eq!(derive_gross_yield_lamports(900, 100, 1_000), Ok(0));
    assert_eq!(derive_gross_yield_lamports(900, 125, 1_000), Ok(25));
    assert_eq!(derive_gross_yield_lamports(1_100, 25, 1_000), Ok(125));
    assert_eq!(derive_gross_yield_lamports(1_100, 0, 1_000), Ok(100));
    assert_eq!(
        derive_gross_yield_lamports(u64::MAX, 1, 0),
        Err(Piv1Error::ArithmeticOverflow)
    );
}

#[test]
fn net_beneficiary_allocation_uses_exact_relative_weights_caps_and_dust() {
    let full = derive_net_beneficiary_allocation(8_050, 5_900, 1_950, 200)
        .expect("full allocation");
    assert_eq!(full.htfp_lamports, 5_900);
    assert_eq!(full.team_owner_lamports, 1_950);
    assert_eq!(full.kif_lamports, 200);
    assert_eq!(full.dust_lamports, 0);
    assert_eq!(full.allocated_lamports, 8_050);

    let partial = derive_net_beneficiary_allocation(1_800, 5_900, 1_950, 200)
        .expect("partial allocation");
    assert_eq!(partial.htfp_lamports, 1_319);
    assert_eq!(partial.team_owner_lamports, 436);
    assert_eq!(partial.kif_lamports, 44);
    assert_eq!(partial.dust_lamports, 1);
    assert_eq!(partial.allocated_lamports, 1_799);

    let zero = derive_net_beneficiary_allocation(0, 5_900, 1_950, 200)
        .expect("zero allocation");
    assert_eq!(zero.allocated_lamports, 0);
    assert_eq!(zero.dust_lamports, 0);

    let one = derive_net_beneficiary_allocation(1, 5_900, 1_950, 200)
        .expect("one-lamport allocation");
    assert_eq!(one.allocated_lamports, 0);
    assert_eq!(one.dust_lamports, 1);

    let capped = derive_net_beneficiary_allocation(10, 1, 1, 1)
        .expect("small obligation caps");
    assert_eq!(capped.htfp_lamports, 1);
    assert_eq!(capped.team_owner_lamports, 1);
    assert_eq!(capped.kif_lamports, 0);
    assert_eq!(capped.dust_lamports, 8);

    let maximum = derive_net_beneficiary_allocation(
        u64::MAX,
        u64::MAX,
        u64::MAX,
        u64::MAX,
    )
    .expect("u64 boundary allocation");
    assert_eq!(
        maximum
            .allocated_lamports
            .checked_add(maximum.dust_lamports),
        Some(u64::MAX)
    );
}

fn key(tag: u8) -> Pubkey {
    Pubkey::new_from_array([tag; 32])
}

fn valid_active_round() -> ActiveDistribution {
    let mut round = ActiveDistribution::new_idle(9);
    round.lifecycle = DistributionLifecycle::WithdrawalActive;
    round.active_sequence = 7;
    round.prepared_at = 1_000;
    round.prepared_slot = 2_000;
    round.prepared_epoch = 3;
    round.old_protected_principal_lamports = 1_000;
    round.historical_jitosol_units = 500;
    round.historical_sol_lamports = 100;
    round.historical_value_lamports = 1_100;
    round.snapshot_pool_total_lamports = 2_000;
    round.snapshot_pool_token_supply = 1_000;
    round.snapshot_withdrawal_fee_numerator = 1;
    round.snapshot_withdrawal_fee_denominator = 1_000;
    round.gross_yield_lamports = 100;
    round.prior_next_cycle_yield_lamports = 0;
    round.htfp_gross_obligation_lamports = 59;
    round.permanent_compound_lamports = 19;
    round.team_owner_gross_obligation_lamports = 19;
    round.kif_gross_obligation_lamports = 2;
    round.split_dust_lamports = 1;
    round.outgoing_gross_obligation_lamports = 80;
    round.pending_sol_snapshot_lamports = 10;
    round.pending_sol_used_lamports = 10;
    round.fixed_jitosol_withdrawal_target_units = 100;
    round.snapshot_leg_input_floor_units = 25;
    round.maximum_useful_legs = 4;
    round.stored_round_minimum_native_lamports = 80;
    round.stored_residual_hwm_floor_lamports = 1_020;
    round.stored_slippage_bps = 1;
    round.recorded_escrow_available_lamports = 10;
    round.outstanding_active_round_liability_lamports = 80;
    round.htfp_recipient = key(1);
    round.team_owner_recipient = key(2);
    round.guardian_registry = key(3);
    round.guardian_registry_revision = 4;
    round.guardian_keys = core::array::from_fn(|index| key((index + 10) as u8));
    round.kif_eligibility_bitmap = 0b00_1011;
    round.kif_active_guardian_count = 3;
    round.kif_period_id = 8;
    round.kif_carry_input_lamports = 9;
    round.proposed_hwm_delta_lamports = 20;
    round.proposed_hwm_after_settlement_lamports = 1_020;
    round
}

fn valid_initiated_leg() -> WithdrawalLeg {
    WithdrawalLeg {
        version: STATE_LAYOUT_VERSION,
        metadata_bump: 1,
        stake_bump: 2,
        is_initialized: true,
        status: WithdrawalLegStatus::Initiated,
        recovery_flags: 0,
        sequence: 7,
        leg_index: 0,
        validator_list_index: 3,
        validator_seed_suffix: 4,
        validator_vote: key(20),
        validator_stake_source: key(21),
        initiation_epoch: 5,
        pool_total_lamports: 2_000,
        pool_token_supply: 1_000,
        withdrawal_fee_numerator: 1,
        withdrawal_fee_denominator: 1_000,
        technical_floor_units: 25,
        jitosol_input_units: 100,
        withdrawal_fee_units: 2,
        burned_units: 98,
        expected_native_lamports: 1_000,
        observed_delegated_native_lamports: 990,
        minimum_native_lamports: 980,
        stake_rent_advanced_lamports: 20,
        metadata_rent_advanced_lamports: 10,
        finalized_epoch: None,
        finalized_native_lamports: 0,
        recovered_stake_rent_lamports: 0,
        recovered_metadata_rent_lamports: 0,
        cooldown_reward_lamports: 0,
        cooldown_loss_lamports: 0,
    }
}

fn valid_completed_withdrawal_round() -> ActiveDistribution {
    let mut round = valid_active_round();
    round.lifecycle = DistributionLifecycle::EscrowFunded;
    round.cumulative_jitosol_assigned_units = 100;
    round.cumulative_withdrawal_fee_units = 2;
    round.cumulative_burned_units = 98;
    round.cumulative_expected_native_lamports = 100;
    round.cumulative_delegated_native_lamports = 100;
    round.cumulative_finalized_delegated_native_lamports = 100;
    round.cumulative_finalized_native_lamports = 100;
    round.next_leg_index = 2;
    round.successful_leg_count = 2;
    round.finalized_leg_count = 2;
    round.recorded_escrow_available_lamports = 110;
    round
}

#[test]
fn derived_predicates_allow_only_consistent_coexisting_phases() {
    let prepared = valid_active_round();
    assert_eq!(prepared.validate(), Ok(()));
    assert!(prepared.is_prepared_withdrawal());
    assert!(!prepared.is_assigning_withdrawal_legs());
    assert!(!prepared.is_withdrawal_target_assigned());
    assert!(!prepared.is_awaiting_leg_inactivity());
    assert!(!prepared.is_partially_finalized());

    let mut partially_finalized = valid_active_round();
    partially_finalized.cumulative_jitosol_assigned_units = 50;
    partially_finalized.cumulative_withdrawal_fee_units = 2;
    partially_finalized.cumulative_burned_units = 48;
    partially_finalized.cumulative_expected_native_lamports = 60;
    partially_finalized.cumulative_delegated_native_lamports = 60;
    partially_finalized.cumulative_finalized_delegated_native_lamports = 30;
    partially_finalized.cumulative_finalized_native_lamports = 30;
    partially_finalized.next_leg_index = 2;
    partially_finalized.successful_leg_count = 2;
    partially_finalized.finalized_leg_count = 1;
    partially_finalized.recorded_escrow_available_lamports = 40;
    assert_eq!(partially_finalized.validate(), Ok(()));
    assert!(partially_finalized.is_assigning_withdrawal_legs());
    assert!(partially_finalized.is_awaiting_leg_inactivity());
    assert!(partially_finalized.is_partially_finalized());
    assert!(!partially_finalized.is_withdrawal_target_assigned());

    let mut assigned_before_finalization = valid_active_round();
    assigned_before_finalization.cumulative_jitosol_assigned_units = 100;
    assigned_before_finalization.cumulative_withdrawal_fee_units = 2;
    assigned_before_finalization.cumulative_burned_units = 98;
    assigned_before_finalization.cumulative_expected_native_lamports = 100;
    assigned_before_finalization.cumulative_delegated_native_lamports = 100;
    assigned_before_finalization.next_leg_index = 2;
    assigned_before_finalization.successful_leg_count = 2;
    assert_eq!(assigned_before_finalization.validate(), Ok(()));
    assert!(assigned_before_finalization.is_withdrawal_target_assigned());
    assert!(assigned_before_finalization.is_awaiting_leg_inactivity());
    assert!(!assigned_before_finalization.is_withdrawal_complete());

    let completed = valid_completed_withdrawal_round();
    assert_eq!(completed.validate(), Ok(()));
    assert!(completed.is_withdrawal_target_assigned());
    assert!(completed.are_all_successful_legs_finalized());
    assert!(completed.is_withdrawal_complete());
    assert!(!completed.is_awaiting_leg_inactivity());
    assert!(!completed.is_partially_finalized());
}

#[test]
fn active_round_rejects_count_cumulative_bitmap_and_status_inconsistency() {
    let mut bad_count = valid_active_round();
    bad_count.next_leg_index = 1;
    assert_eq!(bad_count.validate(), Err(Piv1Error::CountMismatch));

    let mut bad_cumulative = valid_active_round();
    bad_cumulative.cumulative_jitosol_assigned_units = 1;
    assert_eq!(
        bad_cumulative.validate(),
        Err(Piv1Error::CumulativeReconciliationMismatch)
    );

    let mut bad_bitmap_count = valid_active_round();
    bad_bitmap_count.kif_active_guardian_count = 2;
    assert_eq!(
        bad_bitmap_count.validate(),
        Err(Piv1Error::InvalidGuardianBitmap)
    );

    let mut bad_bitmap_bits = valid_active_round();
    bad_bitmap_bits.kif_eligibility_bitmap = 0b1000_0000;
    bad_bitmap_bits.kif_active_guardian_count = 1;
    assert_eq!(
        bad_bitmap_bits.validate(),
        Err(Piv1Error::InvalidGuardianBitmap)
    );

    let mut completed_but_still_active = valid_completed_withdrawal_round();
    completed_but_still_active.lifecycle = DistributionLifecycle::WithdrawalActive;
    assert_eq!(
        completed_but_still_active.validate(),
        Err(Piv1Error::InvalidLifecycle)
    );

    let mut settled_without_record = valid_active_round();
    settled_without_record.lifecycle = DistributionLifecycle::Settled;
    settled_without_record.outstanding_active_round_liability_lamports = 0;
    assert_eq!(
        settled_without_record.validate(),
        Err(Piv1Error::InvalidLifecycle)
    );
}

#[test]
fn withdrawal_leg_rejects_cumulative_and_status_inconsistency() {
    let initiated = valid_initiated_leg();
    assert_eq!(initiated.validate(), Ok(()));

    let mut bad_cumulative = initiated;
    bad_cumulative.burned_units = 97;
    assert_eq!(
        bad_cumulative.validate(),
        Err(Piv1Error::CumulativeReconciliationMismatch)
    );

    let mut initiated_with_finalization = initiated;
    initiated_with_finalization.finalized_epoch = Some(6);
    assert_eq!(
        initiated_with_finalization.validate(),
        Err(Piv1Error::InvalidLifecycle)
    );

    let mut finalized_without_epoch = initiated;
    finalized_without_epoch.status = WithdrawalLegStatus::Finalized;
    assert_eq!(
        finalized_without_epoch.validate(),
        Err(Piv1Error::CumulativeReconciliationMismatch)
    );

    let mut valid_finalized = initiated;
    valid_finalized.status = WithdrawalLegStatus::Finalized;
    valid_finalized.finalized_epoch = Some(6);
    valid_finalized.finalized_native_lamports = 1_015;
    valid_finalized.recovered_stake_rent_lamports = 20;
    valid_finalized.recovered_metadata_rent_lamports = 10;
    valid_finalized.cooldown_reward_lamports = 5;
    assert_eq!(valid_finalized.validate(), Ok(()));

    let mut mutually_exclusive_reward_and_loss = valid_finalized;
    mutually_exclusive_reward_and_loss.cooldown_loss_lamports = 1;
    assert_eq!(
        mutually_exclusive_reward_and_loss.validate(),
        Err(Piv1Error::CumulativeReconciliationMismatch)
    );

    let mut nonvacant_vacant = WithdrawalLeg::vacant(1, 2);
    nonvacant_vacant.is_initialized = true;
    assert_eq!(
        nonvacant_vacant.validate(),
        Err(Piv1Error::InvalidInitialization)
    );
}

#[test]
fn initialized_round_and_leg_reject_wrong_versions_and_default_bindings() {
    let round = valid_active_round();
    assert_eq!(round.validate(), Ok(()));

    let mut wrong_round_version = round;
    wrong_round_version.version = STATE_LAYOUT_VERSION.saturating_add(1);
    assert_eq!(wrong_round_version.validate(), Err(Piv1Error::InvalidVersion));

    let mut uninitialized_round = round;
    uninitialized_round.is_initialized = false;
    assert_eq!(
        uninitialized_round.validate(),
        Err(Piv1Error::InvalidInitialization)
    );

    let mut default_recipient = round;
    default_recipient.htfp_recipient = Pubkey::default();
    assert_eq!(default_recipient.validate(), Err(Piv1Error::InvalidAddress));

    let leg = valid_initiated_leg();
    assert_eq!(leg.validate(), Ok(()));

    let mut wrong_leg_version = leg;
    wrong_leg_version.version = STATE_LAYOUT_VERSION.saturating_add(1);
    assert_eq!(wrong_leg_version.validate(), Err(Piv1Error::InvalidVersion));

    let mut default_validator = leg;
    default_validator.validator_vote = Pubkey::default();
    assert_eq!(
        default_validator.validate(),
        Err(Piv1Error::InvalidInitialization)
    );
}
