//! Contribution intake, pending reconciliation, economic custody obligations,
//! initial bootstrap and the protected principal deposit.

use piv1::address::Pubkey;
use piv1::constants::{
    CONFIG_MIGRATION_RESERVE_BYTES, INSUFFICIENT_RETRY_COOLDOWN_SECONDS, KIF_PERIOD_SECONDS,
    MINIMUM_DISTRIBUTION_INTERVAL_SECONDS, STATE_LAYOUT_VERSION,
};
use piv1::errors::Piv1Error;
use piv1::integrations::stake_pool::{
    FeeFraction, PoolSnapshot, SolDepositExecution, SolDepositQuote, SolDepositRequest,
};
use piv1::state::bootstrap::{bootstrap_initial_contributions, InitialContributionBootstrap};
use piv1::state::config::{PivConfig, PivConfigBumps};
use piv1::state::contributions::{
    reconcile_pending_contributions, record_explicit_jitosol_contribution,
    record_explicit_sol_contribution, spendable_sol_lamports, ExplicitContributionRecord,
    JitoSolCustodyObservation, PendingCustodyObservation, SolCustodyObservation,
};
use piv1::state::distribution::ActiveDistribution;
use piv1::state::principal_deposit::{
    record_protected_principal_deposit, validate_combined_supply, PrincipalSolDepositObservation,
};
use piv1::state::reconciliation::{
    assess_operational_surplus, economic_custody_obligations, economic_custody_surplus,
    expected_pending_sol_lamports, observed_token_book_value, record_economic_normalization,
    validate_custody_state_binding, EconomicCustodyObservation, EconomicVaultAmounts,
    OperationalSurplusAssessment, SolVaultBalance,
};

const FLOOR: u64 = 100;

fn key(tag: u8) -> Pubkey {
    Pubkey::new_from_array([tag; 32])
}

/// A configuration with no economic history and the given pending ledgers.
fn empty_config(pending_sol: u64, pending_jitosol: u64) -> PivConfig {
    PivConfig {
        version: STATE_LAYOUT_VERSION,
        is_initialized: true,
        paused: false,
        bumps: PivConfigBumps {
            config: 1,
            piv_authority: 2,
            active_distribution: 3,
            principal_jito_vault: 4,
            pending_jito_vault: 5,
            pending_sol_vault: 6,
            principal_sol_queue: 7,
            operational_sol_vault: 8,
            distribution_escrow: 9,
            kif_sol_vault: 10,
            guardian_registry: 11,
        },
        stake_pool_program: key(1),
        stake_pool: key(2),
        validator_list: key(3),
        reserve_stake: key(4),
        jitosol_mint: key(5),
        token_program: key(6),
        stake_program: key(7),
        system_program: key(8),
        manager_fee_account: key(9),
        referrer_token_account: key(10),
        piv_authority: key(11),
        active_distribution: key(12),
        principal_jito_vault: key(13),
        pending_jito_vault: key(14),
        pending_sol_vault: key(15),
        principal_sol_queue: key(16),
        operational_sol_vault: key(17),
        distribution_escrow: key(18),
        kif_sol_vault: key(19),
        htfp_recipient: key(20),
        team_owner_recipient: key(21),
        guardian_registry: key(22),
        basis_points_denominator: 10_000,
        htfp_reserve_bps: 5_900,
        permanent_compound_bps: 1_950,
        team_owner_pool_bps: 1_950,
        kif_bps: 200,
        configured_slippage_bps: 1,
        slippage_hard_cap_bps: 1,
        minimum_distribution_interval_seconds: MINIMUM_DISTRIBUTION_INTERVAL_SECONDS,
        insufficient_retry_cooldown_seconds: INSUFFICIENT_RETRY_COOLDOWN_SECONDS,
        last_successful_preparation_at: None,
        last_valid_insufficient_attempt_at: None,
        next_distribution_sequence: 1,
        protected_principal_hwm_lamports: 0,
        accounted_historical_jitosol_units: 0,
        accounted_historical_sol_lamports: 0,
        accounted_pending_jitosol_units: pending_jitosol,
        accounted_pending_sol_lamports: pending_sol,
        next_cycle_yield_lamports: 0,
        kif_claim_liability_lamports: 0,
        collective_kif_carry_lamports: 0,
        cumulative_contribution_value_lamports: 0,
        cumulative_gross_yield_lamports: 0,
        cumulative_htfp_paid_lamports: 0,
        cumulative_team_owner_paid_lamports: 0,
        cumulative_kif_credited_lamports: 0,
        cumulative_kif_claimed_lamports: 0,
        cumulative_permanent_compound_lamports: 0,
        cumulative_retained_dust_lamports: 0,
        cumulative_zero_active_kif_compound_lamports: 0,
        cumulative_cooldown_yield_recorded_lamports: 0,
        kif_anchor_timestamp: 0,
        kif_period_seconds: KIF_PERIOD_SECONDS,
        guardian_registry_revision: 4,
        migration_reserve: [0; CONFIG_MIGRATION_RESERVE_BYTES],
    }
}

fn vault(economic: u64) -> SolVaultBalance {
    SolVaultBalance { lamports: FLOOR + economic, non_economic_floor_lamports: FLOOR }
}

fn custody(pending_sol: u64, principal_sol: u64, pending_jito: u64, principal_jito: u64) -> EconomicCustodyObservation {
    EconomicCustodyObservation {
        pending_sol: vault(pending_sol),
        principal_sol: vault(principal_sol),
        distribution_escrow: vault(0),
        kif_sol: vault(0),
        pending_jitosol_units: pending_jito,
        principal_jitosol_units: principal_jito,
    }
}

fn pool(total: u64, supply: u64) -> PoolSnapshot {
    PoolSnapshot {
        current_epoch: 7,
        last_update_epoch: 7,
        total_pool_lamports: total,
        pool_token_supply: supply,
        sol_deposit_fee: FeeFraction::zero(),
        stake_withdrawal_fee: FeeFraction { numerator: 1, denominator: 1_000 },
        minimum_delegation_lamports: 1,
        maximum_deposit_lamports: u64::MAX,
        available_withdrawal_lamports: 0,
        revision: 9,
    }
}

#[test]
fn spendable_balance_excludes_the_floor() {
    assert_eq!(spendable_sol_lamports(150, 100), Ok(50));
    assert_eq!(spendable_sol_lamports(100, 100), Ok(0));
    assert_eq!(spendable_sol_lamports(99, 100), Err(Piv1Error::InvalidCustodyObservation));
    assert_eq!(vault(5).economic_lamports(), Ok(5));
    assert_eq!(
        assess_operational_surplus(vault(5)),
        Ok(OperationalSurplusAssessment::UnsupportedFundingBaseline)
    );
    assert_eq!(
        assess_operational_surplus(SolVaultBalance { lamports: 1, non_economic_floor_lamports: 2 }),
        Err(Piv1Error::InvalidCustodyObservation)
    );
}

#[test]
fn explicit_sol_contribution_records_the_observed_increase() {
    let mut config = empty_config(10_000, 0);
    let round = ActiveDistribution::new_idle(3);
    let observation = SolCustodyObservation {
        vault_lamports_before: FLOOR + 10_000,
        vault_lamports_after: FLOOR + 10_500,
        non_economic_floor_lamports: FLOOR,
    };
    assert_eq!(
        record_explicit_sol_contribution(&mut config, &round, 500, observation),
        Ok(ExplicitContributionRecord { observed_increase: 500, accounted_pending_after: 10_500 })
    );
    assert_eq!(config.accounted_pending_sol_lamports, 10_500);

    let before = config;
    assert_eq!(
        record_explicit_sol_contribution(&mut config, &round, 0, observation),
        Err(Piv1Error::ZeroContribution)
    );
    assert_eq!(
        record_explicit_sol_contribution(&mut config, &round, 499, observation),
        Err(Piv1Error::ContributionObservationMismatch)
    );
    let decreased = SolCustodyObservation {
        vault_lamports_before: FLOOR + 10_500,
        vault_lamports_after: FLOOR + 10_000,
        non_economic_floor_lamports: FLOOR,
    };
    assert_eq!(
        record_explicit_sol_contribution(&mut config, &round, 500, decreased),
        Err(Piv1Error::CustodyBalanceDecreased)
    );
    let deficit = SolCustodyObservation {
        vault_lamports_before: FLOOR + 100,
        vault_lamports_after: FLOOR + 600,
        non_economic_floor_lamports: FLOOR,
    };
    assert_eq!(
        record_explicit_sol_contribution(&mut config, &round, 500, deficit),
        Err(Piv1Error::PendingCustodyDeficit)
    );
    assert_eq!(config, before);
}

#[test]
fn explicit_jitosol_contribution_changes_only_the_token_ledger() {
    let mut config = empty_config(10_000, 0);
    let round = ActiveDistribution::new_idle(3);
    let observation = JitoSolCustodyObservation { token_units_before: 0, token_units_after: 7 };
    assert_eq!(
        record_explicit_jitosol_contribution(&mut config, &round, 7, observation),
        Ok(ExplicitContributionRecord { observed_increase: 7, accounted_pending_after: 7 })
    );
    assert_eq!(config.accounted_pending_jitosol_units, 7);
    assert_eq!(config.accounted_pending_sol_lamports, 10_000);
    assert_eq!(
        record_explicit_jitosol_contribution(
            &mut config,
            &round,
            7,
            JitoSolCustodyObservation { token_units_before: 7, token_units_after: 0 },
        ),
        Err(Piv1Error::CustodyBalanceDecreased)
    );
}

#[test]
fn pending_reconciliation_is_idempotent_and_rejects_deficits() {
    let mut config = empty_config(10_000, 3);
    let round = ActiveDistribution::new_idle(3);
    let observation = PendingCustodyObservation {
        pending_sol_vault_lamports: FLOOR + 12_000,
        pending_sol_non_economic_floor_lamports: FLOOR,
        pending_jitosol_token_units: 5,
    };
    let first = reconcile_pending_contributions(&mut config, &round, observation).expect("first");
    assert_eq!(first.newly_accounted_sol_lamports, 2_000);
    assert_eq!(first.newly_accounted_jitosol_units, 2);
    assert_eq!(first.accounted_pending_sol_lamports_after, 12_000);
    assert_eq!(first.accounted_pending_jitosol_units_after, 5);
    assert!(!first.is_no_change());
    let after_first = config;
    let second = reconcile_pending_contributions(&mut config, &round, observation).expect("second");
    assert!(second.is_no_change());
    assert_eq!(config, after_first);

    let deficit = PendingCustodyObservation {
        pending_sol_vault_lamports: FLOOR + 11_999,
        pending_sol_non_economic_floor_lamports: FLOOR,
        pending_jitosol_token_units: 5,
    };
    assert_eq!(
        reconcile_pending_contributions(&mut config, &round, deficit),
        Err(Piv1Error::PendingCustodyDeficit)
    );
    assert_eq!(config, after_first);
}

#[test]
fn idle_obligations_and_surplus_follow_the_ledgers() {
    let config = empty_config(5_000, 1_000);
    let round = ActiveDistribution::new_idle(3);
    assert_eq!(validate_custody_state_binding(&config, &round), Ok(()));
    assert_eq!(expected_pending_sol_lamports(&config, &round), Ok(5_000));
    let expected = EconomicVaultAmounts {
        pending_sol_lamports: 5_000,
        principal_sol_lamports: 0,
        escrow_sol_lamports: 0,
        kif_sol_lamports: 0,
        pending_jitosol_units: 1_000,
        principal_jitosol_units: 0,
    };
    assert_eq!(economic_custody_obligations(&config, &round), Ok(expected));
    assert_eq!(
        economic_custody_surplus(&config, &round, custody(5_000, 0, 1_000, 0)),
        Ok(EconomicVaultAmounts::default())
    );
    let surplus = economic_custody_surplus(&config, &round, custody(5_010, 3, 1_000, 0)).expect("surplus");
    assert_eq!(surplus.pending_sol_lamports, 10);
    assert_eq!(surplus.principal_sol_lamports, 3);
    assert_eq!(
        economic_custody_surplus(&config, &round, custody(4_999, 1_000, 1_000, 0)),
        Err(Piv1Error::EconomicCustodyDeficit)
    );
}

#[test]
fn normalization_moves_principal_excess_into_pending() {
    let mut config = empty_config(5_000, 0);
    let round = ActiveDistribution::new_idle(3);
    let before = custody(5_000, 30, 0, 0);
    let after = custody(5_030, 0, 0, 0);
    let result = record_economic_normalization(&mut config, &round, before, after).expect("normalize");
    assert_eq!(result.newly_accounted_sol_lamports, 30);
    assert_eq!(config.accounted_pending_sol_lamports, 5_030);

    let mut paused = empty_config(5_000, 0);
    paused.paused = true;
    assert_eq!(
        record_economic_normalization(&mut paused, &round, before, after),
        Err(Piv1Error::PausedOperation)
    );
    let mut unchanged = empty_config(5_000, 0);
    assert_eq!(
        record_economic_normalization(&mut unchanged, &round, before, custody(5_029, 0, 0, 0)),
        Err(Piv1Error::ContributionObservationMismatch)
    );
    assert_eq!(unchanged, empty_config(5_000, 0));
}

#[test]
fn book_value_floors_the_pool_ratio() {
    assert_eq!(observed_token_book_value(1_000, pool(2_000_000, 1_000_000)), Ok(2_000));
    assert_eq!(observed_token_book_value(3, pool(10, 4)), Ok(7));
    assert_eq!(observed_token_book_value(0, pool(0, 0)), Ok(0));
    assert_eq!(
        observed_token_book_value(5, pool(10, 4)),
        Err(Piv1Error::InvalidCustodyObservation)
    );
    let mut stale = pool(10, 4);
    stale.current_epoch = 8;
    assert_eq!(observed_token_book_value(1, stale), Err(Piv1Error::InvalidCustodyObservation));
}

#[test]
fn bootstrap_integrates_all_pending_assets_exactly_once() {
    let mut config = empty_config(5_000, 1_000);
    let round = ActiveDistribution::new_idle(3);
    let before = custody(5_000, 0, 1_000, 0);
    let after = custody(0, 5_000, 0, 1_000);
    let pool = pool(2_000_000, 1_000_000);
    assert_eq!(
        bootstrap_initial_contributions(&mut config, &round, pool, before, after),
        Ok(InitialContributionBootstrap {
            integrated_sol_lamports: 5_000,
            integrated_jitosol_units: 1_000,
            contribution_value_lamports: 7_000,
        })
    );
    assert_eq!(config.protected_principal_hwm_lamports, 7_000);
    assert_eq!(config.accounted_historical_sol_lamports, 5_000);
    assert_eq!(config.accounted_historical_jitosol_units, 1_000);
    assert_eq!(config.accounted_pending_sol_lamports, 0);
    assert_eq!(config.accounted_pending_jitosol_units, 0);
    assert_eq!(config.cumulative_contribution_value_lamports, 7_000);

    let replay_before = config;
    assert_eq!(
        bootstrap_initial_contributions(&mut config, &round, pool, after, after),
        Err(Piv1Error::InvalidBootstrapState)
    );
    assert_eq!(config, replay_before);

    let mut empty = empty_config(0, 0);
    assert_eq!(
        bootstrap_initial_contributions(&mut empty, &round, pool, custody(0, 0, 0, 0), custody(0, 0, 0, 0)),
        Err(Piv1Error::ZeroContribution)
    );
    let mut wrong_bump = empty_config(5_000, 1_000);
    assert_eq!(
        bootstrap_initial_contributions(&mut wrong_bump, &ActiveDistribution::new_idle(4), pool, before, after),
        Err(Piv1Error::InvalidAccountPda)
    );
}

fn bootstrapped() -> (PivConfig, ActiveDistribution, EconomicCustodyObservation) {
    let mut config = empty_config(5_000, 1_000);
    let round = ActiveDistribution::new_idle(3);
    let after = custody(0, 5_000, 0, 1_000);
    bootstrap_initial_contributions(&mut config, &round, pool(2_000_000, 1_000_000), custody(5_000, 0, 1_000, 0), after)
        .expect("bootstrap");
    (config, round, after)
}

fn deposit_observation(custody_before: EconomicCustodyObservation) -> PrincipalSolDepositObservation {
    let pool_before = pool(2_000_000, 1_000_000);
    let quote = SolDepositQuote {
        snapshot: pool_before.identity(),
        native_lamports: 1_000,
        gross_pool_tokens: 500,
        deposit_fee_pool_tokens: 0,
        quoted_pool_tokens_out: 500,
        derived_slippage_floor_pool_tokens: 499,
        minimum_pool_tokens_out: 499,
    };
    PrincipalSolDepositObservation {
        request: SolDepositRequest {
            snapshot: pool_before.identity(),
            native_lamports: 1_000,
            caller_minimum_pool_tokens_out: 0,
            slippage_bps: 1,
        },
        execution: SolDepositExecution { quote, actual_pool_tokens_out: 500, actual_fee_pool_tokens: 0 },
        pool_before,
        pool_after: pool(2_001_000, 1_000_500),
        custody_before,
        custody_after: custody(0, 4_000, 0, 1_500),
    }
}

#[test]
fn protected_deposit_converts_queued_sol_without_value_loss() {
    let (mut config, round, custody_before) = bootstrapped();
    let record = record_protected_principal_deposit(&mut config, &round, deposit_observation(custody_before))
        .expect("deposit");
    assert_eq!(record.deposited_sol_lamports, 1_000);
    assert_eq!(record.minted_jitosol_units, 500);
    assert_eq!(record.historical_value_before_lamports, 7_000);
    assert_eq!(record.historical_value_after_lamports, 7_000);
    assert_eq!(config.accounted_historical_sol_lamports, 4_000);
    assert_eq!(config.accounted_historical_jitosol_units, 1_500);
    assert_eq!(config.protected_principal_hwm_lamports, 7_000);
}

#[test]
fn protected_deposit_rejects_fees_queue_excess_and_mismatched_receipts() {
    let (config, round, custody_before) = bootstrapped();

    let mut fee = deposit_observation(custody_before);
    fee.pool_before.sol_deposit_fee = FeeFraction { numerator: 1, denominator: 100 };
    fee.pool_after.sol_deposit_fee = FeeFraction { numerator: 1, denominator: 100 };
    let mut c = config;
    assert_eq!(
        record_protected_principal_deposit(&mut c, &round, fee),
        Err(Piv1Error::UnsupportedPrincipalDepositFee)
    );

    let mut too_much = deposit_observation(custody_before);
    too_much.request.native_lamports = 5_001;
    assert_eq!(
        record_protected_principal_deposit(&mut c, &round, too_much),
        Err(Piv1Error::PrincipalDepositExceedsQueue)
    );

    let mut zero = deposit_observation(custody_before);
    zero.request.native_lamports = 0;
    assert_eq!(record_protected_principal_deposit(&mut c, &round, zero), Err(Piv1Error::ZeroPrincipalDeposit));

    let mut short = deposit_observation(custody_before);
    short.execution.actual_pool_tokens_out = 499;
    assert_eq!(
        record_protected_principal_deposit(&mut c, &round, short),
        Err(Piv1Error::PrincipalDepositObservationMismatch)
    );

    let mut minimum = deposit_observation(custody_before);
    minimum.request.caller_minimum_pool_tokens_out = 501;
    assert_eq!(
        record_protected_principal_deposit(&mut c, &round, minimum),
        Err(Piv1Error::PrincipalDepositMinimumNotMet)
    );

    let mut slippage = deposit_observation(custody_before);
    slippage.request.slippage_bps = 0;
    assert_eq!(record_protected_principal_deposit(&mut c, &round, slippage), Err(Piv1Error::InvalidSlippage));
    assert_eq!(c, config);
}

#[test]
fn combined_token_supply_must_cover_held_units() {
    assert_eq!(validate_combined_supply(custody(0, 0, 400, 600), pool(2_000, 1_000)), Ok(()));
    assert_eq!(
        validate_combined_supply(custody(0, 0, 401, 600), pool(2_000, 1_000)),
        Err(Piv1Error::InvalidPrincipalDepositPool)
    );
    assert_eq!(
        validate_combined_supply(custody(0, 0, u64::MAX, 1), pool(2_000, 1_000)),
        Err(Piv1Error::ArithmeticOverflow)
    );
}
