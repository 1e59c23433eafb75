//! Global configuration: initialization, address separation, fixed
//! economics, KIF liability reconciliation and checked counters.

use piv1::address::Pubkey;
use piv1::constants::{
    CONFIG_MIGRATION_RESERVE_BYTES, INSUFFICIENT_RETRY_COOLDOWN_SECONDS, KIF_PERIOD_SECONDS,
    MAX_CONFIGURED_SLIPPAGE_BPS, MINIMUM_DISTRIBUTION_INTERVAL_SECONDS, STATE_LAYOUT_VERSION,
};
use piv1::errors::Piv1Error;
use piv1::state::config::{PivConfig, PivConfigBumps};

fn key(tag: u8) -> Pubkey {
    Pubkey::new_from_array([tag; 32])
}

fn valid_config() -> PivConfig {
    PivConfig {
        version: STATE_LAYOUT_VERSION,
        is_initialized: true,
        paused: false,
        bumps: PivConfigBumps {
            config: 1,
            piv_authority: 2,
            active_distribution: 3,
            principal_jito_vault: 4,
            pending_jito_vault: 5,
            pending_sol_vault: 6,
            principal_sol_queue: 7,
            operational_sol_vault: 8,
            distribution_escrow: 9,
            kif_sol_vault: 10,
            guardian_registry: 11,
        },
        stake_pool_program: key(1),
        stake_pool: key(2),
        validator_list: key(3),
        reserve_stake: key(4),
        jitosol_mint: key(5),
        token_program: key(6),
        stake_program: key(7),
        system_program: key(8),
        manager_fee_account: key(9),
        referrer_token_account: key(10),
        piv_authority: key(11),
        active_distribution: key(12),
        principal_jito_vault: key(13),
        pending_jito_vault: key(14),
        pending_sol_vault: key(15),
        principal_sol_queue: key(16),
        operational_sol_vault: key(17),
        distribution_escrow: key(18),
        kif_sol_vault: key(19),
        htfp_recipient: key(20),
        team_owner_recipient: key(21),
        guardian_registry: key(22),
        basis_points_denominator: 10_000,
        htfp_reserve_bps: 5_900,
        permanent_compound_bps: 1_950,
        team_owner_pool_bps: 1_950,
        kif_bps: 200,
        configured_slippage_bps: 1,
        slippage_hard_cap_bps: 1,
        minimum_distribution_interval_seconds: MINIMUM_DISTRIBUTION_INTERVAL_SECONDS,
        insufficient_retry_cooldown_seconds: INSUFFICIENT_RETRY_COOLDOWN_SECONDS,
        last_successful_preparation_at: Some(1_000),
        last_valid_insufficient_attempt_at: Some(2_000),
        next_distribution_sequence: 3,
        protected_principal_hwm_lamports: 4,
        accounted_historical_jitosol_units: 5,
        accounted_historical_sol_lamports: 6,
        accounted_pending_jitosol_units: 7,
        accounted_pending_sol_lamports: 8,
        next_cycle_yield_lamports: 9,
        kif_claim_liability_lamports: 10,
        collective_kif_carry_lamports: 11,
        cumulative_contribution_value_lamports: 12,
        cumulative_gross_yield_lamports: 13,
        cumulative_htfp_paid_lamports: 14,
        cumulative_team_owner_paid_lamports: 15,
        cumulative_kif_credited_lamports: 17,
        cumulative_kif_claimed_lamports: 7,
        cumulative_permanent_compound_lamports: 18,
        cumulative_retained_dust_lamports: 19,
        cumulative_zero_active_kif_compound_lamports: 20,
        cumulative_cooldown_yield_recorded_lamports: 21,
        kif_anchor_timestamp: -1_000,
        kif_period_seconds: KIF_PERIOD_SECONDS,
        guardian_registry_revision: 1,
        migration_reserve: [0; CONFIG_MIGRATION_RESERVE_BYTES],
    }
}

#[test]
fn initialization_and_pause_validation_are_explicit() {
    let config = valid_config();
    assert_eq!(config.validate_initialized(), Ok(()));
    assert_eq!(config.ensure_unpaused(), Ok(()));

    let mut wrong_version = config.clone();
    wrong_version.version = STATE_LAYOUT_VERSION.saturating_add(1);
    assert_eq!(wrong_version.validate_initialized(), Err(Piv1Error::InvalidVersion));

    let mut uninitialized = config.clone();
    uninitialized.is_initialized = false;
    assert_eq!(
        uninitialized.validate_initialized(),
        Err(Piv1Error::InvalidInitialization)
    );

    let mut paused = config;
    paused.paused = true;
    assert_eq!(paused.validate_initialized(), Ok(()));
    assert_eq!(paused.ensure_unpaused(), Err(Piv1Error::PausedOperation));
}

#[test]
fn initialized_addresses_must_be_nondefault_and_separated() {
    let config = valid_config();

    let mut default_recipient = config.clone();
    default_recipient.htfp_recipient = Pubkey::default();
    assert_eq!(
        default_recipient.validate_initialized(),
        Err(Piv1Error::InvalidAddress)
    );

    let mut merged_vaults = config.clone();
    merged_vaults.pending_jito_vault = merged_vaults.principal_jito_vault;
    assert_eq!(
        merged_vaults.validate_initialized(),
        Err(Piv1Error::InvalidAddress)
    );

    let mut fee_referrer_alias = config;
    fee_referrer_alias.referrer_token_account = fee_referrer_alias.manager_fee_account;
    assert_eq!(fee_referrer_alias.validate_initialized(), Ok(()));
}

#[test]
fn fixed_economic_slippage_timing_and_reserved_bindings_are_enforced() {
    let config = valid_config();

    let mut zero_slippage = config.clone();
    zero_slippage.configured_slippage_bps = 0;
    assert_eq!(zero_slippage.validate_initialized(), Ok(()));

    let mut split = config.clone();
    split.kif_bps = split.kif_bps.checked_add(1).expect("test value");
    assert_eq!(split.validate_initialized(), Err(Piv1Error::InvalidSplit));

    let mut slippage = config.clone();
    slippage.configured_slippage_bps = MAX_CONFIGURED_SLIPPAGE_BPS + 1;
    assert_eq!(
        slippage.validate_initialized(),
        Err(Piv1Error::InvalidSlippage)
    );

    let mut hard_cap = config.clone();
    hard_cap.slippage_hard_cap_bps = 0;
    assert_eq!(
        hard_cap.validate_initialized(),
        Err(Piv1Error::InvalidSlippage)
    );

    let mut timing = config.clone();
    timing.kif_period_seconds = timing
        .kif_period_seconds
        .checked_add(1)
        .expect("test value");
    assert_eq!(
        timing.validate_initialized(),
        Err(Piv1Error::InvalidTimingConfiguration)
    );

    let mut reserved = config;
    reserved.migration_reserve[0] = 1;
    assert_eq!(
        reserved.validate_initialized(),
        Err(Piv1Error::InvalidInitialization)
    );
}

#[test]
fn kif_liability_must_reconcile_with_cumulative_credits_and_claims() {
    let config = valid_config();

    let mut wrong_liability = config.clone();
    wrong_liability.kif_claim_liability_lamports = 11;
    assert_eq!(
        wrong_liability.validate_initialized(),
        Err(Piv1Error::CumulativeReconciliationMismatch)
    );

    let mut claims_exceed_credits = config;
    claims_exceed_credits.cumulative_kif_claimed_lamports = 18;
    assert_eq!(
        claims_exceed_credits.validate_initialized(),
        Err(Piv1Error::CumulativeReconciliationMismatch)
    );
}

#[test]
fn sequence_and_hwm_helpers_are_checked_and_mutation_safe() {
    let mut config = valid_config();
    assert_eq!(config.allocate_next_distribution_sequence(), Ok(3));
    assert_eq!(config.next_distribution_sequence, 4);
    assert_eq!(
        config.checked_increase_protected_principal_hwm(6),
        Ok(10)
    );
    assert_eq!(config.protected_principal_hwm_lamports, 10);

    config.next_distribution_sequence = u64::MAX;
    let sequence_before = config.clone();
    assert_eq!(
        config.allocate_next_distribution_sequence(),
        Err(Piv1Error::ArithmeticOverflow)
    );
    assert_eq!(config, sequence_before);

    config.protected_principal_hwm_lamports = u64::MAX;
    let hwm_before = config.clone();
    assert_eq!(
        config.checked_increase_protected_principal_hwm(1),
        Err(Piv1Error::ArithmeticOverflow)
    );
    assert_eq!(config, hwm_before);
}
