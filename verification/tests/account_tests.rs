//! Runtime-account observations: program identities, rent floors, derived
//! addresses, state envelopes, custody vaults, persistence and the three
//! authenticated read paths.

use anchor_lang::prelude::Pubkey as RuntimeKey;
use anchor_lang::solana_program::program_option::COption;
use anchor_lang::solana_program::program_pack::Pack;
use piv1::account_view::{
    check_state_envelope, clock_sysvar_id, native_balance, rent_floor, stake_program_id,
    system_program_id, sysvar_owner_id, token_balance, token_program_id, validate_pda,
    validate_program, AccountView, RentFloors, RentParameters, Seed, StateKind,
};
use piv1::accounts::{authenticate_fixed_accounts, FixedAccountInfos};
use piv1::address::Pubkey;
use piv1::constants::{
    CONFIG_MIGRATION_RESERVE_BYTES, INSUFFICIENT_RETRY_COOLDOWN_SECONDS, KIF_PERIOD_SECONDS,
    MINIMUM_DISTRIBUTION_INTERVAL_SECONDS, STATE_LAYOUT_VERSION,
};
use piv1::errors::Piv1Error;
use piv1::guardian_clock_accounts::{authenticate_clock, decode_clock, Clock};
use piv1::instruction_boundary::DispatchRefusal;
use piv1::instruction_errors::{execution_program_error, ExecutionProgramError, HOST_RUNTIME_UNAVAILABLE_CODE};
use piv1::kif_claim_accounts::{authenticate_kif_claim_accounts, authenticate_reward_account, KifClaimAccountInfos};
use piv1::kif_claim_execution::{validate_execution_accounts, KifClaimExecutionError, KifClaimExecutionAccounts};
use piv1::state::config::{PivConfig, PivConfigBumps};
use piv1::state::guardian::{GuardianRegistry, GuardianReward};
use piv1::state_persistence::{commit_state_writes, PreparedStateWrite, StateEnvelope};

fn key(tag: u8) -> Pubkey {
    Pubkey::new_from_array([tag; 32])
}

fn runtime(key: Pubkey) -> RuntimeKey {
    RuntimeKey::new_from_array(key.to_bytes())
}

fn program() -> Pubkey {
    key(200)
}

fn view(address: Pubkey, owner: Pubkey, lamports: u64, data: Vec<u8>) -> AccountView {
    AccountView {
        key: address,
        owner,
        executable: false,
        is_signer: false,
        is_writable: true,
        lamports: Some(lamports),
        data: Some(data),
    }
}

fn floors() -> RentFloors {
    RentFloors {
        native: Ok(890_880),
        token_account: Ok(2_039_280),
        config: Ok(8_000_000),
        distribution: Ok(7_000_000),
        registry: Ok(2_352_000),
        reward: Ok(1_475_760),
    }
}

fn config() -> PivConfig {
    PivConfig {
        version: STATE_LAYOUT_VERSION,
        is_initialized: true,
        paused: false,
        bumps: PivConfigBumps {
            config: 1,
            piv_authority: 2,
            active_distribution: 3,
            principal_jito_vault: 4,
            pending_jito_vault: 5,
            pending_sol_vault: 6,
            principal_sol_queue: 7,
            operational_sol_vault: 8,
            distribution_escrow: 9,
            kif_sol_vault: 10,
            guardian_registry: 11,
        },
        stake_pool_program: key(1),
        stake_pool: key(2),
        validator_list: key(3),
        reserve_stake: key(4),
        jitosol_mint: key(5),
        token_program: token_program_id(),
        stake_program: stake_program_id(),
        system_program: key(8),
        manager_fee_account: key(9),
        referrer_token_account: key(10),
        piv_authority: key(11),
        active_distribution: key(12),
        principal_jito_vault: key(13),
        pending_jito_vault: key(14),
        pending_sol_vault: key(15),
        principal_sol_queue: key(16),
        operational_sol_vault: key(17),
        distribution_escrow: key(18),
        kif_sol_vault: key(19),
        htfp_recipient: key(20),
        team_owner_recipient: key(21),
        guardian_registry: key(22),
        basis_points_denominator: 10_000,
        htfp_reserve_bps: 5_900,
        permanent_compound_bps: 1_950,
        team_owner_pool_bps: 1_950,
        kif_bps: 200,
        configured_slippage_bps: 1,
        slippage_hard_cap_bps: 1,
        minimum_distribution_interval_seconds: MINIMUM_DISTRIBUTION_INTERVAL_SECONDS,
        insufficient_retry_cooldown_seconds: INSUFFICIENT_RETRY_COOLDOWN_SECONDS,
        last_successful_preparation_at: None,
        last_valid_insufficient_attempt_at: None,
        next_distribution_sequence: 0,
        protected_principal_hwm_lamports: 0,
        accounted_historical_jitosol_units: 0,
        accounted_historical_sol_lamports: 0,
        accounted_pending_jitosol_units: 0,
        accounted_pending_sol_lamports: 0,
        next_cycle_yield_lamports: 0,
        kif_claim_liability_lamports: 0,
        collective_kif_carry_lamports: 0,
        cumulative_contribution_value_lamports: 0,
        cumulative_gross_yield_lamports: 0,
        cumulative_htfp_paid_lamports: 0,
        cumulative_team_owner_paid_lamports: 0,
        cumulative_kif_credited_lamports: 0,
        cumulative_kif_claimed_lamports: 0,
        cumulative_permanent_compound_lamports: 0,
        cumulative_retained_dust_lamports: 0,
        cumulative_zero_active_kif_compound_lamports: 0,
        cumulative_cooldown_yield_recorded_lamports: 0,
        kif_anchor_timestamp: 0,
        kif_period_seconds: KIF_PERIOD_SECONDS,
        guardian_registry_revision: 0,
        migration_reserve: [0; CONFIG_MIGRATION_RESERVE_BYTES],
    }
}

fn state_data(kind: StateKind, payload_tail_marker: Option<usize>) -> Vec<u8> {
    let mut data = vec![0u8; kind.space()];
    data[..8].copy_from_slice(&kind.discriminator());
    if let Some(index) = payload_tail_marker {
        data[index] = 1;
    }
    data
}

fn reward_address(guardian: Pubkey, revision: u64, index: u8) -> (Pubkey, u8) {
    let bytes = guardian.to_bytes();
    let (address, bump) = RuntimeKey::find_program_address(
        &[b"guardian-reward", &bytes, &revision.to_le_bytes(), &[index]],
        &runtime(program()),
    );
    (Pubkey::new_from_array(address.to_bytes()), bump)
}

fn registry() -> GuardianRegistry {
    GuardianRegistry::new(254, 3, core::array::from_fn(|index| key(100 + index as u8))).expect("valid registry")
}

#[test]
fn program_identities_are_the_runtime_constants() {
    assert_eq!(system_program_id().to_bytes(), [0u8; 32]);
    assert_eq!(token_program_id().to_bytes(), spl_token::ID.to_bytes());
    assert_eq!(stake_program_id().to_bytes(), RuntimeKey::from_str_const("Stake11111111111111111111111111111111111111").to_bytes());
    assert_eq!(clock_sysvar_id().to_bytes(), anchor_lang::solana_program::sysvar::clock::ID.to_bytes());
    assert_eq!(sysvar_owner_id().to_bytes(), anchor_lang::solana_program::sysvar::ID.to_bytes());
    assert_eq!(validate_program(&system_program_id()), Err(Piv1Error::InvalidProgramIdentity));
    assert_eq!(validate_program(&token_program_id()), Err(Piv1Error::InvalidProgramIdentity));
    assert_eq!(validate_program(&stake_program_id()), Err(Piv1Error::InvalidProgramIdentity));
    assert_eq!(validate_program(&program()), Ok(()));
}

#[test]
fn rent_floor_checks_integer_preconditions_and_saturation() {
    let rent = RentParameters { lamports_per_byte_year: 3_480, exemption_threshold_valid: true, burn_percent: 50 };
    assert_eq!(rent_floor(rent, 0, 890_880), Ok(890_880));
    assert_eq!(rent_floor(RentParameters { exemption_threshold_valid: false, ..rent }, 0, 1), Err(Piv1Error::InvalidRent));
    assert_eq!(rent_floor(RentParameters { burn_percent: 101, ..rent }, 0, 1), Err(Piv1Error::InvalidRent));
    let steep = RentParameters { lamports_per_byte_year: u64::MAX, ..rent };
    assert_eq!(rent_floor(steep, 0, 1), Err(Piv1Error::ArithmeticOverflow));
    assert_eq!(rent_floor(rent, 0, u64::MAX), Err(Piv1Error::ArithmeticOverflow));
}

#[test]
fn derived_addresses_must_be_canonical() {
    let (address, bump) = RuntimeKey::find_program_address(&[b"config"], &runtime(program()));
    let address = Pubkey::new_from_array(address.to_bytes());
    assert_eq!(validate_pda(&program(), &address, Seed::Config, bump), Ok(()));
    assert_eq!(validate_pda(&program(), &address, Seed::Config, bump.wrapping_sub(1)), Err(Piv1Error::InvalidAccountPda));
    assert_eq!(validate_pda(&program(), &address, Seed::KifSol, bump), Err(Piv1Error::InvalidAccountPda));
    assert_eq!(validate_pda(&program(), &key(1), Seed::Config, bump), Err(Piv1Error::InvalidAccountPda));
}

#[test]
fn state_envelopes_are_framed_byte_by_byte() {
    let account = view(key(1), program(), 8_000_000, state_data(StateKind::Config, None));
    let ok = check_state_envelope(&account, &program(), StateKind::Config, Some(1_006), Ok(8_000_000));
    assert_eq!(ok, Ok(()));
    let foreign = view(key(1), key(2), 8_000_000, state_data(StateKind::Config, None));
    assert_eq!(check_state_envelope(&foreign, &program(), StateKind::Config, Some(10), Ok(1)), Err(Piv1Error::InvalidAccountOwner));
    let mut executable = account.clone();
    executable.executable = true;
    assert_eq!(check_state_envelope(&executable, &program(), StateKind::Config, Some(10), Ok(1)), Err(Piv1Error::ExecutableAccount));
    let mut borrowed = account.clone();
    borrowed.data = None;
    assert_eq!(check_state_envelope(&borrowed, &program(), StateKind::Config, Some(10), Ok(1)), Err(Piv1Error::AccountBorrowFailed));
    let short = view(key(1), program(), 1, vec![0u8; 100]);
    assert_eq!(check_state_envelope(&short, &program(), StateKind::Config, Some(10), Ok(1)), Err(Piv1Error::InvalidAccountSize));
    assert_eq!(check_state_envelope(&account, &program(), StateKind::Distribution, Some(10), Ok(1)), Err(Piv1Error::InvalidAccountSize));
    let wrong_type = view(key(1), program(), 1, state_data(StateKind::Reward, None));
    let mut relabeled = wrong_type.clone();
    relabeled.data = Some({
        let mut d = state_data(StateKind::Reward, None);
        d[0] ^= 1;
        d
    });
    assert_eq!(check_state_envelope(&relabeled, &program(), StateKind::Reward, Some(10), Ok(1)), Err(Piv1Error::InvalidAccountDiscriminator));
    assert_eq!(check_state_envelope(&account, &program(), StateKind::Config, None, Ok(1)), Err(Piv1Error::InvalidAccountData));
    let dirty = view(key(1), program(), 1, state_data(StateKind::Config, Some(900)));
    assert_eq!(check_state_envelope(&dirty, &program(), StateKind::Config, Some(100), Ok(1)), Err(Piv1Error::InvalidAccountData));
    assert_eq!(check_state_envelope(&dirty, &program(), StateKind::Config, Some(1_000), Ok(1)), Ok(()));
    assert_eq!(check_state_envelope(&account, &program(), StateKind::Config, Some(1_007), Ok(1)), Err(Piv1Error::InvalidAccountData));
    assert_eq!(check_state_envelope(&account, &program(), StateKind::Config, Some(10), Err(Piv1Error::InvalidRent)), Err(Piv1Error::InvalidRent));
    assert_eq!(check_state_envelope(&account, &program(), StateKind::Config, Some(10), Ok(8_000_001)), Err(Piv1Error::AccountRentDeficit));
}

#[test]
fn native_vaults_are_empty_system_accounts_covering_rent() {
    let vault = view(key(3), system_program_id(), 900_000, Vec::new());
    let balance = native_balance(&vault, &key(3), 890_880).expect("funded vault");
    assert_eq!(balance.lamports, 900_000);
    assert_eq!(balance.non_economic_floor_lamports, 890_880);
    assert_eq!(native_balance(&vault, &key(4), 0), Err(Piv1Error::InvalidAccountPda));
    assert_eq!(native_balance(&vault, &key(3), 900_001), Err(Piv1Error::AccountRentDeficit));
    let with_data = view(key(3), system_program_id(), 900_000, vec![0]);
    assert_eq!(native_balance(&with_data, &key(3), 0), Err(Piv1Error::InvalidAccountSize));
    let owned = view(key(3), program(), 900_000, Vec::new());
    assert_eq!(native_balance(&owned, &key(3), 0), Err(Piv1Error::InvalidAccountOwner));
}

fn token_data(mint: Pubkey, owner: Pubkey, amount: u64, delegate: Option<Pubkey>) -> Vec<u8> {
    let account = spl_token::state::Account {
        mint: runtime(mint),
        owner: runtime(owner),
        amount,
        delegate: match delegate {
            Some(k) => COption::Some(runtime(k)),
            None => COption::None,
        },
        state: spl_token::state::AccountState::Initialized,
        is_native: COption::None,
        delegated_amount: 0,
        close_authority: COption::None,
    };
    let mut data = vec![0u8; spl_token::state::Account::LEN];
    spl_token::state::Account::pack(account, &mut data).expect("pack token account");
    data
}

#[test]
fn token_custody_is_unpacked_and_restricted() {
    let config = config();
    let data = token_data(config.jitosol_mint, config.piv_authority, 77, None);
    let vault = view(key(13), token_program_id(), 2_100_000, data);
    let balance = token_balance(&vault, &key(13), &config, 2_039_280).expect("custody");
    assert_eq!(balance.token_units, 77);
    assert_eq!(balance.native.lamports, 2_100_000);
    let delegated = view(key(13), token_program_id(), 2_100_000, token_data(config.jitosol_mint, config.piv_authority, 77, Some(key(9))));
    assert_eq!(token_balance(&delegated, &key(13), &config, 0), Err(Piv1Error::InvalidTokenCustody));
    let foreign_mint = view(key(13), token_program_id(), 2_100_000, token_data(key(99), config.piv_authority, 77, None));
    assert_eq!(token_balance(&foreign_mint, &key(13), &config, 0), Err(Piv1Error::InvalidTokenCustody));
    let uninitialized = view(key(13), token_program_id(), 2_100_000, vec![0u8; 165]);
    assert_eq!(token_balance(&uninitialized, &key(13), &config, 0), Err(Piv1Error::InvalidTokenCustody));
    let short = view(key(13), token_program_id(), 2_100_000, vec![0u8; 164]);
    assert_eq!(token_balance(&short, &key(13), &config, 0), Err(Piv1Error::InvalidAccountSize));
}

#[test]
fn the_clock_sysvar_is_decoded_from_five_little_endian_fields() {
    let mut data = Vec::new();
    data.extend_from_slice(&9u64.to_le_bytes());
    data.extend_from_slice(&(-5i64).to_le_bytes());
    data.extend_from_slice(&3u64.to_le_bytes());
    data.extend_from_slice(&4u64.to_le_bytes());
    data.extend_from_slice(&1_700_000_000i64.to_le_bytes());
    let expected = Clock { slot: 9, epoch_start_timestamp: -5, epoch: 3, leader_schedule_epoch: 4, unix_timestamp: 1_700_000_000 };
    assert_eq!(decode_clock(&data), expected);
    let account = view(clock_sysvar_id(), sysvar_owner_id(), 1, data.clone());
    assert_eq!(authenticate_clock(&account), Ok(expected));
    let wrong_key = view(key(1), sysvar_owner_id(), 1, data.clone());
    assert_eq!(authenticate_clock(&wrong_key), Err(Piv1Error::InvalidClockAccount));
    let wrong_owner = view(clock_sysvar_id(), key(1), 1, data);
    assert_eq!(authenticate_clock(&wrong_owner), Err(Piv1Error::InvalidAccountOwner));
    let short = view(clock_sysvar_id(), sysvar_owner_id(), 1, vec![0u8; 39]);
    assert_eq!(authenticate_clock(&short), Err(Piv1Error::InvalidAccountSize));
}

#[test]
fn reward_accounts_authenticate_at_their_canonical_address() {
    let registry = registry();
    let guardian = registry.guardian_keys[2];
    let (address, bump) = reward_address(guardian, 3, 2);
    let reward = GuardianReward::new(bump, &registry, 2).expect("reward");
    let account = view(address, program(), 2_000_000, state_data(StateKind::Reward, None));
    let authenticated = authenticate_reward_account(&program(), Ok(1_475_760), &account, Some((reward, 60)));
    assert_eq!(authenticated, Ok(reward));
    let elsewhere = view(key(1), program(), 2_000_000, state_data(StateKind::Reward, None));
    assert_eq!(authenticate_reward_account(&program(), Ok(0), &elsewhere, Some((reward, 60))), Err(Piv1Error::InvalidAccountPda));
    let other_slot = GuardianReward::new(bump, &registry, 3).expect("reward");
    assert_eq!(authenticate_reward_account(&program(), Ok(0), &account, Some((other_slot, 60))), Err(Piv1Error::InvalidAccountPda));
    assert_eq!(authenticate_reward_account(&program(), Ok(0), &account, None), Err(Piv1Error::InvalidAccountData));
}

#[test]
fn prepared_writes_replace_exactly_the_expected_bytes() {
    let registry = registry();
    let guardian = registry.guardian_keys[0];
    let (address, bump) = reward_address(guardian, 3, 0);
    let reward = GuardianReward::new(bump, &registry, 0).expect("reward");
    let before = StateEnvelope::reward(&reward, &[1, 2, 3]).expect("before");
    assert_eq!(before.as_bytes().len(), 84);
    assert_eq!(&before.as_bytes()[..8], &[169, 109, 89, 17, 75, 171, 105, 39]);
    assert_eq!(&before.as_bytes()[8..11], &[1, 2, 3]);
    assert!(before.as_bytes()[11..].iter().all(|b| *b == 0));
    assert!(matches!(StateEnvelope::reward(&reward, &[7u8; 77]), Err(Piv1Error::StateEnvelopeEncodingFailed)));
    let after = StateEnvelope::reward(&reward, &[4, 5, 6, 7]).expect("after");
    let prior = before.as_bytes().to_vec();
    let replacement = after.as_bytes().to_vec();
    let write = PreparedStateWrite::new(&program(), address, before, after).expect("prepared");
    assert_eq!(write.target(), address);
    assert!(matches!(
        PreparedStateWrite::new(&program(), key(1), StateEnvelope::reward(&reward, &[]).unwrap(), StateEnvelope::reward(&reward, &[]).unwrap()),
        Err(Piv1Error::InvalidAccountPda)
    ));

    let mut changed = vec![view(address, program(), 2_000_000, replacement.clone())];
    assert_eq!(commit_state_writes(&program(), &floors(), &[write], &mut changed), Err(Piv1Error::StateEnvelopeChanged));
    assert_eq!(changed[0].data.as_deref(), Some(replacement.as_slice()));

    let write = PreparedStateWrite::new(
        &program(),
        address,
        StateEnvelope::reward(&reward, &[1, 2, 3]).unwrap(),
        StateEnvelope::reward(&reward, &[4, 5, 6, 7]).unwrap(),
    ).unwrap();
    let mut accounts = vec![view(address, program(), 2_000_000, prior.clone())];
    assert_eq!(commit_state_writes(&program(), &floors(), &[write], &mut accounts), Ok(()));
    assert_eq!(accounts[0].data.as_deref(), Some(replacement.as_slice()));
    assert_eq!(accounts[0].lamports, Some(2_000_000));

    let write = PreparedStateWrite::new(
        &program(),
        address,
        StateEnvelope::reward(&reward, &[1, 2, 3]).unwrap(),
        StateEnvelope::reward(&reward, &[4]).unwrap(),
    ).unwrap();
    let mut poor = vec![view(address, program(), 10, prior.clone())];
    assert_eq!(commit_state_writes(&program(), &floors(), &[write], &mut poor), Err(Piv1Error::AccountRentDeficit));
    assert_eq!(poor[0].data.as_deref(), Some(prior.as_slice()));
}

fn fixed_views() -> FixedAccountInfos {
    let state = |tag: u8| view(key(tag), program(), 9_000_000, state_data(StateKind::Config, None));
    FixedAccountInfos {
        config: state(30),
        active_distribution: state(31),
        pending_sol: state(32),
        principal_sol: state(33),
        operational_sol: state(34),
        distribution_escrow: state(35),
        kif_sol: state(36),
        principal_jito: state(37),
        pending_jito: state(38),
    }
}

#[test]
fn fixed_account_authentication_refuses_every_validated_configuration() {
    let accounts = fixed_views();
    let payload = Some((config(), 1_006));
    assert_eq!(
        authenticate_fixed_accounts(&system_program_id(), &floors(), &accounts, payload, None).err(),
        Some(Piv1Error::InvalidProgramIdentity)
    );
    let mut aliased = fixed_views();
    aliased.pending_jito.key = aliased.kif_sol.key;
    assert_eq!(authenticate_fixed_accounts(&program(), &floors(), &aliased, payload, None).err(), Some(Piv1Error::AccountAlias));
    let mut invalid = config();
    invalid.version = 0;
    assert_eq!(authenticate_fixed_accounts(&program(), &floors(), &accounts, Some((invalid, 1_006)), None).err(), Some(Piv1Error::InvalidVersion));
    // The stored System binding must be nonzero to validate, and zero to match.
    assert_eq!(authenticate_fixed_accounts(&program(), &floors(), &accounts, payload, None).err(), Some(Piv1Error::InvalidProgramIdentity));
}

#[test]
fn claim_accounts_must_be_writable_distinct_and_signed() {
    let account = |tag: u8| view(key(tag), program(), 9_000_000, state_data(StateKind::Config, None));
    let mut accounts = KifClaimAccountInfos { config: account(40), guardian_reward: account(41), kif_sol: account(42), guardian: account(43) };
    assert_eq!(authenticate_kif_claim_accounts(&program(), &floors(), &accounts, Some((config(), 1_006)), None).err(), Some(Piv1Error::MissingGuardianSignature));
    accounts.guardian.is_signer = true;
    assert_eq!(authenticate_kif_claim_accounts(&program(), &floors(), &accounts, Some((config(), 1_006)), None).err(), Some(Piv1Error::InvalidProgramIdentity));
    accounts.kif_sol.is_writable = false;
    assert_eq!(authenticate_kif_claim_accounts(&program(), &floors(), &accounts, None, None).err(), Some(Piv1Error::AccountNotWritable));
    accounts.kif_sol.is_writable = true;
    accounts.guardian.key = accounts.config.key;
    assert_eq!(authenticate_kif_claim_accounts(&program(), &floors(), &accounts, None, None).err(), Some(Piv1Error::AccountAlias));
}

#[test]
fn execution_requires_the_canonical_executable_system_program() {
    let account = |tag: u8| view(key(tag), program(), 9_000_000, Vec::new());
    let claim = KifClaimAccountInfos { config: account(40), guardian_reward: account(41), kif_sol: account(42), guardian: account(43) };
    let mut system = view(system_program_id(), key(0), 1, Vec::new());
    system.executable = true;
    let mut views = KifClaimExecutionAccounts { claim, system_program: system };
    assert_eq!(validate_execution_accounts(&views), Ok(()));
    views.system_program.executable = false;
    assert_eq!(validate_execution_accounts(&views), Err(Piv1Error::InvalidProgramIdentity));
    views.system_program.key = key(42);
    assert_eq!(validate_execution_accounts(&views), Err(Piv1Error::AccountAlias));
}

#[test]
fn execution_errors_map_to_stable_program_errors() {
    assert_eq!(execution_program_error(KifClaimExecutionError::State(Piv1Error::ZeroKifClaim)), ExecutionProgramError::Custom(6003));
    assert_eq!(execution_program_error(KifClaimExecutionError::Invocation(42)), ExecutionProgramError::Invocation(42));
    assert_eq!(
        execution_program_error(KifClaimExecutionError::HostRuntimeUnavailable),
        ExecutionProgramError::Custom(HOST_RUNTIME_UNAVAILABLE_CODE)
    );
}

#[test]
fn a_written_envelope_reads_back_through_the_envelope_check() {
    let payload = [9u8; 20];
    let envelope = StateEnvelope::config(&config(), &payload).expect("envelope");
    let account = view(key(1), program(), 8_000_000, envelope.as_bytes().to_vec());
    assert_eq!(check_state_envelope(&account, &program(), StateKind::Config, Some(20), Ok(8_000_000)), Ok(()));
    let mut invalid = config();
    invalid.paused = true;
    invalid.is_initialized = false;
    assert!(matches!(StateEnvelope::config(&invalid, &payload), Err(Piv1Error::InvalidInitialization)));
}

#[test]
fn claim_dispatch_checks_data_then_accounts_then_runtime() {
    let request = piv1::state::kif_claim::KifClaimRequest { amount_lamports: 66, expected_cumulative_claimed: 3 };
    let data = piv1::instructions::claim_kif::encode_claim_kif(request);
    assert_eq!(piv1::instruction_boundary::dispatch_claim(&data, 5, true), Ok(request));
    assert_eq!(piv1::instruction_boundary::dispatch_claim(&data[..23], 5, true), Err(DispatchRefusal::InvalidInstructionData));
    assert_eq!(piv1::instruction_boundary::dispatch_claim(&data, 4, false), Err(DispatchRefusal::NotEnoughAccountKeys));
    assert_eq!(piv1::instruction_boundary::dispatch_claim(&data, 6, true), Err(DispatchRefusal::InvalidArgument));
    assert_eq!(piv1::instruction_boundary::dispatch_claim(&data, 5, false), Err(DispatchRefusal::Custom(HOST_RUNTIME_UNAVAILABLE_CODE)));
    let transfer = piv1::state::kif_claim::KifClaimTransfer { source: key(1), destination: key(2), amount_lamports: 66 };
    let event = piv1::instruction_boundary::claim_event(key(3), transfer);
    assert_eq!(event.guardian_reward, key(3));
    assert_eq!(event.guardian, key(2));
    assert_eq!(event.amount_lamports, 66);
}
