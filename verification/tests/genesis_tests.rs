//! Genesis model preparation, the account preflight and the recipient
//! preflight: format and authorization refusals, role checks, and the
//! refusal of the proposed configuration's zero System binding.

use piv1::account_view::{AccountView, RentFloors};
use piv1::address::Pubkey;
use piv1::errors::Piv1Error;
use piv1::genesis_model::{prepare_approved_genesis_model, GenesisModelError};
use piv1::genesis_preflight::{preflight_approved_genesis_accounts, GenesisPreflightError, GenesisPreflightRoles, GenesisProtocolRoles};
use piv1::genesis_recipients::{preflight_approved_genesis_recipients, GenesisRecipientError, GenesisRecipientRoles};
use piv1::guardian_clock_accounts::Clock;
use piv1::instructions::initialize::{DeclaredGenesisProtocol, GenesisModelFormatError, GenesisModelParameters};
use piv1::squads_execution::{SquadsBootstrapRoles, SquadsExecutionError, SquadsInvocationContext};

fn key(tag: u8) -> Pubkey {
    Pubkey::new_from_array([tag; 32])
}

fn view(address: Pubkey) -> AccountView {
    AccountView {
        key: address,
        owner: key(0),
        executable: false,
        is_signer: false,
        is_writable: false,
        lamports: Some(1_000_000),
        data: Some(vec![]),
    }
}

fn context(stack_height: usize) -> SquadsInvocationContext {
    SquadsInvocationContext {
        stack_height,
        clock: Clock { slot: 1, epoch_start_timestamp: 0, epoch: 0, leader_schedule_epoch: 0, unix_timestamp: 1_000 },
        rent: RentFloors {
            native: Ok(890_880),
            token_account: Ok(2_039_280),
            config: Ok(8_000_000),
            distribution: Ok(7_000_000),
            registry: Ok(2_352_000),
            reward: Ok(1_475_760),
        },
    }
}

fn data() -> Vec<u8> {
    GenesisModelParameters {
        vault_index: 0,
        initially_paused: false,
        protocol: DeclaredGenesisProtocol {
            stake_pool_program: key(1),
            stake_pool: key(2),
            validator_list: key(3),
            reserve_stake: key(4),
            jitosol_mint: key(5),
            manager_fee_account: key(6),
            referrer_token_account: key(7),
        },
        htfp_recipient: key(8),
        team_owner_recipient: key(9),
        kif_anchor_timestamp: 0,
        guardian_slot_permutation: [0, 1, 2, 3, 4, 5],
    }
    .encode()
    .unwrap()
    .to_vec()
}

fn bootstrap() -> SquadsBootstrapRoles {
    SquadsBootstrapRoles { program: 0, program_data: 1, multisig: 2, proposal: 3, transaction: 4, vault: 5, instructions: 6, config: 7 }
}

fn accounts(n: u8) -> Vec<AccountView> {
    (0..n).map(|tag| view(key(100 + tag))).collect()
}

fn preflight_roles() -> GenesisPreflightRoles {
    let mut targets = [0usize; 16];
    targets[0] = 7;
    for (slot, target) in targets.iter_mut().enumerate().skip(1) {
        *target = 7 + slot;
    }
    GenesisPreflightRoles {
        bootstrap: bootstrap(),
        protocol: GenesisProtocolRoles { program: 23, pool: 24, validator_list: 25, reserve: 26, mint: 27, manager_fee: 28, referrer: 29 },
        targets,
    }
}

#[test]
fn genesis_model_refuses_malformed_data_first() {
    let result = prepare_approved_genesis_model(&key(70), &accounts(8), &[1, 2, 3], bootstrap(), &context(2));
    assert!(matches!(result, Err(GenesisModelError::Format(GenesisModelFormatError::InvalidLength))));
    let mut bad = data();
    bad[10] = 2;
    let result = prepare_approved_genesis_model(&key(70), &accounts(8), &bad, bootstrap(), &context(2));
    assert!(matches!(result, Err(GenesisModelError::Format(GenesisModelFormatError::InvalidBoolean))));
}

#[test]
fn genesis_model_requires_a_direct_squads_bootstrap() {
    let result = prepare_approved_genesis_model(&key(70), &accounts(8), &data(), bootstrap(), &context(1));
    assert!(matches!(result, Err(GenesisModelError::Authorization(SquadsExecutionError::InvalidInvocation))));
    let result = prepare_approved_genesis_model(&key(70), &accounts(8), &data(), bootstrap(), &context(2));
    assert!(matches!(result, Err(GenesisModelError::Authorization(SquadsExecutionError::State(Piv1Error::InvalidAccountPda)))));
}

#[test]
fn account_preflight_reports_the_model_refusal() {
    let result = preflight_approved_genesis_accounts(&key(70), &accounts(30), &[0], preflight_roles(), &context(2));
    assert!(matches!(
        result,
        Err(GenesisPreflightError::Model(GenesisModelError::Format(GenesisModelFormatError::InvalidLength)))
    ));
}

#[test]
fn recipient_preflight_checks_recipient_roles_first() {
    let roles = GenesisRecipientRoles {
        preflight: preflight_roles(),
        htfp_recipient: 30,
        team_owner_recipient: 30,
        htfp_vault_index: 1,
        team_owner_vault_index: 2,
    };
    let check = |roles: GenesisRecipientRoles, accounts: &Vec<AccountView>| {
        preflight_approved_genesis_recipients(&key(70), accounts, &data(), roles, &context(2))
    };
    assert!(matches!(check(roles, &accounts(32)), Err(GenesisRecipientError::InvalidRoles)));
    let distinct = GenesisRecipientRoles { team_owner_recipient: 31, ..roles };
    assert!(matches!(check(distinct, &accounts(31)), Err(GenesisRecipientError::InvalidRoles)));
    let protected = GenesisRecipientRoles { htfp_recipient: 2, ..distinct };
    assert!(matches!(check(protected, &accounts(32)), Err(GenesisRecipientError::InvalidRoles)));
    let target = GenesisRecipientRoles { htfp_recipient: 12, ..distinct };
    assert!(matches!(check(target, &accounts(32)), Err(GenesisRecipientError::InvalidRoles)));
    let mut aliased = accounts(32);
    aliased[31].key = aliased[0].key;
    assert!(matches!(check(distinct, &aliased), Err(GenesisRecipientError::State(Piv1Error::AccountAlias))));
    assert!(matches!(
        check(distinct, &accounts(32)),
        Err(GenesisRecipientError::Preflight(GenesisPreflightError::Model(GenesisModelError::Authorization(
            SquadsExecutionError::State(Piv1Error::InvalidAccountPda)
        ))))
    ));
}

use anchor_lang::prelude::Pubkey as RuntimeKey;
use anchor_lang::solana_program::program_pack::Pack;
use piv1::genesis_allocation::{
    begin_genesis_allocation, plan_genesis_allocation, validate_payer, verify_effects, ExpectedTarget,
    GenesisAllocationError, GenesisAllocationRoles,
};
use piv1::genesis_model::{DerivedGenesisTarget, GenesisTargetRole};
use piv1::genesis_preflight::GenesisTargetRentObservation;

fn allocation_roles() -> GenesisAllocationRoles {
    GenesisAllocationRoles { preflight: preflight_roles(), payer: 30, system_program: 31 }
}

fn payer_accounts() -> Vec<AccountView> {
    let mut all = accounts(32);
    all[30].is_signer = true;
    all[30].is_writable = true;
    all[30].lamports = Some(5_000_000);
    all[31].key = key(0);
    all[31].executable = true;
    all
}

#[test]
fn payer_checks_roles_program_and_rent() {
    let guardians = [key(60); 6];
    let check = |accounts: &Vec<AccountView>, roles: GenesisAllocationRoles, floor: Result<u64, Piv1Error>| {
        validate_payer(accounts, roles, &key(61), &key(62), &key(63), &guardians, floor)
    };
    assert_eq!(check(&payer_accounts(), allocation_roles(), Ok(890_880)), Ok(5_000_000));
    assert_eq!(check(&payer_accounts(), allocation_roles(), Ok(5_000_001)), Err(GenesisAllocationError::InsufficientPayerRent));
    assert_eq!(check(&payer_accounts(), allocation_roles(), Err(Piv1Error::InvalidRent)), Err(GenesisAllocationError::State(Piv1Error::InvalidRent)));
    let same = GenesisAllocationRoles { system_program: 30, ..allocation_roles() };
    assert_eq!(check(&payer_accounts(), same, Ok(1)), Err(GenesisAllocationError::InvalidRoles));
    let protected = GenesisAllocationRoles { payer: 3, ..allocation_roles() };
    assert_eq!(check(&payer_accounts(), protected, Ok(1)), Err(GenesisAllocationError::InvalidRoles));
    let mut foreign = payer_accounts();
    foreign[31].executable = false;
    assert_eq!(check(&foreign, allocation_roles(), Ok(1)), Err(GenesisAllocationError::State(Piv1Error::InvalidProgramIdentity)));
    let mut unsigned = payer_accounts();
    unsigned[30].is_signer = false;
    assert_eq!(check(&unsigned, allocation_roles(), Ok(1)), Err(GenesisAllocationError::InvalidPayer));
    let mut recipient = payer_accounts();
    recipient[30].key = key(62);
    assert_eq!(check(&recipient, allocation_roles(), Ok(1)), Err(GenesisAllocationError::InvalidPayer));
    let mut with_data = payer_accounts();
    with_data[30].data = Some(vec![0]);
    assert_eq!(check(&with_data, allocation_roles(), Ok(1)), Err(GenesisAllocationError::InvalidPayer));
}

fn observation(program: RuntimeKey, seed: &[u8], role: GenesisTargetRole, size: usize, shortfall: u64) -> GenesisTargetRentObservation {
    let (address, bump) = RuntimeKey::find_program_address(&[seed], &program);
    GenesisTargetRentObservation {
        target: DerivedGenesisTarget { role, address: Pubkey::new_from_array(address.to_bytes()), owner: key(70), size, bump },
        observed_lamports: 10,
        rent_minimum: 10 + shortfall,
        shortfall,
    }
}

#[test]
fn allocation_plans_recreate_each_address() {
    let program = RuntimeKey::new_from_array(key(70).to_bytes());
    let guardians = [key(11), key(12), key(13), key(14), key(15), key(16)];
    let mut targets = [observation(program, b"config", GenesisTargetRole::Config, 1014, 5); 16];
    targets[1] = observation(program, b"kif-sol", GenesisTargetRole::KifSol, 0, 0);
    let plans = plan_genesis_allocation(&key(70), &targets, &guardians).unwrap();
    assert_eq!(plans.len(), 16);
    assert_eq!(plans[0].seeds, vec![b"config".to_vec(), vec![targets[0].target.bump]]);
    assert_eq!(plans[0].transfer, 5);
    assert_eq!(plans[0].allocation, Some((1014, key(70))));
    assert_eq!(plans[1].transfer, 0);
    assert_eq!(plans[1].allocation, None);
    targets[2].target.address = key(99);
    assert_eq!(plan_genesis_allocation(&key(70), &targets, &guardians).map(|_| ()), Err(Piv1Error::InvalidAccountPda));
    targets[2] = targets[0];
    targets[2].observed_lamports = u64::MAX;
    assert_eq!(plan_genesis_allocation(&key(70), &targets, &guardians).map(|_| ()), Err(Piv1Error::ArithmeticOverflow));
}

#[test]
fn effects_are_checked_against_expectations() {
    let program = RuntimeKey::new_from_array(key(70).to_bytes());
    let before = [observation(program, b"config", GenesisTargetRole::Config, 1014, 5); 16];
    let mut all = payer_accounts();
    for slot in 0..16 {
        let index = preflight_roles().targets[slot];
        all[index].key = before[slot].target.address;
        all[index].is_writable = true;
        all[index].lamports = Some(15);
        all[index].owner = key(70);
        all[index].data = Some(vec![0; 1014]);
    }
    let expected = [ExpectedTarget { balance: 15, owner: key(70), size: 1014 }; 16];
    assert_eq!(verify_effects(&all, allocation_roles(), &before, &expected, 5_000_000), Ok(()));
    assert_eq!(verify_effects(&all, allocation_roles(), &before, &expected, 4_000_000), Err(GenesisAllocationError::ObservationMismatch));
    all[12].data = Some(vec![1; 1014]);
    assert_eq!(verify_effects(&all, allocation_roles(), &before, &expected, 5_000_000), Err(GenesisAllocationError::ObservationMismatch));
    all[12].data = None;
    assert_eq!(
        verify_effects(&all, allocation_roles(), &before, &expected, 5_000_000),
        Err(GenesisAllocationError::State(Piv1Error::AccountBorrowFailed))
    );
}

#[test]
fn allocation_reports_the_preflight_refusal() {
    let result = begin_genesis_allocation(&key(70), &payer_accounts(), &[0], allocation_roles(), &context(2));
    assert!(matches!(
        result,
        Err(GenesisAllocationError::Preflight(GenesisPreflightError::Model(GenesisModelError::Format(
            GenesisModelFormatError::InvalidLength
        ))))
    ));
}

use piv1::genesis_allocation::{advance_allocation_expectation, AllocationStage, TargetPlan};
use piv1::genesis_initialization::{
    begin_genesis_initialization, expected_token_bytes, same_distribution, validate_completion_roles,
    GenesisInitializationError, GenesisInitializationRoles,
};
use piv1::state::distribution::ActiveDistribution;

#[test]
fn expected_token_bytes_match_the_token_program_layout() {
    let bytes = expected_token_bytes(&key(5), &key(6)).unwrap();
    let account = spl_token::state::Account::unpack(&bytes).unwrap();
    assert_eq!(account.mint.to_bytes(), key(5).to_bytes());
    assert_eq!(account.owner.to_bytes(), key(6).to_bytes());
    assert_eq!(account.amount, 0);
    assert_eq!(account.state, spl_token::state::AccountState::Initialized);
    assert!(account.delegate.is_none() && account.is_native.is_none() && account.close_authority.is_none());
    assert_eq!(bytes[108], 1);
    assert!(bytes[64..108].iter().all(|byte| *byte == 0) && bytes[109..].iter().all(|byte| *byte == 0));
}

fn initialization_roles() -> GenesisInitializationRoles {
    GenesisInitializationRoles { allocation: allocation_roles(), token_program: 32 }
}

fn initialization_accounts() -> Vec<AccountView> {
    let mut all = payer_accounts();
    let mut token = view(Pubkey::new_from_array(spl_token::ID.to_bytes()));
    token.executable = true;
    all.push(token);
    all[27].data = Some(vec![7; 82]);
    all
}

#[test]
fn completion_roles_observe_the_mint() {
    let mint = validate_completion_roles(&initialization_accounts(), initialization_roles()).unwrap();
    assert_eq!(mint.owner, key(0));
    assert_eq!(mint.lamports, 1_000_000);
    assert_eq!(mint.bytes, vec![7; 82]);
    let check = |accounts: &Vec<AccountView>, roles: GenesisInitializationRoles| {
        validate_completion_roles(accounts, roles).map(|_| ())
    };
    let taken = GenesisInitializationRoles { token_program: 30, ..initialization_roles() };
    assert_eq!(check(&initialization_accounts(), taken), Err(GenesisInitializationError::InvalidRoles));
    let out_of_range = GenesisInitializationRoles { token_program: 33, ..initialization_roles() };
    assert_eq!(check(&initialization_accounts(), out_of_range), Err(GenesisInitializationError::InvalidRoles));
    let mut not_token = initialization_accounts();
    not_token[32].key = key(1);
    assert_eq!(check(&not_token, initialization_roles()), Err(GenesisInitializationError::State(Piv1Error::InvalidProgramIdentity)));
    let mut short_mint = initialization_accounts();
    short_mint[27].data = Some(vec![0; 81]);
    assert_eq!(check(&short_mint, initialization_roles()), Err(GenesisInitializationError::State(Piv1Error::InvalidAccountSize)));
    let result = begin_genesis_initialization(&key(70), &initialization_accounts(), &[0], initialization_roles(), &context(2));
    assert!(matches!(
        result,
        Err(GenesisInitializationError::Allocation(GenesisAllocationError::Preflight(GenesisPreflightError::Model(
            GenesisModelError::Format(GenesisModelFormatError::InvalidLength)
        ))))
    ));
}

#[test]
fn allocation_expectation_follows_each_effect() {
    let mut expected = [ExpectedTarget { balance: 10, owner: key(0), size: 0 }; 16];
    let mut payer = 100u64;
    let plan = TargetPlan { seeds: vec![b"config".to_vec(), vec![254]], transfer: 30, allocation: Some((1014, key(70))) };
    advance_allocation_expectation(&mut expected, &mut payer, 3, &plan, AllocationStage::Transfer).unwrap();
    assert_eq!((payer, expected[3].balance, expected[2].balance), (70, 40, 10));
    advance_allocation_expectation(&mut expected, &mut payer, 3, &plan, AllocationStage::Allocate).unwrap();
    advance_allocation_expectation(&mut expected, &mut payer, 3, &plan, AllocationStage::Assign).unwrap();
    assert_eq!(expected[3], ExpectedTarget { balance: 40, owner: key(70), size: 1014 });
    let costly = TargetPlan { transfer: 71, ..plan.clone() };
    assert_eq!(
        advance_allocation_expectation(&mut expected, &mut payer, 3, &costly, AllocationStage::Transfer),
        Err(GenesisAllocationError::State(Piv1Error::ArithmeticOverflow))
    );
    assert_eq!((payer, expected[3].balance), (70, 40));
}

#[test]
fn distribution_headers_compare_field_by_field() {
    let idle = ActiveDistribution::new_idle(7);
    assert!(same_distribution(&idle, &ActiveDistribution::new_idle(7)));
    assert!(!same_distribution(&idle, &ActiveDistribution::new_idle(8)));
    let mut keyed = idle;
    keyed.guardian_keys[5] = key(9);
    assert!(!same_distribution(&idle, &keyed));
}
