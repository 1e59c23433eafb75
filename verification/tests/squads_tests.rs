//! Squads v4 configuration decoding, proposal and vault-transaction checks,
//! authority and invocation authentication, pending recognition, and the
//! repeated zero-guardian KIF split.

use anchor_lang::prelude::Pubkey as RuntimeKey;
use piv1::account_view::{AccountView, RentFloors};
use piv1::address::Pubkey;
use piv1::errors::Piv1Error;
use piv1::guardian_clock_accounts::Clock;
use piv1::math::{allocate_kif, KifAllocation};
use piv1::pending_accounts::{authenticate_pending_accounts, begin_pending_reconciliation, PendingAccountInfos};
use piv1::squads_accounts::{
    authenticate_squads_authority_snapshot, decode_multisig, squads_v4_program_id, SquadsAuthorityAccountInfos,
    SquadsMultisigConfiguration, MAX_TIME_LOCK, SQUADS_MULTISIG_DISCRIMINATOR,
};
use piv1::squads_execution::{
    authenticate_squads_bootstrap_invocation, authenticate_squads_invocation, validate_proposal, validate_transaction,
    SquadsBootstrapRoles, SquadsExecutionError, SquadsExecutionRoles, SquadsInvocationContext, PROPOSAL_DISCRIMINATOR,
    VAULT_TRANSACTION_DISCRIMINATOR,
};

fn key(tag: u8) -> Pubkey {
    Pubkey::new_from_array([tag; 32])
}

fn runtime(key: Pubkey) -> RuntimeKey {
    RuntimeKey::new_from_array(key.to_bytes())
}

fn library(key: RuntimeKey) -> Pubkey {
    Pubkey::new_from_array(key.to_bytes())
}

fn squads() -> RuntimeKey {
    runtime(squads_v4_program_id())
}

fn view(address: Pubkey, owner: Pubkey, data: Vec<u8>) -> AccountView {
    AccountView {
        key: address,
        owner,
        executable: false,
        is_signer: false,
        is_writable: false,
        lamports: Some(1_000_000),
        data: Some(data),
    }
}

fn floors() -> RentFloors {
    RentFloors {
        native: Ok(890_880),
        token_account: Ok(2_039_280),
        config: Ok(8_000_000),
        distribution: Ok(7_000_000),
        registry: Ok(2_352_000),
        reward: Ok(1_475_760),
    }
}

fn context(stack_height: usize) -> SquadsInvocationContext {
    SquadsInvocationContext {
        stack_height,
        clock: Clock { slot: 1, epoch_start_timestamp: 0, epoch: 0, leader_schedule_epoch: 0, unix_timestamp: 1_000 },
        rent: floors(),
    }
}

/// Six sorted members 11..=16: all vote, the first initiates, the last executes.
fn members() -> [(Pubkey, u8); 6] {
    [(key(11), 3), (key(12), 2), (key(13), 2), (key(14), 2), (key(15), 2), (key(16), 6)]
}

struct MultisigFields {
    create_key: Pubkey,
    config_authority: Pubkey,
    threshold: u16,
    time_lock: u32,
    transaction_index: u64,
    stale_transaction_index: u64,
    rent_collector: Option<Pubkey>,
    bump: u8,
    count: u32,
    members: [(Pubkey, u8); 6],
}

fn fields() -> MultisigFields {
    MultisigFields {
        create_key: key(9),
        config_authority: key(0),
        threshold: 4,
        time_lock: 60,
        transaction_index: 7,
        stale_transaction_index: 2,
        rent_collector: None,
        bump: 254,
        count: 6,
        members: members(),
    }
}

fn multisig_bytes(f: &MultisigFields) -> Vec<u8> {
    let mut out = SQUADS_MULTISIG_DISCRIMINATOR.to_vec();
    out.extend_from_slice(&f.create_key.to_bytes());
    out.extend_from_slice(&f.config_authority.to_bytes());
    out.extend_from_slice(&f.threshold.to_le_bytes());
    out.extend_from_slice(&f.time_lock.to_le_bytes());
    out.extend_from_slice(&f.transaction_index.to_le_bytes());
    out.extend_from_slice(&f.stale_transaction_index.to_le_bytes());
    match f.rent_collector {
        None => out.push(0),
        Some(collector) => {
            out.push(1);
            out.extend_from_slice(&collector.to_bytes());
        }
    }
    out.push(f.bump);
    out.extend_from_slice(&f.count.to_le_bytes());
    for (member, permissions) in f.members {
        out.extend_from_slice(&member.to_bytes());
        out.push(permissions);
    }
    out.resize(330.max(out.len()), 0);
    out
}

fn configuration() -> SquadsMultisigConfiguration {
    decode_multisig(&multisig_bytes(&fields())).unwrap()
}

#[test]
fn decode_multisig_reads_six_sorted_voters() {
    let c = configuration();
    assert_eq!(c.create_key(), key(9));
    assert_eq!(c.bump(), 254);
    assert_eq!(c.time_lock(), 60);
    assert_eq!(c.transaction_index(), 7);
    assert_eq!(c.stale_transaction_index(), 2);
    assert_eq!(c.rent_collector(), None);
    assert_eq!(*c.member_keys(), [key(11), key(12), key(13), key(14), key(15), key(16)]);
    assert_eq!(*c.member_permissions(), [3, 2, 2, 2, 2, 6]);

    let mut with_collector = fields();
    with_collector.rent_collector = Some(key(77));
    let c = decode_multisig(&multisig_bytes(&with_collector)).unwrap();
    assert_eq!(c.rent_collector(), Some(key(77)));
    assert_eq!(c.bump(), 254);
    assert_eq!(c.member_keys()[5], key(16));
}

#[test]
fn decode_multisig_refuses_each_malformed_configuration() {
    assert_eq!(decode_multisig(&multisig_bytes(&fields())[..329]), Err(Piv1Error::InvalidAccountSize));
    let mut bytes = multisig_bytes(&fields());
    bytes[0] ^= 1;
    assert_eq!(decode_multisig(&bytes), Err(Piv1Error::InvalidAccountDiscriminator));
    let mut bytes = multisig_bytes(&fields());
    bytes[94] = 2;
    assert_eq!(decode_multisig(&bytes), Err(Piv1Error::InvalidAccountData));

    let cases: Vec<(fn(&mut MultisigFields), Piv1Error)> = vec![
        (|f| f.count = 5, Piv1Error::InvalidGuardianCount),
        (|f| f.members.swap(0, 1), Piv1Error::InvalidGuardianSet),
        (|f| f.members[1].0 = f.members[0].0, Piv1Error::InvalidGuardianSet),
        (|f| f.members[0].0 = Pubkey::new_from_array([0; 32]), Piv1Error::InvalidGuardianSet),
        (|f| f.members[2].1 = 8 | 2, Piv1Error::InvalidGuardianSet),
        (|f| f.members[3].1 = 1, Piv1Error::InvalidGuardianSet),
        (|f| f.config_authority = Pubkey::new_from_array([5; 32]), Piv1Error::InvalidGuardianSet),
        (|f| f.threshold = 3, Piv1Error::InvalidGuardianSet),
        (|f| f.members[0].1 = 2, Piv1Error::InvalidGuardianSet),
        (|f| f.members[5].1 = 2, Piv1Error::InvalidGuardianSet),
        (|f| f.stale_transaction_index = 8, Piv1Error::InvalidAccountData),
        (|f| f.time_lock = MAX_TIME_LOCK + 1, Piv1Error::InvalidTimingConfiguration),
    ];
    for (change, expected) in cases {
        let mut f = fields();
        change(&mut f);
        assert_eq!(decode_multisig(&multisig_bytes(&f)), Err(expected));
    }
    let mut f = fields();
    f.time_lock = MAX_TIME_LOCK;
    assert!(decode_multisig(&multisig_bytes(&f)).is_ok());
}

fn multisig_address() -> Pubkey {
    key(40)
}

fn proposal_address(index: u64) -> (Pubkey, u8) {
    let multisig = runtime(multisig_address());
    let (address, bump) = RuntimeKey::find_program_address(
        &[b"multisig", multisig.as_ref(), b"transaction", &index.to_le_bytes(), b"proposal"],
        &squads(),
    );
    (library(address), bump)
}

fn votes(keys: &[Pubkey]) -> Vec<u8> {
    let mut out = (keys.len() as u32).to_le_bytes().to_vec();
    for key in keys {
        out.extend_from_slice(&key.to_bytes());
    }
    out
}

fn proposal_bytes(index: u64, status: u8, timestamp: i64, bump: u8, approved: &[Pubkey], rejected: &[Pubkey]) -> Vec<u8> {
    let mut out = PROPOSAL_DISCRIMINATOR.to_vec();
    out.extend_from_slice(&multisig_address().to_bytes());
    out.extend_from_slice(&index.to_le_bytes());
    out.push(status);
    out.extend_from_slice(&timestamp.to_le_bytes());
    out.push(bump);
    out.extend(votes(approved));
    out.extend(votes(rejected));
    out.extend(votes(&[]));
    out
}

#[test]
fn validate_proposal_returns_index_and_member_approvals() {
    let (address, bump) = proposal_address(5);
    let approved = [key(11), key(12), key(14), key(16)];
    let bytes = proposal_bytes(5, 3, 900, bump, &approved, &[key(13)]);
    let c = configuration();
    assert_eq!(validate_proposal(&bytes, &address, &multisig_address(), &c, 960), Ok((5, 0b10_1011)));
    assert_eq!(
        validate_proposal(&bytes, &address, &multisig_address(), &c, 959),
        Err(SquadsExecutionError::TimelockNotReleased)
    );
    assert_eq!(
        validate_proposal(&bytes, &address, &multisig_address(), &c, i64::MIN),
        Err(SquadsExecutionError::TimelockNotReleased)
    );
}

#[test]
fn validate_proposal_refuses_bad_proposals() {
    let c = configuration();
    let (address, bump) = proposal_address(5);
    let approved = [key(11), key(12), key(14), key(16)];
    let check = |bytes: &[u8]| validate_proposal(bytes, &address, &multisig_address(), &c, 10_000);
    let good = proposal_bytes(5, 3, 900, bump, &approved, &[]);
    assert_eq!(check(&good[..7]), Err(SquadsExecutionError::InvalidTransaction));
    let mut bad = good.clone();
    bad[0] ^= 1;
    assert_eq!(check(&bad), Err(SquadsExecutionError::InvalidProposal));
    assert_eq!(check(&good[..57]), Err(SquadsExecutionError::InvalidTransaction));
    assert_eq!(check(&proposal_bytes(5, 2, 900, bump, &approved, &[])), Err(SquadsExecutionError::InvalidProposal));
    assert_eq!(check(&proposal_bytes(2, 3, 900, bump, &approved, &[])), Err(SquadsExecutionError::InvalidProposal));
    assert_eq!(check(&proposal_bytes(8, 3, 900, bump, &approved, &[])), Err(SquadsExecutionError::InvalidProposal));
    assert_eq!(check(&proposal_bytes(5, 3, 900, bump.wrapping_add(1), &approved, &[])), Err(SquadsExecutionError::InvalidProposal));
    assert_eq!(
        check(&proposal_bytes(5, 3, 900, bump, &[key(11), key(12), key(14)], &[])),
        Err(SquadsExecutionError::InvalidProposal)
    );
    assert_eq!(
        check(&proposal_bytes(5, 3, 900, bump, &[key(12), key(11), key(14), key(16)], &[])),
        Err(SquadsExecutionError::InvalidProposal)
    );
    assert_eq!(
        check(&proposal_bytes(5, 3, 900, bump, &[key(11), key(12), key(14), key(99)], &[])),
        Err(SquadsExecutionError::InvalidProposal)
    );
    assert_eq!(
        check(&proposal_bytes(5, 3, 900, bump, &approved, &[key(11)])),
        Err(SquadsExecutionError::InvalidProposal)
    );
    assert_eq!(
        check(&proposal_bytes(5, 3, 900, bump, &approved, &[key(13), key(15), key(12)])),
        Err(SquadsExecutionError::InvalidProposal)
    );
    let truncated = proposal_bytes(5, 3, 900, bump, &approved, &[]);
    assert_eq!(check(&truncated[..truncated.len() - 1]), Err(SquadsExecutionError::InvalidTransaction));
}

#[test]
fn validate_transaction_checks_prefix_before_the_message() {
    let multisig = multisig_address();
    let mut bytes = VAULT_TRANSACTION_DISCRIMINATOR.to_vec();
    bytes.extend_from_slice(&multisig.to_bytes());
    bytes.extend_from_slice(&key(3).to_bytes());
    bytes.extend_from_slice(&5u64.to_le_bytes());
    bytes.extend_from_slice(&[255, 0, 255]);
    let accounts = vec![view(key(1), key(2), vec![])];
    let result = validate_transaction(&bytes, &key(50), &multisig, &key(51), 0, 5, &key(52), &accounts, &[1, 2]);
    assert!(matches!(result, Err(SquadsExecutionError::InvalidTransaction)));
    let result = validate_transaction(&bytes[..40], &key(50), &multisig, &key(51), 0, 5, &key(52), &accounts, &[1, 2]);
    assert!(matches!(result, Err(SquadsExecutionError::InvalidTransaction)));
}

fn transaction_message(index: u64, vault_index: u8, program: Pubkey, keys: &[Pubkey], indices: &[u8], data: &[u8]) -> (Pubkey, Vec<u8>, Pubkey) {
    let multisig = runtime(multisig_address());
    let (address, bump) = RuntimeKey::find_program_address(
        &[b"multisig", multisig.as_ref(), b"transaction", &index.to_le_bytes()],
        &squads(),
    );
    let (vault, vault_bump) =
        RuntimeKey::find_program_address(&[b"multisig", multisig.as_ref(), b"vault", &[vault_index]], &squads());
    let mut out = VAULT_TRANSACTION_DISCRIMINATOR.to_vec();
    out.extend_from_slice(&multisig_address().to_bytes());
    out.extend_from_slice(&key(3).to_bytes());
    out.extend_from_slice(&index.to_le_bytes());
    out.extend_from_slice(&[bump, vault_index, vault_bump]);
    out.extend_from_slice(&0u32.to_le_bytes());
    out.extend_from_slice(&[1, 1, 1]);
    out.extend_from_slice(&(keys.len() as u32).to_le_bytes());
    for key in keys {
        out.extend_from_slice(&key.to_bytes());
    }
    out.extend_from_slice(&1u32.to_le_bytes());
    let program_index = keys.iter().position(|key| *key == program).unwrap() as u8;
    out.push(program_index);
    out.extend_from_slice(&(indices.len() as u32).to_le_bytes());
    out.extend_from_slice(indices);
    out.extend_from_slice(&(data.len() as u32).to_le_bytes());
    out.extend_from_slice(data);
    out.extend_from_slice(&0u32.to_le_bytes());
    (library(address), out, library(vault))
}

#[test]
fn validate_transaction_accepts_the_one_matching_instruction() {
    let program = key(60);
    let target = key(62);
    let (address, _, vault) = transaction_message(5, 0, program, &[program], &[], &[]);
    let keys = [vault, target, program];
    let (_, bytes, _) = transaction_message(5, 0, program, &keys, &[0, 1], &[7, 8, 9]);
    let mut first = view(vault, key(0), vec![]);
    first.is_signer = true;
    first.is_writable = true;
    let mut second = view(target, key(0), vec![]);
    second.is_writable = true;
    let accounts = vec![first, second];
    let message = validate_transaction(&bytes, &address, &multisig_address(), &vault, 0, 5, &program, &accounts, &[7, 8, 9])
        .unwrap();
    assert_eq!(message.len(), 3);
    assert_eq!(message.keys, keys.to_vec());
    assert_eq!(message.flags(0), 3);
    assert_eq!(message.flags(1), 2);
    assert_eq!(message.flags(2), 0);

    let result = validate_transaction(&bytes, &address, &multisig_address(), &vault, 0, 5, &program, &accounts, &[7, 8]);
    assert!(matches!(result, Err(SquadsExecutionError::MessageMismatch)));
    let result = validate_transaction(&bytes, &address, &multisig_address(), &vault, 0, 5, &key(63), &accounts, &[7, 8, 9]);
    assert!(matches!(result, Err(SquadsExecutionError::MessageMismatch)));
    let mut trailing = bytes.clone();
    trailing.push(0);
    let result = validate_transaction(&trailing, &address, &multisig_address(), &vault, 0, 5, &program, &accounts, &[7, 8, 9]);
    assert!(matches!(result, Err(SquadsExecutionError::UnsupportedMessage)));
    let (_, repeated, _) = transaction_message(5, 0, program, &[vault, vault, program], &[0, 1], &[7, 8, 9]);
    let result = validate_transaction(&repeated, &address, &multisig_address(), &vault, 0, 5, &program, &accounts, &[7, 8, 9]);
    assert!(matches!(result, Err(SquadsExecutionError::UnsupportedMessage)));
}

#[test]
fn authority_snapshot_refuses_aliases_and_foreign_programs() {
    let program = key(70);
    let accounts = SquadsAuthorityAccountInfos {
        program: view(program, key(1), vec![]),
        program_data: view(program, key(1), vec![]),
        multisig: view(key(72), squads_v4_program_id(), vec![]),
    };
    assert_eq!(authenticate_squads_authority_snapshot(&program, 0, &accounts), Err(Piv1Error::AccountAlias));
    let accounts = SquadsAuthorityAccountInfos {
        program: view(program, key(1), vec![]),
        program_data: view(key(71), key(1), vec![]),
        multisig: view(key(72), squads_v4_program_id(), vec![]),
    };
    assert_eq!(authenticate_squads_authority_snapshot(&key(99), 0, &accounts), Err(Piv1Error::InvalidProgramIdentity));
    let mut executable = accounts.clone();
    executable.program.executable = true;
    assert_eq!(authenticate_squads_authority_snapshot(&program, 0, &executable), Err(Piv1Error::InvalidAccountOwner));
}

fn execution_roles() -> SquadsExecutionRoles {
    SquadsExecutionRoles {
        program: 0,
        program_data: 1,
        multisig: 2,
        proposal: 3,
        transaction: 4,
        vault: 5,
        instructions: 6,
        config: 7,
        guardian_registry: 8,
        rewards: [9, 10, 11, 12, 13, 14],
        clock: 15,
    }
}

#[test]
fn invocation_refuses_nested_calls_and_bad_roles() {
    let accounts: Vec<AccountView> = (0..16).map(|tag| view(key(100 + tag), key(1), vec![])).collect();
    let roles = execution_roles();
    let result = authenticate_squads_invocation(&key(70), &accounts, &[], roles, 0, &context(3), None, None, [None; 6]);
    assert!(matches!(result, Err(SquadsExecutionError::InvalidInvocation)));
    let result = authenticate_squads_invocation(&key(70), &vec![], &[], roles, 0, &context(2), None, None, [None; 6]);
    assert!(matches!(result, Err(SquadsExecutionError::InvalidInvocation)));
    let mut repeated = roles;
    repeated.clock = 0;
    let result = authenticate_squads_invocation(&key(70), &accounts, &[], repeated, 0, &context(2), None, None, [None; 6]);
    assert!(matches!(result, Err(SquadsExecutionError::InvalidInvocation)));
    let mut aliased = accounts.clone();
    aliased[3].key = aliased[2].key;
    let result = authenticate_squads_invocation(&key(70), &aliased, &[], roles, 0, &context(2), None, None, [None; 6]);
    assert!(matches!(result, Err(SquadsExecutionError::State(Piv1Error::AccountAlias))));
}

#[test]
fn bootstrap_requires_the_virgin_config_address() {
    let accounts: Vec<AccountView> = (0..8).map(|tag| view(key(100 + tag), key(0), vec![])).collect();
    let roles = SquadsBootstrapRoles {
        program: 0,
        program_data: 1,
        multisig: 2,
        proposal: 3,
        transaction: 4,
        vault: 5,
        instructions: 6,
        config: 7,
    };
    let result = authenticate_squads_bootstrap_invocation(&key(70), &accounts, &[], roles, 0, &context(2));
    assert!(matches!(result, Err(SquadsExecutionError::State(Piv1Error::InvalidAccountPda))));
    let (config, _) = RuntimeKey::find_program_address(&[b"config"], &runtime(key(70)));
    let mut virgin = accounts.clone();
    virgin[7].key = library(config);
    let result = authenticate_squads_bootstrap_invocation(&key(70), &virgin, &[], roles, 0, &context(2));
    assert!(matches!(result, Err(SquadsExecutionError::State(Piv1Error::AccountNotWritable))));
    virgin[7].is_writable = true;
    virgin[7].data = Some(vec![0]);
    let result = authenticate_squads_bootstrap_invocation(&key(70), &virgin, &[], roles, 0, &context(2));
    assert!(matches!(result, Err(SquadsExecutionError::State(Piv1Error::InvalidAccountSize))));
    virgin[7].data = Some(vec![]);
    let result = authenticate_squads_bootstrap_invocation(&key(70), &virgin, &[], roles, 0, &context(2));
    assert!(matches!(result, Err(SquadsExecutionError::State(Piv1Error::InvalidProgramIdentity))));
}

fn pending_accounts() -> PendingAccountInfos {
    PendingAccountInfos {
        config: view(key(80), key(70), vec![]),
        active_distribution: view(key(81), key(70), vec![]),
        pending_sol: view(key(82), key(70), vec![]),
        pending_jito: view(key(83), key(70), vec![]),
    }
}

#[test]
fn pending_authentication_refuses_aliases_and_read_only_config() {
    let mut aliased = pending_accounts();
    aliased.pending_jito.key = aliased.pending_sol.key;
    assert_eq!(
        authenticate_pending_accounts(&key(70), &floors(), &aliased, None, None).map(|_| ()),
        Err(Piv1Error::AccountAlias)
    );
    assert_eq!(
        authenticate_pending_accounts(&key(70), &floors(), &pending_accounts(), None, None).map(|_| ()),
        Err(Piv1Error::InvalidAccountSize)
    );
    let mut read_only = pending_accounts();
    read_only.config.is_writable = false;
    assert_eq!(
        begin_pending_reconciliation(&key(70), &floors(), &read_only, None, None).map(|_| ()),
        Err(Piv1Error::AccountNotWritable)
    );
}

#[test]
fn repeated_zero_guardian_allocation_conserves_the_carry() {
    let mut carry = u64::MAX;
    let mut compounded: u128 = 0;
    for _ in 0..65 {
        match allocate_kif(0, carry, 0).unwrap() {
            KifAllocation::ZeroActiveGuardians(z) => {
                assert_eq!(z.kif_available, carry);
                assert_eq!(z.compound_from_kif + z.carry_next, carry);
                assert!(z.carry_next <= carry);
                compounded += u128::from(z.compound_from_kif);
                carry = z.carry_next;
            }
            KifAllocation::ActiveGuardians(_) => panic!("zero guardians"),
        }
    }
    assert_eq!(carry, 1);
    assert_eq!(compounded + 1, u128::from(u64::MAX));
}
