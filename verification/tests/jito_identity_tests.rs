//! Authentication of the seven Jito stake-pool and SPL identity accounts.

use anchor_lang::prelude::Pubkey as RuntimeKey;
use anchor_lang::solana_program::program_option::COption;
use anchor_lang::solana_program::program_pack::Pack;
use piv1::account_view::{stake_program_id, token_program_id, AccountView};
use piv1::address::Pubkey;
use piv1::integrations::jito_identity::{
    authenticate_jito_identity, check_jito_addresses_derivable, jito_stake_pool, jito_stake_pool_program,
    jitosol_mint, try_authenticate_jito_identity, upgradeable_loader, DeclaredJitoKeys, JitoIdentityAccountInfos,
    JitoIdentityError,
};

fn key(tag: u8) -> Pubkey {
    Pubkey::new_from_array([tag; 32])
}

fn runtime(key: Pubkey) -> RuntimeKey {
    RuntimeKey::new_from_array(key.to_bytes())
}

fn withdraw_authority() -> (Pubkey, u8) {
    let (address, bump) = RuntimeKey::find_program_address(
        &[&jito_stake_pool().to_bytes(), b"withdraw"],
        &runtime(jito_stake_pool_program()),
    );
    (Pubkey::new_from_array(address.to_bytes()), bump)
}

fn account(address: Pubkey, owner: Pubkey, data: Vec<u8>) -> AccountView {
    AccountView {
        key: address,
        owner,
        executable: false,
        is_signer: false,
        is_writable: false,
        lamports: Some(1_000_000_000),
        data: Some(data),
    }
}

fn declared() -> DeclaredJitoKeys {
    DeclaredJitoKeys {
        program: jito_stake_pool_program(),
        pool: jito_stake_pool(),
        validator_list: key(50),
        reserve: key(51),
        mint: jitosol_mint(),
        manager_fee: key(53),
        referrer: key(54),
    }
}

fn program_account() -> AccountView {
    let (data_address, _) = RuntimeKey::find_program_address(
        &[&jito_stake_pool_program().to_bytes()],
        &runtime(upgradeable_loader()),
    );
    let mut data = 2u32.to_le_bytes().to_vec();
    data.extend_from_slice(&data_address.to_bytes());
    let mut program = account(jito_stake_pool_program(), upgradeable_loader(), data);
    program.executable = true;
    program
}

fn pool_bytes(bump: u8) -> Vec<u8> {
    let declared = declared();
    let mut bytes = vec![1_u8];
    for tag in [1u8, 2, 3] {
        bytes.extend_from_slice(&[tag; 32]);
    }
    bytes.push(bump);
    for k in [declared.validator_list, declared.reserve, jitosol_mint(), declared.manager_fee, token_program_id()] {
        bytes.extend_from_slice(&k.to_bytes());
    }
    for value in [1_000_u64, 900, 77] {
        bytes.extend_from_slice(&value.to_le_bytes());
    }
    bytes.extend_from_slice(&[0; 48]);
    let fee = |bytes: &mut Vec<u8>, d: u64, n: u64| {
        bytes.extend_from_slice(&d.to_le_bytes());
        bytes.extend_from_slice(&n.to_le_bytes());
    };
    fee(&mut bytes, 100, 4);
    bytes.push(0);
    bytes.push(0);
    bytes.push(0);
    fee(&mut bytes, 0, 0);
    fee(&mut bytes, 1_000, 1);
    bytes.push(0);
    bytes.push(50);
    bytes.push(0);
    fee(&mut bytes, 10, 0);
    bytes.push(100);
    bytes.push(0);
    fee(&mut bytes, 1_000, 3);
    bytes.push(0);
    bytes.extend_from_slice(&880_u64.to_le_bytes());
    bytes.extend_from_slice(&990_u64.to_le_bytes());
    bytes
}

fn list_bytes() -> Vec<u8> {
    let mut bytes = vec![2_u8];
    bytes.extend_from_slice(&3_u32.to_le_bytes());
    bytes.extend_from_slice(&2_u32.to_le_bytes());
    bytes.resize(9 + 3 * 73, 0);
    bytes
}

fn reserve_bytes(authority: Pubkey) -> Vec<u8> {
    let mut bytes = 1_u32.to_le_bytes().to_vec();
    bytes.extend_from_slice(&2_282_880_u64.to_le_bytes());
    bytes.extend_from_slice(&authority.to_bytes());
    bytes.extend_from_slice(&authority.to_bytes());
    bytes.resize(200, 0);
    bytes
}

fn mint_bytes(authority: Pubkey, decimals: u8) -> Vec<u8> {
    let mint = spl_token::state::Mint {
        mint_authority: COption::Some(runtime(authority)),
        supply: 5,
        decimals,
        is_initialized: true,
        freeze_authority: COption::None,
    };
    let mut data = vec![0u8; spl_token::state::Mint::LEN];
    spl_token::state::Mint::pack(mint, &mut data).expect("pack mint");
    data
}

fn receiver_bytes(owner: Pubkey) -> Vec<u8> {
    let token = spl_token::state::Account {
        mint: runtime(jitosol_mint()),
        owner: runtime(owner),
        amount: 3,
        delegate: COption::None,
        state: spl_token::state::AccountState::Initialized,
        is_native: COption::None,
        delegated_amount: 0,
        close_authority: COption::None,
    };
    let mut data = vec![0u8; spl_token::state::Account::LEN];
    spl_token::state::Account::pack(token, &mut data).expect("pack receiver");
    data
}

fn accounts() -> JitoIdentityAccountInfos {
    let declared = declared();
    let (authority, bump) = withdraw_authority();
    JitoIdentityAccountInfos {
        program: program_account(),
        pool: account(declared.pool, jito_stake_pool_program(), pool_bytes(bump)),
        validator_list: account(declared.validator_list, jito_stake_pool_program(), list_bytes()),
        reserve: account(declared.reserve, stake_program_id(), reserve_bytes(authority)),
        mint: account(declared.mint, token_program_id(), mint_bytes(authority, 9)),
        manager_fee: account(declared.manager_fee, token_program_id(), receiver_bytes(key(60))),
        referrer: account(declared.referrer, token_program_id(), receiver_bytes(key(61))),
    }
}

#[test]
fn the_fixed_jito_accounts_authenticate() {
    assert!(check_jito_addresses_derivable());
    let identity = authenticate_jito_identity(&declared(), &accounts()).expect("identity");
    let (authority, bump) = withdraw_authority();
    assert_eq!(identity.withdraw_authority(), authority);
    assert_eq!(identity.pool().stake_withdraw_bump_seed(), bump);
    assert_eq!(identity.validator_list().maximum(), 3);
    assert_eq!(identity.validator_list().count(), 2);
    assert_eq!(identity.reserve().withdrawer(), authority);
    assert_eq!(identity.mint().decimals, 9);
    assert_eq!(identity.manager_fee().amount, 3);
    assert_eq!(*identity.keys(), declared());
    assert!(matches!(try_authenticate_jito_identity(&declared(), &accounts()), Some(Ok(_))));
}

#[test]
fn the_referrer_may_be_the_manager_fee_receiver_but_nothing_else_aliases() {
    let mut shared = declared();
    shared.referrer = shared.manager_fee;
    let mut views = accounts();
    views.referrer = views.manager_fee.clone();
    assert!(authenticate_jito_identity(&shared, &views).is_ok());
    let mut aliased = declared();
    aliased.referrer = aliased.reserve;
    let mut views = accounts();
    views.referrer.key = aliased.reserve;
    assert_eq!(authenticate_jito_identity(&aliased, &views).err(), Some(JitoIdentityError::AccountAlias));
}

#[test]
fn identity_failures_are_reported_in_order() {
    let mut wrong_pool = declared();
    wrong_pool.pool = key(9);
    assert_eq!(authenticate_jito_identity(&wrong_pool, &accounts()).err(), Some(JitoIdentityError::InvalidIdentity));
    let mut views = accounts();
    views.validator_list.key = key(99);
    assert_eq!(authenticate_jito_identity(&declared(), &views).err(), Some(JitoIdentityError::InvalidIdentity));
    let mut views = accounts();
    views.program.executable = false;
    assert_eq!(authenticate_jito_identity(&declared(), &views).err(), Some(JitoIdentityError::InvalidExecutable));
    let mut views = accounts();
    views.program.data = Some(vec![2, 0, 0, 0]);
    assert_eq!(authenticate_jito_identity(&declared(), &views).err(), Some(JitoIdentityError::UnsupportedProgram));
    let mut views = accounts();
    let (_, bump) = withdraw_authority();
    views.pool.data = Some(pool_bytes(bump.wrapping_sub(1)));
    assert_eq!(authenticate_jito_identity(&declared(), &views).err(), Some(JitoIdentityError::InvalidPool));
    let mut views = accounts();
    views.reserve.owner = key(1);
    assert_eq!(authenticate_jito_identity(&declared(), &views).err(), Some(JitoIdentityError::InvalidOwner));
    let mut views = accounts();
    let (authority, _) = withdraw_authority();
    views.mint.data = Some(mint_bytes(authority, 6));
    assert_eq!(authenticate_jito_identity(&declared(), &views).err(), Some(JitoIdentityError::InvalidMint));
    let mut views = accounts();
    views.mint.data = Some(mint_bytes(key(3), 9));
    assert_eq!(authenticate_jito_identity(&declared(), &views).err(), Some(JitoIdentityError::InvalidMint));
    let mut views = accounts();
    views.referrer.data = Some(vec![0; 165]);
    assert_eq!(authenticate_jito_identity(&declared(), &views).err(), Some(JitoIdentityError::InvalidReceiver));
    let mut views = accounts();
    views.manager_fee.data = None;
    assert_eq!(authenticate_jito_identity(&declared(), &views).err(), Some(JitoIdentityError::BorrowFailed));
}
