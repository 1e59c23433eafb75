//! Plain-value observations of runtime accounts and the checks shared by every
//! authenticated read: program identities, fixed seeds and state envelopes,
//! canonical program-derived addresses, native funding and token custody.
//!
//! The executing program ID and the rent floors are trusted runtime inputs.
//! Decoding a state payload into its typed value happens outside this crate;
//! here the envelope around it is framed and checked byte by byte.

use crate::address::{spec_from_bytes, word_byte, Pubkey};
use crate::codec::write_u64_le;
use crate::errors::{Piv1Error, Piv1Result};
use crate::state::config::PivConfig;
use crate::state::reconciliation::SolVaultBalance;
use anchor_lang::solana_program::program_pack::Pack;
use vstd::prelude::*;
use vstd::slice::slice_to_vec;

verus! {

/// The System program's address (all zero bytes).
pub open spec fn system_program_key() -> Pubkey {
    Pubkey { w0: 0, w1: 0, w2: 0, w3: 0 }
}

/// The legacy Token program's address.
pub open spec fn token_program_key() -> Pubkey {
    Pubkey { w0: 0x93a165d7e1f6dd06, w1: 0xac79ebce46e1cbd9, w2: 0x91375b5fed85b41c, w3: 0xa900ff7e85f58c3a }
}

/// The Stake program's address, `Stake11111111111111111111111111111111111111`.
pub open spec fn stake_program_key() -> Pubkey {
    Pubkey { w0: 0x2a54379117d8a106, w1: 0xb27a2afebd373498, w2: 0x2b72788a5c537f55, w3: 0xc09da468 }
}

/// The Clock sysvar's address.
pub open spec fn clock_sysvar_key() -> Pubkey {
    Pubkey { w0: 0xc974c71817d5a706, w1: 0xb65e1d6998635628, w2: 0x5c6d4b9ba3b85e8b, w3: 0x215b5573 }
}

/// The owner of every sysvar account.
pub open spec fn sysvar_owner_key() -> Pubkey {
    Pubkey { w0: 0x29f7751817d5a706, w1: 0x2061218f40933dc7, w2: 0x288ce0768cd87e06, w3: 0x6094c17f }
}

/// `system_program::ID`, declared as `11111111111111111111111111111111`:
/// thirty-two zero bytes.
#[verifier::external_body]
fn system_program_bytes() -> (r: [u8; 32])
    ensures
        r@ == system_program_key().bytes(),
{
    anchor_lang::solana_program::system_program::ID.to_bytes()
}

/// `spl_token::ID`, declared as `TokenkegQfeZyiNwAJbNbGKPFXCWuBvf9Ss623VQ5DA`;
/// the contract states the 32 bytes that this base-58 text decodes to.
#[verifier::external_body]
fn token_program_bytes() -> (r: [u8; 32])
    ensures
        r@ == token_program_key().bytes(),
{
    spl_token::ID.to_bytes()
}

/// `sysvar::clock::ID`, declared as `SysvarC1ock11111111111111111111111111111111`;
/// the contract states the 32 bytes that this base-58 text decodes to.
#[verifier::external_body]
fn clock_sysvar_bytes() -> (r: [u8; 32])
    ensures
        r@ == clock_sysvar_key().bytes(),
{
    anchor_lang::solana_program::sysvar::clock::ID.to_bytes()
}

/// `sysvar::ID`, declared as `Sysvar1111111111111111111111111111111111111`;
/// the contract states the 32 bytes that this base-58 text decodes to.
#[verifier::external_body]
fn sysvar_owner_bytes() -> (r: [u8; 32])
    ensures
        r@ == sysvar_owner_key().bytes(),
{
    anchor_lang::solana_program::sysvar::ID.to_bytes()
}

/// The System program's address.
pub fn system_program_id() -> (r: Pubkey)
    ensures
        r == system_program_key(),
{
    let b = system_program_bytes();
    let r = Pubkey::new_from_array(b);
    proof {
        crate::address::lemma_bytes_roundtrip(system_program_key());
    }
    r
}

/// The legacy Token program's address.
pub fn token_program_id() -> (r: Pubkey)
    ensures
        r == token_program_key(),
{
    let b = token_program_bytes();
    let r = Pubkey::new_from_array(b);
    proof {
        crate::address::lemma_bytes_roundtrip(token_program_key());
    }
    r
}

/// The Stake program's address.
pub fn stake_program_id() -> (r: Pubkey)
    ensures
        r == stake_program_key(),
{
    Pubkey { w0: 0x2a54379117d8a106, w1: 0xb27a2afebd373498, w2: 0x2b72788a5c537f55, w3: 0xc09da468 }
}

/// The Clock sysvar's address.
pub fn clock_sysvar_id() -> (r: Pubkey)
    ensures
        r == clock_sysvar_key(),
{
    let b = clock_sysvar_bytes();
    let r = Pubkey::new_from_array(b);
    proof {
        crate::address::lemma_bytes_roundtrip(clock_sysvar_key());
    }
    r
}

/// The owner of every sysvar account.
pub fn sysvar_owner_id() -> (r: Pubkey)
    ensures
        r == sysvar_owner_key(),
{
    let b = sysvar_owner_bytes();
    let r = Pubkey::new_from_array(b);
    proof {
        crate::address::lemma_bytes_roundtrip(sysvar_owner_key());
    }
    r
}

/// An executing program may be none of the three programs whose accounts it reads.
pub open spec fn spec_program(program: Pubkey) -> Piv1Result<()> {
    if program == system_program_key() || program == token_program_key() || program == stake_program_key() {
        Err(Piv1Error::InvalidProgramIdentity)
    } else {
        Ok(())
    }
}

/// Rejects the System, Token and Stake programs as the executing program.
pub fn validate_program(program: &Pubkey) -> (r: Piv1Result<()>)
    ensures
        r == spec_program(*program),
{
    if *program == system_program_id() || *program == token_program_id() || *program == stake_program_id() {
        return Err(Piv1Error::InvalidProgramIdentity);
    }
    Ok(())
}

/// Fixed seed roles of the program-derived addresses.
#[derive(Clone, Copy, Debug, PartialEq, Eq, Structural)]
pub enum Seed {
    Config,
    Authority,
    Distribution,
    PendingSol,
    PrincipalSol,
    OperationalSol,
    DistributionEscrow,
    KifSol,
    PrincipalJito,
    PendingJito,
    GuardianRegistry,
    GuardianReward,
}

impl Seed {
    /// The seed's bytes: the role's name in ASCII.
    pub open spec fn spec_bytes(self) -> Seq<u8> {
        match self {
            Seed::Config => seq![99u8, 111, 110, 102, 105, 103],
            Seed::Authority => seq![97u8, 117, 116, 104, 111, 114, 105, 116, 121],
            Seed::Distribution => seq![100u8, 105, 115, 116, 114, 105, 98, 117, 116, 105, 111, 110],
            Seed::PendingSol => seq![112u8, 101, 110, 100, 105, 110, 103, 45, 115, 111, 108],
            Seed::PrincipalSol => seq![112u8, 114, 105, 110, 99, 105, 112, 97, 108, 45, 115, 111, 108],
            Seed::OperationalSol => seq![111u8, 112, 101, 114, 97, 116, 105, 111, 110, 97, 108, 45, 115, 111, 108],
            Seed::DistributionEscrow => seq![
                100u8, 105, 115, 116, 114, 105, 98, 117, 116, 105, 111, 110, 45, 101, 115, 99, 114, 111, 119,
            ],
            Seed::KifSol => seq![107u8, 105, 102, 45, 115, 111, 108],
            Seed::PrincipalJito => seq![
                112u8, 114, 105, 110, 99, 105, 112, 97, 108, 45, 106, 105, 116, 111, 45, 118, 97, 117, 108, 116,
            ],
            Seed::PendingJito => seq![112u8, 101, 110, 100, 105, 110, 103, 45, 106, 105, 116, 111, 45, 118, 97, 117, 108, 116],
            Seed::GuardianRegistry => seq![103u8, 117, 97, 114, 100, 105, 97, 110, 45, 114, 101, 103, 105, 115, 116, 114, 121],
            Seed::GuardianReward => seq![103u8, 117, 97, 114, 100, 105, 97, 110, 45, 114, 101, 119, 97, 114, 100],
        }
    }

    /// The seed's bytes.
    pub fn bytes(self) -> (r: Vec<u8>)
        ensures
            r@ == self.spec_bytes(),
    {
        let r = match self {
            Seed::Config => vec![99u8, 111, 110, 102, 105, 103],
            Seed::Authority => vec![97u8, 117, 116, 104, 111, 114, 105, 116, 121],
            Seed::Distribution => vec![100u8, 105, 115, 116, 114, 105, 98, 117, 116, 105, 111, 110],
            Seed::PendingSol => vec![112u8, 101, 110, 100, 105, 110, 103, 45, 115, 111, 108],
            Seed::PrincipalSol => vec![112u8, 114, 105, 110, 99, 105, 112, 97, 108, 45, 115, 111, 108],
            Seed::OperationalSol => vec![111u8, 112, 101, 114, 97, 116, 105, 111, 110, 97, 108, 45, 115, 111, 108],
            Seed::DistributionEscrow => vec![
                100u8, 105, 115, 116, 114, 105, 98, 117, 116, 105, 111, 110, 45, 101, 115, 99, 114, 111, 119,
            ],
            Seed::KifSol => vec![107u8, 105, 102, 45, 115, 111, 108],
            Seed::PrincipalJito => vec![
                112u8, 114, 105, 110, 99, 105, 112, 97, 108, 45, 106, 105, 116, 111, 45, 118, 97, 117, 108, 116,
            ],
            Seed::PendingJito => vec![112u8, 101, 110, 100, 105, 110, 103, 45, 106, 105, 116, 111, 45, 118, 97, 117, 108, 116],
            Seed::GuardianRegistry => vec![103u8, 117, 97, 114, 100, 105, 97, 110, 45, 114, 101, 103, 105, 115, 116, 114, 121],
            Seed::GuardianReward => vec![103u8, 117, 97, 114, 100, 105, 97, 110, 45, 114, 101, 119, 97, 114, 100],
        };
        proof {
            assert(r@ =~= self.spec_bytes());
        }
        r
    }
}

/// The four kinds of fixed-size program state accounts.
#[derive(Clone, Copy, Debug, PartialEq, Eq, Structural)]
pub enum StateKind {
    Config,
    Distribution,
    Registry,
    Reward,
}

impl StateKind {
    /// Exact allocation: eight discriminator bytes and the maximal payload.
    pub open spec fn spec_space(self) -> usize {
        match self {
            StateKind::Config => 1014,
            StateKind::Distribution => 891,
            StateKind::Registry => 210,
            StateKind::Reward => 84,
        }
    }

    /// Exact allocation: eight discriminator bytes and the maximal payload.
    pub fn space(self) -> (r: usize)
        ensures
            r == self.spec_space(),
    {
        match self {
            StateKind::Config => 1014,
            StateKind::Distribution => 891,
            StateKind::Registry => 210,
            StateKind::Reward => 84,
        }
    }

    /// First eight bytes of SHA-256 of `account:` followed by the type's name.
    pub open spec fn spec_discriminator(self) -> Seq<u8> {
        match self {
            StateKind::Config => seq![98u8, 115, 11, 164, 170, 207, 163, 20],
            StateKind::Distribution => seq![104u8, 51, 125, 187, 226, 55, 209, 99],
            StateKind::Registry => seq![72u8, 14, 254, 2, 76, 233, 97, 92],
            StateKind::Reward => seq![169u8, 109, 89, 17, 75, 171, 105, 39],
        }
    }

    /// First eight bytes of SHA-256 of `account:` followed by the type's name.
    pub fn discriminator(self) -> (r: [u8; 8])
        ensures
            r@ == self.spec_discriminator(),
    {
        let r: [u8; 8] = match self {
            StateKind::Config => [98u8, 115, 11, 164, 170, 207, 163, 20],
            StateKind::Distribution => [104u8, 51, 125, 187, 226, 55, 209, 99],
            StateKind::Registry => [72u8, 14, 254, 2, 76, 233, 97, 92],
            StateKind::Reward => [169u8, 109, 89, 17, 75, 171, 105, 39],
        };
        proof {
            assert(r@ =~= self.spec_discriminator());
        }
        r
    }
}

/// Plain-value observation of one runtime account.
#[derive(Clone, Debug)]
pub struct AccountView {
    pub key: Pubkey,
    pub owner: Pubkey,
    pub executable: bool,
    pub is_signer: bool,
    pub is_writable: bool,
    /// Lamport balance; `None` where the lamport cell could not be borrowed.
    pub lamports: Option<u64>,
    /// Data bytes; `None` where the data cell could not be borrowed.
    pub data: Option<Vec<u8>>,
}

/// Owner and executable checks of an account header.
pub open spec fn spec_header(account: AccountView, owner: Pubkey) -> Piv1Result<()> {
    if account.owner != owner {
        Err(Piv1Error::InvalidAccountOwner)
    } else if account.executable {
        Err(Piv1Error::ExecutableAccount)
    } else {
        Ok(())
    }
}

/// Requires the given program owner and a non-executable account.
pub fn validate_header(account: &AccountView, owner: &Pubkey) -> (r: Piv1Result<()>)
    ensures
        r == spec_header(*account, *owner),
{
    if account.owner != *owner {
        return Err(Piv1Error::InvalidAccountOwner);
    }
    if account.executable {
        return Err(Piv1Error::ExecutableAccount);
    }
    Ok(())
}

/// Lamports covering the given rent floor.
pub open spec fn spec_native_funding(account: AccountView, floor: u64) -> Piv1Result<SolVaultBalance> {
    match account.lamports {
        None => Err(Piv1Error::AccountBorrowFailed),
        Some(lamports) => if lamports < floor {
            Err(Piv1Error::AccountRentDeficit)
        } else {
            Ok(SolVaultBalance { lamports, non_economic_floor_lamports: floor })
        },
    }
}

/// Reads the lamports and requires that they cover `floor`.
pub fn native_funding(account: &AccountView, floor: u64) -> (r: Piv1Result<SolVaultBalance>)
    ensures
        r == spec_native_funding(*account, floor),
{
    match account.lamports {
        None => Err(Piv1Error::AccountBorrowFailed),
        Some(lamports) => {
            if lamports < floor {
                return Err(Piv1Error::AccountRentDeficit);
            }
            Ok(SolVaultBalance { lamports, non_economic_floor_lamports: floor })
        },
    }
}

/// Length of a decoded payload, if it decoded.
pub open spec fn payload_len<T>(decoded: Option<(T, usize)>) -> Option<usize> {
    match decoded {
        None => None,
        Some(d) => Some(d.1),
    }
}

/// Every byte of `data` from `from` on is zero.
pub open spec fn zero_tail(data: Seq<u8>, from: int) -> bool {
    forall|i: int| from <= i < data.len() ==> data[i] == 0
}

/// Checks of a state envelope around a payload that decoded in `payload_len`
/// bytes (`None`: it did not decode).
pub open spec fn spec_state_envelope(
    account: AccountView,
    program: Pubkey,
    kind: StateKind,
    payload_len: Option<usize>,
    floor: Piv1Result<u64>,
) -> Piv1Result<()> {
    match spec_header(account, program) {
        Err(e) => Err(e),
        Ok(_) => match account.data {
            None => Err(Piv1Error::AccountBorrowFailed),
            Some(data) => if data@.len() != kind.spec_space() {
                Err(Piv1Error::InvalidAccountSize)
            } else if data@.subrange(0, 8) != kind.spec_discriminator() {
                Err(Piv1Error::InvalidAccountDiscriminator)
            } else {
                match payload_len {
                    None => Err(Piv1Error::InvalidAccountData),
                    Some(n) => if 8 + n > data@.len() || !zero_tail(data@, 8 + n) {
                        Err(Piv1Error::InvalidAccountData)
                    } else {
                        match floor {
                            Err(e) => Err(e),
                            Ok(f) => match spec_native_funding(account, f) {
                                Err(e) => Err(e),
                                Ok(_) => Ok(()),
                            },
                        }
                    },
                }
            },
        },
    }
}

/// Frames a program state account: owner, size, discriminator, the zero tail
/// after the decoded payload, and rent-exempt funding.
#[verifier::loop_isolation(false)]
pub fn check_state_envelope(
    account: &AccountView,
    program: &Pubkey,
    kind: StateKind,
    payload_len: Option<usize>,
    floor: Piv1Result<u64>,
) -> (r: Piv1Result<()>)
    ensures
        r == spec_state_envelope(*account, *program, kind, payload_len, floor),
{
    validate_header(account, program)?;
    let data = match &account.data {
        None => return Err(Piv1Error::AccountBorrowFailed),
        Some(data) => data,
    };
    if data.len() != kind.space() {
        return Err(Piv1Error::InvalidAccountSize);
    }
    let expected = kind.discriminator();
    let mut j: usize = 0;
    while j < 8
        invariant
            j <= 8,
            data@.len() == kind.spec_space(),
            expected@ == kind.spec_discriminator(),
            forall|k: int| 0 <= k < j ==> data@[k] == expected@[k],
        decreases 8 - j,
    {
        if data[j] != expected[j] {
            proof {
                assert(data@.subrange(0, 8)[j as int] == data@[j as int]);
                assert(data@.subrange(0, 8)[j as int] != kind.spec_discriminator()[j as int]);
                assert(data@.subrange(0, 8) != kind.spec_discriminator());
            }
            return Err(Piv1Error::InvalidAccountDiscriminator);
        }
        j = j + 1;
    }
    assert(data@.subrange(0, 8) =~= kind.spec_discriminator());
    let n = match payload_len {
        None => return Err(Piv1Error::InvalidAccountData),
        Some(n) => n,
    };
    if n > data.len() - 8 {
        return Err(Piv1Error::InvalidAccountData);
    }
    let mut i: usize = 8 + n;
    while i < data.len()
        invariant
            8 + n <= i <= data@.len(),
            forall|k: int| 8 + n <= k < i ==> data@[k] == 0,
        decreases data@.len() - i,
    {
        if data[i] != 0 {
            assert(data@[i as int] != 0);
            assert(!zero_tail(data@, 8 + n));
            return Err(Piv1Error::InvalidAccountData);
        }
        i = i + 1;
    }
    let f = floor?;
    native_funding(account, f)?;
    Ok(())
}

/// Checks of an empty, System-owned native vault at the expected address.
pub open spec fn spec_native_balance(account: AccountView, key: Pubkey, floor: u64) -> Piv1Result<SolVaultBalance> {
    if account.key != key {
        Err(Piv1Error::InvalidAccountPda)
    } else {
        match spec_header(account, system_program_key()) {
            Err(e) => Err(e),
            Ok(_) => match account.data {
                None => Err(Piv1Error::AccountBorrowFailed),
                Some(data) => if data@.len() != 0 {
                    Err(Piv1Error::InvalidAccountSize)
                } else {
                    spec_native_funding(account, floor)
                },
            },
        }
    }
}

/// Reads a native vault: the expected address, System owner, no data, and
/// lamports covering `floor`.
pub fn native_balance(account: &AccountView, key: &Pubkey, floor: u64) -> (r: Piv1Result<SolVaultBalance>)
    ensures
        r == spec_native_balance(*account, *key, floor),
{
    if account.key != *key {
        return Err(Piv1Error::InvalidAccountPda);
    }
    validate_header(account, &system_program_id())?;
    match &account.data {
        None => return Err(Piv1Error::AccountBorrowFailed),
        Some(data) => {
            if data.len() != 0 {
                return Err(Piv1Error::InvalidAccountSize);
            }
        },
    }
    native_funding(account, floor)
}

/// The address and bump that `Pubkey::try_find_program_address` finds for the
/// given seeds under the given program, `None` where no bump gives an
/// off-curve address.
pub uninterp spec fn derived_address(seeds: Seq<Seq<u8>>, program: Seq<u8>) -> Option<(Seq<u8>, u8)>;

/// `Pubkey::try_find_program_address`: the search, from bump 255 down, for the
/// first off-curve SHA-256 address of the seeds, the bump, the program and the
/// PDA marker. The contract names its result and claims only that it depends
/// on the seeds and the program alone.
#[verifier::external_body]
fn try_find_program_address(seeds: &Vec<Vec<u8>>, program: [u8; 32]) -> (r: Option<([u8; 32], u8)>)
    ensures
        match r {
            Some(found) => derived_address(seeds.deep_view(), program@) == Some((found.0@, found.1)),
            None => derived_address(seeds.deep_view(), program@) is None,
        },
{
    let parts: Vec<&[u8]> = seeds.iter().map(|seed| seed.as_slice()).collect();
    let program = anchor_lang::prelude::Pubkey::new_from_array(program);
    anchor_lang::prelude::Pubkey::try_find_program_address(&parts, &program)
        .map(|(key, bump)| (key.to_bytes(), bump))
}

/// The canonical derivation of `seeds` under `program` as an address and bump.
pub open spec fn spec_derive(seeds: Seq<Seq<u8>>, program: Pubkey) -> Option<(Pubkey, u8)> {
    match derived_address(seeds, program.bytes()) {
        None => None,
        Some(found) => Some((spec_from_bytes(found.0), found.1)),
    }
}

/// The bytes of a key, as one seed.
pub fn key_seed(key: &Pubkey) -> (r: Vec<u8>)
    ensures
        r@ == key.bytes(),
{
    let bytes = key.to_bytes();
    slice_to_vec(bytes.as_slice())
}

/// The canonical derivation of `seeds` under `program`, if one exists.
pub fn derive_address(seeds: &Vec<Vec<u8>>, program: &Pubkey) -> (r: Option<(Pubkey, u8)>)
    ensures
        r == spec_derive(seeds.deep_view(), *program),
        match derived_address(seeds.deep_view(), program.bytes()) {
            None => r is None,
            Some(found) => r == Some((spec_from_bytes(found.0), found.1)),
        },
{
    match try_find_program_address(seeds, program.to_bytes()) {
        None => None,
        Some((key, bump)) => Some((Pubkey::new_from_array(key), bump)),
    }
}

/// `key` and `bump` are the canonical derivation of `seeds` under `program`.
pub open spec fn spec_pda(program: Pubkey, key: Pubkey, seeds: Seq<Seq<u8>>, bump: u8) -> Piv1Result<()> {
    match derived_address(seeds, program.bytes()) {
        None => Err(Piv1Error::InvalidAccountPda),
        Some(found) => if key == spec_from_bytes(found.0) && bump == found.1 {
            Ok(())
        } else {
            Err(Piv1Error::InvalidAccountPda)
        },
    }
}

/// Requires `key` and `bump` to be the canonical derivation of `seeds`.
pub fn validate_seeds(program: &Pubkey, key: &Pubkey, seeds: &Vec<Vec<u8>>, bump: u8) -> (r: Piv1Result<()>)
    ensures
        r == spec_pda(*program, *key, seeds.deep_view(), bump),
{
    let found = try_find_program_address(seeds, program.to_bytes());
    match found {
        None => Err(Piv1Error::InvalidAccountPda),
        Some((expected, canonical_bump)) => {
            if *key != Pubkey::new_from_array(expected) || bump != canonical_bump {
                return Err(Piv1Error::InvalidAccountPda);
            }
            Ok(())
        },
    }
}

/// Requires `key` and `bump` to be the canonical derivation of one fixed seed.
pub fn validate_pda(program: &Pubkey, key: &Pubkey, seed: Seed, bump: u8) -> (r: Piv1Result<()>)
    ensures
        r == spec_pda(*program, *key, seq![seed.spec_bytes()], bump),
{
    let seeds = vec![seed.bytes()];
    proof {
        assert(seeds@.len() == 1);
        assert(seeds@[0].deep_view() =~= seed.spec_bytes());
        assert(seeds.deep_view() =~= seq![seed.spec_bytes()]);
    }
    validate_seeds(program, key, &seeds, bump)
}

/// Fields of a legacy Token account as the Token program lays them out.
#[derive(Clone, Copy, Debug, PartialEq, Eq)]
pub struct TokenAccountFields {
    pub mint: [u8; 32],
    pub owner: [u8; 32],
    pub amount: u64,
    pub delegate: Option<[u8; 32]>,
    /// Account state: 0 uninitialized, 1 initialized, 2 frozen.
    pub state: u8,
    pub is_native: Option<u64>,
    pub delegated_amount: u64,
    pub close_authority: Option<[u8; 32]>,
}

/// What `spl_token::state::Account::unpack` reads from the given bytes;
/// `None` where it returns an error.
pub uninterp spec fn token_account_unpack(data: Seq<u8>) -> Option<TokenAccountFields>;

/// `spl_token::state::Account::unpack`: the 165-byte Token account layout,
/// refusing other lengths, unknown option tags or states, and uninitialized
/// accounts. The contract names its result as a function of the bytes alone.
#[verifier::external_body]
pub(crate) fn unpack_token_account(data: &Vec<u8>) -> (r: Option<TokenAccountFields>)
    ensures
        r == token_account_unpack(data@),
{
    let a = spl_token::state::Account::unpack(data.as_slice()).ok()?;
    Some(TokenAccountFields {
        mint: a.mint.to_bytes(),
        owner: a.owner.to_bytes(),
        amount: a.amount,
        delegate: Option::from(a.delegate).map(|k: anchor_lang::prelude::Pubkey| k.to_bytes()),
        state: a.state as u8,
        is_native: Option::from(a.is_native),
        delegated_amount: a.delegated_amount,
        close_authority: Option::from(a.close_authority).map(|k: anchor_lang::prelude::Pubkey| k.to_bytes()),
    })
}

/// Custody restrictions on an unpacked Token account: the given mint and
/// owner, initialized, not native, and no delegate or close authority.
pub open spec fn spec_token_custody(fields: Option<TokenAccountFields>, mint: Pubkey, owner: Pubkey) -> Piv1Result<u64> {
    match fields {
        None => Err(Piv1Error::InvalidTokenCustody),
        Some(f) => if spec_from_bytes(f.mint@) != mint || spec_from_bytes(f.owner@) != owner || f.state != 1
            || f.is_native is Some || f.delegate is Some || f.delegated_amount != 0 || f.close_authority is Some {
            Err(Piv1Error::InvalidTokenCustody)
        } else {
            Ok(f.amount)
        },
    }
}

/// Applies the custody restrictions to an unpacked Token account and returns
/// its token units.
pub fn validate_token_custody(fields: Option<TokenAccountFields>, mint: &Pubkey, owner: &Pubkey) -> (r: Piv1Result<u64>)
    ensures
        r == spec_token_custody(fields, *mint, *owner),
{
    let token = match fields {
        None => return Err(Piv1Error::InvalidTokenCustody),
        Some(token) => token,
    };
    if Pubkey::new_from_array(token.mint) != *mint || Pubkey::new_from_array(token.owner) != *owner
        || token.state != 1 || token.is_native.is_some() || token.delegate.is_some()
        || token.delegated_amount != 0 || token.close_authority.is_some() {
        return Err(Piv1Error::InvalidTokenCustody);
    }
    Ok(token.amount)
}

/// Token units and native account funding are separate dimensions.
#[derive(Clone, Copy, Debug, PartialEq, Eq, Structural)]
pub struct TokenVaultBalance {
    pub token_units: u64,
    /// Native balance and runtime-derived rent floor, never JitoSOL units.
    pub native: SolVaultBalance,
}

/// Checks of a Token custody account at the expected address.
pub open spec fn spec_token_balance(account: AccountView, key: Pubkey, mint: Pubkey, owner: Pubkey, floor: u64) -> Piv1Result<TokenVaultBalance> {
    if account.key != key {
        Err(Piv1Error::InvalidAccountPda)
    } else {
        match spec_header(account, token_program_key()) {
            Err(e) => Err(e),
            Ok(_) => match account.data {
                None => Err(Piv1Error::AccountBorrowFailed),
                Some(data) => if data@.len() != 165 {
                    Err(Piv1Error::InvalidAccountSize)
                } else {
                    match spec_token_custody(token_account_unpack(data@), mint, owner) {
                        Err(e) => Err(e),
                        Ok(units) => match spec_native_funding(account, floor) {
                            Err(e) => Err(e),
                            Ok(native) => Ok(TokenVaultBalance { token_units: units, native }),
                        },
                    }
                },
            },
        }
    }
}

/// Reads a JitoSOL custody account: the expected address, Token owner, the
/// exact 165-byte layout, the custody restrictions, and rent funding.
pub fn token_balance(account: &AccountView, key: &Pubkey, config: &PivConfig, floor: u64) -> (r: Piv1Result<TokenVaultBalance>)
    ensures
        r == spec_token_balance(*account, *key, config.jitosol_mint, config.piv_authority, floor),
{
    if account.key != *key {
        return Err(Piv1Error::InvalidAccountPda);
    }
    validate_header(account, &token_program_id())?;
    let data = match &account.data {
        None => return Err(Piv1Error::AccountBorrowFailed),
        Some(data) => data,
    };
    if data.len() != 165 {
        return Err(Piv1Error::InvalidAccountSize);
    }
    let units = validate_token_custody(unpack_token_account(data), &config.jitosol_mint, &config.piv_authority)?;
    let native = native_funding(account, floor)?;
    Ok(TokenVaultBalance { token_units: units, native })
}

/// Integer inputs of the runtime rent parameters. Whether the floating-point
/// exemption threshold is finite and non-negative is observed by the caller.
#[derive(Clone, Copy, Debug, PartialEq, Eq, Structural)]
pub struct RentParameters {
    pub lamports_per_byte_year: u64,
    pub exemption_threshold_valid: bool,
    pub burn_percent: u8,
}

/// Account storage overhead, in bytes, that rent charges for every account.
pub const RENT_STORAGE_OVERHEAD: u64 = 128;

/// The rent floor accepted for `data_len` bytes, given the runtime's
/// rent-exempt minimum balance for that size.
pub open spec fn spec_rent_floor(rent: RentParameters, data_len: usize, minimum_balance: u64) -> Piv1Result<u64> {
    if !rent.exemption_threshold_valid || rent.burn_percent > 100 {
        Err(Piv1Error::InvalidRent)
    } else if RENT_STORAGE_OVERHEAD + data_len > u64::MAX
        || (RENT_STORAGE_OVERHEAD + data_len) * rent.lamports_per_byte_year > u64::MAX {
        Err(Piv1Error::ArithmeticOverflow)
    } else if minimum_balance == u64::MAX {
        Err(Piv1Error::ArithmeticOverflow)
    } else {
        Ok(minimum_balance)
    }
}

/// Checks the integer preconditions of rent pricing and refuses a saturated
/// minimum; the minimum itself is the runtime's rent-exempt balance.
pub fn rent_floor(rent: RentParameters, data_len: usize, minimum_balance: u64) -> (r: Piv1Result<u64>)
    ensures
        r == spec_rent_floor(rent, data_len, minimum_balance),
{
    if !rent.exemption_threshold_valid || rent.burn_percent > 100 {
        return Err(Piv1Error::InvalidRent);
    }
    let bytes: u64 = data_len as u64;
    let storage = match RENT_STORAGE_OVERHEAD.checked_add(bytes) {
        None => return Err(Piv1Error::ArithmeticOverflow),
        Some(n) => n,
    };
    if storage.checked_mul(rent.lamports_per_byte_year).is_none() {
        return Err(Piv1Error::ArithmeticOverflow);
    }
    if minimum_balance == u64::MAX {
        return Err(Piv1Error::ArithmeticOverflow);
    }
    Ok(minimum_balance)
}

/// Checked rent floors for every fixed allocation size.
#[derive(Clone, Copy, Debug, PartialEq, Eq)]
pub struct RentFloors {
    /// Data-less native vaults.
    pub native: Piv1Result<u64>,
    /// 165-byte Token accounts.
    pub token_account: Piv1Result<u64>,
    pub config: Piv1Result<u64>,
    pub distribution: Piv1Result<u64>,
    pub registry: Piv1Result<u64>,
    pub reward: Piv1Result<u64>,
}

impl RentFloors {
    /// The floor for a state account of the given kind.
    pub open spec fn spec_state(self, kind: StateKind) -> Piv1Result<u64> {
        match kind {
            StateKind::Config => self.config,
            StateKind::Distribution => self.distribution,
            StateKind::Registry => self.registry,
            StateKind::Reward => self.reward,
        }
    }

    /// The floor for a state account of the given kind.
    pub fn state(&self, kind: StateKind) -> (r: Piv1Result<u64>)
        ensures
            r == self.spec_state(kind),
    {
        match kind {
            StateKind::Config => self.config,
            StateKind::Distribution => self.distribution,
            StateKind::Registry => self.registry,
            StateKind::Reward => self.reward,
        }
    }
}

/// No two of the keys are equal.
pub open spec fn keys_distinct(keys: Seq<Pubkey>) -> bool {
    forall|i: int, j: int| 0 <= i < j < keys.len() ==> keys[i] != keys[j]
}

/// Whether no two of the keys are equal.
pub fn distinct_keys(keys: &[Pubkey]) -> (r: bool)
    ensures
        r == keys_distinct(keys@),
{
    let n = keys.len();
    let mut i: usize = 0;
    while i < n
        invariant
            i <= n,
            n == keys@.len(),
            forall|a: int, b: int| 0 <= a < i && a < b < n ==> keys@[a] != keys@[b],
        decreases n - i,
    {
        let mut j: usize = i + 1;
        while j < n
            invariant
                i < n,
                i + 1 <= j <= n,
                n == keys@.len(),
                forall|a: int, b: int| 0 <= a < i && a < b < n ==> keys@[a] != keys@[b],
                forall|b: int| i < b < j ==> keys@[i as int] != keys@[b],
            decreases n - j,
        {
            if keys[i] == keys[j] {
                return false;
            }
            j = j + 1;
        }
        i = i + 1;
    }
    true
}

/// Whether `key` occurs among `keys`.
pub fn contains_key(keys: &[Pubkey], key: &Pubkey) -> (r: bool)
    ensures
        r == keys@.contains(*key),
{
    let n = keys.len();
    let mut i: usize = 0;
    while i < n
        invariant
            i <= n,
            n == keys@.len(),
            forall|a: int| 0 <= a < i ==> keys@[a] != *key,
        decreases n - i,
    {
        if keys[i] == *key {
            assert(keys@[i as int] == *key);
            return true;
        }
        i = i + 1;
    }
    false
}

/// The stored System, Token and Stake program bindings are the canonical ones.
pub open spec fn spec_program_bindings(config: PivConfig) -> Piv1Result<()> {
    if config.system_program != system_program_key() || config.token_program != token_program_key()
        || config.stake_program != stake_program_key() {
        Err(Piv1Error::InvalidProgramIdentity)
    } else {
        Ok(())
    }
}

/// Requires the stored System, Token and Stake program bindings to be canonical.
pub fn validate_program_bindings(config: &PivConfig) -> (r: Piv1Result<()>)
    ensures
        r == spec_program_bindings(*config),
{
    if config.system_program != system_program_id() || config.token_program != token_program_id()
        || config.stake_program != stake_program_id() {
        return Err(Piv1Error::InvalidProgramIdentity);
    }
    Ok(())
}

/// A validated configuration never holds the System program's all-zero
/// address, so it never passes the program-binding check.
pub proof fn lemma_valid_config_fails_program_bindings(config: PivConfig)
    requires
        config.valid(),
    ensures
        spec_program_bindings(config) == Err::<(), Piv1Error>(Piv1Error::InvalidProgramIdentity),
{
    assert(config.spec_bound_addresses()[7] == config.system_program);
}

/// The eight little-endian bytes of `x`.
pub open spec fn le_bytes(x: u64) -> Seq<u8> {
    Seq::new(8, |j: int| word_byte(x, j as u64) as u8)
}

/// Seeds of a guardian-reward address: the role prefix, the guardian's
/// bytes, the little-endian registry revision and the slot index.
pub open spec fn spec_reward_seeds(guardian: Pubkey, revision: u64, index: u8) -> Seq<Seq<u8>> {
    seq![Seed::GuardianReward.spec_bytes(), guardian.bytes(), le_bytes(revision), seq![index]]
}

/// Builds the seeds of a guardian-reward address.
pub fn reward_seeds(guardian: &Pubkey, revision: u64, index: u8) -> (r: Vec<Vec<u8>>)
    ensures
        r.deep_view() == spec_reward_seeds(*guardian, revision, index),
{
    let key = guardian.to_bytes();
    let mut le: [u8; 8] = [0u8; 8];
    write_u64_le(&mut le, 0, revision);
    let prefix = Seed::GuardianReward.bytes();
    let key_bytes = slice_to_vec(key.as_slice());
    let le_vec = slice_to_vec(le.as_slice());
    let index_vec = vec![index];
    proof {
        assert forall|j: int| 0 <= j < 8 implies le_vec@[j] == le_bytes(revision)[j] by {
            assert(le@[0 + j] == word_byte(revision, j as u64) as u8);
        }
        assert(le_vec@ =~= le_bytes(revision));
        assert(index_vec@ =~= seq![index]);
    }
    let r = vec![prefix, key_bytes, le_vec, index_vec];
    proof {
        assert(r@[0].deep_view() =~= r@[0]@);
        assert(r@[1].deep_view() =~= r@[1]@);
        assert(r@[2].deep_view() =~= r@[2]@);
        assert(r@[3].deep_view() =~= r@[3]@);
        assert(r.deep_view() =~= spec_reward_seeds(*guardian, revision, index));
    }
    r
}

} // verus!
