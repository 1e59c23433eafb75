//! Decoding of the Jito stake-pool, validator-list and reserve account data
//! into raw identity facts. Epochs, supplies, fees, preferences and optional
//! authorities stay raw; no quote, fee conversion or funding is derived.

use crate::account_view::{
    derived_address, derive_address, stake_program_id, stake_program_key, token_account_unpack,
    token_program_id, token_program_key, unpack_token_account, AccountView, TokenAccountFields,
};
use crate::address::{pack_at, spec_from_bytes, Pubkey};
use anchor_lang::solana_program::program_pack::Pack;
use crate::codec::{key_at, read_key, read_u64_le};
use vstd::prelude::*;
use vstd::slice::slice_to_vec;

verus! {

/// Why identity evidence was refused.
#[derive(Clone, Copy, Debug, PartialEq, Eq, Structural)]
pub enum JitoIdentityError {
    InvalidIdentity,
    AccountAlias,
    InvalidOwner,
    InvalidExecutable,
    BorrowFailed,
    UnsupportedProgram,
    InvalidPool,
    InvalidFee,
    InvalidList,
    InvalidReserve,
    InvalidMint,
    InvalidReceiver,
}

/// Result of identity decoding.
pub type JitoIdentityResult<T> = Result<T, JitoIdentityError>;

/// Raw upstream fee encoding; valid zero encodings are kept as they are.
#[derive(Clone, Copy, Debug, PartialEq, Eq, Structural)]
pub struct RawFee {
    pub denominator: u64,
    pub numerator: u64,
}

/// A fee scheduled for one or two epochs ahead, or none.
#[derive(Clone, Copy, Debug, PartialEq, Eq, Structural)]
pub enum FutureFee {
    Absent,
    One(RawFee),
    Two(RawFee),
}

/// Raw stake lockup.
#[derive(Clone, Copy, Debug, PartialEq, Eq, Structural)]
pub struct RawLockup {
    pub unix_timestamp: i64,
    pub epoch: u64,
    pub custodian: Pubkey,
}

/// The empty lockup.
pub open spec fn no_lockup() -> RawLockup {
    RawLockup { unix_timestamp: 0, epoch: 0, custodian: Pubkey::spec_zero() }
}

impl Default for RawLockup {
    fn default() -> (r: RawLockup)
        ensures
            r == no_lockup(),
    {
        RawLockup { unix_timestamp: 0, epoch: 0, custodian: Pubkey::default() }
    }
}

/// Decoded stake-pool facts only; this value alone authenticates no account.
#[derive(Clone, Copy, Debug, PartialEq, Eq, Structural)]
pub struct PoolIdentityFields {
    pub manager: Pubkey,
    pub staker: Pubkey,
    pub stake_deposit_authority: Pubkey,
    pub stake_withdraw_bump_seed: u8,
    pub validator_list: Pubkey,
    pub reserve_stake: Pubkey,
    pub pool_mint: Pubkey,
    pub manager_fee_account: Pubkey,
    pub token_program_id: Pubkey,
    pub total_lamports: u64,
    pub pool_token_supply: u64,
    pub last_update_epoch: u64,
    pub lockup: RawLockup,
    pub epoch_fee: RawFee,
    pub next_epoch_fee: FutureFee,
    pub preferred_deposit_validator_vote_address: Option<Pubkey>,
    pub preferred_withdraw_validator_vote_address: Option<Pubkey>,
    pub stake_deposit_fee: RawFee,
    pub stake_withdrawal_fee: RawFee,
    pub next_stake_withdrawal_fee: FutureFee,
    pub stake_referral_fee: u8,
    pub sol_deposit_authority: Option<Pubkey>,
    pub sol_deposit_fee: RawFee,
    pub sol_referral_fee: u8,
    pub sol_withdraw_authority: Option<Pubkey>,
    pub sol_withdrawal_fee: RawFee,
    pub next_sol_withdrawal_fee: FutureFee,
    pub last_epoch_pool_token_supply: u64,
    pub last_epoch_total_lamports: u64,
}

impl PoolIdentityFields {
    /// The decoded `manager` field.
    pub fn manager(&self) -> (r: Pubkey)
        ensures
            r == self.manager,
    {
        self.manager
    }

    /// The decoded `staker` field.
    pub fn staker(&self) -> (r: Pubkey)
        ensures
            r == self.staker,
    {
        self.staker
    }

    /// The decoded `stake_deposit_authority` field.
    pub fn stake_deposit_authority(&self) -> (r: Pubkey)
        ensures
            r == self.stake_deposit_authority,
    {
        self.stake_deposit_authority
    }

    /// The decoded `stake_withdraw_bump_seed` field.
    pub fn stake_withdraw_bump_seed(&self) -> (r: u8)
        ensures
            r == self.stake_withdraw_bump_seed,
    {
        self.stake_withdraw_bump_seed
    }

    /// The decoded `validator_list` field.
    pub fn validator_list(&self) -> (r: Pubkey)
        ensures
            r == self.validator_list,
    {
        self.validator_list
    }

    /// The decoded `reserve_stake` field.
    pub fn reserve_stake(&self) -> (r: Pubkey)
        ensures
            r == self.reserve_stake,
    {
        self.reserve_stake
    }

    /// The decoded `pool_mint` field.
    pub fn pool_mint(&self) -> (r: Pubkey)
        ensures
            r == self.pool_mint,
    {
        self.pool_mint
    }

    /// The decoded `manager_fee_account` field.
    pub fn manager_fee_account(&self) -> (r: Pubkey)
        ensures
            r == self.manager_fee_account,
    {
        self.manager_fee_account
    }

    /// The decoded `token_program_id` field.
    pub fn token_program_id(&self) -> (r: Pubkey)
        ensures
            r == self.token_program_id,
    {
        self.token_program_id
    }

    /// The decoded `total_lamports` field.
    pub fn total_lamports(&self) -> (r: u64)
        ensures
            r == self.total_lamports,
    {
        self.total_lamports
    }

    /// The decoded `pool_token_supply` field.
    pub fn pool_token_supply(&self) -> (r: u64)
        ensures
            r == self.pool_token_supply,
    {
        self.pool_token_supply
    }

    /// The decoded `last_update_epoch` field.
    pub fn last_update_epoch(&self) -> (r: u64)
        ensures
            r == self.last_update_epoch,
    {
        self.last_update_epoch
    }

    /// The decoded `lockup` field.
    pub fn lockup(&self) -> (r: RawLockup)
        ensures
            r == self.lockup,
    {
        self.lockup
    }

    /// The decoded `epoch_fee` field.
    pub fn epoch_fee(&self) -> (r: RawFee)
        ensures
            r == self.epoch_fee,
    {
        self.epoch_fee
    }

    /// The decoded `next_epoch_fee` field.
    pub fn next_epoch_fee(&self) -> (r: FutureFee)
        ensures
            r == self.next_epoch_fee,
    {
        self.next_epoch_fee
    }

    /// The decoded `preferred_deposit_validator_vote_address` field.
    pub fn preferred_deposit_validator_vote_address(&self) -> (r: Option<Pubkey>)
        ensures
            r == self.preferred_deposit_validator_vote_address,
    {
        self.preferred_deposit_validator_vote_address
    }

    /// The decoded `preferred_withdraw_validator_vote_address` field.
    pub fn preferred_withdraw_validator_vote_address(&self) -> (r: Option<Pubkey>)
        ensures
            r == self.preferred_withdraw_validator_vote_address,
    {
        self.preferred_withdraw_validator_vote_address
    }

    /// The decoded `stake_deposit_fee` field.
    pub fn stake_deposit_fee(&self) -> (r: RawFee)
        ensures
            r == self.stake_deposit_fee,
    {
        self.stake_deposit_fee
    }

    /// The decoded `stake_withdrawal_fee` field.
    pub fn stake_withdrawal_fee(&self) -> (r: RawFee)
        ensures
            r == self.stake_withdrawal_fee,
    {
        self.stake_withdrawal_fee
    }

    /// The decoded `next_stake_withdrawal_fee` field.
    pub fn next_stake_withdrawal_fee(&self) -> (r: FutureFee)
        ensures
            r == self.next_stake_withdrawal_fee,
    {
        self.next_stake_withdrawal_fee
    }

    /// The decoded `stake_referral_fee` field.
    pub fn stake_referral_fee(&self) -> (r: u8)
        ensures
            r == self.stake_referral_fee,
    {
        self.stake_referral_fee
    }

    /// The decoded `sol_deposit_authority` field.
    pub fn sol_deposit_authority(&self) -> (r: Option<Pubkey>)
        ensures
            r == self.sol_deposit_authority,
    {
        self.sol_deposit_authority
    }

    /// The decoded `sol_deposit_fee` field.
    pub fn sol_deposit_fee(&self) -> (r: RawFee)
        ensures
            r == self.sol_deposit_fee,
    {
        self.sol_deposit_fee
    }

    /// The decoded `sol_referral_fee` field.
    pub fn sol_referral_fee(&self) -> (r: u8)
        ensures
            r == self.sol_referral_fee,
    {
        self.sol_referral_fee
    }

    /// The decoded `sol_withdraw_authority` field.
    pub fn sol_withdraw_authority(&self) -> (r: Option<Pubkey>)
        ensures
            r == self.sol_withdraw_authority,
    {
        self.sol_withdraw_authority
    }

    /// The decoded `sol_withdrawal_fee` field.
    pub fn sol_withdrawal_fee(&self) -> (r: RawFee)
        ensures
            r == self.sol_withdrawal_fee,
    {
        self.sol_withdrawal_fee
    }

    /// The decoded `next_sol_withdrawal_fee` field.
    pub fn next_sol_withdrawal_fee(&self) -> (r: FutureFee)
        ensures
            r == self.next_sol_withdrawal_fee,
    {
        self.next_sol_withdrawal_fee
    }

    /// The decoded `last_epoch_pool_token_supply` field.
    pub fn last_epoch_pool_token_supply(&self) -> (r: u64)
        ensures
            r == self.last_epoch_pool_token_supply,
    {
        self.last_epoch_pool_token_supply
    }

    /// The decoded `last_epoch_total_lamports` field.
    pub fn last_epoch_total_lamports(&self) -> (r: u64)
        ensures
            r == self.last_epoch_total_lamports,
    {
        self.last_epoch_total_lamports
    }
}

/// Validator-list capacity and occupancy.
#[derive(Clone, Copy, Debug, PartialEq, Eq, Structural)]
pub struct ValidatorListGeometry {
    pub maximum: u32,
    pub count: u32,
}

impl ValidatorListGeometry {
    /// Returns the capacity in validator entries.
    pub fn maximum(&self) -> (r: u32)
        ensures
            r == self.maximum,
    {
        self.maximum
    }

    /// Returns the number of occupied validator entries.
    pub fn count(&self) -> (r: u32)
        ensures
            r == self.count,
    {
        self.count
    }
}

/// Serialized reserve-stake metadata.
#[derive(Clone, Copy, Debug, PartialEq, Eq, Structural)]
pub struct ReserveIdentityFields {
    pub rent_exempt_reserve: u64,
    pub staker: Pubkey,
    pub withdrawer: Pubkey,
    pub lockup: RawLockup,
}

impl ReserveIdentityFields {
    /// Serialized metadata only, not a current rent or funding observation.
    pub fn rent_exempt_reserve(&self) -> (r: u64)
        ensures
            r == self.rent_exempt_reserve,
    {
        self.rent_exempt_reserve
    }

    /// Returns the staker authority.
    pub fn staker(&self) -> (r: Pubkey)
        ensures
            r == self.staker,
    {
        self.staker
    }

    /// Returns the withdrawer authority.
    pub fn withdrawer(&self) -> (r: Pubkey)
        ensures
            r == self.withdrawer,
    {
        self.withdrawer
    }

    /// Returns the lockup.
    pub fn lockup(&self) -> (r: RawLockup)
        ensures
            r == self.lockup,
    {
        self.lockup
    }
}

// ---------------------------------------------------------------------------
// Sequential reading: each step yields a value and the next position, or
// the error of the first refused step.
// ---------------------------------------------------------------------------

/// Little-endian 32-bit word at `p`.
pub open spec fn pack_u32_at(s: Seq<u8>, p: int) -> u32 {
    ((s[p] as u32) | ((s[p + 1] as u32) << 8) | ((s[p + 2] as u32) << 16) | ((s[p + 3] as u32)
        << 24)) as u32
}

/// One byte.
pub open spec fn sp_byte(s: Seq<u8>, p: int) -> JitoIdentityResult<(u8, int)> {
    if 0 <= p && p + 1 <= s.len() {
        Ok((s[p], p + 1))
    } else {
        Err(JitoIdentityError::InvalidPool)
    }
}

/// One little-endian 32-bit word.
pub open spec fn sp_u32(s: Seq<u8>, p: int) -> JitoIdentityResult<(u32, int)> {
    if 0 <= p && p + 4 <= s.len() {
        Ok((pack_u32_at(s, p), p + 4))
    } else {
        Err(JitoIdentityError::InvalidPool)
    }
}

/// One little-endian 64-bit word.
pub open spec fn sp_u64(s: Seq<u8>, p: int) -> JitoIdentityResult<(u64, int)> {
    if 0 <= p && p + 8 <= s.len() {
        Ok((pack_at(s, p), p + 8))
    } else {
        Err(JitoIdentityError::InvalidPool)
    }
}

/// One 32-byte address.
pub open spec fn sp_key(s: Seq<u8>, p: int) -> JitoIdentityResult<(Pubkey, int)> {
    if 0 <= p && p + 32 <= s.len() {
        Ok((key_at(s, p), p + 32))
    } else {
        Err(JitoIdentityError::InvalidPool)
    }
}

/// A lockup: timestamp, epoch, custodian.
pub open spec fn sp_lockup(s: Seq<u8>, p: int) -> JitoIdentityResult<(RawLockup, int)> {
    if 0 <= p && p + 48 <= s.len() {
        Ok(
            (
                RawLockup {
                    unix_timestamp: pack_at(s, p) as i64,
                    epoch: pack_at(s, p + 8),
                    custodian: key_at(s, p + 16),
                },
                p + 48,
            ),
        )
    } else {
        Err(JitoIdentityError::InvalidPool)
    }
}

/// A fee: denominator then numerator; a numerator above the denominator is refused.
pub open spec fn sp_fee(s: Seq<u8>, p: int) -> JitoIdentityResult<(RawFee, int)> {
    if 0 <= p && p + 16 <= s.len() {
        if pack_at(s, p + 8) > pack_at(s, p) {
            Err(JitoIdentityError::InvalidFee)
        } else {
            Ok((RawFee { denominator: pack_at(s, p), numerator: pack_at(s, p + 8) }, p + 16))
        }
    } else {
        Err(JitoIdentityError::InvalidPool)
    }
}

/// A tagged future fee: `0` none, `1` and `2` followed by a fee.
pub open spec fn sp_future_fee(s: Seq<u8>, p: int) -> JitoIdentityResult<(FutureFee, int)> {
    match sp_byte(s, p) {
        Err(e) => Err(e),
        Ok((tag, q)) => if tag == 0 {
            Ok((FutureFee::Absent, q))
        } else if tag == 1 || tag == 2 {
            match sp_fee(s, q) {
                Err(e) => Err(e),
                Ok((fee, r)) => Ok((if tag == 1 { FutureFee::One(fee) } else { FutureFee::Two(fee) }, r)),
            }
        } else {
            Err(JitoIdentityError::InvalidPool)
        },
    }
}

/// A tagged optional address: `0` none, `1` followed by an address.
pub open spec fn sp_optional_key(s: Seq<u8>, p: int) -> JitoIdentityResult<(Option<Pubkey>, int)> {
    match sp_byte(s, p) {
        Err(e) => Err(e),
        Ok((tag, q)) => if tag == 0 {
            Ok((None, q))
        } else if tag == 1 {
            match sp_key(s, q) {
                Err(e) => Err(e),
                Ok((k, r)) => Ok((Some(k), r)),
            }
        } else {
            Err(JitoIdentityError::InvalidPool)
        },
    }
}

/// A percentage byte; values above one hundred are refused.
pub open spec fn sp_percentage(s: Seq<u8>, p: int) -> JitoIdentityResult<(u8, int)> {
    match sp_byte(s, p) {
        Err(e) => Err(e),
        Ok((v, q)) => if v > 100 {
            Err(JitoIdentityError::InvalidFee)
        } else {
            Ok((v, q))
        },
    }
}

/// A cursor over account data.
struct Reader<'a> {
    bytes: &'a [u8],
    pos: usize,
}

impl<'a> Reader<'a> {
    spec fn data(&self) -> Seq<u8> {
        self.bytes@
    }

    spec fn at(&self) -> int {
        self.pos as int
    }

    spec fn ok(&self) -> bool {
        self.pos <= self.bytes@.len()
    }

    fn new(bytes: &'a [u8]) -> (r: Reader<'a>)
        ensures
            r.data() == bytes@,
            r.at() == 0,
            r.ok(),
    {
        Reader { bytes, pos: 0 }
    }

    fn remaining(&self) -> (r: usize)
        requires
            self.ok(),
        ensures
            r == self.data().len() - self.at(),
    {
        self.bytes.len() - self.pos
    }

    fn byte(&mut self) -> (r: JitoIdentityResult<u8>)
        requires
            old(self).ok(),
        ensures
            final(self).ok(),
            final(self).data() == old(self).data(),
            match sp_byte(old(self).data(), old(self).at()) {
                Ok((v, p)) => r == Ok::<u8, JitoIdentityError>(v) && final(self).at() == p,
                Err(e) => r == Err::<u8, JitoIdentityError>(e),
            },
    {
        if self.remaining() < 1 {
            return Err(JitoIdentityError::InvalidPool);
        }
        let v = self.bytes[self.pos];
        self.pos = self.pos + 1;
        Ok(v)
    }

    fn u32(&mut self) -> (r: JitoIdentityResult<u32>)
        requires
            old(self).ok(),
        ensures
            final(self).ok(),
            final(self).data() == old(self).data(),
            match sp_u32(old(self).data(), old(self).at()) {
                Ok((v, p)) => r == Ok::<u32, JitoIdentityError>(v) && final(self).at() == p,
                Err(e) => r == Err::<u32, JitoIdentityError>(e),
            },
    {
        if self.remaining() < 4 {
            return Err(JitoIdentityError::InvalidPool);
        }
        let p = self.pos;
        let v: u32 = (self.bytes[p] as u32) | ((self.bytes[p + 1] as u32) << 8) | ((self.bytes[p
            + 2] as u32) << 16) | ((self.bytes[p + 3] as u32) << 24);
        self.pos = p + 4;
        Ok(v)
    }

    fn u64(&mut self) -> (r: JitoIdentityResult<u64>)
        requires
            old(self).ok(),
        ensures
            final(self).ok(),
            final(self).data() == old(self).data(),
            match sp_u64(old(self).data(), old(self).at()) {
                Ok((v, p)) => r == Ok::<u64, JitoIdentityError>(v) && final(self).at() == p,
                Err(e) => r == Err::<u64, JitoIdentityError>(e),
            },
    {
        if self.remaining() < 8 {
            return Err(JitoIdentityError::InvalidPool);
        }
        let n = self.bytes.len();
        assert(self.pos + 8 <= n);
        let v = read_u64_le(self.bytes, self.pos);
        self.pos = self.pos + 8;
        Ok(v)
    }

    fn key(&mut self) -> (r: JitoIdentityResult<Pubkey>)
        requires
            old(self).ok(),
        ensures
            final(self).ok(),
            final(self).data() == old(self).data(),
            match sp_key(old(self).data(), old(self).at()) {
                Ok((v, p)) => r == Ok::<Pubkey, JitoIdentityError>(v) && final(self).at() == p,
                Err(e) => r == Err::<Pubkey, JitoIdentityError>(e),
            },
    {
        if self.remaining() < 32 {
            return Err(JitoIdentityError::InvalidPool);
        }
        let n = self.bytes.len();
        assert(self.pos + 32 <= n);
        let v = read_key(self.bytes, self.pos);
        self.pos = self.pos + 32;
        Ok(v)
    }

    fn lockup(&mut self) -> (r: JitoIdentityResult<RawLockup>)
        requires
            old(self).ok(),
        ensures
            final(self).ok(),
            final(self).data() == old(self).data(),
            match sp_lockup(old(self).data(), old(self).at()) {
                Ok((v, p)) => r == Ok::<RawLockup, JitoIdentityError>(v) && final(self).at() == p,
                Err(e) => r == Err::<RawLockup, JitoIdentityError>(e),
            },
    {
        if self.remaining() < 48 {
            return Err(JitoIdentityError::InvalidPool);
        }
        let unix_timestamp = self.u64()? as i64;
        let epoch = self.u64()?;
        let custodian = self.key()?;
        Ok(RawLockup { unix_timestamp, epoch, custodian })
    }

    fn fee(&mut self) -> (r: JitoIdentityResult<RawFee>)
        requires
            old(self).ok(),
        ensures
            final(self).ok(),
            final(self).data() == old(self).data(),
            match sp_fee(old(self).data(), old(self).at()) {
                Ok((v, p)) => r == Ok::<RawFee, JitoIdentityError>(v) && final(self).at() == p,
                Err(e) => r == Err::<RawFee, JitoIdentityError>(e),
            },
    {
        if self.remaining() < 16 {
            return Err(JitoIdentityError::InvalidPool);
        }
        let fee = RawFee { denominator: self.u64()?, numerator: self.u64()? };
        if fee.numerator > fee.denominator {
            return Err(JitoIdentityError::InvalidFee);
        }
        Ok(fee)
    }

    fn future_fee(&mut self) -> (r: JitoIdentityResult<FutureFee>)
        requires
            old(self).ok(),
        ensures
            final(self).ok(),
            final(self).data() == old(self).data(),
            match sp_future_fee(old(self).data(), old(self).at()) {
                Ok((v, p)) => r == Ok::<FutureFee, JitoIdentityError>(v) && final(self).at() == p,
                Err(e) => r == Err::<FutureFee, JitoIdentityError>(e),
            },
    {
        match self.byte()? {
            0 => Ok(FutureFee::Absent),
            1 => Ok(FutureFee::One(self.fee()?)),
            2 => Ok(FutureFee::Two(self.fee()?)),
            _ => Err(JitoIdentityError::InvalidPool),
        }
    }

    fn optional_key(&mut self) -> (r: JitoIdentityResult<Option<Pubkey>>)
        requires
            old(self).ok(),
        ensures
            final(self).ok(),
            final(self).data() == old(self).data(),
            match sp_optional_key(old(self).data(), old(self).at()) {
                Ok((v, p)) => r == Ok::<Option<Pubkey>, JitoIdentityError>(v) && final(self).at() == p,
                Err(e) => r == Err::<Option<Pubkey>, JitoIdentityError>(e),
            },
    {
        match self.byte()? {
            0 => Ok(None),
            1 => Ok(Some(self.key()?)),
            _ => Err(JitoIdentityError::InvalidPool),
        }
    }

    fn percentage(&mut self) -> (r: JitoIdentityResult<u8>)
        requires
            old(self).ok(),
        ensures
            final(self).ok(),
            final(self).data() == old(self).data(),
            match sp_percentage(old(self).data(), old(self).at()) {
                Ok((v, p)) => r == Ok::<u8, JitoIdentityError>(v) && final(self).at() == p,
                Err(e) => r == Err::<u8, JitoIdentityError>(e),
            },
    {
        let value = self.byte()?;
        if value > 100 {
            return Err(JitoIdentityError::InvalidFee);
        }
        Ok(value)
    }
}

/// Outcome of decoding stake-pool account data: the account tag, then every
/// field in upstream order. Extra trailing allocation is ignored.
pub open spec fn spec_decode_pool(s: Seq<u8>) -> JitoIdentityResult<PoolIdentityFields> {
    match sp_byte(s, 0) { Err(e) => Err(e), Ok((tag, p0)) =>
    if tag != 1 { Err(JitoIdentityError::InvalidPool) } else {
    match sp_key(s, p0) { Err(e) => Err(e), Ok((manager, p1)) =>
    match sp_key(s, p1) { Err(e) => Err(e), Ok((staker, p2)) =>
    match sp_key(s, p2) { Err(e) => Err(e), Ok((stake_deposit_authority, p3)) =>
    match sp_byte(s, p3) { Err(e) => Err(e), Ok((stake_withdraw_bump_seed, p4)) =>
    match sp_key(s, p4) { Err(e) => Err(e), Ok((validator_list, p5)) =>
    match sp_key(s, p5) { Err(e) => Err(e), Ok((reserve_stake, p6)) =>
    match sp_key(s, p6) { Err(e) => Err(e), Ok((pool_mint, p7)) =>
    match sp_key(s, p7) { Err(e) => Err(e), Ok((manager_fee_account, p8)) =>
    match sp_key(s, p8) { Err(e) => Err(e), Ok((token_program_id, p9)) =>
    match sp_u64(s, p9) { Err(e) => Err(e), Ok((total_lamports, p10)) =>
    match sp_u64(s, p10) { Err(e) => Err(e), Ok((pool_token_supply, p11)) =>
    match sp_u64(s, p11) { Err(e) => Err(e), Ok((last_update_epoch, p12)) =>
    match sp_lockup(s, p12) { Err(e) => Err(e), Ok((lockup, p13)) =>
    match sp_fee(s, p13) { Err(e) => Err(e), Ok((epoch_fee, p14)) =>
    match sp_future_fee(s, p14) { Err(e) => Err(e), Ok((next_epoch_fee, p15)) =>
    match sp_optional_key(s, p15) { Err(e) => Err(e), Ok((preferred_deposit_validator_vote_address, p16)) =>
    match sp_optional_key(s, p16) { Err(e) => Err(e), Ok((preferred_withdraw_validator_vote_address, p17)) =>
    match sp_fee(s, p17) { Err(e) => Err(e), Ok((stake_deposit_fee, p18)) =>
    match sp_fee(s, p18) { Err(e) => Err(e), Ok((stake_withdrawal_fee, p19)) =>
    match sp_future_fee(s, p19) { Err(e) => Err(e), Ok((next_stake_withdrawal_fee, p20)) =>
    match sp_percentage(s, p20) { Err(e) => Err(e), Ok((stake_referral_fee, p21)) =>
    match sp_optional_key(s, p21) { Err(e) => Err(e), Ok((sol_deposit_authority, p22)) =>
    match sp_fee(s, p22) { Err(e) => Err(e), Ok((sol_deposit_fee, p23)) =>
    match sp_percentage(s, p23) { Err(e) => Err(e), Ok((sol_referral_fee, p24)) =>
    match sp_optional_key(s, p24) { Err(e) => Err(e), Ok((sol_withdraw_authority, p25)) =>
    match sp_fee(s, p25) { Err(e) => Err(e), Ok((sol_withdrawal_fee, p26)) =>
    match sp_future_fee(s, p26) { Err(e) => Err(e), Ok((next_sol_withdrawal_fee, p27)) =>
    match sp_u64(s, p27) { Err(e) => Err(e), Ok((last_epoch_pool_token_supply, p28)) =>
    match sp_u64(s, p28) { Err(e) => Err(e), Ok((last_epoch_total_lamports, p29)) =>
    Ok(PoolIdentityFields {
        manager,
        staker,
        stake_deposit_authority,
        stake_withdraw_bump_seed,
        validator_list,
        reserve_stake,
        pool_mint,
        manager_fee_account,
        token_program_id,
        total_lamports,
        pool_token_supply,
        last_update_epoch,
        lockup,
        epoch_fee,
        next_epoch_fee,
        preferred_deposit_validator_vote_address,
        preferred_withdraw_validator_vote_address,
        stake_deposit_fee,
        stake_withdrawal_fee,
        next_stake_withdrawal_fee,
        stake_referral_fee,
        sol_deposit_authority,
        sol_deposit_fee,
        sol_referral_fee,
        sol_withdraw_authority,
        sol_withdrawal_fee,
        next_sol_withdrawal_fee,
        last_epoch_pool_token_supply,
        last_epoch_total_lamports,
    })
    }}}}}}}}}}}}}}}}}}}}}}}}}}}}}}}
}

/// Decodes stake-pool account data; trailing bytes beyond the logical prefix
/// are ignored.
#[verifier::rlimit(60)]
pub fn decode_pool(bytes: &[u8]) -> (r: JitoIdentityResult<PoolIdentityFields>)
    ensures
        r == spec_decode_pool(bytes@),
{
    let mut r = Reader::new(bytes);
    if r.byte()? != 1 {
        return Err(JitoIdentityError::InvalidPool);
    }
    Ok(PoolIdentityFields {
        manager: r.key()?,
        staker: r.key()?,
        stake_deposit_authority: r.key()?,
        stake_withdraw_bump_seed: r.byte()?,
        validator_list: r.key()?,
        reserve_stake: r.key()?,
        pool_mint: r.key()?,
        manager_fee_account: r.key()?,
        token_program_id: r.key()?,
        total_lamports: r.u64()?,
        pool_token_supply: r.u64()?,
        last_update_epoch: r.u64()?,
        lockup: r.lockup()?,
        epoch_fee: r.fee()?,
        next_epoch_fee: r.future_fee()?,
        preferred_deposit_validator_vote_address: r.optional_key()?,
        preferred_withdraw_validator_vote_address: r.optional_key()?,
        stake_deposit_fee: r.fee()?,
        stake_withdrawal_fee: r.fee()?,
        next_stake_withdrawal_fee: r.future_fee()?,
        stake_referral_fee: r.percentage()?,
        sol_deposit_authority: r.optional_key()?,
        sol_deposit_fee: r.fee()?,
        sol_referral_fee: r.percentage()?,
        sol_withdraw_authority: r.optional_key()?,
        sol_withdrawal_fee: r.fee()?,
        next_sol_withdrawal_fee: r.future_fee()?,
        last_epoch_pool_token_supply: r.u64()?,
        last_epoch_total_lamports: r.u64()?,
    })
}

/// Outcome of decoding validator-list data: tag `2`, capacity and count,
/// with a nonzero capacity, the count within it, and the entry area holding
/// exactly the capacity in whole 73-byte entries.
pub open spec fn spec_decode_list(s: Seq<u8>) -> JitoIdentityResult<ValidatorListGeometry> {
    let maximum = pack_u32_at(s, 1);
    let count = pack_u32_at(s, 5);
    if s.len() < 9 || s[0] != 2 || maximum == 0 || count > maximum || (s.len() - 9) / 73 != maximum {
        Err(JitoIdentityError::InvalidList)
    } else {
        Ok(ValidatorListGeometry { maximum, count })
    }
}

/// Decodes the validator-list header and checks its geometry; unused entries
/// and residual bytes are not inspected.
pub fn decode_list(bytes: &[u8]) -> (r: JitoIdentityResult<ValidatorListGeometry>)
    ensures
        r == spec_decode_list(bytes@),
{
    if bytes.len() < 9 {
        return Err(JitoIdentityError::InvalidList);
    }
    let mut reader = Reader::new(bytes);
    if reader.byte()? != 2 {
        return Err(JitoIdentityError::InvalidList);
    }
    let maximum = reader.u32()?;
    let count = reader.u32()?;
    if maximum == 0 || count > maximum || ((bytes.len() - 9) / 73) as u64 != maximum as u64 {
        return Err(JitoIdentityError::InvalidList);
    }
    Ok(ValidatorListGeometry { maximum, count })
}

/// Outcome of decoding reserve-stake data against the pool's withdraw
/// authority: exactly 200 bytes, the initialized tag, both authorities equal
/// to it and no lockup.
pub open spec fn spec_decode_reserve(s: Seq<u8>, authority: Pubkey) -> JitoIdentityResult<ReserveIdentityFields> {
    let fields = ReserveIdentityFields {
        rent_exempt_reserve: pack_at(s, 4),
        staker: key_at(s, 12),
        withdrawer: key_at(s, 44),
        lockup: RawLockup {
            unix_timestamp: pack_at(s, 76) as i64,
            epoch: pack_at(s, 84),
            custodian: key_at(s, 92),
        },
    };
    if s.len() != 200 || pack_u32_at(s, 0) != 1 {
        Err(JitoIdentityError::InvalidReserve)
    } else if fields.staker != authority || fields.withdrawer != authority || fields.lockup != no_lockup() {
        Err(JitoIdentityError::InvalidReserve)
    } else {
        Ok(fields)
    }
}

/// Decodes reserve-stake data bound to the pool's withdraw authority; the
/// allocation tail after the initialized layout is not inspected.
pub fn decode_reserve(bytes: &[u8], authority: &Pubkey) -> (r: JitoIdentityResult<ReserveIdentityFields>)
    ensures
        r == spec_decode_reserve(bytes@, *authority),
{
    if bytes.len() != 200 {
        return Err(JitoIdentityError::InvalidReserve);
    }
    let mut reader = Reader::new(bytes);
    if reader.u32()? != 1 {
        return Err(JitoIdentityError::InvalidReserve);
    }
    let reserve = ReserveIdentityFields {
        rent_exempt_reserve: reader.u64()?,
        staker: reader.key()?,
        withdrawer: reader.key()?,
        lockup: reader.lockup()?,
    };
    if reserve.staker != *authority || reserve.withdrawer != *authority || reserve.lockup
        != RawLockup::default() {
        return Err(JitoIdentityError::InvalidReserve);
    }
    Ok(reserve)
}

/// The Jito stake-pool program, `SPoo1Ku8WFXoNDMHPsrGSTSG1Y47rzgn41SLUNakuHy`.
pub open spec fn jito_stake_pool_program_key() -> Pubkey {
    Pubkey { w0: 0x178af6cad44e8106, w1: 0x631a0386acfd7246, w2: 0xb7441dfa5ea14ee8, w3: 0x501600dbdbf69322 }
}

/// The Jito stake pool, `Jito4APyf642JPZPx3hGc6WWJ8zPKtRbRs4P815Awbb`.
pub open spec fn jito_stake_pool_key() -> Pubkey {
    Pubkey { w0: 0xbe95b4c3083e8a04, w1: 0x5bec9bd82754f417, w2: 0xd764185c69e2c780, w3: 0xd646d3be39db4367 }
}

/// The JitoSOL mint, `J1toso1uCk3RLmjorhTtrVwY9HJ7X8V9yYac6Y7kGCPn`.
pub open spec fn jitosol_mint_key() -> Pubkey {
    Pubkey { w0: 0x10af2c83e941d1fc, w1: 0x1b270fca957491ad, w2: 0x73ea2770d43c295b, w3: 0xbda039eb40ed0770 }
}

/// The upgradeable BPF loader, `BPFLoaderUpgradeab1e11111111111111111111111`.
pub open spec fn upgradeable_loader_key() -> Pubkey {
    Pubkey { w0: 0xb0a1884e91f6a802, w1: 0x2bae63f73e1510e2, w2: 0xd224c1163db9c200, w3: 0x8004107a53c0 }
}

/// The Jito stake-pool program.
pub fn jito_stake_pool_program() -> (r: Pubkey)
    ensures
        r == jito_stake_pool_program_key(),
{
    Pubkey { w0: 0x178af6cad44e8106, w1: 0x631a0386acfd7246, w2: 0xb7441dfa5ea14ee8, w3: 0x501600dbdbf69322 }
}

/// The Jito stake pool.
pub fn jito_stake_pool() -> (r: Pubkey)
    ensures
        r == jito_stake_pool_key(),
{
    Pubkey { w0: 0xbe95b4c3083e8a04, w1: 0x5bec9bd82754f417, w2: 0xd764185c69e2c780, w3: 0xd646d3be39db4367 }
}

/// The JitoSOL mint.
pub fn jitosol_mint() -> (r: Pubkey)
    ensures
        r == jitosol_mint_key(),
{
    Pubkey { w0: 0x10af2c83e941d1fc, w1: 0x1b270fca957491ad, w2: 0x73ea2770d43c295b, w3: 0xbda039eb40ed0770 }
}

/// `bpf_loader_upgradeable::ID`, declared as
/// `BPFLoaderUpgradeab1e11111111111111111111111`; the contract states the 32
/// bytes that this base-58 text decodes to.
#[verifier::external_body]
fn upgradeable_loader_bytes() -> (r: [u8; 32])
    ensures
        r@ == upgradeable_loader_key().bytes(),
{
    anchor_lang::solana_program::bpf_loader_upgradeable::ID.to_bytes()
}

/// The upgradeable BPF loader.
pub fn upgradeable_loader() -> (r: Pubkey)
    ensures
        r == upgradeable_loader_key(),
{
    let r = Pubkey::new_from_array(upgradeable_loader_bytes());
    proof {
        crate::address::lemma_bytes_roundtrip(upgradeable_loader_key());
    }
    r
}

/// Seeds of the pool's withdraw authority: the pool address and `withdraw`.
pub open spec fn withdraw_authority_seeds() -> Seq<Seq<u8>> {
    seq![jito_stake_pool_key().bytes(), seq![119u8, 105, 116, 104, 100, 114, 97, 119]]
}

/// Seeds of the stake-pool program's program-data account: the program address.
pub open spec fn program_data_seeds() -> Seq<Seq<u8>> {
    seq![jito_stake_pool_program_key().bytes()]
}

/// Both fixed derivations that the identity check performs have a bump; the
/// runtime's `derive_address` panics otherwise.
pub open spec fn jito_addresses_derivable() -> bool {
    &&& derived_address(withdraw_authority_seeds(), jito_stake_pool_program_key().bytes()) is Some
    &&& derived_address(program_data_seeds(), upgradeable_loader_key().bytes()) is Some
}

/// The pool's withdraw authority and its bump.
pub open spec fn withdraw_authority() -> (Pubkey, u8) {
    let found = derived_address(withdraw_authority_seeds(), jito_stake_pool_program_key().bytes())->Some_0;
    (spec_from_bytes(found.0), found.1)
}

/// Derives an address that is known to exist.
fn find_derived(seeds: &Vec<Vec<u8>>, program: &Pubkey) -> (r: (Pubkey, u8))
    requires
        derived_address(seeds.deep_view(), program.bytes()) is Some,
    ensures
        r == (spec_from_bytes(derived_address(seeds.deep_view(), program.bytes())->Some_0.0),
            derived_address(seeds.deep_view(), program.bytes())->Some_0.1),
{
    match derive_address(seeds, program) {
        Some(found) => found,
        None => (Pubkey { w0: 0, w1: 0, w2: 0, w3: 0 }, 0),
    }
}

/// Whether both fixed derivations have a bump.
pub fn check_jito_addresses_derivable() -> (r: bool)
    ensures
        r == jito_addresses_derivable(),
{
    let (withdraw, data) = jito_derivation_seeds();
    let a = derive_address(&withdraw, &jito_stake_pool_program());
    let b = derive_address(&data, &upgradeable_loader());
    a.is_some() && b.is_some()
}

/// The seed lists of the withdraw authority and of the program data.
fn jito_derivation_seeds() -> (r: (Vec<Vec<u8>>, Vec<Vec<u8>>))
    ensures
        r.0.deep_view() == withdraw_authority_seeds(),
        r.1.deep_view() == program_data_seeds(),
{
    let pool = jito_stake_pool().to_bytes();
    let program = jito_stake_pool_program().to_bytes();
    let withdraw = vec![slice_to_vec(pool.as_slice()), vec![119u8, 105, 116, 104, 100, 114, 97, 119]];
    let data = vec![slice_to_vec(program.as_slice())];
    proof {
        assert(withdraw@[0].deep_view() =~= withdraw@[0]@);
        assert(withdraw@[1].deep_view() =~= withdraw@[1]@);
        assert(withdraw.deep_view() =~= withdraw_authority_seeds());
        assert(data@[0].deep_view() =~= data@[0]@);
        assert(data.deep_view() =~= program_data_seeds());
    }
    (withdraw, data)
}

/// Declarations to bind, never an alternative trusted program, pool or mint.
#[derive(Clone, Copy, Debug, PartialEq, Eq, Structural)]
pub struct DeclaredJitoKeys {
    pub program: Pubkey,
    pub pool: Pubkey,
    pub validator_list: Pubkey,
    pub reserve: Pubkey,
    pub mint: Pubkey,
    pub manager_fee: Pubkey,
    pub referrer: Pubkey,
}

impl DeclaredJitoKeys {
    /// The seven declared keys in their fixed order.
    pub open spec fn spec_keys(self) -> Seq<Pubkey> {
        seq![self.program, self.pool, self.validator_list, self.reserve, self.mint, self.manager_fee, self.referrer]
    }
}

/// The seven identity accounts.
#[derive(Clone, Debug)]
pub struct JitoIdentityAccountInfos {
    pub program: AccountView,
    pub pool: AccountView,
    pub validator_list: AccountView,
    pub reserve: AccountView,
    pub mint: AccountView,
    pub manager_fee: AccountView,
    pub referrer: AccountView,
}

impl JitoIdentityAccountInfos {
    /// The seven account keys in their fixed order.
    pub open spec fn spec_keys(self) -> Seq<Pubkey> {
        seq![self.program.key, self.pool.key, self.validator_list.key, self.reserve.key, self.mint.key,
            self.manager_fee.key, self.referrer.key]
    }
}

/// Fields of an SPL mint as the Token program lays them out.
#[derive(Clone, Copy, Debug, PartialEq, Eq)]
pub struct MintFields {
    pub mint_authority: Option<[u8; 32]>,
    pub supply: u64,
    pub decimals: u8,
    pub is_initialized: bool,
    pub freeze_authority: Option<[u8; 32]>,
}

/// What `spl_token::state::Mint::unpack` reads from the given bytes; `None`
/// where it returns an error.
pub uninterp spec fn mint_unpack(data: Seq<u8>) -> Option<MintFields>;

/// `spl_token::state::Mint::unpack`: the 82-byte mint layout, refusing other
/// lengths, unknown option tags or flags, and uninitialized mints. The
/// contract names its result as a function of the bytes alone.
#[verifier::external_body]
fn unpack_mint(data: &Vec<u8>) -> (r: Option<MintFields>)
    ensures
        r == mint_unpack(data@),
{
    let m = spl_token::state::Mint::unpack(data.as_slice()).ok()?;
    Some(MintFields {
        mint_authority: Option::from(m.mint_authority).map(|k: anchor_lang::prelude::Pubkey| k.to_bytes()),
        supply: m.supply,
        decimals: m.decimals,
        is_initialized: m.is_initialized,
        freeze_authority: Option::from(m.freeze_authority).map(|k: anchor_lang::prelude::Pubkey| k.to_bytes()),
    })
}

/// Scan from account `i`: each key must be its declared, nonzero key, and
/// no key may repeat an earlier one except that the referrer may be the
/// manager-fee receiver.
pub open spec fn identity_scan(keys: Seq<Pubkey>, declared: Seq<Pubkey>, i: int) -> JitoIdentityResult<()>
    decreases keys.len() - i,
{
    if i < 0 || i >= keys.len() {
        Ok(())
    } else if keys[i] != declared[i] || keys[i].is_zero() {
        Err(JitoIdentityError::InvalidIdentity)
    } else if exists|p: int| 0 <= p < i && keys[p] == keys[i] && !(i == 6 && p == 5) {
        Err(JitoIdentityError::AccountAlias)
    } else {
        identity_scan(keys, declared, i + 1)
    }
}

/// Checks of a non-executable state account owned by `owner`.
pub open spec fn spec_state_account(account: AccountView, owner: Pubkey) -> JitoIdentityResult<()> {
    if account.owner != owner {
        Err(JitoIdentityError::InvalidOwner)
    } else if account.executable {
        Err(JitoIdentityError::InvalidExecutable)
    } else {
        Ok(())
    }
}

/// Requires the owner and a non-executable account.
pub fn validate_state_account(account: &AccountView, owner: &Pubkey) -> (r: JitoIdentityResult<()>)
    ensures
        r == spec_state_account(*account, *owner),
{
    if account.owner != *owner {
        return Err(JitoIdentityError::InvalidOwner);
    }
    if account.executable {
        return Err(JitoIdentityError::InvalidExecutable);
    }
    Ok(())
}

/// Checks of the stake-pool program account: executable, owned by the
/// upgradeable loader, and holding exactly the loader's `Program` tag and the
/// canonical program-data address.
pub open spec fn spec_program_account(account: AccountView) -> JitoIdentityResult<()> {
    if !account.executable {
        Err(JitoIdentityError::InvalidExecutable)
    } else if account.owner != upgradeable_loader_key() {
        Err(JitoIdentityError::UnsupportedProgram)
    } else {
        match account.data {
            None => Err(JitoIdentityError::BorrowFailed),
            Some(d) => if d@.len() != 36 {
                Err(JitoIdentityError::UnsupportedProgram)
            } else if pack_u32_at(d@, 0) != 2 || key_at(d@, 4) != spec_from_bytes(
                derived_address(seq![account.key.bytes()], upgradeable_loader_key().bytes())->Some_0.0,
            ) {
                Err(JitoIdentityError::UnsupportedProgram)
            } else {
                Ok(())
            },
        }
    }
}

/// Validates the stake-pool program account against the first supported
/// loader profile.
pub fn validate_program_account(account: &AccountView) -> (r: JitoIdentityResult<()>)
    requires
        account.key == jito_stake_pool_program_key(),
        jito_addresses_derivable(),
    ensures
        r == spec_program_account(*account),
{
    if !account.executable {
        return Err(JitoIdentityError::InvalidExecutable);
    }
    if account.owner != upgradeable_loader() {
        return Err(JitoIdentityError::UnsupportedProgram);
    }
    let data = match &account.data {
        None => return Err(JitoIdentityError::BorrowFailed),
        Some(d) => d,
    };
    if data.len() != 36 {
        return Err(JitoIdentityError::UnsupportedProgram);
    }
    let (_, seeds) = jito_derivation_seeds();
    let (expected, _) = find_derived(&seeds, &upgradeable_loader());
    let tag = (data[0] as u32) | ((data[1] as u32) << 8) | ((data[2] as u32) << 16) | ((data[3] as u32) << 24);
    assert(tag == pack_u32_at(data@, 0));
    if tag != 2 || read_key(data.as_slice(), 4) != expected {
        return Err(JitoIdentityError::UnsupportedProgram);
    }
    Ok(())
}

/// Checks of a JitoSOL receiver token account.
pub open spec fn spec_receiver(account: AccountView) -> JitoIdentityResult<TokenAccountFields> {
    match spec_state_account(account, token_program_key()) {
        Err(e) => Err(e),
        Ok(_) => match account.data {
            None => Err(JitoIdentityError::BorrowFailed),
            Some(d) => match token_account_unpack(d@) {
                None => Err(JitoIdentityError::InvalidReceiver),
                Some(t) => if t.state != 1 || spec_from_bytes(t.mint@) != jitosol_mint_key() || t.is_native is Some {
                    Err(JitoIdentityError::InvalidReceiver)
                } else {
                    Ok(t)
                },
            },
        },
    }
}

/// Validates an initialized, non-native JitoSOL token account.
pub fn receiver(account: &AccountView) -> (r: JitoIdentityResult<TokenAccountFields>)
    ensures
        r == spec_receiver(*account),
{
    validate_state_account(account, &token_program_id())?;
    let data = match &account.data {
        None => return Err(JitoIdentityError::BorrowFailed),
        Some(d) => d,
    };
    let token = match unpack_token_account(data) {
        None => return Err(JitoIdentityError::InvalidReceiver),
        Some(t) => t,
    };
    if token.state != 1 || Pubkey::new_from_array(token.mint) != jitosol_mint() || token.is_native.is_some() {
        return Err(JitoIdentityError::InvalidReceiver);
    }
    Ok(token)
}

/// Checks of the JitoSOL mint: nine decimals, minted only by the pool's
/// withdraw authority, and no freeze authority.
pub open spec fn spec_mint_account(account: AccountView, authority: Pubkey) -> JitoIdentityResult<MintFields> {
    match spec_state_account(account, token_program_key()) {
        Err(e) => Err(e),
        Ok(_) => match account.data {
            None => Err(JitoIdentityError::BorrowFailed),
            Some(d) => match mint_unpack(d@) {
                None => Err(JitoIdentityError::InvalidMint),
                Some(m) => if m.decimals != 9 || !(m.mint_authority matches Some(a) && spec_from_bytes(a@) == authority)
                    || m.freeze_authority is Some {
                    Err(JitoIdentityError::InvalidMint)
                } else {
                    Ok(m)
                },
            },
        },
    }
}

/// Validates the JitoSOL mint against the pool's withdraw authority.
pub fn mint_account(account: &AccountView, authority: &Pubkey) -> (r: JitoIdentityResult<MintFields>)
    ensures
        r == spec_mint_account(*account, *authority),
{
    validate_state_account(account, &token_program_id())?;
    let data = match &account.data {
        None => return Err(JitoIdentityError::BorrowFailed),
        Some(d) => d,
    };
    let mint = match unpack_mint(data) {
        None => return Err(JitoIdentityError::InvalidMint),
        Some(m) => m,
    };
    let authorized = match mint.mint_authority {
        Some(a) => Pubkey::new_from_array(a) == *authority,
        None => false,
    };
    if mint.decimals != 9 || !authorized || mint.freeze_authority.is_some() {
        return Err(JitoIdentityError::InvalidMint);
    }
    Ok(mint)
}

/// Owned identity evidence, not execution readiness.
#[derive(Clone, Copy, Debug, PartialEq, Eq)]
pub struct AuthenticatedJitoIdentity {
    keys: DeclaredJitoKeys,
    pool: PoolIdentityFields,
    withdraw_authority: Pubkey,
    list: ValidatorListGeometry,
    reserve: ReserveIdentityFields,
    mint: MintFields,
    manager_fee: TokenAccountFields,
    referrer: TokenAccountFields,
}

/// What authenticated identity evidence holds.
pub struct JitoIdentityView {
    pub keys: DeclaredJitoKeys,
    pub pool: PoolIdentityFields,
    pub withdraw_authority: Pubkey,
    pub list: ValidatorListGeometry,
    pub reserve: ReserveIdentityFields,
    pub mint: MintFields,
    pub manager_fee: TokenAccountFields,
    pub referrer: TokenAccountFields,
}

impl View for AuthenticatedJitoIdentity {
    type V = JitoIdentityView;

    closed spec fn view(&self) -> JitoIdentityView {
        JitoIdentityView {
            keys: self.keys,
            pool: self.pool,
            withdraw_authority: self.withdraw_authority,
            list: self.list,
            reserve: self.reserve,
            mint: self.mint,
            manager_fee: self.manager_fee,
            referrer: self.referrer,
        }
    }
}

impl AuthenticatedJitoIdentity {
    pub fn keys(&self) -> (r: &DeclaredJitoKeys)
        ensures
            *r == self@.keys,
    {
        &self.keys
    }

    pub fn pool(&self) -> (r: &PoolIdentityFields)
        ensures
            *r == self@.pool,
    {
        &self.pool
    }

    pub fn withdraw_authority(&self) -> (r: Pubkey)
        ensures
            r == self@.withdraw_authority,
    {
        self.withdraw_authority
    }

    pub fn validator_list(&self) -> (r: ValidatorListGeometry)
        ensures
            r == self@.list,
    {
        self.list
    }

    pub fn reserve(&self) -> (r: ReserveIdentityFields)
        ensures
            r == self@.reserve,
    {
        self.reserve
    }

    pub fn mint(&self) -> (r: &MintFields)
        ensures
            *r == self@.mint,
    {
        &self.mint
    }

    pub fn manager_fee(&self) -> (r: &TokenAccountFields)
        ensures
            *r == self@.manager_fee,
    {
        &self.manager_fee
    }

    pub fn referrer(&self) -> (r: &TokenAccountFields)
        ensures
            *r == self@.referrer,
    {
        &self.referrer
    }
}

/// The decoded pool binds the declared list, reserve and fee receiver, the
/// JitoSOL mint, the Token program and the canonical withdraw bump, with no lockup.
pub open spec fn pool_binds(pool: PoolIdentityFields, declared: DeclaredJitoKeys, bump: u8) -> bool {
    pool.validator_list == declared.validator_list && pool.reserve_stake == declared.reserve
        && pool.pool_mint == jitosol_mint_key() && pool.manager_fee_account == declared.manager_fee
        && pool.token_program_id == token_program_key() && pool.stake_withdraw_bump_seed == bump
        && pool.lockup == no_lockup()
}

/// Checks of the declared identities, the account keys and the program account.
pub open spec fn spec_declared_identity(declared: DeclaredJitoKeys, accounts: JitoIdentityAccountInfos) -> JitoIdentityResult<()> {
    if declared.program != jito_stake_pool_program_key() || declared.pool != jito_stake_pool_key()
        || declared.mint != jitosol_mint_key() {
        Err(JitoIdentityError::InvalidIdentity)
    } else {
        match identity_scan(accounts.spec_keys(), declared.spec_keys(), 0) {
            Err(e) => Err(e),
            Ok(_) => spec_program_account(accounts.program),
        }
    }
}

/// Checks of the pool account and its binding to the declarations.
pub open spec fn spec_bound_pool(declared: DeclaredJitoKeys, account: AccountView) -> JitoIdentityResult<PoolIdentityFields> {
    match spec_state_account(account, jito_stake_pool_program_key()) {
        Err(e) => Err(e),
        Ok(_) => match account.data {
            None => Err(JitoIdentityError::BorrowFailed),
            Some(d) => match spec_decode_pool(d@) {
                Err(e) => Err(e),
                Ok(pool) => if !pool_binds(pool, declared, withdraw_authority().1) {
                    Err(JitoIdentityError::InvalidPool)
                } else {
                    Ok(pool)
                },
            },
        },
    }
}

/// Outcome of the identity check, up to and including the pool binding.
pub open spec fn spec_identity_prefix(
    declared: DeclaredJitoKeys,
    accounts: JitoIdentityAccountInfos,
) -> JitoIdentityResult<PoolIdentityFields> {
    match spec_declared_identity(declared, accounts) {
        Err(e) => Err(e),
        Ok(_) => spec_bound_pool(declared, accounts.pool),
    }
}

/// Outcome of the identity check after the pool: list, reserve, mint and the
/// two receivers.
pub open spec fn spec_identity_rest(
    declared: DeclaredJitoKeys,
    accounts: JitoIdentityAccountInfos,
    pool: PoolIdentityFields,
) -> JitoIdentityResult<JitoIdentityView> {
    let authority = withdraw_authority().0;
    match spec_state_account(accounts.validator_list, jito_stake_pool_program_key()) {
        Err(e) => Err(e),
        Ok(_) => match accounts.validator_list.data {
            None => Err(JitoIdentityError::BorrowFailed),
            Some(ld) => match spec_decode_list(ld@) {
                Err(e) => Err(e),
                Ok(list) => match spec_state_account(accounts.reserve, stake_program_key()) {
                    Err(e) => Err(e),
                    Ok(_) => match accounts.reserve.data {
                        None => Err(JitoIdentityError::BorrowFailed),
                        Some(rd) => match spec_decode_reserve(rd@, authority) {
                            Err(e) => Err(e),
                            Ok(reserve) => match spec_mint_account(accounts.mint, authority) {
                                Err(e) => Err(e),
                                Ok(mint) => match spec_receiver(accounts.manager_fee) {
                                    Err(e) => Err(e),
                                    Ok(manager_fee) => match spec_receiver(accounts.referrer) {
                                        Err(e) => Err(e),
                                        Ok(referrer) => Ok(JitoIdentityView {
                                            keys: declared,
                                            pool,
                                            withdraw_authority: authority,
                                            list,
                                            reserve,
                                            mint,
                                            manager_fee,
                                            referrer,
                                        }),
                                    },
                                },
                            },
                        },
                    },
                },
            },
        },
    }
}

/// Outcome of authenticating the seven identity accounts.
pub open spec fn spec_authenticate_jito(
    declared: DeclaredJitoKeys,
    accounts: JitoIdentityAccountInfos,
) -> JitoIdentityResult<JitoIdentityView> {
    match spec_identity_prefix(declared, accounts) {
        Err(e) => Err(e),
        Ok(pool) => spec_identity_rest(declared, accounts, pool),
    }
}

/// In order, requires each key to be its declared nonzero key and not to
/// repeat an earlier one, except the referrer repeating the manager-fee receiver.
pub fn validate_identity_keys(keys: &[Pubkey], declared: &[Pubkey]) -> (r: JitoIdentityResult<()>)
    requires
        keys@.len() == declared@.len(),
    ensures
        r == identity_scan(keys@, declared@, 0),
{
    let n = keys.len();
    let mut i: usize = 0;
    while i < n
        invariant
            i <= n,
            n == keys@.len(),
            n == declared@.len(),
            identity_scan(keys@, declared@, 0) == identity_scan(keys@, declared@, i as int),
        decreases n - i,
    {
        if keys[i] != declared[i] || keys[i] == (Pubkey { w0: 0, w1: 0, w2: 0, w3: 0 }) {
            return Err(JitoIdentityError::InvalidIdentity);
        }
        let mut p: usize = 0;
        while p < i
            invariant
                p <= i < n,
                n == keys@.len(),
                n == declared@.len(),
                keys@[i as int] == declared@[i as int],
                !keys@[i as int].is_zero(),
                identity_scan(keys@, declared@, 0) == identity_scan(keys@, declared@, i as int),
                forall|q: int| 0 <= q < p ==> !(keys@[q] == keys@[i as int] && !(i == 6 && q == 5)),
            decreases i - p,
        {
            if keys[p] == keys[i] && !(i == 6 && p == 5) {
                return Err(JitoIdentityError::AccountAlias);
            }
            p = p + 1;
        }
        i = i + 1;
    }
    Ok(())
}

/// Checks the declared identities, the account keys and the program account.
fn check_declared_identity(declared: &DeclaredJitoKeys, accounts: &JitoIdentityAccountInfos) -> (r: JitoIdentityResult<()>)
    requires
        jito_addresses_derivable(),
    ensures
        r == spec_declared_identity(*declared, *accounts),
{
    if declared.program != jito_stake_pool_program() || declared.pool != jito_stake_pool()
        || declared.mint != jitosol_mint() {
        return Err(JitoIdentityError::InvalidIdentity);
    }
    let keys = [accounts.program.key, accounts.pool.key, accounts.validator_list.key, accounts.reserve.key,
        accounts.mint.key, accounts.manager_fee.key, accounts.referrer.key];
    let expected = [declared.program, declared.pool, declared.validator_list, declared.reserve,
        declared.mint, declared.manager_fee, declared.referrer];
    assert(keys@ =~= accounts.spec_keys());
    assert(expected@ =~= declared.spec_keys());
    validate_identity_keys(&keys, &expected)?;
    proof {
        reveal_with_fuel(identity_scan, 2);
    }
    assert(accounts.program.key == keys@[0]);
    validate_program_account(&accounts.program)
}

/// Checks the pool account and its binding to the declarations.
fn bound_pool(declared: &DeclaredJitoKeys, account: &AccountView) -> (r: JitoIdentityResult<PoolIdentityFields>)
    requires
        jito_addresses_derivable(),
    ensures
        r == spec_bound_pool(*declared, *account),
{
    validate_state_account(account, &jito_stake_pool_program())?;
    let pool = match &account.data {
        None => return Err(JitoIdentityError::BorrowFailed),
        Some(d) => decode_pool(d.as_slice())?,
    };
    let (withdraw_seeds, _) = jito_derivation_seeds();
    let (_, bump) = find_derived(&withdraw_seeds, &jito_stake_pool_program());
    if pool.validator_list != declared.validator_list || pool.reserve_stake != declared.reserve
        || pool.pool_mint != jitosol_mint() || pool.manager_fee_account != declared.manager_fee
        || pool.token_program_id != token_program_id() || pool.stake_withdraw_bump_seed != bump
        || pool.lockup != RawLockup::default() {
        return Err(JitoIdentityError::InvalidPool);
    }
    Ok(pool)
}

/// Checks the validator list, reserve, mint and receivers after the pool.
fn authenticate_after_pool(declared: &DeclaredJitoKeys, accounts: &JitoIdentityAccountInfos, pool: PoolIdentityFields) -> (r:
    JitoIdentityResult<AuthenticatedJitoIdentity>)
    requires
        jito_addresses_derivable(),
    ensures
        match r {
            Ok(id) => spec_identity_rest(*declared, *accounts, pool) == Ok::<JitoIdentityView, JitoIdentityError>(id@),
            Err(e) => spec_identity_rest(*declared, *accounts, pool) == Err::<JitoIdentityView, JitoIdentityError>(e),
        },
{
    let (withdraw_seeds, _) = jito_derivation_seeds();
    let (authority, _) = find_derived(&withdraw_seeds, &jito_stake_pool_program());
    validate_state_account(&accounts.validator_list, &jito_stake_pool_program())?;
    let list = match &accounts.validator_list.data {
        None => return Err(JitoIdentityError::BorrowFailed),
        Some(d) => decode_list(d.as_slice())?,
    };
    validate_state_account(&accounts.reserve, &stake_program_id())?;
    let reserve = match &accounts.reserve.data {
        None => return Err(JitoIdentityError::BorrowFailed),
        Some(d) => decode_reserve(d.as_slice(), &authority)?,
    };
    let mint = mint_account(&accounts.mint, &authority)?;
    let manager_fee = receiver(&accounts.manager_fee)?;
    let referrer = receiver(&accounts.referrer)?;
    Ok(AuthenticatedJitoIdentity {
        keys: *declared,
        pool,
        withdraw_authority: authority,
        list,
        reserve,
        mint,
        manager_fee,
        referrer,
    })
}

/// Authenticates the seven Jito and SPL identity accounts against the fixed
/// program, pool and mint and the declared list, reserve and receivers.
/// Runtime accounts cannot attest cluster genesis or a deployed binary.
pub fn authenticate_jito_identity(declared: &DeclaredJitoKeys, accounts: &JitoIdentityAccountInfos) -> (r:
    JitoIdentityResult<AuthenticatedJitoIdentity>)
    requires
        jito_addresses_derivable(),
    ensures
        match r {
            Ok(id) => spec_authenticate_jito(*declared, *accounts) == Ok::<JitoIdentityView, JitoIdentityError>(id@),
            Err(e) => spec_authenticate_jito(*declared, *accounts) == Err::<JitoIdentityView, JitoIdentityError>(e),
        },
{
    check_declared_identity(declared, accounts)?;
    let pool = bound_pool(declared, &accounts.pool)?;
    authenticate_after_pool(declared, accounts, pool)
}

/// Authenticates the identity accounts where both fixed derivations have a
/// bump; `None` where one has none, where the runtime would abort instead.
pub fn try_authenticate_jito_identity(declared: &DeclaredJitoKeys, accounts: &JitoIdentityAccountInfos) -> (r:
    Option<JitoIdentityResult<AuthenticatedJitoIdentity>>)
    ensures
        r is None <==> !jito_addresses_derivable(),
        r matches Some(Ok(id)) ==> spec_authenticate_jito(*declared, *accounts) == Ok::<JitoIdentityView, JitoIdentityError>(id@),
        r matches Some(Err(e)) ==> spec_authenticate_jito(*declared, *accounts) == Err::<JitoIdentityView, JitoIdentityError>(e),
{
    if !check_jito_addresses_derivable() {
        return None;
    }
    Some(authenticate_jito_identity(declared, accounts))
}

} // verus!
