//! Bounded current-governance and preinitialization Squads authorization.
//!
//! The handler supplies its actual entrypoint account observations, role
//! indices and runtime context. Only a direct top-level Squads
//! `VaultTransactionExecute` containing one program instruction is supported:
//! no batch, lookup tables, ephemeral signers, stale configuration or
//! guardian-rotation choreography. The bootstrap boundary requires a virgin
//! Config address and returns current Squads member order, without reading
//! initialized guardian state. The returned evidence is point-invocation only,
//! not a reusable capability or a durable replay receipt.

use crate::account_view::{derive_address, distinct_keys, system_program_id, system_program_key, Seed, keys_distinct, key_seed, payload_len, spec_state_envelope, RentFloors, StateKind, le_bytes, spec_derive, sysvar_owner_id, sysvar_owner_key, AccountView};
use crate::address::{key_less, key_lt, pack_at, word_byte, Pubkey};
use crate::bitmap::{count_ones, spec_popcount};
use crate::codec::{key_at, pack_u16, pack_u32, read_u16_le, read_key, read_u32_le, read_u64_le, write_u64_le};
use crate::errors::{Piv1Error, Piv1Result};
use crate::guardian_clock_accounts::{
    authenticate_guardian_clock_snapshot, spec_authenticate_guardian_clock, AuthenticatedGuardianClockSnapshot, Clock,
    GuardianClockAccountInfos,
};
use crate::state::guardian::{GuardianRegistry, GuardianReward};
use crate::state::config::PivConfig;
use crate::squads_accounts::{
    authenticate_authority_accounts, multisig_seed, multisig_seed_bytes, spec_squads_authority, squads_v4_key,
    squads_v4_program_id, AuthenticatedSquadsAuthoritySnapshot, SquadsMultisigConfiguration,
};
use vstd::prelude::*;
use vstd::slice::{slice_subrange, slice_to_vec};

verus! {

/// Anchor discriminator of Squads' `vault_transaction_execute` instruction.
pub const VAULT_TRANSACTION_EXECUTE_DISCRIMINATOR: [u8; 8] = [194, 8, 161, 87, 153, 164, 25, 171];
/// Anchor discriminator of a Squads `Proposal` account.
pub const PROPOSAL_DISCRIMINATOR: [u8; 8] = [26, 94, 189, 187, 116, 136, 53, 33];
/// Anchor discriminator of a Squads `VaultTransaction` account.
pub const VAULT_TRANSACTION_DISCRIMINATOR: [u8; 8] = [168, 250, 162, 100, 81, 14, 162, 207];

/// Failures of Squads authorization. No instruction error mapping changes.
#[derive(Clone, Copy, Debug, PartialEq, Eq, Structural)]
pub enum SquadsExecutionError {
    HostRuntimeUnavailable,
    /// A runtime syscall failed; the runtime's error code.
    Runtime(u64),
    State(Piv1Error),
    InvalidInvocation,
    InvalidInstructionsSysvar,
    InvalidProposal,
    InvalidTransaction,
    UnsupportedMessage,
    MessageMismatch,
    TimelockNotReleased,
}

pub type SquadsExecutionResult<T> = Result<T, SquadsExecutionError>;

/// Handler mapping into the actual entrypoint account list. These are
/// indices, not a serialized interface or caller-selected context.
#[derive(Clone, Copy, Debug)]
pub struct SquadsExecutionRoles {
    pub program: usize,
    pub program_data: usize,
    pub multisig: usize,
    pub proposal: usize,
    pub transaction: usize,
    pub vault: usize,
    pub instructions: usize,
    pub config: usize,
    pub guardian_registry: usize,
    pub rewards: [usize; 6],
    pub clock: usize,
}

/// Handler roles for preinitialization. No registry or rewards exist at this
/// boundary; these indices must select actual entrypoint accounts.
#[derive(Clone, Copy, Debug)]
pub struct SquadsBootstrapRoles {
    pub program: usize,
    pub program_data: usize,
    pub multisig: usize,
    pub proposal: usize,
    pub transaction: usize,
    pub vault: usize,
    pub instructions: usize,
    pub config: usize,
}

/// The first index at which `key` occurs among `keys`.
pub open spec fn position_of(keys: [Pubkey; 6], key: Pubkey) -> Option<int> {
    if exists|i: int| 0 <= i < 6 && keys[i] == key {
        Some(choose|i: int| 0 <= i < 6 && keys[i] == key && forall|j: int| 0 <= j < i ==> keys[j] != key)
    } else {
        None
    }
}

/// The first index at which `key` occurs among `keys`.
pub fn find_position(keys: &[Pubkey; 6], key: &Pubkey) -> (r: Option<usize>)
    ensures
        match r {
            Some(i) => position_of(*keys, *key) == Some(i as int) && i < 6,
            None => position_of(*keys, *key) is None,
        },
{
    let mut i: usize = 0;
    while i < 6
        invariant
            i <= 6,
            forall|j: int| 0 <= j < i ==> keys[j] != *key,
        decreases 6 - i,
    {
        if keys[i] == *key {
            proof {
                let c = choose|c: int| 0 <= c < 6 && keys[c] == *key && forall|j: int| 0 <= j < c ==> keys[j] != *key;
                assert(0 <= i < 6 && keys[i as int] == *key && forall|j: int| 0 <= j < i ==> keys[j] != *key);
                if c < i {
                    assert(keys[c] != *key);
                }
                if c > i {
                    assert(keys[i as int] != *key);
                }
            }
            return Some(i);
        }
        i = i + 1;
    }
    None
}

/// The bitmap of the first `n` vote keys of the vector whose count stands at
/// `o`: keys strictly increasing, each a member with the vote permission.
pub open spec fn spec_vote_bits(s: Seq<u8>, o: int, c: SquadsMultisigConfiguration, n: int) -> SquadsExecutionResult<
    u8,
>
    decreases n,
{
    if n <= 0 {
        Ok(0)
    } else {
        match spec_vote_bits(s, o, c, n - 1) {
            Err(e) => Err(e),
            Ok(b) => {
                let at = o + 4 + 32 * (n - 1);
                if s.len() < at + 32 {
                    Err(SquadsExecutionError::InvalidTransaction)
                } else if n > 1 && !key_lt(key_at(s, at - 32), key_at(s, at)) {
                    Err(SquadsExecutionError::InvalidProposal)
                } else {
                    match position_of(c.member_keys, key_at(s, at)) {
                        None => Err(SquadsExecutionError::InvalidProposal),
                        Some(i) => if c.member_permissions[i] & 2 == 0 {
                            Err(SquadsExecutionError::InvalidProposal)
                        } else {
                            Ok(b | (1u8 << (i as u8)))
                        },
                    }
                }
            },
        }
    }
}

/// A refusal among the first `m` vote keys is the refusal of every longer prefix.
proof fn lemma_vote_error_persists(s: Seq<u8>, o: int, c: SquadsMultisigConfiguration, m: int, n: int)
    requires
        1 <= m <= n,
        spec_vote_bits(s, o, c, m) is Err,
    ensures
        spec_vote_bits(s, o, c, n) == spec_vote_bits(s, o, c, m),
    decreases n - m,
{
    if n > m {
        lemma_vote_error_persists(s, o, c, m, n - 1);
    }
}

/// One vote vector at `o`: its bitmap over member order and where it ends.
pub open spec fn spec_votes(s: Seq<u8>, o: int, c: SquadsMultisigConfiguration) -> SquadsExecutionResult<(u8, int)> {
    if s.len() < o + 4 {
        Err(SquadsExecutionError::InvalidTransaction)
    } else if pack_u32(s, o) > 6 {
        Err(SquadsExecutionError::InvalidProposal)
    } else {
        match spec_vote_bits(s, o, c, pack_u32(s, o) as int) {
            Err(e) => Err(e),
            Ok(b) => Ok((b, o + 4 + 32 * pack_u32(s, o))),
        }
    }
}

/// Reads one vote vector at `o`.
#[verifier::loop_isolation(false)]
fn votes(bytes: &[u8], o: usize, c: &SquadsMultisigConfiguration) -> (r: SquadsExecutionResult<(u8, usize)>)
    requires
        o <= bytes@.len(),
    ensures
        match r {
            Ok(v) => spec_votes(bytes@, o as int, *c) == Ok::<(u8, int), SquadsExecutionError>((v.0, v.1 as int))
                && v.1 <= bytes@.len(),
            Err(e) => spec_votes(bytes@, o as int, *c) == Err::<(u8, int), SquadsExecutionError>(e),
        },
{
    if bytes.len() - o < 4 {
        return Err(SquadsExecutionError::InvalidTransaction);
    }
    let count = read_u32_le(bytes, o);
    if count > 6 {
        return Err(SquadsExecutionError::InvalidProposal);
    }
    let n = count as usize;
    let mut bitmap: u8 = 0;
    let mut k: usize = 0;
    while k < n
        invariant
            o + 4 <= bytes@.len(),
            n <= 6,
            k <= n,
            spec_vote_bits(bytes@, o as int, *c, k as int) == Ok::<u8, SquadsExecutionError>(bitmap),
        decreases n - k,
    {
        if bytes.len() - o - 4 < 32 * k + 32 {
            proof {
                lemma_vote_error_persists(bytes@, o as int, *c, k + 1, n as int);
            }
            return Err(SquadsExecutionError::InvalidTransaction);
        }
        let at = o + 4 + 32 * k;
        let key = read_key(bytes, at);
        if k > 0 {
            let previous = read_key(bytes, at - 32);
            if !key_less(&previous, &key) {
                proof {
                    lemma_vote_error_persists(bytes@, o as int, *c, k + 1, n as int);
                }
                return Err(SquadsExecutionError::InvalidProposal);
            }
        }
        match find_position(&c.member_keys, &key) {
            None => {
                proof {
                    lemma_vote_error_persists(bytes@, o as int, *c, k + 1, n as int);
                }
                return Err(SquadsExecutionError::InvalidProposal);
            },
            Some(i) => {
                if c.member_permissions[i] & 2 == 0 {
                    proof {
                        lemma_vote_error_persists(bytes@, o as int, *c, k + 1, n as int);
                    }
                    return Err(SquadsExecutionError::InvalidProposal);
                }
                bitmap = bitmap | (1u8 << (i as u8));
            },
        }
        k = k + 1;
    }
    Ok((bitmap, o + 4 + 32 * n))
}

/// The ASCII bytes of `transaction`.
pub open spec fn transaction_seed_bytes() -> Seq<u8> {
    seq![116u8, 114, 97, 110, 115, 97, 99, 116, 105, 111, 110]
}

/// The ASCII bytes of `proposal`.
pub open spec fn proposal_seed_bytes() -> Seq<u8> {
    seq![112u8, 114, 111, 112, 111, 115, 97, 108]
}

/// Seeds of a vault transaction's address.
pub open spec fn transaction_seeds(multisig: Pubkey, index: u64) -> Seq<Seq<u8>> {
    seq![multisig_seed_bytes(), multisig.bytes(), transaction_seed_bytes(), le_bytes(index)]
}

/// Seeds of a proposal's address.
pub open spec fn proposal_seeds(multisig: Pubkey, index: u64) -> Seq<Seq<u8>> {
    transaction_seeds(multisig, index).push(proposal_seed_bytes())
}

/// The little-endian bytes of `x`, as one seed.
fn le_seed(x: u64) -> (r: Vec<u8>)
    ensures
        r@ == le_bytes(x),
{
    let mut le: [u8; 8] = [0u8; 8];
    write_u64_le(&mut le, 0, x);
    let r = slice_to_vec(le.as_slice());
    proof {
        assert forall|j: int| 0 <= j < 8 implies r@[j] == le_bytes(x)[j] by {
            assert(le@[0 + j] == word_byte(x, j as u64) as u8);
        }
        assert(r@ =~= le_bytes(x));
    }
    r
}

/// The seed list of a vault transaction's address, with `proposal` appended
/// when `proposal` is true.
fn transaction_address_seeds(multisig: &Pubkey, index: u64, proposal: bool) -> (r: Vec<Vec<u8>>)
    ensures
        r.deep_view() == (if proposal {
            proposal_seeds(*multisig, index)
        } else {
            transaction_seeds(*multisig, index)
        }),
{
    let transaction = vec![116u8, 114, 97, 110, 115, 97, 99, 116, 105, 111, 110];
    let mut r = vec![multisig_seed(), key_seed(multisig), transaction, le_seed(index)];
    proof {
        assert(r@[2]@ =~= transaction_seed_bytes());
        assert(r@[0].deep_view() =~= r@[0]@);
        assert(r@[1].deep_view() =~= r@[1]@);
        assert(r@[2].deep_view() =~= r@[2]@);
        assert(r@[3].deep_view() =~= r@[3]@);
        assert(r.deep_view() =~= transaction_seeds(*multisig, index));
    }
    if proposal {
        let tail = vec![112u8, 114, 111, 112, 111, 115, 97, 108];
        proof {
            assert(tail@ =~= proposal_seed_bytes());
        }
        r.push(tail);
        proof {
            assert(r@[4].deep_view() =~= r@[4]@);
            assert(r.deep_view() =~= proposal_seeds(*multisig, index));
        }
    }
    r
}

/// The proposal discriminator as a sequence.
pub open spec fn proposal_discriminator() -> Seq<u8> {
    seq![26u8, 94, 189, 187, 116, 136, 53, 33]
}

/// Whether the first eight bytes of `bytes` are `expected`.
fn has_prefix(bytes: &[u8], expected: &[u8; 8]) -> (r: bool)
    requires
        bytes@.len() >= 8,
    ensures
        r == (bytes@.subrange(0, 8) == expected@),
{
    let mut d: usize = 0;
    while d < 8
        invariant
            d <= 8,
            bytes@.len() >= 8,
            forall|k: int| 0 <= k < d ==> bytes@[k] == expected@[k],
        decreases 8 - d,
    {
        if bytes[d] != expected[d] {
            proof {
                assert(bytes@.subrange(0, 8)[d as int] != expected@[d as int]);
            }
            return false;
        }
        d = d + 1;
    }
    proof {
        assert(bytes@.subrange(0, 8) =~= expected@);
    }
    true
}

/// Vote tallies that approve: at least four approvals, no member both
/// approving and rejecting, fewer than three rejections and fewer than four
/// cancellations.
pub open spec fn tallies_approve(approved: u8, rejected: u8, cancelled: u8) -> bool {
    spec_popcount(approved) >= 4 && approved & rejected == 0 && spec_popcount(rejected) < 3 && spec_popcount(
        cancelled,
    ) < 4
}

/// Outcome of the proposal checks after the three vote vectors were read.
pub open spec fn spec_proposal_tail(
    s: Seq<u8>,
    c: SquadsMultisigConfiguration,
    now: i64,
    index: u64,
) -> SquadsExecutionResult<(u64, u8)> {
    match spec_votes(s, 58, c) {
        Err(e) => Err(e),
        Ok(a) => match spec_votes(s, a.1, c) {
            Err(e) => Err(e),
            Ok(j) => match spec_votes(s, j.1, c) {
                Err(e) => Err(e),
                Ok(x) => if !tallies_approve(a.0, j.0, x.0) {
                    Err(SquadsExecutionError::InvalidProposal)
                } else {
                    let elapsed = now as int - (pack_at(s, 49) as i64) as int;
                    if elapsed < i64::MIN || elapsed > i64::MAX || elapsed < c.time_lock as int {
                        Err(SquadsExecutionError::TimelockNotReleased)
                    } else {
                        Ok((index, a.0))
                    }
                },
            },
        },
    }
}

/// Outcome of the checks of a Squads `Proposal` account's bytes `s` at
/// `address` for `multisig`: an approved, in-range, non-stale transaction
/// index at its canonical address, current-member votes, and an elapsed time
/// lock at `now`. Short data is refused as `InvalidTransaction`.
pub open spec fn spec_validate_proposal(
    s: Seq<u8>,
    address: Pubkey,
    multisig: Pubkey,
    c: SquadsMultisigConfiguration,
    now: i64,
) -> SquadsExecutionResult<(u64, u8)> {
    if s.len() < 8 {
        Err(SquadsExecutionError::InvalidTransaction)
    } else if s.subrange(0, 8) != proposal_discriminator() {
        Err(SquadsExecutionError::InvalidProposal)
    } else if s.len() < 40 {
        Err(SquadsExecutionError::InvalidTransaction)
    } else if key_at(s, 8) != multisig {
        Err(SquadsExecutionError::InvalidProposal)
    } else if s.len() < 48 {
        Err(SquadsExecutionError::InvalidTransaction)
    } else {
        let index = pack_at(s, 40);
        if index == 0 || index <= c.stale_transaction_index || index > c.transaction_index {
            Err(SquadsExecutionError::InvalidProposal)
        } else if s.len() < 49 {
            Err(SquadsExecutionError::InvalidTransaction)
        } else if s[48] != 3 {
            Err(SquadsExecutionError::InvalidProposal)
        } else if s.len() < 58 {
            Err(SquadsExecutionError::InvalidTransaction)
        } else {
            match spec_derive(proposal_seeds(multisig, index), squads_v4_key()) {
                None => Err(SquadsExecutionError::InvalidProposal),
                Some(found) => if address != found.0 || s[57] != found.1 {
                    Err(SquadsExecutionError::InvalidProposal)
                } else {
                    spec_proposal_tail(s, c, now, index)
                },
            }
        }
    }
}

/// Validates an approved proposal and returns its transaction index and the
/// approving members' bitmap in Squads member order. Proposal accounts
/// reserve all vote vectors; their unused tail may be stale.
pub fn validate_proposal(
    bytes: &[u8],
    address: &Pubkey,
    multisig: &Pubkey,
    configuration: &SquadsMultisigConfiguration,
    now: i64,
) -> (r: SquadsExecutionResult<(u64, u8)>)
    ensures
        r == spec_validate_proposal(bytes@, *address, *multisig, *configuration, now),
{
    if bytes.len() < 8 {
        return Err(SquadsExecutionError::InvalidTransaction);
    }
    if !has_prefix(bytes, &PROPOSAL_DISCRIMINATOR) {
        proof {
            assert(PROPOSAL_DISCRIMINATOR@ =~= proposal_discriminator());
        }
        return Err(SquadsExecutionError::InvalidProposal);
    }
    proof {
        assert(PROPOSAL_DISCRIMINATOR@ =~= proposal_discriminator());
    }
    if bytes.len() < 40 {
        return Err(SquadsExecutionError::InvalidTransaction);
    }
    if read_key(bytes, 8) != *multisig {
        return Err(SquadsExecutionError::InvalidProposal);
    }
    if bytes.len() < 48 {
        return Err(SquadsExecutionError::InvalidTransaction);
    }
    let index = read_u64_le(bytes, 40);
    if index == 0 || index <= configuration.stale_transaction_index || index > configuration.transaction_index {
        return Err(SquadsExecutionError::InvalidProposal);
    }
    if bytes.len() < 49 {
        return Err(SquadsExecutionError::InvalidTransaction);
    }
    if bytes[48] != 3 {
        return Err(SquadsExecutionError::InvalidProposal);
    }
    if bytes.len() < 58 {
        return Err(SquadsExecutionError::InvalidTransaction);
    }
    let timestamp = read_u64_le(bytes, 49) as i64;
    let bump = bytes[57];
    match derive_address(&transaction_address_seeds(multisig, index, true), &squads_v4_program_id()) {
        None => {
            return Err(SquadsExecutionError::InvalidProposal);
        },
        Some(found) => {
            if *address != found.0 || bump != found.1 {
                return Err(SquadsExecutionError::InvalidProposal);
            }
        },
    }
    let (approved, o1) = votes(bytes, 58, configuration)?;
    let (rejected, o2) = votes(bytes, o1, configuration)?;
    let (cancelled, _o3) = votes(bytes, o2, configuration)?;
    if count_ones(approved) < 4 || approved & rejected != 0 || count_ones(rejected) >= 3 || count_ones(cancelled)
        >= 4 {
        return Err(SquadsExecutionError::InvalidProposal);
    }
    let elapsed = match now.checked_sub(timestamp) {
        None => {
            return Err(SquadsExecutionError::TimelockNotReleased);
        },
        Some(e) => e,
    };
    if elapsed < configuration.time_lock as i64 {
        return Err(SquadsExecutionError::TimelockNotReleased);
    }
    Ok((index, approved))
}

/// The account keys and signer and writable split of the one approved
/// message.
#[derive(Clone, Debug)]
pub struct SquadsMessage {
    pub keys: Vec<Pubkey>,
    pub num_signers: usize,
    pub writable_signers: usize,
    pub writable_non_signers: usize,
}

/// The mathematical content of a message: its keys and flag split.
pub struct MessageLayout {
    pub keys: Seq<Pubkey>,
    pub num_signers: int,
    pub writable_signers: int,
    pub writable_non_signers: int,
}

/// Flags of message key `index`: bit 0 signer, bit 1 writable.
pub open spec fn spec_message_flags(num_signers: int, writable_signers: int, writable_non_signers: int, index: int) -> u8 {
    (if index < num_signers {
        1u8
    } else {
        0u8
    }) | (if index < writable_signers || (index >= num_signers && index - num_signers < writable_non_signers) {
        2u8
    } else {
        0u8
    })
}

impl SquadsMessage {
    pub open spec fn layout(self) -> MessageLayout {
        MessageLayout {
            keys: self.keys@,
            num_signers: self.num_signers as int,
            writable_signers: self.writable_signers as int,
            writable_non_signers: self.writable_non_signers as int,
        }
    }

    /// Number of account keys.
    pub fn len(&self) -> (r: usize)
        ensures
            r == self.keys@.len(),
    {
        self.keys.len()
    }

    /// Flags of key `index`: bit 0 signer, bit 1 writable.
    pub fn flags(&self, index: usize) -> (r: u8)
        ensures
            r == spec_message_flags(
                self.num_signers as int,
                self.writable_signers as int,
                self.writable_non_signers as int,
                index as int,
            ),
    {
        let signer: u8 = if index < self.num_signers {
            1
        } else {
            0
        };
        let writable: u8 = if index < self.writable_signers || (index >= self.num_signers && index - self.num_signers
            < self.writable_non_signers) {
            2
        } else {
            0
        };
        signer | writable
    }
}

/// Flags of an account observation: bit 0 signer, bit 1 writable.
pub open spec fn account_flags(account: AccountView) -> u8 {
    (if account.is_signer {
        1u8
    } else {
        0u8
    }) | (if account.is_writable {
        2u8
    } else {
        0u8
    })
}

/// The vault-transaction discriminator as a sequence.
pub open spec fn vault_transaction_discriminator() -> Seq<u8> {
    seq![168u8, 250, 162, 100, 81, 14, 162, 207]
}

/// Message key `i` of a vault transaction.
pub open spec fn tx_key(s: Seq<u8>, i: int) -> Pubkey {
    key_at(s, 94 + 32 * i)
}

/// The fixed prefix of a vault transaction: discriminator, multisig, index,
/// canonical transaction address and bump, vault index and vault bump.
pub open spec fn spec_transaction_prefix(
    s: Seq<u8>,
    address: Pubkey,
    multisig: Pubkey,
    vault: Pubkey,
    vault_index: u8,
    index: u64,
) -> bool {
    &&& s.len() >= 83
    &&& s.subrange(0, 8) == vault_transaction_discriminator()
    &&& key_at(s, 8) == multisig
    &&& pack_at(s, 72) == index
    &&& spec_derive(transaction_seeds(multisig, index), squads_v4_key()) matches Some(t)
        && address == t.0 && s[80] == t.1
    &&& s[81] == vault_index
    &&& spec_derive(crate::squads_accounts::vault_seeds(multisig, vault_index), squads_v4_key()) matches Some(v)
        && vault == v.0 && s[82] == v.1
}

/// The message header's counts are in range for `n` supplied accounts.
pub open spec fn header_in_range(s: Seq<u8>, n: int) -> bool {
    let kc = pack_u32(s, 90) as int;
    let ns = s[87] as int;
    let ws = s[88] as int;
    let wns = s[89] as int;
    kc != 0 && kc <= 256 && kc <= n + 1 && ns <= kc && ws <= ns && wns <= kc - ns
}

/// Per-position checks of the first `m` instruction account indices at `a`.
pub open spec fn spec_positions(s: Seq<u8>, a: int, accounts: Seq<AccountView>, m: int) -> SquadsExecutionResult<()>
    decreases m,
{
    if m <= 0 {
        Ok(())
    } else {
        match spec_positions(s, a, accounts, m - 1) {
            Err(e) => Err(e),
            Ok(_) => {
                let p = m - 1;
                let x = s[a + p] as int;
                if s.subrange(a, a + p).contains(s[a + p]) {
                    Err(SquadsExecutionError::UnsupportedMessage)
                } else if x >= pack_u32(s, 90) {
                    Err(SquadsExecutionError::InvalidTransaction)
                } else if tx_key(s, x) != accounts[p].key || spec_message_flags(s[87] as int, s[88] as int, s[89] as int, x)
                    != account_flags(accounts[p]) {
                    Err(SquadsExecutionError::MessageMismatch)
                } else {
                    Ok(())
                }
            },
        }
    }
}

/// Outcome of reading a vault transaction's message, after the prefix and the
/// header checks: unique keys, one instruction for `program` over exactly the
/// supplied accounts with matching keys and flags, every key used, the exact
/// instruction data, and no lookup tables or trailing bytes.
pub open spec fn spec_message_body(s: Seq<u8>, program: Pubkey, accounts: Seq<AccountView>, data: Seq<u8>) -> SquadsExecutionResult<()> {
    let kc = pack_u32(s, 90) as int;
    let k = 94 + 32 * kc;
    if s.len() < k {
        Err(SquadsExecutionError::InvalidTransaction)
    } else if exists|i: int, j: int| 0 <= j < i < kc && tx_key(s, i) == tx_key(s, j) {
        Err(SquadsExecutionError::UnsupportedMessage)
    } else if s.len() < k + 4 {
        Err(SquadsExecutionError::InvalidTransaction)
    } else if pack_u32(s, k) != 1 {
        Err(SquadsExecutionError::UnsupportedMessage)
    } else if s.len() < k + 5 {
        Err(SquadsExecutionError::InvalidTransaction)
    } else if s[k + 4] as int >= kc {
        Err(SquadsExecutionError::InvalidTransaction)
    } else if tx_key(s, s[k + 4] as int) != program {
        Err(SquadsExecutionError::MessageMismatch)
    } else if s.len() < k + 9 {
        Err(SquadsExecutionError::InvalidTransaction)
    } else if pack_u32(s, k + 5) as int != accounts.len() {
        Err(SquadsExecutionError::MessageMismatch)
    } else {
        let a = k + 9;
        let count = accounts.len() as int;
        if s.len() < a + count {
            Err(SquadsExecutionError::InvalidTransaction)
        } else {
            match spec_positions(s, a, accounts, count) {
                Err(e) => Err(e),
                Ok(_) => if exists|x: u8|
                    (x as int) < kc && x != s[k + 4] && !#[trigger] s.subrange(a, a + count).contains(x) {
                    Err(SquadsExecutionError::UnsupportedMessage)
                } else {
                    let d = a + count;
                    if s.len() < d + 4 {
                        Err(SquadsExecutionError::InvalidTransaction)
                    } else if pack_u32(s, d) as int != data.len() {
                        Err(SquadsExecutionError::MessageMismatch)
                    } else if s.len() < d + 4 + data.len() {
                        Err(SquadsExecutionError::InvalidTransaction)
                    } else if s.subrange(d + 4, d + 4 + data.len()) != data {
                        Err(SquadsExecutionError::MessageMismatch)
                    } else if s.len() < d + 8 + data.len() {
                        Err(SquadsExecutionError::InvalidTransaction)
                    } else if pack_u32(s, d + 4 + data.len()) != 0 || s.len() != d + 8 + data.len() {
                        Err(SquadsExecutionError::UnsupportedMessage)
                    } else {
                        Ok(())
                    }
                },
            }
        }
    }
}

/// Outcome of the checks of a Squads `VaultTransaction` account's bytes `s`.
pub open spec fn spec_validate_transaction(
    s: Seq<u8>,
    address: Pubkey,
    multisig: Pubkey,
    vault: Pubkey,
    vault_index: u8,
    index: u64,
    program: Pubkey,
    accounts: Seq<AccountView>,
    data: Seq<u8>,
) -> SquadsExecutionResult<()> {
    if !spec_transaction_prefix(s, address, multisig, vault, vault_index, index) {
        Err(SquadsExecutionError::InvalidTransaction)
    } else if s.len() < 87 {
        Err(SquadsExecutionError::InvalidTransaction)
    } else if pack_u32(s, 83) != 0 {
        Err(SquadsExecutionError::UnsupportedMessage)
    } else if s.len() < 94 {
        Err(SquadsExecutionError::InvalidTransaction)
    } else if !header_in_range(s, accounts.len() as int) {
        Err(SquadsExecutionError::UnsupportedMessage)
    } else {
        spec_message_body(s, program, accounts, data)
    }
}

/// The message that a vault transaction's bytes lay out.
pub open spec fn tx_layout(s: Seq<u8>) -> MessageLayout {
    MessageLayout {
        keys: Seq::new(pack_u32(s, 90) as nat, |i: int| tx_key(s, i)),
        num_signers: s[87] as int,
        writable_signers: s[88] as int,
        writable_non_signers: s[89] as int,
    }
}

/// `m` is the message whose header and keys the vault transaction `s` holds.
pub open spec fn message_read(s: Seq<u8>, m: SquadsMessage) -> bool {
    &&& m.keys@.len() == pack_u32(s, 90)
    &&& m.num_signers == s[87]
    &&& m.writable_signers == s[88]
    &&& m.writable_non_signers == s[89]
    &&& forall|i: int| 0 <= i < m.keys@.len() ==> m.keys@[i] == #[trigger] tx_key(s, i)
}

/// Checks the fixed prefix of a vault transaction.
fn transaction_prefix(
    bytes: &[u8],
    address: &Pubkey,
    multisig: &Pubkey,
    vault: &Pubkey,
    vault_index: u8,
    index: u64,
) -> (r: bool)
    ensures
        r == spec_transaction_prefix(bytes@, *address, *multisig, *vault, vault_index, index),
{
    if bytes.len() < 83 {
        return false;
    }
    proof {
        assert(VAULT_TRANSACTION_DISCRIMINATOR@ =~= vault_transaction_discriminator());
    }
    if !has_prefix(bytes, &VAULT_TRANSACTION_DISCRIMINATOR) || read_key(bytes, 8) != *multisig || read_u64_le(bytes, 72)
        != index {
        return false;
    }
    let squads = squads_v4_program_id();
    let expected = derive_address(&transaction_address_seeds(multisig, index, false), &squads);
    let expected_vault = derive_address(&crate::squads_accounts::vault_address_seeds(multisig, vault_index), &squads);
    match (expected, expected_vault) {
        (Some(t), Some(v)) => *address == t.0 && bytes[80] == t.1 && bytes[81] == vault_index && *vault == v.0
            && bytes[82] == v.1,
        _ => false,
    }
}

/// Whether two of the first `kc` message keys are equal.
fn has_duplicate_key(keys: &Vec<Pubkey>) -> (r: bool)
    ensures
        r == exists|i: int, j: int| 0 <= j < i < keys@.len() && keys@[i] == keys@[j],
{
    let n = keys.len();
    let mut i: usize = 0;
    while i < n
        invariant
            i <= n,
            n == keys@.len(),
            forall|a: int, b: int| 0 <= b < a < i ==> keys@[a] != keys@[b],
        decreases n - i,
    {
        let mut j: usize = 0;
        while j < i
            invariant
                i < n,
                j <= i,
                n == keys@.len(),
                forall|a: int, b: int| 0 <= b < a < i ==> keys@[a] != keys@[b],
                forall|b: int| 0 <= b < j ==> keys@[i as int] != keys@[b],
            decreases i - j,
        {
            if keys[i] == keys[j] {
                return true;
            }
            j = j + 1;
        }
        i = i + 1;
    }
    false
}

/// Whether `x` occurs in `bytes[a..a + count]`.
fn occurs_in(bytes: &[u8], a: usize, count: usize, x: u8) -> (r: bool)
    requires
        a + count <= bytes@.len(),
    ensures
        r == bytes@.subrange(a as int, a + count).contains(x),
{
    let n = bytes.len();
    let mut q: usize = 0;
    while q < count
        invariant
            n == bytes@.len(),
            a + count <= bytes@.len(),
            q <= count,
            forall|z: int| 0 <= z < q ==> #[trigger] bytes@.subrange(a as int, a + count)[z] != x,
        decreases count - q,
    {
        assert(bytes@.subrange(a as int, a + count)[q as int] == bytes@[a + q]);
        if bytes[a + q] == x {
            proof {
                assert(bytes@.subrange(a as int, a + count)[q as int] == x);
            }
            return true;
        }
        q = q + 1;
    }
    false
}

/// A refusal among the first `m` positions is the refusal of every longer prefix.
proof fn lemma_position_error_persists(s: Seq<u8>, a: int, accounts: Seq<AccountView>, m: int, n: int)
    requires
        1 <= m <= n,
        spec_positions(s, a, accounts, m) is Err,
    ensures
        spec_positions(s, a, accounts, n) == spec_positions(s, a, accounts, m),
    decreases n - m,
{
    if n > m {
        lemma_position_error_persists(s, a, accounts, m, n - 1);
    }
}

/// The flags of an account observation.
fn flags_of(account: &AccountView) -> (r: u8)
    ensures
        r == account_flags(*account),
{
    let signer: u8 = if account.is_signer {
        1
    } else {
        0
    };
    let writable: u8 = if account.is_writable {
        2
    } else {
        0
    };
    signer | writable
}

/// Checks each instruction account index against the supplied account at its
/// position.
#[verifier::loop_isolation(false)]
fn check_positions(bytes: &[u8], a: usize, message: &SquadsMessage, accounts: &Vec<AccountView>) -> (r: SquadsExecutionResult<()>)
    requires
        a + accounts@.len() <= bytes@.len(),
        message_read(bytes@, *message),
        accounts@.len() <= 0xffff_ffff,
    ensures
        r == spec_positions(bytes@, a as int, accounts@, accounts@.len() as int),
{
    let count = accounts.len();
    let n = bytes.len();
    let mut p: usize = 0;
    while p < count
        invariant
            n == bytes@.len(),
            p <= count,
            spec_positions(bytes@, a as int, accounts@, p as int) == Ok::<(), SquadsExecutionError>(()),
        decreases count - p,
    {
        let x = bytes[a + p];
        if occurs_in(bytes, a, p, x) {
            proof {
                lemma_position_error_persists(bytes@, a as int, accounts@, p + 1, count as int);
            }
            return Err(SquadsExecutionError::UnsupportedMessage);
        }
        if x as usize >= message.keys.len() {
            proof {
                lemma_position_error_persists(bytes@, a as int, accounts@, p + 1, count as int);
            }
            return Err(SquadsExecutionError::InvalidTransaction);
        }
        let account = &accounts[p];
        if message.keys[x as usize] != account.key || message.flags(x as usize) != flags_of(account) {
            proof {
                lemma_position_error_persists(bytes@, a as int, accounts@, p + 1, count as int);
            }
            return Err(SquadsExecutionError::MessageMismatch);
        }
        p = p + 1;
    }
    Ok(())
}

/// Validates the vault transaction that the proposal approved: its canonical
/// address, vault and index, and a message of exactly one instruction for
/// `program` over the supplied accounts, with the same keys, signer and
/// writable flags, and instruction data. Returns the message's keys and
/// flag split.
#[verifier::loop_isolation(false)]
pub fn validate_transaction(
    bytes: &[u8],
    address: &Pubkey,
    multisig: &Pubkey,
    vault: &Pubkey,
    vault_index: u8,
    index: u64,
    program: &Pubkey,
    accounts: &Vec<AccountView>,
    data: &[u8],
) -> (r: SquadsExecutionResult<SquadsMessage>)
    ensures
        match r {
            Ok(m) => spec_validate_transaction(
                bytes@,
                *address,
                *multisig,
                *vault,
                vault_index,
                index,
                *program,
                accounts@,
                data@,
            ) is Ok && message_read(bytes@, m) && m.layout() == tx_layout(bytes@),
            Err(e) => spec_validate_transaction(
                bytes@,
                *address,
                *multisig,
                *vault,
                vault_index,
                index,
                *program,
                accounts@,
                data@,
            ) == Err::<(), SquadsExecutionError>(e),
        },
{
    let s = Ghost(bytes@);
    let n = bytes.len();
    if !transaction_prefix(bytes, address, multisig, vault, vault_index, index) {
        return Err(SquadsExecutionError::InvalidTransaction);
    }
    if n < 87 {
        return Err(SquadsExecutionError::InvalidTransaction);
    }
    if read_u32_le(bytes, 83) != 0 {
        return Err(SquadsExecutionError::UnsupportedMessage);
    }
    if n < 94 {
        return Err(SquadsExecutionError::InvalidTransaction);
    }
    let num_signers = bytes[87] as usize;
    let writable_signers = bytes[88] as usize;
    let writable_non_signers = bytes[89] as usize;
    let key_count = read_u32_le(bytes, 90) as usize;
    if key_count == 0 || key_count > 256 || key_count - 1 > accounts.len() || num_signers > key_count
        || writable_signers > num_signers || writable_non_signers > key_count - num_signers {
        return Err(SquadsExecutionError::UnsupportedMessage);
    }
    let k = 94 + 32 * key_count;
    if n < k {
        return Err(SquadsExecutionError::InvalidTransaction);
    }
    let mut keys: Vec<Pubkey> = Vec::new();
    let mut i: usize = 0;
    while i < key_count
        invariant
            i <= key_count <= 256,
            k == 94 + 32 * key_count,
            k <= n == bytes@.len(),
            keys@.len() == i,
            forall|j: int| 0 <= j < i ==> keys@[j] == #[trigger] tx_key(bytes@, j),
        decreases key_count - i,
    {
        keys.push(read_key(bytes, 94 + 32 * i));
        i = i + 1;
    }
    let message = SquadsMessage { keys, num_signers, writable_signers, writable_non_signers };
    if has_duplicate_key(&message.keys) {
        proof {
            let (a, b) = choose|a: int, b: int| 0 <= b < a < message.keys@.len() && message.keys@[a] == message.keys@[b];
            assert(tx_key(s@, a) == tx_key(s@, b));
        }
        return Err(SquadsExecutionError::UnsupportedMessage);
    }
    proof {
        assert forall|a: int, b: int| 0 <= b < a < key_count implies tx_key(s@, a) != tx_key(s@, b) by {
            assert(message.keys@[a] == tx_key(s@, a));
            assert(message.keys@[b] == tx_key(s@, b));
        }
    }
    if n - k < 4 {
        return Err(SquadsExecutionError::InvalidTransaction);
    }
    if read_u32_le(bytes, k) != 1 {
        return Err(SquadsExecutionError::UnsupportedMessage);
    }
    if n - k < 5 {
        return Err(SquadsExecutionError::InvalidTransaction);
    }
    let program_index = bytes[k + 4] as usize;
    if program_index >= key_count {
        return Err(SquadsExecutionError::InvalidTransaction);
    }
    if message.keys[program_index] != *program {
        return Err(SquadsExecutionError::MessageMismatch);
    }
    if n - k < 9 {
        return Err(SquadsExecutionError::InvalidTransaction);
    }
    let count = read_u32_le(bytes, k + 5) as usize;
    if count != accounts.len() {
        return Err(SquadsExecutionError::MessageMismatch);
    }
    let a = k + 9;
    if n - a < count {
        return Err(SquadsExecutionError::InvalidTransaction);
    }
    check_positions(bytes, a, &message, accounts)?;
    let mut x: usize = 0;
    while x < key_count
        invariant
            x <= key_count <= 256,
            a + count <= n == bytes@.len(),
            forall|y: u8|
                (y as int) < x && y != bytes@[k + 4] ==> #[trigger] bytes@.subrange(a as int, a + count).contains(y),
        decreases key_count - x,
    {
        if x != program_index && !occurs_in(bytes, a, count, x as u8) {
            proof {
                let w = x as u8;
                assert((w as int) < key_count && w != bytes@[k + 4] && !bytes@.subrange(a as int, a + count).contains(w));
            }
            return Err(SquadsExecutionError::UnsupportedMessage);
        }
        x = x + 1;
    }
    let d = a + count;
    if n - d < 4 {
        return Err(SquadsExecutionError::InvalidTransaction);
    }
    let data_len = read_u32_le(bytes, d) as usize;
    if data_len != data.len() {
        return Err(SquadsExecutionError::MessageMismatch);
    }
    if n - (d + 4) < data_len {
        return Err(SquadsExecutionError::InvalidTransaction);
    }
    let mut j: usize = 0;
    while j < data_len
        invariant
            j <= data_len == data@.len(),
            d + 4 + data_len <= n == bytes@.len(),
            forall|z: int| 0 <= z < j ==> #[trigger] bytes@.subrange(d + 4, d + 4 + data_len)[z] == data@[z],
        decreases data_len - j,
    {
        assert(bytes@.subrange(d + 4, d + 4 + data_len)[j as int] == bytes@[d + 4 + j]);
        if bytes[d + 4 + j] != data[j] {
            proof {
                assert(bytes@.subrange(d + 4, d + 4 + data_len)[j as int] != data@[j as int]);
            }
            return Err(SquadsExecutionError::MessageMismatch);
        }
        j = j + 1;
    }
    proof {
        assert(bytes@.subrange(d + 4, d + 4 + data_len) =~= data@);
    }
    let e = d + 4 + data_len;
    if n - e < 4 {
        return Err(SquadsExecutionError::InvalidTransaction);
    }
    if read_u32_le(bytes, e) != 0 || n != e + 4 {
        return Err(SquadsExecutionError::UnsupportedMessage);
    }
    proof {
        assert(message.layout().keys =~= tx_layout(bytes@).keys);
    }
    Ok(message)
}

/// The instructions sysvar, `Sysvar1nstructions1111111111111111111111111`.
pub open spec fn instructions_sysvar_key() -> Pubkey {
    Pubkey { w0: 0x66d17b1817d5a706, w1: 0xc0c2fd5504d4da35, w2: 0xa57556218fc624c1, w3: 0x85fcbbadb }
}

/// `sysvar::instructions::ID`, declared as
/// `Sysvar1nstructions1111111111111111111111111`; the contract states the 32
/// bytes that this base-58 text decodes to.
#[verifier::external_body]
fn instructions_sysvar_bytes() -> (r: [u8; 32])
    ensures
        r@ == instructions_sysvar_key().bytes(),
{
    anchor_lang::solana_program::sysvar::instructions::ID.to_bytes()
}

/// The instructions sysvar's address.
pub fn instructions_sysvar_id() -> (r: Pubkey)
    ensures
        r == instructions_sysvar_key(),
{
    let r = Pubkey::new_from_array(instructions_sysvar_bytes());
    proof {
        crate::address::lemma_bytes_roundtrip(instructions_sysvar_key());
    }
    r
}

/// Offset `i` of the instructions sysvar's offset table.
pub open spec fn table_offset(s: Seq<u8>, i: int) -> int {
    pack_u16(s, 2 + 2 * i) as int
}

/// Offset `i` is outside the body after the table, not increasing, or the
/// first offset does not start right after the table.
pub open spec fn offset_bad(s: Seq<u8>, i: int) -> bool {
    let te = 2 + 2 * (pack_u16(s, 0) as int);
    let be = s.len() - 2;
    table_offset(s, i) < te || table_offset(s, i) >= be || (i > 0 && table_offset(s, i) <= table_offset(s, i - 1))
        || (i == 0 && table_offset(s, i) != te)
}

/// The instructions sysvar's table: the current instruction's index and where
/// its serialization starts and ends.
pub open spec fn spec_outer_table(s: Seq<u8>) -> SquadsExecutionResult<(u16, int, int)> {
    if s.len() < 4 {
        Err(SquadsExecutionError::InvalidInstructionsSysvar)
    } else {
        let ic = pack_u16(s, 0) as int;
        let be = s.len() - 2;
        let current = pack_u16(s, s.len() - 2);
        if ic == 0 || 2 + 2 * ic > be {
            Err(SquadsExecutionError::InvalidInstructionsSysvar)
        } else if current as int >= ic {
            Err(SquadsExecutionError::InvalidInstructionsSysvar)
        } else if exists|i: int| 0 <= i < ic && #[trigger] offset_bad(s, i) {
            Err(SquadsExecutionError::InvalidInstructionsSysvar)
        } else {
            Ok(
                (
                    current,
                    table_offset(s, current as int),
                    if current as int + 1 < ic {
                        table_offset(s, current as int + 1)
                    } else {
                        be
                    },
                ),
            )
        }
    }
}

/// Checks of one fixed outer account meta at `q` of the instruction `g`.
pub open spec fn spec_fixed_meta(g: Seq<u8>, q: int, key: Pubkey, writable: bool) -> Option<SquadsExecutionError> {
    if g.len() < q + 1 {
        Some(SquadsExecutionError::InvalidTransaction)
    } else if g[q] & 0xfcu8 != 0 {
        Some(SquadsExecutionError::InvalidInvocation)
    } else if g.len() < q + 33 {
        Some(SquadsExecutionError::InvalidTransaction)
    } else if key_at(g, q + 1) != key || (writable && g[q] & 2 == 0) {
        Some(SquadsExecutionError::InvalidInvocation)
    } else {
        None
    }
}

/// Checks of the outer metas of the first `n` message keys.
pub open spec fn spec_outer_keys(g: Seq<u8>, m: MessageLayout, vault: Pubkey, n: int) -> SquadsExecutionResult<()>
    decreases n,
{
    if n <= 0 {
        Ok(())
    } else {
        match spec_outer_keys(g, m, vault, n - 1) {
            Err(e) => Err(e),
            Ok(_) => {
                let i = n - 1;
                let q = 134 + 33 * i;
                let flags = g[q];
                let key = key_at(g, q + 1);
                let requested = spec_message_flags(m.num_signers, m.writable_signers, m.writable_non_signers, i);
                if g.len() < q + 33 {
                    Err(SquadsExecutionError::InvalidTransaction)
                } else if flags & 0xfcu8 != 0 || key != m.keys[i] || (requested & 2 != 0 && flags & 2 == 0) || (
                requested & 1 != 0 && key != vault && flags & 1 == 0) {
                    Err(SquadsExecutionError::InvalidInvocation)
                } else {
                    Ok(())
                }
            },
        }
    }
}

/// The `vault_transaction_execute` discriminator as a sequence.
pub open spec fn execute_discriminator() -> Seq<u8> {
    seq![194u8, 8, 161, 87, 153, 164, 25, 171]
}

/// Checks of the current outer instruction `g`: the three governance metas,
/// a current member with the execute permission as executor, a meta for each
/// message key carrying at least the message's flags (the vault signs inside),
/// and the Squads program with the execute discriminator as its only data.
pub open spec fn spec_outer_instruction(
    g: Seq<u8>,
    m: MessageLayout,
    fixed: Seq<Pubkey>,
    vault: Pubkey,
    c: SquadsMultisigConfiguration,
) -> SquadsExecutionResult<()> {
    let t: int = 134 + 33 * (m.keys.len() as int);
    if g.len() < 2 {
        Err(SquadsExecutionError::InvalidTransaction)
    } else if pack_u16(g, 0) as int != 4 + m.keys.len() {
        Err(SquadsExecutionError::InvalidInvocation)
    } else if spec_fixed_meta(g, 2, fixed[0], false) is Some {
        Err(spec_fixed_meta(g, 2, fixed[0], false)->Some_0)
    } else if spec_fixed_meta(g, 35, fixed[1], true) is Some {
        Err(spec_fixed_meta(g, 35, fixed[1], true)->Some_0)
    } else if spec_fixed_meta(g, 68, fixed[2], false) is Some {
        Err(spec_fixed_meta(g, 68, fixed[2], false)->Some_0)
    } else if g.len() < 134 {
        Err(SquadsExecutionError::InvalidTransaction)
    } else if position_of(c.member_keys, key_at(g, 102)) is None {
        Err(SquadsExecutionError::InvalidInvocation)
    } else if g[101] & 0xfcu8 != 0 || g[101] & 1 == 0 || c.member_permissions[position_of(
        c.member_keys,
        key_at(g, 102),
    )->Some_0] & 4 == 0 {
        Err(SquadsExecutionError::InvalidInvocation)
    } else {
        match spec_outer_keys(g, m, vault, m.keys.len() as int) {
            Err(e) => Err(e),
            Ok(_) => if g.len() < t + 32 {
                Err(SquadsExecutionError::InvalidTransaction)
            } else if key_at(g, t) != squads_v4_key() {
                Err(SquadsExecutionError::InvalidInvocation)
            } else if g.len() < t + 34 {
                Err(SquadsExecutionError::InvalidTransaction)
            } else if pack_u16(g, t + 32) != 8 {
                Err(SquadsExecutionError::InvalidInvocation)
            } else if g.len() < t + 42 {
                Err(SquadsExecutionError::InvalidTransaction)
            } else if g.subrange(t + 34, t + 42) != execute_discriminator() || g.len() != t + 42 {
                Err(SquadsExecutionError::InvalidInvocation)
            } else {
                Ok(())
            },
        }
    }
}

/// Outcome of the outer-instruction checks on the instructions sysvar
/// `account`: the current top-level instruction is this Squads execute over
/// exactly the message's accounts. Returns the current instruction's index.
pub open spec fn spec_validate_outer(
    account: AccountView,
    m: MessageLayout,
    fixed: Seq<Pubkey>,
    vault: Pubkey,
    c: SquadsMultisigConfiguration,
) -> SquadsExecutionResult<u16> {
    if account.key != instructions_sysvar_key() || account.owner != sysvar_owner_key() || account.executable {
        Err(SquadsExecutionError::InvalidInstructionsSysvar)
    } else {
        match account.data {
            None => Err(SquadsExecutionError::State(Piv1Error::AccountBorrowFailed)),
            Some(d) => match spec_outer_table(d@) {
                Err(e) => Err(e),
                Ok(found) => match spec_outer_instruction(d@.subrange(found.1, found.2), m, fixed, vault, c) {
                    Err(e) => Err(e),
                    Ok(_) => Ok(found.0),
                },
            },
        }
    }
}

/// Reads the instructions sysvar's offset table.
#[verifier::loop_isolation(false)]
fn outer_table(d: &[u8]) -> (r: SquadsExecutionResult<(u16, usize, usize)>)
    ensures
        match r {
            Ok(v) => spec_outer_table(d@) == Ok::<(u16, int, int), SquadsExecutionError>((v.0, v.1 as int, v.2 as int))
                && v.1 <= v.2 <= d@.len(),
            Err(e) => spec_outer_table(d@) == Err::<(u16, int, int), SquadsExecutionError>(e),
        },
{
    let n = d.len();
    if n < 4 {
        return Err(SquadsExecutionError::InvalidInstructionsSysvar);
    }
    let be = n - 2;
    let ic = read_u16_le(d, 0) as usize;
    if ic == 0 || 2 + 2 * ic > be {
        return Err(SquadsExecutionError::InvalidInstructionsSysvar);
    }
    let te = 2 + 2 * ic;
    let current = read_u16_le(d, n - 2);
    let cur = current as usize;
    if cur >= ic {
        return Err(SquadsExecutionError::InvalidInstructionsSysvar);
    }
    let mut start: usize = 0;
    let mut end: usize = be;
    let mut previous: usize = 0;
    let mut i: usize = 0;
    while i < ic
        invariant
            i <= ic,
            forall|j: int| 0 <= j < i ==> !#[trigger] offset_bad(d@, j),
            i > 0 ==> previous as int == table_offset(d@, i - 1),
            cur < i ==> start as int == table_offset(d@, cur as int),
            end as int == (if cur as int + 1 < i {
                table_offset(d@, cur as int + 1)
            } else {
                be as int
            }),
        decreases ic - i,
    {
        let offset = read_u16_le(d, 2 + 2 * i) as usize;
        if offset < te || offset >= be || (i > 0 && offset <= previous) || (i == 0 && offset != te) {
            proof {
                assert(offset_bad(d@, i as int));
            }
            return Err(SquadsExecutionError::InvalidInstructionsSysvar);
        }
        if i == cur {
            start = offset;
        }
        if i == cur + 1 {
            end = offset;
        }
        previous = offset;
        i = i + 1;
    }
    proof {
        assert(!offset_bad(d@, cur as int));
        if cur + 1 < ic {
            assert(!offset_bad(d@, cur as int + 1));
        }
    }
    Ok((current, start, end))
}

/// Checks one fixed outer account meta at `q`.
fn fixed_meta(g: &[u8], q: usize, key: &Pubkey, writable: bool) -> (r: Option<SquadsExecutionError>)
    requires
        q <= 68,
    ensures
        r == spec_fixed_meta(g@, q as int, *key, writable),
{
    if g.len() < q + 1 {
        return Some(SquadsExecutionError::InvalidTransaction);
    }
    if g[q] & 0xfcu8 != 0 {
        return Some(SquadsExecutionError::InvalidInvocation);
    }
    if g.len() < q + 33 {
        return Some(SquadsExecutionError::InvalidTransaction);
    }
    if read_key(g, q + 1) != *key || (writable && g[q] & 2 == 0) {
        return Some(SquadsExecutionError::InvalidInvocation);
    }
    None
}

/// A refusal among the first `m` message metas is the refusal of every longer prefix.
proof fn lemma_outer_error_persists(g: Seq<u8>, msg: MessageLayout, vault: Pubkey, m: int, n: int)
    requires
        1 <= m <= n,
        spec_outer_keys(g, msg, vault, m) is Err,
    ensures
        spec_outer_keys(g, msg, vault, n) == spec_outer_keys(g, msg, vault, m),
    decreases n - m,
{
    if n > m {
        lemma_outer_error_persists(g, msg, vault, m, n - 1);
    }
}

/// Checks the outer metas of the message keys.
#[verifier::loop_isolation(false)]
fn outer_keys(g: &[u8], message: &SquadsMessage, vault: &Pubkey) -> (r: SquadsExecutionResult<()>)
    requires
        message.keys@.len() <= 256,
    ensures
        r == spec_outer_keys(g@, message.layout(), *vault, message.keys@.len() as int),
{
    let count = message.keys.len();
    let mut i: usize = 0;
    while i < count
        invariant
            i <= count,
            spec_outer_keys(g@, message.layout(), *vault, i as int) == Ok::<(), SquadsExecutionError>(()),
        decreases count - i,
    {
        let q = 134 + 33 * i;
        if g.len() < q + 33 {
            proof {
                lemma_outer_error_persists(g@, message.layout(), *vault, i + 1, count as int);
            }
            return Err(SquadsExecutionError::InvalidTransaction);
        }
        let flags = g[q];
        let key = read_key(g, q + 1);
        let requested = message.flags(i);
        if flags & 0xfcu8 != 0 || key != message.keys[i] || (requested & 2 != 0 && flags & 2 == 0) || (requested & 1
            != 0 && key != *vault && flags & 1 == 0) {
            proof {
                lemma_outer_error_persists(g@, message.layout(), *vault, i + 1, count as int);
            }
            return Err(SquadsExecutionError::InvalidInvocation);
        }
        i = i + 1;
    }
    Ok(())
}

/// Checks the current outer instruction's serialization.
fn outer_instruction(
    g: &[u8],
    message: &SquadsMessage,
    fixed: &[Pubkey; 3],
    vault: &Pubkey,
    configuration: &SquadsMultisigConfiguration,
) -> (r: SquadsExecutionResult<()>)
    requires
        message.keys@.len() <= 256,
    ensures
        r == spec_outer_instruction(g@, message.layout(), fixed@, *vault, *configuration),
{
    let n = g.len();
    if n < 2 {
        return Err(SquadsExecutionError::InvalidTransaction);
    }
    if read_u16_le(g, 0) as usize != 4 + message.keys.len() {
        return Err(SquadsExecutionError::InvalidInvocation);
    }
    match fixed_meta(g, 2, &fixed[0], false) {
        Some(e) => {
            return Err(e);
        },
        None => {},
    }
    match fixed_meta(g, 35, &fixed[1], true) {
        Some(e) => {
            return Err(e);
        },
        None => {},
    }
    match fixed_meta(g, 68, &fixed[2], false) {
        Some(e) => {
            return Err(e);
        },
        None => {},
    }
    if n < 134 {
        return Err(SquadsExecutionError::InvalidTransaction);
    }
    let executor_flags = g[101];
    let executor = read_key(g, 102);
    match find_position(&configuration.member_keys, &executor) {
        None => {
            return Err(SquadsExecutionError::InvalidInvocation);
        },
        Some(index) => {
            if executor_flags & 0xfcu8 != 0 || executor_flags & 1 == 0 || configuration.member_permissions[index] & 4
                == 0 {
                return Err(SquadsExecutionError::InvalidInvocation);
            }
        },
    }
    outer_keys(g, message, vault)?;
    let t = 134 + 33 * message.keys.len();
    if n < t + 32 {
        return Err(SquadsExecutionError::InvalidTransaction);
    }
    if read_key(g, t) != squads_v4_program_id() {
        return Err(SquadsExecutionError::InvalidInvocation);
    }
    if n < t + 34 {
        return Err(SquadsExecutionError::InvalidTransaction);
    }
    if read_u16_le(g, t + 32) != 8 {
        return Err(SquadsExecutionError::InvalidInvocation);
    }
    if n < t + 42 {
        return Err(SquadsExecutionError::InvalidTransaction);
    }
    let tail = slice_subrange(g, t + 34, t + 42);
    proof {
        assert(VAULT_TRANSACTION_EXECUTE_DISCRIMINATOR@ =~= execute_discriminator());
        assert(tail@.subrange(0, 8) =~= tail@);
    }
    if !has_prefix(tail, &VAULT_TRANSACTION_EXECUTE_DISCRIMINATOR) || n != t + 42 {
        return Err(SquadsExecutionError::InvalidInvocation);
    }
    Ok(())
}

/// Validates that the current top-level instruction, read from the
/// instructions sysvar, is this Squads execute over exactly the message's
/// accounts, with a current executor. Returns its index.
fn validate_outer(
    account: &AccountView,
    message: &SquadsMessage,
    fixed: &[Pubkey; 3],
    vault: &Pubkey,
    configuration: &SquadsMultisigConfiguration,
) -> (r: SquadsExecutionResult<u16>)
    requires
        message.keys@.len() <= 256,
    ensures
        r == spec_validate_outer(*account, message.layout(), fixed@, *vault, *configuration),
{
    if account.key != instructions_sysvar_id() || account.owner != sysvar_owner_id() || account.executable {
        return Err(SquadsExecutionError::InvalidInstructionsSysvar);
    }
    match &account.data {
        None => Err(SquadsExecutionError::State(Piv1Error::AccountBorrowFailed)),
        Some(d) => {
            let (current, start, end) = outer_table(d.as_slice())?;
            let g = slice_subrange(d.as_slice(), start, end);
            outer_instruction(g, message, fixed, vault, configuration)?;
            Ok(current)
        },
    }
}

/// Runtime context of an invocation: the instruction stack height, and the
/// Clock and rent floors that the runtime reported.
#[derive(Clone, Copy, Debug)]
pub struct SquadsInvocationContext {
    pub stack_height: usize,
    pub clock: Clock,
    pub rent: RentFloors,
}

/// Roles shared by the current-governance and the bootstrap paths.
#[derive(Clone, Copy, Debug)]
pub struct SquadsRoles {
    pub program: usize,
    pub program_data: usize,
    pub multisig: usize,
    pub proposal: usize,
    pub transaction: usize,
    pub vault: usize,
    pub instructions: usize,
}

/// An authorized Squads action: the governance accounts, the approved
/// transaction and the approving members in Squads' sorted member order.
#[derive(Clone, Copy, Debug, PartialEq, Eq)]
pub struct SquadsAction {
    pub program: Pubkey,
    pub multisig: Pubkey,
    pub proposal: Pubkey,
    pub transaction: Pubkey,
    pub vault: Pubkey,
    pub transaction_index: u64,
    pub top_level_index: u16,
    pub current_members: [Pubkey; 6],
    pub approved_member_bitmap: u8,
}

/// The keys of the supplied accounts, in order.
pub open spec fn spec_account_keys(accounts: Seq<AccountView>) -> Seq<Pubkey> {
    Seq::new(accounts.len(), |i: int| accounts[i].key)
}

/// Role index `i` is out of range or repeated later.
pub open spec fn role_bad(indices: Seq<usize>, i: int, n: int) -> bool {
    indices[i] >= n || indices.subrange(i + 1, indices.len() as int).contains(indices[i])
}

/// Checks of the supplied accounts and the role indices into them: one to
/// 256 accounts with distinct keys, and distinct in-range indices.
pub open spec fn spec_roles(accounts: Seq<AccountView>, indices: Seq<usize>) -> SquadsExecutionResult<()> {
    if accounts.len() == 0 || accounts.len() > 256 {
        Err(SquadsExecutionError::InvalidInvocation)
    } else if !keys_distinct(spec_account_keys(accounts)) {
        Err(SquadsExecutionError::State(Piv1Error::AccountAlias))
    } else if exists|i: int| 0 <= i < indices.len() && #[trigger] role_bad(indices, i, accounts.len() as int) {
        Err(SquadsExecutionError::InvalidInvocation)
    } else {
        Ok(())
    }
}

/// Whether `x` occurs in `s[from..]`.
fn occurs_after(s: &[usize], from: usize, x: usize) -> (r: bool)
    requires
        from <= s@.len(),
    ensures
        r == s@.subrange(from as int, s@.len() as int).contains(x),
{
    let n = s.len();
    let mut q: usize = from;
    while q < n
        invariant
            from <= q <= n == s@.len(),
            forall|z: int| 0 <= z < q - from ==> #[trigger] s@.subrange(from as int, n as int)[z] != x,
        decreases n - q,
    {
        assert(s@.subrange(from as int, n as int)[q - from] == s@[q as int]);
        if s[q] == x {
            return true;
        }
        q = q + 1;
    }
    false
}

/// Validates the supplied accounts and the role indices into them.
#[verifier::loop_isolation(false)]
fn validate_accounts_and_roles(accounts: &Vec<AccountView>, indices: &[usize]) -> (r: SquadsExecutionResult<()>)
    ensures
        r == spec_roles(accounts@, indices@),
{
    let n = accounts.len();
    if n == 0 || n > 256 {
        return Err(SquadsExecutionError::InvalidInvocation);
    }
    let mut keys: Vec<Pubkey> = Vec::new();
    let mut i: usize = 0;
    while i < n
        invariant
            i <= n == accounts@.len(),
            keys@.len() == i,
            forall|j: int| 0 <= j < i ==> keys@[j] == #[trigger] accounts@[j].key,
        decreases n - i,
    {
        keys.push(accounts[i].key);
        i = i + 1;
    }
    proof {
        assert(keys@ =~= spec_account_keys(accounts@));
    }
    let key_slice = keys.as_slice();
    let distinct = distinct_keys(key_slice);
    proof {
        assert(key_slice@ == keys@);
    }
    if !distinct {
        return Err(SquadsExecutionError::State(Piv1Error::AccountAlias));
    }
    let m = indices.len();
    let mut k: usize = 0;
    while k < m
        invariant
            k <= m == indices@.len(),
            forall|j: int| 0 <= j < k ==> !#[trigger] role_bad(indices@, j, accounts@.len() as int),
        decreases m - k,
    {
        if indices[k] >= n || occurs_after(indices, k + 1, indices[k]) {
            proof {
                assert(role_bad(indices@, k as int, accounts@.len() as int));
            }
            return Err(SquadsExecutionError::InvalidInvocation);
        }
        k = k + 1;
    }
    proof {
        assert(keys_distinct(spec_account_keys(accounts@)));
        assert(!(accounts@.len() == 0 || accounts@.len() > 256));
    }
    Ok(())
}

/// Outcome of the action checks once the authority is authenticated: the vault
/// signs, proposal and transaction are non-executable Squads accounts, the
/// proposal approved the transaction, the transaction's message is this
/// instruction, the outer instruction is the Squads execute, and no
/// governance account is writable.
pub open spec fn spec_squads_action(
    program: Pubkey,
    accounts: Seq<AccountView>,
    data: Seq<u8>,
    roles: SquadsRoles,
    vault_index: u8,
    now: i64,
    authority: (Pubkey, u64, Pubkey, Pubkey, SquadsMultisigConfiguration),
) -> SquadsExecutionResult<SquadsAction> {
    let vault = accounts[roles.vault as int];
    let proposal = accounts[roles.proposal as int];
    let transaction = accounts[roles.transaction as int];
    let multisig = accounts[roles.multisig as int];
    let c = authority.4;
    if vault.key != authority.3 || !vault.is_signer {
        Err(SquadsExecutionError::InvalidInvocation)
    } else if proposal.owner != squads_v4_key() {
        Err(SquadsExecutionError::State(Piv1Error::InvalidAccountOwner))
    } else if proposal.executable {
        Err(SquadsExecutionError::State(Piv1Error::ExecutableAccount))
    } else if transaction.owner != squads_v4_key() {
        Err(SquadsExecutionError::State(Piv1Error::InvalidAccountOwner))
    } else if transaction.executable {
        Err(SquadsExecutionError::State(Piv1Error::ExecutableAccount))
    } else {
        match proposal.data {
            None => Err(SquadsExecutionError::State(Piv1Error::AccountBorrowFailed)),
            Some(pd) => match spec_validate_proposal(pd@, proposal.key, multisig.key, c, now) {
                Err(e) => Err(e),
                Ok(approved) => match transaction.data {
                    None => Err(SquadsExecutionError::State(Piv1Error::AccountBorrowFailed)),
                    Some(td) => match spec_validate_transaction(
                        td@,
                        transaction.key,
                        multisig.key,
                        authority.3,
                        vault_index,
                        approved.0,
                        program,
                        accounts,
                        data,
                    ) {
                        Err(e) => Err(e),
                        Ok(_) => match spec_validate_outer(
                            accounts[roles.instructions as int],
                            tx_layout(td@),
                            seq![multisig.key, proposal.key, transaction.key],
                            authority.3,
                            c,
                        ) {
                            Err(e) => Err(e),
                            Ok(top) => if multisig.is_writable || proposal.is_writable || transaction.is_writable {
                                Err(SquadsExecutionError::InvalidInvocation)
                            } else {
                                Ok(
                                    SquadsAction {
                                        program,
                                        multisig: authority.2,
                                        proposal: proposal.key,
                                        transaction: transaction.key,
                                        vault: authority.3,
                                        transaction_index: approved.0,
                                        top_level_index: top,
                                        current_members: c.member_keys,
                                        approved_member_bitmap: approved.1,
                                    },
                                )
                            },
                        },
                    },
                },
            },
        }
    }
}

/// Validates the Squads action around this instruction.
fn validate_squads_action(
    program: &Pubkey,
    accounts: &Vec<AccountView>,
    instruction_data: &[u8],
    roles: SquadsRoles,
    vault_index: u8,
    now: i64,
    authority: &AuthenticatedSquadsAuthoritySnapshot,
) -> (r: SquadsExecutionResult<SquadsAction>)
    requires
        roles.program < accounts@.len(),
        roles.program_data < accounts@.len(),
        roles.multisig < accounts@.len(),
        roles.proposal < accounts@.len(),
        roles.transaction < accounts@.len(),
        roles.vault < accounts@.len(),
        roles.instructions < accounts@.len(),
    ensures
        r == spec_squads_action(*program, accounts@, instruction_data@, roles, vault_index, now, authority.spec_parts()),
{
    let configuration = authority.configuration();
    let vault = &accounts[roles.vault];
    if vault.key != authority.vault() || !vault.is_signer {
        return Err(SquadsExecutionError::InvalidInvocation);
    }
    let proposal = &accounts[roles.proposal];
    let transaction = &accounts[roles.transaction];
    let multisig = &accounts[roles.multisig];
    let squads = squads_v4_program_id();
    if proposal.owner != squads {
        return Err(SquadsExecutionError::State(Piv1Error::InvalidAccountOwner));
    }
    if proposal.executable {
        return Err(SquadsExecutionError::State(Piv1Error::ExecutableAccount));
    }
    if transaction.owner != squads {
        return Err(SquadsExecutionError::State(Piv1Error::InvalidAccountOwner));
    }
    if transaction.executable {
        return Err(SquadsExecutionError::State(Piv1Error::ExecutableAccount));
    }
    let (index, approvals) = match &proposal.data {
        None => {
            return Err(SquadsExecutionError::State(Piv1Error::AccountBorrowFailed));
        },
        Some(pd) => validate_proposal(pd.as_slice(), &proposal.key, &multisig.key, configuration, now)?,
    };
    let td = match &transaction.data {
        None => {
            return Err(SquadsExecutionError::State(Piv1Error::AccountBorrowFailed));
        },
        Some(td) => td,
    };
    let message = validate_transaction(
        td.as_slice(),
        &transaction.key,
        &multisig.key,
        &authority.vault(),
        vault_index,
        index,
        program,
        accounts,
        instruction_data,
    )?;
    let fixed = [multisig.key, proposal.key, transaction.key];
    proof {
        assert(fixed@ =~= seq![multisig.key, proposal.key, transaction.key]);
    }
    let top_level_index = validate_outer(&accounts[roles.instructions], &message, &fixed, &authority.vault(), configuration)?;
    if multisig.is_writable || proposal.is_writable || transaction.is_writable {
        return Err(SquadsExecutionError::InvalidInvocation);
    }
    Ok(SquadsAction {
        program: *program,
        multisig: authority.multisig(),
        proposal: proposal.key,
        transaction: transaction.key,
        vault: authority.vault(),
        transaction_index: index,
        top_level_index,
        current_members: *configuration.member_keys(),
        approved_member_bitmap: approvals,
    })
}

/// Two observations of one account agree in every field, the data by its bytes.
pub open spec fn same_account(a: AccountView, b: AccountView) -> bool {
    &&& a.key == b.key
    &&& a.owner == b.owner
    &&& a.executable == b.executable
    &&& a.is_signer == b.is_signer
    &&& a.is_writable == b.is_writable
    &&& a.lamports == b.lamports
    &&& match (a.data, b.data) {
        (None, None) => true,
        (Some(x), Some(y)) => x@ == y@,
        _ => false,
    }
}

/// A copy of an account observation.
pub fn copy_account(a: &AccountView) -> (r: AccountView)
    ensures
        same_account(r, *a),
{
    let data = match &a.data {
        None => None,
        Some(d) => Some(slice_to_vec(d.as_slice())),
    };
    AccountView {
        key: a.key,
        owner: a.owner,
        executable: a.executable,
        is_signer: a.is_signer,
        is_writable: a.is_writable,
        lamports: a.lamports,
        data,
    }
}

/// The guardian snapshot check sees the accounts only through their keys and
/// the Config account's observation.
pub proof fn lemma_guardian_snapshot_congruent(
    program: Pubkey,
    rent: RentFloors,
    a: GuardianClockAccountInfos,
    b: GuardianClockAccountInfos,
    config: Option<(PivConfig, usize)>,
)
    requires
        a.spec_keys() == b.spec_keys(),
        same_account(a.config, b.config),
    ensures
        spec_authenticate_guardian_clock(program, rent, a, config) == spec_authenticate_guardian_clock(
            program,
            rent,
            b,
            config,
        ),
{
    assert(spec_state_envelope(a.config, program, StateKind::Config, payload_len(config), rent.config)
        == spec_state_envelope(b.config, program, StateKind::Config, payload_len(config), rent.config));
}

/// The nine accounts of the guardian snapshot, by role.
pub open spec fn guardian_infos(accounts: Seq<AccountView>, roles: SquadsExecutionRoles) -> GuardianClockAccountInfos {
    GuardianClockAccountInfos {
        config: accounts[roles.config as int],
        guardian_registry: accounts[roles.guardian_registry as int],
        rewards: [
            accounts[roles.rewards[0] as int],
            accounts[roles.rewards[1] as int],
            accounts[roles.rewards[2] as int],
            accounts[roles.rewards[3] as int],
            accounts[roles.rewards[4] as int],
            accounts[roles.rewards[5] as int],
        ],
        clock: accounts[roles.clock as int],
    }
}

/// The shared roles of the current-governance path.
pub open spec fn shared_roles(roles: SquadsExecutionRoles) -> SquadsRoles {
    SquadsRoles {
        program: roles.program,
        program_data: roles.program_data,
        multisig: roles.multisig,
        proposal: roles.proposal,
        transaction: roles.transaction,
        vault: roles.vault,
        instructions: roles.instructions,
    }
}

/// The sixteen role indices of the current-governance path.
pub open spec fn invocation_indices(roles: SquadsExecutionRoles) -> Seq<usize> {
    seq![roles.program, roles.program_data, roles.multisig, roles.proposal, roles.transaction, roles.vault,
        roles.instructions, roles.config, roles.guardian_registry, roles.rewards[0], roles.rewards[1],
        roles.rewards[2], roles.rewards[3], roles.rewards[4], roles.rewards[5], roles.clock]
}

/// The approving members' bitmap moved from Squads' sorted member order into
/// the registry's slot order, over the first `n` slots; `None` where a
/// guardian is not a current member.
pub open spec fn spec_guardian_bitmap(keys: [Pubkey; 6], members: [Pubkey; 6], approvals: u8, n: int) -> Option<u8>
    decreases n,
{
    if n <= 0 {
        Some(0)
    } else {
        match spec_guardian_bitmap(keys, members, approvals, n - 1) {
            None => None,
            Some(b) => match position_of(members, keys[n - 1]) {
                None => None,
                Some(i) => if approvals & (1u8 << (i as u8)) != 0 {
                    Some(b | (1u8 << ((n - 1) as u8)))
                } else {
                    Some(b)
                },
            },
        }
    }
}

/// A missing guardian among the first `m` slots leaves every longer prefix unmapped.
proof fn lemma_bitmap_none_persists(keys: [Pubkey; 6], members: [Pubkey; 6], approvals: u8, m: int, n: int)
    requires
        1 <= m <= n,
        spec_guardian_bitmap(keys, members, approvals, m) is None,
    ensures
        spec_guardian_bitmap(keys, members, approvals, n) is None,
    decreases n - m,
{
    if n > m {
        lemma_bitmap_none_persists(keys, members, approvals, m, n - 1);
    }
}

/// Maps the approving members' bitmap into the registry's slot order.
fn guardian_bitmap(keys: &[Pubkey; 6], members: &[Pubkey; 6], approvals: u8) -> (r: Option<u8>)
    ensures
        r == spec_guardian_bitmap(*keys, *members, approvals, 6),
{
    let mut bitmap: u8 = 0;
    let mut slot: usize = 0;
    while slot < 6
        invariant
            slot <= 6,
            spec_guardian_bitmap(*keys, *members, approvals, slot as int) == Some(bitmap),
        decreases 6 - slot,
    {
        match find_position(members, &keys[slot]) {
            None => {
                proof {
                    lemma_bitmap_none_persists(*keys, *members, approvals, slot + 1, 6);
                }
                return None;
            },
            Some(i) => {
                if approvals & (1u8 << (i as u8)) != 0 {
                    bitmap = bitmap | (1u8 << (slot as u8));
                }
            },
        }
        slot = slot + 1;
    }
    Some(bitmap)
}

/// Point-invocation evidence under current governance. Reauthenticate before
/// a later action; handlers still enforce their own state transitions.
#[derive(Debug, PartialEq, Eq)]
pub struct AuthenticatedSquadsInvocation {
    action: SquadsAction,
    approved_guardian_bitmap: u8,
    guardian_registry_revision: u64,
}

impl AuthenticatedSquadsInvocation {
    pub closed spec fn spec_action(self) -> SquadsAction {
        self.action
    }

    pub closed spec fn spec_approved_guardian_bitmap(self) -> u8 {
        self.approved_guardian_bitmap
    }

    pub closed spec fn spec_guardian_registry_revision(self) -> u64 {
        self.guardian_registry_revision
    }

    pub fn program(&self) -> (r: Pubkey)
        ensures
            r == self.spec_action().program,
    {
        self.action.program
    }

    pub fn multisig(&self) -> (r: Pubkey)
        ensures
            r == self.spec_action().multisig,
    {
        self.action.multisig
    }

    pub fn proposal(&self) -> (r: Pubkey)
        ensures
            r == self.spec_action().proposal,
    {
        self.action.proposal
    }

    pub fn transaction(&self) -> (r: Pubkey)
        ensures
            r == self.spec_action().transaction,
    {
        self.action.transaction
    }

    pub fn vault(&self) -> (r: Pubkey)
        ensures
            r == self.spec_action().vault,
    {
        self.action.vault
    }

    pub fn transaction_index(&self) -> (r: u64)
        ensures
            r == self.spec_action().transaction_index,
    {
        self.action.transaction_index
    }

    pub fn top_level_index(&self) -> (r: u16)
        ensures
            r == self.spec_action().top_level_index,
    {
        self.action.top_level_index
    }

    /// Bitmap in the registry's slot order, not Squads' sort order.
    pub fn approved_guardian_bitmap(&self) -> (r: u8)
        ensures
            r == self.spec_approved_guardian_bitmap(),
    {
        self.approved_guardian_bitmap
    }

    pub fn guardian_registry_revision(&self) -> (r: u64)
        ensures
            r == self.spec_guardian_registry_revision(),
    {
        self.guardian_registry_revision
    }
}

/// Outcome of current-governance authorization: the stack height of a direct
/// Squads call, the roles, the Squads authority, the guardian snapshot, the
/// guardian-member correspondence, the Clock, the action, and the approvals
/// in registry slot order with the registry's revision.
pub open spec fn spec_squads_invocation(
    program: Pubkey,
    accounts: Seq<AccountView>,
    data: Seq<u8>,
    roles: SquadsExecutionRoles,
    vault_index: u8,
    context: SquadsInvocationContext,
    config: Option<(PivConfig, usize)>,
) -> SquadsExecutionResult<(SquadsAction, u8, u64)> {
    if context.stack_height != 2 {
        Err(SquadsExecutionError::InvalidInvocation)
    } else {
        match spec_roles(accounts, invocation_indices(roles)) {
            Err(e) => Err(e),
            Ok(_) => match spec_squads_authority(
                program,
                vault_index,
                accounts[roles.program as int],
                accounts[roles.program_data as int],
                accounts[roles.multisig as int],
            ) {
                Err(e) => Err(SquadsExecutionError::State(e)),
                Ok(parts) => spec_invocation_guarded(program, accounts, data, roles, vault_index, context, config, parts),
            },
        }
    }
}

/// Outcome of current-governance authorization once the authority is
/// authenticated.
pub open spec fn spec_invocation_guarded(
    program: Pubkey,
    accounts: Seq<AccountView>,
    data: Seq<u8>,
    roles: SquadsExecutionRoles,
    vault_index: u8,
    context: SquadsInvocationContext,
    config: Option<(PivConfig, usize)>,
    parts: (Pubkey, u64, Pubkey, Pubkey, SquadsMultisigConfiguration),
) -> SquadsExecutionResult<(SquadsAction, u8, u64)> {
    match spec_authenticate_guardian_clock(program, context.rent, guardian_infos(accounts, roles), config) {
        Err(e) => Err(SquadsExecutionError::State(e)),
        Ok(g) => spec_invocation_after(program, accounts, data, roles, vault_index, context, parts, g),
    }
}

/// Outcome of current-governance authorization once the authority and the
/// guardian snapshot are authenticated.
pub open spec fn spec_invocation_after(
    program: Pubkey,
    accounts: Seq<AccountView>,
    data: Seq<u8>,
    roles: SquadsExecutionRoles,
    vault_index: u8,
    context: SquadsInvocationContext,
    parts: (Pubkey, u64, Pubkey, Pubkey, SquadsMultisigConfiguration),
    g: AuthenticatedGuardianClockSnapshot,
) -> SquadsExecutionResult<(SquadsAction, u8, u64)> {
    if program != g.spec_program() {
        Err(SquadsExecutionError::State(Piv1Error::InvalidProgramIdentity))
    } else if exists|k: int| 0 <= k < 6 && !parts.4.member_keys@.contains(#[trigger] g.spec_registry().guardian_keys[k]) {
        Err(SquadsExecutionError::State(Piv1Error::InvalidGuardianSet))
    } else if g.spec_clock() != context.clock {
        Err(SquadsExecutionError::InvalidInvocation)
    } else {
        match spec_squads_action(
            program,
            accounts,
            data,
            shared_roles(roles),
            vault_index,
            context.clock.unix_timestamp,
            parts,
        ) {
            Err(e) => Err(e),
            Ok(a) => match spec_guardian_bitmap(g.spec_registry().guardian_keys, a.current_members, a.approved_member_bitmap, 6) {
                None => Err(SquadsExecutionError::InvalidProposal),
                Some(b) => Ok((a, b, g.spec_registry().revision)),
            },
        }
    }
}

/// Completes current-governance authorization once the authority and the
/// guardian snapshot are authenticated.
fn complete_invocation(
    program: &Pubkey,
    accounts: &Vec<AccountView>,
    instruction_data: &[u8],
    roles: SquadsExecutionRoles,
    vault_index: u8,
    context: &SquadsInvocationContext,
    authority: &AuthenticatedSquadsAuthoritySnapshot,
    guardians: &AuthenticatedGuardianClockSnapshot,
) -> (r: SquadsExecutionResult<AuthenticatedSquadsInvocation>)
    requires
        authority.spec_program() == *program,
        forall|k: int| 0 <= k < 16 ==> (#[trigger] invocation_indices(roles)[k]) < accounts@.len(),
    ensures
        match r {
            Ok(v) => spec_invocation_after(
                *program,
                accounts@,
                instruction_data@,
                roles,
                vault_index,
                *context,
                authority.spec_parts(),
                *guardians,
            ) == Ok::<(SquadsAction, u8, u64), SquadsExecutionError>(
                (v.spec_action(), v.spec_approved_guardian_bitmap(), v.spec_guardian_registry_revision()),
            ),
            Err(e) => spec_invocation_after(
                *program,
                accounts@,
                instruction_data@,
                roles,
                vault_index,
                *context,
                authority.spec_parts(),
                *guardians,
            ) == Err::<(SquadsAction, u8, u64), SquadsExecutionError>(e),
        },
{
    proof {
        assert(invocation_indices(roles)[0] == roles.program);
        assert(invocation_indices(roles)[1] == roles.program_data);
        assert(invocation_indices(roles)[2] == roles.multisig);
        assert(invocation_indices(roles)[3] == roles.proposal);
        assert(invocation_indices(roles)[4] == roles.transaction);
        assert(invocation_indices(roles)[5] == roles.vault);
        assert(invocation_indices(roles)[6] == roles.instructions);
    }
    match authority.validate_guardian_correspondence(guardians) {
        Err(e) => {
            return Err(SquadsExecutionError::State(e));
        },
        Ok(_) => {},
    }
    if *guardians.clock() != context.clock {
        return Err(SquadsExecutionError::InvalidInvocation);
    }
    let shared = SquadsRoles {
        program: roles.program,
        program_data: roles.program_data,
        multisig: roles.multisig,
        proposal: roles.proposal,
        transaction: roles.transaction,
        vault: roles.vault,
        instructions: roles.instructions,
    };
    let action = validate_squads_action(
        program,
        accounts,
        instruction_data,
        shared,
        vault_index,
        context.clock.unix_timestamp,
        authority,
    )?;
    let registry_keys = guardians.registry().guardian_keys;
    let revision = guardians.registry().revision;
    match guardian_bitmap(&registry_keys, &action.current_members, action.approved_member_bitmap) {
        None => Err(SquadsExecutionError::InvalidProposal),
        Some(approved_guardian_bitmap) => Ok(
            AuthenticatedSquadsInvocation { action, approved_guardian_bitmap, guardian_registry_revision: revision },
        ),
    }
}

/// Every role index of a validated role list is in range.
proof fn lemma_roles_in_range(accounts: Seq<AccountView>, roles: SquadsExecutionRoles)
    requires
        spec_roles(accounts, invocation_indices(roles)) is Ok,
    ensures
        forall|k: int| 0 <= k < 16 ==> (#[trigger] invocation_indices(roles)[k]) < accounts.len(),
        roles.program < accounts.len(),
        roles.program_data < accounts.len(),
        roles.multisig < accounts.len(),
        roles.config < accounts.len(),
        roles.guardian_registry < accounts.len(),
        roles.rewards[0] < accounts.len(),
        roles.rewards[1] < accounts.len(),
        roles.rewards[2] < accounts.len(),
        roles.rewards[3] < accounts.len(),
        roles.rewards[4] < accounts.len(),
        roles.rewards[5] < accounts.len(),
        roles.clock < accounts.len(),
{
    let s = invocation_indices(roles);
    assert forall|k: int| 0 <= k < 16 implies (#[trigger] s[k]) < accounts.len() by {
        assert(!role_bad(s, k, accounts.len() as int));
    }
    assert(s[0] == roles.program);
    assert(s[1] == roles.program_data);
    assert(s[2] == roles.multisig);
    assert(s[7] == roles.config);
    assert(s[8] == roles.guardian_registry);
    assert(s[9] == roles.rewards[0]);
    assert(s[10] == roles.rewards[1]);
    assert(s[11] == roles.rewards[2]);
    assert(s[12] == roles.rewards[3]);
    assert(s[13] == roles.rewards[4]);
    assert(s[14] == roles.rewards[5]);
    assert(s[15] == roles.clock);
}

/// Authenticates the guardian snapshot over the accounts in their roles.
fn guardian_snapshot_of(
    program: &Pubkey,
    accounts: &Vec<AccountView>,
    roles: SquadsExecutionRoles,
    rent: &RentFloors,
    config: Option<(PivConfig, usize)>,
    registry: Option<(GuardianRegistry, usize)>,
    rewards: [Option<(GuardianReward, usize)>; 6],
) -> (r: Piv1Result<AuthenticatedGuardianClockSnapshot>)
    requires
        roles.config < accounts@.len(),
        roles.guardian_registry < accounts@.len(),
        roles.rewards[0] < accounts@.len(),
        roles.rewards[1] < accounts@.len(),
        roles.rewards[2] < accounts@.len(),
        roles.rewards[3] < accounts@.len(),
        roles.rewards[4] < accounts@.len(),
        roles.rewards[5] < accounts@.len(),
        roles.clock < accounts@.len(),
    ensures
        r == spec_authenticate_guardian_clock(*program, *rent, guardian_infos(accounts@, roles), config),
{
    let infos = GuardianClockAccountInfos {
        config: copy_account(&accounts[roles.config]),
        guardian_registry: copy_account(&accounts[roles.guardian_registry]),
        rewards: [
            copy_account(&accounts[roles.rewards[0]]),
            copy_account(&accounts[roles.rewards[1]]),
            copy_account(&accounts[roles.rewards[2]]),
            copy_account(&accounts[roles.rewards[3]]),
            copy_account(&accounts[roles.rewards[4]]),
            copy_account(&accounts[roles.rewards[5]]),
        ],
        clock: copy_account(&accounts[roles.clock]),
    };
    proof {
        assert(infos.spec_keys() =~= guardian_infos(accounts@, roles).spec_keys());
        lemma_guardian_snapshot_congruent(*program, *rent, infos, guardian_infos(accounts@, roles), config);
    }
    authenticate_guardian_clock_snapshot(program, rent, &infos, config, registry, rewards)
}

/// Continues current-governance authorization once the authority is
/// authenticated.
fn guarded_invocation(
    program: &Pubkey,
    accounts: &Vec<AccountView>,
    instruction_data: &[u8],
    roles: SquadsExecutionRoles,
    vault_index: u8,
    context: &SquadsInvocationContext,
    config: Option<(PivConfig, usize)>,
    registry: Option<(GuardianRegistry, usize)>,
    rewards: [Option<(GuardianReward, usize)>; 6],
    authority: &AuthenticatedSquadsAuthoritySnapshot,
) -> (r: SquadsExecutionResult<AuthenticatedSquadsInvocation>)
    requires
        authority.spec_program() == *program,
        spec_roles(accounts@, invocation_indices(roles)) is Ok,
    ensures
        match r {
            Ok(v) => spec_invocation_guarded(
                *program,
                accounts@,
                instruction_data@,
                roles,
                vault_index,
                *context,
                config,
                authority.spec_parts(),
            ) == Ok::<(SquadsAction, u8, u64), SquadsExecutionError>(
                (v.spec_action(), v.spec_approved_guardian_bitmap(), v.spec_guardian_registry_revision()),
            ),
            Err(e) => spec_invocation_guarded(
                *program,
                accounts@,
                instruction_data@,
                roles,
                vault_index,
                *context,
                config,
                authority.spec_parts(),
            ) == Err::<(SquadsAction, u8, u64), SquadsExecutionError>(e),
        },
{
    proof {
        lemma_roles_in_range(accounts@, roles);
    }
    let guardians = match guardian_snapshot_of(program, accounts, roles, &context.rent, config, registry, rewards) {
        Err(e) => {
            return Err(SquadsExecutionError::State(e));
        },
        Ok(g) => g,
    };
    complete_invocation(program, accounts, instruction_data, roles, vault_index, context, authority, &guardians)
}

/// Authorizes this instruction as a Squads-executed action of current
/// governance, from the actual entrypoint accounts, instruction data and
/// runtime context. `config`, `registry` and `rewards` are the decoded state
/// payloads of the guardian snapshot's accounts, with their lengths.
pub fn authenticate_squads_invocation(
    program: &Pubkey,
    accounts: &Vec<AccountView>,
    instruction_data: &[u8],
    roles: SquadsExecutionRoles,
    vault_index: u8,
    context: &SquadsInvocationContext,
    config: Option<(PivConfig, usize)>,
    registry: Option<(GuardianRegistry, usize)>,
    rewards: [Option<(GuardianReward, usize)>; 6],
) -> (r: SquadsExecutionResult<AuthenticatedSquadsInvocation>)
    ensures
        match r {
            Ok(v) => spec_squads_invocation(
                *program,
                accounts@,
                instruction_data@,
                roles,
                vault_index,
                *context,
                config,
            ) == Ok::<(SquadsAction, u8, u64), SquadsExecutionError>(
                (v.spec_action(), v.spec_approved_guardian_bitmap(), v.spec_guardian_registry_revision()),
            ),
            Err(e) => spec_squads_invocation(
                *program,
                accounts@,
                instruction_data@,
                roles,
                vault_index,
                *context,
                config,
            ) == Err::<(SquadsAction, u8, u64), SquadsExecutionError>(e),
        },
{
    if context.stack_height != 2 {
        return Err(SquadsExecutionError::InvalidInvocation);
    }
    let indices = [
        roles.program,
        roles.program_data,
        roles.multisig,
        roles.proposal,
        roles.transaction,
        roles.vault,
        roles.instructions,
        roles.config,
        roles.guardian_registry,
        roles.rewards[0],
        roles.rewards[1],
        roles.rewards[2],
        roles.rewards[3],
        roles.rewards[4],
        roles.rewards[5],
        roles.clock,
    ];
    let index_slice = indices.as_slice();
    proof {
        assert(index_slice@ =~= invocation_indices(roles));
    }
    validate_accounts_and_roles(accounts, index_slice)?;
    proof {
        lemma_roles_in_range(accounts@, roles);
    }
    let authority = match authenticate_authority_accounts(
        program,
        vault_index,
        &accounts[roles.program],
        &accounts[roles.program_data],
        &accounts[roles.multisig],
    ) {
        Err(e) => {
            return Err(SquadsExecutionError::State(e));
        },
        Ok(a) => a,
    };
    guarded_invocation(
        program,
        accounts,
        instruction_data,
        roles,
        vault_index,
        context,
        config,
        registry,
        rewards,
        &authority,
    )
}

/// The eight role indices of the bootstrap path.
pub open spec fn bootstrap_indices(roles: SquadsBootstrapRoles) -> Seq<usize> {
    seq![roles.program, roles.program_data, roles.multisig, roles.proposal, roles.transaction, roles.vault,
        roles.instructions, roles.config]
}

/// The shared roles of the bootstrap path.
pub open spec fn bootstrap_shared(roles: SquadsBootstrapRoles) -> SquadsRoles {
    SquadsRoles {
        program: roles.program,
        program_data: roles.program_data,
        multisig: roles.multisig,
        proposal: roles.proposal,
        transaction: roles.transaction,
        vault: roles.vault,
        instructions: roles.instructions,
    }
}

/// Checks of a virgin Config account: the canonical Config address, System
/// owned, non-executable, writable and without data. Lamports are neither
/// read nor classified.
pub open spec fn spec_virgin_config(program: Pubkey, account: AccountView) -> Piv1Result<()> {
    match spec_derive(seq![Seed::Config.spec_bytes()], program) {
        None => Err(Piv1Error::InvalidAccountPda),
        Some(found) => if account.key != found.0 {
            Err(Piv1Error::InvalidAccountPda)
        } else if account.owner != system_program_key() {
            Err(Piv1Error::InvalidAccountOwner)
        } else if account.executable {
            Err(Piv1Error::ExecutableAccount)
        } else if !account.is_writable {
            Err(Piv1Error::AccountNotWritable)
        } else {
            match account.data {
                None => Err(Piv1Error::AccountBorrowFailed),
                Some(d) => if d@.len() != 0 {
                    Err(Piv1Error::InvalidAccountSize)
                } else {
                    Ok(())
                },
            }
        },
    }
}

/// Checks a virgin Config account.
fn validate_virgin_config(program: &Pubkey, account: &AccountView) -> (r: Piv1Result<()>)
    ensures
        r == spec_virgin_config(*program, *account),
{
    let seeds = vec![Seed::Config.bytes()];
    proof {
        assert(seeds@[0].deep_view() =~= seeds@[0]@);
        assert(seeds.deep_view() =~= seq![Seed::Config.spec_bytes()]);
    }
    match derive_address(&seeds, program) {
        None => Err(Piv1Error::InvalidAccountPda),
        Some(found) => {
            if account.key != found.0 {
                return Err(Piv1Error::InvalidAccountPda);
            }
            if account.owner != system_program_id() {
                return Err(Piv1Error::InvalidAccountOwner);
            }
            if account.executable {
                return Err(Piv1Error::ExecutableAccount);
            }
            if !account.is_writable {
                return Err(Piv1Error::AccountNotWritable);
            }
            match &account.data {
                None => Err(Piv1Error::AccountBorrowFailed),
                Some(d) => {
                    if d.len() != 0 {
                        return Err(Piv1Error::InvalidAccountSize);
                    }
                    Ok(())
                },
            }
        },
    }
}

/// Point-invocation evidence while Config remains virgin. This is not
/// existing-governance evidence, a parameter-semantics check or a replay
/// receipt. Repeated virgin checks may succeed.
#[derive(Debug, PartialEq, Eq)]
pub struct AuthenticatedSquadsBootstrapInvocation {
    action: SquadsAction,
    config: Pubkey,
}

impl AuthenticatedSquadsBootstrapInvocation {
    pub closed spec fn spec_action(self) -> SquadsAction {
        self.action
    }

    pub closed spec fn spec_config(self) -> Pubkey {
        self.config
    }

    pub fn program(&self) -> (r: Pubkey)
        ensures
            r == self.spec_action().program,
    {
        self.action.program
    }

    pub fn multisig(&self) -> (r: Pubkey)
        ensures
            r == self.spec_action().multisig,
    {
        self.action.multisig
    }

    pub fn proposal(&self) -> (r: Pubkey)
        ensures
            r == self.spec_action().proposal,
    {
        self.action.proposal
    }

    pub fn transaction(&self) -> (r: Pubkey)
        ensures
            r == self.spec_action().transaction,
    {
        self.action.transaction
    }

    pub fn vault(&self) -> (r: Pubkey)
        ensures
            r == self.spec_action().vault,
    {
        self.action.vault
    }

    pub fn config(&self) -> (r: Pubkey)
        ensures
            r == self.spec_config(),
    {
        self.config
    }

    pub fn transaction_index(&self) -> (r: u64)
        ensures
            r == self.spec_action().transaction_index,
    {
        self.action.transaction_index
    }

    pub fn top_level_index(&self) -> (r: u16)
        ensures
            r == self.spec_action().top_level_index,
    {
        self.action.top_level_index
    }

    /// Canonical sorted current Squads members; no registry slots are assigned.
    pub fn current_members(&self) -> (r: &[Pubkey; 6])
        ensures
            *r == self.spec_action().current_members,
    {
        &self.action.current_members
    }

    /// Bits index `current_members()`, not an initialized guardian registry.
    pub fn approved_member_bitmap(&self) -> (r: u8)
        ensures
            r == self.spec_action().approved_member_bitmap,
    {
        self.action.approved_member_bitmap
    }
}

/// Outcome of preinitialization authorization: the stack height, the roles,
/// a virgin Config account, the Squads authority and the action.
pub open spec fn spec_squads_bootstrap(
    program: Pubkey,
    accounts: Seq<AccountView>,
    data: Seq<u8>,
    roles: SquadsBootstrapRoles,
    vault_index: u8,
    context: SquadsInvocationContext,
) -> SquadsExecutionResult<(SquadsAction, Pubkey)> {
    if context.stack_height != 2 {
        Err(SquadsExecutionError::InvalidInvocation)
    } else {
        match spec_roles(accounts, bootstrap_indices(roles)) {
            Err(e) => Err(e),
            Ok(_) => match spec_virgin_config(program, accounts[roles.config as int]) {
                Err(e) => Err(SquadsExecutionError::State(e)),
                Ok(_) => match spec_squads_authority(
                    program,
                    vault_index,
                    accounts[roles.program as int],
                    accounts[roles.program_data as int],
                    accounts[roles.multisig as int],
                ) {
                    Err(e) => Err(SquadsExecutionError::State(e)),
                    Ok(parts) => match spec_squads_action(
                        program,
                        accounts,
                        data,
                        bootstrap_shared(roles),
                        vault_index,
                        context.clock.unix_timestamp,
                        parts,
                    ) {
                        Err(e) => Err(e),
                        Ok(a) => Ok((a, accounts[roles.config as int].key)),
                    },
                },
            },
        }
    }
}

/// Every role index of a validated bootstrap role list is in range.
proof fn lemma_bootstrap_roles_in_range(accounts: Seq<AccountView>, roles: SquadsBootstrapRoles)
    requires
        spec_roles(accounts, bootstrap_indices(roles)) is Ok,
    ensures
        roles.program < accounts.len(),
        roles.program_data < accounts.len(),
        roles.multisig < accounts.len(),
        roles.proposal < accounts.len(),
        roles.transaction < accounts.len(),
        roles.vault < accounts.len(),
        roles.instructions < accounts.len(),
        roles.config < accounts.len(),
{
    let s = bootstrap_indices(roles);
    assert forall|k: int| 0 <= k < 8 implies (#[trigger] s[k]) < accounts.len() by {
        assert(!role_bad(s, k, accounts.len() as int));
    }
    assert(s[0] == roles.program);
    assert(s[1] == roles.program_data);
    assert(s[2] == roles.multisig);
    assert(s[3] == roles.proposal);
    assert(s[4] == roles.transaction);
    assert(s[5] == roles.vault);
    assert(s[6] == roles.instructions);
    assert(s[7] == roles.config);
}

/// Authorizes this instruction as a Squads-executed action before
/// initialization. The empty Config account must be System-owned,
/// non-executable and writable at its canonical address.
pub fn authenticate_squads_bootstrap_invocation(
    program: &Pubkey,
    accounts: &Vec<AccountView>,
    instruction_data: &[u8],
    roles: SquadsBootstrapRoles,
    vault_index: u8,
    context: &SquadsInvocationContext,
) -> (r: SquadsExecutionResult<AuthenticatedSquadsBootstrapInvocation>)
    ensures
        match r {
            Ok(v) => spec_squads_bootstrap(*program, accounts@, instruction_data@, roles, vault_index, *context) == Ok::<
                (SquadsAction, Pubkey),
                SquadsExecutionError,
            >((v.spec_action(), v.spec_config())),
            Err(e) => spec_squads_bootstrap(*program, accounts@, instruction_data@, roles, vault_index, *context)
                == Err::<(SquadsAction, Pubkey), SquadsExecutionError>(e),
        },
{
    if context.stack_height != 2 {
        return Err(SquadsExecutionError::InvalidInvocation);
    }
    let indices = [
        roles.program,
        roles.program_data,
        roles.multisig,
        roles.proposal,
        roles.transaction,
        roles.vault,
        roles.instructions,
        roles.config,
    ];
    let index_slice = indices.as_slice();
    proof {
        assert(index_slice@ =~= bootstrap_indices(roles));
    }
    validate_accounts_and_roles(accounts, index_slice)?;
    proof {
        lemma_bootstrap_roles_in_range(accounts@, roles);
    }
    let config = &accounts[roles.config];
    match validate_virgin_config(program, config) {
        Err(e) => {
            return Err(SquadsExecutionError::State(e));
        },
        Ok(_) => {},
    }
    let authority = match authenticate_authority_accounts(
        program,
        vault_index,
        &accounts[roles.program],
        &accounts[roles.program_data],
        &accounts[roles.multisig],
    ) {
        Err(e) => {
            return Err(SquadsExecutionError::State(e));
        },
        Ok(a) => a,
    };
    let shared = SquadsRoles {
        program: roles.program,
        program_data: roles.program_data,
        multisig: roles.multisig,
        proposal: roles.proposal,
        transaction: roles.transaction,
        vault: roles.vault,
        instructions: roles.instructions,
    };
    let action = validate_squads_action(
        program,
        accounts,
        instruction_data,
        shared,
        vault_index,
        context.clock.unix_timestamp,
        &authority,
    )?;
    Ok(AuthenticatedSquadsBootstrapInvocation { action, config: config.key })
}

} // verus!
