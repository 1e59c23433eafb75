//! Read-only loader-v3 authority and Squads v4 configuration observations.
//!
//! The executing program ID is a trusted runtime input. Squads identity is the
//! official v4 program ID; neither that ID nor an owner or discriminator proves
//! which artifact is deployed there. No account is initialized or changed, and
//! no signer is required.
//!
//! These owned snapshots are point-in-time evidence, never instruction approval
//! or authorization. Squads allows previously approved stale vault transactions
//! to execute; a current threshold of four cannot prove that an action received
//! four guardian votes.

use crate::account_view::{contains_key, derive_address, key_seed, spec_derive, AccountView};
use crate::address::{key_less, key_lt, pack_at, Pubkey};
use crate::codec::{key_at, pack_u16, pack_u32, read_key, read_u16_le, read_u32_le, read_u64_le};
use crate::errors::{Piv1Error, Piv1Result};
use crate::guardian_clock_accounts::AuthenticatedGuardianClockSnapshot;
use crate::integrations::jito_identity::{upgradeable_loader, upgradeable_loader_key};
use vstd::prelude::*;

verus! {

/// Anchor discriminator of a Squads v4 `Multisig` account.
pub const SQUADS_MULTISIG_DISCRIMINATOR: [u8; 8] = [224, 116, 121, 186, 68, 161, 79, 236];
/// Smallest multisig allocation: six members and a present rent collector.
pub const MULTISIG_MINIMUM_SIZE: usize = 330;
/// Longest accepted time lock, in seconds (ninety days).
pub const MAX_TIME_LOCK: u32 = 7776000;
/// Member permission bits.
pub const INITIATE: u8 = 1;
pub const VOTE: u8 = 2;
pub const EXECUTE: u8 = 4;

/// The official Squads v4 program ID, `SQDS4ep65T869zMMBKyuUq6aD6EgTu8psMjkvj52pCf`.
pub open spec fn squads_v4_key() -> Pubkey {
    Pubkey { w0: 0x6823e247cec48106, w1: 0x9af87c85e55b1b8, w2: 0xf5a36cb6fb7efc2e, w3: 0xa8b79cacd468bf2f }
}

/// The official Squads v4 program ID.
pub fn squads_v4_program_id() -> (r: Pubkey)
    ensures
        r == squads_v4_key(),
{
    Pubkey { w0: 0x6823e247cec48106, w1: 0x9af87c85e55b1b8, w2: 0xf5a36cb6fb7efc2e, w3: 0xa8b79cacd468bf2f }
}

/// The ASCII bytes of `multisig`.
pub open spec fn multisig_seed_bytes() -> Seq<u8> {
    seq![109u8, 117, 108, 116, 105, 115, 105, 103]
}

/// The ASCII bytes of `vault`.
pub open spec fn vault_seed_bytes() -> Seq<u8> {
    seq![118u8, 97, 117, 108, 116]
}

/// The seed `multisig`.
pub fn multisig_seed() -> (r: Vec<u8>)
    ensures
        r@ == multisig_seed_bytes(),
{
    let r = vec![109u8, 117, 108, 116, 105, 115, 105, 103];
    proof {
        assert(r@ =~= multisig_seed_bytes());
    }
    r
}

/// The seed `vault`.
pub fn vault_seed() -> (r: Vec<u8>)
    ensures
        r@ == vault_seed_bytes(),
{
    let r = vec![118u8, 97, 117, 108, 116];
    proof {
        assert(r@ =~= vault_seed_bytes());
    }
    r
}

/// Current six-voter configuration with no unilateral config authority.
/// Fields are observations, not proof of votes, history, or wallet key control.
#[derive(Clone, Copy, Debug, PartialEq, Eq)]
pub struct SquadsMultisigConfiguration {
    pub create_key: Pubkey,
    pub bump: u8,
    pub time_lock: u32,
    pub transaction_index: u64,
    pub stale_transaction_index: u64,
    pub rent_collector: Option<Pubkey>,
    pub member_keys: [Pubkey; 6],
    pub member_permissions: [u8; 6],
}

/// Where the rent-collector option ends: 32 bytes later when it is present.
pub open spec fn ms_shift(s: Seq<u8>) -> int {
    if s[94] == 1 {
        32
    } else {
        0
    }
}

/// Member `i`'s key in a multisig account.
pub open spec fn ms_member_key(s: Seq<u8>, i: int) -> Pubkey {
    key_at(s, 100 + ms_shift(s) + 33 * i)
}

/// Member `i`'s permission mask in a multisig account.
pub open spec fn ms_member_perm(s: Seq<u8>, i: int) -> u8 {
    s[132 + ms_shift(s) + 33 * i]
}

/// Member `i` is the zero key, does not sort strictly after member `i - 1`,
/// holds an unknown permission bit, or cannot vote.
pub open spec fn ms_member_bad(s: Seq<u8>, i: int) -> bool {
    ||| ms_member_key(s, i).is_zero()
    ||| (i > 0 && !key_lt(ms_member_key(s, i - 1), ms_member_key(s, i)))
    ||| ms_member_perm(s, i) & 0xf8u8 != 0
    ||| ms_member_perm(s, i) & VOTE == 0
}

/// Some member holds the permission bit `flag`.
pub open spec fn ms_some_member_has(s: Seq<u8>, flag: u8) -> bool {
    exists|i: int| 0 <= i < 6 && #[trigger] ms_member_perm(s, i) & flag != 0
}

/// The multisig discriminator as a sequence.
pub open spec fn multisig_discriminator() -> Seq<u8> {
    seq![224u8, 116, 121, 186, 68, 161, 79, 236]
}

/// Why a multisig account's bytes are refused, in the order of the checks;
/// `None` where they hold an accepted six-member configuration.
pub open spec fn spec_multisig_error(s: Seq<u8>) -> Option<Piv1Error> {
    if s.len() < MULTISIG_MINIMUM_SIZE {
        Some(Piv1Error::InvalidAccountSize)
    } else if s.subrange(0, 8) != multisig_discriminator() {
        Some(Piv1Error::InvalidAccountDiscriminator)
    } else if s[94] > 1 {
        Some(Piv1Error::InvalidAccountData)
    } else if pack_u32(s, 96 + ms_shift(s)) != 6 {
        Some(Piv1Error::InvalidGuardianCount)
    } else if exists|i: int| 0 <= i < 6 && #[trigger] ms_member_bad(s, i) {
        Some(Piv1Error::InvalidGuardianSet)
    } else if !key_at(s, 40).is_zero() || pack_u16(s, 72) != 4 || !ms_some_member_has(s, INITIATE)
        || !ms_some_member_has(s, EXECUTE) {
        Some(Piv1Error::InvalidGuardianSet)
    } else if pack_at(s, 86) > pack_at(s, 78) {
        Some(Piv1Error::InvalidAccountData)
    } else if pack_u32(s, 74) > MAX_TIME_LOCK {
        Some(Piv1Error::InvalidTimingConfiguration)
    } else {
        None
    }
}

/// `c` holds the fields that the multisig account's bytes `s` lay out.
pub open spec fn multisig_decodes(s: Seq<u8>, c: SquadsMultisigConfiguration) -> bool {
    &&& c.create_key == key_at(s, 8)
    &&& c.time_lock == pack_u32(s, 74)
    &&& c.transaction_index == pack_at(s, 78)
    &&& c.stale_transaction_index == pack_at(s, 86)
    &&& c.rent_collector == (if s[94] == 1 {
        Some(key_at(s, 95))
    } else {
        None::<Pubkey>
    })
    &&& c.bump == s[95 + ms_shift(s)]
    &&& forall|i: int| 0 <= i < 6 ==> c.member_keys[i] == #[trigger] ms_member_key(s, i)
    &&& forall|i: int| 0 <= i < 6 ==> c.member_permissions[i] == #[trigger] ms_member_perm(s, i)
}

/// The bytes of a multisig account determine at most one configuration.
pub proof fn lemma_multisig_decodes_unique(s: Seq<u8>, a: SquadsMultisigConfiguration, b: SquadsMultisigConfiguration)
    requires
        multisig_decodes(s, a),
        multisig_decodes(s, b),
    ensures
        a == b,
{
    assert forall|i: int| 0 <= i < 6 implies a.member_keys[i] == b.member_keys[i] by {
        assert(a.member_keys[i] == ms_member_key(s, i));
        assert(b.member_keys[i] == ms_member_key(s, i));
    }
    assert forall|i: int| 0 <= i < 6 implies a.member_permissions[i] == b.member_permissions[i] by {
        assert(a.member_permissions[i] == ms_member_perm(s, i));
        assert(b.member_permissions[i] == ms_member_perm(s, i));
    }
    assert(a.member_keys =~= b.member_keys);
    assert(a.member_permissions =~= b.member_permissions);
}

/// What decoding the multisig bytes `s` gives: the first refusal, or the
/// configuration that the bytes lay out.
pub open spec fn spec_decode_multisig(s: Seq<u8>) -> Piv1Result<SquadsMultisigConfiguration> {
    match spec_multisig_error(s) {
        Some(e) => Err(e),
        None => Ok(choose|c: SquadsMultisigConfiguration| multisig_decodes(s, c)),
    }
}

impl SquadsMultisigConfiguration {
    pub fn create_key(&self) -> (r: Pubkey)
        ensures
            r == self.create_key,
    {
        self.create_key
    }

    pub fn bump(&self) -> (r: u8)
        ensures
            r == self.bump,
    {
        self.bump
    }

    pub fn time_lock(&self) -> (r: u32)
        ensures
            r == self.time_lock,
    {
        self.time_lock
    }

    pub fn transaction_index(&self) -> (r: u64)
        ensures
            r == self.transaction_index,
    {
        self.transaction_index
    }

    pub fn stale_transaction_index(&self) -> (r: u64)
        ensures
            r == self.stale_transaction_index,
    {
        self.stale_transaction_index
    }

    pub fn rent_collector(&self) -> (r: Option<Pubkey>)
        ensures
            r == self.rent_collector,
    {
        self.rent_collector
    }

    pub fn member_keys(&self) -> (r: &[Pubkey; 6])
        ensures
            *r == self.member_keys,
    {
        &self.member_keys
    }

    pub fn member_permissions(&self) -> (r: &[u8; 6])
        ensures
            *r == self.member_permissions,
    {
        &self.member_permissions
    }
}

/// Whether some mask among `masks` holds the bit `flag`.
fn some_mask_has(masks: &[u8; 6], flag: u8) -> (r: bool)
    ensures
        r == exists|i: int| 0 <= i < 6 && #[trigger] masks[i] & flag != 0,
{
    let mut i: usize = 0;
    while i < 6
        invariant
            i <= 6,
            forall|k: int| 0 <= k < i ==> #[trigger] masks[k] & flag == 0,
        decreases 6 - i,
    {
        if masks[i] & flag != 0 {
            return true;
        }
        i = i + 1;
    }
    false
}

/// Decodes exactly six members by fixed offsets. The Borsh rent-collector
/// option is variable-length; the allocation reserves room for it present.
/// Larger allocations and stale tails are valid and are not read.
pub fn decode_multisig(data: &[u8]) -> (r: Piv1Result<SquadsMultisigConfiguration>)
    ensures
        r == spec_decode_multisig(data@),
{
    let s = Ghost(data@);
    if data.len() < MULTISIG_MINIMUM_SIZE {
        return Err(Piv1Error::InvalidAccountSize);
    }
    let disc: [u8; 8] = SQUADS_MULTISIG_DISCRIMINATOR;
    let mut d: usize = 0;
    while d < 8
        invariant
            d <= 8,
            data@.len() >= 330,
            disc@ == multisig_discriminator(),
            forall|k: int| 0 <= k < d ==> data@[k] == multisig_discriminator()[k],
        decreases 8 - d,
    {
        if data[d] != disc[d] {
            proof {
                assert(data@.subrange(0, 8)[d as int] != multisig_discriminator()[d as int]);
            }
            return Err(Piv1Error::InvalidAccountDiscriminator);
        }
        d = d + 1;
    }
    proof {
        assert(data@.subrange(0, 8) =~= multisig_discriminator());
    }
    let create_key = read_key(data, 8);
    let config_authority = read_key(data, 40);
    let threshold = read_u16_le(data, 72);
    let time_lock = read_u32_le(data, 74);
    let transaction_index = read_u64_le(data, 78);
    let stale_transaction_index = read_u64_le(data, 86);
    let tag = data[94];
    if tag > 1 {
        return Err(Piv1Error::InvalidAccountData);
    }
    let shift: usize = if tag == 1 {
        32
    } else {
        0
    };
    let rent_collector = if tag == 1 {
        Some(read_key(data, 95))
    } else {
        None
    };
    let bump = data[95 + shift];
    if read_u32_le(data, 96 + shift) != 6 {
        return Err(Piv1Error::InvalidGuardianCount);
    }
    let zero = Pubkey { w0: 0, w1: 0, w2: 0, w3: 0 };
    let mut member_keys: [Pubkey; 6] = [zero; 6];
    let mut member_permissions: [u8; 6] = [0u8; 6];
    let mut i: usize = 0;
    while i < 6
        invariant
            i <= 6,
            data@ == s@,
            s@.len() >= 330,
            shift as int == ms_shift(s@),
            zero == Pubkey::spec_zero(),
            s@.subrange(0, 8) == multisig_discriminator(),
            s@[94] <= 1,
            pack_u32(s@, 96 + ms_shift(s@)) == 6,
            forall|k: int| 0 <= k < i ==> member_keys[k] == #[trigger] ms_member_key(s@, k),
            forall|k: int| 0 <= k < i ==> member_permissions[k] == #[trigger] ms_member_perm(s@, k),
            forall|k: int| 0 <= k < i ==> !#[trigger] ms_member_bad(s@, k),
        decreases 6 - i,
    {
        let key = read_key(data, 100 + shift + 33 * i);
        let permissions = data[132 + shift + 33 * i];
        proof {
            assert(key == ms_member_key(s@, i as int));
            assert(permissions == ms_member_perm(s@, i as int));
        }
        let out_of_order = if i > 0 {
            !key_less(&member_keys[i - 1], &key)
        } else {
            false
        };
        if key == zero || out_of_order || permissions & 0xf8u8 != 0 || permissions & VOTE == 0 {
            proof {
                if i > 0 {
                    assert(member_keys[i - 1] == ms_member_key(s@, i - 1));
                    if out_of_order {
                        assert(!key_lt(ms_member_key(s@, i - 1), ms_member_key(s@, i as int)));
                    }
                }
                if key == zero {
                    assert(ms_member_key(s@, i as int).is_zero());
                }
                assert(ms_member_bad(s@, i as int));
            }
            return Err(Piv1Error::InvalidGuardianSet);
        }
        member_keys[i] = key;
        member_permissions[i] = permissions;
        i = i + 1;
    }
    if config_authority != zero || threshold != 4 || !some_mask_has(&member_permissions, INITIATE)
        || !some_mask_has(&member_permissions, EXECUTE) {
        proof {
            assert(!(exists|k: int| 0 <= k < 6 && #[trigger] ms_member_bad(s@, k)));
            assert forall|k: int| 0 <= k < 6 implies #[trigger] ms_member_perm(s@, k) == member_permissions[k] by {}
        }
        return Err(Piv1Error::InvalidGuardianSet);
    }
    proof {
        assert(!(exists|k: int| 0 <= k < 6 && #[trigger] ms_member_bad(s@, k)));
        let k1 = choose|k: int| 0 <= k < 6 && #[trigger] member_permissions[k] & INITIATE != 0;
        assert(ms_member_perm(s@, k1) & INITIATE != 0);
        let k4 = choose|k: int| 0 <= k < 6 && #[trigger] member_permissions[k] & EXECUTE != 0;
        assert(ms_member_perm(s@, k4) & EXECUTE != 0);
    }
    if stale_transaction_index > transaction_index {
        return Err(Piv1Error::InvalidAccountData);
    }
    if time_lock > MAX_TIME_LOCK {
        return Err(Piv1Error::InvalidTimingConfiguration);
    }
    let c = SquadsMultisigConfiguration {
        create_key,
        bump,
        time_lock,
        transaction_index,
        stale_transaction_index,
        rent_collector,
        member_keys,
        member_permissions,
    };
    proof {
        assert(multisig_decodes(s@, c));
        lemma_multisig_decodes_unique(s@, c, choose|x: SquadsMultisigConfiguration| multisig_decodes(s@, x));
    }
    Ok(c)
}

/// Seeds of the multisig address: `multisig`, `multisig` and the create key.
pub open spec fn multisig_seeds(create_key: Pubkey) -> Seq<Seq<u8>> {
    seq![multisig_seed_bytes(), multisig_seed_bytes(), create_key.bytes()]
}

/// Seeds of a vault address: `multisig`, the multisig, `vault` and the index.
pub open spec fn vault_seeds(multisig: Pubkey, vault_index: u8) -> Seq<Seq<u8>> {
    seq![multisig_seed_bytes(), multisig.bytes(), vault_seed_bytes(), seq![vault_index]]
}

/// The seed list of the multisig address.
pub fn multisig_address_seeds(create_key: &Pubkey) -> (r: Vec<Vec<u8>>)
    ensures
        r.deep_view() == multisig_seeds(*create_key),
{
    let r = vec![multisig_seed(), multisig_seed(), key_seed(create_key)];
    proof {
        assert(r@[0].deep_view() =~= r@[0]@);
        assert(r@[1].deep_view() =~= r@[1]@);
        assert(r@[2].deep_view() =~= r@[2]@);
        assert(r.deep_view() =~= multisig_seeds(*create_key));
    }
    r
}

/// The seed list of a vault address.
pub fn vault_address_seeds(multisig: &Pubkey, vault_index: u8) -> (r: Vec<Vec<u8>>)
    ensures
        r.deep_view() == vault_seeds(*multisig, vault_index),
{
    let index = vec![vault_index];
    let r = vec![multisig_seed(), key_seed(multisig), vault_seed(), index];
    proof {
        assert(r@[3]@ =~= seq![vault_index]);
        assert(r@[0].deep_view() =~= r@[0]@);
        assert(r@[1].deep_view() =~= r@[1]@);
        assert(r@[2].deep_view() =~= r@[2]@);
        assert(r@[3].deep_view() =~= r@[3]@);
        assert(r.deep_view() =~= vault_seeds(*multisig, vault_index));
    }
    r
}

/// Three inspected accounts. The vault authority is derived as an address only;
/// it is not the Squads-owned multisig account and need not be supplied or sign.
#[derive(Clone, Debug)]
pub struct SquadsAuthorityAccountInfos {
    pub program: AccountView,
    pub program_data: AccountView,
    pub multisig: AccountView,
}

/// Current ProgramData authority equals this multisig's derived vault address.
/// Threshold four is authenticated, but neither proposal approvals nor absence
/// of separate spending-limit accounts is established by this observation.
#[derive(Clone, Copy, Debug, PartialEq, Eq)]
pub struct AuthenticatedSquadsAuthoritySnapshot {
    trusted_runtime_program_id: Pubkey,
    program_data: Pubkey,
    program_modified_slot: u64,
    multisig: Pubkey,
    vault: Pubkey,
    vault_index: u8,
    configuration: SquadsMultisigConfiguration,
}

impl AuthenticatedSquadsAuthoritySnapshot {
    pub closed spec fn spec_program(self) -> Pubkey {
        self.trusted_runtime_program_id
    }

    pub closed spec fn spec_program_data(self) -> Pubkey {
        self.program_data
    }

    pub closed spec fn spec_program_modified_slot(self) -> u64 {
        self.program_modified_slot
    }

    pub closed spec fn spec_multisig(self) -> Pubkey {
        self.multisig
    }

    pub closed spec fn spec_vault(self) -> Pubkey {
        self.vault
    }

    pub closed spec fn spec_vault_index(self) -> u8 {
        self.vault_index
    }

    pub closed spec fn spec_configuration(self) -> SquadsMultisigConfiguration {
        self.configuration
    }

    /// The ProgramData address, its last-modified slot, the multisig, the
    /// vault and the configuration.
    pub open spec fn spec_parts(self) -> (Pubkey, u64, Pubkey, Pubkey, SquadsMultisigConfiguration) {
        (
            self.spec_program_data(),
            self.spec_program_modified_slot(),
            self.spec_multisig(),
            self.spec_vault(),
            self.spec_configuration(),
        )
    }

    pub fn trusted_runtime_program_id(&self) -> (r: Pubkey)
        ensures
            r == self.spec_program(),
    {
        self.trusted_runtime_program_id
    }

    pub fn program_data(&self) -> (r: Pubkey)
        ensures
            r == self.spec_program_data(),
    {
        self.program_data
    }

    pub fn program_modified_slot(&self) -> (r: u64)
        ensures
            r == self.spec_program_modified_slot(),
    {
        self.program_modified_slot
    }

    pub fn multisig(&self) -> (r: Pubkey)
        ensures
            r == self.spec_multisig(),
    {
        self.multisig
    }

    pub fn vault(&self) -> (r: Pubkey)
        ensures
            r == self.spec_vault(),
    {
        self.vault
    }

    pub fn vault_index(&self) -> (r: u8)
        ensures
            r == self.spec_vault_index(),
    {
        self.vault_index
    }

    pub fn configuration(&self) -> (r: &SquadsMultisigConfiguration)
        ensures
            *r == self.spec_configuration(),
    {
        &self.configuration
    }

    /// Outcome of comparing with a guardian snapshot: the same runtime program,
    /// and every registry guardian a current member. Set membership keeps the
    /// registry's slot order, which differs from Squads' sorted member order.
    pub open spec fn spec_guardian_correspondence(self, guardians: AuthenticatedGuardianClockSnapshot) -> Piv1Result<()> {
        if self.spec_program() != guardians.spec_program() {
            Err(Piv1Error::InvalidProgramIdentity)
        } else if exists|g: int|
            0 <= g < 6 && !self.spec_configuration().member_keys@.contains(
                #[trigger] guardians.spec_registry().guardian_keys[g],
            ) {
            Err(Piv1Error::InvalidGuardianSet)
        } else {
            Ok(())
        }
    }

    /// Compares already-authenticated observations from the same runtime
    /// program. This neither rotates nor synchronizes state; refresh both
    /// snapshots after mutations or cross-program calls.
    pub fn validate_guardian_correspondence(&self, guardians: &AuthenticatedGuardianClockSnapshot) -> (r: Piv1Result<()>)
        ensures
            r == self.spec_guardian_correspondence(*guardians),
    {
        if self.trusted_runtime_program_id != guardians.trusted_runtime_program_id() {
            return Err(Piv1Error::InvalidProgramIdentity);
        }
        let registry = guardians.registry();
        let members = self.configuration.member_keys;
        let mut g: usize = 0;
        while g < 6
            invariant
                g <= 6,
                members == self.spec_configuration().member_keys,
                self.spec_program() == guardians.spec_program(),
                *registry == guardians.spec_registry(),
                forall|k: int| 0 <= k < g ==> members@.contains(#[trigger] registry.guardian_keys[k]),
            decreases 6 - g,
        {
            let member_slice = members.as_slice();
            let found = contains_key(member_slice, &registry.guardian_keys[g]);
            proof {
                assert(member_slice@ == members@);
            }
            if !found {
                proof {
                    assert(!self.spec_configuration().member_keys@.contains(guardians.spec_registry().guardian_keys[g as int]));
                }
                return Err(Piv1Error::InvalidGuardianSet);
            }
            g = g + 1;
        }
        Ok(())
    }
}

/// The loader-v3 part of the authority check: the program and its ProgramData
/// accounts, giving the ProgramData address, the slot it was last modified in
/// and its upgrade authority.
pub open spec fn spec_loader_authority(program: Pubkey, p: AccountView, pd: AccountView, m: AccountView) -> Piv1Result<
    (Pubkey, u64, Pubkey),
> {
    if p.key == pd.key || p.key == m.key || pd.key == m.key {
        Err(Piv1Error::AccountAlias)
    } else if p.key != program || !p.executable {
        Err(Piv1Error::InvalidProgramIdentity)
    } else if p.owner != upgradeable_loader_key() || pd.owner != upgradeable_loader_key() || m.owner
        != squads_v4_key() {
        Err(Piv1Error::InvalidAccountOwner)
    } else if pd.executable || m.executable {
        Err(Piv1Error::ExecutableAccount)
    } else {
        match spec_derive(seq![program.bytes()], upgradeable_loader_key()) {
            None => Err(Piv1Error::InvalidAccountPda),
            Some(found) => if pd.key != found.0 {
                Err(Piv1Error::InvalidAccountPda)
            } else {
                match p.data {
                    None => Err(Piv1Error::AccountBorrowFailed),
                    Some(d) => if d@.len() != 36 {
                        Err(Piv1Error::InvalidAccountSize)
                    } else if pack_u32(d@, 0) != 2 {
                        Err(Piv1Error::InvalidAccountData)
                    } else if key_at(d@, 4) != found.0 {
                        Err(Piv1Error::InvalidAccountPda)
                    } else {
                        match pd.data {
                            None => Err(Piv1Error::AccountBorrowFailed),
                            Some(e) => if e@.len() < 45 {
                                Err(Piv1Error::InvalidAccountSize)
                            } else if pack_u32(e@, 0) != 3 {
                                Err(Piv1Error::InvalidAccountData)
                            } else if e@[12] != 1 {
                                Err(Piv1Error::InvalidAccountData)
                            } else {
                                Ok((found.0, pack_at(e@, 4), key_at(e@, 13)))
                            },
                        }
                    },
                }
            },
        }
    }
}

/// What authenticating the Squads authority gives: the loader checks, the
/// multisig decode, the canonical multisig address and bump, and a
/// ProgramData authority equal to the multisig's vault at `vault_index`. On
/// success: the ProgramData address, its last-modified slot, the multisig,
/// the vault and the configuration. A derivation without a bump is refused
/// as the address it would check.
pub open spec fn spec_squads_authority(
    program: Pubkey,
    vault_index: u8,
    p: AccountView,
    pd: AccountView,
    m: AccountView,
) -> Piv1Result<(Pubkey, u64, Pubkey, Pubkey, SquadsMultisigConfiguration)> {
    match spec_loader_authority(program, p, pd, m) {
        Err(e) => Err(e),
        Ok(found) => match m.data {
            None => Err(Piv1Error::AccountBorrowFailed),
            Some(d) => match spec_decode_multisig(d@) {
                Err(e) => Err(e),
                Ok(c) => match spec_derive(multisig_seeds(c.create_key), squads_v4_key()) {
                    None => Err(Piv1Error::InvalidAccountPda),
                    Some(ms) => if m.key != ms.0 || c.bump != ms.1 {
                        Err(Piv1Error::InvalidAccountPda)
                    } else {
                        match spec_derive(vault_seeds(ms.0, vault_index), squads_v4_key()) {
                            None => Err(Piv1Error::InvalidAccountPda),
                            Some(v) => if found.2 != v.0 {
                                Err(Piv1Error::InvalidProgramIdentity)
                            } else {
                                Ok((found.0, found.1, ms.0, v.0, c))
                            },
                        }
                    },
                },
            },
        },
    }
}

/// The snapshot holds `program`, `vault_index` and the parts that
/// `spec_squads_authority` gives.
pub open spec fn authority_holds(
    s: AuthenticatedSquadsAuthoritySnapshot,
    program: Pubkey,
    vault_index: u8,
    parts: (Pubkey, u64, Pubkey, Pubkey, SquadsMultisigConfiguration),
) -> bool {
    &&& s.spec_program() == program
    &&& s.spec_vault_index() == vault_index
    &&& s.spec_program_data() == parts.0
    &&& s.spec_program_modified_slot() == parts.1
    &&& s.spec_multisig() == parts.2
    &&& s.spec_vault() == parts.3
    &&& s.spec_configuration() == parts.4
}

/// Loader-v3 checks of the program and ProgramData accounts.
fn loader_authority(program: &Pubkey, p: &AccountView, pd: &AccountView, m: &AccountView) -> (r: Piv1Result<
    (Pubkey, u64, Pubkey),
>)
    ensures
        r == spec_loader_authority(*program, *p, *pd, *m),
{
    if p.key == pd.key || p.key == m.key || pd.key == m.key {
        return Err(Piv1Error::AccountAlias);
    }
    if p.key != *program || !p.executable {
        return Err(Piv1Error::InvalidProgramIdentity);
    }
    let loader = upgradeable_loader();
    if p.owner != loader || pd.owner != loader || m.owner != squads_v4_program_id() {
        return Err(Piv1Error::InvalidAccountOwner);
    }
    if pd.executable || m.executable {
        return Err(Piv1Error::ExecutableAccount);
    }
    let seeds = vec![key_seed(program)];
    proof {
        assert(seeds@[0].deep_view() =~= seeds@[0]@);
        assert(seeds.deep_view() =~= seq![program.bytes()]);
    }
    let program_data = match derive_address(&seeds, &loader) {
        None => {
            return Err(Piv1Error::InvalidAccountPda);
        },
        Some(found) => found.0,
    };
    if pd.key != program_data {
        return Err(Piv1Error::InvalidAccountPda);
    }
    match &p.data {
        None => {
            return Err(Piv1Error::AccountBorrowFailed);
        },
        Some(d) => {
            if d.len() != 36 {
                return Err(Piv1Error::InvalidAccountSize);
            }
            if read_u32_le(d.as_slice(), 0) != 2 {
                return Err(Piv1Error::InvalidAccountData);
            }
            if read_key(d.as_slice(), 4) != program_data {
                return Err(Piv1Error::InvalidAccountPda);
            }
        },
    }
    match &pd.data {
        None => Err(Piv1Error::AccountBorrowFailed),
        Some(e) => {
            if e.len() < 45 {
                return Err(Piv1Error::InvalidAccountSize);
            }
            if read_u32_le(e.as_slice(), 0) != 3 {
                return Err(Piv1Error::InvalidAccountData);
            }
            if e[12] != 1 {
                return Err(Piv1Error::InvalidAccountData);
            }
            Ok((program_data, read_u64_le(e.as_slice(), 4), read_key(e.as_slice(), 13)))
        },
    }
}

/// Authenticates loader metadata and the present Squads configuration without
/// executing governance. The explicit vault index is bound to the actual
/// ProgramData authority; it cannot select an unrelated authority. Signer and
/// writable flags and lamports do not affect these read-only checks.
pub fn authenticate_squads_authority_snapshot(
    trusted_runtime_program_id: &Pubkey,
    vault_index: u8,
    accounts: &SquadsAuthorityAccountInfos,
) -> (r: Piv1Result<AuthenticatedSquadsAuthoritySnapshot>)
    ensures
        match r {
            Ok(s) => spec_squads_authority(
                *trusted_runtime_program_id,
                vault_index,
                accounts.program,
                accounts.program_data,
                accounts.multisig,
            ) is Ok && authority_holds(
                s,
                *trusted_runtime_program_id,
                vault_index,
                spec_squads_authority(
                    *trusted_runtime_program_id,
                    vault_index,
                    accounts.program,
                    accounts.program_data,
                    accounts.multisig,
                )->Ok_0,
            ),
            Err(e) => spec_squads_authority(
                *trusted_runtime_program_id,
                vault_index,
                accounts.program,
                accounts.program_data,
                accounts.multisig,
            ) == Err::<(Pubkey, u64, Pubkey, Pubkey, SquadsMultisigConfiguration), Piv1Error>(e),
        },
{
    authenticate_authority_accounts(
        trusted_runtime_program_id,
        vault_index,
        &accounts.program,
        &accounts.program_data,
        &accounts.multisig,
    )
}

/// The authority check over the three accounts wherever they are held.
pub fn authenticate_authority_accounts(
    trusted_runtime_program_id: &Pubkey,
    vault_index: u8,
    program: &AccountView,
    program_data: &AccountView,
    multisig: &AccountView,
) -> (r: Piv1Result<AuthenticatedSquadsAuthoritySnapshot>)
    ensures
        match r {
            Ok(s) => spec_squads_authority(*trusted_runtime_program_id, vault_index, *program, *program_data, *multisig)
                is Ok && authority_holds(
                s,
                *trusted_runtime_program_id,
                vault_index,
                spec_squads_authority(*trusted_runtime_program_id, vault_index, *program, *program_data, *multisig)->Ok_0,
            ),
            Err(e) => spec_squads_authority(*trusted_runtime_program_id, vault_index, *program, *program_data, *multisig)
                == Err::<(Pubkey, u64, Pubkey, Pubkey, SquadsMultisigConfiguration), Piv1Error>(e),
        },
{
    let program_account = program;
    let program_data_account = program_data;
    let multisig_account = multisig;
    let (program_data, program_modified_slot, authority) = loader_authority(
        trusted_runtime_program_id,
        program_account,
        program_data_account,
        multisig_account,
    )?;
    let configuration = match &multisig_account.data {
        None => {
            return Err(Piv1Error::AccountBorrowFailed);
        },
        Some(d) => decode_multisig(d.as_slice())?,
    };
    let squads = squads_v4_program_id();
    let seeds = multisig_address_seeds(&configuration.create_key);
    let multisig = match derive_address(&seeds, &squads) {
        None => {
            return Err(Piv1Error::InvalidAccountPda);
        },
        Some(found) => {
            if multisig_account.key != found.0 || configuration.bump != found.1 {
                return Err(Piv1Error::InvalidAccountPda);
            }
            found.0
        },
    };
    let vault = match derive_address(&vault_address_seeds(&multisig, vault_index), &squads) {
        None => {
            return Err(Piv1Error::InvalidAccountPda);
        },
        Some(found) => found.0,
    };
    if authority != vault {
        return Err(Piv1Error::InvalidProgramIdentity);
    }
    Ok(AuthenticatedSquadsAuthoritySnapshot {
        trusted_runtime_program_id: *trusted_runtime_program_id,
        program_data,
        program_modified_slot,
        multisig,
        vault,
        vault_index,
        configuration,
    })
}

} // verus!
