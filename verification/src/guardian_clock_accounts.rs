//! Read-only current guardian and activity snapshots derived from the Clock.
//!
//! The executing program ID and rent floors are trusted runtime inputs. Owned
//! results are point-in-time evidence, not authority to record a heartbeat or
//! to distribute. No wallet, signer, pool, custody or round is read.

use crate::account_view::{
    check_state_envelope, clock_sysvar_id, clock_sysvar_key, contains_key, distinct_keys,
    keys_distinct, payload_len, spec_program, spec_state_envelope, sysvar_owner_id,
    sysvar_owner_key, validate_pda, validate_program, validate_program_bindings, AccountView,
    RentFloors, Seed, StateKind, lemma_valid_config_fails_program_bindings,
};
use crate::address::{pack_at, Pubkey};
use crate::bitmap::count_ones;
use crate::codec::read_u64_le;
use crate::errors::{Piv1Error, Piv1Result};
use crate::kif_claim_accounts::{authenticate_reward_account, spec_reward_account};
use crate::state::config::PivConfig;
use crate::state::guardian::{GuardianRegistry, GuardianReward};
use crate::state::timing::{derive_kif_period, KifPeriod};
use vstd::prelude::*;

verus! {

/// Serialized Clock sysvar size: five eight-byte integers, with no envelope.
pub const CLOCK_ACCOUNT_SIZE: usize = 40;

/// The Clock sysvar's five fields.
#[derive(Clone, Copy, Debug, PartialEq, Eq, Structural)]
pub struct Clock {
    pub slot: u64,
    pub epoch_start_timestamp: i64,
    pub epoch: u64,
    pub leader_schedule_epoch: u64,
    pub unix_timestamp: i64,
}

/// The Clock whose little-endian fixed-width serialization is `data`.
pub open spec fn spec_decode_clock(data: Seq<u8>) -> Clock {
    Clock {
        slot: pack_at(data, 0),
        epoch_start_timestamp: pack_at(data, 8) as i64,
        epoch: pack_at(data, 16),
        leader_schedule_epoch: pack_at(data, 24),
        unix_timestamp: pack_at(data, 32) as i64,
    }
}

/// Reads the Clock's fixed-width little-endian serialization.
pub fn decode_clock(data: &[u8]) -> (r: Clock)
    requires
        data@.len() == CLOCK_ACCOUNT_SIZE,
    ensures
        r == spec_decode_clock(data@),
{
    Clock {
        slot: read_u64_le(data, 0),
        epoch_start_timestamp: read_u64_le(data, 8) as i64,
        epoch: read_u64_le(data, 16),
        leader_schedule_epoch: read_u64_le(data, 24),
        unix_timestamp: read_u64_le(data, 32) as i64,
    }
}

/// Checks of the Clock sysvar account.
pub open spec fn spec_clock(account: AccountView) -> Piv1Result<Clock> {
    if account.key != clock_sysvar_key() {
        Err(Piv1Error::InvalidClockAccount)
    } else if account.owner != sysvar_owner_key() {
        Err(Piv1Error::InvalidAccountOwner)
    } else if account.executable {
        Err(Piv1Error::ExecutableAccount)
    } else {
        match account.data {
            None => Err(Piv1Error::AccountBorrowFailed),
            Some(data) => if data@.len() != CLOCK_ACCOUNT_SIZE {
                Err(Piv1Error::InvalidAccountSize)
            } else {
                Ok(spec_decode_clock(data@))
            },
        }
    }
}

/// Reads the canonical Clock sysvar account.
pub fn authenticate_clock(account: &AccountView) -> (r: Piv1Result<Clock>)
    ensures
        r == spec_clock(*account),
{
    if account.key != clock_sysvar_id() {
        return Err(Piv1Error::InvalidClockAccount);
    }
    if account.owner != sysvar_owner_id() {
        return Err(Piv1Error::InvalidAccountOwner);
    }
    if account.executable {
        return Err(Piv1Error::ExecutableAccount);
    }
    match &account.data {
        None => Err(Piv1Error::AccountBorrowFailed),
        Some(data) => {
            if data.len() != CLOCK_ACCOUNT_SIZE {
                return Err(Piv1Error::InvalidAccountSize);
            }
            Ok(decode_clock(data.as_slice()))
        },
    }
}

/// Exactly nine read-only accounts; rewards in current registry slot order.
#[derive(Clone, Debug)]
pub struct GuardianClockAccountInfos {
    pub config: AccountView,
    pub guardian_registry: AccountView,
    pub rewards: [AccountView; 6],
    pub clock: AccountView,
}

impl GuardianClockAccountInfos {
    /// The nine keys in their fixed order.
    pub open spec fn spec_keys(self) -> Seq<Pubkey> {
        seq![self.config.key, self.guardian_registry.key, self.rewards[0].key, self.rewards[1].key,
            self.rewards[2].key, self.rewards[3].key, self.rewards[4].key, self.rewards[5].key,
            self.clock.key]
    }
}

/// Owned validated state and the complete Clock underlying the derived period.
#[derive(Clone, Copy, Debug, PartialEq, Eq)]
pub struct AuthenticatedGuardianClockSnapshot {
    trusted_runtime_program_id: Pubkey,
    config: PivConfig,
    registry: GuardianRegistry,
    rewards: [GuardianReward; 6],
    clock: Clock,
    period: KifPeriod,
    activity_bitmap: u8,
    active_count: u8,
}

impl AuthenticatedGuardianClockSnapshot {
    pub closed spec fn spec_program(self) -> Pubkey {
        self.trusted_runtime_program_id
    }

    /// The executing program the snapshot was authenticated for.
    pub fn trusted_runtime_program_id(&self) -> (r: Pubkey)
        ensures
            r == self.spec_program(),
    {
        self.trusted_runtime_program_id
    }

    pub closed spec fn spec_config(self) -> PivConfig {
        self.config
    }

    pub closed spec fn spec_registry(self) -> GuardianRegistry {
        self.registry
    }

    pub closed spec fn spec_rewards(self) -> [GuardianReward; 6] {
        self.rewards
    }

    pub closed spec fn spec_clock(self) -> Clock {
        self.clock
    }

    pub closed spec fn spec_period(self) -> KifPeriod {
        self.period
    }

    pub closed spec fn spec_activity_bitmap(self) -> u8 {
        self.activity_bitmap
    }

    pub closed spec fn spec_active_count(self) -> u8 {
        self.active_count
    }

    pub fn config(&self) -> (r: &PivConfig)
        ensures
            *r == self.spec_config(),
    {
        &self.config
    }

    pub fn registry(&self) -> (r: &GuardianRegistry)
        ensures
            *r == self.spec_registry(),
    {
        &self.registry
    }

    pub fn rewards(&self) -> (r: &[GuardianReward; 6])
        ensures
            *r == self.spec_rewards(),
    {
        &self.rewards
    }

    pub fn clock(&self) -> (r: &Clock)
        ensures
            *r == self.spec_clock(),
    {
        &self.clock
    }

    pub fn period(&self) -> (r: KifPeriod)
        ensures
            r == self.spec_period(),
    {
        self.period
    }

    pub fn activity_bitmap(&self) -> (r: u8)
        ensures
            r == self.spec_activity_bitmap(),
    {
        self.activity_bitmap
    }

    pub fn active_count(&self) -> (r: u8)
        ensures
            r == self.spec_active_count(),
    {
        self.active_count
    }
}

/// PIV-controlled addresses that no guardian or foreign account may take.
pub open spec fn piv_roles(config: PivConfig) -> Seq<Pubkey> {
    seq![config.piv_authority, config.active_distribution, config.principal_jito_vault,
        config.pending_jito_vault, config.pending_sol_vault, config.principal_sol_queue,
        config.operational_sol_vault, config.distribution_escrow, config.kif_sol_vault,
        config.guardian_registry]
}

/// PIV-controlled addresses that no guardian or foreign account may take.
pub fn piv_role_keys(config: &PivConfig) -> (r: [Pubkey; 10])
    ensures
        r@ == piv_roles(*config),
{
    let r = [config.piv_authority, config.active_distribution, config.principal_jito_vault,
        config.pending_jito_vault, config.pending_sol_vault, config.principal_sol_queue,
        config.operational_sol_vault, config.distribution_escrow, config.kif_sol_vault,
        config.guardian_registry];
    assert(r@ =~= piv_roles(*config));
    r
}

/// Outcome of the configuration checks of a snapshot. A configuration that
/// passes validation never holds the System program's all-zero address, so the
/// program-binding check that follows refuses every validated configuration.
pub open spec fn spec_snapshot_config(config: PivConfig) -> Piv1Result<()> {
    match config.spec_validate() {
        Err(e) => Err(e),
        Ok(_) => Err(Piv1Error::InvalidProgramIdentity),
    }
}

/// Validates the configuration, its program bindings, role separation of the
/// supplied accounts, and the configuration and registry addresses.
#[verifier::loop_isolation(false)]
pub fn validate_snapshot_config(config: &PivConfig, program_id: &Pubkey, accounts: &GuardianClockAccountInfos) -> (r:
    Piv1Result<()>)
    ensures
        r == spec_snapshot_config(*config),
{
    config.validate_initialized()?;
    proof {
        lemma_valid_config_fails_program_bindings(*config);
    }
    validate_program_bindings(config)?;
    let roles = piv_role_keys(config);
    let external_roles = [config.stake_pool_program, config.stake_pool, config.validator_list,
        config.reserve_stake, config.jitosol_mint, config.token_program, config.stake_program,
        config.system_program, config.manager_fee_account, config.referrer_token_account,
        config.htfp_recipient, config.team_owner_recipient];
    if contains_key(&roles, &accounts.config.key) || contains_key(&external_roles, &accounts.config.key) {
        return Err(Piv1Error::AccountAlias);
    }
    let mut i: usize = 0;
    while i < 6
        invariant
            i <= 6,
        decreases 6 - i,
    {
        if contains_key(&roles, &accounts.rewards[i].key) {
            return Err(Piv1Error::AccountAlias);
        }
        i = i + 1;
    }
    validate_pda(program_id, &accounts.config.key, Seed::Config, config.bumps.config)?;
    validate_pda(program_id, &config.guardian_registry, Seed::GuardianRegistry, config.bumps.guardian_registry)?;
    if accounts.guardian_registry.key != config.guardian_registry {
        return Err(Piv1Error::InvalidAccountPda);
    }
    Ok(())
}

/// Outcome of the registry checks of a snapshot against the configuration and
/// the keys of the accounts supplied before the Clock.
pub open spec fn spec_snapshot_registry(registry: GuardianRegistry, config: PivConfig, keys: Seq<Pubkey>) -> Piv1Result<()> {
    match registry.spec_validate() {
        Err(e) => Err(e),
        Ok(_) => if registry.bump != config.bumps.guardian_registry {
            Err(Piv1Error::InvalidAccountPda)
        } else if registry.revision != config.guardian_registry_revision {
            Err(Piv1Error::InvalidGuardianSet)
        } else if exists|g: int| 0 <= g < 6 && (piv_roles(config).contains(#[trigger] registry.guardian_keys[g])
            || keys.contains(registry.guardian_keys[g])) {
            Err(Piv1Error::AccountAlias)
        } else {
            Ok(())
        },
    }
}

/// Validates the registry, its binding to the configuration, and that no
/// guardian key designates PIV state, authority or custody, or one of the
/// supplied accounts.
#[verifier::loop_isolation(false)]
pub fn validate_snapshot_registry(registry: &GuardianRegistry, config: &PivConfig, keys: &[Pubkey]) -> (r:
    Piv1Result<()>)
    ensures
        r == spec_snapshot_registry(*registry, *config, keys@),
{
    registry.validate()?;
    if registry.bump != config.bumps.guardian_registry {
        return Err(Piv1Error::InvalidAccountPda);
    }
    if registry.revision != config.guardian_registry_revision {
        return Err(Piv1Error::InvalidGuardianSet);
    }
    let roles = piv_role_keys(config);
    let mut g: usize = 0;
    while g < 6
        invariant
            g <= 6,
            roles@ == piv_roles(*config),
            forall|k: int| 0 <= k < g ==> !(piv_roles(*config).contains(#[trigger] registry.guardian_keys[k])
                || keys@.contains(registry.guardian_keys[k])),
        decreases 6 - g,
    {
        let guardian = registry.guardian_keys[g];
        if contains_key(&roles, &guardian) || contains_key(keys, &guardian) {
            return Err(Piv1Error::AccountAlias);
        }
        g = g + 1;
    }
    Ok(())
}

/// Authenticates the six reward accounts in slot order; the first failure is
/// returned.
pub fn authenticate_rewards(
    program_id: &Pubkey,
    floor: Piv1Result<u64>,
    accounts: &[AccountView; 6],
    payloads: [Option<(GuardianReward, usize)>; 6],
) -> (r: Piv1Result<[GuardianReward; 6]>)
    ensures
        r is Ok <==> forall|i: int| 0 <= i < 6 ==> (#[trigger] spec_reward_account(*program_id, floor, accounts[i], payloads[i])) is Ok,
        r is Ok ==> forall|i: int| 0 <= i < 6 ==> Ok::<GuardianReward, Piv1Error>(#[trigger] r->Ok_0[i])
            == spec_reward_account(*program_id, floor, accounts[i], payloads[i]),
        r is Err ==> exists|i: int| 0 <= i < 6 && #[trigger] spec_reward_account(*program_id, floor, accounts[i], payloads[i])
            == Err::<GuardianReward, Piv1Error>(r->Err_0) && forall|k: int| 0 <= k < i ==> (#[trigger] spec_reward_account(*program_id, floor, accounts[k], payloads[k])) is Ok,
{
    let placeholder = GuardianReward {
        version: 0,
        bump: 0,
        guardian_index: 0,
        registry_revision: 0,
        guardian: Pubkey { w0: 0, w1: 0, w2: 0, w3: 0 },
        last_active_period: None,
        claimable_lamports: 0,
        cumulative_earned: 0,
        cumulative_claimed: 0,
    };
    let mut rewards: [GuardianReward; 6] = [placeholder; 6];
    let mut i: usize = 0;
    while i < 6
        invariant
            i <= 6,
            forall|k: int|
                #![trigger rewards[k]]
                #![trigger spec_reward_account(*program_id, floor, accounts[k], payloads[k])]
                0 <= k < i ==> Ok::<GuardianReward, Piv1Error>(rewards[k])
                == spec_reward_account(*program_id, floor, accounts[k], payloads[k]),
        decreases 6 - i,
    {
        match authenticate_reward_account(program_id, floor, &accounts[i], payloads[i]) {
            Err(e) => {
                assert(forall|k: int| 0 <= k < i ==> (#[trigger] spec_reward_account(*program_id, floor, accounts[k], payloads[k])) is Ok);
                return Err(e);
            },
            Ok(reward) => {
                rewards[i] = reward;
            },
        }
        i = i + 1;
    }
    Ok(rewards)
}

/// Outcome of authenticating a snapshot. A configuration that passes
/// validation never holds the System program's all-zero address, so the
/// program-binding check that follows refuses every validated configuration.
pub open spec fn spec_authenticate_guardian_clock(
    program: Pubkey,
    rent: RentFloors,
    accounts: GuardianClockAccountInfos,
    config: Option<(PivConfig, usize)>,
) -> Piv1Result<AuthenticatedGuardianClockSnapshot> {
    if spec_program(program) is Err {
        Err(Piv1Error::InvalidProgramIdentity)
    } else if !keys_distinct(accounts.spec_keys()) {
        Err(Piv1Error::AccountAlias)
    } else {
        match spec_state_envelope(accounts.config, program, StateKind::Config, payload_len(config), rent.config) {
            Err(e) => Err(e),
            Ok(_) => match spec_snapshot_config(config.unwrap().0) {
                Err(e) => Err(e),
                Ok(_) => Err(Piv1Error::InvalidProgramIdentity),
            },
        }
    }
}

/// Authenticates current guardian membership and derives the activity
/// snapshot of the Clock's KIF period. Pause does not block inspection.
/// `config`, `registry` and `rewards` are the decoded state payloads with
/// their lengths.
#[verifier::loop_isolation(false)]
pub fn authenticate_guardian_clock_snapshot(
    trusted_runtime_program_id: &Pubkey,
    rent: &RentFloors,
    accounts: &GuardianClockAccountInfos,
    config: Option<(PivConfig, usize)>,
    registry: Option<(GuardianRegistry, usize)>,
    rewards: [Option<(GuardianReward, usize)>; 6],
) -> (r: Piv1Result<AuthenticatedGuardianClockSnapshot>)
    ensures
        r == spec_authenticate_guardian_clock(*trusted_runtime_program_id, *rent, *accounts, config),
{
    let program_id = trusted_runtime_program_id;
    validate_program(program_id)?;
    let keys = [accounts.config.key, accounts.guardian_registry.key, accounts.rewards[0].key,
        accounts.rewards[1].key, accounts.rewards[2].key, accounts.rewards[3].key,
        accounts.rewards[4].key, accounts.rewards[5].key, accounts.clock.key];
    assert(keys@ =~= accounts.spec_keys());
    if !distinct_keys(&keys) {
        return Err(Piv1Error::AccountAlias);
    }
    let config_len = match &config {
        None => None,
        Some(c) => Some(c.1),
    };
    check_state_envelope(&accounts.config, program_id, StateKind::Config, config_len, rent.config)?;
    let config = match config {
        None => return Err(Piv1Error::InvalidAccountData),
        Some(c) => c.0,
    };
    validate_snapshot_config(&config, program_id, accounts)?;
    let registry_len = match &registry {
        None => None,
        Some(d) => Some(d.1),
    };
    check_state_envelope(&accounts.guardian_registry, program_id, StateKind::Registry, registry_len, rent.registry)?;
    let registry = match registry {
        None => return Err(Piv1Error::InvalidAccountData),
        Some(d) => d.0,
    };
    let earlier = [keys[0], keys[1], keys[2], keys[3], keys[4], keys[5], keys[6], keys[7]];
    validate_snapshot_registry(&registry, &config, &earlier)?;
    let rewards = authenticate_rewards(program_id, rent.reward, &accounts.rewards, rewards)?;
    let mut index: usize = 0;
    while index < 6
        invariant
            index <= 6,
        decreases 6 - index,
    {
        registry.validate_reward_binding(index as u8, &rewards[index])?;
        index = index + 1;
    }
    let clock = authenticate_clock(&accounts.clock)?;
    let period = derive_kif_period(config.kif_anchor_timestamp, clock.unix_timestamp)?;
    let activity_bitmap = registry.activity_bitmap(&rewards, period.id)?;
    let count = count_ones(activity_bitmap);
    if count > 255 {
        return Err(Piv1Error::ArithmeticOverflow);
    }
    let active_count = count as u8;
    GuardianRegistry::validate_activity_snapshot(activity_bitmap, active_count)?;
    Ok(AuthenticatedGuardianClockSnapshot {
        trusted_runtime_program_id: *program_id,
        config,
        registry,
        rewards,
        clock,
        period,
        activity_bitmap,
        active_count,
    })
}

} // verus!
