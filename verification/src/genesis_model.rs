//! Approved, deterministic genesis model preparation without account creation.
//!
//! Exact approved bytes and fresh Squads bootstrap authorization are composed
//! in one call. Proposed external keys remain unverified declarations. The
//! returned state is neither an authenticated custody snapshot nor a
//! capability to create or persist accounts.
//!
//! The proposed configuration binds the System program's all-zero address,
//! which configuration validation refuses as a zero address; preparation
//! therefore ends in `InvalidAddress` once every earlier check passes.

use crate::account_view::{
    contains_key, derive_address, key_seed, reward_seeds, spec_derive, spec_reward_seeds, stake_program_id, stake_program_key,
    system_program_id, system_program_key, token_program_id, token_program_key, AccountView, Seed, StateKind,
};
use crate::address::{pack_at, Pubkey};
use crate::constants::{
    INSUFFICIENT_RETRY_COOLDOWN_SECONDS, KIF_PERIOD_SECONDS, MAX_CONFIGURED_SLIPPAGE_BPS,
    MINIMUM_DISTRIBUTION_INTERVAL_SECONDS, STATE_LAYOUT_VERSION,
};
use crate::errors::Piv1Error;
use crate::instructions::initialize::{genesis_decode_error, GenesisModelFormatError, GenesisModelParameters};
use crate::math::{BASIS_POINTS_DENOMINATOR, HTFP_RESERVE_BPS, KIF_BPS, PERMANENT_COMPOUND_BPS, TEAM_OWNER_POOL_BPS};
use crate::squads_execution::{
    authenticate_squads_bootstrap_invocation, spec_squads_bootstrap, AuthenticatedSquadsBootstrapInvocation,
    SquadsAction, SquadsBootstrapRoles, SquadsExecutionError, SquadsInvocationContext,
};
use crate::state::config::{PivConfig, PivConfigBumps};
use crate::state::distribution::ActiveDistribution;
use crate::state::guardian::{GuardianRegistry, GuardianReward};
use crate::state::timing::{derive_kif_period, spec_kif_period, KifPeriod};
use vstd::prelude::*;

verus! {

/// Failures of genesis model preparation.
#[derive(Clone, Copy, Debug, PartialEq, Eq)]
pub enum GenesisModelError {
    Format(GenesisModelFormatError),
    Authorization(SquadsExecutionError),
    State(Piv1Error),
}

pub type GenesisModelResult<T> = Result<T, GenesisModelError>;

/// The role of one derived genesis account.
#[derive(Clone, Copy, Debug, PartialEq, Eq)]
pub enum GenesisTargetRole {
    Config,
    ActiveDistribution,
    GuardianRegistry,
    GuardianReward(u8),
    PendingSol,
    PrincipalSol,
    OperationalSol,
    DistributionEscrow,
    KifSol,
    PrincipalJito,
    PendingJito,
}

/// Expected future topology only; no actual target owner, allocation, balance,
/// rent floor or creation readiness is authenticated by this descriptor.
#[derive(Clone, Copy, Debug, PartialEq, Eq)]
pub struct DerivedGenesisTarget {
    pub role: GenesisTargetRole,
    pub address: Pubkey,
    pub owner: Pubkey,
    pub size: usize,
    pub bump: u8,
}

impl DerivedGenesisTarget {
    pub fn role(&self) -> (r: GenesisTargetRole)
        ensures
            r == self.role,
    {
        self.role
    }

    pub fn address(&self) -> (r: Pubkey)
        ensures
            r == self.address,
    {
        self.address
    }

    pub fn owner(&self) -> (r: Pubkey)
        ensures
            r == self.owner,
    {
        self.owner
    }

    pub fn size(&self) -> (r: usize)
        ensures
            r == self.size,
    {
        self.size
    }

    pub fn bump(&self) -> (r: u8)
        ensures
            r == self.bump,
    {
        self.bump
    }
}

/// Proposed genesis state. Approval covers the declarations; it does not prove
/// official Jito identity, recipient control or KIF activity.
#[derive(Debug, PartialEq, Eq)]
pub struct ApprovedGenesisModel {
    program: Pubkey,
    config: PivConfig,
    distribution: ActiveDistribution,
    registry: GuardianRegistry,
    rewards: [GuardianReward; 6],
    targets: [DerivedGenesisTarget; 16],
    period: KifPeriod,
}

impl ApprovedGenesisModel {
    pub closed spec fn spec_program(self) -> Pubkey {
        self.program
    }

    pub closed spec fn spec_config(self) -> PivConfig {
        self.config
    }

    pub closed spec fn spec_distribution(self) -> ActiveDistribution {
        self.distribution
    }

    pub closed spec fn spec_registry(self) -> GuardianRegistry {
        self.registry
    }

    pub closed spec fn spec_rewards(self) -> [GuardianReward; 6] {
        self.rewards
    }

    pub closed spec fn spec_targets(self) -> [DerivedGenesisTarget; 16] {
        self.targets
    }

    pub closed spec fn spec_period(self) -> KifPeriod {
        self.period
    }

    pub fn program(&self) -> (r: Pubkey)
        ensures
            r == self.spec_program(),
    {
        self.program
    }

    pub fn proposed_config(&self) -> (r: &PivConfig)
        ensures
            *r == self.spec_config(),
    {
        &self.config
    }

    pub fn proposed_distribution(&self) -> (r: &ActiveDistribution)
        ensures
            *r == self.spec_distribution(),
    {
        &self.distribution
    }

    pub fn proposed_registry(&self) -> (r: &GuardianRegistry)
        ensures
            *r == self.spec_registry(),
    {
        &self.registry
    }

    pub fn proposed_rewards(&self) -> (r: &[GuardianReward; 6])
        ensures
            *r == self.spec_rewards(),
    {
        &self.rewards
    }

    pub fn targets(&self) -> (r: &[DerivedGenesisTarget; 16])
        ensures
            *r == self.spec_targets(),
    {
        &self.targets
    }

    /// Virtual authority address; no seventeenth account is created for it.
    pub fn piv_authority(&self) -> (r: Pubkey)
        ensures
            r == self.spec_config().piv_authority,
    {
        self.config.piv_authority
    }

    pub fn modeled_period(&self) -> (r: KifPeriod)
        ensures
            r == self.spec_period(),
    {
        self.period
    }
}

/// The target that the canonical derivation of `seeds` gives, if any.
pub open spec fn spec_target(
    program: Pubkey,
    seeds: Seq<Seq<u8>>,
    role: GenesisTargetRole,
    owner: Pubkey,
    size: usize,
) -> Option<DerivedGenesisTarget> {
    match spec_derive(seeds, program) {
        None => None,
        Some(found) => Some(DerivedGenesisTarget { role, address: found.0, owner, size, bump: found.1 }),
    }
}

/// Derives one target.
fn derive_target(program: &Pubkey, seeds: &Vec<Vec<u8>>, role: GenesisTargetRole, owner: Pubkey, size: usize) -> (r:
    Option<DerivedGenesisTarget>)
    ensures
        r == spec_target(*program, seeds.deep_view(), role, owner, size),
{
    match derive_address(seeds, program) {
        None => None,
        Some(found) => Some(DerivedGenesisTarget { role, address: found.0, owner, size, bump: found.1 }),
    }
}

/// The target of one fixed seed.
fn fixed_target(program: &Pubkey, seed: Seed, role: GenesisTargetRole, owner: Pubkey, size: usize) -> (r: Option<
    DerivedGenesisTarget,
>)
    ensures
        r == spec_target(*program, seq![seed.spec_bytes()], role, owner, size),
{
    let seeds = vec![seed.bytes()];
    proof {
        assert(seeds@[0].deep_view() =~= seeds@[0]@);
        assert(seeds.deep_view() =~= seq![seed.spec_bytes()]);
    }
    derive_target(program, &seeds, role, owner, size)
}

/// The target of guardian slot `slot`'s reward record at revision zero.
pub open spec fn spec_reward_target(program: Pubkey, keys: [Pubkey; 6], slot: u8) -> Option<DerivedGenesisTarget> {
    spec_target(
        program,
        spec_reward_seeds(keys[slot as int], 0, slot),
        GenesisTargetRole::GuardianReward(slot),
        program,
        StateKind::Reward.spec_space(),
    )
}

/// The sixteen genesis targets in their fixed order, the authority address
/// and its bump; `None` where some derivation has no bump.
pub open spec fn spec_topology(program: Pubkey, keys: [Pubkey; 6]) -> Option<([DerivedGenesisTarget; 16], Pubkey, u8)> {
    let config = spec_target(program, seq![Seed::Config.spec_bytes()], GenesisTargetRole::Config, program, StateKind::Config.spec_space());
    let round = spec_target(program, seq![Seed::Distribution.spec_bytes()], GenesisTargetRole::ActiveDistribution, program, StateKind::Distribution.spec_space());
    let registry = spec_target(program, seq![Seed::GuardianRegistry.spec_bytes()], GenesisTargetRole::GuardianRegistry, program, StateKind::Registry.spec_space());
    let pending_sol = spec_target(program, seq![Seed::PendingSol.spec_bytes()], GenesisTargetRole::PendingSol, system_program_key(), 0);
    let principal_sol = spec_target(program, seq![Seed::PrincipalSol.spec_bytes()], GenesisTargetRole::PrincipalSol, system_program_key(), 0);
    let operational_sol = spec_target(program, seq![Seed::OperationalSol.spec_bytes()], GenesisTargetRole::OperationalSol, system_program_key(), 0);
    let escrow = spec_target(program, seq![Seed::DistributionEscrow.spec_bytes()], GenesisTargetRole::DistributionEscrow, system_program_key(), 0);
    let kif_sol = spec_target(program, seq![Seed::KifSol.spec_bytes()], GenesisTargetRole::KifSol, system_program_key(), 0);
    let principal_jito = spec_target(program, seq![Seed::PrincipalJito.spec_bytes()], GenesisTargetRole::PrincipalJito, token_program_key(), 165);
    let pending_jito = spec_target(program, seq![Seed::PendingJito.spec_bytes()], GenesisTargetRole::PendingJito, token_program_key(), 165);
    let authority = spec_derive(seq![Seed::Authority.spec_bytes()], program);
    let r0 = spec_reward_target(program, keys, 0);
    let r1 = spec_reward_target(program, keys, 1);
    let r2 = spec_reward_target(program, keys, 2);
    let r3 = spec_reward_target(program, keys, 3);
    let r4 = spec_reward_target(program, keys, 4);
    let r5 = spec_reward_target(program, keys, 5);
    if config is None || round is None || registry is None || pending_sol is None || principal_sol is None
        || operational_sol is None || escrow is None || kif_sol is None || principal_jito is None || pending_jito is None
        || authority is None || r0 is None || r1 is None || r2 is None || r3 is None || r4 is None || r5 is None {
        None
    } else {
        Some(
            (
                [
                    config->Some_0,
                    round->Some_0,
                    registry->Some_0,
                    r0->Some_0,
                    r1->Some_0,
                    r2->Some_0,
                    r3->Some_0,
                    r4->Some_0,
                    r5->Some_0,
                    pending_sol->Some_0,
                    principal_sol->Some_0,
                    operational_sol->Some_0,
                    escrow->Some_0,
                    kif_sol->Some_0,
                    principal_jito->Some_0,
                    pending_jito->Some_0,
                ],
                authority->Some_0.0,
                authority->Some_0.1,
            ),
        )
    }
}

/// The target of guardian slot `slot`'s reward record at revision zero.
fn reward_target(program: &Pubkey, keys: &[Pubkey; 6], slot: u8) -> (r: Option<DerivedGenesisTarget>)
    requires
        slot < 6,
    ensures
        r == spec_reward_target(*program, *keys, slot),
{
    let seeds = reward_seeds(&keys[slot as usize], 0, slot);
    derive_target(program, &seeds, GenesisTargetRole::GuardianReward(slot), *program, StateKind::Reward.space())
}

/// Derives the sixteen genesis targets, the authority address and its bump.
#[verifier::rlimit(60)]
fn derive_topology(program: &Pubkey, keys: &[Pubkey; 6]) -> (r: Option<([DerivedGenesisTarget; 16], Pubkey, u8)>)
    ensures
        r == spec_topology(*program, *keys),
{
    let system = system_program_id();
    let token = token_program_id();
    let config = fixed_target(program, Seed::Config, GenesisTargetRole::Config, *program, StateKind::Config.space());
    let round = fixed_target(program, Seed::Distribution, GenesisTargetRole::ActiveDistribution, *program, StateKind::Distribution.space());
    let registry = fixed_target(program, Seed::GuardianRegistry, GenesisTargetRole::GuardianRegistry, *program, StateKind::Registry.space());
    let pending_sol = fixed_target(program, Seed::PendingSol, GenesisTargetRole::PendingSol, system, 0);
    let principal_sol = fixed_target(program, Seed::PrincipalSol, GenesisTargetRole::PrincipalSol, system, 0);
    let operational_sol = fixed_target(program, Seed::OperationalSol, GenesisTargetRole::OperationalSol, system, 0);
    let escrow = fixed_target(program, Seed::DistributionEscrow, GenesisTargetRole::DistributionEscrow, system, 0);
    let kif_sol = fixed_target(program, Seed::KifSol, GenesisTargetRole::KifSol, system, 0);
    let principal_jito = fixed_target(program, Seed::PrincipalJito, GenesisTargetRole::PrincipalJito, token, 165);
    let pending_jito = fixed_target(program, Seed::PendingJito, GenesisTargetRole::PendingJito, token, 165);
    let authority_seeds = vec![Seed::Authority.bytes()];
    proof {
        assert(authority_seeds@[0].deep_view() =~= authority_seeds@[0]@);
        assert(authority_seeds.deep_view() =~= seq![Seed::Authority.spec_bytes()]);
    }
    let authority = derive_address(&authority_seeds, program);
    let r0 = reward_target(program, keys, 0);
    let r1 = reward_target(program, keys, 1);
    let r2 = reward_target(program, keys, 2);
    let r3 = reward_target(program, keys, 3);
    let r4 = reward_target(program, keys, 4);
    let r5 = reward_target(program, keys, 5);
    match (config, round, registry, pending_sol, principal_sol, operational_sol, escrow, kif_sol) {
        (Some(c), Some(d), Some(g), Some(ps), Some(pq), Some(os), Some(es), Some(ks)) => {
            match (principal_jito, pending_jito, authority, r0, r1, r2, r3, r4, r5) {
                (Some(pj), Some(qj), Some(a), Some(w0), Some(w1), Some(w2), Some(w3), Some(w4), Some(w5)) => {
                    let targets = [c, d, g, w0, w1, w2, w3, w4, w5, ps, pq, os, es, ks, pj, qj];
                    Some((targets, a.0, a.1))
                },
                _ => None,
            }
        },
        _ => None,
    }
}

/// `c` is the proposed configuration built from the parameters, the targets
/// and the authority: fixed programs, the fixed split, slippage and timing,
/// zero ledgers and an all-zero migration reserve.
pub open spec fn genesis_config_built(
    c: PivConfig,
    p: GenesisModelParameters,
    t: [DerivedGenesisTarget; 16],
    authority: Pubkey,
    authority_bump: u8,
) -> bool {
    &&& c.version == STATE_LAYOUT_VERSION
    &&& c.is_initialized
    &&& c.paused == p.initially_paused
    &&& c.bumps == (PivConfigBumps {
        config: t[0].bump,
        piv_authority: authority_bump,
        active_distribution: t[1].bump,
        principal_jito_vault: t[14].bump,
        pending_jito_vault: t[15].bump,
        pending_sol_vault: t[9].bump,
        principal_sol_queue: t[10].bump,
        operational_sol_vault: t[11].bump,
        distribution_escrow: t[12].bump,
        kif_sol_vault: t[13].bump,
        guardian_registry: t[2].bump,
    })
    &&& c.stake_pool_program == p.protocol.stake_pool_program
    &&& c.stake_pool == p.protocol.stake_pool
    &&& c.validator_list == p.protocol.validator_list
    &&& c.reserve_stake == p.protocol.reserve_stake
    &&& c.jitosol_mint == p.protocol.jitosol_mint
    &&& c.token_program == token_program_key()
    &&& c.stake_program == stake_program_key()
    &&& c.system_program == system_program_key()
    &&& c.manager_fee_account == p.protocol.manager_fee_account
    &&& c.referrer_token_account == p.protocol.referrer_token_account
    &&& c.piv_authority == authority
    &&& c.active_distribution == t[1].address
    &&& c.principal_jito_vault == t[14].address
    &&& c.pending_jito_vault == t[15].address
    &&& c.pending_sol_vault == t[9].address
    &&& c.principal_sol_queue == t[10].address
    &&& c.operational_sol_vault == t[11].address
    &&& c.distribution_escrow == t[12].address
    &&& c.kif_sol_vault == t[13].address
    &&& c.htfp_recipient == p.htfp_recipient
    &&& c.team_owner_recipient == p.team_owner_recipient
    &&& c.guardian_registry == t[2].address
    &&& c.basis_points_denominator == BASIS_POINTS_DENOMINATOR
    &&& c.htfp_reserve_bps == HTFP_RESERVE_BPS
    &&& c.permanent_compound_bps == PERMANENT_COMPOUND_BPS
    &&& c.team_owner_pool_bps == TEAM_OWNER_POOL_BPS
    &&& c.kif_bps == KIF_BPS
    &&& c.configured_slippage_bps == MAX_CONFIGURED_SLIPPAGE_BPS
    &&& c.slippage_hard_cap_bps == MAX_CONFIGURED_SLIPPAGE_BPS
    &&& c.minimum_distribution_interval_seconds == MINIMUM_DISTRIBUTION_INTERVAL_SECONDS
    &&& c.insufficient_retry_cooldown_seconds == INSUFFICIENT_RETRY_COOLDOWN_SECONDS
    &&& c.last_successful_preparation_at is None
    &&& c.last_valid_insufficient_attempt_at is None
    &&& c.next_distribution_sequence == 0
    &&& c.protected_principal_hwm_lamports == 0
    &&& c.accounted_historical_jitosol_units == 0
    &&& c.accounted_historical_sol_lamports == 0
    &&& c.accounted_pending_jitosol_units == 0
    &&& c.accounted_pending_sol_lamports == 0
    &&& c.next_cycle_yield_lamports == 0
    &&& c.kif_claim_liability_lamports == 0
    &&& c.collective_kif_carry_lamports == 0
    &&& c.cumulative_contribution_value_lamports == 0
    &&& c.cumulative_gross_yield_lamports == 0
    &&& c.cumulative_htfp_paid_lamports == 0
    &&& c.cumulative_team_owner_paid_lamports == 0
    &&& c.cumulative_kif_credited_lamports == 0
    &&& c.cumulative_kif_claimed_lamports == 0
    &&& c.cumulative_permanent_compound_lamports == 0
    &&& c.cumulative_retained_dust_lamports == 0
    &&& c.cumulative_zero_active_kif_compound_lamports == 0
    &&& c.cumulative_cooldown_yield_recorded_lamports == 0
    &&& c.kif_anchor_timestamp == p.kif_anchor_timestamp
    &&& c.kif_period_seconds == KIF_PERIOD_SECONDS
    &&& c.guardian_registry_revision == 0
    &&& forall|i: int| 0 <= i < 64 ==> c.migration_reserve[i] == 0
}

/// Builds the proposed configuration.
fn build_config(
    parameters: &GenesisModelParameters,
    targets: &[DerivedGenesisTarget; 16],
    piv_authority: Pubkey,
    authority_bump: u8,
) -> (r: PivConfig)
    ensures
        genesis_config_built(r, *parameters, *targets, piv_authority, authority_bump),
{
    let p = parameters.protocol;
    PivConfig {
        version: STATE_LAYOUT_VERSION,
        is_initialized: true,
        paused: parameters.initially_paused,
        bumps: PivConfigBumps {
            config: targets[0].bump,
            piv_authority: authority_bump,
            active_distribution: targets[1].bump,
            principal_jito_vault: targets[14].bump,
            pending_jito_vault: targets[15].bump,
            pending_sol_vault: targets[9].bump,
            principal_sol_queue: targets[10].bump,
            operational_sol_vault: targets[11].bump,
            distribution_escrow: targets[12].bump,
            kif_sol_vault: targets[13].bump,
            guardian_registry: targets[2].bump,
        },
        stake_pool_program: p.stake_pool_program,
        stake_pool: p.stake_pool,
        validator_list: p.validator_list,
        reserve_stake: p.reserve_stake,
        jitosol_mint: p.jitosol_mint,
        token_program: token_program_id(),
        stake_program: stake_program_id(),
        system_program: system_program_id(),
        manager_fee_account: p.manager_fee_account,
        referrer_token_account: p.referrer_token_account,
        piv_authority,
        active_distribution: targets[1].address,
        principal_jito_vault: targets[14].address,
        pending_jito_vault: targets[15].address,
        pending_sol_vault: targets[9].address,
        principal_sol_queue: targets[10].address,
        operational_sol_vault: targets[11].address,
        distribution_escrow: targets[12].address,
        kif_sol_vault: targets[13].address,
        htfp_recipient: parameters.htfp_recipient,
        team_owner_recipient: parameters.team_owner_recipient,
        guardian_registry: targets[2].address,
        basis_points_denominator: 10_000u16,
        htfp_reserve_bps: 5_900u16,
        permanent_compound_bps: 1_950u16,
        team_owner_pool_bps: 1_950u16,
        kif_bps: 200u16,
        configured_slippage_bps: MAX_CONFIGURED_SLIPPAGE_BPS,
        slippage_hard_cap_bps: MAX_CONFIGURED_SLIPPAGE_BPS,
        minimum_distribution_interval_seconds: MINIMUM_DISTRIBUTION_INTERVAL_SECONDS,
        insufficient_retry_cooldown_seconds: INSUFFICIENT_RETRY_COOLDOWN_SECONDS,
        last_successful_preparation_at: None,
        last_valid_insufficient_attempt_at: None,
        next_distribution_sequence: 0,
        protected_principal_hwm_lamports: 0,
        accounted_historical_jitosol_units: 0,
        accounted_historical_sol_lamports: 0,
        accounted_pending_jitosol_units: 0,
        accounted_pending_sol_lamports: 0,
        next_cycle_yield_lamports: 0,
        kif_claim_liability_lamports: 0,
        collective_kif_carry_lamports: 0,
        cumulative_contribution_value_lamports: 0,
        cumulative_gross_yield_lamports: 0,
        cumulative_htfp_paid_lamports: 0,
        cumulative_team_owner_paid_lamports: 0,
        cumulative_kif_credited_lamports: 0,
        cumulative_kif_claimed_lamports: 0,
        cumulative_permanent_compound_lamports: 0,
        cumulative_retained_dust_lamports: 0,
        cumulative_zero_active_kif_compound_lamports: 0,
        cumulative_cooldown_yield_recorded_lamports: 0,
        kif_anchor_timestamp: parameters.kif_anchor_timestamp,
        kif_period_seconds: KIF_PERIOD_SECONDS,
        guardian_registry_revision: 0,
        migration_reserve: [0u8; 64],
    }
}

/// A configuration that binds the System program's all-zero address fails
/// validation as holding a zero address.
pub proof fn lemma_genesis_config_refused(
    c: PivConfig,
    p: GenesisModelParameters,
    t: [DerivedGenesisTarget; 16],
    authority: Pubkey,
    authority_bump: u8,
)
    requires
        genesis_config_built(c, p, t, authority, authority_bump),
    ensures
        c.spec_validate() == Err::<(), Piv1Error>(Piv1Error::InvalidAddress),
{
    assert(c.spec_bound_addresses()[7] == system_program_key());
    assert(!crate::state::config::addresses_valid(c.spec_bound_addresses()));
}

/// Guardian slot `i` takes current member `permutation[i]`.
pub open spec fn permuted_members(members: [Pubkey; 6], permutation: Seq<u8>) -> [Pubkey; 6] {
    [
        members[permutation[0] as int],
        members[permutation[1] as int],
        members[permutation[2] as int],
        members[permutation[3] as int],
        members[permutation[4] as int],
        members[permutation[5] as int],
    ]
}

/// Outcome of building the model after authorization: the program must not
/// be a fixed system program, every target must derive, the authorization
/// must be for this program and Config address, the registry must validate,
/// and the configuration is then refused for its zero System program binding.
pub open spec fn spec_build_error(program: Pubkey, action: SquadsAction, config: Pubkey, keys: [Pubkey; 6]) -> GenesisModelError {
    if program == system_program_key() || program == token_program_key() || program == stake_program_key() {
        GenesisModelError::State(Piv1Error::InvalidProgramIdentity)
    } else {
        match spec_topology(program, keys) {
            None => GenesisModelError::State(Piv1Error::InvalidAccountPda),
            Some(t) => if action.program != program || config != t.0[0].address {
                GenesisModelError::State(Piv1Error::InvalidProgramIdentity)
            } else {
                match (GuardianRegistry { version: STATE_LAYOUT_VERSION, bump: t.0[2].bump, revision: 0, guardian_keys: keys }).spec_validate() {
                    Err(e) => GenesisModelError::State(e),
                    Ok(_) => GenesisModelError::State(Piv1Error::InvalidAddress),
                }
            },
        }
    }
}

/// Why preparation fails: the instruction data's format, the Squads bootstrap
/// authorization with the data's vault index, the KIF period of the data's
/// anchor at the Clock, or building the model.
pub open spec fn spec_prepare_error(
    program: Pubkey,
    accounts: Seq<AccountView>,
    data: Seq<u8>,
    roles: SquadsBootstrapRoles,
    context: SquadsInvocationContext,
) -> GenesisModelError {
    match genesis_decode_error(data) {
        Some(e) => GenesisModelError::Format(e),
        None => if context.stack_height != 2 {
            GenesisModelError::Authorization(SquadsExecutionError::InvalidInvocation)
        } else {
            match spec_squads_bootstrap(program, accounts, data, roles, data[9], context) {
                Err(e) => GenesisModelError::Authorization(e),
                Ok(found) => match spec_kif_period(pack_at(data, 299) as i64, context.clock.unix_timestamp) {
                    Err(e) => GenesisModelError::State(e),
                    Ok(_) => spec_build_error(
                        program,
                        found.0,
                        found.1,
                        permuted_members(found.0.current_members, data.subrange(307, 313)),
                    ),
                },
            }
        },
    }
}

/// The twelve bound external addresses of a configuration, recipients included.
pub open spec fn external_addresses(config: PivConfig) -> Seq<Pubkey> {
    seq![config.stake_pool_program, config.stake_pool, config.validator_list, config.reserve_stake,
        config.jitosol_mint, config.token_program, config.stake_program, config.system_program,
        config.manager_fee_account, config.referrer_token_account, config.htfp_recipient,
        config.team_owner_recipient]
}

/// The addresses of the targets, in order.
pub open spec fn target_addresses(targets: [DerivedGenesisTarget; 16]) -> Seq<Pubkey> {
    Seq::new(16, |i: int| targets[i].address)
}

/// Target `i` aliases the authority, an earlier target, a bound external
/// address, a guardian, or an authentication account.
pub open spec fn target_aliased(
    config: PivConfig,
    targets: [DerivedGenesisTarget; 16],
    guardians: [Pubkey; 6],
    authentication: Seq<Pubkey>,
    i: int,
) -> bool {
    let address = targets[i].address;
    address == config.piv_authority || target_addresses(targets).subrange(0, i).contains(address)
        || external_addresses(config).contains(address) || guardians@.contains(address) || authentication.contains(
        address,
    )
}

/// Some target, or the authority address, aliases another role.
pub open spec fn genesis_aliased(
    config: PivConfig,
    targets: [DerivedGenesisTarget; 16],
    guardians: [Pubkey; 6],
    authentication: Seq<Pubkey>,
) -> bool {
    (exists|i: int| 0 <= i < 16 && #[trigger] target_aliased(config, targets, guardians, authentication, i))
        || guardians@.contains(config.piv_authority) || external_addresses(config).contains(config.piv_authority)
        || authentication.contains(config.piv_authority)
}

/// Whether `address` aliases any of the listed addresses.
fn aliases(
    address: &Pubkey,
    earlier: &[Pubkey],
    external: &[Pubkey; 12],
    guardians: &[Pubkey; 6],
    authentication: &[Pubkey; 7],
) -> (r: bool)
    ensures
        r == (earlier@.contains(*address) || external@.contains(*address) || guardians@.contains(*address)
            || authentication@.contains(*address)),
{
    contains_key(earlier, address) || contains_key(external.as_slice(), address) || contains_key(
        guardians.as_slice(),
        address,
    ) || contains_key(authentication.as_slice(), address)
}

/// Refuses any target or authority address that aliases the authority, an
/// earlier target, a bound external address, a guardian or an
/// authentication account.
fn validate_aliases(
    config: &PivConfig,
    targets: &[DerivedGenesisTarget; 16],
    guardians: &[Pubkey; 6],
    authentication: &[Pubkey; 7],
) -> (r: Result<(), Piv1Error>)
    ensures
        r == (if genesis_aliased(*config, *targets, *guardians, authentication@) {
            Err::<(), Piv1Error>(Piv1Error::AccountAlias)
        } else {
            Ok(())
        }),
{
    let external = [config.stake_pool_program, config.stake_pool, config.validator_list, config.reserve_stake,
        config.jitosol_mint, config.token_program, config.stake_program, config.system_program,
        config.manager_fee_account, config.referrer_token_account, config.htfp_recipient,
        config.team_owner_recipient];
    proof {
        assert(external@ =~= external_addresses(*config));
    }
    let mut earlier: Vec<Pubkey> = Vec::new();
    let mut i: usize = 0;
    while i < 16
        invariant
            i <= 16,
            external@ == external_addresses(*config),
            earlier@ == target_addresses(*targets).subrange(0, i as int),
            forall|j: int| 0 <= j < i ==> !#[trigger] target_aliased(*config, *targets, *guardians, authentication@, j),
        decreases 16 - i,
    {
        let address = targets[i].address;
        if address == config.piv_authority || aliases(&address, earlier.as_slice(), &external, guardians, authentication) {
            proof {
                assert(target_aliased(*config, *targets, *guardians, authentication@, i as int));
            }
            return Err(Piv1Error::AccountAlias);
        }
        earlier.push(address);
        proof {
            assert(earlier@ =~= target_addresses(*targets).subrange(0, i + 1));
        }
        i = i + 1;
    }
    let none: [Pubkey; 0] = [];
    if aliases(&config.piv_authority, none.as_slice(), &external, guardians, authentication) {
        return Err(Piv1Error::AccountAlias);
    }
    Ok(())
}

/// The six zeroed reward records of revision zero, bound to their slots.
fn genesis_rewards(targets: &[DerivedGenesisTarget; 16], registry: &GuardianRegistry) -> (r: Result<[GuardianReward; 6], Piv1Error>)
    ensures
        registry.valid() ==> r is Ok,
        registry.spec_validate() is Err ==> r == Err::<[GuardianReward; 6], Piv1Error>(registry.spec_validate()->Err_0),
{
    let r0 = GuardianReward::new(targets[3].bump, registry, 0)?;
    let r1 = GuardianReward::new(targets[4].bump, registry, 1)?;
    let r2 = GuardianReward::new(targets[5].bump, registry, 2)?;
    let r3 = GuardianReward::new(targets[6].bump, registry, 3)?;
    let r4 = GuardianReward::new(targets[7].bump, registry, 4)?;
    let r5 = GuardianReward::new(targets[8].bump, registry, 5)?;
    Ok([r0, r1, r2, r3, r4, r5])
}

/// Builds the model from the authorization: guardian slots take the
/// permuted current members. Every call fails; see `spec_build_error`.
#[verifier::loop_isolation(false)]
fn build_model(
    program: &Pubkey,
    accounts: &Vec<AccountView>,
    roles: SquadsBootstrapRoles,
    parameters: &GenesisModelParameters,
    authority: &AuthenticatedSquadsBootstrapInvocation,
    period: KifPeriod,
) -> (r: GenesisModelResult<ApprovedGenesisModel>)
    requires
        forall|i: int| 0 <= i < 6 ==> parameters.guardian_slot_permutation[i] < 6,
    ensures
        r == Err::<ApprovedGenesisModel, GenesisModelError>(
            spec_build_error(
                *program,
                authority.spec_action(),
                authority.spec_config(),
                permuted_members(authority.spec_action().current_members, parameters.guardian_slot_permutation@),
            ),
        ),
{
    if *program == system_program_id() || *program == token_program_id() || *program == stake_program_id() {
        return Err(GenesisModelError::State(Piv1Error::InvalidProgramIdentity));
    }
    let members = authority.current_members();
    let perm = parameters.guardian_slot_permutation;
    let guardian_keys = [
        members[perm[0] as usize],
        members[perm[1] as usize],
        members[perm[2] as usize],
        members[perm[3] as usize],
        members[perm[4] as usize],
        members[perm[5] as usize],
    ];
    proof {
        assert(guardian_keys =~= permuted_members(authority.spec_action().current_members, perm@));
    }
    let (targets, piv_authority, authority_bump) = match derive_topology(program, &guardian_keys) {
        None => {
            return Err(GenesisModelError::State(Piv1Error::InvalidAccountPda));
        },
        Some(found) => found,
    };
    if authority.program() != *program || authority.config() != targets[0].address {
        return Err(GenesisModelError::State(Piv1Error::InvalidProgramIdentity));
    }
    let registry = match GuardianRegistry::new(targets[2].bump, 0, guardian_keys) {
        Err(e) => {
            return Err(GenesisModelError::State(e));
        },
        Ok(registry) => registry,
    };
    let rewards = match genesis_rewards(&targets, &registry) {
        Err(e) => {
            return Err(GenesisModelError::State(e));
        },
        Ok(rewards) => rewards,
    };
    let config = build_config(parameters, &targets, piv_authority, authority_bump);
    proof {
        lemma_genesis_config_refused(config, *parameters, targets, piv_authority, authority_bump);
    }
    if let Err(e) = config.validate_initialized() {
        return Err(GenesisModelError::State(e));
    }
    let authentication = [
        accounts[roles.program].key,
        accounts[roles.program_data].key,
        accounts[roles.multisig].key,
        accounts[roles.proposal].key,
        accounts[roles.transaction].key,
        accounts[roles.vault].key,
        accounts[roles.instructions].key,
    ];
    if let Err(e) = validate_aliases(&config, &targets, &guardian_keys, &authentication) {
        return Err(GenesisModelError::State(e));
    }
    let distribution = ActiveDistribution::new_idle(targets[1].bump);
    if let Err(e) = distribution.validate() {
        return Err(GenesisModelError::State(e));
    }
    if let Err(e) = registry.validate() {
        return Err(GenesisModelError::State(e));
    }
    if config.guardian_registry_revision != registry.revision || config.bumps.guardian_registry != registry.bump {
        return Err(GenesisModelError::State(Piv1Error::InvalidGuardianSet));
    }
    let mut slot: usize = 0;
    while slot < 6
        invariant
            slot <= 6,
        decreases 6 - slot,
    {
        if let Err(e) = registry.validate_reward_binding(slot as u8, &rewards[slot]) {
            return Err(GenesisModelError::State(e));
        }
        slot = slot + 1;
    }
    Ok(ApprovedGenesisModel { program: *program, config, distribution, registry, rewards, targets, period })
}

/// Prepares the approved genesis model: decodes the exact instruction data,
/// authorizes the instruction through Squads on a virgin Config account,
/// derives the KIF period at the Clock and builds the proposed state.
pub fn prepare_approved_genesis_model(
    program: &Pubkey,
    accounts: &Vec<AccountView>,
    instruction_data: &[u8],
    roles: SquadsBootstrapRoles,
    context: &SquadsInvocationContext,
) -> (r: GenesisModelResult<ApprovedGenesisModel>)
    ensures
        r == Err::<ApprovedGenesisModel, GenesisModelError>(
            spec_prepare_error(*program, accounts@, instruction_data@, roles, *context),
        ),
{
    let parameters = match GenesisModelParameters::decode(instruction_data) {
        Err(e) => {
            return Err(GenesisModelError::Format(e));
        },
        Ok(p) => p,
    };
    if context.stack_height != 2 {
        return Err(GenesisModelError::Authorization(SquadsExecutionError::InvalidInvocation));
    }
    let authority = match authenticate_squads_bootstrap_invocation(
        program,
        accounts,
        instruction_data,
        roles,
        parameters.vault_index,
        context,
    ) {
        Err(e) => {
            return Err(GenesisModelError::Authorization(e));
        },
        Ok(a) => a,
    };
    let period = match derive_kif_period(parameters.kif_anchor_timestamp, context.clock.unix_timestamp) {
        Err(e) => {
            return Err(GenesisModelError::State(e));
        },
        Ok(p) => p,
    };
    proof {
        assert(parameters.guardian_slot_permutation@ == instruction_data@.subrange(307, 313));
        assert forall|i: int| 0 <= i < 6 implies parameters.guardian_slot_permutation[i] < 6 by {
            assert(parameters.guardian_slot_permutation@[i] == instruction_data@.subrange(307, 313)[i]);
        }
    }
    build_model(program, accounts, roles, &parameters, &authority, period)
}

} // verus!
