//! Prefunding-safe genesis allocation steps, deliberately not an initializer.
//!
//! Fresh approval and preflight precede a rent-only batch paid by a distinct
//! signing System account. Existing prefunds remain at their targets without
//! economic classification. The library validates the payer, prepares every
//! transfer, allocation and assignment before the first effect, and checks
//! the observed accounts after each effect; the runtime edge performs the
//! System invocations in between. Successful allocation is an intermediate,
//! never initialized state.

use crate::account_view::{system_program_id, system_program_key, AccountView, Seed};
use crate::address::{spec_from_bytes, Pubkey};
use crate::errors::{Piv1Error, Piv1Result};
use crate::genesis_model::{DerivedGenesisTarget, GenesisTargetRole};
use crate::genesis_preflight::{GenesisAccountPreflight, GenesisPreflightError, GenesisPreflightRoles, GenesisTargetRentObservation};
use crate::account_view::{reward_seeds, spec_reward_seeds};
use crate::squads_execution::bootstrap_indices;
use vstd::prelude::*;

verus! {

/// Handler roles of the allocation batch.
#[derive(Clone, Copy, Debug)]
pub struct GenesisAllocationRoles {
    pub preflight: GenesisPreflightRoles,
    /// Distinct external signing System account, never a program category.
    pub payer: usize,
    pub system_program: usize,
}

/// Failures of the allocation batch.
#[derive(Clone, Copy, Debug, PartialEq, Eq)]
pub enum GenesisAllocationError {
    Preflight(GenesisPreflightError),
    State(Piv1Error),
    /// A System invocation failed; the runtime's error code.
    Invocation(u64),
    HostRuntimeUnavailable,
    InvalidRoles,
    InvalidPayer,
    InsufficientPayerRent,
    ObservationMismatch,
}

pub type GenesisAllocationResult<T> = Result<T, GenesisAllocationError>;

/// The address that `Pubkey::create_program_address` gives for the seeds
/// under the program, `None` where it refuses them.
pub uninterp spec fn created_address(seeds: Seq<Seq<u8>>, program: Seq<u8>) -> Option<Seq<u8>>;

/// `Pubkey::create_program_address`: the SHA-256 address of the seeds, the
/// program and the PDA marker, refused for too many or too long seeds or an
/// on-curve result. The contract names its result and claims only that it
/// depends on the seeds and the program alone.
#[verifier::external_body]
fn create_program_address(seeds: &Vec<Vec<u8>>, program: [u8; 32]) -> (r: Option<[u8; 32]>)
    ensures
        match r {
            Some(found) => created_address(seeds.deep_view(), program@) == Some(found@),
            None => created_address(seeds.deep_view(), program@) is None,
        },
{
    let parts: Vec<&[u8]> = seeds.iter().map(|seed| seed.as_slice()).collect();
    let program = anchor_lang::prelude::Pubkey::new_from_array(program);
    anchor_lang::prelude::Pubkey::create_program_address(&parts, &program).ok().map(|key| key.to_bytes())
}

/// One target's prepared effects: its signer seeds with the bump, the rent
/// shortfall to transfer (zero for none), and the size and owner to allocate
/// and assign (none for a data-less account).
#[derive(Clone, Debug)]
pub struct TargetPlan {
    pub seeds: Vec<Vec<u8>>,
    pub transfer: u64,
    pub allocation: Option<(usize, Pubkey)>,
}

/// What one target is expected to hold after the effects so far.
#[derive(Clone, Copy, Debug, PartialEq, Eq)]
pub struct ExpectedTarget {
    pub balance: u64,
    pub owner: Pubkey,
    pub size: usize,
}

/// A reward role names one of the six guardian slots.
pub open spec fn role_in_range(role: GenesisTargetRole) -> bool {
    match role {
        GenesisTargetRole::GuardianReward(slot) => slot < 6,
        _ => true,
    }
}

/// The fixed seed of each non-reward role.
pub open spec fn role_seed(role: GenesisTargetRole) -> Seed {
    match role {
        GenesisTargetRole::Config => Seed::Config,
        GenesisTargetRole::ActiveDistribution => Seed::Distribution,
        GenesisTargetRole::GuardianRegistry => Seed::GuardianRegistry,
        GenesisTargetRole::PendingSol => Seed::PendingSol,
        GenesisTargetRole::PrincipalSol => Seed::PrincipalSol,
        GenesisTargetRole::OperationalSol => Seed::OperationalSol,
        GenesisTargetRole::DistributionEscrow => Seed::DistributionEscrow,
        GenesisTargetRole::KifSol => Seed::KifSol,
        GenesisTargetRole::PrincipalJito => Seed::PrincipalJito,
        GenesisTargetRole::PendingJito => Seed::PendingJito,
        GenesisTargetRole::GuardianReward(_) => Seed::GuardianReward,
    }
}

/// A target's signer seeds, the bump included.
pub open spec fn target_seeds(target: DerivedGenesisTarget, guardians: [Pubkey; 6]) -> Seq<Seq<u8>> {
    match target.role {
        GenesisTargetRole::GuardianReward(slot) => spec_reward_seeds(guardians[slot as int], 0, slot),
        role => seq![role_seed(role).spec_bytes()],
    }.push(seq![target.bump])
}

/// Outcome of planning one target: its seeds recreate its address, and its
/// funded balance fits.
pub open spec fn spec_plan_error(program: Pubkey, o: GenesisTargetRentObservation, guardians: [Pubkey; 6]) -> Option<Piv1Error> {
    match created_address(target_seeds(o.target, guardians), program.bytes()) {
        None => Some(Piv1Error::InvalidAccountPda),
        Some(k) => if spec_from_bytes(k) != o.target.address {
            Some(Piv1Error::InvalidAccountPda)
        } else if o.observed_lamports + o.shortfall > u64::MAX {
            Some(Piv1Error::ArithmeticOverflow)
        } else {
            None
        },
    }
}

/// `plan` holds the prepared effects of the observed target.
pub open spec fn plan_holds(plan: TargetPlan, o: GenesisTargetRentObservation, guardians: [Pubkey; 6]) -> bool {
    &&& plan.seeds.deep_view() == target_seeds(o.target, guardians)
    &&& plan.transfer == o.shortfall
    &&& plan.allocation == (if o.target.size == 0 {
        None::<(usize, Pubkey)>
    } else {
        Some((o.target.size, o.target.owner))
    })
}

/// Plans one target.
fn plan_target(program: &Pubkey, o: &GenesisTargetRentObservation, guardians: &[Pubkey; 6]) -> (r: Result<TargetPlan, Piv1Error>)
    requires
        role_in_range(o.target.role),
    ensures
        match r {
            Ok(plan) => spec_plan_error(*program, *o, *guardians) is None && plan_holds(plan, *o, *guardians),
            Err(e) => spec_plan_error(*program, *o, *guardians) == Some(e),
        },
{
    let target = o.target;
    let mut seeds = match target.role {
        GenesisTargetRole::GuardianReward(slot) => reward_seeds(&guardians[slot as usize], 0, slot),
        GenesisTargetRole::Config => vec![Seed::Config.bytes()],
        GenesisTargetRole::ActiveDistribution => vec![Seed::Distribution.bytes()],
        GenesisTargetRole::GuardianRegistry => vec![Seed::GuardianRegistry.bytes()],
        GenesisTargetRole::PendingSol => vec![Seed::PendingSol.bytes()],
        GenesisTargetRole::PrincipalSol => vec![Seed::PrincipalSol.bytes()],
        GenesisTargetRole::OperationalSol => vec![Seed::OperationalSol.bytes()],
        GenesisTargetRole::DistributionEscrow => vec![Seed::DistributionEscrow.bytes()],
        GenesisTargetRole::KifSol => vec![Seed::KifSol.bytes()],
        GenesisTargetRole::PrincipalJito => vec![Seed::PrincipalJito.bytes()],
        GenesisTargetRole::PendingJito => vec![Seed::PendingJito.bytes()],
    };
    proof {
        if !(target.role is GuardianReward) {
            assert(seeds@[0].deep_view() =~= seeds@[0]@);
            assert(seeds.deep_view() =~= seq![role_seed(target.role).spec_bytes()]);
        }
    }
    let ghost base = seeds.deep_view();
    let bump = vec![target.bump];
    seeds.push(bump);
    proof {
        assert(seeds@[seeds@.len() - 1].deep_view() =~= seq![target.bump]);
        assert(seeds.deep_view() =~= base.push(seq![target.bump]));
    }
    match create_program_address(&seeds, program.to_bytes()) {
        None => {
            return Err(Piv1Error::InvalidAccountPda);
        },
        Some(k) => {
            if Pubkey::new_from_array(k) != target.address {
                return Err(Piv1Error::InvalidAccountPda);
            }
        },
    }
    if o.observed_lamports > u64::MAX - o.shortfall {
        return Err(Piv1Error::ArithmeticOverflow);
    }
    let allocation = if target.size == 0 {
        None
    } else {
        Some((target.size, target.owner))
    };
    Ok(TargetPlan { seeds, transfer: o.shortfall, allocation })
}

/// Plans every target of the preflight in order.
pub fn plan_genesis_allocation(program: &Pubkey, targets: &[GenesisTargetRentObservation; 16], guardians: &[Pubkey; 6]) -> (r:
    Result<Vec<TargetPlan>, Piv1Error>)
    requires
        forall|i: int| 0 <= i < 16 ==> role_in_range((#[trigger] targets[i]).target.role),
    ensures
        match r {
            Ok(plans) => plans@.len() == 16 && forall|i: int|
                0 <= i < 16 ==> spec_plan_error(*program, targets[i], *guardians) is None && plan_holds(
                    #[trigger] plans@[i],
                    targets[i],
                    *guardians,
                ),
            Err(e) => exists|i: int|
                0 <= i < 16 && spec_plan_error(*program, #[trigger] targets[i], *guardians) == Some(e) && forall|j: int|
                    0 <= j < i ==> spec_plan_error(*program, targets[j], *guardians) is None,
        },
{
    let mut plans: Vec<TargetPlan> = Vec::new();
    let mut i: usize = 0;
    while i < 16
        invariant
            i <= 16,
            plans@.len() == i,
            forall|i: int| 0 <= i < 16 ==> role_in_range((#[trigger] targets[i]).target.role),
            forall|j: int| 0 <= j < i ==> spec_plan_error(*program, #[trigger] targets[j], *guardians) is None,
            forall|j: int| 0 <= j < i ==> plan_holds(#[trigger] plans@[j], targets[j], *guardians),
        decreases 16 - i,
    {
        let plan = match plan_target(program, &targets[i], guardians) {
            Err(e) => {
                proof {
                    assert(forall|j: int| 0 <= j < i ==> spec_plan_error(*program, targets[j], *guardians) is None);
                    assert(spec_plan_error(*program, targets[i as int], *guardians) == Some(e));
                }
                return Err(e);
            },
            Ok(plan) => plan,
        };
        let ghost previous = plans@;
        plans.push(plan);
        proof {
            assert forall|j: int| 0 <= j < i + 1 implies plan_holds(#[trigger] plans@[j], targets[j], *guardians) by {
                if j < i {
                    assert(plans@[j] == previous[j]);
                }
            }
        }
        i = i + 1;
    }
    proof {
        assert forall|j: int| 0 <= j < 16 implies spec_plan_error(*program, targets[j], *guardians) is None && plan_holds(
            #[trigger] plans@[j],
            targets[j],
            *guardians,
        ) by {
            assert(spec_plan_error(*program, targets[j], *guardians) is None);
        }
    }
    Ok(plans)
}

/// The fifteen bootstrap and protocol role indices.
pub open spec fn allocation_protected(roles: GenesisAllocationRoles) -> Seq<usize> {
    bootstrap_indices(roles.preflight.bootstrap) + roles.preflight.protocol.spec_indices()
}

/// Role `index` is out of range or takes a bootstrap, protocol or target account.
pub open spec fn allocation_role_bad(roles: GenesisAllocationRoles, n: int, index: usize) -> bool {
    index >= n || allocation_protected(roles).contains(index) || roles.preflight.targets@.contains(index)
}

/// Outcome of the payer checks: distinct in-range roles, the executable
/// System program, a signing writable empty System-owned payer that is no
/// program role, recipient or guardian, and a rent-exempt balance.
pub open spec fn spec_validate_payer(
    accounts: Seq<AccountView>,
    roles: GenesisAllocationRoles,
    authority: Pubkey,
    htfp: Pubkey,
    team_owner: Pubkey,
    guardians: [Pubkey; 6],
    floor: Piv1Result<u64>,
) -> GenesisAllocationResult<u64> {
    let n = accounts.len() as int;
    if allocation_role_bad(roles, n, roles.payer) || allocation_role_bad(roles, n, roles.system_program) {
        Err(GenesisAllocationError::InvalidRoles)
    } else if roles.payer == roles.system_program {
        Err(GenesisAllocationError::InvalidRoles)
    } else {
        let p = accounts[roles.payer as int];
        let s = accounts[roles.system_program as int];
        if s.key != system_program_key() || !s.executable {
            Err(GenesisAllocationError::State(Piv1Error::InvalidProgramIdentity))
        } else if p.key == authority || p.key == htfp || p.key == team_owner || guardians@.contains(p.key)
            || !p.is_signer || !p.is_writable || p.executable || p.owner != system_program_key() {
            Err(GenesisAllocationError::InvalidPayer)
        } else if p.data is None {
            Err(GenesisAllocationError::State(Piv1Error::AccountBorrowFailed))
        } else if p.data->Some_0@.len() != 0 {
            Err(GenesisAllocationError::InvalidPayer)
        } else if p.lamports is None {
            Err(GenesisAllocationError::State(Piv1Error::AccountBorrowFailed))
        } else {
            match floor {
                Err(e) => Err(GenesisAllocationError::State(e)),
                Ok(f) => if p.lamports->Some_0 < f {
                    Err(GenesisAllocationError::InsufficientPayerRent)
                } else {
                    Ok(p.lamports->Some_0)
                },
            }
        }
    }
}

/// Whether `x` occurs in `s`.
fn index_in(s: &[usize], x: usize) -> (r: bool)
    ensures
        r == s@.contains(x),
{
    let mut i: usize = 0;
    while i < s.len()
        invariant
            i <= s@.len(),
            forall|j: int| 0 <= j < i ==> s@[j] != x,
        decreases s@.len() - i,
    {
        if s[i] == x {
            return true;
        }
        i = i + 1;
    }
    false
}

/// Validates the payer and the System program roles; returns the payer's balance.
pub fn validate_payer(
    accounts: &Vec<AccountView>,
    roles: GenesisAllocationRoles,
    authority: &Pubkey,
    htfp: &Pubkey,
    team_owner: &Pubkey,
    guardians: &[Pubkey; 6],
    floor: Piv1Result<u64>,
) -> (r: GenesisAllocationResult<u64>)
    ensures
        r == spec_validate_payer(accounts@, roles, *authority, *htfp, *team_owner, *guardians, floor),
{
    let b = roles.preflight.bootstrap;
    let q = roles.preflight.protocol;
    let protected = [b.program, b.program_data, b.multisig, b.proposal, b.transaction, b.vault, b.instructions,
        b.config, q.program, q.pool, q.validator_list, q.reserve, q.mint, q.manager_fee, q.referrer];
    proof {
        assert(protected@ =~= allocation_protected(roles));
    }
    let n = accounts.len();
    let targets = roles.preflight.targets;
    if roles.payer >= n || index_in(protected.as_slice(), roles.payer) || index_in(targets.as_slice(), roles.payer)
        || roles.system_program >= n || index_in(protected.as_slice(), roles.system_program) || index_in(
        targets.as_slice(),
        roles.system_program,
    ) {
        return Err(GenesisAllocationError::InvalidRoles);
    }
    if roles.payer == roles.system_program {
        return Err(GenesisAllocationError::InvalidRoles);
    }
    let p = &accounts[roles.payer];
    let s = &accounts[roles.system_program];
    let system = system_program_id();
    if s.key != system || !s.executable {
        return Err(GenesisAllocationError::State(Piv1Error::InvalidProgramIdentity));
    }
    if p.key == *authority || p.key == *htfp || p.key == *team_owner || crate::account_view::contains_key(
        guardians.as_slice(),
        &p.key,
    ) || !p.is_signer || !p.is_writable || p.executable || p.owner != system {
        return Err(GenesisAllocationError::InvalidPayer);
    }
    match &p.data {
        None => {
            return Err(GenesisAllocationError::State(Piv1Error::AccountBorrowFailed));
        },
        Some(d) => {
            if d.len() != 0 {
                return Err(GenesisAllocationError::InvalidPayer);
            }
        },
    }
    let balance = match p.lamports {
        None => {
            return Err(GenesisAllocationError::State(Piv1Error::AccountBorrowFailed));
        },
        Some(l) => l,
    };
    match floor {
        Err(e) => Err(GenesisAllocationError::State(e)),
        Ok(f) => {
            if balance < f {
                return Err(GenesisAllocationError::InsufficientPayerRent);
            }
            Ok(balance)
        },
    }
}

/// Whether every byte of `data` is zero.
fn all_zero(data: &[u8]) -> (r: bool)
    ensures
        r == forall|i: int| 0 <= i < data@.len() ==> data@[i] == 0,
{
    let mut i: usize = 0;
    while i < data.len()
        invariant
            i <= data@.len(),
            forall|j: int| 0 <= j < i ==> data@[j] == 0,
        decreases data@.len() - i,
    {
        if data[i] != 0 {
            return false;
        }
        i = i + 1;
    }
    true
}

/// Checks of the first `m` targets after the effects so far: each at its
/// address, writable, non-executable, with the expected owner, balance and
/// size, and zeroed data.
pub open spec fn spec_effect_slots(
    accounts: Seq<AccountView>,
    roles: GenesisAllocationRoles,
    before: [GenesisTargetRentObservation; 16],
    expected: [ExpectedTarget; 16],
    m: int,
) -> GenesisAllocationResult<()>
    decreases m,
{
    if m <= 0 {
        Ok(())
    } else {
        match spec_effect_slots(accounts, roles, before, expected, m - 1) {
            Err(e) => Err(e),
            Ok(_) => {
                let a = accounts[roles.preflight.targets[m - 1] as int];
                let x = expected[m - 1];
                if a.data is None {
                    Err(GenesisAllocationError::State(Piv1Error::AccountBorrowFailed))
                } else if a.key != before[m - 1].target.address || !a.is_writable || a.executable || a.owner != x.owner {
                    Err(GenesisAllocationError::ObservationMismatch)
                } else if a.lamports is None {
                    Err(GenesisAllocationError::State(Piv1Error::AccountBorrowFailed))
                } else if a.lamports->Some_0 != x.balance || a.data->Some_0@.len() != x.size || exists|i: int|
                    0 <= i < a.data->Some_0@.len() && a.data->Some_0@[i] != 0 {
                    Err(GenesisAllocationError::ObservationMismatch)
                } else {
                    Ok(())
                }
            },
        }
    }
}

/// Outcome of checking the observed accounts after the effects so far.
pub open spec fn spec_verify_effects(
    accounts: Seq<AccountView>,
    roles: GenesisAllocationRoles,
    before: [GenesisTargetRentObservation; 16],
    expected: [ExpectedTarget; 16],
    payer_balance: u64,
) -> GenesisAllocationResult<()> {
    let p = accounts[roles.payer as int];
    if p.owner != system_program_key() || p.executable || !p.is_signer || !p.is_writable {
        Err(GenesisAllocationError::ObservationMismatch)
    } else if p.lamports is None {
        Err(GenesisAllocationError::State(Piv1Error::AccountBorrowFailed))
    } else if p.lamports->Some_0 != payer_balance {
        Err(GenesisAllocationError::ObservationMismatch)
    } else if p.data is None {
        Err(GenesisAllocationError::State(Piv1Error::AccountBorrowFailed))
    } else if p.data->Some_0@.len() != 0 {
        Err(GenesisAllocationError::ObservationMismatch)
    } else {
        spec_effect_slots(accounts, roles, before, expected, 16)
    }
}

/// A refusal among the first `m` targets is the refusal of every longer prefix.
proof fn lemma_effect_error_persists(
    accounts: Seq<AccountView>,
    roles: GenesisAllocationRoles,
    before: [GenesisTargetRentObservation; 16],
    expected: [ExpectedTarget; 16],
    m: int,
    n: int,
)
    requires
        1 <= m <= n,
        spec_effect_slots(accounts, roles, before, expected, m) is Err,
    ensures
        spec_effect_slots(accounts, roles, before, expected, n) == spec_effect_slots(accounts, roles, before, expected, m),
    decreases n - m,
{
    if n > m {
        lemma_effect_error_persists(accounts, roles, before, expected, m, n - 1);
    }
}

/// Checks the observed payer and targets after the effects so far.
#[verifier::loop_isolation(false)]
pub fn verify_effects(
    accounts: &Vec<AccountView>,
    roles: GenesisAllocationRoles,
    before: &[GenesisTargetRentObservation; 16],
    expected: &[ExpectedTarget; 16],
    payer_balance: u64,
) -> (r: GenesisAllocationResult<()>)
    requires
        roles.payer < accounts@.len(),
        forall|i: int| 0 <= i < 16 ==> #[trigger] roles.preflight.targets[i] < accounts@.len(),
    ensures
        r == spec_verify_effects(accounts@, roles, *before, *expected, payer_balance),
{
    let p = &accounts[roles.payer];
    if p.owner != system_program_id() || p.executable || !p.is_signer || !p.is_writable {
        return Err(GenesisAllocationError::ObservationMismatch);
    }
    match p.lamports {
        None => {
            return Err(GenesisAllocationError::State(Piv1Error::AccountBorrowFailed));
        },
        Some(l) => {
            if l != payer_balance {
                return Err(GenesisAllocationError::ObservationMismatch);
            }
        },
    }
    match &p.data {
        None => {
            return Err(GenesisAllocationError::State(Piv1Error::AccountBorrowFailed));
        },
        Some(d) => {
            if d.len() != 0 {
                return Err(GenesisAllocationError::ObservationMismatch);
            }
        },
    }
    let mut slot: usize = 0;
    while slot < 16
        invariant
            slot <= 16,
            spec_effect_slots(accounts@, roles, *before, *expected, slot as int) == Ok::<(), GenesisAllocationError>(()),
        decreases 16 - slot,
    {
        let a = &accounts[roles.preflight.targets[slot]];
        let x = expected[slot];
        let data = match &a.data {
            None => {
                proof {
                    lemma_effect_error_persists(accounts@, roles, *before, *expected, slot + 1, 16);
                }
                return Err(GenesisAllocationError::State(Piv1Error::AccountBorrowFailed));
            },
            Some(d) => d,
        };
        if a.key != before[slot].target.address || !a.is_writable || a.executable || a.owner != x.owner {
            proof {
                lemma_effect_error_persists(accounts@, roles, *before, *expected, slot + 1, 16);
            }
            return Err(GenesisAllocationError::ObservationMismatch);
        }
        let lamports = match a.lamports {
            None => {
                proof {
                    lemma_effect_error_persists(accounts@, roles, *before, *expected, slot + 1, 16);
                }
                return Err(GenesisAllocationError::State(Piv1Error::AccountBorrowFailed));
            },
            Some(l) => l,
        };
        if lamports != x.balance || data.len() != x.size || !all_zero(data.as_slice()) {
            proof {
                lemma_effect_error_persists(accounts@, roles, *before, *expected, slot + 1, 16);
            }
            return Err(GenesisAllocationError::ObservationMismatch);
        }
        slot = slot + 1;
    }
    Ok(())
}

/// Allocation-only intermediate: the preflight before the batch and the
/// payer's balances. It is not an initialization receipt or replay permit.
#[derive(Debug)]
pub struct AllocatedGenesisAccounts {
    preflight: GenesisAccountPreflight,
    payer: Pubkey,
    payer_before: u64,
    payer_after: u64,
}

impl AllocatedGenesisAccounts {
    pub closed spec fn spec_payer(self) -> Pubkey {
        self.payer
    }

    pub closed spec fn spec_payer_before(self) -> u64 {
        self.payer_before
    }

    pub closed spec fn spec_payer_after(self) -> u64 {
        self.payer_after
    }

    pub closed spec fn spec_before(self) -> GenesisAccountPreflight {
        self.preflight
    }

    /// Proposed zero-history state, still not serialized into the accounts.
    pub fn model(&self) -> (r: &crate::genesis_model::ApprovedGenesisModel)
        ensures
            *r == self.spec_before().spec_model(),
    {
        self.preflight.model()
    }

    /// Observations from immediately before the batch, not current state.
    pub fn before(&self) -> (r: &GenesisAccountPreflight)
        ensures
            *r == self.spec_before(),
    {
        &self.preflight
    }

    pub fn payer(&self) -> (r: Pubkey)
        ensures
            r == self.spec_payer(),
    {
        self.payer
    }

    pub fn payer_before(&self) -> (r: u64)
        ensures
            r == self.spec_payer_before(),
    {
        self.payer_before
    }

    pub fn payer_after(&self) -> (r: u64)
        ensures
            r == self.spec_payer_after(),
    {
        self.payer_after
    }

    pub fn funded_rent_lamports(&self) -> (r: u64)
        ensures
            r == self.spec_before().spec_total_rent_shortfall(),
    {
        self.preflight.total_rent_shortfall()
    }
}

/// Stages the allocation batch: the fresh genesis preflight, the payer
/// checks, a rent-exempt payer after paying every shortfall, and every
/// target's plan. The preflight refuses every input (its model binds the
/// zero System address), so staging fails with the preflight's error.
pub fn begin_genesis_allocation(
    program: &Pubkey,
    accounts: &Vec<AccountView>,
    data: &[u8],
    roles: GenesisAllocationRoles,
    context: &crate::squads_execution::SquadsInvocationContext,
) -> (r: GenesisAllocationResult<(GenesisAccountPreflight, u64, u64, Vec<TargetPlan>)>)
    ensures
        r == Err::<(GenesisAccountPreflight, u64, u64, Vec<TargetPlan>), GenesisAllocationError>(
            GenesisAllocationError::Preflight(
                GenesisPreflightError::Model(
                    crate::genesis_model::spec_prepare_error(*program, accounts@, data@, roles.preflight.bootstrap, *context),
                ),
            ),
        ),
{
    let preflight = match crate::genesis_preflight::preflight_approved_genesis_accounts(
        program,
        accounts,
        data,
        roles.preflight,
        context,
    ) {
        Err(e) => {
            return Err(GenesisAllocationError::Preflight(e));
        },
        Ok(p) => p,
    };
    let model = preflight.model();
    let config = model.proposed_config();
    let guardians = model.proposed_registry().guardian_keys;
    let payer_before = validate_payer(
        accounts,
        roles,
        &model.piv_authority(),
        &config.htfp_recipient,
        &config.team_owner_recipient,
        &guardians,
        context.rent.native,
    )?;
    if payer_before < preflight.total_rent_shortfall() {
        return Err(GenesisAllocationError::InsufficientPayerRent);
    }
    let payer_after = payer_before - preflight.total_rent_shortfall();
    match context.rent.native {
        Err(e) => {
            return Err(GenesisAllocationError::State(e));
        },
        Ok(floor) => {
            if payer_after < floor {
                return Err(GenesisAllocationError::InsufficientPayerRent);
            }
        },
    }
    let plans = match plan_genesis_allocation(program, preflight.targets(), &guardians) {
        Err(e) => {
            return Err(GenesisAllocationError::State(e));
        },
        Ok(plans) => plans,
    };
    Ok((preflight, payer_before, payer_after, plans))
}

/// Completes the batch: the payer paid exactly the staged amount and the
/// accounts hold every expected effect.
pub fn complete_genesis_allocation(
    accounts: &Vec<AccountView>,
    roles: GenesisAllocationRoles,
    preflight: GenesisAccountPreflight,
    expected: &[ExpectedTarget; 16],
    payer_before: u64,
    payer_after: u64,
    expected_payer: u64,
) -> (r: GenesisAllocationResult<AllocatedGenesisAccounts>)
    requires
        roles.payer < accounts@.len(),
        forall|i: int| 0 <= i < 16 ==> #[trigger] roles.preflight.targets[i] < accounts@.len(),
    ensures
        expected_payer != payer_after ==> r is Err && r->Err_0 == GenesisAllocationError::ObservationMismatch,
        expected_payer == payer_after ==> match r {
            Ok(a) => spec_verify_effects(accounts@, roles, preflight.spec_targets(), *expected, payer_after) is Ok
                && a.spec_before() == preflight && a.spec_payer() == accounts@[roles.payer as int].key
                && a.spec_payer_before() == payer_before && a.spec_payer_after() == payer_after,
            Err(e) => spec_verify_effects(accounts@, roles, preflight.spec_targets(), *expected, payer_after)
                == Err::<(), GenesisAllocationError>(e),
        },
{
    if expected_payer != payer_after {
        return Err(GenesisAllocationError::ObservationMismatch);
    }
    verify_effects(accounts, roles, preflight.targets(), expected, payer_after)?;
    Ok(AllocatedGenesisAccounts { preflight, payer: accounts[roles.payer].key, payer_before, payer_after })
}

/// The effect of a plan that was just performed on one target.
#[derive(Clone, Copy, Debug, PartialEq, Eq)]
pub enum AllocationStage {
    Transfer,
    Allocate,
    Assign,
}

/// What the payer and the targets are expected to hold after one effect of
/// target `slot`'s plan: a transfer moves the shortfall from the payer to the
/// target, an allocation sets the size, an assignment the owner. `None` where
/// the transfer would overflow either balance.
pub open spec fn spec_advance(
    expected: Seq<ExpectedTarget>,
    payer: u64,
    slot: int,
    plan: TargetPlan,
    stage: AllocationStage,
) -> Option<(Seq<ExpectedTarget>, u64)> {
    let x = expected[slot];
    match stage {
        AllocationStage::Transfer => if payer < plan.transfer || x.balance + plan.transfer > u64::MAX {
            None
        } else {
            Some(
                (
                    expected.update(slot, ExpectedTarget { balance: (x.balance + plan.transfer) as u64, ..x }),
                    (payer - plan.transfer) as u64,
                ),
            )
        },
        AllocationStage::Allocate => match plan.allocation {
            None => Some((expected, payer)),
            Some(a) => Some((expected.update(slot, ExpectedTarget { size: a.0, ..x }), payer)),
        },
        AllocationStage::Assign => match plan.allocation {
            None => Some((expected, payer)),
            Some(a) => Some((expected.update(slot, ExpectedTarget { owner: a.1, ..x }), payer)),
        },
    }
}

/// Advances the expected payer and target state past one effect.
pub fn advance_allocation_expectation(
    expected: &mut [ExpectedTarget; 16],
    payer: &mut u64,
    slot: usize,
    plan: &TargetPlan,
    stage: AllocationStage,
) -> (r: GenesisAllocationResult<()>)
    requires
        slot < 16,
    ensures
        match spec_advance(old(expected)@, *old(payer), slot as int, *plan, stage) {
            None => r == Err::<(), GenesisAllocationError>(GenesisAllocationError::State(Piv1Error::ArithmeticOverflow))
                && final(expected)@ == old(expected)@ && *final(payer) == *old(payer),
            Some(next) => r is Ok && final(expected)@ == next.0 && *final(payer) == next.1,
        },
{
    let x = expected[slot];
    match stage {
        AllocationStage::Transfer => {
            if *payer < plan.transfer || x.balance > u64::MAX - plan.transfer {
                return Err(GenesisAllocationError::State(Piv1Error::ArithmeticOverflow));
            }
            *payer = *payer - plan.transfer;
            expected[slot] = ExpectedTarget { balance: x.balance + plan.transfer, ..x };
        },
        AllocationStage::Allocate => {
            if let Some(a) = plan.allocation {
                expected[slot] = ExpectedTarget { size: a.0, ..x };
            }
        },
        AllocationStage::Assign => {
            if let Some(a) = plan.allocation {
                expected[slot] = ExpectedTarget { owner: a.1, ..x };
            }
        },
    }
    proof {
        assert(final(expected)@ =~= match spec_advance(old(expected)@, *old(payer), slot as int, *plan, stage) {
            Some(next) => next.0,
            None => old(expected)@,
        });
    }
    Ok(())
}

} // verus!
