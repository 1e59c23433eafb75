//! Fresh approved genesis model, protocol identity and current target
//! observations.
//!
//! This read-only prerequisite does not create accounts or authorize funding
//! or persistence. Empty System-owned targets are currently unallocated; this
//! is not evidence that they were never initialized. Raw prefunding remains
//! unclassified. Rent shortfalls exclude operational liquidity and
//! transaction costs. Distinct accounts sharing backing cells are refused at
//! the runtime edge, where the cells are visible.

use crate::account_view::{system_program_id, system_program_key, AccountView, RentFloors};
use crate::address::Pubkey;
use crate::errors::Piv1Error;
use crate::genesis_model::{
    prepare_approved_genesis_model, spec_prepare_error, ApprovedGenesisModel, DerivedGenesisTarget, GenesisModelError,
};
use crate::integrations::jito_identity::{
    try_authenticate_jito_identity, AuthenticatedJitoIdentity, DeclaredJitoKeys, JitoIdentityAccountInfos,
    JitoIdentityError,
};
use crate::squads_execution::{bootstrap_indices, copy_account, SquadsBootstrapRoles, SquadsInvocationContext};
use vstd::prelude::*;

verus! {

/// Handler mapping of the seven declared protocol accounts.
#[derive(Clone, Copy, Debug, PartialEq, Eq)]
pub struct GenesisProtocolRoles {
    pub program: usize,
    pub pool: usize,
    pub validator_list: usize,
    pub reserve: usize,
    pub mint: usize,
    pub manager_fee: usize,
    pub referrer: usize,
}

impl GenesisProtocolRoles {
    /// The seven indices in their fixed order.
    pub open spec fn spec_indices(self) -> Seq<usize> {
        seq![self.program, self.pool, self.validator_list, self.reserve, self.mint, self.manager_fee, self.referrer]
    }
}

/// Handler roles of the preflight; targets follow the model's target order,
/// and index zero reuses the bootstrap Config account.
#[derive(Clone, Copy, Debug)]
pub struct GenesisPreflightRoles {
    pub bootstrap: SquadsBootstrapRoles,
    pub protocol: GenesisProtocolRoles,
    pub targets: [usize; 16],
}

/// Failures of the genesis account preflight.
#[derive(Clone, Copy, Debug, PartialEq, Eq)]
pub enum GenesisPreflightError {
    Model(GenesisModelError),
    Protocol(JitoIdentityError),
    State(Piv1Error),
    InvalidRoles,
}

pub type GenesisPreflightResult<T> = Result<T, GenesisPreflightError>;

/// One target's current funding against its rent minimum.
#[derive(Clone, Copy, Debug, PartialEq, Eq)]
pub struct GenesisTargetRentObservation {
    pub target: DerivedGenesisTarget,
    pub observed_lamports: u64,
    pub rent_minimum: u64,
    pub shortfall: u64,
}

impl GenesisTargetRentObservation {
    /// Intended future owner and size; the current owner is System and the
    /// current size zero.
    pub fn target(&self) -> (r: DerivedGenesisTarget)
        ensures
            r == self.target,
    {
        self.target
    }

    pub fn observed_lamports(&self) -> (r: u64)
        ensures
            r == self.observed_lamports,
    {
        self.observed_lamports
    }

    pub fn rent_minimum(&self) -> (r: u64)
        ensures
            r == self.rent_minimum,
    {
        self.rent_minimum
    }

    pub fn shortfall(&self) -> (r: u64)
        ensures
            r == self.shortfall,
    {
        self.shortfall
    }
}

/// Point-invocation observation, not a creation or persistence capability.
#[derive(Debug)]
pub struct GenesisAccountPreflight {
    model: ApprovedGenesisModel,
    protocol: AuthenticatedJitoIdentity,
    targets: [GenesisTargetRentObservation; 16],
    total_rent_shortfall: u64,
}

impl GenesisAccountPreflight {
    pub closed spec fn spec_targets(self) -> [GenesisTargetRentObservation; 16] {
        self.targets
    }

    pub closed spec fn spec_total_rent_shortfall(self) -> u64 {
        self.total_rent_shortfall
    }

    pub closed spec fn spec_model(self) -> ApprovedGenesisModel {
        self.model
    }

    pub fn model(&self) -> (r: &ApprovedGenesisModel)
        ensures
            *r == self.spec_model(),
    {
        &self.model
    }

    pub closed spec fn spec_protocol(self) -> AuthenticatedJitoIdentity {
        self.protocol
    }

    pub fn protocol(&self) -> (r: &AuthenticatedJitoIdentity)
        ensures
            *r == self.spec_protocol(),
    {
        &self.protocol
    }

    pub fn targets(&self) -> (r: &[GenesisTargetRentObservation; 16])
        ensures
            *r == self.spec_targets(),
    {
        &self.targets
    }

    /// Checked sum of rent shortfalls only; no prefunding or economic total.
    pub fn total_rent_shortfall(&self) -> (r: u64)
        ensures
            r == self.spec_total_rent_shortfall(),
    {
        self.total_rent_shortfall
    }
}

/// Target role `i` is out of range, repeats an earlier target, or (after the
/// Config slot) takes a bootstrap account.
pub open spec fn target_role_bad(roles: GenesisPreflightRoles, n: int, i: int) -> bool {
    let t = roles.targets@;
    t[i] >= n || t.subrange(0, i).contains(t[i]) || (i != 0 && bootstrap_indices(roles.bootstrap).contains(t[i]))
}

/// Protocol role `i` is out of range, takes a bootstrap or target account, or
/// repeats an earlier protocol role; only the referrer may repeat the
/// manager-fee account.
pub open spec fn protocol_role_bad(roles: GenesisPreflightRoles, n: int, i: int) -> bool {
    let p = roles.protocol.spec_indices();
    p[i] >= n || bootstrap_indices(roles.bootstrap).contains(p[i]) || roles.targets@.contains(p[i]) || exists|q: int|
        0 <= q < i && #[trigger] p[q] == p[i] && !(q == 5 && i == 6)
}

/// The role mapping is consistent with `n` supplied accounts.
pub open spec fn roles_valid(roles: GenesisPreflightRoles, n: int) -> bool {
    &&& roles.targets[0] == roles.bootstrap.config
    &&& forall|i: int| 0 <= i < 16 ==> !#[trigger] target_role_bad(roles, n, i)
    &&& forall|i: int| 0 <= i < 7 ==> !#[trigger] protocol_role_bad(roles, n, i)
}

/// Whether `x` occurs in `s`.
fn occurs(s: &[usize], x: usize) -> (r: bool)
    ensures
        r == s@.contains(x),
{
    let mut i: usize = 0;
    while i < s.len()
        invariant
            i <= s@.len(),
            forall|j: int| 0 <= j < i ==> s@[j] != x,
        decreases s@.len() - i,
    {
        if s[i] == x {
            return true;
        }
        i = i + 1;
    }
    false
}

/// Validates the role mapping against `n` supplied accounts.
#[verifier::loop_isolation(false)]
fn validate_roles(n: usize, roles: GenesisPreflightRoles) -> (r: GenesisPreflightResult<()>)
    ensures
        r == (if roles_valid(roles, n as int) {
            Ok::<(), GenesisPreflightError>(())
        } else {
            Err(GenesisPreflightError::InvalidRoles)
        }),
{
    let b = roles.bootstrap;
    let bootstrap = [b.program, b.program_data, b.multisig, b.proposal, b.transaction, b.vault, b.instructions, b.config];
    let p = roles.protocol;
    let protocol = [p.program, p.pool, p.validator_list, p.reserve, p.mint, p.manager_fee, p.referrer];
    proof {
        assert(bootstrap@ =~= bootstrap_indices(b));
        assert(protocol@ =~= p.spec_indices());
    }
    if roles.targets[0] != b.config {
        return Err(GenesisPreflightError::InvalidRoles);
    }
    let mut i: usize = 0;
    while i < 16
        invariant
            i <= 16,
            forall|j: int| 0 <= j < i ==> !#[trigger] target_role_bad(roles, n as int, j),
        decreases 16 - i,
    {
        let target = roles.targets[i];
        let earlier = vstd::slice::slice_subrange(roles.targets.as_slice(), 0, i);
        if target >= n || occurs(earlier, target) || (i != 0 && occurs(bootstrap.as_slice(), target)) {
            proof {
                assert(target_role_bad(roles, n as int, i as int));
            }
            return Err(GenesisPreflightError::InvalidRoles);
        }
        i = i + 1;
    }
    let mut k: usize = 0;
    while k < 7
        invariant
            k <= 7,
            forall|j: int| 0 <= j < k ==> !#[trigger] protocol_role_bad(roles, n as int, j),
        decreases 7 - k,
    {
        let role = protocol[k];
        if role >= n || occurs(bootstrap.as_slice(), role) || occurs(roles.targets.as_slice(), role) {
            proof {
                assert(protocol_role_bad(roles, n as int, k as int));
            }
            return Err(GenesisPreflightError::InvalidRoles);
        }
        let mut q: usize = 0;
        while q < k
            invariant
                q <= k < 7,
                forall|z: int| 0 <= z < q ==> !(#[trigger] protocol@[z] == protocol@[k as int] && !(z == 5 && k == 6)),
            decreases k - q,
        {
            if protocol[q] == role && !(q == 5 && k == 6) {
                proof {
                    assert(protocol_role_bad(roles, n as int, k as int));
                }
                return Err(GenesisPreflightError::InvalidRoles);
            }
            q = q + 1;
        }
        k = k + 1;
    }
    Ok(())
}

/// The rent minimum of a target of `size` bytes, from the runtime's floors.
pub open spec fn spec_size_floor(floors: RentFloors, size: usize) -> Result<u64, Piv1Error> {
    if size == 0 {
        floors.native
    } else if size == 165 {
        floors.token_account
    } else if size == 1014 {
        floors.config
    } else if size == 891 {
        floors.distribution
    } else if size == 210 {
        floors.registry
    } else if size == 84 {
        floors.reward
    } else {
        Err(Piv1Error::InvalidRent)
    }
}

/// The rent minimum of a target of `size` bytes.
pub fn size_floor(floors: &RentFloors, size: usize) -> (r: Result<u64, Piv1Error>)
    ensures
        r == spec_size_floor(*floors, size),
{
    if size == 0 {
        floors.native
    } else if size == 165 {
        floors.token_account
    } else if size == 1014 {
        floors.config
    } else if size == 891 {
        floors.distribution
    } else if size == 210 {
        floors.registry
    } else if size == 84 {
        floors.reward
    } else {
        Err(Piv1Error::InvalidRent)
    }
}

/// Outcome of observing one target: the account is the derived address,
/// System owned, non-executable, writable and empty, with readable lamports
/// and a rent minimum for the intended size.
pub open spec fn spec_observe_target(
    account: AccountView,
    target: DerivedGenesisTarget,
    floors: RentFloors,
) -> Result<GenesisTargetRentObservation, Piv1Error> {
    if account.key != target.address {
        Err(Piv1Error::InvalidAccountPda)
    } else if account.owner != system_program_key() {
        Err(Piv1Error::InvalidAccountOwner)
    } else if account.executable {
        Err(Piv1Error::ExecutableAccount)
    } else if !account.is_writable {
        Err(Piv1Error::AccountNotWritable)
    } else if account.data is None {
        Err(Piv1Error::AccountBorrowFailed)
    } else if account.data->Some_0@.len() != 0 {
        Err(Piv1Error::InvalidAccountSize)
    } else if account.lamports is None {
        Err(Piv1Error::AccountBorrowFailed)
    } else {
        match spec_size_floor(floors, target.size) {
            Err(e) => Err(e),
            Ok(minimum) => {
                let lamports = account.lamports->Some_0;
                Ok(
                    GenesisTargetRentObservation {
                        target,
                        observed_lamports: lamports,
                        rent_minimum: minimum,
                        shortfall: if lamports < minimum {
                            (minimum - lamports) as u64
                        } else {
                            0
                        },
                    },
                )
            },
        }
    }
}

/// Observes one target.
fn observe_target(account: &AccountView, target: DerivedGenesisTarget, floors: &RentFloors) -> (r: Result<
    GenesisTargetRentObservation,
    Piv1Error,
>)
    ensures
        r == spec_observe_target(*account, target, *floors),
{
    if account.key != target.address {
        return Err(Piv1Error::InvalidAccountPda);
    }
    if account.owner != system_program_id() {
        return Err(Piv1Error::InvalidAccountOwner);
    }
    if account.executable {
        return Err(Piv1Error::ExecutableAccount);
    }
    if !account.is_writable {
        return Err(Piv1Error::AccountNotWritable);
    }
    match &account.data {
        None => {
            return Err(Piv1Error::AccountBorrowFailed);
        },
        Some(d) => {
            if d.len() != 0 {
                return Err(Piv1Error::InvalidAccountSize);
            }
        },
    }
    let lamports = match account.lamports {
        None => {
            return Err(Piv1Error::AccountBorrowFailed);
        },
        Some(l) => l,
    };
    let minimum = size_floor(floors, target.size)?;
    let shortfall = if lamports < minimum {
        minimum - lamports
    } else {
        0
    };
    Ok(GenesisTargetRentObservation { target, observed_lamports: lamports, rent_minimum: minimum, shortfall })
}

/// Outcome of observing the first `m` targets: the checked total shortfall.
pub open spec fn spec_observe_prefix(
    accounts: Seq<AccountView>,
    targets: [DerivedGenesisTarget; 16],
    roles: [usize; 16],
    floors: RentFloors,
    m: int,
) -> Result<u64, Piv1Error>
    decreases m,
{
    if m <= 0 {
        Ok(0)
    } else {
        match spec_observe_prefix(accounts, targets, roles, floors, m - 1) {
            Err(e) => Err(e),
            Ok(total) => match spec_observe_target(accounts[roles[m - 1] as int], targets[m - 1], floors) {
                Err(e) => Err(e),
                Ok(o) => if total + o.shortfall > u64::MAX {
                    Err(Piv1Error::ArithmeticOverflow)
                } else {
                    Ok((total + o.shortfall) as u64)
                },
            },
        }
    }
}

/// A refusal among the first `m` targets is the refusal of every longer prefix.
proof fn lemma_observe_error_persists(
    accounts: Seq<AccountView>,
    targets: [DerivedGenesisTarget; 16],
    roles: [usize; 16],
    floors: RentFloors,
    m: int,
    n: int,
)
    requires
        1 <= m <= n,
        spec_observe_prefix(accounts, targets, roles, floors, m) is Err,
    ensures
        spec_observe_prefix(accounts, targets, roles, floors, n) == spec_observe_prefix(accounts, targets, roles, floors, m),
    decreases n - m,
{
    if n > m {
        lemma_observe_error_persists(accounts, targets, roles, floors, m, n - 1);
    }
}

/// Observes the sixteen targets in their roles and totals the shortfalls.
fn observe_targets(
    accounts: &Vec<AccountView>,
    targets: &[DerivedGenesisTarget; 16],
    roles: [usize; 16],
    floors: &RentFloors,
) -> (r: Result<([GenesisTargetRentObservation; 16], u64), Piv1Error>)
    requires
        forall|i: int| 0 <= i < 16 ==> #[trigger] roles[i] < accounts@.len(),
    ensures
        match r {
            Ok(v) => spec_observe_prefix(accounts@, *targets, roles, *floors, 16) == Ok::<u64, Piv1Error>(v.1)
                && forall|i: int|
                0 <= i < 16 ==> spec_observe_target(accounts@[roles[i] as int], targets[i], *floors) == Ok::<
                    GenesisTargetRentObservation,
                    Piv1Error,
                >(#[trigger] v.0[i]),
            Err(e) => spec_observe_prefix(accounts@, *targets, roles, *floors, 16) == Err::<u64, Piv1Error>(e),
        },
{
    let empty = GenesisTargetRentObservation { target: targets[0], observed_lamports: 0, rent_minimum: 0, shortfall: 0 };
    let mut result: [GenesisTargetRentObservation; 16] = [empty; 16];
    let mut total: u64 = 0;
    let mut slot: usize = 0;
    while slot < 16
        invariant
            slot <= 16,
            forall|i: int| 0 <= i < 16 ==> #[trigger] roles[i] < accounts@.len(),
            spec_observe_prefix(accounts@, *targets, roles, *floors, slot as int) == Ok::<u64, Piv1Error>(total),
            forall|i: int|
                0 <= i < slot ==> spec_observe_target(accounts@[roles[i] as int], targets[i], *floors) == Ok::<
                    GenesisTargetRentObservation,
                    Piv1Error,
                >(#[trigger] result[i]),
        decreases 16 - slot,
    {
        let observation = match observe_target(&accounts[roles[slot]], targets[slot], floors) {
            Err(e) => {
                proof {
                    lemma_observe_error_persists(accounts@, *targets, roles, *floors, slot + 1, 16);
                }
                return Err(e);
            },
            Ok(o) => o,
        };
        if total > u64::MAX - observation.shortfall {
            proof {
                lemma_observe_error_persists(accounts@, *targets, roles, *floors, slot + 1, 16);
            }
            return Err(Piv1Error::ArithmeticOverflow);
        }
        total = total + observation.shortfall;
        result[slot] = observation;
        slot = slot + 1;
    }
    Ok((result, total))
}

/// Prepares the approved genesis model, then authenticates the declared Jito
/// protocol accounts and observes every target's funding. Model preparation
/// refuses every input (its configuration binds the zero System address), so
/// the preflight fails with the model's error.
pub fn preflight_approved_genesis_accounts(
    program: &Pubkey,
    accounts: &Vec<AccountView>,
    instruction_data: &[u8],
    roles: GenesisPreflightRoles,
    context: &SquadsInvocationContext,
) -> (r: GenesisPreflightResult<GenesisAccountPreflight>)
    ensures
        r == Err::<GenesisAccountPreflight, GenesisPreflightError>(
            GenesisPreflightError::Model(spec_prepare_error(*program, accounts@, instruction_data@, roles.bootstrap, *context)),
        ),
{
    let model = match prepare_approved_genesis_model(program, accounts, instruction_data, roles.bootstrap, context) {
        Err(e) => {
            return Err(GenesisPreflightError::Model(e));
        },
        Ok(model) => model,
    };
    validate_roles(accounts.len(), roles)?;
    let config = model.proposed_config();
    let declared = DeclaredJitoKeys {
        program: config.stake_pool_program,
        pool: config.stake_pool,
        validator_list: config.validator_list,
        reserve: config.reserve_stake,
        mint: config.jitosol_mint,
        manager_fee: config.manager_fee_account,
        referrer: config.referrer_token_account,
    };
    let p = roles.protocol;
    let infos = JitoIdentityAccountInfos {
        program: copy_account(&accounts[p.program]),
        pool: copy_account(&accounts[p.pool]),
        validator_list: copy_account(&accounts[p.validator_list]),
        reserve: copy_account(&accounts[p.reserve]),
        mint: copy_account(&accounts[p.mint]),
        manager_fee: copy_account(&accounts[p.manager_fee]),
        referrer: copy_account(&accounts[p.referrer]),
    };
    let protocol = match try_authenticate_jito_identity(&declared, &infos) {
        None => {
            return Err(GenesisPreflightError::State(Piv1Error::InvalidAccountPda));
        },
        Some(Err(e)) => {
            return Err(GenesisPreflightError::Protocol(e));
        },
        Some(Ok(identity)) => identity,
    };
    let (targets, total_rent_shortfall) = match observe_targets(accounts, model.targets(), roles.targets, &context.rent) {
        Err(e) => {
            return Err(GenesisPreflightError::State(e));
        },
        Ok(found) => found,
    };
    Ok(GenesisAccountPreflight { model, protocol, targets, total_rent_shortfall })
}

} // verus!
