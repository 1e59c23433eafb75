//! Read-only fresh genesis preflight with two recipient vault identities.
//!
//! A funded vault address of the authenticated governance multisig is not
//! proof of exclusive four-of-six spending: delegated spending limits, stale
//! transactions and the live Squads artifact remain separate checks. No
//! funding or persistence is supplied. Distinct accounts sharing backing
//! cells are refused at the runtime edge, where the cells are visible.

use crate::account_view::{derive_address, system_program_id, system_program_key, spec_derive, AccountView};
use crate::address::Pubkey;
use crate::errors::Piv1Error;
use crate::genesis_preflight::{
    preflight_approved_genesis_accounts, GenesisAccountPreflight, GenesisPreflightError, GenesisPreflightRoles,
};
use crate::genesis_model::spec_prepare_error;
use crate::squads_accounts::{squads_v4_key, squads_v4_program_id, vault_address_seeds, vault_seeds};
use crate::squads_execution::{bootstrap_indices, SquadsInvocationContext};
use vstd::prelude::*;

verus! {

/// Account roles of the two recipients and the vault indices that derive them.
/// Vault indices are not approved parameters and grant no independent power.
#[derive(Clone, Copy, Debug)]
pub struct GenesisRecipientRoles {
    pub preflight: GenesisPreflightRoles,
    pub htfp_recipient: usize,
    pub team_owner_recipient: usize,
    pub htfp_vault_index: u8,
    pub team_owner_vault_index: u8,
}

/// Failures of the recipient preflight.
#[derive(Clone, Copy, Debug, PartialEq, Eq)]
pub enum GenesisRecipientError {
    Preflight(GenesisPreflightError),
    State(Piv1Error),
    HostRuntimeUnavailable,
    InvalidRoles,
    UnapprovedRecipient,
    InvalidRecipientVault,
    UnfundedRecipient,
}

pub type GenesisRecipientResult<T> = Result<T, GenesisRecipientError>;

/// One recipient's identity and funding observation, not a control capability.
#[derive(Clone, Copy, Debug, PartialEq, Eq)]
pub struct GenesisRecipientObservation {
    pub address: Pubkey,
    pub multisig: Pubkey,
    pub vault_index: u8,
    pub bump: u8,
    pub observed_lamports: u64,
    pub rent_minimum: u64,
}

impl GenesisRecipientObservation {
    pub fn address(&self) -> (r: Pubkey)
        ensures
            r == self.address,
    {
        self.address
    }

    pub fn multisig(&self) -> (r: Pubkey)
        ensures
            r == self.multisig,
    {
        self.multisig
    }

    pub fn vault_index(&self) -> (r: u8)
        ensures
            r == self.vault_index,
    {
        self.vault_index
    }

    pub fn bump(&self) -> (r: u8)
        ensures
            r == self.bump,
    {
        self.bump
    }

    pub fn observed_lamports(&self) -> (r: u64)
        ensures
            r == self.observed_lamports,
    {
        self.observed_lamports
    }

    pub fn rent_minimum(&self) -> (r: u64)
        ensures
            r == self.rent_minimum,
    {
        self.rent_minimum
    }
}

/// The genesis preflight and both recipient observations.
#[derive(Debug)]
pub struct GenesisRecipientPreflight {
    genesis: GenesisAccountPreflight,
    recipients: [GenesisRecipientObservation; 2],
}

impl GenesisRecipientPreflight {
    pub closed spec fn spec_recipients(self) -> [GenesisRecipientObservation; 2] {
        self.recipients
    }

    pub closed spec fn spec_genesis(self) -> GenesisAccountPreflight {
        self.genesis
    }

    pub fn genesis(&self) -> (r: &GenesisAccountPreflight)
        ensures
            *r == self.spec_genesis(),
    {
        &self.genesis
    }

    pub fn htfp_recipient(&self) -> (r: &GenesisRecipientObservation)
        ensures
            *r == self.spec_recipients()[0],
    {
        &self.recipients[0]
    }

    pub fn team_owner_recipient(&self) -> (r: &GenesisRecipientObservation)
        ensures
            *r == self.spec_recipients()[1],
    {
        &self.recipients[1]
    }
}

/// The fifteen bootstrap and protocol role indices.
pub open spec fn protected_roles(roles: GenesisRecipientRoles) -> Seq<usize> {
    bootstrap_indices(roles.preflight.bootstrap) + roles.preflight.protocol.spec_indices()
}

/// Checks of one recipient role: in range, not a bootstrap, protocol or
/// target role, and no other supplied account with the same key.
pub open spec fn spec_recipient_index(accounts: Seq<AccountView>, roles: GenesisRecipientRoles, index: usize) -> GenesisRecipientResult<()> {
    if index >= accounts.len() || protected_roles(roles).contains(index) || roles.preflight.targets@.contains(index) {
        Err(GenesisRecipientError::InvalidRoles)
    } else if exists|o: int| 0 <= o < accounts.len() && o != index && #[trigger] accounts[o].key == accounts[index as int].key {
        Err(GenesisRecipientError::State(Piv1Error::AccountAlias))
    } else {
        Ok(())
    }
}

/// Checks of both recipient roles.
pub open spec fn spec_recipient_roles(accounts: Seq<AccountView>, roles: GenesisRecipientRoles) -> GenesisRecipientResult<()> {
    if roles.htfp_recipient == roles.team_owner_recipient {
        Err(GenesisRecipientError::InvalidRoles)
    } else {
        match spec_recipient_index(accounts, roles, roles.htfp_recipient) {
            Err(e) => Err(e),
            Ok(_) => spec_recipient_index(accounts, roles, roles.team_owner_recipient),
        }
    }
}

/// Checks one recipient role.
#[verifier::loop_isolation(false)]
fn recipient_index(accounts: &Vec<AccountView>, roles: GenesisRecipientRoles, index: usize) -> (r: GenesisRecipientResult<()>)
    ensures
        r == spec_recipient_index(accounts@, roles, index),
{
    let b = roles.preflight.bootstrap;
    let p = roles.preflight.protocol;
    let protected = [b.program, b.program_data, b.multisig, b.proposal, b.transaction, b.vault, b.instructions,
        b.config, p.program, p.pool, p.validator_list, p.reserve, p.mint, p.manager_fee, p.referrer];
    proof {
        assert(protected@ =~= protected_roles(roles));
    }
    let n = accounts.len();
    if index >= n || usize_in(protected.as_slice(), index) || usize_in(roles.preflight.targets.as_slice(), index) {
        return Err(GenesisRecipientError::InvalidRoles);
    }
    let key = accounts[index].key;
    let mut o: usize = 0;
    while o < n
        invariant
            o <= n == accounts@.len(),
            index < n,
            key == accounts@[index as int].key,
            forall|z: int| 0 <= z < o && z != index ==> #[trigger] accounts@[z].key != key,
        decreases n - o,
    {
        if o != index && accounts[o].key == key {
            proof {
                assert(accounts@[o as int].key == accounts@[index as int].key);
            }
            return Err(GenesisRecipientError::State(Piv1Error::AccountAlias));
        }
        o = o + 1;
    }
    Ok(())
}

/// Whether `x` occurs in `s`.
fn usize_in(s: &[usize], x: usize) -> (r: bool)
    ensures
        r == s@.contains(x),
{
    let mut i: usize = 0;
    while i < s.len()
        invariant
            i <= s@.len(),
            forall|j: int| 0 <= j < i ==> s@[j] != x,
        decreases s@.len() - i,
    {
        if s[i] == x {
            return true;
        }
        i = i + 1;
    }
    false
}

/// Outcome of observing one recipient: not the authority or a guardian, the
/// approved key, the multisig's vault at `vault_index`, System owned,
/// non-executable, empty, funded and rent exempt.
pub open spec fn spec_observe_recipient(
    account: AccountView,
    approved: Pubkey,
    multisig: Pubkey,
    vault_index: u8,
    floor: u64,
    authority: Pubkey,
    guardians: [Pubkey; 6],
) -> GenesisRecipientResult<GenesisRecipientObservation> {
    if account.key == authority || guardians@.contains(account.key) {
        Err(GenesisRecipientError::State(Piv1Error::AccountAlias))
    } else if account.key != approved {
        Err(GenesisRecipientError::UnapprovedRecipient)
    } else {
        match spec_derive(vault_seeds(multisig, vault_index), squads_v4_key()) {
            None => Err(GenesisRecipientError::InvalidRecipientVault),
            Some(v) => if account.key != v.0 {
                Err(GenesisRecipientError::InvalidRecipientVault)
            } else if account.owner != system_program_key() {
                Err(GenesisRecipientError::State(Piv1Error::InvalidAccountOwner))
            } else if account.executable {
                Err(GenesisRecipientError::State(Piv1Error::ExecutableAccount))
            } else if account.data is None {
                Err(GenesisRecipientError::State(Piv1Error::AccountBorrowFailed))
            } else if account.data->Some_0@.len() != 0 {
                Err(GenesisRecipientError::State(Piv1Error::InvalidAccountSize))
            } else if account.lamports is None {
                Err(GenesisRecipientError::State(Piv1Error::AccountBorrowFailed))
            } else if account.lamports->Some_0 == 0 {
                Err(GenesisRecipientError::UnfundedRecipient)
            } else if account.lamports->Some_0 < floor {
                Err(GenesisRecipientError::State(Piv1Error::AccountRentDeficit))
            } else {
                Ok(
                    GenesisRecipientObservation {
                        address: v.0,
                        multisig,
                        vault_index,
                        bump: v.1,
                        observed_lamports: account.lamports->Some_0,
                        rent_minimum: floor,
                    },
                )
            },
        }
    }
}

/// Observes one recipient.
fn observe_recipient(
    account: &AccountView,
    approved: &Pubkey,
    multisig: &Pubkey,
    vault_index: u8,
    floor: u64,
    authority: &Pubkey,
    guardians: &[Pubkey; 6],
) -> (r: GenesisRecipientResult<GenesisRecipientObservation>)
    ensures
        r == spec_observe_recipient(*account, *approved, *multisig, vault_index, floor, *authority, *guardians),
{
    if account.key == *authority || crate::account_view::contains_key(guardians.as_slice(), &account.key) {
        return Err(GenesisRecipientError::State(Piv1Error::AccountAlias));
    }
    if account.key != *approved {
        return Err(GenesisRecipientError::UnapprovedRecipient);
    }
    let (expected, bump) = match derive_address(&vault_address_seeds(multisig, vault_index), &squads_v4_program_id()) {
        None => {
            return Err(GenesisRecipientError::InvalidRecipientVault);
        },
        Some(found) => found,
    };
    if account.key != expected {
        return Err(GenesisRecipientError::InvalidRecipientVault);
    }
    if account.owner != system_program_id() {
        return Err(GenesisRecipientError::State(Piv1Error::InvalidAccountOwner));
    }
    if account.executable {
        return Err(GenesisRecipientError::State(Piv1Error::ExecutableAccount));
    }
    match &account.data {
        None => {
            return Err(GenesisRecipientError::State(Piv1Error::AccountBorrowFailed));
        },
        Some(d) => {
            if d.len() != 0 {
                return Err(GenesisRecipientError::State(Piv1Error::InvalidAccountSize));
            }
        },
    }
    let lamports = match account.lamports {
        None => {
            return Err(GenesisRecipientError::State(Piv1Error::AccountBorrowFailed));
        },
        Some(l) => l,
    };
    if lamports == 0 {
        return Err(GenesisRecipientError::UnfundedRecipient);
    }
    if lamports < floor {
        return Err(GenesisRecipientError::State(Piv1Error::AccountRentDeficit));
    }
    Ok(GenesisRecipientObservation { address: expected, multisig: *multisig, vault_index, bump, observed_lamports: lamports, rent_minimum: floor })
}

/// Why the recipient preflight fails: the recipient roles, or else the
/// genesis account preflight, which refuses every input.
pub open spec fn spec_recipients_error(
    program: Pubkey,
    accounts: Seq<AccountView>,
    data: Seq<u8>,
    roles: GenesisRecipientRoles,
    context: SquadsInvocationContext,
) -> GenesisRecipientError {
    match spec_recipient_roles(accounts, roles) {
        Err(e) => e,
        Ok(_) => GenesisRecipientError::Preflight(
            GenesisPreflightError::Model(spec_prepare_error(program, accounts, data, roles.preflight.bootstrap, context)),
        ),
    }
}

/// Refreshes the complete genesis preflight and both recipient identities.
pub fn preflight_approved_genesis_recipients(
    program: &Pubkey,
    accounts: &Vec<AccountView>,
    data: &[u8],
    roles: GenesisRecipientRoles,
    context: &SquadsInvocationContext,
) -> (r: GenesisRecipientResult<GenesisRecipientPreflight>)
    ensures
        r == Err::<GenesisRecipientPreflight, GenesisRecipientError>(
            spec_recipients_error(*program, accounts@, data@, roles, *context),
        ),
{
    if roles.htfp_recipient == roles.team_owner_recipient {
        return Err(GenesisRecipientError::InvalidRoles);
    }
    recipient_index(accounts, roles, roles.htfp_recipient)?;
    recipient_index(accounts, roles, roles.team_owner_recipient)?;
    let genesis = match preflight_approved_genesis_accounts(program, accounts, data, roles.preflight, context) {
        Err(e) => {
            return Err(GenesisRecipientError::Preflight(e));
        },
        Ok(g) => g,
    };
    let floor = match context.rent.native {
        Err(e) => {
            return Err(GenesisRecipientError::State(e));
        },
        Ok(f) => f,
    };
    let multisig = accounts[roles.preflight.bootstrap.multisig].key;
    let model = genesis.model();
    let config = model.proposed_config();
    let guardians = model.proposed_registry().guardian_keys;
    let authority = model.piv_authority();
    let htfp = observe_recipient(
        &accounts[roles.htfp_recipient],
        &config.htfp_recipient,
        &multisig,
        roles.htfp_vault_index,
        floor,
        &authority,
        &guardians,
    )?;
    let team_owner = observe_recipient(
        &accounts[roles.team_owner_recipient],
        &config.team_owner_recipient,
        &multisig,
        roles.team_owner_vault_index,
        floor,
        &authority,
        &guardians,
    )?;
    Ok(GenesisRecipientPreflight { genesis, recipients: [htfp, team_owner] })
}

} // verus!
