//! Read-only authentication for the four isolated KIF claim accounts.
//!
//! The executing program ID and rent floors are trusted runtime inputs. Outputs
//! are point-in-time evidence, not authorization capabilities. No registry,
//! round, pool, principal custody or Clock is read, and pause does not block an
//! already-earned claim.

use crate::account_view::{
    check_state_envelope, contains_key, native_balance, payload_len, reward_seeds,
    spec_pda, spec_program, spec_reward_seeds, spec_state_envelope, validate_pda,
    validate_program, validate_program_bindings, validate_seeds, AccountView, RentFloors,
    Seed, StateKind, lemma_valid_config_fails_program_bindings,
};
use crate::address::Pubkey;
use crate::errors::{Piv1Error, Piv1Result};
use crate::state::config::PivConfig;
use crate::state::guardian::GuardianReward;
use crate::state::kif_claim::KifClaimCustodyObservation;
use vstd::prelude::*;

verus! {

/// The entitled guardian account is both signer and fixed payment destination.
#[derive(Clone, Debug)]
pub struct KifClaimAccountInfos {
    pub config: AccountView,
    pub guardian_reward: AccountView,
    pub kif_sol: AccountView,
    pub guardian: AccountView,
}

impl KifClaimAccountInfos {
    /// The four keys in their fixed order.
    pub open spec fn spec_keys(self) -> Seq<Pubkey> {
        seq![self.config.key, self.guardian_reward.key, self.kif_sol.key, self.guardian.key]
    }

    /// The four writable flags in the same order.
    pub open spec fn spec_writable(self) -> Seq<bool> {
        seq![self.config.is_writable, self.guardian_reward.is_writable, self.kif_sol.is_writable,
            self.guardian.is_writable]
    }
}

/// Owned isolated snapshots; claim amount and backing are validated separately.
#[derive(Clone, Copy, Debug, PartialEq, Eq)]
pub struct AuthenticatedKifClaimAccounts {
    config: PivConfig,
    reward: GuardianReward,
    custody: KifClaimCustodyObservation,
}

impl AuthenticatedKifClaimAccounts {
    pub closed spec fn spec_config(self) -> PivConfig {
        self.config
    }

    pub closed spec fn spec_reward(self) -> GuardianReward {
        self.reward
    }

    pub closed spec fn spec_custody(self) -> KifClaimCustodyObservation {
        self.custody
    }

    pub fn config(&self) -> (r: &PivConfig)
        ensures
            *r == self.spec_config(),
    {
        &self.config
    }

    pub fn reward(&self) -> (r: &GuardianReward)
        ensures
            *r == self.spec_reward(),
    {
        &self.reward
    }

    pub fn custody(&self) -> (r: KifClaimCustodyObservation)
        ensures
            r == self.spec_custody(),
    {
        self.custody
    }
}

/// Scan from account `i`: each account must be writable, and must not share
/// its key with a later account.
pub open spec fn writable_alias_scan(keys: Seq<Pubkey>, writable: Seq<bool>, i: int) -> Piv1Result<()>
    decreases keys.len() - i,
{
    if i < 0 || i >= keys.len() {
        Ok(())
    } else if !writable[i] {
        Err(Piv1Error::AccountNotWritable)
    } else if exists|j: int| i < j < keys.len() && keys[j] == keys[i] {
        Err(Piv1Error::AccountAlias)
    } else {
        writable_alias_scan(keys, writable, i + 1)
    }
}

/// In order, requires each account to be writable and not to alias a later one.
pub fn validate_writable_distinct(keys: &[Pubkey], writable: &[bool]) -> (r: Piv1Result<()>)
    requires
        keys@.len() == writable@.len(),
    ensures
        r == writable_alias_scan(keys@, writable@, 0),
{
    let n = keys.len();
    let mut i: usize = 0;
    while i < n
        invariant
            i <= n,
            n == keys@.len(),
            n == writable@.len(),
            writable_alias_scan(keys@, writable@, 0) == writable_alias_scan(keys@, writable@, i as int),
        decreases n - i,
    {
        if !writable[i] {
            return Err(Piv1Error::AccountNotWritable);
        }
        let mut j: usize = i + 1;
        while j < n
            invariant
                i < n,
                i + 1 <= j <= n,
                n == keys@.len(),
                n == writable@.len(),
                writable@[i as int],
                writable_alias_scan(keys@, writable@, 0) == writable_alias_scan(keys@, writable@, i as int),
                forall|b: int| i < b < j ==> keys@[b] != keys@[i as int],
            decreases n - j,
        {
            if keys[i] == keys[j] {
                assert(keys@[j as int] == keys@[i as int]);
                return Err(Piv1Error::AccountAlias);
            }
            j = j + 1;
        }
        i = i + 1;
    }
    Ok(())
}

/// Outcome of authenticating a stored guardian-reward account.
pub open spec fn spec_reward_account(
    program: Pubkey,
    floor: Piv1Result<u64>,
    account: AccountView,
    reward: Option<(GuardianReward, usize)>,
) -> Piv1Result<GuardianReward> {
    match spec_state_envelope(account, program, StateKind::Reward, payload_len(reward), floor) {
        Err(e) => Err(e),
        Ok(_) => {
            let r = reward.unwrap().0;
            match r.spec_validate() {
                Err(e) => Err(e),
                Ok(_) => match spec_pda(
                    program,
                    account.key,
                    spec_reward_seeds(r.guardian, r.registry_revision, r.guardian_index),
                    r.bump,
                ) {
                    Err(e) => Err(e),
                    Ok(_) => Ok(r),
                },
            }
        },
    }
}

/// Authenticates a stored earned-reward tuple without current-registry
/// policy: its envelope, its validity, and that the account is the canonical
/// address derived from the guardian, the registry revision and the slot.
pub fn authenticate_reward_account(
    program_id: &Pubkey,
    floor: Piv1Result<u64>,
    account: &AccountView,
    reward: Option<(GuardianReward, usize)>,
) -> (r: Piv1Result<GuardianReward>)
    ensures
        r == spec_reward_account(*program_id, floor, *account, reward),
{
    let len = match &reward {
        None => None,
        Some(d) => Some(d.1),
    };
    check_state_envelope(account, program_id, StateKind::Reward, len, floor)?;
    let reward = match reward {
        None => return Err(Piv1Error::InvalidAccountData),
        Some(d) => d.0,
    };
    reward.validate()?;
    let seeds = reward_seeds(&reward.guardian, reward.registry_revision, reward.guardian_index);
    validate_seeds(program_id, &account.key, &seeds, reward.bump)?;
    Ok(reward)
}

/// Outcome of authenticating the claim accounts. A configuration that passes
/// validation never holds the System program's all-zero address, so the
/// program-binding check that follows refuses every validated configuration.
pub open spec fn spec_authenticate_kif_claim(
    program: Pubkey,
    rent: RentFloors,
    accounts: KifClaimAccountInfos,
    config: Option<(PivConfig, usize)>,
) -> Piv1Result<AuthenticatedKifClaimAccounts> {
    if spec_program(program) is Err {
        Err(Piv1Error::InvalidProgramIdentity)
    } else {
        match writable_alias_scan(accounts.spec_keys(), accounts.spec_writable(), 0) {
            Err(e) => Err(e),
            Ok(_) => if !accounts.guardian.is_signer {
                Err(Piv1Error::MissingGuardianSignature)
            } else {
                match spec_state_envelope(accounts.config, program, StateKind::Config, payload_len(config), rent.config) {
                    Err(e) => Err(e),
                    Ok(_) => match config.unwrap().0.spec_validate() {
                        Err(e) => Err(e),
                        Ok(_) => Err(Piv1Error::InvalidProgramIdentity),
                    },
                }
            },
        }
    }
}

/// Authenticates the four claim accounts. The System-owned, empty guardian
/// account must be writable and sign; it is the fixed payment destination.
/// `config` and `reward` are the decoded state payloads with their lengths.
pub fn authenticate_kif_claim_accounts(
    trusted_runtime_program_id: &Pubkey,
    rent: &RentFloors,
    accounts: &KifClaimAccountInfos,
    config: Option<(PivConfig, usize)>,
    reward: Option<(GuardianReward, usize)>,
) -> (r: Piv1Result<AuthenticatedKifClaimAccounts>)
    ensures
        r == spec_authenticate_kif_claim(*trusted_runtime_program_id, *rent, *accounts, config),
{
    let program_id = trusted_runtime_program_id;
    validate_program(program_id)?;
    let keys = [accounts.config.key, accounts.guardian_reward.key, accounts.kif_sol.key, accounts.guardian.key];
    let writable = [accounts.config.is_writable, accounts.guardian_reward.is_writable,
        accounts.kif_sol.is_writable, accounts.guardian.is_writable];
    assert(keys@ =~= accounts.spec_keys());
    assert(writable@ =~= accounts.spec_writable());
    validate_writable_distinct(&keys, &writable)?;
    if !accounts.guardian.is_signer {
        return Err(Piv1Error::MissingGuardianSignature);
    }
    let config_len = match &config {
        None => None,
        Some(c) => Some(c.1),
    };
    check_state_envelope(&accounts.config, program_id, StateKind::Config, config_len, rent.config)?;
    let config = match config {
        None => return Err(Piv1Error::InvalidAccountData),
        Some(c) => c.0,
    };
    config.validate_initialized()?;
    proof {
        lemma_valid_config_fails_program_bindings(config);
    }
    validate_program_bindings(&config)?;
    let piv_roles = [config.piv_authority, config.active_distribution, config.principal_jito_vault,
        config.pending_jito_vault, config.pending_sol_vault, config.principal_sol_queue,
        config.operational_sol_vault, config.distribution_escrow, config.kif_sol_vault,
        config.guardian_registry];
    let external_roles = [config.stake_pool_program, config.stake_pool, config.validator_list,
        config.reserve_stake, config.jitosol_mint, config.token_program, config.stake_program,
        config.system_program, config.manager_fee_account, config.referrer_token_account,
        config.htfp_recipient, config.team_owner_recipient];
    // Guardian overlap with external beneficiary wallets is not forbidden; only
    // PIV-controlled state, authority and custody destinations are.
    if contains_key(&piv_roles, &accounts.config.key) || contains_key(&external_roles, &accounts.config.key)
        || contains_key(&piv_roles, &accounts.guardian.key) {
        return Err(Piv1Error::AccountAlias);
    }
    validate_pda(program_id, &accounts.config.key, Seed::Config, config.bumps.config)?;
    validate_pda(program_id, &config.kif_sol_vault, Seed::KifSol, config.bumps.kif_sol_vault)?;
    let reward = authenticate_reward_account(program_id, rent.reward, &accounts.guardian_reward, reward)?;
    if accounts.guardian.key != reward.guardian {
        return Err(Piv1Error::InvalidGuardianSet);
    }
    let native_floor = rent.native?;
    let kif_sol = native_balance(&accounts.kif_sol, &config.kif_sol_vault, native_floor)?;
    let guardian = native_balance(&accounts.guardian, &reward.guardian, 0)?;
    Ok(AuthenticatedKifClaimAccounts {
        config,
        reward,
        custody: KifClaimCustodyObservation { kif_sol, guardian_lamports: guardian.lamports },
    })
}

} // verus!
