//! Isolated claim execution with checks-effects-interactions ordering.
//!
//! Execution runs in two verified steps around the outside work. `begin_kif_claim`
//! checks the System program account, authenticates the claim accounts and
//! stages the claim. The caller then persists the staged state through
//! `PreparedStateWrite` and `commit_state_writes`, performs the fixed signed
//! System transfer, and observes the accounts again. `finish_kif_claim` accepts
//! the claim only if the fresh observations match the prediction exactly.

use crate::account_view::{contains_key, system_program_id, system_program_key, AccountView, RentFloors};
use crate::address::Pubkey;
use crate::errors::{Piv1Error, Piv1Result};
use crate::kif_claim_accounts::{
    authenticate_kif_claim_accounts, spec_authenticate_kif_claim, AuthenticatedKifClaimAccounts,
    KifClaimAccountInfos,
};
use crate::state::config::PivConfig;
use crate::state::guardian::GuardianReward;
use crate::state::kif_claim::{prepare_kif_claim, KifClaimRequest, KifClaimTransfer, PreparedKifClaim};
use crate::state_persistence::PreparedStateWrite;
use vstd::prelude::*;

verus! {

/// The underlying state-validation error, or the System invocation's error code.
#[derive(Clone, Copy, Debug, PartialEq, Eq, Structural)]
pub enum KifClaimExecutionError {
    State(Piv1Error),
    /// The System transfer invocation failed with this program-error code.
    Invocation(u64),
    /// A host build is not a Solana runtime and never invokes the transfer.
    HostRuntimeUnavailable,
}

/// The four isolated claim accounts and the canonical executable System program.
#[derive(Clone, Debug)]
pub struct KifClaimExecutionAccounts {
    pub claim: KifClaimAccountInfos,
    pub system_program: AccountView,
}

/// The System program account is the canonical executable one and aliases no
/// claim account.
pub open spec fn spec_execution_accounts(accounts: KifClaimExecutionAccounts) -> Piv1Result<()> {
    let system = accounts.system_program;
    if accounts.claim.spec_keys().contains(system.key) {
        Err(Piv1Error::AccountAlias)
    } else if system.key != system_program_key() || !system.executable {
        Err(Piv1Error::InvalidProgramIdentity)
    } else {
        Ok(())
    }
}

/// Checks the System program account against the claim accounts.
pub fn validate_execution_accounts(accounts: &KifClaimExecutionAccounts) -> (r: Piv1Result<()>)
    ensures
        r == spec_execution_accounts(*accounts),
{
    let system = &accounts.system_program;
    let claim = &accounts.claim;
    let keys = [claim.config.key, claim.guardian_reward.key, claim.kif_sol.key, claim.guardian.key];
    assert(keys@ =~= claim.spec_keys());
    if contains_key(&keys, &system.key) {
        return Err(Piv1Error::AccountAlias);
    }
    if system.key != system_program_id() || !system.executable {
        return Err(Piv1Error::InvalidProgramIdentity);
    }
    Ok(())
}

/// The first failure of the execution checks and the claim-account
/// authentication, which never succeeds for a validated configuration.
pub open spec fn spec_begin_error(
    program: Pubkey,
    rent: RentFloors,
    accounts: KifClaimExecutionAccounts,
    config: Option<(PivConfig, usize)>,
) -> Piv1Error {
    match spec_execution_accounts(accounts) {
        Err(e) => e,
        Ok(_) => spec_authenticate_kif_claim(program, rent, accounts.claim, config)->Err_0,
    }
}

/// Checks the System program account, authenticates the claim accounts and
/// stages the claim before any effect. Authentication refuses every validated
/// configuration, so this step never yields a plan.
pub fn begin_kif_claim(
    trusted_runtime_program_id: &Pubkey,
    rent: &RentFloors,
    accounts: &KifClaimExecutionAccounts,
    request: KifClaimRequest,
    config: Option<(PivConfig, usize)>,
    reward: Option<(GuardianReward, usize)>,
) -> (r: Result<(AuthenticatedKifClaimAccounts, PreparedKifClaim), KifClaimExecutionError>)
    ensures
        r == Err::<(AuthenticatedKifClaimAccounts, PreparedKifClaim), KifClaimExecutionError>(
            KifClaimExecutionError::State(spec_begin_error(*trusted_runtime_program_id, *rent, *accounts, config)),
        ),
{
    if let Err(e) = validate_execution_accounts(accounts) {
        return Err(KifClaimExecutionError::State(e));
    }
    let before = match authenticate_kif_claim_accounts(trusted_runtime_program_id, rent, &accounts.claim, config, reward) {
        Err(e) => return Err(KifClaimExecutionError::State(e)),
        Ok(before) => before,
    };
    match prepare_kif_claim(before.config(), before.reward(), request, before.custody()) {
        Err(e) => Err(KifClaimExecutionError::State(e)),
        Ok(plan) => Ok((before, plan)),
    }
}

/// The observed lamports of an account.
pub open spec fn spec_lamports(account: AccountView) -> Piv1Result<u64> {
    match account.lamports {
        None => Err(Piv1Error::AccountBorrowFailed),
        Some(l) => Ok(l),
    }
}

/// Reads the lamports of an account.
pub fn lamports(account: &AccountView) -> (r: Piv1Result<u64>)
    ensures
        r == spec_lamports(*account),
{
    match account.lamports {
        None => Err(Piv1Error::AccountBorrowFailed),
        Some(l) => Ok(l),
    }
}

/// Accepts an invoked claim only against fresh observations: the custody
/// exactly as predicted, both state accounts holding exactly their
/// replacements with unchanged lamports, and the plan committing against the
/// prior state. Predictions are never taken as evidence of a transfer.
/// Re-authentication refuses every validated configuration, so this step
/// never accepts a claim.
#[verifier::loop_isolation(false)]
pub fn finish_kif_claim(
    trusted_runtime_program_id: &Pubkey,
    rent: &RentFloors,
    accounts: &KifClaimExecutionAccounts,
    before: &AuthenticatedKifClaimAccounts,
    plan: PreparedKifClaim,
    config_write: &PreparedStateWrite,
    reward_write: &PreparedStateWrite,
    state_lamports: (u64, u64),
    config: Option<(PivConfig, usize)>,
    reward: Option<(GuardianReward, usize)>,
) -> (r: Result<KifClaimTransfer, KifClaimExecutionError>)
    ensures
        r == Err::<KifClaimTransfer, KifClaimExecutionError>(KifClaimExecutionError::State(
            spec_authenticate_kif_claim(*trusted_runtime_program_id, *rent, accounts.claim, config)->Err_0,
        )),
{
    let claim = &accounts.claim;
    let after = match authenticate_kif_claim_accounts(trusted_runtime_program_id, rent, claim, config, reward) {
        Err(e) => return Err(KifClaimExecutionError::State(e)),
        Ok(after) => after,
    };
    let (_, _, predicted_custody) = plan.staged_execution_values();
    if after.custody() != predicted_custody {
        return Err(KifClaimExecutionError::State(Piv1Error::KifClaimObservationMismatch));
    }
    let written = [(&claim.config, config_write), (&claim.guardian_reward, reward_write)];
    let mut i: usize = 0;
    while i < 2
        invariant
            i <= 2,
        decreases 2 - i,
    {
        let (account, write) = written[i];
        let data = match &account.data {
            None => return Err(KifClaimExecutionError::State(Piv1Error::AccountBorrowFailed)),
            Some(d) => d,
        };
        let replacement = write.replacement();
        if data.len() != replacement.len() {
            return Err(KifClaimExecutionError::State(Piv1Error::KifClaimStateChanged));
        }
        let mut k: usize = 0;
        while k < data.len()
            invariant
                k <= data@.len(),
                data@.len() == replacement@.len(),
            decreases data@.len() - k,
        {
            if data[k] != replacement[k] {
                return Err(KifClaimExecutionError::State(Piv1Error::KifClaimStateChanged));
            }
            k = k + 1;
        }
        i = i + 1;
    }
    let config_lamports = match lamports(&claim.config) {
        Err(e) => return Err(KifClaimExecutionError::State(e)),
        Ok(l) => l,
    };
    let reward_lamports = match lamports(&claim.guardian_reward) {
        Err(e) => return Err(KifClaimExecutionError::State(e)),
        Ok(l) => l,
    };
    if config_lamports != state_lamports.0 || reward_lamports != state_lamports.1 {
        return Err(KifClaimExecutionError::State(Piv1Error::KifClaimObservationMismatch));
    }
    let mut prior_config = *before.config();
    let mut prior_reward = *before.reward();
    let result = match plan.commit(&mut prior_config, &mut prior_reward, after.custody()) {
        Err(e) => return Err(KifClaimExecutionError::State(e)),
        Ok(t) => t,
    };
    if *after.config() != prior_config || *after.reward() != prior_reward {
        return Err(KifClaimExecutionError::State(Piv1Error::KifClaimStateChanged));
    }
    Ok(result)
}

} // verus!
