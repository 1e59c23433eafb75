//! Four-role pending custody authentication and the staged recognition of
//! pending contributions. The executing program ID and rent floors are trusted
//! runtime inputs; owned observations are not receipts or capabilities.

use crate::account_view::{
    check_state_envelope, distinct_keys, keys_distinct, native_balance, payload_len, spec_program,
    spec_state_envelope, token_balance, validate_program, AccountView, RentFloors, StateKind,
    TokenVaultBalance,
};
use crate::accounts::validate_fixed_config;
use crate::address::Pubkey;
use crate::errors::{Piv1Error, Piv1Result};
use crate::state::config::PivConfig;
use crate::state::contributions::{reconcile_pending_contributions, PendingCustodyObservation, PendingReconciliationResult};
use crate::state::distribution::ActiveDistribution;
use crate::state::reconciliation::{validate_custody_state_binding, SolVaultBalance};
use vstd::prelude::*;

verus! {

/// The four pending-recognition accounts.
#[derive(Clone, Debug)]
pub struct PendingAccountInfos {
    pub config: AccountView,
    pub active_distribution: AccountView,
    pub pending_sol: AccountView,
    pub pending_jito: AccountView,
}

impl PendingAccountInfos {
    /// The four keys in their fixed order.
    pub open spec fn spec_keys(self) -> Seq<Pubkey> {
        seq![self.config.key, self.active_distribution.key, self.pending_sol.key, self.pending_jito.key]
    }
}

/// Authenticated configuration, round and pending custody balances.
#[derive(Clone, Copy, Debug, PartialEq, Eq)]
pub struct AuthenticatedPendingAccounts {
    config: PivConfig,
    distribution: ActiveDistribution,
    sol: SolVaultBalance,
    token: TokenVaultBalance,
}

impl AuthenticatedPendingAccounts {
    pub closed spec fn spec_config(self) -> PivConfig {
        self.config
    }

    pub closed spec fn spec_distribution(self) -> ActiveDistribution {
        self.distribution
    }

    pub closed spec fn spec_sol(self) -> SolVaultBalance {
        self.sol
    }

    pub closed spec fn spec_token(self) -> TokenVaultBalance {
        self.token
    }

    pub fn config(&self) -> (r: &PivConfig)
        ensures
            *r == self.spec_config(),
    {
        &self.config
    }

    pub fn distribution(&self) -> (r: &ActiveDistribution)
        ensures
            *r == self.spec_distribution(),
    {
        &self.distribution
    }

    /// Native token-account funding remains visible and unclassified.
    pub fn pending_jito(&self) -> (r: TokenVaultBalance)
        ensures
            r == self.spec_token(),
    {
        self.token
    }

    /// The pending custody observation: SOL vault balance and floor, and token units.
    pub fn observation(&self) -> (r: PendingCustodyObservation)
        ensures
            r == (PendingCustodyObservation {
                pending_sol_vault_lamports: self.spec_sol().lamports,
                pending_sol_non_economic_floor_lamports: self.spec_sol().non_economic_floor_lamports,
                pending_jitosol_token_units: self.spec_token().token_units,
            }),
    {
        PendingCustodyObservation {
            pending_sol_vault_lamports: self.sol.lamports,
            pending_sol_non_economic_floor_lamports: self.sol.non_economic_floor_lamports,
            pending_jitosol_token_units: self.token.token_units,
        }
    }
}

/// Outcome of authenticating the pending accounts. A configuration that passes
/// validation never passes the program-binding check that follows.
pub open spec fn spec_authenticate_pending(
    program: Pubkey,
    rent: RentFloors,
    accounts: PendingAccountInfos,
    config: Option<(PivConfig, usize)>,
) -> Piv1Result<AuthenticatedPendingAccounts> {
    if spec_program(program) is Err {
        Err(Piv1Error::InvalidProgramIdentity)
    } else if !keys_distinct(accounts.spec_keys()) {
        Err(Piv1Error::AccountAlias)
    } else {
        match spec_state_envelope(accounts.config, program, StateKind::Config, payload_len(config), rent.config) {
            Err(e) => Err(e),
            Ok(_) => match config.unwrap().0.spec_validate() {
                Err(e) => Err(e),
                Ok(_) => Err(Piv1Error::InvalidProgramIdentity),
            },
        }
    }
}

/// Authenticates the configuration, the round, and the pending SOL and JitoSOL
/// custody. `config` and `distribution` are the decoded payloads with lengths.
pub fn authenticate_pending_accounts(
    program: &Pubkey,
    rent: &RentFloors,
    accounts: &PendingAccountInfos,
    config: Option<(PivConfig, usize)>,
    distribution: Option<(ActiveDistribution, usize)>,
) -> (r: Piv1Result<AuthenticatedPendingAccounts>)
    ensures
        r == spec_authenticate_pending(*program, *rent, *accounts, config),
{
    validate_program(program)?;
    let keys = [accounts.config.key, accounts.active_distribution.key, accounts.pending_sol.key,
        accounts.pending_jito.key];
    assert(keys@ =~= accounts.spec_keys());
    if !distinct_keys(&keys) {
        return Err(Piv1Error::AccountAlias);
    }
    let config_len = match &config {
        None => None,
        Some(c) => Some(c.1),
    };
    check_state_envelope(&accounts.config, program, StateKind::Config, config_len, rent.config)?;
    let config = match config {
        None => return Err(Piv1Error::InvalidAccountData),
        Some(c) => c.0,
    };
    validate_fixed_config(&config, program, &accounts.config.key)?;
    if accounts.active_distribution.key != config.active_distribution {
        return Err(Piv1Error::InvalidAccountPda);
    }
    let distribution_len = match &distribution {
        None => None,
        Some(d) => Some(d.1),
    };
    check_state_envelope(&accounts.active_distribution, program, StateKind::Distribution,
        distribution_len, rent.distribution)?;
    let distribution = match distribution {
        None => return Err(Piv1Error::InvalidAccountData),
        Some(d) => d.0,
    };
    if distribution.bump != config.bumps.active_distribution {
        return Err(Piv1Error::InvalidAccountPda);
    }
    validate_custody_state_binding(&config, &distribution)?;
    let sol = native_balance(&accounts.pending_sol, &config.pending_sol_vault, rent.native?)?;
    let token = token_balance(&accounts.pending_jito, &config.pending_jito_vault, &config, rent.token_account?)?;
    Ok(AuthenticatedPendingAccounts { config, distribution, sol, token })
}

/// The first failure of pending recognition: a read-only configuration, then
/// authentication, which refuses every validated configuration.
pub open spec fn spec_pending_reconciliation_error(
    program: Pubkey,
    rent: RentFloors,
    accounts: PendingAccountInfos,
    config: Option<(PivConfig, usize)>,
) -> Piv1Error {
    if !accounts.config.is_writable {
        Piv1Error::AccountNotWritable
    } else {
        spec_authenticate_pending(program, rent, accounts, config)->Err_0
    }
}

/// Stages pending recognition: requires a writable configuration, authenticates
/// the accounts and reconciles both pending ledgers against the observed
/// custody, returning the authenticated prior state, the next configuration
/// and the result. The caller persists the next configuration through
/// `PreparedStateWrite` and `commit_state_writes`; no funds move.
pub fn begin_pending_reconciliation(
    program: &Pubkey,
    rent: &RentFloors,
    accounts: &PendingAccountInfos,
    config: Option<(PivConfig, usize)>,
    distribution: Option<(ActiveDistribution, usize)>,
) -> (r: Piv1Result<(AuthenticatedPendingAccounts, PivConfig, PendingReconciliationResult)>)
    ensures
        r == Err::<(AuthenticatedPendingAccounts, PivConfig, PendingReconciliationResult), Piv1Error>(
            spec_pending_reconciliation_error(*program, *rent, *accounts, config),
        ),
{
    if !accounts.config.is_writable {
        return Err(Piv1Error::AccountNotWritable);
    }
    let before = authenticate_pending_accounts(program, rent, accounts, config, distribution)?;
    let mut next = *before.config();
    let result = reconcile_pending_contributions(&mut next, before.distribution(), before.observation())?;
    Ok((before, next, result))
}

} // verus!
