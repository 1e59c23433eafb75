//! Read-only authentication of the fixed PIV1 state and custody topology.
//!
//! The program ID and the rent floors are trusted runtime inputs. Outputs are
//! owned point-in-time evidence, not receipts or authorization capabilities.
//! Reauthenticate after any interaction or account mutation.

use crate::account_view::{
    check_state_envelope, distinct_keys, keys_distinct, native_balance, spec_program,
    spec_state_envelope, token_balance, validate_pda, validate_program,
    validate_program_bindings, contains_key, AccountView, RentFloors, Seed, StateKind,
    TokenVaultBalance, lemma_valid_config_fails_program_bindings, payload_len,
};
use crate::address::Pubkey;
use crate::errors::{Piv1Error, Piv1Result};
use crate::state::config::PivConfig;
use crate::state::distribution::ActiveDistribution;
use crate::state::reconciliation::{
    assess_operational_surplus, economic_custody_obligations, economic_custody_surplus,
    spec_surplus, EconomicCustodyObservation, OperationalSurplusAssessment, SolVaultBalance,
};
use vstd::prelude::*;

verus! {

/// The nine fixed accounts. The PIV authority is derived as an address only.
#[derive(Clone, Debug)]
pub struct FixedAccountInfos {
    pub config: AccountView,
    pub active_distribution: AccountView,
    pub pending_sol: AccountView,
    pub principal_sol: AccountView,
    pub operational_sol: AccountView,
    pub distribution_escrow: AccountView,
    pub kif_sol: AccountView,
    pub principal_jito: AccountView,
    pub pending_jito: AccountView,
}

impl FixedAccountInfos {
    /// The nine account keys in their fixed order.
    pub open spec fn spec_keys(self) -> Seq<Pubkey> {
        seq![self.config.key, self.active_distribution.key, self.pending_sol.key, self.principal_sol.key,
            self.operational_sol.key, self.distribution_escrow.key, self.kif_sol.key,
            self.principal_jito.key, self.pending_jito.key]
    }
}

/// Owned snapshot of authenticated accounts and mutually bound stored state.
#[derive(Clone, Copy, Debug, PartialEq, Eq)]
pub struct AuthenticatedFixedAccounts {
    config: PivConfig,
    distribution: ActiveDistribution,
    economic: EconomicCustodyObservation,
    operational: SolVaultBalance,
    principal_jito: TokenVaultBalance,
    pending_jito: TokenVaultBalance,
}

impl AuthenticatedFixedAccounts {
    pub closed spec fn spec_config(self) -> PivConfig {
        self.config
    }

    pub closed spec fn spec_distribution(self) -> ActiveDistribution {
        self.distribution
    }

    pub closed spec fn spec_economic(self) -> EconomicCustodyObservation {
        self.economic
    }

    pub closed spec fn spec_operational(self) -> SolVaultBalance {
        self.operational
    }

    pub closed spec fn spec_principal_jito(self) -> TokenVaultBalance {
        self.principal_jito
    }

    pub closed spec fn spec_pending_jito(self) -> TokenVaultBalance {
        self.pending_jito
    }

    pub fn config(&self) -> (r: &PivConfig)
        ensures
            *r == self.spec_config(),
    {
        &self.config
    }

    pub fn distribution(&self) -> (r: &ActiveDistribution)
        ensures
            *r == self.spec_distribution(),
    {
        &self.distribution
    }

    pub fn operational_sol(&self) -> (r: SolVaultBalance)
        ensures
            r == self.spec_operational(),
    {
        self.operational
    }

    pub fn principal_jito(&self) -> (r: TokenVaultBalance)
        ensures
            r == self.spec_principal_jito(),
    {
        self.principal_jito
    }

    pub fn pending_jito(&self) -> (r: TokenVaultBalance)
        ensures
            r == self.spec_pending_jito(),
    {
        self.pending_jito
    }

    /// Operational funding provenance remains unsupported, regardless of balance.
    pub fn operational_surplus(&self) -> (r: Piv1Result<OperationalSurplusAssessment>)
        ensures
            r == match self.spec_operational().spec_economic() {
                Err(e) => Err(e),
                Ok(_) => Ok(OperationalSurplusAssessment::UnsupportedFundingBaseline),
            },
    {
        assess_operational_surplus(self.operational)
    }

    /// The economic observation, only when neither token vault holds native
    /// excess and every economic vault covers its own obligation.
    pub open spec fn spec_economic_observation(self) -> Piv1Result<EconomicCustodyObservation> {
        match self.spec_principal_jito().native.spec_economic() {
            Err(e) => Err(e),
            Ok(principal) => if principal != 0 {
                Err(Piv1Error::UnsupportedTokenNativeExcess)
            } else {
                match self.spec_pending_jito().native.spec_economic() {
                    Err(e) => Err(e),
                    Ok(pending) => if pending != 0 {
                        Err(Piv1Error::UnsupportedTokenNativeExcess)
                    } else {
                        match spec_surplus(self.spec_config(), self.spec_distribution(), self.spec_economic()) {
                            Err(e) => Err(e),
                            Ok(_) => Ok(self.spec_economic()),
                        }
                    },
                }
            },
        }
    }

    /// Derives the reconciliation observation only when every economic vault
    /// covers its own state-derived obligation; excess at one vault cannot
    /// conceal a deficit at another. Native excess in a token account has no
    /// normalization path and is refused.
    pub fn economic_observation(&self) -> (r: Piv1Result<EconomicCustodyObservation>)
        ensures
            r == self.spec_economic_observation(),
    {
        if self.principal_jito.native.economic_lamports()? != 0
            || self.pending_jito.native.economic_lamports()? != 0 {
            return Err(Piv1Error::UnsupportedTokenNativeExcess);
        }
        economic_custody_surplus(&self.config, &self.distribution, self.economic)?;
        Ok(self.economic)
    }
}

/// Outcome of authenticating the fixed accounts. A configuration that passes
/// validation never holds the System program's all-zero address, so the
/// program-binding check that follows refuses every validated configuration.
pub open spec fn spec_authenticate_fixed(
    program: Pubkey,
    rent: RentFloors,
    accounts: FixedAccountInfos,
    config: Option<(PivConfig, usize)>,
) -> Piv1Result<AuthenticatedFixedAccounts> {
    if spec_program(program) is Err {
        Err(Piv1Error::InvalidProgramIdentity)
    } else if !keys_distinct(accounts.spec_keys()) {
        Err(Piv1Error::AccountAlias)
    } else {
        match spec_state_envelope(accounts.config, program, StateKind::Config, payload_len(config), rent.config) {
            Err(e) => Err(e),
            Ok(_) => match config.unwrap().0.spec_validate() {
                Err(e) => Err(e),
                Ok(_) => Err(Piv1Error::InvalidProgramIdentity),
            },
        }
    }
}

/// Authenticates the fixed accounts with the trusted program ID and rent
/// floors. `config` and `distribution` are the payloads decoded from the two
/// state accounts after their discriminators, with the number of bytes each
/// decoding consumed; `None` where decoding failed. Every allocation byte
/// after a payload must be zero.
pub fn authenticate_fixed_accounts(
    trusted_runtime_program_id: &Pubkey,
    rent: &RentFloors,
    accounts: &FixedAccountInfos,
    config: Option<(PivConfig, usize)>,
    distribution: Option<(ActiveDistribution, usize)>,
) -> (r: Piv1Result<AuthenticatedFixedAccounts>)
    ensures
        r == spec_authenticate_fixed(*trusted_runtime_program_id, *rent, *accounts, config),
{
    let program_id = trusted_runtime_program_id;
    validate_program(program_id)?;
    let keys = [accounts.config.key, accounts.active_distribution.key, accounts.pending_sol.key,
        accounts.principal_sol.key, accounts.operational_sol.key, accounts.distribution_escrow.key,
        accounts.kif_sol.key, accounts.principal_jito.key, accounts.pending_jito.key];
    assert(keys@ =~= accounts.spec_keys());
    if !distinct_keys(&keys) {
        return Err(Piv1Error::AccountAlias);
    }
    let config_len = match &config {
        None => None,
        Some(c) => Some(c.1),
    };
    check_state_envelope(&accounts.config, program_id, StateKind::Config, config_len, rent.config)?;
    let config = match config {
        None => return Err(Piv1Error::InvalidAccountData),
        Some(c) => c.0,
    };
    validate_fixed_config(&config, program_id, &accounts.config.key)?;
    if accounts.active_distribution.key != config.active_distribution {
        return Err(Piv1Error::InvalidAccountPda);
    }
    let distribution_len = match &distribution {
        None => None,
        Some(d) => Some(d.1),
    };
    check_state_envelope(&accounts.active_distribution, program_id, StateKind::Distribution,
        distribution_len, rent.distribution)?;
    let distribution = match distribution {
        None => return Err(Piv1Error::InvalidAccountData),
        Some(d) => d.0,
    };
    if distribution.bump != config.bumps.active_distribution {
        return Err(Piv1Error::InvalidAccountPda);
    }
    economic_custody_obligations(&config, &distribution)?;
    let native_floor = rent.native?;
    let pending_sol = native_balance(&accounts.pending_sol, &config.pending_sol_vault, native_floor)?;
    let principal_sol = native_balance(&accounts.principal_sol, &config.principal_sol_queue, native_floor)?;
    let operational = native_balance(&accounts.operational_sol, &config.operational_sol_vault, native_floor)?;
    let distribution_escrow = native_balance(&accounts.distribution_escrow, &config.distribution_escrow, native_floor)?;
    let kif_sol = native_balance(&accounts.kif_sol, &config.kif_sol_vault, native_floor)?;
    let token_floor = rent.token_account?;
    let principal_jito = token_balance(&accounts.principal_jito, &config.principal_jito_vault, &config, token_floor)?;
    let pending_jito = token_balance(&accounts.pending_jito, &config.pending_jito_vault, &config, token_floor)?;
    Ok(AuthenticatedFixedAccounts {
        config,
        distribution,
        operational,
        principal_jito,
        pending_jito,
        economic: EconomicCustodyObservation {
            pending_sol,
            principal_sol,
            distribution_escrow,
            kif_sol,
            principal_jitosol_units: principal_jito.token_units,
            pending_jitosol_units: pending_jito.token_units,
        },
    })
}

/// Outcome of validating a stored configuration as the fixed PIV1 topology.
/// A configuration that passes validation never holds the System program's
/// all-zero address, so the program-binding check that follows refuses every
/// validated configuration.
pub open spec fn spec_fixed_config(config: PivConfig) -> Piv1Result<()> {
    match config.spec_validate() {
        Err(e) => Err(e),
        Ok(_) => Err(Piv1Error::InvalidProgramIdentity),
    }
}

/// Validates the stored configuration, its program bindings, the canonical
/// addresses of the configuration and of every fixed role, and that the
/// configuration account aliases no externally configured role.
pub fn validate_fixed_config(config: &PivConfig, program_id: &Pubkey, config_key: &Pubkey) -> (r: Piv1Result<()>)
    ensures
        r == spec_fixed_config(*config),
{
    config.validate_initialized()?;
    proof {
        lemma_valid_config_fails_program_bindings(*config);
    }
    validate_program_bindings(config)?;
    validate_pda(program_id, config_key, Seed::Config, config.bumps.config)?;
    validate_pda(program_id, &config.piv_authority, Seed::Authority, config.bumps.piv_authority)?;
    validate_pda(program_id, &config.active_distribution, Seed::Distribution, config.bumps.active_distribution)?;
    validate_pda(program_id, &config.pending_sol_vault, Seed::PendingSol, config.bumps.pending_sol_vault)?;
    validate_pda(program_id, &config.principal_sol_queue, Seed::PrincipalSol, config.bumps.principal_sol_queue)?;
    validate_pda(program_id, &config.operational_sol_vault, Seed::OperationalSol, config.bumps.operational_sol_vault)?;
    validate_pda(program_id, &config.distribution_escrow, Seed::DistributionEscrow, config.bumps.distribution_escrow)?;
    validate_pda(program_id, &config.kif_sol_vault, Seed::KifSol, config.bumps.kif_sol_vault)?;
    validate_pda(program_id, &config.principal_jito_vault, Seed::PrincipalJito, config.bumps.principal_jito_vault)?;
    validate_pda(program_id, &config.pending_jito_vault, Seed::PendingJito, config.bumps.pending_jito_vault)?;
    let external = [config.stake_pool_program, config.stake_pool, config.validator_list,
        config.reserve_stake, config.jitosol_mint, config.token_program, config.stake_program,
        config.system_program, config.manager_fee_account, config.referrer_token_account,
        config.htfp_recipient, config.team_owner_recipient, config.guardian_registry,
        config.piv_authority];
    if contains_key(&external, config_key) {
        return Err(Piv1Error::AccountAlias);
    }
    Ok(())
}

} // verus!
