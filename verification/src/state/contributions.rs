//! Contribution intake and pending-custody reconciliation over custody
//! observations. Nothing here transfers value; every ledger change is derived
//! from exact before/after balances of the dedicated pending vaults.

use crate::errors::{Piv1Error, Piv1Result};
use crate::state::config::PivConfig;
use crate::state::distribution::ActiveDistribution;
use vstd::prelude::*;

verus! {

/// Before/after native custody facts for one explicit contribution; the same
/// non-economic floor applies to both observations.
#[derive(Clone, Copy, Debug, PartialEq, Eq, Structural)]
pub struct SolCustodyObservation {
    pub vault_lamports_before: u64,
    pub vault_lamports_after: u64,
    pub non_economic_floor_lamports: u64,
}

/// Before/after decoded token units for one explicit JitoSOL contribution.
#[derive(Clone, Copy, Debug, PartialEq, Eq, Structural)]
pub struct JitoSolCustodyObservation {
    pub token_units_before: u64,
    pub token_units_after: u64,
}

/// Current physical facts of both pending vaults.
#[derive(Clone, Copy, Debug, PartialEq, Eq, Structural)]
pub struct PendingCustodyObservation {
    pub pending_sol_vault_lamports: u64,
    pub pending_sol_non_economic_floor_lamports: u64,
    pub pending_jitosol_token_units: u64,
}

/// Result of recording one explicit contribution.
#[derive(Clone, Copy, Debug, PartialEq, Eq, Structural)]
pub struct ExplicitContributionRecord {
    pub observed_increase: u64,
    pub accounted_pending_after: u64,
}

/// Result of reconciling both pending custody categories.
#[derive(Clone, Copy, Debug, PartialEq, Eq, Structural)]
pub struct PendingReconciliationResult {
    pub newly_accounted_sol_lamports: u64,
    pub newly_accounted_jitosol_units: u64,
    pub accounted_pending_sol_lamports_after: u64,
    pub accounted_pending_jitosol_units_after: u64,
}

impl PendingReconciliationResult {
    /// True when both physical economic balances were already tracked.
    pub fn is_no_change(self) -> (r: bool)
        ensures
            r == (self.newly_accounted_sol_lamports == 0 && self.newly_accounted_jitosol_units == 0),
    {
        self.newly_accounted_sol_lamports == 0 && self.newly_accounted_jitosol_units == 0
    }
}

/// Economic balance of a native vault above its non-economic floor.
pub open spec fn spec_spendable(total: u64, floor: u64) -> Piv1Result<u64> {
    if total < floor {
        Err(Piv1Error::InvalidCustodyObservation)
    } else {
        Ok((total - floor) as u64)
    }
}

/// Returns the economic balance of a native vault above its floor.
pub fn spendable_sol_lamports(total_vault_lamports: u64, non_economic_floor_lamports: u64) -> (r:
    Piv1Result<u64>)
    ensures
        r == spec_spendable(total_vault_lamports, non_economic_floor_lamports),
{
    match total_vault_lamports.checked_sub(non_economic_floor_lamports) {
        Some(v) => Ok(v),
        None => Err(Piv1Error::InvalidCustodyObservation),
    }
}

/// Outcome of recording an explicit native contribution: the new
/// configuration and the record.
pub open spec fn spec_explicit_sol(
    config: PivConfig,
    round: ActiveDistribution,
    expected: u64,
    obs: SolCustodyObservation,
) -> Piv1Result<(PivConfig, ExplicitContributionRecord)> {
    let before = spec_spendable(obs.vault_lamports_before, obs.non_economic_floor_lamports);
    let after = spec_spendable(obs.vault_lamports_after, obs.non_economic_floor_lamports);
    let b = before->Ok_0;
    let a = after->Ok_0;
    let increase = a - b;
    let pending_after = config.accounted_pending_sol_lamports + increase;
    let next = PivConfig { accounted_pending_sol_lamports: pending_after as u64, ..config };
    if config.spec_validate() is Err {
        Err(config.spec_validate()->Err_0)
    } else if round.spec_validate() is Err {
        Err(round.spec_validate()->Err_0)
    } else if expected == 0 {
        Err(Piv1Error::ZeroContribution)
    } else if before is Err {
        Err(before->Err_0)
    } else if after is Err {
        Err(after->Err_0)
    } else if a < b {
        Err(Piv1Error::CustodyBalanceDecreased)
    } else if increase != expected {
        Err(Piv1Error::ContributionObservationMismatch)
    } else if pending_after > u64::MAX {
        Err(Piv1Error::ArithmeticOverflow)
    } else if config.accounted_pending_sol_lamports > b || pending_after > a {
        Err(Piv1Error::PendingCustodyDeficit)
    } else if next.spec_validate() is Err {
        Err(next.spec_validate()->Err_0)
    } else {
        Ok(
            (
                next,
                ExplicitContributionRecord {
                    observed_increase: increase as u64,
                    accounted_pending_after: pending_after as u64,
                },
            ),
        )
    }
}

/// Records an explicit positive native contribution from exact custody
/// balances. Pause is not a gate: value already in custody must stay
/// identifiable as pending. On any error the configuration is unchanged.
pub fn record_explicit_sol_contribution(
    config: &mut PivConfig,
    active_distribution: &ActiveDistribution,
    expected_contribution_lamports: u64,
    observation: SolCustodyObservation,
) -> (r: Piv1Result<ExplicitContributionRecord>)
    ensures
        match spec_explicit_sol(
            *old(config),
            *active_distribution,
            expected_contribution_lamports,
            observation,
        ) {
            Ok((c, rec)) => r == Ok::<ExplicitContributionRecord, Piv1Error>(rec) && *final(config)
                == c,
            Err(e) => r == Err::<ExplicitContributionRecord, Piv1Error>(e) && *final(config) == *old(
                config,
            ),
        },
{
    config.validate_initialized()?;
    active_distribution.validate()?;
    if expected_contribution_lamports == 0 {
        return Err(Piv1Error::ZeroContribution);
    }
    let spendable_before = spendable_sol_lamports(
        observation.vault_lamports_before,
        observation.non_economic_floor_lamports,
    )?;
    let spendable_after = spendable_sol_lamports(
        observation.vault_lamports_after,
        observation.non_economic_floor_lamports,
    )?;
    let observed_increase = match spendable_after.checked_sub(spendable_before) {
        Some(v) => v,
        None => return Err(Piv1Error::CustodyBalanceDecreased),
    };
    if observed_increase != expected_contribution_lamports {
        return Err(Piv1Error::ContributionObservationMismatch);
    }
    let accounted_pending_after = match config.accounted_pending_sol_lamports.checked_add(
        observed_increase,
    ) {
        Some(v) => v,
        None => return Err(Piv1Error::ArithmeticOverflow),
    };
    if config.accounted_pending_sol_lamports > spendable_before || accounted_pending_after
        > spendable_after {
        return Err(Piv1Error::PendingCustodyDeficit);
    }
    let mut next_config = *config;
    next_config.accounted_pending_sol_lamports = accounted_pending_after;
    next_config.validate_initialized()?;
    *config = next_config;
    Ok(ExplicitContributionRecord { observed_increase, accounted_pending_after })
}

/// Outcome of recording an explicit JitoSOL contribution: the new
/// configuration and the record.
pub open spec fn spec_explicit_jitosol(
    config: PivConfig,
    round: ActiveDistribution,
    expected: u64,
    obs: JitoSolCustodyObservation,
) -> Piv1Result<(PivConfig, ExplicitContributionRecord)> {
    let increase = obs.token_units_after - obs.token_units_before;
    let pending_after = config.accounted_pending_jitosol_units + increase;
    let next = PivConfig { accounted_pending_jitosol_units: pending_after as u64, ..config };
    if config.spec_validate() is Err {
        Err(config.spec_validate()->Err_0)
    } else if round.spec_validate() is Err {
        Err(round.spec_validate()->Err_0)
    } else if expected == 0 {
        Err(Piv1Error::ZeroContribution)
    } else if obs.token_units_after < obs.token_units_before {
        Err(Piv1Error::CustodyBalanceDecreased)
    } else if increase != expected {
        Err(Piv1Error::ContributionObservationMismatch)
    } else if pending_after > u64::MAX {
        Err(Piv1Error::ArithmeticOverflow)
    } else if config.accounted_pending_jitosol_units > obs.token_units_before || pending_after
        > obs.token_units_after {
        Err(Piv1Error::PendingCustodyDeficit)
    } else if next.spec_validate() is Err {
        Err(next.spec_validate()->Err_0)
    } else {
        Ok(
            (
                next,
                ExplicitContributionRecord {
                    observed_increase: increase as u64,
                    accounted_pending_after: pending_after as u64,
                },
            ),
        )
    }
}

/// Records an explicit positive JitoSOL contribution from exact decoded token
/// amounts; only the pending JitoSOL ledger changes. On any error the
/// configuration is unchanged.
pub fn record_explicit_jitosol_contribution(
    config: &mut PivConfig,
    active_distribution: &ActiveDistribution,
    expected_contribution_units: u64,
    observation: JitoSolCustodyObservation,
) -> (r: Piv1Result<ExplicitContributionRecord>)
    ensures
        match spec_explicit_jitosol(
            *old(config),
            *active_distribution,
            expected_contribution_units,
            observation,
        ) {
            Ok((c, rec)) => r == Ok::<ExplicitContributionRecord, Piv1Error>(rec) && *final(config)
                == c,
            Err(e) => r == Err::<ExplicitContributionRecord, Piv1Error>(e) && *final(config) == *old(
                config,
            ),
        },
{
    config.validate_initialized()?;
    active_distribution.validate()?;
    if expected_contribution_units == 0 {
        return Err(Piv1Error::ZeroContribution);
    }
    let observed_increase = match observation.token_units_after.checked_sub(
        observation.token_units_before,
    ) {
        Some(v) => v,
        None => return Err(Piv1Error::CustodyBalanceDecreased),
    };
    if observed_increase != expected_contribution_units {
        return Err(Piv1Error::ContributionObservationMismatch);
    }
    let accounted_pending_after = match config.accounted_pending_jitosol_units.checked_add(
        observed_increase,
    ) {
        Some(v) => v,
        None => return Err(Piv1Error::ArithmeticOverflow),
    };
    if config.accounted_pending_jitosol_units > observation.token_units_before
        || accounted_pending_after > observation.token_units_after {
        return Err(Piv1Error::PendingCustodyDeficit);
    }
    let mut next_config = *config;
    next_config.accounted_pending_jitosol_units = accounted_pending_after;
    next_config.validate_initialized()?;
    *config = next_config;
    Ok(ExplicitContributionRecord { observed_increase, accounted_pending_after })
}

/// Outcome of reconciling both pending vaults: each ledger advances to its
/// observed economic balance.
pub open spec fn spec_reconcile_pending(
    config: PivConfig,
    round: ActiveDistribution,
    obs: PendingCustodyObservation,
) -> Piv1Result<(PivConfig, PendingReconciliationResult)> {
    let current = spec_spendable(obs.pending_sol_vault_lamports, obs.pending_sol_non_economic_floor_lamports);
    let sol = current->Ok_0;
    let next = PivConfig {
        accounted_pending_sol_lamports: sol,
        accounted_pending_jitosol_units: obs.pending_jitosol_token_units,
        ..config
    };
    if config.spec_validate() is Err {
        Err(config.spec_validate()->Err_0)
    } else if round.spec_validate() is Err {
        Err(round.spec_validate()->Err_0)
    } else if current is Err {
        Err(current->Err_0)
    } else if sol < config.accounted_pending_sol_lamports || obs.pending_jitosol_token_units
        < config.accounted_pending_jitosol_units {
        Err(Piv1Error::PendingCustodyDeficit)
    } else if next.spec_validate() is Err {
        Err(next.spec_validate()->Err_0)
    } else {
        Ok(
            (
                next,
                PendingReconciliationResult {
                    newly_accounted_sol_lamports: (sol - config.accounted_pending_sol_lamports) as u64,
                    newly_accounted_jitosol_units: (obs.pending_jitosol_token_units
                        - config.accounted_pending_jitosol_units) as u64,
                    accounted_pending_sol_lamports_after: sol,
                    accounted_pending_jitosol_units_after: obs.pending_jitosol_token_units,
                },
            ),
        )
    }
}

/// Reconciles unexplained positive balances in both pending vaults. A deficit
/// in either asset rejects the whole operation; on any error the configuration
/// is unchanged. Reconciliation is idempotent.
pub fn reconcile_pending_contributions(
    config: &mut PivConfig,
    active_distribution: &ActiveDistribution,
    observation: PendingCustodyObservation,
) -> (r: Piv1Result<PendingReconciliationResult>)
    ensures
        match spec_reconcile_pending(*old(config), *active_distribution, observation) {
            Ok((c, res)) => r == Ok::<PendingReconciliationResult, Piv1Error>(res) && *final(config)
                == c,
            Err(e) => r == Err::<PendingReconciliationResult, Piv1Error>(e) && *final(config) == *old(
                config,
            ),
        },
{
    config.validate_initialized()?;
    active_distribution.validate()?;
    let current_spendable_sol = spendable_sol_lamports(
        observation.pending_sol_vault_lamports,
        observation.pending_sol_non_economic_floor_lamports,
    )?;
    let newly_accounted_sol_lamports = match current_spendable_sol.checked_sub(
        config.accounted_pending_sol_lamports,
    ) {
        Some(v) => v,
        None => return Err(Piv1Error::PendingCustodyDeficit),
    };
    let newly_accounted_jitosol_units = match observation.pending_jitosol_token_units.checked_sub(
        config.accounted_pending_jitosol_units,
    ) {
        Some(v) => v,
        None => return Err(Piv1Error::PendingCustodyDeficit),
    };
    let accounted_pending_sol_lamports_after = match config.accounted_pending_sol_lamports.checked_add(
        newly_accounted_sol_lamports,
    ) {
        Some(v) => v,
        None => return Err(Piv1Error::ArithmeticOverflow),
    };
    let accounted_pending_jitosol_units_after =
        match config.accounted_pending_jitosol_units.checked_add(newly_accounted_jitosol_units) {
        Some(v) => v,
        None => return Err(Piv1Error::ArithmeticOverflow),
    };
    if accounted_pending_sol_lamports_after != current_spendable_sol
        || accounted_pending_jitosol_units_after != observation.pending_jitosol_token_units {
        return Err(Piv1Error::ArithmeticOverflow);
    }
    let mut next_config = *config;
    next_config.accounted_pending_sol_lamports = accounted_pending_sol_lamports_after;
    next_config.accounted_pending_jitosol_units = accounted_pending_jitosol_units_after;
    next_config.validate_initialized()?;
    *config = next_config;
    Ok(
        PendingReconciliationResult {
            newly_accounted_sol_lamports,
            newly_accounted_jitosol_units,
            accounted_pending_sol_lamports_after,
            accounted_pending_jitosol_units_after,
        },
    )
}

} // verus!
