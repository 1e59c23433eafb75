//! Initial pending-to-principal integration, before any economic history.
//! No distribution is created and nothing is transferred; SOL stays in the
//! principal queue.

use crate::errors::{Piv1Error, Piv1Result};
use crate::integrations::stake_pool::PoolSnapshot;
use crate::state::config::PivConfig;
use crate::state::distribution::{checked_add, ActiveDistribution, DistributionLifecycle};
use crate::state::reconciliation::{
    economic_custody_surplus, observed_token_book_value, spec_book_value, spec_custody_binding,
    spec_surplus, validate_custody_state_binding, zero_amounts, EconomicCustodyObservation,
    EconomicVaultAmounts,
};
use vstd::prelude::*;

verus! {

/// Initial holdings and the conservative contribution value integrated.
#[derive(Clone, Copy, Debug, PartialEq, Eq, Structural)]
pub struct InitialContributionBootstrap {
    pub integrated_sol_lamports: u64,
    pub integrated_jitosol_units: u64,
    pub contribution_value_lamports: u64,
}

/// True when no economic history exists yet: no completed round, no
/// preparation or insufficient attempt, and every cumulative ledger at zero.
pub open spec fn history_is_empty(config: PivConfig, round: ActiveDistribution) -> bool {
    &&& round.last_completed is None
    &&& config.last_successful_preparation_at is None
    &&& config.last_valid_insufficient_attempt_at is None
    &&& config.protected_principal_hwm_lamports == 0
    &&& config.accounted_historical_sol_lamports == 0
    &&& config.accounted_historical_jitosol_units == 0
    &&& config.next_cycle_yield_lamports == 0
    &&& config.kif_claim_liability_lamports == 0
    &&& config.collective_kif_carry_lamports == 0
    &&& config.cumulative_contribution_value_lamports == 0
    &&& config.cumulative_gross_yield_lamports == 0
    &&& config.cumulative_htfp_paid_lamports == 0
    &&& config.cumulative_team_owner_paid_lamports == 0
    &&& config.cumulative_kif_credited_lamports == 0
    &&& config.cumulative_kif_claimed_lamports == 0
    &&& config.cumulative_permanent_compound_lamports == 0
    &&& config.cumulative_retained_dust_lamports == 0
    &&& config.cumulative_zero_active_kif_compound_lamports == 0
    &&& config.cumulative_cooldown_yield_recorded_lamports == 0
}

/// Outcome of the initial integration: the new configuration and record.
pub open spec fn spec_bootstrap(
    config: PivConfig,
    round: ActiveDistribution,
    pool: PoolSnapshot,
    before: EconomicCustodyObservation,
    after: EconomicCustodyObservation,
) -> Piv1Result<(PivConfig, InitialContributionBootstrap)> {
    let sol = config.accounted_pending_sol_lamports;
    let tokens = config.accounted_pending_jitosol_units;
    let pre = spec_surplus(config, round, before);
    let expected_after = EconomicVaultAmounts {
        principal_sol_lamports: sol,
        principal_jitosol_units: tokens,
        ..zero_amounts()
    };
    let bv = spec_book_value(tokens, pool);
    let value = sol + bv->Ok_0;
    let next = PivConfig {
        accounted_pending_sol_lamports: 0,
        accounted_pending_jitosol_units: 0,
        accounted_historical_sol_lamports: sol,
        accounted_historical_jitosol_units: tokens,
        protected_principal_hwm_lamports: (config.protected_principal_hwm_lamports + value) as u64,
        cumulative_contribution_value_lamports: (config.cumulative_contribution_value_lamports
            + value) as u64,
        ..config
    };
    let post = spec_surplus(next, round, after);
    if config.spec_unpaused() is Err {
        Err(config.spec_unpaused()->Err_0)
    } else if spec_custody_binding(config, round) is Err {
        Err(spec_custody_binding(config, round)->Err_0)
    } else if round.bump != config.bumps.active_distribution {
        Err(Piv1Error::InvalidAccountPda)
    } else if round.lifecycle != DistributionLifecycle::Idle {
        Err(Piv1Error::InvalidLifecycle)
    } else if !history_is_empty(config, round) {
        Err(Piv1Error::InvalidBootstrapState)
    } else if sol == 0 && tokens == 0 {
        Err(Piv1Error::ZeroContribution)
    } else if pre is Err {
        Err(pre->Err_0)
    } else if pre->Ok_0 != zero_amounts() {
        Err(Piv1Error::InvalidCustodyObservation)
    } else if !before.spec_same_floors(after) {
        Err(Piv1Error::ContributionObservationMismatch)
    } else if after.spec_amounts() is Err {
        Err(after.spec_amounts()->Err_0)
    } else if after.spec_amounts()->Ok_0 != expected_after {
        Err(Piv1Error::ContributionObservationMismatch)
    } else if bv is Err {
        Err(bv->Err_0)
    } else if value > u64::MAX || config.protected_principal_hwm_lamports + value > u64::MAX
        || config.cumulative_contribution_value_lamports + value > u64::MAX {
        Err(Piv1Error::ArithmeticOverflow)
    } else if post is Err {
        Err(post->Err_0)
    } else if post->Ok_0 != zero_amounts() {
        Err(Piv1Error::CumulativeReconciliationMismatch)
    } else {
        Ok(
            (
                next,
                InitialContributionBootstrap {
                    integrated_sol_lamports: sol,
                    integrated_jitosol_units: tokens,
                    contribution_value_lamports: value as u64,
                },
            ),
        )
    }
}

/// Establishes initial principal from all recognized pending assets exactly
/// once, while every economic ledger is still zero. The Idle header and the
/// next sequence are preserved; no caller-chosen value or HWM is accepted.
/// On any error the configuration is unchanged.
#[verifier::rlimit(30)]
pub fn bootstrap_initial_contributions(
    config: &mut PivConfig,
    round: &ActiveDistribution,
    pool: PoolSnapshot,
    before: EconomicCustodyObservation,
    after: EconomicCustodyObservation,
) -> (r: Piv1Result<InitialContributionBootstrap>)
    ensures
        match spec_bootstrap(*old(config), *round, pool, before, after) {
            Ok((c, rec)) => r == Ok::<InitialContributionBootstrap, Piv1Error>(rec) && *final(config)
                == c,
            Err(e) => r == Err::<InitialContributionBootstrap, Piv1Error>(e) && *final(config)
                == *old(config),
        },
{
    config.ensure_unpaused()?;
    validate_custody_state_binding(config, round)?;
    if round.bump != config.bumps.active_distribution {
        return Err(Piv1Error::InvalidAccountPda);
    }
    if round.lifecycle != DistributionLifecycle::Idle {
        return Err(Piv1Error::InvalidLifecycle);
    }
    if round.last_completed.is_some() || config.last_successful_preparation_at.is_some()
        || config.last_valid_insufficient_attempt_at.is_some()
        || config.protected_principal_hwm_lamports != 0
        || config.accounted_historical_sol_lamports != 0
        || config.accounted_historical_jitosol_units != 0 || config.next_cycle_yield_lamports != 0
        || config.kif_claim_liability_lamports != 0 || config.collective_kif_carry_lamports != 0
        || config.cumulative_contribution_value_lamports != 0
        || config.cumulative_gross_yield_lamports != 0 || config.cumulative_htfp_paid_lamports != 0
        || config.cumulative_team_owner_paid_lamports != 0
        || config.cumulative_kif_credited_lamports != 0
        || config.cumulative_kif_claimed_lamports != 0
        || config.cumulative_permanent_compound_lamports != 0
        || config.cumulative_retained_dust_lamports != 0
        || config.cumulative_zero_active_kif_compound_lamports != 0
        || config.cumulative_cooldown_yield_recorded_lamports != 0 {
        return Err(Piv1Error::InvalidBootstrapState);
    }
    let sol = config.accounted_pending_sol_lamports;
    let tokens = config.accounted_pending_jitosol_units;
    if sol == 0 && tokens == 0 {
        return Err(Piv1Error::ZeroContribution);
    }
    if economic_custody_surplus(config, round, before)? != EconomicVaultAmounts::default() {
        return Err(Piv1Error::InvalidCustodyObservation);
    }
    let mut expected_after = EconomicVaultAmounts::default();
    expected_after.principal_sol_lamports = sol;
    expected_after.principal_jitosol_units = tokens;
    if !before.same_floors(after) {
        return Err(Piv1Error::ContributionObservationMismatch);
    }
    if after.amounts()? != expected_after {
        return Err(Piv1Error::ContributionObservationMismatch);
    }
    let contribution_value_lamports = checked_add(sol, observed_token_book_value(tokens, pool)?)?;
    let mut next = *config;
    next.accounted_pending_sol_lamports = 0;
    next.accounted_pending_jitosol_units = 0;
    next.accounted_historical_sol_lamports = sol;
    next.accounted_historical_jitosol_units = tokens;
    next.checked_increase_protected_principal_hwm(contribution_value_lamports)?;
    next.cumulative_contribution_value_lamports = checked_add(
        next.cumulative_contribution_value_lamports,
        contribution_value_lamports,
    )?;
    if economic_custody_surplus(&next, round, after)? != EconomicVaultAmounts::default() {
        return Err(Piv1Error::CumulativeReconciliationMismatch);
    }
    *config = next;
    Ok(
        InitialContributionBootstrap {
            integrated_sol_lamports: sol,
            integrated_jitosol_units: tokens,
            contribution_value_lamports,
        },
    )
}

} // verus!
