//! Phase-dependent economic custody obligations and exact normalization facts.
//!
//! These are derivations over custody observations. An active-round offset is
//! meaningful only when the surrounding operation committed the matching
//! custody movements together with the state transition.

use crate::errors::{lift, from_math, Piv1Error, Piv1Result};
use crate::integrations::stake_pool::{spec_pool_validate, PoolSnapshot};
use crate::math::{checked_mul_div_floor, spec_mul_div_floor};
use crate::state::config::PivConfig;
use crate::state::contributions::{
    reconcile_pending_contributions, spec_reconcile_pending, PendingCustodyObservation,
    PendingReconciliationResult,
};
use crate::state::distribution::{checked_add, checked_sub, ActiveDistribution, DistributionLifecycle};
use crate::state::transitions::PendingIntegrationInput;
use vstd::prelude::*;

verus! {

/// Total native balance and its externally validated non-economic floor.
#[derive(Clone, Copy, Debug, PartialEq, Eq, Structural)]
pub struct SolVaultBalance {
    pub lamports: u64,
    pub non_economic_floor_lamports: u64,
}

impl Default for SolVaultBalance {
    fn default() -> (r: SolVaultBalance)
        ensures
            r.lamports == 0 && r.non_economic_floor_lamports == 0,
    {
        SolVaultBalance { lamports: 0, non_economic_floor_lamports: 0 }
    }
}

impl SolVaultBalance {
    /// Economic balance above the floor.
    pub open spec fn spec_economic(self) -> Piv1Result<u64> {
        if self.lamports < self.non_economic_floor_lamports {
            Err(Piv1Error::InvalidCustodyObservation)
        } else {
            Ok((self.lamports - self.non_economic_floor_lamports) as u64)
        }
    }

    /// Returns the economic balance above the floor.
    pub fn economic_lamports(self) -> (r: Piv1Result<u64>)
        ensures
            r == self.spec_economic(),
    {
        match self.lamports.checked_sub(self.non_economic_floor_lamports) {
            Some(v) => Ok(v),
            None => Err(Piv1Error::InvalidCustodyObservation),
        }
    }
}

/// Fixed economic vault observations. Token-account lamports are not token units.
#[derive(Clone, Copy, Debug, PartialEq, Eq, Structural)]
pub struct EconomicCustodyObservation {
    pub pending_sol: SolVaultBalance,
    pub principal_sol: SolVaultBalance,
    pub distribution_escrow: SolVaultBalance,
    pub kif_sol: SolVaultBalance,
    pub pending_jitosol_units: u64,
    pub principal_jitosol_units: u64,
}

impl Default for EconomicCustodyObservation {
    fn default() -> (r: EconomicCustodyObservation)
        ensures
            r == (EconomicCustodyObservation {
                pending_sol: SolVaultBalance { lamports: 0, non_economic_floor_lamports: 0 },
                principal_sol: SolVaultBalance { lamports: 0, non_economic_floor_lamports: 0 },
                distribution_escrow: SolVaultBalance { lamports: 0, non_economic_floor_lamports: 0 },
                kif_sol: SolVaultBalance { lamports: 0, non_economic_floor_lamports: 0 },
                pending_jitosol_units: 0,
                principal_jitosol_units: 0,
            }),
    {
        EconomicCustodyObservation {
            pending_sol: SolVaultBalance::default(),
            principal_sol: SolVaultBalance::default(),
            distribution_escrow: SolVaultBalance::default(),
            kif_sol: SolVaultBalance::default(),
            pending_jitosol_units: 0,
            principal_jitosol_units: 0,
        }
    }
}

/// Bounded amounts, with independent native and token dimensions.
#[derive(Clone, Copy, Debug, PartialEq, Eq, Structural)]
pub struct EconomicVaultAmounts {
    pub pending_sol_lamports: u64,
    pub principal_sol_lamports: u64,
    pub escrow_sol_lamports: u64,
    pub kif_sol_lamports: u64,
    pub pending_jitosol_units: u64,
    pub principal_jitosol_units: u64,
}

/// The all-zero amounts.
pub open spec fn zero_amounts() -> EconomicVaultAmounts {
    EconomicVaultAmounts {
        pending_sol_lamports: 0,
        principal_sol_lamports: 0,
        escrow_sol_lamports: 0,
        kif_sol_lamports: 0,
        pending_jitosol_units: 0,
        principal_jitosol_units: 0,
    }
}

impl Default for EconomicVaultAmounts {
    fn default() -> (r: EconomicVaultAmounts)
        ensures
            r == zero_amounts(),
    {
        EconomicVaultAmounts {
            pending_sol_lamports: 0,
            principal_sol_lamports: 0,
            escrow_sol_lamports: 0,
            kif_sol_lamports: 0,
            pending_jitosol_units: 0,
            principal_jitosol_units: 0,
        }
    }
}

impl EconomicCustodyObservation {
    /// Economic amounts of every vault, failing on the first vault below its floor.
    pub open spec fn spec_amounts(self) -> Piv1Result<EconomicVaultAmounts> {
        if self.pending_sol.spec_economic() is Err {
            Err(self.pending_sol.spec_economic()->Err_0)
        } else if self.principal_sol.spec_economic() is Err {
            Err(self.principal_sol.spec_economic()->Err_0)
        } else if self.distribution_escrow.spec_economic() is Err {
            Err(self.distribution_escrow.spec_economic()->Err_0)
        } else if self.kif_sol.spec_economic() is Err {
            Err(self.kif_sol.spec_economic()->Err_0)
        } else {
            Ok(
                EconomicVaultAmounts {
                    pending_sol_lamports: self.pending_sol.spec_economic()->Ok_0,
                    principal_sol_lamports: self.principal_sol.spec_economic()->Ok_0,
                    escrow_sol_lamports: self.distribution_escrow.spec_economic()->Ok_0,
                    kif_sol_lamports: self.kif_sol.spec_economic()->Ok_0,
                    pending_jitosol_units: self.pending_jitosol_units,
                    principal_jitosol_units: self.principal_jitosol_units,
                },
            )
        }
    }

    /// The pending-vault part of the observation.
    pub open spec fn spec_pending(self) -> PendingCustodyObservation {
        PendingCustodyObservation {
            pending_sol_vault_lamports: self.pending_sol.lamports,
            pending_sol_non_economic_floor_lamports: self.pending_sol.non_economic_floor_lamports,
            pending_jitosol_token_units: self.pending_jitosol_units,
        }
    }

    /// True when every native vault keeps the same floor.
    pub open spec fn spec_same_floors(self, other: Self) -> bool {
        &&& self.pending_sol.non_economic_floor_lamports == other.pending_sol.non_economic_floor_lamports
        &&& self.principal_sol.non_economic_floor_lamports
            == other.principal_sol.non_economic_floor_lamports
        &&& self.distribution_escrow.non_economic_floor_lamports
            == other.distribution_escrow.non_economic_floor_lamports
        &&& self.kif_sol.non_economic_floor_lamports == other.kif_sol.non_economic_floor_lamports
    }

    /// Returns the economic amounts of every vault.
    pub fn amounts(self) -> (r: Piv1Result<EconomicVaultAmounts>)
        ensures
            r == self.spec_amounts(),
    {
        Ok(
            EconomicVaultAmounts {
                pending_sol_lamports: self.pending_sol.economic_lamports()?,
                principal_sol_lamports: self.principal_sol.economic_lamports()?,
                escrow_sol_lamports: self.distribution_escrow.economic_lamports()?,
                kif_sol_lamports: self.kif_sol.economic_lamports()?,
                pending_jitosol_units: self.pending_jitosol_units,
                principal_jitosol_units: self.principal_jitosol_units,
            },
        )
    }

    /// Returns the pending-vault part of the observation.
    pub fn pending(self) -> (r: PendingCustodyObservation)
        ensures
            r == self.spec_pending(),
    {
        PendingCustodyObservation {
            pending_sol_vault_lamports: self.pending_sol.lamports,
            pending_sol_non_economic_floor_lamports: self.pending_sol.non_economic_floor_lamports,
            pending_jitosol_token_units: self.pending_jitosol_units,
        }
    }

    /// Returns whether every native vault keeps the same floor.
    pub fn same_floors(self, other: Self) -> (r: bool)
        ensures
            r == self.spec_same_floors(other),
    {
        self.pending_sol.non_economic_floor_lamports == other.pending_sol.non_economic_floor_lamports
            && self.principal_sol.non_economic_floor_lamports
            == other.principal_sol.non_economic_floor_lamports
            && self.distribution_escrow.non_economic_floor_lamports
            == other.distribution_escrow.non_economic_floor_lamports
            && self.kif_sol.non_economic_floor_lamports == other.kif_sol.non_economic_floor_lamports
    }
}

/// Missing evidence is not a zero surplus or authority to sweep reserve custody.
#[derive(Clone, Copy, Debug, PartialEq, Eq, Structural)]
pub enum OperationalSurplusAssessment {
    UnsupportedFundingBaseline,
}

/// Validates the observed floor without inferring reserve excess from the balance.
pub fn assess_operational_surplus(observation: SolVaultBalance) -> (r: Piv1Result<
    OperationalSurplusAssessment,
>)
    ensures
        observation.spec_economic() is Err ==> r == Err::<OperationalSurplusAssessment, Piv1Error>(
            observation.spec_economic()->Err_0,
        ),
        observation.spec_economic() is Ok ==> r == Ok::<OperationalSurplusAssessment, Piv1Error>(
            OperationalSurplusAssessment::UnsupportedFundingBaseline,
        ),
{
    observation.economic_lamports()?;
    Ok(OperationalSurplusAssessment::UnsupportedFundingBaseline)
}

/// Outcome of checking the cross-object facts that every committed
/// active-round offset relies on.
pub open spec fn spec_custody_binding(config: PivConfig, round: ActiveDistribution) -> Piv1Result<()> {
    let snap_tokens = lift(
        spec_mul_div_floor(
            round.historical_jitosol_units,
            round.snapshot_pool_total_lamports,
            round.snapshot_pool_token_supply,
        ),
    );
    let snapshot_value = round.historical_sol_lamports + snap_tokens->Ok_0;
    let settled = round.lifecycle == DistributionLifecycle::Settled;
    let expected_hwm = if settled {
        round.settled_protected_hwm_lamports
    } else {
        round.old_protected_principal_lamports
    };
    let expected_carry = if settled {
        round.cumulative_cooldown_rewards_lamports
    } else {
        0
    };
    let expected_kif_carry = if settled {
        round.actual_kif_carry_next_lamports
    } else {
        round.kif_carry_input_lamports
    };
    if config.spec_validate() is Err {
        Err(config.spec_validate()->Err_0)
    } else if round.spec_validate() is Err {
        Err(round.spec_validate()->Err_0)
    } else if round.lifecycle == DistributionLifecycle::Idle {
        match round.last_completed {
            Some(summary) => if summary.sequence + 1 > u64::MAX {
                Err(Piv1Error::ArithmeticOverflow)
            } else if config.next_distribution_sequence != summary.sequence + 1 {
                Err(Piv1Error::SequenceMismatch)
            } else {
                Ok(())
            },
            None => Ok(()),
        }
    } else if round.active_sequence + 1 > u64::MAX {
        Err(Piv1Error::ArithmeticOverflow)
    } else if config.next_distribution_sequence != round.active_sequence + 1
        || (round.last_completed matches Some(s) && round.active_sequence <= s.sequence) {
        Err(Piv1Error::SequenceMismatch)
    } else if config.last_successful_preparation_at != Some(round.prepared_at)
        || config.accounted_historical_jitosol_units != round.historical_jitosol_units
        || config.accounted_historical_sol_lamports != round.historical_sol_lamports
        || config.accounted_pending_sol_lamports < round.pending_sol_snapshot_lamports
        || round.fixed_jitosol_withdrawal_target_units > round.historical_jitosol_units
        || round.historical_jitosol_units > round.snapshot_pool_token_supply {
        Err(Piv1Error::CumulativeReconciliationMismatch)
    } else if snap_tokens is Err {
        Err(snap_tokens->Err_0)
    } else if snapshot_value > u64::MAX {
        Err(Piv1Error::ArithmeticOverflow)
    } else if snapshot_value != round.historical_value_lamports {
        Err(Piv1Error::CumulativeReconciliationMismatch)
    } else if config.protected_principal_hwm_lamports != expected_hwm
        || config.next_cycle_yield_lamports != expected_carry || config.collective_kif_carry_lamports
        != expected_kif_carry {
        Err(Piv1Error::CumulativeReconciliationMismatch)
    } else {
        Ok(())
    }
}

/// Checks the derivable relationships between configuration and round that
/// every committed active-round offset relies on.
pub fn validate_custody_state_binding(config: &PivConfig, round: &ActiveDistribution) -> (r:
    Piv1Result<()>)
    ensures
        r == spec_custody_binding(*config, *round),
{
    config.validate_initialized()?;
    round.validate()?;
    if round.lifecycle == DistributionLifecycle::Idle {
        match round.last_completed {
            Some(summary) => {
                if config.next_distribution_sequence != checked_add(summary.sequence, 1)? {
                    return Err(Piv1Error::SequenceMismatch);
                }
            },
            None => {},
        }
        return Ok(());
    }
    let stale = match round.last_completed {
        Some(s) => round.active_sequence <= s.sequence,
        None => false,
    };
    if config.next_distribution_sequence != checked_add(round.active_sequence, 1)? || stale {
        return Err(Piv1Error::SequenceMismatch);
    }
    let prepared_matches = match config.last_successful_preparation_at {
        Some(t) => t == round.prepared_at,
        None => false,
    };
    if !prepared_matches || config.accounted_historical_jitosol_units
        != round.historical_jitosol_units || config.accounted_historical_sol_lamports
        != round.historical_sol_lamports || config.accounted_pending_sol_lamports
        < round.pending_sol_snapshot_lamports || round.fixed_jitosol_withdrawal_target_units
        > round.historical_jitosol_units || round.historical_jitosol_units
        > round.snapshot_pool_token_supply {
        return Err(Piv1Error::CumulativeReconciliationMismatch);
    }
    let snapshot_tokens = match checked_mul_div_floor(
        round.historical_jitosol_units,
        round.snapshot_pool_total_lamports,
        round.snapshot_pool_token_supply,
    ) {
        Ok(v) => v,
        Err(e) => return Err(from_math(e)),
    };
    let snapshot_value = checked_add(round.historical_sol_lamports, snapshot_tokens)?;
    if snapshot_value != round.historical_value_lamports {
        return Err(Piv1Error::CumulativeReconciliationMismatch);
    }
    let settled = round.lifecycle == DistributionLifecycle::Settled;
    let expected_hwm = if settled {
        round.settled_protected_hwm_lamports
    } else {
        round.old_protected_principal_lamports
    };
    let expected_carry = if settled {
        round.cumulative_cooldown_rewards_lamports
    } else {
        0
    };
    let expected_kif_carry = if settled {
        round.actual_kif_carry_next_lamports
    } else {
        round.kif_carry_input_lamports
    };
    if config.protected_principal_hwm_lamports != expected_hwm || config.next_cycle_yield_lamports
        != expected_carry || config.collective_kif_carry_lamports != expected_kif_carry {
        return Err(Piv1Error::CumulativeReconciliationMismatch);
    }
    Ok(())
}

/// Canonical physical pending SOL obligation.
pub open spec fn spec_expected_pending_sol(config: PivConfig, round: ActiveDistribution) -> Piv1Result<u64> {
    let used: u64 = if round.lifecycle == DistributionLifecycle::Idle {
        0
    } else {
        round.pending_sol_used_lamports
    };
    if spec_custody_binding(config, round) is Err {
        Err(spec_custody_binding(config, round)->Err_0)
    } else if config.accounted_pending_sol_lamports < used {
        Err(Piv1Error::CumulativeReconciliationMismatch)
    } else {
        Ok((config.accounted_pending_sol_lamports - used) as u64)
    }
}

/// Returns the canonical physical pending SOL obligation: the ledger keeps
/// full recognized value until integration, including SOL this round used.
pub fn expected_pending_sol_lamports(config: &PivConfig, round: &ActiveDistribution) -> (r: Piv1Result<
    u64,
>)
    ensures
        r == spec_expected_pending_sol(*config, *round),
{
    validate_custody_state_binding(config, round)?;
    let used = if round.lifecycle == DistributionLifecycle::Idle {
        0
    } else {
        round.pending_sol_used_lamports
    };
    checked_sub(config.accounted_pending_sol_lamports, used)
}

/// Expected economic custody of every vault in the current phase.
pub open spec fn spec_obligations(config: PivConfig, round: ActiveDistribution) -> Piv1Result<
    EconomicVaultAmounts,
> {
    let pending = spec_expected_pending_sol(config, round);
    let active = round.lifecycle != DistributionLifecycle::Idle;
    let assigned: u64 = if active {
        round.cumulative_jitosol_assigned_units
    } else {
        0
    };
    let prior = round.spec_prior_used();
    let unused_prior = round.prior_next_cycle_yield_lamports - prior->Ok_0;
    let active_extra = unused_prior + round.actual_zero_active_kif_compound_lamports;
    let principal_extra: int = if active {
        active_extra
    } else {
        config.next_cycle_yield_lamports as int
    };
    let e1 = round.pending_sol_used_lamports + prior->Ok_0;
    let e2 = e1 + round.cumulative_finalized_native_lamports;
    let escrow: int = if !active {
        0
    } else if round.lifecycle == DistributionLifecycle::Settled {
        round.actual_escrow_remainder_lamports as int
    } else {
        e2 - round.cumulative_recovered_stake_rent_lamports
    };
    let principal_sol = config.accounted_historical_sol_lamports + principal_extra;
    let kif = config.kif_claim_liability_lamports + config.collective_kif_carry_lamports;
    if pending is Err {
        Err(pending->Err_0)
    } else if active && prior is Err {
        Err(prior->Err_0)
    } else if active && (unused_prior < 0 || active_extra > u64::MAX) {
        Err(if unused_prior < 0 {
            Piv1Error::CumulativeReconciliationMismatch
        } else {
            Piv1Error::ArithmeticOverflow
        })
    } else if active && round.lifecycle != DistributionLifecycle::Settled && (e1 > u64::MAX || e2
        > u64::MAX) {
        Err(Piv1Error::ArithmeticOverflow)
    } else if active && round.lifecycle != DistributionLifecycle::Settled && escrow < 0 {
        Err(Piv1Error::CumulativeReconciliationMismatch)
    } else if principal_sol > u64::MAX {
        Err(Piv1Error::ArithmeticOverflow)
    } else if config.accounted_historical_jitosol_units < assigned {
        Err(Piv1Error::CumulativeReconciliationMismatch)
    } else if kif > u64::MAX {
        Err(Piv1Error::ArithmeticOverflow)
    } else {
        Ok(
            EconomicVaultAmounts {
                pending_sol_lamports: pending->Ok_0,
                pending_jitosol_units: config.accounted_pending_jitosol_units,
                principal_sol_lamports: principal_sol as u64,
                principal_jitosol_units: (config.accounted_historical_jitosol_units - assigned) as u64,
                escrow_sol_lamports: escrow as u64,
                kif_sol_lamports: kif as u64,
            },
        )
    }
}

/// Derives expected custody: carry sits in principal SOL at Idle, new
/// cooldown yield stays in escrow through settlement, and zero-active KIF
/// compound moves into principal at settlement.
pub fn economic_custody_obligations(config: &PivConfig, round: &ActiveDistribution) -> (r: Piv1Result<
    EconomicVaultAmounts,
>)
    ensures
        r == spec_obligations(*config, *round),
{
    let pending_sol_lamports = expected_pending_sol_lamports(config, round)?;
    let active = round.lifecycle != DistributionLifecycle::Idle;
    let assigned = if active {
        round.cumulative_jitosol_assigned_units
    } else {
        0
    };
    let principal_extra = if active {
        let used = round.prior_next_cycle_yield_used_lamports()?;
        checked_add(
            checked_sub(round.prior_next_cycle_yield_lamports, used)?,
            round.actual_zero_active_kif_compound_lamports,
        )?
    } else {
        config.next_cycle_yield_lamports
    };
    let escrow_sol_lamports = if !active {
        0
    } else if round.lifecycle == DistributionLifecycle::Settled {
        round.actual_escrow_remainder_lamports
    } else {
        let used = round.prior_next_cycle_yield_used_lamports()?;
        checked_sub(
            checked_add(
                checked_add(round.pending_sol_used_lamports, used)?,
                round.cumulative_finalized_native_lamports,
            )?,
            round.cumulative_recovered_stake_rent_lamports,
        )?
    };
    let principal_sol_lamports = checked_add(config.accounted_historical_sol_lamports, principal_extra)?;
    let principal_jitosol_units = checked_sub(config.accounted_historical_jitosol_units, assigned)?;
    let kif_sol_lamports = checked_add(
        config.kif_claim_liability_lamports,
        config.collective_kif_carry_lamports,
    )?;
    Ok(
        EconomicVaultAmounts {
            pending_sol_lamports,
            pending_jitosol_units: config.accounted_pending_jitosol_units,
            principal_sol_lamports,
            principal_jitosol_units,
            escrow_sol_lamports,
            kif_sol_lamports,
        },
    )
}

/// True when every observed amount covers its own obligation.
pub open spec fn covers(actual: EconomicVaultAmounts, expected: EconomicVaultAmounts) -> bool {
    &&& actual.pending_sol_lamports >= expected.pending_sol_lamports
    &&& actual.principal_sol_lamports >= expected.principal_sol_lamports
    &&& actual.escrow_sol_lamports >= expected.escrow_sol_lamports
    &&& actual.kif_sol_lamports >= expected.kif_sol_lamports
    &&& actual.pending_jitosol_units >= expected.pending_jitosol_units
    &&& actual.principal_jitosol_units >= expected.principal_jitosol_units
}

/// Component-wise excess of `actual` over `expected`.
pub open spec fn excess(actual: EconomicVaultAmounts, expected: EconomicVaultAmounts) -> EconomicVaultAmounts {
    EconomicVaultAmounts {
        pending_sol_lamports: (actual.pending_sol_lamports - expected.pending_sol_lamports) as u64,
        principal_sol_lamports: (actual.principal_sol_lamports - expected.principal_sol_lamports) as u64,
        escrow_sol_lamports: (actual.escrow_sol_lamports - expected.escrow_sol_lamports) as u64,
        kif_sol_lamports: (actual.kif_sol_lamports - expected.kif_sol_lamports) as u64,
        pending_jitosol_units: (actual.pending_jitosol_units - expected.pending_jitosol_units) as u64,
        principal_jitosol_units: (actual.principal_jitosol_units - expected.principal_jitosol_units)
            as u64,
    }
}

/// Outcome of measuring custody excess over every vault's own obligation.
pub open spec fn spec_surplus(
    config: PivConfig,
    round: ActiveDistribution,
    observed: EconomicCustodyObservation,
) -> Piv1Result<EconomicVaultAmounts> {
    let expected = spec_obligations(config, round);
    let actual = observed.spec_amounts();
    if expected is Err {
        Err(expected->Err_0)
    } else if actual is Err {
        Err(actual->Err_0)
    } else if !covers(actual->Ok_0, expected->Ok_0) {
        Err(Piv1Error::EconomicCustodyDeficit)
    } else {
        Ok(excess(actual->Ok_0, expected->Ok_0))
    }
}

fn deficit_checked_sub(actual: u64, expected: u64) -> (r: Piv1Result<u64>)
    ensures
        actual < expected ==> r == Err::<u64, Piv1Error>(Piv1Error::EconomicCustodyDeficit),
        actual >= expected ==> r == Ok::<u64, Piv1Error>((actual - expected) as u64),
{
    match actual.checked_sub(expected) {
        Some(v) => Ok(v),
        None => Err(Piv1Error::EconomicCustodyDeficit),
    }
}

/// Returns the excess of every vault over its own obligation; a deficit in any
/// vault is reported even if another vault holds excess.
pub fn economic_custody_surplus(
    config: &PivConfig,
    round: &ActiveDistribution,
    observed: EconomicCustodyObservation,
) -> (r: Piv1Result<EconomicVaultAmounts>)
    ensures
        r == spec_surplus(*config, *round, observed),
{
    let expected = economic_custody_obligations(config, round)?;
    let actual = observed.amounts()?;
    Ok(
        EconomicVaultAmounts {
            pending_sol_lamports: deficit_checked_sub(
                actual.pending_sol_lamports,
                expected.pending_sol_lamports,
            )?,
            principal_sol_lamports: deficit_checked_sub(
                actual.principal_sol_lamports,
                expected.principal_sol_lamports,
            )?,
            escrow_sol_lamports: deficit_checked_sub(
                actual.escrow_sol_lamports,
                expected.escrow_sol_lamports,
            )?,
            kif_sol_lamports: deficit_checked_sub(actual.kif_sol_lamports, expected.kif_sol_lamports)?,
            pending_jitosol_units: deficit_checked_sub(
                actual.pending_jitosol_units,
                expected.pending_jitosol_units,
            )?,
            principal_jitosol_units: deficit_checked_sub(
                actual.principal_jitosol_units,
                expected.principal_jitosol_units,
            )?,
        },
    )
}

/// Outcome of recording a normalization: every economic excess moved into the
/// dedicated pending vaults and was recognized there in the same record.
pub open spec fn spec_normalization(
    config: PivConfig,
    round: ActiveDistribution,
    before: EconomicCustodyObservation,
    after: EconomicCustodyObservation,
) -> Piv1Result<(PivConfig, PendingReconciliationResult)> {
    let surplus = spec_surplus(config, round, before);
    let s = surplus->Ok_0;
    let m1 = s.principal_sol_lamports + s.escrow_sol_lamports;
    let moved = m1 + s.kif_sol_lamports;
    let moves = moved != 0 || s.principal_jitosol_units != 0;
    let ab = before.spec_amounts()->Ok_0;
    let p_sol = ab.pending_sol_lamports + moved;
    let p_jit = ab.pending_jitosol_units + s.principal_jitosol_units;
    let expected_after = EconomicVaultAmounts {
        pending_sol_lamports: p_sol as u64,
        pending_jitosol_units: p_jit as u64,
        ..spec_obligations(config, round)->Ok_0
    };
    let rec = spec_reconcile_pending(config, round, after.spec_pending());
    let post = spec_surplus(rec->Ok_0.0, round, after);
    if surplus is Err {
        Err(surplus->Err_0)
    } else if m1 > u64::MAX || moved > u64::MAX {
        Err(Piv1Error::ArithmeticOverflow)
    } else if moves && config.spec_unpaused() is Err {
        Err(config.spec_unpaused()->Err_0)
    } else if moves && round.lifecycle == DistributionLifecycle::RecoveryRequired {
        Err(Piv1Error::RecoveryRequired)
    } else if p_sol > u64::MAX || p_jit > u64::MAX {
        Err(Piv1Error::ArithmeticOverflow)
    } else if !before.spec_same_floors(after) {
        Err(Piv1Error::ContributionObservationMismatch)
    } else if after.spec_amounts() is Err {
        Err(after.spec_amounts()->Err_0)
    } else if after.spec_amounts()->Ok_0 != expected_after {
        Err(Piv1Error::ContributionObservationMismatch)
    } else if rec is Err {
        Err(rec->Err_0)
    } else if post is Err {
        Err(post->Err_0)
    } else if post->Ok_0 != zero_amounts() {
        Err(Piv1Error::CumulativeReconciliationMismatch)
    } else {
        Ok(rec->Ok_0)
    }
}

/// Records a normalization only after exact matched movements from every
/// economic source vault to the pending vaults; existing pending excess is
/// recognized in the same record. Movement-bearing normalization is gated by
/// pause and recovery. On any error the configuration is unchanged.
#[verifier::rlimit(30)]
pub fn record_economic_normalization(
    config: &mut PivConfig,
    round: &ActiveDistribution,
    before: EconomicCustodyObservation,
    after: EconomicCustodyObservation,
) -> (r: Piv1Result<PendingReconciliationResult>)
    ensures
        match spec_normalization(*old(config), *round, before, after) {
            Ok((c, res)) => r == Ok::<PendingReconciliationResult, Piv1Error>(res) && *final(config)
                == c,
            Err(e) => r == Err::<PendingReconciliationResult, Piv1Error>(e) && *final(config) == *old(
                config,
            ),
        },
{
    let surplus = economic_custody_surplus(config, round, before)?;
    let moved_sol = checked_add(
        checked_add(surplus.principal_sol_lamports, surplus.escrow_sol_lamports)?,
        surplus.kif_sol_lamports,
    )?;
    if moved_sol != 0 || surplus.principal_jitosol_units != 0 {
        config.ensure_unpaused()?;
        if round.lifecycle == DistributionLifecycle::RecoveryRequired {
            return Err(Piv1Error::RecoveryRequired);
        }
    }
    let mut expected_after = economic_custody_obligations(config, round)?;
    let actual_before = before.amounts()?;
    expected_after.pending_sol_lamports = checked_add(actual_before.pending_sol_lamports, moved_sol)?;
    expected_after.pending_jitosol_units = checked_add(
        actual_before.pending_jitosol_units,
        surplus.principal_jitosol_units,
    )?;
    if !before.same_floors(after) {
        return Err(Piv1Error::ContributionObservationMismatch);
    }
    if after.amounts()? != expected_after {
        return Err(Piv1Error::ContributionObservationMismatch);
    }
    let mut next = *config;
    let result = reconcile_pending_contributions(&mut next, round, after.pending())?;
    if economic_custody_surplus(&next, round, after)? != EconomicVaultAmounts::default() {
        return Err(Piv1Error::CumulativeReconciliationMismatch);
    }
    *config = next;
    Ok(result)
}

/// Conservative book value of `units` pool tokens over a validated pool observation.
pub open spec fn spec_book_value(units: u64, pool: PoolSnapshot) -> Piv1Result<u64> {
    if spec_pool_validate(pool) is Err {
        Err(Piv1Error::InvalidCustodyObservation)
    } else if units > pool.pool_token_supply {
        Err(Piv1Error::InvalidCustodyObservation)
    } else if pool.pool_token_supply == 0 {
        Ok(0)
    } else {
        lift(spec_mul_div_floor(units, pool.total_pool_lamports, pool.pool_token_supply))
    }
}

/// Returns the floored native value of `units` pool tokens at the pool's ratio.
pub fn observed_token_book_value(units: u64, pool: PoolSnapshot) -> (r: Piv1Result<u64>)
    ensures
        r == spec_book_value(units, pool),
{
    if pool.validate().is_err() {
        return Err(Piv1Error::InvalidCustodyObservation);
    }
    if units > pool.pool_token_supply {
        return Err(Piv1Error::InvalidCustodyObservation);
    }
    if pool.pool_token_supply == 0 {
        return if units == 0 {
            Ok(0)
        } else {
            Err(Piv1Error::InvalidCustodyObservation)
        };
    }
    match checked_mul_div_floor(units, pool.total_pool_lamports, pool.pool_token_supply) {
        Ok(v) => Ok(v),
        Err(e) => Err(from_math(e)),
    }
}

/// Outcome of deriving integration inputs from an exact before/after
/// normalization of pending and escrow custody into principal.
pub open spec fn spec_pending_integration(
    config: PivConfig,
    round: ActiveDistribution,
    completed_at: i64,
    pool: PoolSnapshot,
    before: EconomicCustodyObservation,
    after: EconomicCustodyObservation,
) -> Piv1Result<PendingIntegrationInput> {
    let surplus = spec_surplus(config, round, before);
    let b = before.spec_amounts()->Ok_0;
    let ps1 = b.principal_sol_lamports + b.pending_sol_lamports;
    let ps2 = ps1 + b.escrow_sol_lamports;
    let pj = b.principal_jitosol_units + b.pending_jitosol_units;
    let expected_after = EconomicVaultAmounts {
        pending_sol_lamports: 0,
        pending_jitosol_units: 0,
        escrow_sol_lamports: 0,
        principal_sol_lamports: ps2 as u64,
        principal_jitosol_units: pj as u64,
        ..b
    };
    let bv = spec_book_value(config.accounted_pending_jitosol_units, pool);
    let contribution = config.accounted_pending_sol_lamports + bv->Ok_0;
    let new_sol = ps2 - config.next_cycle_yield_lamports;
    let hwm = config.protected_principal_hwm_lamports + contribution;
    let bv2 = spec_book_value(pj as u64, pool);
    let protected = new_sol + bv2->Ok_0;
    if config.spec_unpaused() is Err {
        Err(config.spec_unpaused()->Err_0)
    } else if round.lifecycle != DistributionLifecycle::Settled {
        Err(Piv1Error::InvalidLifecycle)
    } else if surplus is Err {
        Err(surplus->Err_0)
    } else if surplus->Ok_0 != zero_amounts() {
        Err(Piv1Error::InvalidCustodyObservation)
    } else if ps1 > u64::MAX || ps2 > u64::MAX || pj > u64::MAX {
        Err(Piv1Error::ArithmeticOverflow)
    } else if !before.spec_same_floors(after) {
        Err(Piv1Error::ContributionObservationMismatch)
    } else if after.spec_amounts() is Err {
        Err(after.spec_amounts()->Err_0)
    } else if after.spec_amounts()->Ok_0 != expected_after {
        Err(Piv1Error::ContributionObservationMismatch)
    } else if bv is Err {
        Err(bv->Err_0)
    } else if contribution > u64::MAX {
        Err(Piv1Error::ArithmeticOverflow)
    } else if new_sol < 0 {
        Err(Piv1Error::CumulativeReconciliationMismatch)
    } else if hwm > u64::MAX {
        Err(Piv1Error::ArithmeticOverflow)
    } else if bv2 is Err {
        Err(bv2->Err_0)
    } else if protected > u64::MAX {
        Err(Piv1Error::ArithmeticOverflow)
    } else if protected < hwm {
        Err(Piv1Error::HighWaterMarkDecrease)
    } else {
        Ok(
            PendingIntegrationInput {
                sequence: round.active_sequence,
                completed_at,
                integrated_pending_sol_lamports: config.accounted_pending_sol_lamports,
                integrated_pending_jitosol_units: config.accounted_pending_jitosol_units,
                contribution_value_lamports: contribution as u64,
                new_accounted_historical_jitosol_units: pj as u64,
                new_accounted_historical_sol_lamports: new_sol as u64,
                new_protected_hwm_lamports: hwm as u64,
            },
        )
    }
}

/// Derives integration inputs from an exact physical normalization; no chosen
/// historical amount, contribution value or HWM is accepted.
#[verifier::rlimit(30)]
pub fn derive_pending_integration(
    config: &PivConfig,
    round: &ActiveDistribution,
    completed_at: i64,
    pool: PoolSnapshot,
    before: EconomicCustodyObservation,
    after: EconomicCustodyObservation,
) -> (r: Piv1Result<PendingIntegrationInput>)
    ensures
        r == spec_pending_integration(*config, *round, completed_at, pool, before, after),
{
    config.ensure_unpaused()?;
    if round.lifecycle != DistributionLifecycle::Settled {
        return Err(Piv1Error::InvalidLifecycle);
    }
    if economic_custody_surplus(config, round, before)? != EconomicVaultAmounts::default() {
        return Err(Piv1Error::InvalidCustodyObservation);
    }
    let b = before.amounts()?;
    let mut expected_after = b;
    expected_after.pending_sol_lamports = 0;
    expected_after.pending_jitosol_units = 0;
    expected_after.escrow_sol_lamports = 0;
    expected_after.principal_sol_lamports = checked_add(
        checked_add(b.principal_sol_lamports, b.pending_sol_lamports)?,
        b.escrow_sol_lamports,
    )?;
    expected_after.principal_jitosol_units = checked_add(
        b.principal_jitosol_units,
        b.pending_jitosol_units,
    )?;
    if !before.same_floors(after) {
        return Err(Piv1Error::ContributionObservationMismatch);
    }
    if after.amounts()? != expected_after {
        return Err(Piv1Error::ContributionObservationMismatch);
    }
    let contribution_value = checked_add(
        config.accounted_pending_sol_lamports,
        observed_token_book_value(config.accounted_pending_jitosol_units, pool)?,
    )?;
    let new_historical_sol = checked_sub(
        expected_after.principal_sol_lamports,
        config.next_cycle_yield_lamports,
    )?;
    let hwm = checked_add(config.protected_principal_hwm_lamports, contribution_value)?;
    let protected_value = checked_add(
        new_historical_sol,
        observed_token_book_value(expected_after.principal_jitosol_units, pool)?,
    )?;
    if protected_value < hwm {
        return Err(Piv1Error::HighWaterMarkDecrease);
    }
    Ok(
        PendingIntegrationInput {
            sequence: round.active_sequence,
            completed_at,
            integrated_pending_sol_lamports: config.accounted_pending_sol_lamports,
            integrated_pending_jitosol_units: config.accounted_pending_jitosol_units,
            contribution_value_lamports: contribution_value,
            new_accounted_historical_jitosol_units: expected_after.principal_jitosol_units,
            new_accounted_historical_sol_lamports: new_historical_sol,
            new_protected_hwm_lamports: hwm,
        },
    )
}

} // verus!
