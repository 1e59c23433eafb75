//! Isolated payment of an already-earned KIF liability, including during
//! pause. A claim is staged completely before any interaction and committed
//! only against the exact pre-state and the predicted custody.

use crate::address::Pubkey;
use crate::errors::{Piv1Error, Piv1Result};
use crate::state::config::PivConfig;
use crate::state::distribution::checked_add;
use crate::state::guardian::GuardianReward;
use crate::state::reconciliation::SolVaultBalance;
use vstd::prelude::*;

verus! {

/// Positive requested payment and optimistic replay guard on the earned ledger.
#[derive(Clone, Copy, Debug, PartialEq, Eq, Structural)]
pub struct KifClaimRequest {
    pub amount_lamports: u64,
    pub expected_cumulative_claimed: u64,
}

/// Isolated source funding and the fixed guardian destination balance.
#[derive(Clone, Copy, Debug, PartialEq, Eq, Structural)]
pub struct KifClaimCustodyObservation {
    pub kif_sol: SolVaultBalance,
    pub guardian_lamports: u64,
}

/// Exact transfer derived from stored identities, never a caller-chosen payout.
#[derive(Clone, Copy, Debug, PartialEq, Eq, Structural)]
pub struct KifClaimTransfer {
    pub source: Pubkey,
    pub destination: Pubkey,
    pub amount_lamports: u64,
}

/// Staged effects of one claim. A copy of the plan cannot bypass the complete
/// pre-state equality and replay guard applied at commit.
#[derive(Clone, Debug, PartialEq, Eq)]
pub struct PreparedKifClaim {
    before_config: Box<PivConfig>,
    before_reward: GuardianReward,
    next_config: Box<PivConfig>,
    next_reward: GuardianReward,
    expected_after: KifClaimCustodyObservation,
    excess_lamports: u64,
    transfer: KifClaimTransfer,
}

/// Outcome of checking one reward record against the global KIF ledgers.
pub open spec fn spec_liability(config: PivConfig, reward: GuardianReward) -> Piv1Result<()> {
    if config.spec_validate() is Err {
        Err(config.spec_validate()->Err_0)
    } else if reward.spec_validate() is Err {
        Err(reward.spec_validate()->Err_0)
    } else if reward.cumulative_earned > config.cumulative_kif_credited_lamports
        || reward.cumulative_claimed > config.cumulative_kif_claimed_lamports
        || reward.claimable_lamports > config.kif_claim_liability_lamports {
        Err(Piv1Error::CumulativeReconciliationMismatch)
    } else {
        Ok(())
    }
}

/// Source lamports above its floor, the claim liability and the collective carry.
pub open spec fn spec_source_excess(config: PivConfig, source: SolVaultBalance) -> Piv1Result<u64> {
    let owed = config.kif_claim_liability_lamports + config.collective_kif_carry_lamports;
    let backing = source.non_economic_floor_lamports + owed;
    if owed > u64::MAX || backing > u64::MAX {
        Err(Piv1Error::ArithmeticOverflow)
    } else if source.lamports < backing {
        Err(Piv1Error::KifClaimBackingDeficit)
    } else {
        Ok((source.lamports - backing) as u64)
    }
}

/// Outcome of staging a claim: the next configuration, the next reward, the
/// predicted custody after payment and the untouched source excess.
pub open spec fn spec_prepare(
    config: PivConfig,
    reward: GuardianReward,
    request: KifClaimRequest,
    before: KifClaimCustodyObservation,
) -> Piv1Result<(PivConfig, GuardianReward, KifClaimCustodyObservation, u64)> {
    let amount = request.amount_lamports;
    let excess = spec_source_excess(config, before.kif_sol);
    let claimed = config.cumulative_kif_claimed_lamports + amount;
    let reward_claimed = reward.cumulative_claimed + amount;
    let guardian_after = before.guardian_lamports + amount;
    let next_config = PivConfig {
        kif_claim_liability_lamports: (config.kif_claim_liability_lamports - amount) as u64,
        cumulative_kif_claimed_lamports: claimed as u64,
        ..config
    };
    let next_reward = GuardianReward {
        claimable_lamports: (reward.claimable_lamports - amount) as u64,
        cumulative_claimed: reward_claimed as u64,
        ..reward
    };
    let expected_after = KifClaimCustodyObservation {
        kif_sol: SolVaultBalance {
            lamports: (before.kif_sol.lamports - amount) as u64,
            non_economic_floor_lamports: before.kif_sol.non_economic_floor_lamports,
        },
        guardian_lamports: guardian_after as u64,
    };
    let post = spec_source_excess(next_config, expected_after.kif_sol);
    if spec_liability(config, reward) is Err {
        Err(spec_liability(config, reward)->Err_0)
    } else if config.kif_sol_vault == reward.guardian {
        Err(Piv1Error::AccountAlias)
    } else if amount == 0 {
        Err(Piv1Error::ZeroKifClaim)
    } else if request.expected_cumulative_claimed != reward.cumulative_claimed {
        Err(Piv1Error::StaleKifClaim)
    } else if amount > reward.claimable_lamports || amount > config.kif_claim_liability_lamports {
        Err(Piv1Error::KifClaimExceeded)
    } else if excess is Err {
        Err(excess->Err_0)
    } else if claimed > u64::MAX || reward_claimed > u64::MAX {
        Err(Piv1Error::ArithmeticOverflow)
    } else if before.kif_sol.lamports < amount {
        Err(Piv1Error::KifClaimBackingDeficit)
    } else if guardian_after > u64::MAX {
        Err(Piv1Error::ArithmeticOverflow)
    } else if spec_liability(next_config, next_reward) is Err {
        Err(spec_liability(next_config, next_reward)->Err_0)
    } else if post is Err {
        Err(post->Err_0)
    } else if post->Ok_0 != excess->Ok_0 {
        Err(Piv1Error::KifClaimObservationMismatch)
    } else {
        Ok((next_config, next_reward, expected_after, excess->Ok_0))
    }
}

impl PreparedKifClaim {
    /// Configuration the plan was staged against.
    pub closed spec fn spec_before_config(self) -> PivConfig {
        *self.before_config
    }

    /// Reward record the plan was staged against.
    pub closed spec fn spec_before_reward(self) -> GuardianReward {
        self.before_reward
    }

    /// Configuration committed on success.
    pub closed spec fn spec_next_config(self) -> PivConfig {
        *self.next_config
    }

    /// Reward record committed on success.
    pub closed spec fn spec_next_reward(self) -> GuardianReward {
        self.next_reward
    }

    /// Predicted custody after payment.
    pub closed spec fn spec_expected_after(self) -> KifClaimCustodyObservation {
        self.expected_after
    }

    /// Source excess that payment must leave untouched.
    pub closed spec fn spec_excess(self) -> u64 {
        self.excess_lamports
    }

    /// The exact transfer of this plan.
    pub closed spec fn spec_transfer(self) -> KifClaimTransfer {
        self.transfer
    }

    /// Returns the exact transfer of this plan.
    pub fn transfer(&self) -> (r: KifClaimTransfer)
        ensures
            r == self.spec_transfer(),
    {
        self.transfer
    }

    /// Returns the staged configuration, reward and predicted custody.
    pub fn staged_execution_values(&self) -> (r: (PivConfig, GuardianReward, KifClaimCustodyObservation))
        ensures
            r == (self.spec_next_config(), self.spec_next_reward(), self.spec_expected_after()),
    {
        (*self.next_config, self.next_reward, self.expected_after)
    }

    /// Outcome of committing this plan against the live state and observed custody.
    pub open spec fn spec_commit(
        self,
        config: PivConfig,
        reward: GuardianReward,
        after: KifClaimCustodyObservation,
    ) -> Piv1Result<()> {
        let post = spec_source_excess(self.spec_next_config(), after.kif_sol);
        if config != self.spec_before_config() || reward != self.spec_before_reward() {
            Err(Piv1Error::KifClaimStateChanged)
        } else if after != self.spec_expected_after() {
            Err(Piv1Error::KifClaimObservationMismatch)
        } else if spec_liability(self.spec_next_config(), self.spec_next_reward()) is Err {
            Err(spec_liability(self.spec_next_config(), self.spec_next_reward())->Err_0)
        } else if post is Err {
            Err(post->Err_0)
        } else if post->Ok_0 != self.spec_excess() {
            Err(Piv1Error::KifClaimObservationMismatch)
        } else {
            Ok(())
        }
    }

    /// Validates the observed payment before replacing either state object;
    /// all preexisting source excess and the collective carry stay untouched.
    /// On any error neither object changes.
    pub fn commit(
        self,
        config: &mut PivConfig,
        reward: &mut GuardianReward,
        after: KifClaimCustodyObservation,
    ) -> (r: Piv1Result<KifClaimTransfer>)
        ensures
            match self.spec_commit(*old(config), *old(reward), after) {
                Ok(()) => r == Ok::<KifClaimTransfer, Piv1Error>(self.spec_transfer())
                    && *final(config) == self.spec_next_config()
                    && *final(reward) == self.spec_next_reward(),
                Err(e) => r == Err::<KifClaimTransfer, Piv1Error>(e) && *final(config) == *old(config)
                    && *final(reward) == *old(reward),
            },
    {
        if *config != *self.before_config || *reward != self.before_reward {
            return Err(Piv1Error::KifClaimStateChanged);
        }
        if after != self.expected_after {
            return Err(Piv1Error::KifClaimObservationMismatch);
        }
        validate_selected_liability(&self.next_config, &self.next_reward)?;
        if source_excess(&self.next_config, after.kif_sol)? != self.excess_lamports {
            return Err(Piv1Error::KifClaimObservationMismatch);
        }
        *config = *self.next_config;
        *reward = self.next_reward;
        Ok(self.transfer)
    }
}

/// Stages exact payment and all four accounting changes before any
/// interaction. Already-earned ownership survives later registry rotation
/// and inactivity; pause is deliberately not a gate.
pub fn prepare_kif_claim(
    config: &PivConfig,
    reward: &GuardianReward,
    request: KifClaimRequest,
    before: KifClaimCustodyObservation,
) -> (r: Piv1Result<PreparedKifClaim>)
    ensures
        match spec_prepare(*config, *reward, request, before) {
            Ok((c, w, a, x)) => r matches Ok(p) && p.spec_before_config() == *config
                && p.spec_before_reward() == *reward && p.spec_next_config() == c
                && p.spec_next_reward() == w && p.spec_expected_after() == a && p.spec_excess() == x
                && p.spec_transfer() == (KifClaimTransfer {
                source: config.kif_sol_vault,
                destination: reward.guardian,
                amount_lamports: request.amount_lamports,
            }),
            Err(e) => r == Err::<PreparedKifClaim, Piv1Error>(e),
        },
{
    validate_selected_liability(config, reward)?;
    if config.kif_sol_vault == reward.guardian {
        return Err(Piv1Error::AccountAlias);
    }
    if request.amount_lamports == 0 {
        return Err(Piv1Error::ZeroKifClaim);
    }
    if request.expected_cumulative_claimed != reward.cumulative_claimed {
        return Err(Piv1Error::StaleKifClaim);
    }
    if request.amount_lamports > reward.claimable_lamports || request.amount_lamports
        > config.kif_claim_liability_lamports {
        return Err(Piv1Error::KifClaimExceeded);
    }
    let excess_lamports = source_excess(config, before.kif_sol)?;
    let amount = request.amount_lamports;
    let mut next_config = *config;
    let mut next_reward = *reward;
    next_config.kif_claim_liability_lamports = match next_config.kif_claim_liability_lamports.checked_sub(
        amount,
    ) {
        Some(v) => v,
        None => return Err(Piv1Error::KifClaimExceeded),
    };
    next_config.cumulative_kif_claimed_lamports = checked_add(
        next_config.cumulative_kif_claimed_lamports,
        amount,
    )?;
    next_reward.claimable_lamports = match next_reward.claimable_lamports.checked_sub(amount) {
        Some(v) => v,
        None => return Err(Piv1Error::KifClaimExceeded),
    };
    next_reward.cumulative_claimed = checked_add(next_reward.cumulative_claimed, amount)?;
    let source_after = match before.kif_sol.lamports.checked_sub(amount) {
        Some(v) => v,
        None => return Err(Piv1Error::KifClaimBackingDeficit),
    };
    let expected_after = KifClaimCustodyObservation {
        kif_sol: SolVaultBalance {
            lamports: source_after,
            non_economic_floor_lamports: before.kif_sol.non_economic_floor_lamports,
        },
        guardian_lamports: checked_add(before.guardian_lamports, amount)?,
    };
    validate_selected_liability(&next_config, &next_reward)?;
    if source_excess(&next_config, expected_after.kif_sol)? != excess_lamports {
        return Err(Piv1Error::KifClaimObservationMismatch);
    }
    Ok(
        PreparedKifClaim {
            before_config: Box::new(*config),
            before_reward: *reward,
            next_config: Box::new(next_config),
            next_reward,
            expected_after,
            excess_lamports,
            transfer: KifClaimTransfer {
                source: config.kif_sol_vault,
                destination: reward.guardian,
                amount_lamports: amount,
            },
        },
    )
}

/// Checks one reward record against the global KIF ledgers; deliberately no
/// pause gate and no current-registry or activity check.
pub fn validate_selected_liability(config: &PivConfig, reward: &GuardianReward) -> (r: Piv1Result<()>)
    ensures
        r == spec_liability(*config, *reward),
{
    config.validate_initialized()?;
    reward.validate()?;
    if reward.cumulative_earned > config.cumulative_kif_credited_lamports
        || reward.cumulative_claimed > config.cumulative_kif_claimed_lamports
        || reward.claimable_lamports > config.kif_claim_liability_lamports {
        return Err(Piv1Error::CumulativeReconciliationMismatch);
    }
    Ok(())
}

/// Returns the source lamports above its floor, the claim liability and the carry.
pub fn source_excess(config: &PivConfig, source: SolVaultBalance) -> (r: Piv1Result<u64>)
    ensures
        r == spec_source_excess(*config, source),
{
    let owed = checked_add(config.kif_claim_liability_lamports, config.collective_kif_carry_lamports)?;
    let backing = checked_add(source.non_economic_floor_lamports, owed)?;
    match source.lamports.checked_sub(backing) {
        Some(v) => Ok(v),
        None => Err(Piv1Error::KifClaimBackingDeficit),
    }
}

} // verus!
