//! Bounded global configuration and cumulative accounting state.

use crate::address::Pubkey;
use crate::constants::{
    INSUFFICIENT_RETRY_COOLDOWN_SECONDS, KIF_PERIOD_SECONDS, MAX_CONFIGURED_SLIPPAGE_BPS,
    MINIMUM_DISTRIBUTION_INTERVAL_SECONDS, STATE_LAYOUT_VERSION,
};
use crate::errors::{Piv1Error, Piv1Result};
use crate::math::{
    BASIS_POINTS_DENOMINATOR, HTFP_RESERVE_BPS, KIF_BPS, PERMANENT_COMPOUND_BPS,
    TEAM_OWNER_POOL_BPS,
};
use vstd::prelude::*;
use vstd::std_specs::cmp::PartialEqSpecImpl;

verus! {

/// PDA bumps for the permanent configuration and custody topology.
#[derive(Clone, Copy, Debug, PartialEq, Eq, Structural)]
pub struct PivConfigBumps {
    pub config: u8,
    pub piv_authority: u8,
    pub active_distribution: u8,
    pub principal_jito_vault: u8,
    pub pending_jito_vault: u8,
    pub pending_sol_vault: u8,
    pub principal_sol_queue: u8,
    pub operational_sol_vault: u8,
    pub distribution_escrow: u8,
    pub kif_sol_vault: u8,
    pub guardian_registry: u8,
}

/// Version-one global configuration, custody bindings, and cumulative ledgers.
#[derive(Clone, Copy, Debug)]
pub struct PivConfig {
    /// Serialized layout version.
    pub version: u8,
    /// Explicit initialization marker; zeroed bytes are never valid state.
    pub is_initialized: bool,
    /// Orthogonal emergency-pause flag.
    pub paused: bool,
    /// Fixed permanent-account bump bundle.
    pub bumps: PivConfigBumps,

    // Current official external-program and Jito stake-pool bindings.
    pub stake_pool_program: Pubkey,
    pub stake_pool: Pubkey,
    pub validator_list: Pubkey,
    pub reserve_stake: Pubkey,
    pub jitosol_mint: Pubkey,
    pub token_program: Pubkey,
    pub stake_program: Pubkey,
    pub system_program: Pubkey,
    pub manager_fee_account: Pubkey,
    pub referrer_token_account: Pubkey,

    // Fixed PIV1 authority, state-header, custody, recipient, and registry bindings.
    pub piv_authority: Pubkey,
    pub active_distribution: Pubkey,
    pub principal_jito_vault: Pubkey,
    pub pending_jito_vault: Pubkey,
    pub pending_sol_vault: Pubkey,
    pub principal_sol_queue: Pubkey,
    pub operational_sol_vault: Pubkey,
    pub distribution_escrow: Pubkey,
    pub kif_sol_vault: Pubkey,
    pub htfp_recipient: Pubkey,
    pub team_owner_recipient: Pubkey,
    pub guardian_registry: Pubkey,

    // Stored bindings to the immutable V1 economics and safety policy.
    pub basis_points_denominator: u16,
    pub htfp_reserve_bps: u16,
    pub permanent_compound_bps: u16,
    pub team_owner_pool_bps: u16,
    pub kif_bps: u16,
    pub configured_slippage_bps: u16,
    pub slippage_hard_cap_bps: u16,
    pub minimum_distribution_interval_seconds: i64,
    pub insufficient_retry_cooldown_seconds: i64,

    // Distribution timing and monotonic identity.
    pub last_successful_preparation_at: Option<i64>,
    pub last_valid_insufficient_attempt_at: Option<i64>,
    pub next_distribution_sequence: u64,

    // Protected principal and separately accounted physical quantities.
    pub protected_principal_hwm_lamports: u64,
    pub accounted_historical_jitosol_units: u64,
    pub accounted_historical_sol_lamports: u64,
    pub accounted_pending_jitosol_units: u64,
    pub accounted_pending_sol_lamports: u64,

    // Yield and KIF balances remain distinct from principal and one another.
    pub next_cycle_yield_lamports: u64,
    pub kif_claim_liability_lamports: u64,
    pub collective_kif_carry_lamports: u64,

    // Monotonic audit totals. None is used as a substitute for live custody checks.
    pub cumulative_contribution_value_lamports: u64,
    pub cumulative_gross_yield_lamports: u64,
    pub cumulative_htfp_paid_lamports: u64,
    pub cumulative_team_owner_paid_lamports: u64,
    pub cumulative_kif_credited_lamports: u64,
    pub cumulative_kif_claimed_lamports: u64,
    pub cumulative_permanent_compound_lamports: u64,
    pub cumulative_retained_dust_lamports: u64,
    pub cumulative_zero_active_kif_compound_lamports: u64,
    pub cumulative_cooldown_yield_recorded_lamports: u64,

    // Fixed Clock-derived KIF timing and guardian-set synchronization binding.
    pub kif_anchor_timestamp: i64,
    pub kif_period_seconds: i64,
    pub guardian_registry_revision: u64,

    /// Explicit zeroed migration reserve; V1 assigns it no hidden meaning.
    pub migration_reserve: [u8; 64],
}

/// Index of the manager-fee account among the bound addresses.
pub const MANAGER_FEE_INDEX: usize = 8;
/// Index of the referrer account; it may alias the manager-fee account.
pub const REFERRER_INDEX: usize = 9;

/// True when the bound addresses are nonzero and pairwise distinct, except
/// that the manager-fee and referrer accounts may coincide.
pub open spec fn addresses_valid(a: Seq<Pubkey>) -> bool {
    &&& forall|i: int| 0 <= i < a.len() ==> !(#[trigger] a[i]).is_zero()
    &&& forall|i: int, j: int|
        0 <= i < j < a.len() && #[trigger] a[i] == #[trigger] a[j] ==> i == MANAGER_FEE_INDEX
            && j == REFERRER_INDEX
}

impl PivConfig {
    /// The twenty-two bound addresses in their fixed order.
    pub open spec fn spec_bound_addresses(self) -> Seq<Pubkey> {
        seq![self.stake_pool_program, self.stake_pool, self.validator_list, self.reserve_stake, self.jitosol_mint, self.token_program, self.stake_program, self.system_program, self.manager_fee_account, self.referrer_token_account, self.piv_authority, self.active_distribution, self.principal_jito_vault, self.pending_jito_vault, self.pending_sol_vault, self.principal_sol_queue, self.operational_sol_vault, self.distribution_escrow, self.kif_sol_vault, self.htfp_recipient, self.team_owner_recipient, self.guardian_registry]
    }

    /// Outcome of validating the complete initialized configuration.
    pub open spec fn spec_validate(self) -> Piv1Result<()> {
        if self.version != STATE_LAYOUT_VERSION {
            Err(Piv1Error::InvalidVersion)
        } else if !self.is_initialized {
            Err(Piv1Error::InvalidInitialization)
        } else if !addresses_valid(self.spec_bound_addresses()) {
            Err(Piv1Error::InvalidAddress)
        } else if self.basis_points_denominator != BASIS_POINTS_DENOMINATOR
            || self.htfp_reserve_bps != HTFP_RESERVE_BPS || self.permanent_compound_bps
            != PERMANENT_COMPOUND_BPS || self.team_owner_pool_bps != TEAM_OWNER_POOL_BPS
            || self.kif_bps != KIF_BPS {
            Err(Piv1Error::InvalidSplit)
        } else if self.slippage_hard_cap_bps != MAX_CONFIGURED_SLIPPAGE_BPS
            || self.configured_slippage_bps > MAX_CONFIGURED_SLIPPAGE_BPS {
            Err(Piv1Error::InvalidSlippage)
        } else if self.minimum_distribution_interval_seconds != MINIMUM_DISTRIBUTION_INTERVAL_SECONDS
            || self.insufficient_retry_cooldown_seconds != INSUFFICIENT_RETRY_COOLDOWN_SECONDS
            || self.kif_period_seconds != KIF_PERIOD_SECONDS {
            Err(Piv1Error::InvalidTimingConfiguration)
        } else if exists|i: int| 0 <= i < 64 && #[trigger] self.migration_reserve[i] != 0 {
            Err(Piv1Error::InvalidInitialization)
        } else if self.cumulative_kif_credited_lamports < self.cumulative_kif_claimed_lamports
            || self.cumulative_kif_credited_lamports - self.cumulative_kif_claimed_lamports
            != self.kif_claim_liability_lamports {
            Err(Piv1Error::CumulativeReconciliationMismatch)
        } else {
            Ok(())
        }
    }

    /// True when the configuration passes validation.
    pub open spec fn valid(self) -> bool {
        self.spec_validate() is Ok
    }

    /// Outcome of the pause gate.
    pub open spec fn spec_unpaused(self) -> Piv1Result<()> {
        if self.spec_validate() is Err {
            self.spec_validate()
        } else if self.paused {
            Err(Piv1Error::PausedOperation)
        } else {
            Ok(())
        }
    }

    /// Validates the complete initialized configuration binding.
    pub fn validate_initialized(&self) -> (r: Piv1Result<()>)
        ensures
            r == self.spec_validate(),
    {
        if self.version != STATE_LAYOUT_VERSION {
            return Err(Piv1Error::InvalidVersion);
        }
        if !self.is_initialized {
            return Err(Piv1Error::InvalidInitialization);
        }
        self.validate_addresses()?;
        self.validate_fixed_economics()?;
        self.validate_slippage()?;
        self.validate_timing()?;
        self.validate_reserved_bytes()?;
        self.validate_kif_liability_reconciliation()?;
        Ok(())
    }

    /// Applies the pause gate after validating the stored configuration.
    pub fn ensure_unpaused(&self) -> (r: Piv1Result<()>)
        ensures
            r == self.spec_unpaused(),
    {
        self.validate_initialized()?;
        if self.paused {
            return Err(Piv1Error::PausedOperation);
        }
        Ok(())
    }

    /// Allocates the exact next round sequence and advances it once; on
    /// overflow nothing changes.
    pub fn allocate_next_distribution_sequence(&mut self) -> (r: Piv1Result<u64>)
        ensures
            old(self).next_distribution_sequence == u64::MAX ==> r == Err::<u64, Piv1Error>(
                Piv1Error::ArithmeticOverflow,
            ) && *final(self) == *old(self),
            old(self).next_distribution_sequence < u64::MAX ==> r == Ok::<u64, Piv1Error>(
                old(self).next_distribution_sequence,
            ) && *final(self) == (PivConfig {
                next_distribution_sequence: (old(self).next_distribution_sequence + 1) as u64,
                ..*old(self)
            }),
    {
        let allocated = self.next_distribution_sequence;
        let next = match allocated.checked_add(1) {
            Some(n) => n,
            None => return Err(Piv1Error::ArithmeticOverflow),
        };
        self.next_distribution_sequence = next;
        Ok(allocated)
    }

    /// Increases the protected high-water mark with checked arithmetic; on
    /// overflow nothing changes, and the mark never decreases.
    pub fn checked_increase_protected_principal_hwm(&mut self, increase_lamports: u64) -> (r:
        Piv1Result<u64>)
        ensures
            old(self).protected_principal_hwm_lamports + increase_lamports > u64::MAX ==> r == Err::<
                u64,
                Piv1Error,
            >(Piv1Error::ArithmeticOverflow) && *final(self) == *old(self),
            old(self).protected_principal_hwm_lamports + increase_lamports <= u64::MAX ==> r == Ok::<
                u64,
                Piv1Error,
            >((old(self).protected_principal_hwm_lamports + increase_lamports) as u64)
                && *final(self) == (PivConfig {
                protected_principal_hwm_lamports: (old(self).protected_principal_hwm_lamports
                    + increase_lamports) as u64,
                ..*old(self)
            }),
    {
        let updated = match self.protected_principal_hwm_lamports.checked_add(increase_lamports) {
            Some(u) => u,
            None => return Err(Piv1Error::ArithmeticOverflow),
        };
        self.protected_principal_hwm_lamports = updated;
        Ok(updated)
    }

    fn validate_addresses(&self) -> (r: Piv1Result<()>)
        ensures
            r == (if addresses_valid(self.spec_bound_addresses()) {
                Ok::<(), Piv1Error>(())
            } else {
                Err::<(), Piv1Error>(Piv1Error::InvalidAddress)
            }),
    {
        let addresses = self.bound_addresses();
        let ghost a = self.spec_bound_addresses();
        let zero = Pubkey::default();
        let mut index: usize = 0;
        while index < 22
            invariant
                index <= 22,
                addresses@ == a,
                a == self.spec_bound_addresses(),
                a.len() == 22,
                zero == Pubkey::spec_zero(),
                forall|i: int| 0 <= i < index ==> !(#[trigger] a[i]).is_zero(),
            decreases 22 - index,
        {
            if addresses[index] == zero {
                proof {
                    assert(a[index as int].is_zero());
                }
                return Err(Piv1Error::InvalidAddress);
            }
            index = index + 1;
        }
        let mut left_index: usize = 0;
        while left_index < 22
            invariant
                left_index <= 22,
                addresses@ == a,
                a == self.spec_bound_addresses(),
                a.len() == 22,
                forall|i: int| 0 <= i < 22 ==> !(#[trigger] a[i]).is_zero(),
                forall|i: int, j: int|
                    0 <= i < left_index && i < j < 22 && #[trigger] a[i] == #[trigger] a[j] ==> i
                        == MANAGER_FEE_INDEX && j == REFERRER_INDEX,
            decreases 22 - left_index,
        {
            let mut right_index: usize = left_index + 1;
            while right_index < 22
                invariant
                    left_index < 22,
                    left_index + 1 <= right_index <= 22,
                    addresses@ == a,
                a == self.spec_bound_addresses(),
                    a.len() == 22,
                    forall|i: int, j: int|
                        0 <= i < left_index && i < j < 22 && #[trigger] a[i] == #[trigger] a[j]
                            ==> i == MANAGER_FEE_INDEX && j == REFERRER_INDEX,
                    forall|j: int|
                        left_index < j < right_index && a[left_index as int] == #[trigger] a[j]
                            ==> left_index == MANAGER_FEE_INDEX && j == REFERRER_INDEX,
                decreases 22 - right_index,
            {
                let manager_referrer_alias = left_index == MANAGER_FEE_INDEX && right_index
                    == REFERRER_INDEX;
                if addresses[left_index] == addresses[right_index] && !manager_referrer_alias {
                    proof {
                        assert(a[left_index as int] == a[right_index as int]);
                    }
                    return Err(Piv1Error::InvalidAddress);
                }
                right_index = right_index + 1;
            }
            left_index = left_index + 1;
        }
        Ok(())
    }

    fn bound_addresses(&self) -> (r: [Pubkey; 22])
        ensures
            r@ == self.spec_bound_addresses(),
    {
        let r = [self.stake_pool_program, self.stake_pool, self.validator_list, self.reserve_stake, self.jitosol_mint, self.token_program, self.stake_program, self.system_program, self.manager_fee_account, self.referrer_token_account, self.piv_authority, self.active_distribution, self.principal_jito_vault, self.pending_jito_vault, self.pending_sol_vault, self.principal_sol_queue, self.operational_sol_vault, self.distribution_escrow, self.kif_sol_vault, self.htfp_recipient, self.team_owner_recipient, self.guardian_registry];
        proof {
            assert(r@ =~= self.spec_bound_addresses());
        }
        r
    }

    fn validate_fixed_economics(&self) -> (r: Piv1Result<()>)
        ensures
            r == (if self.basis_points_denominator != BASIS_POINTS_DENOMINATOR
                || self.htfp_reserve_bps != HTFP_RESERVE_BPS || self.permanent_compound_bps
                != PERMANENT_COMPOUND_BPS || self.team_owner_pool_bps != TEAM_OWNER_POOL_BPS
                || self.kif_bps != KIF_BPS {
                Err::<(), Piv1Error>(Piv1Error::InvalidSplit)
            } else {
                Ok::<(), Piv1Error>(())
            }),
    {
        if self.basis_points_denominator as u64 != BASIS_POINTS_DENOMINATOR
            || self.htfp_reserve_bps as u64 != HTFP_RESERVE_BPS || self.permanent_compound_bps as u64
            != PERMANENT_COMPOUND_BPS || self.team_owner_pool_bps as u64 != TEAM_OWNER_POOL_BPS
            || self.kif_bps as u64 != KIF_BPS {
            return Err(Piv1Error::InvalidSplit);
        }
        Ok(())
    }

    fn validate_slippage(&self) -> (r: Piv1Result<()>)
        ensures
            r == (if self.slippage_hard_cap_bps != MAX_CONFIGURED_SLIPPAGE_BPS
                || self.configured_slippage_bps > MAX_CONFIGURED_SLIPPAGE_BPS {
                Err::<(), Piv1Error>(Piv1Error::InvalidSlippage)
            } else {
                Ok::<(), Piv1Error>(())
            }),
    {
        if self.slippage_hard_cap_bps != MAX_CONFIGURED_SLIPPAGE_BPS || self.configured_slippage_bps
            > MAX_CONFIGURED_SLIPPAGE_BPS {
            return Err(Piv1Error::InvalidSlippage);
        }
        Ok(())
    }

    fn validate_timing(&self) -> (r: Piv1Result<()>)
        ensures
            r == (if self.minimum_distribution_interval_seconds != MINIMUM_DISTRIBUTION_INTERVAL_SECONDS
                || self.insufficient_retry_cooldown_seconds != INSUFFICIENT_RETRY_COOLDOWN_SECONDS
                || self.kif_period_seconds != KIF_PERIOD_SECONDS {
                Err::<(), Piv1Error>(Piv1Error::InvalidTimingConfiguration)
            } else {
                Ok::<(), Piv1Error>(())
            }),
    {
        if self.minimum_distribution_interval_seconds != MINIMUM_DISTRIBUTION_INTERVAL_SECONDS
            || self.insufficient_retry_cooldown_seconds != INSUFFICIENT_RETRY_COOLDOWN_SECONDS
            || self.kif_period_seconds != KIF_PERIOD_SECONDS {
            return Err(Piv1Error::InvalidTimingConfiguration);
        }
        Ok(())
    }

    fn validate_reserved_bytes(&self) -> (r: Piv1Result<()>)
        ensures
            r == (if exists|i: int| 0 <= i < 64 && #[trigger] self.migration_reserve[i] != 0 {
                Err::<(), Piv1Error>(Piv1Error::InvalidInitialization)
            } else {
                Ok::<(), Piv1Error>(())
            }),
    {
        let mut index: usize = 0;
        while index < 64
            invariant
                index <= 64,
                forall|i: int| 0 <= i < index ==> #[trigger] self.migration_reserve[i] == 0,
            decreases 64 - index,
        {
            if self.migration_reserve[index] != 0 {
                return Err(Piv1Error::InvalidInitialization);
            }
            index = index + 1;
        }
        Ok(())
    }

    fn validate_kif_liability_reconciliation(&self) -> (r: Piv1Result<()>)
        ensures
            r == (if self.cumulative_kif_credited_lamports < self.cumulative_kif_claimed_lamports
                || self.cumulative_kif_credited_lamports - self.cumulative_kif_claimed_lamports
                != self.kif_claim_liability_lamports {
                Err::<(), Piv1Error>(Piv1Error::CumulativeReconciliationMismatch)
            } else {
                Ok::<(), Piv1Error>(())
            }),
    {
        let expected_liability = match self.cumulative_kif_credited_lamports.checked_sub(
            self.cumulative_kif_claimed_lamports,
        ) {
            Some(v) => v,
            None => return Err(Piv1Error::CumulativeReconciliationMismatch),
        };
        if expected_liability != self.kif_claim_liability_lamports {
            return Err(Piv1Error::CumulativeReconciliationMismatch);
        }
        Ok(())
    }
}


/// Equality of two optional timestamps.
fn same_instant(a: Option<i64>, b: Option<i64>) -> (r: bool)
    ensures
        r == (a == b),
{
    match (a, b) {
        (Some(x), Some(y)) => x == y,
        (None, None) => true,
        _ => false,
    }
}

/// Equality of two reserve byte arrays.
fn same_reserve(a: &[u8; 64], b: &[u8; 64]) -> (r: bool)
    ensures
        r == (*a == *b),
{
    let mut i: usize = 0;
    while i < 64
        invariant
            i <= 64,
            forall|j: int| 0 <= j < i ==> a[j] == b[j],
        decreases 64 - i,
    {
        if a[i] != b[i] {
            return false;
        }
        i = i + 1;
    }
    assert(*a =~= *b);
    true
}

impl PartialEq for PivConfig {
    fn eq(&self, other: &Self) -> (r: bool) {
        let scalars = self.version == other.version && self.is_initialized == other.is_initialized && self.paused == other.paused && self.bumps == other.bumps && self.stake_pool_program == other.stake_pool_program && self.stake_pool == other.stake_pool && self.validator_list == other.validator_list && self.reserve_stake == other.reserve_stake && self.jitosol_mint == other.jitosol_mint && self.token_program == other.token_program && self.stake_program == other.stake_program && self.system_program == other.system_program && self.manager_fee_account == other.manager_fee_account && self.referrer_token_account == other.referrer_token_account && self.piv_authority == other.piv_authority && self.active_distribution == other.active_distribution && self.principal_jito_vault == other.principal_jito_vault && self.pending_jito_vault == other.pending_jito_vault && self.pending_sol_vault == other.pending_sol_vault && self.principal_sol_queue == other.principal_sol_queue && self.operational_sol_vault == other.operational_sol_vault && self.distribution_escrow == other.distribution_escrow && self.kif_sol_vault == other.kif_sol_vault && self.htfp_recipient == other.htfp_recipient && self.team_owner_recipient == other.team_owner_recipient && self.guardian_registry == other.guardian_registry && self.basis_points_denominator == other.basis_points_denominator && self.htfp_reserve_bps == other.htfp_reserve_bps && self.permanent_compound_bps == other.permanent_compound_bps && self.team_owner_pool_bps == other.team_owner_pool_bps && self.kif_bps == other.kif_bps && self.configured_slippage_bps == other.configured_slippage_bps && self.slippage_hard_cap_bps == other.slippage_hard_cap_bps && self.minimum_distribution_interval_seconds == other.minimum_distribution_interval_seconds && self.insufficient_retry_cooldown_seconds == other.insufficient_retry_cooldown_seconds && self.next_distribution_sequence == other.next_distribution_sequence && self.protected_principal_hwm_lamports == other.protected_principal_hwm_lamports && self.accounted_historical_jitosol_units == other.accounted_historical_jitosol_units && self.accounted_historical_sol_lamports == other.accounted_historical_sol_lamports && self.accounted_pending_jitosol_units == other.accounted_pending_jitosol_units && self.accounted_pending_sol_lamports == other.accounted_pending_sol_lamports && self.next_cycle_yield_lamports == other.next_cycle_yield_lamports && self.kif_claim_liability_lamports == other.kif_claim_liability_lamports && self.collective_kif_carry_lamports == other.collective_kif_carry_lamports && self.cumulative_contribution_value_lamports == other.cumulative_contribution_value_lamports && self.cumulative_gross_yield_lamports == other.cumulative_gross_yield_lamports && self.cumulative_htfp_paid_lamports == other.cumulative_htfp_paid_lamports && self.cumulative_team_owner_paid_lamports == other.cumulative_team_owner_paid_lamports && self.cumulative_kif_credited_lamports == other.cumulative_kif_credited_lamports && self.cumulative_kif_claimed_lamports == other.cumulative_kif_claimed_lamports && self.cumulative_permanent_compound_lamports == other.cumulative_permanent_compound_lamports && self.cumulative_retained_dust_lamports == other.cumulative_retained_dust_lamports && self.cumulative_zero_active_kif_compound_lamports == other.cumulative_zero_active_kif_compound_lamports && self.cumulative_cooldown_yield_recorded_lamports == other.cumulative_cooldown_yield_recorded_lamports && self.kif_anchor_timestamp == other.kif_anchor_timestamp && self.kif_period_seconds == other.kif_period_seconds && self.guardian_registry_revision == other.guardian_registry_revision;
        scalars && same_instant(self.last_successful_preparation_at, other.last_successful_preparation_at)
            && same_instant(self.last_valid_insufficient_attempt_at, other.last_valid_insufficient_attempt_at)
            && same_reserve(&self.migration_reserve, &other.migration_reserve)
    }
}

impl PartialEqSpecImpl for PivConfig {
    open spec fn obeys_eq_spec() -> bool {
        true
    }

    open spec fn eq_spec(&self, other: &Self) -> bool {
        *self == *other
    }
}

impl Eq for PivConfig {

}

} // verus!
