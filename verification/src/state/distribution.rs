//! Bounded reusable distribution header and one-leg metadata layout.
//!
//! The header stores cumulative counters only. Conceptual predicates such as
//! prepared, assigning, target assigned, awaiting inactivity and partially
//! finalized are derived from a coarse lifecycle phase plus exact counters.

use crate::address::Pubkey;
use crate::bitmap::{count_ones, spec_popcount};
use crate::constants::{
    GUARDIAN_BITMAP_MASK, MAX_CONFIGURED_SLIPPAGE_BPS, RECOVERY_FLAG_COOLDOWN_LOSS,
    STATE_LAYOUT_VERSION,
};
use crate::errors::{from_math, lift, spec_from_math, Piv1Error, Piv1Result};
use crate::math::{
    allocate_kif, bps_share, calculate_gross_yield, checked_mul_div_floor, spec_allocate_kif,
    spec_gross_yield, spec_split, split_gross_yield, KifAllocation, HTFP_RESERVE_BPS, KIF_BPS,
    TEAM_OWNER_POOL_BPS,
};
use vstd::prelude::*;

verus! {

/// Recovery flags a round or leg may carry.
pub const ALLOWED_RECOVERY_FLAGS: u8 = 3;

/// Sum of the three outgoing basis-point weights (HTFP, Team Owner, KIF).
pub const OUTGOING_WEIGHT_BPS: u64 = 8_050;

/// Deterministic allocation of the actually available beneficiary net.
#[derive(Clone, Copy, Debug, PartialEq, Eq, Structural)]
pub struct NetBeneficiaryAllocation {
    pub htfp_lamports: u64,
    pub team_owner_lamports: u64,
    pub kif_lamports: u64,
    pub dust_lamports: u64,
    pub allocated_lamports: u64,
}

/// The smaller of two amounts.
pub open spec fn min_u64(a: u64, b: u64) -> u64 {
    if a <= b {
        a
    } else {
        b
    }
}

/// The larger of two amounts.
pub open spec fn max_u64(a: u64, b: u64) -> u64 {
    if a >= b {
        a
    } else {
        b
    }
}

/// Gross yield after adding prior-cycle yield to the historical value.
pub open spec fn spec_gross_yield_basis(historical: u64, prior: u64, hwm: u64) -> Piv1Result<u64> {
    if historical + prior > u64::MAX {
        Err(Piv1Error::ArithmeticOverflow)
    } else {
        Ok(spec_gross_yield((historical + prior) as u64, hwm))
    }
}

/// Floor of `net * weight / 8050`.
pub open spec fn weight_share(net: u64, weight: u64) -> u64 {
    ((net as int) * (weight as int) / 8050) as u64
}

/// The relative-weight allocation of `net`, each share capped by its obligation.
pub open spec fn spec_net_allocation(net: u64, htfp: u64, team: u64, kif: u64) -> NetBeneficiaryAllocation {
    let h = min_u64(htfp, weight_share(net, HTFP_RESERVE_BPS));
    let t = min_u64(team, weight_share(net, TEAM_OWNER_POOL_BPS));
    let k = min_u64(kif, weight_share(net, KIF_BPS));
    NetBeneficiaryAllocation {
        htfp_lamports: h,
        team_owner_lamports: t,
        kif_lamports: k,
        dust_lamports: (net - (h + t + k)) as u64,
        allocated_lamports: (h + t + k) as u64,
    }
}

/// Exec minimum of two amounts.
pub fn min_amount(a: u64, b: u64) -> (r: u64)
    ensures
        r == min_u64(a, b),
{
    if a <= b {
        a
    } else {
        b
    }
}

/// Exec maximum of two amounts.
pub fn max_amount(a: u64, b: u64) -> (r: u64)
    ensures
        r == max_u64(a, b),
{
    if a >= b {
        a
    } else {
        b
    }
}

/// Applies prior-cycle yield before comparing the historical asset value with
/// the protected high-water mark.
pub fn derive_gross_yield_lamports(
    historical_asset_value_lamports: u64,
    prior_next_cycle_yield_lamports: u64,
    protected_hwm_lamports: u64,
) -> (r: Piv1Result<u64>)
    ensures
        r == spec_gross_yield_basis(
            historical_asset_value_lamports,
            prior_next_cycle_yield_lamports,
            protected_hwm_lamports,
        ),
{
    let gross_yield_basis = checked_add(
        historical_asset_value_lamports,
        prior_next_cycle_yield_lamports,
    )?;
    Ok(calculate_gross_yield(gross_yield_basis, protected_hwm_lamports))
}

proof fn lemma_weight_shares_bounded(net: u64)
    ensures
        weight_share(net, HTFP_RESERVE_BPS) + weight_share(net, TEAM_OWNER_POOL_BPS)
            + weight_share(net, KIF_BPS) <= net,
{
    let n = net as int;
    let a = n * 5900;
    let b = n * 1950;
    let c = n * 200;
    assert(a >= 0 && b >= 0 && c >= 0);
    lemma_floor_sum3(a, b, c, 8050);
    assert(a + b + c == n * 8050);
    assert((n * 8050) / 8050 == n) by {
        vstd::arithmetic::div_mod::lemma_div_multiples_vanish(n, 8050);
        vstd::arithmetic::mul::lemma_mul_is_commutative(n, 8050);
    }
}

proof fn lemma_floor_sum3(a: int, b: int, c: int, d: int)
    requires
        a >= 0,
        b >= 0,
        c >= 0,
        d > 0,
    ensures
        a / d + b / d + c / d <= (a + b + c) / d,
        0 <= a / d,
        0 <= b / d,
        0 <= c / d,
{
    vstd::arithmetic::div_mod::lemma_fundamental_div_mod(a, d);
    vstd::arithmetic::div_mod::lemma_fundamental_div_mod(b, d);
    vstd::arithmetic::div_mod::lemma_fundamental_div_mod(c, d);
    vstd::arithmetic::div_mod::lemma_fundamental_div_mod(a + b + c, d);
    assert(a / d + b / d + c / d <= (a + b + c) / d && 0 <= a / d && 0 <= b / d && 0 <= c / d)
        by (nonlinear_arith)
        requires
            d > 0,
            a >= 0,
            b >= 0,
            c >= 0,
            a == d * (a / d) + a % d,
            b == d * (b / d) + b % d,
            c == d * (c / d) + c % d,
            a + b + c == d * ((a + b + c) / d) + (a + b + c) % d,
            0 <= a % d < d,
            0 <= b % d < d,
            0 <= c % d < d,
            0 <= (a + b + c) % d < d,
    ;
}

/// Derives the relative-weight allocation of the actually available
/// beneficiary net: each beneficiary receives `floor(net * weight / 8050)`
/// capped by its gross obligation; the residual is dust. Always succeeds.
pub fn derive_net_beneficiary_allocation(
    beneficiary_net_total_lamports: u64,
    htfp_gross_obligation_lamports: u64,
    team_owner_gross_obligation_lamports: u64,
    kif_gross_obligation_lamports: u64,
) -> (r: Piv1Result<NetBeneficiaryAllocation>)
    ensures
        r == Ok::<NetBeneficiaryAllocation, Piv1Error>(
            spec_net_allocation(
                beneficiary_net_total_lamports,
                htfp_gross_obligation_lamports,
                team_owner_gross_obligation_lamports,
                kif_gross_obligation_lamports,
            ),
        ),
{
    proof {
        lemma_weight_shares_bounded(beneficiary_net_total_lamports);
    }
    let outgoing_weight = checked_add(checked_add(HTFP_RESERVE_BPS, TEAM_OWNER_POOL_BPS)?, KIF_BPS)?;
    let h_share = match checked_mul_div_floor(
        beneficiary_net_total_lamports,
        HTFP_RESERVE_BPS,
        outgoing_weight,
    ) {
        Ok(v) => v,
        Err(e) => return Err(from_math(e)),
    };
    let htfp_lamports = min_amount(htfp_gross_obligation_lamports, h_share);
    let t_share = match checked_mul_div_floor(
        beneficiary_net_total_lamports,
        TEAM_OWNER_POOL_BPS,
        outgoing_weight,
    ) {
        Ok(v) => v,
        Err(e) => return Err(from_math(e)),
    };
    let team_owner_lamports = min_amount(team_owner_gross_obligation_lamports, t_share);
    let k_share = match checked_mul_div_floor(
        beneficiary_net_total_lamports,
        KIF_BPS,
        outgoing_weight,
    ) {
        Ok(v) => v,
        Err(e) => return Err(from_math(e)),
    };
    let kif_lamports = min_amount(kif_gross_obligation_lamports, k_share);
    let allocated_lamports = checked_add(checked_add(htfp_lamports, team_owner_lamports)?, kif_lamports)?;
    let dust_lamports = checked_sub(beneficiary_net_total_lamports, allocated_lamports)?;
    Ok(
        NetBeneficiaryAllocation {
            htfp_lamports,
            team_owner_lamports,
            kif_lamports,
            dust_lamports,
            allocated_lamports,
        },
    )
}

/// Stored coarse phase for the one reusable active-round header.
#[derive(Clone, Copy, Debug, PartialEq, Eq, Structural)]
pub enum DistributionLifecycle {
    /// No active round; only an optional prior terminal summary remains.
    Idle,
    /// A nonzero fixed JitoSOL target is being assigned and/or finalized.
    WithdrawalActive,
    /// Fixed liquid or finalized withdrawal proceeds reconcile in escrow.
    EscrowFunded,
    /// Atomic settlement accounting has been recorded.
    Settled,
    /// Normal progress is blocked pending governed recovery.
    RecoveryRequired,
}

/// Persistent bounded summary retained when the reusable header returns Idle.
#[derive(Clone, Copy, Debug, PartialEq, Eq, Structural)]
pub struct CompletedDistributionSummary {
    pub sequence: u64,
    pub completed_at: i64,
    pub gross_yield_lamports: u64,
    pub actual_allocated_outgoing_lamports: u64,
    pub integrated_contribution_value_lamports: u64,
    pub final_protected_hwm_lamports: u64,
    pub fixed_jitosol_withdrawal_target_units: u64,
    pub successful_leg_count: u64,
    pub cumulative_cooldown_rewards_lamports: u64,
    pub actual_kif_liability_lamports: u64,
    pub actual_kif_carry_next_lamports: u64,
}

/// One reusable bounded active distribution header.
#[derive(Clone, Copy, Debug, PartialEq, Eq)]
pub struct ActiveDistribution {
    pub version: u8,
    pub bump: u8,
    pub is_initialized: bool,
    pub lifecycle: DistributionLifecycle,
    pub recovery_flags: u8,
    pub settlement_recorded: bool,
    pub active_sequence: u64,
    pub last_completed: Option<CompletedDistributionSummary>,

    // Immutable preparation snapshot.
    pub prepared_at: i64,
    pub prepared_slot: u64,
    pub prepared_epoch: u64,
    pub old_protected_principal_lamports: u64,
    pub historical_jitosol_units: u64,
    pub historical_sol_lamports: u64,
    /// Historical SOL-equivalent asset value before prior-cycle yield carry.
    pub historical_value_lamports: u64,
    pub snapshot_pool_total_lamports: u64,
    pub snapshot_pool_token_supply: u64,
    pub snapshot_withdrawal_fee_numerator: u64,
    pub snapshot_withdrawal_fee_denominator: u64,

    // Immutable gross economics and liquid-input snapshot.
    pub gross_yield_lamports: u64,
    /// Previously recorded cooldown yield consumed into this cycle's gross split.
    pub prior_next_cycle_yield_lamports: u64,
    pub htfp_gross_obligation_lamports: u64,
    pub permanent_compound_lamports: u64,
    pub team_owner_gross_obligation_lamports: u64,
    pub kif_gross_obligation_lamports: u64,
    pub split_dust_lamports: u64,
    pub outgoing_gross_obligation_lamports: u64,
    pub pending_sol_snapshot_lamports: u64,
    pub pending_sol_used_lamports: u64,
    pub snapshot_conversion_dust_lamports: u64,

    // Immutable withdrawal bounds. A liquid-only round stores a zero target.
    pub fixed_jitosol_withdrawal_target_units: u64,
    pub snapshot_leg_input_floor_units: u64,
    pub maximum_useful_legs: u64,
    pub stored_round_minimum_native_lamports: u64,
    pub stored_residual_hwm_floor_lamports: u64,
    pub stored_slippage_bps: u16,

    // Checked cumulative per-leg accounting.
    pub cumulative_jitosol_assigned_units: u64,
    pub cumulative_withdrawal_fee_units: u64,
    pub cumulative_burned_units: u64,
    pub cumulative_expected_native_lamports: u64,
    pub cumulative_delegated_native_lamports: u64,
    pub cumulative_finalized_delegated_native_lamports: u64,
    pub cumulative_finalized_native_lamports: u64,
    pub cumulative_recovered_stake_rent_lamports: u64,
    pub cumulative_recovered_metadata_rent_lamports: u64,
    pub cumulative_cooldown_rewards_lamports: u64,
    pub cumulative_cooldown_losses_lamports: u64,
    pub next_leg_index: u64,
    pub successful_leg_count: u64,
    pub finalized_leg_count: u64,

    // Fixed escrow, recipient, and KIF snapshot bindings.
    pub recorded_escrow_available_lamports: u64,
    pub outstanding_active_round_liability_lamports: u64,
    pub htfp_recipient: Pubkey,
    pub team_owner_recipient: Pubkey,
    pub guardian_registry: Pubkey,
    pub guardian_registry_revision: u64,
    pub guardian_keys: [Pubkey; 6],
    pub kif_eligibility_bitmap: u8,
    pub kif_active_guardian_count: u8,
    pub kif_period_id: u64,
    pub kif_carry_input_lamports: u64,

    // Proposed and actual settlement/HWM accounting.
    pub proposed_hwm_delta_lamports: u64,
    pub proposed_hwm_after_settlement_lamports: u64,
    pub actual_net_available_lamports: u64,
    pub actual_htfp_lamports: u64,
    pub actual_team_owner_lamports: u64,
    pub actual_kif_allocation_lamports: u64,
    pub actual_net_allocation_dust_lamports: u64,
    pub actual_allocated_outgoing_lamports: u64,
    pub actual_escrow_remainder_lamports: u64,
    pub actual_retained_conservative_dust_lamports: u64,
    pub actual_kif_liability_lamports: u64,
    pub actual_kif_carry_next_lamports: u64,
    pub actual_zero_active_kif_compound_lamports: u64,
    pub actual_hwm_delta_lamports: u64,
    pub settled_protected_hwm_lamports: u64,
}

/// True when the six guardian keys are all nonzero and pairwise distinct.
pub open spec fn guardian_keys_valid(keys: [Pubkey; 6]) -> bool {
    forall|i: int|
        0 <= i < 6 ==> !(#[trigger] keys[i]).is_zero() && forall|j: int|
            0 <= j < i ==> keys[j] != keys[i]
}

/// Checks that six guardian keys are nonzero and pairwise distinct.
pub fn check_guardian_keys(keys: &[Pubkey; 6]) -> (r: bool)
    ensures
        r == guardian_keys_valid(*keys),
{
    let zero = Pubkey::default();
    let mut index: usize = 0;
    while index < 6
        invariant
            index <= 6,
            zero == Pubkey::spec_zero(),
            forall|i: int|
                0 <= i < index ==> !(#[trigger] keys[i]).is_zero() && forall|j: int|
                    0 <= j < i ==> keys[j] != keys[i],
        decreases 6 - index,
    {
        if keys[index] == zero {
            return false;
        }
        let mut earlier: usize = 0;
        while earlier < index
            invariant
                index < 6,
                earlier <= index,
                forall|j: int| 0 <= j < earlier ==> keys[j] != keys[index as int],
            decreases index - earlier,
        {
            if keys[earlier] == keys[index] {
                return false;
            }
            earlier = earlier + 1;
        }
        index = index + 1;
    }
    true
}

impl ActiveDistribution {
    /// True when the header is exactly the Idle layout for `bump` and `last`.
    pub open spec fn is_idle_layout(self, bump: u8, last: Option<CompletedDistributionSummary>) -> bool {
        &&& self.version == STATE_LAYOUT_VERSION
        &&& self.bump == bump
        &&& self.is_initialized
        &&& self.lifecycle == DistributionLifecycle::Idle
        &&& !self.settlement_recorded
        &&& self.last_completed == last
        &&& self.htfp_recipient.is_zero()
        &&& self.team_owner_recipient.is_zero()
        &&& self.guardian_registry.is_zero()
        &&& forall|i: int| 0 <= i < 6 ==> (#[trigger] self.guardian_keys[i]).is_zero()
        &&& self.recovery_flags == 0
        &&& self.active_sequence == 0
        &&& self.prepared_at == 0
        &&& self.prepared_slot == 0
        &&& self.prepared_epoch == 0
        &&& self.old_protected_principal_lamports == 0
        &&& self.historical_jitosol_units == 0
        &&& self.historical_sol_lamports == 0
        &&& self.historical_value_lamports == 0
        &&& self.snapshot_pool_total_lamports == 0
        &&& self.snapshot_pool_token_supply == 0
        &&& self.snapshot_withdrawal_fee_numerator == 0
        &&& self.snapshot_withdrawal_fee_denominator == 0
        &&& self.gross_yield_lamports == 0
        &&& self.prior_next_cycle_yield_lamports == 0
        &&& self.htfp_gross_obligation_lamports == 0
        &&& self.permanent_compound_lamports == 0
        &&& self.team_owner_gross_obligation_lamports == 0
        &&& self.kif_gross_obligation_lamports == 0
        &&& self.split_dust_lamports == 0
        &&& self.outgoing_gross_obligation_lamports == 0
        &&& self.pending_sol_snapshot_lamports == 0
        &&& self.pending_sol_used_lamports == 0
        &&& self.snapshot_conversion_dust_lamports == 0
        &&& self.fixed_jitosol_withdrawal_target_units == 0
        &&& self.snapshot_leg_input_floor_units == 0
        &&& self.maximum_useful_legs == 0
        &&& self.stored_round_minimum_native_lamports == 0
        &&& self.stored_residual_hwm_floor_lamports == 0
        &&& self.stored_slippage_bps == 0
        &&& self.cumulative_jitosol_assigned_units == 0
        &&& self.cumulative_withdrawal_fee_units == 0
        &&& self.cumulative_burned_units == 0
        &&& self.cumulative_expected_native_lamports == 0
        &&& self.cumulative_delegated_native_lamports == 0
        &&& self.cumulative_finalized_delegated_native_lamports == 0
        &&& self.cumulative_finalized_native_lamports == 0
        &&& self.cumulative_recovered_stake_rent_lamports == 0
        &&& self.cumulative_recovered_metadata_rent_lamports == 0
        &&& self.cumulative_cooldown_rewards_lamports == 0
        &&& self.cumulative_cooldown_losses_lamports == 0
        &&& self.next_leg_index == 0
        &&& self.successful_leg_count == 0
        &&& self.finalized_leg_count == 0
        &&& self.recorded_escrow_available_lamports == 0
        &&& self.outstanding_active_round_liability_lamports == 0
        &&& self.guardian_registry_revision == 0
        &&& self.kif_eligibility_bitmap == 0
        &&& self.kif_active_guardian_count == 0
        &&& self.kif_period_id == 0
        &&& self.kif_carry_input_lamports == 0
        &&& self.proposed_hwm_delta_lamports == 0
        &&& self.proposed_hwm_after_settlement_lamports == 0
        &&& self.actual_net_available_lamports == 0
        &&& self.actual_htfp_lamports == 0
        &&& self.actual_team_owner_lamports == 0
        &&& self.actual_kif_allocation_lamports == 0
        &&& self.actual_net_allocation_dust_lamports == 0
        &&& self.actual_allocated_outgoing_lamports == 0
        &&& self.actual_escrow_remainder_lamports == 0
        &&& self.actual_retained_conservative_dust_lamports == 0
        &&& self.actual_kif_liability_lamports == 0
        &&& self.actual_kif_carry_next_lamports == 0
        &&& self.actual_zero_active_kif_compound_lamports == 0
        &&& self.actual_hwm_delta_lamports == 0
        &&& self.settled_protected_hwm_lamports == 0
    }

    /// Unassigned portion of the withdrawal target.
    pub open spec fn spec_remaining_target(self) -> Piv1Result<u64> {
        if self.fixed_jitosol_withdrawal_target_units < self.cumulative_jitosol_assigned_units {
            Err(Piv1Error::TargetExceeded)
        } else {
            Ok((self.fixed_jitosol_withdrawal_target_units - self.cumulative_jitosol_assigned_units) as u64)
        }
    }

    /// Prior-cycle yield used as liquid funding after pending SOL is used first.
    pub open spec fn spec_prior_used(self) -> Piv1Result<u64> {
        if self.outgoing_gross_obligation_lamports < self.pending_sol_used_lamports {
            Err(Piv1Error::CumulativeReconciliationMismatch)
        } else {
            Ok(
                min_u64(
                    self.prior_next_cycle_yield_lamports,
                    (self.outgoing_gross_obligation_lamports - self.pending_sol_used_lamports) as u64,
                ),
            )
        }
    }

    pub open spec fn spec_is_prepared_withdrawal(self) -> bool {
        self.lifecycle == DistributionLifecycle::WithdrawalActive
            && self.cumulative_jitosol_assigned_units == 0
            && self.fixed_jitosol_withdrawal_target_units > 0
    }

    pub open spec fn spec_is_assigning(self) -> bool {
        self.lifecycle == DistributionLifecycle::WithdrawalActive
            && self.cumulative_jitosol_assigned_units > 0
            && self.cumulative_jitosol_assigned_units < self.fixed_jitosol_withdrawal_target_units
    }

    pub open spec fn spec_target_assigned(self) -> bool {
        self.fixed_jitosol_withdrawal_target_units > 0
            && self.cumulative_jitosol_assigned_units == self.fixed_jitosol_withdrawal_target_units
    }

    pub open spec fn spec_awaiting_inactivity(self) -> bool {
        self.successful_leg_count > self.finalized_leg_count
    }

    pub open spec fn spec_all_legs_finalized(self) -> bool {
        self.successful_leg_count > 0 && self.successful_leg_count == self.finalized_leg_count
    }

    pub open spec fn spec_withdrawal_complete(self) -> bool {
        self.spec_target_assigned() && self.spec_all_legs_finalized()
    }

    pub open spec fn spec_partially_finalized(self) -> bool {
        self.finalized_leg_count > 0 && !self.spec_withdrawal_complete()
    }

    /// Snapshot checks of an active (non-Idle) round.
    pub open spec fn spec_active_snapshot(self) -> Piv1Result<()> {
        let h = self.htfp_recipient;
        let t = self.team_owner_recipient;
        let g = self.guardian_registry;
        let split = spec_split(self.gross_yield_lamports);
        let outgoing = self.htfp_gross_obligation_lamports + self.team_owner_gross_obligation_lamports
            + self.kif_gross_obligation_lamports;
        let expected_delta = self.permanent_compound_lamports + self.split_dust_lamports
            + self.snapshot_conversion_dust_lamports;
        let proposed = self.old_protected_principal_lamports + self.proposed_hwm_delta_lamports;
        let gy = spec_gross_yield_basis(
            self.historical_value_lamports,
            self.prior_next_cycle_yield_lamports,
            self.old_protected_principal_lamports,
        );
        if h.is_zero() || t.is_zero() || g.is_zero() {
            Err(Piv1Error::InvalidAddress)
        } else if h == t || h == g || t == g {
            Err(Piv1Error::InvalidAddress)
        } else if self.stored_slippage_bps > MAX_CONFIGURED_SLIPPAGE_BPS {
            Err(Piv1Error::InvalidSlippage)
        } else if self.snapshot_pool_total_lamports == 0 || self.snapshot_pool_token_supply == 0 {
            Err(Piv1Error::InvalidInitialization)
        } else if !guardian_keys_valid(self.guardian_keys) {
            Err(Piv1Error::InvalidGuardianSet)
        } else if self.kif_eligibility_bitmap & !GUARDIAN_BITMAP_MASK != 0 || spec_popcount(
            self.kif_eligibility_bitmap,
        ) != self.kif_active_guardian_count || self.kif_active_guardian_count > 6 {
            Err(Piv1Error::InvalidGuardianBitmap)
        } else if gy is Err {
            Err(Piv1Error::ArithmeticOverflow)
        } else if gy != Ok::<u64, Piv1Error>(self.gross_yield_lamports) || self.gross_yield_lamports
            == 0 {
            Err(Piv1Error::CumulativeReconciliationMismatch)
        } else if self.htfp_gross_obligation_lamports != split.htfp_reserve
            || self.permanent_compound_lamports != split.permanent_compound
            || self.team_owner_gross_obligation_lamports != split.team_owner_pool
            || self.kif_gross_obligation_lamports != split.kif || self.split_dust_lamports
            != split.dust {
            Err(Piv1Error::InvalidSplit)
        } else if outgoing > u64::MAX {
            Err(Piv1Error::ArithmeticOverflow)
        } else if outgoing == 0 || outgoing != self.outgoing_gross_obligation_lamports {
            Err(Piv1Error::ZeroTarget)
        } else if self.pending_sol_used_lamports != min_u64(
            self.pending_sol_snapshot_lamports,
            self.outgoing_gross_obligation_lamports,
        ) {
            Err(Piv1Error::CumulativeReconciliationMismatch)
        } else if expected_delta > u64::MAX || proposed > u64::MAX {
            Err(Piv1Error::ArithmeticOverflow)
        } else if self.proposed_hwm_delta_lamports != expected_delta || proposed
            != self.proposed_hwm_after_settlement_lamports || self.stored_residual_hwm_floor_lamports
            < self.proposed_hwm_after_settlement_lamports {
            Err(Piv1Error::HighWaterMarkDecrease)
        } else {
            Ok(())
        }
    }

    /// All eighteen withdrawal quantities of a liquid-only round are zero.
    pub open spec fn liquid_withdrawal_fields_zero(self) -> bool {
        self.snapshot_leg_input_floor_units == 0 && self.maximum_useful_legs == 0
            && self.stored_round_minimum_native_lamports == 0
            && self.cumulative_jitosol_assigned_units == 0
            && self.cumulative_withdrawal_fee_units == 0 && self.cumulative_burned_units == 0
            && self.cumulative_expected_native_lamports == 0
            && self.cumulative_delegated_native_lamports == 0
            && self.cumulative_finalized_delegated_native_lamports == 0
            && self.cumulative_finalized_native_lamports == 0
            && self.cumulative_recovered_stake_rent_lamports == 0
            && self.cumulative_recovered_metadata_rent_lamports == 0
            && self.cumulative_cooldown_rewards_lamports == 0
            && self.cumulative_cooldown_losses_lamports == 0 && self.next_leg_index == 0
            && self.successful_leg_count == 0 && self.finalized_leg_count == 0
    }

    /// Cumulative leg accounting checks.
    pub open spec fn spec_withdrawal_accounting(self) -> Piv1Result<()> {
        let fin_left = self.cumulative_finalized_delegated_native_lamports
            + self.cumulative_recovered_stake_rent_lamports + self.cumulative_cooldown_rewards_lamports;
        let fin_right = self.cumulative_finalized_native_lamports + self.cumulative_cooldown_losses_lamports;
        let prior = self.spec_prior_used();
        let liquid = self.pending_sol_used_lamports + prior->Ok_0;
        if self.cumulative_jitosol_assigned_units > self.fixed_jitosol_withdrawal_target_units {
            Err(Piv1Error::TargetExceeded)
        } else if self.cumulative_withdrawal_fee_units + self.cumulative_burned_units > u64::MAX {
            Err(Piv1Error::ArithmeticOverflow)
        } else if self.cumulative_withdrawal_fee_units + self.cumulative_burned_units
            != self.cumulative_jitosol_assigned_units {
            Err(Piv1Error::CumulativeReconciliationMismatch)
        } else if self.finalized_leg_count > self.successful_leg_count || self.next_leg_index
            != self.successful_leg_count {
            Err(Piv1Error::CountMismatch)
        } else if self.cumulative_finalized_delegated_native_lamports
            > self.cumulative_delegated_native_lamports {
            Err(Piv1Error::CumulativeReconciliationMismatch)
        } else if self.successful_leg_count == 0 && (self.cumulative_jitosol_assigned_units != 0
            || self.cumulative_expected_native_lamports != 0
            || self.cumulative_delegated_native_lamports != 0) {
            Err(Piv1Error::CumulativeReconciliationMismatch)
        } else if self.finalized_leg_count == 0 && (self.cumulative_finalized_delegated_native_lamports
            != 0 || self.cumulative_finalized_native_lamports != 0
            || self.cumulative_recovered_stake_rent_lamports != 0
            || self.cumulative_recovered_metadata_rent_lamports != 0
            || self.cumulative_cooldown_rewards_lamports != 0
            || self.cumulative_cooldown_losses_lamports != 0) {
            Err(Piv1Error::CumulativeReconciliationMismatch)
        } else if (self.cumulative_cooldown_losses_lamports > 0) != (self.recovery_flags
            & RECOVERY_FLAG_COOLDOWN_LOSS != 0) {
            Err(Piv1Error::CumulativeReconciliationMismatch)
        } else if self.fixed_jitosol_withdrawal_target_units == 0
            && !self.liquid_withdrawal_fields_zero() {
            Err(Piv1Error::CumulativeReconciliationMismatch)
        } else if self.fixed_jitosol_withdrawal_target_units != 0 && (
        self.snapshot_leg_input_floor_units == 0 || self.stored_round_minimum_native_lamports == 0) {
            Err(Piv1Error::TechnicalFloorNotMet)
        } else if self.fixed_jitosol_withdrawal_target_units != 0 && (
        self.fixed_jitosol_withdrawal_target_units / self.snapshot_leg_input_floor_units == 0
            || self.fixed_jitosol_withdrawal_target_units / self.snapshot_leg_input_floor_units
            != self.maximum_useful_legs || self.successful_leg_count > self.maximum_useful_legs) {
            Err(Piv1Error::UsefulLegBoundExceeded)
        } else if fin_left > u64::MAX || fin_right > u64::MAX {
            Err(Piv1Error::ArithmeticOverflow)
        } else if fin_left != fin_right {
            Err(Piv1Error::CumulativeReconciliationMismatch)
        } else if prior is Err {
            Err(Piv1Error::CumulativeReconciliationMismatch)
        } else if liquid + self.cumulative_finalized_native_lamports > u64::MAX {
            Err(Piv1Error::ArithmeticOverflow)
        } else if liquid + self.cumulative_finalized_native_lamports
            < self.cumulative_recovered_stake_rent_lamports {
            Err(Piv1Error::CumulativeReconciliationMismatch)
        } else if liquid + self.cumulative_finalized_native_lamports
            - self.cumulative_recovered_stake_rent_lamports != self.recorded_escrow_available_lamports {
            Err(Piv1Error::EscrowReconciliationMismatch)
        } else if self.spec_withdrawal_complete() && (
        self.cumulative_finalized_delegated_native_lamports != self.cumulative_delegated_native_lamports
            || self.cumulative_delegated_native_lamports < self.stored_round_minimum_native_lamports) {
            Err(Piv1Error::CumulativeReconciliationMismatch)
        } else {
            Ok(())
        }
    }

    /// Settlement accounting checks of a Settled round.
    pub open spec fn spec_settlement_accounting(self) -> Piv1Result<()> {
        let prior = self.spec_prior_used();
        let eligible = self.pending_sol_used_lamports + prior->Ok_0
            + self.cumulative_finalized_delegated_native_lamports;
        let net = min_u64(self.outgoing_gross_obligation_lamports, eligible as u64);
        let alloc = spec_net_allocation(
            net,
            self.htfp_gross_obligation_lamports,
            self.team_owner_gross_obligation_lamports,
            self.kif_gross_obligation_lamports,
        );
        let categorized = self.actual_net_allocation_dust_lamports
            + self.cumulative_cooldown_rewards_lamports + self.actual_retained_conservative_dust_lamports;
        let kif = spec_allocate_kif(
            self.actual_kif_allocation_lamports,
            self.kif_carry_input_lamports,
            self.kif_active_guardian_count,
        );
        let delta = self.proposed_hwm_delta_lamports + self.actual_net_allocation_dust_lamports
            + self.actual_retained_conservative_dust_lamports
            + self.actual_zero_active_kif_compound_lamports;
        if prior is Err {
            Err(Piv1Error::CumulativeReconciliationMismatch)
        } else if eligible > u64::MAX {
            Err(Piv1Error::ArithmeticOverflow)
        } else if self.actual_net_available_lamports != net {
            Err(Piv1Error::CumulativeReconciliationMismatch)
        } else if self.actual_htfp_lamports > self.htfp_gross_obligation_lamports
            || self.actual_team_owner_lamports > self.team_owner_gross_obligation_lamports
            || self.actual_kif_allocation_lamports > self.kif_gross_obligation_lamports {
            Err(Piv1Error::ObligationExceeded)
        } else if self.actual_htfp_lamports != alloc.htfp_lamports || self.actual_team_owner_lamports
            != alloc.team_owner_lamports || self.actual_kif_allocation_lamports != alloc.kif_lamports
            || self.actual_net_allocation_dust_lamports != alloc.dust_lamports
            || self.actual_allocated_outgoing_lamports != alloc.allocated_lamports {
            Err(Piv1Error::CumulativeReconciliationMismatch)
        } else if self.recorded_escrow_available_lamports < self.actual_allocated_outgoing_lamports {
            Err(Piv1Error::CumulativeReconciliationMismatch)
        } else if self.recorded_escrow_available_lamports - self.actual_allocated_outgoing_lamports
            != self.actual_escrow_remainder_lamports {
            Err(Piv1Error::EscrowReconciliationMismatch)
        } else if categorized > u64::MAX {
            Err(Piv1Error::ArithmeticOverflow)
        } else if categorized != self.actual_escrow_remainder_lamports {
            Err(Piv1Error::CumulativeReconciliationMismatch)
        } else if self.actual_retained_conservative_dust_lamports != eligible
            - self.actual_net_available_lamports {
            Err(Piv1Error::CumulativeReconciliationMismatch)
        } else if kif is Err {
            Err(spec_from_math(kif->Err_0))
        } else if (match kif->Ok_0 {
            KifAllocation::ActiveGuardians(a) => self.actual_kif_liability_lamports
                != a.credited_total || self.actual_kif_carry_next_lamports != a.carry_next
                || self.actual_zero_active_kif_compound_lamports != 0,
            KifAllocation::ZeroActiveGuardians(z) => self.actual_kif_liability_lamports != 0
                || self.actual_kif_carry_next_lamports != z.carry_next
                || self.actual_zero_active_kif_compound_lamports != z.compound_from_kif,
        }) {
            Err(Piv1Error::CumulativeReconciliationMismatch)
        } else if delta > u64::MAX {
            Err(Piv1Error::ArithmeticOverflow)
        } else if delta != self.actual_hwm_delta_lamports {
            Err(Piv1Error::HighWaterMarkDecrease)
        } else if self.old_protected_principal_lamports + self.actual_hwm_delta_lamports > u64::MAX {
            Err(Piv1Error::ArithmeticOverflow)
        } else if self.old_protected_principal_lamports + self.actual_hwm_delta_lamports
            != self.settled_protected_hwm_lamports {
            Err(Piv1Error::HighWaterMarkDecrease)
        } else {
            Ok(())
        }
    }

    /// All settlement results are still zero and the liability is outstanding.
    pub open spec fn spec_settlement_fields_zero(self) -> Piv1Result<()> {
        if self.outstanding_active_round_liability_lamports != self.outgoing_gross_obligation_lamports {
            Err(Piv1Error::OutstandingLiability)
        } else if self.actual_net_available_lamports != 0 || self.actual_htfp_lamports != 0
            || self.actual_team_owner_lamports != 0 || self.actual_kif_allocation_lamports != 0
            || self.actual_net_allocation_dust_lamports != 0
            || self.actual_allocated_outgoing_lamports != 0
            || self.actual_escrow_remainder_lamports != 0
            || self.actual_retained_conservative_dust_lamports != 0
            || self.actual_kif_liability_lamports != 0 || self.actual_kif_carry_next_lamports != 0
            || self.actual_zero_active_kif_compound_lamports != 0
            || self.actual_hwm_delta_lamports != 0 || self.settled_protected_hwm_lamports != 0 {
            Err(Piv1Error::CumulativeReconciliationMismatch)
        } else {
            Ok(())
        }
    }

    /// Phase-specific checks after the shared snapshot and accounting checks.
    pub open spec fn spec_phase(self) -> Piv1Result<()> {
        let target = self.fixed_jitosol_withdrawal_target_units;
        match self.lifecycle {
            DistributionLifecycle::Idle => Err(Piv1Error::InvalidLifecycle),
            DistributionLifecycle::WithdrawalActive => if target == 0
                || self.spec_withdrawal_complete() || self.settlement_recorded
                || self.recovery_flags != 0 {
                Err(Piv1Error::InvalidLifecycle)
            } else {
                self.spec_settlement_fields_zero()
            },
            DistributionLifecycle::EscrowFunded => if target > 0 && !self.spec_withdrawal_complete() {
                Err(Piv1Error::TargetNotAssigned)
            } else if self.settlement_recorded || self.recovery_flags != 0 {
                Err(Piv1Error::InvalidLifecycle)
            } else {
                self.spec_settlement_fields_zero()
            },
            DistributionLifecycle::Settled => if self.outstanding_active_round_liability_lamports != 0 {
                Err(Piv1Error::OutstandingLiability)
            } else if !self.settlement_recorded || self.recovery_flags != 0 {
                Err(Piv1Error::InvalidLifecycle)
            } else if target > 0 && !self.spec_withdrawal_complete() {
                Err(Piv1Error::TargetNotAssigned)
            } else {
                self.spec_settlement_accounting()
            },
            DistributionLifecycle::RecoveryRequired => if self.recovery_flags == 0
                || self.recovery_flags & !ALLOWED_RECOVERY_FLAGS != 0 || self.settlement_recorded {
                Err(Piv1Error::InvalidLifecycle)
            } else if self.cumulative_cooldown_losses_lamports > 0 && self.recovery_flags
                & RECOVERY_FLAG_COOLDOWN_LOSS == 0 {
                Err(Piv1Error::CumulativeReconciliationMismatch)
            } else {
                self.spec_settlement_fields_zero()
            },
        }
    }

    /// Complete validation outcome of the header.
    pub open spec fn spec_validate(self) -> Piv1Result<()> {
        if self.version != STATE_LAYOUT_VERSION {
            Err(Piv1Error::InvalidVersion)
        } else if !self.is_initialized {
            Err(Piv1Error::InvalidInitialization)
        } else if self.lifecycle == DistributionLifecycle::Idle {
            if self.is_idle_layout(self.bump, self.last_completed) {
                Ok(())
            } else {
                Err(Piv1Error::InvalidLifecycle)
            }
        } else if self.spec_active_snapshot() is Err {
            self.spec_active_snapshot()
        } else if self.spec_withdrawal_accounting() is Err {
            self.spec_withdrawal_accounting()
        } else {
            self.spec_phase()
        }
    }

    /// True when the header passes validation.
    pub open spec fn valid(self) -> bool {
        self.spec_validate() is Ok
    }

    /// Creates an explicitly initialized reusable header in the Idle phase.
    pub fn new_idle(bump: u8) -> (r: ActiveDistribution)
        ensures
            r.is_idle_layout(bump, None),
            r.valid(),
    {
        Self::idle_with_summary(bump, None)
    }

    /// Returns the unassigned portion of the immutable withdrawal target.
    pub fn remaining_withdrawal_target_units(&self) -> (r: Piv1Result<u64>)
        ensures
            r == self.spec_remaining_target(),
    {
        match self.fixed_jitosol_withdrawal_target_units.checked_sub(
            self.cumulative_jitosol_assigned_units,
        ) {
            Some(v) => Ok(v),
            None => Err(Piv1Error::TargetExceeded),
        }
    }

    /// Prior-cycle yield used as liquid funding after pending SOL is used first.
    pub fn prior_next_cycle_yield_used_lamports(&self) -> (r: Piv1Result<u64>)
        ensures
            r == self.spec_prior_used(),
    {
        let remaining_after_pending = match self.outgoing_gross_obligation_lamports.checked_sub(
            self.pending_sol_used_lamports,
        ) {
            Some(v) => v,
            None => return Err(Piv1Error::CumulativeReconciliationMismatch),
        };
        Ok(min_amount(self.prior_next_cycle_yield_lamports, remaining_after_pending))
    }

    /// True only before any successful withdrawal leg has assigned the target.
    pub fn is_prepared_withdrawal(&self) -> (r: bool)
        ensures
            r == self.spec_is_prepared_withdrawal(),
    {
        self.lifecycle == DistributionLifecycle::WithdrawalActive
            && self.cumulative_jitosol_assigned_units == 0
            && self.fixed_jitosol_withdrawal_target_units > 0
    }

    /// True while a nonzero target remains after at least one assignment.
    pub fn is_assigning_withdrawal_legs(&self) -> (r: bool)
        ensures
            r == self.spec_is_assigning(),
    {
        self.lifecycle == DistributionLifecycle::WithdrawalActive
            && self.cumulative_jitosol_assigned_units > 0
            && self.cumulative_jitosol_assigned_units < self.fixed_jitosol_withdrawal_target_units
    }

    /// Exact target-assignment predicate; a liquid-only round is not assigned.
    pub fn is_withdrawal_target_assigned(&self) -> (r: bool)
        ensures
            r == self.spec_target_assigned(),
    {
        self.fixed_jitosol_withdrawal_target_units > 0 && self.cumulative_jitosol_assigned_units
            == self.fixed_jitosol_withdrawal_target_units
    }

    /// True when one or more successful stake legs remain unfinalized.
    pub fn is_awaiting_leg_inactivity(&self) -> (r: bool)
        ensures
            r == self.spec_awaiting_inactivity(),
    {
        self.successful_leg_count > self.finalized_leg_count
    }

    /// True after at least one finalization until the whole withdrawal completes.
    pub fn is_partially_finalized(&self) -> (r: bool)
        ensures
            r == self.spec_partially_finalized(),
    {
        self.finalized_leg_count > 0 && !self.is_withdrawal_complete()
    }

    /// True when at least one successful leg exists and all such legs finalized.
    pub fn are_all_successful_legs_finalized(&self) -> (r: bool)
        ensures
            r == self.spec_all_legs_finalized(),
    {
        self.successful_leg_count > 0 && self.successful_leg_count == self.finalized_leg_count
    }

    /// Complete withdrawal predicate used before escrow funding and settlement.
    pub fn is_withdrawal_complete(&self) -> (r: bool)
        ensures
            r == self.spec_withdrawal_complete(),
    {
        self.is_withdrawal_target_assigned() && self.are_all_successful_legs_finalized()
    }

    /// Validates the normalized layout and every internally derivable identity.
    pub fn validate(&self) -> (r: Piv1Result<()>)
        ensures
            r == self.spec_validate(),
    {
        if self.version != STATE_LAYOUT_VERSION {
            return Err(Piv1Error::InvalidVersion);
        }
        if !self.is_initialized {
            return Err(Piv1Error::InvalidInitialization);
        }
        if self.lifecycle == DistributionLifecycle::Idle {
            if !self.matches_idle_layout() {
                return Err(Piv1Error::InvalidLifecycle);
            }
            return Ok(());
        }
        self.validate_active_snapshot()?;
        self.validate_withdrawal_accounting()?;
        self.validate_phase()
    }

    fn validate_phase(&self) -> (r: Piv1Result<()>)
        requires
            self.lifecycle != DistributionLifecycle::Idle,
        ensures
            r == self.spec_phase(),
    {
        match self.lifecycle {
            DistributionLifecycle::Idle => Err(Piv1Error::InvalidLifecycle),
            DistributionLifecycle::WithdrawalActive => {
                if self.fixed_jitosol_withdrawal_target_units == 0 || self.is_withdrawal_complete()
                    || self.settlement_recorded || self.recovery_flags != 0 {
                    return Err(Piv1Error::InvalidLifecycle);
                }
                self.require_actual_settlement_fields_zero()
            },
            DistributionLifecycle::EscrowFunded => {
                if self.fixed_jitosol_withdrawal_target_units > 0 && !self.is_withdrawal_complete() {
                    return Err(Piv1Error::TargetNotAssigned);
                }
                if self.settlement_recorded || self.recovery_flags != 0 {
                    return Err(Piv1Error::InvalidLifecycle);
                }
                self.require_actual_settlement_fields_zero()
            },
            DistributionLifecycle::Settled => {
                if self.outstanding_active_round_liability_lamports != 0 {
                    return Err(Piv1Error::OutstandingLiability);
                }
                if !self.settlement_recorded || self.recovery_flags != 0 {
                    return Err(Piv1Error::InvalidLifecycle);
                }
                if self.fixed_jitosol_withdrawal_target_units > 0 && !self.is_withdrawal_complete() {
                    return Err(Piv1Error::TargetNotAssigned);
                }
                self.validate_settlement_accounting()
            },
            DistributionLifecycle::RecoveryRequired => {
                if self.recovery_flags == 0 || self.recovery_flags & !ALLOWED_RECOVERY_FLAGS != 0
                    || self.settlement_recorded {
                    return Err(Piv1Error::InvalidLifecycle);
                }
                if self.cumulative_cooldown_losses_lamports > 0 && self.recovery_flags
                    & RECOVERY_FLAG_COOLDOWN_LOSS == 0 {
                    return Err(Piv1Error::CumulativeReconciliationMismatch);
                }
                self.require_actual_settlement_fields_zero()
            },
        }
    }

    /// The Idle header that retains `summary` as the last completed round.
    pub fn idle_after_completion(bump: u8, summary: CompletedDistributionSummary) -> (r:
        ActiveDistribution)
        ensures
            r.is_idle_layout(bump, Some(summary)),
            r.valid(),
    {
        Self::idle_with_summary(bump, Some(summary))
    }

    fn idle_with_summary(bump: u8, last_completed: Option<CompletedDistributionSummary>) -> (r:
        ActiveDistribution)
        ensures
            r.is_idle_layout(bump, last_completed),
            r.valid(),
    {
        let z = Pubkey::default();
        let r = ActiveDistribution {
            version: STATE_LAYOUT_VERSION,
            bump: bump,
            is_initialized: true,
            lifecycle: DistributionLifecycle::Idle,
            recovery_flags: 0,
            settlement_recorded: false,
            active_sequence: 0,
            last_completed: last_completed,
            prepared_at: 0,
            prepared_slot: 0,
            prepared_epoch: 0,
            old_protected_principal_lamports: 0,
            historical_jitosol_units: 0,
            historical_sol_lamports: 0,
            historical_value_lamports: 0,
            snapshot_pool_total_lamports: 0,
            snapshot_pool_token_supply: 0,
            snapshot_withdrawal_fee_numerator: 0,
            snapshot_withdrawal_fee_denominator: 0,
            gross_yield_lamports: 0,
            prior_next_cycle_yield_lamports: 0,
            htfp_gross_obligation_lamports: 0,
            permanent_compound_lamports: 0,
            team_owner_gross_obligation_lamports: 0,
            kif_gross_obligation_lamports: 0,
            split_dust_lamports: 0,
            outgoing_gross_obligation_lamports: 0,
            pending_sol_snapshot_lamports: 0,
            pending_sol_used_lamports: 0,
            snapshot_conversion_dust_lamports: 0,
            fixed_jitosol_withdrawal_target_units: 0,
            snapshot_leg_input_floor_units: 0,
            maximum_useful_legs: 0,
            stored_round_minimum_native_lamports: 0,
            stored_residual_hwm_floor_lamports: 0,
            stored_slippage_bps: 0,
            cumulative_jitosol_assigned_units: 0,
            cumulative_withdrawal_fee_units: 0,
            cumulative_burned_units: 0,
            cumulative_expected_native_lamports: 0,
            cumulative_delegated_native_lamports: 0,
            cumulative_finalized_delegated_native_lamports: 0,
            cumulative_finalized_native_lamports: 0,
            cumulative_recovered_stake_rent_lamports: 0,
            cumulative_recovered_metadata_rent_lamports: 0,
            cumulative_cooldown_rewards_lamports: 0,
            cumulative_cooldown_losses_lamports: 0,
            next_leg_index: 0,
            successful_leg_count: 0,
            finalized_leg_count: 0,
            recorded_escrow_available_lamports: 0,
            outstanding_active_round_liability_lamports: 0,
            htfp_recipient: z,
            team_owner_recipient: z,
            guardian_registry: z,
            guardian_registry_revision: 0,
            guardian_keys: [z, z, z, z, z, z],
            kif_eligibility_bitmap: 0,
            kif_active_guardian_count: 0,
            kif_period_id: 0,
            kif_carry_input_lamports: 0,
            proposed_hwm_delta_lamports: 0,
            proposed_hwm_after_settlement_lamports: 0,
            actual_net_available_lamports: 0,
            actual_htfp_lamports: 0,
            actual_team_owner_lamports: 0,
            actual_kif_allocation_lamports: 0,
            actual_net_allocation_dust_lamports: 0,
            actual_allocated_outgoing_lamports: 0,
            actual_escrow_remainder_lamports: 0,
            actual_retained_conservative_dust_lamports: 0,
            actual_kif_liability_lamports: 0,
            actual_kif_carry_next_lamports: 0,
            actual_zero_active_kif_compound_lamports: 0,
            actual_hwm_delta_lamports: 0,
            settled_protected_hwm_lamports: 0,
        };
        proof {
            assert(forall|i: int| 0 <= i < 6 ==> (#[trigger] r.guardian_keys[i]).is_zero());
        }
        r
    }

    fn matches_idle_layout(&self) -> (r: bool)
        ensures
            r == self.is_idle_layout(self.bump, self.last_completed),
    {
        let z = Pubkey::default();
        let keys_zero = self.guardian_keys[0] == z && self.guardian_keys[1] == z
            && self.guardian_keys[2] == z && self.guardian_keys[3] == z && self.guardian_keys[4]
            == z && self.guardian_keys[5] == z;
        proof {
            if keys_zero {
                assert forall|i: int| 0 <= i < 6 implies (#[trigger] self.guardian_keys[i]).is_zero() by {
                    assert(i == 0 || i == 1 || i == 2 || i == 3 || i == 4 || i == 5);
                }
            }
        }
        self.version == STATE_LAYOUT_VERSION && self.is_initialized && self.lifecycle
            == DistributionLifecycle::Idle && !self.settlement_recorded && self.htfp_recipient == z
            && self.team_owner_recipient == z && self.guardian_registry == z && keys_zero
            && self.recovery_flags == 0
            && self.active_sequence == 0
            && self.prepared_at == 0
            && self.prepared_slot == 0
            && self.prepared_epoch == 0
            && self.old_protected_principal_lamports == 0
            && self.historical_jitosol_units == 0
            && self.historical_sol_lamports == 0
            && self.historical_value_lamports == 0
            && self.snapshot_pool_total_lamports == 0
            && self.snapshot_pool_token_supply == 0
            && self.snapshot_withdrawal_fee_numerator == 0
            && self.snapshot_withdrawal_fee_denominator == 0
            && self.gross_yield_lamports == 0
            && self.prior_next_cycle_yield_lamports == 0
            && self.htfp_gross_obligation_lamports == 0
            && self.permanent_compound_lamports == 0
            && self.team_owner_gross_obligation_lamports == 0
            && self.kif_gross_obligation_lamports == 0
            && self.split_dust_lamports == 0
            && self.outgoing_gross_obligation_lamports == 0
            && self.pending_sol_snapshot_lamports == 0
            && self.pending_sol_used_lamports == 0
            && self.snapshot_conversion_dust_lamports == 0
            && self.fixed_jitosol_withdrawal_target_units == 0
            && self.snapshot_leg_input_floor_units == 0
            && self.maximum_useful_legs == 0
            && self.stored_round_minimum_native_lamports == 0
            && self.stored_residual_hwm_floor_lamports == 0
            && self.stored_slippage_bps == 0
            && self.cumulative_jitosol_assigned_units == 0
            && self.cumulative_withdrawal_fee_units == 0
            && self.cumulative_burned_units == 0
            && self.cumulative_expected_native_lamports == 0
            && self.cumulative_delegated_native_lamports == 0
            && self.cumulative_finalized_delegated_native_lamports == 0
            && self.cumulative_finalized_native_lamports == 0
            && self.cumulative_recovered_stake_rent_lamports == 0
            && self.cumulative_recovered_metadata_rent_lamports == 0
            && self.cumulative_cooldown_rewards_lamports == 0
            && self.cumulative_cooldown_losses_lamports == 0
            && self.next_leg_index == 0
            && self.successful_leg_count == 0
            && self.finalized_leg_count == 0
            && self.recorded_escrow_available_lamports == 0
            && self.outstanding_active_round_liability_lamports == 0
            && self.guardian_registry_revision == 0
            && self.kif_eligibility_bitmap == 0
            && self.kif_active_guardian_count == 0
            && self.kif_period_id == 0
            && self.kif_carry_input_lamports == 0
            && self.proposed_hwm_delta_lamports == 0
            && self.proposed_hwm_after_settlement_lamports == 0
            && self.actual_net_available_lamports == 0
            && self.actual_htfp_lamports == 0
            && self.actual_team_owner_lamports == 0
            && self.actual_kif_allocation_lamports == 0
            && self.actual_net_allocation_dust_lamports == 0
            && self.actual_allocated_outgoing_lamports == 0
            && self.actual_escrow_remainder_lamports == 0
            && self.actual_retained_conservative_dust_lamports == 0
            && self.actual_kif_liability_lamports == 0
            && self.actual_kif_carry_next_lamports == 0
            && self.actual_zero_active_kif_compound_lamports == 0
            && self.actual_hwm_delta_lamports == 0
            && self.settled_protected_hwm_lamports == 0
    }

    fn validate_active_snapshot(&self) -> (r: Piv1Result<()>)
        ensures
            r == self.spec_active_snapshot(),
    {
        let z = Pubkey::default();
        if self.htfp_recipient == z || self.team_owner_recipient == z || self.guardian_registry == z {
            return Err(Piv1Error::InvalidAddress);
        }
        if self.htfp_recipient == self.team_owner_recipient || self.htfp_recipient
            == self.guardian_registry || self.team_owner_recipient == self.guardian_registry {
            return Err(Piv1Error::InvalidAddress);
        }
        if self.stored_slippage_bps > MAX_CONFIGURED_SLIPPAGE_BPS {
            return Err(Piv1Error::InvalidSlippage);
        }
        if self.snapshot_pool_total_lamports == 0 || self.snapshot_pool_token_supply == 0 {
            return Err(Piv1Error::InvalidInitialization);
        }
        if !check_guardian_keys(&self.guardian_keys) {
            return Err(Piv1Error::InvalidGuardianSet);
        }
        if self.kif_eligibility_bitmap & !GUARDIAN_BITMAP_MASK != 0 || count_ones(
            self.kif_eligibility_bitmap,
        ) != self.kif_active_guardian_count as u32 || self.kif_active_guardian_count > 6 {
            return Err(Piv1Error::InvalidGuardianBitmap);
        }
        let expected_gross_yield = derive_gross_yield_lamports(
            self.historical_value_lamports,
            self.prior_next_cycle_yield_lamports,
            self.old_protected_principal_lamports,
        )?;
        if expected_gross_yield != self.gross_yield_lamports || self.gross_yield_lamports == 0 {
            return Err(Piv1Error::CumulativeReconciliationMismatch);
        }
        let split = match split_gross_yield(self.gross_yield_lamports) {
            Ok(s) => s,
            Err(e) => return Err(from_math(e)),
        };
        if self.htfp_gross_obligation_lamports != split.htfp_reserve
            || self.permanent_compound_lamports != split.permanent_compound
            || self.team_owner_gross_obligation_lamports != split.team_owner_pool
            || self.kif_gross_obligation_lamports != split.kif || self.split_dust_lamports
            != split.dust {
            return Err(Piv1Error::InvalidSplit);
        }
        let outgoing = checked_add(
            checked_add(self.htfp_gross_obligation_lamports, self.team_owner_gross_obligation_lamports)?,
            self.kif_gross_obligation_lamports,
        )?;
        if outgoing == 0 || outgoing != self.outgoing_gross_obligation_lamports {
            return Err(Piv1Error::ZeroTarget);
        }
        if self.pending_sol_used_lamports != min_amount(
            self.pending_sol_snapshot_lamports,
            self.outgoing_gross_obligation_lamports,
        ) {
            return Err(Piv1Error::CumulativeReconciliationMismatch);
        }
        let expected_proposed_hwm_delta = checked_add(
            checked_add(self.permanent_compound_lamports, self.split_dust_lamports)?,
            self.snapshot_conversion_dust_lamports,
        )?;
        let proposed_hwm = checked_add(
            self.old_protected_principal_lamports,
            self.proposed_hwm_delta_lamports,
        )?;
        if self.proposed_hwm_delta_lamports != expected_proposed_hwm_delta || proposed_hwm
            != self.proposed_hwm_after_settlement_lamports || self.stored_residual_hwm_floor_lamports
            < self.proposed_hwm_after_settlement_lamports {
            return Err(Piv1Error::HighWaterMarkDecrease);
        }
        Ok(())
    }

    fn validate_withdrawal_accounting(&self) -> (r: Piv1Result<()>)
        ensures
            r == self.spec_withdrawal_accounting(),
    {
        if self.cumulative_jitosol_assigned_units > self.fixed_jitosol_withdrawal_target_units {
            return Err(Piv1Error::TargetExceeded);
        }
        if checked_add(self.cumulative_withdrawal_fee_units, self.cumulative_burned_units)?
            != self.cumulative_jitosol_assigned_units {
            return Err(Piv1Error::CumulativeReconciliationMismatch);
        }
        if self.finalized_leg_count > self.successful_leg_count || self.next_leg_index
            != self.successful_leg_count {
            return Err(Piv1Error::CountMismatch);
        }
        if self.cumulative_finalized_delegated_native_lamports
            > self.cumulative_delegated_native_lamports {
            return Err(Piv1Error::CumulativeReconciliationMismatch);
        }
        if self.successful_leg_count == 0 && (self.cumulative_jitosol_assigned_units != 0
            || self.cumulative_expected_native_lamports != 0
            || self.cumulative_delegated_native_lamports != 0) {
            return Err(Piv1Error::CumulativeReconciliationMismatch);
        }
        if self.finalized_leg_count == 0 && (self.cumulative_finalized_delegated_native_lamports != 0
            || self.cumulative_finalized_native_lamports != 0
            || self.cumulative_recovered_stake_rent_lamports != 0
            || self.cumulative_recovered_metadata_rent_lamports != 0
            || self.cumulative_cooldown_rewards_lamports != 0
            || self.cumulative_cooldown_losses_lamports != 0) {
            return Err(Piv1Error::CumulativeReconciliationMismatch);
        }
        let has_cooldown_loss = self.cumulative_cooldown_losses_lamports > 0;
        let cooldown_loss_flagged = self.recovery_flags & RECOVERY_FLAG_COOLDOWN_LOSS != 0;
        if has_cooldown_loss != cooldown_loss_flagged {
            return Err(Piv1Error::CumulativeReconciliationMismatch);
        }
        if self.fixed_jitosol_withdrawal_target_units == 0 {
            if self.snapshot_leg_input_floor_units != 0 || self.maximum_useful_legs != 0
                || self.stored_round_minimum_native_lamports != 0
                || self.cumulative_jitosol_assigned_units != 0
                || self.cumulative_withdrawal_fee_units != 0 || self.cumulative_burned_units != 0
                || self.cumulative_expected_native_lamports != 0
                || self.cumulative_delegated_native_lamports != 0
                || self.cumulative_finalized_delegated_native_lamports != 0
                || self.cumulative_finalized_native_lamports != 0
                || self.cumulative_recovered_stake_rent_lamports != 0
                || self.cumulative_recovered_metadata_rent_lamports != 0
                || self.cumulative_cooldown_rewards_lamports != 0
                || self.cumulative_cooldown_losses_lamports != 0 || self.next_leg_index != 0
                || self.successful_leg_count != 0 || self.finalized_leg_count != 0 {
                return Err(Piv1Error::CumulativeReconciliationMismatch);
            }
        } else {
            if self.snapshot_leg_input_floor_units == 0
                || self.stored_round_minimum_native_lamports == 0 {
                return Err(Piv1Error::TechnicalFloorNotMet);
            }
            let expected_maximum = self.fixed_jitosol_withdrawal_target_units
                / self.snapshot_leg_input_floor_units;
            if expected_maximum == 0 || expected_maximum != self.maximum_useful_legs {
                return Err(Piv1Error::UsefulLegBoundExceeded);
            }
            if self.successful_leg_count > self.maximum_useful_legs {
                return Err(Piv1Error::UsefulLegBoundExceeded);
            }
        }
        let finalized_left = checked_add(
            checked_add(
                self.cumulative_finalized_delegated_native_lamports,
                self.cumulative_recovered_stake_rent_lamports,
            )?,
            self.cumulative_cooldown_rewards_lamports,
        )?;
        let finalized_right = checked_add(
            self.cumulative_finalized_native_lamports,
            self.cumulative_cooldown_losses_lamports,
        )?;
        if finalized_left != finalized_right {
            return Err(Piv1Error::CumulativeReconciliationMismatch);
        }
        let initial_liquid_funding = checked_add(
            self.pending_sol_used_lamports,
            self.prior_next_cycle_yield_used_lamports()?,
        )?;
        let expected_escrow = checked_sub(
            checked_add(initial_liquid_funding, self.cumulative_finalized_native_lamports)?,
            self.cumulative_recovered_stake_rent_lamports,
        )?;
        if expected_escrow != self.recorded_escrow_available_lamports {
            return Err(Piv1Error::EscrowReconciliationMismatch);
        }
        if self.is_withdrawal_complete() {
            if self.cumulative_finalized_delegated_native_lamports
                != self.cumulative_delegated_native_lamports
                || self.cumulative_delegated_native_lamports
                < self.stored_round_minimum_native_lamports {
                return Err(Piv1Error::CumulativeReconciliationMismatch);
            }
        }
        Ok(())
    }

    fn validate_settlement_accounting(&self) -> (r: Piv1Result<()>)
        ensures
            r == self.spec_settlement_accounting(),
    {
        let eligible_native = checked_add(
            checked_add(
                self.pending_sol_used_lamports,
                self.prior_next_cycle_yield_used_lamports()?,
            )?,
            self.cumulative_finalized_delegated_native_lamports,
        )?;
        let expected_actual_net = min_amount(self.outgoing_gross_obligation_lamports, eligible_native);
        if self.actual_net_available_lamports != expected_actual_net {
            return Err(Piv1Error::CumulativeReconciliationMismatch);
        }
        if self.actual_htfp_lamports > self.htfp_gross_obligation_lamports
            || self.actual_team_owner_lamports > self.team_owner_gross_obligation_lamports
            || self.actual_kif_allocation_lamports > self.kif_gross_obligation_lamports {
            return Err(Piv1Error::ObligationExceeded);
        }
        let expected_allocation = derive_net_beneficiary_allocation(
            expected_actual_net,
            self.htfp_gross_obligation_lamports,
            self.team_owner_gross_obligation_lamports,
            self.kif_gross_obligation_lamports,
        )?;
        if self.actual_htfp_lamports != expected_allocation.htfp_lamports
            || self.actual_team_owner_lamports != expected_allocation.team_owner_lamports
            || self.actual_kif_allocation_lamports != expected_allocation.kif_lamports
            || self.actual_net_allocation_dust_lamports != expected_allocation.dust_lamports
            || self.actual_allocated_outgoing_lamports != expected_allocation.allocated_lamports {
            return Err(Piv1Error::CumulativeReconciliationMismatch);
        }
        if checked_sub(
            self.recorded_escrow_available_lamports,
            self.actual_allocated_outgoing_lamports,
        )? != self.actual_escrow_remainder_lamports {
            return Err(Piv1Error::EscrowReconciliationMismatch);
        }
        let categorized_remainder = checked_add(
            checked_add(
                self.actual_net_allocation_dust_lamports,
                self.cumulative_cooldown_rewards_lamports,
            )?,
            self.actual_retained_conservative_dust_lamports,
        )?;
        if categorized_remainder != self.actual_escrow_remainder_lamports {
            return Err(Piv1Error::CumulativeReconciliationMismatch);
        }
        if self.actual_retained_conservative_dust_lamports != checked_sub(
            eligible_native,
            self.actual_net_available_lamports,
        )? {
            return Err(Piv1Error::CumulativeReconciliationMismatch);
        }
        let expected_kif = match allocate_kif(
            self.actual_kif_allocation_lamports,
            self.kif_carry_input_lamports,
            self.kif_active_guardian_count,
        ) {
            Ok(k) => k,
            Err(e) => return Err(from_math(e)),
        };
        match expected_kif {
            KifAllocation::ActiveGuardians(active) => {
                if self.actual_kif_liability_lamports != active.credited_total
                    || self.actual_kif_carry_next_lamports != active.carry_next
                    || self.actual_zero_active_kif_compound_lamports != 0 {
                    return Err(Piv1Error::CumulativeReconciliationMismatch);
                }
            },
            KifAllocation::ZeroActiveGuardians(zero) => {
                if self.actual_kif_liability_lamports != 0 || self.actual_kif_carry_next_lamports
                    != zero.carry_next || self.actual_zero_active_kif_compound_lamports
                    != zero.compound_from_kif {
                    return Err(Piv1Error::CumulativeReconciliationMismatch);
                }
            },
        }
        let actual_hwm_delta = checked_add(
            checked_add(
                checked_add(
                    self.proposed_hwm_delta_lamports,
                    self.actual_net_allocation_dust_lamports,
                )?,
                self.actual_retained_conservative_dust_lamports,
            )?,
            self.actual_zero_active_kif_compound_lamports,
        )?;
        if actual_hwm_delta != self.actual_hwm_delta_lamports {
            return Err(Piv1Error::HighWaterMarkDecrease);
        }
        if checked_add(self.old_protected_principal_lamports, self.actual_hwm_delta_lamports)?
            != self.settled_protected_hwm_lamports {
            return Err(Piv1Error::HighWaterMarkDecrease);
        }
        Ok(())
    }

    fn require_actual_settlement_fields_zero(&self) -> (r: Piv1Result<()>)
        ensures
            r == self.spec_settlement_fields_zero(),
    {
        if self.outstanding_active_round_liability_lamports != self.outgoing_gross_obligation_lamports {
            return Err(Piv1Error::OutstandingLiability);
        }
        if self.actual_net_available_lamports != 0 || self.actual_htfp_lamports != 0
            || self.actual_team_owner_lamports != 0 || self.actual_kif_allocation_lamports != 0
            || self.actual_net_allocation_dust_lamports != 0
            || self.actual_allocated_outgoing_lamports != 0
            || self.actual_escrow_remainder_lamports != 0
            || self.actual_retained_conservative_dust_lamports != 0
            || self.actual_kif_liability_lamports != 0 || self.actual_kif_carry_next_lamports != 0
            || self.actual_zero_active_kif_compound_lamports != 0
            || self.actual_hwm_delta_lamports != 0 || self.settled_protected_hwm_lamports != 0 {
            return Err(Piv1Error::CumulativeReconciliationMismatch);
        }
        Ok(())
    }
}

/// Stored state of one deterministic `(sequence, leg_index)` metadata record.
#[derive(Clone, Copy, Debug, PartialEq, Eq, Structural)]
pub enum WithdrawalLegStatus {
    /// Explicit vacant model before account initialization.
    Vacant,
    /// Protected withdrawal and immediate deactivation were recorded.
    Initiated,
    /// Full inactive-stake finalization and rent reconciliation were recorded.
    Finalized,
}

/// Bounded metadata for exactly one deterministic withdrawal stake leg.
#[derive(Clone, Copy, Debug, PartialEq, Eq, Structural)]
pub struct WithdrawalLeg {
    pub version: u8,
    pub metadata_bump: u8,
    pub stake_bump: u8,
    pub is_initialized: bool,
    pub status: WithdrawalLegStatus,
    pub recovery_flags: u8,
    pub sequence: u64,
    pub leg_index: u64,
    pub validator_list_index: u32,
    pub validator_seed_suffix: u32,
    pub validator_vote: Pubkey,
    pub validator_stake_source: Pubkey,
    pub initiation_epoch: u64,
    pub pool_total_lamports: u64,
    pub pool_token_supply: u64,
    pub withdrawal_fee_numerator: u64,
    pub withdrawal_fee_denominator: u64,
    pub technical_floor_units: u64,
    pub jitosol_input_units: u64,
    pub withdrawal_fee_units: u64,
    pub burned_units: u64,
    pub expected_native_lamports: u64,
    pub observed_delegated_native_lamports: u64,
    pub minimum_native_lamports: u64,
    pub stake_rent_advanced_lamports: u64,
    pub metadata_rent_advanced_lamports: u64,
    pub finalized_epoch: Option<u64>,
    pub finalized_native_lamports: u64,
    pub recovered_stake_rent_lamports: u64,
    pub recovered_metadata_rent_lamports: u64,
    pub cooldown_reward_lamports: u64,
    pub cooldown_loss_lamports: u64,
}

/// The vacant record for the given bumps.
pub open spec fn spec_vacant_leg(metadata_bump: u8, stake_bump: u8) -> WithdrawalLeg {
    WithdrawalLeg {
        version: STATE_LAYOUT_VERSION,
        metadata_bump,
        stake_bump,
        is_initialized: false,
        status: WithdrawalLegStatus::Vacant,
        recovery_flags: 0,
        sequence: 0,
        leg_index: 0,
        validator_list_index: 0,
        validator_seed_suffix: 0,
        validator_vote: Pubkey::spec_zero(),
        validator_stake_source: Pubkey::spec_zero(),
        initiation_epoch: 0,
        pool_total_lamports: 0,
        pool_token_supply: 0,
        withdrawal_fee_numerator: 0,
        withdrawal_fee_denominator: 0,
        technical_floor_units: 0,
        jitosol_input_units: 0,
        withdrawal_fee_units: 0,
        burned_units: 0,
        expected_native_lamports: 0,
        observed_delegated_native_lamports: 0,
        minimum_native_lamports: 0,
        stake_rent_advanced_lamports: 0,
        metadata_rent_advanced_lamports: 0,
        finalized_epoch: None,
        finalized_native_lamports: 0,
        recovered_stake_rent_lamports: 0,
        recovered_metadata_rent_lamports: 0,
        cooldown_reward_lamports: 0,
        cooldown_loss_lamports: 0,
    }
}

impl WithdrawalLeg {
    /// Status-specific checks of an initiated or finalized record.
    pub open spec fn spec_status_checks(self) -> Piv1Result<()> {
        let left = self.observed_delegated_native_lamports + self.recovered_stake_rent_lamports
            + self.cooldown_reward_lamports;
        let right = self.finalized_native_lamports + self.cooldown_loss_lamports;
        match self.status {
            WithdrawalLegStatus::Vacant => Err(Piv1Error::InvalidInitialization),
            WithdrawalLegStatus::Initiated => if self.finalized_epoch is Some || self.recovery_flags
                != 0 || self.finalized_native_lamports != 0 || self.recovered_stake_rent_lamports
                != 0 || self.recovered_metadata_rent_lamports != 0 || self.cooldown_reward_lamports
                != 0 || self.cooldown_loss_lamports != 0 {
                Err(Piv1Error::InvalidLifecycle)
            } else {
                Ok(())
            },
            WithdrawalLegStatus::Finalized => if self.finalized_epoch matches Some(e) && e
                < self.initiation_epoch {
                Err(Piv1Error::TimestampRegression)
            } else if self.finalized_epoch is None || self.recovery_flags & !ALLOWED_RECOVERY_FLAGS
                != 0 || self.recovered_stake_rent_lamports != self.stake_rent_advanced_lamports
                || self.recovered_metadata_rent_lamports != self.metadata_rent_advanced_lamports || (
            self.cooldown_reward_lamports > 0 && self.cooldown_loss_lamports > 0) {
                Err(Piv1Error::CumulativeReconciliationMismatch)
            } else if left > u64::MAX || right > u64::MAX {
                Err(Piv1Error::ArithmeticOverflow)
            } else if left != right || (self.cooldown_loss_lamports > 0) != (self.recovery_flags
                & RECOVERY_FLAG_COOLDOWN_LOSS != 0) {
                Err(Piv1Error::CumulativeReconciliationMismatch)
            } else {
                Ok(())
            },
        }
    }

    /// Complete validation outcome of the record.
    pub open spec fn spec_validate(self) -> Piv1Result<()> {
        if self.version != STATE_LAYOUT_VERSION {
            Err(Piv1Error::InvalidVersion)
        } else if self.status == WithdrawalLegStatus::Vacant {
            if self == spec_vacant_leg(self.metadata_bump, self.stake_bump) {
                Ok(())
            } else {
                Err(Piv1Error::InvalidInitialization)
            }
        } else if !self.is_initialized || self.validator_vote.is_zero()
            || self.validator_stake_source.is_zero() || self.validator_vote
            == self.validator_stake_source || self.pool_total_lamports == 0
            || self.pool_token_supply == 0 {
            Err(Piv1Error::InvalidInitialization)
        } else if self.jitosol_input_units == 0 {
            Err(Piv1Error::ZeroInput)
        } else if self.technical_floor_units == 0 || self.jitosol_input_units
            < self.technical_floor_units {
            Err(Piv1Error::TechnicalFloorNotMet)
        } else if self.withdrawal_fee_units + self.burned_units > u64::MAX {
            Err(Piv1Error::ArithmeticOverflow)
        } else if self.withdrawal_fee_units + self.burned_units != self.jitosol_input_units
            || self.minimum_native_lamports > self.expected_native_lamports
            || self.observed_delegated_native_lamports < self.minimum_native_lamports {
            Err(Piv1Error::CumulativeReconciliationMismatch)
        } else {
            self.spec_status_checks()
        }
    }

    /// True when the record passes validation.
    pub open spec fn valid(self) -> bool {
        self.spec_validate() is Ok
    }

    /// Creates an explicit vacant model; it is not an initialized account.
    pub fn vacant(metadata_bump: u8, stake_bump: u8) -> (r: WithdrawalLeg)
        ensures
            r == spec_vacant_leg(metadata_bump, stake_bump),
            r.valid(),
    {
        let z = Pubkey::default();
        WithdrawalLeg {
            version: STATE_LAYOUT_VERSION,
            metadata_bump,
            stake_bump,
            is_initialized: false,
            status: WithdrawalLegStatus::Vacant,
            recovery_flags: 0,
            sequence: 0,
            leg_index: 0,
            validator_list_index: 0,
            validator_seed_suffix: 0,
            validator_vote: z,
            validator_stake_source: z,
            initiation_epoch: 0,
            pool_total_lamports: 0,
            pool_token_supply: 0,
            withdrawal_fee_numerator: 0,
            withdrawal_fee_denominator: 0,
            technical_floor_units: 0,
            jitosol_input_units: 0,
            withdrawal_fee_units: 0,
            burned_units: 0,
            expected_native_lamports: 0,
            observed_delegated_native_lamports: 0,
            minimum_native_lamports: 0,
            stake_rent_advanced_lamports: 0,
            metadata_rent_advanced_lamports: 0,
            finalized_epoch: None,
            finalized_native_lamports: 0,
            recovered_stake_rent_lamports: 0,
            recovered_metadata_rent_lamports: 0,
            cooldown_reward_lamports: 0,
            cooldown_loss_lamports: 0,
        }
    }

    /// Validates one vacant, initiated, or finalized bounded metadata record.
    pub fn validate(&self) -> (r: Piv1Result<()>)
        ensures
            r == self.spec_validate(),
    {
        if self.version != STATE_LAYOUT_VERSION {
            return Err(Piv1Error::InvalidVersion);
        }
        if self.status == WithdrawalLegStatus::Vacant {
            let expected = Self::vacant(self.metadata_bump, self.stake_bump);
            if *self != expected {
                return Err(Piv1Error::InvalidInitialization);
            }
            return Ok(());
        }
        let z = Pubkey::default();
        if !self.is_initialized || self.validator_vote == z || self.validator_stake_source == z
            || self.validator_vote == self.validator_stake_source || self.pool_total_lamports == 0
            || self.pool_token_supply == 0 {
            return Err(Piv1Error::InvalidInitialization);
        }
        if self.jitosol_input_units == 0 {
            return Err(Piv1Error::ZeroInput);
        }
        if self.technical_floor_units == 0 || self.jitosol_input_units < self.technical_floor_units {
            return Err(Piv1Error::TechnicalFloorNotMet);
        }
        if checked_add(self.withdrawal_fee_units, self.burned_units)? != self.jitosol_input_units
            || self.minimum_native_lamports > self.expected_native_lamports
            || self.observed_delegated_native_lamports < self.minimum_native_lamports {
            return Err(Piv1Error::CumulativeReconciliationMismatch);
        }
        match self.status {
            WithdrawalLegStatus::Vacant => Err(Piv1Error::InvalidInitialization),
            WithdrawalLegStatus::Initiated => {
                if self.finalized_epoch.is_some() || self.recovery_flags != 0
                    || self.finalized_native_lamports != 0 || self.recovered_stake_rent_lamports != 0
                    || self.recovered_metadata_rent_lamports != 0 || self.cooldown_reward_lamports
                    != 0 || self.cooldown_loss_lamports != 0 {
                    return Err(Piv1Error::InvalidLifecycle);
                }
                Ok(())
            },
            WithdrawalLegStatus::Finalized => {
                let regressed = match self.finalized_epoch {
                    Some(epoch) => epoch < self.initiation_epoch,
                    None => false,
                };
                if regressed {
                    return Err(Piv1Error::TimestampRegression);
                }
                if self.finalized_epoch.is_none() || self.recovery_flags & !ALLOWED_RECOVERY_FLAGS != 0
                    || self.recovered_stake_rent_lamports != self.stake_rent_advanced_lamports
                    || self.recovered_metadata_rent_lamports != self.metadata_rent_advanced_lamports
                    || (self.cooldown_reward_lamports > 0 && self.cooldown_loss_lamports > 0) {
                    return Err(Piv1Error::CumulativeReconciliationMismatch);
                }
                let left = checked_add(
                    checked_add(
                        self.observed_delegated_native_lamports,
                        self.recovered_stake_rent_lamports,
                    )?,
                    self.cooldown_reward_lamports,
                )?;
                let right = checked_add(self.finalized_native_lamports, self.cooldown_loss_lamports)?;
                let has_cooldown_loss = self.cooldown_loss_lamports > 0;
                let cooldown_loss_flagged = self.recovery_flags & RECOVERY_FLAG_COOLDOWN_LOSS != 0;
                if left != right || has_cooldown_loss != cooldown_loss_flagged {
                    return Err(Piv1Error::CumulativeReconciliationMismatch);
                }
                Ok(())
            },
        }
    }
}

/// Checked addition reporting `ArithmeticOverflow`.
pub fn checked_add(left: u64, right: u64) -> (r: Piv1Result<u64>)
    ensures
        left + right > u64::MAX ==> r == Err::<u64, Piv1Error>(Piv1Error::ArithmeticOverflow),
        left + right <= u64::MAX ==> r == Ok::<u64, Piv1Error>((left + right) as u64),
{
    match left.checked_add(right) {
        Some(v) => Ok(v),
        None => Err(Piv1Error::ArithmeticOverflow),
    }
}

/// Checked subtraction reporting `CumulativeReconciliationMismatch`.
pub fn checked_sub(left: u64, right: u64) -> (r: Piv1Result<u64>)
    ensures
        left < right ==> r == Err::<u64, Piv1Error>(Piv1Error::CumulativeReconciliationMismatch),
        left >= right ==> r == Ok::<u64, Piv1Error>((left - right) as u64),
{
    match left.checked_sub(right) {
        Some(v) => Ok(v),
        None => Err(Piv1Error::CumulativeReconciliationMismatch),
    }
}

} // verus!
