//! Properties of the library as a whole, stated over the same specifications
//! that the operations' contracts use.

use crate::math::{
    ceil_div, components_sum, spec_allocate_kif, spec_increase_hwm, spec_mul_div_ceil,
    spec_mul_div_floor, spec_split, lemma_split_shares_bounded, KifAllocation, MathError,
    ZeroActiveGuardianKifAllocation,
};
use crate::state::config::PivConfig;
use crate::state::contributions::{spec_reconcile_pending, PendingCustodyObservation};
use crate::state::distribution::{
    min_u64, spec_net_allocation, weight_share, ActiveDistribution, DistributionLifecycle,
};
use crate::state::guardian::{GuardianRegistry, GuardianReward};
use crate::state::kif_claim::{spec_prepare, KifClaimCustodyObservation, KifClaimRequest, PreparedKifClaim};
use crate::state::principal_deposit::{spec_principal_deposit, PrincipalSolDepositObservation};
use crate::bitmap::{has_bit, spec_popcount, two_pow};
use crate::state::transitions::{
    credit_scan, kif_terms, slot_credit, spec_integrate, spec_open_distribution, spec_settle, OpenDistributionInput,
    PendingIntegrationInput, SettlementInput, SettlementOutcome,
};
use crate::account_view::{spec_state_envelope, AccountView, StateKind};
use crate::address::Pubkey;
use crate::errors::Piv1Error;
use crate::state_persistence::spec_frame;
use vstd::prelude::*;

verus! {

/// The fixed split conserves gross yield exactly: the four shares and the
/// dust add up to the gross amount, no share exceeds it, and the outgoing
/// shares (HTFP, Team Owner, KIF) never exceed it either.
pub proof fn law_split_conserves_gross_yield(gross: u64)
    ensures
        spec_split(gross).htfp_reserve + spec_split(gross).permanent_compound
            + spec_split(gross).team_owner_pool + spec_split(gross).kif + spec_split(gross).dust
            == gross,
        spec_split(gross).htfp_reserve <= gross,
        spec_split(gross).permanent_compound <= gross,
        spec_split(gross).team_owner_pool <= gross,
        spec_split(gross).kif <= gross,
        spec_split(gross).dust <= gross,
        spec_split(gross).htfp_reserve + spec_split(gross).team_owner_pool + spec_split(gross).kif
            <= gross,
{
    lemma_split_shares_bounded(gross);
}

/// Floor and ceiling of the same exact rational `a * b / d` bracket it: the
/// floor is the greatest integer not above it, the ceiling is not below it,
/// they differ by at most one, and they agree on an exact division.
pub proof fn law_floor_and_ceiling_bracket_the_ratio(a: u64, b: u64, d: u64)
    requires
        spec_mul_div_floor(a, b, d) is Ok,
        spec_mul_div_ceil(a, b, d) is Ok,
    ensures
        ({
            let p = (a as int) * (b as int);
            let f = spec_mul_div_floor(a, b, d)->Ok_0 as int;
            let c = spec_mul_div_ceil(a, b, d)->Ok_0 as int;
            &&& f * (d as int) <= p < (f + 1) * (d as int)
            &&& c * (d as int) >= p
            &&& f <= c <= f + 1
            &&& p % (d as int) == 0 ==> f == c
        }),
{
    let p = (a as int) * (b as int);
    let di = d as int;
    assert(p >= 0) by (nonlinear_arith)
        requires
            a >= 0,
            b >= 0,
            p == (a as int) * (b as int),
    ;
    vstd::arithmetic::div_mod::lemma_fundamental_div_mod(p, di);
    let q = p / di;
    let r = p % di;
    assert(q * di <= p < (q + 1) * di) by (nonlinear_arith)
        requires
            di > 0,
            p == di * q + r,
            0 <= r < di,
    ;
    assert(ceil_div(p, di) * di >= p) by (nonlinear_arith)
        requires
            di > 0,
            p == di * q + r,
            0 <= r < di,
            ceil_div(p, di) == if r == 0 {
                q
            } else {
                q + 1
            },
    ;
}

/// Raising the protected high-water mark adds exactly the sum of its
/// components and never lowers it.
pub proof fn law_high_water_mark_never_decreases(old: u64, components: crate::math::HighWaterMarkComponents)
    requires
        spec_increase_hwm(old, components) is Ok,
    ensures
        spec_increase_hwm(old, components)->Ok_0.new_high_water_mark == old
            + spec_increase_hwm(old, components)->Ok_0.increase,
        spec_increase_hwm(old, components)->Ok_0.increase == components_sum(components),
        spec_increase_hwm(old, components)->Ok_0.new_high_water_mark >= old,
{
}

/// KIF allocation conserves the available amount: with active guardians the
/// equal credits plus the carry equal it, each guardian's credit is the same
/// and the carry is below the guardian count; with none, the compounded half
/// plus the carry equal it and the carry keeps any odd unit.
pub proof fn law_kif_allocation_conserves_available(current: u64, carry: u64, active: u8)
    requires
        spec_allocate_kif(current, carry, active) is Ok,
    ensures
        match spec_allocate_kif(current, carry, active)->Ok_0 {
            KifAllocation::ActiveGuardians(a) => {
                &&& a.kif_available == current + carry
                &&& a.credited_total + a.carry_next == a.kif_available
                &&& a.credited_total == a.per_guardian * active
                &&& a.carry_next < active
                &&& active > 0
            },
            KifAllocation::ZeroActiveGuardians(z) => {
                &&& z.kif_available == current + carry
                &&& z.compound_from_kif + z.carry_next == z.kif_available
                &&& z.compound_from_kif <= z.carry_next <= z.compound_from_kif + 1
                &&& active == 0
            },
        },
{
    let avail = current + carry;
    if active > 0 {
        let ai = active as int;
        vstd::arithmetic::div_mod::lemma_fundamental_div_mod(avail, ai);
        let per = avail / ai;
        assert(0 <= per * ai <= avail && avail - per * ai < ai) by (nonlinear_arith)
            requires
                ai > 0,
                avail >= 0,
                avail == ai * per + avail % ai,
                0 <= avail % ai < ai,
        ;
    }
}

/// The relative-weight allocation of an available net never allocates more
/// than the net, caps every beneficiary at its obligation, and keeps the
/// remainder as dust.
pub proof fn law_net_allocation_is_capped_and_conserving(net: u64, htfp: u64, team: u64, kif: u64)
    ensures
        ({
            let a = spec_net_allocation(net, htfp, team, kif);
            &&& a.allocated_lamports + a.dust_lamports == net
            &&& a.allocated_lamports == a.htfp_lamports + a.team_owner_lamports + a.kif_lamports
            &&& a.htfp_lamports <= htfp
            &&& a.team_owner_lamports <= team
            &&& a.kif_lamports <= kif
        }),
{
    let n = net as int;
    let h = weight_share(net, 5900);
    let t = weight_share(net, 1950);
    let k = weight_share(net, 200);
    assert(n * 5900 / 8050 + n * 1950 / 8050 + n * 200 / 8050 <= n) by (nonlinear_arith)
        requires
            n >= 0,
    {
        vstd::arithmetic::div_mod::lemma_fundamental_div_mod(n * 5900, 8050);
        vstd::arithmetic::div_mod::lemma_fundamental_div_mod(n * 1950, 8050);
        vstd::arithmetic::div_mod::lemma_fundamental_div_mod(n * 200, 8050);
    }
    assert(min_u64(htfp, h) + min_u64(team, t) + min_u64(kif, k) <= n);
}


/// Opening a round consumes exactly one sequence number: the round takes the
/// configured next sequence, the configuration advances it by one, and the
/// protected high-water mark is untouched and recorded as the round's basis.
pub proof fn law_open_consumes_one_sequence(
    config: PivConfig,
    round: ActiveDistribution,
    registry: GuardianRegistry,
    rewards: [GuardianReward; 6],
    input: OpenDistributionInput,
)
    requires
        spec_open_distribution(config, round, registry, rewards, input) is Ok,
    ensures
        ({
            let (c, d) = spec_open_distribution(config, round, registry, rewards, input)->Ok_0;
            &&& d.active_sequence == config.next_distribution_sequence
            &&& c.next_distribution_sequence == config.next_distribution_sequence + 1
            &&& c.protected_principal_hwm_lamports == config.protected_principal_hwm_lamports
            &&& d.old_protected_principal_lamports == config.protected_principal_hwm_lamports
            &&& d.lifecycle != DistributionLifecycle::Idle
        }),
{
}

/// A recorded settlement raises the protected high-water mark by exactly the
/// recorded delta, so it never decreases; the KIF liability grows by exactly
/// the credited KIF, and the current KIF plus the prior carry is split
/// without loss into credits, next carry and zero-active compound. A
/// settlement that requires recovery changes neither the configuration nor
/// any reward.
pub proof fn law_settlement_accounts_for_every_lamport(
    config: PivConfig,
    round: ActiveDistribution,
    rewards: Seq<GuardianReward>,
    input: SettlementInput,
)
    requires
        spec_settle(config, round, rewards, input) is Ok,
    ensures
        ({
            let (c, d, w, o) = spec_settle(config, round, rewards, input)->Ok_0;
            &&& o == SettlementOutcome::Settled ==> {
                &&& c.protected_principal_hwm_lamports == config.protected_principal_hwm_lamports
                    + d.actual_hwm_delta_lamports
                &&& c.protected_principal_hwm_lamports >= config.protected_principal_hwm_lamports
                &&& d.settled_protected_hwm_lamports == c.protected_principal_hwm_lamports
                &&& c.kif_claim_liability_lamports == config.kif_claim_liability_lamports
                    + d.actual_kif_liability_lamports
                &&& c.collective_kif_carry_lamports == d.actual_kif_carry_next_lamports
                &&& d.actual_kif_liability_lamports + d.actual_kif_carry_next_lamports
                    + d.actual_zero_active_kif_compound_lamports == input.actual_kif_allocation_lamports
                    + round.kif_carry_input_lamports
                &&& d.actual_allocated_outgoing_lamports + d.actual_net_allocation_dust_lamports
                    == d.actual_net_available_lamports
                &&& d.lifecycle == DistributionLifecycle::Settled
                &&& d.settlement_recorded
            }
            &&& o == SettlementOutcome::RecoveryRequired ==> {
                &&& c == config
                &&& w == rewards
                &&& d.lifecycle == DistributionLifecycle::RecoveryRequired
            }
        }),
{
    let kif = crate::math::spec_allocate_kif(
        input.actual_kif_allocation_lamports,
        round.kif_carry_input_lamports,
        round.kif_active_guardian_count,
    );
    if kif is Ok {
        law_kif_allocation_conserves_available(
            input.actual_kif_allocation_lamports,
            round.kif_carry_input_lamports,
            round.kif_active_guardian_count,
        );
    }
}

/// Completing a round raises the protected high-water mark by exactly the
/// integrated contribution value, empties both pending ledgers into history,
/// and keeps the next sequence, so a completed sequence is never reused.
pub proof fn law_completion_integrates_pending_exactly(
    config: PivConfig,
    round: ActiveDistribution,
    input: PendingIntegrationInput,
)
    requires
        spec_integrate(config, round, input) is Ok,
    ensures
        ({
            let (c, s) = spec_integrate(config, round, input)->Ok_0;
            &&& c.protected_principal_hwm_lamports == config.protected_principal_hwm_lamports
                + input.contribution_value_lamports
            &&& c.protected_principal_hwm_lamports >= config.protected_principal_hwm_lamports
            &&& c.accounted_pending_sol_lamports == 0
            &&& c.accounted_pending_jitosol_units == 0
            &&& c.next_distribution_sequence == config.next_distribution_sequence
            &&& s.sequence == round.active_sequence
            &&& s.final_protected_hwm_lamports == c.protected_principal_hwm_lamports
        }),
{
}

/// Pending reconciliation is idempotent: reconciling again against the same
/// observation reports no change and leaves the configuration as it is.
pub proof fn law_pending_reconciliation_is_idempotent(
    config: PivConfig,
    round: ActiveDistribution,
    observation: PendingCustodyObservation,
)
    requires
        spec_reconcile_pending(config, round, observation) is Ok,
    ensures
        ({
            let (c, _r) = spec_reconcile_pending(config, round, observation)->Ok_0;
            &&& spec_reconcile_pending(c, round, observation) is Ok
            &&& spec_reconcile_pending(c, round, observation)->Ok_0.0 == c
            &&& spec_reconcile_pending(c, round, observation)->Ok_0.1.newly_accounted_sol_lamports == 0
            &&& spec_reconcile_pending(c, round, observation)->Ok_0.1.newly_accounted_jitosol_units
                == 0
        }),
{
    let (c, _r) = spec_reconcile_pending(config, round, observation)->Ok_0;
    assert(spec_reconcile_pending(c, round, observation)->Ok_0.0 =~= c);
}

/// A staged KIF claim moves exactly the requested amount: the global claim
/// liability and the guardian's claimable balance fall by it, both claimed
/// ledgers rise by it, earnings and the collective carry are untouched, and
/// the predicted custody moves the same amount from the KIF vault to the
/// guardian. Committing the plan against its own pre-state and predicted
/// custody succeeds.
pub proof fn law_kif_claim_moves_exact_amount(
    config: PivConfig,
    reward: GuardianReward,
    request: KifClaimRequest,
    before: KifClaimCustodyObservation,
    plan: PreparedKifClaim,
)
    requires
        spec_prepare(config, reward, request, before) is Ok,
        plan.spec_before_config() == config,
        plan.spec_before_reward() == reward,
        plan.spec_next_config() == spec_prepare(config, reward, request, before)->Ok_0.0,
        plan.spec_next_reward() == spec_prepare(config, reward, request, before)->Ok_0.1,
        plan.spec_expected_after() == spec_prepare(config, reward, request, before)->Ok_0.2,
        plan.spec_excess() == spec_prepare(config, reward, request, before)->Ok_0.3,
    ensures
        ({
            let (c, w, a, _x) = spec_prepare(config, reward, request, before)->Ok_0;
            let amount = request.amount_lamports;
            &&& c.kif_claim_liability_lamports + amount == config.kif_claim_liability_lamports
            &&& c.cumulative_kif_claimed_lamports == config.cumulative_kif_claimed_lamports + amount
            &&& c.collective_kif_carry_lamports == config.collective_kif_carry_lamports
            &&& w.claimable_lamports + amount == reward.claimable_lamports
            &&& w.cumulative_claimed == reward.cumulative_claimed + amount
            &&& w.cumulative_earned == reward.cumulative_earned
            &&& a.kif_sol.lamports + amount == before.kif_sol.lamports
            &&& a.guardian_lamports == before.guardian_lamports + amount
            &&& plan.spec_commit(config, reward, a) == Ok::<(), crate::errors::Piv1Error>(())
        }),
{
}

/// A protected principal deposit never loses historical book value, keeps the
/// high-water mark covered, and changes only the two historical asset ledgers:
/// the deposited SOL leaves the SOL ledger and the minted tokens join the
/// token ledger.
pub proof fn law_principal_deposit_preserves_protected_value(
    config: PivConfig,
    round: ActiveDistribution,
    observation: PrincipalSolDepositObservation,
)
    requires
        spec_principal_deposit(config, round, observation) is Ok,
    ensures
        ({
            let (c, rec) = spec_principal_deposit(config, round, observation)->Ok_0;
            &&& rec.historical_value_after_lamports >= rec.historical_value_before_lamports
            &&& rec.historical_value_after_lamports >= config.protected_principal_hwm_lamports
            &&& c.accounted_historical_sol_lamports + rec.deposited_sol_lamports
                == config.accounted_historical_sol_lamports
            &&& c.accounted_historical_jitosol_units == config.accounted_historical_jitosol_units
                + rec.minted_jitosol_units
            &&& c == (PivConfig {
                accounted_historical_sol_lamports: c.accounted_historical_sol_lamports,
                accounted_historical_jitosol_units: c.accounted_historical_jitosol_units,
                ..config
            })
        }),
{
}


/// Sum of the claimable balances of the first `n` reward records.
pub open spec fn claimable_total(s: Seq<GuardianReward>, n: int) -> int
    decreases n,
{
    if n <= 0 {
        0
    } else {
        claimable_total(s, n - 1) + s[n - 1].claimable_lamports
    }
}

/// Number of set slots among the first `n` slots of `bitmap`.
pub open spec fn set_slots_below(bitmap: u8, n: int) -> int
    decreases n,
{
    if n <= 0 {
        0
    } else {
        set_slots_below(bitmap, n - 1) + if has_bit(bitmap, (n - 1) as u8) {
            1int
        } else {
            0int
        }
    }
}

proof fn lemma_total_depends_on_prefix(s1: Seq<GuardianReward>, s2: Seq<GuardianReward>, m: int)
    requires
        0 <= m <= s1.len(),
        m <= s2.len(),
        forall|j: int| 0 <= j < m ==> #[trigger] s1[j].claimable_lamports == s2[j].claimable_lamports,
    ensures
        claimable_total(s1, m) == claimable_total(s2, m),
    decreases m,
{
    if m > 0 {
        lemma_total_depends_on_prefix(s1, s2, m - 1);
    }
}

proof fn lemma_credit_scan_credits(rewards: Seq<GuardianReward>, round: ActiveDistribution, per: u64, n: int)
    requires
        0 <= n <= rewards.len(),
        n <= 6,
        credit_scan(rewards, round, per, n) is Ok,
    ensures
        ({
            let s = credit_scan(rewards, round, per, n)->Ok_0;
            &&& s.len() == rewards.len()
            &&& forall|j: int| n <= j < rewards.len() ==> #[trigger] s[j] == rewards[j]
            &&& forall|j: int|
                0 <= j < n ==> #[trigger] s[j].claimable_lamports == rewards[j].claimable_lamports
                    + if has_bit(round.kif_eligibility_bitmap, j as u8) {
                    per as int
                } else {
                    0int
                }
            &&& claimable_total(s, n) == claimable_total(rewards, n) + per * set_slots_below(
                round.kif_eligibility_bitmap,
                n,
            )
        }),
    decreases n,
{
    if n > 0 {
        lemma_credit_scan_credits(rewards, round, per, n - 1);
        let prev = credit_scan(rewards, round, per, n - 1)->Ok_0;
        let c = slot_credit(round, per, n - 1, prev[n - 1])->Ok_0;
        let s = prev.update(n - 1, c);
        assert(credit_scan(rewards, round, per, n)->Ok_0 == s);
        lemma_total_depends_on_prefix(s, prev, n - 1);
        let bit = if has_bit(round.kif_eligibility_bitmap, (n - 1) as u8) {
            1int
        } else {
            0int
        };
        let x = set_slots_below(round.kif_eligibility_bitmap, n - 1);
        assert(per * (x + bit) == per * x + per * bit) by (nonlinear_arith);
        assert(per * bit == if bit == 1 {
            per as int
        } else {
            0int
        }) by (nonlinear_arith)
            requires
                bit == 0 || bit == 1,
        ;
    }
}

proof fn lemma_low_slots(b: u8, i: u8)
    requires
        i < 7,
    ensures
        has_bit(b, 0) == (b % 2 == 1),
        has_bit(b, (i + 1) as u8) == has_bit(b / 2, i),
{
    assert(((b >> 0u8) & 1 == 1) == (b % 2 == 1)) by (bit_vector);
    assert((((b >> ((i + 1) as u8)) & 1) == 1) == ((((b / 2) >> i) & 1) == 1)) by (bit_vector)
        requires
            i < 7,
    ;
}

proof fn lemma_set_slots_shift(b: u8, n: int)
    requires
        0 <= n < 8,
    ensures
        set_slots_below(b, n + 1) == (b % 2) + set_slots_below(b / 2, n),
    decreases n,
{
    lemma_low_slots(b, 0);
    assert(set_slots_below(b, 0) == 0);
    assert(set_slots_below(b, 1) == b % 2);
    if n > 0 {
        lemma_set_slots_shift(b, n - 1);
        let i = (n - 1) as u8;
        lemma_low_slots(b, i);
        assert((i + 1) as u8 == n as u8);
        assert(set_slots_below(b, n + 1) == set_slots_below(b, n) + if has_bit(b, n as u8) {
            1int
        } else {
            0int
        });
        assert(set_slots_below(b / 2, n) == set_slots_below(b / 2, n - 1) + if has_bit(b / 2, i) {
            1int
        } else {
            0int
        });
    }
}

proof fn lemma_popcount_is_set_slots(b: u8, k: nat)
    requires
        k <= 8,
        b < two_pow(k),
    ensures
        spec_popcount(b) == set_slots_below(b, k as int),
    decreases k,
{
    if k > 0 {
        assert(b / 2 < two_pow((k - 1) as nat));
        lemma_popcount_is_set_slots(b / 2, (k - 1) as nat);
        lemma_set_slots_shift(b, k - 1);
    } else {
        assert(b == 0);
    }
}

/// Settlement credits the guardians exactly the KIF liability it records:
/// every eligible slot of the snapshot gains the same amount, every other
/// slot keeps its balance, and the claimable total over the six records rises
/// by exactly the liability added to the configuration.
pub proof fn law_settlement_credits_exactly_the_kif_liability(
    config: PivConfig,
    round: ActiveDistribution,
    rewards: Seq<GuardianReward>,
    input: SettlementInput,
)
    requires
        rewards.len() == 6,
        spec_settle(config, round, rewards, input) is Ok,
        spec_settle(config, round, rewards, input)->Ok_0.3 == SettlementOutcome::Settled,
    ensures
        ({
            let (c, d, w, _o) = spec_settle(config, round, rewards, input)->Ok_0;
            &&& w.len() == 6
            &&& claimable_total(w, 6) == claimable_total(rewards, 6) + d.actual_kif_liability_lamports
            &&& c.kif_claim_liability_lamports == config.kif_claim_liability_lamports
                + d.actual_kif_liability_lamports
            &&& forall|j: int|
                0 <= j < 6 && !has_bit(round.kif_eligibility_bitmap, j as u8) ==> (#[trigger] w[j]).claimable_lamports
                    == rewards[j].claimable_lamports
            &&& forall|i: int, j: int|
                0 <= i < 6 && 0 <= j < 6 && has_bit(round.kif_eligibility_bitmap, i as u8) && has_bit(
                    round.kif_eligibility_bitmap,
                    j as u8,
                ) ==> (#[trigger] w[i]).claimable_lamports - rewards[i].claimable_lamports
                    == (#[trigger] w[j]).claimable_lamports - rewards[j].claimable_lamports
        }),
{
    let kif = crate::math::spec_allocate_kif(
        input.actual_kif_allocation_lamports,
        round.kif_carry_input_lamports,
        round.kif_active_guardian_count,
    );
    let terms = kif_terms(kif->Ok_0);
    let per = terms.0;
    lemma_credit_scan_credits(rewards, round, per, 6);
    let b = round.kif_eligibility_bitmap;
    assert(b < 64) by (bit_vector)
        requires
            b & !0x3fu8 == 0,
    ;
    assert(two_pow(0) == 1);
    assert(two_pow(1) == 2);
    assert(two_pow(2) == 4);
    assert(two_pow(3) == 8);
    assert(two_pow(4) == 16);
    assert(two_pow(5) == 32);
    assert(two_pow(6) == 64);
    lemma_popcount_is_set_slots(b, 6);
    law_kif_allocation_conserves_available(
        input.actual_kif_allocation_lamports,
        round.kif_carry_input_lamports,
        round.kif_active_guardian_count,
    );
}

/// A state account holding exactly the frame that persistence writes for a
/// payload, owned by the program, not executable and funded above the rent
/// floor, passes the envelope check of authentication with that payload's
/// length: what is written reads back.
pub proof fn law_written_envelope_reads_back(
    account: AccountView,
    program: Pubkey,
    kind: StateKind,
    payload: Seq<u8>,
    floor: u64,
)
    requires
        payload.len() <= kind.spec_space() - 8,
        account.owner == program,
        !account.executable,
        account.data matches Some(d) && d@ == spec_frame(kind, payload),
        account.lamports matches Some(l) && l >= floor,
    ensures
        spec_state_envelope(account, program, kind, Some(payload.len() as usize), Ok(floor))
            == Ok::<(), Piv1Error>(()),
{
    let d = account.data->Some_0@;
    let n = payload.len();
    assert(d.subrange(0, 8) =~= kind.spec_discriminator());
    assert forall|i: int| 8 + n <= i < d.len() implies d[i] == 0 by {
        assert(d[i] == Seq::new((kind.spec_space() - 8 - n) as nat, |j: int| 0u8)[i - 8 - n]);
    }
}

/// One zero-active-guardian allocation of a carry with no new KIF.
pub open spec fn zero_active_step(carry: u64) -> ZeroActiveGuardianKifAllocation {
    match spec_allocate_kif(0, carry, 0) {
        Ok(KifAllocation::ZeroActiveGuardians(z)) => z,
        _ => ZeroActiveGuardianKifAllocation { kif_available: 0, compound_from_kif: 0, carry_next: 0 },
    }
}

/// The carry after `k` consecutive zero-active periods starting from `carry`.
pub open spec fn zero_active_carry(carry: u64, k: nat) -> u64
    decreases k,
{
    if k == 0 {
        carry
    } else {
        zero_active_step(zero_active_carry(carry, (k - 1) as nat)).carry_next
    }
}

/// The total compounded over `k` consecutive zero-active periods.
pub open spec fn zero_active_compounded(carry: u64, k: nat) -> int
    decreases k,
{
    if k == 0 {
        0
    } else {
        zero_active_compounded(carry, (k - 1) as nat) + zero_active_step(
            zero_active_carry(carry, (k - 1) as nat),
        ).compound_from_kif
    }
}

/// With no active guardian and no new KIF, allocating a carry always succeeds:
/// the whole carry is available, its floored half compounds and the rest is
/// carried again, never more than before.
pub proof fn law_zero_active_allocation_resplits_the_carry(carry: u64)
    ensures
        spec_allocate_kif(0, carry, 0) == Ok::<KifAllocation, MathError>(
            KifAllocation::ZeroActiveGuardians(zero_active_step(carry)),
        ),
        zero_active_step(carry).kif_available == carry,
        zero_active_step(carry).compound_from_kif + zero_active_step(carry).carry_next == carry,
        zero_active_step(carry).carry_next <= carry,
{
}

/// Repeating the zero-active allocation on its own carry neither loses nor
/// creates value: after any number of periods the compounded amounts plus the
/// remaining carry equal the starting carry. The carry never grows, a nonzero
/// carry stays nonzero, and it at most halves (rounding up) each period.
pub proof fn law_repeated_zero_active_allocation_conserves(carry: u64, k: nat)
    ensures
        zero_active_compounded(carry, k) + zero_active_carry(carry, k) == carry,
        zero_active_carry(carry, k + 1) <= zero_active_carry(carry, k),
        carry >= 1 ==> zero_active_carry(carry, k) >= 1,
        zero_active_carry(carry, k) <= carry as nat / two_pow(k) + 1,
    decreases k,
{
    lemma_two_pow_positive(k);
    if k > 0 {
        let j = (k - 1) as nat;
        law_repeated_zero_active_allocation_conserves(carry, j);
        lemma_two_pow_positive(j);
        let x = zero_active_carry(carry, j);
        let q = carry as nat / two_pow(j);
        assert(carry as nat / two_pow(k) == q / 2) by {
            assert(two_pow(k) == two_pow(j) * 2);
            vstd::arithmetic::div_mod::lemma_div_denominator(carry as int, two_pow(j) as int, 2);
        }
        assert(x - x / 2 <= q / 2 + 1) by (nonlinear_arith)
            requires
                x <= q + 1,
                0 <= q,
                0 <= x,
        ;
    }
}

/// Starting from the largest carry, sixty-four zero-active periods bring the
/// carry down to one unit, where it stays; everything else has compounded.
pub proof fn law_zero_active_carry_from_maximum()
    ensures
        zero_active_carry(u64::MAX, 64) == 1,
        zero_active_carry(u64::MAX, 65) == 1,
        zero_active_compounded(u64::MAX, 65) + 1 == u64::MAX,
{
    law_repeated_zero_active_allocation_conserves(u64::MAX, 64);
    law_repeated_zero_active_allocation_conserves(u64::MAX, 65);
    lemma_two_pow_64();
    assert(u64::MAX as nat / two_pow(64) == 0);
}

proof fn lemma_two_pow_64()
    ensures
        two_pow(64) == 0x1_0000_0000_0000_0000,
{
    reveal_with_fuel(two_pow, 65);
}

proof fn lemma_two_pow_positive(k: nat)
    ensures
        two_pow(k) >= 1,
    decreases k,
{
    if k > 0 {
        lemma_two_pow_positive((k - 1) as nat);
    }
}

/// A round whose withdrawal accounting passes reconciles its legs: assigned
/// units are exactly fees plus burned units within the fixed target, finalized
/// legs are at most the successful legs, which equal the next leg index, and
/// the recorded escrow plus recovered stake rent equals the pending SOL used,
/// the prior yield used and the finalized native value.
pub proof fn law_withdrawal_accounting_reconciles(round: ActiveDistribution)
    requires
        round.spec_withdrawal_accounting() is Ok,
    ensures
        round.cumulative_jitosol_assigned_units == round.cumulative_withdrawal_fee_units
            + round.cumulative_burned_units,
        round.cumulative_jitosol_assigned_units <= round.fixed_jitosol_withdrawal_target_units,
        round.finalized_leg_count <= round.successful_leg_count,
        round.successful_leg_count == round.next_leg_index,
        round.spec_prior_used() is Ok,
        round.recorded_escrow_available_lamports + round.cumulative_recovered_stake_rent_lamports
            == round.pending_sol_used_lamports + round.spec_prior_used()->Ok_0
            + round.cumulative_finalized_native_lamports,
{
}

/// A round whose settlement accounting passes allocates exactly the three
/// beneficiary amounts within the net available, and its escrow remainder is
/// the escrow minus that allocation, which is exactly the allocation dust, the
/// cooldown rewards and the retained conservative dust.
pub proof fn law_settlement_accounting_reconciles(round: ActiveDistribution)
    requires
        round.spec_settlement_accounting() is Ok,
    ensures
        round.actual_allocated_outgoing_lamports == round.actual_htfp_lamports
            + round.actual_team_owner_lamports + round.actual_kif_allocation_lamports,
        round.actual_allocated_outgoing_lamports <= round.actual_net_available_lamports,
        round.actual_allocated_outgoing_lamports <= round.recorded_escrow_available_lamports,
        round.actual_escrow_remainder_lamports == round.recorded_escrow_available_lamports
            - round.actual_allocated_outgoing_lamports,
        round.actual_escrow_remainder_lamports == round.actual_net_allocation_dust_lamports
            + round.cumulative_cooldown_rewards_lamports + round.actual_retained_conservative_dust_lamports,
{
    let prior = round.spec_prior_used();
    let eligible = round.pending_sol_used_lamports + prior->Ok_0 + round.cumulative_finalized_delegated_native_lamports;
    let net = min_u64(round.outgoing_gross_obligation_lamports, eligible as u64);
    law_net_allocation_is_capped_and_conserving(
        net,
        round.htfp_gross_obligation_lamports,
        round.team_owner_gross_obligation_lamports,
        round.kif_gross_obligation_lamports,
    );
}

/// A settled round carries its cooldown rewards into next-cycle yield: the
/// new configuration's next-cycle yield is the old one plus every lamport of
/// cooldown reward the round recorded, and the same amount is added to the
/// cumulative cooldown yield recorded.
#[verifier::rlimit(100)]
pub proof fn law_settlement_carries_cooldown_yield(
    config: PivConfig,
    round: ActiveDistribution,
    rewards: Seq<GuardianReward>,
    input: SettlementInput,
)
    requires
        spec_settle(config, round, rewards, input) is Ok,
        spec_settle(config, round, rewards, input)->Ok_0.3 == SettlementOutcome::Settled,
    ensures
        spec_settle(config, round, rewards, input)->Ok_0.0.next_cycle_yield_lamports
            == config.next_cycle_yield_lamports + round.cumulative_cooldown_rewards_lamports,
        spec_settle(config, round, rewards, input)->Ok_0.0.cumulative_cooldown_yield_recorded_lamports
            == config.cumulative_cooldown_yield_recorded_lamports + round.cumulative_cooldown_rewards_lamports,
        spec_settle(config, round, rewards, input)->Ok_0.0.kif_claim_liability_lamports
            - config.kif_claim_liability_lamports == spec_settle(config, round, rewards, input)->Ok_0.0.cumulative_kif_credited_lamports
            - config.cumulative_kif_credited_lamports,
        spec_settle(config, round, rewards, input)->Ok_0.0.protected_principal_hwm_lamports
            >= config.protected_principal_hwm_lamports,
{
}

/// Opening a round moves the whole carried next-cycle yield into the round:
/// the configuration keeps none of it, and the round records all of it as
/// prior-cycle yield, so it is counted in exactly one round.
#[verifier::rlimit(100)]
pub proof fn law_open_moves_carried_yield_into_the_round(
    config: PivConfig,
    round: ActiveDistribution,
    registry: GuardianRegistry,
    rewards: [GuardianReward; 6],
    input: OpenDistributionInput,
)
    requires
        spec_open_distribution(config, round, registry, rewards, input) is Ok,
    ensures
        spec_open_distribution(config, round, registry, rewards, input)->Ok_0.0.next_cycle_yield_lamports == 0,
        spec_open_distribution(config, round, registry, rewards, input)->Ok_0.1.prior_next_cycle_yield_lamports
            == config.next_cycle_yield_lamports,
        spec_open_distribution(config, round, registry, rewards, input)->Ok_0.1.gross_yield_lamports
            == config.next_cycle_yield_lamports + (if input.historical_value_lamports
            >= config.protected_principal_hwm_lamports {
            input.historical_value_lamports - config.protected_principal_hwm_lamports
        } else {
            0
        }),
        spec_open_distribution(config, round, registry, rewards, input)->Ok_0.1.gross_yield_lamports > 0,
{
}

/// The activity snapshot marks exactly the guardians whose reward records
/// were last active in the snapshot's own period: bit `i` is set if and only
/// if reward `i`'s last active period is that period, and no bit beyond the
/// six slots is set.
pub proof fn law_activity_bitmap_marks_exactly_the_current_period(
    registry: GuardianRegistry,
    rewards: [GuardianReward; 6],
    period_id: u64,
)
    requires
        registry.spec_activity_bitmap(rewards, period_id) is Ok,
    ensures
        forall|i: u8|
            i < 6 ==> #[trigger] has_bit(registry.spec_activity_bitmap(rewards, period_id)->Ok_0, i)
                == (rewards[i as int].last_active_period == Some(period_id)),
        registry.spec_activity_bitmap(rewards, period_id)->Ok_0 < 64,
{
    crate::state::guardian::lemma_activity_bits(rewards, period_id, 6);
    assert((1u8 << 6u8) == 64u8) by (bit_vector);
}

/// A leg is initiated only if what it leaves of the fixed withdrawal target
/// is nothing, or enough for another leg: at least the larger of the round's
/// snapshot floor and the leg's current technical floor. The leg consumes
/// exactly its input from the target.
pub proof fn law_initiation_leaves_a_withdrawable_remainder(
    config: PivConfig,
    round: ActiveDistribution,
    leg: crate::state::distribution::WithdrawalLeg,
    input: crate::state::transitions::LegInitiationInput,
)
    requires
        crate::state::transitions::spec_initiate(config, round, leg, input) is Ok,
    ensures
        ({
            let d = crate::state::transitions::spec_initiate(config, round, leg, input)->Ok_0.0;
            let left = d.fixed_jitosol_withdrawal_target_units - d.cumulative_jitosol_assigned_units;
            let floor = if round.snapshot_leg_input_floor_units >= input.current_technical_floor_units {
                round.snapshot_leg_input_floor_units
            } else {
                input.current_technical_floor_units
            };
            &&& d.fixed_jitosol_withdrawal_target_units == round.fixed_jitosol_withdrawal_target_units
            &&& d.cumulative_jitosol_assigned_units == round.cumulative_jitosol_assigned_units
                + input.jitosol_input_units
            &&& left >= 0
            &&& left == 0 || left >= floor
        }),
{
}

/// The KIF vault owes exactly the claimable KIF liability plus the collective
/// carry, and the surplus it reports is what it holds beyond both.
pub proof fn law_kif_vault_owes_liability_and_carry(
    config: PivConfig,
    round: ActiveDistribution,
    observed: crate::state::reconciliation::EconomicCustodyObservation,
)
    ensures
        crate::state::reconciliation::spec_obligations(config, round) is Ok
            ==> crate::state::reconciliation::spec_obligations(config, round)->Ok_0.kif_sol_lamports
            == config.kif_claim_liability_lamports + config.collective_kif_carry_lamports,
        crate::state::reconciliation::spec_surplus(config, round, observed) is Ok
            ==> crate::state::reconciliation::spec_surplus(config, round, observed)->Ok_0.kif_sol_lamports
            + config.kif_claim_liability_lamports + config.collective_kif_carry_lamports
            == observed.spec_amounts()->Ok_0.kif_sol_lamports,
{
}

} // verus!
