//! Deterministic checked-integer accounting primitives.
//!
//! Economic amounts are unsigned 64-bit integers (lamports or token base
//! units). Multiplication uses a checked `u128` intermediate and every
//! conversion back to an amount is checked.

use vstd::prelude::*;

verus! {

/// A SOL-lamport or token-base-unit amount.
pub type Amount = u64;

/// Basis-point denominator used by the fixed gross-yield split.
pub const BASIS_POINTS_DENOMINATOR: u64 = 10_000;
/// HTFP reserve share of gross yield, in basis points.
pub const HTFP_RESERVE_BPS: u64 = 5_900;
/// Permanent compound share of gross yield, in basis points.
pub const PERMANENT_COMPOUND_BPS: u64 = 1_950;
/// Team Owner Pool share of gross yield, in basis points.
pub const TEAM_OWNER_POOL_BPS: u64 = 1_950;
/// KIF share of gross yield, in basis points.
pub const KIF_BPS: u64 = 200;
/// Maximum valid number of active guardians in the guardian set.
pub const MAX_ACTIVE_GUARDIANS: u8 = 6;

/// Explicit failures produced by checked arithmetic.
#[derive(Clone, Copy, Debug, PartialEq, Eq, Structural)]
pub enum MathError {
    /// A multiply/divide operation received a zero denominator.
    DivisionByZero,
    /// An addition exceeded the destination integer type.
    AdditionOverflow,
    /// A multiplication exceeded its checked intermediate or destination type.
    MultiplicationOverflow,
    /// A subtraction would have produced a negative unsigned value.
    SubtractionUnderflow,
    /// A checked wide result could not be represented as an amount.
    NarrowingConversion,
    /// The active count exceeded the six-guardian set.
    InvalidActiveGuardianCount {
        /// Rejected caller-supplied active-guardian count.
        active_guardians: u8,
    },
}

/// The human-readable description of each failure.
pub open spec fn spec_message(e: MathError) -> Seq<char> {
    match e {
        MathError::DivisionByZero => "division by zero"@,
        MathError::AdditionOverflow => "addition overflow"@,
        MathError::MultiplicationOverflow => "multiplication overflow"@,
        MathError::SubtractionUnderflow => "subtraction underflow"@,
        MathError::NarrowingConversion => "narrowing conversion failed"@,
        MathError::InvalidActiveGuardianCount { .. } => "active guardian count exceeds the guardian set"@,
    }
}

impl MathError {
    /// Human-readable description of the failure.
    pub fn message(&self) -> (s: String)
        ensures
            s@ == spec_message(*self),
    {
        match self {
            MathError::DivisionByZero => {
                "division by zero".to_owned()
            },
            MathError::AdditionOverflow => {
                "addition overflow".to_owned()
            },
            MathError::MultiplicationOverflow => {
                "multiplication overflow".to_owned()
            },
            MathError::SubtractionUnderflow => {
                "subtraction underflow".to_owned()
            },
            MathError::NarrowingConversion => {
                "narrowing conversion failed".to_owned()
            },
            MathError::InvalidActiveGuardianCount { .. } => {
                "active guardian count exceeds the guardian set".to_owned()
            },
        }
    }
}

/// Result of the fixed gross-yield split. Each named allocation is
/// independently floored; `dust` is the exact residual.
#[derive(Clone, Copy, Debug, Default, PartialEq, Eq, Structural)]
pub struct GrossYieldSplit {
    /// Floored 59% HTFP reserve allocation.
    pub htfp_reserve: u64,
    /// Floored 19.5% permanent compound allocation.
    pub permanent_compound: u64,
    /// Floored 19.5% Team Owner Pool allocation.
    pub team_owner_pool: u64,
    /// Floored 2% KIF allocation.
    pub kif: u64,
    /// Gross yield left after all four independent floors.
    pub dust: u64,
}

/// Pure numeric components eligible for a checked high-water-mark increase.
#[derive(Clone, Copy, Debug, Default, PartialEq, Eq, Structural)]
pub struct HighWaterMarkComponents {
    /// Conservatively reconciled SOL value of new contributions.
    pub contribution_value: u64,
    /// Normal 19.5% compound allocation from the fixed split.
    pub normal_compound_allocation: u64,
    /// Dust retained from the fixed gross-yield split.
    pub split_dust: u64,
    /// Retained dust from a validated conversion.
    pub conversion_dust: u64,
    /// Retained dust from a validated net allocation.
    pub net_allocation_dust: u64,
    /// KIF amount compounded for a zero-active-guardian period.
    pub zero_active_kif_compound: u64,
}

/// Checked result of increasing the protected-principal high-water mark.
#[derive(Clone, Copy, Debug, PartialEq, Eq, Structural)]
pub struct HighWaterMarkUpdate {
    /// Exact checked sum of the six eligible components.
    pub increase: u64,
    /// Old high-water mark plus `increase`.
    pub new_high_water_mark: u64,
}

/// Active-guardian KIF allocation with an explicit collective carry.
#[derive(Clone, Copy, Debug, PartialEq, Eq, Structural)]
pub struct ActiveGuardianKifAllocation {
    /// Current KIF allocation plus approved prior collective carry.
    pub kif_available: u64,
    /// Snapshotted active-guardian count in `1..=6`.
    pub active_guardians: u8,
    /// Equal, floored amount credited to each active guardian.
    pub per_guardian: u64,
    /// Total credited across all active guardians.
    pub credited_total: u64,
    /// Unassigned division remainder retained as collective carry.
    pub carry_next: u64,
}

/// Zero-active-guardian KIF allocation.
#[derive(Clone, Copy, Debug, PartialEq, Eq, Structural)]
pub struct ZeroActiveGuardianKifAllocation {
    /// Current KIF allocation plus all approved prior collective carry.
    pub kif_available: u64,
    /// Floored half permanently assigned to compound.
    pub compound_from_kif: u64,
    /// Residual half, including any odd unit, retained as collective carry.
    pub carry_next: u64,
}

/// KIF allocation selected by a snapshotted count in `0..=6`.
#[derive(Clone, Copy, Debug, PartialEq, Eq, Structural)]
pub enum KifAllocation {
    /// Equal allocation for one or more active guardians.
    ActiveGuardians(ActiveGuardianKifAllocation),
    /// Fifty-percent compound and residual carry for zero active guardians.
    ZeroActiveGuardians(ZeroActiveGuardianKifAllocation),
}

// ---------------------------------------------------------------------------
// Specifications
// ---------------------------------------------------------------------------

/// `floor(a * b / d)` on mathematical integers, checked against the amount range.
pub open spec fn spec_mul_div_floor(a: u64, b: u64, d: u64) -> Result<u64, MathError> {
    if d == 0 {
        Err(MathError::DivisionByZero)
    } else if (a as int) * (b as int) / (d as int) > u64::MAX {
        Err(MathError::NarrowingConversion)
    } else {
        Ok(((a as int) * (b as int) / (d as int)) as u64)
    }
}

/// `ceil(a * b / d)` on mathematical integers.
pub open spec fn ceil_div(p: int, d: int) -> int {
    if p % d == 0 { p / d } else { p / d + 1 }
}

/// `ceil(a * b / d)`, checked against the amount range.
pub open spec fn spec_mul_div_ceil(a: u64, b: u64, d: u64) -> Result<u64, MathError> {
    if d == 0 {
        Err(MathError::DivisionByZero)
    } else if ceil_div((a as int) * (b as int), d as int) > u64::MAX {
        Err(MathError::NarrowingConversion)
    } else {
        Ok(ceil_div((a as int) * (b as int), d as int) as u64)
    }
}

/// `max(0, historical_value - high_water_mark)`.
pub open spec fn spec_gross_yield(historical_value: u64, high_water_mark: u64) -> u64 {
    if historical_value >= high_water_mark {
        (historical_value - high_water_mark) as u64
    } else {
        0
    }
}

/// Independent floor of `gross * bps / 10_000`.
pub open spec fn bps_share(gross: u64, bps: u64) -> u64 {
    ((gross as int) * (bps as int) / 10_000) as u64
}

/// The exact fixed `5900/1950/1950/200` split of `gross`.
pub open spec fn spec_split(gross: u64) -> GrossYieldSplit {
    let h = bps_share(gross, HTFP_RESERVE_BPS);
    let p = bps_share(gross, PERMANENT_COMPOUND_BPS);
    let t = bps_share(gross, TEAM_OWNER_POOL_BPS);
    let k = bps_share(gross, KIF_BPS);
    GrossYieldSplit {
        htfp_reserve: h,
        permanent_compound: p,
        team_owner_pool: t,
        kif: k,
        dust: (gross - h - p - t - k) as u64,
    }
}

/// Sum of all six high-water-mark components on mathematical integers.
pub open spec fn components_sum(c: HighWaterMarkComponents) -> int {
    c.contribution_value + c.normal_compound_allocation + c.split_dust + c.conversion_dust
        + c.net_allocation_dust + c.zero_active_kif_compound
}

/// The checked high-water-mark increase.
pub open spec fn spec_increase_hwm(
    old: u64,
    c: HighWaterMarkComponents,
) -> Result<HighWaterMarkUpdate, MathError> {
    let inc = components_sum(c);
    if inc > u64::MAX || old + inc > u64::MAX {
        Err(MathError::AdditionOverflow)
    } else {
        Ok(HighWaterMarkUpdate { increase: inc as u64, new_high_water_mark: (old + inc) as u64 })
    }
}

/// The KIF allocation for `active` guardians over `current + carry`.
pub open spec fn spec_allocate_kif(current: u64, carry: u64, active: u8) -> Result<
    KifAllocation,
    MathError,
> {
    let avail = current + carry;
    if active > MAX_ACTIVE_GUARDIANS {
        Err(MathError::InvalidActiveGuardianCount { active_guardians: active })
    } else if avail > u64::MAX {
        Err(MathError::AdditionOverflow)
    } else if active == 0 {
        Ok(
            KifAllocation::ZeroActiveGuardians(
                ZeroActiveGuardianKifAllocation {
                    kif_available: avail as u64,
                    compound_from_kif: (avail / 2) as u64,
                    carry_next: (avail - avail / 2) as u64,
                },
            ),
        )
    } else {
        let per = avail / (active as int);
        Ok(
            KifAllocation::ActiveGuardians(
                ActiveGuardianKifAllocation {
                    kif_available: avail as u64,
                    active_guardians: active,
                    per_guardian: per as u64,
                    credited_total: (per * active) as u64,
                    carry_next: (avail - per * active) as u64,
                },
            ),
        )
    }
}

// ---------------------------------------------------------------------------
// Arithmetic lemmas
// ---------------------------------------------------------------------------

proof fn lemma_u64_product_fits(a: u64, b: u64)
    ensures
        0 <= (a as int) * (b as int) <= u128::MAX,
{
    assert(0 <= (a as int) * (b as int) <= (u64::MAX as int) * (u64::MAX as int))
        by (nonlinear_arith)
        requires
            a <= u64::MAX,
            b <= u64::MAX,
    ;
}

/// `x / d + y / d <= (x + y) / d` for nonnegative `x`, `y` and positive `d`.
proof fn lemma_floor_sum(x: int, y: int, d: int)
    requires
        x >= 0,
        y >= 0,
        d > 0,
    ensures
        x / d + y / d <= (x + y) / d,
{
    vstd::arithmetic::div_mod::lemma_fundamental_div_mod(x, d);
    vstd::arithmetic::div_mod::lemma_fundamental_div_mod(y, d);
    vstd::arithmetic::div_mod::lemma_fundamental_div_mod(x + y, d);
    assert(x / d + y / d <= (x + y) / d) by (nonlinear_arith)
        requires
            d > 0,
            x == d * (x / d) + x % d,
            y == d * (y / d) + y % d,
            x + y == d * ((x + y) / d) + (x + y) % d,
            0 <= x % d < d,
            0 <= y % d < d,
            0 <= (x + y) % d < d,
    ;
}

/// `d * (x / d) <= x` and `x - d * (x / d) < d` for nonnegative `x`.
proof fn lemma_floor_bounds(x: int, d: int)
    requires
        x >= 0,
        d > 0,
    ensures
        0 <= x / d,
        d * (x / d) <= x,
        x - d * (x / d) < d,
        x / d <= x,
{
    vstd::arithmetic::div_mod::lemma_fundamental_div_mod(x, d);
    assert(0 <= x / d && x / d <= x) by (nonlinear_arith)
        requires
            d > 0,
            x >= 0,
            x == d * (x / d) + x % d,
            0 <= x % d < d,
    ;
}

/// The four fixed shares of `g` never exceed `g` together.
pub proof fn lemma_split_shares_bounded(g: u64)
    ensures
        bps_share(g, HTFP_RESERVE_BPS) + bps_share(g, PERMANENT_COMPOUND_BPS) + bps_share(
            g,
            TEAM_OWNER_POOL_BPS,
        ) + bps_share(g, KIF_BPS) <= g,
        bps_share(g, HTFP_RESERVE_BPS) <= g,
        bps_share(g, PERMANENT_COMPOUND_BPS) <= g,
        bps_share(g, TEAM_OWNER_POOL_BPS) <= g,
        bps_share(g, KIF_BPS) <= g,
{
    let gi = g as int;
    let a = gi * 5900;
    let b = gi * 1950;
    let c = gi * 1950;
    let k = gi * 200;
    assert(a >= 0 && b >= 0 && c >= 0 && k >= 0);
    lemma_floor_sum(a, b, 10_000);
    lemma_floor_sum(a + b, c, 10_000);
    lemma_floor_sum(a + b + c, k, 10_000);
    assert(a + b + c + k == gi * 10_000);
    vstd::arithmetic::div_mod::lemma_div_multiples_vanish(gi, 10_000);
    assert((gi * 10_000) / 10_000 == gi) by {
        vstd::arithmetic::mul::lemma_mul_is_commutative(gi, 10_000);
    }
    lemma_floor_bounds(a, 10_000);
    lemma_floor_bounds(b, 10_000);
    lemma_floor_bounds(c, 10_000);
    lemma_floor_bounds(k, 10_000);
}

// ---------------------------------------------------------------------------
// Executable functions
// ---------------------------------------------------------------------------

/// Computes `floor(multiplicand * multiplier / denominator)` with checked math.
///
/// A zero denominator is always `DivisionByZero`, including when a factor is
/// zero; a quotient above the amount range is `NarrowingConversion`.
pub fn checked_mul_div_floor(multiplicand: u64, multiplier: u64, denominator: u64) -> (r: Result<
    u64,
    MathError,
>)
    ensures
        r == spec_mul_div_floor(multiplicand, multiplier, denominator),
{
    proof {
        lemma_u64_product_fits(multiplicand, multiplier);
    }
    let quotient = checked_mul_div_floor_wide(
        multiplicand as u128,
        multiplier as u128,
        denominator as u128,
    );
    match quotient {
        Err(e) => Err(e),
        Ok(q) => narrow_amount(q),
    }
}

/// Computes `ceil(multiplicand * multiplier / denominator)` with checked math.
///
/// The ceiling is derived from quotient and remainder, never by adding
/// `denominator - 1`, so no spurious intermediate overflow exists.
pub fn checked_mul_div_ceil(multiplicand: u64, multiplier: u64, denominator: u64) -> (r: Result<
    u64,
    MathError,
>)
    ensures
        r == spec_mul_div_ceil(multiplicand, multiplier, denominator),
{
    proof {
        lemma_u64_product_fits(multiplicand, multiplier);
        assert((multiplicand as int) * (multiplier as int) <= (u64::MAX as int) * (u64::MAX as int))
            by (nonlinear_arith)
            requires
                multiplicand <= u64::MAX,
                multiplier <= u64::MAX,
        ;
        if denominator > 0 {
            lemma_floor_bounds((multiplicand as int) * (multiplier as int), denominator as int);
        }
    }
    let quotient = checked_mul_div_ceil_wide(
        multiplicand as u128,
        multiplier as u128,
        denominator as u128,
    );
    match quotient {
        Err(e) => Err(e),
        Ok(q) => narrow_amount(q),
    }
}

/// Calculates gross yield `max(0, historical_value - high_water_mark)`.
/// Recovery at or below the high-water mark is not yield.
pub fn calculate_gross_yield(historical_value: u64, high_water_mark: u64) -> (r: u64)
    ensures
        r == spec_gross_yield(historical_value, high_water_mark),
        r <= historical_value,
        r > 0 ==> r + high_water_mark == historical_value,
{
    match historical_value.checked_sub(high_water_mark) {
        Some(gross_yield) => gross_yield,
        None => 0,
    }
}

/// Splits gross yield using the fixed `5900/1950/1950/200` basis points.
///
/// Every named allocation is independently floored; allocations plus dust equal
/// `gross_yield` exactly. The split always succeeds.
pub fn split_gross_yield(gross_yield: u64) -> (r: Result<GrossYieldSplit, MathError>)
    ensures
        r == Ok::<GrossYieldSplit, MathError>(spec_split(gross_yield)),
{
    proof {
        lemma_split_shares_bounded(gross_yield);
    }
    let htfp_reserve = checked_mul_div_floor(
        gross_yield,
        HTFP_RESERVE_BPS,
        BASIS_POINTS_DENOMINATOR,
    )?;
    let permanent_compound = checked_mul_div_floor(
        gross_yield,
        PERMANENT_COMPOUND_BPS,
        BASIS_POINTS_DENOMINATOR,
    )?;
    let team_owner_pool = checked_mul_div_floor(
        gross_yield,
        TEAM_OWNER_POOL_BPS,
        BASIS_POINTS_DENOMINATOR,
    )?;
    let kif = checked_mul_div_floor(gross_yield, KIF_BPS, BASIS_POINTS_DENOMINATOR)?;

    let allocated = checked_add_amount(htfp_reserve, permanent_compound)?;
    let allocated = checked_add_amount(allocated, team_owner_pool)?;
    let allocated = checked_add_amount(allocated, kif)?;
    let dust = checked_sub_amount(gross_yield, allocated)?;

    Ok(GrossYieldSplit { htfp_reserve, permanent_compound, team_owner_pool, kif, dust })
}

/// Adds all pure numeric high-water-mark components with checks and raises
/// `old_high_water_mark` by their sum; never lowers the mark, never wraps.
pub fn checked_increase_high_water_mark(
    old_high_water_mark: u64,
    components: HighWaterMarkComponents,
) -> (r: Result<HighWaterMarkUpdate, MathError>)
    ensures
        r == spec_increase_hwm(old_high_water_mark, components),
{
    let increase = checked_add_amount(0, components.contribution_value)?;
    let increase = checked_add_amount(increase, components.normal_compound_allocation)?;
    let increase = checked_add_amount(increase, components.split_dust)?;
    let increase = checked_add_amount(increase, components.conversion_dust)?;
    let increase = checked_add_amount(increase, components.net_allocation_dust)?;
    let increase = checked_add_amount(increase, components.zero_active_kif_compound)?;
    let new_high_water_mark = checked_add_amount(old_high_water_mark, increase)?;

    Ok(HighWaterMarkUpdate { increase, new_high_water_mark })
}

/// Allocates current KIF plus approved prior carry for `0..=6` active guardians.
///
/// Counts `1..=6` receive an equal floored per-guardian allocation with the
/// remainder carried collectively. Count zero compounds `floor(available / 2)`
/// and carries the rest, so an odd extra unit remains in carry.
pub fn allocate_kif(current_kif_allocation: u64, approved_prior_carry: u64, active_guardians: u8) -> (r:
    Result<KifAllocation, MathError>)
    ensures
        r == spec_allocate_kif(current_kif_allocation, approved_prior_carry, active_guardians),
{
    if active_guardians > MAX_ACTIVE_GUARDIANS {
        return Err(MathError::InvalidActiveGuardianCount { active_guardians });
    }
    let kif_available = checked_add_amount(current_kif_allocation, approved_prior_carry)?;

    if active_guardians == 0 {
        let compound_from_kif = checked_mul_div_floor(kif_available, 1, 2)?;
        proof {
            lemma_floor_bounds(kif_available as int, 2);
        }
        let carry_next = checked_sub_amount(kif_available, compound_from_kif)?;
        return Ok(
            KifAllocation::ZeroActiveGuardians(
                ZeroActiveGuardianKifAllocation { kif_available, compound_from_kif, carry_next },
            ),
        );
    }
    let guardian_count = active_guardians as u64;
    let per_guardian = checked_mul_div_floor(kif_available, 1, guardian_count)?;
    proof {
        lemma_floor_bounds(kif_available as int, guardian_count as int);
        assert((per_guardian as int) * (guardian_count as int) == (guardian_count as int) * (
        per_guardian as int)) by (nonlinear_arith);
    }
    let credited_total = checked_mul_amount(per_guardian, guardian_count)?;
    let carry_next = checked_sub_amount(kif_available, credited_total)?;

    Ok(
        KifAllocation::ActiveGuardians(
            ActiveGuardianKifAllocation {
                kif_available,
                active_guardians,
                per_guardian,
                credited_total,
                carry_next,
            },
        ),
    )
}

/// Wide `floor(multiplicand * multiplier / denominator)` over `u128`.
pub fn checked_mul_div_floor_wide(multiplicand: u128, multiplier: u128, denominator: u128) -> (r:
    Result<u128, MathError>)
    ensures
        denominator == 0 ==> r == Err::<u128, MathError>(MathError::DivisionByZero),
        denominator != 0 && multiplicand * multiplier > u128::MAX ==> r == Err::<u128, MathError>(
            MathError::MultiplicationOverflow,
        ),
        denominator != 0 && multiplicand * multiplier <= u128::MAX ==> r == Ok::<u128, MathError>(
            ((multiplicand * multiplier) / (denominator as int)) as u128,
        ),
{
    if denominator == 0 {
        return Err(MathError::DivisionByZero);
    }
    let product = match multiplicand.checked_mul(multiplier) {
        Some(p) => p,
        None => return Err(MathError::MultiplicationOverflow),
    };
    Ok(product / denominator)
}

/// Wide `ceil(multiplicand * multiplier / denominator)` over `u128`.
pub fn checked_mul_div_ceil_wide(multiplicand: u128, multiplier: u128, denominator: u128) -> (r:
    Result<u128, MathError>)
    ensures
        denominator == 0 ==> r == Err::<u128, MathError>(MathError::DivisionByZero),
        denominator != 0 && multiplicand * multiplier > u128::MAX ==> r == Err::<u128, MathError>(
            MathError::MultiplicationOverflow,
        ),
        denominator != 0 && multiplicand * multiplier <= u128::MAX && ceil_div(
            multiplicand * multiplier,
            denominator as int,
        ) > u128::MAX ==> r == Err::<u128, MathError>(MathError::AdditionOverflow),
        denominator != 0 && multiplicand * multiplier <= u128::MAX && ceil_div(
            multiplicand * multiplier,
            denominator as int,
        ) <= u128::MAX ==> r == Ok::<u128, MathError>(
            ceil_div(multiplicand * multiplier, denominator as int) as u128,
        ),
{
    if denominator == 0 {
        return Err(MathError::DivisionByZero);
    }
    let product = match multiplicand.checked_mul(multiplier) {
        Some(p) => p,
        None => return Err(MathError::MultiplicationOverflow),
    };
    let quotient = product / denominator;
    if product % denominator == 0 {
        Ok(quotient)
    } else {
        match quotient.checked_add(1) {
            Some(q) => Ok(q),
            None => Err(MathError::AdditionOverflow),
        }
    }
}

/// Checked narrowing of a wide value into an amount.
pub fn narrow_amount(value: u128) -> (r: Result<u64, MathError>)
    ensures
        value > u64::MAX ==> r == Err::<u64, MathError>(MathError::NarrowingConversion),
        value <= u64::MAX ==> r == Ok::<u64, MathError>(value as u64),
{
    if value > u64::MAX as u128 {
        Err(MathError::NarrowingConversion)
    } else {
        Ok(value as u64)
    }
}

/// Checked amount addition.
pub fn checked_add_amount(left: u64, right: u64) -> (r: Result<u64, MathError>)
    ensures
        left + right > u64::MAX ==> r == Err::<u64, MathError>(MathError::AdditionOverflow),
        left + right <= u64::MAX ==> r == Ok::<u64, MathError>((left + right) as u64),
{
    match left.checked_add(right) {
        Some(v) => Ok(v),
        None => Err(MathError::AdditionOverflow),
    }
}

/// Checked amount multiplication.
pub fn checked_mul_amount(left: u64, right: u64) -> (r: Result<u64, MathError>)
    ensures
        left * right > u64::MAX ==> r == Err::<u64, MathError>(MathError::MultiplicationOverflow),
        left * right <= u64::MAX ==> r == Ok::<u64, MathError>((left * right) as u64),
{
    match left.checked_mul(right) {
        Some(v) => Ok(v),
        None => Err(MathError::MultiplicationOverflow),
    }
}

/// Checked amount subtraction.
pub fn checked_sub_amount(left: u64, right: u64) -> (r: Result<u64, MathError>)
    ensures
        left < right ==> r == Err::<u64, MathError>(MathError::SubtractionUnderflow),
        left >= right ==> r == Ok::<u64, MathError>((left - right) as u64),
{
    match left.checked_sub(right) {
        Some(v) => Ok(v),
        None => Err(MathError::SubtractionUnderflow),
    }
}

} // verus!
