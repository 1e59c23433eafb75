//! Pure checked timing helpers over trusted Clock timestamps.

use crate::constants::{
    INSUFFICIENT_RETRY_COOLDOWN_SECONDS, KIF_PERIOD_SECONDS, MINIMUM_DISTRIBUTION_INTERVAL_SECONDS,
};
use crate::errors::{Piv1Error, Piv1Result};
use vstd::prelude::*;

verus! {

/// Checked half-open KIF period derived from a configured anchor.
#[derive(Clone, Copy, Debug, PartialEq, Eq, Structural)]
pub struct KifPeriod {
    /// Monotonic period identifier beginning at zero at the configured anchor.
    pub id: u64,
    /// Inclusive period start timestamp.
    pub start_timestamp: i64,
    /// Exclusive period end timestamp.
    pub end_timestamp: i64,
}

/// Outcome of checking that `required_seconds` have elapsed since `previous`.
pub open spec fn spec_optional_elapsed(
    previous: Option<i64>,
    now: i64,
    required_seconds: i64,
    not_elapsed_error: Piv1Error,
) -> Piv1Result<()> {
    if required_seconds <= 0 {
        Err(Piv1Error::InvalidTimingConfiguration)
    } else {
        match previous {
            None => Ok(()),
            Some(p) => if now < p {
                Err(Piv1Error::TimestampRegression)
            } else if now - p > i64::MAX {
                Err(Piv1Error::ArithmeticOverflow)
            } else if now - p < required_seconds {
                Err(not_elapsed_error)
            } else {
                Ok(())
            },
        }
    }
}

/// Outcome of the ten-day preparation-interval check.
pub open spec fn spec_preparation_interval(previous: Option<i64>, now: i64) -> Piv1Result<()> {
    spec_optional_elapsed(
        previous,
        now,
        MINIMUM_DISTRIBUTION_INTERVAL_SECONDS,
        Piv1Error::PreparationIntervalNotElapsed,
    )
}

/// Outcome of the one-day insufficient-attempt retry check.
pub open spec fn spec_insufficient_retry(previous: Option<i64>, now: i64) -> Piv1Result<()> {
    spec_optional_elapsed(
        previous,
        now,
        INSUFFICIENT_RETRY_COOLDOWN_SECONDS,
        Piv1Error::InsufficientAttemptCooldownActive,
    )
}

/// The half-open KIF period of fixed length containing `timestamp`.
pub open spec fn spec_kif_period(anchor: i64, timestamp: i64) -> Piv1Result<KifPeriod> {
    if timestamp < anchor {
        Err(Piv1Error::TimestampRegression)
    } else if timestamp - anchor > i64::MAX {
        Err(Piv1Error::ArithmeticOverflow)
    } else {
        let index = (timestamp - anchor) / (KIF_PERIOD_SECONDS as int);
        let start = anchor + index * KIF_PERIOD_SECONDS;
        if start + KIF_PERIOD_SECONDS > i64::MAX {
            Err(Piv1Error::ArithmeticOverflow)
        } else {
            Ok(
                KifPeriod {
                    id: index as u64,
                    start_timestamp: start as i64,
                    end_timestamp: (start + KIF_PERIOD_SECONDS) as i64,
                },
            )
        }
    }
}

/// Validates the minimum interval after a successful preparation.
pub fn validate_preparation_interval(last_successful_preparation_at: Option<i64>, now: i64) -> (r:
    Piv1Result<()>)
    ensures
        r == spec_preparation_interval(last_successful_preparation_at, now),
{
    validate_optional_elapsed(
        last_successful_preparation_at,
        now,
        MINIMUM_DISTRIBUTION_INTERVAL_SECONDS,
        Piv1Error::PreparationIntervalNotElapsed,
    )
}

/// Validates the retry interval after a valid technically insufficient result.
pub fn validate_insufficient_retry(last_valid_insufficient_attempt_at: Option<i64>, now: i64) -> (r:
    Piv1Result<()>)
    ensures
        r == spec_insufficient_retry(last_valid_insufficient_attempt_at, now),
{
    validate_optional_elapsed(
        last_valid_insufficient_attempt_at,
        now,
        INSUFFICIENT_RETRY_COOLDOWN_SECONDS,
        Piv1Error::InsufficientAttemptCooldownActive,
    )
}

/// Derives the fixed half-open KIF period containing `timestamp`.
pub fn derive_kif_period(anchor_timestamp: i64, timestamp: i64) -> (r: Piv1Result<KifPeriod>)
    ensures
        r == spec_kif_period(anchor_timestamp, timestamp),
        r matches Ok(p) ==> p.start_timestamp <= timestamp < p.end_timestamp && p.end_timestamp
            - p.start_timestamp == KIF_PERIOD_SECONDS,
{
    if timestamp < anchor_timestamp {
        return Err(Piv1Error::TimestampRegression);
    }
    let elapsed: i64 = match timestamp.checked_sub(anchor_timestamp) {
        Some(e) => e,
        None => return Err(Piv1Error::ArithmeticOverflow),
    };
    let period_index: i64 = elapsed / KIF_PERIOD_SECONDS;
    proof {
        vstd::arithmetic::div_mod::lemma_fundamental_div_mod(
            elapsed as int,
            KIF_PERIOD_SECONDS as int,
        );
        assert(0 <= period_index);
        assert(period_index * KIF_PERIOD_SECONDS <= elapsed) by (nonlinear_arith)
            requires
                elapsed == KIF_PERIOD_SECONDS * period_index + elapsed % KIF_PERIOD_SECONDS,
                0 <= elapsed % KIF_PERIOD_SECONDS,
        ;
        assert(elapsed < period_index * KIF_PERIOD_SECONDS + KIF_PERIOD_SECONDS) by (
        nonlinear_arith)
            requires
                elapsed == KIF_PERIOD_SECONDS * period_index + elapsed % KIF_PERIOD_SECONDS,
                elapsed % KIF_PERIOD_SECONDS < KIF_PERIOD_SECONDS,
        ;
    }
    let period_id = period_index as u64;
    let period_offset: i64 = period_index * KIF_PERIOD_SECONDS;
    let start_timestamp: i64 = anchor_timestamp + period_offset;
    let end_timestamp: i64 = match start_timestamp.checked_add(KIF_PERIOD_SECONDS) {
        Some(e) => e,
        None => return Err(Piv1Error::ArithmeticOverflow),
    };
    if timestamp < start_timestamp || timestamp >= end_timestamp {
        return Err(Piv1Error::InvalidTimestamp);
    }
    Ok(KifPeriod { id: period_id, start_timestamp, end_timestamp })
}

/// Shared elapsed-time check: a nonpositive requirement is a configuration
/// error, a missing previous timestamp always passes, a backwards clock is a
/// regression, and a short interval yields `not_elapsed_error`.
pub fn validate_optional_elapsed(
    previous: Option<i64>,
    now: i64,
    required_seconds: i64,
    not_elapsed_error: Piv1Error,
) -> (r: Piv1Result<()>)
    ensures
        r == spec_optional_elapsed(previous, now, required_seconds, not_elapsed_error),
{
    if required_seconds <= 0 {
        return Err(Piv1Error::InvalidTimingConfiguration);
    }
    let previous = match previous {
        None => return Ok(()),
        Some(p) => p,
    };
    if now < previous {
        return Err(Piv1Error::TimestampRegression);
    }
    let elapsed: i64 = match now.checked_sub(previous) {
        Some(e) => e,
        None => return Err(Piv1Error::ArithmeticOverflow),
    };
    if elapsed < required_seconds {
        return Err(not_elapsed_error);
    }
    Ok(())
}

} // verus!
