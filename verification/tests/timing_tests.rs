//! Clock-derived timing rules: preparation interval, insufficient-attempt
//! cooldown and half-open KIF periods.

use piv1::constants::{
    INSUFFICIENT_RETRY_COOLDOWN_SECONDS, KIF_PERIOD_SECONDS, MINIMUM_DISTRIBUTION_INTERVAL_SECONDS,
};
use piv1::errors::Piv1Error;
use piv1::state::timing::{
    derive_kif_period, validate_insufficient_retry, validate_preparation_interval, KifPeriod,
};

#[test]
fn preparation_interval_accepts_first_use_and_exact_boundary() {
    let previous = 1_000_000;

    assert_eq!(MINIMUM_DISTRIBUTION_INTERVAL_SECONDS, 864_000);
    assert_eq!(validate_preparation_interval(None, previous), Ok(()));
    assert_eq!(
        validate_preparation_interval(
            Some(previous),
            previous + MINIMUM_DISTRIBUTION_INTERVAL_SECONDS,
        ),
        Ok(())
    );
}

#[test]
fn preparation_interval_rejects_pre_boundary_and_regression() {
    let previous = 1_000_000;

    assert_eq!(
        validate_preparation_interval(
            Some(previous),
            previous + MINIMUM_DISTRIBUTION_INTERVAL_SECONDS - 1,
        ),
        Err(Piv1Error::PreparationIntervalNotElapsed)
    );
    assert_eq!(
        validate_preparation_interval(Some(previous), previous - 1),
        Err(Piv1Error::TimestampRegression)
    );
}

#[test]
fn insufficient_retry_accepts_first_use_and_exact_boundary() {
    let previous = 2_000_000;

    assert_eq!(INSUFFICIENT_RETRY_COOLDOWN_SECONDS, 86_400);
    assert_eq!(validate_insufficient_retry(None, previous), Ok(()));
    assert_eq!(
        validate_insufficient_retry(
            Some(previous),
            previous + INSUFFICIENT_RETRY_COOLDOWN_SECONDS,
        ),
        Ok(())
    );
}

#[test]
fn insufficient_retry_rejects_pre_boundary_and_regression() {
    let previous = 2_000_000;

    assert_eq!(
        validate_insufficient_retry(
            Some(previous),
            previous + INSUFFICIENT_RETRY_COOLDOWN_SECONDS - 1,
        ),
        Err(Piv1Error::InsufficientAttemptCooldownActive)
    );
    assert_eq!(
        validate_insufficient_retry(Some(previous), previous - 1),
        Err(Piv1Error::TimestampRegression)
    );
}

#[test]
fn elapsed_checks_report_signed_overflow() {
    assert_eq!(
        validate_preparation_interval(Some(i64::MIN), i64::MAX),
        Err(Piv1Error::ArithmeticOverflow)
    );
    assert_eq!(
        validate_insufficient_retry(Some(i64::MIN), i64::MAX),
        Err(Piv1Error::ArithmeticOverflow)
    );
}

#[test]
fn kif_period_boundaries_are_half_open() {
    let anchor = 1_700_000_000;
    let first_end = anchor + KIF_PERIOD_SECONDS;
    let second_end = first_end + KIF_PERIOD_SECONDS;

    assert_eq!(KIF_PERIOD_SECONDS, 2_592_000);
    assert_eq!(
        derive_kif_period(anchor, anchor),
        Ok(KifPeriod {
            id: 0,
            start_timestamp: anchor,
            end_timestamp: first_end,
        })
    );
    assert_eq!(
        derive_kif_period(anchor, first_end - 1),
        Ok(KifPeriod {
            id: 0,
            start_timestamp: anchor,
            end_timestamp: first_end,
        })
    );
    assert_eq!(
        derive_kif_period(anchor, first_end),
        Ok(KifPeriod {
            id: 1,
            start_timestamp: first_end,
            end_timestamp: second_end,
        })
    );
}

#[test]
fn kif_period_rejects_pre_anchor_timestamp() {
    let anchor = 1_700_000_000;

    assert_eq!(
        derive_kif_period(anchor, anchor - 1),
        Err(Piv1Error::TimestampRegression)
    );
}

#[test]
fn kif_period_reports_checked_overflow_near_i64_limits() {
    assert_eq!(
        derive_kif_period(i64::MIN, i64::MAX),
        Err(Piv1Error::ArithmeticOverflow)
    );

    let anchor_with_unrepresentable_end = i64::MAX - KIF_PERIOD_SECONDS + 1;
    assert_eq!(
        derive_kif_period(
            anchor_with_unrepresentable_end,
            anchor_with_unrepresentable_end,
        ),
        Err(Piv1Error::ArithmeticOverflow)
    );
}
