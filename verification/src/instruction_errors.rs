//! Stable custom error numbers of the instruction boundary. Existing numbers
//! never change and are never reused; the enum's order does not define them.

use crate::errors::Piv1Error;
use crate::kif_claim_execution::KifClaimExecutionError;
use vstd::prelude::*;

verus! {

/// Code reserved for host runtime unavailability, outside the state errors.
pub const HOST_RUNTIME_UNAVAILABLE_CODE: u32 = 6999;

/// The wire number of each state error.
pub open spec fn spec_error_code(error: Piv1Error) -> u32 {
    match error {
        Piv1Error::InvalidAccountOwner => 6000,
        Piv1Error::AccountNotWritable => 6001,
        Piv1Error::MissingGuardianSignature => 6002,
        Piv1Error::ZeroKifClaim => 6003,
        Piv1Error::StaleKifClaim => 6004,
        Piv1Error::KifClaimExceeded => 6005,
        Piv1Error::KifClaimBackingDeficit => 6006,
        Piv1Error::KifClaimStateChanged => 6007,
        Piv1Error::KifClaimObservationMismatch => 6008,
        Piv1Error::InvalidClockAccount => 6009,
        Piv1Error::ExecutableAccount => 6010,
        Piv1Error::InvalidAccountSize => 6011,
        Piv1Error::InvalidAccountDiscriminator => 6012,
        Piv1Error::InvalidAccountData => 6013,
        Piv1Error::StateEnvelopeEncodingFailed => 6014,
        Piv1Error::StateEnvelopeChanged => 6015,
        Piv1Error::InvalidAccountPda => 6016,
        Piv1Error::AccountAlias => 6017,
        Piv1Error::InvalidProgramIdentity => 6018,
        Piv1Error::AccountBorrowFailed => 6019,
        Piv1Error::AccountRentDeficit => 6020,
        Piv1Error::InvalidRent => 6021,
        Piv1Error::InvalidTokenCustody => 6022,
        Piv1Error::UnsupportedTokenNativeExcess => 6023,
        Piv1Error::InvalidVersion => 6024,
        Piv1Error::InvalidInitialization => 6025,
        Piv1Error::InvalidBootstrapState => 6026,
        Piv1Error::ZeroPrincipalDeposit => 6027,
        Piv1Error::PrincipalDepositExceedsQueue => 6028,
        Piv1Error::UnsupportedPrincipalDepositFee => 6029,
        Piv1Error::InvalidPrincipalDepositPool => 6030,
        Piv1Error::PrincipalDepositObservationMismatch => 6031,
        Piv1Error::PrincipalDepositMinimumNotMet => 6032,
        Piv1Error::PrincipalDepositHistoricalValueLoss => 6033,
        Piv1Error::InvalidLifecycle => 6034,
        Piv1Error::PausedOperation => 6035,
        Piv1Error::InvalidTimestamp => 6036,
        Piv1Error::TimestampRegression => 6037,
        Piv1Error::PreparationIntervalNotElapsed => 6038,
        Piv1Error::InsufficientAttemptCooldownActive => 6039,
        Piv1Error::InvalidInsufficientAttempt => 6040,
        Piv1Error::SequenceMismatch => 6041,
        Piv1Error::LegIndexMismatch => 6042,
        Piv1Error::ZeroTarget => 6043,
        Piv1Error::ZeroInput => 6044,
        Piv1Error::ZeroContribution => 6045,
        Piv1Error::InvalidCustodyObservation => 6046,
        Piv1Error::CustodyBalanceDecreased => 6047,
        Piv1Error::ContributionObservationMismatch => 6048,
        Piv1Error::PendingCustodyDeficit => 6049,
        Piv1Error::EconomicCustodyDeficit => 6050,
        Piv1Error::TargetExceeded => 6051,
        Piv1Error::NonMaximumSafeLegFill => 6052,
        Piv1Error::TechnicalFloorNotMet => 6053,
        Piv1Error::UsefulLegBoundExceeded => 6054,
        Piv1Error::Replay => 6055,
        Piv1Error::AlreadyFinalized => 6056,
        Piv1Error::TargetNotAssigned => 6057,
        Piv1Error::CountMismatch => 6058,
        Piv1Error::CumulativeReconciliationMismatch => 6059,
        Piv1Error::EscrowReconciliationMismatch => 6060,
        Piv1Error::ObligationExceeded => 6061,
        Piv1Error::OutstandingLiability => 6062,
        Piv1Error::SettlementReplay => 6063,
        Piv1Error::HighWaterMarkDecrease => 6064,
        Piv1Error::InvalidGuardianBitmap => 6065,
        Piv1Error::InvalidGuardianCount => 6066,
        Piv1Error::InvalidGuardianSet => 6067,
        Piv1Error::InvalidAddress => 6068,
        Piv1Error::InvalidSlippage => 6069,
        Piv1Error::InvalidSplit => 6070,
        Piv1Error::InvalidTimingConfiguration => 6071,
        Piv1Error::ArithmeticOverflow => 6072,
        Piv1Error::RecoveryRequired => 6073,
    }
}

/// The state error a wire number stands for, if any.
pub open spec fn error_of_code(code: u32) -> Option<Piv1Error> {
    match code {
        6000 => Some(Piv1Error::InvalidAccountOwner),
        6001 => Some(Piv1Error::AccountNotWritable),
        6002 => Some(Piv1Error::MissingGuardianSignature),
        6003 => Some(Piv1Error::ZeroKifClaim),
        6004 => Some(Piv1Error::StaleKifClaim),
        6005 => Some(Piv1Error::KifClaimExceeded),
        6006 => Some(Piv1Error::KifClaimBackingDeficit),
        6007 => Some(Piv1Error::KifClaimStateChanged),
        6008 => Some(Piv1Error::KifClaimObservationMismatch),
        6009 => Some(Piv1Error::InvalidClockAccount),
        6010 => Some(Piv1Error::ExecutableAccount),
        6011 => Some(Piv1Error::InvalidAccountSize),
        6012 => Some(Piv1Error::InvalidAccountDiscriminator),
        6013 => Some(Piv1Error::InvalidAccountData),
        6014 => Some(Piv1Error::StateEnvelopeEncodingFailed),
        6015 => Some(Piv1Error::StateEnvelopeChanged),
        6016 => Some(Piv1Error::InvalidAccountPda),
        6017 => Some(Piv1Error::AccountAlias),
        6018 => Some(Piv1Error::InvalidProgramIdentity),
        6019 => Some(Piv1Error::AccountBorrowFailed),
        6020 => Some(Piv1Error::AccountRentDeficit),
        6021 => Some(Piv1Error::InvalidRent),
        6022 => Some(Piv1Error::InvalidTokenCustody),
        6023 => Some(Piv1Error::UnsupportedTokenNativeExcess),
        6024 => Some(Piv1Error::InvalidVersion),
        6025 => Some(Piv1Error::InvalidInitialization),
        6026 => Some(Piv1Error::InvalidBootstrapState),
        6027 => Some(Piv1Error::ZeroPrincipalDeposit),
        6028 => Some(Piv1Error::PrincipalDepositExceedsQueue),
        6029 => Some(Piv1Error::UnsupportedPrincipalDepositFee),
        6030 => Some(Piv1Error::InvalidPrincipalDepositPool),
        6031 => Some(Piv1Error::PrincipalDepositObservationMismatch),
        6032 => Some(Piv1Error::PrincipalDepositMinimumNotMet),
        6033 => Some(Piv1Error::PrincipalDepositHistoricalValueLoss),
        6034 => Some(Piv1Error::InvalidLifecycle),
        6035 => Some(Piv1Error::PausedOperation),
        6036 => Some(Piv1Error::InvalidTimestamp),
        6037 => Some(Piv1Error::TimestampRegression),
        6038 => Some(Piv1Error::PreparationIntervalNotElapsed),
        6039 => Some(Piv1Error::InsufficientAttemptCooldownActive),
        6040 => Some(Piv1Error::InvalidInsufficientAttempt),
        6041 => Some(Piv1Error::SequenceMismatch),
        6042 => Some(Piv1Error::LegIndexMismatch),
        6043 => Some(Piv1Error::ZeroTarget),
        6044 => Some(Piv1Error::ZeroInput),
        6045 => Some(Piv1Error::ZeroContribution),
        6046 => Some(Piv1Error::InvalidCustodyObservation),
        6047 => Some(Piv1Error::CustodyBalanceDecreased),
        6048 => Some(Piv1Error::ContributionObservationMismatch),
        6049 => Some(Piv1Error::PendingCustodyDeficit),
        6050 => Some(Piv1Error::EconomicCustodyDeficit),
        6051 => Some(Piv1Error::TargetExceeded),
        6052 => Some(Piv1Error::NonMaximumSafeLegFill),
        6053 => Some(Piv1Error::TechnicalFloorNotMet),
        6054 => Some(Piv1Error::UsefulLegBoundExceeded),
        6055 => Some(Piv1Error::Replay),
        6056 => Some(Piv1Error::AlreadyFinalized),
        6057 => Some(Piv1Error::TargetNotAssigned),
        6058 => Some(Piv1Error::CountMismatch),
        6059 => Some(Piv1Error::CumulativeReconciliationMismatch),
        6060 => Some(Piv1Error::EscrowReconciliationMismatch),
        6061 => Some(Piv1Error::ObligationExceeded),
        6062 => Some(Piv1Error::OutstandingLiability),
        6063 => Some(Piv1Error::SettlementReplay),
        6064 => Some(Piv1Error::HighWaterMarkDecrease),
        6065 => Some(Piv1Error::InvalidGuardianBitmap),
        6066 => Some(Piv1Error::InvalidGuardianCount),
        6067 => Some(Piv1Error::InvalidGuardianSet),
        6068 => Some(Piv1Error::InvalidAddress),
        6069 => Some(Piv1Error::InvalidSlippage),
        6070 => Some(Piv1Error::InvalidSplit),
        6071 => Some(Piv1Error::InvalidTimingConfiguration),
        6072 => Some(Piv1Error::ArithmeticOverflow),
        6073 => Some(Piv1Error::RecoveryRequired),
        _ => None,
    }
}

/// Returns the stable wire number of a state error.
pub fn piv1_error_code(error: Piv1Error) -> (r: u32)
    ensures
        r == spec_error_code(error),
{
    match error {
        Piv1Error::InvalidAccountOwner => 6000,
        Piv1Error::AccountNotWritable => 6001,
        Piv1Error::MissingGuardianSignature => 6002,
        Piv1Error::ZeroKifClaim => 6003,
        Piv1Error::StaleKifClaim => 6004,
        Piv1Error::KifClaimExceeded => 6005,
        Piv1Error::KifClaimBackingDeficit => 6006,
        Piv1Error::KifClaimStateChanged => 6007,
        Piv1Error::KifClaimObservationMismatch => 6008,
        Piv1Error::InvalidClockAccount => 6009,
        Piv1Error::ExecutableAccount => 6010,
        Piv1Error::InvalidAccountSize => 6011,
        Piv1Error::InvalidAccountDiscriminator => 6012,
        Piv1Error::InvalidAccountData => 6013,
        Piv1Error::StateEnvelopeEncodingFailed => 6014,
        Piv1Error::StateEnvelopeChanged => 6015,
        Piv1Error::InvalidAccountPda => 6016,
        Piv1Error::AccountAlias => 6017,
        Piv1Error::InvalidProgramIdentity => 6018,
        Piv1Error::AccountBorrowFailed => 6019,
        Piv1Error::AccountRentDeficit => 6020,
        Piv1Error::InvalidRent => 6021,
        Piv1Error::InvalidTokenCustody => 6022,
        Piv1Error::UnsupportedTokenNativeExcess => 6023,
        Piv1Error::InvalidVersion => 6024,
        Piv1Error::InvalidInitialization => 6025,
        Piv1Error::InvalidBootstrapState => 6026,
        Piv1Error::ZeroPrincipalDeposit => 6027,
        Piv1Error::PrincipalDepositExceedsQueue => 6028,
        Piv1Error::UnsupportedPrincipalDepositFee => 6029,
        Piv1Error::InvalidPrincipalDepositPool => 6030,
        Piv1Error::PrincipalDepositObservationMismatch => 6031,
        Piv1Error::PrincipalDepositMinimumNotMet => 6032,
        Piv1Error::PrincipalDepositHistoricalValueLoss => 6033,
        Piv1Error::InvalidLifecycle => 6034,
        Piv1Error::PausedOperation => 6035,
        Piv1Error::InvalidTimestamp => 6036,
        Piv1Error::TimestampRegression => 6037,
        Piv1Error::PreparationIntervalNotElapsed => 6038,
        Piv1Error::InsufficientAttemptCooldownActive => 6039,
        Piv1Error::InvalidInsufficientAttempt => 6040,
        Piv1Error::SequenceMismatch => 6041,
        Piv1Error::LegIndexMismatch => 6042,
        Piv1Error::ZeroTarget => 6043,
        Piv1Error::ZeroInput => 6044,
        Piv1Error::ZeroContribution => 6045,
        Piv1Error::InvalidCustodyObservation => 6046,
        Piv1Error::CustodyBalanceDecreased => 6047,
        Piv1Error::ContributionObservationMismatch => 6048,
        Piv1Error::PendingCustodyDeficit => 6049,
        Piv1Error::EconomicCustodyDeficit => 6050,
        Piv1Error::TargetExceeded => 6051,
        Piv1Error::NonMaximumSafeLegFill => 6052,
        Piv1Error::TechnicalFloorNotMet => 6053,
        Piv1Error::UsefulLegBoundExceeded => 6054,
        Piv1Error::Replay => 6055,
        Piv1Error::AlreadyFinalized => 6056,
        Piv1Error::TargetNotAssigned => 6057,
        Piv1Error::CountMismatch => 6058,
        Piv1Error::CumulativeReconciliationMismatch => 6059,
        Piv1Error::EscrowReconciliationMismatch => 6060,
        Piv1Error::ObligationExceeded => 6061,
        Piv1Error::OutstandingLiability => 6062,
        Piv1Error::SettlementReplay => 6063,
        Piv1Error::HighWaterMarkDecrease => 6064,
        Piv1Error::InvalidGuardianBitmap => 6065,
        Piv1Error::InvalidGuardianCount => 6066,
        Piv1Error::InvalidGuardianSet => 6067,
        Piv1Error::InvalidAddress => 6068,
        Piv1Error::InvalidSlippage => 6069,
        Piv1Error::InvalidSplit => 6070,
        Piv1Error::InvalidTimingConfiguration => 6071,
        Piv1Error::ArithmeticOverflow => 6072,
        Piv1Error::RecoveryRequired => 6073,
    }
}

/// Every state error has its own wire number in `6000..=6073`, distinct from
/// the host-unavailability code, and the number identifies the error.
pub proof fn law_error_codes_are_distinct(a: Piv1Error, b: Piv1Error)
    ensures
        6000 <= spec_error_code(a) <= 6073,
        spec_error_code(a) != HOST_RUNTIME_UNAVAILABLE_CODE,
        error_of_code(spec_error_code(a)) == Some(a),
        spec_error_code(a) == spec_error_code(b) ==> a == b,
{
    assert(error_of_code(spec_error_code(a)) == Some(a));
    assert(error_of_code(spec_error_code(b)) == Some(b));
}

/// The program error an execution failure becomes at the instruction boundary.
#[derive(Clone, Copy, Debug, PartialEq, Eq, Structural)]
pub enum ExecutionProgramError {
    /// `ProgramError::Custom` with this number.
    Custom(u32),
    /// The System invocation's own program error, preserved by its code.
    Invocation(u64),
}

/// Preserves a System invocation error exactly; only library state errors
/// and host unavailability receive custom numbers.
pub fn execution_program_error(error: KifClaimExecutionError) -> (r: ExecutionProgramError)
    ensures
        r == match error {
            KifClaimExecutionError::State(e) => ExecutionProgramError::Custom(spec_error_code(e)),
            KifClaimExecutionError::Invocation(code) => ExecutionProgramError::Invocation(code),
            KifClaimExecutionError::HostRuntimeUnavailable => ExecutionProgramError::Custom(HOST_RUNTIME_UNAVAILABLE_CODE),
        },
{
    match error {
        KifClaimExecutionError::State(e) => ExecutionProgramError::Custom(piv1_error_code(e)),
        KifClaimExecutionError::Invocation(code) => ExecutionProgramError::Invocation(code),
        KifClaimExecutionError::HostRuntimeUnavailable => ExecutionProgramError::Custom(HOST_RUNTIME_UNAVAILABLE_CODE),
    }
}

} // verus!
