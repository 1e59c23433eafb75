//! Deterministic state-model errors.

use crate::math::MathError;
use vstd::prelude::*;

verus! {

/// Failures returned by bounded layout validation and pure state transitions.
#[derive(Clone, Copy, Debug, PartialEq, Eq, Structural)]
pub enum Piv1Error {
    /// A supplied account does not have the required program owner.
    InvalidAccountOwner,
    /// A required account lacks writable privilege.
    AccountNotWritable,
    /// The entitled guardian did not authorize the isolated claim.
    MissingGuardianSignature,
    /// An already-earned KIF claim must have positive input.
    ZeroKifClaim,
    /// The expected cumulative-claimed counter no longer matches the ledger.
    StaleKifClaim,
    /// A KIF claim exceeds the selected earned or global liability.
    KifClaimExceeded,
    /// KIF custody cannot cover rent, every recorded liability and collective carry.
    KifClaimBackingDeficit,
    /// State changed after claim effects were prepared.
    KifClaimStateChanged,
    /// Exact isolated KIF source/destination/floor observations do not match.
    KifClaimObservationMismatch,
    /// The Clock input does not use the canonical sysvar account key.
    InvalidClockAccount,
    /// A supplied custody or state account is executable.
    ExecutableAccount,
    /// A supplied account has the wrong fixed allocation.
    InvalidAccountSize,
    /// A PIV1 account has the wrong type discriminator.
    InvalidAccountDiscriminator,
    /// Account bytes cannot be decoded canonically.
    InvalidAccountData,
    /// Checked fixed-envelope allocation or serialization failed.
    StateEnvelopeEncodingFailed,
    /// Complete account bytes differ from the prepared canonical prior state.
    StateEnvelopeChanged,
    /// A fixed address or stored bump is not its canonical PIV1 PDA.
    InvalidAccountPda,
    /// Separate fixed account roles alias one another.
    AccountAlias,
    /// A program binding differs from its canonical runtime identity.
    InvalidProgramIdentity,
    /// A requested account borrow conflicts with an existing borrow.
    AccountBorrowFailed,
    /// An account does not cover its runtime-derived rent-exempt minimum.
    AccountRentDeficit,
    /// Rent parameters are invalid or cannot yield a checked minimum.
    InvalidRent,
    /// Legacy token state does not satisfy the fixed custody restrictions.
    InvalidTokenCustody,
    /// Token-account native excess has no supported economic normalization path.
    UnsupportedTokenNativeExcess,
    /// A serialized layout uses an unsupported schema version.
    InvalidVersion,
    /// A required state object is not explicitly initialized or is malformed.
    InvalidInitialization,
    /// Initial contribution integration requires no prior economic history.
    InvalidBootstrapState,
    /// A protected principal SOL conversion has zero native input.
    ZeroPrincipalDeposit,
    /// A conversion attempts to spend more than recognized historical SOL.
    PrincipalDepositExceedsQueue,
    /// Principal conversion cannot allocate an actual deposit fee.
    UnsupportedPrincipalDepositFee,
    /// Pool facts are stale, malformed, unbound or have incorrect deposit deltas.
    InvalidPrincipalDepositPool,
    /// Protected deposit quote, receipt or custody differs from checked output.
    PrincipalDepositObservationMismatch,
    /// Principal conversion produces no tokens or cannot meet its protected minimum.
    PrincipalDepositMinimumNotMet,
    /// A conversion would consume even one lamport of historical book value.
    PrincipalDepositHistoricalValueLoss,
    /// The requested transition is not legal from the stored lifecycle phase.
    InvalidLifecycle,
    /// The confirmed pause policy blocks the requested operation.
    PausedOperation,
    /// A supplied signed timestamp or configured duration is invalid.
    InvalidTimestamp,
    /// A timestamp moved backwards relative to already recorded state.
    TimestampRegression,
    /// The confirmed ten-day preparation interval has not elapsed.
    PreparationIntervalNotElapsed,
    /// The 24-hour retry cooldown for valid insufficient attempts is active.
    InsufficientAttemptCooldownActive,
    /// Supplied facts do not prove a valid technically insufficient attempt.
    InvalidInsufficientAttempt,
    /// A round sequence does not match the active or next monotonic sequence.
    SequenceMismatch,
    /// A withdrawal-leg index is not the exact next or recorded index.
    LegIndexMismatch,
    /// A required distribution or withdrawal target is zero.
    ZeroTarget,
    /// A withdrawal leg has zero input.
    ZeroInput,
    /// An explicit SOL or JitoSOL contribution amount is zero.
    ZeroContribution,
    /// A custody observation cannot represent the required economic balance.
    InvalidCustodyObservation,
    /// An explicit before/after custody observation decreases.
    CustodyBalanceDecreased,
    /// An observed explicit custody increase differs from its expected amount.
    ContributionObservationMismatch,
    /// Accounted pending value exceeds the observed physical economic balance.
    PendingCustodyDeficit,
    /// An economic vault is below its own derived custody obligation.
    EconomicCustodyDeficit,
    /// Assigned withdrawal input would exceed the fixed round target.
    TargetExceeded,
    /// A supplied leg input is not the required maximum-safe fill.
    NonMaximumSafeLegFill,
    /// A leg is below the stored or current validated technical floor.
    TechnicalFloorNotMet,
    /// The mathematical maximum useful-leg count would be exceeded.
    UsefulLegBoundExceeded,
    /// A round or leg action has already been recorded.
    Replay,
    /// A recorded withdrawal leg has already been finalized.
    AlreadyFinalized,
    /// Exact withdrawal-target assignment has not completed.
    TargetNotAssigned,
    /// Successful/finalized leg counters do not reconcile.
    CountMismatch,
    /// Stored or supplied cumulative values do not reconcile exactly.
    CumulativeReconciliationMismatch,
    /// The supplied fixed escrow value does not match cumulative accounting.
    EscrowReconciliationMismatch,
    /// An actual beneficiary allocation exceeds its immutable gross obligation.
    ObligationExceeded,
    /// A round still has an unpaid active-round liability.
    OutstandingLiability,
    /// Atomic beneficiary settlement has already been recorded.
    SettlementReplay,
    /// A proposed normal update would lower protected principal.
    HighWaterMarkDecrease,
    /// A guardian bitmap has bits outside the fixed six slots or a wrong count.
    InvalidGuardianBitmap,
    /// A guardian count is outside the confirmed range.
    InvalidGuardianCount,
    /// Guardian keys, slots, revisions, or reward bindings are invalid.
    InvalidGuardianSet,
    /// A required initialized address is the default key or violates separation.
    InvalidAddress,
    /// Configured slippage exceeds the immutable one-basis-point cap.
    InvalidSlippage,
    /// Stored fixed split bindings differ from the confirmed economics.
    InvalidSplit,
    /// A stored timing binding differs from the confirmed fixed policy.
    InvalidTimingConfiguration,
    /// Checked integer arithmetic or narrowing failed.
    ArithmeticOverflow,
    /// Normal progression is blocked pending governed recovery.
    RecoveryRequired,
}

/// The human-readable description of each failure.
pub open spec fn spec_message(e: Piv1Error) -> Seq<char> {
    match e {
        Piv1Error::InvalidAccountOwner => "invalid account program owner"@,
        Piv1Error::AccountNotWritable => "required account is not writable"@,
        Piv1Error::MissingGuardianSignature => "missing entitled guardian signature"@,
        Piv1Error::ZeroKifClaim => "zero KIF claim"@,
        Piv1Error::StaleKifClaim => "stale KIF cumulative-claimed counter"@,
        Piv1Error::KifClaimExceeded => "KIF claim exceeds earned liability"@,
        Piv1Error::KifClaimBackingDeficit => "KIF custody does not cover complete backing"@,
        Piv1Error::KifClaimStateChanged => "state changed after KIF claim preparation"@,
        Piv1Error::KifClaimObservationMismatch => "KIF claim custody observations mismatch"@,
        Piv1Error::InvalidClockAccount => "invalid canonical Clock sysvar account"@,
        Piv1Error::ExecutableAccount => "custody or state account is executable"@,
        Piv1Error::InvalidAccountSize => "invalid fixed account allocation"@,
        Piv1Error::InvalidAccountDiscriminator => "invalid account discriminator"@,
        Piv1Error::InvalidAccountData => "invalid or noncanonical account data"@,
        Piv1Error::StateEnvelopeEncodingFailed => "state envelope encoding failed"@,
        Piv1Error::StateEnvelopeChanged => "state envelope changed after preparation"@,
        Piv1Error::InvalidAccountPda => "invalid fixed account PDA or bump"@,
        Piv1Error::AccountAlias => "fixed account roles alias"@,
        Piv1Error::InvalidProgramIdentity => "invalid canonical program identity"@,
        Piv1Error::AccountBorrowFailed => "account borrow failed"@,
        Piv1Error::AccountRentDeficit => "account rent-exempt minimum not covered"@,
        Piv1Error::InvalidRent => "invalid runtime rent parameters"@,
        Piv1Error::InvalidTokenCustody => "invalid legacy token custody state"@,
        Piv1Error::UnsupportedTokenNativeExcess => "token native excess normalization unsupported"@,
        Piv1Error::InvalidVersion => "invalid state-layout version"@,
        Piv1Error::InvalidInitialization => "invalid or missing state initialization"@,
        Piv1Error::InvalidBootstrapState => "initial bootstrap requires zero economic history"@,
        Piv1Error::ZeroPrincipalDeposit => "zero principal SOL deposit"@,
        Piv1Error::PrincipalDepositExceedsQueue => "deposit exceeds recognized historical SOL"@,
        Piv1Error::UnsupportedPrincipalDepositFee => "principal deposit fee allocation unsupported"@,
        Piv1Error::InvalidPrincipalDepositPool => "invalid principal deposit pool observations"@,
        Piv1Error::PrincipalDepositObservationMismatch => "principal deposit observations mismatch"@,
        Piv1Error::PrincipalDepositMinimumNotMet => "principal deposit minimum output not met"@,
        Piv1Error::PrincipalDepositHistoricalValueLoss => "principal deposit reduces historical value"@,
        Piv1Error::InvalidLifecycle => "invalid lifecycle transition"@,
        Piv1Error::PausedOperation => "operation blocked while paused"@,
        Piv1Error::InvalidTimestamp => "invalid timestamp"@,
        Piv1Error::TimestampRegression => "timestamp regression"@,
        Piv1Error::PreparationIntervalNotElapsed => "minimum preparation interval not elapsed"@,
        Piv1Error::InsufficientAttemptCooldownActive => "valid-insufficient-attempt cooldown is active"@,
        Piv1Error::InvalidInsufficientAttempt => "attempt is not a valid technically insufficient result"@,
        Piv1Error::SequenceMismatch => "distribution sequence mismatch"@,
        Piv1Error::LegIndexMismatch => "withdrawal-leg index mismatch"@,
        Piv1Error::ZeroTarget => "zero distribution or withdrawal target"@,
        Piv1Error::ZeroInput => "zero withdrawal-leg input"@,
        Piv1Error::ZeroContribution => "zero contribution"@,
        Piv1Error::InvalidCustodyObservation => "invalid custody observation"@,
        Piv1Error::CustodyBalanceDecreased => "custody balance decreased"@,
        Piv1Error::ContributionObservationMismatch => "observed contribution does not match the expected amount"@,
        Piv1Error::PendingCustodyDeficit => "observed pending custody is below its accounted balance"@,
        Piv1Error::EconomicCustodyDeficit => "economic custody is below its obligation"@,
        Piv1Error::TargetExceeded => "fixed withdrawal target exceeded"@,
        Piv1Error::NonMaximumSafeLegFill => "leg is not the maximum-safe fill"@,
        Piv1Error::TechnicalFloorNotMet => "technical withdrawal floor not met"@,
        Piv1Error::UsefulLegBoundExceeded => "maximum useful-leg bound exceeded"@,
        Piv1Error::Replay => "state transition replay"@,
        Piv1Error::AlreadyFinalized => "withdrawal leg already finalized"@,
        Piv1Error::TargetNotAssigned => "withdrawal target not assigned"@,
        Piv1Error::CountMismatch => "withdrawal-leg count mismatch"@,
        Piv1Error::CumulativeReconciliationMismatch => "cumulative accounting mismatch"@,
        Piv1Error::EscrowReconciliationMismatch => "distribution escrow mismatch"@,
        Piv1Error::ObligationExceeded => "fixed beneficiary obligation exceeded"@,
        Piv1Error::OutstandingLiability => "outstanding active-round liability"@,
        Piv1Error::SettlementReplay => "distribution settlement replay"@,
        Piv1Error::HighWaterMarkDecrease => "protected high-water mark decrease"@,
        Piv1Error::InvalidGuardianBitmap => "invalid guardian bitmap or count"@,
        Piv1Error::InvalidGuardianCount => "invalid guardian count"@,
        Piv1Error::InvalidGuardianSet => "invalid guardian set or reward binding"@,
        Piv1Error::InvalidAddress => "invalid initialized address"@,
        Piv1Error::InvalidSlippage => "invalid configured slippage"@,
        Piv1Error::InvalidSplit => "invalid fixed split binding"@,
        Piv1Error::InvalidTimingConfiguration => "invalid timing configuration"@,
        Piv1Error::ArithmeticOverflow => "checked arithmetic failure"@,
        Piv1Error::RecoveryRequired => "governed recovery required"@,
    }
}

impl Piv1Error {
    /// Human-readable description of the failure.
    pub fn message(&self) -> (s: String)
        ensures
            s@ == spec_message(*self),
    {
        match self {
            Piv1Error::InvalidAccountOwner => {
                "invalid account program owner".to_owned()
            },
            Piv1Error::AccountNotWritable => {
                "required account is not writable".to_owned()
            },
            Piv1Error::MissingGuardianSignature => {
                "missing entitled guardian signature".to_owned()
            },
            Piv1Error::ZeroKifClaim => {
                "zero KIF claim".to_owned()
            },
            Piv1Error::StaleKifClaim => {
                "stale KIF cumulative-claimed counter".to_owned()
            },
            Piv1Error::KifClaimExceeded => {
                "KIF claim exceeds earned liability".to_owned()
            },
            Piv1Error::KifClaimBackingDeficit => {
                "KIF custody does not cover complete backing".to_owned()
            },
            Piv1Error::KifClaimStateChanged => {
                "state changed after KIF claim preparation".to_owned()
            },
            Piv1Error::KifClaimObservationMismatch => {
                "KIF claim custody observations mismatch".to_owned()
            },
            Piv1Error::InvalidClockAccount => {
                "invalid canonical Clock sysvar account".to_owned()
            },
            Piv1Error::ExecutableAccount => {
                "custody or state account is executable".to_owned()
            },
            Piv1Error::InvalidAccountSize => {
                "invalid fixed account allocation".to_owned()
            },
            Piv1Error::InvalidAccountDiscriminator => {
                "invalid account discriminator".to_owned()
            },
            Piv1Error::InvalidAccountData => {
                "invalid or noncanonical account data".to_owned()
            },
            Piv1Error::StateEnvelopeEncodingFailed => {
                "state envelope encoding failed".to_owned()
            },
            Piv1Error::StateEnvelopeChanged => {
                "state envelope changed after preparation".to_owned()
            },
            Piv1Error::InvalidAccountPda => {
                "invalid fixed account PDA or bump".to_owned()
            },
            Piv1Error::AccountAlias => {
                "fixed account roles alias".to_owned()
            },
            Piv1Error::InvalidProgramIdentity => {
                "invalid canonical program identity".to_owned()
            },
            Piv1Error::AccountBorrowFailed => {
                "account borrow failed".to_owned()
            },
            Piv1Error::AccountRentDeficit => {
                "account rent-exempt minimum not covered".to_owned()
            },
            Piv1Error::InvalidRent => {
                "invalid runtime rent parameters".to_owned()
            },
            Piv1Error::InvalidTokenCustody => {
                "invalid legacy token custody state".to_owned()
            },
            Piv1Error::UnsupportedTokenNativeExcess => {
                "token native excess normalization unsupported".to_owned()
            },
            Piv1Error::InvalidVersion => {
                "invalid state-layout version".to_owned()
            },
            Piv1Error::InvalidInitialization => {
                "invalid or missing state initialization".to_owned()
            },
            Piv1Error::InvalidBootstrapState => {
                "initial bootstrap requires zero economic history".to_owned()
            },
            Piv1Error::ZeroPrincipalDeposit => {
                "zero principal SOL deposit".to_owned()
            },
            Piv1Error::PrincipalDepositExceedsQueue => {
                "deposit exceeds recognized historical SOL".to_owned()
            },
            Piv1Error::UnsupportedPrincipalDepositFee => {
                "principal deposit fee allocation unsupported".to_owned()
            },
            Piv1Error::InvalidPrincipalDepositPool => {
                "invalid principal deposit pool observations".to_owned()
            },
            Piv1Error::PrincipalDepositObservationMismatch => {
                "principal deposit observations mismatch".to_owned()
            },
            Piv1Error::PrincipalDepositMinimumNotMet => {
                "principal deposit minimum output not met".to_owned()
            },
            Piv1Error::PrincipalDepositHistoricalValueLoss => {
                "principal deposit reduces historical value".to_owned()
            },
            Piv1Error::InvalidLifecycle => {
                "invalid lifecycle transition".to_owned()
            },
            Piv1Error::PausedOperation => {
                "operation blocked while paused".to_owned()
            },
            Piv1Error::InvalidTimestamp => {
                "invalid timestamp".to_owned()
            },
            Piv1Error::TimestampRegression => {
                "timestamp regression".to_owned()
            },
            Piv1Error::PreparationIntervalNotElapsed => {
                "minimum preparation interval not elapsed".to_owned()
            },
            Piv1Error::InsufficientAttemptCooldownActive => {
                "valid-insufficient-attempt cooldown is active".to_owned()
            },
            Piv1Error::InvalidInsufficientAttempt => {
                "attempt is not a valid technically insufficient result".to_owned()
            },
            Piv1Error::SequenceMismatch => {
                "distribution sequence mismatch".to_owned()
            },
            Piv1Error::LegIndexMismatch => {
                "withdrawal-leg index mismatch".to_owned()
            },
            Piv1Error::ZeroTarget => {
                "zero distribution or withdrawal target".to_owned()
            },
            Piv1Error::ZeroInput => {
                "zero withdrawal-leg input".to_owned()
            },
            Piv1Error::ZeroContribution => {
                "zero contribution".to_owned()
            },
            Piv1Error::InvalidCustodyObservation => {
                "invalid custody observation".to_owned()
            },
            Piv1Error::CustodyBalanceDecreased => {
                "custody balance decreased".to_owned()
            },
            Piv1Error::ContributionObservationMismatch => {
                "observed contribution does not match the expected amount".to_owned()
            },
            Piv1Error::PendingCustodyDeficit => {
                "observed pending custody is below its accounted balance".to_owned()
            },
            Piv1Error::EconomicCustodyDeficit => {
                "economic custody is below its obligation".to_owned()
            },
            Piv1Error::TargetExceeded => {
                "fixed withdrawal target exceeded".to_owned()
            },
            Piv1Error::NonMaximumSafeLegFill => {
                "leg is not the maximum-safe fill".to_owned()
            },
            Piv1Error::TechnicalFloorNotMet => {
                "technical withdrawal floor not met".to_owned()
            },
            Piv1Error::UsefulLegBoundExceeded => {
                "maximum useful-leg bound exceeded".to_owned()
            },
            Piv1Error::Replay => {
                "state transition replay".to_owned()
            },
            Piv1Error::AlreadyFinalized => {
                "withdrawal leg already finalized".to_owned()
            },
            Piv1Error::TargetNotAssigned => {
                "withdrawal target not assigned".to_owned()
            },
            Piv1Error::CountMismatch => {
                "withdrawal-leg count mismatch".to_owned()
            },
            Piv1Error::CumulativeReconciliationMismatch => {
                "cumulative accounting mismatch".to_owned()
            },
            Piv1Error::EscrowReconciliationMismatch => {
                "distribution escrow mismatch".to_owned()
            },
            Piv1Error::ObligationExceeded => {
                "fixed beneficiary obligation exceeded".to_owned()
            },
            Piv1Error::OutstandingLiability => {
                "outstanding active-round liability".to_owned()
            },
            Piv1Error::SettlementReplay => {
                "distribution settlement replay".to_owned()
            },
            Piv1Error::HighWaterMarkDecrease => {
                "protected high-water mark decrease".to_owned()
            },
            Piv1Error::InvalidGuardianBitmap => {
                "invalid guardian bitmap or count".to_owned()
            },
            Piv1Error::InvalidGuardianCount => {
                "invalid guardian count".to_owned()
            },
            Piv1Error::InvalidGuardianSet => {
                "invalid guardian set or reward binding".to_owned()
            },
            Piv1Error::InvalidAddress => {
                "invalid initialized address".to_owned()
            },
            Piv1Error::InvalidSlippage => {
                "invalid configured slippage".to_owned()
            },
            Piv1Error::InvalidSplit => {
                "invalid fixed split binding".to_owned()
            },
            Piv1Error::InvalidTimingConfiguration => {
                "invalid timing configuration".to_owned()
            },
            Piv1Error::ArithmeticOverflow => {
                "checked arithmetic failure".to_owned()
            },
            Piv1Error::RecoveryRequired => {
                "governed recovery required".to_owned()
            },
        }
    }
}

/// Maps a checked-arithmetic failure onto the state-model error space.
pub open spec fn spec_from_math(error: MathError) -> Piv1Error {
    match error {
        MathError::InvalidActiveGuardianCount { .. } => Piv1Error::InvalidGuardianCount,
        _ => Piv1Error::ArithmeticOverflow,
    }
}

/// Maps a checked-arithmetic failure onto the state-model error space: an
/// invalid guardian count keeps its meaning, every other failure is overflow.
pub fn from_math(error: MathError) -> (r: Piv1Error)
    ensures
        r == spec_from_math(error),
{
    match error {
        MathError::InvalidActiveGuardianCount { .. } => Piv1Error::InvalidGuardianCount,
        _ => Piv1Error::ArithmeticOverflow,
    }
}

/// Lifts a checked-arithmetic result into the state-model error space.
pub open spec fn lift<T>(r: Result<T, MathError>) -> Result<T, Piv1Error> {
    match r {
        Ok(v) => Ok(v),
        Err(e) => Err(spec_from_math(e)),
    }
}

/// Result alias used by the pure state model.
pub type Piv1Result<T> = Result<T, Piv1Error>;

} // verus!
