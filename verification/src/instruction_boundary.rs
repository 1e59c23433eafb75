//! Strict five-account KIF claim dispatch: no other instruction, remaining
//! account or caller-selected backend is accepted. The decisions before and
//! after execution are made here; the runtime performs the execution itself.

use crate::address::Pubkey;
use crate::events::KifClaimed;
use crate::instruction_errors::HOST_RUNTIME_UNAVAILABLE_CODE;
use crate::instructions::claim_kif::{decode_claim_kif, spec_decode_claim_kif};
use crate::state::kif_claim::{KifClaimRequest, KifClaimTransfer};
use vstd::prelude::*;

verus! {

/// Why an instruction is refused before execution, as the program error it becomes.
#[derive(Clone, Copy, Debug, PartialEq, Eq, Structural)]
pub enum DispatchRefusal {
    /// The data is not an exact claim instruction.
    InvalidInstructionData,
    /// Fewer than the five claim accounts were supplied.
    NotEnoughAccountKeys,
    /// More than the five claim accounts were supplied.
    InvalidArgument,
    /// `ProgramError::Custom` with this number.
    Custom(u32),
}

/// Outcome of the checks before execution: the decoded claim, then the exact
/// account count, then the availability of the runtime.
pub open spec fn spec_dispatch_claim(data: Seq<u8>, account_count: usize, execution_available: bool) -> Result<
    KifClaimRequest,
    DispatchRefusal,
> {
    match spec_decode_claim_kif(data) {
        Err(_) => Err(DispatchRefusal::InvalidInstructionData),
        Ok(request) => if account_count < 5 {
            Err(DispatchRefusal::NotEnoughAccountKeys)
        } else if account_count > 5 {
            Err(DispatchRefusal::InvalidArgument)
        } else if !execution_available {
            Err(DispatchRefusal::Custom(HOST_RUNTIME_UNAVAILABLE_CODE))
        } else {
            Ok(request)
        },
    }
}

/// Decodes the claim and checks the account count and runtime availability
/// before any account is read.
pub fn dispatch_claim(data: &[u8], account_count: usize, execution_available: bool) -> (r: Result<
    KifClaimRequest,
    DispatchRefusal,
>)
    ensures
        r == spec_dispatch_claim(data@, account_count, execution_available),
{
    let request = match decode_claim_kif(data) {
        Err(_) => return Err(DispatchRefusal::InvalidInstructionData),
        Ok(request) => request,
    };
    if account_count < 5 {
        return Err(DispatchRefusal::NotEnoughAccountKeys);
    }
    if account_count > 5 {
        return Err(DispatchRefusal::InvalidArgument);
    }
    if !execution_available {
        return Err(DispatchRefusal::Custom(HOST_RUNTIME_UNAVAILABLE_CODE));
    }
    Ok(request)
}

/// The factual event of an executed claim: the reward account, the paid
/// guardian and the amount.
pub fn claim_event(guardian_reward: Pubkey, transfer: KifClaimTransfer) -> (r: KifClaimed)
    ensures
        r == (KifClaimed {
            guardian_reward,
            guardian: transfer.destination,
            amount_lamports: transfer.amount_lamports,
        }),
{
    KifClaimed { guardian_reward, guardian: transfer.destination, amount_lamports: transfer.amount_lamports }
}

} // verus!
