//! Exact pending-recognition instruction layout: the discriminator alone.

use crate::instructions::InstructionDataError;
use vstd::prelude::*;

verus! {

/// Instruction size in bytes.
pub const RECONCILE_PENDING_INSTRUCTION_SIZE: usize = 8;

/// The eight discriminator bytes of pending recognition.
pub open spec fn reconcile_pending_discriminator() -> Seq<u8> {
    seq![225u8, 128u8, 29u8, 102u8, 157u8, 24u8, 172u8, 206u8]
}

/// Returns the complete instruction data: the discriminator.
pub fn encode_reconcile_pending() -> (r: [u8; 8])
    ensures
        r@ == reconcile_pending_discriminator(),
{
    let r: [u8; 8] = [225, 128, 29, 102, 157, 24, 172, 206];
    assert(r@ =~= reconcile_pending_discriminator());
    r
}

/// Accepts exactly the discriminator and nothing else.
pub fn decode_reconcile_pending(data: &[u8]) -> (r: Result<(), InstructionDataError>)
    ensures
        r is Ok <==> data@ == reconcile_pending_discriminator(),
        r is Err ==> r == Err::<(), InstructionDataError>(InstructionDataError::InvalidInstructionData),
{
    let expected = encode_reconcile_pending();
    if data.len() != 8 {
        assert(data@.len() != reconcile_pending_discriminator().len());
        return Err(InstructionDataError::InvalidInstructionData);
    }
    let mut i: usize = 0;
    while i < 8
        invariant
            data@.len() == 8,
            expected@ == reconcile_pending_discriminator(),
            i <= 8,
            forall|j: int| 0 <= j < i ==> data@[j] == expected@[j],
        decreases 8 - i,
    {
        if data[i] != expected[i] {
            return Err(InstructionDataError::InvalidInstructionData);
        }
        i = i + 1;
    }
    assert(data@ =~= reconcile_pending_discriminator());
    Ok(())
}

} // verus!
