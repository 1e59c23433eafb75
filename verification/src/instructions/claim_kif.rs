//! Exact claim instruction layout: an eight-byte discriminator, the amount,
//! then the replay counter, both little-endian.

use crate::address::{pack_at, word_byte};
use crate::codec::{holds_u64, lemma_read_back_u64, read_u64_le, write_u64_le};
use crate::instructions::InstructionDataError;
use crate::state::kif_claim::KifClaimRequest;
use vstd::prelude::*;

verus! {

/// Instruction size in bytes.
pub const CLAIM_KIF_INSTRUCTION_SIZE: usize = 24;

/// The eight discriminator bytes of the claim instruction.
pub open spec fn claim_kif_discriminator() -> Seq<u8> {
    seq![253u8, 151u8, 172u8, 11u8, 202u8, 77u8, 118u8, 170u8]
}

/// The complete instruction bytes of `request`.
pub open spec fn claim_kif_bytes(request: KifClaimRequest) -> Seq<u8> {
    Seq::new(
        24,
        |i: int|
            if i < 8 {
                claim_kif_discriminator()[i]
            } else if i < 16 {
                word_byte(request.amount_lamports, (i - 8) as u64) as u8
            } else {
                word_byte(request.expected_cumulative_claimed, (i - 16) as u64) as u8
            },
    )
}

/// Outcome of decoding claim instruction data: only the exact length and
/// discriminator are checked here; amounts and counters are execution policy.
pub open spec fn spec_decode_claim_kif(data: Seq<u8>) -> Result<KifClaimRequest, InstructionDataError> {
    if data.len() != 24 || data.subrange(0, 8) != claim_kif_discriminator() {
        Err(InstructionDataError::InvalidInstructionData)
    } else {
        Ok(
            KifClaimRequest {
                amount_lamports: pack_at(data, 8),
                expected_cumulative_claimed: pack_at(data, 16),
            },
        )
    }
}

/// Encodes the fixed discriminator, the amount, then the replay counter.
pub fn encode_claim_kif(request: KifClaimRequest) -> (r: [u8; 24])
    ensures
        r@ == claim_kif_bytes(request),
{
    let mut bytes: [u8; 24] = [0u8; 24];
    bytes[0] = 253;
    bytes[1] = 151;
    bytes[2] = 172;
    bytes[3] = 11;
    bytes[4] = 202;
    bytes[5] = 77;
    bytes[6] = 118;
    bytes[7] = 170;
    let ghost head = bytes@;
    write_u64_le(&mut bytes, 8, request.amount_lamports);
    let ghost mid = bytes@;
    write_u64_le(&mut bytes, 16, request.expected_cumulative_claimed);
    proof {
        assert forall|i: int| 0 <= i < 24 implies #[trigger] bytes@[i] == claim_kif_bytes(request)[i] by {
            if i < 8 {
                assert(mid[i] == head[i]);
            } else if i < 16 {
                assert(bytes@[8 + (i - 8)] == mid[8 + (i - 8)]);
            } else {
                assert(bytes@[16 + (i - 16)] == word_byte(request.expected_cumulative_claimed, (i - 16) as u64) as u8);
            }
        }
        assert(bytes@ =~= claim_kif_bytes(request));
    }
    bytes
}

/// Decodes claim instruction data by shape alone.
pub fn decode_claim_kif(data: &[u8]) -> (r: Result<KifClaimRequest, InstructionDataError>)
    ensures
        r == spec_decode_claim_kif(data@),
{
    if data.len() != CLAIM_KIF_INSTRUCTION_SIZE {
        return Err(InstructionDataError::InvalidInstructionData);
    }
    let expected: [u8; 8] = [253, 151, 172, 11, 202, 77, 118, 170];
    assert(expected@ =~= claim_kif_discriminator());
    let mut i: usize = 0;
    while i < 8
        invariant
            data@.len() == 24,
            expected@ == claim_kif_discriminator(),
            i <= 8,
            forall|j: int| 0 <= j < i ==> data@[j] == expected@[j],
        decreases 8 - i,
    {
        if data[i] != expected[i] {
            assert(data@.subrange(0, 8)[i as int] != claim_kif_discriminator()[i as int]);
            return Err(InstructionDataError::InvalidInstructionData);
        }
        i = i + 1;
    }
    assert(data@.subrange(0, 8) =~= claim_kif_discriminator());
    Ok(
        KifClaimRequest {
            amount_lamports: read_u64_le(data, 8),
            expected_cumulative_claimed: read_u64_le(data, 16),
        },
    )
}

/// Decoding the encoding of a request gives back the request, and every
/// accepted input is the encoding of what it decodes to.
pub proof fn law_claim_kif_round_trip(request: KifClaimRequest, data: Seq<u8>)
    ensures
        spec_decode_claim_kif(claim_kif_bytes(request)) == Ok::<KifClaimRequest, InstructionDataError>(
            request,
        ),
        spec_decode_claim_kif(data) is Ok ==> claim_kif_bytes(spec_decode_claim_kif(data)->Ok_0)
            == data,
{
    let s = claim_kif_bytes(request);
    assert(s.subrange(0, 8) =~= claim_kif_discriminator());
    assert(holds_u64(s, 8, request.amount_lamports));
    assert(holds_u64(s, 16, request.expected_cumulative_claimed));
    lemma_read_back_u64(s, 8, request.amount_lamports);
    lemma_read_back_u64(s, 16, request.expected_cumulative_claimed);
    if spec_decode_claim_kif(data) is Ok {
        let d = spec_decode_claim_kif(data)->Ok_0;
        let e = claim_kif_bytes(d);
        crate::address::lemma_unpack_word(
            data[8] as u64, data[9] as u64, data[10] as u64, data[11] as u64,
            data[12] as u64, data[13] as u64, data[14] as u64, data[15] as u64,
        );
        crate::address::lemma_unpack_word(
            data[16] as u64, data[17] as u64, data[18] as u64, data[19] as u64,
            data[20] as u64, data[21] as u64, data[22] as u64, data[23] as u64,
        );
        assert forall|i: int| 0 <= i < 24 implies #[trigger] e[i] == data[i] by {
            if i < 8 {
                assert(data.subrange(0, 8)[i] == data[i]);
            }
        }
        assert(e =~= data);
    }
}

} // verus!
