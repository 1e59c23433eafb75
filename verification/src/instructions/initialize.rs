//! Genesis model data: a fixed 313-byte layout of the proposed protocol
//! references, recipients, KIF anchor and guardian slot permutation.

use crate::address::{pack_at, word_byte, Pubkey};
use crate::bitmap::{has_bit, lemma_no_slot_set, lemma_set_slot, slot_bit};
use crate::codec::{
    holds_key, holds_u64, key_at, lemma_read_back_key, lemma_read_back_u64, read_key, read_u64_le,
    write_key, write_u64_le,
};
use vstd::prelude::*;

verus! {

/// Model data format version.
pub const GENESIS_MODEL_VERSION: u8 = 1;
/// Exact model data size in bytes.
pub const GENESIS_MODEL_DATA_SIZE: usize = 313;

/// The ASCII selector `PIV1GM01` that opens model data.
pub open spec fn genesis_model_selector() -> Seq<u8> {
    seq![80u8, 73u8, 86u8, 49u8, 71u8, 77u8, 48u8, 49u8]
}

/// Proposed external references; approval does not authenticate them.
#[derive(Clone, Copy, Debug, PartialEq, Eq, Structural)]
pub struct DeclaredGenesisProtocol {
    pub stake_pool_program: Pubkey,
    pub stake_pool: Pubkey,
    pub validator_list: Pubkey,
    pub reserve_stake: Pubkey,
    pub jitosol_mint: Pubkey,
    pub manager_fee_account: Pubkey,
    pub referrer_token_account: Pubkey,
}

/// Fixed model inputs; guardian slots are an explicit bijection over the
/// sorted governance members.
#[derive(Clone, Copy, Debug, PartialEq, Eq)]
pub struct GenesisModelParameters {
    pub vault_index: u8,
    pub initially_paused: bool,
    pub protocol: DeclaredGenesisProtocol,
    pub htfp_recipient: Pubkey,
    pub team_owner_recipient: Pubkey,
    pub kif_anchor_timestamp: i64,
    pub guardian_slot_permutation: [u8; 6],
}

/// Why model data was refused.
#[derive(Clone, Copy, Debug, PartialEq, Eq, Structural)]
pub enum GenesisModelFormatError {
    InvalidLength,
    InvalidSelector,
    UnsupportedVersion,
    InvalidBoolean,
    InvalidSlotPermutation,
}

/// True when `p` lists each of the six slots exactly once.
pub open spec fn is_slot_permutation(p: Seq<u8>) -> bool {
    &&& p.len() == 6
    &&& forall|i: int| 0 <= i < 6 ==> #[trigger] p[i] < 6
    &&& forall|i: int, j: int| 0 <= i < j < 6 ==> #[trigger] p[i] != #[trigger] p[j]
}

/// Checks that the guardian slot assignment is a permutation of the six slots.
pub fn validate_permutation(permutation: &[u8; 6]) -> (r: Result<(), GenesisModelFormatError>)
    ensures
        r is Ok <==> is_slot_permutation(permutation@),
        r is Err ==> r == Err::<(), GenesisModelFormatError>(
            GenesisModelFormatError::InvalidSlotPermutation,
        ),
{
    let mut seen: u8 = 0;
    proof {
        lemma_no_slot_set();
    }
    let mut i: usize = 0;
    while i < 6
        invariant
            i <= 6,
            permutation@.len() == 6,
            forall|k: int| 0 <= k < i ==> #[trigger] permutation@[k] < 6,
            forall|k: int, j: int| 0 <= k < j < i ==> #[trigger] permutation@[k] != #[trigger] permutation@[j],
            forall|b: u8|
                b < 8 ==> (#[trigger] has_bit(seen, b) <==> exists|k: int| 0 <= k < i && permutation@[k] == b),
        decreases 6 - i,
    {
        let index = permutation[i];
        if index >= 6 {
            return Err(GenesisModelFormatError::InvalidSlotPermutation);
        }
        let bit = slot_bit(index);
        if seen & bit != 0 {
            proof {
                assert(has_bit(seen, index));
                let k = choose|k: int| 0 <= k < i && permutation@[k] == index;
                assert(permutation@[k] == permutation@[i as int]);
            }
            return Err(GenesisModelFormatError::InvalidSlotPermutation);
        }
        proof {
            lemma_set_slot(seen, index);
            assert(!has_bit(seen, index));
            assert forall|b: u8| b < 8 implies (#[trigger] has_bit(seen | bit, b) <==> exists|k: int|
                0 <= k < i + 1 && permutation@[k] == b) by {
                if has_bit(seen | bit, b) {
                    if b == index {
                        assert(permutation@[i as int] == b);
                    } else {
                        assert(has_bit(seen, b));
                    }
                }
                if exists|k: int| 0 <= k < i + 1 && permutation@[k] == b {
                    let k = choose|k: int| 0 <= k < i + 1 && permutation@[k] == b;
                    if k < i {
                        assert(exists|k2: int| 0 <= k2 < i && permutation@[k2] == b);
                    }
                }
            }
            assert forall|k: int| 0 <= k < i implies #[trigger] permutation@[k] != permutation@[i as int] by {
                if permutation@[k] == index {
                    assert(exists|k2: int| 0 <= k2 < i && permutation@[k2] == index);
                }
            }
        }
        seen = seen | bit;
        i = i + 1;
    }
    Ok(())
}

/// The nine addresses of the model in their fixed order.
pub open spec fn model_keys(p: GenesisModelParameters) -> Seq<Pubkey> {
    seq![
        p.protocol.stake_pool_program,
        p.protocol.stake_pool,
        p.protocol.validator_list,
        p.protocol.reserve_stake,
        p.protocol.jitosol_mint,
        p.protocol.manager_fee_account,
        p.protocol.referrer_token_account,
        p.htfp_recipient,
        p.team_owner_recipient,
    ]
}

/// The exact 313-byte encoding of `p`.
pub open spec fn genesis_bytes(p: GenesisModelParameters) -> Seq<u8> {
    Seq::new(
        313,
        |i: int|
            if i < 8 {
                genesis_model_selector()[i]
            } else if i == 8 {
                GENESIS_MODEL_VERSION
            } else if i == 9 {
                p.vault_index
            } else if i == 10 {
                if p.initially_paused {
                    1u8
                } else {
                    0u8
                }
            } else if i < 299 {
                model_keys(p)[(i - 11) / 32].bytes()[(i - 11) % 32]
            } else if i < 307 {
                word_byte(p.kif_anchor_timestamp as u64, (i - 299) as u64) as u8
            } else {
                p.guardian_slot_permutation@[i - 307]
            },
    )
}

/// The first reason `data` is not model data, if any.
pub open spec fn genesis_decode_error(data: Seq<u8>) -> Option<GenesisModelFormatError> {
    if data.len() != 313 {
        Some(GenesisModelFormatError::InvalidLength)
    } else if data.subrange(0, 8) != genesis_model_selector() {
        Some(GenesisModelFormatError::InvalidSelector)
    } else if data[8] != GENESIS_MODEL_VERSION {
        Some(GenesisModelFormatError::UnsupportedVersion)
    } else if data[10] > 1 {
        Some(GenesisModelFormatError::InvalidBoolean)
    } else if !is_slot_permutation(data.subrange(307, 313)) {
        Some(GenesisModelFormatError::InvalidSlotPermutation)
    } else {
        None
    }
}

/// True when accepted model data `data` holds exactly the parameters `p`.
pub open spec fn decodes_to(data: Seq<u8>, p: GenesisModelParameters) -> bool {
    &&& p.vault_index == data[9]
    &&& p.initially_paused == (data[10] == 1)
    &&& forall|k: int| 0 <= k < 9 ==> #[trigger] model_keys(p)[k] == key_at(data, 11 + 32 * k)
    &&& p.kif_anchor_timestamp == pack_at(data, 299) as i64
    &&& p.guardian_slot_permutation@ == data.subrange(307, 313)
}

impl GenesisModelParameters {
    /// Decodes exactly 313 bytes: selector, version, vault index, pause flag,
    /// seven protocol keys, two recipients, anchor and permutation. No
    /// trailing data is accepted.
    #[verifier::spinoff_prover]
    #[verifier::rlimit(40)]
    pub fn decode(bytes: &[u8]) -> (r: Result<GenesisModelParameters, GenesisModelFormatError>)
        ensures
            match r {
                Ok(p) => genesis_decode_error(bytes@) is None && decodes_to(bytes@, p),
                Err(e) => genesis_decode_error(bytes@) == Some(e),
            },
    {
        if bytes.len() != GENESIS_MODEL_DATA_SIZE {
            return Err(GenesisModelFormatError::InvalidLength);
        }
        let selector: [u8; 8] = [80, 73, 86, 49, 71, 77, 48, 49];
        assert(selector@ =~= genesis_model_selector());
        let mut i: usize = 0;
        while i < 8
            invariant
                bytes@.len() == 313,
                selector@ == genesis_model_selector(),
                i <= 8,
                forall|j: int| 0 <= j < i ==> bytes@[j] == selector@[j],
            decreases 8 - i,
        {
            if bytes[i] != selector[i] {
                assert(bytes@.subrange(0, 8)[i as int] != genesis_model_selector()[i as int]);
                return Err(GenesisModelFormatError::InvalidSelector);
            }
            i = i + 1;
        }
        assert(bytes@.subrange(0, 8) =~= genesis_model_selector());
        if bytes[8] != GENESIS_MODEL_VERSION {
            return Err(GenesisModelFormatError::UnsupportedVersion);
        }
        let initially_paused = match bytes[10] {
            0 => false,
            1 => true,
            _ => return Err(GenesisModelFormatError::InvalidBoolean),
        };
        let guardian_slot_permutation: [u8; 6] = [
            bytes[307],
            bytes[308],
            bytes[309],
            bytes[310],
            bytes[311],
            bytes[312],
        ];
        assert(guardian_slot_permutation@ =~= bytes@.subrange(307, 313));
        validate_permutation(&guardian_slot_permutation)?;
        let p = GenesisModelParameters {
            vault_index: bytes[9],
            initially_paused,
            protocol: DeclaredGenesisProtocol {
                stake_pool_program: read_key(bytes, 11),
                stake_pool: read_key(bytes, 43),
                validator_list: read_key(bytes, 75),
                reserve_stake: read_key(bytes, 107),
                jitosol_mint: read_key(bytes, 139),
                manager_fee_account: read_key(bytes, 171),
                referrer_token_account: read_key(bytes, 203),
            },
            htfp_recipient: read_key(bytes, 235),
            team_owner_recipient: read_key(bytes, 267),
            kif_anchor_timestamp: read_u64_le(bytes, 299) as i64,
            guardian_slot_permutation,
        };
        assert forall|k: int| 0 <= k < 9 implies #[trigger] model_keys(p)[k] == key_at(bytes@, 11 + 32 * k) by {
            if k == 0 {
            } else if k == 1 {
            } else if k == 2 {
            } else if k == 3 {
            } else if k == 4 {
            } else if k == 5 {
            } else if k == 6 {
            } else if k == 7 {
            } else {
            }
        }
        Ok(p)
    }

    /// Encodes the parameters after checking the slot permutation.
    pub fn encode(&self) -> (r: Result<[u8; 313], GenesisModelFormatError>)
        ensures
            match r {
                Ok(b) => is_slot_permutation(self.guardian_slot_permutation@) && b@ == genesis_bytes(
                    *self,
                ),
                Err(e) => !is_slot_permutation(self.guardian_slot_permutation@) && e
                    == GenesisModelFormatError::InvalidSlotPermutation,
            },
    {
        validate_permutation(&self.guardian_slot_permutation)?;
        let mut bytes: [u8; 313] = [0u8; 313];
        bytes[0] = 80;
        bytes[1] = 73;
        bytes[2] = 86;
        bytes[3] = 49;
        bytes[4] = 71;
        bytes[5] = 77;
        bytes[6] = 48;
        bytes[7] = 49;
        bytes[8] = GENESIS_MODEL_VERSION;
        bytes[9] = self.vault_index;
        bytes[10] = if self.initially_paused {
            1
        } else {
            0
        };
        let keys: [Pubkey; 9] = [
            self.protocol.stake_pool_program,
            self.protocol.stake_pool,
            self.protocol.validator_list,
            self.protocol.reserve_stake,
            self.protocol.jitosol_mint,
            self.protocol.manager_fee_account,
            self.protocol.referrer_token_account,
            self.htfp_recipient,
            self.team_owner_recipient,
        ];
        assert(keys@ =~= model_keys(*self));
        let ghost target = genesis_bytes(*self);
        assert forall|i: int| 0 <= i < 11 implies #[trigger] bytes@[i] == target[i] by {}
        let mut k: usize = 0;
        while k < 9
            invariant
                k <= 9,
                bytes@.len() == 313,
                keys@ == model_keys(*self),
                target == genesis_bytes(*self),
                forall|i: int| 0 <= i < 11 + 32 * k ==> #[trigger] bytes@[i] == target[i],
            decreases 9 - k,
        {
            let ghost prev = bytes@;
            write_key(&mut bytes, 11 + 32 * k, keys[k]);
            proof {
                assert forall|i: int| 0 <= i < 11 + 32 * (k + 1) implies #[trigger] bytes@[i]
                    == target[i] by {
                    if i >= 11 + 32 * k {
                        let m = i - (11 + 32 * k);
                        assert(bytes@[(11 + 32 * k) + m] == keys@[k as int].bytes()[m]);
                        assert((i - 11) / 32 == k as int);
                        assert((i - 11) % 32 == m);
                    } else {
                        assert(bytes@[i] == prev[i]);
                    }
                }
            }
            k = k + 1;
        }
        let ghost before_anchor = bytes@;
        write_u64_le(&mut bytes, 299, self.kif_anchor_timestamp as u64);
        let mut j: usize = 0;
        while j < 6
            invariant
                j <= 6,
                bytes@.len() == 313,
                target == genesis_bytes(*self),
                forall|i: int| 0 <= i < 299 ==> #[trigger] bytes@[i] == target[i],
                holds_u64(bytes@, 299, self.kif_anchor_timestamp as u64),
                forall|i: int| 307 <= i < 307 + j ==> #[trigger] bytes@[i] == target[i],
            decreases 6 - j,
        {
            bytes[307 + j] = self.guardian_slot_permutation[j];
            j = j + 1;
        }
        proof {
            assert forall|i: int| 0 <= i < 313 implies #[trigger] bytes@[i] == target[i] by {
                if 299 <= i < 307 {
                    assert(bytes@[299 + (i - 299)] == word_byte(self.kif_anchor_timestamp as u64, (i - 299) as u64) as u8);
                }
            }
            assert(bytes@ =~= target);
        }
        Ok(bytes)
    }
}

/// Decoding the encoding of parameters with a valid slot permutation gives
/// back exactly those parameters, and accepted model data is the encoding
/// of what it decodes to.
pub proof fn law_genesis_model_round_trip(p: GenesisModelParameters, data: Seq<u8>, q: GenesisModelParameters)
    requires
        is_slot_permutation(p.guardian_slot_permutation@),
    ensures
        genesis_decode_error(genesis_bytes(p)) is None,
        decodes_to(genesis_bytes(p), p),
        genesis_decode_error(data) is None && decodes_to(data, q) ==> genesis_bytes(q) == data,
{
    let s = genesis_bytes(p);
    assert(s.subrange(0, 8) =~= genesis_model_selector());
    assert(s.subrange(307, 313) =~= p.guardian_slot_permutation@);
    assert forall|k: int| 0 <= k < 9 implies #[trigger] model_keys(p)[k] == key_at(s, 11 + 32 * k) by {
        assert forall|m: int| 0 <= m < 32 implies #[trigger] s[(11 + 32 * k) + m] == model_keys(p)[k].bytes()[m] by {
            assert((11 + 32 * k + m - 11) / 32 == k);
            assert((11 + 32 * k + m - 11) % 32 == m);
        }
        assert(holds_key(s, 11 + 32 * k, model_keys(p)[k]));
        lemma_read_back_key(s, 11 + 32 * k, model_keys(p)[k]);
    }
    assert(holds_u64(s, 299, p.kif_anchor_timestamp as u64));
    lemma_read_back_u64(s, 299, p.kif_anchor_timestamp as u64);
    let t = p.kif_anchor_timestamp;
    assert(((t as u64) as i64) == t) by (bit_vector);
    if genesis_decode_error(data) is None && decodes_to(data, q) {
        let e = genesis_bytes(q);
        assert forall|i: int| 0 <= i < 313 implies #[trigger] e[i] == data[i] by {
            if i < 8 {
                assert(data.subrange(0, 8)[i] == data[i]);
            } else if 11 <= i < 299 {
                let k = (i - 11) / 32;
                let m = (i - 11) % 32;
                assert(0 <= k < 9);
                assert(i == (11 + 32 * k) + m);
                assert(model_keys(q)[k] == key_at(data, 11 + 32 * k));
                crate::codec::lemma_key_bytes_at(data, 11 + 32 * k, m);
            } else if 299 <= i < 307 {
                let w = pack_at(data, 299);
                assert((w as i64) as u64 == w) by (bit_vector);
                crate::address::lemma_unpack_word(
                    data[299] as u64, data[300] as u64, data[301] as u64, data[302] as u64,
                    data[303] as u64, data[304] as u64, data[305] as u64, data[306] as u64,
                );
            } else if i >= 307 {
                assert(data.subrange(307, 313)[i - 307] == data[i]);
            }
        }
        assert(e =~= data);
    }
}

} // verus!
