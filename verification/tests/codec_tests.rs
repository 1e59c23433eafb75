//! Byte layouts: claim and pending-recognition instructions, genesis model
//! data, stable error numbers, stake-pool account data and addresses.

use piv1::address::Pubkey;
use piv1::errors::Piv1Error;
use piv1::instruction_errors::{piv1_error_code, HOST_RUNTIME_UNAVAILABLE_CODE};
use piv1::instructions::claim_kif::{decode_claim_kif, encode_claim_kif, CLAIM_KIF_INSTRUCTION_SIZE};
use piv1::instructions::initialize::{
    validate_permutation, DeclaredGenesisProtocol, GenesisModelFormatError, GenesisModelParameters,
    GENESIS_MODEL_DATA_SIZE,
};
use piv1::instructions::reconcile_pending::{decode_reconcile_pending, encode_reconcile_pending};
use piv1::instructions::InstructionDataError;
use piv1::integrations::jito_identity::{
    decode_list, decode_pool, decode_reserve, FutureFee, JitoIdentityError, RawFee, RawLockup,
};
use piv1::state::kif_claim::KifClaimRequest;

const CLAIM_DISCRIMINATOR: [u8; 8] = [253, 151, 172, 11, 202, 77, 118, 170];

fn key(tag: u8) -> Pubkey {
    Pubkey::new_from_array([tag; 32])
}

#[test]
fn addresses_round_trip_through_their_bytes() {
    let mut bytes = [0_u8; 32];
    for (index, byte) in bytes.iter_mut().enumerate() {
        *byte = (index * 7 + 3) as u8;
    }
    let address = Pubkey::new_from_array(bytes);
    assert_eq!(address.to_bytes(), bytes);
    assert_eq!(Pubkey::new_from_array(address.to_bytes()), address);
    assert_ne!(key(1), key(2));
    assert_eq!(Pubkey::default(), Pubkey::new_from_array([0; 32]));
}

#[test]
fn claim_instruction_encodes_discriminator_amount_and_counter() {
    let request = KifClaimRequest { amount_lamports: 0x0102_0304_0506_0708, expected_cumulative_claimed: 9 };
    let bytes = encode_claim_kif(request);
    assert_eq!(bytes.len(), CLAIM_KIF_INSTRUCTION_SIZE);
    assert_eq!(bytes[..8], CLAIM_DISCRIMINATOR);
    assert_eq!(bytes[8..16], [8, 7, 6, 5, 4, 3, 2, 1]);
    assert_eq!(bytes[16..24], [9, 0, 0, 0, 0, 0, 0, 0]);
    assert_eq!(decode_claim_kif(&bytes), Ok(request));
}

#[test]
fn claim_instruction_decoding_is_strict_about_shape() {
    let bytes = encode_claim_kif(KifClaimRequest { amount_lamports: 0, expected_cumulative_claimed: 0 });
    assert_eq!(
        decode_claim_kif(&bytes),
        Ok(KifClaimRequest { amount_lamports: 0, expected_cumulative_claimed: 0 })
    );
    assert_eq!(decode_claim_kif(&bytes[..23]), Err(InstructionDataError::InvalidInstructionData));
    let mut longer = bytes.to_vec();
    longer.push(0);
    assert_eq!(decode_claim_kif(&longer), Err(InstructionDataError::InvalidInstructionData));
    let mut wrong = bytes;
    wrong[7] ^= 1;
    assert_eq!(decode_claim_kif(&wrong), Err(InstructionDataError::InvalidInstructionData));
}

#[test]
fn pending_recognition_instruction_is_the_bare_discriminator() {
    let bytes = encode_reconcile_pending();
    assert_eq!(bytes, [225, 128, 29, 102, 157, 24, 172, 206]);
    assert_eq!(decode_reconcile_pending(&bytes), Ok(()));
    assert_eq!(decode_reconcile_pending(&bytes[..7]), Err(InstructionDataError::InvalidInstructionData));
    let mut wrong = bytes;
    wrong[0] = 0;
    assert_eq!(decode_reconcile_pending(&wrong), Err(InstructionDataError::InvalidInstructionData));
    assert_eq!(decode_reconcile_pending(&[]), Err(InstructionDataError::InvalidInstructionData));
}

#[test]
fn error_numbers_are_stable_and_distinct() {
    assert_eq!(piv1_error_code(Piv1Error::InvalidAccountOwner), 6000);
    assert_eq!(piv1_error_code(Piv1Error::ZeroKifClaim), 6003);
    assert_eq!(piv1_error_code(Piv1Error::InvalidVersion), 6024);
    assert_eq!(piv1_error_code(Piv1Error::HighWaterMarkDecrease), 6064);
    assert_eq!(piv1_error_code(Piv1Error::ArithmeticOverflow), 6072);
    assert_eq!(piv1_error_code(Piv1Error::RecoveryRequired), 6073);
    assert_eq!(HOST_RUNTIME_UNAVAILABLE_CODE, 6999);
}

fn parameters() -> GenesisModelParameters {
    GenesisModelParameters {
        vault_index: 2,
        initially_paused: true,
        protocol: DeclaredGenesisProtocol {
            stake_pool_program: key(1),
            stake_pool: key(2),
            validator_list: key(3),
            reserve_stake: key(4),
            jitosol_mint: key(5),
            manager_fee_account: key(6),
            referrer_token_account: key(7),
        },
        htfp_recipient: key(8),
        team_owner_recipient: key(9),
        kif_anchor_timestamp: -1_700_000_000,
        guardian_slot_permutation: [5, 3, 1, 0, 2, 4],
    }
}

#[test]
fn genesis_model_round_trips_through_its_fixed_layout() {
    let model = parameters();
    let bytes = model.encode().expect("encode");
    assert_eq!(bytes.len(), GENESIS_MODEL_DATA_SIZE);
    assert_eq!(&bytes[..8], b"PIV1GM01");
    assert_eq!(bytes[8], 1);
    assert_eq!(bytes[9], 2);
    assert_eq!(bytes[10], 1);
    assert_eq!(bytes[11..43], [1_u8; 32]);
    assert_eq!(bytes[267..299], [9_u8; 32]);
    assert_eq!(bytes[299..307], (-1_700_000_000_i64).to_le_bytes());
    assert_eq!(bytes[307..], [5, 3, 1, 0, 2, 4]);
    assert_eq!(GenesisModelParameters::decode(&bytes), Ok(model));
}

#[test]
fn genesis_model_decoding_reports_each_format_error() {
    let bytes = parameters().encode().expect("encode");
    assert_eq!(GenesisModelParameters::decode(&bytes[..312]), Err(GenesisModelFormatError::InvalidLength));
    let mut selector = bytes;
    selector[0] = b'X';
    assert_eq!(GenesisModelParameters::decode(&selector), Err(GenesisModelFormatError::InvalidSelector));
    let mut version = bytes;
    version[8] = 2;
    assert_eq!(GenesisModelParameters::decode(&version), Err(GenesisModelFormatError::UnsupportedVersion));
    let mut boolean = bytes;
    boolean[10] = 2;
    assert_eq!(GenesisModelParameters::decode(&boolean), Err(GenesisModelFormatError::InvalidBoolean));
    let mut duplicate = bytes;
    duplicate[312] = 5;
    assert_eq!(
        GenesisModelParameters::decode(&duplicate),
        Err(GenesisModelFormatError::InvalidSlotPermutation)
    );
    let mut model = parameters();
    model.guardian_slot_permutation = [0, 1, 2, 3, 4, 6];
    assert_eq!(model.encode(), Err(GenesisModelFormatError::InvalidSlotPermutation));
}

#[test]
fn slot_permutations_must_use_each_slot_once() {
    assert_eq!(validate_permutation(&[0, 1, 2, 3, 4, 5]), Ok(()));
    assert_eq!(validate_permutation(&[5, 4, 3, 2, 1, 0]), Ok(()));
    assert_eq!(
        validate_permutation(&[0, 1, 2, 3, 4, 4]),
        Err(GenesisModelFormatError::InvalidSlotPermutation)
    );
    assert_eq!(
        validate_permutation(&[0, 1, 2, 3, 4, 6]),
        Err(GenesisModelFormatError::InvalidSlotPermutation)
    );
}

fn push_key(bytes: &mut Vec<u8>, tag: u8) {
    bytes.extend_from_slice(&[tag; 32]);
}

fn push_fee(bytes: &mut Vec<u8>, denominator: u64, numerator: u64) {
    bytes.extend_from_slice(&denominator.to_le_bytes());
    bytes.extend_from_slice(&numerator.to_le_bytes());
}

/// A stake-pool account with every optional field absent except the
/// preferred deposit validator and a two-epoch future withdrawal fee.
fn pool_bytes() -> Vec<u8> {
    let mut bytes = vec![1_u8];
    push_key(&mut bytes, 1);
    push_key(&mut bytes, 2);
    push_key(&mut bytes, 3);
    bytes.push(254);
    for tag in 4..=8 {
        push_key(&mut bytes, tag);
    }
    bytes.extend_from_slice(&1_000_u64.to_le_bytes());
    bytes.extend_from_slice(&900_u64.to_le_bytes());
    bytes.extend_from_slice(&77_u64.to_le_bytes());
    bytes.extend_from_slice(&[0; 48]);
    push_fee(&mut bytes, 100, 4);
    bytes.push(0);
    bytes.push(1);
    push_key(&mut bytes, 9);
    bytes.push(0);
    push_fee(&mut bytes, 0, 0);
    push_fee(&mut bytes, 1_000, 1);
    bytes.push(2);
    push_fee(&mut bytes, 1_000, 2);
    bytes.push(50);
    bytes.push(0);
    push_fee(&mut bytes, 10, 0);
    bytes.push(100);
    bytes.push(0);
    push_fee(&mut bytes, 1_000, 3);
    bytes.push(0);
    bytes.extend_from_slice(&880_u64.to_le_bytes());
    bytes.extend_from_slice(&990_u64.to_le_bytes());
    bytes
}

#[test]
fn stake_pool_data_decodes_every_field_in_order() {
    let bytes = pool_bytes();
    let pool = decode_pool(&bytes).expect("pool");
    assert_eq!(pool.manager(), key(1));
    assert_eq!(pool.stake_deposit_authority(), key(3));
    assert_eq!(pool.stake_withdraw_bump_seed(), 254);
    assert_eq!(pool.validator_list(), key(4));
    assert_eq!(pool.token_program_id(), key(8));
    assert_eq!(pool.total_lamports(), 1_000);
    assert_eq!(pool.pool_token_supply(), 900);
    assert_eq!(pool.last_update_epoch(), 77);
    assert_eq!(pool.lockup(), RawLockup::default());
    assert_eq!(pool.epoch_fee(), RawFee { denominator: 100, numerator: 4 });
    assert_eq!(pool.next_epoch_fee(), FutureFee::Absent);
    assert_eq!(pool.preferred_deposit_validator_vote_address(), Some(key(9)));
    assert_eq!(pool.preferred_withdraw_validator_vote_address(), None);
    assert_eq!(pool.stake_deposit_fee(), RawFee { denominator: 0, numerator: 0 });
    assert_eq!(pool.next_stake_withdrawal_fee(), FutureFee::Two(RawFee { denominator: 1_000, numerator: 2 }));
    assert_eq!(pool.stake_referral_fee(), 50);
    assert_eq!(pool.sol_referral_fee(), 100);
    assert_eq!(pool.sol_withdrawal_fee(), RawFee { denominator: 1_000, numerator: 3 });
    assert_eq!(pool.last_epoch_pool_token_supply(), 880);
    assert_eq!(pool.last_epoch_total_lamports(), 990);

    let mut padded = bytes.clone();
    padded.resize(2_000, 0xA5);
    assert_eq!(decode_pool(&padded), Ok(pool));
}

#[test]
fn stake_pool_data_rejects_truncation_tags_and_fees() {
    let bytes = pool_bytes();
    for end in 0..bytes.len() {
        assert!(decode_pool(&bytes[..end]).is_err(), "end={end}");
    }
    let mut tag = bytes.clone();
    tag[0] = 2;
    assert_eq!(decode_pool(&tag), Err(JitoIdentityError::InvalidPool));
    let future_offset = 1 + 96 + 1 + 160 + 24 + 48 + 16;
    let mut future = bytes.clone();
    future[future_offset] = 3;
    assert_eq!(decode_pool(&future), Err(JitoIdentityError::InvalidPool));
    let fee_offset = 1 + 96 + 1 + 160 + 24 + 48;
    let mut fee = bytes.clone();
    fee[fee_offset + 8..fee_offset + 16].copy_from_slice(&101_u64.to_le_bytes());
    assert_eq!(decode_pool(&fee), Err(JitoIdentityError::InvalidFee));
}

#[test]
fn validator_list_geometry_requires_whole_entries() {
    let mut bytes = vec![2_u8];
    bytes.extend_from_slice(&3_u32.to_le_bytes());
    bytes.extend_from_slice(&2_u32.to_le_bytes());
    bytes.resize(9 + 3 * 73 + 72, 0);
    let list = decode_list(&bytes).expect("list");
    assert_eq!(list.maximum(), 3);
    assert_eq!(list.count(), 2);
    let mut short = bytes.clone();
    short.truncate(9 + 2 * 73);
    assert_eq!(decode_list(&short), Err(JitoIdentityError::InvalidList));
    let mut over = bytes.clone();
    over[5] = 4;
    assert_eq!(decode_list(&over), Err(JitoIdentityError::InvalidList));
    assert_eq!(decode_list(&bytes[..8]), Err(JitoIdentityError::InvalidList));
}

#[test]
fn reserve_stake_must_be_bound_to_the_withdraw_authority() {
    let authority = key(7);
    let mut bytes = Vec::new();
    bytes.extend_from_slice(&1_u32.to_le_bytes());
    bytes.extend_from_slice(&2_282_880_u64.to_le_bytes());
    push_key(&mut bytes, 7);
    push_key(&mut bytes, 7);
    bytes.extend_from_slice(&[0; 48]);
    bytes.resize(200, 0xEE);
    let reserve = decode_reserve(&bytes, &authority).expect("reserve");
    assert_eq!(reserve.rent_exempt_reserve(), 2_282_880);
    assert_eq!(reserve.staker(), authority);
    assert_eq!(reserve.withdrawer(), authority);
    assert_eq!(reserve.lockup(), RawLockup::default());
    assert_eq!(decode_reserve(&bytes, &key(8)), Err(JitoIdentityError::InvalidReserve));
    assert_eq!(decode_reserve(&bytes[..199], &authority), Err(JitoIdentityError::InvalidReserve));
    let mut locked = bytes.clone();
    locked[76] = 1;
    assert_eq!(decode_reserve(&locked, &authority), Err(JitoIdentityError::InvalidReserve));
}
