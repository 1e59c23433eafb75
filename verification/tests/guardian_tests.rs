//! Guardian registry and per-guardian reward records: bindings, activity
//! snapshots and checked credits.

use piv1::address::Pubkey;
use piv1::constants::{GUARDIAN_COUNT, STATE_LAYOUT_VERSION};
use piv1::errors::Piv1Error;
use piv1::state::guardian::{GuardianRegistry, GuardianReward};

fn guardian(seed: u8) -> Pubkey {
    Pubkey::new_from_array([seed; 32])
}

fn keys() -> [Pubkey; GUARDIAN_COUNT] {
    core::array::from_fn(|index| guardian((index + 1) as u8))
}

fn registry(revision: u64) -> GuardianRegistry {
    GuardianRegistry::new(254, revision, keys()).expect("valid registry fixture")
}

fn rewards(registry: &GuardianRegistry) -> [GuardianReward; GUARDIAN_COUNT] {
    core::array::from_fn(|index| {
        GuardianReward::new(
            index as u8,
            registry,
            index as u8,
        )
        .expect("valid reward fixture")
    })
}

#[test]
fn registry_requires_exactly_six_distinct_nondefault_keys() {
    let valid = registry(0);
    assert_eq!(valid.guardian_keys.len(), GUARDIAN_COUNT);

    let mut with_default = keys();
    with_default[3] = Pubkey::default();
    assert_eq!(
        GuardianRegistry::new(0, 0, with_default),
        Err(Piv1Error::InvalidAddress)
    );

    let mut with_duplicate = keys();
    with_duplicate[5] = with_duplicate[1];
    assert_eq!(
        GuardianRegistry::new(0, 0, with_duplicate),
        Err(Piv1Error::InvalidGuardianSet)
    );
}

#[test]
fn activity_is_monotonic_and_produces_a_checked_six_bit_snapshot() {
    let registry = registry(9);
    let mut rewards = rewards(&registry);
    for index in [0_u8, 2, 5] {
        rewards[usize::from(index)]
            .record_activity(&registry, index, 41)
            .expect("record activity");
    }

    let bitmap = registry
        .activity_bitmap(&rewards, 41)
        .expect("derive activity bitmap");
    assert_eq!(bitmap, 0b10_0101);
    GuardianRegistry::validate_activity_snapshot(bitmap, 3)
        .expect("valid activity snapshot");
    assert_eq!(
        GuardianRegistry::validate_activity_snapshot(bitmap, 2),
        Err(Piv1Error::InvalidGuardianBitmap)
    );
    assert_eq!(
        GuardianRegistry::validate_activity_snapshot(1 << GUARDIAN_COUNT, 1),
        Err(Piv1Error::InvalidGuardianBitmap)
    );
    assert_eq!(
        registry
            .activity_bitmap(&rewards, 40)
            .expect("older period has no exact activity"),
        0
    );

    let before = rewards[2];
    assert_eq!(
        rewards[2].record_activity(&registry, 2, 40),
        Err(Piv1Error::TimestampRegression)
    );
    assert_eq!(rewards[2], before);
}

#[test]
fn revision_key_and_index_mismatches_are_rejected_without_mutation() {
    let registry = registry(7);
    let base = GuardianReward::new(1, &registry, 1).expect("valid reward");

    let mut wrong_revision = base;
    wrong_revision.registry_revision = 8;
    let before = wrong_revision;
    assert_eq!(
        wrong_revision.credit(&registry, 1, 5),
        Err(Piv1Error::InvalidGuardianSet)
    );
    assert_eq!(wrong_revision, before);

    let mut wrong_key = base;
    wrong_key.guardian = registry.guardian_keys[2];
    let before = wrong_key;
    assert_eq!(
        wrong_key.record_activity(&registry, 1, 4),
        Err(Piv1Error::InvalidGuardianSet)
    );
    assert_eq!(wrong_key, before);

    let mut wrong_index = base;
    let before = wrong_index;
    assert_eq!(
        wrong_index.credit(&registry, 2, 5),
        Err(Piv1Error::InvalidGuardianSet)
    );
    assert_eq!(wrong_index, before);
}

#[test]
fn unsupported_versions_and_default_reward_bindings_are_rejected() {
    let registry = registry(7);

    let mut wrong_registry_version = registry;
    wrong_registry_version.version = STATE_LAYOUT_VERSION.saturating_add(1);
    assert_eq!(wrong_registry_version.validate(), Err(Piv1Error::InvalidVersion));

    let mut reward = GuardianReward::new(1, &registry, 1).expect("valid reward");
    reward.version = STATE_LAYOUT_VERSION.saturating_add(1);
    assert_eq!(reward.validate(), Err(Piv1Error::InvalidVersion));

    reward.version = STATE_LAYOUT_VERSION;
    reward.guardian = Pubkey::default();
    assert_eq!(reward.validate(), Err(Piv1Error::InvalidAddress));
    assert_eq!(
        registry.validate_reward_binding(1, &reward),
        Err(Piv1Error::InvalidAddress)
    );
}

#[test]
fn snapshot_credit_remains_bound_to_the_pre_rotation_guardian_set() {
    let original_registry = registry(21);
    let mut reward =
        GuardianReward::new(4, &original_registry, 4).expect("valid reward");
    let snapshotted_guardian = original_registry.guardian_keys[4];

    let rotated_registry = registry(22);
    assert_eq!(
        rotated_registry.validate_reward_binding(4, &reward),
        Err(Piv1Error::InvalidGuardianSet)
    );

    reward
        .credit_snapshot(snapshotted_guardian, 4, 21, 17)
        .expect("immutable pre-rotation snapshot remains creditable");
    assert_eq!(reward.claimable_lamports, 17);
    assert_eq!(reward.cumulative_earned, 17);

    for (guardian_key, index, revision) in [
        (guardian(99), 4, 21),
        (snapshotted_guardian, 3, 21),
        (snapshotted_guardian, 4, 22),
    ] {
        let before = reward;
        assert_eq!(
            reward.credit_snapshot(guardian_key, index, revision, 1),
            Err(Piv1Error::InvalidGuardianSet)
        );
        assert_eq!(reward, before);
    }
}

#[test]
fn checked_credit_preserves_state_on_each_overflow_path() {
    let registry = registry(3);
    let mut claimable_overflow =
        GuardianReward::new(0, &registry, 0).expect("valid reward");
    claimable_overflow.claimable_lamports = u64::MAX;
    claimable_overflow.cumulative_earned = u64::MAX;
    let before = claimable_overflow;
    assert_eq!(
        claimable_overflow.credit(&registry, 0, 1),
        Err(Piv1Error::ArithmeticOverflow)
    );
    assert_eq!(claimable_overflow, before);

    let mut earned_overflow =
        GuardianReward::new(0, &registry, 0).expect("valid reward");
    earned_overflow.claimable_lamports = 1;
    earned_overflow.cumulative_earned = u64::MAX;
    earned_overflow.cumulative_claimed = u64::MAX - 1;
    earned_overflow.validate().expect("balanced overflow fixture");
    let before = earned_overflow;
    assert_eq!(
        earned_overflow.credit(&registry, 0, 1),
        Err(Piv1Error::ArithmeticOverflow)
    );
    assert_eq!(earned_overflow, before);

    let mut credited = GuardianReward::new(0, &registry, 0).expect("valid reward");
    credited
        .credit(&registry, 0, 11)
        .expect("checked credit");
    assert_eq!(credited.claimable_lamports, 11);
    assert_eq!(credited.cumulative_earned, 11);
    assert_eq!(credited.cumulative_claimed, 0);
}
