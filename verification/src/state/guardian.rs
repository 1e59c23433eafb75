//! Fixed six-guardian registry and per-guardian reward state.

use crate::address::Pubkey;
use crate::bitmap::{count_ones, has_bit, lemma_popcount_bound, slot_bit, spec_popcount};
use crate::constants::{GUARDIAN_BITMAP_MASK, STATE_LAYOUT_VERSION};
use crate::errors::{Piv1Error, Piv1Result};
use vstd::prelude::*;

verus! {

/// Fixed guardian membership used to snapshot KIF eligibility.
#[derive(Clone, Copy, Debug, PartialEq, Eq)]
pub struct GuardianRegistry {
    /// Serialized layout version.
    pub version: u8,
    /// Guardian-registry PDA bump.
    pub bump: u8,
    /// Monotonic guardian-set revision binding reward records to this set.
    pub revision: u64,
    /// Exactly six configured guardian public keys.
    pub guardian_keys: [Pubkey; 6],
}

/// One bounded reward/activity record for an exact guardian registry slot.
#[derive(Clone, Copy, Debug, PartialEq, Eq, Structural)]
pub struct GuardianReward {
    /// Serialized layout version.
    pub version: u8,
    /// Guardian-reward PDA bump.
    pub bump: u8,
    /// Fixed index in the six-key registry.
    pub guardian_index: u8,
    /// Registry revision for which this binding is valid.
    pub registry_revision: u64,
    /// Guardian public key bound to the fixed index.
    pub guardian: Pubkey,
    /// Most recent active KIF period; `None` is explicit inactivity since init.
    pub last_active_period: Option<u64>,
    /// Unclaimed KIF liability in lamports.
    pub claimable_lamports: u64,
    /// Total KIF lamports ever credited.
    pub cumulative_earned: u64,
    /// Total KIF lamports already claimed.
    pub cumulative_claimed: u64,
}

/// Scan of the registry keys from slot `i`: the first zero key is an invalid
/// address, the first repeated key an invalid guardian set.
pub open spec fn key_scan(keys: [Pubkey; 6], i: int) -> Piv1Result<()>
    decreases 6 - i,
{
    if i >= 6 || i < 0 {
        Ok(())
    } else if keys[i].is_zero() {
        Err(Piv1Error::InvalidAddress)
    } else if exists|j: int| 0 <= j < i && #[trigger] keys[j] == keys[i] {
        Err(Piv1Error::InvalidGuardianSet)
    } else {
        key_scan(keys, i + 1)
    }
}

/// Outcome of checking an activity bitmap against its stored count.
pub open spec fn spec_activity_snapshot(bitmap: u8, active_count: u8) -> Piv1Result<()> {
    if bitmap & !GUARDIAN_BITMAP_MASK != 0 || active_count > 6 || spec_popcount(bitmap)
        != active_count {
        Err(Piv1Error::InvalidGuardianBitmap)
    } else {
        Ok(())
    }
}

/// The activity bitmap over the first `n` reward records.
pub open spec fn activity_bits(rewards: [GuardianReward; 6], period_id: u64, n: int) -> u8
    decreases n,
{
    if n <= 0 {
        0
    } else {
        let prior = activity_bits(rewards, period_id, n - 1);
        if rewards[n - 1].spec_is_active_in(period_id) {
            prior | (1u8 << (n - 1) as u8)
        } else {
            prior
        }
    }
}

/// First reward-binding failure among the first `n` records, if any.
pub open spec fn binding_scan(
    registry: GuardianRegistry,
    rewards: [GuardianReward; 6],
    n: int,
) -> Piv1Result<()>
    decreases n,
{
    if n <= 0 {
        Ok(())
    } else if binding_scan(registry, rewards, n - 1) is Err {
        binding_scan(registry, rewards, n - 1)
    } else {
        registry.spec_reward_binding((n - 1) as u8, rewards[n - 1])
    }
}

impl GuardianRegistry {
    /// Outcome of validating the registry.
    pub open spec fn spec_validate(self) -> Piv1Result<()> {
        if self.version != STATE_LAYOUT_VERSION {
            Err(Piv1Error::InvalidVersion)
        } else {
            key_scan(self.guardian_keys, 0)
        }
    }

    /// True when the registry passes validation.
    pub open spec fn valid(self) -> bool {
        self.spec_validate() is Ok
    }

    /// Outcome of reading the key of a guardian slot.
    pub open spec fn spec_guardian_key(self, index: u8) -> Piv1Result<Pubkey> {
        if self.spec_validate() is Err {
            Err(self.spec_validate()->Err_0)
        } else if index >= 6 {
            Err(Piv1Error::InvalidGuardianSet)
        } else {
            Ok(self.guardian_keys[index as int])
        }
    }

    /// Outcome of checking a reward record against slot `index` of this registry.
    pub open spec fn spec_reward_binding(self, index: u8, reward: GuardianReward) -> Piv1Result<()> {
        if self.spec_validate() is Err {
            self.spec_validate()
        } else if reward.spec_validate() is Err {
            reward.spec_validate()
        } else if reward.guardian_index != index || reward.registry_revision != self.revision
            || reward.guardian != self.guardian_keys[index as int] {
            Err(Piv1Error::InvalidGuardianSet)
        } else {
            Ok(())
        }
    }

    /// Outcome of deriving the six-bit activity snapshot for one period.
    pub open spec fn spec_activity_bitmap(self, rewards: [GuardianReward; 6], period_id: u64) -> Piv1Result<u8> {
        if self.spec_validate() is Err {
            Err(self.spec_validate()->Err_0)
        } else if binding_scan(self, rewards, 6) is Err {
            Err(binding_scan(self, rewards, 6)->Err_0)
        } else {
            Ok(activity_bits(rewards, period_id, 6))
        }
    }

    /// Constructs and validates one fixed guardian-set revision.
    pub fn new(bump: u8, revision: u64, guardian_keys: [Pubkey; 6]) -> (r: Piv1Result<GuardianRegistry>)
        ensures
            ({
                let reg = GuardianRegistry {
                    version: STATE_LAYOUT_VERSION,
                    bump,
                    revision,
                    guardian_keys,
                };
                match reg.spec_validate() {
                    Ok(_) => r == Ok::<GuardianRegistry, Piv1Error>(reg),
                    Err(e) => r == Err::<GuardianRegistry, Piv1Error>(e),
                }
            }),
    {
        let registry = GuardianRegistry { version: STATE_LAYOUT_VERSION, bump, revision, guardian_keys };
        registry.validate()?;
        Ok(registry)
    }

    /// Validates the supported version and six distinct, nonzero keys.
    pub fn validate(&self) -> (r: Piv1Result<()>)
        ensures
            r == self.spec_validate(),
    {
        if self.version != STATE_LAYOUT_VERSION {
            return Err(Piv1Error::InvalidVersion);
        }
        let zero = Pubkey::default();
        let mut index: usize = 0;
        while index < 6
            invariant
                index <= 6,
                self.version == STATE_LAYOUT_VERSION,
                zero == Pubkey::spec_zero(),
                key_scan(self.guardian_keys, 0) == key_scan(self.guardian_keys, index as int),
            decreases 6 - index,
        {
            if self.guardian_keys[index] == zero {
                proof {
                    assert(self.guardian_keys[index as int].is_zero());
                    assert(key_scan(self.guardian_keys, index as int) == Err::<(), Piv1Error>(
                        Piv1Error::InvalidAddress,
                    ));
                }
                return Err(Piv1Error::InvalidAddress);
            }
            let mut earlier: usize = 0;
            while earlier < index
                invariant
                    index < 6,
                    earlier <= index,
                    self.version == STATE_LAYOUT_VERSION,
                    !self.guardian_keys[index as int].is_zero(),
                    key_scan(self.guardian_keys, 0) == key_scan(self.guardian_keys, index as int),
                    forall|j: int| 0 <= j < earlier ==> self.guardian_keys[j] != self.guardian_keys[index as int],
                decreases index - earlier,
            {
                if self.guardian_keys[earlier] == self.guardian_keys[index] {
                    proof {
                        assert(self.guardian_keys[earlier as int] == self.guardian_keys[index as int]);
                        assert(key_scan(self.guardian_keys, index as int) == Err::<(), Piv1Error>(
                            Piv1Error::InvalidGuardianSet,
                        ));
                    }
                    return Err(Piv1Error::InvalidGuardianSet);
                }
                earlier = earlier + 1;
            }
            index = index + 1;
        }
        Ok(())
    }

    /// Returns the configured key for a checked guardian slot.
    pub fn guardian_key(&self, guardian_index: u8) -> (r: Piv1Result<Pubkey>)
        ensures
            r == self.spec_guardian_key(guardian_index),
    {
        self.validate()?;
        if guardian_index >= 6 {
            return Err(Piv1Error::InvalidGuardianSet);
        }
        Ok(self.guardian_keys[guardian_index as usize])
    }

    /// Validates a reward record against an exact registry slot and revision.
    pub fn validate_reward_binding(&self, expected_index: u8, reward: &GuardianReward) -> (r:
        Piv1Result<()>)
        ensures
            r == self.spec_reward_binding(expected_index, *reward),
    {
        self.validate()?;
        reward.validate()?;
        if reward.guardian_index != expected_index || reward.registry_revision != self.revision {
            return Err(Piv1Error::InvalidGuardianSet);
        }
        let key = self.guardian_key(expected_index)?;
        if reward.guardian != key {
            return Err(Piv1Error::InvalidGuardianSet);
        }
        Ok(())
    }

    /// Derives the immutable six-bit activity snapshot for one KIF period:
    /// slot `i` is set exactly when reward `i` was active in `period_id`.
    pub fn activity_bitmap(&self, rewards: &[GuardianReward; 6], period_id: u64) -> (r: Piv1Result<u8>)
        ensures
            r == self.spec_activity_bitmap(*rewards, period_id),
            r matches Ok(b) ==> b < 64 && spec_popcount(b) <= 6 && forall|i: u8|
                i < 6 ==> #[trigger] has_bit(b, i) == rewards[i as int].spec_is_active_in(period_id),
    {
        self.validate()?;
        let mut bitmap: u8 = 0;
        let mut index: usize = 0;
        proof {
            lemma_empty_bits();
        }
        while index < 6
            invariant
                index <= 6,
                self.spec_validate() is Ok,
                binding_scan(*self, *rewards, index as int) is Ok,
                bitmap == activity_bits(*rewards, period_id, index as int),
                bitmap < (1u8 << index as u8),
                forall|i: u8| i < index ==> #[trigger] has_bit(bitmap, i) == rewards[i as int].spec_is_active_in(period_id),
                forall|i: u8| index <= i < 8 ==> !#[trigger] has_bit(bitmap, i),
            decreases 6 - index,
        {
            let guardian_index = index as u8;
            match self.validate_reward_binding(guardian_index, &rewards[index]) {
                Ok(()) => {},
                Err(e) => {
                    proof {
                        lemma_binding_scan_stops(*self, *rewards, index as int + 1);
                    }
                    return Err(e);
                },
            }
            if rewards[index].is_active_in(period_id) {
                let bit = slot_bit(guardian_index);
                proof {
                    lemma_set_bit(bitmap, guardian_index);
                }
                bitmap = bitmap | bit;
            } else {
                proof {
                    lemma_shift_mono(bitmap, guardian_index);
                }
            }
            index = index + 1;
        }
        let active_count = count_ones(bitmap);
        proof {
            lemma_below_64(bitmap);
            lemma_popcount_bound(bitmap);
        }
        Self::validate_activity_snapshot(bitmap, active_count as u8)?;
        Ok(bitmap)
    }

    /// Validates that a bitmap and stored active count describe six slots.
    pub fn validate_activity_snapshot(bitmap: u8, active_count: u8) -> (r: Piv1Result<()>)
        ensures
            r == spec_activity_snapshot(bitmap, active_count),
    {
        if bitmap & !GUARDIAN_BITMAP_MASK != 0 || active_count > 6 || count_ones(bitmap)
            != active_count as u32 {
            return Err(Piv1Error::InvalidGuardianBitmap);
        }
        Ok(())
    }
}

proof fn lemma_binding_scan_stops(registry: GuardianRegistry, rewards: [GuardianReward; 6], n: int)
    requires
        1 <= n <= 6,
        binding_scan(registry, rewards, n) is Err,
    ensures
        binding_scan(registry, rewards, 6) == binding_scan(registry, rewards, n),
    decreases 6 - n,
{
    if n < 6 {
        lemma_binding_scan_stops(registry, rewards, n + 1);
    }
}

proof fn lemma_set_bit(b: u8, k: u8)
    requires
        k < 6,
        b < (1u8 << k),
        forall|i: u8| k <= i < 8 ==> !#[trigger] has_bit(b, i),
    ensures
        (b | (1u8 << k)) < (1u8 << (k + 1) as u8),
        forall|i: u8| i < 8 ==> #[trigger] has_bit(b | (1u8 << k), i) == (has_bit(b, i) || i == k),
{
    assert((b | (1u8 << k)) < (1u8 << (k + 1) as u8)) by (bit_vector)
        requires
            k < 6,
            b < (1u8 << k),
    ;
    assert forall|i: u8| i < 8 implies #[trigger] has_bit(b | (1u8 << k), i) == (has_bit(b, i) || i == k) by {
        assert((((b | (1u8 << k)) >> i) & 1 == 1) == (((b >> i) & 1 == 1) || i == k)) by (bit_vector)
            requires
                k < 6,
                i < 8,
        ;
    }
}

proof fn lemma_empty_bits()
    ensures
        0u8 < (1u8 << 0u8),
        forall|i: u8| i < 8 ==> !#[trigger] has_bit(0u8, i),
{
    assert(0u8 < (1u8 << 0u8)) by (bit_vector);
    assert forall|i: u8| i < 8 implies !#[trigger] has_bit(0u8, i) by {
        assert((0u8 >> i) & 1 != 1) by (bit_vector);
    }
}

/// Bit `i` of the activity bits over the first `n` slots is set exactly when
/// slot `i < n` is active in the period; no bit at or above `n` is set.
pub proof fn lemma_activity_bits(rewards: [GuardianReward; 6], period_id: u64, n: int)
    requires
        0 <= n <= 6,
    ensures
        activity_bits(rewards, period_id, n) < (1u8 << n as u8),
        forall|i: u8| i < n ==> #[trigger] has_bit(activity_bits(rewards, period_id, n), i)
            == rewards[i as int].spec_is_active_in(period_id),
        forall|i: u8| n <= i < 8 ==> !#[trigger] has_bit(activity_bits(rewards, period_id, n), i),
    decreases n,
{
    if n == 0 {
        lemma_empty_bits();
    } else {
        lemma_activity_bits(rewards, period_id, n - 1);
        let prior = activity_bits(rewards, period_id, n - 1);
        let k = (n - 1) as u8;
        if rewards[n - 1].spec_is_active_in(period_id) {
            lemma_set_bit(prior, k);
        } else {
            lemma_shift_mono(prior, k);
        }
    }
}

proof fn lemma_shift_mono(b: u8, k: u8)
    requires
        k < 6,
        b < (1u8 << k),
    ensures
        b < (1u8 << (k + 1) as u8),
{
    assert(b < (1u8 << (k + 1) as u8)) by (bit_vector)
        requires
            k < 6,
            b < (1u8 << k),
    ;
}

/// A registry whose key scan succeeds from slot `i` has nonzero keys that
/// differ from every earlier key in all slots from `i` on.
pub proof fn lemma_key_scan_ok(keys: [Pubkey; 6], i: int)
    requires
        0 <= i <= 6,
        key_scan(keys, i) is Ok,
    ensures
        forall|k: int| i <= k < 6 ==> !(#[trigger] keys[k]).is_zero(),
        forall|k: int, j: int| i <= k < 6 && 0 <= j < k ==> #[trigger] keys[j] != #[trigger] keys[k],
    decreases 6 - i,
{
    if i < 6 {
        lemma_key_scan_ok(keys, i + 1);
    }
}

proof fn lemma_below_64(b: u8)
    requires
        forall|i: u8| 6 <= i < 8 ==> !#[trigger] has_bit(b, i),
    ensures
        b < 64,
        b & !GUARDIAN_BITMAP_MASK == 0,
{
    assert(!has_bit(b, 6));
    assert(!has_bit(b, 7));
    assert(((b >> 6u8) & 1 != 1) && ((b >> 7u8) & 1 != 1) ==> b < 64 && b & !0x3fu8 == 0) by (bit_vector);
}

impl GuardianReward {
    /// Outcome of validating the standalone reward layout.
    pub open spec fn spec_validate(self) -> Piv1Result<()> {
        if self.version != STATE_LAYOUT_VERSION {
            Err(Piv1Error::InvalidVersion)
        } else if self.guardian.is_zero() {
            Err(Piv1Error::InvalidAddress)
        } else if self.guardian_index >= 6 {
            Err(Piv1Error::InvalidGuardianSet)
        } else if self.cumulative_earned < self.cumulative_claimed || self.cumulative_earned
            - self.cumulative_claimed != self.claimable_lamports {
            Err(Piv1Error::CumulativeReconciliationMismatch)
        } else {
            Ok(())
        }
    }

    /// True when this guardian was active in exactly `period_id`.
    pub open spec fn spec_is_active_in(self, period_id: u64) -> bool {
        self.last_active_period == Some(period_id)
    }

    /// The record with `lamports` more claimable and earned.
    pub open spec fn credited(self, lamports: u64) -> GuardianReward {
        GuardianReward {
            claimable_lamports: (self.claimable_lamports + lamports) as u64,
            cumulative_earned: (self.cumulative_earned + lamports) as u64,
            ..self
        }
    }

    /// Outcome of crediting `lamports` against an immutable snapshot binding.
    pub open spec fn spec_credit_snapshot(
        self,
        guardian: Pubkey,
        index: u8,
        revision: u64,
        lamports: u64,
    ) -> Piv1Result<GuardianReward> {
        if self.spec_validate() is Err {
            Err(self.spec_validate()->Err_0)
        } else if self.guardian != guardian || self.guardian_index != index
            || self.registry_revision != revision {
            Err(Piv1Error::InvalidGuardianSet)
        } else if self.claimable_lamports + lamports > u64::MAX || self.cumulative_earned + lamports
            > u64::MAX {
            Err(Piv1Error::ArithmeticOverflow)
        } else {
            Ok(self.credited(lamports))
        }
    }

    /// Constructs a zero-balance reward record bound to one registry slot.
    pub fn new(bump: u8, registry: &GuardianRegistry, guardian_index: u8) -> (r: Piv1Result<
        GuardianReward,
    >)
        ensures
            registry.spec_guardian_key(guardian_index) is Err ==> r == Err::<GuardianReward, Piv1Error>(
                registry.spec_guardian_key(guardian_index)->Err_0,
            ),
            registry.spec_guardian_key(guardian_index) is Ok ==> r == Ok::<GuardianReward, Piv1Error>(
                GuardianReward {
                    version: STATE_LAYOUT_VERSION,
                    bump,
                    guardian_index,
                    registry_revision: registry.revision,
                    guardian: registry.guardian_keys[guardian_index as int],
                    last_active_period: None,
                    claimable_lamports: 0,
                    cumulative_earned: 0,
                    cumulative_claimed: 0,
                },
            ),
    {
        let guardian = registry.guardian_key(guardian_index)?;
        proof {
            lemma_key_scan_ok(registry.guardian_keys, 0);
        }
        let reward = GuardianReward {
            version: STATE_LAYOUT_VERSION,
            bump,
            guardian_index,
            registry_revision: registry.revision,
            guardian,
            last_active_period: None,
            claimable_lamports: 0,
            cumulative_earned: 0,
            cumulative_claimed: 0,
        };
        registry.validate_reward_binding(guardian_index, &reward)?;
        Ok(reward)
    }

    /// Validates the standalone reward layout and its accounting identity.
    pub fn validate(&self) -> (r: Piv1Result<()>)
        ensures
            r == self.spec_validate(),
    {
        if self.version != STATE_LAYOUT_VERSION {
            return Err(Piv1Error::InvalidVersion);
        }
        if self.guardian == Pubkey::default() {
            return Err(Piv1Error::InvalidAddress);
        }
        if self.guardian_index >= 6 {
            return Err(Piv1Error::InvalidGuardianSet);
        }
        let expected_claimable = match self.cumulative_earned.checked_sub(self.cumulative_claimed) {
            Some(v) => v,
            None => return Err(Piv1Error::CumulativeReconciliationMismatch),
        };
        if expected_claimable != self.claimable_lamports {
            return Err(Piv1Error::CumulativeReconciliationMismatch);
        }
        Ok(())
    }

    /// Returns whether this guardian was active in the exact snapshotted period.
    pub fn is_active_in(&self, period_id: u64) -> (r: bool)
        ensures
            r == self.spec_is_active_in(period_id),
    {
        match self.last_active_period {
            Some(p) => p == period_id,
            None => false,
        }
    }

    /// Records monotonic activity after validating the full registry binding;
    /// a rejected regression or binding mismatch leaves the record unchanged.
    pub fn record_activity(&mut self, registry: &GuardianRegistry, expected_index: u8, period_id: u64) -> (r:
        Piv1Result<()>)
        ensures
            ({
                let b = registry.spec_reward_binding(expected_index, *old(self));
                if b is Err {
                    r == b && *final(self) == *old(self)
                } else if old(self).last_active_period matches Some(last) && period_id < last {
                    r == Err::<(), Piv1Error>(Piv1Error::TimestampRegression) && *final(self) == *old(
                        self,
                    )
                } else {
                    r == Ok::<(), Piv1Error>(()) && *final(self) == (GuardianReward {
                        last_active_period: Some(period_id),
                        ..*old(self)
                    })
                }
            }),
    {
        registry.validate_reward_binding(expected_index, self)?;
        let regressed = match self.last_active_period {
            Some(last_period) => period_id < last_period,
            None => false,
        };
        if regressed {
            return Err(Piv1Error::TimestampRegression);
        }
        let mut staged = *self;
        staged.last_active_period = Some(period_id);
        registry.validate_reward_binding(expected_index, &staged)?;
        *self = staged;
        Ok(())
    }

    /// Credits a checked KIF liability after validating its registry binding;
    /// on any failure the record is unchanged.
    pub fn credit(&mut self, registry: &GuardianRegistry, expected_index: u8, lamports: u64) -> (r:
        Piv1Result<()>)
        ensures
            ({
                let b = registry.spec_reward_binding(expected_index, *old(self));
                if b is Err {
                    r == b && *final(self) == *old(self)
                } else if old(self).claimable_lamports + lamports > u64::MAX
                    || old(self).cumulative_earned + lamports > u64::MAX {
                    r == Err::<(), Piv1Error>(Piv1Error::ArithmeticOverflow) && *final(self) == *old(
                        self,
                    )
                } else {
                    r == Ok::<(), Piv1Error>(()) && *final(self) == old(self).credited(lamports)
                }
            }),
    {
        registry.validate_reward_binding(expected_index, self)?;
        let mut staged = *self;
        staged.claimable_lamports = match staged.claimable_lamports.checked_add(lamports) {
            Some(v) => v,
            None => return Err(Piv1Error::ArithmeticOverflow),
        };
        staged.cumulative_earned = match staged.cumulative_earned.checked_add(lamports) {
            Some(v) => v,
            None => return Err(Piv1Error::ArithmeticOverflow),
        };
        registry.validate_reward_binding(expected_index, &staged)?;
        *self = staged;
        Ok(())
    }

    /// Credits a reward from an immutable active-round guardian snapshot; it
    /// stays valid even if the live registry rotates after preparation.
    pub fn credit_snapshot(
        &mut self,
        expected_guardian: Pubkey,
        expected_index: u8,
        expected_registry_revision: u64,
        lamports: u64,
    ) -> (r: Piv1Result<()>)
        ensures
            ({
                let s = old(self).spec_credit_snapshot(
                    expected_guardian,
                    expected_index,
                    expected_registry_revision,
                    lamports,
                );
                match s {
                    Ok(n) => r == Ok::<(), Piv1Error>(()) && *final(self) == n,
                    Err(e) => r == Err::<(), Piv1Error>(e) && *final(self) == *old(self),
                }
            }),
    {
        self.validate()?;
        if self.guardian != expected_guardian || self.guardian_index != expected_index
            || self.registry_revision != expected_registry_revision {
            return Err(Piv1Error::InvalidGuardianSet);
        }
        let mut staged = *self;
        staged.claimable_lamports = match staged.claimable_lamports.checked_add(lamports) {
            Some(v) => v,
            None => return Err(Piv1Error::ArithmeticOverflow),
        };
        staged.cumulative_earned = match staged.cumulative_earned.checked_add(lamports) {
            Some(v) => v,
            None => return Err(Piv1Error::ArithmeticOverflow),
        };
        staged.validate()?;
        *self = staged;
        Ok(())
    }
}

} // verus!
