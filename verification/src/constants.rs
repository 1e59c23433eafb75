//! Fixed state-model constants of the first layout version.

use vstd::prelude::*;

verus! {

/// First bounded serialized state-layout version.
pub const STATE_LAYOUT_VERSION: u8 = 1;
/// Bytes reserved by account discriminators once owner-bound accounts exist.
pub const PLANNED_ACCOUNT_DISCRIMINATOR_BYTES: usize = 8;
/// Immutable maximum configured slippage tolerance, in basis points.
pub const MAX_CONFIGURED_SLIPPAGE_BPS: u16 = 1;
/// Minimum time between successful distribution preparations (ten days).
pub const MINIMUM_DISTRIBUTION_INTERVAL_SECONDS: i64 = 864_000;
/// Retry cooldown after a valid technically insufficient attempt (one day).
pub const INSUFFICIENT_RETRY_COOLDOWN_SECONDS: i64 = 86_400;
/// Fixed KIF period duration (thirty days).
pub const KIF_PERIOD_SECONDS: i64 = 2_592_000;
/// Fixed guardian-set size.
pub const GUARDIAN_COUNT: usize = 6;
/// Bitmap mask covering exactly the six guardian slots.
pub const GUARDIAN_BITMAP_MASK: u8 = 0x3f;
/// Fixed migration reserve in the version-one configuration payload.
pub const CONFIG_MIGRATION_RESERVE_BYTES: usize = 64;
/// Recovery was triggered by a finalized stake leg losing delegated value.
pub const RECOVERY_FLAG_COOLDOWN_LOSS: u8 = 1;
/// Recovery was triggered because the validated residual value missed its floor.
pub const RECOVERY_FLAG_RESIDUAL_HWM: u8 = 2;

} // verus!
