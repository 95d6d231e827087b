//! Register addresses of the chip and the values the driver works with.

use vstd::prelude::*;

verus! {

/// Default I2C address for MPR121
pub const MPR121_I2CADDR_DEFAULT: u16 = 0x5A;

/// Default touch threshold set for MPR121
pub const MPR121_TOUCH_THRESHOLD_DEFAULT: u8 = 12;

/// Default release threshold set for MPR121
pub const MPR121_RELEASE_THRESHOLD_DEFAULT: u8 = 6;

/// Touch status, low byte. A word read here yields all twelve channels.
pub const REG_TOUCHSTATUS_L: u8 = 0x00;

/// Maximum half delta, rising.
pub const REG_MHDR: u8 = 0x2B;

/// Noise half delta, rising.
pub const REG_NHDR: u8 = 0x2C;

/// Noise count limit, rising.
pub const REG_NCLR: u8 = 0x2D;

/// Filter delay count limit, rising.
pub const REG_FDLR: u8 = 0x2E;

/// Maximum half delta, falling.
pub const REG_MHDF: u8 = 0x2F;

/// Noise half delta, falling.
pub const REG_NHDF: u8 = 0x30;

/// Noise count limit, falling.
pub const REG_NCLF: u8 = 0x31;

/// Filter delay count limit, falling.
pub const REG_FDLF: u8 = 0x32;

/// Noise half delta, touched.
pub const REG_NHDT: u8 = 0x33;

/// Noise count limit, touched.
pub const REG_NCLT: u8 = 0x34;

/// Filter delay count limit, touched.
pub const REG_FDLT: u8 = 0x35;

/// Touch threshold of channel 0. Each further channel lies two addresses on.
pub const REG_TOUCHTH_0: u8 = 0x41;

/// Release threshold of channel 0. Each further channel lies two addresses on.
pub const REG_RELEASETH_0: u8 = 0x42;

/// Debounce counts for touch and release.
pub const REG_DEBOUNCE: u8 = 0x5B;

/// Filter and charge current configuration.
pub const REG_CONFIG1: u8 = 0x5C;

/// Charge time, filter iterations and sample interval.
pub const REG_CONFIG2: u8 = 0x5D;

/// Electrode configuration: how many channels are active, and run or stop.
pub const REG_ECR: u8 = 0x5E;

/// Soft reset.
pub const REG_SOFTRESET: u8 = 0x80;

/// The value that triggers a soft reset when written to `REG_SOFTRESET`.
pub const SOFTRESET_MAGIC: u8 = 0x63;

/// What `REG_CONFIG2` holds in a chip that has just been reset.
pub const CONFIG2_AFTER_RESET: u8 = 0x24;

/// How long the chip is given to settle after a soft reset, at least.
pub const RESET_SETTLE_MILLIS: u64 = 1;

} // verus!
