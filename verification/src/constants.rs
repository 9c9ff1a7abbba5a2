//! Device constants.

use vstd::prelude::*;

verus! {

/// Default 7-bit bus address of the device.
pub const DEFAULT_I2C_ADDRESS: u8 = 0x36;

/// Watchdog timeout (before it changes power modes), in microseconds.
pub const WATCHDOG_TIMEOUT_US: u64 = 60_000_000;

/// Time to power up the device, in microseconds.
pub const POWER_UP_TIME_US: u64 = 10_000;

/// Sampling rate in normal power mode, in microseconds.
pub const SAMPLE_RATE_US: u64 = 150;

/// Settling time of the slow filter at 16x, in microseconds.
pub const SETTLING_TIME_1_US: u64 = 2_200;

/// Settling time of the slow filter at 8x, in microseconds.
pub const SETTLING_TIME_2_US: u64 = 1_100;

/// Settling time of the slow filter at 4x, in microseconds.
pub const SETTLING_TIME_3_US: u64 = 550;

/// Settling time of the slow filter at 2x, in microseconds.
pub const SETTLING_TIME_4_US: u64 = 286;

} // verus!
