//! Default timeouts of I2C operations, in milliseconds.
use vstd::prelude::*;

verus! {

/// Ultra-fast probing, to see whether the firmware responds.
pub const PROBE: i32 = 3;
/// Device scanning, with stuck-bus protection.
pub const SCAN: i32 = 8;
/// Standard reads.
pub const READ: i32 = 100;
/// Standard writes.
pub const WRITE: i32 = 200;
/// Write-then-read operations.
pub const WRITE_READ: i32 = 250;
/// Longest wait for one operation before the firmware is considered stuck.
pub const FIRMWARE_RESPONSIVENESS: i32 = 100;
/// EEPROM writes, whose page cycles can take seconds.
pub const EEPROM_WRITE: i32 = 5000;

} // verus!
