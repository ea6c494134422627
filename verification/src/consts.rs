//! Limits fixed by the device protocol.

use vstd::prelude::*;

verus! {

/// The most keys one chord may name, and the most key presses one report
/// can carry.
pub const MAX_KEY_PRESSES: usize = 17;

/// The length of every report exchanged with the device.
pub const REPORT_LEN: usize = 65;

/// The first byte of every report.
pub const REPORT_ID: u8 = 0x03;

/// The most layers the device can be programmed with.
pub const MAX_LAYERS: usize = 3;

} // verus!
