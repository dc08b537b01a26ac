//! What the engine needs to know of the monitor.
//!
//! Reading and writing the monitor's brightness register is the business of
//! the thread that owns the monitor handle. The one decision taken here is
//! which refresh rate to assume.

use vstd::prelude::*;

verus! {

/// Code of the brightness feature in the monitor's control-panel protocol.
pub const BRIGHTNESS_VCP_CODE: u8 = 0x10;

/// The refresh rate assumed when the monitor does not tell its own.
pub const DEFAULT_REFRESH_RATE_HZ: u16 = 60;

/// The refresh rate in hertz that a timing report gives. The report holds
/// the vertical frequency in hundredths of a hertz. When there is no report,
/// or the report gives less than one hertz, the rate is the default.
pub open spec fn refresh_rate_spec(vertical_frequency: Option<u16>) -> int {
    match vertical_frequency {
        Some(frequency) => if frequency >= 100 {
            frequency as int / 100
        } else {
            DEFAULT_REFRESH_RATE_HZ as int
        },
        None => DEFAULT_REFRESH_RATE_HZ as int,
    }
}

/// Derives the refresh rate from the vertical frequency of the monitor's
/// timing report, or from `None` if the monitor gave no report. The rate is
/// never zero.
pub fn refresh_rate_hz(vertical_frequency: Option<u16>) -> (rate: u16)
    ensures
        rate == refresh_rate_spec(vertical_frequency),
        rate >= 1,
{
    match vertical_frequency {
        Some(frequency) => if frequency >= 100 {
            frequency / 100
        } else {
            DEFAULT_REFRESH_RATE_HZ
        },
        None => DEFAULT_REFRESH_RATE_HZ,
    }
}

} // verus!
