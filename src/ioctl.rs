//! The control-call contract of the Linux watchdog driver
//! (`include/uapi/linux/watchdog.h`): the interface class byte, the
//! per-operation numbers and the identity record.
use vstd::prelude::*;

verus! {

/// Interface class byte of the watchdog control calls.
pub const WATCHDOG_IOCTL_BASE: u8 = 87;

/// Read the identity record.
pub const WDIOC_GETSUPPORT: u8 = 0;

/// Read the current status bitmask.
pub const WDIOC_GETSTATUS: u8 = 1;

/// Read the status bitmask at last boot.
pub const WDIOC_GETBOOTSTATUS: u8 = 2;

/// Read the temperature.
pub const WDIOC_GETTEMP: u8 = 3;

/// Request a settable operation.
pub const WDIOC_SETOPTIONS: u8 = 4;

/// Ping the watchdog.
pub const WDIOC_KEEPALIVE: u8 = 5;

/// Write the timeout, read back the accepted one.
pub const WDIOC_SETTIMEOUT: u8 = 6;

/// Read the timeout.
pub const WDIOC_GETTIMEOUT: u8 = 7;

/// Write the pretimeout, read back the accepted one.
pub const WDIOC_SETPRETIMEOUT: u8 = 8;

/// Read the pretimeout.
pub const WDIOC_GETPRETIMEOUT: u8 = 9;

/// Read the seconds left before a reset.
pub const WDIOC_GETTIMELEFT: u8 = 10;

/// Length of the identity buffer of the driver's record.
pub const IDENTITY_STR_LEN: usize = 32;

/// The record that the driver fills on a support query:
///
/// ```text
/// struct watchdog_info {
///     __u32 options;          /* Options the card/driver supports */
///     __u32 firmware_version; /* Firmware version of the card */
///     __u8  identity[32];     /* Identity of the board */
/// };
/// ```
#[allow(non_camel_case_types)]
pub struct watchdog_info {
    /// Flags describing what the device supports
    pub options: u32,
    /// The firmware version of the card if available
    pub firmware_version: u32,
    /// a string identifying the watchdog driver
    pub identity: [u8; IDENTITY_STR_LEN],
}

impl watchdog_info {
    /// A zeroed record, ready to be filled by the driver.
    pub fn new() -> (r: Self)
        ensures
            r.options == 0,
            r.firmware_version == 0,
            r.identity@ == Seq::new(IDENTITY_STR_LEN as nat, |i: int| 0u8),
    {
        watchdog_info { options: 0, firmware_version: 0, identity: [0u8; IDENTITY_STR_LEN] }
    }
}

} // verus!
