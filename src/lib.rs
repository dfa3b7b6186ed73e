//! Supervision of a Linux watchdog timer.
//!
//! The library holds the verified part of a watchdog client: the capability
//! and option flags, the identity record that the driver fills, the mapping
//! of each control call's outcome to the value handed back to the caller,
//! the name of the device node, and the decisions of the keep-alive
//! supervisor. Opening the device, the control calls themselves, the magic
//! close write and the supervisor's thread are the caller's part.
pub mod ioctl;
pub mod keepalive;
pub mod watchdog_device;

pub use ioctl::watchdog_info;
pub use keepalive::{KeepAliveAction, KeepAliveEvent, KeepAliveSupervisor};
pub use watchdog_device::{OptionFlags, SetOptionFlags};
