//! Standard error codes carried in `Error` messages.
use vstd::prelude::*;

verus! {

pub const OK: u32 = 0x0000;

pub const UNKNOWN: u32 = 0x0001;

pub const INVALID_MESSAGE: u32 = 0x0002;

pub const UNSUPPORTED_VERSION: u32 = 0x0003;

pub const UNSUPPORTED_TYPE: u32 = 0x0004;

pub const INVALID_PARAMETER: u32 = 0x0005;

pub const TIMEOUT: u32 = 0x0006;

pub const BUSY: u32 = 0x0007;

pub const NOT_READY: u32 = 0x0008;

pub const HARDWARE_FAULT: u32 = 0x0009;

pub const PERMISSION_DENIED: u32 = 0x000A;

/// Vendor-specific error codes start at 0x1000
pub const VENDOR_BASE: u32 = 0x1000;

} // verus!
