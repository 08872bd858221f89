//! Header flags of the OAM transport message.
use vstd::prelude::*;

verus! {

/// Transport flag (0x20).
pub const T: u8 = 0x20;

/// Extension flag (0x80): if set, at least one extension follows.
pub const Z: u8 = 0x80;

} // verus!
