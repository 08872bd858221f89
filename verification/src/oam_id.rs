//! OAM message identifiers for link quality measurement probes.
//!
//! These IDs follow a request/reply pattern where even IDs are requests
//! and odd IDs are the corresponding replies.
use vstd::prelude::*;

verus! {

/// Loopback Message - Simple ping for RTT measurement
pub const LBM: u16 = 0x0010;

/// Loopback Reply - Response to LBM
pub const LBR: u16 = 0x0011;

/// Delay Measurement Message - 4-timestamp protocol for one-way delay
pub const DMM: u16 = 0x0020;

/// Delay Measurement Reply - Response to DMM with timestamps
pub const DMR: u16 = 0x0021;

/// Synthetic Loss Message - Packet loss measurement
pub const SLM: u16 = 0x0030;

/// Synthetic Loss Reply - Response to SLM with counters
pub const SLR: u16 = 0x0031;

/// Requests have even ids, and each reply's id follows its request's.
pub proof fn lemma_reply_follows_request()
    ensures
        LBM % 2 == 0 && DMM % 2 == 0 && SLM % 2 == 0,
        LBR == LBM + 1 && DMR == DMM + 1 && SLR == SLM + 1,
{
}

} // verus!
