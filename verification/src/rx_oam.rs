//! What the receive path does with an incoming OAM message: answer a probe,
//! hand a probe reply to the prober, or drop it.
use vstd::prelude::*;

use crate::clock::unix_time_ns;
use crate::oam_id;
use crate::oam_message::{Oam, TransportMessage, ZExtBody};
use crate::protocol_core::Priority;
use crate::responder::{reply_matches, spec_probe_reply, OamResponder};
use vstd::bytes::{spec_u64_to_le_bytes, u64_to_le_bytes};

verus! {

/// The bytes carried by an OAM body: the buffer itself, the little-endian
/// bytes of a 64-bit value, or nothing.
pub open spec fn spec_payload_bytes(body: ZExtBody) -> Seq<u8> {
    match body {
        ZExtBody::ZBuf(b) => b@,
        ZExtBody::Z64(v) => spec_u64_to_le_bytes(v),
        ZExtBody::Unit => Seq::empty(),
    }
}

/// Extract the payload bytes of an OAM body.
pub fn payload_bytes(body: &ZExtBody) -> (r: Vec<u8>)
    ensures
        r@ == spec_payload_bytes(*body),
{
    match body {
        ZExtBody::ZBuf(b) => {
            let mut bytes: Vec<u8> = Vec::new();
            let mut i: usize = 0;
            while i < b.len()
                invariant
                    0 <= i <= b@.len(),
                    bytes@ == b@.take(i as int),
                decreases b@.len() - i,
            {
                bytes.push(b[i]);
                proof {
                    assert(b@.take(i + 1) =~= b@.take(i as int).push(b@[i as int]));
                }
                i = i + 1;
            }
            proof {
                assert(b@.take(b@.len() as int) =~= b@);
            }
            bytes
        },
        ZExtBody::Z64(v) => u64_to_le_bytes(*v),
        ZExtBody::Unit => {
            let r: Vec<u8> = Vec::new();
            assert(r@ =~= Seq::<u8>::empty());
            r
        },
    }
}

/// What to do with an incoming OAM message.
#[derive(Debug)]
pub enum OamAction {
    /// Push this reply on the pipeline of the link the probe came from, at
    /// this priority
    SendReply(TransportMessage, Priority),
    /// Hand this probe reply (id and payload bytes) to the link's prober
    ToProber(u16, Vec<u8>),
    /// Nothing to do: an unknown id, or a probe whose payload does not decode
    Drop,
}

/// The id is a probe request (LBM, DMM or SLM).
pub open spec fn is_probe_request(id: u16) -> bool {
    id == oam_id::LBM || id == oam_id::DMM || id == oam_id::SLM
}

/// The id is a probe reply (LBR, DMR or SLR).
pub open spec fn is_probe_reply(id: u16) -> bool {
    id == oam_id::LBR || id == oam_id::DMR || id == oam_id::SLR
}

/// `r` is what a probe request `oam` is owed when its link has received
/// `rx_probe_count` probes and the time read is `now_ns`: the reply, pushed
/// at background priority, or nothing when the payload does not decode.
pub open spec fn answers_probe_request(oam: Oam, rx_probe_count: u64, now_ns: u64, r: OamAction) -> bool {
    let reply = spec_probe_reply(oam.id, spec_payload_bytes(oam.body), rx_probe_count, now_ns);
    match r {
        OamAction::SendReply(m, p) => p == Priority::Background && reply_matches(Some(m), reply),
        OamAction::Drop => reply is None,
        OamAction::ToProber(_, _) => false,
    }
}

/// Decide what to do with an incoming OAM message, given the number of
/// probes received on its link (0 when unknown) and the time `now_ns`:
/// probe requests are answered, probe replies go to the prober, anything else
/// is dropped.
pub fn oam_action_at(oam: &Oam, rx_probe_count: u64, now_ns: u64) -> (r: OamAction)
    ensures
        is_probe_request(oam.id) ==> answers_probe_request(*oam, rx_probe_count, now_ns, r),
        is_probe_reply(oam.id) ==> (r matches OamAction::ToProber(id, bytes) && id == oam.id && bytes@ == spec_payload_bytes(oam.body)),
        !is_probe_request(oam.id) && !is_probe_reply(oam.id) ==> r is Drop,
{
    let payload = payload_bytes(&oam.body);
    if oam.id == oam_id::LBM || oam.id == oam_id::DMM || oam.id == oam_id::SLM {
        match OamResponder::handle_probe_at(oam.id, payload.as_slice(), rx_probe_count, now_ns) {
            Some(reply) => OamAction::SendReply(reply, Priority::Background),
            None => OamAction::Drop,
        }
    } else if oam.id == oam_id::LBR || oam.id == oam_id::DMR || oam.id == oam_id::SLR {
        OamAction::ToProber(oam.id, payload)
    } else {
        OamAction::Drop
    }
}

/// Decide what to do with an incoming OAM message, reading the current time
/// for a delay measurement reply; see [`oam_action_at`].
pub fn oam_action(oam: &Oam, rx_probe_count: u64) -> (r: OamAction)
    ensures
        is_probe_reply(oam.id) ==> (r matches OamAction::ToProber(id, bytes) && id == oam.id && bytes@ == spec_payload_bytes(oam.body)),
        !is_probe_request(oam.id) && !is_probe_reply(oam.id) ==> r is Drop,
        is_probe_request(oam.id) ==> exists|now_ns: u64| #[trigger] answers_probe_request(*oam, rx_probe_count, now_ns, r),
{
    let now_ns = unix_time_ns();
    let r = oam_action_at(oam, rx_probe_count, now_ns);
    assert(is_probe_request(oam.id) ==> answers_probe_request(*oam, rx_probe_count, now_ns, r));
    r
}

} // verus!
