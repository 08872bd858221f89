//! OAM Responder - generates replies to incoming probes.
use vstd::prelude::*;

use crate::clock::unix_time_ns;
use crate::oam_id;
use crate::oam_message::{
    is_oam_zbuf_message, oam_zbuf_message, DelayMeasurementPayload, LoopbackPayload,
    SyntheticLossPayload, TransportMessage,
};

verus! {

/// The reply owed to a probe with id `oam_id` and payload `payload`, when the
/// responder has received `rx_probe_count` probes and reads the time `now_ns`:
/// `None` for an unknown id or an undecodable payload.
pub open spec fn spec_probe_reply(oam_id: u16, payload: Seq<u8>, rx_probe_count: u64, now_ns: u64) -> Option<(u16, Seq<u8>)> {
    if oam_id == oam_id::LBM {
        match LoopbackPayload::spec_decode(payload) {
            Some(req) => Some((oam_id::LBR, LoopbackPayload { seq: req.seq, timestamp_ns: req.timestamp_ns }.spec_encode())),
            None => None,
        }
    } else if oam_id == oam_id::DMM {
        match DelayMeasurementPayload::spec_decode(payload) {
            Some(req) => Some((oam_id::DMR, DelayMeasurementPayload { seq: req.seq, t1: req.t1, t2: now_ns, t3: now_ns }.spec_encode())),
            None => None,
        }
    } else if oam_id == oam_id::SLM {
        match SyntheticLossPayload::spec_decode(payload) {
            Some(req) => Some((oam_id::SLR, SyntheticLossPayload { seq: req.seq, tx_counter: req.tx_counter, rx_counter: rx_probe_count }.spec_encode())),
            None => None,
        }
    } else {
        None
    }
}

/// `r` is the transport message for the reply `spec` (both absent, or an OAM
/// message with that id and payload bytes).
pub open spec fn reply_matches(r: Option<TransportMessage>, spec: Option<(u16, Seq<u8>)>) -> bool {
    match spec {
        None => r is None,
        Some((id, bytes)) => r matches Some(m) && is_oam_zbuf_message(m, id, bytes),
    }
}

/// OAM Responder - stateless handler for generating probe replies.
pub struct OamResponder;

impl OamResponder {
    /// Handle an incoming OAM probe and generate a reply if applicable, using
    /// `now_ns` as the receive and send time of a delay measurement reply.
    pub fn handle_probe_at(oam_id: u16, payload: &[u8], rx_probe_count: u64, now_ns: u64) -> (r: Option<TransportMessage>)
        ensures
            reply_matches(r, spec_probe_reply(oam_id, payload@, rx_probe_count, now_ns)),
    {
        if oam_id == oam_id::LBM {
            Self::reply_loopback(payload)
        } else if oam_id == oam_id::DMM {
            Self::reply_delay_measurement(payload, now_ns)
        } else if oam_id == oam_id::SLM {
            Self::reply_synthetic_loss(payload, rx_probe_count)
        } else {
            None
        }
    }

    /// Handle an incoming OAM probe and generate a reply if applicable.
    ///
    /// Returns the reply message to send, or `None` for an unknown probe type
    /// or a payload too short to decode. The reply to a delay measurement
    /// carries the current wall-clock time, which no clause fixes.
    pub fn handle_probe(oam_id: u16, payload: &[u8], rx_probe_count: u64) -> (r: Option<TransportMessage>)
        ensures
            exists|now_ns: u64| reply_matches(r, #[trigger] spec_probe_reply(oam_id, payload@, rx_probe_count, now_ns)),
    {
        let now = unix_time_ns();
        let r = Self::handle_probe_at(oam_id, payload, rx_probe_count, now);
        assert(reply_matches(r, spec_probe_reply(oam_id, payload@, rx_probe_count, now)));
        r
    }

    /// Loopback Reply (LBR): echoes the same payload back to the sender.
    fn reply_loopback(payload: &[u8]) -> (r: Option<TransportMessage>)
        ensures
            reply_matches(r, spec_probe_reply(oam_id::LBM, payload@, 0, 0)),
    {
        let request = LoopbackPayload::decode(payload)?;
        let reply = LoopbackPayload::new(request.seq, request.timestamp_ns);
        let bytes = reply.encode();
        Some(oam_zbuf_message(oam_id::LBR, vstd::array::array_as_slice(&bytes)))
    }

    /// Delay Measurement Reply (DMR): echoes t1, and sets t2 (receive time) and
    /// t3 (send time) both to `now_ns`.
    fn reply_delay_measurement(payload: &[u8], now_ns: u64) -> (r: Option<TransportMessage>)
        ensures
            reply_matches(r, spec_probe_reply(oam_id::DMM, payload@, 0, now_ns)),
    {
        let request = DelayMeasurementPayload::decode(payload)?;
        let reply = DelayMeasurementPayload::new_reply(request.seq, request.t1, now_ns, now_ns);
        let bytes = reply.encode();
        Some(oam_zbuf_message(oam_id::DMR, vstd::array::array_as_slice(&bytes)))
    }

    /// Synthetic Loss Reply (SLR): echoes the sender's tx counter and adds our
    /// rx counter.
    fn reply_synthetic_loss(payload: &[u8], rx_probe_count: u64) -> (r: Option<TransportMessage>)
        ensures
            reply_matches(r, spec_probe_reply(oam_id::SLM, payload@, rx_probe_count, 0)),
    {
        let request = SyntheticLossPayload::decode(payload)?;
        let reply = SyntheticLossPayload::new_reply(request.seq, request.tx_counter, rx_probe_count);
        let bytes = reply.encode();
        Some(oam_zbuf_message(oam_id::SLR, vstd::array::array_as_slice(&bytes)))
    }
}

} // verus!
