//! OAM Prober - sends probes and tracks pending responses.
//!
//! The prober decides; its owner performs the work around it: it takes the
//! message that [`OamProber::send_loopback`] prepares and pushes it on the
//! link at the priority given with it, and it hands every probe reply to
//! [`OamProber::handle_reply`].
use std::collections::HashMap;
use std::time::Instant;
use vstd::prelude::*;
use vstd::std_specs::iter::IteratorSpec;

use crate::clock::{elapsed_ns, instant_now, unix_time_ns};
use crate::metrics::{
    after_delay_reply, after_reply, after_timeouts, lemma_timeouts_count, LinkQualityMetrics,
    MetricsModel,
};
use crate::oam_config::OamConfig;
use crate::oam_id;
use crate::protocol_core::Priority;
use crate::responder::spec_probe_reply;
use crate::oam_message::{
    lemma_delay_roundtrip, lemma_loopback_roundtrip, lemma_loss_roundtrip,
    is_oam_zbuf_message, oam_zbuf_message, DelayMeasurementPayload, LoopbackPayload,
    SyntheticLossPayload, TransportMessage,
};

verus! {

broadcast use vstd::std_specs::hash::group_hash_axioms;

/// Probe types that can be sent.
#[derive(Debug, Clone, Copy, PartialEq, Eq, Structural)]
pub enum ProbeType {
    Loopback,
    DelayMeasurement,
    SyntheticLoss,
}

/// Information about a pending probe awaiting reply.
#[derive(Debug, Clone, Copy)]
pub struct PendingProbe {
    /// When the probe was sent, in nanoseconds on the prober's monotonic clock
    pub sent_at_ns: u64,
    pub probe_type: ProbeType,
}

/// OAM Prober - manages sending probes and processing replies.
pub struct OamProber {
    /// Configuration
    config: OamConfig,
    /// Pending probes awaiting replies (keyed by sequence number)
    pending_probes: HashMap<u32, PendingProbe>,
    /// Sequence number counter
    seq: u32,
    /// Origin of the prober's monotonic clock
    clock_origin: Instant,
}

/// `a - b`, or 0 when `b` exceeds `a`.
pub open spec fn saturating_sub(a: u64, b: u64) -> u64 {
    if a >= b { (a - b) as u64 } else { 0 }
}

/// A loopback probe sent at `now_ns`.
pub open spec fn pending_loopback(now_ns: u64) -> PendingProbe {
    PendingProbe { sent_at_ns: now_ns, probe_type: ProbeType::Loopback }
}

/// The probe `p` has waited more than `timeout` nanoseconds at time `now_ns`.
pub open spec fn timed_out(p: PendingProbe, now_ns: u64, timeout: u64) -> bool {
    saturating_sub(now_ns, p.sent_at_ns) > timeout
}

/// The pending probes that have not timed out at time `now_ns`.
pub open spec fn still_pending(pending: Map<u32, PendingProbe>, now_ns: u64, timeout: u64) -> Map<u32, PendingProbe> {
    pending.restrict(pending.dom().filter(|s: u32| !timed_out(pending[s], now_ns, timeout)))
}

/// The sequence number that a reply with id `oam_id` and payload `payload`
/// answers: `None` for an unknown reply id or an undecodable payload.
pub open spec fn reply_seq(oam_id: u16, payload: Seq<u8>) -> Option<u32> {
    if oam_id == oam_id::LBR {
        match LoopbackPayload::spec_decode(payload) {
            Some(p) => Some(p.seq),
            None => None,
        }
    } else if oam_id == oam_id::DMR {
        match DelayMeasurementPayload::spec_decode(payload) {
            Some(p) => Some(p.seq),
            None => None,
        }
    } else if oam_id == oam_id::SLR {
        match SyntheticLossPayload::spec_decode(payload) {
            Some(p) => Some(p.seq),
            None => None,
        }
    } else {
        None
    }
}

/// One-way delays of a delay measurement reply received at wall-clock time
/// `t4`: forward `t2 - t1` and reverse `t4 - t3`, when `t2 > t1` and `t4 > t3`.
pub open spec fn one_way_delays(reply: DelayMeasurementPayload, t4: u64) -> (Option<u64>, Option<u64>) {
    if reply.t2 > reply.t1 && t4 > reply.t3 {
        (Some((reply.t2 - reply.t1) as u64), Some((t4 - reply.t3) as u64))
    } else {
        (None, None)
    }
}

/// The metrics after an accepted reply with id `oam_id`, payload `payload`,
/// round-trip time `rtt`, received at wall-clock time `wall_ns`.
pub open spec fn metrics_after_reply(m: MetricsModel, oam_id: u16, payload: Seq<u8>, rtt: u64, wall_ns: u64) -> MetricsModel {
    if oam_id == oam_id::DMR {
        let d = one_way_delays(DelayMeasurementPayload::spec_decode(payload).unwrap(), wall_ns);
        after_delay_reply(m, rtt, d.0, d.1)
    } else {
        after_reply(m, rtt)
    }
}

impl OamProber {
    /// The probes awaiting a reply, by sequence number.
    pub closed spec fn pending(&self) -> Map<u32, PendingProbe> {
        self.pending_probes@
    }

    /// The next sequence number to use.
    pub closed spec fn next_sequence(&self) -> u32 {
        self.seq
    }

    /// The configuration.
    pub closed spec fn spec_config(&self) -> OamConfig {
        self.config
    }

    /// Create a new OAM prober.
    pub fn new(config: OamConfig) -> (r: Self)
        ensures
            r.pending() == Map::<u32, PendingProbe>::empty(),
            r.next_sequence() == 0,
            r.spec_config() == config,
    {
        OamProber { config, pending_probes: HashMap::new(), seq: 0, clock_origin: instant_now() }
    }

    /// The number of probes awaiting a reply.
    pub fn pending_count(&self) -> (r: usize)
        ensures
            r == self.pending().len(),
    {
        self.pending_probes.len()
    }

    /// Get the next sequence number (wrapping around after `u32::MAX`).
    fn next_seq(&mut self) -> (r: u32)
        ensures
            r == old(self).next_sequence(),
            final(self).next_sequence() == (if r == u32::MAX { 0 } else { (r + 1) as u32 }),
            final(self).pending() == old(self).pending(),
            final(self).spec_config() == old(self).spec_config(),
    {
        let r = self.seq;
        self.seq = if r == u32::MAX { 0 } else { r + 1 };
        r
    }

    /// Nanoseconds elapsed on the prober's monotonic clock.
    pub fn now_ns(&self) -> u64 {
        elapsed_ns(&instant_now(), &self.clock_origin)
    }

    /// Prepare a loopback probe (LBM) sent at monotonic time `now_ns` and
    /// wall-clock time `timestamp_ns`: the probe is recorded as pending and
    /// counted as sent, and the message to push on the link is returned.
    pub fn send_loopback_at(&mut self, metrics: &mut LinkQualityMetrics, timestamp_ns: u64, now_ns: u64) -> (r: (TransportMessage, Priority))
        requires
            old(metrics).tx_probe_count < u64::MAX,
        ensures
            r.1 == Priority::Background,
            is_oam_zbuf_message(
                r.0,
                oam_id::LBM,
                LoopbackPayload { seq: old(self).next_sequence(), timestamp_ns }.spec_encode(),
            ),
            final(self).pending() == old(self).pending().insert(
                old(self).next_sequence(),
                PendingProbe { sent_at_ns: now_ns, probe_type: ProbeType::Loopback },
            ),
            final(self).next_sequence() == (if old(self).next_sequence() == u32::MAX { 0 } else { (old(self).next_sequence() + 1) as u32 }),
            final(self).spec_config() == old(self).spec_config(),
            final(metrics)@ == (MetricsModel { tx_probe_count: (old(metrics).tx_probe_count + 1) as u64, ..old(metrics)@ }),
            final(metrics).last_probe_sent is Some,
            final(metrics).last_probe_received == old(metrics).last_probe_received,
            final(metrics).metrics_updated == old(metrics).metrics_updated,
    {
        let seq = self.next_seq();
        let payload = LoopbackPayload::new(seq, timestamp_ns);
        let bytes = payload.encode();
        let msg = oam_zbuf_message(oam_id::LBM, vstd::array::array_as_slice(&bytes));
        self.pending_probes.insert(seq, PendingProbe { sent_at_ns: now_ns, probe_type: ProbeType::Loopback });
        metrics.record_probe_sent();
        (msg, Priority::Background)
    }

    /// Prepare a loopback probe (LBM) stamped with the current time; see
    /// [`OamProber::send_loopback_at`].
    pub fn send_loopback(&mut self, metrics: &mut LinkQualityMetrics) -> (r: (TransportMessage, Priority))
        requires
            old(metrics).tx_probe_count < u64::MAX,
        ensures
            r.1 == Priority::Background,
            exists|timestamp_ns: u64| is_oam_zbuf_message(
                r.0,
                oam_id::LBM,
                #[trigger] LoopbackPayload { seq: old(self).next_sequence(), timestamp_ns }.spec_encode(),
            ),
            exists|now_ns: u64| final(self).pending() == old(self).pending().insert(
                old(self).next_sequence(),
                #[trigger] pending_loopback(now_ns),
            ),
            final(self).next_sequence() == (if old(self).next_sequence() == u32::MAX { 0 } else { (old(self).next_sequence() + 1) as u32 }),
            final(self).spec_config() == old(self).spec_config(),
            final(metrics)@ == (MetricsModel { tx_probe_count: (old(metrics).tx_probe_count + 1) as u64, ..old(metrics)@ }),
            final(metrics).last_probe_sent is Some,
            final(metrics).last_probe_received == old(metrics).last_probe_received,
            final(metrics).metrics_updated == old(metrics).metrics_updated,
    {
        let timestamp_ns = unix_time_ns();
        let now_ns = self.now_ns();
        let r = self.send_loopback_at(metrics, timestamp_ns, now_ns);
        assert(is_oam_zbuf_message(r.0, oam_id::LBM, LoopbackPayload { seq: old(self).next_sequence(), timestamp_ns }.spec_encode()));
        assert(final(self).pending() == old(self).pending().insert(
            old(self).next_sequence(),
            pending_loopback(now_ns),
        ));
        r
    }

    /// Remove the pending probe `seq`, giving its round-trip time at `now_ns`.
    fn take_pending(&mut self, seq: u32, now_ns: u64) -> (r: Option<u64>)
        ensures
            old(self).pending().contains_key(seq) ==> {
                &&& r == Some(saturating_sub(now_ns, old(self).pending()[seq].sent_at_ns))
                &&& final(self).pending() == old(self).pending().remove(seq)
            },
            !old(self).pending().contains_key(seq) ==> r is None && final(self).pending() == old(self).pending(),
            final(self).next_sequence() == old(self).next_sequence(),
            final(self).spec_config() == old(self).spec_config(),
    {
        match self.pending_probes.remove(&seq) {
            Some(p) => {
                if now_ns >= p.sent_at_ns {
                    Some(now_ns - p.sent_at_ns)
                } else {
                    Some(0)
                }
            },
            None => {
                assert(self.pending_probes@ =~= old(self).pending_probes@);
                None
            },
        }
    }

    /// Handle a loopback reply (LBR) received at monotonic time `now_ns`.
    fn handle_loopback_reply(&mut self, metrics: &mut LinkQualityMetrics, payload: &[u8], now_ns: u64) -> (r: bool)
        requires
            old(metrics).rx_probe_count < u64::MAX,
        ensures
            r == (reply_seq(oam_id::LBR, payload@) matches Some(s) && old(self).pending().contains_key(s)),
            r ==> {
                let s = reply_seq(oam_id::LBR, payload@).unwrap();
                let rtt = saturating_sub(now_ns, old(self).pending()[s].sent_at_ns);
                &&& final(self).pending() == old(self).pending().remove(s)
                &&& final(metrics)@ == after_reply(old(metrics)@, rtt)
            },
            !r ==> final(self).pending() == old(self).pending() && final(metrics)@ == old(metrics)@,
            !r ==> *final(metrics) == *old(metrics),
            r ==> final(metrics).last_probe_sent == old(metrics).last_probe_sent,
            r ==> final(metrics).last_probe_received == Some(final(metrics).metrics_updated),
            final(self).next_sequence() == old(self).next_sequence(),
            final(self).spec_config() == old(self).spec_config(),
    {
        let reply = match LoopbackPayload::decode(payload) {
            Some(p) => p,
            None => return false,
        };
        let rtt = match self.take_pending(reply.seq, now_ns) {
            Some(rtt) => rtt,
            None => return false,
        };
        metrics.update_from_probe(rtt);
        true
    }

    /// Handle a delay measurement reply (DMR) received at monotonic time
    /// `now_ns` and wall-clock time `wall_ns`: the one-way delays are taken
    /// in when the timestamps are ordered.
    fn handle_delay_reply(&mut self, metrics: &mut LinkQualityMetrics, payload: &[u8], now_ns: u64, wall_ns: u64) -> (r: bool)
        requires
            old(metrics).rx_probe_count < u64::MAX,
        ensures
            r == (reply_seq(oam_id::DMR, payload@) matches Some(s) && old(self).pending().contains_key(s)),
            r ==> {
                let s = reply_seq(oam_id::DMR, payload@).unwrap();
                let rtt = saturating_sub(now_ns, old(self).pending()[s].sent_at_ns);
                &&& final(self).pending() == old(self).pending().remove(s)
                &&& final(metrics)@ == metrics_after_reply(old(metrics)@, oam_id::DMR, payload@, rtt, wall_ns)
            },
            !r ==> final(self).pending() == old(self).pending() && final(metrics)@ == old(metrics)@,
            !r ==> *final(metrics) == *old(metrics),
            r ==> final(metrics).last_probe_sent == old(metrics).last_probe_sent,
            r ==> final(metrics).last_probe_received == Some(final(metrics).metrics_updated),
            final(self).next_sequence() == old(self).next_sequence(),
            final(self).spec_config() == old(self).spec_config(),
    {
        let reply = match DelayMeasurementPayload::decode(payload) {
            Some(p) => p,
            None => return false,
        };
        let rtt = match self.take_pending(reply.seq, now_ns) {
            Some(rtt) => rtt,
            None => return false,
        };
        let t4 = wall_ns;
        let (forward, reverse) = if reply.t2 > reply.t1 && t4 > reply.t3 {
            (Some(reply.t2 - reply.t1), Some(t4 - reply.t3))
        } else {
            (None, None)
        };
        metrics.update_from_delay_measurement(rtt, forward, reverse);
        true
    }

    /// Handle a synthetic loss reply (SLR) received at monotonic time `now_ns`.
    fn handle_loss_reply(&mut self, metrics: &mut LinkQualityMetrics, payload: &[u8], now_ns: u64) -> (r: bool)
        requires
            old(metrics).rx_probe_count < u64::MAX,
        ensures
            r == (reply_seq(oam_id::SLR, payload@) matches Some(s) && old(self).pending().contains_key(s)),
            r ==> {
                let s = reply_seq(oam_id::SLR, payload@).unwrap();
                let rtt = saturating_sub(now_ns, old(self).pending()[s].sent_at_ns);
                &&& final(self).pending() == old(self).pending().remove(s)
                &&& final(metrics)@ == after_reply(old(metrics)@, rtt)
            },
            !r ==> final(self).pending() == old(self).pending() && final(metrics)@ == old(metrics)@,
            !r ==> *final(metrics) == *old(metrics),
            r ==> final(metrics).last_probe_sent == old(metrics).last_probe_sent,
            r ==> final(metrics).last_probe_received == Some(final(metrics).metrics_updated),
            final(self).next_sequence() == old(self).next_sequence(),
            final(self).spec_config() == old(self).spec_config(),
    {
        let reply = match SyntheticLossPayload::decode(payload) {
            Some(p) => p,
            None => return false,
        };
        let rtt = match self.take_pending(reply.seq, now_ns) {
            Some(rtt) => rtt,
            None => return false,
        };
        metrics.update_from_probe(rtt);
        true
    }

    /// Handle an incoming probe reply received at monotonic time `now_ns`
    /// and wall-clock time `wall_ns`.
    ///
    /// Returns true if the reply answered a pending probe; that probe is then
    /// no longer pending and the metrics take in its round-trip time.
    pub fn handle_reply_at(
        &mut self,
        metrics: &mut LinkQualityMetrics,
        oam_id: u16,
        payload: &[u8],
        now_ns: u64,
        wall_ns: u64,
    ) -> (r: bool)
        requires
            old(metrics).rx_probe_count < u64::MAX,
        ensures
            r == (reply_seq(oam_id, payload@) matches Some(s) && old(self).pending().contains_key(s)),
            r ==> {
                let s = reply_seq(oam_id, payload@).unwrap();
                let rtt = saturating_sub(now_ns, old(self).pending()[s].sent_at_ns);
                &&& final(self).pending() == old(self).pending().remove(s)
                &&& final(metrics)@ == metrics_after_reply(old(metrics)@, oam_id, payload@, rtt, wall_ns)
            },
            !r ==> final(self).pending() == old(self).pending() && final(metrics)@ == old(metrics)@,
            !r ==> *final(metrics) == *old(metrics),
            r ==> final(metrics).last_probe_sent == old(metrics).last_probe_sent,
            r ==> final(metrics).last_probe_received == Some(final(metrics).metrics_updated),
            final(self).next_sequence() == old(self).next_sequence(),
            final(self).spec_config() == old(self).spec_config(),
    {
        if oam_id == oam_id::LBR {
            self.handle_loopback_reply(metrics, payload, now_ns)
        } else if oam_id == oam_id::DMR {
            self.handle_delay_reply(metrics, payload, now_ns, wall_ns)
        } else if oam_id == oam_id::SLR {
            self.handle_loss_reply(metrics, payload, now_ns)
        } else {
            false
        }
    }

    /// Handle an incoming probe reply, read at the current time; see
    /// [`OamProber::handle_reply_at`]. Returns true if the reply was handled.
    pub fn handle_reply(&mut self, metrics: &mut LinkQualityMetrics, oam_id: u16, payload: &[u8]) -> (r: bool)
        requires
            old(metrics).rx_probe_count < u64::MAX,
        ensures
            r == (reply_seq(oam_id, payload@) matches Some(s) && old(self).pending().contains_key(s)),
            r ==> final(self).pending() == old(self).pending().remove(reply_seq(oam_id, payload@).unwrap()),
            r ==> exists|rtt: u64, wall_ns: u64| final(metrics)@ == #[trigger] metrics_after_reply(old(metrics)@, oam_id, payload@, rtt, wall_ns),
            !r ==> final(self).pending() == old(self).pending() && final(metrics)@ == old(metrics)@,
            !r ==> *final(metrics) == *old(metrics),
            r ==> final(metrics).last_probe_sent == old(metrics).last_probe_sent,
            r ==> final(metrics).last_probe_received == Some(final(metrics).metrics_updated),
            final(self).next_sequence() == old(self).next_sequence(),
            final(self).spec_config() == old(self).spec_config(),
    {
        let now_ns = self.now_ns();
        let wall_ns = unix_time_ns();
        let r = self.handle_reply_at(metrics, oam_id, payload, now_ns, wall_ns);
        proof {
            if r {
                let s = reply_seq(oam_id, payload@).unwrap();
                let rtt = saturating_sub(now_ns, old(self).pending()[s].sent_at_ns);
                assert(final(metrics)@ == metrics_after_reply(old(metrics)@, oam_id, payload@, rtt, wall_ns));
            }
        }
        r
    }


    /// The sequence numbers of the probes that have timed out at `now_ns`.
    fn timed_out_seqs(&self, now_ns: u64) -> (r: Vec<u32>)
        ensures
            r@.to_set() == self.pending().dom().filter(|s: u32| timed_out(self.pending()[s], now_ns, self.spec_config().probe_timeout)),
    {
        let timeout = self.config.probe_timeout;
        let ghost m = self.pending_probes@;
        let mut r: Vec<u32> = Vec::new();
        let keys = self.pending_probes.keys();
        let ghost ks = vstd::std_specs::hash::spec_keys_iter(&self.pending_probes).remaining();
        proof {
            vstd::std_specs::hash::axiom_spec_keys_iter(&self.pending_probes);
        }
        for k in it: keys
            invariant
                m == self.pending_probes@,
                timeout == self.config.probe_timeout,
                it.seq() == ks,
                ks.unref().to_set() == m.dom(),
                forall|j: int| 0 <= j < r@.len() ==> m.contains_key(#[trigger] r@[j]) && timed_out(m[r@[j]], now_ns, timeout),
                forall|i: int| 0 <= i < it.index() && timed_out(m[*ks[i]], now_ns, timeout) ==> r@.contains(*#[trigger] ks[i]),
            ensures
                forall|j: int| 0 <= j < r@.len() ==> m.contains_key(#[trigger] r@[j]) && timed_out(m[r@[j]], now_ns, timeout),
                forall|i: int| 0 <= i < ks.len() && timed_out(m[*ks[i]], now_ns, timeout) ==> r@.contains(*#[trigger] ks[i]),
        {
            let ghost idx = it.index();
            let ghost old_r = r@;
            assert(*k == *ks[idx]);
            assert(ks.unref()[idx] == *k);
            assert(m.contains_key(*k));
            let p = self.pending_probes.get(k).unwrap();
            assert(*p == m[*k]);
            if now_ns >= p.sent_at_ns && now_ns - p.sent_at_ns > timeout {
                r.push(*k);
            }
            proof {
                assert forall|i: int| 0 <= i < idx + 1 && timed_out(m[*ks[i]], now_ns, timeout) implies r@.contains(*#[trigger] ks[i]) by {
                    if i < idx {
                        assert(old_r.contains(*ks[i]));
                        let j = choose|j: int| 0 <= j < old_r.len() && old_r[j] == *ks[i];
                        assert(r@[j] == *ks[i]);
                    } else {
                        assert(r@[r@.len() - 1] == *ks[i]);
                    }
                }
            }
        }
        proof {
            let target = m.dom().filter(|s: u32| timed_out(m[s], now_ns, timeout));
            assert forall|s: u32| #[trigger] r@.to_set().contains(s) implies target.contains(s) by {
                let j = choose|j: int| 0 <= j < r@.len() && r@[j] == s;
            }
            assert forall|s: u32| #[trigger] target.contains(s) implies r@.to_set().contains(s) by {
                assert(ks.unref().to_set().contains(s));
                let i = choose|i: int| 0 <= i < ks.unref().len() && ks.unref()[i] == s;
                assert(*ks[i] == s);
            }
            assert(r@.to_set() =~= target);
        }
        r
    }

    /// Check for timed-out probes at monotonic time `now_ns`: every probe that
    /// has waited more than the probe timeout stops being pending and counts
    /// as one timeout in the metrics.
    pub fn check_timeouts_at(&mut self, metrics: &mut LinkQualityMetrics, now_ns: u64)
        requires
            old(metrics).consecutive_failures + old(self).pending().len() <= u32::MAX,
        ensures
            final(self).pending() == still_pending(old(self).pending(), now_ns, old(self).spec_config().probe_timeout),
            final(metrics)@ == after_timeouts(
                old(metrics)@,
                old(self).spec_config().failure_threshold,
                (old(self).pending().len() - final(self).pending().len()) as nat,
            ),
            final(metrics).last_probe_sent == old(metrics).last_probe_sent,
            final(metrics).last_probe_received == old(metrics).last_probe_received,
            final(self).next_sequence() == old(self).next_sequence(),
            final(self).spec_config() == old(self).spec_config(),
    {
        let threshold = self.config.failure_threshold;
        let ghost timeout = self.config.probe_timeout;
        let ghost old_p = self.pending_probes@;
        let ghost m0 = metrics@;
        let expired = self.timed_out_seqs(now_ns);
        let ghost expired_set = old_p.dom().filter(|s: u32| timed_out(old_p[s], now_ns, timeout));
        let ghost mut removed: nat = 0;
        let mut i: usize = 0;
        while i < expired.len()
            invariant
                0 <= i <= expired@.len(),
                expired@.to_set() == expired_set,
                expired_set == old_p.dom().filter(|s: u32| timed_out(old_p[s], now_ns, timeout)),
                old_p.dom().finite(),
                self.pending_probes@.dom().finite(),
                forall|s: u32| #[trigger] self.pending_probes@.contains_key(s) <==> old_p.contains_key(s) && !expired@.take(i as int).contains(s),
                forall|s: u32| self.pending_probes@.contains_key(s) ==> #[trigger] self.pending_probes@[s] == old_p[s],
                self.pending_probes@.len() + removed == old_p.len(),
                m0.consecutive_failures + old_p.len() <= u32::MAX,
                metrics@ == after_timeouts(m0, threshold, removed),
                metrics.last_probe_sent == old(metrics).last_probe_sent,
                metrics.last_probe_received == old(metrics).last_probe_received,
                self.seq == old(self).seq,
                self.config == old(self).config,
                threshold == self.config.failure_threshold,
            decreases expired@.len() - i,
        {
            let s = expired[i];
            let ghost before = self.pending_probes@;
            let mut pending: HashMap<u32, PendingProbe> = HashMap::new();
            std::mem::swap(&mut pending, &mut self.pending_probes);
            let gone = pending.remove(&s);
            self.pending_probes = pending;
            if gone.is_some() {
                proof {
                    assert(before.contains_key(s));
                    assert(before.dom().remove(s).len() == before.len() - 1);
                    lemma_timeouts_count(m0, threshold, removed);
                }
                metrics.record_timeout(threshold);
                proof {
                    removed = removed + 1;
                }
            } else {
                assert(self.pending_probes@ =~= before);
            }
            proof {
                let t0 = expired@.take(i as int);
                let t1 = expired@.take(i + 1);
                assert(t1 =~= t0.push(s));
                assert forall|x: u32| #[trigger] t1.contains(x) <==> t0.contains(x) || x == s by {
                    if t1.contains(x) {
                        let j = choose|j: int| 0 <= j < t1.len() && t1[j] == x;
                        if j < t0.len() {
                            assert(t0[j] == x);
                        }
                    }
                    if t0.contains(x) {
                        let j = choose|j: int| 0 <= j < t0.len() && t0[j] == x;
                        assert(t1[j] == x);
                    }
                    if x == s {
                        assert(t1[i as int] == x);
                    }
                }
            }
            i = i + 1;
        }
        proof {
            assert(expired@.take(expired@.len() as int) =~= expired@);
            assert forall|x: u32| #[trigger] expired@.contains(x) <==> expired_set.contains(x) by {
                if expired@.contains(x) {
                    assert(expired@.to_set().contains(x));
                }
                if expired_set.contains(x) {
                    assert(expired@.to_set().contains(x));
                }
            }
            assert(self.pending_probes@ =~= still_pending(old_p, now_ns, timeout));
        }
    }

    /// Check for timed-out probes at the current time; see
    /// [`OamProber::check_timeouts_at`].
    pub fn check_timeouts(&mut self, metrics: &mut LinkQualityMetrics)
        requires
            old(metrics).consecutive_failures + old(self).pending().len() <= u32::MAX,
        ensures
            exists|now_ns: u64| final(self).pending() == #[trigger] still_pending(old(self).pending(), now_ns, old(self).spec_config().probe_timeout),
            final(metrics)@ == after_timeouts(
                old(metrics)@,
                old(self).spec_config().failure_threshold,
                (old(self).pending().len() - final(self).pending().len()) as nat,
            ),
            final(self).next_sequence() == old(self).next_sequence(),
            final(self).spec_config() == old(self).spec_config(),
    {
        let now_ns = self.now_ns();
        self.check_timeouts_at(metrics, now_ns);
    }

    /// Get the current probe timeout setting, in nanoseconds.
    pub fn probe_timeout(&self) -> (r: u64)
        ensures
            r == self.spec_config().probe_timeout,
    {
        self.config.probe_timeout
    }

    /// Get the current probe interval setting, in nanoseconds.
    pub fn probe_interval(&self) -> (r: u64)
        ensures
            r == self.spec_config().probe_interval,
    {
        self.config.probe_interval
    }
}


/// The reply that the responder gives to a probe answers that probe: for each
/// probe kind, the reply carries the reply id and the probe's sequence number.
pub proof fn lemma_reply_answers_probe(seq: u32, timestamp_ns: u64, tx_counter: u64, rx_probe_count: u64, now_ns: u64)
    ensures
        ({
            let probe = LoopbackPayload { seq, timestamp_ns }.spec_encode();
            spec_probe_reply(oam_id::LBM, probe, rx_probe_count, now_ns) matches Some((id, bytes))
                && id == oam_id::LBR && reply_seq(id, bytes) == Some(seq)
                && bytes == probe
        }),
        ({
            let probe = DelayMeasurementPayload { seq, t1: timestamp_ns, t2: 0, t3: 0 }.spec_encode();
            spec_probe_reply(oam_id::DMM, probe, rx_probe_count, now_ns) matches Some((id, bytes))
                && id == oam_id::DMR && reply_seq(id, bytes) == Some(seq)
                && DelayMeasurementPayload::spec_decode(bytes) == Some(DelayMeasurementPayload { seq, t1: timestamp_ns, t2: now_ns, t3: now_ns })
        }),
        ({
            let probe = SyntheticLossPayload { seq, tx_counter, rx_counter: 0 }.spec_encode();
            spec_probe_reply(oam_id::SLM, probe, rx_probe_count, now_ns) matches Some((id, bytes))
                && id == oam_id::SLR && reply_seq(id, bytes) == Some(seq)
                && SyntheticLossPayload::spec_decode(bytes) == Some(SyntheticLossPayload { seq, tx_counter, rx_counter: rx_probe_count })
        }),
{
    let lp = LoopbackPayload { seq, timestamp_ns };
    lemma_loopback_roundtrip(lp, Seq::empty());
    let dp = DelayMeasurementPayload { seq, t1: timestamp_ns, t2: 0, t3: 0 };
    lemma_delay_roundtrip(dp, Seq::empty());
    lemma_delay_roundtrip(DelayMeasurementPayload { seq, t1: timestamp_ns, t2: now_ns, t3: now_ns }, Seq::empty());
    let sp = SyntheticLossPayload { seq, tx_counter, rx_counter: 0 };
    lemma_loss_roundtrip(sp, Seq::empty());
    lemma_loss_roundtrip(SyntheticLossPayload { seq, tx_counter, rx_counter: rx_probe_count }, Seq::empty());
}

/// A reply that answers a pending probe settles it once: the probe is no
/// longer pending, so the same reply a second time is not accepted, and a
/// probe sent with a fresh sequence number and then answered leaves the other
/// pending probes as they were.
pub proof fn lemma_probe_settled_once(pending: Map<u32, PendingProbe>, seq: u32, probe: PendingProbe)
    requires
        !pending.contains_key(seq),
    ensures
        pending.insert(seq, probe).contains_key(seq),
        !pending.insert(seq, probe).remove(seq).contains_key(seq),
        pending.insert(seq, probe).remove(seq) == pending,
{
    assert(pending.insert(seq, probe).remove(seq) =~= pending);
}

/// Timing out keeps exactly the probes that have not waited too long, and a
/// second check at the same time times out nothing more.
pub proof fn lemma_timeouts_idempotent(pending: Map<u32, PendingProbe>, now_ns: u64, timeout: u64)
    ensures
        forall|s: u32| #[trigger] still_pending(pending, now_ns, timeout).contains_key(s) <==> pending.contains_key(s)
            && !timed_out(pending[s], now_ns, timeout),
        still_pending(still_pending(pending, now_ns, timeout), now_ns, timeout) == still_pending(pending, now_ns, timeout),
{
    let once = still_pending(pending, now_ns, timeout);
    assert(still_pending(once, now_ns, timeout) =~= once);
}

/// A probe times out exactly when it has waited longer than the timeout: at
/// time `now_ns`, the probes still pending after a check are those whose
/// send time is after `now_ns` or within `timeout` of it, each unchanged.
pub proof fn lemma_timeout_rule(pending: Map<u32, PendingProbe>, now_ns: u64, timeout: u64, s: u32)
    ensures
        timed_out(pending[s], now_ns, timeout) <==> (now_ns >= pending[s].sent_at_ns && now_ns - pending[s].sent_at_ns > timeout),
        still_pending(pending, now_ns, timeout).contains_key(s) <==> (pending.contains_key(s)
            && !(now_ns >= pending[s].sent_at_ns && now_ns - pending[s].sent_at_ns > timeout)),
        still_pending(pending, now_ns, timeout).contains_key(s) ==> still_pending(pending, now_ns, timeout)[s] == pending[s],
{
}

} // verus!
