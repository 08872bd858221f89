//! Link quality metrics collected from OAM probes.
//!
//! Durations are kept in nanoseconds. Averages use the exponential moving
//! average with weight 1/16 recommended by RFC 3550; the loss ratio is kept as
//! the pair of counters it is computed from.
use std::time::Instant;
use vstd::prelude::*;

use crate::clock::instant_now;

verus! {

/// Link operational state based on probe responses.
#[derive(Debug, Clone, Copy, PartialEq, Eq, Structural)]
pub enum LinkState {
    /// Initial state, no probes exchanged yet
    Unknown,
    /// Link is responding normally
    Operational,
    /// Link is responding but with degraded metrics
    Degraded,
    /// Link is marginally operational
    Marginal,
    /// Link is not responding
    Failed,
}

impl Default for LinkState {
    fn default() -> (r: Self)
        ensures
            r == LinkState::Unknown,
    {
        LinkState::Unknown
    }
}

/// The measurable content of [`LinkQualityMetrics`]: everything but the clock readings.
pub struct MetricsModel {
    pub rtt_current: u64,
    pub rtt_min: u64,
    pub rtt_max: u64,
    pub rtt_avg: u64,
    pub jitter: u64,
    pub forward_delay: Option<u64>,
    pub reverse_delay: Option<u64>,
    pub tx_probe_count: u64,
    pub rx_probe_count: u64,
    pub loss_tx_count: u64,
    pub loss_rx_count: u64,
    pub state: LinkState,
    pub consecutive_failures: u32,
    pub is_alive: bool,
    pub prev_rtt: Option<u64>,
}

/// Per-link quality metrics collected from OAM probes.
///
/// `rtt_min` holds `u64::MAX` until the first reply, standing for "no sample".
#[derive(Debug, Clone)]
pub struct LinkQualityMetrics {
    /// Current RTT (last measurement), in nanoseconds
    pub rtt_current: u64,
    /// Minimum observed RTT, in nanoseconds
    pub rtt_min: u64,
    /// Maximum observed RTT, in nanoseconds
    pub rtt_max: u64,
    /// Exponential moving average RTT, in nanoseconds
    pub rtt_avg: u64,
    /// Jitter calculated using the RFC 3550 algorithm, in nanoseconds
    pub jitter: u64,
    /// Forward delay: local -> remote (if available), in nanoseconds
    pub forward_delay: Option<u64>,
    /// Reverse delay: remote -> local (if available), in nanoseconds
    pub reverse_delay: Option<u64>,
    /// Total probes sent
    pub tx_probe_count: u64,
    /// Total probe replies received
    pub rx_probe_count: u64,
    /// Probes sent when the loss ratio was last computed (0: ratio is 0)
    pub loss_tx_count: u64,
    /// Replies received when the loss ratio was last computed
    pub loss_rx_count: u64,
    /// Current link state
    pub state: LinkState,
    /// Consecutive probe failures
    pub consecutive_failures: u32,
    /// Whether the link is considered alive
    pub is_alive: bool,
    /// When the last probe was sent
    pub last_probe_sent: Option<Instant>,
    /// When the last probe reply was received
    pub last_probe_received: Option<Instant>,
    /// When metrics were last updated
    pub metrics_updated: Instant,
    /// Previous RTT for the jitter calculation, in nanoseconds
    pub prev_rtt: Option<u64>,
}

/// The loss ratio `1 - rx/tx` exceeds 10% (0 when `tx` is 0).
pub open spec fn loss_above_tenth(rx: u64, tx: u64) -> bool {
    tx > 0 && 10 * (tx - rx) > tx
}

/// The loss ratio `1 - rx/tx` exceeds 1% (0 when `tx` is 0).
pub open spec fn loss_above_hundredth(rx: u64, tx: u64) -> bool {
    tx > 0 && 100 * (tx - rx) > tx
}

/// One step of the moving average with weight 1/16: `avg + (x - avg) / 16`, rounded down.
pub open spec fn ema16(avg: u64, x: u64) -> u64 {
    ((15 * avg + x) / 16) as u64
}

/// `|a - b|`.
pub open spec fn abs_diff(a: u64, b: u64) -> u64 {
    if a > b { (a - b) as u64 } else { (b - a) as u64 }
}

/// The state derived from the counters (the rule applied after a reply):
/// failures first, then loss above 10% (Marginal), above 1% (Degraded), then
/// Operational once a reply was received; otherwise the state is kept.
pub open spec fn derived_state(m: MetricsModel) -> LinkState {
    if m.consecutive_failures > 0 {
        if m.is_alive { LinkState::Degraded } else { LinkState::Failed }
    } else if loss_above_tenth(m.loss_rx_count, m.loss_tx_count) {
        LinkState::Marginal
    } else if loss_above_hundredth(m.loss_rx_count, m.loss_tx_count) {
        LinkState::Degraded
    } else if m.rx_probe_count > 0 {
        LinkState::Operational
    } else {
        m.state
    }
}

/// Metrics before any probe.
pub open spec fn initial_model() -> MetricsModel {
    MetricsModel {
        rtt_current: 0,
        rtt_min: u64::MAX,
        rtt_max: 0,
        rtt_avg: 0,
        jitter: 0,
        forward_delay: None,
        reverse_delay: None,
        tx_probe_count: 0,
        rx_probe_count: 0,
        loss_tx_count: 0,
        loss_rx_count: 0,
        state: LinkState::Unknown,
        consecutive_failures: 0,
        is_alive: false,
        prev_rtt: None,
    }
}

/// The loss counters after recomputing the ratio (only when a probe was sent).
pub open spec fn with_loss_recomputed(m: MetricsModel) -> MetricsModel {
    if m.tx_probe_count > 0 {
        MetricsModel { loss_tx_count: m.tx_probe_count, loss_rx_count: m.rx_probe_count, ..m }
    } else {
        m
    }
}

/// Metrics after a probe was sent.
pub open spec fn after_probe_sent(m: MetricsModel) -> MetricsModel {
    MetricsModel { tx_probe_count: (m.tx_probe_count + 1) as u64, ..m }
}

/// Metrics after a reply with round-trip time `rtt`.
pub open spec fn after_reply(m: MetricsModel, rtt: u64) -> MetricsModel {
    let counted = MetricsModel {
        rtt_current: rtt,
        rtt_min: if rtt < m.rtt_min { rtt } else { m.rtt_min },
        rtt_max: if rtt > m.rtt_max { rtt } else { m.rtt_max },
        rtt_avg: if m.rx_probe_count == 0 { rtt } else { ema16(m.rtt_avg, rtt) },
        jitter: match m.prev_rtt {
            Some(prev) => ema16(m.jitter, abs_diff(rtt, prev)),
            None => m.jitter,
        },
        prev_rtt: Some(rtt),
        rx_probe_count: (m.rx_probe_count + 1) as u64,
        consecutive_failures: 0,
        is_alive: true,
        ..m
    };
    let recomputed = with_loss_recomputed(counted);
    MetricsModel { state: derived_state(recomputed), ..recomputed }
}

/// Metrics after a delay-measurement reply.
pub open spec fn after_delay_reply(
    m: MetricsModel,
    rtt: u64,
    forward: Option<u64>,
    reverse: Option<u64>,
) -> MetricsModel {
    MetricsModel { forward_delay: forward, reverse_delay: reverse, ..after_reply(m, rtt) }
}

/// Metrics after a probe timed out, with the given failure threshold.
pub open spec fn after_timeout(m: MetricsModel, failure_threshold: u32) -> MetricsModel {
    let failures = (m.consecutive_failures + 1) as u32;
    let counted = if failures >= failure_threshold {
        MetricsModel {
            consecutive_failures: failures,
            is_alive: false,
            state: LinkState::Failed,
            ..m
        }
    } else {
        MetricsModel { consecutive_failures: failures, state: LinkState::Degraded, ..m }
    };
    with_loss_recomputed(counted)
}

/// Metrics after `n` timeouts in a row.
pub open spec fn after_timeouts(m: MetricsModel, failure_threshold: u32, n: nat) -> MetricsModel
    decreases n,
{
    if n == 0 {
        m
    } else {
        after_timeout(after_timeouts(m, failure_threshold, (n - 1) as nat), failure_threshold)
    }
}

impl View for LinkQualityMetrics {
    type V = MetricsModel;

    open spec fn view(&self) -> MetricsModel {
        MetricsModel {
            rtt_current: self.rtt_current,
            rtt_min: self.rtt_min,
            rtt_max: self.rtt_max,
            rtt_avg: self.rtt_avg,
            jitter: self.jitter,
            forward_delay: self.forward_delay,
            reverse_delay: self.reverse_delay,
            tx_probe_count: self.tx_probe_count,
            rx_probe_count: self.rx_probe_count,
            loss_tx_count: self.loss_tx_count,
            loss_rx_count: self.loss_rx_count,
            state: self.state,
            consecutive_failures: self.consecutive_failures,
            is_alive: self.is_alive,
            prev_rtt: self.prev_rtt,
        }
    }
}

impl LinkQualityMetrics {
    /// Create new metrics with default values.
    pub fn new() -> (r: Self)
        ensures
            r@ == initial_model(),
            r.last_probe_sent is None,
            r.last_probe_received is None,
    {
        LinkQualityMetrics {
            rtt_current: 0,
            rtt_min: u64::MAX,
            rtt_max: 0,
            rtt_avg: 0,
            jitter: 0,
            forward_delay: None,
            reverse_delay: None,
            tx_probe_count: 0,
            rx_probe_count: 0,
            loss_tx_count: 0,
            loss_rx_count: 0,
            state: LinkState::Unknown,
            consecutive_failures: 0,
            is_alive: false,
            last_probe_sent: None,
            last_probe_received: None,
            metrics_updated: instant_now(),
            prev_rtt: None,
        }
    }

    /// Record that a probe was sent.
    pub fn record_probe_sent(&mut self)
        requires
            old(self).tx_probe_count < u64::MAX,
        ensures
            final(self)@ == after_probe_sent(old(self)@),
            final(self).last_probe_sent is Some,
            final(self).last_probe_received == old(self).last_probe_received,
            final(self).metrics_updated == old(self).metrics_updated,
    {
        self.tx_probe_count = self.tx_probe_count + 1;
        self.last_probe_sent = Some(instant_now());
    }

    /// Recompute the loss ratio from the counters, if a probe was sent.
    fn recompute_loss(&mut self)
        ensures
            final(self)@ == with_loss_recomputed(old(self)@),
            final(self).last_probe_sent == old(self).last_probe_sent,
            final(self).last_probe_received == old(self).last_probe_received,
            final(self).metrics_updated == old(self).metrics_updated,
    {
        if self.tx_probe_count > 0 {
            self.loss_tx_count = self.tx_probe_count;
            self.loss_rx_count = self.rx_probe_count;
        }
    }

    /// Update metrics with a successful probe response whose round-trip time
    /// is `rtt` nanoseconds.
    pub fn update_from_probe(&mut self, rtt: u64)
        requires
            old(self).rx_probe_count < u64::MAX,
        ensures
            final(self)@ == after_reply(old(self)@, rtt),
            final(self).last_probe_sent == old(self).last_probe_sent,
            final(self).last_probe_received == Some(final(self).metrics_updated),
    {
        let now = instant_now();
        self.rtt_current = rtt;
        if rtt < self.rtt_min {
            self.rtt_min = rtt;
        }
        if rtt > self.rtt_max {
            self.rtt_max = rtt;
        }
        if self.rx_probe_count == 0 {
            self.rtt_avg = rtt;
        } else {
            self.rtt_avg = Self::ema_step(self.rtt_avg, rtt);
        }
        self.update_jitter(rtt);
        self.rx_probe_count = self.rx_probe_count + 1;
        self.consecutive_failures = 0;
        self.is_alive = true;
        self.last_probe_received = Some(now);
        self.metrics_updated = now;
        self.recompute_loss();
        self.update_state();
    }

    /// `avg + (x - avg) / 16`, rounded down.
    fn ema_step(avg: u64, x: u64) -> (r: u64)
        ensures
            r == ema16(avg, x),
    {
        let s: u128 = 15u128 * (avg as u128) + (x as u128);
        let q: u128 = s / 16;
        assert(q <= u64::MAX) by (nonlinear_arith)
            requires
                s == 15 * avg + x,
                q == s / 16,
                avg <= u64::MAX,
                x <= u64::MAX,
        ;
        q as u64
    }

    /// Update metrics with delay measurement values (nanoseconds).
    pub fn update_from_delay_measurement(&mut self, rtt: u64, forward: Option<u64>, reverse: Option<u64>)
        requires
            old(self).rx_probe_count < u64::MAX,
        ensures
            final(self)@ == after_delay_reply(old(self)@, rtt, forward, reverse),
            final(self).last_probe_sent == old(self).last_probe_sent,
            final(self).last_probe_received == Some(final(self).metrics_updated),
    {
        self.update_from_probe(rtt);
        self.forward_delay = forward;
        self.reverse_delay = reverse;
    }

    /// Record a probe timeout (failure).
    pub fn record_timeout(&mut self, failure_threshold: u32)
        requires
            old(self).consecutive_failures < u32::MAX,
        ensures
            final(self)@ == after_timeout(old(self)@, failure_threshold),
            final(self).last_probe_sent == old(self).last_probe_sent,
            final(self).last_probe_received == old(self).last_probe_received,
    {
        self.consecutive_failures = self.consecutive_failures + 1;
        self.metrics_updated = instant_now();
        if self.consecutive_failures >= failure_threshold {
            self.is_alive = false;
            self.state = LinkState::Failed;
        } else {
            self.state = LinkState::Degraded;
        }
        self.recompute_loss();
    }

    /// Update jitter using the RFC 3550 algorithm:
    /// J(i) = J(i-1) + (|D(i-1,i)| - J(i-1)) / 16.
    fn update_jitter(&mut self, rtt: u64)
        ensures
            final(self)@ == (MetricsModel {
                jitter: match old(self)@.prev_rtt {
                    Some(prev) => ema16(old(self)@.jitter, abs_diff(rtt, prev)),
                    None => old(self)@.jitter,
                },
                prev_rtt: Some(rtt),
                ..old(self)@
            }),
            final(self).last_probe_sent == old(self).last_probe_sent,
            final(self).last_probe_received == old(self).last_probe_received,
            final(self).metrics_updated == old(self).metrics_updated,
    {
        if let Some(prev) = self.prev_rtt {
            let diff = if rtt > prev { rtt - prev } else { prev - rtt };
            self.jitter = Self::ema_step(self.jitter, diff);
        }
        self.prev_rtt = Some(rtt);
    }

    /// Update link state based on current metrics.
    fn update_state(&mut self)
        ensures
            final(self)@ == (MetricsModel { state: derived_state(old(self)@), ..old(self)@ }),
            final(self).last_probe_sent == old(self).last_probe_sent,
            final(self).last_probe_received == old(self).last_probe_received,
            final(self).metrics_updated == old(self).metrics_updated,
    {
        if self.consecutive_failures > 0 {
            if self.is_alive {
                self.state = LinkState::Degraded;
            } else {
                self.state = LinkState::Failed;
            }
        } else if Self::loss_exceeds(self.loss_rx_count, self.loss_tx_count, 10) {
            self.state = LinkState::Marginal;
        } else if Self::loss_exceeds(self.loss_rx_count, self.loss_tx_count, 100) {
            self.state = LinkState::Degraded;
        } else if self.rx_probe_count > 0 {
            self.state = LinkState::Operational;
        }
    }

    /// Whether the loss ratio `1 - rx/tx` exceeds `1/per` (false when `tx` is 0).
    fn loss_exceeds(rx: u64, tx: u64, per: u64) -> (r: bool)
        requires
            per == 10 || per == 100,
        ensures
            per == 10 ==> r == loss_above_tenth(rx, tx),
            per == 100 ==> r == loss_above_hundredth(rx, tx),
    {
        if tx == 0 {
            false
        } else if rx >= tx {
            false
        } else {
            let d: u128 = (tx - rx) as u128;
            let p: u128 = per as u128;
            assert(p * d <= 100 * 0xffff_ffff_ffff_ffff) by (nonlinear_arith)
                requires
                    p <= 100,
                    d <= 0xffff_ffff_ffff_ffff,
            ;
            p * d > (tx as u128)
        }
    }

    /// Reset all metrics to initial state.
    pub fn reset(&mut self)
        ensures
            final(self)@ == initial_model(),
            final(self).last_probe_sent is None,
            final(self).last_probe_received is None,
    {
        *self = Self::new();
    }
}

impl Default for LinkQualityMetrics {
    fn default() -> (r: Self)
        ensures
            r@ == initial_model(),
    {
        Self::new()
    }
}


/// The round-trip statistics are ordered: once a reply was received, the
/// minimum is at most the average and the last sample, which are at most the maximum.
pub open spec fn rtt_ordered(m: MetricsModel) -> bool {
    m.rx_probe_count > 0 ==> {
        &&& m.rtt_min <= m.rtt_avg <= m.rtt_max
        &&& m.rtt_min <= m.rtt_current <= m.rtt_max
    }
}

/// `n` timeouts in a row add `n` to the consecutive failures and leave the
/// reply counters alone.
pub proof fn lemma_timeouts_count(m: MetricsModel, failure_threshold: u32, n: nat)
    requires
        m.consecutive_failures + n <= u32::MAX,
    ensures
        after_timeouts(m, failure_threshold, n).consecutive_failures == m.consecutive_failures + n,
        after_timeouts(m, failure_threshold, n).rx_probe_count == m.rx_probe_count,
        after_timeouts(m, failure_threshold, n).tx_probe_count == m.tx_probe_count,
    decreases n,
{
    if n > 0 {
        lemma_timeouts_count(m, failure_threshold, (n - 1) as nat);
    }
}

/// A link is marked failed, and no longer alive, once `failure_threshold`
/// probes in a row have timed out (or more), whatever its state before.
pub proof fn lemma_failure_threshold(m: MetricsModel, failure_threshold: u32, n: nat)
    requires
        n >= 1,
        n >= failure_threshold,
        m.consecutive_failures + n <= u32::MAX,
    ensures
        after_timeouts(m, failure_threshold, n).state == LinkState::Failed,
        !after_timeouts(m, failure_threshold, n).is_alive,
{
    lemma_timeouts_count(m, failure_threshold, (n - 1) as nat);
}

/// Below the threshold, timeouts degrade the link but do not change whether
/// it is considered alive.
pub proof fn lemma_below_threshold(m: MetricsModel, failure_threshold: u32, n: nat)
    requires
        n >= 1,
        m.consecutive_failures + n < failure_threshold,
    ensures
        after_timeouts(m, failure_threshold, n).state == LinkState::Degraded,
        after_timeouts(m, failure_threshold, n).is_alive == m.is_alive,
    decreases n,
{
    lemma_timeouts_count(m, failure_threshold, (n - 1) as nat);
    if n > 1 {
        lemma_below_threshold(m, failure_threshold, (n - 1) as nat);
    }
}

/// A reply always revives the link: the failure count restarts at zero, the
/// link is alive, and its state is Operational, Degraded or Marginal.
pub proof fn lemma_reply_revives(m: MetricsModel, rtt: u64)
    requires
        m.rx_probe_count < u64::MAX,
    ensures
        after_reply(m, rtt).consecutive_failures == 0,
        after_reply(m, rtt).is_alive,
        after_reply(m, rtt).rx_probe_count == m.rx_probe_count + 1,
        after_reply(m, rtt).tx_probe_count == m.tx_probe_count,
        after_reply(m, rtt).state == LinkState::Operational || after_reply(m, rtt).state
            == LinkState::Degraded || after_reply(m, rtt).state == LinkState::Marginal,
        after_reply(m, rtt).rtt_current == rtt,
{
}

/// The moving average of `a` and `x` lies between them.
pub proof fn lemma_ema16_between(a: u64, x: u64)
    ensures
        (a <= x ==> a <= ema16(a, x) <= x),
        (x <= a ==> x <= ema16(a, x) <= a),
{
    assert(a <= x ==> a <= ema16(a, x) <= x) by (nonlinear_arith);
    assert(x <= a ==> x <= ema16(a, x) <= a) by (nonlinear_arith);
}

/// Every operation keeps the round-trip statistics ordered.
pub proof fn lemma_rtt_ordered_kept(m: MetricsModel, rtt: u64, failure_threshold: u32)
    requires
        rtt_ordered(m),
        m.rx_probe_count < u64::MAX,
        m.rx_probe_count == 0 ==> m.rtt_min == u64::MAX && m.rtt_max == 0,
    ensures
        rtt_ordered(after_reply(m, rtt)),
        rtt_ordered(after_probe_sent(m)),
        rtt_ordered(after_timeout(m, failure_threshold)),
{
    lemma_ema16_between(m.rtt_avg, rtt);
}

/// The first reply sets every round-trip statistic to its round-trip time
/// and leaves the jitter at zero.
pub proof fn lemma_first_reply(rtt: u64)
    ensures
        after_reply(initial_model(), rtt).rtt_min == rtt,
        after_reply(initial_model(), rtt).rtt_max == rtt,
        after_reply(initial_model(), rtt).rtt_avg == rtt,
        after_reply(initial_model(), rtt).jitter == 0,
{
}

/// RFC 3550 jitter: after two replies in a row, with round-trip times `a`
/// then `b`, the jitter moves a sixteenth of the way from its value after the
/// first reply towards `|b - a|`, the difference between the two consecutive
/// round-trip times (rounded down). The average round-trip time moves the
/// same way towards `b`.
pub proof fn lemma_jitter_follows_consecutive_rtts(m: MetricsModel, a: u64, b: u64)
    ensures
        ({
            let m1 = after_reply(m, a);
            let m2 = after_reply(m1, b);
            let d: int = if b >= a { b - a } else { a - b };
            &&& m2.jitter == (15 * m1.jitter + d) / 16
            &&& m2.rtt_avg == (if m1.rx_probe_count == 0 { b as int } else { (15 * m1.rtt_avg + b) / 16 })
        }),
{
    let m1 = after_reply(m, a);
    let d: int = if b >= a { b - a } else { a - b };
    let j = m1.jitter;
    let v = m1.rtt_avg;
    assert(0 <= (15 * j + d) / 16 <= u64::MAX) by (nonlinear_arith)
        requires 0 <= j <= u64::MAX, 0 <= d <= u64::MAX;
    assert(0 <= (15 * v + b) / 16 <= u64::MAX) by (nonlinear_arith)
        requires 0 <= v <= u64::MAX, 0 <= b <= u64::MAX;
}

/// The loss counters follow the probe counters: once a probe has been sent, a
/// timeout sets the loss ratio's counters to the probes sent and received so
/// far, and a reply does the same, counting itself as received.
pub proof fn lemma_loss_follows_probe_counts(m: MetricsModel, failure_threshold: u32, rtt: u64)
    requires
        m.tx_probe_count > 0,
        m.rx_probe_count < u64::MAX,
    ensures
        after_timeout(m, failure_threshold).loss_tx_count == m.tx_probe_count,
        after_timeout(m, failure_threshold).loss_rx_count == m.rx_probe_count,
        after_reply(m, rtt).loss_tx_count == m.tx_probe_count,
        after_reply(m, rtt).loss_rx_count == m.rx_probe_count + 1,
{
}

} // verus!
