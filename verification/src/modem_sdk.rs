//! Modem driver SDK: the traits a modem driver implements, the request and
//! link-query handling that the modem server performs for it, builders for
//! metrics, capabilities and link announcements, and a modem state machine.
use vstd::prelude::*;

use std::collections::HashMap;
use std::sync::Arc;
use std::time::Instant;
use tokio::sync::broadcast;
use vstd::string::*;
use vstd::utf8::encode_utf8;

use crate::clock::{elapsed_ns, instant_now, unix_time_ns};
use crate::modem_types::{
    default_link_properties, zero_bandwidth, zero_errors, zero_signal, AcousticMetrics, Alert,
    AlertData, AlertSeverity, AlertType, BandwidthMetrics, BroadcastCapabilities, Configure,
    ConfigureAck, ErrorMetrics, Heartbeat, LinkAvailable, LinkCapabilities, LinkProperties,
    LinkQuery, LinkQueryResponse, LinkType, LinkUnavailable, LinkUpdate, Message, MetricsUpdate,
    ModemInfo, ModemState, MulticastCapabilities, PriorityRange, RadioMetrics, Reliability,
    Request, RequestData, Response, ResponseData, ResponseStatus, SatelliteMetrics, SignalMetrics,
    StateChange, TargetInfo, TargetType, UnicastCapabilities,
};

verus! {

/// The metrics a modem driver reports.
pub type ModemMetrics = MetricsUpdate;

// ============================================================================
// CORE TRAITS
// ============================================================================

/// Whether a modem in state `state` counts as healthy: any state but
/// `Error` and `Disconnected`.
pub open spec fn spec_healthy_state(state: ModemState) -> bool {
    !(state is Error || state is Disconnected)
}

/// Whether a modem in state `state` counts as healthy.
pub fn healthy_state(state: ModemState) -> (r: bool)
    ensures
        r == spec_healthy_state(state),
{
    match state {
        ModemState::Error | ModemState::Disconnected => false,
        _ => true,
    }
}

/// Core trait for synchronous modem drivers.
///
/// Implement this trait for simple modem drivers that can provide metrics
/// synchronously (e.g., reading from shared memory or cached values).
pub trait ModemDriver: Send + Sync + 'static {
    /// Return static modem information.
    /// Called once on connection establishment.
    fn info(&self) -> ModemInfo;

    /// Poll current metrics from the modem.
    /// Called periodically at the configured interval.
    fn poll_metrics(&self) -> ModemMetrics;

    /// Get current modem state.
    /// May be called independently of poll_metrics.
    fn state(&self) -> ModemState;

    /// Get current available bandwidth.
    /// Default implementation extracts from metrics.
    fn available_bandwidth(&self) -> (r: BandwidthMetrics)
        default_ensures
            exists|m: ModemMetrics| #[trigger] call_ensures(Self::poll_metrics, (self,), m) && r == m.bandwidth,
    {
        let m = self.poll_metrics();
        m.bandwidth
    }

    /// Check if the modem hardware is healthy.
    /// Default returns true unless the state is `Error` or `Disconnected`.
    fn is_healthy(&self) -> (r: bool)
        default_ensures
            exists|st: ModemState| #[trigger] call_ensures(Self::state, (self,), st) && r == spec_healthy_state(st),
    {
        let st = self.state();
        healthy_state(st)
    }
}

/// The receiving end of a broadcast channel, handed to subscribers of alerts
/// and link events.
#[verifier::external_type_specification]
#[verifier::external_body]
#[verifier::reject_recursive_types(T)]
pub struct ExBroadcastReceiver<T>(broadcast::Receiver<T>);

/// Trait for emitting alerts to Zenoh.
///
/// Implement this to provide predictive alerts about link quality changes.
pub trait AlertEmitter: Send + Sync {
    /// Subscribe to alert notifications.
    /// Returns a broadcast receiver that will receive alerts.
    fn subscribe_alerts(&self) -> broadcast::Receiver<Alert>;
}

/// Trait for handling requests from Zenoh.
pub trait RequestHandler: Send + Sync {
    /// Handle a request from Zenoh.
    fn handle_request(&self, request: Request) -> Response;
}

/// Trait for modem drivers that support configuration updates.
pub trait Configurable: Send + Sync {
    /// Handle a configuration update from Zenoh.
    fn handle_configure(&self, config: Configure) -> ConfigureAck;
}

// ============================================================================
// LINK PROVIDER
// ============================================================================

/// Whether `pattern` matches `text`, both taken as UTF-8 bytes: `*` matches
/// everything, a pattern ending in `*` matches the texts that start with the
/// rest of it, one starting with `*` the texts that end with the rest of it,
/// and any other pattern only itself.
pub open spec fn spec_glob_match(pattern: Seq<u8>, text: Seq<u8>) -> bool {
    if pattern == seq![42u8] {
        true
    } else if pattern.len() > 0 && pattern.last() == 42u8 {
        pattern.drop_last().is_prefix_of(text)
    } else if pattern.len() > 0 && pattern[0] == 42u8 {
        pattern.drop_first().is_suffix_of(text)
    } else {
        pattern == text
    }
}

/// Whether `a[a_start .. a_start + len]` equals `b[b_start .. b_start + len]`.
fn bytes_equal_at(a: &[u8], a_start: usize, b: &[u8], b_start: usize, len: usize) -> (r: bool)
    requires
        a_start + len <= a@.len(),
        b_start + len <= b@.len(),
    ensures
        r == (a@.subrange(a_start as int, a_start + len) == b@.subrange(b_start as int, b_start + len)),
{
    let mut i: usize = 0;
    while i < len
        invariant
            i <= len,
            a_start + len <= a.len(),
            b_start + len <= b.len(),
            forall|k: int| 0 <= k < i ==> #[trigger] a@[a_start + k] == b@[b_start + k],
        decreases len - i,
    {
        if a[a_start + i] != b[b_start + i] {
            assert(a@.subrange(a_start as int, a_start + len)[i as int] != b@.subrange(b_start as int, b_start + len)[i as int]);
            return false;
        }
        i = i + 1;
    }
    let ghost sa = a@.subrange(a_start as int, a_start + len);
    let ghost sb = b@.subrange(b_start as int, b_start + len);
    assert forall|k: int| 0 <= k < len implies #[trigger] sa[k] == sb[k] by {
        assert(a@[a_start + k] == b@[b_start + k]);
    }
    assert(a@.subrange(a_start as int, a_start + len) =~= b@.subrange(b_start as int, b_start + len));
    true
}

/// Simple glob matching for target filters.
pub fn glob_match(pattern: &str, text: &str) -> (r: bool)
    ensures
        r == spec_glob_match(pattern.spec_bytes(), text.spec_bytes()),
{
    let p = pattern.as_bytes();
    let t = text.as_bytes();
    let m = p.len();
    if m == 1 && p[0] == 42u8 {
        assert(p@ =~= seq![42u8]);
        return true;
    }
    if m > 0 && p[m - 1] == 42u8 {
        let n = m - 1;
        if t.len() < n {
            return false;
        }
        let r = bytes_equal_at(p, 0, t, 0, n);
        assert(p@.subrange(0, n as int) =~= p@.drop_last());
        return r;
    }
    if m > 0 && p[0] == 42u8 {
        let n = m - 1;
        if t.len() < n {
            return false;
        }
        let r = bytes_equal_at(p, 1, t, t.len() - n, n);
        assert(p@.subrange(1, m as int) =~= p@.drop_first());
        return r;
    }
    if m != t.len() {
        return false;
    }
    let r = bytes_equal_at(p, 0, t, 0, m);
    assert(p@.subrange(0, m as int) =~= p@);
    assert(t@.subrange(0, m as int) =~= t@);
    r
}

/// Whether a link passes the filters of a query: its type is the one asked
/// for (if any), and its target's identifier matches the glob pattern (if any).
pub open spec fn link_matches_query(link: LinkAvailable, query: LinkQuery) -> bool {
    &&& (query.link_type_filter matches Some(t) ==> link.link_type == t)
    &&& (query.target_filter matches Some(p) ==> spec_glob_match(encode_utf8(p@), encode_utf8(link.target.target_id@)))
}

/// The links of `links` that pass the filters of `query`, in their order.
pub open spec fn spec_filter_links(links: Seq<LinkAvailable>, query: LinkQuery) -> Seq<LinkAvailable> {
    links.filter(|l: LinkAvailable| link_matches_query(l, query))
}

/// Whether a link passes the filters of a query.
pub fn link_passes_query(link: &LinkAvailable, query: &LinkQuery) -> (r: bool)
    ensures
        r == link_matches_query(*link, *query),
{
    if let Some(t) = query.link_type_filter {
        if link.link_type != t {
            return false;
        }
    }
    match &query.target_filter {
        Some(pattern) => glob_match(pattern.as_str(), link.target.target_id.as_str()),
        None => true,
    }
}

/// Keep the links that pass the filters of `query` (the link type filter,
/// then the target pattern), in their order.
pub fn filter_links(links: Vec<LinkAvailable>, query: &LinkQuery) -> (r: Vec<LinkAvailable>)
    ensures
        r@ == spec_filter_links(links@, *query),
{
    let ghost pred = |l: LinkAvailable| link_matches_query(l, *query);
    let mut kept: Vec<LinkAvailable> = Vec::new();
    let mut rest = links;
    let ghost all = rest@;
    let mut i: usize = 0;
    let n = rest.len();
    while i < n
        invariant
            n == all.len(),
            i <= n,
            rest@ =~= all.subrange(i as int, n as int),
            kept@ == all.take(i as int).filter(pred),
            pred == (|l: LinkAvailable| link_matches_query(l, *query)),
        decreases n - i,
    {
        let link = rest.remove(0);
        proof {
            assert(link == all[i as int]);
            assert(all.take(i + 1).drop_last() =~= all.take(i as int));
            assert(all.take(i + 1).last() == all[i as int]);
            reveal(Seq::filter);
        }
        if link_passes_query(&link, query) {
            kept.push(link);
        }
        i = i + 1;
    }
    assert(all.take(n as int) =~= all);
    kept
}

/// A link query gives back exactly the links that pass its filters: every
/// link returned passes them and was offered, and every offered link that
/// passes them is returned.
pub proof fn lemma_filter_links_exact(links: Seq<LinkAvailable>, query: LinkQuery)
    ensures
        forall|i: int|
            0 <= i < spec_filter_links(links, query).len() ==> link_matches_query(
                #[trigger] spec_filter_links(links, query)[i],
                query,
            ) && links.contains(spec_filter_links(links, query)[i]),
        forall|i: int|
            0 <= i < links.len() && link_matches_query(#[trigger] links[i], query) ==> spec_filter_links(
                links,
                query,
            ).contains(links[i]),
{
    let pred = |l: LinkAvailable| link_matches_query(l, query);
    assert forall|i: int| 0 <= i < spec_filter_links(links, query).len() implies link_matches_query(
        #[trigger] spec_filter_links(links, query)[i],
        query,
    ) && links.contains(spec_filter_links(links, query)[i]) by {
        let f = links.filter(pred);
        links.lemma_filter_pred(pred, i);
        assert(f.contains(f[i]));
        links.lemma_filter_contains_rev(pred, f[i]);
    }
    assert forall|i: int| 0 <= i < links.len() && link_matches_query(#[trigger] links[i], query) implies spec_filter_links(
        links,
        query,
    ).contains(links[i]) by {
        links.lemma_filter_contains(pred, i);
    }
}

/// `*` matches every text.
pub proof fn lemma_star_matches_all(text: Seq<u8>)
    ensures
        spec_glob_match(seq![42u8], text),
{
}

/// A pattern ending in `*` matches every text that starts with the rest of it.
pub proof fn lemma_prefix_pattern_matches(prefix: Seq<u8>, rest: Seq<u8>)
    ensures
        spec_glob_match(prefix.push(42u8), prefix + rest),
{
    assert(prefix.push(42u8).drop_last() =~= prefix);
    assert((prefix + rest).subrange(0, prefix.len() as int) =~= prefix);
}

/// A pattern starting with `*` (and not ending with one) matches every text
/// that ends with the rest of it.
pub proof fn lemma_suffix_pattern_matches(suffix: Seq<u8>, front: Seq<u8>)
    requires
        suffix.len() > 0,
        suffix.last() != 42u8,
    ensures
        spec_glob_match(seq![42u8] + suffix, front + suffix),
{
    let p = seq![42u8] + suffix;
    assert(p != seq![42u8]) by {
        assert(p.len() != 1);
    }
    assert(p.last() == suffix.last());
    assert(p[0] == 42u8);
    assert(p.drop_first() =~= suffix);
    let t = front + suffix;
    assert(t.subrange((t.len() - suffix.len()) as int, t.len() as int) =~= suffix);
}

/// A pattern ending in `*` (other than `*` alone) matches a text exactly when
/// the text starts with the pattern's other bytes.
pub proof fn lemma_prefix_pattern_exact(pattern: Seq<u8>, text: Seq<u8>)
    requires
        pattern.len() > 0,
        pattern.last() == 42u8,
        pattern != seq![42u8],
    ensures
        spec_glob_match(pattern, text) <==> (text.len() >= pattern.len() - 1
            && forall|i: int| 0 <= i < pattern.len() - 1 ==> text[i] == pattern[i]),
{
    let pre = pattern.drop_last();
    if text.len() >= pattern.len() - 1 && forall|i: int| 0 <= i < pattern.len() - 1 ==> text[i] == pattern[i] {
        assert(text.subrange(0, pre.len() as int) =~= pre);
    }
    if spec_glob_match(pattern, text) {
        assert forall|i: int| 0 <= i < pattern.len() - 1 implies text[i] == pattern[i] by {
            assert(text.subrange(0, pre.len() as int)[i] == pre[i]);
        }
    }
}

/// A pattern starting with `*` and not ending with one matches a text exactly
/// when the text ends with the pattern's other bytes.
pub proof fn lemma_suffix_pattern_exact(pattern: Seq<u8>, text: Seq<u8>)
    requires
        pattern.len() > 1,
        pattern[0] == 42u8,
        pattern.last() != 42u8,
    ensures
        spec_glob_match(pattern, text) <==> (text.len() >= pattern.len() - 1
            && forall|i: int| 1 <= i < pattern.len() ==> text[text.len() - pattern.len() + i] == pattern[i]),
{
    let suf = pattern.drop_first();
    let k = text.len() - suf.len();
    if text.len() >= pattern.len() - 1 && forall|i: int| 1 <= i < pattern.len() ==> text[text.len() - pattern.len() + i] == pattern[i] {
        assert forall|j: int| 0 <= j < suf.len() implies text.subrange(k, text.len() as int)[j] == suf[j] by {
            assert(text[text.len() - pattern.len() + (j + 1)] == pattern[j + 1]);
        }
        assert(text.subrange(k, text.len() as int) =~= suf);
    }
    if spec_glob_match(pattern, text) {
        assert forall|i: int| 1 <= i < pattern.len() implies text[text.len() - pattern.len() + i] == pattern[i] by {
            assert(text.subrange(k, text.len() as int)[i - 1] == suf[i - 1]);
        }
    }
}

/// A pattern with no `*` at either end matches only itself.
pub proof fn lemma_plain_pattern_matches_itself_only(pattern: Seq<u8>, text: Seq<u8>)
    requires
        pattern.len() == 0 || (pattern[0] != 42u8 && pattern.last() != 42u8),
    ensures
        spec_glob_match(pattern, text) <==> pattern == text,
{
    if pattern == seq![42u8] {
        assert(pattern[0] == 42u8);
    }
}

/// Trait for modem drivers that provide dynamic transport links.
///
/// Implement this trait for modems that can create Unix socket endpoints
/// for Zenoh to connect to remote targets.
pub trait LinkProvider: Send + Sync + 'static {
    /// Get the link capabilities for this modem.
    fn link_capabilities(&self) -> LinkCapabilities;

    /// Get all currently active links.
    fn active_links(&self) -> Vec<LinkAvailable>;

    /// Create a new link to a target.
    fn create_link(&self, target: &TargetInfo) -> Result<LinkAvailable, LinkError>;

    /// Close an existing link.
    fn close_link(&self, link_id: &str) -> Result<(), LinkError>;

    /// Handle a link query from Zenoh: the active links that pass its
    /// filters, under the query's identifier.
    fn handle_link_query(&self, query: LinkQuery) -> (r: LinkQueryResponse)
        default_ensures
            r.query_id == query.query_id,
            exists|links: Vec<LinkAvailable>| #[trigger] call_ensures(Self::active_links, (self,), links)
                && r.links@ == spec_filter_links(links@, query),
            forall|i: int| 0 <= i < r.links@.len() ==> link_matches_query(#[trigger] r.links@[i], query),
    {
        let links = self.active_links();
        let kept = filter_links(links, &query);
        proof {
            let pred = |l: LinkAvailable| link_matches_query(l, query);
            assert forall|i: int| 0 <= i < kept@.len() implies link_matches_query(#[trigger] kept@[i], query) by {
                links@.lemma_filter_pred(pred, i);
            }
        }
        LinkQueryResponse::new(query.query_id, kept)
    }
}

/// Trait for emitting link events to Zenoh.
///
/// Implement this to notify Zenoh when links become available or unavailable,
/// or when link properties change.
pub trait LinkEventEmitter: Send + Sync {
    /// Subscribe to link events.
    fn subscribe_link_events(&self) -> broadcast::Receiver<LinkEvent>;
}

/// Full-featured synchronous modem driver: all driver capabilities together.
pub trait FullModemDriver: ModemDriver + AlertEmitter + RequestHandler + Configurable {

}

impl<T> FullModemDriver for T where T: ModemDriver + AlertEmitter + RequestHandler + Configurable {

}

/// Full-featured link-providing modem driver: all driver capabilities
/// together with the link provider.
pub trait FullLinkModemDriver: ModemDriver + AlertEmitter + RequestHandler + Configurable + LinkProvider + LinkEventEmitter {

}

impl<T> FullLinkModemDriver for T where
    T: ModemDriver + AlertEmitter + RequestHandler + Configurable + LinkProvider + LinkEventEmitter,
 {

}

/// Link events emitted by the modem driver.
#[derive(Debug, Clone)]
pub enum LinkEvent {
    /// A new link is available
    Available(LinkAvailable),
    /// A link is no longer available
    Unavailable(LinkUnavailable),
    /// Link properties have changed
    Update(LinkUpdate),
}

/// Error type for link operations.
#[derive(Debug, Clone)]
pub struct LinkError {
    pub kind: LinkErrorKind,
    pub message: String,
}

/// What went wrong in a link operation.
#[derive(Debug, Clone, Copy, PartialEq, Eq, Structural)]
pub enum LinkErrorKind {
    /// Target is not reachable
    TargetUnreachable,
    /// Maximum number of links exceeded
    ResourceExhausted,
    /// Socket creation failed
    SocketError,
    /// Link already exists
    AlreadyExists,
    /// Link not found
    NotFound,
    /// Operation not supported
    NotSupported,
    /// Internal error
    Internal,
}

impl LinkError {
    /// An error of the given kind with the given message.
    pub fn new(kind: LinkErrorKind, message: &str) -> (r: Self)
        ensures
            r.kind == kind,
            r.message@ == message@,
    {
        LinkError { kind, message: message.to_owned() }
    }

    /// The target is not reachable.
    pub fn target_unreachable(message: &str) -> (r: Self)
        ensures
            r.kind == LinkErrorKind::TargetUnreachable,
            r.message@ == message@,
    {
        Self::new(LinkErrorKind::TargetUnreachable, message)
    }

    /// The maximum number of links is reached.
    pub fn resource_exhausted(message: &str) -> (r: Self)
        ensures
            r.kind == LinkErrorKind::ResourceExhausted,
            r.message@ == message@,
    {
        Self::new(LinkErrorKind::ResourceExhausted, message)
    }

    /// A socket could not be created.
    pub fn socket_error(message: &str) -> (r: Self)
        ensures
            r.kind == LinkErrorKind::SocketError,
            r.message@ == message@,
    {
        Self::new(LinkErrorKind::SocketError, message)
    }

    /// The link does not exist.
    pub fn not_found(message: &str) -> (r: Self)
        ensures
            r.kind == LinkErrorKind::NotFound,
            r.message@ == message@,
    {
        Self::new(LinkErrorKind::NotFound, message)
    }
}

// ============================================================================
// RESPONSE HELPERS
// ============================================================================

impl Response {
    /// Create a success response.
    pub fn success(request_id: u32) -> (r: Self)
        ensures
            r.request_id == request_id,
            r.status == ResponseStatus::Success,
            r.data is None,
            r.error_message is None,
    {
        Response { request_id, status: ResponseStatus::Success, data: None, error_message: None }
    }

    /// Create a success response with data.
    pub fn success_with_data(request_id: u32, data: ResponseData) -> (r: Self)
        ensures
            r.request_id == request_id,
            r.status == ResponseStatus::Success,
            r.data == Some(data),
            r.error_message is None,
    {
        Response { request_id, status: ResponseStatus::Success, data: Some(data), error_message: None }
    }

    /// Create a "not supported" response.
    pub fn not_supported(request_id: u32) -> (r: Self)
        ensures
            r.request_id == request_id,
            r.status == ResponseStatus::NotSupported,
            r.data is None,
            r.error_message matches Some(m) && m@ == "Operation not supported"@,
    {
        Response {
            request_id,
            status: ResponseStatus::NotSupported,
            data: None,
            error_message: Some("Operation not supported".to_owned()),
        }
    }

    /// Create a "busy" response.
    pub fn busy(request_id: u32) -> (r: Self)
        ensures
            r.request_id == request_id,
            r.status == ResponseStatus::Busy,
            r.data is None,
            r.error_message matches Some(m) && m@ == "Modem is busy"@,
    {
        Response {
            request_id,
            status: ResponseStatus::Busy,
            data: None,
            error_message: Some("Modem is busy".to_owned()),
        }
    }

    /// Create a failure response.
    pub fn failed(request_id: u32, message: &str) -> (r: Self)
        ensures
            r.request_id == request_id,
            r.status == ResponseStatus::Failed,
            r.data is None,
            r.error_message matches Some(m) && m@ == message@,
    {
        Response { request_id, status: ResponseStatus::Failed, data: None, error_message: Some(message.to_owned()) }
    }
}

// ============================================================================
// DECIMAL TEXT
// ============================================================================

/// The character of a decimal digit.
pub open spec fn digit_char(d: nat) -> char {
    (48 + d) as char
}

/// The decimal representation of `n`, most significant digit first, with no
/// leading zeros (a single `0` for zero).
pub open spec fn decimal(n: nat) -> Seq<char>
    decreases n,
{
    if n < 10 {
        seq![digit_char(n)]
    } else {
        decimal(n / 10).push(digit_char(n % 10))
    }
}

/// The text of one decimal digit.
fn digit_str(d: u64) -> (r: &'static str)
    requires
        d < 10,
    ensures
        r@ == seq![digit_char(d as nat)],
{
    let r = match d {
        0 => {
            proof {
                reveal_strlit("0");
            }
            "0"
        },
        1 => {
            proof {
                reveal_strlit("1");
            }
            "1"
        },
        2 => {
            proof {
                reveal_strlit("2");
            }
            "2"
        },
        3 => {
            proof {
                reveal_strlit("3");
            }
            "3"
        },
        4 => {
            proof {
                reveal_strlit("4");
            }
            "4"
        },
        5 => {
            proof {
                reveal_strlit("5");
            }
            "5"
        },
        6 => {
            proof {
                reveal_strlit("6");
            }
            "6"
        },
        7 => {
            proof {
                reveal_strlit("7");
            }
            "7"
        },
        8 => {
            proof {
                reveal_strlit("8");
            }
            "8"
        },
        _ => {
            proof {
                reveal_strlit("9");
            }
            "9"
        },
    };
    assert(r@ =~= seq![digit_char(d as nat)]);
    r
}

/// Append the decimal representation of `n` to `s`.
pub fn push_decimal(s: &mut String, n: u64)
    ensures
        final(s)@ == old(s)@ + decimal(n as nat),
    decreases n,
{
    if n >= 10 {
        push_decimal(s, n / 10);
    }
    s.append(digit_str(n % 10));
    proof {
        if n >= 10 {
            assert(decimal(n as nat) == decimal((n / 10) as nat).push(digit_char((n % 10) as nat)));
        }
        assert(s@ =~= old(s)@ + decimal(n as nat));
    }
}

// ============================================================================
// METRICS BUILDERS
// ============================================================================

/// Whether `m` holds no readings: zero timestamp, sequence number, signal,
/// error and bandwidth metrics, no modem-specific metrics and no custom fields.
pub open spec fn is_blank_metrics(m: ModemMetrics) -> bool {
    &&& m.timestamp_ns == 0
    &&& m.seq == 0
    &&& m.signal == zero_signal()
    &&& m.errors == zero_errors()
    &&& m.bandwidth == zero_bandwidth()
    &&& m.satellite is None
    &&& m.radio is None
    &&& m.acoustic is None
    &&& m.custom@ == Map::<String, serde_json::Value>::empty()
}

/// Builder for constructing ModemMetrics.
pub struct MetricsBuilder {
    metrics: ModemMetrics,
}

impl View for MetricsBuilder {
    type V = ModemMetrics;

    closed spec fn view(&self) -> ModemMetrics {
        self.metrics
    }
}

impl Default for MetricsBuilder {
    fn default() -> (r: Self)
        ensures
            is_blank_metrics(r@),
    {
        MetricsBuilder {
            metrics: MetricsUpdate {
                timestamp_ns: 0,
                seq: 0,
                signal: SignalMetrics { snr_cdb: 0, rssi_cdbm: 0, signal_quality_pct: 0, noise_floor_cdbm: None },
                errors: ErrorMetrics { ber_exponent: 0, per_ppm: 0, fer_ppm: 0, crc_errors: 0, retransmits: 0 },
                bandwidth: BandwidthMetrics {
                    tx_rate_bps: 0,
                    rx_rate_bps: 0,
                    available_bps: 0,
                    utilization_pct: 0,
                    queue_depth_bytes: 0,
                    queue_capacity_bytes: 0,
                },
                satellite: None,
                radio: None,
                acoustic: None,
                custom: HashMap::new(),
            },
        }
    }
}

impl MetricsBuilder {
    /// A builder holding blank metrics.
    pub fn new() -> (r: Self)
        ensures
            is_blank_metrics(r@),
    {
        Self::default()
    }

    /// Set the timestamp.
    pub fn timestamp(self, ns: u64) -> (r: Self)
        ensures
            r@ == (MetricsUpdate { timestamp_ns: ns, ..self@ }),
    {
        let mut s = self;
        s.metrics.timestamp_ns = ns;
        s
    }

    /// Set the timestamp to the current time.
    pub fn timestamp_now(self) -> (r: Self)
        ensures
            r@ == (MetricsUpdate { timestamp_ns: r@.timestamp_ns, ..self@ }),
    {
        let mut s = self;
        s.metrics.timestamp_ns = unix_time_ns();
        s
    }

    /// Set the sequence number.
    pub fn seq(self, seq: u32) -> (r: Self)
        ensures
            r@ == (MetricsUpdate { seq, ..self@ }),
    {
        let mut s = self;
        s.metrics.seq = seq;
        s
    }

    /// Set the signal metrics, in hundredths of a dB and of a dBm, with no
    /// noise floor.
    pub fn signal_cdb(self, snr_cdb: i32, rssi_cdbm: i32, quality_pct: u8) -> (r: Self)
        ensures
            r@ == (MetricsUpdate {
                signal: SignalMetrics { snr_cdb, rssi_cdbm, signal_quality_pct: quality_pct, noise_floor_cdbm: None },
                ..self@
            }),
    {
        let mut s = self;
        s.metrics.signal = SignalMetrics {
            snr_cdb,
            rssi_cdbm,
            signal_quality_pct: quality_pct,
            noise_floor_cdbm: None,
        };
        s
    }

    /// Set the error metrics, with the packet and frame error rates in parts
    /// per million and zero CRC errors and retransmits.
    pub fn errors_ppm(self, ber_exp: i8, per_ppm: u32, fer_ppm: u32) -> (r: Self)
        ensures
            r@ == (MetricsUpdate {
                errors: ErrorMetrics { ber_exponent: ber_exp, per_ppm, fer_ppm, crc_errors: 0, retransmits: 0 },
                ..self@
            }),
    {
        let mut s = self;
        s.metrics.errors = ErrorMetrics { ber_exponent: ber_exp, per_ppm, fer_ppm, crc_errors: 0, retransmits: 0 };
        s
    }

    /// Set the rates and the available bandwidth, with zero utilization and
    /// an empty queue.
    pub fn bandwidth(self, tx_bps: u64, rx_bps: u64, available_bps: u64) -> (r: Self)
        ensures
            r@ == (MetricsUpdate {
                bandwidth: BandwidthMetrics {
                    tx_rate_bps: tx_bps,
                    rx_rate_bps: rx_bps,
                    available_bps,
                    utilization_pct: 0,
                    queue_depth_bytes: 0,
                    queue_capacity_bytes: 0,
                },
                ..self@
            }),
    {
        let mut s = self;
        s.metrics.bandwidth = BandwidthMetrics {
            tx_rate_bps: tx_bps,
            rx_rate_bps: rx_bps,
            available_bps,
            utilization_pct: 0,
            queue_depth_bytes: 0,
            queue_capacity_bytes: 0,
        };
        s
    }

    /// Set the satellite metrics.
    pub fn satellite(self, metrics: SatelliteMetrics) -> (r: Self)
        ensures
            r@ == (MetricsUpdate { satellite: Some(metrics), ..self@ }),
    {
        let mut s = self;
        s.metrics.satellite = Some(metrics);
        s
    }

    /// Set the radio metrics.
    pub fn radio(self, metrics: RadioMetrics) -> (r: Self)
        ensures
            r@ == (MetricsUpdate { radio: Some(metrics), ..self@ }),
    {
        let mut s = self;
        s.metrics.radio = Some(metrics);
        s
    }

    /// Set the acoustic metrics.
    pub fn acoustic(self, metrics: AcousticMetrics) -> (r: Self)
        ensures
            r@ == (MetricsUpdate { acoustic: Some(metrics), ..self@ }),
    {
        let mut s = self;
        s.metrics.acoustic = Some(metrics);
        s
    }

    /// The metrics built.
    pub fn build(self) -> (r: ModemMetrics)
        ensures
            r == self@,
    {
        self.metrics
    }
}

/// Builder for SatelliteMetrics.
pub struct SatelliteMetricsBuilder {
    metrics: SatelliteMetrics,
}

impl View for SatelliteMetricsBuilder {
    type V = SatelliteMetrics;

    closed spec fn view(&self) -> SatelliteMetrics {
        self.metrics
    }
}

impl SatelliteMetricsBuilder {
    /// A builder holding zero angles and Doppler shift, no range or
    /// identifiers, and no pending handover.
    pub fn new() -> (r: Self)
        ensures
            r@ == (SatelliteMetrics {
                elevation_cdeg: 0,
                azimuth_cdeg: 0,
                doppler_hz: 0,
                range_km: None,
                satellite_id: None,
                beam_id: None,
                handover_pending: false,
                time_to_handover_ms: None,
            }),
    {
        SatelliteMetricsBuilder {
            metrics: SatelliteMetrics {
                elevation_cdeg: 0,
                azimuth_cdeg: 0,
                doppler_hz: 0,
                range_km: None,
                satellite_id: None,
                beam_id: None,
                handover_pending: false,
                time_to_handover_ms: None,
            },
        }
    }

    /// Set the elevation, in hundredths of a degree.
    pub fn elevation_cdeg(self, cdeg: i16) -> (r: Self)
        ensures
            r@ == (SatelliteMetrics { elevation_cdeg: cdeg, ..self@ }),
    {
        let mut s = self;
        s.metrics.elevation_cdeg = cdeg;
        s
    }

    /// Set the azimuth, in hundredths of a degree.
    pub fn azimuth_cdeg(self, cdeg: u16) -> (r: Self)
        ensures
            r@ == (SatelliteMetrics { azimuth_cdeg: cdeg, ..self@ }),
    {
        let mut s = self;
        s.metrics.azimuth_cdeg = cdeg;
        s
    }

    /// Set the Doppler shift.
    pub fn doppler(self, hz: i32) -> (r: Self)
        ensures
            r@ == (SatelliteMetrics { doppler_hz: hz, ..self@ }),
    {
        let mut s = self;
        s.metrics.doppler_hz = hz;
        s
    }

    /// Set the satellite identifier.
    pub fn satellite_id(self, id: &str) -> (r: Self)
        ensures
            r@.satellite_id matches Some(i) && i@ == id@,
            r@ == (SatelliteMetrics { satellite_id: r@.satellite_id, ..self@ }),
    {
        let mut s = self;
        s.metrics.satellite_id = Some(id.to_owned());
        s
    }

    /// Set whether a handover is pending, and the time until it.
    pub fn handover_pending(self, pending: bool, time_ms: Option<u32>) -> (r: Self)
        ensures
            r@ == (SatelliteMetrics { handover_pending: pending, time_to_handover_ms: time_ms, ..self@ }),
    {
        let mut s = self;
        s.metrics.handover_pending = pending;
        s.metrics.time_to_handover_ms = time_ms;
        s
    }

    /// The metrics built.
    pub fn build(self) -> (r: SatelliteMetrics)
        ensures
            r == self@,
    {
        self.metrics
    }
}

/// Builder for RadioMetrics.
pub struct RadioMetricsBuilder {
    metrics: RadioMetrics,
}

impl View for RadioMetricsBuilder {
    type V = RadioMetrics;

    closed spec fn view(&self) -> RadioMetrics {
        self.metrics
    }
}

impl RadioMetricsBuilder {
    /// A builder holding zero power, frequency and bandwidth, empty
    /// modulation and FEC names, and neither hopping nor encryption.
    pub fn new() -> (r: Self)
        ensures
            r@.tx_power_cdbm == 0,
            r@.frequency_hz == 0,
            r@.bandwidth_hz == 0,
            r@.modulation@ == Seq::<char>::empty(),
            r@.fec_rate@ == Seq::<char>::empty(),
            !r@.hopping,
            !r@.crypto_active,
    {
        RadioMetricsBuilder {
            metrics: RadioMetrics {
                tx_power_cdbm: 0,
                frequency_hz: 0,
                bandwidth_hz: 0,
                modulation: String::new(),
                fec_rate: String::new(),
                hopping: false,
                crypto_active: false,
            },
        }
    }

    /// Set the transmit power, in hundredths of a dBm.
    pub fn tx_power_cdbm(self, cdbm: i16) -> (r: Self)
        ensures
            r@ == (RadioMetrics { tx_power_cdbm: cdbm, ..self@ }),
    {
        let mut s = self;
        s.metrics.tx_power_cdbm = cdbm;
        s
    }

    /// Set the frequency.
    pub fn frequency(self, hz: u64) -> (r: Self)
        ensures
            r@ == (RadioMetrics { frequency_hz: hz, ..self@ }),
    {
        let mut s = self;
        s.metrics.frequency_hz = hz;
        s
    }

    /// Set the channel bandwidth.
    pub fn bandwidth(self, hz: u32) -> (r: Self)
        ensures
            r@ == (RadioMetrics { bandwidth_hz: hz, ..self@ }),
    {
        let mut s = self;
        s.metrics.bandwidth_hz = hz;
        s
    }

    /// Set the modulation scheme.
    pub fn modulation(self, mod_type: &str) -> (r: Self)
        ensures
            r@.modulation@ == mod_type@,
            r@ == (RadioMetrics { modulation: r@.modulation, ..self@ }),
    {
        let mut s = self;
        s.metrics.modulation = mod_type.to_owned();
        s
    }

    /// Set the FEC rate.
    pub fn fec_rate(self, rate: &str) -> (r: Self)
        ensures
            r@.fec_rate@ == rate@,
            r@ == (RadioMetrics { fec_rate: r@.fec_rate, ..self@ }),
    {
        let mut s = self;
        s.metrics.fec_rate = rate.to_owned();
        s
    }

    /// Set whether frequency hopping is active.
    pub fn hopping(self, enabled: bool) -> (r: Self)
        ensures
            r@ == (RadioMetrics { hopping: enabled, ..self@ }),
    {
        let mut s = self;
        s.metrics.hopping = enabled;
        s
    }

    /// Set whether encryption is active.
    pub fn crypto(self, enabled: bool) -> (r: Self)
        ensures
            r@ == (RadioMetrics { crypto_active: enabled, ..self@ }),
    {
        let mut s = self;
        s.metrics.crypto_active = enabled;
        s
    }

    /// The metrics built.
    pub fn build(self) -> (r: RadioMetrics)
        ensures
            r == self@,
    {
        self.metrics
    }
}

// ============================================================================
// LINK BUILDERS
// ============================================================================

/// The unicast capabilities a capabilities builder starts with: MTU 64 to
/// 1500, no priorities, no express path, reliable and best-effort delivery
/// with reliable as the default, 16 targets and 65536 pending bytes.
pub open spec fn default_unicast_capabilities() -> UnicastCapabilities {
    UnicastCapabilities {
        max_mtu: 1500,
        min_mtu: 64,
        supports_priorities: false,
        priority_range: None,
        supports_express: false,
        express_priority_threshold: None,
        supports_reliable: true,
        supports_best_effort: true,
        default_reliability: Reliability::Reliable,
        max_targets: 16,
        max_pending_bytes: 65536,
    }
}

/// Builder for LinkCapabilities.
pub struct LinkCapabilitiesBuilder {
    caps: LinkCapabilities,
}

impl View for LinkCapabilitiesBuilder {
    type V = LinkCapabilities;

    closed spec fn view(&self) -> LinkCapabilities {
        self.caps
    }
}

impl LinkCapabilitiesBuilder {
    /// A builder for capabilities under the given socket base path, with the
    /// default unicast capabilities and neither broadcast nor multicast.
    pub fn new(socket_base_path: &str) -> (r: Self)
        ensures
            r@.socket_base_path@ == socket_base_path@,
            r@.unicast == default_unicast_capabilities(),
            r@.broadcast is None,
            r@.multicast is None,
    {
        LinkCapabilitiesBuilder {
            caps: LinkCapabilities {
                socket_base_path: socket_base_path.to_owned(),
                unicast: UnicastCapabilities {
                    max_mtu: 1500,
                    min_mtu: 64,
                    supports_priorities: false,
                    priority_range: None,
                    supports_express: false,
                    express_priority_threshold: None,
                    supports_reliable: true,
                    supports_best_effort: true,
                    default_reliability: Reliability::Reliable,
                    max_targets: 16,
                    max_pending_bytes: 65536,
                },
                broadcast: None,
                multicast: None,
            },
        }
    }

    /// Set the unicast MTU range.
    pub fn mtu_range(self, min: u32, max: u32) -> (r: Self)
        ensures
            r@ == (LinkCapabilities {
                unicast: UnicastCapabilities { min_mtu: min, max_mtu: max, ..self@.unicast },
                ..self@
            }),
    {
        let mut s = self;
        s.caps.unicast.min_mtu = min;
        s.caps.unicast.max_mtu = max;
        s
    }

    /// Support priorities, in the range `min` to `max`.
    pub fn with_priorities(self, min: u8, max: u8) -> (r: Self)
        ensures
            r@ == (LinkCapabilities {
                unicast: UnicastCapabilities {
                    supports_priorities: true,
                    priority_range: Some(PriorityRange { min, max }),
                    ..self@.unicast
                },
                ..self@
            }),
    {
        let mut s = self;
        s.caps.unicast.supports_priorities = true;
        s.caps.unicast.priority_range = Some(PriorityRange { min, max });
        s
    }

    /// Support the express path, for priorities up to the threshold.
    pub fn with_express(self, priority_threshold: u8) -> (r: Self)
        ensures
            r@ == (LinkCapabilities {
                unicast: UnicastCapabilities {
                    supports_express: true,
                    express_priority_threshold: Some(priority_threshold),
                    ..self@.unicast
                },
                ..self@
            }),
    {
        let mut s = self;
        s.caps.unicast.supports_express = true;
        s.caps.unicast.express_priority_threshold = Some(priority_threshold);
        s
    }

    /// Set the maximum number of targets.
    pub fn max_targets(self, max: u32) -> (r: Self)
        ensures
            r@ == (LinkCapabilities { unicast: UnicastCapabilities { max_targets: max, ..self@.unicast }, ..self@ }),
    {
        let mut s = self;
        s.caps.unicast.max_targets = max;
        s
    }

    /// Set the maximum pending bytes.
    pub fn max_pending_bytes(self, max: u32) -> (r: Self)
        ensures
            r@ == (LinkCapabilities {
                unicast: UnicastCapabilities { max_pending_bytes: max, ..self@.unicast },
                ..self@
            }),
    {
        let mut s = self;
        s.caps.unicast.max_pending_bytes = max;
        s
    }

    /// Set the default reliability.
    pub fn default_reliability(self, rel: Reliability) -> (r: Self)
        ensures
            r@ == (LinkCapabilities {
                unicast: UnicastCapabilities { default_reliability: rel, ..self@.unicast },
                ..self@
            }),
    {
        let mut s = self;
        s.caps.unicast.default_reliability = rel;
        s
    }

    /// Support broadcast links.
    pub fn with_broadcast(self, max_mtu: u32, max_recipients: u32, supports_reliable: bool) -> (r: Self)
        ensures
            r@ == (LinkCapabilities {
                broadcast: Some(BroadcastCapabilities { max_mtu, max_recipients, supports_reliable }),
                ..self@
            }),
    {
        let mut s = self;
        s.caps.broadcast = Some(BroadcastCapabilities { max_mtu, max_recipients, supports_reliable });
        s
    }

    /// Support multicast links.
    pub fn with_multicast(self, max_mtu: u32, max_groups: u32, max_members: u32) -> (r: Self)
        ensures
            r@ == (LinkCapabilities {
                multicast: Some(MulticastCapabilities { max_mtu, max_groups, max_members_per_group: max_members }),
                ..self@
            }),
    {
        let mut s = self;
        s.caps.multicast = Some(MulticastCapabilities { max_mtu, max_groups, max_members_per_group: max_members });
        s
    }

    /// The capabilities built.
    pub fn build(self) -> (r: LinkCapabilities)
        ensures
            r == self@,
    {
        self.caps
    }
}

/// Builder for LinkProperties.
pub struct LinkPropertiesBuilder {
    props: LinkProperties,
}

impl View for LinkPropertiesBuilder {
    type V = LinkProperties;

    closed spec fn view(&self) -> LinkProperties {
        self.props
    }
}

impl LinkPropertiesBuilder {
    /// A builder for properties with the given MTU, zero bandwidth and
    /// latency, reliable delivery, no priority range and no express path.
    pub fn new(mtu: u32) -> (r: Self)
        ensures
            r@ == default_link_properties(mtu, 0, 0),
    {
        LinkPropertiesBuilder {
            props: LinkProperties {
                mtu,
                bandwidth_bps: 0,
                latency_us: 0,
                reliability: Reliability::Reliable,
                priority_range: None,
                express_available: false,
            },
        }
    }

    /// Set the bandwidth.
    pub fn bandwidth(self, bps: u64) -> (r: Self)
        ensures
            r@ == (LinkProperties { bandwidth_bps: bps, ..self@ }),
    {
        let mut s = self;
        s.props.bandwidth_bps = bps;
        s
    }

    /// Set the latency, in microseconds.
    pub fn latency_us(self, us: u32) -> (r: Self)
        ensures
            r@ == (LinkProperties { latency_us: us, ..self@ }),
    {
        let mut s = self;
        s.props.latency_us = us;
        s
    }

    /// Set the reliability.
    pub fn reliability(self, rel: Reliability) -> (r: Self)
        ensures
            r@ == (LinkProperties { reliability: rel, ..self@ }),
    {
        let mut s = self;
        s.props.reliability = rel;
        s
    }

    /// Set the priority range.
    pub fn with_priorities(self, min: u8, max: u8) -> (r: Self)
        ensures
            r@ == (LinkProperties { priority_range: Some(PriorityRange { min, max }), ..self@ }),
    {
        let mut s = self;
        s.props.priority_range = Some(PriorityRange { min, max });
        s
    }

    /// Make the express path available.
    pub fn with_express(self) -> (r: Self)
        ensures
            r@ == (LinkProperties { express_available: true, ..self@ }),
    {
        let mut s = self;
        s.props.express_available = true;
        s
    }

    /// The properties built.
    pub fn build(self) -> (r: LinkProperties)
        ensures
            r == self@,
    {
        self.props
    }
}

/// Builder for TargetInfo.
pub struct TargetInfoBuilder {
    info: TargetInfo,
}

impl View for TargetInfoBuilder {
    type V = TargetInfo;

    closed spec fn view(&self) -> TargetInfo {
        self.info
    }
}

impl TargetInfoBuilder {
    /// A builder for a Zenoh node target with the given identifier and no
    /// name or address.
    pub fn new(target_id: &str) -> (r: Self)
        ensures
            r@.target_id@ == target_id@,
            r@.target_type == TargetType::ZenohNode,
            r@.name is None,
            r@.address is None,
    {
        TargetInfoBuilder {
            info: TargetInfo {
                target_id: target_id.to_owned(),
                target_type: TargetType::ZenohNode,
                name: None,
                address: None,
            },
        }
    }

    /// Set the target type.
    pub fn target_type(self, t: TargetType) -> (r: Self)
        ensures
            r@ == (TargetInfo { target_type: t, ..self@ }),
    {
        let mut s = self;
        s.info.target_type = t;
        s
    }

    /// Set the human-readable name.
    pub fn name(self, name: &str) -> (r: Self)
        ensures
            r@.name matches Some(n) && n@ == name@,
            r@ == (TargetInfo { name: r@.name, ..self@ }),
    {
        let mut s = self;
        s.info.name = Some(name.to_owned());
        s
    }

    /// Set the address.
    pub fn address(self, addr: &str) -> (r: Self)
        ensures
            r@.address matches Some(a) && a@ == addr@,
            r@ == (TargetInfo { address: r@.address, ..self@ }),
    {
        let mut s = self;
        s.info.address = Some(addr.to_owned());
        s
    }

    /// The target built.
    pub fn build(self) -> (r: TargetInfo)
        ensures
            r == self@,
    {
        self.info
    }
}

/// The locator parameter naming a reliability mode.
pub open spec fn reliability_param(rel: Reliability) -> Seq<char> {
    match rel {
        Reliability::Reliable => "rel=reliable"@,
        Reliability::BestEffort => "rel=best_effort"@,
    }
}

/// The locator parameter `name=min-max` for a priority range.
pub open spec fn range_param(name: Seq<char>, range: PriorityRange) -> Seq<char> {
    name + "="@ + decimal(range.min as nat) + "-"@ + decimal(range.max as nat)
}

/// The locator parameters for the metadata given, in the order reliability,
/// priority range, express range.
pub open spec fn metadata_params(
    reliability: Option<Reliability>,
    priority_range: Option<PriorityRange>,
    express_range: Option<PriorityRange>,
) -> Seq<Seq<char>> {
    (match reliability {
        Some(rel) => seq![reliability_param(rel)],
        None => Seq::<Seq<char>>::empty(),
    }) + (match priority_range {
        Some(p) => seq![range_param("prio"@, p)],
        None => Seq::<Seq<char>>::empty(),
    }) + (match express_range {
        Some(e) => seq![range_param("express"@, e)],
        None => Seq::<Seq<char>>::empty(),
    })
}

/// The parameters joined by `&`.
pub open spec fn join_params(params: Seq<Seq<char>>) -> Seq<char>
    decreases params.len(),
{
    if params.len() == 0 {
        Seq::<char>::empty()
    } else if params.len() == 1 {
        params[0]
    } else {
        join_params(params.drop_last()) + "&"@ + params.last()
    }
}

/// The query part of a locator: nothing without parameters, else `?` and the
/// parameters joined by `&`.
pub open spec fn locator_query(params: Seq<Seq<char>>) -> Seq<char> {
    if params.len() == 0 {
        Seq::<char>::empty()
    } else {
        "?"@ + join_params(params)
    }
}

/// Append one more parameter's separator to a locator whose query holds
/// `params` so far: `?` before the first, `&` before the others.
fn push_param_separator(locator: &mut String, first: bool, Ghost(base): Ghost<Seq<char>>, Ghost(params): Ghost<Seq<Seq<char>>>)
    requires
        first == (params.len() == 0),
        old(locator)@ == base + locator_query(params),
    ensures
        forall|p: Seq<char>| final(locator)@ + p == base + #[trigger] locator_query(params.push(p)),
{
    if first {
        locator.append("?");
    } else {
        locator.append("&");
    }
    assert forall|p: Seq<char>| locator@ + p == base + #[trigger] locator_query(params.push(p)) by {
        assert(params.push(p).drop_last() =~= params);
        if params.len() == 0 {
            assert(join_params(params.push(p)) == p);
        }
        assert(locator@ + p =~= base + locator_query(params.push(p)));
    }
}

/// Append `name=min-max` for a priority range.
fn push_range_param(locator: &mut String, name: &str, range: &PriorityRange)
    ensures
        final(locator)@ == old(locator)@ + range_param(name@, *range),
{
    locator.append(name);
    locator.append("=");
    push_decimal(locator, range.min as u64);
    locator.append("-");
    push_decimal(locator, range.max as u64);
    assert(locator@ =~= old(locator)@ + range_param(name@, *range));
}

/// Builder for LinkAvailable messages.
pub struct LinkAvailableBuilder {
    msg: LinkAvailable,
}

impl View for LinkAvailableBuilder {
    type V = LinkAvailable;

    closed spec fn view(&self) -> LinkAvailable {
        self.msg
    }
}

impl LinkAvailableBuilder {
    /// A builder for the announcement, stamped with the current time, of a
    /// unicast link with the given identifier to the given target, with an
    /// empty locator and default properties with MTU 1500.
    pub fn new(link_id: &str, target: TargetInfo) -> (r: Self)
        ensures
            r@.link_id@ == link_id@,
            r@.link_type == LinkType::Unicast,
            r@.locator@ == Seq::<char>::empty(),
            r@.target == target,
            r@.properties == default_link_properties(1500, 0, 0),
    {
        LinkAvailableBuilder {
            msg: LinkAvailable {
                timestamp_ns: unix_time_ns(),
                link_id: link_id.to_owned(),
                link_type: LinkType::Unicast,
                locator: String::new(),
                target,
                properties: LinkProperties::new(1500, 0, 0),
            },
        }
    }

    /// Set the locator.
    pub fn locator(self, locator: &str) -> (r: Self)
        ensures
            r@.locator@ == locator@,
            r@ == (LinkAvailable { locator: r@.locator, ..self@ }),
    {
        let mut s = self;
        s.msg.locator = locator.to_owned();
        s
    }

    /// Build the locator from a Unix socket path: `unixpipe/` and the path.
    pub fn unix_socket(self, socket_path: &str) -> (r: Self)
        ensures
            r@.locator@ == "unixpipe/"@ + socket_path@,
            r@ == (LinkAvailable { locator: r@.locator, ..self@ }),
    {
        let mut s = self;
        let mut locator = "unixpipe/".to_owned();
        locator.append(socket_path);
        s.msg.locator = locator;
        s
    }

    /// Build the locator from a Unix socket path with metadata: `unixpipe/`,
    /// the path, then, if any metadata is given, `?` and the parameters
    /// `rel=...`, `prio=min-max` and `express=min-max` that are given, joined
    /// by `&`.
    pub fn unix_socket_with_metadata(
        self,
        socket_path: &str,
        reliability: Option<Reliability>,
        priority_range: Option<&PriorityRange>,
        express_range: Option<&PriorityRange>,
    ) -> (r: Self)
        ensures
            r@.locator@ == "unixpipe/"@ + socket_path@ + locator_query(
                metadata_params(
                    reliability,
                    match priority_range {
                        Some(p) => Some(*p),
                        None => None,
                    },
                    match express_range {
                        Some(e) => Some(*e),
                        None => None,
                    },
                ),
            ),
            r@ == (LinkAvailable { locator: r@.locator, ..self@ }),
    {
        let mut locator = "unixpipe/".to_owned();
        locator.append(socket_path);
        let ghost base = locator@;
        let ghost mut params = Seq::<Seq<char>>::empty();
        let mut first = true;
        assert(locator@ =~= base + locator_query(params));
        if let Some(rel) = reliability {
            push_param_separator(&mut locator, first, Ghost(base), Ghost(params));
            let ghost before = locator@;
            match rel {
                Reliability::Reliable => locator.append("rel=reliable"),
                Reliability::BestEffort => locator.append("rel=best_effort"),
            }
            proof {
                assert(before + reliability_param(rel) == base + locator_query(params.push(reliability_param(rel))));
                params = params.push(reliability_param(rel));
            }
            first = false;
        }
        if let Some(prio) = priority_range {
            push_param_separator(&mut locator, first, Ghost(base), Ghost(params));
            let ghost before = locator@;
            push_range_param(&mut locator, "prio", prio);
            proof {
                let q = range_param("prio"@, *prio);
                assert(before + q == base + locator_query(params.push(q)));
                params = params.push(q);
            }
            first = false;
        }
        if let Some(expr) = express_range {
            push_param_separator(&mut locator, first, Ghost(base), Ghost(params));
            let ghost before = locator@;
            push_range_param(&mut locator, "express", expr);
            proof {
                let q = range_param("express"@, *expr);
                assert(before + q == base + locator_query(params.push(q)));
                params = params.push(q);
            }
        }
        proof {
            let ps = metadata_params(
                reliability,
                match priority_range {
                    Some(p) => Some(*p),
                    None => None,
                },
                match express_range {
                    Some(e) => Some(*e),
                    None => None,
                },
            );
            assert(params =~= ps);
        }
        let mut s = self;
        s.msg.locator = locator;
        s
    }

    /// Set the link type.
    pub fn link_type(self, t: LinkType) -> (r: Self)
        ensures
            r@ == (LinkAvailable { link_type: t, ..self@ }),
    {
        let mut s = self;
        s.msg.link_type = t;
        s
    }

    /// Set the link properties.
    pub fn properties(self, props: LinkProperties) -> (r: Self)
        ensures
            r@ == (LinkAvailable { properties: props, ..self@ }),
    {
        let mut s = self;
        s.msg.properties = props;
        s
    }

    /// The announcement built.
    pub fn build(self) -> (r: LinkAvailable)
        ensures
            r == self@,
    {
        self.msg
    }
}

// ============================================================================
// ALERT HELPERS
// ============================================================================

/// Builder for Alert.
pub struct AlertBuilder {
    alert: Alert,
}

impl View for AlertBuilder {
    type V = Alert;

    closed spec fn view(&self) -> Alert {
        self.alert
    }
}

impl AlertBuilder {
    /// A builder for an alert of the given type and severity, stamped with
    /// the current time, with identifier 0, an empty message, empty custom
    /// data and no time to live.
    pub fn new(alert_type: AlertType, severity: AlertSeverity) -> (r: Self)
        ensures
            r@.alert_id == 0,
            r@.severity == severity,
            r@.alert_type == alert_type,
            r@.message@ == Seq::<char>::empty(),
            r@.data matches AlertData::Custom { vendor_type, data } && vendor_type@ == Seq::<char>::empty()
                && data@ == Map::<String, serde_json::Value>::empty(),
            r@.ttl_ms is None,
    {
        AlertBuilder {
            alert: Alert {
                timestamp_ns: unix_time_ns(),
                alert_id: 0,
                severity,
                alert_type,
                message: String::new(),
                data: AlertData::Custom { vendor_type: String::new(), data: HashMap::new() },
                ttl_ms: None,
            },
        }
    }

    /// A warning that the signal is degrading, with the SNR and its trend in
    /// hundredths of a dB (and of a dB per second) and no estimated failure time.
    pub fn signal_degrading_cdb(current_snr_cdb: i32, trend_cdb_per_sec: i32) -> (r: Self)
        ensures
            r@.alert_id == 0,
            r@.severity == AlertSeverity::Warning,
            r@.alert_type == AlertType::SignalDegrading,
            r@.message@ == Seq::<char>::empty(),
            r@.data == (AlertData::SignalDegrading {
                current_snr_cdb,
                trend_cdb_per_sec,
                estimated_failure_ms: None,
            }),
            r@.ttl_ms is None,
    {
        let mut builder = Self::new(AlertType::SignalDegrading, AlertSeverity::Warning);
        builder.alert.data = AlertData::SignalDegrading { current_snr_cdb, trend_cdb_per_sec, estimated_failure_ms: None };
        builder
    }

    /// A warning that a handover is imminent, with its duration and the
    /// expected outage, and the message
    /// `Handover imminent: duration=<d>ms, expected outage=<o>ms`.
    pub fn handover_imminent(duration_ms: u32, outage_ms: u32) -> (r: Self)
        ensures
            r@.alert_id == 0,
            r@.severity == AlertSeverity::Warning,
            r@.alert_type == AlertType::HandoverImminent,
            r@.message@ == "Handover imminent: duration="@ + decimal(duration_ms as nat) + "ms, expected outage="@
                + decimal(outage_ms as nat) + "ms"@,
            r@.data == (AlertData::HandoverImminent {
                current_satellite_id: None,
                next_satellite_id: None,
                estimated_duration_ms: duration_ms,
                expected_outage_ms: outage_ms,
            }),
            r@.ttl_ms is None,
    {
        let mut builder = Self::new(AlertType::HandoverImminent, AlertSeverity::Warning);
        builder.alert.data = AlertData::HandoverImminent {
            current_satellite_id: None,
            next_satellite_id: None,
            estimated_duration_ms: duration_ms,
            expected_outage_ms: outage_ms,
        };
        let mut message = "Handover imminent: duration=".to_owned();
        push_decimal(&mut message, duration_ms as u64);
        message.append("ms, expected outage=");
        push_decimal(&mut message, outage_ms as u64);
        message.append("ms");
        builder.alert.message = message;
        builder
    }

    /// A warning that the bandwidth drops from `current_bps` to
    /// `expected_bps` for the given reason, with the message
    /// `Bandwidth reduction: <current> -> <expected> bps (<reason>)`.
    pub fn bandwidth_reduction(current_bps: u64, expected_bps: u64, reason: &str) -> (r: Self)
        ensures
            r@.alert_id == 0,
            r@.severity == AlertSeverity::Warning,
            r@.alert_type == AlertType::BandwidthReduction,
            r@.message@ == "Bandwidth reduction: "@ + decimal(current_bps as nat) + " -> "@ + decimal(
                expected_bps as nat,
            ) + " bps ("@ + reason@ + ")"@,
            r@.data matches AlertData::BandwidthReduction { current_bps: c, expected_bps: e, reason: why, duration_ms }
                && c == current_bps && e == expected_bps && why@ == reason@ && duration_ms is None,
            r@.ttl_ms is None,
    {
        let mut builder = Self::new(AlertType::BandwidthReduction, AlertSeverity::Warning);
        builder.alert.data = AlertData::BandwidthReduction {
            current_bps,
            expected_bps,
            reason: reason.to_owned(),
            duration_ms: None,
        };
        let mut message = "Bandwidth reduction: ".to_owned();
        push_decimal(&mut message, current_bps);
        message.append(" -> ");
        push_decimal(&mut message, expected_bps);
        message.append(" bps (");
        message.append(reason);
        message.append(")");
        builder.alert.message = message;
        builder
    }

    /// Set the alert identifier.
    pub fn alert_id(self, id: u32) -> (r: Self)
        ensures
            r@ == (Alert { alert_id: id, ..self@ }),
    {
        let mut s = self;
        s.alert.alert_id = id;
        s
    }

    /// Set the message.
    pub fn message(self, msg: &str) -> (r: Self)
        ensures
            r@.message@ == msg@,
            r@ == (Alert { message: r@.message, ..self@ }),
    {
        let mut s = self;
        s.alert.message = msg.to_owned();
        s
    }

    /// Set the time to live.
    pub fn ttl(self, ms: u32) -> (r: Self)
        ensures
            r@ == (Alert { ttl_ms: Some(ms), ..self@ }),
    {
        let mut s = self;
        s.alert.ttl_ms = Some(ms);
        s
    }

    /// Set the severity.
    pub fn severity(self, severity: AlertSeverity) -> (r: Self)
        ensures
            r@ == (Alert { severity, ..self@ }),
    {
        let mut s = self;
        s.alert.severity = severity;
        s
    }

    /// The alert built.
    pub fn build(self) -> (r: Alert)
        ensures
            r == self@,
    {
        self.alert
    }
}

// ============================================================================
// STATE MACHINE
// ============================================================================

/// Whether a modem may move from state `from` to state `to`: any state may
/// go to `Error` or `Disconnected`; from `Error` only `Initializing` is
/// otherwise allowed; then the normal progression
/// `Unknown -> Initializing -> Searching -> Synchronizing -> Connected`,
/// `Connected <-> Degraded`, `Connected <-> HandoverInProgress`,
/// `HandoverInProgress -> Synchronizing`, `Connected -> Standby`,
/// `Standby -> Initializing`, any state to `Maintenance`, and
/// `Maintenance -> Initializing`.
pub open spec fn spec_valid_transition(from: ModemState, to: ModemState) -> bool {
    if to is Error || to is Disconnected {
        true
    } else if from is Error {
        to is Initializing
    } else {
        match (from, to) {
            (ModemState::Unknown, ModemState::Initializing) => true,
            (ModemState::Initializing, ModemState::Searching) => true,
            (ModemState::Searching, ModemState::Synchronizing) => true,
            (ModemState::Synchronizing, ModemState::Connected) => true,
            (ModemState::Connected, ModemState::Degraded) => true,
            (ModemState::Degraded, ModemState::Connected) => true,
            (ModemState::Connected, ModemState::HandoverInProgress) => true,
            (ModemState::HandoverInProgress, ModemState::Connected) => true,
            (ModemState::HandoverInProgress, ModemState::Synchronizing) => true,
            (ModemState::Connected, ModemState::Standby) => true,
            (ModemState::Standby, ModemState::Initializing) => true,
            (_, ModemState::Maintenance) => true,
            (ModemState::Maintenance, ModemState::Initializing) => true,
            _ => false,
        }
    }
}

/// Helper for managing modem state transitions.
pub struct StateMachine {
    current: ModemState,
    previous: ModemState,
    last_change: Instant,
}

impl StateMachine {
    /// The current state.
    pub closed spec fn spec_current(&self) -> ModemState {
        self.current
    }

    /// The state before the last change.
    pub closed spec fn spec_previous(&self) -> ModemState {
        self.previous
    }

    /// A machine in the initial state, which is also its previous state.
    pub fn new(initial: ModemState) -> (r: Self)
        ensures
            r.spec_current() == initial,
            r.spec_previous() == initial,
    {
        StateMachine { current: initial, previous: initial, last_change: instant_now() }
    }

    /// The current state.
    pub fn current(&self) -> (r: ModemState)
        ensures
            r == self.spec_current(),
    {
        self.current
    }

    /// The state before the last change.
    pub fn previous(&self) -> (r: ModemState)
        ensures
            r == self.spec_previous(),
    {
        self.previous
    }

    /// Nanoseconds spent in the current state (from the last change, or
    /// from creation).
    pub fn time_in_state(&self) -> u64 {
        let now = instant_now();
        elapsed_ns(&now, &self.last_change)
    }

    /// Move to `new_state`. Nothing changes, and `None` is returned, when the
    /// machine is already in that state; otherwise the current state becomes
    /// the previous one and the change is returned, stamped with the current
    /// time. Transitions are not validated (see `is_valid_transition`).
    pub fn transition(&mut self, new_state: ModemState) -> (r: Option<StateChange>)
        ensures
            old(self).spec_current() == new_state ==> r is None,
            old(self).spec_current() == new_state ==> final(self).spec_current() == old(self).spec_current(),
            old(self).spec_current() == new_state ==> final(self).spec_previous() == old(self).spec_previous(),
            old(self).spec_current() != new_state ==> final(self).spec_current() == new_state,
            old(self).spec_current() != new_state ==> final(self).spec_previous() == old(self).spec_current(),
            old(self).spec_current() != new_state ==> (r matches Some(c) && c.previous_state == old(self).spec_current()
                && c.current_state == new_state && c.reason is None && c.error_code is None),
    {
        if self.current == new_state {
            return None;
        }
        self.previous = self.current;
        self.current = new_state;
        self.last_change = instant_now();
        Some(
            StateChange {
                timestamp_ns: unix_time_ns(),
                previous_state: self.previous,
                current_state: self.current,
                reason: None,
                error_code: None,
            },
        )
    }

    /// Move to `new_state` as [`StateMachine::transition`] does, and on a
    /// change call `on_change(previous, current)` with the state left and the
    /// state entered. The callback is not called when nothing changes.
    pub fn transition_with<F: Fn(ModemState, ModemState)>(&mut self, new_state: ModemState, on_change: &F) -> (r: Option<StateChange>)
        requires
            forall|a: ModemState, b: ModemState| call_requires(*on_change, (a, b)),
        ensures
            old(self).spec_current() == new_state ==> r is None,
            old(self).spec_current() == new_state ==> final(self).spec_current() == old(self).spec_current(),
            old(self).spec_current() == new_state ==> final(self).spec_previous() == old(self).spec_previous(),
            old(self).spec_current() != new_state ==> final(self).spec_current() == new_state,
            old(self).spec_current() != new_state ==> final(self).spec_previous() == old(self).spec_current(),
            old(self).spec_current() != new_state ==> (r matches Some(c) && c.previous_state == old(self).spec_current()
                && c.current_state == new_state && c.reason is None && c.error_code is None),
            old(self).spec_current() != new_state ==> call_ensures(*on_change, (old(self).spec_current(), new_state), ()),
    {
        let r = self.transition(new_state);
        if r.is_some() {
            let previous = self.previous;
            let current = self.current;
            on_change(previous, current);
        }
        r
    }

    /// Check if valid transition (optional validation).
    pub fn is_valid_transition(from: ModemState, to: ModemState) -> (r: bool)
        ensures
            r == spec_valid_transition(from, to),
    {
        match (from, to) {
            // Any state can go to Error or Disconnected
            (_, ModemState::Error) | (_, ModemState::Disconnected) => true,
            // Error can only go to Initializing or Disconnected
            (ModemState::Error, ModemState::Initializing) => true,
            (ModemState::Error, _) => false,
            // Normal progression
            (ModemState::Unknown, ModemState::Initializing) => true,
            (ModemState::Initializing, ModemState::Searching) => true,
            (ModemState::Searching, ModemState::Synchronizing) => true,
            (ModemState::Synchronizing, ModemState::Connected) => true,
            (ModemState::Connected, ModemState::Degraded) => true,
            (ModemState::Degraded, ModemState::Connected) => true,
            (ModemState::Connected, ModemState::HandoverInProgress) => true,
            (ModemState::HandoverInProgress, ModemState::Connected) => true,
            (ModemState::HandoverInProgress, ModemState::Synchronizing) => true,
            // Standby transitions
            (ModemState::Connected, ModemState::Standby) => true,
            (ModemState::Standby, ModemState::Initializing) => true,
            // Maintenance
            (_, ModemState::Maintenance) => true,
            (ModemState::Maintenance, ModemState::Initializing) => true,
            _ => false,
        }
    }
}

impl Default for StateMachine {
    fn default() -> (r: Self)
        ensures
            r.spec_current() == ModemState::Unknown,
            r.spec_previous() == ModemState::Unknown,
    {
        Self::new(ModemState::Unknown)
    }
}

/// Every state may fail: any state may go to `Error` and to `Disconnected`.
pub proof fn lemma_any_state_may_fail(from: ModemState)
    ensures
        spec_valid_transition(from, ModemState::Error),
        spec_valid_transition(from, ModemState::Disconnected),
{
}

/// From `Error` a modem may only go to `Initializing`, `Disconnected`, or
/// stay in `Error`.
pub proof fn lemma_error_exits(to: ModemState)
    ensures
        spec_valid_transition(ModemState::Error, to) <==> (to is Initializing || to is Disconnected || to is Error),
{
}

/// Every state but `Error` may go to `Maintenance`.
pub proof fn lemma_maintenance_reachable(from: ModemState)
    requires
        !(from is Error),
    ensures
        spec_valid_transition(from, ModemState::Maintenance),
{
}

/// The normal progression of a modem and its side paths are allowed:
/// `Unknown -> Initializing -> Searching -> Synchronizing -> Connected`,
/// `Connected <-> Degraded`, `Connected <-> HandoverInProgress`,
/// `HandoverInProgress -> Synchronizing`, `Connected -> Standby`,
/// `Standby -> Initializing` and `Maintenance -> Initializing`.
pub proof fn lemma_normal_progression_allowed()
    ensures
        spec_valid_transition(ModemState::Unknown, ModemState::Initializing),
        spec_valid_transition(ModemState::Initializing, ModemState::Searching),
        spec_valid_transition(ModemState::Searching, ModemState::Synchronizing),
        spec_valid_transition(ModemState::Synchronizing, ModemState::Connected),
        spec_valid_transition(ModemState::Connected, ModemState::Degraded),
        spec_valid_transition(ModemState::Degraded, ModemState::Connected),
        spec_valid_transition(ModemState::Connected, ModemState::HandoverInProgress),
        spec_valid_transition(ModemState::HandoverInProgress, ModemState::Connected),
        spec_valid_transition(ModemState::HandoverInProgress, ModemState::Synchronizing),
        spec_valid_transition(ModemState::Connected, ModemState::Standby),
        spec_valid_transition(ModemState::Standby, ModemState::Initializing),
        spec_valid_transition(ModemState::Maintenance, ModemState::Initializing),
{
}

/// Outside `Error`, and apart from the moves to `Error`, `Disconnected` and
/// `Maintenance` that are always allowed, a transition is allowed exactly when
/// it is one of the normal progression.
pub proof fn lemma_only_listed_transitions(from: ModemState, to: ModemState)
    requires
        !(from is Error),
        !(to is Error || to is Disconnected || to is Maintenance),
    ensures
        spec_valid_transition(from, to) <==> (
            (from is Unknown && to is Initializing)
            || (from is Initializing && to is Searching)
            || (from is Searching && to is Synchronizing)
            || (from is Synchronizing && to is Connected)
            || (from is Connected && to is Degraded)
            || (from is Degraded && to is Connected)
            || (from is Connected && to is HandoverInProgress)
            || (from is HandoverInProgress && to is Connected)
            || (from is HandoverInProgress && to is Synchronizing)
            || (from is Connected && to is Standby)
            || (from is Standby && to is Initializing)
            || (from is Maintenance && to is Initializing)
        ),
{
}

// ============================================================================
// MODEM SERVER
// ============================================================================

/// Default metrics push interval: 500 ms.
pub const DEFAULT_METRICS_INTERVAL_NS: u64 = 500_000_000;

/// Default heartbeat interval: 5 s.
pub const DEFAULT_HEARTBEAT_INTERVAL_NS: u64 = 5_000_000_000;

/// Server that exposes a modem driver over a Unix socket. The application
/// runs its connection loop; this type holds its settings and decides what
/// each received message is answered with.
pub struct ModemServer<D> {
    driver: Arc<D>,
    socket_path: String,
    metrics_interval_ns: u64,
    heartbeat_interval_ns: u64,
}

/// Builder for ModemServer.
pub struct ModemServerBuilder<D> {
    driver: D,
    socket_path: Option<String>,
    metrics_interval_ns: u64,
    heartbeat_interval_ns: u64,
}

impl<D: ModemDriver> ModemServerBuilder<D> {
    /// The driver the server will expose.
    pub closed spec fn spec_driver(&self) -> D {
        self.driver
    }

    /// The socket path set, if any.
    pub closed spec fn spec_socket_path(&self) -> Option<Seq<char>> {
        match self.socket_path {
            Some(p) => Some(p@),
            None => None,
        }
    }

    /// The metrics push interval, in nanoseconds.
    pub closed spec fn spec_metrics_interval_ns(&self) -> u64 {
        self.metrics_interval_ns
    }

    /// The heartbeat interval, in nanoseconds.
    pub closed spec fn spec_heartbeat_interval_ns(&self) -> u64 {
        self.heartbeat_interval_ns
    }

    /// Create a new builder with the given driver, no socket path, and the
    /// default intervals (500 ms for metrics, 5 s for heartbeats).
    pub fn new(driver: D) -> (r: Self)
        ensures
            r.spec_driver() == driver,
            r.spec_socket_path() is None,
            r.spec_metrics_interval_ns() == DEFAULT_METRICS_INTERVAL_NS,
            r.spec_heartbeat_interval_ns() == DEFAULT_HEARTBEAT_INTERVAL_NS,
    {
        ModemServerBuilder {
            driver,
            socket_path: None,
            metrics_interval_ns: DEFAULT_METRICS_INTERVAL_NS,
            heartbeat_interval_ns: DEFAULT_HEARTBEAT_INTERVAL_NS,
        }
    }

    /// Set the Unix socket path.
    pub fn socket_path(self, path: &str) -> (r: Self)
        ensures
            r.spec_driver() == self.spec_driver(),
            r.spec_socket_path() == Some(path@),
            r.spec_metrics_interval_ns() == self.spec_metrics_interval_ns(),
            r.spec_heartbeat_interval_ns() == self.spec_heartbeat_interval_ns(),
    {
        let mut s = self;
        s.socket_path = Some(path.to_owned());
        s
    }

    /// Set the metrics push interval, in nanoseconds.
    pub fn metrics_interval(self, interval_ns: u64) -> (r: Self)
        ensures
            r.spec_driver() == self.spec_driver(),
            r.spec_socket_path() == self.spec_socket_path(),
            r.spec_metrics_interval_ns() == interval_ns,
            r.spec_heartbeat_interval_ns() == self.spec_heartbeat_interval_ns(),
    {
        let mut s = self;
        s.metrics_interval_ns = interval_ns;
        s
    }

    /// Set the heartbeat interval, in nanoseconds.
    pub fn heartbeat_interval(self, interval_ns: u64) -> (r: Self)
        ensures
            r.spec_driver() == self.spec_driver(),
            r.spec_socket_path() == self.spec_socket_path(),
            r.spec_metrics_interval_ns() == self.spec_metrics_interval_ns(),
            r.spec_heartbeat_interval_ns() == interval_ns,
    {
        let mut s = self;
        s.heartbeat_interval_ns = interval_ns;
        s
    }

    /// Build the server; the socket path defaults to `/run/zenoh/modem.sock`.
    pub fn build(self) -> (r: ModemServer<D>)
        ensures
            r.spec_driver() == self.spec_driver(),
            r.spec_socket_path() == match self.spec_socket_path() {
                Some(p) => p,
                None => "/run/zenoh/modem.sock"@,
            },
            r.spec_metrics_interval_ns() == self.spec_metrics_interval_ns(),
            r.spec_heartbeat_interval_ns() == self.spec_heartbeat_interval_ns(),
    {
        let socket_path = match self.socket_path {
            Some(p) => p,
            None => "/run/zenoh/modem.sock".to_owned(),
        };
        ModemServer {
            driver: Arc::new(self.driver),
            socket_path,
            metrics_interval_ns: self.metrics_interval_ns,
            heartbeat_interval_ns: self.heartbeat_interval_ns,
        }
    }
}

/// What a request is answered with, by kind: `GetMetrics`, `GetState` and
/// `GetInfo` succeed with what the driver's `poll_metrics`, `state` and
/// `info` returned (the state reported as both previous and current); every
/// other request is not supported.
pub open spec fn request_answered<D: ModemDriver>(driver: &D, request: Request, response: Response) -> bool {
    &&& response.request_id == request.request_id
    &&& match request.data {
        RequestData::GetMetrics {} => response.status == ResponseStatus::Success && response.error_message is None
            && (response.data matches Some(ResponseData::Metrics(m)) && call_ensures(D::poll_metrics, (driver,), m)),
        RequestData::GetState {} => response.status == ResponseStatus::Success && response.error_message is None
            && (response.data matches Some(ResponseData::State(c)) && call_ensures(D::state, (driver,), c.current_state)
            && c.previous_state == c.current_state && c.reason is None && c.error_code is None),
        RequestData::GetInfo {} => response.status == ResponseStatus::Success && response.error_message is None
            && (response.data matches Some(ResponseData::Info(i)) && call_ensures(D::info, (driver,), i)),
        _ => response.status == ResponseStatus::NotSupported && response.data is None
            && (response.error_message matches Some(m) && m@ == "Operation not supported"@),
    }
}

impl<D: ModemDriver> ModemServer<D> {
    /// The driver the server exposes.
    pub closed spec fn spec_driver(&self) -> D {
        *self.driver
    }

    /// The Unix socket path.
    pub closed spec fn spec_socket_path(&self) -> Seq<char> {
        self.socket_path@
    }

    /// The metrics push interval, in nanoseconds.
    pub closed spec fn spec_metrics_interval_ns(&self) -> u64 {
        self.metrics_interval_ns
    }

    /// The heartbeat interval, in nanoseconds.
    pub closed spec fn spec_heartbeat_interval_ns(&self) -> u64 {
        self.heartbeat_interval_ns
    }

    /// Create a new server builder.
    pub fn builder(driver: D) -> (r: ModemServerBuilder<D>)
        ensures
            r.spec_driver() == driver,
            r.spec_socket_path() is None,
            r.spec_metrics_interval_ns() == DEFAULT_METRICS_INTERVAL_NS,
            r.spec_heartbeat_interval_ns() == DEFAULT_HEARTBEAT_INTERVAL_NS,
    {
        ModemServerBuilder::new(driver)
    }

    /// The driver the server exposes.
    pub fn driver(&self) -> (r: &Arc<D>)
        ensures
            **r == self.spec_driver(),
    {
        &self.driver
    }

    /// The Unix socket path.
    pub fn socket_path(&self) -> (r: &str)
        ensures
            r@ == self.spec_socket_path(),
    {
        self.socket_path.as_str()
    }

    /// The metrics push interval, in nanoseconds.
    pub fn metrics_interval_ns(&self) -> (r: u64)
        ensures
            r == self.spec_metrics_interval_ns(),
    {
        self.metrics_interval_ns
    }

    /// The heartbeat interval, in nanoseconds.
    pub fn heartbeat_interval_ns(&self) -> (r: u64)
        ensures
            r == self.spec_heartbeat_interval_ns(),
    {
        self.heartbeat_interval_ns
    }

    /// What a received message is answered with: a heartbeat that asks for an
    /// echo gets the echo with its sequence number, a request gets its
    /// response, and nothing else is answered.
    pub fn handle_message(driver: &D, msg: Message) -> (r: Option<Message>)
        ensures
            match msg {
                Message::Heartbeat(hb) => if hb.echo {
                    r matches Some(Message::Heartbeat(h)) && h.seq == hb.seq && !h.echo
                } else {
                    r is None
                },
                Message::Request(req) => r matches Some(Message::Response(resp)) && request_answered(driver, req, resp),
                _ => r is None,
            },
    {
        match msg {
            Message::Heartbeat(hb) => {
                if hb.echo {
                    Some(Message::Heartbeat(Heartbeat::response(hb.seq)))
                } else {
                    None
                }
            },
            Message::Request(req) => {
                let response = Self::handle_request(driver, req);
                Some(Message::Response(response))
            },
            _ => None,
        }
    }

    /// Answer a request: metrics, state and information are read from the
    /// driver; every other request is not supported.
    pub fn handle_request(driver: &D, request: Request) -> (r: Response)
        ensures
            request_answered(driver, request, r),
    {
        match request.data {
            RequestData::GetMetrics {} => {
                let metrics = driver.poll_metrics();
                Response::success_with_data(request.request_id, ResponseData::Metrics(metrics))
            },
            RequestData::GetState {} => {
                let state = driver.state();
                Response::success_with_data(
                    request.request_id,
                    ResponseData::State(
                        StateChange {
                            timestamp_ns: unix_time_ns(),
                            previous_state: state,
                            current_state: state,
                            reason: None,
                            error_code: None,
                        },
                    ),
                )
            },
            RequestData::GetInfo {} => {
                let info = driver.info();
                Response::success_with_data(request.request_id, ResponseData::Info(info))
            },
            _ => Response::not_supported(request.request_id),
        }
    }
}

} // verus!
