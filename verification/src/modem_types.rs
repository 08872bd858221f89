//! Modem driver control-plane message types (protocol 1.1): modem information,
//! metrics, state changes, alerts, requests and responses, configuration, and
//! the link management messages by which a modem announces transport links.
//!
//! Message bodies are encoded with MessagePack by the application; this module
//! holds the message values, their constructors, and the binary frame that
//! carries an encoded body.
use std::collections::HashMap;
use vstd::prelude::*;

use crate::clock::unix_time_ns;
use crate::wire::{be_u32_bytes, be_u32_value, extend_from_slice, lemma_be_u32_roundtrip, push_be_u32};

pub mod error_codes;

verus! {

/// A JSON value carried in the free-form (custom, vendor) fields of messages.
#[verifier::external_type_specification]
#[verifier::external_body]
pub struct ExJsonValue(serde_json::Value);

/// Protocol version (1.1.0)
pub const PROTOCOL_VERSION: u8 = 0x01;

/// Protocol minor version
pub const PROTOCOL_MINOR_VERSION: u8 = 0x01;

/// Maximum message payload size (64KB)
pub const MAX_PAYLOAD_SIZE: usize = 65536;

// ============================================================================
// Frame Header
// ============================================================================

/// Message types for the protocol
#[derive(Debug, Clone, Copy, PartialEq, Eq, Structural)]
pub enum MessageType {
    // OAM Messages (0x01-0x06)
    ModemInfo,
    MetricsUpdate,
    StateChange,
    Alert,
    BandwidthUpdate,
    Heartbeat,
    // Request/Response (0x10-0x13)
    Request,
    Response,
    Configure,
    ConfigureAck,
    // Link Management (0x20-0x24)
    LinkAvailable,
    LinkUnavailable,
    LinkUpdate,
    LinkQuery,
    LinkQueryResponse,
    // Error
    Error,
}

impl MessageType {
    /// The wire code of a message type.
    pub open spec fn spec_code(self) -> u8 {
        match self {
            MessageType::ModemInfo => 0x01,
            MessageType::MetricsUpdate => 0x02,
            MessageType::StateChange => 0x03,
            MessageType::Alert => 0x04,
            MessageType::BandwidthUpdate => 0x05,
            MessageType::Heartbeat => 0x06,
            MessageType::Request => 0x10,
            MessageType::Response => 0x11,
            MessageType::Configure => 0x12,
            MessageType::ConfigureAck => 0x13,
            MessageType::LinkAvailable => 0x20,
            MessageType::LinkUnavailable => 0x21,
            MessageType::LinkUpdate => 0x22,
            MessageType::LinkQuery => 0x23,
            MessageType::LinkQueryResponse => 0x24,
            MessageType::Error => 0xFF,
        }
    }

    /// The wire code of this message type.
    pub fn code(self) -> (r: u8)
        ensures
            r == self.spec_code(),
    {
        match self {
            MessageType::ModemInfo => 0x01,
            MessageType::MetricsUpdate => 0x02,
            MessageType::StateChange => 0x03,
            MessageType::Alert => 0x04,
            MessageType::BandwidthUpdate => 0x05,
            MessageType::Heartbeat => 0x06,
            MessageType::Request => 0x10,
            MessageType::Response => 0x11,
            MessageType::Configure => 0x12,
            MessageType::ConfigureAck => 0x13,
            MessageType::LinkAvailable => 0x20,
            MessageType::LinkUnavailable => 0x21,
            MessageType::LinkUpdate => 0x22,
            MessageType::LinkQuery => 0x23,
            MessageType::LinkQueryResponse => 0x24,
            MessageType::Error => 0xFF,
        }
    }
}

/// Frame header (4 bytes after length)
#[derive(Debug, Clone)]
pub struct FrameHeader {
    pub version: u8,
    pub message_type: MessageType,
    pub reserved: u16,
}

// ============================================================================
// ModemInfo (0x01)
// ============================================================================

/// Static information about a modem, sent once when a connection opens.
#[derive(Debug, Clone)]
pub struct ModemInfo {
    pub modem_id: String,
    pub modem_type: ModemType,
    pub model: String,
    pub firmware_version: String,
    pub serial_number: Option<String>,
    pub capabilities: Capabilities,
    /// Link capabilities - describes transport link provisioning
    pub link_capabilities: Option<LinkCapabilities>,
    pub initial_state: ModemState,
    pub initial_metrics: Metrics,
}

/// The kind of modem.
#[derive(Debug, Clone)]
pub enum ModemType {
    RadioHf,
    RadioVhf,
    RadioUhf,
    RadioTactical,
    RadioMesh,
    SatelliteGeo,
    SatelliteLeo,
    SatelliteMeo,
    AcousticUnderwater,
    OpticalFso,
    Custom(String),
}

/// What a modem can do.
#[derive(Debug, Clone)]
pub struct Capabilities {
    pub supports_reliable_mode: bool,
    pub supports_throughput_mode: bool,
    pub supports_power_control: bool,
    pub supports_frequency_hop: bool,
    pub supports_encryption: bool,
    pub max_bandwidth_bps: u64,
    pub min_bandwidth_bps: u64,
    pub metrics_interval_ms: u32,
    pub custom_capabilities: HashMap<String, String>,
}

// ============================================================================
// ModemState
// ============================================================================

/// The operational state of a modem.
#[derive(Debug, Clone, Copy, PartialEq, Eq, Structural)]
pub enum ModemState {
    Unknown,
    Initializing,
    Searching,
    Synchronizing,
    Connected,
    Degraded,
    HandoverInProgress,
    Standby,
    Disconnected,
    Error,
    Maintenance,
}

impl Default for ModemState {
    fn default() -> (r: Self)
        ensures
            r == ModemState::Unknown,
    {
        ModemState::Unknown
    }
}

// ============================================================================
// MetricsUpdate (0x02)
// ============================================================================

/// A periodic report of link metrics.
#[derive(Debug, Clone)]
pub struct MetricsUpdate {
    pub timestamp_ns: u64,
    pub seq: u32,
    pub signal: SignalMetrics,
    pub errors: ErrorMetrics,
    pub bandwidth: BandwidthMetrics,
    pub satellite: Option<SatelliteMetrics>,
    pub radio: Option<RadioMetrics>,
    pub acoustic: Option<AcousticMetrics>,
    pub custom: HashMap<String, serde_json::Value>,
}

/// Alias for MetricsUpdate (used in ModemInfo)
pub type Metrics = MetricsUpdate;

/// Signal quality, in hundredths of the usual units.
#[derive(Debug, Clone)]
pub struct SignalMetrics {
    /// SNR in centidecibels (dB * 100)
    pub snr_cdb: i32,
    /// RSSI in centi-dBm (dBm * 100)
    pub rssi_cdbm: i32,
    /// Signal quality 0-100%
    pub signal_quality_pct: u8,
    /// Noise floor in centi-dBm
    pub noise_floor_cdbm: Option<i32>,
}

/// Error rates and counts.
#[derive(Debug, Clone)]
pub struct ErrorMetrics {
    /// BER as 10^(-exponent), e.g., 6 = 10^-6
    pub ber_exponent: i8,
    /// Packet Error Rate in parts per million
    pub per_ppm: u32,
    /// Frame Error Rate in parts per million
    pub fer_ppm: u32,
    /// CRC error count since last report
    pub crc_errors: u32,
    /// Retransmit count since last report
    pub retransmits: u32,
}

/// Rates, available bandwidth and transmit queue.
#[derive(Debug, Clone)]
pub struct BandwidthMetrics {
    /// Current TX rate in bps
    pub tx_rate_bps: u64,
    /// Current RX rate in bps
    pub rx_rate_bps: u64,
    /// Estimated available bandwidth in bps
    pub available_bps: u64,
    /// Link utilization 0-100%
    pub utilization_pct: u8,
    /// TX queue depth in bytes
    pub queue_depth_bytes: u32,
    /// TX queue capacity in bytes
    pub queue_capacity_bytes: u32,
}

/// Metrics specific to satellite modems.
#[derive(Debug, Clone)]
pub struct SatelliteMetrics {
    /// Elevation in centidegrees (deg * 100)
    pub elevation_cdeg: i16,
    /// Azimuth in centidegrees
    pub azimuth_cdeg: u16,
    /// Doppler shift in Hz
    pub doppler_hz: i32,
    /// Range to satellite in km
    pub range_km: Option<u32>,
    /// Satellite identifier
    pub satellite_id: Option<String>,
    /// Beam identifier
    pub beam_id: Option<String>,
    /// Handover imminent
    pub handover_pending: bool,
    /// Estimated ms until handover
    pub time_to_handover_ms: Option<u32>,
}

/// Metrics specific to radio modems.
#[derive(Debug, Clone)]
pub struct RadioMetrics {
    /// TX power in centi-dBm
    pub tx_power_cdbm: i16,
    /// Current frequency in Hz
    pub frequency_hz: u64,
    /// Channel bandwidth in Hz
    pub bandwidth_hz: u32,
    /// Current modulation scheme
    pub modulation: String,
    /// FEC rate
    pub fec_rate: String,
    /// Frequency hopping active
    pub hopping: bool,
    /// Encryption active
    pub crypto_active: bool,
}

/// Metrics specific to underwater acoustic modems.
#[derive(Debug, Clone)]
pub struct AcousticMetrics {
    /// Multipath spread in microseconds
    pub multipath_spread_us: u32,
    /// Doppler spread in centi-Hz
    pub doppler_spread_chz: i16,
    /// One-way propagation delay in ms
    pub propagation_delay_ms: u32,
    /// Ambient noise level in centi-dB
    pub ambient_noise_cdb: i16,
    /// Water temperature in centi-Celsius
    pub water_temp_cdc: Option<i16>,
}

// ============================================================================
// StateChange (0x03)
// ============================================================================

/// A change of modem state.
#[derive(Debug, Clone)]
pub struct StateChange {
    pub timestamp_ns: u64,
    pub previous_state: ModemState,
    pub current_state: ModemState,
    pub reason: Option<String>,
    pub error_code: Option<u32>,
}

// ============================================================================
// Alert (0x04)
// ============================================================================

/// A predictive alert about link quality.
#[derive(Debug, Clone)]
pub struct Alert {
    pub timestamp_ns: u64,
    pub alert_id: u32,
    pub severity: AlertSeverity,
    pub alert_type: AlertType,
    pub message: String,
    pub data: AlertData,
    pub ttl_ms: Option<u32>,
}

/// How serious an alert is.
#[derive(Debug, Clone, Copy, PartialEq, Eq, Structural)]
pub enum AlertSeverity {
    Info,
    Warning,
    Critical,
}

/// What an alert is about.
#[derive(Debug, Clone, Copy, PartialEq, Eq, Structural)]
pub enum AlertType {
    SignalDegrading,
    HandoverImminent,
    LinkFailureImminent,
    BandwidthReduction,
    InterferenceDetected,
    EncryptionKeyExpiring,
    HardwareFault,
    TemperatureWarning,
    PowerIssue,
    Custom,
}

/// The details of an alert, by kind.
#[derive(Debug, Clone)]
pub enum AlertData {
    SignalDegrading {
        current_snr_cdb: i32,
        trend_cdb_per_sec: i32,
        estimated_failure_ms: Option<u32>,
    },
    HandoverImminent {
        current_satellite_id: Option<String>,
        next_satellite_id: Option<String>,
        estimated_duration_ms: u32,
        expected_outage_ms: u32,
    },
    LinkFailureImminent {
        reason: String,
        estimated_time_ms: u32,
    },
    BandwidthReduction {
        current_bps: u64,
        expected_bps: u64,
        reason: String,
        duration_ms: Option<u32>,
    },
    InterferenceDetected {
        frequency_hz: Option<u64>,
        estimated_source: Option<String>,
        mitigation_active: bool,
    },
    Custom {
        vendor_type: String,
        data: HashMap<String, serde_json::Value>,
    },
}

// ============================================================================
// BandwidthUpdate (0x05)
// ============================================================================

/// A change of the available bandwidth.
#[derive(Debug, Clone)]
pub struct BandwidthUpdate {
    pub timestamp_ns: u64,
    pub available_tx_bps: u64,
    pub available_rx_bps: u64,
    pub max_tx_bps: u64,
    pub max_rx_bps: u64,
    pub reason: BandwidthChangeReason,
    pub duration_estimate_ms: Option<u32>,
}

/// Why the bandwidth changed.
#[derive(Debug, Clone, Copy, PartialEq, Eq, Structural)]
pub enum BandwidthChangeReason {
    ModulationChange,
    FecChange,
    PowerChange,
    Congestion,
    Interference,
    ScheduledEvent,
    WeatherImpact,
    HandoverTransition,
    UserRequested,
    Recovery,
}

// ============================================================================
// Heartbeat (0x06)
// ============================================================================

/// A keep-alive message.
#[derive(Debug, Clone)]
pub struct Heartbeat {
    pub timestamp_ns: u64,
    pub seq: u32,
    /// true = request echo, false = echo response
    pub echo: bool,
}

// ============================================================================
// Request (0x10)
// ============================================================================

/// A request from Zenoh to the modem.
#[derive(Debug, Clone)]
pub struct Request {
    pub request_id: u32,
    pub request_type: RequestType,
    pub data: RequestData,
}

/// The kind of a request.
#[derive(Debug, Clone, Copy, PartialEq, Eq, Structural)]
pub enum RequestType {
    GetMetrics,
    GetState,
    GetInfo,
    SetMode,
    TrafficHint,
    DiagnosticTest,
    Custom,
}

/// The details of a request, by kind.
#[derive(Debug, Clone)]
pub enum RequestData {
    GetMetrics {},
    GetState {},
    GetInfo {},
    SetMode {
        mode: OperatingMode,
        duration_ms: Option<u32>,
    },
    TrafficHint {
        expected_tx_bps: u64,
        expected_rx_bps: u64,
        /// Zenoh priority (0-7)
        priority: u8,
        duration_ms: u32,
        reliable: bool,
        latency_budget_ms: Option<u32>,
    },
    DiagnosticTest {
        test_type: String,
        parameters: HashMap<String, serde_json::Value>,
    },
    Custom {
        vendor_type: String,
        data: HashMap<String, serde_json::Value>,
    },
}

/// A modem operating mode.
#[derive(Debug, Clone, Copy, PartialEq, Eq, Structural)]
pub enum OperatingMode {
    Normal,
    Reliable,
    Throughput,
    LowPower,
    LowLatency,
    Stealth,
}

impl Default for OperatingMode {
    fn default() -> (r: Self)
        ensures
            r == OperatingMode::Normal,
    {
        OperatingMode::Normal
    }
}

// ============================================================================
// Response (0x11)
// ============================================================================

/// The modem's answer to a request.
#[derive(Debug, Clone)]
pub struct Response {
    pub request_id: u32,
    pub status: ResponseStatus,
    pub data: Option<ResponseData>,
    pub error_message: Option<String>,
}

/// The outcome of a request.
#[derive(Debug, Clone, Copy, PartialEq, Eq, Structural)]
pub enum ResponseStatus {
    Success,
    InvalidRequest,
    NotSupported,
    Busy,
    Failed,
    Timeout,
    PermissionDenied,
}

/// The data returned for a request, by kind.
#[derive(Debug, Clone)]
pub enum ResponseData {
    Metrics(MetricsUpdate),
    State(StateChange),
    Info(ModemInfo),
    ModeSet {
        applied_mode: OperatingMode,
        effective_until_ns: Option<u64>,
    },
    TrafficHintAck {
        accepted: bool,
        adjusted_tx_bps: Option<u64>,
        adjusted_rx_bps: Option<u64>,
    },
    DiagnosticResult {
        test_type: String,
        passed: bool,
        results: HashMap<String, serde_json::Value>,
    },
    Custom {
        vendor_type: String,
        data: HashMap<String, serde_json::Value>,
    },
}

// ============================================================================
// Configure (0x12)
// ============================================================================

/// A configuration update from Zenoh.
#[derive(Debug, Clone)]
pub struct Configure {
    pub config_id: u32,
    pub config_type: ConfigType,
    pub data: ConfigData,
}

/// The kind of a configuration update.
#[derive(Debug, Clone, Copy, PartialEq, Eq, Structural)]
pub enum ConfigType {
    MetricsInterval,
    AlertThresholds,
    PowerLimits,
    BandwidthLimits,
    Custom,
}

/// The details of a configuration update, by kind.
#[derive(Debug, Clone)]
pub enum ConfigData {
    MetricsInterval {
        interval_ms: u32,
    },
    AlertThresholds {
        snr_warning_cdb: Option<i32>,
        snr_critical_cdb: Option<i32>,
        loss_warning_pct: Option<u8>,
        loss_critical_pct: Option<u8>,
    },
    PowerLimits {
        max_tx_power_cdbm: Option<i16>,
        min_tx_power_cdbm: Option<i16>,
    },
    BandwidthLimits {
        max_tx_bps: Option<u64>,
        max_rx_bps: Option<u64>,
    },
    Custom {
        vendor_type: String,
        data: HashMap<String, serde_json::Value>,
    },
}

// ============================================================================
// ConfigureAck (0x13)
// ============================================================================

/// The modem's answer to a configuration update.
#[derive(Debug, Clone)]
pub struct ConfigureAck {
    pub config_id: u32,
    pub status: ResponseStatus,
    pub applied_config: Option<ConfigData>,
    pub error_message: Option<String>,
}

// ============================================================================
// Link Management Types
// ============================================================================

/// Link type enumeration
#[derive(Debug, Clone, Copy, PartialEq, Eq, Structural)]
pub enum LinkType {
    Unicast,
    Broadcast,
    Multicast,
}

impl Default for LinkType {
    fn default() -> (r: Self)
        ensures
            r == LinkType::Unicast,
    {
        LinkType::Unicast
    }
}

/// Target type enumeration
#[derive(Debug, Clone, Copy, PartialEq, Eq, Structural)]
pub enum TargetType {
    ZenohNode,
    Gateway,
    Relay,
    Broadcast,
}

impl Default for TargetType {
    fn default() -> (r: Self)
        ensures
            r == TargetType::ZenohNode,
    {
        TargetType::ZenohNode
    }
}

/// Reliability mode for links
#[derive(Debug, Clone, Copy, PartialEq, Eq, Structural)]
pub enum Reliability {
    Reliable,
    BestEffort,
}

impl Default for Reliability {
    fn default() -> (r: Self)
        ensures
            r == Reliability::Reliable,
    {
        Reliability::Reliable
    }
}

/// Link capabilities - describes what the modem can provide for transport links
#[derive(Debug, Clone)]
pub struct LinkCapabilities {
    /// Base path for Unix sockets (e.g., "/run/zenoh/modem/radio0")
    pub socket_base_path: String,
    /// Unicast link capabilities
    pub unicast: UnicastCapabilities,
    /// Broadcast link capabilities (if supported)
    pub broadcast: Option<BroadcastCapabilities>,
    /// Multicast link capabilities (if supported)
    pub multicast: Option<MulticastCapabilities>,
}

/// Unicast link capabilities
#[derive(Debug, Clone)]
pub struct UnicastCapabilities {
    /// Maximum MTU supported
    pub max_mtu: u32,
    /// Minimum MTU supported
    pub min_mtu: u32,
    /// Whether priority levels are supported
    pub supports_priorities: bool,
    /// Supported priority range (if supports_priorities is true)
    pub priority_range: Option<PriorityRange>,
    /// Whether express (fast-path) is supported
    pub supports_express: bool,
    /// Priority threshold for express treatment (priorities 0 to this value get express)
    pub express_priority_threshold: Option<u8>,
    /// Whether reliable delivery is supported
    pub supports_reliable: bool,
    /// Whether best-effort delivery is supported
    pub supports_best_effort: bool,
    /// Default reliability mode
    pub default_reliability: Reliability,
    /// Maximum number of concurrent targets
    pub max_targets: u32,
    /// Maximum pending bytes in TX queue
    pub max_pending_bytes: u32,
}

/// Priority range specification
#[derive(Debug, Clone, Copy, PartialEq, Eq, Structural)]
pub struct PriorityRange {
    /// Minimum priority value (highest priority)
    pub min: u8,
    /// Maximum priority value (lowest priority)
    pub max: u8,
}

/// Broadcast link capabilities
#[derive(Debug, Clone)]
pub struct BroadcastCapabilities {
    /// Maximum MTU for broadcast
    pub max_mtu: u32,
    /// Maximum recipients for broadcast
    pub max_recipients: u32,
    /// Whether broadcast supports reliable delivery
    pub supports_reliable: bool,
}

/// Multicast link capabilities
#[derive(Debug, Clone)]
pub struct MulticastCapabilities {
    /// Maximum MTU for multicast
    pub max_mtu: u32,
    /// Maximum multicast groups
    pub max_groups: u32,
    /// Maximum members per group
    pub max_members_per_group: u32,
}

/// Target information for link management
#[derive(Debug, Clone)]
pub struct TargetInfo {
    /// Unique target identifier
    pub target_id: String,
    /// Type of target
    pub target_type: TargetType,
    /// Human-readable target name
    pub name: Option<String>,
    /// Target address (modem-specific format)
    pub address: Option<String>,
}

/// Link properties (current state)
#[derive(Debug, Clone)]
pub struct LinkProperties {
    /// Maximum transfer unit
    pub mtu: u32,
    /// Current bandwidth in bps
    pub bandwidth_bps: u64,
    /// One-way latency estimate in microseconds
    pub latency_us: u32,
    /// Reliability mode
    pub reliability: Reliability,
    /// Supported priority range
    pub priority_range: Option<PriorityRange>,
    /// Whether express is available on this link
    pub express_available: bool,
}

/// The properties a link starts with: the given MTU, bandwidth and latency,
/// reliable delivery, no priority range and no express path.
pub open spec fn default_link_properties(mtu: u32, bandwidth_bps: u64, latency_us: u32) -> LinkProperties {
    LinkProperties {
        mtu,
        bandwidth_bps,
        latency_us,
        reliability: Reliability::Reliable,
        priority_range: None,
        express_available: false,
    }
}

impl LinkProperties {
    /// Create default properties
    pub fn new(mtu: u32, bandwidth_bps: u64, latency_us: u32) -> (r: Self)
        ensures
            r == default_link_properties(mtu, bandwidth_bps, latency_us),
    {
        LinkProperties {
            mtu,
            bandwidth_bps,
            latency_us,
            reliability: Reliability::default(),
            priority_range: None,
            express_available: false,
        }
    }
}

/// Reason for link unavailability
#[derive(Debug, Clone, Copy, PartialEq, Eq, Structural)]
pub enum LinkUnavailableReason {
    TargetUnreachable,
    LinkFailure,
    Timeout,
    Shutdown,
    ResourceExhausted,
    ConfigurationChange,
    Other,
}

impl Default for LinkUnavailableReason {
    fn default() -> (r: Self)
        ensures
            r == LinkUnavailableReason::Other,
    {
        LinkUnavailableReason::Other
    }
}

// ============================================================================
// Link Management Messages (0x20-0x24)
// ============================================================================

/// LinkAvailable (0x20) - Modem notifies Zenoh that a link to a target is available
#[derive(Debug, Clone)]
pub struct LinkAvailable {
    /// Timestamp in nanoseconds since epoch
    pub timestamp_ns: u64,
    /// Unique identifier for this link
    pub link_id: String,
    /// Type of link
    pub link_type: LinkType,
    /// Zenoh locator string (e.g., "unixpipe//run/zenoh/modem/radio0/targets/node1.sock")
    pub locator: String,
    /// Target information
    pub target: TargetInfo,
    /// Initial link properties
    pub properties: LinkProperties,
}

impl LinkAvailable {
    /// Create a new LinkAvailable message with current timestamp: a unicast
    /// link with an MTU of 1500 and otherwise default properties.
    pub fn new(link_id: &str, locator: &str, target: TargetInfo) -> (r: Self)
        ensures
            r.link_id@ == link_id@,
            r.link_type == LinkType::Unicast,
            r.locator@ == locator@,
            r.target == target,
            r.properties == default_link_properties(1500, 0, 0),
    {
        LinkAvailable {
            timestamp_ns: unix_time_ns(),
            link_id: link_id.to_owned(),
            link_type: LinkType::Unicast,
            locator: locator.to_owned(),
            target,
            properties: LinkProperties::new(1500, 0, 0),
        }
    }

    /// Set link type
    pub fn with_link_type(self, link_type: LinkType) -> (r: Self)
        ensures
            r == (LinkAvailable { link_type, ..self }),
    {
        let mut s = self;
        s.link_type = link_type;
        s
    }

    /// Set link properties
    pub fn with_properties(self, properties: LinkProperties) -> (r: Self)
        ensures
            r == (LinkAvailable { properties, ..self }),
    {
        let mut s = self;
        s.properties = properties;
        s
    }
}

/// LinkUnavailable (0x21) - Modem notifies Zenoh that a link is no longer available
#[derive(Debug, Clone)]
pub struct LinkUnavailable {
    /// Timestamp in nanoseconds since epoch
    pub timestamp_ns: u64,
    /// Link identifier (must match a previously announced link)
    pub link_id: String,
    /// Reason for unavailability
    pub reason: LinkUnavailableReason,
    /// Human-readable message
    pub message: Option<String>,
    /// Whether the link may become available again
    pub may_reconnect: bool,
    /// Estimated time until reconnection in milliseconds (if may_reconnect is true)
    pub estimated_reconnect_ms: Option<u32>,
}

impl LinkUnavailable {
    /// Create a new LinkUnavailable message with current timestamp, no message
    /// and no reconnection expected.
    pub fn new(link_id: &str, reason: LinkUnavailableReason) -> (r: Self)
        ensures
            r.link_id@ == link_id@,
            r.reason == reason,
            r.message is None,
            !r.may_reconnect,
            r.estimated_reconnect_ms is None,
    {
        LinkUnavailable {
            timestamp_ns: unix_time_ns(),
            link_id: link_id.to_owned(),
            reason,
            message: None,
            may_reconnect: false,
            estimated_reconnect_ms: None,
        }
    }

    /// Set human-readable message
    pub fn with_message(self, message: &str) -> (r: Self)
        ensures
            r.message matches Some(m) && m@ == message@,
            r.timestamp_ns == self.timestamp_ns,
            r.link_id == self.link_id,
            r.reason == self.reason,
            r.may_reconnect == self.may_reconnect,
            r.estimated_reconnect_ms == self.estimated_reconnect_ms,
    {
        let mut s = self;
        s.message = Some(message.to_owned());
        s
    }

    /// Indicate that reconnection may occur
    pub fn may_reconnect_in(self, estimated_ms: u32) -> (r: Self)
        ensures
            r == (LinkUnavailable { may_reconnect: true, estimated_reconnect_ms: Some(estimated_ms), ..self }),
    {
        let mut s = self;
        s.may_reconnect = true;
        s.estimated_reconnect_ms = Some(estimated_ms);
        s
    }
}

/// LinkUpdate (0x22) - Modem updates link properties
#[derive(Debug, Clone)]
pub struct LinkUpdate {
    /// Timestamp in nanoseconds since epoch
    pub timestamp_ns: u64,
    /// Link identifier (must match a previously announced link)
    pub link_id: String,
    /// Updated properties
    pub properties: LinkProperties,
    /// Reason for update
    pub reason: Option<String>,
}

impl LinkUpdate {
    /// Create a new LinkUpdate message with current timestamp and no reason.
    pub fn new(link_id: &str, properties: LinkProperties) -> (r: Self)
        ensures
            r.link_id@ == link_id@,
            r.properties == properties,
            r.reason is None,
    {
        LinkUpdate { timestamp_ns: unix_time_ns(), link_id: link_id.to_owned(), properties, reason: None }
    }

    /// Set update reason
    pub fn with_reason(self, reason: &str) -> (r: Self)
        ensures
            r.reason matches Some(m) && m@ == reason@,
            r.timestamp_ns == self.timestamp_ns,
            r.link_id == self.link_id,
            r.properties == self.properties,
    {
        let mut s = self;
        s.reason = Some(reason.to_owned());
        s
    }
}

/// LinkQuery (0x23) - Zenoh queries modem for current links
#[derive(Debug, Clone)]
pub struct LinkQuery {
    /// Query identifier for matching response
    pub query_id: u32,
    /// Optional filter by link type
    pub link_type_filter: Option<LinkType>,
    /// Optional filter by target ID pattern (glob)
    pub target_filter: Option<String>,
}

impl LinkQuery {
    /// Create a new LinkQuery with no filters.
    pub fn new(query_id: u32) -> (r: Self)
        ensures
            r == (LinkQuery { query_id, link_type_filter: None, target_filter: None }),
    {
        LinkQuery { query_id, link_type_filter: None, target_filter: None }
    }

    /// Filter by link type
    pub fn with_link_type(self, link_type: LinkType) -> (r: Self)
        ensures
            r == (LinkQuery { link_type_filter: Some(link_type), ..self }),
    {
        let mut s = self;
        s.link_type_filter = Some(link_type);
        s
    }

    /// Filter by target pattern
    pub fn with_target_filter(self, pattern: &str) -> (r: Self)
        ensures
            r.query_id == self.query_id,
            r.link_type_filter == self.link_type_filter,
            r.target_filter matches Some(p) && p@ == pattern@,
    {
        let mut s = self;
        s.target_filter = Some(pattern.to_owned());
        s
    }
}

/// LinkQueryResponse (0x24) - Modem responds with current links
#[derive(Debug, Clone)]
pub struct LinkQueryResponse {
    /// Query identifier (matches LinkQuery.query_id)
    pub query_id: u32,
    /// List of currently available links
    pub links: Vec<LinkAvailable>,
}

impl LinkQueryResponse {
    /// Create a new LinkQueryResponse
    pub fn new(query_id: u32, links: Vec<LinkAvailable>) -> (r: Self)
        ensures
            r.query_id == query_id,
            r.links@ == links@,
    {
        LinkQueryResponse { query_id, links }
    }
}

// ============================================================================
// Error (0xFF)
// ============================================================================

/// An error reported by the modem.
#[derive(Debug, Clone)]
pub struct Error {
    pub error_code: u32,
    pub severity: ErrorSeverity,
    pub message: String,
    pub recoverable: bool,
    pub context: HashMap<String, serde_json::Value>,
}

/// How serious an error is.
#[derive(Debug, Clone, Copy, PartialEq, Eq, Structural)]
pub enum ErrorSeverity {
    Warning,
    Error,
    Fatal,
}

// ============================================================================
// Message Envelope
// ============================================================================

/// Unified message enum for serialization/deserialization
#[derive(Debug, Clone)]
pub enum Message {
    // OAM Messages
    ModemInfo(ModemInfo),
    MetricsUpdate(MetricsUpdate),
    StateChange(StateChange),
    Alert(Alert),
    BandwidthUpdate(BandwidthUpdate),
    Heartbeat(Heartbeat),
    // Request/Response
    Request(Request),
    Response(Response),
    Configure(Configure),
    ConfigureAck(ConfigureAck),
    // Link Management
    LinkAvailable(LinkAvailable),
    LinkUnavailable(LinkUnavailable),
    LinkUpdate(LinkUpdate),
    LinkQuery(LinkQuery),
    LinkQueryResponse(LinkQueryResponse),
    // Error
    Error(Error),
}

impl Message {
    /// The message type of each kind of message.
    pub open spec fn spec_message_type(&self) -> MessageType {
        match self {
            Message::ModemInfo(_) => MessageType::ModemInfo,
            Message::MetricsUpdate(_) => MessageType::MetricsUpdate,
            Message::StateChange(_) => MessageType::StateChange,
            Message::Alert(_) => MessageType::Alert,
            Message::BandwidthUpdate(_) => MessageType::BandwidthUpdate,
            Message::Heartbeat(_) => MessageType::Heartbeat,
            Message::Request(_) => MessageType::Request,
            Message::Response(_) => MessageType::Response,
            Message::Configure(_) => MessageType::Configure,
            Message::ConfigureAck(_) => MessageType::ConfigureAck,
            Message::LinkAvailable(_) => MessageType::LinkAvailable,
            Message::LinkUnavailable(_) => MessageType::LinkUnavailable,
            Message::LinkUpdate(_) => MessageType::LinkUpdate,
            Message::LinkQuery(_) => MessageType::LinkQuery,
            Message::LinkQueryResponse(_) => MessageType::LinkQueryResponse,
            Message::Error(_) => MessageType::Error,
        }
    }

    /// Get the message type ID
    pub fn message_type(&self) -> (r: MessageType)
        ensures
            r == self.spec_message_type(),
    {
        match self {
            Message::ModemInfo(_) => MessageType::ModemInfo,
            Message::MetricsUpdate(_) => MessageType::MetricsUpdate,
            Message::StateChange(_) => MessageType::StateChange,
            Message::Alert(_) => MessageType::Alert,
            Message::BandwidthUpdate(_) => MessageType::BandwidthUpdate,
            Message::Heartbeat(_) => MessageType::Heartbeat,
            Message::Request(_) => MessageType::Request,
            Message::Response(_) => MessageType::Response,
            Message::Configure(_) => MessageType::Configure,
            Message::ConfigureAck(_) => MessageType::ConfigureAck,
            Message::LinkAvailable(_) => MessageType::LinkAvailable,
            Message::LinkUnavailable(_) => MessageType::LinkUnavailable,
            Message::LinkUpdate(_) => MessageType::LinkUpdate,
            Message::LinkQuery(_) => MessageType::LinkQuery,
            Message::LinkQueryResponse(_) => MessageType::LinkQueryResponse,
            Message::Error(_) => MessageType::Error,
        }
    }

    /// Check if this is a link management message
    pub fn is_link_management(&self) -> (r: bool)
        ensures
            r == (self is LinkAvailable || self is LinkUnavailable || self is LinkUpdate || self is LinkQuery
                || self is LinkQueryResponse),
    {
        match self {
            Message::LinkAvailable(_) | Message::LinkUnavailable(_) | Message::LinkUpdate(_) | Message::LinkQuery(
                _,
            ) | Message::LinkQueryResponse(_) => true,
            _ => false,
        }
    }
}

// ============================================================================
// Codec
// ============================================================================

/// The frame of an encoded message: a big-endian `u32` length (4 plus the
/// payload length, kept to 32 bits), then the protocol version, the message
/// type code, two reserved zero bytes, and the payload.
pub open spec fn spec_message_frame(message_type: MessageType, payload: Seq<u8>) -> Seq<u8> {
    be_u32_bytes(((4 + payload.len()) % 0x1_0000_0000) as u32) + seq![
        PROTOCOL_VERSION,
        message_type.spec_code(),
        0u8,
        0u8,
    ] + payload
}

/// Frame an encoded message body: the length prefix, the 4-byte header,
/// then `payload`.
pub fn frame_message(message_type: MessageType, payload: &[u8]) -> (r: Vec<u8>)
    requires
        payload@.len() + 4 <= usize::MAX,
    ensures
        r@ == spec_message_frame(message_type, payload@),
{
    let total_len: usize = 4 + payload.len();
    let total64: u64 = total_len as u64;
    let len32: u32 = #[verifier::truncate] (total64 as u32);
    assert(len32 == (total64 % 0x1_0000_0000) as u32) by (bit_vector)
        requires
            len32 == total64 as u32,
    ;
    let mut buf: Vec<u8> = Vec::new();
    push_be_u32(&mut buf, len32);
    buf.push(PROTOCOL_VERSION);
    buf.push(message_type.code());
    buf.push(0u8);
    buf.push(0u8);
    extend_from_slice(&mut buf, payload);
    assert(buf@ =~= spec_message_frame(message_type, payload@));
    buf
}

/// The length announced by a frame's 4-byte prefix, or `None` when it
/// exceeds the largest frame accepted (the maximum payload and the header).
pub fn incoming_frame_length(prefix: [u8; 4]) -> (r: Option<usize>)
    ensures
        ({
            let n = be_u32_value(prefix@[0], prefix@[1], prefix@[2], prefix@[3]);
            &&& n <= MAX_PAYLOAD_SIZE + 4 ==> r == Some(n as usize)
            &&& n > MAX_PAYLOAD_SIZE + 4 ==> r is None
        }),
{
    let n = crate::wire::u32_from_be(prefix[0], prefix[1], prefix[2], prefix[3]);
    if n as u64 > MAX_PAYLOAD_SIZE as u64 + 4 {
        None
    } else {
        Some(n as usize)
    }
}

/// Why a received message could not be read.
#[derive(Debug, Clone, Copy, PartialEq, Eq, Structural)]
pub enum DecodeError {
    /// Fewer than 4 bytes
    TooShort,
    /// A protocol version other than 1
    UnsupportedVersion(u8),
}

/// The encoded body of a message (the bytes after its length prefix), or why
/// it cannot be read.
pub open spec fn spec_message_body(data: Seq<u8>) -> Result<Seq<u8>, DecodeError> {
    if data.len() < 4 {
        Err(DecodeError::TooShort)
    } else if data[0] != PROTOCOL_VERSION {
        Err(DecodeError::UnsupportedVersion(data[0]))
    } else {
        Ok(data.subrange(4, data.len() as int))
    }
}

/// Check the header of a message (after its length prefix) and return the
/// encoded body that follows it. The message type byte and the reserved
/// bytes are not checked: the body names its own type.
pub fn decode_message_frame(data: &[u8]) -> (r: Result<&[u8], DecodeError>)
    ensures
        match spec_message_body(data@) {
            Ok(body) => r matches Ok(b) && b@ == body,
            Err(e) => r == Err::<&[u8], DecodeError>(e),
        },
{
    if data.len() < 4 {
        return Err(DecodeError::TooShort);
    }
    let version = data[0];
    if version != PROTOCOL_VERSION {
        return Err(DecodeError::UnsupportedVersion(version));
    }
    Ok(vstd::slice::slice_subrange(data, 4, data.len()))
}

/// Reading a frame that was written gives back its payload: the length prefix
/// counts the 4 header bytes and the payload (when that fits in 32 bits),
/// the type byte is the message type's code, and the body after the header
/// is the payload.
pub proof fn lemma_message_frame_roundtrip(message_type: MessageType, payload: Seq<u8>)
    requires
        payload.len() + 4 <= u32::MAX,
    ensures
        ({
            let f = spec_message_frame(message_type, payload);
            &&& f.len() == 4 + 4 + payload.len()
            &&& be_u32_value(f[0], f[1], f[2], f[3]) == 4 + payload.len()
            &&& f[5] == message_type.spec_code()
            &&& spec_message_body(f.subrange(4, f.len() as int)) == Ok::<Seq<u8>, DecodeError>(payload)
        }),
{
    let f = spec_message_frame(message_type, payload);
    let d = f.subrange(4, f.len() as int);
    let n = ((4 + payload.len()) % 0x1_0000_0000) as u32;
    lemma_be_u32_roundtrip(n);
    assert(f[0] == be_u32_bytes(n)[0] && f[1] == be_u32_bytes(n)[1] && f[2] == be_u32_bytes(n)[2] && f[3]
        == be_u32_bytes(n)[3]);
    assert(d[0] == PROTOCOL_VERSION);
    assert(d.subrange(4, d.len() as int) =~= payload);
}

// ============================================================================
// Builder helpers
// ============================================================================

/// Signal metrics with every reading zero and no noise floor.
pub open spec fn zero_signal() -> SignalMetrics {
    SignalMetrics { snr_cdb: 0, rssi_cdbm: 0, signal_quality_pct: 0, noise_floor_cdbm: None }
}

/// Error metrics with every rate and count zero.
pub open spec fn zero_errors() -> ErrorMetrics {
    ErrorMetrics { ber_exponent: 0, per_ppm: 0, fer_ppm: 0, crc_errors: 0, retransmits: 0 }
}

/// Bandwidth metrics with every rate and the queue zero.
pub open spec fn zero_bandwidth() -> BandwidthMetrics {
    BandwidthMetrics {
        tx_rate_bps: 0,
        rx_rate_bps: 0,
        available_bps: 0,
        utilization_pct: 0,
        queue_depth_bytes: 0,
        queue_capacity_bytes: 0,
    }
}

impl MetricsUpdate {
    /// Create a new MetricsUpdate with current timestamp, the given sequence
    /// number, zero readings, no modem-specific metrics and no custom fields.
    pub fn new(seq: u32) -> (r: Self)
        ensures
            r.seq == seq,
            r.signal == zero_signal(),
            r.errors == zero_errors(),
            r.bandwidth == zero_bandwidth(),
            r.satellite is None,
            r.radio is None,
            r.acoustic is None,
            r.custom@ == Map::<String, serde_json::Value>::empty(),
    {
        MetricsUpdate {
            timestamp_ns: unix_time_ns(),
            seq,
            signal: SignalMetrics { snr_cdb: 0, rssi_cdbm: 0, signal_quality_pct: 0, noise_floor_cdbm: None },
            errors: ErrorMetrics { ber_exponent: 0, per_ppm: 0, fer_ppm: 0, crc_errors: 0, retransmits: 0 },
            bandwidth: BandwidthMetrics {
                tx_rate_bps: 0,
                rx_rate_bps: 0,
                available_bps: 0,
                utilization_pct: 0,
                queue_depth_bytes: 0,
                queue_capacity_bytes: 0,
            },
            satellite: None,
            radio: None,
            acoustic: None,
            custom: HashMap::new(),
        }
    }
}

impl Heartbeat {
    /// Create a heartbeat request (one that asks for an echo).
    pub fn request(seq: u32) -> (r: Self)
        ensures
            r.seq == seq,
            r.echo,
    {
        Heartbeat { timestamp_ns: unix_time_ns(), seq, echo: true }
    }

    /// Create a heartbeat response (the echo).
    pub fn response(seq: u32) -> (r: Self)
        ensures
            r.seq == seq,
            !r.echo,
    {
        Heartbeat { timestamp_ns: unix_time_ns(), seq, echo: false }
    }
}

} // verus!
