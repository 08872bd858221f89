//! Modem data plane message types (superseded by the link provider approach,
//! kept for reference).
//!
//! Message bodies are encoded with MessagePack by the application; this module
//! holds the message values, their constructors, and the binary frame that
//! carries an encoded body.
use vstd::prelude::*;

use vstd::string::StringSliceAdditionalSpecFns;

use crate::clock::unix_time_ns;
use crate::wire::{be_u32_bytes, be_u32_value, extend_from_slice, lemma_be_u32_roundtrip, push_be_u32, u32_from_be};

verus! {

/// Protocol version for data plane
pub const DP_PROTOCOL_VERSION: u8 = 0x01;

/// Maximum payload size (1 MB)
pub const DP_MAX_PAYLOAD_SIZE: usize = 1048576;

/// Default ping interval
pub const DP_DEFAULT_PING_INTERVAL_MS: u32 = 1000;

/// Default ping timeout
pub const DP_DEFAULT_PING_TIMEOUT_MS: u32 = 3000;

/// Default fragment reassembly timeout
pub const DP_DEFAULT_FRAGMENT_TIMEOUT_MS: u32 = 30000;

// ============================================================================
// Message Flags
// ============================================================================

/// Message flags for data plane messages: one byte of flag bits, with the
/// priority (0-7) in bits 5-7.
#[derive(Debug, Clone, Copy, PartialEq, Eq, Structural)]
pub struct MessageFlags {
    bits: u8,
}

impl MessageFlags {
    /// Express - bypass queues, minimal latency
    pub const EXPRESS_BIT: u8 = 0x01;
    /// Reliable - request delivery confirmation
    pub const RELIABLE_BIT: u8 = 0x02;
    /// ACK requested - explicit ACK needed
    pub const ACK_REQUESTED_BIT: u8 = 0x04;
    /// Fragment - this is a fragment
    pub const FRAGMENT_BIT: u8 = 0x08;
    /// Last fragment - last in fragmented sequence
    pub const LAST_FRAGMENT_BIT: u8 = 0x10;
    /// Priority mask (bits 5-7)
    pub const PRIORITY_MASK_BITS: u8 = 0xE0;

    /// The flag byte.
    pub closed spec fn spec_bits(self) -> u8 {
        self.bits
    }

    /// The flags with byte `bits`.
    pub closed spec fn from_spec_bits(bits: u8) -> MessageFlags {
        MessageFlags { bits }
    }

    /// The byte of the flags built from `bits` is `bits`.
    pub proof fn lemma_from_spec_bits(bits: u8)
        ensures
            Self::from_spec_bits(bits).spec_bits() == bits,
    {
    }

    /// Flags are determined by their byte.
    pub proof fn lemma_flags_from_bits(flags: MessageFlags)
        ensures
            Self::from_spec_bits(flags.spec_bits()) == flags,
    {
    }

    /// The flags whose byte is `bits` (every bit of a byte is a known flag).
    pub fn from_bits_truncate(bits: u8) -> (r: MessageFlags)
        ensures
            r.spec_bits() == bits,
    {
        MessageFlags { bits }
    }

    /// The flag byte.
    pub fn bits(&self) -> (r: u8)
        ensures
            r == self.spec_bits(),
    {
        self.bits
    }

    /// No flag set.
    pub fn empty() -> (r: MessageFlags)
        ensures
            r.spec_bits() == 0,
    {
        MessageFlags { bits: 0 }
    }

    /// Express - bypass queues, minimal latency
    pub fn express() -> (r: MessageFlags)
        ensures
            r.spec_bits() == Self::EXPRESS_BIT,
    {
        MessageFlags { bits: Self::EXPRESS_BIT }
    }

    /// Reliable - request delivery confirmation
    pub fn reliable() -> (r: MessageFlags)
        ensures
            r.spec_bits() == Self::RELIABLE_BIT,
    {
        MessageFlags { bits: Self::RELIABLE_BIT }
    }

    /// ACK requested - explicit ACK needed
    pub fn ack_requested() -> (r: MessageFlags)
        ensures
            r.spec_bits() == Self::ACK_REQUESTED_BIT,
    {
        MessageFlags { bits: Self::ACK_REQUESTED_BIT }
    }

    /// Fragment - this is a fragment
    pub fn fragment() -> (r: MessageFlags)
        ensures
            r.spec_bits() == Self::FRAGMENT_BIT,
    {
        MessageFlags { bits: Self::FRAGMENT_BIT }
    }

    /// Last fragment - last in fragmented sequence
    pub fn last_fragment() -> (r: MessageFlags)
        ensures
            r.spec_bits() == Self::LAST_FRAGMENT_BIT,
    {
        MessageFlags { bits: Self::LAST_FRAGMENT_BIT }
    }

    /// Priority mask (bits 5-7)
    pub fn priority_mask() -> (r: MessageFlags)
        ensures
            r.spec_bits() == Self::PRIORITY_MASK_BITS,
    {
        MessageFlags { bits: Self::PRIORITY_MASK_BITS }
    }

    /// The flags set in `self` or in `other`.
    pub fn union(self, other: MessageFlags) -> (r: MessageFlags)
        ensures
            r.spec_bits() == self.spec_bits() | other.spec_bits(),
            r == Self::from_spec_bits(self.spec_bits() | other.spec_bits()),
    {
        MessageFlags { bits: self.bits | other.bits }
    }

    /// The union of two sets of flags contains both.
    pub proof fn lemma_union_contains_both(a: MessageFlags, b: MessageFlags)
        ensures
            (a.spec_bits() | b.spec_bits()) & a.spec_bits() == a.spec_bits(),
            (a.spec_bits() | b.spec_bits()) & b.spec_bits() == b.spec_bits(),
    {
        let x = a.spec_bits();
        let y = b.spec_bits();
        assert((x | y) & x == x && (x | y) & y == y) by (bit_vector);
    }

    /// Whether every flag of `other` is set in `self`.
    pub fn contains(&self, other: MessageFlags) -> (r: bool)
        ensures
            r == (self.spec_bits() & other.spec_bits() == other.spec_bits()),
    {
        self.bits & other.bits == other.bits
    }

    /// Set the flags of `other`.
    pub fn insert(&mut self, other: MessageFlags)
        ensures
            final(self).spec_bits() == old(self).spec_bits() | other.spec_bits(),
    {
        self.bits = self.bits | other.bits;
    }

    /// Clear the flags of `other`.
    pub fn remove(&mut self, other: MessageFlags)
        ensures
            final(self).spec_bits() == old(self).spec_bits() & !other.spec_bits(),
    {
        self.bits = self.bits & !other.bits;
    }

    /// The priority carried in bits 5-7.
    pub open spec fn spec_priority(self) -> u8 {
        (self.spec_bits() >> 5u8) & 7u8
    }

    /// Get priority from flags (0-7)
    pub fn priority(&self) -> (r: u8)
        ensures
            r == self.spec_priority(),
            r <= 7,
    {
        let b = self.bits;
        let r = (b >> 5u8) & 7u8;
        assert(r <= 7) by (bit_vector)
            requires
                r == (b >> 5u8) & 7u8,
        ;
        r
    }

    /// Set priority in flags: the low 3 bits of `priority` replace bits 5-7,
    /// the other flags are kept.
    pub fn with_priority(self, priority: u8) -> (r: MessageFlags)
        ensures
            r.spec_bits() == (self.spec_bits() & 0x1Fu8) | ((priority & 7u8) << 5u8),
            r.spec_priority() == priority & 7u8,
            r.spec_bits() & 0x1Fu8 == self.spec_bits() & 0x1Fu8,
    {
        let mut flags = self;
        flags.remove(Self::priority_mask());
        flags.insert(Self::from_bits_truncate((priority & 7u8) << 5u8));
        let b = self.bits;
        let rb = flags.bits;
        assert(rb == (b & 0x1Fu8) | ((priority & 7u8) << 5u8)) by (bit_vector)
            requires
                rb == (b & !0xE0u8) | ((priority & 7u8) << 5u8),
        ;
        assert(((rb >> 5u8) & 7u8) == priority & 7u8) by (bit_vector)
            requires
                rb == (b & 0x1Fu8) | ((priority & 7u8) << 5u8),
        ;
        assert(rb & 0x1Fu8 == b & 0x1Fu8) by (bit_vector)
            requires
                rb == (b & 0x1Fu8) | ((priority & 7u8) << 5u8),
        ;
        flags
    }
}

impl core::ops::BitOr for MessageFlags {
    type Output = MessageFlags;

    fn bitor(self, rhs: MessageFlags) -> (r: MessageFlags) {
        self.union(rhs)
    }
}

impl vstd::std_specs::ops::BitOrSpecImpl for MessageFlags {
    open spec fn obeys_bitor_spec() -> bool {
        true
    }

    open spec fn bitor_req(self, rhs: MessageFlags) -> bool {
        true
    }

    open spec fn bitor_spec(self, rhs: MessageFlags) -> MessageFlags {
        MessageFlags::from_spec_bits(self.spec_bits() | rhs.spec_bits())
    }
}

// ============================================================================
// Message Types
// ============================================================================

/// Data plane message types
#[derive(Debug, Clone, Copy, PartialEq, Eq, Structural)]
pub enum DpMessageType {
    DataPlaneReady,
    DataMessage,
    ExpressMessage,
    DeliveryStatus,
    ReachabilityUpdate,
    FlowControl,
    Fragment,
    TargetQuery,
    TargetResponse,
    Ping,
    Pong,
    Error,
}

impl DpMessageType {
    /// The wire code of each message type.
    pub open spec fn spec_code(self) -> u8 {
        match self {
            DpMessageType::DataPlaneReady => 0x01,
            DpMessageType::DataMessage => 0x02,
            DpMessageType::ExpressMessage => 0x03,
            DpMessageType::DeliveryStatus => 0x04,
            DpMessageType::ReachabilityUpdate => 0x05,
            DpMessageType::FlowControl => 0x06,
            DpMessageType::Fragment => 0x07,
            DpMessageType::TargetQuery => 0x08,
            DpMessageType::TargetResponse => 0x09,
            DpMessageType::Ping => 0x0A,
            DpMessageType::Pong => 0x0B,
            DpMessageType::Error => 0xFF,
        }
    }

    /// The wire code of this message type.
    pub fn code(self) -> (r: u8)
        ensures
            r == self.spec_code(),
    {
        match self {
            DpMessageType::DataPlaneReady => 0x01,
            DpMessageType::DataMessage => 0x02,
            DpMessageType::ExpressMessage => 0x03,
            DpMessageType::DeliveryStatus => 0x04,
            DpMessageType::ReachabilityUpdate => 0x05,
            DpMessageType::FlowControl => 0x06,
            DpMessageType::Fragment => 0x07,
            DpMessageType::TargetQuery => 0x08,
            DpMessageType::TargetResponse => 0x09,
            DpMessageType::Ping => 0x0A,
            DpMessageType::Pong => 0x0B,
            DpMessageType::Error => 0xFF,
        }
    }

    /// The message type with wire code `code`, if there is one.
    pub fn from_code(code: u8) -> (r: Option<DpMessageType>)
        ensures
            r matches Some(t) ==> t.spec_code() == code,
            r is None ==> forall|t: DpMessageType| t.spec_code() != code,
    {
        match code {
            0x01 => Some(DpMessageType::DataPlaneReady),
            0x02 => Some(DpMessageType::DataMessage),
            0x03 => Some(DpMessageType::ExpressMessage),
            0x04 => Some(DpMessageType::DeliveryStatus),
            0x05 => Some(DpMessageType::ReachabilityUpdate),
            0x06 => Some(DpMessageType::FlowControl),
            0x07 => Some(DpMessageType::Fragment),
            0x08 => Some(DpMessageType::TargetQuery),
            0x09 => Some(DpMessageType::TargetResponse),
            0x0A => Some(DpMessageType::Ping),
            0x0B => Some(DpMessageType::Pong),
            0xFF => Some(DpMessageType::Error),
            _ => None,
        }
    }
}


// ============================================================================
// Target Types
// ============================================================================

/// Target address type
#[derive(Debug, Clone, Copy, PartialEq, Eq, Structural)]
pub enum TargetType {
    ZenohLocator,
    MacAddress,
    IpAddress,
    RadioCallsign,
    SatelliteTerminalId,
    AcousticAddress,
    Broadcast,
    Multicast,
    Custom,
}

impl TargetType {
    /// The wire code of each target type.
    pub open spec fn spec_code(self) -> u8 {
        match self {
            TargetType::ZenohLocator => 0,
            TargetType::MacAddress => 1,
            TargetType::IpAddress => 2,
            TargetType::RadioCallsign => 3,
            TargetType::SatelliteTerminalId => 4,
            TargetType::AcousticAddress => 5,
            TargetType::Broadcast => 6,
            TargetType::Multicast => 7,
            TargetType::Custom => 255,
        }
    }

    /// The wire code of this target type.
    pub fn code(self) -> (r: u8)
        ensures
            r == self.spec_code(),
    {
        match self {
            TargetType::ZenohLocator => 0,
            TargetType::MacAddress => 1,
            TargetType::IpAddress => 2,
            TargetType::RadioCallsign => 3,
            TargetType::SatelliteTerminalId => 4,
            TargetType::AcousticAddress => 5,
            TargetType::Broadcast => 6,
            TargetType::Multicast => 7,
            TargetType::Custom => 255,
        }
    }
}

/// Target address
#[derive(Debug, Clone, PartialEq, Eq)]
pub struct Target {
    pub target_type: TargetType,
    pub address: Vec<u8>,
}

/// The big-endian bytes of a port.
pub open spec fn port_be_bytes(port: u16) -> Seq<u8> {
    seq![(port >> 8u16) as u8, (port & 0xFFu16) as u8]
}

/// A copy of the bytes of `s`.
fn bytes_to_vec(s: &[u8]) -> (r: Vec<u8>)
    ensures
        r@ == s@,
{
    vstd::slice::slice_to_vec(s)
}

impl Target {
    /// Create a broadcast target
    pub fn broadcast() -> (r: Self)
        ensures
            r.target_type == TargetType::Broadcast,
            r.address@ == Seq::<u8>::empty(),
    {
        let address: Vec<u8> = Vec::new();
        Target { target_type: TargetType::Broadcast, address }
    }

    /// Create a MAC address target
    pub fn mac(mac: [u8; 6]) -> (r: Self)
        ensures
            r.target_type == TargetType::MacAddress,
            r.address@ == mac@,
    {
        Target { target_type: TargetType::MacAddress, address: bytes_to_vec(vstd::array::array_as_slice(&mac)) }
    }

    /// Create an IPv4 target: the address bytes, then the port in big-endian order
    pub fn ipv4(ip: [u8; 4], port: u16) -> (r: Self)
        ensures
            r.target_type == TargetType::IpAddress,
            r.address@ == ip@ + port_be_bytes(port),
    {
        let mut addr = bytes_to_vec(vstd::array::array_as_slice(&ip));
        addr.push((port >> 8u16) as u8);
        addr.push((port & 0xFFu16) as u8);
        assert(addr@ =~= ip@ + port_be_bytes(port));
        Target { target_type: TargetType::IpAddress, address: addr }
    }

    /// Create an IPv6 target: the address bytes, then the port in big-endian order
    pub fn ipv6(ip: [u8; 16], port: u16) -> (r: Self)
        ensures
            r.target_type == TargetType::IpAddress,
            r.address@ == ip@ + port_be_bytes(port),
    {
        let mut addr = bytes_to_vec(vstd::array::array_as_slice(&ip));
        addr.push((port >> 8u16) as u8);
        addr.push((port & 0xFFu16) as u8);
        assert(addr@ =~= ip@ + port_be_bytes(port));
        Target { target_type: TargetType::IpAddress, address: addr }
    }

    /// Create a radio callsign target (its UTF-8 bytes)
    pub fn callsign(callsign: &str) -> (r: Self)
        ensures
            r.target_type == TargetType::RadioCallsign,
            r.address@ == callsign.spec_bytes(),
    {
        Target { target_type: TargetType::RadioCallsign, address: bytes_to_vec(callsign.as_bytes()) }
    }

    /// Create a Zenoh locator target (its UTF-8 bytes)
    pub fn zenoh_locator(locator: &str) -> (r: Self)
        ensures
            r.target_type == TargetType::ZenohLocator,
            r.address@ == locator.spec_bytes(),
    {
        Target { target_type: TargetType::ZenohLocator, address: bytes_to_vec(locator.as_bytes()) }
    }
}

// ============================================================================
// Data Plane Ready
// ============================================================================

/// Data plane capabilities
#[derive(Debug, Clone, Copy)]
pub struct DpCapabilities {
    pub max_mtu: u32,
    pub min_mtu: u32,
    pub supports_express: bool,
    pub supports_reliable: bool,
    pub supports_fragmentation: bool,
    pub supports_multicast: bool,
    pub max_pending_messages: u32,
    pub max_targets: u32,
    pub tx_queue_bytes: u32,
    pub rx_queue_bytes: u32,
}

impl Default for DpCapabilities {
    /// MTU 256 to 1500, express, reliable and fragmentation but no multicast,
    /// 1000 pending messages, 256 targets, 1 MiB queues.
    fn default() -> (r: Self)
        ensures
            r.max_mtu == 1500,
            r.min_mtu == 256,
            r.supports_express,
            r.supports_reliable,
            r.supports_fragmentation,
            !r.supports_multicast,
            r.max_pending_messages == 1000,
            r.max_targets == 256,
            r.tx_queue_bytes == 1048576,
            r.rx_queue_bytes == 1048576,
    {
        DpCapabilities {
            max_mtu: 1500,
            min_mtu: 256,
            supports_express: true,
            supports_reliable: true,
            supports_fragmentation: true,
            supports_multicast: false,
            max_pending_messages: 1000,
            max_targets: 256,
            tx_queue_bytes: 1048576,
            rx_queue_bytes: 1048576,
        }
    }
}

/// Data plane ready message
#[derive(Debug, Clone)]
pub struct DataPlaneReady {
    pub modem_id: String,
    pub protocol_version: u8,
    pub capabilities: DpCapabilities,
}

// ============================================================================
// Data Message
// ============================================================================

/// Congestion control mode
#[derive(Debug, Clone, Copy, PartialEq, Eq, Structural)]
pub enum CongestionControl {
    Drop,
    Block,
}

impl Default for CongestionControl {
    fn default() -> (r: Self)
        ensures
            r == CongestionControl::Drop,
    {
        CongestionControl::Drop
    }
}

/// Message metadata
#[derive(Debug, Clone)]
pub struct MessageMetadata {
    pub zenoh_priority: u8,
    pub congestion_control: CongestionControl,
    pub key_expr: Option<String>,
    pub encoding: Option<u32>,
    pub ttl_ms: Option<u32>,
    pub source_id: Option<Vec<u8>>,
}

impl Default for MessageMetadata {
    fn default() -> (r: Self)
        ensures
            r.zenoh_priority == 0,
            r.congestion_control == CongestionControl::Drop,
            r.key_expr is None,
            r.encoding is None,
            r.ttl_ms is None,
            r.source_id is None,
    {
        MessageMetadata {
            zenoh_priority: 0,
            congestion_control: CongestionControl::Drop,
            key_expr: None,
            encoding: None,
            ttl_ms: None,
            source_id: None,
        }
    }
}

/// Regular data message
#[derive(Debug, Clone)]
pub struct DataMessage {
    pub message_id: u64,
    pub timestamp_ns: u64,
    pub target: Target,
    pub payload: Vec<u8>,
    pub metadata: Option<MessageMetadata>,
}

impl DataMessage {
    /// Create a new data message with current timestamp
    pub fn new(message_id: u64, target: Target, payload: Vec<u8>) -> (r: Self)
        ensures
            r.message_id == message_id,
            r.target == target,
            r.payload == payload,
            r.metadata is None,
    {
        DataMessage { message_id, timestamp_ns: current_timestamp_ns(), target, payload, metadata: None }
    }

    /// Add metadata to the message
    pub fn with_metadata(self, metadata: MessageMetadata) -> (r: Self)
        ensures
            r.message_id == self.message_id,
            r.timestamp_ns == self.timestamp_ns,
            r.target == self.target,
            r.payload == self.payload,
            r.metadata == Some(metadata),
    {
        let mut m = self;
        m.metadata = Some(metadata);
        m
    }
}

// ============================================================================
// Express Message
// ============================================================================

/// Express message metadata
#[derive(Debug, Clone, Copy)]
pub struct ExpressMetadata {
    pub deadline_ns: u64,
    pub zenoh_priority: u8,
    pub bypass_queue: bool,
    pub require_ack: bool,
    pub max_retries: u8,
}

impl ExpressMetadata {
    /// Express metadata whose deadline lies `deadline_from_now_ns` nanoseconds
    /// after `now_ns` (wrapping at 64 bits): priority 1 (RealTime), bypassing
    /// queues, no ACK, no retries.
    pub fn with_deadline_at(now_ns: u64, deadline_from_now_ns: u64) -> (r: Self)
        ensures
            r.deadline_ns == ((now_ns + deadline_from_now_ns) % 0x1_0000_0000_0000_0000) as u64,
            r.zenoh_priority == 1,
            r.bypass_queue,
            !r.require_ack,
            r.max_retries == 0,
    {
        let deadline_ns = now_ns.wrapping_add(deadline_from_now_ns);
        ExpressMetadata { deadline_ns, zenoh_priority: 1, bypass_queue: true, require_ack: false, max_retries: 0 }
    }

    /// Create express metadata with a deadline `deadline_from_now_ns`
    /// nanoseconds from now.
    pub fn with_deadline(deadline_from_now_ns: u64) -> (r: Self)
        ensures
            r.zenoh_priority == 1,
            r.bypass_queue,
            !r.require_ack,
            r.max_retries == 0,
    {
        Self::with_deadline_at(current_timestamp_ns(), deadline_from_now_ns)
    }
}

/// Express (high priority) message
#[derive(Debug, Clone)]
pub struct ExpressMessage {
    pub message_id: u64,
    pub timestamp_ns: u64,
    pub target: Target,
    pub payload: Vec<u8>,
    pub express_metadata: ExpressMetadata,
}

impl ExpressMessage {
    /// Create a new express message whose deadline is `deadline_ns`
    /// nanoseconds from now.
    pub fn new(message_id: u64, target: Target, payload: Vec<u8>, deadline_ns: u64) -> (r: Self)
        ensures
            r.message_id == message_id,
            r.target == target,
            r.payload == payload,
            r.express_metadata.zenoh_priority == 1,
            r.express_metadata.bypass_queue,
            !r.express_metadata.require_ack,
            r.express_metadata.max_retries == 0,
    {
        ExpressMessage {
            message_id,
            timestamp_ns: current_timestamp_ns(),
            target,
            payload,
            express_metadata: ExpressMetadata::with_deadline(deadline_ns),
        }
    }

    /// Whether the deadline has passed at time `now_ns`.
    pub fn is_expired_at(&self, now_ns: u64) -> (r: bool)
        ensures
            r == (now_ns > self.express_metadata.deadline_ns),
    {
        now_ns > self.express_metadata.deadline_ns
    }

    /// Check if the deadline has passed, at the current time; see
    /// [`ExpressMessage::is_expired_at`]. Whatever the clock reads, the
    /// deadline can only have passed if it is below the largest time.
    pub fn is_expired(&self) -> (r: bool)
        ensures
            r ==> self.express_metadata.deadline_ns < u64::MAX,
    {
        self.is_expired_at(current_timestamp_ns())
    }
}

// ============================================================================
// Delivery Status
// ============================================================================

/// Delivery status codes
#[derive(Debug, Clone, Copy, PartialEq, Eq, Structural)]
pub enum DeliveryStatusCode {
    Delivered,
    Acknowledged,
    Queued,
    Transmitted,
    Failed,
    Expired,
    Rejected,
    Unreachable,
    Congested,
}

/// Delivery details
#[derive(Debug, Clone)]
pub struct DeliveryDetails {
    pub latency_us: Option<u32>,
    pub retries: Option<u8>,
    pub failure_reason: Option<String>,
    pub hop_count: Option<u8>,
}

impl Default for DeliveryDetails {
    fn default() -> (r: Self)
        ensures
            r.latency_us is None,
            r.retries is None,
            r.failure_reason is None,
            r.hop_count is None,
    {
        DeliveryDetails { latency_us: None, retries: None, failure_reason: None, hop_count: None }
    }
}

/// Delivery status notification
#[derive(Debug, Clone)]
pub struct DeliveryStatus {
    pub message_id: u64,
    pub status: DeliveryStatusCode,
    pub timestamp_ns: u64,
    pub details: Option<DeliveryDetails>,
}

impl DeliveryStatus {
    /// A status without details, stamped with the current time.
    fn plain(message_id: u64, status: DeliveryStatusCode) -> (r: Self)
        ensures
            r.message_id == message_id,
            r.status == status,
            r.details is None,
    {
        DeliveryStatus { message_id, status, timestamp_ns: current_timestamp_ns(), details: None }
    }

    /// Create a transmitted status
    pub fn transmitted(message_id: u64) -> (r: Self)
        ensures
            r.message_id == message_id,
            r.status == DeliveryStatusCode::Transmitted,
            r.details is None,
    {
        Self::plain(message_id, DeliveryStatusCode::Transmitted)
    }

    /// Create a delivered status
    pub fn delivered(message_id: u64) -> (r: Self)
        ensures
            r.message_id == message_id,
            r.status == DeliveryStatusCode::Delivered,
            r.details is None,
    {
        Self::plain(message_id, DeliveryStatusCode::Delivered)
    }

    /// Create an unreachable status, with the reason in its details
    pub fn unreachable(message_id: u64, reason: &str) -> (r: Self)
        ensures
            r.message_id == message_id,
            r.status == DeliveryStatusCode::Unreachable,
            r.details matches Some(d) && d.failure_reason matches Some(s) && s@ == reason@ && d.latency_us is None
                && d.retries is None && d.hop_count is None,
    {
        let mut details = DeliveryDetails::default();
        details.failure_reason = Some(reason.to_owned());
        DeliveryStatus {
            message_id,
            status: DeliveryStatusCode::Unreachable,
            timestamp_ns: current_timestamp_ns(),
            details: Some(details),
        }
    }

    /// Create a queued status
    pub fn queued(message_id: u64) -> (r: Self)
        ensures
            r.message_id == message_id,
            r.status == DeliveryStatusCode::Queued,
            r.details is None,
    {
        Self::plain(message_id, DeliveryStatusCode::Queued)
    }

    /// Create an expired status
    pub fn expired(message_id: u64) -> (r: Self)
        ensures
            r.message_id == message_id,
            r.status == DeliveryStatusCode::Expired,
            r.details is None,
    {
        Self::plain(message_id, DeliveryStatusCode::Expired)
    }
}

// ============================================================================
// Reachability
// ============================================================================

/// Reachability status
#[derive(Debug, Clone, Copy, PartialEq, Eq, Structural)]
pub enum ReachabilityStatus {
    Reachable,
    Unreachable,
    Degraded,
    Unknown,
}

/// Reasons for unreachability
#[derive(Debug, Clone, Copy, PartialEq, Eq, Structural)]
pub enum UnreachableReason {
    LinkDown,
    NoRoute,
    TargetOffline,
    Timeout,
    Congestion,
    Handover,
    Interference,
    OutOfRange,
    AuthFailure,
    Maintenance,
    Unknown,
}

/// Reachability details
#[derive(Debug, Clone, Copy)]
pub struct ReachabilityDetails {
    pub reason: Option<UnreachableReason>,
    pub estimated_recovery_ms: Option<u32>,
    pub last_seen_ns: Option<u64>,
    pub quality_score: Option<u8>,
    pub alternate_path: Option<bool>,
}

impl Default for ReachabilityDetails {
    fn default() -> (r: Self)
        ensures
            r == (ReachabilityDetails {
                reason: None,
                estimated_recovery_ms: None,
                last_seen_ns: None,
                quality_score: None,
                alternate_path: None,
            }),
    {
        ReachabilityDetails {
            reason: None,
            estimated_recovery_ms: None,
            last_seen_ns: None,
            quality_score: None,
            alternate_path: None,
        }
    }
}

/// Reachability update notification
#[derive(Debug, Clone)]
pub struct ReachabilityUpdate {
    pub timestamp_ns: u64,
    pub target: Target,
    pub status: ReachabilityStatus,
    pub details: Option<ReachabilityDetails>,
}

impl ReachabilityUpdate {
    /// Create a reachable update
    pub fn reachable(target: Target) -> (r: Self)
        ensures
            r.target == target,
            r.status == ReachabilityStatus::Reachable,
            r.details is None,
    {
        ReachabilityUpdate { timestamp_ns: current_timestamp_ns(), target, status: ReachabilityStatus::Reachable, details: None }
    }

    /// Create an unreachable update, with the reason in its details
    pub fn unreachable(target: Target, reason: UnreachableReason) -> (r: Self)
        ensures
            r.target == target,
            r.status == ReachabilityStatus::Unreachable,
            r.details == Some(ReachabilityDetails {
                reason: Some(reason),
                estimated_recovery_ms: None,
                last_seen_ns: None,
                quality_score: None,
                alternate_path: None,
            }),
    {
        let mut details = ReachabilityDetails::default();
        details.reason = Some(reason);
        ReachabilityUpdate {
            timestamp_ns: current_timestamp_ns(),
            target,
            status: ReachabilityStatus::Unreachable,
            details: Some(details),
        }
    }

    /// Create a degraded update, with the quality score in its details
    pub fn degraded(target: Target, quality_score: u8) -> (r: Self)
        ensures
            r.target == target,
            r.status == ReachabilityStatus::Degraded,
            r.details == Some(ReachabilityDetails {
                reason: None,
                estimated_recovery_ms: None,
                last_seen_ns: None,
                quality_score: Some(quality_score),
                alternate_path: None,
            }),
    {
        let mut details = ReachabilityDetails::default();
        details.quality_score = Some(quality_score);
        ReachabilityUpdate {
            timestamp_ns: current_timestamp_ns(),
            target,
            status: ReachabilityStatus::Degraded,
            details: Some(details),
        }
    }
}


// ============================================================================
// Flow Control
// ============================================================================

/// Flow control type
#[derive(Debug, Clone, Copy, PartialEq, Eq, Structural)]
pub enum FlowControlType {
    Pause,
    Resume,
    SlowDown,
    SpeedUp,
    QueueStatus,
}

/// Flow control details
#[derive(Debug, Clone)]
pub struct FlowControlDetails {
    pub duration_ms: Option<u32>,
    pub reason: Option<String>,
    pub suggested_rate_bps: Option<u64>,
    pub current_rate_bps: Option<u64>,
    pub queue_depth_bytes: Option<u32>,
    pub queue_capacity_bytes: Option<u32>,
    pub queue_depth_messages: Option<u32>,
    pub high_water_mark_pct: Option<u8>,
    pub low_water_mark_pct: Option<u8>,
}

/// Every detail of `d` is absent, except possibly the reason and the suggested rate.
pub open spec fn details_otherwise_empty(d: FlowControlDetails) -> bool {
    &&& d.duration_ms is None
    &&& d.current_rate_bps is None
    &&& d.queue_depth_bytes is None
    &&& d.queue_capacity_bytes is None
    &&& d.queue_depth_messages is None
    &&& d.high_water_mark_pct is None
    &&& d.low_water_mark_pct is None
}

impl Default for FlowControlDetails {
    fn default() -> (r: Self)
        ensures
            details_otherwise_empty(r),
            r.reason is None,
            r.suggested_rate_bps is None,
    {
        FlowControlDetails {
            duration_ms: None,
            reason: None,
            suggested_rate_bps: None,
            current_rate_bps: None,
            queue_depth_bytes: None,
            queue_capacity_bytes: None,
            queue_depth_messages: None,
            high_water_mark_pct: None,
            low_water_mark_pct: None,
        }
    }
}

/// Flow control message
#[derive(Debug, Clone)]
pub struct FlowControl {
    pub timestamp_ns: u64,
    pub control_type: FlowControlType,
    pub target: Option<Target>,
    pub details: FlowControlDetails,
}

impl FlowControl {
    /// Create a global pause, with the reason in its details
    pub fn pause(reason: &str) -> (r: Self)
        ensures
            r.control_type == FlowControlType::Pause,
            r.target is None,
            r.details.reason matches Some(s) && s@ == reason@,
            r.details.suggested_rate_bps is None,
            details_otherwise_empty(r.details),
    {
        let mut details = FlowControlDetails::default();
        details.reason = Some(reason.to_owned());
        FlowControl { timestamp_ns: current_timestamp_ns(), control_type: FlowControlType::Pause, target: None, details }
    }

    /// Create a global resume
    pub fn resume() -> (r: Self)
        ensures
            r.control_type == FlowControlType::Resume,
            r.target is None,
            r.details.reason is None,
            r.details.suggested_rate_bps is None,
            details_otherwise_empty(r.details),
    {
        FlowControl {
            timestamp_ns: current_timestamp_ns(),
            control_type: FlowControlType::Resume,
            target: None,
            details: FlowControlDetails::default(),
        }
    }

    /// Create a slow down request, with the suggested rate in its details
    pub fn slow_down(suggested_rate_bps: u64) -> (r: Self)
        ensures
            r.control_type == FlowControlType::SlowDown,
            r.target is None,
            r.details.reason is None,
            r.details.suggested_rate_bps == Some(suggested_rate_bps),
            details_otherwise_empty(r.details),
    {
        let mut details = FlowControlDetails::default();
        details.suggested_rate_bps = Some(suggested_rate_bps);
        FlowControl { timestamp_ns: current_timestamp_ns(), control_type: FlowControlType::SlowDown, target: None, details }
    }

    /// Create a queue status update for a queue holding `depth_bytes` of
    /// `capacity_bytes`, filled to `fill_pct` percent: the fill is reported
    /// as the high water mark from 80% up and as the low water mark up to 20%.
    pub fn queue_status_with_fill(depth_bytes: u32, capacity_bytes: u32, fill_pct: u8) -> (r: Self)
        ensures
            r.control_type == FlowControlType::QueueStatus,
            r.target is None,
            r.details.queue_depth_bytes == Some(depth_bytes),
            r.details.queue_capacity_bytes == Some(capacity_bytes),
            r.details.high_water_mark_pct == (if fill_pct >= 80 { Some(fill_pct) } else { None::<u8> }),
            r.details.low_water_mark_pct == (if fill_pct <= 20 { Some(fill_pct) } else { None::<u8> }),
            r.details.duration_ms is None,
            r.details.reason is None,
            r.details.suggested_rate_bps is None,
            r.details.current_rate_bps is None,
            r.details.queue_depth_messages is None,
    {
        let mut details = FlowControlDetails::default();
        details.queue_depth_bytes = Some(depth_bytes);
        details.queue_capacity_bytes = Some(capacity_bytes);
        details.high_water_mark_pct = if fill_pct >= 80 { Some(fill_pct) } else { None };
        details.low_water_mark_pct = if fill_pct <= 20 { Some(fill_pct) } else { None };
        FlowControl { timestamp_ns: current_timestamp_ns(), control_type: FlowControlType::QueueStatus, target: None, details }
    }
}

// ============================================================================
// Fragment
// ============================================================================

/// Fragment message for large payloads
#[derive(Debug, Clone)]
pub struct Fragment {
    pub original_message_id: u64,
    pub fragment_index: u16,
    pub total_fragments: u16,
    pub fragment_offset: u32,
    pub fragment_data: Vec<u8>,
    pub original_length: u32,
}

impl Fragment {
    /// Check if this is the last fragment
    pub fn is_last(&self) -> (r: bool)
        requires
            self.fragment_index < u16::MAX,
        ensures
            r == (self.fragment_index + 1 == self.total_fragments),
    {
        self.fragment_index + 1 == self.total_fragments
    }
}

// ============================================================================
// Target Query/Response
// ============================================================================

/// Target query request
#[derive(Debug, Clone)]
pub struct TargetQuery {
    pub query_id: u32,
    pub targets: Vec<Target>,
    pub timeout_ms: u32,
    pub detailed: bool,
}

/// Target status in response
#[derive(Debug, Clone)]
pub struct TargetStatus {
    pub target: Target,
    pub status: ReachabilityStatus,
    pub details: Option<ReachabilityDetails>,
    pub rtt_us: Option<u32>,
}

/// Target response
#[derive(Debug, Clone)]
pub struct TargetResponse {
    pub query_id: u32,
    pub results: Vec<TargetStatus>,
}

// ============================================================================
// Ping/Pong
// ============================================================================

/// Ping message
#[derive(Debug, Clone, Copy)]
pub struct Ping {
    pub timestamp_ns: u64,
    pub seq: u32,
}

impl Ping {
    pub fn new(seq: u32) -> (r: Self)
        ensures
            r.seq == seq,
    {
        Ping { timestamp_ns: current_timestamp_ns(), seq }
    }
}

/// Pong message
#[derive(Debug, Clone, Copy)]
pub struct Pong {
    pub timestamp_ns: u64,
    pub seq: u32,
    pub processing_ns: u64,
}

impl Pong {
    /// The answer to `ping` sent at time `now_ns`, whose processing started at
    /// `processing_start_ns` (the processing time wraps at 64 bits).
    pub fn from_ping_at(ping: &Ping, processing_start_ns: u64, now_ns: u64) -> (r: Self)
        ensures
            r.timestamp_ns == now_ns,
            r.seq == ping.seq,
            r.processing_ns == (if now_ns >= processing_start_ns {
                (now_ns - processing_start_ns) as u64
            } else {
                (now_ns - processing_start_ns + 0x1_0000_0000_0000_0000) as u64
            }),
    {
        Pong { timestamp_ns: now_ns, seq: ping.seq, processing_ns: now_ns.wrapping_sub(processing_start_ns) }
    }

    /// The answer to `ping`, stamped with the current time; its processing
    /// time runs from `processing_start_ns` to that stamp (wrapping at 64
    /// bits), whatever the clock read.
    pub fn from_ping(ping: &Ping, processing_start_ns: u64) -> (r: Self)
        ensures
            r.seq == ping.seq,
            r.processing_ns == (if r.timestamp_ns >= processing_start_ns {
                (r.timestamp_ns - processing_start_ns) as u64
            } else {
                (r.timestamp_ns - processing_start_ns + 0x1_0000_0000_0000_0000) as u64
            }),
    {
        Self::from_ping_at(ping, processing_start_ns, current_timestamp_ns())
    }
}

// ============================================================================
// Error
// ============================================================================

/// Error severity
#[derive(Debug, Clone, Copy, PartialEq, Eq, Structural)]
pub enum DpErrorSeverity {
    Warning,
    Error,
    Fatal,
}

/// Data plane error codes
#[derive(Debug, Clone, Copy, PartialEq, Eq, Structural)]
pub enum DpErrorCode {
    InvalidTarget,
    TargetUnreachable,
    MtuExceeded,
    QueueFull,
    DeadlineMissed,
    FragmentationFailed,
    DeliveryTimeout,
    AckTimeout,
    LinkDown,
    AuthFailed,
    EncryptionError,
    ProtocolError,
    ResourceExhausted,
    Vendor(u16),
}

impl DpErrorCode {
    /// The numeric code of each error (a vendor code is carried as is).
    pub open spec fn spec_code(self) -> u16 {
        match self {
            DpErrorCode::InvalidTarget => 0x0100,
            DpErrorCode::TargetUnreachable => 0x0101,
            DpErrorCode::MtuExceeded => 0x0102,
            DpErrorCode::QueueFull => 0x0103,
            DpErrorCode::DeadlineMissed => 0x0104,
            DpErrorCode::FragmentationFailed => 0x0105,
            DpErrorCode::DeliveryTimeout => 0x0106,
            DpErrorCode::AckTimeout => 0x0107,
            DpErrorCode::LinkDown => 0x0108,
            DpErrorCode::AuthFailed => 0x0109,
            DpErrorCode::EncryptionError => 0x010A,
            DpErrorCode::ProtocolError => 0x010B,
            DpErrorCode::ResourceExhausted => 0x010C,
            DpErrorCode::Vendor(v) => v,
        }
    }

    /// The numeric code of this error.
    pub fn code(self) -> (r: u16)
        ensures
            r == self.spec_code(),
    {
        match self {
            DpErrorCode::InvalidTarget => 0x0100,
            DpErrorCode::TargetUnreachable => 0x0101,
            DpErrorCode::MtuExceeded => 0x0102,
            DpErrorCode::QueueFull => 0x0103,
            DpErrorCode::DeadlineMissed => 0x0104,
            DpErrorCode::FragmentationFailed => 0x0105,
            DpErrorCode::DeliveryTimeout => 0x0106,
            DpErrorCode::AckTimeout => 0x0107,
            DpErrorCode::LinkDown => 0x0108,
            DpErrorCode::AuthFailed => 0x0109,
            DpErrorCode::EncryptionError => 0x010A,
            DpErrorCode::ProtocolError => 0x010B,
            DpErrorCode::ResourceExhausted => 0x010C,
            DpErrorCode::Vendor(v) => v,
        }
    }
}

/// Data plane error
#[derive(Debug, Clone)]
pub struct DpError {
    pub error_code: u32,
    pub severity: DpErrorSeverity,
    pub message: String,
    pub related_message_id: Option<u64>,
    pub recoverable: bool,
}

// ============================================================================
// Message Envelope
// ============================================================================

/// Unified message enum for the data plane
#[derive(Debug, Clone)]
pub enum DpMessage {
    DataPlaneReady(DataPlaneReady),
    DataMessage(DataMessage),
    ExpressMessage(ExpressMessage),
    DeliveryStatus(DeliveryStatus),
    ReachabilityUpdate(ReachabilityUpdate),
    FlowControl(FlowControl),
    Fragment(Fragment),
    TargetQuery(TargetQuery),
    TargetResponse(TargetResponse),
    Ping(Ping),
    Pong(Pong),
    Error(DpError),
}

impl DpMessage {
    /// The message type of each message.
    pub open spec fn spec_message_type(&self) -> DpMessageType {
        match self {
            DpMessage::DataPlaneReady(_) => DpMessageType::DataPlaneReady,
            DpMessage::DataMessage(_) => DpMessageType::DataMessage,
            DpMessage::ExpressMessage(_) => DpMessageType::ExpressMessage,
            DpMessage::DeliveryStatus(_) => DpMessageType::DeliveryStatus,
            DpMessage::ReachabilityUpdate(_) => DpMessageType::ReachabilityUpdate,
            DpMessage::FlowControl(_) => DpMessageType::FlowControl,
            DpMessage::Fragment(_) => DpMessageType::Fragment,
            DpMessage::TargetQuery(_) => DpMessageType::TargetQuery,
            DpMessage::TargetResponse(_) => DpMessageType::TargetResponse,
            DpMessage::Ping(_) => DpMessageType::Ping,
            DpMessage::Pong(_) => DpMessageType::Pong,
            DpMessage::Error(_) => DpMessageType::Error,
        }
    }

    /// Get the message type ID
    pub fn message_type(&self) -> (r: DpMessageType)
        ensures
            r == self.spec_message_type(),
    {
        match self {
            DpMessage::DataPlaneReady(_) => DpMessageType::DataPlaneReady,
            DpMessage::DataMessage(_) => DpMessageType::DataMessage,
            DpMessage::ExpressMessage(_) => DpMessageType::ExpressMessage,
            DpMessage::DeliveryStatus(_) => DpMessageType::DeliveryStatus,
            DpMessage::ReachabilityUpdate(_) => DpMessageType::ReachabilityUpdate,
            DpMessage::FlowControl(_) => DpMessageType::FlowControl,
            DpMessage::Fragment(_) => DpMessageType::Fragment,
            DpMessage::TargetQuery(_) => DpMessageType::TargetQuery,
            DpMessage::TargetResponse(_) => DpMessageType::TargetResponse,
            DpMessage::Ping(_) => DpMessageType::Ping,
            DpMessage::Pong(_) => DpMessageType::Pong,
            DpMessage::Error(_) => DpMessageType::Error,
        }
    }
}

// ============================================================================
// Codec
// ============================================================================

/// Frame header for data plane messages
#[derive(Debug, Clone, Copy, PartialEq, Eq, Structural)]
pub struct DpFrameHeader {
    pub version: u8,
    pub message_type: DpMessageType,
    pub flags: MessageFlags,
    pub reserved: u8,
    pub sequence: u32,
}

/// The frame of an encoded data plane message: a big-endian `u32` length
/// (8 plus the payload length, kept to 32 bits), then version, message type,
/// flags, a reserved zero byte, the big-endian sequence number, and the payload.
pub open spec fn spec_dp_frame(message_type: DpMessageType, seq: u32, flags: MessageFlags, payload: Seq<u8>) -> Seq<u8> {
    be_u32_bytes(((8 + payload.len()) % 0x1_0000_0000) as u32) + seq![
        DP_PROTOCOL_VERSION,
        message_type.spec_code(),
        flags.spec_bits(),
        0u8,
    ] + be_u32_bytes(seq) + payload
}

/// Frame an encoded data plane message body (the length prefix, then the
/// 8-byte header, then `payload`).
pub fn frame_dp_message(message_type: DpMessageType, seq: u32, flags: MessageFlags, payload: &[u8]) -> (r: Vec<u8>)
    requires
        payload@.len() + 8 <= usize::MAX,
    ensures
        r@ == spec_dp_frame(message_type, seq, flags, payload@),
{
    let total_len: usize = 8 + payload.len();
    let mut buf: Vec<u8> = Vec::new();
    let total64: u64 = total_len as u64;
    let len32: u32 = #[verifier::truncate] (total64 as u32);
    assert(len32 == (total64 % 0x1_0000_0000) as u32) by (bit_vector)
        requires
            len32 == total64 as u32,
    ;
    push_be_u32(&mut buf, len32);
    buf.push(DP_PROTOCOL_VERSION);
    buf.push(message_type.code());
    buf.push(flags.bits());
    buf.push(0u8);
    push_be_u32(&mut buf, seq);
    extend_from_slice(&mut buf, payload);
    assert(buf@ =~= spec_dp_frame(message_type, seq, flags, payload@));
    buf
}

/// Why a data plane frame could not be read.
#[derive(Debug, Clone, Copy, PartialEq, Eq, Structural)]
pub enum DpFrameError {
    /// Fewer than 8 bytes
    TooShort,
    /// A protocol version other than 1
    UnsupportedVersion(u8),
    /// A message type byte that names no message type
    UnknownMessageType(u8),
}

/// The header read from the first 8 bytes of `data` (after the length prefix),
/// or why it cannot be read.
pub open spec fn spec_dp_header(data: Seq<u8>) -> Result<DpFrameHeader, DpFrameError> {
    if data.len() < 8 {
        Err(DpFrameError::TooShort)
    } else if data[0] != DP_PROTOCOL_VERSION {
        Err(DpFrameError::UnsupportedVersion(data[0]))
    } else if forall|t: DpMessageType| t.spec_code() != data[1] {
        Err(DpFrameError::UnknownMessageType(data[1]))
    } else {
        Ok(
            DpFrameHeader {
                version: data[0],
                message_type: choose|t: DpMessageType| t.spec_code() == data[1],
                flags: MessageFlags::from_spec_bits(data[2]),
                reserved: data[3],
                sequence: be_u32_value(data[4], data[5], data[6], data[7]),
            },
        )
    }
}

/// Read the header of a data plane message (after its length prefix) and
/// return it with the encoded body that follows.
pub fn decode_dp_frame(data: &[u8]) -> (r: Result<(DpFrameHeader, &[u8]), DpFrameError>)
    ensures
        match spec_dp_header(data@) {
            Ok(h) => r matches Ok((h2, body)) && h2 == h && body@ == data@.subrange(8, data@.len() as int),
            Err(e) => r == Err::<(DpFrameHeader, &[u8]), DpFrameError>(e),
        },
{
    if data.len() < 8 {
        return Err(DpFrameError::TooShort);
    }
    let version = data[0];
    if version != DP_PROTOCOL_VERSION {
        return Err(DpFrameError::UnsupportedVersion(version));
    }
    let message_type = match DpMessageType::from_code(data[1]) {
        Some(t) => t,
        None => return Err(DpFrameError::UnknownMessageType(data[1])),
    };
    let flags = MessageFlags::from_bits_truncate(data[2]);
    let reserved = data[3];
    let sequence = u32_from_be(data[4], data[5], data[6], data[7]);
    let header = DpFrameHeader { version, message_type, flags, reserved, sequence };
    proof {
        let c = choose|t: DpMessageType| t.spec_code() == data@[1];
        assert(message_type.spec_code() == data@[1]);
        lemma_dp_type_code_injective(c, message_type);
    }
    Ok((header, vstd::slice::slice_subrange(data, 8, data.len())))
}

/// Different message types have different codes.
pub proof fn lemma_dp_type_code_injective(a: DpMessageType, b: DpMessageType)
    requires
        a.spec_code() == b.spec_code(),
    ensures
        a == b,
{
}

/// Reading a frame that was written gives back its header and payload: the
/// length prefix counts the 8 header bytes and the payload (when that fits in
/// 32 bits), and the rest decodes to version 1, the message type, the flags,
/// a zero reserved byte and the sequence number.
pub proof fn lemma_dp_frame_roundtrip(message_type: DpMessageType, seq: u32, flags: MessageFlags, payload: Seq<u8>)
    requires
        payload.len() + 8 <= u32::MAX,
    ensures
        ({
            let f = spec_dp_frame(message_type, seq, flags, payload);
            &&& be_u32_value(f[0], f[1], f[2], f[3]) == 8 + payload.len()
            &&& f.len() == 4 + 8 + payload.len()
            &&& spec_dp_header(f.subrange(4, f.len() as int)) == Ok::<DpFrameHeader, DpFrameError>(
                DpFrameHeader { version: DP_PROTOCOL_VERSION, message_type, flags, reserved: 0, sequence: seq },
            )
            &&& f.subrange(4, f.len() as int).subrange(8, 8 + payload.len() as int) == payload
        }),
{
    let f = spec_dp_frame(message_type, seq, flags, payload);
    let d = f.subrange(4, f.len() as int);
    let n = ((8 + payload.len()) % 0x1_0000_0000) as u32;
    lemma_be_u32_roundtrip(n);
    lemma_be_u32_roundtrip(seq);
    assert(f[0] == be_u32_bytes(n)[0] && f[1] == be_u32_bytes(n)[1] && f[2] == be_u32_bytes(n)[2] && f[3] == be_u32_bytes(n)[3]);
    assert(d[0] == DP_PROTOCOL_VERSION);
    assert(d[1] == message_type.spec_code());
    assert(d[2] == flags.spec_bits());
    assert(d[3] == 0);
    assert(d[4] == be_u32_bytes(seq)[0] && d[5] == be_u32_bytes(seq)[1] && d[6] == be_u32_bytes(seq)[2] && d[7] == be_u32_bytes(seq)[3]);
    let c = choose|t: DpMessageType| t.spec_code() == d[1];
    lemma_dp_type_code_injective(c, message_type);
    MessageFlags::lemma_flags_from_bits(flags);
    assert(d.subrange(8, 8 + payload.len() as int) =~= payload);
}

// ============================================================================
// Helper Functions
// ============================================================================

/// Get current timestamp in nanoseconds since UNIX epoch (0 if the clock
/// reads a time before the epoch).
pub fn current_timestamp_ns() -> u64 {
    unix_time_ns()
}

} // verus!
