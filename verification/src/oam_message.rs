//! OAM wire payloads: loopback, delay measurement and synthetic loss probes.
use vstd::bytes::*;
use vstd::prelude::*;
use vstd::slice::slice_subrange;

use crate::clock::{random_u32, random_u64};

verus! {

/// Identifier of an OAM message.
pub type OamId = u16;

/// Body of a transport extension: nothing, a 64-bit integer, or a byte buffer.
#[derive(Debug, Clone, PartialEq, Eq)]
pub enum ZExtBody {
    Unit,
    Z64(u64),
    ZBuf(Vec<u8>),
}

/// QoS extension of an OAM message: the packed priority / congestion-control /
/// express byte.
#[derive(Debug, Clone, Copy, PartialEq, Eq, Structural)]
pub struct QoSType {
    pub inner: u8,
}

impl QoSType {
    /// The default QoS: priority `Data` (5), drop on congestion, not express.
    pub open spec fn spec_default() -> QoSType {
        QoSType { inner: 5 }
    }

    pub fn default() -> (r: QoSType)
        ensures
            r == Self::spec_default(),
    {
        QoSType { inner: 5 }
    }
}

/// An OAM transport message.
///
/// ```text
///  7 6 5 4 3 2 1 0
/// +-+-+-+-+-+-+-+-+
/// |Z|ENC|  OAM    |
/// +-+-+-+---------+
/// ~    id:z16     ~
/// +---------------+
/// ~  [oam_exts]   ~
/// +---------------+
/// %    length     % -- If ENC == u64 || ENC == ZBuf
/// +---------------+
/// ~     [u8]      ~ -- If ENC == ZBuf
/// +---------------+
/// ```
#[derive(Debug, Clone, PartialEq, Eq)]
pub struct Oam {
    pub id: OamId,
    pub body: ZExtBody,
    pub ext_qos: QoSType,
}

impl Oam {
    /// A message with a random id, a random body (nothing, a random 64-bit
    /// value, or 8 to 64 random bytes) and a random QoS byte (for tests).
    pub fn rand() -> Self {
        let id: u16 = #[verifier::truncate] (random_u32() as u16);
        let body = match random_u32() % 3 {
            0 => ZExtBody::Unit,
            1 => ZExtBody::Z64(random_u64()),
            _ => {
                let len: u32 = 8 + random_u32() % 57;
                let mut bytes: Vec<u8> = Vec::new();
                let mut i: u32 = 0;
                while i < len
                    invariant
                        i <= len,
                    decreases len - i,
                {
                    bytes.push(#[verifier::truncate] (random_u32() as u8));
                    i = i + 1;
                }
                ZExtBody::ZBuf(bytes)
            },
        };
        let inner: u8 = #[verifier::truncate] (random_u32() as u8);
        Oam { id, body, ext_qos: QoSType { inner } }
    }
}

/// The body of a transport message, as far as OAM is concerned.
#[derive(Debug, Clone, PartialEq, Eq)]
pub enum TransportBody {
    OAM(Oam),
}

/// A transport message.
#[derive(Debug, Clone, PartialEq, Eq)]
pub struct TransportMessage {
    pub body: TransportBody,
}

/// `msg` is an OAM message with id `id`, default QoS, and a byte-buffer body
/// holding exactly `bytes`.
pub open spec fn is_oam_zbuf_message(msg: TransportMessage, id: OamId, bytes: Seq<u8>) -> bool {
    match msg.body {
        TransportBody::OAM(oam) => {
            &&& oam.id == id
            &&& oam.ext_qos == QoSType::spec_default()
            &&& match oam.body {
                ZExtBody::ZBuf(b) => b@ == bytes,
                _ => false,
            }
        },
    }
}

/// Builds the transport message carrying an OAM message with id `id` whose body
/// is the byte buffer `bytes`, with default QoS.
pub fn oam_zbuf_message(id: OamId, bytes: &[u8]) -> (r: TransportMessage)
    ensures
        is_oam_zbuf_message(r, id, bytes@),
{
    let body = ZExtBody::ZBuf(vstd::slice::slice_to_vec(bytes));
    TransportMessage { body: TransportBody::OAM(Oam { id, body, ext_qos: QoSType::default() }) }
}

/// Loopback probe payload for RTT measurement.
///
/// Wire format (12 bytes, little-endian): `seq: u32`, then `timestamp_ns: u64`.
#[derive(Debug, Clone, Copy, PartialEq, Eq, Structural)]
pub struct LoopbackPayload {
    /// Sequence number for matching requests to replies
    pub seq: u32,
    /// Sender timestamp in nanoseconds since UNIX epoch
    pub timestamp_ns: u64,
}

/// The bytes `buf[start..start + 4]` read as a little-endian `u32`.
pub open spec fn le_u32_at(buf: Seq<u8>, start: int) -> u32 {
    spec_u32_from_le_bytes(buf.subrange(start, start + 4))
}

/// The bytes `buf[start..start + 8]` read as a little-endian `u64`.
pub open spec fn le_u64_at(buf: Seq<u8>, start: int) -> u64 {
    spec_u64_from_le_bytes(buf.subrange(start, start + 8))
}

impl LoopbackPayload {
    pub const SIZE: usize = 12;

    /// The wire image of a loopback payload.
    pub open spec fn spec_encode(self) -> Seq<u8> {
        spec_u32_to_le_bytes(self.seq) + spec_u64_to_le_bytes(self.timestamp_ns)
    }

    /// What decoding a buffer gives: `None` below 12 bytes, else the fields read
    /// from the first 12 bytes.
    pub open spec fn spec_decode(buf: Seq<u8>) -> Option<LoopbackPayload> {
        if buf.len() < 12 {
            None
        } else {
            Some(LoopbackPayload { seq: le_u32_at(buf, 0), timestamp_ns: le_u64_at(buf, 4) })
        }
    }

    pub fn new(seq: u32, timestamp_ns: u64) -> (r: Self)
        ensures
            r == (LoopbackPayload { seq, timestamp_ns }),
    {
        LoopbackPayload { seq, timestamp_ns }
    }

    /// Encode payload to bytes (little-endian)
    pub fn encode(&self) -> (r: [u8; 12])
        ensures
            r@ == self.spec_encode(),
    {
        let a = u32_to_le_bytes(self.seq);
        let b = u64_to_le_bytes(self.timestamp_ns);
        let r = [a[0], a[1], a[2], a[3], b[0], b[1], b[2], b[3], b[4], b[5], b[6], b[7]];
        assert(r@ =~= self.spec_encode());
        r
    }

    /// Decode payload from bytes (little-endian)
    pub fn decode(buf: &[u8]) -> (r: Option<Self>)
        ensures
            r == Self::spec_decode(buf@),
    {
        if buf.len() < 12 {
            return None;
        }
        let seq = u32_from_le_bytes(slice_subrange(buf, 0, 4));
        let timestamp_ns = u64_from_le_bytes(slice_subrange(buf, 4, 12));
        Some(LoopbackPayload { seq, timestamp_ns })
    }

    /// A payload with random fields (for tests).
    pub fn rand() -> Self {
        LoopbackPayload { seq: random_u32(), timestamp_ns: random_u64() }
    }
}


/// Delay measurement payload for one-way delay calculation (4-timestamp protocol).
///
/// Wire format (28 bytes, little-endian): `seq: u32`, `t1: u64`, `t2: u64`, `t3: u64`.
#[derive(Debug, Clone, Copy, PartialEq, Eq, Structural)]
pub struct DelayMeasurementPayload {
    /// Sequence number
    pub seq: u32,
    /// DMM send time (nanoseconds since epoch)
    pub t1: u64,
    /// DMM receive time (nanoseconds since epoch), 0 in request
    pub t2: u64,
    /// DMR send time (nanoseconds since epoch), 0 in request
    pub t3: u64,
}

impl DelayMeasurementPayload {
    pub const SIZE: usize = 28;

    /// The wire image of a delay measurement payload.
    pub open spec fn spec_encode(self) -> Seq<u8> {
        spec_u32_to_le_bytes(self.seq) + spec_u64_to_le_bytes(self.t1) + spec_u64_to_le_bytes(
            self.t2,
        ) + spec_u64_to_le_bytes(self.t3)
    }

    /// `None` below 28 bytes, else the fields read from the first 28 bytes.
    pub open spec fn spec_decode(buf: Seq<u8>) -> Option<DelayMeasurementPayload> {
        if buf.len() < 28 {
            None
        } else {
            Some(
                DelayMeasurementPayload {
                    seq: le_u32_at(buf, 0),
                    t1: le_u64_at(buf, 4),
                    t2: le_u64_at(buf, 12),
                    t3: le_u64_at(buf, 20),
                },
            )
        }
    }

    pub fn new_request(seq: u32, t1: u64) -> (r: Self)
        ensures
            r == (DelayMeasurementPayload { seq, t1, t2: 0, t3: 0 }),
    {
        DelayMeasurementPayload { seq, t1, t2: 0, t3: 0 }
    }

    pub fn new_reply(seq: u32, t1: u64, t2: u64, t3: u64) -> (r: Self)
        ensures
            r == (DelayMeasurementPayload { seq, t1, t2, t3 }),
    {
        DelayMeasurementPayload { seq, t1, t2, t3 }
    }

    /// Encode payload to bytes (little-endian)
    pub fn encode(&self) -> (r: [u8; 28])
        ensures
            r@ == self.spec_encode(),
    {
        let a = u32_to_le_bytes(self.seq);
        let b = u64_to_le_bytes(self.t1);
        let c = u64_to_le_bytes(self.t2);
        let d = u64_to_le_bytes(self.t3);
        let r = [
            a[0], a[1], a[2], a[3],
            b[0], b[1], b[2], b[3], b[4], b[5], b[6], b[7],
            c[0], c[1], c[2], c[3], c[4], c[5], c[6], c[7],
            d[0], d[1], d[2], d[3], d[4], d[5], d[6], d[7],
        ];
        assert(r@ =~= self.spec_encode());
        r
    }

    /// Decode payload from bytes (little-endian)
    pub fn decode(buf: &[u8]) -> (r: Option<Self>)
        ensures
            r == Self::spec_decode(buf@),
    {
        if buf.len() < 28 {
            return None;
        }
        let seq = u32_from_le_bytes(slice_subrange(buf, 0, 4));
        let t1 = u64_from_le_bytes(slice_subrange(buf, 4, 12));
        let t2 = u64_from_le_bytes(slice_subrange(buf, 12, 20));
        let t3 = u64_from_le_bytes(slice_subrange(buf, 20, 28));
        Some(DelayMeasurementPayload { seq, t1, t2, t3 })
    }

    /// A payload with random fields (for tests).
    pub fn rand() -> Self {
        DelayMeasurementPayload { seq: random_u32(), t1: random_u64(), t2: random_u64(), t3: random_u64() }
    }
}

/// Synthetic loss measurement payload for packet loss calculation.
///
/// Wire format (20 bytes, little-endian): `seq: u32`, `tx_counter: u64`, `rx_counter: u64`.
#[derive(Debug, Clone, Copy, PartialEq, Eq, Structural)]
pub struct SyntheticLossPayload {
    /// Sequence number
    pub seq: u32,
    /// Total probes sent by sender
    pub tx_counter: u64,
    /// Total probes received by responder (0 in request, filled in reply)
    pub rx_counter: u64,
}

impl SyntheticLossPayload {
    pub const SIZE: usize = 20;

    /// The wire image of a synthetic loss payload.
    pub open spec fn spec_encode(self) -> Seq<u8> {
        spec_u32_to_le_bytes(self.seq) + spec_u64_to_le_bytes(self.tx_counter)
            + spec_u64_to_le_bytes(self.rx_counter)
    }

    /// `None` below 20 bytes, else the fields read from the first 20 bytes.
    pub open spec fn spec_decode(buf: Seq<u8>) -> Option<SyntheticLossPayload> {
        if buf.len() < 20 {
            None
        } else {
            Some(
                SyntheticLossPayload {
                    seq: le_u32_at(buf, 0),
                    tx_counter: le_u64_at(buf, 4),
                    rx_counter: le_u64_at(buf, 12),
                },
            )
        }
    }

    pub fn new_request(seq: u32, tx_counter: u64) -> (r: Self)
        ensures
            r == (SyntheticLossPayload { seq, tx_counter, rx_counter: 0 }),
    {
        SyntheticLossPayload { seq, tx_counter, rx_counter: 0 }
    }

    pub fn new_reply(seq: u32, tx_counter: u64, rx_counter: u64) -> (r: Self)
        ensures
            r == (SyntheticLossPayload { seq, tx_counter, rx_counter }),
    {
        SyntheticLossPayload { seq, tx_counter, rx_counter }
    }

    /// Encode payload to bytes (little-endian)
    pub fn encode(&self) -> (r: [u8; 20])
        ensures
            r@ == self.spec_encode(),
    {
        let a = u32_to_le_bytes(self.seq);
        let b = u64_to_le_bytes(self.tx_counter);
        let c = u64_to_le_bytes(self.rx_counter);
        let r = [
            a[0], a[1], a[2], a[3],
            b[0], b[1], b[2], b[3], b[4], b[5], b[6], b[7],
            c[0], c[1], c[2], c[3], c[4], c[5], c[6], c[7],
        ];
        assert(r@ =~= self.spec_encode());
        r
    }

    /// Decode payload from bytes (little-endian)
    pub fn decode(buf: &[u8]) -> (r: Option<Self>)
        ensures
            r == Self::spec_decode(buf@),
    {
        if buf.len() < 20 {
            return None;
        }
        let seq = u32_from_le_bytes(slice_subrange(buf, 0, 4));
        let tx_counter = u64_from_le_bytes(slice_subrange(buf, 4, 12));
        let rx_counter = u64_from_le_bytes(slice_subrange(buf, 12, 20));
        Some(SyntheticLossPayload { seq, tx_counter, rx_counter })
    }

    /// A payload with random fields (for tests).
    pub fn rand() -> Self {
        SyntheticLossPayload { seq: random_u32(), tx_counter: random_u64(), rx_counter: random_u64() }
    }
}

/// Decoding the encoding of a loopback payload gives the payload back, and
/// decoding ignores whatever follows the first 12 bytes.
pub proof fn lemma_loopback_roundtrip(p: LoopbackPayload, trailer: Seq<u8>)
    ensures
        p.spec_encode().len() == 12,
        LoopbackPayload::spec_decode(p.spec_encode()) == Some(p),
        LoopbackPayload::spec_decode(p.spec_encode() + trailer) == Some(p),
{
    lemma_auto_spec_u32_to_from_le_bytes();
    lemma_auto_spec_u64_to_from_le_bytes();
    let e = p.spec_encode();
    let a = spec_u32_to_le_bytes(p.seq);
    let b = spec_u64_to_le_bytes(p.timestamp_ns);
    assert(e.subrange(0, 4) =~= a);
    assert(e.subrange(4, 12) =~= b);
    assert((e + trailer).subrange(0, 4) =~= a);
    assert((e + trailer).subrange(4, 12) =~= b);
}

/// Any buffer of at least 12 bytes that decodes re-encodes to its first 12 bytes.
pub proof fn lemma_loopback_decode_encode(buf: Seq<u8>)
    requires
        buf.len() >= 12,
    ensures
        LoopbackPayload::spec_decode(buf).unwrap().spec_encode() == buf.subrange(0, 12),
{
    lemma_auto_spec_u32_to_from_le_bytes();
    lemma_auto_spec_u64_to_from_le_bytes();
    let p = LoopbackPayload::spec_decode(buf).unwrap();
    assert(spec_u32_to_le_bytes(p.seq) == buf.subrange(0, 4));
    assert(spec_u64_to_le_bytes(p.timestamp_ns) == buf.subrange(4, 12));
    assert(p.spec_encode() =~= buf.subrange(0, 12));
}

/// Decoding the encoding of a delay measurement payload gives the payload back,
/// whatever follows it.
pub proof fn lemma_delay_roundtrip(p: DelayMeasurementPayload, trailer: Seq<u8>)
    ensures
        p.spec_encode().len() == 28,
        DelayMeasurementPayload::spec_decode(p.spec_encode()) == Some(p),
        DelayMeasurementPayload::spec_decode(p.spec_encode() + trailer) == Some(p),
{
    lemma_auto_spec_u32_to_from_le_bytes();
    lemma_auto_spec_u64_to_from_le_bytes();
    let e = p.spec_encode();
    let f = e + trailer;
    assert(e.subrange(0, 4) =~= spec_u32_to_le_bytes(p.seq));
    assert(e.subrange(4, 12) =~= spec_u64_to_le_bytes(p.t1));
    assert(e.subrange(12, 20) =~= spec_u64_to_le_bytes(p.t2));
    assert(e.subrange(20, 28) =~= spec_u64_to_le_bytes(p.t3));
    assert(f.subrange(0, 4) =~= spec_u32_to_le_bytes(p.seq));
    assert(f.subrange(4, 12) =~= spec_u64_to_le_bytes(p.t1));
    assert(f.subrange(12, 20) =~= spec_u64_to_le_bytes(p.t2));
    assert(f.subrange(20, 28) =~= spec_u64_to_le_bytes(p.t3));
}

/// Any buffer of at least 28 bytes that decodes re-encodes to its first 28 bytes.
pub proof fn lemma_delay_decode_encode(buf: Seq<u8>)
    requires
        buf.len() >= 28,
    ensures
        DelayMeasurementPayload::spec_decode(buf).unwrap().spec_encode() == buf.subrange(0, 28),
{
    lemma_auto_spec_u32_to_from_le_bytes();
    lemma_auto_spec_u64_to_from_le_bytes();
    let p = DelayMeasurementPayload::spec_decode(buf).unwrap();
    assert(spec_u32_to_le_bytes(p.seq) == buf.subrange(0, 4));
    assert(spec_u64_to_le_bytes(p.t1) == buf.subrange(4, 12));
    assert(spec_u64_to_le_bytes(p.t2) == buf.subrange(12, 20));
    assert(spec_u64_to_le_bytes(p.t3) == buf.subrange(20, 28));
    assert(p.spec_encode() =~= buf.subrange(0, 28));
}

/// Decoding the encoding of a synthetic loss payload gives the payload back,
/// whatever follows it.
pub proof fn lemma_loss_roundtrip(p: SyntheticLossPayload, trailer: Seq<u8>)
    ensures
        p.spec_encode().len() == 20,
        SyntheticLossPayload::spec_decode(p.spec_encode()) == Some(p),
        SyntheticLossPayload::spec_decode(p.spec_encode() + trailer) == Some(p),
{
    lemma_auto_spec_u32_to_from_le_bytes();
    lemma_auto_spec_u64_to_from_le_bytes();
    let e = p.spec_encode();
    let f = e + trailer;
    assert(e.subrange(0, 4) =~= spec_u32_to_le_bytes(p.seq));
    assert(e.subrange(4, 12) =~= spec_u64_to_le_bytes(p.tx_counter));
    assert(e.subrange(12, 20) =~= spec_u64_to_le_bytes(p.rx_counter));
    assert(f.subrange(0, 4) =~= spec_u32_to_le_bytes(p.seq));
    assert(f.subrange(4, 12) =~= spec_u64_to_le_bytes(p.tx_counter));
    assert(f.subrange(12, 20) =~= spec_u64_to_le_bytes(p.rx_counter));
}

/// Any buffer of at least 20 bytes that decodes re-encodes to its first 20 bytes.
pub proof fn lemma_loss_decode_encode(buf: Seq<u8>)
    requires
        buf.len() >= 20,
    ensures
        SyntheticLossPayload::spec_decode(buf).unwrap().spec_encode() == buf.subrange(0, 20),
{
    lemma_auto_spec_u32_to_from_le_bytes();
    lemma_auto_spec_u64_to_from_le_bytes();
    let p = SyntheticLossPayload::spec_decode(buf).unwrap();
    assert(spec_u32_to_le_bytes(p.seq) == buf.subrange(0, 4));
    assert(spec_u64_to_le_bytes(p.tx_counter) == buf.subrange(4, 12));
    assert(spec_u64_to_le_bytes(p.rx_counter) == buf.subrange(12, 20));
    assert(p.spec_encode() =~= buf.subrange(0, 20));
}

} // verus!
