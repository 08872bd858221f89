use zenoh_oam::data_plane::{
    decode_dp_frame, frame_dp_message, DeliveryStatus, DeliveryStatusCode, DpFrameError,
    DpMessage, DpMessageType, ExpressMessage, FlowControl, FlowControlType, MessageFlags, Ping, Pong,
    ReachabilityStatus, ReachabilityUpdate, Target, TargetType, UnreachableReason,
};

#[test]
fn test_target_creation() {
    let mac = Target::mac([0x00, 0x11, 0x22, 0x33, 0x44, 0x55]);
    assert_eq!(mac.target_type, TargetType::MacAddress);
    assert_eq!(mac.address.len(), 6);

    let broadcast = Target::broadcast();
    assert_eq!(broadcast.target_type, TargetType::Broadcast);

    let callsign = Target::callsign("ALPHA1");
    assert_eq!(callsign.target_type, TargetType::RadioCallsign);
}

#[test]
fn test_delivery_status() {
    let transmitted = DeliveryStatus::transmitted(42);
    assert_eq!(transmitted.message_id, 42);
    assert_eq!(transmitted.status, DeliveryStatusCode::Transmitted);

    let unreachable = DeliveryStatus::unreachable(123, "No route to host");
    assert_eq!(unreachable.status, DeliveryStatusCode::Unreachable);
    assert!(unreachable.details.is_some());
}

#[test]
fn test_reachability_update() {
    let target = Target::callsign("BRAVO2");
    let update = ReachabilityUpdate::unreachable(target.clone(), UnreachableReason::Timeout);

    assert_eq!(update.status, ReachabilityStatus::Unreachable);
    assert!(update.details.is_some());
    assert_eq!(update.details.unwrap().reason, Some(UnreachableReason::Timeout));
}

#[test]
fn test_flow_control() {
    let pause = FlowControl::pause("TX buffer full");
    assert_eq!(pause.control_type, FlowControlType::Pause);
    assert!(pause.target.is_none()); // Global

    let slow_down = FlowControl::slow_down(500_000);
    assert_eq!(slow_down.control_type, FlowControlType::SlowDown);
    assert_eq!(slow_down.details.suggested_rate_bps, Some(500_000));
}

#[test]
fn test_express_message_expiry() {
    let target = Target::broadcast();
    // A deadline 100 ms from now
    let msg = ExpressMessage::new(1, target, vec![1, 2, 3], 100_000_000);

    // Message should not be expired immediately
    assert!(!msg.is_expired());
}

#[test]
fn test_message_flags() {
    let flags = MessageFlags::express() | MessageFlags::reliable();
    assert!(flags.contains(MessageFlags::express()));
    assert!(flags.contains(MessageFlags::reliable()));

    let flags_with_priority = flags.with_priority(2);
    assert_eq!(flags_with_priority.priority(), 2);
}

#[test]
fn modem_data_plane_types_test_message_roundtrip() {
    // The body would be the MessagePack encoding of a ping; the frame carries
    // it unchanged together with the header.
    let msg = DpMessage::Ping(Ping::new(42));
    let body = [0x81u8, 0xA3, b's', b'e', b'q', 42];
    let encoded = frame_dp_message(msg.message_type(), 1, MessageFlags::empty(), &body);
    let (header, decoded) = decode_dp_frame(&encoded[4..]).unwrap(); // Skip length prefix

    assert_eq!(header.message_type, DpMessageType::Ping);
    assert_eq!(header.sequence, 1);
    assert_eq!(decoded, &body[..]);
    match msg {
        DpMessage::Ping(ping) => assert_eq!(ping.seq, 42),
        _ => panic!("wrong message type"),
    }
}

#[test]
fn dp_frame_layout() {
    let flags = MessageFlags::reliable().with_priority(3);
    let encoded = frame_dp_message(DpMessageType::DataMessage, 0x0102_0304, flags, &[9, 8, 7]);
    // Length: 8 header bytes and 3 payload bytes, big-endian
    assert_eq!(&encoded[0..4], &[0, 0, 0, 11]);
    assert_eq!(encoded[4], 1); // version
    assert_eq!(encoded[5], DpMessageType::DataMessage.code());
    assert_eq!(encoded[6], flags.bits());
    assert_eq!(encoded[7], 0); // reserved
    assert_eq!(&encoded[8..12], &[1, 2, 3, 4]);
    assert_eq!(&encoded[12..], &[9, 8, 7]);
}

#[test]
fn dp_frame_errors() {
    assert_eq!(decode_dp_frame(&[1, 2, 3]).unwrap_err(), DpFrameError::TooShort);
    assert_eq!(
        decode_dp_frame(&[2, 1, 0, 0, 0, 0, 0, 0]).unwrap_err(),
        DpFrameError::UnsupportedVersion(2)
    );
    assert_eq!(
        decode_dp_frame(&[1, 0xEE, 0, 0, 0, 0, 0, 0]).unwrap_err(),
        DpFrameError::UnknownMessageType(0xEE)
    );
}

#[test]
fn flags_priority_kept_apart_from_other_bits() {
    let flags = MessageFlags::express().with_priority(7);
    assert_eq!(flags.priority(), 7);
    assert!(flags.contains(MessageFlags::express()));
    let lowered = flags.with_priority(1);
    assert_eq!(lowered.priority(), 1);
    assert!(lowered.contains(MessageFlags::express()));
}

#[test]
fn queue_status_water_marks() {
    let high = FlowControl::queue_status_with_fill(900, 1000, 90);
    assert_eq!(high.control_type, FlowControlType::QueueStatus);
    assert_eq!(high.details.high_water_mark_pct, Some(90));
    assert_eq!(high.details.low_water_mark_pct, None);

    let low = FlowControl::queue_status_with_fill(100, 1000, 10);
    assert_eq!(low.details.high_water_mark_pct, None);
    assert_eq!(low.details.low_water_mark_pct, Some(10));

    let mid = FlowControl::queue_status_with_fill(500, 1000, 50);
    assert_eq!(mid.details.high_water_mark_pct, None);
    assert_eq!(mid.details.low_water_mark_pct, None);
    assert_eq!(mid.details.queue_depth_bytes, Some(500));
}

#[test]
fn express_message_expiry_at() {
    let msg = ExpressMessage::new(1, Target::broadcast(), vec![], 100);
    let deadline = msg.express_metadata.deadline_ns;
    assert!(!msg.is_expired_at(deadline));
    assert!(msg.is_expired_at(deadline + 1));
}

#[test]
fn express_message_with_latest_deadline_never_expires() {
    let mut msg = ExpressMessage::new(2, Target::broadcast(), vec![], 100);
    msg.express_metadata.deadline_ns = u64::MAX;
    assert!(!msg.is_expired());
    assert!(!msg.is_expired_at(u64::MAX));
}

#[test]
fn pong_processing_time_runs_to_its_stamp() {
    let ping = Ping::new(9);
    let pong = Pong::from_ping(&ping, 5);
    assert_eq!(pong.seq, 9);
    assert_eq!(pong.processing_ns, pong.timestamp_ns.wrapping_sub(5));

    let later = Pong::from_ping(&ping, u64::MAX);
    assert_eq!(later.processing_ns, later.timestamp_ns.wrapping_sub(u64::MAX));

    let exact = Pong::from_ping_at(&ping, 100, 250);
    assert_eq!(exact.timestamp_ns, 250);
    assert_eq!(exact.processing_ns, 150);
}
