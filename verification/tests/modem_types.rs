use zenoh_oam::modem_types::{
    decode_message_frame, frame_message, incoming_frame_length, BroadcastCapabilities, DecodeError, Heartbeat,
    LinkAvailable, LinkCapabilities, LinkProperties, LinkQuery, LinkType, LinkUnavailable,
    LinkUnavailableReason, LinkUpdate, Message, MessageType, MetricsUpdate, PriorityRange,
    Reliability, TargetInfo, TargetType, UnicastCapabilities,
};

#[test]
fn test_link_available() {
    let target = TargetInfo {
        target_id: "node1".into(),
        target_type: TargetType::ZenohNode,
        name: Some("Remote Node 1".into()),
        address: Some("192.168.1.100".into()),
    };

    let link = LinkAvailable::new("link-001", "unixpipe//run/zenoh/modem/radio0/targets/node1.sock", target)
        .with_link_type(LinkType::Unicast)
        .with_properties(LinkProperties {
            mtu: 1400,
            bandwidth_bps: 9600,
            latency_us: 250_000,
            reliability: Reliability::Reliable,
            priority_range: Some(PriorityRange { min: 0, max: 7 }),
            express_available: true,
        });

    assert_eq!(link.link_id, "link-001");
    assert_eq!(link.link_type, LinkType::Unicast);
    assert_eq!(link.properties.mtu, 1400);
    assert!(link.properties.express_available);
    let latency_ms = link.properties.latency_us as f64 / 1000.0;
    assert!((latency_ms - 250.0).abs() < 0.01);
}

#[test]
fn test_link_unavailable() {
    let msg = LinkUnavailable::new("link-001", LinkUnavailableReason::TargetUnreachable)
        .with_message("Target went out of range")
        .may_reconnect_in(30_000);

    assert_eq!(msg.link_id, "link-001");
    assert_eq!(msg.reason, LinkUnavailableReason::TargetUnreachable);
    assert!(msg.may_reconnect);
    assert_eq!(msg.estimated_reconnect_ms, Some(30_000));
}

#[test]
fn test_link_update() {
    let props = LinkProperties::new(1400, 4800, 500_000);
    let update = LinkUpdate::new("link-001", props).with_reason("Bandwidth reduced due to interference");

    assert_eq!(update.link_id, "link-001");
    assert_eq!(update.properties.bandwidth_bps, 4800);
    assert!(update.reason.is_some());
}

#[test]
fn test_link_query() {
    let query = LinkQuery::new(42).with_link_type(LinkType::Unicast).with_target_filter("node*");

    assert_eq!(query.query_id, 42);
    assert_eq!(query.link_type_filter, Some(LinkType::Unicast));
    assert_eq!(query.target_filter, Some("node*".into()));
}

#[test]
fn test_link_message_roundtrip() {
    let target = TargetInfo { target_id: "node1".into(), target_type: TargetType::ZenohNode, name: None, address: None };

    let link = LinkAvailable::new("link-001", "unixpipe//test.sock", target);
    let msg = Message::LinkAvailable(link);

    assert!(msg.is_link_management());
    assert_eq!(msg.message_type(), MessageType::LinkAvailable);

    // The frame carries the encoded body unchanged
    let body = b"encoded link announcement";
    let encoded = frame_message(msg.message_type(), body);
    let decoded = decode_message_frame(&encoded[4..]).unwrap();
    assert_eq!(decoded, &body[..]);

    match msg {
        Message::LinkAvailable(la) => {
            assert_eq!(la.link_id, "link-001");
            assert_eq!(la.target.target_id, "node1");
        }
        _ => panic!("wrong message type"),
    }
}

#[test]
fn test_link_capabilities() {
    let caps = LinkCapabilities {
        socket_base_path: "/run/zenoh/modem/radio0".into(),
        unicast: UnicastCapabilities {
            max_mtu: 1500,
            min_mtu: 64,
            supports_priorities: true,
            priority_range: Some(PriorityRange { min: 0, max: 7 }),
            supports_express: true,
            express_priority_threshold: Some(2),
            supports_reliable: true,
            supports_best_effort: true,
            default_reliability: Reliability::Reliable,
            max_targets: 16,
            max_pending_bytes: 65536,
        },
        broadcast: Some(BroadcastCapabilities { max_mtu: 1400, max_recipients: 16, supports_reliable: false }),
        multicast: None,
    };

    assert_eq!(caps.unicast.max_mtu, 1500);
    assert!(caps.unicast.supports_express);
    assert_eq!(caps.unicast.express_priority_threshold, Some(2));
    assert!(caps.broadcast.is_some());
    assert!(caps.multicast.is_none());
}

#[test]
fn modem_driver_types_test_message_roundtrip() {
    let msg = Message::Heartbeat(Heartbeat::request(42));
    let body = [0x81u8, 0xA3, b's', b'e', b'q', 42];
    let encoded = frame_message(msg.message_type(), &body);
    let decoded = decode_message_frame(&encoded[4..]).unwrap(); // Skip length prefix
    assert_eq!(decoded, &body[..]);

    match msg {
        Message::Heartbeat(hb) => {
            assert_eq!(hb.seq, 42);
            assert!(hb.echo);
        }
        _ => panic!("wrong message type"),
    }
}

#[test]
fn message_frame_layout() {
    let encoded = frame_message(MessageType::LinkQuery, &[5, 6]);
    assert_eq!(encoded, vec![0, 0, 0, 6, 1, 0x23, 0, 0, 5, 6]);
}

#[test]
fn message_frame_errors() {
    assert_eq!(decode_message_frame(&[1, 2, 3]), Err(DecodeError::TooShort));
    assert_eq!(decode_message_frame(&[9, 2, 0, 0]), Err(DecodeError::UnsupportedVersion(9)));
    assert_eq!(decode_message_frame(&[1, 2, 0, 0]), Ok(&[][..]));
}

#[test]
fn message_type_codes() {
    assert_eq!(MessageType::ModemInfo.code(), 0x01);
    assert_eq!(MessageType::Heartbeat.code(), 0x06);
    assert_eq!(MessageType::ConfigureAck.code(), 0x13);
    assert_eq!(MessageType::LinkQueryResponse.code(), 0x24);
    assert_eq!(MessageType::Error.code(), 0xFF);
}

#[test]
fn heartbeat_and_metrics_constructors() {
    let hb = Heartbeat::response(9);
    assert_eq!(hb.seq, 9);
    assert!(!hb.echo);
    let m = MetricsUpdate::new(3);
    assert_eq!(m.seq, 3);
    assert_eq!(m.signal.snr_cdb, 0);
    assert!(m.satellite.is_none());
    assert!(m.custom.is_empty());
    let msg = Message::MetricsUpdate(m);
    assert!(!msg.is_link_management());
    assert_eq!(msg.message_type(), MessageType::MetricsUpdate);
}

#[test]
fn link_defaults() {
    assert_eq!(LinkType::default(), LinkType::Unicast);
    assert_eq!(TargetType::default(), TargetType::ZenohNode);
    assert_eq!(Reliability::default(), Reliability::Reliable);
    assert_eq!(LinkUnavailableReason::default(), LinkUnavailableReason::Other);
    let p = LinkProperties::new(1500, 0, 0);
    assert_eq!(p.reliability, Reliability::Reliable);
    assert!(p.priority_range.is_none());
    assert!(!p.express_available);
}

#[test]
fn incoming_frame_lengths() {
    assert_eq!(incoming_frame_length([0, 0, 0, 10]), Some(10));
    assert_eq!(incoming_frame_length([0, 1, 0, 4]), Some(65540));
    assert_eq!(incoming_frame_length([0, 1, 0, 5]), None);
    assert_eq!(incoming_frame_length([0xFF, 0, 0, 0]), None);
}
