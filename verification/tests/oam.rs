use zenoh_oam::link_control::LinkOverrides;
use zenoh_oam::metrics::{LinkQualityMetrics, LinkState};
use zenoh_oam::oam_config::{OamConf, OamConfig};
use zenoh_oam::oam_id;
use zenoh_oam::oam_message::{
    oam_zbuf_message, DelayMeasurementPayload, LoopbackPayload, Oam, QoSType,
    SyntheticLossPayload, TransportBody, TransportMessage, ZExtBody,
};
use zenoh_oam::prober::OamProber;
use zenoh_oam::protocol_core::{Locator, Priority, ZenohIdProto};
use zenoh_oam::responder::OamResponder;
use zenoh_oam::rx_oam::{oam_action_at, payload_bytes, OamAction};

const MS: u64 = 1_000_000;

fn test_zid() -> ZenohIdProto {
    ZenohIdProto::try_from_bytes(&[1u8; 16]).unwrap()
}

fn test_locator() -> Locator {
    Locator::new("tcp/192.168.1.100:7447")
}

fn zbuf_bytes(msg: TransportMessage, expected_id: u16) -> Vec<u8> {
    match msg.body {
        TransportBody::OAM(oam) => {
            assert_eq!(oam.id, expected_id);
            match oam.body {
                ZExtBody::ZBuf(buf) => buf,
                _ => panic!("Expected ZBuf body"),
            }
        }
    }
}

// ---------------------------------------------------------------------------
// Link overrides
// ---------------------------------------------------------------------------

#[test]
fn test_forced_link() {
    let mut overrides = LinkOverrides::new();
    let peer = test_zid();
    let link = test_locator();

    assert!(!overrides.has_forced_link(&peer));
    assert!(overrides.get_forced_link(&peer).is_none());

    overrides.set_forced_link(peer, link.clone());
    assert!(overrides.has_forced_link(&peer));
    assert_eq!(overrides.get_forced_link(&peer), Some(link));

    overrides.clear_forced_link(&peer);
    assert!(!overrides.has_forced_link(&peer));
}

#[test]
fn test_disabled_link() {
    let mut overrides = LinkOverrides::new();
    let link = test_locator();

    assert!(!overrides.is_disabled(&link));

    overrides.disable_link(link.clone());
    assert!(overrides.is_disabled(&link));

    overrides.enable_link(&link);
    assert!(!overrides.is_disabled(&link));
}

#[test]
fn test_clear_all() {
    let mut overrides = LinkOverrides::new();
    let peer = test_zid();
    let link = test_locator();

    overrides.set_forced_link(peer, link.clone());
    overrides.disable_link(link.clone());

    assert!(overrides.has_forced_link(&peer));
    assert!(overrides.is_disabled(&link));

    overrides.clear_all();

    assert!(!overrides.has_forced_link(&peer));
    assert!(!overrides.is_disabled(&link));
}

#[test]
fn disabling_twice_keeps_one_entry() {
    let mut overrides = LinkOverrides::new();
    overrides.disable_link(test_locator());
    overrides.disable_link(test_locator());
    assert_eq!(overrides.get_disabled_links().len(), 1);
    overrides.enable_link(&test_locator());
    assert!(overrides.get_disabled_links().is_empty());
}

#[test]
fn forced_link_replaced_and_listed() {
    let mut overrides = LinkOverrides::new();
    let peer = test_zid();
    overrides.set_forced_link(peer, Locator::new("tcp/10.0.0.1:7447"));
    overrides.set_forced_link(peer, Locator::new("udp/10.0.0.2:7447"));
    assert_eq!(overrides.get_forced_link(&peer), Some(Locator::new("udp/10.0.0.2:7447")));
    let all = overrides.get_all_forced_links();
    assert_eq!(all.len(), 1);
}

#[test]
fn zenoh_id_rejects_zero_and_long() {
    assert!(ZenohIdProto::try_from_bytes(&[0u8; 16]).is_none());
    assert!(ZenohIdProto::try_from_bytes(&[1u8; 17]).is_none());
    assert_eq!(ZenohIdProto::try_from_bytes(&[1u8]).unwrap().id, 1);
}

// ---------------------------------------------------------------------------
// Metrics
// ---------------------------------------------------------------------------

#[test]
fn test_initial_state() {
    let metrics = LinkQualityMetrics::new();
    assert_eq!(metrics.state, LinkState::Unknown);
    assert!(!metrics.is_alive);
    assert_eq!(metrics.tx_probe_count, 0);
    assert_eq!(metrics.rx_probe_count, 0);
}

#[test]
fn test_probe_update() {
    let mut metrics = LinkQualityMetrics::new();

    metrics.record_probe_sent();
    assert_eq!(metrics.tx_probe_count, 1);

    let rtt = 10 * MS;
    metrics.update_from_probe(rtt);

    assert_eq!(metrics.rtt_current, rtt);
    assert_eq!(metrics.rtt_min, rtt);
    assert_eq!(metrics.rtt_max, rtt);
    assert_eq!(metrics.rx_probe_count, 1);
    assert!(metrics.is_alive);
    assert_eq!(metrics.state, LinkState::Operational);
}

#[test]
fn test_jitter_calculation() {
    let mut metrics = LinkQualityMetrics::new();

    // First probe - no jitter yet
    metrics.update_from_probe(10 * MS);
    assert_eq!(metrics.jitter, 0);

    // Second probe with different RTT - jitter should be calculated
    metrics.update_from_probe(20 * MS);
    assert!(metrics.jitter > 0);
}

#[test]
fn test_timeout_handling() {
    let mut metrics = LinkQualityMetrics::new();

    // First successful probe
    metrics.record_probe_sent();
    metrics.update_from_probe(10 * MS);
    assert!(metrics.is_alive);

    // Record timeouts
    metrics.record_probe_sent();
    metrics.record_timeout(3);
    assert_eq!(metrics.consecutive_failures, 1);
    assert!(metrics.is_alive); // Still alive, not at threshold

    metrics.record_probe_sent();
    metrics.record_timeout(3);
    assert_eq!(metrics.consecutive_failures, 2);
    assert!(metrics.is_alive);

    metrics.record_probe_sent();
    metrics.record_timeout(3);
    assert_eq!(metrics.consecutive_failures, 3);
    assert!(!metrics.is_alive); // Now failed
    assert_eq!(metrics.state, LinkState::Failed);
}

#[test]
fn test_loss_ratio() {
    let mut metrics = LinkQualityMetrics::new();

    // Send 10 probes, receive 8
    for _ in 0..10 {
        metrics.record_probe_sent();
    }
    for _ in 0..8 {
        metrics.update_from_probe(10 * MS);
    }

    // Loss ratio should be 0.2 (2 lost out of 10)
    let loss_ratio = 1.0 - metrics.loss_rx_count as f64 / metrics.loss_tx_count as f64;
    assert!((loss_ratio - 0.2).abs() < 0.001);
}

#[test]
fn jitter_and_average_exact_values() {
    let mut metrics = LinkQualityMetrics::new();
    metrics.update_from_probe(10 * MS);
    assert_eq!(metrics.rtt_avg, 10 * MS);
    metrics.update_from_probe(26 * MS);
    // avg + (x - avg) / 16 = 10 ms + 1 ms; jitter 0 + 16 ms / 16 = 1 ms
    assert_eq!(metrics.rtt_avg, 11 * MS);
    assert_eq!(metrics.jitter, MS);
    assert_eq!(metrics.rtt_min, 10 * MS);
    assert_eq!(metrics.rtt_max, 26 * MS);
}

#[test]
fn loss_thresholds_set_state() {
    // 20% loss: marginal
    let mut m = LinkQualityMetrics::new();
    for _ in 0..10 {
        m.record_probe_sent();
    }
    for _ in 0..8 {
        m.update_from_probe(MS);
    }
    assert_eq!(m.state, LinkState::Marginal);

    // 5% loss: degraded
    let mut m = LinkQualityMetrics::new();
    for _ in 0..20 {
        m.record_probe_sent();
    }
    for _ in 0..19 {
        m.update_from_probe(MS);
    }
    assert_eq!(m.state, LinkState::Degraded);

    // no loss: operational
    let mut m = LinkQualityMetrics::new();
    m.record_probe_sent();
    m.update_from_probe(MS);
    assert_eq!(m.state, LinkState::Operational);
}

#[test]
fn reply_after_failure_revives() {
    let mut m = LinkQualityMetrics::new();
    m.record_probe_sent();
    m.record_timeout(1);
    assert!(!m.is_alive);
    assert_eq!(m.state, LinkState::Failed);
    m.record_probe_sent();
    m.update_from_probe(5 * MS);
    assert!(m.is_alive);
    assert_eq!(m.consecutive_failures, 0);
}

#[test]
fn delay_measurement_sets_one_way_delays() {
    let mut m = LinkQualityMetrics::new();
    m.update_from_delay_measurement(10 * MS, Some(4 * MS), Some(6 * MS));
    assert_eq!(m.forward_delay, Some(4 * MS));
    assert_eq!(m.reverse_delay, Some(6 * MS));
    assert_eq!(m.rtt_current, 10 * MS);
}

#[test]
fn reset_returns_to_initial() {
    let mut m = LinkQualityMetrics::new();
    m.record_probe_sent();
    m.update_from_probe(MS);
    m.reset();
    assert_eq!(m.state, LinkState::Unknown);
    assert_eq!(m.tx_probe_count, 0);
    assert_eq!(m.rx_probe_count, 0);
    assert!(!m.is_alive);
}

// ---------------------------------------------------------------------------
// Payloads
// ---------------------------------------------------------------------------

#[test]
fn test_loopback_payload_roundtrip() {
    let payload = LoopbackPayload::new(42, 1234567890);
    let encoded = payload.encode();
    let decoded = LoopbackPayload::decode(&encoded).unwrap();

    assert_eq!(decoded.seq, 42);
    assert_eq!(decoded.timestamp_ns, 1234567890);
}

#[test]
fn loopback_payload_layout() {
    let encoded = LoopbackPayload::new(0x0403_0201, 0x0C0B_0A09_0807_0605).encode();
    assert_eq!(encoded, [1, 2, 3, 4, 5, 6, 7, 8, 9, 10, 11, 12]);
}

#[test]
fn payloads_reject_short_buffers() {
    assert!(LoopbackPayload::decode(&[0u8; 11]).is_none());
    assert!(DelayMeasurementPayload::decode(&[0u8; 27]).is_none());
    assert!(SyntheticLossPayload::decode(&[0u8; 19]).is_none());
}

#[test]
fn delay_and_loss_roundtrip() {
    let d = DelayMeasurementPayload::new_reply(7, 1, 2, 3);
    let back = DelayMeasurementPayload::decode(&d.encode()).unwrap();
    assert_eq!((back.seq, back.t1, back.t2, back.t3), (7, 1, 2, 3));

    let l = SyntheticLossPayload::new_reply(9, 100, 95);
    let back = SyntheticLossPayload::decode(&l.encode()).unwrap();
    assert_eq!((back.seq, back.tx_counter, back.rx_counter), (9, 100, 95));

    let req = DelayMeasurementPayload::new_request(5, 77);
    assert_eq!((req.t2, req.t3), (0, 0));
}

// ---------------------------------------------------------------------------
// Responder
// ---------------------------------------------------------------------------

#[test]
fn test_loopback_reply() {
    let request = LoopbackPayload::new(42, 1234567890);
    let payload = request.encode();

    let reply = OamResponder::handle_probe(oam_id::LBM, &payload, 0);
    assert!(reply.is_some());

    let bytes = zbuf_bytes(reply.unwrap(), oam_id::LBR);
    let decoded = LoopbackPayload::decode(&bytes).unwrap();
    assert_eq!(decoded.seq, 42);
    assert_eq!(decoded.timestamp_ns, 1234567890);
}

#[test]
fn test_delay_reply() {
    let request = DelayMeasurementPayload::new_request(42, 1234567890);
    let payload = request.encode();

    let reply = OamResponder::handle_probe(oam_id::DMM, &payload, 0);
    assert!(reply.is_some());

    let bytes = zbuf_bytes(reply.unwrap(), oam_id::DMR);
    let decoded = DelayMeasurementPayload::decode(&bytes).unwrap();
    assert_eq!(decoded.seq, 42);
    assert_eq!(decoded.t1, 1234567890);
    assert!(decoded.t2 > 0); // Should have receive time
    assert!(decoded.t3 > 0); // Should have send time
}

#[test]
fn test_loss_reply() {
    let request = SyntheticLossPayload::new_request(42, 100);
    let payload = request.encode();

    let reply = OamResponder::handle_probe(oam_id::SLM, &payload, 95);
    assert!(reply.is_some());

    let bytes = zbuf_bytes(reply.unwrap(), oam_id::SLR);
    let decoded = SyntheticLossPayload::decode(&bytes).unwrap();
    assert_eq!(decoded.seq, 42);
    assert_eq!(decoded.tx_counter, 100);
    assert_eq!(decoded.rx_counter, 95);
}

#[test]
fn test_unknown_probe() {
    let payload = [0u8; 12];
    let reply = OamResponder::handle_probe(0x9999, &payload, 0);
    assert!(reply.is_none());
}

#[test]
fn delay_reply_uses_given_time() {
    let payload = DelayMeasurementPayload::new_request(3, 10).encode();
    let reply = OamResponder::handle_probe_at(oam_id::DMM, &payload, 0, 555).unwrap();
    let decoded = DelayMeasurementPayload::decode(&zbuf_bytes(reply, oam_id::DMR)).unwrap();
    assert_eq!((decoded.seq, decoded.t1, decoded.t2, decoded.t3), (3, 10, 555, 555));
}

#[test]
fn probe_with_short_payload_is_not_answered() {
    assert!(OamResponder::handle_probe(oam_id::LBM, &[0u8; 4], 0).is_none());
}

// ---------------------------------------------------------------------------
// Receive path
// ---------------------------------------------------------------------------

#[test]
fn rx_payload_bytes_of_each_body() {
    assert_eq!(payload_bytes(&ZExtBody::Unit), Vec::<u8>::new());
    assert_eq!(payload_bytes(&ZExtBody::Z64(0x0102)), vec![2, 1, 0, 0, 0, 0, 0, 0]);
    assert_eq!(payload_bytes(&ZExtBody::ZBuf(vec![7, 8])), vec![7, 8]);
}

#[test]
fn rx_actions() {
    let probe = LoopbackPayload::new(1, 2).encode();
    let oam = Oam { id: oam_id::LBM, body: ZExtBody::ZBuf(probe.to_vec()), ext_qos: QoSType::default() };
    match oam_action_at(&oam, 0, 0) {
        OamAction::SendReply(m, priority) => {
            assert_eq!(priority, Priority::Background);
            let bytes = zbuf_bytes(m, oam_id::LBR);
            assert_eq!(bytes, probe.to_vec());
        }
        _ => panic!("expected a reply"),
    }

    let reply = Oam { id: oam_id::SLR, body: ZExtBody::ZBuf(vec![1, 2, 3]), ext_qos: QoSType::default() };
    match oam_action_at(&reply, 0, 0) {
        OamAction::ToProber(id, bytes) => {
            assert_eq!(id, oam_id::SLR);
            assert_eq!(bytes, vec![1, 2, 3]);
        }
        _ => panic!("expected a hand-over to the prober"),
    }

    let unknown = Oam { id: 0x7777, body: ZExtBody::Unit, ext_qos: QoSType::default() };
    assert!(matches!(oam_action_at(&unknown, 0, 0), OamAction::Drop));
}

// ---------------------------------------------------------------------------
// Prober
// ---------------------------------------------------------------------------

#[test]
fn prober_sends_and_matches_replies() {
    let mut prober = OamProber::new(OamConfig::default());
    let mut metrics = LinkQualityMetrics::new();

    let (msg, priority) = prober.send_loopback_at(&mut metrics, 1234, 1_000);
    assert_eq!(priority, Priority::Background);
    assert_eq!(metrics.tx_probe_count, 1);
    assert!(metrics.last_probe_sent.is_some());
    assert!(metrics.last_probe_received.is_none());
    let bytes = zbuf_bytes(msg, oam_id::LBM);
    let probe = LoopbackPayload::decode(&bytes).unwrap();
    assert_eq!(probe.seq, 0);
    assert_eq!(probe.timestamp_ns, 1234);

    // The peer echoes the payload back
    let reply = LoopbackPayload::new(probe.seq, probe.timestamp_ns).encode();
    assert!(prober.handle_reply_at(&mut metrics, oam_id::LBR, &reply, 1_000 + 7 * MS, 0));
    assert_eq!(metrics.rtt_current, 7 * MS);
    assert_eq!(metrics.rx_probe_count, 1);

    // A second reply to the same probe is not matched
    assert!(!prober.handle_reply_at(&mut metrics, oam_id::LBR, &reply, 1_000 + 8 * MS, 0));
    assert_eq!(metrics.rx_probe_count, 1);
}

#[test]
fn prober_delay_reply_sets_one_way_delays() {
    let mut prober = OamProber::new(OamConfig::default());
    let mut metrics = LinkQualityMetrics::new();
    let _ = prober.send_loopback_at(&mut metrics, 0, 0);
    let reply = DelayMeasurementPayload::new_reply(0, 100, 150, 160).encode();
    assert!(prober.handle_reply_at(&mut metrics, oam_id::DMR, &reply, 2 * MS, 200));
    assert_eq!(metrics.forward_delay, Some(50));
    assert_eq!(metrics.reverse_delay, Some(40));
    assert_eq!(metrics.rtt_current, 2 * MS);
}

#[test]
fn prober_timeouts() {
    let mut prober = OamProber::new(OamConfig::default());
    let mut metrics = LinkQualityMetrics::new();
    let _ = prober.send_loopback_at(&mut metrics, 0, 0);
    let _ = prober.send_loopback_at(&mut metrics, 0, 400 * MS);
    // At 600 ms only the first probe has waited more than 500 ms
    prober.check_timeouts_at(&mut metrics, 600 * MS);
    assert_eq!(metrics.consecutive_failures, 1);
    // The second one is still pending and can be answered
    let reply = LoopbackPayload::new(1, 0).encode();
    assert!(prober.handle_reply_at(&mut metrics, oam_id::LBR, &reply, 450 * MS, 0));
    // The first one is gone
    let reply0 = LoopbackPayload::new(0, 0).encode();
    assert!(!prober.handle_reply_at(&mut metrics, oam_id::LBR, &reply0, 700 * MS, 0));
}

#[test]
fn prober_settings() {
    let prober = OamProber::new(OamConfig::default());
    assert_eq!(prober.probe_timeout(), 500 * MS);
    assert_eq!(prober.probe_interval(), 100 * MS);
    let conf = OamConfig::from_settings(true, 250, 1000, 10, 5, false, 2000);
    assert!(conf.enabled);
    assert_eq!(conf.probe_interval, 250 * MS);
    assert_eq!(conf.probe_timeout, 1000 * MS);
    assert_eq!(conf.publish_interval, 2000 * MS);
}

#[test]
fn oam_message_builder() {
    let msg = oam_zbuf_message(oam_id::SLM, &[1, 2, 3]);
    match msg.body {
        TransportBody::OAM(oam) => {
            assert_eq!(oam.id, oam_id::SLM);
            assert_eq!(oam.ext_qos, QoSType::default());
            assert_eq!(oam.body, ZExtBody::ZBuf(vec![1, 2, 3]));
        }
    }
}

#[test]
fn config_from_settings_file() {
    let conf = OamConf {
        enabled: true,
        probe_interval_ms: 100,
        probe_timeout_ms: 500,
        sample_window: 20,
        failure_threshold: 3,
        publish_metrics: true,
        publish_interval_ms: 500,
    };
    let config = OamConfig::from(&conf);
    assert!(config.enabled);
    assert_eq!(config.probe_interval, 100 * MS);
    assert_eq!(config.probe_timeout, 500 * MS);
    assert_eq!(config.sample_window, 20);
    assert_eq!(config.failure_threshold, 3);
    assert_eq!(config.publish_interval, 500 * MS);
}

#[test]
fn random_oam_messages() {
    for _ in 0..20 {
        let oam = Oam::rand();
        if let ZExtBody::ZBuf(bytes) = &oam.body {
            assert!(bytes.len() >= 8 && bytes.len() <= 64);
        }
    }
}

#[test]
fn probe_reply_stamps_reception_and_update_together() {
    let mut metrics = LinkQualityMetrics::new();
    metrics.record_probe_sent();
    let sent = metrics.last_probe_sent;
    metrics.update_from_probe(3 * MS);
    assert_eq!(metrics.last_probe_received, Some(metrics.metrics_updated));
    assert_eq!(metrics.last_probe_sent, sent);
}
