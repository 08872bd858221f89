use zenoh_oam::modem_sdk::{
    filter_links, glob_match, healthy_state, AlertBuilder, LinkAvailableBuilder,
    LinkCapabilitiesBuilder, LinkError, LinkErrorKind, LinkEvent, LinkPropertiesBuilder,
    LinkProvider, MetricsBuilder, ModemDriver, ModemMetrics, ModemServer, RadioMetricsBuilder,
    SatelliteMetricsBuilder, StateMachine, TargetInfoBuilder,
};
use zenoh_oam::modem_types::{
    AlertData, AlertSeverity, AlertType, BandwidthMetrics, Capabilities, Heartbeat,
    LinkAvailable, LinkCapabilities, LinkQuery, LinkType, LinkUnavailable, LinkUnavailableReason,
    Message, MetricsUpdate, ModemInfo, ModemState, ModemType, PriorityRange, Reliability, Request,
    RequestData, RequestType, Response, ResponseData, ResponseStatus, TargetInfo, TargetType,
    OperatingMode,
};
use std::collections::HashMap;

#[test]
fn test_metrics_builder() {
    let metrics = MetricsBuilder::new()
        .timestamp_now()
        .seq(42)
        .signal_cdb((25.5f64 * 100.0) as i32, (-70.0f64 * 100.0) as i32, 85)
        .bandwidth(1_000_000, 500_000, 800_000)
        .build();

    assert_eq!(metrics.seq, 42);
    assert!((metrics.signal.snr_cdb as f64 / 100.0 - 25.5).abs() < 0.01);
    assert_eq!(metrics.bandwidth.tx_rate_bps, 1_000_000);
}

#[test]
fn test_satellite_metrics_builder() {
    let sat = SatelliteMetricsBuilder::new()
        .elevation_cdeg((45.5f64 * 100.0) as i16)
        .azimuth_cdeg((180.0f64 * 100.0) as u16)
        .doppler(-5000)
        .satellite_id("STARLINK-1234")
        .handover_pending(true, Some(30000))
        .build();

    assert!((sat.elevation_cdeg as f64 / 100.0 - 45.5).abs() < 0.01);
    assert!(sat.handover_pending);
    assert_eq!(sat.time_to_handover_ms, Some(30000));
}

#[test]
fn test_state_machine() {
    let mut sm = StateMachine::new(ModemState::Unknown);

    let change = sm.transition(ModemState::Initializing);
    assert!(change.is_some());
    assert_eq!(sm.current(), ModemState::Initializing);
    assert_eq!(sm.previous(), ModemState::Unknown);

    // Same state - no change
    let change = sm.transition(ModemState::Initializing);
    assert!(change.is_none());
}

#[test]
fn test_alert_builder() {
    let (snr_db, trend_db_per_sec) = (15.0f64, -0.5f64);
    let alert = AlertBuilder::signal_degrading_cdb((snr_db * 100.0) as i32, (trend_db_per_sec * 100.0) as i32)
        .message(&format!("Signal degrading: SNR={:.1}dB, trend={:.2}dB/s", snr_db, trend_db_per_sec))
        .alert_id(1)
        .severity(AlertSeverity::Critical)
        .ttl(60000)
        .build();

    assert_eq!(alert.alert_type, AlertType::SignalDegrading);
    assert_eq!(alert.severity, AlertSeverity::Critical);
    assert!(alert.message.contains("15.0"));
}

#[test]
fn test_response_helpers() {
    let success = Response::success(1);
    assert_eq!(success.status, ResponseStatus::Success);

    let failed = Response::failed(2, "Something went wrong");
    assert_eq!(failed.status, ResponseStatus::Failed);
    assert!(failed.error_message.unwrap().contains("wrong"));
}

#[test]
fn test_link_capabilities_builder() {
    let caps = LinkCapabilitiesBuilder::new("/run/zenoh/modem/radio0")
        .mtu_range(64, 1400)
        .with_priorities(0, 7)
        .with_express(2)
        .max_targets(32)
        .with_broadcast(1200, 16, false)
        .build();

    assert_eq!(caps.socket_base_path, "/run/zenoh/modem/radio0");
    assert_eq!(caps.unicast.min_mtu, 64);
    assert_eq!(caps.unicast.max_mtu, 1400);
    assert!(caps.unicast.supports_priorities);
    assert_eq!(caps.unicast.priority_range.as_ref().unwrap().max, 7);
    assert!(caps.unicast.supports_express);
    assert_eq!(caps.unicast.express_priority_threshold, Some(2));
    assert_eq!(caps.unicast.max_targets, 32);
    assert!(caps.broadcast.is_some());
    assert_eq!(caps.broadcast.as_ref().unwrap().max_recipients, 16);
}

#[test]
fn test_link_properties_builder() {
    let props = LinkPropertiesBuilder::new(1400)
        .bandwidth(9600)
        .latency_us((250.0f64 * 1000.0) as u32)
        .reliability(Reliability::Reliable)
        .with_priorities(0, 7)
        .with_express()
        .build();

    assert_eq!(props.mtu, 1400);
    assert_eq!(props.bandwidth_bps, 9600);
    assert_eq!(props.latency_us, 250_000);
    assert!(props.express_available);
    assert!((props.latency_us as f64 / 1000.0 - 250.0).abs() < 0.01);
}

#[test]
fn test_target_info_builder() {
    let target = TargetInfoBuilder::new("node1")
        .target_type(TargetType::Gateway)
        .name("Gateway Node 1")
        .address("192.168.1.1")
        .build();

    assert_eq!(target.target_id, "node1");
    assert_eq!(target.target_type, TargetType::Gateway);
    assert_eq!(target.name, Some("Gateway Node 1".into()));
    assert_eq!(target.address, Some("192.168.1.1".into()));
}

#[test]
fn test_link_available_builder() {
    let target = TargetInfoBuilder::new("node1").build();

    let link = LinkAvailableBuilder::new("link-001", target)
        .unix_socket("/run/zenoh/modem/radio0/targets/node1.sock")
        .link_type(LinkType::Unicast)
        .properties(LinkPropertiesBuilder::new(1400).bandwidth(9600).latency_us((250.0f64 * 1000.0) as u32).build())
        .build();

    assert_eq!(link.link_id, "link-001");
    assert_eq!(link.locator, "unixpipe//run/zenoh/modem/radio0/targets/node1.sock");
    assert_eq!(link.properties.mtu, 1400);
}

#[test]
fn test_link_available_with_metadata() {
    let target = TargetInfoBuilder::new("node1").build();
    let prio = PriorityRange { min: 0, max: 7 };
    let express = PriorityRange { min: 0, max: 2 };

    let link = LinkAvailableBuilder::new("link-001", target)
        .unix_socket_with_metadata(
            "/run/zenoh/modem/radio0/targets/node1.sock",
            Some(Reliability::Reliable),
            Some(&prio),
            Some(&express),
        )
        .build();

    assert!(link.locator.contains("rel=reliable"));
    assert!(link.locator.contains("prio=0-7"));
    assert!(link.locator.contains("express=0-2"));
}

#[test]
fn locator_metadata_exact_text() {
    let b = || LinkAvailableBuilder::new("l", TargetInfoBuilder::new("t").build());
    let full = b()
        .unix_socket_with_metadata(
            "/s.sock",
            Some(Reliability::BestEffort),
            Some(&PriorityRange { min: 1, max: 12 }),
            Some(&PriorityRange { min: 0, max: 250 }),
        )
        .build();
    assert_eq!(full.locator, "unixpipe//s.sock?rel=best_effort&prio=1-12&express=0-250");

    let none = b().unix_socket_with_metadata("/s.sock", None, None, None).build();
    assert_eq!(none.locator, "unixpipe//s.sock");

    let only_express =
        b().unix_socket_with_metadata("/s.sock", None, None, Some(&PriorityRange { min: 3, max: 4 })).build();
    assert_eq!(only_express.locator, "unixpipe//s.sock?express=3-4");
}

#[test]
fn test_link_error() {
    let err = LinkError::target_unreachable("Target went out of range");
    assert_eq!(err.kind, LinkErrorKind::TargetUnreachable);
    assert!(err.message.contains("out of range"));

    let err2 = LinkError::socket_error("Failed to bind");
    assert_eq!(err2.kind, LinkErrorKind::SocketError);
}

#[test]
fn link_error_kinds() {
    assert_eq!(LinkError::resource_exhausted("x").kind, LinkErrorKind::ResourceExhausted);
    assert_eq!(LinkError::not_found("x").kind, LinkErrorKind::NotFound);
    assert_eq!(LinkError::new(LinkErrorKind::Internal, "boom").message, "boom");
}

#[test]
fn test_glob_match() {
    assert!(glob_match("*", "anything"));
    assert!(glob_match("node*", "node1"));
    assert!(glob_match("node*", "node123"));
    assert!(!glob_match("node*", "gateway1"));
    assert!(glob_match("*way", "gateway"));
    assert!(!glob_match("*way", "gateway1"));
    assert!(glob_match("node1", "node1"));
    assert!(!glob_match("node1", "node2"));
}

#[test]
fn glob_match_edges() {
    assert!(glob_match("*", ""));
    assert!(glob_match("node*", "node"));
    assert!(!glob_match("node*", "nod"));
    assert!(glob_match("", ""));
    assert!(!glob_match("", "x"));
    assert!(glob_match("*", "*"));
    assert!(glob_match("**", "*x"));
}

#[test]
fn test_link_event() {
    let target = TargetInfoBuilder::new("node1").build();
    let link = LinkAvailable::new("link-001", "unixpipe//test.sock", target);

    let event = LinkEvent::Available(link.clone());
    match event {
        LinkEvent::Available(l) => assert_eq!(l.link_id, "link-001"),
        _ => panic!("wrong event type"),
    }

    let unavail = LinkUnavailable::new("link-001", LinkUnavailableReason::TargetUnreachable);
    let event2 = LinkEvent::Unavailable(unavail);
    match event2 {
        LinkEvent::Unavailable(u) => assert_eq!(u.reason, LinkUnavailableReason::TargetUnreachable),
        _ => panic!("wrong event type"),
    }
}

#[test]
fn state_transition_rules() {
    assert!(StateMachine::is_valid_transition(ModemState::Connected, ModemState::Error));
    assert!(StateMachine::is_valid_transition(ModemState::Error, ModemState::Disconnected));
    assert!(StateMachine::is_valid_transition(ModemState::Error, ModemState::Initializing));
    assert!(!StateMachine::is_valid_transition(ModemState::Error, ModemState::Connected));
    assert!(!StateMachine::is_valid_transition(ModemState::Error, ModemState::Maintenance));
    assert!(StateMachine::is_valid_transition(ModemState::Unknown, ModemState::Initializing));
    assert!(StateMachine::is_valid_transition(ModemState::HandoverInProgress, ModemState::Synchronizing));
    assert!(StateMachine::is_valid_transition(ModemState::Searching, ModemState::Maintenance));
    assert!(StateMachine::is_valid_transition(ModemState::Maintenance, ModemState::Initializing));
    assert!(!StateMachine::is_valid_transition(ModemState::Unknown, ModemState::Connected));
    assert!(!StateMachine::is_valid_transition(ModemState::Standby, ModemState::Connected));
    let sm = StateMachine::default();
    assert_eq!(sm.current(), ModemState::Unknown);
    assert_eq!(sm.previous(), ModemState::Unknown);
}

#[test]
fn state_change_reports_both_states() {
    let mut sm = StateMachine::new(ModemState::Connected);
    let c = sm.transition(ModemState::Degraded).unwrap();
    assert_eq!(c.previous_state, ModemState::Connected);
    assert_eq!(c.current_state, ModemState::Degraded);
    assert!(c.reason.is_none());
    assert_eq!(sm.previous(), ModemState::Connected);
    let _ = sm.time_in_state();
}

#[test]
fn alert_messages() {
    let a = AlertBuilder::handover_imminent(5000, 500).build();
    assert_eq!(a.message, "Handover imminent: duration=5000ms, expected outage=500ms");
    assert_eq!(a.alert_type, AlertType::HandoverImminent);
    assert_eq!(a.severity, AlertSeverity::Warning);

    let b = AlertBuilder::bandwidth_reduction(9600, 0, "rain fade").build();
    assert_eq!(b.message, "Bandwidth reduction: 9600 -> 0 bps (rain fade)");
    match b.data {
        AlertData::BandwidthReduction { current_bps, expected_bps, reason, duration_ms } => {
            assert_eq!((current_bps, expected_bps), (9600, 0));
            assert_eq!(reason, "rain fade");
            assert!(duration_ms.is_none());
        }
        _ => panic!("wrong alert data"),
    }

    let c = AlertBuilder::new(AlertType::Custom, AlertSeverity::Info).build();
    assert_eq!(c.alert_id, 0);
    assert!(c.message.is_empty());
    assert!(c.ttl_ms.is_none());
}

#[test]
fn response_helper_messages() {
    let ns = Response::not_supported(3);
    assert_eq!(ns.status, ResponseStatus::NotSupported);
    assert_eq!(ns.error_message.as_deref(), Some("Operation not supported"));
    let busy = Response::busy(4);
    assert_eq!(busy.status, ResponseStatus::Busy);
    assert_eq!(busy.error_message.as_deref(), Some("Modem is busy"));
    let with = Response::success_with_data(5, ResponseData::ModeSet { applied_mode: OperatingMode::Reliable, effective_until_ns: None });
    assert_eq!(with.request_id, 5);
    assert!(with.data.is_some());
}

#[test]
fn other_builders() {
    let radio = RadioMetricsBuilder::new()
        .tx_power_cdbm(2000)
        .frequency(30_000_000)
        .bandwidth(25_000)
        .modulation("QPSK")
        .fec_rate("1/2")
        .hopping(true)
        .crypto(true)
        .build();
    assert_eq!(radio.tx_power_cdbm, 2000);
    assert_eq!(radio.frequency_hz, 30_000_000);
    assert_eq!(radio.modulation, "QPSK");
    assert_eq!(radio.fec_rate, "1/2");
    assert!(radio.hopping && radio.crypto_active);

    let m = MetricsBuilder::new().timestamp(77).errors_ppm(6, 10000, 5000).radio(radio).build();
    assert_eq!(m.timestamp_ns, 77);
    assert_eq!(m.errors.per_ppm, 10000);
    assert_eq!(m.errors.fer_ppm, 5000);
    assert!(m.radio.is_some());

    let caps = LinkCapabilitiesBuilder::new("/x")
        .with_multicast(1000, 4, 8)
        .max_pending_bytes(1)
        .default_reliability(Reliability::BestEffort)
        .build();
    assert_eq!(caps.multicast.as_ref().unwrap().max_members_per_group, 8);
    assert_eq!(caps.unicast.max_pending_bytes, 1);
    assert_eq!(caps.unicast.default_reliability, Reliability::BestEffort);
    assert_eq!(caps.unicast.min_mtu, 64);
    assert_eq!(caps.unicast.max_targets, 16);
}

// ---------------------------------------------------------------------------
// Driver, server and link queries
// ---------------------------------------------------------------------------

struct TestDriver {
    state: ModemState,
    links: Vec<LinkAvailable>,
}

fn blank_info() -> ModemInfo {
    ModemInfo {
        modem_id: "radio0".into(),
        modem_type: ModemType::RadioTactical,
        model: "test".into(),
        firmware_version: "1.0".into(),
        serial_number: None,
        capabilities: Capabilities {
            supports_reliable_mode: true,
            supports_throughput_mode: false,
            supports_power_control: false,
            supports_frequency_hop: false,
            supports_encryption: false,
            max_bandwidth_bps: 9600,
            min_bandwidth_bps: 300,
            metrics_interval_ms: 500,
            custom_capabilities: HashMap::new(),
        },
        link_capabilities: None,
        initial_state: ModemState::Unknown,
        initial_metrics: MetricsUpdate::new(0),
    }
}

impl ModemDriver for TestDriver {
    fn info(&self) -> ModemInfo {
        blank_info()
    }

    fn poll_metrics(&self) -> ModemMetrics {
        MetricsBuilder::new().seq(11).bandwidth(1, 2, 3).build()
    }

    fn state(&self) -> ModemState {
        self.state
    }
}

impl LinkProvider for TestDriver {
    fn link_capabilities(&self) -> LinkCapabilities {
        LinkCapabilitiesBuilder::new("/run/zenoh/modem/test").build()
    }

    fn active_links(&self) -> Vec<LinkAvailable> {
        self.links.clone()
    }

    fn create_link(&self, target: &TargetInfo) -> Result<LinkAvailable, LinkError> {
        Ok(LinkAvailable::new("new", "unixpipe//new.sock", target.clone()))
    }

    fn close_link(&self, _link_id: &str) -> Result<(), LinkError> {
        Err(LinkError::not_found("no such link"))
    }
}

fn link(id: &str, target: &str, t: LinkType) -> LinkAvailable {
    LinkAvailable::new(id, "unixpipe//x.sock", TargetInfoBuilder::new(target).build()).with_link_type(t)
}

fn driver() -> TestDriver {
    TestDriver {
        state: ModemState::Connected,
        links: vec![
            link("a", "node1", LinkType::Unicast),
            link("b", "gateway1", LinkType::Unicast),
            link("c", "node2", LinkType::Broadcast),
            link("d", "node3", LinkType::Unicast),
        ],
    }
}

#[test]
fn link_query_filters() {
    let d = driver();
    let all = d.handle_link_query(LinkQuery::new(1));
    assert_eq!(all.query_id, 1);
    assert_eq!(all.links.len(), 4);

    let nodes = d.handle_link_query(LinkQuery::new(2).with_target_filter("node*"));
    let ids: Vec<&str> = nodes.links.iter().map(|l| l.link_id.as_str()).collect();
    assert_eq!(ids, vec!["a", "c", "d"]);

    let unicast_nodes =
        d.handle_link_query(LinkQuery::new(3).with_link_type(LinkType::Unicast).with_target_filter("node*"));
    let ids: Vec<&str> = unicast_nodes.links.iter().map(|l| l.link_id.as_str()).collect();
    assert_eq!(ids, vec!["a", "d"]);

    let kept = filter_links(d.active_links(), &LinkQuery::new(4).with_link_type(LinkType::Broadcast));
    assert_eq!(kept.len(), 1);
    assert_eq!(kept[0].link_id, "c");
}

#[test]
fn driver_defaults() {
    let d = driver();
    assert!(d.is_healthy());
    assert_eq!(d.available_bandwidth().available_bps, 3);
    let down = TestDriver { state: ModemState::Disconnected, links: vec![] };
    assert!(!down.is_healthy());
    assert!(healthy_state(ModemState::Degraded));
    assert!(!healthy_state(ModemState::Error));
    let _: BandwidthMetrics = down.available_bandwidth();
}

#[test]
fn server_settings() {
    let server = ModemServer::builder(driver()).build();
    assert_eq!(server.socket_path(), "/run/zenoh/modem.sock");
    assert_eq!(server.metrics_interval_ns(), 500_000_000);
    assert_eq!(server.heartbeat_interval_ns(), 5_000_000_000);

    let server = ModemServer::builder(driver())
        .socket_path("/tmp/m.sock")
        .metrics_interval(1_000)
        .heartbeat_interval(2_000)
        .build();
    assert_eq!(server.socket_path(), "/tmp/m.sock");
    assert_eq!(server.metrics_interval_ns(), 1_000);
    assert_eq!(server.heartbeat_interval_ns(), 2_000);
    assert_eq!(server.driver().state(), ModemState::Connected);
}

#[test]
fn server_answers_messages() {
    let d = driver();
    match ModemServer::handle_message(&d, Message::Heartbeat(Heartbeat::request(8))) {
        Some(Message::Heartbeat(hb)) => {
            assert_eq!(hb.seq, 8);
            assert!(!hb.echo);
        }
        _ => panic!("expected a heartbeat echo"),
    }
    assert!(ModemServer::handle_message(&d, Message::Heartbeat(Heartbeat::response(8))).is_none());

    let req = Request { request_id: 5, request_type: RequestType::GetState, data: RequestData::GetState {} };
    match ModemServer::handle_message(&d, Message::Request(req)) {
        Some(Message::Response(resp)) => {
            assert_eq!(resp.request_id, 5);
            assert_eq!(resp.status, ResponseStatus::Success);
            match resp.data {
                Some(ResponseData::State(c)) => {
                    assert_eq!(c.current_state, ModemState::Connected);
                    assert_eq!(c.previous_state, ModemState::Connected);
                }
                _ => panic!("expected a state report"),
            }
        }
        _ => panic!("expected a response"),
    }

    let metrics_req = Request { request_id: 6, request_type: RequestType::GetMetrics, data: RequestData::GetMetrics {} };
    let resp = ModemServer::handle_request(&d, metrics_req);
    match resp.data {
        Some(ResponseData::Metrics(m)) => assert_eq!(m.seq, 11),
        _ => panic!("expected metrics"),
    }

    let info_req = Request { request_id: 7, request_type: RequestType::GetInfo, data: RequestData::GetInfo {} };
    match ModemServer::handle_request(&d, info_req).data {
        Some(ResponseData::Info(i)) => assert_eq!(i.modem_id, "radio0"),
        _ => panic!("expected info"),
    }

    let mode_req = Request {
        request_id: 9,
        request_type: RequestType::SetMode,
        data: RequestData::SetMode { mode: OperatingMode::LowPower, duration_ms: None },
    };
    let resp = ModemServer::handle_request(&d, mode_req);
    assert_eq!(resp.request_id, 9);
    assert_eq!(resp.status, ResponseStatus::NotSupported);

    assert!(ModemServer::handle_message(&d, Message::LinkQuery(LinkQuery::new(1))).is_none());
}

#[test]
fn state_change_callback() {
    let calls = std::cell::RefCell::new(Vec::new());
    let record = |previous: ModemState, current: ModemState| calls.borrow_mut().push((previous, current));
    let mut sm = StateMachine::new(ModemState::Unknown);

    assert!(sm.transition_with(ModemState::Initializing, &record).is_some());
    assert!(sm.transition_with(ModemState::Initializing, &record).is_none());
    assert!(sm.transition_with(ModemState::Searching, &record).is_some());

    assert_eq!(
        *calls.borrow(),
        vec![
            (ModemState::Unknown, ModemState::Initializing),
            (ModemState::Initializing, ModemState::Searching),
        ]
    );
}
