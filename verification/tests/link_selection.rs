use zenoh_oam::link_control::LinkOverrides;
use zenoh_oam::link_selection::{select, select_with_overrides, LinkCandidate, LinkProfile};
use zenoh_oam::protocol_core::{Locator, Priority, PriorityRange, Reliability, ZenohIdProto};
use zenoh_oam::transport_decisions::{
    link_reliability, plan_fragment, push_outcome, rx_channel, scheduled_link, FragmentPlan,
    PushOutcome,
};

fn priority_range(start: u8, end: u8) -> PriorityRange {
    PriorityRange::new(Priority::try_from_u8(start).unwrap(), Priority::try_from_u8(end).unwrap())
}

fn peer() -> ZenohIdProto {
    ZenohIdProto::try_from_bytes(&[7u8; 16]).unwrap()
}

/// Tests the "full match" scenario with exactly one candidate.
#[test]
fn test_link_selection_scenario_1() {
    let elements: [LinkProfile; 3] = [
        (Reliability::Reliable, Some(priority_range(0, 1))),
        (Reliability::Reliable, Some(priority_range(1, 2))),
        (Reliability::BestEffort, Some(priority_range(0, 1))),
    ];
    let selection = select(&elements, Reliability::Reliable, Priority::try_from_u8(0).unwrap());
    assert_eq!(selection, Some(0));
}

/// Tests the "full match" scenario with multiple candidates.
#[test]
fn test_link_selection_scenario_2() {
    let elements: [LinkProfile; 2] = [
        (Reliability::Reliable, Some(priority_range(0, 2))),
        (Reliability::Reliable, Some(priority_range(0, 1))),
    ];
    let selection = select(&elements, Reliability::Reliable, Priority::try_from_u8(0).unwrap());
    assert_eq!(selection, Some(1));
}

/// Tests the "partial match" scenario.
#[test]
fn test_link_selection_scenario_3() {
    let elements: [LinkProfile; 2] = [
        (Reliability::BestEffort, Some(priority_range(0, 1))),
        (Reliability::Reliable, None),
    ];
    let selection = select(&elements, Reliability::Reliable, Priority::try_from_u8(0).unwrap());
    assert_eq!(selection, Some(1));
}

/// Tests the "any match" scenario.
#[test]
fn test_link_selection_scenario_4() {
    let elements: [LinkProfile; 1] = [(Reliability::BestEffort, None)];
    let selection = select(&elements, Reliability::Reliable, Priority::try_from_u8(0).unwrap());
    assert_eq!(selection, Some(0));
}

#[test]
fn selection_of_nothing() {
    let elements: [LinkProfile; 0] = [];
    assert_eq!(select(&elements, Reliability::Reliable, Priority::Data), None);
}

#[test]
fn equal_ranges_keep_the_first() {
    let elements: [LinkProfile; 2] = [
        (Reliability::Reliable, Some(priority_range(4, 6))),
        (Reliability::Reliable, Some(priority_range(3, 5))),
    ];
    assert_eq!(select(&elements, Reliability::Reliable, Priority::Data), Some(0));
}

fn candidates() -> Vec<LinkCandidate> {
    vec![
        (Reliability::Reliable, None, Locator::new("tcp/10.0.0.1:7447")),
        (Reliability::Reliable, Some(priority_range(0, 7)), Locator::new("udp/10.0.0.2:7447")),
        (Reliability::BestEffort, None, Locator::new("serial//dev/ttyUSB0")),
    ]
}

#[test]
fn overrides_forced_and_disabled() {
    let links = candidates();
    let mut overrides = LinkOverrides::new();
    // Without overrides: the full match
    assert_eq!(select_with_overrides(&links, Reliability::Reliable, Priority::Data, &peer(), &overrides), Some(1));

    // Disabled links are skipped, indices stay those of the full list
    overrides.disable_link(Locator::new("udp/10.0.0.2:7447"));
    assert_eq!(select_with_overrides(&links, Reliability::Reliable, Priority::Data, &peer(), &overrides), Some(0));

    // A forced link wins
    overrides.set_forced_link(peer(), Locator::new("serial//dev/ttyUSB0"));
    assert_eq!(select_with_overrides(&links, Reliability::Reliable, Priority::Data, &peer(), &overrides), Some(2));

    // A forced link that is disabled gives nothing
    overrides.disable_link(Locator::new("serial//dev/ttyUSB0"));
    assert_eq!(select_with_overrides(&links, Reliability::Reliable, Priority::Data, &peer(), &overrides), None);
}

#[test]
fn forced_link_absent_gives_nothing() {
    let links = candidates();
    let mut overrides = LinkOverrides::new();
    overrides.set_forced_link(peer(), Locator::new("tcp/192.0.2.1:1"));
    assert_eq!(select_with_overrides(&links, Reliability::Reliable, Priority::Data, &peer(), &overrides), None);
}

#[test]
fn all_disabled_gives_nothing() {
    let links = candidates();
    let mut overrides = LinkOverrides::new();
    for (_, _, l) in &links {
        overrides.disable_link(l.clone());
    }
    assert_eq!(select_with_overrides(&links, Reliability::BestEffort, Priority::Data, &peer(), &overrides), None);
}

#[test]
fn scheduling_decisions() {
    let links = candidates();
    let overrides = LinkOverrides::new();
    assert_eq!(scheduled_link(&links, false, Priority::Data, &peer(), &overrides), Some(2));
    assert_eq!(scheduled_link(&links, true, Priority::Data, &peer(), &overrides), Some(1));

    assert_eq!(link_reliability(Some(Reliability::BestEffort), true), Reliability::BestEffort);
    assert_eq!(link_reliability(None, true), Reliability::Reliable);
    assert_eq!(link_reliability(None, false), Reliability::BestEffort);

    assert_eq!(push_outcome(true, false), PushOutcome::Sent);
    assert_eq!(push_outcome(false, true), PushOutcome::Dropped);
    assert_eq!(push_outcome(false, false), PushOutcome::CloseTransport);
}

#[test]
fn receive_channels() {
    assert_eq!(rx_channel(true, Priority::Control), Some(0));
    assert_eq!(rx_channel(true, Priority::Background), Some(7));
    assert_eq!(rx_channel(false, Priority::Data), Some(0));
    assert_eq!(rx_channel(false, Priority::RealTime), None);
}

#[test]
fn fragment_plans() {
    // Without markers, every fragment is appended; an empty buffer is synced
    assert_eq!(plan_fragment(false, false, false, true), FragmentPlan { clear: false, accept: true, sync: true });
    assert_eq!(plan_fragment(false, true, true, false), FragmentPlan { clear: false, accept: true, sync: false });
    // A first fragment restarts the buffer
    assert_eq!(plan_fragment(true, true, false, false), FragmentPlan { clear: true, accept: true, sync: true });
    // A continuation without a start is dropped
    assert_eq!(plan_fragment(true, false, false, true), FragmentPlan { clear: false, accept: false, sync: false });
    // A drop marker empties the buffer
    assert_eq!(plan_fragment(true, false, true, false), FragmentPlan { clear: true, accept: false, sync: false });
    // A continuation is appended
    assert_eq!(plan_fragment(true, false, false, false), FragmentPlan { clear: false, accept: true, sync: false });
}

#[test]
fn priority_ranges() {
    let r = priority_range(2, 5);
    assert!(r.contains(Priority::InteractiveHigh));
    assert!(r.contains(Priority::Data));
    assert!(!r.contains(Priority::DataLow));
    assert_eq!(r.len(), 4);
    assert_eq!(Priority::try_from_u8(8), None);
    assert_eq!(Priority::default_priority(), Priority::Data);
    assert_eq!(Reliability::from_is_reliable(false), Reliability::BestEffort);
}
