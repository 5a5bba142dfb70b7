use device_monitor::device::DeviceIdentity;
use device_monitor::notification::{Notification, Payload, PayloadField, PayloadValue};
use device_monitor::presence::{
    plan_startup, plan_tick, snapshot_has, MonitorAction, PresenceMonitor, LISTENER_TEST_DELAY_MS,
    POLL_INTERVAL_MS, RESCAN_DELAY_MS, SETTLE_DELAY_MS, SHORT_ID_CHARS,
    WORKER_SHUTDOWN_TIMEOUT_SECS,
};

fn device(id: &str) -> DeviceIdentity {
    DeviceIdentity {
        unique_id: id.to_string(),
        vendor_id: 0x2b24,
        product_id: 0x0002,
        manufacturer: Some("KeyHodlers, LLC".to_string()),
        product: Some("KeepKey".to_string()),
    }
}

fn status(text: &str) -> MonitorAction {
    MonitorAction::Emit { event: Notification::StatusUpdate { status: text.to_string() } }
}

fn arrival(id: &str, shown: &str) -> Vec<MonitorAction> {
    vec![
        MonitorAction::Emit { event: Notification::DeviceConnected { device: device(id) } },
        status(&format!("Device found {}", shown)),
        MonitorAction::Resolve { device: device(id) },
    ]
}

fn departure(id: &str) -> Vec<MonitorAction> {
    vec![
        status("Device disconnected"),
        MonitorAction::Emit { event: Notification::DeviceDisconnected { device_id: id.to_string() } },
        MonitorAction::ReleaseWorker { device_id: id.to_string(), timeout_secs: 5 },
    ]
}

fn connects_for(actions: &[MonitorAction], id: &str) -> usize {
    actions
        .iter()
        .filter(|a| {
            matches!(a, MonitorAction::Emit { event: Notification::DeviceConnected { device } }
                if device.unique_id == id)
        })
        .count()
}

fn disconnects_for(actions: &[MonitorAction], id: &str) -> usize {
    actions
        .iter()
        .filter(|a| {
            matches!(a, MonitorAction::Emit { event: Notification::DeviceDisconnected { device_id } }
                if device_id == id)
        })
        .count()
}

fn releases_for(actions: &[MonitorAction], id: &str) -> usize {
    actions
        .iter()
        .filter(|a| {
            matches!(a, MonitorAction::ReleaseWorker { device_id, timeout_secs }
                if device_id == id && *timeout_secs == 5)
        })
        .count()
}

fn resolutions_for(actions: &[MonitorAction], id: &str) -> usize {
    actions
        .iter()
        .filter(|a| matches!(a, MonitorAction::Resolve { device } if device.unique_id == id))
        .count()
}

#[test]
fn diff_reports_one_connect_and_one_disconnect() {
    let previous = vec![device("A"), device("B")];
    let current = vec![device("B"), device("C")];
    let actions = plan_tick(&previous, &current);
    let mut expected = arrival("C", "C");
    expected.extend(departure("A"));
    assert_eq!(actions, expected);
    assert_eq!(connects_for(&actions, "C"), 1);
    assert_eq!(disconnects_for(&actions, "A"), 1);
    assert_eq!(connects_for(&actions, "B"), 0);
    assert_eq!(disconnects_for(&actions, "B"), 0);
    assert_eq!(connects_for(&actions, "A"), 0);
    assert_eq!(disconnects_for(&actions, "C"), 0);
}

#[test]
fn disconnect_event_of_a_poll_names_the_vanished_device() {
    let previous = vec![device("A"), device("B")];
    let current = vec![device("B"), device("C")];
    let payloads: Vec<Payload> = plan_tick(&previous, &current)
        .iter()
        .filter_map(|a| match a {
            MonitorAction::Emit { event } if event.event_name() == "device:disconnected" => {
                Some(event.payload())
            }
            _ => None,
        })
        .collect();
    assert_eq!(
        payloads,
        vec![Payload::Fields {
            fields: vec![PayloadField {
                key: "deviceId".to_string(),
                value: PayloadValue::Text { text: "A".to_string() },
            }],
        }]
    );
}

#[test]
fn vanished_device_has_its_worker_released_once() {
    let previous = vec![device("A"), device("B")];
    let current = vec![device("B")];
    let actions = plan_tick(&previous, &current);
    assert_eq!(releases_for(&actions, "A"), 1);
    assert_eq!(releases_for(&actions, "B"), 0);
    assert_eq!(actions, departure("A"));
}

#[test]
fn new_device_has_one_resolution_started() {
    let previous = vec![device("A")];
    let current = vec![device("A"), device("B")];
    let actions = plan_tick(&previous, &current);
    assert_eq!(resolutions_for(&actions, "B"), 1);
    assert_eq!(resolutions_for(&actions, "A"), 0);
}

#[test]
fn unchanged_snapshot_causes_nothing() {
    let previous = vec![device("A"), device("B")];
    let current = vec![device("B"), device("A")];
    assert_eq!(plan_tick(&previous, &current), vec![]);
}

#[test]
fn empty_snapshots_cause_nothing() {
    assert_eq!(plan_tick(&vec![], &vec![]), vec![]);
}

#[test]
fn first_poll_announces_every_device_in_order() {
    let current = vec![device("first"), device("second")];
    let mut expected = arrival("first", "first");
    expected.extend(arrival("second", "second"));
    assert_eq!(plan_tick(&vec![], &current), expected);
}

#[test]
fn arrivals_stand_before_departures() {
    let previous = vec![device("old")];
    let current = vec![device("new")];
    let mut expected = arrival("new", "new");
    expected.extend(departure("old"));
    assert_eq!(plan_tick(&previous, &current), expected);
}

#[test]
fn last_device_leaving_returns_to_scanning_after_a_delay() {
    let previous = vec![device("A")];
    let mut expected = departure("A");
    expected.push(MonitorAction::EmitLater {
        delay_ms: 1000,
        event: Notification::StatusUpdate { status: "Scanning for devices…".to_string() },
    });
    assert_eq!(plan_tick(&previous, &vec![]), expected);
}

#[test]
fn leaving_with_devices_left_does_not_return_to_scanning() {
    let previous = vec![device("A"), device("B")];
    let current = vec![device("B")];
    let actions = plan_tick(&previous, &current);
    assert!(!actions.iter().any(|a| matches!(a, MonitorAction::EmitLater { .. })));
}

#[test]
fn device_found_shows_the_last_eight_characters() {
    let actions = plan_tick(&vec![], &vec![device("343737340F4736331F003B00")]);
    assert_eq!(actions, arrival("343737340F4736331F003B00", "1F003B00"));
}

#[test]
fn device_found_shows_a_short_identifier_whole() {
    assert_eq!(plan_tick(&vec![], &vec![device("12345678")]), arrival("12345678", "12345678"));
    assert_eq!(plan_tick(&vec![], &vec![device("1234567")]), arrival("1234567", "1234567"));
    assert_eq!(plan_tick(&vec![], &vec![device("")]), arrival("", ""));
}

#[test]
fn device_found_counts_characters_not_bytes() {
    assert_eq!(plan_tick(&vec![], &vec![device("abcé1234567")]), arrival("abcé1234567", "é1234567"));
}

#[test]
fn devices_are_compared_by_identifier_alone() {
    let mut renamed = device("A");
    renamed.product = Some("Other".to_string());
    renamed.vendor_id = 1;
    assert_eq!(plan_tick(&vec![device("A")], &vec![renamed]), vec![]);
}

#[test]
fn identifier_listed_twice_is_announced_twice() {
    let current = vec![device("A"), device("A")];
    let actions = plan_tick(&vec![], &current);
    assert_eq!(connects_for(&actions, "A"), 2);
    let back = plan_tick(&current, &vec![device("B")]);
    assert_eq!(disconnects_for(&back, "A"), 2);
    assert_eq!(releases_for(&back, "A"), 2);
}

#[test]
fn snapshot_lookup_goes_by_identifier() {
    let snapshot = vec![device("A"), device("B")];
    assert!(snapshot_has(&snapshot, &"B".to_string()));
    assert!(!snapshot_has(&snapshot, &"C".to_string()));
    assert!(!snapshot_has(&vec![], &"A".to_string()));
}

#[test]
fn same_device_goes_by_identifier() {
    let mut other = device("A");
    other.manufacturer = None;
    assert!(device("A").same_device(&other));
    assert!(!device("A").same_device(&device("B")));
}

#[test]
fn monitor_compares_each_poll_with_the_one_before() {
    let mut monitor = PresenceMonitor::new();
    assert!(monitor.previous().is_empty());
    assert_eq!(monitor.tick(vec![device("A")]), arrival("A", "A"));
    assert_eq!(monitor.previous(), &vec![device("A")]);
    assert_eq!(monitor.tick(vec![device("A")]), vec![]);
    let mut expected = arrival("B", "B");
    expected.extend(departure("A"));
    assert_eq!(monitor.tick(vec![device("B")]), expected);
    let mut gone = departure("B");
    gone.push(MonitorAction::EmitLater {
        delay_ms: RESCAN_DELAY_MS,
        event: Notification::StatusUpdate { status: "Scanning for devices…".to_string() },
    });
    assert_eq!(monitor.tick(vec![]), gone);
    assert_eq!(monitor.tick(vec![]), vec![]);
}

#[test]
fn startup_waits_then_reports_scanning() {
    assert_eq!(
        plan_startup(),
        vec![
            MonitorAction::Pause { millis: 500 },
            status("Scanning for devices…"),
            MonitorAction::EmitLater {
                delay_ms: 3000,
                event: Notification::StatusUpdate {
                    status: "Test message after 3 seconds".to_string()
                },
            },
        ]
    );
}

#[test]
fn cadence_constants() {
    assert_eq!(POLL_INTERVAL_MS, 1000);
    assert_eq!(SETTLE_DELAY_MS, 500);
    assert_eq!(LISTENER_TEST_DELAY_MS, 3000);
    assert_eq!(RESCAN_DELAY_MS, 1000);
    assert_eq!(SHORT_ID_CHARS, 8);
    assert_eq!(WORKER_SHUTDOWN_TIMEOUT_SECS, 5);
}
