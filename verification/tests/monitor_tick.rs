use container_monitor::health::{ContainerStatus, RunState};
use container_monitor::monitor::{ContainerRecord, Monitor, MonitorEvent, NextPoll, POLL_PERIOD_MS};
use container_monitor::{AlertMessage, AppContainer, Runnable};

const MINUTE: u64 = 60_000;

fn record(id: &str, name: &str, state: RunState) -> ContainerRecord {
    ContainerRecord { id: Some(id.to_string()), names: Some(vec![name.to_string()]), state }
}

fn tick(monitor: &mut Monitor, shared: &mut AppContainer, records: Vec<ContainerRecord>, now: u64) {
    let event = MonitorEvent { snapshot: Some(records), now, wall_clock: now };
    monitor.run(shared, event);
}

fn drain(shared: &mut AppContainer) -> Vec<AlertMessage> {
    shared.alert_queue.drain_all().into_iter().collect()
}

fn health_alert(id: &str, message: &str, now: u64, chat: &str) -> AlertMessage {
    AlertMessage {
        container_id: id.to_string(),
        message: message.to_string(),
        timestamp: now,
        chat_id: Some(chat.to_string()),
    }
}

#[test]
fn monitor_sends_to_the_admin_chat_in_decimal() {
    assert_eq!(Monitor::new(42).chat_id, "42");
    assert_eq!(Monitor::new(0).chat_id, "0");
    assert_eq!(Monitor::new(-1001).chat_id, "-1001");
    assert_eq!(Monitor::new(i32::MIN).chat_id, "-2147483648");
    assert_eq!(Monitor::new(i32::MAX).chat_id, "2147483647");
}

#[test]
fn new_state_is_empty() {
    let shared = AppContainer::new();
    assert_eq!(shared.activity_count(), 0);
    assert_eq!(shared.pending_alerts(), 0);
    assert_eq!(shared.known_containers(), 0);
    assert_eq!(shared.status_of("c1"), None);
}

#[test]
fn c1_stops_and_recovers() {
    let mut monitor = Monitor::new(7);
    let mut shared = AppContainer::new();
    tick(&mut monitor, &mut shared, vec![record("c1", "/web", RunState::Running)], 0);
    assert_eq!(drain(&mut shared), vec![]);
    tick(&mut monitor, &mut shared, vec![record("c1", "/web", RunState::Exited)], MINUTE);
    assert_eq!(
        drain(&mut shared),
        vec![health_alert("c1", "Container /web has stopped.", MINUTE, "7")]
    );
    tick(&mut monitor, &mut shared, vec![record("c1", "/web", RunState::Exited)], 2 * MINUTE);
    assert_eq!(drain(&mut shared), vec![]);
    tick(&mut monitor, &mut shared, vec![record("c1", "/web", RunState::Running)], 3 * MINUTE);
    assert_eq!(
        drain(&mut shared),
        vec![health_alert(
            "c1",
            "Container /web has recovered and is now healthy.",
            3 * MINUTE,
            "7"
        )]
    );
    assert_eq!(shared.status_of("c1"), Some(ContainerStatus::default()));
}

#[test]
fn c2_stays_down_and_escalates_once() {
    let mut monitor = Monitor::new(7);
    let mut shared = AppContainer::new();
    for now in [0u64, 15 * MINUTE, 31 * MINUTE] {
        tick(&mut monitor, &mut shared, vec![record("c2", "/db", RunState::Exited)], now);
    }
    assert_eq!(
        drain(&mut shared),
        vec![
            health_alert("c2", "Container /db has stopped.", 0, "7"),
            health_alert(
                "c2",
                "Container /db is STILL unhealthy after 30 minutes.",
                31 * MINUTE,
                "7"
            ),
        ]
    );
    assert_eq!(
        shared.status_of("c2"),
        Some(ContainerStatus {
            is_healthy: false,
            last_unhealthy: Some(31 * MINUTE),
            acknowledged: false
        })
    );
}

#[test]
fn c2_acknowledged_stays_silent_until_it_recovers() {
    let mut monitor = Monitor::new(7);
    let mut shared = AppContainer::new();
    tick(&mut monitor, &mut shared, vec![record("c2", "/db", RunState::Exited)], 0);
    assert_eq!(drain(&mut shared).len(), 1);
    shared.acknowledge("c2");
    assert_eq!(
        shared.status_of("c2"),
        Some(ContainerStatus { is_healthy: false, last_unhealthy: Some(0), acknowledged: true })
    );
    let mut minute: u64 = 1;
    while minute <= 40 {
        tick(&mut monitor, &mut shared, vec![record("c2", "/db", RunState::Exited)], minute * MINUTE);
        minute += 1;
    }
    assert_eq!(shared.pending_alerts(), 0);
    tick(&mut monitor, &mut shared, vec![record("c2", "/db", RunState::Running)], 41 * MINUTE);
    assert_eq!(
        drain(&mut shared),
        vec![health_alert(
            "c2",
            "Container /db has recovered and is now healthy.",
            41 * MINUTE,
            "7"
        )]
    );
    assert_eq!(shared.status_of("c2"), Some(ContainerStatus::default()));
    tick(&mut monitor, &mut shared, vec![record("c2", "/db", RunState::Dead)], 42 * MINUTE);
    tick(&mut monitor, &mut shared, vec![record("c2", "/db", RunState::Dead)], 72 * MINUTE);
    assert_eq!(shared.pending_alerts(), 2);
}

#[test]
fn acknowledge_leaves_healthy_and_unseen_containers_alone() {
    let mut monitor = Monitor::new(7);
    let mut shared = AppContainer::new();
    tick(&mut monitor, &mut shared, vec![record("up", "/up", RunState::Running)], 0);
    shared.acknowledge("up");
    shared.acknowledge("never-seen");
    assert_eq!(shared.status_of("up"), Some(ContainerStatus::default()));
    assert_eq!(shared.status_of("never-seen"), None);
    assert_eq!(shared.known_containers(), 1);
    assert_eq!(shared.pending_alerts(), 0);
    assert_eq!(shared.activity_count(), 1);
}

#[test]
fn other_unhealthy_state_has_its_own_wording() {
    let mut monitor = Monitor::new(-5);
    let mut shared = AppContainer::new();
    tick(&mut monitor, &mut shared, vec![record("c3", "/job", RunState::Other)], 9);
    assert_eq!(
        drain(&mut shared),
        vec![health_alert("c3", "Container /job just became unhealthy.", 9, "-5")]
    );
}

#[test]
fn missing_id_and_names_fall_back() {
    let mut monitor = Monitor::new(1);
    let mut shared = AppContainer::new();
    let records = vec![
        ContainerRecord { id: None, names: None, state: RunState::Paused },
        ContainerRecord { id: Some("abc".to_string()), names: None, state: RunState::Created },
        ContainerRecord { id: Some("def".to_string()), names: Some(vec![]), state: RunState::Dead },
        ContainerRecord {
            id: Some("ghi".to_string()),
            names: Some(vec!["/first".to_string(), "/second".to_string()]),
            state: RunState::Removing,
        },
    ];
    tick(&mut monitor, &mut shared, records, 3);
    assert_eq!(
        drain(&mut shared),
        vec![
            health_alert("unknown", "Container unknown has stopped.", 3, "1"),
            health_alert("abc", "Container abc has stopped.", 3, "1"),
            health_alert("def", "Container def has stopped.", 3, "1"),
            health_alert("ghi", "Container /first has stopped.", 3, "1"),
        ]
    );
    assert!(shared.status_of("unknown").is_some());
    assert_eq!(shared.known_containers(), 4);
}

#[test]
fn healthy_container_is_recorded_without_an_alert() {
    let mut monitor = Monitor::new(1);
    let mut shared = AppContainer::new();
    tick(&mut monitor, &mut shared, vec![record("c1", "/web", RunState::Running)], 3);
    assert_eq!(shared.status_of("c1"), Some(ContainerStatus::default()));
    assert_eq!(shared.pending_alerts(), 0);
}

#[test]
fn same_id_twice_in_a_snapshot_is_processed_in_order() {
    let mut monitor = Monitor::new(1);
    let mut shared = AppContainer::new();
    let records =
        vec![record("c1", "/a", RunState::Exited), record("c1", "/a", RunState::Running)];
    tick(&mut monitor, &mut shared, records, 3);
    assert_eq!(
        drain(&mut shared),
        vec![
            health_alert("c1", "Container /a has stopped.", 3, "1"),
            health_alert("c1", "Container /a has recovered and is now healthy.", 3, "1"),
        ]
    );
    assert_eq!(shared.known_containers(), 1);
}

#[test]
fn counter_publishes_the_size_of_the_snapshot() {
    let mut monitor = Monitor::new(1);
    let mut shared = AppContainer::new();
    let records = vec![
        record("a", "/a", RunState::Running),
        record("b", "/b", RunState::Running),
        record("c", "/c", RunState::Exited),
    ];
    tick(&mut monitor, &mut shared, records, 3);
    assert_eq!(shared.activity_count(), 3);
    tick(&mut monitor, &mut shared, vec![], 4);
    assert_eq!(shared.activity_count(), 0);
}

#[test]
fn vanished_container_keeps_its_entry() {
    let mut monitor = Monitor::new(1);
    let mut shared = AppContainer::new();
    tick(&mut monitor, &mut shared, vec![record("gone", "/gone", RunState::Exited)], 0);
    tick(&mut monitor, &mut shared, vec![], 45 * MINUTE);
    assert_eq!(
        shared.status_of("gone"),
        Some(ContainerStatus { is_healthy: false, last_unhealthy: Some(0), acknowledged: false })
    );
    assert_eq!(shared.pending_alerts(), 1);
}

#[test]
fn failed_poll_skips_the_tick() {
    let mut monitor = Monitor::new(1);
    let mut shared = AppContainer::new();
    tick(&mut monitor, &mut shared, vec![record("c1", "/web", RunState::Exited)], 0);
    let before = shared.status_of("c1");
    let action =
        monitor.run(&mut shared, MonitorEvent { snapshot: None, now: 90 * MINUTE, wall_clock: 5 });
    assert_eq!(action, NextPoll { delay_ms: POLL_PERIOD_MS - 5 });
    assert_eq!(shared.status_of("c1"), before);
    assert_eq!(shared.pending_alerts(), 1);
    assert_eq!(shared.activity_count(), 1);
    assert_eq!(shared.known_containers(), 1);
}

#[test]
fn check_containers_is_the_tick_without_the_schedule() {
    let monitor = Monitor::new(12);
    let mut shared = AppContainer::new();
    monitor.check_containers(&mut shared, &vec![record("c1", "/web", RunState::Exited)], 10);
    assert_eq!(
        drain(&mut shared),
        vec![health_alert("c1", "Container /web has stopped.", 10, "12")]
    );
    assert_eq!(shared.activity_count(), 1);
}

#[test]
fn next_poll_lands_on_the_minute() {
    assert_eq!(POLL_PERIOD_MS, 60_000);
    assert_eq!(Monitor::next_poll_delay(0), 60_000);
    assert_eq!(Monitor::next_poll_delay(1), 59_999);
    assert_eq!(Monitor::next_poll_delay(59_999), 1);
    assert_eq!(Monitor::next_poll_delay(60_000), 60_000);
    assert_eq!(Monitor::next_poll_delay(61_234), 58_766);
    assert_eq!(Monitor::next_poll_delay(u64::MAX), 60_000 - u64::MAX % 60_000);
    let mut monitor = Monitor::new(1);
    let mut shared = AppContainer::new();
    let action = monitor.run(
        &mut shared,
        MonitorEvent { snapshot: Some(vec![]), now: 0, wall_clock: 1_700_000_012_345 },
    );
    assert_eq!((1_700_000_012_345 + action.delay_ms) % 60_000, 0);
    assert_eq!(action.delay_ms, 27_655);
}
