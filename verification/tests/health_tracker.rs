use container_monitor::health::{AlertKind, ContainerStatus, Observation, RunState, REALERT_AFTER_MS};

const MINUTE: u64 = 60_000;

fn unhealthy_since(since: u64, acknowledged: bool) -> ContainerStatus {
    ContainerStatus { is_healthy: false, last_unhealthy: Some(since), acknowledged }
}

#[test]
fn default_status_is_healthy_and_unacknowledged() {
    let status = ContainerStatus::default();
    assert_eq!(status, ContainerStatus { is_healthy: true, last_unhealthy: None, acknowledged: false });
}

#[test]
fn window_is_thirty_minutes() {
    assert_eq!(REALERT_AFTER_MS, 30 * MINUTE);
}

#[test]
fn classify_maps_every_run_state() {
    assert_eq!(RunState::Running.classify(), Observation::Running);
    assert_eq!(RunState::Exited.classify(), Observation::Stopped);
    assert_eq!(RunState::Dead.classify(), Observation::Stopped);
    assert_eq!(RunState::Removing.classify(), Observation::Stopped);
    assert_eq!(RunState::Created.classify(), Observation::Stopped);
    assert_eq!(RunState::Paused.classify(), Observation::Stopped);
    assert_eq!(RunState::Other.classify(), Observation::Unhealthy);
}

#[test]
fn healthy_and_running_changes_nothing() {
    let start = ContainerStatus::default();
    let (next, alert) = start.observe(Observation::Running, 5);
    assert_eq!(next, start);
    assert_eq!(alert, None);
}

#[test]
fn healthy_to_stopped_alerts_with_stopped_wording() {
    let (next, alert) = ContainerStatus::default().observe(Observation::Stopped, 1_000);
    assert_eq!(next, unhealthy_since(1_000, false));
    assert_eq!(alert, Some(AlertKind::Stopped));
}

#[test]
fn healthy_to_other_unhealthy_alerts_with_unhealthy_wording() {
    let (next, alert) = ContainerStatus::default().observe(Observation::Unhealthy, 1_000);
    assert_eq!(next, unhealthy_since(1_000, false));
    assert_eq!(alert, Some(AlertKind::BecameUnhealthy));
}

#[test]
fn unhealthy_within_window_is_debounced() {
    let start = unhealthy_since(1_000, false);
    let (next, alert) = start.observe(Observation::Stopped, 1_000 + REALERT_AFTER_MS - 1);
    assert_eq!(next, start);
    assert_eq!(alert, None);
}

#[test]
fn unhealthy_at_exactly_the_window_escalates() {
    let start = unhealthy_since(1_000, false);
    let now: u64 = 1_000 + REALERT_AFTER_MS;
    let (next, alert) = start.observe(Observation::Unhealthy, now);
    assert_eq!(next, unhealthy_since(now, false));
    assert_eq!(alert, Some(AlertKind::StillUnhealthy));
}

#[test]
fn escalation_restarts_the_window() {
    let start = unhealthy_since(0, false);
    let (second, first_alert) = start.observe(Observation::Stopped, 31 * MINUTE);
    assert_eq!(first_alert, Some(AlertKind::StillUnhealthy));
    let (third, none) = second.observe(Observation::Stopped, 60 * MINUTE);
    assert_eq!(none, None);
    assert_eq!(third, second);
    let (_, again) = third.observe(Observation::Stopped, 61 * MINUTE);
    assert_eq!(again, Some(AlertKind::StillUnhealthy));
}

#[test]
fn acknowledged_never_escalates() {
    let start = unhealthy_since(0, true);
    let (next, alert) = start.observe(Observation::Stopped, 1_000 * MINUTE);
    assert_eq!(next, start);
    assert_eq!(alert, None);
}

#[test]
fn recovery_alerts_and_resets() {
    let (next, alert) = unhealthy_since(7, true).observe(Observation::Running, 8);
    assert_eq!(next, ContainerStatus::default());
    assert_eq!(alert, Some(AlertKind::Recovered));
}

#[test]
fn clock_running_back_raises_nothing() {
    let start = unhealthy_since(40 * MINUTE, false);
    let (next, alert) = start.observe(Observation::Stopped, 0);
    assert_eq!(next, start);
    assert_eq!(alert, None);
}

#[test]
fn unhealthy_without_a_time_stays_as_it_is() {
    let start = ContainerStatus { is_healthy: false, last_unhealthy: None, acknowledged: false };
    let (next, alert) = start.observe(Observation::Stopped, u64::MAX);
    assert_eq!(next, start);
    assert_eq!(alert, None);
}

#[test]
fn acknowledge_marks_an_unhealthy_status_only() {
    assert_eq!(unhealthy_since(3, false).acknowledge(), unhealthy_since(3, true));
    assert_eq!(unhealthy_since(3, true).acknowledge(), unhealthy_since(3, true));
    assert_eq!(ContainerStatus::default().acknowledge(), ContainerStatus::default());
}

#[test]
fn stop_then_recover_scenario() {
    let mut status = ContainerStatus::default();
    let mut alerts: Vec<Option<AlertKind>> = Vec::new();
    let seen = [
        (RunState::Running, 0u64),
        (RunState::Exited, MINUTE),
        (RunState::Exited, 2 * MINUTE),
        (RunState::Running, 3 * MINUTE),
    ];
    for (state, now) in seen {
        let (next, alert) = status.observe(state.classify(), now);
        status = next;
        alerts.push(alert);
    }
    assert_eq!(alerts, vec![None, Some(AlertKind::Stopped), None, Some(AlertKind::Recovered)]);
    assert_eq!(status, ContainerStatus::default());
}

#[test]
fn stuck_container_escalates_after_thirty_one_minutes() {
    let mut status = ContainerStatus::default();
    let mut alerts: Vec<AlertKind> = Vec::new();
    for now in [0u64, 15 * MINUTE, 31 * MINUTE] {
        let (next, alert) = status.observe(RunState::Exited.classify(), now);
        status = next;
        if let Some(kind) = alert {
            alerts.push(kind);
        }
    }
    assert_eq!(alerts, vec![AlertKind::Stopped, AlertKind::StillUnhealthy]);
}

#[test]
fn acknowledged_container_is_silent_for_forty_minutes() {
    let (status, first) = ContainerStatus::default().observe(Observation::Stopped, 0);
    assert_eq!(first, Some(AlertKind::Stopped));
    let mut status = status.acknowledge();
    let mut minute: u64 = 1;
    while minute <= 40 {
        let (next, alert) = status.observe(Observation::Stopped, minute * MINUTE);
        assert_eq!(alert, None);
        status = next;
        minute += 1;
    }
    let (recovered, alert) = status.observe(Observation::Running, 41 * MINUTE);
    assert_eq!(alert, Some(AlertKind::Recovered));
    assert!(!recovered.acknowledged);
    let (down_again, entry) = recovered.observe(Observation::Stopped, 42 * MINUTE);
    assert_eq!(entry, Some(AlertKind::Stopped));
    let (_, escalation) = down_again.observe(Observation::Stopped, 72 * MINUTE);
    assert_eq!(escalation, Some(AlertKind::StillUnhealthy));
}

#[test]
fn two_alerts_in_one_episode_are_a_window_apart() {
    let mut status = ContainerStatus::default();
    let mut alert_times: Vec<u64> = Vec::new();
    let mut now: u64 = 0;
    while now <= 200 * MINUTE {
        let (next, alert) = status.observe(Observation::Unhealthy, now);
        if alert.is_some() {
            alert_times.push(now);
        }
        status = next;
        now += 7 * MINUTE;
    }
    assert!(alert_times.len() > 2);
    for pair in alert_times.windows(2) {
        assert!(pair[1] - pair[0] >= REALERT_AFTER_MS);
    }
}
