//! The health state machine of one container.

use vstd::prelude::*;

verus! {

/// The debounce window: an unhealthy container that nobody acknowledged is
/// reported again once this many milliseconds have passed since the last report.
pub const REALERT_AFTER_MS: u64 = 1_800_000;

/// The run-state that the container runtime reports for a container.
#[derive(Clone, Copy, Debug, PartialEq, Eq, Structural)]
pub enum RunState {
    Running,
    Exited,
    Dead,
    Removing,
    Created,
    Paused,
    Other,
}

/// What a run-state means for health: running, stopped, or unhealthy in some
/// other way. The last two differ only in the wording of the alert.
#[derive(Clone, Copy, Debug, PartialEq, Eq, Structural)]
pub enum Observation {
    Running,
    Stopped,
    Unhealthy,
}

impl RunState {
    /// Only `Running` is healthy.
    pub open spec fn is_healthy(self) -> bool {
        self == RunState::Running
    }

    /// The run-states that the alert text calls "stopped".
    pub open spec fn is_stopped(self) -> bool {
        self == RunState::Exited || self == RunState::Dead || self == RunState::Removing
            || self == RunState::Created || self == RunState::Paused
    }

    pub open spec fn observation(self) -> Observation {
        if self.is_healthy() {
            Observation::Running
        } else if self.is_stopped() {
            Observation::Stopped
        } else {
            Observation::Unhealthy
        }
    }

    /// Classifies a run-state.
    pub fn classify(self) -> (o: Observation)
        ensures
            o == self.observation(),
    {
        match self {
            RunState::Running => Observation::Running,
            RunState::Exited | RunState::Dead | RunState::Removing | RunState::Created
            | RunState::Paused => Observation::Stopped,
            RunState::Other => Observation::Unhealthy,
        }
    }
}

/// The health of one container, as last observed.
#[derive(Clone, Copy, Debug, PartialEq, Eq, Structural)]
pub struct ContainerStatus {
    /// Whether the last observed run-state was `Running`.
    pub is_healthy: bool,
    /// When the current unhealthy episode was last reported, in milliseconds
    /// on the caller's monotonic clock.
    pub last_unhealthy: Option<u64>,
    /// Whether an operator acknowledged the current unhealthy episode.
    pub acknowledged: bool,
}

/// The alert that a transition raises.
#[derive(Clone, Copy, Debug, PartialEq, Eq, Structural)]
pub enum AlertKind {
    /// A healthy container was seen in a stopped run-state.
    Stopped,
    /// A healthy container was seen unhealthy in some other way.
    BecameUnhealthy,
    /// The container is unhealthy, unacknowledged, and the window has passed.
    StillUnhealthy,
    /// An unhealthy container was seen running.
    Recovered,
}

impl ContainerStatus {
    /// The status of a container that has not been seen yet.
    pub open spec fn unseen() -> ContainerStatus {
        ContainerStatus { is_healthy: true, last_unhealthy: None, acknowledged: false }
    }

    /// The invariant of a status: it carries a time exactly while it is
    /// unhealthy, and is acknowledged only while it is unhealthy.
    pub open spec fn wf(self) -> bool {
        &&& self.last_unhealthy is Some <==> !self.is_healthy
        &&& self.acknowledged ==> !self.is_healthy
    }

    /// Whether an unhealthy observation at `now` escalates: the episode is
    /// unacknowledged and was last reported at least the window ago.
    pub open spec fn escalation_due(self, now: u64) -> bool {
        &&& !self.is_healthy
        &&& !self.acknowledged
        &&& self.last_unhealthy matches Some(since)
        &&& now - since >= REALERT_AFTER_MS
    }

    /// The status after the container is observed as `observed` at `now`.
    pub open spec fn next(self, observed: Observation, now: u64) -> ContainerStatus {
        if observed == Observation::Running {
            if self.is_healthy {
                self
            } else {
                ContainerStatus::unseen()
            }
        } else if self.is_healthy {
            ContainerStatus { is_healthy: false, last_unhealthy: Some(now), acknowledged: false }
        } else if self.escalation_due(now) {
            ContainerStatus { is_healthy: false, last_unhealthy: Some(now), acknowledged: false }
        } else {
            self
        }
    }

    /// The alert, if any, that the same observation raises.
    pub open spec fn alert(self, observed: Observation, now: u64) -> Option<AlertKind> {
        if observed == Observation::Running {
            if self.is_healthy {
                None
            } else {
                Some(AlertKind::Recovered)
            }
        } else if self.is_healthy {
            if observed == Observation::Stopped {
                Some(AlertKind::Stopped)
            } else {
                Some(AlertKind::BecameUnhealthy)
            }
        } else if self.escalation_due(now) {
            Some(AlertKind::StillUnhealthy)
        } else {
            None
        }
    }

    /// The status after an operator acknowledges: the flag is set while the
    /// container is unhealthy, and nothing changes while it is healthy.
    pub open spec fn acknowledged_once(self) -> ContainerStatus {
        if self.is_healthy {
            self
        } else {
            ContainerStatus { acknowledged: true, ..self }
        }
    }

    /// Feeds one observation to the state machine and returns the next status
    /// with the alert to raise.
    pub fn observe(self, observed: Observation, now: u64) -> (out: (ContainerStatus, Option<AlertKind>))
        ensures
            out.0 == self.next(observed, now),
            out.1 == self.alert(observed, now),
            self.wf() ==> out.0.wf(),
    {
        match observed {
            Observation::Running => {
                if self.is_healthy {
                    (self, None)
                } else {
                    (
                        ContainerStatus { is_healthy: true, last_unhealthy: None, acknowledged: false },
                        Some(AlertKind::Recovered),
                    )
                }
            },
            _ => {
                if self.is_healthy {
                    let kind = match observed {
                        Observation::Stopped => AlertKind::Stopped,
                        _ => AlertKind::BecameUnhealthy,
                    };
                    (
                        ContainerStatus { is_healthy: false, last_unhealthy: Some(now), acknowledged: false },
                        Some(kind),
                    )
                } else {
                    match self.last_unhealthy {
                        Some(since) => {
                            if !self.acknowledged && now >= since && now - since >= REALERT_AFTER_MS {
                                (
                                    ContainerStatus {
                                        is_healthy: false,
                                        last_unhealthy: Some(now),
                                        acknowledged: false,
                                    },
                                    Some(AlertKind::StillUnhealthy),
                                )
                            } else {
                                (self, None)
                            }
                        },
                        None => (self, None),
                    }
                }
            },
        }
    }

    /// Marks the current unhealthy episode as acknowledged.
    pub fn acknowledge(self) -> (out: ContainerStatus)
        ensures
            out == self.acknowledged_once(),
            self.wf() ==> out.wf(),
    {
        if self.is_healthy {
            self
        } else {
            ContainerStatus {
                is_healthy: false,
                last_unhealthy: self.last_unhealthy,
                acknowledged: true,
            }
        }
    }
}

impl Default for ContainerStatus {
    fn default() -> (out: ContainerStatus)
        ensures
            out == ContainerStatus::unseen(),
    {
        ContainerStatus { is_healthy: true, last_unhealthy: None, acknowledged: false }
    }
}

/// What happens to one container over time.
pub enum HealthEvent {
    /// The monitor saw it as `observed` at the tick time `now`.
    Observed { observed: Observation, now: u64 },
    /// An operator acknowledged it.
    Acknowledged,
}

impl HealthEvent {
    /// An observation in the running state.
    pub open spec fn is_running(self) -> bool {
        self matches HealthEvent::Observed { observed, .. } && observed == Observation::Running
    }
}

impl ContainerStatus {
    /// The status after `event`.
    pub open spec fn after_event(self, event: HealthEvent) -> ContainerStatus {
        match event {
            HealthEvent::Observed { observed, now } => self.next(observed, now),
            HealthEvent::Acknowledged => self.acknowledged_once(),
        }
    }

    /// The alert that `event` raises.
    pub open spec fn alert_on(self, event: HealthEvent) -> Option<AlertKind> {
        match event {
            HealthEvent::Observed { observed, now } => self.alert(observed, now),
            HealthEvent::Acknowledged => None,
        }
    }

    /// The status after a run of events.
    pub open spec fn after_events(self, events: Seq<HealthEvent>) -> ContainerStatus
        decreases events.len(),
    {
        if events.len() == 0 {
            self
        } else {
            self.after_events(events.drop_last()).after_event(events.last())
        }
    }

    /// The status that event `i` of `events` meets.
    pub open spec fn before(self, events: Seq<HealthEvent>, i: int) -> ContainerStatus {
        self.after_events(events.take(i))
    }

    /// The alert that event `i` of `events` raises.
    pub open spec fn alert_at(self, events: Seq<HealthEvent>, i: int) -> Option<AlertKind> {
        self.before(events, i).alert_on(events[i])
    }
}

/// The clock of the observations never runs back.
pub open spec fn time_ordered(events: Seq<HealthEvent>) -> bool {
    forall|i: int, j: int|
        0 <= i <= j < events.len() && (#[trigger] events[i]) is Observed && (
        #[trigger] events[j]) is Observed ==> events[i]->now <= events[j]->now
}

/// No event from `i` to `j` sees the container running: whatever episode is
/// on at `i` is still on after `j`.
pub open spec fn unbroken(events: Seq<HealthEvent>, i: int, j: int) -> bool {
    forall|k: int| i <= k <= j ==> !(#[trigger] events[k]).is_running()
}

/// The status that an event meets is the status that the event before it left.
proof fn lemma_before_next(start: ContainerStatus, events: Seq<HealthEvent>, i: int)
    requires
        0 <= i < events.len(),
    ensures
        start.before(events, i + 1) == start.before(events, i).after_event(events[i]),
{
    assert(events.take(i + 1).drop_last() =~= events.take(i));
}

/// The invariant of a status holds after any run of events.
pub proof fn lemma_events_keep_wf(start: ContainerStatus, events: Seq<HealthEvent>)
    requires
        start.wf(),
    ensures
        start.after_events(events).wf(),
    decreases events.len(),
{
    if events.len() > 0 {
        lemma_events_keep_wf(start, events.drop_last());
    }
}

/// Health follows the last observation: after an observation the container
/// is healthy exactly if it was seen running, and an acknowledgement does not
/// change its health.
pub proof fn lemma_health_follows_observation(
    start: ContainerStatus,
    events: Seq<HealthEvent>,
    i: int,
)
    requires
        0 <= i < events.len(),
    ensures
        start.before(events, i + 1).is_healthy == match events[i] {
            HealthEvent::Observed { observed, .. } => observed == Observation::Running,
            HealthEvent::Acknowledged => start.before(events, i).is_healthy,
        },
{
    lemma_before_next(start, events, i);
}

/// Entry to an episode and recovery from it always alert. Whatever came
/// before, an observation that finds a healthy container not running raises
/// the alert of its kind, and one that finds an unhealthy container running
/// raises the recovery alert.
pub proof fn lemma_entry_and_recovery_alert(
    start: ContainerStatus,
    events: Seq<HealthEvent>,
    i: int,
)
    requires
        0 <= i < events.len(),
        events[i] is Observed,
    ensures
        start.before(events, i).is_healthy && events[i]->observed == Observation::Stopped
            ==> start.alert_at(events, i) == Some(AlertKind::Stopped),
        start.before(events, i).is_healthy && events[i]->observed == Observation::Unhealthy
            ==> start.alert_at(events, i) == Some(AlertKind::BecameUnhealthy),
        !start.before(events, i).is_healthy && events[i]->observed == Observation::Running
            ==> start.alert_at(events, i) == Some(AlertKind::Recovered),
{
}

/// After an alert at `i`, and as long as the episode is unbroken, the
/// container is unhealthy and the time of its last report is no earlier than
/// the alert.
proof fn lemma_last_report_after_alert(
    start: ContainerStatus,
    events: Seq<HealthEvent>,
    i: int,
    k: int,
)
    requires
        0 <= i < k <= events.len(),
        time_ordered(events),
        events[i] is Observed,
        unbroken(events, i, k - 1),
        start.alert_at(events, i) is Some,
    ensures
        !start.before(events, k).is_healthy,
        start.before(events, k).last_unhealthy matches Some(since) && since >= events[i]->now,
    decreases k - i,
{
    lemma_before_next(start, events, k - 1);
    if k > i + 1 {
        lemma_last_report_after_alert(start, events, i, k - 1);
    }
}

/// No second alert within the window. Within one unbroken unhealthy episode,
/// and with a clock that never runs back, two observations that both raise an
/// alert are at least thirty minutes apart.
pub proof fn lemma_alerts_are_a_window_apart(
    start: ContainerStatus,
    events: Seq<HealthEvent>,
    i: int,
    j: int,
)
    requires
        0 <= i < j < events.len(),
        time_ordered(events),
        events[i] is Observed,
        events[j] is Observed,
        unbroken(events, i, j),
        start.alert_at(events, i) is Some,
        start.alert_at(events, j) is Some,
    ensures
        events[j]->now - events[i]->now >= REALERT_AFTER_MS,
{
    lemma_last_report_after_alert(start, events, i, j);
}

/// An acknowledged episode stays acknowledged until the container is seen
/// running.
proof fn lemma_acknowledgement_lasts(
    start: ContainerStatus,
    events: Seq<HealthEvent>,
    a: int,
    k: int,
)
    requires
        0 <= a < k <= events.len(),
        events[a] is Acknowledged,
        !start.before(events, a).is_healthy,
        unbroken(events, a, k - 1),
    ensures
        !start.before(events, k).is_healthy,
        start.before(events, k).acknowledged,
    decreases k - a,
{
    lemma_before_next(start, events, k - 1);
    if k > a + 1 {
        lemma_acknowledgement_lasts(start, events, a, k - 1);
    }
}

/// Acknowledging silences the episode. Once an operator has acknowledged an
/// unhealthy container, no event raises an alert for as long as the container
/// is not seen running, however much time passes.
pub proof fn lemma_acknowledged_episode_is_silent(
    start: ContainerStatus,
    events: Seq<HealthEvent>,
    a: int,
    j: int,
)
    requires
        0 <= a < j < events.len(),
        events[a] is Acknowledged,
        !start.before(events, a).is_healthy,
        unbroken(events, a, j),
    ensures
        start.alert_at(events, j) is None,
{
    lemma_acknowledgement_lasts(start, events, a, j);
}

/// Recovery clears the acknowledgement, and with it all that the episode
/// left behind. After an observation in the running state the status is that
/// of a container never seen before, so the next episode alerts on entry and
/// escalates as the first one did. An unhealthy container alerts on the way.
pub proof fn lemma_recovery_resets(start: ContainerStatus, events: Seq<HealthEvent>, r: int)
    requires
        start.wf(),
        0 <= r < events.len(),
        events[r].is_running(),
    ensures
        start.before(events, r + 1) == ContainerStatus::unseen(),
        !start.before(events, r).is_healthy ==> start.alert_at(events, r) == Some(
            AlertKind::Recovered,
        ),
{
    lemma_before_next(start, events, r);
    lemma_events_keep_wf(start, events.take(r));
}

} // verus!
