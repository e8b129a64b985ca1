//! The monitor loop: one tick turns a snapshot of the container runtime into
//! health transitions and alerts.

use crate::alert::{alert_text, AlertMessage, AlertMessageView};
use crate::health::{AlertKind, ContainerStatus, RunState};
use crate::runnable::Runnable;
use crate::state::{status_in, table_wf, AppContainer, HealthMap};
use crate::text::{i64_to_string, signed_decimal};
use vstd::prelude::*;

verus! {

/// The time between two polls, in milliseconds.
pub const POLL_PERIOD_MS: u64 = 60_000;

/// One container as the runtime lists it.
#[derive(Debug, PartialEq, Eq)]
pub struct ContainerRecord {
    /// The runtime's identifier, where it gave one.
    pub id: Option<String>,
    /// The names of the container, where it gave any.
    pub names: Option<Vec<String>>,
    /// The run-state.
    pub state: RunState,
}

/// A listed container as the tick reads it.
pub struct ContainerRecordView {
    /// The key under which the container is tracked.
    pub id: Seq<char>,
    /// The name that alerts call it by.
    pub name: Seq<char>,
    /// The run-state.
    pub state: RunState,
}

/// The key of a container that the runtime listed without an identifier.
pub open spec fn unknown_id() -> Seq<char> {
    "unknown"@
}

impl View for ContainerRecord {
    type V = ContainerRecordView;

    open spec fn view(&self) -> ContainerRecordView {
        let id = match self.id {
            Some(id) => id@,
            None => unknown_id(),
        };
        let name = match self.names {
            Some(names) => if names@.len() > 0 {
                names@[0]@
            } else {
                id
            },
            None => id,
        };
        ContainerRecordView { id, name, state: self.state }
    }
}

/// The views of a list of records, in the same order.
pub open spec fn record_views(records: Seq<ContainerRecord>) -> Seq<ContainerRecordView> {
    Seq::new(records.len(), |i: int| records[i]@)
}

/// The health table and the alert queue, as the tick changes them together.
pub struct Watch {
    pub table: HealthMap,
    pub queue: Seq<AlertMessageView>,
}

/// The alert that is queued for `record` when its transition raises `kind`.
pub open spec fn health_alert(
    record: ContainerRecordView,
    kind: AlertKind,
    now: u64,
    chat: Seq<char>,
) -> AlertMessageView {
    AlertMessageView {
        container_id: record.id,
        message: alert_text(kind, record.name),
        timestamp: now,
        chat_id: Some(chat),
    }
}

/// The effect of one listed container: its status moves as the state machine
/// says, from the recorded status or from that of an unseen container, and
/// the alert of that transition, if any, goes to the back of the queue.
pub open spec fn observe_record(
    before: Watch,
    record: ContainerRecordView,
    now: u64,
    chat: Seq<char>,
) -> Watch {
    let previous = status_in(before.table, record.id);
    let observed = record.state.observation();
    Watch {
        table: before.table.insert(record.id, previous.next(observed, now)),
        queue: match previous.alert(observed, now) {
            Some(kind) => before.queue.push(health_alert(record, kind, now, chat)),
            None => before.queue,
        },
    }
}

/// The effect of a whole snapshot: its records one after the other, in the
/// order listed.
pub open spec fn observe_all(
    before: Watch,
    records: Seq<ContainerRecordView>,
    now: u64,
    chat: Seq<char>,
) -> Watch
    decreases records.len(),
{
    if records.len() == 0 {
        before
    } else {
        observe_record(observe_all(before, records.drop_last(), now, chat), records.last(), now, chat)
    }
}

/// Milliseconds from the wall-clock time `wall_clock` to the next whole
/// minute; a full period where it is on one.
pub open spec fn until_next_minute(wall_clock: u64) -> u64 {
    (POLL_PERIOD_MS - wall_clock % POLL_PERIOD_MS) as u64
}

/// The container count as the activity counter holds it.
pub open spec fn counted(len: nat) -> u32 {
    (len % 0x1_0000_0000) as u32
}

/// What the caller reports to the monitor: the outcome of one poll.
pub struct MonitorEvent {
    /// The containers that the runtime listed, stopped ones included; `None`
    /// where the runtime could not be reached.
    pub snapshot: Option<Vec<ContainerRecord>>,
    /// The time of the tick on the monotonic clock, in milliseconds.
    pub now: u64,
    /// The wall-clock time in milliseconds since the epoch.
    pub wall_clock: u64,
}

/// What the monitor asks of the caller: poll again after this delay.
#[derive(Clone, Copy, Debug, PartialEq, Eq, Structural)]
pub struct NextPoll {
    pub delay_ms: u64,
}

/// The monitor loop.
pub struct Monitor {
    /// The chat that health alerts go to.
    pub chat_id: String,
}

impl Monitor {
    /// A monitor that sends its alerts to the admin chat.
    pub fn new(admin_chat_id: i32) -> (monitor: Monitor)
        ensures
            monitor.chat_id@ == signed_decimal(admin_chat_id as int),
    {
        Monitor { chat_id: i64_to_string(admin_chat_id as i64) }
    }

    /// The delay that lands the next poll on a whole minute of the wall clock.
    pub fn next_poll_delay(wall_clock: u64) -> (delay_ms: u64)
        ensures
            delay_ms == until_next_minute(wall_clock),
            0 < delay_ms <= POLL_PERIOD_MS,
            (wall_clock + delay_ms) % (POLL_PERIOD_MS as int) == 0,
    {
        POLL_PERIOD_MS - wall_clock % POLL_PERIOD_MS
    }

    /// Processes one snapshot at the tick time `now`: publishes the container
    /// count, then feeds every record to the health state machine, updates
    /// the table and queues the alerts, in the order listed.
    pub fn check_containers(
        &self,
        container: &mut AppContainer,
        containers: &Vec<ContainerRecord>,
        now: u64,
    )
        ensures
            (Watch {
                table: final(container).container_states@,
                queue: final(container).alert_queue@,
            }) == observe_all(
                Watch {
                    table: old(container).container_states@,
                    queue: old(container).alert_queue@,
                },
                record_views(containers@),
                now,
                self.chat_id@,
            ),
            final(container).counter == counted(containers@.len()),
            old(container).wf() ==> final(container).wf(),
    {
        container.counter = ((containers.len() as u64) % 0x1_0000_0000) as u32;
        let ghost start = Watch {
            table: container.container_states@,
            queue: container.alert_queue@,
        };
        let ghost records = record_views(containers@);
        let mut i: usize = 0;
        while i < containers.len()
            invariant
                i <= containers.len(),
                records == record_views(containers@),
                (Watch {
                    table: container.container_states@,
                    queue: container.alert_queue@,
                }) == observe_all(start, records.take(i as int), now, self.chat_id@),
                container.counter == counted(containers@.len()),
                table_wf(start.table) ==> table_wf(container.container_states@),
            decreases containers.len() - i,
        {
            let record = &containers[i];
            let id = match &record.id {
                Some(id) => id.clone(),
                None => String::from_str("unknown"),
            };
            let name = match &record.names {
                Some(names) => if names.len() > 0 {
                    names[0].clone()
                } else {
                    id.clone()
                },
                None => id.clone(),
            };
            let previous = match container.container_states.get(id.as_str()) {
                Some(status) => *status,
                None => ContainerStatus::default(),
            };
            let (next, alert) = previous.observe(record.state.classify(), now);
            container.container_states.insert(id.clone(), next);
            match alert {
                Some(kind) => {
                    container.alert_queue.enqueue(
                        AlertMessage {
                            container_id: id,
                            message: kind.message(name.as_str()),
                            timestamp: now,
                            chat_id: Some(self.chat_id.clone()),
                        },
                    );
                },
                None => {},
            }
            proof {
                assert(records.take(i + 1).drop_last() =~= records.take(i as int));
            }
            i = i + 1;
        }
        assert(records.take(i as int) =~= records);
    }
}

impl Runnable<AppContainer> for Monitor {
    type Event = MonitorEvent;

    type Action = NextPoll;

    /// One tick. A snapshot is processed as `check_containers` says; a failed
    /// poll changes nothing and raises no alert. Either way the next poll is
    /// due on the next whole minute.
    fn run(&mut self, container: &mut AppContainer, event: MonitorEvent) -> (action: NextPoll)
        ensures
            final(self).chat_id@ == old(self).chat_id@,
            match event.snapshot {
                Some(containers) => {
                    &&& (Watch {
                        table: final(container).container_states@,
                        queue: final(container).alert_queue@,
                    }) == observe_all(
                        Watch {
                            table: old(container).container_states@,
                            queue: old(container).alert_queue@,
                        },
                        record_views(containers@),
                        event.now,
                        old(self).chat_id@,
                    )
                    &&& final(container).counter == counted(containers@.len())
                },
                None => {
                    &&& final(container).container_states@ == old(container).container_states@
                    &&& final(container).alert_queue@ == old(container).alert_queue@
                    &&& final(container).counter == old(container).counter
                },
            },
            old(container).wf() ==> final(container).wf(),
            action.delay_ms == until_next_minute(event.wall_clock),
    {
        match &event.snapshot {
            Some(containers) => self.check_containers(container, containers, event.now),
            None => {},
        }
        NextPoll { delay_ms: Monitor::next_poll_delay(event.wall_clock) }
    }
}

} // verus!
