//! The monitor loop over time: what the health table holds for a container is
//! what the state machine of that container makes of its own history.

use crate::health::{ContainerStatus, HealthEvent};
use crate::monitor::{health_alert, observe_all, observe_record, ContainerRecordView, Watch};
use crate::state::{acknowledge_in, status_in};
use vstd::prelude::*;

verus! {

/// What happens to the health table over time.
pub enum TableEvent {
    /// The monitor processed the snapshot `records` at the tick time `now`.
    Snapshot { records: Seq<ContainerRecordView>, now: u64 },
    /// An operator acknowledged the container `id`.
    Acknowledge { id: Seq<char> },
}

/// The table and the queue after one event; alerts go to `chat`.
pub open spec fn after_table_event(before: Watch, event: TableEvent, chat: Seq<char>) -> Watch {
    match event {
        TableEvent::Snapshot { records, now } => observe_all(before, records, now, chat),
        TableEvent::Acknowledge { id } => Watch {
            table: acknowledge_in(before.table, id),
            queue: before.queue,
        },
    }
}

/// The table and the queue after a run of events.
pub open spec fn after_table_events(before: Watch, events: Seq<TableEvent>, chat: Seq<char>) -> Watch
    decreases events.len(),
{
    if events.len() == 0 {
        before
    } else {
        after_table_event(after_table_events(before, events.drop_last(), chat), events.last(), chat)
    }
}

/// The observations of the container `id` in one snapshot, in the order
/// listed.
pub open spec fn sightings(records: Seq<ContainerRecordView>, id: Seq<char>, now: u64) -> Seq<
    HealthEvent,
>
    decreases records.len(),
{
    if records.len() == 0 {
        Seq::empty()
    } else if records.last().id == id {
        sightings(records.drop_last(), id, now).push(
            HealthEvent::Observed { observed: records.last().state.observation(), now },
        )
    } else {
        sightings(records.drop_last(), id, now)
    }
}

/// The part of one event that concerns the container `id`.
pub open spec fn share_of(event: TableEvent, id: Seq<char>) -> Seq<HealthEvent> {
    match event {
        TableEvent::Snapshot { records, now } => sightings(records, id, now),
        TableEvent::Acknowledge { id: acknowledged } => if acknowledged == id {
            seq![HealthEvent::Acknowledged]
        } else {
            Seq::empty()
        },
    }
}

/// The history of the container `id`: its observations and acknowledgements
/// among `events`, in order.
pub open spec fn history_of(events: Seq<TableEvent>, id: Seq<char>) -> Seq<HealthEvent>
    decreases events.len(),
{
    if events.len() == 0 {
        Seq::empty()
    } else {
        history_of(events.drop_last(), id) + share_of(events.last(), id)
    }
}

/// Two runs of events, one after the other, are one run.
proof fn lemma_after_events_concat(
    start: ContainerStatus,
    first: Seq<HealthEvent>,
    second: Seq<HealthEvent>,
)
    ensures
        start.after_events(first + second) == start.after_events(first).after_events(second),
    decreases second.len(),
{
    if second.len() > 0 {
        lemma_after_events_concat(start, first, second.drop_last());
        assert((first + second).drop_last() =~= first + second.drop_last());
    }
}

/// Within one snapshot, the status of a container moves with its own
/// observations and with nothing else.
pub proof fn lemma_snapshot_follows_history(
    before: Watch,
    records: Seq<ContainerRecordView>,
    now: u64,
    chat: Seq<char>,
    id: Seq<char>,
)
    ensures
        status_in(observe_all(before, records, now, chat).table, id) == status_in(
            before.table,
            id,
        ).after_events(sightings(records, id, now)),
    decreases records.len(),
{
    if records.len() > 0 {
        let earlier = records.drop_last();
        lemma_snapshot_follows_history(before, earlier, now, chat, id);
        if records.last().id == id {
            assert(sightings(records, id, now).drop_last() =~= sightings(earlier, id, now));
        }
    }
}

/// The alert that a listed container raises is the alert that the state
/// machine of that container raises for this sighting, after all that the
/// snapshot showed of the container before. It goes to the back of the
/// queue, and a sighting that raises none leaves the queue as it is.
pub proof fn lemma_snapshot_alerts_follow_history(
    before: Watch,
    records: Seq<ContainerRecordView>,
    now: u64,
    chat: Seq<char>,
    i: int,
)
    requires
        0 <= i < records.len(),
    ensures
        ({
            let id = records[i].id;
            let seen = sightings(records.take(i + 1), id, now);
            let queue = observe_all(before, records.take(i), now, chat).queue;
            &&& seen.len() > 0
            &&& seen.last() == (HealthEvent::Observed {
                observed: records[i].state.observation(),
                now,
            })
            &&& observe_all(before, records.take(i + 1), now, chat).queue == match status_in(
                before.table,
                id,
            ).alert_at(seen, seen.len() - 1) {
                Some(kind) => queue.push(health_alert(records[i], kind, now, chat)),
                None => queue,
            }
        }),
{
    let id = records[i].id;
    let earlier = records.take(i);
    let seen = sightings(records.take(i + 1), id, now);
    assert(records.take(i + 1).drop_last() =~= earlier);
    assert(seen.take(seen.len() - 1) =~= sightings(earlier, id, now));
    lemma_snapshot_follows_history(before, earlier, now, chat, id);
}

/// Over any run of snapshots and acknowledgements, the status that the table
/// holds for a container is the status that the state machine reaches from
/// where the container started, fed with the container's own history. What
/// holds of every history of one container therefore holds of every
/// container that the monitor tracks.
pub proof fn lemma_table_follows_history(
    start: Watch,
    events: Seq<TableEvent>,
    chat: Seq<char>,
    id: Seq<char>,
)
    ensures
        status_in(after_table_events(start, events, chat).table, id) == status_in(
            start.table,
            id,
        ).after_events(history_of(events, id)),
    decreases events.len(),
{
    if events.len() > 0 {
        let earlier = events.drop_last();
        lemma_table_follows_history(start, earlier, chat, id);
        let met = after_table_events(start, earlier, chat);
        let first = status_in(start.table, id);
        lemma_after_events_concat(first, history_of(earlier, id), share_of(events.last(), id));
        match events.last() {
            TableEvent::Snapshot { records, now } => {
                lemma_snapshot_follows_history(met, records, now, chat, id);
            },
            TableEvent::Acknowledge { id: acknowledged } => {
                if acknowledged == id {
                    let held = status_in(met.table, id);
                    assert(held.after_events(seq![HealthEvent::Acknowledged].drop_last()) == held);
                }
            },
        }
    }
}

} // verus!
