//! The state that the tasks of the monitor share.

use crate::alert::AlertMessageView;
use crate::health::ContainerStatus;
use crate::queue::AlertQueue;
use vstd::hash_map::StringHashMap;
use vstd::prelude::*;

verus! {

/// The health table as a mathematical value: container id to status.
pub type HealthMap = Map<Seq<char>, ContainerStatus>;

/// The status that `table` gives for `id`: the recorded one, or that of a
/// container that has not been seen.
pub open spec fn status_in(table: HealthMap, id: Seq<char>) -> ContainerStatus {
    if table.contains_key(id) {
        table[id]
    } else {
        ContainerStatus::unseen()
    }
}

/// Every recorded status meets its invariant.
pub open spec fn table_wf(table: HealthMap) -> bool {
    forall|id: Seq<char>| table.contains_key(id) ==> (#[trigger] table[id]).wf()
}

/// The table after an operator acknowledges `id`: a recorded, unhealthy
/// container is marked, and nothing else changes.
pub open spec fn acknowledge_in(table: HealthMap, id: Seq<char>) -> HealthMap {
    if table.contains_key(id) {
        table.insert(id, table[id].acknowledged_once())
    } else {
        table
    }
}

/// The shared state of the monitor: the health table, the alert queue and the
/// activity counter. The caller puts it behind its lock; every method here is
/// one step under that lock.
pub struct AppContainer {
    /// Size of the last observed container set, plus the operator notes seen
    /// since.
    pub counter: u32,
    /// The health of every container seen so far. Entries are never removed.
    pub container_states: StringHashMap<ContainerStatus>,
    /// The alerts that wait for delivery.
    pub alert_queue: AlertQueue,
}

impl AppContainer {
    /// The invariant of the shared state.
    pub open spec fn wf(&self) -> bool {
        table_wf(self.container_states@)
    }

    /// The state at start: nothing seen, nothing queued, counter at zero.
    pub fn new() -> (container: AppContainer)
        ensures
            container.counter == 0,
            container.container_states@ == HealthMap::empty(),
            container.alert_queue@ == Seq::<AlertMessageView>::empty(),
            container.wf(),
    {
        AppContainer {
            counter: 0,
            container_states: StringHashMap::new(),
            alert_queue: AlertQueue::new(),
        }
    }

    /// Acknowledges the current unhealthy episode of `container_id`. A
    /// container that is healthy or was never seen is left as it is.
    pub fn acknowledge(&mut self, container_id: &str)
        ensures
            final(self).container_states@ == acknowledge_in(
                old(self).container_states@,
                container_id@,
            ),
            final(self).alert_queue@ == old(self).alert_queue@,
            final(self).counter == old(self).counter,
            old(self).wf() ==> final(self).wf(),
    {
        let found = match self.container_states.get(container_id) {
            Some(status) => Some(*status),
            None => None,
        };
        if let Some(status) = found {
            self.container_states.insert(String::from_str(container_id), status.acknowledge());
        }
    }

    /// The recorded status of `container_id`, if it was ever seen.
    pub fn status_of(&self, container_id: &str) -> (status: Option<ContainerStatus>)
        ensures
            status == if self.container_states@.contains_key(container_id@) {
                Some(self.container_states@[container_id@])
            } else {
                None
            },
    {
        match self.container_states.get(container_id) {
            Some(status) => Some(*status),
            None => None,
        }
    }

    /// The number of containers on record.
    pub fn known_containers(&self) -> (n: usize)
        ensures
            n == self.container_states@.len(),
    {
        self.container_states.len()
    }

    /// The activity counter, for the status page.
    pub fn activity_count(&self) -> (n: u32)
        ensures
            n == self.counter,
    {
        self.counter
    }

    /// The number of alerts that wait for delivery, for the status page.
    pub fn pending_alerts(&self) -> (n: usize)
        ensures
            n == self.alert_queue@.len(),
    {
        self.alert_queue.len()
    }
}

} // verus!
