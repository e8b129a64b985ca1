//! The queue between the producers of alerts and the dispatcher.

use crate::alert::{AlertMessage, AlertMessageView};
use std::collections::VecDeque;
use vstd::prelude::*;

verus! {

/// The views of a sequence of alerts, in the same order.
pub open spec fn views(alerts: Seq<AlertMessage>) -> Seq<AlertMessageView> {
    Seq::new(alerts.len(), |i: int| alerts[i]@)
}

/// Pending alerts, oldest first. The queue has no bound, no priorities, and
/// keeps alerts that look alike.
pub struct AlertQueue {
    items: VecDeque<AlertMessage>,
}

impl View for AlertQueue {
    type V = Seq<AlertMessageView>;

    closed spec fn view(&self) -> Seq<AlertMessageView> {
        views(self.items@)
    }
}

impl AlertQueue {
    /// An empty queue.
    pub fn new() -> (queue: AlertQueue)
        ensures
            queue@ == Seq::<AlertMessageView>::empty(),
    {
        AlertQueue { items: VecDeque::new() }
    }

    /// The number of pending alerts.
    pub fn len(&self) -> (n: usize)
        ensures
            n == self@.len(),
    {
        self.items.len()
    }

    /// Whether no alert is pending.
    pub fn is_empty(&self) -> (empty: bool)
        ensures
            empty == (self@.len() == 0),
    {
        self.items.len() == 0
    }

    /// Appends `event` behind every alert that is already queued.
    pub fn enqueue(&mut self, event: AlertMessage)
        ensures
            final(self)@ == old(self)@.push(event@),
    {
        self.items.push_back(event);
    }

    /// Removes every queued alert and returns them, oldest first.
    pub fn drain_all(&mut self) -> (drained: VecDeque<AlertMessage>)
        ensures
            views(drained@) == old(self)@,
            final(self)@ == Seq::<AlertMessageView>::empty(),
    {
        let mut drained = VecDeque::new();
        std::mem::swap(&mut self.items, &mut drained);
        drained
    }
}

/// One call on a shared queue, in the order in which the calls got the lock.
pub enum QueueOp {
    /// A producer enqueued this alert.
    Enqueue(AlertMessageView),
    /// The consumer drained the queue.
    DrainAll,
}

/// The alerts that `ops` enqueue, in call order.
pub open spec fn enqueued_by(ops: Seq<QueueOp>) -> Seq<AlertMessageView>
    decreases ops.len(),
{
    if ops.len() == 0 {
        Seq::empty()
    } else {
        match ops.last() {
            QueueOp::Enqueue(event) => enqueued_by(ops.drop_last()).push(event),
            QueueOp::DrainAll => enqueued_by(ops.drop_last()),
        }
    }
}

/// What a queue that held `start` holds after `ops`.
pub open spec fn pending_after(start: Seq<AlertMessageView>, ops: Seq<QueueOp>) -> Seq<
    AlertMessageView,
>
    decreases ops.len(),
{
    if ops.len() == 0 {
        start
    } else {
        match ops.last() {
            QueueOp::Enqueue(event) => pending_after(start, ops.drop_last()).push(event),
            QueueOp::DrainAll => Seq::empty(),
        }
    }
}

/// What the drains among `ops` returned, one drain after the other.
pub open spec fn drained_by(start: Seq<AlertMessageView>, ops: Seq<QueueOp>) -> Seq<
    AlertMessageView,
>
    decreases ops.len(),
{
    if ops.len() == 0 {
        Seq::empty()
    } else {
        match ops.last() {
            QueueOp::Enqueue(_) => drained_by(start, ops.drop_last()),
            QueueOp::DrainAll => drained_by(start, ops.drop_last()) + pending_after(
                start,
                ops.drop_last(),
            ),
        }
    }
}

/// First in, first out, whatever the interleaving: after any run of enqueue
/// and drain calls, what the drains returned followed by what is still
/// pending is what the queue held at the start followed by the enqueued
/// alerts in call order. Nothing is lost, repeated or reordered, whichever
/// producer made each call.
pub proof fn lemma_queue_is_fifo(start: Seq<AlertMessageView>, ops: Seq<QueueOp>)
    ensures
        drained_by(start, ops) + pending_after(start, ops) == start + enqueued_by(ops),
    decreases ops.len(),
{
    if ops.len() > 0 {
        let before = ops.drop_last();
        lemma_queue_is_fifo(start, before);
        match ops.last() {
            QueueOp::Enqueue(event) => {
                assert(start + enqueued_by(ops) =~= (start + enqueued_by(before)).push(event));
            },
            QueueOp::DrainAll => {},
        }
    }
}

/// Each producer keeps its own order. Take any mark that tells the alerts of
/// one producer from those of the others: the marked alerts come out of the
/// queue in the order in which they went in, however the calls of the other
/// producers and the drains fall between them.
pub proof fn lemma_producer_keeps_its_order(
    start: Seq<AlertMessageView>,
    ops: Seq<QueueOp>,
    mine: spec_fn(AlertMessageView) -> bool,
)
    ensures
        (drained_by(start, ops) + pending_after(start, ops)).filter(mine) == (start + enqueued_by(
            ops,
        )).filter(mine),
{
    lemma_queue_is_fifo(start, ops);
}

} // verus!
