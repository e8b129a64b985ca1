//! The dispatcher: drains the alert queue and hands the alerts to the chat
//! channel, one at a time and in order.

use crate::alert::{age_seconds, wire_line, AlertMessage, AlertMessageView};
use crate::queue::views;
use crate::runnable::Runnable;
use crate::state::AppContainer;
use crate::text::{i64_to_string, signed_decimal};
use std::collections::VecDeque;
use vstd::prelude::*;

verus! {

/// The pause between two drains, in milliseconds. It is the same whether the
/// last drain found anything or not.
pub const DISPATCH_PAUSE_MS: u64 = 100;

/// What the caller reports to the dispatcher.
#[derive(Clone, Copy, Debug, PartialEq, Eq, Structural)]
pub enum SenderEvent {
    /// The pause is over, or the task has just started.
    Wake { now: u64 },
    /// The last `Send` was carried out, and the channel took the message or
    /// did not.
    Sent { delivered: bool, now: u64 },
}

impl SenderEvent {
    /// The time of the event on the monotonic clock, in milliseconds.
    pub open spec fn now(self) -> u64 {
        match self {
            SenderEvent::Wake { now } => now,
            SenderEvent::Sent { now, .. } => now,
        }
    }
}

/// What the dispatcher asks of the caller.
#[derive(Debug, PartialEq, Eq)]
pub enum SenderAction {
    /// Send `text` to `chat_id`, then report the outcome with `Sent`.
    Send { chat_id: String, text: String },
    /// Wait this long, then report `Wake`.
    Sleep { millis: u64 },
}

/// An action of the dispatcher as a mathematical value.
pub enum SenderActionView {
    Send { chat_id: Seq<char>, text: Seq<char> },
    Sleep { millis: u64 },
}

impl View for SenderAction {
    type V = SenderActionView;

    open spec fn view(&self) -> SenderActionView {
        match self {
            SenderAction::Send { chat_id, text } => SenderActionView::Send {
                chat_id: chat_id@,
                text: text@,
            },
            SenderAction::Sleep { millis } => SenderActionView::Sleep { millis: *millis },
        }
    }
}

/// The delivery of `alert` at `now`: to its own chat, or to `default_chat`
/// where it names none, as one line with its age at this moment.
pub open spec fn delivery(
    alert: AlertMessageView,
    now: u64,
    default_chat: Seq<char>,
) -> SenderActionView {
    SenderActionView::Send {
        chat_id: match alert.chat_id {
            Some(chat) => chat,
            None => default_chat,
        },
        text: wire_line(age_seconds(alert.timestamp, now), alert.container_id, alert.message),
    }
}

/// The pause between two drains, as an action.
pub open spec fn pause() -> SenderActionView {
    SenderActionView::Sleep { millis: DISPATCH_PAUSE_MS }
}

/// The outcome of one step of the dispatcher.
pub struct SenderStep {
    /// The drained alerts that are still to be sent.
    pub pending: Seq<AlertMessageView>,
    /// The shared queue after the step.
    pub queue: Seq<AlertMessageView>,
    /// What the caller does next.
    pub action: SenderActionView,
}

/// One step of the dispatcher. On `Wake` it drains the whole queue behind
/// what it still holds; on `Sent` it leaves the queue alone, whether the
/// message was delivered or not. Then it sends the oldest alert it holds, or
/// pauses where it holds none.
pub open spec fn sender_step(
    pending: Seq<AlertMessageView>,
    queue: Seq<AlertMessageView>,
    event: SenderEvent,
    default_chat: Seq<char>,
) -> SenderStep {
    let batch = match event {
        SenderEvent::Wake { .. } => pending + queue,
        SenderEvent::Sent { .. } => pending,
    };
    let queue_after = match event {
        SenderEvent::Wake { .. } => Seq::empty(),
        SenderEvent::Sent { .. } => queue,
    };
    if batch.len() > 0 {
        SenderStep {
            pending: batch.drop_first(),
            queue: queue_after,
            action: delivery(batch[0], event.now(), default_chat),
        }
    } else {
        SenderStep { pending: Seq::empty(), queue: queue_after, action: pause() }
    }
}

/// One step as the dispatcher met it: the event, and the shared queue as it
/// was at that moment.
pub struct Report {
    pub event: SenderEvent,
    pub queue: Seq<AlertMessageView>,
}

/// What a dispatcher that held `start` holds after the steps `reports`.
pub open spec fn outbox_after(
    start: Seq<AlertMessageView>,
    reports: Seq<Report>,
    default_chat: Seq<char>,
) -> Seq<AlertMessageView>
    decreases reports.len(),
{
    if reports.len() == 0 {
        start
    } else {
        sender_step(
            outbox_after(start, reports.drop_last(), default_chat),
            reports.last().queue,
            reports.last().event,
            default_chat,
        ).pending
    }
}

/// The outcome of step `i` of a dispatcher that held `start` before step 0.
pub open spec fn step_at(
    start: Seq<AlertMessageView>,
    reports: Seq<Report>,
    i: int,
    default_chat: Seq<char>,
) -> SenderStep {
    sender_step(
        outbox_after(start, reports.take(i), default_chat),
        reports[i].queue,
        reports[i].event,
        default_chat,
    )
}

/// Every drained alert goes out once, in the order drained, and a failed
/// delivery is dropped. A dispatcher that holds nothing wakes and drains
/// `batch`; every later step reports a delivery, successful or not, while
/// producers may have put anything in the queue. Then step `i` sends alert
/// `i` of the batch, the step after the last alert pauses, what is still held
/// is the rest of the batch, and no step after the drain touches the queue.
pub proof fn lemma_batch_is_sent_in_order(
    batch: Seq<AlertMessageView>,
    reports: Seq<Report>,
    default_chat: Seq<char>,
    i: int,
)
    requires
        reports.len() > 0,
        reports[0].event is Wake,
        reports[0].queue == batch,
        forall|j: int| 1 <= j < reports.len() ==> (#[trigger] reports[j]).event is Sent,
        0 <= i < reports.len(),
    ensures
        step_at(Seq::empty(), reports, i, default_chat).action == if i < batch.len() {
            delivery(batch[i], reports[i].event.now(), default_chat)
        } else {
            pause()
        },
        step_at(Seq::empty(), reports, i, default_chat).pending == if i < batch.len() {
            batch.skip(i + 1)
        } else {
            Seq::empty()
        },
        i >= 1 ==> step_at(Seq::empty(), reports, i, default_chat).queue == reports[i].queue,
    decreases i,
{
    if i > 0 {
        lemma_batch_is_sent_in_order(batch, reports, default_chat, i - 1);
        assert(reports.take(i).drop_last() =~= reports.take(i - 1));
    }
}

/// The dispatcher.
pub struct Sender {
    default_chat: String,
    outbox: VecDeque<AlertMessage>,
}

impl Sender {
    /// The chat for alerts that name none.
    pub closed spec fn default_chat(&self) -> Seq<char> {
        self.default_chat@
    }

    /// The drained alerts that are still to be sent, oldest first.
    pub closed spec fn pending(&self) -> Seq<AlertMessageView> {
        views(self.outbox@)
    }

    /// A dispatcher that holds nothing and defaults to the admin chat.
    pub fn new(admin_chat_id: i32) -> (sender: Sender)
        ensures
            sender.default_chat() == signed_decimal(admin_chat_id as int),
            sender.pending() == Seq::<AlertMessageView>::empty(),
    {
        Sender { default_chat: i64_to_string(admin_chat_id as i64), outbox: VecDeque::new() }
    }

    /// The number of drained alerts that are still to be sent.
    pub fn pending_len(&self) -> (n: usize)
        ensures
            n == self.pending().len(),
    {
        self.outbox.len()
    }
}

impl Runnable<AppContainer> for Sender {
    type Event = SenderEvent;

    type Action = SenderAction;

    /// One step of the dispatcher, as `sender_step` says. The health table
    /// and the activity counter are not touched.
    fn run(&mut self, container: &mut AppContainer, event: SenderEvent) -> (action: SenderAction)
        ensures
            (SenderStep {
                pending: final(self).pending(),
                queue: final(container).alert_queue@,
                action: action@,
            }) == sender_step(
                old(self).pending(),
                old(container).alert_queue@,
                event,
                old(self).default_chat(),
            ),
            final(self).default_chat() == old(self).default_chat(),
            final(container).container_states@ == old(container).container_states@,
            final(container).counter == old(container).counter,
    {
        let now = match event {
            SenderEvent::Wake { now } => {
                let mut drained = container.alert_queue.drain_all();
                self.outbox.append(&mut drained);
                assert(views(self.outbox@) =~= old(self).pending() + old(container).alert_queue@);
                now
            },
            SenderEvent::Sent { delivered: _, now } => now,
        };
        let ghost batch = self.pending();
        match self.outbox.pop_front() {
            Some(alert) => {
                assert(views(self.outbox@) =~= batch.drop_first());
                let text = alert.format(now);
                let chat_id = match alert.chat_id {
                    Some(chat) => chat,
                    None => self.default_chat.clone(),
                };
                SenderAction::Send { chat_id, text }
            },
            None => {
                assert(views(self.outbox@) =~= Seq::<AlertMessageView>::empty());
                SenderAction::Sleep { millis: DISPATCH_PAUSE_MS }
            },
        }
    }
}

} // verus!
