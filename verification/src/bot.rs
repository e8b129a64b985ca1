//! The inbound listener: lets the operator put a note into the alert queue.

use crate::alert::{AlertMessage, AlertMessageView};
use crate::runnable::Runnable;
use crate::state::AppContainer;
use crate::text::{i64_to_string, signed_decimal};
use vstd::prelude::*;

verus! {

/// The name that stands in an operator's note where a container id would be.
pub open spec fn bot_source() -> Seq<char> {
    "telegram_bot"@
}

/// A message that arrived on the chat channel.
#[derive(Debug, PartialEq, Eq)]
pub struct InboundMessage {
    /// The chat that the message came from.
    pub chat_id: i64,
    /// Its text; `None` for a picture, a sticker and the like.
    pub text: Option<String>,
}

/// What the caller reports to the listener: one message and its arrival time
/// on the monotonic clock, in milliseconds.
pub struct BotEvent {
    pub message: InboundMessage,
    pub now: u64,
}

/// What became of an inbound message. The caller logs it; the sender is told
/// nothing in any case.
#[derive(Clone, Copy, Debug, PartialEq, Eq, Structural)]
pub enum Verdict {
    /// The text was queued as an alert.
    Queued,
    /// The message came from another chat than the admin's and was discarded.
    Unauthorized,
    /// The message carried no text and was discarded.
    NotText,
}

/// The inbound listener.
pub struct TelegramBot {
    /// The only chat whose messages are accepted.
    pub admin_chat_id: i32,
}

impl TelegramBot {
    /// Whether a message from `chat_id` is accepted.
    pub open spec fn authorizes(&self, chat_id: i64) -> bool {
        chat_id == self.admin_chat_id
    }

    /// The alert that carries the operator's note `text`, word for word.
    pub open spec fn note(chat_id: i64, text: Seq<char>, now: u64) -> AlertMessageView {
        AlertMessageView {
            container_id: bot_source(),
            message: text,
            timestamp: now,
            chat_id: Some(signed_decimal(chat_id as int)),
        }
    }

    /// A listener that accepts messages from the admin chat only.
    pub fn new(admin_chat_id: i32) -> (bot: TelegramBot)
        ensures
            bot.admin_chat_id == admin_chat_id,
    {
        TelegramBot { admin_chat_id }
    }
}

impl Runnable<AppContainer> for TelegramBot {
    type Event = BotEvent;

    type Action = Verdict;

    /// Handles one inbound message. A text from the admin chat goes to the
    /// back of the alert queue and counts as activity. Any other message
    /// changes nothing: one from another chat is unauthorized whatever it
    /// carries, one from the admin chat without text is not text.
    fn run(&mut self, container: &mut AppContainer, event: BotEvent) -> (verdict: Verdict)
        ensures
            final(self).admin_chat_id == old(self).admin_chat_id,
            final(container).container_states@ == old(container).container_states@,
            verdict == if !old(self).authorizes(event.message.chat_id) {
                Verdict::Unauthorized
            } else if event.message.text is None {
                Verdict::NotText
            } else {
                Verdict::Queued
            },
            verdict == Verdict::Queued ==> {
                &&& final(container).alert_queue@ == old(container).alert_queue@.push(
                    TelegramBot::note(
                        event.message.chat_id,
                        event.message.text->0@,
                        event.now,
                    ),
                )
                &&& final(container).counter == if old(container).counter == u32::MAX {
                    0u32
                } else {
                    (old(container).counter + 1) as u32
                }
            },
            verdict != Verdict::Queued ==> {
                &&& final(container).alert_queue@ == old(container).alert_queue@
                &&& final(container).counter == old(container).counter
            },
    {
        let chat_id = event.message.chat_id;
        if chat_id != self.admin_chat_id as i64 {
            return Verdict::Unauthorized;
        }
        match event.message.text {
            Some(text) => {
                container.counter = if container.counter == u32::MAX {
                    0
                } else {
                    container.counter + 1
                };
                container.alert_queue.enqueue(
                    AlertMessage {
                        container_id: String::from_str("telegram_bot"),
                        message: text,
                        timestamp: event.now,
                        chat_id: Some(i64_to_string(chat_id)),
                    },
                );
                Verdict::Queued
            },
            None => Verdict::NotText,
        }
    }
}

} // verus!
