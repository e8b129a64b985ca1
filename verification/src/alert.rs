//! Alert events and their text.

use crate::health::AlertKind;
use crate::text::{decimal, is_digit, lemma_decimal_is_digits, push_decimal};
use vstd::prelude::*;

verus! {

/// One alert on its way to the chat channel.
#[derive(Debug, PartialEq, Eq)]
pub struct AlertMessage {
    /// The container that the alert is about, or the name of the producer
    /// where it is about none.
    pub container_id: String,
    /// The text for the reader.
    pub message: String,
    /// When the alert was raised, in milliseconds on the caller's monotonic
    /// clock. It gives the age at delivery and orders nothing.
    pub timestamp: u64,
    /// The chat to deliver to; the dispatcher's default where there is none.
    pub chat_id: Option<String>,
}

/// An alert as a mathematical value.
pub struct AlertMessageView {
    pub container_id: Seq<char>,
    pub message: Seq<char>,
    pub timestamp: u64,
    pub chat_id: Option<Seq<char>>,
}

impl View for AlertMessage {
    type V = AlertMessageView;

    open spec fn view(&self) -> AlertMessageView {
        AlertMessageView {
            container_id: self.container_id@,
            message: self.message@,
            timestamp: self.timestamp,
            chat_id: match self.chat_id {
                Some(chat) => Some(chat@),
                None => None,
            },
        }
    }
}

impl Clone for AlertMessage {
    fn clone(&self) -> (out: AlertMessage)
        ensures
            out@ == self@,
    {
        AlertMessage {
            container_id: self.container_id.clone(),
            message: self.message.clone(),
            timestamp: self.timestamp,
            chat_id: match &self.chat_id {
                Some(chat) => Some(chat.clone()),
                None => None,
            },
        }
    }
}

/// The text of a health alert about the container called `name`.
pub open spec fn alert_text(kind: AlertKind, name: Seq<char>) -> Seq<char> {
    match kind {
        AlertKind::Stopped => "Container "@ + name + " has stopped."@,
        AlertKind::BecameUnhealthy => "Container "@ + name + " just became unhealthy."@,
        AlertKind::StillUnhealthy => "Container "@ + name
            + " is STILL unhealthy after 30 minutes."@,
        AlertKind::Recovered => "Container "@ + name + " has recovered and is now healthy."@,
    }
}

/// Whole seconds from `created` to `now`, zero where `now` is earlier.
pub open spec fn age_seconds(created: u64, now: u64) -> nat {
    if now >= created {
        ((now - created) / 1000) as nat
    } else {
        0
    }
}

/// The line that is sent for an alert: the age in brackets, the container,
/// a colon and the text.
pub open spec fn wire_line(age: nat, container_id: Seq<char>, message: Seq<char>) -> Seq<char> {
    "["@ + decimal(age) + "] "@ + container_id + ": "@ + message
}

impl AlertKind {
    /// Writes the text of this alert for the container called `name`.
    pub fn message(self, name: &str) -> (text: String)
        ensures
            text@ == alert_text(self, name@),
    {
        let mut text = String::from_str("Container ");
        text.append(name);
        match self {
            AlertKind::Stopped => text.append(" has stopped."),
            AlertKind::BecameUnhealthy => text.append(" just became unhealthy."),
            AlertKind::StillUnhealthy => text.append(" is STILL unhealthy after 30 minutes."),
            AlertKind::Recovered => text.append(" has recovered and is now healthy."),
        }
        text
    }
}

impl AlertMessage {
    /// The age of the alert at `now`, in whole seconds.
    pub fn age_secs(&self, now: u64) -> (age: u64)
        ensures
            age == age_seconds(self.timestamp, now),
    {
        if now >= self.timestamp {
            (now - self.timestamp) / 1000
        } else {
            0
        }
    }

    /// The line to send for this alert at `now`.
    pub fn format(&self, now: u64) -> (line: String)
        ensures
            line@ == wire_line(age_seconds(self.timestamp, now), self.container_id@, self.message@),
    {
        let mut line = String::from_str("[");
        push_decimal(&mut line, self.age_secs(now));
        line.append("] ");
        line.append(self.container_id.as_str());
        line.append(": ");
        line.append(self.message.as_str());
        line
    }
}

/// The line of an alert is a single line, as long as neither the container
/// id nor the text holds a line break.
pub proof fn lemma_wire_line_is_one_line(age: nat, container_id: Seq<char>, message: Seq<char>)
    requires
        !container_id.contains('\n'),
        !message.contains('\n'),
    ensures
        !wire_line(age, container_id, message).contains('\n'),
{
    reveal_strlit("[");
    reveal_strlit("] ");
    reveal_strlit(": ");
    lemma_decimal_is_digits(age);
    let line = wire_line(age, container_id, message);
    assert forall|i: int| 0 <= i < line.len() implies line[i] != '\n' by {}
}

} // verus!
