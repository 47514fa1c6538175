//! The notification record and the decoded message it is made from.

use vstd::prelude::*;

verus! {

/// An asynchronous notification.
#[derive(Debug)]
pub struct Notification {
    /// The process ID of the notifying backend process.
    pub process_id: i32,
    /// The name of the channel that the notify has been raised on.
    pub channel: String,
    /// The "payload" string passed from the notifying process.
    pub payload: String,
}

impl Clone for Notification {
    /// A copy with the same three fields.
    fn clone(&self) -> (copy: Notification)
        ensures
            copy == *self,
    {
        Notification {
            process_id: self.process_id,
            channel: self.channel.clone(),
            payload: self.payload.clone(),
        }
    }
}

/// A protocol message as the decoder hands it to the notification layer.
#[derive(Debug)]
pub enum Message {
    /// A notification pushed by the server.
    NotificationResponse { process_id: i32, channel: String, payload: String },
    /// A message of any other kind. The decoder consumes these itself, so one
    /// that reaches the notification layer shows a defect in the decoder.
    Other,
}

impl Message {
    /// The record that this message carries, if it is a notification.
    pub open spec fn notification(self) -> Option<Notification> {
        match self {
            Message::NotificationResponse { process_id, channel, payload } => Some(
                Notification { process_id, channel, payload },
            ),
            Message::Other => None,
        }
    }

    /// Whether this message is a notification.
    pub fn is_notification(&self) -> (b: bool)
        ensures
            b == self.notification().is_some(),
    {
        match self {
            Message::NotificationResponse { .. } => true,
            Message::Other => false,
        }
    }

    /// Turns a notification message into its record, field by field; any
    /// other message gives `None`.
    pub fn into_notification(self) -> (r: Option<Notification>)
        ensures
            r == self.notification(),
    {
        match self {
            Message::NotificationResponse { process_id, channel, payload } => Some(
                Notification { process_id: process_id, channel: channel, payload: payload },
            ),
            Message::Other => None,
        }
    }
}

} // verus!
