//! Failures of the notification system.
use vstd::prelude::*;

verus! {

/// Why a notification failed.
#[derive(Debug)]
pub enum NotificationError {
    /// Nobody could receive it.
    SendError(String),
    /// The WebSocket failed.
    WebSocketError(String),
    /// It could not be serialized.
    SerializationError(String),
    /// The operation timed out.
    Timeout,
    /// The topic is not valid.
    InvalidTopic(String),
}

impl NotificationError {
    /// The text that `message` returns.
    pub open spec fn spec_message(self) -> Seq<char> {
        match self {
            NotificationError::SendError(detail) => "Failed to send notification: "@ + detail@,
            NotificationError::WebSocketError(detail) => "WebSocket error: "@ + detail@,
            NotificationError::SerializationError(detail) => "Serialization error: "@ + detail@,
            NotificationError::Timeout => "Operation timed out"@,
            NotificationError::InvalidTopic(detail) => "Invalid topic: "@ + detail@,
        }
    }

    /// The failure in words.
    pub fn message(&self) -> (text: String)
        ensures
            text@ == self.spec_message(),
    {
        match self {
            NotificationError::SendError(detail) => {
                "Failed to send notification: ".to_owned().concat(detail.as_str())
            },
            NotificationError::WebSocketError(detail) => {
                "WebSocket error: ".to_owned().concat(detail.as_str())
            },
            NotificationError::SerializationError(detail) => {
                "Serialization error: ".to_owned().concat(detail.as_str())
            },
            NotificationError::Timeout => "Operation timed out".to_owned(),
            NotificationError::InvalidTopic(detail) => {
                "Invalid topic: ".to_owned().concat(detail.as_str())
            },
        }
    }

    /// The failure to send an event, shown as `event`, that nobody is subscribed to.
    pub fn no_subscribers(event: &str) -> (error: Self)
        ensures
            error is SendError,
            error->SendError_0@ == "No active subscribers for event: "@ + event@,
    {
        NotificationError::SendError("No active subscribers for event: ".to_owned().concat(event))
    }
}

} // verus!
