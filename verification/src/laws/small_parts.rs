//! Laws of the documents themselves, of failures, clocks, channels and connections.
use crate::channel::Channel;
use crate::clock::timestamp_after;
use crate::models::{DocumentEvent, Error, SearchDocument};
use crate::notifications::config::NotificationConfig;
use crate::notifications::error::NotificationError;
use crate::notifications::socket::{
    on_channel_item, on_client_message, on_serialized, on_write, ChannelItem, ClientMessage,
    ForwardStep, ReadStep, WriteOutcome,
};
use std::time::Duration;
use vstd::prelude::*;

verus! {

/// What specifications see of a document is all of it, and of an event what it is about. A
/// clone has the same contents.
pub proof fn law_nothing_of_a_document_is_hidden(
    doc: SearchDocument,
    copy: SearchDocument,
    event: DocumentEvent,
    event_copy: DocumentEvent,
)
    requires
        call_ensures(<SearchDocument as Clone>::clone, (&doc,), copy),
        call_ensures(<DocumentEvent as Clone>::clone, (&event,), event_copy),
    ensures
        doc@.id == doc.id && doc@.title == doc.title@ && doc@.body == doc.body@,
        copy.id == doc.id && copy.title@ == doc.title@ && copy.body@ == doc.body@,
        event matches DocumentEvent::Created(d) ==> event@ == (
            crate::models::DocumentEventView::Created(d@)),
        event matches DocumentEvent::Updated(d) ==> event@ == (
            crate::models::DocumentEventView::Updated(d@)),
        event matches DocumentEvent::Deleted(id) ==> event@ == (
            crate::models::DocumentEventView::Deleted(id)),
        event_copy == event,
{
}

/// A failure of a storage or an index is told in its own words.
pub proof fn law_failures_keep_their_words(error: Error, text: String)
    requires
        call_ensures(Error::message, (&error,), text),
    ensures
        error == Error::DocumentNotFound ==> text@ == "Document not found"@,
        error matches Error::Storage(report) ==> text@ == report@,
        error matches Error::Index(report) ==> text@ == report@,
{
}

/// A failed notification is told by what failed, and then in the words of the detail, whole
/// and unchanged. An event without subscribers is shown behind a fixed text.
pub proof fn law_failed_notifications_keep_their_detail(
    error: NotificationError,
    text: String,
    event: &str,
    unheard: NotificationError,
)
    requires
        call_ensures(NotificationError::message, (&error,), text),
        call_ensures(NotificationError::no_subscribers, (event,), unheard),
    ensures
        error matches NotificationError::SendError(detail) ==> text@
            == "Failed to send notification: "@ + detail@,
        error matches NotificationError::WebSocketError(detail) ==> text@ == "WebSocket error: "@
            + detail@,
        error matches NotificationError::SerializationError(detail) ==> text@
            == "Serialization error: "@ + detail@,
        error matches NotificationError::InvalidTopic(detail) ==> text@ == "Invalid topic: "@
            + detail@,
        error is Timeout ==> text@ == "Operation timed out"@,
        unheard matches NotificationError::SendError(detail) && detail@
            == "No active subscribers for event: "@ + event@,
{
}

/// A timestamp is the whole seconds since the start of 1970, or 0 before it.
pub proof fn law_timestamps_are_whole_seconds(elapsed: Option<Duration>, timestamp: u64)
    requires
        call_ensures(timestamp_after, (elapsed,), timestamp),
    ensures
        elapsed matches Some(duration) ==> timestamp == crate::clock::whole_seconds(duration),
        elapsed is None ==> timestamp == 0,
{
}

/// A channel begins with nothing handed to it. What is sent goes behind all that was sent
/// before, whether there is a receiver or not; without one it is given back.
pub proof fn law_what_is_sent_is_on_record<T: Clone>(
    capacity: usize,
    new: Channel<T>,
    before: Channel<T>,
    value: T,
    sent: Result<usize, T>,
    after: Channel<T>,
)
    requires
        call_ensures(Channel::<T>::new, (capacity,), new),
        exists|c: &mut Channel<T>|
            *c == before && *final(c) == after && #[trigger] call_ensures(
                Channel::<T>::send,
                (c, value),
                sent,
            ),
    ensures
        new.deliveries().len() == 0,
        crate::channel::opened(capacity, new.endpoint()),
        after.deliveries().len() == before.deliveries().len() + 1,
        after.deliveries().take(before.deliveries().len() as int) == before.deliveries(),
        after.deliveries().last().value == value,
        sent matches Ok(receivers) ==> receivers > 0 && after.deliveries().last().receivers
            == receivers,
        sent matches Err(refused) ==> refused == value && after.deliveries().last().receivers == 0,
        crate::channel::handed(before.endpoint(), value, sent),
        after.endpoint() == before.endpoint(),
{
    assert(after.deliveries().take(before.deliveries().len() as int) =~= before.deliveries());
}

/// A connection forwards each event that it is given: it serializes it, writes it where that
/// worked, and waits for the next. Only a channel without an event to give, or a write that
/// timed out, ends the forwarding.
pub proof fn law_each_event_is_forwarded(
    item: ChannelItem,
    after_item: ForwardStep,
    serialized: bool,
    after_serializing: ForwardStep,
    outcome: WriteOutcome,
    after_write: ForwardStep,
)
    requires
        call_ensures(on_channel_item, (item,), after_item),
        call_ensures(on_serialized, (serialized,), after_serializing),
        call_ensures(on_write, (outcome,), after_write),
    ensures
        item == ChannelItem::Event ==> after_item == ForwardStep::Serialize,
        item == ChannelItem::Lagged || item == ChannelItem::Closed ==> after_item
            == ForwardStep::Stop,
        serialized ==> after_serializing == ForwardStep::Write,
        !serialized ==> after_serializing == ForwardStep::AwaitEvent,
        outcome == WriteOutcome::Written || outcome == WriteOutcome::Failed ==> after_write
            == ForwardStep::AwaitEvent,
        outcome == WriteOutcome::TimedOut ==> after_write == ForwardStep::Stop,
{
}

/// A connection reads on for as long as there are messages that it can read and that do not
/// ask it to close.
pub proof fn law_reading_goes_on_until_the_client_is_gone(message: ClientMessage, step: ReadStep)
    requires
        call_ensures(on_client_message, (message,), step),
    ensures
        message == ClientMessage::Ping || message == ClientMessage::Other ==> step
            == ReadStep::AwaitMessage,
        message == ClientMessage::Close || message == ClientMessage::Unreadable || message
            == ClientMessage::Ended ==> step == ReadStep::Stop,
{
}

/// A clone of a configuration is set up in the same way.
pub proof fn law_configurations_clone_truly(config: NotificationConfig, copy: NotificationConfig)
    requires
        call_ensures(<NotificationConfig as Clone>::clone, (&config,), copy),
    ensures
        copy.channel_size == config.channel_size,
        copy.ws_timeout == config.ws_timeout,
        copy.history_size == config.history_size,
{
}

} // verus!
