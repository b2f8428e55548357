use full_text_search::clock::timestamp_after;
use full_text_search::notifications::socket::{
    on_channel_item, on_client_message, on_serialized, on_write, ChannelItem, ClientMessage,
    ForwardStep, ReadStep, WriteOutcome,
};
use full_text_search::notifications::{
    Event, EventPayload, NotificationError, Priority, SubscriptionFilter,
};
use std::time::{Duration, SystemTime, UNIX_EPOCH};

#[test]
fn priorities_are_ordered() {
    assert!(Priority::Low < Priority::Normal);
    assert!(Priority::Normal < Priority::High);
    assert!(Priority::High < Priority::Critical);
    assert!(Priority::Critical >= Priority::Critical);
    assert_eq!(Priority::default(), Priority::Normal);
    assert_eq!(Priority::High.max(Priority::Low), Priority::High);
    assert_eq!(Priority::Critical.level(), 3);
}

#[test]
fn a_new_event_is_stamped_with_the_time() {
    let before = SystemTime::now().duration_since(UNIX_EPOCH).unwrap().as_secs();
    let event = Event::new(EventPayload::<i32>::Deleted(4));
    let after = SystemTime::now().duration_since(UNIX_EPOCH).unwrap().as_secs();
    assert!(before <= event.timestamp && event.timestamp <= after);
    assert_eq!(event.payload, EventPayload::Deleted(4));
    assert_eq!(event.topic, None);
    assert_eq!(event.priority, Priority::Normal);
}

#[test]
fn timestamps_count_whole_seconds() {
    assert_eq!(timestamp_after(Some(Duration::from_secs(77))), 77);
    assert_eq!(timestamp_after(Some(Duration::from_millis(2999))), 2);
    assert_eq!(timestamp_after(None), 0);
}

#[test]
fn builders_change_one_thing() {
    let event = Event::at(EventPayload::Updated(1), 17)
        .with_topic("a")
        .with_priority(Priority::Low)
        .with_topic("b".to_string());
    assert_eq!(event.topic, Some("b".to_string()));
    assert_eq!(event.priority, Priority::Low);
    assert_eq!(event.timestamp, 17);
    assert_eq!(event.payload, EventPayload::Updated(1));
}

#[test]
fn clones_carry_the_same_things() {
    let payloads = vec![
        EventPayload::Created(1),
        EventPayload::Updated(2),
        EventPayload::Deleted(3),
        EventPayload::Custom { event_type: "kind".to_string(), payload: 4 },
        EventPayload::Batch(vec![5, 6]),
    ];
    for payload in payloads {
        let event = Event::at(payload.clone(), 8).with_topic("t");
        assert_eq!(event.payload, payload);
        assert_eq!(event.clone(), event);
    }
}

fn event(topic: Option<&str>, priority: Priority) -> Event<i32> {
    let event = Event::at(EventPayload::Created(1), 0).with_priority(priority);
    match topic {
        Some(topic) => event.with_topic(topic),
        None => event,
    }
}

#[test]
fn a_new_filter_picks_everything() {
    let filter = SubscriptionFilter::new();
    assert!(filter.matches(&event(None, Priority::Low)));
    assert!(filter.matches(&event(Some("x"), Priority::Critical)));
}

#[test]
fn a_filter_picks_by_priority_and_topic() {
    let filter = SubscriptionFilter::new()
        .with_min_priority(Priority::Normal)
        .with_topics(vec!["a".to_string(), "b".to_string()]);
    assert!(filter.matches(&event(Some("b"), Priority::Normal)));
    assert!(filter.matches(&event(Some("a"), Priority::Critical)));
    assert!(!filter.matches(&event(Some("b"), Priority::Low)));
    assert!(!filter.matches(&event(Some("c"), Priority::High)));
    assert!(!filter.matches(&event(None, Priority::High)));
    let copy = filter.clone();
    assert_eq!(copy.topics, filter.topics);
    assert_eq!(copy.min_priority, Priority::Normal);
    let none = SubscriptionFilter::new().with_topics(vec![]);
    assert!(!none.matches(&event(Some("a"), Priority::High)));
    assert!(!none.matches(&event(None, Priority::High)));
}

#[test]
fn notification_errors_say_what_failed() {
    assert_eq!(
        NotificationError::SendError("x".to_string()).message(),
        "Failed to send notification: x"
    );
    assert_eq!(NotificationError::WebSocketError("x".to_string()).message(), "WebSocket error: x");
    assert_eq!(
        NotificationError::SerializationError("x".to_string()).message(),
        "Serialization error: x"
    );
    assert_eq!(NotificationError::Timeout.message(), "Operation timed out");
    assert_eq!(NotificationError::InvalidTopic("x".to_string()).message(), "Invalid topic: x");
    match NotificationError::no_subscribers("E") {
        NotificationError::SendError(text) => {
            assert_eq!(text, "No active subscribers for event: E")
        }
        _ => panic!("Expected a send error"),
    }
}

#[test]
fn a_connection_forwards_until_the_channel_or_the_socket_gives_out() {
    assert_eq!(on_channel_item(ChannelItem::Event), ForwardStep::Serialize);
    assert_eq!(on_channel_item(ChannelItem::Lagged), ForwardStep::Stop);
    assert_eq!(on_channel_item(ChannelItem::Closed), ForwardStep::Stop);
    assert_eq!(on_serialized(true), ForwardStep::Write);
    assert_eq!(on_serialized(false), ForwardStep::AwaitEvent);
    assert_eq!(on_write(WriteOutcome::Written), ForwardStep::AwaitEvent);
    assert_eq!(on_write(WriteOutcome::Failed), ForwardStep::AwaitEvent);
    assert_eq!(on_write(WriteOutcome::TimedOut), ForwardStep::Stop);
}

#[test]
fn a_connection_reads_until_the_client_is_gone() {
    assert_eq!(on_client_message(ClientMessage::Ping), ReadStep::AwaitMessage);
    assert_eq!(on_client_message(ClientMessage::Other), ReadStep::AwaitMessage);
    assert_eq!(on_client_message(ClientMessage::Close), ReadStep::Stop);
    assert_eq!(on_client_message(ClientMessage::Unreadable), ReadStep::Stop);
    assert_eq!(on_client_message(ClientMessage::Ended), ReadStep::Stop);
}

/// Runs the forwarding half on items of a channel, some of them not serializable, and with a
/// socket that answers as told. Returns what the socket was handed.
fn forward(items: Vec<Option<i32>>, outcomes: Vec<WriteOutcome>) -> Vec<String> {
    let mut items = items.into_iter();
    let mut outcomes = outcomes.into_iter();
    let mut handed = Vec::new();
    let mut event = 0;
    let mut step = ForwardStep::AwaitEvent;
    loop {
        step = match step {
            ForwardStep::AwaitEvent => on_channel_item(match items.next() {
                Some(Some(next)) => {
                    event = next;
                    ChannelItem::Event
                }
                Some(None) => ChannelItem::Lagged,
                None => ChannelItem::Closed,
            }),
            ForwardStep::Serialize => on_serialized(event >= 0),
            ForwardStep::Write => {
                handed.push(event.to_string());
                on_write(outcomes.next().unwrap_or(WriteOutcome::Written))
            }
            ForwardStep::Stop => return handed,
        };
    }
}

#[test]
fn events_are_forwarded_in_order_until_a_stop() {
    assert_eq!(forward(vec![Some(1), Some(-2), Some(3)], vec![]), vec!["1", "3"]);
    assert_eq!(forward(vec![Some(1), None, Some(3)], vec![]), vec!["1"]);
    let outcomes = vec![WriteOutcome::Failed, WriteOutcome::TimedOut];
    assert_eq!(forward(vec![Some(1), Some(2), Some(3)], outcomes), vec!["1", "2"]);
}
