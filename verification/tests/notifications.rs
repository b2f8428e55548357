use full_text_search::notifications::{
    Event, EventPayload, NotificationConfig, NotificationError, NotificationHub, NotificationStats,
    Priority, Subscription, SubscriptionFilter,
};
use std::time::Duration;
use tokio::sync::broadcast::error::TryRecvError;

#[derive(Clone, Debug, PartialEq)]
struct InventoryItem {
    id: i32,
    name: String,
    description: String,
    sku: String,
    quantity: i32,
    price_cents: i64,
    category: String,
}

fn create_test_item(id: i32) -> InventoryItem {
    InventoryItem {
        id,
        name: format!("Test Item {}", id),
        description: "Test Description".to_string(),
        sku: format!("SKU{}", id),
        quantity: 10,
        price_cents: 1000, // $10.00
        category: "Test Category".to_string(),
    }
}

#[test]
fn test_notification_hub_creation() {
    let hub: NotificationHub<InventoryItem> = NotificationHub::new();
    assert_eq!(hub.subscriber_count(), 0);

    let stats = hub.get_stats();
    assert_eq!(stats.messages_sent, 0);
    assert_eq!(stats.messages_dropped, 0);
    assert_eq!(stats.active_subscribers, 0);
    assert!(stats.last_broadcast.is_none());
}

#[test]
fn test_custom_config() {
    let config = NotificationConfig {
        channel_size: 50,
        ws_timeout: Duration::from_secs(5),
        history_size: 50,
    };
    let hub: NotificationHub<InventoryItem> = NotificationHub::with_config(config);
    assert_eq!(hub.subscriber_count(), 0);
}

#[test]
fn test_event_broadcasting() {
    let mut hub = NotificationHub::new();
    let mut receiver1 = hub.subscribe();
    let mut receiver2 = hub.subscribe();

    assert_eq!(hub.subscriber_count(), 2);

    // Test Created event
    let item = create_test_item(1);
    hub.broadcast(Event::new(EventPayload::Created(item.clone()))).unwrap();

    let result1 = receiver1.try_recv();
    assert!(result1.is_ok(), "Receiver 1 timed out");
    if let Ok(Event { payload: EventPayload::Created(received_item), .. }) = result1 {
        assert_eq!(received_item.id, 1);
        assert_eq!(received_item.name, "Test Item 1");
    } else {
        panic!("Failed to receive Created event on receiver 1");
    }

    let result2 = receiver2.try_recv();
    assert!(result2.is_ok(), "Receiver 2 timed out");
    if let Ok(Event { payload: EventPayload::Created(received_item), .. }) = result2 {
        assert_eq!(received_item.id, 1);
        assert_eq!(received_item.name, "Test Item 1");
    } else {
        panic!("Failed to receive Created event on receiver 2");
    }

    // Verify stats
    let stats = hub.get_stats();
    assert_eq!(stats.messages_sent, 1);
    assert_eq!(stats.messages_dropped, 0);
    assert_eq!(stats.active_subscribers, 2);
    assert!(stats.last_broadcast.is_some());
}

#[test]
fn test_multiple_events() {
    let mut hub = NotificationHub::new();
    let mut receiver = hub.subscribe();

    // Send multiple events
    let item1 = create_test_item(1);
    let item2 = create_test_item(2);

    // Test all event types
    let events = vec![
        Event::new(EventPayload::Created(item1.clone())),
        Event::new(EventPayload::Updated(item2.clone())),
        Event::new(EventPayload::Deleted(1)),
        Event::new(EventPayload::Custom {
            event_type: "test".to_string(),
            payload: item1.clone(),
        }),
    ];

    for event in events.clone() {
        hub.broadcast(event).unwrap();
    }

    // Verify events are received in order
    for expected_event in events {
        let result = receiver.try_recv();
        assert!(result.is_ok(), "Receiver timed out");
        if let Ok(received_event) = result {
            assert_eq!(received_event, expected_event);
        } else {
            panic!("Failed to receive expected event");
        }
    }

    // Verify stats
    let stats = hub.get_stats();
    assert_eq!(stats.messages_sent, 4);
    assert_eq!(stats.messages_dropped, 0);
}

#[test]
fn test_receiver_after_sender_dropped() {
    let mut hub = NotificationHub::new();
    let sender = hub.sender();
    let mut receiver = hub.subscribe();

    // Create a test event before dropping the sender
    let item = create_test_item(1);
    hub.broadcast(Event::new(EventPayload::Created(item.clone()))).unwrap();

    // First receive the message
    match receiver.try_recv() {
        Ok(event) => {
            if let Event { payload: EventPayload::Created(received_item), .. } = event {
                assert_eq!(received_item.id, item.id);
            } else {
                panic!("Expected Created event");
            }
        }
        Err(_) => panic!("Expected to receive the message"),
    }

    // Drop the original sender
    drop(sender);

    // Now the channel should be closed or empty
    match receiver.try_recv() {
        Err(TryRecvError::Closed) | Err(TryRecvError::Empty) => (), // Expected
        _ => panic!("Expected channel to be closed or empty"),
    }
}

#[test]
fn test_late_subscriber() {
    let mut hub = NotificationHub::new();

    // Create a subscriber to keep the channel alive
    let _keep_alive = hub.subscribe();

    // Send an event before subscribing
    let item1 = create_test_item(1);
    hub.broadcast(Event::new(EventPayload::Created(item1))).unwrap();

    // Subscribe after the event
    let mut late_receiver = hub.subscribe();

    // Late subscriber should not receive the earlier event
    let item2 = create_test_item(2);
    let expected_event = Event::new(EventPayload::Created(item2.clone()));
    hub.broadcast(expected_event.clone()).unwrap();

    let result = late_receiver.try_recv();
    assert!(result.is_ok(), "Receiver timed out");
    if let Ok(received_event) = result {
        assert_eq!(received_event, expected_event);
    } else {
        panic!("Failed to receive expected event");
    }

    // Verify stats
    let stats = hub.get_stats();
    assert_eq!(stats.messages_sent, 2);
    assert_eq!(stats.messages_dropped, 0);
    assert_eq!(stats.active_subscribers, 2);
}

#[test]
fn test_broadcast_error() {
    let mut hub = NotificationHub::<InventoryItem>::new();
    let item = create_test_item(1);

    // No subscribers, should return error
    let result = hub.broadcast(Event::new(EventPayload::Created(item)));
    assert!(matches!(result, Err(NotificationError::SendError(_))));

    // Verify stats
    let stats = hub.get_stats();
    assert_eq!(stats.messages_sent, 0);
    assert_eq!(stats.messages_dropped, 1);
    assert_eq!(stats.active_subscribers, 0);
}

// Test with a different type to demonstrate generics
#[derive(Clone, Debug, PartialEq)]
struct TestUser {
    id: i32,
    name: String,
}

#[test]
fn test_different_type() {
    let mut hub: NotificationHub<TestUser> = NotificationHub::new();
    let mut receiver = hub.subscribe();

    let user = TestUser { id: 1, name: "Test User".to_string() };

    hub.broadcast(Event::new(EventPayload::Created(user.clone()))).unwrap();

    let result = receiver.try_recv();

    assert!(result.is_ok(), "Receiver timed out");
    if let Ok(Event { payload: EventPayload::Created(received_user), .. }) = result {
        assert_eq!(received_user.id, user.id);
        assert_eq!(received_user.name, user.name);
    } else {
        panic!("Failed to receive Created event");
    }

    // Test custom event
    let custom_event = Event::new(EventPayload::Custom {
        event_type: "login".to_string(),
        payload: user.clone(),
    });
    hub.broadcast(custom_event.clone()).unwrap();

    let result = receiver.try_recv();
    assert!(result.is_ok(), "Receiver timed out");
    if let Ok(received_event) = result {
        assert_eq!(received_event, custom_event);
    } else {
        panic!("Failed to receive Custom event");
    }
}

fn created(n: i32) -> Event<i32> {
    Event::at(EventPayload::Created(n), 5)
}

fn small_hub(history_size: usize) -> NotificationHub<i32> {
    NotificationHub::with_config(NotificationConfig {
        channel_size: 16,
        ws_timeout: Duration::from_secs(1),
        history_size,
    })
}

#[test]
fn a_refused_event_is_described_and_remembered() {
    let mut hub = small_hub(3);
    match hub.broadcast(created(7)) {
        Err(NotificationError::SendError(text)) => {
            assert_eq!(text, format!("No active subscribers for event: {:?}", created(7)));
        }
        _ => panic!("Expected a refusal"),
    }
    assert_eq!(hub.get_history(), vec![created(7)]);
    assert!(hub.get_stats().last_broadcast.is_none());
}

#[test]
fn the_history_holds_the_last_events() {
    let mut hub = small_hub(3);
    let _receiver = hub.subscribe();
    for n in 1..=5 {
        hub.broadcast(created(n)).unwrap();
    }
    assert_eq!(hub.get_history(), vec![created(3), created(4), created(5)]);
}

#[test]
fn a_history_of_size_zero_stays_empty() {
    let mut hub = small_hub(0);
    let _receiver = hub.subscribe();
    assert_eq!(hub.get_history(), vec![]);
    hub.broadcast(created(1)).unwrap();
    hub.broadcast(created(2)).unwrap();
    assert_eq!(hub.get_history(), vec![]);
}

/// The next event that a subscriber gets, if there is one.
fn next_event(subscription: &mut Subscription<i32>) -> Option<Event<i32>> {
    if let Some(event) = subscription.take_remembered() {
        return Some(event);
    }
    while let Ok(event) = subscription.receiver.try_recv() {
        let wanted = subscription.wants(&event);
        let kept = subscription.receive(event);
        assert_eq!(kept.is_some(), wanted);
        if kept.is_some() {
            return kept;
        }
    }
    None
}

#[test]
fn a_new_filtered_subscriber_gets_the_remembered_events_it_wants() {
    let mut hub = small_hub(10);
    let mut early = hub.subscribe();
    let urgent = created(2).with_topic("news").with_priority(Priority::Critical);
    hub.broadcast(created(1)).unwrap();
    hub.broadcast(urgent.clone()).unwrap();
    hub.broadcast(created(3).with_topic("sport").with_priority(Priority::High)).unwrap();
    for _ in 0..3 {
        early.try_recv().unwrap();
    }

    let filter = SubscriptionFilter::new()
        .with_topics(vec!["news".to_string(), "weather".to_string(), "news".to_string()])
        .with_min_priority(Priority::High);
    let mut late = hub.subscribe_with_filter(filter);

    // Nobody else gets them again.
    assert_eq!(early.try_recv(), Err(TryRecvError::Empty));
    assert_eq!(next_event(&mut late), Some(urgent));
    assert_eq!(next_event(&mut late), None);

    // What comes later is filtered, too.
    let storm = created(5).with_topic("weather").with_priority(Priority::High);
    hub.broadcast(created(4).with_topic("weather")).unwrap();
    hub.broadcast(storm.clone()).unwrap();
    hub.broadcast(created(6)).unwrap();
    assert_eq!(next_event(&mut late), Some(storm));
    assert_eq!(next_event(&mut late), None);

    // A topic that is listed twice has one subscriber all the same.
    assert_eq!(hub.topic_subscriber_count("news"), 1);
    assert_eq!(hub.topic_subscriber_count("weather"), 1);
    assert_eq!(hub.topic_subscriber_count("sport"), 0);
    let _other =
        hub.subscribe_with_filter(SubscriptionFilter::new().with_topics(vec!["news".to_string()]));
    assert_eq!(hub.topic_subscriber_count("news"), 2);
    assert_eq!(hub.topic_subscriber_count("weather"), 1);
    let stats = hub.get_stats();
    assert_eq!(stats.active_subscribers, 3);
    assert_eq!(stats.messages_sent, 6);
    assert_eq!(hub.get_history().len(), 6);
    assert_eq!(hub.subscriber_count(), 3);
}

#[test]
fn a_subscriber_without_wishes_gets_the_whole_history() {
    let mut hub = small_hub(10);
    let mut early = hub.subscribe();
    for n in 1..=3 {
        hub.broadcast(created(n)).unwrap();
    }
    for _ in 0..3 {
        early.try_recv().unwrap();
    }
    let mut late = hub.subscribe_with_filter(SubscriptionFilter::default());
    assert_eq!(early.try_recv(), Err(TryRecvError::Empty));
    hub.broadcast(created(4)).unwrap();
    for n in 1..=4 {
        assert_eq!(next_event(&mut late), Some(created(n)));
    }
    assert_eq!(next_event(&mut late), None);
    assert_eq!(hub.topic_subscriber_count(""), 0);
}

#[test]
fn a_batch_is_one_event_and_an_empty_batch_is_none() {
    let mut hub = small_hub(10);
    assert!(hub.broadcast_batch(vec![]).is_ok());
    assert_eq!(hub.get_history(), vec![]);
    assert!(hub.broadcast_batch(vec![1]).is_err());
    let mut receiver = hub.subscribe();
    hub.broadcast_batch(vec![1, 2, 3]).unwrap();
    let event = receiver.try_recv().unwrap();
    assert_eq!(event.payload, EventPayload::Batch(vec![1, 2, 3]));
    assert_eq!(event.topic, None);
    assert_eq!(event.priority, Priority::Normal);
    assert!(receiver.try_recv().is_err());
}

#[test]
fn what_another_sender_sends_passes_the_hub_by() {
    let mut hub = small_hub(10);
    let mut receiver = hub.subscribe();
    let sender = hub.sender();
    assert_eq!(sender.send(created(9)).unwrap(), 1);
    assert_eq!(receiver.try_recv().unwrap(), created(9));
    assert_eq!(hub.get_history(), vec![]);
    assert_eq!(hub.get_stats().messages_sent, 0);
}

#[test]
fn a_receiver_that_lags_loses_the_oldest_events() {
    let mut hub: NotificationHub<i32> = NotificationHub::with_config(NotificationConfig {
        channel_size: 2,
        ws_timeout: Duration::from_secs(1),
        history_size: 1,
    });
    let mut receiver = hub.subscribe();
    for n in 1..=5 {
        hub.broadcast(created(n)).unwrap();
    }
    assert_eq!(receiver.try_recv(), Err(TryRecvError::Lagged(3)));
    assert_eq!(receiver.try_recv().unwrap(), created(4));
}

#[test]
fn subscribers_are_counted_by_the_channel_while_they_live() {
    let mut hub = small_hub(1);
    let first = hub.subscribe();
    let second = hub.subscribe();
    assert_eq!(hub.subscriber_count(), 2);
    drop(first);
    assert_eq!(hub.subscriber_count(), 1);
    drop(second);
    assert_eq!(hub.subscriber_count(), 0);
    assert_eq!(hub.get_stats().active_subscribers, 2);
}

#[test]
fn default_configuration() {
    let config = NotificationConfig::default();
    assert_eq!(config.channel_size, 1024);
    assert_eq!(config.ws_timeout, Duration::from_secs(30));
    assert_eq!(config.history_size, 100);
    let copy = config.clone();
    assert_eq!((copy.channel_size, copy.ws_timeout, copy.history_size), (1024, config.ws_timeout, 100));

    let mut hub: NotificationHub<i32> = NotificationHub::default();
    let _receiver = hub.subscribe();
    for n in 0..150 {
        hub.broadcast(created(n)).unwrap();
    }
    let history = hub.get_history();
    assert_eq!(history.len(), 100);
    assert_eq!(history[0], created(50));
    assert_eq!(history[99], created(149));
}

#[test]
fn statistics_wrap_around() {
    let mut stats = NotificationStats::new();
    stats.record_subscriber_removed();
    assert_eq!(stats.active_subscribers, u64::MAX);
    stats.record_subscriber_added();
    assert_eq!(stats.active_subscribers, 0);
    stats.messages_sent = u64::MAX;
    stats.record_message_sent();
    assert_eq!(stats.messages_sent, 0);
    stats.messages_dropped = u64::MAX;
    stats.record_message_dropped();
    assert_eq!(stats.messages_dropped, 0);
    assert!(stats.last_broadcast.is_none());
    stats.update_last_broadcast();
    assert!(stats.last_broadcast.is_some());
}
