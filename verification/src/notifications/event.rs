//! Events and their priorities.
use crate::clock::unix_time;
use std::cmp::Ordering;
use vstd::prelude::*;

verus! {

/// Message priority levels.
#[derive(Debug, Clone, Copy, PartialEq, Eq, Ord, Structural)]
pub enum Priority {
    Low,
    Normal,
    High,
    Critical,
}

impl Priority {
    /// The place of a level among all levels, from the lowest up.
    pub open spec fn rank(self) -> int {
        match self {
            Priority::Low => 0,
            Priority::Normal => 1,
            Priority::High => 2,
            Priority::Critical => 3,
        }
    }

    /// The number of a level, from the lowest up.
    pub fn level(&self) -> (level: u8)
        ensures
            level == self.rank(),
    {
        match self {
            Priority::Low => 0,
            Priority::Normal => 1,
            Priority::High => 2,
            Priority::Critical => 3,
        }
    }
}

impl PartialOrd for Priority {
    fn partial_cmp(&self, other: &Self) -> (order: Option<Ordering>) {
        let (left, right): (u8, u8) = (self.level(), other.level());
        if left < right {
            Some(Ordering::Less)
        } else if left == right {
            Some(Ordering::Equal)
        } else {
            Some(Ordering::Greater)
        }
    }
}

impl vstd::std_specs::cmp::PartialOrdSpecImpl for Priority {
    open spec fn obeys_partial_cmp_spec() -> bool {
        true
    }

    open spec fn partial_cmp_spec(&self, other: &Self) -> Option<Ordering> {
        if self.rank() < other.rank() {
            Some(Ordering::Less)
        } else if self.rank() == other.rank() {
            Some(Ordering::Equal)
        } else {
            Some(Ordering::Greater)
        }
    }
}

impl Default for Priority {
    fn default() -> (priority: Self)
        ensures
            priority == Priority::Normal,
    {
        Priority::Normal
    }
}

/// Text that can name a topic.
pub trait IntoTopic: Sized {
    /// The characters of the name.
    spec fn topic_text(self) -> Seq<char>;

    /// The name as an owned string.
    fn into_topic(self) -> (topic: String)
        ensures
            topic@ == self.topic_text(),
    ;
}

impl IntoTopic for String {
    open spec fn topic_text(self) -> Seq<char> {
        self@
    }

    fn into_topic(self) -> (topic: String) {
        self
    }
}

impl<'a> IntoTopic for &'a str {
    open spec fn topic_text(self) -> Seq<char> {
        self@
    }

    fn into_topic(self) -> (topic: String) {
        self.to_owned()
    }
}

/// What an event carries.
#[derive(Debug, PartialEq)]
pub enum EventPayload<T> {
    Created(T),
    Updated(T),
    Deleted(i32),
    /// Custom event type for application-specific events.
    Custom { event_type: String, payload: T },
    /// Batch events for efficient processing.
    Batch(Vec<T>),
}

/// An event that can be broadcast.
#[derive(Debug, PartialEq)]
pub struct Event<T> {
    pub payload: EventPayload<T>,
    pub topic: Option<String>,
    pub priority: Priority,
    /// When the event was made, in whole seconds since the start of 1970.
    pub timestamp: u64,
}

/// `copy` could be a clone of `payload`.
pub open spec fn payload_cloned<T: Clone>(payload: EventPayload<T>, copy: EventPayload<T>) -> bool {
    match (payload, copy) {
        (EventPayload::Created(a), EventPayload::Created(b)) => cloned(a, b),
        (EventPayload::Updated(a), EventPayload::Updated(b)) => cloned(a, b),
        (EventPayload::Deleted(a), EventPayload::Deleted(b)) => a == b,
        (
            EventPayload::Custom { event_type: s, payload: a },
            EventPayload::Custom { event_type: t, payload: b },
        ) => s == t && cloned(a, b),
        (EventPayload::Batch(a), EventPayload::Batch(b)) => a@.len() == b@.len() && forall|i: int|
            0 <= i < a@.len() ==> cloned(#[trigger] a@[i], b@[i]),
        _ => false,
    }
}

/// `copy` could be a clone of `event`.
pub open spec fn event_cloned<T: Clone>(event: Event<T>, copy: Event<T>) -> bool {
    &&& payload_cloned(event.payload, copy.payload)
    &&& copy.topic == event.topic
    &&& copy.priority == event.priority
    &&& copy.timestamp == event.timestamp
}

impl<T: Clone> Clone for EventPayload<T> {
    fn clone(&self) -> (copy: Self)
        ensures
            payload_cloned(*self, copy),
    {
        match self {
            EventPayload::Created(item) => EventPayload::Created(item.clone()),
            EventPayload::Updated(item) => EventPayload::Updated(item.clone()),
            EventPayload::Deleted(id) => EventPayload::Deleted(*id),
            EventPayload::Custom { event_type, payload } => EventPayload::Custom {
                event_type: event_type.clone(),
                payload: payload.clone(),
            },
            EventPayload::Batch(items) => EventPayload::Batch(items.clone()),
        }
    }
}

impl<T: Clone> Clone for Event<T> {
    fn clone(&self) -> (copy: Self)
        ensures
            event_cloned(*self, copy),
    {
        Event {
            payload: self.payload.clone(),
            topic: self.topic.clone(),
            priority: self.priority,
            timestamp: self.timestamp,
        }
    }
}

impl<T> Event<T> {
    /// An event made at `timestamp`, without a topic and of normal priority.
    pub fn at(payload: EventPayload<T>, timestamp: u64) -> (event: Self)
        ensures
            event == (Event { payload, topic: None, priority: Priority::Normal, timestamp }),
    {
        Event { payload, topic: None, priority: Priority::default(), timestamp }
    }

    /// An event made now, without a topic and of normal priority.
    pub fn new(payload: EventPayload<T>) -> (event: Self)
        ensures
            event.payload == payload,
            event.topic is None,
            event.priority == Priority::Normal,
            crate::clock::clock_shows(event.timestamp),
    {
        Self::at(payload, unix_time())
    }

    /// The event with a topic.
    pub fn with_topic<S: IntoTopic>(self, topic: S) -> (event: Self)
        ensures
            event.topic is Some,
            event.topic->Some_0@ == topic.topic_text(),
            event == (Event { topic: event.topic, ..self }),
    {
        Event { topic: Some(topic.into_topic()), ..self }
    }

    /// The event with another priority.
    pub fn with_priority(self, priority: Priority) -> (event: Self)
        ensures
            event == (Event { priority, ..self }),
    {
        Event { priority, ..self }
    }
}

} // verus!
