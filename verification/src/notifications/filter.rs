//! Filters that pick the events a subscriber cares about.
use crate::notifications::event::{Event, Priority};
use vstd::prelude::*;

verus! {

/// Picks events by topic and priority.
#[derive(Debug)]
pub struct SubscriptionFilter {
    /// The wanted topics, or `None` for all events, with or without a topic.
    pub topics: Option<Vec<String>>,
    /// The lowest wanted priority.
    pub min_priority: Priority,
}

/// A list of topics has this one.
pub open spec fn has_topic(topics: Seq<String>, topic: Seq<char>) -> bool {
    exists|i: int| 0 <= i < topics.len() && #[trigger] topics[i]@ == topic
}

/// Whether a list of topics has this one.
fn names_topic(topics: &Vec<String>, topic: &String) -> (found: bool)
    ensures
        found == has_topic(topics@, topic@),
{
    let mut n: usize = 0;
    while n < topics.len()
        invariant
            n <= topics@.len(),
            forall|i: int| 0 <= i < n ==> #[trigger] topics@[i]@ != topic@,
        decreases topics@.len() - n,
    {
        if topics[n] == *topic {
            assert(topics@[n as int]@ == topic@);
            return true;
        }
        n += 1;
    }
    false
}

impl Clone for SubscriptionFilter {
    fn clone(&self) -> (copy: Self)
        ensures
            copy.min_priority == self.min_priority,
            copy.topics is Some <==> self.topics is Some,
            self.topics is Some ==> copy.topics->Some_0@ == self.topics->Some_0@,
    {
        let topics = match &self.topics {
            Some(topics) => {
                let copies = topics.clone();
                assert(copies@ =~= topics@);
                Some(copies)
            },
            None => None,
        };
        SubscriptionFilter { topics, min_priority: self.min_priority }
    }
}

impl Default for SubscriptionFilter {
    fn default() -> (filter: Self)
        ensures
            filter.topics is None,
            filter.min_priority == Priority::Low,
    {
        SubscriptionFilter { topics: None, min_priority: Priority::Low }
    }
}

impl SubscriptionFilter {
    /// The filter picks an event of this priority and topic: the priority is high enough,
    /// and where the filter names topics the event has one of them.
    pub open spec fn picks(self, priority: Priority, topic: Option<String>) -> bool {
        &&& priority.rank() >= self.min_priority.rank()
        &&& self.topics matches Some(topics) ==> topic is Some && has_topic(topics@, topic->Some_0@)
    }

    /// A filter that picks every event.
    pub fn new() -> (filter: Self)
        ensures
            filter.topics is None,
            filter.min_priority == Priority::Low,
    {
        Self::default()
    }

    /// The filter for these topics alone.
    pub fn with_topics(self, topics: Vec<String>) -> (filter: Self)
        ensures
            filter == (SubscriptionFilter { topics: Some(topics), ..self }),
    {
        SubscriptionFilter { topics: Some(topics), ..self }
    }

    /// The filter for this priority and above.
    pub fn with_min_priority(self, priority: Priority) -> (filter: Self)
        ensures
            filter == (SubscriptionFilter { min_priority: priority, ..self }),
    {
        SubscriptionFilter { min_priority: priority, ..self }
    }

    /// Whether the filter picks the event.
    pub fn matches<T>(&self, event: &Event<T>) -> (picked: bool)
        ensures
            picked == self.picks(event.priority, event.topic),
    {
        if event.priority < self.min_priority {
            return false;
        }
        if let Some(topics) = &self.topics {
            if let Some(event_topic) = &event.topic {
                return names_topic(topics, event_topic);
            }
            return false;
        }
        true
    }
}

/// A new filter picks every event.
pub proof fn law_new_filter_picks_all(
    filter: SubscriptionFilter,
    priority: Priority,
    topic: Option<String>,
)
    requires
        filter.topics is None,
        filter.min_priority == Priority::Low,
    ensures
        filter.picks(priority, topic),
{
}

/// Raising the lowest wanted priority picks no event that was not picked before.
pub proof fn law_higher_priority_picks_less(
    filter: SubscriptionFilter,
    higher: SubscriptionFilter,
    priority: Priority,
    topic: Option<String>,
)
    requires
        higher.topics == filter.topics,
        higher.min_priority.rank() >= filter.min_priority.rank(),
        higher.picks(priority, topic),
    ensures
        filter.picks(priority, topic),
{
}

/// Naming more topics picks every event that was picked before.
pub proof fn law_more_topics_pick_more(
    filter: SubscriptionFilter,
    wider: SubscriptionFilter,
    priority: Priority,
    topic: Option<String>,
)
    requires
        wider.min_priority == filter.min_priority,
        filter.topics is Some,
        wider.topics is Some,
        forall|name: Seq<char>| #[trigger]
            has_topic(filter.topics->Some_0@, name) ==> has_topic(wider.topics->Some_0@, name),
        filter.picks(priority, topic),
    ensures
        wider.picks(priority, topic),
{
}

/// A filter that names topics picks no event without a topic.
pub proof fn law_topics_need_a_topic(filter: SubscriptionFilter, priority: Priority)
    requires
        filter.topics is Some,
    ensures
        !filter.picks(priority, None),
{
}

} // verus!
