//! Laws of priorities, events, filters and subscriptions.
use crate::notifications::event::{Event, EventPayload, Priority};
use crate::notifications::filter::SubscriptionFilter;
use crate::notifications::subscription::Subscription;
use std::cmp::Ordering;
use vstd::prelude::*;

verus! {

/// How many levels lie below a priority.
pub open spec fn height(priority: Priority) -> int {
    match priority {
        Priority::Low => 0,
        Priority::Normal => 1,
        Priority::High => 2,
        Priority::Critical => 3,
    }
}

/// The priorities are in one line: low, normal, high, critical. A new event is normal.
pub proof fn law_priorities_are_in_line(
    a: Priority,
    b: Priority,
    order: Option<Ordering>,
    level: u8,
    usual: Priority,
)
    requires
        call_ensures(Priority::partial_cmp, (&a, &b), order),
        call_ensures(Priority::level, (&a,), level),
        call_ensures(Priority::default, (), usual),
    ensures
        order == Some(Ordering::Less) <==> height(a) < height(b),
        order == Some(Ordering::Equal) <==> a == b,
        order == Some(Ordering::Greater) <==> height(a) > height(b),
        level == height(a),
        usual == Priority::Normal,
{
}

/// An event with this priority and topic is one that a subscriber asked for with these wishes.
pub open spec fn asked_for(
    filter: SubscriptionFilter,
    priority: Priority,
    topic: Option<String>,
) -> bool {
    &&& height(priority) >= height(filter.min_priority)
    &&& filter.topics matches Some(topics) ==> topic matches Some(name) && exists|i: int|
        0 <= i < topics@.len() && (#[trigger] topics@[i])@ == name@
}

/// A filter picks an event exactly where the event's priority is not below the lowest wanted
/// one and, where topics are named, the event's topic is one of them, letter for letter.
pub proof fn law_a_filter_picks_by_priority_and_topic<T>(
    filter: SubscriptionFilter,
    event: Event<T>,
    picked: bool,
)
    requires
        call_ensures(SubscriptionFilter::matches::<T>, (&filter, &event), picked),
    ensures
        picked <==> height(event.priority) >= height(filter.min_priority) && (
        filter.topics matches Some(topics) ==> event.topic matches Some(topic) && exists|i: int|
            0 <= i < topics@.len() && (#[trigger] topics@[i])@ == topic@),
{
    if let Some(topics) = filter.topics {
        if let Some(topic) = event.topic {
            assert(crate::notifications::filter::has_topic(topics@, topic@) <==> exists|i: int|
                0 <= i < topics@.len() && (#[trigger] topics@[i])@ == topic@);
        }
    }
}

/// An event that a filter with topics picks has a topic, and it is one of the named ones,
/// whatever the event's priority.
pub proof fn law_only_named_topics_are_picked<T>(filter: SubscriptionFilter, event: Event<T>)
    requires
        filter.topics is Some,
        call_ensures(SubscriptionFilter::matches::<T>, (&filter, &event), true),
    ensures
        event.topic is Some,
        exists|i: int|
            0 <= i < filter.topics->Some_0@.len() && (#[trigger] filter.topics->Some_0@[i])@
                == event.topic->Some_0@,
{
    law_a_filter_picks_by_priority_and_topic(filter, event, true);
}

/// No event below the lowest wanted priority is picked, whatever its topic.
pub proof fn law_nothing_below_the_lowest_priority_is_picked<T>(
    filter: SubscriptionFilter,
    event: Event<T>,
)
    requires
        call_ensures(SubscriptionFilter::matches::<T>, (&filter, &event), true),
    ensures
        height(event.priority) >= height(filter.min_priority),
{
    law_a_filter_picks_by_priority_and_topic(filter, event, true);
}

/// Whether an event is picked depends on its topic and its priority alone, and an event that
/// is picked would be picked with a higher priority, too.
pub proof fn law_what_picking_depends_on<T, U>(
    filter: SubscriptionFilter,
    event: Event<T>,
    other: Event<U>,
    picked: bool,
    other_picked: bool,
)
    requires
        call_ensures(SubscriptionFilter::matches::<T>, (&filter, &event), picked),
        call_ensures(SubscriptionFilter::matches::<U>, (&filter, &other), other_picked),
        event.topic is Some <==> other.topic is Some,
        event.topic is Some ==> event.topic->Some_0@ == other.topic->Some_0@,
    ensures
        height(other.priority) >= height(event.priority) && picked ==> other_picked,
        other.priority == event.priority ==> picked == other_picked,
{
    law_a_filter_picks_by_priority_and_topic(filter, event, picked);
    law_a_filter_picks_by_priority_and_topic(filter, other, other_picked);
}

/// A new filter picks everything. To name topics or to set the lowest priority changes just
/// that. A clone picks the same.
pub proof fn law_filters_are_built_step_by_step<T>(
    new: SubscriptionFilter,
    filter: SubscriptionFilter,
    topics: Vec<String>,
    with_topics: SubscriptionFilter,
    priority: Priority,
    with_priority: SubscriptionFilter,
    copy: SubscriptionFilter,
    event: Event<T>,
    picked_by_new: bool,
    picked: bool,
    picked_by_copy: bool,
)
    requires
        call_ensures(SubscriptionFilter::new, (), new) || call_ensures(
            <SubscriptionFilter as Default>::default,
            (),
            new,
        ),
        call_ensures(SubscriptionFilter::with_topics, (filter, topics), with_topics),
        call_ensures(SubscriptionFilter::with_min_priority, (filter, priority), with_priority),
        call_ensures(<SubscriptionFilter as Clone>::clone, (&filter,), copy),
        call_ensures(SubscriptionFilter::matches::<T>, (&new, &event), picked_by_new),
        call_ensures(SubscriptionFilter::matches::<T>, (&filter, &event), picked),
        call_ensures(SubscriptionFilter::matches::<T>, (&copy, &event), picked_by_copy),
    ensures
        picked_by_new,
        with_topics.topics == Some(topics),
        with_topics.min_priority == filter.min_priority,
        with_priority.topics == filter.topics,
        with_priority.min_priority == priority,
        picked == picked_by_copy,
{
    law_a_filter_picks_by_priority_and_topic(filter, event, picked);
    law_a_filter_picks_by_priority_and_topic(copy, event, picked_by_copy);
}

/// What a subscriber keeps of an event that arrives is the event itself, exactly where its
/// filter picks it.
pub proof fn law_a_subscriber_keeps_what_its_filter_picks<T>(
    subscription: Subscription<T>,
    event: Event<T>,
    picked: bool,
    wanted: bool,
    kept: Option<Event<T>>,
)
    requires
        call_ensures(
            SubscriptionFilter::matches::<T>,
            (&subscription.filter, &event),
            picked,
        ),
        call_ensures(Subscription::<T>::wants, (&subscription, &event), wanted),
        call_ensures(Subscription::<T>::receive, (&subscription, event), kept),
    ensures
        wanted == picked,
        kept == if picked {
            Some(event)
        } else {
            None
        },
{
    law_a_filter_picks_by_priority_and_topic(subscription.filter, event, picked);
}

/// The remembered events are taken one by one, the oldest first, and none is taken twice.
pub proof fn law_remembered_events_are_taken_in_order<T>(
    before: Subscription<T>,
    event: Option<Event<T>>,
    after: Subscription<T>,
)
    requires
        exists|s: &mut Subscription<T>|
            *s == before && *final(s) == after && #[trigger] call_ensures(
                Subscription::<T>::take_remembered,
                (s,),
                event,
            ),
    ensures
        event is None <==> before.backlog@.len() == 0,
        event matches Some(e) ==> before.backlog@ == seq![e] + after.backlog@,
        event is None ==> after.backlog@ == before.backlog@,
        after.filter == before.filter,
        after.receiver == before.receiver,
{
    if event is Some {
        assert(before.backlog@ =~= seq![before.backlog@[0]] + before.backlog@.skip(1));
    }
}

/// A new event carries what it was made with; it has no topic and is of normal priority. To
/// give it a topic or a priority changes just that.
pub proof fn law_events_are_built_step_by_step<T>(
    payload: EventPayload<T>,
    timestamp: u64,
    made: Event<T>,
    new: Event<T>,
    event: Event<T>,
    text: &str,
    named: Event<T>,
    owned_text: String,
    named_too: Event<T>,
    priority: Priority,
    raised: Event<T>,
)
    requires
        call_ensures(Event::<T>::at, (payload, timestamp), made),
        call_ensures(Event::<T>::new, (payload,), new),
        call_ensures(Event::<T>::with_topic::<&str>, (event, text), named),
        call_ensures(Event::<T>::with_topic::<String>, (event, owned_text), named_too),
        call_ensures(Event::<T>::with_priority, (event, priority), raised),
    ensures
        made.payload == payload && made.topic is None && made.priority == Priority::Normal
            && made.timestamp == timestamp,
        new.payload == payload && new.topic is None && new.priority == Priority::Normal,
        named.topic matches Some(topic) && topic@ == text@,
        named.payload == event.payload && named.priority == event.priority && named.timestamp
            == event.timestamp,
        named_too.topic matches Some(topic) && topic@ == owned_text@,
        named_too.payload == event.payload && named_too.priority == event.priority
            && named_too.timestamp == event.timestamp,
        raised.priority == priority,
        raised.payload == event.payload && raised.topic == event.topic && raised.timestamp
            == event.timestamp,
{
}

/// Two events have the same contents.
pub open spec fn same_event<T>(a: Event<T>, b: Event<T>) -> bool {
    &&& a.priority == b.priority
    &&& a.timestamp == b.timestamp
    &&& a.topic is Some <==> b.topic is Some
    &&& a.topic is Some ==> a.topic->Some_0@ == b.topic->Some_0@
    &&& match (a.payload, b.payload) {
        (EventPayload::Created(x), EventPayload::Created(y)) => x == y,
        (EventPayload::Updated(x), EventPayload::Updated(y)) => x == y,
        (EventPayload::Deleted(x), EventPayload::Deleted(y)) => x == y,
        (
            EventPayload::Custom { event_type: s, payload: x },
            EventPayload::Custom { event_type: t, payload: y },
        ) => s@ == t@ && x == y,
        (EventPayload::Batch(x), EventPayload::Batch(y)) => x@ == y@,
        _ => false,
    }
}

/// A clone of an item is always the item itself.
pub open spec fn clones_truly<T: Clone>() -> bool {
    forall|a: T, b: T| #[trigger] cloned(a, b) ==> a == b
}

/// Where items clone truly, a clone of an event has the same contents.
pub proof fn law_a_clone_has_the_same_contents<T: Clone>(event: Event<T>, copy: Event<T>)
    requires
        clones_truly::<T>(),
        call_ensures(<Event<T> as Clone>::clone, (&event,), copy),
    ensures
        same_event(event, copy),
{
    lemma_cloned_is_same(event, copy);
}

/// Where items clone truly, what could be a clone has the same contents.
pub(crate) proof fn lemma_cloned_is_same<T: Clone>(event: Event<T>, copy: Event<T>)
    requires
        clones_truly::<T>(),
        crate::notifications::event::event_cloned(event, copy),
    ensures
        same_event(event, copy),
{
    if let (EventPayload::Batch(x), EventPayload::Batch(y)) = (event.payload, copy.payload) {
        assert forall|i: int| 0 <= i < x@.len() implies x@[i] == y@[i] by {
            assert(cloned(x@[i], y@[i]));
        }
        assert(x@ =~= y@);
    }
}

} // verus!
