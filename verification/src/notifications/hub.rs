//! The hub that broadcasts events to subscribers.
use crate::channel::{Channel, Delivery};
use crate::notifications::config::NotificationConfig;
use crate::notifications::error::NotificationError;
use crate::notifications::event::{Event, EventPayload, Priority};
use crate::notifications::filter::SubscriptionFilter;
use crate::notifications::stats::NotificationStats;
use crate::notifications::subscription::Subscription;
use std::collections::VecDeque;
use std::fmt::Debug;
use tokio::sync::broadcast::{Receiver, Sender};
use vstd::hash_map::StringHashMap;
use vstd::prelude::*;

verus! {

/// A hub for real-time notifications.
#[verifier::reject_recursive_types(T)]
pub struct NotificationHub<T> {
    sender: Channel<Event<T>>,
    stats: NotificationStats,
    config: NotificationConfig,
    message_history: VecDeque<Event<T>>,
    topic_subscribers: StringHashMap<usize>,
}

/// The last `size` events of a history, or all of them where there are fewer.
pub open spec fn newest<T>(history: Seq<Event<T>>, size: usize) -> Seq<Event<T>> {
    if history.len() <= size {
        history
    } else {
        history.skip(history.len() - size)
    }
}

/// `before` becomes `after` when a clone of `event` is remembered behind all others, and the
/// oldest events are forgotten as far as there are more than `size`.
pub open spec fn remembers<T: Clone>(
    before: Seq<Event<T>>,
    event: Event<T>,
    size: usize,
    after: Seq<Event<T>>,
) -> bool {
    exists|copy: Event<T>| #[trigger]
        crate::notifications::event::event_cloned(event, copy) && after == newest(
            before.push(copy),
            size,
        )
}

/// The count that a table has for a topic.
pub open spec fn count_of(counts: Map<Seq<char>, usize>, topic: Seq<char>) -> nat {
    if counts.contains_key(topic) {
        counts[topic] as nat
    } else {
        0
    }
}

/// How many subscribers a list of topics stands for under one topic: one where it has the
/// topic, however often.
pub open spec fn counted_once(topics: Seq<String>, topic: Seq<char>) -> nat {
    if crate::notifications::filter::has_topic(topics, topic) {
        1
    } else {
        0
    }
}

/// How many subscribers a filter stands for under a topic.
pub open spec fn named_by(filter: SubscriptionFilter, topic: Seq<char>) -> nat {
    match filter.topics {
        Some(topics) => counted_once(topics@, topic),
        None => 0,
    }
}

/// The events of a history that a filter picks, in their order.
pub open spec fn picked<T>(history: Seq<Event<T>>, filter: SubscriptionFilter) -> Seq<Event<T>> {
    history.filter(|event: Event<T>| filter.picks(event.priority, event.topic))
}

/// `copies` are clones of `events`, in their order.
pub open spec fn all_cloned<T: Clone>(events: Seq<Event<T>>, copies: Seq<Event<T>>) -> bool {
    &&& copies.len() == events.len()
    &&& forall|i: int|
        0 <= i < events.len() ==> crate::notifications::event::event_cloned(
            events[i],
            #[trigger] copies[i],
        )
}

/// One more topic in a list.
proof fn lemma_one_more_topic(topics: Seq<String>, n: int, topic: Seq<char>)
    requires
        0 <= n < topics.len(),
    ensures
        crate::notifications::filter::has_topic(topics.take(n + 1), topic) <==> topics[n]@ == topic
            || crate::notifications::filter::has_topic(topics.take(n), topic),
{
    let shorter = topics.take(n);
    let longer = topics.take(n + 1);
    if crate::notifications::filter::has_topic(longer, topic) {
        let i = choose|i: int| 0 <= i < longer.len() && #[trigger] longer[i]@ == topic;
        if i < n {
            assert(shorter[i]@ == topic);
        }
    }
    if crate::notifications::filter::has_topic(shorter, topic) {
        let i = choose|i: int| 0 <= i < shorter.len() && #[trigger] shorter[i]@ == topic;
        assert(longer[i]@ == topic);
    }
    if topics[n]@ == topic {
        assert(longer[n]@ == topic);
    }
}

/// Whether the topic at `n` stands in the list before that.
fn stands_before(topics: &Vec<String>, n: usize) -> (found: bool)
    requires
        n < topics@.len(),
    ensures
        found == crate::notifications::filter::has_topic(
            topics@.take(n as int),
            topics@[n as int]@,
        ),
{
    let mut k: usize = 0;
    while k < n
        invariant
            k <= n < topics@.len(),
            forall|i: int| 0 <= i < k ==> #[trigger] topics@.take(n as int)[i]@ != topics@[n as int]@,
        decreases n - k,
    {
        if topics[k] == topics[n] {
            assert(topics@.take(n as int)[k as int]@ == topics@[n as int]@);
            return true;
        }
        k += 1;
    }
    false
}

/// `format!` with the debug form of an event. What that looks like is up to the payload's own
/// type, so nothing is said of it.
#[verifier::external_body]
fn debug_form<T: Debug>(event: &Event<T>) -> (text: String) {
    format!("{:?}", event)
}

/// `text` is a debug form of the event.
pub closed spec fn shown_as<T: Debug>(event: Event<T>, text: Seq<char>) -> bool {
    exists|form: String| #[trigger]
        call_ensures(debug_form::<T>, (&event,), form) && form@ == text
}

impl<T> NotificationHub<T> {
    /// The events handed to the channel, each with the number of receivers at the time.
    pub closed spec fn deliveries(self) -> Seq<Delivery<Event<T>>> {
        self.sender.deliveries()
    }

    /// The tokio sender that events are broadcast through.
    pub closed spec fn broadcaster(self) -> Sender<Event<T>> {
        self.sender.endpoint()
    }

    /// The statistics.
    pub closed spec fn stats(self) -> NotificationStats {
        self.stats
    }

    /// The configuration.
    pub closed spec fn config(self) -> NotificationConfig {
        self.config
    }

    /// The remembered events, the oldest first.
    pub closed spec fn history(self) -> Seq<Event<T>> {
        self.message_history@
    }

    /// How many subscribers named each topic.
    pub closed spec fn topic_counts(self) -> Map<Seq<char>, usize> {
        self.topic_subscribers@
    }
}

impl<T: Clone + Debug> NotificationHub<T> {
    /// `before` becomes `after` and `outcome` is answered when `event` is broadcast.
    ///
    /// A clone of the event is remembered, for which the oldest event is forgotten where the
    /// history is full. The event is handed to the channel. Where somebody is subscribed,
    /// that counts as sent, else as dropped, and the answer says so.
    pub open spec fn broadcasts(
        before: Self,
        event: Event<T>,
        outcome: Result<(), NotificationError>,
        after: Self,
    ) -> bool {
        let delivery = after.deliveries().last();
        &&& after.deliveries() == before.deliveries().push(delivery)
        &&& delivery.value == event
        &&& crate::channel::went_through(before.broadcaster(), delivery)
        &&& remembers(before.history(), event, before.config().history_size, after.history())
        &&& after.config() == before.config()
        &&& after.broadcaster() == before.broadcaster()
        &&& after.topic_counts() == before.topic_counts()
        &&& if delivery.receivers > 0 {
            &&& outcome is Ok
            &&& after.stats().last_broadcast is Some
            &&& crate::clock::was_present(after.stats().last_broadcast->Some_0)
            &&& after.stats() == NotificationStats {
                messages_sent: before.stats().messages_sent.wrapping_add(1),
                last_broadcast: after.stats().last_broadcast,
                ..before.stats()
            }
        } else {
            &&& outcome matches Err(NotificationError::SendError(text))
            &&& exists|shown: Seq<char>| #[trigger]
                shown_as(event, shown) && text@ == "No active subscribers for event: "@ + shown
            &&& after.stats() == NotificationStats {
                messages_dropped: before.stats().messages_dropped.wrapping_add(1),
                ..before.stats()
            }
        }
    }

    /// `before` becomes `after` when somebody subscribes and is given `receiver`.
    pub open spec fn subscribes(before: Self, receiver: Receiver<Event<T>>, after: Self) -> bool {
        &&& crate::channel::subscribed(before.broadcaster(), receiver)
        &&& after.stats() == NotificationStats {
            active_subscribers: before.stats().active_subscribers.wrapping_add(1),
            ..before.stats()
        }
        &&& after.topic_counts() == before.topic_counts()
        &&& after.deliveries() == before.deliveries()
        &&& after.history() == before.history()
        &&& after.config() == before.config()
        &&& after.broadcaster() == before.broadcaster()
    }

    /// `before` becomes `after` when somebody subscribes with a filter and is given
    /// `subscription`.
    ///
    /// The subscriber is counted, also once under every topic that the filter names, and is
    /// given clones of the remembered events that the filter picks. Nothing is handed to the
    /// channel, so no other subscriber gets those events again.
    pub open spec fn subscribes_with_filter(
        before: Self,
        filter: SubscriptionFilter,
        subscription: Subscription<T>,
        after: Self,
    ) -> bool {
        &&& subscription.filter == filter
        &&& all_cloned(picked(before.history(), filter), subscription.backlog@)
        &&& crate::channel::subscribed(before.broadcaster(), subscription.receiver)
        &&& after.stats() == NotificationStats {
            active_subscribers: before.stats().active_subscribers.wrapping_add(1),
            ..before.stats()
        }
        &&& forall|topic: Seq<char>|
            #[trigger] count_of(after.topic_counts(), topic) == count_of(
                before.topic_counts(),
                topic,
            ) + named_by(filter, topic)
        &&& after.deliveries() == before.deliveries()
        &&& after.history() == before.history()
        &&& after.config() == before.config()
        &&& after.broadcaster() == before.broadcaster()
    }

    /// The counts of the topics that a filter names can grow by one each.
    pub open spec fn can_count(self, filter: SubscriptionFilter) -> bool {
        forall|topic: Seq<char>|
            #[trigger] count_of(self.topic_counts(), topic) + named_by(filter, topic) <= usize::MAX
    }

    /// Creates a new hub with default configuration.
    pub fn new() -> (hub: Self)
        ensures
            hub.config().channel_size == crate::notifications::config::DEFAULT_CHANNEL_SIZE,
            hub.config().ws_timeout == crate::clock::seconds(
                crate::notifications::config::DEFAULT_WS_TIMEOUT_SECS,
            ),
            hub.config().history_size == crate::notifications::config::DEFAULT_HISTORY_SIZE,
            crate::channel::opened(
                crate::notifications::config::DEFAULT_CHANNEL_SIZE,
                hub.broadcaster(),
            ),
            hub.deliveries() == Seq::<Delivery<Event<T>>>::empty(),
            hub.history() == Seq::<Event<T>>::empty(),
            hub.topic_counts() == Map::<Seq<char>, usize>::empty(),
            hub.stats() == (NotificationStats {
                messages_sent: 0,
                messages_dropped: 0,
                active_subscribers: 0,
                last_broadcast: None,
            }),
    {
        Self::with_config(NotificationConfig::default())
    }

    /// Creates a new hub with custom configuration.
    pub fn with_config(config: NotificationConfig) -> (hub: Self)
        requires
            config.usable(),
        ensures
            hub.config() == config,
            crate::channel::opened(config.channel_size, hub.broadcaster()),
            hub.deliveries() == Seq::<Delivery<Event<T>>>::empty(),
            hub.history() == Seq::<Event<T>>::empty(),
            hub.topic_counts() == Map::<Seq<char>, usize>::empty(),
            hub.stats() == (NotificationStats {
                messages_sent: 0,
                messages_dropped: 0,
                active_subscribers: 0,
                last_broadcast: None,
            }),
    {
        NotificationHub {
            sender: Channel::new(config.channel_size),
            stats: NotificationStats::new(),
            config,
            message_history: VecDeque::new(),
            topic_subscribers: StringHashMap::new(),
        }
    }

    /// Another sending end of the hub's channel. What is sent through it passes the hub by.
    pub fn sender(&self) -> (copy: Sender<Event<T>>)
        ensures
            cloned(self.broadcaster(), copy),
    {
        self.sender.sender()
    }

    /// Counts a subscriber once for every topic in the list.
    fn count_topics(&mut self, topics: &Vec<String>)
        requires
            forall|topic: Seq<char>|
                #[trigger] count_of(old(self).topic_counts(), topic) + counted_once(topics@, topic)
                    <= usize::MAX,
        ensures
            forall|topic: Seq<char>|
                #[trigger] count_of(final(self).topic_counts(), topic) == count_of(
                    old(self).topic_counts(),
                    topic,
                ) + counted_once(topics@, topic),
            final(self).deliveries() == old(self).deliveries(),
            final(self).history() == old(self).history(),
            final(self).config() == old(self).config(),
            final(self).broadcaster() == old(self).broadcaster(),
            final(self).stats() == old(self).stats(),
    {
        let mut n: usize = 0;
        while n < topics.len()
            invariant
                n <= topics@.len(),
                forall|topic: Seq<char>|
                    #[trigger] count_of(old(self).topic_counts(), topic) + counted_once(
                        topics@,
                        topic,
                    ) <= usize::MAX,
                forall|topic: Seq<char>|
                    #[trigger] count_of(self.topic_counts(), topic) == count_of(
                        old(self).topic_counts(),
                        topic,
                    ) + counted_once(topics@.take(n as int), topic),
                self.deliveries() == old(self).deliveries(),
                self.history() == old(self).history(),
                self.config() == old(self).config(),
                self.broadcaster() == old(self).broadcaster(),
                self.stats() == old(self).stats(),
            decreases topics@.len() - n,
        {
            let topic = &topics[n];
            let ghost counts = self.topic_counts();
            if !stands_before(topics, n) {
                let count: usize = match self.topic_subscribers.get(topic.as_str()) {
                    Some(count) => *count,
                    None => 0,
                };
                proof {
                    assert(topics@[n as int]@ == topic@);
                    assert(counted_once(topics@, topic@) == 1);
                    assert(count == count_of(counts, topic@));
                    assert(count_of(old(self).topic_counts(), topic@) + counted_once(
                        topics@,
                        topic@,
                    ) <= usize::MAX);
                }
                self.topic_subscribers.insert(topic.clone(), count + 1);
            }
            proof {
                assert forall|other: Seq<char>|
                    #[trigger] count_of(self.topic_counts(), other) == count_of(
                        old(self).topic_counts(),
                        other,
                    ) + counted_once(topics@.take(n + 1), other) by {
                    lemma_one_more_topic(topics@, n as int, other);
                    assert(count_of(counts, other) == count_of(old(self).topic_counts(), other)
                        + counted_once(topics@.take(n as int), other));
                }
            }
            n += 1;
        }
        assert(topics@.take(n as int) == topics@);
    }

    /// Clones of the remembered events that the filter picks.
    fn remembered(&self, filter: &SubscriptionFilter) -> (events: Vec<Event<T>>)
        ensures
            all_cloned(picked(self.history(), *filter), events@),
    {
        let ghost picks = |event: Event<T>| filter.picks(event.priority, event.topic);
        let mut events: Vec<Event<T>> = Vec::new();
        let mut n: usize = 0;
        while n < self.message_history.len()
            invariant
                n <= self.history().len(),
                picks == (|event: Event<T>| filter.picks(event.priority, event.topic)),
                all_cloned(self.history().take(n as int).filter(picks), events@),
            decreases self.history().len() - n,
        {
            if filter.matches(&self.message_history[n]) {
                events.push(self.message_history[n].clone());
            }
            proof {
                reveal(Seq::filter);
                assert(self.history().take(n + 1).drop_last() == self.history().take(n as int));
                assert(self.history().take(n + 1).last() == self.history()[n as int]);
            }
            n += 1;
        }
        assert(self.history().take(n as int) == self.history());
        events
    }

    /// Creates a new subscriber for the events that a filter picks.
    pub fn subscribe_with_filter(&mut self, filter: SubscriptionFilter) -> (subscription:
        Subscription<T>)
        requires
            old(self).can_count(filter),
        ensures
            Self::subscribes_with_filter(*old(self), filter, subscription, *final(self)),
    {
        self.stats.record_subscriber_added();
        if let Some(topics) = &filter.topics {
            assert forall|topic: Seq<char>|
                #[trigger] count_of(self.topic_counts(), topic) + counted_once(topics@, topic)
                    <= usize::MAX by {
                assert(count_of(old(self).topic_counts(), topic) + named_by(filter, topic)
                    <= usize::MAX);
            }
            self.count_topics(topics);
        }
        let backlog = self.remembered(&filter);
        Subscription { receiver: self.sender.subscribe(), backlog, filter }
    }

    /// Creates a new subscriber.
    pub fn subscribe(&mut self) -> (receiver: Receiver<Event<T>>)
        ensures
            Self::subscribes(*old(self), receiver, *final(self)),
    {
        self.stats.record_subscriber_added();
        self.sender.subscribe()
    }

    /// Broadcasts an event to all subscribers.
    pub fn broadcast(&mut self, event: Event<T>) -> (outcome: Result<(), NotificationError>)
        ensures
            Self::broadcasts(*old(self), event, outcome, *final(self)),
    {
        let copy = event.clone();
        let ghost all = self.history().push(copy);
        self.message_history.push_back(copy);
        assert(self.history() =~= all.skip(all.len() - self.history().len()));
        while self.message_history.len() > self.config.history_size
            invariant
                self.history().len() <= all.len(),
                self.history() == all.skip(all.len() - self.history().len()),
                self.history().len() == all.len() || self.history().len()
                    >= self.config().history_size,
                self.deliveries() == old(self).deliveries(),
                self.broadcaster() == old(self).broadcaster(),
                self.config() == old(self).config(),
                self.topic_counts() == old(self).topic_counts(),
                self.stats() == old(self).stats(),
            decreases self.history().len(),
        {
            let ghost longer = self.history();
            let _ = self.message_history.pop_front();
            assert(self.history() =~= longer.skip(1));
            assert(self.history() =~= all.skip(all.len() - self.history().len()));
        }
        assert(self.history() =~= newest(all, self.config().history_size));
        assert(remembers(old(self).history(), event, self.config().history_size, self.history()));
        let sent = self.sender.send(event);
        assert(self.deliveries() == old(self).deliveries().push(self.deliveries().last()));
        match sent {
            Ok(_) => {
                self.stats.record_message_sent();
                self.stats.update_last_broadcast();
                Ok(())
            },
            Err(event) => {
                self.stats.record_message_dropped();
                let text = debug_form(&event);
                assert(shown_as(event, text@));
                Err(NotificationError::no_subscribers(text.as_str()))
            },
        }
    }

    /// Broadcasts multiple items as one event, or nothing where there are none.
    pub fn broadcast_batch(&mut self, events: Vec<T>) -> (outcome: Result<(), NotificationError>)
        ensures
            if events@.len() == 0 {
                outcome is Ok && *final(self) == *old(self)
            } else {
                exists|event: Event<T>|
                    {
                        &&& event.payload == EventPayload::Batch(events)
                        &&& event.topic is None
                        &&& event.priority == Priority::Normal
                        &&& crate::clock::clock_shows(event.timestamp)
                        &&& #[trigger] Self::broadcasts(*old(self), event, outcome, *final(self))
                    }
            },
    {
        if events.is_empty() {
            return Ok(());
        }
        let batch_event = Event::new(EventPayload::Batch(events));
        self.broadcast(batch_event)
    }

    /// How many subscribers named a topic.
    pub fn topic_subscriber_count(&self, topic: &str) -> (count: usize)
        ensures
            count == count_of(self.topic_counts(), topic@),
    {
        match self.topic_subscribers.get(topic) {
            Some(count) => *count,
            None => 0,
        }
    }

    /// The current number of receivers.
    pub fn subscriber_count(&self) -> (count: usize)
        ensures
            count <= crate::channel::MAX_RECEIVERS,
            crate::channel::counted(self.broadcaster(), count),
    {
        self.sender.receiver_count()
    }

    /// A snapshot of the current statistics.
    pub fn get_stats(&self) -> (stats: NotificationStats)
        ensures
            stats == self.stats(),
    {
        self.stats.clone()
    }

    /// Clones of the remembered events, the oldest first.
    pub fn get_history(&self) -> (history: Vec<Event<T>>)
        ensures
            all_cloned(self.history(), history@),
    {
        let mut history: Vec<Event<T>> = Vec::new();
        let mut n: usize = 0;
        while n < self.message_history.len()
            invariant
                n <= self.history().len(),
                all_cloned(self.history().take(n as int), history@),
            decreases self.history().len() - n,
        {
            history.push(self.message_history[n].clone());
            n += 1;
        }
        assert(self.history().take(n as int) == self.history());
        history
    }
}

impl<T: Clone + Debug> Default for NotificationHub<T> {
    fn default() -> (hub: Self)
        ensures
            hub.config().channel_size == crate::notifications::config::DEFAULT_CHANNEL_SIZE,
            hub.config().ws_timeout == crate::clock::seconds(
                crate::notifications::config::DEFAULT_WS_TIMEOUT_SECS,
            ),
            hub.config().history_size == crate::notifications::config::DEFAULT_HISTORY_SIZE,
            crate::channel::opened(
                crate::notifications::config::DEFAULT_CHANNEL_SIZE,
                hub.broadcaster(),
            ),
            hub.deliveries() == Seq::<Delivery<Event<T>>>::empty(),
            hub.history() == Seq::<Event<T>>::empty(),
            hub.topic_counts() == Map::<Seq<char>, usize>::empty(),
            hub.stats() == (NotificationStats {
                messages_sent: 0,
                messages_dropped: 0,
                active_subscribers: 0,
                last_broadcast: None,
            }),
    {
        Self::new()
    }
}

/// An event that nobody could receive is shown in the answer in its debug form, behind a fixed
/// text and with nothing after it.
proof fn law_a_refused_event_is_shown<T: Clone + Debug>(
    before: NotificationHub<T>,
    event: Event<T>,
    outcome: Result<(), NotificationError>,
    after: NotificationHub<T>,
)
    requires
        exists|h: &mut NotificationHub<T>|
            *h == before && *final(h) == after && #[trigger] call_ensures(
                NotificationHub::<T>::broadcast,
                (h, event),
                outcome,
            ),
        outcome is Err,
    ensures
        outcome matches Err(NotificationError::SendError(text)) && exists|form: String| #[trigger]
            call_ensures(debug_form::<T>, (&event,), form) && text@
                == "No active subscribers for event: "@ + form@,
{
    let text = outcome->Err_0->SendError_0;
    let shown = choose|shown: Seq<char>| #[trigger]
        shown_as(event, shown) && text@ == "No active subscribers for event: "@ + shown;
    let form = choose|form: String| #[trigger]
        call_ensures(debug_form::<T>, (&event,), form) && form@ == shown;
    assert(call_ensures(debug_form::<T>, (&event,), form));
}

} // verus!
