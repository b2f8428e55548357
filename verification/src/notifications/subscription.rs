//! What a subscriber with a filter gets.
use crate::notifications::event::Event;
use crate::notifications::filter::SubscriptionFilter;
use tokio::sync::broadcast::Receiver;
use vstd::prelude::*;

verus! {

/// A subscription for the events that a filter picks.
///
/// First come the events that were broadcast before and are still remembered, then those
/// that the receiver yields. The receiver yields every event of the hub; each is to go
/// through `receive`, which keeps those that the subscriber wants.
#[verifier::reject_recursive_types(T)]
pub struct Subscription<T> {
    /// Yields the events that are broadcast from the subscription on.
    pub receiver: Receiver<Event<T>>,
    /// The events from before the subscription, the oldest first.
    pub backlog: Vec<Event<T>>,
    /// Picks the events that the subscriber wants.
    pub filter: SubscriptionFilter,
}

impl<T> Subscription<T> {
    /// What the subscriber gets in all, where the receiver yields these events: what is left
    /// from before the subscription, then those of the events that are kept.
    pub open spec fn gets(self, yielded: Seq<Event<T>>) -> Seq<Event<T>> {
        self.backlog@ + crate::notifications::hub::picked(yielded, self.filter)
    }

    /// Takes the oldest event that is left from before the subscription.
    pub fn take_remembered(&mut self) -> (event: Option<Event<T>>)
        ensures
            old(self).backlog@.len() == 0 ==> event is None && *final(self) == *old(self),
            old(self).backlog@.len() > 0 ==> {
                &&& event == Some(old(self).backlog@[0])
                &&& final(self).backlog@ == old(self).backlog@.skip(1)
                &&& final(self).receiver == old(self).receiver
                &&& final(self).filter == old(self).filter
            },
    {
        if self.backlog.is_empty() {
            return None;
        }
        let event = self.backlog.remove(0);
        assert(self.backlog@ =~= old(self).backlog@.skip(1));
        Some(event)
    }

    /// Whether the subscriber wants an event that the receiver yielded.
    pub fn wants(&self, event: &Event<T>) -> (wanted: bool)
        ensures
            wanted == self.filter.picks(event.priority, event.topic),
    {
        self.filter.matches(event)
    }

    /// Keeps an event that the receiver yielded where the subscriber wants it.
    pub fn receive(&self, event: Event<T>) -> (kept: Option<Event<T>>)
        ensures
            kept == if self.filter.picks(event.priority, event.topic) {
                Some(event)
            } else {
                None
            },
    {
        if self.wants(&event) {
            Some(event)
        } else {
            None
        }
    }
}

/// Taking the oldest event from before the subscription is getting the first of what the
/// subscriber gets in all.
pub proof fn law_remembered_come_first<T>(
    before: Subscription<T>,
    after: Subscription<T>,
    yielded: Seq<Event<T>>,
)
    requires
        before.backlog@.len() > 0,
        after.backlog@ == before.backlog@.skip(1),
        after.filter == before.filter,
    ensures
        before.gets(yielded) == seq![before.backlog@[0]] + after.gets(yielded),
{
    assert(before.backlog@ =~= seq![before.backlog@[0]] + after.backlog@);
    assert(before.gets(yielded) =~= seq![before.backlog@[0]] + after.gets(yielded));
}

/// One more event from the receiver adds what `receive` keeps of it to what the subscriber
/// gets in all.
pub proof fn law_later_events_are_added<T>(
    subscription: Subscription<T>,
    yielded: Seq<Event<T>>,
    event: Event<T>,
)
    ensures
        subscription.gets(yielded.push(event)) == if subscription.filter.picks(
            event.priority,
            event.topic,
        ) {
            subscription.gets(yielded).push(event)
        } else {
            subscription.gets(yielded)
        },
{
    reveal(Seq::filter);
    assert(yielded.push(event).drop_last() == yielded);
    assert(subscription.gets(yielded.push(event)) =~= if subscription.filter.picks(
        event.priority,
        event.topic,
    ) {
        subscription.gets(yielded).push(event)
    } else {
        subscription.gets(yielded)
    });
}

} // verus!
