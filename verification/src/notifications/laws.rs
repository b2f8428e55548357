//! What holds of a hub over many calls.
use crate::notifications::error::NotificationError;
use crate::notifications::event::{Event, Priority};
use crate::notifications::filter::SubscriptionFilter;
use crate::notifications::hub::NotificationHub;
use crate::notifications::stats::NotificationStats;
use crate::notifications::subscription::Subscription;
use std::fmt::Debug;
use tokio::sync::broadcast::Receiver;
use vstd::prelude::*;

verus! {

/// A call that changes a hub, with what it answered.
#[verifier::reject_recursive_types(T)]
pub enum Call<T> {
    Broadcast { event: Event<T>, outcome: Result<(), NotificationError> },
    Subscribe { receiver: Receiver<Event<T>> },
    SubscribeWithFilter { filter: SubscriptionFilter, subscription: Subscription<T> },
}

/// `before` becomes `after` by the call.
pub open spec fn made<T: Clone + Debug>(
    before: NotificationHub<T>,
    call: Call<T>,
    after: NotificationHub<T>,
) -> bool {
    match call {
        Call::Broadcast { event, outcome } => NotificationHub::broadcasts(
            before,
            event,
            outcome,
            after,
        ),
        Call::Subscribe { receiver } => NotificationHub::subscribes(before, receiver, after),
        Call::SubscribeWithFilter { filter, subscription } => {
            NotificationHub::subscribes_with_filter(before, filter, subscription, after)
        },
    }
}

/// The calls were made one after the other; `hubs` has the hub before the first, and after
/// each.
pub open spec fn all_made<T: Clone + Debug>(
    hubs: Seq<NotificationHub<T>>,
    calls: Seq<Call<T>>,
) -> bool {
    &&& hubs.len() == calls.len() + 1
    &&& forall|i: int| 0 <= i < calls.len() ==> made(hubs[i], #[trigger] calls[i], hubs[i + 1])
}

/// The hub is one on which nothing was called yet.
pub open spec fn fresh<T: Clone + Debug>(hub: NotificationHub<T>) -> bool {
    &&& hub.history() == Seq::<Event<T>>::empty()
    &&& hub.topic_counts() == Map::<Seq<char>, usize>::empty()
    &&& hub.stats() == NotificationStats {
        messages_sent: 0,
        messages_dropped: 0,
        active_subscribers: 0,
        last_broadcast: None,
    }
}

/// The events that were broadcast, in order.
pub open spec fn events_of<T>(calls: Seq<Call<T>>) -> Seq<Event<T>>
    decreases calls.len(),
{
    if calls.len() == 0 {
        Seq::empty()
    } else {
        match calls.last() {
            Call::Broadcast { event, .. } => events_of(calls.drop_last()).push(event),
            _ => events_of(calls.drop_last()),
        }
    }
}

/// How many of the calls meet a condition.
pub open spec fn how_many<T>(calls: Seq<Call<T>>, condition: spec_fn(Call<T>) -> bool) -> nat
    decreases calls.len(),
{
    if calls.len() == 0 {
        0
    } else {
        how_many(calls.drop_last(), condition) + if condition(calls.last()) {
            1nat
        } else {
            0
        }
    }
}

/// The call broadcast an event to somebody.
pub open spec fn sent<T>() -> spec_fn(Call<T>) -> bool {
    |call: Call<T>| call matches Call::Broadcast { outcome, .. } && outcome is Ok
}

/// The call broadcast an event that nobody could receive.
pub open spec fn dropped<T>() -> spec_fn(Call<T>) -> bool {
    |call: Call<T>| call matches Call::Broadcast { outcome, .. } && outcome is Err
}

/// The call made a subscriber, with or without a filter.
pub open spec fn subscribed<T>() -> spec_fn(Call<T>) -> bool {
    |call: Call<T>| call is Subscribe || call is SubscribeWithFilter
}

/// The call made a subscriber whose filter names the topic.
pub open spec fn named<T>(topic: Seq<char>) -> spec_fn(Call<T>) -> bool {
    |call: Call<T>|
        call matches Call::SubscribeWithFilter { filter, .. } && filter.topics matches Some(topics)
            && crate::notifications::filter::has_topic(topics@, topic)
}

/// Where a counter that wraps around stands after counting to `n`.
pub open spec fn wrapped(n: nat) -> int {
    n as int % 0x1_0000_0000_0000_0000
}

/// The history is made of clones of the last events of `past`, as many as the hub is set up
/// to remember.
pub open spec fn recalls<T: Clone + Debug>(hub: NotificationHub<T>, past: Seq<Event<T>>) -> bool {
    let kept = hub.history().len();
    &&& kept == if past.len() < hub.config().history_size {
        past.len()
    } else {
        hub.config().history_size as nat
    }
    &&& crate::notifications::hub::all_cloned(past.skip(past.len() - kept), hub.history())
}

/// The history is never longer than the hub is set up to remember: it starts empty, and a
/// broadcast keeps it within the limit.
pub proof fn law_history_is_bounded<T: Clone + Debug>(
    before: NotificationHub<T>,
    event: Event<T>,
    outcome: Result<(), NotificationError>,
    after: NotificationHub<T>,
)
    requires
        NotificationHub::broadcasts(before, event, outcome, after),
    ensures
        after.history().len() <= after.config().history_size,
{
}

/// A hub that is set up to remember nothing remembers nothing.
pub proof fn law_no_history_where_none_is_asked_for<T: Clone + Debug>(
    before: NotificationHub<T>,
    event: Event<T>,
    outcome: Result<(), NotificationError>,
    after: NotificationHub<T>,
)
    requires
        before.config().history_size == 0,
        NotificationHub::broadcasts(before, event, outcome, after),
    ensures
        after.history() == Seq::<Event<T>>::empty(),
{
}

/// What a history recalls before a broadcast it recalls after it, with the new event behind.
/// That does not depend on whether anybody received them.
pub proof fn law_history_recalls_the_last_events<T: Clone + Debug>(
    before: NotificationHub<T>,
    past: Seq<Event<T>>,
    event: Event<T>,
    outcome: Result<(), NotificationError>,
    after: NotificationHub<T>,
)
    requires
        recalls(before, past),
        NotificationHub::broadcasts(before, event, outcome, after),
    ensures
        recalls(after, past.push(event)),
{
    let size = before.config().history_size;
    let copy = choose|copy: Event<T>| #[trigger]
        crate::notifications::event::event_cloned(event, copy) && after.history()
            == crate::notifications::hub::newest(before.history().push(copy), size);
    let longer = before.history().push(copy);
    let all = past.push(event);
    let kept = before.history().len();
    let n = after.history().len();
    let recent = past.skip(past.len() - kept);
    let wanted = all.skip(all.len() - n);
    assert forall|i: int| 0 <= i < n implies crate::notifications::event::event_cloned(
        wanted[i],
        #[trigger] after.history()[i],
    ) by {
        let k = longer.len() - n + i;
        assert(after.history()[i] == longer[k]);
        assert(wanted[i] == all[all.len() - n + i]);
        if k < kept {
            assert(longer[k] == before.history()[k]);
            assert(recent[k] == past[past.len() - kept + k]);
            assert(crate::notifications::event::event_cloned(recent[k], before.history()[k]));
        }
    }
}

/// After any calls on a fresh hub its history holds the last of the events that were
/// broadcast, in order, as many as it is set up to remember. It does not matter whether
/// anybody received them.
pub proof fn law_history_after_any_calls<T: Clone + Debug>(
    hubs: Seq<NotificationHub<T>>,
    calls: Seq<Call<T>>,
)
    requires
        all_made(hubs, calls),
        fresh(hubs[0]),
    ensures
        recalls(hubs.last(), events_of(calls)),
        hubs.last().config() == hubs[0].config(),
    decreases calls.len(),
{
    if calls.len() > 0 {
        let n = calls.len() - 1;
        lemma_shorter(hubs, calls);
        law_history_after_any_calls(hubs.drop_last(), calls.drop_last());
        let past = events_of(calls.drop_last());
        if let Call::Broadcast { event, outcome } = calls[n] {
            law_history_recalls_the_last_events(hubs[n], past, event, outcome, hubs[n + 1]);
        }
    }
}

/// Calls without the last one were made, too, and the last one on what they left.
proof fn lemma_shorter<T: Clone + Debug>(hubs: Seq<NotificationHub<T>>, calls: Seq<Call<T>>)
    requires
        all_made(hubs, calls),
        calls.len() > 0,
    ensures
        all_made(hubs.drop_last(), calls.drop_last()),
        hubs.drop_last()[0] == hubs[0],
        hubs.drop_last().last() == hubs[calls.len() - 1],
        hubs.last() == hubs[calls.len() as int],
        made(hubs[calls.len() - 1], calls[calls.len() - 1], hubs[calls.len() as int]),
{
    assert forall|i: int| 0 <= i < calls.drop_last().len() implies made(
        hubs.drop_last()[i],
        #[trigger] calls.drop_last()[i],
        hubs.drop_last()[i + 1],
    ) by {
        assert(made(hubs[i], calls[i], hubs[i + 1]));
    }
}

/// After any calls on a fresh hub its statistics count the broadcasts that somebody could
/// receive, those that nobody could, and the subscriptions. A subscriber that leaves is not
/// taken off. An event was broadcast last at some time if one was sent at all.
pub proof fn law_statistics_after_any_calls<T: Clone + Debug>(
    hubs: Seq<NotificationHub<T>>,
    calls: Seq<Call<T>>,
)
    requires
        all_made(hubs, calls),
        fresh(hubs[0]),
    ensures
        hubs.last().stats().messages_sent == wrapped(how_many(calls, sent())),
        hubs.last().stats().messages_dropped == wrapped(how_many(calls, dropped())),
        hubs.last().stats().active_subscribers == wrapped(how_many(calls, subscribed())),
        hubs.last().stats().last_broadcast is Some <==> how_many(calls, sent()) > 0,
        how_many(calls, sent()) + how_many(calls, dropped()) == events_of(calls).len(),
    decreases calls.len(),
{
    if calls.len() > 0 {
        lemma_shorter(hubs, calls);
        law_statistics_after_any_calls(hubs.drop_last(), calls.drop_last());
    }
}

/// After any calls on a fresh hub the count of a topic is the number of subscribers whose
/// filter names it, each counted once.
pub proof fn law_topic_counts_after_any_calls<T: Clone + Debug>(
    hubs: Seq<NotificationHub<T>>,
    calls: Seq<Call<T>>,
    topic: Seq<char>,
)
    requires
        all_made(hubs, calls),
        fresh(hubs[0]),
    ensures
        crate::notifications::hub::count_of(hubs.last().topic_counts(), topic) == how_many(
            calls,
            named(topic),
        ),
    decreases calls.len(),
{
    if calls.len() > 0 {
        lemma_shorter(hubs, calls);
        law_topic_counts_after_any_calls(hubs.drop_last(), calls.drop_last(), topic);
    }
}

/// After any calls, what was handed to the channel since are the events that were broadcast,
/// in order, and nothing else; each went through the hub's own sender.
pub proof fn law_deliveries_after_any_calls<T: Clone + Debug>(
    hubs: Seq<NotificationHub<T>>,
    calls: Seq<Call<T>>,
)
    requires
        all_made(hubs, calls),
        hubs[0].deliveries().len() == 0,
    ensures
        hubs.last().broadcaster() == hubs[0].broadcaster(),
        hubs.last().deliveries().len() == events_of(calls).len(),
        forall|i: int|
            0 <= i < events_of(calls).len() ==> {
                let delivery = #[trigger] hubs.last().deliveries()[i];
                &&& delivery.value == events_of(calls)[i]
                &&& crate::channel::went_through(hubs[0].broadcaster(), delivery)
            },
    decreases calls.len(),
{
    if calls.len() > 0 {
        lemma_shorter(hubs, calls);
        law_deliveries_after_any_calls(hubs.drop_last(), calls.drop_last());
        let before = hubs.drop_last().last().deliveries();
        let after = hubs.last().deliveries();
        assert forall|i: int| 0 <= i < events_of(calls).len() implies {
            let delivery = #[trigger] after[i];
            &&& delivery.value == events_of(calls)[i]
            &&& crate::channel::went_through(hubs[0].broadcaster(), delivery)
        } by {
            if i < before.len() {
                assert(after[i] == before[i]);
            }
        }
    }
}

/// Every broadcast is counted once: as sent where it was answered with success, which is
/// where somebody was subscribed, and as dropped otherwise.
pub proof fn law_every_broadcast_is_counted<T: Clone + Debug>(
    before: NotificationHub<T>,
    event: Event<T>,
    outcome: Result<(), NotificationError>,
    after: NotificationHub<T>,
)
    requires
        NotificationHub::broadcasts(before, event, outcome, after),
    ensures
        outcome is Ok <==> after.deliveries().last().receivers > 0,
        outcome is Ok ==> after.stats().messages_sent
            == before.stats().messages_sent.wrapping_add(1) && after.stats().messages_dropped
            == before.stats().messages_dropped,
        outcome is Err ==> after.stats().messages_sent == before.stats().messages_sent
            && after.stats().messages_dropped == before.stats().messages_dropped.wrapping_add(1),
        after.stats().active_subscribers == before.stats().active_subscribers,
{
}

/// The filter that a subscriber gave picks everything that it is given from before its
/// subscription.
pub proof fn law_backlog_is_wanted<T: Clone + Debug>(
    before: NotificationHub<T>,
    filter: SubscriptionFilter,
    subscription: Subscription<T>,
    after: NotificationHub<T>,
    i: int,
)
    requires
        NotificationHub::subscribes_with_filter(before, filter, subscription, after),
        0 <= i < subscription.backlog@.len(),
    ensures
        subscription.filter.picks(subscription.backlog@[i].priority, subscription.backlog@[i].topic),
{
    let picks = |event: Event<T>| filter.picks(event.priority, event.topic);
    let events = crate::notifications::hub::picked(before.history(), filter);
    assert(events == before.history().filter(picks));
    before.history().lemma_filter_pred(picks, i);
    assert(crate::notifications::event::event_cloned(events[i], subscription.backlog@[i]));
}

/// Every event that a subscriber with a filter ever gets, from before its subscription or
/// after, is one that the filter picks.
pub proof fn law_subscriber_gets_only_picked_events<T: Clone + Debug>(
    before: NotificationHub<T>,
    filter: SubscriptionFilter,
    subscription: Subscription<T>,
    after: NotificationHub<T>,
    yielded: Seq<Event<T>>,
    i: int,
)
    requires
        NotificationHub::subscribes_with_filter(before, filter, subscription, after),
        0 <= i < subscription.gets(yielded).len(),
    ensures
        filter.picks(
            subscription.gets(yielded)[i].priority,
            subscription.gets(yielded)[i].topic,
        ),
{
    let backlog = subscription.backlog@;
    if i < backlog.len() {
        law_backlog_is_wanted(before, filter, subscription, after, i);
    } else {
        let picks = |event: Event<T>| filter.picks(event.priority, event.topic);
        assert(crate::notifications::hub::picked(yielded, filter) == yielded.filter(picks));
        yielded.lemma_filter_pred(picks, i - backlog.len());
    }
}

/// The remembered events that a new subscriber is given are those that its filter picks, and
/// none of those is left out.
pub proof fn law_backlog_follows_the_filter<T>(
    history: Seq<Event<T>>,
    filter: SubscriptionFilter,
    event: Event<T>,
)
    ensures
        crate::notifications::hub::picked(history, filter).contains(event) <==> history.contains(
            event,
        ) && filter.picks(event.priority, event.topic),
{
    let picks = |event: Event<T>| filter.picks(event.priority, event.topic);
    let events = crate::notifications::hub::picked(history, filter);
    assert(events == history.filter(picks));
    if events.contains(event) {
        let k = choose|k: int| 0 <= k < events.len() && events[k] == event;
        history.lemma_filter_pred(picks, k);
        history.lemma_filter_contains_rev(picks, event);
    }
    if history.contains(event) && picks(event) {
        let i = choose|i: int| 0 <= i < history.len() && history[i] == event;
        history.lemma_filter_contains(picks, i);
    }
}

/// A new subscriber with a filter that picks every event is given the whole history.
pub proof fn law_full_backlog<T>(history: Seq<Event<T>>, filter: SubscriptionFilter)
    requires
        filter.topics is None,
        filter.min_priority == Priority::Low,
    ensures
        crate::notifications::hub::picked(history, filter) == history,
    decreases history.len(),
{
    reveal(Seq::filter);
    if history.len() > 0 {
        law_full_backlog(history.drop_last(), filter);
        assert(history.drop_last().push(history.last()) == history);
    }
}

} // verus!
