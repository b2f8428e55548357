//! Laws of the notification hub.
use crate::laws::filters::lemma_cloned_is_same;
use crate::notifications::config::NotificationConfig;
use crate::notifications::error::NotificationError;
use crate::notifications::event::{Event, EventPayload, Priority};
use crate::notifications::filter::SubscriptionFilter;
use crate::notifications::hub::NotificationHub;
use crate::notifications::stats::NotificationStats;
use crate::notifications::subscription::Subscription;
use std::fmt::Debug;
use std::time::Instant;
use tokio::sync::broadcast::{Receiver, Sender};
use vstd::prelude::*;

verus! {

/// A counter was at `before` and counted one more, or started anew behind the last number.
pub open spec fn counted_on(before: u64, after: u64) -> bool {
    after == if before == u64::MAX {
        0
    } else {
        before + 1
    }
}

/// A broadcast is remembered behind what was remembered before, whether anybody received it
/// or not; the oldest events are forgotten as far as there are more than the hub is to
/// remember.
pub proof fn law_a_broadcast_is_remembered<T: Clone + Debug>(
    before: NotificationHub<T>,
    event: Event<T>,
    outcome: Result<(), NotificationError>,
    after: NotificationHub<T>,
    old_history: Vec<Event<T>>,
    new_history: Vec<Event<T>>,
    i: int,
)
    requires
        crate::laws::filters::clones_truly::<T>(),
        exists|h: &mut NotificationHub<T>|
            *h == before && *final(h) == after && #[trigger] call_ensures(
                NotificationHub::<T>::broadcast,
                (h, event),
                outcome,
            ),
        call_ensures(NotificationHub::<T>::get_history, (&before,), old_history),
        call_ensures(NotificationHub::<T>::get_history, (&after,), new_history),
        0 <= i < new_history@.len(),
    ensures
        new_history@.len() == if old_history@.len() + 1 <= before.config().history_size {
            old_history@.len() + 1
        } else {
            before.config().history_size as nat
        },
        crate::laws::filters::same_event(
            new_history@[i],
            old_history@.push(event)[old_history@.len() + 1 - new_history@.len() + i],
        ),
{
    let size = before.config().history_size;
    let copy = choose|copy: Event<T>| #[trigger]
        crate::notifications::event::event_cloned(event, copy) && after.history()
            == crate::notifications::hub::newest(before.history().push(copy), size);
    let all = before.history().push(copy);
    let k = all.len() - after.history().len() + i;
    assert(after.history()[i] == all[k]);
    lemma_cloned_is_same(event, copy);
    assert(crate::notifications::event::event_cloned(after.history()[i], new_history@[i]));
    lemma_cloned_is_same(after.history()[i], new_history@[i]);
    if k < old_history@.len() {
        assert(crate::notifications::event::event_cloned(before.history()[k], old_history@[k]));
        lemma_cloned_is_same(before.history()[k], old_history@[k]);
    }
}

/// How many events are remembered after a broadcast: one more than before, but never more
/// than the hub is to remember.
pub proof fn law_history_has_its_size<T: Clone + Debug>(
    before: NotificationHub<T>,
    event: Event<T>,
    outcome: Result<(), NotificationError>,
    after: NotificationHub<T>,
    old_history: Vec<Event<T>>,
    new_history: Vec<Event<T>>,
)
    requires
        exists|h: &mut NotificationHub<T>|
            *h == before && *final(h) == after && #[trigger] call_ensures(
                NotificationHub::<T>::broadcast,
                (h, event),
                outcome,
            ),
        call_ensures(NotificationHub::<T>::get_history, (&before,), old_history),
        call_ensures(NotificationHub::<T>::get_history, (&after,), new_history),
    ensures
        new_history@.len() == if old_history@.len() + 1 <= before.config().history_size {
            old_history@.len() + 1
        } else {
            before.config().history_size as nat
        },
        after.config() == before.config(),
{
}

/// A broadcast hands just the event to the channel, once. It succeeds exactly where the
/// channel had a receiver, and then counts as sent at that moment; otherwise it counts as
/// dropped, and the answer says so. Nothing else is counted.
pub proof fn law_a_broadcast_is_sent_and_counted<T: Clone + Debug>(
    before: NotificationHub<T>,
    event: Event<T>,
    outcome: Result<(), NotificationError>,
    after: NotificationHub<T>,
    old_stats: NotificationStats,
    new_stats: NotificationStats,
    topic: &str,
    old_count: usize,
    new_count: usize,
)
    requires
        exists|h: &mut NotificationHub<T>|
            *h == before && *final(h) == after && #[trigger] call_ensures(
                NotificationHub::<T>::broadcast,
                (h, event),
                outcome,
            ),
        call_ensures(NotificationHub::<T>::get_stats, (&before,), old_stats),
        call_ensures(NotificationHub::<T>::get_stats, (&after,), new_stats),
        call_ensures(NotificationHub::<T>::topic_subscriber_count, (&before, topic), old_count),
        call_ensures(NotificationHub::<T>::topic_subscriber_count, (&after, topic), new_count),
    ensures
        after.deliveries().len() == before.deliveries().len() + 1,
        after.deliveries().take(before.deliveries().len() as int) == before.deliveries(),
        after.deliveries().last().value == event,
        outcome is Ok <==> after.deliveries().last().receivers > 0,
        outcome is Ok ==> counted_on(old_stats.messages_sent, new_stats.messages_sent)
            && new_stats.messages_dropped == old_stats.messages_dropped && (
        new_stats.last_broadcast matches Some(moment) && call_ensures(Instant::now, (), moment)),
        outcome is Err ==> counted_on(old_stats.messages_dropped, new_stats.messages_dropped)
            && new_stats.messages_sent == old_stats.messages_sent && new_stats.last_broadcast
            == old_stats.last_broadcast,
        outcome matches Err(error) ==> error matches NotificationError::SendError(text)
            && text@.len() >= "No active subscribers for event: "@.len() && text@.take(
            "No active subscribers for event: "@.len() as int,
        ) == "No active subscribers for event: "@,
        new_stats.active_subscribers == old_stats.active_subscribers,
        new_count == old_count,
        after.broadcaster() == before.broadcaster(),
{
    assert(after.deliveries().take(before.deliveries().len() as int) =~= before.deliveries());
    if let Err(NotificationError::SendError(text)) = outcome {
        let shown = choose|shown: Seq<char>| #[trigger]
            crate::notifications::hub::shown_as(event, shown) && text@
                == "No active subscribers for event: "@ + shown;
        assert(text@.take("No active subscribers for event: "@.len() as int)
            =~= "No active subscribers for event: "@);
    }
}

/// A batch is broadcast as one event with all its items in their order, without a topic and
/// of normal priority. An empty batch is not broadcast at all.
pub proof fn law_a_batch_is_one_event<T: Clone + Debug>(
    before: NotificationHub<T>,
    items: Vec<T>,
    outcome: Result<(), NotificationError>,
    after: NotificationHub<T>,
    old_stats: NotificationStats,
    new_stats: NotificationStats,
)
    requires
        exists|h: &mut NotificationHub<T>|
            *h == before && *final(h) == after && #[trigger] call_ensures(
                NotificationHub::<T>::broadcast_batch,
                (h, items),
                outcome,
            ),
        call_ensures(NotificationHub::<T>::get_stats, (&before,), old_stats),
        call_ensures(NotificationHub::<T>::get_stats, (&after,), new_stats),
    ensures
        items@.len() == 0 ==> outcome is Ok && after == before,
        items@.len() > 0 ==> {
            let sent = after.deliveries().last().value;
            &&& after.deliveries().len() == before.deliveries().len() + 1
            &&& sent.payload matches EventPayload::Batch(batch) && batch@ == items@
            &&& sent.topic is None
            &&& sent.priority == Priority::Normal
            &&& outcome is Ok <==> after.deliveries().last().receivers > 0
            &&& outcome is Ok ==> counted_on(old_stats.messages_sent, new_stats.messages_sent)
            &&& outcome is Err ==> counted_on(
                old_stats.messages_dropped,
                new_stats.messages_dropped,
            )
        },
{
}

/// Subscribing counts one more subscriber and changes nothing else: nothing is sent, nothing
/// forgotten, and no topic counted.
pub proof fn law_subscribing_counts_a_subscriber<T: Clone + Debug>(
    before: NotificationHub<T>,
    receiver: Receiver<Event<T>>,
    after: NotificationHub<T>,
    old_stats: NotificationStats,
    new_stats: NotificationStats,
    topic: &str,
    old_count: usize,
    new_count: usize,
)
    requires
        exists|h: &mut NotificationHub<T>|
            *h == before && *final(h) == after && #[trigger] call_ensures(
                NotificationHub::<T>::subscribe,
                (h,),
                receiver,
            ),
        call_ensures(NotificationHub::<T>::get_stats, (&before,), old_stats),
        call_ensures(NotificationHub::<T>::get_stats, (&after,), new_stats),
        call_ensures(NotificationHub::<T>::topic_subscriber_count, (&before, topic), old_count),
        call_ensures(NotificationHub::<T>::topic_subscriber_count, (&after, topic), new_count),
    ensures
        counted_on(old_stats.active_subscribers, new_stats.active_subscribers),
        new_stats.messages_sent == old_stats.messages_sent,
        new_stats.messages_dropped == old_stats.messages_dropped,
        new_stats.last_broadcast == old_stats.last_broadcast,
        new_count == old_count,
        after.deliveries() == before.deliveries(),
        after.history() == before.history(),
        after.config() == before.config(),
        after.broadcaster() == before.broadcaster(),
        crate::channel::subscribed(after.broadcaster(), receiver),
{
}

/// Subscribing with a filter counts one more subscriber, also under each topic that the
/// filter names, once, and under no other topic. Nothing is sent to those who subscribed
/// before.
pub proof fn law_subscribing_counts_the_topics<T: Clone + Debug>(
    before: NotificationHub<T>,
    filter: SubscriptionFilter,
    subscription: Subscription<T>,
    after: NotificationHub<T>,
    old_stats: NotificationStats,
    new_stats: NotificationStats,
    topic: &str,
    old_count: usize,
    new_count: usize,
)
    requires
        exists|h: &mut NotificationHub<T>|
            *h == before && *final(h) == after && #[trigger] call_ensures(
                NotificationHub::<T>::subscribe_with_filter,
                (h, filter),
                subscription,
            ),
        call_ensures(NotificationHub::<T>::get_stats, (&before,), old_stats),
        call_ensures(NotificationHub::<T>::get_stats, (&after,), new_stats),
        call_ensures(NotificationHub::<T>::topic_subscriber_count, (&before, topic), old_count),
        call_ensures(NotificationHub::<T>::topic_subscriber_count, (&after, topic), new_count),
    ensures
        counted_on(old_stats.active_subscribers, new_stats.active_subscribers),
        new_stats.messages_sent == old_stats.messages_sent,
        new_stats.messages_dropped == old_stats.messages_dropped,
        new_stats.last_broadcast == old_stats.last_broadcast,
        new_count - old_count == if filter.topics is Some && exists|i: int|
            0 <= i < filter.topics->Some_0@.len() && (#[trigger] filter.topics->Some_0@[i])@
                == topic@ {
            1int
        } else {
            0
        },
        subscription.filter == filter,
        after.deliveries() == before.deliveries(),
        after.history() == before.history(),
        after.config() == before.config(),
        after.broadcaster() == before.broadcaster(),
        crate::channel::subscribed(after.broadcaster(), subscription.receiver),
{
    assert(crate::notifications::hub::count_of(after.topic_counts(), topic@)
        == crate::notifications::hub::count_of(before.topic_counts(), topic@)
        + crate::notifications::hub::named_by(filter, topic@));
    if let Some(topics) = filter.topics {
        assert(crate::notifications::filter::has_topic(topics@, topic@) <==> exists|i: int|
            0 <= i < topics@.len() && (#[trigger] topics@[i])@ == topic@);
    }
}

/// A subscriber with a filter is given just those of the remembered events that the filter
/// picks, in their order and each once: `chosen` says which.
pub open spec fn chosen_from<T>(
    history: Seq<Event<T>>,
    filter: SubscriptionFilter,
    backlog: Seq<Event<T>>,
    chosen: Seq<int>,
) -> bool {
    &&& chosen.len() == backlog.len()
    &&& forall|i: int, j: int| 0 <= i < j < chosen.len() ==> chosen[i] < chosen[j]
    &&& forall|i: int|
        0 <= i < chosen.len() ==> 0 <= #[trigger] chosen[i] < history.len()
            && crate::laws::filters::same_event(history[chosen[i]], backlog[i])
    &&& forall|k: int|
        0 <= k < history.len() ==> (chosen.contains(k) <==> crate::laws::filters::asked_for(
            filter,
            (#[trigger] history[k]).priority,
            history[k].topic,
        ))
}

/// Which places a filtered sequence is taken from.
proof fn lemma_filter_places<A>(s: Seq<A>, pred: spec_fn(A) -> bool) -> (places: Seq<int>)
    ensures
        places.len() == s.filter(pred).len(),
        forall|i: int, j: int| 0 <= i < j < places.len() ==> places[i] < places[j],
        forall|i: int|
            0 <= i < places.len() ==> 0 <= #[trigger] places[i] < s.len() && s[places[i]]
                == s.filter(pred)[i] && pred(s[places[i]]),
        forall|k: int| 0 <= k < s.len() && pred(#[trigger] s[k]) ==> places.contains(k),
    decreases s.len(),
{
    reveal(Seq::filter);
    if s.len() == 0 {
        Seq::empty()
    } else {
        let last = s.len() - 1;
        let shorter = s.drop_last();
        let before = lemma_filter_places(shorter, pred);
        let places = if pred(s[last]) {
            before.push(last)
        } else {
            before
        };
        assert forall|k: int| 0 <= k < s.len() && pred(#[trigger] s[k]) implies places.contains(k) by {
            if k < last {
                assert(shorter[k] == s[k]);
                let i = choose|i: int| 0 <= i < before.len() && before[i] == k;
                assert(places[i] == k);
            } else {
                assert(places[places.len() - 1] == k);
            }
        }
        assert forall|i: int| 0 <= i < places.len() implies 0 <= #[trigger] places[i] < s.len()
            && s[places[i]] == s.filter(pred)[i] && pred(s[places[i]]) by {
            if i < before.len() {
                assert(places[i] == before[i]);
                assert(shorter[before[i]] == s[before[i]]);
            }
        }
        places
    }
}

/// What a filter picks is what was asked for.
proof fn lemma_asked_for(filter: SubscriptionFilter, priority: Priority, topic: Option<String>)
    ensures
        filter.picks(priority, topic) <==> crate::laws::filters::asked_for(filter, priority, topic),
{
    if let Some(topics) = filter.topics {
        if let Some(name) = topic {
            assert(crate::notifications::filter::has_topic(topics@, name@) <==> exists|i: int|
                0 <= i < topics@.len() && (#[trigger] topics@[i])@ == name@);
        }
    }
}

/// A new subscriber with a filter is given the remembered events that the filter picks, and
/// no others.
pub proof fn law_a_subscriber_is_given_what_it_wants<T: Clone + Debug>(
    before: NotificationHub<T>,
    history: Vec<Event<T>>,
    filter: SubscriptionFilter,
    subscription: Subscription<T>,
    after: NotificationHub<T>,
)
    requires
        crate::laws::filters::clones_truly::<T>(),
        call_ensures(NotificationHub::<T>::get_history, (&before,), history),
        exists|h: &mut NotificationHub<T>|
            *h == before && *final(h) == after && #[trigger] call_ensures(
                NotificationHub::<T>::subscribe_with_filter,
                (h, filter),
                subscription,
            ),
    ensures
        exists|chosen: Seq<int>| #[trigger]
            chosen_from(history@, filter, subscription.backlog@, chosen),
{
    let kept = before.history();
    let picks = |event: Event<T>| filter.picks(event.priority, event.topic);
    let picked = crate::notifications::hub::picked(kept, filter);
    assert(picked == kept.filter(picks));
    let chosen = lemma_filter_places(kept, picks);
    assert forall|k: int| 0 <= k < kept.len() implies #[trigger] crate::laws::filters::same_event(
        kept[k],
        history@[k],
    ) && history@[k].priority == kept[k].priority && history@[k].topic == kept[k].topic by {
        assert(crate::notifications::event::event_cloned(kept[k], history@[k]));
        lemma_cloned_is_same(kept[k], history@[k]);
    }
    assert forall|i: int| 0 <= i < chosen.len() implies 0 <= #[trigger] chosen[i] < history@.len()
        && crate::laws::filters::same_event(
        history@[chosen[i]],
        subscription.backlog@[i],
    ) by {
        let k = chosen[i];
        assert(kept[k] == picked[i]);
        assert(crate::notifications::event::event_cloned(picked[i], subscription.backlog@[i]));
        lemma_cloned_is_same(picked[i], subscription.backlog@[i]);
        assert(crate::laws::filters::same_event(kept[k], history@[k]));
    }
    assert forall|k: int| 0 <= k < history@.len() implies (chosen.contains(k)
        <==> crate::laws::filters::asked_for(
        filter,
        (#[trigger] history@[k]).priority,
        history@[k].topic,
    )) by {
        assert(crate::laws::filters::same_event(kept[k], history@[k]));
        assert(filter.picks(history@[k].priority, history@[k].topic) == picks(kept[k]));
        lemma_asked_for(filter, history@[k].priority, history@[k].topic);
        if chosen.contains(k) {
            let i = choose|i: int| 0 <= i < chosen.len() && chosen[i] == k;
            assert(picks(kept[chosen[i]]));
        }
    }
    assert(chosen_from(history@, filter, subscription.backlog@, chosen));
}

/// A new hub remembers nothing, has counted nothing and has a channel of the size that it was
/// set up with.
pub proof fn law_a_new_hub_is_empty<T: Clone + Debug>(
    config: NotificationConfig,
    hub: NotificationHub<T>,
    history: Vec<Event<T>>,
    stats: NotificationStats,
    topic: &str,
    count: usize,
    usual: NotificationConfig,
)
    requires
        call_ensures(NotificationConfig::default, (), usual),
        call_ensures(NotificationHub::<T>::with_config, (config,), hub) || (config == usual && (
        call_ensures(NotificationHub::<T>::new, (), hub) || call_ensures(
            <NotificationHub<T> as Default>::default,
            (),
            hub,
        ))),
        call_ensures(NotificationHub::<T>::get_history, (&hub,), history),
        call_ensures(NotificationHub::<T>::get_stats, (&hub,), stats),
        call_ensures(NotificationHub::<T>::topic_subscriber_count, (&hub, topic), count),
    ensures
        history@.len() == 0,
        stats.messages_sent == 0,
        stats.messages_dropped == 0,
        stats.active_subscribers == 0,
        stats.last_broadcast is None,
        count == 0,
        hub.deliveries().len() == 0,
        hub.config().history_size == config.history_size,
        hub.config().channel_size == config.channel_size,
        hub.config().ws_timeout == config.ws_timeout,
        crate::channel::opened(config.channel_size, hub.broadcaster()),
        usual.channel_size == 1024,
        usual.history_size == 100,
        usual.ws_timeout == crate::clock::seconds(30),
{
}

/// Statistics count on by one, each counter by itself; what is added can be taken off again.
pub proof fn law_statistics_count_by_one(
    new: NotificationStats,
    before: NotificationStats,
    sent: NotificationStats,
    dropped: NotificationStats,
    added: NotificationStats,
    removed: NotificationStats,
    moment: Instant,
    noted: NotificationStats,
    copy: NotificationStats,
)
    requires
        call_ensures(NotificationStats::new, (), new) || call_ensures(
            <NotificationStats as Default>::default,
            (),
            new,
        ),
        exists|s: &mut NotificationStats|
            *s == before && *final(s) == sent && #[trigger] call_ensures(
                NotificationStats::record_message_sent,
                (s,),
                (),
            ),
        exists|s: &mut NotificationStats|
            *s == before && *final(s) == dropped && #[trigger] call_ensures(
                NotificationStats::record_message_dropped,
                (s,),
                (),
            ),
        exists|s: &mut NotificationStats|
            *s == before && *final(s) == added && #[trigger] call_ensures(
                NotificationStats::record_subscriber_added,
                (s,),
                (),
            ),
        exists|s: &mut NotificationStats|
            *s == added && *final(s) == removed && #[trigger] call_ensures(
                NotificationStats::record_subscriber_removed,
                (s,),
                (),
            ),
        exists|s: &mut NotificationStats|
            *s == before && *final(s) == noted && #[trigger] call_ensures(
                NotificationStats::set_last_broadcast,
                (s, moment),
                (),
            ),
        call_ensures(<NotificationStats as Clone>::clone, (&before,), copy),
    ensures
        new.messages_sent == 0 && new.messages_dropped == 0 && new.active_subscribers == 0
            && new.last_broadcast is None,
        counted_on(before.messages_sent, sent.messages_sent) && sent.messages_dropped
            == before.messages_dropped && sent.active_subscribers == before.active_subscribers
            && sent.last_broadcast == before.last_broadcast,
        counted_on(before.messages_dropped, dropped.messages_dropped) && dropped.messages_sent
            == before.messages_sent && dropped.active_subscribers == before.active_subscribers
            && dropped.last_broadcast == before.last_broadcast,
        counted_on(before.active_subscribers, added.active_subscribers) && added.messages_sent
            == before.messages_sent && added.messages_dropped == before.messages_dropped
            && added.last_broadcast == before.last_broadcast,
        removed.active_subscribers == before.active_subscribers && removed.messages_sent
            == before.messages_sent && removed.messages_dropped == before.messages_dropped
            && removed.last_broadcast == before.last_broadcast,
        noted.last_broadcast == Some(moment) && noted.messages_sent == before.messages_sent
            && noted.messages_dropped == before.messages_dropped && noted.active_subscribers
            == before.active_subscribers,
        copy.messages_sent == before.messages_sent && copy.messages_dropped
            == before.messages_dropped && copy.active_subscribers == before.active_subscribers
            && copy.last_broadcast == before.last_broadcast,
{
}

/// Subscribers are counted by the hub's own channel, and what is handed out is a receiver or a
/// sending end of it. Each event that went out went through it.
pub proof fn law_the_channel_is_the_hubs_own<T: Clone + Debug>(
    hub: NotificationHub<T>,
    count: usize,
    copy: Sender<Event<T>>,
    subscribed: NotificationHub<T>,
    receiver: Receiver<Event<T>>,
    filter: SubscriptionFilter,
    filtered: NotificationHub<T>,
    subscription: Subscription<T>,
    event: Event<T>,
    outcome: Result<(), NotificationError>,
    after: NotificationHub<T>,
)
    requires
        call_ensures(NotificationHub::<T>::subscriber_count, (&hub,), count),
        call_ensures(NotificationHub::<T>::sender, (&hub,), copy),
        exists|h: &mut NotificationHub<T>|
            *h == hub && *final(h) == subscribed && #[trigger] call_ensures(
                NotificationHub::<T>::subscribe,
                (h,),
                receiver,
            ),
        exists|h: &mut NotificationHub<T>|
            *h == hub && *final(h) == filtered && #[trigger] call_ensures(
                NotificationHub::<T>::subscribe_with_filter,
                (h, filter),
                subscription,
            ),
        exists|h: &mut NotificationHub<T>|
            *h == hub && *final(h) == after && #[trigger] call_ensures(
                NotificationHub::<T>::broadcast,
                (h, event),
                outcome,
            ),
    ensures
        call_ensures(Sender::<Event<T>>::receiver_count, (&hub.broadcaster(),), count),
        cloned(hub.broadcaster(), copy),
        call_ensures(Sender::<Event<T>>::subscribe, (&hub.broadcaster(),), receiver),
        call_ensures(
            Sender::<Event<T>>::subscribe,
            (&hub.broadcaster(),),
            subscription.receiver,
        ),
        exists|sent: Result<usize, Event<T>>| #[trigger]
            crate::channel::handed(hub.broadcaster(), event, sent) && (sent is Ok
                <==> outcome is Ok) && (sent matches Ok(n) ==> after.deliveries().last().receivers
                == n),
{
    let delivery = after.deliveries().last();
    let sent = choose|sent: Result<usize, Event<T>>| #[trigger]
        crate::channel::handed(hub.broadcaster(), delivery.value, sent) && delivery.receivers
            == crate::channel::receivers_of(sent);
    crate::channel::lemma_taken_by_some(hub.broadcaster(), event, sent);
    assert(crate::channel::handed(hub.broadcaster(), event, sent));
}

} // verus!
