//! Statistics of the notification system.
use std::time::Instant;
use vstd::prelude::*;

verus! {

/// Statistics for monitoring the notification system. The counters wrap around.
#[derive(Debug)]
pub struct NotificationStats {
    pub messages_sent: u64,
    pub messages_dropped: u64,
    pub active_subscribers: u64,
    /// When an event was last broadcast to somebody.
    pub last_broadcast: Option<Instant>,
}

impl Default for NotificationStats {
    fn default() -> (stats: Self)
        ensures
            stats == (NotificationStats {
                messages_sent: 0,
                messages_dropped: 0,
                active_subscribers: 0,
                last_broadcast: None,
            }),
    {
        NotificationStats {
            messages_sent: 0,
            messages_dropped: 0,
            active_subscribers: 0,
            last_broadcast: None,
        }
    }
}

impl Clone for NotificationStats {
    fn clone(&self) -> (copy: Self)
        ensures
            copy == *self,
    {
        NotificationStats {
            messages_sent: self.messages_sent,
            messages_dropped: self.messages_dropped,
            active_subscribers: self.active_subscribers,
            last_broadcast: self.last_broadcast,
        }
    }
}

impl NotificationStats {
    /// Statistics of a system in which nothing has happened.
    pub fn new() -> (stats: Self)
        ensures
            stats == (NotificationStats {
                messages_sent: 0,
                messages_dropped: 0,
                active_subscribers: 0,
                last_broadcast: None,
            }),
    {
        Self::default()
    }

    /// Counts an event that was broadcast to somebody.
    pub fn record_message_sent(&mut self)
        ensures
            *final(self) == (NotificationStats {
                messages_sent: old(self).messages_sent.wrapping_add(1),
                ..*old(self)
            }),
    {
        self.messages_sent = self.messages_sent.wrapping_add(1);
    }

    /// Counts an event that nobody could receive.
    pub fn record_message_dropped(&mut self)
        ensures
            *final(self) == (NotificationStats {
                messages_dropped: old(self).messages_dropped.wrapping_add(1),
                ..*old(self)
            }),
    {
        self.messages_dropped = self.messages_dropped.wrapping_add(1);
    }

    /// Counts a new subscriber.
    pub fn record_subscriber_added(&mut self)
        ensures
            *final(self) == (NotificationStats {
                active_subscribers: old(self).active_subscribers.wrapping_add(1),
                ..*old(self)
            }),
    {
        self.active_subscribers = self.active_subscribers.wrapping_add(1);
    }

    /// Counts a subscriber that left.
    pub fn record_subscriber_removed(&mut self)
        ensures
            *final(self) == (NotificationStats {
                active_subscribers: old(self).active_subscribers.wrapping_sub(1),
                ..*old(self)
            }),
    {
        self.active_subscribers = self.active_subscribers.wrapping_sub(1);
    }

    /// Notes that an event was broadcast at `moment`.
    pub fn set_last_broadcast(&mut self, moment: Instant)
        ensures
            *final(self) == (NotificationStats { last_broadcast: Some(moment), ..*old(self) }),
    {
        self.last_broadcast = Some(moment);
    }

    /// Notes that an event was broadcast just now.
    pub fn update_last_broadcast(&mut self)
        ensures
            final(self).last_broadcast is Some,
            crate::clock::was_present(final(self).last_broadcast->Some_0),
            *final(self) == (NotificationStats {
                last_broadcast: final(self).last_broadcast,
                ..*old(self)
            }),
    {
        self.set_last_broadcast(Instant::now());
    }
}

} // verus!
