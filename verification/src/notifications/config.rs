//! How a notification hub is set up.
use std::time::Duration;
use vstd::prelude::*;

verus! {

/// Maximum number of messages that can be stored in the broadcast channel.
pub const DEFAULT_CHANNEL_SIZE: usize = 1024;

/// Default timeout for WebSocket operations in seconds.
pub const DEFAULT_WS_TIMEOUT_SECS: u64 = 30;

/// Default number of messages to keep in history.
pub const DEFAULT_HISTORY_SIZE: usize = 100;

/// Configuration options for the notification hub.
#[derive(Debug)]
pub struct NotificationConfig {
    pub channel_size: usize,
    pub ws_timeout: Duration,
    pub history_size: usize,
}

impl NotificationConfig {
    /// A channel of this size can be made.
    pub open spec fn usable(self) -> bool {
        0 < self.channel_size <= usize::MAX / 2
    }
}

impl Default for NotificationConfig {
    fn default() -> (config: Self)
        ensures
            config == (NotificationConfig {
                channel_size: DEFAULT_CHANNEL_SIZE,
                ws_timeout: crate::clock::seconds(DEFAULT_WS_TIMEOUT_SECS),
                history_size: DEFAULT_HISTORY_SIZE,
            }),
    {
        NotificationConfig {
            channel_size: DEFAULT_CHANNEL_SIZE,
            ws_timeout: Duration::from_secs(DEFAULT_WS_TIMEOUT_SECS),
            history_size: DEFAULT_HISTORY_SIZE,
        }
    }
}

impl Clone for NotificationConfig {
    fn clone(&self) -> (copy: Self)
        ensures
            copy == *self,
    {
        NotificationConfig {
            channel_size: self.channel_size,
            ws_timeout: self.ws_timeout,
            history_size: self.history_size,
        }
    }
}

} // verus!
