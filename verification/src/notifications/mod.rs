//! Real-time notifications: events, filters on them, and the hub that broadcasts them.
pub mod config;
pub mod error;
pub mod event;
pub mod filter;
pub mod hub;
pub mod laws;
pub mod socket;
pub mod stats;
pub mod subscription;

pub use config::NotificationConfig;
pub use error::NotificationError;
pub use event::{Event, EventPayload, IntoTopic, Priority};
pub use filter::SubscriptionFilter;
pub use hub::NotificationHub;
pub use stats::NotificationStats;
pub use subscription::Subscription;
