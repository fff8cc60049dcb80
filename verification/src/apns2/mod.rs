//! The Apple push notification service.
pub mod consumer;
pub mod notifier;
pub mod producer;
