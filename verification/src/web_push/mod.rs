//! The web push service.
pub mod config;
pub mod consumer;
pub mod notifier;
pub mod producer;
