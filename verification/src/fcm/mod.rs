//! The Firebase Cloud Messaging service.
pub mod config;
pub mod consumer;
pub mod notifier;
pub mod producer;
