//! Caches of APNs connections per application, refreshed from the
//! certificate registry when they get old.
pub mod connection_pool;
pub mod notifier_pool;
pub mod token_pool;
