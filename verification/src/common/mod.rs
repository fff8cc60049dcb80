//! Code shared by all the services.
pub mod config;
pub mod events;
pub mod id_table;
pub mod kafka;
pub mod logger;
pub mod metrics;
pub mod registry;
pub mod text;

