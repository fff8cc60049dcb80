//! Configuration of the legacy APNs service.
use vstd::prelude::*;

verus! {

/// Everything the legacy service reads from its configuration file.
#[derive(Debug, Clone, PartialEq, Eq)]
pub struct Config {
    pub postgres: PostgresConfig,
    pub rabbitmq: RabbitMqConfig,
    pub metrics: MetricsConfig,
}

/// RabbitMQ connection and routing settings.
#[derive(Debug, Clone, PartialEq, Eq)]
pub struct RabbitMqConfig {
    pub queue: String,
    pub exchange: String,
    pub exchange_type: String,
    pub vhost: String,
    pub host: String,
    pub port: u16,
    pub login: String,
    pub password: String,
    pub routing_key: String,
    pub response_exchange: String,
    pub response_exchange_type: String,
}

/// Where metrics are sent, and how often (seconds).
#[derive(Debug, Clone, PartialEq, Eq)]
pub struct MetricsConfig {
    pub uri: String,
    pub database: String,
    pub tick_duration: u64,
    pub login: String,
    pub password: String,
    pub application: String,
}

/// PostgreSQL connection pool settings.
#[derive(Debug, Clone, PartialEq, Eq)]
pub struct PostgresConfig {
    pub uri: String,
    pub pool_size: u32,
    pub min_idle: u32,
    pub idle_timeout: u64,
    pub max_lifetime: u64,
}

} // verus!
