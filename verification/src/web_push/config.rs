//! Configuration of the web push service.
use vstd::prelude::*;

verus! {

/// Everything the web push service reads from its configuration file.
#[derive(Debug, Clone, PartialEq, Eq)]
pub struct Config {
    pub postgres: PostgresConfig,
    pub rabbitmq: RabbitMqConfig,
    pub log: LogConfig,
}

/// RabbitMQ connection and routing settings.
#[derive(Debug, Clone, PartialEq, Eq)]
pub struct RabbitMqConfig {
    pub queue: String,
    pub exchange: String,
    pub exchange_type: String,
    pub vhost: String,
    pub host: String,
    pub port: u16,
    pub login: String,
    pub password: String,
    pub routing_key: String,
    pub response_exchange: String,
    pub response_exchange_type: String,
}

/// PostgreSQL connection pool settings.
#[derive(Debug, Clone, PartialEq, Eq)]
pub struct PostgresConfig {
    pub uri: String,
    pub pool_size: u32,
    pub min_idle: u32,
    pub idle_timeout: u64,
    pub max_lifetime: u64,
}

/// Where logs are sent.
#[derive(Debug, Clone, PartialEq, Eq)]
pub struct LogConfig {
    pub host: String,
}

} // verus!
