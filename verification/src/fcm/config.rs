//! Configuration of the FCM service.
use vstd::prelude::*;

verus! {

/// Everything the FCM service reads from its configuration file.
#[derive(Debug, Clone, PartialEq, Eq)]
pub struct Config {
    pub postgres: PostgresConfig,
    pub kafka: KafkaConfig,
    pub log: LogConfig,
}

/// Kafka topics, consumer group and brokers.
#[derive(Debug, Clone, PartialEq, Eq)]
pub struct KafkaConfig {
    pub input_topic: String,
    pub config_topic: String,
    pub output_topic: String,
    pub retry_topic: String,
    pub group_id: String,
    pub brokers: String,
}

/// PostgreSQL connection pool settings.
#[derive(Debug, Clone, PartialEq, Eq)]
pub struct PostgresConfig {
    pub uri: String,
    pub pool_size: u32,
    pub min_idle: u32,
    pub idle_timeout: u64,
    pub max_lifetime: u64,
}

/// Where logs are sent.
#[derive(Debug, Clone, PartialEq, Eq)]
pub struct LogConfig {
    pub host: String,
}

} // verus!
