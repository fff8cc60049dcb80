//! Push-notification services: the decision logic of the APNs, FCM, web-push
//! and HTTP-request consumers, their shared Kafka plumbing and their
//! bookkeeping (metrics, pools, supervisor), each stated with a contract.
pub mod apns2;
pub mod artifactory;
pub mod certificate_registry;
pub mod common;
pub mod config;
pub mod consumer;
pub mod consumer_supervisor;
pub mod error;
pub mod events;
pub mod fcm;
pub mod http_requester;
pub mod logger;
pub mod metrics;
pub mod notifier;
pub mod pool;
pub mod producer;
pub mod web_push;

