//! In-process metrics of the legacy service.
pub mod instruments;
pub mod sender;

pub use crate::common::metrics::StatisticsServer;
