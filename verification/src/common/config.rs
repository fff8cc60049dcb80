//! Configuration of a service built on the shared consumer.
use vstd::prelude::*;
use crate::common::kafka;

verus! {

/// Everything a service reads from its configuration file.
#[derive(Debug, Clone, PartialEq, Eq)]
pub struct Config {
    pub kafka: kafka::Config,
}

} // verus!
