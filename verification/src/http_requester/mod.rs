//! The service that performs HTTP requests on behalf of other systems.
pub mod producer;
pub mod requester;
