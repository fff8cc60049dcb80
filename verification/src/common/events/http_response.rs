//! The answer to an HTTP request event.
use vstd::prelude::*;
use super::rpc::Response;

verus! {

/// Why no HTTP response came back.
#[derive(Debug, Clone, Copy, PartialEq, Eq, Structural)]
pub enum SocketError {
    Timeout,
    ConnectionError,
}

/// A received HTTP response.
#[derive(Debug, Clone, PartialEq, Eq)]
pub struct Payload {
    pub response_body: String,
    pub status_code: i32,
    pub headers: Vec<(String, String)>,
}

/// Either a response or the reason there is none.
#[derive(Debug, Clone, PartialEq, Eq)]
pub enum Outcome {
    Payload(Payload),
    ConnectionError(SocketError),
}

/// The answer to an HTTP request event.
#[derive(Debug, Clone, PartialEq, Eq)]
pub struct HttpResponse {
    pub header: Response,
    pub outcome: Outcome,
}

} // verus!
