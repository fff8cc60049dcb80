//! A request to perform an HTTP call.
use vstd::prelude::*;
use super::rpc::Request;

verus! {

/// HTTP method.
#[derive(Debug, Clone, Copy, PartialEq, Eq, Structural)]
pub enum HttpVerb {
    GET,
    POST,
    PUT,
    DELETE,
    PATCH,
    OPTIONS,
}

/// An HTTP call to make: method, URI, headers, query parameters, body, timeout.
#[derive(Debug, Clone, PartialEq, Eq)]
pub struct HttpRequest {
    pub header: Request,
    pub request_type: HttpVerb,
    pub uri: String,
    pub body: Option<String>,
    pub headers: Vec<(String, String)>,
    pub params: Vec<(String, String)>,
    /// Milliseconds.
    pub timeout: u64,
}

} // verus!
