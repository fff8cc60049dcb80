//! The statistics server that serves the Prometheus metrics over HTTP.
use vstd::prelude::*;
use crate::common::text::{opt_view, join2};

verus! {

/// Serves the collected metrics over HTTP.
#[derive(Debug, Clone, Copy, PartialEq, Eq, Structural)]
pub struct StatisticsServer;

/// The address the server listens on for the value of `PORT`: every
/// interface, on that port, or on 8081 when it is unset.
pub open spec fn bind_address_spec(port: Option<Seq<char>>) -> Seq<char> {
    "0.0.0.0:"@ + match port { Some(p) => p, None => "8081"@ }
}

impl StatisticsServer {
    /// The address to listen on for the value of `PORT`.
    pub fn bind_address(port: Option<String>) -> (r: String)
        ensures
            r@ == bind_address_spec(opt_view(port)),
    {
        match port {
            Some(p) => join2("0.0.0.0:", p.as_str()),
            None => join2("0.0.0.0:", "8081"),
        }
    }
}

} // verus!
