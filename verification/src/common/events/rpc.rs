//! Headers of the RPC envelope that every event carries.
use vstd::prelude::*;

verus! {

/// Header of a request event.
#[derive(Debug, Clone, PartialEq, Eq)]
pub struct Request {
    /// Fully qualified type of the event, e.g. `notification.PushNotification`.
    pub field_type: String,
    /// Id that ties a response to its request.
    pub correlation_id: String,
    /// The system that sent the event.
    pub source: String,
}

/// Header of a response event: its own type and the request it answers.
#[derive(Debug, Clone, PartialEq, Eq)]
pub struct Response {
    pub field_type: String,
    pub request: Request,
}

} // verus!
