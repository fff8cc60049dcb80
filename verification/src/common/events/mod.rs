//! The events exchanged over Kafka, as plain values.
pub mod apple_notification;
pub mod application;
pub mod google_notification;
pub mod http_request;
pub mod http_response;
pub mod push_notification;
pub mod push_result;
pub mod rpc;
pub mod webpush_notification;

use vstd::prelude::*;
use self::http_request::HttpVerb;
use self::push_notification::PushNotification;
use self::push_result::{PushResult, ResponseAction};
use self::rpc::Response;

verus! {

/// Type tag of a push result event.
pub open spec fn push_result_type() -> Seq<char> {
    seq!['n', 'o', 't', 'i', 'f', 'i', 'c', 'a', 't', 'i', 'o', 'n', '.', 'P', 'u', 's', 'h', 'R', 'e',
        's', 'u', 'l', 't']
}

/// Builds the result event that answers `event` with `action`.
pub fn push_result(event: PushNotification, action: ResponseAction) -> (r: PushResult)
    ensures
        r.header.field_type@ == push_result_type(),
        r.header.request == event.header,
        r.response_action == action,
{
    let field_type = String::from_str("notification.PushResult");
    proof {
        reveal_strlit("notification.PushResult");
    }
    PushResult {
        header: Response { field_type, request: event.header },
        response_action: action,
    }
}

/// The name of an HTTP method.
pub open spec fn verb_name(verb: HttpVerb) -> Seq<char> {
    match verb {
        HttpVerb::GET => seq!['G', 'E', 'T'],
        HttpVerb::POST => seq!['P', 'O', 'S', 'T'],
        HttpVerb::PUT => seq!['P', 'U', 'T'],
        HttpVerb::DELETE => seq!['D', 'E', 'L', 'E', 'T', 'E'],
        HttpVerb::PATCH => seq!['P', 'A', 'T', 'C', 'H'],
        HttpVerb::OPTIONS => seq!['O', 'P', 'T', 'I', 'O', 'N', 'S'],
    }
}

impl HttpVerb {
    /// The method's name, as sent on the wire.
    pub fn as_ref(&self) -> (r: &'static str)
        ensures
            r@ == verb_name(*self),
    {
        proof {
            reveal_strlit("GET");
            reveal_strlit("POST");
            reveal_strlit("PUT");
            reveal_strlit("DELETE");
            reveal_strlit("PATCH");
            reveal_strlit("OPTIONS");
        }
        match self {
            HttpVerb::GET => "GET",
            HttpVerb::POST => "POST",
            HttpVerb::PUT => "PUT",
            HttpVerb::DELETE => "DELETE",
            HttpVerb::PATCH => "PATCH",
            HttpVerb::OPTIONS => "OPTIONS",
        }
    }
}

} // verus!
