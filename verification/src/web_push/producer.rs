//! What the web push service answers for each notification.
use vstd::prelude::*;
use crate::common::events::push_notification::PushNotification;
use crate::common::events::push_result::ResponseAction;
use crate::common::events::push_result;
use crate::common::kafka::response_producer::{Publication, publishes};

verus! {

/// Why a web push failed.
#[derive(Debug, Clone, Copy, PartialEq, Eq, Structural)]
pub enum WebPushError {
    Unspecified,
    Unauthorized,
    BadRequest,
    ServerError,
    NotImplemented,
    InvalidUri,
    EndpointNotValid,
    EndpointNotFound,
    PayloadTooLarge,
    Io,
    InvalidPackageName,
    InvalidTtl,
    InvalidTopic,
    MissingCryptoKeys,
    InvalidCryptoKeys,
    InvalidResponse,
    InvalidClaims,
    ResponseTooLarge,
    Other,
}

/// The short label of an error, as `WebPushError::short_description` gives it.
pub open spec fn short_description(e: WebPushError) -> Seq<char> {
    match e {
        WebPushError::Unspecified => "unspecified"@,
        WebPushError::Unauthorized => "unauthorized"@,
        WebPushError::BadRequest => "bad_request"@,
        WebPushError::ServerError => "server_error"@,
        WebPushError::NotImplemented => "not_implemented"@,
        WebPushError::InvalidUri => "invalid_uri"@,
        WebPushError::EndpointNotValid => "endpoint_not_valid"@,
        WebPushError::EndpointNotFound => "endpoint_not_found"@,
        WebPushError::PayloadTooLarge => "payload_too_large"@,
        WebPushError::InvalidPackageName => "invalid_package_name"@,
        WebPushError::InvalidTtl => "invalid_ttl"@,
        WebPushError::InvalidTopic => "invalid_topic"@,
        WebPushError::InvalidResponse => "invalid_response"@,
        WebPushError::MissingCryptoKeys => "missing_crypto_keys"@,
        WebPushError::InvalidCryptoKeys => "invalid_crypto_keys"@,
        WebPushError::Io => "io_error"@,
        WebPushError::Other => "other"@,
        WebPushError::InvalidClaims => "invalidClaims"@,
        WebPushError::ResponseTooLarge => "response_too_large"@,
    }
}

impl WebPushError {
    /// The error's short label.
    pub fn short_description(&self) -> (r: &'static str)
        ensures
            r@ == short_description(*self),
    {
        match self {
            WebPushError::Unspecified => "unspecified",
            WebPushError::Unauthorized => "unauthorized",
            WebPushError::BadRequest => "bad_request",
            WebPushError::ServerError => "server_error",
            WebPushError::NotImplemented => "not_implemented",
            WebPushError::InvalidUri => "invalid_uri",
            WebPushError::EndpointNotValid => "endpoint_not_valid",
            WebPushError::EndpointNotFound => "endpoint_not_found",
            WebPushError::PayloadTooLarge => "payload_too_large",
            WebPushError::InvalidPackageName => "invalid_package_name",
            WebPushError::InvalidTtl => "invalid_ttl",
            WebPushError::InvalidTopic => "invalid_topic",
            WebPushError::InvalidResponse => "invalid_response",
            WebPushError::MissingCryptoKeys => "missing_crypto_keys",
            WebPushError::InvalidCryptoKeys => "invalid_crypto_keys",
            WebPushError::Io => "io_error",
            WebPushError::Other => "other",
            WebPushError::InvalidClaims => "invalidClaims",
            WebPushError::ResponseTooLarge => "response_too_large",
        }
    }
}

/// The action for a failed push: retry on server errors, drop the
/// subscription when its endpoint is gone or invalid, nothing otherwise.
pub open spec fn error_action(e: WebPushError) -> ResponseAction {
    match e {
        WebPushError::ServerError => ResponseAction::Retry,
        WebPushError::EndpointNotFound | WebPushError::EndpointNotValid => ResponseAction::UnsubscribeEntity,
        _ => ResponseAction::NoAction,
    }
}

/// Answers web push notifications.
pub struct WebPushProducer;

impl WebPushProducer {
    /// A producer of web push answers.
    pub fn new() -> WebPushProducer {
        WebPushProducer
    }

    /// A notification was delivered.
    pub fn handle_ok(&self, key: Option<Vec<u8>>, event: PushNotification) -> (r: Publication)
        ensures
            publishes(r, key, event, ResponseAction::NoAction, Some("success"@)),
    {
        Publication {
            key,
            counter_label: Some(String::from_str("success")),
            result: push_result(event, ResponseAction::NoAction),
        }
    }

    /// The application is not configured for web push: retry later.
    pub fn handle_no_cert(&self, key: Option<Vec<u8>>, event: PushNotification) -> (r: Publication)
        ensures
            publishes(r, key, event, ResponseAction::Retry, Some("certificate_missing"@)),
    {
        Publication {
            key,
            counter_label: Some(String::from_str("certificate_missing")),
            result: push_result(event, ResponseAction::Retry),
        }
    }

    /// The push failed with `error`.
    pub fn handle_error(&self, key: Option<Vec<u8>>, event: PushNotification, error: &WebPushError) -> (r: Publication)
        ensures
            publishes(r, key, event, error_action(*error), Some(short_description(*error))),
            (r.result.response_action == ResponseAction::UnsubscribeEntity)
                <==> (*error == WebPushError::EndpointNotFound || *error == WebPushError::EndpointNotValid),
            (r.result.response_action == ResponseAction::Retry) <==> *error == WebPushError::ServerError,
            (r.result.response_action == ResponseAction::NoAction) <==> !(*error == WebPushError::EndpointNotFound
                || *error == WebPushError::EndpointNotValid || *error == WebPushError::ServerError),
    {
        let action = match error {
            WebPushError::ServerError => ResponseAction::Retry,
            WebPushError::EndpointNotFound | WebPushError::EndpointNotValid => ResponseAction::UnsubscribeEntity,
            _ => ResponseAction::NoAction,
        };
        Publication {
            key,
            counter_label: Some(String::from_str(error.short_description())),
            result: push_result(event, action),
        }
    }
}

/// What a failed web push asks of the sender: the subscription is dropped
/// exactly when its endpoint is gone or invalid, the push is retried exactly
/// on a server error, and nothing is done for any other error (an
/// unauthorized request keeps the subscription).
pub proof fn web_push_failure_actions(e: WebPushError)
    ensures
        (error_action(e) == ResponseAction::UnsubscribeEntity)
            <==> (e == WebPushError::EndpointNotFound || e == WebPushError::EndpointNotValid),
        (error_action(e) == ResponseAction::Retry) <==> e == WebPushError::ServerError,
        (error_action(e) == ResponseAction::NoAction) <==> !(e == WebPushError::EndpointNotFound
            || e == WebPushError::EndpointNotValid || e == WebPushError::ServerError),
{
}

} // verus!
