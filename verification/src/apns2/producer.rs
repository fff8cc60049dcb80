//! What the APNs service answers for each notification: the response action
//! and the metrics label.
use vstd::prelude::*;
use crate::common::events::push_notification::PushNotification;
use crate::common::events::push_result::ResponseAction;
use crate::common::events::push_result;
use crate::common::text::{snake_case, to_snake_case};
use crate::common::kafka::response_producer::{Publication, publishes};

verus! {

/// Why APNs refused a notification.
#[derive(Debug, Clone, Copy, PartialEq, Eq, Structural)]
pub enum ErrorReason {
    BadCollapseId,
    BadDeviceToken,
    BadExpirationDate,
    BadMessageId,
    BadPriority,
    BadTopic,
    DeviceTokenNotForTopic,
    DuplicateHeaders,
    IdleTimeout,
    MissingDeviceToken,
    MissingTopic,
    PayloadEmpty,
    TopicDisallowed,
    BadCertificate,
    BadCertificateEnvironment,
    ExpiredProviderToken,
    Forbidden,
    InvalidProviderToken,
    MissingProviderToken,
    BadPath,
    MethodNotAllowed,
    Unregistered,
    PayloadTooLarge,
    TooManyProviderTokenUpdates,
    TooManyRequests,
    InternalServerError,
    ServiceUnavailable,
    Shutdown,
}

/// The name of a reason, as its debug form prints it.
pub open spec fn reason_name(r: ErrorReason) -> Seq<char> {
    match r {
        ErrorReason::BadCollapseId => "BadCollapseId"@,
        ErrorReason::BadDeviceToken => "BadDeviceToken"@,
        ErrorReason::BadExpirationDate => "BadExpirationDate"@,
        ErrorReason::BadMessageId => "BadMessageId"@,
        ErrorReason::BadPriority => "BadPriority"@,
        ErrorReason::BadTopic => "BadTopic"@,
        ErrorReason::DeviceTokenNotForTopic => "DeviceTokenNotForTopic"@,
        ErrorReason::DuplicateHeaders => "DuplicateHeaders"@,
        ErrorReason::IdleTimeout => "IdleTimeout"@,
        ErrorReason::MissingDeviceToken => "MissingDeviceToken"@,
        ErrorReason::MissingTopic => "MissingTopic"@,
        ErrorReason::PayloadEmpty => "PayloadEmpty"@,
        ErrorReason::TopicDisallowed => "TopicDisallowed"@,
        ErrorReason::BadCertificate => "BadCertificate"@,
        ErrorReason::BadCertificateEnvironment => "BadCertificateEnvironment"@,
        ErrorReason::ExpiredProviderToken => "ExpiredProviderToken"@,
        ErrorReason::Forbidden => "Forbidden"@,
        ErrorReason::InvalidProviderToken => "InvalidProviderToken"@,
        ErrorReason::MissingProviderToken => "MissingProviderToken"@,
        ErrorReason::BadPath => "BadPath"@,
        ErrorReason::MethodNotAllowed => "MethodNotAllowed"@,
        ErrorReason::Unregistered => "Unregistered"@,
        ErrorReason::PayloadTooLarge => "PayloadTooLarge"@,
        ErrorReason::TooManyProviderTokenUpdates => "TooManyProviderTokenUpdates"@,
        ErrorReason::TooManyRequests => "TooManyRequests"@,
        ErrorReason::InternalServerError => "InternalServerError"@,
        ErrorReason::ServiceUnavailable => "ServiceUnavailable"@,
        ErrorReason::Shutdown => "Shutdown"@,
    }
}

impl ErrorReason {
    /// The reason's name, as its debug form prints it.
    pub fn name(&self) -> (r: &'static str)
        ensures
            r@ == reason_name(*self),
    {
        match self {
            ErrorReason::BadCollapseId => "BadCollapseId",
            ErrorReason::BadDeviceToken => "BadDeviceToken",
            ErrorReason::BadExpirationDate => "BadExpirationDate",
            ErrorReason::BadMessageId => "BadMessageId",
            ErrorReason::BadPriority => "BadPriority",
            ErrorReason::BadTopic => "BadTopic",
            ErrorReason::DeviceTokenNotForTopic => "DeviceTokenNotForTopic",
            ErrorReason::DuplicateHeaders => "DuplicateHeaders",
            ErrorReason::IdleTimeout => "IdleTimeout",
            ErrorReason::MissingDeviceToken => "MissingDeviceToken",
            ErrorReason::MissingTopic => "MissingTopic",
            ErrorReason::PayloadEmpty => "PayloadEmpty",
            ErrorReason::TopicDisallowed => "TopicDisallowed",
            ErrorReason::BadCertificate => "BadCertificate",
            ErrorReason::BadCertificateEnvironment => "BadCertificateEnvironment",
            ErrorReason::ExpiredProviderToken => "ExpiredProviderToken",
            ErrorReason::Forbidden => "Forbidden",
            ErrorReason::InvalidProviderToken => "InvalidProviderToken",
            ErrorReason::MissingProviderToken => "MissingProviderToken",
            ErrorReason::BadPath => "BadPath",
            ErrorReason::MethodNotAllowed => "MethodNotAllowed",
            ErrorReason::Unregistered => "Unregistered",
            ErrorReason::PayloadTooLarge => "PayloadTooLarge",
            ErrorReason::TooManyProviderTokenUpdates => "TooManyProviderTokenUpdates",
            ErrorReason::TooManyRequests => "TooManyRequests",
            ErrorReason::InternalServerError => "InternalServerError",
            ErrorReason::ServiceUnavailable => "ServiceUnavailable",
            ErrorReason::Shutdown => "Shutdown",
        }
    }
}

/// Why sending to APNs failed.
#[derive(Debug, Clone, Copy, PartialEq, Eq, Structural)]
pub enum ErrorKind {
    SerializeError,
    ConnectionError,
    ClientError,
    SignerError,
    ResponseError,
    InvalidOptions,
    ReadError,
    Tls,
    BuildRequestError,
    RequestTimeout,
    UnexpectedKey,
    InvalidCertificate,
}

/// The action for a refusal reason: drop the device for a bad or unregistered
/// token, retry for server-side or expired-token trouble, nothing otherwise.
pub open spec fn reason_action(r: ErrorReason) -> ResponseAction {
    match r {
        ErrorReason::Unregistered | ErrorReason::DeviceTokenNotForTopic | ErrorReason::BadDeviceToken =>
            ResponseAction::UnsubscribeEntity,
        ErrorReason::InternalServerError | ErrorReason::Shutdown | ErrorReason::ServiceUnavailable
        | ErrorReason::ExpiredProviderToken | ErrorReason::Forbidden => ResponseAction::Retry,
        _ => ResponseAction::NoAction,
    }
}

/// The action for a failed send: retry after connection, signing or
/// response trouble, nothing otherwise.
pub open spec fn error_action(k: ErrorKind) -> ResponseAction {
    match k {
        ErrorKind::ConnectionError | ErrorKind::SignerError | ErrorKind::ResponseError => ResponseAction::Retry,
        _ => ResponseAction::NoAction,
    }
}


/// Answers APNs notifications.
pub struct ApnsProducer;

impl ApnsProducer {
    /// A producer of APNs answers.
    pub fn new() -> ApnsProducer {
        ApnsProducer
    }

    /// A notification was delivered.
    pub fn handle_ok(&self, key: Option<Vec<u8>>, event: PushNotification) -> (r: Publication)
        ensures
            publishes(r, key, event, ResponseAction::NoAction, Some("success"@)),
    {
        Publication {
            key,
            counter_label: Some(String::from_str("success")),
            result: push_result(event, ResponseAction::NoAction),
        }
    }

    /// APNs refused a notification for `error`.
    pub fn handle_err_reason(&self, key: Option<Vec<u8>>, event: PushNotification, error: &ErrorReason) -> (r: Publication)
        ensures
            publishes(r, key, event, reason_action(*error), Some(snake_case(reason_name(*error)))),
            (*error == ErrorReason::Unregistered || *error == ErrorReason::DeviceTokenNotForTopic
                || *error == ErrorReason::BadDeviceToken) ==> r.result.response_action == ResponseAction::UnsubscribeEntity,
            (*error == ErrorReason::InternalServerError || *error == ErrorReason::Shutdown
                || *error == ErrorReason::ServiceUnavailable || *error == ErrorReason::ExpiredProviderToken
                || *error == ErrorReason::Forbidden) ==> r.result.response_action == ResponseAction::Retry,
            !(*error == ErrorReason::Unregistered || *error == ErrorReason::DeviceTokenNotForTopic
                || *error == ErrorReason::BadDeviceToken || *error == ErrorReason::InternalServerError
                || *error == ErrorReason::Shutdown || *error == ErrorReason::ServiceUnavailable
                || *error == ErrorReason::ExpiredProviderToken || *error == ErrorReason::Forbidden)
                ==> r.result.response_action == ResponseAction::NoAction,
    {
        let label = to_snake_case(error.name());
        let action = match error {
            ErrorReason::Unregistered | ErrorReason::DeviceTokenNotForTopic | ErrorReason::BadDeviceToken =>
                ResponseAction::UnsubscribeEntity,
            ErrorReason::InternalServerError | ErrorReason::Shutdown | ErrorReason::ServiceUnavailable
            | ErrorReason::ExpiredProviderToken | ErrorReason::Forbidden => ResponseAction::Retry,
            _ => ResponseAction::NoAction,
        };
        Publication { key, counter_label: Some(label), result: push_result(event, action) }
    }

    /// Sending failed with an error of kind `error`, whose debug form is `description`.
    pub fn handle_err(&self, key: Option<Vec<u8>>, event: PushNotification, error: ErrorKind, description: &str) -> (r: Publication)
        ensures
            publishes(r, key, event, error_action(error), Some(snake_case(description@))),
            (error == ErrorKind::ConnectionError || error == ErrorKind::SignerError || error == ErrorKind::ResponseError)
                ==> r.result.response_action == ResponseAction::Retry,
            !(error == ErrorKind::ConnectionError || error == ErrorKind::SignerError || error == ErrorKind::ResponseError)
                ==> r.result.response_action == ResponseAction::NoAction,
    {
        let label = to_snake_case(description);
        let action = match error {
            ErrorKind::ConnectionError | ErrorKind::SignerError | ErrorKind::ResponseError => ResponseAction::Retry,
            _ => ResponseAction::NoAction,
        };
        Publication { key, counter_label: Some(label), result: push_result(event, action) }
    }

    /// No answer came in time, or the application has no connection: retry.
    pub fn handle_fatal(&self, key: Option<Vec<u8>>, event: PushNotification) -> (r: Publication)
        ensures
            publishes(r, key, event, ResponseAction::Retry, Some(snake_case("timeout"@))),
    {
        let label = to_snake_case("timeout");
        Publication { key, counter_label: Some(label), result: push_result(event, ResponseAction::Retry) }
    }
}

/// What APNs refusals ask of the sender: a device token that is
/// unregistered, not for the topic or malformed is dropped; server trouble, a
/// shutdown, an unavailable service, an expired provider token or a forbidden
/// request is retried; nothing is done for any other reason.
pub proof fn refusal_actions(r: ErrorReason)
    ensures
        (reason_action(r) == ResponseAction::UnsubscribeEntity) <==> (r == ErrorReason::Unregistered
            || r == ErrorReason::DeviceTokenNotForTopic || r == ErrorReason::BadDeviceToken),
        (reason_action(r) == ResponseAction::Retry) <==> (r == ErrorReason::InternalServerError
            || r == ErrorReason::Shutdown || r == ErrorReason::ServiceUnavailable
            || r == ErrorReason::ExpiredProviderToken || r == ErrorReason::Forbidden),
        (reason_action(r) == ResponseAction::NoAction) <==> !(r == ErrorReason::Unregistered
            || r == ErrorReason::DeviceTokenNotForTopic || r == ErrorReason::BadDeviceToken
            || r == ErrorReason::InternalServerError || r == ErrorReason::Shutdown
            || r == ErrorReason::ServiceUnavailable || r == ErrorReason::ExpiredProviderToken
            || r == ErrorReason::Forbidden),
{
}

/// A send that failed on the connection, in signing or in reading the
/// response is retried; any other failure is given up.
pub proof fn send_failure_actions(k: ErrorKind)
    ensures
        (error_action(k) == ResponseAction::Retry) <==> (k == ErrorKind::ConnectionError
            || k == ErrorKind::SignerError || k == ErrorKind::ResponseError),
        (error_action(k) == ResponseAction::NoAction) <==> !(k == ErrorKind::ConnectionError
            || k == ErrorKind::SignerError || k == ErrorKind::ResponseError),
{
}

} // verus!
