//! What the FCM service answers for each notification.
use vstd::prelude::*;
use crate::common::events::push_notification::PushNotification;
use crate::common::events::push_result::ResponseAction;
use crate::common::events::push_result;
use crate::common::kafka::response_producer::{Publication, publishes};

verus! {

/// Why FCM refused a notification for one device.
#[derive(Debug, Clone, Copy, PartialEq, Eq, Structural)]
pub enum ErrorReason {
    MissingRegistration,
    InvalidRegistration,
    NotRegistered,
    InvalidPackageName,
    MismatchSenderId,
    InvalidParameters,
    MessageTooBig,
    InvalidDataKey,
    InvalidTtl,
    Unavailable,
    InternalServerError,
    DeviceMessageRateExceeded,
    TopicsMessageRateExceeded,
    InvalidApnsCredential,
}

/// The name of a reason, as its debug form prints it.
pub open spec fn reason_name(r: ErrorReason) -> Seq<char> {
    match r {
        ErrorReason::MissingRegistration => "MissingRegistration"@,
        ErrorReason::InvalidRegistration => "InvalidRegistration"@,
        ErrorReason::NotRegistered => "NotRegistered"@,
        ErrorReason::InvalidPackageName => "InvalidPackageName"@,
        ErrorReason::MismatchSenderId => "MismatchSenderId"@,
        ErrorReason::InvalidParameters => "InvalidParameters"@,
        ErrorReason::MessageTooBig => "MessageTooBig"@,
        ErrorReason::InvalidDataKey => "InvalidDataKey"@,
        ErrorReason::InvalidTtl => "InvalidTtl"@,
        ErrorReason::Unavailable => "Unavailable"@,
        ErrorReason::InternalServerError => "InternalServerError"@,
        ErrorReason::DeviceMessageRateExceeded => "DeviceMessageRateExceeded"@,
        ErrorReason::TopicsMessageRateExceeded => "TopicsMessageRateExceeded"@,
        ErrorReason::InvalidApnsCredential => "InvalidApnsCredential"@,
    }
}

impl ErrorReason {
    /// The reason's name, as its debug form prints it.
    pub fn name(&self) -> (r: &'static str)
        ensures
            r@ == reason_name(*self),
    {
        match self {
            ErrorReason::MissingRegistration => "MissingRegistration",
            ErrorReason::InvalidRegistration => "InvalidRegistration",
            ErrorReason::NotRegistered => "NotRegistered",
            ErrorReason::InvalidPackageName => "InvalidPackageName",
            ErrorReason::MismatchSenderId => "MismatchSenderId",
            ErrorReason::InvalidParameters => "InvalidParameters",
            ErrorReason::MessageTooBig => "MessageTooBig",
            ErrorReason::InvalidDataKey => "InvalidDataKey",
            ErrorReason::InvalidTtl => "InvalidTtl",
            ErrorReason::Unavailable => "Unavailable",
            ErrorReason::InternalServerError => "InternalServerError",
            ErrorReason::DeviceMessageRateExceeded => "DeviceMessageRateExceeded",
            ErrorReason::TopicsMessageRateExceeded => "TopicsMessageRateExceeded",
            ErrorReason::InvalidApnsCredential => "InvalidApnsCredential",
        }
    }
}

/// Why a request to FCM failed as a whole.
#[derive(Debug, Clone, Copy, PartialEq, Eq, Structural)]
pub enum FcmError {
    Unauthorized,
    InvalidMessage,
    ServerError,
}

/// The error of the first per-device result of a response, if any.
pub open spec fn first_error(results: Option<Seq<Option<ErrorReason>>>) -> Option<ErrorReason> {
    match results {
        Some(rs) => if rs.len() > 0 { rs[0] } else { None },
        None => None,
    }
}

/// Answers FCM notifications.
pub struct FcmProducer;

impl FcmProducer {
    /// A producer of FCM answers.
    pub fn new() -> FcmProducer {
        FcmProducer
    }

    /// The application has no FCM key: retry later.
    pub fn handle_no_cert(&self, key: Option<Vec<u8>>, event: PushNotification) -> (r: Publication)
        ensures
            publishes(r, key, event, ResponseAction::Retry, Some("certificate_missing"@)),
    {
        Publication {
            key,
            counter_label: Some(String::from_str("certificate_missing")),
            result: push_result(event, ResponseAction::Retry),
        }
    }

    /// The request failed: retry on server errors, give up otherwise.
    pub fn handle_error(&self, key: Option<Vec<u8>>, event: PushNotification, error: FcmError) -> (r: Publication)
        ensures
            publishes(r, key, event,
                if error == FcmError::ServerError { ResponseAction::Retry } else { ResponseAction::NoAction },
                Some(match error {
                    FcmError::ServerError => "server_error"@,
                    FcmError::Unauthorized => "unauthorized"@,
                    FcmError::InvalidMessage => "invalid_message"@,
                })),
    {
        let (label, action) = match error {
            FcmError::ServerError => (String::from_str("server_error"), ResponseAction::Retry),
            FcmError::Unauthorized => (String::from_str("unauthorized"), ResponseAction::NoAction),
            FcmError::InvalidMessage => (String::from_str("invalid_message"), ResponseAction::NoAction),
        };
        Publication { key, counter_label: Some(label), result: push_result(event, action) }
    }

    /// FCM answered; `results` are the per-device errors of the response.
    /// Only the first result counts: an unregistered device is dropped, and
    /// an error is counted under its name.
    pub fn handle_response(&self, key: Option<Vec<u8>>, event: PushNotification, results: Option<Vec<Option<ErrorReason>>>) -> (r: Publication)
        ensures
            publishes(r, key, event,
                if first_error(match results { Some(v) => Some(v@), None => None }) == Some(ErrorReason::NotRegistered) {
                    ResponseAction::UnsubscribeEntity
                } else {
                    ResponseAction::NoAction
                },
                match first_error(match results { Some(v) => Some(v@), None => None }) {
                    Some(e) => Some(reason_name(e)),
                    None => None,
                }),
    {
        let error = match &results {
            Some(v) => if v.len() > 0 { v[0] } else { None },
            None => None,
        };
        match error {
            Some(e) => {
                let action = match e {
                    ErrorReason::NotRegistered => ResponseAction::UnsubscribeEntity,
                    _ => ResponseAction::NoAction,
                };
                Publication {
                    key,
                    counter_label: Some(String::from_str(e.name())),
                    result: push_result(event, action),
                }
            },
            None => Publication { key, counter_label: None, result: push_result(event, ResponseAction::NoAction) },
        }
    }
}

/// Only the first per-device result of a response counts: its error when it
/// has one; no error when it has none or there are no results.
pub proof fn only_first_result_counts(results: Option<Seq<Option<ErrorReason>>>)
    ensures
        results matches Some(rs) && rs.len() > 0 ==> first_error(results) == results->Some_0[0],
        (results is None || results->Some_0.len() == 0) ==> first_error(results) is None,
{
}

} // verus!
