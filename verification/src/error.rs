//! How APNs errors and status codes become the result fields of an event.
use vstd::prelude::*;
use crate::apns2::producer::ErrorReason;
use crate::events::{ApnsResultReason, ApnsResultStatus};

verus! {

/// The status for an HTTP status code of APNs.
pub open spec fn status_of_code(status: u16) -> ApnsResultStatus {
    if status == 200 {
        ApnsResultStatus::Success
    } else if status == 400 {
        ApnsResultStatus::BadRequest
    } else if status == 403 {
        ApnsResultStatus::Forbidden
    } else if status == 405 {
        ApnsResultStatus::MethodNotAllowed
    } else if status == 410 {
        ApnsResultStatus::Unregistered
    } else if status == 413 {
        ApnsResultStatus::PayloadTooLarge
    } else if status == 429 {
        ApnsResultStatus::TooManyRequests
    } else {
        ApnsResultStatus::Error
    }
}

/// The result reason for an APNs refusal reason; reasons without a
/// counterpart become `Nothing`.
pub open spec fn reason_of_error(e: ErrorReason) -> ApnsResultReason {
    match e {
        ErrorReason::PayloadEmpty => ApnsResultReason::PayloadEmpty,
        ErrorReason::BadTopic => ApnsResultReason::BadTopic,
        ErrorReason::TopicDisallowed => ApnsResultReason::TopicDisallowed,
        ErrorReason::BadMessageId => ApnsResultReason::BadMessageId,
        ErrorReason::BadExpirationDate => ApnsResultReason::BadExpirationDate,
        ErrorReason::BadPriority => ApnsResultReason::BadPriority,
        ErrorReason::MissingDeviceToken => ApnsResultReason::MissingDeviceToken,
        ErrorReason::BadDeviceToken => ApnsResultReason::BadDeviceToken,
        ErrorReason::DeviceTokenNotForTopic => ApnsResultReason::DeviceTokenNotForTopic,
        ErrorReason::DuplicateHeaders => ApnsResultReason::DuplicateHeaders,
        ErrorReason::BadCertificateEnvironment => ApnsResultReason::BadCertificateEnvironment,
        ErrorReason::BadCertificate => ApnsResultReason::BadCertificate,
        ErrorReason::BadPath => ApnsResultReason::BadPath,
        ErrorReason::IdleTimeout => ApnsResultReason::IdleTimeout,
        ErrorReason::Shutdown => ApnsResultReason::Shutdown,
        ErrorReason::InternalServerError => ApnsResultReason::InternalServerError,
        ErrorReason::ServiceUnavailable => ApnsResultReason::ServiceUnavailable,
        ErrorReason::MissingTopic => ApnsResultReason::MissingTopic,
        ErrorReason::InvalidProviderToken => ApnsResultReason::InvalidProviderToken,
        ErrorReason::MissingProviderToken => ApnsResultReason::MissingProviderToken,
        ErrorReason::ExpiredProviderToken => ApnsResultReason::ExpiredProviderToken,
        _ => ApnsResultReason::Nothing,
    }
}

impl ApnsResultStatus {
    /// The status for an HTTP status code of APNs.
    pub fn from_code(status: u16) -> (r: ApnsResultStatus)
        ensures
            r == status_of_code(status),
    {
        match status {
            200 => ApnsResultStatus::Success,
            400 => ApnsResultStatus::BadRequest,
            403 => ApnsResultStatus::Forbidden,
            405 => ApnsResultStatus::MethodNotAllowed,
            410 => ApnsResultStatus::Unregistered,
            413 => ApnsResultStatus::PayloadTooLarge,
            429 => ApnsResultStatus::TooManyRequests,
            _ => ApnsResultStatus::Error,
        }
    }
}

impl ApnsResultReason {
    /// The result reason for an APNs refusal reason.
    pub fn from_error(e: &ErrorReason) -> (r: ApnsResultReason)
        ensures
            r == reason_of_error(*e),
    {
        match e {
            ErrorReason::PayloadEmpty => ApnsResultReason::PayloadEmpty,
            ErrorReason::BadTopic => ApnsResultReason::BadTopic,
            ErrorReason::TopicDisallowed => ApnsResultReason::TopicDisallowed,
            ErrorReason::BadMessageId => ApnsResultReason::BadMessageId,
            ErrorReason::BadExpirationDate => ApnsResultReason::BadExpirationDate,
            ErrorReason::BadPriority => ApnsResultReason::BadPriority,
            ErrorReason::MissingDeviceToken => ApnsResultReason::MissingDeviceToken,
            ErrorReason::BadDeviceToken => ApnsResultReason::BadDeviceToken,
            ErrorReason::DeviceTokenNotForTopic => ApnsResultReason::DeviceTokenNotForTopic,
            ErrorReason::DuplicateHeaders => ApnsResultReason::DuplicateHeaders,
            ErrorReason::BadCertificateEnvironment => ApnsResultReason::BadCertificateEnvironment,
            ErrorReason::BadCertificate => ApnsResultReason::BadCertificate,
            ErrorReason::BadPath => ApnsResultReason::BadPath,
            ErrorReason::IdleTimeout => ApnsResultReason::IdleTimeout,
            ErrorReason::Shutdown => ApnsResultReason::Shutdown,
            ErrorReason::InternalServerError => ApnsResultReason::InternalServerError,
            ErrorReason::ServiceUnavailable => ApnsResultReason::ServiceUnavailable,
            ErrorReason::MissingTopic => ApnsResultReason::MissingTopic,
            ErrorReason::InvalidProviderToken => ApnsResultReason::InvalidProviderToken,
            ErrorReason::MissingProviderToken => ApnsResultReason::MissingProviderToken,
            ErrorReason::ExpiredProviderToken => ApnsResultReason::ExpiredProviderToken,
            _ => ApnsResultReason::Nothing,
        }
    }
}

impl From<u16> for ApnsResultStatus {
    fn from(status: u16) -> (r: ApnsResultStatus) {
        ApnsResultStatus::from_code(status)
    }
}

impl vstd::std_specs::convert::FromSpecImpl<u16> for ApnsResultStatus {
    open spec fn obeys_from_spec() -> bool {
        true
    }

    open spec fn from_spec(status: u16) -> ApnsResultStatus {
        status_of_code(status)
    }
}

impl<'a> From<&'a ErrorReason> for ApnsResultReason {
    fn from(e: &'a ErrorReason) -> (r: ApnsResultReason) {
        ApnsResultReason::from_error(e)
    }
}

impl<'a> vstd::std_specs::convert::FromSpecImpl<&'a ErrorReason> for ApnsResultReason {
    open spec fn obeys_from_spec() -> bool {
        true
    }

    open spec fn from_spec(e: &'a ErrorReason) -> ApnsResultReason {
        reason_of_error(*e)
    }
}

/// Each APNs status code the service knows becomes its own status (200
/// success, 400 bad request, 403 forbidden, 405 method not allowed, 410
/// unregistered, 413 payload too large, 429 too many requests); every other
/// code is an error.
pub proof fn status_codes(code: u16)
    ensures
        (status_of_code(code) == ApnsResultStatus::Success) <==> code == 200,
        (status_of_code(code) == ApnsResultStatus::BadRequest) <==> code == 400,
        (status_of_code(code) == ApnsResultStatus::Forbidden) <==> code == 403,
        (status_of_code(code) == ApnsResultStatus::MethodNotAllowed) <==> code == 405,
        (status_of_code(code) == ApnsResultStatus::Unregistered) <==> code == 410,
        (status_of_code(code) == ApnsResultStatus::PayloadTooLarge) <==> code == 413,
        (status_of_code(code) == ApnsResultStatus::TooManyRequests) <==> code == 429,
        (status_of_code(code) == ApnsResultStatus::Error) <==> !(code == 200 || code == 400 || code == 403
            || code == 405 || code == 410 || code == 413 || code == 429),
{
}

/// A refusal reason with a counterpart among the result reasons becomes the
/// one of the same name; the others (BadCollapseId, Forbidden, MethodNotAllowed, Unregistered, PayloadTooLarge, TooManyProviderTokenUpdates, TooManyRequests) become `Nothing`.
pub proof fn reasons_keep_their_name(e: ErrorReason)
    ensures
        e == ErrorReason::PayloadEmpty ==> reason_of_error(e) == ApnsResultReason::PayloadEmpty,
        e == ErrorReason::BadTopic ==> reason_of_error(e) == ApnsResultReason::BadTopic,
        e == ErrorReason::TopicDisallowed ==> reason_of_error(e) == ApnsResultReason::TopicDisallowed,
        e == ErrorReason::BadMessageId ==> reason_of_error(e) == ApnsResultReason::BadMessageId,
        e == ErrorReason::BadExpirationDate ==> reason_of_error(e) == ApnsResultReason::BadExpirationDate,
        e == ErrorReason::BadPriority ==> reason_of_error(e) == ApnsResultReason::BadPriority,
        e == ErrorReason::MissingDeviceToken ==> reason_of_error(e) == ApnsResultReason::MissingDeviceToken,
        e == ErrorReason::BadDeviceToken ==> reason_of_error(e) == ApnsResultReason::BadDeviceToken,
        e == ErrorReason::DeviceTokenNotForTopic ==> reason_of_error(e) == ApnsResultReason::DeviceTokenNotForTopic,
        e == ErrorReason::DuplicateHeaders ==> reason_of_error(e) == ApnsResultReason::DuplicateHeaders,
        e == ErrorReason::BadCertificateEnvironment ==> reason_of_error(e) == ApnsResultReason::BadCertificateEnvironment,
        e == ErrorReason::BadCertificate ==> reason_of_error(e) == ApnsResultReason::BadCertificate,
        e == ErrorReason::BadPath ==> reason_of_error(e) == ApnsResultReason::BadPath,
        e == ErrorReason::IdleTimeout ==> reason_of_error(e) == ApnsResultReason::IdleTimeout,
        e == ErrorReason::Shutdown ==> reason_of_error(e) == ApnsResultReason::Shutdown,
        e == ErrorReason::InternalServerError ==> reason_of_error(e) == ApnsResultReason::InternalServerError,
        e == ErrorReason::ServiceUnavailable ==> reason_of_error(e) == ApnsResultReason::ServiceUnavailable,
        e == ErrorReason::MissingTopic ==> reason_of_error(e) == ApnsResultReason::MissingTopic,
        e == ErrorReason::InvalidProviderToken ==> reason_of_error(e) == ApnsResultReason::InvalidProviderToken,
        e == ErrorReason::MissingProviderToken ==> reason_of_error(e) == ApnsResultReason::MissingProviderToken,
        e == ErrorReason::ExpiredProviderToken ==> reason_of_error(e) == ApnsResultReason::ExpiredProviderToken,
        (reason_of_error(e) == ApnsResultReason::Nothing) <==> (e == ErrorReason::BadCollapseId || e == ErrorReason::Forbidden || e == ErrorReason::MethodNotAllowed || e == ErrorReason::Unregistered || e == ErrorReason::PayloadTooLarge || e == ErrorReason::TooManyProviderTokenUpdates || e == ErrorReason::TooManyRequests),
{
}

} // verus!
