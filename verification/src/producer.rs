//! The legacy APNs service's answers: the result stored in the notification,
//! where the notification goes next, and the reply to its sender.
use vstd::prelude::*;
use crate::apns2::producer::ErrorReason;
use crate::error::{status_of_code, reason_of_error};
use crate::events::{ApnsResult, ApnsResultReason, ApnsResultStatus, Header, NotificationResult,
    NotificationResultError, PushNotification};
use crate::common::text::{str_eq, parse_i32, parsed_i32, snake_case, to_snake_case, decimal, u64_to_string};
use crate::common::logger::{pairs_view, LogAction};
use crate::apns2::producer::reason_name;
use vstd::arithmetic::power2::{pow2 as two_to, lemma2_to64, lemma_pow2_unfold, lemma_pow2_strictly_increases};

verus! {

/// The refusal details of an APNs response.
#[derive(Debug, Clone, PartialEq, Eq)]
pub struct ErrorBody {
    pub reason: ErrorReason,
    pub timestamp: Option<u64>,
}

/// An APNs response: its status code and, for a refusal, the details.
#[derive(Debug, Clone, PartialEq, Eq)]
pub struct Response {
    pub code: u16,
    pub error: Option<ErrorBody>,
}

/// A clock reading: seconds and nanoseconds.
#[derive(Debug, Clone, Copy, PartialEq, Eq, Structural)]
pub struct Timespec {
    pub sec: i64,
    pub nsec: i32,
}

/// A message to publish on RabbitMQ.
#[derive(Debug, Clone, PartialEq, Eq)]
pub enum Publish {
    /// The notification itself, to `exchange` with `routing_key`.
    Forward { exchange: String, routing_key: String, event: PushNotification },
    /// A reply to the sender, to its exchange with its recipient id as routing key.
    Reply { exchange: String, routing_key: String, result: NotificationResult },
}

/// What answering one notification amounts to: the metrics label, the
/// application to mark as failing (if any), and the message to publish.
#[derive(Debug, Clone, PartialEq, Eq)]
pub struct Answer {
    pub counter_label: String,
    pub failed_application: Option<i32>,
    pub publish: Publish,
}

/// Whether the sender can be answered directly: it named an exchange and a
/// recipient, and the notification is not to be retried.
pub open spec fn can_reply_spec(event: PushNotification, routing_key: Seq<char>) -> bool {
    event.exchange is Some && routing_key == "no_retry"@ && event.response_recipient_id is Some
}

/// Milliseconds of a clock reading.
pub open spec fn millis(now: Timespec) -> int {
    now.sec * 1000 + now.nsec / 1000 / 1000
}

/// The name of a status, as its debug form prints it.
pub open spec fn status_name(s: ApnsResultStatus) -> Seq<char> {
    match s {
        ApnsResultStatus::Success => "Success"@,
        ApnsResultStatus::BadRequest => "BadRequest"@,
        ApnsResultStatus::Forbidden => "Forbidden"@,
        ApnsResultStatus::MethodNotAllowed => "MethodNotAllowed"@,
        ApnsResultStatus::Unregistered => "Unregistered"@,
        ApnsResultStatus::PayloadTooLarge => "PayloadTooLarge"@,
        ApnsResultStatus::TooManyRequests => "TooManyRequests"@,
        ApnsResultStatus::Error => "Error"@,
        ApnsResultStatus::Timeout => "Timeout"@,
        ApnsResultStatus::Unknown => "Unknown"@,
    }
}

impl ApnsResultStatus {
    /// The status's name, as its debug form prints it.
    pub fn name(&self) -> (r: &'static str)
        ensures
            r@ == status_name(*self),
    {
        match self {
            ApnsResultStatus::Success => "Success",
            ApnsResultStatus::BadRequest => "BadRequest",
            ApnsResultStatus::Forbidden => "Forbidden",
            ApnsResultStatus::MethodNotAllowed => "MethodNotAllowed",
            ApnsResultStatus::Unregistered => "Unregistered",
            ApnsResultStatus::PayloadTooLarge => "PayloadTooLarge",
            ApnsResultStatus::TooManyRequests => "TooManyRequests",
            ApnsResultStatus::Error => "Error",
            ApnsResultStatus::Timeout => "Timeout",
            ApnsResultStatus::Unknown => "Unknown",
        }
    }
}

/// Whether `r` is the message for `event`: a reply to the sender, created
/// at `now`, when it can be answered directly; otherwise the notification
/// itself, to `exchange` with `routing_key`.
pub open spec fn publishes_for(event: PushNotification, exchange: Seq<char>, routing_key: Seq<char>, now: Timespec, r: Publish) -> bool {
    &&& can_reply_spec(event, routing_key) ==> (r matches Publish::Reply { exchange: x, routing_key: k, result }
        && x@ == event.exchange->0@
        && k@ == event.response_recipient_id->0@
        && result.header.created_at == millis(now)
        && result.header.source@ == "apns"@
        && result.header.recipient_id@ == event.response_recipient_id->0@
        && result.header.field_type@ == "notification.NotificationResult"@
        && result.universe@ == event.universe@
        && result.correlation_id@ == event.correlation_id@
        && reply_fields(result_status(event), result))
    &&& !can_reply_spec(event, routing_key) ==> (r matches Publish::Forward { exchange: x, routing_key: k, event: e }
        && x@ == exchange && k@ == routing_key && e == event)
}

/// The reply fields for an APNs status: delivered; the device is gone
/// (delete the user); or another failure, with the status as reason.
pub open spec fn reply_fields(status: ApnsResultStatus, r: NotificationResult) -> bool {
    match status {
        ApnsResultStatus::Success => !r.delete_user && r.successful && r.error is None && r.reason is None,
        ApnsResultStatus::Unregistered => r.delete_user && !r.successful
            && r.error == Some(NotificationResultError::Unsubscribed) && r.reason is None,
        _ => !r.delete_user && !r.successful && r.error == Some(NotificationResultError::Other)
            && (r.reason matches Some(s) && s@ == status_name(status)),
    }
}

/// The status stored in a notification's result, `Error` when it has none.
pub open spec fn result_status(event: PushNotification) -> ApnsResultStatus {
    match event.apple.result {
        Some(r) => r.status,
        None => ApnsResultStatus::Error,
    }
}

/// Whether a reason calls for a retry.
pub open spec fn retry_reason(r: Option<ApnsResultReason>) -> bool {
    r == Some(ApnsResultReason::InternalServerError) || r == Some(ApnsResultReason::Shutdown)
        || r == Some(ApnsResultReason::ServiceUnavailable) || r == Some(ApnsResultReason::ExpiredProviderToken)
}

/// Whether a status calls for a retry.
pub open spec fn retry_status(s: ApnsResultStatus) -> bool {
    s == ApnsResultStatus::Timeout || s == ApnsResultStatus::Unknown || s == ApnsResultStatus::Forbidden
}

/// The delay before a retry: two to the power of the retries so far, one
/// when none were counted.
pub open spec fn retry_delay(retry_count: Option<u32>) -> int {
    match retry_count {
        Some(n) => two_to(n as nat) as int,
        None => 1,
    }
}

/// Reasons after which the application's connection is restarted.
pub open spec fn restart_reason(r: ErrorReason) -> bool {
    r == ErrorReason::ExpiredProviderToken || r == ErrorReason::IdleTimeout || r == ErrorReason::BadCertificate
}

fn pow2(n: u32) -> (r: u32)
    requires
        n < 32,
    ensures
        r == two_to(n as nat),
    decreases n,
{
    proof { lemma2_to64(); }
    if n == 0 {
        1
    } else {
        let half = pow2(n - 1);
        proof {
            lemma_pow2_unfold(n as nat);
            lemma_pow2_strictly_increases((n - 1) as nat, 31);
        }
        2 * half
    }
}

/// The debug form of refusal details.
pub open spec fn error_body_text(e: ErrorBody) -> Seq<char> {
    "ErrorBody { reason: "@ + reason_name(e.reason) + ", timestamp: "@
        + (match e.timestamp {
            Some(t) => "Some("@ + decimal(t as nat) + ")"@,
            None => "None"@,
        })
        + " }"@
}

/// The fields logged for the outcome of a notification: APNs's `response`,
/// or `None` when there was no connection to send it through.
pub open spec fn result_log_fields_spec(event: PushNotification, response: Option<Response>) -> Seq<(Seq<char>, Seq<char>)> {
    let base = seq![
        ("action"@, "NotificationResult"@),
        ("correlation_id"@, event.correlation_id@),
        ("device_token"@, event.device_token@),
        ("app_id"@, event.application_id@),
        ("campaign_id"@, event.campaign_id@),
        ("event_source"@, event.header.source@),
    ];
    base + match response {
        Some(r) => if r.code == 200 {
            seq![("successful"@, "true"@)]
        } else {
            seq![("successful"@, "false"@), ("error"@, status_name(status_of_code(r.code)))]
                + match r.error {
                    Some(e) => seq![("reason"@, error_body_text(e))],
                    None => Seq::<(Seq<char>, Seq<char>)>::empty(),
                }
        },
        None => seq![("successful"@, "false"@), ("error"@, "MissingCertificateOrToken"@)],
    }
}

/// The debug form of refusal details.
pub fn error_body_debug(e: &ErrorBody) -> (r: String)
    ensures
        r@ == error_body_text(*e),
{
    let mut r = String::from_str("ErrorBody { reason: ");
    r.append(e.reason.name());
    r.append(", timestamp: ");
    match e.timestamp {
        Some(t) => {
            r.append("Some(");
            let digits = u64_to_string(t);
            r.append(digits.as_str());
            r.append(")");
        },
        None => {
            r.append("None");
        },
    }
    r.append(" }");
    r
}

/// How sending a notification to APNs ended.
#[derive(Debug, Clone, PartialEq, Eq)]
pub enum SendOutcome {
    /// APNs accepted it.
    Delivered(Response),
    /// APNs refused it.
    Refused(Response),
    /// The request failed before APNs answered.
    Failed,
}

/// Whether `a` answers the delivery of `event`: counted as a success, no
/// application failing, and the notification, marked successful, passed on
/// without retry.
pub open spec fn delivered_answer(exchange: Seq<char>, event: PushNotification, now: Timespec, a: Answer) -> bool {
    &&& a.counter_label@ == "success"@
    &&& a.failed_application is None
    &&& publishes_for(
        PushNotification {
            apple: crate::events::AppleNotification {
                result: Some(ApnsResult { successful: true, status: ApnsResultStatus::Success, reason: None, timestamp: None }),
            },
            ..event
        }, exchange, "no_retry"@, now, a.publish)
}

/// Whether `a` answers the refusal of `event` with `response`, where
/// `description` is the debug form of the refusal details: the notification
/// records the status, reason and timestamp; it is retried, after two to the
/// power of its retries seconds, for server-side trouble, an expired token,
/// a timeout, an unknown status or a forbidden request; an expired token, an
/// idle timeout or a bad certificate marks its application as failing.
pub open spec fn refused_answer(exchange: Seq<char>, event: PushNotification, response: Response, description: Seq<char>, now: Timespec, a: Answer) -> bool {
    let status = status_of_code(response.code);
    let reason = match response.error { Some(e) => Some(reason_of_error(e.reason)), None => None };
    let result = ApnsResult {
        successful: false,
        status,
        reason,
        timestamp: match response.error {
            Some(e) => match e.timestamp { Some(t) => Some(t as i64), None => None },
            None => None,
        },
    };
    let retry = retry_reason(reason) || retry_status(status);
    &&& a.counter_label@ == (match response.error {
        Some(_) => snake_case(description),
        None => snake_case(status_name(status)),
    })
    &&& a.failed_application == (match response.error {
        Some(e) => if restart_reason(e.reason) { parsed_i32(event.application_id@) } else { None },
        None => None,
    })
    &&& publishes_for(
        PushNotification {
            apple: crate::events::AppleNotification { result: Some(result) },
            retry_after: if retry { Some(retry_delay(event.retry_count) as u32) } else { event.retry_after },
            ..event
        },
        exchange,
        if retry { "retry"@ } else { "no_retry"@ },
        now,
        a.publish)
}

/// Answers legacy APNs notifications over RabbitMQ.
pub struct ResponseProducer;

impl ResponseProducer {
    /// Whether the sender can be answered directly.
    pub fn can_reply(event: &PushNotification, routing_key: &str) -> (r: bool)
        ensures
            r == can_reply_spec(*event, routing_key@),
    {
        event.exchange.is_some() && str_eq(routing_key, "no_retry") && event.response_recipient_id.is_some()
    }

    /// The message to publish for `event`: a reply to the sender when it can
    /// be answered directly, created at `now`; otherwise the notification,
    /// to `exchange` with `routing_key`.
    pub fn publish(event: PushNotification, exchange: &str, routing_key: &str, now: Timespec) -> (r: Publish)
        requires
            i64::MIN <= millis(now) <= i64::MAX,
            i64::MIN <= now.sec * 1000 <= i64::MAX,
            0 <= now.nsec,
        ensures
            publishes_for(event, exchange@, routing_key@, now, r),
    {
        if Self::can_reply(&event, routing_key) {
            let recipient = match &event.response_recipient_id { Some(r) => r.clone(), None => String::new() };
            let target = match &event.exchange { Some(x) => x.clone(), None => String::new() };
            let status = match &event.apple.result { Some(r) => r.status, None => ApnsResultStatus::Error };
            let created_at = now.sec * 1000 + (now.nsec / 1000 / 1000) as i64;
            let header = Header {
                created_at,
                source: String::from_str("apns"),
                recipient_id: recipient.clone(),
                field_type: String::from_str("notification.NotificationResult"),
            };
            let (delete_user, successful, error, reason) = match status {
                ApnsResultStatus::Success => (false, true, None, None),
                ApnsResultStatus::Unregistered => (true, false, Some(NotificationResultError::Unsubscribed), None),
                _ => (false, false, Some(NotificationResultError::Other), Some(String::from_str(status.name()))),
            };
            let result = NotificationResult {
                header,
                universe: event.universe.clone(),
                correlation_id: event.correlation_id.clone(),
                delete_user,
                successful,
                error,
                reason,
            };
            Publish::Reply { exchange: target, routing_key: recipient, result }
        } else {
            Publish::Forward { exchange: String::from_str(exchange), routing_key: String::from_str(routing_key), event }
        }
    }

    /// A notification was delivered: record success and pass it on without retry.
    pub fn handle_response(exchange: &str, event: PushNotification, now: Timespec) -> (r: Answer)
        requires
            i64::MIN <= millis(now) <= i64::MAX,
            i64::MIN <= now.sec * 1000 <= i64::MAX,
            0 <= now.nsec,
        ensures
            delivered_answer(exchange@, event, now, r),
    {
        let mut event = event;
        event.apple.result = Some(ApnsResult { successful: true, status: ApnsResultStatus::Success, reason: None, timestamp: None });
        let publish = Self::publish(event, exchange, "no_retry", now);
        Answer { counter_label: String::from_str("success"), failed_application: None, publish }
    }

    /// APNs refused a notification with `response`; `description` is the
    /// debug form of its refusal details. The notification records the
    /// status, reason and timestamp; it is retried, after two to the power of
    /// its retries seconds, for server-side trouble, an expired token, a
    /// timeout, an unknown status or a forbidden request; an expired token,
    /// an idle timeout or a bad certificate marks its application as failing.
    pub fn handle_error(exchange: &str, event: PushNotification, response: Response, description: &str, now: Timespec) -> (r: Answer)
        requires
            event.retry_count matches Some(n) ==> n < 32,
            i64::MIN <= millis(now) <= i64::MAX,
            i64::MIN <= now.sec * 1000 <= i64::MAX,
            0 <= now.nsec,
        ensures
            refused_answer(exchange@, event, response, description@, now, r),
            (response.error matches Some(e) && (e.reason == ErrorReason::ExpiredProviderToken
                || e.reason == ErrorReason::IdleTimeout || e.reason == ErrorReason::BadCertificate))
                ==> r.failed_application == parsed_i32(event.application_id@),
            !(response.error matches Some(e) && (e.reason == ErrorReason::ExpiredProviderToken
                || e.reason == ErrorReason::IdleTimeout || e.reason == ErrorReason::BadCertificate))
                ==> r.failed_application is None,
    {
        let status = ApnsResultStatus::from_code(response.code);
        let mut failed_application: Option<i32> = None;
        let (reason, timestamp) = match &response.error {
            Some(e) => {
                if e.reason == ErrorReason::ExpiredProviderToken || e.reason == ErrorReason::IdleTimeout
                    || e.reason == ErrorReason::BadCertificate {
                    failed_application = parse_i32(event.application_id.as_str());
                }
                let ts = match e.timestamp { Some(t) => Some(t as i64), None => None };
                (Some(ApnsResultReason::from_error(&e.reason)), ts)
            },
            None => (None, None),
        };
        let retry_after: u32 = match event.retry_count {
            Some(n) => pow2(n),
            None => 1,
        };
        let label = match &response.error {
            Some(_) => to_snake_case(description),
            None => to_snake_case(status.name()),
        };
        let retry = match reason {
            Some(ApnsResultReason::InternalServerError) | Some(ApnsResultReason::Shutdown)
            | Some(ApnsResultReason::ServiceUnavailable) | Some(ApnsResultReason::ExpiredProviderToken) => true,
            _ => match status {
                ApnsResultStatus::Timeout | ApnsResultStatus::Unknown | ApnsResultStatus::Forbidden => true,
                _ => false,
            },
        };
        let mut event = event;
        if retry {
            event.retry_after = Some(retry_after);
        }
        event.apple.result = Some(ApnsResult { successful: false, status, reason, timestamp });
        let routing_key = if retry { "retry" } else { "no_retry" };
        let publish = Self::publish(event, exchange, routing_key, now);
        Answer { counter_label: label, failed_application, publish }
    }

    /// The fields logged for the outcome of `event`: APNs's `response`, or
    /// `None` when there was no connection to send it through.
    pub fn result_log_fields(event: &PushNotification, response: Option<&Response>) -> (r: Vec<(String, String)>)
        ensures
            pairs_view(r@) == result_log_fields_spec(*event, match response { Some(x) => Some(*x), None => None }),
    {
        let mut r: Vec<(String, String)> = Vec::new();
        r.push((String::from_str("action"), String::from_str(LogAction::NotificationResult.name())));
        r.push((String::from_str("correlation_id"), event.correlation_id.clone()));
        r.push((String::from_str("device_token"), event.device_token.clone()));
        r.push((String::from_str("app_id"), event.application_id.clone()));
        r.push((String::from_str("campaign_id"), event.campaign_id.clone()));
        r.push((String::from_str("event_source"), event.header.source.clone()));
        match response {
            Some(resp) => {
                if resp.code == 200 {
                    r.push((String::from_str("successful"), String::from_str("true")));
                } else {
                    let status = ApnsResultStatus::from_code(resp.code);
                    r.push((String::from_str("successful"), String::from_str("false")));
                    r.push((String::from_str("error"), String::from_str(status.name())));
                    match &resp.error {
                        Some(e) => {
                            r.push((String::from_str("reason"), error_body_debug(e)));
                        },
                        None => {},
                    }
                }
            },
            None => {
                r.push((String::from_str("successful"), String::from_str("false")));
                r.push((String::from_str("error"), String::from_str("MissingCertificateOrToken")));
            },
        }
        proof {
            let spec = result_log_fields_spec(*event, match response { Some(x) => Some(*x), None => None });
            assert(pairs_view(r@) =~= spec);
        }
        r
    }

    /// The answer for a notification whose sending ended with `outcome`:
    /// that of a delivery, or of a refusal described by the debug form of
    /// its details; none when the request failed before APNs answered.
    pub fn answer_for(exchange: &str, event: PushNotification, outcome: SendOutcome, now: Timespec) -> (r: Option<Answer>)
        requires
            outcome is Refused ==> (event.retry_count matches Some(n) ==> n < 32),
            i64::MIN <= millis(now) <= i64::MAX,
            i64::MIN <= now.sec * 1000 <= i64::MAX,
            0 <= now.nsec,
        ensures
            outcome is Failed <==> r is None,
            outcome is Delivered ==> (r matches Some(a) && delivered_answer(exchange@, event, now, a)),
            outcome matches SendOutcome::Refused(resp) ==> (r matches Some(a) && refused_answer(exchange@, event, resp,
                match resp.error { Some(e) => error_body_text(e), None => Seq::<char>::empty() }, now, a)),
    {
        match outcome {
            SendOutcome::Delivered(_) => Some(Self::handle_response(exchange, event, now)),
            SendOutcome::Refused(resp) => {
                let description = match &resp.error {
                    Some(e) => error_body_debug(e),
                    None => String::new(),
                };
                Some(Self::handle_error(exchange, event, resp, description.as_str(), now))
            },
            SendOutcome::Failed => None,
        }
    }
}

/// Retries back off exponentially: the first waits one second, and each
/// further retry waits twice as long as the one before.
pub proof fn retry_delay_doubles(n: u32)
    requires
        n < u32::MAX,
    ensures
        retry_delay(None) == 1,
        retry_delay(Some(0u32)) == 1,
        retry_delay(Some((n + 1) as u32)) == 2 * retry_delay(Some(n)),
{
    lemma_pow2_unfold((n + 1) as nat);
    vstd::arithmetic::power2::lemma_pow2(0);
    vstd::arithmetic::power::lemma_pow0(2);
}

/// A notification sent for a retry is never answered to its sender: it goes
/// back to `exchange` with the `retry` routing key, unchanged.
pub proof fn retried_notification_is_forwarded(event: PushNotification, exchange: Seq<char>, now: Timespec, r: Publish)
    requires
        publishes_for(event, exchange, "retry"@, now, r),
    ensures
        r matches Publish::Forward { exchange: x, routing_key: k, event: e }
            && x@ == exchange && k@ == "retry"@ && e == event,
{
    assert("retry"@ != "no_retry"@) by {
        reveal_strlit("retry");
        reveal_strlit("no_retry");
        assert("retry"@.len() != "no_retry"@.len());
    }
}

/// The connection of an application is restarted after an expired provider
/// token, an idle timeout or a bad certificate, and after no other refusal.
pub proof fn restart_reasons(r: ErrorReason)
    ensures
        restart_reason(r) <==> (r == ErrorReason::ExpiredProviderToken || r == ErrorReason::IdleTimeout
            || r == ErrorReason::BadCertificate),
{
}

/// A refused notification is retried for server trouble, a shutdown, an
/// unavailable service or an expired provider token, and for a timeout, an
/// unknown status or a forbidden request; for nothing else.
pub proof fn retry_decisions(reason: Option<ApnsResultReason>, status: ApnsResultStatus)
    ensures
        retry_reason(reason) <==> (reason == Some(ApnsResultReason::InternalServerError)
            || reason == Some(ApnsResultReason::Shutdown) || reason == Some(ApnsResultReason::ServiceUnavailable)
            || reason == Some(ApnsResultReason::ExpiredProviderToken)),
        retry_status(status) <==> (status == ApnsResultStatus::Timeout || status == ApnsResultStatus::Unknown
            || status == ApnsResultStatus::Forbidden),
{
}

/// A reply tells the sender whether the notification was delivered, asks
/// it to delete the user exactly when the device is gone (and then as
/// unsubscribed), and reports any other failure as such.
pub proof fn reply_tells_the_outcome(status: ApnsResultStatus, r: NotificationResult)
    requires
        reply_fields(status, r),
    ensures
        r.successful <==> status == ApnsResultStatus::Success,
        r.delete_user <==> status == ApnsResultStatus::Unregistered,
        status == ApnsResultStatus::Success ==> r.error is None,
        status == ApnsResultStatus::Unregistered ==> r.error == Some(NotificationResultError::Unsubscribed),
        (status != ApnsResultStatus::Success && status != ApnsResultStatus::Unregistered)
            ==> r.error == Some(NotificationResultError::Other),
{
}

} // verus!
