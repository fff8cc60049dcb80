use xorc_notifications::apns2::producer::ErrorReason;
use xorc_notifications::common::kafka::push_consumer::{OffsetStart, TopicRoute};
use xorc_notifications::consumer::{AppleConfigAction, ApnsConsumer};
use xorc_notifications::events::{
    AppleConfig, AppleNotification, ApnsResultReason, ApnsResultStatus, Certificate, ConnectionEndpoint, Header,
    NotificationResultError, PushNotification, Token, WebNotification,
};
use xorc_notifications::logger::{GelfLevel, GelfLogger, LevelFilter, LogRoute, PushError};
use xorc_notifications::notifier::{NotifierAction, Notifier};
use xorc_notifications::producer::{error_body_debug, ErrorBody, Publish, Response, ResponseProducer, SendOutcome, Timespec};
use xorc_notifications::web_push::notifier::ContentEncoding;

fn legacy_event() -> PushNotification {
    PushNotification {
        header: Header {
            created_at: 1,
            source: String::from("sender"),
            recipient_id: String::from("r"),
            field_type: String::from("notification.PushNotification"),
        },
        universe: String::from("uni"),
        correlation_id: String::from("corr"),
        device_token: String::from("https://push.example.com/send/abc"),
        application_id: String::from("42"),
        campaign_id: String::from("camp"),
        exchange: None,
        response_recipient_id: None,
        retry_count: None,
        retry_after: None,
        apple: AppleNotification { result: None },
        web: WebNotification { auth: String::from("AQID"), p256dh: String::from("BAUG"), payload: None, ttl: None },
    }
}

fn clock() -> Timespec {
    Timespec { sec: 1_500_000_000, nsec: 250_000_000 }
}

fn refused(code: u16, reason: ErrorReason) -> Response {
    Response { code, error: Some(ErrorBody { reason, timestamp: None }) }
}

#[test]
fn refusal_debug_form() {
    assert_eq!(
        error_body_debug(&ErrorBody { reason: ErrorReason::BadDeviceToken, timestamp: Some(12) }),
        "ErrorBody { reason: BadDeviceToken, timestamp: Some(12) }"
    );
    assert_eq!(
        error_body_debug(&ErrorBody { reason: ErrorReason::Unregistered, timestamp: None }),
        "ErrorBody { reason: Unregistered, timestamp: None }"
    );
}

#[test]
fn retry_delay_doubles_with_each_retry() {
    let mut delays = Vec::new();
    for n in 0u32..4 {
        let mut ev = legacy_event();
        ev.retry_count = Some(n);
        let a = ResponseProducer::handle_error("ex", ev, refused(500, ErrorReason::InternalServerError), "d", clock());
        match a.publish {
            Publish::Forward { routing_key, event, .. } => {
                assert_eq!(routing_key, "retry");
                delays.push(event.retry_after.unwrap());
            }
            Publish::Reply { .. } => panic!("a retry is never answered directly"),
        }
    }
    assert_eq!(delays, vec![1, 2, 4, 8]);
    let a = ResponseProducer::handle_error("ex", legacy_event(), refused(503, ErrorReason::ServiceUnavailable), "d", clock());
    match a.publish {
        Publish::Forward { event, .. } => assert_eq!(event.retry_after, Some(1)),
        Publish::Reply { .. } => panic!("a retry is never answered directly"),
    }
}

#[test]
fn retried_notification_is_forwarded() {
    let mut ev = legacy_event();
    ev.exchange = Some(String::from("sender-exchange"));
    ev.response_recipient_id = Some(String::from("sender-queue"));
    let a = ResponseProducer::handle_error("ex", ev, Response { code: 403, error: None }, "", clock());
    assert_eq!(a.counter_label, "forbidden");
    match a.publish {
        Publish::Forward { exchange, routing_key, event } => {
            assert_eq!(exchange, "ex");
            assert_eq!(routing_key, "retry");
            let result = event.apple.result.unwrap();
            assert_eq!(result.status, ApnsResultStatus::Forbidden);
            assert!(!result.successful);
        }
        Publish::Reply { .. } => panic!("a retry is never answered directly"),
    }
}

#[test]
fn unregistered_device_is_answered_to_sender() {
    let mut ev = legacy_event();
    ev.exchange = Some(String::from("sender-exchange"));
    ev.response_recipient_id = Some(String::from("sender-queue"));
    let a = ResponseProducer::handle_error(
        "ex",
        ev,
        Response { code: 410, error: Some(ErrorBody { reason: ErrorReason::Unregistered, timestamp: Some(5) }) },
        "ErrorBody { reason: Unregistered, timestamp: Some(5) }",
        clock(),
    );
    assert_eq!(a.counter_label, "error_body_reason_unregistered_timestamp_some_5");
    assert_eq!(a.failed_application, None);
    match a.publish {
        Publish::Reply { exchange, routing_key, result } => {
            assert_eq!(exchange, "sender-exchange");
            assert_eq!(routing_key, "sender-queue");
            assert!(result.delete_user);
            assert!(!result.successful);
            assert_eq!(result.error, Some(NotificationResultError::Unsubscribed));
            assert_eq!(result.header.created_at, 1_500_000_000_250);
            assert_eq!(result.header.source, "apns");
            assert_eq!(result.header.field_type, "notification.NotificationResult");
            assert_eq!(result.universe, "uni");
        }
        Publish::Forward { .. } => panic!("expected a reply"),
    }
}

#[test]
fn expired_token_marks_application_failing() {
    let a = ResponseProducer::handle_error("ex", legacy_event(), refused(403, ErrorReason::ExpiredProviderToken), "x", clock());
    assert_eq!(a.failed_application, Some(42));
    let mut ev = legacy_event();
    ev.application_id = String::from("not-a-number");
    let a = ResponseProducer::handle_error("ex", ev, refused(400, ErrorReason::BadCertificate), "x", clock());
    assert_eq!(a.failed_application, None);
    match a.publish {
        Publish::Forward { routing_key, event, .. } => {
            assert_eq!(routing_key, "no_retry");
            assert_eq!(event.apple.result.unwrap().reason, Some(ApnsResultReason::BadCertificate));
        }
        Publish::Reply { .. } => panic!("expected forwarding"),
    }
}

#[test]
fn delivery_and_failure_answers() {
    let a = ResponseProducer::answer_for("ex", legacy_event(), SendOutcome::Delivered(Response { code: 200, error: None }), clock()).unwrap();
    assert_eq!(a.counter_label, "success");
    match a.publish {
        Publish::Forward { routing_key, event, .. } => {
            assert_eq!(routing_key, "no_retry");
            assert_eq!(event.apple.result.unwrap().status, ApnsResultStatus::Success);
        }
        Publish::Reply { .. } => panic!("no sender to answer"),
    }
    assert!(ResponseProducer::answer_for("ex", legacy_event(), SendOutcome::Failed, clock()).is_none());
    let a = ResponseProducer::answer_for("ex", legacy_event(), SendOutcome::Refused(refused(400, ErrorReason::BadTopic)), clock()).unwrap();
    assert_eq!(a.counter_label, "error_body_reason_bad_topic_timestamp_none");
    assert!(ResponseProducer::can_reply(
        &PushNotification { exchange: Some(String::from("x")), response_recipient_id: Some(String::from("y")), ..legacy_event() },
        "no_retry"
    ));
    assert!(!ResponseProducer::can_reply(&legacy_event(), "no_retry"));
}

#[test]
fn result_log_fields_list_the_outcome() {
    let fields = ResponseProducer::result_log_fields(&legacy_event(), Some(&refused(410, ErrorReason::Unregistered)));
    let expected: Vec<(String, String)> = vec![
        ("action", "NotificationResult"),
        ("correlation_id", "corr"),
        ("device_token", "https://push.example.com/send/abc"),
        ("app_id", "42"),
        ("campaign_id", "camp"),
        ("event_source", "sender"),
        ("successful", "false"),
        ("error", "Unregistered"),
        ("reason", "ErrorBody { reason: Unregistered, timestamp: None }"),
    ]
    .into_iter()
    .map(|(a, b)| (String::from(a), String::from(b)))
    .collect();
    assert_eq!(fields, expected);
    let fields = ResponseProducer::result_log_fields(&legacy_event(), None);
    assert_eq!(fields[6], (String::from("successful"), String::from("false")));
    assert_eq!(fields[7], (String::from("error"), String::from("MissingCertificateOrToken")));
    let fields = ResponseProducer::result_log_fields(&legacy_event(), Some(&Response { code: 200, error: None }));
    assert_eq!(fields.len(), 7);
    assert_eq!(fields[6], (String::from("successful"), String::from("true")));
}

#[test]
fn status_codes_and_reasons() {
    assert_eq!(ApnsResultStatus::from_code(200), ApnsResultStatus::Success);
    assert_eq!(ApnsResultStatus::from_code(410), ApnsResultStatus::Unregistered);
    assert_eq!(ApnsResultStatus::from_code(429), ApnsResultStatus::TooManyRequests);
    assert_eq!(ApnsResultStatus::from_code(599), ApnsResultStatus::Error);
    assert_eq!(ApnsResultReason::from_error(&ErrorReason::Shutdown), ApnsResultReason::Shutdown);
    assert_eq!(ApnsResultReason::from_error(&ErrorReason::Unregistered), ApnsResultReason::Nothing);
    assert_eq!(ApnsResultReason::from(&ErrorReason::BadTopic), ApnsResultReason::BadTopic);
    assert_eq!(ApnsResultStatus::from(403u16), ApnsResultStatus::Forbidden);
    assert_eq!(ApnsResultStatus::Timeout.name(), "Timeout");
}

#[test]
fn legacy_notifier_builds_messages() {
    let mut ev = legacy_event();
    ev.web.payload = Some(String::from("hello"));
    ev.web.ttl = Some(4_294_967_297);
    let m = Notifier::build_message(&ev, Some(String::from("gcm")));
    assert_eq!(m.endpoint, "https://push.example.com/send/abc");
    assert_eq!(m.auth, vec![1, 2, 3]);
    assert_eq!(m.p256dh, vec![4, 5, 6]);
    assert_eq!(m.payload, Some((ContentEncoding::AesGcm, String::from("hello"))));
    assert_eq!(m.ttl, Some(1));
    assert_eq!(m.gcm_key, Some(String::from("gcm")));
    let _ = Notifier::new();
}

#[test]
fn legacy_notifier_rejects_bad_keys() {
    let mut ev = legacy_event();
    ev.web.auth = String::from("not base64!");
    assert!(Notifier::try_build_message(&ev, None).is_none());
    assert_eq!(Notifier::next_action(&Ok(None), &ev), None);
    assert_eq!(Notifier::next_action(&Err(()), &ev), Some(NotifierAction::Skip));
    match Notifier::next_action(&Ok(None), &legacy_event()) {
        Some(NotifierAction::Send(m)) => assert_eq!(m.gcm_key, None),
        _ => panic!("expected a message"),
    }
}

#[test]
fn legacy_consumer_configuration() {
    let mut c: ApnsConsumer<u8> = ApnsConsumer::new(3);
    let token = Token { pkcs8: vec![1], key_id: String::from("k"), team_id: String::from("t") };
    let cert = Certificate { pkcs12: vec![2], password: String::from("p") };
    let cfg = AppleConfig {
        application_id: String::from("7"),
        endpoint: ConnectionEndpoint::Sandbox,
        apns_topic: String::from("com.example"),
        token: Some(token.clone()),
        certificate: Some(cert.clone()),
    };
    match c.handle_config(cfg.clone()) {
        AppleConfigAction::ConnectWithToken { application_id, token: t, .. } => {
            assert_eq!(application_id, "7");
            assert_eq!(t, token);
        }
        other => panic!("unexpected {:?}", other),
    }
    c.add_notifier(String::from("7"), 70);
    c.add_notifier(String::from("8"), 80);
    assert_eq!(c.notifier_for("7"), Some(&70));
    let removal = AppleConfig { token: None, certificate: None, ..cfg.clone() };
    assert_eq!(c.handle_config(removal), AppleConfigAction::Remove(String::from("7")));
    assert_eq!(c.notifier_for("7"), None);
    assert_eq!(c.notifier_for("8"), Some(&80));
    match ApnsConsumer::<u8>::config_action(AppleConfig { token: None, ..cfg }) {
        AppleConfigAction::ConnectWithCertificate { certificate, .. } => assert_eq!(certificate, cert),
        other => panic!("unexpected {:?}", other),
    }
}

#[test]
fn legacy_consumer_topics() {
    let c: ApnsConsumer<u8> = ApnsConsumer::new(5);
    let a = c.assignments("config", "input");
    assert_eq!(a, vec![(String::from("config"), 1, OffsetStart::Beginning), (String::from("input"), 5, OffsetStart::Stored)]);
    assert_eq!(ApnsConsumer::<u8>::route("input", "input", "config"), TopicRoute::Notification);
    assert_eq!(ApnsConsumer::<u8>::route("config", "input", "config"), TopicRoute::Configuration);
    assert_eq!(ApnsConsumer::<u8>::route("same", "same", "same"), TopicRoute::Notification);
    assert_eq!(ApnsConsumer::<u8>::route("other", "input", "config"), TopicRoute::Unsupported);
}

#[test]
fn legacy_log_levels() {
    assert_eq!(LevelFilter::from_env(Some("debug")), LevelFilter::Debug);
    assert_eq!(LevelFilter::from_env(Some("nonsense")), LevelFilter::Info);
    assert_eq!(LevelFilter::from_env(None), LevelFilter::Info);
    assert_eq!(GelfLevel::from_env(Some("warn")), GelfLevel::Warning);
    assert_eq!(GelfLevel::from_env(Some("error")), GelfLevel::Error);
    assert_eq!(GelfLevel::Critical.console_level(), LevelFilter::Error);
    assert_eq!(GelfLevel::Notice.console_level(), LevelFilter::Info);
    assert_eq!(LevelFilter::Warn.name(), "WARN");
}

#[test]
fn legacy_log_routes() {
    let warn: GelfLogger<()> = GelfLogger::new(None, LevelFilter::Warn);
    let fields = vec![(String::from("a"), String::from("1")), (String::from("b"), String::from("2"))];
    assert_eq!(
        warn.log_message(GelfLevel::Informational, "hi", &fields),
        LogRoute::Print(String::from("[INFO] hi: (a: 1, b: 2)"))
    );
    assert_eq!(warn.log_message(GelfLevel::Warning, "w", &vec![]), LogRoute::Print(String::from("[WARN] w: ()")));
    assert_eq!(warn.log_message(GelfLevel::Error, "boom", &fields), LogRoute::Skip);
    let debug: GelfLogger<()> = GelfLogger::new(None, LevelFilter::Debug);
    assert_eq!(debug.log_message(GelfLevel::Informational, "hi", &fields), LogRoute::Skip);
    assert_eq!(debug.log_message(GelfLevel::Debug, "d", &fields), LogRoute::Print(String::from("[DEBUG] d: (a: 1, b: 2)")));
    let connected: GelfLogger<u8> = GelfLogger::new(Some(1), LevelFilter::Off);
    assert_eq!(connected.log_message(GelfLevel::Debug, "x", &fields), LogRoute::Gelf);
}

#[test]
fn legacy_push_result_fields() {
    let fields = GelfLogger::<()>::push_result_fields(&legacy_event(), Some(PushError::BadRequest(String::from("why"))));
    assert_eq!(fields[5], (String::from("push_service"), String::from("push.example.com")));
    assert_eq!(fields[6], (String::from("successful"), String::from("false")));
    assert_eq!(fields[7], (String::from("error"), String::from("BadRequest")));
    assert_eq!(fields[8], (String::from("long_error"), String::from("why")));
    let mut ev = legacy_event();
    ev.device_token = String::from("no uri here");
    let fields = GelfLogger::<()>::push_result_fields(&ev, None);
    assert_eq!(fields.len(), 6);
    assert_eq!(fields[5], (String::from("successful"), String::from("true")));
}

#[test]
fn legacy_log_push_result() {
    let console: GelfLogger<()> = GelfLogger::new(None, LevelFilter::Info);
    let mut ev = legacy_event();
    ev.device_token = String::from("not a uri");
    assert_eq!(
        console.log_push_result("Sent", &ev, Some(PushError::Other(String::from("Io")))),
        LogRoute::Print(String::from(
            "[INFO] Sent: (correlation_id: corr, device_token: not a uri, app_id: 42, campaign_id: camp, event_source: sender, successful: false, error: Io)"
        ))
    );
    let quiet: GelfLogger<()> = GelfLogger::new(None, LevelFilter::Debug);
    assert_eq!(quiet.log_push_result("Sent", &ev, None), LogRoute::Skip);
    let connected: GelfLogger<u8> = GelfLogger::new(Some(0), LevelFilter::Debug);
    assert_eq!(connected.log_push_result("Sent", &ev, None), LogRoute::Gelf);
}
