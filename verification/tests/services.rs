use std::sync::{Arc, Mutex};
use xorc_notifications::artifactory::{ArtifactoryClient, ArtifactoryError};
use xorc_notifications::certificate_registry::{CertificateError, CertificateRegistry};
use xorc_notifications::common::events::http_request::{HttpRequest, HttpVerb};
use xorc_notifications::common::events::http_response::{Outcome, SocketError};
use xorc_notifications::common::events::push_notification::PushNotification;
use xorc_notifications::common::events::push_result::ResponseAction;
use xorc_notifications::common::events::rpc::Request;
use xorc_notifications::common::events::push_result;
use xorc_notifications::common::kafka::offset_counter::{OffsetCounter, OffsetError};
use xorc_notifications::common::kafka::push_consumer::{OffsetStart, PushConsumer, TopicRoute};
use xorc_notifications::common::kafka::request_consumer::{
    application_id, config_route, is_application_key, request_route, route_config_message, ConfigRoute, RequestConsumer,
    RequestRoute,
};
use xorc_notifications::common::kafka::{Config, Erro, FutureMime, GenericFut, GenericRor, PollOutcome, Rdy, Whoosh};
use xorc_notifications::common::logger::{curl, http_response_status, LogFormat, Logger};
use xorc_notifications::common::metrics::StatisticsServer;
use xorc_notifications::common::text::{i64_to_string, join2, parse_i32, str_eq, to_snake_case, trim, u64_to_string, utf8_decode};
use xorc_notifications::http_requester::producer::HttpResponseProducer;
use xorc_notifications::http_requester::requester::{Exchange, HttpResult, RequestError, Requester};
use xorc_notifications::metrics::instruments::{Counter, Gauge, TimerSnapshot};
use xorc_notifications::metrics::sender::MetricsSender;

fn kafka_config() -> Config {
    Config {
        input_topic: String::from("in"),
        config_topic: String::from("cfg"),
        output_topic: String::from("out"),
        group_id: String::from("group"),
        brokers: String::from("k1:9092,k2:9092"),
    }
}

fn http_request(params: Vec<(String, String)>, body: Option<&str>) -> HttpRequest {
    HttpRequest {
        header: Request {
            field_type: String::from("http.HttpRequest"),
            correlation_id: String::from("c"),
            source: String::from("s"),
        },
        request_type: HttpVerb::POST,
        uri: String::from("https://example.com/hook"),
        body: body.map(String::from),
        headers: vec![(String::from("Content-Type"), String::from("application/json"))],
        params,
        timeout: 2500,
    }
}

fn pair(a: &str, b: &str) -> (String, String) {
    (String::from(a), String::from(b))
}

#[test]
fn snake_case_of_reason_names() {
    assert_eq!(to_snake_case("BadDeviceToken"), "bad_device_token");
    assert_eq!(to_snake_case("ErrorBody { reason: BadTopic, timestamp: None }"), "error_body_reason_bad_topic_timestamp_none");
}

#[test]
fn text_helpers() {
    assert_eq!(trim("  key \n"), "key");
    assert_eq!(parse_i32("42"), Some(42));
    assert_eq!(parse_i32("-7"), Some(-7));
    assert_eq!(parse_i32("4a"), None);
    assert_eq!(parse_i32("99999999999"), None);
    assert_eq!(parse_i32("+15"), Some(15));
    assert_eq!(parse_i32("-2147483648"), Some(i32::MIN));
    assert_eq!(parse_i32("2147483647"), Some(i32::MAX));
    assert_eq!(parse_i32("2147483648"), None);
    assert_eq!(parse_i32("-"), None);
    assert_eq!(parse_i32(""), None);
    assert_eq!(parse_i32(" 1"), None);
    assert_eq!(trim("\u{3000}\tab c\u{a0}"), "ab c");
    assert_eq!(trim(" \n\t "), "");
    assert_eq!(trim("x"), "x");
    assert_eq!(utf8_decode(b"abc"), Some(String::from("abc")));
    assert_eq!(utf8_decode(&[0xff, 0xfe]), None);
    assert_eq!(u64_to_string(0), "0");
    assert_eq!(u64_to_string(1234567890123), "1234567890123");
    assert_eq!(i64_to_string(-42), "-42");
    assert_eq!(i64_to_string(i64::MIN), "-9223372036854775808");
    assert!(str_eq("same", "same"));
    assert!(!str_eq("same", "sama"));
    assert_eq!(join2("a-", "b"), "a-b");
}

#[test]
fn application_keys_match_the_pattern() {
    assert!(is_application_key("application|ABCDEFGH-1234-ABCD-1234-ABCDEFGH1234"));
    assert!(is_application_key("application"));
    assert!(is_application_key("x|ABCDEFGH-1234-ABCD-1234-ABCDEFGH1234"));
    assert!(!is_application_key("config|abc"));
    assert!(!is_application_key("APPLICATION"));
    assert_eq!(application_id("application|ABC|rest"), "ABC");
    assert_eq!(application_id("application|ABCDEFGH-1234-ABCD-1234-ABCDEFGH1234"), "ABCDEFGH-1234-ABCD-1234-ABCDEFGH1234");
    assert_eq!(application_id("plain"), "plain");
    assert_eq!(application_id("a|"), "");
}

#[test]
fn configuration_messages_are_routed() {
    assert_eq!(
        route_config_message(Some(b"application|app-1"), Some("application.Application")),
        ConfigRoute::Configure(String::from("app-1"))
    );
    assert_eq!(route_config_message(Some(b"application|app-1"), None), ConfigRoute::Remove(String::from("app-1")));
    assert_eq!(route_config_message(Some(b"application|app-1"), Some("other.Type")), ConfigRoute::InvalidType);
    assert_eq!(route_config_message(Some(b"unrelated"), Some("application.Application")), ConfigRoute::Ignore);
    assert_eq!(route_config_message(Some(&[0xff]), None), ConfigRoute::Ignore);
    assert_eq!(route_config_message(None, None), ConfigRoute::Ignore);
    assert_eq!(config_route(Some("k|id"), false, None), ConfigRoute::Ignore);
    assert_eq!(config_route(Some("k|id"), true, None), ConfigRoute::Remove(String::from("id")));
}

#[test]
fn requests_are_routed_by_type() {
    assert_eq!(request_route(Some("notification.PushNotification")), RequestRoute::Push);
    assert_eq!(request_route(Some("http.HttpRequest")), RequestRoute::Http);
    assert_eq!(request_route(Some("application.Application")), RequestRoute::InvalidType);
    assert_eq!(request_route(None), RequestRoute::InvalidRpc);
}

#[test]
fn consumer_settings_and_partitions() {
    let c = RequestConsumer::new((), &kafka_config());
    assert_eq!(
        c.config_consumer_settings(),
        vec![
            pair("group.id", "group"),
            pair("bootstrap.servers", "k1:9092,k2:9092"),
            pair("enable.auto.commit", "false"),
            pair("auto.offset.reset", "earliest"),
            pair("enable.partition.eof", "false"),
        ]
    );
    assert_eq!(c.request_consumer_settings()[2], pair("enable.auto.commit", "true"));
    assert_eq!(c.request_consumer_settings()[3], pair("auto.offset.reset", "latest"));
    assert_eq!(c.config_partitions(), (0..12).collect::<Vec<i32>>());
    let p = PushConsumer::new((), &kafka_config(), 4);
    assert_eq!(p.assignments(), vec![(String::from("cfg"), 1, OffsetStart::Beginning), (String::from("in"), 4, OffsetStart::Stored)]);
    assert_eq!(p.route("in"), TopicRoute::Notification);
    assert_eq!(p.route("cfg"), TopicRoute::Configuration);
    assert_eq!(p.route("out"), TopicRoute::Unsupported);
}

#[test]
fn offsets_are_stored_when_due() {
    let mut c = OffsetCounter::new();
    assert_eq!(c.try_store_offset_after(Some(5), || true), Err(OffsetError::NoTimeToSave));
    assert_eq!(c.try_store_offset_after(Some(10), || true), Err(OffsetError::NoTimeToSave));
    assert_eq!(c.try_store_offset_after(Some(11), || true), Ok(()));
    assert_eq!(c.try_store_offset_after(None, || false), Err(OffsetError::CouldNotSave));
    assert_eq!(c.store_offset(|| true), Ok(()));
    assert_eq!(c.try_store_offset(|| true), Err(OffsetError::NoTimeToSave));
}

#[test]
fn offsets_are_stored_every_500_events() {
    let mut c = OffsetCounter::new();
    for _ in 0..499 {
        assert_eq!(c.try_store_offset_after(Some(0), || true), Err(OffsetError::NoTimeToSave));
    }
    assert_eq!(c.try_store_offset_after(Some(0), || false), Err(OffsetError::CouldNotSave));
    assert_eq!(c.try_store_offset_after(Some(0), || true), Ok(()));
    assert_eq!(c.try_store_offset_after(Some(0), || true), Err(OffsetError::NoTimeToSave));
}

#[test]
fn futures_hand_off() {
    assert_eq!(Rdy::new(&Erro::Failed).get(), Erro::Failed);
    assert_eq!(Rdy::new(&Erro::Done).get(), Erro::Done);
    let slot = Arc::new(Mutex::new(None));
    let w: Whoosh<u8> = Whoosh::new(slot.clone());
    assert!(Arc::ptr_eq(&w.get(), &slot));
    assert_eq!(Whoosh::<u8>::poll_slot(Some(&None)), PollOutcome::Pending);
    assert_eq!(Whoosh::<u8>::poll_slot(Some(&Some(None))), PollOutcome::Ready(Ok(())));
    assert_eq!(Whoosh::<u8>::poll_slot(Some(&Some(Some(Some(Arc::new(3)))))), PollOutcome::Ready(Err(Ok(Arc::new(3)))));
    assert_eq!(Whoosh::<u8>::poll_slot(Some(&Some(Some(None)))), PollOutcome::Ready(Err(Err(()))));
    assert_eq!(Whoosh::<u8>::poll_slot(None), PollOutcome::Ready(Err(Err(()))));
    assert_eq!(GenericRor::new(5u8).poll_once(), PollOutcome::Ready(Err(Err(()))));
    let f: GenericFut<u8> = GenericFut::new(Arc::new(Mutex::new(None)));
    assert!(f.get().lock().unwrap().is_none());
    assert_eq!(GenericFut::<u8>::poll_slot(Some(&None)), PollOutcome::Pending);
    assert_eq!(GenericFut::<u8>::poll_slot(Some(&Some(Arc::new(9)))), PollOutcome::Ready(Ok(Arc::new(9))));
    let m = FutureMime::new(Arc::new(Mutex::new(Some(Ok(())))));
    assert_eq!(*m.get().lock().unwrap(), Some(Ok(())));
    assert_eq!(FutureMime::poll_slot(Some(&Some(Err(())))), PollOutcome::Ready(Err(())));
    assert_eq!(FutureMime::poll_slot(Some(&None)), PollOutcome::Pending);
}

#[test]
fn push_result_answers_the_request() {
    let ev = PushNotification {
        header: Request { field_type: String::from("notification.PushNotification"), correlation_id: String::from("c1"), source: String::from("src") },
        universe: String::from("u"),
        device_token: String::from("d"),
        correlation_id: None,
        apple: None,
        google: None,
        web: None,
    };
    let r = push_result(ev.clone(), ResponseAction::Retry);
    assert_eq!(r.header.request, ev.header);
    assert_eq!(r.header.field_type, "notification.PushResult");
    assert_eq!(r.response_action, ResponseAction::Retry);
}

#[test]
fn request_uri_carries_parameters() {
    assert_eq!(
        Requester::uri_with_params("http://x/y", &vec![pair("a", "1"), pair("b", "2")]),
        "http://x/y?a=1b=2"
    );
    let plan = Requester::plan(&http_request(vec![], Some("{}")));
    assert_eq!(plan.uri, "https://example.com/hook");
    assert_eq!(plan.body, b"{}".to_vec());
    assert_eq!(plan.method, HttpVerb::POST);
    assert_eq!(plan.timeout_ms, 2500);
    assert_eq!(plan.headers, vec![pair("Content-Type", "application/json")]);
    let plan = Requester::plan(&http_request(vec![pair("q", "v")], None));
    assert_eq!(plan.uri, "https://example.com/hook?q=v");
    assert!(plan.body.is_empty());
    assert_eq!(HttpVerb::OPTIONS.as_ref(), "OPTIONS");
}

#[test]
fn request_outcomes() {
    assert_eq!(Requester::outcome(Exchange::TimedOut), Err(RequestError::Timeout));
    assert_eq!(Requester::outcome(Exchange::ConnectionFailed), Err(RequestError::Connection));
    assert_eq!(Requester::outcome(Exchange::Answered { code: 200, headers: vec![], body: None }), Err(RequestError::Thread));
    assert_eq!(Requester::outcome(Exchange::Answered { code: 200, headers: vec![], body: Some(Err(())) }), Err(RequestError::Thread));
    assert_eq!(
        Requester::outcome(Exchange::Answered { code: 201, headers: vec![], body: Some(Ok(b"ok".to_vec())) }),
        Ok(HttpResult { code: 201, body: b"ok".to_vec(), headers: vec![] })
    );
}

#[test]
fn http_responses_are_published() {
    let producer = HttpResponseProducer::new();
    let result = HttpResult {
        code: 404,
        body: b"missing".to_vec(),
        headers: vec![
            (Some(String::from("x-a")), b"1".to_vec()),
            (None, b"continued".to_vec()),
            (Some(String::from("x-a")), b"2".to_vec()),
            (Some(String::from("x-bin")), vec![0x01]),
        ],
    };
    let p = producer.respond(Some(vec![1]), http_request(vec![], None), Ok(result));
    assert_eq!(p.key, Some(vec![1]));
    assert_eq!(p.counter_label, "404");
    assert_eq!(p.response.header.request.correlation_id, "c");
    match &p.response.outcome {
        Outcome::Payload(payload) => {
            assert_eq!(payload.status_code, 404);
            assert_eq!(payload.response_body, "missing");
            let mut headers = payload.headers.clone();
            headers.sort();
            assert_eq!(headers, vec![pair("x-a", "2"), pair("x-bin", "")]);
        }
        Outcome::ConnectionError(_) => panic!("expected a payload"),
    }
    assert_eq!(http_response_status(&p.response), "404");
    let p = producer.respond(None, http_request(vec![], None), Ok(HttpResult { code: 200, body: vec![0xff], headers: vec![] }));
    match &p.response.outcome {
        Outcome::Payload(payload) => assert_eq!(payload.response_body, "<BYTES>"),
        Outcome::ConnectionError(_) => panic!("expected a payload"),
    }
    let p = producer.respond(None, http_request(vec![], None), Err(RequestError::Timeout));
    assert_eq!(p.counter_label, "timeout");
    assert_eq!(p.response.outcome, Outcome::ConnectionError(SocketError::Timeout));
    assert_eq!(http_response_status(&p.response), "Timeout");
    let p = producer.respond(None, http_request(vec![], None), Err(RequestError::Connection));
    assert_eq!(p.counter_label, "connection");
    assert_eq!(p.response.outcome, Outcome::ConnectionError(SocketError::ConnectionError));
}

#[test]
fn curl_repeats_a_request() {
    let req = http_request(vec![pair("a", "1")], Some("say \"hi\""));
    assert_eq!(
        curl(&req),
        "curl -X POST --data \"say \\\"hi\\\"\" -H \"Content-Type: application/json\" https://example.com/hook?a=1"
    );
}

#[test]
fn logger_settings() {
    assert_eq!(Logger::log_format(Some("json")), LogFormat::Json);
    assert_eq!(Logger::log_format(Some("text")), LogFormat::Terminal);
    assert_eq!(Logger::log_format(None), LogFormat::Terminal);
    assert_eq!(Logger::environment(None), "development");
    assert_eq!(Logger::environment(Some(String::from("production"))), "production");
}

#[test]
fn gauge_increment_then_decrement_returns() {
    let mut g = Gauge::new("inflight");
    assert_eq!(g.name, "inflight");
    g.increment(5);
    g.increment(2);
    g.decrement(2);
    assert_eq!(g.collect(), 5);
    g.decrement(5);
    assert_eq!(g.collect(), 0);
}

#[test]
fn counter_increments_add() {
    let mut c = Counter::new("sent");
    assert_eq!(c.name, "sent");
    c.increment(3);
    c.increment(4);
    assert_eq!(c.collect(), 7);
    assert_eq!(c.name, "sent");
}

#[test]
fn metrics_measurements() {
    let sender = MetricsSender::new(String::from("apns"), None);
    assert_eq!(sender.hostname, "undefined");
    let sender = MetricsSender::new(String::from("apns"), Some(String::from("task-9")));
    let snapshot = TimerSnapshot { name: "latency", min: 1, mean: 2, p70: 3, p90: 4, p95: 5, p99: 6, max: u64::MAX };
    let ms = sender.measurements(&vec![("sent", 3usize), ("failed", 0usize)], &vec![None, Some(snapshot)]);
    assert_eq!(ms.len(), 3);
    assert_eq!(ms[0].key, "apns-counters");
    assert_eq!(ms[0].tags, vec![pair("metric", "sent"), pair("hostname", "task-9")]);
    assert_eq!(ms[0].fields, vec![(String::from("value"), 3i64)]);
    assert_eq!(ms[1].tags[0], pair("metric", "failed"));
    assert_eq!(ms[2].key, "apns-timers");
    assert_eq!(ms[2].tags, vec![pair("metric", "latency"), pair("hostname", "task-9")]);
    assert_eq!(ms[2].fields[0], (String::from("min"), 1i64));
    assert_eq!(ms[2].fields[6], (String::from("max"), -1i64));
}

#[test]
fn statistics_server_address() {
    assert_eq!(StatisticsServer::bind_address(None), "0.0.0.0:8081");
    assert_eq!(StatisticsServer::bind_address(Some(String::from("9000"))), "0.0.0.0:9000");
}

#[test]
fn artifactory_keys() {
    let client = ArtifactoryClient::new(String::from("https://art.example.com"), String::from("certs"));
    assert_eq!(client.api_key_uri("app1"), "https://art.example.com/certs/app1/api_key");
    assert_eq!(ArtifactoryClient::check_status(200), Ok(()));
    assert_eq!(ArtifactoryClient::check_status(404), Err(ArtifactoryError::Status(404)));
    let key = client.fetch_api_key("app1", |uri| {
        assert_eq!(uri, "https://art.example.com/certs/app1/api_key");
        Ok(String::from("  the-key\n"))
    });
    assert_eq!(key, Ok(String::from("the-key")));
    let failed = client.fetch_api_key("app1", |_| Err(ArtifactoryError::Hyper(String::from("down"))));
    assert_eq!(failed, Err(ArtifactoryError::Hyper(String::from("down"))));
}

#[test]
fn certificate_registry_lookup() {
    let registry = CertificateRegistry::new(());
    let r = registry.fetch("12", |_, id| { assert_eq!(id, 12); Ok(vec![Some(String::from("k")), None]) }, |k| k);
    assert_eq!(r, Ok(Some(String::from("k"))));
    let r = registry.fetch("12", |_, _| Ok(vec![]), |k| k);
    assert_eq!(r, Err(CertificateError::NotFoundError(String::from("Couldn't find a certificate for 12"))));
    let r = registry.fetch("12", |_, _| Err(String::from("db down")), |k| k);
    assert_eq!(r, Err(CertificateError::Postgres(String::from("db down"))));
    let r = registry.fetch("twelve", |_, _| Ok(vec![]), |k| k);
    assert_eq!(r, Err(CertificateError::ApplicationIdError(String::from("Invalid application_id: 'twelve'"))));
}
