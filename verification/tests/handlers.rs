use xorc_notifications::apns2::consumer::{ApnsHandler, IosConfigAction};
use xorc_notifications::apns2::producer::ErrorKind;
use xorc_notifications::common::events::application::{
    AndroidConfig, Application, ConnectionEndpoint, IosCertificate, IosConfig, IosToken, WebConfig,
};
use xorc_notifications::common::events::push_notification::PushNotification;
use xorc_notifications::common::events::push_result::ResponseAction;
use xorc_notifications::common::events::rpc::Request;
use xorc_notifications::fcm::consumer::{AndroidConfigAction, FcmHandler, NotificationRoute};
use xorc_notifications::fcm::producer::{ErrorReason, FcmError};
use xorc_notifications::web_push::consumer::{WebConfigAction, WebPushHandler};
use xorc_notifications::web_push::producer::WebPushError;

fn event_for(universe: &str) -> PushNotification {
    PushNotification {
        header: Request {
            field_type: String::from("notification.PushNotification"),
            correlation_id: String::from("corr-1"),
            source: String::from("tester"),
        },
        universe: String::from(universe),
        device_token: String::from("token-1"),
        correlation_id: Some(String::from("corr-1")),
        apple: None,
        google: None,
        web: None,
    }
}

fn app_with(id: &str) -> Application {
    Application {
        id: String::from(id),
        organization: None,
        ios_config: None,
        android_config: None,
        web_config: None,
    }
}

fn android_app(id: &str, enabled: bool, key: Option<&str>) -> Application {
    let mut app = app_with(id);
    app.android_config = Some(AndroidConfig { enabled, fcm_api_key: key.map(String::from) });
    app
}

fn web_app(id: &str, enabled: bool, key: Option<&str>) -> Application {
    let mut app = app_with(id);
    app.web_config = Some(WebConfig { enabled, fcm_api_key: key.map(String::from) });
    app
}

fn a_token() -> IosToken {
    IosToken {
        pkcs8: vec![1, 2, 3],
        key_id: String::from("KEY"),
        team_id: String::from("TEAM"),
        apns_topic: String::from("com.example"),
        endpoint: ConnectionEndpoint::Sandbox,
    }
}

fn a_certificate() -> IosCertificate {
    IosCertificate {
        pkcs12: vec![4, 5],
        password: String::from("secret"),
        apns_topic: String::from("com.example"),
        endpoint: ConnectionEndpoint::Production,
    }
}

#[test]
fn fcm_enabled_key_is_used_for_sending() {
    let mut h = FcmHandler::new();
    let action = h.handle_config("app1", Some(android_app("app1", true, Some("server-key"))));
    assert_eq!(action, AndroidConfigAction::Store { application_id: String::from("app1"), api_key: String::from("server-key") });
    assert_eq!(h.application_count(), 1);
    let route = h.notification_route(Some(vec![9, 9]), &event_for("app1"));
    assert_eq!(
        route,
        NotificationRoute::Send { api_key: String::from("server-key"), response_key: Some(vec![9, 9]) }
    );
}

#[test]
fn fcm_removed_application_has_no_key() {
    let mut h = FcmHandler::new();
    h.handle_config("app1", Some(android_app("app1", true, Some("server-key"))));
    let action = h.handle_config("app1", Some(android_app("app1", false, Some("server-key"))));
    assert_eq!(action, AndroidConfigAction::Remove(String::from("app1")));
    let route = h.notification_route(Some(vec![7]), &event_for("app1"));
    assert_eq!(route, NotificationRoute::NoCertificate { response_key: Some(vec![7]) });
    assert_eq!(h.application_count(), 0);
}

#[test]
fn fcm_configuration_without_key_or_application_removes() {
    let mut h = FcmHandler::new();
    h.handle_config("app1", Some(android_app("app1", true, Some("k"))));
    assert_eq!(
        h.handle_config("app1", Some(android_app("app1", true, None))),
        AndroidConfigAction::Remove(String::from("app1"))
    );
    h.handle_config("app2", Some(android_app("app2", true, Some("k2"))));
    assert_eq!(h.handle_config("app2", None), AndroidConfigAction::Remove(String::from("app2")));
    assert_eq!(
        h.handle_config("app3", Some(app_with("app3"))),
        AndroidConfigAction::Remove(String::from("app3"))
    );
    assert_eq!(h.application_count(), 0);
}

#[test]
fn fcm_configuration_is_per_application() {
    let mut h = FcmHandler::new();
    h.handle_config("a", Some(android_app("a", true, Some("ka"))));
    h.handle_config("b", Some(android_app("b", true, Some("kb"))));
    h.handle_config("a", None);
    assert_eq!(
        h.notification_route(None, &event_for("b")),
        NotificationRoute::Send { api_key: String::from("kb"), response_key: None }
    );
    assert!(h.delete_key("b"));
    assert!(!h.delete_key("b"));
}

#[test]
fn fcm_accepts_only_google_notifications() {
    let h = FcmHandler::new();
    assert!(!h.accepts(&event_for("a")));
}

#[test]
fn fcm_answers() {
    let h = FcmHandler::new();
    let ev = event_for("a");
    let p = h.answer(Some(vec![1]), ev.clone(), Ok(Some(vec![Some(ErrorReason::NotRegistered), None])));
    assert_eq!(p.result.response_action, ResponseAction::UnsubscribeEntity);
    assert_eq!(p.counter_label, Some(String::from("NotRegistered")));
    assert_eq!(p.result.header.request, ev.header);
    assert_eq!(p.key, Some(vec![1]));
    let p = h.answer(None, ev.clone(), Ok(Some(vec![None, Some(ErrorReason::NotRegistered)])));
    assert_eq!(p.result.response_action, ResponseAction::NoAction);
    assert_eq!(p.counter_label, None);
    let p = h.answer(None, ev.clone(), Ok(Some(vec![Some(ErrorReason::InvalidTtl)])));
    assert_eq!(p.result.response_action, ResponseAction::NoAction);
    assert_eq!(p.counter_label, Some(String::from("InvalidTtl")));
    let p = h.answer(None, ev.clone(), Err(FcmError::ServerError));
    assert_eq!(p.result.response_action, ResponseAction::Retry);
    assert_eq!(p.counter_label, Some(String::from("server_error")));
    let p = h.answer(None, ev.clone(), Err(FcmError::Unauthorized));
    assert_eq!(p.result.response_action, ResponseAction::NoAction);
    assert_eq!(p.counter_label, Some(String::from("unauthorized")));
    let p = h.answer(None, ev.clone(), Err(FcmError::InvalidMessage));
    assert_eq!(p.counter_label, Some(String::from("invalid_message")));
    let p = h.producer.handle_no_cert(None, ev);
    assert_eq!(p.result.response_action, ResponseAction::Retry);
    assert_eq!(p.counter_label, Some(String::from("certificate_missing")));
    assert_eq!(p.result.header.field_type, "notification.PushResult");
}

#[test]
fn web_push_configured_application_is_sent() {
    let mut h: WebPushHandler<u32> = WebPushHandler::new();
    let action = h.handle_config("w1", Some(web_app("w1", true, Some("vapid"))));
    assert_eq!(
        action,
        WebConfigAction::StoreWithKey { application_id: String::from("w1"), fcm_api_key: String::from("vapid") }
    );
    assert!(h.entity_for(&event_for("w1")).is_none());
    h.store_key(String::from("w1"), Some(77));
    assert_eq!(h.entity_for(&event_for("w1")).unwrap().fcm_api_key, Some(77));
    let action = h.handle_config("w2", Some(web_app("w2", true, None)));
    assert_eq!(action, WebConfigAction::StoreWithoutKey { application_id: String::from("w2") });
    assert_eq!(h.entity_for(&event_for("w2")).unwrap().fcm_api_key, None);
    assert_eq!(h.application_count(), 2);
}

#[test]
fn web_push_removed_application_is_unknown() {
    let mut h: WebPushHandler<u32> = WebPushHandler::new();
    h.handle_config("w1", Some(web_app("w1", true, None)));
    h.handle_config("w2", Some(web_app("w2", true, None)));
    assert_eq!(h.handle_config("w1", Some(web_app("w1", false, None))), WebConfigAction::Remove(String::from("w1")));
    assert!(h.entity_for(&event_for("w1")).is_none());
    assert!(h.entity_for(&event_for("w2")).is_some());
    assert_eq!(h.handle_config("w2", None), WebConfigAction::Remove(String::from("w2")));
    assert_eq!(h.handle_config("w3", Some(app_with("w3"))), WebConfigAction::Remove(String::from("w3")));
    assert_eq!(h.application_count(), 0);
}

#[test]
fn web_push_answers() {
    let h: WebPushHandler<u32> = WebPushHandler::new();
    let ev = event_for("w");
    let p = h.answer(Some(vec![3]), ev.clone(), Ok(()));
    assert_eq!(p.result.response_action, ResponseAction::NoAction);
    assert_eq!(p.counter_label, Some(String::from("success")));
    let p = h.answer(None, ev.clone(), Err(None));
    assert_eq!(p.result.response_action, ResponseAction::Retry);
    assert_eq!(p.counter_label, Some(String::from("server_error")));
    let p = h.answer(None, ev.clone(), Err(Some(WebPushError::EndpointNotFound)));
    assert_eq!(p.result.response_action, ResponseAction::UnsubscribeEntity);
    assert_eq!(p.counter_label, Some(String::from("endpoint_not_found")));
    let p = h.answer(None, ev.clone(), Err(Some(WebPushError::EndpointNotValid)));
    assert_eq!(p.result.response_action, ResponseAction::UnsubscribeEntity);
    let p = h.answer(None, ev.clone(), Err(Some(WebPushError::Io)));
    assert_eq!(p.result.response_action, ResponseAction::NoAction);
    assert_eq!(p.counter_label, Some(String::from("io_error")));
    assert_eq!(WebPushError::InvalidClaims.short_description(), "invalidClaims");
    let p = h.producer.handle_no_cert(None, ev);
    assert_eq!(p.counter_label, Some(String::from("certificate_missing")));
}

#[test]
fn apns_configured_application_is_connected() {
    let mut h: ApnsHandler<&'static str> = ApnsHandler::new();
    let mut app = app_with("i1");
    app.ios_config = Some(IosConfig { enabled: true, token: Some(a_token()), certificate: Some(a_certificate()) });
    let action = h.handle_config("i1", Some(app));
    assert_eq!(action, IosConfigAction::ConnectWithToken { application_id: String::from("i1"), token: a_token() });
    assert!(h.notifier_for(&event_for("i1")).is_none());
    h.add_notifier(String::from("i1"), "token-connection");
    assert_eq!(h.notifier_for(&event_for("i1")), Some(&"token-connection"));

    let mut app = app_with("i2");
    app.ios_config = Some(IosConfig { enabled: true, token: None, certificate: Some(a_certificate()) });
    let action = h.handle_config("i2", Some(app));
    assert_eq!(
        action,
        IosConfigAction::ConnectWithCertificate { application_id: String::from("i2"), certificate: a_certificate() }
    );
    assert_eq!(h.application_count(), 1);
}

#[test]
fn apns_removed_application_is_disconnected() {
    let mut h: ApnsHandler<u8> = ApnsHandler::new();
    h.add_notifier(String::from("i1"), 1);
    h.add_notifier(String::from("i2"), 2);
    let mut app = app_with("i1");
    app.ios_config = Some(IosConfig { enabled: true, token: None, certificate: None });
    assert_eq!(h.handle_config("i1", Some(app)), IosConfigAction::Remove(String::from("i1")));
    assert!(h.notifier_for(&event_for("i1")).is_none());
    assert_eq!(h.notifier_for(&event_for("i2")), Some(&2));
    let mut app = app_with("i2");
    app.ios_config = Some(IosConfig { enabled: false, token: Some(a_token()), certificate: None });
    assert_eq!(h.handle_config("i2", Some(app)), IosConfigAction::Remove(String::from("i2")));
    assert_eq!(h.handle_config("i3", None), IosConfigAction::Remove(String::from("i3")));
    assert!(!h.delete_notifier("i3"));
    assert_eq!(h.application_count(), 0);
}

#[test]
fn apns_answers() {
    let h: ApnsHandler<u8> = ApnsHandler::new();
    let ev = event_for("i");
    let p = h.answer(Some(vec![5]), ev.clone(), Ok(()));
    assert_eq!(p.result.response_action, ResponseAction::NoAction);
    assert_eq!(p.counter_label, Some(String::from("success")));
    assert_eq!(p.key, Some(vec![5]));
    let p = h.answer(None, ev.clone(), Err((ErrorKind::ResponseError, String::from("BadDeviceToken"))));
    assert_eq!(p.result.response_action, ResponseAction::Retry);
    assert_eq!(p.counter_label, Some(String::from("bad_device_token")));
    let p = h.answer(None, ev.clone(), Err((ErrorKind::ConnectionError, String::from("whatever"))));
    assert_eq!(p.result.response_action, ResponseAction::Retry);
    assert_eq!(p.counter_label, Some(String::from("timeout")));
    assert!(!h.accepts(&ev));
}
