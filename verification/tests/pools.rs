use xorc_notifications::apns2::notifier::{gen_payload, PayloadBody, Priority};
use xorc_notifications::common::events::apple_notification::{AppleHeaders, AppleNotification, CustomData, LocalizedAlert};
use xorc_notifications::common::events::google_notification::{DataMessage, GoogleNotification, GooglePriority, KeyValue, Localized};
use xorc_notifications::common::events::push_notification::PushNotification;
use xorc_notifications::common::events::rpc::Request;
use xorc_notifications::common::events::webpush_notification::WebPushNotification;
use xorc_notifications::common::id_table::IdTable;
use xorc_notifications::common::registry::Registry;
use xorc_notifications::consumer_supervisor::{
    collect_updates, mark_creation_failed, Application, ApplicationConsumer, ConsumerAction, ConsumerSupervisor, MAX_FAILURES,
};
use xorc_notifications::fcm::notifier::Notifier as FcmNotifier;
use xorc_notifications::pool::connection_pool::{ApnsConnection, ConnectionPool};
use xorc_notifications::pool::notifier_pool::{expired_plan, CertificateData, ExpiredPlan, NotifierPool, PoolUpdate, CERTIFICATE_CACHE_TTL_MS};
use xorc_notifications::pool::token_pool::{TokenData, TokenPool, TokenUpdate, TOKEN_CACHE_TTL_MS, TOKEN_VALIDITY_SECS};
use xorc_notifications::producer::Timespec;
use xorc_notifications::web_push::notifier::{ContentEncoding, Notifier as WebNotifier};

fn bare_event() -> PushNotification {
    PushNotification {
        header: Request { field_type: String::from("notification.PushNotification"), correlation_id: String::from("c"), source: String::from("s") },
        universe: String::from("u"),
        device_token: String::from("device"),
        correlation_id: Some(String::from("corr-9")),
        apple: None,
        google: None,
        web: None,
    }
}

fn ts(sec: i64) -> Option<Timespec> {
    Some(Timespec { sec, nsec: 0 })
}

fn cert_data(topic: &str, version: i64) -> CertificateData {
    CertificateData {
        certificate: vec![1],
        private_key: vec![2],
        apns_topic: String::from(topic),
        is_sandbox: false,
        updated_at: ts(version),
    }
}

fn token_data(topic: &str, version: i64) -> TokenData {
    TokenData {
        private_key: vec![3],
        key_id: String::from("key"),
        team_id: String::from("team"),
        apns_topic: String::from(topic),
        is_sandbox: true,
        updated_at: ts(version),
    }
}

fn consumer(handle: u8, version: i64) -> ApplicationConsumer<u8> {
    ApplicationConsumer { handle, updated_at: ts(version) }
}

#[test]
fn registry_read_after_write() {
    let mut r: Registry<u8> = Registry::new();
    r.insert(String::from("a"), 1);
    r.insert(String::from("b"), 2);
    r.insert(String::from("a"), 3);
    assert_eq!(r.get("a"), Some(&3));
    assert_eq!(r.len(), 2);
    assert_eq!(r.remove("a"), Some(3));
    assert_eq!(r.remove("a"), None);
    assert!(!r.contains("a"));
    assert!(r.contains("b"));
    assert_eq!(r.into_entries(), vec![(String::from("b"), 2)]);
}

#[test]
fn id_table_read_after_write() {
    let mut t: IdTable<&str> = IdTable::new();
    t.insert(4, "four");
    t.insert(2, "two");
    t.insert(4, "FOUR");
    assert_eq!(t.get(4), Some(&"FOUR"));
    assert_eq!(t.len(), 2);
    let mut keys = t.keys();
    keys.sort();
    assert_eq!(keys, vec![2, 4]);
    assert_eq!(t.remove(2), Some("two"));
    assert!(!t.contains(2));
}

#[test]
fn supervisor_plans_updates() {
    let mut s: ConsumerSupervisor<u8> = ConsumerSupervisor::new();
    let mut updates: IdTable<ConsumerAction<u8>> = IdTable::new();
    updates.insert(1, ConsumerAction::Update(consumer(10, 100)));
    s.update_existing(updates);
    let plan = s.plan_updates(&vec![
        Application { id: 1, updated_at: ts(100) },
        Application { id: 2, updated_at: ts(5) },
        Application { id: 1, updated_at: ts(101) },
    ]);
    assert_eq!(plan.get(1), Some(&true));
    assert_eq!(plan.get(2), Some(&true));
    let plan = s.plan_updates(&vec![Application { id: 1, updated_at: ts(100) }]);
    assert_eq!(plan.get(1), Some(&false));
}

#[test]
fn round_runs_listed_applications() {
    let mut s: ConsumerSupervisor<u8> = ConsumerSupervisor::new();
    let mut first: IdTable<ConsumerAction<u8>> = IdTable::new();
    first.insert(1, ConsumerAction::Update(consumer(10, 1)));
    first.insert(2, ConsumerAction::Update(consumer(20, 1)));
    first.insert(3, ConsumerAction::Update(consumer(30, 1)));
    s.update_existing(first);
    let mut second: IdTable<ConsumerAction<u8>> = IdTable::new();
    second.insert(1, ConsumerAction::NoUpdate);
    second.insert(2, ConsumerAction::Update(consumer(21, 2)));
    second.insert(4, ConsumerAction::Update(consumer(40, 1)));
    let mut dropped = s.drop_deleted(&second);
    dropped.sort();
    assert_eq!(dropped, vec![3]);
    s.update_existing(second);
    let mut failures: IdTable<i32> = IdTable::new();
    let stopped = s.remove_failed(&mut failures);
    assert_eq!(stopped.len(), 0);
    let mut check: IdTable<ConsumerAction<u8>> = IdTable::new();
    check.insert(1, ConsumerAction::NoUpdate);
    check.insert(2, ConsumerAction::NoUpdate);
    check.insert(4, ConsumerAction::NoUpdate);
    assert_eq!(s.drop_deleted(&check), Vec::<i32>::new());
    let plan = s.plan_updates(&vec![
        Application { id: 1, updated_at: ts(1) },
        Application { id: 2, updated_at: ts(2) },
        Application { id: 4, updated_at: ts(1) },
    ]);
    assert_eq!(plan.get(1), Some(&false));
    assert_eq!(plan.get(2), Some(&false));
    assert_eq!(plan.get(4), Some(&false));
}

#[test]
fn restart_round_clears_failures() {
    let mut s: ConsumerSupervisor<u8> = ConsumerSupervisor::new();
    let mut ups: IdTable<ConsumerAction<u8>> = IdTable::new();
    ups.insert(1, ConsumerAction::Update(consumer(10, 1)));
    ups.insert(2, ConsumerAction::Update(consumer(20, 1)));
    s.update_existing(ups);
    let mut failures: IdTable<i32> = IdTable::new();
    failures.insert(1, MAX_FAILURES);
    failures.insert(2, MAX_FAILURES - 1);
    let stopped = s.remove_failed(&mut failures);
    assert_eq!(stopped.len(), 1);
    assert_eq!(stopped.get(1).map(|c| c.handle), Some(10));
    assert_eq!(failures.get(1), Some(&0));
    assert_eq!(failures.get(2), Some(&(MAX_FAILURES - 1)));
    let plan = s.plan_updates(&vec![Application { id: 1, updated_at: ts(1) }, Application { id: 2, updated_at: ts(1) }]);
    assert_eq!(plan.get(1), Some(&true));
    assert_eq!(plan.get(2), Some(&false));
}

#[test]
fn failed_creation_restarts() {
    let mut s: ConsumerSupervisor<u8> = ConsumerSupervisor::new();
    let mut ups: IdTable<ConsumerAction<u8>> = IdTable::new();
    ups.insert(7, ConsumerAction::Update(consumer(70, 1)));
    s.update_existing(ups);
    let mut failures: IdTable<i32> = IdTable::new();
    mark_creation_failed(&mut failures, 7);
    assert_eq!(failures.get(7), Some(&MAX_FAILURES));
    let stopped = s.remove_failed(&mut failures);
    assert_eq!(stopped.get(7).map(|c| c.handle), Some(70));
    assert_eq!(failures.get(7), Some(&0));
}

#[test]
fn certificate_entry_is_refreshed_after_ttl() {
    let mut pool: NotifierPool<&str> = NotifierPool::new();
    assert_eq!(pool.update("a", 0), PoolUpdate::CreateNew);
    pool.create_new(String::from("a"), Some((cert_data("topic", 1), "conn")), 1_000);
    assert_eq!(pool.get("a").unwrap().topic, "topic");
    assert_eq!(pool.update("a", 1_000), PoolUpdate::Nothing);
    assert_eq!(pool.update("a", 1_000 + CERTIFICATE_CACHE_TTL_MS - 1), PoolUpdate::Nothing);
    assert_eq!(pool.update("a", 1_000 + CERTIFICATE_CACHE_TTL_MS), PoolUpdate::UpdateExpired);
    assert!(!pool.is_expired(5_000, 4_000));
    pool.update_expired("a", Ok(cert_data("other", 1)), Some(true), None, 500_000);
    let e = pool.get("a").unwrap();
    assert_eq!(e.apns, Some("conn"));
    assert_eq!(e.topic, "topic");
    assert_eq!(e.timestamp, 500_000);
    assert_eq!(pool.update("a", 500_001), PoolUpdate::Nothing);
    pool.update_expired("a", Err(()), Some(true), None, 600_000);
    let e = pool.get("a").unwrap();
    assert_eq!(e.apns, None);
    assert_eq!(e.topic, "");
    pool.update_expired("a", Ok(cert_data("t2", 2)), None, Some("new"), 700_000);
    assert_eq!(pool.get("a").unwrap().apns, Some("new"));
    assert_eq!(pool.get("a").unwrap().topic, "t2");
    assert_eq!(pool.get("a").unwrap().updated_at, ts(2));
    pool.create_new(String::from("b"), None, 10);
    assert_eq!(pool.get("b").unwrap().apns, None);
}

#[test]
fn expired_entries_plan() {
    assert_eq!(expired_plan(ts(1), Some(true), Err(())), ExpiredPlan::Clear);
    assert_eq!(expired_plan(ts(1), Some(true), Ok(ts(2))), ExpiredPlan::Replace);
    assert_eq!(expired_plan(ts(1), Some(false), Ok(ts(1))), ExpiredPlan::Replace);
    assert_eq!(expired_plan(ts(1), Some(true), Ok(ts(1))), ExpiredPlan::Keep);
    assert_eq!(expired_plan(None, None, Ok(None)), ExpiredPlan::Keep);
}

#[test]
fn token_is_refreshed_after_ttl() {
    let mut pool: TokenPool<&str, &str> = TokenPool::new();
    assert_eq!(pool.update("a", 0, false), TokenUpdate::CreateNew);
    pool.create_new(String::from("a"), Some((token_data("topic", 1), "signer", "client")), 10);
    assert_eq!(pool.update("a", 10 + TOKEN_CACHE_TTL_MS - 1, false), TokenUpdate::Nothing);
    assert_eq!(pool.update("a", 10 + TOKEN_CACHE_TTL_MS, false), TokenUpdate::UpdateExisting);
    assert_eq!(pool.update("a", 11, true), TokenUpdate::RenewToken);
    pool.create_new(String::from("b"), None, 10);
    assert_eq!(pool.update("b", 11, true), TokenUpdate::Nothing);
    pool.update_existing("a", Ok(token_data("topic-2", 2)), Some(true), Some(("signer-2", "client-2")), 50_000);
    let e = pool.get("a").unwrap();
    assert_eq!(e.apns, Some("signer-2"));
    assert_eq!(e.notifier, Some("client-2"));
    assert_eq!(e.topic, "topic-2");
    assert_eq!(e.updated_at, ts(2));
    pool.update_existing("a", Ok(token_data("topic-3", 2)), Some(false), Some(("signer-3", "client-3")), 60_000);
    assert_eq!(pool.get("a").unwrap().apns, Some("signer-3"));
    assert_eq!(pool.get("a").unwrap().topic, "topic-3");
    pool.update_existing("a", Ok(token_data("ignored", 2)), Some(true), None, 70_000);
    assert_eq!(pool.get("a").unwrap().topic, "topic-3");
    assert_eq!(pool.get("a").unwrap().timestamp, 70_000);
    pool.update_existing("a", Err(()), Some(true), None, 100_000);
    let e = pool.get("a").unwrap();
    assert_eq!(e.apns, None);
    assert_eq!(e.notifier, Some("client-3"));
    assert_eq!(e.topic, "");
    assert_eq!(e.timestamp, 100_000);
    assert_eq!(pool.update("a", 100_001, true), TokenUpdate::Nothing);
}

#[test]
fn connection_pool_prefers_tokens() {
    let mut pool: ConnectionPool<&str, &str, &str> = ConnectionPool::new();
    assert!(pool.get("a").is_none());
    pool.notifier_pool.create_new(String::from("a"), Some((cert_data("cert-topic", 1), "cert-conn")), 0);
    match pool.get("a") {
        Some(ApnsConnection::WithCertificate { notifier, topic }) => {
            assert_eq!(*notifier, "cert-conn");
            assert_eq!(topic, "cert-topic");
        }
        _ => panic!("expected the certificate connection"),
    }
    pool.token_pool.create_new(String::from("a"), Some((token_data("token-topic", 1), "signer", "token-conn")), 0);
    match pool.get("a") {
        Some(ApnsConnection::WithToken { notifier, token, topic }) => {
            assert_eq!(*notifier, "token-conn");
            assert_eq!(*token, "signer");
            assert_eq!(topic, "token-topic");
        }
        _ => panic!("expected the token connection"),
    }
}

#[test]
fn apns_payload_from_apple_part() {
    let mut ev = bare_event();
    ev.apple = Some(AppleNotification {
        headers: AppleHeaders { apns_priority: Some(10), apns_expiration: Some(99), apns_topic: None },
        localized: Some(LocalizedAlert {
            title: String::from("Hi"),
            body: String::from("There"),
            title_loc_key: None,
            title_loc_args: vec![],
            action_loc_key: None,
            launch_image: None,
            loc_key: Some(String::from("K")),
            loc_args: vec![String::from("x")],
            mutable_content: Some(true),
        }),
        silent: Some(false),
        plain: String::from("ignored"),
        badge: Some(3),
        sound: Some(String::from("ding")),
        category: None,
        custom_data: Some(CustomData { key: String::from("extra"), body: String::from("{}") }),
    });
    let p = gen_payload(&ev, "default.topic");
    assert_eq!(p.device_token, "device");
    assert_eq!(p.options.apns_priority, Some(Priority::High));
    assert_eq!(p.options.apns_topic, Some(String::from("default.topic")));
    assert_eq!(p.options.apns_id, Some(String::from("corr-9")));
    assert_eq!(p.options.apns_expiration, Some(99));
    match p.body {
        PayloadBody::Localized(l) => {
            assert_eq!(l.title, "Hi");
            assert_eq!(l.title_loc_args, None);
            assert_eq!(l.loc_args, Some(vec![String::from("x")]));
            assert_eq!(l.badge, Some(3));
            assert!(l.mutable_content);
        }
        other => panic!("unexpected {:?}", other),
    }
    assert_eq!(p.custom_data, Some(CustomData { key: String::from("extra"), body: String::from("{}") }));
    let mut silent = ev.clone();
    if let Some(a) = silent.apple.as_mut() {
        a.localized = None;
        a.headers.apns_priority = Some(5);
        a.headers.apns_topic = Some(String::from("asked.topic"));
    }
    if let Some(a) = silent.apple.as_mut() {
        a.custom_data = Some(CustomData { key: String::from("extra"), body: String::from("not json") });
    }
    let p = gen_payload(&silent, "default.topic");
    assert_eq!(p.custom_data, None);
    assert_eq!(p.body, PayloadBody::Silent);
    assert_eq!(p.options.apns_priority, Some(Priority::Normal));
    assert_eq!(p.options.apns_topic, Some(String::from("asked.topic")));
    match gen_payload(&bare_event(), "t").body {
        PayloadBody::Plain(pl) => assert_eq!(pl.text, ""),
        other => panic!("unexpected {:?}", other),
    }
}

#[test]
fn fcm_message_from_google_part() {
    let mut ev = bare_event();
    ev.google = Some(GoogleNotification {
        localized: None,
        message: DataMessage { data: vec![KeyValue { key: String::from("k"), value: String::from("v") }] },
        registration_ids: vec![],
        collapse_key: Some(String::from("ck")),
        priority: GooglePriority::High,
        content_available: Some(true),
        delay_while_idle: None,
        time_to_live: Some(60),
        restricted_package_name: None,
        dry_run: Some(false),
    });
    let m = FcmNotifier::gen_payload(&ev, "server-key");
    assert_eq!(m.api_key, "server-key");
    assert_eq!(m.to, "device");
    assert_eq!(m.data, Some(vec![(String::from("k"), String::from("v"))]));
    assert!(m.notification.is_none());
    assert_eq!(m.registration_ids, None);
    assert_eq!(m.priority, GooglePriority::High);
    assert_eq!(m.time_to_live, Some(60));
    let mut loc = ev.clone();
    if let Some(g) = loc.google.as_mut() {
        g.localized = Some(Localized {
            title: Some(String::from("T")),
            tag: None,
            body: None,
            icon: None,
            sound: None,
            badge: None,
            color: None,
            click_action: None,
            body_loc_key: None,
            title_loc_key: None,
            title_loc_args: vec![],
            body_loc_args: vec![String::from("a")],
            data: vec![],
        });
        g.registration_ids = vec![String::from("r1")];
    }
    let m = FcmNotifier::gen_payload(&loc, "key");
    let n = m.notification.unwrap();
    assert_eq!(n.title, Some(String::from("T")));
    assert_eq!(n.body_loc_args, Some(vec![String::from("a")]));
    assert_eq!(n.title_loc_args, None);
    assert_eq!(m.data, None);
    assert_eq!(m.registration_ids, Some(vec![String::from("r1")]));
}

#[test]
fn web_push_message_from_web_part() {
    let mut ev = bare_event();
    ev.web = Some(WebPushNotification {
        auth: String::from("auth"),
        p256dh: String::from("key"),
        payload: Some(String::from("{\"a\":1}")),
        ttl: Some(30),
    });
    let m = WebNotifier::build_message(&ev, true);
    assert_eq!(m.endpoint, "device");
    assert_eq!(m.auth, "auth");
    assert_eq!(m.p256dh, "key");
    assert_eq!(m.payload, Some((ContentEncoding::Aes128Gcm, String::from("{\"a\":1}"))));
    assert_eq!(m.ttl, Some(30));
    assert!(m.with_signature);
    let m = WebNotifier::build_message(&bare_event(), false);
    assert_eq!(m.payload, None);
    assert!(!m.with_signature);
}

#[test]
fn collect_updates_marks_failed_creations() {
    let mut s: ConsumerSupervisor<u8> = ConsumerSupervisor::new();
    let mut first: IdTable<ConsumerAction<u8>> = IdTable::new();
    first.insert(1, ConsumerAction::Update(consumer(10, 1)));
    s.update_existing(first);
    let plan = s.plan_updates(&vec![
        Application { id: 1, updated_at: ts(1) },
        Application { id: 2, updated_at: ts(1) },
        Application { id: 3, updated_at: ts(1) },
    ]);
    let mut created: IdTable<Option<ApplicationConsumer<u8>>> = IdTable::new();
    created.insert(2, Some(consumer(20, 1)));
    created.insert(3, None);
    let mut failures: IdTable<i32> = IdTable::new();
    failures.insert(7, 2);
    let updates = collect_updates(&plan, created, &mut failures);
    assert_eq!(updates.len(), 2);
    assert!(matches!(updates.get(1), Some(ConsumerAction::NoUpdate)));
    match updates.get(2) {
        Some(ConsumerAction::Update(c)) => {
            assert_eq!(c.handle, 20);
            assert_eq!(c.updated_at, ts(1));
        }
        _ => panic!("expected a new consumer for application 2"),
    }
    assert!(!updates.contains(3));
    assert_eq!(failures.get(3), Some(&MAX_FAILURES));
    assert_eq!(failures.get(7), Some(&2));
    assert!(!failures.contains(2));
    let mut updates = updates;
    let dropped = s.drop_deleted(&updates);
    assert!(dropped.is_empty());
    let kept = updates.remove(2);
    assert!(kept.is_some());
}

#[test]
fn replacement_token_validity_follows_plan() {
    let mut pool: TokenPool<&str, &str> = TokenPool::new();
    pool.create_new(String::from("a"), Some((token_data("topic", 1), "signer", "client")), 10);
    assert_eq!(TOKEN_VALIDITY_SECS, 1200);
    assert_eq!(pool.replacement_token_validity("a", &Ok(token_data("topic", 2))), 1200);
    assert_eq!(pool.replacement_token_validity("a", &Ok(token_data("topic", 1))), 0);
    assert_eq!(pool.replacement_token_validity("a", &Err(())), 0);
    assert_eq!(expired_plan(ts(1), Some(false), Ok(ts(1))), ExpiredPlan::Replace);
}
