//! The legacy APNs consumer's state: one connection per application, kept
//! in step with the Apple configuration events.
use vstd::prelude::*;
use crate::events::{AppleConfig, Certificate, ConnectionEndpoint, Token};
use crate::common::registry::Registry;
use crate::common::logger::{LogAction, pairs_view};
use crate::common::kafka::push_consumer::{OffsetStart, TopicRoute, topic_route_spec};
use crate::common::text::str_eq;

verus! {

/// What an Apple configuration event asks of the consumer.
#[derive(Debug, Clone, PartialEq, Eq)]
pub enum AppleConfigAction {
    /// Connect with a signing key and keep the connection for this application.
    ConnectWithToken { application_id: String, endpoint: ConnectionEndpoint, topic: String, token: Token },
    /// Connect with a client certificate and keep the connection for this application.
    ConnectWithCertificate { application_id: String, endpoint: ConnectionEndpoint, topic: String, certificate: Certificate },
    /// Drop the connection of this application, if any.
    Remove(String),
}

/// The action for a configuration event: a token takes precedence over a
/// certificate; with neither, the application is removed.
pub open spec fn apple_config_action(event: AppleConfig, r: AppleConfigAction) -> bool {
    match event.token {
        Some(t) => r == (AppleConfigAction::ConnectWithToken {
            application_id: event.application_id, endpoint: event.endpoint, topic: event.apns_topic, token: t }),
        None => match event.certificate {
            Some(c) => r == (AppleConfigAction::ConnectWithCertificate {
                application_id: event.application_id, endpoint: event.endpoint, topic: event.apns_topic, certificate: c }),
            None => r == AppleConfigAction::Remove(event.application_id),
        },
    }
}

/// Whether `after` is the table of connections `before` once `r` took
/// effect here: a removal drops the application's connection; a connect
/// action leaves the table for `add_notifier`.
pub open spec fn apple_config_applied<N>(before: Map<Seq<char>, N>, after: Map<Seq<char>, N>, r: AppleConfigAction) -> bool {
    match r {
        AppleConfigAction::Remove(x) => after == before.remove(x@),
        _ => after == before,
    }
}

/// The name of an endpoint, as its debug form prints it.
pub open spec fn endpoint_name(e: ConnectionEndpoint) -> Seq<char> {
    match e {
        ConnectionEndpoint::Production => "Production"@,
        ConnectionEndpoint::Sandbox => "Sandbox"@,
    }
}

/// The log fields of a configuration change.
pub open spec fn config_change_fields_spec(event: AppleConfig) -> Seq<(Seq<char>, Seq<char>)> {
    let app = seq![("app_id"@, event.application_id@)];
    match event.token {
        Some(t) => app + seq![
            ("endpoint"@, endpoint_name(event.endpoint)),
            ("action"@, "ConsumerCreate"@),
            ("connection_type"@, "token"@),
            ("key_id"@, t.key_id@),
            ("team_id"@, t.team_id@),
        ],
        None => match event.certificate {
            Some(_) => app + seq![
                ("endpoint"@, endpoint_name(event.endpoint)),
                ("action"@, "ConsumerCreate"@),
                ("connection_type"@, "certificate"@),
            ],
            None => app + seq![("action"@, "ConsumerDelete"@)],
        },
    }
}

fn endpoint_str(e: ConnectionEndpoint) -> (r: &'static str)
    ensures
        r@ == endpoint_name(e),
{
    match e {
        ConnectionEndpoint::Production => "Production",
        ConnectionEndpoint::Sandbox => "Sandbox",
    }
}

impl LogAction {
    /// The action's name, as its debug form prints it.
    pub fn name(&self) -> (r: &'static str)
        ensures
            r@ == (match *self {
                LogAction::ConsumerCreate => "ConsumerCreate"@,
                LogAction::ConsumerDelete => "ConsumerDelete"@,
                LogAction::NotificationResult => "NotificationResult"@,
            }),
    {
        match self {
            LogAction::ConsumerCreate => "ConsumerCreate",
            LogAction::ConsumerDelete => "ConsumerDelete",
            LogAction::NotificationResult => "NotificationResult",
        }
    }
}

/// The legacy APNs consumer: the partition it reads and a connection `N` per application.
pub struct ApnsConsumer<N> {
    pub partition: i32,
    notifiers: Registry<N>,
}

impl<N> ApnsConsumer<N> {
    /// The connections, by application id.
    pub closed spec fn notifiers(&self) -> Map<Seq<char>, N> {
        self.notifiers@
    }

    /// The table of connections is well formed.
    pub closed spec fn wf(&self) -> bool {
        self.notifiers.wf()
    }

    /// The partition read.
    pub closed spec fn read_partition(&self) -> i32 {
        self.partition
    }

    /// A consumer of `partition` with no connections.
    pub fn new(partition: i32) -> (r: ApnsConsumer<N>)
        ensures
            r.wf(),
            r.read_partition() == partition,
            r.notifiers() == Map::<Seq<char>, N>::empty(),
    {
        ApnsConsumer { partition, notifiers: Registry::new() }
    }

    /// The partitions to read: partition 1 of `config_topic` from the
    /// beginning, and this consumer's partition of `input_topic` from the
    /// stored offset.
    pub fn assignments(&self, config_topic: &str, input_topic: &str) -> (r: Vec<(String, i32, OffsetStart)>)
        ensures
            r@.len() == 2,
            r@[0].0@ == config_topic@ && r@[0].1 == 1 && r@[0].2 == OffsetStart::Beginning,
            r@[1].0@ == input_topic@ && r@[1].1 == self.read_partition() && r@[1].2 == OffsetStart::Stored,
    {
        let mut r: Vec<(String, i32, OffsetStart)> = Vec::new();
        r.push((String::from_str(config_topic), 1, OffsetStart::Beginning));
        r.push((String::from_str(input_topic), self.partition, OffsetStart::Stored));
        r
    }

    /// What to do with a message of `topic`, the input topic checked first.
    pub fn route(topic: &str, input_topic: &str, config_topic: &str) -> (r: TopicRoute)
        ensures
            r == topic_route_spec(topic@, input_topic@, config_topic@),
    {
        if str_eq(topic, input_topic) {
            TopicRoute::Notification
        } else if str_eq(topic, config_topic) {
            TopicRoute::Configuration
        } else {
            TopicRoute::Unsupported
        }
    }

    /// Decides what a configuration event asks for.
    pub fn config_action(event: AppleConfig) -> (r: AppleConfigAction)
        ensures
            apple_config_action(event, r),
    {
        let AppleConfig { application_id, endpoint, apns_topic, token, certificate } = event;
        match token {
            Some(t) => AppleConfigAction::ConnectWithToken { application_id, endpoint, topic: apns_topic, token: t },
            None => match certificate {
                Some(c) => AppleConfigAction::ConnectWithCertificate { application_id, endpoint, topic: apns_topic, certificate: c },
                None => AppleConfigAction::Remove(application_id),
            },
        }
    }

    /// Handles a configuration event: a removal takes effect here; a connect
    /// action is returned for the caller to open the connection and hand it
    /// to `add_notifier`.
    pub fn handle_config(&mut self, event: AppleConfig) -> (r: AppleConfigAction)
        requires
            old(self).wf(),
        ensures
            final(self).wf(),
            apple_config_action(event, r),
            apple_config_applied(old(self).notifiers(), final(self).notifiers(), r),
    {
        let action = Self::config_action(event);
        match &action {
            AppleConfigAction::Remove(x) => {
                let _ = self.notifiers.remove(x.as_str());
            },
            _ => {},
        }
        action
    }

    /// Keeps `notifier` as the connection of `application_id`.
    pub fn add_notifier(&mut self, application_id: String, notifier: N)
        requires
            old(self).wf(),
        ensures
            final(self).wf(),
            final(self).notifiers() == old(self).notifiers().insert(application_id@, notifier),
    {
        self.notifiers.insert(application_id, notifier);
    }

    /// The connection of `application_id`.
    pub fn notifier_for(&self, application_id: &str) -> (r: Option<&N>)
        requires
            self.wf(),
        ensures
            r is Some <==> self.notifiers().contains_key(application_id@),
            r matches Some(n) ==> *n == self.notifiers()[application_id@],
    {
        self.notifiers.get(application_id)
    }

    /// The fields logged for a configuration change.
    pub fn config_change_fields(event: &AppleConfig) -> (r: Vec<(String, String)>)
        ensures
            pairs_view(r@) == config_change_fields_spec(*event),
    {
        let mut r: Vec<(String, String)> = Vec::new();
        r.push((String::from_str("app_id"), event.application_id.clone()));
        match &event.token {
            Some(t) => {
                r.push((String::from_str("endpoint"), String::from_str(endpoint_str(event.endpoint))));
                r.push((String::from_str("action"), String::from_str(LogAction::ConsumerCreate.name())));
                r.push((String::from_str("connection_type"), String::from_str("token")));
                r.push((String::from_str("key_id"), t.key_id.clone()));
                r.push((String::from_str("team_id"), t.team_id.clone()));
            },
            None => match &event.certificate {
                Some(_) => {
                    r.push((String::from_str("endpoint"), String::from_str(endpoint_str(event.endpoint))));
                    r.push((String::from_str("action"), String::from_str(LogAction::ConsumerCreate.name())));
                    r.push((String::from_str("connection_type"), String::from_str("certificate")));
                },
                None => {
                    r.push((String::from_str("action"), String::from_str(LogAction::ConsumerDelete.name())));
                },
            },
        }
        assert(pairs_view(r@) =~= config_change_fields_spec(*event));
        r
    }
}

/// An Apple configuration event changes the connection of its own
/// application only; one without a token or a certificate leaves that
/// application without a connection, and one with either, once the new
/// connection is stored with `add_notifier`, has its notifications go
/// through that connection.
pub proof fn apple_configuration_is_per_application<N>(
    before: Map<Seq<char>, N>,
    mid: Map<Seq<char>, N>,
    after: Map<Seq<char>, N>,
    event: AppleConfig,
    r: AppleConfigAction,
    connection: N,
    other: Seq<char>,
)
    requires
        apple_config_action(event, r),
        apple_config_applied(before, mid, r),
        r is Remove ==> after == mid,
        !(r is Remove) ==> after == mid.insert(event.application_id@, connection),
        other != event.application_id@,
    ensures
        after.contains_key(other) == before.contains_key(other),
        before.contains_key(other) ==> after[other] == before[other],
        (event.token is None && event.certificate is None) ==> !after.contains_key(event.application_id@),
        (event.token is Some || event.certificate is Some) ==>
            after.contains_key(event.application_id@) && after[event.application_id@] == connection,
{
}

} // verus!
