//! The single-partition push consumer: which partitions it reads and what it
//! does with a message of each topic.
use vstd::prelude::*;
use crate::common::kafka::Config;
use crate::common::text::str_eq;

verus! {

/// Where a consumer starts reading a partition.
#[derive(Debug, Clone, Copy, PartialEq, Eq, Structural)]
pub enum OffsetStart {
    Beginning,
    Stored,
}

/// What a message is, by its topic.
#[derive(Debug, Clone, Copy, PartialEq, Eq, Structural)]
pub enum TopicRoute {
    /// A push notification to send.
    Notification,
    /// A tenant configuration.
    Configuration,
    /// A topic the consumer does not handle.
    Unsupported,
}

/// A kafka consumer of push notification events on one partition; the handler
/// `H` holds the business logic.
pub struct PushConsumer<H> {
    pub config_topic: String,
    pub input_topic: String,
    pub group_id: String,
    pub brokers: String,
    pub partition: i32,
    pub handler: H,
}

/// The route of a message of `topic`; the input topic is checked first.
pub open spec fn topic_route_spec(topic: Seq<char>, input_topic: Seq<char>, config_topic: Seq<char>) -> TopicRoute {
    if topic == input_topic {
        TopicRoute::Notification
    } else if topic == config_topic {
        TopicRoute::Configuration
    } else {
        TopicRoute::Unsupported
    }
}

impl<H> PushConsumer<H> {
    /// A kafka consumer to consume push notification events. `event_handler`
    /// should contain the business logic.
    pub fn new(event_handler: H, config: &Config, partition: i32) -> (r: PushConsumer<H>)
        ensures
            r.config_topic@ == config.config_topic@,
            r.input_topic@ == config.input_topic@,
            r.group_id@ == config.group_id@,
            r.brokers@ == config.brokers@,
            r.partition == partition,
            r.handler == event_handler,
    {
        PushConsumer {
            config_topic: config.config_topic.clone(),
            input_topic: config.input_topic.clone(),
            group_id: config.group_id.clone(),
            brokers: config.brokers.clone(),
            partition,
            handler: event_handler,
        }
    }

    /// The partitions to read: partition 1 of the configuration topic from
    /// the beginning, and this consumer's partition of the input topic from
    /// the stored offset.
    pub fn assignments(&self) -> (r: Vec<(String, i32, OffsetStart)>)
        ensures
            r@.len() == 2,
            r@[0].0@ == self.config_topic@ && r@[0].1 == 1 && r@[0].2 == OffsetStart::Beginning,
            r@[1].0@ == self.input_topic@ && r@[1].1 == self.partition && r@[1].2 == OffsetStart::Stored,
    {
        let mut r: Vec<(String, i32, OffsetStart)> = Vec::new();
        r.push((self.config_topic.clone(), 1, OffsetStart::Beginning));
        r.push((self.input_topic.clone(), self.partition, OffsetStart::Stored));
        r
    }

    /// What to do with a message of `topic`.
    pub fn route(&self, topic: &str) -> (r: TopicRoute)
        ensures
            r == topic_route_spec(topic@, self.input_topic@, self.config_topic@),
    {
        if str_eq(topic, self.input_topic.as_str()) {
            TopicRoute::Notification
        } else if str_eq(topic, self.config_topic.as_str()) {
            TopicRoute::Configuration
        } else {
            TopicRoute::Unsupported
        }
    }
}

/// Messages of the input topic are notifications, those of the
/// configuration topic (when it is another topic) configurations, and those
/// of any other topic unsupported.
pub proof fn messages_are_routed_by_topic(topic: Seq<char>, input_topic: Seq<char>, config_topic: Seq<char>)
    ensures
        (topic_route_spec(topic, input_topic, config_topic) == TopicRoute::Notification) <==> topic == input_topic,
        (topic_route_spec(topic, input_topic, config_topic) == TopicRoute::Configuration)
            <==> (topic == config_topic && topic != input_topic),
        (topic_route_spec(topic, input_topic, config_topic) == TopicRoute::Unsupported)
            <==> (topic != input_topic && topic != config_topic),
{
}

} // verus!
