//! The payloads of the topic methods.

use crate::json::{json_strings, string_at, string_member};
use crate::schema::message_schema::Payload;
use vstd::prelude::*;

verus! {

/// Create a topic.
#[derive(Clone, Debug, PartialEq, Eq)]
pub struct TopicCreate {
    /// The identifier of the topic.
    pub topic_id: String,
}

/// What a [`TopicCreate`] holds.
pub struct TopicCreateView {
    pub topic_id: Seq<char>,
}

impl View for TopicCreate {
    type V = TopicCreateView;

    open spec fn view(&self) -> TopicCreateView {
        TopicCreateView { topic_id: self.topic_id@ }
    }
}

impl Payload for TopicCreate {
    open spec fn decoded(strings: Map<Seq<Seq<char>>, Seq<char>>) -> Option<TopicCreateView> {
        match string_at(strings, seq!["topic_id"@]) {
            Some(topic_id) => Some(TopicCreateView { topic_id: topic_id }),
            None => None,
        }
    }

    proof fn lemma_nothing_decoded() {
    }

    fn from_json(value: &serde_json::Value) -> (r: Option<Self>) {
        match string_member(value, "topic_id") {
            Some(topic_id) => Some(TopicCreate { topic_id: topic_id }),
            None => None,
        }
    }
}

/// Subscribe to a topic, or leave it.
#[derive(Clone, Debug, PartialEq, Eq)]
pub struct TopicSubscribe {
    /// The identifier of the topic.
    pub topic_id: String,
    /// The identifier of the subscriber within the topic.
    pub subscriber_id: String,
}

/// What a [`TopicSubscribe`] holds.
pub struct TopicSubscribeView {
    pub topic_id: Seq<char>,
    pub subscriber_id: Seq<char>,
}

impl View for TopicSubscribe {
    type V = TopicSubscribeView;

    open spec fn view(&self) -> TopicSubscribeView {
        TopicSubscribeView { topic_id: self.topic_id@, subscriber_id: self.subscriber_id@ }
    }
}

impl Payload for TopicSubscribe {
    open spec fn decoded(strings: Map<Seq<Seq<char>>, Seq<char>>) -> Option<TopicSubscribeView> {
        match (
            string_at(strings, seq!["topic_id"@]),
            string_at(strings, seq!["subscriber_id"@]),
        ) {
            (Some(topic_id), Some(subscriber_id)) => Some(
                TopicSubscribeView { topic_id: topic_id, subscriber_id: subscriber_id },
            ),
            _ => None,
        }
    }

    proof fn lemma_nothing_decoded() {
    }

    fn from_json(value: &serde_json::Value) -> (r: Option<Self>) {
        match string_member(value, "topic_id") {
            Some(topic_id) => match string_member(value, "subscriber_id") {
                Some(subscriber_id) => Some(
                    TopicSubscribe { topic_id: topic_id, subscriber_id: subscriber_id },
                ),
                None => None,
            },
            None => None,
        }
    }
}

/// Send a message to a topic.
#[derive(Clone, Debug, PartialEq, Eq)]
pub struct TopicPublish {
    /// The identifier of the topic.
    pub topic_id: String,
    /// The identifier under which the publisher is subscribed.
    pub publisher_id: String,
    /// The text to deliver.
    pub message: String,
}

/// What a [`TopicPublish`] holds.
pub struct TopicPublishView {
    pub topic_id: Seq<char>,
    pub publisher_id: Seq<char>,
    pub message: Seq<char>,
}

impl View for TopicPublish {
    type V = TopicPublishView;

    open spec fn view(&self) -> TopicPublishView {
        TopicPublishView {
            topic_id: self.topic_id@,
            publisher_id: self.publisher_id@,
            message: self.message@,
        }
    }
}

impl Payload for TopicPublish {
    open spec fn decoded(strings: Map<Seq<Seq<char>>, Seq<char>>) -> Option<TopicPublishView> {
        match (
            string_at(strings, seq!["topic_id"@]),
            string_at(strings, seq!["publisher_id"@]),
            string_at(strings, seq!["message"@]),
        ) {
            (Some(topic_id), Some(publisher_id), Some(message)) => Some(
                TopicPublishView {
                    topic_id: topic_id,
                    publisher_id: publisher_id,
                    message: message,
                },
            ),
            _ => None,
        }
    }

    proof fn lemma_nothing_decoded() {
    }

    fn from_json(value: &serde_json::Value) -> (r: Option<Self>) {
        match string_member(value, "topic_id") {
            Some(topic_id) => match string_member(value, "publisher_id") {
                Some(publisher_id) => match string_member(value, "message") {
                    Some(message) => Some(
                        TopicPublish {
                            topic_id: topic_id,
                            publisher_id: publisher_id,
                            message: message,
                        },
                    ),
                    None => None,
                },
                None => None,
            },
            None => None,
        }
    }
}

} // verus!
