//! The two closed sets of messages between the interface and the bridge:
//! commands go in, events come out. A command carries no identifier of its
//! own; the interface tells what became of it by the kind of event that
//! arrives later and by the topic or subscription the event names.

use crate::model::{PubsubMessage, PubsubMessageToPublish, SubscriptionName, TopicName};
use tokio_util::sync::CancellationToken;
use vstd::prelude::*;

verus! {

/// A command from the interface to the bridge.
#[derive(Debug)]
pub enum FrontendMessage {
    /// List the topics again.
    RefreshTopicsRequest,
    /// Make a subscription bound to the topic.
    CreateSubscriptionRequest(TopicName),
    /// Delete every subscription of the list.
    DeleteSubscriptions(Vec<SubscriptionName>),
    /// Deliver the messages of the subscription until the token is
    /// cancelled. The sender keeps a clone of the token to stop the stream.
    StreamMessages(TopicName, SubscriptionName, CancellationToken),
    /// Publish the message to the topic.
    PublishMessage(TopicName, PubsubMessageToPublish),
}

/// An event from the bridge to the interface.
#[derive(Debug)]
pub enum BackendMessage {
    /// The broker client is ready; the text names the project it serves.
    ClientInitialised(String),
    TopicsUpdated(Vec<TopicName>),
    SubscriptionCreated(TopicName, SubscriptionName),
    /// One delivered message. Messages are never batched.
    MessageReceived(TopicName, PubsubMessage),
    /// The outcome of a batch deletion, one entry for each name asked for:
    /// `Ok` with the name where it was deleted, `Err` with it where not.
    SubscriptionsDeleted(Vec<Result<SubscriptionName, SubscriptionName>>),
    Error(BackendError),
}

/// What went wrong in the bridge, with the topic or subscription it went
/// wrong for.
#[derive(Debug)]
pub enum BackendError {
    /// The broker client could not be made. The bridge does not start.
    ClientInitFailed,
    /// One listing of the topics failed. The next one may succeed.
    GetTopicsFailed,
    CreateSubscriptionFailed(TopicName),
    /// The stream of the subscription could not be opened.
    StreamMessagesFailed(TopicName, SubscriptionName),
    /// The broker did not confirm the message. Nothing is sent again.
    PublishMessageFailed(TopicName),
}

} // verus!
