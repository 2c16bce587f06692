//! What the interface asks of the bridge.
//!
//! Each action is one command for the bridge, to be put on the command
//! channel by a task of its own so that a full channel never holds the
//! interface up. The functions here say which command goes out, after what
//! delay, and whether the sender may shrug off a closed channel; sending is
//! left to the caller.

use crate::cancellation::clone_token;
use crate::message::FrontendMessage;
use crate::model::{PubsubMessageToPublish, SubscriptionName, TopicName};
use tokio_util::sync::CancellationToken;
use vstd::prelude::*;

verus! {

/// How long a pull of one batch lets its stream run, in milliseconds.
pub const PULL_WINDOW_MILLIS: u64 = 500;

/// One command on its way to the bridge.
#[derive(Debug)]
pub struct Submission {
    /// How long to wait before sending, in milliseconds.
    pub delay_millis: Option<u64>,
    /// The command.
    pub message: FrontendMessage,
    /// Whether the command has to arrive. Where it has to and the channel is
    /// closed, the sending task fails; where it need not, the command is
    /// dropped.
    pub must_arrive: bool,
}

/// A cancellation to come: cancel the token once the delay has passed.
#[derive(Debug)]
pub struct DeferredCancel {
    pub token: CancellationToken,
    pub delay_millis: u64,
}

/// Asks for the list of topics, after `delay_millis` if one is given.
pub fn refresh_topics(delay_millis: Option<u64>) -> (submission: Submission)
    ensures
        submission == (Submission {
            delay_millis,
            message: FrontendMessage::RefreshTopicsRequest,
            must_arrive: false,
        }),
{
    Submission { delay_millis, message: FrontendMessage::RefreshTopicsRequest, must_arrive: false }
}

/// Asks for a subscription bound to the topic.
pub fn create_subscription(topic_name: &TopicName) -> (submission: Submission)
    ensures
        submission == (Submission {
            delay_millis: None,
            message: FrontendMessage::CreateSubscriptionRequest(*topic_name),
            must_arrive: false,
        }),
{
    Submission {
        delay_millis: None,
        message: FrontendMessage::CreateSubscriptionRequest(topic_name.clone()),
        must_arrive: false,
    }
}

/// Asks for the deletion of the subscriptions.
pub fn delete_subscriptions(sub_names: Vec<SubscriptionName>) -> (submission: Submission)
    ensures
        submission == (Submission {
            delay_millis: None,
            message: FrontendMessage::DeleteSubscriptions(sub_names),
            must_arrive: false,
        }),
{
    Submission {
        delay_millis: None,
        message: FrontendMessage::DeleteSubscriptions(sub_names),
        must_arrive: false,
    }
}

/// Asks for the messages of the subscription until `cancel_token` is
/// cancelled. The command carries a clone of the token; the caller keeps
/// its own.
pub fn stream_messages(
    topic_name: &TopicName,
    sub_name: &SubscriptionName,
    cancel_token: &CancellationToken,
) -> (submission: Submission)
    ensures
        submission == (Submission {
            delay_millis: None,
            message: FrontendMessage::StreamMessages(*topic_name, *sub_name, *cancel_token),
            must_arrive: true,
        }),
{
    Submission {
        delay_millis: None,
        message: FrontendMessage::StreamMessages(
            topic_name.clone(),
            sub_name.clone(),
            clone_token(cancel_token),
        ),
        must_arrive: true,
    }
}

/// Asks for one batch of messages: a stream that is cancelled once the pull
/// window has passed. The broker has no such call of its own.
pub fn pull_message_batch(
    topic_name: &TopicName,
    sub_name: &SubscriptionName,
    cancel_token: &CancellationToken,
) -> (pull: (Submission, DeferredCancel))
    ensures
        pull.0 == (Submission {
            delay_millis: None,
            message: FrontendMessage::StreamMessages(*topic_name, *sub_name, *cancel_token),
            must_arrive: true,
        }),
        pull.1 == (DeferredCancel { token: *cancel_token, delay_millis: PULL_WINDOW_MILLIS }),
{
    let submission = stream_messages(topic_name, sub_name, cancel_token);
    let cancel = DeferredCancel {
        token: clone_token(cancel_token),
        delay_millis: PULL_WINDOW_MILLIS,
    };
    (submission, cancel)
}

/// Asks for the message to be published to the topic.
pub fn publish_message(topic_name: &TopicName, message: PubsubMessageToPublish) -> (submission:
    Submission)
    ensures
        submission == (Submission {
            delay_millis: None,
            message: FrontendMessage::PublishMessage(*topic_name, message),
            must_arrive: true,
        }),
{
    Submission {
        delay_millis: None,
        message: FrontendMessage::PublishMessage(topic_name.clone(), message),
        must_arrive: true,
    }
}

} // verus!
