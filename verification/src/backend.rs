//! The decisions of the bridge between the interface and the broker.
//!
//! The bridge takes one command at a time off its channel and starts one
//! task for it; it never waits for the broker itself. Each task asks the
//! broker for one thing and turns what comes back into the events that the
//! interface receives. The functions here are those decisions: they take
//! what the broker answered as plain values and say which event follows.
//! Waiting on channels and on the broker is left to the caller.

use crate::message::{BackendError, BackendMessage, FrontendMessage};
use crate::model::pubsub_message_to_publish::{is_published, WireMessage};
use crate::model::{PubsubMessageToPublish, SubscriptionName, TopicName};
use tokio_util::sync::CancellationToken;
use vstd::prelude::*;
use vstd::string::StringExecFns;

pub mod stream;

verus! {

/// The number of worker threads of the runtime on which the broker client is
/// made and every task runs.
pub const WORKER_THREADS: usize = 4;

/// The capacity of the command channel and of the event channel.
pub const CHANNEL_CAPACITY: usize = 10;

/// The work that the bridge starts for one command. Each task runs on its
/// own, so the effects of two commands may complete in either order.
#[derive(Debug)]
pub enum Task {
    GetTopics,
    CreateSubscription(TopicName),
    DeleteSubscriptions(Vec<SubscriptionName>),
    StreamMessages(TopicName, SubscriptionName, CancellationToken),
    PublishMessage(TopicName, PubsubMessageToPublish),
}

/// The task that a command asks for.
pub open spec fn task_of(command: FrontendMessage) -> Task {
    match command {
        FrontendMessage::RefreshTopicsRequest => Task::GetTopics,
        FrontendMessage::CreateSubscriptionRequest(topic) => Task::CreateSubscription(topic),
        FrontendMessage::DeleteSubscriptions(names) => Task::DeleteSubscriptions(names),
        FrontendMessage::StreamMessages(topic, subscription, token) => Task::StreamMessages(
            topic,
            subscription,
            token,
        ),
        FrontendMessage::PublishMessage(topic, message) => Task::PublishMessage(topic, message),
    }
}

/// What the bridge asks of the broker to make a subscription: the name it
/// made up for the subscription and the topic to bind it to. Everything else
/// is left at the broker's defaults.
#[derive(Debug)]
pub struct SubscriptionRequest {
    pub subscription_id: String,
    pub topic_id: String,
}

/// The text that every subscription name made here starts with.
pub open spec fn subscription_prefix() -> Seq<char> {
    "pubsubman-subscription-"@
}

/// The sixteen digits of lower-case hexadecimal.
pub open spec fn hex_digits() -> Seq<char> {
    seq!['0', '1', '2', '3', '4', '5', '6', '7', '8', '9', 'a', 'b', 'c', 'd', 'e', 'f']
}

/// The hyphenated lower-case text of a UUID: its 32 hexadecimal digits from
/// the most significant down, in groups of 8, 4, 4, 4 and 12.
pub open spec fn uuid_text(bits: u128) -> Seq<char> {
    Seq::new(
        36,
        |i: int|
            if i == 8 || i == 13 || i == 18 || i == 23 {
                '-'
            } else {
                let hyphens: int = if i > 23 {
                    4
                } else if i > 18 {
                    3
                } else if i > 13 {
                    2
                } else if i > 8 {
                    1
                } else {
                    0
                };
                let place = (i - hyphens) as u128;
                hex_digits()[((bits >> ((4 * (31 - place)) as u128)) & 0xf) as int]
            },
    )
}

/// Whether `bits` are those of a random UUID: the version is 4 and the
/// variant is the one of RFC 9562. The other 122 bits are free.
pub open spec fn is_random_uuid(bits: u128) -> bool {
    bits & 0x0000_0000_0000_f000_c000_0000_0000_0000 == 0x0000_0000_0000_4000_8000_0000_0000_0000
}

/// The name of a subscription made from the UUID with these bits.
pub open spec fn subscription_id_text(bits: u128) -> Seq<char> {
    subscription_prefix() + uuid_text(bits)
}

/// Calls `uuid::Uuid::new_v4` and reads the UUID as a number. The bits come
/// from the system's random source; the contract claims only what the
/// crate's source fixes of every outcome, the version and the variant.
#[verifier::external_body]
fn random_uuid() -> (bits: u128)
    ensures
        is_random_uuid(bits),
{
    uuid::Uuid::new_v4().as_u128()
}

/// Calls `uuid::Uuid::from_u128` and formats the UUID as the crate's
/// `Display` does. The contract claims the hyphenated lower-case form that
/// the crate documents.
#[verifier::external_body]
fn hyphenated(bits: u128) -> (text: String)
    ensures
        text@ == uuid_text(bits),
{
    uuid::Uuid::from_u128(bits).to_string()
}

/// The subscription name made from the UUID with these bits.
pub fn subscription_id(bits: u128) -> (id: String)
    ensures
        id@ == subscription_id_text(bits),
{
    let mut id = String::from_str("pubsubman-subscription-");
    let uuid = hyphenated(bits);
    id.append(uuid.as_str());
    id
}

/// The bridge. It exists once the broker client does, and it takes commands
/// until their channel is closed.
#[derive(Debug)]
pub struct Backend {
    project_id: String,
    closed: bool,
}

impl Backend {
    /// The project that the broker client serves.
    pub closed spec fn project_id(&self) -> Seq<char> {
        self.project_id@
    }

    /// Whether the command channel has been found closed. A closed bridge
    /// starts no more tasks.
    pub closed spec fn is_closed(&self) -> bool {
        self.closed
    }

    /// The project that the broker client serves.
    pub fn project(&self) -> (project_id: &String)
        ensures
            project_id@ == self.project_id(),
    {
        &self.project_id
    }

    /// Whether the command channel has been found closed.
    pub fn closed(&self) -> (closed: bool)
        ensures
            closed == self.is_closed(),
    {
        self.closed
    }

    /// The project that the broker client is to be made for: the configured
    /// one, unless the broker is a local emulator and an override is given.
    pub fn resolve_project_id(
        emulator: bool,
        configured: Option<String>,
        emulator_project_id: Option<String>,
    ) -> (project_id: Option<String>)
        ensures
            project_id == if emulator && emulator_project_id is Some {
                emulator_project_id
            } else {
                configured
            },
    {
        if emulator {
            match emulator_project_id {
                Some(id) => Some(id),
                None => configured,
            }
        } else {
            configured
        }
    }

    /// Starts the bridge on what making the broker client gave: the project
    /// of the client, or `None` where making it failed. The event is sent
    /// either way; there is a bridge only where there is a client.
    pub fn new(client: Option<String>) -> (started: (Option<Backend>, BackendMessage))
        ensures
            match client {
                Some(project_id) => {
                    &&& started.0 matches Some(backend)
                    &&& backend.project_id() == project_id@
                    &&& !backend.is_closed()
                    &&& started.1 == BackendMessage::ClientInitialised(project_id)
                },
                None => {
                    &&& started.0 is None
                    &&& started.1 == BackendMessage::Error(BackendError::ClientInitFailed)
                },
            },
    {
        match client {
            Some(project_id) => {
                let backend = Backend { project_id: project_id.clone(), closed: false };
                (Some(backend), BackendMessage::ClientInitialised(project_id))
            },
            None => (None, BackendMessage::Error(BackendError::ClientInitFailed)),
        }
    }

    /// One turn of the command loop, on what receiving from the command
    /// channel gave. A command starts exactly one task, the one it asks
    /// for. `None` says that the channel is closed: the loop ends and stays
    /// ended.
    pub fn dispatch(&mut self, received: Option<FrontendMessage>) -> (task: Option<Task>)
        ensures
            final(self).project_id() == old(self).project_id(),
            final(self).is_closed() == (old(self).is_closed() || received is None),
            task == match received {
                Some(command) => if old(self).is_closed() {
                    None
                } else {
                    Some(task_of(command))
                },
                None => None,
            },
    {
        match received {
            Some(command) => {
                if self.closed {
                    None
                } else {
                    Some(
                        match command {
                            FrontendMessage::RefreshTopicsRequest => Task::GetTopics,
                            FrontendMessage::CreateSubscriptionRequest(topic) => {
                                Task::CreateSubscription(topic)
                            },
                            FrontendMessage::DeleteSubscriptions(names) => {
                                Task::DeleteSubscriptions(names)
                            },
                            FrontendMessage::StreamMessages(topic, subscription, token) => {
                                Task::StreamMessages(topic, subscription, token)
                            },
                            FrontendMessage::PublishMessage(topic, message) => {
                                Task::PublishMessage(topic, message)
                            },
                        },
                    )
                }
            },
            None => {
                self.closed = true;
                None
            },
        }
    }

    /// The event that ends a listing of topics: the topics in the order in
    /// which the broker gave them, or the failure where it gave `None`.
    pub fn get_topics(listed: Option<Vec<String>>) -> (event: BackendMessage)
        ensures
            match listed {
                Some(names) => {
                    &&& event matches BackendMessage::TopicsUpdated(topics)
                    &&& topics@.len() == names@.len()
                    &&& forall|i: int| 0 <= i < names@.len() ==> (#[trigger] topics@[i])@ == names@[i]@
                },
                None => event == BackendMessage::Error(BackendError::GetTopicsFailed),
            },
    {
        match listed {
            Some(names) => {
                let mut topics: Vec<TopicName> = Vec::new();
                let mut i: usize = 0;
                while i < names.len()
                    invariant
                        i <= names@.len(),
                        topics@.len() == i,
                        forall|j: int| 0 <= j < i ==> (#[trigger] topics@[j])@ == names@[j]@,
                    decreases names@.len() - i,
                {
                    topics.push(TopicName(names[i].clone()));
                    i += 1;
                }
                BackendMessage::TopicsUpdated(topics)
            },
            None => BackendMessage::Error(BackendError::GetTopicsFailed),
        }
    }

    /// What to ask of the broker to make a subscription for `topic`. The
    /// name is made from a fresh random UUID, so two requests for one topic
    /// differ.
    pub fn subscription_request(topic: &TopicName) -> (request: SubscriptionRequest)
        ensures
            request.topic_id@ == topic@,
            exists|bits: u128|
                is_random_uuid(bits) && request.subscription_id@ == #[trigger] subscription_id_text(
                    bits,
                ),
    {
        let bits = random_uuid();
        SubscriptionRequest { subscription_id: subscription_id(bits), topic_id: topic.0.clone() }
    }

    /// The event that ends the making of a subscription for `topic`: the
    /// subscription under the full name that the broker confirmed, or the
    /// failure where it confirmed none.
    pub fn create_subscription(topic: TopicName, confirmed: Option<String>) -> (event:
        BackendMessage)
        ensures
            event == subscription_event(topic, confirmed),
    {
        match confirmed {
            Some(name) => BackendMessage::SubscriptionCreated(topic, SubscriptionName(name)),
            None => BackendMessage::Error(BackendError::CreateSubscriptionFailed(topic)),
        }
    }

    /// The outcome of deleting one subscription, tagged with its name.
    pub fn deletion_outcome(name: SubscriptionName, deleted: bool) -> (outcome: Result<
        SubscriptionName,
        SubscriptionName,
    >)
        ensures
            outcome == deletion_of(name, deleted),
    {
        if deleted {
            Ok(name)
        } else {
            Err(name)
        }
    }

    /// The event that ends a batch deletion. `deleted` says for each name,
    /// place by place, whether the broker deleted it; a name without an
    /// answer counts as not deleted. The event holds one outcome for each
    /// name, in the order of the names.
    pub fn delete_subscriptions(names: Vec<SubscriptionName>, deleted: &Vec<bool>) -> (event:
        BackendMessage)
        ensures
            event matches BackendMessage::SubscriptionsDeleted(outcomes) && outcomes@
                == deletions_of(names@, deleted@),
    {
        let mut outcomes: Vec<Result<SubscriptionName, SubscriptionName>> = Vec::new();
        let mut i: usize = 0;
        while i < names.len()
            invariant
                i <= names@.len(),
                outcomes@.len() == i,
                forall|j: int|
                    0 <= j < i ==> #[trigger] outcomes@[j] == deletion_of(
                        names@[j],
                        was_deleted(deleted@, j),
                    ),
            decreases names@.len() - i,
        {
            let done = i < deleted.len() && deleted[i];
            outcomes.push(Self::deletion_outcome(names[i].clone(), done));
            i += 1;
        }
        assert(outcomes@ =~= deletions_of(names@, deleted@));
        BackendMessage::SubscriptionsDeleted(outcomes)
    }

    /// The message to hand to the broker's publisher.
    pub fn publish_request(message: PubsubMessageToPublish) -> (wire: WireMessage)
        ensures
            is_published(wire, message),
    {
        message.into_wire()
    }

    /// The event, if any, that ends a publish to `topic`. A confirmed
    /// publish is silent; a failed one is reported and not tried again.
    pub fn publish_message(topic: TopicName, confirmed: bool) -> (event: Option<BackendMessage>)
        ensures
            event == if confirmed {
                None
            } else {
                Some(BackendMessage::Error(BackendError::PublishMessageFailed(topic)))
            },
    {
        if confirmed {
            None
        } else {
            Some(BackendMessage::Error(BackendError::PublishMessageFailed(topic)))
        }
    }
}

/// Whether the broker's answers say that the name at place `i` was deleted.
pub open spec fn was_deleted(deleted: Seq<bool>, i: int) -> bool {
    0 <= i < deleted.len() && deleted[i]
}

/// The outcome of one deletion: the name, under `Ok` where it was deleted
/// and under `Err` where it was not.
pub open spec fn deletion_of(name: SubscriptionName, deleted: bool) -> Result<
    SubscriptionName,
    SubscriptionName,
> {
    if deleted {
        Ok(name)
    } else {
        Err(name)
    }
}

/// The outcomes of a batch deletion, one for each name and in their order.
pub open spec fn deletions_of(names: Seq<SubscriptionName>, deleted: Seq<bool>) -> Seq<
    Result<SubscriptionName, SubscriptionName>,
> {
    Seq::new(names.len(), |i: int| deletion_of(names[i], was_deleted(deleted, i)))
}

/// The name that an outcome of a deletion is tagged with.
pub open spec fn outcome_name(outcome: Result<SubscriptionName, SubscriptionName>)
    -> SubscriptionName {
    match outcome {
        Ok(name) => name,
        Err(name) => name,
    }
}

/// The event that ends the making of a subscription for `topic`, given the
/// full name that the broker confirmed, if it confirmed one.
pub open spec fn subscription_event(topic: TopicName, confirmed: Option<String>)
    -> BackendMessage {
    match confirmed {
        Some(name) => BackendMessage::SubscriptionCreated(topic, SubscriptionName(name)),
        None => BackendMessage::Error(BackendError::CreateSubscriptionFailed(topic)),
    }
}

/// Whether an event says that a subscription was made for `topic`.
pub open spec fn is_created_for(event: BackendMessage, topic: TopicName) -> bool {
    event matches BackendMessage::SubscriptionCreated(t, _) && t == topic
}

/// Whether an event says that making a subscription for `topic` failed.
pub open spec fn is_failed_for(event: BackendMessage, topic: TopicName) -> bool {
    event == BackendMessage::Error(BackendError::CreateSubscriptionFailed(topic))
}

/// Making a subscription for a topic ends in exactly one event: either the
/// subscription for that topic or the failure for that topic, never both and
/// never neither.
pub proof fn lemma_create_subscription_one_event(topic: TopicName, confirmed: Option<String>)
    ensures
        is_created_for(subscription_event(topic, confirmed), topic) != is_failed_for(
            subscription_event(topic, confirmed),
            topic,
        ),
        is_created_for(subscription_event(topic, confirmed), topic) == (confirmed is Some),
{
}

/// A batch deletion answers for every name it was asked about: it gives as
/// many outcomes as there are names, and the outcome at each place is tagged
/// with the name at that place.
pub proof fn lemma_deletions_match_names(names: Seq<SubscriptionName>, deleted: Seq<bool>)
    ensures
        deletions_of(names, deleted).len() == names.len(),
        forall|i: int|
            0 <= i < names.len() ==> outcome_name(#[trigger] deletions_of(names, deleted)[i])
                == names[i],
{
}

} // verus!
