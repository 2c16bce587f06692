//! Names and messages that travel between the interface and the bridge.

use vstd::prelude::*;

pub mod pubsub_message;
pub mod pubsub_message_to_publish;
pub mod time_of_day;

pub use pubsub_message::PubsubMessage;
pub use pubsub_message_to_publish::PubsubMessageToPublish;

verus! {

/// The name of a topic, as the broker lists it.
#[derive(Debug, Eq, PartialOrd, Ord, Hash)]
pub struct TopicName(pub String);

impl View for TopicName {
    type V = Seq<char>;

    open spec fn view(&self) -> Seq<char> {
        self.0@
    }
}

impl Clone for TopicName {
    fn clone(&self) -> (copy: Self)
        ensures
            copy == *self,
    {
        TopicName(self.0.clone())
    }
}

impl PartialEq for TopicName {
    fn eq(&self, other: &Self) -> (same: bool) {
        self.0 == other.0
    }
}

impl vstd::std_specs::cmp::PartialEqSpecImpl for TopicName {
    open spec fn obeys_eq_spec() -> bool {
        true
    }

    open spec fn eq_spec(&self, other: &Self) -> bool {
        self.0@ == other.0@
    }
}

impl TopicName {
    /// The name as text.
    pub fn to_string(&self) -> (text: String)
        ensures
            text@ == self@,
    {
        self.0.clone()
    }
}

/// The name of a subscription: the one this program made up when it asked
/// for the subscription, or the full name the broker answered with.
#[derive(Debug, Eq, PartialOrd, Ord, Hash)]
pub struct SubscriptionName(pub String);

impl View for SubscriptionName {
    type V = Seq<char>;

    open spec fn view(&self) -> Seq<char> {
        self.0@
    }
}

impl Clone for SubscriptionName {
    fn clone(&self) -> (copy: Self)
        ensures
            copy == *self,
    {
        SubscriptionName(self.0.clone())
    }
}

impl PartialEq for SubscriptionName {
    fn eq(&self, other: &Self) -> (same: bool) {
        self.0 == other.0
    }
}

impl vstd::std_specs::cmp::PartialEqSpecImpl for SubscriptionName {
    open spec fn obeys_eq_spec() -> bool {
        true
    }

    open spec fn eq_spec(&self, other: &Self) -> bool {
        self.0@ == other.0@
    }
}

impl SubscriptionName {
    /// The name as text.
    pub fn to_string(&self) -> (text: String)
        ensures
            text@ == self@,
    {
        self.0.clone()
    }
}

} // verus!
