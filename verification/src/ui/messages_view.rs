//! The view of a topic's messages: pulling and streaming them, and searching
//! through those received.

use crate::actions::{pull_message_batch, stream_messages, DeferredCancel, Submission};
use crate::actions::PULL_WINDOW_MILLIS;
use crate::cancellation::{clone_token, new_token};
use crate::message::FrontendMessage;
use crate::model::pubsub_message::members_of;
use crate::model::{PubsubMessage, SubscriptionName, TopicName};
use crate::string_map::StringMap;
use crate::text::{ascii_lowercase, contains, contains_run, to_ascii_lowercase};
use tokio_util::sync::CancellationToken;
use vstd::prelude::*;
use vstd::string::StringExecFns;

verus! {

/// What a search looks at.
#[derive(Debug, Clone, Copy, PartialEq, Eq, Structural)]
pub enum SearchMode {
    /// The payload.
    Data,
    /// The identifier.
    Id,
}

impl Default for SearchMode {
    fn default() -> (mode: Self)
        ensures
            mode == SearchMode::Data,
    {
        SearchMode::Data
    }
}

impl SearchMode {
    /// The name of the mode as the interface shows it.
    pub fn to_string(&self) -> (name: String)
        ensures
            name@ == if *self == SearchMode::Data {
                "Data"@
            } else {
                "ID"@
            },
    {
        match self {
            SearchMode::Data => "Data".to_owned(),
            SearchMode::Id => "ID".to_owned(),
        }
    }
}

/// The text of a message that a search in `mode` looks at.
pub open spec fn searched_text(message: PubsubMessage, mode: SearchMode) -> Seq<char> {
    match mode {
        SearchMode::Data => message.data@,
        SearchMode::Id => message.id@,
    }
}

/// Whether a search for `query` in `mode` finds the message: the query
/// stands in the searched text, letters of ASCII compared without regard to
/// case.
pub open spec fn is_match(message: PubsubMessage, query: Seq<char>, mode: SearchMode) -> bool {
    contains_run(ascii_lowercase(searched_text(message, mode)), ascii_lowercase(query))
}

/// The places of the messages that a search finds, in rising order.
pub open spec fn matches_of(messages: Seq<PubsubMessage>, query: Seq<char>, mode: SearchMode)
    -> Seq<usize>
    decreases messages.len(),
{
    if messages.len() == 0 {
        Seq::empty()
    } else {
        let before = matches_of(messages.drop_last(), query, mode);
        if is_match(messages.last(), query, mode) {
            before.push((messages.len() - 1) as usize)
        } else {
            before
        }
    }
}

/// The attributes as one line of text: each as key, colon and value, with a
/// comma and a blank between one attribute and the next.
pub open spec fn formatted(members: Seq<(Seq<char>, Seq<char>)>) -> Seq<char>
    decreases members.len(),
{
    if members.len() == 0 {
        Seq::empty()
    } else {
        let entry = members.last().0 + seq![':'] + members.last().1;
        if members.len() == 1 {
            entry
        } else {
            formatted(members.drop_last()) + seq![',', ' '] + entry
        }
    }
}

/// The attributes of a message as one line of text, in the order of their
/// keys.
pub fn format_attributes(attributes: &StringMap<String>) -> (text: String)
    ensures
        text@ == formatted(members_of(*attributes)),
{
    let count = attributes.len();
    let mut text = String::new();
    let mut i: usize = 0;
    while i < count
        invariant
            i <= count,
            count == attributes.keys().len(),
            text@ == formatted(members_of(*attributes).take(i as int)),
        decreases count - i,
    {
        let ghost members = members_of(*attributes);
        proof {
            reveal_strlit(", ");
            reveal_strlit(":");
            assert(", "@ =~= seq![',', ' ']);
            assert(":"@ =~= seq![':']);
            assert(members.take(i + 1).drop_last() =~= members.take(i as int));
            assert(members.take(i + 1).last() == members[i as int]);
        }
        match attributes.entry(i) {
            Some((key, value)) => {
                if i > 0 {
                    text.append(", ");
                }
                text.append(key.as_str());
                text.append(":");
                text.append(value.as_str());
                proof {
                    let entry = members[i as int].0 + seq![':'] + members[i as int].1;
                    if i == 0 {
                        assert(members.take(0) =~= Seq::<(Seq<char>, Seq<char>)>::empty());
                        assert(text@ =~= entry);
                    } else {
                        assert(text@ =~= formatted(members.take(i as int)) + seq![',', ' ']
                            + entry);
                    }
                }
            },
            None => {},
        }
        i += 1;
    }
    assert(members_of(*attributes).take(count as int) =~= members_of(*attributes));
    text
}

/// A view as it is once its stream has been let go: no token is kept.
pub open spec fn released(view: MessagesView) -> MessagesView {
    MessagesView { stream_messages_cancel_token: None, ..view }
}

/// A view as it is once streaming has been stopped: streaming is off and no
/// token is kept.
pub open spec fn stopped(view: MessagesView) -> MessagesView {
    MessagesView { stream_messages_enabled: false, stream_messages_cancel_token: None, ..view }
}

/// What turning streaming on or off asks for.
#[derive(Debug)]
pub struct StreamToggle {
    /// The command that starts the stream, where streaming was turned on.
    pub start: Option<Submission>,
    /// The token to cancel, where streaming was turned off and the view
    /// kept one.
    pub cancel: Option<CancellationToken>,
}

/// The state of the view of one topic's messages.
#[derive(Debug)]
pub struct MessagesView {
    /// Whether messages are streamed as they arrive.
    pub stream_messages_enabled: bool,
    /// The token of the running stream.
    pub stream_messages_cancel_token: Option<CancellationToken>,
    /// What the user searches for.
    pub search_query: String,
    /// What the search looks at.
    pub search_mode: SearchMode,
}

impl Default for MessagesView {
    fn default() -> (view: Self)
        ensures
            !view.stream_messages_enabled,
            view.stream_messages_cancel_token is None,
            view.search_query@ == Seq::<char>::empty(),
            view.search_mode == SearchMode::Data,
    {
        MessagesView {
            stream_messages_enabled: false,
            stream_messages_cancel_token: None,
            search_query: String::new(),
            search_mode: SearchMode::Data,
        }
    }
}

impl MessagesView {
    /// Makes the search look at something else. Says whether that changed
    /// anything.
    pub fn set_mode(&mut self, mode: SearchMode) -> (changed: bool)
        ensures
            changed == (mode != old(self).search_mode),
            final(self).search_mode == mode,
            final(self).stream_messages_enabled == old(self).stream_messages_enabled,
            final(self).stream_messages_cancel_token == old(self).stream_messages_cancel_token,
            final(self).search_query == old(self).search_query,
    {
        let changed = match (self.search_mode, mode) {
            (SearchMode::Data, SearchMode::Data) => false,
            (SearchMode::Id, SearchMode::Id) => false,
            _ => true,
        };
        self.search_mode = mode;
        changed
    }

    /// Empties the search. Says whether there was anything to empty.
    pub fn clear_search(&mut self) -> (changed: bool)
        ensures
            changed == (old(self).search_query@.len() > 0),
            final(self).search_query@ == Seq::<char>::empty(),
            final(self).search_mode == old(self).search_mode,
            final(self).stream_messages_enabled == old(self).stream_messages_enabled,
            final(self).stream_messages_cancel_token == old(self).stream_messages_cancel_token,
    {
        let changed = !self.search_query.as_str().is_empty();
        self.search_query = String::new();
        changed
    }

    /// Whether the search finds the message.
    pub fn matches(&self, message: &PubsubMessage) -> (found: bool)
        ensures
            found == is_match(*message, self.search_query@, self.search_mode),
    {
        let query = to_ascii_lowercase(self.search_query.as_str());
        let source = match self.search_mode {
            SearchMode::Data => to_ascii_lowercase(message.data.as_str()),
            SearchMode::Id => to_ascii_lowercase(message.id.as_str()),
        };
        contains(source.as_str(), query.as_str())
    }

    /// The places in `messages` of the messages that the search finds, in
    /// rising order.
    pub fn filter(&self, messages: &Vec<PubsubMessage>) -> (found: Vec<usize>)
        ensures
            found@ == matches_of(messages@, self.search_query@, self.search_mode),
    {
        let mut found: Vec<usize> = Vec::new();
        let mut i: usize = 0;
        while i < messages.len()
            invariant
                i <= messages@.len(),
                found@ == matches_of(
                    messages@.take(i as int),
                    self.search_query@,
                    self.search_mode,
                ),
            decreases messages@.len() - i,
        {
            proof {
                assert(messages@.take(i + 1).drop_last() =~= messages@.take(i as int));
                assert(messages@.take(i + 1).last() == messages@[i as int]);
            }
            if self.matches(&messages[i]) {
                found.push(i);
            }
            i += 1;
        }
        assert(messages@.take(messages@.len() as int) =~= messages@);
        found
    }

    /// Pulls one batch of messages, unless messages are being streamed: a
    /// stream under a token of its own that is cancelled when the pull
    /// window has passed.
    pub fn pull(&self, topic: &TopicName, sub_name: &SubscriptionName) -> (pull: Option<
        (Submission, DeferredCancel),
    >)
        ensures
            self.stream_messages_enabled ==> pull is None,
            !self.stream_messages_enabled ==> {
                &&& pull matches Some((submission, cancel))
                &&& submission == (Submission {
                    delay_millis: None,
                    message: FrontendMessage::StreamMessages(*topic, *sub_name, cancel.token),
                    must_arrive: true,
                })
                &&& cancel.delay_millis == PULL_WINDOW_MILLIS
            },
    {
        if self.stream_messages_enabled {
            None
        } else {
            let token = new_token();
            Some(pull_message_batch(topic, sub_name, &token))
        }
    }

    /// Turns streaming on or off. Turning it on starts a stream under a new
    /// token, which the view keeps. Turning it off hands out the token that
    /// the view kept, to be cancelled.
    pub fn toggle_stream(&mut self, topic: &TopicName, sub_name: &SubscriptionName) -> (toggle:
        StreamToggle)
        ensures
            final(self).stream_messages_enabled == !old(self).stream_messages_enabled,
            final(self).search_query == old(self).search_query,
            final(self).search_mode == old(self).search_mode,
            old(self).stream_messages_enabled ==> {
                &&& toggle.start is None
                &&& toggle.cancel == old(self).stream_messages_cancel_token
                &&& final(self).stream_messages_cancel_token is None
            },
            !old(self).stream_messages_enabled ==> {
                &&& toggle.cancel is None
                &&& final(self).stream_messages_cancel_token matches Some(token)
                &&& toggle.start == Some(
                    Submission {
                        delay_millis: None,
                        message: FrontendMessage::StreamMessages(*topic, *sub_name, token),
                        must_arrive: true,
                    },
                )
            },
    {
        if self.stream_messages_enabled {
            StreamToggle { start: None, cancel: self.stop_stream() }
        } else {
            self.stream_messages_enabled = true;
            let token = new_token();
            let submission = stream_messages(topic, sub_name, &token);
            self.stream_messages_cancel_token = Some(token);
            StreamToggle { start: Some(submission), cancel: None }
        }
    }

    /// The view as it is without its token, and the token that it keeps, to
    /// be cancelled.
    pub fn release(&self) -> (let_go: (MessagesView, Option<CancellationToken>))
        ensures
            let_go.0 == released(*self),
            let_go.1 == self.stream_messages_cancel_token,
    {
        let kept = match &self.stream_messages_cancel_token {
            Some(token) => Some(clone_token(token)),
            None => None,
        };
        let view = MessagesView {
            stream_messages_enabled: self.stream_messages_enabled,
            stream_messages_cancel_token: None,
            search_query: self.search_query.clone(),
            search_mode: self.search_mode,
        };
        (view, kept)
    }

    /// Stops streaming and hands out the token that the view kept, to be
    /// cancelled.
    pub fn stop_stream(&mut self) -> (kept: Option<CancellationToken>)
        ensures
            kept == old(self).stream_messages_cancel_token,
            *final(self) == stopped(*old(self)),
    {
        self.stream_messages_enabled = false;
        let mut kept: Option<CancellationToken> = None;
        core::mem::swap(&mut self.stream_messages_cancel_token, &mut kept);
        kept
    }
}

} // verus!
