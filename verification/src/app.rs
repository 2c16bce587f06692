//! The state of the interface and how it reacts: to the events of the
//! bridge, to the choice of a topic, and to a request to quit.
//!
//! A topic gets its subscription when it is first chosen: the interface asks
//! for one whenever a topic is newly chosen and it knows of none for it. The
//! answer takes a while, so a topic that is chosen, left and chosen again may
//! be asked for twice and get two subscriptions. Both are kept: the later
//! one serves the topic, the earlier one is set aside, and every subscription
//! the interface was ever told of is offered for deletion on the way out
//! until it is deleted. Messages are kept for the whole session.

use crate::actions::{create_subscription, refresh_topics, Submission};
use crate::column_settings::ColumnSettings;
use crate::exit_state::{after_choice, dialog_of, may_exit_after_show};
use crate::exit_state::{ExitChoice, ExitDialog, ExitState, SubscriptionCleanupState};
use crate::message::{BackendError, BackendMessage, FrontendMessage};
use crate::model::{PubsubMessage, SubscriptionName, TopicName};
use crate::settings::Settings;
use crate::string_map::StringMap;
use crate::ui::messages_view::{released, stopped};
use tokio_util::sync::CancellationToken;
use crate::ui::{MessagesView, PublishView};
use vstd::prelude::*;
use vstd::string::StringExecFns;

verus! {

/// How long the interface waits after a listing of the topics before it
/// asks for the next, in milliseconds.
pub const REFRESH_DELAY_MILLIS: u64 = 5000;

/// What a session remembers.
#[derive(Debug)]
pub struct Memory {
    /// The messages received, by topic, in the order of their arrival.
    pub messages: StringMap<Vec<PubsubMessage>>,
    /// The subscriptions that the session made to receive messages, by
    /// topic.
    pub subscriptions: StringMap<SubscriptionName>,
    /// The subscriptions that were made for a topic which has got another
    /// one since, oldest first.
    pub displaced_subscriptions: Vec<SubscriptionName>,
    pub column_settings: StringMap<ColumnSettings>,
    pub settings: Settings,
}

/// A notice for the user.
#[derive(Debug)]
pub enum Notification {
    Success(String),
    Error(BackendError),
}

/// What the interface does on an event of the bridge, beyond taking note.
#[derive(Debug)]
pub enum Reaction {
    Nothing,
    /// Show the notice.
    Notify(Notification),
    /// Send the command.
    Send(Submission),
}

/// What a frame does about leaving.
#[derive(Debug)]
pub struct ExitStep {
    /// Whether to refuse the window's request to close.
    pub cancel_close: bool,
    /// The dialog that the frame shows.
    pub dialog: ExitDialog,
    /// The deletion to ask of the bridge, if the user chose it.
    pub cleanup: Option<Submission>,
    /// Whether to close the window now.
    pub close: bool,
    /// The tokens to cancel: those of all streams, where the window closes.
    pub cancel: Vec<CancellationToken>,
}

/// What the choice of a topic asks for.
#[derive(Debug)]
pub struct TopicChoice {
    /// The request for a subscription, where the session has none for the
    /// topic.
    pub subscribe: Option<Submission>,
    /// The token to cancel: that of the stream of the topic chosen before,
    /// if its view kept one.
    pub cancel: Option<CancellationToken>,
}

/// The state of the interface.
#[derive(Debug)]
pub struct App {
    pub topic_names: Vec<TopicName>,
    pub selected_topic: Option<TopicName>,
    pub publish_views: StringMap<PublishView>,
    pub messages_views: StringMap<MessagesView>,
    pub exit_state: ExitState,
    pub memory: Memory,
    /// The message shown in full: its topic and its place among the
    /// topic's messages.
    pub selected_message: Option<(TopicName, usize)>,
}

impl Default for Memory {
    fn default() -> (memory: Self)
        ensures
            memory.messages@ == Map::<Seq<char>, Vec<PubsubMessage>>::empty(),
            memory.subscriptions@ == Map::<Seq<char>, SubscriptionName>::empty(),
            memory.displaced_subscriptions@ == Seq::<SubscriptionName>::empty(),
            memory.column_settings@ == Map::<Seq<char>, ColumnSettings>::empty(),
            memory.settings == (Settings {
                view: crate::settings::ViewSettings { show_publish_message_panel: true },
            }),
    {
        Memory {
            messages: StringMap::new(),
            subscriptions: StringMap::new(),
            displaced_subscriptions: Vec::new(),
            column_settings: StringMap::new(),
            settings: Settings::default(),
        }
    }
}

/// The text of the notice that the broker client is ready.
pub open spec fn authenticated_text(project_id: Seq<char>) -> Seq<char> {
    "Successfully authenticated to: "@ + project_id + "."@
}

/// Whether an outcome says that the subscription of this name was deleted.
pub open spec fn is_deletion_of(outcome: Result<SubscriptionName, SubscriptionName>, name: Seq<char>)
    -> bool {
    match outcome {
        Ok(deleted) => deleted@ == name,
        Err(_) => false,
    }
}

/// Whether a batch deletion deleted the subscription of this name.
pub open spec fn is_deleted(
    results: Seq<Result<SubscriptionName, SubscriptionName>>,
    name: Seq<char>,
) -> bool {
    exists|i: int| 0 <= i < results.len() && is_deletion_of(#[trigger] results[i], name)
}

/// The subscriptions that are left after a batch deletion: those that it did
/// not delete.
pub open spec fn subscriptions_left(
    subscriptions: Map<Seq<char>, SubscriptionName>,
    results: Seq<Result<SubscriptionName, SubscriptionName>>,
) -> Map<Seq<char>, SubscriptionName> {
    Map::new(
        |topic: Seq<char>|
            subscriptions.contains_key(topic) && !is_deleted(results, subscriptions[topic]@),
        |topic: Seq<char>| subscriptions[topic],
    )
}

/// The messages of a topic after one more has arrived.
pub open spec fn history_with(
    messages: Map<Seq<char>, Vec<PubsubMessage>>,
    topic: Seq<char>,
    message: PubsubMessage,
) -> Seq<PubsubMessage> {
    if messages.contains_key(topic) {
        messages[topic]@.push(message)
    } else {
        seq![message]
    }
}

/// The subscriptions that serve the topics of a session, in the order in
/// which the topics were first subscribed.
pub open spec fn subscription_names_of(subscriptions: StringMap<SubscriptionName>) -> Seq<
    SubscriptionName,
> {
    subscriptions.keys().map_values(|topic: Seq<char>| subscriptions@[topic])
}

/// All subscriptions that a session keeps track of: those that serve its
/// topics, then those set aside.
pub open spec fn tracked_names(memory: Memory) -> Seq<SubscriptionName> {
    subscription_names_of(memory.subscriptions) + memory.displaced_subscriptions@
}

/// The names that a batch deletion leaves of a list: those that it did not
/// delete, in their order.
pub open spec fn names_left(
    names: Seq<SubscriptionName>,
    results: Seq<Result<SubscriptionName, SubscriptionName>>,
) -> Seq<SubscriptionName>
    decreases names.len(),
{
    if names.len() == 0 {
        Seq::empty()
    } else if is_deleted(results, names.last()@) {
        names_left(names.drop_last(), results)
    } else {
        names_left(names.drop_last(), results).push(names.last())
    }
}

/// The subscriptions set aside after one more subscription has arrived for
/// a topic: the one that served the topic before, if there was one, joins
/// them.
pub open spec fn displaced_with(memory: Memory, topic: Seq<char>) -> Seq<SubscriptionName> {
    if memory.subscriptions@.contains_key(topic) {
        memory.displaced_subscriptions@.push(memory.subscriptions@[topic])
    } else {
        memory.displaced_subscriptions@
    }
}

/// Whether the session has subscriptions left.
pub open spec fn has_subscriptions(app: App) -> bool {
    app.memory.subscriptions@ != Map::<Seq<char>, SubscriptionName>::empty()
        || app.memory.displaced_subscriptions@.len() > 0
}

/// The tokens that the first `upto` views of messages keep, in the order of
/// the views.
pub open spec fn tokens_kept(views: StringMap<MessagesView>, upto: nat) -> Seq<CancellationToken>
    decreases upto,
{
    if upto == 0 {
        Seq::empty()
    } else {
        let before = tokens_kept(views, (upto - 1) as nat);
        match views@[views.keys()[upto - 1]].stream_messages_cancel_token {
            Some(token) => before.push(token),
            None => before,
        }
    }
}

/// The token that the view of a topic keeps, if the topic has a view and the
/// view a token.
pub open spec fn token_of(views: StringMap<MessagesView>, topic: Option<TopicName>) -> Option<
    CancellationToken,
> {
    match topic {
        Some(topic) => if views@.contains_key(topic@) {
            views@[topic@].stream_messages_cancel_token
        } else {
            None
        },
        None => None,
    }
}

/// The command that asks for the next listing of topics.
pub open spec fn next_refresh() -> Submission {
    Submission {
        delay_millis: Some(REFRESH_DELAY_MILLIS),
        message: FrontendMessage::RefreshTopicsRequest,
        must_arrive: false,
    }
}

/// The state of leaving after a frame in which the window may have asked
/// to close and the user may have chosen in the dialog.
pub open spec fn exit_state_after(
    state: ExitState,
    close_requested: bool,
    has_subscriptions: bool,
    choice: Option<ExitChoice>,
) -> ExitState {
    let asked = if close_requested && !state.can_exit {
        ExitState { show_exit_dialogue: true, ..state }
    } else {
        state
    };
    let shown = ExitState { can_exit: may_exit_after_show(asked, has_subscriptions), ..asked };
    match choice {
        Some(choice) => after_choice(shown, has_subscriptions, choice),
        None => shown,
    }
}

/// The dialog of a frame in which the window may have asked to close.
pub open spec fn exit_dialog_of(state: ExitState, close_requested: bool, has_subscriptions: bool)
    -> ExitDialog {
    dialog_of(
        ExitState {
            show_exit_dialogue: state.show_exit_dialogue || (close_requested && !state.can_exit),
            ..state
        },
        has_subscriptions,
    )
}

fn was_deleted(results: &Vec<Result<SubscriptionName, SubscriptionName>>, name: &SubscriptionName)
    -> (deleted: bool)
    ensures
        deleted == is_deleted(results@, name@),
{
    let mut i: usize = 0;
    while i < results.len()
        invariant
            i <= results@.len(),
            forall|j: int| 0 <= j < i ==> !is_deletion_of(#[trigger] results@[j], name@),
        decreases results@.len() - i,
    {
        match &results[i] {
            Ok(deleted) => {
                if deleted.0 == name.0 {
                    return true;
                }
            },
            Err(_) => {},
        }
        i += 1;
    }
    false
}

impl App {
    /// The interface at the start of a session, with what it remembers of
    /// earlier ones, and its first command: list the topics.
    pub fn new(memory: Memory) -> (started: (App, Submission))
        ensures
            started.0.topic_names@ == Seq::<TopicName>::empty(),
            started.0.selected_topic is None,
            started.0.publish_views@ == Map::<Seq<char>, PublishView>::empty(),
            started.0.messages_views@ == Map::<Seq<char>, MessagesView>::empty(),
            started.0.exit_state == (ExitState {
                show_exit_dialogue: false,
                can_exit: false,
                subscription_cleanup_state: SubscriptionCleanupState::Idle,
            }),
            started.0.memory == memory,
            started.0.selected_message is None,
            started.1 == (Submission {
                delay_millis: None,
                message: FrontendMessage::RefreshTopicsRequest,
                must_arrive: false,
            }),
    {
        let app = App {
            topic_names: Vec::new(),
            selected_topic: None,
            publish_views: StringMap::new(),
            messages_views: StringMap::new(),
            exit_state: ExitState::default(),
            memory,
            selected_message: None,
        };
        (app, refresh_topics(None))
    }

    /// Takes one event of the bridge. A listing of the topics is answered
    /// with exactly one command, the request for the next listing after the
    /// refresh delay; no other event is answered with a command. A
    /// subscription that arrives is kept, and so is every subscription kept
    /// before.
    pub fn handle_backend_message(&mut self, message: BackendMessage) -> (reaction: Reaction)
        ensures
            match message {
                BackendMessage::ClientInitialised(project_id) => {
                    &&& *final(self) == *old(self)
                    &&& reaction matches Reaction::Notify(Notification::Success(text))
                    &&& text@ == authenticated_text(project_id@)
                },
                BackendMessage::TopicsUpdated(topic_names) => {
                    &&& *final(self) == (App { topic_names, ..*old(self) })
                    &&& reaction == Reaction::Send(next_refresh())
                },
                BackendMessage::SubscriptionCreated(topic, subscription) => {
                    &&& final(self).memory.subscriptions@ == old(self).memory.subscriptions@.insert(
                        topic@,
                        subscription,
                    )
                    &&& final(self).memory.displaced_subscriptions@ == displaced_with(
                        old(self).memory,
                        topic@,
                    )
                    &&& forall|name: SubscriptionName| #[trigger]
                        tracked_names(old(self).memory).contains(name) ==> tracked_names(
                            final(self).memory,
                        ).contains(name)
                    &&& tracked_names(final(self).memory).contains(subscription)
                    &&& *final(self) == (App {
                        memory: Memory {
                            subscriptions: final(self).memory.subscriptions,
                            displaced_subscriptions: final(self).memory.displaced_subscriptions,
                            ..old(self).memory
                        },
                        ..*old(self)
                    })
                    &&& reaction == Reaction::Nothing
                },
                BackendMessage::MessageReceived(topic, received) => {
                    &&& final(self).memory.messages@.dom() == old(self).memory.messages@.dom().insert(
                        topic@,
                    )
                    &&& final(self).memory.messages@[topic@]@ == history_with(
                        old(self).memory.messages@,
                        topic@,
                        received,
                    )
                    &&& forall|other: Seq<char>|
                        other != topic@ && #[trigger] old(self).memory.messages@.contains_key(other)
                            ==> final(self).memory.messages@[other] == old(
                            self,
                        ).memory.messages@[other]
                    &&& *final(self) == (App {
                        memory: Memory {
                            messages: final(self).memory.messages,
                            ..old(self).memory
                        },
                        ..*old(self)
                    })
                    &&& reaction == Reaction::Nothing
                },
                BackendMessage::SubscriptionsDeleted(results) => {
                    &&& final(self).memory.subscriptions@ == subscriptions_left(
                        old(self).memory.subscriptions@,
                        results@,
                    )
                    &&& final(self).memory.displaced_subscriptions@ == names_left(
                        old(self).memory.displaced_subscriptions@,
                        results@,
                    )
                    &&& *final(self) == (App {
                        memory: Memory {
                            subscriptions: final(self).memory.subscriptions,
                            displaced_subscriptions: final(self).memory.displaced_subscriptions,
                            ..old(self).memory
                        },
                        exit_state: ExitState {
                            subscription_cleanup_state: SubscriptionCleanupState::Complete,
                            ..old(self).exit_state
                        },
                        ..*old(self)
                    })
                    &&& reaction == Reaction::Nothing
                },
                BackendMessage::Error(error) => {
                    &&& *final(self) == *old(self)
                    &&& reaction == Reaction::Notify(Notification::Error(error))
                },
            },
    {
        match message {
            BackendMessage::ClientInitialised(project_id) => {
                let mut text = String::from_str("Successfully authenticated to: ");
                text.append(project_id.as_str());
                text.append(".");
                Reaction::Notify(Notification::Success(text))
            },
            BackendMessage::TopicsUpdated(topic_names) => {
                self.topic_names = topic_names;
                Reaction::Send(refresh_topics(Some(REFRESH_DELAY_MILLIS)))
            },
            BackendMessage::SubscriptionCreated(topic, subscription) => {
                let ghost before = self.memory;
                proof {
                    use_type_invariant(&self.memory.subscriptions);
                }
                match self.memory.subscriptions.insert(topic.0, subscription) {
                    Some(displaced) => {
                        self.memory.displaced_subscriptions.push(displaced);
                    },
                    None => {},
                }
                proof {
                    use_type_invariant(&self.memory.subscriptions);
                    lemma_created_subscription_is_tracked(
                        before,
                        self.memory,
                        topic@,
                        subscription,
                    );
                }
                Reaction::Nothing
            },
            BackendMessage::MessageReceived(topic, received) => {
                let ghost before = self.memory.messages@;
                let mut history: Vec<PubsubMessage> =
                    match self.memory.messages.remove(topic.0.as_str()) {
                    Some(history) => history,
                    None => Vec::new(),
                };
                history.push(received);
                proof {
                    assert(history@ =~= history_with(before, topic@, received));
                }
                self.memory.messages.insert(topic.0, history);
                proof {
                    assert(self.memory.messages@.dom() =~= before.dom().insert(topic@));
                }
                Reaction::Nothing
            },
            BackendMessage::SubscriptionsDeleted(results) => {
                let left = Self::subscriptions_left(&self.memory.subscriptions, &results);
                let set_aside = Self::names_left(&self.memory.displaced_subscriptions, &results);
                self.memory.subscriptions = left;
                self.memory.displaced_subscriptions = set_aside;
                self.exit_state.subscription_cleanup_state = SubscriptionCleanupState::Complete;
                Reaction::Nothing
            },
            BackendMessage::Error(error) => Reaction::Notify(Notification::Error(error)),
        }
    }

    /// The subscriptions that a batch deletion leaves of those that serve
    /// the topics.
    pub fn subscriptions_left(
        subscriptions: &StringMap<SubscriptionName>,
        results: &Vec<Result<SubscriptionName, SubscriptionName>>,
    ) -> (left: StringMap<SubscriptionName>)
        ensures
            left@ == subscriptions_left(subscriptions@, results@),
    {
        let count = subscriptions.len();
        let mut left: StringMap<SubscriptionName> = StringMap::new();
        let mut i: usize = 0;
        while i < count
            invariant
                i <= count,
                count == subscriptions.keys().len(),
                subscriptions.keys().no_duplicates(),
                forall|k: Seq<char>|
                    subscriptions.keys().contains(k) <==> #[trigger] subscriptions@.contains_key(k),
                forall|k: Seq<char>| #[trigger]
                    left@.contains_key(k) <==> (exists|j: int|
                        0 <= j < i && subscriptions.keys()[j] == k) && !is_deleted(
                        results@,
                        subscriptions@[k]@,
                    ),
                forall|k: Seq<char>| #[trigger]
                    left@.contains_key(k) ==> left@[k] == subscriptions@[k],
            decreases count - i,
        {
            match subscriptions.entry(i) {
                Some((topic, name)) => {
                    if !was_deleted(results, name) {
                        left.insert(topic.clone(), name.clone());
                    }
                },
                None => {},
            }
            i += 1;
        }
        proof {
            assert forall|k: Seq<char>| #[trigger]
                subscriptions@.contains_key(k) implies exists|j: int|
                0 <= j < count && subscriptions.keys()[j] == k by {
                let j = subscriptions.keys().index_of(k);
                assert(subscriptions.keys()[j] == k);
            }
            assert(left@ =~= subscriptions_left(subscriptions@, results@));
        }
        left
    }

    /// The names that a batch deletion leaves of a list.
    pub fn names_left(
        names: &Vec<SubscriptionName>,
        results: &Vec<Result<SubscriptionName, SubscriptionName>>,
    ) -> (left: Vec<SubscriptionName>)
        ensures
            left@ == names_left(names@, results@),
    {
        let mut left: Vec<SubscriptionName> = Vec::new();
        let mut i: usize = 0;
        while i < names.len()
            invariant
                i <= names@.len(),
                left@ == names_left(names@.take(i as int), results@),
            decreases names@.len() - i,
        {
            proof {
                assert(names@.take(i + 1).drop_last() =~= names@.take(i as int));
                assert(names@.take(i + 1).last() == names@[i as int]);
            }
            if !was_deleted(results, &names[i]) {
                left.push(names[i].clone());
            }
            i += 1;
        }
        assert(names@.take(names@.len() as int) =~= names@);
        left
    }

    /// Whether `topic_name` is the chosen topic.
    pub fn is_topic_selected(&self, topic_name: &TopicName) -> (selected: bool)
        ensures
            selected == (self.selected_topic matches Some(chosen) && chosen@ == topic_name@),
    {
        match &self.selected_topic {
            Some(chosen) => chosen.0 == topic_name.0,
            None => false,
        }
    }

    /// Chooses a topic. Choosing the chosen topic does nothing. Otherwise
    /// the stream of the topic chosen before is stopped and its token handed
    /// out to be cancelled, no message is shown in full any more, and a
    /// subscription is asked for if the session has none for the topic.
    pub fn on_topic_click(&mut self, topic_name: &TopicName) -> (choice: TopicChoice)
        ensures
            (old(self).selected_topic matches Some(chosen) && chosen@ == topic_name@) ==> {
                &&& *final(self) == *old(self)
                &&& choice.subscribe is None
                &&& choice.cancel is None
            },
            !(old(self).selected_topic matches Some(chosen) && chosen@ == topic_name@) ==> {
                &&& final(self).selected_topic == Some(*topic_name)
                &&& final(self).selected_message is None
                &&& final(self).topic_names == old(self).topic_names
                &&& final(self).publish_views == old(self).publish_views
                &&& final(self).exit_state == old(self).exit_state
                &&& final(self).memory == old(self).memory
                &&& final(self).messages_views.keys() == old(self).messages_views.keys()
                &&& final(self).messages_views@ == (match old(self).selected_topic {
                    Some(before) => if old(self).messages_views@.contains_key(before@) {
                        old(self).messages_views@.insert(
                            before@,
                            stopped(old(self).messages_views@[before@]),
                        )
                    } else {
                        old(self).messages_views@
                    },
                    None => old(self).messages_views@,
                })
                &&& choice.cancel == token_of(old(self).messages_views, old(self).selected_topic)
                &&& choice.subscribe == if old(self).memory.subscriptions@.contains_key(
                    topic_name@,
                ) {
                    None
                } else {
                    Some(
                        Submission {
                            delay_millis: None,
                            message: FrontendMessage::CreateSubscriptionRequest(*topic_name),
                            must_arrive: false,
                        },
                    )
                }
            },
    {
        if self.is_topic_selected(topic_name) {
            return TopicChoice { subscribe: None, cancel: None };
        }
        let mut before: Option<TopicName> = None;
        core::mem::swap(&mut self.selected_topic, &mut before);
        let mut cancel: Option<CancellationToken> = None;
        match before {
            Some(before) => {
                let halted = match self.messages_views.get(before.0.as_str()) {
                    Some(view) => {
                        let (mut view, kept) = view.release();
                        view.stream_messages_enabled = false;
                        Some((view, kept))
                    },
                    None => None,
                };
                match halted {
                    Some((view, kept)) => {
                        cancel = kept;
                        self.messages_views.insert(before.0, view);
                    },
                    None => {},
                }
            },
            None => {},
        }
        self.selected_message = None;
        self.selected_topic = Some(topic_name.clone());
        let subscribe = if !self.memory.subscriptions.contains_key(topic_name.0.as_str()) {
            Some(create_subscription(topic_name))
        } else {
            None
        };
        TopicChoice { subscribe, cancel }
    }

    /// Shows the message at place `index` of the chosen topic in full, if a
    /// topic is chosen.
    pub fn select_message(&mut self, index: usize)
        ensures
            *final(self) == (App {
                selected_message: match old(self).selected_topic {
                    Some(topic) => Some((topic, index)),
                    None => old(self).selected_message,
                },
                ..*old(self)
            }),
    {
        match &self.selected_topic {
            Some(topic) => {
                self.selected_message = Some((topic.clone(), index));
            },
            None => {},
        }
    }

    /// The message that is shown in full, if one is chosen and it is among
    /// the messages kept.
    pub fn selected_message(&self) -> (shown: Option<&PubsubMessage>)
        ensures
            shown == (match self.selected_message {
                Some((topic, index)) => if self.memory.messages@.contains_key(topic@) && index
                    < self.memory.messages@[topic@]@.len() {
                    Some(&self.memory.messages@[topic@]@[index as int])
                } else {
                    None
                },
                None => None,
            }),
    {
        match &self.selected_message {
            Some((topic, index)) => match self.memory.messages.get(topic.0.as_str()) {
                Some(history) => if *index < history.len() {
                    Some(&history[*index])
                } else {
                    None
                },
                None => None,
            },
            None => None,
        }
    }

    /// The subscriptions that the session keeps track of: those that serve
    /// its topics, in the order in which the topics were first subscribed,
    /// then those set aside.
    pub fn subscription_names(&self) -> (names: Vec<SubscriptionName>)
        ensures
            names@ == tracked_names(self.memory),
            (names@.len() > 0) == has_subscriptions(*self),
    {
        let count = self.memory.subscriptions.len();
        let mut names: Vec<SubscriptionName> = Vec::new();
        let mut i: usize = 0;
        while i < count
            invariant
                i <= count,
                count == self.memory.subscriptions.keys().len(),
                names@.len() == i,
                forall|j: int|
                    0 <= j < i ==> #[trigger] names@[j]
                        == self.memory.subscriptions@[self.memory.subscriptions.keys()[j]],
            decreases count - i,
        {
            match self.memory.subscriptions.entry(i) {
                Some((_, name)) => {
                    names.push(name.clone());
                },
                None => {},
            }
            i += 1;
        }
        assert(names@ =~= subscription_names_of(self.memory.subscriptions));
        let mut j: usize = 0;
        while j < self.memory.displaced_subscriptions.len()
            invariant
                j <= self.memory.displaced_subscriptions@.len(),
                names@ == subscription_names_of(self.memory.subscriptions)
                    + self.memory.displaced_subscriptions@.take(j as int),
            decreases self.memory.displaced_subscriptions@.len() - j,
        {
            names.push(self.memory.displaced_subscriptions[j].clone());
            assert(names@ =~= subscription_names_of(self.memory.subscriptions)
                + self.memory.displaced_subscriptions@.take(j + 1));
            j += 1;
        }
        proof {
            assert(self.memory.displaced_subscriptions@.take(
                self.memory.displaced_subscriptions@.len() as int,
            ) =~= self.memory.displaced_subscriptions@);
            use_type_invariant(&self.memory.subscriptions);
            self.memory.subscriptions.lemma_keys();
        }
        names
    }

    /// The dialog about leaving that this frame shows, given whether the
    /// window asks to close. Nothing changes.
    pub fn exit_dialog(&self, close_requested: bool) -> (dialog: ExitDialog)
        ensures
            dialog == exit_dialog_of(self.exit_state, close_requested, has_subscriptions(*self)),
    {
        let mut state = self.exit_state;
        if close_requested && !state.can_exit {
            state.show_exit_dialogue = true;
        }
        let names = self.subscription_names();
        state.show(&names)
    }

    /// One frame of leaving: takes note of the window's request to close and
    /// of the user's choice in the dialog of this frame, and says what to
    /// do. While the program may not quit, a request to close is refused and
    /// brings the dialog up. Once it may, every stream is let go, its token
    /// handed out to be cancelled, and the window is to be closed.
    pub fn handle_exit(&mut self, close_requested: bool, choice: Option<ExitChoice>) -> (step:
        ExitStep)
        ensures
            step.cancel_close == (close_requested && !old(self).exit_state.can_exit),
            step.dialog == exit_dialog_of(
                old(self).exit_state,
                close_requested,
                has_subscriptions(*old(self)),
            ),
            (step.dialog == ExitDialog::Confirm && choice == Some(
                ExitChoice::DeleteSubscriptions,
            )) ==> {
                &&& step.cleanup matches Some(sent)
                &&& sent.delay_millis is None
                &&& !sent.must_arrive
                &&& sent.message matches FrontendMessage::DeleteSubscriptions(names)
                &&& names@ == tracked_names(old(self).memory)
            },
            !(step.dialog == ExitDialog::Confirm && choice == Some(
                ExitChoice::DeleteSubscriptions,
            )) ==> step.cleanup is None,
            final(self).exit_state == exit_state_after(
                old(self).exit_state,
                close_requested,
                has_subscriptions(*old(self)),
                choice,
            ),
            step.close == final(self).exit_state.can_exit,
            step.cancel@ == if step.close {
                tokens_kept(old(self).messages_views, old(self).messages_views.keys().len())
            } else {
                Seq::<CancellationToken>::empty()
            },
            final(self).topic_names == old(self).topic_names,
            final(self).selected_topic == old(self).selected_topic,
            final(self).publish_views == old(self).publish_views,
            final(self).memory == old(self).memory,
            final(self).selected_message == old(self).selected_message,
            final(self).messages_views.keys() == old(self).messages_views.keys(),
            forall|topic: Seq<char>| #[trigger]
                old(self).messages_views@.contains_key(topic) ==> final(self).messages_views@[topic]
                    == if step.close {
                    released(old(self).messages_views@[topic])
                } else {
                    old(self).messages_views@[topic]
                },
            final(self).messages_views@.dom() == old(self).messages_views@.dom(),
    {
        let cancel_close = close_requested && !self.exit_state.can_exit;
        if cancel_close {
            self.exit_state.show_exit_dialogue = true;
        }
        let names = self.subscription_names();
        let dialog = self.exit_state.show(&names);
        let cleanup = match choice {
            Some(choice) => self.exit_state.on_choice(choice, names),
            None => None,
        };
        let close = self.exit_state.can_exit;
        let cancel = if close {
            self.release_streams()
        } else {
            Vec::new()
        };
        ExitStep { cancel_close, dialog, cleanup, close, cancel }
    }

    /// Lets every stream go: takes the token out of each view of messages
    /// that keeps one and hands the tokens out, in the order of the views,
    /// to be cancelled.
    pub fn release_streams(&mut self) -> (cancel: Vec<CancellationToken>)
        ensures
            cancel@ == tokens_kept(old(self).messages_views, old(self).messages_views.keys().len()),
            final(self).messages_views.keys() == old(self).messages_views.keys(),
            final(self).messages_views@.dom() == old(self).messages_views@.dom(),
            forall|topic: Seq<char>| #[trigger]
                old(self).messages_views@.contains_key(topic) ==> final(self).messages_views@[topic]
                    == released(old(self).messages_views@[topic]),
            *final(self) == (App { messages_views: final(self).messages_views, ..*old(self) }),
    {
        let ghost before = self.messages_views;
        let count = self.messages_views.len();
        let mut cancel: Vec<CancellationToken> = Vec::new();
        let mut i: usize = 0;
        while i < count
            invariant
                i <= count,
                count == before.keys().len(),
                before.keys().no_duplicates(),
                forall|k: Seq<char>| before.keys().contains(k) <==> #[trigger] before@.contains_key(k),
                self.messages_views.keys() == before.keys(),
                self.messages_views@.dom() == before@.dom(),
                cancel@ == tokens_kept(before, i as nat),
                forall|j: int|
                    0 <= j < i ==> self.messages_views@[#[trigger] before.keys()[j]] == released(
                        before@[before.keys()[j]],
                    ),
                forall|j: int|
                    i <= j < count ==> self.messages_views@[#[trigger] before.keys()[j]]
                        == before@[before.keys()[j]],
                *self == (App { messages_views: self.messages_views, ..*old(self) }),
            decreases count - i,
        {
            let renewed = match self.messages_views.entry(i) {
                Some((topic, view)) => Some((topic.clone(), view.release())),
                None => None,
            };
            match renewed {
                Some((topic, (view, kept))) => {
                    proof {
                        assert(before@.contains_key(before.keys()[i as int]));
                    }
                    match kept {
                        Some(token) => {
                            cancel.push(token);
                        },
                        None => {},
                    }
                    self.messages_views.insert(topic, view);
                    proof {
                        assert(self.messages_views@.dom() =~= before@.dom());
                    }
                },
                None => {},
            }
            i += 1;
        }
        proof {
            assert forall|topic: Seq<char>| #[trigger]
                before@.contains_key(topic) implies self.messages_views@[topic] == released(
                before@[topic],
            ) by {
                let j = before.keys().index_of(topic);
                assert(before.keys()[j] == topic);
            }
        }
        cancel
    }
}

/// A subscription that arrives is kept track of, and every subscription
/// kept track of before it still is: where the topic had one already, that
/// one is set aside, not forgotten.
pub proof fn lemma_created_subscription_is_tracked(
    before: Memory,
    after: Memory,
    topic: Seq<char>,
    subscription: SubscriptionName,
)
    requires
        before.subscriptions.well_formed(),
        after.subscriptions.well_formed(),
        after.subscriptions@ == before.subscriptions@.insert(topic, subscription),
        after.subscriptions.keys() == if before.subscriptions@.contains_key(topic) {
            before.subscriptions.keys()
        } else {
            before.subscriptions.keys().push(topic)
        },
        after.displaced_subscriptions@ == displaced_with(before, topic),
    ensures
        tracked_names(after).contains(subscription),
        forall|name: SubscriptionName| #[trigger]
            tracked_names(before).contains(name) ==> tracked_names(after).contains(name),
{
    before.subscriptions.lemma_keys();
    after.subscriptions.lemma_keys();
    let keys_before = before.subscriptions.keys();
    let keys_after = after.subscriptions.keys();
    let at = keys_after.index_of(topic);
    assert(after.subscriptions@.contains_key(topic));
    assert(keys_after[at] == topic);
    assert(tracked_names(after)[at] == subscription);
    assert forall|name: SubscriptionName| #[trigger]
        tracked_names(before).contains(name) implies tracked_names(after).contains(name) by {
        let i = tracked_names(before).index_of(name);
        assert(tracked_names(before)[i] == name);
        if i < keys_before.len() {
            let key = keys_before[i];
            assert(keys_before.contains(key));
            if key == topic {
                let j = (keys_after.len() + before.displaced_subscriptions@.len()) as int;
                assert(tracked_names(after)[j] == name);
            } else {
                assert(keys_after[i] == key);
                assert(tracked_names(after)[i] == name);
            }
        } else {
            let j = i - keys_before.len() + keys_after.len();
            assert(tracked_names(after)[j] == name);
        }
    }
}

/// Two subscriptions that arrive for one topic, one after the other, are
/// both kept track of, each under its own name.
pub proof fn lemma_both_subscriptions_are_tracked(
    before: Memory,
    between: Memory,
    after: Memory,
    topic: Seq<char>,
    first: SubscriptionName,
    second: SubscriptionName,
)
    requires
        before.subscriptions.well_formed(),
        between.subscriptions.well_formed(),
        after.subscriptions.well_formed(),
        between.subscriptions@ == before.subscriptions@.insert(topic, first),
        between.subscriptions.keys() == if before.subscriptions@.contains_key(topic) {
            before.subscriptions.keys()
        } else {
            before.subscriptions.keys().push(topic)
        },
        between.displaced_subscriptions@ == displaced_with(before, topic),
        after.subscriptions@ == between.subscriptions@.insert(topic, second),
        after.subscriptions.keys() == between.subscriptions.keys(),
        after.displaced_subscriptions@ == displaced_with(between, topic),
    ensures
        tracked_names(after).contains(first),
        tracked_names(after).contains(second),
{
    lemma_created_subscription_is_tracked(before, between, topic, first);
    lemma_created_subscription_is_tracked(between, after, topic, second);
}

/// What a batch deletion did not delete stays kept track of: a name that is
/// set aside and not among the deleted is still set aside afterwards.
pub proof fn lemma_undeleted_name_is_left(
    names: Seq<SubscriptionName>,
    results: Seq<Result<SubscriptionName, SubscriptionName>>,
    name: SubscriptionName,
)
    requires
        names.contains(name),
        !is_deleted(results, name@),
    ensures
        names_left(names, results).contains(name),
    decreases names.len(),
{
    if names.last() == name {
        let left = names_left(names.drop_last(), results);
        assert(left.push(name)[left.len() as int] == name);
    } else {
        let i = names.index_of(name);
        assert(names.drop_last()[i] == name);
        lemma_undeleted_name_is_left(names.drop_last(), results, name);
        let left = names_left(names.drop_last(), results);
        let j = left.index_of(name);
        if !is_deleted(results, names.last()@) {
            assert(left.push(names.last())[j] == name);
        }
    }
}

} // verus!
