//! The life of one stream of messages.
//!
//! A stream task opens the broker's stream for a subscription and forwards
//! each delivered message to the interface, acknowledging it to the broker
//! as it goes, until the stream ends or the task's token is cancelled.
//! Cancelling stops what would come next; what was forwarded stays
//! forwarded, and a message in hand is seen through: a cancellation that
//! arrives while a message is being acknowledged and sent waits until the
//! send is reported. A pull of one batch is the same task, cancelled after a
//! fixed delay.

use crate::message::{BackendError, BackendMessage};
use crate::model::pubsub_message::is_received;
use crate::model::pubsub_message_to_publish::WireMessage;
use crate::model::{PubsubMessage, SubscriptionName, TopicName};
use vstd::prelude::*;
use vstd::utf8::valid_utf8;

verus! {

/// Where a stream task stands.
#[derive(Debug, Clone, Copy, PartialEq, Eq, Structural)]
pub enum StreamState {
    /// The broker has been asked to open the stream.
    Opening,
    /// The stream is open and the task waits for the next message.
    Receiving,
    /// A message has been taken off the stream and is being acknowledged
    /// and sent on.
    Forwarding,
    /// As `Forwarding`, and the token has been cancelled meanwhile: the
    /// task is over as soon as the message is sent.
    Stopping,
    /// The task is over: the stream could not be opened, it ended, or the
    /// token was cancelled.
    Finished,
}

/// What can happen to a stream task, without the message that a delivery
/// brings.
#[derive(Debug, Clone, Copy, PartialEq, Eq, Structural)]
pub enum StreamSignal {
    Opened,
    OpenFailed,
    Delivered,
    Sent,
    Ended,
    Cancelled,
}

/// What happened to a stream task.
#[derive(Debug)]
pub enum StreamEvent {
    /// The broker opened the stream.
    Opened,
    /// The broker refused to open the stream.
    OpenFailed,
    /// The stream yielded a message.
    Delivered(WireMessage),
    /// The message in hand has been acknowledged and its event sent.
    Sent,
    /// The stream yielded its last message before.
    Ended,
    /// The task's token was cancelled.
    Cancelled,
}

/// What the task does next.
#[derive(Debug)]
pub enum StreamAction {
    /// Nothing goes out. An unfinished task goes on waiting.
    Nothing,
    /// Send the event, which reports that the stream could not be opened.
    Report(BackendMessage),
    /// Acknowledge the delivered message to the broker, whatever the
    /// acknowledgement gives, then send the event, which carries the
    /// message, and report the send.
    AcknowledgeAndForward(BackendMessage),
}

impl StreamEvent {
    /// The signal of the event.
    pub open spec fn signal(&self) -> StreamSignal {
        match self {
            StreamEvent::Opened => StreamSignal::Opened,
            StreamEvent::OpenFailed => StreamSignal::OpenFailed,
            StreamEvent::Delivered(_) => StreamSignal::Delivered,
            StreamEvent::Sent => StreamSignal::Sent,
            StreamEvent::Ended => StreamSignal::Ended,
            StreamEvent::Cancelled => StreamSignal::Cancelled,
        }
    }
}

/// The state after a signal. A signal that the state does not wait for
/// changes nothing, and nothing leads out of `Finished`. A cancellation ends
/// the task at once, except while a message is in hand: then it ends the
/// task when the send is reported.
pub open spec fn next_state(state: StreamState, signal: StreamSignal) -> StreamState {
    match (state, signal) {
        (StreamState::Finished, _) => StreamState::Finished,
        (StreamState::Forwarding, StreamSignal::Cancelled) => StreamState::Stopping,
        (StreamState::Forwarding, StreamSignal::Sent) => StreamState::Receiving,
        (StreamState::Stopping, StreamSignal::Sent) => StreamState::Finished,
        (StreamState::Stopping, _) => StreamState::Stopping,
        (_, StreamSignal::Cancelled) => StreamState::Finished,
        (StreamState::Opening, StreamSignal::Opened) => StreamState::Receiving,
        (StreamState::Opening, StreamSignal::OpenFailed) => StreamState::Finished,
        (StreamState::Receiving, StreamSignal::Delivered) => StreamState::Forwarding,
        (StreamState::Receiving, StreamSignal::Ended) => StreamState::Finished,
        _ => state,
    }
}

/// Whether the task has been told to stop: it is over, or it is over once
/// the message in hand is sent.
pub open spec fn is_stopped(state: StreamState) -> bool {
    state == StreamState::Finished || state == StreamState::Stopping
}

/// Whether a message is in hand: taken off the stream and not yet reported
/// as sent.
pub open spec fn is_in_hand(state: StreamState) -> bool {
    state == StreamState::Forwarding || state == StreamState::Stopping
}

/// The number of sends that a task is told of over a run of signals, each
/// for a message in hand.
pub open spec fn sent(state: StreamState, signals: Seq<StreamSignal>) -> nat
    decreases signals.len(),
{
    if signals.len() == 0 {
        0
    } else {
        let before = signals.drop_last();
        let last: nat = if is_in_hand(state_after(state, before)) && signals.last()
            == StreamSignal::Sent {
            1
        } else {
            0
        };
        sent(state, before) + last
    }
}

/// Whether a signal in a state makes the task forward a message.
pub open spec fn forwards(state: StreamState, signal: StreamSignal) -> bool {
    state == StreamState::Receiving && signal == StreamSignal::Delivered
}

/// Whether a signal in a state makes the task report a failure.
pub open spec fn reports(state: StreamState, signal: StreamSignal) -> bool {
    state == StreamState::Opening && signal == StreamSignal::OpenFailed
}

/// The state after a run of signals.
pub open spec fn state_after(state: StreamState, signals: Seq<StreamSignal>) -> StreamState
    decreases signals.len(),
{
    if signals.len() == 0 {
        state
    } else {
        next_state(state_after(state, signals.drop_last()), signals.last())
    }
}

/// The number of messages that a task forwards over a run of signals.
pub open spec fn forwarded(state: StreamState, signals: Seq<StreamSignal>) -> nat
    decreases signals.len(),
{
    if signals.len() == 0 {
        0
    } else {
        let before = signals.drop_last();
        let last: nat = if forwards(state_after(state, before), signals.last()) {
            1
        } else {
            0
        };
        forwarded(state, before) + last
    }
}

/// The number of failures that a task reports over a run of signals.
pub open spec fn reported(state: StreamState, signals: Seq<StreamSignal>) -> nat
    decreases signals.len(),
{
    if signals.len() == 0 {
        0
    } else {
        let before = signals.drop_last();
        let last: nat = if reports(state_after(state, before), signals.last()) {
            1
        } else {
            0
        };
        reported(state, before) + last
    }
}

/// One stream task: the topic it serves, the subscription it reads and where
/// it stands.
#[derive(Debug)]
pub struct StreamTask {
    topic: TopicName,
    subscription: SubscriptionName,
    state: StreamState,
}

impl StreamTask {
    pub closed spec fn topic(&self) -> TopicName {
        self.topic
    }

    pub closed spec fn subscription(&self) -> SubscriptionName {
        self.subscription
    }

    pub closed spec fn state(&self) -> StreamState {
        self.state
    }

    /// A task that is about to ask the broker for the stream of
    /// `subscription`.
    pub fn new(topic: TopicName, subscription: SubscriptionName) -> (task: Self)
        ensures
            task.topic() == topic,
            task.subscription() == subscription,
            task.state() == StreamState::Opening,
    {
        StreamTask { topic, subscription, state: StreamState::Opening }
    }

    /// The subscription whose stream the task reads.
    pub fn subscription_name(&self) -> (name: &SubscriptionName)
        ensures
            *name == self.subscription(),
    {
        &self.subscription
    }

    /// Where the task stands.
    pub fn current_state(&self) -> (state: StreamState)
        ensures
            state == self.state(),
    {
        self.state
    }

    /// Whether the task is over.
    pub fn is_finished(&self) -> (finished: bool)
        ensures
            finished == (self.state() == StreamState::Finished),
    {
        match self.state {
            StreamState::Finished => true,
            _ => false,
        }
    }

    /// Takes one event and says what the task does next. The payload of a
    /// delivered message is taken as UTF-8 text, which the broker's
    /// deliveries are.
    pub fn step(&mut self, event: StreamEvent) -> (action: StreamAction)
        requires
            event matches StreamEvent::Delivered(wire) ==> valid_utf8(wire.data@),
        ensures
            final(self).topic() == old(self).topic(),
            final(self).subscription() == old(self).subscription(),
            final(self).state() == next_state(old(self).state(), event.signal()),
            reports(old(self).state(), event.signal()) ==> action == StreamAction::Report(
                BackendMessage::Error(
                    BackendError::StreamMessagesFailed(old(self).topic(), old(self).subscription()),
                ),
            ),
            forwards(old(self).state(), event.signal()) ==> {
                &&& action matches StreamAction::AcknowledgeAndForward(
                    BackendMessage::MessageReceived(topic, received),
                )
                &&& event matches StreamEvent::Delivered(wire)
                &&& topic == old(self).topic()
                &&& is_received(received, wire)
            },
            !reports(old(self).state(), event.signal()) && !forwards(
                old(self).state(),
                event.signal(),
            ) ==> action == StreamAction::Nothing,
    {
        match self.state {
            StreamState::Finished => StreamAction::Nothing,
            StreamState::Forwarding => match event {
                StreamEvent::Sent => {
                    self.state = StreamState::Receiving;
                    StreamAction::Nothing
                },
                StreamEvent::Cancelled => {
                    self.state = StreamState::Stopping;
                    StreamAction::Nothing
                },
                _ => StreamAction::Nothing,
            },
            StreamState::Stopping => match event {
                StreamEvent::Sent => {
                    self.state = StreamState::Finished;
                    StreamAction::Nothing
                },
                _ => StreamAction::Nothing,
            },
            StreamState::Opening => match event {
                StreamEvent::Opened => {
                    self.state = StreamState::Receiving;
                    StreamAction::Nothing
                },
                StreamEvent::OpenFailed => {
                    self.state = StreamState::Finished;
                    StreamAction::Report(
                        BackendMessage::Error(
                            BackendError::StreamMessagesFailed(
                                self.topic.clone(),
                                self.subscription.clone(),
                            ),
                        ),
                    )
                },
                StreamEvent::Cancelled => {
                    self.state = StreamState::Finished;
                    StreamAction::Nothing
                },
                _ => StreamAction::Nothing,
            },
            StreamState::Receiving => match event {
                StreamEvent::Delivered(wire) => {
                    let received = PubsubMessage::from_wire(wire);
                    self.state = StreamState::Forwarding;
                    StreamAction::AcknowledgeAndForward(
                        BackendMessage::MessageReceived(self.topic.clone(), received),
                    )
                },
                StreamEvent::Ended => {
                    self.state = StreamState::Finished;
                    StreamAction::Nothing
                },
                StreamEvent::Cancelled => {
                    self.state = StreamState::Finished;
                    StreamAction::Nothing
                },
                _ => StreamAction::Nothing,
            },
        }
    }
}

/// A finished task stays finished and sends nothing, whatever comes:
/// cancelling a token whose stream has ended of itself changes nothing.
pub proof fn lemma_finished_is_final(signals: Seq<StreamSignal>)
    ensures
        state_after(StreamState::Finished, signals) == StreamState::Finished,
        forwarded(StreamState::Finished, signals) == 0,
        reported(StreamState::Finished, signals) == 0,
        sent(StreamState::Finished, signals) == 0,
    decreases signals.len(),
{
    if signals.len() > 0 {
        lemma_finished_is_final(signals.drop_last());
    }
}

/// A task that has been told to stop forwards and reports nothing more,
/// whatever comes, and never goes back to waiting for messages.
pub proof fn lemma_stopped_stays_stopped(state: StreamState, signals: Seq<StreamSignal>)
    requires
        is_stopped(state),
    ensures
        is_stopped(state_after(state, signals)),
        forwarded(state, signals) == 0,
        reported(state, signals) == 0,
    decreases signals.len(),
{
    if signals.len() > 0 {
        lemma_stopped_stays_stopped(state, signals.drop_last());
    }
}

/// What a task does over two runs of signals, one after the other, is what
/// it does over the first and then, from where that left it, over the
/// second.
pub proof fn lemma_runs_compose(
    state: StreamState,
    first: Seq<StreamSignal>,
    second: Seq<StreamSignal>,
)
    ensures
        state_after(state, first + second) == state_after(state_after(state, first), second),
        forwarded(state, first + second) == forwarded(state, first) + forwarded(
            state_after(state, first),
            second,
        ),
        reported(state, first + second) == reported(state, first) + reported(
            state_after(state, first),
            second,
        ),
        sent(state, first + second) == sent(state, first) + sent(
            state_after(state, first),
            second,
        ),
    decreases second.len(),
{
    if second.len() == 0 {
        assert(first + second =~= first);
    } else {
        lemma_runs_compose(state, first, second.drop_last());
        assert((first + second).drop_last() =~= first + second.drop_last());
        assert((first + second).last() == second.last());
    }
}

/// The state after one signal.
proof fn lemma_one_signal(state: StreamState, signal: StreamSignal)
    ensures
        state_after(state, seq![signal]) == next_state(state, signal),
        forwarded(state, seq![signal]) == (if forwards(state, signal) {
            1nat
        } else {
            0nat
        }),
        reported(state, seq![signal]) == (if reports(state, signal) {
            1nat
        } else {
            0nat
        }),
{
    let one = seq![signal];
    assert(one.drop_last() =~= Seq::<StreamSignal>::empty());
    assert(state_after(state, one.drop_last()) == state);
    assert(forwarded(state, one.drop_last()) == 0);
    assert(reported(state, one.drop_last()) == 0);
}

/// Cancelling takes effect for good: the task forwards exactly the messages
/// it forwarded before the cancellation and reports nothing more, whatever
/// the broker still delivers afterwards. It is over at once, unless a
/// message is in hand; then it is over when that message is reported sent.
pub proof fn lemma_cancellation_stops_stream(
    state: StreamState,
    before: Seq<StreamSignal>,
    after: Seq<StreamSignal>,
)
    ensures
        is_stopped(state_after(state, before + seq![StreamSignal::Cancelled] + after)),
        forwarded(state, before + seq![StreamSignal::Cancelled] + after) == forwarded(
            state,
            before,
        ),
        reported(state, before + seq![StreamSignal::Cancelled] + after) == reported(state, before),
        !is_in_hand(state_after(state, before)) ==> state_after(
            state,
            before + seq![StreamSignal::Cancelled] + after,
        ) == StreamState::Finished,
{
    let cancel = seq![StreamSignal::Cancelled];
    lemma_runs_compose(state, before, cancel);
    lemma_runs_compose(state, before + cancel, after);
    let reached = state_after(state, before);
    lemma_one_signal(reached, StreamSignal::Cancelled);
    lemma_stopped_stays_stopped(next_state(reached, StreamSignal::Cancelled), after);
    if !is_in_hand(reached) {
        lemma_finished_is_final(after);
    }
}

/// A message in hand is seen through: a cancellation that arrives between
/// taking a message and the report that it is sent leaves the task waiting
/// for that report, and the report then ends the task.
pub proof fn lemma_cancellation_waits_for_the_send(state: StreamState)
    requires
        state == StreamState::Forwarding,
    ensures
        next_state(state, StreamSignal::Cancelled) == StreamState::Stopping,
        !forwards(state, StreamSignal::Cancelled),
        next_state(StreamState::Stopping, StreamSignal::Cancelled) == StreamState::Stopping,
        next_state(StreamState::Stopping, StreamSignal::Sent) == StreamState::Finished,
{
}

/// Every message that a task forwards is in hand until its send is
/// reported, and only then does the task take the next: over any run of
/// signals from a state without a message in hand, the task is told of as
/// many sends as it forwarded messages, less the one still in hand.
pub proof fn lemma_every_forwarded_message_is_sent(state: StreamState, signals: Seq<StreamSignal>)
    requires
        !is_in_hand(state),
    ensures
        forwarded(state, signals) == sent(state, signals) + (if is_in_hand(
            state_after(state, signals),
        ) {
            1nat
        } else {
            0nat
        }),
    decreases signals.len(),
{
    if signals.len() > 0 {
        lemma_every_forwarded_message_is_sent(state, signals.drop_last());
    }
}

/// While a stream is open and neither ends nor is cancelled, every delivery
/// is forwarded: over any number of deliveries, each followed by the report
/// of its send, the task forwards as many messages as the broker delivered.
pub proof fn lemma_open_stream_forwards_all(deliveries: nat)
    ensures
        state_after(StreamState::Receiving, deliveries_sent(deliveries)) == StreamState::Receiving,
        forwarded(StreamState::Receiving, deliveries_sent(deliveries)) == deliveries,
    decreases deliveries,
{
    if deliveries > 0 {
        let before = deliveries_sent((deliveries - 1) as nat);
        lemma_open_stream_forwards_all((deliveries - 1) as nat);
        let round = seq![StreamSignal::Delivered, StreamSignal::Sent];
        lemma_runs_compose(StreamState::Receiving, before, round);
        assert(round.drop_last() =~= seq![StreamSignal::Delivered]);
        lemma_one_signal(StreamState::Receiving, StreamSignal::Delivered);
    }
}

/// A run of deliveries, each followed by the report that it is sent.
pub open spec fn deliveries_sent(deliveries: nat) -> Seq<StreamSignal>
    decreases deliveries,
{
    if deliveries == 0 {
        Seq::empty()
    } else {
        deliveries_sent((deliveries - 1) as nat) + seq![StreamSignal::Delivered, StreamSignal::Sent]
    }
}

} // verus!
