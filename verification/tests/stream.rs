use pubsubman::backend::stream::{StreamAction, StreamEvent, StreamState, StreamTask};
use pubsubman::message::{BackendError, BackendMessage};
use pubsubman::model::pubsub_message_to_publish::WireMessage;
use pubsubman::model::{SubscriptionName, TopicName};
use pubsubman::string_map::StringMap;

fn text(s: &str) -> String {
    s.to_string()
}

fn task() -> StreamTask {
    StreamTask::new(TopicName(text("t")), SubscriptionName(text("s")))
}

fn open_task() -> StreamTask {
    let mut task = task();
    assert!(matches!(task.step(StreamEvent::Opened), StreamAction::Nothing));
    task
}

fn delivered(id: &str, data: &str) -> StreamEvent {
    StreamEvent::Delivered(WireMessage {
        data: data.as_bytes().to_vec(),
        attributes: StringMap::new(),
        message_id: text(id),
        publish_time: None,
        ordering_key: String::new(),
    })
}

fn forwarded_id(action: StreamAction) -> Option<String> {
    match action {
        StreamAction::AcknowledgeAndForward(BackendMessage::MessageReceived(topic, message)) => {
            assert_eq!(topic, TopicName(text("t")));
            Some(message.id)
        }
        StreamAction::Nothing => None,
        other => panic!("unexpected action {:?}", other),
    }
}

#[test]
fn task_starts_by_opening_its_subscription() {
    let task = task();
    assert_eq!(task.current_state(), StreamState::Opening);
    assert!(!task.is_finished());
    assert_eq!(task.subscription_name(), &SubscriptionName(text("s")));
}

#[test]
fn opened_stream_waits_for_messages() {
    let task = open_task();
    assert_eq!(task.current_state(), StreamState::Receiving);
}

#[test]
fn stream_that_cannot_open_is_reported_and_over() {
    let mut task = task();
    match task.step(StreamEvent::OpenFailed) {
        StreamAction::Report(BackendMessage::Error(BackendError::StreamMessagesFailed(t, s))) => {
            assert_eq!(t, TopicName(text("t")));
            assert_eq!(s, SubscriptionName(text("s")));
        }
        other => panic!("unexpected action {:?}", other),
    }
    assert!(task.is_finished());
    assert!(matches!(task.step(delivered("1", "x")), StreamAction::Nothing));
    assert!(matches!(task.step(StreamEvent::OpenFailed), StreamAction::Nothing));
}

#[test]
fn each_delivery_is_acknowledged_and_forwarded() {
    let mut task = open_task();
    match task.step(delivered("1", "{\"a\":1}")) {
        StreamAction::AcknowledgeAndForward(BackendMessage::MessageReceived(topic, message)) => {
            assert_eq!(topic, TopicName(text("t")));
            assert_eq!(message.id, "1");
            assert_eq!(message.data, "{\"a\":1}");
            let mut members = serde_json::Map::new();
            members.insert(text("a"), serde_json::Value::from(1));
            assert_eq!(message.data_json, serde_json::Value::Object(members));
        }
        other => panic!("unexpected action {:?}", other),
    }
    assert_eq!(task.current_state(), StreamState::Forwarding);
    assert!(matches!(task.step(StreamEvent::Sent), StreamAction::Nothing));
    assert_eq!(task.current_state(), StreamState::Receiving);
    assert_eq!(forwarded_id(task.step(delivered("2", "b"))), Some(text("2")));
    assert_eq!(task.current_state(), StreamState::Forwarding);
}

#[test]
fn ended_stream_is_over() {
    let mut task = open_task();
    assert!(matches!(task.step(StreamEvent::Ended), StreamAction::Nothing));
    assert!(task.is_finished());
    assert_eq!(forwarded_id(task.step(delivered("1", "late"))), None);
}

#[test]
fn cancelling_a_finished_stream_does_nothing() {
    let mut task = open_task();
    task.step(StreamEvent::Ended);
    assert!(task.is_finished());
    assert!(matches!(task.step(StreamEvent::Cancelled), StreamAction::Nothing));
    assert!(matches!(task.step(StreamEvent::Cancelled), StreamAction::Nothing));
    assert!(task.is_finished());
    assert_eq!(task.current_state(), StreamState::Finished);
}

#[test]
fn cancelling_while_opening_ends_the_task_silently() {
    let mut task = task();
    assert!(matches!(task.step(StreamEvent::Cancelled), StreamAction::Nothing));
    assert!(task.is_finished());
    assert!(matches!(task.step(StreamEvent::Opened), StreamAction::Nothing));
    assert!(task.is_finished());
    assert!(matches!(task.step(StreamEvent::OpenFailed), StreamAction::Nothing));
}

#[test]
fn pull_forwards_what_arrived_before_the_cancellation() {
    let mut task = open_task();
    let mut forwarded = 0;
    for id in ["1", "2", "3"] {
        if forwarded_id(task.step(delivered(id, "m"))).is_some() {
            forwarded += 1;
        }
        task.step(StreamEvent::Sent);
    }
    assert!(matches!(task.step(StreamEvent::Cancelled), StreamAction::Nothing));
    assert!(task.is_finished());
    for id in ["4", "5"] {
        if forwarded_id(task.step(delivered(id, "m"))).is_some() {
            forwarded += 1;
        }
        task.step(StreamEvent::Sent);
    }
    assert_eq!(forwarded, 3);
}

#[test]
fn pull_with_nothing_to_deliver_forwards_nothing() {
    let mut task = open_task();
    assert!(matches!(task.step(StreamEvent::Cancelled), StreamAction::Nothing));
    assert!(task.is_finished());
}

#[test]
fn events_out_of_turn_change_nothing() {
    let mut task = task();
    assert_eq!(forwarded_id(task.step(delivered("1", "early"))), None);
    assert!(matches!(task.step(StreamEvent::Ended), StreamAction::Nothing));
    assert_eq!(task.current_state(), StreamState::Opening);
    let mut task = open_task();
    assert!(matches!(task.step(StreamEvent::Opened), StreamAction::Nothing));
    assert!(matches!(task.step(StreamEvent::OpenFailed), StreamAction::Nothing));
    assert_eq!(task.current_state(), StreamState::Receiving);
}

#[test]
fn cancellation_waits_for_the_message_in_hand() {
    let mut task = open_task();
    assert_eq!(forwarded_id(task.step(delivered("1", "m"))), Some(text("1")));
    assert!(matches!(task.step(StreamEvent::Cancelled), StreamAction::Nothing));
    assert_eq!(task.current_state(), StreamState::Stopping);
    assert!(!task.is_finished());
    assert!(matches!(task.step(StreamEvent::Cancelled), StreamAction::Nothing));
    assert_eq!(forwarded_id(task.step(delivered("2", "late"))), None);
    assert_eq!(task.current_state(), StreamState::Stopping);
    assert!(matches!(task.step(StreamEvent::Sent), StreamAction::Nothing));
    assert!(task.is_finished());
    assert_eq!(forwarded_id(task.step(delivered("3", "later"))), None);
}

#[test]
fn next_message_waits_for_the_send_of_the_one_in_hand() {
    let mut task = open_task();
    assert_eq!(forwarded_id(task.step(delivered("1", "m"))), Some(text("1")));
    assert_eq!(forwarded_id(task.step(delivered("2", "m"))), None);
    assert!(matches!(task.step(StreamEvent::Ended), StreamAction::Nothing));
    assert_eq!(task.current_state(), StreamState::Forwarding);
    task.step(StreamEvent::Sent);
    assert_eq!(forwarded_id(task.step(delivered("2", "m"))), Some(text("2")));
}

#[test]
fn report_of_a_send_without_a_message_changes_nothing() {
    let mut task = task();
    assert!(matches!(task.step(StreamEvent::Sent), StreamAction::Nothing));
    assert_eq!(task.current_state(), StreamState::Opening);
    let mut task = open_task();
    assert!(matches!(task.step(StreamEvent::Sent), StreamAction::Nothing));
    assert_eq!(task.current_state(), StreamState::Receiving);
}
