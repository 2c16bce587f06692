use pubsubman::backend::{
    subscription_id, Backend, Task, CHANNEL_CAPACITY, WORKER_THREADS,
};
use pubsubman::message::{BackendError, BackendMessage, FrontendMessage};
use pubsubman::model::{PubsubMessageToPublish, SubscriptionName, TopicName};
use pubsubman::string_map::StringMap;
use tokio_util::sync::CancellationToken;

fn text(s: &str) -> String {
    s.to_string()
}

fn topic(s: &str) -> TopicName {
    TopicName(text(s))
}

fn sub(s: &str) -> SubscriptionName {
    SubscriptionName(text(s))
}

fn started() -> Backend {
    Backend::new(Some(text("project"))).0.unwrap()
}

#[test]
fn runtime_and_channels_have_their_sizes() {
    assert_eq!(WORKER_THREADS, 4);
    assert_eq!(CHANNEL_CAPACITY, 10);
}

#[test]
fn bridge_starts_where_the_client_does() {
    let (backend, event) = Backend::new(Some(text("my-project")));
    let backend = backend.unwrap();
    assert_eq!(backend.project(), "my-project");
    assert!(!backend.closed());
    match event {
        BackendMessage::ClientInitialised(project) => assert_eq!(project, "my-project"),
        other => panic!("unexpected event {:?}", other),
    }
}

#[test]
fn bridge_does_not_start_without_a_client() {
    let (backend, event) = Backend::new(None);
    assert!(backend.is_none());
    assert!(matches!(event, BackendMessage::Error(BackendError::ClientInitFailed)));
}

#[test]
fn override_counts_only_for_the_emulator() {
    assert_eq!(
        Backend::resolve_project_id(true, Some(text("configured")), Some(text("override"))),
        Some(text("override"))
    );
    assert_eq!(
        Backend::resolve_project_id(false, Some(text("configured")), Some(text("override"))),
        Some(text("configured"))
    );
    assert_eq!(
        Backend::resolve_project_id(true, Some(text("configured")), None),
        Some(text("configured"))
    );
    assert_eq!(Backend::resolve_project_id(true, None, Some(text("override"))), Some(text("override")));
    assert_eq!(Backend::resolve_project_id(false, None, Some(text("override"))), None);
    assert_eq!(Backend::resolve_project_id(true, None, None), None);
}

#[test]
fn each_command_starts_its_task() {
    let mut backend = started();
    assert!(matches!(
        backend.dispatch(Some(FrontendMessage::RefreshTopicsRequest)),
        Some(Task::GetTopics)
    ));
    match backend.dispatch(Some(FrontendMessage::CreateSubscriptionRequest(topic("t")))) {
        Some(Task::CreateSubscription(t)) => assert_eq!(t, topic("t")),
        other => panic!("unexpected task {:?}", other),
    }
    match backend.dispatch(Some(FrontendMessage::DeleteSubscriptions(vec![sub("a"), sub("b")]))) {
        Some(Task::DeleteSubscriptions(names)) => assert_eq!(names, vec![sub("a"), sub("b")]),
        other => panic!("unexpected task {:?}", other),
    }
    let token = CancellationToken::new();
    match backend.dispatch(Some(FrontendMessage::StreamMessages(topic("t"), sub("s"), token.clone()))) {
        Some(Task::StreamMessages(t, s, given)) => {
            assert_eq!(t, topic("t"));
            assert_eq!(s, sub("s"));
            token.cancel();
            assert!(given.is_cancelled());
        }
        other => panic!("unexpected task {:?}", other),
    }
    let message = PubsubMessageToPublish::new(text("payload"), StringMap::new());
    match backend.dispatch(Some(FrontendMessage::PublishMessage(topic("t"), message))) {
        Some(Task::PublishMessage(t, m)) => {
            assert_eq!(t, topic("t"));
            assert_eq!(m.into_wire().data, b"payload".to_vec());
        }
        other => panic!("unexpected task {:?}", other),
    }
}

#[test]
fn closed_channel_ends_the_loop_for_good() {
    let mut backend = started();
    assert!(backend.dispatch(None).is_none());
    assert!(backend.closed());
    assert!(backend.dispatch(Some(FrontendMessage::RefreshTopicsRequest)).is_none());
    assert!(backend.dispatch(None).is_none());
}

#[test]
fn topics_come_in_the_brokers_order() {
    match Backend::get_topics(Some(vec![text("t2"), text("t1"), text("t3")])) {
        BackendMessage::TopicsUpdated(topics) => {
            assert_eq!(topics, vec![topic("t2"), topic("t1"), topic("t3")])
        }
        other => panic!("unexpected event {:?}", other),
    }
    match Backend::get_topics(Some(vec![])) {
        BackendMessage::TopicsUpdated(topics) => assert!(topics.is_empty()),
        other => panic!("unexpected event {:?}", other),
    }
}

#[test]
fn failed_listing_is_reported() {
    assert!(matches!(
        Backend::get_topics(None),
        BackendMessage::Error(BackendError::GetTopicsFailed)
    ));
}

#[test]
fn subscription_name_is_prefix_and_uuid() {
    assert_eq!(
        subscription_id(0x0123_4567_89ab_4def_8123_4567_89ab_cdef),
        "pubsubman-subscription-01234567-89ab-4def-8123-456789abcdef"
    );
    assert_eq!(
        subscription_id(0),
        "pubsubman-subscription-00000000-0000-0000-0000-000000000000"
    );
    assert_eq!(
        subscription_id(u128::MAX),
        "pubsubman-subscription-ffffffff-ffff-ffff-ffff-ffffffffffff"
    );
    assert_eq!(
        subscription_id(0xa1a2_a3a4_b1b2_c1c2_d1d2_d3d4_d5d6_d7d8),
        "pubsubman-subscription-a1a2a3a4-b1b2-c1c2-d1d2-d3d4d5d6d7d8"
    );
}

#[test]
fn subscription_request_names_topic_and_fresh_subscription() {
    let first = Backend::subscription_request(&topic("projects/p/topics/t"));
    let second = Backend::subscription_request(&topic("projects/p/topics/t"));
    assert_eq!(first.topic_id, "projects/p/topics/t");
    assert_eq!(second.topic_id, "projects/p/topics/t");
    assert_ne!(first.subscription_id, second.subscription_id);
    for id in [&first.subscription_id, &second.subscription_id] {
        assert!(id.starts_with("pubsubman-subscription-"));
        let uuid = &id["pubsubman-subscription-".len()..];
        assert_eq!(uuid.len(), 36);
        let parsed = uuid::Uuid::parse_str(uuid).unwrap();
        assert_eq!(parsed.get_version_num(), 4);
        assert_eq!(uuid.as_bytes()[14], b'4');
        assert!(matches!(uuid.as_bytes()[19], b'8' | b'9' | b'a' | b'b'));
        assert_eq!(parsed.to_string(), uuid);
    }
}

#[test]
fn created_subscription_is_announced_once() {
    match Backend::create_subscription(topic("t"), Some(text("projects/p/subscriptions/s"))) {
        BackendMessage::SubscriptionCreated(t, s) => {
            assert_eq!(t, topic("t"));
            assert_eq!(s, sub("projects/p/subscriptions/s"));
        }
        other => panic!("unexpected event {:?}", other),
    }
}

#[test]
fn failed_subscription_is_reported_for_its_topic() {
    match Backend::create_subscription(topic("t"), None) {
        BackendMessage::Error(BackendError::CreateSubscriptionFailed(t)) => assert_eq!(t, topic("t")),
        other => panic!("unexpected event {:?}", other),
    }
}

#[test]
fn deletion_outcome_is_tagged_with_the_name() {
    assert_eq!(Backend::deletion_outcome(sub("s"), true), Ok(sub("s")));
    assert_eq!(Backend::deletion_outcome(sub("s"), false), Err(sub("s")));
}

#[test]
fn batch_deletion_answers_for_every_name_in_order() {
    let names = vec![sub("a"), sub("b"), sub("c")];
    match Backend::delete_subscriptions(names, &vec![true, false, true]) {
        BackendMessage::SubscriptionsDeleted(outcomes) => {
            assert_eq!(outcomes, vec![Ok(sub("a")), Err(sub("b")), Ok(sub("c"))])
        }
        other => panic!("unexpected event {:?}", other),
    }
}

#[test]
fn batch_deletion_of_nothing_answers_nothing() {
    match Backend::delete_subscriptions(vec![], &vec![]) {
        BackendMessage::SubscriptionsDeleted(outcomes) => assert!(outcomes.is_empty()),
        other => panic!("unexpected event {:?}", other),
    }
}

#[test]
fn name_without_answer_counts_as_not_deleted() {
    match Backend::delete_subscriptions(vec![sub("a"), sub("b")], &vec![true]) {
        BackendMessage::SubscriptionsDeleted(outcomes) => {
            assert_eq!(outcomes, vec![Ok(sub("a")), Err(sub("b"))])
        }
        other => panic!("unexpected event {:?}", other),
    }
    match Backend::delete_subscriptions(vec![sub("a")], &vec![false, true, true]) {
        BackendMessage::SubscriptionsDeleted(outcomes) => assert_eq!(outcomes, vec![Err(sub("a"))]),
        other => panic!("unexpected event {:?}", other),
    }
}

#[test]
fn publish_request_carries_payload_and_attributes() {
    let mut attributes = StringMap::new();
    attributes.insert(text("k"), text("v"));
    let wire = Backend::publish_request(PubsubMessageToPublish::new(text("hi"), attributes));
    assert_eq!(wire.data, b"hi".to_vec());
    assert_eq!(wire.attributes.get("k").unwrap().as_str(), "v");
    assert_eq!(wire.message_id, "");
    assert_eq!(wire.publish_time, None);
    assert_eq!(wire.ordering_key, "");
}

#[test]
fn confirmed_publish_is_silent() {
    assert!(Backend::publish_message(topic("t"), true).is_none());
}

#[test]
fn failed_publish_is_reported_for_its_topic() {
    match Backend::publish_message(topic("t"), false) {
        Some(BackendMessage::Error(BackendError::PublishMessageFailed(t))) => {
            assert_eq!(t, topic("t"))
        }
        other => panic!("unexpected event {:?}", other),
    }
}
