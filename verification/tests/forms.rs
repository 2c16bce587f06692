use std::collections::hash_map::DefaultHasher;
use std::hash::{Hash, Hasher};

use pubsubman::message::FrontendMessage;
use pubsubman::model::TopicName;
use pubsubman::ui::publish_view::{
    Attributes, AttributesForm, AttributesFormValidator, AttributesValidator,
};
use pubsubman::ui::PublishView;

fn text(s: &str) -> String {
    s.to_string()
}

fn hash_of(form: &AttributesForm) -> u64 {
    let mut hasher = DefaultHasher::new();
    form.hash(&mut hasher);
    hasher.finish()
}

fn form(rows: &[(&str, &str)]) -> AttributesForm {
    let mut form = AttributesForm::default();
    for (key, value) in rows {
        form.push((text(key), text(value)));
    }
    form
}

#[test]
fn new_form_is_empty_and_valid() {
    let form = AttributesForm::default();
    assert!(form.is_empty());
    assert_eq!(form.len(), 0);
    assert!(form.row(0).is_none());
    assert!(form.validator().is_valid());
    assert!(form.to_attributes().is_empty());
    assert!(form.key_indices_map().is_empty());
}

#[test]
fn push_adds_rows_at_the_end() {
    let mut form = AttributesForm::default();
    form.push((text("a"), text("1")));
    form.push((text("b"), text("2")));
    assert!(!form.is_empty());
    assert_eq!(form.len(), 2);
    assert_eq!(form.row(0), Some((&text("a"), &text("1"))));
    assert_eq!(form.row(1), Some((&text("b"), &text("2"))));
    assert_eq!(form.row(2), None);
}

#[test]
fn rows_can_be_edited_and_removed() {
    let mut form = form(&[("a", "1"), ("b", "2"), ("c", "3")]);
    assert!(form.set_row(1, (text("B"), text("two"))));
    assert!(!form.set_row(3, (text("x"), text("y"))));
    assert_eq!(form.row(1), Some((&text("B"), &text("two"))));
    assert_eq!(form.remove(0), Some((text("a"), text("1"))));
    assert_eq!(form.remove(5), None);
    assert_eq!(form.len(), 2);
    assert_eq!(form.row(0), Some((&text("B"), &text("two"))));
    assert_eq!(form.row(1), Some((&text("c"), &text("3"))));
}

#[test]
fn distinct_keys_are_valid() {
    let validator = form(&[("a", "1"), ("b", "1"), ("c", "1")]).validator();
    assert!(validator.is_valid());
    assert!(validator.is_key_valid("a"));
    assert!(validator.is_key_valid("b"));
    assert!(validator.is_key_valid("c"));
}

#[test]
fn repeated_key_makes_the_form_invalid() {
    let validator = form(&[("a", "1"), ("b", "2"), ("a", "3")]).validator();
    assert!(!validator.is_valid());
    assert!(!validator.is_key_valid("a"));
    assert!(validator.is_key_valid("b"));
}

#[test]
fn key_that_no_row_holds_is_not_valid() {
    let validator = form(&[("a", "1")]).validator();
    assert!(!validator.is_key_valid("b"));
    assert!(!validator.is_key_valid(""));
    assert!(!AttributesForm::default().validator().is_key_valid("a"));
}

#[test]
fn two_empty_keys_repeat_each_other() {
    let validator = form(&[("", ""), ("", "")]).validator();
    assert!(!validator.is_valid());
    assert!(!validator.is_key_valid(""));
    assert!(form(&[("", "")]).validator().is_valid());
}

#[test]
fn keys_are_compared_exactly() {
    let validator = form(&[("key", "1"), ("Key", "2"), ("key ", "3")]).validator();
    assert!(validator.is_valid());
}

#[test]
fn key_indices_map_lists_the_rows_of_each_key() {
    let places = form(&[("a", "1"), ("b", "2"), ("a", "3"), ("c", "4"), ("a", "5")]).key_indices_map();
    assert_eq!(places.len(), 3);
    assert_eq!(places.get("a"), Some(&vec![0, 2, 4]));
    assert_eq!(places.get("b"), Some(&vec![1]));
    assert_eq!(places.get("c"), Some(&vec![3]));
    assert_eq!(places.get("d"), None);
}

#[test]
fn attributes_take_the_later_row_of_a_repeated_key() {
    let attributes = form(&[("a", "1"), ("b", "2"), ("a", "3")]).to_attributes();
    assert_eq!(attributes.len(), 2);
    assert_eq!(attributes.get("a").unwrap().as_str(), "3");
    assert_eq!(attributes.get("b").unwrap().as_str(), "2");
}

#[test]
fn earlier_names_of_the_form_still_work() {
    let mut attributes: Attributes = Attributes::default();
    attributes.push((text("a"), text("1")));
    let validator: AttributesValidator = attributes.validator();
    assert!(validator.is_valid());
    let same: AttributesFormValidator = attributes.validator();
    assert!(same.is_key_valid("a"));
}

#[test]
fn new_publish_view_is_blank() {
    let view = PublishView::default();
    assert_eq!(view.data, "");
    assert!(view.attributes.is_empty());
    assert!(view.can_publish());
}

#[test]
fn add_attribute_appends_an_empty_row() {
    let mut view = PublishView::default();
    view.add_attribute();
    view.add_attribute();
    assert_eq!(view.attributes.len(), 2);
    assert_eq!(view.attributes.row(1), Some((&String::new(), &String::new())));
    assert!(!view.can_publish());
}

#[test]
fn valid_form_is_published_as_it_stands() {
    let mut view = PublishView::default();
    view.data = text("{\"n\": 1}");
    view.attributes.push((text("a"), text("1")));
    view.attributes.push((text("b"), text("2")));
    let sent = view.publish(&TopicName(text("t"))).unwrap();
    assert_eq!(sent.delay_millis, None);
    assert!(sent.must_arrive);
    match sent.message {
        FrontendMessage::PublishMessage(topic, message) => {
            assert_eq!(topic, TopicName(text("t")));
            let wire = message.into_wire();
            assert_eq!(wire.data, b"{\"n\": 1}".to_vec());
            assert_eq!(wire.attributes.len(), 2);
            assert_eq!(wire.attributes.get("a").unwrap().as_str(), "1");
            assert_eq!(wire.attributes.get("b").unwrap().as_str(), "2");
        }
        other => panic!("unexpected command {:?}", other),
    }
    assert_eq!(view.data, "{\"n\": 1}");
    assert_eq!(view.attributes.len(), 2);
}

#[test]
fn invalid_form_is_not_published() {
    let mut view = PublishView::default();
    view.attributes.push((text("a"), text("1")));
    view.attributes.push((text("a"), text("2")));
    assert!(!view.can_publish());
    assert!(view.publish(&TopicName(text("t"))).is_none());
    view.attributes.remove(1);
    assert!(view.can_publish());
    assert!(view.publish(&TopicName(text("t"))).is_some());
}

#[test]
fn message_of_the_form_holds_payload_and_attributes() {
    let mut view = PublishView::default();
    view.data = text("päyload");
    view.attributes.push((text("k"), text("v")));
    let wire = view.message().into_wire();
    assert_eq!(wire.data, "päyload".as_bytes().to_vec());
    assert_eq!(wire.attributes.get("k").unwrap().as_str(), "v");
}

#[test]
fn default_validator_knows_no_key() {
    let validator = AttributesFormValidator::default();
    assert!(validator.is_valid());
    assert!(!validator.is_key_valid("a"));
    assert!(!validator.is_key_valid(""));
}

#[test]
fn cloned_validator_says_the_same() {
    let validator = form(&[("a", "1"), ("b", "2"), ("a", "3")]).validator();
    let copy = validator.clone();
    assert_eq!(copy.is_valid(), validator.is_valid());
    assert!(!copy.is_key_valid("a"));
    assert!(copy.is_key_valid("b"));
    assert!(!copy.is_key_valid("c"));
}

#[test]
fn forms_hash_by_their_rows() {
    assert_eq!(hash_of(&form(&[("a", "1")])), hash_of(&form(&[("a", "1")])));
    assert_ne!(hash_of(&form(&[("a", "1")])), hash_of(&form(&[("a", "2")])));
    assert_ne!(hash_of(&form(&[])), hash_of(&form(&[("", "")])));
}
