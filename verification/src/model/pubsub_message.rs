//! A message that the broker delivered, with the views of it that the
//! interface shows.

use crate::model::pubsub_message_to_publish::{is_published, PubsubMessageToPublish};
use crate::model::pubsub_message_to_publish::{Timestamp, WireMessage};
use crate::string_map::StringMap;
use chrono::TimeZone;
use vstd::prelude::*;
use vstd::string::StringSliceAdditionalSpecFns;
use vstd::utf8::{decode_utf8, encode_utf8, valid_utf8};

verus! {

/// A JSON document of `serde_json`. The library carries such a value and
/// never looks inside.
#[verifier::external_type_specification]
#[verifier::external_body]
pub struct ExJsonValue(serde_json::Value);

/// The document that `serde_json::from_str` reads from `text`, or `None`
/// where it rejects the text.
pub uninterp spec fn json_document(text: Seq<char>) -> Option<serde_json::Value>;

/// The JSON string that `serde_json::Value::from` makes of `text`.
pub uninterp spec fn json_text(text: Seq<char>) -> serde_json::Value;

/// The JSON object that collecting pairs of texts into a
/// `serde_json::Value` gives: one member for each key, its value a JSON
/// string.
pub uninterp spec fn json_object(members: Seq<(Seq<char>, Seq<char>)>) -> serde_json::Value;

/// The first second that a publish time can hold: the start of the earliest
/// day of the calendar in use.
pub const EARLIEST_SECOND: i64 = -8_334_601_228_800;

/// The last second that a publish time can hold: the end of the latest day
/// of the calendar in use.
pub const LATEST_SECOND: i64 = 8_210_266_876_799;

/// Whether a count of seconds since the Unix epoch and a count of
/// nanoseconds name an instant of the calendar. A count of a thousand
/// million nanoseconds or more stands for a leap second, and is accepted
/// only in the last second of a minute.
pub open spec fn is_utc_instant(seconds: i64, nanos: u32) -> bool {
    &&& EARLIEST_SECOND <= seconds <= LATEST_SECOND
    &&& nanos < 2_000_000_000
    &&& (nanos >= 1_000_000_000 ==> (seconds as int) % 60 == 59)
}

/// The nanoseconds of a broker timestamp: a negative count reads as zero.
pub open spec fn nanos_of(nanos: i32) -> u32 {
    if nanos >= 0 {
        nanos as u32
    } else {
        0
    }
}

/// The publish time that a broker timestamp stands for, if it names an
/// instant.
pub open spec fn publish_time_of(stamp: Option<Timestamp>) -> Option<PublishTime> {
    match stamp {
        Some(t) => if is_utc_instant(t.seconds, nanos_of(t.nanos)) {
            Some(PublishTime { seconds: t.seconds, nanos: nanos_of(t.nanos) })
        } else {
            None
        },
        None => None,
    }
}

/// The JSON view of a payload: the document it holds where it is JSON, the
/// payload as one JSON string where it is not.
pub open spec fn data_json_of(data: Seq<char>) -> serde_json::Value {
    match json_document(data) {
        Some(document) => document,
        None => json_text(data),
    }
}

/// The texts of a list of pairs.
pub open spec fn pair_texts(pairs: Seq<(String, String)>) -> Seq<(Seq<char>, Seq<char>)> {
    pairs.map_values(|pair: (String, String)| (pair.0@, pair.1@))
}

/// The attributes of a map as texts, in the order of its keys.
pub open spec fn members_of(attributes: StringMap<String>) -> Seq<(Seq<char>, Seq<char>)> {
    attributes.keys().map_values(|key: Seq<char>| (key, attributes@[key]@))
}

/// Whether `received` is what the interface keeps of the delivery `wire`.
pub open spec fn is_received(received: PubsubMessage, wire: WireMessage) -> bool {
    &&& received.id == wire.message_id
    &&& received.publish_time == publish_time_of(wire.publish_time)
    &&& received.data@ == decode_utf8(wire.data@)
    &&& received.data_json == data_json_of(received.data@)
    &&& received.attributes == wire.attributes
    &&& received.attributes_json == json_object(members_of(wire.attributes))
}

/// An instant in UTC: seconds since the Unix epoch and nanoseconds past that
/// second.
#[derive(Debug, Clone, Copy, PartialEq, Eq, Structural)]
pub struct PublishTime {
    pub seconds: i64,
    pub nanos: u32,
}

/// A message that the broker delivered. It is made once and not changed
/// afterwards.
#[derive(Debug)]
pub struct PubsubMessage {
    pub id: String,
    pub publish_time: Option<PublishTime>,
    pub data: String,
    pub data_json: serde_json::Value,
    pub attributes: StringMap<String>,
    pub attributes_json: serde_json::Value,
}

/// `serde_json::Value::clone`, which the crate derives: the clone is the
/// same document.
pub assume_specification[ <serde_json::Value as Clone>::clone ](
    value: &serde_json::Value,
) -> (copy: serde_json::Value)
    ensures
        copy == *value,
;

/// Calls `chrono::Utc.timestamp_opt` and reads the instant back as seconds
/// and nanoseconds. The contract claims what chrono's source shows: the call
/// yields a single instant exactly for the counts that `is_utc_instant`
/// admits, and that instant reads back as the counts it was made from.
#[verifier::external_body]
fn utc_timestamp(seconds: i64, nanos: u32) -> (instant: Option<(i64, u32)>)
    ensures
        instant == if is_utc_instant(seconds, nanos) {
            Some((seconds, nanos))
        } else {
            None
        },
{
    match chrono::Utc.timestamp_opt(seconds, nanos) {
        chrono::LocalResult::Single(at) => Some((at.timestamp(), at.timestamp_subsec_nanos())),
        chrono::LocalResult::Ambiguous(_, _) => None,
        chrono::LocalResult::None => None,
    }
}

/// Calls `core::str::from_utf8`. The contract claims what its documentation
/// says: the call succeeds exactly on well-formed UTF-8, and the text it
/// hands back is made of the bytes it was given.
#[verifier::external_body]
fn utf8_text(bytes: &[u8]) -> (text: Option<&str>)
    ensures
        text is Some <==> valid_utf8(bytes@),
        text matches Some(t) ==> t.spec_bytes() == bytes@,
{
    match core::str::from_utf8(bytes) {
        Ok(text) => Some(text),
        Err(_) => None,
    }
}

/// Calls `serde_json::from_str` for a `serde_json::Value`. The contract
/// gives the outcome its name, `json_document`; it claims nothing else.
#[verifier::external_body]
fn parse_json(text: &str) -> (document: Option<serde_json::Value>)
    ensures
        document == json_document(text@),
{
    match serde_json::from_str::<serde_json::Value>(text) {
        Ok(document) => Some(document),
        Err(_) => None,
    }
}

/// Calls `serde_json::Value::from` on a `String`, which wraps the text as a
/// JSON string. The contract gives the result its name, `json_text`.
#[verifier::external_body]
fn json_string(text: String) -> (value: serde_json::Value)
    ensures
        value == json_text(text@),
{
    serde_json::Value::from(text)
}

/// Calls `serde_json::Value::from_iter` on pairs of texts, which makes a
/// JSON object with a string member for each pair. The contract gives the
/// result its name, `json_object`.
#[verifier::external_body]
fn json_members(pairs: Vec<(String, String)>) -> (value: serde_json::Value)
    ensures
        value == json_object(pair_texts(pairs@)),
{
    pairs.into_iter().collect::<serde_json::Value>()
}

impl PublishTime {
    /// The publish time that a broker timestamp stands for. A negative count
    /// of nanoseconds reads as zero; a timestamp outside the calendar gives
    /// no publish time.
    pub fn from_timestamp(stamp: Option<Timestamp>) -> (time: Option<Self>)
        ensures
            time == publish_time_of(stamp),
    {
        match stamp {
            Some(t) => {
                let nanos: u32 = if t.nanos >= 0 {
                    t.nanos as u32
                } else {
                    0
                };
                match utc_timestamp(t.seconds, nanos) {
                    Some((seconds, nanos)) => Some(PublishTime { seconds, nanos }),
                    None => None,
                }
            },
            None => None,
        }
    }
}

/// The JSON view of a payload, given what parsing the payload gave: the
/// parsed document, or the payload as one JSON string where there is none.
pub fn data_json_view(data: &String, parsed: Option<serde_json::Value>) -> (view: serde_json::Value)
    ensures
        view == match parsed {
            Some(document) => document,
            None => json_text(data@),
        },
{
    match parsed {
        Some(document) => document,
        None => json_string(data.clone()),
    }
}

/// The JSON view of a set of attributes: an object with one string member
/// for each attribute.
pub fn attributes_json_view(attributes: &StringMap<String>) -> (view: serde_json::Value)
    ensures
        view == json_object(members_of(*attributes)),
{
    let count = attributes.len();
    let mut pairs: Vec<(String, String)> = Vec::new();
    let mut i: usize = 0;
    while i < count
        invariant
            i <= count,
            count == attributes.keys().len(),
            pairs@.len() == i,
            forall|j: int|
                0 <= j < i ==> (#[trigger] pairs@[j]).0@ == attributes.keys()[j] && pairs@[j].1@
                    == attributes@[attributes.keys()[j]]@,
        decreases count - i,
    {
        match attributes.entry(i) {
            Some((key, text)) => {
                pairs.push((key.clone(), text.clone()));
            },
            None => {},
        }
        i += 1;
    }
    assert(pair_texts(pairs@) =~= members_of(*attributes));
    json_members(pairs)
}

impl Clone for PubsubMessage {
    fn clone(&self) -> (copy: Self)
        ensures
            copy.id == self.id,
            copy.publish_time == self.publish_time,
            copy.data == self.data,
            copy.data_json == self.data_json,
            copy.attributes@ == self.attributes@,
            copy.attributes.keys() == self.attributes.keys(),
            copy.attributes_json == self.attributes_json,
    {
        let attributes = self.attributes.clone();
        assert(attributes@ =~= self.attributes@);
        Self {
            id: self.id.clone(),
            publish_time: self.publish_time,
            data: self.data.clone(),
            data_json: self.data_json.clone(),
            attributes,
            attributes_json: self.attributes_json.clone(),
        }
    }
}

impl PubsubMessage {
    /// The message that the interface keeps of a delivery. The payload is
    /// taken as UTF-8 text, which the broker's deliveries are.
    pub fn from_wire(message: WireMessage) -> (received: Self)
        requires
            valid_utf8(message.data@),
        ensures
            is_received(received, message),
    {
        broadcast use vstd::utf8::encode_utf8_decode_utf8;

        let publish_time = PublishTime::from_timestamp(message.publish_time);
        let text = utf8_text(message.data.as_slice()).unwrap();
        assert(decode_utf8(encode_utf8(text@)) == text@);
        let data = text.to_owned();
        let parsed = parse_json(data.as_str());
        let data_json = data_json_view(&data, parsed);
        let attributes_json = attributes_json_view(&message.attributes);
        Self {
            id: message.message_id,
            publish_time,
            data,
            data_json,
            attributes: message.attributes,
            attributes_json,
        }
    }

    /// The message to publish that repeats this one: the same payload and
    /// the same attributes.
    pub fn republish(&self) -> (message: PubsubMessageToPublish)
        ensures
            message.data() == self.data@,
            message.attributes() =~= self.attributes@,
    {
        PubsubMessageToPublish::new(self.data.clone(), self.attributes.clone())
    }
}

/// A message that is published and then delivered comes back as it went
/// out: whatever identifier and publish time the broker gives it, the
/// payload received is the payload sent, and the attributes received are the
/// attributes sent.
pub proof fn lemma_publish_receive_round_trip(
    sent: PubsubMessageToPublish,
    wire: WireMessage,
    delivered: WireMessage,
    received: PubsubMessage,
)
    requires
        is_published(wire, sent),
        delivered.data@ == wire.data@,
        delivered.attributes@ == wire.attributes@,
        is_received(received, delivered),
    ensures
        valid_utf8(delivered.data@),
        received.data@ == sent.data(),
        received.attributes@ == sent.attributes(),
{
    broadcast use {vstd::utf8::encode_utf8_decode_utf8, vstd::utf8::encode_utf8_valid_utf8};

    assert(valid_utf8(encode_utf8(sent.data())));
    assert(decode_utf8(encode_utf8(sent.data())) == sent.data());
}

} // verus!
