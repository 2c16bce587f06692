//! A message on its way to the broker, and the form in which the broker
//! carries messages.

use crate::string_map::StringMap;
use vstd::prelude::*;
use vstd::string::StrSliceExecFns;
use vstd::utf8::encode_utf8;

verus! {

/// An instant as the broker writes it: seconds since the Unix epoch and the
/// nanoseconds past that second.
#[derive(Debug, Clone, Copy, PartialEq, Eq, Structural)]
pub struct Timestamp {
    pub seconds: i64,
    pub nanos: i32,
}

/// A message as the broker carries it. A publisher fills in the payload and
/// the attributes; the broker adds the identifier and the publish time.
#[derive(Debug)]
pub struct WireMessage {
    pub data: Vec<u8>,
    pub attributes: StringMap<String>,
    pub message_id: String,
    pub publish_time: Option<Timestamp>,
    pub ordering_key: String,
}

/// A payload and its attributes, put together by the interface and handed to
/// the publish operation once.
#[derive(Debug)]
pub struct PubsubMessageToPublish {
    data: String,
    attributes: StringMap<String>,
}

/// Whether `wire` is the form in which the broker takes `message`: the
/// payload as UTF-8 bytes, the attributes as they are, and everything the
/// broker fills in left empty.
pub open spec fn is_published(wire: WireMessage, message: PubsubMessageToPublish) -> bool {
    &&& wire.data@ == encode_utf8(message.data())
    &&& wire.attributes@ == message.attributes()
    &&& wire.message_id@ == Seq::<char>::empty()
    &&& wire.publish_time == None::<Timestamp>
    &&& wire.ordering_key@ == Seq::<char>::empty()
}

impl PubsubMessageToPublish {
    /// The payload.
    pub closed spec fn data(&self) -> Seq<char> {
        self.data@
    }

    /// The attributes.
    pub closed spec fn attributes(&self) -> Map<Seq<char>, String> {
        self.attributes@
    }

    pub fn new(data: String, attributes: StringMap<String>) -> (message: Self)
        ensures
            message.data() == data@,
            message.attributes() == attributes@,
    {
        Self { data, attributes }
    }

    /// The message in the form the broker takes.
    pub fn into_wire(self) -> (wire: WireMessage)
        ensures
            is_published(wire, self),
    {
        WireMessage {
            data: self.data.as_str().as_bytes_vec(),
            attributes: self.attributes,
            message_id: String::new(),
            publish_time: None,
            ordering_key: String::new(),
        }
    }
}

} // verus!
