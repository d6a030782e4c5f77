//! One published bus event: a topic plus an opaque payload.
use crate::bus::topic::Topic;
use crate::decimal::signed;
use crate::decimal::signed_decimal;
use crate::decimal::signed_decimal_reads_back;
use crate::store::OutboxEvent;
use crate::text::IntoText;
use core::str::Utf8Error;
use std::sync::Arc;
use vstd::prelude::*;
use vstd::utf8::encode_utf8;
use vstd::utf8::encode_utf8_decode_utf8;
use vstd::utf8::encode_utf8_valid_utf8;
use vstd::utf8::valid_utf8;

verus! {

/// The error of a failed UTF-8 check (`core::str::Utf8Error`), carried through
/// unopened.
#[verifier::external_type_specification]
#[verifier::external_body]
pub struct ExUtf8Error(core::str::Utf8Error);

/// Reads bytes as text (`core::str::from_utf8`): succeeds exactly where the bytes
/// are valid UTF-8, with the string that they encode.
pub assume_specification[ core::str::from_utf8 ](v: &[u8]) -> (r: Result<&str, Utf8Error>)
    ensures
        r is Ok <==> valid_utf8(v@),
        r is Ok ==> encode_utf8(r->Ok_0@) == v@,
;

/// Takes another handle on a shared payload (`Arc::clone`): the same contents,
/// counted once more.
#[verifier::external_body]
fn share(payload: &Arc<Vec<u8>>) -> (p: Arc<Vec<u8>>)
    ensures
        p == *payload,
{
    Arc::clone(payload)
}

/// What a message holds, as values.
pub struct MessageView {
    /// The subject.
    pub topic: Seq<char>,
    /// The payload bytes.
    pub payload: Seq<u8>,
    /// The dedup identity, if any.
    pub dedup_key: Option<Seq<char>>,
}

/// A published bus event.
///
/// The payload is shared, so a single publish fans out to many subscribers with
/// one count per delivery. A dedup key, when set, is a stable identity: every
/// redelivery of an outbox row carries the same one.
#[derive(Debug, PartialEq, Eq)]
pub struct Message {
    /// The subject the message is published under.
    pub topic: Topic,
    /// The opaque serialized payload.
    pub payload: Arc<Vec<u8>>,
    /// A stable dedup identity, if the publisher assigned one.
    pub dedup_key: Option<String>,
}

/// The characters of an optional string.
pub open spec fn optional_text(s: Option<String>) -> Option<Seq<char>> {
    match s {
        Some(t) => Some(t@),
        None => None,
    }
}

impl View for Message {
    type V = MessageView;

    open spec fn view(&self) -> MessageView {
        MessageView {
            topic: self.topic@,
            payload: (*self.payload)@,
            dedup_key: optional_text(self.dedup_key),
        }
    }
}

/// The dedup key of an outbox row: a function of its identifier alone.
pub open spec fn outbox_key(id: i64) -> Seq<char> {
    "outbox-"@ + signed_decimal(id as int)
}

/// The message of an outbox row.
pub open spec fn outbox_message(event: OutboxEvent) -> MessageView {
    MessageView {
        topic: event.topic@,
        payload: encode_utf8(event.payload@),
        dedup_key: Some(outbox_key(event.id.0)),
    }
}

impl Message {
    /// Builds a message on `topic` with the given payload and no dedup key.
    #[must_use]
    pub fn new(topic: Topic, payload: Vec<u8>) -> (m: Self)
        ensures
            m@ == (MessageView { topic: topic@, payload: payload@, dedup_key: None }),
    {
        Message { topic, payload: Arc::new(payload), dedup_key: None }
    }

    /// Builds a message whose payload is the UTF-8 bytes of `text`.
    #[must_use]
    pub fn text(topic: Topic, text: &str) -> (m: Self)
        ensures
            m@ == (MessageView { topic: topic@, payload: encode_utf8(text@), dedup_key: None }),
    {
        Message::new(topic, bytes_of(text))
    }

    /// Attaches a dedup key, returning the updated message.
    #[must_use]
    pub fn with_dedup_key(self, key: impl IntoText) -> (m: Self)
        ensures
            m@ == (MessageView { dedup_key: Some(key.text()), ..self@ }),
    {
        Message { topic: self.topic, payload: self.payload, dedup_key: Some(key.into_text()) }
    }

    /// Builds the message of an outbox row: the row's topic verbatim, its payload
    /// bytes, and a dedup key made of the row's identifier, so that every
    /// redelivery is recognizably the same event.
    #[must_use]
    pub fn from_outbox(event: &OutboxEvent) -> (m: Self)
        ensures
            m@ == outbox_message(*event),
    {
        let mut key = "outbox-".to_owned();
        key.append(signed(event.id.0).as_str());
        Message::text(Topic::new(&event.topic), event.payload.as_str()).with_dedup_key(key)
    }

    /// The payload interpreted as UTF-8 text.
    ///
    /// # Errors
    /// [`Utf8Error`] if the payload is not valid UTF-8.
    pub fn payload_utf8(&self) -> (r: Result<&str, Utf8Error>)
        ensures
            r is Ok <==> valid_utf8(self@.payload),
            r is Ok ==> encode_utf8(r->Ok_0@) == self@.payload,
    {
        core::str::from_utf8(self.payload.as_slice())
    }
}

impl Clone for Message {
    fn clone(&self) -> (m: Self)
        ensures
            m@ == self@,
    {
        let dedup_key = match &self.dedup_key {
            Some(key) => Some(key.clone()),
            None => None,
        };
        Message { topic: self.topic.clone(), payload: share(&self.payload), dedup_key }
    }
}

/// The UTF-8 bytes of a string.
pub fn bytes_of(text: &str) -> (v: Vec<u8>)
    ensures
        v@ == encode_utf8(text@),
{
    let bytes = text.as_bytes();
    let mut v: Vec<u8> = Vec::new();
    v.extend_from_slice(bytes);
    proof {
        assert(v@ =~= bytes@);
    }
    v
}

/// The text of a message reads back: its payload is valid UTF-8, and no other
/// text has those bytes.
pub proof fn text_reads_back(text: Seq<char>, other: Seq<char>)
    ensures
        valid_utf8(encode_utf8(text)),
        encode_utf8(other) == encode_utf8(text) ==> other == text,
{
    encode_utf8_valid_utf8(text);
    encode_utf8_decode_utf8(text);
    encode_utf8_decode_utf8(other);
}

/// Redeliveries of one row carry the same key, and different rows carry different
/// ones: the key identifies the row.
pub proof fn outbox_keys_identify_rows(a: i64, b: i64)
    ensures
        outbox_key(a) == outbox_key(b) <==> a == b,
{
    if outbox_key(a) == outbox_key(b) {
        let n = "outbox-"@.len() as int;
        assert(outbox_key(a).skip(n) =~= signed_decimal(a as int));
        assert(outbox_key(b).skip(n) =~= signed_decimal(b as int));
        signed_decimal_reads_back(a as int);
        signed_decimal_reads_back(b as int);
    }
}

/// An outbox row reads back from its message: the topic is the row's, the payload reads
/// as its text, and the key is that of its identifier.
pub proof fn an_outbox_row_reads_back(event: OutboxEvent, m: Message, r: Result<&str, Utf8Error>)
    requires
        call_ensures(Message::from_outbox, (&event,), m),
        call_ensures(Message::payload_utf8, (&m,), r),
    ensures
        m@.topic == event.topic@,
        r is Ok,
        r->Ok_0@ == event.payload@,
        m@.dedup_key is Some,
{
    encode_utf8_valid_utf8(event.payload@);
    encode_utf8_decode_utf8(event.payload@);
    if r is Ok {
        encode_utf8_decode_utf8(r->Ok_0@);
    }
}

/// A text message reads back as its text, and is not deduplicated unless it is keyed.
pub proof fn a_text_message_reads_back(
    topic: Topic,
    text: &str,
    m: Message,
    r: Result<&str, Utf8Error>,
)
    requires
        call_ensures(Message::text, (topic, text), m),
        call_ensures(Message::payload_utf8, (&m,), r),
    ensures
        m@.topic == topic@,
        m@.dedup_key is None,
        r is Ok,
        r->Ok_0@ == text@,
{
    encode_utf8_valid_utf8(text@);
    encode_utf8_decode_utf8(text@);
    if r is Ok {
        encode_utf8_decode_utf8(r->Ok_0@);
    }
}

/// A key changes nothing of a message but its key, and the last one given counts.
pub proof fn a_dedup_key_changes_nothing_else(
    m: Message,
    key: &str,
    keyed: Message,
    other: &str,
    again: Message,
)
    requires
        call_ensures(Message::with_dedup_key, (m, key), keyed),
        call_ensures(Message::with_dedup_key, (keyed, other), again),
    ensures
        keyed@.topic == m@.topic,
        keyed@.payload == m@.payload,
        keyed@.dedup_key == Some(key@),
        again@.topic == m@.topic,
        again@.payload == m@.payload,
        again@.dedup_key == Some(other@),
{
}

/// A message carries the payload that it was made of, and so does every copy of it.
pub proof fn a_message_carries_its_payload(
    topic: Topic,
    payload: Vec<u8>,
    m: Message,
    copy: Message,
)
    requires
        call_ensures(Message::new, (topic, payload), m),
        call_ensures(Message::clone, (&m,), copy),
    ensures
        m@.topic == topic@,
        m@.payload == payload@,
        m@.dedup_key is None,
        copy@ == m@,
{
}

} // verus!
