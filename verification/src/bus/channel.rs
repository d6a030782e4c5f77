//! The subscriber's side of the bus: how a bus fails, and the handle that a
//! subscriber drains its messages by.
use crate::bus::topic::Topic;
use vstd::prelude::*;

verus! {

/// A failure from a bus. The in-process bus never produces one, but a networked
/// one can.
#[derive(Debug, Clone, PartialEq, Eq)]
#[non_exhaustive]
pub enum BusError {
    /// The underlying transport failed. The string is the backend's own message,
    /// for logging.
    Backend(String),
}

impl BusError {
    /// What the failure says of itself.
    pub open spec fn message(self) -> Seq<char> {
        match self {
            BusError::Backend(why) => "bus transport error: "@ + why@,
        }
    }

    /// The error as shown to a reader.
    #[must_use]
    pub fn to_string(&self) -> (s: String)
        ensures
            s@ == self.message(),
    {
        match self {
            BusError::Backend(message) => {
                let mut s = "bus transport error: ".to_owned();
                s.append(message.as_str());
                s
            },
        }
    }
}

/// A live subscription: the handle under which a bus queues messages for a topic.
#[derive(Debug)]
pub struct Subscription {
    id: u64,
    topic: Topic,
}

impl Subscription {
    /// The number that the bus gave this subscription.
    pub closed spec fn number(&self) -> u64 {
        self.id
    }

    /// The subject of the topic listened to.
    pub closed spec fn subject(&self) -> Seq<char> {
        self.topic@
    }

    /// A handle handed out by a bus.
    pub(crate) fn new(id: u64, topic: Topic) -> (s: Self)
        ensures
            s.number() == id,
            s.subject() == topic@,
    {
        Subscription { id, topic }
    }

    /// The number that the bus gave this subscription.
    pub(crate) fn id(&self) -> (id: u64)
        ensures
            id == self.number(),
    {
        self.id
    }

    /// The topic this subscription listens to.
    #[must_use]
    pub fn topic(&self) -> (t: &Topic)
        ensures
            t@ == self.subject(),
    {
        &self.topic
    }
}

} // verus!
