//! Stand-ins for the seams around the bus: a bus that records what is published,
//! and a clock that is set by hand.
use crate::bus::channel::BusError;
use crate::bus::channel::Subscription;
use crate::bus::inproc::receive_result;
use crate::bus::inproc::subscribe_result;
use crate::bus::inproc::BusView;
use crate::bus::inproc::InProcBus;
use crate::bus::message::Message;
use crate::bus::message::MessageView;
use crate::bus::relay::Clock;
use crate::bus::topic::Topic;
use crate::domain::time::Timestamp;
use vstd::prelude::*;

verus! {

/// The values of a list of messages.
pub open spec fn message_views(ms: Seq<Message>) -> Seq<MessageView> {
    Seq::new(ms.len(), |i: int| ms[i]@)
}

/// The subjects of a list of topics.
pub open spec fn topic_views(ts: Seq<Topic>) -> Seq<Seq<char>> {
    Seq::new(ts.len(), |i: int| ts[i]@)
}

/// A bus that records every published message while still delivering to
/// subscribers as the in-process bus does.
pub struct RecordingBus {
    inner: InProcBus,
    published: Vec<Message>,
}

impl Default for RecordingBus {
    fn default() -> (bus: Self)
        ensures
            bus.bus() == (BusView { next_id: 0, listeners: Seq::empty() }),
            bus.record() == Seq::<MessageView>::empty(),
    {
        RecordingBus::new()
    }
}

impl RecordingBus {
    /// The state of the bus behind the recording.
    pub closed spec fn bus(&self) -> BusView {
        self.inner@
    }

    /// Every message published so far, in order.
    pub closed spec fn record(&self) -> Seq<MessageView> {
        message_views(self.published@)
    }

    /// Creates an empty recording bus.
    #[must_use]
    pub fn new() -> (bus: Self)
        ensures
            bus.bus() == (BusView { next_id: 0, listeners: Seq::empty() }),
            bus.bus().wf(),
            bus.record() == Seq::<MessageView>::empty(),
    {
        let bus = RecordingBus { inner: InProcBus::new(), published: Vec::new() };
        proof {
            assert(message_views(bus.published@) =~= Seq::<MessageView>::empty());
        }
        bus
    }

    /// A snapshot of every message published so far, in publish order.
    #[must_use]
    pub fn published(&self) -> (v: Vec<Message>)
        ensures
            message_views(v@) == self.record(),
    {
        let mut v: Vec<Message> = Vec::new();
        let mut i: usize = 0;
        while i < self.published.len()
            invariant
                i <= self.published@.len(),
                message_views(v@) == message_views(self.published@).take(i as int),
            decreases self.published@.len() - i,
        {
            let ghost before = v@;
            v.push(self.published[i].clone());
            proof {
                assert(message_views(v@) =~= message_views(before).push(self.published@[i as int]@));
                assert(message_views(self.published@).take(i + 1) =~= message_views(
                    self.published@,
                ).take(i as int).push(self.published@[i as int]@));
            }
            i = i + 1;
        }
        proof {
            assert(message_views(self.published@).take(self.published@.len() as int)
                =~= message_views(self.published@));
        }
        v
    }

    /// The subjects of every published message, in publish order.
    #[must_use]
    pub fn published_topics(&self) -> (v: Vec<Topic>)
        ensures
            topic_views(v@) == self.record().map_values(|m: MessageView| m.topic),
    {
        let mut v: Vec<Topic> = Vec::new();
        let mut i: usize = 0;
        while i < self.published.len()
            invariant
                i <= self.published@.len(),
                v@.len() == i,
                forall|j: int| 0 <= j < i ==> (#[trigger] v@[j])@ == self.published@[j].topic@,
            decreases self.published@.len() - i,
        {
            v.push(self.published[i].topic.clone());
            i = i + 1;
        }
        proof {
            assert(topic_views(v@) =~= self.record().map_values(|m: MessageView| m.topic));
        }
        v
    }

    /// Records `message`, then delivers it.
    ///
    /// # Errors
    /// None: queueing in memory cannot fail.
    pub fn publish(&mut self, message: Message) -> (r: Result<(), BusError>)
        ensures
            r is Ok,
            final(self).record() == old(self).record().push(message@),
            final(self).bus() == old(self).bus().published(message@),
            final(self).bus().wf(),
    {
        self.published.push(message.clone());
        proof {
            assert(message_views(self.published@) =~= message_views(old(self).published@).push(
                message@,
            ));
        }
        self.inner.publish(message)
    }

    /// Subscribes to `topic` on the bus behind the recording.
    ///
    /// # Errors
    /// [`BusError::Backend`] once every subscription number has been given out.
    pub fn subscribe(&mut self, topic: Topic) -> (r: Result<Subscription, BusError>)
        ensures
            final(self).record() == old(self).record(),
            final(self).bus().wf(),
            subscribe_result(old(self).bus(), topic@, final(self).bus(), r),
    {
        self.inner.subscribe(topic)
    }

    /// Takes the oldest message queued for a subscription, or `None` if none is
    /// ready.
    pub fn try_recv(&mut self, subscription: &Subscription) -> (r: Option<Message>)
        ensures
            final(self).record() == old(self).record(),
            receive_result(old(self).bus(), subscription.number(), final(self).bus(), r),
            final(self).bus().wf(),
    {
        self.inner.try_recv(subscription)
    }
}

/// A clock that reports the instant it was last set to.
#[derive(Debug, Clone, Copy, PartialEq, Eq, Structural)]
pub struct ManualClock {
    now: Timestamp,
}

impl View for ManualClock {
    type V = i64;

    closed spec fn view(&self) -> i64 {
        self.now@
    }
}

impl ManualClock {
    /// Creates a clock reading `start`.
    #[must_use]
    pub fn new(start: Timestamp) -> (c: Self)
        ensures
            c@ == start@,
    {
        ManualClock { now: start }
    }

    /// Sets the instant the clock reports.
    pub fn set(&mut self, now: Timestamp)
        ensures
            final(self)@ == now@,
    {
        self.now = now;
    }

    /// Advances the clock by `delta` milliseconds.
    pub fn advance_millis(&mut self, delta: i64)
        requires
            i64::MIN <= old(self)@ + delta <= i64::MAX,
        ensures
            final(self)@ == old(self)@ + delta,
    {
        self.now = Timestamp::from_millis(self.now.as_millis() + delta);
    }
}

impl Clock for ManualClock {
    fn now(&self) -> (t: Timestamp)
        ensures
            t@ == self@,
    {
        self.now
    }
}

} // verus!
