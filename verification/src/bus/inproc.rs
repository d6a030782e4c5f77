//! The in-process bus: a registry of subscribers, each with its own unbounded
//! queue. A live subscriber never loses a covering message to lag; a subscriber
//! that has closed is pruned on the next publish.
use crate::bus::channel::BusError;
use crate::bus::channel::Subscription;
use crate::bus::message::Message;
use crate::bus::message::MessageView;
use crate::bus::topic::covering;
use crate::bus::topic::Topic;
use vstd::prelude::*;

verus! {

/// One registered listener, as values.
#[verifier::ext_equal]
pub struct ListenerView {
    /// The number of its subscription.
    pub id: u64,
    /// The topic it wants.
    pub topic: Seq<char>,
    /// Whether it is still listening.
    pub open: bool,
    /// Messages delivered to it and not yet received, oldest first.
    pub queue: Seq<MessageView>,
}

impl ListenerView {
    /// The listener after a publish: a covering message joins its queue.
    pub open spec fn hears(self, m: MessageView) -> ListenerView {
        if covering(self.topic, m.topic) {
            ListenerView { queue: self.queue.push(m), ..self }
        } else {
            self
        }
    }
}

/// What a bus holds, as values.
#[verifier::ext_equal]
pub struct BusView {
    /// The number of the next subscription.
    pub next_id: nat,
    /// The registered listeners, in the order they subscribed.
    pub listeners: Seq<ListenerView>,
}

/// The listeners after a publish: the closed ones are gone, and every other has
/// heard the message.
pub open spec fn delivered(listeners: Seq<ListenerView>, m: MessageView) -> Seq<ListenerView>
    decreases listeners.len(),
{
    if listeners.len() == 0 {
        listeners
    } else {
        let before = delivered(listeners.drop_last(), m);
        if listeners.last().open {
            before.push(listeners.last().hears(m))
        } else {
            before
        }
    }
}

/// Where the listener of a subscription is registered, or -1 where it is not.
pub open spec fn place(listeners: Seq<ListenerView>, id: u64) -> int
    decreases listeners.len(),
{
    if listeners.len() == 0 {
        -1
    } else if listeners.last().id == id {
        listeners.len() - 1
    } else {
        place(listeners.drop_last(), id)
    }
}

/// The listener of a subscription, if it is registered.
pub open spec fn listener(listeners: Seq<ListenerView>, id: u64) -> Option<ListenerView>
    decreases listeners.len(),
{
    if listeners.len() == 0 {
        None
    } else if listeners.last().id == id {
        Some(listeners.last())
    } else {
        listener(listeners.drop_last(), id)
    }
}

impl BusView {
    /// What every bus keeps: subscription numbers increase with registration, and
    /// none reaches the next one. So no two listeners share a number.
    pub open spec fn wf(self) -> bool {
        &&& forall|i: int|
            0 <= i < self.listeners.len() ==> (#[trigger] self.listeners[i]).id < self.next_id
        &&& forall|i: int, j: int|
            0 <= i < j < self.listeners.len() ==> (#[trigger] self.listeners[i]).id < (
            #[trigger] self.listeners[j]).id
    }

    /// The listener of a subscription, if it is registered.
    pub open spec fn listener(self, id: u64) -> Option<ListenerView> {
        listener(self.listeners, id)
    }

    /// The bus after a publish.
    pub open spec fn published(self, m: MessageView) -> BusView {
        BusView { listeners: delivered(self.listeners, m), ..self }
    }

    /// The bus after a run of publishes.
    pub open spec fn published_all(self, ms: Seq<MessageView>) -> BusView
        decreases ms.len(),
    {
        if ms.len() == 0 {
            self
        } else {
            self.published_all(ms.drop_last()).published(ms.last())
        }
    }

    /// The bus after a subscription to `topic`.
    pub open spec fn subscribed(self, topic: Seq<char>) -> BusView {
        BusView {
            next_id: self.next_id + 1,
            listeners: self.listeners.push(
                ListenerView {
                    id: self.next_id as u64,
                    topic,
                    open: true,
                    queue: Seq::empty(),
                },
            ),
        }
    }

    /// The bus after a subscription was closed.
    pub open spec fn closed(self, id: u64) -> BusView {
        match self.listener(id) {
            Some(l) => BusView {
                listeners: self.listeners.update(
                    place(self.listeners, id),
                    ListenerView { open: false, ..l },
                ),
                ..self
            },
            None => self,
        }
    }

    /// The bus after the oldest queued message of a subscription was taken.
    pub open spec fn received(self, id: u64) -> BusView {
        match self.listener(id) {
            Some(l) => if l.queue.len() > 0 {
                BusView {
                    listeners: self.listeners.update(
                        place(self.listeners, id),
                        ListenerView { queue: l.queue.skip(1), ..l },
                    ),
                    ..self
                }
            } else {
                self
            },
            None => self,
        }
    }
}

/// What subscribing to a topic does and returns: a listener under a fresh number, or an
/// error once there is none left.
pub open spec fn subscribe_result(
    before: BusView,
    topic: Seq<char>,
    after: BusView,
    r: Result<Subscription, BusError>,
) -> bool {
    match r {
        Ok(s) => {
            &&& before.next_id < u64::MAX
            &&& after == before.subscribed(topic)
            &&& s.number() == before.next_id
            &&& s.subject() == topic
        },
        Err(e) => {
            &&& before.next_id == u64::MAX
            &&& after == before
            &&& e->Backend_0@ == "subscription numbers exhausted"@
        },
    }
}

/// What receiving on a subscription does and returns: the oldest queued message, which
/// leaves the queue, or `None` where there is none.
pub open spec fn receive_result(
    before: BusView,
    id: u64,
    after: BusView,
    r: Option<Message>,
) -> bool {
    &&& after == before.received(id)
    &&& match (r, before.listener(id)) {
        (Some(m), Some(l)) => l.queue.len() > 0 && m@ == l.queue[0],
        (None, Some(l)) => l.queue.len() == 0,
        (None, None) => true,
        (Some(_), None) => false,
    }
}

struct Listener {
    id: u64,
    topic: Topic,
    open: bool,
    queue: Vec<Message>,
}

spec fn queue_view(queue: Seq<Message>) -> Seq<MessageView> {
    Seq::new(queue.len(), |i: int| queue[i]@)
}

impl View for Listener {
    type V = ListenerView;

    closed spec fn view(&self) -> ListenerView {
        ListenerView {
            id: self.id,
            topic: self.topic@,
            open: self.open,
            queue: queue_view(self.queue@),
        }
    }
}

spec fn listeners_view(listeners: Seq<Listener>) -> Seq<ListenerView> {
    Seq::new(listeners.len(), |i: int| listeners[i]@)
}

/// An in-process bus.
pub struct InProcBus {
    next_id: u64,
    listeners: Vec<Listener>,
}

impl View for InProcBus {
    type V = BusView;

    closed spec fn view(&self) -> BusView {
        BusView { next_id: self.next_id as nat, listeners: listeners_view(self.listeners@) }
    }
}

impl Default for InProcBus {
    fn default() -> (bus: Self)
        ensures
            bus@ == (BusView { next_id: 0, listeners: Seq::empty() }),
    {
        InProcBus::new()
    }
}

impl InProcBus {
    /// Subscription numbers increase with registration.
    #[verifier::type_invariant]
    spec fn numbered(self) -> bool {
        self@.wf()
    }

    /// Creates an empty bus.
    #[must_use]
    pub fn new() -> (bus: Self)
        ensures
            bus@ == (BusView { next_id: 0, listeners: Seq::empty() }),
            bus@.wf(),
    {
        let bus = InProcBus { next_id: 0, listeners: Vec::new() };
        proof {
            assert(bus@.listeners =~= Seq::empty());
        }
        bus
    }

    /// The number of registered subscriptions, closed ones not yet pruned
    /// included.
    #[must_use]
    pub fn subscriber_count(&self) -> (n: usize)
        ensures
            n == self@.listeners.len(),
            self@.wf(),
    {
        proof {
            use_type_invariant(self);
        }
        self.listeners.len()
    }

    /// Publishes `message`: every listener that is still open and whose topic
    /// covers the subject gets it at the end of its queue, and every closed
    /// listener is pruned. A message that nobody wants is dropped.
    ///
    /// # Errors
    /// None: queueing in memory cannot fail.
    pub fn publish(&mut self, message: Message) -> (r: Result<(), BusError>)
        ensures
            r is Ok,
            final(self)@ == old(self)@.published(message@),
            final(self)@.wf(),
    {
        proof {
            use_type_invariant(&*self);
            publish_keeps_wf(self@, message@);
        }
        let mut kept: Vec<Listener> = Vec::new();
        let mut rest: Vec<Listener> = Vec::new();
        std::mem::swap(&mut rest, &mut self.listeners);
        let ghost all = listeners_view(rest@);
        let ghost m = message@;
        let ghost mut taken: int = 0;
        proof {
            assert(all.take(0) =~= Seq::<ListenerView>::empty());
            assert(all.skip(0) =~= all);
            assert(listeners_view(kept@) =~= delivered(all.take(0), m));
        }
        while rest.len() > 0
            invariant
                m == message@,
                0 <= taken <= all.len(),
                listeners_view(rest@) == all.skip(taken),
                listeners_view(kept@) == delivered(all.take(taken), m),
            decreases rest@.len(),
        {
            let ghost before = rest@;
            let mut l = rest.remove(0);
            let ghost was = l@;
            proof {
                assert(listeners_view(before)[0] == before[0]@);
                assert(was == all.skip(taken)[0]);
                assert(listeners_view(rest@) =~= listeners_view(before).skip(1));
                assert(all.skip(taken).skip(1) =~= all.skip(taken + 1));
                assert(all.take(taken + 1).drop_last() =~= all.take(taken));
                assert(all.take(taken + 1).last() == was);
                taken = taken + 1;
            }
            if l.open {
                if l.topic.covers(&message.topic) {
                    let ghost queued = l.queue@;
                    l.queue.push(message.clone());
                    proof {
                        assert(queue_view(l.queue@) =~= queue_view(queued).push(m));
                    }
                }
                let ghost before_kept = kept@;
                proof {
                    assert(l@ =~= was.hears(m));
                }
                kept.push(l);
                proof {
                    assert(listeners_view(kept@) =~= listeners_view(before_kept).push(
                        was.hears(m),
                    ));
                }
            }
        }
        proof {
            assert(all.take(taken) =~= all) by {
                assert(all.skip(taken).len() == 0);
            }
        }
        self.listeners = kept;
        Ok(())
    }

    /// Subscribes to `topic`. Only messages published from now on are delivered.
    ///
    /// # Errors
    /// [`BusError::Backend`] once every subscription number has been given out.
    pub fn subscribe(&mut self, topic: Topic) -> (r: Result<Subscription, BusError>)
        ensures
            final(self)@.wf(),
            subscribe_result(old(self)@, topic@, final(self)@, r),
    {
        proof {
            use_type_invariant(&*self);
        }
        let id: u64 = self.next_id;
        if id == u64::MAX {
            return Err(BusError::Backend("subscription numbers exhausted".to_owned()));
        }
        let l = Listener { id, topic: topic.clone(), open: true, queue: Vec::new() };
        proof {
            assert(queue_view(l.queue@) =~= Seq::<MessageView>::empty());
        }
        let mut listeners: Vec<Listener> = Vec::new();
        std::mem::swap(&mut listeners, &mut self.listeners);
        listeners.push(l);
        self.next_id = id + 1;
        proof {
            assert(listeners_view(listeners@) =~= old(self)@.listeners.push(l@));
        }
        self.listeners = listeners;
        Ok(Subscription::new(id, topic))
    }

    fn position(&self, id: u64) -> (r: Option<usize>)
        ensures
            match r {
                Some(i) => {
                    &&& i < self.listeners@.len()
                    &&& i == place(self@.listeners, id)
                    &&& self@.listener(id) == Some(self@.listeners[i as int])
                },
                None => self@.listener(id) is None,
            },
    {
        let mut n: usize = self.listeners.len();
        proof {
            assert(self@.listeners.take(n as int) =~= self@.listeners);
        }
        while n > 0
            invariant
                n <= self.listeners@.len(),
                self@.listeners.len() == self.listeners@.len(),
                self@.listener(id) == listener(self@.listeners.take(n as int), id),
                place(self@.listeners, id) == place(self@.listeners.take(n as int), id),
            decreases n,
        {
            proof {
                assert(self@.listeners.take(n as int).drop_last() =~= self@.listeners.take(n - 1));
                assert(self@.listeners.take(n as int).last() == self.listeners@[n - 1]@);
            }
            if self.listeners[n - 1].id == id {
                return Some(n - 1);
            }
            n = n - 1;
        }
        None
    }

    /// Closes a subscription, as dropping it does: nothing more is delivered to
    /// it, and the next publish prunes it.
    pub fn close(&mut self, subscription: &Subscription)
        ensures
            final(self)@ == old(self)@.closed(subscription.number()),
            final(self)@.wf(),
    {
        proof {
            use_type_invariant(&*self);
        }
        let id: u64 = subscription.id();
        match self.position(id) {
            None => {},
            Some(i) => {
                let ghost was = self.listeners@[i as int]@;
                let mut listeners: Vec<Listener> = Vec::new();
                std::mem::swap(&mut listeners, &mut self.listeners);
                let mut l = listeners.remove(i);
                l.open = false;
                let ghost now = l@;
                proof {
                    assert(now =~= (ListenerView { open: false, ..was }));
                }
                listeners.insert(i, l);
                proof {
                    assert(listeners_view(listeners@) =~= old(self)@.listeners.update(
                        i as int,
                        now,
                    ));
                    place_has_the_number(old(self)@.listeners, id);
                }
                self.listeners = listeners;
            },
        }
    }

    /// Takes the oldest message queued for a subscription, or `None` if none is
    /// ready.
    pub fn try_recv(&mut self, subscription: &Subscription) -> (r: Option<Message>)
        ensures
            receive_result(old(self)@, subscription.number(), final(self)@, r),
            final(self)@.wf(),
    {
        proof {
            use_type_invariant(&*self);
        }
        let id: u64 = subscription.id();
        match self.position(id) {
            None => None,
            Some(i) => {
                if self.listeners[i].queue.len() == 0 {
                    return None;
                }
                let ghost was = self.listeners@[i as int]@;
                let mut listeners: Vec<Listener> = Vec::new();
                std::mem::swap(&mut listeners, &mut self.listeners);
                let mut l = listeners.remove(i);
                let ghost queued = l.queue@;
                let m = l.queue.remove(0);
                let ghost now = l@;
                proof {
                    assert(queue_view(l.queue@) =~= queue_view(queued).skip(1));
                    assert(now =~= (ListenerView { queue: was.queue.skip(1), ..was }));
                }
                listeners.insert(i, l);
                proof {
                    assert(listeners_view(listeners@) =~= old(self)@.listeners.update(
                        i as int,
                        now,
                    ));
                    place_has_the_number(old(self)@.listeners, id);
                }
                self.listeners = listeners;
                Some(m)
            },
        }
    }
}

proof fn place_has_the_number(listeners: Seq<ListenerView>, id: u64)
    ensures
        place(listeners, id) >= 0 ==> place(listeners, id) < listeners.len()
            && listeners[place(listeners, id)].id == id,
    decreases listeners.len(),
{
    if listeners.len() > 0 && listeners.last().id != id {
        place_has_the_number(listeners.drop_last(), id);
    }
}

/// A publish keeps the numbering.
proof fn publish_keeps_wf(bus: BusView, m: MessageView)
    ensures
        bus.wf() ==> bus.published(m).wf(),
{
    if bus.wf() {
        delivered_keeps_numbers(bus.listeners, m, bus.next_id);
    }
}

proof fn delivered_keeps_numbers(listeners: Seq<ListenerView>, m: MessageView, bound: nat)
    requires
        forall|i: int| 0 <= i < listeners.len() ==> (#[trigger] listeners[i]).id < bound,
        forall|i: int, j: int|
            0 <= i < j < listeners.len() ==> (#[trigger] listeners[i]).id < (
            #[trigger] listeners[j]).id,
    ensures
        forall|i: int|
            0 <= i < delivered(listeners, m).len() ==> (#[trigger] delivered(listeners, m)[i]).id
                < bound,
        forall|i: int, j: int|
            0 <= i < j < delivered(listeners, m).len() ==> (#[trigger] delivered(
                listeners,
                m,
            )[i]).id < (#[trigger] delivered(listeners, m)[j]).id,
    decreases listeners.len(),
{
    if listeners.len() > 0 {
        let head = listeners.drop_last();
        let last = listeners.last();
        assert forall|i: int| 0 <= i < head.len() implies (#[trigger] head[i]).id < last.id by {
            assert(head[i] == listeners[i]);
            assert(listeners[listeners.len() - 1] == last);
        }
        assert forall|i: int, j: int| 0 <= i < j < head.len() implies (#[trigger] head[i]).id < (
        #[trigger] head[j]).id by {
            assert(head[i] == listeners[i] && head[j] == listeners[j]);
        }
        delivered_keeps_numbers(head, m, last.id as nat);
        let d = delivered(listeners, m);
        let h = delivered(head, m);
        assert(last == listeners[listeners.len() - 1]);
        assert forall|i: int| 0 <= i < d.len() implies (#[trigger] d[i]).id < bound by {
            if i < h.len() {
                assert(d[i] == h[i]);
            }
        }
        assert forall|i: int, j: int| 0 <= i < j < d.len() implies (#[trigger] d[i]).id < (
        #[trigger] d[j]).id by {
            assert(d[i] == h[i]);
            if j < h.len() {
                assert(d[j] == h[j]);
            }
        }
    }
}

/// What one publish does to a listener: an open one hears it (a covering message
/// joins its queue, any other leaves it as it is), a closed one is gone.
pub proof fn a_publish_reaches_exactly_the_open_listeners(bus: BusView, m: MessageView, id: u64)
    requires
        bus.wf(),
    ensures
        bus.published(m).listener(id) == (match bus.listener(id) {
            Some(l) => if l.open {
                Some(l.hears(m))
            } else {
                None
            },
            None => None,
        }),
    decreases bus.listeners.len(),
{
    let ls = bus.listeners;
    if ls.len() > 0 {
        let head = BusView { listeners: ls.drop_last(), ..bus };
        assert forall|i: int| 0 <= i < head.listeners.len() implies (
        #[trigger] head.listeners[i]).id < bus.next_id by {
            assert(head.listeners[i] == ls[i]);
        }
        assert forall|i: int, j: int| 0 <= i < j < head.listeners.len() implies (
        #[trigger] head.listeners[i]).id < (#[trigger] head.listeners[j]).id by {
            assert(head.listeners[i] == ls[i] && head.listeners[j] == ls[j]);
        }
        a_publish_reaches_exactly_the_open_listeners(head, m, id);
        let d = delivered(ls.drop_last(), m);
        if ls.last().open {
            assert(delivered(ls, m).drop_last() =~= d);
        }
        if ls.last().id == id && !ls.last().open {
            no_other_has_the_number(head.listeners, id);
        }
    }
}

proof fn no_other_has_the_number(listeners: Seq<ListenerView>, id: u64)
    requires
        forall|i: int| 0 <= i < listeners.len() ==> (#[trigger] listeners[i]).id != id,
    ensures
        listener(listeners, id) is None,
    decreases listeners.len(),
{
    if listeners.len() > 0 {
        let head = listeners.drop_last();
        assert forall|i: int| 0 <= i < head.len() implies (#[trigger] head[i]).id != id by {
            assert(head[i] == listeners[i]);
        }
        no_other_has_the_number(head, id);
    }
}

/// The messages of a run that a topic covers, in order.
pub open spec fn covered(topic: Seq<char>, ms: Seq<MessageView>) -> Seq<MessageView>
    decreases ms.len(),
{
    if ms.len() == 0 {
        ms
    } else if covering(topic, ms.last().topic) {
        covered(topic, ms.drop_last()).push(ms.last())
    } else {
        covered(topic, ms.drop_last())
    }
}

/// A burst is buffered, not dropped: however many messages are published, an open
/// listener's queue grows by exactly those that its topic covers, in the order of
/// publication.
pub proof fn every_open_listener_gets_every_covering_message(
    bus: BusView,
    ms: Seq<MessageView>,
    id: u64,
)
    requires
        bus.wf(),
        bus.listener(id) is Some,
        bus.listener(id)->0.open,
    ensures
        bus.published_all(ms).wf(),
        bus.published_all(ms).listener(id) == Some(
            ListenerView {
                queue: bus.listener(id)->0.queue + covered(bus.listener(id)->0.topic, ms),
                ..bus.listener(id)->0
            },
        ),
    decreases ms.len(),
{
    let l = bus.listener(id)->0;
    if ms.len() == 0 {
        assert(l.queue + covered(l.topic, ms) =~= l.queue);
    } else {
        let before = bus.published_all(ms.drop_last());
        every_open_listener_gets_every_covering_message(bus, ms.drop_last(), id);
        publish_keeps_wf(before, ms.last());
        a_publish_reaches_exactly_the_open_listeners(before, ms.last(), id);
        if covering(l.topic, ms.last().topic) {
            assert((l.queue + covered(l.topic, ms.drop_last())).push(ms.last()) =~= l.queue
                + covered(l.topic, ms));
        }
    }
}

/// A late subscriber misses what was published before it, and gets exactly the
/// covering messages of whatever is published after.
pub proof fn a_late_subscriber_gets_only_later_messages(
    bus: BusView,
    earlier: Seq<MessageView>,
    topic: Seq<char>,
    later: Seq<MessageView>,
)
    requires
        bus.wf(),
        bus.next_id < u64::MAX,
    ensures
        ({
            let joined = bus.published_all(earlier).subscribed(topic);
            let after = joined.published_all(later);
            &&& after.listener(bus.next_id as u64) is Some
            &&& after.listener(bus.next_id as u64)->0.queue == covered(topic, later)
        }),
{
    published_all_keeps_next_id(bus, earlier);
    publishing_keeps_wf(bus, earlier);
    let joined = bus.published_all(earlier).subscribed(topic);
    let id = bus.next_id as u64;
    assert(joined.listener(id) == Some(joined.listeners.last()));
    every_open_listener_gets_every_covering_message(joined, later, id);
    assert(Seq::<MessageView>::empty() + covered(topic, later) =~= covered(topic, later));
}

proof fn published_all_keeps_next_id(bus: BusView, ms: Seq<MessageView>)
    ensures
        bus.published_all(ms).next_id == bus.next_id,
    decreases ms.len(),
{
    if ms.len() > 0 {
        published_all_keeps_next_id(bus, ms.drop_last());
    }
}

/// Every run of publishes keeps the numbering.
pub proof fn publishing_keeps_wf(bus: BusView, ms: Seq<MessageView>)
    requires
        bus.wf(),
    ensures
        bus.published_all(ms).wf(),
    decreases ms.len(),
{
    if ms.len() > 0 {
        publishing_keeps_wf(bus, ms.drop_last());
        publish_keeps_wf(bus.published_all(ms.drop_last()), ms.last());
    }
}

proof fn listener_after_an_update(ls: Seq<ListenerView>, k: int, now: ListenerView, id: u64)
    requires
        0 <= k < ls.len(),
        now.id == ls[k].id,
        forall|i: int, j: int|
            0 <= i < j < ls.len() ==> (#[trigger] ls[i]).id < (#[trigger] ls[j]).id,
    ensures
        listener(ls.update(k, now), id) == (if ls[k].id == id {
            Some(now)
        } else {
            listener(ls, id)
        }),
    decreases ls.len(),
{
    let head = ls.drop_last();
    let last = ls.len() - 1;
    assert forall|i: int, j: int| 0 <= i < j < head.len() implies (#[trigger] head[i]).id < (
    #[trigger] head[j]).id by {
        assert(head[i] == ls[i] && head[j] == ls[j]);
    }
    if k == last {
        assert(ls.update(k, now).drop_last() =~= head);
    } else {
        assert(ls.update(k, now).drop_last() =~= head.update(k, now));
        assert(ls.update(k, now).last() == ls.last());
        assert(head[k] == ls[k]);
        listener_after_an_update(head, k, now, id);
        assert(ls[k].id < ls[last].id);
    }
}

proof fn a_registered_listener_has_a_place(ls: Seq<ListenerView>, id: u64)
    requires
        listener(ls, id) is Some,
    ensures
        0 <= place(ls, id) < ls.len(),
        listener(ls, id) == Some(ls[place(ls, id)]),
        ls[place(ls, id)].id == id,
    decreases ls.len(),
{
    if ls.last().id != id {
        a_registered_listener_has_a_place(ls.drop_last(), id);
    }
}

/// A receive takes the oldest message and leaves the others in their order, of this
/// subscription; every other is as it was, and an empty queue stays empty.
pub proof fn a_receive_takes_the_oldest_message(bus: BusView, id: u64, other: u64)
    requires
        bus.wf(),
        bus.listener(id) is Some,
    ensures
        ({
            let was = bus.listener(id)->0;
            let now = bus.received(id).listener(id);
            &&& now is Some
            &&& was.queue.len() > 0 ==> seq![was.queue[0]] + (now->0).queue == was.queue
            &&& was.queue.len() == 0 ==> (now->0).queue.len() == 0
            &&& (now->0).open == was.open
            &&& (now->0).topic == was.topic
            &&& other != id ==> bus.received(id).listener(other) == bus.listener(other)
            &&& bus.received(id).listeners.len() == bus.listeners.len()
        }),
{
    let was = bus.listener(id)->0;
    a_registered_listener_has_a_place(bus.listeners, id);
    if was.queue.len() > 0 {
        let k = place(bus.listeners, id);
        let now = ListenerView { queue: was.queue.skip(1), ..was };
        listener_after_an_update(bus.listeners, k, now, id);
        listener_after_an_update(bus.listeners, k, now, other);
        assert(seq![was.queue[0]] + was.queue.skip(1) =~= was.queue);
    }
}

/// A closed subscription keeps what it had and gets nothing more: its queue can still be
/// drained until the next publish, which removes it; no other subscription is affected.
pub proof fn a_closed_subscription_gets_nothing_more(
    bus: BusView,
    id: u64,
    other: u64,
    m: MessageView,
)
    requires
        bus.wf(),
        bus.listener(id) is Some,
    ensures
        ({
            let closed = bus.closed(id);
            &&& closed.listener(id) is Some
            &&& (closed.listener(id)->0).queue == (bus.listener(id)->0).queue
            &&& closed.published(m).listener(id) is None
            &&& other != id ==> closed.listener(other) == bus.listener(other)
            &&& other != id ==> closed.published(m).listener(other) == bus.published(m).listener(
                other,
            )
        }),
{
    let was = bus.listener(id)->0;
    let k = place(bus.listeners, id);
    let now = ListenerView { open: false, ..was };
    a_registered_listener_has_a_place(bus.listeners, id);
    listener_after_an_update(bus.listeners, k, now, id);
    listener_after_an_update(bus.listeners, k, now, other);
    let closed = bus.closed(id);
    assert forall|i: int| 0 <= i < closed.listeners.len() implies (
    #[trigger] closed.listeners[i]).id == bus.listeners[i].id by {}
    assert(closed.wf()) by {
        assert forall|i: int| 0 <= i < closed.listeners.len() implies (
        #[trigger] closed.listeners[i]).id < closed.next_id by {
            assert(bus.listeners[i].id < bus.next_id);
        }
        assert forall|i: int, j: int| 0 <= i < j < closed.listeners.len() implies (
        #[trigger] closed.listeners[i]).id < (#[trigger] closed.listeners[j]).id by {
            assert(bus.listeners[i].id < bus.listeners[j].id);
        }
    }
    a_publish_reaches_exactly_the_open_listeners(closed, m, id);
    a_publish_reaches_exactly_the_open_listeners(closed, m, other);
    a_publish_reaches_exactly_the_open_listeners(bus, m, other);
}

/// A new subscription is open and empty, under a number that none had, and leaves every
/// other as it was.
pub proof fn a_new_subscription_starts_open_and_empty(bus: BusView, topic: Seq<char>, other: u64)
    requires
        bus.wf(),
        bus.next_id < u64::MAX,
    ensures
        ({
            let id = bus.next_id as u64;
            let after = bus.subscribed(topic);
            &&& bus.listener(id) is None
            &&& after.listener(id) is Some
            &&& (after.listener(id)->0).open
            &&& (after.listener(id)->0).queue.len() == 0
            &&& (after.listener(id)->0).topic == topic
            &&& other != id ==> after.listener(other) == bus.listener(other)
            &&& after.listeners.len() == bus.listeners.len() + 1
        }),
{
    let after = bus.subscribed(topic);
    assert(after.listeners.drop_last() =~= bus.listeners);
    assert forall|i: int| 0 <= i < bus.listeners.len() implies (#[trigger] bus.listeners[i]).id
        != bus.next_id as u64 by {}
    no_other_has_the_number(bus.listeners, bus.next_id as u64);
}

/// A receive hands out the messages of a queue in the order they joined it: what it
/// returns and what it leaves are what was there. It returns none exactly where none is
/// there.
pub proof fn a_queue_is_received_in_order(
    before: BusView,
    id: u64,
    after: BusView,
    r: Option<Message>,
)
    requires
        before.wf(),
        before.listener(id) is Some,
        receive_result(before, id, after, r),
    ensures
        after.listener(id) is Some,
        r is None <==> (before.listener(id)->0).queue.len() == 0,
        r is Some ==> seq![(r->0)@] + (after.listener(id)->0).queue == (
        before.listener(id)->0).queue,
        r is None ==> after == before,
{
    a_receive_takes_the_oldest_message(before, id, id);
}

/// What is published to a topic that a subscription covers is what it receives next once
/// what was queued before has been received.
pub proof fn a_published_message_is_received(
    bus: BusView,
    m: MessageView,
    id: u64,
    after: BusView,
    r: Option<Message>,
)
    requires
        bus.wf(),
        bus.listener(id) is Some,
        (bus.listener(id)->0).open,
        (bus.listener(id)->0).queue.len() == 0,
        receive_result(bus.published(m), id, after, r),
    ensures
        r is Some <==> covering((bus.listener(id)->0).topic, m.topic),
        r is Some ==> (r->0)@ == m,
{
    a_publish_reaches_exactly_the_open_listeners(bus, m, id);
}

/// A subscription is of its own number, which no other had, and hears what is published
/// on its topic from then on: nothing of what was before.
pub proof fn a_subscription_hears_what_comes_after(
    before: BusView,
    topic: Seq<char>,
    after: BusView,
    s: Subscription,
    m: MessageView,
)
    requires
        before.wf(),
        subscribe_result(before, topic, after, Ok(s)),
    ensures
        before.listener(s.number()) is None,
        s.subject() == topic,
        after.wf(),
        after.listener(s.number()) is Some,
        (after.listener(s.number())->0).queue.len() == 0,
        after.published(m).listener(s.number()) is Some,
        covering(topic, m.topic) ==> (after.published(m).listener(s.number())->0).queue
            == seq![m],
        !covering(topic, m.topic) ==> (after.published(m).listener(
            s.number(),
        )->0).queue.len() == 0,
{
    a_new_subscription_starts_open_and_empty(before, topic, s.number());
    assert(after.wf()) by {
        assert forall|i: int, j: int| 0 <= i < j < after.listeners.len() implies (
        #[trigger] after.listeners[i]).id < (#[trigger] after.listeners[j]).id by {
            assert(after.listeners[i] == before.listeners[i]);
            if j < before.listeners.len() {
                assert(after.listeners[j] == before.listeners[j]);
            }
        }
        assert forall|i: int| 0 <= i < after.listeners.len() implies (
        #[trigger] after.listeners[i]).id < after.next_id by {
            if i < before.listeners.len() {
                assert(after.listeners[i] == before.listeners[i]);
            }
        }
    }
    a_publish_reaches_exactly_the_open_listeners(after, m, s.number());
}

/// A new bus has no subscription, and counts them one by one.
pub proof fn subscriptions_are_counted(
    bus: InProcBus,
    other: InProcBus,
    n: usize,
    before: BusView,
    topic: Seq<char>,
    after: BusView,
    s: Subscription,
)
    requires
        call_ensures(InProcBus::new, (), bus),
        call_ensures(InProcBus::default, (), other),
        call_ensures(InProcBus::subscriber_count, (&bus,), n),
        subscribe_result(before, topic, after, Ok(s)),
    ensures
        n == 0,
        bus@ == other@,
        after.listeners.len() == before.listeners.len() + 1,
{
}

} // verus!
