//! The outbox relay: drains outbox rows onto the bus.
//!
//! A state change and the row that announces it are written in one store
//! transaction. The relay is the other half: it reads unsent rows oldest first,
//! publishes each, and marks it sent. The order is publish-then-ack, so a crash
//! between the two leaves the row unsent and it redelivers.
//!
//! One pass is a [`Drain`]: it says what to do next ([`Drain::next_action`]) and
//! takes what came of it. The caller performs the reads, publishes and acks.
use crate::bus::channel::BusError;
use crate::bus::message::outbox_key;
use crate::bus::message::outbox_message;
use crate::bus::message::Message;
use crate::bus::message::MessageView;
use crate::domain::time::Timestamp;
use crate::duration::Duration;
use crate::store::OutboxEvent;
use crate::store::OutboxId;
use crate::store::StoreError;
use crate::text::labelled;
use vstd::utf8::encode_utf8;
use vstd::prelude::*;

verus! {

/// The wall-clock source that acks are stamped with.
pub trait Clock {
    /// The current instant.
    fn now(&self) -> Timestamp;
}

/// How the relay drains: batch size and poll cadence.
#[derive(Debug, Clone, Copy, PartialEq, Eq, Structural)]
pub struct RelayConfig {
    /// The maximum rows drained in one pass.
    pub batch_limit: u32,
    /// How often the relay drains absent an explicit wakeup.
    pub poll_interval: Duration,
}

impl Default for RelayConfig {
    fn default() -> (c: Self)
        ensures
            c.batch_limit == 128,
            c.poll_interval@ == 1_000_000_000,
    {
        RelayConfig { batch_limit: 128, poll_interval: Duration::from_secs(1) }
    }
}

/// The outcome of one pass.
#[derive(Debug, Clone, Copy, PartialEq, Eq, Structural)]
pub struct DrainSummary {
    /// Rows published onto the bus this pass.
    pub published: usize,
    /// Rows successfully marked sent this pass.
    pub acked: usize,
}

impl Default for DrainSummary {
    fn default() -> (s: Self)
        ensures
            s == (DrainSummary { published: 0, acked: 0 }),
    {
        DrainSummary { published: 0, acked: 0 }
    }
}

impl DrainSummary {
    /// Rows published but not acked: they stay unsent and redeliver next pass.
    #[must_use]
    pub fn missed_acks(self) -> (n: usize)
        ensures
            n == (if self.published >= self.acked {
                self.published - self.acked
            } else {
                0
            }),
    {
        self.published.saturating_sub(self.acked)
    }
}

/// A failure that aborts a pass. A failed ack is not one of these: the row simply
/// redelivers.
#[derive(Debug, PartialEq, Eq)]
#[non_exhaustive]
pub enum RelayError {
    /// Reading the outbox failed.
    Source(StoreError),
    /// Publishing a row onto the bus failed; the row stays unsent.
    Publish(BusError),
}

impl RelayError {
    /// What the failure says of itself.
    pub open spec fn message(self) -> Seq<char> {
        match self {
            RelayError::Source(e) => "reading the outbox failed: "@ + e.message(),
            RelayError::Publish(e) => "publishing to the bus failed: "@ + e.message(),
        }
    }

    /// What the failure says of itself.
    pub fn to_string(&self) -> (s: String)
        ensures
            s@ == self.message(),
    {
        match self {
            RelayError::Source(e) => labelled(
                "reading the outbox failed: ",
                e.to_string().as_str(),
            ),
            RelayError::Publish(e) => labelled(
                "publishing to the bus failed: ",
                e.to_string().as_str(),
            ),
        }
    }
}

/// What the caller of a pass is to do next.
#[derive(Debug)]
pub enum DrainAction {
    /// Publish this message, then report to [`Drain::on_published`].
    Publish(Message),
    /// Mark this row sent, then report to [`Drain::on_acked`].
    Ack(OutboxId),
    /// The pass is over.
    Done(DrainSummary),
}

/// Where a pass stands, as values.
#[verifier::ext_equal]
pub struct DrainView {
    /// The rows of the pass, oldest first.
    pub rows: Seq<OutboxEvent>,
    /// How many rows are behind it.
    pub at: nat,
    /// Whether the row at hand has been published and awaits its ack.
    pub awaiting_ack: bool,
    /// Rows published so far.
    pub published: nat,
    /// Rows marked sent so far.
    pub acked: nat,
}

/// What a pass does next, as values.
pub enum NextView {
    /// Publish a message.
    Publish(MessageView),
    /// Mark a row sent.
    Ack(OutboxId),
    /// The pass is over, with this many rows published and acked.
    Done(nat, nat),
}

impl DrainView {
    /// A pass over `rows` that has done nothing yet.
    pub open spec fn start(rows: Seq<OutboxEvent>) -> DrainView {
        DrainView { rows, at: 0, awaiting_ack: false, published: 0, acked: 0 }
    }

    /// What every pass keeps: a row is behind it once published and acked or
    /// missed, and no more rows are acked than are behind it.
    pub open spec fn wf(self) -> bool {
        &&& self.at <= self.rows.len()
        &&& self.awaiting_ack ==> self.at < self.rows.len()
        &&& self.published == self.at + (if self.awaiting_ack {
            1nat
        } else {
            0
        })
        &&& self.acked <= self.at
    }

    /// What to do next: publish the row at hand, then ack it, then go on.
    pub open spec fn next(self) -> NextView {
        if self.at >= self.rows.len() {
            NextView::Done(self.published, self.acked)
        } else if self.awaiting_ack {
            NextView::Ack(self.rows[self.at as int].id)
        } else {
            NextView::Publish(outbox_message(self.rows[self.at as int]))
        }
    }

    /// The pass after a successful publish.
    pub open spec fn after_publish(self) -> DrainView {
        DrainView { awaiting_ack: true, published: self.published + 1, ..self }
    }

    /// The pass after an ack that succeeded or not.
    pub open spec fn after_ack(self, ok: bool) -> DrainView {
        DrainView {
            at: self.at + 1,
            awaiting_ack: false,
            acked: self.acked + (if ok {
                1nat
            } else {
                0
            }),
            ..self
        }
    }

    /// The pass after as many rows as there are outcomes, each published and then
    /// acked with the given outcome.
    pub open spec fn after_rows(self, acks: Seq<bool>) -> DrainView
        decreases acks.len(),
    {
        if acks.len() == 0 {
            self
        } else {
            self.after_rows(acks.drop_last()).after_publish().after_ack(acks.last())
        }
    }
}

/// What reporting a publish does and returns: the pass goes on to the ack, or stops where
/// it is with the failure.
pub open spec fn publish_result(
    before: DrainView,
    outcome: Result<(), BusError>,
    after: DrainView,
    r: Result<(), RelayError>,
) -> bool {
    match (outcome, r) {
        (Ok(_), Ok(_)) => after == before.after_publish(),
        (Err(e), Err(RelayError::Publish(f))) => e == f && after == before,
        _ => false,
    }
}

/// What reporting an ack does: the pass goes on to the next row, and counts the ack where
/// it succeeded.
pub open spec fn ack_result(
    before: DrainView,
    outcome: Result<(), StoreError>,
    after: DrainView,
) -> bool {
    after == before.after_ack(outcome is Ok)
}

/// One pass over a batch of outbox rows.
#[derive(Debug)]
pub struct Drain {
    rows: Vec<OutboxEvent>,
    at: usize,
    awaiting_ack: bool,
    acked: usize,
}

impl View for Drain {
    type V = DrainView;

    closed spec fn view(&self) -> DrainView {
        DrainView {
            rows: self.rows@,
            at: self.at as nat,
            awaiting_ack: self.awaiting_ack,
            published: if self.awaiting_ack {
                (self.at + 1) as nat
            } else {
                self.at as nat
            },
            acked: self.acked as nat,
        }
    }
}

impl Drain {
    /// Every pass is well formed.
    #[verifier::type_invariant]
    spec fn kept(self) -> bool {
        self@.wf()
    }

    /// Begins a pass with what reading the outbox gave.
    ///
    /// # Errors
    /// [`RelayError::Source`] where the read failed.
    pub fn begin(read: Result<Vec<OutboxEvent>, StoreError>) -> (r: Result<Drain, RelayError>)
        ensures
            match (read, r) {
                (Ok(rows), Ok(d)) => d@ == DrainView::start(rows@) && d@.wf(),
                (Err(e), Err(RelayError::Source(f))) => e == f,
                _ => false,
            },
    {
        match read {
            Ok(rows) => Ok(Drain { rows, at: 0, awaiting_ack: false, acked: 0 }),
            Err(e) => Err(RelayError::Source(e)),
        }
    }

    /// What to do next.
    #[must_use]
    pub fn next_action(&self) -> (a: DrainAction)
        ensures
            match (a, self@.next()) {
                (DrainAction::Publish(m), NextView::Publish(v)) => m@ == v,
                (DrainAction::Ack(i), NextView::Ack(j)) => i == j,
                (DrainAction::Done(s), NextView::Done(p, k)) => s.published == p && s.acked == k,
                _ => false,
            },
    {
        proof {
            use_type_invariant(self);
        }
        if self.at >= self.rows.len() {
            DrainAction::Done(DrainSummary { published: self.at, acked: self.acked })
        } else if self.awaiting_ack {
            DrainAction::Ack(self.rows[self.at].id)
        } else {
            DrainAction::Publish(Message::from_outbox(&self.rows[self.at]))
        }
    }

    /// Takes what came of a publish.
    ///
    /// # Errors
    /// [`RelayError::Publish`] where the publish failed: the pass stops there,
    /// leaving that row and the rest unsent.
    pub fn on_published(&mut self, outcome: Result<(), BusError>) -> (r: Result<(), RelayError>)
        requires
            old(self)@.next() is Publish,
        ensures
            final(self)@.wf(),
            publish_result(old(self)@, outcome, final(self)@, r),
    {
        proof {
            use_type_invariant(&*self);
        }
        match outcome {
            Ok(_) => {
                self.awaiting_ack = true;
                Ok(())
            },
            Err(e) => Err(RelayError::Publish(e)),
        }
    }

    /// Takes what came of an ack. A failed one leaves the row unsent, to be
    /// redelivered on the next pass.
    pub fn on_acked(&mut self, outcome: &Result<(), StoreError>)
        requires
            old(self)@.next() is Ack,
        ensures
            final(self)@.wf(),
            ack_result(old(self)@, *outcome, final(self)@),
    {
        proof {
            use_type_invariant(&*self);
            assert(self.at < self.rows.len());
        }
        self.awaiting_ack = false;
        self.at = self.at + 1;
        if outcome.is_ok() {
            self.acked = self.acked + 1;
        }
    }
}

/// How many of the acks succeeded.
pub open spec fn successes(acks: Seq<bool>) -> nat
    decreases acks.len(),
{
    if acks.len() == 0 {
        0
    } else {
        successes(acks.drop_last()) + (if acks.last() {
            1nat
        } else {
            0
        })
    }
}

/// Each row is published, then acked, and only then comes the next: a row is never
/// marked sent before it was published, and what is acked is the row that was
/// published last.
pub proof fn each_row_is_published_and_then_acked(d: DrainView, ok: bool)
    requires
        d.wf(),
        d.next() is Publish,
    ensures
        d.at < d.rows.len(),
        d.next() == NextView::Publish(outbox_message(d.rows[d.at as int])),
        d.after_publish().wf(),
        d.after_publish().next() == NextView::Ack(d.rows[d.at as int].id),
        d.after_publish().after_ack(ok).wf(),
        d.after_publish().after_ack(ok).at == d.at + 1,
{
}

/// A pass whose publishes succeed covers every row once, whatever becomes of the
/// acks: it ends after the last row, having published them all and acked those
/// whose ack succeeded. A failing ack cannot make it spin.
pub proof fn a_pass_publishes_every_row_once(rows: Seq<OutboxEvent>, acks: Seq<bool>)
    requires
        acks.len() <= rows.len(),
    ensures
        ({
            let d = DrainView::start(rows).after_rows(acks);
            &&& d.wf()
            &&& d.rows == rows
            &&& d.at == acks.len()
            &&& !d.awaiting_ack
            &&& d.published == acks.len()
            &&& d.acked == successes(acks)
            &&& acks.len() < rows.len() ==> d.next() == NextView::Publish(
                outbox_message(rows[acks.len() as int]),
            )
            &&& acks.len() == rows.len() ==> d.next() == NextView::Done(
                rows.len(),
                successes(acks),
            )
        }),
    decreases acks.len(),
{
    if acks.len() > 0 {
        a_pass_publishes_every_row_once(rows, acks.drop_last());
    }
}

/// The rows whose ack failed, in order.
pub open spec fn missed(rows: Seq<OutboxEvent>, acks: Seq<bool>) -> Seq<OutboxEvent>
    decreases acks.len(),
{
    if acks.len() == 0 {
        Seq::empty()
    } else if acks.last() {
        missed(rows, acks.drop_last())
    } else {
        missed(rows, acks.drop_last()).push(rows[acks.len() - 1])
    }
}

/// The rows that an outbox still holds unsent after a pass over `rows` got as far
/// as the given acks: those whose ack failed, and those not reached.
pub open spec fn still_unsent(rows: Seq<OutboxEvent>, acks: Seq<bool>) -> Seq<OutboxEvent> {
    missed(rows, acks) + rows.skip(acks.len() as int)
}

/// At least once: after a pass, however far it got, every row either was
/// published and marked sent, or is still unsent and so comes up again, under the
/// same dedup key.
pub proof fn no_row_is_lost(rows: Seq<OutboxEvent>, acks: Seq<bool>, i: int)
    requires
        acks.len() <= rows.len(),
        0 <= i < rows.len(),
    ensures
        (i < acks.len() && acks[i]) || still_unsent(rows, acks).contains(rows[i]),
{
    let left = still_unsent(rows, acks);
    if i >= acks.len() {
        let k = missed(rows, acks).len() + (i - acks.len());
        assert(left[k] == rows[i]);
    } else if !acks[i] {
        missed_holds(rows, acks, i);
        let k = choose|k: int|
            0 <= k < missed(rows, acks).len() && missed(rows, acks)[k] == rows[i];
        assert(left[k] == rows[i]);
    }
}

proof fn missed_holds(rows: Seq<OutboxEvent>, acks: Seq<bool>, i: int)
    requires
        0 <= i < acks.len(),
        !acks[i],
    ensures
        missed(rows, acks).contains(rows[i]),
    decreases acks.len(),
{
    let ms = missed(rows, acks);
    if i == acks.len() - 1 {
        assert(ms[ms.len() - 1] == rows[i]);
    } else {
        let before = missed(rows, acks.drop_last());
        missed_holds(rows, acks.drop_last(), i);
        let k = choose|k: int| 0 <= k < before.len() && before[k] == rows[i];
        assert(ms[k] == rows[i]);
    }
}

/// Exactly once in effect: a pass whose acks all succeed leaves nothing unsent,
/// so the next pass publishes nothing.
pub proof fn a_fully_acked_pass_leaves_nothing(rows: Seq<OutboxEvent>, acks: Seq<bool>)
    requires
        acks.len() == rows.len(),
        forall|i: int| 0 <= i < acks.len() ==> #[trigger] acks[i],
    ensures
        still_unsent(rows, acks) == Seq::<OutboxEvent>::empty(),
        DrainView::start(still_unsent(rows, acks)).next() == NextView::Done(0, 0),
{
    nothing_missed(rows, acks);
    assert(still_unsent(rows, acks) =~= Seq::<OutboxEvent>::empty());
}

proof fn nothing_missed(rows: Seq<OutboxEvent>, acks: Seq<bool>)
    requires
        forall|i: int| 0 <= i < acks.len() ==> #[trigger] acks[i],
    ensures
        missed(rows, acks) == Seq::<OutboxEvent>::empty(),
    decreases acks.len(),
{
    if acks.len() > 0 {
        assert(acks[acks.len() - 1]);
        nothing_missed(rows, acks.drop_last());
    }
}

/// The acks that a pass missed and those that it got make up what it published.
pub proof fn missed_and_got_acks_make_up_the_published(s: DrainSummary, n: usize)
    requires
        call_ensures(DrainSummary::missed_acks, (s,), n),
        s.acked <= s.published,
    ensures
        n + s.acked == s.published,
{
}

/// A pass goes over its rows in the order it read them: what it publishes is the row that
/// as many rows are behind, and the rows themselves never change.
pub proof fn rows_are_published_in_the_order_they_were_read(
    rows: Seq<OutboxEvent>,
    acks: Seq<bool>,
    ok: bool,
)
    requires
        acks.len() < rows.len(),
    ensures
        ({
            let d = DrainView::start(rows).after_rows(acks);
            let row = rows[acks.len() as int];
            &&& d.next() is Publish
            &&& d.next()->Publish_0.topic == row.topic@
            &&& d.after_publish().next() == NextView::Ack(row.id)
            &&& d.after_publish().after_ack(ok).published == d.published + 1
            &&& d.after_publish().after_ack(ok).acked == d.acked + (if ok {
                1int
            } else {
                0
            })
            &&& d.after_publish().after_ack(ok).rows == rows
        }),
{
    a_pass_publishes_every_row_once(rows, acks);
}

/// A row whose publish failed is not marked sent: the pass stops with that failure, and
/// what it would do next is publish the same message again.
pub proof fn a_failed_publish_stops_the_pass(
    before: DrainView,
    outcome: Result<(), BusError>,
    after: DrainView,
    r: Result<(), RelayError>,
)
    requires
        before.wf(),
        before.next() is Publish,
        publish_result(before, outcome, after, r),
    ensures
        r is Ok <==> outcome is Ok,
        r is Err ==> r->Err_0 == RelayError::Publish(outcome->Err_0),
        r is Err ==> after.next() == before.next() && after.published == before.published,
        r is Ok ==> after.next() is Ack && after.published == before.published + 1,
        after.acked == before.acked,
{
}

/// An ack is counted exactly where it succeeded, and either way the pass goes on to the
/// next row; a failed one never stops it.
pub proof fn an_ack_is_counted_if_it_succeeded(
    before: DrainView,
    outcome: Result<(), StoreError>,
    after: DrainView,
)
    requires
        before.wf(),
        before.next() is Ack,
        ack_result(before, outcome, after),
    ensures
        outcome is Ok ==> after.acked == before.acked + 1,
        outcome is Err ==> after.acked == before.acked,
        after.at == before.at + 1,
        after.published == before.published,
        after.next() !is Ack,
        after.rows == before.rows,
{
}

/// A pass begins with the rows that were read, none of them done, and only where reading
/// them succeeded; an outbox without rows is a pass that is over.
pub proof fn a_pass_begins_with_what_was_read(
    read: Result<Vec<OutboxEvent>, StoreError>,
    r: Result<Drain, RelayError>,
    a: DrainAction,
)
    requires
        call_ensures(Drain::begin, (read,), r),
        r is Ok ==> call_ensures(Drain::next_action, (&(r->Ok_0),), a),
    ensures
        r is Ok <==> read is Ok,
        r is Err ==> r->Err_0 == RelayError::Source(read->Err_0),
        read is Ok && (read->Ok_0)@.len() == 0 ==> a is Done && (a->Done_0).published == 0 && (
        a->Done_0).acked == 0,
        read is Ok && (read->Ok_0)@.len() > 0 ==> a is Publish && (a->Publish_0)@.topic == (
        read->Ok_0)@[0].topic@,
{
}

/// What a pass does at each point, told as it is by the caller: publish a row that is not
/// published yet, with the row's topic and text, mark a row sent that is, and end with the
/// counts once no row is left.
pub proof fn what_a_pass_does_next(d: Drain, a: DrainAction)
    requires
        call_ensures(Drain::next_action, (&d,), a),
        d@.wf(),
    ensures
        a is Done <==> d@.at == d@.rows.len(),
        a is Done ==> (a->Done_0).published == d@.rows.len() && (a->Done_0).acked == d@.acked,
        a is Ack <==> d@.awaiting_ack,
        a is Ack ==> a->Ack_0 == d@.rows[d@.at as int].id,
        a is Publish ==> {
            let row = d@.rows[d@.at as int];
            &&& (a->Publish_0)@.topic == row.topic@
            &&& (a->Publish_0)@.payload == encode_utf8(row.payload@)
            &&& (a->Publish_0)@.dedup_key == Some(outbox_key(row.id.0))
        },
{
}

} // verus!
