//! Draining the outbox onto the bus.
use loom::bus::channel::BusError;
use loom::bus::inproc::InProcBus;
use loom::bus::relay::Drain;
use loom::bus::relay::DrainAction;
use loom::bus::relay::DrainSummary;
use loom::bus::relay::RelayConfig;
use loom::bus::relay::RelayError;
use loom::bus::topic::Topic;
use loom::duration::Duration;
use loom::store::OutboxEvent;
use loom::store::OutboxId;
use loom::store::StoreError;

/// An outbox in memory, which can be told to fail its next acks.
struct Outbox {
    rows: Vec<(OutboxEvent, bool)>,
    fail_marks: usize,
}

impl Outbox {
    fn new(fail_marks: usize) -> Self {
        Outbox { rows: Vec::new(), fail_marks }
    }

    fn enqueue(&mut self, topic: &str, ms: i64) {
        let id = OutboxId(self.rows.len() as i64 + 1);
        let event = OutboxEvent {
            id,
            topic: topic.to_owned(),
            payload: format!(r#"{{"at":{ms}}}"#),
        };
        self.rows.push((event, false));
    }

    fn list_unsent(&self, limit: u32) -> Vec<OutboxEvent> {
        let unsent = self.rows.iter().filter(|r| !r.1);
        unsent.take(limit as usize).map(|r| r.0.clone()).collect()
    }

    fn mark_sent(&mut self, id: OutboxId) -> Result<(), StoreError> {
        if self.fail_marks > 0 {
            self.fail_marks -= 1;
            return Err(StoreError::Backend("injected ack failure".to_owned()));
        }
        for row in &mut self.rows {
            if row.0.id == id {
                row.1 = true;
            }
        }
        Ok(())
    }
}

fn drain_once(outbox: &mut Outbox, bus: &mut InProcBus, limit: u32) -> DrainSummary {
    let mut drain = Drain::begin(Ok(outbox.list_unsent(limit))).expect("begin");
    loop {
        match drain.next_action() {
            DrainAction::Publish(message) => {
                bus.publish(message).expect("publish");
                drain.on_published(Ok(())).expect("published");
            }
            DrainAction::Ack(id) => {
                let outcome = outbox.mark_sent(id);
                drain.on_acked(&outcome);
            }
            DrainAction::Done(summary) => return summary,
        }
    }
}

/// A drain publishes every unsent row to the right family and marks it sent, and a
/// second drain publishes nothing: a sent row is never republished.
#[test]
fn relay_drains_the_outbox_exactly_once_in_effect() {
    let mut store = Outbox::new(0);
    store.enqueue("job.scheduled", 1_000);
    store.enqueue("job.dispatched", 2_000);
    store.enqueue("agent.heartbeat", 3_000);

    let mut bus = InProcBus::new();
    let jobs = bus.subscribe(Topic::job_lifecycle()).expect("subscribe");
    let agents = bus.subscribe(Topic::agent_events()).expect("subscribe");

    let summary = drain_once(&mut store, &mut bus, 16);
    assert_eq!(
        summary,
        DrainSummary {
            published: 3,
            acked: 3
        },
    );

    // The job family sees both job.* nudges, oldest first; the agent family sees
    // only the heartbeat.
    assert_eq!(
        bus.try_recv(&jobs).expect("job 1").topic,
        Topic::new("job.scheduled"),
    );
    assert_eq!(
        bus.try_recv(&jobs).expect("job 2").topic,
        Topic::new("job.dispatched"),
    );
    assert!(bus.try_recv(&jobs).is_none());
    assert_eq!(
        bus.try_recv(&agents).expect("agent 1").topic,
        Topic::new("agent.heartbeat"),
    );

    // The store is drained.
    assert!(store.list_unsent(16).is_empty());

    // A second drain is a no-op: nothing published, nothing delivered.
    let again = drain_once(&mut store, &mut bus, 16);
    assert_eq!(again, DrainSummary::default());
    assert!(bus.try_recv(&jobs).is_none());
    assert!(bus.try_recv(&agents).is_none());
}

/// A missed ack redelivers the row on the next drain, and both deliveries carry the
/// same dedup key.
#[test]
fn a_missed_ack_redelivers_with_a_stable_dedup_key() {
    let mut store = Outbox::new(1); // fail exactly one ack
    store.enqueue("job.scheduled", 1_000);
    let limit = RelayConfig::default().batch_limit;

    let mut bus = InProcBus::new();
    let sub = bus.subscribe(Topic::job_lifecycle()).expect("subscribe");

    // Drain 1: the row publishes, but the ack fails and it stays unsent.
    let first = drain_once(&mut store, &mut bus, limit);
    assert_eq!(
        first,
        DrainSummary {
            published: 1,
            acked: 0
        },
    );
    assert_eq!(first.missed_acks(), 1);
    let delivery_1 = bus.try_recv(&sub).expect("first delivery");
    assert!(
        !store.list_unsent(16).is_empty(),
        "an unacked row stays pending",
    );

    // Drain 2: the same row redelivers and now acks.
    let second = drain_once(&mut store, &mut bus, limit);
    assert_eq!(
        second,
        DrainSummary {
            published: 1,
            acked: 1
        },
    );
    let delivery_2 = bus.try_recv(&sub).expect("redelivery");

    // Same event, twice: dedup key and subject are stable across redelivery.
    assert!(delivery_1.dedup_key.is_some());
    assert_eq!(delivery_1.dedup_key, delivery_2.dedup_key);
    assert_eq!(delivery_1.topic, delivery_2.topic);

    // Drain 3: fully drained.
    let third = drain_once(&mut store, &mut bus, limit);
    assert_eq!(third, DrainSummary::default());
    assert!(store.list_unsent(16).is_empty());
    assert!(bus.try_recv(&sub).is_none());
}

/// One drain pass never exceeds the batch limit; successive passes clear a backlog.
#[test]
fn the_batch_limit_bounds_one_pass() {
    let mut store = Outbox::new(0);
    for i in 0..5 {
        store.enqueue("job.scheduled", 1_000 + i);
    }
    let mut bus = InProcBus::new();
    assert_eq!(drain_once(&mut store, &mut bus, 2).published, 2);
    assert_eq!(drain_once(&mut store, &mut bus, 2).published, 2);
    assert_eq!(drain_once(&mut store, &mut bus, 2).published, 1);
    assert_eq!(drain_once(&mut store, &mut bus, 2).published, 0);
    assert!(store.list_unsent(16).is_empty());
}

#[test]
fn a_failed_read_aborts_the_pass() {
    let failed = Drain::begin(Err(StoreError::Backend("gone".to_owned())));
    assert!(matches!(failed, Err(RelayError::Source(StoreError::Backend(m))) if m == "gone"));
}

#[test]
fn a_failed_publish_aborts_the_pass_before_the_ack() {
    let mut store = Outbox::new(0);
    store.enqueue("job.scheduled", 1);
    let mut drain = Drain::begin(Ok(store.list_unsent(1))).expect("begin");
    assert!(matches!(drain.next_action(), DrainAction::Publish(_)));
    let refused = drain.on_published(Err(BusError::Backend("down".to_owned())));
    assert_eq!(
        refused,
        Err(RelayError::Publish(BusError::Backend("down".to_owned())))
    );
    assert_eq!(store.list_unsent(1).len(), 1);
}

#[test]
fn the_relay_drains_a_bounded_batch_each_second_by_default() {
    let config = RelayConfig::default();
    assert_eq!(config.batch_limit, 128);
    assert_eq!(config.poll_interval, Duration::from_secs(1));
    let more_acked = DrainSummary { published: 1, acked: 2 };
    assert_eq!(more_acked.missed_acks(), 0);
}
