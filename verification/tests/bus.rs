//! Topics, messages and the in-process bus.
use loom::bus::channel::BusError;
use loom::bus::inproc::InProcBus;
use loom::bus::message::Message;
use loom::bus::relay::Clock;
use loom::bus::testing::ManualClock;
use loom::bus::testing::RecordingBus;
use loom::bus::topic::Topic;
use loom::domain::time::Timestamp;
use loom::store::OutboxEvent;
use loom::store::OutboxId;

#[test]
fn family_covers_its_descendants() {
    let job = Topic::job_lifecycle();
    assert!(job.covers(&Topic::new("job")));
    assert!(job.covers(&Topic::new("job.scheduled")));
    assert!(job.covers(&Topic::new("job.attempt.dispatched")));
}

#[test]
fn family_matches_only_on_a_dot_boundary() {
    let job = Topic::job_lifecycle();
    // A bare prefix is not a match: `job` must not swallow `jobs`.
    assert!(!job.covers(&Topic::new("jobs")));
    assert!(!job.covers(&Topic::new("jobstore.x")));
    assert!(!job.covers(&Topic::new("agent.heartbeat")));
}

#[test]
fn a_specific_subject_covers_only_itself_and_below() {
    let scheduled = Topic::new("job.scheduled");
    assert!(scheduled.covers(&Topic::new("job.scheduled")));
    assert!(!scheduled.covers(&Topic::new("job.dispatched")));
    // The family is broader than a specific subject, never the reverse.
    assert!(!scheduled.covers(&Topic::job_lifecycle()));
}

#[test]
fn agent_family_is_independent_of_job_family() {
    let agent = Topic::agent_events();
    assert!(agent.covers(&Topic::new("agent.heartbeat")));
    assert!(!agent.covers(&Topic::new("job.scheduled")));
}

#[test]
fn display_and_as_str_round_trip() {
    let t = Topic::new("job.scheduled");
    assert_eq!(t.as_str(), "job.scheduled");
    assert_eq!(t.to_string(), "job.scheduled");
    assert_eq!(Topic::from("job.scheduled"), t);
}

#[test]
fn an_owned_subject_becomes_a_topic() {
    assert_eq!(Topic::from(String::from("a.b")), Topic::new("a.b"));
    assert_eq!(Topic::new(&String::from("a.b")).as_str(), "a.b");
    assert!(Topic::new("").covers(&Topic::new("")));
    assert!(Topic::new("").covers(&Topic::new(".x")));
    assert!(!Topic::new("").covers(&Topic::new("x")));
}

#[test]
fn text_round_trips_through_payload_utf8() {
    let msg = Message::text(Topic::new("job.scheduled"), r#"{"job":"j1"}"#);
    assert_eq!(msg.payload_utf8().expect("utf8"), r#"{"job":"j1"}"#);
    assert!(msg.dedup_key.is_none());
}

#[test]
fn with_dedup_key_sets_identity() {
    let msg = Message::text(Topic::new("job.scheduled"), "{}").with_dedup_key("k1");
    assert_eq!(msg.dedup_key.as_deref(), Some("k1"));
}

#[test]
fn a_payload_that_is_not_text_is_refused_as_text() {
    let msg = Message::new(Topic::new("t"), vec![0xff, 0xfe]);
    assert!(msg.payload_utf8().is_err());
    assert_eq!(*msg.payload, vec![0xff, 0xfe]);
    let word = Message::text(Topic::new("t"), "h\u{e9}");
    assert_eq!(*word.payload, vec![0x68, 0xc3, 0xa9]);
    assert_eq!(word.payload_utf8().expect("utf8"), "h\u{e9}");
}

#[test]
fn an_outbox_row_becomes_a_message_with_its_identity() {
    let row = OutboxEvent {
        id: OutboxId(-7),
        topic: "job.scheduled".to_owned(),
        payload: "{}".to_owned(),
    };
    let msg = Message::from_outbox(&row);
    assert_eq!(msg.topic, Topic::new("job.scheduled"));
    assert_eq!(msg.payload_utf8().expect("utf8"), "{}");
    assert_eq!(msg.dedup_key.as_deref(), Some("outbox--7"));
    // A copy shares what it was made of.
    assert_eq!(msg.clone(), msg);
}

#[test]
fn a_covering_subscriber_receives_the_message() {
    let mut bus = InProcBus::new();
    let sub = bus.subscribe(Topic::job_lifecycle()).expect("subscribe");
    bus.publish(Message::text(Topic::new("job.scheduled"), "{}")).expect("publish");
    let got = bus.try_recv(&sub).expect("message");
    assert_eq!(got.topic, Topic::new("job.scheduled"));
}

#[test]
fn a_non_covering_subscriber_receives_nothing() {
    let mut bus = InProcBus::new();
    let agent = bus.subscribe(Topic::agent_events()).expect("subscribe");
    bus.publish(Message::text(Topic::new("job.scheduled"), "{}")).expect("publish");
    assert!(bus.try_recv(&agent).is_none());
}

#[test]
fn publishing_with_no_subscriber_is_a_no_op() {
    let mut bus = InProcBus::new();
    bus.publish(Message::text(Topic::new("job.scheduled"), "{}")).expect("publish");
    assert_eq!(bus.subscriber_count(), 0);
}

#[test]
fn a_dropped_subscriber_is_pruned_on_publish() {
    let mut bus = InProcBus::new();
    let sub = bus.subscribe(Topic::job_lifecycle()).expect("subscribe");
    assert_eq!(bus.subscriber_count(), 1);
    bus.close(&sub);
    bus.publish(Message::text(Topic::new("job.scheduled"), "{}")).expect("publish");
    assert_eq!(bus.subscriber_count(), 0);
}

/// A live subscriber receives every covering message, in order, and fan-out delivers
/// the same stream to every subscriber.
#[test]
fn every_live_subscriber_receives_every_covering_message() {
    let mut bus = InProcBus::new();
    let a = bus.subscribe(Topic::job_lifecycle()).expect("subscribe");
    let b = bus.subscribe(Topic::job_lifecycle()).expect("subscribe");

    let subjects = ["job.scheduled", "job.dispatched", "job.succeeded"];
    for subject in subjects {
        bus.publish(Message::text(Topic::new(subject), "{}")).expect("publish");
    }

    for subject in subjects {
        let want = Topic::new(subject);
        assert_eq!(bus.try_recv(&a).expect("a message").topic, want);
        assert_eq!(bus.try_recv(&b).expect("b message").topic, want);
    }
}

/// A subscription to a family sees the fine-grained subjects beneath it, and a
/// subscription to a different family sees none of them.
#[test]
fn family_subscription_filters_by_coverage() {
    let mut bus = InProcBus::new();
    let jobs = bus.subscribe(Topic::job_lifecycle()).expect("subscribe");
    let agents = bus.subscribe(Topic::agent_events()).expect("subscribe");

    bus.publish(Message::text(Topic::new("job.scheduled"), "{}")).expect("publish");
    bus.publish(Message::text(Topic::new("agent.heartbeat"), "{}")).expect("publish");

    assert_eq!(
        bus.try_recv(&jobs).expect("job message").topic,
        Topic::new("job.scheduled"),
    );
    assert!(bus.try_recv(&jobs).is_none(), "jobs sees no agent traffic");

    assert_eq!(
        bus.try_recv(&agents).expect("agent message").topic,
        Topic::new("agent.heartbeat"),
    );
    assert!(bus.try_recv(&agents).is_none(), "agents sees no job traffic");
}

/// A subscriber that joins after a publish does not see it: the bus is a live hint,
/// not a replayable log.
#[test]
fn a_late_subscriber_misses_earlier_messages() {
    let mut bus = InProcBus::new();
    bus.publish(Message::text(Topic::new("job.scheduled"), "{}")).expect("publish");
    let late = bus.subscribe(Topic::job_lifecycle()).expect("subscribe");
    assert!(
        bus.try_recv(&late).is_none(),
        "the earlier message is not replayed"
    );

    bus.publish(Message::text(Topic::new("job.dispatched"), "{}")).expect("publish");
    assert_eq!(
        bus.try_recv(&late).expect("later message").topic,
        Topic::new("job.dispatched"),
    );
}

/// A burst is buffered, not dropped: a consumer that drains later still gets the
/// whole burst.
#[test]
fn a_burst_is_buffered_not_dropped() {
    const BURST: usize = 1_000;

    let mut bus = InProcBus::new();
    let sub = bus.subscribe(Topic::job_lifecycle()).expect("subscribe");

    for i in 0..BURST {
        bus.publish(Message::text(Topic::new("job.tick"), &i.to_string())).expect("publish");
    }

    for i in 0..BURST {
        let message = bus.try_recv(&sub).expect("buffered message");
        assert_eq!(message.payload_utf8().expect("utf8"), i.to_string());
    }
    assert!(bus.try_recv(&sub).is_none(), "exactly the burst, nothing more");
}

#[test]
fn a_closed_subscription_gets_no_further_message() {
    let mut bus = InProcBus::default();
    let kept = bus.subscribe(Topic::job_lifecycle()).expect("subscribe");
    let closed = bus.subscribe(Topic::job_lifecycle()).expect("subscribe");
    assert_eq!(closed.topic(), &Topic::job_lifecycle());
    bus.close(&closed);
    bus.publish(Message::text(Topic::new("job"), "1")).expect("publish");
    assert!(bus.try_recv(&closed).is_none());
    assert!(bus.try_recv(&kept).is_some());
}

#[test]
fn recording_bus_captures_and_delivers() {
    let mut bus = RecordingBus::new();
    let sub = bus.subscribe(Topic::job_lifecycle()).expect("subscribe");
    bus.publish(Message::text(Topic::new("job.scheduled"), "{}")).expect("publish");
    // Delivered to the subscriber ...
    assert!(bus.try_recv(&sub).is_some());
    // ... and captured for assertions.
    assert_eq!(
        bus.published_topics(),
        vec![Topic::new("job.scheduled")],
        "the published subject is recorded",
    );
    assert_eq!(bus.published().len(), 1);
    assert_eq!(bus.published()[0].payload_utf8().expect("utf8"), "{}");
}

#[test]
fn manual_clock_advances() {
    let mut clock = ManualClock::new(Timestamp::from_millis(1_000));
    assert_eq!(clock.now(), Timestamp::from_millis(1_000));
    clock.advance_millis(500);
    assert_eq!(clock.now(), Timestamp::from_millis(1_500));
    clock.set(Timestamp::from_millis(9_000));
    assert_eq!(clock.now(), Timestamp::from_millis(9_000));
}

#[test]
fn a_bus_failure_reads_as_its_backend_says() {
    let e = BusError::Backend("down".to_owned());
    assert_eq!(e.to_string(), "bus transport error: down");
}

#[test]
fn families_cover_what_their_descendants_cover() {
    let family = Topic::new("a");
    let child = Topic::new("a.b");
    let leaf = Topic::new("a.b.c");
    assert!(family.covers(&child) && child.covers(&leaf) && family.covers(&leaf));
    assert!(!child.covers(&family) && !leaf.covers(&child));
}
