//! The host agent: configuration, backoff, identity, and its side of enrollment.
use loom::duration::Duration;
use loom::hostd::clock::FixedClock;
use loom::hostd::clock::SystemClock;
use loom::hostd::clock::WallClock;
use loom::hostd::config::ConfigError;
use loom::hostd::config::HostdConfig;
use loom::hostd::config::ReconnectConfig;
use loom::hostd::config::DEFAULT_HEARTBEAT_MS;
use loom::hostd::config::DEFAULT_SPOOL_CAP_BYTES;
use loom::hostd::connect::BackoffPolicy;
use loom::hostd::connect::Jitter;
use loom::hostd::connect::WssConnector;
use loom::hostd::enroll::EnrollError;
use loom::hostd::enroll::Enroller;
use loom::hostd::enroll::Enrollment;
use loom::hostd::enroll::EnrollmentRequest;
use loom::hostd::enroll::NodeProfile;
use loom::hostd::enroll::Retry;
use loom::hostd::enroll::RetryStep;
use loom::hostd::identity::CsrProvider;
use loom::hostd::identity::EnrolledNode;
use loom::hostd::identity::KeyMaterial;
use loom::hostd::identity::KeystoreError;
use loom::hostd::identity::PlaceholderCsr;
use loom::hostd::transport::recv_step;
use loom::hostd::transport::TransportError;
use loom::hostd::wire::envelope;
use loom::hostd::wire::supported_versions;
use loom::hostd::wire::MsgIdGen;
use loom::hostd::wire::PROTOCOL_VERSION;
use loom::proto::codec::wss_frame;
use loom::proto::codec::Channel;
use loom::proto::codec::CodecError;
use loom::proto::receive::WsEvent;
use loom::proto::v1::AgentConfig;
use loom::proto::v1::Backend;
use loom::proto::v1::Body;
use loom::proto::v1::EnrollGrant;
use loom::proto::v1::EnrollRequest;
use loom::proto::v1::Envelope;
use loom::proto::v1::Heartbeat;
use loom::proto::v1::JobAccept;
use loom::proto::v1::MemoryModel;

fn sample_config() -> HostdConfig {
    HostdConfig {
        control_endpoint: "ws://loomd.local:8443/agent".to_string(),
        enroll_token: "single-use-T".to_string(),
        data_dir: "/var/lib/loom-hostd".to_string(),
        agent_name: Some("rig-01".to_string()),
        heartbeat_interval_ms: 10_000,
        spool_cap_bytes: DEFAULT_SPOOL_CAP_BYTES,
        reconnect: ReconnectConfig::default(),
    }
}

#[test]
fn fixed_clock_is_constant() {
    assert_eq!(FixedClock(42).now_unix_ms(), 42);
}

#[test]
fn system_clock_is_after_2020() {
    // 2020-01-01T00:00:00Z in ms: a sanity floor that the real clock is plausible.
    assert!(SystemClock.now_unix_ms() > 1_577_836_800_000);
}

#[test]
fn empty_endpoint_is_rejected() {
    let cfg = HostdConfig {
        control_endpoint: "   ".to_string(),
        enroll_token: String::new(),
        data_dir: "/tmp/x".into(),
        agent_name: None,
        heartbeat_interval_ms: 15_000,
        spool_cap_bytes: 1,
        reconnect: ReconnectConfig::default(),
    };
    assert!(matches!(cfg.validate(), Err(ConfigError::Invalid(_))));
}

#[test]
fn zero_heartbeat_is_rejected() {
    let mut cfg = sample_config();
    cfg.heartbeat_interval_ms = 0;
    assert!(matches!(cfg.validate(), Err(ConfigError::Invalid(_))));
}

#[test]
fn a_configuration_is_judged_field_by_field() {
    let cfg = sample_config();
    assert_eq!(cfg.validate(), Ok(()));
    assert_eq!(cfg.keystore_path(), "/var/lib/loom-hostd/keystore.json");
    assert_eq!(cfg.spool_path(), "/var/lib/loom-hostd/spool.log");
    assert_eq!(cfg.heartbeat_interval(), Duration::from_secs(10));
    assert_eq!(cfg.spool_cap_bytes, 64 * 1024 * 1024);
    assert_eq!(cfg.reconnect.base_ms, 500);
    assert_eq!(cfg.reconnect.cap_ms, 30_000);
    assert_eq!(DEFAULT_HEARTBEAT_MS, 15_000);

    let mut bare = sample_config();
    bare.data_dir = String::new();
    assert_eq!(bare.spool_path(), "spool.log");
    bare.data_dir = "/srv/".to_string();
    assert_eq!(bare.spool_path(), "/srv/spool.log");

    let complaint = |reconnect: ReconnectConfig| {
        let cfg = HostdConfig { reconnect, ..sample_config() };
        match cfg.validate() {
            Err(ConfigError::Invalid(text)) => text,
            other => panic!("{other:?}"),
        }
    };
    let text = "reconnect.base_ms must be > 0 and <= reconnect.cap_ms";
    assert_eq!(complaint(ReconnectConfig { base_ms: 0, cap_ms: 1 }), text);
    assert_eq!(complaint(ReconnectConfig { base_ms: 2, cap_ms: 1 }), text);
    let mut blank = sample_config();
    blank.control_endpoint = "\t\u{3000}\n".to_string();
    assert_eq!(
        blank.validate(),
        Err(ConfigError::Invalid("control_endpoint must not be empty".to_string()))
    );
}

#[test]
fn ceiling_doubles_then_saturates_at_cap() {
    let p = BackoffPolicy::new(Duration::from_millis(500), Duration::from_secs(30));
    assert_eq!(p.ceiling(0), Duration::from_millis(500));
    assert_eq!(p.ceiling(1), Duration::from_millis(1000));
    assert_eq!(p.ceiling(2), Duration::from_millis(2000));
    // Eventually pinned at the cap, never beyond, even for absurd attempts.
    assert_eq!(p.ceiling(20), Duration::from_secs(30));
    assert_eq!(p.ceiling(1000), Duration::from_secs(30));
}

#[test]
fn cap_is_clamped_up_to_base() {
    let p = BackoffPolicy::new(Duration::from_secs(5), Duration::from_secs(1));
    assert_eq!(p.ceiling(0), Duration::from_secs(5));
}

#[test]
fn full_jitter_stays_within_ceiling() {
    let p = BackoffPolicy::new(Duration::from_millis(500), Duration::from_secs(30));
    let mut j = Jitter::new(0xDEAD_BEEF);
    for attempt in 0..12 {
        let ceiling = p.ceiling(attempt);
        for _ in 0..256 {
            let d = p.delay(attempt, &mut j);
            assert!(d <= ceiling, "delay {d:?} exceeded ceiling {ceiling:?}");
        }
    }
}

#[test]
fn zero_ceiling_yields_zero_delay() {
    let mut j = Jitter::new(1);
    assert_eq!(j.full(Duration::zero()), Duration::zero());
}

#[test]
fn jitter_is_deterministic_for_a_seed() {
    let mut a = Jitter::new(7);
    let mut b = Jitter::new(7);
    let ceiling = Duration::from_millis(1000);
    for _ in 0..16 {
        assert_eq!(a.full(ceiling), b.full(ceiling));
    }
}

#[test]
fn a_draw_is_the_generator_reduced_to_the_ceiling() {
    // The first value that the generator draws from seed zero is 0xE220A8397B1DCDAF.
    let first: u64 = 0xE220_A839_7B1D_CDAF;
    let mut j = Jitter::new(0);
    let ceiling = Duration::from_millis(999);
    assert_eq!(j.full(ceiling), Duration::from_millis(first % 1000));
}

#[test]
fn a_policy_is_made_from_its_configuration() {
    let p = BackoffPolicy::from(ReconnectConfig { base_ms: 3, cap_ms: 5 });
    assert_eq!(p.ceiling(0).as_millis(), 3);
    assert_eq!(p.ceiling(1).as_millis(), 5);
    assert_eq!(
        BackoffPolicy::new(Duration::zero(), Duration::from_secs(9)).ceiling(40),
        Duration::zero()
    );
    // A small base reaches a distant cap after many attempts.
    let far = BackoffPolicy::new(Duration::from_millis(1), Duration::from_secs(1 << 40));
    assert_eq!(far.ceiling(40).as_millis(), 1 << 40);
}

#[test]
fn a_connector_targets_its_endpoint() {
    assert_eq!(WssConnector::new("wss://loomd.local/agent").endpoint(), "wss://loomd.local/agent");
}

#[test]
fn placeholder_csr_is_deterministic_and_keeps_key_private() {
    let a = PlaceholderCsr.generate("rig-01").expect("gen");
    let b = PlaceholderCsr.generate("rig-01").expect("gen");
    assert!(a == b);
    let c = PlaceholderCsr.generate("rig-02").expect("gen");
    assert_ne!(a.csr_der, c.csr_der);
    // The signing request never carries the private key bytes.
    assert!(!a.csr_der.windows(3).any(|w| w == b"KEY"));
    // The diagnostic form leaves the private key out.
    assert!(a.redacted().contains("<redacted>"));
    assert_eq!(a.csr_der, b"LOOM-PLACEHOLDER-CSR-v0:rig-01".to_vec());
    assert_eq!(a.private_key_der, b"LOOM-PLACEHOLDER-KEY-v0:rig-01".to_vec());
}

#[test]
fn a_node_identity_is_shown_without_its_key() {
    let node = EnrolledNode {
        agent_id: "node-abc".to_string(),
        node_cert_der: b"cert".to_vec(),
        ca_chain_der: b"chain".to_vec(),
        private_key_der: b"secret".to_vec(),
    };
    assert_eq!(
        node.redacted(),
        "EnrolledNode { agent_id: \"node-abc\", node_cert_len: 4, ca_chain_len: 5, \
         private_key_der: \"<redacted>\" }"
    );
    assert!(!node.redacted().contains("secret"));
}

#[test]
fn msg_ids_are_monotonic_and_fixed_width() {
    let mut ids = MsgIdGen::new();
    let a = ids.next_id();
    let b = ids.next_id();
    assert_eq!(a.len(), 26);
    assert_eq!(b.len(), 26);
    assert_ne!(a, b);
    assert!(a < b, "ids order monotonically as strings");
    assert_eq!(b, "MSG00000000000000000000001");
}

#[test]
fn supported_range_is_m1_only() {
    let r = supported_versions();
    assert_eq!(r.min, PROTOCOL_VERSION);
    assert_eq!(r.max, PROTOCOL_VERSION);
}

#[test]
fn envelope_carries_body_and_version() {
    let env = envelope(
        "MSG1".to_string(),
        "MSG0".to_string(),
        123,
        Body::JobAccept(JobAccept {
            attempt_id: "at1".to_string(),
        }),
    );
    assert_eq!(env.protocol_version, PROTOCOL_VERSION);
    assert_eq!(env.correlation_id, "MSG0");
    assert_eq!(env.timestamp_ms, 123);
    assert!(matches!(env.body, Some(Body::JobAccept(_))));
}

#[test]
fn default_profile_is_a_cpu_node() {
    let p = NodeProfile::default();
    assert_eq!(p.backends, vec![Backend::Cpu]);
    assert!(p.gpu_model.is_empty());
    let inv = p.inventory();
    assert_eq!(inv.backends, vec![Backend::Cpu]);
    assert_eq!(inv.memory_model, MemoryModel::Unspecified);
    assert_eq!(inv.vram_mb, 0);
}

#[test]
fn only_transport_errors_are_transient() {
    assert!(EnrollError::Transport(TransportError::Closed { reason: None }).is_transient());
    assert!(!EnrollError::Rejected("bad token".to_string()).is_transient());
    assert!(!EnrollError::Exhausted(3).is_transient());
    assert!(!EnrollError::Unexpected("x".to_string()).is_transient());
    assert!(!EnrollError::Csr(KeystoreError::Decode("x".to_string())).is_transient());
}

#[test]
fn received_messages_are_told_apart() {
    let beat = envelope("m".to_owned(), String::new(), 10, Body::Heartbeat(Heartbeat::default()));
    let bytes = wss_frame(Channel::Heartbeat, 1, || vec![5]).expect("frame");
    let got = recv_step(WsEvent::Binary(bytes.clone()), |payload| {
        assert_eq!(payload, [5]);
        Ok(beat.clone())
    });
    let (channel, received) = got.expect("an outcome").expect("a message");
    assert_eq!(channel, Channel::Heartbeat);
    assert_eq!(received, beat);
    assert!(matches!(
        recv_step(WsEvent::Binary(bytes), |_| Err(prost::DecodeError::new("no"))),
        Some(Err(TransportError::Codec(CodecError::Decode(_))))
    ));
    assert!(recv_step(WsEvent::Keepalive, |_| unreachable!()).is_none());
    assert!(matches!(
        recv_step(WsEvent::End, |_| unreachable!()),
        Some(Err(TransportError::Closed { reason: None }))
    ));
    assert!(matches!(
        recv_step(WsEvent::Failed("x".to_owned()), |_| unreachable!()),
        Some(Err(TransportError::Ws(why))) if why == "x"
    ));
}

/// A gateway in memory: grants the one valid token, refuses any other with a reason,
/// and fails the first connects.
struct Gateway {
    fail_first: u32,
    attempts: u32,
    grants: u32,
    requests: Vec<EnrollRequest>,
}

impl Gateway {
    fn new(fail_first: u32) -> Self {
        Gateway { fail_first, attempts: 0, grants: 0, requests: vec![] }
    }

    fn connect(&mut self) -> Result<(), TransportError> {
        self.attempts += 1;
        if self.attempts <= self.fail_first {
            return Err(TransportError::Connect("injected connect failure".to_owned()));
        }
        Ok(())
    }

    fn reply(&mut self, sent: Envelope) -> Result<(Channel, Envelope), TransportError> {
        let Some(Body::EnrollRequest(request)) = sent.body else {
            panic!("a token-only connection may send only its request");
        };
        let valid = request.enroll_token == "single-use-T";
        self.requests.push(request);
        if !valid {
            return Err(TransportError::Closed {
                reason: Some("enroll_token_invalid".to_owned()),
            });
        }
        self.grants += 1;
        let grant = EnrollGrant {
            agent_id: "node-fake-0000000000000001".to_owned(),
            node_cert_der: b"LOOM-FAKE-CERT:node".to_vec(),
            ca_chain_der: b"LOOM-FAKE-CA".to_vec(),
            config: Some(AgentConfig::default()),
            chosen_version: 1,
        };
        let mut ids = MsgIdGen::new();
        let answer = envelope(ids.next_id(), sent.msg_id, 0, Body::EnrollGrant(grant));
        Ok((Channel::Control, answer))
    }
}

fn request(token: &str) -> EnrollmentRequest {
    EnrollmentRequest {
        token: token.to_string(),
        subject_nonce: "rig-01".to_string(),
        profile: NodeProfile::default(),
    }
}

fn enroll_with_backoff(
    gateway: &mut Gateway,
    token: &str,
    max_attempts: u32,
) -> Result<Enrollment, EnrollError> {
    let enroller = Enroller {
        csr: &PlaceholderCsr,
        clock: &FixedClock(1_700_000_000_000),
        request: request(token),
    };
    let backoff = BackoffPolicy::new(Duration::from_millis(1), Duration::from_millis(4));
    let mut retry = Retry::new(backoff, 7, max_attempts);
    loop {
        if let Some(exhausted) = retry.exhausted() {
            return Err(exhausted);
        }
        let outcome = match gateway.connect() {
            Err(e) => Err(EnrollError::Transport(e)),
            Ok(()) => {
                let mut ids = MsgIdGen::new();
                let (sent, handshake) = enroller.enroll_once(&mut ids)?;
                assert_eq!(sent.msg_id, "MSG00000000000000000000000");
                assert_eq!(sent.timestamp_ms, 1_700_000_000_000);
                handshake.on_sent(Ok(()))?;
                handshake.on_reply(gateway.reply(sent))
            }
        };
        match retry.on_outcome(outcome) {
            RetryStep::Sleep(delay) => assert!(delay <= Duration::from_millis(4)),
            RetryStep::Done(result) => return result,
        }
    }
}

#[test]
fn enrolls_against_the_fake_gateway() {
    let mut gateway = Gateway::new(0);
    let enrollment =
        enroll_with_backoff(&mut gateway, "single-use-T", 4).expect("enrollment succeeds");

    // The client obtained a node certificate bound to the assigned agent_id.
    assert_eq!(enrollment.node.agent_id, "node-fake-0000000000000001");
    assert!(
        enrollment
            .node
            .node_cert_der
            .starts_with(b"LOOM-FAKE-CERT:"),
        "cert carries the fake-signer tag"
    );
    assert!(
        !enrollment.node.private_key_der.is_empty(),
        "the private key is held locally"
    );
    assert_eq!(enrollment.chosen_version, 1);
    assert!(enrollment.config.is_some(), "granted an agent config");

    // The gateway saw exactly one enroll request carrying the signing request, and it
    // never received the private key.
    assert_eq!(gateway.requests.len(), 1);
    assert_eq!(gateway.requests[0].enroll_token, "single-use-T");
    assert!(
        gateway.requests[0]
            .csr_der
            .starts_with(b"LOOM-PLACEHOLDER-CSR-v0:")
    );
    assert_eq!(gateway.attempts, 1, "one connect, no retries needed");
    assert_eq!(gateway.grants, 1);
}

#[test]
fn reconnects_with_backoff_through_transient_connect_failures() {
    // The first two connects fail transiently; the loop must back off and retry.
    let mut gateway = Gateway::new(2);
    let enrollment = enroll_with_backoff(&mut gateway, "single-use-T", 6)
        .expect("enrollment eventually succeeds after reconnects");
    assert_eq!(enrollment.node.agent_id, "node-fake-0000000000000001");
    assert_eq!(gateway.attempts, 3, "two failed connects then one success");
    assert_eq!(gateway.grants, 1);
}

#[test]
fn bad_token_is_terminal_and_not_retried() {
    let mut gateway = Gateway::new(0);
    let err = match enroll_with_backoff(&mut gateway, "stolen-token", 5) {
        Ok(_) => panic!("a spent or invalid token is terminal"),
        Err(e) => e,
    };
    match err {
        EnrollError::Rejected(reason) => assert_eq!(reason, "enroll_token_invalid"),
        other => panic!("expected a terminal rejection, got {other:?}"),
    }
    // Terminal: it did not burn through the whole attempt budget retrying.
    assert_eq!(gateway.attempts, 1, "no retry on a terminal rejection");
    assert_eq!(gateway.grants, 0);
}

#[test]
fn a_spent_budget_ends_enrollment() {
    let mut gateway = Gateway::new(9);
    assert!(matches!(
        enroll_with_backoff(&mut gateway, "single-use-T", 3),
        Err(EnrollError::Exhausted(3))
    ));
    assert_eq!(gateway.attempts, 3);
}

/// A key seam that fails.
struct NoKeys;

impl CsrProvider for NoKeys {
    fn generate(&self, _subject_nonce: &str) -> Result<KeyMaterial, KeystoreError> {
        Err(KeystoreError::Decode("no keys".to_owned()))
    }
}

#[test]
fn failed_key_generation_sends_nothing() {
    let enroller = Enroller {
        csr: &NoKeys,
        clock: &FixedClock(0),
        request: request("t"),
    };
    let mut ids = MsgIdGen::default();
    assert!(matches!(
        enroller.enroll_once(&mut ids),
        Err(EnrollError::Csr(KeystoreError::Decode(why))) if why == "no keys"
    ));
    assert_eq!(ids.next_id(), "MSG00000000000000000000000");
}

#[test]
fn a_reply_that_is_no_grant_is_unexpected() {
    let key = PlaceholderCsr.generate("n").expect("key");
    let mut ids = MsgIdGen::new();
    let begin = |ids: &mut MsgIdGen| {
        let key = KeyMaterial {
            private_key_der: key.private_key_der.clone(),
            csr_der: key.csr_der.clone(),
        };
        request("t").begin(Ok(key), ids, 1).expect("begun").1
    };
    let beat = envelope("m".to_owned(), String::new(), 0, Body::Heartbeat(Heartbeat::default()));
    let mut empty = beat.clone();
    empty.body = None;
    assert!(matches!(
        begin(&mut ids).on_reply(Ok((Channel::Control, beat))),
        Err(EnrollError::Unexpected(text)) if text.contains("Heartbeat")
    ));
    assert!(matches!(
        begin(&mut ids).on_reply(Ok((Channel::Control, empty))),
        Err(EnrollError::Unexpected(text)) if text == "empty envelope"
    ));
    assert!(matches!(
        begin(&mut ids).on_reply(Err(TransportError::Closed { reason: None })),
        Err(EnrollError::Transport(TransportError::Closed { reason: None }))
    ));
    assert!(matches!(
        begin(&mut ids).on_sent(Err(TransportError::Ws("reset".to_owned()))),
        Err(EnrollError::Transport(TransportError::Ws(_)))
    ));
}

#[test]
fn an_unnamed_agent_asks_under_the_default_name() {
    let mut cfg = sample_config();
    assert_eq!(EnrollmentRequest::for_config(&cfg).subject_nonce, "rig-01");
    cfg.agent_name = None;
    let r = EnrollmentRequest::for_config(&cfg);
    assert_eq!(r.subject_nonce, "loom-hostd");
    assert_eq!(r.token, "single-use-T");
    assert_eq!(r.profile, NodeProfile::default());
}

#[test]
fn a_draw_is_made_under_every_ceiling() {
    // The first value that the generator draws from seed zero is 0xE220A8397B1DCDAF.
    let first: u64 = 0xE220_A839_7B1D_CDAF;
    let mut j = Jitter::new(0);
    assert_eq!(j.full(Duration::from_millis(u64::MAX)), Duration::from_millis(first));
    let mut j = Jitter::new(0);
    assert_eq!(j.full(Duration::from_secs(u64::MAX)), Duration::from_millis(first));
    let mut j = Jitter::new(0);
    assert_eq!(
        j.full(Duration::from_millis(u64::MAX - 1)),
        Duration::from_millis(first % u64::MAX)
    );
    let p = BackoffPolicy::new(Duration::from_secs(u64::MAX), Duration::from_secs(u64::MAX));
    let mut j = Jitter::new(0);
    assert_eq!(p.delay(3, &mut j), Duration::from_millis(first));
}

#[test]
fn an_identity_is_shown_escaped() {
    let node = EnrolledNode {
        agent_id: "a\"b".to_owned(),
        node_cert_der: vec![1],
        ca_chain_der: vec![],
        private_key_der: vec![2],
    };
    assert_eq!(
        node.redacted(),
        "EnrolledNode { agent_id: \"a\\\"b\", node_cert_len: 1, ca_chain_len: 0, \
         private_key_der: \"<redacted>\" }"
    );
}
