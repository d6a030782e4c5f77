//! The gateway: events, sessions, enrollment and how connections are served.
use loom::agentproto::bootstrap::error::BootstrapError;
use loom::agentproto::bootstrap::Bootstrap;
use loom::agentproto::bridge::publish;
use loom::agentproto::bridge::BridgeError;
use loom::agentproto::clock::Clock;
use loom::agentproto::clock::FixedClock;
use loom::agentproto::clock::SystemClock;
use loom::agentproto::enroll::EnrollError;
use loom::agentproto::enroll::Enrolled;
use loom::agentproto::enroll::Enroller;
use loom::agentproto::enroll::CHOSEN_VERSION;
use loom::agentproto::event::AgentEvent;
use loom::agentproto::event::AgentEventKind;
use loom::agentproto::quic::alpn_protocols;
use loom::agentproto::quic::ChannelStream;
use loom::agentproto::session::InboundFrame;
use loom::agentproto::session::PeerIdentity;
use loom::agentproto::session::SessionError;
use loom::agentproto::session::WIRE_PROTOCOL_ID;
use loom::agentproto::terminator::mint_msg_id;
use loom::agentproto::terminator::oddity;
use loom::agentproto::terminator::step;
use loom::agentproto::terminator::Oddity;
use loom::agentproto::terminator::ServeAction;
use loom::agentproto::terminator::ServeEvent;
use loom::agentproto::terminator::ServeState;
use loom::agentproto::terminator::ServeSummary;
use loom::agentproto::terminator::SessionTerminator;
use loom::agentproto::terminator::TerminatorError;
use loom::agentproto::testing::FakeAgent;
use loom::agentproto::wss::recv_step;
use loom::bus::channel::BusError;
use loom::bus::inproc::InProcBus;
use loom::bus::topic::Topic;
use loom::domain::time::Timestamp;
use loom::proto::codec::wss_frame;
use loom::proto::codec::Channel;
use loom::proto::codec::CodecError;
use loom::proto::receive::WsEvent;
use loom::proto::v1::Body;
use loom::proto::v1::EnrollRequest;
use loom::proto::v1::Envelope;
use loom::proto::v1::HardwareInventory;
use loom::proto::v1::Heartbeat;
use loom::proto::v1::JobAccept;
use loom::proto::v1::JobCompleted;
use loom::proto::v1::JobOffer;
use loom::store::Gpu;
use loom::store::Host;
use loom::store::HostStatus;
use loom::store::StoreError;
use rcgen::CertificateParams;
use rcgen::DnType;
use rcgen::KeyPair;
use serde_json::Value;
use x509_parser::pem::parse_x509_pem;
use x509_parser::prelude::FromDer;

const NOW_MS: i64 = 1_700_000_000_000;

fn csr_der(common_name: &str) -> Vec<u8> {
    let key = KeyPair::generate().expect("key");
    let mut params = CertificateParams::new(vec![common_name.to_owned()]).expect("params");
    params
        .distinguished_name
        .push(DnType::CommonName, common_name);
    params.serialize_request(&key).expect("csr").der().to_vec()
}

fn enroller() -> Enroller {
    let (boot, _admin) = Bootstrap::create(false).expect("bootstrap");
    Enroller::new(boot)
}

fn m3_max() -> HardwareInventory {
    HardwareInventory {
        gpu_model: "M3 Max".to_owned(),
        unified_memory_mb: 48_000,
        ..HardwareInventory::default()
    }
}

fn envelope(body: Body) -> Envelope {
    Envelope {
        protocol_version: 1,
        msg_id: "01J0000000000000000000MSG0".to_owned(),
        correlation_id: "corr-1".to_owned(),
        timestamp_ms: 1_700_000_000_000,
        body: Some(body),
    }
}

fn field(json: &[u8], name: &str) -> Value {
    let value: Value = serde_json::from_slice(json).expect("json");
    value[name].clone()
}

/// The store of a gateway under test.
struct Rows {
    hosts: Vec<Host>,
    gpus: Vec<Gpu>,
}

/// Serves a connection whose agent sends the given frames and then closes.
fn serve(
    terminator: SessionTerminator,
    enroller: Option<(&Enroller, Timestamp)>,
    identity: PeerIdentity,
    frames: Vec<InboundFrame>,
    bus: &mut InProcBus,
    rows: &mut Rows,
    sent: &mut Vec<Envelope>,
) -> (Result<ServeSummary, TerminatorError>, Option<&'static str>) {
    let mut frames = frames.into_iter();
    let (mut state, mut action) = terminator.start(&identity);
    loop {
        let event = match action {
            ServeAction::Receive => {
                let closed = SessionError::Closed { reason: None };
                ServeEvent::Received(frames.next().ok_or(closed))
            }
            ServeAction::Enroll(request) => {
                let (enroller, now) = enroller.expect("an enroller");
                let outcome = enroller.enroll(&request, now).and_then(|e: Enrolled| {
                    rows.hosts.push(e.host.clone());
                    rows.gpus.extend(e.gpu.clone());
                    e.stored(Ok(()))
                });
                ServeEvent::Enrolled { outcome, msg_id: mint_msg_id() }
            }
            ServeAction::Send(envelope) => {
                sent.push(envelope);
                ServeEvent::Sent(Ok(()))
            }
            ServeAction::Publish(event) => ServeEvent::Published(publish(bus, &event)),
            ServeAction::Refuse { reason, error } => return (Err(error), Some(reason)),
            ServeAction::Fail(error) => return (Err(error), None),
            ServeAction::Finish(summary) => return (Ok(summary), None),
        };
        let next = step(state, event);
        state = next.0;
        action = next.1;
    }
}

fn frame(channel: Channel, envelope: Envelope) -> InboundFrame {
    InboundFrame { channel, envelope }
}

fn enroll_request(token: String, csr_der: Vec<u8>) -> Envelope {
    Envelope {
        protocol_version: 1,
        msg_id: "01J0000000000000000000ENRQ".to_owned(),
        correlation_id: String::new(),
        timestamp_ms: NOW_MS,
        body: Some(Body::EnrollRequest(EnrollRequest {
            enroll_token: token,
            csr_der,
            hw: Some(m3_max()),
            ..EnrollRequest::default()
        })),
    }
}

#[test]
fn a_heartbeat_maps_to_a_heartbeat_event_with_no_attempt() {
    let event =
        AgentEvent::from_envelope("agent-1", &envelope(Body::Heartbeat(Heartbeat::default())))
            .expect("bridged");
    assert_eq!(event.agent_id, "agent-1");
    assert_eq!(event.kind, AgentEventKind::Heartbeat);
    assert_eq!(event.attempt_id, None);
    assert_eq!(event.topic(), Topic::new("agent.heartbeat"));
}

#[test]
fn a_job_completed_carries_its_attempt_id() {
    let body = Body::JobCompleted(JobCompleted {
        attempt_id: "at-9".to_owned(),
        exit_code: 0,
    });
    let event = AgentEvent::from_envelope("agent-1", &envelope(body)).expect("bridged");
    assert_eq!(event.kind, AgentEventKind::JobCompleted);
    assert_eq!(event.attempt_id.as_deref(), Some("at-9"));
    assert_eq!(event.kind.expected_channel(), Channel::Control);
}

#[test]
fn a_gateway_to_agent_body_is_not_bridged() {
    let offer = Body::JobOffer(JobOffer::default());
    assert!(AgentEvent::from_envelope("agent-1", &envelope(offer)).is_none());
}

#[test]
fn events_round_trip_through_their_bus_message_json() {
    let event = AgentEvent::enrolled("agent-1", "01J0000000000000000000ENRL");
    let msg = event.to_message().expect("to message");
    assert_eq!(msg.topic, Topic::new("agent.enrolled"));
    assert_eq!(
        msg.dedup_key.as_deref(),
        Some("agent.agent-1.01J0000000000000000000ENRL")
    );
    assert_eq!(field(&msg.payload, "agent_id"), Value::from("agent-1"));
    assert_eq!(field(&msg.payload, "kind"), Value::from("enrolled"));
    assert_eq!(
        field(&msg.payload, "msg_id"),
        Value::from("01J0000000000000000000ENRL")
    );
    assert_eq!(field(&msg.payload, "correlation_id"), Value::from(""));
    assert_eq!(field(&msg.payload, "attempt_id"), Value::Null);
}

#[test]
fn event_json_is_compact_and_escaped() {
    let event = AgentEvent {
        agent_id: "a\"b".to_owned(),
        kind: AgentEventKind::Log,
        msg_id: "m\n".to_owned(),
        correlation_id: "c".to_owned(),
        attempt_id: Some("t".to_owned()),
    };
    let msg = event.to_message().expect("to message");
    assert_eq!(
        msg.payload_utf8().expect("utf8"),
        r#"{"agent_id":"a\"b","kind":"log","msg_id":"m\n","correlation_id":"c","attempt_id":"t"}"#
    );
    assert_eq!(event.kind.expected_channel(), Channel::Log);
    assert_eq!(AgentEventKind::Heartbeat.expected_channel(), Channel::Heartbeat);
}

#[test]
fn a_published_event_lands_on_the_agent_family() {
    let mut bus = InProcBus::new();
    let sub = bus.subscribe(Topic::agent_events()).expect("subscribe");

    let event = AgentEvent::enrolled("agent-1", "01J0000000000000000000ENRL");
    publish(&mut bus, &event).expect("publish");

    let msg = bus.try_recv(&sub).expect("delivered");
    assert_eq!(msg.topic, Topic::new("agent.enrolled"));
    assert_eq!(field(&msg.payload, "agent_id"), Value::from("agent-1"));
    assert_eq!(field(&msg.payload, "kind"), Value::from("enrolled"));
}

#[test]
fn system_clock_reads_a_plausible_epoch_millis() {
    // Well after 2020-01-01 in ms: the clock is advancing, not stuck at the epoch.
    assert!(SystemClock.now().as_millis() > 1_577_836_800_000);
}

#[test]
fn a_fixed_clock_stands_still() {
    let clock = FixedClock::new(Timestamp::from_millis(7));
    assert_eq!(clock.now(), Timestamp::from_millis(7));
    assert_eq!(clock.now(), Timestamp::from_millis(7));
}

#[test]
fn alpn_advertises_the_wire_protocol_id() {
    assert_eq!(alpn_protocols(), &[WIRE_PROTOCOL_ID.as_bytes()]);
}

#[test]
fn only_control_is_bidirectional() {
    assert_eq!(
        ChannelStream::for_channel(Channel::Control),
        ChannelStream::Bidirectional
    );
    for channel in [Channel::Heartbeat, Channel::Log, Channel::Metering] {
        assert_eq!(
            ChannelStream::for_channel(channel),
            ChannelStream::UnidirectionalToGateway
        );
    }
}

#[test]
fn bootstrap_identity_has_no_agent_id() {
    let id = PeerIdentity::Bootstrap;
    assert!(id.is_bootstrap());
    assert_eq!(id.agent_id(), None);
}

#[test]
fn node_identity_carries_its_agent_id() {
    let id = PeerIdentity::node("agent-7");
    assert!(!id.is_bootstrap());
    assert_eq!(id.agent_id(), Some("agent-7"));
}

#[test]
fn clean_close_is_distinguished_from_a_reasoned_close() {
    assert!(SessionError::Closed { reason: None }.is_clean_close());
    assert!(
        !SessionError::Closed {
            reason: Some("enroll_token_invalid".to_owned()),
        }
        .is_clean_close()
    );
}

#[test]
fn a_client_close_surfaces_as_closed() {
    let err = recv_step(WsEvent::Close(None), |_| unreachable!())
        .expect("an outcome")
        .expect_err("server sees close");
    assert!(err.is_clean_close());
}

#[test]
fn a_frame_is_received_from_a_binary_message() {
    let mut agent = FakeAgent::new();
    let sent = agent.envelope(Body::Heartbeat(Heartbeat::default()));
    let bytes = wss_frame(Channel::Heartbeat, 3, || vec![1, 2, 3]).expect("frame");
    let got = recv_step(WsEvent::Binary(bytes.clone()), |payload| {
        assert_eq!(payload, [1, 2, 3]);
        Ok(sent.clone())
    });
    let received = got.expect("an outcome").expect("a frame");
    assert_eq!(received, frame(Channel::Heartbeat, sent));
    let failed = recv_step(WsEvent::Binary(bytes), |_| Err(prost::DecodeError::new("no")));
    assert!(matches!(failed, Some(Err(SessionError::Codec(CodecError::Decode(_))))));
    assert!(recv_step(WsEvent::Keepalive, |_| unreachable!()).is_none());
    assert!(matches!(
        recv_step(WsEvent::Failed("reset".to_owned()), |_| unreachable!()),
        Some(Err(SessionError::WebSocket(why))) if why == "reset"
    ));
    assert!(matches!(
        recv_step(WsEvent::Text, |_| unreachable!()),
        Some(Err(SessionError::Protocol(_)))
    ));
}

#[test]
fn a_fake_agent_numbers_its_messages() {
    let mut agent = FakeAgent::new();
    let first = agent.envelope(Body::Heartbeat(Heartbeat::default()));
    let second = agent.envelope(Body::Heartbeat(Heartbeat::default()));
    assert_eq!(first.msg_id, "01J000000000000000000FAKE00");
    assert_eq!(second.msg_id, "01J000000000000000000FAKE01");
    assert_eq!(second.timestamp_ms, 1_700_000_000_001);
    for _ in 2..100 {
        assert!(agent.envelope(Body::Heartbeat(Heartbeat::default())).body.is_some());
    }
    let later = agent.envelope(Body::Heartbeat(Heartbeat::default()));
    assert_eq!(later.msg_id, "01J000000000000000000FAKE100");
}

#[test]
fn a_valid_token_issues_a_cert_and_records_the_host() {
    let now = Timestamp::from_millis(1_000_000);
    let enroller = enroller();
    let token = enroller
        .bootstrap()
        .issue_enrollment_token(60_000, now)
        .expect("token");
    let request = EnrollRequest {
        enroll_token: token.into_string(),
        csr_der: csr_der("node-a"),
        hw: Some(m3_max()),
        ..EnrollRequest::default()
    };

    let enrolled = enroller.enroll(&request, now).expect("enroll");
    let grant = enrolled.grant;
    assert!(grant.agent_id.starts_with("agent_"));
    assert_eq!(grant.agent_id.len(), "agent_".len() + 24);
    assert!(!grant.node_cert_der.is_empty());
    assert_eq!(grant.chosen_version, CHOSEN_VERSION);
    assert_eq!(grant.config.heartbeat_interval_ms, 15_000);
    assert_eq!(grant.config.spool_cap_bytes, 64 * 1024 * 1024);

    assert_eq!(enrolled.host.id.as_str(), grant.agent_id);
    assert_eq!(enrolled.host.status, HostStatus::Enrolled);
    assert_eq!(enrolled.host.agent_pubkey, grant.node_cert_der);
    let gpu = enrolled.gpu.expect("gpu");
    assert_eq!(gpu.memory_mb, 48_000);
    assert_eq!(gpu.id.as_str(), format!("{}-gpu0", grant.agent_id));
}

#[test]
fn a_forged_token_is_refused_before_signing() {
    let request = EnrollRequest {
        enroll_token: "le1.6162.6162".to_owned(),
        csr_der: csr_der("node-x"),
        ..EnrollRequest::default()
    };
    let err = enroller()
        .enroll(&request, Timestamp::from_millis(1_000_000))
        .expect_err("refused");
    assert!(matches!(err, EnrollError::TokenInvalid));
    assert_eq!(err.close_reason(), "enroll_token_invalid");
}

#[test]
fn enroll_an_expired_token_is_refused() {
    let issued = 1_000_000;
    let enroller = enroller();
    let token = enroller
        .bootstrap()
        .issue_enrollment_token(10_000, Timestamp::from_millis(issued))
        .expect("token");
    let request = EnrollRequest {
        enroll_token: token.into_string(),
        csr_der: csr_der("node-y"),
        ..EnrollRequest::default()
    };
    let err = enroller
        .enroll(&request, Timestamp::from_millis(issued + 30_000))
        .expect_err("refused");
    assert!(matches!(err, EnrollError::TokenExpired));
    assert_eq!(err.close_reason(), "enroll_token_expired");
}

#[test]
fn a_missing_csr_is_rejected() {
    let now = Timestamp::from_millis(1_000_000);
    let enroller = enroller();
    let token = enroller
        .bootstrap()
        .issue_enrollment_token(60_000, now)
        .expect("token");
    let request = EnrollRequest {
        enroll_token: token.into_string(),
        csr_der: Vec::new(),
        ..EnrollRequest::default()
    };
    let err = enroller.enroll(&request, now).expect_err("refused");
    assert!(matches!(err, EnrollError::Csr(_)));
}

#[test]
fn a_csr_that_does_not_parse_is_told_apart() {
    let now = Timestamp::from_millis(1_000_000);
    let enroller = enroller();
    let token = enroller
        .bootstrap()
        .issue_enrollment_token(60_000, now)
        .expect("token");
    let request = EnrollRequest {
        enroll_token: token.into_string(),
        csr_der: b"not a request".to_vec(),
        ..EnrollRequest::default()
    };
    let err = enroller.enroll(&request, now).expect_err("refused");
    assert!(matches!(&err, EnrollError::Csr(text) if text.starts_with("certificate error: ")));
    assert_eq!(err.close_reason(), "enroll_csr_invalid");
}

#[test]
fn internal_faults_share_one_reason() {
    let faults = [
        EnrollError::Store(StoreError::NotFound),
        EnrollError::Random("gone".to_owned()),
        EnrollError::Bootstrap(BootstrapError::NotInitialized),
    ];
    for fault in faults {
        assert_eq!(fault.close_reason(), "enroll_internal_error");
    }
}

#[test]
fn a_node_without_a_model_is_recorded_as_unknown() {
    let request = EnrollRequest {
        hw: Some(HardwareInventory {
            vram_mb: 24_000,
            unified_memory_mb: 8_000,
            ..HardwareInventory::default()
        }),
        ..EnrollRequest::default()
    };
    let at = Timestamp::from_millis(5);
    let enrolled = enroller().finish(&request, &[0xab; 12], vec![1], vec![2], at);
    assert_eq!(enrolled.grant.agent_id, format!("agent_{}", "ab".repeat(12)));
    assert_eq!(enrolled.grant.ca_chain_der, vec![2]);
    assert_eq!(enrolled.grant.issued_at, at);
    let gpu = enrolled.gpu.expect("gpu");
    assert_eq!(gpu.model, "unknown");
    assert_eq!(gpu.memory_mb, 24_000);
    let wire = enrolled.grant.to_enroll_grant();
    assert_eq!(wire.agent_id, enrolled.grant.agent_id);
    assert_eq!(wire.node_cert_der, vec![1]);
    assert_eq!(wire.config, Some(enrolled.grant.config));
    let failed = enroller().finish(&request, &[0; 12], vec![], vec![], at);
    assert!(matches!(
        failed.stored(Err(StoreError::NotFound)),
        Err(EnrollError::Store(StoreError::NotFound))
    ));
    let bare = enroller().record_host("agent_x", &EnrollRequest::default(), &vec![], at);
    assert!(bare.1.is_none());
}

#[test]
fn an_authenticated_session_bridges_messages_onto_the_bus() {
    let mut bus = InProcBus::new();
    let sub = bus.subscribe(Topic::agent_events()).expect("subscribe");
    let mut agent = FakeAgent::new();
    let frames = vec![
        frame(
            Channel::Heartbeat,
            agent.envelope(Body::Heartbeat(Heartbeat::default())),
        ),
        frame(
            Channel::Control,
            agent.envelope(Body::JobAccept(JobAccept {
                attempt_id: "at-1".to_owned(),
            })),
        ),
        // An offer is the gateway's own to send: it is ignored.
        frame(Channel::Control, agent.envelope(Body::JobOffer(JobOffer::default()))),
    ];
    let (outcome, _) = serve(
        SessionTerminator::new(),
        None,
        PeerIdentity::node("agent-42"),
        frames,
        &mut bus,
        &mut Rows { hosts: vec![], gpus: vec![] },
        &mut vec![],
    );
    let summary = outcome.expect("serve");
    assert_eq!(summary.agent_id.as_deref(), Some("agent-42"));
    assert_eq!(summary.events_bridged, 2);

    let first = bus.try_recv(&sub).expect("e1").payload;
    let second = bus.try_recv(&sub).expect("e2").payload;
    // Both events carry the connection's fenced identity, not anything self-asserted.
    assert_eq!(field(&first, "agent_id"), Value::from("agent-42"));
    assert_eq!(field(&second, "agent_id"), Value::from("agent-42"));
    assert_eq!(field(&second, "attempt_id"), Value::from("at-1"));
    assert!(bus.try_recv(&sub).is_none());
}

#[test]
fn a_bootstrap_connection_is_refused_by_the_bridge_only_terminator() {
    let (outcome, reason) = serve(
        SessionTerminator::new(),
        None,
        PeerIdentity::Bootstrap,
        vec![],
        &mut InProcBus::new(),
        &mut Rows { hosts: vec![], gpus: vec![] },
        &mut vec![],
    );
    let err = outcome.expect_err("bootstrap refused");
    assert!(matches!(err, TerminatorError::Protocol(_)));
    assert_eq!(reason, Some("enroll_unsupported"));
}

/// Asserts a DER leaf certificate is cryptographically signed by the authority in
/// `ca_pem`.
fn assert_cert_der_chains_to(ca_pem: &str, leaf_der: &[u8]) {
    let (_, ca_block) = parse_x509_pem(ca_pem.as_bytes()).expect("parse CA PEM");
    let ca_cert = ca_block.parse_x509().expect("parse CA X.509");
    let (_, leaf) =
        x509_parser::certificate::X509Certificate::from_der(leaf_der).expect("leaf DER");
    leaf.verify_signature(Some(ca_cert.public_key()))
        .expect("node cert must be signed by the local CA");
}

#[test]
fn a_fake_agent_enrolls_and_its_events_land_on_the_bus_with_the_granted_identity() {
    let enroller = enroller();
    let now = Timestamp::from_millis(NOW_MS);
    let mut bus = InProcBus::new();
    let sub = bus.subscribe(Topic::agent_events()).expect("subscribe");
    let token = enroller
        .bootstrap()
        .issue_enrollment_token(60_000, now)
        .expect("token")
        .into_string();

    // The fake agent enrolls token-only, receives the grant, then heartbeats.
    let mut agent = FakeAgent::new();
    let request = enroll_request(token, csr_der("node-a"));
    let frames = vec![
        frame(Channel::Control, request.clone()),
        frame(
            Channel::Heartbeat,
            agent.envelope(Body::Heartbeat(Heartbeat::default())),
        ),
    ];
    let mut rows = Rows { hosts: vec![], gpus: vec![] };
    let mut sent: Vec<Envelope> = vec![];
    let (outcome, _) = serve(
        SessionTerminator::with_enrollment(),
        Some((&enroller, now)),
        PeerIdentity::Bootstrap,
        frames,
        &mut bus,
        &mut rows,
        &mut sent,
    );

    assert_eq!(sent.len(), 1);
    let answer = sent.remove(0);
    assert_eq!(answer.correlation_id, request.msg_id);
    assert_eq!(answer.timestamp_ms, NOW_MS);
    let Some(Body::EnrollGrant(grant)) = answer.body else {
        panic!("expected an EnrollGrant, got {:?}", answer.body);
    };
    assert!(grant.agent_id.starts_with("agent_"));
    assert_eq!(grant.chosen_version, 1);
    // The issued node cert cryptographically chains back to the bootstrap CA.
    let ca_pem = enroller.bootstrap().ca().cert_pem();
    assert_cert_der_chains_to(ca_pem, &grant.node_cert_der);
    let granted_id = grant.agent_id.clone();

    let summary = outcome.expect("serve");
    assert_eq!(summary.agent_id.as_deref(), Some(granted_id.as_str()));
    // The enrolled event plus the heartbeat.
    assert_eq!(summary.events_bridged, 2);

    // The host was recorded, bound to the admin account, marked enrolled.
    assert_eq!(rows.hosts.len(), 1);
    assert_eq!(rows.gpus.len(), 1);
    let host = &rows.hosts[0];
    assert_eq!(host.status, HostStatus::Enrolled);
    assert_eq!(host.account.as_str(), enroller.bootstrap().admin_account_id());

    // Both bus events carry the granted (fenced) identity, in order.
    let enrolled_event = bus.try_recv(&sub).expect("enrolled").payload;
    assert_eq!(field(&enrolled_event, "agent_id"), Value::from(granted_id.as_str()));
    assert_eq!(field(&enrolled_event, "kind"), Value::from("enrolled"));

    let beat_event = bus.try_recv(&sub).expect("heartbeat").payload;
    assert_eq!(field(&beat_event, "agent_id"), Value::from(granted_id.as_str()));
    assert_eq!(field(&beat_event, "kind"), Value::from("heartbeat"));
}

#[test]
fn a_bad_token_is_refused_and_the_connection_is_closed_with_a_reason() {
    let enroller = enroller();
    // A forged token: never issued by this bootstrap's enrollment key.
    let request = enroll_request("le1.6162.6162".to_owned(), csr_der("node-x"));
    let (outcome, reason) = serve(
        SessionTerminator::with_enrollment(),
        Some((&enroller, Timestamp::from_millis(NOW_MS))),
        PeerIdentity::Bootstrap,
        vec![frame(Channel::Control, request)],
        &mut InProcBus::new(),
        &mut Rows { hosts: vec![], gpus: vec![] },
        &mut vec![],
    );
    let err = outcome.expect_err("refused");
    assert!(matches!(err, TerminatorError::Enroll(_)));
    assert_eq!(reason, Some("enroll_token_invalid"));
}

#[test]
fn a_token_only_connection_may_send_nothing_but_its_request() {
    let enroller = enroller();
    let mut agent = FakeAgent::new();
    let beat = agent.envelope(Body::Heartbeat(Heartbeat::default()));
    let (outcome, reason) = serve(
        SessionTerminator::with_enrollment(),
        Some((&enroller, Timestamp::from_millis(NOW_MS))),
        PeerIdentity::Bootstrap,
        vec![frame(Channel::Heartbeat, beat)],
        &mut InProcBus::new(),
        &mut Rows { hosts: vec![], gpus: vec![] },
        &mut vec![],
    );
    assert!(matches!(outcome, Err(TerminatorError::Protocol(_))));
    assert_eq!(reason, Some("expected_enroll"));
}

#[test]
fn a_failure_ends_the_service() {
    let (state, action) = SessionTerminator::new().start(&PeerIdentity::node("a"));
    assert!(matches!(action, ServeAction::Receive));
    let violation = SessionError::Protocol("text".to_owned());
    let (_, action) = step(state, ServeEvent::Received(Err(violation)));
    assert!(matches!(
        action,
        ServeAction::Fail(TerminatorError::Session(SessionError::Protocol(_)))
    ));

    let (state, _) = SessionTerminator::new().start(&PeerIdentity::node("a"));
    let beat = frame(
        Channel::Heartbeat,
        FakeAgent::new().envelope(Body::Heartbeat(Heartbeat::default())),
    );
    let (state, action) = step(state, ServeEvent::Received(Ok(beat)));
    assert!(matches!(action, ServeAction::Publish(_)));
    let down = BridgeError::Bus(BusError::Backend("down".to_owned()));
    let (_, action) = step(state, ServeEvent::Published(Err(down)));
    assert!(matches!(action, ServeAction::Fail(TerminatorError::Bridge(_))));
}

#[test]
fn a_minted_message_identity_is_fresh() {
    let a = mint_msg_id();
    let b = mint_msg_id();
    assert!(a.starts_with("grant_"));
    assert_eq!(a.len(), "grant_".len() + 24);
    assert_ne!(a, b);
}

#[test]
fn every_character_is_escaped_as_json_asks() {
    let event = AgentEvent {
        agent_id: "\"\\\u{8}\t\n\u{c}\r/".to_owned(),
        kind: AgentEventKind::Log,
        msg_id: "\u{0}\u{b}\u{1f}\u{7f}".to_owned(),
        correlation_id: "\u{e9}\u{2028}".to_owned(),
        attempt_id: None,
    };
    let msg = event.to_message().expect("to message");
    let shown = msg.payload_utf8().expect("utf8");
    assert_eq!(
        shown,
        "{\"agent_id\":\"\\\"\\\\\\b\\t\\n\\f\\r/\",\"kind\":\"log\",\
         \"msg_id\":\"\\u0000\\u000b\\u001f\u{7f}\",\
         \"correlation_id\":\"\u{e9}\u{2028}\",\"attempt_id\":null}"
    );
    assert_eq!(field(&msg.payload, "agent_id"), Value::from(event.agent_id.as_str()));
    assert_eq!(field(&msg.payload, "msg_id"), Value::from(event.msg_id.as_str()));
    assert_eq!(
        field(&msg.payload, "correlation_id"),
        Value::from(event.correlation_id.as_str())
    );
}

#[test]
fn different_events_have_different_json() {
    let plain = AgentEvent::enrolled("a", "m");
    let null = AgentEvent {
        attempt_id: Some("null".to_owned()),
        ..AgentEvent::enrolled("a", "m")
    };
    let moved = AgentEvent::enrolled("a\",\"kind\":\"log", "m");
    let payload = |e: &AgentEvent| e.to_message().expect("to message").payload.to_vec();
    assert_ne!(payload(&plain), payload(&null));
    assert_ne!(payload(&plain), payload(&moved));
    assert_eq!(payload(&plain), payload(&plain.clone()));
}

#[test]
fn an_odd_frame_of_a_served_agent_is_told() {
    let serving = ServeState::Bridging { agent_id: "agent-1".to_owned(), events: 0 };
    let beat = envelope(Body::Heartbeat(Heartbeat::default()));
    let request = enroll_request("t".to_owned(), vec![1]);
    assert_eq!(oddity(&serving, &frame(Channel::Heartbeat, beat.clone())), None);
    assert_eq!(
        oddity(&serving, &frame(Channel::Control, beat.clone())),
        Some(Oddity::UnexpectedLane(AgentEventKind::Heartbeat))
    );
    assert_eq!(
        oddity(&serving, &frame(Channel::Control, request.clone())),
        Some(Oddity::RepeatedEnroll)
    );
    let first = ServeState::AwaitingEnroll;
    assert_eq!(oddity(&first, &frame(Channel::Control, beat)), None);
    assert_eq!(oddity(&first, &frame(Channel::Log, request)), None);
}
