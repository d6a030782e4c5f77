//! What the failures say of themselves.
use loom::agentproto::bootstrap::ca::LocalCa;
use loom::agentproto::bootstrap::error::BootstrapError;
use loom::agentproto::bridge::BridgeError;
use loom::agentproto::enroll::EnrollError as GatewayEnrollError;
use loom::agentproto::session::SessionError;
use loom::agentproto::terminator::TerminatorError;
use loom::bus::channel::BusError;
use loom::bus::relay::RelayError;
use loom::hostd::config::ConfigError;
use loom::hostd::enroll::EnrollError;
use loom::hostd::identity::KeystoreError;
use loom::hostd::transport::TransportError;
use loom::proto::codec::CodecError;
use loom::store::StoreError;
use prost::Message;

fn text(s: &str) -> String {
    s.to_owned()
}

fn backend() -> StoreError {
    StoreError::Backend(text("disk"))
}

#[test]
fn a_codec_failure_says_what_was_wrong() {
    assert_eq!(
        CodecError::FrameTooLarge { len: 8_388_609 }.to_string(),
        "frame length 8388609 exceeds maximum 8388608"
    );
    assert_eq!(
        CodecError::ShortBuffer { need: 4, have: 1 }.to_string(),
        "short buffer: need 4 bytes, have 1"
    );
    assert_eq!(CodecError::UnknownChannel(9).to_string(), "unknown channel tag 9");
    let inner = <() as Message>::decode([0x07u8].as_slice()).expect_err("bad wire type");
    let shown = inner.to_string();
    assert_eq!(
        CodecError::Decode(inner).to_string(),
        format!("protobuf decode failed: {shown}")
    );
}

#[test]
fn a_session_failure_says_what_was_wrong() {
    assert_eq!(
        SessionError::Codec(CodecError::UnknownChannel(9)).to_string(),
        "codec: unknown channel tag 9"
    );
    assert_eq!(SessionError::WebSocket(text("reset")).to_string(), "websocket: reset");
    assert_eq!(SessionError::Closed { reason: None }.to_string(), "agent closed the session");
    assert_eq!(
        SessionError::Closed { reason: Some(text("why")) }.to_string(),
        "agent closed the session: why"
    );
    assert_eq!(SessionError::Protocol(text("text")).to_string(), "protocol violation: text");
}

#[test]
fn a_transport_failure_says_what_was_wrong() {
    assert_eq!(
        TransportError::Codec(CodecError::UnknownChannel(9)).to_string(),
        "codec: unknown channel tag 9"
    );
    assert_eq!(TransportError::Ws(text("reset")).to_string(), "websocket: reset");
    assert_eq!(TransportError::Connect(text("refused")).to_string(), "connect failed: refused");
    assert_eq!(
        TransportError::Closed { reason: None }.to_string(),
        "peer closed the control channel"
    );
    assert_eq!(
        TransportError::Closed { reason: Some(text("why")) }.to_string(),
        "peer closed the control channel: why"
    );
    assert_eq!(TransportError::Protocol(text("text")).to_string(), "protocol violation: text");
}

#[test]
fn a_bootstrap_failure_says_what_was_wrong() {
    let texts = [
        (BootstrapError::AlreadyInitialized, "bootstrap already initialized at this path"),
        (BootstrapError::NotInitialized, "no bootstrap found at this path"),
        (BootstrapError::TokenInvalid, "enrollment token invalid"),
        (BootstrapError::TokenExpired, "enrollment token expired"),
        (
            BootstrapError::CertificateEncoding(text("bad")),
            "certificate encoding error: bad",
        ),
        (BootstrapError::Io(text("disk")), "secrets I/O error: disk"),
        (BootstrapError::SecretsParse(text("toml")), "secrets file parse error: toml"),
        (BootstrapError::SecretsSerialize(text("toml")), "secrets file serialize error: toml"),
        (BootstrapError::MalformedHex, "malformed hex in persisted secret"),
        (BootstrapError::Random(text("none")), "secure random source unavailable: none"),
        (BootstrapError::Store(StoreError::NotFound), "store error: not found"),
        (
            BootstrapError::Store(StoreError::Conflict(text("row"))),
            "store error: conflict: row",
        ),
        (BootstrapError::Store(backend()), "store error: backend: disk"),
    ];
    for (e, shown) in texts {
        assert_eq!(e.to_string(), shown);
    }
    let ca = LocalCa::generate().expect("authority");
    let inner = match ca.sign_node_cert("not a csr") {
        Err(BootstrapError::Certificate(inner)) => inner,
        other => panic!("not refused: {other:?}"),
    };
    let shown = inner.to_string();
    assert_eq!(
        BootstrapError::Certificate(inner).to_string(),
        format!("certificate error: {shown}")
    );
}

#[test]
fn a_gateway_enrollment_failure_says_what_was_wrong() {
    let texts = [
        (GatewayEnrollError::TokenInvalid, "enrollment token invalid"),
        (GatewayEnrollError::TokenExpired, "enrollment token expired"),
        (GatewayEnrollError::Csr(text("bad")), "enrollment CSR rejected: bad"),
        (
            GatewayEnrollError::Bootstrap(BootstrapError::MalformedHex),
            "bootstrap: malformed hex in persisted secret",
        ),
        (GatewayEnrollError::Store(backend()), "store: backend: disk"),
        (
            GatewayEnrollError::Random(text("none")),
            "secure random source unavailable: none",
        ),
    ];
    for (e, shown) in texts {
        assert_eq!(e.to_string(), shown);
    }
}

#[test]
fn a_bridge_failure_says_what_was_wrong() {
    let bus = BridgeError::Bus(BusError::Backend(text("gone")));
    assert_eq!(bus.to_string(), "bus: bus transport error: gone");
    let inner = serde_json::from_str::<u8>("x").expect_err("no number");
    let shown = inner.to_string();
    assert_eq!(
        BridgeError::Serialize(inner).to_string(),
        format!("serialize agent event: {shown}")
    );
}

#[test]
fn a_terminator_failure_says_what_was_wrong() {
    assert_eq!(
        TerminatorError::Session(SessionError::Closed { reason: None }).to_string(),
        "session: agent closed the session"
    );
    assert_eq!(
        TerminatorError::Bridge(BridgeError::Bus(BusError::Backend(text("gone")))).to_string(),
        "bridge: bus: bus transport error: gone"
    );
    assert_eq!(
        TerminatorError::Enroll(GatewayEnrollError::TokenExpired).to_string(),
        "enroll: enrollment token expired"
    );
    assert_eq!(TerminatorError::Protocol(text("first")).to_string(), "protocol: first");
}

#[test]
fn a_relay_failure_says_what_was_wrong() {
    assert_eq!(
        RelayError::Source(backend()).to_string(),
        "reading the outbox failed: backend: disk"
    );
    assert_eq!(
        RelayError::Publish(BusError::Backend(text("gone"))).to_string(),
        "publishing to the bus failed: bus transport error: gone"
    );
}

#[test]
fn a_configuration_failure_says_what_was_wrong() {
    assert_eq!(
        ConfigError::Read { path: text("/etc/h"), source: text("gone") }.to_string(),
        "reading config /etc/h: gone"
    );
    assert_eq!(
        ConfigError::Parse { path: text("/etc/h"), source: text("eof") }.to_string(),
        "parsing config /etc/h: eof"
    );
    assert_eq!(ConfigError::Invalid(text("empty")).to_string(), "invalid config: empty");
}

#[test]
fn a_host_enrollment_failure_says_what_was_wrong() {
    let keystore = KeystoreError::Io { path: text("/k"), source: text("gone") };
    assert_eq!(keystore.to_string(), "keystore i/o at /k: gone");
    assert_eq!(KeystoreError::Decode(text("eof")).to_string(), "keystore decode: eof");
    assert_eq!(
        EnrollError::Csr(keystore).to_string(),
        "csr generation: keystore i/o at /k: gone"
    );
    assert_eq!(
        EnrollError::Rejected(text("no")).to_string(),
        "enrollment rejected (terminal): no"
    );
    assert_eq!(
        EnrollError::Transport(TransportError::Closed { reason: None }).to_string(),
        "transport: peer closed the control channel"
    );
    assert_eq!(
        EnrollError::Unexpected(text("ping")).to_string(),
        "unexpected message during enrollment: ping"
    );
    assert_eq!(EnrollError::Exhausted(8).to_string(), "exhausted 8 enrollment attempts");
}
