//! Enrollment from one side to the other: the host agent against the gateway.
use loom::agentproto::bootstrap::Bootstrap;
use loom::agentproto::enroll::Enroller as GatewayEnroller;
use loom::agentproto::session::InboundFrame;
use loom::agentproto::session::PeerIdentity;
use loom::agentproto::terminator::mint_msg_id;
use loom::agentproto::terminator::step;
use loom::agentproto::terminator::ServeAction;
use loom::agentproto::terminator::ServeEvent;
use loom::agentproto::terminator::SessionTerminator;
use loom::domain::time::Timestamp;
use loom::hostd::clock::FixedClock;
use loom::hostd::enroll::EnrollError;
use loom::hostd::enroll::Enroller;
use loom::hostd::enroll::Enrollment;
use loom::hostd::enroll::EnrollmentRequest;
use loom::hostd::enroll::NodeProfile;
use loom::hostd::identity::CsrProvider;
use loom::hostd::identity::KeyMaterial;
use loom::hostd::identity::KeystoreError;
use loom::hostd::identity::PlaceholderCsr;
use loom::hostd::transport::TransportError;
use loom::hostd::wire::MsgIdGen;
use loom::proto::codec::Channel;
use loom::proto::receive::inbound;
use loom::proto::receive::Inbound;
use loom::proto::receive::WsEvent;

const NOW_MS: i64 = 1_700_000_000_000;

/// Keys and signing requests that a certificate authority accepts.
struct RealKeys;

impl CsrProvider for RealKeys {
    fn generate(&self, subject_nonce: &str) -> Result<KeyMaterial, KeystoreError> {
        let key = rcgen::KeyPair::generate().expect("key");
        let params = rcgen::CertificateParams::new(vec![subject_nonce.to_owned()]).expect("params");
        let csr = params.serialize_request(&key).expect("csr");
        Ok(KeyMaterial {
            private_key_der: key.serialize_der(),
            csr_der: csr.der().to_vec(),
        })
    }
}

/// Runs one handshake of an agent against a gateway.
fn handshake<P: CsrProvider>(
    csr: &P,
    gateway: &GatewayEnroller,
    token: String,
) -> Result<Enrollment, EnrollError> {
    let enroller = Enroller {
        csr,
        clock: &FixedClock(NOW_MS),
        request: EnrollmentRequest {
            token,
            subject_nonce: "rig-01".to_owned(),
            profile: NodeProfile::default(),
        },
    };
    let mut ids = MsgIdGen::new();
    let (opening, handshake) = enroller.enroll_once(&mut ids).expect("opened");
    let opening_id = opening.msg_id.clone();

    let (state, _) = SessionTerminator::with_enrollment().start(&PeerIdentity::Bootstrap);
    let frame = InboundFrame { channel: Channel::Control, envelope: opening };
    let (state, action) = step(state, ServeEvent::Received(Ok(frame)));
    let ServeAction::Enroll(request) = action else {
        panic!("an opening is an enrollment request");
    };
    let outcome = gateway
        .enroll(&request, Timestamp::from_millis(NOW_MS))
        .and_then(|e| e.stored(Ok(())));
    let (_, action) = step(state, ServeEvent::Enrolled { outcome, msg_id: mint_msg_id() });
    match action {
        ServeAction::Send(answer) => {
            assert_eq!(answer.correlation_id, opening_id);
            handshake.on_reply(Ok((Channel::Control, answer)))
        }
        ServeAction::Refuse { reason, .. } => {
            let Inbound::Closed(reason) = inbound(WsEvent::Close(Some(reason.to_owned()))) else {
                panic!("a close is a close");
            };
            handshake.on_reply(Err(TransportError::Closed { reason }))
        }
        other => panic!("{other:?}"),
    }
}

fn gateway() -> GatewayEnroller {
    let (boot, _admin) = Bootstrap::create(false).expect("bootstrap");
    GatewayEnroller::new(boot)
}

#[test]
fn an_agent_enrolls_with_the_gateway() {
    let gateway = gateway();
    let token = gateway
        .bootstrap()
        .issue_enrollment_token(60_000, Timestamp::from_millis(NOW_MS))
        .expect("token")
        .into_string();
    let enrollment = handshake(&RealKeys, &gateway, token).expect("enrolled");
    assert!(enrollment.node.agent_id.starts_with("agent_"));
    assert!(!enrollment.node.private_key_der.is_empty());
    assert_eq!(
        enrollment.node.ca_chain_der,
        gateway.bootstrap().ca().cert_der().expect("anchor")
    );
    assert_eq!(enrollment.chosen_version, 1);
    assert!(enrollment.config.is_some());
}

#[test]
fn a_refused_agent_learns_the_reason() {
    let gateway = gateway();
    let rejected = handshake(&RealKeys, &gateway, "le1.6162.6162".to_owned());
    assert!(matches!(
        rejected,
        Err(EnrollError::Rejected(reason)) if reason == "enroll_token_invalid"
    ));
    // The placeholder's signing request is not one that an authority signs.
    let token = gateway
        .bootstrap()
        .issue_enrollment_token(60_000, Timestamp::from_millis(NOW_MS))
        .expect("token")
        .into_string();
    let rejected = handshake(&PlaceholderCsr, &gateway, token);
    assert!(matches!(
        rejected,
        Err(EnrollError::Rejected(reason)) if reason == "enroll_csr_invalid"
    ));
}
