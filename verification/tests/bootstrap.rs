//! The security bootstrap: tokens, the local authority, and the trust they make.
use loom::agentproto::bootstrap::ca::LocalCa;
use loom::agentproto::bootstrap::error::BootstrapError;
use loom::agentproto::bootstrap::ignore_conflict;
use loom::agentproto::bootstrap::secrets::Secrets;
use loom::agentproto::bootstrap::secrets::SECRETS_VERSION;
use loom::agentproto::bootstrap::token::hash_token;
use loom::agentproto::bootstrap::token::AdminCredential;
use loom::agentproto::bootstrap::token::EnrollmentKey;
use loom::agentproto::bootstrap::Bootstrap;
use loom::agentproto::bootstrap::SecretFiles;
use loom::domain::ids::AccountId;
use loom::domain::time::Timestamp;
use loom::store::StoreError;
use rcgen::CertificateParams;
use rcgen::DnType;
use rcgen::KeyPair;
use x509_parser::pem::parse_x509_pem;

fn ts(ms: i64) -> Timestamp {
    Timestamp::from_millis(ms)
}

fn now() -> Timestamp {
    ts(1_000_000)
}

/// Builds an agent-side key pair and a signing request for `common_name`: the agent's
/// private key never leaves.
fn agent_csr(common_name: &str) -> String {
    let key = KeyPair::generate().expect("agent key pair");
    let mut params = CertificateParams::new(vec![common_name.to_owned()]).expect("csr params");
    params
        .distinguished_name
        .push(DnType::CommonName, common_name);
    params
        .serialize_request(&key)
        .expect("serialize CSR")
        .pem()
        .expect("CSR to PEM")
}

/// Builds an agent-side signing request in DER form, as it rides the wire.
fn agent_csr_der(common_name: &str) -> Vec<u8> {
    let key = KeyPair::generate().expect("agent key pair");
    let mut params = CertificateParams::new(vec![common_name.to_owned()]).expect("csr params");
    params
        .distinguished_name
        .push(DnType::CommonName, common_name);
    params.serialize_request(&key).expect("csr").der().to_vec()
}

/// Asserts `leaf_pem` is cryptographically signed by the authority in `ca_pem`.
fn assert_chains_to_ca(leaf_pem: &str, ca_pem: &str) {
    let (_, ca_block) = parse_x509_pem(ca_pem.as_bytes()).expect("parse CA PEM");
    let ca_cert = ca_block.parse_x509().expect("parse CA X.509");
    let (_, leaf_block) = parse_x509_pem(leaf_pem.as_bytes()).expect("parse leaf PEM");
    let leaf_cert = leaf_block.parse_x509().expect("parse leaf X.509");
    leaf_cert
        .verify_signature(Some(ca_cert.public_key()))
        .expect("leaf certificate must be signed by the local CA");
}

/// What a later boot reads back of a bootstrap.
fn files_of(boot: &Bootstrap) -> SecretFiles {
    let layout = boot.layout("manifest".to_owned());
    assert_eq!(layout[2].contents, "manifest");
    SecretFiles {
        cert_pem: layout[0].contents.clone(),
        key_pem: layout[1].contents.clone(),
        secrets: boot.secrets().clone(),
    }
}

#[test]
fn a_generated_ca_signs_a_node_csr() {
    let ca = LocalCa::generate().unwrap();
    assert!(ca.cert_pem().contains("BEGIN CERTIFICATE"));
    let leaf = ca.sign_node_cert(&agent_csr("node-1")).unwrap();
    assert!(leaf.contains("BEGIN CERTIFICATE"));
}

#[test]
fn a_generated_ca_signs_a_der_csr_and_exposes_its_cert_der() {
    let ca = LocalCa::generate().unwrap();
    let leaf_der = ca.sign_node_cert_der(&agent_csr_der("node-der")).unwrap();
    assert!(!leaf_der.is_empty());
    // The persisted certificate decodes to non-empty DER: the trust anchor.
    assert!(!ca.cert_der().unwrap().is_empty());
}

#[test]
fn a_garbage_der_csr_is_rejected() {
    let ca = LocalCa::generate().unwrap();
    assert!(matches!(
        ca.sign_node_cert_der(b"not a der csr"),
        Err(BootstrapError::Certificate(_))
    ));
}

#[test]
fn a_reloaded_ca_still_signs() {
    let ca = LocalCa::generate().unwrap();
    let reloaded = LocalCa::from_pem(ca.cert_pem(), &ca.key_pem()).unwrap();
    assert_eq!(reloaded.cert_pem(), ca.cert_pem());
    assert!(reloaded.sign_node_cert(&agent_csr("node-2")).is_ok());
}

#[test]
fn a_garbage_csr_is_rejected() {
    let ca = LocalCa::generate().unwrap();
    assert!(matches!(
        ca.sign_node_cert("not a csr"),
        Err(BootstrapError::Certificate(_))
    ));
}

#[test]
fn debug_does_not_leak_the_private_key() {
    let ca = LocalCa::generate().unwrap();
    let shown = ca.redacted();
    assert!(shown.contains("<redacted>"));
    assert!(!shown.contains("PRIVATE KEY"));
}

#[test]
fn an_authority_is_reloaded_only_from_a_key_and_a_certificate() {
    let ca = LocalCa::generate().unwrap();
    assert!(ca.key_pem().contains("PRIVATE KEY"));
    assert!(matches!(
        LocalCa::from_pem(ca.cert_pem(), "not a key"),
        Err(BootstrapError::Certificate(_))
    ));
    assert!(matches!(
        LocalCa::from_pem("not a certificate", &ca.key_pem()),
        Err(BootstrapError::Certificate(_))
    ));
    // A reload writes the key that it was made with.
    let reloaded = LocalCa::from_pem(ca.cert_pem(), &ca.key_pem()).unwrap();
    assert_eq!(reloaded.key_pem(), ca.key_pem());
}

#[test]
fn an_issued_certificate_is_an_end_entity_for_both_sides() {
    let ca = LocalCa::generate().unwrap();
    let leaf = ca.sign_node_cert(&agent_csr("node-ee")).unwrap();
    assert_chains_to_ca(&leaf, ca.cert_pem());
    let (_, block) = parse_x509_pem(leaf.as_bytes()).expect("leaf");
    let cert = block.parse_x509().expect("leaf");
    assert!(!cert.is_ca());
    let uses = cert.extended_key_usage().expect("uses").expect("present");
    assert!(uses.value.client_auth && uses.value.server_auth);
    assert!(!uses.value.any && !uses.value.code_signing);
    assert!(cert.subject().to_string().contains("node-ee"));

    let (_, anchor) = parse_x509_pem(ca.cert_pem().as_bytes()).expect("anchor");
    assert_eq!(anchor.contents, ca.cert_der().unwrap());
    let root = anchor.parse_x509().expect("anchor");
    assert!(root.is_ca());
    assert_eq!(root.subject().to_string(), "CN=Loom Local CA");
}

#[test]
fn a_freshly_issued_token_verifies_before_expiry() {
    let key = EnrollmentKey::generate().unwrap();
    let token = key.issue(60_000, ts(1_000)).unwrap();
    let claims = key.verify(token.as_str(), ts(30_000)).unwrap();
    assert_eq!(claims.expires_at, ts(61_000));
    assert!(!claims.nonce.is_empty());
}

#[test]
fn token_an_expired_token_is_refused() {
    let key = EnrollmentKey::generate().unwrap();
    let token = key.issue(10_000, ts(1_000)).unwrap();
    let err = key.verify(token.as_str(), ts(20_000)).unwrap_err();
    assert!(matches!(err, BootstrapError::TokenExpired));
}

#[test]
fn a_token_from_a_different_key_is_refused() {
    let issuer = EnrollmentKey::generate().unwrap();
    let attacker = EnrollmentKey::generate().unwrap();
    let token = issuer.issue(60_000, ts(1_000)).unwrap();
    let err = attacker.verify(token.as_str(), ts(2_000)).unwrap_err();
    assert!(matches!(err, BootstrapError::TokenInvalid));
}

#[test]
fn a_tampered_token_is_refused() {
    let key = EnrollmentKey::generate().unwrap();
    let token = key.issue(60_000, ts(1_000)).unwrap().into_string();
    // Flip the last hex nibble of the code.
    let mut bytes = token.into_bytes();
    let last = bytes.last_mut().unwrap();
    *last = if *last == b'a' { b'b' } else { b'a' };
    let tampered = String::from_utf8(bytes).unwrap();
    let err = key.verify(&tampered, ts(2_000)).unwrap_err();
    assert!(matches!(err, BootstrapError::TokenInvalid));
}

#[test]
fn malformed_tokens_are_refused_not_panicking() {
    let key = EnrollmentKey::generate().unwrap();
    for bad in ["", "le1", "le1.zz.zz", "le2.00.00", "le1.00.00.00"] {
        assert!(matches!(
            key.verify(bad, ts(0)),
            Err(BootstrapError::TokenInvalid)
        ));
    }
}

#[test]
fn enrollment_key_round_trips_through_hex() {
    let key = EnrollmentKey::generate().unwrap();
    let restored = EnrollmentKey::from_hex(&key.to_hex()).unwrap();
    // A token issued by the original verifies under the restored key.
    let token = key.issue(60_000, ts(0)).unwrap();
    assert!(restored.verify(token.as_str(), ts(1)).is_ok());
}

#[test]
fn admin_token_mint_hashes_and_is_unique() {
    let a = AdminCredential::mint().unwrap();
    let b = AdminCredential::mint().unwrap();
    assert!(a.token.starts_with("loom_admin_"));
    assert_ne!(a.token, b.token);
    assert_ne!(a.account_id, b.account_id);
    assert_eq!(a.token_hash, hash_token(&a.token));
    assert_ne!(a.token_hash, b.token_hash);
    // The diagnostic form never prints the plaintext token.
    assert!(!a.redacted().contains(&a.token));
}

#[test]
fn a_token_is_its_payload_and_its_code_in_hex() {
    let key = EnrollmentKey::from_bytes([0x0b; 32]);
    let token = key.issue_with(500, ts(1_000), &[0xab; 16]).into_string();
    let payload = "1500:abababababababababababababababab";
    let hex: String = payload.bytes().map(|b| format!("{b:02x}")).collect();
    let code = token.rsplit('.').next().unwrap().to_owned();
    assert_eq!(token, format!("le1.{hex}.{code}"));
    assert_eq!(code.len(), 64);
    let claims = key.verify(&token, ts(1_500)).unwrap();
    assert_eq!(claims.nonce, "ab".repeat(16));
    assert!(matches!(
        key.verify(&token, ts(1_501)),
        Err(BootstrapError::TokenExpired)
    ));
    // The code is of one key and one payload.
    let other = EnrollmentKey::from_bytes([0x0c; 32]).issue_with(500, ts(1_000), &[0xab; 16]);
    assert_ne!(other.as_str(), token);
    // A code that is cut short is no code.
    assert!(matches!(
        key.verify(&token[..token.len() - 2], ts(0)),
        Err(BootstrapError::TokenInvalid)
    ));
}

#[test]
fn an_expiry_saturates() {
    let key = EnrollmentKey::from_bytes([1; 32]);
    let token = key.issue_with(i64::MAX, ts(1), &[0; 16]);
    let claims = key.verify(token.as_str(), ts(i64::MAX)).unwrap();
    assert_eq!(claims.expires_at, ts(i64::MAX));
}

#[test]
fn a_key_is_thirty_two_bytes_of_hex() {
    assert!(EnrollmentKey::from_hex(&"AB".repeat(32)).is_ok());
    assert_eq!(
        EnrollmentKey::from_hex(&"AB".repeat(32)).unwrap().to_hex(),
        "ab".repeat(32)
    );
    for bad in ["", "ab", "zz", "abc"] {
        assert!(matches!(
            EnrollmentKey::from_hex(bad),
            Err(BootstrapError::MalformedHex)
        ));
    }
    assert!(EnrollmentKey::from_hex(&"ab".repeat(33)).is_err());
}

#[test]
fn a_hash_is_the_digest_in_hex() {
    assert_eq!(
        hash_token("abc"),
        "ba7816bf8f01cfea414140de5dae2223b00361a396177a9cb410ff61f20015ad"
    );
    let admin = AdminCredential::from_random(&[1; 32], &[2; 12], &[3; 12]);
    assert_eq!(admin.token, format!("loom_admin_{}", "01".repeat(32)));
    assert_eq!(admin.token_hash, hash_token(&admin.token));
}

#[test]
fn debug_redacts_the_enrollment_key() {
    let secrets = Secrets {
        version: SECRETS_VERSION,
        enrollment_key: "aa".repeat(32),
        admin_account_id: "acct_x".to_owned(),
        admin_key_id: "key_x".to_owned(),
        admin_token_hash: "ff".repeat(32),
    };
    let shown = secrets.redacted();
    assert!(shown.contains("<redacted>"));
    assert!(!shown.contains(&"aa".repeat(32)));
}

#[test]
fn fresh_bootstrap_mints_ca_and_admin_and_persists_the_key() {
    let (boot, admin) = Bootstrap::create(false).expect("bootstrap");

    // The secrets layout: certificate, key, and the manifest last.
    let layout = boot.layout("x = 1".to_owned());
    let names: Vec<&str> = layout.iter().map(|f| f.name).collect();
    assert_eq!(names, vec!["ca.crt", "ca.key", "secrets.toml"]);
    assert!(!layout[0].owner_only && layout[1].owner_only && layout[2].owner_only);
    assert_eq!(layout[0].contents, boot.ca().cert_pem());
    assert_eq!(layout[1].contents, boot.ca().key_pem());

    // An authority and a one-time admin token were minted.
    assert!(boot.ca().cert_pem().contains("BEGIN CERTIFICATE"));
    assert!(admin.token.starts_with("loom_admin_"));

    // The admin token is persisted as a hash the auth path can resolve.
    let (account, key) = boot.admin_rows(now());
    assert_eq!(key.key_hash, hash_token(&admin.token));
    assert_eq!(key.account, AccountId::new(boot.admin_account_id()));
    assert!(!key.revoked);
    assert_eq!(account.id, AccountId::new(boot.admin_account_id()));
    assert_ne!(key.key_hash, hash_token("loom_admin_not_the_real_token"));

    // Persisting is idempotent: a row that is there already is no failure.
    assert!(ignore_conflict(Ok(())).is_ok());
    assert!(ignore_conflict(Err(StoreError::Conflict("api_key".to_owned()))).is_ok());
    assert!(matches!(
        ignore_conflict(Err(StoreError::NotFound)),
        Err(BootstrapError::Store(StoreError::NotFound))
    ));
}

#[test]
fn an_agent_with_a_valid_token_gets_a_signed_node_cert() {
    let (boot, _admin) = Bootstrap::create(false).expect("bootstrap");

    let token = boot
        .issue_enrollment_token(60_000, now())
        .expect("issue enrollment token");
    let csr = agent_csr("node-abc");

    let node_cert = boot
        .enroll_node(token.as_str(), &csr, now())
        .expect("enroll a valid agent");

    assert_chains_to_ca(&node_cert, boot.ca().cert_pem());
}

#[test]
fn a_bad_enrollment_token_is_refused() {
    let (boot, _admin) = Bootstrap::create(false).expect("bootstrap");
    let csr = agent_csr("node-x");

    // A forged token: never issued by this bootstrap's enrollment key.
    let err = boot
        .enroll_node("le1.6162.6162", &csr, now())
        .expect_err("a forged token is refused");
    assert!(matches!(err, BootstrapError::TokenInvalid));

    // A well-formed token whose expiry has passed.
    let token = boot
        .issue_enrollment_token(10_000, now())
        .expect("issue enrollment token");
    let later = Timestamp::from_millis(now().as_millis() + 20_000);
    let err = boot
        .enroll_node(token.as_str(), &csr, later)
        .expect_err("an expired token is refused");
    assert!(matches!(err, BootstrapError::TokenExpired));
}

#[test]
fn a_reloaded_bootstrap_honors_tokens_and_keeps_the_same_ca() {
    let (created, _admin) = Bootstrap::create(false).expect("bootstrap");
    let anchor = created.ca().cert_pem().to_owned();
    let earlier = created.issue_enrollment_token(60_000, now()).expect("issue");
    let files = files_of(&created);
    drop(created);

    let reloaded = match Bootstrap::load(Some(files)) {
        Ok(reloaded) => reloaded,
        Err(_) => panic!("reload bootstrap"),
    };
    assert_eq!(reloaded.ca().cert_pem(), anchor, "trust anchor is stable");
    assert!(reloaded.verify_enrollment_token(earlier.as_str(), now()).is_ok());

    let token = reloaded
        .issue_enrollment_token(60_000, now())
        .expect("issue after reload");
    let node_cert = reloaded
        .enroll_node(token.as_str(), &agent_csr("node-reload"), now())
        .expect("enroll after reload");
    assert_chains_to_ca(&node_cert, &anchor);
}

#[test]
fn creating_over_an_existing_bootstrap_is_refused() {
    assert!(Bootstrap::create(false).is_ok());
    assert!(matches!(
        Bootstrap::create(true),
        Err(BootstrapError::AlreadyInitialized)
    ));
}

#[test]
fn a_bootstrap_is_reloaded_only_whole() {
    assert!(matches!(
        Bootstrap::load(None),
        Err(BootstrapError::NotInitialized)
    ));
    let (created, _admin) = Bootstrap::create(false).expect("bootstrap");
    let mut files = files_of(&created);
    files.secrets.enrollment_key = "zz".to_owned();
    assert!(matches!(
        Bootstrap::load(Some(files)),
        Err(BootstrapError::MalformedHex)
    ));
    let mut files = files_of(&created);
    files.key_pem = String::new();
    assert!(matches!(
        Bootstrap::load(Some(files)),
        Err(BootstrapError::Certificate(_))
    ));
}

#[test]
fn diagnostics_escape_what_they_show() {
    let mut secrets = Secrets {
        version: SECRETS_VERSION,
        enrollment_key: "00".to_owned(),
        admin_account_id: "a\"b".to_owned(),
        admin_key_id: "c\nd".to_owned(),
        admin_token_hash: "e".to_owned(),
    };
    assert_eq!(
        secrets.redacted(),
        "Secrets { version: 1, enrollment_key: \"<redacted>\", admin_account_id: \"a\\\"b\", \
         admin_key_id: \"c\\nd\", admin_token_hash: \"e\" }"
    );
    secrets.admin_key_id = "k".to_owned();
    assert!(secrets.redacted().contains("admin_key_id: \"k\","));
    let ca = LocalCa::generate().unwrap();
    assert_eq!(
        ca.redacted(),
        format!("LocalCa {{ key: \"<redacted>\", cert_pem: {:?}, .. }}", ca.cert_pem())
    );
    let admin = AdminCredential {
        token: "secret".to_owned(),
        account_id: "a\\".to_owned(),
        key_id: "k".to_owned(),
        token_hash: "h".to_owned(),
    };
    assert_eq!(
        admin.redacted(),
        "AdminCredential { token: \"<redacted>\", account_id: \"a\\\\\", key_id: \"k\", \
         token_hash: \"h\" }"
    );
}

#[test]
fn keys_and_tokens_are_redacted() {
    let key = EnrollmentKey::from_bytes([7; 32]);
    assert_eq!(key.redacted(), "EnrollmentKey(\"<redacted>\")");
    let token = key.issue(60_000, now()).unwrap();
    assert_eq!(token.redacted(), "EnrollmentToken(\"<redacted>\")");
}

#[test]
fn a_plaintext_token_is_recorded_nowhere() {
    let (boot, admin) = Bootstrap::create(false).unwrap();
    let secrets = boot.secrets();
    assert_eq!(admin.token.len(), 75);
    assert_eq!(admin.token_hash.len(), 64);
    for field in [
        &secrets.enrollment_key,
        &secrets.admin_account_id,
        &secrets.admin_key_id,
        &secrets.admin_token_hash,
    ] {
        assert!(!field.contains(&admin.token));
    }
}

#[test]
fn a_reloaded_authority_is_adopted_with_its_secrets() {
    let (created, _admin) = Bootstrap::create(false).unwrap();
    let files = files_of(&created);
    let ca = LocalCa::from_pem(&files.cert_pem, &files.key_pem).unwrap();
    let adopted = Bootstrap::adopt(ca, files.secrets).unwrap();
    assert_eq!(adopted.ca().cert_pem(), created.ca().cert_pem());
    assert_eq!(adopted.secrets().enrollment_key, created.secrets().enrollment_key);
    let ca = LocalCa::generate().unwrap();
    let mut secrets = created.secrets().clone();
    secrets.enrollment_key = "ab".to_owned();
    assert!(matches!(Bootstrap::adopt(ca, secrets), Err(BootstrapError::MalformedHex)));
}
