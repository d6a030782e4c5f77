//! Which certificates can be written, and what happens to those that cannot.
use loom::agentproto::bootstrap::ca::LocalCa;
use loom::agentproto::bootstrap::ca::UNWRITABLE;
use loom::agentproto::bootstrap::error::BootstrapError;
use loom::agentproto::bootstrap::writable::date_is_writable;
use loom::agentproto::bootstrap::writable::identifier_is_writable;
use loom::agentproto::bootstrap::writable::is_writable;
use loom::agentproto::bootstrap::writable::printable_is_writable;
use loom::agentproto::bootstrap::writable::text_is_ascii;
use loom::agentproto::bootstrap::writable::YEAR_0;
use loom::agentproto::bootstrap::writable::YEAR_10000;
use loom::agentproto::bootstrap::writable::YEAR_1950;
use loom::agentproto::bootstrap::writable::YEAR_2050;
use loom::agentproto::bootstrap::Bootstrap;
use loom::agentproto::bootstrap::SecretFiles;
use loom::agentproto::enroll::EnrollError;
use loom::agentproto::enroll::Enroller;
use loom::domain::time::Timestamp;
use loom::proto::v1::EnrollRequest;
use rcgen::date_time_ymd;
use rcgen::CertificateParams;
use rcgen::CrlDistributionPoint;
use rcgen::CustomExtension;
use rcgen::DistinguishedName;
use rcgen::DnType;
use rcgen::DnValue;
use rcgen::ExtendedKeyUsagePurpose;
use rcgen::GeneralSubtree;
use rcgen::KeyPair;
use rcgen::NameConstraints;
use rcgen::SanType;

fn params() -> CertificateParams {
    CertificateParams::new(Vec::new()).expect("params")
}

fn named(kind: DnType, value: DnValue) -> DistinguishedName {
    let mut name = DistinguishedName::new();
    name.push(kind, value);
    name
}

fn printable(text: &str) -> DnValue {
    DnValue::PrintableString(text.try_into().expect("printable"))
}

/// A signing request with one alternative name of another kind, under the given
/// identifier as encoded.
fn request_with_other_name(oid: u8) -> CertificateParams {
    let mut params = params();
    let names = vec![0x30, 0x0a, 0xa0, 0x08, 0x06, 0x01, oid, 0xa0, 0x03, 0x0c, 0x01, b'a'];
    params.custom_extensions.push(CustomExtension::from_oid_content(&[2, 5, 29, 17], names));
    params
}

/// A certificate and its key, both in PEM, with some bytes of the certificate put in
/// place of others.
fn authority_with(params: CertificateParams, from: &[u8], to: &[u8]) -> (String, String) {
    let key = KeyPair::generate().expect("key");
    let mut der = params.self_signed(&key).expect("certificate").der().to_vec();
    let mut found = 0;
    for at in 0..=der.len() - from.len() {
        if &der[at..at + from.len()] == from {
            der[at..at + from.len()].copy_from_slice(to);
            found += 1;
        }
    }
    // The name stands for the issuer and for the subject.
    assert!(found > 0);
    (pem_of(&der), key.serialize_pem())
}

fn pem_of(der: &[u8]) -> String {
    let digits: Vec<char> = ('A'..='Z').chain('a'..='z').chain('0'..='9').chain(['+', '/']).collect();
    let mut text = String::new();
    for chunk in der.chunks(3) {
        let mut n: u32 = 0;
        for i in 0..3 {
            n = n * 256 + u32::from(chunk.get(i).copied().unwrap_or(0));
        }
        for i in 0..4 {
            if i <= chunk.len() {
                text.push(digits[(n >> (18 - 6 * i)) as usize & 63]);
            } else {
                text.push('=');
            }
        }
    }
    let mut pem = "-----BEGIN CERTIFICATE-----".to_owned();
    for (i, c) in text.chars().enumerate() {
        if i % 64 == 0 {
            pem.push('\n');
        }
        pem.push(c);
    }
    pem.push_str("\n-----END CERTIFICATE-----\n");
    pem
}

fn assert_unwritable<T>(r: Result<T, BootstrapError>) {
    match r {
        Err(BootstrapError::CertificateEncoding(why)) => assert_eq!(why, UNWRITABLE),
        Err(other) => panic!("refused otherwise: {other:?}"),
        Ok(_) => panic!("not refused"),
    }
}

#[test]
fn identifiers_have_two_arcs_within_their_range() {
    assert!(identifier_is_writable(&vec![2, 5, 4, 3]));
    assert!(identifier_is_writable(&vec![0, 39]));
    assert!(identifier_is_writable(&vec![2, 18_446_744_073_709_551_534]));
    assert!(!identifier_is_writable(&vec![]));
    assert!(!identifier_is_writable(&vec![1]));
    assert!(!identifier_is_writable(&vec![3, 0]));
    assert!(!identifier_is_writable(&vec![1, 40]));
    assert!(identifier_is_writable(&vec![2, 40]));
    assert!(!identifier_is_writable(&vec![2, 18_446_744_073_709_551_535]));
}

#[test]
fn printable_texts_have_no_question_mark() {
    assert!(printable_is_writable("AZaz09 '()+,-./:="));
    for text in ["?", "a*b", "a@b", "a_b", "&", ";", "\u{e9}"] {
        assert!(!printable_is_writable(text), "{text}");
    }
    assert!(text_is_ascii("a?b_\u{7f}"));
    assert!(!text_is_ascii("caf\u{e9}"));
}

#[test]
fn dates_keep_to_the_range_of_their_form() {
    assert!(date_is_writable((1950, YEAR_1950)));
    assert!(!date_is_writable((1950, YEAR_1950 - 3600)));
    assert!(date_is_writable((2049, YEAR_2050 - 1)));
    assert!(!date_is_writable((2049, YEAR_2050)));
    assert!(date_is_writable((1949, YEAR_1950)));
    assert!(date_is_writable((0, YEAR_0)));
    assert!(!date_is_writable((0, YEAR_0 - 1)));
    assert!(date_is_writable((9999, YEAR_10000 - 1)));
    assert!(!date_is_writable((9999, YEAR_10000)));
    assert_eq!(date_time_ymd(1950, 1, 1).unix_timestamp(), YEAR_1950);
    assert_eq!(date_time_ymd(2050, 1, 1).unix_timestamp(), YEAR_2050);
    assert_eq!(date_time_ymd(0, 1, 1).unix_timestamp(), YEAR_0);
    assert_eq!(date_time_ymd(9999, 12, 31).unix_timestamp() + 86_400, YEAR_10000);
}

#[test]
fn the_subject_is_looked_at() {
    assert!(is_writable(&params()));
    let mut p = params();
    p.distinguished_name = named(DnType::CustomDnType(vec![2, 5, 4, 97]), printable("why"));
    assert!(is_writable(&p));
    p.distinguished_name = named(DnType::CustomDnType(vec![3, 0]), printable("why"));
    assert!(!is_writable(&p));
    p.distinguished_name = named(DnType::CommonName, printable("why?"));
    assert!(!is_writable(&p));
    p.distinguished_name = named(DnType::CommonName, DnValue::Utf8String("why?".to_owned()));
    assert!(is_writable(&p));
}

#[test]
fn the_identifiers_of_extensions_are_looked_at() {
    let mut p = params();
    p.subject_alt_names.push(SanType::OtherName((vec![1, 3], "x".into())));
    p.extended_key_usages.push(ExtendedKeyUsagePurpose::Other(vec![1, 3]));
    p.custom_extensions.push(CustomExtension::from_oid_content(&[1, 3], vec![5, 0]));
    assert!(is_writable(&p));
    let mut names = p.clone();
    names.subject_alt_names.push(SanType::OtherName((vec![1, 40], "x".into())));
    assert!(!is_writable(&names));
    let mut uses = p.clone();
    uses.extended_key_usages.push(ExtendedKeyUsagePurpose::Other(vec![]));
    assert!(!is_writable(&uses));
    p.custom_extensions.push(CustomExtension::from_oid_content(&[4, 1], vec![5, 0]));
    assert!(!is_writable(&p));
}

#[test]
fn the_constraints_are_looked_at() {
    let good = GeneralSubtree::DnsName("example".to_owned());
    let bad = [
        GeneralSubtree::DnsName("ex\u{e4}mple".to_owned()),
        GeneralSubtree::Rfc822Name("\u{e4}@example".to_owned()),
        GeneralSubtree::DirectoryName(named(DnType::CustomDnType(vec![7]), printable("x"))),
        GeneralSubtree::DirectoryName(named(DnType::CommonName, printable("x?"))),
    ];
    let mut p = params();
    p.name_constraints = Some(NameConstraints {
        permitted_subtrees: vec![good.clone()],
        excluded_subtrees: vec![GeneralSubtree::DirectoryName(named(
            DnType::CommonName,
            printable("x"),
        ))],
    });
    assert!(is_writable(&p));
    for subtree in bad {
        p.name_constraints = Some(NameConstraints {
            permitted_subtrees: vec![good.clone(), subtree.clone()],
            excluded_subtrees: Vec::new(),
        });
        assert!(!is_writable(&p));
        p.name_constraints = Some(NameConstraints {
            permitted_subtrees: Vec::new(),
            excluded_subtrees: vec![subtree],
        });
        assert!(!is_writable(&p));
    }
}

#[test]
fn the_addresses_and_the_dates_are_looked_at() {
    let mut p = params();
    p.crl_distribution_points.push(CrlDistributionPoint {
        uris: vec!["http://example/crl".to_owned()],
    });
    assert!(is_writable(&p));
    p.crl_distribution_points.push(CrlDistributionPoint {
        uris: vec!["http://example/".to_owned(), "http://ex\u{e4}mple/".to_owned()],
    });
    assert!(!is_writable(&p));
    let mut early = params();
    early.not_before = date_time_ymd(-1, 12, 31);
    assert!(!is_writable(&early));
    let mut late = params();
    late.not_after = date_time_ymd(-5, 1, 1);
    assert!(!is_writable(&late));
    late.not_after = date_time_ymd(9999, 12, 31);
    assert!(is_writable(&late));
}

#[test]
fn a_request_that_cannot_be_written_is_refused_before_signing() {
    let ca = LocalCa::generate().unwrap();
    let key = KeyPair::generate().unwrap();
    let good = request_with_other_name(0x77).serialize_request(&key).unwrap();
    assert!(ca.sign_node_cert_der(good.der()).is_ok());
    assert!(ca.sign_node_cert(&good.pem().unwrap()).is_ok());
    let bad = request_with_other_name(0x78).serialize_request(&key).unwrap();
    assert_unwritable(ca.sign_node_cert_der(bad.der()));
    assert_unwritable(ca.sign_node_cert(&bad.pem().unwrap()));
}

#[test]
fn an_agent_that_asks_for_what_cannot_be_written_is_refused() {
    let now = Timestamp::from_millis(1_000_000);
    let (boot, _admin) = Bootstrap::create(false).unwrap();
    let token = boot.issue_enrollment_token(60_000, now).unwrap();
    let key = KeyPair::generate().unwrap();
    let bad = request_with_other_name(0x78).serialize_request(&key).unwrap();
    assert_unwritable(boot.enroll_node(token.as_str(), &bad.pem().unwrap(), now));
    let enroller = Enroller::new(boot);
    let request = EnrollRequest {
        enroll_token: token.into_string(),
        csr_der: bad.der().to_vec(),
        ..EnrollRequest::default()
    };
    let err = enroller.enroll(&request, now).expect_err("refused");
    assert_eq!(
        err.to_string(),
        format!("enrollment CSR rejected: certificate encoding error: {UNWRITABLE}")
    );
    assert!(matches!(&err, EnrollError::Csr(_)));
    assert_eq!(err.close_reason(), "enroll_csr_invalid");
}

#[test]
fn an_authority_that_cannot_be_written_is_not_reloaded() {
    let mut p = params();
    p.distinguished_name = named(DnType::CustomDnType(vec![2, 39, 1]), printable("whyX"));
    let (cert, key) = authority_with(p.clone(), b"whyX", b"whyZ");
    assert!(LocalCa::from_pem(&cert, &key).is_ok());
    let (cert, key) = authority_with(p.clone(), b"whyX", b"why?");
    assert_unwritable(LocalCa::from_pem(&cert, &key));
    let (cert, key) = authority_with(p.clone(), &[0x06, 0x02, 0x77, 1], &[0x06, 0x02, 0x78, 1]);
    assert_unwritable(LocalCa::from_pem(&cert, &key));
    p.name_constraints = Some(NameConstraints {
        permitted_subtrees: vec![GeneralSubtree::DnsName("aa.example".to_owned())],
        excluded_subtrees: Vec::new(),
    });
    let (cert, key) = authority_with(p, b"aa.example", "\u{e9}.example".as_bytes());
    assert_unwritable(LocalCa::from_pem(&cert, &key));
    let (created, _admin) = Bootstrap::create(false).unwrap();
    assert_unwritable(Bootstrap::load(Some(SecretFiles {
        cert_pem: cert,
        key_pem: key,
        secrets: created.secrets().clone(),
    })));
}
