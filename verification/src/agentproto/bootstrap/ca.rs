//! The local certificate authority: a self-signed root that signs one node
//! certificate per enrolled agent.
//!
//! Signing is driven by requests: the agent generates its own key pair and sends a
//! certificate signing request, so its private key never leaves its host. The
//! request's self-signature is verified while parsing. Whatever a request asks
//! for, the issued certificate is an end-entity identity for client and server
//! authentication, never an authority.
use crate::agentproto::bootstrap::error::BootstrapError;
use crate::agentproto::bootstrap::writable::constraints_of;
use crate::agentproto::bootstrap::writable::identifiers_of;
use crate::agentproto::bootstrap::writable::is_writable;
use crate::agentproto::bootstrap::writable::revocation_of;
use crate::agentproto::bootstrap::writable::subject_of;
use crate::agentproto::bootstrap::writable::validity_of;
use crate::agentproto::bootstrap::writable::writable;
use crate::text::debug_of;
use crate::text::quoted;
use rcgen::CertificateParams;
use rcgen::CertificateSigningRequestParams;
use rcgen::Error;
use rcgen::KeyPair;
use rcgen::PublicKey;
use rustls_pki_types::pem::PemObject;
use rustls_pki_types::CertificateDer;
use rustls_pki_types::CertificateSigningRequestDer;
use vstd::prelude::*;
use vstd::string::to_string_from_display_ensures;
use vstd::utf8::encode_utf8;

verus! {

/// A key pair of the X.509 backend (`rcgen::KeyPair`), opaque.
#[verifier::external_type_specification]
#[verifier::external_body]
pub struct ExKeyPair(rcgen::KeyPair);

/// An issued certificate of the X.509 backend (`rcgen::Certificate`), opaque.
#[verifier::external_type_specification]
#[verifier::external_body]
pub struct ExCertificate(rcgen::Certificate);

/// A parsed signing request of the X.509 backend
/// (`rcgen::CertificateSigningRequestParams`), opaque.
#[verifier::external_type_specification]
#[verifier::external_body]
pub struct ExSigningRequest(rcgen::CertificateSigningRequestParams);

/// The public key of a signing request (`rcgen::PublicKey`), opaque.
#[verifier::external_type_specification]
#[verifier::external_body]
pub struct ExPublicKey(rcgen::PublicKey);

/// The failure to find a section in PEM text (`rustls_pki_types::pem::Error`),
/// carried through unopened.
#[verifier::external_type_specification]
#[verifier::external_body]
pub struct ExPemError(rustls_pki_types::pem::Error);

/// The longest PEM text that a reader takes whatever it holds: 256 MiB.
pub const LARGEST_PEM: usize = 0x1000_0000;

/// Why a certificate is refused before it is signed.
pub const UNWRITABLE: &'static str = "a field of the certificate has no encoding";

/// Whether a PEM text is a private key that the X.509 backend can load.
pub uninterp spec fn key_pem_accepted(pem: Seq<char>) -> bool;

/// Whether a PEM text is a certificate that the X.509 backend can issue under.
pub uninterp spec fn ca_pem_accepted(pem: Seq<char>) -> bool;

/// Whether a PEM text is a signing request that parses and whose self-signature
/// verifies.
pub uninterp spec fn csr_pem_accepted(pem: Seq<char>) -> bool;

/// Whether DER bytes are a signing request that parses and whose self-signature
/// verifies.
pub uninterp spec fn csr_der_accepted(der: Seq<u8>) -> bool;

/// The DER bytes of the first certificate in a PEM text, if there is one.
pub uninterp spec fn certificate_der_of(pem: Seq<u8>) -> Option<Seq<u8>>;

/// Generates a random ECDSA P-256 key pair (`rcgen::KeyPair::generate`). Which key
/// comes back, and whether one does, is chance: a random source that gives out before
/// the key is made is an error, one that gives out while it is loaded a panic.
#[verifier::external_body]
fn fresh_key() -> (r: Result<KeyPair, Error>) {
    KeyPair::generate()
}

/// Loads a private key (`rcgen::KeyPair::from_pem`): only a text that is a key is
/// accepted. One that is can still fail, where the random source that guards the
/// loaded key does.
pub assume_specification[ KeyPair::from_pem ](pem_str: &str) -> (r: Result<KeyPair, Error>)
    ensures
        r is Ok ==> key_pem_accepted(pem_str@),
;

/// Writes a private key as PEM (`rcgen::KeyPair::serialize_pem`): the text is a key
/// that can be loaded. It panics on a key held by a remote signer, so the key is one
/// that was generated or loaded here. Which text it is rests on an opaque key and is
/// not stated.
#[verifier::external_body]
fn private_key_pem(key: &KeyPair) -> (pem: String)
    requires
        held_here(*key),
    ensures
        key_pem_accepted(pem@),
{
    key.serialize_pem()
}

/// Reads the parameters to issue under from a certificate
/// (`rcgen::CertificateParams::from_ca_cert_pem`): whether it is accepted is a
/// function of the text.
pub assume_specification[ CertificateParams::from_ca_cert_pem ](pem_str: &str) -> (r: Result<
    CertificateParams,
    Error,
>)
    ensures
        r is Ok == ca_pem_accepted(pem_str@),
;

/// Signs parameters with the key that they are about
/// (`rcgen::CertificateParams::self_signed`). It panics on parameters that have no
/// encoding, and a remote signer may do anything, so the key is held here. Signatures
/// are randomized, so nothing is claimed of the certificate.
pub assume_specification[ CertificateParams::self_signed ](
    params: CertificateParams,
    key_pair: &KeyPair,
) -> (r: Result<rcgen::Certificate, Error>)
    requires
        writable(params),
        held_here(*key_pair),
;

/// Writes a certificate as PEM (`rcgen::Certificate::pem`): the text holds a
/// certificate, which a PEM reader finds in it, a text past the reader's limit
/// aside. Which certificate it is rests on an opaque value and is not stated.
pub assume_specification[ rcgen::Certificate::pem ](cert: &rcgen::Certificate) -> (pem: String)
    ensures
        pem@.len() <= LARGEST_PEM ==> certificate_der_of(encode_utf8(pem@)) is Some,
;

/// What the authority's key may be used for.
#[derive(Debug, Clone, Copy, PartialEq, Eq, Structural)]
pub enum KeyUse {
    /// Signing certificates.
    KeyCertSign,
    /// Signing revocation lists.
    CrlSign,
    /// Signing data.
    DigitalSignature,
}

/// What a node certificate may be used for.
#[derive(Debug, Clone, Copy, PartialEq, Eq, Structural)]
pub enum LeafUse {
    /// Authenticating a client.
    ClientAuth,
    /// Authenticating a server.
    ServerAuth,
}

/// Whether a certificate may issue others.
#[derive(Debug, Clone, Copy, PartialEq, Eq, Structural)]
pub enum CertRole {
    /// It may, without a limit on the length of the chain.
    Authority,
    /// It may not, and says so.
    EndEntity,
}

/// What the authority's own certificate is to say.
pub struct AuthorityProfile {
    /// The common name of its subject.
    pub common_name: String,
    /// Whether it may issue others.
    pub role: CertRole,
    /// What its key may be used for.
    pub key_uses: Vec<KeyUse>,
    /// Whether it identifies its issuer's key.
    pub identifies_issuer: bool,
}

/// What a node certificate is to say, whatever its request asks for.
pub struct LeafProfile {
    /// Whether it may issue others.
    pub role: CertRole,
    /// What it may be used for, and for nothing else.
    pub uses: Vec<LeafUse>,
}

/// The profile of the local authority.
pub open spec fn is_local_authority(p: AuthorityProfile) -> bool {
    &&& p.common_name@ == "Loom Local CA"@
    &&& p.role == CertRole::Authority
    &&& p.key_uses@ == seq![KeyUse::KeyCertSign, KeyUse::CrlSign, KeyUse::DigitalSignature]
    &&& p.identifies_issuer
}

/// The profile of every node certificate: an end entity, for client and server
/// authentication.
pub open spec fn is_node_identity(p: LeafProfile) -> bool {
    &&& p.role == CertRole::EndEntity
    &&& p.uses@ == seq![LeafUse::ClientAuth, LeafUse::ServerAuth]
}

/// Builds certificate parameters (`rcgen::CertificateParams::new` without
/// alternative names, which cannot fail) and sets the fields that the profile
/// names. What is written of them beside the profile is the backend's default: a
/// subject of one common name, a validity from 1975 to 4096, and nothing else. The
/// parameters are opaque, so that they carry the profile is not stated; that only
/// the authority's profile is ever asked for is.
#[verifier::external_body]
fn authority_params(profile: &AuthorityProfile) -> (r: Result<CertificateParams, Error>)
    requires
        is_local_authority(*profile),
    ensures
        r is Ok,
        subject_of(r->Ok_0) == seq![(None::<Seq<u64>>, None::<Seq<char>>)],
        identifiers_of(r->Ok_0).len() == 0,
        constraints_of(r->Ok_0).len() == 0,
        revocation_of(r->Ok_0).len() == 0,
        validity_of(r->Ok_0) == ((1975i32, 157_766_400i64), (4096i32, 67_090_118_400i64)),
{
    let mut params = CertificateParams::new(Vec::new())?;
    params.is_ca = match profile.role {
        CertRole::Authority => rcgen::IsCa::Ca(rcgen::BasicConstraints::Unconstrained),
        CertRole::EndEntity => rcgen::IsCa::ExplicitNoCa,
    };
    params.key_usages = profile.key_uses.iter().map(|u| match u {
        KeyUse::KeyCertSign => rcgen::KeyUsagePurpose::KeyCertSign,
        KeyUse::CrlSign => rcgen::KeyUsagePurpose::CrlSign,
        KeyUse::DigitalSignature => rcgen::KeyUsagePurpose::DigitalSignature,
    }).collect();
    params.use_authority_key_identifier_extension = profile.identifies_issuer;
    params.distinguished_name.push(rcgen::DnType::CommonName, profile.common_name.as_str());
    Ok(params)
}

/// Parses a signing request and verifies its self-signature
/// (`rcgen::CertificateSigningRequestParams::from_pem`): whether it is accepted is
/// a function of the text.
pub assume_specification[ CertificateSigningRequestParams::from_pem ](pem_str: &str) -> (r: Result<
    CertificateSigningRequestParams,
    Error,
>)
    ensures
        r is Ok == csr_pem_accepted(pem_str@),
;

/// Parses a signing request and verifies its self-signature
/// (`rcgen::CertificateSigningRequestParams::from_der`): whether it is accepted is
/// a function of the bytes.
#[verifier::external_body]
fn request_from_der(der: &[u8]) -> (r: Result<CertificateSigningRequestParams, Error>)
    ensures
        r is Ok == csr_der_accepted(der@),
{
    CertificateSigningRequestParams::from_der(&CertificateSigningRequestDer::from(der))
}

/// Takes a parsed request apart (the two fields of
/// `rcgen::CertificateSigningRequestParams`): what it asks for, and the key that it
/// is about. Both are opaque, so which they are is not stated.
#[verifier::external_body]
fn request_parts(csr: CertificateSigningRequestParams) -> (r: (CertificateParams, PublicKey)) {
    (csr.params, csr.public_key)
}

/// Issues a certificate for a request, put together from its parts (`signed_by` of
/// `rcgen::CertificateSigningRequestParams`), after setting the fields that the
/// profile names. It panics on parameters that have no encoding; the issuer's own
/// name has one, as it was written when the issuer was signed. The key is held here,
/// since a remote signer may do anything. Signatures are randomized, so nothing is
/// claimed of the certificate; that only the node profile is ever asked for is.
#[verifier::external_body]
fn issue_leaf(
    params: CertificateParams,
    public_key: PublicKey,
    profile: &LeafProfile,
    issuer: &rcgen::Certificate,
    key: &KeyPair,
) -> (r: Result<rcgen::Certificate, Error>)
    requires
        is_node_identity(*profile),
        writable(params),
        held_here(*key),
{
    let mut csr = CertificateSigningRequestParams { params, public_key };
    csr.params.is_ca = match profile.role {
        CertRole::Authority => rcgen::IsCa::Ca(rcgen::BasicConstraints::Unconstrained),
        CertRole::EndEntity => rcgen::IsCa::ExplicitNoCa,
    };
    csr.params.extended_key_usages = profile.uses.iter().map(|u| match u {
        LeafUse::ClientAuth => rcgen::ExtendedKeyUsagePurpose::ClientAuth,
        LeafUse::ServerAuth => rcgen::ExtendedKeyUsagePurpose::ServerAuth,
    }).collect();
    csr.signed_by(issuer, key)
}

/// The DER bytes of a certificate (`rcgen::Certificate::der`). Nothing is claimed of
/// the bytes, which are those of an opaque certificate.
#[verifier::external_body]
fn certificate_bytes(cert: &rcgen::Certificate) -> (der: Vec<u8>) {
    cert.der().to_vec()
}

/// Finds the first certificate in PEM text (`from_pem_slice` of
/// `rustls_pki_types::CertificateDer`): a function of the text.
#[verifier::external_body]
fn first_certificate(pem: &[u8]) -> (r: Result<Vec<u8>, rustls_pki_types::pem::Error>)
    ensures
        match r {
            Ok(der) => certificate_der_of(pem@) == Some(der@),
            Err(_) => certificate_der_of(pem@) is None,
        },
{
    Ok(CertificateDer::from_pem_slice(pem)?.to_vec())
}

/// Whether `csr` is what parsing a PEM signing request may give.
pub open spec fn parsed_pem(csr_pem: Seq<char>, csr: CertificateSigningRequestParams) -> bool {
    exists|text: &str|
        text@ == csr_pem && #[trigger] call_ensures(
            CertificateSigningRequestParams::from_pem,
            (text,),
            Ok(csr),
        )
}

/// Whether `csr` is what parsing a DER signing request may give.
pub closed spec fn parsed_der(csr_der: Seq<u8>, csr: CertificateSigningRequestParams) -> bool {
    exists|bytes: &[u8]|
        bytes@ == csr_der && #[trigger] call_ensures(request_from_der, (bytes,), Ok(csr))
}

/// Whether `cert_pem` is what writing a certificate as PEM may give.
pub open spec fn written_pem(cert: rcgen::Certificate, cert_pem: Seq<char>) -> bool {
    exists|text: String|
        text@ == cert_pem && #[trigger] call_ensures(rcgen::Certificate::pem, (&cert,), text)
}

/// Whether `cert_der` is what writing a certificate as DER may give.
pub closed spec fn written_der(cert: rcgen::Certificate, cert_der: Seq<u8>) -> bool {
    exists|bytes: Vec<u8>|
        bytes@ == cert_der && #[trigger] call_ensures(certificate_bytes, (&cert,), bytes)
}

/// Whether signing parameters with a key may give this certificate, or this failure.
pub open spec fn self_signing(
    params: CertificateParams,
    key: KeyPair,
    r: Result<rcgen::Certificate, Error>,
) -> bool {
    call_ensures(CertificateParams::self_signed, (params, &key), r)
}

/// Whether the parameters are those of the local authority.
pub closed spec fn authority_parameters(params: CertificateParams) -> bool {
    exists|profile: AuthorityProfile|
        is_local_authority(profile) && #[trigger] call_ensures(
            authority_params,
            (&profile,),
            Ok(params),
        )
}

/// Whether the parameters are those read from a certificate in PEM.
pub open spec fn read_parameters(cert_pem: Seq<char>, params: CertificateParams) -> bool {
    exists|text: &str|
        text@ == cert_pem && #[trigger] call_ensures(
            CertificateParams::from_ca_cert_pem,
            (text,),
            Ok(params),
        )
}

/// Whether parsing gave a request that asks for something that has no encoding.
pub closed spec fn unwritable(csr: CertificateSigningRequestParams) -> bool {
    exists|params: CertificateParams, public_key: PublicKey| #[trigger]
        call_ensures(request_parts, (csr,), (params, public_key)) && !writable(params)
}

/// Whether looking for a certificate in PEM text may fail so.
pub closed spec fn no_certificate(pem: Seq<u8>, e: rustls_pki_types::pem::Error) -> bool {
    exists|bytes: &[u8]|
        bytes@ == pem && #[trigger] call_ensures(first_certificate, (bytes,), Err(e))
}

/// Whether a text is what the failure to find a certificate in PEM text says of
/// itself.
pub open spec fn undecodable_saying(pem: Seq<u8>, text: String) -> bool {
    exists|e: rustls_pki_types::pem::Error| #[trigger]
        no_certificate(pem, e) && to_string_from_display_ensures(&e, text)
}

/// Whether loading a PEM text as a key may fail so.
pub open spec fn failed_key(key_pem: Seq<char>, e: Error) -> bool {
    exists|text: &str|
        text@ == key_pem && #[trigger] call_ensures(KeyPair::from_pem, (text,), Err(e))
}

/// Whether the failure to generate an authority is one of the backend: of its key
/// generation, or of signing the authority's parameters with a generated key.
pub closed spec fn failed_generation(e: BootstrapError) -> bool {
    match e {
        BootstrapError::Certificate(e) => {
            ||| call_ensures(fresh_key, (), Err(e))
            ||| exists|params: CertificateParams, key: KeyPair| #[trigger]
                authority_parameters(params) && call_ensures(fresh_key, (), Ok(key))
                    && #[trigger] self_signing(params, key, Err(e))
        },
        _ => false,
    }
}

/// Whether the failure to reload an authority is one that these texts account for:
/// the key cannot be loaded, the certificate cannot be read, what it says has no
/// encoding, or signing that with the key failed.
pub open spec fn failed_reload(
    cert_pem: Seq<char>,
    key_pem: Seq<char>,
    e: BootstrapError,
) -> bool {
    match e {
        BootstrapError::Certificate(e) => {
            ||| failed_key(key_pem, e)
            ||| !ca_pem_accepted(cert_pem)
            ||| exists|params: CertificateParams, key: KeyPair| #[trigger]
                read_parameters(cert_pem, params) && writable(params) && loaded_key(
                    key_pem,
                    key,
                ) && #[trigger] self_signing(params, key, Err(e))
        },
        BootstrapError::CertificateEncoding(why) => {
            &&& why@ == UNWRITABLE@
            &&& key_pem_accepted(key_pem)
            &&& exists|params: CertificateParams| #[trigger]
                read_parameters(cert_pem, params) && !writable(params)
        },
        _ => false,
    }
}

/// Whether the key is what loading a PEM text may give.
pub open spec fn loaded_key(key_pem: Seq<char>, key: KeyPair) -> bool {
    exists|text: &str|
        text@ == key_pem && #[trigger] call_ensures(KeyPair::from_pem, (text,), Ok(key))
}

/// Whether the key was generated or loaded here: its private part is at hand, not
/// with a remote signer.
pub closed spec fn held_here(key: KeyPair) -> bool {
    ||| call_ensures(fresh_key, (), Ok(key))
    ||| exists|key_pem: Seq<char>| #[trigger] loaded_key(key_pem, key)
}

/// A local certificate authority able to sign agent node certificates. It holds a
/// private key, so its diagnostic form is [`LocalCa::redacted`].
pub struct LocalCa {
    issuer: rcgen::Certificate,
    key: KeyPair,
    cert_pem: String,
}

impl LocalCa {
    /// The private key is at hand.
    #[verifier::type_invariant]
    spec fn holds_its_key(self) -> bool {
        held_here(self.key)
    }

    /// The certificate, in PEM, that agents pin.
    pub closed spec fn anchor(&self) -> Seq<char> {
        self.cert_pem@
    }

    /// Whether a text is the authority's private key as written.
    pub closed spec fn writes_key(&self, key_pem: Seq<char>) -> bool {
        exists|text: String|
            text@ == key_pem && #[trigger] call_ensures(private_key_pem, (&self.key,), text)
    }

    /// Whether the authority is a generated one: a fresh key signed the authority's
    /// parameters, and the anchor is that certificate as written.
    pub closed spec fn is_generated(&self) -> bool {
        &&& call_ensures(fresh_key, (), Ok(self.key))
        &&& written_pem(self.issuer, self.anchor())
        &&& exists|params: CertificateParams| #[trigger]
            authority_parameters(params) && self_signing(params, self.key, Ok(self.issuer))
    }

    /// Whether the authority is the one of a persisted certificate and key: the
    /// certificate is the anchor, verbatim, and what it says, signed by the key, is
    /// what the authority issues under.
    pub closed spec fn is_reloaded(&self, cert_pem: Seq<char>, key_pem: Seq<char>) -> bool {
        &&& self.anchor() == cert_pem
        &&& loaded_key(key_pem, self.key)
        &&& exists|params: CertificateParams| #[trigger]
            read_parameters(cert_pem, params) && writable(params) && self_signing(
                params,
                self.key,
                Ok(self.issuer),
            )
    }

    /// Whether a certificate, or a failure, is what the authority may give for a
    /// request: the node profile, signed with the authority's key.
    pub closed spec fn issuing(
        &self,
        csr: CertificateSigningRequestParams,
        r: Result<rcgen::Certificate, Error>,
    ) -> bool {
        exists|params: CertificateParams, public_key: PublicKey, profile: LeafProfile|
            is_node_identity(profile) && writable(params) && #[trigger] call_ensures(
                request_parts,
                (csr,),
                (params, public_key),
            ) && #[trigger] call_ensures(
                issue_leaf,
                (params, public_key, &profile, &self.issuer, &self.key),
                r,
            )
    }

    /// Whether a failure is one that signing a parsed request may give: the backend
    /// fails, or the request asks for something that has no encoding.
    pub open spec fn refusing(
        &self,
        csr: CertificateSigningRequestParams,
        e: BootstrapError,
    ) -> bool {
        match e {
            BootstrapError::Certificate(e) => self.issuing(csr, Err(e)),
            BootstrapError::CertificateEncoding(why) => unwritable(csr) && why@ == UNWRITABLE@,
            _ => false,
        }
    }

    /// Whether a failure is one that signing a request in PEM may give.
    pub open spec fn refused_pem(&self, csr_pem: Seq<char>, e: BootstrapError) -> bool {
        if csr_pem_accepted(csr_pem) {
            exists|csr: CertificateSigningRequestParams| #[trigger]
                parsed_pem(csr_pem, csr) && self.refusing(csr, e)
        } else {
            e is Certificate
        }
    }

    /// Whether a failure is one that signing a request in DER may give.
    pub open spec fn refused_der(&self, csr_der: Seq<u8>, e: BootstrapError) -> bool {
        if csr_der_accepted(csr_der) {
            exists|csr: CertificateSigningRequestParams| #[trigger]
                parsed_der(csr_der, csr) && self.refusing(csr, e)
        } else {
            e is Certificate
        }
    }

    /// Whether `cert_pem` is a certificate that the authority issued for a request,
    /// both in PEM.
    pub open spec fn signed_pem(&self, csr_pem: Seq<char>, cert_pem: Seq<char>) -> bool {
        exists|csr: CertificateSigningRequestParams, cert: rcgen::Certificate| #[trigger]
            parsed_pem(csr_pem, csr) && self.issuing(csr, Ok(cert)) && #[trigger] written_pem(
                cert,
                cert_pem,
            )
    }

    /// Whether `cert_der` is a certificate that the authority issued for a request,
    /// both in DER.
    pub open spec fn signed_der(&self, csr_der: Seq<u8>, cert_der: Seq<u8>) -> bool {
        exists|csr: CertificateSigningRequestParams, cert: rcgen::Certificate| #[trigger]
            parsed_der(csr_der, csr) && self.issuing(csr, Ok(cert)) && #[trigger] written_der(
                cert,
                cert_der,
            )
    }

    /// Whether a text is what a failure to sign a request in DER may say of itself.
    pub open spec fn refused_saying(&self, csr_der: Seq<u8>, text: Seq<char>) -> bool {
        exists|e: BootstrapError| #[trigger]
            self.refused_der(csr_der, e) && e.is_shown_as(text)
    }

    /// Generates a fresh self-signed authority (ECDSA P-256).
    ///
    /// # Errors
    /// [`BootstrapError::Certificate`] if key generation or self-signing fails.
    pub fn generate() -> (r: Result<Self, BootstrapError>)
        ensures
            match r {
                Ok(ca) => ca.is_generated(),
                Err(e) => e is Certificate && failed_generation(e),
            },
    {
        let key = match fresh_key() {
            Ok(key) => key,
            Err(e) => {
                return Err(BootstrapError::Certificate(e));
            },
        };
        let params = match Self::ca_params() {
            Ok(params) => params,
            Err(e) => {
                return Err(e);
            },
        };
        match params.self_signed(&key) {
            Ok(issuer) => {
                let cert_pem = issuer.pem();
                proof {
                    assert(written_pem(issuer, cert_pem@));
                    assert(authority_parameters(params));
                    assert(self_signing(params, key, Ok(issuer)));
                }
                Ok(LocalCa { issuer, key, cert_pem })
            },
            Err(e) => {
                proof {
                    assert(authority_parameters(params));
                    assert(self_signing(params, key, Err(e)));
                }
                Err(BootstrapError::Certificate(e))
            },
        }
    }

    /// Reloads an authority from its persisted certificate and key. The certificate
    /// text is kept verbatim as the trust anchor.
    ///
    /// # Errors
    /// [`BootstrapError::Certificate`] if either text cannot be parsed or the issuer
    /// cannot be reconstructed; [`BootstrapError::CertificateEncoding`] if the
    /// certificate holds what has no encoding.
    pub fn from_pem(cert_pem: &str, key_pem: &str) -> (r: Result<Self, BootstrapError>)
        ensures
            match r {
                Ok(ca) => {
                    &&& ca.is_reloaded(cert_pem@, key_pem@)
                    &&& ca.anchor() == cert_pem@
                    &&& key_pem_accepted(key_pem@)
                    &&& ca_pem_accepted(cert_pem@)
                },
                Err(e) => failed_reload(cert_pem@, key_pem@, e),
            },
    {
        let key = match KeyPair::from_pem(key_pem) {
            Ok(key) => key,
            Err(e) => {
                proof {
                    assert(failed_key(key_pem@, e));
                }
                return Err(BootstrapError::Certificate(e));
            },
        };
        let params = match CertificateParams::from_ca_cert_pem(cert_pem) {
            Ok(params) => params,
            Err(e) => {
                return Err(BootstrapError::Certificate(e));
            },
        };
        proof {
            assert(loaded_key(key_pem@, key));
            assert(read_parameters(cert_pem@, params));
        }
        if !is_writable(&params) {
            return Err(BootstrapError::CertificateEncoding(UNWRITABLE.to_owned()));
        }
        match params.self_signed(&key) {
            Ok(issuer) => {
                proof {
                    assert(self_signing(params, key, Ok(issuer)));
                }
                Ok(LocalCa { issuer, key, cert_pem: cert_pem.to_owned() })
            },
            Err(e) => {
                proof {
                    assert(self_signing(params, key, Err(e)));
                }
                Err(BootstrapError::Certificate(e))
            },
        }
    }

    /// The authority's certificate in PEM: the public trust anchor agents pin.
    #[must_use]
    pub fn cert_pem(&self) -> (s: &str)
        ensures
            s@ == self.anchor(),
    {
        self.cert_pem.as_str()
    }

    /// The authority's private key in PEM. This is secret material: it goes to the
    /// owner-only secrets file and nowhere else.
    #[must_use]
    pub fn key_pem(&self) -> (s: String)
        ensures
            self.writes_key(s@),
            key_pem_accepted(s@),
    {
        proof {
            use_type_invariant(self);
        }
        private_key_pem(&self.key)
    }

    /// Signs an agent's signing request (PEM) into a node certificate (PEM).
    ///
    /// # Errors
    /// [`BootstrapError::Certificate`] if the request is malformed, its
    /// self-signature does not verify, or signing fails;
    /// [`BootstrapError::CertificateEncoding`] if it asks for what has no encoding.
    pub fn sign_node_cert(&self, csr_pem: &str) -> (r: Result<String, BootstrapError>)
        ensures
            match r {
                Ok(cert_pem) => {
                    &&& csr_pem_accepted(csr_pem@)
                    &&& self.signed_pem(csr_pem@, cert_pem@)
                },
                Err(e) => self.refused_pem(csr_pem@, e),
            },
    {
        let csr = match CertificateSigningRequestParams::from_pem(csr_pem) {
            Ok(csr) => csr,
            Err(e) => {
                return Err(BootstrapError::Certificate(e));
            },
        };
        proof {
            assert(parsed_pem(csr_pem@, csr));
        }
        match self.sign_csr(csr) {
            Ok(cert) => {
                let cert_pem = cert.pem();
                proof {
                    assert(written_pem(cert, cert_pem@));
                }
                Ok(cert_pem)
            },
            Err(e) => Err(e),
        }
    }

    /// Signs an agent's signing request (DER, the form carried on the wire) into a
    /// node certificate (DER).
    ///
    /// # Errors
    /// [`BootstrapError::Certificate`] if the request is malformed, its
    /// self-signature does not verify, or signing fails;
    /// [`BootstrapError::CertificateEncoding`] if it asks for what has no encoding.
    pub fn sign_node_cert_der(&self, csr_der: &[u8]) -> (r: Result<Vec<u8>, BootstrapError>)
        ensures
            match r {
                Ok(cert_der) => {
                    &&& csr_der_accepted(csr_der@)
                    &&& self.signed_der(csr_der@, cert_der@)
                },
                Err(e) => self.refused_der(csr_der@, e),
            },
    {
        let csr = match request_from_der(csr_der) {
            Ok(csr) => csr,
            Err(e) => {
                return Err(BootstrapError::Certificate(e));
            },
        };
        proof {
            assert(parsed_der(csr_der@, csr));
        }
        match self.sign_csr(csr) {
            Ok(cert) => {
                let cert_der = certificate_bytes(&cert);
                proof {
                    assert(written_der(cert, cert_der@));
                }
                Ok(cert_der)
            },
            Err(e) => Err(e),
        }
    }

    /// The persisted certificate as DER bytes, decoded from the text that agents
    /// pinned.
    ///
    /// # Errors
    /// [`BootstrapError::CertificateEncoding`] if the text cannot be decoded.
    pub fn cert_der(&self) -> (r: Result<Vec<u8>, BootstrapError>)
        ensures
            match r {
                Ok(der) => certificate_der_of(encode_utf8(self.anchor())) == Some(der@),
                Err(BootstrapError::CertificateEncoding(text)) => {
                    &&& certificate_der_of(encode_utf8(self.anchor())) is None
                    &&& undecodable_saying(encode_utf8(self.anchor()), text)
                },
                Err(_) => false,
            },
    {
        match first_certificate(self.cert_pem.as_str().as_bytes()) {
            Ok(der) => Ok(der),
            Err(e) => {
                let text = e.to_string();
                proof {
                    assert(no_certificate(encode_utf8(self.anchor()), e));
                    assert(undecodable_saying(encode_utf8(self.anchor()), text));
                }
                Err(BootstrapError::CertificateEncoding(text))
            },
        }
    }

    /// Signs a parsed request as an end-entity identity, whatever it asked for.
    fn sign_csr(&self, csr: CertificateSigningRequestParams) -> (r: Result<
        rcgen::Certificate,
        BootstrapError,
    >)
        ensures
            match r {
                Ok(cert) => self.issuing(csr, Ok(cert)),
                Err(e) => self.refusing(csr, e),
            },
    {
        let profile = LeafProfile {
            role: CertRole::EndEntity,
            uses: vec![LeafUse::ClientAuth, LeafUse::ServerAuth],
        };
        proof {
            assert(profile.uses@ =~= seq![LeafUse::ClientAuth, LeafUse::ServerAuth]);
        }
        let (params, public_key) = request_parts(csr);
        if !is_writable(&params) {
            proof {
                assert(call_ensures(request_parts, (csr,), (params, public_key)));
            }
            return Err(BootstrapError::CertificateEncoding(UNWRITABLE.to_owned()));
        }
        proof {
            use_type_invariant(self);
        }
        let issued = issue_leaf(params, public_key, &profile, &self.issuer, &self.key);
        proof {
            assert(call_ensures(request_parts, (csr,), (params, public_key)));
            assert(self.issuing(csr, issued));
        }
        match issued {
            Ok(cert) => Ok(cert),
            Err(e) => Err(BootstrapError::Certificate(e)),
        }
    }

    /// The parameters of the authority's own certificate.
    fn ca_params() -> (r: Result<CertificateParams, BootstrapError>)
        ensures
            r is Ok,
            authority_parameters(r->Ok_0),
            writable(r->Ok_0),
    {
        let profile = AuthorityProfile {
            common_name: "Loom Local CA".to_owned(),
            role: CertRole::Authority,
            key_uses: vec![KeyUse::KeyCertSign, KeyUse::CrlSign, KeyUse::DigitalSignature],
            identifies_issuer: true,
        };
        proof {
            assert(profile.key_uses@ =~= seq![
                KeyUse::KeyCertSign,
                KeyUse::CrlSign,
                KeyUse::DigitalSignature,
            ]);
        }
        match authority_params(&profile) {
            Ok(params) => Ok(params),
            Err(e) => Err(BootstrapError::Certificate(e)),
        }
    }

    /// The authority for diagnostics: its certificate, with the private key left
    /// out.
    #[must_use]
    pub fn redacted(&self) -> (s: String)
        ensures
            s@ == "LocalCa { key: \"<redacted>\", cert_pem: "@ + debug_of(self.anchor())
                + ", .. }"@,
    {
        let mut s = "LocalCa { key: \"<redacted>\", cert_pem: ".to_owned();
        s.append(quoted(self.cert_pem.as_str()).as_str());
        s.append(", .. }");
        s
    }
}

/// The anchor of a generated authority can be decoded, so its enrollments never fail
/// for want of it.
pub proof fn a_generated_anchor_decodes(ca: LocalCa)
    requires
        ca.is_generated(),
        ca.anchor().len() <= LARGEST_PEM,
    ensures
        certificate_der_of(encode_utf8(ca.anchor())) is Some,
{
}

/// The private key that an authority writes is one that it can be reloaded with.
pub proof fn a_written_key_is_accepted(ca: LocalCa, key_pem: Seq<char>)
    requires
        ca.writes_key(key_pem),
    ensures
        key_pem_accepted(key_pem),
{
}

/// The authority may issue and a node may not: their certificates have different roles, the
/// authority's key signs certificates, and a node's serves both ends of a connection and
/// nothing else.
pub proof fn a_node_is_no_authority(ca: AuthorityProfile, node: LeafProfile, other: LeafUse)
    requires
        is_local_authority(ca),
        is_node_identity(node),
    ensures
        ca.role != node.role,
        node.role == CertRole::EndEntity,
        ca.key_uses@.contains(KeyUse::KeyCertSign),
        node.uses@.contains(other),
        node.uses@.no_duplicates(),
{
    assert(ca.key_uses@[0] == KeyUse::KeyCertSign);
    assert(node.uses@[0] == LeafUse::ClientAuth);
    assert(node.uses@[1] == LeafUse::ServerAuth);
}

} // verus!
