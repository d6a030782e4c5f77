//! Node identity: the local key material, the signing request, and the granted
//! certificate. The private key never leaves the host.
use crate::bus::message::bytes_of;
use crate::decimal::decimal;
use crate::decimal::unsigned;
use crate::text::debug_of;
use crate::text::labelled;
use crate::text::quoted;
use vstd::prelude::*;
use vstd::utf8::encode_utf8;
use vstd::utf8::encode_utf8_decode_utf8;

verus! {

/// Errors from keystore persistence.
#[derive(Debug, PartialEq, Eq)]
pub enum KeystoreError {
    /// The keystore file could not be read or written.
    Io {
        /// The keystore path.
        path: String,
        /// What the failure says of itself.
        source: String,
    },
    /// The keystore file was present but not valid.
    Decode(String),
}

impl KeystoreError {
    /// What the failure says of itself.
    pub open spec fn message(self) -> Seq<char> {
        match self {
            KeystoreError::Io { path, source } => "keystore i/o at "@ + path@ + ": "@ + source@,
            KeystoreError::Decode(why) => "keystore decode: "@ + why@,
        }
    }

    /// What the failure says of itself.
    pub fn to_string(&self) -> (s: String)
        ensures
            s@ == self.message(),
    {
        match self {
            KeystoreError::Io { path, source } => {
                let mut s = labelled("keystore i/o at ", path.as_str());
                s.append(": ");
                s.append(source.as_str());
                s
            },
            KeystoreError::Decode(why) => labelled("keystore decode: ", why.as_str()),
        }
    }
}

/// A locally generated key pair plus the signing request derived from it. It holds
/// a private key, so its diagnostic form is [`KeyMaterial::redacted`].
#[derive(Clone, PartialEq, Eq)]
pub struct KeyMaterial {
    /// Private key material: persisted to the keystore, never sent on the wire.
    pub private_key_der: Vec<u8>,
    /// The signing request sent at enrollment.
    pub csr_der: Vec<u8>,
}

impl KeyMaterial {
    /// The key material for diagnostics, with the private key left out.
    #[must_use]
    pub fn redacted(&self) -> (s: String)
        ensures
            s@ == "KeyMaterial { private_key_der: \"<redacted>\", csr_len: "@ + decimal(
                self.csr_der@.len(),
            ) + " }"@,
    {
        let mut s = "KeyMaterial { private_key_der: \"<redacted>\", csr_len: ".to_owned();
        s.append(unsigned(self.csr_der.len() as u64).as_str());
        s.append(" }");
        s
    }
}

/// Produces the node key pair and signing request at enrollment.
pub trait CsrProvider {
    /// Generates key material and a signing request whose subject carries
    /// `subject_nonce`.
    ///
    /// # Errors
    /// [`KeystoreError`] if a backing operation fails.
    fn generate(&self, subject_nonce: &str) -> Result<KeyMaterial, KeystoreError>;
}

/// The placeholder's private key for a nonce.
pub open spec fn placeholder_key(nonce: Seq<char>) -> Seq<u8> {
    encode_utf8("LOOM-PLACEHOLDER-KEY-v0:"@) + encode_utf8(nonce)
}

/// The placeholder's signing request for a nonce.
pub open spec fn placeholder_csr(nonce: Seq<char>) -> Seq<u8> {
    encode_utf8("LOOM-PLACEHOLDER-CSR-v0:"@) + encode_utf8(nonce)
}

/// A structural, non-cryptographic generator: enough to exercise the wire contract,
/// and tagged as a placeholder in any captured frame.
#[derive(Debug, Clone, Copy, PartialEq, Eq, Structural)]
pub struct PlaceholderCsr;

impl Default for PlaceholderCsr {
    fn default() -> (p: Self)
        ensures
            p == PlaceholderCsr,
    {
        PlaceholderCsr
    }
}

impl CsrProvider for PlaceholderCsr {
    fn generate(&self, subject_nonce: &str) -> (r: Result<KeyMaterial, KeystoreError>)
        ensures
            r is Ok,
            r->Ok_0.private_key_der@ == placeholder_key(subject_nonce@),
            r->Ok_0.csr_der@ == placeholder_csr(subject_nonce@),
    {
        let nonce = bytes_of(subject_nonce);
        let mut private_key_der = bytes_of("LOOM-PLACEHOLDER-KEY-v0:");
        private_key_der.extend_from_slice(nonce.as_slice());
        let mut csr_der = bytes_of("LOOM-PLACEHOLDER-CSR-v0:");
        csr_der.extend_from_slice(nonce.as_slice());
        proof {
            assert(private_key_der@ =~= placeholder_key(subject_nonce@));
            assert(csr_der@ =~= placeholder_csr(subject_nonce@));
        }
        Ok(KeyMaterial { private_key_der, csr_der })
    }
}

/// The durable identity that a node holds after enrollment: the granted certificate
/// plus the private key it must never disclose. Its diagnostic form is
/// [`EnrolledNode::redacted`].
#[derive(Clone, PartialEq, Eq)]
pub struct EnrolledNode {
    /// The identity that the control plane assigned.
    pub agent_id: String,
    /// The signed node certificate.
    pub node_cert_der: Vec<u8>,
    /// The chain that the agent pins the gateway against.
    pub ca_chain_der: Vec<u8>,
    /// Private key material, kept local.
    pub private_key_der: Vec<u8>,
}

impl EnrolledNode {
    /// The identity for diagnostics, with the private key left out.
    #[must_use]
    pub fn redacted(&self) -> (s: String)
        ensures
            s@ == "EnrolledNode { agent_id: "@ + debug_of(self.agent_id@) + ", node_cert_len: "@
                + decimal(self.node_cert_der@.len()) + ", ca_chain_len: "@ + decimal(
                self.ca_chain_der@.len(),
            ) + ", private_key_der: \"<redacted>\" }"@,
    {
        let mut s = "EnrolledNode { agent_id: ".to_owned();
        s.append(quoted(self.agent_id.as_str()).as_str());
        s.append(", node_cert_len: ");
        s.append(unsigned(self.node_cert_der.len() as u64).as_str());
        s.append(", ca_chain_len: ");
        s.append(unsigned(self.ca_chain_der.len() as u64).as_str());
        s.append(", private_key_der: \"<redacted>\" }");
        s
    }
}

/// Placeholder requests are told apart by their nonces, and by nothing else.
pub proof fn placeholder_requests_follow_their_nonces(a: Seq<char>, b: Seq<char>)
    ensures
        placeholder_csr(a) == placeholder_csr(b) <==> a == b,
{
    let tag = encode_utf8("LOOM-PLACEHOLDER-CSR-v0:"@);
    if placeholder_csr(a) == placeholder_csr(b) {
        assert(placeholder_csr(a).skip(tag.len() as int) =~= encode_utf8(a));
        assert(placeholder_csr(b).skip(tag.len() as int) =~= encode_utf8(b));
        encode_utf8_decode_utf8(a);
        encode_utf8_decode_utf8(b);
    }
}

/// The private key of the placeholder is not its signing request, for any nonce, so what
/// is sent never tells what is kept.
pub proof fn a_placeholder_key_is_not_its_request(
    csr: PlaceholderCsr,
    nonce: &str,
    r: Result<KeyMaterial, KeystoreError>,
)
    requires
        call_ensures(PlaceholderCsr::generate, (&csr, nonce), r),
    ensures
        r is Ok,
        (r->Ok_0).private_key_der@ != (r->Ok_0).csr_der@,
        encode_utf8(nonce@).is_suffix_of((r->Ok_0).csr_der@),
{
    let key = (r->Ok_0).private_key_der@;
    let request = (r->Ok_0).csr_der@;
    let n = encode_utf8(nonce@);
    assert(n =~= request.subrange(request.len() - n.len(), request.len() as int));
    if key == request {
        let k = encode_utf8("LOOM-PLACEHOLDER-KEY-v0:"@);
        let c = encode_utf8("LOOM-PLACEHOLDER-CSR-v0:"@);
        assert(k.len() == c.len());
        assert(k =~= key.take(k.len() as int));
        assert(c =~= request.take(c.len() as int));
        encode_utf8_decode_utf8("LOOM-PLACEHOLDER-KEY-v0:"@);
        encode_utf8_decode_utf8("LOOM-PLACEHOLDER-CSR-v0:"@);
        reveal_strlit("LOOM-PLACEHOLDER-KEY-v0:");
        reveal_strlit("LOOM-PLACEHOLDER-CSR-v0:");
        assert("LOOM-PLACEHOLDER-KEY-v0:"@[17] == 'K');
        assert("LOOM-PLACEHOLDER-CSR-v0:"@[17] == 'C');
    }
}

/// A diagnostic form does not depend on the private key.
pub proof fn a_private_key_is_not_shown(
    a: KeyMaterial,
    b: KeyMaterial,
    x: EnrolledNode,
    y: EnrolledNode,
    shown_a: String,
    shown_b: String,
    shown_x: String,
    shown_y: String,
)
    requires
        a.csr_der@ == b.csr_der@,
        x.agent_id@ == y.agent_id@,
        x.node_cert_der@ == y.node_cert_der@,
        x.ca_chain_der@ == y.ca_chain_der@,
        call_ensures(KeyMaterial::redacted, (&a,), shown_a),
        call_ensures(KeyMaterial::redacted, (&b,), shown_b),
        call_ensures(EnrolledNode::redacted, (&x,), shown_x),
        call_ensures(EnrolledNode::redacted, (&y,), shown_y),
    ensures
        shown_a@ == shown_b@,
        shown_x@ == shown_y@,
{
}

} // verus!
