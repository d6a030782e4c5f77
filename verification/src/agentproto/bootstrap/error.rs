//! The one error type that the security bootstrap returns.
//!
//! It keeps the refusals that a caller acts on (an invalid or an expired
//! enrollment token) apart from the failures that it merely propagates.
use crate::store::StoreError;
use crate::text::labelled;
use vstd::prelude::*;
use vstd::string::to_string_from_display_ensures;

verus! {

/// The failure of the X.509 backend (`rcgen::Error`), carried through unopened.
#[verifier::external_type_specification]
#[verifier::external_body]
pub struct ExCertificateError(rcgen::Error);

/// A failure from a security-bootstrap operation.
#[derive(Debug)]
#[non_exhaustive]
pub enum BootstrapError {
    /// The secrets directory already holds a bootstrap.
    AlreadyInitialized,
    /// The secrets directory holds no bootstrap to load.
    NotInitialized,
    /// An enrollment token was malformed, carried a bad MAC, or was signed by a
    /// different enrollment key.
    TokenInvalid,
    /// A well-formed enrollment token whose expiry has passed.
    TokenExpired,
    /// The X.509 backend failed to generate, parse or sign.
    Certificate(rcgen::Error),
    /// A persisted certificate PEM could not be decoded to DER, or a certificate
    /// holds a field that has no DER form.
    CertificateEncoding(String),
    /// A filesystem operation on the secrets directory failed.
    Io(String),
    /// The secrets file could not be parsed.
    SecretsParse(String),
    /// The secrets file could not be serialized.
    SecretsSerialize(String),
    /// Hex-decoding persisted key or token material failed.
    MalformedHex,
    /// The operating-system random source was unavailable.
    Random(String),
    /// Persisting the admin credential to the store failed.
    Store(StoreError),
}

impl BootstrapError {
    /// Whether a text is what the failure says of itself.
    pub open spec fn is_shown_as(self, text: Seq<char>) -> bool {
        match self {
            BootstrapError::AlreadyInitialized => text
                == "bootstrap already initialized at this path"@,
            BootstrapError::NotInitialized => text == "no bootstrap found at this path"@,
            BootstrapError::TokenInvalid => text == "enrollment token invalid"@,
            BootstrapError::TokenExpired => text == "enrollment token expired"@,
            BootstrapError::Certificate(e) => exists|inner: String| #[trigger]
                to_string_from_display_ensures(&e, inner) && text
                    == "certificate error: "@ + inner@,
            BootstrapError::CertificateEncoding(why) => text == "certificate encoding error: "@
                + why@,
            BootstrapError::Io(why) => text == "secrets I/O error: "@ + why@,
            BootstrapError::SecretsParse(why) => text == "secrets file parse error: "@ + why@,
            BootstrapError::SecretsSerialize(why) => text == "secrets file serialize error: "@
                + why@,
            BootstrapError::MalformedHex => text == "malformed hex in persisted secret"@,
            BootstrapError::Random(why) => text == "secure random source unavailable: "@ + why@,
            BootstrapError::Store(e) => text == "store error: "@ + e.message(),
        }
    }

    /// What the failure says of itself.
    pub fn to_string(&self) -> (s: String)
        ensures
            self.is_shown_as(s@),
    {
        match self {
            BootstrapError::AlreadyInitialized => {
                "bootstrap already initialized at this path".to_owned()
            },
            BootstrapError::NotInitialized => "no bootstrap found at this path".to_owned(),
            BootstrapError::TokenInvalid => "enrollment token invalid".to_owned(),
            BootstrapError::TokenExpired => "enrollment token expired".to_owned(),
            BootstrapError::Certificate(e) => {
                let inner = e.to_string();
                labelled("certificate error: ", inner.as_str())
            },
            BootstrapError::CertificateEncoding(why) => labelled(
                "certificate encoding error: ",
                why.as_str(),
            ),
            BootstrapError::Io(why) => labelled("secrets I/O error: ", why.as_str()),
            BootstrapError::SecretsParse(why) => labelled(
                "secrets file parse error: ",
                why.as_str(),
            ),
            BootstrapError::SecretsSerialize(why) => labelled(
                "secrets file serialize error: ",
                why.as_str(),
            ),
            BootstrapError::MalformedHex => "malformed hex in persisted secret".to_owned(),
            BootstrapError::Random(why) => labelled(
                "secure random source unavailable: ",
                why.as_str(),
            ),
            BootstrapError::Store(e) => labelled("store error: ", e.to_string().as_str()),
        }
    }
}

} // verus!
