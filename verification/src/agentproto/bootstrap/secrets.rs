//! The secrets layout that a bootstrap writes and a later boot reloads.
//!
//! A bootstrap owns one directory of three files: the authority's certificate
//! (public), the authority's private key, and the secrets manifest (both readable
//! by the owner alone). No plaintext bearer token is ever written: the admin token
//! appears only as its hash.
use crate::decimal::decimal;
use crate::decimal::unsigned;
use crate::text::debug_of;
use crate::text::occurs;
use crate::text::quoted;
use vstd::prelude::*;

verus! {

/// The authority's certificate file.
pub const CA_CERT_FILE: &'static str = "ca.crt";

/// The authority's private-key file.
pub const CA_KEY_FILE: &'static str = "ca.key";

/// The secrets manifest.
pub const SECRETS_FILE: &'static str = "secrets.toml";

/// The current version of the layout.
pub const SECRETS_VERSION: u32 = 1;

/// The bootstrap secrets other than certificates: the enrollment key and the
/// identity of the admin credential, never a plaintext token.
#[derive(Clone)]
pub struct Secrets {
    /// The version of the layout.
    pub version: u32,
    /// The enrollment-token HMAC key, hex-encoded (secret).
    pub enrollment_key: String,
    /// The identifier of the bootstrap admin account.
    pub admin_account_id: String,
    /// The identifier of the admin token's key row.
    pub admin_key_id: String,
    /// The hash of the admin token.
    pub admin_token_hash: String,
}

impl Secrets {
    /// Whether a text occurs in what is written of the secrets.
    pub open spec fn mentions(self, text: Seq<char>) -> bool {
        ||| occurs(text, self.enrollment_key@)
        ||| occurs(text, self.admin_account_id@)
        ||| occurs(text, self.admin_key_id@)
        ||| occurs(text, self.admin_token_hash@)
    }

    /// The secrets for diagnostics, with the enrollment key left out; the
    /// identifiers and the hash are not secret.
    #[must_use]
    pub fn redacted(&self) -> (s: String)
        ensures
            s@ == "Secrets { version: "@ + decimal(self.version as nat)
                + ", enrollment_key: \"<redacted>\", admin_account_id: "@ + debug_of(
                self.admin_account_id@,
            ) + ", admin_key_id: "@ + debug_of(self.admin_key_id@) + ", admin_token_hash: "@
                + debug_of(self.admin_token_hash@) + " }"@,
    {
        let mut s = "Secrets { version: ".to_owned();
        s.append(unsigned(self.version as u64).as_str());
        s.append(", enrollment_key: \"<redacted>\", admin_account_id: ");
        s.append(quoted(self.admin_account_id.as_str()).as_str());
        s.append(", admin_key_id: ");
        s.append(quoted(self.admin_key_id.as_str()).as_str());
        s.append(", admin_token_hash: ");
        s.append(quoted(self.admin_token_hash.as_str()).as_str());
        s.append(" }");
        s
    }
}

/// One file to write.
pub struct FileWrite {
    /// Its name within the secrets directory.
    pub name: &'static str,
    /// What it holds.
    pub contents: String,
    /// Whether only the owner may read it.
    pub owner_only: bool,
}

} // verus!
