//! Security bootstrap: the trust machinery that is minted once and reloaded by
//! every later boot.
//!
//! A [`Bootstrap`] bundles a local certificate authority, the key behind the
//! stateless enrollment tokens, and the persisted identity of the admin credential.
pub mod ca;
pub mod error;
pub mod secrets;
pub mod token;
pub mod writable;

use crate::domain::ids::AccountId;
use crate::domain::time::Timestamp;
use crate::hexadecimal::hex_bytes;
use crate::hexadecimal::hex_reads_back;
use crate::hexadecimal::hex_text;
use crate::number::clamp_i64;
use crate::random::drawn;
use crate::random::unavailable_saying;
use crate::store::Account;
use crate::store::ApiKey;
use crate::store::StoreError;
use ca::ca_pem_accepted;
use ca::csr_pem_accepted;
use ca::failed_generation;
use ca::failed_reload;
use ca::key_pem_accepted;
use ca::LocalCa;
use error::BootstrapError;
use secrets::FileWrite;
use secrets::Secrets;
use secrets::CA_CERT_FILE;
use secrets::CA_KEY_FILE;
use secrets::SECRETS_FILE;
use secrets::SECRETS_VERSION;
use token::an_issued_token_reads_back;
use token::is_issued;
use token::token_claims;
use token::token_text;
use token::verify_result;
use token::AdminCredential;
use token::EnrollmentClaims;
use token::EnrollmentKey;
use token::EnrollmentToken;
use vstd::prelude::*;

verus! {

/// A loaded security bootstrap: the local authority, the enrollment key and the
/// persisted secrets. It holds private keys, so it has no diagnostic form.
pub struct Bootstrap {
    ca: LocalCa,
    enrollment_key: EnrollmentKey,
    secrets: Secrets,
}

/// The files of an existing bootstrap, as read.
pub struct SecretFiles {
    /// The authority's certificate, PEM.
    pub cert_pem: String,
    /// The authority's private key, PEM.
    pub key_pem: String,
    /// The parsed manifest.
    pub secrets: Secrets,
}

/// Whether secrets are those of a fresh bootstrap with the given key and admin
/// credential: they hold the token's hash and never the token.
pub open spec fn records(secrets: Secrets, key: Seq<u8>, admin: AdminCredential) -> bool {
    &&& secrets.version == SECRETS_VERSION
    &&& secrets.enrollment_key@ == hex_text(key)
    &&& secrets.admin_account_id@ == admin.account_id@
    &&& secrets.admin_key_id@ == admin.key_id@
    &&& secrets.admin_token_hash@ == admin.token_hash@
}

/// Whether secrets name an enrollment key: thirty-two bytes in hex.
pub open spec fn names_a_key(secrets: Secrets) -> bool {
    match hex_bytes(secrets.enrollment_key@) {
        Some(key) => key.len() == 32,
        None => false,
    }
}

impl Bootstrap {
    /// The enrollment key.
    pub closed spec fn key(&self) -> Seq<u8> {
        self.enrollment_key@
    }

    /// The certificate, in PEM, that agents pin.
    pub closed spec fn anchor(&self) -> Seq<char> {
        self.ca.anchor()
    }

    /// The authority.
    pub closed spec fn authority(&self) -> LocalCa {
        self.ca
    }

    /// The persisted secrets.
    pub closed spec fn recorded(&self) -> Secrets {
        self.secrets
    }

    /// Mints a fresh bootstrap: a local authority, an enrollment key and a one-time
    /// admin token, whose plaintext the caller must surface now. `initialized` says
    /// whether the place to write it to already holds one.
    ///
    /// # Errors
    /// [`BootstrapError::AlreadyInitialized`] if it does;
    /// [`BootstrapError::Certificate`] if the authority cannot be generated;
    /// [`BootstrapError::Random`] if the random source is unavailable.
    pub fn create(initialized: bool) -> (r: Result<(Self, AdminCredential), BootstrapError>)
        ensures
            match r {
                Ok((b, admin)) => {
                    &&& !initialized
                    &&& admin.is_minted()
                    &&& b.authority().is_generated()
                    &&& b.anchor() == b.authority().anchor()
                    &&& b.key().len() == 32
                    &&& drawn::<32>(b.key())
                    &&& records(b.recorded(), b.key(), admin)
                    &&& !b.recorded().mentions(admin.token@)
                },
                Err(e) => {
                    &&& (e is AlreadyInitialized <==> initialized)
                    &&& match e {
                        BootstrapError::AlreadyInitialized => true,
                        BootstrapError::Random(text) => unavailable_saying::<32>(text)
                            || unavailable_saying::<12>(text),
                        _ => failed_generation(e),
                    }
                },
            },
    {
        if initialized {
            return Err(BootstrapError::AlreadyInitialized);
        }
        let ca = match LocalCa::generate() {
            Ok(ca) => ca,
            Err(e) => {
                return Err(e);
            },
        };
        let enrollment_key = match EnrollmentKey::generate() {
            Ok(key) => key,
            Err(e) => {
                return Err(e);
            },
        };
        let admin = match AdminCredential::mint() {
            Ok(admin) => admin,
            Err(e) => {
                return Err(e);
            },
        };
        let b = Bootstrap::assemble(ca, enrollment_key, &admin);
        proof {
            a_minted_token_is_not_recorded(b.recorded(), b.key(), admin);
        }
        Ok((b, admin))
    }

    /// The bootstrap of a given authority, enrollment key and admin credential.
    #[must_use]
    pub fn assemble(ca: LocalCa, enrollment_key: EnrollmentKey, admin: &AdminCredential) -> (b:
        Self)
        ensures
            b.authority() == ca,
            b.anchor() == ca.anchor(),
            b.key() == enrollment_key@,
            records(b.recorded(), enrollment_key@, *admin),
    {
        let secrets = Secrets {
            version: SECRETS_VERSION,
            enrollment_key: enrollment_key.to_hex(),
            admin_account_id: admin.account_id.clone(),
            admin_key_id: admin.key_id.clone(),
            admin_token_hash: admin.token_hash.clone(),
        };
        Bootstrap { ca, enrollment_key, secrets }
    }

    /// The files to write for this bootstrap, in order, given its manifest's text.
    /// The manifest comes last: a bootstrap counts as present by it, so one that was
    /// interrupted before is attempted again rather than half adopted.
    #[must_use]
    pub fn layout(&self, manifest: String) -> (v: Vec<FileWrite>)
        ensures
            v@.len() == 3,
            v@[0].name@ == CA_CERT_FILE@,
            v@[0].contents@ == self.anchor(),
            !v@[0].owner_only,
            v@[1].name@ == CA_KEY_FILE@,
            self.authority().writes_key(v@[1].contents@),
            v@[1].owner_only,
            v@[2].name@ == SECRETS_FILE@,
            v@[2].contents@ == manifest@,
            v@[2].owner_only,
    {
        let mut v: Vec<FileWrite> = Vec::new();
        v.push(
            FileWrite {
                name: CA_CERT_FILE,
                contents: self.ca.cert_pem().to_owned(),
                owner_only: false,
            },
        );
        v.push(FileWrite { name: CA_KEY_FILE, contents: self.ca.key_pem(), owner_only: true });
        v.push(FileWrite { name: SECRETS_FILE, contents: manifest, owner_only: true });
        v
    }

    /// Reloads a bootstrap from its files, or from `None` where there are none.
    ///
    /// # Errors
    /// [`BootstrapError::NotInitialized`] if there are none;
    /// [`BootstrapError::Certificate`] and [`BootstrapError::CertificateEncoding`] if
    /// the authority cannot be reconstructed; [`BootstrapError::MalformedHex`] if the
    /// enrollment key cannot.
    pub fn load(files: Option<SecretFiles>) -> (r: Result<Self, BootstrapError>)
        ensures
            match (files, r) {
                (Some(f), Ok(b)) => {
                    &&& b.authority().is_reloaded(f.cert_pem@, f.key_pem@)
                    &&& b.anchor() == f.cert_pem@
                    &&& hex_bytes(f.secrets.enrollment_key@) == Some(b.key())
                    &&& b.key().len() == 32
                    &&& b.recorded() == f.secrets
                },
                (Some(f), Err(e)) => {
                    ||| failed_reload(f.cert_pem@, f.key_pem@, e)
                    ||| {
                        &&& e is MalformedHex
                        &&& !names_a_key(f.secrets)
                        &&& key_pem_accepted(f.key_pem@)
                        &&& ca_pem_accepted(f.cert_pem@)
                    }
                },
                (None, Err(e)) => e is NotInitialized,
                (None, Ok(_)) => false,
            },
    {
        let files = match files {
            Some(files) => files,
            None => {
                return Err(BootstrapError::NotInitialized);
            },
        };
        let ca = match LocalCa::from_pem(files.cert_pem.as_str(), files.key_pem.as_str()) {
            Ok(ca) => ca,
            Err(e) => {
                return Err(e);
            },
        };
        Bootstrap::adopt(ca, files.secrets)
    }

    /// The bootstrap of a reloaded authority and its secrets.
    ///
    /// # Errors
    /// [`BootstrapError::MalformedHex`] if the secrets name no enrollment key.
    pub fn adopt(ca: LocalCa, secrets: Secrets) -> (r: Result<Self, BootstrapError>)
        ensures
            r is Ok == names_a_key(secrets),
            match r {
                Ok(b) => {
                    &&& b.authority() == ca
                    &&& b.anchor() == ca.anchor()
                    &&& hex_bytes(secrets.enrollment_key@) == Some(b.key())
                    &&& b.recorded() == secrets
                },
                Err(e) => e is MalformedHex,
            },
    {
        match EnrollmentKey::from_hex(secrets.enrollment_key.as_str()) {
            Ok(enrollment_key) => Ok(Bootstrap { ca, enrollment_key, secrets }),
            Err(e) => Err(e),
        }
    }

    /// The local authority, which signs enrolled node certificates.
    #[must_use]
    pub fn ca(&self) -> (ca: &LocalCa)
        ensures
            *ca == self.authority(),
            ca.anchor() == self.anchor(),
    {
        &self.ca
    }

    /// The persisted secrets.
    #[must_use]
    pub fn secrets(&self) -> (s: &Secrets)
        ensures
            *s == self.recorded(),
    {
        &self.secrets
    }

    /// The identifier of the bootstrap admin account.
    #[must_use]
    pub fn admin_account_id(&self) -> (s: &str)
        ensures
            s@ == self.recorded().admin_account_id@,
    {
        self.secrets.admin_account_id.as_str()
    }

    /// Issues an enrollment token valid for `ttl_millis` after `now`.
    ///
    /// # Errors
    /// [`BootstrapError::Random`] if the random source is unavailable.
    pub fn issue_enrollment_token(&self, ttl_millis: i64, now: Timestamp) -> (r: Result<
        EnrollmentToken,
        BootstrapError,
    >)
        ensures
            match r {
                Ok(token) => is_issued(
                    self.key(),
                    clamp_i64(now@ + ttl_millis) as i64,
                    token@,
                ),
                Err(BootstrapError::Random(text)) => unavailable_saying::<16>(text),
                Err(_) => false,
            },
    {
        self.enrollment_key.issue(ttl_millis, now)
    }

    /// Verifies a presented enrollment token.
    ///
    /// # Errors
    /// [`BootstrapError::TokenInvalid`] if the token is malformed or its code does
    /// not verify; [`BootstrapError::TokenExpired`] if it is past its expiry.
    pub fn verify_enrollment_token(&self, token: &str, now: Timestamp) -> (r: Result<
        EnrollmentClaims,
        BootstrapError,
    >)
        ensures
            verify_result(self.key(), token@, now, r),
    {
        self.enrollment_key.verify(token, now)
    }

    /// Enrolls an agent: verifies its token, then signs its request into a node
    /// certificate. A bad or expired token is refused before anything is signed.
    ///
    /// # Errors
    /// [`BootstrapError::TokenInvalid`] and [`BootstrapError::TokenExpired`] if the
    /// token is refused; [`BootstrapError::Certificate`] if the request is malformed
    /// or signing fails; [`BootstrapError::CertificateEncoding`] if it asks for what
    /// has no encoding.
    pub fn enroll_node(&self, token: &str, csr_pem: &str, now: Timestamp) -> (r: Result<
        String,
        BootstrapError,
    >)
        ensures
            match (token_claims(self.key(), token@), r) {
                (None, Err(e)) => e is TokenInvalid,
                (None, Ok(_)) => false,
                (Some((expires, _)), Err(e)) => if now@ > expires {
                    e is TokenExpired
                } else {
                    self.authority().refused_pem(csr_pem@, e)
                },
                (Some((expires, _)), Ok(cert_pem)) => {
                    &&& now@ <= expires
                    &&& csr_pem_accepted(csr_pem@)
                    &&& self.authority().signed_pem(csr_pem@, cert_pem@)
                },
            },
    {
        match self.verify_enrollment_token(token, now) {
            Ok(_) => self.ca.sign_node_cert(csr_pem),
            Err(e) => Err(e),
        }
    }

    /// The rows that persist the admin credential: its account, and the key row that
    /// holds only the token's hash.
    #[must_use]
    pub fn admin_rows(&self, now: Timestamp) -> (rows: (Account, ApiKey))
        ensures
            rows.0.id@ == self.recorded().admin_account_id@,
            rows.0.name@ == "admin"@,
            rows.0.created_at == now,
            rows.1.id@ == self.recorded().admin_key_id@,
            rows.1.account@ == self.recorded().admin_account_id@,
            rows.1.key_hash@ == self.recorded().admin_token_hash@,
            rows.1.label@ == "loomd bootstrap admin token"@,
            rows.1.created_at == now,
            !rows.1.revoked,
    {
        let account_id = AccountId::new(self.secrets.admin_account_id.as_str());
        let account = Account {
            id: account_id.clone(),
            name: "admin".to_owned(),
            created_at: now,
        };
        let key = ApiKey {
            id: self.secrets.admin_key_id.clone(),
            account: account_id,
            key_hash: self.secrets.admin_token_hash.clone(),
            label: "loomd bootstrap admin token".to_owned(),
            created_at: now,
            revoked: false,
        };
        (account, key)
    }
}

/// Treats a uniqueness conflict as success, the row being there already, so that
/// persisting the admin credential again is harmless.
///
/// # Errors
/// [`BootstrapError::Store`] on any other failure.
pub fn ignore_conflict(result: Result<(), StoreError>) -> (r: Result<(), BootstrapError>)
    ensures
        match (result, r) {
            (Ok(_), Ok(_)) => true,
            (Err(e), Ok(_)) => e is Conflict,
            (Err(e), Err(BootstrapError::Store(f))) => e !is Conflict && f == e,
            _ => false,
        },
{
    match result {
        Ok(_) => Ok(()),
        Err(StoreError::Conflict(_)) => Ok(()),
        Err(other) => Err(BootstrapError::Store(other)),
    }
}

/// No plaintext bearer token is written: a minted admin token occurs nowhere in the
/// secrets that record it.
pub proof fn a_minted_token_is_not_recorded(
    secrets: Secrets,
    key: Seq<u8>,
    admin: AdminCredential,
)
    requires
        admin.is_minted(),
        admin.token_hash@.len() == 64,
        key.len() == 32,
        records(secrets, key, admin),
    ensures
        !secrets.mentions(admin.token@),
{
    let (token, account, id) = choose|token: Seq<u8>, account: Seq<u8>, id: Seq<u8>|
        {
            &&& token.len() == 32 && drawn::<32>(token)
            &&& account.len() == 12 && drawn::<12>(account)
            &&& id.len() == 12 && drawn::<12>(id)
            &&& #[trigger] admin.made_of(token, account, id)
        };
    hex_reads_back(key);
    hex_reads_back(token);
    hex_reads_back(account);
    hex_reads_back(id);
    reveal_strlit("loom_admin_");
    reveal_strlit("acct_");
    reveal_strlit("key_");
}

/// A bootstrap reloaded from the files of a created one has its anchor and its
/// enrollment key, so it honors exactly the tokens that the created one honors.
pub proof fn a_reload_keeps_the_trust(
    created: Bootstrap,
    admin: AdminCredential,
    files: SecretFiles,
    reloaded: Bootstrap,
    token: Seq<char>,
)
    requires
        records(created.recorded(), created.key(), admin),
        files.cert_pem@ == created.anchor(),
        files.secrets.enrollment_key@ == created.recorded().enrollment_key@,
        reloaded.anchor() == files.cert_pem@,
        hex_bytes(files.secrets.enrollment_key@) == Some(reloaded.key()),
    ensures
        reloaded.anchor() == created.anchor(),
        reloaded.key() == created.key(),
        token_claims(reloaded.key(), token) == token_claims(created.key(), token),
{
    hex_reads_back(created.key());
}

/// A bootstrap honors the tokens that it issues, for their time to live and no longer.
pub proof fn an_issued_token_is_honored_by_its_bootstrap(
    b: Bootstrap,
    ttl_millis: i64,
    issued: Timestamp,
    token: EnrollmentToken,
    presented: &str,
    now: Timestamp,
    r: Result<EnrollmentClaims, BootstrapError>,
)
    requires
        i64::MIN <= issued@ + ttl_millis <= i64::MAX,
        call_ensures(Bootstrap::issue_enrollment_token, (&b, ttl_millis, issued), Ok(token)),
        presented@ == token@,
        call_ensures(Bootstrap::verify_enrollment_token, (&b, presented, now), r),
    ensures
        r is Ok <==> now@ - issued@ <= ttl_millis,
        r is Err ==> r->Err_0 is TokenExpired,
        r is Ok ==> (r->Ok_0).expires_at@ - issued@ == ttl_millis,
{
    let expires_at = clamp_i64(issued@ + ttl_millis) as i64;
    let nonce = choose|nonce: Seq<u8>|
        nonce.len() == 16 && drawn::<16>(nonce) && token@ == #[trigger] token_text(
            b.key(),
            expires_at,
            hex_text(nonce),
        );
    an_issued_token_reads_back(b.key(), expires_at, hex_text(nonce));
}

/// The rows of the admin credential are those of the credential that was minted: the key
/// row belongs to the account row and holds the hash by which the token is known, and it
/// is in force.
pub proof fn the_admin_rows_are_those_of_the_credential(
    ca: LocalCa,
    key: EnrollmentKey,
    admin: AdminCredential,
    b: Bootstrap,
    now: Timestamp,
    rows: (Account, ApiKey),
)
    requires
        call_ensures(Bootstrap::assemble, (ca, key, &admin), b),
        call_ensures(Bootstrap::admin_rows, (&b, now), rows),
    ensures
        rows.0.id@ == admin.account_id@,
        rows.1.account@ == rows.0.id@,
        rows.1.id@ == admin.key_id@,
        rows.1.key_hash@ == admin.token_hash@,
        rows.0.created_at == now,
        rows.1.created_at == now,
        !rows.1.revoked,
{
}

/// The secrets of a bootstrap give it back: adopted with them, an authority honors exactly
/// the tokens that the bootstrap honors, and has its admin account.
pub proof fn a_bootstrap_is_adopted_from_its_secrets(
    ca: LocalCa,
    key: EnrollmentKey,
    admin: AdminCredential,
    b: Bootstrap,
    secrets: &Secrets,
    given: Secrets,
    r: Result<Bootstrap, BootstrapError>,
    token: &str,
    now: Timestamp,
    before: Result<EnrollmentClaims, BootstrapError>,
    after: Result<EnrollmentClaims, BootstrapError>,
    account: &str,
)
    requires
        key@.len() == 32,
        call_ensures(Bootstrap::assemble, (ca, key, &admin), b),
        call_ensures(Bootstrap::secrets, (&b,), secrets),
        given == *secrets,
        call_ensures(Bootstrap::adopt, (ca, given), r),
        r is Ok ==> call_ensures(
            Bootstrap::verify_enrollment_token,
            (&(r->Ok_0), token, now),
            after,
        ),
        call_ensures(Bootstrap::verify_enrollment_token, (&b, token, now), before),
        r is Ok ==> call_ensures(Bootstrap::admin_account_id, (&(r->Ok_0),), account),
    ensures
        r is Ok,
        before is Ok <==> after is Ok,
        before is Ok ==> (before->Ok_0).expires_at@ == (after->Ok_0).expires_at@ && (
        before->Ok_0).nonce@ == (after->Ok_0).nonce@,
        before is Err ==> (before->Err_0 is TokenExpired <==> after->Err_0 is TokenExpired),
        account@ == admin.account_id@,
        (r->Ok_0).anchor() == b.anchor(),
{
    hex_reads_back(key@);
}

/// Of the files of a bootstrap the certificate alone may be read by others; the manifest,
/// by which a bootstrap counts as present, is the last to be written; and no two have one
/// name.
pub proof fn only_the_certificate_is_public(b: Bootstrap, manifest: String, v: Vec<FileWrite>)
    requires
        call_ensures(Bootstrap::layout, (&b, manifest), v),
    ensures
        forall|i: int|
            0 <= i < v@.len() ==> (!(#[trigger] v@[i]).owner_only <==> v@[i].name@
                == CA_CERT_FILE@),
        forall|i: int, j: int|
            0 <= i < j < v@.len() ==> (#[trigger] v@[i]).name@ != (#[trigger] v@[j]).name@,
        v@.last().name@ == SECRETS_FILE@,
        v@.last().contents@ == manifest@,
        v@[0].contents@ == b.anchor(),
{
    reveal_strlit("ca.crt");
    reveal_strlit("ca.key");
    reveal_strlit("secrets.toml");
    assert(CA_CERT_FILE@.len() == 6 && CA_KEY_FILE@.len() == 6 && SECRETS_FILE@.len() == 12);
    assert(CA_CERT_FILE@[3] == 'c' && CA_KEY_FILE@[3] == 'k');
}

/// A bootstrap is created only where there is none, and loaded only where there is one;
/// each refusal says which of the two it was.
pub proof fn a_bootstrap_is_made_once(
    initialized: bool,
    made: Result<(Bootstrap, AdminCredential), BootstrapError>,
    loaded: Result<Bootstrap, BootstrapError>,
)
    requires
        call_ensures(Bootstrap::create, (initialized,), made),
        call_ensures(Bootstrap::load, (None,), loaded),
    ensures
        initialized <==> made is Err && made->Err_0 is AlreadyInitialized,
        loaded is Err,
        loaded->Err_0 is NotInitialized,
{
}

/// Persisting a row that is there already is no failure; every other failure is one, and
/// is kept.
pub proof fn a_conflict_alone_is_harmless(
    result: Result<(), StoreError>,
    r: Result<(), BootstrapError>,
)
    requires
        call_ensures(ignore_conflict, (result,), r),
    ensures
        r is Ok <==> result is Ok || result->Err_0 is Conflict,
        r is Err ==> r->Err_0 == BootstrapError::Store(result->Err_0),
{
}

/// No certificate is signed but for a token that is honored, and a token that is refused
/// is refused in one way, whatever is to be signed.
pub proof fn nothing_is_signed_for_a_refused_token(
    b: Bootstrap,
    token: &str,
    csr: &str,
    other_csr: &str,
    now: Timestamp,
    verdict: Result<EnrollmentClaims, BootstrapError>,
    r: Result<String, BootstrapError>,
    s: Result<String, BootstrapError>,
)
    requires
        call_ensures(Bootstrap::verify_enrollment_token, (&b, token, now), verdict),
        call_ensures(Bootstrap::enroll_node, (&b, token, csr, now), r),
        call_ensures(Bootstrap::enroll_node, (&b, token, other_csr, now), s),
    ensures
        r is Ok ==> verdict is Ok && csr_pem_accepted(csr@),
        verdict is Err ==> r is Err && s is Err,
        verdict is Err && verdict->Err_0 is TokenInvalid ==> r->Err_0 is TokenInvalid
            && s->Err_0 is TokenInvalid,
        verdict is Err && verdict->Err_0 is TokenExpired ==> r->Err_0 is TokenExpired
            && s->Err_0 is TokenExpired,
{
}

} // verus!
