//! Bearer tokens: the stateless enrollment token that an operator hands to a
//! joining agent, and the one-time standalone admin token.
//!
//! An enrollment token carries an expiry and a random nonce, authenticated by
//! HMAC-SHA256 under the [`EnrollmentKey`], so the gateway verifies it without a
//! database. It is not individually revocable: the defense is a short expiry.
//!
//! Of the admin token only the SHA-256 hash is ever persisted; the plaintext is
//! surfaced exactly once, by [`AdminCredential::mint`].
use crate::agentproto::bootstrap::error::BootstrapError;
use crate::bus::message::bytes_of;
use crate::decimal::i64_reads_back;
use crate::decimal::parse_i64;
use crate::decimal::read_i64;
use crate::decimal::signed;
use crate::decimal::signed_decimal;
use crate::decimal::signed_decimal_characters;
use crate::domain::time::Timestamp;
use crate::hexadecimal::decode;
use crate::hexadecimal::encode;
use crate::hexadecimal::hex_bytes;
use crate::hexadecimal::hex_reads_back;
use crate::hexadecimal::hex_text;
use crate::hexadecimal::hex_text_characters;
use crate::number::clamp_i64;
use crate::number::saturate;
use crate::random::drawn;
use crate::random::random_bytes;
use crate::random::unavailable_saying;
use crate::text::another_field;
use crate::text::cut;
use crate::text::cut_at;
use crate::text::debug_of;
use crate::text::fields;
use crate::text::one_field;
use crate::text::quoted;
use crate::text::same;
use crate::text::split;
use crate::text::split_once;
use crate::text::texts;
use hmac::Mac;
use sha2::Digest;
use std::string::FromUtf8Error;
use vstd::prelude::*;
use vstd::utf8::decode_utf8;
use vstd::utf8::encode_utf8;
use vstd::utf8::encode_utf8_decode_utf8;
use vstd::utf8::encode_utf8_valid_utf8;
use vstd::utf8::valid_utf8;

verus! {

/// The error of a failed conversion to text (`std::string::FromUtf8Error`),
/// carried through unopened.
#[verifier::external_type_specification]
#[verifier::external_body]
pub struct ExFromUtf8Error(std::string::FromUtf8Error);

/// Turns bytes into text (`String::from_utf8`): succeeds exactly where the bytes
/// are valid UTF-8, with the string that they encode.
pub assume_specification[ String::from_utf8 ](vec: Vec<u8>) -> (r: Result<String, FromUtf8Error>)
    ensures
        r is Ok <==> valid_utf8(vec@),
        r is Ok ==> encode_utf8(r->Ok_0@) == vec@,
;

/// The HMAC-SHA256 of a message under a key.
pub uninterp spec fn hmac_sha256_of(key: Seq<u8>, message: Seq<u8>) -> Seq<u8>;

/// The SHA-256 digest of some bytes.
pub uninterp spec fn sha256_of(data: Seq<u8>) -> Seq<u8>;

/// Computes a message authentication code (`hmac::Mac`: `new_from_slice`, which
/// takes a key of any length, then `update` and `finalize`, over SHA-256). The
/// code is a function of key and message alone.
#[verifier::external_body]
fn hmac_sha256(key: &[u8; 32], msg: &[u8]) -> (tag: [u8; 32])
    ensures
        tag@ == hmac_sha256_of(key@, msg@),
{
    let mut mac = <hmac::Hmac<sha2::Sha256> as Mac>::new_from_slice(key).expect(
        "HMAC-SHA256 accepts a 32-byte key",
    );
    mac.update(msg);
    mac.finalize().into_bytes().into()
}

/// Checks a message authentication code in constant time (`hmac::Mac`:
/// `new_from_slice`, `update`, `verify_slice`): whether `tag` is, to the last byte
/// and no longer or shorter, the code of the message under the key.
#[verifier::external_body]
fn verify_tag(key: &[u8; 32], msg: &[u8], tag: &[u8]) -> (r: bool)
    ensures
        r == (tag@ == hmac_sha256_of(key@, msg@)),
{
    let mut mac = <hmac::Hmac<sha2::Sha256> as Mac>::new_from_slice(key).expect(
        "HMAC-SHA256 accepts a 32-byte key",
    );
    mac.update(msg);
    mac.verify_slice(tag).is_ok()
}

/// Computes a digest (`sha2::Sha256::digest`): a function of the bytes alone.
#[verifier::external_body]
fn sha256(data: &[u8]) -> (digest: [u8; 32])
    ensures
        digest@ == sha256_of(data@),
{
    sha2::Sha256::digest(data).into()
}

/// The secret HMAC key that signs and verifies enrollment tokens. It is persisted
/// in hex, so tokens issued before a restart still verify afterwards. Its diagnostic
/// form is [`EnrollmentKey::redacted`].
pub struct EnrollmentKey([u8; 32]);

impl Clone for EnrollmentKey {
    fn clone(&self) -> (key: Self)
        ensures
            key@ == self@,
    {
        EnrollmentKey(self.0)
    }
}

impl View for EnrollmentKey {
    type V = Seq<u8>;

    closed spec fn view(&self) -> Seq<u8> {
        self.0@
    }
}

/// What an enrollment token authenticates: its expiry, a colon, its nonce.
pub open spec fn token_payload(expires_at: i64, nonce: Seq<char>) -> Seq<char> {
    signed_decimal(expires_at as int) + seq![':'] + nonce
}

/// The enrollment token for an expiry and a nonce under a key: `le1`, the payload
/// in hex, and its code in hex, between dots.
pub open spec fn token_text(key: Seq<u8>, expires_at: i64, nonce: Seq<char>) -> Seq<char> {
    let payload = encode_utf8(token_payload(expires_at, nonce));
    "le1"@ + seq!['.'] + hex_text(payload) + seq!['.'] + hex_text(hmac_sha256_of(key, payload))
}

/// Whether a token is one issued under a key with an expiry: its nonce is sixteen
/// random bytes in hex.
pub open spec fn is_issued(key: Seq<u8>, expires_at: i64, token: Seq<char>) -> bool {
    exists|nonce: Seq<u8>|
        nonce.len() == 16 && drawn::<16>(nonce) && token == #[trigger] token_text(
            key,
            expires_at,
            hex_text(nonce),
        )
}

/// The expiry and nonce that a payload states, or `None` where it is not UTF-8
/// text of an integer, a colon and a nonce.
pub open spec fn payload_claims(payload: Seq<u8>) -> Option<(i64, Seq<char>)> {
    if valid_utf8(payload) {
        match cut(decode_utf8(payload), ':') {
            Some((expires, nonce)) => match read_i64(expires) {
                Some(millis) => Some((millis, nonce)),
                None => None,
            },
            None => None,
        }
    } else {
        None
    }
}

/// What a token says under a key: its expiry and nonce where it is well formed and
/// its code is the one that the key gives its payload, else `None`.
pub open spec fn token_claims(key: Seq<u8>, token: Seq<char>) -> Option<(i64, Seq<char>)> {
    let parts = fields(token, '.');
    if parts.len() == 3 && parts[0] == "le1"@ {
        match (hex_bytes(parts[1]), hex_bytes(parts[2])) {
            (Some(payload), Some(tag)) => if tag == hmac_sha256_of(key, payload) {
                payload_claims(payload)
            } else {
                None
            },
            _ => None,
        }
    } else {
        None
    }
}

impl EnrollmentKey {
    /// Mints a fresh random enrollment key.
    ///
    /// # Errors
    /// [`BootstrapError::Random`] if the random source is unavailable.
    pub fn generate() -> (r: Result<Self, BootstrapError>)
        ensures
            match r {
                Ok(key) => key@.len() == 32 && drawn::<32>(key@),
                Err(BootstrapError::Random(text)) => unavailable_saying::<32>(text),
                Err(_) => false,
            },
    {
        match random_bytes::<32>() {
            Ok(bytes) => Ok(EnrollmentKey::from_bytes(bytes)),
            Err(e) => Err(BootstrapError::Random(e.to_string())),
        }
    }

    /// The key of the given bytes.
    #[must_use]
    pub fn from_bytes(bytes: [u8; 32]) -> (key: Self)
        ensures
            key@ == bytes@,
    {
        EnrollmentKey(bytes)
    }

    /// Reconstructs a key from its hex encoding as stored in the secrets file.
    ///
    /// # Errors
    /// [`BootstrapError::MalformedHex`] if `hex_str` is not exactly 32 hex-encoded
    /// bytes.
    pub fn from_hex(hex_str: &str) -> (r: Result<Self, BootstrapError>)
        ensures
            match r {
                Ok(key) => hex_bytes(hex_str@) == Some(key@) && key@.len() == 32,
                Err(e) => {
                    &&& e is MalformedHex
                    &&& (hex_bytes(hex_str@) is Some ==> hex_bytes(hex_str@)->0.len() != 32)
                },
            },
    {
        let bytes = match decode(hex_str) {
            Ok(bytes) => bytes,
            Err(_) => {
                return Err(BootstrapError::MalformedHex);
            },
        };
        if bytes.len() != 32 {
            return Err(BootstrapError::MalformedHex);
        }
        let mut arr: [u8; 32] = [0u8;32];
        let mut i: usize = 0;
        while i < 32
            invariant
                i <= 32,
                bytes@.len() == 32,
                forall|j: int| 0 <= j < i ==> #[trigger] arr@[j] == bytes@[j],
            decreases 32 - i,
        {
            arr[i] = bytes[i];
            i = i + 1;
        }
        proof {
            assert(arr@ =~= bytes@);
        }
        Ok(EnrollmentKey(arr))
    }

    /// Hex-encodes the key for the secrets file. This exposes secret material.
    #[must_use]
    pub fn to_hex(&self) -> (s: String)
        ensures
            s@ == hex_text(self@),
    {
        encode(self.0.as_slice())
    }

    /// The key for diagnostics, with the key material left out.
    #[must_use]
    pub fn redacted(&self) -> (s: String)
        ensures
            s@ == "EnrollmentKey(\"<redacted>\")"@,
    {
        "EnrollmentKey(\"<redacted>\")".to_owned()
    }

    /// Issues an enrollment token valid for `ttl_millis` after `now`, with a fresh
    /// random nonce.
    ///
    /// # Errors
    /// [`BootstrapError::Random`] if the random source is unavailable.
    pub fn issue(&self, ttl_millis: i64, now: Timestamp) -> (r: Result<
        EnrollmentToken,
        BootstrapError,
    >)
        ensures
            match r {
                Ok(token) => is_issued(self@, clamp_i64(now@ + ttl_millis) as i64, token@),
                Err(BootstrapError::Random(text)) => unavailable_saying::<16>(text),
                Err(_) => false,
            },
    {
        match random_bytes::<16>() {
            Ok(nonce) => {
                let token = self.issue_with(ttl_millis, now, &nonce);
                proof {
                    assert(nonce@.len() == 16);
                    assert(is_issued(self@, clamp_i64(now@ + ttl_millis) as i64, token@));
                }
                Ok(token)
            },
            Err(e) => Err(BootstrapError::Random(e.to_string())),
        }
    }

    /// The enrollment token valid for `ttl_millis` after `now` with the given
    /// nonce. The expiry saturates.
    #[must_use]
    pub fn issue_with(&self, ttl_millis: i64, now: Timestamp, nonce: &[u8; 16]) -> (t:
        EnrollmentToken)
        ensures
            t@ == token_text(self@, clamp_i64(now@ + ttl_millis) as i64, hex_text(nonce@)),
    {
        let nonce_text = encode(nonce.as_slice());
        let expires_at: i64 = saturate(now.as_millis() as i128 + ttl_millis as i128);
        let mut payload = signed(expires_at);
        payload.push(':');
        payload.append(nonce_text.as_str());
        proof {
            assert(payload@ =~= token_payload(expires_at, nonce_text@));
        }
        let bytes = bytes_of(payload.as_str());
        let tag = hmac_sha256(&self.0, bytes.as_slice());
        let mut token = "le1".to_owned();
        token.push('.');
        token.append(encode(bytes.as_slice()).as_str());
        token.push('.');
        token.append(encode(tag.as_slice()).as_str());
        proof {
            assert(token@ =~= token_text(self@, expires_at, nonce_text@));
        }
        EnrollmentToken(token)
    }

    /// Verifies a presented enrollment token against this key and `now`. The code
    /// is checked, in constant time, before the expiry.
    ///
    /// # Errors
    /// [`BootstrapError::TokenInvalid`] if the token is malformed or its code does
    /// not verify; [`BootstrapError::TokenExpired`] if it is well formed but past
    /// its expiry.
    pub fn verify(&self, token: &str, now: Timestamp) -> (r: Result<
        EnrollmentClaims,
        BootstrapError,
    >)
        ensures
            verify_result(self@, token@, now, r),
    {
        let parts = split(token, '.');
        proof {
            assert(texts(parts@).len() == parts@.len());
            assert forall|i: int| 0 <= i < parts@.len() implies #[trigger] parts@[i]@ == fields(
                token@,
                '.',
            )[i] by {
                assert(texts(parts@)[i] == parts@[i]@);
            }
        }
        if parts.len() != 3 || !same(parts[0].as_str(), "le1") {
            return Err(BootstrapError::TokenInvalid);
        }
        let payload = match decode(parts[1].as_str()) {
            Ok(payload) => payload,
            Err(_) => {
                return Err(BootstrapError::TokenInvalid);
            },
        };
        let tag = match decode(parts[2].as_str()) {
            Ok(tag) => tag,
            Err(_) => {
                return Err(BootstrapError::TokenInvalid);
            },
        };
        if !verify_tag(&self.0, payload.as_slice(), tag.as_slice()) {
            return Err(BootstrapError::TokenInvalid);
        }
        let text = match String::from_utf8(payload) {
            Ok(text) => text,
            Err(_) => {
                return Err(BootstrapError::TokenInvalid);
            },
        };
        proof {
            encode_utf8_decode_utf8(text@);
        }
        let (expires_raw, nonce) = match split_once(text.as_str(), ':') {
            Some(parts) => parts,
            None => {
                return Err(BootstrapError::TokenInvalid);
            },
        };
        let expires_millis: i64 = match parse_i64(expires_raw.as_str()) {
            Some(millis) => millis,
            None => {
                return Err(BootstrapError::TokenInvalid);
            },
        };
        if now.as_millis() > expires_millis {
            return Err(BootstrapError::TokenExpired);
        }
        Ok(EnrollmentClaims { expires_at: Timestamp::from_millis(expires_millis), nonce })
    }
}

/// What verifying a token returns: its claims where they stand and the expiry has
/// not passed, else the refusal that fits.
pub open spec fn verify_result(
    key: Seq<u8>,
    token: Seq<char>,
    now: Timestamp,
    r: Result<EnrollmentClaims, BootstrapError>,
) -> bool {
    match (token_claims(key, token), r) {
        (Some((expires, nonce)), Ok(claims)) => {
            &&& now@ <= expires
            &&& claims.expires_at@ == expires
            &&& claims.nonce@ == nonce
        },
        (Some((expires, _)), Err(e)) => now@ > expires && e is TokenExpired,
        (None, Err(e)) => e is TokenInvalid,
        (None, Ok(_)) => false,
    }
}

/// An opaque enrollment token handed to a joining agent. It is a bearer secret, so
/// its diagnostic form is [`EnrollmentToken::redacted`].
pub struct EnrollmentToken(String);

impl View for EnrollmentToken {
    type V = Seq<char>;

    closed spec fn view(&self) -> Seq<char> {
        self.0@
    }
}

impl EnrollmentToken {
    /// Borrows the token as the string an agent presents on the wire.
    #[must_use]
    pub fn as_str(&self) -> (s: &str)
        ensures
            s@ == self@,
    {
        self.0.as_str()
    }

    /// The token for diagnostics, with its text left out.
    #[must_use]
    pub fn redacted(&self) -> (s: String)
        ensures
            s@ == "EnrollmentToken(\"<redacted>\")"@,
    {
        "EnrollmentToken(\"<redacted>\")".to_owned()
    }

    /// Consumes the token, yielding the owned wire string.
    #[must_use]
    pub fn into_string(self) -> (s: String)
        ensures
            s@ == self@,
    {
        self.0
    }
}

impl Clone for EnrollmentToken {
    fn clone(&self) -> (t: Self)
        ensures
            t@ == self@,
    {
        EnrollmentToken(self.0.clone())
    }
}

impl PartialEq for EnrollmentToken {
    fn eq(&self, other: &Self) -> (r: bool) {
        self.0 == other.0
    }
}

impl vstd::std_specs::cmp::PartialEqSpecImpl for EnrollmentToken {
    open spec fn obeys_eq_spec() -> bool {
        true
    }

    open spec fn eq_spec(&self, other: &Self) -> bool {
        self@ == other@
    }
}

/// The verified content of an enrollment token.
#[derive(Debug, Clone, PartialEq, Eq)]
pub struct EnrollmentClaims {
    /// The instant past which the token is refused.
    pub expires_at: Timestamp,
    /// The per-token random nonce (hex).
    pub nonce: String,
}

/// The hash under which a token is stored.
pub open spec fn token_hash(token: Seq<char>) -> Seq<char> {
    hex_text(sha256_of(encode_utf8(token)))
}

/// Hashes a presented token the way it is stored: SHA-256 in hex.
#[must_use]
pub fn hash_token(token: &str) -> (s: String)
    ensures
        s@ == token_hash(token@),
        s@.len() == 64,
{
    let digest = sha256(token.as_bytes());
    proof {
        hex_reads_back(digest@);
    }
    encode(digest.as_slice())
}

/// A freshly minted admin credential. The plaintext token must be saved now; only
/// its hash is persisted.
#[derive(Clone)]
pub struct AdminCredential {
    /// The plaintext admin token, surfaced exactly once.
    pub token: String,
    /// The identifier of the bootstrap admin account.
    pub account_id: String,
    /// The identifier of the admin token's key row.
    pub key_id: String,
    /// The hash of the token, which is what is persisted.
    pub token_hash: String,
}

impl AdminCredential {
    /// Whether this is the credential made of the given random bytes.
    pub open spec fn made_of(self, token: Seq<u8>, account: Seq<u8>, key: Seq<u8>) -> bool {
        &&& self.token@ == "loom_admin_"@ + hex_text(token)
        &&& self.account_id@ == "acct_"@ + hex_text(account)
        &&& self.key_id@ == "key_"@ + hex_text(key)
        &&& self.token_hash@ == token_hash(self.token@)
    }

    /// Whether this credential is made of random bytes.
    pub open spec fn is_minted(self) -> bool {
        exists|token: Seq<u8>, account: Seq<u8>, key: Seq<u8>|
            {
                &&& token.len() == 32 && drawn::<32>(token)
                &&& account.len() == 12 && drawn::<12>(account)
                &&& key.len() == 12 && drawn::<12>(key)
                &&& #[trigger] self.made_of(token, account, key)
            }
    }

    /// The credential made of the given random bytes.
    #[must_use]
    pub fn from_random(token: &[u8; 32], account: &[u8; 12], key: &[u8; 12]) -> (c: Self)
        ensures
            c.made_of(token@, account@, key@),
            c.token_hash@.len() == 64,
    {
        let token = prefixed("loom_admin_", token.as_slice());
        let token_hash = hash_token(token.as_str());
        AdminCredential {
            token,
            account_id: prefixed("acct_", account.as_slice()),
            key_id: prefixed("key_", key.as_slice()),
            token_hash,
        }
    }

    /// Mints a fresh admin token plus the account and key identity that the
    /// bootstrap persists.
    ///
    /// # Errors
    /// [`BootstrapError::Random`] if the random source is unavailable.
    pub fn mint() -> (r: Result<Self, BootstrapError>)
        ensures
            match r {
                Ok(c) => c.is_minted() && c.token_hash@.len() == 64,
                Err(BootstrapError::Random(text)) => unavailable_saying::<32>(text)
                    || unavailable_saying::<12>(text),
                Err(_) => false,
            },
    {
        let token = match random_bytes::<32>() {
            Ok(bytes) => bytes,
            Err(e) => {
                return Err(BootstrapError::Random(e.to_string()));
            },
        };
        let account = match random_bytes::<12>() {
            Ok(bytes) => bytes,
            Err(e) => {
                return Err(BootstrapError::Random(e.to_string()));
            },
        };
        let key = match random_bytes::<12>() {
            Ok(bytes) => bytes,
            Err(e) => {
                return Err(BootstrapError::Random(e.to_string()));
            },
        };
        let c = AdminCredential::from_random(&token, &account, &key);
        proof {
            assert(c.made_of(token@, account@, key@));
            assert(c.is_minted());
        }
        Ok(c)
    }

    /// The credential for diagnostics, with the plaintext token left out.
    #[must_use]
    pub fn redacted(&self) -> (s: String)
        ensures
            s@ == "AdminCredential { token: \"<redacted>\", account_id: "@ + debug_of(
                self.account_id@,
            ) + ", key_id: "@ + debug_of(self.key_id@) + ", token_hash: "@ + debug_of(
                self.token_hash@,
            ) + " }"@,
    {
        let mut s = "AdminCredential { token: \"<redacted>\", account_id: ".to_owned();
        s.append(quoted(self.account_id.as_str()).as_str());
        s.append(", key_id: ");
        s.append(quoted(self.key_id.as_str()).as_str());
        s.append(", token_hash: ");
        s.append(quoted(self.token_hash.as_str()).as_str());
        s.append(" }");
        s
    }
}

/// A prefix followed by bytes in hex.
pub(crate) fn prefixed(prefix: &str, bytes: &[u8]) -> (s: String)
    ensures
        s@ == prefix@ + hex_text(bytes@),
{
    let mut s = prefix.to_owned();
    s.append(encode(bytes).as_str());
    s
}

/// A persisted key is the key that was persisted.
pub proof fn a_key_reads_back(key: EnrollmentKey)
    ensures
        hex_bytes(hex_text(key@)) == Some(key@),
{
    hex_reads_back(key@);
}

/// What an issued token splits into: its version, its payload and its code.
proof fn an_issued_token_splits(key: Seq<u8>, expires_at: i64, nonce: Seq<char>)
    ensures
        ({
            let payload = encode_utf8(token_payload(expires_at, nonce));
            let parts = fields(token_text(key, expires_at, nonce), '.');
            &&& parts.len() == 3
            &&& parts[0] == "le1"@
            &&& hex_bytes(parts[1]) == Some(payload)
            &&& hex_bytes(parts[2]) == Some(hmac_sha256_of(key, payload))
        }),
{
    let payload = encode_utf8(token_payload(expires_at, nonce));
    let tag = hmac_sha256_of(key, payload);
    let version = "le1"@;
    assert forall|i: int| 0 <= i < version.len() implies #[trigger] version[i] != '.' by {
        reveal_strlit("le1");
    }
    hex_has_no_dot(payload);
    hex_has_no_dot(tag);
    one_field(version, '.');
    another_field(version, '.', hex_text(payload));
    another_field(version + seq!['.'] + hex_text(payload), '.', hex_text(tag));
    let parts = fields(token_text(key, expires_at, nonce), '.');
    assert(parts =~= seq![version, hex_text(payload), hex_text(tag)]);
    hex_reads_back(payload);
    hex_reads_back(tag);
}

/// An issued token says what it was issued with: under the same key it verifies to
/// its own expiry and nonce.
pub proof fn an_issued_token_reads_back(key: Seq<u8>, expires_at: i64, nonce: Seq<char>)
    ensures
        token_claims(key, token_text(key, expires_at, nonce)) == Some((expires_at, nonce)),
{
    let text = token_payload(expires_at, nonce);
    an_issued_token_splits(key, expires_at, nonce);
    encode_utf8_valid_utf8(text);
    encode_utf8_decode_utf8(text);
    let digits = signed_decimal(expires_at as int);
    assert forall|i: int| 0 <= i < digits.len() implies #[trigger] digits[i] != ':' by {
        signed_decimal_characters(expires_at as int, i);
    }
    cut_at(digits, ':', nonce);
    i64_reads_back(expires_at);
}

/// A token of another key is refused as invalid at every instant, past its expiry
/// too, wherever the two keys give its payload different codes.
pub proof fn a_token_of_another_key_is_refused(
    key: Seq<u8>,
    other: Seq<u8>,
    expires_at: i64,
    nonce: Seq<char>,
    now: Timestamp,
    r: Result<EnrollmentClaims, BootstrapError>,
)
    requires
        verify_result(other, token_text(key, expires_at, nonce), now, r),
        hmac_sha256_of(other, encode_utf8(token_payload(expires_at, nonce))) != hmac_sha256_of(
            key,
            encode_utf8(token_payload(expires_at, nonce)),
        ),
    ensures
        r is Err,
        r->Err_0 is TokenInvalid,
{
    an_issued_token_splits(key, expires_at, nonce);
}

proof fn hex_has_no_dot(bytes: Seq<u8>)
    ensures
        forall|i: int| 0 <= i < hex_text(bytes).len() ==> #[trigger] hex_text(bytes)[i] != '.',
{
    assert forall|i: int| 0 <= i < hex_text(bytes).len() implies #[trigger] hex_text(bytes)[i]
        != '.' by {
        hex_text_characters(bytes, i);
    }
}

/// An issued token is honored up to and including its expiry and refused as
/// expired after it, whatever its time to live.
pub proof fn an_issued_token_is_honored_until_it_expires(
    key: Seq<u8>,
    issued: Timestamp,
    ttl_millis: i64,
    nonce: Seq<char>,
    now: Timestamp,
    r: Result<EnrollmentClaims, BootstrapError>,
)
    requires
        verify_result(
            key,
            token_text(key, clamp_i64(issued@ + ttl_millis) as i64, nonce),
            now,
            r,
        ),
    ensures
        now@ <= clamp_i64(issued@ + ttl_millis) ==> r is Ok && r->Ok_0.expires_at@ == clamp_i64(
            issued@ + ttl_millis,
        ) && r->Ok_0.nonce@ == nonce,
        now@ > clamp_i64(issued@ + ttl_millis) ==> r is Err && r->Err_0 is TokenExpired,
{
    an_issued_token_reads_back(key, clamp_i64(issued@ + ttl_millis) as i64, nonce);
}

/// A token whose code is not the one that the key gives its payload is refused as
/// invalid, expired or not: no other key's token and no altered token gets by
/// unless it carries that very code.
pub proof fn a_token_without_the_right_code_is_refused(
    key: Seq<u8>,
    token: Seq<char>,
    now: Timestamp,
    r: Result<EnrollmentClaims, BootstrapError>,
)
    requires
        verify_result(key, token, now, r),
        ({
            let parts = fields(token, '.');
            ||| parts.len() != 3
            ||| parts[0] != "le1"@
            ||| hex_bytes(parts[1]) is None
            ||| hex_bytes(parts[2]) is None
            ||| hex_bytes(parts[2])->0 != hmac_sha256_of(key, hex_bytes(parts[1])->0)
        }),
    ensures
        r is Err,
        r->Err_0 is TokenInvalid,
{
}

/// A token lives for its time to live: presented to the key that issued it, it is honored
/// at an instant exactly where no more than that time has passed since it was issued, and
/// is refused as expired, and as nothing else, after it.
pub proof fn a_token_lives_for_its_time_to_live(
    key: EnrollmentKey,
    ttl_millis: i64,
    issued: Timestamp,
    nonce: [u8; 16],
    token: EnrollmentToken,
    presented: &str,
    now: Timestamp,
    r: Result<EnrollmentClaims, BootstrapError>,
)
    requires
        i64::MIN <= issued@ + ttl_millis <= i64::MAX,
        call_ensures(EnrollmentKey::issue_with, (&key, ttl_millis, issued, &nonce), token),
        call_ensures(EnrollmentToken::as_str, (&token,), presented),
        call_ensures(EnrollmentKey::verify, (&key, presented, now), r),
    ensures
        r is Ok <==> now@ - issued@ <= ttl_millis,
        r is Err ==> r->Err_0 is TokenExpired,
        r is Ok ==> (r->Ok_0).expires_at@ - issued@ == ttl_millis,
        r is Ok ==> hex_bytes((r->Ok_0).nonce@) == Some(nonce@),
{
    let expires_at = clamp_i64(issued@ + ttl_millis) as i64;
    an_issued_token_reads_back(key@, expires_at, hex_text(nonce@));
    hex_reads_back(nonce@);
}

/// A time to live past the last instant that there is makes a token that never expires,
/// and one before the first instant makes one that has.
pub proof fn a_time_to_live_saturates(
    key: EnrollmentKey,
    ttl_millis: i64,
    issued: Timestamp,
    nonce: [u8; 16],
    token: EnrollmentToken,
    presented: &str,
    now: Timestamp,
    r: Result<EnrollmentClaims, BootstrapError>,
)
    requires
        call_ensures(EnrollmentKey::issue_with, (&key, ttl_millis, issued, &nonce), token),
        call_ensures(EnrollmentToken::as_str, (&token,), presented),
        call_ensures(EnrollmentKey::verify, (&key, presented, now), r),
    ensures
        issued@ + ttl_millis > i64::MAX ==> r is Ok,
        issued@ + ttl_millis < i64::MIN && now@ > i64::MIN ==> r is Err && r->Err_0 is TokenExpired,
{
    let expires_at = clamp_i64(issued@ + ttl_millis) as i64;
    an_issued_token_reads_back(key@, expires_at, hex_text(nonce@));
}

/// Tokens with different nonces are different, and so are tokens with different expiries.
pub proof fn tokens_are_told_apart(
    key: EnrollmentKey,
    ttl_a: i64,
    ttl_b: i64,
    issued_a: Timestamp,
    issued_b: Timestamp,
    nonce_a: [u8; 16],
    nonce_b: [u8; 16],
    a: EnrollmentToken,
    b: EnrollmentToken,
)
    requires
        i64::MIN <= issued_a@ + ttl_a <= i64::MAX,
        i64::MIN <= issued_b@ + ttl_b <= i64::MAX,
        call_ensures(EnrollmentKey::issue_with, (&key, ttl_a, issued_a, &nonce_a), a),
        call_ensures(EnrollmentKey::issue_with, (&key, ttl_b, issued_b, &nonce_b), b),
        a@ == b@,
    ensures
        nonce_a@ == nonce_b@,
        issued_a@ + ttl_a == issued_b@ + ttl_b,
{
    an_issued_token_reads_back(
        key@,
        clamp_i64(issued_a@ + ttl_a) as i64,
        hex_text(nonce_a@),
    );
    an_issued_token_reads_back(
        key@,
        clamp_i64(issued_b@ + ttl_b) as i64,
        hex_text(nonce_b@),
    );
    hex_reads_back(nonce_a@);
    hex_reads_back(nonce_b@);
}

/// Whether a token is honored gets settled once: one that is invalid at some instant is
/// invalid at every one, one that has expired stays so, and one that is honored was
/// honored at every earlier instant, with the same claims.
pub proof fn a_verdict_changes_only_by_expiry(
    key: EnrollmentKey,
    token: &str,
    earlier: Timestamp,
    later: Timestamp,
    r: Result<EnrollmentClaims, BootstrapError>,
    s: Result<EnrollmentClaims, BootstrapError>,
)
    requires
        earlier@ <= later@,
        call_ensures(EnrollmentKey::verify, (&key, token, earlier), r),
        call_ensures(EnrollmentKey::verify, (&key, token, later), s),
    ensures
        (r is Err && r->Err_0 is TokenInvalid) <==> (s is Err && s->Err_0 is TokenInvalid),
        r is Err && r->Err_0 is TokenExpired ==> s is Err && s->Err_0 is TokenExpired,
        s is Ok ==> r is Ok && (r->Ok_0).expires_at@ == (s->Ok_0).expires_at@ && (
        r->Ok_0).nonce@ == (s->Ok_0).nonce@,
        s is Ok ==> later@ <= (s->Ok_0).expires_at@,
        r is Ok && later@ <= (r->Ok_0).expires_at@ ==> s is Ok,
        r is Err ==> r->Err_0 is TokenInvalid || r->Err_0 is TokenExpired,
{
}

/// A key that is written and read again is the same key; and whatever reads as a key is
/// thirty-two bytes.
pub proof fn a_written_key_is_read_again(
    key: EnrollmentKey,
    text: String,
    read: &str,
    r: Result<EnrollmentKey, BootstrapError>,
)
    requires
        call_ensures(EnrollmentKey::to_hex, (&key,), text),
        read@ == text@,
        key@.len() == 32,
        call_ensures(EnrollmentKey::from_hex, (read,), r),
    ensures
        r is Ok,
        (r->Ok_0)@ == key@,
{
    hex_reads_back(key@);
}

/// A presented admin token is known by its hash: hashing the token of a credential gives
/// the hash that is stored for it.
pub proof fn an_admin_token_is_known_by_its_hash(
    token: [u8; 32],
    account: [u8; 12],
    key: [u8; 12],
    c: AdminCredential,
    presented: &str,
    hash: String,
)
    requires
        call_ensures(AdminCredential::from_random, (&token, &account, &key), c),
        presented@ == c.token@,
        call_ensures(hash_token, (presented,), hash),
    ensures
        hash@ == c.token_hash@,
{
}

/// Each part of a credential comes of random bytes of its own: two credentials have the
/// same token, account or key identity exactly where the bytes of that part are the same.
pub proof fn the_parts_of_a_credential_are_independent(
    token_a: [u8; 32],
    account_a: [u8; 12],
    key_a: [u8; 12],
    a: AdminCredential,
    token_b: [u8; 32],
    account_b: [u8; 12],
    key_b: [u8; 12],
    b: AdminCredential,
)
    requires
        call_ensures(AdminCredential::from_random, (&token_a, &account_a, &key_a), a),
        call_ensures(AdminCredential::from_random, (&token_b, &account_b, &key_b), b),
    ensures
        a.token@ == b.token@ <==> token_a@ == token_b@,
        a.account_id@ == b.account_id@ <==> account_a@ == account_b@,
        a.key_id@ == b.key_id@ <==> key_a@ == key_b@,
        a.account_id@ != b.key_id@,
        token_a@ == token_b@ ==> a.token_hash@ == b.token_hash@,
{
    hex_reads_back(token_a@);
    hex_reads_back(token_b@);
    hex_reads_back(account_a@);
    hex_reads_back(account_b@);
    hex_reads_back(key_a@);
    hex_reads_back(key_b@);
    let t = "loom_admin_"@.len() as int;
    let c = "acct_"@.len() as int;
    let k = "key_"@.len() as int;
    assert(a.token@.skip(t) =~= hex_text(token_a@));
    assert(b.token@.skip(t) =~= hex_text(token_b@));
    assert(a.account_id@.skip(c) =~= hex_text(account_a@));
    assert(b.account_id@.skip(c) =~= hex_text(account_b@));
    assert(a.key_id@.skip(k) =~= hex_text(key_a@));
    assert(b.key_id@.skip(k) =~= hex_text(key_b@));
    reveal_strlit("acct_");
    reveal_strlit("key_");
    assert(a.account_id@[0] == 'a');
    assert(b.key_id@[0] == 'k');
}

/// No diagnostic form tells the secret that it stands for: it is the same whatever the
/// secret is.
pub proof fn secrets_are_not_shown(
    key_a: EnrollmentKey,
    key_b: EnrollmentKey,
    token_a: EnrollmentToken,
    token_b: EnrollmentToken,
    a: AdminCredential,
    b: AdminCredential,
    shown: (String, String, String),
    shown_of_other: (String, String, String),
)
    requires
        a.account_id@ == b.account_id@,
        a.key_id@ == b.key_id@,
        a.token_hash@ == b.token_hash@,
        call_ensures(EnrollmentKey::redacted, (&key_a,), shown.0),
        call_ensures(EnrollmentKey::redacted, (&key_b,), shown_of_other.0),
        call_ensures(EnrollmentToken::redacted, (&token_a,), shown.1),
        call_ensures(EnrollmentToken::redacted, (&token_b,), shown_of_other.1),
        call_ensures(AdminCredential::redacted, (&a,), shown.2),
        call_ensures(AdminCredential::redacted, (&b,), shown_of_other.2),
    ensures
        shown.0@ == shown_of_other.0@,
        shown.1@ == shown_of_other.1@,
        shown.2@ == shown_of_other.2@,
{
}

} // verus!
