//! The cryptographic and system primitives that the engine relies on.
//!
//! Each function here makes one call into an outside crate and states what
//! that crate documents about the result. Results that are too intricate to
//! state (a digest, a signature, a cipher text) are given a name, so that
//! callers can say exactly which value they hand on.

use vstd::prelude::*;
use aes_gcm::aead::{Aead, KeyInit};
use ed25519_dalek::{Signer, Verifier};
use argon2::{PasswordHasher, PasswordVerifier};
use rand::{Rng, RngCore};

verus! {

/// Largest plaintext, in bytes, that AES-256-GCM accepts.
pub const GCM_MAX_PLAINTEXT: u64 = 0x10_0000_0000;

/// Length of an AES-256-GCM nonce.
pub const GCM_NONCE_LEN: usize = 12;

/// Length of an AES-256-GCM authentication tag.
pub const GCM_TAG_LEN: usize = 16;

/// The SHA-256 digest of a byte string.
pub uninterp spec fn sha256_of(data: Seq<u8>) -> Seq<u8>;

/// AES-256-GCM sealing of `plaintext` under `key` and `nonce`, without
/// associated data: the cipher text followed by the 16-byte tag.
pub uninterp spec fn gcm_seal(key: Seq<u8>, nonce: Seq<u8>, plaintext: Seq<u8>) -> Seq<u8>;

/// The Ed25519 verifying key that belongs to a 32-byte secret key.
pub uninterp spec fn ed25519_public_of(secret: Seq<u8>) -> Seq<u8>;

/// The Ed25519 signature of `message` by a 32-byte secret key.
pub uninterp spec fn ed25519_signature_of(secret: Seq<u8>, message: Seq<u8>) -> Seq<u8>;

/// Whether `signature` is a valid Ed25519 signature of `message` under the
/// verifying key `public`.
pub uninterp spec fn ed25519_verifies(public: Seq<u8>, message: Seq<u8>, signature: Seq<u8>) -> bool;

/// HKDF-SHA256 without salt: 32 bytes of output keying material expanded from
/// `ikm` with the context `info`.
pub uninterp spec fn hkdf_sha256_of(ikm: Seq<u8>, info: Seq<u8>) -> Seq<u8>;

/// The instant, in whole seconds since the Unix epoch, that an RFC 3339 text
/// denotes, if it parses.
pub uninterp spec fn rfc3339_seconds(text: Seq<char>) -> Option<i64>;

/// The RFC 3339 text of an instant given in seconds since the Unix epoch.
pub uninterp spec fn rfc3339_text(secs: i64) -> Seq<char>;

/// Whether `password` matches the Argon2 hash in PHC text form `phc`.
pub uninterp spec fn argon2_verifies(password: Seq<char>, phc: Seq<char>) -> bool;

/// The sixteen lower-case hexadecimal digits.
pub open spec fn hex_digits() -> Seq<char> {
    seq!['0', '1', '2', '3', '4', '5', '6', '7', '8', '9', 'a', 'b', 'c', 'd', 'e', 'f']
}

/// Lower-case hexadecimal text of a byte string, two digits per byte, high
/// nibble first.
pub open spec fn hex_of(bytes: Seq<u8>) -> Seq<char>
    decreases bytes.len(),
{
    if bytes.len() == 0 {
        seq![]
    } else {
        let b = bytes.last();
        hex_of(bytes.drop_last()) + seq![hex_digits()[(b / 16) as int], hex_digits()[(b % 16) as int]]
    }
}

/// Whether a character is a lower-case hexadecimal digit.
pub open spec fn is_lower_hex(c: char) -> bool {
    ('0' <= c && c <= '9') || ('a' <= c && c <= 'f')
}

/// Whether a text is a random (version 4) UUID in its hyphenated lower-case
/// form: 8-4-4-4-12 hexadecimal digits, version digit `4`, variant `10xx`.
pub open spec fn is_uuid_v4_text(s: Seq<char>) -> bool {
    &&& s.len() == 36
    &&& forall|i: int|
        0 <= i < 36 ==> if i == 8 || i == 13 || i == 18 || i == 23 {
            #[trigger] s[i] == '-'
        } else {
            is_lower_hex(s[i])
        }
    &&& s[14] == '4'
    &&& (s[19] == '8' || s[19] == '9' || s[19] == 'a' || s[19] == 'b')
}

/// Relies on `rand::RngCore::fill_bytes` over the operating system's
/// generator: `n` bytes, nothing known of their values.
#[verifier::external_body]
pub(crate) fn random_bytes(n: usize) -> (r: Vec<u8>)
    ensures
        r@.len() == n,
{
    let mut buf = vec![0u8; n];
    rand::rngs::OsRng.fill_bytes(&mut buf);
    buf
}

/// Relies on `rand::Rng::gen_range` over the operating system's generator:
/// a value below `bound`.
#[verifier::external_body]
pub(crate) fn random_below(bound: u32) -> (r: u32)
    requires
        bound > 0,
    ensures
        r < bound,
{
    rand::rngs::OsRng.gen_range(0..bound)
}

/// Relies on `uuid::Uuid::new_v4` and its `Display`: a random UUID in the
/// hyphenated lower-case form.
#[verifier::external_body]
pub(crate) fn new_uuid_v4() -> (r: String)
    ensures
        is_uuid_v4_text(r@),
{
    uuid::Uuid::new_v4().to_string()
}

/// Relies on `sha2::Sha256::digest`: the 32-byte SHA-256 digest.
#[verifier::external_body]
pub(crate) fn sha256(data: &[u8]) -> (r: Vec<u8>)
    ensures
        r@ == sha256_of(data@),
        r@.len() == 32,
{
    <sha2::Sha256 as sha2::Digest>::digest(data).to_vec()
}

/// Relies on `hex::encode`: two lower-case digits per byte.
#[verifier::external_body]
pub(crate) fn hex_encode(data: &[u8]) -> (r: String)
    ensures
        r@ == hex_of(data@),
{
    hex::encode(data)
}

/// Relies on `aes_gcm::Aes256Gcm::encrypt` (no associated data): it fails
/// only on a plaintext longer than `GCM_MAX_PLAINTEXT`, and returns the cipher
/// text, as long as the plaintext, followed by the 16-byte tag.
#[verifier::external_body]
pub(crate) fn aes_gcm_seal(key: &[u8], nonce: &[u8], plaintext: &[u8]) -> (r: Option<Vec<u8>>)
    requires
        key@.len() == 32,
        nonce@.len() == GCM_NONCE_LEN,
    ensures
        plaintext@.len() <= GCM_MAX_PLAINTEXT <==> r is Some,
        r matches Some(c) ==> c@ == gcm_seal(key@, nonce@, plaintext@),
        r matches Some(c) ==> c@.len() == plaintext@.len() + GCM_TAG_LEN,
{
    let cipher = aes_gcm::Aes256Gcm::new_from_slice(key).ok()?;
    cipher.encrypt(aes_gcm::Nonce::from_slice(nonce), plaintext).ok()
}

/// Relies on `aes_gcm::Aes256Gcm::decrypt` (no associated data): it succeeds
/// exactly on the output of a sealing under the same key and nonce, and then
/// returns the plaintext that was sealed, the input without its 16-byte tag;
/// it refuses any cipher part longer than `GCM_MAX_PLAINTEXT` plus the tag
/// length.
#[verifier::external_body]
pub(crate) fn aes_gcm_open(key: &[u8], nonce: &[u8], sealed: &[u8]) -> (r: Option<Vec<u8>>)
    requires
        key@.len() == 32,
        nonce@.len() == GCM_NONCE_LEN,
    ensures
        r matches Some(p) ==> gcm_seal(key@, nonce@, p@) == sealed@,
        r matches Some(p) ==> p@.len() + GCM_TAG_LEN == sealed@.len(),
        r matches Some(p) ==> p@.len() <= GCM_MAX_PLAINTEXT + GCM_TAG_LEN,
        r is None ==> forall|p: Seq<u8>| p.len() <= GCM_MAX_PLAINTEXT ==> #[trigger] gcm_seal(key@, nonce@, p) != sealed@,
        r matches Some(q) ==> forall|p: Seq<u8>| p.len() <= GCM_MAX_PLAINTEXT && #[trigger] gcm_seal(key@, nonce@, p) == sealed@ ==> p == q@,
{
    let cipher = aes_gcm::Aes256Gcm::new_from_slice(key).ok()?;
    cipher.decrypt(aes_gcm::Nonce::from_slice(nonce), sealed).ok()
}

/// Relies on `ed25519_dalek::SigningKey::verifying_key`: the verifying key of
/// a 32-byte secret.
#[verifier::external_body]
pub(crate) fn ed25519_public_key(secret: &[u8]) -> (r: Vec<u8>)
    requires
        secret@.len() == 32,
    ensures
        r@ == ed25519_public_of(secret@),
        r@.len() == 32,
{
    let bytes: [u8; 32] = secret.try_into().unwrap();
    ed25519_dalek::SigningKey::from_bytes(&bytes).verifying_key().to_bytes().to_vec()
}

/// Relies on `ed25519_dalek::SigningKey::sign`: a 64-byte signature.
#[verifier::external_body]
pub(crate) fn ed25519_sign(secret: &[u8], message: &[u8]) -> (r: Vec<u8>)
    requires
        secret@.len() == 32,
    ensures
        r@ == ed25519_signature_of(secret@, message@),
        r@.len() == 64,
{
    let bytes: [u8; 32] = secret.try_into().unwrap();
    ed25519_dalek::SigningKey::from_bytes(&bytes).sign(message).to_bytes().to_vec()
}

/// Relies on `ed25519_dalek::VerifyingKey::verify`; a key that is no valid
/// curve point verifies nothing.
#[verifier::external_body]
pub(crate) fn ed25519_verify(public: &[u8], message: &[u8], signature: &[u8]) -> (r: bool)
    requires
        public@.len() == 32,
        signature@.len() == 64,
    ensures
        r == ed25519_verifies(public@, message@, signature@),
{
    let pk: [u8; 32] = public.try_into().unwrap();
    let sig: [u8; 64] = signature.try_into().unwrap();
    match ed25519_dalek::VerifyingKey::from_bytes(&pk) {
        Ok(key) => key.verify(message, &ed25519_dalek::Signature::from_bytes(&sig)).is_ok(),
        Err(_) => false,
    }
}

/// Relies on `x25519_dalek::EphemeralSecret::random_from_rng`: the 32-byte
/// public key of a fresh secret, which is then dropped.
#[verifier::external_body]
pub(crate) fn x25519_fresh_public_key() -> (r: Vec<u8>)
    ensures
        r@.len() == 32,
{
    let secret = x25519_dalek::EphemeralSecret::random_from_rng(rand::rngs::OsRng);
    x25519_dalek::PublicKey::from(&secret).as_bytes().to_vec()
}

/// Relies on `x25519_dalek::EphemeralSecret::diffie_hellman`: the 32-byte
/// shared secret between a fresh secret and the remote public key.
#[verifier::external_body]
pub(crate) fn x25519_agree(remote_public: &[u8]) -> (r: Vec<u8>)
    requires
        remote_public@.len() == 32,
    ensures
        r@.len() == 32,
{
    let remote: [u8; 32] = remote_public.try_into().unwrap();
    let secret = x25519_dalek::EphemeralSecret::random_from_rng(rand::rngs::OsRng);
    secret.diffie_hellman(&x25519_dalek::PublicKey::from(remote)).as_bytes().to_vec()
}

/// Relies on `hkdf::Hkdf::<Sha256>::expand` with no salt: 32 bytes, which
/// never exceeds the limit of 255 blocks.
#[verifier::external_body]
pub(crate) fn hkdf_sha256(ikm: &[u8], info: &[u8]) -> (r: Vec<u8>)
    ensures
        r@ == hkdf_sha256_of(ikm@, info@),
        r@.len() == 32,
{
    let mut okm = vec![0u8; 32];
    let _ = hkdf::Hkdf::<sha2::Sha256>::new(None, ikm).expand(info, &mut okm);
    okm
}

/// Relies on `chrono::DateTime::parse_from_rfc3339` and `timestamp`.
#[verifier::external_body]
pub(crate) fn parse_rfc3339(text: &str) -> (r: Option<i64>)
    ensures
        r == rfc3339_seconds(text@),
{
    chrono::DateTime::parse_from_rfc3339(text).ok().map(|d| d.timestamp())
}

/// Relies on `chrono::DateTime::<Utc>::from_timestamp` and `to_rfc3339`;
/// `None` only for an instant outside chrono's range, which covers at least
/// the years 1970 to 9999.
#[verifier::external_body]
pub(crate) fn format_rfc3339(secs: i64) -> (r: Option<String>)
    ensures
        r matches Some(s) ==> s@ == rfc3339_text(secs),
        0 <= secs <= 253_402_300_799 ==> r is Some,
{
    chrono::DateTime::<chrono::Utc>::from_timestamp(secs, 0).map(|d| d.to_rfc3339())
}

/// Relies on `argon2::Argon2::hash_password` (Argon2id, default parameters)
/// with a fresh random salt: the PHC text of the hash, against which the same
/// password verifies. It fails only on a password of more than 2^32 - 1
/// bytes, which a text of at most 2^30 - 1 characters never reaches.
#[verifier::external_body]
pub(crate) fn argon2_hash(password: &str) -> (r: Option<String>)
    ensures
        r matches Some(h) ==> argon2_verifies(password@, h@),
        password@.len() <= 0x3FFF_FFFF ==> r is Some,
{
    let salt = argon2::password_hash::SaltString::generate(&mut rand::rngs::OsRng);
    argon2::Argon2::default().hash_password(password.as_bytes(), &salt).ok().map(|h| h.to_string())
}

/// Relies on `argon2::PasswordHash::new` and
/// `argon2::Argon2::verify_password`; a text that is no PHC hash matches
/// nothing.
#[verifier::external_body]
pub(crate) fn argon2_verify(password: &str, phc: &str) -> (r: bool)
    ensures
        r == argon2_verifies(password@, phc@),
{
    match argon2::PasswordHash::new(phc) {
        Ok(parsed) => argon2::Argon2::default().verify_password(password.as_bytes(), &parsed).is_ok(),
        Err(_) => false,
    }
}

} // verus!
