//! Security manager: authenticated encryption of media, file and signaling
//! payloads; session keys with rotation and a grace period for superseded
//! keys; device certificates; replay, tampering and brute-force detection.
//!
//! Instants are whole seconds since the Unix epoch, handed in by the caller.

use vstd::prelude::*;
use crate::crypto::{
    aes_gcm_open, aes_gcm_seal, ed25519_public_key, ed25519_public_of, ed25519_sign,
    ed25519_signature_of, ed25519_verifies, ed25519_verify, format_rfc3339, gcm_seal, hex_encode,
    hex_of, hkdf_sha256, hkdf_sha256_of, parse_rfc3339, random_bytes, rfc3339_seconds,
    rfc3339_text, sha256, sha256_of, x25519_agree, x25519_fresh_public_key, GCM_MAX_PLAINTEXT,
    GCM_NONCE_LEN, GCM_TAG_LEN,
};
use crate::error::CoreError;
use crate::table::{
    lemma_prefix_extend, lemma_prefix_unique, lemma_push_contains, lemma_push_no_duplicates, string_views, Table,
};

verus! {

/// Security configuration for the engine.
#[derive(Debug, Clone, Copy)]
pub struct SecurityConfig {
    /// Encrypt media streams.
    pub enable_dtls_srtp: bool,
    /// Encrypt signaling payloads.
    pub enable_tls_signaling: bool,
    /// Encrypt file transfers.
    pub enable_file_encryption: bool,
    /// Validate device certificates.
    pub certificate_validation: bool,
    /// Session key rotation interval in seconds.
    pub key_rotation_interval: u64,
    /// Raise an error on every detected threat.
    pub threat_detection_enabled: bool,
}

impl Default for SecurityConfig {
    fn default() -> (r: Self)
        ensures
            r.enable_dtls_srtp && r.enable_tls_signaling && r.enable_file_encryption,
            r.certificate_validation && r.threat_detection_enabled,
            r.key_rotation_interval == 3600,
    {
        SecurityConfig {
            enable_dtls_srtp: true,
            enable_tls_signaling: true,
            enable_file_encryption: true,
            certificate_validation: true,
            key_rotation_interval: 3600,
            threat_detection_enabled: true,
        }
    }
}

/// Encryption algorithms.
#[derive(Debug, Clone, Copy, PartialEq, Eq, Structural)]
pub enum EncryptionAlgorithm {
    Aes256Gcm,
    ChaCha20Poly1305,
}

/// Threats that the manager detects.
#[derive(Debug, Clone, Copy, PartialEq, Eq, Structural)]
pub enum SecurityThreat {
    InvalidCertificate,
    EncryptionFailure,
    UnauthorizedAccess,
    ManInTheMiddle,
    KeyCompromise,
    ReplayAttack,
    TamperingDetected,
}

/// The error that a detected threat is reported as.
pub open spec fn threat_error(t: SecurityThreat) -> CoreError {
    match t {
        SecurityThreat::InvalidCertificate => CoreError::CertificateInvalid,
        SecurityThreat::EncryptionFailure => CoreError::EncryptError,
        SecurityThreat::UnauthorizedAccess => CoreError::Unauthorized,
        SecurityThreat::ManInTheMiddle => CoreError::MitmDetected,
        SecurityThreat::KeyCompromise => CoreError::Unauthorized,
        SecurityThreat::ReplayAttack => CoreError::ReplayDetected,
        SecurityThreat::TamperingDetected => CoreError::TamperDetected,
    }
}

/// A session key and its rotation bookkeeping.
#[derive(Debug, Clone, Copy)]
pub struct SessionKey {
    pub key: [u8; 32],
    pub created_at: u64,
    pub rotation_count: u32,
    pub algorithm: EncryptionAlgorithm,
    pub last_rotated_at: u64,
    /// Age in seconds after which the key is due for rotation.
    pub max_age_secs: u64,
    pub auto_rotate: bool,
}

/// Whether a key is due for rotation at `now`.
pub open spec fn key_due(k: SessionKey, now: u64) -> bool {
    k.auto_rotate && now >= k.last_rotated_at && now - k.last_rotated_at >= k.max_age_secs
}

/// Session key rotation configuration.
#[derive(Debug, Clone, Copy)]
pub struct KeyRotationConfig {
    pub rotation_interval_secs: u64,
    pub max_messages_per_key: u64,
    pub auto_rotate: bool,
    /// How long, in seconds, a superseded key still decrypts.
    pub grace_period_secs: u64,
}

impl Default for KeyRotationConfig {
    fn default() -> (r: Self)
        ensures
            r.rotation_interval_secs == 3600,
            r.max_messages_per_key == 1_000_000,
            r.auto_rotate,
            r.grace_period_secs == 60,
    {
        KeyRotationConfig {
            rotation_interval_secs: 3600,
            max_messages_per_key: 1_000_000,
            auto_rotate: true,
            grace_period_secs: 60,
        }
    }
}

/// Threat detection configuration.
#[derive(Debug, Clone, Copy)]
pub struct ThreatDetectionConfig {
    pub detect_replay_attacks: bool,
    pub detect_tampering: bool,
    pub detect_brute_force: bool,
    /// Failed attempts within the window that lock an identifier out.
    pub max_failed_attempts: u32,
    pub lockout_duration_secs: u64,
    pub attempt_window_secs: u64,
    pub detect_anomalies: bool,
}

impl Default for ThreatDetectionConfig {
    fn default() -> (r: Self)
        ensures
            r.detect_replay_attacks && r.detect_tampering && r.detect_brute_force,
            r.max_failed_attempts == 5,
            r.lockout_duration_secs == 300,
            r.attempt_window_secs == 60,
            r.detect_anomalies,
    {
        ThreatDetectionConfig {
            detect_replay_attacks: true,
            detect_tampering: true,
            detect_brute_force: true,
            max_failed_attempts: 5,
            lockout_duration_secs: 300,
            attempt_window_secs: 60,
            detect_anomalies: true,
        }
    }
}

/// An encrypted payload with what is needed to decrypt it.
#[derive(Debug, Clone)]
pub struct EncryptedData {
    pub ciphertext: Vec<u8>,
    /// 12 bytes; empty when encryption is bypassed.
    pub nonce: Vec<u8>,
    /// 16 bytes; empty when encryption is bypassed.
    pub tag: Vec<u8>,
    pub algorithm: EncryptionAlgorithm,
    pub key_id: String,
}

/// `plaintext` is what `e` was sealed from under `key`.
pub open spec fn opens_to(key: Seq<u8>, e: EncryptedData, plaintext: Seq<u8>) -> bool {
    &&& key.len() == 32
    &&& e.nonce@.len() == GCM_NONCE_LEN
    &&& e.tag@.len() == GCM_TAG_LEN
    &&& e.ciphertext@.len() == plaintext.len()
    &&& plaintext.len() <= GCM_MAX_PLAINTEXT
    &&& gcm_seal(key, e.nonce@, plaintext) == e.ciphertext@ + e.tag@
}

/// What encrypting `data` under `key` yields: `EncryptError` exactly when
/// the key is not 32 bytes long or the data is too long for AES-GCM;
/// otherwise an envelope with a 12-byte nonce and a 16-byte tag that opens
/// to `data` under `key`.
pub open spec fn encrypts_as(key: Seq<u8>, data: Seq<u8>, r: Result<EncryptedData, CoreError>) -> bool {
    &&& ((key.len() == 32 && data.len() <= GCM_MAX_PLAINTEXT) <==> r is Ok)
    &&& (r matches Err(e) ==> e == CoreError::EncryptError)
    &&& (r matches Ok(e) ==> {
        &&& e.nonce@.len() == GCM_NONCE_LEN
        &&& e.tag@.len() == GCM_TAG_LEN
        &&& e.ciphertext@.len() == data.len()
        &&& e.algorithm == EncryptionAlgorithm::Aes256Gcm
        &&& opens_to(key, e, data)
    })
}

/// What decrypting `e` under `key` yields: a plaintext that `e` opens to,
/// and whenever `e` opens to some plaintext, that one; `DecryptError`
/// otherwise.
pub open spec fn decrypts_as(key: Seq<u8>, e: EncryptedData, r: Result<Vec<u8>, CoreError>) -> bool {
    &&& (r matches Ok(p) ==> opens_to(key, e, p@))
    &&& (r matches Err(err) ==> err == CoreError::DecryptError)
    &&& (forall|p: Seq<u8>| #[trigger] opens_to(key, e, p) ==> (r matches Ok(q) && q@ == p))
}

/// Decrypting what encryption produced gives the plaintext back, and the
/// envelope carries a 12-byte nonce and a 16-byte tag.
pub proof fn lemma_encryption_round_trip(
    key: Seq<u8>,
    data: Seq<u8>,
    e: EncryptedData,
    d: Result<Vec<u8>, CoreError>,
)
    requires
        encrypts_as(key, data, Ok(e)),
        decrypts_as(key, e, d),
    ensures
        d matches Ok(p) && p@ == data,
        e.nonce@.len() == 12,
        e.tag@.len() == 16,
{
    assert(opens_to(key, e, data));
}

/// Byte-wise equality of two byte strings.
pub fn bytes_eq(a: &[u8], b: &[u8]) -> (r: bool)
    ensures
        r == (a@ == b@),
{
    if a.len() != b.len() {
        return false;
    }
    let mut i: usize = 0;
    while i < a.len()
        invariant
            a@.len() == b@.len(),
            i <= a@.len(),
            forall|j: int| 0 <= j < i ==> a@[j] == b@[j],
        decreases a@.len() - i,
    {
        if a[i] != b[i] {
            return false;
        }
        i = i + 1;
    }
    assert(a@ =~= b@);
    true
}

fn bytes_to_vec(a: &[u8]) -> (r: Vec<u8>)
    ensures
        r@ == a@,
{
    let mut out: Vec<u8> = Vec::new();
    let mut i: usize = 0;
    while i < a.len()
        invariant
            i <= a@.len(),
            out@ == a@.subrange(0, i as int),
        decreases a@.len() - i,
    {
        out.push(a[i]);
        i = i + 1;
    }
    assert(out@ =~= a@);
    out
}

fn concat_bytes(a: &[u8], b: &[u8]) -> (r: Vec<u8>)
    ensures
        r@ == a@ + b@,
{
    let mut out = bytes_to_vec(a);
    let mut i: usize = 0;
    while i < b.len()
        invariant
            i <= b@.len(),
            out@ == a@ + b@.subrange(0, i as int),
        decreases b@.len() - i,
    {
        out.push(b[i]);
        i = i + 1;
        assert(out@ =~= a@ + b@.subrange(0, i as int));
    }
    assert(b@.subrange(0, b@.len() as int) =~= b@);
    out
}

/// Encrypts `data` under `key` with AES-256-GCM and a fresh random nonce.
///
/// Fails with `EncryptError` exactly when the key is not 32 bytes long or the
/// data exceeds what AES-GCM accepts.
pub fn encrypt_with_aes_gcm(key: &[u8], data: &[u8], key_id: &str) -> (r: Result<EncryptedData, CoreError>)
    ensures
        encrypts_as(key@, data@, r),
        r matches Ok(e) ==> e.key_id@ == key_id@,
{
    if key.len() != 32 {
        return Err(CoreError::EncryptError);
    }
    let nonce = random_bytes(GCM_NONCE_LEN);
    match aes_gcm_seal(key, nonce.as_slice(), data) {
        None => Err(CoreError::EncryptError),
        Some(sealed) => {
            let mut ciphertext = sealed;
            let split = ciphertext.len() - GCM_TAG_LEN;
            let ghost whole = ciphertext@;
            let tag = ciphertext.split_off(split);
            assert(ciphertext@ + tag@ =~= whole);
            Ok(EncryptedData {
                ciphertext,
                nonce,
                tag,
                algorithm: EncryptionAlgorithm::Aes256Gcm,
                key_id: key_id.to_string(),
            })
        },
    }
}

/// Decrypts an envelope sealed under `key`.
///
/// Succeeds exactly when some plaintext seals, under `key` and the envelope's
/// nonce, to the envelope's cipher text and tag, and then returns it; fails
/// with `DecryptError` otherwise (a wrong key, a malformed nonce, a flipped
/// bit).
pub fn decrypt_with_aes_gcm(key: &[u8], encrypted: &EncryptedData) -> (r: Result<Vec<u8>, CoreError>)
    ensures
        decrypts_as(key@, *encrypted, r),
{
    if key.len() != 32 || encrypted.nonce.len() != GCM_NONCE_LEN || encrypted.tag.len() != GCM_TAG_LEN
        || encrypted.ciphertext.len() as u64 > GCM_MAX_PLAINTEXT {
        return Err(CoreError::DecryptError);
    }
    let sealed = concat_bytes(encrypted.ciphertext.as_slice(), encrypted.tag.as_slice());
    match aes_gcm_open(key, encrypted.nonce.as_slice(), sealed.as_slice()) {
        Some(p) => Ok(p),
        None => Err(CoreError::DecryptError),
    }
}

/// A nonce and the instant it was first seen.
#[derive(Debug, Clone)]
pub struct SeenNonce {
    pub nonce: Vec<u8>,
    pub seen_at: u64,
}

/// Whether a nonce seen at `seen_at` is still remembered at `now`.
pub open spec fn nonce_live(seen_at: u64, now: u64, expiration: u64) -> bool {
    now <= seen_at || now - seen_at <= expiration
}

/// The entries of `s` that are still remembered at `now`, in order.
pub open spec fn live_nonces(s: Seq<SeenNonce>, now: u64, expiration: u64) -> Seq<SeenNonce>
    decreases s.len(),
{
    if s.len() == 0 {
        seq![]
    } else {
        let rest = live_nonces(s.drop_last(), now, expiration);
        if nonce_live(s.last().seen_at, now, expiration) {
            rest.push(s.last())
        } else {
            rest
        }
    }
}

/// The nonces of a list of entries.
pub open spec fn nonces_of(s: Seq<SeenNonce>) -> Seq<Seq<u8>> {
    s.map_values(|e: SeenNonce| e.nonce@)
}

/// The remembered nonces, expiration and bound of a session's replay state,
/// or those of a fresh state.
pub open spec fn replay_state_of(states: Map<Seq<char>, ReplayDetectionState>, session: Seq<char>) -> (Seq<
    SeenNonce,
>, u64, usize) {
    if states.contains_key(session) {
        (states[session].seen_nonces@, states[session].nonce_expiration_secs, states[session].max_nonces)
    } else {
        (Seq::<SeenNonce>::empty(), 300u64, 100_000usize)
    }
}

/// The remembered nonces once room is made for one more: the oldest half
/// leaves when the bound is reached.
pub open spec fn after_record(live: Seq<SeenNonce>, max: usize) -> Seq<SeenNonce> {
    if live.len() >= max {
        live.subrange((max / 2) as int, live.len() as int)
    } else {
        live
    }
}

/// A remembered nonce survives the making of room for a new one when the
/// bound is not reached or it is among the newer half.
pub proof fn lemma_nonce_kept(live: Seq<SeenNonce>, max: usize, i: int, added: SeenNonce)
    requires
        0 <= i < live.len(),
        live.len() < max || i >= max / 2,
    ensures
        nonces_of(after_record(live, max).push(added)).contains(live[i].nonce@),
{
    let kept = after_record(live, max).push(added);
    let j = if live.len() >= max {
        i - (max / 2) as int
    } else {
        i
    };
    assert(kept[j] == live[i]);
    assert(nonces_of(kept)[j] == live[i].nonce@);
}

/// Replay-detection state of one session: the nonces seen recently, oldest
/// first.
#[derive(Debug, Clone)]
pub struct ReplayDetectionState {
    pub seen_nonces: Vec<SeenNonce>,
    /// Bound on the remembered nonces; when it is reached the oldest half is
    /// forgotten.
    pub max_nonces: usize,
    pub nonce_expiration_secs: u64,
}

impl ReplayDetectionState {
    /// A state that remembers nothing, with a bound of 100000 nonces kept
    /// for 300 seconds.
    pub fn new() -> (r: Self)
        ensures
            r.seen_nonces@.len() == 0,
            r.max_nonces == 100_000,
            r.nonce_expiration_secs == 300,
    {
        ReplayDetectionState { seen_nonces: Vec::new(), max_nonces: 100_000, nonce_expiration_secs: 300 }
    }

    /// Forgets every nonce older than the expiration window.
    pub fn expire(&mut self, now: u64)
        ensures
            final(self).seen_nonces@ == live_nonces(old(self).seen_nonces@, now, old(self).nonce_expiration_secs),
            final(self).max_nonces == old(self).max_nonces,
            final(self).nonce_expiration_secs == old(self).nonce_expiration_secs,
    {
        let exp = self.nonce_expiration_secs;
        let mut kept: Vec<SeenNonce> = Vec::new();
        let mut old_list: Vec<SeenNonce> = Vec::new();
        std::mem::swap(&mut old_list, &mut self.seen_nonces);
        let ghost all = old_list@;
        let total = old_list.len();
        let mut rev: Vec<SeenNonce> = Vec::new();
        // Drain from the back, then rebuild in the original order.
        while old_list.len() > 0
            invariant
                old_list@.len() + rev@.len() == all.len(),
                old_list@ == all.subrange(0, old_list@.len() as int),
                forall|j: int| 0 <= j < rev@.len() ==> rev@[j] == all[all.len() - 1 - j],
            decreases old_list@.len(),
        {
            let e = old_list.pop().unwrap();
            rev.push(e);
        }
        let mut i: usize = 0;
        while rev.len() > 0
            invariant
                total == all.len(),
                i + rev@.len() == all.len(),
                forall|j: int| 0 <= j < rev@.len() ==> rev@[j] == all[all.len() - 1 - j],
                kept@ == live_nonces(all.subrange(0, i as int), now, exp),
            decreases rev@.len(),
        {
            let e = rev.pop().unwrap();
            proof {
                assert(e == all[i as int]);
                assert(all.subrange(0, i + 1).drop_last() =~= all.subrange(0, i as int));
            }
            if now <= e.seen_at || now - e.seen_at <= exp {
                kept.push(e);
            }
            i = i + 1;
        }
        assert(all.subrange(0, all.len() as int) =~= all);
        self.seen_nonces = kept;
    }

    /// Whether `nonce` is among the remembered nonces.
    pub fn contains(&self, nonce: &[u8]) -> (r: bool)
        ensures
            r == nonces_of(self.seen_nonces@).contains(nonce@),
    {
        let mut i: usize = 0;
        while i < self.seen_nonces.len()
            invariant
                i <= self.seen_nonces@.len(),
                forall|j: int| 0 <= j < i ==> self.seen_nonces@[j].nonce@ != nonce@,
            decreases self.seen_nonces@.len() - i,
        {
            if bytes_eq(self.seen_nonces[i].nonce.as_slice(), nonce) {
                assert(nonces_of(self.seen_nonces@)[i as int] == nonce@);
                return true;
            }
            i = i + 1;
        }
        assert forall|j: int| 0 <= j < nonces_of(self.seen_nonces@).len() implies nonces_of(
            self.seen_nonces@,
        )[j] != nonce@ by {
            assert(self.seen_nonces@[j].nonce@ != nonce@);
        }
        false
    }

    /// Checks a nonce at `now`: first forgets expired nonces; reports a replay
    /// if the nonce is still remembered; otherwise remembers it, forgetting
    /// the oldest half first when the bound is reached.
    pub fn check_and_record(&mut self, nonce: &[u8], now: u64) -> (replayed: bool)
        ensures
            ({
                let live = live_nonces(old(self).seen_nonces@, now, old(self).nonce_expiration_secs);
                &&& replayed == nonces_of(live).contains(nonce@)
                &&& replayed ==> final(self).seen_nonces@ == live
                &&& !replayed ==> final(self).seen_nonces@ == (if live.len() >= old(self).max_nonces {
                    live.subrange((old(self).max_nonces / 2) as int, live.len() as int)
                } else {
                    live
                }).push(SeenNonce { nonce: final(self).seen_nonces@.last().nonce, seen_at: now })
                &&& !replayed ==> final(self).seen_nonces@.last().nonce@ == nonce@
            }),
            final(self).max_nonces == old(self).max_nonces,
            final(self).nonce_expiration_secs == old(self).nonce_expiration_secs,
    {
        self.expire(now);
        if self.contains(nonce) {
            return true;
        }
        if self.seen_nonces.len() >= self.max_nonces {
            let half = self.max_nonces / 2;
            let newer = self.seen_nonces.split_off(half);
            self.seen_nonces = newer;
        }
        let entry = SeenNonce { nonce: bytes_to_vec(nonce), seen_at: now };
        self.seen_nonces.push(entry);
        false
    }
}

/// A nonce recorded at `now` is reported as a replay when it is presented
/// again, with no other check in between, at any instant up to the
/// expiration window later.
pub proof fn lemma_replay_detected(
    before: Seq<SeenNonce>,
    after: Seq<SeenNonce>,
    nonce: Seq<u8>,
    now: u64,
    later: u64,
    expiration: u64,
)
    requires
        after.len() > 0,
        after.last().nonce@ == nonce,
        after.last().seen_at == now,
        now <= later,
        later - now <= expiration,
    ensures
        nonces_of(live_nonces(after, later, expiration)).contains(nonce),
{
    let live = live_nonces(after, later, expiration);
    assert(live.last() == after.last());
    assert(nonces_of(live)[live.len() - 1] == nonce);
}

/// Whether a failed attempt made at `t` still counts at `now`.
pub open spec fn attempt_in_window(t: u64, now: u64, window: u64) -> bool {
    now < window || t > now - window
}

/// The attempts of `s` that still count at `now`, in order.
pub open spec fn recent_attempts(s: Seq<u64>, now: u64, window: u64) -> Seq<u64>
    decreases s.len(),
{
    if s.len() == 0 {
        seq![]
    } else {
        let rest = recent_attempts(s.drop_last(), now, window);
        if attempt_in_window(s.last(), now, window) {
            rest.push(s.last())
        } else {
            rest
        }
    }
}

/// Whether `id` is locked out at `now` under the given lockouts.
pub open spec fn locked_at(lockouts: Map<Seq<char>, u64>, id: Seq<char>, now: u64) -> bool {
    lockouts.contains_key(id) && now < lockouts[id]
}

/// `a + b`, or the largest `u64` where that overflows.
pub open spec fn sat_add(a: u64, b: u64) -> u64 {
    if a + b > u64::MAX {
        u64::MAX
    } else {
        (a + b) as u64
    }
}

/// Failed authentication attempts and lockouts, by identifier.
#[derive(Debug)]
pub struct FailedAttemptTracker {
    /// Instants of the attempts that still count, oldest first.
    pub attempts: Table<Vec<u64>>,
    /// Instant until which each identifier is locked out.
    pub lockouts: Table<u64>,
}

impl FailedAttemptTracker {
    /// The tracker's tables are well formed.
    pub open spec fn wf(&self) -> bool {
        self.attempts.wf() && self.lockouts.wf()
    }

    /// The attempts recorded for `id`, oldest first.
    pub open spec fn attempts_of(&self, id: Seq<char>) -> Seq<u64> {
        if self.attempts@.contains_key(id) {
            self.attempts@[id]@
        } else {
            seq![]
        }
    }

    /// A tracker with no attempts and no lockouts.
    pub fn new() -> (r: Self)
        ensures
            r.wf(),
            r.attempts@ == Map::<Seq<char>, Vec<u64>>::empty(),
            r.lockouts@ == Map::<Seq<char>, u64>::empty(),
    {
        FailedAttemptTracker { attempts: Table::new(), lockouts: Table::new() }
    }

    /// Records a failed attempt of `id` at `now`.
    ///
    /// An identifier that is locked out stays so and the attempt is not
    /// counted. Otherwise an expired lockout is lifted, attempts outside the
    /// window are dropped and this one is added; when `max_attempts` of them
    /// are counted, the identifier is locked out for `lockout_secs` and its
    /// attempts are cleared. Returns whether the identifier is locked out.
    pub fn record_failure(&mut self, id: &str, now: u64, window: u64, max_attempts: u32, lockout_secs: u64) -> (locked: bool)
        requires
            old(self).wf(),
        ensures
            final(self).wf(),
            locked_at(old(self).lockouts@, id@, now) ==> locked && final(self).attempts@ == old(self).attempts@ && final(self).lockouts@ == old(self).lockouts@,
            !locked_at(old(self).lockouts@, id@, now) ==> ({
                let counted = recent_attempts(old(self).attempts_of(id@), now, window).push(now);
                &&& locked == (counted.len() >= max_attempts)
                &&& final(self).attempts@.remove(id@) == old(self).attempts@.remove(id@)
                &&& final(self).attempts@.contains_key(id@)
                &&& locked ==> final(self).attempts@[id@]@ == Seq::<u64>::empty()
                &&& locked ==> final(self).lockouts@ == old(self).lockouts@.insert(id@, sat_add(now, lockout_secs))
                &&& !locked ==> final(self).attempts@[id@]@ == counted
                &&& !locked ==> final(self).lockouts@ == old(self).lockouts@.remove(id@)
            }),
    {
        match self.lockouts.get(id) {
            Some(until) => {
                if now < *until {
                    return true;
                }
            },
            None => {},
        }
        self.lockouts.remove(id);
        let prev: Vec<u64> = match self.attempts.remove(id) {
            Some(v) => v,
            None => Vec::new(),
        };
        let mut kept: Vec<u64> = Vec::new();
        let mut i: usize = 0;
        while i < prev.len()
            invariant
                i <= prev@.len(),
                kept@ == recent_attempts(prev@.subrange(0, i as int), now, window),
            decreases prev@.len() - i,
        {
            let t = prev[i];
            proof {
                assert(prev@.subrange(0, i + 1).drop_last() =~= prev@.subrange(0, i as int));
            }
            if now < window || t > now - window {
                kept.push(t);
            }
            i = i + 1;
        }
        assert(prev@.subrange(0, prev@.len() as int) =~= prev@);
        kept.push(now);
        if kept.len() >= max_attempts as usize {
            let until = now.saturating_add(lockout_secs);
            self.lockouts.insert(id.to_string(), until);
            self.attempts.insert(id.to_string(), Vec::new());
            proof {
                assert(self.attempts@.remove(id@) =~= old(self).attempts@.remove(id@));
            }
            true
        } else {
            self.attempts.insert(id.to_string(), kept);
            proof {
                assert(self.attempts@.remove(id@) =~= old(self).attempts@.remove(id@));
            }
            false
        }
    }

    /// Whether `id` is locked out at `now`.
    pub fn is_locked_out(&self, id: &str, now: u64) -> (r: bool)
        requires
            self.wf(),
        ensures
            r == locked_at(self.lockouts@, id@, now),
    {
        match self.lockouts.get(id) {
            Some(until) => now < *until,
            None => false,
        }
    }

    /// Forgets the attempts and the lockout of `id`.
    pub fn clear(&mut self, id: &str)
        requires
            old(self).wf(),
        ensures
            final(self).wf(),
            final(self).attempts@ == old(self).attempts@.remove(id@),
            final(self).lockouts@ == old(self).lockouts@.remove(id@),
    {
        self.attempts.remove(id);
        self.lockouts.remove(id);
    }
}

/// A lockout installed at `now` for `duration` seconds holds at every instant
/// from `now` until it ends, and no lockout holds once it has been cleared.
pub proof fn lemma_lockout_span(lockouts: Map<Seq<char>, u64>, id: Seq<char>, now: u64, duration: u64, t: u64)
    requires
        now <= t,
        t < sat_add(now, duration),
    ensures
        locked_at(lockouts.insert(id, sat_add(now, duration)), id, t),
        !locked_at(lockouts.insert(id, sat_add(now, duration)).remove(id), id, t),
{
}

/// DTLS-SRTP configuration for media encryption.
#[derive(Debug, Clone)]
pub struct DtlsSrtpConfig {
    pub srtp_profile: String,
    pub fingerprint_algorithm: String,
    pub local_fingerprint: Option<String>,
    pub remote_fingerprint: Option<String>,
}

impl Default for DtlsSrtpConfig {
    fn default() -> (r: Self)
        ensures
            r.srtp_profile@ == "SRTP_AES128_CM_HMAC_SHA1_80"@,
            r.fingerprint_algorithm@ == "sha-256"@,
            r.local_fingerprint is None && r.remote_fingerprint is None,
    {
        DtlsSrtpConfig {
            srtp_profile: "SRTP_AES128_CM_HMAC_SHA1_80".to_string(),
            fingerprint_algorithm: "sha-256".to_string(),
            local_fingerprint: None,
            remote_fingerprint: None,
        }
    }
}

/// TLS configuration for signaling encryption.
#[derive(Debug, Clone)]
pub struct TlsConfig {
    pub min_version: String,
    pub cipher_suites: Vec<String>,
    pub verify_certificates: bool,
}

impl Default for TlsConfig {
    fn default() -> (r: Self)
        ensures
            r.min_version@ == "TLS1.3"@,
            r.cipher_suites@.len() == 3,
            r.cipher_suites@[0]@ == "TLS_AES_256_GCM_SHA384"@,
            r.verify_certificates,
    {
        let mut suites: Vec<String> = Vec::new();
        suites.push("TLS_AES_256_GCM_SHA384".to_string());
        suites.push("TLS_AES_128_GCM_SHA256".to_string());
        suites.push("TLS_CHACHA20_POLY1305_SHA256".to_string());
        TlsConfig { min_version: "TLS1.3".to_string(), cipher_suites: suites, verify_certificates: true }
    }
}

/// Kinds of security events.
#[derive(Debug, Clone, Copy, PartialEq, Eq, Structural)]
pub enum SecurityEventType {
    KeyRotation,
    CertificateValidation,
    ThreatDetected,
    EncryptionEnabled,
    EncryptionDisabled,
    SessionEstablished,
    SessionTerminated,
}

/// An entry of the security event log.
#[derive(Debug, Clone)]
pub struct SecurityEvent {
    /// Seconds since the Unix epoch.
    pub timestamp: u64,
    pub event_type: SecurityEventType,
    pub session_id: Option<String>,
    pub device_id: Option<String>,
    pub details: String,
}

/// A device certificate: an X25519 public key and an Ed25519 verifying key,
/// bound to a device by an Ed25519 signature.
#[derive(Debug, Clone)]
pub struct DeviceCertificate {
    pub device_id: String,
    pub certificate: Vec<u8>,
    pub private_key: Vec<u8>,
    /// X25519 public key.
    pub public_key: Vec<u8>,
    /// RFC 3339 start of validity.
    pub valid_from: String,
    /// RFC 3339 end of validity.
    pub valid_until: String,
    /// Hexadecimal SHA-256 of the public key followed by the verifying key.
    pub fingerprint: String,
    /// Ed25519 secret key, held only by the certificate's owner.
    pub signing_key: Option<Vec<u8>>,
    /// Ed25519 verifying key.
    pub verifying_key: Vec<u8>,
    /// Ed25519 signature over the canonical certificate text.
    pub signature: Vec<u8>,
    pub issuer_fingerprint: Option<String>,
    pub revoked: bool,
}

/// A superseded session key and the instant its grace period ends.
#[derive(Debug, Clone, Copy)]
pub struct OldKey {
    pub key: SessionKey,
    pub expires_at: u64,
}

/// `new` is what rotating `old` at `now` yields.
pub open spec fn rotated_from(new: SessionKey, old: SessionKey, now: u64) -> bool {
    &&& new.key@ != old.key@
    &&& new.rotation_count == old.rotation_count + 1
    &&& new.last_rotated_at == now
    &&& new.created_at == old.created_at
    &&& new.algorithm == old.algorithm
    &&& new.max_age_secs == old.max_age_secs
    &&& new.auto_rotate == old.auto_rotate
}

/// A rotation changes the key bytes and raises the rotation counter.
pub proof fn lemma_rotation_progress(new: SessionKey, old: SessionKey, now: u64)
    requires
        rotated_from(new, old, now),
    ensures
        new.key@ != old.key@,
        new.rotation_count > old.rotation_count,
{
}

/// Whether a key is due for rotation at `now` and its counter can still grow.
pub open spec fn rotatable(k: SessionKey, now: u64) -> bool {
    key_due(k, now) && k.rotation_count < u32::MAX
}

/// The old keys among `s` that still decrypt at `now`.
pub open spec fn old_key_live(k: OldKey, now: u64) -> bool {
    k.expires_at > now
}

/// A 32-byte key drawn at random that differs from `avoid`.
fn fresh_key_bytes(avoid: &[u8; 32]) -> (r: [u8; 32])
    ensures
        r@ != avoid@,
{
    let drawn = random_bytes(32);
    let mut key = [0u8; 32];
    let mut i: usize = 0;
    while i < 32
        invariant
            drawn@.len() == 32,
            i <= 32,
            key@.len() == 32,
        decreases 32 - i,
    {
        key[i] = drawn[i];
        i = i + 1;
    }
    if bytes_eq(key.as_slice(), avoid.as_slice()) {
        let b = key[0];
        key[0] = b.wrapping_add(1);
        assert(key@[0] != avoid@[0]);
    }
    key
}

/// The security manager.
pub struct SecurityManager {
    config: SecurityConfig,
    device_certificate: Option<DeviceCertificate>,
    session_keys: Table<SessionKey>,
    dtls_config: DtlsSrtpConfig,
    tls_config: TlsConfig,
    security_events: Vec<SecurityEvent>,
    detected_threats: Vec<SecurityThreat>,
    key_rotation_config: KeyRotationConfig,
    threat_detection_config: ThreatDetectionConfig,
    replay_detection: Table<ReplayDetectionState>,
    failed_attempts: FailedAttemptTracker,
    trusted_certificates: Table<()>,
    revoked_certificates: Table<()>,
    old_session_keys: Table<Vec<OldKey>>,
}

impl SecurityManager {
    /// The manager's tables are well formed.
    pub closed spec fn wf(&self) -> bool {
        &&& self.session_keys.wf()
        &&& self.replay_detection.wf()
        &&& self.failed_attempts.wf()
        &&& self.trusted_certificates.wf()
        &&& self.revoked_certificates.wf()
        &&& self.old_session_keys.wf()
    }

    /// Current session keys by session.
    pub closed spec fn keys(&self) -> Map<Seq<char>, SessionKey> {
        self.session_keys@
    }

    /// Superseded keys by session, oldest first.
    pub closed spec fn old_keys(&self) -> Map<Seq<char>, Seq<OldKey>> {
        self.old_session_keys@.map_values(|v: Vec<OldKey>| v@)
    }

    /// Replay-detection state by session.
    pub closed spec fn replay_states(&self) -> Map<Seq<char>, ReplayDetectionState> {
        self.replay_detection@
    }

    /// Lockouts by identifier.
    pub closed spec fn lockouts(&self) -> Map<Seq<char>, u64> {
        self.failed_attempts.lockouts@
    }

    /// Recorded attempts by identifier.
    pub closed spec fn attempts(&self) -> FailedAttemptTracker {
        self.failed_attempts
    }

    /// Fingerprints of trusted certificates.
    pub closed spec fn trusted(&self) -> Set<Seq<char>> {
        self.trusted_certificates@.dom()
    }

    /// Fingerprints of revoked certificates.
    pub closed spec fn revoked(&self) -> Set<Seq<char>> {
        self.revoked_certificates@.dom()
    }

    /// Threats detected and not yet handed out, oldest first.
    pub closed spec fn pending_threats(&self) -> Seq<SecurityThreat> {
        self.detected_threats@
    }

    /// The security event log, oldest first.
    pub closed spec fn events_spec(&self) -> Seq<SecurityEvent> {
        self.security_events@
    }

    /// The configuration.
    pub closed spec fn config_spec(&self) -> SecurityConfig {
        self.config
    }

    /// The key rotation configuration.
    pub closed spec fn rotation_config_spec(&self) -> KeyRotationConfig {
        self.key_rotation_config
    }

    /// The threat detection configuration.
    pub closed spec fn threat_config_spec(&self) -> ThreatDetectionConfig {
        self.threat_detection_config
    }

    /// A manager with default configuration.
    pub fn new() -> (r: Self)
        ensures
            r.wf(),
            r.config_spec().enable_dtls_srtp && r.config_spec().enable_tls_signaling
                && r.config_spec().enable_file_encryption,
            r.config_spec().certificate_validation && r.config_spec().threat_detection_enabled,
            r.config_spec().key_rotation_interval == 3600,
            r.keys() == Map::<Seq<char>, SessionKey>::empty(),
            r.trusted() == Set::<Seq<char>>::empty(),
            r.revoked() == Set::<Seq<char>>::empty(),
            r.pending_threats() == Seq::<SecurityThreat>::empty(),
            r.threat_config_spec().detect_replay_attacks && r.threat_config_spec().detect_tampering
                && r.threat_config_spec().detect_brute_force,
            r.threat_config_spec().max_failed_attempts == 5,
            r.threat_config_spec().attempt_window_secs == 60,
            r.threat_config_spec().lockout_duration_secs == 300,
            r.rotation_config_spec().rotation_interval_secs == 3600,
            r.rotation_config_spec().auto_rotate,
            r.rotation_config_spec().grace_period_secs == 60,
            r.replay_states() == Map::<Seq<char>, ReplayDetectionState>::empty(),
            r.old_keys() == Map::<Seq<char>, Seq<OldKey>>::empty(),
            r.lockouts() == Map::<Seq<char>, u64>::empty(),
            r.attempts().attempts@ == Map::<Seq<char>, Vec<u64>>::empty(),
            r.events_spec().len() == 0,
    {
        Self::with_config(SecurityConfig::default())
    }

    /// A manager with the given configuration and defaults elsewhere.
    pub fn with_config(config: SecurityConfig) -> (r: Self)
        ensures
            r.wf(),
            r.config_spec() == config,
            r.keys() == Map::<Seq<char>, SessionKey>::empty(),
            r.trusted() == Set::<Seq<char>>::empty(),
            r.revoked() == Set::<Seq<char>>::empty(),
            r.pending_threats() == Seq::<SecurityThreat>::empty(),
            r.threat_config_spec().detect_replay_attacks && r.threat_config_spec().detect_tampering
                && r.threat_config_spec().detect_brute_force,
            r.threat_config_spec().max_failed_attempts == 5,
            r.threat_config_spec().attempt_window_secs == 60,
            r.threat_config_spec().lockout_duration_secs == 300,
            r.rotation_config_spec().rotation_interval_secs == 3600,
            r.rotation_config_spec().auto_rotate,
            r.rotation_config_spec().grace_period_secs == 60,
            r.replay_states() == Map::<Seq<char>, ReplayDetectionState>::empty(),
            r.old_keys() == Map::<Seq<char>, Seq<OldKey>>::empty(),
            r.lockouts() == Map::<Seq<char>, u64>::empty(),
            r.attempts().attempts@ == Map::<Seq<char>, Vec<u64>>::empty(),
            r.events_spec().len() == 0,
    {
        let r = SecurityManager {
            config,
            device_certificate: None,
            session_keys: Table::new(),
            dtls_config: DtlsSrtpConfig::default(),
            tls_config: TlsConfig::default(),
            security_events: Vec::new(),
            detected_threats: Vec::new(),
            key_rotation_config: KeyRotationConfig::default(),
            threat_detection_config: ThreatDetectionConfig::default(),
            replay_detection: Table::new(),
            failed_attempts: FailedAttemptTracker::new(),
            trusted_certificates: Table::new(),
            revoked_certificates: Table::new(),
            old_session_keys: Table::new(),
        };
        assert(r.trusted_certificates@.dom() =~= Set::<Seq<char>>::empty());
        assert(r.revoked_certificates@.dom() =~= Set::<Seq<char>>::empty());
        assert(r.old_keys() =~= Map::<Seq<char>, Seq<OldKey>>::empty());
        r
    }

    fn log_event(
        &mut self,
        event_type: SecurityEventType,
        session_id: Option<String>,
        device_id: Option<String>,
        details: &str,
        now: u64,
    )
        ensures
            final(self).security_events@.len() == old(self).security_events@.len() + 1,
            final(self).security_events@.last().event_type == event_type,
            final(self).config == old(self).config,
            final(self).device_certificate == old(self).device_certificate,
            final(self).session_keys == old(self).session_keys,
            final(self).detected_threats == old(self).detected_threats,
            final(self).key_rotation_config == old(self).key_rotation_config,
            final(self).threat_detection_config == old(self).threat_detection_config,
            final(self).replay_detection == old(self).replay_detection,
            final(self).failed_attempts == old(self).failed_attempts,
            final(self).trusted_certificates == old(self).trusted_certificates,
            final(self).revoked_certificates == old(self).revoked_certificates,
            final(self).old_session_keys == old(self).old_session_keys,
    {
        let event = SecurityEvent {
            timestamp: now,
            event_type,
            session_id,
            device_id,
            details: details.to_string(),
        };
        self.security_events.push(event);
    }

    /// Replaces the configuration.
    pub fn configure(&mut self, config: SecurityConfig, now: u64)
        requires
            old(self).wf(),
        ensures
            final(self).wf(),
            final(self).config_spec() == config,
            final(self).keys() == old(self).keys(),
    {
        self.config = config;
        self.log_event(SecurityEventType::EncryptionEnabled, None, None, "Security configuration updated", now);
    }

    /// The configuration.
    pub fn get_security_config(&self) -> (r: &SecurityConfig)
        ensures
            *r == self.config_spec(),
    {
        &self.config
    }

    /// The DTLS-SRTP configuration.
    pub fn get_dtls_config(&self) -> &DtlsSrtpConfig {
        &self.dtls_config
    }

    /// The TLS configuration.
    pub fn get_tls_config(&self) -> &TlsConfig {
        &self.tls_config
    }

    /// Replaces the DTLS-SRTP configuration.
    pub fn configure_dtls_srtp(&mut self, config: DtlsSrtpConfig)
        requires
            old(self).wf(),
        ensures
            final(self).wf(),
            final(self).keys() == old(self).keys(),
    {
        self.dtls_config = config;
    }

    /// Replaces the TLS configuration.
    pub fn configure_tls(&mut self, config: TlsConfig)
        requires
            old(self).wf(),
        ensures
            final(self).wf(),
            final(self).keys() == old(self).keys(),
    {
        self.tls_config = config;
    }

    /// Whether media streams are encrypted.
    pub fn is_dtls_srtp_enabled(&self) -> (r: bool)
        ensures
            r == self.config_spec().enable_dtls_srtp,
    {
        self.config.enable_dtls_srtp
    }

    /// Whether signaling payloads are encrypted.
    pub fn is_tls_signaling_enabled(&self) -> (r: bool)
        ensures
            r == self.config_spec().enable_tls_signaling,
    {
        self.config.enable_tls_signaling
    }

    /// Whether file transfers are encrypted.
    pub fn is_file_encryption_enabled(&self) -> (r: bool)
        ensures
            r == self.config_spec().enable_file_encryption,
    {
        self.config.enable_file_encryption
    }

    /// Replaces the key rotation configuration.
    pub fn configure_key_rotation(&mut self, config: KeyRotationConfig)
        requires
            old(self).wf(),
        ensures
            final(self).wf(),
            final(self).rotation_config_spec() == config,
            final(self).keys() == old(self).keys(),
    {
        self.key_rotation_config = config;
    }

    /// The key rotation configuration.
    pub fn get_key_rotation_config(&self) -> (r: &KeyRotationConfig)
        ensures
            *r == self.rotation_config_spec(),
    {
        &self.key_rotation_config
    }

    /// Replaces the threat detection configuration.
    pub fn configure_threat_detection(&mut self, config: ThreatDetectionConfig)
        requires
            old(self).wf(),
        ensures
            final(self).wf(),
            final(self).threat_config_spec() == config,
            final(self).keys() == old(self).keys(),
            final(self).lockouts() == old(self).lockouts(),
    {
        self.threat_detection_config = config;
    }

    /// The threat detection configuration.
    pub fn get_threat_detection_config(&self) -> (r: &ThreatDetectionConfig)
        ensures
            *r == self.threat_config_spec(),
    {
        &self.threat_detection_config
    }

    /// The security event log, oldest first.
    pub fn get_security_events(&self) -> &Vec<SecurityEvent> {
        &self.security_events
    }

    /// Empties the security event log.
    pub fn clear_security_events(&mut self)
        requires
            old(self).wf(),
        ensures
            final(self).wf(),
            final(self).keys() == old(self).keys(),
    {
        self.security_events = Vec::new();
    }

    /// Hands out the detected threats, oldest first, and forgets them.
    pub fn take_detected_threats(&mut self) -> (r: Vec<SecurityThreat>)
        requires
            old(self).wf(),
        ensures
            final(self).wf(),
            r@ == old(self).pending_threats(),
            final(self).pending_threats() == Seq::<SecurityThreat>::empty(),
            final(self).keys() == old(self).keys(),
    {
        let mut out: Vec<SecurityThreat> = Vec::new();
        std::mem::swap(&mut out, &mut self.detected_threats);
        out
    }

    /// Generates a fresh 256-bit session key for `session_id` and a fresh
    /// replay-detection state, replacing any earlier ones.
    pub fn generate_session_key(&mut self, session_id: &str, now: u64) -> (r: SessionKey)
        requires
            old(self).wf(),
        ensures
            final(self).wf(),
            r.rotation_count == 0,
            r.created_at == now && r.last_rotated_at == now,
            r.algorithm == EncryptionAlgorithm::Aes256Gcm,
            r.max_age_secs == old(self).rotation_config_spec().rotation_interval_secs,
            r.auto_rotate == old(self).rotation_config_spec().auto_rotate,
            final(self).keys() == old(self).keys().insert(session_id@, r),
            final(self).replay_states().contains_key(session_id@),
            final(self).replay_states()[session_id@].seen_nonces@.len() == 0,
            final(self).config_spec() == old(self).config_spec(),
            final(self).rotation_config_spec() == old(self).rotation_config_spec(),
            final(self).threat_config_spec() == old(self).threat_config_spec(),
            final(self).old_keys() == old(self).old_keys(),
    {
        let zero = [0u8; 32];
        let key = fresh_key_bytes(&zero);
        let session_key = SessionKey {
            key,
            created_at: now,
            rotation_count: 0,
            algorithm: EncryptionAlgorithm::Aes256Gcm,
            last_rotated_at: now,
            max_age_secs: self.key_rotation_config.rotation_interval_secs,
            auto_rotate: self.key_rotation_config.auto_rotate,
        };
        self.session_keys.insert(session_id.to_string(), session_key);
        self.replay_detection.insert(session_id.to_string(), ReplayDetectionState::new());
        self.log_event(
            SecurityEventType::SessionEstablished,
            Some(session_id.to_string()),
            None,
            "Session key generated",
            now,
        );
        session_key
    }

    /// Rotates the key of `session_id`: the current key is kept among the old
    /// keys until the grace period ends, and a fresh key that differs from it
    /// takes its place.
    ///
    /// Fails with `NotFound` for an unknown session, and with `Internal` when
    /// the rotation counter cannot grow any more.
    pub fn rotate_session_key(&mut self, session_id: &str, now: u64) -> (r: Result<SessionKey, CoreError>)
        requires
            old(self).wf(),
        ensures
            final(self).wf(),
            !old(self).keys().contains_key(session_id@) <==> r == Err::<SessionKey, CoreError>(CoreError::NotFound),
            (old(self).keys().contains_key(session_id@) && old(self).keys()[session_id@].rotation_count == u32::MAX)
                <==> r == Err::<SessionKey, CoreError>(CoreError::Internal),
            r is Ok <==> (old(self).keys().contains_key(session_id@) && old(self).keys()[session_id@].rotation_count < u32::MAX),
            r is Err ==> final(self).keys() == old(self).keys() && final(self).old_keys() == old(self).old_keys(),
            r matches Ok(k) ==> {
                &&& rotated_from(k, old(self).keys()[session_id@], now)
                &&& final(self).keys() == old(self).keys().insert(session_id@, k)
                &&& final(self).old_keys() == old(self).old_keys().insert(
                    session_id@,
                    (if old(self).old_keys().contains_key(session_id@) {
                        old(self).old_keys()[session_id@]
                    } else {
                        Seq::<OldKey>::empty()
                    }).push(OldKey {
                        key: old(self).keys()[session_id@],
                        expires_at: sat_add(now, old(self).rotation_config_spec().grace_period_secs),
                    }),
                )
            },
            final(self).config_spec() == old(self).config_spec(),
            final(self).rotation_config_spec() == old(self).rotation_config_spec(),
            final(self).threat_config_spec() == old(self).threat_config_spec(),
            final(self).replay_states() == old(self).replay_states(),
    {
        let existing = match self.session_keys.get(session_id) {
            Some(k) => *k,
            None => {
                return Err(CoreError::NotFound);
            },
        };
        if existing.rotation_count == u32::MAX {
            return Err(CoreError::Internal);
        }
        let grace_expiration = now.saturating_add(self.key_rotation_config.grace_period_secs);
        let mut olds: Vec<OldKey> = match self.old_session_keys.remove(session_id) {
            Some(v) => v,
            None => Vec::new(),
        };
        olds.push(OldKey { key: existing, expires_at: grace_expiration });
        self.old_session_keys.insert(session_id.to_string(), olds);
        let new_key = fresh_key_bytes(&existing.key);
        let rotated = SessionKey {
            key: new_key,
            last_rotated_at: now,
            rotation_count: existing.rotation_count + 1,
            ..existing
        };
        self.session_keys.insert(session_id.to_string(), rotated);
        self.log_event(
            SecurityEventType::KeyRotation,
            Some(session_id.to_string()),
            None,
            "Session key rotated",
            now,
        );
        proof {
            assert(self.old_keys() =~= old(self).old_keys().insert(
                session_id@,
                (if old(self).old_keys().contains_key(session_id@) {
                    old(self).old_keys()[session_id@]
                } else {
                    Seq::<OldKey>::empty()
                }).push(OldKey { key: existing, expires_at: grace_expiration }),
            ));
        }
        Ok(rotated)
    }

    /// Whether the key of `session_id` is due for rotation at `now`.
    pub fn needs_key_rotation(&self, session_id: &str, now: u64) -> (r: bool)
        requires
            self.wf(),
        ensures
            r == (self.keys().contains_key(session_id@) && key_due(self.keys()[session_id@], now)),
    {
        match self.session_keys.get(session_id) {
            Some(k) => k.auto_rotate && now >= k.last_rotated_at && now - k.last_rotated_at >= k.max_age_secs,
            None => false,
        }
    }

    /// The current key of `session_id`.
    pub fn get_session_key(&self, session_id: &str) -> (r: Option<SessionKey>)
        requires
            self.wf(),
        ensures
            r matches Some(k) ==> self.keys().contains_key(session_id@) && k == self.keys()[session_id@],
            r is None <==> !self.keys().contains_key(session_id@),
    {
        match self.session_keys.get(session_id) {
            Some(k) => Some(*k),
            None => None,
        }
    }

    /// Drops the current and old keys and the replay state of `session_id`.
    pub fn remove_session_key(&mut self, session_id: &str, now: u64)
        requires
            old(self).wf(),
        ensures
            final(self).wf(),
            final(self).keys() == old(self).keys().remove(session_id@),
            final(self).old_keys() == old(self).old_keys().remove(session_id@),
            final(self).replay_states() == old(self).replay_states().remove(session_id@),
            final(self).config_spec() == old(self).config_spec(),
            final(self).threat_config_spec() == old(self).threat_config_spec(),
            final(self).lockouts() == old(self).lockouts(),
    {
        self.session_keys.remove(session_id);
        self.replay_detection.remove(session_id);
        self.old_session_keys.remove(session_id);
        self.log_event(
            SecurityEventType::SessionTerminated,
            Some(session_id.to_string()),
            None,
            "Session key removed",
            now,
        );
        proof {
            assert(self.old_keys() =~= old(self).old_keys().remove(session_id@));
        }
    }

    fn encrypt_for_channel(&self, enabled: bool, session_id: &str, data: &[u8]) -> (r: Result<EncryptedData, CoreError>)
        requires
            self.wf(),
        ensures
            encrypted_as(self.keys(), enabled, session_id@, data@, r),
    {
        if !enabled {
            return Ok(EncryptedData {
                ciphertext: bytes_to_vec(data),
                nonce: Vec::new(),
                tag: Vec::new(),
                algorithm: EncryptionAlgorithm::Aes256Gcm,
                key_id: session_id.to_string(),
            });
        }
        let key = match self.session_keys.get(session_id) {
            Some(k) => *k,
            None => {
                return Err(CoreError::NotFound);
            },
        };
        encrypt_with_aes_gcm(key.key.as_slice(), data, session_id)
    }

    fn decrypt_for_channel(&self, enabled: bool, session_id: &str, encrypted: &EncryptedData, now: u64) -> (r: Result<
        Vec<u8>,
        CoreError,
    >)
        requires
            self.wf(),
        ensures
            decrypted_as(self.keys(), self.old_keys(), enabled, session_id@, *encrypted, now, r),
    {
        if !enabled {
            return Ok(bytes_to_vec(encrypted.ciphertext.as_slice()));
        }
        let key = match self.session_keys.get(session_id) {
            Some(k) => *k,
            None => {
                return Err(CoreError::NotFound);
            },
        };
        match decrypt_with_aes_gcm(key.key.as_slice(), encrypted) {
            Ok(p) => {
                return Ok(p);
            },
            Err(_) => {},
        }
        let ghost cur = key;
        match self.old_session_keys.get(session_id) {
            Some(olds) => {
                let mut i: usize = 0;
                while i < olds.len()
                    invariant
                        i <= olds@.len(),
                        enabled,
                        olds@ == self.old_keys()[session_id@],
                        old_keys_of(self.old_keys(), session_id@) == olds@,
                        self.old_keys().contains_key(session_id@),
                        self.keys().contains_key(session_id@),
                        key == self.keys()[session_id@],
                        forall|p: Seq<u8>| !#[trigger] opens_to(key.key@, *encrypted, p),
                        forall|j: int, p: Seq<u8>|
                            0 <= j < i && old_key_live(olds@[j], now) ==> !#[trigger] opens_to(
                                olds@[j].key.key@,
                                *encrypted,
                                p,
                            ),
                    decreases olds@.len() - i,
                {
                    let old_key = olds[i];
                    if old_key.expires_at > now {
                        match decrypt_with_aes_gcm(old_key.key.key.as_slice(), encrypted) {
                            Ok(p) => {
                                assert(old_keys_of(self.old_keys(), session_id@)[i as int] == olds@[i as int]);
                                assert(old_key_live(old_keys_of(self.old_keys(), session_id@)[i as int], now));
                                assert(opens_to(old_keys_of(self.old_keys(), session_id@)[i as int].key.key@, *encrypted, p@));
                                return Ok(p);
                            },
                            Err(_) => {},
                        }
                    }
                    i = i + 1;
                }
            },
            None => {},
        }
        Err(CoreError::DecryptError)
    }

    /// Encrypts a media payload of `session_id`, or wraps it unencrypted when
    /// media encryption is off.
    pub fn encrypt_media_stream(&self, session_id: &str, data: &[u8]) -> (r: Result<EncryptedData, CoreError>)
        requires
            self.wf(),
        ensures
            encrypted_as(self.keys(), self.config_spec().enable_dtls_srtp, session_id@, data@, r),
    {
        self.encrypt_for_channel(self.config.enable_dtls_srtp, session_id, data)
    }

    /// Decrypts a media payload of `session_id` at `now`.
    pub fn decrypt_media_stream(&self, session_id: &str, encrypted: &EncryptedData, now: u64) -> (r: Result<
        Vec<u8>,
        CoreError,
    >)
        requires
            self.wf(),
        ensures
            decrypted_as(self.keys(), self.old_keys(), self.config_spec().enable_dtls_srtp, session_id@, *encrypted, now, r),
    {
        self.decrypt_for_channel(self.config.enable_dtls_srtp, session_id, encrypted, now)
    }

    /// Encrypts file data of `session_id`, or wraps it unencrypted when file
    /// encryption is off.
    pub fn encrypt_file_data(&self, session_id: &str, data: &[u8]) -> (r: Result<EncryptedData, CoreError>)
        requires
            self.wf(),
        ensures
            encrypted_as(self.keys(), self.config_spec().enable_file_encryption, session_id@, data@, r),
    {
        self.encrypt_for_channel(self.config.enable_file_encryption, session_id, data)
    }

    /// Decrypts file data of `session_id` at `now`.
    pub fn decrypt_file_data(&self, session_id: &str, encrypted: &EncryptedData, now: u64) -> (r: Result<
        Vec<u8>,
        CoreError,
    >)
        requires
            self.wf(),
        ensures
            decrypted_as(
                self.keys(),
                self.old_keys(),
                self.config_spec().enable_file_encryption,
                session_id@,
                *encrypted,
                now,
                r,
            ),
    {
        self.decrypt_for_channel(self.config.enable_file_encryption, session_id, encrypted, now)
    }

    /// Encrypts a signaling payload of `session_id`, or wraps it unencrypted
    /// when signaling encryption is off.
    pub fn encrypt_signaling_data(&self, session_id: &str, data: &[u8]) -> (r: Result<EncryptedData, CoreError>)
        requires
            self.wf(),
        ensures
            encrypted_as(self.keys(), self.config_spec().enable_tls_signaling, session_id@, data@, r),
    {
        self.encrypt_for_channel(self.config.enable_tls_signaling, session_id, data)
    }

    /// Decrypts a signaling payload of `session_id` at `now`.
    pub fn decrypt_signaling_data(&self, session_id: &str, encrypted: &EncryptedData, now: u64) -> (r: Result<
        Vec<u8>,
        CoreError,
    >)
        requires
            self.wf(),
        ensures
            decrypted_as(
                self.keys(),
                self.old_keys(),
                self.config_spec().enable_tls_signaling,
                session_id@,
                *encrypted,
                now,
                r,
            ),
    {
        self.decrypt_for_channel(self.config.enable_tls_signaling, session_id, encrypted, now)
    }

    /// Drops the old keys whose grace period has ended at `now`, and the
    /// sessions left without old keys.
    pub fn cleanup_expired_old_keys(&mut self, now: u64)
        requires
            old(self).wf(),
        ensures
            final(self).wf(),
            forall|k: Seq<char>|
                #![trigger final(self).old_keys().contains_key(k)]
                final(self).old_keys().contains_key(k) <==> (old(self).old_keys().contains_key(k) && live_old_keys(
                    old(self).old_keys()[k],
                    now,
                ).len() > 0),
            forall|k: Seq<char>|
                #[trigger] final(self).old_keys().contains_key(k) ==> final(self).old_keys()[k] == live_old_keys(
                    old(self).old_keys()[k],
                    now,
                ),
            final(self).keys() == old(self).keys(),
            final(self).config_spec() == old(self).config_spec(),
            final(self).rotation_config_spec() == old(self).rotation_config_spec(),
            final(self).threat_config_spec() == old(self).threat_config_spec(),
            final(self).replay_states() == old(self).replay_states(),
    {
        let ids = self.old_session_keys.keys();
        let ghost orig = self.old_keys();
        proof {
            self.old_session_keys.lemma_keys();
            assert(string_views(ids@) == self.old_session_keys.key_seq());
        }
        let mut i: usize = 0;
        while i < ids.len()
            invariant
                self.wf(),
                i <= ids@.len(),
                string_views(ids@).no_duplicates(),
                forall|k: Seq<char>| orig.contains_key(k) <==> string_views(ids@).contains(k),
                forall|k: Seq<char>|
                    #![trigger self.old_keys().contains_key(k)]
                    string_views(ids@).subrange(0, i as int).contains(k) ==> (self.old_keys().contains_key(k)
                        <==> live_old_keys(orig[k], now).len() > 0),
                forall|k: Seq<char>|
                    #![trigger self.old_keys().contains_key(k)]
                    string_views(ids@).subrange(0, i as int).contains(k) && self.old_keys().contains_key(k)
                        ==> self.old_keys()[k] == live_old_keys(orig[k], now),
                forall|k: Seq<char>|
                    #![trigger self.old_keys().contains_key(k)]
                    !string_views(ids@).subrange(0, i as int).contains(k) ==> (self.old_keys().contains_key(k)
                        <==> orig.contains_key(k)),
                forall|k: Seq<char>|
                    #![trigger self.old_keys().contains_key(k)]
                    !string_views(ids@).subrange(0, i as int).contains(k) && orig.contains_key(k)
                        ==> self.old_keys()[k] == orig[k],
                self.session_keys == old(self).session_keys,
                self.config == old(self).config,
                self.key_rotation_config == old(self).key_rotation_config,
                self.threat_detection_config == old(self).threat_detection_config,
                self.replay_detection == old(self).replay_detection,
            decreases ids@.len() - i,
        {
            let id = ids[i].as_str();
            let ghost kv = string_views(ids@);
            let ghost k = id@;
            proof {
                assert(kv[i as int] == k);
                assert(kv.contains(k));
                lemma_prefix_unique(kv, i as int);
                assert(self.old_keys().contains_key(k));
            }
            let ghost prev = self.old_keys();
            let list = self.old_session_keys.remove(id).unwrap();
            let mut kept: Vec<OldKey> = Vec::new();
            let mut j: usize = 0;
            while j < list.len()
                invariant
                    j <= list@.len(),
                    kept@ == live_old_keys(list@.subrange(0, j as int), now),
                decreases list@.len() - j,
            {
                proof {
                    assert(list@.subrange(0, j + 1).drop_last() =~= list@.subrange(0, j as int));
                }
                if list[j].expires_at > now {
                    kept.push(list[j]);
                }
                j = j + 1;
            }
            assert(list@.subrange(0, list@.len() as int) =~= list@);
            let ghost kept_view = kept@;
            if kept.len() > 0 {
                self.old_session_keys.insert(ids[i].clone(), kept);
                assert(self.old_keys() =~= prev.insert(k, kept_view));
            } else {
                assert(self.old_keys() =~= prev.remove(k));
            }
            proof {
                lemma_prefix_extend(kv, i as int);
            }
            i = i + 1;
        }
        proof {
            let kv = string_views(ids@);
            assert(kv.subrange(0, ids@.len() as int) =~= kv);
        }
    }

    /// Rotates every key that is due at `now`, then drops the old keys whose
    /// grace period has ended. Returns the sessions whose key was rotated.
    pub fn auto_rotate_expired_keys(&mut self, now: u64) -> (r: Vec<String>)
        requires
            old(self).wf(),
        ensures
            final(self).wf(),
            forall|k: Seq<char>|
                #![trigger final(self).keys().contains_key(k)]
                final(self).keys().contains_key(k) <==> old(self).keys().contains_key(k),
            forall|k: Seq<char>|
                #![trigger final(self).keys().contains_key(k)]
                old(self).keys().contains_key(k) && rotatable(old(self).keys()[k], now) ==> rotated_from(
                    final(self).keys()[k],
                    old(self).keys()[k],
                    now,
                ),
            forall|k: Seq<char>|
                #![trigger final(self).keys().contains_key(k)]
                old(self).keys().contains_key(k) && !rotatable(old(self).keys()[k], now) ==> final(self).keys()[k]
                    == old(self).keys()[k],
            string_views(r@).no_duplicates(),
            forall|k: Seq<char>|
                string_views(r@).contains(k) <==> (old(self).keys().contains_key(k) && rotatable(
                    old(self).keys()[k],
                    now,
                )),
            forall|k: Seq<char>|
                #[trigger] final(self).old_keys().contains_key(k) ==> (forall|j: int|
                    0 <= j < final(self).old_keys()[k].len() ==> old_key_live(#[trigger] final(self).old_keys()[k][j], now)),
            final(self).config_spec() == old(self).config_spec(),
            final(self).rotation_config_spec() == old(self).rotation_config_spec(),
            final(self).threat_config_spec() == old(self).threat_config_spec(),
    {
        let ids = self.session_keys.keys();
        let ghost orig = self.keys();
        proof {
            self.session_keys.lemma_keys();
        }
        let mut rotated: Vec<String> = Vec::new();
        let mut i: usize = 0;
        while i < ids.len()
            invariant
                self.wf(),
                i <= ids@.len(),
                string_views(ids@).no_duplicates(),
                forall|k: Seq<char>| orig.contains_key(k) <==> string_views(ids@).contains(k),
                forall|k: Seq<char>| #[trigger] self.keys().contains_key(k) <==> orig.contains_key(k),
                forall|k: Seq<char>|
                    #[trigger] orig.contains_key(k) ==> (if string_views(ids@).subrange(
                        0,
                        i as int,
                    ).contains(k) && rotatable(orig[k], now) {
                        rotated_from(self.keys()[k], orig[k], now)
                    } else {
                        self.keys()[k] == orig[k]
                    }),
                string_views(rotated@).no_duplicates(),
                forall|k: Seq<char>|
                    string_views(rotated@).contains(k) <==> (string_views(ids@).subrange(
                        0,
                        i as int,
                    ).contains(k) && rotatable(orig[k], now)),
                self.config == old(self).config,
                self.key_rotation_config == old(self).key_rotation_config,
                self.threat_detection_config == old(self).threat_detection_config,
            decreases ids@.len() - i,
        {
            let ghost kv = string_views(ids@);
            let ghost k = ids@[i as int]@;
            let ghost before = string_views(rotated@);
            proof {
                assert(kv[i as int] == k);
                assert(kv.contains(k));
                lemma_prefix_unique(kv, i as int);
                assert(orig.contains_key(k));
                assert(self.keys().contains_key(k));
                assert(self.keys()[k] == orig[k]);
                lemma_prefix_extend(kv, i as int);
            }
            let id = ids[i].as_str();
            let ghost prevk = self.keys();
            let ghost mut did = false;
            if self.needs_key_rotation(id, now) {
                match self.rotate_session_key(id, now) {
                    Ok(nk) => {
                        rotated.push(ids[i].clone());
                        proof {
                            assert(string_views(rotated@) =~= before.push(k));
                            lemma_push_contains(before, k);
                            lemma_push_no_duplicates(before, k);
                            did = true;
                            assert(self.keys() == prevk.insert(k, nk));
                            assert(rotatable(orig[k], now));
                        }
                    },
                    Err(_) => {
                        assert(self.keys() == prevk);
                        assert(!rotatable(orig[k], now));
                    },
                }
            } else {
                assert(!rotatable(orig[k], now));
            }
            proof {
                assert(did ==> string_views(rotated@) == before.push(k) && rotatable(orig[k], now));
                assert(!did ==> string_views(rotated@) == before && !rotatable(orig[k], now));
                assert(kv.subrange(0, i + 1).contains(k));
                assert(!before.contains(k));
                assert forall|k2: Seq<char>| #[trigger] orig.contains_key(k2) implies (if kv.subrange(
                    0,
                    i + 1,
                ).contains(k2) && rotatable(orig[k2], now) {
                    rotated_from(self.keys()[k2], orig[k2], now)
                } else {
                    self.keys()[k2] == orig[k2]
                }) by {
                    if k2 != k {
                        assert(self.keys()[k2] == prevk[k2]);
                        assert(kv.subrange(0, i + 1).contains(k2) == kv.subrange(0, i as int).contains(k2));
                    }
                }
                assert forall|k2: Seq<char>| string_views(rotated@).contains(k2) <==> (kv.subrange(
                    0,
                    i + 1,
                ).contains(k2) && rotatable(orig[k2], now)) by {
                    if k2 != k {
                        assert(kv.subrange(0, i + 1).contains(k2) == kv.subrange(0, i as int).contains(k2));
                    }
                }
            }
            i = i + 1;
        }
        proof {
            let kv = string_views(ids@);
            assert(kv.subrange(0, ids@.len() as int) =~= kv);
            assert forall|k: Seq<char>| string_views(rotated@).contains(k) <==> (orig.contains_key(k)
                && rotatable(orig[k], now)) by {
                if orig.contains_key(k) {
                    assert(kv.contains(k));
                }
            }
        }
        let ghost mid = self.old_keys();
        self.cleanup_expired_old_keys(now);
        proof {
            assert forall|k: Seq<char>| #[trigger] self.old_keys().contains_key(k) implies (forall|j: int|
                0 <= j < self.old_keys()[k].len() ==> old_key_live(#[trigger] self.old_keys()[k][j], now)) by {
                lemma_live_old_keys(mid[k], now);
            }
        }
        rotated
    }
}

/// The old keys of `s` whose grace period has not ended at `now`, in order.
pub open spec fn live_old_keys(s: Seq<OldKey>, now: u64) -> Seq<OldKey>
    decreases s.len(),
{
    if s.len() == 0 {
        seq![]
    } else {
        let rest = live_old_keys(s.drop_last(), now);
        if old_key_live(s.last(), now) {
            rest.push(s.last())
        } else {
            rest
        }
    }
}

proof fn lemma_live_old_keys(s: Seq<OldKey>, now: u64)
    ensures
        forall|j: int| 0 <= j < live_old_keys(s, now).len() ==> old_key_live(#[trigger] live_old_keys(s, now)[j], now),
    decreases s.len(),
{
    if s.len() > 0 {
        lemma_live_old_keys(s.drop_last(), now);
        let rest = live_old_keys(s.drop_last(), now);
        if old_key_live(s.last(), now) {
            assert forall|j: int| 0 <= j < rest.len() + 1 implies old_key_live(#[trigger] rest.push(s.last())[j], now) by {
                if j < rest.len() {
                    assert(rest.push(s.last())[j] == rest[j]);
                }
            }
        }
    }
}

/// What encrypting `data` for `session` yields: the plaintext wrapped as is
/// when the channel's encryption is off; `NotFound` without a session key;
/// otherwise what `encrypt_with_aes_gcm` yields under the session key.
pub open spec fn encrypted_as(
    keys: Map<Seq<char>, SessionKey>,
    enabled: bool,
    session: Seq<char>,
    data: Seq<u8>,
    r: Result<EncryptedData, CoreError>,
) -> bool {
    if !enabled {
        r matches Ok(e) && e.ciphertext@ == data && e.nonce@.len() == 0 && e.tag@.len() == 0 && e.key_id@ == session
            && e.algorithm == EncryptionAlgorithm::Aes256Gcm
    } else if !keys.contains_key(session) {
        r == Err::<EncryptedData, CoreError>(CoreError::NotFound)
    } else {
        &&& (data.len() <= GCM_MAX_PLAINTEXT <==> r is Ok)
        &&& (r matches Err(e) ==> e == CoreError::EncryptError)
        &&& (r matches Ok(e) ==> {
            &&& e.nonce@.len() == GCM_NONCE_LEN
            &&& e.tag@.len() == GCM_TAG_LEN
            &&& e.ciphertext@.len() == data.len()
            &&& e.key_id@ == session
            &&& e.algorithm == EncryptionAlgorithm::Aes256Gcm
            &&& opens_to(keys[session].key@, e, data)
        })
    }
}

/// On every channel, with encryption on or off, decrypting what was
/// encrypted for the same session, under the same keys, gives the data back.
pub proof fn lemma_channel_round_trip(
    keys: Map<Seq<char>, SessionKey>,
    olds: Map<Seq<char>, Seq<OldKey>>,
    enabled: bool,
    session: Seq<char>,
    data: Seq<u8>,
    e: EncryptedData,
    now: u64,
    r: Result<Vec<u8>, CoreError>,
)
    requires
        encrypted_as(keys, enabled, session, data, Ok(e)),
        decrypted_as(keys, olds, enabled, session, e, now, r),
    ensures
        r matches Ok(p) && p@ == data,
{
    if enabled {
        assert(opens_to(keys[session].key@, e, data));
    }
}

/// The old keys of `session`, oldest first.
pub open spec fn old_keys_of(olds: Map<Seq<char>, Seq<OldKey>>, session: Seq<char>) -> Seq<OldKey> {
    if olds.contains_key(session) {
        olds[session]
    } else {
        Seq::<OldKey>::empty()
    }
}

/// What decrypting `e` for `session` at `now` yields: the cipher text as is
/// when the channel's encryption is off; `NotFound` without a session key;
/// otherwise a plaintext that the current key, or an old key still in its
/// grace period, opens the envelope to, and `DecryptError` when none does.
pub open spec fn decrypted_as(
    keys: Map<Seq<char>, SessionKey>,
    olds: Map<Seq<char>, Seq<OldKey>>,
    enabled: bool,
    session: Seq<char>,
    e: EncryptedData,
    now: u64,
    r: Result<Vec<u8>, CoreError>,
) -> bool {
    if !enabled {
        r matches Ok(p) && p@ == e.ciphertext@
    } else if !keys.contains_key(session) {
        r == Err::<Vec<u8>, CoreError>(CoreError::NotFound)
    } else {
        let live = old_keys_of(olds, session);
        &&& (forall|p: Seq<u8>| #[trigger] opens_to(keys[session].key@, e, p) ==> (r matches Ok(q) && q@ == p))
        &&& (r matches Ok(p) ==> (opens_to(keys[session].key@, e, p@) || exists|j: int|
            0 <= j < live.len() && old_key_live(live[j], now) && opens_to(#[trigger] live[j].key.key@, e, p@)))
        &&& (r matches Err(err) ==> err == CoreError::DecryptError)
        &&& (r is Err ==> forall|j: int, p: Seq<u8>|
            0 <= j < live.len() && old_key_live(live[j], now) ==> !#[trigger] opens_to(live[j].key.key@, e, p))
    }
}




/// Whether `data` matches the expected SHA-256 digest.
pub open spec fn integrity_holds(data: Seq<u8>, expected: Seq<u8>) -> bool {
    sha256_of(data) == expected
}

/// Data always matches its own digest, and other data matches it exactly
/// when the two digests coincide.
pub proof fn lemma_integrity(data: Seq<u8>, other: Seq<u8>)
    ensures
        integrity_holds(data, sha256_of(data)),
        integrity_holds(other, sha256_of(data)) <==> sha256_of(other) == sha256_of(data),
{
}

/// Why a certificate failed validation.
#[derive(Debug, Clone, Copy, PartialEq, Eq, Structural)]
pub enum CertificateValidationError {
    Expired,
    NotYetValid,
    FingerprintMismatch,
    SignatureInvalid,
    Revoked,
    IssuerNotTrusted,
    ChainBroken,
}

/// The outcome of validating a certificate.
#[derive(Debug, Clone)]
pub struct CertificateValidationResult {
    pub is_valid: bool,
    pub device_id: String,
    pub validation_errors: Vec<CertificateValidationError>,
    /// Seconds since the Unix epoch.
    pub validated_at: i64,
}

/// Seconds in the validity period of a generated certificate (365 days).
pub const CERTIFICATE_VALIDITY_SECS: i64 = 31_536_000;

/// The text that a certificate's signature covers:
/// `device_id:hex(public_key):valid_from:valid_until`.
pub open spec fn certificate_text(c: DeviceCertificate) -> Seq<char> {
    c.device_id@ + seq![':'] + hex_of(c.public_key@) + seq![':'] + c.valid_from@ + seq![':'] + c.valid_until@
}

/// The fingerprint of a key pair: hexadecimal SHA-256 of the public key
/// followed by the verifying key.
pub open spec fn fingerprint_of(public_key: Seq<u8>, verifying_key: Seq<u8>) -> Seq<char> {
    hex_of(sha256_of(public_key + verifying_key))
}

/// Whether the certificate's signature verifies over its canonical text.
pub open spec fn signature_holds(c: DeviceCertificate) -> bool {
    &&& c.verifying_key@.len() == 32
    &&& c.signature@.len() == 64
    &&& ed25519_verifies(c.verifying_key@, vstd::utf8::encode_utf8(certificate_text(c)), c.signature@)
}

/// `seq![e]` when `cond` holds, else the empty sequence.
pub open spec fn error_if(cond: bool, e: CertificateValidationError) -> Seq<CertificateValidationError> {
    if cond {
        seq![e]
    } else {
        seq![]
    }
}

/// The validation errors of a certificate, in the order the checks run.
pub open spec fn certificate_errors(
    c: DeviceCertificate,
    revoked: Set<Seq<char>>,
    trusted: Set<Seq<char>>,
    valid_from: i64,
    valid_until: i64,
    now: i64,
) -> Seq<CertificateValidationError> {
    error_if(c.revoked, CertificateValidationError::Revoked)
        + error_if(revoked.contains(c.fingerprint@), CertificateValidationError::Revoked)
        + error_if(valid_until < now, CertificateValidationError::Expired)
        + error_if(valid_from > now, CertificateValidationError::NotYetValid)
        + error_if(fingerprint_of(c.public_key@, c.verifying_key@) != c.fingerprint@, CertificateValidationError::FingerprintMismatch)
        + error_if(!signature_holds(c), CertificateValidationError::SignatureInvalid)
        + error_if(
        c.issuer_fingerprint is Some && !trusted.contains(c.issuer_fingerprint->0@),
        CertificateValidationError::IssuerNotTrusted,
    )
}

fn push_if(v: &mut Vec<CertificateValidationError>, cond: bool, e: CertificateValidationError)
    ensures
        final(v)@ == old(v)@ + error_if(cond, e),
{
    if cond {
        v.push(e);
    }
    assert(final(v)@ =~= old(v)@ + error_if(cond, e));
}

fn threat_to_error(threat: SecurityThreat) -> (r: CoreError)
    ensures
        r == threat_error(threat),
{
    match threat {
        SecurityThreat::InvalidCertificate => CoreError::CertificateInvalid,
        SecurityThreat::EncryptionFailure => CoreError::EncryptError,
        SecurityThreat::UnauthorizedAccess => CoreError::Unauthorized,
        SecurityThreat::ManInTheMiddle => CoreError::MitmDetected,
        SecurityThreat::KeyCompromise => CoreError::Unauthorized,
        SecurityThreat::ReplayAttack => CoreError::ReplayDetected,
        SecurityThreat::TamperingDetected => CoreError::TamperDetected,
    }
}

impl DeviceCertificate {
    /// A field-by-field copy.
    pub fn duplicate(&self) -> (r: Self)
        ensures
            same_certificate(r, *self),
    {
        DeviceCertificate {
            device_id: self.device_id.clone(),
            certificate: bytes_to_vec(self.certificate.as_slice()),
            private_key: bytes_to_vec(self.private_key.as_slice()),
            public_key: bytes_to_vec(self.public_key.as_slice()),
            valid_from: self.valid_from.clone(),
            valid_until: self.valid_until.clone(),
            fingerprint: self.fingerprint.clone(),
            signing_key: match &self.signing_key {
                Some(k) => Some(bytes_to_vec(k.as_slice())),
                None => None,
            },
            verifying_key: bytes_to_vec(self.verifying_key.as_slice()),
            signature: bytes_to_vec(self.signature.as_slice()),
            issuer_fingerprint: match &self.issuer_fingerprint {
                Some(f) => Some(f.clone()),
                None => None,
            },
            revoked: self.revoked,
        }
    }
}

/// Two certificates hold the same contents.
pub open spec fn same_certificate(a: DeviceCertificate, b: DeviceCertificate) -> bool {
    &&& a.device_id@ == b.device_id@
    &&& a.certificate@ == b.certificate@
    &&& a.private_key@ == b.private_key@
    &&& a.public_key@ == b.public_key@
    &&& a.valid_from@ == b.valid_from@
    &&& a.valid_until@ == b.valid_until@
    &&& a.fingerprint@ == b.fingerprint@
    &&& (a.signing_key is Some <==> b.signing_key is Some)
    &&& (a.signing_key is Some ==> a.signing_key->0@ == b.signing_key->0@)
    &&& a.verifying_key@ == b.verifying_key@
    &&& a.signature@ == b.signature@
    &&& (a.issuer_fingerprint is Some <==> b.issuer_fingerprint is Some)
    &&& (a.issuer_fingerprint is Some ==> a.issuer_fingerprint->0@ == b.issuer_fingerprint->0@)
    &&& a.revoked == b.revoked
}

impl SecurityManager {
    /// The device's own certificate, if one was generated.
    pub closed spec fn certificate_spec(&self) -> Option<DeviceCertificate> {
        self.device_certificate
    }

    /// Reports a threat: when detection is on, records it for the threat
    /// listeners and fails with the threat's error; otherwise succeeds.
    pub fn detect_security_threat(&mut self, threat: SecurityThreat, now: u64) -> (r: Result<(), CoreError>)
        requires
            old(self).wf(),
        ensures
            final(self).wf(),
            !old(self).config_spec().threat_detection_enabled ==> r is Ok && final(self).pending_threats()
                == old(self).pending_threats(),
            old(self).config_spec().threat_detection_enabled ==> r == Err::<(), CoreError>(threat_error(threat))
                && final(self).pending_threats() == old(self).pending_threats().push(threat),
            old(self).config_spec().threat_detection_enabled ==> final(self).events_spec().len() == old(
                self).events_spec().len() + 1 && final(self).events_spec().last().event_type
                == SecurityEventType::ThreatDetected,
            !old(self).config_spec().threat_detection_enabled ==> final(self).events_spec() == old(self).events_spec(),
            final(self).keys() == old(self).keys(),
            final(self).old_keys() == old(self).old_keys(),
            final(self).replay_states() == old(self).replay_states(),
            final(self).attempts() == old(self).attempts(),
            final(self).trusted() == old(self).trusted(),
            final(self).revoked() == old(self).revoked(),
            final(self).certificate_spec() == old(self).certificate_spec(),
            final(self).config_spec() == old(self).config_spec(),
            final(self).threat_config_spec() == old(self).threat_config_spec(),
            final(self).rotation_config_spec() == old(self).rotation_config_spec(),
    {
        if !self.config.threat_detection_enabled {
            return Ok(());
        }
        self.log_event(SecurityEventType::ThreatDetected, None, None, "Security threat detected", now);
        self.detected_threats.push(threat);
        Err(threat_to_error(threat))
    }

    /// Checks a nonce of `session_id` at `now` against the nonces seen
    /// recently; returns whether it is a replay. A session without replay
    /// state gets a fresh one.
    pub fn detect_replay_attack(&mut self, session_id: &str, nonce: &[u8], now: u64) -> (replayed: bool)
        requires
            old(self).wf(),
        ensures
            final(self).wf(),
            ({
                let st = replay_state_of(old(self).replay_states(), session_id@);
                let live = live_nonces(st.0, now, st.1);
                let enabled = old(self).threat_config_spec().detect_replay_attacks;
                &&& replayed == (enabled && nonces_of(live).contains(nonce@))
                &&& enabled ==> final(self).replay_states().contains_key(session_id@)
                    && final(self).replay_states()[session_id@].nonce_expiration_secs == st.1
                    && final(self).replay_states()[session_id@].max_nonces == st.2
                &&& replayed ==> final(self).replay_states()[session_id@].seen_nonces@ == live
                &&& enabled && !replayed ==> {
                    let after = final(self).replay_states()[session_id@].seen_nonces@;
                    &&& after.len() > 0
                    &&& after == after_record(live, st.2).push(after.last())
                    &&& after.last().nonce@ == nonce@
                    &&& after.last().seen_at == now
                }
                &&& !enabled ==> final(self).replay_states() == old(self).replay_states()
            }),
            !replayed ==> final(self).pending_threats() == old(self).pending_threats() && final(self).events_spec()
                == old(self).events_spec(),
            replayed && old(self).config_spec().threat_detection_enabled ==> final(self).pending_threats() == old(
                self).pending_threats().push(SecurityThreat::ReplayAttack) && final(self).events_spec().len() == old(
                self).events_spec().len() + 1 && final(self).events_spec().last().event_type
                == SecurityEventType::ThreatDetected,
            replayed && !old(self).config_spec().threat_detection_enabled ==> final(self).pending_threats() == old(
                self).pending_threats(),
            final(self).keys() == old(self).keys(),
            final(self).old_keys() == old(self).old_keys(),
            final(self).attempts() == old(self).attempts(),
            final(self).config_spec() == old(self).config_spec(),
            final(self).threat_config_spec() == old(self).threat_config_spec(),
    {
        if !self.threat_detection_config.detect_replay_attacks {
            return false;
        }
        let mut state = match self.replay_detection.remove(session_id) {
            Some(st) => st,
            None => ReplayDetectionState::new(),
        };
        let replayed = state.check_and_record(nonce, now);
        self.replay_detection.insert(session_id.to_string(), state);
        if replayed {
            let _ = self.detect_security_threat(SecurityThreat::ReplayAttack, now);
        }
        replayed
    }

    /// Whether `data` fails to match `expected_hash` while tampering
    /// detection is on; a mismatch is reported as a threat.
    pub fn detect_tampering(&mut self, data: &[u8], expected_hash: &[u8], now: u64) -> (tampered: bool)
        requires
            old(self).wf(),
        ensures
            final(self).wf(),
            tampered == (old(self).threat_config_spec().detect_tampering && !integrity_holds(data@, expected_hash@)),
            final(self).keys() == old(self).keys(),
            final(self).old_keys() == old(self).old_keys(),
            final(self).replay_states() == old(self).replay_states(),
            final(self).attempts() == old(self).attempts(),
            final(self).config_spec() == old(self).config_spec(),
            final(self).threat_config_spec() == old(self).threat_config_spec(),
    {
        if !self.threat_detection_config.detect_tampering {
            return false;
        }
        if !self.verify_integrity(data, expected_hash) {
            let _ = self.detect_security_threat(SecurityThreat::TamperingDetected, now);
            return true;
        }
        false
    }

    /// Records a failed authentication attempt of `identifier` at `now` and
    /// returns whether it is locked out (see `FailedAttemptTracker::record_failure`).
    /// Does nothing and returns `false` while brute-force detection is off.
    pub fn track_failed_attempt(&mut self, identifier: &str, now: u64) -> (locked: bool)
        requires
            old(self).wf(),
        ensures
            final(self).wf(),
            !old(self).threat_config_spec().detect_brute_force ==> !locked && final(self).attempts() == old(self).attempts(),
            old(self).threat_config_spec().detect_brute_force && locked_at(old(self).lockouts(), identifier@, now)
                ==> locked && final(self).attempts().attempts@ == old(self).attempts().attempts@ && final(self).lockouts()
                == old(self).lockouts(),
            old(self).threat_config_spec().detect_brute_force && !locked_at(old(self).lockouts(), identifier@, now)
                ==> ({
                let cfg = old(self).threat_config_spec();
                let counted = recent_attempts(old(self).attempts().attempts_of(identifier@), now, cfg.attempt_window_secs).push(
                    now,
                );
                &&& locked == (counted.len() >= cfg.max_failed_attempts)
                &&& final(self).attempts().attempts@.remove(identifier@) == old(self).attempts().attempts@.remove(identifier@)
                &&& final(self).attempts().attempts@.contains_key(identifier@)
                &&& locked ==> final(self).attempts().attempts@[identifier@]@ == Seq::<u64>::empty()
                &&& locked ==> final(self).lockouts() == old(self).lockouts().insert(
                    identifier@,
                    sat_add(now, cfg.lockout_duration_secs),
                )
                &&& !locked ==> final(self).attempts().attempts@[identifier@]@ == counted
                &&& !locked ==> final(self).lockouts() == old(self).lockouts().remove(identifier@)
            }),
            ({
                let fresh_lockout = old(self).threat_config_spec().detect_brute_force && !locked_at(
                    old(self).lockouts(),
                    identifier@,
                    now,
                ) && locked;
                &&& fresh_lockout && old(self).config_spec().threat_detection_enabled ==> final(self).pending_threats()
                    == old(self).pending_threats().push(SecurityThreat::UnauthorizedAccess) && final(
                    self).events_spec().len() == old(self).events_spec().len() + 1 && final(
                    self).events_spec().last().event_type == SecurityEventType::ThreatDetected
                &&& !(fresh_lockout && old(self).config_spec().threat_detection_enabled) ==> final(self).pending_threats()
                    == old(self).pending_threats() && final(self).events_spec() == old(self).events_spec()
            }),
            final(self).keys() == old(self).keys(),
            final(self).config_spec() == old(self).config_spec(),
            final(self).threat_config_spec() == old(self).threat_config_spec(),
    {
        if !self.threat_detection_config.detect_brute_force {
            return false;
        }
        let was_locked = self.failed_attempts.is_locked_out(identifier, now);
        let locked = self.failed_attempts.record_failure(
            identifier,
            now,
            self.threat_detection_config.attempt_window_secs,
            self.threat_detection_config.max_failed_attempts,
            self.threat_detection_config.lockout_duration_secs,
        );
        if locked && !was_locked {
            let _ = self.detect_security_threat(SecurityThreat::UnauthorizedAccess, now);
        }
        locked
    }

    /// Whether `identifier` is locked out at `now`.
    pub fn is_locked_out(&self, identifier: &str, now: u64) -> (r: bool)
        requires
            self.wf(),
        ensures
            r == locked_at(self.lockouts(), identifier@, now),
    {
        self.failed_attempts.is_locked_out(identifier, now)
    }

    /// Forgets the failed attempts and the lockout of `identifier`.
    pub fn clear_failed_attempts(&mut self, identifier: &str)
        requires
            old(self).wf(),
        ensures
            final(self).wf(),
            final(self).attempts().attempts@ == old(self).attempts().attempts@.remove(identifier@),
            final(self).lockouts() == old(self).lockouts().remove(identifier@),
            final(self).keys() == old(self).keys(),
            final(self).threat_config_spec() == old(self).threat_config_spec(),
    {
        self.failed_attempts.clear(identifier);
    }

    /// Checks incoming data of `session_id` for a replayed nonce, then for
    /// tampering. On either threat the session's keys and replay state are
    /// dropped, since the session is to be terminated.
    pub fn security_check(&mut self, session_id: &str, nonce: &[u8], data: &[u8], hash: &[u8], now: u64) -> (r: Result<
        (),
        CoreError,
    >)
        requires
            old(self).wf(),
        ensures
            final(self).wf(),
            ({
                let (seen, exp) = if old(self).replay_states().contains_key(session_id@) {
                    (
                        old(self).replay_states()[session_id@].seen_nonces@,
                        old(self).replay_states()[session_id@].nonce_expiration_secs,
                    )
                } else {
                    (Seq::<SeenNonce>::empty(), 300u64)
                };
                let replay = old(self).threat_config_spec().detect_replay_attacks && nonces_of(
                    live_nonces(seen, now, exp),
                ).contains(nonce@);
                let tamper = old(self).threat_config_spec().detect_tampering && !integrity_holds(data@, hash@);
                &&& replay ==> r == Err::<(), CoreError>(CoreError::ReplayDetected)
                &&& !replay && tamper ==> r == Err::<(), CoreError>(CoreError::TamperDetected)
                &&& !replay && !tamper ==> r is Ok
            }),
            r is Err ==> final(self).keys() == old(self).keys().remove(session_id@) && !final(self).replay_states().contains_key(session_id@),
            r is Ok ==> final(self).keys() == old(self).keys(),
            r is Ok && old(self).threat_config_spec().detect_replay_attacks ==> final(self).replay_states().contains_key(
                session_id@) && final(self).replay_states()[session_id@].seen_nonces@.len() > 0 && final(
                self).replay_states()[session_id@].seen_nonces@.last().nonce@ == nonce@ && final(
                self).replay_states()[session_id@].seen_nonces@.last().seen_at == now,
            final(self).config_spec() == old(self).config_spec(),
            final(self).threat_config_spec() == old(self).threat_config_spec(),
    {
        if self.detect_replay_attack(session_id, nonce, now) {
            self.remove_session_key(session_id, now);
            return Err(CoreError::ReplayDetected);
        }
        if self.detect_tampering(data, hash, now) {
            self.remove_session_key(session_id, now);
            return Err(CoreError::TamperDetected);
        }
        Ok(())
    }

    /// Whether `data` matches the SHA-256 digest `expected_hash`.
    pub fn verify_integrity(&self, data: &[u8], expected_hash: &[u8]) -> (r: bool)
        ensures
            r == integrity_holds(data@, expected_hash@),
    {
        let computed = sha256(data);
        bytes_eq(computed.as_slice(), expected_hash)
    }

    /// The SHA-256 digest of `data`.
    pub fn compute_hash(&self, data: &[u8]) -> (r: Vec<u8>)
        ensures
            r@ == sha256_of(data@),
            r@.len() == 32,
    {
        sha256(data)
    }

    /// Derives a 32-byte session key from an X25519 agreement between a
    /// fresh secret and `remote_public_key`, through HKDF-SHA256 with the
    /// context `session-key`. Fails with `InvalidParam` unless the remote key
    /// is 32 bytes long.
    pub fn perform_key_exchange(&self, remote_public_key: &[u8]) -> (r: Result<Vec<u8>, CoreError>)
        ensures
            r is Ok <==> remote_public_key@.len() == 32,
            r matches Err(e) ==> e == CoreError::InvalidParam,
            r matches Ok(k) ==> k@.len() == 32 && exists|shared: Seq<u8>|
                shared.len() == 32 && k@ == hkdf_sha256_of(shared, "session-key"@.map_values(|c: char| c as u8)),
    {
        if remote_public_key.len() != 32 {
            return Err(CoreError::InvalidParam);
        }
        let shared = x25519_agree(remote_public_key);
        let info: Vec<u8> = vec![115u8, 101, 115, 115, 105, 111, 110, 45, 107, 101, 121];
        proof {
            reveal_strlit("session-key");
            assert(info@ =~= "session-key"@.map_values(|c: char| c as u8));
        }
        let derived = hkdf_sha256(shared.as_slice(), info.as_slice());
        Ok(derived)
    }

    /// A fresh X25519 public key.
    pub fn get_local_public_key(&self) -> (r: Vec<u8>)
        ensures
            r@.len() == 32,
    {
        x25519_fresh_public_key()
    }

    /// Adds a fingerprint to the trusted set.
    pub fn trust_certificate(&mut self, fingerprint: &str)
        requires
            old(self).wf(),
        ensures
            final(self).wf(),
            final(self).trusted() == old(self).trusted().insert(fingerprint@),
            final(self).revoked() == old(self).revoked(),
            final(self).keys() == old(self).keys(),
    {
        self.trusted_certificates.insert(fingerprint.to_string(), ());
    }

    /// Revokes a fingerprint: it joins the revocation list and leaves the
    /// trusted set.
    pub fn revoke_certificate(&mut self, fingerprint: &str, now: u64)
        requires
            old(self).wf(),
        ensures
            final(self).wf(),
            final(self).trusted() == old(self).trusted().remove(fingerprint@),
            final(self).revoked() == old(self).revoked().insert(fingerprint@),
            final(self).keys() == old(self).keys(),
    {
        self.revoked_certificates.insert(fingerprint.to_string(), ());
        self.trusted_certificates.remove(fingerprint);
        self.log_event(SecurityEventType::CertificateValidation, None, None, "Certificate revoked", now);
    }

    /// Whether a fingerprint is trusted and not revoked.
    pub fn is_certificate_trusted(&self, fingerprint: &str) -> (r: bool)
        requires
            self.wf(),
        ensures
            r == (self.trusted().contains(fingerprint@) && !self.revoked().contains(fingerprint@)),
    {
        self.trusted_certificates.contains(fingerprint) && !self.revoked_certificates.contains(fingerprint)
    }

    /// The device's own certificate, if one was generated.
    pub fn get_device_certificate(&self) -> (r: Option<&DeviceCertificate>)
        ensures
            r matches Some(c) ==> self.certificate_spec() == Some(*c),
            r is None <==> self.certificate_spec() is None,
    {
        match &self.device_certificate {
            Some(c) => Some(c),
            None => None,
        }
    }

    /// Whether the signature of a certificate verifies over its canonical
    /// text under its verifying key; malformed keys and signatures do not.
    pub fn verify_certificate_signature(&self, certificate: &DeviceCertificate) -> (r: bool)
        ensures
            r == signature_holds(*certificate),
    {
        if certificate.verifying_key.len() != 32 || certificate.signature.len() != 64 {
            return false;
        }
        let text = certificate_message(certificate);
        ed25519_verify(certificate.verifying_key.as_slice(), text.as_str().as_bytes(), certificate.signature.as_slice())
    }
}

/// The canonical text of a certificate.
fn certificate_message(c: &DeviceCertificate) -> (r: String)
    ensures
        r@ == certificate_text(*c),
{
    let pk_hex = hex_encode(c.public_key.as_slice());
    let t = c.device_id.clone();
    let t = t.concat(":");
    let t = t.concat(pk_hex.as_str());
    let t = t.concat(":");
    let t = t.concat(c.valid_from.as_str());
    let t = t.concat(":");
    let t = t.concat(c.valid_until.as_str());
    proof {
        reveal_strlit(":");
    }
    t
}

impl SecurityManager {
    /// Generates the device's certificate at `now`: a fresh X25519 public key
    /// and a fresh Ed25519 key pair, valid for 365 days, signed over its
    /// canonical text and fingerprinted; the fingerprint becomes trusted.
    ///
    /// Fails with `InvalidParam` when the validity period cannot be
    /// represented.
    pub fn generate_device_certificate(&mut self, device_id: String, now: i64) -> (r: Result<
        DeviceCertificate,
        CoreError,
    >)
        requires
            old(self).wf(),
        ensures
            final(self).wf(),
            now as int + CERTIFICATE_VALIDITY_SECS > i64::MAX ==> r is Err,
            0 <= now && now + CERTIFICATE_VALIDITY_SECS <= 253_402_300_799 ==> r is Ok,
            r matches Err(e) ==> e == CoreError::InvalidParam && final(self).trusted() == old(self).trusted(),
            r matches Ok(c) ==> {
                &&& c.device_id@ == device_id@
                &&& c.public_key@.len() == 32
                &&& c.certificate@ == c.public_key@
                &&& (c.signing_key matches Some(sk) && sk@.len() == 32 && c.verifying_key@ == ed25519_public_of(sk@)
                    && c.signature@ == ed25519_signature_of(sk@, vstd::utf8::encode_utf8(certificate_text(c))))
                &&& c.fingerprint@ == fingerprint_of(c.public_key@, c.verifying_key@)
                &&& c.valid_from@ == rfc3339_text(now)
                &&& c.valid_until@ == rfc3339_text((now + CERTIFICATE_VALIDITY_SECS) as i64)
                &&& c.issuer_fingerprint is None
                &&& !c.revoked
                &&& final(self).trusted() == old(self).trusted().insert(c.fingerprint@)
                &&& (final(self).certificate_spec() matches Some(d) && same_certificate(d, c))
            },
            final(self).revoked() == old(self).revoked(),
            final(self).keys() == old(self).keys(),
            final(self).config_spec() == old(self).config_spec(),
    {
        let valid_until = match now.checked_add(CERTIFICATE_VALIDITY_SECS) {
            Some(v) => v,
            None => {
                return Err(CoreError::InvalidParam);
            },
        };
        let from_text = match format_rfc3339(now) {
            Some(t) => t,
            None => {
                return Err(CoreError::InvalidParam);
            },
        };
        let until_text = match format_rfc3339(valid_until) {
            Some(t) => t,
            None => {
                return Err(CoreError::InvalidParam);
            },
        };
        let public = x25519_fresh_public_key();
        let secret = random_bytes(32);
        let verifying = ed25519_public_key(secret.as_slice());
        let both = concat_bytes(public.as_slice(), verifying.as_slice());
        let digest = sha256(both.as_slice());
        let fingerprint = hex_encode(digest.as_slice());
        let mut cert = DeviceCertificate {
            device_id,
            certificate: bytes_to_vec(public.as_slice()),
            private_key: vec![0u8; 32],
            public_key: public,
            valid_from: from_text,
            valid_until: until_text,
            fingerprint: fingerprint.clone(),
            signing_key: Some(bytes_to_vec(secret.as_slice())),
            verifying_key: verifying,
            signature: Vec::new(),
            issuer_fingerprint: None,
            revoked: false,
        };
        let text = certificate_message(&cert);
        let signature = ed25519_sign(secret.as_slice(), text.as_str().as_bytes());
        cert.signature = signature;
        self.device_certificate = Some(cert.duplicate());
        self.trusted_certificates.insert(fingerprint, ());
        self.log_event(
            SecurityEventType::CertificateValidation,
            None,
            Some(cert.device_id.clone()),
            "Generated device certificate",
            now as u64,
        );
        Ok(cert)
    }

    /// Validates a certificate at `now`, running every check and collecting
    /// the failures in order (see `certificate_errors`). A signature or
    /// fingerprint failure is also reported as a man-in-the-middle threat.
    /// Fails with `CertificateInvalid` when a validity date does not parse.
    /// With certificate validation off, every certificate is valid.
    pub fn validate_device_certificate(&mut self, certificate: &DeviceCertificate, now: i64) -> (r: Result<
        CertificateValidationResult,
        CoreError,
    >)
        requires
            old(self).wf(),
        ensures
            final(self).wf(),
            !old(self).config_spec().certificate_validation ==> (r matches Ok(res) && res.is_valid
                && res.validation_errors@.len() == 0 && res.device_id@ == certificate.device_id@),
            old(self).config_spec().certificate_validation ==> ({
                let until = rfc3339_seconds(certificate.valid_until@);
                let from = rfc3339_seconds(certificate.valid_from@);
                &&& (r is Err <==> (until is None || from is None))
                &&& (r matches Err(e) ==> e == CoreError::CertificateInvalid)
                &&& (r matches Ok(res) ==> {
                    let errors = certificate_errors(
                        *certificate,
                        old(self).revoked(),
                        old(self).trusted(),
                        from->0,
                        until->0,
                        now,
                    );
                    &&& res.validation_errors@ == errors
                    &&& res.is_valid == (errors.len() == 0)
                    &&& res.device_id@ == certificate.device_id@
                    &&& res.validated_at == now
                })
            }),
            ({
                let mitm = old(self).config_spec().certificate_validation && r is Ok && (fingerprint_of(
                    certificate.public_key@,
                    certificate.verifying_key@,
                ) != certificate.fingerprint@ || !signature_holds(*certificate));
                &&& mitm && old(self).config_spec().threat_detection_enabled ==> final(self).pending_threats() == old(
                    self).pending_threats().push(SecurityThreat::ManInTheMiddle)
                &&& !(mitm && old(self).config_spec().threat_detection_enabled) ==> final(self).pending_threats()
                    == old(self).pending_threats()
            }),
            final(self).keys() == old(self).keys(),
            final(self).trusted() == old(self).trusted(),
            final(self).revoked() == old(self).revoked(),
            final(self).config_spec() == old(self).config_spec(),
    {
        if !self.config.certificate_validation {
            return Ok(CertificateValidationResult {
                is_valid: true,
                device_id: certificate.device_id.clone(),
                validation_errors: Vec::new(),
                validated_at: now,
            });
        }
        let valid_until = match parse_rfc3339(certificate.valid_until.as_str()) {
            Some(t) => t,
            None => {
                return Err(CoreError::CertificateInvalid);
            },
        };
        let valid_from = match parse_rfc3339(certificate.valid_from.as_str()) {
            Some(t) => t,
            None => {
                return Err(CoreError::CertificateInvalid);
            },
        };
        let mut errors: Vec<CertificateValidationError> = Vec::new();
        push_if(&mut errors, certificate.revoked, CertificateValidationError::Revoked);
        let listed = self.revoked_certificates.contains(certificate.fingerprint.as_str());
        push_if(&mut errors, listed, CertificateValidationError::Revoked);
        push_if(&mut errors, valid_until < now, CertificateValidationError::Expired);
        push_if(&mut errors, valid_from > now, CertificateValidationError::NotYetValid);
        let both = concat_bytes(certificate.public_key.as_slice(), certificate.verifying_key.as_slice());
        let computed = hex_encode(sha256(both.as_slice()).as_slice());
        let fingerprint_ok = computed == certificate.fingerprint;
        push_if(&mut errors, !fingerprint_ok, CertificateValidationError::FingerprintMismatch);
        let signature_ok = self.verify_certificate_signature(certificate);
        push_if(&mut errors, !signature_ok, CertificateValidationError::SignatureInvalid);
        let untrusted_issuer = match &certificate.issuer_fingerprint {
            Some(issuer) => !self.trusted_certificates.contains(issuer.as_str()),
            None => false,
        };
        push_if(&mut errors, untrusted_issuer, CertificateValidationError::IssuerNotTrusted);
        let is_valid = errors.len() == 0;
        if !fingerprint_ok || !signature_ok {
            let _ = self.detect_security_threat(SecurityThreat::ManInTheMiddle, now as u64);
        }
        Ok(CertificateValidationResult {
            is_valid,
            device_id: certificate.device_id.clone(),
            validation_errors: errors,
            validated_at: now,
        })
    }

    /// The short validation: the certificate has not expired at `now` and its
    /// fingerprint matches the public key (followed by the verifying key when
    /// there is one). Fails with `CertificateInvalid` when the end of
    /// validity does not parse. With certificate validation off, every
    /// certificate passes.
    pub fn validate_device_certificate_sync(&self, certificate: &DeviceCertificate, now: i64) -> (r: Result<
        bool,
        CoreError,
    >)
        ensures
            !self.config_spec().certificate_validation ==> r == Ok::<bool, CoreError>(true),
            self.config_spec().certificate_validation ==> ({
                let until = rfc3339_seconds(certificate.valid_until@);
                let keys = if certificate.verifying_key@.len() == 0 {
                    certificate.public_key@
                } else {
                    certificate.public_key@ + certificate.verifying_key@
                };
                &&& until is None ==> r == Err::<bool, CoreError>(CoreError::CertificateInvalid)
                &&& until is Some ==> r == Ok::<bool, CoreError>(
                    until->0 >= now && hex_of(sha256_of(keys)) == certificate.fingerprint@,
                )
            }),
    {
        if !self.config.certificate_validation {
            return Ok(true);
        }
        let valid_until = match parse_rfc3339(certificate.valid_until.as_str()) {
            Some(t) => t,
            None => {
                return Err(CoreError::CertificateInvalid);
            },
        };
        if valid_until < now {
            return Ok(false);
        }
        let keys = if certificate.verifying_key.len() == 0 {
            bytes_to_vec(certificate.public_key.as_slice())
        } else {
            concat_bytes(certificate.public_key.as_slice(), certificate.verifying_key.as_slice())
        };
        let computed = hex_encode(sha256(keys.as_slice()).as_slice());
        Ok(computed == certificate.fingerprint)
    }
}


} // verus!
