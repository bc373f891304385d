//! Authenticated encryption of byte payloads under a master key.
//!
//! The construction is AES-256-GCM: a 32-byte key, a 12-byte nonce generated
//! freshly from a cryptographically secure random source on every seal, and a
//! 16-byte authentication tag appended to the ciphertext. Opening is
//! fail-closed: any tag mismatch yields an error and no plaintext bytes.
use vstd::prelude::*;

use crate::error::SentinelError;
use crate::kdf::MasterKey;
use crate::{KEY_LEN, NONCE_LEN, TAG_LEN};

verus! {

/// The ciphertext-with-tag that AES-256-GCM (empty associated data) produces
/// for the given key, nonce and plaintext. A function of those three alone;
/// its length is the plaintext length plus `TAG_LEN`, and for a fixed key and
/// nonce no two plaintexts produce the same output.
pub uninterp spec fn gcm_seal_of(key: Seq<u8>, nonce: Seq<u8>, plaintext: Seq<u8>) -> Seq<u8>;

/// The longest payload a single seal accepts.
pub const MAX_PLAINTEXT_LEN: usize = 0xFFFF_FFFF;

/// Relies on `ring::aead::LessSafeKey::seal_in_place_append_tag` with
/// `AES_256_GCM` and empty associated data: the result is the ciphertext for
/// the key, nonce and plaintext with the 16-byte tag appended. With the key
/// and nonce lengths fixed by `requires`, `UnboundKey::new` and
/// `Nonce::try_assume_unique_for_key` cannot fail, and sealing fails only for
/// plaintexts beyond the AES-GCM per-call limit of about 2^36 bytes, which
/// the length bound rules out.
#[verifier::external_body]
fn aes_gcm_seal(key: &[u8], nonce: &[u8], plaintext: &[u8]) -> (r: Vec<u8>)
    requires
        key@.len() == KEY_LEN,
        nonce@.len() == NONCE_LEN,
        plaintext@.len() <= MAX_PLAINTEXT_LEN,
    ensures
        r@ == gcm_seal_of(key@, nonce@, plaintext@),
        r@.len() == plaintext@.len() + TAG_LEN,
{
    let unbound = ring::aead::UnboundKey::new(&ring::aead::AES_256_GCM, key)
        .expect("key length is fixed at 32 bytes");
    let sealing_key = ring::aead::LessSafeKey::new(unbound);
    let nonce = ring::aead::Nonce::try_assume_unique_for_key(nonce)
        .expect("nonce length is fixed at 12 bytes");
    let mut buf = plaintext.to_vec();
    sealing_key
        .seal_in_place_append_tag(nonce, ring::aead::Aad::empty(), &mut buf)
        .expect("payload is below the AES-GCM per-call limit");
    buf
}

/// Relies on `ring::aead::LessSafeKey::open_in_place` with `AES_256_GCM` and
/// empty associated data: it succeeds exactly on inputs that are the sealing
/// of some plaintext under this key and nonce, and then returns that
/// plaintext (for a fixed key and nonce, AES-GCM sealing is injective in the
/// plaintext, so the plaintext recovered is the one that was sealed). Any tag
/// mismatch or truncation yields `None` and no plaintext bytes.
#[verifier::external_body]
fn aes_gcm_open(key: &[u8], nonce: &[u8], sealed: &[u8]) -> (r: Option<Vec<u8>>)
    requires
        key@.len() == KEY_LEN,
        nonce@.len() == NONCE_LEN,
    ensures
        r matches Some(pt) ==> sealed@ == gcm_seal_of(key@, nonce@, pt@) && pt@.len() + TAG_LEN
            == sealed@.len(),
        r matches Some(pt) ==> forall|other: Seq<u8>|
            sealed@ == gcm_seal_of(key@, nonce@, other) ==> other == pt@,
        r is None ==> forall|pt: Seq<u8>| sealed@ != gcm_seal_of(key@, nonce@, pt),
{
    let unbound = match ring::aead::UnboundKey::new(&ring::aead::AES_256_GCM, key) {
        Ok(k) => k,
        Err(_) => return None,
    };
    let opening_key = ring::aead::LessSafeKey::new(unbound);
    let nonce = match ring::aead::Nonce::try_assume_unique_for_key(nonce) {
        Ok(n) => n,
        Err(_) => return None,
    };
    let mut buf = sealed.to_vec();
    match opening_key.open_in_place(nonce, ring::aead::Aad::empty(), &mut buf) {
        Ok(plaintext) => Some(plaintext.to_vec()),
        Err(_) => None,
    }
}

/// Relies on `ring::rand::SystemRandom` and `ring::rand::SecureRandom::fill`:
/// fills the buffer from the operating system's cryptographically secure
/// random source. Nothing is promised of the value; it fails only if the
/// operating system's random source does.
#[verifier::external_body]
fn random_nonce() -> (r: Result<Vec<u8>, ()>)
    ensures
        r matches Ok(n) ==> n@.len() == NONCE_LEN,
{
    let rng = ring::rand::SystemRandom::new();
    let mut buf = [0u8; 12];
    match ring::rand::SecureRandom::fill(&rng, &mut buf) {
        Ok(()) => Ok(buf.to_vec()),
        Err(_) => Err(()),
    }
}

/// The only form in which sensitive key material may leave process memory:
/// a fresh nonce together with the ciphertext-and-tag it seals.
#[derive(Debug, Clone, PartialEq, Eq)]
pub struct Envelope {
    /// The fresh random value used once for this sealing.
    pub nonce: Vec<u8>,
    /// The ciphertext with the authentication tag appended.
    pub sealed: Vec<u8>,
}

impl Envelope {
    /// A well-formed envelope has a full-length nonce and room for the tag.
    pub open spec fn wf(&self) -> bool {
        &&& self.nonce@.len() == NONCE_LEN
        &&& self.sealed@.len() >= TAG_LEN
    }

    /// The single opaque blob stored for this envelope:
    /// `nonce || ciphertext || tag`.
    pub fn to_blob(&self) -> (r: Vec<u8>)
        ensures
            r@ == self.nonce@ + self.sealed@,
    {
        let mut blob: Vec<u8> = Vec::new();
        let mut i: usize = 0;
        while i < self.nonce.len()
            invariant
                i <= self.nonce@.len(),
                blob@ == self.nonce@.take(i as int),
            decreases self.nonce@.len() - i,
        {
            blob.push(self.nonce[i]);
            i = i + 1;
        }
        let mut j: usize = 0;
        while j < self.sealed.len()
            invariant
                j <= self.sealed@.len(),
                blob@ == self.nonce@ + self.sealed@.take(j as int),
            decreases self.sealed@.len() - j,
        {
            blob.push(self.sealed[j]);
            j = j + 1;
        }
        proof {
            assert(blob@ =~= self.nonce@ + self.sealed@);
        }
        blob
    }

    /// Rebuilds an envelope from a stored blob. Succeeds exactly when the
    /// blob is long enough to hold a nonce and a tag; the envelope then
    /// partitions the blob back into its nonce and its sealed region.
    pub fn from_blob(blob: &[u8]) -> (r: Option<Envelope>)
        ensures
            r matches Some(env) ==> env.wf() && blob@ == env.nonce@ + env.sealed@,
            r is Some <==> blob@.len() >= NONCE_LEN + TAG_LEN,
    {
        if blob.len() < NONCE_LEN + TAG_LEN {
            return None;
        }
        let mut nonce: Vec<u8> = Vec::new();
        let mut i: usize = 0;
        while i < NONCE_LEN
            invariant
                i <= NONCE_LEN,
                blob@.len() >= NONCE_LEN + TAG_LEN,
                nonce@ == blob@.take(i as int),
            decreases NONCE_LEN - i,
        {
            nonce.push(blob[i]);
            i = i + 1;
        }
        let mut sealed: Vec<u8> = Vec::new();
        let mut j: usize = NONCE_LEN;
        while j < blob.len()
            invariant
                NONCE_LEN <= j <= blob@.len(),
                blob@.len() >= NONCE_LEN + TAG_LEN,
                sealed@ == blob@.subrange(NONCE_LEN as int, j as int),
            decreases blob@.len() - j,
        {
            sealed.push(blob[j]);
            j = j + 1;
        }
        let env = Envelope { nonce, sealed };
        proof {
            assert(blob@ =~= env.nonce@ + env.sealed@);
        }
        Some(env)
    }
}

/// Seals `plaintext` under `key` into a fresh envelope.
///
/// A fresh random nonce is generated inside this function on every call;
/// callers cannot supply one, so a (key, nonce) pair is never knowingly
/// reused. An error reports a failure of the random source and is fatal for
/// the operation; no partial envelope is produced.
pub fn seal(key: &MasterKey, plaintext: &[u8]) -> (r: Result<Envelope, SentinelError>)
    requires
        key.wf(),
        plaintext@.len() <= MAX_PLAINTEXT_LEN,
    ensures
        r matches Ok(env) ==> {
            &&& env.wf()
            &&& env.sealed@ == gcm_seal_of(key@, env.nonce@, plaintext@)
            &&& env.sealed@.len() == plaintext@.len() + TAG_LEN
        },
        r matches Err(e) ==> e == SentinelError::Derivation,
{
    let nonce = match random_nonce() {
        Ok(n) => n,
        Err(_) => {
            return Err(SentinelError::Derivation);
        },
    };
    let sealed = aes_gcm_seal(key.raw_bytes(), nonce.as_slice(), plaintext);
    Ok(Envelope { nonce, sealed })
}

/// Opens `env` under `key`, fail-closed.
///
/// If the sealed region is exactly what sealing some plaintext under this
/// key and this envelope's nonce produces, that plaintext is returned; this
/// is the round trip: opening an envelope freshly produced by `seal` under
/// the same key recovers the sealed payload. On any other input — wrong key,
/// flipped bit, truncation, malformed nonce — the result is
/// `AuthenticationError` and no plaintext bytes are returned.
pub fn open(key: &MasterKey, env: &Envelope) -> (r: Result<Vec<u8>, SentinelError>)
    requires
        key.wf(),
    ensures
        r matches Ok(pt) ==> env.nonce@.len() == NONCE_LEN && env.sealed@ == gcm_seal_of(
            key@,
            env.nonce@,
            pt@,
        ),
        forall|pt: Seq<u8>|
            env.nonce@.len() == NONCE_LEN && env.sealed@ == gcm_seal_of(key@, env.nonce@, pt)
                ==> (r matches Ok(p) && p@ == pt),
        r matches Err(e) ==> e == SentinelError::Authentication,
{
    if env.nonce.len() != NONCE_LEN {
        return Err(SentinelError::Authentication);
    }
    match aes_gcm_open(key.raw_bytes(), env.nonce.as_slice(), env.sealed.as_slice()) {
        Some(pt) => Ok(pt),
        None => Err(SentinelError::Authentication),
    }
}

} // verus!
