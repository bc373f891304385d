//! Memory-hard key derivation: a password and a salt become a fixed-length
//! master symmetric key.
//!
//! Derivation is deterministic: the same password and salt always yield the
//! same key, so a key can be re-derived later to open envelopes sealed under
//! it; the key itself is never stored.
use vstd::prelude::*;

use crate::error::SentinelError;
use crate::KEY_LEN;

verus! {

/// The key that `Argon2id` (default parameters, version 0x13, 19 MiB memory,
/// 2 iterations, 1 lane) derives into a 32-byte output buffer from the given
/// password and salt. A function of password and salt alone.
pub uninterp spec fn kdf_of(password: Seq<u8>, salt: Seq<u8>) -> Seq<u8>;

/// The longest password the derivation accepts.
pub const MAX_PASSWORD_LEN: usize = 0xFFFF_FFFF;

/// The shortest salt the derivation accepts.
pub const MIN_SALT_LEN: usize = 8;

/// The longest salt the derivation accepts.
pub const MAX_SALT_LEN: usize = 0xFFFF_FFFF;

/// Relies on `argon2::Argon2::hash_password_into` with `Argon2::default()`
/// parameters and a 32-byte output buffer: the output is a deterministic
/// function of the password and the salt. With the password and salt lengths
/// in range it fails only if the working memory for the cost parameters
/// cannot be allocated.
#[verifier::external_body]
fn argon2_derive(password: &[u8], salt: &[u8]) -> (r: Result<Vec<u8>, ()>)
    requires
        password@.len() <= MAX_PASSWORD_LEN,
        MIN_SALT_LEN <= salt@.len() <= MAX_SALT_LEN,
    ensures
        r matches Ok(k) ==> k@ == kdf_of(password@, salt@) && k@.len() == KEY_LEN,
{
    let mut key = [0u8; 32];
    match argon2::Argon2::default().hash_password_into(password, salt, &mut key) {
        Ok(()) => Ok(key.to_vec()),
        Err(_) => Err(()),
    }
}

/// Fixed-length master symmetric key material. Held only in process memory,
/// never serialized; the raw bytes are not exposed outside the crate.
pub struct MasterKey {
    bytes: Vec<u8>,
}

impl View for MasterKey {
    type V = Seq<u8>;

    closed spec fn view(&self) -> Seq<u8> {
        self.bytes@
    }
}

impl MasterKey {
    /// A well-formed master key holds exactly `KEY_LEN` bytes.
    pub open spec fn wf(&self) -> bool {
        self@.len() == KEY_LEN
    }

    /// The raw key bytes, for use by the cipher inside this crate only.
    pub(crate) fn raw_bytes(&self) -> (r: &[u8])
        ensures
            r@ == self@,
    {
        self.bytes.as_slice()
    }
}

/// Derives the master key for `password` under `salt`.
///
/// Identical password and salt always yield the identical key. An error
/// reports an internal failure of the derivation function and is fatal for
/// the operation; it is never retried.
pub fn derive(password: &[u8], salt: &[u8]) -> (r: Result<MasterKey, SentinelError>)
    requires
        password@.len() <= MAX_PASSWORD_LEN,
        MIN_SALT_LEN <= salt@.len() <= MAX_SALT_LEN,
    ensures
        r matches Ok(k) ==> k.wf() && k@ == kdf_of(password@, salt@),
        r matches Err(e) ==> e == SentinelError::Derivation,
{
    match argon2_derive(password, salt) {
        Ok(bytes) => Ok(MasterKey { bytes }),
        Err(_) => Err(SentinelError::Derivation),
    }
}

} // verus!
