//! The wallet manager: orchestrates key derivation, keypair generation and
//! import, and the sealing and opening of private-key material.
//!
//! A manager derives one master key from a password at construction and
//! holds it for its lifetime; the key is never stored, and an identical
//! password always derives the identical key.
use vstd::prelude::*;

use crate::cipher;
use crate::cipher::Envelope;
use crate::cipher::gcm_seal_of;
use crate::error::SentinelError;
use crate::kdf;
use crate::kdf::MasterKey;
use crate::kdf::kdf_of;
use crate::keys::Keypair;
use crate::keys::b58_decode;
use crate::keys::b58_encode;
use crate::keys::b58_of;
use crate::keys::valid_keypair_bytes;
use crate::{KEYPAIR_LEN, NONCE_LEN, TAG_LEN};

verus! {

/// The fixed salt under which every manager derives its master key. It binds
/// together all envelopes decryptable by one derivation and must not change
/// once data has been encrypted under it.
pub open spec fn manager_salt() -> Seq<u8> {
    // the bytes of "sentinel_salt_v1"
    seq![
        115u8,
        101u8,
        110u8,
        116u8,
        105u8,
        110u8,
        101u8,
        108u8,
        95u8,
        115u8,
        97u8,
        108u8,
        116u8,
        95u8,
        118u8,
        49u8,
    ]
}

/// The executable form of `manager_salt`.
fn salt_bytes() -> (r: Vec<u8>)
    ensures
        r@ == manager_salt(),
{
    let mut salt: Vec<u8> = Vec::new();
    salt.push(115u8);
    salt.push(101u8);
    salt.push(110u8);
    salt.push(116u8);
    salt.push(105u8);
    salt.push(110u8);
    salt.push(101u8);
    salt.push(108u8);
    salt.push(95u8);
    salt.push(115u8);
    salt.push(97u8);
    salt.push(108u8);
    salt.push(116u8);
    salt.push(95u8);
    salt.push(118u8);
    salt.push(49u8);
    proof {
        assert(salt@ =~= manager_salt());
    }
    salt
}

/// Holds the one master key of an unlocked session. The key is immutable
/// after construction and is dropped with the manager.
pub struct WalletManager {
    master_key: MasterKey,
}

impl WalletManager {
    /// The master key this manager seals and opens under.
    pub closed spec fn key(&self) -> Seq<u8> {
        self.master_key@
    }

    /// A well-formed manager holds a full-length master key.
    pub open spec fn wf(&self) -> bool {
        self.key().len() == crate::KEY_LEN
    }

    /// Derives the master key for `password` under the fixed salt and wraps
    /// it in a manager. Identical passwords always construct managers with
    /// identical keys, so envelopes sealed in one session can be opened in a
    /// later session unlocked with the same password. An error reports an
    /// internal failure of the derivation function; it is fatal and never
    /// retried.
    pub fn new(password: &[u8]) -> (r: Result<WalletManager, SentinelError>)
        requires
            password@.len() <= kdf::MAX_PASSWORD_LEN,
        ensures
            r matches Ok(m) ==> m.wf() && m.key() == kdf_of(password@, manager_salt()),
            r matches Err(e) ==> e == SentinelError::Derivation,
    {
        let salt = salt_bytes();
        match kdf::derive(password, salt.as_slice()) {
            Ok(master_key) => Ok(WalletManager { master_key }),
            Err(e) => Err(e),
        }
    }

    /// Generates a fresh keypair and returns it together with its one-time
    /// plaintext portable encoding, for backup display to the caller.
    /// Nothing is persisted; persistence is a separate explicit step.
    pub fn create_wallet(&self) -> (r: Result<(Keypair, String), SentinelError>)
        ensures
            r matches Ok(p) ==> p.0.wf() && p.1@ == b58_of(p.0.sec() + p.0.pk()),
            r is Ok,
    {
        let keypair = Keypair::generate();
        let bytes = keypair.to_bytes();
        let portable = b58_encode(bytes.as_slice());
        Ok((keypair, portable))
    }

    /// Decodes and validates a portable key string.
    ///
    /// Succeeds exactly when the string is the base-58 encoding of valid raw
    /// keypair bytes, and then returns the keypair those bytes form: for any
    /// valid keypair, importing its portable encoding returns that keypair.
    /// Anything else — text outside the base-58 alphabet, a decoded length
    /// other than `KEYPAIR_LEN`, inconsistent key halves — fails with
    /// `EncodingError` before any cryptographic use of the bytes.
    pub fn import_wallet(&self, portable: &str) -> (r: Result<Keypair, SentinelError>)
        ensures
            r matches Ok(kp) ==> kp.wf() && portable@ == b58_of(kp.sec() + kp.pk()),
            forall|b: Seq<u8>|
                portable@ == b58_of(b) && valid_keypair_bytes(b) ==> (r matches Ok(kp)
                    && kp.sec() + kp.pk() == b),
            r matches Err(e) ==> e == SentinelError::Encoding,
            r is Ok <==> exists|b: Seq<u8>| portable@ == b58_of(b) && valid_keypair_bytes(b),
    {
        let bytes = match b58_decode(portable) {
            Some(v) => v,
            None => {
                return Err(SentinelError::Encoding);
            },
        };
        match Keypair::from_bytes(bytes.as_slice()) {
            Some(kp) => Ok(kp),
            None => Err(SentinelError::Encoding),
        }
    }

    /// Seals the raw bytes of `keypair` under the held master key into a
    /// fresh envelope, the only form in which the private key may leave
    /// process memory. A fresh nonce is generated on every call. An error
    /// reports a failure of the random source; no partial envelope is
    /// produced.
    pub fn seal_for_storage(&self, keypair: &Keypair) -> (r: Result<Envelope, SentinelError>)
        requires
            self.wf(),
            keypair.wf(),
        ensures
            r matches Ok(env) ==> {
                &&& env.wf()
                &&& env.sealed@ == gcm_seal_of(self.key(), env.nonce@, keypair.sec() + keypair.pk())
                &&& env.sealed@.len() == KEYPAIR_LEN + TAG_LEN
            },
            r matches Err(e) ==> e == SentinelError::Derivation,
    {
        let bytes = keypair.to_bytes();
        cipher::seal(&self.master_key, bytes.as_slice())
    }

    /// Opens `env` under the held master key and reconstructs the keypair,
    /// fail-closed.
    ///
    /// If the envelope seals the bytes of a valid keypair under this
    /// manager's key, exactly that keypair is returned: opening an envelope
    /// freshly produced by `seal_for_storage` under a manager with the same
    /// key recovers the keypair that was sealed. Any other envelope — sealed
    /// under a key derived from a different password, tampered with in the
    /// ciphertext or the tag, truncated, or decrypting to structurally
    /// invalid key bytes — fails with `AuthenticationError` and yields no
    /// key material.
    pub fn open_from_storage(&self, env: &Envelope) -> (r: Result<Keypair, SentinelError>)
        requires
            self.wf(),
        ensures
            r matches Ok(kp) ==> kp.wf() && env.nonce@.len() == NONCE_LEN && env.sealed@
                == gcm_seal_of(self.key(), env.nonce@, kp.sec() + kp.pk()),
            forall|b: Seq<u8>|
                env.nonce@.len() == NONCE_LEN && env.sealed@ == gcm_seal_of(self.key(), env.nonce@, b)
                    && valid_keypair_bytes(b) ==> (r matches Ok(kp) && kp.sec() + kp.pk() == b),
            r matches Err(e) ==> e == SentinelError::Authentication,
    {
        let plaintext = match cipher::open(&self.master_key, env) {
            Ok(pt) => pt,
            Err(e) => {
                return Err(e);
            },
        };
        match Keypair::from_bytes(plaintext.as_slice()) {
            Some(kp) => Ok(kp),
            None => Err(SentinelError::Authentication),
        }
    }
}

} // verus!
