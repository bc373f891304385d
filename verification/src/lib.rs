//! Local credential custody: password-derived master keys, authenticated
//! encryption of private-key material, portable key encoding, and a keyed
//! wallet-record store with a uniqueness guarantee.
use vstd::prelude::*;

pub mod cipher;
pub mod config;
pub mod error;
pub mod kdf;
pub mod keys;
pub mod store;
pub mod wallet;

verus! {

/// Number of bytes in a master symmetric key.
pub const KEY_LEN: usize = 32;

/// Number of bytes in an AEAD nonce.
pub const NONCE_LEN: usize = 12;

/// Number of bytes in an AEAD authentication tag.
pub const TAG_LEN: usize = 16;

/// Number of bytes in the secret half (and in the public half) of a keypair.
pub const SECRET_LEN: usize = 32;

/// Number of raw bytes in a keypair: the secret half followed by the public half.
pub const KEYPAIR_LEN: usize = 64;

} // verus!
