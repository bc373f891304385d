//! The closed set of failures the custody core can report.
//!
//! Each variant is constructed exactly at the boundary where the underlying
//! failure occurs; none is ever downgraded to a generic failure, and none is
//! retried automatically.
use vstd::prelude::*;

verus! {

/// A failure of one of the custody operations.
#[derive(Debug, Clone, Copy, PartialEq, Eq, Structural)]
pub enum SentinelError {
    /// The key-derivation step (or the cryptographic provider behind it)
    /// failed internally. Fatal for the operation; never retried.
    Derivation,
    /// A portable key string was malformed: not valid base-58, of the wrong
    /// decoded length, or inconsistent key halves. User-correctable.
    Encoding,
    /// An envelope failed authentication: wrong key, tampered ciphertext or
    /// tag, truncation, or structurally invalid key bytes after decryption.
    Authentication,
    /// A record with the same public key already exists; the stored record
    /// is left untouched.
    Conflict,
}

} // verus!
