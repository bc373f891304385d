//! Durable keyed storage of wallet records, specified as the core consumes
//! it: a keyed store whose public keys are unique across all records.
//!
//! A duplicate save is a conflict, never an overwrite, and listing returns
//! records in insertion order. The storage engine behind the boundary is
//! not part of the core; this store holds the records in memory and is what
//! the core's contracts are stated against.
use vstd::prelude::*;

use crate::cipher::Envelope;
use crate::error::SentinelError;

verus! {

/// The externally persisted shape of one wallet: the public key as text (the
/// unique identity), the sealed envelope, an optional label, and the
/// creation timestamp in seconds.
#[derive(Debug, Clone, PartialEq, Eq)]
pub struct WalletRecord {
    /// Base-58 text of the public key; unique across all records.
    pub pubkey: String,
    /// The sealed private-key envelope.
    pub envelope: Envelope,
    /// An optional human-readable label.
    pub label: Option<String>,
    /// Seconds since the epoch at which the record was created.
    pub created_at: u64,
}

/// A keyed store of wallet records with unique public keys.
pub struct CredentialStore {
    records: Vec<WalletRecord>,
}

impl View for CredentialStore {
    type V = Seq<WalletRecord>;

    closed spec fn view(&self) -> Seq<WalletRecord> {
        self.records@
    }
}

impl CredentialStore {
    /// No two records share a public key.
    pub open spec fn wf(&self) -> bool {
        forall|i: int, j: int|
            0 <= i < j < self@.len() ==> self@[i].pubkey@ != self@[j].pubkey@
    }

    /// Whether some record carries this public key.
    pub open spec fn contains_pubkey(&self, pubkey: Seq<char>) -> bool {
        exists|i: int| 0 <= i < self@.len() && self@[i].pubkey@ == pubkey
    }

    /// An empty store.
    pub fn new() -> (r: CredentialStore)
        ensures
            r@ == Seq::<WalletRecord>::empty(),
            r.wf(),
    {
        CredentialStore { records: Vec::new() }
    }

    /// Saves `record`, or reports a conflict.
    ///
    /// If no stored record carries `record`'s public key, the record is
    /// appended and the call succeeds. If one does, the call fails with
    /// `PersistenceConflict` and the store is left exactly as it was: the
    /// record stored first remains, and nothing is overwritten.
    pub fn save_wallet(&mut self, record: WalletRecord) -> (r: Result<(), SentinelError>)
        requires
            old(self).wf(),
        ensures
            final(self).wf(),
            r is Ok ==> !old(self).contains_pubkey(record.pubkey@) && final(self)@ == old(
                self,
            )@.push(record),
            r matches Err(e) ==> e == SentinelError::Conflict && old(self).contains_pubkey(
                record.pubkey@,
            ) && final(self)@ == old(self)@,
    {
        let n = self.records.len();
        let mut i: usize = 0;
        while i < n
            invariant
                n == self@.len(),
                i <= n,
                forall|k: int| 0 <= k < i ==> self@[k].pubkey@ != record.pubkey@,
                self.wf(),
            decreases n - i,
        {
            if self.records[i].pubkey == record.pubkey {
                return Err(SentinelError::Conflict);
            }
            i = i + 1;
        }
        self.records.push(record);
        Ok(())
    }

    /// Looks the record with this public key up. Returns the record exactly
    /// when one with this key is stored, and nothing otherwise.
    pub fn get(&self, pubkey: &String) -> (r: Option<&WalletRecord>)
        requires
            self.wf(),
        ensures
            r matches Some(rec) ==> rec.pubkey@ == pubkey@ && exists|i: int|
                0 <= i < self@.len() && self@[i] == *rec,
            r is Some <==> self.contains_pubkey(pubkey@),
    {
        let n = self.records.len();
        let mut i: usize = 0;
        while i < n
            invariant
                n == self@.len(),
                i <= n,
                forall|k: int| 0 <= k < i ==> self@[k].pubkey@ != pubkey@,
            decreases n - i,
        {
            if self.records[i].pubkey == *pubkey {
                return Some(&self.records[i]);
            }
            i = i + 1;
        }
        None
    }

    /// All stored records, in insertion order.
    pub fn list(&self) -> (r: &Vec<WalletRecord>)
        ensures
            r@ == self@,
    {
        &self.records
    }
}

} // verus!
