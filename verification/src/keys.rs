//! Blockchain account keypairs and their portable text encoding.
//!
//! A keypair is modelled as its raw bytes: the 32-byte secret half followed
//! by the 32-byte public half, where the public half is the verification key
//! derived from the secret half. The portable encoding is base-58 text of
//! those 64 bytes, used only for explicit one-time export and import.
use vstd::prelude::*;

use crate::KEYPAIR_LEN;
use crate::SECRET_LEN;

verus! {

/// The Ed25519 verification (public) key derived from a 32-byte secret key.
/// A function of the secret bytes alone.
pub uninterp spec fn ed_pub_of(secret: Seq<u8>) -> Seq<u8>;

/// The base-58 text encoding (Bitcoin alphabet) of a byte string. A function
/// of the bytes alone; distinct byte strings have distinct encodings.
pub uninterp spec fn b58_of(bytes: Seq<u8>) -> Seq<char>;

/// Raw keypair bytes are valid when they are exactly `KEYPAIR_LEN` long and
/// the public half is the verification key derived from the secret half.
pub open spec fn valid_keypair_bytes(b: Seq<u8>) -> bool {
    &&& b.len() == KEYPAIR_LEN
    &&& b.subrange(SECRET_LEN as int, KEYPAIR_LEN as int) == ed_pub_of(
        b.subrange(0, SECRET_LEN as int),
    )
}

/// Relies on `solana_sdk::signature::Keypair::new` and `Keypair::to_bytes`:
/// a freshly generated random keypair's bytes are the 32 secret bytes
/// followed by the 32 bytes of the verification key derived from them.
/// Nothing is promised of the secret value itself; it is random.
#[verifier::external_body]
fn solana_generate() -> (r: Vec<u8>)
    ensures
        r@.len() == KEYPAIR_LEN,
        r@.subrange(SECRET_LEN as int, KEYPAIR_LEN as int) == ed_pub_of(
            r@.subrange(0, SECRET_LEN as int),
        ),
{
    solana_sdk::signature::Keypair::new().to_bytes().to_vec()
}

/// Relies on `<solana_sdk::signature::Keypair as TryFrom<&[u8]>>::try_from`:
/// it accepts exactly the byte strings of length 64 whose second half equals
/// the verification key derived from their first half.
#[verifier::external_body]
fn solana_keypair_check(bytes: &[u8]) -> (r: bool)
    ensures
        r == valid_keypair_bytes(bytes@),
{
    solana_sdk::signature::Keypair::try_from(bytes).is_ok()
}

/// Relies on `bs58::encode` with the default (Bitcoin) alphabet: the
/// resulting text is the base-58 encoding of the bytes, a function of the
/// bytes alone.
#[verifier::external_body]
pub(crate) fn b58_encode(bytes: &[u8]) -> (r: String)
    ensures
        r@ == b58_of(bytes@),
{
    bs58::encode(bytes).into_string()
}

/// Relies on `bs58::decode` with the default (Bitcoin) alphabet: decoding
/// succeeds exactly on well-formed base-58 text, every string it accepts is
/// the canonical encoding of the bytes it returns, and decoding the encoding
/// of any byte string returns exactly those bytes.
#[verifier::external_body]
pub(crate) fn b58_decode(s: &str) -> (r: Option<Vec<u8>>)
    ensures
        r matches Some(v) ==> s@ == b58_of(v@),
        r matches Some(v) ==> forall|b: Seq<u8>| s@ == b58_of(b) ==> b == v@,
        r is None ==> forall|b: Seq<u8>| s@ != b58_of(b),
{
    bs58::decode(s).into_vec().ok()
}

/// Copies `src[from..to]` into a fresh vector.
fn copy_range(src: &[u8], from: usize, to: usize) -> (r: Vec<u8>)
    requires
        from <= to <= src@.len(),
    ensures
        r@ == src@.subrange(from as int, to as int),
{
    let mut out: Vec<u8> = Vec::new();
    let mut i: usize = from;
    while i < to
        invariant
            from <= i <= to <= src@.len(),
            out@ == src@.subrange(from as int, i as int),
        decreases to - i,
    {
        out.push(src[i]);
        i = i + 1;
    }
    proof {
        assert(out@ =~= src@.subrange(from as int, to as int));
    }
    out
}

/// A public/private key pair for a blockchain account.
///
/// The secret half is sensitive: it exists in plaintext only transiently and
/// is not readable outside this crate. The public half is the record's
/// identity.
pub struct Keypair {
    secret: Vec<u8>,
    public: Vec<u8>,
}

impl Keypair {
    /// The secret half of the keypair.
    pub closed spec fn sec(&self) -> Seq<u8> {
        self.secret@
    }

    /// The public half of the keypair.
    pub closed spec fn pk(&self) -> Seq<u8> {
        self.public@
    }

    /// A well-formed keypair has full-length halves whose public half is
    /// derived from its secret half.
    pub open spec fn wf(&self) -> bool {
        &&& self.sec().len() == SECRET_LEN
        &&& self.pk().len() == SECRET_LEN
        &&& self.pk() == ed_pub_of(self.sec())
    }

    /// Generates a fresh keypair from a cryptographically secure random
    /// source. Nothing but well-formedness is promised of the value.
    pub fn generate() -> (r: Keypair)
        ensures
            r.wf(),
    {
        let bytes = solana_generate();
        let secret = copy_range(bytes.as_slice(), 0, SECRET_LEN);
        let public = copy_range(bytes.as_slice(), SECRET_LEN, KEYPAIR_LEN);
        Keypair { secret, public }
    }

    /// The raw keypair bytes: the secret half followed by the public half.
    pub fn to_bytes(&self) -> (r: Vec<u8>)
        ensures
            r@ == self.sec() + self.pk(),
    {
        let mut out: Vec<u8> = Vec::new();
        let mut i: usize = 0;
        while i < self.secret.len()
            invariant
                i <= self.sec().len(),
                out@ == self.sec().take(i as int),
            decreases self.sec().len() - i,
        {
            out.push(self.secret[i]);
            i = i + 1;
        }
        let mut j: usize = 0;
        while j < self.public.len()
            invariant
                j <= self.pk().len(),
                out@ == self.sec() + self.pk().take(j as int),
            decreases self.pk().len() - j,
        {
            out.push(self.public[j]);
            j = j + 1;
        }
        proof {
            assert(out@ =~= self.sec() + self.pk());
        }
        out
    }

    /// Rebuilds a keypair from raw bytes, validating that they still form a
    /// structurally valid key: exactly `KEYPAIR_LEN` bytes whose public half
    /// is consistent with their secret half. Succeeds exactly on valid bytes.
    pub fn from_bytes(bytes: &[u8]) -> (r: Option<Keypair>)
        ensures
            r matches Some(kp) ==> kp.wf() && kp.sec() + kp.pk() == bytes@,
            r is Some <==> valid_keypair_bytes(bytes@),
    {
        if !solana_keypair_check(bytes) {
            return None;
        }
        let secret = copy_range(bytes, 0, SECRET_LEN);
        let public = copy_range(bytes, SECRET_LEN, KEYPAIR_LEN);
        let kp = Keypair { secret, public };
        proof {
            assert(kp.sec() + kp.pk() =~= bytes@);
        }
        Some(kp)
    }

    /// The base-58 text of the public half, the record identity shown to
    /// callers.
    pub fn pubkey_string(&self) -> (r: String)
        ensures
            r@ == b58_of(self.pk()),
    {
        b58_encode(self.public.as_slice())
    }
}

} // verus!
