//! Fixed-size digests and the buffered hasher that produces them.
use sha2::Digest;
use vstd::prelude::*;

verus! {

/// Number of bytes in a digest.
pub const HASH_BYTES: usize = 32;

/// What SHA-256 yields for a byte stream.
pub uninterp spec fn sha256_of(bytes: Seq<u8>) -> Seq<u8>;

/// Relies on sha2's `Sha256::digest`: the 32-byte SHA-256 digest of `bytes`,
/// which depends on the bytes alone.
#[verifier::external_body]
fn sha256(bytes: &[u8]) -> (r: [u8; 32])
    ensures
        r@ == sha256_of(bytes@),
{
    sha2::Sha256::digest(bytes).into()
}

/// A 32-byte digest.
#[derive(Clone, Copy, Debug, Eq, PartialOrd, Ord, Hash, Default)]
pub struct Hash(pub [u8; 32]);

/// Byte-wise equality of two 32-byte arrays.
pub fn bytes32_eq(a: &[u8; 32], b: &[u8; 32]) -> (r: bool)
    ensures
        r == (a@ == b@),
{
    let mut i: usize = 0;
    while i < 32
        invariant
            0 <= i <= 32,
            a@.len() == 32,
            b@.len() == 32,
            forall|j: int| 0 <= j < i ==> a@[j] == b@[j],
        decreases 32 - i,
    {
        if a[i] != b[i] {
            return false;
        }
        i = i + 1;
    }
    assert(a@ =~= b@);
    true
}

impl PartialEq for Hash {
    fn eq(&self, other: &Hash) -> (r: bool) {
        bytes32_eq(&self.0, &other.0)
    }
}

impl vstd::std_specs::cmp::PartialEqSpecImpl for Hash {
    open spec fn obeys_eq_spec() -> bool {
        true
    }

    open spec fn eq_spec(&self, other: &Hash) -> bool {
        self@ == other@
    }
}

impl View for Hash {
    type V = Seq<u8>;

    open spec fn view(&self) -> Seq<u8> {
        self.0@
    }
}

impl Hash {
    pub fn new_from_array(hash_array: [u8; 32]) -> (r: Hash)
        ensures
            r@ == hash_array@,
    {
        Hash(hash_array)
    }

    pub fn to_bytes(self) -> (r: [u8; 32])
        ensures
            r@ == self@,
    {
        self.0
    }

    pub fn as_slice(&self) -> (r: &[u8])
        ensures
            r@ == self@,
    {
        self.0.as_slice()
    }
}

/// Collects a byte stream and digests it with SHA-256.
pub struct Sha256Hasher {
    stream: Vec<u8>,
}

impl View for Sha256Hasher {
    type V = Seq<u8>;

    /// The bytes fed so far.
    closed spec fn view(&self) -> Seq<u8> {
        self.stream@
    }
}

impl Sha256Hasher {
    pub fn new() -> (r: Sha256Hasher)
        ensures
            r@ == Seq::<u8>::empty(),
    {
        Sha256Hasher { stream: Vec::new() }
    }

    /// Appends `val` to the stream.
    pub fn hash(&mut self, val: &[u8])
        ensures
            final(self)@ == old(self)@ + val@,
    {
        self.stream.extend_from_slice(val);
        assert(final(self)@ =~= old(self)@ + val@);
    }

    /// The digest of everything fed so far.
    pub fn result(self) -> (r: Hash)
        ensures
            r@ == sha256_of(self@),
    {
        Hash(sha256(self.stream.as_slice()))
    }
}

impl Default for Sha256Hasher {
    fn default() -> (r: Sha256Hasher)
        ensures
            r@ == Seq::<u8>::empty(),
    {
        Sha256Hasher::new()
    }
}

/// The slices of `parts` laid end to end.
pub open spec fn concat_slices(parts: Seq<Seq<u8>>) -> Seq<u8>
    decreases parts.len(),
{
    if parts.len() == 0 {
        Seq::empty()
    } else {
        concat_slices(parts.drop_last()) + parts.last()
    }
}

} // verus!
