//! Account addresses.
use vstd::prelude::*;
use vstd::string::StringSliceAdditionalSpecFns;

verus! {

/// Relies on `rand::random`: a value drawn from the thread's generator;
/// nothing is promised of which.
pub assume_specification<T>[ rand::random::<T> ]() -> (r: T)
    where
        rand::distributions::Standard: rand::distributions::Distribution<T>,
;

/// What base58 decoding yields for a string: the bytes, or nothing when the
/// string holds a character outside the alphabet.
pub uninterp spec fn base58_decoded(s: Seq<char>) -> Option<Seq<u8>>;

/// The base58 text of a byte string.
pub uninterp spec fn base58_encoded(b: Seq<u8>) -> Seq<char>;

/// Relies on `bs58::decode(..).into_vec()`: the decoded bytes, or nothing
/// when decoding fails.
#[verifier::external_body]
fn bs58_decode(s: &str) -> (r: Option<Vec<u8>>)
    ensures
        match r {
            Some(v) => base58_decoded(s@) == Some(v@),
            None => base58_decoded(s@) is None,
        },
{
    bs58::decode(s).into_vec().ok()
}

/// Relies on `bs58::encode(..).into_string()`: the base58 text of `b`.
#[verifier::external_body]
fn bs58_encode(b: &[u8]) -> (r: String)
    ensures
        r@ == base58_encoded(b@),
{
    bs58::encode(b).into_string()
}

#[derive(Debug, Clone, Copy, PartialEq, Eq, Structural)]
pub enum PubkeyError {
    /// Length of the seed is too long for address generation
    MaxSeedLengthExceeded,
    /// Provided seeds do not result in a valid address
    InvalidSeeds,
    /// Provided owner is not allowed
    IllegalOwner,
}

impl PubkeyError {
    /// The error with the given numeric code; only the first two errors
    /// have one.
    pub fn from_code(error: u64) -> (r: PubkeyError)
        requires
            error <= 1,
        ensures
            error == 0 ==> r == PubkeyError::MaxSeedLengthExceeded,
            error == 1 ==> r == PubkeyError::InvalidSeeds,
    {
        if error == 0 {
            PubkeyError::MaxSeedLengthExceeded
        } else {
            PubkeyError::InvalidSeeds
        }
    }

    /// The error's message.
    pub fn message(&self) -> &'static str {
        match self {
            PubkeyError::MaxSeedLengthExceeded => "Length of the seed is too long for address generation",
            PubkeyError::InvalidSeeds => "Provided seeds do not result in a valid address",
            PubkeyError::IllegalOwner => "Provided owner is not allowed",
        }
    }
}

#[derive(Debug, Clone, Copy, PartialEq, Eq, Structural)]
pub enum ParsePubkeyError {
    /// String is the wrong size
    WrongSize,
    /// Invalid Base58 string
    Invalid,
}

impl ParsePubkeyError {
    /// The error's message.
    pub fn message(&self) -> &'static str {
        match self {
            ParsePubkeyError::WrongSize => "String is the wrong size",
            ParsePubkeyError::Invalid => "Invalid Base58 string",
        }
    }
}

/// The outcome of parsing text whose base58 decoding gave `decoded`.
pub open spec fn parse_decoded(decoded: Option<Seq<u8>>) -> Result<Seq<u8>, ParsePubkeyError> {
    match decoded {
        None => Err(ParsePubkeyError::Invalid),
        Some(b) => if b.len() != 32 {
            Err(ParsePubkeyError::WrongSize)
        } else {
            Ok(b)
        },
    }
}

/// The outcome of parsing a string of `byte_len` bytes and characters `s`.
pub open spec fn parse_base58(byte_len: usize, s: Seq<char>) -> Result<Seq<u8>, ParsePubkeyError> {
    if byte_len > MAX_BASE58_LEN {
        Err(ParsePubkeyError::WrongSize)
    } else {
        parse_decoded(base58_decoded(s))
    }
}

/// The key matches the outcome `spec`, or carries the same error.
pub open spec fn parsed_as(r: Result<Pubkey, ParsePubkeyError>, spec: Result<Seq<u8>, ParsePubkeyError>) -> bool {
    match (r, spec) {
        (Ok(k), Ok(b)) => k@ == b,
        (Err(e), Err(f)) => e == f,
        _ => false,
    }
}

/// Number of bytes in a pubkey.
pub const PUBKEY_BYTES: usize = 32;

/// Maximum length of a derived `Pubkey` seed.
pub const MAX_SEED_LEN: usize = 32;

/// Maximum number of seeds.
pub const MAX_SEEDS: usize = 16;

/// Maximum string length of a base58-encoded pubkey.
pub const MAX_BASE58_LEN: usize = 44;

/// The address of an account: 32 bytes, ordered byte-wise.
#[derive(Clone, Copy, Debug, Eq, PartialOrd, Ord, Hash, Default)]
pub struct Pubkey(pub(crate) [u8; 32]);

impl View for Pubkey {
    type V = Seq<u8>;

    closed spec fn view(&self) -> Seq<u8> {
        self.0@
    }
}

impl PartialEq for Pubkey {
    fn eq(&self, other: &Pubkey) -> (r: bool) {
        crate::hash::bytes32_eq(&self.0, &other.0)
    }
}

impl vstd::std_specs::cmp::PartialEqSpecImpl for Pubkey {
    open spec fn obeys_eq_spec() -> bool {
        true
    }

    open spec fn eq_spec(&self, other: &Pubkey) -> bool {
        self@ == other@
    }
}

impl Pubkey {
    /// The key with the given 32 bytes.
    pub fn new(pubkey_vec: &[u8]) -> (r: Pubkey)
        requires
            pubkey_vec@.len() == 32,
        ensures
            r@ == pubkey_vec@,
    {
        let mut b = [0u8; 32];
        let mut i: usize = 0;
        while i < 32
            invariant
                0 <= i <= 32,
                pubkey_vec@.len() == 32,
                b@.len() == 32,
                forall|j: int| 0 <= j < i ==> b@[j] == pubkey_vec@[j],
            decreases 32 - i,
        {
            b[i] = pubkey_vec[i];
            i = i + 1;
        }
        assert(b@ =~= pubkey_vec@);
        Pubkey(b)
    }

    /// The key given by the result of base58-decoding its text.
    pub fn from_base58_decoded(decoded: Option<Vec<u8>>) -> (r: Result<Pubkey, ParsePubkeyError>)
        ensures
            parsed_as(
                r,
                parse_decoded(
                    match decoded {
                        Some(v) => Some(v@),
                        None => None,
                    },
                ),
            ),
    {
        match decoded {
            None => Err(ParsePubkeyError::Invalid),
            Some(v) => {
                if v.len() != PUBKEY_BYTES {
                    Err(ParsePubkeyError::WrongSize)
                } else {
                    Ok(Pubkey::new(v.as_slice()))
                }
            },
        }
    }

    /// Parses the base58 text of a key.
    pub fn from_base58_str(s: &str) -> (r: Result<Pubkey, ParsePubkeyError>)
        ensures
            parsed_as(r, parse_base58(s.spec_bytes().len() as usize, s@)),
    {
        if s.len() > MAX_BASE58_LEN {
            return Err(ParsePubkeyError::WrongSize);
        }
        let decoded = bs58_decode(s);
        assert(match decoded {
            Some(v) => Some(v@),
            None => None,
        } == base58_decoded(s@));
        Self::from_base58_decoded(decoded)
    }

    /// The key's base58 text.
    pub fn to_base58_string(&self) -> (r: String)
        ensures
            r@ == base58_encoded(self@),
    {
        bs58_encode(self.as_slice())
    }

    /// A key drawn at random.
    pub fn new_rand() -> (r: Pubkey)
        ensures
            r@.len() == 32,
    {
        Pubkey(rand::random::<[u8; 32]>())
    }

    /// A key for tests and benchmarks, drawn at random so that two of them
    /// coincide only with negligible probability.
    pub fn new_unique() -> (r: Pubkey)
        ensures
            r@.len() == 32,
    {
        Pubkey(rand::random::<[u8; 32]>())
    }

    pub fn new_from_array(pubkey_array: [u8; 32]) -> (r: Pubkey)
        ensures
            r@ == pubkey_array@,
    {
        Pubkey(pubkey_array)
    }

    pub fn to_bytes(self) -> (r: [u8; 32])
        ensures
            r@ == self@,
    {
        self.0
    }

    /// The key's bytes.
    pub fn as_slice(&self) -> (r: &[u8])
        ensures
            r@ == self@,
            r@.len() == 32,
    {
        self.0.as_slice()
    }
}

impl std::str::FromStr for Pubkey {
    type Err = ParsePubkeyError;

    fn from_str(s: &str) -> Result<Pubkey, ParsePubkeyError> {
        Pubkey::from_base58_str(s)
    }
}

impl From<[u8; 32]> for Pubkey {
    fn from(from: [u8; 32]) -> (r: Pubkey) {
        Pubkey(from)
    }
}

impl vstd::std_specs::convert::FromSpecImpl<[u8; 32]> for Pubkey {
    open spec fn obeys_from_spec() -> bool {
        true
    }

    closed spec fn from_spec(v: [u8; 32]) -> Pubkey {
        Pubkey(v)
    }
}

} // verus!
