//! The digest of one account.
use crate::account::ReadableAccount;
use crate::account_hasher::AccountHash;
use crate::clock::Epoch;
use crate::pubkey::Pubkey;
use smallvec::SmallVec;
use vstd::prelude::*;

verus! {

/// blake3's incremental hasher, seen only through the bytes it was fed.
#[verifier::external_type_specification]
#[verifier::external_body]
pub struct ExBlake3Hasher(blake3::Hasher);

/// A 128-byte stack buffer for gathering account bytes before hashing.
#[verifier::external_body]
pub struct StackBuffer {
    inner: SmallVec<[u8; 128]>,
}

/// The bytes a BLAKE3 hasher has been fed.
pub uninterp spec fn blake3_fed(h: blake3::Hasher) -> Seq<u8>;

/// What BLAKE3 yields for a byte stream.
pub uninterp spec fn blake3_of(bytes: Seq<u8>) -> Seq<u8>;

/// The bytes a stack buffer holds.
pub uninterp spec fn buffer_bytes(b: StackBuffer) -> Seq<u8>;

/// Relies on `blake3::Hasher::new`: a hasher that has been fed nothing.
#[verifier::external_body]
fn blake3_new() -> (r: blake3::Hasher)
    ensures
        blake3_fed(r) == Seq::<u8>::empty(),
{
    blake3::Hasher::new()
}

/// Relies on `blake3::Hasher::update`: `input` is appended to the stream;
/// how the stream was cut into calls does not matter.
#[verifier::external_body]
fn blake3_update(h: &mut blake3::Hasher, input: &[u8])
    ensures
        blake3_fed(*final(h)) == blake3_fed(*old(h)) + input@,
{
    h.update(input);
}

/// Relies on `blake3::Hasher::finalize`: the 32-byte digest of the stream.
#[verifier::external_body]
fn blake3_finalize(h: &blake3::Hasher) -> (r: [u8; 32])
    ensures
        r@ == blake3_of(blake3_fed(*h)),
{
    h.finalize().into()
}

/// Relies on `SmallVec::new`: an empty buffer.
#[verifier::external_body]
fn buffer_new() -> (r: StackBuffer)
    ensures
        buffer_bytes(r) == Seq::<u8>::empty(),
{
    StackBuffer { inner: SmallVec::new() }
}

/// Relies on `SmallVec::extend_from_slice`: `s` is appended.
#[verifier::external_body]
fn buffer_extend(b: &mut StackBuffer, s: &[u8])
    ensures
        buffer_bytes(*final(b)) == buffer_bytes(*old(b)) + s@,
{
    b.inner.extend_from_slice(s)
}

/// Relies on `SmallVec::push`: `x` is appended.
#[verifier::external_body]
fn buffer_push(b: &mut StackBuffer, x: u8)
    ensures
        buffer_bytes(*final(b)) == buffer_bytes(*old(b)).push(x),
{
    b.inner.push(x)
}

/// Relies on `SmallVec::clear`: the buffer is emptied.
#[verifier::external_body]
fn buffer_clear(b: &mut StackBuffer)
    ensures
        buffer_bytes(*final(b)) == Seq::<u8>::empty(),
{
    b.inner.clear()
}

/// Relies on `SmallVec::as_slice`: the bytes held, in order.
#[verifier::external_body]
fn buffer_as_slice(b: &StackBuffer) -> (r: &[u8])
    ensures
        r@ == buffer_bytes(*b),
{
    b.inner.as_slice()
}

/// The low `n` bytes of `x`, least significant first.
pub open spec fn le_bytes(x: nat, n: nat) -> Seq<u8>
    decreases n,
{
    if n == 0 {
        Seq::empty()
    } else {
        seq![(x % 256) as u8] + le_bytes(x / 256, (n - 1) as nat)
    }
}

/// 256 to the power `n`.
pub open spec fn pow256(n: nat) -> nat
    decreases n,
{
    if n == 0 {
        1
    } else {
        256 * pow256((n - 1) as nat)
    }
}

/// `le_bytes` gives exactly `n` bytes.
pub proof fn lemma_le_bytes_len(x: nat, n: nat)
    ensures
        le_bytes(x, n).len() == n,
    decreases n,
{
    if n > 0 {
        lemma_le_bytes_len(x / 256, (n - 1) as nat);
    }
}

/// Numbers below `256^n` have distinct `n`-byte encodings.
pub proof fn lemma_le_bytes_injective(x: nat, y: nat, n: nat)
    requires
        x < pow256(n),
        y < pow256(n),
        le_bytes(x, n) == le_bytes(y, n),
    ensures
        x == y,
    decreases n,
{
    if n > 0 {
        let m = (n - 1) as nat;
        let p = pow256(m);
        assert(le_bytes(x, n)[0] == (x % 256) as u8);
        assert(le_bytes(y, n)[0] == (y % 256) as u8);
        assert(x % 256 == y % 256);
        assert(le_bytes(x / 256, m) =~= le_bytes(x, n).skip(1));
        assert(le_bytes(y / 256, m) =~= le_bytes(y, n).skip(1));
        assert(x / 256 < p) by (nonlinear_arith)
            requires x < 256 * p;
        assert(y / 256 < p) by (nonlinear_arith)
            requires y < 256 * p;
        lemma_le_bytes_injective(x / 256, y / 256, m);
        assert(x == y) by (nonlinear_arith)
            requires x / 256 == y / 256, x % 256 == y % 256;
    }
}

/// Every `u64` is below `256^8`.
pub proof fn lemma_u64_below_pow256_8(x: u64)
    ensures
        (x as nat) < pow256(8),
{
    assert(pow256(0) == 1);
    assert(pow256(1) == 256);
    assert(pow256(2) == 65536);
    assert(pow256(3) == 16777216);
    assert(pow256(4) == 4294967296);
    assert(pow256(5) == 1099511627776);
    assert(pow256(6) == 281474976710656);
    assert(pow256(7) == 72057594037927936);
    assert(pow256(8) == 18446744073709551616);
}

/// The eight little-endian bytes of `x`.
pub fn u64_le_bytes(x: u64) -> (r: Vec<u8>)
    ensures
        r@ == le_bytes(x as nat, 8),
{
    let mut out: Vec<u8> = Vec::with_capacity(8);
    let mut v: u64 = x;
    let mut i: usize = 0;
    while i < 8
        invariant
            0 <= i <= 8,
            out@ + le_bytes(v as nat, (8 - i) as nat) == le_bytes(x as nat, 8),
        decreases 8 - i,
    {
        let ghost rest = le_bytes((v / 256) as nat, (8 - i - 1) as nat);
        assert(le_bytes(v as nat, (8 - i) as nat) == seq![(v % 256) as u8] + rest);
        out.push((v % 256) as u8);
        v = v / 256;
        i = i + 1;
    }
    assert(le_bytes(v as nat, 0) =~= Seq::<u8>::empty());
    assert(out@ + Seq::<u8>::empty() =~= out@);
    out
}

/// The byte stream an account's digest is taken over: lamports and rent
/// epoch (eight little-endian bytes each), the payload, the executable flag
/// (one byte), the owner and the account's own address.
pub open spec fn account_hash_input(
    lamports: u64,
    rent_epoch: Epoch,
    data: Seq<u8>,
    executable: bool,
    owner: Seq<u8>,
    pubkey: Seq<u8>,
) -> Seq<u8> {
    le_bytes(lamports as nat, 8) + le_bytes(rent_epoch as nat, 8) + data + seq![
        if executable {
            1u8
        } else {
            0u8
        },
    ] + owner + pubkey
}

/// Accounts that differ in any field, or that are stored at different
/// addresses, never feed the same byte stream to the digest. (That their
/// digests then differ rests on BLAKE3 being collision resistant.)
pub proof fn lemma_account_hash_input_injective(
    lamports1: u64,
    rent_epoch1: Epoch,
    data1: Seq<u8>,
    executable1: bool,
    owner1: Seq<u8>,
    pubkey1: Seq<u8>,
    lamports2: u64,
    rent_epoch2: Epoch,
    data2: Seq<u8>,
    executable2: bool,
    owner2: Seq<u8>,
    pubkey2: Seq<u8>,
)
    requires
        owner1.len() == 32,
        pubkey1.len() == 32,
        owner2.len() == 32,
        pubkey2.len() == 32,
        account_hash_input(lamports1, rent_epoch1, data1, executable1, owner1, pubkey1)
            == account_hash_input(lamports2, rent_epoch2, data2, executable2, owner2, pubkey2),
    ensures
        lamports1 == lamports2,
        rent_epoch1 == rent_epoch2,
        data1 == data2,
        executable1 == executable2,
        owner1 == owner2,
        pubkey1 == pubkey2,
{
    let s1 = account_hash_input(lamports1, rent_epoch1, data1, executable1, owner1, pubkey1);
    let s2 = account_hash_input(lamports2, rent_epoch2, data2, executable2, owner2, pubkey2);
    lemma_le_bytes_len(lamports1 as nat, 8);
    lemma_le_bytes_len(rent_epoch1 as nat, 8);
    lemma_le_bytes_len(lamports2 as nat, 8);
    lemma_le_bytes_len(rent_epoch2 as nat, 8);
    let n = data1.len() as int;
    assert(s1.len() == 81 + data1.len());
    assert(s2.len() == 81 + data2.len());
    assert(data1.len() == data2.len());
    assert(s1.subrange(0, 8) =~= le_bytes(lamports1 as nat, 8));
    assert(s2.subrange(0, 8) =~= le_bytes(lamports2 as nat, 8));
    assert(s1.subrange(8, 16) =~= le_bytes(rent_epoch1 as nat, 8));
    assert(s2.subrange(8, 16) =~= le_bytes(rent_epoch2 as nat, 8));
    assert(s1.subrange(16, 16 + n) =~= data1);
    assert(s2.subrange(16, 16 + n) =~= data2);
    assert(s1[16 + n] == (if executable1 { 1u8 } else { 0u8 }));
    assert(s2[16 + n] == (if executable2 { 1u8 } else { 0u8 }));
    assert(s1.subrange(17 + n, 49 + n) =~= owner1);
    assert(s2.subrange(17 + n, 49 + n) =~= owner2);
    assert(s1.subrange(49 + n, 81 + n) =~= pubkey1);
    assert(s2.subrange(49 + n, 81 + n) =~= pubkey2);
    lemma_u64_below_pow256_8(lamports1);
    lemma_u64_below_pow256_8(lamports2);
    lemma_u64_below_pow256_8(rent_epoch1);
    lemma_u64_below_pow256_8(rent_epoch2);
    lemma_le_bytes_injective(lamports1 as nat, lamports2 as nat, 8);
    lemma_le_bytes_injective(rent_epoch1 as nat, rent_epoch2 as nat, 8);
}

/// The digest of an account: all zeros for an account without lamports,
/// otherwise the BLAKE3 digest of its byte stream.
pub open spec fn account_digest(
    lamports: u64,
    rent_epoch: Epoch,
    data: Seq<u8>,
    executable: bool,
    owner: Seq<u8>,
    pubkey: Seq<u8>,
) -> Seq<u8> {
    if lamports == 0 {
        Seq::new(32, |i: int| 0u8)
    } else {
        blake3_of(account_hash_input(lamports, rent_epoch, data, executable, owner, pubkey))
    }
}

/// Room in the stack buffer for account bytes.
const BUF_SIZE: usize = 128;

/// Bytes set aside for the fixed-size fields, with eight to spare.
const TOTAL_FIELD_SIZE: usize = 8 + 8 + 8 + 1 + 32 + 32;

/// The largest payload that is gathered in the buffer with the other fields.
const DATA_SIZE_CAN_FIT: usize = BUF_SIZE - TOTAL_FIELD_SIZE;

/// The digest of `account` stored at `pubkey`.
pub fn hash_account<T: ReadableAccount>(account: &T, pubkey: &Pubkey) -> (r: AccountHash)
    ensures
        r@ == account_digest(
            account.lamports_spec(),
            account.rent_epoch_spec(),
            account.data_spec(),
            account.executable_spec(),
            account.owner_spec()@,
            pubkey@,
        ),
{
    hash_account_data(
        account.lamports(),
        account.owner(),
        account.executable(),
        account.rent_epoch(),
        account.data(),
        pubkey,
    )
}

/// The digest of an account given by its fields. A small payload is
/// gathered with the other fields into one buffer and hashed in one call; a
/// large one is streamed to the hasher between them. The digest is the same
/// either way.
pub fn hash_account_data(
    lamports: u64,
    owner: &Pubkey,
    executable: bool,
    rent_epoch: Epoch,
    data: &[u8],
    pubkey: &Pubkey,
) -> (r: AccountHash)
    ensures
        r@ == account_digest(lamports, rent_epoch, data@, executable, owner@, pubkey@),
{
    if lamports == 0 {
        let zero = crate::hash::Hash::new_from_array([0u8; 32]);
        assert(zero@ =~= Seq::new(32, |i: int| 0u8));
        return AccountHash(zero);
    }
    let mut hasher = blake3_new();
    let mut buffer = buffer_new();
    let lamport_bytes = u64_le_bytes(lamports);
    buffer_extend(&mut buffer, lamport_bytes.as_slice());
    let epoch_bytes = u64_le_bytes(rent_epoch);
    buffer_extend(&mut buffer, epoch_bytes.as_slice());
    let ghost fixed = le_bytes(lamports as nat, 8) + le_bytes(rent_epoch as nat, 8);
    if data.len() > DATA_SIZE_CAN_FIT {
        blake3_update(&mut hasher, buffer_as_slice(&buffer));
        buffer_clear(&mut buffer);
        blake3_update(&mut hasher, data);
    } else {
        buffer_extend(&mut buffer, data);
    }
    assert(blake3_fed(hasher) + buffer_bytes(buffer) =~= fixed + data@);
    if executable {
        buffer_push(&mut buffer, 1u8);
    } else {
        buffer_push(&mut buffer, 0u8);
    }
    buffer_extend(&mut buffer, owner.as_slice());
    buffer_extend(&mut buffer, pubkey.as_slice());
    blake3_update(&mut hasher, buffer_as_slice(&buffer));
    assert(blake3_fed(hasher) =~= account_hash_input(
        lamports,
        rent_epoch,
        data@,
        executable,
        owner@,
        pubkey@,
    ));
    AccountHash(crate::hash::Hash::new_from_array(blake3_finalize(&hasher)))
}

} // verus!
