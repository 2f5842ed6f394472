//! Folding per-account digests into one Merkle root.
use crate::hash::{concat_slices, sha256_of, Sha256Hasher};
use crate::pubkey::Pubkey;
use vstd::arithmetic::div_mod::lemma_fundamental_div_mod;
use vstd::prelude::*;

verus! {

/// The fanout of the tree over an account batch.
pub const MERKLE_FANOUT: usize = 16;

/// Digest of one account.
#[derive(Clone, Copy, Debug, Eq)]
pub struct AccountHash(pub crate::hash::Hash);

impl View for AccountHash {
    type V = Seq<u8>;

    open spec fn view(&self) -> Seq<u8> {
        self.0@
    }
}

impl PartialEq for AccountHash {
    fn eq(&self, other: &AccountHash) -> (r: bool) {
        self.0 == other.0
    }
}

impl vstd::std_specs::cmp::PartialEqSpecImpl for AccountHash {
    open spec fn obeys_eq_spec() -> bool {
        true
    }

    open spec fn eq_spec(&self, other: &AccountHash) -> bool {
        self@ == other@
    }
}

/// `n` divided by `d`, rounded up.
pub open spec fn chunk_count(n: nat, d: nat) -> nat {
    if d == 0 {
        0
    } else if n % d == 0 {
        n / d
    } else {
        n / d + 1
    }
}

/// The `i`-th run of at most `fanout` consecutive items of `level`.
pub open spec fn chunk_of(level: Seq<Seq<u8>>, fanout: nat, i: int) -> Seq<Seq<u8>> {
    let start = i * fanout;
    let end = if start + fanout <= level.len() {
        start + fanout
    } else {
        level.len() as int
    };
    level.subrange(start, end)
}

/// One reduction step: the digest of each chunk's concatenated digests.
pub open spec fn next_level(level: Seq<Seq<u8>>, fanout: nat) -> Seq<Seq<u8>> {
    Seq::new(
        chunk_count(level.len(), fanout),
        |i: int| sha256_of(concat_slices(chunk_of(level, fanout, i))),
    )
}

/// The root of the tree over `level` with the given fanout: the digest of
/// the empty stream when there are no leaves, the leaf itself when there is
/// one, and otherwise the root over the next level up.
pub open spec fn merkle_root(level: Seq<Seq<u8>>, fanout: nat) -> Seq<u8>
    decreases level.len(),
    via merkle_root_decreases
{
    if level.len() == 0 {
        sha256_of(Seq::empty())
    } else if level.len() == 1 || fanout < 2 {
        level[0]
    } else {
        merkle_root(next_level(level, fanout), fanout)
    }
}

#[via_fn]
proof fn merkle_root_decreases(level: Seq<Seq<u8>>, fanout: nat) {
    if level.len() >= 2 && fanout >= 2 {
        lemma_chunk_count_bounds(level.len(), fanout);
    }
}

/// A chunk's digest in the next level depends on that chunk alone, so the
/// chunks of a level can be digested in any order, or side by side, and
/// still give the same level and the same root.
pub proof fn lemma_chunk_digest_is_local(
    level1: Seq<Seq<u8>>,
    level2: Seq<Seq<u8>>,
    fanout: nat,
    i: int,
)
    requires
        fanout >= 2,
        level1.len() == level2.len(),
        0 <= i < chunk_count(level1.len(), fanout),
        chunk_of(level1, fanout, i) == chunk_of(level2, fanout, i),
    ensures
        next_level(level1, fanout)[i] == next_level(level2, fanout)[i],
{
}

/// How `chunk_count` sits between multiples of the divisor.
pub proof fn lemma_chunk_count_bounds(n: nat, d: nat)
    requires
        d > 0,
    ensures
        n <= chunk_count(n, d) * d,
        n > 0 ==> chunk_count(n, d) >= 1 && (chunk_count(n, d) - 1) * d < n,
        n >= 2 && d >= 2 ==> chunk_count(n, d) < n,
        n == 0 ==> chunk_count(n, d) == 0,
{
    lemma_fundamental_div_mod(n as int, d as int);
    let q = n / d;
    let r = n % d;
    let c = chunk_count(n, d);
    assert(n == d * q + r);
    if r == 0 {
        assert(c == q);
        assert(n <= c * d) by (nonlinear_arith)
            requires n == d * q + r, r == 0, c == q;
        if n > 0 {
            assert(c >= 1 && (c - 1) * d < n) by (nonlinear_arith)
                requires n == d * q, c == q, n > 0, d > 0;
        }
    } else {
        assert(c == q + 1);
        assert(n <= c * d) by (nonlinear_arith)
            requires n == d * q + r, r < d, c == q + 1;
        assert(c >= 1 && (c - 1) * d < n) by (nonlinear_arith)
            requires n == d * q + r, r > 0, c == q + 1;
    }
    if n >= 2 && d >= 2 {
        assert(c < n) by (nonlinear_arith)
            requires (c - 1) * d < n, c >= 1, d >= 2, n >= 2;
    }
    if n == 0 {
        assert(q == 0);
    }
}

/// The leaf digests of `hashes`.
pub open spec fn leaves_of(hashes: Seq<crate::hash::Hash>) -> Seq<Seq<u8>> {
    hashes.map_values(|h: crate::hash::Hash| h@)
}

/// The digests of keyed pairs, in order.
pub open spec fn keyed_leaves(pairs: Seq<(Pubkey, crate::hash::Hash)>) -> Seq<Seq<u8>> {
    pairs.map_values(|p: (Pubkey, crate::hash::Hash)| p.1@)
}

/// The account digests of keyed pairs, in order.
pub open spec fn account_leaves(pairs: Seq<(Pubkey, AccountHash)>) -> Seq<Seq<u8>> {
    pairs.map_values(|p: (Pubkey, AccountHash)| p.1@)
}

/// Byte-wise lexicographic order: `a` equals `b`, is a proper prefix of it,
/// or is smaller at the first place where they differ.
pub open spec fn bytes_le(a: Seq<u8>, b: Seq<u8>) -> bool {
    a == b || (a.len() < b.len() && a == b.take(a.len() as int)) || exists|k: int|
        0 <= k < a.len() && k < b.len() && a.take(k) == b.take(k) && a[k] < b[k]
}

/// The pairs are in ascending order of address.
pub open spec fn sorted_by_address(pairs: Seq<(Pubkey, AccountHash)>) -> bool {
    forall|i: int, j: int| 0 <= i < j < pairs.len() ==> bytes_le(pairs[i].0@, pairs[j].0@)
}

/// Relies on `slice::sort_unstable_by_key`: the pairs are permuted into
/// ascending order of the address bytes, which arrays compare
/// lexicographically; pairs with equal addresses may come in either order.
#[verifier::external_body]
fn sort_by_address(pairs: &mut Vec<(Pubkey, AccountHash)>)
    ensures
        final(pairs)@.to_multiset() == old(pairs)@.to_multiset(),
        sorted_by_address(final(pairs)@),
{
    pairs.sort_unstable_by_key(|p| p.0.0)
}

#[derive(Debug)]
pub struct AccountsHasher;

impl AccountsHasher {
    /// The Merkle root over the digests of `hashes`, in the given order.
    pub fn compute_merkle_root(hashes: Vec<(Pubkey, crate::hash::Hash)>, fanout: usize) -> (r:
        crate::hash::Hash)
        requires
            fanout >= 2,
        ensures
            r@ == merkle_root(keyed_leaves(hashes@), fanout as nat),
            hashes@.len() == 0 ==> r@ == sha256_of(Seq::empty()),
            hashes@.len() == 1 ==> r@ == hashes@[0].1@,
    {
        let mut digests: Vec<crate::hash::Hash> = Vec::with_capacity(hashes.len());
        let mut i: usize = 0;
        while i < hashes.len()
            invariant
                0 <= i <= hashes@.len(),
                leaves_of(digests@) =~= keyed_leaves(hashes@).take(i as int),
            decreases hashes@.len() - i,
        {
            let ghost pre = digests@;
            digests.push(hashes[i].1);
            assert(digests@ == pre.push(hashes@[i as int].1));
            assert(leaves_of(digests@) =~= leaves_of(pre).push(hashes@[i as int].1@));
            i = i + 1;
        }
        assert(keyed_leaves(hashes@).take(hashes@.len() as int) =~= keyed_leaves(hashes@));
        Self::compute_merkle_root_loop(digests, fanout)
    }

    /// The Merkle root over `hashes`, in the given order: each level's
    /// consecutive runs of `fanout` digests are hashed together until one
    /// digest is left.
    pub fn compute_merkle_root_loop(hashes: Vec<crate::hash::Hash>, fanout: usize) -> (r:
        crate::hash::Hash)
        requires
            fanout >= 2,
        ensures
            r@ == merkle_root(leaves_of(hashes@), fanout as nat),
            hashes@.len() == 0 ==> r@ == sha256_of(Seq::empty()),
            hashes@.len() == 1 ==> r@ == hashes@[0]@,
        decreases hashes@.len(), 0int,
    {
        let ghost leaves = leaves_of(hashes@);
        if hashes.len() == 0 {
            return Sha256Hasher::new().result();
        }
        if hashes.len() == 1 {
            return hashes[0];
        }
        let total_hashes = hashes.len();
        let chunks = Self::div_ceil(total_hashes, fanout);
        proof {
            lemma_chunk_count_bounds(total_hashes as nat, fanout as nat);
        }
        let mut result: Vec<crate::hash::Hash> = Vec::with_capacity(chunks);
        let mut i: usize = 0;
        while i < chunks
            invariant
                0 <= i <= chunks,
                chunks == chunk_count(total_hashes as nat, fanout as nat),
                (chunks - 1) * fanout < total_hashes,
                total_hashes == hashes@.len(),
                leaves == leaves_of(hashes@),
                fanout >= 2,
                leaves_of(result@) =~= next_level(leaves, fanout as nat).take(i as int),
            decreases chunks - i,
        {
            assert(i * fanout < total_hashes) by (nonlinear_arith)
                requires i < chunks, (chunks - 1) * fanout < total_hashes;
            let start_index = i * fanout;
            let end_index = if total_hashes - start_index < fanout {
                total_hashes
            } else {
                start_index + fanout
            };
            let mut hasher = Sha256Hasher::default();
            let mut j: usize = start_index;
            while j < end_index
                invariant
                    start_index <= j <= end_index <= total_hashes,
                    total_hashes == hashes@.len(),
                    leaves == leaves_of(hashes@),
                    hasher@ == concat_slices(leaves.subrange(start_index as int, j as int)),
                decreases end_index - j,
            {
                assert(leaves.subrange(start_index as int, j + 1).drop_last() =~= leaves.subrange(
                    start_index as int,
                    j as int,
                ));
                hasher.hash(hashes[j].as_slice());
                j = j + 1;
            }
            assert(chunk_of(leaves, fanout as nat, i as int) == leaves.subrange(
                start_index as int,
                end_index as int,
            ));
            let digest = hasher.result();
            assert(digest@ == next_level(leaves, fanout as nat)[i as int]);
            let ghost pre = result@;
            result.push(digest);
            assert(leaves_of(result@) =~= leaves_of(pre).push(digest@));
            i = i + 1;
        }
        assert(next_level(leaves, fanout as nat).take(chunks as int) =~= next_level(
            leaves,
            fanout as nat,
        ));
        assert(leaves_of(result@) == next_level(leaves, fanout as nat));
        assert(merkle_root(leaves, fanout as nat) == merkle_root(
            next_level(leaves, fanout as nat),
            fanout as nat,
        ));
        if result.len() == 1 {
            assert(leaves_of(result@)[0] == result@[0]@);
            result[0]
        } else {
            Self::compute_merkle_root_recurse(result, fanout)
        }
    }

    /// The Merkle root over one level of already reduced digests.
    pub fn compute_merkle_root_recurse(hashes: Vec<crate::hash::Hash>, fanout: usize) -> (r:
        crate::hash::Hash)
        requires
            fanout >= 2,
        ensures
            r@ == merkle_root(leaves_of(hashes@), fanout as nat),
        decreases hashes@.len(), 1int,
    {
        Self::compute_merkle_root_loop(hashes, fanout)
    }

    /// The Merkle root, with the standard fanout, over the account digests
    /// after sorting them by address.
    pub fn accumulate_account_hashes(hashes: Vec<(Pubkey, AccountHash)>) -> (r: crate::hash::Hash)
        ensures
            exists|sorted: Seq<(Pubkey, AccountHash)>|
                #![trigger sorted.to_multiset()]
                sorted.to_multiset() == hashes@.to_multiset() && sorted_by_address(sorted)
                    && r@ == merkle_root(account_leaves(sorted), MERKLE_FANOUT as nat),
    {
        let mut hashes = hashes;
        sort_by_address(&mut hashes);
        let mut digests: Vec<crate::hash::Hash> = Vec::with_capacity(hashes.len());
        let mut i: usize = 0;
        while i < hashes.len()
            invariant
                0 <= i <= hashes@.len(),
                leaves_of(digests@) =~= account_leaves(hashes@).take(i as int),
            decreases hashes@.len() - i,
        {
            let ghost pre = digests@;
            digests.push(hashes[i].1.0);
            assert(leaves_of(digests@) =~= leaves_of(pre).push(hashes@[i as int].1@));
            i = i + 1;
        }
        assert(account_leaves(hashes@).take(hashes@.len() as int) =~= account_leaves(hashes@));
        Self::compute_merkle_root_loop(digests, MERKLE_FANOUT)
    }

    /// `x / y` rounded up.
    pub fn div_ceil(x: usize, y: usize) -> (r: usize)
        requires
            y > 0,
        ensures
            r == chunk_count(x as nat, y as nat),
    {
        let mut result = x / y;
        proof {
            lemma_fundamental_div_mod(x as int, y as int);
        }
        if x % y != 0 {
            assert(x / y < x) by (nonlinear_arith)
                requires x == y * (x / y) + x % y, y >= 1, x % y > 0, x / y >= 0;
        }
        if x % y != 0 {
            result += 1;
        }
        result
    }
}

} // verus!
