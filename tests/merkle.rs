use account_state::account_hasher::AccountHash;
use account_state::{AccountsHasher, Pubkey, Sha256Hasher, MERKLE_FANOUT};
use sha2::Digest;

fn sha(bytes: &[u8]) -> [u8; 32] {
    sha2::Sha256::digest(bytes).into()
}

fn leaf(i: u8) -> account_state::hash::Hash {
    account_state::hash::Hash::new_from_array([i; 32])
}

fn key(i: u8) -> Pubkey {
    let mut b = [0u8; 32];
    b[0] = i;
    Pubkey::new_from_array(b)
}

fn concat(hashes: &[account_state::hash::Hash]) -> Vec<u8> {
    let mut out = Vec::new();
    for h in hashes {
        out.extend_from_slice(h.as_slice());
    }
    out
}

#[test]
fn empty_input_gives_digest_of_empty_stream() {
    for fanout in [2usize, 3, 16] {
        let root = AccountsHasher::compute_merkle_root(vec![], fanout);
        assert_eq!(root.to_bytes(), sha(b""));
    }
    assert_eq!(Sha256Hasher::new().result().to_bytes(), sha(b""));
}

#[test]
fn single_pair_gives_its_own_digest() {
    let root = AccountsHasher::compute_merkle_root(vec![(key(1), leaf(9))], 16);
    assert_eq!(root, leaf(9));
    let root = AccountsHasher::compute_merkle_root_loop(vec![leaf(4)], 2);
    assert_eq!(root, leaf(4));
}

#[test]
fn sixteen_leaves_make_one_chunk() {
    let leaves: Vec<account_state::hash::Hash> = (0..16u8).map(leaf).collect();
    let root = AccountsHasher::compute_merkle_root_loop(leaves.clone(), 16);
    assert_eq!(root.to_bytes(), sha(&concat(&leaves)));
}

#[test]
fn seventeen_leaves_make_two_levels() {
    let leaves: Vec<account_state::hash::Hash> = (0..17u8).map(leaf).collect();
    let root = AccountsHasher::compute_merkle_root_loop(leaves.clone(), 16);
    let first = account_state::hash::Hash::new_from_array(sha(&concat(&leaves[..16])));
    let second = account_state::hash::Hash::new_from_array(sha(&concat(&leaves[16..])));
    assert_eq!(root.to_bytes(), sha(&concat(&[first, second])));
}

#[test]
fn chunk_digests_in_any_order_give_the_same_root() {
    let leaves: Vec<account_state::hash::Hash> = (0..40u8).map(leaf).collect();
    let fanout = 3usize;
    // compute the chunk digests of each level back to front
    let mut level = leaves.clone();
    while level.len() > 1 {
        let chunks = AccountsHasher::div_ceil(level.len(), fanout);
        let mut next = vec![account_state::hash::Hash::default(); chunks];
        for i in (0..chunks).rev() {
            let end = std::cmp::min((i + 1) * fanout, level.len());
            next[i] = account_state::hash::Hash::new_from_array(sha(&concat(&level[i * fanout..end])));
        }
        level = next;
    }
    let root = AccountsHasher::compute_merkle_root_loop(leaves, fanout);
    assert_eq!(root, level[0]);
}

#[test]
fn div_ceil_rounds_up() {
    assert_eq!(AccountsHasher::div_ceil(0, 16), 0);
    assert_eq!(AccountsHasher::div_ceil(16, 16), 1);
    assert_eq!(AccountsHasher::div_ceil(17, 16), 2);
    assert_eq!(AccountsHasher::div_ceil(7, 2), 4);
    assert_eq!(AccountsHasher::div_ceil(usize::MAX, 2), usize::MAX / 2 + 1);
}

#[test]
fn recurse_matches_loop() {
    let leaves: Vec<account_state::hash::Hash> = (0..5u8).map(leaf).collect();
    assert_eq!(
        AccountsHasher::compute_merkle_root_recurse(leaves.clone(), 2),
        AccountsHasher::compute_merkle_root_loop(leaves, 2)
    );
}

#[test]
fn accumulate_sorts_by_address() {
    let pairs = vec![
        (key(3), AccountHash(leaf(30))),
        (key(1), AccountHash(leaf(10))),
        (key(2), AccountHash(leaf(20))),
    ];
    let root = AccountsHasher::accumulate_account_hashes(pairs);
    let expected = sha(&concat(&[leaf(10), leaf(20), leaf(30)]));
    assert_eq!(root.to_bytes(), expected);
    assert_eq!(MERKLE_FANOUT, 16);
}

#[test]
fn hasher_streams_like_one_call() {
    let mut h = Sha256Hasher::new();
    h.hash(b"ab");
    h.hash(b"");
    h.hash(b"cde");
    assert_eq!(h.result().to_bytes(), sha(b"abcde"));
}
