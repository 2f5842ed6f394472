use account_state::accounts_db::{hash_account, hash_account_data, u64_le_bytes};
use account_state::{Account, AccountSharedData, Pubkey};

fn stream(
    lamports: u64,
    rent_epoch: u64,
    data: &[u8],
    executable: bool,
    owner: &Pubkey,
    pubkey: &Pubkey,
) -> [u8; 32] {
    let mut bytes = Vec::new();
    bytes.extend_from_slice(&lamports.to_le_bytes());
    bytes.extend_from_slice(&rent_epoch.to_le_bytes());
    bytes.extend_from_slice(data);
    bytes.push(if executable { 1 } else { 0 });
    bytes.extend_from_slice(&owner.to_bytes());
    bytes.extend_from_slice(&pubkey.to_bytes());
    blake3::hash(&bytes).into()
}

fn key(i: u8) -> Pubkey {
    Pubkey::new_from_array([i; 32])
}

#[test]
fn zero_lamports_hash_to_zeros() {
    for data in [vec![], vec![1u8; 10], vec![9u8; 500]] {
        let account = Account {
            lamports: 0,
            data,
            owner: key(1),
            executable: true,
            rent_epoch: 7,
        };
        assert_eq!(hash_account(&account, &key(2)).0.to_bytes(), [0u8; 32]);
        assert_eq!(hash_account(&account, &key(3)).0.to_bytes(), [0u8; 32]);
    }
}

#[test]
fn example_account_digest() {
    let owner = key(0x11);
    let address = key(0x22);
    let account = Account {
        lamports: 5_000_000,
        data: vec![],
        owner,
        executable: false,
        rent_epoch: 0,
    };
    let digest = hash_account(&account, &address);
    assert_eq!(
        digest.0.to_bytes(),
        stream(5_000_000, 0, &[], false, &owner, &address)
    );
    let mut bigger = account.clone();
    bigger.data = vec![0u8; 200];
    assert_ne!(hash_account(&bigger, &address), digest);
    let mut emptied = account.clone();
    emptied.lamports = 0;
    let mut emptied_big = bigger.clone();
    emptied_big.lamports = 0;
    assert_eq!(hash_account(&emptied, &address), hash_account(&emptied_big, &address));
}

#[test]
fn buffered_and_streamed_paths_agree() {
    let owner = key(5);
    let address = key(6);
    for len in [0usize, 1, 38, 39, 40, 56, 57, 100, 4096] {
        let data: Vec<u8> = (0..len).map(|i| (i % 251) as u8).collect();
        let digest = hash_account_data(9, &owner, true, 3, &data, &address);
        assert_eq!(digest.0.to_bytes(), stream(9, 3, &data, true, &owner, &address));
    }
}

#[test]
fn each_field_changes_the_digest() {
    let base = Account {
        lamports: 10,
        data: vec![1, 2, 3],
        owner: key(1),
        executable: false,
        rent_epoch: 4,
    };
    let address = key(2);
    let d = hash_account(&base, &address);
    let mut a = base.clone();
    a.lamports = 11;
    assert_ne!(hash_account(&a, &address), d);
    let mut a = base.clone();
    a.rent_epoch = 5;
    assert_ne!(hash_account(&a, &address), d);
    let mut a = base.clone();
    a.data = vec![1, 2, 4];
    assert_ne!(hash_account(&a, &address), d);
    let mut a = base.clone();
    a.executable = true;
    assert_ne!(hash_account(&a, &address), d);
    let mut a = base.clone();
    a.owner = key(3);
    assert_ne!(hash_account(&a, &address), d);
    assert_ne!(hash_account(&base, &key(3)), d);
}

#[test]
fn shared_and_owned_accounts_hash_alike() {
    let account = Account {
        lamports: 1,
        data: vec![4; 80],
        owner: key(8),
        executable: false,
        rent_epoch: 2,
    };
    let shared = AccountSharedData::from(account.clone());
    assert_eq!(hash_account(&account, &key(1)), hash_account(&shared, &key(1)));
}

#[test]
fn little_endian_bytes() {
    assert_eq!(u64_le_bytes(0x0102030405060708), vec![8, 7, 6, 5, 4, 3, 2, 1]);
    assert_eq!(u64_le_bytes(u64::MAX), vec![255; 8]);
}
