use account_state::account::{
    accounts_equal, serialize_encoded_into, SizeLimitExceeded,
};
use account_state::lamports::LamportsError;
use account_state::{Account, AccountSharedData, Pubkey, ReadableAccount, WritableAccount};

fn key(i: u8) -> Pubkey {
    Pubkey::new_from_array([i; 32])
}

#[test]
fn round_trip_keeps_every_field() {
    let account = Account {
        lamports: 42,
        data: vec![1, 2, 3, 4],
        owner: key(9),
        executable: true,
        rent_epoch: 17,
    };
    let shared = AccountSharedData::from(account.clone());
    assert!(accounts_equal(&account, &shared));
    let back = Account::from(shared);
    assert_eq!(back, account);
    assert_eq!(back.data, vec![1, 2, 3, 4]);
}

#[test]
fn round_trip_of_shared_payload_clones_it() {
    let shared = AccountSharedData::create(3, vec![5, 6], key(1), false, 0);
    let other = shared.clone();
    assert!(shared.is_shared());
    let owned = Account::from(shared);
    assert_eq!(owned.data, vec![5, 6]);
    assert_eq!(other.data(), &[5, 6]);
    assert!(!other.is_shared());
}

#[test]
fn set_data_in_place_keeps_capacity() {
    let mut account = AccountSharedData::new(1, 0, &key(1));
    account.reserve(64);
    let capacity = account.capacity();
    assert!(capacity >= 64);
    account.set_data_from_slice(&[7u8; 40]);
    assert_eq!(account.capacity(), capacity);
    assert_eq!(account.data(), &[7u8; 40][..]);
    account.set_data_from_slice(&[1, 2, 3]);
    assert_eq!(account.capacity(), capacity);
    assert_eq!(account.data(), &[1, 2, 3]);
    account.set_data_from_slice(&[9u8; 200]);
    assert_eq!(account.data(), &[9u8; 200][..]);
}

#[test]
fn set_data_on_shared_payload_leaves_other_holder_alone() {
    let mut account = AccountSharedData::new(1, 4, &key(1));
    account.set_data_from_slice(&[1, 2, 3, 4]);
    let other = account.to_account_shared_data();
    assert!(account.is_shared());
    account.set_data_from_slice(&[8, 8]);
    assert_eq!(account.data(), &[8, 8]);
    assert_eq!(other.data(), &[1, 2, 3, 4]);
    assert!(!account.is_shared());
}

#[test]
fn writes_through_mut_slice_privatize_first() {
    let mut account = AccountSharedData::create(1, vec![0, 0, 0], key(2), false, 0);
    let other = account.clone();
    account.data_as_mut_slice()[1] = 5;
    assert_eq!(account.data(), &[0, 5, 0]);
    assert_eq!(other.data(), &[0, 0, 0]);
}

#[test]
fn growth_operations() {
    let mut account = AccountSharedData::new(1, 2, &key(3));
    let other = account.clone();
    account.extend_from_slice(&[4, 5]);
    assert_eq!(account.data(), &[0, 0, 4, 5]);
    account.resize(6, 9);
    assert_eq!(account.data(), &[0, 0, 4, 5, 9, 9]);
    account.resize(1, 9);
    assert_eq!(account.data(), &[0]);
    assert_eq!(other.data(), &[0, 0]);
    let spare = account.spare_data_capacity_mut().len();
    assert!(spare + 1 <= account.capacity());
    assert_eq!(account.data(), &[0]);
}

#[test]
fn checked_lamports() {
    let mut account = Account::new(u64::MAX - 1, 0, &key(1));
    assert_eq!(account.checked_add_lamports(1), Ok(()));
    assert_eq!(account.lamports(), u64::MAX);
    assert_eq!(
        account.checked_add_lamports(1),
        Err(LamportsError::ArithmeticOverflow)
    );
    assert_eq!(account.lamports(), u64::MAX);
    let mut account = AccountSharedData::new(5, 0, &key(1));
    assert_eq!(account.checked_sub_lamports(5), Ok(()));
    assert_eq!(account.lamports(), 0);
    assert_eq!(
        account.checked_sub_lamports(1),
        Err(LamportsError::ArithmeticUnderflow)
    );
    assert_eq!(account.lamports(), 0);
    assert_eq!(LamportsError::ArithmeticUnderflow.message(), "Arithmetic underflowed");
}

#[test]
fn saturating_lamports() {
    let mut account = Account::new(10, 0, &key(1));
    account.saturating_sub_lamports(11);
    assert_eq!(account.lamports(), 0);
    account.saturating_add_lamports(u64::MAX);
    account.saturating_add_lamports(1);
    assert_eq!(account.lamports(), u64::MAX);
}

#[test]
fn constructors_and_setters() {
    let account = Account::new_rent_epoch(3, 4, &key(7), 12);
    assert_eq!(account.data, vec![0; 4]);
    assert_eq!(account.rent_epoch(), 12);
    assert_eq!(*account.owner(), key(7));
    assert!(!account.executable());
    let shared = AccountSharedData::new_rent_epoch(3, 4, &key(7), 12);
    assert!(accounts_equal(&account, &shared));
    let cell = AccountSharedData::new_ref(3, 4, &key(7));
    assert_eq!(cell.borrow().data(), &[0, 0, 0, 0]);
    let cell = Account::new_ref(1, 2, &key(7));
    assert_eq!(cell.borrow().data, vec![0, 0]);

    let mut account = AccountSharedData::default();
    account.set_lamports(8);
    account.set_owner(key(4));
    account.set_executable(true);
    account.set_rent_epoch(2);
    account.copy_into_owner_from_slice(&[6u8; 32]);
    assert_eq!(account.lamports(), 8);
    assert_eq!(*account.owner(), key(6));
    assert!(account.executable());
    assert_eq!(account.rent_epoch(), 2);
    assert_eq!(Account::default().owner, Pubkey::new_from_array([0; 32]));
}

#[test]
fn differing_accounts_are_not_equal() {
    let a = Account::new(1, 2, &key(1));
    let mut b = a.clone();
    assert!(accounts_equal(&a, &b));
    b.data[1] = 1;
    assert!(!accounts_equal(&a, &b));
    assert_ne!(a, b);
}

#[test]
fn encoded_state_fits_or_is_refused() {
    let mut account = Account::new(1, 4, &key(1));
    assert_eq!(
        serialize_encoded_into(&mut account, &[1, 2, 3, 4, 5]),
        Err(SizeLimitExceeded::SizeLimit)
    );
    assert_eq!(account.data, vec![0, 0, 0, 0]);
    assert_eq!(serialize_encoded_into(&mut account, &[1, 2]), Ok(()));
    assert_eq!(account.data, vec![1, 2, 0, 0]);
}

#[test]
fn read_guards_read_and_share_like_the_account() {
    let cell = AccountSharedData::new_ref(7, 3, &key(2));
    cell.borrow_mut().set_data_from_slice(&[1, 2, 3]);
    let guard = cell.borrow();
    assert_eq!(guard.lamports(), 7);
    assert_eq!(ReadableAccount::data(&guard), &[1, 2, 3]);
    assert_eq!(*ReadableAccount::owner(&guard), key(2));
    assert!(!ReadableAccount::executable(&guard));
    assert_eq!(ReadableAccount::rent_epoch(&guard), 0);
    let copy = ReadableAccount::to_account_shared_data(&guard);
    assert!(copy.is_shared());
    assert!(accounts_equal(&copy, &guard));

    let owned = Account::new_ref(4, 2, &key(3));
    let guard = owned.borrow();
    assert_eq!(ReadableAccount::lamports(&guard), 4);
    assert_eq!(ReadableAccount::data(&guard), &[0, 0]);
    let shared = ReadableAccount::to_account_shared_data(&guard);
    assert!(!shared.is_shared());
    assert!(accounts_equal(&shared, &guard));
}
