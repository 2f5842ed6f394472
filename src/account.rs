//! Account values: a fully owned record, and one whose payload is shared
//! between holders and copied only when written.
use crate::clock::Epoch;
use crate::lamports::LamportsError;
use crate::pubkey::Pubkey;
use std::cell::RefCell;
use std::rc::Rc;
use std::sync::Arc;
use vstd::prelude::*;

verus! {

/// Relies on `Arc::make_mut`: a mutable view of the payload, cloned first
/// when other holders share it; writes through it land in `this`.
#[verifier::external_body]
fn arc_make_mut(this: &mut Arc<Vec<u8>>) -> (r: &mut Vec<u8>)
    ensures
        r@ == old(this)@,
        final(this)@ == final(r)@,
{
    Arc::make_mut(this)
}

/// Relies on `Arc::strong_count`: how many handles share the payload now.
#[verifier::external_body]
fn arc_strong_count(this: &Arc<Vec<u8>>) -> (r: usize) {
    Arc::strong_count(this)
}

/// Relies on `Arc::clone`: a second handle on the same payload.
#[verifier::external_body]
fn arc_share(this: &Arc<Vec<u8>>) -> (r: Arc<Vec<u8>>)
    ensures
        r@ == this@,
{
    Arc::clone(this)
}

/// Relies on `Vec::capacity`: how many bytes the buffer holds without
/// reallocating.
#[verifier::external_body]
fn vec_capacity(v: &Vec<u8>) -> (r: usize) {
    v.capacity()
}

/// Relies on `Vec::spare_capacity_mut`: the allocated tail past the length;
/// writing there leaves the length and the contents alone.
#[verifier::external_body]
fn vec_spare_capacity_mut(v: &mut Vec<u8>) -> (r: &mut [std::mem::MaybeUninit<u8>])
    ensures
        final(v)@ == old(v)@,
{
    v.spare_capacity_mut()
}

/// std's `RefCell`, carried through as an opaque value.
#[verifier::external_type_specification]
#[verifier::external_body]
#[verifier::reject_recursive_types(T)]
pub struct ExRefCell<T: ?Sized>(std::cell::RefCell<T>);

/// Relies on `RefCell::new`: a cell holding `value`.
#[verifier::external_body]
fn new_cell<T>(value: T) -> (r: std::cell::RefCell<T>) {
    std::cell::RefCell::new(value)
}

/// std's read guard on a `RefCell`, seen only through what it borrows.
#[verifier::external_type_specification]
#[verifier::external_body]
#[verifier::reject_recursive_types(T)]
pub struct ExRef<'b, T: ?Sized>(std::cell::Ref<'b, T>);

/// The account a read guard borrows.
pub uninterp spec fn guarded_shared(r: std::cell::Ref<'_, AccountSharedData>) -> AccountSharedData;

/// The account a read guard borrows.
pub uninterp spec fn guarded_account(r: std::cell::Ref<'_, Account>) -> Account;

/// Relies on `Ref`'s `Deref`: the account the guard borrows.
#[verifier::external_body]
fn deref_shared<'a, 'b>(r: &'a std::cell::Ref<'b, AccountSharedData>) -> (res: &'a AccountSharedData)
    ensures
        *res == guarded_shared(*r),
{
    r
}

/// Relies on `Ref`'s `Deref`: the account the guard borrows.
#[verifier::external_body]
fn deref_account<'a, 'b>(r: &'a std::cell::Ref<'b, Account>) -> (res: &'a Account)
    ensures
        *res == guarded_account(*r),
{
    r
}

/// A fresh vector holding the bytes of `s`.
pub fn copy_bytes(s: &[u8]) -> (r: Vec<u8>)
    ensures
        r@ == s@,
{
    let mut v: Vec<u8> = Vec::new();
    v.extend_from_slice(s);
    assert(v@ =~= s@);
    v
}

/// `len` zero bytes.
pub open spec fn zeros(len: nat) -> Seq<u8> {
    Seq::new(len, |i: int| 0u8)
}

/// A vector of `len` zero bytes.
pub fn zeroed(len: usize) -> (r: Vec<u8>)
    ensures
        r@ == zeros(len as nat),
{
    let mut v: Vec<u8> = Vec::with_capacity(len);
    let mut i: usize = 0;
    while i < len
        invariant
            0 <= i <= len,
            v@ =~= zeros(i as nat),
        decreases len - i,
    {
        v.push(0u8);
        i = i + 1;
    }
    v
}

/// Byte-wise equality of two slices.
pub fn slices_eq(a: &[u8], b: &[u8]) -> (r: bool)
    ensures
        r == (a@ == b@),
{
    if a.len() != b.len() {
        return false;
    }
    let mut i: usize = 0;
    while i < a.len()
        invariant
            0 <= i <= a@.len(),
            a@.len() == b@.len(),
            forall|j: int| 0 <= j < i ==> a@[j] == b@[j],
        decreases a@.len() - i,
    {
        if a[i] != b[i] {
            return false;
        }
        i = i + 1;
    }
    assert(a@ =~= b@);
    true
}

/// An account with data that is stored on chain.
#[derive(Clone, Debug, Eq)]
pub struct Account {
    /// lamports in the account
    pub lamports: u64,
    /// data held in this account
    pub data: Vec<u8>,
    /// the program that owns this account; if executable, the program that loads it
    pub owner: Pubkey,
    /// this account's data contains a loaded program (and is now read-only)
    pub executable: bool,
    /// the epoch at which this account will next owe rent
    pub rent_epoch: Epoch,
}

/// An account whose payload may be shared by several holders; a holder that
/// writes gets a private copy unless it is the only one.
#[derive(Clone, Debug, Eq)]
pub struct AccountSharedData {
    lamports: u64,
    data: Arc<Vec<u8>>,
    owner: Pubkey,
    executable: bool,
    rent_epoch: Epoch,
}

/// Read access to the five fields of an account.
pub trait ReadableAccount: Sized {
    spec fn lamports_spec(&self) -> u64;

    spec fn data_spec(&self) -> Seq<u8>;

    spec fn owner_spec(&self) -> Pubkey;

    spec fn executable_spec(&self) -> bool;

    spec fn rent_epoch_spec(&self) -> Epoch;

    fn lamports(&self) -> (r: u64)
        ensures
            r == self.lamports_spec(),
    ;

    fn data(&self) -> (r: &[u8])
        ensures
            r@ == self.data_spec(),
    ;

    fn owner(&self) -> (r: &Pubkey)
        ensures
            *r == self.owner_spec(),
    ;

    fn executable(&self) -> (r: bool)
        ensures
            r == self.executable_spec(),
    ;

    fn rent_epoch(&self) -> (r: Epoch)
        ensures
            r == self.rent_epoch_spec(),
    ;

    /// The same account as a value with a shareable payload.
    fn to_account_shared_data(&self) -> (r: AccountSharedData)
        ensures
            r.spec_lamports() == self.lamports_spec(),
            r.spec_data() == self.data_spec(),
            r.spec_owner() == self.owner_spec(),
            r.spec_executable() == self.executable_spec(),
            r.spec_rent_epoch() == self.rent_epoch_spec(),
    {
        AccountSharedData::from_fields(
            self.lamports(),
            copy_bytes(self.data()),
            *self.owner(),
            self.executable(),
            self.rent_epoch(),
        )
    }
}

/// The two accounts agree on all five fields.
pub open spec fn same_fields<A: ReadableAccount, B: ReadableAccount>(a: &A, b: &B) -> bool {
    &&& a.lamports_spec() == b.lamports_spec()
    &&& a.data_spec() == b.data_spec()
    &&& a.owner_spec()@ == b.owner_spec()@
    &&& a.executable_spec() == b.executable_spec()
    &&& a.rent_epoch_spec() == b.rent_epoch_spec()
}

/// The account holds exactly the five given values.
pub open spec fn has_fields<A: ReadableAccount>(
    a: &A,
    lamports: u64,
    data: Seq<u8>,
    owner: Pubkey,
    executable: bool,
    rent_epoch: Epoch,
) -> bool {
    &&& a.lamports_spec() == lamports
    &&& a.data_spec() == data
    &&& a.owner_spec() == owner
    &&& a.executable_spec() == executable
    &&& a.rent_epoch_spec() == rent_epoch
}

/// Converting an account to a shared one (`AccountSharedData::from_account`)
/// and back (`Account::from_shared`) reproduces all five fields, payload
/// bytes included.
pub proof fn lemma_conversion_round_trip(
    account: &Account,
    shared: &AccountSharedData,
    back: &Account,
)
    requires
        same_fields(shared, account),
        same_fields(back, shared),
    ensures
        same_fields(back, account),
        back.data@ == account.data@,
{
}

/// Compares two readable accounts: true when all fields are equal.
pub fn accounts_equal<T: ReadableAccount, U: ReadableAccount>(me: &T, other: &U) -> (r: bool)
    ensures
        r == same_fields(me, other),
{
    me.lamports() == other.lamports() && me.executable() == other.executable()
        && me.rent_epoch() == other.rent_epoch() && *me.owner() == *other.owner() && slices_eq(
        me.data(),
        other.data(),
    )
}

/// Write access to the five fields of an account.
pub trait WritableAccount: ReadableAccount {
    fn set_lamports(&mut self, lamports: u64)
        ensures
            has_fields(
                final(self),
                lamports,
                old(self).data_spec(),
                old(self).owner_spec(),
                old(self).executable_spec(),
                old(self).rent_epoch_spec(),
            ),
    ;

    /// Adds to the balance; on overflow the account is left as it was.
    fn checked_add_lamports(&mut self, lamports: u64) -> (r: Result<(), LamportsError>)
        ensures
            old(self).lamports_spec() + lamports <= u64::MAX ==> r == Ok::<(), LamportsError>(())
                && has_fields(
                final(self),
                (old(self).lamports_spec() + lamports) as u64,
                old(self).data_spec(),
                old(self).owner_spec(),
                old(self).executable_spec(),
                old(self).rent_epoch_spec(),
            ),
            old(self).lamports_spec() + lamports > u64::MAX ==> r == Err::<(), LamportsError>(
                LamportsError::ArithmeticOverflow,
            ) && *final(self) == *old(self),
    {
        match self.lamports().checked_add(lamports) {
            Some(sum) => {
                self.set_lamports(sum);
                Ok(())
            },
            None => Err(LamportsError::ArithmeticOverflow),
        }
    }

    /// Takes from the balance; on underflow the account is left as it was.
    fn checked_sub_lamports(&mut self, lamports: u64) -> (r: Result<(), LamportsError>)
        ensures
            lamports <= old(self).lamports_spec() ==> r == Ok::<(), LamportsError>(()) && has_fields(
                final(self),
                (old(self).lamports_spec() - lamports) as u64,
                old(self).data_spec(),
                old(self).owner_spec(),
                old(self).executable_spec(),
                old(self).rent_epoch_spec(),
            ),
            lamports > old(self).lamports_spec() ==> r == Err::<(), LamportsError>(
                LamportsError::ArithmeticUnderflow,
            ) && *final(self) == *old(self),
    {
        match self.lamports().checked_sub(lamports) {
            Some(diff) => {
                self.set_lamports(diff);
                Ok(())
            },
            None => Err(LamportsError::ArithmeticUnderflow),
        }
    }

    /// Adds to the balance, stopping at the largest value.
    fn saturating_add_lamports(&mut self, lamports: u64)
        ensures
            has_fields(
                final(self),
                if old(self).lamports_spec() + lamports > u64::MAX {
                    u64::MAX
                } else {
                    (old(self).lamports_spec() + lamports) as u64
                },
                old(self).data_spec(),
                old(self).owner_spec(),
                old(self).executable_spec(),
                old(self).rent_epoch_spec(),
            ),
    {
        self.set_lamports(self.lamports().saturating_add(lamports))
    }

    /// Takes from the balance, stopping at zero.
    fn saturating_sub_lamports(&mut self, lamports: u64)
        ensures
            has_fields(
                final(self),
                if lamports > old(self).lamports_spec() {
                    0
                } else {
                    (old(self).lamports_spec() - lamports) as u64
                },
                old(self).data_spec(),
                old(self).owner_spec(),
                old(self).executable_spec(),
                old(self).rent_epoch_spec(),
            ),
    {
        self.set_lamports(self.lamports().saturating_sub(lamports))
    }

    /// The payload, writable in place; what is written there becomes the
    /// account's payload.
    fn data_as_mut_slice(&mut self) -> (r: &mut [u8])
        ensures
            r@ == old(self).data_spec(),
            has_fields(
                final(self),
                old(self).lamports_spec(),
                final(r)@,
                old(self).owner_spec(),
                old(self).executable_spec(),
                old(self).rent_epoch_spec(),
            ),
    ;

    fn set_owner(&mut self, owner: Pubkey)
        ensures
            has_fields(
                final(self),
                old(self).lamports_spec(),
                old(self).data_spec(),
                owner,
                old(self).executable_spec(),
                old(self).rent_epoch_spec(),
            ),
    ;

    /// Sets the owner from its 32 bytes.
    fn copy_into_owner_from_slice(&mut self, source: &[u8])
        requires
            source@.len() == 32,
        ensures
            final(self).owner_spec()@ == source@,
            has_fields(
                final(self),
                old(self).lamports_spec(),
                old(self).data_spec(),
                final(self).owner_spec(),
                old(self).executable_spec(),
                old(self).rent_epoch_spec(),
            ),
    ;

    fn set_executable(&mut self, executable: bool)
        ensures
            has_fields(
                final(self),
                old(self).lamports_spec(),
                old(self).data_spec(),
                old(self).owner_spec(),
                executable,
                old(self).rent_epoch_spec(),
            ),
    ;

    fn set_rent_epoch(&mut self, epoch: Epoch)
        ensures
            has_fields(
                final(self),
                old(self).lamports_spec(),
                old(self).data_spec(),
                old(self).owner_spec(),
                old(self).executable_spec(),
                epoch,
            ),
    ;

    fn create(
        lamports: u64,
        data: Vec<u8>,
        owner: Pubkey,
        executable: bool,
        rent_epoch: Epoch,
    ) -> (r: Self)
        ensures
            has_fields(&r, lamports, data@, owner, executable, rent_epoch),
    ;
}

} // verus!

verus! {

impl ReadableAccount for Account {
    open spec fn lamports_spec(&self) -> u64 {
        self.lamports
    }

    open spec fn data_spec(&self) -> Seq<u8> {
        self.data@
    }

    open spec fn owner_spec(&self) -> Pubkey {
        self.owner
    }

    open spec fn executable_spec(&self) -> bool {
        self.executable
    }

    open spec fn rent_epoch_spec(&self) -> Epoch {
        self.rent_epoch
    }

    fn lamports(&self) -> (r: u64) {
        self.lamports
    }

    fn data(&self) -> (r: &[u8]) {
        self.data.as_slice()
    }

    fn owner(&self) -> (r: &Pubkey) {
        &self.owner
    }

    fn executable(&self) -> (r: bool) {
        self.executable
    }

    fn rent_epoch(&self) -> (r: Epoch) {
        self.rent_epoch
    }
}

impl WritableAccount for Account {
    fn set_lamports(&mut self, lamports: u64) {
        self.lamports = lamports;
    }

    fn data_as_mut_slice(&mut self) -> (r: &mut [u8]) {
        self.data.as_mut_slice()
    }

    fn set_owner(&mut self, owner: Pubkey) {
        self.owner = owner;
    }

    fn copy_into_owner_from_slice(&mut self, source: &[u8]) {
        self.owner = Pubkey::new(source);
    }

    fn set_executable(&mut self, executable: bool) {
        self.executable = executable;
    }

    fn set_rent_epoch(&mut self, epoch: Epoch) {
        self.rent_epoch = epoch;
    }

    fn create(
        lamports: u64,
        data: Vec<u8>,
        owner: Pubkey,
        executable: bool,
        rent_epoch: Epoch,
    ) -> (r: Self) {
        Account { lamports, data, owner, executable, rent_epoch }
    }
}

impl AccountSharedData {
    pub closed spec fn spec_lamports(&self) -> u64 {
        self.lamports
    }

    pub closed spec fn spec_data(&self) -> Seq<u8> {
        self.data@
    }

    pub closed spec fn spec_owner(&self) -> Pubkey {
        self.owner
    }

    pub closed spec fn spec_executable(&self) -> bool {
        self.executable
    }

    pub closed spec fn spec_rent_epoch(&self) -> Epoch {
        self.rent_epoch
    }

    /// A shared account holding the five given values.
    pub fn from_fields(
        lamports: u64,
        data: Vec<u8>,
        owner: Pubkey,
        executable: bool,
        rent_epoch: Epoch,
    ) -> (r: Self)
        ensures
            r.spec_lamports() == lamports,
            r.spec_data() == data@,
            r.spec_owner() == owner,
            r.spec_executable() == executable,
            r.spec_rent_epoch() == rent_epoch,
    {
        AccountSharedData { lamports, data: Arc::new(data), owner, executable, rent_epoch }
    }
}

impl ReadableAccount for AccountSharedData {
    open spec fn lamports_spec(&self) -> u64 {
        self.spec_lamports()
    }

    open spec fn data_spec(&self) -> Seq<u8> {
        self.spec_data()
    }

    open spec fn owner_spec(&self) -> Pubkey {
        self.spec_owner()
    }

    open spec fn executable_spec(&self) -> bool {
        self.spec_executable()
    }

    open spec fn rent_epoch_spec(&self) -> Epoch {
        self.spec_rent_epoch()
    }

    fn lamports(&self) -> (r: u64) {
        self.lamports
    }

    fn data(&self) -> (r: &[u8]) {
        self.data.as_slice()
    }

    fn owner(&self) -> (r: &Pubkey) {
        &self.owner
    }

    fn executable(&self) -> (r: bool) {
        self.executable
    }

    fn rent_epoch(&self) -> (r: Epoch) {
        self.rent_epoch
    }

    /// Shares the payload rather than copying it.
    fn to_account_shared_data(&self) -> (r: AccountSharedData) {
        AccountSharedData {
            lamports: self.lamports,
            data: arc_share(&self.data),
            owner: self.owner,
            executable: self.executable,
            rent_epoch: self.rent_epoch,
        }
    }
}

impl WritableAccount for AccountSharedData {
    fn set_lamports(&mut self, lamports: u64) {
        self.lamports = lamports;
    }

    fn data_as_mut_slice(&mut self) -> (r: &mut [u8]) {
        self.data_mut().as_mut_slice()
    }

    fn set_owner(&mut self, owner: Pubkey) {
        self.owner = owner;
    }

    fn copy_into_owner_from_slice(&mut self, source: &[u8]) {
        self.owner = Pubkey::new(source);
    }

    fn set_executable(&mut self, executable: bool) {
        self.executable = executable;
    }

    fn set_rent_epoch(&mut self, epoch: Epoch) {
        self.rent_epoch = epoch;
    }

    fn create(
        lamports: u64,
        data: Vec<u8>,
        owner: Pubkey,
        executable: bool,
        rent_epoch: Epoch,
    ) -> (r: Self) {
        AccountSharedData::from_fields(lamports, data, owner, executable, rent_epoch)
    }
}

impl<'b> ReadableAccount for std::cell::Ref<'b, AccountSharedData> {
    open spec fn lamports_spec(&self) -> u64 {
        guarded_shared(*self).spec_lamports()
    }

    open spec fn data_spec(&self) -> Seq<u8> {
        guarded_shared(*self).spec_data()
    }

    open spec fn owner_spec(&self) -> Pubkey {
        guarded_shared(*self).spec_owner()
    }

    open spec fn executable_spec(&self) -> bool {
        guarded_shared(*self).spec_executable()
    }

    open spec fn rent_epoch_spec(&self) -> Epoch {
        guarded_shared(*self).spec_rent_epoch()
    }

    fn lamports(&self) -> (r: u64) {
        deref_shared(self).lamports
    }

    fn data(&self) -> (r: &[u8]) {
        deref_shared(self).data.as_slice()
    }

    fn owner(&self) -> (r: &Pubkey) {
        &deref_shared(self).owner
    }

    fn executable(&self) -> (r: bool) {
        deref_shared(self).executable
    }

    fn rent_epoch(&self) -> (r: Epoch) {
        deref_shared(self).rent_epoch
    }

    /// Shares the borrowed payload rather than copying it.
    fn to_account_shared_data(&self) -> (r: AccountSharedData) {
        let account = deref_shared(self);
        AccountSharedData {
            lamports: account.lamports,
            data: arc_share(&account.data),
            owner: account.owner,
            executable: account.executable,
            rent_epoch: account.rent_epoch,
        }
    }
}

impl<'b> ReadableAccount for std::cell::Ref<'b, Account> {
    open spec fn lamports_spec(&self) -> u64 {
        guarded_account(*self).lamports
    }

    open spec fn data_spec(&self) -> Seq<u8> {
        guarded_account(*self).data@
    }

    open spec fn owner_spec(&self) -> Pubkey {
        guarded_account(*self).owner
    }

    open spec fn executable_spec(&self) -> bool {
        guarded_account(*self).executable
    }

    open spec fn rent_epoch_spec(&self) -> Epoch {
        guarded_account(*self).rent_epoch
    }

    fn lamports(&self) -> (r: u64) {
        deref_account(self).lamports
    }

    fn data(&self) -> (r: &[u8]) {
        deref_account(self).data.as_slice()
    }

    fn owner(&self) -> (r: &Pubkey) {
        &deref_account(self).owner
    }

    fn executable(&self) -> (r: bool) {
        deref_account(self).executable
    }

    fn rent_epoch(&self) -> (r: Epoch) {
        deref_account(self).rent_epoch
    }
}

impl PartialEq for Account {
    fn eq(&self, other: &Account) -> (r: bool) {
        accounts_equal(self, other)
    }
}

impl vstd::std_specs::cmp::PartialEqSpecImpl for Account {
    open spec fn obeys_eq_spec() -> bool {
        true
    }

    open spec fn eq_spec(&self, other: &Account) -> bool {
        same_fields(self, other)
    }
}

impl PartialEq for AccountSharedData {
    fn eq(&self, other: &AccountSharedData) -> (r: bool) {
        accounts_equal(self, other)
    }
}

impl vstd::std_specs::cmp::PartialEqSpecImpl for AccountSharedData {
    open spec fn obeys_eq_spec() -> bool {
        true
    }

    open spec fn eq_spec(&self, other: &AccountSharedData) -> bool {
        same_fields(self, other)
    }
}

impl Default for Account {
    fn default() -> (r: Account)
        ensures
            has_fields(&r, 0, Seq::empty(), r.owner_spec(), false, 0),
            r.owner_spec()@ == zeros(32),
    {
        let owner = Pubkey::new_from_array([0u8; 32]);
        assert(owner@ =~= zeros(32));
        Account {
            lamports: 0,
            data: Vec::new(),
            owner,
            executable: false,
            rent_epoch: 0,
        }
    }
}

impl Default for AccountSharedData {
    fn default() -> (r: AccountSharedData)
        ensures
            has_fields(&r, 0, Seq::empty(), r.owner_spec(), false, 0),
            r.owner_spec()@ == zeros(32),
    {
        let owner = Pubkey::new_from_array([0u8; 32]);
        assert(owner@ =~= zeros(32));
        AccountSharedData::create(0, Vec::new(), owner, false, 0)
    }
}

/// A new account of `space` zero bytes, not executable, with the given
/// rent epoch.
fn shared_new_rent_epoch<T: WritableAccount>(
    lamports: u64,
    space: usize,
    owner: &Pubkey,
    rent_epoch: Epoch,
) -> (r: T)
    ensures
        has_fields(&r, lamports, zeros(space as nat), *owner, false, rent_epoch),
{
    T::create(lamports, zeroed(space), *owner, false, rent_epoch)
}

/// A new account of `space` zero bytes, not executable, at the initial
/// rent epoch.
fn shared_new<T: WritableAccount>(lamports: u64, space: usize, owner: &Pubkey) -> (r: T)
    ensures
        has_fields(&r, lamports, zeros(space as nat), *owner, false, 0),
{
    shared_new_rent_epoch(lamports, space, owner, crate::clock::INITIAL_RENT_EPOCH)
}

/// A new account of `space` zero bytes in a shared cell.
fn shared_new_ref<T: WritableAccount>(lamports: u64, space: usize, owner: &Pubkey) -> Rc<
    RefCell<T>,
> {
    Rc::new(new_cell(shared_new::<T>(lamports, space, owner)))
}

impl From<AccountSharedData> for Account {
    fn from(other: AccountSharedData) -> Account {
        Account::from_shared(other)
    }
}

impl vstd::std_specs::convert::FromSpecImpl<AccountSharedData> for Account {
    open spec fn obeys_from_spec() -> bool {
        false
    }

    open spec fn from_spec(v: AccountSharedData) -> Account {
        arbitrary()
    }
}

impl From<Account> for AccountSharedData {
    fn from(other: Account) -> AccountSharedData {
        AccountSharedData::from_account(other)
    }
}

impl vstd::std_specs::convert::FromSpecImpl<Account> for AccountSharedData {
    open spec fn obeys_from_spec() -> bool {
        false
    }

    open spec fn from_spec(v: Account) -> AccountSharedData {
        arbitrary()
    }
}

impl Account {
    pub fn new(lamports: u64, space: usize, owner: &Pubkey) -> (r: Self)
        ensures
            has_fields(&r, lamports, zeros(space as nat), *owner, false, 0),
    {
        shared_new(lamports, space, owner)
    }

    pub fn new_rent_epoch(lamports: u64, space: usize, owner: &Pubkey, rent_epoch: Epoch) -> (r:
        Self)
        ensures
            has_fields(&r, lamports, zeros(space as nat), *owner, false, rent_epoch),
    {
        shared_new_rent_epoch(lamports, space, owner, rent_epoch)
    }

    /// A new account, as [`Account::new`] gives it, in a shared cell.
    pub fn new_ref(lamports: u64, space: usize, owner: &Pubkey) -> Rc<RefCell<Self>> {
        shared_new_ref(lamports, space, owner)
    }

    /// The record of a shared account, taking the payload without a copy
    /// when no one else holds it.
    pub fn from_shared(other: AccountSharedData) -> (r: Account)
        ensures
            same_fields(&r, &other),
    {
        let mut other = other;
        let account_data = arc_make_mut(&mut other.data);
        let mut taken: Vec<u8> = Vec::new();
        core::mem::swap(account_data, &mut taken);
        Account {
            lamports: other.lamports,
            data: taken,
            owner: other.owner,
            executable: other.executable,
            rent_epoch: other.rent_epoch,
        }
    }
}

impl AccountSharedData {
    /// A shared account with the fields of `other`.
    pub fn from_account(other: Account) -> (r: AccountSharedData)
        ensures
            same_fields(&r, &other),
    {
        AccountSharedData::create(
            other.lamports,
            other.data,
            other.owner,
            other.executable,
            other.rent_epoch,
        )
    }

    /// A new account, as [`AccountSharedData::new`] gives it, in a shared cell.
    pub fn new_ref(lamports: u64, space: usize, owner: &Pubkey) -> Rc<RefCell<Self>> {
        shared_new_ref(lamports, space, owner)
    }

    /// Whether another holder shares the payload right now.
    pub fn is_shared(&self) -> bool {
        arc_strong_count(&self.data) > 1
    }

    /// Makes room for `additional` more bytes; the account's fields stay.
    pub fn reserve(&mut self, additional: usize)
        ensures
            same_fields(final(self), old(self)),
    {
        self.data_mut().reserve(additional)
    }

    /// How many bytes the payload buffer holds without reallocating.
    pub fn capacity(&self) -> usize {
        vec_capacity(&self.data)
    }

    /// The payload as a vector of this holder's own.
    fn data_mut(&mut self) -> (r: &mut Vec<u8>)
        ensures
            r@ == old(self).data_spec(),
            has_fields(
                final(self),
                old(self).lamports_spec(),
                final(r)@,
                old(self).owner_spec(),
                old(self).executable_spec(),
                old(self).rent_epoch_spec(),
            ),
    {
        arc_make_mut(&mut self.data)
    }

    /// Truncates the payload to `new_len` bytes, or pads it with `value`.
    pub fn resize(&mut self, new_len: usize, value: u8)
        ensures
            has_fields(
                final(self),
                old(self).lamports_spec(),
                resized(old(self).data_spec(), new_len as nat, value),
                old(self).owner_spec(),
                old(self).executable_spec(),
                old(self).rent_epoch_spec(),
            ),
    {
        let data = self.data_mut();
        let ghost before = data@;
        data.resize(new_len, value);
        assert(data@ =~= resized(before, new_len as nat, value));
    }

    /// Appends `data` to the payload.
    pub fn extend_from_slice(&mut self, data: &[u8])
        ensures
            has_fields(
                final(self),
                old(self).lamports_spec(),
                old(self).data_spec() + data@,
                old(self).owner_spec(),
                old(self).executable_spec(),
                old(self).rent_epoch_spec(),
            ),
    {
        let buf = self.data_mut();
        let ghost before = buf@;
        buf.extend_from_slice(data);
        assert(buf@ =~= before + data@);
    }

    /// Replaces the payload with `new_data`. A payload held by no one else
    /// is overwritten in its own buffer, grown only when `new_data` is
    /// longer; a shared one is left to its other holders and replaced by a
    /// fresh copy of `new_data`.
    pub fn set_data_from_slice(&mut self, new_data: &[u8])
        ensures
            has_fields(
                final(self),
                old(self).lamports_spec(),
                new_data@,
                old(self).owner_spec(),
                old(self).executable_spec(),
                old(self).rent_epoch_spec(),
            ),
    {
        if self.is_shared() {
            self.set_data(copy_bytes(new_data));
            return ;
        }
        let data = self.data_mut();
        let new_len = new_data.len();
        data.reserve(new_len.saturating_sub(data.len()));
        data.clear();
        data.extend_from_slice(new_data);
        assert(data@ =~= new_data@);
    }

    /// Installs `data` as the payload.
    fn set_data(&mut self, data: Vec<u8>)
        ensures
            has_fields(
                final(self),
                old(self).lamports_spec(),
                data@,
                old(self).owner_spec(),
                old(self).executable_spec(),
                old(self).rent_epoch_spec(),
            ),
    {
        self.data = Arc::new(data);
    }

    /// The allocated but unused tail of the payload buffer, made this
    /// holder's own first; the account's fields stay.
    pub fn spare_data_capacity_mut(&mut self) -> (r: &mut [std::mem::MaybeUninit<u8>])
        ensures
            same_fields(final(self), old(self)),
    {
        vec_spare_capacity_mut(self.data_mut())
    }

    pub fn new(lamports: u64, space: usize, owner: &Pubkey) -> (r: Self)
        ensures
            has_fields(&r, lamports, zeros(space as nat), *owner, false, 0),
    {
        shared_new(lamports, space, owner)
    }

    pub fn new_rent_epoch(lamports: u64, space: usize, owner: &Pubkey, rent_epoch: Epoch) -> (r:
        Self)
        ensures
            has_fields(&r, lamports, zeros(space as nat), *owner, false, rent_epoch),
    {
        shared_new_rent_epoch(lamports, space, owner, rent_epoch)
    }
}

/// Writing encoded state into an account whose payload is too small for it.
#[derive(Debug, Clone, Copy, PartialEq, Eq, Structural)]
pub enum SizeLimitExceeded {
    SizeLimit,
}

/// Writes the encoding of a state over the start of the account's payload.
/// An encoding longer than the payload is refused and nothing is written.
pub fn serialize_encoded_into<U: WritableAccount>(account: &mut U, encoded: &[u8]) -> (r: Result<
    (),
    SizeLimitExceeded,
>)
    ensures
        encoded@.len() > old(account).data_spec().len() ==> r == Err::<(), SizeLimitExceeded>(
            SizeLimitExceeded::SizeLimit,
        ) && *final(account) == *old(account),
        encoded@.len() <= old(account).data_spec().len() ==> r == Ok::<(), SizeLimitExceeded>(())
            && has_fields(
            final(account),
            old(account).lamports_spec(),
            encoded@ + old(account).data_spec().skip(encoded@.len() as int),
            old(account).owner_spec(),
            old(account).executable_spec(),
            old(account).rent_epoch_spec(),
        ),
{
    if encoded.len() > account.data().len() {
        return Err(SizeLimitExceeded::SizeLimit);
    }
    let ghost before = account.data_spec();
    let slice = account.data_as_mut_slice();
    let mut i: usize = 0;
    while i < encoded.len()
        invariant
            0 <= i <= encoded@.len() <= before.len(),
            slice@.len() == before.len(),
            forall|j: int| 0 <= j < i ==> slice@[j] == encoded@[j],
            forall|j: int| i <= j < before.len() ==> slice@[j] == before[j],
        decreases encoded@.len() - i,
    {
        slice[i] = encoded[i];
        i = i + 1;
    }
    assert(slice@ =~= encoded@ + before.skip(encoded@.len() as int));
    Ok(())
}

/// `data` cut to `len` bytes, or padded to it with `value`.
pub open spec fn resized(data: Seq<u8>, len: nat, value: u8) -> Seq<u8> {
    if len <= data.len() {
        data.take(len as int)
    } else {
        data + Seq::new((len - data.len()) as nat, |i: int| value)
    }
}

} // verus!
