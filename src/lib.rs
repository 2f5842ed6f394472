//! Account values with copy-on-write payloads, the digest of one account,
//! and the Merkle root over many.
use vstd::prelude::*;

pub mod account;
pub mod account_hasher;
pub mod accounts_db;
pub mod clock;
pub mod hash;
pub mod lamports;
pub mod pubkey;

pub use account::{Account, AccountSharedData, ReadableAccount, WritableAccount};
pub use account_hasher::{AccountHash, AccountsHasher, MERKLE_FANOUT};
pub use hash::Sha256Hasher;
pub use pubkey::Pubkey;

verus! {

} // verus!
