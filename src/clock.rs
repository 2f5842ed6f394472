use vstd::prelude::*;

verus! {

/// The unit of time given to a leader for encoding a block.
pub type Slot = u64;

/// The unit of time a given leader schedule is honored.
pub type Epoch = u64;

pub const GENESIS_EPOCH: Epoch = 0;

/// Must agree with the rent epoch that a new account is given.
pub const INITIAL_RENT_EPOCH: Epoch = 0;

} // verus!
