//! The movements of value that an operation asks of the ledger.
//!
//! The engine does not move balances itself. A successful operation returns
//! the legs to be settled; the caller settles all of them, or none and
//! discards the operation. `from` and `to` name balance holders: a pool's
//! vault, the fee collector, or a user.
use crate::state::address::Address;
use vstd::prelude::*;

verus! {

/// Move `amount` of `asset` from one holder to another.
#[derive(Clone, Copy, PartialEq, Eq, Debug)]
pub struct Transfer {
    pub asset: Address,
    pub from: Address,
    pub to: Address,
    pub amount: u64,
}

impl Transfer {
    /// What settling this leg adds to the balance that `holder` has of
    /// `asset`; negative where it takes from it.
    pub open spec fn credit(&self, asset: Address, holder: Address) -> int {
        if self.asset != asset {
            0
        } else {
            (if self.to == holder {
                self.amount as int
            } else {
                0
            }) - (if self.from == holder {
                self.amount as int
            } else {
                0
            })
        }
    }
}

/// Create `amount` of `asset` in the balance of `to`.
#[derive(Clone, Copy, PartialEq, Eq, Debug)]
pub struct MintTo {
    pub asset: Address,
    pub to: Address,
    pub amount: u64,
}

impl MintTo {
    /// What settling this leg adds to the supply of `asset`.
    pub open spec fn issued(&self, asset: Address) -> int {
        if self.asset == asset {
            self.amount as int
        } else {
            0
        }
    }
}

/// Destroy `amount` of `asset` in the balance of `from`.
#[derive(Clone, Copy, PartialEq, Eq, Debug)]
pub struct Burn {
    pub asset: Address,
    pub from: Address,
    pub amount: u64,
}

impl Burn {
    /// What settling this leg takes from the supply of `asset`.
    pub open spec fn retired(&self, asset: Address) -> int {
        if self.asset == asset {
            self.amount as int
        } else {
            0
        }
    }
}

} // verus!
