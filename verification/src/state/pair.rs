//! A pool: two reserves, the claim tokens outstanding against them, and the
//! identities of its vaults.
use crate::state::address::Address;
use crate::state::proposal::PairMeta;
use vstd::prelude::*;

verus! {

/// The pool-level fee cap, in basis points (10%).
pub const MAX_POOL_FEE_BPS: u16 = 1000;

/// Who created a pool.
#[derive(Clone, Copy, PartialEq, Eq, Debug)]
pub enum Creator {
    /// The governance proposal that created it.
    DaoProposal(Address),
    /// The platform's admin, directly.
    Admin,
}

/// The quantities of the two assets held for a pool.
#[derive(Clone, Copy, PartialEq, Eq, Structural, Debug)]
pub struct Reserves {
    pub base: u64,
    pub paired: u64,
}

/// The custody accounts of a pool and the asset of its claim token.
#[derive(Clone, Copy, PartialEq, Eq, Debug)]
pub struct Vaults {
    /// Holds the base reserve.
    pub base: Address,
    /// Holds the paired reserve.
    pub paired: Address,
    /// The claim-token asset of this pool.
    pub lp_mint: Address,
}

/// The right to sign for one pool: to move value out of its vaults and to
/// mint its claim token. It can only be had from the pool itself, through
/// [`Pair::authority`], and names the pool it was taken from.
#[derive(Clone, Copy, PartialEq, Eq, Debug)]
pub struct PairAuthority {
    base_mint: Address,
    paired_mint: Address,
    bump: u8,
}

impl PairAuthority {
    /// The base asset of the pool this authority signs for.
    pub closed spec fn spec_base_mint(&self) -> Address {
        self.base_mint
    }

    /// The paired asset of the pool this authority signs for.
    pub closed spec fn spec_paired_mint(&self) -> Address {
        self.paired_mint
    }

    /// The bump of the pool this authority signs for.
    pub closed spec fn spec_bump(&self) -> u8 {
        self.bump
    }

    /// Whether this authority signs for `pair`.
    pub open spec fn is_for(&self, pair: &Pair) -> bool {
        &&& self.spec_base_mint() == pair.meta.base_mint
        &&& self.spec_paired_mint() == pair.meta.paired_mint
        &&& self.spec_bump() == pair.bump
    }

    /// The base asset of the pool this authority signs for.
    #[verifier::when_used_as_spec(spec_base_mint)]
    pub fn base_mint(&self) -> (mint: Address)
        ensures
            mint == self.spec_base_mint(),
    {
        self.base_mint
    }

    /// The paired asset of the pool this authority signs for.
    #[verifier::when_used_as_spec(spec_paired_mint)]
    pub fn paired_mint(&self) -> (mint: Address)
        ensures
            mint == self.spec_paired_mint(),
    {
        self.paired_mint
    }

    /// The bump of the pool this authority signs for.
    #[verifier::when_used_as_spec(spec_bump)]
    pub fn bump(&self) -> (bump: u8)
        ensures
            bump == self.spec_bump(),
    {
        self.bump
    }
}

/// One pool.
#[derive(Clone, Copy, PartialEq, Eq, Debug)]
pub struct Pair {
    pub meta: PairMeta,
    pub reserves: Reserves,
    pub vaults: Vaults,
    /// Claim tokens outstanding.
    pub total_liquidity: u64,
    /// When the pool was last traded against.
    pub last_swap_time: i64,
    pub created_by: Creator,
    pub created_at: i64,
    pub bump: u8,
}

impl Pair {
    /// A pool is either wholly empty or wholly funded: a reserve is zero
    /// exactly when the other is, and exactly when no claim is outstanding.
    pub open spec fn is_balanced(&self) -> bool {
        &&& (self.reserves.base == 0) == (self.reserves.paired == 0)
        &&& (self.reserves.paired == 0) == (self.total_liquidity == 0)
    }

    /// The pool's invariant: balanced, and its fee within the pool-level cap.
    pub open spec fn wf(&self) -> bool {
        &&& self.is_balanced()
        &&& self.meta.proposed_fee_bps <= MAX_POOL_FEE_BPS
    }

    /// What never changes after creation: the assets, the fee, the vaults and
    /// the provenance.
    pub open spec fn same_identity(&self, other: &Pair) -> bool {
        &&& self.meta == other.meta
        &&& self.vaults == other.vaults
        &&& self.created_by == other.created_by
        &&& self.created_at == other.created_at
        &&& self.bump == other.bump
    }

    /// Whether `holder` is neither of the pool's vaults.
    pub open spec fn is_outside(&self, holder: Address) -> bool {
        holder != self.vaults.base && holder != self.vaults.paired
    }

    /// Whether the pool's books can be held against the ledger leg by leg:
    /// its two assets differ, and so do its two vaults.
    pub open spec fn is_separable(&self) -> bool {
        self.meta.base_mint != self.meta.paired_mint && self.vaults.base != self.vaults.paired
    }

    /// The reserve on the side a swap pays into.
    pub open spec fn spec_reserve_in(&self, is_base_input: bool) -> u64 {
        if is_base_input {
            self.reserves.base
        } else {
            self.reserves.paired
        }
    }

    /// The reserve on the side a swap is paid from.
    pub open spec fn spec_reserve_out(&self, is_base_input: bool) -> u64 {
        if is_base_input {
            self.reserves.paired
        } else {
            self.reserves.base
        }
    }

    /// The product of the two reserves.
    pub open spec fn product(&self) -> int {
        self.reserves.base * self.reserves.paired
    }

    /// The authority that signs for this pool.
    pub closed spec fn spec_authority(&self) -> PairAuthority {
        PairAuthority {
            base_mint: self.meta.base_mint,
            paired_mint: self.meta.paired_mint,
            bump: self.bump,
        }
    }

    /// The authority of a pool signs for that pool, and pools of the same
    /// identity have the same authority.
    pub proof fn lemma_authority(&self, other: &Pair)
        ensures
            self.spec_authority().is_for(self),
            self.same_identity(other) ==> self.spec_authority() == other.spec_authority(),
    {
    }

    /// The authority that signs for this pool.
    #[verifier::when_used_as_spec(spec_authority)]
    pub fn authority(&self) -> (authority: PairAuthority)
        ensures
            authority == self.spec_authority(),
            authority.is_for(self),
    {
        PairAuthority {
            base_mint: self.meta.base_mint,
            paired_mint: self.meta.paired_mint,
            bump: self.bump,
        }
    }

    /// The reserve on the side a swap pays into.
    #[verifier::when_used_as_spec(spec_reserve_in)]
    pub fn reserve_in(&self, is_base_input: bool) -> (reserve: u64)
        ensures
            reserve == self.spec_reserve_in(is_base_input),
    {
        if is_base_input {
            self.reserves.base
        } else {
            self.reserves.paired
        }
    }

    /// The reserve on the side a swap is paid from.
    #[verifier::when_used_as_spec(spec_reserve_out)]
    pub fn reserve_out(&self, is_base_input: bool) -> (reserve: u64)
        ensures
            reserve == self.spec_reserve_out(is_base_input),
    {
        if is_base_input {
            self.reserves.paired
        } else {
            self.reserves.base
        }
    }

    /// Whether the pool holds nothing and owes nothing.
    pub fn is_empty(&self) -> (empty: bool)
        ensures
            empty == (self.reserves.base == 0 && self.reserves.paired == 0
                && self.total_liquidity == 0),
    {
        self.reserves.base == 0 && self.reserves.paired == 0 && self.total_liquidity == 0
    }
}

} // verus!
