//! Creating a pool.
use crate::error::AmmError;
use crate::state::address::Address;
use crate::state::pair::Creator;
use crate::state::pair::Pair;
use crate::state::pair::Reserves;
use crate::state::pair::Vaults;
use crate::state::pair::MAX_POOL_FEE_BPS;
use crate::state::platform::PlatformState;
use crate::state::platform::PlatformStats;
use crate::state::proposal::PairMeta;
use vstd::prelude::*;

verus! {

/// What creating a pool reads and writes: the platform, the two assets, the
/// identities made for the pool, its fee, its provenance and the current
/// time.
#[derive(Clone, Copy, PartialEq, Eq, Debug)]
pub struct CreatePair {
    pub creator: Address,
    pub platform: PlatformState,
    /// Must be the platform's base asset.
    pub base_token_mint: Address,
    pub paired_token_mint: Address,
    /// The claim-token asset made for the pool.
    pub lp_mint: Address,
    /// The vault made for the base reserve.
    pub base_vault: Address,
    /// The vault made for the paired reserve.
    pub paired_vault: Address,
    /// The pool's swap fee in basis points.
    pub proposed_fee_bps: u16,
    /// The governance proposal behind the pool, if any.
    pub proposal: Option<Address>,
    /// The current time, in seconds.
    pub now: i64,
}

impl CreatePair {
    /// Why the creation is refused, or `None` where it goes through. The
    /// checks are made in this order and the first that fails decides.
    pub open spec fn refusal(&self) -> Option<AmmError> {
        if self.base_token_mint != self.platform.base_token_mint {
            Some(AmmError::InvalidBaseToken)
        } else if self.proposed_fee_bps > MAX_POOL_FEE_BPS {
            Some(AmmError::FeeTooHigh)
        } else if self.platform.stats.pair_count == u64::MAX {
            Some(AmmError::MathOverflow)
        } else {
            None
        }
    }

    /// Who the pool is recorded as created by.
    pub open spec fn provenance(&self) -> Creator {
        match self.proposal {
            Some(proposal) => Creator::DaoProposal(proposal),
            None => Creator::Admin,
        }
    }

    /// The pool as it is created: empty, never traded.
    pub open spec fn created(&self, bump: u8) -> Pair {
        Pair {
            meta: PairMeta {
                base_mint: self.base_token_mint,
                paired_mint: self.paired_token_mint,
                proposed_fee_bps: self.proposed_fee_bps,
            },
            reserves: Reserves { base: 0, paired: 0 },
            vaults: Vaults {
                base: self.base_vault,
                paired: self.paired_vault,
                lp_mint: self.lp_mint,
            },
            total_liquidity: 0,
            last_swap_time: 0,
            created_by: self.provenance(),
            created_at: self.now,
            bump,
        }
    }

    /// Everything after a creation that goes through: one more pool counted.
    pub open spec fn settled(&self) -> CreatePair {
        CreatePair {
            platform: PlatformState {
                stats: PlatformStats {
                    pair_count: (self.platform.stats.pair_count + 1) as u64,
                    ..self.platform.stats
                },
                ..self.platform
            },
            ..*self
        }
    }

    /// Creates an empty pool of the platform's base asset and the paired
    /// asset, and counts it.
    pub fn create_pair(&mut self, bump: u8) -> (result: Result<Pair, AmmError>)
        ensures
            match result {
                Ok(pair) => {
                    &&& old(self).refusal() is None
                    &&& pair == old(self).created(bump)
                    &&& *final(self) == old(self).settled()
                },
                Err(kind) => {
                    &&& old(self).refusal() == Some(kind)
                    &&& *final(self) == *old(self)
                },
            },
            result matches Ok(pair) ==> {
                &&& pair.wf()
                &&& pair.meta.base_mint == old(self).platform.base_token_mint
                &&& final(self).platform.stats.not_below(&old(self).platform.stats)
            },
    {
        if self.base_token_mint != self.platform.base_token_mint {
            return Err(AmmError::InvalidBaseToken);
        }
        if self.proposed_fee_bps > MAX_POOL_FEE_BPS {
            return Err(AmmError::FeeTooHigh);
        }
        let pair_count = match self.platform.stats.pair_count.checked_add(1) {
            Some(count) => count,
            None => {
                return Err(AmmError::MathOverflow);
            },
        };
        let created_by = match self.proposal {
            Some(proposal) => Creator::DaoProposal(proposal),
            None => Creator::Admin,
        };
        let pair = Pair {
            meta: PairMeta {
                base_mint: self.base_token_mint,
                paired_mint: self.paired_token_mint,
                proposed_fee_bps: self.proposed_fee_bps,
            },
            reserves: Reserves { base: 0, paired: 0 },
            vaults: Vaults {
                base: self.base_vault,
                paired: self.paired_vault,
                lp_mint: self.lp_mint,
            },
            total_liquidity: 0,
            last_swap_time: 0,
            created_by,
            created_at: self.now,
            bump,
        };
        self.platform.stats.pair_count = pair_count;
        Ok(pair)
    }
}

} // verus!
