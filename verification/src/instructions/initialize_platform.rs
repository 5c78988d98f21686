//! Creating the platform record.
use crate::error::AmmError;
use crate::state::address::Address;
use crate::state::address::TokenAccount;
use crate::state::platform::PlatformInitialized;
use crate::state::platform::PlatformSecurity;
use crate::state::platform::PlatformState;
use crate::state::platform::PlatformStats;
use crate::state::platform::CURRENT_VERSION;
use vstd::prelude::*;

verus! {

/// What creating the platform reads: who will administer it, its base asset,
/// the account that will collect protocol fees, and the current time.
#[derive(Clone, Copy, PartialEq, Eq, Debug)]
pub struct InitializePlatform {
    pub admin: Address,
    pub base_token_mint: Address,
    /// Must hold the base asset.
    pub fee_collector: TokenAccount,
    /// The current time, in seconds.
    pub now: i64,
}

impl InitializePlatform {
    /// The platform as it is created: running, with no pools and no volume.
    pub open spec fn created(&self, protocol_fee_bps: u16, bump: u8) -> PlatformState {
        PlatformState {
            base_token_mint: self.base_token_mint,
            admin: self.admin,
            fee_collector: self.fee_collector.key,
            dao_config: None,
            security: PlatformSecurity {
                is_paused: false,
                last_pause_time: self.now,
                pause_count: 0,
            },
            stats: PlatformStats { pair_count: 0, total_volume: 0, total_fees: 0 },
            protocol_fee_bps,
            bump,
            version: CURRENT_VERSION,
        }
    }

    /// Creates the platform record and the record of its creation.
    ///
    /// Refused with `InvalidFeeCollectorMint` exactly when the fee collector
    /// does not hold the base asset. The fee rate is taken as given; the cap
    /// on it is applied when the rate is changed.
    pub fn initialize_platform(&self, protocol_fee_bps: u16, bump: u8) -> (result: Result<
        (PlatformState, PlatformInitialized),
        AmmError,
    >)
        ensures
            self.fee_collector.mint == self.base_token_mint ==> result == Ok::<
                (PlatformState, PlatformInitialized),
                AmmError,
            >(
                (
                    self.created(protocol_fee_bps, bump),
                    PlatformInitialized {
                        timestamp: self.now,
                        admin: self.admin,
                        base_token: self.base_token_mint,
                    },
                ),
            ),
            self.fee_collector.mint != self.base_token_mint ==> result == Err::<
                (PlatformState, PlatformInitialized),
                AmmError,
            >(AmmError::InvalidFeeCollectorMint),
    {
        if self.fee_collector.mint != self.base_token_mint {
            return Err(AmmError::InvalidFeeCollectorMint);
        }
        let platform = PlatformState {
            base_token_mint: self.base_token_mint,
            admin: self.admin,
            fee_collector: self.fee_collector.key,
            dao_config: None,
            security: PlatformSecurity {
                is_paused: false,
                last_pause_time: self.now,
                pause_count: 0,
            },
            stats: PlatformStats { pair_count: 0, total_volume: 0, total_fees: 0 },
            protocol_fee_bps,
            bump,
            version: CURRENT_VERSION,
        };
        let event = PlatformInitialized {
            timestamp: self.now,
            admin: self.admin,
            base_token: self.base_token_mint,
        };
        Ok((platform, event))
    }
}

} // verus!
