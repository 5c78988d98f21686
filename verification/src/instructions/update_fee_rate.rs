//! Changing the protocol fee rate.
use crate::error::AmmError;
use crate::state::address::Address;
use crate::state::pair::MAX_POOL_FEE_BPS;
use crate::state::platform::PlatformState;
use crate::state::platform::MAX_PROTOCOL_FEE_BPS;
use vstd::prelude::*;

verus! {

/// What a change of the fee rate reads and writes: the platform and the
/// caller.
#[derive(Clone, Copy, PartialEq, Eq, Debug)]
pub struct UpdateFeeRate {
    pub platform_state: PlatformState,
    /// The caller, who must be the platform's admin.
    pub admin: Address,
}

impl UpdateFeeRate {
    /// Why the change is refused, or `None` where it goes through. A rate
    /// above the pool-level cap is reported as such even though it is above
    /// the protocol-level cap too.
    pub open spec fn refusal(&self, new_fee_rate: u16) -> Option<AmmError> {
        if self.platform_state.admin != self.admin {
            Some(AmmError::Unauthorized)
        } else if new_fee_rate > MAX_POOL_FEE_BPS {
            Some(AmmError::FeeTooHigh)
        } else if new_fee_rate > MAX_PROTOCOL_FEE_BPS {
            Some(AmmError::ProtocolFeeTooHigh)
        } else {
            None
        }
    }

    /// Everything after a change that goes through: the new rate in place.
    pub open spec fn settled(&self, new_fee_rate: u16) -> UpdateFeeRate {
        UpdateFeeRate {
            platform_state: PlatformState {
                protocol_fee_bps: new_fee_rate,
                ..self.platform_state
            },
            ..*self
        }
    }

    /// Sets the protocol fee rate to `new_fee_rate` basis points.
    ///
    /// Only the admin may call, and the rate may not exceed 200.
    pub fn update_fee_rate(&mut self, new_fee_rate: u16) -> (result: Result<(), AmmError>)
        ensures
            match result {
                Ok(_) => {
                    &&& old(self).refusal(new_fee_rate) is None
                    &&& *final(self) == old(self).settled(new_fee_rate)
                },
                Err(kind) => {
                    &&& old(self).refusal(new_fee_rate) == Some(kind)
                    &&& *final(self) == *old(self)
                },
            },
            result is Ok ==> final(self).platform_state.protocol_fee_bps <= MAX_PROTOCOL_FEE_BPS,
    {
        if !self.platform_state.is_admin(&self.admin) {
            return Err(AmmError::Unauthorized);
        }
        if new_fee_rate > MAX_POOL_FEE_BPS {
            return Err(AmmError::FeeTooHigh);
        }
        if new_fee_rate > MAX_PROTOCOL_FEE_BPS {
            return Err(AmmError::ProtocolFeeTooHigh);
        }
        self.platform_state.protocol_fee_bps = new_fee_rate;
        Ok(())
    }
}

} // verus!
