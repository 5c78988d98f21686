//! Withdrawing collected protocol fees.
use crate::error::AmmError;
use crate::ledger::Transfer;
use crate::state::address::Address;
use crate::state::address::TokenAccount;
use crate::state::platform::PlatformState;
use vstd::prelude::*;

verus! {

/// What a fee withdrawal reads: the platform, the caller, the vault that
/// holds the fees and where they are to go.
#[derive(Clone, Copy, PartialEq, Eq, Debug)]
pub struct WithdrawPlatformFees {
    /// The caller, who must be the platform's admin.
    pub admin: Address,
    pub platform_state: PlatformState,
    /// The vault that holds the protocol's fees.
    pub protocol_fee_vault: TokenAccount,
    /// The account the fees are paid to.
    pub fee_destination: TokenAccount,
}

impl WithdrawPlatformFees {
    /// Why the withdrawal is refused, or `None` where it goes through. The
    /// checks are made in this order and the first that fails decides.
    pub open spec fn refusal(&self, amount: u64) -> Option<AmmError> {
        if self.platform_state.admin != self.admin {
            Some(AmmError::Unauthorized)
        } else if self.fee_destination.mint != self.protocol_fee_vault.mint {
            Some(AmmError::TokenMintMismatch)
        } else if amount == 0 {
            Some(AmmError::InvalidAmount)
        } else {
            None
        }
    }

    /// Asks for `amount` to be moved from the fee vault to the destination.
    ///
    /// Only the admin may call; the destination must hold the vault's asset
    /// and the amount must be positive. Nothing of the platform changes.
    pub fn withdraw_fees(&mut self, amount: u64) -> (result: Result<Transfer, AmmError>)
        ensures
            *final(self) == *old(self),
            match result {
                Ok(transfer) => {
                    &&& old(self).refusal(amount) is None
                    &&& transfer == (Transfer {
                        asset: old(self).protocol_fee_vault.mint,
                        from: old(self).protocol_fee_vault.key,
                        to: old(self).fee_destination.key,
                        amount,
                    })
                },
                Err(kind) => old(self).refusal(amount) == Some(kind),
            },
    {
        if !self.platform_state.is_admin(&self.admin) {
            return Err(AmmError::Unauthorized);
        }
        if self.fee_destination.mint != self.protocol_fee_vault.mint {
            return Err(AmmError::TokenMintMismatch);
        }
        if amount == 0 {
            return Err(AmmError::InvalidAmount);
        }
        Ok(
            Transfer {
                asset: self.protocol_fee_vault.mint,
                from: self.protocol_fee_vault.key,
                to: self.fee_destination.key,
                amount,
            },
        )
    }
}

} // verus!
