//! Withdrawing from a pool.
use crate::error::AmmError;
use crate::instructions::add_liquidity::AddLiquidity;
use crate::ledger::Burn;
use crate::ledger::Transfer;
use crate::math::checked_sub;
use crate::shares::compute_redeemed;
use crate::shares::lemma_initial_shares_bounds;
use crate::shares::lemma_proportional_shares_positive;
use crate::shares::lemma_redeem_after_deposit;
use crate::shares::lemma_redeemed_bounds;
use crate::shares::redeemed;
use crate::state::address::Address;
use crate::state::pair::Pair;
use crate::state::pair::PairAuthority;
use crate::state::pair::Reserves;
use crate::state::platform::PlatformState;
use vstd::prelude::*;

verus! {

/// What a withdrawal reads and writes: the platform, the pool and the
/// withdrawer.
#[derive(Clone, Copy, PartialEq, Eq, Debug)]
pub struct RemoveLiquidity {
    pub platform_state: PlatformState,
    /// The withdrawer.
    pub user: Address,
    pub pair: Pair,
}

/// What a successful withdrawal asks of the ledger.
#[derive(Clone, Copy, PartialEq, Eq, Debug)]
pub struct WithdrawReceipt {
    /// The base amount paid out.
    pub base_amount: u64,
    /// The paired amount paid out.
    pub paired_amount: u64,
    /// The claim tokens, burnt from the withdrawer.
    pub lp_burn: Burn,
    /// The base amount, from the base vault to the withdrawer.
    pub base_payout: Transfer,
    /// The paired amount, from the paired vault to the withdrawer.
    pub paired_payout: Transfer,
    /// The pool's authority, which signs for the two payouts.
    pub authority: PairAuthority,
}

impl WithdrawReceipt {
    /// What settling the two payouts of this receipt adds to the balance
    /// that `holder` has of `asset`.
    pub open spec fn credit(&self, asset: Address, holder: Address) -> int {
        self.base_payout.credit(asset, holder) + self.paired_payout.credit(asset, holder)
    }
}

impl RemoveLiquidity {
    /// The base amount that `lp_amount` claim tokens redeem.
    pub open spec fn base_out(&self, lp_amount: u64) -> int {
        redeemed(
            lp_amount as int,
            self.pair.reserves.base as int,
            self.pair.total_liquidity as int,
        )
    }

    /// The paired amount that `lp_amount` claim tokens redeem.
    pub open spec fn paired_out(&self, lp_amount: u64) -> int {
        redeemed(
            lp_amount as int,
            self.pair.reserves.paired as int,
            self.pair.total_liquidity as int,
        )
    }

    /// Why the withdrawal is refused, or `None` where it goes through. The
    /// checks are made in this order and the first that fails decides.
    /// Redeeming more than is outstanding underflows the supply.
    pub open spec fn refusal(&self, lp_amount: u64, min_base: u64, min_paired: u64) -> Option<
        AmmError,
    > {
        if self.platform_state.security.is_paused {
            Some(AmmError::TradingPaused)
        } else if lp_amount == 0 {
            Some(AmmError::InvalidAmount)
        } else if lp_amount > self.pair.total_liquidity {
            Some(AmmError::MathOverflow)
        } else if self.base_out(lp_amount) < min_base {
            Some(AmmError::SlippageExceeded)
        } else if self.paired_out(lp_amount) < min_paired {
            Some(AmmError::SlippageExceeded)
        } else {
            None
        }
    }

    /// The receipt of a withdrawal that goes through.
    pub open spec fn receipt(&self, lp_amount: u64) -> WithdrawReceipt {
        WithdrawReceipt {
            base_amount: self.base_out(lp_amount) as u64,
            paired_amount: self.paired_out(lp_amount) as u64,
            lp_burn: Burn { asset: self.pair.vaults.lp_mint, from: self.user, amount: lp_amount },
            base_payout: Transfer {
                asset: self.pair.meta.base_mint,
                from: self.pair.vaults.base,
                to: self.user,
                amount: self.base_out(lp_amount) as u64,
            },
            paired_payout: Transfer {
                asset: self.pair.meta.paired_mint,
                from: self.pair.vaults.paired,
                to: self.user,
                amount: self.paired_out(lp_amount) as u64,
            },
            authority: self.pair.authority(),
        }
    }

    /// Everything after a withdrawal that goes through: both reserves and
    /// the claims outstanding lowered, and nothing else touched.
    pub open spec fn settled(&self, lp_amount: u64) -> RemoveLiquidity {
        RemoveLiquidity {
            pair: Pair {
                reserves: Reserves {
                    base: (self.pair.reserves.base - self.base_out(lp_amount)) as u64,
                    paired: (self.pair.reserves.paired - self.paired_out(lp_amount)) as u64,
                },
                total_liquidity: (self.pair.total_liquidity - lp_amount) as u64,
                ..self.pair
            },
            ..*self
        }
    }

    /// The legs of a withdrawal move out of each vault exactly what the
    /// withdrawal takes from that vault's reserve, and retire exactly the
    /// claim tokens that it takes from those outstanding, for a pool whose
    /// assets and vaults differ and a withdrawer that is not one of its
    /// vaults.
    pub proof fn lemma_legs_settle_reserves(&self, lp_amount: u64, min_base: u64, min_paired: u64)
        requires
            self.refusal(lp_amount, min_base, min_paired) is None,
            self.pair.is_separable(),
            self.pair.is_outside(self.user),
        ensures
            ({
                let receipt = self.receipt(lp_amount);
                let after = self.settled(lp_amount).pair;
                &&& receipt.credit(self.pair.meta.base_mint, self.pair.vaults.base)
                    == after.reserves.base - self.pair.reserves.base
                &&& receipt.credit(self.pair.meta.paired_mint, self.pair.vaults.paired)
                    == after.reserves.paired - self.pair.reserves.paired
                &&& receipt.lp_burn.retired(self.pair.vaults.lp_mint) == self.pair.total_liquidity
                    - after.total_liquidity
            }),
    {
        lemma_redeemed_bounds(
            lp_amount as int,
            self.pair.reserves.base as int,
            self.pair.total_liquidity as int,
        );
        lemma_redeemed_bounds(
            lp_amount as int,
            self.pair.reserves.paired as int,
            self.pair.total_liquidity as int,
        );
    }

    /// A withdrawal rounds in the pool's favour: each reserve shrinks at most
    /// in proportion to the claims outstanding.
    pub proof fn lemma_withdrawal_favours_pool(
        &self,
        lp_amount: u64,
        min_base: u64,
        min_paired: u64,
    )
        requires
            self.refusal(lp_amount, min_base, min_paired) is None,
        ensures
            ({
                let after = self.settled(lp_amount).pair;
                &&& after.reserves.base * self.pair.total_liquidity >= self.pair.reserves.base
                    * after.total_liquidity
                &&& after.reserves.paired * self.pair.total_liquidity
                    >= self.pair.reserves.paired * after.total_liquidity
            }),
    {
        let t = self.pair.total_liquidity as int;
        let rb = self.pair.reserves.base as int;
        let rp = self.pair.reserves.paired as int;
        let lp = lp_amount as int;
        lemma_redeemed_bounds(lp, rb, t);
        lemma_redeemed_bounds(lp, rp, t);
        assert(lp * rb >= 0 && lp * rp >= 0) by (nonlinear_arith)
            requires
                lp >= 0,
                rb >= 0,
                rp >= 0,
        ;
        crate::math::lemma_div_brackets(lp * rb, t);
        crate::math::lemma_div_brackets(lp * rp, t);
        let base_out = self.base_out(lp_amount);
        let paired_out = self.paired_out(lp_amount);
        assert((rb - base_out) * t >= rb * (t - lp)) by (nonlinear_arith)
            requires
                t * base_out <= lp * rb,
        ;
        assert((rp - paired_out) * t >= rp * (t - lp)) by (nonlinear_arith)
            requires
                t * paired_out <= lp * rp,
        ;
    }

    /// Burns `lp_amount` claim tokens and pays out their pro-rata share of
    /// both reserves, rounded down.
    ///
    /// The withdrawal goes through exactly when no check of
    /// [`RemoveLiquidity::refusal`] fails; it then returns
    /// [`RemoveLiquidity::receipt`] and leaves the state as
    /// [`RemoveLiquidity::settled`]. Otherwise it returns the kind of the
    /// first check that failed and changes nothing.
    pub fn remove_liquidity(&mut self, lp_amount: u64, min_base: u64, min_paired: u64) -> (result:
        Result<WithdrawReceipt, AmmError>)
        ensures
            match result {
                Ok(receipt) => {
                    &&& old(self).refusal(lp_amount, min_base, min_paired) is None
                    &&& receipt == old(self).receipt(lp_amount)
                    &&& *final(self) == old(self).settled(lp_amount)
                },
                Err(kind) => {
                    &&& old(self).refusal(lp_amount, min_base, min_paired) == Some(kind)
                    &&& *final(self) == *old(self)
                },
            },
            result matches Ok(receipt) ==> {
                &&& receipt.base_amount >= min_base
                &&& receipt.paired_amount >= min_paired
                &&& receipt.base_amount <= old(self).pair.reserves.base
                &&& receipt.paired_amount <= old(self).pair.reserves.paired
                &&& final(self).pair.reserves.base == old(self).pair.reserves.base
                    - receipt.base_amount
                &&& final(self).pair.reserves.paired == old(self).pair.reserves.paired
                    - receipt.paired_amount
                &&& final(self).pair.total_liquidity == old(self).pair.total_liquidity - lp_amount
                &&& final(self).pair.same_identity(&old(self).pair)
                &&& final(self).platform_state == old(self).platform_state
                &&& old(self).pair.wf() ==> final(self).pair.wf()
            },
    {
        if self.platform_state.security.is_paused {
            return Err(AmmError::TradingPaused);
        }
        if lp_amount == 0 {
            return Err(AmmError::InvalidAmount);
        }
        let base_reserve = self.pair.reserves.base;
        let paired_reserve = self.pair.reserves.paired;
        let total_lp = self.pair.total_liquidity;
        let new_total_lp = match checked_sub(total_lp, lp_amount) {
            Ok(total) => total,
            Err(kind) => {
                return Err(kind);
            },
        };
        proof {
            lemma_redeemed_bounds(lp_amount as int, base_reserve as int, total_lp as int);
            lemma_redeemed_bounds(lp_amount as int, paired_reserve as int, total_lp as int);
        }
        let base_amount = match compute_redeemed(lp_amount, base_reserve, total_lp) {
            Ok(amount) => amount,
            Err(kind) => {
                return Err(kind);
            },
        };
        let paired_amount = match compute_redeemed(lp_amount, paired_reserve, total_lp) {
            Ok(amount) => amount,
            Err(kind) => {
                return Err(kind);
            },
        };
        if base_amount < min_base {
            return Err(AmmError::SlippageExceeded);
        }
        if paired_amount < min_paired {
            return Err(AmmError::SlippageExceeded);
        }
        let receipt = WithdrawReceipt {
            base_amount,
            paired_amount,
            lp_burn: Burn { asset: self.pair.vaults.lp_mint, from: self.user, amount: lp_amount },
            base_payout: Transfer {
                asset: self.pair.meta.base_mint,
                from: self.pair.vaults.base,
                to: self.user,
                amount: base_amount,
            },
            paired_payout: Transfer {
                asset: self.pair.meta.paired_mint,
                from: self.pair.vaults.paired,
                to: self.user,
                amount: paired_amount,
            },
            authority: self.pair.authority(),
        };
        self.pair.reserves.base = base_reserve - base_amount;
        self.pair.reserves.paired = paired_reserve - paired_amount;
        self.pair.total_liquidity = new_total_lp;
        Ok(receipt)
    }
}

/// Depositing into a balanced pool and at once redeeming every claim token
/// the deposit minted pays back no more than was deposited, on either side.
pub proof fn lemma_deposit_then_withdraw_all(
    deposit: AddLiquidity,
    base_amount: u64,
    paired_amount: u64,
)
    requires
        deposit.pair.is_balanced(),
        deposit.refusal(base_amount, paired_amount) is None,
    ensures
        ({
            let after = deposit.settled(base_amount, paired_amount);
            let minted = deposit.receipt(base_amount, paired_amount).minted_lp;
            let withdrawal = RemoveLiquidity {
                platform_state: after.platform_state,
                user: after.user,
                pair: after.pair,
            };
            &&& withdrawal.refusal(minted, 0, 0) is None
            &&& withdrawal.receipt(minted).base_amount <= base_amount
            &&& withdrawal.receipt(minted).paired_amount <= paired_amount
        }),
{
    let minted = deposit.shares_for(base_amount, paired_amount);
    let t = deposit.pair.total_liquidity as int;
    let rb = deposit.pair.reserves.base as int;
    let rp = deposit.pair.reserves.paired as int;
    if t == 0 {
        lemma_initial_shares_bounds(base_amount, paired_amount);
        assert(minted * rb == 0) by (nonlinear_arith)
            requires
                rb == 0,
        ;
        assert(minted * rp == 0) by (nonlinear_arith)
            requires
                rp == 0,
        ;
        assert(base_amount * t == 0) by (nonlinear_arith)
            requires
                t == 0,
        ;
        assert(paired_amount * t == 0) by (nonlinear_arith)
            requires
                t == 0,
        ;
    } else {
        lemma_proportional_shares_positive(base_amount as int, t, rb);
        lemma_proportional_shares_positive(paired_amount as int, t, rp);
        let from_base = crate::shares::proportional_shares(base_amount as int, t, rb);
        let from_paired = crate::shares::proportional_shares(paired_amount as int, t, rp);
        assert(minted * rb <= base_amount * t) by (nonlinear_arith)
            requires
                0 <= minted <= from_base,
                from_base * rb <= base_amount * t,
                rb >= 0,
        ;
        assert(minted * rp <= paired_amount * t) by (nonlinear_arith)
            requires
                0 <= minted <= from_paired,
                from_paired * rp <= paired_amount * t,
                rp >= 0,
        ;
    }
    lemma_redeem_after_deposit(base_amount as int, minted, rb, t);
    lemma_redeem_after_deposit(paired_amount as int, minted, rp, t);
    lemma_redeemed_bounds(minted, rb + base_amount, t + minted);
    lemma_redeemed_bounds(minted, rp + paired_amount, t + minted);
}

} // verus!
