//! Depositing into a pool.
use crate::error::AmmError;
use crate::ledger::MintTo;
use crate::ledger::Transfer;
use crate::math::checked_add;
use crate::math::narrow;
use crate::shares::compute_initial_shares;
use crate::shares::compute_proportional_shares;
use crate::shares::initial_shares;
use crate::shares::lemma_initial_shares_bounds;
use crate::shares::lemma_proportional_shares_positive;
use crate::shares::matched_shares;
use crate::shares::proportional_shares;
use crate::state::address::Address;
use crate::state::pair::Pair;
use crate::state::pair::PairAuthority;
use crate::state::pair::Reserves;
use crate::state::platform::PlatformState;
use vstd::prelude::*;

verus! {

/// What a deposit reads and writes: the platform, the pool and the depositor.
#[derive(Clone, Copy, PartialEq, Eq, Debug)]
pub struct AddLiquidity {
    pub platform_state: PlatformState,
    /// The depositor.
    pub user: Address,
    pub pair: Pair,
}

/// What a successful deposit asks of the ledger.
#[derive(Clone, Copy, PartialEq, Eq, Debug)]
pub struct DepositReceipt {
    /// The claim tokens minted to the depositor.
    pub minted_lp: u64,
    /// The base amount, from the depositor to the base vault.
    pub base_deposit: Transfer,
    /// The paired amount, from the depositor to the paired vault.
    pub paired_deposit: Transfer,
    /// The claim tokens, minted to the depositor.
    pub lp_mint: MintTo,
    /// The pool's authority, which signs for the minting.
    pub authority: PairAuthority,
}

impl DepositReceipt {
    /// What settling the two deposits of this receipt adds to the balance
    /// that `holder` has of `asset`.
    pub open spec fn credit(&self, asset: Address, holder: Address) -> int {
        self.base_deposit.credit(asset, holder) + self.paired_deposit.credit(asset, holder)
    }
}

impl AddLiquidity {
    /// The claim tokens that a deposit of the two amounts is worth: the
    /// geometric mean of the amounts for the first deposit, the smaller of
    /// the two sides' proportional shares after that.
    pub open spec fn shares_for(&self, base_amount: u64, paired_amount: u64) -> int {
        if self.pair.total_liquidity == 0 {
            initial_shares(base_amount as int, paired_amount as int)
        } else {
            matched_shares(
                base_amount as int,
                paired_amount as int,
                self.pair.total_liquidity as int,
                self.pair.reserves.base as int,
                self.pair.reserves.paired as int,
            )
        }
    }

    /// Why the deposit is refused, or `None` where it goes through. The
    /// checks are made in this order and the first that fails decides.
    pub open spec fn refusal(&self, base_amount: u64, paired_amount: u64) -> Option<AmmError> {
        let minted = self.shares_for(base_amount, paired_amount);
        if self.platform_state.security.is_paused {
            Some(AmmError::TradingPaused)
        } else if self.pair.total_liquidity != 0 && (self.pair.reserves.base == 0
            || self.pair.reserves.paired == 0) {
            Some(AmmError::MathOverflow)
        } else if minted > u64::MAX {
            Some(AmmError::MathOverflow)
        } else if minted == 0 {
            Some(AmmError::InsufficientLiquidityMinted)
        } else if self.pair.reserves.base + base_amount > u64::MAX {
            Some(AmmError::MathOverflow)
        } else if self.pair.reserves.paired + paired_amount > u64::MAX {
            Some(AmmError::MathOverflow)
        } else if self.pair.total_liquidity + minted > u64::MAX {
            Some(AmmError::MathOverflow)
        } else {
            None
        }
    }

    /// The receipt of a deposit that goes through.
    pub open spec fn receipt(&self, base_amount: u64, paired_amount: u64) -> DepositReceipt {
        let minted = self.shares_for(base_amount, paired_amount) as u64;
        DepositReceipt {
            minted_lp: minted,
            base_deposit: Transfer {
                asset: self.pair.meta.base_mint,
                from: self.user,
                to: self.pair.vaults.base,
                amount: base_amount,
            },
            paired_deposit: Transfer {
                asset: self.pair.meta.paired_mint,
                from: self.user,
                to: self.pair.vaults.paired,
                amount: paired_amount,
            },
            lp_mint: MintTo { asset: self.pair.vaults.lp_mint, to: self.user, amount: minted },
            authority: self.pair.authority(),
        }
    }

    /// Everything after a deposit that goes through: both reserves and the
    /// claims outstanding raised, and nothing else touched.
    pub open spec fn settled(&self, base_amount: u64, paired_amount: u64) -> AddLiquidity {
        AddLiquidity {
            pair: Pair {
                reserves: Reserves {
                    base: (self.pair.reserves.base + base_amount) as u64,
                    paired: (self.pair.reserves.paired + paired_amount) as u64,
                },
                total_liquidity: (self.pair.total_liquidity + self.shares_for(
                    base_amount,
                    paired_amount,
                )) as u64,
                ..self.pair
            },
            ..*self
        }
    }

    /// A deposit mints something when both amounts are positive and, into a
    /// funded pool, each side's amount is worth at least one claim token.
    pub proof fn lemma_deposit_mints(&self, base_amount: u64, paired_amount: u64)
        requires
            base_amount > 0,
            paired_amount > 0,
            self.pair.total_liquidity != 0 ==> {
                &&& proportional_shares(
                    base_amount as int,
                    self.pair.total_liquidity as int,
                    self.pair.reserves.base as int,
                ) > 0
                &&& proportional_shares(
                    paired_amount as int,
                    self.pair.total_liquidity as int,
                    self.pair.reserves.paired as int,
                ) > 0
            },
        ensures
            self.shares_for(base_amount, paired_amount) > 0,
            self.refusal(base_amount, paired_amount) != Some(
                AmmError::InsufficientLiquidityMinted,
            ),
    {
        if self.pair.total_liquidity == 0 {
            lemma_initial_shares_bounds(base_amount, paired_amount);
        }
    }

    /// The legs of a deposit move into each vault exactly what the deposit
    /// adds to that vault's reserve, and issue exactly the claim tokens that
    /// it adds to those outstanding, for a pool whose assets and vaults
    /// differ and a depositor that is not one of its vaults.
    pub proof fn lemma_legs_settle_reserves(&self, base_amount: u64, paired_amount: u64)
        requires
            self.refusal(base_amount, paired_amount) is None,
            self.pair.is_separable(),
            self.pair.is_outside(self.user),
        ensures
            ({
                let receipt = self.receipt(base_amount, paired_amount);
                let after = self.settled(base_amount, paired_amount).pair;
                &&& receipt.credit(self.pair.meta.base_mint, self.pair.vaults.base)
                    == after.reserves.base - self.pair.reserves.base
                &&& receipt.credit(self.pair.meta.paired_mint, self.pair.vaults.paired)
                    == after.reserves.paired - self.pair.reserves.paired
                &&& receipt.lp_mint.issued(self.pair.vaults.lp_mint) == after.total_liquidity
                    - self.pair.total_liquidity
            }),
    {
    }

    /// A deposit into a pool with both reserves in place does not dilute the
    /// claims already outstanding: each reserve grows at least in proportion
    /// to the claims.
    pub proof fn lemma_deposit_does_not_dilute(&self, base_amount: u64, paired_amount: u64)
        requires
            self.refusal(base_amount, paired_amount) is None,
            self.pair.total_liquidity != 0,
        ensures
            ({
                let after = self.settled(base_amount, paired_amount).pair;
                &&& after.reserves.base * self.pair.total_liquidity >= self.pair.reserves.base
                    * after.total_liquidity
                &&& after.reserves.paired * self.pair.total_liquidity
                    >= self.pair.reserves.paired * after.total_liquidity
            }),
    {
        let t = self.pair.total_liquidity as int;
        let rb = self.pair.reserves.base as int;
        let rp = self.pair.reserves.paired as int;
        let minted = self.shares_for(base_amount, paired_amount);
        lemma_proportional_shares_positive(base_amount as int, t, rb);
        lemma_proportional_shares_positive(paired_amount as int, t, rp);
        let from_base = proportional_shares(base_amount as int, t, rb);
        let from_paired = proportional_shares(paired_amount as int, t, rp);
        assert((rb + base_amount) * t >= rb * (t + minted)) by (nonlinear_arith)
            requires
                0 <= minted <= from_base,
                from_base * rb <= base_amount * t,
                rb >= 0,
        ;
        assert((rp + paired_amount) * t >= rp * (t + minted)) by (nonlinear_arith)
            requires
                0 <= minted <= from_paired,
                from_paired * rp <= paired_amount * t,
                rp >= 0,
        ;
    }

    /// A deposit with an amount of zero mints nothing.
    pub proof fn lemma_zero_amount_mints_nothing(&self, base_amount: u64, paired_amount: u64)
        requires
            base_amount == 0 || paired_amount == 0,
            self.pair.total_liquidity != 0 ==> self.pair.reserves.base > 0
                && self.pair.reserves.paired > 0,
        ensures
            self.shares_for(base_amount, paired_amount) == 0,
    {
        if self.pair.total_liquidity == 0 {
            lemma_initial_shares_bounds(base_amount, paired_amount);
        } else {
            let t = self.pair.total_liquidity as int;
            lemma_proportional_shares_positive(base_amount as int, t, self.pair.reserves.base as int);
            lemma_proportional_shares_positive(
                paired_amount as int,
                t,
                self.pair.reserves.paired as int,
            );
            assert(base_amount == 0 ==> base_amount * t == 0) by (nonlinear_arith);
            assert(paired_amount == 0 ==> paired_amount * t == 0) by (nonlinear_arith);
        }
    }

    /// Deposits `base_amount` and `paired_amount` and mints claim tokens for
    /// them.
    ///
    /// The deposit goes through exactly when no check of
    /// [`AddLiquidity::refusal`] fails; it then returns
    /// [`AddLiquidity::receipt`] and leaves the state as
    /// [`AddLiquidity::settled`]. Otherwise it returns the kind of the first
    /// check that failed and changes nothing.
    pub fn add_liquidity(&mut self, base_amount: u64, paired_amount: u64) -> (result: Result<
        DepositReceipt,
        AmmError,
    >)
        ensures
            match result {
                Ok(receipt) => {
                    &&& old(self).refusal(base_amount, paired_amount) is None
                    &&& receipt == old(self).receipt(base_amount, paired_amount)
                    &&& *final(self) == old(self).settled(base_amount, paired_amount)
                },
                Err(kind) => {
                    &&& old(self).refusal(base_amount, paired_amount) == Some(kind)
                    &&& *final(self) == *old(self)
                },
            },
            result matches Ok(receipt) ==> {
                &&& receipt.minted_lp > 0
                &&& base_amount > 0
                &&& paired_amount > 0
                &&& final(self).pair.reserves.base == old(self).pair.reserves.base + base_amount
                &&& final(self).pair.reserves.paired == old(self).pair.reserves.paired
                    + paired_amount
                &&& final(self).pair.total_liquidity == old(self).pair.total_liquidity
                    + receipt.minted_lp
                &&& final(self).pair.same_identity(&old(self).pair)
                &&& final(self).platform_state == old(self).platform_state
                &&& old(self).pair.wf() ==> final(self).pair.wf()
            },
    {
        if self.platform_state.security.is_paused {
            return Err(AmmError::TradingPaused);
        }
        let base_reserve = self.pair.reserves.base;
        let paired_reserve = self.pair.reserves.paired;
        let total_lp = self.pair.total_liquidity;
        let minted_lp = if total_lp == 0 {
            compute_initial_shares(base_amount, paired_amount)
        } else {
            let lp_from_base = match compute_proportional_shares(
                base_amount,
                total_lp,
                base_reserve,
            ) {
                Ok(shares) => shares,
                Err(kind) => {
                    return Err(kind);
                },
            };
            let lp_from_paired = match compute_proportional_shares(
                paired_amount,
                total_lp,
                paired_reserve,
            ) {
                Ok(shares) => shares,
                Err(kind) => {
                    return Err(kind);
                },
            };
            let min_lp = if lp_from_base <= lp_from_paired {
                lp_from_base
            } else {
                lp_from_paired
            };
            match narrow(min_lp) {
                Ok(shares) => shares,
                Err(kind) => {
                    return Err(kind);
                },
            }
        };
        proof {
            lemma_initial_shares_bounds(base_amount, paired_amount);
        }
        if minted_lp == 0 {
            return Err(AmmError::InsufficientLiquidityMinted);
        }
        let new_base_reserve = match checked_add(base_reserve, base_amount) {
            Ok(reserve) => reserve,
            Err(kind) => {
                return Err(kind);
            },
        };
        let new_paired_reserve = match checked_add(paired_reserve, paired_amount) {
            Ok(reserve) => reserve,
            Err(kind) => {
                return Err(kind);
            },
        };
        let new_total_lp = match checked_add(total_lp, minted_lp) {
            Ok(total) => total,
            Err(kind) => {
                return Err(kind);
            },
        };
        proof {
            if total_lp != 0 {
                lemma_proportional_shares_positive(
                    base_amount as int,
                    total_lp as int,
                    base_reserve as int,
                );
                lemma_proportional_shares_positive(
                    paired_amount as int,
                    total_lp as int,
                    paired_reserve as int,
                );
                assert(base_amount == 0 ==> base_amount * total_lp == 0) by (nonlinear_arith);
                assert(paired_amount == 0 ==> paired_amount * total_lp == 0) by (nonlinear_arith);
            }
        }
        let receipt = DepositReceipt {
            minted_lp,
            base_deposit: Transfer {
                asset: self.pair.meta.base_mint,
                from: self.user,
                to: self.pair.vaults.base,
                amount: base_amount,
            },
            paired_deposit: Transfer {
                asset: self.pair.meta.paired_mint,
                from: self.user,
                to: self.pair.vaults.paired,
                amount: paired_amount,
            },
            lp_mint: MintTo { asset: self.pair.vaults.lp_mint, to: self.user, amount: minted_lp },
            authority: self.pair.authority(),
        };
        self.pair.reserves.base = new_base_reserve;
        self.pair.reserves.paired = new_paired_reserve;
        self.pair.total_liquidity = new_total_lp;
        Ok(receipt)
    }
}

} // verus!
