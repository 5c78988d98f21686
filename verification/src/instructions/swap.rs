//! Trading against a pool.
//!
//! A swap takes its fee from the input, under the fee policy of the
//! deployment, applies the constant-product curve to what remains, and pays
//! the trader what the curve gives. The protocol's part of the fee leaves the
//! pool for the fee collector, in the input asset; the rest of the input
//! stays in the input reserve.
use crate::curve::amount_out;
use crate::curve::compute_amount_out;
use crate::curve::compute_fee_split;
use crate::curve::fee_fits;
use crate::curve::lemma_product_with_retained_fee;
use crate::curve::lemma_reserve_out_after_bounds;
use crate::curve::liquidity_part;
use crate::curve::protocol_part;
use crate::curve::total_fee;
use crate::curve::FeePolicy;
use crate::error::AmmError;
use crate::ledger::Transfer;
use crate::math::checked_add;
use crate::state::address::Address;
use crate::state::pair::Pair;
use crate::state::pair::PairAuthority;
use crate::state::pair::Reserves;
use crate::state::platform::PlatformState;
use crate::state::platform::PlatformStats;
use vstd::prelude::*;

verus! {

/// What a swap reads and writes: the platform, the pool, the trader, the
/// current time, and the deployment's fee and cooldown policies.
#[derive(Clone, Copy, PartialEq, Eq, Debug)]
pub struct Swap {
    pub platform_state: PlatformState,
    /// The trader.
    pub user: Address,
    pub pair: Pair,
    /// The current time, in seconds.
    pub now: i64,
    /// How the fee is formed and split.
    pub fee_policy: FeePolicy,
    /// With `Some(c)`, a swap is refused unless more than `c` seconds have
    /// passed since the pool's last swap. With `None` no cooldown applies.
    pub cooldown_seconds: Option<i64>,
}

/// What a successful swap asks of the ledger, and the amounts it settled on.
#[derive(Clone, Copy, PartialEq, Eq, Debug)]
pub struct SwapReceipt {
    /// What the trader receives.
    pub amount_out: u64,
    /// The part of the fee that goes to the fee collector.
    pub protocol_fee: u64,
    /// The part of the fee that stays in the input reserve.
    pub liquidity_fee: u64,
    /// The whole input, from the trader to the input vault.
    pub deposit: Transfer,
    /// The output, from the output vault to the trader.
    pub payout: Transfer,
    /// The protocol fee, from the input vault to the fee collector. Absent
    /// when the protocol fee is zero.
    pub fee: Option<Transfer>,
    /// The pool's authority, which signs for the legs that leave a vault.
    pub authority: PairAuthority,
}

impl SwapReceipt {
    /// What settling every leg of this receipt adds to the balance that
    /// `holder` has of `asset`.
    pub open spec fn credit(&self, asset: Address, holder: Address) -> int {
        self.deposit.credit(asset, holder) + self.payout.credit(asset, holder) + (match self.fee {
            Some(fee) => fee.credit(asset, holder),
            None => 0,
        })
    }
}

impl Swap {
    /// The asset the trader pays.
    pub open spec fn asset_in(&self, is_base_input: bool) -> Address {
        if is_base_input {
            self.pair.meta.base_mint
        } else {
            self.pair.meta.paired_mint
        }
    }

    /// The asset the trader receives.
    pub open spec fn asset_out(&self, is_base_input: bool) -> Address {
        if is_base_input {
            self.pair.meta.paired_mint
        } else {
            self.pair.meta.base_mint
        }
    }

    /// The vault the trader pays into.
    pub open spec fn vault_in(&self, is_base_input: bool) -> Address {
        if is_base_input {
            self.pair.vaults.base
        } else {
            self.pair.vaults.paired
        }
    }

    /// The vault the trader is paid from.
    pub open spec fn vault_out(&self, is_base_input: bool) -> Address {
        if is_base_input {
            self.pair.vaults.paired
        } else {
            self.pair.vaults.base
        }
    }

    /// The whole fee on `amount_in`: what does not go through the curve.
    pub open spec fn fee_on(&self, amount_in: u64) -> int {
        total_fee(
            self.fee_policy,
            amount_in as int,
            self.pair.meta.proposed_fee_bps as int,
            self.platform_state.protocol_fee_bps as int,
        )
    }

    /// The part of the fee that goes to the fee collector.
    pub open spec fn protocol_fee_on(&self, amount_in: u64) -> int {
        protocol_part(
            self.fee_policy,
            amount_in as int,
            self.pair.meta.proposed_fee_bps as int,
            self.platform_state.protocol_fee_bps as int,
        )
    }

    /// The part of the fee that stays in the input reserve.
    pub open spec fn liquidity_fee_on(&self, amount_in: u64) -> int {
        liquidity_part(
            self.fee_policy,
            amount_in as int,
            self.pair.meta.proposed_fee_bps as int,
            self.platform_state.protocol_fee_bps as int,
        )
    }

    /// Whether the fee on `amount_in` can be taken.
    pub open spec fn fee_fits(&self, amount_in: u64) -> bool {
        fee_fits(
            self.fee_policy,
            amount_in as int,
            self.pair.meta.proposed_fee_bps as int,
            self.platform_state.protocol_fee_bps as int,
        )
    }

    /// The part of `amount_in` that the curve is applied to.
    pub open spec fn effective_input(&self, amount_in: u64) -> int {
        amount_in - self.fee_on(amount_in)
    }

    /// The input reserve as the curve sees it after the swap: the old
    /// reserve and the effective input.
    pub open spec fn curve_reserve_in(&self, amount_in: u64, is_base_input: bool) -> int {
        self.pair.reserve_in(is_base_input) + self.effective_input(amount_in)
    }

    /// What the curve pays for `amount_in` after the fee.
    pub open spec fn quote(&self, amount_in: u64, is_base_input: bool) -> int {
        amount_out(
            self.pair.reserve_in(is_base_input) as int,
            self.pair.reserve_out(is_base_input) as int,
            self.effective_input(amount_in),
        )
    }

    /// The input reserve after the swap: everything paid in but the
    /// protocol's part of the fee.
    pub open spec fn new_reserve_in(&self, amount_in: u64, is_base_input: bool) -> int {
        self.pair.reserve_in(is_base_input) + amount_in - self.protocol_fee_on(amount_in)
    }

    /// The output reserve after the swap.
    pub open spec fn new_reserve_out(&self, amount_in: u64, is_base_input: bool) -> int {
        self.pair.reserve_out(is_base_input) - self.quote(amount_in, is_base_input)
    }

    /// The time since the pool's last swap.
    pub open spec fn elapsed(&self) -> int {
        self.now - self.pair.last_swap_time
    }

    /// Why the swap is refused, or `None` where it goes through. The checks
    /// are made in this order and the first that fails decides.
    pub open spec fn refusal(&self, amount_in: u64, min_amount_out: u64, is_base_input: bool)
        -> Option<AmmError> {
        if self.platform_state.security.is_paused {
            Some(AmmError::TradingPaused)
        } else if amount_in == 0 {
            Some(AmmError::ZeroAmount)
        } else if self.pair.total_liquidity == 0 {
            Some(AmmError::InsufficientLiquidity)
        } else if self.cooldown_seconds is Some && !(i64::MIN <= self.elapsed() <= i64::MAX) {
            Some(AmmError::MathOverflow)
        } else if self.cooldown_seconds is Some && self.elapsed() <= self.cooldown_seconds->0 {
            Some(AmmError::SwapCooldown)
        } else if !self.fee_fits(amount_in) {
            Some(AmmError::MathOverflow)
        } else if self.curve_reserve_in(amount_in, is_base_input) == 0 {
            Some(AmmError::MathOverflow)
        } else if self.quote(amount_in, is_base_input) < min_amount_out {
            Some(AmmError::SlippageExceeded)
        } else if self.new_reserve_in(amount_in, is_base_input) > u64::MAX {
            Some(AmmError::MathOverflow)
        } else if self.platform_state.stats.total_volume + amount_in > u64::MAX {
            Some(AmmError::MathOverflow)
        } else if self.platform_state.stats.total_fees + self.protocol_fee_on(amount_in)
            > u64::MAX {
            Some(AmmError::MathOverflow)
        } else {
            None
        }
    }

    /// The receipt of a swap that goes through.
    pub open spec fn receipt(&self, amount_in: u64, is_base_input: bool) -> SwapReceipt {
        let protocol_fee = self.protocol_fee_on(amount_in) as u64;
        SwapReceipt {
            amount_out: self.quote(amount_in, is_base_input) as u64,
            protocol_fee,
            liquidity_fee: self.liquidity_fee_on(amount_in) as u64,
            deposit: Transfer {
                asset: self.asset_in(is_base_input),
                from: self.user,
                to: self.vault_in(is_base_input),
                amount: amount_in,
            },
            payout: Transfer {
                asset: self.asset_out(is_base_input),
                from: self.vault_out(is_base_input),
                to: self.user,
                amount: self.quote(amount_in, is_base_input) as u64,
            },
            fee: if protocol_fee > 0 {
                Some(
                    Transfer {
                        asset: self.asset_in(is_base_input),
                        from: self.vault_in(is_base_input),
                        to: self.platform_state.fee_collector,
                        amount: protocol_fee,
                    },
                )
            } else {
                None
            },
            authority: self.pair.authority(),
        }
    }

    /// The reserves after a swap that goes through.
    pub open spec fn settled_reserves(&self, amount_in: u64, is_base_input: bool) -> Reserves {
        if is_base_input {
            Reserves {
                base: self.new_reserve_in(amount_in, is_base_input) as u64,
                paired: self.new_reserve_out(amount_in, is_base_input) as u64,
            }
        } else {
            Reserves {
                base: self.new_reserve_out(amount_in, is_base_input) as u64,
                paired: self.new_reserve_in(amount_in, is_base_input) as u64,
            }
        }
    }

    /// Everything after a swap that goes through: the reserves moved, the
    /// time of the swap recorded, the volume raised by the input and the fee
    /// total by the protocol fee, and nothing else touched.
    pub open spec fn settled(&self, amount_in: u64, is_base_input: bool) -> Swap {
        Swap {
            pair: Pair {
                reserves: self.settled_reserves(amount_in, is_base_input),
                last_swap_time: self.now,
                ..self.pair
            },
            platform_state: PlatformState {
                stats: PlatformStats {
                    total_volume: (self.platform_state.stats.total_volume + amount_in) as u64,
                    total_fees: (self.platform_state.stats.total_fees + self.protocol_fee_on(
                        amount_in,
                    )) as u64,
                    ..self.platform_state.stats
                },
                ..self.platform_state
            },
            ..*self
        }
    }

    /// Whether a swap that goes through leaves the product of the reserves
    /// no lower than it was: whether the fee kept in the pool, multiplied by
    /// the new output reserve, makes up for what the curve's division
    /// rounded away.
    pub open spec fn keeps_product(&self, amount_in: u64, is_base_input: bool) -> bool {
        self.liquidity_fee_on(amount_in) * self.new_reserve_out(amount_in, is_base_input)
            >= self.pair.product() % self.curve_reserve_in(amount_in, is_base_input)
    }

    /// Whether a swap that goes through leaves something in the output
    /// reserve: whether the old product is at least the input reserve as the
    /// curve sees it after the swap.
    pub open spec fn keeps_output(&self, amount_in: u64, is_base_input: bool) -> bool {
        self.pair.product() >= self.curve_reserve_in(amount_in, is_base_input)
    }

    /// Across a swap that goes through and keeps the product, the product of
    /// the reserves does not decrease.
    pub proof fn lemma_product_non_decreasing(
        &self,
        amount_in: u64,
        min_amount_out: u64,
        is_base_input: bool,
    )
        requires
            self.refusal(amount_in, min_amount_out, is_base_input) is None,
            self.keeps_product(amount_in, is_base_input),
        ensures
            self.settled(amount_in, is_base_input).pair.product() >= self.pair.product(),
    {
        let r_in = self.pair.reserve_in(is_base_input) as int;
        let r_out = self.pair.reserve_out(is_base_input) as int;
        let eff = self.effective_input(amount_in);
        let kept = self.liquidity_fee_on(amount_in);
        lemma_reserve_out_after_bounds(r_in, r_out, eff);
        lemma_product_with_retained_fee(r_in, r_out, eff, kept);
        assert(r_in * r_out == r_out * r_in) by (nonlinear_arith);
        assert((r_in + eff + kept) * (r_out - self.quote(amount_in, is_base_input)) == (r_out
            - self.quote(amount_in, is_base_input)) * (r_in + eff + kept)) by (nonlinear_arith);
    }

    /// A swap that goes through, against a pool with something in its input
    /// reserve and a product that keeps the output, pays out strictly less
    /// than the output reserve.
    pub proof fn lemma_output_not_drained(
        &self,
        amount_in: u64,
        min_amount_out: u64,
        is_base_input: bool,
    )
        requires
            self.refusal(amount_in, min_amount_out, is_base_input) is None,
            self.pair.reserve_in(is_base_input) > 0,
            self.keeps_output(amount_in, is_base_input),
        ensures
            self.receipt(amount_in, is_base_input).amount_out < self.pair.reserve_out(
                is_base_input,
            ),
    {
        let r_in = self.pair.reserve_in(is_base_input) as int;
        let r_out = self.pair.reserve_out(is_base_input) as int;
        let eff = self.effective_input(amount_in);
        lemma_reserve_out_after_bounds(r_in, r_out, eff);
        crate::curve::lemma_output_not_drained(r_in, r_out, eff);
        assert(r_in * r_out == r_out * r_in) by (nonlinear_arith);
    }

    /// The legs of a swap move into each vault exactly what the swap adds to
    /// that vault's reserve, for a pool whose assets and vaults differ and a
    /// trader and fee collector that are not its vaults.
    pub proof fn lemma_legs_settle_reserves(
        &self,
        amount_in: u64,
        min_amount_out: u64,
        is_base_input: bool,
    )
        requires
            self.refusal(amount_in, min_amount_out, is_base_input) is None,
            self.pair.is_separable(),
            self.pair.is_outside(self.user),
            self.pair.is_outside(self.platform_state.fee_collector),
        ensures
            ({
                let receipt = self.receipt(amount_in, is_base_input);
                let after = self.settled(amount_in, is_base_input).pair;
                &&& receipt.credit(self.pair.meta.base_mint, self.pair.vaults.base)
                    == after.reserves.base - self.pair.reserves.base
                &&& receipt.credit(self.pair.meta.paired_mint, self.pair.vaults.paired)
                    == after.reserves.paired - self.pair.reserves.paired
            }),
    {
        let r_in = self.pair.reserve_in(is_base_input) as int;
        let r_out = self.pair.reserve_out(is_base_input) as int;
        let eff = self.effective_input(amount_in);
        lemma_reserve_out_after_bounds(r_in, r_out, eff);
        crate::curve::lemma_fee_parts(
            self.fee_policy,
            amount_in as int,
            self.pair.meta.proposed_fee_bps as int,
            self.platform_state.protocol_fee_bps as int,
        );
    }

    /// A swap whose effective input, added to the input reserve, divides the
    /// old product exactly keeps the product.
    pub proof fn lemma_exact_division_keeps_product(&self, amount_in: u64, is_base_input: bool)
        requires
            self.refusal(amount_in, 0, is_base_input) is None,
            self.pair.product() % self.curve_reserve_in(amount_in, is_base_input) == 0,
        ensures
            self.keeps_product(amount_in, is_base_input),
    {
        let r_in = self.pair.reserve_in(is_base_input) as int;
        let r_out = self.pair.reserve_out(is_base_input) as int;
        let eff = self.effective_input(amount_in);
        lemma_product_with_retained_fee(r_in, r_out, eff, self.liquidity_fee_on(amount_in));
    }

    /// Swaps `amount_in` of one asset of the pool for the other.
    ///
    /// The swap goes through exactly when no check of [`Swap::refusal`]
    /// fails; it then returns [`Swap::receipt`] and leaves the state as
    /// [`Swap::settled`]. Otherwise it returns the kind of the first check
    /// that failed and changes nothing.
    pub fn swap(&mut self, amount_in: u64, min_amount_out: u64, is_base_input: bool) -> (result:
        Result<SwapReceipt, AmmError>)
        ensures
            match result {
                Ok(receipt) => {
                    &&& old(self).refusal(amount_in, min_amount_out, is_base_input) is None
                    &&& receipt == old(self).receipt(amount_in, is_base_input)
                    &&& *final(self) == old(self).settled(amount_in, is_base_input)
                },
                Err(kind) => {
                    &&& old(self).refusal(amount_in, min_amount_out, is_base_input) == Some(kind)
                    &&& *final(self) == *old(self)
                },
            },
            // What moved: the input reserve grew by the input less the
            // protocol fee, the output reserve shrank by the output, and the
            // claims outstanding, the identities and the totals' direction
            // are as they were.
            result matches Ok(receipt) ==> {
                &&& receipt.amount_out >= min_amount_out
                &&& receipt.amount_out <= old(self).pair.reserve_out(is_base_input)
                &&& receipt.protocol_fee + receipt.liquidity_fee <= amount_in
                &&& final(self).pair.reserve_in(is_base_input) == old(self).pair.reserve_in(
                    is_base_input,
                ) + amount_in - receipt.protocol_fee
                &&& final(self).pair.reserve_out(is_base_input) == old(self).pair.reserve_out(
                    is_base_input,
                ) - receipt.amount_out
                &&& final(self).pair.total_liquidity == old(self).pair.total_liquidity
                &&& final(self).pair.same_identity(&old(self).pair)
                &&& final(self).platform_state.stats.not_below(&old(self).platform_state.stats)
                &&& old(self).pair.wf() && old(self).keeps_output(amount_in, is_base_input)
                    ==> final(self).pair.wf()
            },
            // The product of the reserves: without the fee kept in the pool
            // it falls short of its old value by less than the input reserve
            // as the curve sees it, and it is no lower than before exactly
            // when the kept fee makes up for the rounding.
            result is Ok ==> {
                &&& final(self).pair.product() > old(self).pair.product() - old(self).curve_reserve_in(amount_in, is_base_input)
                &&& final(self).pair.product() >= old(self).pair.product() <==> old(self).keeps_product(amount_in, is_base_input)
                &&& old(self).liquidity_fee_on(amount_in) == 0 ==> final(self).pair.product()
                    <= old(self).pair.product()
            },
            // The output reserve is left with something exactly when the old
            // product is at least the input reserve as the curve sees it.
            result matches Ok(receipt) ==> (receipt.amount_out < old(self).pair.reserve_out(
                is_base_input,
            ) <==> old(self).keeps_output(amount_in, is_base_input)),
    {
        if self.platform_state.security.is_paused {
            return Err(AmmError::TradingPaused);
        }
        if amount_in == 0 {
            return Err(AmmError::ZeroAmount);
        }
        if self.pair.total_liquidity == 0 {
            return Err(AmmError::InsufficientLiquidity);
        }
        match self.cooldown_seconds {
            Some(cooldown) => {
                match self.now.checked_sub(self.pair.last_swap_time) {
                    Some(elapsed) => {
                        if elapsed <= cooldown {
                            return Err(AmmError::SwapCooldown);
                        }
                    },
                    None => {
                        return Err(AmmError::MathOverflow);
                    },
                }
            },
            None => {},
        }
        let reserve_in = self.pair.reserve_in(is_base_input);
        let reserve_out = self.pair.reserve_out(is_base_input);
        let fees = match compute_fee_split(
            self.fee_policy,
            amount_in,
            self.pair.meta.proposed_fee_bps,
            self.platform_state.protocol_fee_bps,
        ) {
            Ok(fees) => fees,
            Err(kind) => {
                return Err(kind);
            },
        };
        let amount_in_after_fee = amount_in - fees.protocol_fee - fees.liquidity_fee;
        let amount_out = match compute_amount_out(reserve_in, reserve_out, amount_in_after_fee) {
            Ok(amount) => amount,
            Err(kind) => {
                return Err(kind);
            },
        };
        if amount_out < min_amount_out {
            return Err(AmmError::SlippageExceeded);
        }
        let new_reserve_in = match checked_add(reserve_in, amount_in - fees.protocol_fee) {
            Ok(reserve) => reserve,
            Err(kind) => {
                return Err(kind);
            },
        };
        let new_reserve_out = reserve_out - amount_out;
        let total_volume = match checked_add(self.platform_state.stats.total_volume, amount_in) {
            Ok(total) => total,
            Err(kind) => {
                return Err(kind);
            },
        };
        let total_fees = match checked_add(
            self.platform_state.stats.total_fees,
            fees.protocol_fee,
        ) {
            Ok(total) => total,
            Err(kind) => {
                return Err(kind);
            },
        };
        let (asset_in, asset_out, vault_in, vault_out) = if is_base_input {
            (
                self.pair.meta.base_mint,
                self.pair.meta.paired_mint,
                self.pair.vaults.base,
                self.pair.vaults.paired,
            )
        } else {
            (
                self.pair.meta.paired_mint,
                self.pair.meta.base_mint,
                self.pair.vaults.paired,
                self.pair.vaults.base,
            )
        };
        let receipt = SwapReceipt {
            amount_out,
            protocol_fee: fees.protocol_fee,
            liquidity_fee: fees.liquidity_fee,
            deposit: Transfer { asset: asset_in, from: self.user, to: vault_in, amount: amount_in },
            payout: Transfer {
                asset: asset_out,
                from: vault_out,
                to: self.user,
                amount: amount_out,
            },
            fee: if fees.protocol_fee > 0 {
                Some(
                    Transfer {
                        asset: asset_in,
                        from: vault_in,
                        to: self.platform_state.fee_collector,
                        amount: fees.protocol_fee,
                    },
                )
            } else {
                None
            },
            authority: self.pair.authority(),
        };
        proof {
            let r_in = reserve_in as int;
            let r_out = reserve_out as int;
            let eff = amount_in_after_fee as int;
            let kept = fees.liquidity_fee as int;
            lemma_reserve_out_after_bounds(r_in, r_out, eff);
            lemma_product_with_retained_fee(r_in, r_out, eff, kept);
            crate::curve::lemma_output_not_drained(r_in, r_out, eff);
            assert(r_in * r_out == r_out * r_in) by (nonlinear_arith);
            assert((r_in + eff + kept) * (r_out - amount_out) == (r_out - amount_out) * (r_in
                + eff + kept)) by (nonlinear_arith);
        }
        if is_base_input {
            self.pair.reserves.base = new_reserve_in;
            self.pair.reserves.paired = new_reserve_out;
        } else {
            self.pair.reserves.paired = new_reserve_in;
            self.pair.reserves.base = new_reserve_out;
        }
        self.pair.last_swap_time = self.now;
        self.platform_state.stats.total_volume = total_volume;
        self.platform_state.stats.total_fees = total_fees;
        Ok(receipt)
    }
}

} // verus!
