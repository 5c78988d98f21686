//! The constant-product pricing curve and the fees taken before it.
//!
//! A swap pays `amount` into one reserve and is paid from the other. With
//! `k = reserve_in * reserve_out`, the output reserve after the swap is
//! `floor(k / (reserve_in + amount))` and the trader receives the difference.
//!
//! Fees are shares of the input, in basis points, and are taken before the
//! curve is applied. A deployment runs under one of two fee policies, see
//! [`FeePolicy`].
use crate::error::AmmError;
use crate::math::checked_div;
use crate::math::lemma_div_brackets;
use crate::math::narrow;
use crate::math::wide_mul;
use crate::math::BPS_DENOMINATOR;
use vstd::prelude::*;

verus! {

/// How a swap's fee is formed and split.
#[derive(Clone, Copy, PartialEq, Eq, Structural, Debug)]
pub enum FeePolicy {
    /// The only fee is the protocol's: the platform's rate applied to the
    /// input. It is routed to the fee collector; the rest of the input goes
    /// through the curve and stays in the input reserve.
    InputSide,
    /// The fee is the pool's rate applied to the input. The protocol's share
    /// of that fee, at the platform's rate, is routed to the fee collector.
    /// The rest of the fee stays in the input reserve without going through
    /// the curve, to the benefit of the liquidity providers.
    OutputSide,
}

/// The fee on a swap: what goes to the protocol and what stays in the pool.
#[derive(Clone, Copy, PartialEq, Eq, Structural, Debug)]
pub struct FeeSplit {
    /// Routed to the fee collector.
    pub protocol_fee: u64,
    /// Retained in the input reserve.
    pub liquidity_fee: u64,
}

/// The share of `amount` at `bps` basis points, rounded down.
pub open spec fn bps_share(amount: int, bps: int) -> int {
    (amount * bps) / (BPS_DENOMINATOR as int)
}

/// The whole fee on `amount_in`: what does not go through the curve.
pub open spec fn total_fee(policy: FeePolicy, amount_in: int, pool_bps: int, protocol_bps: int)
    -> int {
    match policy {
        FeePolicy::InputSide => bps_share(amount_in, protocol_bps),
        FeePolicy::OutputSide => bps_share(amount_in, pool_bps),
    }
}

/// The part of the fee that is routed to the fee collector.
pub open spec fn protocol_part(
    policy: FeePolicy,
    amount_in: int,
    pool_bps: int,
    protocol_bps: int,
) -> int {
    match policy {
        FeePolicy::InputSide => bps_share(amount_in, protocol_bps),
        FeePolicy::OutputSide => bps_share(bps_share(amount_in, pool_bps), protocol_bps),
    }
}

/// The part of the fee that stays in the input reserve.
pub open spec fn liquidity_part(
    policy: FeePolicy,
    amount_in: int,
    pool_bps: int,
    protocol_bps: int,
) -> int {
    total_fee(policy, amount_in, pool_bps, protocol_bps) - protocol_part(
        policy,
        amount_in,
        pool_bps,
        protocol_bps,
    )
}

/// Whether the fee can be taken: the whole fee is no more than the input and
/// the protocol's part no more than the whole fee. This holds whenever both
/// rates are at most 100%.
pub open spec fn fee_fits(policy: FeePolicy, amount_in: int, pool_bps: int, protocol_bps: int)
    -> bool {
    &&& total_fee(policy, amount_in, pool_bps, protocol_bps) <= amount_in
    &&& protocol_part(policy, amount_in, pool_bps, protocol_bps) <= total_fee(
        policy,
        amount_in,
        pool_bps,
        protocol_bps,
    )
}

/// The output reserve after `amount` has been added to the input reserve.
pub open spec fn reserve_out_after(reserve_in: int, reserve_out: int, amount: int) -> int {
    (reserve_in * reserve_out) / (reserve_in + amount)
}

/// What the trader receives for paying `amount` into the input reserve.
pub open spec fn amount_out(reserve_in: int, reserve_out: int, amount: int) -> int {
    reserve_out - reserve_out_after(reserve_in, reserve_out, amount)
}

/// A share is never negative. At a rate of at most 100% it is no more than
/// the amount, and at a rate of zero it is nothing.
pub proof fn lemma_bps_share_bounds(amount: int, bps: int)
    requires
        amount >= 0,
        bps >= 0,
    ensures
        0 <= bps_share(amount, bps),
        bps <= BPS_DENOMINATOR ==> bps_share(amount, bps) <= amount,
        bps == 0 ==> bps_share(amount, bps) == 0,
{
    let d = BPS_DENOMINATOR as int;
    let x = amount * bps;
    assert(0 <= x) by (nonlinear_arith)
        requires
            x == amount * bps,
            amount >= 0,
            bps >= 0,
    ;
    assert(bps <= d ==> x <= amount * d) by (nonlinear_arith)
        requires
            x == amount * bps,
            amount >= 0,
            bps >= 0,
    ;
    assert(bps == 0 ==> x == 0) by (nonlinear_arith)
        requires
            x == amount * bps,
    ;
    lemma_div_brackets(x, d);
}

/// Neither part of a fee is negative, whatever the rates.
pub proof fn lemma_fee_parts(policy: FeePolicy, amount_in: int, pool_bps: int, protocol_bps: int)
    requires
        amount_in >= 0,
        pool_bps >= 0,
        protocol_bps >= 0,
    ensures
        0 <= protocol_part(policy, amount_in, pool_bps, protocol_bps),
        0 <= total_fee(policy, amount_in, pool_bps, protocol_bps),
{
    lemma_bps_share_bounds(amount_in, protocol_bps);
    lemma_bps_share_bounds(amount_in, pool_bps);
    lemma_bps_share_bounds(bps_share(amount_in, pool_bps), protocol_bps);
}

/// With both rates at most 100% the fee can be taken, under either policy.
pub proof fn lemma_fee_fits(policy: FeePolicy, amount_in: int, pool_bps: int, protocol_bps: int)
    requires
        amount_in >= 0,
        0 <= pool_bps <= BPS_DENOMINATOR,
        0 <= protocol_bps <= BPS_DENOMINATOR,
    ensures
        fee_fits(policy, amount_in, pool_bps, protocol_bps),
        0 <= protocol_part(policy, amount_in, pool_bps, protocol_bps),
        0 <= liquidity_part(policy, amount_in, pool_bps, protocol_bps),
{
    lemma_bps_share_bounds(amount_in, protocol_bps);
    lemma_bps_share_bounds(amount_in, pool_bps);
    lemma_bps_share_bounds(bps_share(amount_in, pool_bps), protocol_bps);
}

/// The output reserve never grows and never goes negative.
pub proof fn lemma_reserve_out_after_bounds(reserve_in: int, reserve_out: int, amount: int)
    requires
        reserve_in >= 0,
        reserve_out >= 0,
        amount >= 0,
        reserve_in + amount > 0,
    ensures
        0 <= reserve_out_after(reserve_in, reserve_out, amount) <= reserve_out,
        0 <= amount_out(reserve_in, reserve_out, amount) <= reserve_out,
{
    let k = reserve_in * reserve_out;
    let d = reserve_in + amount;
    let n = k / d;
    assert(k >= 0) by (nonlinear_arith)
        requires
            k == reserve_in * reserve_out,
            reserve_in >= 0,
            reserve_out >= 0,
    ;
    lemma_div_brackets(k, d);
    assert(n <= reserve_out) by (nonlinear_arith)
        requires
            d * n <= k,
            k == reserve_in * reserve_out,
            d >= reserve_in,
            reserve_in >= 0,
            reserve_out >= 0,
            d > 0,
            n >= 0,
    ;
}

/// The product of the reserves does not decrease across a swap whose new
/// input reserve divides the old product exactly.
pub proof fn lemma_product_non_decreasing(reserve_in: int, reserve_out: int, amount: int)
    requires
        reserve_in >= 0,
        reserve_out >= 0,
        amount >= 0,
        reserve_in + amount > 0,
        (reserve_in * reserve_out) % (reserve_in + amount) == 0,
    ensures
        ({
            let new_in = reserve_in + amount;
            let new_out = reserve_out - amount_out(reserve_in, reserve_out, amount);
            new_in * new_out >= reserve_in * reserve_out
        }),
{
    vstd::arithmetic::div_mod::lemma_fundamental_div_mod(
        reserve_in * reserve_out,
        reserve_in + amount,
    );
}

/// Where the new input reserve does not divide the old product, the product
/// of the reserves strictly decreases.
pub proof fn lemma_product_decreases_when_inexact(reserve_in: int, reserve_out: int, amount: int)
    requires
        reserve_in >= 0,
        reserve_out >= 0,
        amount >= 0,
        reserve_in + amount > 0,
        (reserve_in * reserve_out) % (reserve_in + amount) != 0,
    ensures
        ({
            let new_in = reserve_in + amount;
            let new_out = reserve_out - amount_out(reserve_in, reserve_out, amount);
            new_in * new_out < reserve_in * reserve_out
        }),
{
    let k = reserve_in * reserve_out;
    assert(k >= 0) by (nonlinear_arith)
        requires
            k == reserve_in * reserve_out,
            reserve_in >= 0,
            reserve_out >= 0,
    ;
    vstd::arithmetic::div_mod::lemma_fundamental_div_mod(k, reserve_in + amount);
    vstd::arithmetic::div_mod::lemma_mod_pos_bound(k, reserve_in + amount);
}

/// The product of the reserves after a swap in which `kept` stays in the
/// input reserve without having gone through the curve. The product regains
/// what rounding took from it exactly when `kept`, multiplied by the new
/// output reserve, makes up for the remainder of the curve's division.
pub proof fn lemma_product_with_retained_fee(
    reserve_in: int,
    reserve_out: int,
    amount: int,
    kept: int,
)
    requires
        reserve_in >= 0,
        reserve_out >= 0,
        amount >= 0,
        kept >= 0,
        reserve_in + amount > 0,
    ensures
        ({
            let curve_in = reserve_in + amount;
            let new_out = reserve_out - amount_out(reserve_in, reserve_out, amount);
            let old_product = reserve_in * reserve_out;
            let new_product = (curve_in + kept) * new_out;
            &&& new_product == curve_in * new_out + kept * new_out
            &&& old_product - curve_in < curve_in * new_out <= old_product
            &&& kept * new_out >= 0
            &&& new_product >= old_product <==> kept * new_out >= old_product % curve_in
            &&& kept == 0 ==> new_product <= old_product
        }),
{
    let curve_in = reserve_in + amount;
    let new_out = reserve_out - amount_out(reserve_in, reserve_out, amount);
    let old_product = reserve_in * reserve_out;
    assert(old_product >= 0) by (nonlinear_arith)
        requires
            old_product == reserve_in * reserve_out,
            reserve_in >= 0,
            reserve_out >= 0,
    ;
    lemma_div_brackets(old_product, curve_in);
    vstd::arithmetic::div_mod::lemma_fundamental_div_mod(old_product, curve_in);
    assert((curve_in + kept) * new_out == curve_in * new_out + kept * new_out)
        by (nonlinear_arith);
    assert(kept * new_out >= 0) by (nonlinear_arith)
        requires
            kept >= 0,
            new_out >= 0,
    ;
    assert(kept == 0 ==> kept * new_out == 0) by (nonlinear_arith);
}

/// A swap leaves something in the output reserve exactly when the old product
/// is at least the new input reserve.
pub proof fn lemma_output_not_drained(reserve_in: int, reserve_out: int, amount: int)
    requires
        reserve_in >= 0,
        reserve_out >= 0,
        amount >= 0,
        reserve_in + amount > 0,
    ensures
        reserve_in * reserve_out >= reserve_in + amount <==> amount_out(
            reserve_in,
            reserve_out,
            amount,
        ) < reserve_out,
{
    let k = reserve_in * reserve_out;
    let d = reserve_in + amount;
    assert(k >= 0) by (nonlinear_arith)
        requires
            k == reserve_in * reserve_out,
            reserve_in >= 0,
            reserve_out >= 0,
    ;
    lemma_div_brackets(k, d);
    let n = k / d;
    if k >= d {
        assert(n >= 1) by (nonlinear_arith)
            requires
                k < d * n + d,
                k >= d,
                d > 0,
        ;
    } else {
        assert(n <= 0) by (nonlinear_arith)
            requires
                d * n <= k,
                k < d,
                d > 0,
        ;
    }
}

/// The share of `amount` at `bps` basis points, or `MathOverflow` when it
/// does not fit in 64 bits.
pub fn compute_bps_share(amount: u64, bps: u16) -> (result: Result<u64, AmmError>)
    ensures
        bps_share(amount as int, bps as int) <= u64::MAX ==> result == Ok::<u64, AmmError>(
            bps_share(amount as int, bps as int) as u64,
        ),
        bps_share(amount as int, bps as int) > u64::MAX ==> result == Err::<u64, AmmError>(
            AmmError::MathOverflow,
        ),
        0 <= bps_share(amount as int, bps as int),
{
    proof {
        lemma_bps_share_bounds(amount as int, bps as int);
    }
    let product = wide_mul(amount, bps as u64);
    narrow(product / (BPS_DENOMINATOR as u128))
}

/// The fee on `amount_in` under `policy`, split into the protocol's part and
/// the pool's, or `MathOverflow` when the fee cannot be taken.
pub fn compute_fee_split(policy: FeePolicy, amount_in: u64, pool_bps: u16, protocol_bps: u16)
    -> (result: Result<FeeSplit, AmmError>)
    ensures
        fee_fits(policy, amount_in as int, pool_bps as int, protocol_bps as int) ==> result
            == Ok::<FeeSplit, AmmError>(
            FeeSplit {
                protocol_fee: protocol_part(
                    policy,
                    amount_in as int,
                    pool_bps as int,
                    protocol_bps as int,
                ) as u64,
                liquidity_fee: liquidity_part(
                    policy,
                    amount_in as int,
                    pool_bps as int,
                    protocol_bps as int,
                ) as u64,
            },
        ),
        !fee_fits(policy, amount_in as int, pool_bps as int, protocol_bps as int) ==> result
            == Err::<FeeSplit, AmmError>(AmmError::MathOverflow),
        result matches Ok(split) ==> split.protocol_fee + split.liquidity_fee == total_fee(
            policy,
            amount_in as int,
            pool_bps as int,
            protocol_bps as int,
        ) && split.protocol_fee + split.liquidity_fee <= amount_in,
{
    match policy {
        FeePolicy::InputSide => {
            let fee = match compute_bps_share(amount_in, protocol_bps) {
                Ok(fee) => fee,
                Err(kind) => {
                    return Err(kind);
                },
            };
            if fee > amount_in {
                return Err(AmmError::MathOverflow);
            }
            Ok(FeeSplit { protocol_fee: fee, liquidity_fee: 0 })
        },
        FeePolicy::OutputSide => {
            let total = match compute_bps_share(amount_in, pool_bps) {
                Ok(fee) => fee,
                Err(kind) => {
                    return Err(kind);
                },
            };
            if total > amount_in {
                return Err(AmmError::MathOverflow);
            }
            let protocol = match compute_bps_share(total, protocol_bps) {
                Ok(fee) => fee,
                Err(kind) => {
                    return Err(kind);
                },
            };
            if protocol > total {
                return Err(AmmError::MathOverflow);
            }
            Ok(FeeSplit { protocol_fee: protocol, liquidity_fee: total - protocol })
        },
    }
}

/// What the curve pays for `amount` added to `reserve_in`, or `MathOverflow`
/// when the new input reserve would be zero.
pub fn compute_amount_out(reserve_in: u64, reserve_out: u64, amount: u64) -> (result: Result<
    u64,
    AmmError,
>)
    ensures
        reserve_in + amount > 0 ==> result == Ok::<u64, AmmError>(
            amount_out(reserve_in as int, reserve_out as int, amount as int) as u64,
        ),
        reserve_in + amount > 0 ==> 0 <= amount_out(
            reserve_in as int,
            reserve_out as int,
            amount as int,
        ) <= reserve_out,
        reserve_in + amount == 0 ==> result == Err::<u64, AmmError>(AmmError::MathOverflow),
{
    let k = wide_mul(reserve_in, reserve_out);
    let new_reserve_in: u128 = reserve_in as u128 + amount as u128;
    match checked_div(k, new_reserve_in) {
        Ok(new_reserve_out) => {
            proof {
                lemma_reserve_out_after_bounds(reserve_in as int, reserve_out as int, amount as int);
            }
            Ok((reserve_out as u128 - new_reserve_out) as u64)
        },
        Err(e) => Err(e),
    }
}

} // verus!
