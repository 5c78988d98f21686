//! Claim-token arithmetic: what a deposit mints and what a redemption pays.
//!
//! The first deposit into a pool mints the geometric mean of the two amounts.
//! Later deposits mint in proportion to the pool, by the smaller of the two
//! sides' shares. A redemption pays the exact pro-rata share of each reserve,
//! rounded down.
use crate::error::AmmError;
use crate::math::checked_div;
use crate::math::floor_sqrt;
use crate::math::integer_sqrt;
use crate::math::lemma_div_brackets;
use crate::math::lemma_floor_sqrt_exists;
use crate::math::narrow;
use crate::math::wide_mul;
use vstd::prelude::*;

verus! {

/// What the first deposit into a pool mints.
pub open spec fn initial_shares(base_amount: int, paired_amount: int) -> int {
    floor_sqrt((base_amount * paired_amount) as nat) as int
}

/// The claim tokens that `amount` on one side is worth, against that side's
/// `reserve` and the `total_liquidity` outstanding.
pub open spec fn proportional_shares(amount: int, total_liquidity: int, reserve: int) -> int {
    (amount * total_liquidity) / reserve
}

/// What a deposit into a funded pool mints: the smaller of the two sides'
/// shares.
pub open spec fn matched_shares(
    base_amount: int,
    paired_amount: int,
    total_liquidity: int,
    base_reserve: int,
    paired_reserve: int,
) -> int {
    vstd::math::min(
        proportional_shares(base_amount, total_liquidity, base_reserve),
        proportional_shares(paired_amount, total_liquidity, paired_reserve),
    )
}

/// What redeeming `lp_amount` claim tokens pays from one `reserve`.
pub open spec fn redeemed(lp_amount: int, reserve: int, total_liquidity: int) -> int {
    (lp_amount * reserve) / total_liquidity
}

/// The first deposit mints something exactly when both amounts are positive,
/// and what it mints fits in 64 bits.
pub proof fn lemma_initial_shares_bounds(base_amount: u64, paired_amount: u64)
    ensures
        0 <= initial_shares(base_amount as int, paired_amount as int) <= u64::MAX,
        initial_shares(base_amount as int, paired_amount as int) > 0 <==> (base_amount > 0
            && paired_amount > 0),
        initial_shares(base_amount as int, paired_amount as int) * initial_shares(
            base_amount as int,
            paired_amount as int,
        ) <= base_amount * paired_amount,
{
    let product = base_amount * paired_amount;
    assert(0 <= product <= u64::MAX * u64::MAX) by (nonlinear_arith)
        requires
            product == base_amount * paired_amount,
            0 <= base_amount <= u64::MAX,
            0 <= paired_amount <= u64::MAX,
    ;
    assert(product > 0 <==> (base_amount > 0 && paired_amount > 0)) by (nonlinear_arith)
        requires
            product == base_amount * paired_amount,
            0 <= base_amount,
            0 <= paired_amount,
    ;
    lemma_floor_sqrt_exists(product as nat);
    let root = floor_sqrt(product as nat);
    assert(root <= u64::MAX) by (nonlinear_arith)
        requires
            root * root <= product,
            product <= u64::MAX * u64::MAX,
    ;
    assert(root > 0 <==> product > 0) by (nonlinear_arith)
        requires
            root * root <= product < (root + 1) * (root + 1),
    ;
}

/// A side's share is positive exactly when its amount, scaled by the claims
/// outstanding, reaches the reserve.
pub proof fn lemma_proportional_shares_positive(amount: int, total_liquidity: int, reserve: int)
    requires
        amount >= 0,
        total_liquidity >= 0,
        reserve > 0,
    ensures
        0 <= proportional_shares(amount, total_liquidity, reserve),
        proportional_shares(amount, total_liquidity, reserve) > 0 <==> amount * total_liquidity
            >= reserve,
        proportional_shares(amount, total_liquidity, reserve) * reserve <= amount
            * total_liquidity,
{
    let x = amount * total_liquidity;
    assert(x >= 0) by (nonlinear_arith)
        requires
            x == amount * total_liquidity,
            amount >= 0,
            total_liquidity >= 0,
    ;
    lemma_div_brackets(x, reserve);
    let q = x / reserve;
    assert(q > 0 <==> x >= reserve) by (nonlinear_arith)
        requires
            reserve * q <= x < reserve * q + reserve,
            reserve > 0,
            q >= 0,
    ;
    assert(q * reserve == reserve * q) by (nonlinear_arith);
}

/// Redeeming no more than is outstanding pays no more than the reserve, and
/// redeeming all of it pays the whole reserve.
pub proof fn lemma_redeemed_bounds(lp_amount: int, reserve: int, total_liquidity: int)
    requires
        0 <= lp_amount <= total_liquidity,
        total_liquidity > 0,
        reserve >= 0,
    ensures
        0 <= redeemed(lp_amount, reserve, total_liquidity) <= reserve,
        lp_amount == total_liquidity ==> redeemed(lp_amount, reserve, total_liquidity) == reserve,
        lp_amount < total_liquidity && reserve > 0 ==> redeemed(
            lp_amount,
            reserve,
            total_liquidity,
        ) < reserve,
{
    let x = lp_amount * reserve;
    assert(0 <= x <= total_liquidity * reserve) by (nonlinear_arith)
        requires
            x == lp_amount * reserve,
            0 <= lp_amount <= total_liquidity,
            reserve >= 0,
    ;
    lemma_div_brackets(x, total_liquidity);
    let q = x / total_liquidity;
    assert(q <= reserve) by (nonlinear_arith)
        requires
            total_liquidity * q <= x,
            x <= total_liquidity * reserve,
            total_liquidity > 0,
    ;
    if lp_amount == total_liquidity {
        assert(q >= reserve) by (nonlinear_arith)
            requires
                x < total_liquidity * q + total_liquidity,
                x == total_liquidity * reserve,
                total_liquidity > 0,
        ;
    }
    if lp_amount < total_liquidity && reserve > 0 {
        assert(q < reserve) by (nonlinear_arith)
            requires
                total_liquidity * q <= x,
                x == lp_amount * reserve,
                lp_amount < total_liquidity,
                reserve > 0,
                lp_amount >= 0,
        ;
    }
}

/// Whoever holds `minted` claims worth no more than `amount` of a reserve
/// gets back no more than `amount` on redeeming them straight after the
/// deposit.
pub proof fn lemma_redeem_after_deposit(
    amount: int,
    minted: int,
    reserve: int,
    total_liquidity: int,
)
    requires
        amount >= 0,
        minted > 0,
        reserve >= 0,
        total_liquidity >= 0,
        minted * reserve <= amount * total_liquidity,
    ensures
        redeemed(minted, reserve + amount, total_liquidity + minted) <= amount,
{
    let x = minted * (reserve + amount);
    let d = total_liquidity + minted;
    assert(0 <= x < (amount + 1) * d) by (nonlinear_arith)
        requires
            x == minted * (reserve + amount),
            d == total_liquidity + minted,
            minted * reserve <= amount * total_liquidity,
            amount >= 0,
            minted > 0,
            reserve >= 0,
            total_liquidity >= 0,
    ;
    lemma_div_brackets(x, d);
    let q = x / d;
    assert(q <= amount) by (nonlinear_arith)
        requires
            d * q <= x,
            x < (amount + 1) * d,
            d > 0,
    ;
}

/// What the first deposit of `base_amount` and `paired_amount` mints.
pub fn compute_initial_shares(base_amount: u64, paired_amount: u64) -> (minted: u64)
    ensures
        minted == initial_shares(base_amount as int, paired_amount as int),
{
    let product = wide_mul(base_amount, paired_amount);
    let root = integer_sqrt(product);
    proof {
        lemma_initial_shares_bounds(base_amount, paired_amount);
    }
    root as u64
}

/// What `amount` on one side is worth in claim tokens, or `MathOverflow` when
/// the reserve is zero.
pub fn compute_proportional_shares(amount: u64, total_liquidity: u64, reserve: u64) -> (result:
    Result<u128, AmmError>)
    ensures
        reserve != 0 ==> result == Ok::<u128, AmmError>(
            proportional_shares(amount as int, total_liquidity as int, reserve as int) as u128,
        ),
        reserve != 0 ==> 0 <= proportional_shares(
            amount as int,
            total_liquidity as int,
            reserve as int,
        ) <= u128::MAX,
        reserve == 0 ==> result == Err::<u128, AmmError>(AmmError::MathOverflow),
{
    checked_div(wide_mul(amount, total_liquidity), reserve as u128)
}

/// What redeeming `lp_amount` pays from `reserve`, or `MathOverflow` when
/// nothing is outstanding or the payment does not fit in 64 bits.
pub fn compute_redeemed(lp_amount: u64, reserve: u64, total_liquidity: u64) -> (result: Result<
    u64,
    AmmError,
>)
    ensures
        total_liquidity != 0 && redeemed(
            lp_amount as int,
            reserve as int,
            total_liquidity as int,
        ) <= u64::MAX ==> result == Ok::<u64, AmmError>(
            redeemed(lp_amount as int, reserve as int, total_liquidity as int) as u64,
        ),
        total_liquidity == 0 || redeemed(
            lp_amount as int,
            reserve as int,
            total_liquidity as int,
        ) > u64::MAX ==> result == Err::<u64, AmmError>(AmmError::MathOverflow),
{
    match checked_div(wide_mul(lp_amount, reserve), total_liquidity as u128) {
        Ok(amount) => narrow(amount),
        Err(kind) => Err(kind),
    }
}

} // verus!
