//! An automated market-making liquidity-pool engine.
//!
//! A pool holds reserves of two assets, the platform's base asset and a
//! paired asset, and issues claim tokens for shares of them. Swaps are priced
//! on a constant-product curve after a protocol fee has been taken from the
//! input. The platform record names the admin, carries the protocol fee rate
//! and the pause flag, and keeps running totals.
//!
//! The engine keeps the books and decides; it moves no balances. Each
//! operation takes the records it works on, and on success returns the
//! movements of value that the caller has to settle on the ledger. An
//! operation that is refused returns the kind of the refusal and changes
//! nothing.
//!
//! The functions of this module are the operations surface. Each hands on to
//! the method of the same name on its set of records.
use vstd::prelude::*;

pub mod curve;
pub mod error;
pub mod instructions;
pub mod ledger;
pub mod math;
pub mod shares;
pub mod state;

pub use crate::curve::FeePolicy;
pub use crate::curve::FeeSplit;
pub use crate::error::AmmError;
pub use crate::instructions::add_liquidity::AddLiquidity;
pub use crate::instructions::add_liquidity::DepositReceipt;
pub use crate::instructions::create_pair::CreatePair;
pub use crate::instructions::initialize_platform::InitializePlatform;
pub use crate::instructions::pause_platform::PausePlatform;
pub use crate::instructions::remove_liquidity::RemoveLiquidity;
pub use crate::instructions::remove_liquidity::WithdrawReceipt;
pub use crate::instructions::resume_platform::ResumePlatform;
pub use crate::instructions::swap::Swap;
pub use crate::instructions::swap::SwapReceipt;
pub use crate::instructions::update_fee_rate::UpdateFeeRate;
pub use crate::instructions::withdraw_platform_fees::WithdrawPlatformFees;
pub use crate::ledger::Burn;
pub use crate::ledger::MintTo;
pub use crate::ledger::Transfer;
pub use crate::math::integer_sqrt;
pub use crate::state::address::Address;
pub use crate::state::address::TokenAccount;
pub use crate::state::pair::Creator;
pub use crate::state::pair::Pair;
pub use crate::state::pair::PairAuthority;
pub use crate::state::pair::Reserves;
pub use crate::state::pair::Vaults;
pub use crate::state::platform::DaoConfig;
pub use crate::state::platform::DaoConfigInfo;
pub use crate::state::platform::DaoParams;
pub use crate::state::platform::PlatformInitialized;
pub use crate::state::platform::PlatformPauseChanged;
pub use crate::state::platform::PlatformSecurity;
pub use crate::state::platform::PlatformState;
pub use crate::state::platform::PlatformStats;
pub use crate::state::proposal::ExecContext;
pub use crate::state::proposal::PairMeta;
pub use crate::state::proposal::Proposal;
pub use crate::state::proposal::ProposalState;
pub use crate::state::proposal::VoteTally;

verus! {

/// Swaps `input_amount` of one asset of the pool for the other.
pub fn swap(ctx: &mut Swap, input_amount: u64, min_output_amount: u64, is_base_input: bool) -> (result:
    Result<SwapReceipt, AmmError>)
    ensures
        match result {
            Ok(receipt) => {
                &&& old(ctx).refusal(input_amount, min_output_amount, is_base_input) is None
                &&& receipt == old(ctx).receipt(input_amount, is_base_input)
                &&& *final(ctx) == old(ctx).settled(input_amount, is_base_input)
            },
            Err(kind) => {
                &&& old(ctx).refusal(input_amount, min_output_amount, is_base_input) == Some(kind)
                &&& *final(ctx) == *old(ctx)
            },
        },
{
    ctx.swap(input_amount, min_output_amount, is_base_input)
}

/// Creates the platform record.
pub fn initialize_platform(ctx: &InitializePlatform, platform_fee_bps: u16, bump: u8) -> (result:
    Result<(PlatformState, PlatformInitialized), AmmError>)
    ensures
        ctx.fee_collector.mint == ctx.base_token_mint ==> result == Ok::<
            (PlatformState, PlatformInitialized),
            AmmError,
        >(
            (
                ctx.created(platform_fee_bps, bump),
                PlatformInitialized {
                    timestamp: ctx.now,
                    admin: ctx.admin,
                    base_token: ctx.base_token_mint,
                },
            ),
        ),
        ctx.fee_collector.mint != ctx.base_token_mint ==> result == Err::<
            (PlatformState, PlatformInitialized),
            AmmError,
        >(AmmError::InvalidFeeCollectorMint),
{
    ctx.initialize_platform(platform_fee_bps, bump)
}

/// Sets the pause flag to `pause`.
pub fn pause_platform(ctx: &mut PausePlatform, pause: bool) -> (result: Result<
    PlatformPauseChanged,
    AmmError,
>)
    ensures
        match result {
            Ok(event) => {
                &&& old(ctx).refusal(pause) is None
                &&& event == (PlatformPauseChanged {
                    admin: old(ctx).admin,
                    paused: pause,
                    timestamp: old(ctx).now,
                })
                &&& *final(ctx) == old(ctx).settled(pause)
            },
            Err(kind) => {
                &&& old(ctx).refusal(pause) == Some(kind)
                &&& *final(ctx) == *old(ctx)
            },
        },
{
    ctx.pause_platform(pause)
}

/// Creates an empty pool.
pub fn create_pair(ctx: &mut CreatePair, bump: u8) -> (result: Result<Pair, AmmError>)
    ensures
        match result {
            Ok(pair) => {
                &&& old(ctx).refusal() is None
                &&& pair == old(ctx).created(bump)
                &&& *final(ctx) == old(ctx).settled()
            },
            Err(kind) => {
                &&& old(ctx).refusal() == Some(kind)
                &&& *final(ctx) == *old(ctx)
            },
        },
{
    ctx.create_pair(bump)
}

/// Deposits into a pool and mints claim tokens.
pub fn add_liquidity(ctx: &mut AddLiquidity, base_amount: u64, paired_amount: u64) -> (result:
    Result<DepositReceipt, AmmError>)
    ensures
        match result {
            Ok(receipt) => {
                &&& old(ctx).refusal(base_amount, paired_amount) is None
                &&& receipt == old(ctx).receipt(base_amount, paired_amount)
                &&& *final(ctx) == old(ctx).settled(base_amount, paired_amount)
            },
            Err(kind) => {
                &&& old(ctx).refusal(base_amount, paired_amount) == Some(kind)
                &&& *final(ctx) == *old(ctx)
            },
        },
{
    ctx.add_liquidity(base_amount, paired_amount)
}

/// Burns claim tokens and pays out their share of a pool.
pub fn remove_liquidity(ctx: &mut RemoveLiquidity, lp_amount: u64, min_base: u64, min_paired: u64)
    -> (result: Result<WithdrawReceipt, AmmError>)
    ensures
        match result {
            Ok(receipt) => {
                &&& old(ctx).refusal(lp_amount, min_base, min_paired) is None
                &&& receipt == old(ctx).receipt(lp_amount)
                &&& *final(ctx) == old(ctx).settled(lp_amount)
            },
            Err(kind) => {
                &&& old(ctx).refusal(lp_amount, min_base, min_paired) == Some(kind)
                &&& *final(ctx) == *old(ctx)
            },
        },
{
    ctx.remove_liquidity(lp_amount, min_base, min_paired)
}

/// Clears the pause flag.
pub fn resume_plaform(ctx: &mut ResumePlatform) -> (result: Result<(), AmmError>)
    ensures
        match result {
            Ok(_) => {
                &&& old(ctx).refusal() is None
                &&& *final(ctx) == old(ctx).settled()
            },
            Err(kind) => {
                &&& old(ctx).refusal() == Some(kind)
                &&& *final(ctx) == *old(ctx)
            },
        },
{
    ctx.resume_platform()
}

/// Sets the protocol fee rate.
pub fn update_fee_rate(ctx: &mut UpdateFeeRate, new_fee_rate: u16) -> (result: Result<
    (),
    AmmError,
>)
    ensures
        match result {
            Ok(_) => {
                &&& old(ctx).refusal(new_fee_rate) is None
                &&& *final(ctx) == old(ctx).settled(new_fee_rate)
            },
            Err(kind) => {
                &&& old(ctx).refusal(new_fee_rate) == Some(kind)
                &&& *final(ctx) == *old(ctx)
            },
        },
{
    ctx.update_fee_rate(new_fee_rate)
}

/// Asks for collected protocol fees to be paid out.
pub fn withdraw_platform_fees(ctx: &mut WithdrawPlatformFees, amount: u64) -> (result: Result<
    Transfer,
    AmmError,
>)
    ensures
        *final(ctx) == *old(ctx),
        match result {
            Ok(transfer) => {
                &&& old(ctx).refusal(amount) is None
                &&& transfer == (Transfer {
                    asset: old(ctx).protocol_fee_vault.mint,
                    from: old(ctx).protocol_fee_vault.key,
                    to: old(ctx).fee_destination.key,
                    amount,
                })
            },
            Err(kind) => old(ctx).refusal(amount) == Some(kind),
        },
{
    ctx.withdraw_fees(amount)
}

} // verus!
