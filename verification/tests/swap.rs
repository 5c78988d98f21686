use mojo_contract::swap;
use mojo_contract::Address;
use mojo_contract::AmmError;
use mojo_contract::Creator;
use mojo_contract::FeePolicy;
use mojo_contract::Pair;
use mojo_contract::PairMeta;
use mojo_contract::PlatformSecurity;
use mojo_contract::PlatformState;
use mojo_contract::PlatformStats;
use mojo_contract::Reserves;
use mojo_contract::Swap;
use mojo_contract::Transfer;
use mojo_contract::Vaults;

fn id(tag: u8) -> Address {
    Address::new([tag; 32])
}

fn trade(base: u64, paired: u64, fee_bps: u16) -> Swap {
    Swap {
        platform_state: PlatformState {
            base_token_mint: id(1),
            admin: id(2),
            fee_collector: id(3),
            dao_config: None,
            security: PlatformSecurity {
                is_paused: false,
                last_pause_time: 0,
                pause_count: 0,
            },
            stats: PlatformStats {
                pair_count: 1,
                total_volume: 0,
                total_fees: 0,
            },
            protocol_fee_bps: fee_bps,
            bump: 255,
            version: 1,
        },
        user: id(9),
        pair: Pair {
            meta: PairMeta {
                base_mint: id(1),
                paired_mint: id(4),
                proposed_fee_bps: 30,
            },
            reserves: Reserves { base, paired },
            vaults: Vaults {
                base: id(5),
                paired: id(6),
                lp_mint: id(7),
            },
            total_liquidity: 2000,
            last_swap_time: 1_700_000_000,
            created_by: Creator::Admin,
            created_at: 1_600_000_000,
            bump: 254,
        },
        now: 1_700_000_060,
        fee_policy: FeePolicy::InputSide,
        cooldown_seconds: None,
    }
}

#[test]
fn swap_without_fee_follows_the_curve() {
    let mut ctx = trade(1000, 4000, 0);
    let receipt = swap(&mut ctx, 100, 0, true).unwrap();
    assert_eq!(receipt.amount_out, 364);
    assert_eq!(receipt.protocol_fee, 0);
    assert_eq!(
        ctx.pair.reserves,
        Reserves {
            base: 1100,
            paired: 3636
        }
    );
    assert_eq!(ctx.pair.total_liquidity, 2000);
}

#[test]
fn swap_receipt_names_the_legs() {
    let mut ctx = trade(1000, 4000, 200);
    let receipt = ctx.swap(10_000, 0, true).unwrap();
    assert_eq!(
        receipt.deposit,
        Transfer {
            asset: id(1),
            from: id(9),
            to: id(5),
            amount: 10_000
        }
    );
    assert_eq!(
        receipt.payout,
        Transfer {
            asset: id(4),
            from: id(6),
            to: id(9),
            amount: receipt.amount_out
        }
    );
    assert_eq!(
        receipt.fee,
        Some(Transfer {
            asset: id(1),
            from: id(5),
            to: id(3),
            amount: 200
        })
    );
}

#[test]
fn swap_takes_the_protocol_fee_from_the_input() {
    let mut ctx = trade(1000, 4000, 200);
    let receipt = ctx.swap(10_000, 0, true).unwrap();
    assert_eq!(receipt.protocol_fee, 200);
    assert_eq!(receipt.liquidity_fee, 0);
    // 9800 reach the curve: 4_000_000 / 10_800 = 370
    assert_eq!(receipt.amount_out, 3630);
    assert_eq!(
        ctx.pair.reserves,
        Reserves {
            base: 10_800,
            paired: 370
        }
    );
    assert_eq!(ctx.platform_state.stats.total_volume, 10_000);
    assert_eq!(ctx.platform_state.stats.total_fees, 200);
}

#[test]
fn swap_of_the_paired_asset_runs_the_other_way() {
    let mut ctx = trade(1000, 4000, 100);
    let receipt = ctx.swap(400, 0, false).unwrap();
    assert_eq!(receipt.protocol_fee, 4);
    // 396 reach the curve: 4_000_000 / 4396 = 909
    assert_eq!(receipt.amount_out, 91);
    assert_eq!(
        ctx.pair.reserves,
        Reserves {
            base: 909,
            paired: 4396
        }
    );
    assert_eq!(
        receipt.deposit,
        Transfer {
            asset: id(4),
            from: id(9),
            to: id(6),
            amount: 400
        }
    );
    assert_eq!(
        receipt.payout,
        Transfer {
            asset: id(1),
            from: id(5),
            to: id(9),
            amount: 91
        }
    );
    assert_eq!(
        receipt.fee,
        Some(Transfer {
            asset: id(4),
            from: id(6),
            to: id(3),
            amount: 4
        })
    );
}

#[test]
fn swap_with_a_fee_that_rounds_to_nothing_has_no_fee_leg() {
    let mut ctx = trade(1000, 4000, 200);
    let receipt = ctx.swap(49, 0, true).unwrap();
    assert_eq!(receipt.protocol_fee, 0);
    assert_eq!(receipt.fee, None);
}

#[test]
fn swap_records_the_time_and_the_totals() {
    let mut ctx = trade(1000, 4000, 200);
    ctx.platform_state.stats.total_volume = 5;
    ctx.platform_state.stats.total_fees = 7;
    ctx.swap(10_000, 0, true).unwrap();
    assert_eq!(ctx.pair.last_swap_time, 1_700_000_060);
    assert_eq!(ctx.platform_state.stats.total_volume, 10_005);
    assert_eq!(ctx.platform_state.stats.total_fees, 207);
    assert_eq!(ctx.platform_state.stats.pair_count, 1);
}

#[test]
fn swap_while_paused_changes_nothing() {
    let mut ctx = trade(1000, 4000, 0);
    ctx.platform_state.security.is_paused = true;
    let before = ctx;
    assert_eq!(ctx.swap(100, 0, true), Err(AmmError::TradingPaused));
    assert_eq!(ctx, before);
}

#[test]
fn swap_below_the_minimum_changes_nothing() {
    let before = trade(1000, 4000, 0);
    let mut ctx = before;
    assert_eq!(ctx.swap(100, 365, true), Err(AmmError::SlippageExceeded));
    assert_eq!(ctx, before);
    assert_eq!(ctx.swap(100, 364, true).unwrap().amount_out, 364);
}

#[test]
fn swap_of_nothing_is_refused() {
    let before = trade(1000, 4000, 0);
    let mut ctx = before;
    assert_eq!(ctx.swap(0, 0, true), Err(AmmError::ZeroAmount));
    assert_eq!(ctx, before);
}

#[test]
fn swap_against_an_unfunded_pool_is_refused() {
    let mut ctx = trade(0, 0, 0);
    ctx.pair.total_liquidity = 0;
    let before = ctx;
    assert_eq!(ctx.swap(100, 0, true), Err(AmmError::InsufficientLiquidity));
    assert_eq!(ctx, before);
}

#[test]
fn swap_checks_are_made_in_order() {
    let mut ctx = trade(0, 0, 0);
    ctx.pair.total_liquidity = 0;
    ctx.platform_state.security.is_paused = true;
    assert_eq!(ctx.swap(0, 0, true), Err(AmmError::TradingPaused));
    ctx.platform_state.security.is_paused = false;
    assert_eq!(ctx.swap(0, 0, true), Err(AmmError::ZeroAmount));
    assert_eq!(ctx.swap(1, 0, true), Err(AmmError::InsufficientLiquidity));
}

#[test]
fn swap_within_the_cooldown_is_refused() {
    let mut ctx = trade(1000, 4000, 0);
    ctx.cooldown_seconds = Some(60);
    let before = ctx;
    assert_eq!(ctx.swap(100, 0, true), Err(AmmError::SwapCooldown));
    assert_eq!(ctx, before);
    ctx.now = 1_700_000_061;
    assert!(ctx.swap(100, 0, true).is_ok());
}

#[test]
fn swap_with_a_zero_cooldown_needs_time_to_have_passed() {
    let mut ctx = trade(1000, 4000, 0);
    ctx.cooldown_seconds = Some(0);
    ctx.now = ctx.pair.last_swap_time;
    assert_eq!(ctx.swap(100, 0, true), Err(AmmError::SwapCooldown));
    ctx.now = ctx.pair.last_swap_time + 1;
    assert!(ctx.swap(100, 0, true).is_ok());
}

#[test]
fn swap_without_a_cooldown_ignores_the_clock() {
    let mut ctx = trade(1000, 4000, 0);
    ctx.now = ctx.pair.last_swap_time;
    assert!(ctx.swap(100, 0, true).is_ok());
}

#[test]
fn swap_whose_elapsed_time_overflows_is_refused() {
    let mut ctx = trade(1000, 4000, 0);
    ctx.cooldown_seconds = Some(0);
    ctx.now = i64::MAX;
    ctx.pair.last_swap_time = -1;
    assert_eq!(ctx.swap(100, 0, true), Err(AmmError::MathOverflow));
}

#[test]
fn swap_with_a_fee_above_the_whole_is_an_overflow() {
    let before = trade(1000, 4000, 10_001);
    let mut ctx = before;
    assert_eq!(ctx.swap(10_000, 0, true), Err(AmmError::MathOverflow));
    assert_eq!(ctx, before);
}

#[test]
fn swap_that_overflows_the_input_reserve_is_refused() {
    let before = trade(u64::MAX - 5, 4000, 0);
    let mut ctx = before;
    assert_eq!(ctx.swap(6, 0, true), Err(AmmError::MathOverflow));
    assert_eq!(ctx, before);
}

#[test]
fn swap_that_overflows_the_volume_is_refused() {
    let mut ctx = trade(1000, 4000, 0);
    ctx.platform_state.stats.total_volume = u64::MAX - 99;
    let before = ctx;
    assert_eq!(ctx.swap(100, 0, true), Err(AmmError::MathOverflow));
    assert_eq!(ctx, before);
    assert!(ctx.swap(99, 0, true).is_ok());
}

#[test]
fn swap_product_falls_by_less_than_the_new_input_reserve() {
    let amounts: [u64; 6] = [1, 7, 100, 999, 1000, 12_345];
    for amount in amounts {
        for fee_bps in [0u16, 30, 200] {
            for is_base_input in [true, false] {
                let before = trade(1000, 4000, fee_bps);
                let mut ctx = before;
                ctx.swap(amount, 0, is_base_input).unwrap();
                let old_product =
                    before.pair.reserves.base as u128 * before.pair.reserves.paired as u128;
                let new_product = ctx.pair.reserves.base as u128 * ctx.pair.reserves.paired as u128;
                let new_in = ctx.pair.reserve_in(is_base_input) as u128;
                assert!(new_product <= old_product);
                assert!(new_product + new_in > old_product);
            }
        }
    }
}

#[test]
fn swap_keeps_the_product_where_the_division_is_exact() {
    let mut ctx = trade(1000, 4000, 0);
    ctx.swap(1000, 0, true).unwrap();
    assert_eq!(
        ctx.pair.reserves,
        Reserves {
            base: 2000,
            paired: 2000
        }
    );
}

#[test]
fn swap_lowers_the_product_where_the_division_is_not_exact() {
    let mut ctx = trade(1000, 4000, 0);
    ctx.swap(100, 0, true).unwrap();
    let product = ctx.pair.reserves.base as u128 * ctx.pair.reserves.paired as u128;
    assert_eq!(product, 3_999_600);
}

#[test]
fn swap_leaves_something_in_the_output_reserve_of_a_deep_pool() {
    let amounts: [u64; 5] = [1, 100, 10_000, 1_000_000, 3_999_000];
    for amount in amounts {
        let mut ctx = trade(1000, 4000, 0);
        let receipt = ctx.swap(amount, 0, true).unwrap();
        assert!(receipt.amount_out < 4000);
        assert!(ctx.pair.reserves.paired > 0);
    }
}

#[test]
fn swap_larger_than_the_product_drains_the_output_reserve() {
    let mut ctx = trade(1000, 4000, 0);
    let receipt = ctx.swap(4_000_000, 0, true).unwrap();
    assert_eq!(receipt.amount_out, 4000);
    assert_eq!(ctx.pair.reserves.paired, 0);
}

#[test]
fn reserve_sides_follow_the_direction() {
    let ctx = trade(1000, 4000, 0);
    assert_eq!(ctx.pair.reserve_in(true), 1000);
    assert_eq!(ctx.pair.reserve_out(true), 4000);
    assert_eq!(ctx.pair.reserve_in(false), 4000);
    assert_eq!(ctx.pair.reserve_out(false), 1000);
}

fn pool_fee_trade(base: u64, paired: u64, pool_bps: u16, protocol_bps: u16) -> Swap {
    let mut ctx = trade(base, paired, protocol_bps);
    ctx.fee_policy = FeePolicy::OutputSide;
    ctx.pair.meta.proposed_fee_bps = pool_bps;
    ctx
}

#[test]
fn swap_under_the_pool_fee_keeps_the_liquidity_fee_in_the_pool() {
    let mut ctx = pool_fee_trade(1_000_000, 4_000_000, 1000, 200);
    let receipt = ctx.swap(10_000, 0, true).unwrap();
    assert_eq!(receipt.protocol_fee, 20);
    assert_eq!(receipt.liquidity_fee, 980);
    assert_eq!(receipt.amount_out, 35_679);
    assert_eq!(
        ctx.pair.reserves,
        Reserves {
            base: 1_009_980,
            paired: 3_964_321
        }
    );
    assert_eq!(
        receipt.fee,
        Some(Transfer {
            asset: id(1),
            from: id(5),
            to: id(3),
            amount: 20
        })
    );
    assert_eq!(ctx.platform_state.stats.total_volume, 10_000);
    assert_eq!(ctx.platform_state.stats.total_fees, 20);
}

#[test]
fn swap_under_the_pool_fee_runs_the_other_way_too() {
    let mut ctx = pool_fee_trade(1_000_000, 4_000_000, 300, 200);
    let receipt = ctx.swap(50_000, 0, false).unwrap();
    assert_eq!(receipt.protocol_fee, 30);
    assert_eq!(receipt.liquidity_fee, 1470);
    assert_eq!(receipt.amount_out, 11_980);
    assert_eq!(
        ctx.pair.reserves,
        Reserves {
            base: 988_020,
            paired: 4_049_970
        }
    );
}

#[test]
fn swap_under_the_pool_fee_raises_the_product_of_a_deep_pool() {
    let before = pool_fee_trade(1_000_000, 4_000_000, 30, 200);
    let mut ctx = before;
    let receipt = ctx.swap(10_000, 0, true).unwrap();
    assert_eq!(receipt.protocol_fee, 0);
    assert_eq!(receipt.liquidity_fee, 30);
    assert_eq!(receipt.fee, None);
    assert_eq!(receipt.amount_out, 39_487);
    let product = ctx.pair.reserves.base as u128 * ctx.pair.reserves.paired as u128;
    assert_eq!(product, 4_000_118_130_000);
}

#[test]
fn swap_under_the_pool_fee_can_still_lower_the_product_of_a_shallow_pool() {
    let mut ctx = pool_fee_trade(1000, 4000, 30, 200);
    let receipt = ctx.swap(100_000, 0, true).unwrap();
    assert_eq!(receipt.protocol_fee, 6);
    assert_eq!(receipt.liquidity_fee, 294);
    assert_eq!(receipt.amount_out, 3961);
    assert_eq!(
        ctx.pair.reserves,
        Reserves {
            base: 100_994,
            paired: 39
        }
    );
}

#[test]
fn swap_under_the_pool_fee_with_no_fee_follows_the_curve() {
    let mut ctx = pool_fee_trade(1000, 4000, 0, 0);
    let receipt = ctx.swap(100, 0, true).unwrap();
    assert_eq!(receipt.amount_out, 364);
    assert_eq!(
        ctx.pair.reserves,
        Reserves {
            base: 1100,
            paired: 3636
        }
    );
}

#[test]
fn swap_under_the_pool_fee_with_a_rate_above_the_whole_is_an_overflow() {
    let before = pool_fee_trade(1000, 4000, 10_001, 200);
    let mut ctx = before;
    assert_eq!(ctx.swap(10_000, 0, true), Err(AmmError::MathOverflow));
    assert_eq!(ctx, before);
}

#[test]
fn swap_receipt_carries_the_authority_of_its_pool() {
    let mut ctx = trade(1000, 4000, 0);
    let authority = ctx.pair.authority();
    let receipt = ctx.swap(100, 0, true).unwrap();
    assert_eq!(receipt.authority, authority);
    assert_eq!(receipt.authority, ctx.pair.authority());
}
