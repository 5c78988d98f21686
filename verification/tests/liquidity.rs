use mojo_contract::add_liquidity;
use mojo_contract::create_pair;
use mojo_contract::remove_liquidity;
use mojo_contract::AddLiquidity;
use mojo_contract::Address;
use mojo_contract::AmmError;
use mojo_contract::Burn;
use mojo_contract::CreatePair;
use mojo_contract::Creator;
use mojo_contract::MintTo;
use mojo_contract::Pair;
use mojo_contract::PairMeta;
use mojo_contract::PlatformSecurity;
use mojo_contract::PlatformState;
use mojo_contract::PlatformStats;
use mojo_contract::RemoveLiquidity;
use mojo_contract::Reserves;
use mojo_contract::Transfer;
use mojo_contract::Vaults;

fn key(tag: u8) -> Address {
    Address::new([tag; 32])
}

fn platform() -> PlatformState {
    PlatformState {
        base_token_mint: key(1),
        admin: key(2),
        fee_collector: key(3),
        dao_config: None,
        security: PlatformSecurity {
            is_paused: false,
            last_pause_time: 0,
            pause_count: 0,
        },
        stats: PlatformStats {
            pair_count: 0,
            total_volume: 0,
            total_fees: 0,
        },
        protocol_fee_bps: 0,
        bump: 255,
        version: 1,
    }
}

fn pool(base: u64, paired: u64, total_liquidity: u64) -> Pair {
    Pair {
        meta: PairMeta {
            base_mint: key(1),
            paired_mint: key(4),
            proposed_fee_bps: 30,
        },
        reserves: Reserves { base, paired },
        vaults: Vaults {
            base: key(5),
            paired: key(6),
            lp_mint: key(7),
        },
        total_liquidity,
        last_swap_time: 0,
        created_by: Creator::Admin,
        created_at: 1_700_000_000,
        bump: 254,
    }
}

fn deposit_into(pair: Pair) -> AddLiquidity {
    AddLiquidity {
        platform_state: platform(),
        user: key(9),
        pair,
    }
}

fn withdraw_from(pair: Pair) -> RemoveLiquidity {
    RemoveLiquidity {
        platform_state: platform(),
        user: key(9),
        pair,
    }
}

#[test]
fn first_deposit_mints_the_geometric_mean() {
    let mut creation = CreatePair {
        creator: key(2),
        platform: platform(),
        base_token_mint: key(1),
        paired_token_mint: key(4),
        lp_mint: key(7),
        base_vault: key(5),
        paired_vault: key(6),
        proposed_fee_bps: 30,
        proposal: None,
        now: 1_700_000_000,
    };
    let pair = create_pair(&mut creation, 254).unwrap();
    assert_eq!(pair.reserves, Reserves { base: 0, paired: 0 });
    assert_eq!(pair.total_liquidity, 0);

    let mut ctx = deposit_into(pair);
    let receipt = add_liquidity(&mut ctx, 1000, 4000).unwrap();
    assert_eq!(receipt.minted_lp, 2000);
    assert_eq!(
        ctx.pair.reserves,
        Reserves {
            base: 1000,
            paired: 4000
        }
    );
    assert_eq!(ctx.pair.total_liquidity, 2000);
}

#[test]
fn deposit_receipt_names_the_legs() {
    let mut ctx = deposit_into(pool(0, 0, 0));
    let receipt = ctx.add_liquidity(1000, 4000).unwrap();
    assert_eq!(
        receipt.base_deposit,
        Transfer {
            asset: key(1),
            from: key(9),
            to: key(5),
            amount: 1000
        }
    );
    assert_eq!(
        receipt.paired_deposit,
        Transfer {
            asset: key(4),
            from: key(9),
            to: key(6),
            amount: 4000
        }
    );
    assert_eq!(
        receipt.lp_mint,
        MintTo {
            asset: key(7),
            to: key(9),
            amount: 2000
        }
    );
}

#[test]
fn later_deposit_mints_the_smaller_share() {
    let mut ctx = deposit_into(pool(1000, 4000, 2000));
    let receipt = ctx.add_liquidity(100, 1000).unwrap();
    assert_eq!(receipt.minted_lp, 200);
    assert_eq!(
        ctx.pair.reserves,
        Reserves {
            base: 1100,
            paired: 5000
        }
    );
    assert_eq!(ctx.pair.total_liquidity, 2200);

    let mut other = deposit_into(pool(1000, 4000, 2000));
    let receipt = other.add_liquidity(500, 400).unwrap();
    assert_eq!(receipt.minted_lp, 200);
}

#[test]
fn deposit_at_the_pool_ratio_mints_in_proportion() {
    let mut ctx = deposit_into(pool(1000, 4000, 2000));
    let receipt = ctx.add_liquidity(250, 1000).unwrap();
    assert_eq!(receipt.minted_lp, 500);
}

#[test]
fn deposit_worth_no_claim_token_is_refused() {
    let before = deposit_into(pool(1000, 4000, 2000));
    let mut ctx = before;
    assert_eq!(
        ctx.add_liquidity(1000, 1),
        Err(AmmError::InsufficientLiquidityMinted)
    );
    assert_eq!(ctx, before);
}

#[test]
fn deposit_of_nothing_is_refused() {
    let mut funded = deposit_into(pool(1000, 4000, 2000));
    assert_eq!(
        funded.add_liquidity(0, 0),
        Err(AmmError::InsufficientLiquidityMinted)
    );
    assert_eq!(
        funded.add_liquidity(0, 1000),
        Err(AmmError::InsufficientLiquidityMinted)
    );
    let mut empty = deposit_into(pool(0, 0, 0));
    assert_eq!(
        empty.add_liquidity(0, 4000),
        Err(AmmError::InsufficientLiquidityMinted)
    );
    assert_eq!(
        empty.add_liquidity(1000, 0),
        Err(AmmError::InsufficientLiquidityMinted)
    );
}

#[test]
fn positive_first_deposit_always_mints() {
    let mut ctx = deposit_into(pool(0, 0, 0));
    let receipt = ctx.add_liquidity(1, 1).unwrap();
    assert_eq!(receipt.minted_lp, 1);
}

#[test]
fn deposit_while_paused_is_refused() {
    let mut ctx = deposit_into(pool(1000, 4000, 2000));
    ctx.platform_state.security.is_paused = true;
    let before = ctx;
    assert_eq!(ctx.add_liquidity(100, 400), Err(AmmError::TradingPaused));
    assert_eq!(ctx, before);
}

#[test]
fn deposit_that_overflows_a_reserve_is_refused() {
    let before = deposit_into(pool(u64::MAX - 10, 4000, 2000));
    let mut ctx = before;
    assert_eq!(
        ctx.add_liquidity(u64::MAX - 10, 4000),
        Err(AmmError::MathOverflow)
    );
    assert_eq!(ctx, before);
}

#[test]
fn deposit_into_a_pool_with_a_missing_reserve_is_refused() {
    let mut ctx = deposit_into(pool(0, 4000, 2000));
    assert_eq!(ctx.add_liquidity(100, 400), Err(AmmError::MathOverflow));
}

#[test]
fn withdrawal_pays_the_pro_rata_share() {
    let mut ctx = withdraw_from(pool(1000, 4000, 2000));
    let receipt = remove_liquidity(&mut ctx, 500, 0, 0).unwrap();
    assert_eq!(receipt.base_amount, 250);
    assert_eq!(receipt.paired_amount, 1000);
    assert_eq!(
        ctx.pair.reserves,
        Reserves {
            base: 750,
            paired: 3000
        }
    );
    assert_eq!(ctx.pair.total_liquidity, 1500);
    assert_eq!(
        receipt.lp_burn,
        Burn {
            asset: key(7),
            from: key(9),
            amount: 500
        }
    );
    assert_eq!(
        receipt.base_payout,
        Transfer {
            asset: key(1),
            from: key(5),
            to: key(9),
            amount: 250
        }
    );
    assert_eq!(
        receipt.paired_payout,
        Transfer {
            asset: key(4),
            from: key(6),
            to: key(9),
            amount: 1000
        }
    );
}

#[test]
fn withdrawal_rounds_down() {
    let mut ctx = withdraw_from(pool(1000, 4001, 3));
    let receipt = ctx.remove_liquidity(1, 0, 0).unwrap();
    assert_eq!(receipt.base_amount, 333);
    assert_eq!(receipt.paired_amount, 1333);
    assert_eq!(
        ctx.pair.reserves,
        Reserves {
            base: 667,
            paired: 2668
        }
    );
    assert_eq!(ctx.pair.total_liquidity, 2);
}

#[test]
fn withdrawal_of_everything_empties_the_pool() {
    let mut ctx = withdraw_from(pool(1000, 4000, 2000));
    let receipt = ctx.remove_liquidity(2000, 1000, 4000).unwrap();
    assert_eq!(receipt.base_amount, 1000);
    assert_eq!(receipt.paired_amount, 4000);
    assert!(ctx.pair.is_empty());
}

#[test]
fn withdrawal_of_nothing_is_refused() {
    let before = withdraw_from(pool(1000, 4000, 2000));
    let mut ctx = before;
    assert_eq!(ctx.remove_liquidity(0, 0, 0), Err(AmmError::InvalidAmount));
    assert_eq!(ctx, before);
}

#[test]
fn withdrawal_of_more_than_outstanding_is_refused() {
    let before = withdraw_from(pool(1000, 4000, 2000));
    let mut ctx = before;
    assert_eq!(
        ctx.remove_liquidity(2001, 0, 0),
        Err(AmmError::MathOverflow)
    );
    assert_eq!(ctx, before);
    let mut empty = withdraw_from(pool(0, 0, 0));
    assert_eq!(empty.remove_liquidity(1, 0, 0), Err(AmmError::MathOverflow));
}

#[test]
fn withdrawal_below_either_minimum_is_refused() {
    let before = withdraw_from(pool(1000, 4000, 2000));
    let mut ctx = before;
    assert_eq!(
        ctx.remove_liquidity(500, 251, 0),
        Err(AmmError::SlippageExceeded)
    );
    assert_eq!(
        ctx.remove_liquidity(500, 0, 1001),
        Err(AmmError::SlippageExceeded)
    );
    assert_eq!(ctx, before);
    assert!(ctx.remove_liquidity(500, 250, 1000).is_ok());
}

#[test]
fn withdrawal_while_paused_is_refused() {
    let mut ctx = withdraw_from(pool(1000, 4000, 2000));
    ctx.platform_state.security.is_paused = true;
    let before = ctx;
    assert_eq!(
        ctx.remove_liquidity(500, 0, 0),
        Err(AmmError::TradingPaused)
    );
    assert_eq!(ctx, before);
}

#[test]
fn deposit_then_full_withdrawal_returns_no_more_than_deposited() {
    let cases: [(u64, u64, u64, u64, u64); 5] = [
        (0, 0, 0, 1000, 4000),
        (1000, 4000, 2000, 100, 1000),
        (1000, 4000, 2000, 500, 400),
        (7, 13, 9, 5, 11),
        (999_983, 1_000_003, 31_337, 12_345, 67_891),
    ];
    for (base, paired, total, b, p) in cases {
        let mut deposit = deposit_into(pool(base, paired, total));
        let minted = deposit.add_liquidity(b, p).unwrap().minted_lp;
        let mut withdrawal = withdraw_from(deposit.pair);
        let receipt = withdrawal.remove_liquidity(minted, 0, 0).unwrap();
        assert!(receipt.base_amount <= b);
        assert!(receipt.paired_amount <= p);
    }
}

#[test]
fn first_deposit_then_full_withdrawal_returns_exactly_what_was_deposited() {
    let mut deposit = deposit_into(pool(0, 0, 0));
    let minted = deposit.add_liquidity(1000, 4000).unwrap().minted_lp;
    let mut withdrawal = withdraw_from(deposit.pair);
    let receipt = withdrawal.remove_liquidity(minted, 0, 0).unwrap();
    assert_eq!(receipt.base_amount, 1000);
    assert_eq!(receipt.paired_amount, 4000);
}

#[test]
fn create_pair_counts_the_pool_and_records_its_provenance() {
    let mut creation = CreatePair {
        creator: key(8),
        platform: platform(),
        base_token_mint: key(1),
        paired_token_mint: key(4),
        lp_mint: key(7),
        base_vault: key(5),
        paired_vault: key(6),
        proposed_fee_bps: 1000,
        proposal: Some(key(11)),
        now: 1_700_000_123,
    };
    let pair = creation.create_pair(9).unwrap();
    assert_eq!(pair.created_by, Creator::DaoProposal(key(11)));
    assert_eq!(pair.created_at, 1_700_000_123);
    assert_eq!(pair.bump, 9);
    assert_eq!(pair.meta.base_mint, key(1));
    assert_eq!(pair.meta.paired_mint, key(4));
    assert_eq!(pair.meta.proposed_fee_bps, 1000);
    assert_eq!(pair.vaults.lp_mint, key(7));
    assert_eq!(pair.last_swap_time, 0);
    assert_eq!(creation.platform.stats.pair_count, 1);
}

#[test]
fn create_pair_with_another_base_asset_is_refused() {
    let mut creation = CreatePair {
        creator: key(8),
        platform: platform(),
        base_token_mint: key(12),
        paired_token_mint: key(4),
        lp_mint: key(7),
        base_vault: key(5),
        paired_vault: key(6),
        proposed_fee_bps: 30,
        proposal: None,
        now: 0,
    };
    let before = creation;
    assert_eq!(creation.create_pair(9), Err(AmmError::InvalidBaseToken));
    assert_eq!(creation, before);
}

#[test]
fn create_pair_with_a_fee_above_the_cap_is_refused() {
    let mut creation = CreatePair {
        creator: key(8),
        platform: platform(),
        base_token_mint: key(1),
        paired_token_mint: key(4),
        lp_mint: key(7),
        base_vault: key(5),
        paired_vault: key(6),
        proposed_fee_bps: 1001,
        proposal: None,
        now: 0,
    };
    assert_eq!(creation.create_pair(9), Err(AmmError::FeeTooHigh));
    assert_eq!(creation.platform.stats.pair_count, 0);
}

#[test]
fn create_pair_when_the_count_is_full_is_refused() {
    let mut full = platform();
    full.stats.pair_count = u64::MAX;
    let mut creation = CreatePair {
        creator: key(8),
        platform: full,
        base_token_mint: key(1),
        paired_token_mint: key(4),
        lp_mint: key(7),
        base_vault: key(5),
        paired_vault: key(6),
        proposed_fee_bps: 30,
        proposal: None,
        now: 0,
    };
    assert_eq!(creation.create_pair(9), Err(AmmError::MathOverflow));
}

#[test]
fn receipts_carry_the_authority_of_their_pool() {
    let pair = pool(1000, 4000, 2000);
    let authority = pair.authority();
    assert_eq!(authority.base_mint(), key(1));
    assert_eq!(authority.paired_mint(), key(4));
    assert_eq!(authority.bump(), 254);

    let mut deposit = deposit_into(pair);
    assert_eq!(deposit.add_liquidity(100, 400).unwrap().authority, authority);
    let mut withdrawal = withdraw_from(pair);
    assert_eq!(
        withdrawal.remove_liquidity(10, 0, 0).unwrap().authority,
        authority
    );

    let mut other = pool(1000, 4000, 2000);
    other.meta.paired_mint = key(40);
    assert_ne!(other.authority(), authority);
}
