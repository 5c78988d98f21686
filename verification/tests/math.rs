use mojo_contract::curve::compute_amount_out;
use mojo_contract::curve::compute_bps_share;
use mojo_contract::curve::compute_fee_split;
use mojo_contract::math::checked_add;
use mojo_contract::math::checked_div;
use mojo_contract::math::checked_sub;
use mojo_contract::math::integer_sqrt;
use mojo_contract::math::narrow;
use mojo_contract::math::wide_mul;
use mojo_contract::shares::compute_initial_shares;
use mojo_contract::shares::compute_proportional_shares;
use mojo_contract::shares::compute_redeemed;
use mojo_contract::AmmError;
use mojo_contract::FeePolicy;
use mojo_contract::FeeSplit;

#[test]
fn integer_sqrt_of_small_values() {
    assert_eq!(integer_sqrt(0), 0);
    assert_eq!(integer_sqrt(1), 1);
    assert_eq!(integer_sqrt(2), 1);
    assert_eq!(integer_sqrt(3), 1);
    assert_eq!(integer_sqrt(4), 2);
    assert_eq!(integer_sqrt(8), 2);
    assert_eq!(integer_sqrt(9), 3);
}

#[test]
fn integer_sqrt_around_one_hundred() {
    assert_eq!(integer_sqrt(99), 9);
    assert_eq!(integer_sqrt(100), 10);
    assert_eq!(integer_sqrt(101), 10);
    assert_eq!(integer_sqrt(120), 10);
    assert_eq!(integer_sqrt(121), 11);
}

#[test]
fn integer_sqrt_brackets_its_argument() {
    let mut value: u128 = 0;
    while value < 5000 {
        let root = integer_sqrt(value);
        assert!(root * root <= value);
        assert!(value < (root + 1) * (root + 1));
        value += 1;
    }
}

#[test]
fn integer_sqrt_of_large_values() {
    assert_eq!(integer_sqrt(4_000_000), 2000);
    assert_eq!(integer_sqrt(1u128 << 64), 1u128 << 32);
    assert_eq!(integer_sqrt((1u128 << 64) - 1), (1u128 << 32) - 1);
    assert_eq!(integer_sqrt(u128::MAX), (1u128 << 64) - 1);
    let top = u64::MAX as u128;
    assert_eq!(integer_sqrt(top * top), top);
    assert_eq!(integer_sqrt(top * top - 1), top - 1);
}

#[test]
fn wide_mul_does_not_wrap() {
    assert_eq!(wide_mul(0, u64::MAX), 0);
    assert_eq!(wide_mul(3, 7), 21);
    assert_eq!(
        wide_mul(u64::MAX, u64::MAX),
        340282366920938463426481119284349108225u128
    );
}

#[test]
fn checked_add_reports_overflow() {
    assert_eq!(checked_add(1, 2), Ok(3));
    assert_eq!(checked_add(u64::MAX, 0), Ok(u64::MAX));
    assert_eq!(checked_add(u64::MAX, 1), Err(AmmError::MathOverflow));
}

#[test]
fn checked_sub_reports_underflow() {
    assert_eq!(checked_sub(5, 2), Ok(3));
    assert_eq!(checked_sub(5, 5), Ok(0));
    assert_eq!(checked_sub(5, 6), Err(AmmError::MathOverflow));
}

#[test]
fn checked_div_reports_division_by_zero() {
    assert_eq!(checked_div(7, 2), Ok(3));
    assert_eq!(checked_div(0, 9), Ok(0));
    assert_eq!(checked_div(7, 0), Err(AmmError::MathOverflow));
}

#[test]
fn narrow_reports_values_that_do_not_fit() {
    assert_eq!(narrow(0), Ok(0));
    assert_eq!(narrow(u64::MAX as u128), Ok(u64::MAX));
    assert_eq!(narrow(u64::MAX as u128 + 1), Err(AmmError::MathOverflow));
}

#[test]
fn bps_share_is_rounded_down() {
    assert_eq!(compute_bps_share(10_000, 200), Ok(200));
    assert_eq!(compute_bps_share(9_999, 200), Ok(199));
    assert_eq!(compute_bps_share(49, 200), Ok(0));
    assert_eq!(compute_bps_share(50, 200), Ok(1));
    assert_eq!(compute_bps_share(12_345, 0), Ok(0));
    assert_eq!(compute_bps_share(u64::MAX, 10_000), Ok(u64::MAX));
}

#[test]
fn bps_share_that_does_not_fit_is_an_overflow() {
    assert_eq!(
        compute_bps_share(u64::MAX, 20_000),
        Err(AmmError::MathOverflow)
    );
}

#[test]
fn input_side_fee_is_all_protocol() {
    assert_eq!(
        compute_fee_split(FeePolicy::InputSide, 10_000, 30, 200),
        Ok(FeeSplit {
            protocol_fee: 200,
            liquidity_fee: 0
        })
    );
    assert_eq!(
        compute_fee_split(FeePolicy::InputSide, 10_000, 30, 0),
        Ok(FeeSplit {
            protocol_fee: 0,
            liquidity_fee: 0
        })
    );
    assert_eq!(
        compute_fee_split(FeePolicy::InputSide, 10_000, 65_535, 10_000),
        Ok(FeeSplit {
            protocol_fee: 10_000,
            liquidity_fee: 0
        })
    );
}

#[test]
fn output_side_fee_is_split() {
    assert_eq!(
        compute_fee_split(FeePolicy::OutputSide, 100_000, 30, 200),
        Ok(FeeSplit {
            protocol_fee: 6,
            liquidity_fee: 294
        })
    );
    assert_eq!(
        compute_fee_split(FeePolicy::OutputSide, 10_000, 30, 200),
        Ok(FeeSplit {
            protocol_fee: 0,
            liquidity_fee: 30
        })
    );
    assert_eq!(
        compute_fee_split(FeePolicy::OutputSide, 10_000, 1000, 10_000),
        Ok(FeeSplit {
            protocol_fee: 1000,
            liquidity_fee: 0
        })
    );
    assert_eq!(
        compute_fee_split(FeePolicy::OutputSide, 10_000, 0, 200),
        Ok(FeeSplit {
            protocol_fee: 0,
            liquidity_fee: 0
        })
    );
}

#[test]
fn fee_above_the_whole_is_an_overflow() {
    assert_eq!(
        compute_fee_split(FeePolicy::InputSide, 10_000, 30, 10_001),
        Err(AmmError::MathOverflow)
    );
    assert_eq!(
        compute_fee_split(FeePolicy::OutputSide, 10_000, 10_001, 200),
        Err(AmmError::MathOverflow)
    );
    assert_eq!(
        compute_fee_split(FeePolicy::OutputSide, 10_000, 30, 10_400),
        Err(AmmError::MathOverflow)
    );
    assert_eq!(
        compute_fee_split(FeePolicy::InputSide, u64::MAX, 30, 65_535),
        Err(AmmError::MathOverflow)
    );
}

#[test]
fn curve_pays_the_difference_of_the_output_reserve() {
    assert_eq!(compute_amount_out(1000, 4000, 100), Ok(364));
    assert_eq!(compute_amount_out(4000, 1000, 400), Ok(91));
    assert_eq!(compute_amount_out(1000, 4000, 0), Ok(0));
    assert_eq!(compute_amount_out(1000, 4000, 1000), Ok(2000));
}

#[test]
fn curve_with_an_empty_input_side_is_an_overflow() {
    assert_eq!(compute_amount_out(0, 4000, 0), Err(AmmError::MathOverflow));
    assert_eq!(compute_amount_out(0, 4000, 5), Ok(4000));
}

#[test]
fn curve_can_drain_a_small_pool() {
    assert_eq!(compute_amount_out(1, 10, 100), Ok(10));
    assert_eq!(compute_amount_out(1000, 4000, 4_000_000), Ok(4000));
    assert_eq!(compute_amount_out(1000, 4000, 3_999_000), Ok(3999));
}

#[test]
fn initial_shares_are_the_geometric_mean() {
    assert_eq!(compute_initial_shares(1000, 4000), 2000);
    assert_eq!(compute_initial_shares(1, 1), 1);
    assert_eq!(compute_initial_shares(2, 3), 2);
    assert_eq!(compute_initial_shares(0, 4000), 0);
    assert_eq!(compute_initial_shares(u64::MAX, u64::MAX), u64::MAX);
}

#[test]
fn proportional_shares_are_rounded_down() {
    assert_eq!(compute_proportional_shares(500, 2000, 1000), Ok(1000));
    assert_eq!(compute_proportional_shares(1, 2000, 4000), Ok(0));
    assert_eq!(compute_proportional_shares(3, 2000, 4000), Ok(1));
    assert_eq!(
        compute_proportional_shares(5, 2000, 0),
        Err(AmmError::MathOverflow)
    );
}

#[test]
fn redeemed_amounts_are_rounded_down() {
    assert_eq!(compute_redeemed(500, 1000, 2000), Ok(250));
    assert_eq!(compute_redeemed(1, 1000, 3), Ok(333));
    assert_eq!(compute_redeemed(3, 1000, 3), Ok(1000));
    assert_eq!(compute_redeemed(1, 1000, 0), Err(AmmError::MathOverflow));
    assert_eq!(
        compute_redeemed(u64::MAX, u64::MAX, 1),
        Err(AmmError::MathOverflow)
    );
}
