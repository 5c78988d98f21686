//! Arithmetic utilities: checked fixed-width operations and the integer
//! square root.
//!
//! Products of two 64-bit quantities are formed in 128 bits. Nothing wraps:
//! an operation whose exact result does not fit, or a division by zero, is
//! reported as [`AmmError::MathOverflow`].
use crate::error::AmmError;
use vstd::arithmetic::div_mod::lemma_div_is_ordered_by_denominator;
use vstd::arithmetic::div_mod::lemma_div_pos_is_pos;
use vstd::arithmetic::div_mod::lemma_fundamental_div_mod;
use vstd::arithmetic::div_mod::lemma_mod_pos_bound;
use vstd::prelude::*;

verus! {

/// The number of basis points in one whole.
pub const BPS_DENOMINATOR: u64 = 10_000;

/// `root` is the floor of the square root of `value`.
pub open spec fn is_floor_sqrt(value: nat, root: nat) -> bool {
    root * root <= value < (root + 1) * (root + 1)
}

/// The floor of the square root of `value`.
pub open spec fn floor_sqrt(value: nat) -> nat {
    choose|root: nat| is_floor_sqrt(value, root)
}

/// Every number has a floor square root.
pub proof fn lemma_floor_sqrt_exists(value: nat)
    ensures
        is_floor_sqrt(value, floor_sqrt(value)),
    decreases value,
{
    if value == 0 {
        assert(is_floor_sqrt(0, 0)) by (nonlinear_arith);
    } else {
        lemma_floor_sqrt_exists((value - 1) as nat);
        let r = floor_sqrt((value - 1) as nat);
        if (r + 1) * (r + 1) <= value {
            assert(is_floor_sqrt(value, r + 1)) by (nonlinear_arith)
                requires
                    (r + 1) * (r + 1) <= value,
                    value - 1 < (r + 1) * (r + 1),
                    r >= 0,
            ;
        } else {
            assert(is_floor_sqrt(value, r)) by (nonlinear_arith)
                requires
                    r * r <= value - 1,
                    value < (r + 1) * (r + 1),
            ;
        }
    }
}

/// At most one number is the floor square root of `value`.
pub proof fn lemma_floor_sqrt_unique(value: nat, a: nat, b: nat)
    requires
        is_floor_sqrt(value, a),
        is_floor_sqrt(value, b),
    ensures
        a == b,
{
    if a < b {
        assert((a + 1) * (a + 1) <= b * b) by (nonlinear_arith)
            requires
                a + 1 <= b,
        ;
    } else if b < a {
        assert((b + 1) * (b + 1) <= a * a) by (nonlinear_arith)
            requires
                b + 1 <= a,
        ;
    }
}

/// Whatever satisfies the defining inequality is the floor square root.
pub proof fn lemma_floor_sqrt_is(value: nat, root: nat)
    requires
        is_floor_sqrt(value, root),
    ensures
        floor_sqrt(value) == root,
{
    lemma_floor_sqrt_unique(value, root, floor_sqrt(value));
}

/// Floor division brackets the dividend: `d * (x / d) <= x < d * (x / d) + d`.
pub proof fn lemma_div_brackets(x: int, d: int)
    requires
        x >= 0,
        d > 0,
    ensures
        0 <= x / d,
        d * (x / d) <= x < d * (x / d) + d,
{
    lemma_fundamental_div_mod(x, d);
    lemma_mod_pos_bound(x, d);
    lemma_div_pos_is_pos(x, d);
}

/// One averaging step from any positive guess lands on or above the root.
proof fn lemma_newton_step(value: int, guess: int)
    requires
        value >= 0,
        guess >= 1,
    ensures
        ({
            let next = (guess + value / guess) / 2;
            (next + 1) * (next + 1) > value
        }),
{
    let q = value / guess;
    let next = (guess + q) / 2;
    lemma_fundamental_div_mod(value, guess);
    assert(value < (q + 1) * guess) by (nonlinear_arith)
        requires
            value == guess * q + value % guess,
            value % guess < guess,
    ;
    assert((guess + q + 1) * (guess + q + 1) >= 4 * ((q + 1) * guess)) by (nonlinear_arith);
    assert(4 * ((next + 1) * (next + 1)) >= (guess + q + 1) * (guess + q + 1))
        by (nonlinear_arith)
        requires
            2 * (next + 1) >= guess + q + 1,
            guess + q + 1 >= 0,
    ;
}

/// A guess that its own averaging step does not lower is on or below the root.
proof fn lemma_newton_fixpoint(value: int, guess: int)
    requires
        value >= 0,
        guess >= 1,
        (guess + value / guess) / 2 >= guess,
    ensures
        guess * guess <= value,
{
    let q = value / guess;
    lemma_fundamental_div_mod(value, guess);
    assert(guess * guess <= value) by (nonlinear_arith)
        requires
            q >= guess,
            guess >= 1,
            value == guess * q + value % guess,
            value % guess >= 0,
    ;
}

/// The floor of the square root of `value`, by Babylonian iteration.
pub fn integer_sqrt(value: u128) -> (root: u128)
    ensures
        root * root <= value < (root + 1) * (root + 1),
        root == floor_sqrt(value as nat),
        value < 2 ==> root == value,
{
    if value < 2 {
        proof {
            assert(value * value <= value < (value + 1) * (value + 1)) by (nonlinear_arith)
                requires
                    0 <= value < 2,
            ;
            lemma_floor_sqrt_is(value as nat, value as nat);
        }
        return value;
    }
    let mut x0: u128 = value / 2 + 1;
    proof {
        lemma_div_is_ordered_by_denominator(value as int, 2, x0 as int);
        assert((x0 + 1) * (x0 + 1) > value) by (nonlinear_arith)
            requires
                2 * x0 > value,
                x0 >= 2,
        ;
    }
    let mut x1: u128 = (x0 + value / x0) / 2;
    while x1 < x0
        invariant
            value >= 2,
            1 <= x0 <= value / 2 + 1,
            (x0 + 1) * (x0 + 1) > value,
            x1 == (x0 + value / x0) / 2,
        decreases x0,
    {
        proof {
            lemma_newton_step(value as int, x0 as int);
            assert((x1 + 1) * (x1 + 1) > value);
            if x1 == 0 {
                assert((x1 + 1) * (x1 + 1) == 1) by (nonlinear_arith)
                    requires
                        x1 == 0,
                ;
            }
        }
        x0 = x1;
        proof {
            if x0 >= 2 {
                lemma_div_is_ordered_by_denominator(value as int, 2, x0 as int);
            } else {
                assert((x0 + 1) * (x0 + 1) == 4) by (nonlinear_arith)
                    requires
                        x0 == 1,
                ;
                assert(value / x0 <= value) by (nonlinear_arith)
                    requires
                        x0 == 1,
                        value >= 0,
                ;
            }
        }
        x1 = (x0 + value / x0) / 2;
    }
    proof {
        lemma_newton_fixpoint(value as int, x0 as int);
        lemma_floor_sqrt_is(value as nat, x0 as nat);
    }
    x0
}

/// The exact product of two 64-bit quantities, in 128 bits.
pub fn wide_mul(a: u64, b: u64) -> (product: u128)
    ensures
        product == a * b,
{
    assert(a * b <= u128::MAX) by (nonlinear_arith)
        requires
            a <= u64::MAX,
            b <= u64::MAX,
    ;
    (a as u128) * (b as u128)
}

/// `a + b`, or `MathOverflow` when the sum does not fit in 64 bits.
pub fn checked_add(a: u64, b: u64) -> (result: Result<u64, AmmError>)
    ensures
        a + b <= u64::MAX ==> result == Ok::<u64, AmmError>((a + b) as u64),
        a + b > u64::MAX ==> result == Err::<u64, AmmError>(AmmError::MathOverflow),
{
    match a.checked_add(b) {
        Some(sum) => Ok(sum),
        None => Err(AmmError::MathOverflow),
    }
}

/// `a - b`, or `MathOverflow` when `b` exceeds `a`.
pub fn checked_sub(a: u64, b: u64) -> (result: Result<u64, AmmError>)
    ensures
        b <= a ==> result == Ok::<u64, AmmError>((a - b) as u64),
        b > a ==> result == Err::<u64, AmmError>(AmmError::MathOverflow),
{
    match a.checked_sub(b) {
        Some(difference) => Ok(difference),
        None => Err(AmmError::MathOverflow),
    }
}

/// `floor(n / d)`, or `MathOverflow` when `d` is zero.
pub fn checked_div(n: u128, d: u128) -> (result: Result<u128, AmmError>)
    ensures
        d != 0 ==> result == Ok::<u128, AmmError>(n / d),
        d == 0 ==> result == Err::<u128, AmmError>(AmmError::MathOverflow),
{
    if d == 0 {
        Err(AmmError::MathOverflow)
    } else {
        Ok(n / d)
    }
}

/// `value` in 64 bits, or `MathOverflow` when it does not fit.
pub fn narrow(value: u128) -> (result: Result<u64, AmmError>)
    ensures
        value <= u64::MAX ==> result == Ok::<u64, AmmError>(value as u64),
        value > u64::MAX ==> result == Err::<u64, AmmError>(AmmError::MathOverflow),
{
    if value > u64::MAX as u128 {
        Err(AmmError::MathOverflow)
    } else {
        Ok(value as u64)
    }
}

} // verus!
