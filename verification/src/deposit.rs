//! Liquidity deposit: pay both tokens in, mint LP shares.
//!
//! The first deposit into a pool sets the price ratio freely and seeds
//! the LP supply with the geometric mean of the two amounts, rounded
//! down — a seeding rule that makes the initial share value independent
//! of how the depositor splits a given value between the two sides.
//! Every later deposit must match the current reserve ratio exactly
//! (under floor rounding) and mints shares in proportion to the token-A
//! side.

use vstd::prelude::*;

use crate::errors::AmmError;
use crate::math::{is_floor_sqrt, mul_div_u64, sqrt_u128};

verus! {

/// The token movements of a validated deposit, in order: transfer
/// `amount_a` and `amount_b` from the depositor into the two reserve
/// vaults (signed by the depositor), then mint `minted_lp` LP shares to
/// the depositor (signed by the pool authority).
#[derive(Clone, Copy, Debug, PartialEq, Eq, Structural)]
pub struct DepositOutcome {
    /// Amount paid into the token-A reserve vault.
    pub amount_a: u64,
    /// Amount paid into the token-B reserve vault.
    pub amount_b: u64,
    /// LP shares minted to the depositor.
    pub minted_lp: u64,
}

/// The LP shares a proportional deposit of `amount_a` earns against a
/// token-A reserve of `reserve_a` and an LP supply of `supply`:
/// `floor(amount_a * supply / reserve_a)`.
pub open spec fn lp_for_deposit(amount_a: int, supply: int, reserve_a: int) -> int {
    (amount_a * supply) / reserve_a
}

/// The token-B amount that keeps a deposit of `amount_a` on the current
/// price: `floor(amount_a * reserve_b / reserve_a)`.
pub open spec fn required_amount_b(amount_a: int, reserve_b: int, reserve_a: int) -> int {
    (amount_a * reserve_b) / reserve_a
}

/// Accepts a deposit of both tokens and computes the LP shares to mint.
/// Reserves, supply, and the depositor's balances are the live readings
/// for this invocation.
///
/// Exactly one of the following happens, checked in this order: a zero
/// amount on either side, or an amount above the depositor's balance,
/// is rejected as `DepositTooSmall`.  On a first deposit (zero LP
/// supply) the operation then always succeeds and mints the floored
/// geometric mean of the two amounts, which is positive.  On a later
/// deposit, an empty reserve is rejected as `CalculationError`; a
/// token-B amount different from the one the reserve ratio requires as
/// `UnbalancedDeposit`; a required amount or share count that does not
/// fit the output width as `CalculationError`; and a zero share count
/// as `OutputTooSmall`.  Otherwise the deposit moves exactly the two
/// stated amounts and mints exactly the proportional share count.
pub fn deposit_liquidity(
    reserve_a: u64,
    reserve_b: u64,
    lp_supply: u64,
    depositor_balance_a: u64,
    depositor_balance_b: u64,
    amount_a: u64,
    amount_b: u64,
) -> (r: Result<DepositOutcome, AmmError>)
    ensures
        amount_a == 0 || amount_b == 0 ==> r == Err::<DepositOutcome, AmmError>(
            AmmError::DepositTooSmall,
        ),
        amount_a > 0 && amount_b > 0 && (depositor_balance_a < amount_a || depositor_balance_b
            < amount_b) ==> r == Err::<DepositOutcome, AmmError>(AmmError::DepositTooSmall),
        amount_a > 0 && amount_b > 0 && depositor_balance_a >= amount_a && depositor_balance_b
            >= amount_b && lp_supply == 0 ==> r is Ok,
        amount_a > 0 && amount_b > 0 && depositor_balance_a >= amount_a && depositor_balance_b
            >= amount_b && lp_supply > 0 ==> ({
            let req_b = required_amount_b(amount_a as int, reserve_b as int, reserve_a as int);
            let minted = lp_for_deposit(amount_a as int, lp_supply as int, reserve_a as int);
            &&& reserve_a == 0 || reserve_b == 0 ==> r == Err::<DepositOutcome, AmmError>(
                AmmError::CalculationError,
            )
            &&& reserve_a > 0 && reserve_b > 0 && req_b > u64::MAX ==> r == Err::<
                DepositOutcome,
                AmmError,
            >(AmmError::CalculationError)
            &&& reserve_a > 0 && reserve_b > 0 && req_b <= u64::MAX && amount_b != req_b ==> r
                == Err::<DepositOutcome, AmmError>(AmmError::UnbalancedDeposit)
            &&& reserve_a > 0 && reserve_b > 0 && req_b <= u64::MAX && amount_b == req_b && minted
                > u64::MAX ==> r == Err::<DepositOutcome, AmmError>(AmmError::CalculationError)
            &&& reserve_a > 0 && reserve_b > 0 && req_b <= u64::MAX && amount_b == req_b && minted
                <= u64::MAX && minted == 0 ==> r == Err::<DepositOutcome, AmmError>(
                AmmError::OutputTooSmall,
            )
            &&& reserve_a > 0 && reserve_b > 0 && req_b <= u64::MAX && amount_b == req_b && 0
                < minted <= u64::MAX ==> r == Ok::<DepositOutcome, AmmError>(
                DepositOutcome { amount_a, amount_b, minted_lp: minted as u64 },
            )
        }),
        r matches Ok(o) ==> o.amount_a == amount_a && o.amount_b == amount_b && o.minted_lp > 0,
        lp_supply == 0 ==> (r matches Ok(o) ==> is_floor_sqrt(
            (amount_a * amount_b) as u128,
            o.minted_lp,
        )),
        lp_supply > 0 ==> (r matches Ok(o) ==> o.minted_lp == lp_for_deposit(
            amount_a as int,
            lp_supply as int,
            reserve_a as int,
        ) && amount_b == required_amount_b(amount_a as int, reserve_b as int, reserve_a as int)),
{
    if amount_a == 0 || amount_b == 0 {
        return Err(AmmError::DepositTooSmall);
    }
    if depositor_balance_a < amount_a || depositor_balance_b < amount_b {
        return Err(AmmError::DepositTooSmall);
    }
    if lp_supply == 0 {
        proof {
            assert(amount_a * amount_b <= u128::MAX) by (nonlinear_arith)
                requires
                    amount_a <= u64::MAX,
                    amount_b <= u64::MAX,
            ;
            assert(amount_a * amount_b >= 1) by (nonlinear_arith)
                requires
                    amount_a >= 1,
                    amount_b >= 1,
            ;
        }
        let seed_product: u128 = (amount_a as u128) * (amount_b as u128);
        let minted_lp: u64 = sqrt_u128(seed_product);
        proof {
            assert(minted_lp > 0) by (nonlinear_arith)
                requires
                    (minted_lp + 1) * (minted_lp + 1) > seed_product,
                    seed_product >= 1,
            ;
        }
        return Ok(DepositOutcome { amount_a, amount_b, minted_lp });
    }
    if reserve_a == 0 || reserve_b == 0 {
        return Err(AmmError::CalculationError);
    }
    let required_b: u64 = match mul_div_u64(amount_a, reserve_b, reserve_a) {
        Ok(v) => v,
        Err(e) => {
            return Err(e);
        },
    };
    if amount_b != required_b {
        return Err(AmmError::UnbalancedDeposit);
    }
    let minted_lp: u64 = match mul_div_u64(amount_a, lp_supply, reserve_a) {
        Ok(v) => v,
        Err(e) => {
            return Err(e);
        },
    };
    if minted_lp == 0 {
        return Err(AmmError::OutputTooSmall);
    }
    Ok(DepositOutcome { amount_a, amount_b, minted_lp })
}

} // verus!
