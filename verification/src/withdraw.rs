//! Liquidity withdrawal: burn LP shares, pay out both reserves
//! proportionally.
//!
//! A withdrawal of `amount` LP shares entitles the caller to
//! `floor(reserve * amount / lp_supply)` of each reserve.  The engine
//! validates the preconditions and hands back the burn and the two
//! pool-authority-signed transfers to perform, in that order.

use vstd::arithmetic::div_mod::{lemma_div_is_ordered, lemma_div_multiples_vanish};
use vstd::prelude::*;

use crate::errors::AmmError;
use crate::math::mul_div_u64;

verus! {

/// The token movements of a validated withdrawal, in order: burn
/// `burned_lp` LP shares from the depositor (signed by the depositor),
/// then transfer `amount_a` from vault A and `amount_b` from vault B to
/// the depositor (each signed by the pool authority).
#[derive(Clone, Copy, Debug, PartialEq, Eq, Structural)]
pub struct WithdrawOutcome {
    /// LP shares burned from the depositor's LP account.
    pub burned_lp: u64,
    /// Amount paid from the token-A reserve vault to the depositor.
    pub amount_a: u64,
    /// Amount paid from the token-B reserve vault to the depositor.
    pub amount_b: u64,
}

/// The share of `reserve` that `amount` LP tokens claim out of a total
/// supply of `supply`: `floor(reserve * amount / supply)`.
pub open spec fn proportional_share(reserve: int, amount: int, supply: int) -> int {
    (reserve * amount) / supply
}

/// Burns `amount` LP shares and returns the proportional share of both
/// reserves.  Reserves, supply, and the depositor's LP balance are the
/// live readings for this invocation.
///
/// Exactly one of the following happens, checked in this order: a zero
/// `amount` is rejected as `DepositTooSmall`; a zero LP supply as
/// `CalculationError`; an `amount` above the depositor's LP balance as
/// `DepositTooSmall`; a
/// proportional share that does not fit the output width as
/// `CalculationError`; a zero share on either side as
/// `OutputTooSmall`.  Otherwise both payouts are exactly the floored
/// proportional shares, both positive, and — whenever the burned
/// amount does not exceed the supply — within the reserves.
pub fn withdraw_liquidity(
    reserve_a: u64,
    reserve_b: u64,
    lp_supply: u64,
    depositor_lp_balance: u64,
    amount: u64,
) -> (r: Result<WithdrawOutcome, AmmError>)
    ensures
        amount == 0 ==> r == Err::<WithdrawOutcome, AmmError>(AmmError::DepositTooSmall),
        amount > 0 && lp_supply == 0 ==> r == Err::<WithdrawOutcome, AmmError>(
            AmmError::CalculationError,
        ),
        amount > 0 && lp_supply > 0 && depositor_lp_balance < amount ==> r == Err::<
            WithdrawOutcome,
            AmmError,
        >(AmmError::DepositTooSmall),
        amount > 0 && lp_supply > 0 && depositor_lp_balance >= amount ==> ({
            let share_a = proportional_share(reserve_a as int, amount as int, lp_supply as int);
            let share_b = proportional_share(reserve_b as int, amount as int, lp_supply as int);
            &&& share_a > u64::MAX || share_b > u64::MAX ==> r == Err::<WithdrawOutcome, AmmError>(
                AmmError::CalculationError,
            )
            &&& share_a <= u64::MAX && share_b <= u64::MAX && (share_a == 0 || share_b == 0)
                ==> r == Err::<WithdrawOutcome, AmmError>(AmmError::OutputTooSmall)
            &&& share_a <= u64::MAX && share_b <= u64::MAX && share_a > 0 && share_b > 0 ==> r
                == Ok::<WithdrawOutcome, AmmError>(
                WithdrawOutcome {
                    burned_lp: amount,
                    amount_a: share_a as u64,
                    amount_b: share_b as u64,
                },
            )
        }),
        r matches Ok(o) ==> o.burned_lp == amount && o.amount_a == proportional_share(
            reserve_a as int,
            amount as int,
            lp_supply as int,
        ) && o.amount_b == proportional_share(reserve_b as int, amount as int, lp_supply as int)
            && o.amount_a > 0 && o.amount_b > 0,
        amount <= lp_supply ==> (r matches Ok(o) ==> o.amount_a <= reserve_a && o.amount_b
            <= reserve_b),
{
    if amount == 0 {
        return Err(AmmError::DepositTooSmall);
    }
    if lp_supply == 0 {
        return Err(AmmError::CalculationError);
    }
    if depositor_lp_balance < amount {
        return Err(AmmError::DepositTooSmall);
    }
    let amount_a: u64 = match mul_div_u64(reserve_a, amount, lp_supply) {
        Ok(v) => v,
        Err(e) => {
            return Err(e);
        },
    };
    let amount_b: u64 = match mul_div_u64(reserve_b, amount, lp_supply) {
        Ok(v) => v,
        Err(e) => {
            return Err(e);
        },
    };
    if amount_a == 0 || amount_b == 0 {
        return Err(AmmError::OutputTooSmall);
    }
    proof {
        if amount <= lp_supply {
            assert(reserve_a * amount <= reserve_a * lp_supply) by (nonlinear_arith)
                requires
                    reserve_a >= 0,
                    amount <= lp_supply,
            ;
            assert(reserve_b * amount <= reserve_b * lp_supply) by (nonlinear_arith)
                requires
                    reserve_b >= 0,
                    amount <= lp_supply,
            ;
            lemma_div_is_ordered(
                (reserve_a * amount) as int,
                (reserve_a * lp_supply) as int,
                lp_supply as int,
            );
            lemma_div_is_ordered(
                (reserve_b * amount) as int,
                (reserve_b * lp_supply) as int,
                lp_supply as int,
            );
            lemma_div_multiples_vanish(reserve_a as int, lp_supply as int);
            lemma_div_multiples_vanish(reserve_b as int, lp_supply as int);
        }
    }
    Ok(WithdrawOutcome { burned_lp: amount, amount_a, amount_b })
}

} // verus!
