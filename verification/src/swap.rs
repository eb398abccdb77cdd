//! Constant-product swaps with fee extraction and invariant enforcement.
//!
//! A swap is priced by the constant-product rule after deducting the
//! venue fee from the input side.  The engine re-reads both reserves,
//! validates every precondition, computes the proceeds over widened
//! arithmetic, re-verifies the constant-product invariant on the pre-fee
//! amounts, and hands back the two transfers to perform; it never moves
//! a balance itself.

use vstd::arithmetic::div_mod::{
    lemma_div_is_ordered, lemma_div_multiples_vanish, lemma_fundamental_div_mod,
    lemma_multiply_divide_lt,
};
use vstd::prelude::*;

use crate::errors::AmmError;
use crate::math::{mul_div_fits, mul_div_u64};
use crate::state::{Amm, FEE_DENOMINATOR};

verus! {

/// The two transfers a validated swap instructs the ledger host to
/// perform, in order: `input_amount` from the trader's input-side
/// account into the matching reserve vault (signed by the trader), then
/// `output_amount` from the other vault to the trader (signed by the
/// pool authority).
#[derive(Clone, Copy, Debug, PartialEq, Eq, Structural)]
pub struct SwapOutcome {
    /// Amount the trader pays into the input-side reserve vault.
    pub input_amount: u64,
    /// Amount the output-side reserve vault pays to the trader.
    pub output_amount: u64,
}

/// The reserve the trader pays into, for the chosen direction.
pub open spec fn reserve_in(reserve_a: u64, reserve_b: u64, swap_a: bool) -> u64 {
    if swap_a {
        reserve_a
    } else {
        reserve_b
    }
}

/// The reserve the trader is paid from, for the chosen direction.
pub open spec fn reserve_out(reserve_a: u64, reserve_b: u64, swap_a: bool) -> u64 {
    if swap_a {
        reserve_b
    } else {
        reserve_a
    }
}

/// The trader's balance on the input side, for the chosen direction.
pub open spec fn trader_balance_in(balance_a: u64, balance_b: u64, swap_a: bool) -> u64 {
    if swap_a {
        balance_a
    } else {
        balance_b
    }
}

/// The input with the venue fee deducted:
/// `floor(input * (10000 - fee) / 10000)`.
pub open spec fn input_after_fee(input_amount: u64, fee: u16) -> int {
    (input_amount * (10000 - fee)) / 10000
}

/// The constant-product proceeds for a fee-reduced input:
/// `floor(reserve_out * input_after_fee / (reserve_in + input_after_fee))`.
pub open spec fn swap_output(r_in: u64, r_out: u64, input_amount: u64, fee: u16) -> int {
    (r_out * input_after_fee(input_amount, fee)) / (r_in + input_after_fee(input_amount, fee))
}

/// All of the swap's preconditions hold: a positive input, two live
/// reserves, and a trader balance that covers the input.
pub open spec fn swap_checks_pass(
    reserve_a: u64,
    reserve_b: u64,
    balance_in: u64,
    input_amount: u64,
) -> bool {
    input_amount > 0 && reserve_a > 0 && reserve_b > 0 && balance_in >= input_amount
}

/// The widened product of the invariant re-check exceeds even the
/// 128-bit intermediate.
pub open spec fn invariant_check_overflows(r_in: u64, r_out: u64, input_amount: u64, out: int) -> bool {
    (r_in + input_amount) * (r_out - out) > u128::MAX
}

/// The computed proceeds never decrease the product of the reserves.
proof fn lemma_constant_product(r_in: int, r_out: int, input_amount: int, fee_input: int, out: int)
    by (nonlinear_arith)
    requires
        r_in > 0,
        r_out > 0,
        0 <= fee_input <= input_amount,
        0 <= out <= r_out,
        out * (r_in + fee_input) <= r_out * fee_input,
    ensures
        (r_in + input_amount) * (r_out - out) >= r_in * r_out,
{
}

/// Executes a one-directional exchange against a pool of the venue
/// `amm`: token A for token B when `swap_a` holds, token B for token A
/// otherwise.  Reserves and the trader's balances are the live vault
/// readings for this invocation.
///
/// Exactly one of the following happens, checked in this order:
/// a zero input is rejected as `DepositTooSmall`; an empty reserve on
/// either side as `CalculationError`; an input above the trader's
/// balance as `DepositTooSmall`; zero proceeds, proceeds below the slippage floor
/// `min_output_amount`, or proceeds that would drain the output reserve
/// as `OutputTooSmall`; an invariant re-check that overflows the
/// widened arithmetic as `InvariantViolated`.  Otherwise the swap
/// succeeds, its proceeds are exactly the constant-product formula on
/// the fee-reduced input, they never drain the output reserve, and the
/// product of the reserves never decreases.
pub fn swap(
    amm: &Amm,
    reserve_a: u64,
    reserve_b: u64,
    trader_balance_a: u64,
    trader_balance_b: u64,
    swap_a: bool,
    input_amount: u64,
    min_output_amount: u64,
) -> (r: Result<SwapOutcome, AmmError>)
    requires
        amm.wf(),
    ensures
        input_amount == 0 ==> r == Err::<SwapOutcome, AmmError>(AmmError::DepositTooSmall),
        input_amount > 0 && (reserve_a == 0 || reserve_b == 0) ==> r == Err::<
            SwapOutcome,
            AmmError,
        >(AmmError::CalculationError),
        input_amount > 0 && reserve_a > 0 && reserve_b > 0 && trader_balance_in(
            trader_balance_a,
            trader_balance_b,
            swap_a,
        ) < input_amount ==> r == Err::<SwapOutcome, AmmError>(AmmError::DepositTooSmall),
        swap_checks_pass(
            reserve_a,
            reserve_b,
            trader_balance_in(trader_balance_a, trader_balance_b, swap_a),
            input_amount,
        ) ==> ({
            let r_in = reserve_in(reserve_a, reserve_b, swap_a);
            let r_out = reserve_out(reserve_a, reserve_b, swap_a);
            let out = swap_output(r_in, r_out, input_amount, amm.fee);
            &&& out == 0 || out < min_output_amount ==> r == Err::<SwapOutcome, AmmError>(
                AmmError::OutputTooSmall,
            )
            &&& out > 0 && out >= min_output_amount && invariant_check_overflows(
                r_in,
                r_out,
                input_amount,
                out,
            ) ==> r == Err::<SwapOutcome, AmmError>(AmmError::InvariantViolated)
            &&& out > 0 && out >= min_output_amount && !invariant_check_overflows(
                r_in,
                r_out,
                input_amount,
                out,
            ) ==> r == Ok::<SwapOutcome, AmmError>(
                SwapOutcome { input_amount, output_amount: out as u64 },
            )
        }),
        r matches Ok(o) ==> o.input_amount == input_amount && o.output_amount == swap_output(
            reserve_in(reserve_a, reserve_b, swap_a),
            reserve_out(reserve_a, reserve_b, swap_a),
            input_amount,
            amm.fee,
        ) && o.output_amount > 0 && o.output_amount >= min_output_amount,
        r matches Ok(o) ==> o.output_amount < reserve_out(reserve_a, reserve_b, swap_a),
        r matches Ok(o) ==> ({
            let r_in = reserve_in(reserve_a, reserve_b, swap_a);
            let r_out = reserve_out(reserve_a, reserve_b, swap_a);
            (r_in + input_amount) * (r_out - o.output_amount) >= r_in * r_out
        }),
{
    if input_amount == 0 {
        return Err(AmmError::DepositTooSmall);
    }
    if reserve_a == 0 || reserve_b == 0 {
        return Err(AmmError::CalculationError);
    }
    let fee_multiplier: u64 = (FEE_DENOMINATOR as u64) - (amm.fee as u64);
    let (input_reserve, output_reserve): (u64, u64) = if swap_a {
        (reserve_a, reserve_b)
    } else {
        (reserve_b, reserve_a)
    };
    let balance_in: u64 = if swap_a {
        trader_balance_a
    } else {
        trader_balance_b
    };
    if balance_in < input_amount {
        return Err(AmmError::DepositTooSmall);
    }

    proof {
        assert(input_amount * fee_multiplier <= input_amount * 10000) by (nonlinear_arith)
            requires
                fee_multiplier <= 10000,
        ;
        lemma_div_is_ordered(
            (input_amount * fee_multiplier) as int,
            (input_amount * 10000) as int,
            10000,
        );
        lemma_div_multiples_vanish(input_amount as int, 10000);
        assert(mul_div_fits(input_amount, fee_multiplier, 10000));
    }
    let fee_input: u64 = match mul_div_u64(input_amount, fee_multiplier, 10000) {
        Ok(v) => v,
        Err(e) => {
            return Err(e);
        },
    };
    assert(fee_input == input_after_fee(input_amount, amm.fee));
    assert(fee_input <= input_amount);

    proof {
        assert(output_reserve * fee_input <= u128::MAX) by (nonlinear_arith)
            requires
                output_reserve <= u64::MAX,
                fee_input <= u64::MAX,
        ;
    }
    let numerator: u128 = (output_reserve as u128) * (fee_input as u128);
    let denominator: u128 = (input_reserve as u128) + (fee_input as u128);
    let out_wide: u128 = numerator / denominator;
    proof {
        assert(output_reserve * fee_input < denominator * output_reserve) by (nonlinear_arith)
            requires
                input_reserve > 0,
                output_reserve > 0,
                fee_input >= 0,
                denominator == input_reserve + fee_input,
        ;
        lemma_multiply_divide_lt(numerator as int, denominator as int, output_reserve as int);
    }
    let amount_out: u64 = out_wide as u64;
    assert(amount_out == swap_output(input_reserve, output_reserve, input_amount, amm.fee));

    if amount_out == 0 {
        return Err(AmmError::OutputTooSmall);
    }
    if amount_out < min_output_amount {
        return Err(AmmError::OutputTooSmall);
    }
    if amount_out >= output_reserve {
        // Unreachable: the proceeds are proved above to stay strictly
        // below the output reserve.  The check is the drain guard the
        // design demands of every implementation.
        return Err(AmmError::OutputTooSmall);
    }

    proof {
        assert(input_reserve * output_reserve <= u128::MAX) by (nonlinear_arith)
            requires
                input_reserve <= u64::MAX,
                output_reserve <= u64::MAX,
        ;
    }
    let k_before: u128 = (input_reserve as u128) * (output_reserve as u128);
    let sum_in: u128 = (input_reserve as u128) + (input_amount as u128);
    let diff_out: u128 = (output_reserve as u128) - (amount_out as u128);
    let k_after: u128 = match sum_in.checked_mul(diff_out) {
        Some(v) => v,
        None => {
            return Err(AmmError::InvariantViolated);
        },
    };
    proof {
        lemma_fundamental_div_mod(numerator as int, denominator as int);
        assert(amount_out * (input_reserve + fee_input) <= output_reserve * fee_input);
        lemma_constant_product(
            input_reserve as int,
            output_reserve as int,
            input_amount as int,
            fee_input as int,
            amount_out as int,
        );
    }
    if k_after < k_before {
        // Unreachable: the constant-product inequality is proved above
        // for every computed output; the re-check stays as the
        // defense-in-depth the design demands.
        return Err(AmmError::InvariantViolated);
    }
    Ok(SwapOutcome { input_amount, output_amount: amount_out })
}

} // verus!
