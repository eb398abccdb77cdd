//! Round-trip laws of the liquidity operations.
//!
//! Depositing and then immediately withdrawing the same LP amount (with
//! no intervening swap) can never pay out more of either token than was
//! deposited; the only loss is the floor-rounding bias, and a first
//! deposit is returned exactly.  The laws are stated over the same spec
//! functions the operations' contracts use, so they apply to every run
//! of [`crate::deposit::deposit_liquidity`] followed by
//! [`crate::withdraw::withdraw_liquidity`].

use vstd::arithmetic::div_mod::{
    lemma_div_is_ordered, lemma_div_multiples_vanish, lemma_div_pos_is_pos,
    lemma_fundamental_div_mod, lemma_mod_bound, lemma_multiply_divide_lt,
};
use vstd::prelude::*;

use crate::deposit::{lp_for_deposit, required_amount_b};
use crate::withdraw::proportional_share;

verus! {

/// Cancelling a positive common factor on both sides of a strict
/// product inequality.
proof fn lemma_cancel_common_factor(f: int, x: int, y: int)
    by (nonlinear_arith)
    requires
        f > 0,
        f * x < f * y,
    ensures
        x < y,
{
}

/// A first deposit is returned exactly: whatever positive LP amount it
/// minted, burning that whole amount against reserves equal to the
/// deposited amounts pays back exactly those amounts.
pub proof fn lemma_first_deposit_withdraw_exact(amount_a: int, amount_b: int, minted: int)
    requires
        amount_a > 0,
        amount_b > 0,
        minted > 0,
    ensures
        proportional_share(amount_a, minted, minted) == amount_a,
        proportional_share(amount_b, minted, minted) == amount_b,
{
    lemma_div_multiples_vanish(amount_a, minted);
    lemma_div_multiples_vanish(amount_b, minted);
    assert(amount_a * minted == minted * amount_a) by (nonlinear_arith);
    assert(amount_b * minted == minted * amount_b) by (nonlinear_arith);
}

/// A proportional deposit followed by a withdrawal of the freshly
/// minted LP amount never pays out more than was deposited, on either
/// side: floor rounding can only work against the depositor, never
/// against the pool.
pub proof fn lemma_deposit_withdraw_no_gain(
    reserve_a: int,
    reserve_b: int,
    supply: int,
    amount_a: int,
    amount_b: int,
)
    requires
        reserve_a > 0,
        reserve_b > 0,
        supply > 0,
        amount_a > 0,
        amount_b >= 0,
        amount_b == required_amount_b(amount_a, reserve_b, reserve_a),
    ensures
        ({
            let minted = lp_for_deposit(amount_a, supply, reserve_a);
            &&& proportional_share(reserve_a + amount_a, minted, supply + minted) <= amount_a
            &&& proportional_share(reserve_b + amount_b, minted, supply + minted) <= amount_b
        }),
{
    let minted = lp_for_deposit(amount_a, supply, reserve_a);
    lemma_div_pos_is_pos(amount_a * supply, reserve_a);
    lemma_div_pos_is_pos(amount_a * reserve_b, reserve_a);
    assert(amount_a * supply >= 0) by (nonlinear_arith)
        requires
            amount_a > 0,
            supply > 0,
    ;
    assert(amount_a * reserve_b >= 0) by (nonlinear_arith)
        requires
            amount_a > 0,
            reserve_b > 0,
    ;
    assert(minted >= 0);
    assert(amount_b >= 0);

    // The floored quotients, bracketed by their divisors.
    lemma_fundamental_div_mod(amount_a * supply, reserve_a);
    lemma_mod_bound(amount_a * supply, reserve_a);
    assert(reserve_a * minted <= amount_a * supply);
    lemma_fundamental_div_mod(amount_a * reserve_b, reserve_a);
    lemma_mod_bound(amount_a * reserve_b, reserve_a);
    assert(reserve_a * (amount_b + 1) == reserve_a * amount_b + reserve_a) by (nonlinear_arith);
    assert(amount_a * reserve_b < reserve_a * (amount_b + 1));

    // Token A side: (ra + da) * minted <= da * (s + minted).
    assert((reserve_a + amount_a) * minted <= amount_a * (supply + minted)) by (nonlinear_arith)
        requires
            reserve_a * minted <= amount_a * supply,
            minted >= 0,
            amount_a > 0,
    ;
    lemma_div_is_ordered(
        (reserve_a + amount_a) * minted,
        amount_a * (supply + minted),
        supply + minted,
    );
    lemma_div_multiples_vanish(amount_a, supply + minted);
    assert(amount_a * (supply + minted) == (supply + minted) * amount_a) by (nonlinear_arith);
    assert(proportional_share(reserve_a + amount_a, minted, supply + minted) <= amount_a);

    // Token B side: rb * minted < (db + 1) * s, after cancelling ra.
    assert(reserve_a * (reserve_b * minted) <= reserve_a * (supply * (amount_b + 1)) - 1)
        by (nonlinear_arith)
        requires
            reserve_a * minted <= amount_a * supply,
            amount_a * reserve_b < reserve_a * (amount_b + 1),
            reserve_a > 0,
            reserve_b > 0,
            supply > 0,
            minted >= 0,
            amount_b >= 0,
    ;
    lemma_cancel_common_factor(
        reserve_a,
        reserve_b * minted,
        supply * (amount_b + 1),
    );
    // Hence (rb + db) * minted < (db + 1) * (s + minted).
    assert((reserve_b + amount_b) * minted < (supply + minted) * (amount_b + 1))
        by (nonlinear_arith)
        requires
            reserve_b * minted < supply * (amount_b + 1),
            minted >= 0,
            amount_b >= 0,
            supply > 0,
    ;
    lemma_multiply_divide_lt(
        (reserve_b + amount_b) * minted,
        supply + minted,
        amount_b + 1,
    );
    assert(proportional_share(reserve_b + amount_b, minted, supply + minted) <= amount_b);
}

} // verus!
