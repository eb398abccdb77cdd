use amm::deposit::deposit_liquidity;
use amm::errors::AmmError;
use amm::withdraw::withdraw_liquidity;

#[test]
fn deposit_zero_amount_fails() {
    assert_eq!(
        deposit_liquidity(0, 0, 0, 100, 100, 0, 10),
        Err(AmmError::DepositTooSmall)
    );
    assert_eq!(
        deposit_liquidity(0, 0, 0, 100, 100, 10, 0),
        Err(AmmError::DepositTooSmall)
    );
}

#[test]
fn deposit_insufficient_balance_fails() {
    assert_eq!(
        deposit_liquidity(0, 0, 0, 3, 100, 4, 9),
        Err(AmmError::DepositTooSmall)
    );
    assert_eq!(
        deposit_liquidity(0, 0, 0, 100, 8, 4, 9),
        Err(AmmError::DepositTooSmall)
    );
}

#[test]
fn first_deposit_mints_geometric_mean() {
    let o = deposit_liquidity(0, 0, 0, 100, 100, 4, 9).unwrap();
    assert_eq!(o.amount_a, 4);
    assert_eq!(o.amount_b, 9);
    assert_eq!(o.minted_lp, 6);

    let o = deposit_liquidity(0, 0, 0, u64::MAX, u64::MAX, 1_000_000, 1_000_000).unwrap();
    assert_eq!(o.minted_lp, 1_000_000);
}

#[test]
fn later_deposit_mints_proportionally() {
    let o = deposit_liquidity(1000, 2000, 100, 500, 500, 100, 200).unwrap();
    assert_eq!(o.amount_a, 100);
    assert_eq!(o.amount_b, 200);
    assert_eq!(o.minted_lp, 10);
}

#[test]
fn later_deposit_off_ratio_fails() {
    assert_eq!(
        deposit_liquidity(1000, 2000, 100, 500, 500, 100, 199),
        Err(AmmError::UnbalancedDeposit)
    );
    assert_eq!(
        deposit_liquidity(1000, 2000, 100, 500, 500, 100, 201),
        Err(AmmError::UnbalancedDeposit)
    );
}

#[test]
fn later_deposit_against_empty_reserve_fails() {
    assert_eq!(
        deposit_liquidity(0, 2000, 100, 500, 500, 100, 200),
        Err(AmmError::CalculationError)
    );
    assert_eq!(
        deposit_liquidity(1000, 0, 100, 500, 500, 100, 200),
        Err(AmmError::CalculationError)
    );
}

#[test]
fn later_deposit_minting_nothing_fails() {
    // One unit of token A against a deep pool earns no whole LP share.
    assert_eq!(
        deposit_liquidity(1000, 2000, 1, 500, 500, 1, 2),
        Err(AmmError::OutputTooSmall)
    );
}

#[test]
fn withdraw_zero_amount_fails() {
    assert_eq!(
        withdraw_liquidity(1000, 2000, 100, 50, 0),
        Err(AmmError::DepositTooSmall)
    );
}

#[test]
fn withdraw_beyond_lp_balance_fails() {
    assert_eq!(
        withdraw_liquidity(1000, 2000, 100, 50, 60),
        Err(AmmError::DepositTooSmall)
    );
}

#[test]
fn withdraw_from_zero_supply_fails() {
    assert_eq!(
        withdraw_liquidity(1000, 2000, 0, 50, 10),
        Err(AmmError::CalculationError)
    );
}

#[test]
fn withdraw_pays_proportional_share() {
    let o = withdraw_liquidity(1100, 2200, 110, 10, 10).unwrap();
    assert_eq!(o.burned_lp, 10);
    assert_eq!(o.amount_a, 100);
    assert_eq!(o.amount_b, 200);
}

#[test]
fn withdraw_whole_supply_drains_both_vaults() {
    let o = withdraw_liquidity(1234, 5678, 99, 99, 99).unwrap();
    assert_eq!(o.amount_a, 1234);
    assert_eq!(o.amount_b, 5678);
}

#[test]
fn withdraw_vanishing_share_fails() {
    assert_eq!(
        withdraw_liquidity(5, 100, 1000, 1000, 10),
        Err(AmmError::OutputTooSmall)
    );
}

#[test]
fn withdraw_overflowing_share_fails() {
    // More LP tokens than the recorded supply: the share no longer
    // fits the output width.
    assert_eq!(
        withdraw_liquidity(u64::MAX, u64::MAX, 1, 2, 2),
        Err(AmmError::CalculationError)
    );
}

#[test]
fn first_deposit_round_trips_exactly() {
    let d = deposit_liquidity(0, 0, 0, 100, 100, 4, 9).unwrap();
    let w = withdraw_liquidity(d.amount_a, d.amount_b, d.minted_lp, d.minted_lp, d.minted_lp)
        .unwrap();
    assert_eq!(w.amount_a, 4);
    assert_eq!(w.amount_b, 9);
}

#[test]
fn deposit_withdraw_round_trip_never_gains() {
    // Deposit against live reserves, then burn the freshly minted LP
    // amount with no intervening swap: floor rounding may lose a
    // little, but never pays out more than went in.
    let (reserve_a, reserve_b, supply) = (1000u64, 333u64, 97u64);
    let d = deposit_liquidity(reserve_a, reserve_b, supply, 500, 500, 50, 16).unwrap();
    assert_eq!(d.minted_lp, 4);
    let w = withdraw_liquidity(
        reserve_a + d.amount_a,
        reserve_b + d.amount_b,
        supply + d.minted_lp,
        d.minted_lp,
        d.minted_lp,
    )
    .unwrap();
    assert!(w.amount_a <= d.amount_a);
    assert!(w.amount_b <= d.amount_b);
    assert_eq!(w.amount_a, 41);
    assert_eq!(w.amount_b, 13);
}
