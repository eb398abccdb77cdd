use amm::errors::AmmError;
use amm::state::{create_amm, create_pool_step1, create_pool_step2};

#[test]
fn create_amm_stores_immutable_fields() {
    let amm = create_amm(42, 500).unwrap();
    assert_eq!(amm.id, 42);
    assert_eq!(amm.fee, 500);
}

#[test]
fn create_amm_rejects_full_fee() {
    assert_eq!(create_amm(42, 10000), Err(AmmError::CalculationError));
    assert_eq!(create_amm(42, u16::MAX), Err(AmmError::CalculationError));
    assert!(create_amm(42, 9999).is_ok());
}

#[test]
fn pool_step1_records_the_pairing() {
    let amm = create_amm(1, 30).unwrap();
    let pool = create_pool_step1(&amm, 10, 20).unwrap();
    assert_eq!(pool.amm, 1);
    assert_eq!(pool.mint_a, 10);
    assert_eq!(pool.mint_b, 20);
}

#[test]
fn pool_step1_rejects_identical_mints() {
    let amm = create_amm(1, 30).unwrap();
    assert_eq!(create_pool_step1(&amm, 10, 10), Err(AmmError::InvalidPair));
}

#[test]
fn pool_step2_initializes_empty_vaults_and_lp_mint() {
    let amm = create_amm(1, 30).unwrap();
    let pool = create_pool_step1(&amm, 10, 20).unwrap();
    let init = create_pool_step2(&amm, &pool, 10, 20).unwrap();
    assert_eq!(init.lp_decimals, 6);
    assert_eq!(init.reserve_a, 0);
    assert_eq!(init.reserve_b, 0);
    assert_eq!(init.lp_supply, 0);
}

#[test]
fn pool_step2_rejects_mismatched_pool() {
    let amm = create_amm(1, 30).unwrap();
    let other = create_amm(2, 30).unwrap();
    let pool = create_pool_step1(&amm, 10, 20).unwrap();
    assert_eq!(
        create_pool_step2(&other, &pool, 10, 20),
        Err(AmmError::PoolMismatch)
    );
    assert_eq!(
        create_pool_step2(&amm, &pool, 20, 10),
        Err(AmmError::PoolMismatch)
    );
    assert_eq!(
        create_pool_step2(&amm, &pool, 10, 30),
        Err(AmmError::PoolMismatch)
    );
}

#[test]
fn authority_is_rederived_from_pool_keys() {
    let amm = create_amm(1, 30).unwrap();
    let pool = create_pool_step1(&amm, 10, 20).unwrap();
    let auth = pool.authority();
    assert!(auth.authorizes(&pool));

    let other_pool = create_pool_step1(&amm, 10, 30).unwrap();
    assert!(!auth.authorizes(&other_pool));
}
