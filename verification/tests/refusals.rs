use amm::{deposit, initialize, swap, withdraw};
use amm::{AccountId, AmmError, Pool, Reserves, MAX_FEE_BPS};

fn id(n: u128) -> AccountId {
    AccountId { hi: n, lo: n }
}

fn open_pool(fee_bps: u16) -> Pool {
    initialize(id(1), id(2), 7, fee_bps, None).unwrap()
}

fn held(reserve_x: u64, reserve_y: u64, total_supply: u64) -> Reserves {
    Reserves { reserve_x, reserve_y, total_supply }
}

#[test]
fn fee_above_the_limit_is_invalid() {
    assert_eq!(initialize(id(1), id(2), 7, 10001, None), Err(AmmError::InvalidFee));
    assert_eq!(initialize(id(1), id(2), 7, u16::MAX, Some(id(3))), Err(AmmError::InvalidFee));
}

#[test]
fn fee_at_the_limit_is_valid() {
    assert_eq!(MAX_FEE_BPS, 10000);
    let pool = initialize(id(1), id(2), 7, 10000, None).unwrap();
    assert_eq!(pool.fee_bps(), 10000);
    let free = initialize(id(1), id(2), 7, 0, None).unwrap();
    assert_eq!(free.fee_bps(), 0);
}

#[test]
fn first_deposit_needs_both_assets() {
    let pool = open_pool(30);
    let start = Reserves::empty();
    assert_eq!(deposit(&pool, &start, 1000, 0, 1000), Err(AmmError::ZeroLiquidity));
    assert_eq!(deposit(&pool, &start, 1000, 1000, 0), Err(AmmError::ZeroLiquidity));
    assert_eq!(deposit(&pool, &start, 1000, 0, 0), Err(AmmError::ZeroLiquidity));
    assert!(deposit(&pool, &start, 1000, 1, 1).is_ok());
}

#[test]
fn deposit_of_no_shares_is_refused() {
    let pool = open_pool(30);
    assert_eq!(deposit(&pool, &Reserves::empty(), 0, 10, 10), Err(AmmError::ZeroAmount));
    assert_eq!(deposit(&pool, &held(100, 100, 100), 0, 10, 10), Err(AmmError::ZeroAmount));
}

#[test]
fn swap_of_nothing_is_refused() {
    let pool = open_pool(30);
    assert_eq!(swap(&pool, &held(1000, 1000, 1000), true, 0, 0), Err(AmmError::ZeroAmount));
    assert_eq!(swap(&pool, &held(1000, 1000, 1000), false, 0, 0), Err(AmmError::ZeroAmount));
    assert_eq!(swap(&open_pool(0), &held(1, u64::MAX, 1), true, 0, 0), Err(AmmError::ZeroAmount));
    assert_eq!(amm::output_for(1000, 1000, 0), 0);
    assert_eq!(amm::output_for(0, 1000, 0), 0);
    assert_eq!(amm::net_input(0, 0), 0);
}

#[test]
fn withdrawal_of_no_shares_is_refused() {
    let pool = open_pool(30);
    assert_eq!(withdraw(&pool, &held(1000, 1000, 1000), 10, 0, 0, 0), Err(AmmError::ZeroAmount));
}

#[test]
fn deposit_above_either_cap_is_refused() {
    let pool = open_pool(30);
    let before = held(1100, 910, 1000);
    // 3 shares cost 4 of x and 3 of y
    assert_eq!(deposit(&pool, &before, 3, 3, 3), Err(AmmError::SlippageExceeded));
    assert_eq!(deposit(&pool, &before, 3, 4, 2), Err(AmmError::SlippageExceeded));
    assert_eq!(deposit(&pool, &before, 3, 0, 0), Err(AmmError::SlippageExceeded));
    assert!(deposit(&pool, &before, 3, 4, 3).is_ok());
    assert_eq!(before, held(1100, 910, 1000));
}

#[test]
fn deposit_that_costs_more_than_any_cap_is_refused() {
    let pool = open_pool(30);
    // u64::MAX shares at 3 of x per share cost more than 64 bits hold
    let before = held(3, 1, 1);
    assert_eq!(
        deposit(&pool, &before, u64::MAX, u64::MAX, u64::MAX),
        Err(AmmError::SlippageExceeded)
    );
}

#[test]
fn swap_below_the_floor_is_refused() {
    let pool = open_pool(30);
    let before = held(1000, 1000, 1000);
    assert_eq!(swap(&pool, &before, true, 100, 91), Err(AmmError::SlippageExceeded));
    assert_eq!(swap(&pool, &before, true, 100, u64::MAX), Err(AmmError::SlippageExceeded));
    assert_eq!(swap(&pool, &before, true, 100, 90).unwrap().amount_out, 90);
    assert_eq!(before, held(1000, 1000, 1000));
}

#[test]
fn slippage_is_reported_before_missing_liquidity() {
    let pool = open_pool(30);
    assert_eq!(swap(&pool, &Reserves::empty(), true, 100, 1), Err(AmmError::SlippageExceeded));
}

#[test]
fn withdrawal_below_either_floor_is_refused() {
    let pool = open_pool(30);
    let before = held(1100, 910, 1000);
    assert_eq!(withdraw(&pool, &before, 500, 500, 551, 0), Err(AmmError::SlippageExceeded));
    assert_eq!(withdraw(&pool, &before, 500, 500, 0, 456), Err(AmmError::SlippageExceeded));
    assert!(withdraw(&pool, &before, 500, 500, 550, 455).is_ok());
    assert_eq!(before, held(1100, 910, 1000));
}

#[test]
fn swap_against_an_empty_pool_finds_no_liquidity() {
    let pool = open_pool(30);
    assert_eq!(
        swap(&pool, &Reserves::empty(), true, 100, 0),
        Err(AmmError::InsufficientLiquidity)
    );
    assert_eq!(
        swap(&pool, &Reserves::empty(), false, 100, 0),
        Err(AmmError::InsufficientLiquidity)
    );
}

#[test]
fn swap_that_would_drain_the_output_finds_no_liquidity() {
    let pool = open_pool(0);
    // nothing on the input side: any input would buy the whole output reserve
    assert_eq!(swap(&pool, &held(0, 500, 10), true, 1, 0), Err(AmmError::InsufficientLiquidity));
    assert_eq!(swap(&pool, &held(500, 0, 10), true, 1, 0), Err(AmmError::InsufficientLiquidity));
}

#[test]
fn withdrawal_of_more_than_held_is_refused() {
    let pool = open_pool(30);
    let before = held(1100, 910, 1000);
    assert_eq!(withdraw(&pool, &before, 499, 500, 0, 0), Err(AmmError::InsufficientShares));
    assert_eq!(withdraw(&pool, &before, 0, 1, 0, 0), Err(AmmError::InsufficientShares));
    assert!(withdraw(&pool, &before, 500, 500, 0, 0).is_ok());
}

#[test]
fn withdrawal_of_more_than_exist_is_refused() {
    let pool = open_pool(30);
    assert_eq!(
        withdraw(&pool, &held(1100, 910, 1000), 2000, 1001, 0, 0),
        Err(AmmError::InsufficientShares)
    );
    assert_eq!(
        withdraw(&pool, &Reserves::empty(), 5, 5, 0, 0),
        Err(AmmError::InsufficientShares)
    );
}

#[test]
fn swap_that_overfills_the_input_vault_overflows() {
    let pool = open_pool(30);
    let before = held(u64::MAX - 5, 1000, 1000);
    assert_eq!(swap(&pool, &before, true, 6, 0), Err(AmmError::ArithmeticOverflow));
    let plan = swap(&pool, &before, true, 5, 0).unwrap();
    assert_eq!(plan.reserves_after.reserve_x, u64::MAX);
    assert_eq!(plan.amount_out, 0);
}

#[test]
fn deposit_that_overfills_a_vault_overflows() {
    let pool = open_pool(30);
    let before = held(u64::MAX - 5, 1000, u64::MAX - 5);
    // 6 shares cost 6 of x and 1 of y
    assert_eq!(deposit(&pool, &before, 6, 6, 1), Err(AmmError::ArithmeticOverflow));
    let plan = deposit(&pool, &before, 5, 5, 1).unwrap();
    assert_eq!(plan.reserves_after, held(u64::MAX, 1001, u64::MAX));
}

#[test]
fn deposit_that_overfills_the_share_supply_overflows() {
    let pool = open_pool(30);
    let before = held(10, 10, u64::MAX);
    assert_eq!(deposit(&pool, &before, 1, 1, 1), Err(AmmError::ArithmeticOverflow));
}

#[test]
fn locked_is_reported_first() {
    let owner = id(5);
    let pool = initialize(id(1), id(2), 7, 30, Some(owner)).unwrap();
    let locked = amm::set_locked(&pool, owner, true).unwrap();
    assert_eq!(deposit(&locked, &Reserves::empty(), 0, 0, 0), Err(AmmError::Locked));
    assert_eq!(swap(&locked, &Reserves::empty(), true, 0, 9), Err(AmmError::Locked));
    assert_eq!(withdraw(&locked, &Reserves::empty(), 0, 0, 9, 9), Err(AmmError::Locked));
}
