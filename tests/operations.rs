use amm::{AmmError, Config, Swap, Withdraw};

fn config(fee: u16, locked: bool) -> Config {
    Config {
        seed: 7,
        mint_x: [1; 32],
        mint_y: [2; 32],
        fee,
        locked,
        config_bump: 254,
        lp_bump: 253,
    }
}

fn swap_pool(vault_x: u64, vault_y: u64, locked: bool) -> Swap {
    Swap {
        config: config(30, locked),
        vault_x,
        vault_y,
        user_x: 50_000,
        user_y: 50_000,
    }
}

fn withdraw_pool(locked: bool) -> Withdraw {
    Withdraw {
        config: config(30, locked),
        vault_x: 1_000_000,
        vault_y: 2_000_000,
        user_x: 0,
        user_y: 0,
        user_lp: 5_000,
        lp_supply: 1_000_000,
    }
}

fn swap_balances(s: &Swap) -> (u64, u64, u64, u64) {
    (s.vault_x, s.vault_y, s.user_x, s.user_y)
}

fn withdraw_balances(w: &Withdraw) -> (u64, u64, u64, u64, u64, u64) {
    (w.vault_x, w.vault_y, w.user_x, w.user_y, w.user_lp, w.lp_supply)
}

#[test]
fn swap_example_slippage() {
    let mut pool = swap_pool(1_000_000, 1_000_000, false);
    assert_eq!(pool.quote(true, 1_000, 0), Ok(996));
    assert_eq!(pool.swap(true, 1_000, 997), Err(AmmError::SlippageExceeded));
    assert_eq!(swap_balances(&pool), (1_000_000, 1_000_000, 50_000, 50_000));
    assert_eq!(pool.swap(true, 1_000, 996), Ok(()));
    assert_eq!(swap_balances(&pool), (1_001_000, 999_004, 49_000, 50_996));
}

#[test]
fn swap_y_for_x() {
    let mut pool = swap_pool(1_000_000, 1_000_000, false);
    assert_eq!(pool.swap(false, 1_000, 996), Ok(()));
    assert_eq!(swap_balances(&pool), (999_004, 1_001_000, 50_996, 49_000));
}

#[test]
fn swap_zero_liquidity() {
    let mut pool = swap_pool(0, 1_000_000, false);
    assert_eq!(pool.swap(true, 1_000, 0), Err(AmmError::NoLiquidityInPool));
    assert_eq!(pool.swap(false, 1_000, 0), Err(AmmError::NoLiquidityInPool));
    assert_eq!(swap_balances(&pool), (0, 1_000_000, 50_000, 50_000));
}

#[test]
fn swap_zero_amount() {
    let mut pool = swap_pool(1_000_000, 1_000_000, false);
    assert_eq!(pool.swap(true, 0, 0), Err(AmmError::InvalidAmount));
    assert_eq!(swap_balances(&pool), (1_000_000, 1_000_000, 50_000, 50_000));
}

#[test]
fn swap_locked_pool() {
    let mut pool = swap_pool(1_000_000, 1_000_000, true);
    assert_eq!(pool.swap(true, 1_000, 0), Err(AmmError::PoolLocked));
    let mut empty = swap_pool(0, 0, true);
    assert_eq!(empty.swap(false, 5, 1_000), Err(AmmError::PoolLocked));
    assert_eq!(swap_balances(&pool), (1_000_000, 1_000_000, 50_000, 50_000));
}

#[test]
fn swap_caller_cannot_pay() {
    let mut pool = swap_pool(1_000_000, 1_000_000, false);
    assert_eq!(pool.swap(true, 60_000, 0), Err(AmmError::TransferFailure));
    assert_eq!(swap_balances(&pool), (1_000_000, 1_000_000, 50_000, 50_000));
}

#[test]
fn swap_output_account_full() {
    let mut pool = swap_pool(1_000_000, 1_000_000, false);
    pool.user_y = u64::MAX - 10;
    assert_eq!(pool.swap(true, 1_000, 0), Err(AmmError::TransferFailure));
    assert_eq!(swap_balances(&pool), (1_000_000, 1_000_000, 50_000, u64::MAX - 10));
}

#[test]
fn swap_keeps_vault_product() {
    let mut pool = swap_pool(3, 10, false);
    pool.config.fee = 0;
    assert_eq!(pool.swap(true, 5, 0), Ok(()));
    assert_eq!(swap_balances(&pool), (8, 4, 49_995, 50_006));
    assert!(8 * 4 >= 3 * 10);
}

#[test]
fn deposit_and_withdraw_tokens() {
    let mut pool = swap_pool(100, 200, false);
    assert_eq!(pool.deposit_tokens(false, 30), Ok(()));
    assert_eq!(swap_balances(&pool), (100, 230, 50_000, 49_970));
    assert_eq!(pool.withdraw_tokens(true, 40), Ok(()));
    assert_eq!(swap_balances(&pool), (60, 230, 50_040, 49_970));
    assert_eq!(pool.withdraw_tokens(true, 61), Err(AmmError::TransferFailure));
    assert_eq!(pool.deposit_tokens(true, 50_041), Err(AmmError::TransferFailure));
    assert_eq!(swap_balances(&pool), (60, 230, 50_040, 49_970));
}

#[test]
fn withdraw_example_slippage() {
    let mut pool = withdraw_pool(false);
    assert_eq!(pool.quote(100, 0, 0), Ok((100, 200)));
    assert_eq!(pool.withdraw(100, 0, 201), Err(AmmError::SlippageExceeded));
    assert_eq!(withdraw_balances(&pool), (1_000_000, 2_000_000, 0, 0, 5_000, 1_000_000));
    assert_eq!(pool.withdraw(100, 100, 200), Ok(()));
    assert_eq!(withdraw_balances(&pool), (999_900, 1_999_800, 100, 200, 4_900, 999_900));
}

#[test]
fn withdraw_zero_amount() {
    let mut pool = withdraw_pool(false);
    assert_eq!(pool.withdraw(0, 0, 0), Err(AmmError::InvalidAmount));
    assert_eq!(withdraw_balances(&pool), (1_000_000, 2_000_000, 0, 0, 5_000, 1_000_000));
}

#[test]
fn withdraw_locked_pool() {
    let mut pool = withdraw_pool(true);
    assert_eq!(pool.withdraw(100, 0, 0), Err(AmmError::PoolLocked));
    assert_eq!(withdraw_balances(&pool), (1_000_000, 2_000_000, 0, 0, 5_000, 1_000_000));
}

#[test]
fn withdraw_empty_supply() {
    let mut pool = withdraw_pool(false);
    pool.lp_supply = 0;
    assert_eq!(pool.withdraw(100, 0, 0), Err(AmmError::NoLiquidityInPool));
}

#[test]
fn withdraw_more_shares_than_held() {
    let mut pool = withdraw_pool(false);
    assert_eq!(pool.withdraw(6_000, 0, 0), Err(AmmError::TransferFailure));
    assert_eq!(withdraw_balances(&pool), (1_000_000, 2_000_000, 0, 0, 5_000, 1_000_000));
}

#[test]
fn withdraw_amount_out_of_range() {
    let mut pool = withdraw_pool(false);
    pool.lp_supply = 1;
    pool.user_lp = u64::MAX;
    assert_eq!(pool.withdraw(u64::MAX, 0, 0), Err(AmmError::ArithmeticOverflow));
    assert_eq!(withdraw_balances(&pool), (1_000_000, 2_000_000, 0, 0, u64::MAX, 1));
}

#[test]
fn withdraw_small_burn_is_not_truncated() {
    let mut pool = withdraw_pool(false);
    pool.lp_supply = 3;
    pool.user_lp = 1;
    assert_eq!(pool.withdraw(1, 333_333, 666_666), Ok(()));
    assert_eq!(withdraw_balances(&pool), (666_667, 1_333_334, 333_333, 666_666, 0, 2));
}

#[test]
fn withdraw_whole_supply() {
    let mut pool = withdraw_pool(false);
    pool.user_lp = 1_000_000;
    assert_eq!(pool.withdraw(1_000_000, 0, 0), Ok(()));
    assert_eq!(withdraw_balances(&pool), (0, 0, 1_000_000, 2_000_000, 0, 0));
}

#[test]
fn burn_lp_tokens_moves_supply() {
    let mut pool = withdraw_pool(false);
    assert_eq!(pool.burn_lp_tokens(1_000), Ok(()));
    assert_eq!(withdraw_balances(&pool), (1_000_000, 2_000_000, 0, 0, 4_000, 999_000));
    assert_eq!(pool.burn_lp_tokens(4_001), Err(AmmError::TransferFailure));
    assert_eq!(pool.withdraw_tokens(false, 2_000_001), Err(AmmError::TransferFailure));
    assert_eq!(pool.withdraw_tokens(false, 5), Ok(()));
    assert_eq!(withdraw_balances(&pool), (1_000_000, 1_999_995, 0, 5, 4_000, 999_000));
}
