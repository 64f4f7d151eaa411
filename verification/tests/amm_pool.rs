use horizon_contracts::addr::Addr;
use horizon_contracts::amm_pool::AmmPoolV2;
use horizon_contracts::error::ContractError;

fn addr(s: &str) -> Addr {
    Addr::new(s.as_bytes().to_vec())
}

fn strkey(a: &soroban_sdk::Address) -> Addr {
    let s = a.to_string();
    let mut buf = vec![0u8; s.len() as usize];
    s.copy_into_slice(&mut buf);
    Addr::new(buf)
}

/// A pool over two fresh token addresses, with the tokens in the pool's order.
fn setup_pool() -> (AmmPoolV2, Addr, Addr) {
    let env = soroban_sdk::Env::default();
    let t1 = <soroban_sdk::Address as soroban_sdk::testutils::Address>::generate(&env);
    let t2 = <soroban_sdk::Address as soroban_sdk::testutils::Address>::generate(&env);
    let pool = AmmPoolV2::initialize(strkey(&t1), strkey(&t2)).unwrap();
    let (a, b) = (pool.token_a.duplicate(), pool.token_b.duplicate());
    (pool, a, b)
}

#[test]
fn tokens_follow_the_host_address_order() {
    let env = soroban_sdk::Env::default();
    let t1 = <soroban_sdk::Address as soroban_sdk::testutils::Address>::generate(&env);
    let t2 = <soroban_sdk::Address as soroban_sdk::testutils::Address>::generate(&env);
    let (first, second) = if t1 < t2 { (&t1, &t2) } else { (&t2, &t1) };
    for (x, y) in [(&t1, &t2), (&t2, &t1)] {
        let pool = AmmPoolV2::initialize(strkey(x), strkey(y)).unwrap();
        assert_eq!(pool.token_a.bytes, strkey(first).bytes);
        assert_eq!(pool.token_b.bytes, strkey(second).bytes);
    }
    // An account comes before a contract, whatever their strkeys' letters.
    let account = Addr::new(b"GAAZI4TCR3TY5OJHCTJC2A4QSY6CJWJH5IAJTGKIN2ER7LBNVKOCCWN7".to_vec());
    let contract = strkey(&t1);
    let pool = AmmPoolV2::initialize(contract.duplicate(), account.duplicate()).unwrap();
    assert_eq!(pool.token_a.bytes, account.bytes);
    assert_eq!(AmmPoolV2::initialize(addr("TOKEN_A"), addr("TOKEN_B")).err(), Some(ContractError::InvalidAddress));
}

#[test]
fn test_add_liquidity_and_spot_price() {
    let (mut pool, _a, _b) = setup_pool();
    pool.add_liquidity(0, 1000, 2000).unwrap();
    assert_eq!(pool.reserve_a, 1000);
    assert_eq!(pool.reserve_b, 2000);
    assert!(pool.lp_supply > 0);
    // Spot price of A in B = 2000 * 1e7 / 1000 = 20_000_000
    assert_eq!(pool.get_spot_price().unwrap(), 20_000_000);
}

#[test]
fn test_swap_emits_price_impact() {
    let (mut pool, token_a, _b) = setup_pool();
    pool.add_liquidity(0, 1000, 1000).unwrap();
    let out = pool.swap(&token_a, 100, 80).unwrap();
    assert!(out.amount_out >= 80);
    assert_eq!(pool.volume_a, 100);
    assert!(pool.volume_b > 0);
    assert_eq!(pool.swap_count, 1);
}

#[test]
fn test_multiple_swaps_accumulate_volume() {
    let (mut pool, token_a, _b) = setup_pool();
    pool.add_liquidity(0, 5000, 5000).unwrap();
    pool.swap(&token_a, 100, 80).unwrap();
    pool.swap(&token_a, 100, 80).unwrap();
    pool.swap(&token_a, 100, 70).unwrap();
    assert_eq!(pool.swap_count, 3);
}

#[test]
fn test_remove_liquidity() {
    let (mut pool, _a, _b) = setup_pool();
    let added = pool.add_liquidity(0, 1000, 1000).unwrap();
    let removed = pool.remove_liquidity(added.new_lp_balance, added.lp_minted / 2).unwrap();
    assert!(removed.amount_a > 0);
    assert!(removed.amount_b > 0);
}

#[test]
fn swap_keeps_constant_product_from_falling() {
    let (mut pool, token_a, _b) = setup_pool();
    pool.add_liquidity(0, 1000, 1000).unwrap();
    let k_before = pool.reserve_a * pool.reserve_b;
    pool.swap(&token_a, 100, 0).unwrap();
    assert!(pool.reserve_a * pool.reserve_b >= k_before);
}

#[test]
fn sqrt_is_floor_square_root() {
    assert_eq!(AmmPoolV2::sqrt(0), 0);
    assert_eq!(AmmPoolV2::sqrt(1), 1);
    assert_eq!(AmmPoolV2::sqrt(15), 3);
    assert_eq!(AmmPoolV2::sqrt(16), 4);
    assert_eq!(AmmPoolV2::sqrt(2_000_000), 1414);
}

#[test]
fn pool_info_and_volume_getters() {
    let (mut pool, a, _b) = setup_pool();
    assert_eq!(pool.get_pool_info(), (0, 0, 0));
    pool.add_liquidity(0, 1000, 4000).unwrap();
    let (ra, rb, supply) = pool.get_pool_info();
    assert_eq!((ra, rb), (1000, 4000));
    assert_eq!(supply, 2000);
    pool.swap(&a, 100, 0).unwrap();
    let (va, vb, count) = pool.get_cumulative_volume();
    assert_eq!(va, 100);
    assert!(vb > 0);
    assert_eq!(count, 1);
    assert_eq!(AmmPoolV2::_spot_price(0, 5), Ok(0));
    assert_eq!(AmmPoolV2::_spot_price(2, 1), Ok(5_000_000));
}

#[test]
fn test_swap_slippage_guard() {
    let (mut pool, token_a, _b) = setup_pool();
    pool.add_liquidity(0, 1000, 1000).unwrap();
    // Require 99 out but only ~90 is possible.
    assert_eq!(pool.swap(&token_a, 100, 99).err(), Some(ContractError::SlippageLimitExceeded));
    assert_eq!((pool.reserve_a, pool.reserve_b), (1000, 1000));
}

#[test]
fn liquidity_success_and_error_boundaries() {
    let (mut pool, _a, _b) = setup_pool();
    // A first deposit whose product overflows is refused and changes nothing.
    assert_eq!(pool.add_liquidity(0, i128::MAX, 2).err(), Some(ContractError::Overflow));
    assert_eq!(pool.lp_supply, 0);
    let added = pool.add_liquidity(0, 1000, 4000).unwrap();
    assert_eq!((added.amount_a, added.amount_b, added.lp_minted), (1000, 4000, 2000));
    // Burning more than held is refused; burning a quarter pays a quarter.
    assert_eq!(pool.remove_liquidity(100, 200).err(), Some(ContractError::InsufficientLpBalance));
    let removed = pool.remove_liquidity(2000, 500).unwrap();
    assert_eq!((removed.amount_a, removed.amount_b, removed.new_lp_balance), (250, 1000, 1500));
}

#[test]
fn sole_provider_gets_its_deposit_back() {
    let (mut pool, _a, _b) = setup_pool();
    let added = pool.add_liquidity(0, 1234, 5678).unwrap();
    let removed = pool.remove_liquidity(added.new_lp_balance, added.lp_minted).unwrap();
    assert_eq!((removed.amount_a, removed.amount_b), (1234, 5678));
    assert_eq!(pool.get_pool_info(), (0, 0, 0));
    assert_eq!(removed.new_lp_balance, 0);
    assert_eq!(pool.remove_liquidity(0, 1).err(), Some(ContractError::InsufficientLpBalance));
}
