use horizon_contracts::addr::Addr;
use horizon_contracts::bonding_curve::{calculate_buy_tokens, calculate_sell_return, get_current_price, BondingCurve, CurveConfig};
use horizon_contracts::error::ContractError;

fn addr(s: &str) -> Addr {
    Addr::new(s.as_bytes().to_vec())
}

fn setup(ratio: u32, base_price: i128) -> BondingCurve {
    let mut c = BondingCurve::new();
    c.initialize(addr("ADMIN"), CurveConfig { reserve_ratio: ratio, base_price, reserve_token: addr("RESERVE") }).unwrap();
    c
}

#[test]
fn test_initialization() {
    let c = setup(50, 100);
    assert_eq!(c.total_supply, 0);
    assert_eq!(c.reserve_balance, 0);
}

#[test]
fn test_buy_initial_tokens() {
    let mut c = setup(50, 100);
    let t = c.buy(0, 10_000).unwrap();
    assert_eq!(t.tokens, 100);
    assert_eq!(t.new_balance, 100);
    assert_eq!(c.total_supply, 100);
    assert_eq!(c.reserve_balance, 10_000);
}

#[test]
fn test_buy_sell_cycle() {
    let mut c = setup(50, 100);
    // Reserve-token balances of the user and of the curve contract.
    let mut user_reserve: i128 = 1_000_000;
    let mut curve_reserve: i128 = 0;
    let t = c.buy(0, 10_000).unwrap();
    user_reserve -= t.cost;
    curve_reserve += t.cost;
    assert_eq!(c.reserve_balance, curve_reserve);
    let initial_balance = user_reserve;
    let s = c.sell(t.new_balance, t.tokens).unwrap();
    // The refund must be paid from what the curve holds.
    assert!(s.cost <= curve_reserve);
    curve_reserve -= s.cost;
    user_reserve += s.cost;
    assert_eq!(s.new_balance, 0);
    assert_eq!(c.total_supply, 0);
    assert!(s.cost > 0);
    assert!(user_reserve > initial_balance);
    assert_eq!(c.reserve_balance, curve_reserve);
    assert!(c.reserve_balance >= 0);
    assert_eq!(s.cost, 10_000);
}

#[test]
fn test_price_increases_with_supply() {
    let mut c = setup(50, 100);
    c.buy(0, 10_000).unwrap();
    let price1 = c.get_price().unwrap();
    c.buy(0, 10_000).unwrap();
    let price2 = c.get_price().unwrap();
    assert!(price2 > price1);
}

#[test]
fn test_multiple_users() {
    let mut c = setup(50, 100);
    let t1 = c.buy(0, 10_000).unwrap();
    let t2 = c.buy(0, 5_000).unwrap();
    assert_eq!(t1.new_balance, t1.tokens);
    assert_eq!(t2.new_balance, t2.tokens);
    assert_eq!(c.total_supply, t1.tokens + t2.tokens);
}

#[test]
fn test_update_reserve_ratio() {
    let mut c = setup(50, 100);
    c.update_reserve_ratio(&addr("ADMIN"), 75).unwrap();
    assert_eq!(c.config.as_ref().unwrap().reserve_ratio, 75);
    assert_eq!(c.update_reserve_ratio(&addr("OTHER"), 60), Err(ContractError::Unauthorized));
    assert_eq!(c.update_reserve_ratio(&addr("ADMIN"), 101), Err(ContractError::InvalidReserveRatio));
}

#[test]
fn test_price_step_event_structure() {
    let mut c = setup(50, 100);
    let t = c.buy(0, 10_000).unwrap();
    // Price after the first purchase: 10_000 * 100 / (100 * 50).
    assert_eq!(t.new_price, 200);
    assert_eq!(t.total_supply, 100);
    assert_eq!(t.cost, 10_000);
}

#[test]
fn test_overflow_protection() {
    let mut c = setup(50, 1);
    c.buy(0, 100_000).unwrap();
    assert!(c.total_supply > 0);
    assert!(c.reserve_balance > 0);
}

#[test]
fn test_invalid_reserve_ratio() {
    let mut c = BondingCurve::new();
    let bad = CurveConfig { reserve_ratio: 0, base_price: 100, reserve_token: addr("R") };
    assert_eq!(c.initialize(addr("A"), bad), Err(ContractError::InvalidReserveRatio));
    assert!(c.admin.is_none());
}

#[test]
fn test_sell_more_than_balance() {
    let mut c = setup(50, 100);
    let t = c.buy(0, 10_000).unwrap();
    assert_eq!(c.sell(t.new_balance, 1_000).err(), Some(ContractError::InsufficientBalance));
    assert_eq!(c.total_supply, 100);
}

#[test]
fn bonding_curve_refusals() {
    let mut c = setup(50, 100);
    assert_eq!(c.buy(0, 0).err(), Some(ContractError::AmountNotPositive));
    assert_eq!(c.sell(10, 0).err(), Some(ContractError::TokensNotPositive));
    // A buy whose price after the trade overflows is refused and changes nothing.
    assert_eq!(c.buy(0, i128::MAX).err(), Some(ContractError::Overflow));
    assert_eq!((c.total_supply, c.reserve_balance), (0, 0));
    // Buying less than one token's price mints nothing and leaves no price to quote.
    let mut c = setup(50, 100);
    assert_eq!(c.buy(0, 50).err(), Some(ContractError::DivisionByZero));
}

#[test]
fn bonding_curve_formulas() {
    assert_eq!(calculate_buy_tokens(0, 0, 10_000, 50, 100), Ok(100));
    assert_eq!(calculate_buy_tokens(100, 10_000, 10_000, 50, 100), Ok(50));
    assert_eq!(calculate_sell_return(100, 10_000, 100, 50), Ok(10_000));
    assert_eq!(calculate_sell_return(100, 10_000, 10, 50), Ok(2_000));
    assert_eq!(calculate_sell_return(100, 10_000, 100, 100), Ok(10_000));
    assert_eq!(get_current_price(150, 20_000, 50), Ok(266));
    assert_eq!(get_current_price(0, 20_000, 50), Err(ContractError::DivisionByZero));
}
