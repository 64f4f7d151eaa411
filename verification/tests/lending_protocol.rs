use horizon_contracts::addr::Addr;
use horizon_contracts::error::ContractError;
use horizon_contracts::lending_protocol::{accumulate_interest, get_user_state, LendingProtocol, UserState};

fn addr(s: &str) -> Addr {
    Addr::new(s.as_bytes().to_vec())
}

fn protocol(rate: i128, price: i128) -> LendingProtocol {
    LendingProtocol::initialize(addr("ADMIN"), addr("COL"), addr("LOAN"), rate, 150, 110, price)
}

#[test]
fn test_lending_lifecycle() {
    let p = protocol(500_000, 10_000_000);
    let mut user_col_balance: i128 = 2000;
    let mut user_loan_balance: i128 = 0;

    let s = p.deposit_collateral(None, 1500, 0).unwrap();
    user_col_balance -= 1500;
    assert_eq!(s.collateral, 1500);
    assert_eq!(user_col_balance, 500);

    let price = p.current_price(None);
    let s = p.borrow(Some(s), 800, 0, price).unwrap();
    user_loan_balance += 800;
    assert_eq!(s.debt, 800);
    assert_eq!(user_loan_balance, 800);

    let (s, repaid) = p.repay(Some(s), 300, 0).unwrap();
    user_loan_balance -= repaid;
    assert_eq!(s.debt, 500);
    assert_eq!(user_loan_balance, 500);

    // Up to 1000 may be owed against 1500 of collateral at 150%: 500 + 600 is too much.
    assert_eq!(p.borrow(Some(s), 600, 0, price), Err(ContractError::InsufficientCollateral));
}

#[test]
fn test_liquidation() {
    let mut p = protocol(0, 10_000_000);
    let s = p.deposit_collateral(None, 1000, 0).unwrap();
    let s = p.borrow(Some(s), 600, 0, p.current_price(None)).unwrap();

    p.set_price(&addr("ADMIN"), 6_000_000).unwrap();
    let l = p.liquidate(Some(s), 0, p.current_price(None)).unwrap();
    assert_eq!(l.state.debt, 0);
    assert_eq!(l.state.collateral, 0);
    assert_eq!(l.collateral_seized, 1000);
    assert_eq!(l.debt_paid, 600);
}

#[test]
fn interest_accrues_over_a_year() {
    // 10% a year on 1000 for one year (31_536_000 s) is 100.
    let mut s = UserState { collateral: 0, debt: 1000, last_update: 0 };
    accumulate_interest(&mut s, 31_536_000, 10).unwrap();
    assert_eq!(s.debt, 1100);
    assert_eq!(s.last_update, 31_536_000);
    let fresh = get_user_state(None, 7);
    assert_eq!(fresh, UserState { collateral: 0, debt: 0, last_update: 7 });
}

#[test]
fn healthy_positions_are_not_liquidated() {
    let p = protocol(0, 10_000_000);
    let s = UserState { collateral: 1000, debt: 600, last_update: 0 };
    assert_eq!(p.liquidate(Some(s), 0, 10_000_000), Err(ContractError::NotEligibleForLiquidation));
    assert_eq!(p.deposit_collateral(None, 0, 0), Err(ContractError::AmountNotPositive));
    let (after, repaid) = p.repay(Some(s), 1000, 0).unwrap();
    assert_eq!(repaid, 600);
    assert_eq!(after.debt, 0);
}

#[test]
fn user_info_defaults_to_empty_position() {
    let p = protocol(0, 1);
    assert_eq!(p.get_user_info(None, 5), UserState { collateral: 0, debt: 0, last_update: 5 });
    let s = UserState { collateral: 3, debt: 2, last_update: 1 };
    assert_eq!(p.get_user_info(Some(s), 5), s);
}

#[test]
fn price_feed_overrides_stored_price() {
    let mut p = protocol(0, 10_000_000);
    assert_eq!(p.set_price(&addr("OTHER"), 1), Err(ContractError::Unauthorized));
    assert_eq!(p.current_price(Some(5)), 10_000_000);
    p.set_price_feed(&addr("ADMIN"), addr("FEED")).unwrap();
    assert_eq!(p.current_price(Some(5)), 5);
    assert_eq!(p.current_price(None), 10_000_000);
}
