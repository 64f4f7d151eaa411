use horizon_contracts::addr::Addr;
use horizon_contracts::dividend_distribution::{get_epoch_report, DividendDistributionContract, StakeEntry};
use horizon_contracts::error::ContractError;

fn addr(s: &str) -> Addr {
    Addr::new(s.as_bytes().to_vec())
}

/// The snapshot the contract takes of the staking positions: two stakers of 500 tokens.
fn snapshot() -> Vec<StakeEntry> {
    vec![StakeEntry { staker: addr("USER1"), staked: 500_000_000 }, StakeEntry { staker: addr("USER2"), staked: 500_000_000 }]
}

fn setup() -> DividendDistributionContract {
    let mut c = DividendDistributionContract::new();
    c.initialize(addr("ADMIN"), addr("STAKING"), addr("TOKEN"), 86400, 1_000_000_000).unwrap();
    c
}

#[test]
fn test_dividend_distribution() {
    let mut c = setup();
    let epoch = c.start_new_epoch(&addr("ADMIN"), 0, 1_000_000_000).unwrap();
    assert_eq!(epoch.epoch_id, 1);
    let calc = c.calculate_dividends(1, Some(epoch), &snapshot()).unwrap();
    assert!(!calc.dividends.is_empty());
    assert_eq!(calc.dividends[0].dividend_amount, 500_000_000);
    let stored = calc.stored_epoch.unwrap();
    assert_eq!(stored.total_dividends, 1_000_000_000);
    let n = calc.dividends.len();
    let d = c.distribute_dividends(Some(stored), Some(calc.dividends)).unwrap();
    assert_eq!(c.dividend_pool, 0);
    let (epoch_info, list) = get_epoch_report(Some(d.epoch), Some(d.payouts)).unwrap();
    assert_eq!(epoch_info.epoch_id, 1);
    assert!(epoch_info.distributed);
    assert_eq!(list.len(), n);
}

#[test]
fn test_process_epoch() {
    let mut c = setup();
    let epoch = c.start_new_epoch(&addr("ADMIN"), 0, 1_000_000_000).unwrap();
    let p = c.process_epoch(&addr("ADMIN"), 86401, Some(epoch), &snapshot(), None).unwrap().unwrap();
    let (epoch_info, _) = get_epoch_report(Some(p.distribution.epoch), None).unwrap();
    assert!(epoch_info.distributed);
}

#[test]
fn epoch_processing_waits_for_the_end() {
    let mut c = setup();
    let epoch = c.start_new_epoch(&addr("ADMIN"), 0, 1_000_000_000).unwrap();
    assert!(c.process_epoch(&addr("ADMIN"), 86399, Some(epoch), &snapshot(), None).unwrap().is_none());
    assert_eq!(c.process_epoch(&addr("OTHER"), 86401, Some(epoch), &snapshot(), None).err(), Some(ContractError::Unauthorized));
}

#[test]
fn dividends_are_pro_rata_and_skip_empty_stakes() {
    let mut c = setup();
    let epoch = c.start_new_epoch(&addr("ADMIN"), 0, 3).unwrap();
    let snap = vec![
        StakeEntry { staker: addr("A"), staked: 1 },
        StakeEntry { staker: addr("B"), staked: 0 },
        StakeEntry { staker: addr("C"), staked: 2 },
    ];
    let calc = c.calculate_dividends(1, Some(epoch), &snap).unwrap();
    assert_eq!(calc.dividends.len(), 2);
    assert_eq!(calc.dividends[0].dividend_amount, 333_333_333);
    assert_eq!(calc.dividends[1].dividend_amount, 666_666_666);
    let stored = calc.stored_epoch.unwrap();
    assert_eq!(stored.total_dividends, 999_999_999);
    let d = c.distribute_dividends(Some(stored), Some(calc.dividends)).unwrap();
    assert_eq!(d.new_pool, 1);
    assert_eq!(c.distribute_dividends(Some(d.epoch), None).err(), Some(ContractError::AlreadyDistributed));
}
