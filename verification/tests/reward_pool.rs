use horizon_contracts::addr::Addr;
use horizon_contracts::error::ContractError;
use horizon_contracts::reward_pool::{claim, fund, get_node_info, get_uptime_ratio, NodeInfo, RewardPoolContract};

const SCALAR: i128 = 1_000_000;
const REWARD_PER_WINDOW: i128 = 10 * SCALAR;
const PENALTY_PER_WINDOW: i128 = 2 * SCALAR;

fn addr(s: &str) -> Addr {
    Addr::new(s.as_bytes().to_vec())
}

fn setup() -> RewardPoolContract {
    let pool = RewardPoolContract::initialize(addr("ADMIN"), addr("TOKEN"), REWARD_PER_WINDOW, PENALTY_PER_WINDOW).unwrap();
    assert_eq!(fund(500_000_000), Ok(500_000_000));
    pool
}

fn report(pool: &RewardPoolContract, info: Option<NodeInfo>, reported: u64, expected: u64) -> NodeInfo {
    pool.report(info, reported, expected, 0).unwrap().0
}

#[test]
fn test_report_and_claim_full_uptime() {
    let pool = setup();
    let info = report(&pool, None, 10, 10);
    assert_eq!(info.pending_rewards, 100);
    assert_eq!(info.windows_reported, 10);
    assert_eq!(info.windows_expected, 10);
    assert_eq!(get_uptime_ratio(Some(info)), Ok(SCALAR));
    let (after, claimed) = claim(Some(info)).unwrap();
    assert_eq!(claimed, 100);
    assert_eq!(after.pending_rewards, 0);
}

#[test]
fn test_report_with_missed_windows_applies_penalty() {
    let pool = setup();
    let info = report(&pool, None, 8, 10);
    assert_eq!(info.pending_rewards, 76);
    assert_eq!(get_uptime_ratio(Some(info)), Ok(800_000));
}

#[test]
fn test_penalty_cannot_make_rewards_negative() {
    let pool = setup();
    let info = report(&pool, None, 0, 10);
    assert_eq!(info.pending_rewards, 0);
}

#[test]
fn test_multiple_reports_accumulate() {
    let pool = setup();
    let info = report(&pool, None, 5, 5);
    let info = report(&pool, Some(info), 5, 5);
    assert_eq!(info.pending_rewards, 100);
    assert_eq!(info.windows_expected, 10);
    assert_eq!(info.windows_reported, 10);
}

#[test]
fn test_claim_with_no_rewards_panics() {
    let pool = setup();
    let info = report(&pool, None, 0, 5);
    assert_eq!(claim(Some(info)).err(), Some(ContractError::NoRewardsToClaim));
}

#[test]
fn test_report_more_than_expected_panics() {
    let pool = setup();
    assert_eq!(pool.report(None, 11, 10, 0).err(), Some(ContractError::WindowsReportedExceedExpected));
    assert_eq!(pool.report(None, 0, 0, 0).err(), Some(ContractError::WindowsExpectedZero));
}

#[test]
fn invalid_pool_parameters_are_refused() {
    assert_eq!(RewardPoolContract::initialize(addr("A"), addr("T"), 0, 1).err(), Some(ContractError::RewardPerWindowNotPositive));
    assert_eq!(RewardPoolContract::initialize(addr("A"), addr("T"), 1, -1).err(), Some(ContractError::PenaltyPerWindowNegative));
}

#[test]
fn penalty_does_not_take_back_earlier_rewards() {
    let pool = setup();
    let info = report(&pool, None, 10, 10);
    let info = report(&pool, Some(info), 0, 10);
    assert_eq!(info.pending_rewards, 100);
}

#[test]
fn node_info_lookup() {
    assert_eq!(get_node_info(None), Err(ContractError::NodeNotFound));
    let n = NodeInfo { windows_expected: 4, windows_reported: 3, pending_rewards: 7, last_report_ts: 9 };
    assert_eq!(get_node_info(Some(n)), Ok(n));
}
