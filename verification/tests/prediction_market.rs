use horizon_contracts::addr::Addr;
use horizon_contracts::error::ContractError;
use horizon_contracts::prediction_market::{
    buy_shares, claim_payout, get_market_analysis, resolve_market, MarketInfo, MarketStatus, PredictionResolutionEngine,
};

/// A second copy of a stored market record.
fn copy(m: &MarketInfo) -> MarketInfo {
    MarketInfo {
        id: m.id,
        creator: m.creator.clone(),
        token: m.token.clone(),
        num_outcomes: m.num_outcomes,
        status: m.status,
        winning_outcome: m.winning_outcome,
        oracle: m.oracle.clone(),
        deadline: m.deadline,
        total_collateral: m.total_collateral,
    }
}

fn addr(s: &str) -> Addr {
    Addr::new(s.as_bytes().to_vec())
}

#[test]
fn test_market_lifecycle() {
    let mut engine = PredictionResolutionEngine::new();
    engine.initialize(addr("ADMIN")).unwrap();

    let deadline = 1000;
    let initial_liquidity = 1000;
    let (market, pool) = engine.create_market(addr("CREATOR"), addr("TOKEN"), 2, addr("ORACLE"), deadline, initial_liquidity, 0).unwrap();
    assert_eq!(market.id, 0);
    assert_eq!(pool, 500);
    let mut pools = vec![Some(pool), Some(pool)];

    let p = buy_shares(Some(market), 0, 500, 0, pools[0].unwrap(), 0).unwrap();
    assert_eq!(p.shares, 50_000);
    pools[0] = Some(p.new_reserve);
    let user_shares = p.new_user_shares;
    let market = p.market;

    let analysis = get_market_analysis(Some(copy(&market)), &pools).unwrap();
    assert_eq!(analysis.total_volume, initial_liquidity + 500);
    assert!(analysis.probabilities[0] > 6000);
    assert_eq!(analysis.probabilities[0], 6666);
    assert_eq!(analysis.probabilities[1], 3333);
    assert_eq!(analysis.depth[0], 1000);

    let (resolved, ev) = resolve_market(Some(market), 0).unwrap();
    assert_eq!(resolved.status, MarketStatus::Resolved);
    assert_eq!(ev.winning_outcome, 0);

    let payout = claim_payout(Some(resolved), Some(user_shares), pools[0].unwrap()).unwrap();
    assert!(payout > 500);
    assert_eq!(payout, 75_000);
}

#[test]
fn test_trade_after_deadline() {
    let mut engine = PredictionResolutionEngine::new();
    engine.initialize(addr("ADMIN")).unwrap();
    let (market, pool) = engine.create_market(addr("CREATOR"), addr("TOKEN"), 2, addr("ORACLE"), 100, 1000, 0).unwrap();
    assert!(matches!(buy_shares(Some(market), 0, 100, 200, pool, 0), Err(ContractError::MarketLocked)));
}

#[test]
fn market_creation_refusals() {
    let mut engine = PredictionResolutionEngine::new();
    engine.initialize(addr("ADMIN")).unwrap();
    assert!(matches!(engine.create_market(addr("C"), addr("T"), 1, addr("O"), 10, 10, 0), Err(ContractError::MinTwoOutcomes)));
    assert!(matches!(engine.create_market(addr("C"), addr("T"), 2, addr("O"), 10, 10, 10), Err(ContractError::InvalidDeadline)));
    assert!(matches!(engine.create_market(addr("C"), addr("T"), 2, addr("O"), 10, 0, 0), Err(ContractError::InitialLiquidityRequired)));
    assert_eq!(engine.market_count, 0);
    assert_eq!(engine.initialize(addr("ADMIN")), Err(ContractError::AlreadyInitialized));
}

#[test]
fn trading_and_claim_refusals() {
    let mut engine = PredictionResolutionEngine::new();
    engine.initialize(addr("ADMIN")).unwrap();
    let (m, _) = engine.create_market(addr("C"), addr("T"), 2, addr("O"), 100, 1000, 0).unwrap();
    assert!(matches!(buy_shares(Some(m), 2, 100, 0, 500, 0), Err(ContractError::InvalidOutcome)));
    let (m, _) = engine.create_market(addr("C"), addr("T"), 2, addr("O"), 100, 1000, 0).unwrap();
    assert!(matches!(buy_shares(Some(m), 0, 0, 0, 500, 0), Err(ContractError::AmountNotPositive)));
    assert!(matches!(buy_shares(None, 0, 1, 0, 500, 0), Err(ContractError::MarketNotFound)));
    let (m, _) = engine.create_market(addr("C"), addr("T"), 2, addr("O"), 100, 1000, 0).unwrap();
    assert!(matches!(claim_payout(Some(m), Some(5), 500), Err(ContractError::WrongMarketStatus)));
    let (m, _) = engine.create_market(addr("C"), addr("T"), 2, addr("O"), 100, 1000, 0).unwrap();
    let (r, _) = resolve_market(Some(m), 1).unwrap();
    assert!(matches!(claim_payout(Some(r), None, 500), Err(ContractError::NoSharesFound)));
    let (m, _) = engine.create_market(addr("C"), addr("T"), 2, addr("O"), 100, 1000, 0).unwrap();
    let (r, _) = resolve_market(Some(m), 1).unwrap();
    assert!(matches!(claim_payout(Some(r), Some(0), 500), Err(ContractError::NoWinningShares)));
    let (m, _) = engine.create_market(addr("C"), addr("T"), 2, addr("O"), 100, 1000, 0).unwrap();
    let (r, _) = resolve_market(Some(m), 1).unwrap();
    assert!(matches!(resolve_market(Some(r), 0), Err(ContractError::WrongMarketStatus)));
}
