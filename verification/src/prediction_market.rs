//! Prediction markets with virtual outcome pools: market creation with equal initial
//! pools, share purchases priced by the pool, oracle resolution, payouts and analysis.
use vstd::prelude::*;

use crate::addr::Addr;
use crate::error::{is_err, ContractError};
use crate::math::{c_add, c_div, c_mul, checked_div_spec, div_trunc, fits_i128};

verus! {

/// Lifecycle of a market.
#[derive(Clone, Copy, Debug, PartialEq, Eq, Structural)]
pub enum MarketStatus {
    Open,
    Resolved,
    Cancelled,
}

/// A market.
pub struct MarketInfo {
    pub id: u64,
    pub creator: Addr,
    pub token: Addr,
    pub num_outcomes: u32,
    pub status: MarketStatus,
    pub winning_outcome: u32,
    pub oracle: Addr,
    /// Trading closes at this timestamp.
    pub deadline: u64,
    pub total_collateral: i128,
}

/// Event: a market was resolved.
#[derive(Clone, Copy, Debug, PartialEq, Eq, Structural)]
pub struct MarketResolved {
    pub market_id: u64,
    pub winning_outcome: u32,
}

/// Implied probabilities (in bps) and pool depths of a market's outcomes.
pub struct MarketAnalysis {
    pub market_id: u64,
    pub total_volume: i128,
    pub probabilities: Vec<i128>,
    pub depth: Vec<i128>,
}

/// Outcome of a share purchase: the shares bought and the records to store.
pub struct Purchase {
    pub shares: i128,
    /// The outcome pool after the purchase.
    pub new_reserve: i128,
    /// The buyer's shares of the outcome after the purchase.
    pub new_user_shares: i128,
    pub market: MarketInfo,
}

/// The engine's instance state.
pub struct PredictionResolutionEngine {
    pub admin: Option<crate::addr::Addr>,
    /// Number of markets created (the next market's identifier).
    pub market_count: u64,
}

// ── Mathematical model ──────────────────────────────────────────────────────

/// `m2` is `m1` with possibly another status, winner and collateral.
pub open spec fn same_market(m1: MarketInfo, m2: MarketInfo) -> bool {
    &&& m2.id == m1.id
    &&& m2.creator@ == m1.creator@
    &&& m2.token@ == m1.token@
    &&& m2.num_outcomes == m1.num_outcomes
    &&& m2.oracle@ == m1.oracle@
    &&& m2.deadline == m1.deadline
}

/// Shares bought for `amount` tokens from a pool holding `reserve`:
/// amount·1000 / ((reserve + amount) / 100).
pub open spec fn shares_spec(reserve: int, amount: int) -> int {
    div_trunc(amount * 1000, div_trunc(reserve + amount, 100))
}

/// The purchase arithmetic can be carried out: no overflow and a non-zero divisor.
pub open spec fn purchase_ok(reserve: int, amount: int, total: int, prev: int) -> bool {
    &&& fits_i128(amount * 1000)
    &&& fits_i128(reserve + amount)
    &&& div_trunc(reserve + amount, 100) != 0
    &&& fits_i128(shares_spec(reserve, amount))
    &&& fits_i128(total + amount)
    &&& fits_i128(prev + shares_spec(reserve, amount))
}

/// Probability, in bps, of an outcome whose pool holds `reserve` of `total` collateral.
pub open spec fn probability_spec(reserve: int, total: int) -> int {
    div_trunc(reserve * 10000, total)
}

/// A stored pool, or 1 when none is stored.
pub open spec fn reserve_or_one(r: Option<i128>) -> int {
    match r { Some(v) => v as int, None => 1 }
}

// ── Executable functions ────────────────────────────────────────────────────

impl PredictionResolutionEngine {
    /// An engine that was never initialized.
    pub fn new() -> (r: PredictionResolutionEngine)
        ensures
            r.admin is None,
            r.market_count == 0,
    {
        PredictionResolutionEngine { admin: None, market_count: 0 }
    }

    /// Sets the admin, once.
    pub fn initialize(&mut self, admin: Addr) -> (r: Result<(), ContractError>)
        ensures
            old(self).admin is Some <==> is_err(r, ContractError::AlreadyInitialized),
            r is Ok ==> (final(self).admin matches Some(a) && a@ == admin@) && final(self).market_count == 0,
            r is Err ==> final(self).market_count == old(self).market_count,
    {
        if self.admin.is_some() {
            return Err(ContractError::AlreadyInitialized);
        }
        self.admin = Some(admin);
        self.market_count = 0;
        Ok(())
    }

    /// Creates the next market, funded with `initial_liquidity` split equally over the
    /// outcome pools. Needs at least two outcomes, a future deadline and positive liquidity.
    /// Returns the market and the initial pool of each outcome.
    pub fn create_market(&mut self, creator: Addr, token: Addr, num_outcomes: u32, oracle: Addr, deadline: u64,
        initial_liquidity: i128, now: u64) -> (r: Result<(MarketInfo, i128), ContractError>)
        ensures
            num_outcomes < 2 ==> is_err(r, ContractError::MinTwoOutcomes),
            (num_outcomes >= 2 && deadline <= now) ==> is_err(r, ContractError::InvalidDeadline),
            (num_outcomes >= 2 && deadline > now && initial_liquidity <= 0) ==> is_err(r, ContractError::InitialLiquidityRequired),
            (num_outcomes >= 2 && deadline > now && initial_liquidity > 0 && old(self).market_count < u64::MAX) <==> r is Ok,
            r matches Ok((m, pool)) ==> {
                &&& m.id == old(self).market_count
                &&& final(self).market_count == m.id + 1
                &&& m.creator@ == creator@
                &&& m.token@ == token@
                &&& m.num_outcomes == num_outcomes
                &&& m.status == MarketStatus::Open
                &&& m.winning_outcome == 0
                &&& m.oracle@ == oracle@
                &&& m.deadline == deadline
                &&& m.total_collateral == initial_liquidity
                &&& pool == (initial_liquidity as int) / (num_outcomes as int)
            },
            r is Err ==> final(self).market_count == old(self).market_count,
    {
        if num_outcomes < 2 {
            return Err(ContractError::MinTwoOutcomes);
        }
        if deadline <= now {
            return Err(ContractError::InvalidDeadline);
        }
        if initial_liquidity <= 0 {
            return Err(ContractError::InitialLiquidityRequired);
        }
        if self.market_count == u64::MAX {
            return Err(ContractError::Overflow);
        }
        let market_id = self.market_count;
        self.market_count = market_id + 1;
        let share_per_outcome = initial_liquidity / (num_outcomes as i128);
        Ok((MarketInfo {
            id: market_id,
            creator,
            token,
            num_outcomes,
            status: MarketStatus::Open,
            winning_outcome: 0,
            oracle,
            deadline,
            total_collateral: initial_liquidity,
        }, share_per_outcome))
    }
}

/// Refuses unless the market has the expected status.
pub fn _require_status(market: &MarketInfo, expected: MarketStatus) -> (r: Result<(), ContractError>)
    ensures
        market.status != expected <==> is_err(r, ContractError::WrongMarketStatus),
        r is Ok <==> market.status == expected,
{
    if market.status != expected {
        return Err(ContractError::WrongMarketStatus);
    }
    Ok(())
}

/// Buys shares of `outcome` for `amount_tokens` while the market is open and before its
/// deadline. `reserve` is the outcome's pool and `prev_shares` the buyer's shares of it;
/// the pool and the market's collateral grow by the amount.
pub fn buy_shares(market: Option<MarketInfo>, outcome: u32, amount_tokens: i128, now: u64, reserve: i128, prev_shares: i128)
    -> (r: Result<Purchase, ContractError>)
    ensures
        market is None ==> is_err(r, ContractError::MarketNotFound),
        market matches Some(m) ==> {
            &&& m.status != MarketStatus::Open ==> is_err(r, ContractError::WrongMarketStatus)
            &&& (m.status == MarketStatus::Open && now >= m.deadline) ==> is_err(r, ContractError::MarketLocked)
            &&& (m.status == MarketStatus::Open && now < m.deadline && outcome >= m.num_outcomes)
                ==> is_err(r, ContractError::InvalidOutcome)
            &&& (m.status == MarketStatus::Open && now < m.deadline && outcome < m.num_outcomes && amount_tokens <= 0)
                ==> is_err(r, ContractError::AmountNotPositive)
            &&& (m.status == MarketStatus::Open && now < m.deadline && outcome < m.num_outcomes && amount_tokens > 0
                && purchase_ok(reserve as int, amount_tokens as int, m.total_collateral as int, prev_shares as int)) <==> r is Ok
            &&& r matches Ok(p) ==> {
                &&& p.shares == shares_spec(reserve as int, amount_tokens as int)
                &&& p.new_reserve == reserve + amount_tokens
                &&& p.new_user_shares == prev_shares + p.shares
                &&& same_market(m, p.market)
                &&& p.market.status == m.status
                &&& p.market.winning_outcome == m.winning_outcome
                &&& p.market.total_collateral == m.total_collateral + amount_tokens
            }
        },
{
    let m = match market {
        None => return Err(ContractError::MarketNotFound),
        Some(m) => m,
    };
    _require_status(&m, MarketStatus::Open)?;
    if now >= m.deadline {
        return Err(ContractError::MarketLocked);
    }
    if outcome >= m.num_outcomes {
        return Err(ContractError::InvalidOutcome);
    }
    if amount_tokens <= 0 {
        return Err(ContractError::AmountNotPositive);
    }
    let scaled = c_mul(amount_tokens, 1000)?;
    let new_reserve = c_add(reserve, amount_tokens)?;
    let divisor = c_div(new_reserve, 100)?;
    let shares = c_div(scaled, divisor)?;
    let total = c_add(m.total_collateral, amount_tokens)?;
    let new_user_shares = c_add(prev_shares, shares)?;
    Ok(Purchase {
        shares,
        new_reserve,
        new_user_shares,
        market: MarketInfo {
            id: m.id,
            creator: m.creator,
            token: m.token,
            num_outcomes: m.num_outcomes,
            status: m.status,
            winning_outcome: m.winning_outcome,
            oracle: m.oracle,
            deadline: m.deadline,
            total_collateral: total,
        },
    })
}

/// The oracle resolves an open market in favour of `winning_outcome`.
pub fn resolve_market(market: Option<MarketInfo>, winning_outcome: u32) -> (r: Result<(MarketInfo, MarketResolved), ContractError>)
    ensures
        market is None ==> is_err(r, ContractError::MarketNotFound),
        market matches Some(m) ==> {
            &&& m.status != MarketStatus::Open ==> is_err(r, ContractError::WrongMarketStatus)
            &&& (m.status == MarketStatus::Open && winning_outcome >= m.num_outcomes) ==> is_err(r, ContractError::InvalidOutcome)
            &&& (m.status == MarketStatus::Open && winning_outcome < m.num_outcomes) <==> r is Ok
            &&& r matches Ok((n, ev)) ==> same_market(m, n) && n.status == MarketStatus::Resolved
                && n.winning_outcome == winning_outcome && n.total_collateral == m.total_collateral
                && ev == (MarketResolved { market_id: m.id, winning_outcome })
        },
{
    let m = match market {
        None => return Err(ContractError::MarketNotFound),
        Some(m) => m,
    };
    _require_status(&m, MarketStatus::Open)?;
    if winning_outcome >= m.num_outcomes {
        return Err(ContractError::InvalidOutcome);
    }
    let id = m.id;
    Ok((MarketInfo {
        id: m.id,
        creator: m.creator,
        token: m.token,
        num_outcomes: m.num_outcomes,
        status: MarketStatus::Resolved,
        winning_outcome,
        oracle: m.oracle,
        deadline: m.deadline,
        total_collateral: m.total_collateral,
    }, MarketResolved { market_id: id, winning_outcome }))
}

/// Pays out a user's winning shares of a resolved market: shares × collateral / winning
/// pool. `winning_shares` is the user's share count of the winning outcome (`None` when the
/// user never bought) and `winning_pool` that outcome's pool; the shares are then spent.
pub fn claim_payout(market: Option<MarketInfo>, winning_shares: Option<i128>, winning_pool: i128) -> (r: Result<i128, ContractError>)
    ensures
        market is None ==> is_err(r, ContractError::MarketNotFound),
        market matches Some(m) ==> {
            &&& m.status != MarketStatus::Resolved ==> is_err(r, ContractError::WrongMarketStatus)
            &&& (m.status == MarketStatus::Resolved && winning_shares is None) ==> is_err(r, ContractError::NoSharesFound)
            &&& (m.status == MarketStatus::Resolved && winning_shares == Some(0i128)) ==> is_err(r, ContractError::NoWinningShares)
            &&& winning_shares matches Some(s) ==> (m.status == MarketStatus::Resolved && s != 0
                ==> r == checked_div_spec(s * m.total_collateral, winning_pool as int)
                    || (!fits_i128(s * m.total_collateral) && is_err(r, ContractError::Overflow)))
        },
{
    let m = match market {
        None => return Err(ContractError::MarketNotFound),
        Some(m) => m,
    };
    _require_status(&m, MarketStatus::Resolved)?;
    let s = match winning_shares {
        None => return Err(ContractError::NoSharesFound),
        Some(s) => s,
    };
    if s == 0 {
        return Err(ContractError::NoWinningShares);
    }
    c_div(c_mul(s, m.total_collateral)?, winning_pool)
}

/// Implied probability (bps) and depth of each outcome pool of a market; `reserves` holds the
/// stored pool of each outcome in order (`None` counts as 1).
pub fn get_market_analysis(market: Option<MarketInfo>, reserves: &Vec<Option<i128>>) -> (r: Result<MarketAnalysis, ContractError>)
    requires
        market matches Some(m) ==> reserves@.len() == m.num_outcomes,
    ensures
        market is None ==> is_err(r, ContractError::MarketNotFound),
        market matches Some(m) ==> analysis_spec(r, m, reserves@),
{
    match market {
        None => Err(ContractError::MarketNotFound),
        Some(m) => analyse(&m, reserves),
    }
}

/// What an analysis of market `m` over the pools `reserves` gives.
pub open spec fn analysis_spec(r: Result<MarketAnalysis, ContractError>, m: MarketInfo, reserves: Seq<Option<i128>>) -> bool {
    &&& ((forall|i: int| 0 <= i < reserves.len() ==> #[trigger] fits_i128(reserve_or_one(reserves[i]) * 10000))
        && m.total_collateral > 0) ==> r is Ok
    &&& r matches Ok(a) ==> {
        &&& a.market_id == m.id
        &&& a.total_volume == m.total_collateral
        &&& a.probabilities@.len() == reserves.len()
        &&& a.depth@.len() == reserves.len()
        &&& forall|i: int| 0 <= i < reserves.len() ==> {
            &&& #[trigger] a.depth@[i] == reserve_or_one(reserves[i])
            &&& a.probabilities@[i] == probability_spec(reserve_or_one(reserves[i]), m.total_collateral as int)
        }
    }
}

fn analyse(m: &MarketInfo, reserves: &Vec<Option<i128>>) -> (r: Result<MarketAnalysis, ContractError>)
    ensures
        analysis_spec(r, *m, reserves@),
{
    let mut probabilities: Vec<i128> = Vec::new();
    let mut depth: Vec<i128> = Vec::new();
    let n = reserves.len();
    let mut i: usize = 0;
    while i < n
        invariant
            i <= n,
            n == reserves@.len(),
            probabilities@.len() == i,
            depth@.len() == i,
            forall|k: int| 0 <= k < i ==> {
                &&& #[trigger] depth@[k] == reserve_or_one(reserves@[k])
                &&& probabilities@[k] == probability_spec(reserve_or_one(reserves@[k]), m.total_collateral as int)
            },
        decreases n - i,
    {
        let reserve = match reserves[i] {
            Some(v) => v,
            None => 1,
        };
        assert(reserve == reserve_or_one(reserves@[i as int]));
        let scaled = match c_mul(reserve, 10000) {
            Ok(v) => v,
            Err(e) => {
                assert(!fits_i128(reserve_or_one(reserves@[i as int]) * 10000));
                return Err(e);
            },
        };
        let prob = match c_div(scaled, m.total_collateral) {
            Ok(v) => v,
            Err(e) => {
                return Err(e);
            },
        };
        probabilities.push(prob);
        depth.push(reserve);
        i += 1;
    }
    Ok(MarketAnalysis { market_id: m.id, total_volume: m.total_collateral, probabilities, depth })
}

// ── Laws ────────────────────────────────────────────────────────────────────

/// A purchase from a pool that, with the amount, holds at least 100 tokens never yields a
/// negative number of shares nor more than 200_000.
pub proof fn lemma_shares_bounded(reserve: int, amount: int)
    requires
        reserve >= 0,
        amount > 0,
        reserve + amount >= 100,
    ensures
        0 <= shares_spec(reserve, amount) <= 200_000,
{
    let t = reserve + amount;
    let d = t / 100;
    assert(d >= 1 && 200 * d >= t) by (nonlinear_arith) requires t >= 100, d == t / 100;
    assert(amount * 1000 >= 0) by (nonlinear_arith) requires amount > 0;
    assert(0 <= (amount * 1000) / d <= 200_000) by (nonlinear_arith)
        requires d >= 1, 200 * d >= t, 0 < amount <= t;
}

} // verus!
