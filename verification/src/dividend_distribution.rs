//! Epoch-based dividends: each epoch snapshots stakes, the pool is shared pro rata to the
//! positive stakes, and the distribution pays every holder and draws down the pool.
use vstd::prelude::*;

use crate::addr::{addr_eq, opt_view, Addr};
use crate::error::{is_err, ContractError};
use crate::math::{c_add, c_div, c_mul, c_sub, div_trunc, fits_i128, fits_u64};

verus! {

/// An epoch.
#[derive(Clone, Copy, Debug, PartialEq, Eq, Structural)]
pub struct EpochInfo {
    pub epoch_id: u64,
    pub start_ts: u64,
    pub end_ts: u64,
    pub total_staked: i128,
    pub total_dividends: i128,
    pub distributed: bool,
}

/// A holder's dividend for an epoch.
pub struct DividendInfo {
    pub user: Addr,
    pub staked_amount: i128,
    pub dividend_amount: i128,
    pub epoch_id: u64,
}

/// One staker of an epoch's snapshot.
pub struct StakeEntry {
    pub staker: Addr,
    pub staked: i128,
}

/// The result of a dividend calculation: the dividends, and the updated epoch when the
/// calculation is to be stored (it is not when there is no stake or no pool).
pub struct DividendCalculation {
    pub dividends: Vec<DividendInfo>,
    pub stored_epoch: Option<EpochInfo>,
}

/// The result of a distribution: the epoch marked distributed, the payouts to make and
/// the new pool.
pub struct Distribution {
    pub epoch: EpochInfo,
    pub payouts: Vec<DividendInfo>,
    pub new_pool: i128,
}

/// The result of processing the current epoch: the stored calculation, if one was made,
/// and the distribution.
pub struct EpochProcessing {
    pub calculation: DividendCalculation,
    pub distribution: Distribution,
}

/// The contract's instance state.
pub struct DividendDistributionContract {
    pub admin: Option<Addr>,
    pub staking_contract: Option<Addr>,
    pub dividend_token: Option<Addr>,
    /// Epoch length, in seconds.
    pub epoch_duration: u64,
    pub current_epoch: u64,
    /// Dividends available for distribution.
    pub dividend_pool: i128,
}

// ── Mathematical model ──────────────────────────────────────────────────────

/// Sum of the positive stakes of the first `n` entries.
pub open spec fn positive_stake_sum(entries: Seq<StakeEntry>, n: int) -> int
    decreases n,
{
    if n <= 0 {
        0
    } else {
        positive_stake_sum(entries, n - 1) + (if entries[n - 1].staked > 0 { entries[n - 1].staked as int } else { 0 })
    }
}

/// A holder's share of `pool`: pool · staked / total, rounded toward zero.
pub open spec fn dividend_spec(pool: int, staked: int, total: int) -> int {
    div_trunc(pool * staked, total)
}

/// Sum of the dividends of the positive stakes among the first `n` entries.
pub open spec fn dividends_sum(pool: int, total: int, entries: Seq<StakeEntry>, n: int) -> int
    decreases n,
{
    if n <= 0 {
        0
    } else {
        dividends_sum(pool, total, entries, n - 1)
            + (if entries[n - 1].staked > 0 { dividend_spec(pool, entries[n - 1].staked as int, total) } else { 0 })
    }
}

/// Every product pool · stake of the positive stakes among the first `n` entries, and
/// every running sum of their dividends, fits an `i128`.
pub open spec fn dividends_computable(pool: int, total: int, entries: Seq<StakeEntry>, n: int) -> bool
    decreases n,
{
    if n <= 0 {
        true
    } else {
        &&& dividends_computable(pool, total, entries, n - 1)
        &&& (entries[n - 1].staked > 0 ==> fits_i128(pool * entries[n - 1].staked)
            && fits_i128(dividends_sum(pool, total, entries, n)))
    }
}

/// The positive-stake entries among the first `n`, in order.
pub open spec fn positive_entries(entries: Seq<StakeEntry>, n: int) -> Seq<StakeEntry>
    decreases n,
{
    if n <= 0 {
        Seq::empty()
    } else if entries[n - 1].staked > 0 {
        positive_entries(entries, n - 1).push(entries[n - 1])
    } else {
        positive_entries(entries, n - 1)
    }
}

/// `d` lists, for each positive-stake entry in order, its holder, stake and dividend.
pub open spec fn dividends_match(d: Seq<DividendInfo>, pool: int, total: int, entries: Seq<StakeEntry>, epoch_id: u64) -> bool {
    let p = positive_entries(entries, entries.len() as int);
    &&& d.len() == p.len()
    &&& forall|k: int| 0 <= k < d.len() ==> {
        &&& (#[trigger] d[k]).user@ == p[k].staker@
        &&& d[k].staked_amount == p[k].staked
        &&& d[k].dividend_amount == dividend_spec(pool, p[k].staked as int, total)
        &&& d[k].epoch_id == epoch_id
    }
}

// ── Executable functions ────────────────────────────────────────────────────

impl DividendDistributionContract {
    /// A contract that was never initialized.
    pub fn new() -> (r: DividendDistributionContract)
        ensures
            r.admin is None,
            r.current_epoch == 0,
            r.dividend_pool == 0,
    {
        DividendDistributionContract { admin: None, staking_contract: None, dividend_token: None, epoch_duration: 0, current_epoch: 0, dividend_pool: 0 }
    }

    /// One-time setup; the initial pool is deposited by the admin.
    pub fn initialize(&mut self, admin: Addr, staking_contract: Addr, dividend_token: Addr, epoch_duration: u64, initial_dividend_pool: i128)
        -> (r: Result<(), ContractError>)
        ensures
            old(self).admin is Some <==> is_err(r, ContractError::AlreadyInitialized),
            r is Ok ==> opt_view(final(self).admin) == Some(admin@) && opt_view(final(self).dividend_token) == Some(dividend_token@)
                && opt_view(final(self).staking_contract) == Some(staking_contract@)
                && final(self).epoch_duration == epoch_duration && final(self).current_epoch == 0
                && final(self).dividend_pool == initial_dividend_pool,
            r is Err ==> final(self).current_epoch == old(self).current_epoch && final(self).dividend_pool == old(self).dividend_pool
                && opt_view(final(self).admin) == opt_view(old(self).admin),
    {
        if self.admin.is_some() {
            return Err(ContractError::AlreadyInitialized);
        }
        self.admin = Some(admin);
        self.staking_contract = Some(staking_contract);
        self.dividend_token = Some(dividend_token);
        self.epoch_duration = epoch_duration;
        self.current_epoch = 0;
        self.dividend_pool = initial_dividend_pool;
        Ok(())
    }

    /// Refuses unless `admin` is the admin.
    fn require_admin(&self, admin: &Addr) -> (r: Result<(), ContractError>)
        ensures
            self.admin is None ==> is_err(r, ContractError::NotInitialized),
            self.admin matches Some(a) ==> (a@ == admin@ <==> r is Ok),
            self.admin matches Some(a) ==> (a@ != admin@ <==> is_err(r, ContractError::Unauthorized)),
    {
        match &self.admin {
            None => Err(ContractError::NotInitialized),
            Some(a) => if addr_eq(a, admin) { Ok(()) } else { Err(ContractError::Unauthorized) },
        }
    }

    /// The admin starts the next epoch at `now`, lasting `epoch_duration`, over a stake
    /// snapshot totalling `total_staked`.
    pub fn start_new_epoch(&mut self, admin: &Addr, now: u64, total_staked: i128) -> (r: Result<EpochInfo, ContractError>)
        ensures
            old(self).admin is None ==> is_err(r, ContractError::NotInitialized),
            old(self).admin matches Some(a) ==> (a@ != admin@ ==> is_err(r, ContractError::Unauthorized)),
            ((old(self).admin matches Some(a) && a@ == admin@) && old(self).current_epoch < u64::MAX
                && fits_u64(now + old(self).epoch_duration)) <==> r is Ok,
            r matches Ok(e) ==> {
                &&& e == (EpochInfo { epoch_id: (old(self).current_epoch + 1) as u64, start_ts: now,
                    end_ts: (now + old(self).epoch_duration) as u64, total_staked, total_dividends: 0, distributed: false })
                &&& final(self).current_epoch == e.epoch_id
            },
            r is Err ==> final(self).current_epoch == old(self).current_epoch,
            final(self).dividend_pool == old(self).dividend_pool,
            opt_view(final(self).admin) == opt_view(old(self).admin),
            opt_view(final(self).dividend_token) == opt_view(old(self).dividend_token),
    {
        self.require_admin(admin)?;
        if self.current_epoch == u64::MAX {
            return Err(ContractError::Overflow);
        }
        let new_epoch_id = self.current_epoch + 1;
        let end_ts = match now.checked_add(self.epoch_duration) {
            Some(t) => t,
            None => return Err(ContractError::Overflow),
        };
        self.current_epoch = new_epoch_id;
        Ok(EpochInfo { epoch_id: new_epoch_id, start_ts: now, end_ts, total_staked, total_dividends: 0, distributed: false })
    }

    /// Dividends of an undistributed epoch: each positive stake of the snapshot gets
    /// pool · stake / total staked. With no stake or no pool nothing is computed nor stored.
    pub fn calculate_dividends(&self, epoch_id: u64, epoch: Option<EpochInfo>, snapshot: &Vec<StakeEntry>) -> (r: Result<DividendCalculation, ContractError>)
        ensures
            epoch is None ==> is_err(r, ContractError::EpochNotFound),
            epoch matches Some(e) ==> {
                &&& e.distributed ==> is_err(r, ContractError::DividendsAlreadyDistributed)
                &&& (!e.distributed && (e.total_staked <= 0 || self.dividend_pool <= 0)) ==> (r matches Ok(c)
                    && c.dividends@.len() == 0 && c.stored_epoch is None)
                &&& r matches Ok(c) ==> ((e.total_staked > 0 && self.dividend_pool > 0) ==> {
                    &&& dividends_match(c.dividends@, self.dividend_pool as int, e.total_staked as int, snapshot@, epoch_id)
                    &&& c.stored_epoch == Some(EpochInfo { total_dividends: dividends_sum(self.dividend_pool as int,
                        e.total_staked as int, snapshot@, snapshot@.len() as int) as i128, ..e })
                })
                &&& r matches Err(x) ==> x == ContractError::DividendsAlreadyDistributed || x == ContractError::Overflow
                &&& (!e.distributed && e.total_staked > 0 && self.dividend_pool > 0) ==> (dividends_computable(
                    self.dividend_pool as int, e.total_staked as int, snapshot@, snapshot@.len() as int) <==> r is Ok)
            },
    {
        let e = match epoch {
            None => return Err(ContractError::EpochNotFound),
            Some(e) => e,
        };
        if e.distributed {
            return Err(ContractError::DividendsAlreadyDistributed);
        }
        let total_staked = e.total_staked;
        if total_staked <= 0 {
            return Ok(DividendCalculation { dividends: Vec::new(), stored_epoch: None });
        }
        let dividend_pool = self.dividend_pool;
        if dividend_pool <= 0 {
            return Ok(DividendCalculation { dividends: Vec::new(), stored_epoch: None });
        }
        let (dividends, total_distributed) = compute_dividends(dividend_pool, total_staked, epoch_id, snapshot)?;
        Ok(DividendCalculation {
            dividends,
            stored_epoch: Some(EpochInfo { total_dividends: total_distributed, ..e }),
        })
    }

    /// Pays out the calculated dividends of an undistributed epoch: the epoch is marked
    /// distributed and the pool reduced by the epoch's total dividends.
    pub fn distribute_dividends(&mut self, epoch: Option<EpochInfo>, dividends: Option<Vec<DividendInfo>>) -> (r: Result<Distribution, ContractError>)
        ensures
            epoch is None ==> is_err(r, ContractError::EpochNotFound),
            epoch matches Some(e) ==> {
                &&& e.distributed ==> is_err(r, ContractError::AlreadyDistributed)
                &&& (!e.distributed && dividends is None) ==> is_err(r, ContractError::DividendsNotCalculated)
                &&& (!e.distributed && dividends is Some && old(self).dividend_token is None) ==> is_err(r, ContractError::NotInitialized)
                &&& (!e.distributed && dividends is Some && old(self).dividend_token is Some
                    && fits_i128(old(self).dividend_pool - e.total_dividends)) <==> r is Ok
                &&& r matches Ok(d) ==> {
                    &&& d.epoch == EpochInfo { distributed: true, ..e }
                    &&& d.new_pool == old(self).dividend_pool - e.total_dividends
                    &&& final(self).dividend_pool == d.new_pool
                    &&& Some(d.payouts) == dividends
                }
            },
            r is Err ==> final(self).dividend_pool == old(self).dividend_pool,
            final(self).current_epoch == old(self).current_epoch,
            opt_view(final(self).admin) == opt_view(old(self).admin),
            opt_view(final(self).dividend_token) == opt_view(old(self).dividend_token),
    {
        let e = match epoch {
            None => return Err(ContractError::EpochNotFound),
            Some(e) => e,
        };
        if e.distributed {
            return Err(ContractError::AlreadyDistributed);
        }
        let payouts = match dividends {
            None => return Err(ContractError::DividendsNotCalculated),
            Some(d) => d,
        };
        if self.dividend_token.is_none() {
            return Err(ContractError::NotInitialized);
        }
        let new_pool = c_sub(self.dividend_pool, e.total_dividends)?;
        self.dividend_pool = new_pool;
        Ok(Distribution { epoch: EpochInfo { distributed: true, ..e }, payouts, new_pool })
    }

    /// The admin processes the current epoch once it has ended and is undistributed: its
    /// dividends are calculated and distributed. `Ok(None)` when there is nothing to do.
    /// `stored_dividends` are the dividends stored for the epoch before, used when the
    /// calculation stores none.
    pub fn process_epoch(&mut self, admin: &Addr, now: u64, epoch: Option<EpochInfo>, snapshot: &Vec<StakeEntry>,
        stored_dividends: Option<Vec<DividendInfo>>) -> (r: Result<Option<EpochProcessing>, ContractError>)
        ensures
            old(self).admin is None ==> is_err(r, ContractError::NotInitialized),
            old(self).admin matches Some(a) ==> (a@ != admin@ ==> is_err(r, ContractError::Unauthorized)),
            ((old(self).admin matches Some(a) && a@ == admin@) && old(self).current_epoch == 0) ==> r matches Ok(None),
            ((old(self).admin matches Some(a) && a@ == admin@) && old(self).current_epoch != 0 && epoch is None)
                ==> is_err(r, ContractError::EpochNotFound),
            ((old(self).admin matches Some(a) && a@ == admin@) && old(self).current_epoch != 0
                && (epoch matches Some(e) && (e.distributed || now < e.end_ts))) ==> r matches Ok(None),
            r matches Ok(Some(p)) ==> (epoch matches Some(e) && !e.distributed && now >= e.end_ts
                && p.distribution.epoch.distributed && final(self).dividend_pool == p.distribution.new_pool
                && p.distribution.new_pool == old(self).dividend_pool - (match p.calculation.stored_epoch {
                    Some(c) => c.total_dividends, None => e.total_dividends }) as int),
            r matches Ok(Some(p)) ==> (p.calculation.stored_epoch is None ==> Some(p.distribution.payouts) == stored_dividends),
            r matches Ok(Some(p)) ==> (p.calculation.stored_epoch is Some ==> {
                let (d, c) = (p.distribution.payouts@, p.calculation.dividends@);
                &&& d.len() == c.len()
                &&& forall|k: int| 0 <= k < c.len() ==> (#[trigger] d[k]).user@ == c[k].user@
                    && d[k].staked_amount == c[k].staked_amount && d[k].dividend_amount == c[k].dividend_amount
                    && d[k].epoch_id == c[k].epoch_id
            }),
            ((old(self).admin matches Some(a) && a@ == admin@) && old(self).current_epoch != 0
                && (epoch matches Some(e) && !e.distributed && now >= e.end_ts)) ==> {
                let e = epoch.unwrap();
                let pool = old(self).dividend_pool as int;
                if e.total_staked > 0 && pool > 0 {
                    (dividends_computable(pool, e.total_staked as int, snapshot@, snapshot@.len() as int)
                        && old(self).dividend_token is Some
                        && fits_i128(pool - dividends_sum(pool, e.total_staked as int, snapshot@, snapshot@.len() as int)))
                        <==> r matches Ok(Some(_))
                } else {
                    (stored_dividends is Some && old(self).dividend_token is Some && fits_i128(pool - e.total_dividends))
                        <==> r matches Ok(Some(_))
                }
            },
            r is Err ==> final(self).dividend_pool == old(self).dividend_pool,
            final(self).current_epoch == old(self).current_epoch,
    {
        self.require_admin(admin)?;
        if self.current_epoch == 0 {
            return Ok(None);
        }
        let e = match epoch {
            None => return Err(ContractError::EpochNotFound),
            Some(e) => e,
        };
        if e.distributed || now < e.end_ts {
            return Ok(None);
        }
        let epoch_id = self.current_epoch;
        let calculation = self.calculate_dividends(epoch_id, Some(e), snapshot)?;
        let (epoch_now, dividends) = match &calculation.stored_epoch {
            Some(c) => (*c, Some(copy_dividends(&calculation.dividends))),
            None => (e, stored_dividends),
        };
        proof {
            if e.total_staked > 0 && self.dividend_pool > 0 && dividends_computable(self.dividend_pool as int,
                e.total_staked as int, snapshot@, snapshot@.len() as int) {
                lemma_computable_sum_fits(self.dividend_pool as int, e.total_staked as int, snapshot@, snapshot@.len() as int);
            }
        }
        let distribution = self.distribute_dividends(Some(epoch_now), dividends)?;
        Ok(Some(EpochProcessing { calculation, distribution }))
    }
}

/// Dividends of the positive stakes of a snapshot and their sum.
fn compute_dividends(dividend_pool: i128, total_staked: i128, epoch_id: u64, snapshot: &Vec<StakeEntry>) -> (r: Result<(Vec<DividendInfo>, i128), ContractError>)
    requires
        total_staked > 0,
    ensures
        r matches Ok((d, t)) ==> dividends_match(d@, dividend_pool as int, total_staked as int, snapshot@, epoch_id)
            && t == dividends_sum(dividend_pool as int, total_staked as int, snapshot@, snapshot@.len() as int),
        r matches Err(x) ==> x == ContractError::Overflow,
        dividends_computable(dividend_pool as int, total_staked as int, snapshot@, snapshot@.len() as int) <==> r is Ok,
{
    let mut dividends: Vec<DividendInfo> = Vec::new();
    let mut total_distributed: i128 = 0;
    let n = snapshot.len();
    let mut i: usize = 0;
    while i < n
        invariant
            i <= n,
            n == snapshot@.len(),
            total_staked > 0,
            total_distributed == dividends_sum(dividend_pool as int, total_staked as int, snapshot@, i as int),
            dividends_computable(dividend_pool as int, total_staked as int, snapshot@, i as int),
            dividends@.len() == positive_entries(snapshot@, i as int).len(),
            forall|k: int| 0 <= k < dividends@.len() ==> {
                let p = positive_entries(snapshot@, i as int);
                &&& (#[trigger] dividends@[k]).user@ == p[k].staker@
                &&& dividends@[k].staked_amount == p[k].staked
                &&& dividends@[k].dividend_amount == dividend_spec(dividend_pool as int, p[k].staked as int, total_staked as int)
                &&& dividends@[k].epoch_id == epoch_id
            },
        decreases n - i,
    {
        let entry = &snapshot[i];
        let ghost before = positive_entries(snapshot@, i as int);
        proof {
            if !dividends_computable(dividend_pool as int, total_staked as int, snapshot@, i + 1) {
                if dividends_computable(dividend_pool as int, total_staked as int, snapshot@, n as int) {
                    lemma_computable_prefix(dividend_pool as int, total_staked as int, snapshot@, i + 1, n as int);
                }
            }
            if entry.staked > 0 && fits_i128(dividend_pool * entry.staked) {
                lemma_div_fits(dividend_pool * entry.staked, total_staked as int);
            }
        }
        if entry.staked > 0 {
            let dividend = c_div(c_mul(dividend_pool, entry.staked)?, total_staked)?;
            dividends.push(DividendInfo { user: entry.staker.duplicate(), staked_amount: entry.staked, dividend_amount: dividend, epoch_id });
            total_distributed = c_add(total_distributed, dividend)?;
            proof {
                assert(positive_entries(snapshot@, i + 1) == before.push(snapshot@[i as int]));
            }
        } else {
            proof {
                assert(positive_entries(snapshot@, i + 1) == before);
            }
        }
        i += 1;
    }
    Ok((dividends, total_distributed))
}

/// Computability of the first `n` entries carries over to every shorter prefix.
proof fn lemma_computable_prefix(pool: int, total: int, entries: Seq<StakeEntry>, m: int, n: int)
    requires
        0 <= m <= n,
        dividends_computable(pool, total, entries, n),
    ensures
        dividends_computable(pool, total, entries, m),
    decreases n,
{
    if m < n {
        lemma_computable_prefix(pool, total, entries, m, n - 1);
    }
}

/// When the dividends of the first `n` entries are computable, their sum fits an `i128`.
proof fn lemma_computable_sum_fits(pool: int, total: int, entries: Seq<StakeEntry>, n: int)
    requires
        dividends_computable(pool, total, entries, n),
    ensures
        fits_i128(dividends_sum(pool, total, entries, n)),
    decreases n,
{
    if n > 0 && entries[n - 1].staked <= 0 {
        lemma_computable_sum_fits(pool, total, entries, n - 1);
    }
}

/// A quotient by a positive divisor is no larger in magnitude than the dividend.
proof fn lemma_div_fits(a: int, b: int)
    requires
        fits_i128(a),
        b > 0,
    ensures
        fits_i128(div_trunc(a, b)),
{
    if a >= 0 {
        assert(0 <= a / b <= a) by (nonlinear_arith) requires a >= 0, b > 0;
    } else {
        assert(0 <= (-a) / b <= -a) by (nonlinear_arith) requires -a > 0, b > 0;
    }
}

/// A copy of a list of dividends.
fn copy_dividends(d: &Vec<DividendInfo>) -> (r: Vec<DividendInfo>)
    ensures
        r@.len() == d@.len(),
        forall|k: int| 0 <= k < d@.len() ==> {
            &&& (#[trigger] r@[k]).user@ == d@[k].user@
            &&& r@[k].staked_amount == d@[k].staked_amount
            &&& r@[k].dividend_amount == d@[k].dividend_amount
            &&& r@[k].epoch_id == d@[k].epoch_id
        },
{
    let mut out: Vec<DividendInfo> = Vec::new();
    let n = d.len();
    let mut i: usize = 0;
    while i < n
        invariant
            i <= n,
            n == d@.len(),
            out@.len() == i,
            forall|k: int| 0 <= k < i ==> {
                &&& (#[trigger] out@[k]).user@ == d@[k].user@
                &&& out@[k].staked_amount == d@[k].staked_amount
                &&& out@[k].dividend_amount == d@[k].dividend_amount
                &&& out@[k].epoch_id == d@[k].epoch_id
            },
        decreases n - i,
    {
        let x = &d[i];
        out.push(DividendInfo { user: x.user.duplicate(), staked_amount: x.staked_amount, dividend_amount: x.dividend_amount, epoch_id: x.epoch_id });
        i += 1;
    }
    out
}

/// The report of an epoch: its record and its stored dividends (none when not calculated).
pub fn get_epoch_report(epoch: Option<EpochInfo>, dividends: Option<Vec<DividendInfo>>) -> (r: Result<(EpochInfo, Vec<DividendInfo>), ContractError>)
    ensures
        epoch is None ==> is_err(r, ContractError::EpochNotFound),
        epoch matches Some(e) ==> (r matches Ok((x, d)) && x == e
            && d@ == (match dividends { Some(v) => v@, None => Seq::<DividendInfo>::empty() })),
{
    let e = match epoch {
        None => return Err(ContractError::EpochNotFound),
        Some(e) => e,
    };
    let d = match dividends {
        Some(v) => v,
        None => Vec::new(),
    };
    Ok((e, d))
}

// ── Laws ────────────────────────────────────────────────────────────────────

proof fn lemma_floor_sum(a: int, b: int, t: int)
    requires
        a >= 0,
        b >= 0,
        t > 0,
    ensures
        a / t + b / t <= (a + b) / t,
{
    assert(a / t + b / t <= (a + b) / t) by (nonlinear_arith) requires a >= 0, b >= 0, t > 0;
}

proof fn lemma_dividends_sum_bound(pool: int, total: int, entries: Seq<StakeEntry>, n: int)
    requires
        pool > 0,
        total > 0,
        0 <= n <= entries.len(),
    ensures
        0 <= dividends_sum(pool, total, entries, n) <= (pool * positive_stake_sum(entries, n)) / total,
        positive_stake_sum(entries, n) >= 0,
    decreases n,
{
    if n > 0 {
        lemma_dividends_sum_bound(pool, total, entries, n - 1);
        let s = positive_stake_sum(entries, n - 1);
        if entries[n - 1].staked > 0 {
            let x = entries[n - 1].staked as int;
            assert(pool * s >= 0) by (nonlinear_arith) requires pool > 0, s >= 0;
            assert(pool * x >= 0) by (nonlinear_arith) requires pool > 0, x > 0;
            lemma_floor_sum(pool * s, pool * x, total);
            assert(pool * s + pool * x == pool * (s + x)) by (nonlinear_arith);
            assert((pool * x) / total >= 0) by (nonlinear_arith) requires pool * x >= 0, total > 0;
        }
    }
}

/// Dividends never exceed the pool: when the snapshot's positive stakes add up to at most
/// the epoch's total stake, the dividends calculated for them add up to at most the pool.
pub proof fn lemma_dividends_within_pool(pool: int, total: int, entries: Seq<StakeEntry>)
    requires
        pool > 0,
        total > 0,
        positive_stake_sum(entries, entries.len() as int) <= total,
    ensures
        0 <= dividends_sum(pool, total, entries, entries.len() as int) <= pool,
{
    let n = entries.len() as int;
    lemma_dividends_sum_bound(pool, total, entries, n);
    let s = positive_stake_sum(entries, n);
    assert((pool * s) / total <= pool) by (nonlinear_arith) requires 0 <= s <= total, pool > 0, total > 0;
}

} // verus!
