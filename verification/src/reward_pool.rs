//! Uptime-based rewards for polling nodes: rewards per reported window, penalties per
//! missed one.
use vstd::prelude::*;

use crate::addr::Addr;
use crate::error::{is_err, ContractError};
use crate::math::{c_mul, c_div, div_trunc, fits_i128, fits_u64};

verus! {

/// Scale of rewards and penalties per window (1e6).
pub const SCALAR: i128 = 1_000_000;

/// Per-node uptime tracking and reward state.
#[derive(Clone, Copy, Debug, PartialEq, Eq, Structural)]
pub struct NodeInfo {
    /// Windows the node was expected to participate in.
    pub windows_expected: u64,
    /// Windows the node reported in.
    pub windows_reported: u64,
    /// Accumulated unclaimed rewards.
    pub pending_rewards: i128,
    /// Ledger timestamp of the last report.
    pub last_report_ts: u64,
}

/// The pool's instance state.
pub struct RewardPoolContract {
    pub admin: Addr,
    pub reward_token: Addr,
    /// Reward per reported window, scaled by `SCALAR`.
    pub reward_per_window: i128,
    /// Penalty per missed window, scaled by `SCALAR`.
    pub penalty_per_window: i128,
}

// ── Mathematical model ──────────────────────────────────────────────────────

/// The value clamped into the range of `i128`, as saturating arithmetic gives it.
pub open spec fn saturate(x: int) -> int {
    if x > i128::MAX { i128::MAX as int } else if x < i128::MIN { i128::MIN as int } else { x }
}

/// Change of the pending rewards for a report: earned minus penalty, floored at zero (a
/// penalty never takes back earlier rewards), and saturated.
pub open spec fn report_delta_spec(reported: int, expected: int, rpw: int, ppw: int) -> int {
    let d = div_trunc(reported * rpw, SCALAR as int) - div_trunc((expected - reported) * ppw, SCALAR as int);
    if d <= 0 { 0 } else { saturate(d) }
}

/// Uptime ratio reported / expected scaled by `SCALAR` (0 before any expected window).
pub open spec fn uptime_ratio_spec(info: NodeInfo) -> int {
    if info.windows_expected == 0 { 0 } else { div_trunc(info.windows_reported * SCALAR, info.windows_expected as int) }
}

// ── Executable functions ────────────────────────────────────────────────────

/// Subtraction floored at zero and saturated at `i128::MAX`.
fn sub_floor_zero(a: i128, b: i128) -> (r: i128)
    ensures
        r == (if a - b <= 0 { 0 } else { saturate(a - b) }),
{
    if a <= b {
        return 0;
    }
    match a.checked_sub(b) {
        Some(v) => v,
        None => i128::MAX,
    }
}

/// Saturating addition on `i128`.
fn sat_add(a: i128, b: i128) -> (r: i128)
    ensures
        r == saturate(a + b),
{
    match a.checked_add(b) {
        Some(v) => v,
        None => if b > 0 { i128::MAX } else { i128::MIN },
    }
}

impl RewardPoolContract {
    /// A pool paying `reward_per_window` and charging `penalty_per_window`; the reward must
    /// be positive and the penalty non-negative.
    pub fn initialize(admin: Addr, reward_token: Addr, reward_per_window: i128, penalty_per_window: i128) -> (r: Result<RewardPoolContract, ContractError>)
        ensures
            reward_per_window <= 0 ==> is_err(r, ContractError::RewardPerWindowNotPositive),
            (reward_per_window > 0 && penalty_per_window < 0) ==> is_err(r, ContractError::PenaltyPerWindowNegative),
            (reward_per_window > 0 && penalty_per_window >= 0) ==> r is Ok,
            r matches Ok(p) ==> p.admin@ == admin@ && p.reward_token@ == reward_token@
                && p.reward_per_window == reward_per_window && p.penalty_per_window == penalty_per_window,
    {
        if reward_per_window <= 0 {
            return Err(ContractError::RewardPerWindowNotPositive);
        }
        if penalty_per_window < 0 {
            return Err(ContractError::PenaltyPerWindowNegative);
        }
        Ok(RewardPoolContract { admin, reward_token, reward_per_window, penalty_per_window })
    }

    /// Records `windows_reported` of `windows_expected` windows for a node (a fresh record
    /// when it has none). Refuses zero expected windows and more reported than expected;
    /// the pending rewards grow by earned minus penalty, floored at zero.
    pub fn report(&self, info: Option<NodeInfo>, windows_reported: u64, windows_expected: u64, now: u64) -> (r: Result<(NodeInfo, i128), ContractError>)
        ensures
            windows_expected == 0 ==> is_err(r, ContractError::WindowsExpectedZero),
            (windows_expected > 0 && windows_reported > windows_expected) ==> is_err(r, ContractError::WindowsReportedExceedExpected),
            r matches Err(e) ==> e == ContractError::WindowsExpectedZero || e == ContractError::WindowsReportedExceedExpected
                || e == ContractError::Overflow,
            ({
                let i = match info { Some(i) => i, None => NodeInfo { windows_expected: 0, windows_reported: 0, pending_rewards: 0, last_report_ts: now } };
                &&& 0 < windows_expected
                &&& windows_reported <= windows_expected
                &&& fits_i128(windows_reported * self.reward_per_window)
                &&& fits_i128((windows_expected - windows_reported) * self.penalty_per_window)
                &&& fits_u64(i.windows_expected + windows_expected)
                &&& fits_u64(i.windows_reported + windows_reported)
            }) ==> r is Ok,
            r matches Ok((n, delta)) ==> {
                let i = match info { Some(i) => i, None => NodeInfo { windows_expected: 0, windows_reported: 0, pending_rewards: 0, last_report_ts: now } };
                &&& delta == report_delta_spec(windows_reported as int, windows_expected as int,
                    self.reward_per_window as int, self.penalty_per_window as int)
                &&& n.pending_rewards == saturate(i.pending_rewards + delta)
                &&& n.windows_expected == i.windows_expected + windows_expected
                &&& n.windows_reported == i.windows_reported + windows_reported
                &&& n.last_report_ts == now
            },
    {
        if windows_expected == 0 {
            return Err(ContractError::WindowsExpectedZero);
        }
        if windows_reported > windows_expected {
            return Err(ContractError::WindowsReportedExceedExpected);
        }
        let mut n = match info {
            Some(i) => i,
            None => NodeInfo { windows_expected: 0, windows_reported: 0, pending_rewards: 0, last_report_ts: now },
        };
        let earned = c_div(c_mul(windows_reported as i128, self.reward_per_window)?, SCALAR)?;
        let missed = windows_expected - windows_reported;
        let penalty = c_div(c_mul(missed as i128, self.penalty_per_window)?, SCALAR)?;
        let delta = sub_floor_zero(earned, penalty);
        n.pending_rewards = sat_add(n.pending_rewards, delta);
        n.windows_expected = match n.windows_expected.checked_add(windows_expected) {
            Some(v) => v,
            None => return Err(ContractError::Overflow),
        };
        n.windows_reported = match n.windows_reported.checked_add(windows_reported) {
            Some(v) => v,
            None => return Err(ContractError::Overflow),
        };
        n.last_report_ts = now;
        Ok((n, delta))
    }
}

/// Claims all pending rewards of a node: refused for an unknown node and when nothing
/// positive is pending; the pending rewards drop to zero.
pub fn claim(info: Option<NodeInfo>) -> (r: Result<(NodeInfo, i128), ContractError>)
    ensures
        info is None ==> is_err(r, ContractError::NodeNotFound),
        info matches Some(i) ==> (i.pending_rewards <= 0 <==> is_err(r, ContractError::NoRewardsToClaim)),
        r matches Err(e) ==> e == ContractError::NodeNotFound || e == ContractError::NoRewardsToClaim,
        (info matches Some(i) && i.pending_rewards > 0) <==> r is Ok,
        r matches Ok((n, amount)) ==> info matches Some(i) && amount == i.pending_rewards && amount > 0
            && n.pending_rewards == 0 && n.windows_expected == i.windows_expected
            && n.windows_reported == i.windows_reported && n.last_report_ts == i.last_report_ts,
{
    let mut n = match info {
        Some(i) => i,
        None => return Err(ContractError::NodeNotFound),
    };
    let amount = n.pending_rewards;
    if amount <= 0 {
        return Err(ContractError::NoRewardsToClaim);
    }
    n.pending_rewards = 0;
    Ok((n, amount))
}

/// Checks a funding deposit: the amount must be positive.
pub fn fund(amount: i128) -> (r: Result<i128, ContractError>)
    ensures
        r is Err ==> is_err(r, ContractError::AmountNotPositive),
        amount <= 0 <==> is_err(r, ContractError::AmountNotPositive),
        r matches Ok(v) ==> v == amount,
{
    if amount <= 0 {
        return Err(ContractError::AmountNotPositive);
    }
    Ok(amount)
}

/// A registered node's record.
pub fn get_node_info(info: Option<NodeInfo>) -> (r: Result<NodeInfo, ContractError>)
    ensures
        r is Err ==> is_err(r, ContractError::NodeNotFound),
        info is None <==> is_err(r, ContractError::NodeNotFound),
        info matches Some(n) ==> r == Ok::<NodeInfo, ContractError>(n),
{
    match info {
        Some(n) => Ok(n),
        None => Err(ContractError::NodeNotFound),
    }
}

/// Uptime ratio of a node scaled by `SCALAR` (950_000 = 95%); 0 before any expected window.
pub fn get_uptime_ratio(info: Option<NodeInfo>) -> (r: Result<i128, ContractError>)
    ensures
        info is None ==> is_err(r, ContractError::NodeNotFound),
        info matches Some(i) ==> r == Ok::<i128, ContractError>(uptime_ratio_spec(i) as i128),
        info matches Some(i) ==> r is Ok,
{
    let i = match info {
        Some(i) => i,
        None => return Err(ContractError::NodeNotFound),
    };
    if i.windows_expected == 0 {
        return Ok(0);
    }
    proof {
        assert(i.windows_reported * SCALAR <= u64::MAX * 1_000_000) by (nonlinear_arith)
            requires 0 <= i.windows_reported <= u64::MAX;
    }
    c_div(c_mul(i.windows_reported as i128, SCALAR)?, i.windows_expected as i128)
}

// ── Laws ────────────────────────────────────────────────────────────────────

/// A node never reports more windows than it was expected in, so its uptime ratio stays
/// within [0, SCALAR].
pub proof fn lemma_uptime_ratio_bounded(info: NodeInfo)
    requires
        info.windows_reported <= info.windows_expected,
    ensures
        0 <= uptime_ratio_spec(info) <= SCALAR,
{
    if info.windows_expected > 0 {
        let e = info.windows_expected as int;
        let w = info.windows_reported as int;
        assert(0 <= w * 1_000_000 <= e * 1_000_000) by (nonlinear_arith) requires 0 <= w <= e;
        assert(0 <= (w * 1_000_000) / e <= 1_000_000) by (nonlinear_arith)
            requires 0 <= w * 1_000_000 <= e * 1_000_000, e > 0;
    }
}

/// A report keeps reported windows within expected ones: if a node reported no more windows
/// than expected before, it still does after a report with windows_reported <= windows_expected.
pub proof fn lemma_report_keeps_reported_within_expected(i: NodeInfo, reported: int, expected: int)
    requires
        i.windows_reported <= i.windows_expected,
        0 <= reported <= expected,
    ensures
        i.windows_reported + reported <= i.windows_expected + expected,
{
}

/// Penalties cannot make rewards negative: a report never lowers the pending rewards, so
/// non-negative pending rewards stay non-negative.
pub proof fn lemma_report_never_lowers_rewards(pending: int, reported: int, expected: int, rpw: int, ppw: int)
    requires
        pending >= 0,
        fits_i128(pending),
    ensures
        report_delta_spec(reported, expected, rpw, ppw) >= 0,
        saturate(pending + report_delta_spec(reported, expected, rpw, ppw)) >= pending,
{
}

} // verus!
