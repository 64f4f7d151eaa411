//! Collateralised lending: deposits, borrowing against collateral, simple interest,
//! repayment, liquidation below a threshold, health factors and low-health alerts.
use vstd::prelude::*;

use crate::addr::{addr_eq, Addr};
use crate::error::{is_err, ContractError};
use crate::math::{c_add, c_div, c_mul, div_trunc, fits_i128};

verus! {

/// Price scale (1e7 = a price of 1).
pub const SCALAR: i128 = 10_000_000;
/// Margin, in percentage points above the liquidation threshold, below which a position
/// is reported as low on health.
pub const LOW_HEALTH_MARGIN: i128 = 5;
/// Health factor reported for a position without debt.
pub const MAX_HEALTH_FACTOR: i128 = 1_000_000_000;
/// Seconds in a year, for interest accrual.
pub const SECONDS_IN_YEAR: i128 = 31_536_000;

/// A price feed contract: anything that reports the price of the collateral in loan tokens.
pub trait PriceFeed {
    fn get_price(&self) -> i128;
}

/// A user's position.
#[derive(Clone, Copy, Debug, PartialEq, Eq, Structural)]
pub struct UserState {
    pub collateral: i128,
    pub debt: i128,
    pub last_update: u64,
}

/// The protocol's instance state.
pub struct LendingProtocol {
    pub admin: Addr,
    pub collateral_token: Addr,
    pub loan_token: Addr,
    /// Yearly interest rate, in percent of the debt.
    pub interest_rate: i128,
    /// Required collateral value at borrowing, in percent of the debt.
    pub collateral_ratio: i128,
    /// Collateral value, in percent of the debt, below which a position can be liquidated.
    pub liq_threshold: i128,
    /// Stored price of the collateral, scaled by `SCALAR`.
    pub price: i128,
    /// Price feed that overrides the stored price when configured.
    pub price_feed: Option<Addr>,
}

/// Outcome of a liquidation: the emptied position and what changes hands.
#[derive(Clone, Copy, Debug, PartialEq, Eq, Structural)]
pub struct Liquidation {
    pub state: UserState,
    /// Debt the liquidator pays in.
    pub debt_paid: i128,
    /// Collateral the liquidator receives.
    pub collateral_seized: i128,
}

// ── Mathematical model ──────────────────────────────────────────────────────

/// The stored position, or an empty one stamped `now`.
pub open spec fn user_state_or_default(s: Option<UserState>, now: u64) -> UserState {
    match s {
        Some(s) => s,
        None => UserState { collateral: 0, debt: 0, last_update: now },
    }
}

/// Interest accrued on `debt` over `elapsed` seconds at `rate` percent a year.
pub open spec fn interest_spec(debt: int, rate: int, elapsed: int) -> int {
    div_trunc(debt * rate * elapsed, SECONDS_IN_YEAR * 100)
}

/// The debt after accrual up to `now`: unchanged without debt or elapsed time.
pub open spec fn accrued_debt(s: UserState, rate: int, now: u64) -> int {
    if s.debt <= 0 || now <= s.last_update { s.debt as int } else { s.debt + interest_spec(s.debt as int, rate, now - s.last_update) }
}

/// Accrual can be computed without overflow.
pub open spec fn accrual_fits(s: UserState, rate: int, now: u64) -> bool {
    s.debt <= 0 || now <= s.last_update || (fits_i128(s.debt * rate) && fits_i128(s.debt * rate * (now - s.last_update))
        && fits_i128(s.debt + interest_spec(s.debt as int, rate, now - s.last_update)))
}

/// Value of `collateral` at `price`, in loan tokens.
pub open spec fn col_value_spec(collateral: int, price: int) -> int {
    div_trunc(collateral * price, SCALAR as int)
}

/// `percent` percent of `debt`.
pub open spec fn pct_spec(debt: int, percent: int) -> int {
    div_trunc(debt * percent, 100)
}

/// Health factor of a position: collateral value over the liquidation requirement, scaled
/// by `SCALAR`; `MAX_HEALTH_FACTOR` without debt or requirement.
pub open spec fn health_factor_spec(s: UserState, price: int, liq_threshold: int) -> int {
    if s.debt <= 0 {
        MAX_HEALTH_FACTOR as int
    } else if pct_spec(s.debt as int, liq_threshold) <= 0 {
        MAX_HEALTH_FACTOR as int
    } else {
        div_trunc(col_value_spec(s.collateral as int, price) * SCALAR, pct_spec(s.debt as int, liq_threshold))
    }
}

/// The health factor of a position can be computed without overflow.
pub open spec fn health_computable(s: UserState, price: int, liq_threshold: int) -> bool {
    s.debt <= 0 || (fits_i128(s.collateral * price) && fits_i128(s.debt * liq_threshold)
        && fits_i128(col_value_spec(s.collateral as int, price) * SCALAR))
}

/// The low-health alert of a position: `Some(health factor)` when it has debt and its
/// collateral value is at or above the liquidation requirement but below the requirement
/// plus `LOW_HEALTH_MARGIN` points; `None` otherwise.
pub open spec fn alert_spec(s: UserState, price: int, liq_threshold: int) -> Option<int> {
    if s.debt <= 0 {
        None
    } else {
        let cv = col_value_spec(s.collateral as int, price);
        let tv = pct_spec(s.debt as int, liq_threshold);
        if cv < pct_spec(s.debt as int, liq_threshold + LOW_HEALTH_MARGIN) && cv >= tv {
            Some(if tv > 0 { div_trunc(cv * SCALAR, tv) } else { MAX_HEALTH_FACTOR as int })
        } else {
            None
        }
    }
}

/// The low-health alert of a position can be computed without overflow.
pub open spec fn alert_computable(s: UserState, price: int, liq_threshold: int) -> bool {
    s.debt <= 0 || (fits_i128(s.collateral * price) && fits_i128(s.debt * liq_threshold)
        && fits_i128(liq_threshold + LOW_HEALTH_MARGIN)
        && fits_i128(s.debt * (liq_threshold + LOW_HEALTH_MARGIN))
        && fits_i128(col_value_spec(s.collateral as int, price) * SCALAR))
}

/// An optional `i128` as an optional integer.
pub open spec fn opt_int(o: Option<i128>) -> Option<int> {
    match o {
        Some(v) => Some(v as int),
        None => None,
    }
}

// ── Executable functions ────────────────────────────────────────────────────

/// The stored position, or an empty one stamped `now`.
pub fn get_user_state(stored: Option<UserState>, now: u64) -> (r: UserState)
    ensures
        r == user_state_or_default(stored, now),
{
    match stored {
        Some(s) => s,
        None => UserState { collateral: 0, debt: 0, last_update: now },
    }
}

/// Accrues simple interest on the debt up to `now` and stamps the position with `now`.
pub fn accumulate_interest(state: &mut UserState, now: u64, rate: i128) -> (r: Result<(), ContractError>)
    ensures
        accrual_fits(*old(state), rate as int, now) <==> r is Ok,
        r is Err ==> is_err(r, ContractError::Overflow),
        r is Ok ==> final(state).debt == accrued_debt(*old(state), rate as int, now)
            && final(state).last_update == now && final(state).collateral == old(state).collateral,
{
    if state.debt <= 0 || now <= state.last_update {
        state.last_update = now;
        return Ok(());
    }
    let elapsed = (now - state.last_update) as i128;
    let interest = c_div(c_mul(c_mul(state.debt, rate)?, elapsed)?, SECONDS_IN_YEAR * 100)?;
    state.debt = c_add(state.debt, interest)?;
    state.last_update = now;
    Ok(())
}

/// Collateral value at a price, in loan tokens.
fn col_value(collateral: i128, price: i128) -> (r: Result<i128, ContractError>)
    ensures
        fits_i128(collateral * price) <==> r is Ok,
        r matches Ok(v) ==> v == col_value_spec(collateral as int, price as int),
        r is Err ==> is_err(r, ContractError::Overflow),
{
    c_div(c_mul(collateral, price)?, SCALAR)
}

/// A percentage of a debt.
fn pct(debt: i128, percent: i128) -> (r: Result<i128, ContractError>)
    ensures
        fits_i128(debt * percent) <==> r is Ok,
        r matches Ok(v) ==> v == pct_spec(debt as int, percent as int),
        r is Err ==> is_err(r, ContractError::Overflow),
{
    c_div(c_mul(debt, percent)?, 100)
}

impl LendingProtocol {
    /// A protocol with the given tokens, rates and initial price, without a price feed.
    pub fn initialize(
        admin: Addr,
        collateral_token: Addr,
        loan_token: Addr,
        interest_rate: i128,
        collateral_ratio: i128,
        liq_threshold: i128,
        price: i128,
    ) -> (r: LendingProtocol)
        ensures
            r.admin@ == admin@,
            r.collateral_token@ == collateral_token@,
            r.loan_token@ == loan_token@,
            r.interest_rate == interest_rate,
            r.collateral_ratio == collateral_ratio,
            r.liq_threshold == liq_threshold,
            r.price == price,
            r.price_feed is None,
    {
        LendingProtocol { admin, collateral_token, loan_token, interest_rate, collateral_ratio, liq_threshold, price, price_feed: None }
    }

    /// A user's position as stored, or an empty one stamped `now`.
    pub fn get_user_info(&self, stored: Option<UserState>, now: u64) -> (r: UserState)
        ensures
            r == user_state_or_default(stored, now),
    {
        get_user_state(stored, now)
    }

    /// The price in force: the feed's reading when a feed is configured and was read, the
    /// stored price otherwise.
    pub fn current_price(&self, feed_price: Option<i128>) -> (r: i128)
        ensures
            r == (match (self.price_feed, feed_price) { (Some(_), Some(p)) => p, _ => self.price }),
    {
        match (&self.price_feed, feed_price) {
            (Some(_), Some(p)) => p,
            _ => self.price,
        }
    }

    /// Adds collateral to a position. Refused for a non-positive amount.
    pub fn deposit_collateral(&self, stored: Option<UserState>, amount: i128, now: u64) -> (r: Result<UserState, ContractError>)
        ensures
            amount <= 0 ==> is_err(r, ContractError::AmountNotPositive),
            (amount > 0 && fits_i128(user_state_or_default(stored, now).collateral + amount)) <==> r is Ok,
            r matches Ok(n) ==> {
                let s = user_state_or_default(stored, now);
                n.collateral == s.collateral + amount && n.debt == s.debt && n.last_update == s.last_update
            },
    {
        if amount <= 0 {
            return Err(ContractError::AmountNotPositive);
        }
        let mut s = get_user_state(stored, now);
        s.collateral = c_add(s.collateral, amount)?;
        Ok(s)
    }

    /// Borrows `amount` against the position at `price`, after accruing interest. Refused
    /// for a non-positive amount and when the collateral value would fall below
    /// `collateral_ratio` percent of the new debt.
    pub fn borrow(&self, stored: Option<UserState>, amount: i128, now: u64, price: i128) -> (r: Result<UserState, ContractError>)
        ensures
            amount <= 0 ==> is_err(r, ContractError::AmountNotPositive),
            r matches Ok(n) ==> {
                let s = user_state_or_default(stored, now);
                let d = accrued_debt(s, self.interest_rate as int, now);
                &&& amount > 0
                &&& n.debt == d + amount
                &&& n.collateral == s.collateral
                &&& n.last_update == now
                &&& col_value_spec(s.collateral as int, price as int) >= pct_spec(d + amount, self.collateral_ratio as int)
            },
            ({
                let s = user_state_or_default(stored, now);
                let d = accrued_debt(s, self.interest_rate as int, now);
                &&& amount > 0
                &&& accrual_fits(s, self.interest_rate as int, now)
                &&& fits_i128(d + amount)
                &&& fits_i128(s.collateral * price)
                &&& fits_i128((d + amount) * self.collateral_ratio)
                &&& col_value_spec(s.collateral as int, price as int) < pct_spec(d + amount, self.collateral_ratio as int)
            }) ==> is_err(r, ContractError::InsufficientCollateral),
            ({
                let s = user_state_or_default(stored, now);
                let d = accrued_debt(s, self.interest_rate as int, now);
                &&& amount > 0
                &&& accrual_fits(s, self.interest_rate as int, now)
                &&& fits_i128(d + amount)
                &&& fits_i128(s.collateral * price)
                &&& fits_i128((d + amount) * self.collateral_ratio)
                &&& col_value_spec(s.collateral as int, price as int) >= pct_spec(d + amount, self.collateral_ratio as int)
            }) ==> r is Ok,
    {
        if amount <= 0 {
            return Err(ContractError::AmountNotPositive);
        }
        let mut s = get_user_state(stored, now);
        accumulate_interest(&mut s, now, self.interest_rate)?;
        let new_debt = c_add(s.debt, amount)?;
        let cv = col_value(s.collateral, price)?;
        let required = pct(new_debt, self.collateral_ratio)?;
        if cv < required {
            return Err(ContractError::InsufficientCollateral);
        }
        s.debt = new_debt;
        s.last_update = now;
        Ok(s)
    }

    /// Repays up to `amount` of the debt after accruing interest; never more than is owed.
    /// Returns the new position and the amount actually repaid.
    pub fn repay(&self, stored: Option<UserState>, amount: i128, now: u64) -> (r: Result<(UserState, i128), ContractError>)
        ensures
            amount <= 0 ==> is_err(r, ContractError::AmountNotPositive),
            (amount > 0 && accrual_fits(user_state_or_default(stored, now), self.interest_rate as int, now)) ==> r is Ok,
            r matches Err(e) ==> e == ContractError::AmountNotPositive || e == ContractError::Overflow,
            r matches Ok((n, repaid)) ==> {
                let s = user_state_or_default(stored, now);
                let d = accrued_debt(s, self.interest_rate as int, now);
                &&& repaid == (if amount > d { d } else { amount as int })
                &&& n.debt == d - repaid
                &&& n.collateral == s.collateral
                &&& n.last_update == now
            },
    {
        if amount <= 0 {
            return Err(ContractError::AmountNotPositive);
        }
        let mut s = get_user_state(stored, now);
        accumulate_interest(&mut s, now, self.interest_rate)?;
        let repay_amount = if amount > s.debt { s.debt } else { amount };
        s.debt = if amount > s.debt { 0 } else { s.debt - amount };
        s.last_update = now;
        Ok((s, repay_amount))
    }

    /// Liquidates a position whose collateral value at `price` is below `liq_threshold`
    /// percent of its debt (after accrual): the liquidator pays the whole debt and receives
    /// the whole collateral; the position is emptied.
    pub fn liquidate(&self, stored: Option<UserState>, now: u64, price: i128) -> (r: Result<Liquidation, ContractError>)
        ensures
            r matches Ok(l) ==> {
                let s = user_state_or_default(stored, now);
                let d = accrued_debt(s, self.interest_rate as int, now);
                &&& col_value_spec(s.collateral as int, price as int) < pct_spec(d, self.liq_threshold as int)
                &&& l.debt_paid == d
                &&& l.collateral_seized == s.collateral
                &&& l.state == (UserState { collateral: 0, debt: 0, last_update: now })
            },
            ({
                let s = user_state_or_default(stored, now);
                let d = accrued_debt(s, self.interest_rate as int, now);
                &&& accrual_fits(s, self.interest_rate as int, now)
                &&& fits_i128(s.collateral * price)
                &&& fits_i128(d * self.liq_threshold)
            }) ==> ({
                let s = user_state_or_default(stored, now);
                let d = accrued_debt(s, self.interest_rate as int, now);
                &&& (col_value_spec(s.collateral as int, price as int) < pct_spec(d, self.liq_threshold as int)) <==> r is Ok
                &&& r is Err ==> is_err(r, ContractError::NotEligibleForLiquidation)
            }),
            r matches Err(e) ==> e == ContractError::NotEligibleForLiquidation || e == ContractError::Overflow,
    {
        let mut s = get_user_state(stored, now);
        accumulate_interest(&mut s, now, self.interest_rate)?;
        let cv = col_value(s.collateral, price)?;
        let threshold_value = pct(s.debt, self.liq_threshold)?;
        if cv >= threshold_value {
            return Err(ContractError::NotEligibleForLiquidation);
        }
        Ok(Liquidation {
            state: UserState { collateral: 0, debt: 0, last_update: now },
            debt_paid: s.debt,
            collateral_seized: s.collateral,
        })
    }

    /// Like `liquidate`, and also reports the health factor of the stored position (before
    /// accrual) for the priority-liquidation event.
    pub fn priority_liquidate(&self, stored: Option<UserState>, now: u64, price: i128) -> (r: Result<(Liquidation, i128), ContractError>)
        ensures
            r matches Ok((l, hf)) ==> {
                let s = user_state_or_default(stored, now);
                let d = accrued_debt(s, self.interest_rate as int, now);
                &&& col_value_spec(s.collateral as int, price as int) < pct_spec(d, self.liq_threshold as int)
                &&& l.debt_paid == d
                &&& l.collateral_seized == s.collateral
                &&& l.state == (UserState { collateral: 0, debt: 0, last_update: now })
                &&& hf == health_factor_spec(s, price as int, self.liq_threshold as int)
            },
            r matches Err(e) ==> e == ContractError::NotEligibleForLiquidation || e == ContractError::Overflow,
            ({
                let s = user_state_or_default(stored, now);
                let d = accrued_debt(s, self.interest_rate as int, now);
                &&& accrual_fits(s, self.interest_rate as int, now)
                &&& fits_i128(s.collateral * price)
                &&& fits_i128(d * self.liq_threshold)
                &&& col_value_spec(s.collateral as int, price as int) >= pct_spec(d, self.liq_threshold as int)
            }) ==> is_err(r, ContractError::NotEligibleForLiquidation),
            ({
                let s = user_state_or_default(stored, now);
                let d = accrued_debt(s, self.interest_rate as int, now);
                &&& accrual_fits(s, self.interest_rate as int, now)
                &&& fits_i128(s.collateral * price)
                &&& fits_i128(d * self.liq_threshold)
                &&& col_value_spec(s.collateral as int, price as int) < pct_spec(d, self.liq_threshold as int)
                &&& health_computable(s, price as int, self.liq_threshold as int)
            }) ==> r is Ok,
    {
        let l = self.liquidate(stored, now, price)?;
        let hf = self.get_health_factor(stored, now, price)?;
        Ok((l, hf))
    }

    /// Health factor of the stored position at `price` (no accrual).
    pub fn get_health_factor(&self, stored: Option<UserState>, now: u64, price: i128) -> (r: Result<i128, ContractError>)
        ensures
            r matches Ok(h) ==> h == health_factor_spec(user_state_or_default(stored, now), price as int, self.liq_threshold as int),
            r matches Ok(h) ==> ({
                let s = user_state_or_default(stored, now);
                (s.debt > 0 && pct_spec(s.debt as int, self.liq_threshold as int) > 0) ==> ((h < SCALAR)
                    <==> (col_value_spec(s.collateral as int, price as int) < pct_spec(s.debt as int, self.liq_threshold as int)))
            }),
            r matches Err(e) ==> e == ContractError::Overflow,
            health_computable(user_state_or_default(stored, now), price as int, self.liq_threshold as int) ==> r is Ok,
    {
        proof {
            let s0 = user_state_or_default(stored, now);
            if s0.debt > 0 && pct_spec(s0.debt as int, self.liq_threshold as int) > 0 {
                lemma_health_factor_flags_liquidation(s0, price as int, self.liq_threshold as int);
            }
        }
        let s = get_user_state(stored, now);
        if s.debt <= 0 {
            return Ok(MAX_HEALTH_FACTOR);
        }
        let cv = col_value(s.collateral, price)?;
        let required_value = pct(s.debt, self.liq_threshold)?;
        if required_value <= 0 {
            return Ok(MAX_HEALTH_FACTOR);
        }
        c_div(c_mul(cv, SCALAR)?, required_value)
    }

    /// The low-health alert for a position at `price`: `Some(health factor)` when it has
    /// debt and its collateral value is at or above the liquidation requirement but below
    /// the requirement plus `LOW_HEALTH_MARGIN` points; `None` otherwise.
    pub fn low_health_alert(&self, s: UserState, price: i128) -> (r: Result<Option<i128>, ContractError>)
        ensures
            r matches Ok(a) ==> opt_int(a) == alert_spec(s, price as int, self.liq_threshold as int),
            r matches Err(e) ==> e == ContractError::Overflow,
            alert_computable(s, price as int, self.liq_threshold as int) ==> r is Ok,
    {
        if s.debt <= 0 {
            return Ok(None);
        }
        let cv = col_value(s.collateral, price)?;
        let threshold_value = pct(s.debt, self.liq_threshold)?;
        let alert_value = pct(s.debt, c_add(self.liq_threshold, LOW_HEALTH_MARGIN)?)?;
        let health_factor = if threshold_value > 0 {
            c_div(c_mul(cv, SCALAR)?, threshold_value)?
        } else {
            MAX_HEALTH_FACTOR
        };
        if cv < alert_value && cv >= threshold_value {
            Ok(Some(health_factor))
        } else {
            Ok(None)
        }
    }

    /// Health check: the alert for a position with debt, and its health factor.
    pub fn check_health(&self, stored: Option<UserState>, now: u64, price: i128) -> (r: Result<(Option<i128>, i128), ContractError>)
        ensures
            r matches Ok((alert, h)) ==> h == health_factor_spec(user_state_or_default(stored, now), price as int, self.liq_threshold as int)
                && opt_int(alert) == alert_spec(user_state_or_default(stored, now), price as int, self.liq_threshold as int),
            r matches Err(e) ==> e == ContractError::Overflow,
            (alert_computable(user_state_or_default(stored, now), price as int, self.liq_threshold as int)
                && health_computable(user_state_or_default(stored, now), price as int, self.liq_threshold as int)) ==> r is Ok,
    {
        let s = get_user_state(stored, now);
        let alert = if s.debt > 0 { self.low_health_alert(s, price)? } else { None };
        let h = self.get_health_factor(stored, now, price)?;
        Ok((alert, h))
    }

    /// Sets the stored price; only the admin may.
    pub fn set_price(&mut self, admin: &Addr, price: i128) -> (r: Result<(), ContractError>)
        ensures
            (admin@ != old(self).admin@) <==> is_err(r, ContractError::Unauthorized),
            r is Ok ==> final(self).price == price,
            r is Err ==> final(self).price == old(self).price,
            final(self).price_feed == old(self).price_feed,
            final(self).admin == old(self).admin,
            final(self).interest_rate == old(self).interest_rate,
            final(self).collateral_ratio == old(self).collateral_ratio,
            final(self).liq_threshold == old(self).liq_threshold,
    {
        if !addr_eq(admin, &self.admin) {
            return Err(ContractError::Unauthorized);
        }
        self.price = price;
        Ok(())
    }

    /// Configures the price feed; only the admin may.
    pub fn set_price_feed(&mut self, admin: &Addr, feed: Addr) -> (r: Result<(), ContractError>)
        ensures
            (admin@ != old(self).admin@) <==> is_err(r, ContractError::Unauthorized),
            r is Ok ==> (final(self).price_feed matches Some(f) && f@ == feed@),
            r is Err ==> final(self).price_feed == old(self).price_feed,
            final(self).price == old(self).price,
            final(self).admin == old(self).admin,
    {
        if !addr_eq(admin, &self.admin) {
            return Err(ContractError::Unauthorized);
        }
        self.price_feed = Some(feed);
        Ok(())
    }

    /// The feed to read for `update_price_from_feed`; only the admin may ask, and a feed must
    /// be configured.
    pub fn feed_for_update(&self, admin: &Addr) -> (r: Result<Addr, ContractError>)
        ensures
            (admin@ != self.admin@) ==> is_err(r, ContractError::Unauthorized),
            (admin@ == self.admin@ && self.price_feed is None) ==> is_err(r, ContractError::PriceFeedNotConfigured),
            r matches Ok(f) ==> admin@ == self.admin@ && (self.price_feed matches Some(g) && g@ == f@),
            (admin@ == self.admin@ && self.price_feed is Some) ==> r is Ok,
    {
        if !addr_eq(admin, &self.admin) {
            return Err(ContractError::Unauthorized);
        }
        match &self.price_feed {
            Some(f) => Ok(f.duplicate()),
            None => Err(ContractError::PriceFeedNotConfigured),
        }
    }

    /// Stores the price read from the feed; only the admin may, and a feed must be configured.
    pub fn update_price_from_feed(&mut self, admin: &Addr, feed_price: i128) -> (r: Result<i128, ContractError>)
        ensures
            (admin@ != old(self).admin@) ==> is_err(r, ContractError::Unauthorized),
            (admin@ == old(self).admin@ && old(self).price_feed is None) ==> is_err(r, ContractError::PriceFeedNotConfigured),
            (admin@ == old(self).admin@ && old(self).price_feed is Some) ==> r == Ok::<i128, ContractError>(feed_price)
                && final(self).price == feed_price,
            r is Err ==> final(self).price == old(self).price,
            final(self).price_feed == old(self).price_feed,
            final(self).admin == old(self).admin,
    {
        if !addr_eq(admin, &self.admin) {
            return Err(ContractError::Unauthorized);
        }
        if self.price_feed.is_none() {
            return Err(ContractError::PriceFeedNotConfigured);
        }
        self.price = feed_price;
        Ok(feed_price)
    }
}

// ── Laws ────────────────────────────────────────────────────────────────────

/// Interest never lowers a debt: with a non-negative rate, the accrued debt is at least the
/// debt before.
pub proof fn lemma_accrual_never_lowers_debt(s: UserState, rate: int, now: u64)
    requires
        rate >= 0,
    ensures
        accrued_debt(s, rate, now) >= s.debt,
{
    if !(s.debt <= 0 || now <= s.last_update) {
        let e = now - s.last_update;
        assert(s.debt * rate * e >= 0) by (nonlinear_arith) requires s.debt > 0, rate >= 0, e > 0;
    }
}

/// A health factor below one (`SCALAR`) means exactly that the position is liquidatable:
/// for a debt with a positive liquidation requirement and non-negative collateral value,
/// `health < SCALAR` iff collateral value < requirement.
pub proof fn lemma_health_below_one_iff_liquidatable(col_value: int, required: int)
    requires
        required > 0,
        col_value >= 0,
    ensures
        (div_trunc(col_value * SCALAR, required) < SCALAR) <==> (col_value < required),
{
    let s = SCALAR as int;
    if col_value < required {
        assert((col_value * s) / required < s) by (nonlinear_arith)
            requires col_value < required, col_value >= 0, required > 0, s > 0;
    } else {
        assert((col_value * s) / required >= s) by (nonlinear_arith)
            requires col_value >= required, required > 0, s > 0;
    }
}

/// On a position with debt and a positive liquidation requirement, the health factor is
/// below one (`SCALAR`) exactly when the collateral value is below the requirement
/// `debt · liq_threshold / 100`: the health factor reads a position as unhealthy exactly
/// when liquidation accepts it.
pub proof fn lemma_health_factor_flags_liquidation(s: UserState, price: int, liq_threshold: int)
    requires
        s.debt > 0,
        pct_spec(s.debt as int, liq_threshold) > 0,
    ensures
        (health_factor_spec(s, price, liq_threshold) < SCALAR)
            <==> (col_value_spec(s.collateral as int, price) < pct_spec(s.debt as int, liq_threshold)),
{
    let cv = col_value_spec(s.collateral as int, price);
    let req = pct_spec(s.debt as int, liq_threshold);
    if cv >= 0 {
        lemma_health_below_one_iff_liquidatable(cv, req);
    } else {
        let a = cv * SCALAR;
        assert(a < 0) by (nonlinear_arith) requires cv < 0, a == cv * SCALAR;
        assert((-a) / req >= 0) by (nonlinear_arith) requires -a > 0, req > 0;
        assert(div_trunc(a, req) <= 0);
    }
}

/// Repayment never takes more than is owed and never leaves a negative debt.
pub proof fn lemma_repay_bounded(debt: int, amount: int)
    requires
        debt >= 0,
        amount > 0,
    ensures
        ({
            let repaid = if amount > debt { debt } else { amount };
            0 <= repaid <= debt && debt - repaid >= 0 && repaid <= amount
        }),
{
}

} // verus!
