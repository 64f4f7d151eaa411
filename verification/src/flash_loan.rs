//! Flash loans: a re-entrancy-guarded loan that must be repaid within the same call, and a
//! registry that logs loans and tracks the return on them.
use vstd::prelude::*;

use crate::addr::{opt_view, Addr};
use crate::error::{is_err, ContractError};
use crate::math::{c_div, c_mul, checked_div_spec, checked_i128, div_trunc, fits_i128};

verus! {

/// The loan provider's instance state.
pub struct FlashLoanProvider {
    pub token: Option<Addr>,
    pub owner: Option<Addr>,
    /// A loan is in progress.
    pub is_busy: bool,
}

/// A bounty earned by a loan: the profit returned on top of the principal, for the owner.
pub struct Bounty {
    pub owner: Addr,
    pub profit: i128,
}

impl FlashLoanProvider {
    /// A provider that was never initialized.
    pub fn new() -> (r: FlashLoanProvider)
        ensures
            r.token is None,
            r.owner is None,
            !r.is_busy,
    {
        FlashLoanProvider { token: None, owner: None, is_busy: false }
    }

    /// One-time setup with the token lent and the owner.
    pub fn init(&mut self, token: Addr, owner: Addr) -> (r: Result<(), ContractError>)
        ensures
            old(self).token is Some <==> is_err(r, ContractError::AlreadyInitialized),
            r is Ok ==> opt_view(final(self).token) == Some(token@) && opt_view(final(self).owner) == Some(owner@)
                && !final(self).is_busy,
            r is Err ==> opt_view(final(self).token) == opt_view(old(self).token) && final(self).is_busy == old(self).is_busy,
    {
        if self.token.is_some() {
            return Err(ContractError::AlreadyInitialized);
        }
        self.token = Some(token);
        self.owner = Some(owner);
        self.is_busy = false;
        Ok(())
    }

    /// Starts a loan: refused while another is in progress; the provider becomes busy.
    /// Returns the token to lend.
    pub fn begin_loan(&mut self) -> (r: Result<Addr, ContractError>)
        ensures
            old(self).is_busy ==> is_err(r, ContractError::ContractBusy),
            (!old(self).is_busy && old(self).token is None) ==> is_err(r, ContractError::NotInitialized),
            (!old(self).is_busy && old(self).token is Some) <==> r is Ok,
            r matches Ok(t) ==> Some(t@) == opt_view(old(self).token) && final(self).is_busy,
            r is Err ==> final(self).is_busy == old(self).is_busy,
            opt_view(final(self).token) == opt_view(old(self).token),
            opt_view(final(self).owner) == opt_view(old(self).owner),
    {
        if self.is_busy {
            return Err(ContractError::ContractBusy);
        }
        let token = match &self.token {
            None => return Err(ContractError::NotInitialized),
            Some(t) => t.duplicate(),
        };
        self.is_busy = true;
        Ok(token)
    }

    /// Ends a loan given the provider's balance before lending and after the callback:
    /// refused unless repaid in full; a profit above the principal is a bounty for the owner.
    /// The provider is free again.
    pub fn finish_loan(&mut self, balance_before: i128, balance_after: i128) -> (r: Result<Option<Bounty>, ContractError>)
        ensures
            balance_after < balance_before ==> is_err(r, ContractError::InsufficientRepayment),
            (balance_after >= balance_before && fits_i128(balance_after - balance_before)
                && (balance_after - balance_before > 0 ==> old(self).owner is Some)) <==> r is Ok,
            r matches Ok(b) ==> !final(self).is_busy && (balance_after - balance_before > 0 <==> b is Some)
                && (b matches Some(x) ==> x.profit == balance_after - balance_before && Some(x.owner@) == opt_view(old(self).owner)),
            r is Err ==> final(self).is_busy == old(self).is_busy,
            opt_view(final(self).token) == opt_view(old(self).token),
            opt_view(final(self).owner) == opt_view(old(self).owner),
    {
        if balance_after < balance_before {
            return Err(ContractError::InsufficientRepayment);
        }
        let profit = match balance_after.checked_sub(balance_before) {
            Some(p) => p,
            None => return Err(ContractError::Overflow),
        };
        let bounty = if profit > 0 {
            match &self.owner {
                None => return Err(ContractError::NotInitialized),
                Some(o) => Some(Bounty { owner: o.duplicate(), profit }),
            }
        } else {
            None
        };
        self.is_busy = false;
        Ok(bounty)
    }

    /// The token lent.
    pub fn get_token(&self) -> (r: Result<Addr, ContractError>)
        ensures
            self.token is None ==> is_err(r, ContractError::NotInitialized),
            self.token matches Some(t) ==> (r matches Ok(x) && x@ == t@),
    {
        match &self.token {
            None => Err(ContractError::NotInitialized),
            Some(t) => Ok(t.duplicate()),
        }
    }

    /// The owner.
    pub fn get_owner(&self) -> (r: Result<Addr, ContractError>)
        ensures
            self.owner is None ==> is_err(r, ContractError::NotInitialized),
            self.owner matches Some(o) ==> (r matches Ok(x) && x@ == o@),
    {
        match &self.owner {
            None => Err(ContractError::NotInitialized),
            Some(o) => Ok(o.duplicate()),
        }
    }
}

/// The registry's instance state.
pub struct FlashLoanRegistry {
    pub admin: Option<Addr>,
    pub total_loans: u32,
    pub total_profit: i128,
}

/// Return on a loan in basis points: profit · 10_000 / amount.
pub open spec fn roi_spec(profit: int, amount: int) -> Result<i128, ContractError> {
    match checked_i128(profit * 10000) {
        Ok(p) => checked_div_spec(p as int, amount),
        Err(e) => Err(e),
    }
}

impl FlashLoanRegistry {
    /// A registry that was never initialized.
    pub fn new() -> (r: FlashLoanRegistry)
        ensures
            r.admin is None,
            r.total_loans == 0,
            r.total_profit == 0,
    {
        FlashLoanRegistry { admin: None, total_loans: 0, total_profit: 0 }
    }

    /// One-time setup; statistics start at zero.
    pub fn init(&mut self, admin: Addr) -> (r: Result<(), ContractError>)
        ensures
            old(self).admin is Some <==> is_err(r, ContractError::AlreadyInitialized),
            r is Ok ==> opt_view(final(self).admin) == Some(admin@) && final(self).total_loans == 0 && final(self).total_profit == 0,
            r is Err ==> final(self).total_loans == old(self).total_loans && final(self).total_profit == old(self).total_profit,
    {
        if self.admin.is_some() {
            return Err(ContractError::AlreadyInitialized);
        }
        self.admin = Some(admin);
        self.total_loans = 0;
        self.total_profit = 0;
        Ok(())
    }

    /// Checks that the admin can set a provider's authorisation (the admin authorises).
    pub fn set_provider(&self) -> (r: Result<(), ContractError>)
        ensures
            r is Err ==> is_err(r, ContractError::NotInitialized),
            self.admin is None <==> is_err(r, ContractError::NotInitialized),
    {
        if self.admin.is_none() {
            return Err(ContractError::NotInitialized);
        }
        Ok(())
    }

    /// Logs a loan of `amount` that made `profit`: one more loan, the profit added to the
    /// total; for a positive amount and profit, the return in basis points.
    pub fn record_loan(&mut self, amount: i128, profit: i128) -> (r: Result<Option<i128>, ContractError>)
        ensures
            (old(self).total_loans < u32::MAX && fits_i128(old(self).total_profit + profit)
                && (amount > 0 && profit > 0 ==> fits_i128(profit * 10000))) <==> r is Ok,
            r matches Ok(roi) ==> final(self).total_loans == old(self).total_loans + 1
                && final(self).total_profit == old(self).total_profit + profit
                && (amount > 0 && profit > 0 <==> roi is Some)
                && (roi matches Some(x) ==> roi_spec(profit as int, amount as int) == Ok::<i128, ContractError>(x)),
            r is Err ==> final(self).total_loans == old(self).total_loans && final(self).total_profit == old(self).total_profit,
            r matches Err(e) ==> e == ContractError::Overflow,
            opt_view(final(self).admin) == opt_view(old(self).admin),
    {
        if self.total_loans == u32::MAX {
            return Err(ContractError::Overflow);
        }
        let total_profit = match self.total_profit.checked_add(profit) {
            Some(v) => v,
            None => return Err(ContractError::Overflow),
        };
        let roi = if amount > 0 && profit > 0 {
            Some(c_div(c_mul(profit, 10000)?, amount)?)
        } else {
            None
        };
        self.total_loans = self.total_loans + 1;
        self.total_profit = total_profit;
        Ok(roi)
    }

    /// (loans recorded, total profit).
    pub fn get_stats(&self) -> (r: (u32, i128))
        ensures
            r == (self.total_loans, self.total_profit),
    {
        (self.total_loans, self.total_profit)
    }
}

// ── Laws ────────────────────────────────────────────────────────────────────

/// A return in basis points is positive and exact to within one basis point: for a
/// positive amount and profit, roi · amount ≤ profit · 10_000 < (roi + 1) · amount.
pub proof fn lemma_roi_bounds(profit: int, amount: int)
    requires
        profit > 0,
        amount > 0,
        fits_i128(profit * 10000),
    ensures
        roi_spec(profit, amount) matches Ok(x) && x >= 0 && x * amount <= profit * 10000 < (x + 1) * amount,
{
    let p = profit * 10000;
    assert(p > 0) by (nonlinear_arith) requires profit > 0, p == profit * 10000;
    let q = p / amount;
    assert(q >= 0 && q * amount <= p < (q + 1) * amount) by (nonlinear_arith) requires p > 0, amount > 0, q == p / amount;
    assert(q <= p) by (nonlinear_arith) requires p > 0, amount > 0, q == p / amount;
    assert(div_trunc(p, amount) == q);
    assert(roi_spec(profit, amount) == Ok::<i128, ContractError>(q as i128));
}

} // verus!
