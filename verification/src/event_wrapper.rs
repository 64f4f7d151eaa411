//! SEP-41 token that wraps a Stellar asset 1:1: wrap/unwrap, balances, allowances,
//! transfers, admin mint and burns.
use vstd::prelude::*;

use crate::addr::{addr_eq, opt_view, Addr};
use crate::error::{is_err, ContractError};
use crate::math::fits_i128;

verus! {

/// A balance to store, in order.
pub struct BalanceWrite {
    pub account: Addr,
    pub balance: i128,
}

/// The wrapper's instance state; the metadata mirrors the underlying asset.
pub struct EventWrapper {
    pub underlying: Option<Addr>,
    pub admin: Option<Addr>,
    pub name: String,
    pub symbol: String,
    pub decimals: u32,
}

// ── Mathematical model ──────────────────────────────────────────────────────

/// Stored balances after applying `writes` in order to `m`.
pub open spec fn apply_writes(m: Map<Seq<u8>, int>, writes: Seq<BalanceWrite>) -> Map<Seq<u8>, int>
    decreases writes.len(),
{
    if writes.len() == 0 {
        m
    } else {
        apply_writes(m, writes.drop_last()).insert(writes.last().account@, writes.last().balance as int)
    }
}

/// The writes of a transfer of `amount`: the debited sender first, then the credited
/// recipient; a transfer from an account to itself leaves its balance as it is.
pub open spec fn transfer_writes_spec(w: Seq<BalanceWrite>, from: Seq<u8>, to: Seq<u8>, from_bal: int, to_bal: int, amount: int) -> bool {
    if from == to {
        &&& w.len() == 1
        &&& w[0].account@ == from
        &&& w[0].balance == from_bal
    } else {
        &&& w.len() == 2
        &&& w[0].account@ == from
        &&& w[0].balance == from_bal - amount
        &&& w[1].account@ == to
        &&& w[1].balance == to_bal + amount
    }
}

/// The transfer's new balances fit: the recipient's credit, when it is another account.
pub open spec fn credit_fits(from: Seq<u8>, to: Seq<u8>, to_bal: int, amount: int) -> bool {
    from != to ==> fits_i128(to_bal + amount)
}

// ── Executable functions ────────────────────────────────────────────────────

/// A balance, 0 when nothing is stored.
pub fn balance_of(stored: Option<i128>) -> (r: i128)
    ensures
        r == (match stored { Some(b) => b, None => 0 }),
{
    match stored {
        Some(b) => b,
        None => 0,
    }
}

/// Moves `amount` from `from` (balance `from_bal`) to `to` (balance `to_bal`): the writes
/// to store, in order. Refused for a non-positive amount and an insufficient balance.
pub fn do_transfer(from: &Addr, to: &Addr, from_bal: i128, to_bal: i128, amount: i128) -> (r: Result<Vec<BalanceWrite>, ContractError>)
    ensures
        amount <= 0 ==> is_err(r, ContractError::AmountNotPositive),
        (amount > 0 && from_bal < amount) ==> is_err(r, ContractError::InsufficientBalance),
        (amount > 0 && from_bal >= amount && credit_fits(from@, to@, to_bal as int, amount as int)) <==> r is Ok,
        r matches Ok(w) ==> transfer_writes_spec(w@, from@, to@, from_bal as int, to_bal as int, amount as int),
{
    if amount <= 0 {
        return Err(ContractError::AmountNotPositive);
    }
    if from_bal < amount {
        return Err(ContractError::InsufficientBalance);
    }
    let mut w: Vec<BalanceWrite> = Vec::new();
    if addr_eq(from, to) {
        w.push(BalanceWrite { account: from.duplicate(), balance: from_bal });
        return Ok(w);
    }
    let credited = match to_bal.checked_add(amount) {
        Some(v) => v,
        None => return Err(ContractError::Overflow),
    };
    w.push(BalanceWrite { account: from.duplicate(), balance: from_bal - amount });
    w.push(BalanceWrite { account: to.duplicate(), balance: credited });
    Ok(w)
}

/// Burns `amount` from a balance: the new balance. Refused for a non-positive amount and
/// an insufficient balance.
pub fn do_burn(bal: i128, amount: i128) -> (r: Result<i128, ContractError>)
    ensures
        amount <= 0 ==> is_err(r, ContractError::AmountNotPositive),
        (amount > 0 && bal < amount) ==> is_err(r, ContractError::InsufficientBalance),
        (amount > 0 && bal >= amount) <==> r is Ok,
        r matches Ok(b) ==> b == bal - amount,
{
    if amount <= 0 {
        return Err(ContractError::AmountNotPositive);
    }
    if bal < amount {
        return Err(ContractError::InsufficientBalance);
    }
    Ok(bal - amount)
}

/// Transfers `amount` from `from` to `to`.
pub fn transfer(from: &Addr, to: &Addr, from_bal: i128, to_bal: i128, amount: i128) -> (r: Result<Vec<BalanceWrite>, ContractError>)
    ensures
        amount <= 0 ==> is_err(r, ContractError::AmountNotPositive),
        (amount > 0 && from_bal < amount) ==> is_err(r, ContractError::InsufficientBalance),
        (amount > 0 && from_bal >= amount && credit_fits(from@, to@, to_bal as int, amount as int)) <==> r is Ok,
        r matches Ok(w) ==> transfer_writes_spec(w@, from@, to@, from_bal as int, to_bal as int, amount as int),
{
    do_transfer(from, to, from_bal, to_bal, amount)
}

/// Transfers `amount` from `from` to `to` on behalf of a spender with allowance
/// `allowance`, which is reduced by the amount.
pub fn transfer_from(from: &Addr, to: &Addr, allowance: i128, from_bal: i128, to_bal: i128, amount: i128) -> (r: Result<(i128, Vec<BalanceWrite>), ContractError>)
    ensures
        allowance < amount ==> is_err(r, ContractError::InsufficientAllowance),
        (allowance >= amount && amount <= 0) ==> r is Err,
        (allowance >= amount && amount > 0 && from_bal < amount) ==> is_err(r, ContractError::InsufficientBalance),
        (allowance >= amount && amount > 0 && from_bal >= amount && credit_fits(from@, to@, to_bal as int, amount as int)) <==> r is Ok,
        r matches Ok((a, w)) ==> a == allowance - amount
            && transfer_writes_spec(w@, from@, to@, from_bal as int, to_bal as int, amount as int),
{
    if allowance < amount {
        return Err(ContractError::InsufficientAllowance);
    }
    let new_allowance = match allowance.checked_sub(amount) {
        Some(v) => v,
        None => return Err(ContractError::Overflow),
    };
    let w = do_transfer(from, to, from_bal, to_bal, amount)?;
    Ok((new_allowance, w))
}

/// Burns `amount` of one's own tokens.
pub fn burn(bal: i128, amount: i128) -> (r: Result<i128, ContractError>)
    ensures
        amount <= 0 ==> is_err(r, ContractError::AmountNotPositive),
        (amount > 0 && bal < amount) ==> is_err(r, ContractError::InsufficientBalance),
        (amount > 0 && bal >= amount) <==> r is Ok,
        r matches Ok(b) ==> b == bal - amount,
{
    do_burn(bal, amount)
}

/// Burns `amount` from `from` on behalf of a spender with allowance `allowance`, which is
/// reduced by the amount. Returns the new allowance and balance.
pub fn burn_from(allowance: i128, bal: i128, amount: i128) -> (r: Result<(i128, i128), ContractError>)
    ensures
        allowance < amount ==> is_err(r, ContractError::InsufficientAllowance),
        (allowance >= amount && amount <= 0) ==> r is Err,
        (allowance >= amount && amount > 0 && bal < amount) ==> is_err(r, ContractError::InsufficientBalance),
        (allowance >= amount && amount > 0 && bal >= amount) <==> r is Ok,
        r matches Ok((a, b)) ==> a == allowance - amount && b == bal - amount,
{
    if allowance < amount {
        return Err(ContractError::InsufficientAllowance);
    }
    let new_allowance = match allowance.checked_sub(amount) {
        Some(v) => v,
        None => return Err(ContractError::Overflow),
    };
    let b = do_burn(bal, amount)?;
    Ok((new_allowance, b))
}

/// The allowance to store for an approval; it must not be negative.
pub fn approve(amount: i128) -> (r: Result<i128, ContractError>)
    ensures
        r is Err ==> is_err(r, ContractError::AmountNegative),
        amount < 0 <==> is_err(r, ContractError::AmountNegative),
        r matches Ok(a) ==> a == amount,
{
    if amount < 0 {
        return Err(ContractError::AmountNegative);
    }
    Ok(amount)
}

/// An allowance, 0 when nothing is stored.
pub fn allowance(stored: Option<i128>) -> (r: i128)
    ensures
        r == (match stored { Some(a) => a, None => 0 }),
{
    match stored {
        Some(a) => a,
        None => 0,
    }
}

impl EventWrapper {
    /// A wrapper that was never initialized.
    pub fn new() -> (r: EventWrapper)
        ensures
            r.underlying is None,
            r.admin is None,
    {
        EventWrapper { underlying: None, admin: None, name: String::new(), symbol: String::new(), decimals: 0 }
    }

    /// Wraps `underlying` once, with the metadata read from it.
    pub fn initialize(&mut self, admin: Addr, underlying: Addr, name: String, symbol: String, decimals: u32) -> (r: Result<(), ContractError>)
        ensures
            old(self).underlying is Some <==> is_err(r, ContractError::AlreadyInitialized),
            r is Ok ==> opt_view(final(self).underlying) == Some(underlying@) && opt_view(final(self).admin) == Some(admin@)
                && final(self).name@ == name@ && final(self).symbol@ == symbol@ && final(self).decimals == decimals,
            r is Err ==> opt_view(final(self).underlying) == opt_view(old(self).underlying)
                && opt_view(final(self).admin) == opt_view(old(self).admin),
    {
        if self.underlying.is_some() {
            return Err(ContractError::AlreadyInitialized);
        }
        self.underlying = Some(underlying);
        self.admin = Some(admin);
        self.name = name;
        self.symbol = symbol;
        self.decimals = decimals;
        Ok(())
    }

    /// Deposits `amount` of the underlying asset and mints as many wrapped tokens: the new
    /// wrapped balance.
    pub fn wrap(&self, bal: i128, amount: i128) -> (r: Result<i128, ContractError>)
        ensures
            amount <= 0 ==> is_err(r, ContractError::AmountNotPositive),
            (amount > 0 && self.underlying is None) ==> is_err(r, ContractError::NotInitialized),
            (amount > 0 && self.underlying is Some && fits_i128(bal + amount)) <==> r is Ok,
            r matches Ok(b) ==> b == bal + amount,
    {
        if amount <= 0 {
            return Err(ContractError::AmountNotPositive);
        }
        if self.underlying.is_none() {
            return Err(ContractError::NotInitialized);
        }
        match bal.checked_add(amount) {
            Some(v) => Ok(v),
            None => Err(ContractError::Overflow),
        }
    }

    /// Burns `amount` of wrapped tokens and returns as much of the underlying asset: the new
    /// wrapped balance.
    pub fn unwrap(&self, bal: i128, amount: i128) -> (r: Result<i128, ContractError>)
        ensures
            amount <= 0 ==> is_err(r, ContractError::AmountNotPositive),
            (amount > 0 && bal < amount) ==> is_err(r, ContractError::InsufficientWrappedBalance),
            (amount > 0 && bal >= amount && self.underlying is None) ==> is_err(r, ContractError::NotInitialized),
            (amount > 0 && bal >= amount && self.underlying is Some) <==> r is Ok,
            r matches Ok(b) ==> b == bal - amount,
    {
        if amount <= 0 {
            return Err(ContractError::AmountNotPositive);
        }
        if bal < amount {
            return Err(ContractError::InsufficientWrappedBalance);
        }
        if self.underlying.is_none() {
            return Err(ContractError::NotInitialized);
        }
        Ok(bal - amount)
    }

    /// Mints `amount` to an account (the admin authorises): the new balance.
    pub fn mint(&self, bal: i128, amount: i128) -> (r: Result<i128, ContractError>)
        ensures
            self.admin is None ==> is_err(r, ContractError::NotInitialized),
            (self.admin is Some && amount <= 0) ==> is_err(r, ContractError::AmountNotPositive),
            (self.admin is Some && amount > 0 && fits_i128(bal + amount)) <==> r is Ok,
            r matches Ok(b) ==> b == bal + amount,
    {
        if self.admin.is_none() {
            return Err(ContractError::NotInitialized);
        }
        if amount <= 0 {
            return Err(ContractError::AmountNotPositive);
        }
        match bal.checked_add(amount) {
            Some(v) => Ok(v),
            None => Err(ContractError::Overflow),
        }
    }

    /// The mirrored name of the underlying asset.
    pub fn name(&self) -> (r: Result<String, ContractError>)
        ensures
            self.underlying is None ==> is_err(r, ContractError::NotInitialized),
            self.underlying is Some ==> (r matches Ok(n) && n@ == self.name@),
    {
        if self.underlying.is_none() {
            return Err(ContractError::NotInitialized);
        }
        Ok(self.name.clone())
    }

    /// The mirrored symbol of the underlying asset.
    pub fn symbol(&self) -> (r: Result<String, ContractError>)
        ensures
            self.underlying is None ==> is_err(r, ContractError::NotInitialized),
            self.underlying is Some ==> (r matches Ok(n) && n@ == self.symbol@),
    {
        if self.underlying.is_none() {
            return Err(ContractError::NotInitialized);
        }
        Ok(self.symbol.clone())
    }

    /// The mirrored decimals of the underlying asset.
    pub fn decimals(&self) -> (r: Result<u32, ContractError>)
        ensures
            self.underlying is None ==> is_err(r, ContractError::NotInitialized),
            self.underlying is Some ==> r == Ok::<u32, ContractError>(self.decimals),
    {
        if self.underlying.is_none() {
            return Err(ContractError::NotInitialized);
        }
        Ok(self.decimals)
    }

    /// The admin.
    pub fn admin(&self) -> (r: Result<Addr, ContractError>)
        ensures
            self.admin is None ==> is_err(r, ContractError::NotInitialized),
            self.admin matches Some(a) ==> (r matches Ok(x) && x@ == a@),
    {
        match &self.admin {
            None => Err(ContractError::NotInitialized),
            Some(a) => Ok(a.duplicate()),
        }
    }

    /// Replaces the admin (the current admin authorises); returns the previous admin.
    pub fn set_admin(&mut self, new_admin: Addr) -> (r: Result<Addr, ContractError>)
        ensures
            r is Err ==> is_err(r, ContractError::NotInitialized),
            old(self).admin is None <==> is_err(r, ContractError::NotInitialized),
            r matches Ok(a) ==> Some(a@) == opt_view(old(self).admin) && opt_view(final(self).admin) == Some(new_admin@),
            r is Err ==> opt_view(final(self).admin) == opt_view(old(self).admin),
            opt_view(final(self).underlying) == opt_view(old(self).underlying),
    {
        let old_admin = match self.admin.take() {
            Some(a) => a,
            None => return Err(ContractError::NotInitialized),
        };
        self.admin = Some(new_admin);
        Ok(old_admin)
    }
}

// ── Laws ────────────────────────────────────────────────────────────────────

/// A transfer never creates or destroys tokens: between two distinct accounts it conserves
/// their total, from an account to itself it leaves the balance as it is, and it leaves every
/// other account unchanged.
pub proof fn lemma_transfer_conserves_total(m: Map<Seq<u8>, int>, w: Seq<BalanceWrite>, from: Seq<u8>, to: Seq<u8>, amount: int, other: Seq<u8>)
    requires
        m.contains_key(from),
        m.contains_key(to),
        transfer_writes_spec(w, from, to, m[from], m[to], amount),
        other != from && other != to,
    ensures
        from != to ==> apply_writes(m, w)[from] + apply_writes(m, w)[to] == m[from] + m[to],
        from == to ==> apply_writes(m, w)[from] == m[from],
        apply_writes(m, w).contains_key(other) == m.contains_key(other),
        m.contains_key(other) ==> apply_writes(m, w)[other] == m[other],
{
    if from == to {
        assert(w.drop_last().len() == 0);
        assert(apply_writes(m, w.drop_last()) == m);
        assert(apply_writes(m, w) == m.insert(from, m[from]));
    } else {
        let w1 = w.drop_last();
        assert(w1.drop_last().len() == 0);
        assert(apply_writes(m, w1.drop_last()) == m);
        assert(w1.last() == w[0]);
        let m1 = m.insert(from, m[from] - amount);
        assert(apply_writes(m, w1) == m1);
        assert(apply_writes(m, w) == m1.insert(to, m[to] + amount));
    }
}

} // verus!
