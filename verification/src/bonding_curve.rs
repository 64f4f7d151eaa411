//! Linear bonding curve: tokens are bought with a reserve token at a price set by supply,
//! reserve and reserve ratio, and sold back for a share of the reserve.
use vstd::prelude::*;

use crate::addr::{addr_eq, opt_view, Addr};
use crate::error::{is_err, ContractError};
use crate::math::{c_add, c_div, c_mul, c_sub, checked_div_spec, checked_i128, fits_i128};

verus! {

/// Curve parameters.
pub struct CurveConfig {
    /// Reserve ratio in percent (1–100).
    pub reserve_ratio: u32,
    /// Price of the first tokens, in reserve units per token.
    pub base_price: i128,
    pub reserve_token: Addr,
}

/// The curve's instance state.
pub struct BondingCurve {
    pub admin: Option<Addr>,
    pub config: Option<CurveConfig>,
    pub total_supply: i128,
    pub reserve_balance: i128,
}

/// Outcome of a trade: tokens moved, reserve paid or refunded, the trader's new balance and
/// the price after the trade.
#[derive(Clone, Copy, Debug, PartialEq, Eq, Structural)]
pub struct Trade {
    pub tokens: i128,
    pub cost: i128,
    pub new_balance: i128,
    pub new_price: i128,
    pub total_supply: i128,
}

// ── Mathematical model ──────────────────────────────────────────────────────

/// `a · b`, or the overflow error.
pub open spec fn mul_spec(a: Result<i128, ContractError>, b: int) -> Result<i128, ContractError> {
    match a {
        Ok(x) => checked_i128(x * b),
        Err(e) => Err(e),
    }
}

/// `a / b` as Rust's checked division on `i128` gives it, errors passed on.
pub open spec fn div_spec(a: Result<i128, ContractError>, b: Result<i128, ContractError>) -> Result<i128, ContractError> {
    match (a, b) {
        (Err(e), _) => Err(e),
        (Ok(_), Err(e)) => Err(e),
        (Ok(x), Ok(y)) => checked_div_spec(x as int, y as int),
    }
}

/// Tokens minted for `amount` of reserve: `amount / base_price` for the first purchase,
/// `amount · supply · ratio / (reserve · 100)` afterwards.
pub open spec fn buy_tokens_spec(supply: int, reserve: int, amount: int, ratio: int, base_price: int) -> Result<i128, ContractError> {
    if supply == 0 || reserve == 0 {
        checked_div_spec(amount, base_price)
    } else {
        div_spec(mul_spec(checked_i128(amount * supply), ratio), checked_i128(reserve * 100))
    }
}

/// Reserve refunded for `tokens`: `tokens · reserve · 100 / (supply · ratio)`, capped at the
/// reserve, so that a sale never takes out more than the curve holds (selling the whole
/// supply refunds the whole reserve, as the Bancor sell formula does).
pub open spec fn sell_return_spec(supply: int, reserve: int, tokens: int, ratio: int) -> Result<i128, ContractError> {
    match div_spec(mul_spec(checked_i128(tokens * reserve), 100), checked_i128(supply * ratio)) {
        Ok(v) => if v > reserve { Ok(reserve as i128) } else { Ok(v) },
        Err(e) => Err(e),
    }
}

/// Spot price: `reserve · 100 / (supply · ratio)`.
pub open spec fn price_spec(supply: int, reserve: int, ratio: int) -> Result<i128, ContractError> {
    div_spec(checked_i128(reserve * 100), checked_i128(supply * ratio))
}

// ── Executable functions ────────────────────────────────────────────────────

/// Tokens minted for `amount` of reserve.
pub fn calculate_buy_tokens(supply: i128, reserve: i128, amount: i128, ratio: u32, base_price: i128) -> (r: Result<i128, ContractError>)
    ensures
        r == buy_tokens_spec(supply as int, reserve as int, amount as int, ratio as int, base_price as int),
{
    if supply == 0 || reserve == 0 {
        return c_div(amount, base_price);
    }
    let numerator = match c_mul(amount, supply) {
        Ok(p) => c_mul(p, ratio as i128),
        Err(e) => Err(e),
    };
    let denominator = c_mul(reserve, 100);
    match (numerator, denominator) {
        (Err(e), _) => Err(e),
        (Ok(_), Err(e)) => Err(e),
        (Ok(n), Ok(d)) => c_div(n, d),
    }
}

/// Reserve refunded for selling `tokens`, never more than the reserve.
pub fn calculate_sell_return(supply: i128, reserve: i128, tokens: i128, ratio: u32) -> (r: Result<i128, ContractError>)
    ensures
        r == sell_return_spec(supply as int, reserve as int, tokens as int, ratio as int),
{
    let numerator = match c_mul(tokens, reserve) {
        Ok(p) => c_mul(p, 100),
        Err(e) => Err(e),
    };
    let denominator = c_mul(supply, ratio as i128);
    let linear = match (numerator, denominator) {
        (Err(e), _) => Err(e),
        (Ok(_), Err(e)) => Err(e),
        (Ok(n), Ok(d)) => c_div(n, d),
    };
    match linear {
        Ok(v) => if v > reserve { Ok(reserve) } else { Ok(v) },
        Err(e) => Err(e),
    }
}

/// Spot price of the curve.
pub fn get_current_price(supply: i128, reserve: i128, ratio: u32) -> (r: Result<i128, ContractError>)
    ensures
        r == price_spec(supply as int, reserve as int, ratio as int),
{
    let numerator = c_mul(reserve, 100);
    let denominator = c_mul(supply, ratio as i128);
    match (numerator, denominator) {
        (Err(e), _) => Err(e),
        (Ok(_), Err(e)) => Err(e),
        (Ok(n), Ok(d)) => c_div(n, d),
    }
}

impl BondingCurve {
    /// A curve that was never initialized.
    pub fn new() -> (r: BondingCurve)
        ensures
            r.admin is None,
            r.config is None,
            r.total_supply == 0,
            r.reserve_balance == 0,
    {
        BondingCurve { admin: None, config: None, total_supply: 0, reserve_balance: 0 }
    }

    /// One-time setup with a ratio of 1–100% and a positive base price; empty supply and
    /// reserve.
    pub fn initialize(&mut self, admin: Addr, config: CurveConfig) -> (r: Result<(), ContractError>)
        ensures
            old(self).admin is Some ==> is_err(r, ContractError::AlreadyInitialized),
            (old(self).admin is None && !(0 < config.reserve_ratio <= 100)) ==> is_err(r, ContractError::InvalidReserveRatio),
            (old(self).admin is None && 0 < config.reserve_ratio <= 100 && config.base_price <= 0)
                ==> is_err(r, ContractError::InvalidBasePrice),
            (old(self).admin is None && 0 < config.reserve_ratio <= 100 && config.base_price > 0) <==> r is Ok,
            r is Ok ==> opt_view(final(self).admin) == Some(admin@)
                && (final(self).config matches Some(c) && c.reserve_ratio == config.reserve_ratio
                    && c.base_price == config.base_price && c.reserve_token@ == config.reserve_token@)
                && final(self).total_supply == 0 && final(self).reserve_balance == 0,
            r is Err ==> opt_view(final(self).admin) == opt_view(old(self).admin)
                && final(self).total_supply == old(self).total_supply && final(self).reserve_balance == old(self).reserve_balance,
    {
        if self.admin.is_some() {
            return Err(ContractError::AlreadyInitialized);
        }
        if !(config.reserve_ratio > 0 && config.reserve_ratio <= 100) {
            return Err(ContractError::InvalidReserveRatio);
        }
        if config.base_price <= 0 {
            return Err(ContractError::InvalidBasePrice);
        }
        self.admin = Some(admin);
        self.config = Some(config);
        self.total_supply = 0;
        self.reserve_balance = 0;
        Ok(())
    }

    /// Buys tokens for `amount` of reserve; `balance` is the buyer's token balance. The
    /// supply grows by the tokens minted and the reserve by the amount.
    pub fn buy(&mut self, balance: i128, amount: i128) -> (r: Result<Trade, ContractError>)
        ensures
            amount <= 0 ==> is_err(r, ContractError::AmountNotPositive),
            (amount > 0 && old(self).config is None) ==> is_err(r, ContractError::NotInitialized),
            (amount > 0 && old(self).config is Some) ==> {
                let c = old(self).config.unwrap();
                let (supply, reserve) = (old(self).total_supply as int, old(self).reserve_balance as int);
                match buy_tokens_spec(supply, reserve, amount as int, c.reserve_ratio as int, c.base_price as int) {
                    Err(e) => is_err(r, e),
                    Ok(t) => if fits_i128(supply + t) && fits_i128(reserve + amount) && fits_i128(balance + t) {
                        match price_spec(supply + t, reserve + amount, c.reserve_ratio as int) {
                            Err(e) => is_err(r, e),
                            Ok(_) => r is Ok,
                        }
                    } else {
                        is_err(r, ContractError::Overflow)
                    },
                }
            },
            r matches Ok(t) ==> {
                let c = old(self).config.unwrap();
                &&& old(self).config is Some
                &&& buy_tokens_spec(old(self).total_supply as int, old(self).reserve_balance as int, amount as int,
                    c.reserve_ratio as int, c.base_price as int) == Ok::<i128, ContractError>(t.tokens)
                &&& t.cost == amount
                &&& t.total_supply == old(self).total_supply + t.tokens
                &&& final(self).total_supply == t.total_supply
                &&& final(self).reserve_balance == old(self).reserve_balance + amount
                &&& t.new_balance == balance + t.tokens
                &&& price_spec(t.total_supply as int, final(self).reserve_balance as int, c.reserve_ratio as int)
                    == Ok::<i128, ContractError>(t.new_price)
            },
            r is Err ==> final(self).total_supply == old(self).total_supply
                && final(self).reserve_balance == old(self).reserve_balance,
            opt_view(final(self).admin) == opt_view(old(self).admin),
            final(self).config == old(self).config,
            old(self).reserve_balance >= 0 ==> final(self).reserve_balance >= 0,
    {
        if amount <= 0 {
            return Err(ContractError::AmountNotPositive);
        }
        let (ratio, base_price) = match &self.config {
            None => return Err(ContractError::NotInitialized),
            Some(c) => (c.reserve_ratio, c.base_price),
        };
        let supply = self.total_supply;
        let reserve = self.reserve_balance;
        let tokens = calculate_buy_tokens(supply, reserve, amount, ratio, base_price)?;
        let new_supply = c_add(supply, tokens)?;
        let new_reserve = c_add(reserve, amount)?;
        let new_balance = c_add(balance, tokens)?;
        let new_price = get_current_price(new_supply, new_reserve, ratio)?;
        self.total_supply = new_supply;
        self.reserve_balance = new_reserve;
        Ok(Trade { tokens, cost: amount, new_balance, new_price, total_supply: new_supply })
    }

    /// Sells `tokens` back to the curve; `balance` is the seller's token balance. The supply
    /// shrinks by the tokens and the reserve by the refund; with no supply left the price
    /// returns to the base price.
    pub fn sell(&mut self, balance: i128, tokens: i128) -> (r: Result<Trade, ContractError>)
        ensures
            tokens <= 0 ==> is_err(r, ContractError::TokensNotPositive),
            (tokens > 0 && old(self).config is None) ==> is_err(r, ContractError::NotInitialized),
            (tokens > 0 && old(self).config is Some && balance < tokens) ==> is_err(r, ContractError::InsufficientBalance),
            (tokens > 0 && old(self).config is Some && balance >= tokens) ==> {
                let c = old(self).config.unwrap();
                let (supply, reserve) = (old(self).total_supply as int, old(self).reserve_balance as int);
                match sell_return_spec(supply, reserve, tokens as int, c.reserve_ratio as int) {
                    Err(e) => is_err(r, e),
                    Ok(refund) => if fits_i128(supply - tokens) && fits_i128(reserve - refund) && fits_i128(balance - tokens) {
                        if supply - tokens > 0 {
                            match price_spec(supply - tokens, reserve - refund, c.reserve_ratio as int) {
                                Err(e) => is_err(r, e),
                                Ok(_) => r is Ok,
                            }
                        } else {
                            r is Ok
                        }
                    } else {
                        is_err(r, ContractError::Overflow)
                    },
                }
            },
            r matches Ok(t) ==> {
                let c = old(self).config.unwrap();
                &&& old(self).config is Some
                &&& balance >= tokens
                &&& sell_return_spec(old(self).total_supply as int, old(self).reserve_balance as int, tokens as int,
                    c.reserve_ratio as int) == Ok::<i128, ContractError>(t.cost)
                &&& t.tokens == tokens
                &&& t.total_supply == old(self).total_supply - tokens
                &&& final(self).total_supply == t.total_supply
                &&& final(self).reserve_balance == old(self).reserve_balance - t.cost
                &&& t.new_balance == balance - tokens
                &&& if t.total_supply > 0 {
                    price_spec(t.total_supply as int, final(self).reserve_balance as int, c.reserve_ratio as int)
                        == Ok::<i128, ContractError>(t.new_price)
                } else {
                    t.new_price == c.base_price
                }
            },
            r is Err ==> final(self).total_supply == old(self).total_supply
                && final(self).reserve_balance == old(self).reserve_balance,
            opt_view(final(self).admin) == opt_view(old(self).admin),
            final(self).config == old(self).config,
            r matches Ok(t) ==> t.cost <= old(self).reserve_balance,
            old(self).reserve_balance >= 0 ==> final(self).reserve_balance >= 0,
    {
        if tokens <= 0 {
            return Err(ContractError::TokensNotPositive);
        }
        let (ratio, base_price) = match &self.config {
            None => return Err(ContractError::NotInitialized),
            Some(c) => (c.reserve_ratio, c.base_price),
        };
        if balance < tokens {
            return Err(ContractError::InsufficientBalance);
        }
        let supply = self.total_supply;
        let reserve = self.reserve_balance;
        let refund = calculate_sell_return(supply, reserve, tokens, ratio)?;
        let new_supply = c_sub(supply, tokens)?;
        let new_reserve = c_sub(reserve, refund)?;
        let new_balance = c_sub(balance, tokens)?;
        let new_price = if new_supply > 0 { get_current_price(new_supply, new_reserve, ratio)? } else { base_price };
        self.total_supply = new_supply;
        self.reserve_balance = new_reserve;
        Ok(Trade { tokens, cost: refund, new_balance, new_price, total_supply: new_supply })
    }

    /// Current price: the base price while nothing is minted, the spot price afterwards.
    pub fn get_price(&self) -> (r: Result<i128, ContractError>)
        ensures
            self.config is None ==> is_err(r, ContractError::NotInitialized),
            self.config matches Some(c) ==> r == (if self.total_supply == 0 { Ok::<i128, ContractError>(c.base_price) }
                else { price_spec(self.total_supply as int, self.reserve_balance as int, c.reserve_ratio as int) }),
    {
        match &self.config {
            None => Err(ContractError::NotInitialized),
            Some(c) => if self.total_supply == 0 {
                Ok(c.base_price)
            } else {
                get_current_price(self.total_supply, self.reserve_balance, c.reserve_ratio)
            },
        }
    }

    /// Changes the reserve ratio; only the admin may, and it must be 1–100%.
    pub fn update_reserve_ratio(&mut self, admin: &Addr, new_ratio: u32) -> (r: Result<(), ContractError>)
        ensures
            (old(self).admin is None || old(self).config is None) ==> is_err(r, ContractError::NotInitialized),
            (old(self).admin matches Some(a) && a@ != admin@ && old(self).config is Some) ==> is_err(r, ContractError::Unauthorized),
            ((old(self).admin matches Some(a) && a@ == admin@) && old(self).config is Some && !(0 < new_ratio <= 100))
                ==> is_err(r, ContractError::InvalidReserveRatio),
            ((old(self).admin matches Some(a) && a@ == admin@) && old(self).config is Some && 0 < new_ratio <= 100) <==> r is Ok,
            r is Ok ==> (final(self).config matches Some(c) && c.reserve_ratio == new_ratio
                && c.base_price == old(self).config.unwrap().base_price
                && c.reserve_token@ == old(self).config.unwrap().reserve_token@),
            r is Err ==> final(self).config == old(self).config,
            final(self).total_supply == old(self).total_supply,
            final(self).reserve_balance == old(self).reserve_balance,
    {
        let ok = match (&self.admin, &self.config) {
            (Some(a), Some(_)) => addr_eq(a, admin),
            _ => return Err(ContractError::NotInitialized),
        };
        if !ok {
            return Err(ContractError::Unauthorized);
        }
        if !(new_ratio > 0 && new_ratio <= 100) {
            return Err(ContractError::InvalidReserveRatio);
        }
        let c = self.config.take().unwrap();
        self.config = Some(CurveConfig { reserve_ratio: new_ratio, base_price: c.base_price, reserve_token: c.reserve_token });
        Ok(())
    }
}

/// A token balance, 0 when nothing is stored.
pub fn balance_of(stored: Option<i128>) -> (r: i128)
    ensures
        r == (match stored { Some(b) => b, None => 0 }),
{
    match stored {
        Some(b) => b,
        None => 0,
    }
}

// ── Laws ────────────────────────────────────────────────────────────────────

/// Selling the whole supply refunds exactly the reserve, at any reserve ratio of 1–100%
/// (when the figures fit).
pub proof fn lemma_full_sell_drains_reserve(supply: int, reserve: int, ratio: int)
    requires
        supply > 0,
        reserve >= 0,
        0 < ratio <= 100,
        supply * reserve * 100 <= i128::MAX,
        supply * 100 <= i128::MAX,
    ensures
        sell_return_spec(supply, reserve, supply, ratio) == Ok::<i128, ContractError>(reserve as i128),
{
    assert(0 <= supply * reserve <= supply * reserve * 100) by (nonlinear_arith)
        requires supply > 0, reserve >= 0;
    assert(0 < supply * ratio <= supply * 100) by (nonlinear_arith) requires supply > 0, 0 < ratio <= 100;
    assert(supply * 100 <= supply * reserve * 100 || reserve == 0) by (nonlinear_arith)
        requires supply > 0, reserve >= 0;
    assert(supply * reserve * 100 == (supply * reserve) * 100);
    let n = supply * reserve * 100;
    let d = supply * ratio;
    assert(n / d >= reserve) by (nonlinear_arith) requires n == supply * reserve * 100, d == supply * ratio,
        supply > 0, reserve >= 0, 0 < ratio <= 100;
    assert(0 <= n / d <= n) by (nonlinear_arith) requires n >= 0, d > 0;
    assert(fits_i128(reserve)) by (nonlinear_arith) requires reserve >= 0, supply > 0,
        supply * reserve * 100 <= i128::MAX;
}

/// A sale never refunds more than the reserve, so a non-negative reserve stays
/// non-negative.
pub proof fn lemma_sale_within_reserve(supply: int, reserve: int, tokens: int, ratio: int)
    requires
        fits_i128(reserve),
    ensures
        sell_return_spec(supply, reserve, tokens, ratio) matches Ok(v) ==> v <= reserve,
{
}

/// The first purchase (no supply or no reserve yet) mints at the base price:
/// `amount / base_price` tokens, whatever the reserve ratio.
pub proof fn lemma_first_purchase_at_base_price(reserve: int, amount: int, ratio: int, base_price: int)
    requires
        amount >= 0,
        base_price > 0,
        fits_i128(amount),
    ensures
        buy_tokens_spec(0, reserve, amount, ratio, base_price) == Ok::<i128, ContractError>((amount / base_price) as i128),
        buy_tokens_spec(reserve, 0, amount, ratio, base_price) == Ok::<i128, ContractError>((amount / base_price) as i128),
{
    assert(0 <= amount / base_price <= amount) by (nonlinear_arith) requires amount >= 0, base_price > 0;
}

/// After the first purchase, the tokens minted are exactly amount · supply · ratio /
/// (reserve · 100), rounded down, with the configured ratio; so, for the same amount, supply
/// and reserve, a higher reserve ratio never mints fewer tokens.
pub proof fn lemma_buy_tokens_follow_ratio(supply: int, reserve: int, amount: int, r1: int, r2: int, base_price: int)
    requires
        supply > 0,
        reserve > 0,
        amount >= 0,
        0 < r1 <= r2 <= 100,
        fits_i128(amount * supply * r2),
        fits_i128(reserve * 100),
    ensures
        buy_tokens_spec(supply, reserve, amount, r1, base_price)
            == Ok::<i128, ContractError>(((amount * supply * r1) / (reserve * 100)) as i128),
        buy_tokens_spec(supply, reserve, amount, r2, base_price)
            == Ok::<i128, ContractError>(((amount * supply * r2) / (reserve * 100)) as i128),
        (amount * supply * r1) / (reserve * 100) <= (amount * supply * r2) / (reserve * 100),
{
    let x = amount * supply;
    let d = reserve * 100;
    assert(x >= 0) by (nonlinear_arith) requires amount >= 0, supply > 0, x == amount * supply;
    assert(0 <= x * r1 <= x * r2) by (nonlinear_arith) requires x >= 0, 0 < r1 <= r2;
    assert(d > 0);
    assert((x * r1) / d <= (x * r2) / d) by (nonlinear_arith) requires 0 <= x * r1 <= x * r2, d > 0;
    assert(0 <= (x * r2) / d <= x * r2) by (nonlinear_arith) requires x * r2 >= 0, d > 0;
    assert(0 <= (x * r1) / d <= x * r1) by (nonlinear_arith) requires x * r1 >= 0, d > 0;
    assert(amount * supply * r1 == x * r1);
    assert(amount * supply * r2 == x * r2);
    assert(x <= x * r1) by (nonlinear_arith) requires x >= 0, r1 >= 1;
    assert(fits_i128(x) && fits_i128(x * r1) && fits_i128(d));
    assert(checked_i128(x) == Ok::<i128, ContractError>(x as i128));
    assert(mul_spec(checked_i128(x), r1) == Ok::<i128, ContractError>((x * r1) as i128));
    assert(mul_spec(checked_i128(x), r2) == Ok::<i128, ContractError>((x * r2) as i128));
    assert(checked_i128(d) == Ok::<i128, ContractError>(d as i128));
}

} // verus!
