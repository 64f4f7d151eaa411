//! Constant-product pool with a 0.3% fee, price-impact and slippage reporting.
use vstd::prelude::*;

use crate::addr::{addr_eq, address_precedes, address_precedes_spec, is_address_strkey, Addr};
use crate::error::{is_err, ContractError};
use crate::math::{c_add, c_div, c_mul, c_sub, div_trunc, fits_i128, fits_u64};

verus! {

/// Price scale of the spot price (1e7).
pub const PRICE_SCALE: i128 = 10_000_000;

/// The pool's instance state.
pub struct AmmPoolV2 {
    pub token_a: Addr,
    pub token_b: Addr,
    pub reserve_a: i128,
    pub reserve_b: i128,
    pub lp_supply: i128,
    /// Cumulative volume of token A traded.
    pub volume_a: i128,
    /// Cumulative volume of token B traded.
    pub volume_b: i128,
    /// Number of swaps executed.
    pub swap_count: u64,
}

/// What `add_liquidity` took and minted.
pub struct LiquidityAdded {
    pub amount_a: i128,
    pub amount_b: i128,
    pub lp_minted: i128,
    /// The provider's LP balance after the mint.
    pub new_lp_balance: i128,
    /// Spot price after the deposit.
    pub spot_price: i128,
}

/// What `remove_liquidity` paid out.
pub struct LiquidityRemoved {
    pub amount_a: i128,
    pub amount_b: i128,
    /// The provider's LP balance after the burn.
    pub new_lp_balance: i128,
    /// Spot price after the withdrawal.
    pub spot_price: i128,
}

/// What a swap paid out and the figures of its swap and volume events.
pub struct SwapOutcome {
    /// True when token A was paid in (and token B paid out).
    pub a_in: bool,
    pub amount_out: i128,
    pub price_before: i128,
    pub price_after: i128,
    pub price_impact_bps: i128,
    pub slippage_bps: i128,
    pub volume_a: i128,
    pub volume_b: i128,
    pub swap_count: u64,
}

// ── Mathematical model ──────────────────────────────────────────────────────

/// Spot price of the input token in units of the output token, scaled by 1e7; 0 for an
/// empty input reserve.
pub open spec fn spot_price_spec(reserve_in: int, reserve_out: int) -> int {
    if reserve_in == 0 { 0 } else { div_trunc(reserve_out * PRICE_SCALE, reserve_in) }
}

pub open spec fn spot_price_computable(reserve_in: int, reserve_out: int) -> bool {
    reserve_in != 0 ==> fits_i128(reserve_out * PRICE_SCALE) && fits_i128(spot_price_spec(reserve_in, reserve_out))
}

/// The integer square root: the largest r with r * r <= y (0 for y <= 0).
pub open spec fn is_isqrt(y: int, r: int) -> bool {
    if y <= 0 { r == 0 } else { r >= 0 && r * r <= y && y < (r + 1) * (r + 1) }
}

/// The integer square root of y as a value (see `is_isqrt`, which fixes it uniquely).
pub open spec fn isqrt(y: int) -> int {
    choose|r: int| is_isqrt(y, r)
}

/// Amounts (a, b) taken and LP shares minted by a deposit of the desired amounts: the
/// desired amounts and sqrt(a * b) into an empty pool; otherwise the desired A amount with
/// the matching B amount, or, when that exceeds the desired B amount, the desired B amount
/// with the matching A amount, minting shares in proportion to the supply.
pub open spec fn deposit_amounts(pool: AmmPoolV2, ad: int, bd: int) -> (int, int, int) {
    let (ra, rb, supply) = (pool.reserve_a as int, pool.reserve_b as int, pool.lp_supply as int);
    if supply == 0 {
        (ad, bd, isqrt(ad * bd))
    } else {
        let b_opt = div_trunc(ad * rb, ra);
        if b_opt <= bd {
            (ad, b_opt, div_trunc(ad * supply, ra))
        } else {
            (div_trunc(bd * ra, rb), bd, div_trunc(bd * supply, rb))
        }
    }
}

/// Every product and quotient of a deposit fits an `i128` and no divisor is zero, and so
/// do the new reserves, supply, provider balance and spot price.
pub open spec fn deposit_computable(pool: AmmPoolV2, lp_balance: int, ad: int, bd: int) -> bool {
    let (ra, rb, supply) = (pool.reserve_a as int, pool.reserve_b as int, pool.lp_supply as int);
    let (a, b, lp) = deposit_amounts(pool, ad, bd);
    let b_opt = div_trunc(ad * rb, ra);
    &&& (if supply == 0 {
        fits_i128(ad * bd)
    } else {
        &&& fits_i128(ad * rb)
        &&& ra != 0
        &&& fits_i128(b_opt)
        &&& if b_opt <= bd {
            fits_i128(ad * supply) && fits_i128(div_trunc(ad * supply, ra))
        } else {
            &&& fits_i128(bd * ra)
            &&& rb != 0
            &&& fits_i128(div_trunc(bd * ra, rb))
            &&& fits_i128(bd * supply)
            &&& fits_i128(div_trunc(bd * supply, rb))
        }
    })
    &&& fits_i128(ra + a)
    &&& fits_i128(rb + b)
    &&& fits_i128(supply + lp)
    &&& fits_i128(lp_balance + lp)
    &&& spot_price_computable(ra + a, rb + b)
}

/// Every product and quotient of a withdrawal of `lp_amount` shares fits an `i128` and the
/// supply is not zero, and so do the new reserves, supply, provider balance and spot price.
pub open spec fn withdrawal_computable(pool: AmmPoolV2, lp_balance: int, lp_amount: int) -> bool {
    let (ra, rb, supply) = (pool.reserve_a as int, pool.reserve_b as int, pool.lp_supply as int);
    let a = div_trunc(lp_amount * ra, supply);
    let b = div_trunc(lp_amount * rb, supply);
    &&& fits_i128(lp_amount * ra)
    &&& supply != 0
    &&& fits_i128(a)
    &&& fits_i128(lp_amount * rb)
    &&& fits_i128(b)
    &&& fits_i128(ra - a)
    &&& fits_i128(rb - b)
    &&& fits_i128(supply - lp_amount)
    &&& fits_i128(lp_balance - lp_amount)
    &&& spot_price_computable(ra - a, rb - b)
}

/// CPMM output with the 0.3% fee: amount_in*997*reserve_out / (reserve_in*1000 + amount_in*997).
pub open spec fn swap_out_spec(reserve_in: int, reserve_out: int, amount_in: int) -> int {
    div_trunc(amount_in * 997 * reserve_out, reserve_in * 1000 + amount_in * 997)
}

/// Fee-free output: amount_in*reserve_out / (reserve_in + amount_in).
pub open spec fn ideal_out_spec(reserve_in: int, reserve_out: int, amount_in: int) -> int {
    div_trunc(amount_in * reserve_out, reserve_in + amount_in)
}

/// Slippage against the fee-free output in basis points (0 when that output is not positive).
pub open spec fn slippage_bps_spec(ideal_out: int, amount_out: int) -> int {
    if ideal_out > 0 { div_trunc((ideal_out - amount_out) * 10_000, ideal_out) } else { 0 }
}

/// Absolute price move in basis points of the price before (0 when that price is not positive).
pub open spec fn price_impact_bps_spec(before: int, after: int) -> int {
    if before > 0 {
        let delta = if after > before { after - before } else { before - after };
        div_trunc(delta * 10_000, before)
    } else {
        0
    }
}

/// Reserves (in, out) of a swap that pays in token A, or B.
pub open spec fn swap_reserves(pool: AmmPoolV2, a_in: bool) -> (int, int) {
    if a_in { (pool.reserve_a as int, pool.reserve_b as int) } else { (pool.reserve_b as int, pool.reserve_a as int) }
}

/// Every intermediate of a swap fits its type and no divisor is zero.
pub open spec fn swap_computable(pool: AmmPoolV2, a_in: bool, amount_in: int) -> bool {
    let (ri, ro) = swap_reserves(pool, a_in);
    let out = swap_out_spec(ri, ro, amount_in);
    let ideal = ideal_out_spec(ri, ro, amount_in);
    let new_a = if a_in { pool.reserve_a + amount_in } else { pool.reserve_a - out };
    let new_b = if a_in { pool.reserve_b - out } else { pool.reserve_b + amount_in };
    let before = spot_price_spec(ri, ro);
    let after = spot_price_spec(new_a, new_b);
    &&& spot_price_computable(ri, ro)
    &&& fits_i128(amount_in * 997)
    &&& fits_i128(amount_in * 997 * ro)
    &&& fits_i128(ri * 1000)
    &&& fits_i128(ri * 1000 + amount_in * 997)
    &&& ri * 1000 + amount_in * 997 != 0
    &&& fits_i128(out)
    &&& fits_i128(amount_in * ro)
    &&& fits_i128(ri + amount_in)
    &&& ri + amount_in != 0
    &&& fits_i128(ideal)
    &&& (ideal > 0 ==> fits_i128(ideal - out) && fits_i128((ideal - out) * 10_000) && fits_i128(slippage_bps_spec(ideal, out)))
    &&& fits_i128(new_a)
    &&& fits_i128(new_b)
    &&& spot_price_computable(new_a, new_b)
    &&& (before > 0 ==> fits_i128(after - before) && fits_i128(before - after)
        && fits_i128((if after > before { after - before } else { before - after }) * 10_000))
    &&& fits_i128(pool.volume_a + (if a_in { amount_in } else { out }))
    &&& fits_i128(pool.volume_b + (if a_in { out } else { amount_in }))
    &&& fits_u64(pool.swap_count + 1)
}

// ── Executable functions ────────────────────────────────────────────────────

impl AmmPoolV2 {
    /// A fresh pool over the two tokens, ordered so that `token_a` is the one that comes first
    /// in the order of Soroban addresses. Refused when a token is not the strkey of an address.
    pub fn initialize(token_a: Addr, token_b: Addr) -> (r: Result<AmmPoolV2, ContractError>)
        ensures
            r matches Ok(p) ==> {
                &&& (address_precedes_spec(token_a@, token_b@) ==> p.token_a@ == token_a@ && p.token_b@ == token_b@)
                &&& (!address_precedes_spec(token_a@, token_b@) ==> p.token_a@ == token_b@ && p.token_b@ == token_a@)
                &&& p.reserve_a == 0
                &&& p.reserve_b == 0
                &&& p.lp_supply == 0
                &&& p.volume_a == 0
                &&& p.volume_b == 0
                &&& p.swap_count == 0
            },
            r is Err ==> is_err(r, ContractError::InvalidAddress),
            (is_address_strkey(token_a@) && is_address_strkey(token_b@)) <==> r is Ok,
    {
        let a_first = match address_precedes(&token_a, &token_b) {
            Some(x) => x,
            None => return Err(ContractError::InvalidAddress),
        };
        let (a, b) = if a_first { (token_a, token_b) } else { (token_b, token_a) };
        Ok(AmmPoolV2 { token_a: a, token_b: b, reserve_a: 0, reserve_b: 0, lp_supply: 0, volume_a: 0, volume_b: 0, swap_count: 0 })
    }

    /// Spot price of token_in in terms of token_out, scaled by 1e7; 0 for an empty input reserve.
    pub fn _spot_price(reserve_in: i128, reserve_out: i128) -> (r: Result<i128, ContractError>)
        ensures
            spot_price_computable(reserve_in as int, reserve_out as int) <==> r is Ok,
            r matches Ok(v) ==> v == spot_price_spec(reserve_in as int, reserve_out as int),
            r matches Err(e) ==> e == ContractError::Overflow,
    {
        if reserve_in == 0 {
            return Ok(0);
        }
        let n = c_mul(reserve_out, PRICE_SCALE)?;
        c_div(n, reserve_in)
    }

    /// Current spot price of token A in units of token B, scaled by 1e7.
    pub fn get_spot_price(&self) -> (r: Result<i128, ContractError>)
        ensures
            spot_price_computable(self.reserve_a as int, self.reserve_b as int) <==> r is Ok,
            r matches Ok(v) ==> v == spot_price_spec(self.reserve_a as int, self.reserve_b as int),
    {
        Self::_spot_price(self.reserve_a, self.reserve_b)
    }

    /// Reserves of both tokens and the LP supply.
    pub fn get_pool_info(&self) -> (r: (i128, i128, i128))
        ensures
            r == (self.reserve_a, self.reserve_b, self.lp_supply),
    {
        (self.reserve_a, self.reserve_b, self.lp_supply)
    }

    /// Cumulative volumes of both tokens and the number of swaps.
    pub fn get_cumulative_volume(&self) -> (r: (i128, i128, u64))
        ensures
            r == (self.volume_a, self.volume_b, self.swap_count),
    {
        (self.volume_a, self.volume_b, self.swap_count)
    }

    /// Integer square root by Newton's iteration: 0 for y <= 0, 1 for y < 4, and otherwise
    /// the largest r with r * r <= y.
    pub fn sqrt(y: i128) -> (r: i128)
        ensures
            is_isqrt(y as int, r as int),
    {
        if y <= 0 {
            return 0;
        }
        if y < 4 {
            assert(1 * 1 <= y && y < 2 * 2);
            return 1;
        }
        let mut z = y;
        let mut x = y / 2 + 1;
        proof {
            lemma_newton_step_bound(y as int, y as int);
            assert(sq(2) <= y);
            assert forall|s: int| 0 <= s && #[trigger] sq(s) <= y implies s <= z by {
                if s >= 1 {
                    assert(s <= s * s) by (nonlinear_arith) requires s >= 1;
                }
            }
        }
        while x < z
            invariant
                4 <= y,
                2 <= x <= y / 2 + 1,
                2 <= z <= y,
                x == (y / z + z) / 2 || (z == y && x == y / 2 + 1),
                forall|s: int| 0 <= s && #[trigger] sq(s) <= y ==> s <= x,
                forall|s: int| 0 <= s && #[trigger] sq(s) <= y ==> s <= z,
            decreases z,
        {
            z = x;
            proof {
                assert(y / x <= y / 2) by (nonlinear_arith) requires x >= 2, y >= 0;
                assert(y / 2 + y / 2 <= y);
            }
            x = (y / x + x) / 2;
            proof {
                lemma_newton_step_bound(y as int, z as int);
                assert(sq(2) <= y);
            }
        }
        proof {
            // x >= z here; were z * z > y the next iterate would be strictly below z.
            if z * z > y {
                lemma_newton_step_decreases(y as int, z as int);
            }
            assert(sq(z as int) <= y);
            assert((z + 1) * (z + 1) > y) by {
                if (z + 1) * (z + 1) <= y {
                    assert(sq(z + 1) <= y);
                }
            }
        }
        z
    }

    /// Deposits liquidity for a provider holding `lp_balance` LP shares. The first deposit
    /// mints sqrt(a * b); later ones take the desired A amount with the matching B amount, or,
    /// when that exceeds the desired B amount, the desired B amount with the matching A amount,
    /// and mint shares in proportion to the supply.
    pub fn add_liquidity(&mut self, lp_balance: i128, amount_a_desired: i128, amount_b_desired: i128) -> (r: Result<LiquidityAdded, ContractError>)
        ensures
            r is Err ==> *final(self) == *old(self),
            r matches Ok(o) ==> {
                &&& (old(self).lp_supply == 0 ==> o.amount_a == amount_a_desired && o.amount_b == amount_b_desired
                    && is_isqrt(amount_a_desired * amount_b_desired, o.lp_minted as int))
                &&& (old(self).lp_supply != 0 ==> {
                    let b_opt = div_trunc(amount_a_desired * old(self).reserve_b, old(self).reserve_a as int);
                    if b_opt <= amount_b_desired {
                        &&& o.amount_a == amount_a_desired
                        &&& o.amount_b == b_opt
                        &&& o.lp_minted == div_trunc(amount_a_desired * old(self).lp_supply, old(self).reserve_a as int)
                    } else {
                        &&& o.amount_a == div_trunc(amount_b_desired * old(self).reserve_a, old(self).reserve_b as int)
                        &&& o.amount_b == amount_b_desired
                        &&& o.lp_minted == div_trunc(amount_b_desired * old(self).lp_supply, old(self).reserve_b as int)
                    }
                })
                &&& final(self).reserve_a == old(self).reserve_a + o.amount_a
                &&& final(self).reserve_b == old(self).reserve_b + o.amount_b
                &&& final(self).lp_supply == old(self).lp_supply + o.lp_minted
                &&& o.new_lp_balance == lp_balance + o.lp_minted
                &&& o.spot_price == spot_price_spec(final(self).reserve_a as int, final(self).reserve_b as int)
                &&& final(self).token_a == old(self).token_a
                &&& final(self).token_b == old(self).token_b
                &&& final(self).volume_a == old(self).volume_a
                &&& final(self).volume_b == old(self).volume_b
                &&& final(self).swap_count == old(self).swap_count
            },
            r matches Err(e) ==> e == ContractError::Overflow || e == ContractError::DivisionByZero,
            (old(self).lp_supply != 0 && old(self).reserve_a == 0
                && fits_i128(amount_a_desired * old(self).reserve_b)) ==> r == Err::<LiquidityAdded, ContractError>(ContractError::DivisionByZero),
            deposit_computable(*old(self), lp_balance as int, amount_a_desired as int, amount_b_desired as int) <==> r is Ok,
            r matches Ok(o) ==> (o.amount_a as int, o.amount_b as int, o.lp_minted as int)
                == deposit_amounts(*old(self), amount_a_desired as int, amount_b_desired as int),
    {
        let reserve_a = self.reserve_a;
        let reserve_b = self.reserve_b;
        let total_supply = self.lp_supply;
        let (amount_a, amount_b, lp_to_mint) = if total_supply == 0 {
            let p = c_mul(amount_a_desired, amount_b_desired)?;
            let lp = Self::sqrt(p);
            proof {
                lemma_isqrt_unique(p as int, lp as int, isqrt(p as int));
            }
            (amount_a_desired, amount_b_desired, lp)
        } else {
            let b_optimal = c_div(c_mul(amount_a_desired, reserve_b)?, reserve_a)?;
            if b_optimal <= amount_b_desired {
                let lp = c_div(c_mul(amount_a_desired, total_supply)?, reserve_a)?;
                (amount_a_desired, b_optimal, lp)
            } else {
                let a_optimal = c_div(c_mul(amount_b_desired, reserve_a)?, reserve_b)?;
                let lp = c_div(c_mul(amount_b_desired, total_supply)?, reserve_b)?;
                (a_optimal, amount_b_desired, lp)
            }
        };
        let new_reserve_a = c_add(reserve_a, amount_a)?;
        let new_reserve_b = c_add(reserve_b, amount_b)?;
        let new_supply = c_add(total_supply, lp_to_mint)?;
        let new_balance = c_add(lp_balance, lp_to_mint)?;
        let spot_price = match Self::_spot_price(new_reserve_a, new_reserve_b) {
            Ok(p) => p,
            Err(e) => return Err(e),
        };
        self.reserve_a = new_reserve_a;
        self.reserve_b = new_reserve_b;
        self.lp_supply = new_supply;
        Ok(LiquidityAdded { amount_a, amount_b, lp_minted: lp_to_mint, new_lp_balance: new_balance, spot_price })
    }

    /// Burns `lp_amount` of a provider's `lp_balance` LP shares and pays out the proportional
    /// share of both reserves.
    pub fn remove_liquidity(&mut self, lp_balance: i128, lp_amount: i128) -> (r: Result<LiquidityRemoved, ContractError>)
        ensures
            r is Err ==> *final(self) == *old(self),
            lp_balance < lp_amount ==> r == Err::<LiquidityRemoved, ContractError>(ContractError::InsufficientLpBalance),
            (lp_balance >= lp_amount && old(self).lp_supply == 0
                && fits_i128(lp_amount * old(self).reserve_a)) ==> r == Err::<LiquidityRemoved, ContractError>(ContractError::DivisionByZero),
            r matches Err(e) ==> e == ContractError::Overflow || e == ContractError::DivisionByZero
                || e == ContractError::InsufficientLpBalance,
            (lp_balance >= lp_amount && withdrawal_computable(*old(self), lp_balance as int, lp_amount as int)) <==> r is Ok,
            r matches Ok(o) ==> {
                &&& lp_balance >= lp_amount
                &&& o.amount_a == div_trunc(lp_amount * old(self).reserve_a, old(self).lp_supply as int)
                &&& o.amount_b == div_trunc(lp_amount * old(self).reserve_b, old(self).lp_supply as int)
                &&& final(self).reserve_a == old(self).reserve_a - o.amount_a
                &&& final(self).reserve_b == old(self).reserve_b - o.amount_b
                &&& final(self).lp_supply == old(self).lp_supply - lp_amount
                &&& o.new_lp_balance == lp_balance - lp_amount
                &&& o.spot_price == spot_price_spec(final(self).reserve_a as int, final(self).reserve_b as int)
                &&& final(self).token_a == old(self).token_a
                &&& final(self).token_b == old(self).token_b
                &&& final(self).volume_a == old(self).volume_a
                &&& final(self).volume_b == old(self).volume_b
                &&& final(self).swap_count == old(self).swap_count
            },
    {
        if lp_balance < lp_amount {
            return Err(ContractError::InsufficientLpBalance);
        }
        let reserve_a = self.reserve_a;
        let reserve_b = self.reserve_b;
        let total_supply = self.lp_supply;
        let amount_a = c_div(c_mul(lp_amount, reserve_a)?, total_supply)?;
        let amount_b = c_div(c_mul(lp_amount, reserve_b)?, total_supply)?;
        let new_reserve_a = c_sub(reserve_a, amount_a)?;
        let new_reserve_b = c_sub(reserve_b, amount_b)?;
        let new_supply = c_sub(total_supply, lp_amount)?;
        let new_balance = c_sub(lp_balance, lp_amount)?;
        let spot_price = match Self::_spot_price(new_reserve_a, new_reserve_b) {
            Ok(p) => p,
            Err(e) => return Err(e),
        };
        self.reserve_a = new_reserve_a;
        self.reserve_b = new_reserve_b;
        self.lp_supply = new_supply;
        Ok(LiquidityRemoved { amount_a, amount_b, new_lp_balance: new_balance, spot_price })
    }

    /// Swaps `amount_in` of `token_in` for the other token along the constant-product curve
    /// with a 0.3% fee; refuses an unknown token and an output below `min_amount_out`.
    pub fn swap(&mut self, token_in: &Addr, amount_in: i128, min_amount_out: i128) -> (r: Result<SwapOutcome, ContractError>)
        ensures
            r is Err ==> *final(self) == *old(self),
            (token_in@ != old(self).token_a@ && token_in@ != old(self).token_b@) <==> r == Err::<SwapOutcome, ContractError>(ContractError::InvalidToken),
            ({
                let a_in = token_in@ == old(self).token_a@;
                let (ri, ro) = swap_reserves(*old(self), a_in);
                (token_in@ == old(self).token_a@ || token_in@ == old(self).token_b@)
                    && swap_computable(*old(self), a_in, amount_in as int)
                    && swap_out_spec(ri, ro, amount_in as int) < min_amount_out
            }) ==> r == Err::<SwapOutcome, ContractError>(ContractError::SlippageLimitExceeded),
            r matches Err(e) ==> e == ContractError::Overflow || e == ContractError::DivisionByZero
                || e == ContractError::InvalidToken || e == ContractError::SlippageLimitExceeded,
            r matches Ok(o) ==> {
                let (ri, ro) = swap_reserves(*old(self), o.a_in);
                &&& o.a_in == (token_in@ == old(self).token_a@)
                &&& (!o.a_in ==> token_in@ == old(self).token_b@)
                &&& o.amount_out == swap_out_spec(ri, ro, amount_in as int)
                &&& o.amount_out >= min_amount_out
                &&& final(self).reserve_a == (if o.a_in { old(self).reserve_a + amount_in } else { old(self).reserve_a - o.amount_out })
                &&& final(self).reserve_b == (if o.a_in { old(self).reserve_b - o.amount_out } else { old(self).reserve_b + amount_in })
                &&& o.price_before == spot_price_spec(ri, ro)
                &&& o.price_after == spot_price_spec(final(self).reserve_a as int, final(self).reserve_b as int)
                &&& o.price_impact_bps == price_impact_bps_spec(o.price_before as int, o.price_after as int)
                &&& o.slippage_bps == slippage_bps_spec(ideal_out_spec(ri, ro, amount_in as int), o.amount_out as int)
                &&& final(self).volume_a == old(self).volume_a + (if o.a_in { amount_in } else { o.amount_out })
                &&& final(self).volume_b == old(self).volume_b + (if o.a_in { o.amount_out } else { amount_in })
                &&& final(self).swap_count == old(self).swap_count + 1
                &&& o.volume_a == final(self).volume_a
                &&& o.volume_b == final(self).volume_b
                &&& o.swap_count == final(self).swap_count
                &&& final(self).lp_supply == old(self).lp_supply
                &&& final(self).token_a == old(self).token_a
                &&& final(self).token_b == old(self).token_b
            },
            r matches Ok(o) ==> o.amount_out == (if o.a_in {
                swap_out_spec(old(self).reserve_a as int, old(self).reserve_b as int, amount_in as int)
            } else {
                swap_out_spec(old(self).reserve_b as int, old(self).reserve_a as int, amount_in as int)
            }),
            (r is Ok && old(self).reserve_a > 0 && old(self).reserve_b > 0 && amount_in > 0) ==> {
                &&& final(self).reserve_a > 0
                &&& final(self).reserve_b > 0
                &&& final(self).reserve_a * final(self).reserve_b >= old(self).reserve_a * old(self).reserve_b
            },
            swap_computable(*old(self), token_in@ == old(self).token_a@, amount_in as int)
                && (token_in@ == old(self).token_a@ || token_in@ == old(self).token_b@)
                && swap_out_spec(swap_reserves(*old(self), token_in@ == old(self).token_a@).0,
                    swap_reserves(*old(self), token_in@ == old(self).token_a@).1, amount_in as int) >= min_amount_out
                ==> r is Ok,
    {
        let reserve_a = self.reserve_a;
        let reserve_b = self.reserve_b;
        let (reserve_in, reserve_out, is_a_in) = if addr_eq(token_in, &self.token_a) {
            (reserve_a, reserve_b, true)
        } else if addr_eq(token_in, &self.token_b) {
            (reserve_b, reserve_a, false)
        } else {
            return Err(ContractError::InvalidToken);
        };
        let price_before = Self::_spot_price(reserve_in, reserve_out)?;
        let amount_in_with_fee = c_mul(amount_in, 997)?;
        let numerator = c_mul(amount_in_with_fee, reserve_out)?;
        let denominator = c_add(c_mul(reserve_in, 1000)?, amount_in_with_fee)?;
        let amount_out = c_div(numerator, denominator)?;
        if amount_out < min_amount_out {
            return Err(ContractError::SlippageLimitExceeded);
        }
        let ideal_out = c_div(c_mul(amount_in, reserve_out)?, c_add(reserve_in, amount_in)?)?;
        let slippage_bps: i128 = if ideal_out > 0 {
            c_div(c_mul(c_sub(ideal_out, amount_out)?, 10_000)?, ideal_out)?
        } else {
            0
        };
        let (new_reserve_a, new_reserve_b) = if is_a_in {
            (c_add(reserve_a, amount_in)?, c_sub(reserve_b, amount_out)?)
        } else {
            (c_sub(reserve_a, amount_out)?, c_add(reserve_b, amount_in)?)
        };
        let price_after = Self::_spot_price(new_reserve_a, new_reserve_b)?;
        let price_impact_bps: i128 = if price_before > 0 {
            let delta = if price_after > price_before { c_sub(price_after, price_before)? } else { c_sub(price_before, price_after)? };
            c_div(c_mul(delta, 10_000)?, price_before)?
        } else {
            0
        };
        let (vol_a, vol_b) = if is_a_in {
            (c_add(self.volume_a, amount_in)?, c_add(self.volume_b, amount_out)?)
        } else {
            (c_add(self.volume_a, amount_out)?, c_add(self.volume_b, amount_in)?)
        };
        if self.swap_count == u64::MAX {
            return Err(ContractError::Overflow);
        }
        let swap_count = self.swap_count + 1;
        proof {
            if reserve_a > 0 && reserve_b > 0 && amount_in > 0 {
                lemma_swap_product_never_falls(reserve_a as int, reserve_b as int, amount_in as int, is_a_in);
            }
        }
        self.reserve_a = new_reserve_a;
        self.reserve_b = new_reserve_b;
        self.volume_a = vol_a;
        self.volume_b = vol_b;
        self.swap_count = swap_count;
        Ok(SwapOutcome {
            a_in: is_a_in,
            amount_out,
            price_before,
            price_after,
            price_impact_bps,
            slippage_bps,
            volume_a: vol_a,
            volume_b: vol_b,
            swap_count,
        })
    }
}

// ── Laws ────────────────────────────────────────────────────────────────────

/// A swap never lowers the product of the reserves: with a positive input reserve, a
/// non-negative output reserve and a positive input, the output is non-negative, never
/// exceeds the output reserve (and stays below it when that reserve is positive), and
/// (reserve_in + amount_in) * (reserve_out - amount_out) >= reserve_in * reserve_out.
pub proof fn lemma_swap_keeps_product(ri: int, ro: int, amount_in: int)
    requires
        ri > 0,
        ro >= 0,
        amount_in > 0,
    ensures
        0 <= swap_out_spec(ri, ro, amount_in) <= ro,
        ro > 0 ==> swap_out_spec(ri, ro, amount_in) < ro,
        (ri + amount_in) * (ro - swap_out_spec(ri, ro, amount_in)) >= ri * ro,
{
    let n = amount_in * 997 * ro;
    let d = ri * 1000 + amount_in * 997;
    let out = swap_out_spec(ri, ro, amount_in);
    assert(n >= 0) by (nonlinear_arith) requires amount_in > 0, ro >= 0, n == amount_in * 997 * ro;
    assert(d > 0) by (nonlinear_arith) requires ri > 0, amount_in > 0, d == ri * 1000 + amount_in * 997;
    assert(out == n / d);
    assert(0 <= out && out * d <= n) by (nonlinear_arith) requires n >= 0, d > 0, out == n / d;
    assert(997 * (out * (ri + amount_in)) <= out * d) by (nonlinear_arith)
        requires out >= 0, ri > 0, d == ri * 1000 + amount_in * 997;
    assert(out * (ri + amount_in) <= amount_in * ro) by (nonlinear_arith)
        requires 997 * (out * (ri + amount_in)) <= out * d, out * d <= n, n == amount_in * 997 * ro;
    assert((ri + amount_in) * (ro - out) >= ri * ro) by (nonlinear_arith)
        requires out * (ri + amount_in) <= amount_in * ro;
    if ro > 0 {
        assert(out < ro) by (nonlinear_arith)
            requires out * (ri + amount_in) <= amount_in * ro, ri > 0, amount_in > 0, ro > 0;
    } else {
        assert(out <= ro) by (nonlinear_arith)
            requires out * (ri + amount_in) <= amount_in * ro, ri > 0, amount_in > 0, ro == 0, out >= 0;
    }
}

/// A swap in either direction, priced with the reserve of the token paid in as the input
/// reserve, pays out a non-negative amount, leaves both reserves positive and never lowers
/// the product `reserve_a * reserve_b` of the pool's reserves.
pub proof fn lemma_swap_product_never_falls(reserve_a: int, reserve_b: int, amount_in: int, a_in: bool)
    requires
        reserve_a > 0,
        reserve_b > 0,
        amount_in > 0,
    ensures
        ({
            let out = if a_in { swap_out_spec(reserve_a, reserve_b, amount_in) } else { swap_out_spec(reserve_b, reserve_a, amount_in) };
            let new_a = if a_in { reserve_a + amount_in } else { reserve_a - out };
            let new_b = if a_in { reserve_b - out } else { reserve_b + amount_in };
            &&& out >= 0
            &&& new_a > 0
            &&& new_b > 0
            &&& new_a * new_b >= reserve_a * reserve_b
        }),
{
    if a_in {
        lemma_swap_keeps_product(reserve_a, reserve_b, amount_in);
    } else {
        lemma_swap_keeps_product(reserve_b, reserve_a, amount_in);
        let out = swap_out_spec(reserve_b, reserve_a, amount_in);
        assert((reserve_a - out) * (reserve_b + amount_in) == (reserve_b + amount_in) * (reserve_a - out)) by (nonlinear_arith);
        assert(reserve_a * reserve_b == reserve_b * reserve_a) by (nonlinear_arith);
    }
}

/// Burning LP shares never pays out more than the reserves: with non-negative reserves, a
/// positive supply and 0 <= lp_amount <= supply, each payout lies between 0 and its reserve.
pub proof fn lemma_remove_liquidity_bounded(reserve: int, supply: int, lp_amount: int)
    requires
        reserve >= 0,
        supply > 0,
        0 <= lp_amount <= supply,
    ensures
        0 <= div_trunc(lp_amount * reserve, supply) <= reserve,
{
    assert(0 <= lp_amount * reserve <= supply * reserve) by (nonlinear_arith)
        requires reserve >= 0, 0 <= lp_amount <= supply;
    let q = (lp_amount * reserve) / supply;
    assert(0 <= q <= reserve) by (nonlinear_arith)
        requires 0 <= lp_amount * reserve <= supply * reserve, supply > 0, q == (lp_amount * reserve) / supply;
}

/// A sole liquidity provider gets back exactly its deposit: into an empty pool, a first
/// deposit of a > 0 and b > 0 takes both amounts and mints lp > 0 shares, the whole supply;
/// burning those lp shares then pays out exactly a and b and leaves no reserves and no supply.
pub proof fn lemma_sole_provider_round_trip(pool: AmmPoolV2, a: int, b: int)
    requires
        pool.reserve_a == 0,
        pool.reserve_b == 0,
        pool.lp_supply == 0,
        a > 0,
        b > 0,
    ensures
        ({
            let (da, db, lp) = deposit_amounts(pool, a, b);
            &&& da == a
            &&& db == b
            &&& lp > 0
            &&& div_trunc(lp * (pool.reserve_a + da), pool.lp_supply + lp) == a
            &&& div_trunc(lp * (pool.reserve_b + db), pool.lp_supply + lp) == b
            &&& (pool.reserve_a + da) - a == 0
            &&& (pool.reserve_b + db) - b == 0
            &&& (pool.lp_supply + lp) - lp == 0
        }),
{
    let y = a * b;
    assert(y >= 1) by (nonlinear_arith) requires a > 0, b > 0, y == a * b;
    lemma_isqrt_exists(y);
    let lp = isqrt(y);
    assert(is_isqrt(y, lp));
    if lp == 0 {
        assert((lp + 1) * (lp + 1) == 1);
    }
    assert(lp > 0);
    assert(lp * a >= 0 && (lp * a) / lp == a) by (nonlinear_arith) requires lp > 0, a > 0;
    assert(lp * b >= 0 && (lp * b) / lp == b) by (nonlinear_arith) requires lp > 0, b > 0;
}

// ── Proofs ──────────────────────────────────────────────────────────────────

/// Every non-negative integer has an integer square root.
proof fn lemma_isqrt_exists(y: int)
    requires
        y >= 0,
    ensures
        exists|r: int| is_isqrt(y, r),
    decreases y,
{
    if y == 0 {
        assert(is_isqrt(0, 0));
    } else {
        let z = y - 1;
        lemma_isqrt_exists(z);
        let r = choose|r: int| is_isqrt(z, r);
        if z == 0 {
            assert(r == 0);
            assert(r * r == 0 && (r + 1) * (r + 1) == 1) by (nonlinear_arith) requires r == 0;
        } else {
            assert(r >= 0 && r * r <= z && z < (r + 1) * (r + 1));
        }
        assert(r >= 0 && r * r <= y && y <= (r + 1) * (r + 1));
        if (r + 1) * (r + 1) <= y {
            assert(y < (r + 2) * (r + 2)) by (nonlinear_arith) requires y <= (r + 1) * (r + 1), r >= 0;
            assert(is_isqrt(y, r + 1));
        } else {
            assert(is_isqrt(y, r));
        }
    }
}

pub open spec fn sq(s: int) -> int {
    s * s
}

/// There is at most one integer square root of y.
proof fn lemma_isqrt_unique(y: int, r1: int, r2: int)
    requires
        is_isqrt(y, r1),
        is_isqrt(y, r2),
    ensures
        r1 == r2,
{
    if y > 0 {
        if r1 < r2 {
            assert((r1 + 1) * (r1 + 1) <= r2 * r2) by (nonlinear_arith) requires 0 <= r1 < r2;
        } else if r2 < r1 {
            assert((r2 + 1) * (r2 + 1) <= r1 * r1) by (nonlinear_arith) requires 0 <= r2 < r1;
        }
    }
}

/// One Newton step from any positive guess stays at or above every s with s*s <= y.
proof fn lemma_newton_step_bound(y: int, z: int)
    requires
        y >= 0,
        z > 0,
    ensures
        forall|s: int| 0 <= s && #[trigger] sq(s) <= y ==> s <= (y / z + z) / 2,
{
    assert forall|s: int| 0 <= s && #[trigger] sq(s) <= y implies s <= (y / z + z) / 2 by {
        // (z - s)^2 >= 0 gives y >= s*s >= z * (2s - z), so y / z >= 2s - z.
        assert(z * (2 * s - z) <= s * s) by (nonlinear_arith) requires z > 0;
        assert(y / z >= 2 * s - z) by (nonlinear_arith) requires z * (2 * s - z) <= y, z > 0;
    }
}

/// A guess whose square exceeds y is followed by a strictly smaller one.
proof fn lemma_newton_step_decreases(y: int, z: int)
    requires
        y >= 0,
        z > 0,
        z * z > y,
    ensures
        (y / z + z) / 2 < z,
{
    assert(y / z < z) by (nonlinear_arith) requires z * z > y, z > 0, y >= 0;
}

} // verus!
