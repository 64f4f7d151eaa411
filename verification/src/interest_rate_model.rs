//! Kinked interest-rate model of the lending pool, in 1e18 fixed point.
use vstd::prelude::*;

use crate::math::{div_t, fits_i128, mul_wad_div, tdiv};

verus! {

/// Scaling factor for fixed-point arithmetic (1e18).
pub const SCALE: i128 = 1_000_000_000_000_000_000;

/// Configuration of the kinked interest-rate model; every field is scaled by `SCALE`.
#[derive(Clone, Copy, Debug, PartialEq, Eq, Structural)]
pub struct RateModelConfig {
    /// Annual base interest rate.
    pub base_rate: i128,
    /// Rate increase per utilization point before the kink.
    pub multiplier: i128,
    /// Rate increase per utilization point after the kink.
    pub jump_multiplier: i128,
    /// Utilization threshold where the slope changes.
    pub kink: i128,
}

/// Result of an interest-rate calculation; every field is scaled by `SCALE`.
#[derive(Clone, Copy, Debug, PartialEq, Eq, Structural)]
pub struct RateCalculationResult {
    pub borrow_rate: i128,
    pub supply_rate: i128,
    pub utilization_rate: i128,
}

// ── Mathematical model ──────────────────────────────────────────────────────

/// total_borrows / (total_cash + total_borrows - total_reserves), scaled, and 0 when
/// the denominator is not positive.
pub open spec fn utilization_spec(total_cash: int, total_borrows: int, total_reserves: int) -> int {
    let d = total_cash + total_borrows - total_reserves;
    if d <= 0 { 0 } else { div_t(total_borrows * SCALE, d) }
}

/// The inputs on which `calculate_utilization_rate` computes without overflow.
pub open spec fn utilization_computable(total_cash: int, total_borrows: int, total_reserves: int) -> bool {
    &&& fits_i128(total_cash + total_borrows)
    &&& fits_i128(total_cash + total_borrows - total_reserves)
    &&& (total_cash + total_borrows - total_reserves > 0 ==> fits_i128(utilization_spec(total_cash, total_borrows, total_reserves)))
}

/// The configuration is valid: kink in [0, SCALE] and no negative rate.
pub open spec fn config_valid(c: RateModelConfig) -> bool {
    &&& 0 <= c.kink <= SCALE
    &&& c.base_rate >= 0
    &&& c.multiplier >= 0
    &&& c.jump_multiplier >= 0
}

/// The borrow rate of the kinked model.
pub open spec fn borrow_rate_spec(u: int, c: RateModelConfig) -> int {
    if u <= c.kink {
        c.base_rate + div_t(u * c.multiplier, SCALE as int)
    } else {
        c.base_rate + div_t(c.kink * c.multiplier, SCALE as int) + div_t((u - c.kink) * c.jump_multiplier, SCALE as int)
    }
}

/// The inputs on which `calculate_borrow_rate` computes without overflow.
pub open spec fn borrow_rate_computable(u: int, c: RateModelConfig) -> bool {
    if u <= c.kink {
        &&& fits_i128(u * c.multiplier)
        &&& fits_i128(c.base_rate + div_t(u * c.multiplier, SCALE as int))
    } else {
        &&& fits_i128(c.kink * c.multiplier)
        &&& fits_i128(c.base_rate + div_t(c.kink * c.multiplier, SCALE as int))
        &&& fits_i128(u - c.kink)
        &&& fits_i128((u - c.kink) * c.jump_multiplier)
        &&& fits_i128(borrow_rate_spec(u, c))
    }
}

/// The supply rate: (borrow_rate * utilization / SCALE) * (SCALE - reserve_factor) / SCALE,
/// and 0 at zero utilization.
pub open spec fn supply_rate_spec(b: int, u: int, rf: int) -> int {
    if u == 0 { 0 } else { div_t(div_t(b * u, SCALE as int) * (SCALE - rf), SCALE as int) }
}

/// The inputs on which `calculate_supply_rate` computes without overflow.
pub open spec fn supply_rate_computable(b: int, u: int, rf: int) -> bool {
    u != 0 ==> {
        &&& fits_i128(b * u)
        &&& fits_i128(SCALE - rf)
        &&& fits_i128(div_t(b * u, SCALE as int) * (SCALE - rf))
    }
}

/// The inputs on which `calculate_rates` computes without overflow.
pub open spec fn rates_computable(cash: int, borrows: int, reserves: int, rf: int, c: RateModelConfig) -> bool {
    let u = utilization_spec(cash, borrows, reserves);
    &&& utilization_computable(cash, borrows, reserves)
    &&& borrow_rate_computable(u, c)
    &&& supply_rate_computable(borrow_rate_spec(u, c), u, rf)
}

// ── Executable functions ────────────────────────────────────────────────────

/// Utilization of the pool, scaled by `SCALE` (SCALE = 100%); 0 when the denominator
/// total_cash + total_borrows - total_reserves is not positive.
pub fn calculate_utilization_rate(total_cash: i128, total_borrows: i128, total_reserves: i128) -> (r: i128)
    requires
        utilization_computable(total_cash as int, total_borrows as int, total_reserves as int),
    ensures
        r == utilization_spec(total_cash as int, total_borrows as int, total_reserves as int),
{
    let denominator = total_cash + total_borrows - total_reserves;
    if denominator <= 0 {
        return 0;
    }
    let d = denominator as u128;
    if total_borrows >= 0 {
        let q = mul_wad_div(total_borrows as u128, d);
        q as i128
    } else {
        let x: u128 = ((-(total_borrows + 1)) as u128) + 1;
        assert(x == -total_borrows);
        let q = mul_wad_div(x, d);
        if q == 0x8000_0000_0000_0000_0000_0000_0000_0000u128 {
            i128::MIN
        } else {
            -(q as i128)
        }
    }
}

/// Checks the configuration: the kink must lie in [0, SCALE] and no rate may be negative.
/// The first failing check names the error.
pub fn validate_config(config: &RateModelConfig) -> (r: Result<(), &'static str>)
    ensures
        r is Ok <==> config_valid(*config),
        (config.kink < 0 || config.kink > SCALE) ==> r == Err::<(), &'static str>(
            "InvalidKinkPoint: kink must be between 0 and SCALE (1e18)"),
        (0 <= config.kink <= SCALE && config.base_rate < 0) ==> r == Err::<(), &'static str>(
            "NegativeRate: base_rate must be non-negative"),
        (0 <= config.kink <= SCALE && config.base_rate >= 0 && config.multiplier < 0) ==> r == Err::<
            (),
            &'static str,
        >("NegativeRate: multiplier must be non-negative"),
        (0 <= config.kink <= SCALE && config.base_rate >= 0 && config.multiplier >= 0
            && config.jump_multiplier < 0) ==> r == Err::<(), &'static str>(
            "NegativeRate: jump_multiplier must be non-negative"),
{
    if config.kink < 0 || config.kink > SCALE {
        return Err("InvalidKinkPoint: kink must be between 0 and SCALE (1e18)");
    }
    if config.base_rate < 0 {
        return Err("NegativeRate: base_rate must be non-negative");
    }
    if config.multiplier < 0 {
        return Err("NegativeRate: multiplier must be non-negative");
    }
    if config.jump_multiplier < 0 {
        return Err("NegativeRate: jump_multiplier must be non-negative");
    }
    Ok(())
}

/// Borrow rate of the kinked model: base + u * multiplier below or at the kink,
/// and the rate at the kink plus (u - kink) * jump_multiplier above it.
pub fn calculate_borrow_rate(utilization_rate: i128, config: &RateModelConfig) -> (r: i128)
    requires
        borrow_rate_computable(utilization_rate as int, *config),
    ensures
        r == borrow_rate_spec(utilization_rate as int, *config),
{
    if utilization_rate <= config.kink {
        config.base_rate + tdiv(utilization_rate * config.multiplier, SCALE)
    } else {
        let rate_at_kink = config.base_rate + tdiv(config.kink * config.multiplier, SCALE);
        let excess_utilization = utilization_rate - config.kink;
        rate_at_kink + tdiv(excess_utilization * config.jump_multiplier, SCALE)
    }
}

/// Supply rate earned by lenders; 0 at zero utilization.
pub fn calculate_supply_rate(borrow_rate: i128, utilization_rate: i128, reserve_factor: i128) -> (r: i128)
    requires
        supply_rate_computable(borrow_rate as int, utilization_rate as int, reserve_factor as int),
    ensures
        r == supply_rate_spec(borrow_rate as int, utilization_rate as int, reserve_factor as int),
{
    if utilization_rate == 0 {
        return 0;
    }
    let rate_to_pool = tdiv(borrow_rate * utilization_rate, SCALE);
    tdiv(rate_to_pool * (SCALE - reserve_factor), SCALE)
}

/// Utilization, borrow and supply rates of the pool in one call.
pub fn calculate_rates(
    total_cash: i128,
    total_borrows: i128,
    total_reserves: i128,
    reserve_factor: i128,
    config: &RateModelConfig,
) -> (r: RateCalculationResult)
    requires
        rates_computable(total_cash as int, total_borrows as int, total_reserves as int,
            reserve_factor as int, *config),
    ensures
        r.utilization_rate == utilization_spec(total_cash as int, total_borrows as int, total_reserves as int),
        r.borrow_rate == borrow_rate_spec(r.utilization_rate as int, *config),
        r.supply_rate == supply_rate_spec(r.borrow_rate as int, r.utilization_rate as int, reserve_factor as int),
{
    let utilization_rate = calculate_utilization_rate(total_cash, total_borrows, total_reserves);
    let borrow_rate = calculate_borrow_rate(utilization_rate, config);
    let supply_rate = calculate_supply_rate(borrow_rate, utilization_rate, reserve_factor);
    RateCalculationResult { borrow_rate, supply_rate, utilization_rate }
}

// ── Laws ────────────────────────────────────────────────────────────────────

/// Lenders never earn more than borrowers pay: with a non-negative borrow rate, a
/// utilization in [0, SCALE] and a reserve factor in [0, SCALE], the supply rate lies
/// between 0 and the borrow rate.
pub proof fn lemma_supply_rate_bounded_by_borrow_rate(b: int, u: int, rf: int)
    requires
        b >= 0,
        0 <= u <= SCALE,
        0 <= rf <= SCALE,
    ensures
        0 <= supply_rate_spec(b, u, rf) <= b,
{
    let s = SCALE as int;
    if u != 0 {
        assert(0 <= b * u <= b * s) by (nonlinear_arith) requires b >= 0, 0 <= u <= s;
        let p = (b * u) / s;
        assert(0 <= p <= b) by (nonlinear_arith) requires 0 <= b * u <= b * s, s > 0, p == (b * u) / s;
        assert(0 <= p * (s - rf) <= p * s) by (nonlinear_arith) requires p >= 0, 0 <= rf <= s;
        let q = (p * (s - rf)) / s;
        assert(0 <= q <= p) by (nonlinear_arith)
            requires 0 <= p * (s - rf) <= p * s, s > 0, q == (p * (s - rf)) / s;
    }
}

/// Utilization stays within [0, SCALE] while borrows are non-negative and reserves do not
/// exceed the cash.
pub proof fn lemma_utilization_in_unit_range(cash: int, borrows: int, reserves: int)
    requires
        borrows >= 0,
        reserves <= cash,
    ensures
        0 <= utilization_spec(cash, borrows, reserves) <= SCALE,
{
    let d = cash + borrows - reserves;
    let s = SCALE as int;
    if d > 0 {
        assert(0 <= borrows * s <= d * s) by (nonlinear_arith) requires 0 <= borrows <= d, s > 0;
        let q = (borrows * s) / d;
        assert(0 <= q <= s) by (nonlinear_arith) requires 0 <= borrows * s <= d * s, d > 0, q == (borrows * s) / d;
    }
}

/// Under a valid configuration the borrow rate never falls below the base rate and never
/// decreases as utilization grows.
pub proof fn lemma_borrow_rate_monotone(u1: int, u2: int, c: RateModelConfig)
    requires
        config_valid(c),
        0 <= u1 <= u2,
    ensures
        c.base_rate <= borrow_rate_spec(u1, c) <= borrow_rate_spec(u2, c),
{
    let s = SCALE as int;
    assert forall|x: int, y: int, m: int| 0 <= x <= y && m >= 0 implies
        0 <= #[trigger] ((x * m) / s) <= #[trigger] ((y * m) / s) by {
        assert(0 <= x * m <= y * m) by (nonlinear_arith) requires 0 <= x <= y, m >= 0;
        lemma_div_monotone(x * m, y * m, s);
    }
    if u1 <= c.kink && u2 > c.kink {
        assert(0 <= (c.kink * c.multiplier) / s);
        assert(0 <= (u1 * c.multiplier) / s <= (c.kink * c.multiplier) / s);
        assert(0 <= ((u2 - c.kink) * c.jump_multiplier) / s) by {
            assert(0 <= (0 * c.jump_multiplier) / s <= ((u2 - c.kink) * c.jump_multiplier) / s);
        }
    } else if u1 <= c.kink {
        assert(0 <= (u1 * c.multiplier) / s <= (u2 * c.multiplier) / s);
    } else {
        assert(0 <= (c.kink * c.multiplier) / s);
        assert(0 <= ((u1 - c.kink) * c.jump_multiplier) / s <= ((u2 - c.kink) * c.jump_multiplier) / s);
    }
}

proof fn lemma_div_monotone(a: int, b: int, d: int)
    requires
        0 <= a <= b,
        d > 0,
    ensures
        0 <= a / d <= b / d,
{
    assert(0 <= a / d <= b / d) by (nonlinear_arith) requires 0 <= a <= b, d > 0;
}

} // verus!
