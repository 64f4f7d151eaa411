//! Integer helpers shared by every contract module.
use vstd::prelude::*;

use crate::error::ContractError;

verus! {

/// Rust's division on signed integers by a positive divisor: the quotient rounded toward zero.
pub open spec fn div_t(a: int, b: int) -> int {
    if a >= 0 { a / b } else { -((-a) / b) }
}

/// Signed division as Rust computes it, with its result stated over `div_t`.
pub fn tdiv(a: i128, b: i128) -> (r: i128)
    requires
        b > 0,
    ensures
        r == div_t(a as int, b as int),
{
    let r = a / b;
    if a >= 0 {
        assert(r == (a as int) / (b as int));
    } else {
        assert(r == -((-(a as int)) / (b as int)));
    }
    r
}

/// The value fits the range of `i128`.
pub open spec fn fits_i128(x: int) -> bool {
    i128::MIN <= x <= i128::MAX
}

/// Rust's division on signed integers for any non-zero divisor: rounded toward zero.
pub open spec fn div_trunc(a: int, b: int) -> int {
    if b > 0 { div_t(a, b) } else { -div_t(a, -b) }
}

/// The value fits the range of `u64`.
pub open spec fn fits_u64(x: int) -> bool {
    0 <= x <= u64::MAX
}

/// The value fits the range of `u32`.
pub open spec fn fits_u32(x: int) -> bool {
    0 <= x <= u32::MAX
}

/// `Ok` of the value when it fits an `i128`, the overflow error otherwise.
pub open spec fn checked_i128(x: int) -> Result<i128, ContractError> {
    if fits_i128(x) { Ok(x as i128) } else { Err(ContractError::Overflow) }
}

/// Addition that reports overflow.
pub fn c_add(a: i128, b: i128) -> (r: Result<i128, ContractError>)
    ensures
        r == checked_i128(a + b),
{
    match a.checked_add(b) {
        Some(v) => Ok(v),
        None => Err(ContractError::Overflow),
    }
}

/// Subtraction that reports overflow.
pub fn c_sub(a: i128, b: i128) -> (r: Result<i128, ContractError>)
    ensures
        r == checked_i128(a - b),
{
    match a.checked_sub(b) {
        Some(v) => Ok(v),
        None => Err(ContractError::Overflow),
    }
}

/// Multiplication that reports overflow.
pub fn c_mul(a: i128, b: i128) -> (r: Result<i128, ContractError>)
    ensures
        r == checked_i128(a * b),
{
    match a.checked_mul(b) {
        Some(v) => Ok(v),
        None => Err(ContractError::Overflow),
    }
}

/// The outcome of Rust's `a / b` on `i128`: an error for a zero divisor and for the one
/// overflowing quotient, the truncated quotient otherwise.
pub open spec fn checked_div_spec(a: int, b: int) -> Result<i128, ContractError> {
    if b == 0 {
        Err(ContractError::DivisionByZero)
    } else {
        checked_i128(div_trunc(a, b))
    }
}

/// Division that reports a zero divisor and overflow.
pub fn c_div(a: i128, b: i128) -> (r: Result<i128, ContractError>)
    ensures
        r == checked_div_spec(a as int, b as int),
{
    if b == 0 {
        return Err(ContractError::DivisionByZero);
    }
    if b > 0 {
        return Ok(tdiv(a, b));
    }
    if b == i128::MIN {
        // |a| <= |b|: the quotient is 1 when a == b and 0 otherwise.
        let ghost m: int = -(b as int);
        if a >= 0 {
            assert((a as int) / m == 0) by (nonlinear_arith) requires 0 <= a < m;
        } else if a == i128::MIN {
            assert((-(a as int)) / m == 1) by (nonlinear_arith) requires -(a as int) == m, m > 0;
        } else {
            assert((-(a as int)) / m == 0) by (nonlinear_arith) requires 0 < -(a as int) < m;
        }
        return if a == i128::MIN { Ok(1) } else { Ok(0) };
    }
    let q = tdiv(a, -b);
    if q == i128::MIN {
        return Err(ContractError::Overflow);
    }
    Ok(-q)
}

/// Scale of the 1e18 fixed-point figures.
pub const WAD: u64 = 1_000_000_000_000_000_000;

proof fn lemma_shr_step(x: u64, k: u64)
    requires
        k < 63,
    ensures
        (x >> k) == 2 * (x >> (k + 1)) + ((x >> k) & 1),
{
    assert((x >> k) == 2 * (x >> (k + 1)) + ((x >> k) & 1)) by (bit_vector) requires k < 63;
}

/// floor(r · 1e18 / d) for 0 <= r < d, computed by binary long division without any
/// intermediate value exceeding 2·d.
pub fn mul_wad_div_small(r: u128, d: u128) -> (q: u128)
    requires
        r < d,
        d <= i128::MAX,
    ensures
        q == (r * WAD) / (d as int),
{
    let s: u64 = WAD;
    let mut aq: u128 = 0;
    let mut ar: u128 = 0;
    let mut i: u64 = 60;
    proof {
        assert(s >> 60u64 == 0u64) by (bit_vector) requires s == 1_000_000_000_000_000_000u64;
    }
    while i > 0
        invariant
            i <= 60,
            s == WAD,
            r < d,
            d <= i128::MAX,
            ar < d,
            aq <= (s >> i),
            aq * d + ar == r * (s >> i),
        decreases i,
    {
        i = i - 1;
        proof { lemma_shr_step(s, i); }
        let bit = (s >> i) & 1;
        let ghost p_old = (s >> (i + 1)) as int;
        let ghost p_new = (s >> i) as int;
        assert(bit <= 1) by (bit_vector) requires bit == (s >> i) & 1;
        assert(aq * d + ar == r * p_old);
        let mut nr = ar * 2;
        let mut nq = aq * 2;
        assert(nq * d + nr == 2 * (aq * d + ar)) by (nonlinear_arith) requires nq == aq * 2, nr == ar * 2;
        if nr >= d {
            nr = nr - d;
            nq = nq + 1;
            assert(nq * d + nr == (nq - 1) * d + nr + d) by (nonlinear_arith);
        }
        assert(nq * d + nr == 2 * (r * p_old));
        if bit == 1 {
            nr = nr + r;
            if nr >= d {
                nr = nr - d;
                nq = nq + 1;
                assert(nq * d + nr == (nq - 1) * d + nr + d) by (nonlinear_arith);
            }
            assert(nq * d + nr == 2 * (r * p_old) + r * bit);
        } else {
            assert(bit == 0);
            assert(nq * d + nr == 2 * (r * p_old) + r * bit);
        }
        assert(nq * d + nr == r * p_new) by (nonlinear_arith)
            requires nq * d + nr == 2 * (r * p_old) + r * bit, p_new == 2 * p_old + bit;
        assert(nq <= p_new) by (nonlinear_arith) requires nq * d + nr == r * p_new, r < d, nr >= 0, d > 0, p_new >= 0;
        aq = nq;
        ar = nr;
    }
    proof {
        assert(s >> 0u64 == s) by (bit_vector);
        assert(aq == (r * WAD) / (d as int)) by (nonlinear_arith) requires aq * d + ar == r * WAD, 0 <= ar < d;
    }
    aq
}

/// floor(x · 1e18 / d) for a positive divisor, when the result fits a `u128`.
pub fn mul_wad_div(x: u128, d: u128) -> (q: u128)
    requires
        0 < d <= i128::MAX,
        (x * WAD) / (d as int) <= u128::MAX,
    ensures
        q == (x * WAD) / (d as int),
{
    let hi = x / d;
    let lo = x % d;
    let part = mul_wad_div_small(lo, d);
    proof {
        assert(x == hi * d + lo) by (nonlinear_arith) requires hi == x / d, lo == x % d, d > 0;
        assert((x * WAD) / (d as int) == hi * WAD + (lo * WAD) / (d as int)) by (nonlinear_arith)
            requires x == hi * d + lo, 0 <= lo < d, d > 0;
        assert(hi * WAD <= (x * WAD) / (d as int)) by (nonlinear_arith)
            requires (x * WAD) / (d as int) == hi * WAD + (lo * WAD) / (d as int), lo >= 0, d > 0;
    }
    hi * (WAD as u128) + part
}

} // verus!
