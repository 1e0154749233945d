//! Interest-rate arithmetic of the lending pools.
use vstd::prelude::*;
use crate::num::{tdiv, div_i128};

verus! {

/// Fixed-point scale used for pool utilization (1e18).
pub const PRECISION: i128 = 1_000_000_000_000_000_000;

/// Base rate of every pool, in basis points (5%).
pub const BASE_RATE_BPS: u32 = 5000;

/// Seconds in a (365-day) year.
pub const SECONDS_PER_YEAR: i128 = 31_536_000;

/// Pool utilization scaled by `PRECISION`: `borrowed * 1e18 / (borrowed + liquidity)`.
pub open spec fn utilization_spec(total_borrowed: int, total_liquidity: int) -> int {
    tdiv(total_borrowed * PRECISION, total_borrowed + total_liquidity)
}

/// Variable part of the rate: utilization times 45% (45_000 bps over the scale).
pub open spec fn variable_rate_spec(total_borrowed: int, total_liquidity: int) -> int {
    tdiv(utilization_spec(total_borrowed, total_liquidity) * 45000, PRECISION as int)
}

/// The pool rate in basis points: 5% for an empty pool, otherwise
/// 5% plus the variable part (taken as a `u32`, as the contract casts it).
pub open spec fn rate_spec(total_borrowed: int, total_liquidity: int) -> int {
    if total_borrowed == 0 && total_liquidity == 0 {
        5000
    } else {
        5000 + (variable_rate_spec(total_borrowed, total_liquidity) as u32)
    }
}

/// The inputs on which `calculate_rate` computes without overflow or a
/// division by zero.
pub open spec fn rate_defined(total_borrowed: int, total_liquidity: int) -> bool {
    (total_borrowed == 0 && total_liquidity == 0) || {
        &&& i128::MIN <= total_borrowed * PRECISION <= i128::MAX
        &&& i128::MIN <= total_borrowed + total_liquidity <= i128::MAX
        &&& total_borrowed + total_liquidity != 0
        &&& i128::MIN <= utilization_spec(total_borrowed, total_liquidity) <= i128::MAX
        &&& i128::MIN <= utilization_spec(total_borrowed, total_liquidity) * 45000 <= i128::MAX
        &&& 5000 + (variable_rate_spec(total_borrowed, total_liquidity) as u32) <= u32::MAX
    }
}

/// Interest rate in basis points from pool utilization:
/// 5% + utilization x 45%, i.e. 5% to 50% for an ordinary pool.
pub fn calculate_rate(total_borrowed: i128, total_liquidity: i128) -> (rate: u32)
    requires
        rate_defined(total_borrowed as int, total_liquidity as int),
    ensures
        rate == rate_spec(total_borrowed as int, total_liquidity as int),
{
    if total_borrowed == 0 && total_liquidity == 0 {
        return BASE_RATE_BPS;
    }
    let utilization = div_i128(total_borrowed * PRECISION, total_borrowed + total_liquidity);
    let variable_rate = div_i128(utilization * 45000, PRECISION);
    BASE_RATE_BPS + (variable_rate as u32)
}

/// For a pool whose balances are not negative, the rate lies between 5% and 50%.
pub proof fn lemma_rate_bounds(total_borrowed: int, total_liquidity: int)
    requires
        total_borrowed >= 0,
        total_liquidity >= 0,
        total_borrowed + total_liquidity > 0,
    ensures
        5000 <= rate_spec(total_borrowed, total_liquidity) <= 50000,
        total_borrowed == 0 ==> rate_spec(total_borrowed, total_liquidity) == 5000,
        total_liquidity == 0 ==> rate_spec(total_borrowed, total_liquidity) == 50000,
{
    let s = total_borrowed + total_liquidity;
    let p = PRECISION as int;
    let u = (total_borrowed * p) / s;
    assert(0 <= total_borrowed * p) by (nonlinear_arith)
        requires total_borrowed >= 0, p > 0;
    assert(u <= p) by (nonlinear_arith)
        requires 0 <= total_borrowed <= s, s > 0, p > 0, u == (total_borrowed * p) / s;
    assert(0 <= u) by (nonlinear_arith)
        requires 0 <= total_borrowed, s > 0, p > 0, u == (total_borrowed * p) / s;
    crate::num::lemma_tdiv_nonneg(total_borrowed * p, s);
    let v = (u * 45000) / p;
    assert(0 <= v <= 45000) by (nonlinear_arith)
        requires 0 <= u <= p, p > 0, v == (u * 45000) / p;
    crate::num::lemma_tdiv_nonneg(u * 45000, p);
    if total_borrowed == 0 {
        assert(u == 0);
    }
    if total_liquidity == 0 {
        assert(total_borrowed * p / total_borrowed == p) by (nonlinear_arith)
            requires total_borrowed > 0, p > 0;
        assert(u == p);
        assert((p * 45000) / p == 45000) by (nonlinear_arith) requires p > 0;
    }
}

/// The rate never falls as more is borrowed from a pool of the same free
/// liquidity.
pub proof fn law_rate_monotone(b1: int, b2: int, total_liquidity: int)
    requires
        0 <= b1 <= b2,
        total_liquidity >= 0,
    ensures
        rate_spec(b1, total_liquidity) <= rate_spec(b2, total_liquidity),
{
    let l = total_liquidity;
    let p = PRECISION as int;
    if b2 + l == 0 {
        return;
    }
    lemma_rate_bounds(b2, l);
    if b1 + l == 0 {
        return;
    }
    lemma_rate_bounds(b1, l);
    let d1 = b1 + l;
    let d2 = b2 + l;
    let x1 = b1 * p;
    let x2 = b2 * p;
    assert(0 <= x1 && 0 <= x2) by (nonlinear_arith)
        requires b1 >= 0, b2 >= 0, p > 0, x1 == b1 * p, x2 == b2 * p;
    crate::num::lemma_tdiv_nonneg(x1, d1);
    crate::num::lemma_tdiv_nonneg(x2, d2);
    let u1 = x1 / d1;
    let u2 = x2 / d2;
    assert(x1 * d2 <= x2 * d1) by (nonlinear_arith)
        requires 0 <= b1 <= b2, l >= 0, p > 0, x1 == b1 * p, x2 == b2 * p, d1 == b1 + l, d2 == b2 + l;
    assert(u1 * d1 <= x1) by (nonlinear_arith)
        requires d1 > 0, x1 >= 0, u1 == x1 / d1;
    assert(u1 * d1 * d2 <= x2 * d1) by (nonlinear_arith)
        requires u1 * d1 <= x1, x1 * d2 <= x2 * d1, d2 > 0;
    assert(u1 * d2 <= x2) by (nonlinear_arith)
        requires u1 * d1 * d2 <= x2 * d1, d1 > 0;
    assert(u1 <= u2) by (nonlinear_arith)
        requires u1 * d2 <= x2, d2 > 0, u2 == x2 / d2, u1 >= 0;
    assert(u1 >= 0 && u2 >= 0) by (nonlinear_arith)
        requires x1 >= 0, x2 >= 0, d1 > 0, d2 > 0, u1 == x1 / d1, u2 == x2 / d2;
    crate::num::lemma_tdiv_nonneg(u1 * 45000, p);
    crate::num::lemma_tdiv_nonneg(u2 * 45000, p);
    assert((u1 * 45000) / p <= (u2 * 45000) / p) by (nonlinear_arith)
        requires 0 <= u1 <= u2, p > 0;
    assert(utilization_spec(b1, l) == u1);
    assert(utilization_spec(b2, l) == u2);
    let v1 = variable_rate_spec(b1, l);
    let v2 = variable_rate_spec(b2, l);
    assert(v1 == (u1 * 45000) / p);
    assert(v2 == (u2 * 45000) / p);
    assert(u1 <= p && u2 <= p) by (nonlinear_arith)
        requires 0 <= b1 <= d1, 0 <= b2 <= d2, d1 > 0, d2 > 0, p > 0, u1 == (b1 * p) / d1, u2 == (b2 * p) / d2;
    assert(0 <= v1 <= 45000) by (nonlinear_arith)
        requires 0 <= u1 <= p, p > 0, v1 == (u1 * 45000) / p;
    assert(0 <= v2 <= 45000) by (nonlinear_arith)
        requires 0 <= u2 <= p, p > 0, v2 == (u2 * 45000) / p;
    assert(v1 as u32 == v1 && v2 as u32 == v2);
}

/// Interest `principal * rate * seconds / (10_000 * 31_536_000)`, floored at zero.
pub open spec fn interest_spec(principal: int, rate: int, seconds: int) -> int {
    let i = tdiv(principal * rate * seconds, 10000 * SECONDS_PER_YEAR);
    if i > 0 { i } else { 0 }
}

/// Accrued interest on `principal` at `rate` bps over `seconds`.
pub fn calculate_interest(principal: i128, rate: u32, seconds: u64) -> (interest: i128)
    requires
        i128::MIN <= principal * rate <= i128::MAX,
        i128::MIN <= principal * rate * seconds <= i128::MAX,
    ensures
        interest == interest_spec(principal as int, rate as int, seconds as int),
        interest >= 0,
{
    let a = principal * (rate as i128);
    let b = a * (seconds as i128);
    let interest = div_i128(b, 10000 * SECONDS_PER_YEAR);
    if interest > 0 { interest } else { 0 }
}

/// The collateral level below which a loan can be liquidated: 110% of the loan.
pub open spec fn liquidation_threshold_spec(loan_amount: int) -> int {
    tdiv(loan_amount * 110, 100)
}

/// True when `collateral` is below 110% of `loan_amount`.
pub open spec fn liquidatable_spec(loan_amount: int, collateral: int) -> bool {
    collateral * 100 < loan_amount * 110
}

/// True when `collateral` is below 110% of `loan_amount`.
pub fn is_liquidatable(loan_amount: i128, collateral: i128) -> (r: bool)
    requires
        i128::MIN <= loan_amount * 110 <= i128::MAX,
    ensures
        r == liquidatable_spec(loan_amount as int, collateral as int),
{
    let threshold = loan_amount * 110;
    match collateral.checked_mul(100) {
        Some(c) => c < threshold,
        None => collateral < 0,
    }
}

} // verus!
